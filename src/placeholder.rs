use vstd::prelude::*;

use rand::distributions::{Alphanumeric, DistString};

verus! {

/// Length of the random part of a placeholder file name.
pub const SUFFIX_LEN: usize = 16;

/// The byte `-`.
pub const DASH: u8 = 45;

pub open spec fn is_alphanumeric(b: u8) -> bool {
    (48 <= b <= 57) || (65 <= b <= 90) || (97 <= b <= 122)
}

/// The decimal digits of `n`, most significant first.
pub open spec fn decimal(n: u64) -> Seq<u8>
    decreases n,
{
    if n < 10 {
        seq![(48 + n) as u8]
    } else {
        decimal(n / 10).push((48 + n % 10) as u8)
    }
}

/// The name of the placeholder file for remote handle `remote_fd`:
/// its decimal digits, a dash and the random part.
pub open spec fn placeholder_name_of(remote_fd: u64, suffix: Seq<u8>) -> Seq<u8> {
    decimal(remote_fd) + seq![DASH] + suffix
}

/// Relies on rand's `Alphanumeric.sample_string` with the thread-local
/// generator: `len` characters, each one of A-Z, a-z, 0-9.
#[verifier::external_body]
fn random_alphanumeric(len: usize) -> (r: Vec<u8>)
    ensures
        r@.len() == len,
        forall|i: int| 0 <= i < len ==> is_alphanumeric(#[trigger] r@[i]),
{
    Alphanumeric.sample_string(&mut rand::thread_rng(), len).into_bytes()
}

fn push_decimal(out: &mut Vec<u8>, n: u64)
    ensures
        final(out)@ == old(out)@ + decimal(n),
    decreases n,
{
    if n < 10 {
        out.push((48 + n) as u8);
        assert(final(out)@ =~= old(out)@ + decimal(n));
    } else {
        push_decimal(out, n / 10);
        out.push((48 + n % 10) as u8);
        assert(out@ =~= old(out)@ + decimal(n));
    }
}

/// The placeholder file name for `remote_fd` with the random part `suffix`.
pub fn placeholder_name(remote_fd: u64, suffix: &[u8]) -> (r: Vec<u8>)
    ensures
        r@ == placeholder_name_of(remote_fd, suffix@),
{
    let mut out: Vec<u8> = Vec::new();
    push_decimal(&mut out, remote_fd);
    out.push(DASH);
    let ghost head = out@;
    let mut i: usize = 0;
    while i < suffix.len()
        invariant
            0 <= i <= suffix@.len(),
            head == decimal(remote_fd) + seq![DASH],
            out@ == head + suffix@.take(i as int),
        decreases suffix@.len() - i,
    {
        out.push(suffix[i]);
        assert(suffix@.take(i + 1) =~= suffix@.take(i as int).push(suffix@[i as int]));
        assert(out@ =~= head + suffix@.take(i + 1));
        i = i + 1;
    }
    assert(suffix@.take(i as int) =~= suffix@);
    assert(out@ =~= placeholder_name_of(remote_fd, suffix@));
    out
}

/// A fresh placeholder file name for `remote_fd`, with a random part of
/// `SUFFIX_LEN` letters and digits.
pub fn new_placeholder_name(remote_fd: u64) -> (r: Vec<u8>)
    ensures
        r@ == placeholder_name_of(remote_fd, r@.skip(decimal(remote_fd).len() as int + 1)),
        r@.len() == decimal(remote_fd).len() + 1 + SUFFIX_LEN,
        forall|i: int|
            decimal(remote_fd).len() + 1 <= i < r@.len() ==> is_alphanumeric(#[trigger] r@[i]),
{
    let suffix = random_alphanumeric(SUFFIX_LEN);
    let r = placeholder_name(remote_fd, &suffix);
    proof {
        let k: int = decimal(remote_fd).len() as int + 1;
        assert(r@.skip(k) =~= suffix@);
        assert forall|i: int| k <= i < r@.len() implies is_alphanumeric(#[trigger] r@[i]) by {
            assert(r@[i] == suffix@[i - k]);
        }
    }
    r
}

} // verus!
