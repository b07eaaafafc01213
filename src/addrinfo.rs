use vstd::prelude::*;

use dashmap::DashSet;

use crate::detour::{Detour, HookError};

verus! {

#[verifier::external_type_specification]
#[verifier::external_body]
#[verifier::reject_recursive_types(K)]
#[verifier::reject_recursive_types(S)]
pub struct ExDashSet<K, S>(DashSet<K, S>);

/// The addresses a `DashSet` of addresses holds.
pub uninterp spec fn addr_set_contents(s: DashSet<usize>) -> Set<usize>;

/// Relies on `DashSet::new`: a set with nothing in it.
#[verifier::external_body]
fn addr_set_new() -> (r: DashSet<usize>)
    ensures
        addr_set_contents(r) == Set::<usize>::empty(),
{
    DashSet::new()
}

/// Relies on `DashSet::insert`: afterwards `key` is in the set, nothing else changed.
#[verifier::external_body]
fn addr_set_insert(s: &mut DashSet<usize>, key: usize)
    ensures
        addr_set_contents(*final(s)) == addr_set_contents(*old(s)).insert(key),
{
    s.insert(key);
}

/// Relies on `DashSet::remove`: afterwards `key` is not in the set, nothing
/// else changed; the result says whether it was there.
#[verifier::external_body]
fn addr_set_remove(s: &mut DashSet<usize>, key: usize) -> (r: bool)
    ensures
        addr_set_contents(*final(s)) == addr_set_contents(*old(s)).remove(key),
        r == addr_set_contents(*old(s)).contains(key),
{
    s.remove(&key).is_some()
}

/// Relies on `DashSet::contains`: whether `key` is in the set.
#[verifier::external_body]
fn addr_set_contains(s: &DashSet<usize>, key: usize) -> (r: bool)
    ensures
        r == addr_set_contents(*s).contains(key),
{
    s.contains(&key)
}

/// Who releases an address-resolution list.
#[derive(Debug, Clone, Copy, PartialEq, Eq)]
pub enum FreeStrategy {
    /// This layer built the list: it frees every node itself.
    Owned,
    /// The list came from the native resolver (or is null): the native release takes it.
    Native,
}

/// The addresses of the address-resolution lists that this layer built, so
/// that their release is not handed to the native allocator, nor a native
/// list to this layer's.
pub struct ManagedAddrInfo {
    set: DashSet<usize>,
}

/// How a release of the list whose nodes sit at `chain` (head first; empty
/// for a null list) goes, and what stays registered afterwards.
pub open spec fn release_outcome(reg: Set<usize>, chain: Seq<usize>) -> (FreeStrategy, Set<usize>) {
    if chain.len() > 0 && reg.contains(chain[0]) {
        (FreeStrategy::Owned, reg.difference(chain.to_set()))
    } else {
        (FreeStrategy::Native, reg)
    }
}

/// What the `getaddrinfo` hook does after the resolution step.
#[derive(Debug, Clone, PartialEq, Eq)]
pub enum AddrInfoAction {
    /// Hand this list to the caller and return `0`.
    Return(usize),
    /// Call the native `getaddrinfo` with the caller's arguments.
    CallNative,
    /// Fail with this error.
    Fail(HookError),
}

impl ManagedAddrInfo {
    pub closed spec fn view(&self) -> Set<usize> {
        addr_set_contents(self.set)
    }

    pub fn new() -> (r: Self)
        ensures
            r@ == Set::<usize>::empty(),
    {
        ManagedAddrInfo { set: addr_set_new() }
    }

    /// Records the head of a list this layer built.
    pub fn register(&mut self, head: usize)
        ensures
            final(self)@ == old(self)@.insert(head),
    {
        addr_set_insert(&mut self.set, head);
    }

    pub fn contains(&self, addr: usize) -> (r: bool)
        ensures
            r == self@.contains(addr),
    {
        addr_set_contains(&self.set, addr)
    }

    /// Decides who releases the list whose nodes sit at `chain`, head first.
    /// A registered head means the whole list is this layer's: every node
    /// leaves the registry and the caller frees them all. Otherwise (a null
    /// list included) the whole list goes to the native release and the
    /// registry is untouched.
    pub fn release_chain(&mut self, chain: &[usize]) -> (r: FreeStrategy)
        ensures
            (r, final(self)@) == release_outcome(old(self)@, chain@),
    {
        if chain.len() == 0 || !addr_set_contains(&self.set, chain[0]) {
            return FreeStrategy::Native;
        }
        let mut i: usize = 0;
        while i < chain.len()
            invariant
                0 <= i <= chain@.len(),
                self@ == old(self)@.difference(chain@.take(i as int).to_set()),
            decreases chain@.len() - i,
        {
            addr_set_remove(&mut self.set, chain[i]);
            proof {
                let t = chain@.take(i + 1);
                assert(t =~= chain@.take(i as int).push(chain@[i as int]));
                assert(t.to_set() =~= chain@.take(i as int).to_set().insert(chain@[i as int])) by {
                    assert forall|x: usize| t.to_set().contains(x) <==> chain@.take(
                        i as int,
                    ).to_set().insert(chain@[i as int]).contains(x) by {
                        if t.to_set().contains(x) {
                            let k = choose|k: int| 0 <= k < t.len() && t[k] == x;
                            if k < i {
                                assert(chain@.take(i as int)[k] == x);
                            }
                        }
                        if chain@.take(i as int).to_set().contains(x) {
                            let k = choose|k: int| 0 <= k < i && chain@.take(i as int)[k] == x;
                            assert(t[k] == x);
                        }
                        if x == chain@[i as int] {
                            assert(t[i as int] == x);
                        }
                    }
                }
                assert(self@ =~= old(self)@.difference(t.to_set()));
            }
            i = i + 1;
        }
        assert(chain@.take(i as int) =~= chain@);
        FreeStrategy::Owned
    }

    /// The `getaddrinfo` hook after the resolution step: a list built here is
    /// registered and returned, a bypass calls the native resolver and an
    /// error fails the call; only a built list changes the registry.
    pub fn after_getaddrinfo(&mut self, outcome: Detour<usize>) -> (r: AddrInfoAction)
        ensures
            match outcome {
                Detour::Success(head) => r == AddrInfoAction::Return(head) && final(self)@ == old(
                    self,
                )@.insert(head),
                Detour::Bypass(_) => r == AddrInfoAction::CallNative && final(self)@ == old(
                    self,
                )@,
                Detour::Error(e) => r == AddrInfoAction::Fail(e) && final(self)@ == old(self)@,
            },
    {
        match outcome {
            Detour::Success(head) => {
                self.register(head);
                AddrInfoAction::Return(head)
            },
            Detour::Bypass(_) => AddrInfoAction::CallNative,
            Detour::Error(e) => AddrInfoAction::Fail(e),
        }
    }
}

/// A list that the intercepted resolution call built and registered is
/// released by this layer, and none of its nodes stays registered; a list
/// whose head was never registered, or a null list, goes to the native
/// release, and the registry is left as it was.
pub proof fn lemma_release_homogeneous(reg: Set<usize>, chain: Seq<usize>)
    ensures
        chain.len() > 0 ==> release_outcome(reg.insert(chain[0]), chain).0 == FreeStrategy::Owned,
        chain.len() > 0 ==> forall|k: int|
            0 <= k < chain.len() ==> !(#[trigger] release_outcome(
                reg.insert(chain[0]),
                chain,
            ).1.contains(chain[k])),
        chain.len() == 0 || !reg.contains(chain[0]) ==> release_outcome(reg, chain) == (
            FreeStrategy::Native,
            reg,
        ),
{
    if chain.len() > 0 {
        assert forall|k: int| 0 <= k < chain.len() implies !(#[trigger] release_outcome(
            reg.insert(chain[0]),
            chain,
        ).1.contains(chain[k])) by {
            assert(chain.to_set().contains(chain[k]));
        }
    }
}

} // verus!
