use vstd::prelude::*;

verus! {

/// The byte that separates path components.
pub const SLASH: u8 = 47;

/// The byte `.`.
pub const DOT: u8 = 46;

/// A component that survives normalization: not empty, no separator, not `.` or `..`.
pub open spec fn is_normal(seg: Seq<u8>) -> bool {
    seg.len() > 0 && !seg.contains(SLASH) && seg != seq![DOT] && seg != seq![DOT, DOT]
}

pub open spec fn all_normal(st: Seq<Seq<u8>>) -> bool {
    forall|i: int| 0 <= i < st.len() ==> is_normal(#[trigger] st[i])
}

/// Effect of one component on the stack of kept components: empty and `.` are
/// no-ops, `..` drops the last kept component (if any), anything else is kept.
pub open spec fn push_component(stack: Seq<Seq<u8>>, seg: Seq<u8>) -> Seq<Seq<u8>> {
    if seg.len() == 0 || seg == seq![DOT] {
        stack
    } else if seg == seq![DOT, DOT] {
        if stack.len() > 0 {
            stack.drop_last()
        } else {
            stack
        }
    } else {
        stack.push(seg)
    }
}

/// Left-to-right scan of a path: the kept components so far, and the
/// component being read.
pub open spec fn scan(s: Seq<u8>) -> (Seq<Seq<u8>>, Seq<u8>)
    decreases s.len(),
{
    if s.len() == 0 {
        (seq![], seq![])
    } else {
        let (st, cur) = scan(s.drop_last());
        if s.last() == SLASH {
            (push_component(st, cur), seq![])
        } else {
            (st, cur.push(s.last()))
        }
    }
}

/// The components that a path keeps after `.` and `..` are resolved.
pub open spec fn components(s: Seq<u8>) -> Seq<Seq<u8>> {
    push_component(scan(s).0, scan(s).1)
}

/// `/c1/c2/.../cn`, or nothing for no component.
pub open spec fn join(st: Seq<Seq<u8>>) -> Seq<u8>
    decreases st.len(),
{
    if st.len() == 0 {
        seq![]
    } else {
        join(st.drop_last()) + seq![SLASH] + st.last()
    }
}

/// The absolute path made of the given components; the root for none.
pub open spec fn render(st: Seq<Seq<u8>>) -> Seq<u8> {
    if st.len() == 0 {
        seq![SLASH]
    } else {
        join(st)
    }
}

/// A path with `.`, `..` and repeated separators resolved, rooted at `/`.
pub open spec fn normalize(s: Seq<u8>) -> Seq<u8> {
    render(components(s))
}

pub open spec fn is_absolute(s: Seq<u8>) -> bool {
    s.len() > 0 && s[0] == SLASH
}

proof fn lemma_push_component_normal(stack: Seq<Seq<u8>>, seg: Seq<u8>)
    requires
        all_normal(stack),
        !seg.contains(SLASH),
    ensures
        all_normal(push_component(stack, seg)),
{
    let r = push_component(stack, seg);
    assert forall|i: int| 0 <= i < r.len() implies is_normal(#[trigger] r[i]) by {
        if i < stack.len() {
            assert(r[i] == stack[i]);
        }
    }
}

proof fn lemma_scan_normal(s: Seq<u8>)
    ensures
        all_normal(scan(s).0),
        !scan(s).1.contains(SLASH),
    decreases s.len(),
{
    if s.len() > 0 {
        lemma_scan_normal(s.drop_last());
        let (st, cur) = scan(s.drop_last());
        if s.last() == SLASH {
            lemma_push_component_normal(st, cur);
            assert(!Seq::<u8>::empty().contains(SLASH));
        } else {
            assert forall|i: int| 0 <= i < cur.push(s.last()).len() implies cur.push(
                s.last(),
            )[i] != SLASH by {
                if i < cur.len() {
                    assert(cur.push(s.last())[i] == cur[i]);
                }
            }
        }
    }
}

/// The kept components never hold `.`, `..`, an empty name or a separator.
pub proof fn lemma_components_normal(s: Seq<u8>)
    ensures
        all_normal(components(s)),
{
    lemma_scan_normal(s);
    lemma_push_component_normal(scan(s).0, scan(s).1);
}

proof fn lemma_scan_append(s: Seq<u8>, x: Seq<u8>)
    requires
        !x.contains(SLASH),
    ensures
        scan(s + seq![SLASH] + x) == (push_component(scan(s).0, scan(s).1), x),
    decreases x.len(),
{
    let t = s + seq![SLASH] + x;
    if x.len() == 0 {
        assert(t.drop_last() =~= s);
        assert(x =~= seq![]);
    } else {
        let xs = x.drop_last();
        assert(!xs.contains(SLASH)) by {
            if xs.contains(SLASH) {
                let k = choose|k: int| 0 <= k < xs.len() && xs[k] == SLASH;
                assert(x[k] == SLASH);
            }
        }
        lemma_scan_append(s, xs);
        assert(t.drop_last() =~= s + seq![SLASH] + xs);
        assert(t.last() == x.last());
        assert(x[x.len() - 1] != SLASH);
        assert(xs.push(x.last()) =~= x);
    }
}

proof fn lemma_scan_join(st: Seq<Seq<u8>>)
    requires
        st.len() > 0,
        all_normal(st),
    ensures
        scan(join(st)) == (st.drop_last(), st.last()),
    decreases st.len(),
{
    let prev = st.drop_last();
    assert(is_normal(st[st.len() - 1]));
    assert(join(st) == join(prev) + seq![SLASH] + st.last());
    lemma_scan_append(join(prev), st.last());
    if prev.len() == 0 {
        assert(join(prev) =~= seq![]);
        assert(scan(join(prev)) == (Seq::<Seq<u8>>::empty(), Seq::<u8>::empty()));
    } else {
        assert(all_normal(prev)) by {
            assert forall|i: int| 0 <= i < prev.len() implies is_normal(#[trigger] prev[i]) by {
                assert(prev[i] == st[i]);
            }
        }
        lemma_scan_join(prev);
        assert(is_normal(prev[prev.len() - 1]));
        assert(prev.drop_last().push(prev.last()) =~= prev);
    }
}

/// Reading back a rendered list of normal components gives the same list.
pub proof fn lemma_components_render(st: Seq<Seq<u8>>)
    requires
        all_normal(st),
    ensures
        components(render(st)) == st,
{
    if st.len() == 0 {
        let r = seq![SLASH];
        assert(r.drop_last() =~= seq![]);
        assert(scan(r.drop_last()) == (Seq::<Seq<u8>>::empty(), Seq::<u8>::empty()));
        assert(st =~= seq![]);
    } else {
        lemma_scan_join(st);
        assert(is_normal(st[st.len() - 1]));
        assert(st.drop_last().push(st.last()) =~= st);
    }
}

/// Normalizing a normalized path changes nothing.
pub proof fn lemma_normalize_idempotent(s: Seq<u8>)
    ensures
        normalize(normalize(s)) == normalize(s),
{
    lemma_components_normal(s);
    lemma_components_render(components(s));
}

fn is_dot(seg: &Vec<u8>) -> (r: bool)
    ensures
        r == (seg@ == seq![DOT]),
{
    if seg.len() == 1 && seg[0] == DOT {
        assert(seg@ =~= seq![DOT]);
        true
    } else {
        false
    }
}

fn is_dot_dot(seg: &Vec<u8>) -> (r: bool)
    ensures
        r == (seg@ == seq![DOT, DOT]),
{
    if seg.len() == 2 && seg[0] == DOT && seg[1] == DOT {
        assert(seg@ =~= seq![DOT, DOT]);
        true
    } else {
        false
    }
}

pub open spec fn stack_view(stack: Seq<Vec<u8>>) -> Seq<Seq<u8>> {
    stack.map_values(|v: Vec<u8>| v@)
}

fn apply_component(stack: &mut Vec<Vec<u8>>, seg: Vec<u8>)
    ensures
        stack_view(final(stack)@) == push_component(stack_view(old(stack)@), seg@),
{
    if seg.len() == 0 || is_dot(&seg) {
    } else if is_dot_dot(&seg) {
        if stack.len() > 0 {
            stack.pop();
            assert(stack_view(stack@) =~= stack_view(old(stack)@).drop_last());
        }
    } else {
        let ghost sv = seg@;
        stack.push(seg);
        assert(stack_view(stack@) =~= stack_view(old(stack)@).push(sv));
    }
}

/// Resolves `.`, `..` and repeated separators in `path` without touching any
/// file system, and returns the result as an absolute path.
pub fn absolute_path(path: &[u8]) -> (r: Vec<u8>)
    ensures
        r@ == normalize(path@),
{
    let mut stack: Vec<Vec<u8>> = Vec::new();
    let mut cur: Vec<u8> = Vec::new();
    let mut i: usize = 0;
    while i < path.len()
        invariant
            0 <= i <= path@.len(),
            stack_view(stack@) == scan(path@.take(i as int)).0,
            cur@ == scan(path@.take(i as int)).1,
        decreases path@.len() - i,
    {
        let b = path[i];
        assert(path@.take(i + 1).drop_last() =~= path@.take(i as int));
        assert(path@.take(i + 1).last() == b);
        if b == SLASH {
            let seg = cur;
            cur = Vec::new();
            apply_component(&mut stack, seg);
            assert(cur@ =~= seq![]);
        } else {
            cur.push(b);
        }
        i = i + 1;
    }
    assert(path@.take(i as int) =~= path@);
    apply_component(&mut stack, cur);
    render_stack(&stack)
}

fn render_stack(stack: &Vec<Vec<u8>>) -> (r: Vec<u8>)
    ensures
        r@ == render(stack_view(stack@)),
{
    let mut out: Vec<u8> = Vec::new();
    if stack.len() == 0 {
        out.push(SLASH);
        assert(out@ =~= seq![SLASH]);
        return out;
    }
    let ghost sv = stack_view(stack@);
    let mut j: usize = 0;
    while j < stack.len()
        invariant
            0 <= j <= stack@.len(),
            sv == stack_view(stack@),
            out@ == join(sv.take(j as int)),
        decreases stack@.len() - j,
    {
        let seg = &stack[j];
        let ghost before = out@;
        out.push(SLASH);
        let mut k: usize = 0;
        while k < seg.len()
            invariant
                0 <= k <= seg@.len(),
                out@ == before + seq![SLASH] + seg@.take(k as int),
            decreases seg@.len() - k,
        {
            out.push(seg[k]);
            assert(seg@.take(k + 1) =~= seg@.take(k as int).push(seg@[k as int]));
            assert(out@ =~= before + seq![SLASH] + seg@.take(k + 1));
            k = k + 1;
        }
        assert(seg@.take(k as int) =~= seg@);
        assert(sv.take(j + 1).drop_last() =~= sv.take(j as int));
        assert(sv.take(j + 1).last() == seg@);
        j = j + 1;
    }
    assert(sv.take(j as int) =~= sv);
    out
}

} // verus!
