//! Lexical normalization of absolute paths and the containment test that
//! keeps every emulated operation inside a container's root directory.
use vstd::prelude::*;

verus! {

/// The path separator `/`.
pub const SLASH: u8 = 47;

/// The byte `.`.
pub const DOT: u8 = 46;

/// The effect of closing one path component on the stack of components seen
/// so far: empty components and `.` vanish, `..` climbs one level (never above
/// `/`), anything else descends.
pub open spec fn push_comp(stack: Seq<Seq<u8>>, c: Seq<u8>) -> Seq<Seq<u8>> {
    if c.len() == 0 || c == seq![DOT] {
        stack
    } else if c == seq![DOT, DOT] {
        if stack.len() == 0 {
            stack
        } else {
            stack.drop_last()
        }
    } else {
        stack.push(c)
    }
}

/// The closed components and the open one after reading `s` left to right.
pub open spec fn scan(s: Seq<u8>) -> (Seq<Seq<u8>>, Seq<u8>)
    decreases s.len(),
{
    if s.len() == 0 {
        (seq![], seq![])
    } else {
        let (stack, cur) = scan(s.drop_last());
        if s.last() == SLASH {
            (push_comp(stack, cur), seq![])
        } else {
            (stack, cur.push(s.last()))
        }
    }
}

/// The components of `s` read as an absolute path, with `.` and `..` applied.
pub open spec fn normalize(s: Seq<u8>) -> Seq<Seq<u8>> {
    push_comp(scan(s).0, scan(s).1)
}

/// `path` names `root` itself or something below it.
pub open spec fn within(root: Seq<u8>, path: Seq<u8>) -> bool {
    let r = normalize(root);
    let q = normalize(path);
    r.len() <= q.len() && q.subrange(0, r.len() as int) == r
}

/// The components of `path` below `root`.
pub open spec fn below(root: Seq<u8>, path: Seq<u8>) -> Seq<Seq<u8>> {
    normalize(path).subrange(normalize(root).len() as int, normalize(path).len() as int)
}

proof fn lemma_bytes_deep_view(v: Vec<u8>)
    ensures
        v.deep_view() == v@,
{
    assert(v.deep_view() =~= v@);
}

fn push_component(stack: &mut Vec<Vec<u8>>, cur: Vec<u8>)
    ensures
        final(stack).deep_view() == push_comp(old(stack).deep_view(), cur@),
{
    let ghost s0 = stack.deep_view();
    let dot = cur.len() == 1 && cur[0] == DOT;
    let dotdot = cur.len() == 2 && cur[0] == DOT && cur[1] == DOT;
    if dot {
        assert(cur@ =~= seq![DOT]);
    }
    if dotdot {
        assert(cur@ =~= seq![DOT, DOT]);
    }
    if cur.len() == 0 || dot {
    } else if dotdot {
        if stack.len() > 0 {
            stack.pop();
            assert(stack.deep_view() =~= s0.drop_last());
        }
    } else {
        assert(cur@ != seq![DOT]) by {
            if cur@ == seq![DOT] {
                assert(cur@.len() == 1 && cur@[0] == DOT);
            }
        }
        assert(cur@ != seq![DOT, DOT]) by {
            if cur@ == seq![DOT, DOT] {
                assert(cur@.len() == 2 && cur@[0] == DOT && cur@[1] == DOT);
            }
        }
        proof {
            lemma_bytes_deep_view(cur);
        }
        stack.push(cur);
        assert(stack.deep_view() =~= s0.push(cur@));
    }
}

/// Splits an absolute path into its normalized components.
pub fn normalize_path(path: &Vec<u8>) -> (r: Vec<Vec<u8>>)
    ensures
        r.deep_view() == normalize(path@),
{
    let mut stack: Vec<Vec<u8>> = Vec::new();
    let mut cur: Vec<u8> = Vec::new();
    let mut i: usize = 0;
    assert(stack.deep_view() =~= seq![]);
    assert(path@.subrange(0, 0) =~= seq![]);
    while i < path.len()
        invariant
            i <= path@.len(),
            (stack.deep_view(), cur@) == scan(path@.subrange(0, i as int)),
        decreases path@.len() - i,
    {
        let b = path[i];
        assert(path@.subrange(0, i + 1).drop_last() =~= path@.subrange(0, i as int));
        if b == SLASH {
            let closed = cur;
            cur = Vec::new();
            push_component(&mut stack, closed);
            assert(cur@ =~= seq![]);
        } else {
            cur.push(b);
        }
        i = i + 1;
    }
    assert(path@.subrange(0, i as int) =~= path@);
    push_component(&mut stack, cur);
    stack
}

fn bytes_eq(a: &Vec<u8>, b: &Vec<u8>) -> (r: bool)
    ensures
        r == (a@ == b@),
{
    if a.len() != b.len() {
        return false;
    }
    let mut i: usize = 0;
    while i < a.len()
        invariant
            a@.len() == b@.len(),
            i <= a@.len(),
            forall|j: int| 0 <= j < i ==> a@[j] == b@[j],
        decreases a@.len() - i,
    {
        if a[i] != b[i] {
            return false;
        }
        i = i + 1;
    }
    assert(a@ =~= b@);
    true
}

/// The components of `path` below `root`, or `None` where `path` leaves it.
/// Both are absolute paths as the daemon sees them; `path` is the target of
/// an operation after every symbolic link in it has been followed.
pub fn components_below(root: &Vec<u8>, path: &Vec<u8>) -> (r: Option<Vec<Vec<u8>>>)
    ensures
        r.is_some() == within(root@, path@),
        r matches Some(v) ==> v.deep_view() == below(root@, path@),
{
    let rs = normalize_path(root);
    let mut qs = normalize_path(path);
    if rs.len() > qs.len() {
        return None;
    }
    let mut i: usize = 0;
    while i < rs.len()
        invariant
            rs.deep_view() == normalize(root@),
            qs.deep_view() == normalize(path@),
            rs@.len() <= qs@.len(),
            i <= rs@.len(),
            forall|j: int| 0 <= j < i ==> qs.deep_view()[j] == rs.deep_view()[j],
        decreases rs@.len() - i,
    {
        proof {
            lemma_bytes_deep_view(qs@[i as int]);
            lemma_bytes_deep_view(rs@[i as int]);
        }
        if !bytes_eq(&qs[i], &rs[i]) {
            assert(qs.deep_view().subrange(0, rs@.len() as int)[i as int] != rs.deep_view()[i as int]);
            return None;
        }
        i = i + 1;
    }
    assert(qs.deep_view().subrange(0, rs@.len() as int) =~= rs.deep_view());
    let ghost all = qs.deep_view();
    let rest = qs.split_off(rs.len());
    assert(rest.deep_view() =~= all.subrange(rs@.len() as int, all.len() as int));
    Some(rest)
}

/// Whether `path` names `root` itself or something below it.
pub fn is_within(root: &Vec<u8>, path: &Vec<u8>) -> (r: bool)
    ensures
        r == within(root@, path@),
{
    components_below(root, path).is_some()
}

/// The components `cs` written one after another, each after a separator.
pub open spec fn joined(cs: Seq<Seq<u8>>) -> Seq<u8>
    decreases cs.len(),
{
    if cs.len() == 0 {
        seq![]
    } else {
        joined(cs.drop_last()) + seq![SLASH] + cs.last()
    }
}

/// The absolute path made of the components `cs`; no components make `/`.
pub open spec fn path_of(cs: Seq<Seq<u8>>) -> Seq<u8> {
    if cs.len() == 0 {
        seq![SLASH]
    } else {
        joined(cs)
    }
}

/// Writes components as an absolute path, as a worker uses them below the
/// root it has changed to.
pub fn join_components(cs: &Vec<Vec<u8>>) -> (r: Vec<u8>)
    ensures
        r@ == path_of(cs.deep_view()),
{
    let mut out: Vec<u8> = Vec::new();
    if cs.len() == 0 {
        out.push(SLASH);
        assert(out@ =~= seq![SLASH]);
        return out;
    }
    let ghost all = cs.deep_view();
    let mut i: usize = 0;
    assert(all.take(0) =~= seq![]);
    while i < cs.len()
        invariant
            all == cs.deep_view(),
            i <= cs@.len(),
            out@ == joined(all.take(i as int)),
        decreases cs@.len() - i,
    {
        let c = &cs[i];
        proof {
            lemma_bytes_deep_view(*c);
        }
        let ghost before = out@;
        out.push(SLASH);
        let mut j: usize = 0;
        while j < c.len()
            invariant
                i < cs@.len(),
                c@ == all[i as int],
                j <= c@.len(),
                out@ == before + seq![SLASH] + c@.take(j as int),
            decreases c@.len() - j,
        {
            out.push(c[j]);
            assert(c@.take(j + 1) =~= c@.take(j as int).push(c@[j as int]));
            assert(out@ =~= before + seq![SLASH] + c@.take(j + 1));
            j = j + 1;
        }
        assert(c@.take(j as int) =~= c@);
        assert(all.take(i + 1).drop_last() =~= all.take(i as int));
        i = i + 1;
    }
    assert(all.take(i as int) =~= all);
    out
}

} // verus!
