//! Resolution of a path inside a container's root, one component at a time.
//! The daemon looks each name up below the prefix resolved so far; this
//! module decides what follows from each answer, so that `..` and absolute
//! link targets never climb above the root.
use vstd::prelude::*;
use crate::error::SyscallError;
use crate::path::{join_components, path_of, DOT, SLASH};

verus! {

/// No such file or directory.
pub const ENOENT: i32 = 2;

/// Too many levels of symbolic links.
pub const ELOOP: i32 = 40;

/// The most links followed in one resolution.
pub const MAX_LINKS: u32 = 40;

/// What looking a name up below the resolved prefix found.
#[derive(Clone, Debug)]
pub enum Lookup {
    /// Something that is not a symbolic link.
    Plain,
    /// Nothing.
    Missing,
    /// A symbolic link with this target.
    Link(Vec<u8>),
}

/// A component as a path holds it: not empty, without a separator.
pub open spec fn piece(c: Seq<u8>) -> bool {
    c.len() > 0 && forall|i: int| 0 <= i < c.len() ==> c[i] != SLASH
}

/// A component that names an entry: a piece other than `.` and `..`.
pub open spec fn name(c: Seq<u8>) -> bool {
    piece(c) && c != seq![DOT] && c != seq![DOT, DOT]
}

/// The components of `s` in order, `.` and `..` kept, empty ones dropped.
pub open spec fn split(s: Seq<u8>) -> Seq<Seq<u8>> {
    let (done, cur) = split_scan(s);
    if cur.len() == 0 { done } else { done.push(cur) }
}

/// The closed components and the open one after reading `s`.
pub open spec fn split_scan(s: Seq<u8>) -> (Seq<Seq<u8>>, Seq<u8>)
    decreases s.len(),
{
    if s.len() == 0 {
        (seq![], seq![])
    } else {
        let (done, cur) = split_scan(s.drop_last());
        if s.last() == SLASH {
            (if cur.len() == 0 { done } else { done.push(cur) }, seq![])
        } else {
            (done, cur.push(s.last()))
        }
    }
}

/// The resolved names, the components still to walk, and the links
/// followed, after one step on the first component still to walk.
pub open spec fn walked(
    resolved: Seq<Seq<u8>>,
    todo: Seq<Seq<u8>>,
    links: u32,
    found: Lookup,
) -> Result<(Seq<Seq<u8>>, Seq<Seq<u8>>, u32), SyscallError> {
    let c = todo[0];
    let rest = todo.drop_first();
    if c == seq![DOT] {
        Ok((resolved, rest, links))
    } else if c == seq![DOT, DOT] {
        Ok((if resolved.len() == 0 { resolved } else { resolved.drop_last() }, rest, links))
    } else {
        match found {
            Lookup::Plain => Ok((resolved.push(c), rest, links)),
            Lookup::Missing => if rest.len() == 0 {
                Ok((resolved.push(c), rest, links))
            } else {
                Err(SyscallError::Kernel(ENOENT))
            },
            Lookup::Link(t) => if links >= MAX_LINKS {
                Err(SyscallError::Kernel(ELOOP))
            } else {
                Ok((
                    if t@.len() > 0 && t@[0] == SLASH { seq![] } else { resolved },
                    split(t@) + rest,
                    (links + 1) as u32,
                ))
            },
        }
    }
}

/// Splits a path into its components, `.` and `..` kept.
pub fn split_path(s: &Vec<u8>) -> (r: Vec<Vec<u8>>)
    ensures
        r.deep_view() == split(s@),
        forall|i: int| 0 <= i < r.deep_view().len() ==> piece(#[trigger] r.deep_view()[i]),
{
    let mut done: Vec<Vec<u8>> = Vec::new();
    let mut cur: Vec<u8> = Vec::new();
    let mut i: usize = 0;
    assert(s@.subrange(0, 0) =~= seq![]);
    assert(done.deep_view() =~= seq![]);
    while i < s.len()
        invariant
            i <= s@.len(),
            (done.deep_view(), cur@) == split_scan(s@.subrange(0, i as int)),
            forall|j: int| 0 <= j < done.deep_view().len() ==> piece(#[trigger] done.deep_view()[j]),
            forall|j: int| 0 <= j < cur@.len() ==> cur@[j] != SLASH,
        decreases s@.len() - i,
    {
        let b = s[i];
        assert(s@.subrange(0, i + 1).drop_last() =~= s@.subrange(0, i as int));
        if b == SLASH {
            if cur.len() > 0 {
                let ghost d0 = done.deep_view();
                assert(cur.deep_view() =~= cur@);
                let piece_bytes = cur;
                done.push(piece_bytes);
                assert(done.deep_view() =~= d0.push(piece_bytes@));
            }
            cur = Vec::new();
            assert(cur@ =~= seq![]);
        } else {
            cur.push(b);
        }
        i = i + 1;
    }
    assert(s@.subrange(0, i as int) =~= s@);
    if cur.len() > 0 {
        let ghost d0 = done.deep_view();
        assert(cur.deep_view() =~= cur@);
        done.push(cur);
        assert(done.deep_view() =~= d0.push(cur@));
    }
    done
}

/// Whether every component of `cs` names an entry.
pub open spec fn all_names(cs: Seq<Seq<u8>>) -> bool {
    forall|i: int| 0 <= i < cs.len() ==> name(#[trigger] cs[i])
}

/// Whether every component of `cs` is a piece.
pub open spec fn all_pieces(cs: Seq<Seq<u8>>) -> bool {
    forall|i: int| 0 <= i < cs.len() ==> piece(#[trigger] cs[i])
}

proof fn lemma_split_scan_pieces(s: Seq<u8>)
    ensures
        all_pieces(split_scan(s).0),
        forall|j: int| 0 <= j < split_scan(s).1.len() ==> split_scan(s).1[j] != SLASH,
    decreases s.len(),
{
    if s.len() > 0 {
        lemma_split_scan_pieces(s.drop_last());
        let (done, cur) = split_scan(s.drop_last());
        if s.last() != SLASH {
            assert forall|j: int| 0 <= j < cur.push(s.last()).len() implies cur.push(s.last())[j] != SLASH by {
                if j < cur.len() {
                    assert(cur.push(s.last())[j] == cur[j]);
                }
            }
        } else if cur.len() > 0 {
            assert forall|i: int| 0 <= i < done.push(cur).len() implies piece(#[trigger] done.push(cur)[i]) by {
                if i < done.len() {
                    assert(done.push(cur)[i] == done[i]);
                }
            }
        }
    }
}

/// Every component of a split path is a piece.
pub proof fn lemma_split_pieces(s: Seq<u8>)
    ensures
        all_pieces(split(s)),
{
    lemma_split_scan_pieces(s);
    let (done, cur) = split_scan(s);
    if cur.len() > 0 {
        assert forall|i: int| 0 <= i < done.push(cur).len() implies piece(#[trigger] done.push(cur)[i]) by {
            if i < done.len() {
                assert(done.push(cur)[i] == done[i]);
            }
        }
    }
}

/// Resolution never leaves the root: from resolved names and pieces still to
/// walk, any step that succeeds, whatever the lookup found (`..` at the root,
/// a link to an absolute or a relative target), again gives resolved names
/// and pieces still to walk, so the resolved path is the root followed by
/// names alone.
pub proof fn lemma_step_stays_below(resolved: Seq<Seq<u8>>, todo: Seq<Seq<u8>>, links: u32, found: Lookup)
    requires
        all_names(resolved),
        all_pieces(todo),
        todo.len() > 0,
    ensures
        walked(resolved, todo, links, found) matches Ok((r, t, _)) ==> all_names(r) && all_pieces(t),
{
    let c = todo[0];
    let rest = todo.drop_first();
    assert(all_pieces(rest)) by {
        assert forall|i: int| 0 <= i < rest.len() implies piece(#[trigger] rest[i]) by {
            assert(rest[i] == todo[i + 1]);
        }
    }
    assert(piece(c));
    if c != seq![DOT] && c != seq![DOT, DOT] {
        assert(name(c));
        assert forall|i: int| 0 <= i < resolved.push(c).len() implies name(#[trigger] resolved.push(c)[i]) by {
            if i < resolved.len() {
                assert(resolved.push(c)[i] == resolved[i]);
            }
        }
        if let Lookup::Link(t) = found {
            lemma_split_pieces(t@);
            let sp = split(t@);
            assert forall|i: int| 0 <= i < (sp + rest).len() implies piece(#[trigger] (sp + rest)[i]) by {
                if i < sp.len() {
                    assert((sp + rest)[i] == sp[i]);
                } else {
                    assert((sp + rest)[i] == rest[i - sp.len()]);
                }
            }
        }
    } else if c == seq![DOT, DOT] && resolved.len() > 0 {
        assert forall|i: int| 0 <= i < resolved.drop_last().len() implies name(#[trigger] resolved.drop_last()[i]) by {
            assert(resolved.drop_last()[i] == resolved[i]);
        }
    }
}

/// A resolution in progress below a container's root.
pub struct Walk {
    resolved: Vec<Vec<u8>>,
    todo: Vec<Vec<u8>>,
    links: u32,
}

impl Walk {
    /// The names resolved so far, below the root.
    pub closed spec fn resolved_view(&self) -> Seq<Seq<u8>> {
        self.resolved.deep_view()
    }

    /// The components still to walk, the first one next.
    pub closed spec fn todo_view(&self) -> Seq<Seq<u8>> {
        self.todo.deep_view()
    }

    /// The links followed so far.
    pub closed spec fn links_view(&self) -> u32 {
        self.links
    }

    /// The resolved components name entries; those to walk are pieces.
    pub open spec fn wf(&self) -> bool {
        all_names(self.resolved_view()) && all_pieces(self.todo_view())
    }

    /// Starts resolving `path` at the root. A relative path is taken from
    /// `base`, the directory it is relative to as the container sees it.
    pub fn start(path: &Vec<u8>, base: &Vec<u8>) -> (r: Walk)
        ensures
            r.wf(),
            r.resolved_view() == Seq::<Seq<u8>>::empty(),
            r.links_view() == 0,
            r.todo_view() == (if path@.len() > 0 && path@[0] == SLASH { split(path@) } else { split(base@) + split(path@) }),
    {
        let mut todo = split_path(path);
        let ghost tail = todo.deep_view();
        if !(path.len() > 0 && path[0] == SLASH) {
            let mut head = split_path(base);
            let ghost h = head.deep_view();
            head.append(&mut todo);
            assert(head.deep_view() =~= h + tail);
            todo = head;
        }
        proof {
            lemma_split_pieces(path@);
            lemma_split_pieces(base@);
            let (a, b) = (split(base@), split(path@));
            assert forall|i: int| 0 <= i < (a + b).len() implies piece(#[trigger] (a + b)[i]) by {
                if i < a.len() {
                    assert((a + b)[i] == a[i]);
                } else {
                    assert((a + b)[i] == b[i - a.len()]);
                }
            }
        }
        let r = Walk { resolved: Vec::new(), todo, links: 0 };
        assert(r.resolved_view() =~= Seq::<Seq<u8>>::empty());
        r
    }

    /// The component to look up next, or `None` once resolution is done.
    pub fn pending(&self) -> (r: Option<Vec<u8>>)
        ensures
            r is None <==> self.todo_view().len() == 0,
            r matches Some(c) ==> c@ == self.todo_view()[0],
    {
        if self.todo.len() == 0 {
            return None;
        }
        let c = &self.todo[0];
        let mut out: Vec<u8> = Vec::new();
        let mut i: usize = 0;
        while i < c.len()
            invariant
                i <= c@.len(),
                out@ == c@.take(i as int),
            decreases c@.len() - i,
        {
            out.push(c[i]);
            assert(c@.take(i + 1) =~= c@.take(i as int).push(c@[i as int]));
            i = i + 1;
        }
        assert(c@.take(i as int) =~= c@);
        assert(c.deep_view() =~= c@);
        Some(out)
    }

    /// The path resolved so far, as the container sees it.
    pub fn resolved_path(&self) -> (r: Vec<u8>)
        ensures
            r@ == path_of(self.resolved_view()),
    {
        join_components(&self.resolved)
    }

    /// Takes one step on the pending component, given what looking it up
    /// below the resolved path found (ignored for `.` and `..`). On an error
    /// the walk is over.
    pub fn advance(&mut self, found: Lookup) -> (r: Result<(), SyscallError>)
        requires
            old(self).wf(),
            old(self).todo_view().len() > 0,
        ensures
            final(self).wf(),
            match walked(old(self).resolved_view(), old(self).todo_view(), old(self).links_view(), found) {
                Ok((a, b, n)) => r is Ok && final(self).resolved_view() == a && final(self).todo_view() == b
                    && final(self).links_view() == n,
                Err(e) => r == Err::<(), SyscallError>(e),
            },
    {
        proof {
            lemma_step_stays_below(self.resolved_view(), self.todo_view(), self.links, found);
        }
        let ghost r0 = self.resolved_view();
        let ghost t0 = self.todo_view();
        let c = self.todo.remove(0);
        assert(self.todo_view() =~= t0.drop_first());
        assert(c.deep_view() =~= c@);
        let dot = c.len() == 1 && c[0] == DOT;
        let dotdot = c.len() == 2 && c[0] == DOT && c[1] == DOT;
        if dot {
            assert(c@ =~= seq![DOT]);
            return Ok(());
        }
        if dotdot {
            assert(c@ =~= seq![DOT, DOT]);
            if self.resolved.len() > 0 {
                self.resolved.pop();
                assert(self.resolved_view() =~= r0.drop_last());
            }
            return Ok(());
        }
        assert(c@ != seq![DOT]) by {
            if c@ == seq![DOT] {
                assert(c@.len() == 1 && c@[0] == DOT);
            }
        }
        assert(c@ != seq![DOT, DOT]) by {
            if c@ == seq![DOT, DOT] {
                assert(c@.len() == 2 && c@[0] == DOT && c@[1] == DOT);
            }
        }
        match found {
            Lookup::Plain => {
                self.resolved.push(c);
                assert(self.resolved_view() =~= r0.push(c@));
                Ok(())
            },
            Lookup::Missing => {
                if self.todo.len() == 0 {
                    self.resolved.push(c);
                    assert(self.resolved_view() =~= r0.push(c@));
                    Ok(())
                } else {
                    self.todo.insert(0, c);
                    assert(self.todo_view() =~= t0);
                    Err(SyscallError::Kernel(ENOENT))
                }
            },
            Lookup::Link(t) => {
                if self.links >= MAX_LINKS {
                    self.todo.insert(0, c);
                    assert(self.todo_view() =~= t0);
                    return Err(SyscallError::Kernel(ELOOP));
                }
                self.links = self.links + 1;
                if t.len() > 0 && t[0] == SLASH {
                    self.resolved.clear();
                    assert(self.resolved_view() =~= Seq::<Seq<u8>>::empty());
                }
                let mut head = split_path(&t);
                let ghost h = head.deep_view();
                let ghost rest = self.todo_view();
                head.append(&mut self.todo);
                assert(head.deep_view() =~= h + rest);
                self.todo = head;
                Ok(())
            },
        }
    }
}

} // verus!
