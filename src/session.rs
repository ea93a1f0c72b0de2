//! One container's notification session: which calls await an answer, and
//! the single response each of them gets.
use vstd::prelude::*;
use crate::error::{errno_of, SyscallError};

verus! {

/// The answer written back to the kernel for one notification: a return
/// value, or a negated error code.
#[derive(Clone, Copy, Debug, PartialEq, Eq, Structural)]
pub struct Response {
    pub id: u64,
    pub val: i64,
    pub error: i32,
}

/// The response that carries `result` for notification `id`.
pub open spec fn response_for(id: u64, result: Result<i64, SyscallError>) -> Response {
    match result {
        Ok(v) => Response { id, val: v, error: 0 },
        Err(e) => Response { id, val: 0, error: (-errno_of(e)) as i32 },
    }
}

/// The response that carries `result` for notification `id`.
pub fn to_response(id: u64, result: Result<i64, SyscallError>) -> (r: Response)
    ensures
        r == response_for(id, result),
{
    match result {
        Ok(v) => Response { id, val: v, error: 0 },
        Err(e) => Response { id, val: 0, error: -e.errno() },
    }
}

/// The pending ids after completing `id`, and the response written, if any:
/// one is written only for a pending id that the kernel still holds valid.
pub open spec fn completed(
    pending: Set<u64>,
    id: u64,
    result: Result<i64, SyscallError>,
    valid: bool,
) -> (Set<u64>, Option<Response>) {
    (pending.remove(id), if pending.contains(id) && valid { Some(response_for(id, result)) } else { None })
}

/// The pending ids after completing each call of `calls` in turn.
pub open spec fn completed_all(
    pending: Set<u64>,
    calls: Seq<(u64, Result<i64, SyscallError>, bool)>,
) -> Set<u64>
    decreases calls.len(),
{
    if calls.len() == 0 {
        pending
    } else {
        let c = calls.last();
        completed(completed_all(pending, calls.drop_last()), c.0, c.1, c.2).0
    }
}

/// The state of one container's session.
pub struct Session {
    pending: Vec<u64>,
    served: u64,
    closed: bool,
}

impl Session {
    /// The ids received and not yet completed.
    pub closed spec fn pending(&self) -> Set<u64> {
        Set::new(|x: u64| self.pending@.contains(x))
    }

    /// How many calls have been completed, saturating at the largest `u64`.
    pub closed spec fn served_count(&self) -> u64 {
        self.served
    }

    /// Whether the channel has closed or failed; no response is written after.
    pub closed spec fn is_closed(&self) -> bool {
        self.closed
    }

    /// No id is pending twice.
    pub closed spec fn wf(&self) -> bool {
        self.pending@.no_duplicates()
    }

    /// A session with nothing received yet.
    pub fn new() -> (r: Session)
        ensures
            r.wf(),
            r.pending() == Set::<u64>::empty(),
            r.served_count() == 0,
            !r.is_closed(),
    {
        let r = Session { pending: Vec::new(), served: 0, closed: false };
        assert(r.pending() =~= Set::<u64>::empty());
        r
    }

    /// How many calls have been completed.
    pub fn served(&self) -> (r: u64)
        ensures
            r == self.served_count(),
    {
        self.served
    }

    /// Whether notification `id` awaits its response.
    pub fn is_pending(&self, id: u64) -> (r: bool)
        ensures
            r == self.pending().contains(id),
    {
        match self.position(id) {
            Some(i) => {
                assert(self.pending@.contains(id));
                true
            },
            None => false,
        }
    }

    fn position(&self, id: u64) -> (r: Option<usize>)
        ensures
            r matches Some(i) ==> i < self.pending@.len() && self.pending@[i as int] == id,
            r is None ==> !self.pending@.contains(id),
    {
        let mut i: usize = 0;
        while i < self.pending.len()
            invariant
                i <= self.pending@.len(),
                forall|j: int| 0 <= j < i ==> self.pending@[j] != id,
            decreases self.pending@.len() - i,
        {
            if self.pending[i] == id {
                return Some(i);
            }
            i = i + 1;
        }
        None
    }

    /// Records a received notification. A repeated id is not recorded twice;
    /// the result says whether the id was new.
    pub fn receive(&mut self, id: u64) -> (r: bool)
        requires
            old(self).wf(),
        ensures
            final(self).wf(),
            r == !old(self).pending().contains(id),
            final(self).pending() == old(self).pending().insert(id),
            final(self).served_count() == old(self).served_count(),
            final(self).is_closed() == old(self).is_closed(),
    {
        if self.is_pending(id) {
            assert(self.pending() =~= self.pending().insert(id));
            return false;
        }
        let ghost p0 = self.pending@;
        self.pending.push(id);
        assert(self.pending@ == p0.push(id));
        assert(self.pending@.no_duplicates()) by {
            assert forall|a: int, b: int| 0 <= a < b < self.pending@.len() implies self.pending@[a] != self.pending@[b] by {
                if b == p0.len() {
                    assert(p0.contains(p0[a]));
                }
            }
        }
        assert forall|x: u64| self.pending@.contains(x) <==> (p0.contains(x) || x == id) by {
            if p0.contains(x) {
                let j = choose|j: int| 0 <= j < p0.len() && p0[j] == x;
                assert(self.pending@[j] == x);
            }
            if x == id {
                assert(self.pending@[p0.len() as int] == id);
            }
        }
        assert(self.pending() =~= old(self).pending().insert(id));
        true
    }

    /// Ends the session: the channel closed, or a record on it was malformed.
    /// Calls in flight may still complete, but nothing more is written.
    pub fn close(&mut self)
        requires
            old(self).wf(),
        ensures
            final(self).wf(),
            final(self).is_closed(),
            final(self).pending() == old(self).pending(),
            final(self).served_count() == old(self).served_count(),
    {
        self.closed = true;
    }

    /// Whether the session has ended.
    pub fn closed(&self) -> (r: bool)
        ensures
            r == self.is_closed(),
    {
        self.closed
    }

    /// Completes notification `id` with `result`. `valid` is the kernel's
    /// answer, asked just before, on whether the id is still live. The
    /// response to write is returned for a pending, valid id of an open
    /// session; a stale id, or any id once the session is closed, is dropped
    /// silently. Either way the id stops being pending.
    pub fn complete(&mut self, id: u64, result: Result<i64, SyscallError>, valid: bool) -> (r: Option<Response>)
        requires
            old(self).wf(),
        ensures
            final(self).wf(),
            final(self).pending() == completed(old(self).pending(), id, result, valid).0,
            r == (if old(self).is_closed() { None } else { completed(old(self).pending(), id, result, valid).1 }),
            final(self).is_closed() == old(self).is_closed(),
            final(self).served_count() == (if old(self).pending().contains(id) && old(self).served_count() < u64::MAX {
                (old(self).served_count() + 1) as u64
            } else {
                old(self).served_count()
            }),
    {
        let ghost p0 = self.pending@;
        let i = match self.position(id) {
            Some(i) => i,
            None => {
                assert(self.pending() =~= old(self).pending().remove(id));
                return None;
            },
        };
        assert(p0.contains(id));
        self.pending.remove(i);
        assert(self.pending@ == p0.remove(i as int));
        assert forall|x: u64| self.pending@.contains(x) <==> (p0.contains(x) && x != id) by {
            if self.pending@.contains(x) {
                let k = choose|k: int| 0 <= k < self.pending@.len() && self.pending@[k] == x;
                if k < i {
                    assert(p0[k] == x);
                    assert(k != i);
                } else {
                    assert(p0[k + 1] == x);
                    assert(k + 1 != i);
                }
            }
            if p0.contains(x) && x != id {
                let k = choose|k: int| 0 <= k < p0.len() && p0[k] == x;
                if k < i {
                    assert(self.pending@[k] == x);
                } else {
                    assert(k != i);
                    assert(self.pending@[k - 1] == x);
                }
            }
        }
        assert(self.pending() =~= old(self).pending().remove(id));
        if self.served < u64::MAX {
            self.served = self.served + 1;
        }
        if valid && !self.closed {
            Some(to_response(id, result))
        } else {
            None
        }
    }
}

/// Each notification is answered at most once: once `id` has been completed,
/// completing any other notifications leaves it unanswerable, so a second
/// completion of it writes nothing, whatever its result and validity.
pub proof fn lemma_single_response(
    pending: Set<u64>,
    id: u64,
    first: Result<i64, SyscallError>,
    first_valid: bool,
    others: Seq<(u64, Result<i64, SyscallError>, bool)>,
    second: Result<i64, SyscallError>,
    second_valid: bool,
)
    requires
        forall|i: int| 0 <= i < others.len() ==> (#[trigger] others[i]).0 != id,
    ensures
        completed(completed_all(completed(pending, id, first, first_valid).0, others), id, second, second_valid).1
            is None,
    decreases others.len(),
{
    if others.len() > 0 {
        let rest = others.drop_last();
        assert forall|i: int| 0 <= i < rest.len() implies (#[trigger] rest[i]).0 != id by {
            assert(rest[i] == others[i]);
        }
        lemma_single_response(pending, id, first, first_valid, rest, second, second_valid);
        assert(others.last() == others[others.len() - 1]);
    }
}

/// A notification that went stale before its response is dropped: nothing is
/// written and nothing is reported.
pub proof fn lemma_stale_is_silent(pending: Set<u64>, id: u64, result: Result<i64, SyscallError>)
    ensures
        completed(pending, id, result, false).1 is None,
        !completed(pending, id, result, false).0.contains(id),
{
}

} // verus!
