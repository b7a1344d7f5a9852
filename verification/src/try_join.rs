//! The fail-fast join combinator.
//!
//! Every "enrich N items with a per-item secondary fetch" operation runs as
//! one batch: N independent operations advance concurrently, the batch
//! resolves as soon as either all of them have succeeded or one has failed,
//! and on failure the error earliest in input order wins.  The caller's
//! scheduler performs the actual fetches and reports, once per scheduling
//! pass, what each still-pending operation did; the decisions live here and
//! are verified.

use vstd::prelude::*;
use vstd::pervasive::VecAdditionalExecFns;

verus! {

/// One operation of a batch: still in flight, or completed with its value.
pub enum ElemState<T> {
    Pending,
    Done(T),
}

/// What one scheduling pass observed of one operation: nothing yet, or a
/// completion with success or failure.
pub enum PollEvent<T, E> {
    Pending,
    Ready(Result<T, E>),
}

/// The state of a batch of concurrently running operations, one slot per
/// operation in the caller's input order.
pub struct TryJoinAll<T> {
    pub slots: Vec<ElemState<T>>,
}

/// What a scheduling pass resolved to: the batch keeps running, or it is
/// over with all values in input order, or with the first error.
pub enum JoinPoll<T, E> {
    Pending(TryJoinAll<T>),
    Ready(Result<Vec<T>, E>),
}

/// Operation `i` is still pending and failed in this pass.
pub open spec fn err_at<T, E>(slots: Seq<ElemState<T>>, evs: Seq<PollEvent<T, E>>, i: int) -> bool {
    &&& 0 <= i < slots.len()
    &&& slots[i] is Pending
    &&& evs[i] matches PollEvent::Ready(Err(_))
}

/// Operation `i` is the earliest one that failed in this pass.
pub open spec fn first_err_at<T, E>(
    slots: Seq<ElemState<T>>,
    evs: Seq<PollEvent<T, E>>,
    i: int,
) -> bool {
    &&& err_at(slots, evs, i)
    &&& forall|j: int| 0 <= j < i ==> !err_at(slots, evs, j)
}

/// No operation failed in this pass.
pub open spec fn no_err<T, E>(slots: Seq<ElemState<T>>, evs: Seq<PollEvent<T, E>>) -> bool {
    forall|i: int| !err_at(slots, evs, i)
}

/// How one slot advances under the event observed for it.  Completed slots
/// are never polled again; a pending slot completes exactly on a success.
pub open spec fn step_slot<T, E>(s: ElemState<T>, ev: PollEvent<T, E>) -> ElemState<T> {
    match s {
        ElemState::Done(v) => ElemState::Done(v),
        ElemState::Pending => match ev {
            PollEvent::Ready(Ok(v)) => ElemState::Done(v),
            _ => ElemState::Pending,
        },
    }
}

/// A new batch of `n` operations, all still in flight.
pub fn try_join_all<T>(n: usize) -> (r: TryJoinAll<T>)
    ensures
        r.slots@.len() == n,
        forall|i: int| 0 <= i < n ==> r.slots@[i] is Pending,
{
    let mut slots: Vec<ElemState<T>> = Vec::new();
    while slots.len() < n
        invariant
            slots@.len() <= n,
            forall|i: int| 0 <= i < slots@.len() ==> slots@[i] is Pending,
        decreases n - slots@.len(),
    {
        slots.push(ElemState::Pending);
    }
    TryJoinAll { slots }
}

/// The elements of `v` in reverse order.
pub(crate) fn reversed<A>(v: Vec<A>) -> (r: Vec<A>)
    ensures
        r@.len() == v@.len(),
        forall|k: int| 0 <= k < v@.len() ==> r@[k] == v@[v@.len() - 1 - k],
{
    let ghost orig = v@;
    let mut src = v;
    let mut out: Vec<A> = Vec::new();
    while src.len() > 0
        invariant
            out@.len() + src@.len() == orig.len(),
            src@ == orig.subrange(0, src@.len() as int),
            forall|k: int| 0 <= k < out@.len() ==> out@[k] == orig[orig.len() - 1 - k],
        decreases src@.len(),
    {
        let x = src.pop().unwrap();
        proof {
            assert(src@ =~= orig.subrange(0, src@.len() as int));
        }
        out.push(x);
    }
    out
}

impl<T> TryJoinAll<T> {
    /// How many operations the batch holds.
    pub fn len(&self) -> (r: usize)
        ensures
            r == self.slots@.len(),
    {
        self.slots.len()
    }

    /// Advance the batch by one scheduling pass.  `events[i]` is what the
    /// scheduler observed of operation `i` in this pass; events of already
    /// completed slots are ignored.  The batch resolves to the earliest
    /// error of the pass, or to all values in input order once every slot
    /// has completed, and otherwise keeps running with the successes of
    /// this pass recorded.
    pub fn poll<E>(self, events: Vec<PollEvent<T, E>>) -> (r: JoinPoll<T, E>)
        requires
            events@.len() == self.slots@.len(),
        ensures
            ({
                let slots0 = self.slots@;
                let evs = events@;
                match r {
                    JoinPoll::Ready(res) => match res {
                        Err(e) => exists|i: int|
                            #[trigger] first_err_at(slots0, evs, i) && evs[i]
                                == PollEvent::<T, E>::Ready(Err(e)),
                        Ok(vals) => {
                            &&& no_err(slots0, evs)
                            &&& vals@.len() == slots0.len()
                            &&& forall|i: int|
                                0 <= i < slots0.len() ==> #[trigger] step_slot(slots0[i], evs[i])
                                    == ElemState::Done(vals@[i])
                        },
                    },
                    JoinPoll::Pending(next) => {
                        &&& no_err(slots0, evs)
                        &&& exists|i: int|
                            0 <= i < slots0.len() && #[trigger] step_slot(slots0[i], evs[i])
                                is Pending
                        &&& next.slots@.len() == slots0.len()
                        &&& forall|i: int|
                            0 <= i < slots0.len() ==> next.slots@[i] == #[trigger] step_slot(
                                slots0[i],
                                evs[i],
                            )
                    },
                }
            }),
    {
        let ghost slots0 = self.slots@;
        let ghost evs = events@;
        let mut batch = self;
        let n = batch.slots.len();
        let mut rev = reversed(events);
        let mut i: usize = 0;
        let mut saw_pending = false;
        while i < n
            invariant
                slots0 == self.slots@,
                evs == events@,
                0 <= i <= n,
                n == slots0.len(),
                evs.len() == n,
                batch.slots@.len() == n,
                rev@.len() == n - i,
                forall|k: int| 0 <= k < rev@.len() ==> rev@[k] == evs[n - 1 - k],
                forall|j: int| 0 <= j < i ==> !err_at(slots0, evs, j),
                forall|j: int|
                    0 <= j < i ==> batch.slots@[j] == #[trigger] step_slot(slots0[j], evs[j]),
                forall|j: int| i <= j < n ==> batch.slots@[j] == slots0[j],
                saw_pending == exists|j: int|
                    0 <= j < i && #[trigger] step_slot(slots0[j], evs[j]) is Pending,
            decreases n - i,
        {
            let ev = rev.pop().unwrap();
            proof {
                assert(ev == evs[i as int]);
            }
            let slot_pending = match &batch.slots[i] {
                ElemState::Pending => true,
                ElemState::Done(_) => false,
            };
            if slot_pending {
                match ev {
                    PollEvent::Pending => {
                        saw_pending = true;
                    },
                    PollEvent::Ready(Ok(v)) => {
                        proof {
                            assert(step_slot(slots0[i as int], evs[i as int])
                                == ElemState::<T>::Done(v));
                        }
                        batch.slots.set(i, ElemState::Done(v));
                    },
                    PollEvent::Ready(Err(e)) => {
                        proof {
                            assert(evs[i as int] == PollEvent::<T, E>::Ready(Err(e)));
                            assert(first_err_at(slots0, evs, i as int));
                            assert(exists|k: int|
                                #[trigger] first_err_at(slots0, evs, k) && evs[k] == PollEvent::<
                                    T,
                                    E,
                                >::Ready(Err(e)));
                        }
                        return JoinPoll::Ready(Err(e));
                    },
                }
            } else {
                proof {
                    assert(step_slot(slots0[i as int], evs[i as int]) == slots0[i as int]);
                }
            }
            i += 1;
        }
        if saw_pending {
            JoinPoll::Pending(batch)
        } else {
            let mut rev_slots = reversed(batch.slots);
            let mut vals: Vec<T> = Vec::new();
            while rev_slots.len() > 0
                invariant
                    slots0 == self.slots@,
                    evs == events@,
                    rev_slots@.len() + vals@.len() == n,
                    n == slots0.len(),
                    evs.len() == n,
                    forall|k: int|
                        0 <= k < rev_slots@.len() ==> #[trigger] rev_slots@[k] == step_slot(
                            slots0[n - 1 - k],
                            evs[n - 1 - k],
                        ),
                    forall|j: int|
                        0 <= j < vals@.len() ==> #[trigger] step_slot(slots0[j], evs[j])
                            == ElemState::Done(vals@[j]),
                    forall|j: int| 0 <= j < n ==> !(#[trigger] step_slot(slots0[j], evs[j]) is Pending),
                    no_err(slots0, evs),
                decreases rev_slots@.len(),
            {
                let ghost j = vals@.len() as int;
                let popped = rev_slots.pop().unwrap();
                proof {
                    assert(popped == step_slot(slots0[j], evs[j]));
                }
                match popped {
                    ElemState::Done(v) => vals.push(v),
                    ElemState::Pending => {
                        proof {
                            assert(false);
                        }
                    },
                }
            }
            JoinPoll::Ready(Ok(vals))
        }
    }
}

/// What joining a sequence of finished operations resolves to: all values
/// in input order, or the earliest error.
pub open spec fn spec_try_join<T, E>(rs: Seq<Result<T, E>>) -> Result<Seq<T>, E>
    decreases rs.len(),
{
    if rs.len() == 0 {
        Ok(Seq::empty())
    } else {
        match rs[0] {
            Err(e) => Err(e),
            Ok(v) => match spec_try_join(rs.subrange(1, rs.len() as int)) {
                Ok(rest) => Ok(seq![v] + rest),
                Err(e) => Err(e),
            },
        }
    }
}

/// Resolve a batch whose operations have all finished: the values in input
/// order if every operation succeeded, otherwise the earliest error.
pub fn try_join_results<T, E>(results: Vec<Result<T, E>>) -> (r: Result<Vec<T>, E>)
    ensures
        match r {
            Ok(vals) => spec_try_join(results@) == Ok::<Seq<T>, E>(vals@),
            Err(e) => spec_try_join(results@) == Err::<Seq<T>, E>(e),
        },
{
    let ghost rs = results@;
    let n = results.len();
    let mut rev = reversed(results);
    let mut vals: Vec<T> = Vec::new();
    let mut i: usize = 0;
    proof {
        assert(rs.subrange(0, n as int) =~= rs);
        if spec_try_join(rs) is Ok {
            assert(Seq::<T>::empty() + spec_try_join(rs)->Ok_0 =~= spec_try_join(rs)->Ok_0);
        }
    }
    while i < n
        invariant
            rs == results@,
            0 <= i <= n,
            n == rs.len(),
            rev@.len() == n - i,
            forall|k: int| 0 <= k < rev@.len() ==> rev@[k] == rs[n - 1 - k],
            vals@.len() == i,
            forall|j: int| 0 <= j < i ==> rs[j] == Ok::<T, E>(vals@[j]),
            spec_try_join(rs) == (match spec_try_join(rs.subrange(i as int, n as int)) {
                Ok(rest) => Ok::<Seq<T>, E>(vals@ + rest),
                Err(e) => Err::<Seq<T>, E>(e),
            }),
        decreases n - i,
    {
        let ghost prev_vals = vals@;
        let res = rev.pop().unwrap();
        proof {
            assert(res == rs[i as int]);
            assert(rs.subrange(i as int, n as int).len() > 0);
            assert(rs.subrange(i as int, n as int)[0] == rs[i as int]);
            assert(rs.subrange(i as int, n as int).subrange(
                1,
                rs.subrange(i as int, n as int).len() as int,
            ) =~= rs.subrange(i + 1, n as int));
        }
        match res {
            Ok(v) => {
                vals.push(v);
                proof {
                    if spec_try_join(rs.subrange(i + 1, n as int)) is Ok {
                        let rest = spec_try_join(rs.subrange(i + 1, n as int))->Ok_0;
                        assert(prev_vals + (seq![v] + rest) =~= vals@ + rest);
                    }
                }
            },
            Err(e) => {
                proof {
                    assert(spec_try_join(rs.subrange(i as int, n as int)) == Err::<Seq<T>, E>(e));
                    assert(spec_try_join(rs) == Err::<Seq<T>, E>(e));
                }
                return Err(e);
            },
        }
        i += 1;
    }
    proof {
        assert(rs.subrange(n as int, n as int).len() == 0);
        assert(vals@ + Seq::<T>::empty() =~= vals@);
    }
    Ok(vals)
}

/// Join three finished operations with the same fail-fast, input-order
/// semantics as the batch combinator.
pub fn try_join3<T, E>(a: Result<T, E>, b: Result<T, E>, c: Result<T, E>) -> (r: Result<
    (T, T, T),
    E,
>)
    ensures
        match r {
            Ok(vals) => a == Ok::<T, E>(vals.0) && b == Ok::<T, E>(vals.1) && c == Ok::<T, E>(
                vals.2,
            ),
            Err(e) => (a == Err::<T, E>(e)) || (a is Ok && b == Err::<T, E>(e)) || (a is Ok && b
                is Ok && c == Err::<T, E>(e)),
        },
{
    match a {
        Err(e) => Err(e),
        Ok(x) => match b {
            Err(e) => Err(e),
            Ok(y) => match c {
                Err(e) => Err(e),
                Ok(z) => Ok((x, y, z)),
            },
        },
    }
}

/// If every operation of the batch succeeded — in particular if the batch
/// is empty — the join succeeds and yields the values in input order.
pub proof fn lemma_join_all_ok<T, E>(rs: Seq<Result<T, E>>)
    requires
        forall|j: int| 0 <= j < rs.len() ==> rs[j] is Ok,
    ensures
        spec_try_join(rs) is Ok,
        spec_try_join(rs)->Ok_0.len() == rs.len(),
        forall|j: int| 0 <= j < rs.len() ==> spec_try_join(rs)->Ok_0[j] == rs[j]->Ok_0,
    decreases rs.len(),
{
    if rs.len() > 0 {
        lemma_join_all_ok(rs.subrange(1, rs.len() as int));
    }
}

/// The join of a batch whose earliest failure stands at `k` — whatever the
/// operations after `k` did — is exactly that failure.
pub proof fn lemma_join_first_error<T, E>(rs: Seq<Result<T, E>>, k: int)
    requires
        0 <= k < rs.len(),
        rs[k] is Err,
        forall|j: int| 0 <= j < k ==> rs[j] is Ok,
    ensures
        spec_try_join(rs) == Err::<Seq<T>, E>(rs[k]->Err_0),
    decreases rs.len(),
{
    if k > 0 {
        lemma_join_first_error(rs.subrange(1, rs.len() as int), k - 1);
    }
}

/// With exactly one failing operation, at index `k`, the join resolves to
/// that error no matter where `k` stands in the batch.
pub proof fn lemma_join_single_error<T, E>(rs: Seq<Result<T, E>>, k: int)
    requires
        0 <= k < rs.len(),
        rs[k] is Err,
        forall|j: int| 0 <= j < rs.len() && j != k ==> rs[j] is Ok,
    ensures
        spec_try_join(rs) == Err::<Seq<T>, E>(rs[k]->Err_0),
{
    lemma_join_first_error(rs, k);
}

} // verus!
