//! The decisions of a cancelable stream: a stream bound to a pending wait
//! operation, which stops for good as soon as that wait has resolved.
use vstd::prelude::*;
use crate::signal::{CancelToken, wait_resolves};

verus! {

/// What one poll of a stream reports: not ready yet, an element, or no more
/// elements.
pub enum StreamPoll<T> {
    Pending,
    Item(T),
    Done,
}

/// Whether a cancelable stream has ended after a poll, given whether it had
/// ended before and whether its wait operation was ready at that poll.
pub open spec fn ends_after(ended: bool, wait_ready: bool) -> bool {
    ended || wait_ready
}

/// What a cancelable stream reports over a run of polls. `waits[i]` is whether
/// the wait operation is ready at poll `i`; `reports` are the successive
/// answers of the underlying stream, which is asked only on polls where the
/// cancelable stream has not ended. The run stops early when those answers
/// run out.
pub open spec fn run<T>(ended: bool, waits: Seq<bool>, reports: Seq<StreamPoll<T>>) -> Seq<StreamPoll<T>>
    decreases waits.len(),
{
    if waits.len() == 0 {
        Seq::empty()
    } else if ends_after(ended, waits[0]) {
        seq![StreamPoll::Done].add(run(true, waits.drop_first(), reports))
    } else if reports.len() == 0 {
        Seq::empty()
    } else {
        seq![reports[0]].add(run(false, waits.drop_first(), reports.drop_first()))
    }
}

/// The state of a cancelable stream: whether it has ended. Once ended it
/// stays ended, and neither the wait operation nor the underlying stream is
/// polled again.
pub struct CancelGate {
    ended: bool,
}

impl CancelGate {
    pub closed spec fn has_ended(self) -> bool {
        self.ended
    }

    /// A gate for a stream whose wait operation is still pending.
    pub fn new() -> (r: Self)
        ensures
            !r.has_ended(),
    {
        CancelGate { ended: false }
    }

    /// Whether the stream has ended; while it has not, each poll first polls
    /// the wait operation.
    pub fn is_ended(&self) -> (r: bool)
        ensures
            r == self.has_ended(),
    {
        self.ended
    }

    /// One poll of the cancelable stream. `wait` is what polling the wait
    /// operation gave (`None` while it is pending, or when it was not polled
    /// because the stream had ended). The cancellation is checked first: when
    /// the stream has ended, or the wait is ready now, the result is `Done`
    /// and `poll_inner` is not called, even if the underlying stream holds a
    /// ready element. Otherwise the underlying stream is polled through
    /// `poll_inner` and its answer is returned as it is.
    pub fn poll_next<T, N>(&mut self, wait: Option<CancelToken>, poll_inner: N) -> (r: StreamPoll<T>)
        where
            N: FnOnce() -> StreamPoll<T>,
        requires
            poll_inner.requires(()),
        ensures
            final(self).has_ended() == ends_after(old(self).has_ended(), wait is Some),
            final(self).has_ended() ==> r is Done,
            !final(self).has_ended() ==> poll_inner.ensures((), r),
    {
        if self.ended {
            return StreamPoll::Done;
        }
        match wait {
            Some(_) => {
                self.ended = true;
                StreamPoll::Done
            },
            None => poll_inner(),
        }
    }
}

/// No element comes out of a poll made at or after the one where the wait
/// operation was ready, even when the underlying stream has one ready: every
/// later report is "no more elements".
pub proof fn lemma_nothing_after_cancel<T>(
    ended: bool,
    waits: Seq<bool>,
    reports: Seq<StreamPoll<T>>,
    j: int,
    i: int,
)
    requires
        0 <= j <= i < run(ended, waits, reports).len(),
        j < waits.len(),
        waits[j],
    ensures
        run(ended, waits, reports)[i] is Done,
    decreases waits.len(),
{
    if j == 0 {
        lemma_run_after_end(waits.drop_first(), reports);
        if i > 0 {
            assert(run(ended, waits, reports)[i] == run(true, waits.drop_first(), reports)[i - 1]);
        }
    } else if ends_after(ended, waits[0]) {
        if i > 0 {
            lemma_nothing_after_cancel(true, waits.drop_first(), reports, j - 1, i - 1);
        }
    } else {
        lemma_nothing_after_cancel(false, waits.drop_first(), reports.drop_first(), j - 1, i - 1);
    }
}

/// An ended stream reports "no more elements" at every later poll.
pub proof fn lemma_run_after_end<T>(waits: Seq<bool>, reports: Seq<StreamPoll<T>>)
    ensures
        run(true, waits, reports) =~= Seq::new(waits.len(), |i: int| StreamPoll::<T>::Done),
    decreases waits.len(),
{
    if waits.len() > 0 {
        lemma_run_after_end(waits.drop_first(), reports);
    }
}

/// Once the flag is raised, the next poll of every cancelable stream bound
/// to an observer of it ends that stream, whatever its state and whatever the
/// state of the broadcaster side.
pub proof fn lemma_raised_flag_ends_stream(ended: bool, closed: bool)
    ensures
        ends_after(ended, wait_resolves(true, closed)),
{
}

/// While the wait operation is never ready, a cancelable stream reports
/// exactly what its underlying stream reports, in the same order.
pub proof fn lemma_uncancelled_is_transparent<T>(waits: Seq<bool>, reports: Seq<StreamPoll<T>>)
    requires
        waits.len() == reports.len(),
        forall|k: int| 0 <= k < waits.len() ==> !waits[k],
    ensures
        run(false, waits, reports) == reports,
    decreases waits.len(),
{
    if waits.len() > 0 {
        assert(!waits[0]);
        let (w, r) = (waits.drop_first(), reports.drop_first());
        assert forall|k: int| 0 <= k < w.len() implies !w[k] by {
            assert(w[k] == waits[k + 1]);
        }
        lemma_uncancelled_is_transparent(w, r);
        assert(run(false, waits, reports) =~= reports);
    } else {
        assert(run(false, waits, reports) =~= reports);
    }
}

} // verus!
