//! The one-shot signal: its observer handle, the finalizer that raises it, and
//! the decision of the observer's wait operation.
use vstd::prelude::*;
use tokio::sync::watch::Receiver;
use crate::watch_specs::current_value;

verus! {

/// Marker that an observer's wait operation has resolved: the signal was
/// raised, or its broadcaster is gone. It carries no reason.
pub struct CancelToken(());

/// Whether a wait operation that sees the flag `raised` and the broadcaster
/// side `closed` resolves.
///
/// A broadcaster that is dropped without raising the flag counts as a
/// cancellation: listeners never hang on an owner that has disappeared, and
/// they cannot tell the two outcomes apart.
pub open spec fn wait_resolves(raised: bool, closed: bool) -> bool {
    raised || closed
}

/// The decision of a wait operation on what it observed of the signal state:
/// a token exactly when the flag is raised or the broadcaster is gone.
pub fn wait_outcome(raised: bool, closed: bool) -> (r: Option<CancelToken>)
    ensures
        r is Some <==> wait_resolves(raised, closed),
{
    if raised || closed {
        Some(CancelToken(()))
    } else {
        None
    }
}

/// Read-only, cloneable handle on a one-shot cancellation flag. Clones share
/// the flag; they never copy its value.
pub struct Canceler {
    rx: Receiver<bool>,
}

impl Clone for Canceler {
    fn clone(&self) -> (r: Self) {
        Canceler { rx: self.rx.clone() }
    }
}

impl Canceler {
    /// Runs `f` at once with a fresh observer of a new, lowered flag, and
    /// returns the finalizer: it raises the flag (a flag that nobody observes
    /// any more is raised vacuously) and hands back what `f` returned.
    pub fn spawn<F, T>(f: F) -> (r: impl FnOnce() -> T)
        where
            F: FnOnce(Self) -> T,
        requires
            forall|c: Canceler| f.requires((c,)),
        ensures
            r.requires(()),
            forall|out: T| r.ensures((), out) ==> exists|c: Canceler| f.ensures((c,), out),
    {
        let (tx, rx) = tokio::sync::watch::channel(false);
        let output = f(Canceler { rx });
        move || -> (out: T)
            ensures
                out == output,
            {
                match tx.send(true) {
                    Ok(()) => {},
                    Err(_) => {},
                }
                output
            }
    }

    /// Whether the flag reads as raised now.
    pub fn is_cancelled(&self) -> bool {
        current_value(&self.rx)
    }

    /// Whether the broadcaster side is gone (raised or not).
    pub fn is_detached(&self) -> bool {
        match self.rx.has_changed() {
            Ok(_) => false,
            Err(_) => true,
        }
    }

    /// One look of the wait operation at the signal state: the decision of
    /// [`wait_outcome`] on what is read now. With `None` the caller awaits the
    /// next change of the flag before looking again. What is read depends on
    /// the other handles of the flag, so nothing more is stated here.
    pub fn check(&self) -> Option<CancelToken> {
        let raised = self.is_cancelled();
        let closed = self.is_detached();
        wait_outcome(raised, closed)
    }

    /// The receiver under this handle, for awaiting the next change of the
    /// flag.
    pub fn receiver_mut(&mut self) -> &mut Receiver<bool> {
        &mut self.rx
    }
}

/// Raising the flag resolves the wait operation of every observer of it, at
/// its next look, whatever the state of the broadcaster side.
pub proof fn lemma_raised_flag_resolves(closed: bool)
    ensures
        wait_resolves(true, closed),
{
}

/// Dropping the broadcaster without raising the flag resolves every wait
/// operation too, as a cancellation: none of them hangs.
pub proof fn lemma_dropped_broadcaster_resolves(raised: bool)
    ensures
        wait_resolves(raised, true),
{
}

} // verus!
