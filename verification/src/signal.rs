//! The one-shot broadcast signal and its unique firing capability.
//!
//! A `Tripwire::new` call allocates one shared cell in the armed state and
//! hands back the unique [`Trigger`] together with one [`Tripwire`] handle.
//! Any number of tripwire clones may coexist; all observe the same fire
//! event, and the trigger can fire at most once because `close` consumes it.

use vstd::prelude::*;

use crate::flag::SharedFlag;

verus! {

/// A clonable handle to one shared one-shot broadcast signal.
///
/// Polled as a single-value producer it reads "armed" (`is_fired` returns
/// `false`) until the associated [`Trigger`] is closed, and "fired" from
/// then on, for every clone. The reading is an input from the shared cell:
/// verified callers branch on it rather than rely on it, so their own
/// contracts hold for either reading.
pub struct Tripwire {
    flag: SharedFlag,
}

/// The unique capability to fire the signal it was created with.
///
/// It cannot be cloned, and `close` consumes it, so the signal fires at most
/// once per lifetime. Dropping a trigger without closing it never fires the
/// signal: sequences guarded by it simply keep running.
pub struct Trigger {
    flag: SharedFlag,
}

impl Tripwire {
    /// The shared cell this handle observes. Two handles of equal lineage
    /// observe the same signal: one fire is seen by both.
    pub closed spec fn lineage(&self) -> SharedFlag {
        self.flag
    }

    /// Allocate a fresh armed signal; return its unique firing capability
    /// and one handle observing it — the same signal for both, so closing
    /// the trigger is what fires everything watching this tripwire.
    pub fn new() -> (r: (Trigger, Tripwire))
        ensures
            r.0.lineage() == r.1.lineage(),
    {
        let flag = SharedFlag::new();
        let observer = flag.clone();
        (Trigger { flag }, Tripwire { flag: observer })
    }

    /// Read the signal: `false` while armed, `true` once fired.
    ///
    /// The result comes from the shared cell and may flip from `false` to
    /// `true` between two calls (never back); nothing is stated of it here,
    /// and the guarded-sequence state machine is verified for either value.
    pub fn is_fired(&self) -> bool {
        self.flag.get()
    }

    /// Register a waker to be woken when the signal fires.
    ///
    /// A poller that saw the signal armed parks itself here; `Trigger::close`
    /// wakes every waker parked so far, across all clones. To close the race
    /// with a concurrent fire, re-read `is_fired` after parking.
    pub fn park(&self, waker: std::task::Waker) {
        self.flag.park(waker);
    }
}

impl Clone for Tripwire {
    /// A new handle to the same signal: all clones observe the same fire.
    fn clone(&self) -> (r: Tripwire)
        ensures
            r.lineage() == self.lineage(),
    {
        Tripwire { flag: self.flag.clone() }
    }
}

impl Trigger {
    /// The shared cell this capability fires: closing the trigger fires
    /// exactly the signals whose lineage equals this one.
    pub closed spec fn lineage(&self) -> SharedFlag {
        self.flag
    }

    /// Fire the signal: transition it to fired, exactly once, then wake
    /// every waker parked while it was armed. Consumes the trigger, so a
    /// second fire is impossible at the type level. Safe to call with no
    /// live observers: there is then nothing to wake.
    ///
    /// The flag is set before the wakers are taken, so a task woken here —
    /// or one that parks concurrently and re-reads on its own — sees the
    /// signal fired.
    pub fn close(self) {
        self.flag.set();
        let mut parked = self.flag.take_parked();
        loop
            decreases parked.len(),
        {
            match parked.pop() {
                Some(waker) => crate::flag::wake(waker),
                None => { break },
            }
        }
    }
}

} // verus!
