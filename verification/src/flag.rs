//! The shared one-shot broadcast cell: a reference-counted flag that starts
//! unset, can only ever transition to set, and carries the registry of
//! parked wakers to reawaken when it fires.
//!
//! This is the one place the crate leans on the host's shared-memory
//! primitives; everything here is trusted, and the state machine built on
//! top of it takes the flag's reading as an explicit input so that its own
//! behaviour is verified for either reading.

use vstd::prelude::*;

verus! {

/// The std task handle used to reawaken a parked poller.
///
/// Relies on `std::task::Waker` from std; declared so that verified code can
/// carry one through to the registry without inspecting it.
#[verifier::external_type_specification]
#[verifier::external_body]
pub struct ExWaker(std::task::Waker);

/// A clonable handle to one shared set-once flag plus a waker registry.
///
/// All clones obtained through `clone` observe the same cell. Relies on
/// `std::sync::Arc` for shared ownership, `std::sync::atomic::AtomicBool`
/// with sequentially consistent ordering for the set-once flag, and
/// `std::sync::Mutex` around the waker registry. The flag is only ever
/// stored `true`; once any clone has set it, every later read on any clone
/// returns `true`.
#[verifier::external_body]
pub struct SharedFlag {
    cell: std::sync::Arc<(
        std::sync::atomic::AtomicBool,
        std::sync::Mutex<Vec<std::task::Waker>>,
    )>,
}

impl SharedFlag {
    /// Relies on `Arc::new`, `AtomicBool::new` and `Mutex::new`: a fresh
    /// cell, unset, with an empty waker registry, shared with no one yet.
    #[verifier::external_body]
    pub(crate) fn new() -> SharedFlag {
        SharedFlag {
            cell: std::sync::Arc::new((
                std::sync::atomic::AtomicBool::new(false),
                std::sync::Mutex::new(Vec::new()),
            )),
        }
    }

    /// Relies on `AtomicBool::load` (sequentially consistent): returns the
    /// flag's current reading. Nothing is promised of the value: a sibling
    /// clone may set the flag at any moment, so callers must work with
    /// either reading.
    #[verifier::external_body]
    pub(crate) fn get(&self) -> bool {
        self.cell.0.load(std::sync::atomic::Ordering::SeqCst)
    }

    /// Relies on `AtomicBool::store` (sequentially consistent): sets the
    /// flag, for every clone, irrevocably — `true` is the only value ever
    /// stored.
    #[verifier::external_body]
    pub(crate) fn set(&self) {
        self.cell.0.store(true, std::sync::atomic::Ordering::SeqCst);
    }

    /// Relies on `Mutex::lock` and `std::mem::take`: removes and returns
    /// every waker registered so far, on any clone, leaving the registry
    /// empty. A waker parked after this call is not in the result; its
    /// owner re-reads the flag after parking, so it needs no wake.
    #[verifier::external_body]
    pub(crate) fn take_parked(&self) -> Vec<std::task::Waker> {
        std::mem::take(&mut *self.cell.1.lock().unwrap())
    }

    /// Relies on `Mutex::lock` and `Vec::push`: adds one waker to the
    /// registry shared by all clones, to be taken and woken when the flag
    /// is set.
    #[verifier::external_body]
    pub(crate) fn park(&self, waker: std::task::Waker) {
        self.cell.1.lock().unwrap().push(waker);
    }
}

/// Relies on `std::task::Waker::wake`: wakes the task the waker was taken
/// from, consuming the waker.
#[verifier::external_body]
pub(crate) fn wake(waker: std::task::Waker) {
    waker.wake();
}

impl Clone for SharedFlag {
    /// Relies on `Arc::clone`: the new handle references the very same
    /// allocation, so as a value it is the same handle — the one axiom that
    /// lets contracts say a trigger, a valve and its wrappers share one
    /// cell.
    #[verifier::external_body]
    fn clone(&self) -> (r: SharedFlag)
        ensures
            r == *self,
    {
        SharedFlag { cell: std::sync::Arc::clone(&self.cell) }
    }
}

} // verus!
