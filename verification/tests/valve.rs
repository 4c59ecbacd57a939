use std::sync::atomic::AtomicBool;
use std::sync::atomic::Ordering;
use std::sync::Arc;
use std::task::Wake;
use std::task::Waker;

use stream_cancel::Step;
use stream_cancel::Tripwire;
use stream_cancel::Valve;
use stream_cancel::Valved;
use stream_cancel::VecSource;

struct FlagWake(AtomicBool);

impl Wake for FlagWake {
    fn wake(self: Arc<Self>) {
        self.0.store(true, Ordering::SeqCst);
    }
}

#[test]
fn valved_stream_may_be_dropped_safely() {
    let _orphan = {
        let s = VecSource::new(Vec::new());
        let (trigger, valve) = Valve::new();
        let _wrapped = valve.wrap(s);
        trigger
    };
}

#[test]
fn single_fire_idempotence() {
    let (trigger, tripwire) = Tripwire::new();
    let early_clone = tripwire.clone();
    assert!(!tripwire.is_fired());
    assert!(!early_clone.is_fired());
    trigger.close();
    let late_clone = tripwire.clone();
    for _ in 0..100 {
        assert!(tripwire.is_fired());
        assert!(early_clone.is_fired());
        assert!(late_clone.is_fired());
    }
}

#[test]
fn fired_wrapper_stays_terminal() {
    let (trigger, valve) = Valve::new();
    let mut wrapped = valve.wrap(VecSource::new(vec![7, 8, 9]));
    trigger.close();
    for _ in 0..50 {
        assert!(matches!(wrapped.poll_next(), Step::Done));
        assert!(wrapped.is_terminal());
    }
}

#[test]
fn pre_fire_transparency() {
    let (_trigger, valve) = Valve::new();
    let mut wrapped = valve.wrap(VecSource::new(vec![1, 2, 3]));
    assert!(matches!(wrapped.poll_next(), Step::Item(1)));
    assert!(matches!(wrapped.poll_next(), Step::Item(2)));
    assert!(matches!(wrapped.poll_next(), Step::Item(3)));
    assert!(matches!(wrapped.poll_next(), Step::Done));
    assert!(matches!(wrapped.poll_next(), Step::Done));
}

#[test]
fn fire_before_any_poll_yields_nothing() {
    let (trigger, valve) = Valve::new();
    let mut wrapped = valve.wrap(VecSource::new(vec![1, 2, 3]));
    trigger.close();
    assert!(matches!(wrapped.poll_next(), Step::Done));
    assert!(matches!(wrapped.poll_next(), Step::Done));
}

#[test]
fn post_fire_truncation() {
    let (trigger, valve) = Valve::new();
    let mut wrapped = valve.wrap(VecSource::new(vec![1, 2, 3]));
    assert!(matches!(wrapped.poll_next(), Step::Item(1)));
    assert!(matches!(wrapped.poll_next(), Step::Item(2)));
    trigger.close();
    assert!(matches!(wrapped.poll_next(), Step::Done));
    assert!(matches!(wrapped.poll_next(), Step::Done));
}

#[test]
fn clones_share_fate() {
    let (trigger, valve) = Valve::new();
    let sibling_valve = valve.clone();
    let mut first = valve.wrap(VecSource::new(vec![1, 2]));
    let mut second = sibling_valve.wrap(VecSource::new(vec![10, 20, 30]));
    assert!(matches!(first.poll_next(), Step::Item(1)));
    trigger.close();
    assert!(matches!(first.poll_next(), Step::Done));
    assert!(matches!(second.poll_next(), Step::Done));
}

#[test]
fn cloned_wrapper_shares_fate() {
    let (trigger, valve) = Valve::new();
    let mut first = valve.wrap(VecSource::new(vec![1, 2, 3]));
    assert!(matches!(first.poll_next(), Step::Item(1)));
    let mut second = first.clone();
    // Independent cursors over the same script...
    assert!(matches!(second.poll_next(), Step::Item(2)));
    assert!(matches!(first.poll_next(), Step::Item(2)));
    trigger.close();
    // ...but one termination fate.
    assert!(matches!(first.poll_next(), Step::Done));
    assert!(matches!(second.poll_next(), Step::Done));
}

#[test]
fn dropping_trigger_never_fires() {
    let (trigger, valve) = Valve::new();
    let mut wrapped = valve.wrap(VecSource::new(vec![4, 5]));
    drop(trigger);
    assert!(matches!(wrapped.poll_next(), Step::Item(4)));
    assert!(matches!(wrapped.poll_next(), Step::Item(5)));
    assert!(matches!(wrapped.poll_next(), Step::Done));
}

#[test]
fn dropping_wrapper_leaves_siblings_alone() {
    let (trigger, valve) = Valve::new();
    let dropped = valve.wrap(VecSource::new(vec![1]));
    let mut kept = valve.wrap(VecSource::new(vec![2, 3]));
    drop(dropped);
    assert!(matches!(kept.poll_next(), Step::Item(2)));
    trigger.close();
    assert!(matches!(kept.poll_next(), Step::Done));
}

#[test]
fn signal_checked_first() {
    let (trigger, valve) = Valve::new();
    let mut wrapped = valve.wrap(VecSource::new(vec![1, 2, 3]));
    assert!(matches!(wrapped.poll_next(), Step::Item(1)));
    trigger.close();
    // 2 is still pending in the wrapped source, but the fired signal wins.
    assert!(matches!(wrapped.poll_next(), Step::Done));
    assert!(matches!(wrapped.poll_next(), Step::Done));
}

#[test]
fn poll_with_follows_the_supplied_reading() {
    let (_trigger, valve) = Valve::new();
    let mut wrapped = valve.wrap(VecSource::new(vec![1, 2]));
    assert!(matches!(wrapped.poll_with(false), Step::Item(1)));
    assert!(matches!(wrapped.poll_with(true), Step::Done));
    // Terminal is absorbing even if later readings say armed.
    assert!(matches!(wrapped.poll_with(false), Step::Done));
}

#[test]
fn empty_source_ends_naturally() {
    let (_trigger, valve) = Valve::new();
    let mut wrapped = valve.wrap(VecSource::new(Vec::new()));
    assert!(!wrapped.is_terminal());
    assert!(matches!(wrapped.poll_next(), Step::Done));
    assert!(wrapped.is_terminal());
}

#[test]
fn valved_new_pairs_trigger_and_wrapper() {
    let (trigger, mut wrapped) = Valved::new(VecSource::new(vec![9]));
    assert!(matches!(wrapped.poll_next(), Step::Item(9)));
    trigger.close();
    assert!(matches!(wrapped.poll_next(), Step::Done));
}

#[test]
fn source_yields_script_in_order() {
    let mut source = VecSource::new(vec![3, 1, 2]);
    assert!(matches!(source.next(), Step::Item(3)));
    assert!(matches!(source.next(), Step::Item(1)));
    assert!(matches!(source.next(), Step::Item(2)));
    assert!(matches!(source.next(), Step::Done));
    assert!(matches!(source.next(), Step::Done));
}

#[test]
fn guard_checks_and_latches() {
    let (trigger, valve) = Valve::new();
    let (source, mut guard) = valve.wrap(VecSource::new(vec![1])).into_parts();
    drop(source);
    assert!(!guard.check());
    assert!(!guard.is_terminal());
    trigger.close();
    assert!(guard.check());
    assert!(guard.is_terminal());
    assert!(guard.check());
}

#[test]
fn guard_note_end_is_terminal() {
    let (_trigger, valve) = Valve::new();
    let (_source, mut guard) = valve.wrap(VecSource::new(vec![1])).into_parts();
    guard.note_end();
    assert!(guard.is_terminal());
    assert!(guard.check());
}

#[test]
fn close_wakes_parked_wakers() {
    let (trigger, valve) = Valve::new();
    let (_source, mut guard) = valve.wrap(VecSource::new(vec![1])).into_parts();
    let wake_flag = Arc::new(FlagWake(AtomicBool::new(false)));
    let waker = Waker::from(Arc::clone(&wake_flag));
    assert!(!guard.check_park(waker));
    assert!(!wake_flag.0.load(Ordering::SeqCst));
    trigger.close();
    assert!(wake_flag.0.load(Ordering::SeqCst));
    assert!(guard.check_park(Waker::from(Arc::new(FlagWake(AtomicBool::new(false))))));
}

#[test]
fn close_with_no_listeners_is_a_no_op() {
    let (trigger, tripwire) = Tripwire::new();
    drop(tripwire);
    trigger.close();
}
