//! Guarded sequences: wrapping a pull-based sequence so that it terminates
//! permanently once the shared signal fires or its own input ends.
//!
//! The poll policy is the heart of the crate: on every poll the signal is
//! checked first, before the wrapped sequence is touched, so that a fired
//! signal truncates the output at the very next poll even if the wrapped
//! input still has an item ready. The policy is a small state machine with a
//! single absorbing terminal state, verified here; the signal's reading
//! enters it as an explicit input, so every contract holds for either
//! reading.

use vstd::prelude::*;

use crate::flag::SharedFlag;
use crate::signal::Trigger;
use crate::signal::Tripwire;

verus! {

/// The outcome of one poll of a pull-based sequence: the next item, a
/// not-yet-ready notice, or permanent end-of-data.
pub enum Step<T> {
    /// The sequence produced its next item.
    Item(T),
    /// No item is ready yet; poll again later.
    Pending,
    /// The sequence has terminated; no further item will ever come.
    Done,
}

/// The per-instance termination watch of one guarded sequence: one clone of
/// the shared signal plus the instance's own latched terminal state.
///
/// `Running` is represented by the latch being clear; once the latch is set
/// the instance is `Terminal`, and it never reverts.
pub struct Guard {
    signal: Tripwire,
    done: bool,
}

impl Guard {
    /// Whether this instance has reached its absorbing terminal state.
    pub closed spec fn is_done(&self) -> bool {
        self.done
    }

    /// The shared cell whose fire this guard watches for: guards of equal
    /// lineage terminate on the same close.
    pub closed spec fn lineage(&self) -> SharedFlag {
        self.signal.lineage()
    }

    pub(crate) fn new(signal: Tripwire) -> (g: Guard)
        ensures
            !g.is_done(),
            g.lineage() == signal.lineage(),
    {
        Guard { signal, done: false }
    }

    /// The poll gate, signal checked first: report whether this poll must
    /// yield end-of-data without touching the wrapped sequence.
    ///
    /// Returns `true` — and latches the terminal state — if the instance is
    /// already terminal or the shared signal reads fired; the latch is never
    /// cleared, so a terminal instance stays terminal on every later check.
    pub fn check(&mut self) -> (terminal: bool)
        ensures
            final(self).lineage() == old(self).lineage(),
            final(self).is_done() == (old(self).is_done() || terminal),
            old(self).is_done() ==> terminal,
            !terminal ==> *final(self) == *old(self),
    {
        if self.done {
            true
        } else if self.signal.is_fired() {
            self.done = true;
            true
        } else {
            false
        }
    }

    /// The poll gate for a parked poller: as `check`, but when the signal
    /// reads armed, register the waker and re-read the signal, closing the
    /// race with a fire that lands between the two reads.
    pub fn check_park(&mut self, waker: std::task::Waker) -> (terminal: bool)
        ensures
            final(self).lineage() == old(self).lineage(),
            final(self).is_done() == (old(self).is_done() || terminal),
            old(self).is_done() ==> terminal,
            !terminal ==> *final(self) == *old(self),
    {
        if self.done {
            true
        } else if self.signal.is_fired() {
            self.done = true;
            true
        } else {
            self.signal.park(waker);
            if self.signal.is_fired() {
                self.done = true;
                true
            } else {
                false
            }
        }
    }

    /// Record that the wrapped sequence yielded its own end-of-data: the
    /// instance becomes terminal, whatever the signal reads.
    pub fn note_end(&mut self)
        ensures
            final(self).lineage() == old(self).lineage(),
            final(self).is_done(),
    {
        self.done = true;
    }

    /// Whether the instance is terminal, without reading the shared signal.
    pub fn is_terminal(&self) -> (r: bool)
        ensures
            r == self.is_done(),
    {
        self.done
    }
}

impl Clone for Guard {
    /// A new watch on the same signal, in the same state: the clone shares
    /// the original's termination fate.
    fn clone(&self) -> (r: Guard)
        ensures
            r.lineage() == self.lineage(),
            r.is_done() == self.is_done(),
    {
        Guard { signal: self.signal.clone(), done: self.done }
    }
}

/// A clonable handle associated with one [`Trigger`]; it wraps pull-based
/// sequences so that they all stop at the poll after that trigger is closed.
pub struct Valve {
    signal: Tripwire,
}

impl Valve {
    /// The shared cell whose fire every wrapper made by this valve watches.
    pub closed spec fn lineage(&self) -> SharedFlag {
        self.signal.lineage()
    }

    /// Make a new `Valve` and its associated [`Trigger`]: one freshly
    /// allocated armed signal, shared by the pair, so closing the returned
    /// trigger is what stops the sequences this valve wraps.
    pub fn new() -> (r: (Trigger, Valve))
        ensures
            r.0.lineage() == r.1.lineage(),
    {
        let (trigger, tripwire) = Tripwire::new();
        (trigger, Valve { signal: tripwire })
    }

    /// Wrap the given sequence with this valve.
    ///
    /// The wrapper starts running, owns `stream` unchanged, and watches this
    /// valve's own signal: every sequence wrapped by this valve or its
    /// clones shares the one fire event.
    pub fn wrap<S>(&self, stream: S) -> (v: Valved<S>)
        ensures
            v.inner_value() == stream,
            !v.is_done(),
            v.lineage() == self.lineage(),
    {
        Valved { inner: stream, guard: Guard::new(self.signal.clone()) }
    }
}

impl Clone for Valve {
    /// A new handle minting wrappers that share this valve's fire event.
    fn clone(&self) -> (r: Valve)
        ensures
            r.lineage() == self.lineage(),
    {
        Valve { signal: self.signal.clone() }
    }
}

/// A guarded sequence: a wrapper around a pull-based sequence that yields
/// end-of-data permanently once its shared signal fires or its wrapped
/// input naturally ends, whichever comes first.
pub struct Valved<S> {
    inner: S,
    guard: Guard,
}

impl<S> Valved<S> {
    /// The wrapped sequence, as a value.
    pub closed spec fn inner_value(&self) -> S {
        self.inner
    }

    /// Whether this instance has reached its absorbing terminal state.
    pub closed spec fn is_done(&self) -> bool {
        self.guard.is_done()
    }

    /// The shared cell whose fire terminates this wrapper: the trigger,
    /// valve and wrapper of one lineage share one signal.
    pub closed spec fn lineage(&self) -> SharedFlag {
        self.guard.lineage()
    }

    /// Make the given sequence cancellable; the returned [`Trigger`] fires
    /// the returned wrapper's own signal, so closing it cancels exactly
    /// this wrapper (and whatever else is later wrapped from its lineage).
    pub fn new(stream: S) -> (r: (Trigger, Valved<S>))
        ensures
            r.1.inner_value() == stream,
            !r.1.is_done(),
            r.0.lineage() == r.1.lineage(),
    {
        let (trigger, valve) = Valve::new();
        (trigger, valve.wrap(stream))
    }

    /// The poll gate, signal checked first: report whether this poll must
    /// yield end-of-data. The wrapped sequence is never touched, so no item
    /// is drawn — or lost — by a terminal poll.
    pub fn poll_gate(&mut self) -> (terminal: bool)
        ensures
            final(self).inner_value() == old(self).inner_value(),
            final(self).lineage() == old(self).lineage(),
            final(self).is_done() == (old(self).is_done() || terminal),
            old(self).is_done() ==> terminal,
            !terminal ==> *final(self) == *old(self),
    {
        self.guard.check()
    }

    /// Record that the wrapped sequence yielded its own end-of-data; the
    /// wrapper is terminal from now on.
    pub fn note_end(&mut self)
        ensures
            final(self).inner_value() == old(self).inner_value(),
            final(self).lineage() == old(self).lineage(),
            final(self).is_done(),
    {
        self.guard.note_end();
    }

    /// Whether the wrapper is terminal, without reading the shared signal.
    pub fn is_terminal(&self) -> (r: bool)
        ensures
            r == self.is_done(),
    {
        self.guard.is_terminal()
    }

    /// Take the wrapper apart into the wrapped sequence and its termination
    /// watch, for callers that must poll the sequence themselves.
    pub fn into_parts(self) -> (r: (S, Guard))
        ensures
            r.0 == self.inner_value(),
            r.1.is_done() == self.is_done(),
            r.1.lineage() == self.lineage(),
    {
        (self.inner, self.guard)
    }
}

impl<S: Clone> Clone for Valved<S> {
    /// A second, independently polled guarded sequence: its cursor is a
    /// clone of the wrapped input's, and it watches the same signal in the
    /// same state, so the two share one termination fate.
    fn clone(&self) -> (r: Valved<S>)
        ensures
            r.lineage() == self.lineage(),
            r.is_done() == self.is_done(),
    {
        Valved { inner: self.inner.clone(), guard: self.guard.clone() }
    }
}

/// A finite, pre-scripted pull-based sequence: it yields its items in
/// order, one per poll, then end-of-data forever. The simplest conforming
/// input, and the one the crate's own guarantees are stated against.
pub struct VecSource {
    items: Vec<u64>,
    pos: usize,
}

impl VecSource {
    /// The cursor never runs past the script.
    pub closed spec fn wf(&self) -> bool {
        self.pos <= self.items.len()
    }

    /// The items this source has yet to yield.
    pub closed spec fn pending(&self) -> Seq<u64> {
        self.items@.skip(self.pos as int)
    }

    /// What one poll of the source does: yield the next scripted item and
    /// advance, or report end-of-data and stay put.
    pub closed spec fn spec_next(s: VecSource) -> (VecSource, Step<u64>) {
        if s.pos < s.items.len() {
            (
                VecSource { items: s.items, pos: (s.pos + 1) as usize },
                Step::Item(s.items@[s.pos as int]),
            )
        } else {
            (s, Step::Done)
        }
    }

    /// A source that will yield exactly `items`, in order.
    pub fn new(items: Vec<u64>) -> (s: VecSource)
        ensures
            s.wf(),
            s.pending() == items@,
    {
        let s = VecSource { items, pos: 0 };
        proof {
            assert(s.pending() =~= s.items@);
        }
        s
    }

    /// Poll the source once.
    pub fn next(&mut self) -> (s: Step<u64>)
        requires
            old(self).wf(),
        ensures
            final(self).wf(),
            (*final(self), s) == Self::spec_next(*old(self)),
            old(self).pending().len() > 0 ==> s == Step::<u64>::Item(old(self).pending()[0])
                && final(self).pending() == old(self).pending().skip(1),
            old(self).pending().len() == 0 ==> s is Done && *final(self) == *old(self),
    {
        if self.pos < self.items.len() {
            let x = self.items[self.pos];
            self.pos = self.pos + 1;
            proof {
                assert(self.pending() =~= old(self).pending().skip(1));
            }
            Step::Item(x)
        } else {
            Step::Done
        }
    }
}

impl Clone for VecSource {
    /// A second cursor over the same script, at the same position: it will
    /// yield exactly what the original has yet to yield.
    fn clone(&self) -> (r: VecSource)
        ensures
            r.wf() == self.wf(),
            r.pending() == self.pending(),
    {
        let items = self.items.clone();
        proof {
            assert(items@ =~= self.items@);
        }
        VecSource { items, pos: self.pos }
    }
}

/// What one poll of a guarded scripted sequence does, given the signal's
/// reading at that poll: the signal is checked first, so a fired reading —
/// or an already-terminal instance — yields end-of-data without touching
/// the wrapped source; otherwise the poll is delegated to the source, whose
/// own end-of-data also latches the terminal state.
pub closed spec fn spec_poll(v: Valved<VecSource>, fired: bool) -> (Valved<VecSource>, Step<
    u64,
>) {
    if v.guard.done || fired {
        (
            Valved { inner: v.inner, guard: Guard { signal: v.guard.signal, done: true } },
            Step::Done,
        )
    } else {
        let next = VecSource::spec_next(v.inner);
        if next.1 is Done {
            (
                Valved { inner: next.0, guard: Guard { signal: v.guard.signal, done: true } },
                Step::Done,
            )
        } else {
            (Valved { inner: next.0, guard: v.guard }, next.1)
        }
    }
}

impl Valved<VecSource> {
    /// The cursor of the wrapped source never runs past its script.
    pub open spec fn wf(&self) -> bool {
        self.inner_value().wf()
    }

    /// The items the wrapped source has yet to yield.
    pub open spec fn pending(&self) -> Seq<u64> {
        self.inner_value().pending()
    }

    /// One poll of the guarded sequence, with the signal's reading at this
    /// poll supplied by the caller; the whole poll policy is pinned to
    /// [`spec_poll`], for either reading.
    pub fn poll_with(&mut self, fired: bool) -> (s: Step<u64>)
        requires
            old(self).wf(),
        ensures
            final(self).wf(),
            (*final(self), s) == spec_poll(*old(self), fired),
            (old(self).is_done() || fired) ==> s is Done && final(self).inner_value() == old(
                self,
            ).inner_value(),
            final(self).is_done() == (old(self).is_done() || fired || old(
                self,
            ).pending().len() == 0),
            s is Done <==> final(self).is_done(),
            s matches Step::Item(x) ==> old(self).pending().len() > 0 && x == old(
                self,
            ).pending()[0] && final(self).pending() == old(self).pending().skip(1),
            !(old(self).is_done() || fired) && old(self).pending().len() > 0 ==> s == Step::<
                u64,
            >::Item(old(self).pending()[0]),
            s is Item || s is Done,
            s is Done ==> final(self).inner_value() == old(self).inner_value(),
            final(self).lineage() == old(self).lineage(),
    {
        if self.guard.done || fired {
            self.guard.done = true;
            Step::Done
        } else {
            let step = self.inner.next();
            match step {
                Step::Item(x) => Step::Item(x),
                Step::Pending => Step::Pending,
                Step::Done => {
                    self.guard.done = true;
                    Step::Done
                },
            }
        }
    }

    /// One poll of the guarded sequence against the live shared signal: the
    /// signal is read once, and the poll follows [`spec_poll`] for whichever
    /// reading came back.
    pub fn poll_next(&mut self) -> (s: Step<u64>)
        requires
            old(self).wf(),
        ensures
            final(self).wf(),
            (*final(self), s) == spec_poll(*old(self), true) || (*final(self), s) == spec_poll(
                *old(self),
                false,
            ),
            old(self).is_done() ==> s is Done,
            s is Done <==> final(self).is_done(),
            old(self).pending().len() == 0 ==> s is Done,
            s matches Step::Item(x) ==> old(self).pending().len() > 0 && x == old(
                self,
            ).pending()[0] && final(self).pending() == old(self).pending().skip(1),
            s is Item || s is Done,
            s is Done ==> final(self).inner_value() == old(self).inner_value(),
            final(self).lineage() == old(self).lineage(),
    {
        let fired = if self.guard.done {
            false
        } else {
            self.guard.signal.is_fired()
        };
        self.poll_with(fired)
    }
}

/// A whole scheduled execution of one guarded scripted sequence: poll it
/// once for every entry of `fires`, feeding that entry as the signal's
/// reading at that poll, and collect the final state and every outcome.
pub closed spec fn run(v: Valved<VecSource>, fires: Seq<bool>) -> (Valved<VecSource>, Seq<
    Step<u64>,
>)
    decreases fires.len(),
{
    if fires.len() == 0 {
        (v, Seq::empty())
    } else {
        let first = spec_poll(v, fires[0]);
        let rest = run(first.0, fires.skip(1));
        (rest.0, seq![first.1] + rest.1)
    }
}

/// Single-fire idempotence, on the wrapper's side: once a guarded sequence
/// is terminal, every later poll — any number of them, whatever the signal
/// reads at each — yields end-of-data and leaves the instance exactly as it
/// was, so the terminal state can never be observed out of order or undone.
pub proof fn lemma_terminal_forever(v: Valved<VecSource>, fires: Seq<bool>)
    requires
        v.is_done(),
    ensures
        run(v, fires).0 == v,
        run(v, fires).1.len() == fires.len(),
        forall|i: int| 0 <= i < fires.len() ==> #[trigger] run(v, fires).1[i] is Done,
    decreases fires.len(),
{
    if fires.len() == 0 {
    } else {
        let first = spec_poll(v, fires[0]);
        assert(first.0 == v);
        lemma_terminal_forever(v, fires.skip(1));
        assert forall|i: int| 0 <= i < fires.len() implies #[trigger] run(v, fires).1[i] is Done by {
            if i > 0 {
                assert(run(v, fires).1[i] == run(v, fires.skip(1)).1[i - 1]);
            }
        }
    }
}

/// Post-fire truncation: run a fresh guarded scripted sequence under a
/// schedule whose signal reads armed for the first `n` polls and fired from
/// poll `n` on. The output is exactly the first `min(n, available)` items of
/// the script, in order, and end-of-data at every poll after them: firing
/// before poll `n` truncates the output to fewer than `n` items, and firing
/// after `n` successful polls yields exactly those `n` items, then
/// terminates permanently.
pub proof fn lemma_post_fire_truncation(v: Valved<VecSource>, fires: Seq<bool>, n: int)
    requires
        v.wf(),
        !v.is_done(),
        0 <= n <= fires.len(),
        forall|i: int| 0 <= i < fires.len() ==> (#[trigger] fires[i] <==> i >= n),
    ensures
        run(v, fires).1.len() == fires.len(),
        forall|i: int|
            0 <= i < n && i < v.pending().len() ==> #[trigger] run(v, fires).1[i] == Step::<
                u64,
            >::Item(v.pending()[i]),
        forall|i: int|
            0 <= i < fires.len() && (i >= n || i >= v.pending().len()) ==> #[trigger] run(
                v,
                fires,
            ).1[i] is Done,
    decreases fires.len(),
{
    if fires.len() == 0 {
    } else {
        let first = spec_poll(v, fires[0]);
        let rest = fires.skip(1);
        if n == 0 {
            assert(fires[0]);
            assert(first.0.is_done() && first.1 is Done);
            lemma_terminal_forever(first.0, rest);
            assert forall|i: int| 0 <= i < fires.len() && (i >= n || i >= v.pending().len())
                implies #[trigger] run(v, fires).1[i] is Done by {
                if i > 0 {
                    assert(run(v, fires).1[i] == run(first.0, rest).1[i - 1]);
                }
            }
        } else {
            assert(!fires[0]);
            if v.pending().len() > 0 {
                assert(v.inner.pos < v.inner.items.len());
                assert(first.1 == Step::<u64>::Item(v.pending()[0]));
                assert(first.0.pending() =~= v.pending().skip(1));
                assert(!first.0.is_done());
                assert forall|i: int| 0 <= i < rest.len() implies (#[trigger] rest[i] <==> i >= n
                    - 1) by {
                    assert(rest[i] == fires[i + 1]);
                }
                lemma_post_fire_truncation(first.0, rest, n - 1);
                assert forall|i: int| 0 <= i < n && i < v.pending().len() implies #[trigger] run(
                    v,
                    fires,
                ).1[i] == Step::<u64>::Item(v.pending()[i]) by {
                    if i > 0 {
                        assert(run(v, fires).1[i] == run(first.0, rest).1[i - 1]);
                        assert(first.0.pending()[i - 1] == v.pending()[i]);
                    }
                }
                assert forall|i: int| 0 <= i < fires.len() && (i >= n || i >= v.pending().len())
                    implies #[trigger] run(v, fires).1[i] is Done by {
                    assert(i > 0);
                    assert(run(v, fires).1[i] == run(first.0, rest).1[i - 1]);
                }
            } else {
                assert(first.0.is_done() && first.1 is Done);
                lemma_terminal_forever(first.0, rest);
                assert forall|i: int| 0 <= i < fires.len() && (i >= n || i >= v.pending().len())
                    implies #[trigger] run(v, fires).1[i] is Done by {
                    if i > 0 {
                        assert(run(v, fires).1[i] == run(first.0, rest).1[i - 1]);
                    }
                }
            }
        }
    }
}

/// Independent clones share fate, on the wrapper's side: however differently
/// two guarded sequences have been polled so far — one may be terminal, one
/// may never have been polled at all — at the first poll where each observes
/// the shared signal fired, each yields end-of-data and is terminal from
/// then on. That every sibling does observe the fire once the one trigger is
/// closed is the shared cell's part of the bargain.
pub proof fn lemma_clones_share_fate(v1: Valved<VecSource>, v2: Valved<VecSource>)
    ensures
        spec_poll(v1, true).1 is Done && spec_poll(v1, true).0.is_done(),
        spec_poll(v2, true).1 is Done && spec_poll(v2, true).0.is_done(),
{
}

/// Pre-fire transparency: under a schedule whose signal reads armed at
/// every poll, a guarded scripted sequence yields exactly the items its
/// wrapped source has pending, in order — nothing altered, reordered,
/// dropped or duplicated — and end-of-data only once the source itself has
/// run out.
pub proof fn lemma_pre_fire_transparency(v: Valved<VecSource>, fires: Seq<bool>)
    requires
        v.wf(),
        !v.is_done(),
        forall|i: int| 0 <= i < fires.len() ==> !(#[trigger] fires[i]),
    ensures
        run(v, fires).1.len() == fires.len(),
        forall|i: int|
            0 <= i < fires.len() && i < v.pending().len() ==> #[trigger] run(v, fires).1[i]
                == Step::<u64>::Item(v.pending()[i]),
        forall|i: int|
            0 <= i < fires.len() && i >= v.pending().len() ==> #[trigger] run(v, fires).1[i]
                is Done,
{
    lemma_post_fire_truncation(v, fires, fires.len() as int);
}

} // verus!
