//! The decision core shared by both frame generators.
//!
//! At each poll point a generator observes one event: either a shutdown
//! notification (or a closed signal channel, treated the same) or the
//! elapse of its tick interval. The [`Generator`] state machine turns
//! each observed event into the action the scheduler must take, counts
//! the frames it has emitted, and carries the whole observation history
//! as a ghost sequence, so that the emission bounds below are theorems
//! about every possible run.

use vstd::prelude::*;

use crate::channel::send_frame;
use crate::channel::shutdown_pending;
use crate::channel::wait_for_shutdown;
use crate::frame::Frame;
use crate::frame::random_frame;

verus! {

/// Tick interval of the cooperative generator, in milliseconds.
pub const COOPERATIVE_TICK_MS: u64 = 2000;

/// Sleep interval of the threaded generator, in milliseconds.
pub const THREADED_TICK_MS: u64 = 1100;

/// What a generator observes at one poll point.
#[derive(Clone, Copy, PartialEq, Eq, Structural, Debug)]
pub enum Event {
    /// A shutdown notification arrived, or the signal channel closed.
    Shutdown,
    /// The tick interval elapsed with no notification pending.
    Tick,
}

/// What the scheduler must do after one poll.
pub enum Action {
    /// Stop this generator; no frame accompanies this action.
    Stop,
    /// Hand this frame to the consumer.
    Emit(Frame),
}

/// How many frames a run emits: the number of ticks observed before the
/// first shutdown. Ticks observed after a shutdown emit nothing.
pub open spec fn ticks_before_shutdown(events: Seq<Event>) -> nat
    decreases events.len(),
{
    if events.len() == 0 {
        0
    } else if events[0] is Shutdown {
        0
    } else {
        1 + ticks_before_shutdown(events.skip(1))
    }
}

/// Whether a shutdown has been observed anywhere in the run.
pub open spec fn has_shutdown(events: Seq<Event>) -> bool {
    exists|i: int| 0 <= i < events.len() && events[i] is Shutdown
}

/// A periodic frame producer, reduced to its decisions: how it answers
/// each observed event, how many frames it has emitted, and whether it
/// has stopped.
pub struct Generator {
    /// Number of frames emitted so far.
    pub emitted: u64,
    /// Whether a shutdown has been observed.
    pub stopped: bool,
    /// Every event observed so far, in order.
    pub history: Ghost<Seq<Event>>,
}

impl Generator {
    /// The counter and the flag agree with the observation history.
    pub open spec fn inv(self) -> bool {
        &&& self.emitted == ticks_before_shutdown(self.history@)
        &&& self.stopped == has_shutdown(self.history@)
    }

    /// A generator that has observed nothing and emitted nothing.
    pub fn new() -> (g: Generator)
        ensures
            g.inv(),
            g.emitted == 0,
            !g.stopped,
            g.history@ == Seq::<Event>::empty(),
    {
        Generator { emitted: 0, stopped: false, history: Ghost(Seq::empty()) }
    }

    /// Answer one observed event: a shutdown stops the generator, a tick
    /// emits one fresh random frame. A generator that has already
    /// stopped answers every further event with `Stop` and emits
    /// nothing, so late notifications are harmless.
    pub fn on_event(&mut self, e: Event) -> (a: Action)
        requires
            old(self).inv(),
            old(self).emitted < u64::MAX,
        ensures
            final(self).inv(),
            final(self).history@ == old(self).history@.push(e),
            old(self).stopped || e is Shutdown ==> a is Stop
                && final(self).stopped
                && final(self).emitted == old(self).emitted,
            !old(self).stopped && e is Tick ==> a is Emit
                && !final(self).stopped
                && final(self).emitted == old(self).emitted + 1,
            a matches Action::Emit(f) ==> f.wf(),
    {
        proof {
            lemma_ticks_before_shutdown_push(self.history@, e);
            lemma_has_shutdown_push(self.history@, e);
        }
        self.history = Ghost(self.history@.push(e));
        if self.stopped {
            Action::Stop
        } else {
            match e {
                Event::Shutdown => {
                    self.stopped = true;
                    Action::Stop
                },
                Event::Tick => {
                    self.emitted = self.emitted + 1;
                    Action::Emit(random_frame())
                },
            }
        }
    }
}

/// Appending one event extends the emission count by one exactly when no
/// shutdown has been observed yet and the new event is a tick.
proof fn lemma_ticks_before_shutdown_push(events: Seq<Event>, e: Event)
    ensures
        ticks_before_shutdown(events.push(e)) == if has_shutdown(events) || e is Shutdown {
            ticks_before_shutdown(events)
        } else {
            ticks_before_shutdown(events) + 1
        },
    decreases events.len(),
{
    if events.len() == 0 {
        assert(events.push(e).skip(1) =~= Seq::<Event>::empty());
        assert(ticks_before_shutdown(Seq::<Event>::empty()) == 0);
    } else {
        assert(events.push(e).skip(1) =~= events.skip(1).push(e));
        lemma_ticks_before_shutdown_push(events.skip(1), e);
        if events[0] is Shutdown {
            assert(has_shutdown(events));
        } else {
            assert(has_shutdown(events.skip(1)) == has_shutdown(events)) by {
                if has_shutdown(events.skip(1)) {
                    let i = choose|i: int|
                        0 <= i < events.skip(1).len() && events.skip(1)[i] is Shutdown;
                    assert(events[i + 1] is Shutdown);
                }
                if has_shutdown(events) {
                    let i = choose|i: int| 0 <= i < events.len() && events[i] is Shutdown;
                    assert(events.skip(1)[i - 1] is Shutdown);
                }
            }
        }
    }
}

/// Appending one event observes a shutdown exactly when one was already
/// observed or the new event is one.
proof fn lemma_has_shutdown_push(events: Seq<Event>, e: Event)
    ensures
        has_shutdown(events.push(e)) == (has_shutdown(events) || e is Shutdown),
{
    if has_shutdown(events) {
        let i = choose|i: int| 0 <= i < events.len() && events[i] is Shutdown;
        assert(events.push(e)[i] is Shutdown);
    }
    if e is Shutdown {
        assert(events.push(e)[events.len() as int] is Shutdown);
    }
    if has_shutdown(events.push(e)) {
        let i = choose|i: int| 0 <= i < events.push(e).len() && events.push(e)[i] is Shutdown;
        if i < events.len() {
            assert(events[i] is Shutdown);
        }
    }
}

/// How one iteration of a generator ended.
#[derive(Clone, Copy, PartialEq, Eq, Structural, Debug)]
pub enum StepOutcome {
    /// A shutdown was observed; the generator must not be stepped again.
    Stopped,
    /// One frame was generated and accepted by the consumer's channel.
    Sent,
    /// One frame was generated but every consumer is gone; the caller
    /// should stop the generator gracefully.
    Disconnected,
}

/// One iteration of the cooperative generator: wait up to
/// [`COOPERATIVE_TICK_MS`] milliseconds for a shutdown notification; on
/// one (or on a closed signal channel) stop, otherwise emit one random
/// frame onto the consumer's channel.
pub fn cooperative_step(
    g: &mut Generator,
    frames: &crossbeam_channel::Sender<Frame>,
    signals: &crossbeam_channel::Receiver<()>,
) -> (o: StepOutcome)
    requires
        old(g).inv(),
        !old(g).stopped,
        old(g).emitted < u64::MAX,
    ensures
        final(g).inv(),
        final(g).history@.len() == old(g).history@.len() + 1,
        o is Stopped <==> final(g).stopped,
        o is Stopped ==> final(g).history@.last() is Shutdown
            && final(g).emitted == old(g).emitted,
        !(o is Stopped) ==> final(g).history@.last() is Tick
            && final(g).emitted == old(g).emitted + 1,
{
    let observed = wait_for_shutdown(signals, COOPERATIVE_TICK_MS);
    step_observed(g, frames, observed)
}

/// One iteration of the threaded generator: check without blocking for a
/// pending shutdown notification; on one (or on a closed signal channel)
/// stop, otherwise emit one random frame onto the consumer's channel.
/// The caller sleeps [`THREADED_TICK_MS`] milliseconds after each
/// emitted frame.
pub fn threaded_step(
    g: &mut Generator,
    frames: &crossbeam_channel::Sender<Frame>,
    signals: &crossbeam_channel::Receiver<()>,
) -> (o: StepOutcome)
    requires
        old(g).inv(),
        !old(g).stopped,
        old(g).emitted < u64::MAX,
    ensures
        final(g).inv(),
        final(g).history@.len() == old(g).history@.len() + 1,
        o is Stopped <==> final(g).stopped,
        o is Stopped ==> final(g).history@.last() is Shutdown
            && final(g).emitted == old(g).emitted,
        !(o is Stopped) ==> final(g).history@.last() is Tick
            && final(g).emitted == old(g).emitted + 1,
{
    let observed = shutdown_pending(signals);
    step_observed(g, frames, observed)
}

/// Shared tail of both generator variants: turn the poll result into an
/// event, answer it, and send the frame of a tick to the consumer.
fn step_observed(
    g: &mut Generator,
    frames: &crossbeam_channel::Sender<Frame>,
    observed: bool,
) -> (o: StepOutcome)
    requires
        old(g).inv(),
        !old(g).stopped,
        old(g).emitted < u64::MAX,
    ensures
        final(g).inv(),
        final(g).history@.len() == old(g).history@.len() + 1,
        o is Stopped <==> final(g).stopped,
        o is Stopped <==> observed,
        o is Stopped ==> final(g).history@.last() is Shutdown
            && final(g).emitted == old(g).emitted,
        !(o is Stopped) ==> final(g).history@.last() is Tick
            && final(g).emitted == old(g).emitted + 1,
{
    let e = if observed {
        Event::Shutdown
    } else {
        Event::Tick
    };
    match g.on_event(e) {
        Action::Stop => StepOutcome::Stopped,
        Action::Emit(f) => {
            if send_frame(frames, f) {
                StepOutcome::Sent
            } else {
                StepOutcome::Disconnected
            }
        },
    }
}

/// A shutdown observed before the first tick means the run emits no
/// frame at all.
pub proof fn lemma_shutdown_first_emits_nothing(events: Seq<Event>)
    requires
        events.len() > 0,
        events[0] is Shutdown,
    ensures
        ticks_before_shutdown(events) == 0,
{
}

/// A run never continues past a shutdown: once a shutdown stands at
/// position `i` of the observation history, the whole run emits at most
/// `i` frames, however long the history grows.
pub proof fn lemma_shutdown_bounds_emission(events: Seq<Event>, i: int)
    requires
        0 <= i < events.len(),
        events[i] is Shutdown,
    ensures
        ticks_before_shutdown(events) <= i,
    decreases i,
{
    if events[0] is Shutdown {
    } else {
        lemma_shutdown_bounds_emission(events.skip(1), i - 1);
    }
}

/// A shutdown observed right after `i` ticks yields exactly `i` emitted
/// frames: with the race between the last tick and the notification, a
/// consumer that asked to stop after `n` ticks sees `n` or `n + 1`
/// frames, never more.
pub proof fn lemma_ticks_then_shutdown_emits_exactly(events: Seq<Event>, i: int)
    requires
        0 <= i < events.len(),
        forall|j: int| 0 <= j < i ==> events[j] is Tick,
        events[i] is Shutdown,
    ensures
        ticks_before_shutdown(events) == i,
    decreases i,
{
    if i == 0 {
    } else {
        assert(events[0] is Tick);
        assert(forall|j: int| 0 <= j < i - 1 ==> events.skip(1)[j] is Tick);
        assert(events.skip(1)[i - 1] is Shutdown);
        lemma_ticks_then_shutdown_emits_exactly(events.skip(1), i - 1);
    }
}

} // verus!
