//! The display consumer: the timing loop that shows one frame per tick.
//!
//! The consumer is idle until it is armed with the frame period. While armed,
//! each tick takes the oldest frame from the frame queue, if there is one. The
//! first frame shown opens the playback gate, which releases the audio. An
//! empty queue before that means the decoder is still warming up; an empty
//! queue after it means the stream has ended, and the consumer terminates.

use vstd::prelude::*;
use crate::frame_queue::{after_pop, after_push, FrameQueue};
use crate::gate::PlaybackGate;

verus! {

/// Where the display consumer stands in its life.
#[derive(Clone, Copy, Debug, PartialEq, Eq, Structural)]
pub enum DisplayState {
    /// Created, no timer scheduled yet.
    Idle,
    /// Redraws are scheduled at the frame period.
    Armed,
    /// The queue ran dry after playback had started: the session is over.
    Terminated,
}

/// What one tick of the display consumer came to.
#[derive(Debug, PartialEq, Eq)]
pub enum TickOutcome<T> {
    /// The consumer is not armed: nothing was looked at, nothing changed.
    Inactive,
    /// Nothing to show yet, and nothing has been shown before: keep waiting.
    Waiting,
    /// This frame left the queue and is to be written to the surface.
    Present(T),
    /// Nothing is left to show: end the session.
    Finished,
}

/// Whether a tick in this state, with these frames waiting, shows a frame.
pub open spec fn tick_presents<T>(state: DisplayState, frames: Seq<T>) -> bool {
    state == DisplayState::Armed && frames.len() > 0
}

/// The outcome of a tick, from the consumer's state, the frames waiting and
/// whether the playback gate is open.
pub open spec fn tick_outcome<T>(state: DisplayState, frames: Seq<T>, gate_open: bool)
    -> TickOutcome<T> {
    if state != DisplayState::Armed {
        TickOutcome::Inactive
    } else if frames.len() > 0 {
        TickOutcome::Present(frames[0])
    } else if gate_open {
        TickOutcome::Finished
    } else {
        TickOutcome::Waiting
    }
}

/// The consumer's state after a tick: an armed consumer that finds the queue
/// empty with the playback gate open terminates, and nothing else changes the state.
pub open spec fn state_after_tick(state: DisplayState, waiting: nat, gate_open: bool)
    -> DisplayState {
    if state == DisplayState::Armed && waiting == 0 && gate_open {
        DisplayState::Terminated
    } else {
        state
    }
}

/// The frames left in the queue after a tick.
pub open spec fn frames_after_tick<T>(state: DisplayState, frames: Seq<T>) -> Seq<T> {
    if state == DisplayState::Armed {
        after_pop(frames)
    } else {
        frames
    }
}

/// Whether a redraw is due at time `now` for a consumer in this state whose
/// last redraw was due at `last_tick`: one full period must have passed.
pub open spec fn is_due(state: DisplayState, period: u64, last_tick: u64, now: u64) -> bool {
    state == DisplayState::Armed && now - last_tick >= period
}

/// The display consumer's state machine and its redraw timer. Times are in
/// nanoseconds on any clock that does not run backwards.
#[derive(Clone, Copy, Debug)]
pub struct DisplayConsumer {
    state: DisplayState,
    period: u64,
    last_tick: u64,
}

impl DisplayConsumer {
    /// The consumer's state.
    pub closed spec fn state_spec(&self) -> DisplayState {
        self.state
    }

    /// The frame period the consumer was armed with; zero before that.
    pub closed spec fn period_spec(&self) -> u64 {
        self.period
    }

    /// The time at which the last redraw was due, or of arming if there was
    /// none yet.
    pub closed spec fn last_tick_spec(&self) -> u64 {
        self.last_tick
    }

    /// An idle consumer.
    pub fn new() -> (consumer: DisplayConsumer)
        ensures
            consumer.state_spec() == DisplayState::Idle,
            consumer.period_spec() == 0,
            consumer.last_tick_spec() == 0,
    {
        DisplayConsumer { state: DisplayState::Idle, period: 0, last_tick: 0 }
    }

    /// The consumer's state.
    #[verifier::when_used_as_spec(state_spec)]
    pub fn state(&self) -> (state: DisplayState)
        ensures
            state == self.state_spec(),
    {
        self.state
    }

    /// The frame period the consumer was armed with; zero before that.
    #[verifier::when_used_as_spec(period_spec)]
    pub fn period(&self) -> (period: u64)
        ensures
            period == self.period_spec(),
    {
        self.period
    }

    /// The time at which the last redraw was due, or of arming if there was
    /// none yet.
    #[verifier::when_used_as_spec(last_tick_spec)]
    pub fn last_tick(&self) -> (last_tick: u64)
        ensures
            last_tick == self.last_tick_spec(),
    {
        self.last_tick
    }

    /// Arms an idle consumer: redraws are due every `period` from `now` on.
    /// A consumer that is armed or terminated already is left as it is.
    pub fn arm(&mut self, period: u64, now: u64)
        ensures
            old(self).state_spec() == DisplayState::Idle ==> {
                &&& final(self).state_spec() == DisplayState::Armed
                &&& final(self).period_spec() == period
                &&& final(self).last_tick_spec() == now
            },
            old(self).state_spec() != DisplayState::Idle ==> *final(self) == *old(self),
    {
        if self.state == DisplayState::Idle {
            self.state = DisplayState::Armed;
            self.period = period;
            self.last_tick = now;
        }
    }

    /// Asks at time `now` whether the next redraw is due. It is when the
    /// consumer is armed and a full period has passed since the time the last
    /// redraw was due; the timer then moves on by exactly one period, so that
    /// a look that comes late does not delay the redraws after it. Otherwise
    /// nothing changes.
    pub fn redraw_due(&mut self, now: u64) -> (due: bool)
        ensures
            due == is_due(
                old(self).state_spec(),
                old(self).period_spec(),
                old(self).last_tick_spec(),
                now,
            ),
            final(self).state_spec() == old(self).state_spec(),
            final(self).period_spec() == old(self).period_spec(),
            final(self).last_tick_spec() == old(self).last_tick_spec() + if due {
                old(self).period_spec()
            } else {
                0
            },
    {
        if self.state == DisplayState::Armed && now >= self.last_tick && now - self.last_tick
            >= self.period {
            self.last_tick = self.last_tick + self.period;
            true
        } else {
            false
        }
    }

    /// One tick. An armed consumer takes the oldest frame from `queue` and
    /// hands it out for presentation; the first frame so taken opens `gate`.
    /// With nothing waiting, it keeps waiting while the playback gate is closed and
    /// terminates once the playback gate is open. A consumer that is not armed does
    /// nothing.
    pub fn tick<T>(&mut self, queue: &mut FrameQueue<T>, gate: &mut PlaybackGate) -> (outcome:
        TickOutcome<T>)
        requires
            old(queue).wf(),
        ensures
            final(queue).wf(),
            final(queue).capacity_spec() == old(queue).capacity_spec(),
            outcome == tick_outcome(
                old(self).state_spec(),
                old(queue)@,
                old(gate).is_open_spec(),
            ),
            final(self).state_spec() == state_after_tick(
                old(self).state_spec(),
                old(queue)@.len(),
                old(gate).is_open_spec(),
            ),
            final(self).period_spec() == old(self).period_spec(),
            final(self).last_tick_spec() == old(self).last_tick_spec(),
            final(queue)@ == frames_after_tick(old(self).state_spec(), old(queue)@),
            final(gate).is_open_spec() == (old(gate).is_open_spec() || tick_presents(
                old(self).state_spec(),
                old(queue)@,
            )),
    {
        if self.state != DisplayState::Armed {
            return TickOutcome::Inactive;
        }
        match queue.pop_front() {
            Some(frame) => {
                gate.open();
                TickOutcome::Present(frame)
            },
            None => {
                if gate.is_open() {
                    self.state = DisplayState::Terminated;
                    TickOutcome::Finished
                } else {
                    TickOutcome::Waiting
                }
            },
        }
    }
}

/// The time at which the last redraw was due, after the timer of an armed
/// consumer was asked at each of the times `polls`, in their order, when the
/// last redraw before them was due at `start`.
pub open spec fn last_tick_after(period: u64, start: u64, polls: Seq<u64>) -> int
    decreases polls.len(),
{
    if polls.len() == 0 {
        start as int
    } else {
        let last = last_tick_after(period, start, polls.drop_last());
        if polls.last() - last >= period {
            last + period
        } else {
            last
        }
    }
}

/// The number of redraws that were due among the times `polls`.
pub open spec fn redraws_due(period: u64, start: u64, polls: Seq<u64>) -> nat
    decreases polls.len(),
{
    if polls.len() == 0 {
        0
    } else {
        let last = last_tick_after(period, start, polls.drop_last());
        redraws_due(period, start, polls.drop_last()) + if polls.last() - last >= period {
            1nat
        } else {
            0nat
        }
    }
}

/// The timer keeps the cadence: each redraw it grants moves it on by one
/// period, so after any number of looks it stands at the start plus one
/// period for each redraw granted.
pub proof fn lemma_timer_counts_periods(period: u64, start: u64, polls: Seq<u64>)
    ensures
        last_tick_after(period, start, polls) == start + redraws_due(period, start, polls)
            * period,
        last_tick_after(period, start, polls) >= start,
    decreases polls.len(),
{
    if polls.len() > 0 {
        lemma_timer_counts_periods(period, start, polls.drop_last());
        let before = redraws_due(period, start, polls.drop_last());
        assert((before + 1) * period == before * period + period) by (nonlinear_arith);
    } else {
        assert(0 * period == 0) by (nonlinear_arith);
    }
}

/// The timer never runs ahead: however often and whenever it is asked, it
/// has granted no redraw before its time. Asked up to `elapsed` nanoseconds
/// after the start, it has granted no more than `elapsed / period` redraws.
pub proof fn lemma_redraws_keep_the_period(
    period: u64,
    start: u64,
    polls: Seq<u64>,
    elapsed: nat,
)
    requires
        forall|i: int| 0 <= i < polls.len() ==> polls[i] <= start + elapsed,
    ensures
        last_tick_after(period, start, polls) <= start + elapsed,
        redraws_due(period, start, polls) * period <= elapsed,
        period > 0 ==> redraws_due(period, start, polls) <= elapsed / (period as nat),
    decreases polls.len(),
{
    let count = redraws_due(period, start, polls);
    lemma_timer_counts_periods(period, start, polls);
    if polls.len() > 0 {
        let earlier = polls.drop_last();
        assert forall|i: int| 0 <= i < earlier.len() implies earlier[i] <= start + elapsed by {
            assert(earlier[i] == polls[i]);
        }
        lemma_redraws_keep_the_period(period, start, earlier, elapsed);
    }
    if period > 0 {
        assert(count <= elapsed / (period as nat)) by (nonlinear_arith)
            requires
                count * period <= elapsed,
                period > 0,
        ;
    }
}

/// The timer keeps up: asked at least once in every period, it is never two
/// full periods behind the time of the last look. So at a look `elapsed`
/// nanoseconds after the start it has granted at least `elapsed / period - 1`
/// redraws, and by `lemma_redraws_keep_the_period` at most `elapsed /
/// period`.
pub proof fn lemma_redraws_keep_up(period: u64, start: u64, polls: Seq<u64>)
    requires
        period > 0,
        polls.len() > 0,
        polls[0] <= start + period,
        forall|i: int| 0 < i < polls.len() ==> #[trigger] polls[i] <= polls[i - 1] + period,
    ensures
        polls.last() - last_tick_after(period, start, polls) < 2 * period,
        (redraws_due(period, start, polls) + 2) * period > polls.last() - start,
        polls.last() >= start ==> redraws_due(period, start, polls) + 1 >= (polls.last()
            - start) / (period as int),
    decreases polls.len(),
{
    let earlier = polls.drop_last();
    if earlier.len() > 0 {
        assert(earlier[0] == polls[0]);
        assert forall|i: int| 0 < i < earlier.len() implies #[trigger] earlier[i] <= earlier[i
            - 1] + period by {
            assert(earlier[i] == polls[i]);
            assert(earlier[i - 1] == polls[i - 1]);
        }
        lemma_redraws_keep_up(period, start, earlier);
        assert(earlier.last() == polls[polls.len() - 2]);
    }
    lemma_timer_counts_periods(period, start, polls);
    let count = redraws_due(period, start, polls);
    let behind = polls.last() - start;
    assert((count + 2) * period == count * period + 2 * period) by (nonlinear_arith);
    if behind >= 0 {
        assert(count + 1 >= behind / (period as int)) by (nonlinear_arith)
            requires
                (count + 2) * period > behind,
                behind >= 0,
                period > 0,
        ;
    }
}

/// Asked once at the end of every period, the timer grants a redraw each
/// time. After `count` periods it has granted `count` redraws.
pub proof fn lemma_redraw_every_period(period: u64, start: u64, polls: Seq<u64>)
    requires
        forall|i: int| 0 <= i < polls.len() ==> polls[i] == start + (i + 1) * period,
    ensures
        redraws_due(period, start, polls) == polls.len(),
        last_tick_after(period, start, polls) == start + polls.len() * period,
    decreases polls.len(),
{
    if polls.len() > 0 {
        let earlier = polls.drop_last();
        assert forall|i: int| 0 <= i < earlier.len() implies earlier[i] == start + (i + 1)
            * period by {
            assert(earlier[i] == polls[i]);
        }
        lemma_redraw_every_period(period, start, earlier);
        let n = earlier.len();
        assert((n + 1) * period == n * period + period) by (nonlinear_arith);
    } else {
        assert(0 * period == 0) by (nonlinear_arith);
    }
}

/// A session seen from the display side: the consumer's state, the frames
/// waiting in the queue, the playback gate, and the frames shown so far, in order.
pub struct Session<T> {
    pub state: DisplayState,
    pub frames: Seq<T>,
    pub gate_open: bool,
    pub shown: Seq<T>,
}

/// What can happen to a session: the producer offers a frame, or the
/// consumer's timer ticks.
pub enum SessionEvent<T> {
    Push(T),
    Tick,
}

/// The session after one event, with a queue of the given capacity.
pub open spec fn session_step<T>(session: Session<T>, capacity: nat, event: SessionEvent<T>)
    -> Session<T> {
    match event {
        SessionEvent::Push(frame) => Session {
            state: session.state,
            frames: after_push(session.frames, capacity, frame),
            gate_open: session.gate_open,
            shown: session.shown,
        },
        SessionEvent::Tick => Session {
            state: state_after_tick(session.state, session.frames.len(), session.gate_open),
            frames: frames_after_tick(session.state, session.frames),
            gate_open: session.gate_open || tick_presents(session.state, session.frames),
            shown: if tick_presents(session.state, session.frames) {
                session.shown.push(session.frames[0])
            } else {
                session.shown
            },
        },
    }
}

/// The session after a run of events, in order.
pub open spec fn session_after<T>(
    start: Session<T>,
    capacity: nat,
    events: Seq<SessionEvent<T>>,
) -> Session<T>
    decreases events.len(),
{
    if events.len() == 0 {
        start
    } else {
        session_step(session_after(start, capacity, events.drop_last()), capacity, events.last())
    }
}

/// A run of `count` ticks with no push among them.
pub open spec fn ticks<T>(count: nat) -> Seq<SessionEvent<T>> {
    Seq::new(count, |i: int| SessionEvent::Tick)
}

/// The playback gate never reverts: if it is open after the first `upto` events of a
/// run, it is open after the whole run, whatever the events are.
pub proof fn lemma_gate_never_closes<T>(
    start: Session<T>,
    capacity: nat,
    events: Seq<SessionEvent<T>>,
    upto: int,
)
    requires
        0 <= upto <= events.len(),
        session_after(start, capacity, events.take(upto)).gate_open,
    ensures
        session_after(start, capacity, events).gate_open,
    decreases events.len(),
{
    if upto == events.len() {
        assert(events.take(upto) =~= events);
    } else {
        assert(events.drop_last().take(upto) =~= events.take(upto));
        lemma_gate_never_closes(start, capacity, events.drop_last(), upto);
    }
}

/// The playback gate opens exactly once, with the first frame shown: in a session that
/// began with the playback gate closed and nothing shown, the playback gate is open if and only
/// if at least one frame has been shown. Together with
/// `lemma_gate_never_closes` this makes the opening a single transition.
pub proof fn lemma_gate_opens_with_first_frame<T>(
    start: Session<T>,
    capacity: nat,
    events: Seq<SessionEvent<T>>,
)
    requires
        !start.gate_open,
        start.shown.len() == 0,
    ensures
        session_after(start, capacity, events).gate_open <==> session_after(
            start,
            capacity,
            events,
        ).shown.len() > 0,
    decreases events.len(),
{
    if events.len() > 0 {
        lemma_gate_opens_with_first_frame(start, capacity, events.drop_last());
    }
}

/// Frames reach the screen in the order in which the queue took them in, none
/// skipped and none shown twice: at any point of any run, the frames shown so
/// far followed by the frames still waiting are the frames shown and waiting
/// at the start followed by the frames accepted since. A terminated consumer
/// shows nothing more.
pub proof fn lemma_session_keeps_order<T>(
    start: Session<T>,
    capacity: nat,
    events: Seq<SessionEvent<T>>,
)
    ensures
        (start.shown + start.frames).is_prefix_of(
            session_after(start, capacity, events).shown + session_after(
                start,
                capacity,
                events,
            ).frames,
        ),
        start.frames.len() <= capacity ==> session_after(start, capacity, events).frames.len()
            <= capacity,
    decreases events.len(),
{
    if events.len() > 0 {
        lemma_session_keeps_order(start, capacity, events.drop_last());
        let before = session_after(start, capacity, events.drop_last());
        let after = session_after(start, capacity, events);
        match events.last() {
            SessionEvent::Push(frame) => {
                if before.frames.len() < capacity {
                    assert(after.shown + after.frames =~= (before.shown + before.frames).push(
                        frame,
                    ));
                }
            },
            SessionEvent::Tick => {
                if tick_presents(before.state, before.frames) {
                    assert(after.shown + after.frames =~= before.shown + before.frames);
                }
            },
        }
    }
}

/// A producer that has queued its frames and stopped: an armed consumer shows
/// exactly those frames, in order, one per tick, and terminates on the tick
/// after the last one. `shown_ticks` is any number of ticks up to the number
/// of frames waiting.
///
/// The session must have something to end: a frame waiting, or the playback gate open
/// already. With neither, the consumer cannot tell a finished stream from one
/// that has not started, and keeps waiting.
pub proof fn lemma_drains_then_terminates<T>(start: Session<T>, capacity: nat, shown_ticks: nat)
    requires
        start.state == DisplayState::Armed,
        start.frames.len() > 0 || start.gate_open,
        shown_ticks <= start.frames.len(),
    ensures
        session_after(start, capacity, ticks(shown_ticks)).shown == start.shown
            + start.frames.take(shown_ticks as int),
        session_after(start, capacity, ticks(shown_ticks)).frames == start.frames.skip(
            shown_ticks as int,
        ),
        session_after(start, capacity, ticks(shown_ticks)).state == DisplayState::Armed,
        shown_ticks > 0 ==> session_after(start, capacity, ticks(shown_ticks)).gate_open,
        session_after(start, capacity, ticks(start.frames.len())).shown == start.shown
            + start.frames,
        session_after(start, capacity, ticks(start.frames.len() + 1)).shown == start.shown
            + start.frames,
        session_after(start, capacity, ticks(start.frames.len() + 1)).state
            == DisplayState::Terminated,
{
    let total = start.frames.len();
    lemma_ticks_show_prefix(start, capacity, shown_ticks);
    lemma_ticks_show_prefix(start, capacity, total);
    assert(start.frames.take(total as int) =~= start.frames);
    assert(ticks::<T>(total + 1).drop_last() =~= ticks::<T>(total));
    let drained = session_after(start, capacity, ticks(total));
    assert(drained.frames.len() == 0);
    assert(drained.gate_open);
}

/// The first ticks of an armed consumer show the head of the queue, in order.
proof fn lemma_ticks_show_prefix<T>(start: Session<T>, capacity: nat, count: nat)
    requires
        start.state == DisplayState::Armed,
        count <= start.frames.len(),
    ensures
        session_after(start, capacity, ticks(count)).shown == start.shown + start.frames.take(
            count as int,
        ),
        session_after(start, capacity, ticks(count)).frames == start.frames.skip(count as int),
        session_after(start, capacity, ticks(count)).state == DisplayState::Armed,
        session_after(start, capacity, ticks(count)).gate_open == (start.gate_open || count > 0),
    decreases count,
{
    if count == 0 {
        assert(start.shown + start.frames.take(0) =~= start.shown);
        assert(start.frames.skip(0) =~= start.frames);
    } else {
        let earlier = (count - 1) as nat;
        lemma_ticks_show_prefix(start, capacity, earlier);
        assert(ticks::<T>(count).drop_last() =~= ticks::<T>(earlier));
        let before = session_after(start, capacity, ticks(earlier));
        let after = session_after(start, capacity, ticks(count));
        assert(before.frames.len() > 0);
        assert(before.frames[0] == start.frames[earlier as int]);
        assert(after.shown =~= start.shown + start.frames.take(count as int));
        assert(after.frames =~= start.frames.skip(count as int));
    }
}

} // verus!
