//! The periodic announcer: a timer-driven state machine. The caller owns the
//! clock and the network; it reports what happened as an event and does what
//! the next phase asks for.

use vstd::prelude::*;

verus! {

/// The seconds between two ticks.
pub const ANNOUNCE_INTERVAL_SECS: u64 = 10;

/// The announcer's configuration, fixed at startup.
#[derive(Clone, Copy, Debug, PartialEq, Eq, Structural)]
pub struct TimerState {
    /// Seconds between two ticks.
    pub interval_secs: u64,
    /// Whether a tick leads to an announcement.
    pub enabled: bool,
}

/// Where the announcer stands, which is also what its caller does next.
#[derive(Clone, Copy, Debug, PartialEq, Eq, Structural)]
pub enum Phase {
    /// Wait for the next tick.
    Waiting,
    /// Send the announcement, then report how the send ended.
    Acting,
    /// A send failed: leave the loop and report the announcer as stopped.
    Stopped,
}

/// What the caller reports to the announcer.
#[derive(Clone, Copy, Debug, PartialEq, Eq, Structural)]
pub enum Event {
    /// The interval has passed.
    Tick,
    /// The announcement went out.
    Delivered,
    /// The announcement could not be sent.
    Failed,
}

/// The transition relation. A tick moves a waiting announcer to acting where
/// it is enabled and leaves it waiting where it is not; a delivered
/// announcement brings it back to waiting; a failed one stops it for good.
/// An event that does not belong to the phase changes nothing.
pub open spec fn next_phase(timer: TimerState, phase: Phase, event: Event) -> Phase {
    match (phase, event) {
        (Phase::Waiting, Event::Tick) => if timer.enabled {
            Phase::Acting
        } else {
            Phase::Waiting
        },
        (Phase::Acting, Event::Delivered) => Phase::Waiting,
        (Phase::Acting, Event::Failed) => Phase::Stopped,
        _ => phase,
    }
}

/// The phase after a run of events, taken in order.
pub open spec fn phase_after(timer: TimerState, phase: Phase, events: Seq<Event>) -> Phase
    decreases events.len(),
{
    if events.len() == 0 {
        phase
    } else {
        next_phase(timer, phase_after(timer, phase, events.drop_last()), events.last())
    }
}

impl TimerState {
    /// The timer with the standard interval and the given enablement.
    pub fn new(enabled: bool) -> (timer: TimerState)
        ensures
            timer.interval_secs == ANNOUNCE_INTERVAL_SECS,
            timer.enabled == enabled,
    {
        TimerState { interval_secs: ANNOUNCE_INTERVAL_SECS, enabled }
    }

    /// The phase in which every announcer starts.
    pub fn start(&self) -> (phase: Phase)
        ensures
            phase == Phase::Waiting,
    {
        Phase::Waiting
    }

    /// Takes one event and gives the phase that follows.
    pub fn step(&self, phase: Phase, event: Event) -> (next: Phase)
        ensures
            next == next_phase(*self, phase, event),
    {
        match phase {
            Phase::Waiting => match event {
                Event::Tick => if self.enabled {
                    Phase::Acting
                } else {
                    Phase::Waiting
                },
                _ => Phase::Waiting,
            },
            Phase::Acting => match event {
                Event::Delivered => Phase::Waiting,
                Event::Failed => Phase::Stopped,
                Event::Tick => Phase::Acting,
            },
            Phase::Stopped => Phase::Stopped,
        }
    }

    /// Takes a run of events in order and gives the phase at its end.
    pub fn run(&self, phase: Phase, events: &[Event]) -> (last: Phase)
        ensures
            last == phase_after(*self, phase, events@),
    {
        let mut current = phase;
        let mut i: usize = 0;
        while i < events.len()
            invariant
                i <= events@.len(),
                current == phase_after(*self, phase, events@.take(i as int)),
            decreases events@.len() - i,
        {
            proof {
                assert(events@.take(i + 1).drop_last() =~= events@.take(i as int));
            }
            current = self.step(current, events[i]);
            i += 1;
        }
        assert(events@.take(i as int) =~= events@);
        current
    }
}

/// A stopped announcer stays stopped, whatever is reported to it.
pub proof fn lemma_stopped_is_final(timer: TimerState, events: Seq<Event>)
    ensures
        phase_after(timer, Phase::Stopped, events) == Phase::Stopped,
    decreases events.len(),
{
    if events.len() > 0 {
        lemma_stopped_is_final(timer, events.drop_last());
    }
}

/// An announcer that is not enabled never leaves the waiting phase: it sends
/// nothing and cannot stop.
pub proof fn lemma_disabled_never_acts(timer: TimerState, events: Seq<Event>)
    requires
        !timer.enabled,
    ensures
        phase_after(timer, Phase::Waiting, events) == Phase::Waiting,
    decreases events.len(),
{
    if events.len() > 0 {
        lemma_disabled_never_acts(timer, events.drop_last());
    }
}

/// The only way into the stopped phase is a failed send while acting.
pub proof fn lemma_stops_only_on_failure(timer: TimerState, phase: Phase, event: Event)
    requires
        phase != Phase::Stopped,
    ensures
        next_phase(timer, phase, event) == Phase::Stopped <==> phase == Phase::Acting && event
            == Event::Failed,
{
}

/// The only way into the acting phase is a tick of an enabled timer while
/// waiting.
pub proof fn lemma_acts_only_on_tick(timer: TimerState, phase: Phase, event: Event)
    requires
        phase != Phase::Acting,
    ensures
        next_phase(timer, phase, event) == Phase::Acting <==> phase == Phase::Waiting && event
            == Event::Tick && timer.enabled,
{
}

} // verus!
