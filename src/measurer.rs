//! The distance-measurement cycle as a state machine.
//!
//! Each stage names one thing for the firmware to do ([`command_of`]); the
//! firmware does it and reports what happened as an [`Event`]. One attempt
//! drives the trigger low, waits, raises it, waits, lowers it, then races the
//! echo against a deadline. A timeout pulses the sensor's reset line and
//! starts a new attempt; an echo yields a distance, then the cycle idles.
use vstd::prelude::*;
use crate::distance::{distance_um, distance_um_of};
use crate::timing::{ECHO_TIMEOUT_US, TRIGGER_PULSE_US, TRIGGER_SETTLE_US, RESET_ASSERT_US, CYCLE_IDLE_US};

verus! {

/// Where the measurement cycle stands.
#[derive(Clone, Copy, Debug, PartialEq, Eq, Structural)]
pub enum Stage {
    /// Drive the trigger line low.
    TriggerLow,
    /// Let the low trigger line settle.
    Settle,
    /// Raise the trigger line.
    TriggerHigh,
    /// Hold the trigger pulse.
    Pulse,
    /// Lower the trigger line again: the pulse is complete.
    TriggerRelease,
    /// Race the echo against the deadline.
    Listen,
    /// Assert the sensor's reset line (drive it low).
    ResetAssert,
    /// Hold the reset asserted.
    ResetHold,
    /// Release the reset line (drive it high).
    ResetRelease,
    /// Hand out a measured distance.
    Report { distance_um: u128 },
    /// Pause before the next cycle.
    Idle,
}

/// One thing for the firmware to do.
#[derive(Clone, Copy, Debug, PartialEq, Eq, Structural)]
pub enum Command {
    /// Drive the trigger output to the given level.
    SetTrigger { high: bool },
    /// Drive the reset output to the given level (low asserts the reset).
    SetReset { high: bool },
    /// Suspend for the given number of microseconds.
    Wait { us: u64 },
    /// Wait for the echo to go high and then low, giving up after
    /// `timeout_us` microseconds from now.
    ListenForEcho { timeout_us: u64 },
    /// Report a distance in micrometres.
    ReportDistance { distance_um: u128 },
}

/// What the firmware observed while carrying out a command.
#[derive(Clone, Copy, Debug, PartialEq, Eq, Structural)]
pub enum Event {
    /// The command was carried out (a level driven, a wait over, a report sent).
    Done,
    /// The echo went high and then low; `elapsed_us` microseconds passed
    /// between the end of the trigger pulse and the falling edge.
    Echo { elapsed_us: u64 },
    /// The deadline passed before the echo completed.
    Timeout,
}

/// The command that belongs to a stage.
pub open spec fn command_of(s: Stage) -> Command {
    match s {
        Stage::TriggerLow => Command::SetTrigger { high: false },
        Stage::Settle => Command::Wait { us: TRIGGER_SETTLE_US },
        Stage::TriggerHigh => Command::SetTrigger { high: true },
        Stage::Pulse => Command::Wait { us: TRIGGER_PULSE_US },
        Stage::TriggerRelease => Command::SetTrigger { high: false },
        Stage::Listen => Command::ListenForEcho { timeout_us: ECHO_TIMEOUT_US },
        Stage::ResetAssert => Command::SetReset { high: false },
        Stage::ResetHold => Command::Wait { us: RESET_ASSERT_US },
        Stage::ResetRelease => Command::SetReset { high: true },
        Stage::Report { distance_um } => Command::ReportDistance { distance_um },
        Stage::Idle => Command::Wait { us: CYCLE_IDLE_US },
    }
}

/// The stage that follows `s` once its command is done.
pub open spec fn after_done(s: Stage) -> Stage {
    match s {
        Stage::TriggerLow => Stage::Settle,
        Stage::Settle => Stage::TriggerHigh,
        Stage::TriggerHigh => Stage::Pulse,
        Stage::Pulse => Stage::TriggerRelease,
        Stage::TriggerRelease => Stage::Listen,
        Stage::Listen => Stage::Listen,
        Stage::ResetAssert => Stage::ResetHold,
        Stage::ResetHold => Stage::ResetRelease,
        Stage::ResetRelease => Stage::TriggerLow,
        Stage::Report { .. } => Stage::Idle,
        Stage::Idle => Stage::TriggerLow,
    }
}

/// The stage after `s` on event `e`. While listening only an echo or a
/// timeout moves the cycle on; elsewhere only `Done` does. Any other event
/// leaves the stage as it is.
pub open spec fn next_stage(s: Stage, e: Event) -> Stage {
    match s {
        Stage::Listen => match e {
            Event::Echo { elapsed_us } => Stage::Report {
                distance_um: distance_um_of(elapsed_us as nat) as u128,
            },
            Event::Timeout => Stage::ResetAssert,
            Event::Done => Stage::Listen,
        },
        _ => match e {
            Event::Done => after_done(s),
            _ => s,
        },
    }
}

/// Whether event `e` moves the cycle out of stage `s`.
pub open spec fn moves(s: Stage, e: Event) -> bool {
    next_stage(s, e) != s
}

/// The measurement cycle of one rangefinder.
pub struct RangeMeasurer {
    stage: Stage,
}

impl RangeMeasurer {
    pub closed spec fn view_stage(&self) -> Stage {
        self.stage
    }

    /// A cycle about to issue its first trigger pulse.
    pub fn new() -> (r: RangeMeasurer)
        ensures
            r.view_stage() == Stage::TriggerLow,
    {
        RangeMeasurer { stage: Stage::TriggerLow }
    }

    /// The current stage.
    pub fn stage(&self) -> (r: Stage)
        ensures
            r == self.view_stage(),
    {
        self.stage
    }

    /// What the firmware should do now.
    pub fn command(&self) -> (r: Command)
        ensures
            r == command_of(self.view_stage()),
    {
        match self.stage {
            Stage::TriggerLow => Command::SetTrigger { high: false },
            Stage::Settle => Command::Wait { us: TRIGGER_SETTLE_US },
            Stage::TriggerHigh => Command::SetTrigger { high: true },
            Stage::Pulse => Command::Wait { us: TRIGGER_PULSE_US },
            Stage::TriggerRelease => Command::SetTrigger { high: false },
            Stage::Listen => Command::ListenForEcho { timeout_us: ECHO_TIMEOUT_US },
            Stage::ResetAssert => Command::SetReset { high: false },
            Stage::ResetHold => Command::Wait { us: RESET_ASSERT_US },
            Stage::ResetRelease => Command::SetReset { high: true },
            Stage::Report { distance_um } => Command::ReportDistance { distance_um },
            Stage::Idle => Command::Wait { us: CYCLE_IDLE_US },
        }
    }

    /// Moves the cycle on by what the firmware observed.
    pub fn handle(&mut self, e: Event)
        ensures
            final(self).view_stage() == next_stage(old(self).view_stage(), e),
    {
        let next = match self.stage {
            Stage::Listen => match e {
                Event::Echo { elapsed_us } => Stage::Report { distance_um: distance_um(elapsed_us) },
                Event::Timeout => Stage::ResetAssert,
                Event::Done => Stage::Listen,
            },
            s => match e {
                Event::Done => match s {
                    Stage::TriggerLow => Stage::Settle,
                    Stage::Settle => Stage::TriggerHigh,
                    Stage::TriggerHigh => Stage::Pulse,
                    Stage::Pulse => Stage::TriggerRelease,
                    Stage::TriggerRelease => Stage::Listen,
                    Stage::Listen => Stage::Listen,
                    Stage::ResetAssert => Stage::ResetHold,
                    Stage::ResetHold => Stage::ResetRelease,
                    Stage::ResetRelease => Stage::TriggerLow,
                    Stage::Report { .. } => Stage::Idle,
                    Stage::Idle => Stage::TriggerLow,
                },
                _ => s,
            },
        };
        self.stage = next;
    }
}

/// The outcome of one poll of the echo-versus-deadline race: the echo wins
/// whenever it is ready, the deadline only when the echo is not.
pub open spec fn race_outcome(echo_ready: bool, deadline_ready: bool, elapsed_us: u64) -> Option<Event> {
    if echo_ready {
        Some(Event::Echo { elapsed_us })
    } else if deadline_ready {
        Some(Event::Timeout)
    } else {
        None
    }
}

/// Decides the race after a poll of both sides: `None` while neither is
/// ready, otherwise the event to hand to [`RangeMeasurer::handle`].
/// `elapsed_us` is the time since the end of the trigger pulse.
pub fn settle_race(echo_ready: bool, deadline_ready: bool, elapsed_us: u64) -> (r: Option<Event>)
    ensures
        r == race_outcome(echo_ready, deadline_ready, elapsed_us),
{
    if echo_ready {
        Some(Event::Echo { elapsed_us })
    } else if deadline_ready {
        Some(Event::Timeout)
    } else {
        None
    }
}

/// The trigger pulse keeps its minimum widths. The trigger is raised only on
/// leaving a stage that waits at least 5 µs and that is itself entered only
/// by driving the trigger low. Once raised, the only way on is a wait of at
/// least 10 µs, and the only way on from that wait drives the trigger low.
pub proof fn lemma_trigger_pulse_widths(s: Stage, e: Event)
    ensures
        moves(s, e) && command_of(next_stage(s, e)) == (Command::SetTrigger { high: true }) ==> {
            &&& command_of(s) matches Command::Wait { us }
            &&& us >= 5
            &&& forall|p: Stage, f: Event|
                moves(p, f) && next_stage(p, f) == s ==> command_of(p) == (Command::SetTrigger { high: false })
        },
        command_of(s) == (Command::SetTrigger { high: true }) && moves(s, e) ==> {
            &&& command_of(next_stage(s, e)) matches Command::Wait { us }
            &&& us >= 10
            &&& forall|f: Event|
                moves(next_stage(s, e), f) ==> command_of(next_stage(next_stage(s, e), f))
                    == (Command::SetTrigger { high: false })
        },
{
}

/// A timeout leads, one finished command at a time, to the reset line driven
/// low, a 50 ms wait, the reset line driven high and a fresh trigger pulse;
/// no distance is reported on the way, and an echo arriving meanwhile is
/// ignored. The reset line is asserted on a timeout and on nothing else.
pub proof fn lemma_timeout_resets_sensor(s: Stage, e: Event)
    ensures
        command_of(next_stage(Stage::Listen, Event::Timeout)) == (Command::SetReset { high: false }),
        command_of(after_done(Stage::ResetAssert)) == (Command::Wait { us: 50_000 }),
        command_of(after_done(Stage::ResetHold)) == (Command::SetReset { high: true }),
        after_done(Stage::ResetRelease) == Stage::TriggerLow,
        next_stage(Stage::Listen, Event::Timeout) == Stage::ResetAssert,
        forall|f: Event| #![auto] f != Event::Done ==> {
            &&& next_stage(Stage::ResetAssert, f) == Stage::ResetAssert
            &&& next_stage(Stage::ResetHold, f) == Stage::ResetHold
            &&& next_stage(Stage::ResetRelease, f) == Stage::ResetRelease
        },
        moves(s, e) && command_of(next_stage(s, e)) == (Command::SetReset { high: false }) ==> s
            == Stage::Listen && e == Event::Timeout,
{
}

/// An echo that completes `elapsed_us` after the trigger reports half the
/// round trip times the speed of sound, and nothing else reports a distance.
pub proof fn lemma_echo_reports_distance(elapsed_us: u64, s: Stage, e: Event)
    ensures
        command_of(next_stage(Stage::Listen, Event::Echo { elapsed_us })) == (Command::ReportDistance {
            distance_um: ((elapsed_us / 2) * 343) as u128,
        }),
        moves(s, e) && command_of(next_stage(s, e)) is ReportDistance ==> s == Stage::Listen
            && e is Echo,
{
}

/// After a reported distance the cycle waits one second before the next
/// trigger pulse. A new attempt starts only after that wait or after a
/// sensor reset.
pub proof fn lemma_idle_between_cycles(d: u128, s: Stage, e: Event)
    ensures
        forall|f: Event| #![auto] moves(Stage::Report { distance_um: d }, f) ==> next_stage(
            Stage::Report { distance_um: d },
            f,
        ) == Stage::Idle,
        command_of(Stage::Idle) == (Command::Wait { us: 1_000_000 }),
        forall|f: Event| #![auto] moves(Stage::Idle, f) ==> next_stage(Stage::Idle, f) == Stage::TriggerLow,
        moves(s, e) && next_stage(s, e) == Stage::TriggerLow ==> s == Stage::Idle || s
            == Stage::ResetRelease,
{
}

/// Ties go to the echo: when the echo and the deadline are ready at the same
/// poll, the echo's duration is used and no timeout happens.
pub proof fn lemma_race_tie_goes_to_echo(deadline_ready: bool, elapsed_us: u64)
    ensures
        race_outcome(true, deadline_ready, elapsed_us) == Some(Event::Echo { elapsed_us }),
        next_stage(Stage::Listen, Event::Echo { elapsed_us: ECHO_TIMEOUT_US }) is Report,
{
}

} // verus!
