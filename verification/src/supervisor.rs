//! The connection supervisor: the phases of one connection to the broker,
//! from the broker's address to the end of the process.

use crate::broker::EXIT_SUCCESS;
use vstd::prelude::*;

verus! {

/// A phase of the connection.
#[derive(Debug, Clone, Copy, PartialEq, Eq, Structural)]
pub enum Phase {
    /// The broker's URI is turned into a network address.
    Resolving,
    /// The transport connection is being made.
    Connecting,
    /// The protocol handshake is under way.
    HandshakeInProgress,
    /// The handshake is done; the heartbeat and the bridges are started.
    Ready,
    /// Both bridges run.
    Running,
    /// A bridge ended because its queue or stream was closed.
    Closed,
    /// A step of the setup or a bridge failed.
    Failed,
}

/// What the driver reports to the supervisor.
#[derive(Debug, Clone, Copy, PartialEq, Eq, Structural)]
pub enum Report {
    /// What the phase was waiting for has succeeded; while the bridges run,
    /// one of them has come to its regular end.
    Succeeded,
    /// What the phase was waiting for has failed; while the bridges run, one
    /// of them has failed.
    Failed,
    /// The heartbeat task has failed.
    HeartbeatFailed,
}

/// What the driver does in a phase.
#[derive(Debug, Clone, Copy, PartialEq, Eq, Structural)]
pub enum Duty {
    /// Turn the text of the broker's address into a network address.
    Resolve,
    /// Connect the transport to that address.
    Connect,
    /// Shake hands with the broker.
    Handshake,
    /// Spawn the heartbeat on its own, then start the setup of the outbound
    /// and of the inbound bridge side by side.
    StartBridges,
    /// Wait until either bridge ends or fails, whichever comes first.
    AwaitEither,
    /// Exit with `status`.
    Exit { status: i32 },
    /// Give up: abort the process.
    Abort,
}

/// The phase is final: nothing follows it.
pub open spec fn terminal(phase: Phase) -> bool {
    phase == Phase::Closed || phase == Phase::Failed
}

/// The place of a phase in the course of a connection.
pub open spec fn rank(phase: Phase) -> nat {
    match phase {
        Phase::Resolving => 0,
        Phase::Connecting => 1,
        Phase::HandshakeInProgress => 2,
        Phase::Ready => 3,
        Phase::Running => 4,
        Phase::Closed => 5,
        Phase::Failed => 5,
    }
}

/// The phase that follows `phase` on `report`.
///
/// A failure of the heartbeat changes nothing. A final phase stays. From
/// any other phase, success leads to the next phase, and from `Running` to
/// `Closed`; failure leads to `Failed`.
pub open spec fn followed(phase: Phase, report: Report) -> Phase {
    if terminal(phase) {
        phase
    } else {
        match report {
            Report::HeartbeatFailed => phase,
            Report::Failed => Phase::Failed,
            Report::Succeeded => match phase {
                Phase::Resolving => Phase::Connecting,
                Phase::Connecting => Phase::HandshakeInProgress,
                Phase::HandshakeInProgress => Phase::Ready,
                Phase::Ready => Phase::Running,
                _ => Phase::Closed,
            },
        }
    }
}

/// The phase that is reached from `phase` by `reports`, in turn.
pub open spec fn followed_all(phase: Phase, reports: Seq<Report>) -> Phase
    decreases reports.len(),
{
    if reports.len() == 0 {
        phase
    } else {
        followed_all(followed(phase, reports[0]), reports.drop_first())
    }
}

/// What the driver does in `phase`.
pub open spec fn duty_of(phase: Phase) -> Duty {
    match phase {
        Phase::Resolving => Duty::Resolve,
        Phase::Connecting => Duty::Connect,
        Phase::HandshakeInProgress => Duty::Handshake,
        Phase::Ready => Duty::StartBridges,
        Phase::Running => Duty::AwaitEither,
        Phase::Closed => Duty::Exit { status: EXIT_SUCCESS },
        Phase::Failed => Duty::Abort,
    }
}

impl Phase {
    /// The phase in which every connection starts.
    pub fn initial() -> (phase: Phase)
        ensures
            phase == Phase::Resolving,
    {
        Phase::Resolving
    }

    /// Whether nothing follows this phase.
    pub fn is_terminal(self) -> (yes: bool)
        ensures
            yes == terminal(self),
    {
        match self {
            Phase::Closed => true,
            Phase::Failed => true,
            _ => false,
        }
    }

    /// The phase that follows this one on `report`.
    pub fn on(self, report: Report) -> (next: Phase)
        ensures
            next == followed(self, report),
    {
        match self {
            Phase::Closed => Phase::Closed,
            Phase::Failed => Phase::Failed,
            _ => match report {
                Report::HeartbeatFailed => self,
                Report::Failed => Phase::Failed,
                Report::Succeeded => match self {
                    Phase::Resolving => Phase::Connecting,
                    Phase::Connecting => Phase::HandshakeInProgress,
                    Phase::HandshakeInProgress => Phase::Ready,
                    Phase::Ready => Phase::Running,
                    _ => Phase::Closed,
                },
            },
        }
    }

    /// What the driver does in this phase.
    pub fn duty(self) -> (duty: Duty)
        ensures
            duty == duty_of(self),
    {
        match self {
            Phase::Resolving => Duty::Resolve,
            Phase::Connecting => Duty::Connect,
            Phase::HandshakeInProgress => Duty::Handshake,
            Phase::Ready => Duty::StartBridges,
            Phase::Running => Duty::AwaitEither,
            Phase::Closed => Duty::Exit { status: EXIT_SUCCESS },
            Phase::Failed => Duty::Abort,
        }
    }
}

/// A connection never goes back: each report leaves the phase where it is or
/// moves it forward, by one place unless it fails.
pub proof fn lemma_phases_advance(phase: Phase, report: Report)
    ensures
        rank(phase) <= rank(followed(phase, report)),
        followed(phase, report) != Phase::Failed ==> rank(followed(phase, report)) <= rank(phase)
            + 1,
        report == Report::HeartbeatFailed ==> followed(phase, report) == phase,
{
}

/// `Closed` and `Failed` are final: whatever is reported, the phase stays.
pub proof fn lemma_terminal_stays(phase: Phase, reports: Seq<Report>)
    requires
        terminal(phase),
    ensures
        followed_all(phase, reports) == phase,
    decreases reports.len(),
{
    if reports.len() > 0 {
        lemma_terminal_stays(phase, reports.drop_first());
    }
}

/// The bridges run after exactly four successes: the address, the
/// connection, the handshake, and the start of the bridges. The regular end
/// of a bridge then closes the connection with exit status 0.
pub proof fn lemma_course_of_a_connection()
    ensures
        followed_all(
            Phase::Resolving,
            seq![Report::Succeeded, Report::Succeeded, Report::Succeeded, Report::Succeeded],
        ) == Phase::Running,
        followed(Phase::Running, Report::Succeeded) == Phase::Closed,
        duty_of(Phase::Closed) == (Duty::Exit { status: EXIT_SUCCESS }),
{
    reveal_with_fuel(followed_all, 5);
    let ok = Report::Succeeded;
    let reports = seq![ok, ok, ok, ok];
    assert(reports.drop_first() =~= seq![ok, ok, ok]);
    assert(reports.drop_first().drop_first() =~= seq![ok, ok]);
    assert(reports.drop_first().drop_first().drop_first() =~= seq![ok]);
    assert(reports.drop_first().drop_first().drop_first().drop_first() =~= Seq::<Report>::empty());
}

} // verus!
