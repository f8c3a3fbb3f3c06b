use rabbitmq_adapter::supervisor::{Duty, Phase, Report};
use rabbitmq_adapter::v2::amqp_connect;

const PHASES: [Phase; 7] = [
    Phase::Resolving,
    Phase::Connecting,
    Phase::HandshakeInProgress,
    Phase::Ready,
    Phase::Running,
    Phase::Closed,
    Phase::Failed,
];

#[test]
fn connection_starts_resolving() {
    assert_eq!(Phase::initial(), Phase::Resolving);
    assert_eq!(Phase::initial().duty(), Duty::Resolve);
}

#[test]
fn successes_walk_through_the_phases() {
    let mut phase = Phase::initial();
    let mut seen = vec![phase];
    while !phase.is_terminal() {
        phase = phase.on(Report::Succeeded);
        seen.push(phase);
    }
    assert_eq!(
        seen,
        vec![
            Phase::Resolving,
            Phase::Connecting,
            Phase::HandshakeInProgress,
            Phase::Ready,
            Phase::Running,
            Phase::Closed,
        ]
    );
}

#[test]
fn failure_is_fatal_in_every_open_phase() {
    for phase in PHASES {
        let next = phase.on(Report::Failed);
        if phase == Phase::Closed {
            assert_eq!(next, Phase::Closed);
        } else {
            assert_eq!(next, Phase::Failed);
        }
    }
}

#[test]
fn heartbeat_failure_is_swallowed() {
    for phase in PHASES {
        assert_eq!(phase.on(Report::HeartbeatFailed), phase);
    }
}

#[test]
fn final_phases_stay() {
    for report in [Report::Succeeded, Report::Failed, Report::HeartbeatFailed] {
        assert_eq!(Phase::Closed.on(report), Phase::Closed);
        assert_eq!(Phase::Failed.on(report), Phase::Failed);
    }
    assert!(Phase::Closed.is_terminal());
    assert!(Phase::Failed.is_terminal());
    assert!(!Phase::Running.is_terminal());
}

#[test]
fn each_phase_has_its_duty() {
    assert_eq!(Phase::Resolving.duty(), Duty::Resolve);
    assert_eq!(Phase::Connecting.duty(), Duty::Connect);
    assert_eq!(Phase::HandshakeInProgress.duty(), Duty::Handshake);
    assert_eq!(Phase::Ready.duty(), Duty::StartBridges);
    assert_eq!(Phase::Running.duty(), Duty::AwaitEither);
    assert_eq!(Phase::Closed.duty(), Duty::Exit { status: 0 });
    assert_eq!(Phase::Failed.duty(), Duty::Abort);
}

#[test]
fn supervisor_move_gives_phase_and_duty() {
    assert_eq!(
        amqp_connect(Phase::Resolving, Report::Succeeded),
        (Phase::Connecting, Duty::Connect)
    );
    assert_eq!(
        amqp_connect(Phase::Running, Report::Succeeded),
        (Phase::Closed, Duty::Exit { status: 0 })
    );
    assert_eq!(amqp_connect(Phase::Connecting, Report::Failed), (Phase::Failed, Duty::Abort));
    assert_eq!(
        amqp_connect(Phase::Running, Report::HeartbeatFailed),
        (Phase::Running, Duty::AwaitEither)
    );
}
