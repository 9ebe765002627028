use rctrl::api::remote::{Cmd, CmdEnum};
use rctrl::lifecycle::{
    accept_connection, await_connection, ConnectionAction, ConnectionEvent, ConnectionState, Fault,
    ListenerAction, ListenerEvent, ListenerState, Phase, PhaseEvent, Reach, ShutdownSignal,
};
use rctrl::wire::{DecodeError, Inbound};

const PHASES: [Phase; 4] = [Phase::Initializing, Phase::Running, Phase::Draining, Phase::Terminated];
const PHASE_EVENTS: [PhaseEvent; 4] = [
    PhaseEvent::Initialized,
    PhaseEvent::InitializationFailed,
    PhaseEvent::TickEnded,
    PhaseEvent::Released,
];
const LISTENER_EVENTS: [ListenerEvent; 3] =
    [ListenerEvent::Connected, ListenerEvent::Failed, ListenerEvent::Shutdown];

fn connection_events() -> Vec<ConnectionEvent> {
    vec![
        ConnectionEvent::PeerKnown,
        ConnectionEvent::Upgraded,
        ConnectionEvent::Received(Inbound::Forward(Cmd { cmd: CmdEnum::ValveOpen })),
        ConnectionEvent::Received(Inbound::Rejected(DecodeError::Truncated)),
        ConnectionEvent::Received(Inbound::Ignored),
        ConnectionEvent::Sent,
        ConnectionEvent::Ended,
        ConnectionEvent::TransportFailed,
    ]
}

#[test]
fn shutdown_signal_is_set_once() {
    let mut signal = ShutdownSignal::new();
    assert!(!signal.is_set());
    assert!(signal.set());
    assert!(signal.is_set());
    assert!(!signal.set());
    assert!(signal.is_set());
}

#[test]
fn control_loop_runs_until_shutdown() {
    let mut signal = ShutdownSignal::new();
    let mut phase = Phase::Initializing;
    assert!(!phase.ticks());
    phase = phase.next(PhaseEvent::Initialized, &signal);
    assert_eq!(phase, Phase::Running);
    assert!(phase.ticks());
    phase = phase.next(PhaseEvent::TickEnded, &signal);
    assert_eq!(phase, Phase::Running);
    signal.set();
    phase = phase.next(PhaseEvent::TickEnded, &signal);
    assert_eq!(phase, Phase::Draining);
    assert!(!phase.ticks());
    phase = phase.next(PhaseEvent::Released, &signal);
    assert_eq!(phase, Phase::Terminated);
    assert!(!phase.ticks());
}

#[test]
fn failed_initialization_ends_the_loop() {
    let signal = ShutdownSignal::new();
    let phase = Phase::Initializing.next(PhaseEvent::InitializationFailed, &signal);
    assert_eq!(phase, Phase::Terminated);
}

#[test]
fn shutdown_is_seen_between_ticks_only() {
    let mut signal = ShutdownSignal::new();
    signal.set();
    assert_eq!(Phase::Initializing.next(PhaseEvent::Initialized, &signal), Phase::Running);
    assert_eq!(Phase::Running.next(PhaseEvent::Released, &signal), Phase::Running);
    assert_eq!(Phase::Draining.next(PhaseEvent::TickEnded, &signal), Phase::Draining);
}

#[test]
fn terminated_loop_stays_terminated() {
    let mut signal = ShutdownSignal::new();
    for _ in 0..2 {
        for event in PHASE_EVENTS {
            assert_eq!(Phase::Terminated.next(event, &signal), Phase::Terminated);
        }
        signal.set();
    }
    assert_eq!(PHASES.len(), 4);
}

#[test]
fn listener_spawns_each_connection() {
    assert_eq!(
        await_connection(ListenerState::Accepting, ListenerEvent::Connected),
        (ListenerState::Accepting, ListenerAction::Spawn)
    );
    assert_eq!(
        await_connection(ListenerState::Accepting, ListenerEvent::Failed),
        (ListenerState::Stopped, ListenerAction::Stop)
    );
}

#[test]
fn listener_stops_on_shutdown_and_accepts_no_more() {
    for state in [ListenerState::Accepting, ListenerState::Stopped] {
        assert_eq!(
            await_connection(state, ListenerEvent::Shutdown),
            (ListenerState::Stopped, ListenerAction::Stop)
        );
    }
    for event in LISTENER_EVENTS {
        assert_eq!(
            await_connection(ListenerState::Stopped, event),
            (ListenerState::Stopped, ListenerAction::Stop)
        );
    }
}

#[test]
fn connection_opens_in_two_steps() {
    let (state, action) = accept_connection(ConnectionState::Accepting, ConnectionEvent::PeerKnown);
    assert_eq!((state, action), (ConnectionState::Upgrading, ConnectionAction::Continue));
    let (state, action) = accept_connection(state, ConnectionEvent::Upgraded);
    assert_eq!((state, action), (ConnectionState::Open, ConnectionAction::Continue));
}

#[test]
fn open_connection_handles_messages() {
    let open = Cmd { cmd: CmdEnum::ValveOpen };
    assert_eq!(
        accept_connection(ConnectionState::Open, ConnectionEvent::Received(Inbound::Forward(open))),
        (ConnectionState::Open, ConnectionAction::Forward(open))
    );
    assert_eq!(
        accept_connection(
            ConnectionState::Open,
            ConnectionEvent::Received(Inbound::Rejected(DecodeError::UnknownDirective(9)))
        ),
        (ConnectionState::Open, ConnectionAction::LogDecodeError(DecodeError::UnknownDirective(9)))
    );
    assert_eq!(
        accept_connection(ConnectionState::Open, ConnectionEvent::Received(Inbound::Ignored)),
        (ConnectionState::Open, ConnectionAction::Continue)
    );
    assert_eq!(
        accept_connection(ConnectionState::Open, ConnectionEvent::Sent),
        (ConnectionState::Open, ConnectionAction::Continue)
    );
}

#[test]
fn connection_closes_on_failure_or_end() {
    let closed = (ConnectionState::Closed, ConnectionAction::Close);
    assert_eq!(accept_connection(ConnectionState::Open, ConnectionEvent::TransportFailed), closed);
    assert_eq!(accept_connection(ConnectionState::Open, ConnectionEvent::Ended), closed);
    assert_eq!(accept_connection(ConnectionState::Accepting, ConnectionEvent::TransportFailed), closed);
    assert_eq!(accept_connection(ConnectionState::Upgrading, ConnectionEvent::TransportFailed), closed);
    assert_eq!(accept_connection(ConnectionState::Accepting, ConnectionEvent::Upgraded), closed);
    assert_eq!(accept_connection(ConnectionState::Upgrading, ConnectionEvent::Sent), closed);
    for event in connection_events() {
        assert_eq!(accept_connection(ConnectionState::Closed, event), closed);
    }
}

#[test]
fn how_far_errors_reach() {
    assert_eq!(Fault::Transport.reach(), Reach::Logged);
    assert_eq!(Fault::ConfigMismatch.reach(), Reach::Logged);
    assert_eq!(Fault::Decode.reach(), Reach::Logged);
    assert_eq!(Fault::SinkWrite.reach(), Reach::Logged);
    assert_eq!(Fault::Connection.reach(), Reach::Connection);
    assert_eq!(Fault::Listener.reach(), Reach::NetworkService);
    assert_eq!(Fault::Initialization.reach(), Reach::Process);
}
