use ringcall::{ConnectionInput, ConnectionRole, ConnectionState};

#[test]
fn parent_gathers_child_negotiates() {
    let s = ConnectionState::NotYetStarted
        .next(ConnectionRole::OutgoingParent, ConnectionInput::Start)
        .unwrap();
    assert_eq!(s, ConnectionState::Starting);
    assert_eq!(
        s.next(ConnectionRole::OutgoingParent, ConnectionInput::StartCompleted),
        Some(ConnectionState::IceGathering)
    );
    assert_eq!(
        s.next(ConnectionRole::Child, ConnectionInput::StartCompleted),
        Some(ConnectionState::ConnectingBeforeAccepted)
    );
    assert_eq!(
        ConnectionState::IceGathering.next(ConnectionRole::OutgoingParent, ConnectionInput::IceConnected),
        None
    );
    assert_eq!(
        ConnectionState::IceGathering.next(ConnectionRole::OutgoingParent, ConnectionInput::Terminate),
        Some(ConnectionState::Terminating)
    );
}

#[test]
fn child_connection_full_life() {
    let role = ConnectionRole::Child;
    let mut s = ConnectionState::NotYetStarted;
    for (input, expected) in [
        (ConnectionInput::Start, ConnectionState::Starting),
        (ConnectionInput::StartCompleted, ConnectionState::ConnectingBeforeAccepted),
        (ConnectionInput::IceConnected, ConnectionState::ConnectedBeforeAccepted),
        (ConnectionInput::Accepted, ConnectionState::ConnectedAndAccepted),
        (ConnectionInput::IceDisconnected, ConnectionState::ReconnectingAfterAccepted),
        (ConnectionInput::IceReconnected, ConnectionState::ConnectedAndAccepted),
        (ConnectionInput::Terminate, ConnectionState::Terminating),
        (ConnectionInput::TerminateCompleted, ConnectionState::Terminated),
    ] {
        s = s.next(role, input).unwrap();
        assert_eq!(s, expected);
    }
}

#[test]
fn ice_failure_and_terminated_inertia() {
    let role = ConnectionRole::Child;
    assert_eq!(
        ConnectionState::ConnectingBeforeAccepted.next(role, ConnectionInput::IceFailed),
        Some(ConnectionState::IceFailed)
    );
    assert_eq!(ConnectionState::ConnectingBeforeAccepted.next(role, ConnectionInput::Accepted), None);
    for input in [
        ConnectionInput::Start,
        ConnectionInput::StartCompleted,
        ConnectionInput::IceConnected,
        ConnectionInput::IceFailed,
        ConnectionInput::Accepted,
        ConnectionInput::IceDisconnected,
        ConnectionInput::IceReconnected,
        ConnectionInput::Terminate,
        ConnectionInput::TerminateCompleted,
    ] {
        assert_eq!(ConnectionState::Terminated.next(role, input), None);
    }
    assert_eq!(ConnectionState::Terminating.next(role, ConnectionInput::Terminate), None);
}
