use ringcall::{
    ApplicationEvent, Call, CallDirection, CallId, CallMediaType, CallState, ConnectionState,
    DeviceHangup, FeatureLevel,
};

fn connected_outgoing(devices: Vec<u32>) -> Call {
    let mut call = Call::new_outgoing(CallId::new(0x1234), CallMediaType::Audio, &devices);
    call.start();
    call.proceed();
    call
}

#[test]
fn outgoing_audio_call_rings_then_is_accepted() {
    let mut call = connected_outgoing(vec![7]);
    assert_eq!(call.state(), CallState::ConnectingBeforeAccepted);
    assert!(call.events().is_empty());
    call.on_connection_connected(7);
    assert_eq!(call.state(), CallState::ConnectedBeforeAccepted);
    assert_eq!(call.events(), &vec![ApplicationEvent::RemoteRinging]);
    let hangups = call.accept(7);
    assert!(hangups.is_empty());
    assert_eq!(call.state(), CallState::ConnectedAndAccepted);
    assert_eq!(
        call.events(),
        &vec![ApplicationEvent::RemoteRinging, ApplicationEvent::RemoteAccepted]
    );
    assert_eq!(call.active_device(), Some(7));
}

#[test]
fn first_device_to_accept_wins() {
    let mut call = connected_outgoing(vec![1, 2, 3]);
    call.on_connection_connected(1);
    call.on_connection_connected(2);
    call.on_connection_connected(3);
    assert_eq!(call.events(), &vec![ApplicationEvent::RemoteRinging]);
    let hangups = call.accept(2);
    assert_eq!(
        hangups,
        vec![
            DeviceHangup { device_id: 1, reason: ApplicationEvent::EndedRemoteHangupAccepted },
            DeviceHangup { device_id: 3, reason: ApplicationEvent::EndedRemoteHangupAccepted },
        ]
    );
    assert_eq!(call.state(), CallState::ConnectedAndAccepted);
    assert_eq!(call.active_device(), Some(2));
    assert_eq!(call.connection_state(2), Some(ConnectionState::ConnectedAndAccepted));
    assert_eq!(call.connection_state(1), Some(ConnectionState::Terminated));
    assert_eq!(call.connection_state(3), Some(ConnectionState::Terminated));
    assert_eq!(call.accept(1), vec![]);
}

#[test]
fn lost_transport_recovers() {
    let mut call = connected_outgoing(vec![5]);
    call.on_connection_connected(5);
    call.accept(5);
    call.on_transport_lost();
    assert_eq!(call.state(), CallState::ReconnectingAfterAccepted);
    assert_eq!(call.events().last(), Some(&ApplicationEvent::Reconnecting));
    assert_eq!(call.connection_state(5), Some(ConnectionState::ReconnectingAfterAccepted));
    call.on_transport_recovered();
    assert_eq!(call.state(), CallState::ConnectedAndAccepted);
    assert_eq!(call.events().last(), Some(&ApplicationEvent::Reconnected));
}

#[test]
fn lost_transport_times_out() {
    let mut call = connected_outgoing(vec![5]);
    call.on_connection_connected(5);
    call.accept(5);
    call.on_transport_lost();
    call.on_timeout();
    assert_eq!(call.state(), CallState::Terminating);
    call.finish_termination();
    assert_eq!(call.state(), CallState::Terminated);
    assert_eq!(
        call.events(),
        &vec![
            ApplicationEvent::RemoteRinging,
            ApplicationEvent::RemoteAccepted,
            ApplicationEvent::Reconnecting,
            ApplicationEvent::EndedTimeout,
        ]
    );
    assert_eq!(call.connection_state(5), Some(ConnectionState::Terminated));
}

#[test]
fn lost_transport_fails() {
    let mut call = connected_outgoing(vec![5]);
    call.on_connection_connected(5);
    call.accept(5);
    call.on_transport_lost();
    call.on_connection_failed(5);
    call.finish_termination();
    assert_eq!(call.state(), CallState::Terminated);
    assert_eq!(call.events().last(), Some(&ApplicationEvent::EndedConnectionFailure));
}

#[test]
fn terminated_call_ignores_everything() {
    let mut call = connected_outgoing(vec![1, 2]);
    call.terminate(ApplicationEvent::EndedLocalHangup);
    call.finish_termination();
    let events = call.events().clone();
    assert_eq!(events, vec![ApplicationEvent::EndedLocalHangup]);
    call.start();
    call.proceed();
    call.on_connection_connected(1);
    assert_eq!(call.accept(1), vec![]);
    call.on_transport_lost();
    call.on_transport_recovered();
    call.on_timeout();
    call.on_glare(CallId::new(u64::MAX), 1, 2);
    call.on_remote_media(ApplicationEvent::RemoteVideoEnable);
    call.on_connection_failed(2);
    call.terminate(ApplicationEvent::EndedRemoteHangup);
    call.finish_termination();
    assert_eq!(call.state(), CallState::Terminated);
    assert_eq!(call.events(), &events);
}

#[test]
fn no_ringing_before_connection() {
    let mut call = connected_outgoing(vec![1]);
    assert_eq!(call.accept(1), vec![]);
    call.on_remote_media(ApplicationEvent::RemoteVideoEnable);
    assert!(call.events().is_empty());
    assert_eq!(call.state(), CallState::ConnectingBeforeAccepted);
}

#[test]
fn one_failed_device_leaves_the_others_ringing() {
    let mut call = connected_outgoing(vec![1, 2]);
    call.on_connection_failed(1);
    assert_eq!(call.state(), CallState::ConnectingBeforeAccepted);
    assert_eq!(call.connection_state(1), Some(ConnectionState::IceFailed));
    call.on_connection_failed(2);
    assert_eq!(call.state(), CallState::Terminating);
    call.finish_termination();
    assert_eq!(call.events(), &vec![ApplicationEvent::EndedConnectionFailure]);
}

#[test]
fn incoming_call_rings_locally() {
    let mut call = Call::new_incoming(
        CallId::new(9),
        4,
        CallMediaType::Video,
        FeatureLevel::MultiRing,
        true,
    )
    .unwrap();
    assert_eq!(call.direction(), CallDirection::InComing);
    assert_eq!(call.media_type(), CallMediaType::Video);
    assert_eq!(call.state(), CallState::NotYetStarted);
    call.start();
    assert_eq!(call.state(), CallState::WaitingToProceed);
    call.proceed();
    call.on_connection_connected(4);
    call.accept(4);
    call.on_remote_media(ApplicationEvent::RemoteVideoDisable);
    assert_eq!(
        call.events(),
        &vec![
            ApplicationEvent::LocalRinging,
            ApplicationEvent::LocalAccepted,
            ApplicationEvent::RemoteVideoDisable,
        ]
    );
}

#[test]
fn linked_device_ignores_non_multiring_caller() {
    let r = Call::new_incoming(CallId::new(9), 4, CallMediaType::Audio, FeatureLevel::Unspecified, true);
    assert_eq!(r.err(), Some(ApplicationEvent::IgnoreCallsFromNonMultiringCallers));
    let r = Call::new_incoming(CallId::new(9), 4, CallMediaType::Audio, FeatureLevel::Unspecified, false);
    assert!(r.is_ok());
}

#[test]
fn glare_ends_the_lower_call_only() {
    let a = CallId::new(100);
    let b = CallId::new(200);
    let mut call_a = Call::new_outgoing(a, CallMediaType::Audio, &vec![1]);
    let mut call_b = Call::new_outgoing(b, CallMediaType::Audio, &vec![2]);
    call_a.start();
    call_b.start();
    call_a.on_glare(b, 1, 2);
    call_b.on_glare(a, 2, 1);
    assert_eq!(call_a.state(), CallState::Terminating);
    assert_eq!(call_b.state(), CallState::WaitingToProceed);
    call_a.finish_termination();
    assert_eq!(call_a.events(), &vec![ApplicationEvent::EndedRemoteGlare]);
    call_b.proceed();
    call_b.on_connection_connected(2);
    call_b.accept(2);
    assert_eq!(call_b.state(), CallState::ConnectedAndAccepted);
}

#[test]
fn setup_timeout_ends_call() {
    let mut call = Call::new_outgoing(CallId::new(1), CallMediaType::Audio, &vec![1]);
    call.on_timeout();
    assert_eq!(call.state(), CallState::NotYetStarted);
    call.start();
    call.on_timeout();
    call.finish_termination();
    assert_eq!(call.events(), &vec![ApplicationEvent::EndedTimeout]);
}

#[test]
fn teardown_leaves_losing_devices_terminated() {
    let mut call = connected_outgoing(vec![1, 2]);
    call.on_connection_connected(1);
    call.accept(1);
    call.terminate(ApplicationEvent::EndedRemoteHangup);
    assert_eq!(call.state(), CallState::Terminating);
    assert_eq!(call.connection_state(1), Some(ConnectionState::Terminating));
    assert_eq!(call.connection_state(2), Some(ConnectionState::Terminated));
    call.terminate(ApplicationEvent::EndedLocalHangup);
    call.finish_termination();
    assert_eq!(call.connection_state(1), Some(ConnectionState::Terminated));
    assert_eq!(
        call.events(),
        &vec![
            ApplicationEvent::RemoteRinging,
            ApplicationEvent::RemoteAccepted,
            ApplicationEvent::EndedRemoteHangup,
        ]
    );
}

#[test]
fn registry_detects_colliding_ids() {
    let mut registry = ringcall::CallRegistry::new();
    let a = Call::new_outgoing(CallId::new(11), CallMediaType::Audio, &vec![1]);
    let b = Call::new_outgoing(CallId::new(12), CallMediaType::Video, &vec![2]);
    let clash = Call::new_outgoing(CallId::new(11), CallMediaType::Video, &vec![3]);
    assert!(registry.insert(a).is_ok());
    assert!(registry.insert(b).is_ok());
    let back = registry.insert(clash).err().unwrap();
    assert_eq!(back.media_type(), CallMediaType::Video);
    assert_eq!(registry.len(), 2);
    assert!(registry.contains(CallId::new(12)));
    assert_eq!(registry.get(CallId::new(11)).unwrap().media_type(), CallMediaType::Audio);
    let removed = registry.remove(CallId::new(11)).unwrap();
    assert_eq!(removed.call_id(), CallId::new(11));
    assert!(!registry.contains(CallId::new(11)));
    assert!(registry.remove(CallId::new(11)).is_none());
    assert_eq!(registry.len(), 1);
}

#[test]
fn glare_with_colliding_ids_ends_one_call() {
    let id = CallId::new(300);
    let mut call_a = Call::new_outgoing(id, CallMediaType::Audio, &vec![1]);
    let mut call_b = Call::new_outgoing(id, CallMediaType::Audio, &vec![2]);
    call_a.start();
    call_b.start();
    call_a.proceed();
    call_a.on_glare(id, 7, 9);
    call_b.on_glare(id, 9, 7);
    assert_eq!(call_a.state(), CallState::Terminating);
    assert_eq!(call_b.state(), CallState::WaitingToProceed);
    call_a.finish_termination();
    assert_eq!(call_a.events(), &vec![ApplicationEvent::EndedRemoteGlare]);
    call_b.proceed();
    call_b.on_connection_connected(2);
    call_b.accept(2);
    assert_eq!(call_b.state(), CallState::ConnectedAndAccepted);
    assert_eq!(call_a.state(), CallState::Terminated);
}

#[test]
fn connected_device_failing_before_accept() {
    let mut call = connected_outgoing(vec![1, 2]);
    call.on_connection_connected(1);
    call.on_connection_connected(2);
    call.on_connection_failed(1);
    assert_eq!(call.state(), CallState::ConnectedBeforeAccepted);
    assert_eq!(call.connection_state(1), Some(ConnectionState::Terminating));
    call.accept(2);
    assert_eq!(call.state(), CallState::ConnectedAndAccepted);
    assert_eq!(call.connection_state(1), Some(ConnectionState::Terminated));
}

#[test]
fn last_connected_device_failing_ends_the_call() {
    let mut call = connected_outgoing(vec![1, 2]);
    call.on_connection_connected(1);
    call.on_connection_failed(1);
    assert_eq!(call.state(), CallState::Terminating);
    assert_eq!(call.connection_state(2), Some(ConnectionState::Terminating));
    call.finish_termination();
    assert_eq!(
        call.events(),
        &vec![ApplicationEvent::RemoteRinging, ApplicationEvent::EndedConnectionFailure]
    );
}
