use ringcall::{
    decide_offer, local_survives_glare, ApplicationEvent, CallDirection, CallId, CallMediaType,
    CallState, ConnectionState, FeatureLevel, HttpMethod, HttpResponse, OfferDecision, RingBench,
    UnrecognizedDiscriminant,
};

#[test]
fn call_id_text() {
    let id = CallId::new(0xdead_beef);
    assert_eq!(id.to_string(), "0xdeadbeef");
    assert_eq!(id.format(42), "0xdeadbeef-42");
    assert_eq!(CallId::new(0).format(0), "0x0-0");
    assert_eq!(CallId::new(u64::MAX).format(u32::MAX), "0xffffffffffffffff-4294967295");
    assert_eq!(CallId::new(16).to_string(), "0x10");
}

#[test]
fn call_id_format_matches_display() {
    for (raw, device) in [(1u64, 2u32), (0x1234_5678_9abc, 31), (u64::MAX, 0)] {
        let id = CallId::new(raw);
        assert_eq!(id.format(device), format!("0x{:x}-{}", raw, device));
        assert_eq!(id.to_string(), format!("0x{:x}", raw));
    }
}

#[test]
fn call_id_conversions() {
    let id = CallId::new(77);
    assert_eq!(id.as_u64(), 77);
    assert_eq!(u64::from(id), 77);
    assert_eq!(CallId::from(77u64), id);
    assert_eq!(CallId::from(-1i64).as_u64(), u64::MAX);
}

#[test]
fn random_call_ids_differ() {
    let a = CallId::random();
    let b = CallId::random();
    let c = CallId::random();
    assert!(a != b || b != c);
}

#[test]
fn integer_conversions() {
    assert_eq!(CallDirection::from_i32(0), Ok(CallDirection::InComing));
    assert_eq!(CallDirection::from_i32(1), Ok(CallDirection::OutGoing));
    assert_eq!(CallDirection::from_i32(2), Err(UnrecognizedDiscriminant { value: 2 }));
    assert_eq!(FeatureLevel::from_i32(0), Ok(FeatureLevel::Unspecified));
    assert_eq!(FeatureLevel::from_i32(1), Ok(FeatureLevel::MultiRing));
    assert_eq!(FeatureLevel::from_i32(-1), Err(UnrecognizedDiscriminant { value: -1 }));
    assert_eq!(CallMediaType::from_i32(0), Ok(CallMediaType::Audio));
    assert_eq!(CallMediaType::from_i32(1), Ok(CallMediaType::Video));
    assert_eq!(CallMediaType::from_i32(i32::MAX), Err(UnrecognizedDiscriminant { value: i32::MAX }));
    assert_eq!(CallMediaType::Video.to_i32(), 1);
    assert_eq!(HttpMethod::Delete.to_i32(), 3);
    assert_eq!(ApplicationEvent::IgnoreCallsFromNonMultiringCallers.to_i32(), 26);
    assert_eq!(ApplicationEvent::EndedTimeout.to_i32(), 12);
}

#[test]
fn names() {
    assert_eq!(CallState::ReconnectingAfterAccepted.to_string(), "ReconnectingAfterAccepted");
    assert_eq!(ConnectionState::IceFailed.to_string(), "IceFailed");
    assert_eq!(ApplicationEvent::EndedRemoteGlare.to_string(), "EndedRemoteGlare");
    assert_eq!(CallDirection::OutGoing.to_string(), "OutGoing");
    assert_eq!(FeatureLevel::MultiRing.to_string(), "MultiRing");
    assert_eq!(CallMediaType::Audio.to_string(), "Audio");
    assert_eq!(HttpMethod::Post.to_string(), "Post");
    assert_eq!(RingBench::App.to_string(), "app");
    assert_eq!(RingBench::Cm.to_string(), "cm");
    assert_eq!(RingBench::Call.to_string(), "call");
    assert_eq!(RingBench::Conn.to_string(), "conn");
    assert_eq!(RingBench::WebRtc.to_string(), "rtc");
    assert_eq!(RingBench::Network.to_string(), "net");
}

#[test]
fn http_response_holds_its_values() {
    let r = HttpResponse { status_code: 204, body: vec![1, 2] };
    assert_eq!(r.status_code, 204);
    assert_eq!(r.body, vec![1, 2]);
}

#[test]
fn glare_tie_break_is_symmetric() {
    let a = CallId::new(5);
    let b = CallId::new(6);
    assert!(!local_survives_glare(a, 9, b, 1));
    assert!(local_survives_glare(b, 1, a, 9));
    assert!(!local_survives_glare(a, 1, a, 2));
    assert!(local_survives_glare(a, 2, a, 1));
}

#[test]
fn offer_decisions() {
    let a = CallId::new(5);
    let b = CallId::new(6);
    let m = FeatureLevel::MultiRing;
    assert_eq!(decide_offer(b, 2, 1, m, false, None, false), OfferDecision::Accept);
    assert_eq!(
        decide_offer(b, 2, 1, FeatureLevel::Unspecified, true, None, false),
        OfferDecision::Reject(ApplicationEvent::IgnoreCallsFromNonMultiringCallers)
    );
    assert_eq!(
        decide_offer(b, 2, 1, m, false, Some(a), false),
        OfferDecision::Reject(ApplicationEvent::ReceivedOfferWhileActive)
    );
    assert_eq!(decide_offer(b, 2, 1, m, false, Some(a), true), OfferDecision::AcceptAndEndLocal);
    assert_eq!(
        decide_offer(a, 1, 2, m, false, Some(b), true),
        OfferDecision::Reject(ApplicationEvent::ReceivedOfferWithGlare)
    );
    assert_eq!(decide_offer(a, 2, 1, m, false, Some(a), true), OfferDecision::AcceptAndEndLocal);
    assert_eq!(
        decide_offer(a, 1, 2, m, false, Some(a), true),
        OfferDecision::Reject(ApplicationEvent::ReceivedOfferWithGlare)
    );
}

#[test]
fn call_device_text_keeps_both_parts_apart() {
    assert_eq!(CallId::new(0x1).format(23), "0x1-23");
    assert_eq!(CallId::new(0x12).format(3), "0x12-3");
    assert_ne!(CallId::new(0x1).format(23), CallId::new(0x12).format(3));
    assert_eq!(CallId::new(0x12).format(3), CallId::from(0x12u64).format(3));
}
