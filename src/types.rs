use vstd::prelude::*;

verus! {

/// An integer that names no variant of the enum it was read as.
#[derive(Clone, Copy, Debug, PartialEq, Eq, Structural)]
pub struct UnrecognizedDiscriminant {
    pub value: i32,
}

/// Tracks the state of a call.
#[derive(Clone, Copy, Debug, PartialEq, Eq, Hash, Structural)]
pub enum CallState {
    /// The call has been created, but not yet started.
    NotYetStarted,
    /// The call has been started, locally or on receipt of an offer, and
    /// waits for the application to let it proceed.
    WaitingToProceed,
    /// Call is connecting (signaling and ICE) with the remote peer.
    /// We don't ring until we're connected with ICE to send an
    /// "accepted" message.
    ConnectingBeforeAccepted,
    /// ICE is connected,
    /// But the callee has not yet accepted.
    ConnectedBeforeAccepted,
    /// ICE is connected and the callee has accepted.
    ConnectedAndAccepted,
    /// After ConnectedAndAccepted, has gone disconnected temporarily and is trying to reconnect.
    ReconnectingAfterAccepted,
    /// The call is in the process of terminating (hanging up).
    Terminating,
    /// The call is completely terminated.
    Terminated,
}

/// The text that names each variant.
pub open spec fn call_state_text(x: CallState) -> Seq<char> {
    match x {
        CallState::NotYetStarted => "NotYetStarted"@,
        CallState::WaitingToProceed => "WaitingToProceed"@,
        CallState::ConnectingBeforeAccepted => "ConnectingBeforeAccepted"@,
        CallState::ConnectedBeforeAccepted => "ConnectedBeforeAccepted"@,
        CallState::ConnectedAndAccepted => "ConnectedAndAccepted"@,
        CallState::ReconnectingAfterAccepted => "ReconnectingAfterAccepted"@,
        CallState::Terminating => "Terminating"@,
        CallState::Terminated => "Terminated"@,
    }
}

impl CallState {
    /// The variant's name as text.
    pub fn to_string(&self) -> (r: String)
        ensures
            r@ == call_state_text(*self),
    {
        let t = match self {
            CallState::NotYetStarted => "NotYetStarted",
            CallState::WaitingToProceed => "WaitingToProceed",
            CallState::ConnectingBeforeAccepted => "ConnectingBeforeAccepted",
            CallState::ConnectedBeforeAccepted => "ConnectedBeforeAccepted",
            CallState::ConnectedAndAccepted => "ConnectedAndAccepted",
            CallState::ReconnectingAfterAccepted => "ReconnectingAfterAccepted",
            CallState::Terminating => "Terminating",
            CallState::Terminated => "Terminated",
        };
        String::from_str(t)
    }
}

/// A user-visible occurrence reported to the hosting application; it carries no payload.
#[derive(Clone, Copy, Debug, PartialEq, Eq, Hash, Structural)]
pub enum ApplicationEvent {
    /// Inbound call only: The call signaling (ICE) is complete.
    LocalRinging,
    /// Outbound call only: The call signaling (ICE) is complete.
    RemoteRinging,
    /// The local side has accepted the call.
    LocalAccepted,
    /// The remote side has accepted the call.
    RemoteAccepted,
    /// The call ended because of a local hangup.
    EndedLocalHangup,
    /// The call ended because of a remote hangup.
    EndedRemoteHangup,
    /// The call ended because the remote needs permission.
    EndedRemoteHangupNeedPermission,
    /// The call ended because the call was accepted by a different device.
    EndedRemoteHangupAccepted,
    /// The call ended because the call was declined by a different device.
    EndedRemoteHangupDeclined,
    /// The call ended because the call was declared busy by a different device.
    EndedRemoteHangupBusy,
    /// The call ended because of a remote busy message from a callee.
    EndedRemoteBusy,
    /// The call ended because of glare (received offer from same remote).
    EndedRemoteGlare,
    /// The call ended because it timed out during setup.
    EndedTimeout,
    /// The call ended because of an internal error condition.
    EndedInternalFailure,
    /// The call ended because a signaling message couldn't be sent.
    EndedSignalingFailure,
    /// The call ended because setting up the connection failed.
    EndedConnectionFailure,
    /// The call ended because the application wanted to drop the call.
    EndedAppDroppedCall,
    /// The remote side has enabled video.
    RemoteVideoEnable,
    /// The remote side has disabled video.
    RemoteVideoDisable,
    /// The remote side has enabled screen sharing.
    RemoteSharingScreenEnable,
    /// The remote side has disabled screen sharing.
    RemoteSharingScreenDisable,
    /// The call dropped while connected and is now reconnecting.
    Reconnecting,
    /// The call dropped while connected and is now reconnected.
    Reconnected,
    /// The received offer is expired; its age travels on a separate notification.
    ReceivedOfferExpired,
    /// Received an offer while already handling an active call.
    ReceivedOfferWhileActive,
    /// Received an offer while already handling an active call and glare
    /// was detected.
    ReceivedOfferWithGlare,
    /// Received an offer on a linked device from one that doesn't support multi-ring.
    IgnoreCallsFromNonMultiringCallers,
}

/// The text that names each variant.
pub open spec fn application_event_text(x: ApplicationEvent) -> Seq<char> {
    match x {
        ApplicationEvent::LocalRinging => "LocalRinging"@,
        ApplicationEvent::RemoteRinging => "RemoteRinging"@,
        ApplicationEvent::LocalAccepted => "LocalAccepted"@,
        ApplicationEvent::RemoteAccepted => "RemoteAccepted"@,
        ApplicationEvent::EndedLocalHangup => "EndedLocalHangup"@,
        ApplicationEvent::EndedRemoteHangup => "EndedRemoteHangup"@,
        ApplicationEvent::EndedRemoteHangupNeedPermission => "EndedRemoteHangupNeedPermission"@,
        ApplicationEvent::EndedRemoteHangupAccepted => "EndedRemoteHangupAccepted"@,
        ApplicationEvent::EndedRemoteHangupDeclined => "EndedRemoteHangupDeclined"@,
        ApplicationEvent::EndedRemoteHangupBusy => "EndedRemoteHangupBusy"@,
        ApplicationEvent::EndedRemoteBusy => "EndedRemoteBusy"@,
        ApplicationEvent::EndedRemoteGlare => "EndedRemoteGlare"@,
        ApplicationEvent::EndedTimeout => "EndedTimeout"@,
        ApplicationEvent::EndedInternalFailure => "EndedInternalFailure"@,
        ApplicationEvent::EndedSignalingFailure => "EndedSignalingFailure"@,
        ApplicationEvent::EndedConnectionFailure => "EndedConnectionFailure"@,
        ApplicationEvent::EndedAppDroppedCall => "EndedAppDroppedCall"@,
        ApplicationEvent::RemoteVideoEnable => "RemoteVideoEnable"@,
        ApplicationEvent::RemoteVideoDisable => "RemoteVideoDisable"@,
        ApplicationEvent::RemoteSharingScreenEnable => "RemoteSharingScreenEnable"@,
        ApplicationEvent::RemoteSharingScreenDisable => "RemoteSharingScreenDisable"@,
        ApplicationEvent::Reconnecting => "Reconnecting"@,
        ApplicationEvent::Reconnected => "Reconnected"@,
        ApplicationEvent::ReceivedOfferExpired => "ReceivedOfferExpired"@,
        ApplicationEvent::ReceivedOfferWhileActive => "ReceivedOfferWhileActive"@,
        ApplicationEvent::ReceivedOfferWithGlare => "ReceivedOfferWithGlare"@,
        ApplicationEvent::IgnoreCallsFromNonMultiringCallers => "IgnoreCallsFromNonMultiringCallers"@,
    }
}

impl ApplicationEvent {
    /// The stable integer that stands for the variant across a boundary.
    pub open spec fn spec_to_i32(self) -> i32 {
        match self {
            ApplicationEvent::LocalRinging => 0,
            ApplicationEvent::RemoteRinging => 1,
            ApplicationEvent::LocalAccepted => 2,
            ApplicationEvent::RemoteAccepted => 3,
            ApplicationEvent::EndedLocalHangup => 4,
            ApplicationEvent::EndedRemoteHangup => 5,
            ApplicationEvent::EndedRemoteHangupNeedPermission => 6,
            ApplicationEvent::EndedRemoteHangupAccepted => 7,
            ApplicationEvent::EndedRemoteHangupDeclined => 8,
            ApplicationEvent::EndedRemoteHangupBusy => 9,
            ApplicationEvent::EndedRemoteBusy => 10,
            ApplicationEvent::EndedRemoteGlare => 11,
            ApplicationEvent::EndedTimeout => 12,
            ApplicationEvent::EndedInternalFailure => 13,
            ApplicationEvent::EndedSignalingFailure => 14,
            ApplicationEvent::EndedConnectionFailure => 15,
            ApplicationEvent::EndedAppDroppedCall => 16,
            ApplicationEvent::RemoteVideoEnable => 17,
            ApplicationEvent::RemoteVideoDisable => 18,
            ApplicationEvent::RemoteSharingScreenEnable => 19,
            ApplicationEvent::RemoteSharingScreenDisable => 20,
            ApplicationEvent::Reconnecting => 21,
            ApplicationEvent::Reconnected => 22,
            ApplicationEvent::ReceivedOfferExpired => 23,
            ApplicationEvent::ReceivedOfferWhileActive => 24,
            ApplicationEvent::ReceivedOfferWithGlare => 25,
            ApplicationEvent::IgnoreCallsFromNonMultiringCallers => 26,
        }
    }

    pub fn to_i32(self) -> (r: i32)
        ensures
            r == self.spec_to_i32(),
    {
        match self {
            ApplicationEvent::LocalRinging => 0,
            ApplicationEvent::RemoteRinging => 1,
            ApplicationEvent::LocalAccepted => 2,
            ApplicationEvent::RemoteAccepted => 3,
            ApplicationEvent::EndedLocalHangup => 4,
            ApplicationEvent::EndedRemoteHangup => 5,
            ApplicationEvent::EndedRemoteHangupNeedPermission => 6,
            ApplicationEvent::EndedRemoteHangupAccepted => 7,
            ApplicationEvent::EndedRemoteHangupDeclined => 8,
            ApplicationEvent::EndedRemoteHangupBusy => 9,
            ApplicationEvent::EndedRemoteBusy => 10,
            ApplicationEvent::EndedRemoteGlare => 11,
            ApplicationEvent::EndedTimeout => 12,
            ApplicationEvent::EndedInternalFailure => 13,
            ApplicationEvent::EndedSignalingFailure => 14,
            ApplicationEvent::EndedConnectionFailure => 15,
            ApplicationEvent::EndedAppDroppedCall => 16,
            ApplicationEvent::RemoteVideoEnable => 17,
            ApplicationEvent::RemoteVideoDisable => 18,
            ApplicationEvent::RemoteSharingScreenEnable => 19,
            ApplicationEvent::RemoteSharingScreenDisable => 20,
            ApplicationEvent::Reconnecting => 21,
            ApplicationEvent::Reconnected => 22,
            ApplicationEvent::ReceivedOfferExpired => 23,
            ApplicationEvent::ReceivedOfferWhileActive => 24,
            ApplicationEvent::ReceivedOfferWithGlare => 25,
            ApplicationEvent::IgnoreCallsFromNonMultiringCallers => 26,
        }
    }

    /// The variant's name as text.
    pub fn to_string(&self) -> (r: String)
        ensures
            r@ == application_event_text(*self),
    {
        let t = match self {
            ApplicationEvent::LocalRinging => "LocalRinging",
            ApplicationEvent::RemoteRinging => "RemoteRinging",
            ApplicationEvent::LocalAccepted => "LocalAccepted",
            ApplicationEvent::RemoteAccepted => "RemoteAccepted",
            ApplicationEvent::EndedLocalHangup => "EndedLocalHangup",
            ApplicationEvent::EndedRemoteHangup => "EndedRemoteHangup",
            ApplicationEvent::EndedRemoteHangupNeedPermission => "EndedRemoteHangupNeedPermission",
            ApplicationEvent::EndedRemoteHangupAccepted => "EndedRemoteHangupAccepted",
            ApplicationEvent::EndedRemoteHangupDeclined => "EndedRemoteHangupDeclined",
            ApplicationEvent::EndedRemoteHangupBusy => "EndedRemoteHangupBusy",
            ApplicationEvent::EndedRemoteBusy => "EndedRemoteBusy",
            ApplicationEvent::EndedRemoteGlare => "EndedRemoteGlare",
            ApplicationEvent::EndedTimeout => "EndedTimeout",
            ApplicationEvent::EndedInternalFailure => "EndedInternalFailure",
            ApplicationEvent::EndedSignalingFailure => "EndedSignalingFailure",
            ApplicationEvent::EndedConnectionFailure => "EndedConnectionFailure",
            ApplicationEvent::EndedAppDroppedCall => "EndedAppDroppedCall",
            ApplicationEvent::RemoteVideoEnable => "RemoteVideoEnable",
            ApplicationEvent::RemoteVideoDisable => "RemoteVideoDisable",
            ApplicationEvent::RemoteSharingScreenEnable => "RemoteSharingScreenEnable",
            ApplicationEvent::RemoteSharingScreenDisable => "RemoteSharingScreenDisable",
            ApplicationEvent::Reconnecting => "Reconnecting",
            ApplicationEvent::Reconnected => "Reconnected",
            ApplicationEvent::ReceivedOfferExpired => "ReceivedOfferExpired",
            ApplicationEvent::ReceivedOfferWhileActive => "ReceivedOfferWhileActive",
            ApplicationEvent::ReceivedOfferWithGlare => "ReceivedOfferWithGlare",
            ApplicationEvent::IgnoreCallsFromNonMultiringCallers => "IgnoreCallsFromNonMultiringCallers",
        };
        String::from_str(t)
    }
}

/// Tracks the state of one connection to a remote device.
#[derive(Clone, Copy, Debug, PartialEq, Eq, Hash, Structural)]
pub enum ConnectionState {
    /// The connection has been created but not started.
    NotYetStarted,
    /// The connection has been started, but the start method has not completed.
    /// After a connection is started, it will transition to either
    /// IceGathering (in the case of outgoing parent)
    /// or ConnectingBeforeAccepted (in the case of outgoing child or incoming)
    Starting,
    /// The connection is gathering and sending ICE candidates
    /// (only for outgoing parent).
    /// It has a local description but not a remote description.
    /// This can only transition to Terminating.
    IceGathering,
    /// ICE is attempting to connect, but has not yet.
    /// It has both the local and remote descriptions.
    /// This can transition to ConnectedBeforeAccepted or IceFailed
    ConnectingBeforeAccepted,
    /// ICE has connected, but the call hasn't been accepted yet.
    ConnectedBeforeAccepted,
    /// ICE failed to connect.
    IceFailed,
    /// The callee has accepted the call and the call is connected.
    ConnectedAndAccepted,
    /// ICE is disconnected/reconnecting after the call is accepted.
    ReconnectingAfterAccepted,
    /// The connection is in the process of terminating
    Terminating,
    /// The connection is completely terminated
    Terminated,
}

/// The text that names each variant.
pub open spec fn connection_state_text(x: ConnectionState) -> Seq<char> {
    match x {
        ConnectionState::NotYetStarted => "NotYetStarted"@,
        ConnectionState::Starting => "Starting"@,
        ConnectionState::IceGathering => "IceGathering"@,
        ConnectionState::ConnectingBeforeAccepted => "ConnectingBeforeAccepted"@,
        ConnectionState::ConnectedBeforeAccepted => "ConnectedBeforeAccepted"@,
        ConnectionState::IceFailed => "IceFailed"@,
        ConnectionState::ConnectedAndAccepted => "ConnectedAndAccepted"@,
        ConnectionState::ReconnectingAfterAccepted => "ReconnectingAfterAccepted"@,
        ConnectionState::Terminating => "Terminating"@,
        ConnectionState::Terminated => "Terminated"@,
    }
}

impl ConnectionState {
    /// The variant's name as text.
    pub fn to_string(&self) -> (r: String)
        ensures
            r@ == connection_state_text(*self),
    {
        let t = match self {
            ConnectionState::NotYetStarted => "NotYetStarted",
            ConnectionState::Starting => "Starting",
            ConnectionState::IceGathering => "IceGathering",
            ConnectionState::ConnectingBeforeAccepted => "ConnectingBeforeAccepted",
            ConnectionState::ConnectedBeforeAccepted => "ConnectedBeforeAccepted",
            ConnectionState::IceFailed => "IceFailed",
            ConnectionState::ConnectedAndAccepted => "ConnectedAndAccepted",
            ConnectionState::ReconnectingAfterAccepted => "ReconnectingAfterAccepted",
            ConnectionState::Terminating => "Terminating",
            ConnectionState::Terminated => "Terminated",
        };
        String::from_str(t)
    }
}

/// The call direction.
#[derive(Clone, Copy, Debug, PartialEq, Eq, Hash, Structural)]
pub enum CallDirection {
    /// Incoming call.
    InComing,
    /// Outgoing call.
    OutGoing,
}

/// The text that names each variant.
pub open spec fn call_direction_text(x: CallDirection) -> Seq<char> {
    match x {
        CallDirection::InComing => "InComing"@,
        CallDirection::OutGoing => "OutGoing"@,
    }
}

impl CallDirection {
    /// The stable integer that stands for the variant across a boundary.
    pub open spec fn spec_to_i32(self) -> i32 {
        match self {
            CallDirection::InComing => 0,
            CallDirection::OutGoing => 1,
        }
    }

    pub fn to_i32(self) -> (r: i32)
        ensures
            r == self.spec_to_i32(),
    {
        match self {
            CallDirection::InComing => 0,
            CallDirection::OutGoing => 1,
        }
    }

    /// The variant that `value` stands for, or an error for any other integer.
    pub fn from_i32(value: i32) -> (r: Result<Self, UnrecognizedDiscriminant>)
        ensures
            0 <= value < 2 ==> r is Ok && r->Ok_0.spec_to_i32() == value,
            !(0 <= value < 2) ==> r == Err::<Self, UnrecognizedDiscriminant>(UnrecognizedDiscriminant { value }),
    {
        match value {
            0 => Ok(CallDirection::InComing),
            1 => Ok(CallDirection::OutGoing),
            _ => Err(UnrecognizedDiscriminant { value }),
        }
    }

    /// The variant's name as text.
    pub fn to_string(&self) -> (r: String)
        ensures
            r@ == call_direction_text(*self),
    {
        let t = match self {
            CallDirection::InComing => "InComing",
            CallDirection::OutGoing => "OutGoing",
        };
        String::from_str(t)
    }
}

/// The supported feature level of the remote peer.
#[derive(Clone, Copy, Debug, PartialEq, Eq, Hash, Structural)]
pub enum FeatureLevel {
    /// Unspecified by remote, usually means a legacy/older protocol.
    Unspecified,
    /// Remote is multi-ring capable.
    MultiRing,
}

/// The text that names each variant.
pub open spec fn feature_level_text(x: FeatureLevel) -> Seq<char> {
    match x {
        FeatureLevel::Unspecified => "Unspecified"@,
        FeatureLevel::MultiRing => "MultiRing"@,
    }
}

impl FeatureLevel {
    /// The stable integer that stands for the variant across a boundary.
    pub open spec fn spec_to_i32(self) -> i32 {
        match self {
            FeatureLevel::Unspecified => 0,
            FeatureLevel::MultiRing => 1,
        }
    }

    pub fn to_i32(self) -> (r: i32)
        ensures
            r == self.spec_to_i32(),
    {
        match self {
            FeatureLevel::Unspecified => 0,
            FeatureLevel::MultiRing => 1,
        }
    }

    /// The variant that `value` stands for, or an error for any other integer.
    pub fn from_i32(value: i32) -> (r: Result<Self, UnrecognizedDiscriminant>)
        ensures
            0 <= value < 2 ==> r is Ok && r->Ok_0.spec_to_i32() == value,
            !(0 <= value < 2) ==> r == Err::<Self, UnrecognizedDiscriminant>(UnrecognizedDiscriminant { value }),
    {
        match value {
            0 => Ok(FeatureLevel::Unspecified),
            1 => Ok(FeatureLevel::MultiRing),
            _ => Err(UnrecognizedDiscriminant { value }),
        }
    }

    /// The variant's name as text.
    pub fn to_string(&self) -> (r: String)
        ensures
            r@ == feature_level_text(*self),
    {
        let t = match self {
            FeatureLevel::Unspecified => "Unspecified",
            FeatureLevel::MultiRing => "MultiRing",
        };
        String::from_str(t)
    }
}

/// Type of media for a call at time of origination.
#[derive(Clone, Copy, Debug, PartialEq, Eq, Hash, Structural)]
pub enum CallMediaType {
    /// Call should start as audio only.
    Audio,
    /// Call should start as audio/video.
    Video,
}

/// The text that names each variant.
pub open spec fn call_media_type_text(x: CallMediaType) -> Seq<char> {
    match x {
        CallMediaType::Audio => "Audio"@,
        CallMediaType::Video => "Video"@,
    }
}

impl CallMediaType {
    /// The stable integer that stands for the variant across a boundary.
    pub open spec fn spec_to_i32(self) -> i32 {
        match self {
            CallMediaType::Audio => 0,
            CallMediaType::Video => 1,
        }
    }

    pub fn to_i32(self) -> (r: i32)
        ensures
            r == self.spec_to_i32(),
    {
        match self {
            CallMediaType::Audio => 0,
            CallMediaType::Video => 1,
        }
    }

    /// The variant that `value` stands for, or an error for any other integer.
    pub fn from_i32(value: i32) -> (r: Result<Self, UnrecognizedDiscriminant>)
        ensures
            0 <= value < 2 ==> r is Ok && r->Ok_0.spec_to_i32() == value,
            !(0 <= value < 2) ==> r == Err::<Self, UnrecognizedDiscriminant>(UnrecognizedDiscriminant { value }),
    {
        match value {
            0 => Ok(CallMediaType::Audio),
            1 => Ok(CallMediaType::Video),
            _ => Err(UnrecognizedDiscriminant { value }),
        }
    }

    /// The variant's name as text.
    pub fn to_string(&self) -> (r: String)
        ensures
            r@ == call_media_type_text(*self),
    {
        let t = match self {
            CallMediaType::Audio => "Audio",
            CallMediaType::Video => "Video",
        };
        String::from_str(t)
    }
}

/// The HTTP method of an out-of-band signaling request.
#[derive(Clone, Copy, Debug, PartialEq, Eq, Hash, Structural)]
pub enum HttpMethod {
    Get,
    Put,
    Post,
    Delete,
}

/// The text that names each variant.
pub open spec fn http_method_text(x: HttpMethod) -> Seq<char> {
    match x {
        HttpMethod::Get => "Get"@,
        HttpMethod::Put => "Put"@,
        HttpMethod::Post => "Post"@,
        HttpMethod::Delete => "Delete"@,
    }
}

impl HttpMethod {
    /// The stable integer that stands for the variant across a boundary.
    pub open spec fn spec_to_i32(self) -> i32 {
        match self {
            HttpMethod::Get => 0,
            HttpMethod::Put => 1,
            HttpMethod::Post => 2,
            HttpMethod::Delete => 3,
        }
    }

    pub fn to_i32(self) -> (r: i32)
        ensures
            r == self.spec_to_i32(),
    {
        match self {
            HttpMethod::Get => 0,
            HttpMethod::Put => 1,
            HttpMethod::Post => 2,
            HttpMethod::Delete => 3,
        }
    }

    /// The variant's name as text.
    pub fn to_string(&self) -> (r: String)
        ensures
            r@ == http_method_text(*self),
    {
        let t = match self {
            HttpMethod::Get => "Get",
            HttpMethod::Put => "Put",
            HttpMethod::Post => "Post",
            HttpMethod::Delete => "Delete",
        };
        String::from_str(t)
    }
}

/// Components named in directional timing traces.
#[derive(Clone, Copy, Debug, PartialEq, Eq, Hash, Structural)]
pub enum RingBench {
    App,
    Cm,
    Call,
    Conn,
    WebRtc,
    Network,
}

/// The text that names each variant in a trace.
pub open spec fn ring_bench_text(x: RingBench) -> Seq<char> {
    match x {
        RingBench::App => "app"@,
        RingBench::Cm => "cm"@,
        RingBench::Call => "call"@,
        RingBench::Conn => "conn"@,
        RingBench::WebRtc => "rtc"@,
        RingBench::Network => "net"@,
    }
}

impl RingBench {
    /// The variant's name as text.
    pub fn to_string(&self) -> (r: String)
        ensures
            r@ == ring_bench_text(*self),
    {
        let t = match self {
            RingBench::App => "app",
            RingBench::Cm => "cm",
            RingBench::Call => "call",
            RingBench::Conn => "conn",
            RingBench::WebRtc => "rtc",
            RingBench::Network => "net",
        };
        String::from_str(t)
    }
}

/// A response to an out-of-band signaling request.
pub struct HttpResponse {
    pub status_code: u16,
    pub body: Vec<u8>,
}

} // verus!
