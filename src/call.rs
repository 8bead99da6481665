use vstd::prelude::*;
use crate::arbiter::{local_survives_glare, survives_glare};
use crate::call_id::{CallId, DeviceId};
use crate::connection::{connection_step, ConnectionInput, ConnectionRole};
use crate::events::{
    events_ordered, has_accepted, has_end, has_ringing, is_accepted, is_end_event, is_media_event,
    is_ringing, lemma_push_event, reconnect_nested, reconnect_open,
};
use crate::types::{ApplicationEvent, CallDirection, CallMediaType, CallState, ConnectionState, FeatureLevel};

verus! {

/// One connection attempt, to one device of the remote identity.
#[derive(Clone, Copy, Debug, PartialEq, Eq, Structural)]
pub struct Connection {
    pub device_id: DeviceId,
    pub state: ConnectionState,
}

/// A hangup to send to a device whose connection lost the race to accept.
#[derive(Clone, Copy, Debug, PartialEq, Eq, Structural)]
pub struct DeviceHangup {
    pub device_id: DeviceId,
    pub reason: ApplicationEvent,
}

/// The mathematical state of a call.
pub struct CallView {
    pub call_id: CallId,
    pub direction: CallDirection,
    pub media_type: CallMediaType,
    pub state: CallState,
    pub connections: Seq<Connection>,
    pub active_device: Option<DeviceId>,
    pub events: Seq<ApplicationEvent>,
    pub pending_end: Option<ApplicationEvent>,
}

/// Every connection of `c` is in state `s`.
pub open spec fn all_in(c: Seq<Connection>, s: ConnectionState) -> bool {
    forall|i: int| 0 <= i < c.len() ==> (#[trigger] c[i]).state == s
}

/// The connections of `c`, each moved to state `s`.
pub open spec fn all_set(c: Seq<Connection>, s: ConnectionState) -> Seq<Connection> {
    Seq::new(c.len(), |i: int| Connection { device_id: c[i].device_id, state: s })
}

/// Negotiation still in progress: it may yet connect or be accepted.
pub open spec fn is_live(s: ConnectionState) -> bool {
    s == ConnectionState::ConnectingBeforeAccepted || s == ConnectionState::ConnectedBeforeAccepted
}

pub open spec fn has_live(c: Seq<Connection>) -> bool {
    exists|i: int| 0 <= i < c.len() && is_live((#[trigger] c[i]).state)
}

/// Some connection of `c` is in state `s`.
pub open spec fn some_in(c: Seq<Connection>, s: ConnectionState) -> bool {
    exists|i: int| 0 <= i < c.len() && (#[trigger] c[i]).state == s
}

/// The one device `d` holds state `s`; every other connection is gone.
pub open spec fn bound_to(c: Seq<Connection>, d: DeviceId, s: ConnectionState) -> bool {
    &&& exists|i: int| 0 <= i < c.len() && (#[trigger] c[i]).device_id == d
    &&& forall|i: int|
        0 <= i < c.len() ==> (#[trigger] c[i]).state == (if c[i].device_id == d {
            s
        } else {
            ConnectionState::Terminated
        })
}

/// The combinations of call state and connection states that can be reached.
pub open spec fn consistent(
    state: CallState,
    c: Seq<Connection>,
    active: Option<DeviceId>,
) -> bool {
    match state {
        CallState::NotYetStarted | CallState::WaitingToProceed => active is None && all_in(
            c,
            ConnectionState::NotYetStarted,
        ),
        CallState::ConnectingBeforeAccepted => {
            &&& active is None
            &&& forall|i: int|
                0 <= i < c.len() ==> #[trigger] c[i].state == ConnectionState::ConnectingBeforeAccepted
                    || c[i].state == ConnectionState::IceFailed
            &&& has_live(c)
        },
        CallState::ConnectedBeforeAccepted => {
            &&& active is None
            &&& forall|i: int|
                0 <= i < c.len() ==> is_live(#[trigger] c[i].state) || c[i].state
                    == ConnectionState::IceFailed || c[i].state == ConnectionState::Terminating
            &&& some_in(c, ConnectionState::ConnectedBeforeAccepted)
        },
        CallState::ConnectedAndAccepted => active is Some && bound_to(
            c,
            active->0,
            ConnectionState::ConnectedAndAccepted,
        ),
        CallState::ReconnectingAfterAccepted => active is Some && bound_to(
            c,
            active->0,
            ConnectionState::ReconnectingAfterAccepted,
        ),
        CallState::Terminating => forall|i: int|
            0 <= i < c.len() ==> #[trigger] c[i].state == ConnectionState::Terminating || c[i].state
                == ConnectionState::Terminated,
        CallState::Terminated => all_in(c, ConnectionState::Terminated),
    }
}

/// States before the call has rung.
pub open spec fn before_ringing(s: CallState) -> bool {
    s == CallState::NotYetStarted || s == CallState::WaitingToProceed || s
        == CallState::ConnectingBeforeAccepted
}

/// States in which the call has been accepted and not yet ended.
pub open spec fn in_progress_accepted(s: CallState) -> bool {
    s == CallState::ConnectedAndAccepted || s == CallState::ReconnectingAfterAccepted
}

/// What the event log owes to the call state it was produced with.
pub open spec fn events_match_state(v: CallView) -> bool {
    &&& events_ordered(v.events)
    &&& before_ringing(v.state) ==> !has_ringing(v.events)
    &&& (v.state == CallState::ConnectedBeforeAccepted || in_progress_accepted(v.state))
        ==> has_ringing(v.events)
    &&& (before_ringing(v.state) || v.state == CallState::ConnectedBeforeAccepted) ==> !has_accepted(v.events)
    &&& in_progress_accepted(v.state) ==> has_accepted(v.events)
    &&& v.state != CallState::Terminated ==> !has_end(v.events)
    &&& v.state == CallState::Terminated ==> v.events.len() > 0 && is_end_event(v.events.last())
    &&& v.state == CallState::ReconnectingAfterAccepted ==> reconnect_open(v.events)
    &&& (before_ringing(v.state) || v.state == CallState::ConnectedBeforeAccepted || v.state
        == CallState::ConnectedAndAccepted) ==> !reconnect_open(v.events)
}

/// A well-formed call: device ids are unique, call and connection states agree,
/// and the event log is in order.
pub open spec fn call_view_ok(v: CallView) -> bool {
    &&& v.connections.len() > 0
    &&& forall|i: int, j: int|
        0 <= i < v.connections.len() && 0 <= j < v.connections.len() && i != j
            ==> #[trigger] v.connections[i].device_id != #[trigger] v.connections[j].device_id
    &&& consistent(v.state, v.connections, v.active_device)
    &&& (v.state == CallState::Terminating) == (v.pending_end is Some)
    &&& v.pending_end is Some ==> is_end_event(v.pending_end->0)
    &&& events_match_state(v)
}

/// The ringing event for a call in `direction`.
pub open spec fn ringing_event(direction: CallDirection) -> ApplicationEvent {
    if direction == CallDirection::OutGoing {
        ApplicationEvent::RemoteRinging
    } else {
        ApplicationEvent::LocalRinging
    }
}

/// The acceptance event for a call in `direction`.
pub open spec fn accepted_event(direction: CallDirection) -> ApplicationEvent {
    if direction == CallDirection::OutGoing {
        ApplicationEvent::RemoteAccepted
    } else {
        ApplicationEvent::LocalAccepted
    }
}

/// The view after teardown has begun for `reason`.
pub open spec fn terminating_view(v: CallView, reason: ApplicationEvent) -> CallView {
    CallView {
        state: CallState::Terminating,
        connections: teardown_connections(v.connections),
        pending_end: Some(reason),
        ..v
    }
}

/// The connections of `c` once teardown has begun: each that has not
/// terminated yet is terminating.
pub open spec fn teardown_connections(c: Seq<Connection>) -> Seq<Connection> {
    Seq::new(
        c.len(),
        |i: int|
            Connection {
                device_id: c[i].device_id,
                state: if c[i].state == ConnectionState::Terminated {
                    ConnectionState::Terminated
                } else {
                    ConnectionState::Terminating
                },
            },
    )
}

/// The connection to device `d` is in state `s`.
pub open spec fn device_in(c: Seq<Connection>, d: DeviceId, s: ConnectionState) -> bool {
    exists|i: int| 0 <= i < c.len() && (#[trigger] c[i]).device_id == d && c[i].state == s
}

/// One call: its connections, its state and the events it has delivered.
pub struct Call {
    call_id: CallId,
    direction: CallDirection,
    media_type: CallMediaType,
    state: CallState,
    connections: Vec<Connection>,
    active_device: Option<DeviceId>,
    events: Vec<ApplicationEvent>,
    pending_end: Option<ApplicationEvent>,
}

impl View for Call {
    type V = CallView;

    closed spec fn view(&self) -> CallView {
        CallView {
            call_id: self.call_id,
            direction: self.direction,
            media_type: self.media_type,
            state: self.state,
            connections: self.connections@,
            active_device: self.active_device,
            events: self.events@,
            pending_end: self.pending_end,
        }
    }
}

/// Moves every connection in `c` to state `s`.
fn set_all(c: &mut Vec<Connection>, s: ConnectionState)
    ensures
        final(c)@ == all_set(old(c)@, s),
{
    let n = c.len();
    let mut i: usize = 0;
    while i < n
        invariant
            n == c.len(),
            n == old(c)@.len(),
            0 <= i <= n,
            forall|j: int| 0 <= j < i ==> #[trigger] c@[j] == all_set(old(c)@, s)[j],
            forall|j: int| i <= j < n ==> #[trigger] c@[j] == old(c)@[j],
        decreases n - i,
    {
        let d = c[i].device_id;
        c.set(i, Connection { device_id: d, state: s });
        i += 1;
    }
    assert(c@ =~= all_set(old(c)@, s));
}

/// Begins teardown of every connection that has not terminated yet.
fn begin_teardown(c: &mut Vec<Connection>)
    ensures
        final(c)@ == teardown_connections(old(c)@),
{
    let n = c.len();
    let mut i: usize = 0;
    while i < n
        invariant
            n == c.len(),
            n == old(c)@.len(),
            0 <= i <= n,
            forall|j: int| 0 <= j < i ==> #[trigger] c@[j] == teardown_connections(old(c)@)[j],
            forall|j: int| i <= j < n ==> #[trigger] c@[j] == old(c)@[j],
        decreases n - i,
    {
        let x = c[i];
        if x.state != ConnectionState::Terminated {
            c.set(i, Connection { device_id: x.device_id, state: ConnectionState::Terminating });
        }
        i += 1;
    }
    assert(c@ =~= teardown_connections(old(c)@));
}

/// Position of the connection to device `d`.
fn find_device(c: &Vec<Connection>, d: DeviceId) -> (r: Option<usize>)
    ensures
        r is Some ==> r->0 < c@.len() && c@[r->0 as int].device_id == d,
        r is None ==> forall|i: int| 0 <= i < c@.len() ==> (#[trigger] c@[i]).device_id != d,
{
    let mut i: usize = 0;
    while i < c.len()
        invariant
            0 <= i <= c@.len(),
            forall|j: int| 0 <= j < i ==> (#[trigger] c@[j]).device_id != d,
        decreases c@.len() - i,
    {
        if c[i].device_id == d {
            return Some(i);
        }
        i += 1;
    }
    None
}

/// Whether any connection in `c` is in state `s`.
fn any_in(c: &Vec<Connection>, s: ConnectionState) -> (r: bool)
    ensures
        r == some_in(c@, s),
{
    let mut i: usize = 0;
    while i < c.len()
        invariant
            0 <= i <= c@.len(),
            forall|j: int| 0 <= j < i ==> (#[trigger] c@[j]).state != s,
        decreases c@.len() - i,
    {
        if c[i].state == s {
            return true;
        }
        i += 1;
    }
    false
}

/// Whether any connection in `c` is still negotiating.
fn any_live(c: &Vec<Connection>) -> (r: bool)
    ensures
        r == has_live(c@),
{
    let mut i: usize = 0;
    while i < c.len()
        invariant
            0 <= i <= c@.len(),
            forall|j: int| 0 <= j < i ==> !is_live((#[trigger] c@[j]).state),
        decreases c@.len() - i,
    {
        let s = c[i].state;
        if s == ConnectionState::ConnectingBeforeAccepted || s == ConnectionState::ConnectedBeforeAccepted {
            return true;
        }
        i += 1;
    }
    false
}

/// The connections of `c`, with the one to device `d` moved to state `s`.
pub open spec fn with_device_state(c: Seq<Connection>, d: DeviceId, s: ConnectionState) -> Seq<
    Connection,
> {
    Seq::new(
        c.len(),
        |i: int|
            if c[i].device_id == d {
                Connection { device_id: d, state: s }
            } else {
                c[i]
            },
    )
}

/// Moves the connection to device `d` to state `s`.
fn set_device_state(c: &mut Vec<Connection>, d: DeviceId, s: ConnectionState)
    ensures
        final(c)@ == with_device_state(old(c)@, d, s),
{
    let n = c.len();
    let mut i: usize = 0;
    while i < n
        invariant
            n == c.len(),
            n == old(c)@.len(),
            0 <= i <= n,
            forall|j: int| 0 <= j < i ==> #[trigger] c@[j] == with_device_state(old(c)@, d, s)[j],
            forall|j: int| i <= j < n ==> #[trigger] c@[j] == old(c)@[j],
        decreases n - i,
    {
        if c[i].device_id == d {
            c.set(i, Connection { device_id: d, state: s });
        }
        i += 1;
    }
    assert(c@ =~= with_device_state(old(c)@, d, s));
}

/// The connections of a new call to `devices`.
pub open spec fn fresh_connections(devices: Seq<DeviceId>) -> Seq<Connection> {
    Seq::new(
        devices.len(),
        |i: int| Connection { device_id: devices[i], state: ConnectionState::NotYetStarted },
    )
}

/// The view of a call that has just been created.
pub open spec fn fresh_view(
    call_id: CallId,
    direction: CallDirection,
    media_type: CallMediaType,
    devices: Seq<DeviceId>,
) -> CallView {
    CallView {
        call_id,
        direction,
        media_type,
        state: CallState::NotYetStarted,
        connections: fresh_connections(devices),
        active_device: None,
        events: Seq::empty(),
        pending_end: None,
    }
}

/// Whether an offer from a remote of `feature_level` is refused on this device.
pub open spec fn ignores_offer(feature_level: FeatureLevel, linked_device: bool) -> bool {
    linked_device && feature_level == FeatureLevel::Unspecified
}

impl Call {
    pub open spec fn wf(&self) -> bool {
        call_view_ok(self@)
    }

    proof fn lemma_fresh_ok(&self)
        requires
            self@.connections.len() > 0,
            forall|i: int, j: int|
                0 <= i < self@.connections.len() && 0 <= j < self@.connections.len() && i != j
                    ==> #[trigger] self@.connections[i].device_id
                    != #[trigger] self@.connections[j].device_id,
            self@.state == CallState::NotYetStarted,
            all_in(self@.connections, ConnectionState::NotYetStarted),
            self@.active_device is None,
            self@.events.len() == 0,
            self@.pending_end is None,
        ensures
            self.wf(),
    {
        let e = self@.events;
        assert(!has_ringing(e));
        assert(!has_accepted(e));
        assert(!has_end(e));
        assert(reconnect_nested(e));
        assert(!reconnect_open(e));
    }

    /// An outgoing call that will ring every device in `devices`.
    pub fn new_outgoing(call_id: CallId, media_type: CallMediaType, devices: &Vec<DeviceId>) -> (r:
        Call)
        requires
            devices@.len() > 0,
            devices@.no_duplicates(),
        ensures
            r@ == fresh_view(call_id, CallDirection::OutGoing, media_type, devices@),
            r.wf(),
    {
        let mut connections: Vec<Connection> = Vec::new();
        let mut i: usize = 0;
        while i < devices.len()
            invariant
                0 <= i <= devices@.len(),
                connections@ == fresh_connections(devices@.subrange(0, i as int)),
            decreases devices@.len() - i,
        {
            connections.push(
                Connection { device_id: devices[i], state: ConnectionState::NotYetStarted },
            );
            i += 1;
            assert(connections@ =~= fresh_connections(devices@.subrange(0, i as int)));
        }
        assert(devices@.subrange(0, devices@.len() as int) =~= devices@);
        let r = Call {
            call_id,
            direction: CallDirection::OutGoing,
            media_type,
            state: CallState::NotYetStarted,
            connections,
            active_device: None,
            events: Vec::new(),
            pending_end: None,
        };
        assert(r@ =~= fresh_view(call_id, CallDirection::OutGoing, media_type, devices@));
        proof {
            r.lemma_fresh_ok();
        }
        r
    }

    /// An incoming call offered from `device_id`; refused, and reported with
    /// `IgnoreCallsFromNonMultiringCallers`, where this is a linked device and
    /// the caller cannot ring several devices.
    pub fn new_incoming(
        call_id: CallId,
        device_id: DeviceId,
        media_type: CallMediaType,
        feature_level: FeatureLevel,
        linked_device: bool,
    ) -> (r: Result<Call, ApplicationEvent>)
        ensures
            ignores_offer(feature_level, linked_device) ==> r == Err::<Call, ApplicationEvent>(
                ApplicationEvent::IgnoreCallsFromNonMultiringCallers,
            ),
            !ignores_offer(feature_level, linked_device) ==> r is Ok && r->Ok_0@ == fresh_view(
                call_id,
                CallDirection::InComing,
                media_type,
                seq![device_id],
            ) && r->Ok_0.wf(),
    {
        if linked_device && feature_level == FeatureLevel::Unspecified {
            return Err(ApplicationEvent::IgnoreCallsFromNonMultiringCallers);
        }
        let mut connections: Vec<Connection> = Vec::new();
        connections.push(Connection { device_id, state: ConnectionState::NotYetStarted });
        assert(connections@ =~= fresh_connections(seq![device_id]));
        let r = Call {
            call_id,
            direction: CallDirection::InComing,
            media_type,
            state: CallState::NotYetStarted,
            connections,
            active_device: None,
            events: Vec::new(),
            pending_end: None,
        };
        assert(r@ =~= fresh_view(call_id, CallDirection::InComing, media_type, seq![device_id]));
        proof {
            r.lemma_fresh_ok();
        }
        Ok(r)
    }

    pub fn call_id(&self) -> (r: CallId)
        ensures
            r == self@.call_id,
    {
        self.call_id
    }

    pub fn direction(&self) -> (r: CallDirection)
        ensures
            r == self@.direction,
    {
        self.direction
    }

    pub fn media_type(&self) -> (r: CallMediaType)
        ensures
            r == self@.media_type,
    {
        self.media_type
    }

    pub fn state(&self) -> (r: CallState)
        ensures
            r == self@.state,
    {
        self.state
    }

    pub fn active_device(&self) -> (r: Option<DeviceId>)
        ensures
            r == self@.active_device,
    {
        self.active_device
    }

    /// The events delivered so far, oldest first.
    pub fn events(&self) -> (r: &Vec<ApplicationEvent>)
        ensures
            r@ == self@.events,
    {
        &self.events
    }

    pub fn connections(&self) -> (r: &Vec<Connection>)
        ensures
            r@ == self@.connections,
    {
        &self.connections
    }

    /// The state of the connection to device `d`, if the call has one.
    pub fn connection_state(&self, d: DeviceId) -> (r: Option<ConnectionState>)
        requires
            self.wf(),
        ensures
            r is None <==> forall|i: int|
                0 <= i < self@.connections.len() ==> (#[trigger] self@.connections[i]).device_id != d,
            r is Some ==> device_in(self@.connections, d, r->0),
    {
        match find_device(&self.connections, d) {
            Some(i) => Some(self.connections[i].state),
            None => None,
        }
    }

    /// Local initiation, or receipt of the offer: the call waits for the
    /// application to proceed.
    pub fn start(&mut self)
        requires
            old(self).wf(),
        ensures
            final(self).wf(),
            old(self)@.state == CallState::Terminated ==> final(self)@ == old(self)@,
            old(self)@.state == CallState::NotYetStarted ==> final(self)@ == (CallView {
                state: CallState::WaitingToProceed,
                ..old(self)@
            }),
            old(self)@.state != CallState::NotYetStarted ==> final(self)@ == old(self)@,
    {
        if self.state == CallState::NotYetStarted {
            self.state = CallState::WaitingToProceed;
        }
    }

    /// The application lets the call proceed: every connection starts
    /// negotiating; nothing rings yet.
    pub fn proceed(&mut self)
        requires
            old(self).wf(),
        ensures
            final(self).wf(),
            old(self)@.state == CallState::Terminated ==> final(self)@ == old(self)@,
            old(self)@.state == CallState::WaitingToProceed ==> final(self)@ == (CallView {
                state: CallState::ConnectingBeforeAccepted,
                connections: all_set(old(self)@.connections, ConnectionState::ConnectingBeforeAccepted),
                ..old(self)@
            }),
            old(self)@.state != CallState::WaitingToProceed ==> final(self)@ == old(self)@,
    {
        if self.state == CallState::WaitingToProceed {
            set_all(&mut self.connections, ConnectionState::Starting);
            set_all(&mut self.connections, ConnectionState::ConnectingBeforeAccepted);
            self.state = CallState::ConnectingBeforeAccepted;
            proof {
                assert(all_set(all_set(old(self)@.connections, ConnectionState::Starting), ConnectionState::ConnectingBeforeAccepted)
                    =~= all_set(old(self)@.connections, ConnectionState::ConnectingBeforeAccepted));
                assert(is_live(self@.connections[0].state));
            }
        }
    }

    /// Begins teardown for `reason`.
    fn begin_termination(&mut self, reason: ApplicationEvent)
        requires
            old(self).wf(),
            is_end_event(reason),
            old(self)@.state != CallState::Terminating,
            old(self)@.state != CallState::Terminated,
        ensures
            final(self)@ == terminating_view(old(self)@, reason),
            final(self).wf(),
    {
        begin_teardown(&mut self.connections);
        self.state = CallState::Terminating;
        self.pending_end = Some(reason);
        proof {
            assert(self@ =~= terminating_view(old(self)@, reason));
        }
    }

    /// Ends the call for `reason` (a hangup, a failure, a drop by the
    /// application) from any state that has not begun teardown.
    pub fn terminate(&mut self, reason: ApplicationEvent)
        requires
            old(self).wf(),
            is_end_event(reason),
        ensures
            final(self).wf(),
            old(self)@.state == CallState::Terminated ==> final(self)@ == old(self)@,
            old(self)@.state != CallState::Terminating && old(self)@.state != CallState::Terminated
                ==> final(self)@ == terminating_view(old(self)@, reason),
            old(self)@.state == CallState::Terminating || old(self)@.state == CallState::Terminated
                ==> final(self)@ == old(self)@,
    {
        if self.state != CallState::Terminating && self.state != CallState::Terminated {
            self.begin_termination(reason);
        }
    }

    /// Teardown has completed: the ending event is delivered, last of all.
    pub fn finish_termination(&mut self)
        requires
            old(self).wf(),
        ensures
            final(self).wf(),
            old(self)@.state == CallState::Terminated ==> final(self)@ == old(self)@,
            old(self)@.state == CallState::Terminating ==> final(self)@ == (CallView {
                state: CallState::Terminated,
                connections: all_set(old(self)@.connections, ConnectionState::Terminated),
                events: old(self)@.events.push(old(self)@.pending_end->0),
                pending_end: None,
                ..old(self)@
            }),
            old(self)@.state != CallState::Terminating ==> final(self)@ == old(self)@,
    {
        if self.state == CallState::Terminating {
            match self.pending_end {
                Some(e) => {
                    proof {
                        lemma_push_event(self@.events, e);
                    }
                    set_all(&mut self.connections, ConnectionState::Terminated);
                    self.events.push(e);
                    self.state = CallState::Terminated;
                    self.pending_end = None;
                },
                None => {},
            }
        }
    }

    /// The connection to device `d` reports a low-level connection. The first
    /// one to do so before acceptance makes the call ring.
    pub fn on_connection_connected(&mut self, d: DeviceId)
        requires
            old(self).wf(),
        ensures
            final(self).wf(),
            old(self)@.state == CallState::Terminated ==> final(self)@ == old(self)@,
            old(self)@.state == CallState::ConnectingBeforeAccepted && device_in(
                old(self)@.connections,
                d,
                ConnectionState::ConnectingBeforeAccepted,
            ) ==> final(self)@ == (CallView {
                state: CallState::ConnectedBeforeAccepted,
                connections: with_device_state(
                    old(self)@.connections,
                    d,
                    ConnectionState::ConnectedBeforeAccepted,
                ),
                events: old(self)@.events.push(ringing_event(old(self)@.direction)),
                ..old(self)@
            }),
            old(self)@.state == CallState::ConnectedBeforeAccepted && device_in(
                old(self)@.connections,
                d,
                ConnectionState::ConnectingBeforeAccepted,
            ) ==> final(self)@ == (CallView {
                connections: with_device_state(
                    old(self)@.connections,
                    d,
                    ConnectionState::ConnectedBeforeAccepted,
                ),
                ..old(self)@
            }),
            !((old(self)@.state == CallState::ConnectingBeforeAccepted || old(self)@.state
                == CallState::ConnectedBeforeAccepted) && device_in(
                old(self)@.connections,
                d,
                ConnectionState::ConnectingBeforeAccepted,
            )) ==> final(self)@ == old(self)@,
    {
        if self.state != CallState::ConnectingBeforeAccepted && self.state
            != CallState::ConnectedBeforeAccepted {
            return;
        }
        let i = match find_device(&self.connections, d) {
            Some(i) => i,
            None => {
                return;
            },
        };
        if self.connections[i].state != ConnectionState::ConnectingBeforeAccepted {
            proof {
                assert forall|j: int|
                    0 <= j < self@.connections.len() && (#[trigger] self@.connections[j]).device_id
                        == d implies self@.connections[j].state
                    != ConnectionState::ConnectingBeforeAccepted by {
                    assert(j == i);
                }
            }
            return;
        }
        let ghost c0 = self@.connections;
        set_device_state(&mut self.connections, d, ConnectionState::ConnectedBeforeAccepted);
        proof {
            let c1 = self@.connections;
            assert(c1[i as int].state == ConnectionState::ConnectedBeforeAccepted);
            assert(is_live(c1[i as int].state));
            assert(forall|j: int| 0 <= j < c1.len() ==> #[trigger] c1[j].device_id == c0[j].device_id);
        }
        if self.state == CallState::ConnectingBeforeAccepted {
            let e = if self.direction == CallDirection::OutGoing {
                ApplicationEvent::RemoteRinging
            } else {
                ApplicationEvent::LocalRinging
            };
            proof {
                lemma_push_event(self@.events, e);
            }
            self.events.push(e);
            self.state = CallState::ConnectedBeforeAccepted;
        }
    }

    /// The connection to device `d` failed. A connection still negotiating
    /// becomes `IceFailed`; a connection that had connected, before
    /// acceptance, is torn down. The call ends with `EndedConnectionFailure`
    /// when no connection is left to carry it: none negotiating before the
    /// call rang, none connected once it has rung, or the accepted one.
    pub fn on_connection_failed(&mut self, d: DeviceId)
        requires
            old(self).wf(),
        ensures
            final(self).wf(),
            old(self)@.state == CallState::Terminated ==> final(self)@ == old(self)@,
            fails_negotiating(old(self)@, d) ==> final(self)@ == if has_live(
                with_device_state(old(self)@.connections, d, ConnectionState::IceFailed),
            ) {
                CallView {
                    connections: with_device_state(
                        old(self)@.connections,
                        d,
                        ConnectionState::IceFailed,
                    ),
                    ..old(self)@
                }
            } else {
                terminating_view(old(self)@, ApplicationEvent::EndedConnectionFailure)
            },
            fails_connected(old(self)@, d) ==> final(self)@ == if some_in(
                with_device_state(old(self)@.connections, d, ConnectionState::Terminating),
                ConnectionState::ConnectedBeforeAccepted,
            ) {
                CallView {
                    connections: with_device_state(
                        old(self)@.connections,
                        d,
                        ConnectionState::Terminating,
                    ),
                    ..old(self)@
                }
            } else {
                terminating_view(old(self)@, ApplicationEvent::EndedConnectionFailure)
            },
            in_progress_accepted(old(self)@.state) && old(self)@.active_device == Some(d)
                ==> final(self)@ == terminating_view(
                old(self)@,
                ApplicationEvent::EndedConnectionFailure,
            ),
            !fails_negotiating(old(self)@, d) && !fails_connected(old(self)@, d) && !(
            in_progress_accepted(old(self)@.state) && old(self)@.active_device == Some(d))
                ==> final(self)@ == old(self)@,
    {
        if self.state == CallState::ConnectedAndAccepted || self.state
            == CallState::ReconnectingAfterAccepted {
            if self.active_device == Some(d) {
                self.begin_termination(ApplicationEvent::EndedConnectionFailure);
            }
            return;
        }
        if self.state != CallState::ConnectingBeforeAccepted && self.state
            != CallState::ConnectedBeforeAccepted {
            return;
        }
        let i = match find_device(&self.connections, d) {
            Some(i) => i,
            None => {
                return;
            },
        };
        let s = self.connections[i].state;
        proof {
            assert forall|j: int|
                0 <= j < self@.connections.len() && (#[trigger] self@.connections[j]).device_id
                    == d implies j == i by {}
        }
        if s == ConnectionState::ConnectingBeforeAccepted {
            let ghost v0 = self@;
            set_device_state(&mut self.connections, d, ConnectionState::IceFailed);
            proof {
                let c1 = self@.connections;
                assert(forall|j: int| 0 <= j < c1.len() && j != i ==> #[trigger] c1[j] == v0.connections[j]);
                if v0.state == CallState::ConnectedBeforeAccepted {
                    let k = choose|k: int| 0 <= k < v0.connections.len() && (#[trigger] v0.connections[k]).state == ConnectionState::ConnectedBeforeAccepted;
                    assert(c1[k] == v0.connections[k]);
                    assert(is_live(c1[k].state));
                }
            }
            if !any_live(&self.connections) {
                let ghost v1 = self@;
                begin_teardown(&mut self.connections);
                self.state = CallState::Terminating;
                self.pending_end = Some(ApplicationEvent::EndedConnectionFailure);
                proof {
                    assert(teardown_connections(v1.connections) =~= teardown_connections(v0.connections));
                    assert(self@ =~= terminating_view(v0, ApplicationEvent::EndedConnectionFailure));
                }
            }
        } else if s == ConnectionState::ConnectedBeforeAccepted && self.state
            == CallState::ConnectedBeforeAccepted {
            let ghost v0 = self@;
            set_device_state(&mut self.connections, d, ConnectionState::Terminating);
            proof {
                let c1 = self@.connections;
                assert(forall|j: int| 0 <= j < c1.len() && j != i ==> #[trigger] c1[j] == v0.connections[j]);
                assert(c1[i as int].state == ConnectionState::Terminating);
            }
            if !any_in(&self.connections, ConnectionState::ConnectedBeforeAccepted) {
                let ghost v1 = self@;
                begin_teardown(&mut self.connections);
                self.state = CallState::Terminating;
                self.pending_end = Some(ApplicationEvent::EndedConnectionFailure);
                proof {
                    assert(teardown_connections(v1.connections) =~= teardown_connections(v0.connections));
                    assert(self@ =~= terminating_view(v0, ApplicationEvent::EndedConnectionFailure));
                }
            } else {
                proof {
                    let c1 = self@.connections;
                    let k = choose|k: int| 0 <= k < c1.len() && (#[trigger] c1[k]).state == ConnectionState::ConnectedBeforeAccepted;
                    assert(is_live(c1[k].state));
                }
            }
        } else {
            proof {
                assert(s == ConnectionState::ConnectedBeforeAccepted ==> self@.state
                    == CallState::ConnectingBeforeAccepted);
            }
        }
    }

    /// Device `d` accepted first: its connection carries the call and every
    /// other connection is torn down. Returns the hangups to send to the
    /// devices that were still negotiating, each with `EndedRemoteHangupAccepted`.
    pub fn accept(&mut self, d: DeviceId) -> (r: Vec<DeviceHangup>)
        requires
            old(self).wf(),
        ensures
            final(self).wf(),
            old(self)@.state == CallState::Terminated ==> final(self)@ == old(self)@,
            accept_applies(old(self)@, d) ==> final(self)@ == (CallView {
                state: CallState::ConnectedAndAccepted,
                connections: accepted_connections(old(self)@.connections, d),
                active_device: Some(d),
                events: old(self)@.events.push(accepted_event(old(self)@.direction)),
                ..old(self)@
            }) && r@ == losing_hangups(old(self)@.connections, d),
            !accept_applies(old(self)@, d) ==> final(self)@ == old(self)@ && r@.len() == 0,
    {
        let mut hangups: Vec<DeviceHangup> = Vec::new();
        if self.state != CallState::ConnectedBeforeAccepted {
            return hangups;
        }
        let k = match find_device(&self.connections, d) {
            Some(k) => k,
            None => {
                return hangups;
            },
        };
        if self.connections[k].state != ConnectionState::ConnectedBeforeAccepted {
            proof {
                assert forall|j: int|
                    0 <= j < self@.connections.len() && (#[trigger] self@.connections[j]).device_id
                        == d implies self@.connections[j].state
                    != ConnectionState::ConnectedBeforeAccepted by {
                    assert(j == k);
                }
            }
            return hangups;
        }
        let ghost c0 = self@.connections;
        let n = self.connections.len();
        let mut i: usize = 0;
        while i < n
            invariant
                n == self.connections@.len(),
                n == c0.len(),
                0 <= i <= n,
                forall|j: int|
                    0 <= j < i ==> #[trigger] self.connections@[j] == accepted_connections(c0, d)[j],
                forall|j: int| i <= j < n ==> #[trigger] self.connections@[j] == c0[j],
                hangups@ == losing_hangups(c0.subrange(0, i as int), d),
                self@.events == old(self)@.events,
                self@.state == old(self)@.state,
                self@.direction == old(self)@.direction,
                self@.call_id == old(self)@.call_id,
                self@.media_type == old(self)@.media_type,
                self@.active_device == old(self)@.active_device,
                self@.pending_end == old(self)@.pending_end,
            decreases n - i,
        {
            let c = self.connections[i];
            proof {
                assert(c0.subrange(0, i + 1).drop_last() =~= c0.subrange(0, i as int));
            }
            if c.device_id == d {
                self.connections.set(
                    i,
                    Connection { device_id: d, state: ConnectionState::ConnectedAndAccepted },
                );
            } else {
                if c.state == ConnectionState::ConnectingBeforeAccepted || c.state
                    == ConnectionState::ConnectedBeforeAccepted {
                    hangups.push(
                        DeviceHangup {
                            device_id: c.device_id,
                            reason: ApplicationEvent::EndedRemoteHangupAccepted,
                        },
                    );
                }
                self.connections.set(
                    i,
                    Connection { device_id: c.device_id, state: ConnectionState::Terminated },
                );
            }
            i += 1;
        }
        proof {
            assert(self.connections@ =~= accepted_connections(c0, d));
            assert(c0.subrange(0, n as int) =~= c0);
            assert(self.connections@[k as int].device_id == d);
        }
        let e = if self.direction == CallDirection::OutGoing {
            ApplicationEvent::RemoteAccepted
        } else {
            ApplicationEvent::LocalAccepted
        };
        proof {
            lemma_push_event(self@.events, e);
        }
        self.events.push(e);
        self.state = CallState::ConnectedAndAccepted;
        self.active_device = Some(d);
        hangups
    }

    /// The accepted connection lost its transport: the call is kept while it
    /// tries to recover.
    pub fn on_transport_lost(&mut self)
        requires
            old(self).wf(),
        ensures
            final(self).wf(),
            old(self)@.state == CallState::Terminated ==> final(self)@ == old(self)@,
            old(self)@.state == CallState::ConnectedAndAccepted ==> final(self)@ == (CallView {
                state: CallState::ReconnectingAfterAccepted,
                connections: with_device_state(
                    old(self)@.connections,
                    old(self)@.active_device->0,
                    ConnectionState::ReconnectingAfterAccepted,
                ),
                events: old(self)@.events.push(ApplicationEvent::Reconnecting),
                ..old(self)@
            }),
            old(self)@.state != CallState::ConnectedAndAccepted ==> final(self)@ == old(self)@,
    {
        if self.state == CallState::ConnectedAndAccepted {
            match self.active_device {
                Some(d) => {
                    proof {
                        lemma_rebind(self@.connections, d, ConnectionState::ConnectedAndAccepted, ConnectionState::ReconnectingAfterAccepted);
                    }
                    set_device_state(
                        &mut self.connections,
                        d,
                        ConnectionState::ReconnectingAfterAccepted,
                    );
                    proof {
                        lemma_push_event(self@.events, ApplicationEvent::Reconnecting);
                    }
                    self.events.push(ApplicationEvent::Reconnecting);
                    self.state = CallState::ReconnectingAfterAccepted;
                },
                None => {},
            }
        }
    }

    /// The transport of the accepted connection recovered.
    pub fn on_transport_recovered(&mut self)
        requires
            old(self).wf(),
        ensures
            final(self).wf(),
            old(self)@.state == CallState::Terminated ==> final(self)@ == old(self)@,
            old(self)@.state == CallState::ReconnectingAfterAccepted ==> final(self)@ == (
            CallView {
                state: CallState::ConnectedAndAccepted,
                connections: with_device_state(
                    old(self)@.connections,
                    old(self)@.active_device->0,
                    ConnectionState::ConnectedAndAccepted,
                ),
                events: old(self)@.events.push(ApplicationEvent::Reconnected),
                ..old(self)@
            }),
            old(self)@.state != CallState::ReconnectingAfterAccepted ==> final(self)@ == old(
                self,
            )@,
    {
        if self.state == CallState::ReconnectingAfterAccepted {
            match self.active_device {
                Some(d) => {
                    proof {
                        lemma_rebind(self@.connections, d, ConnectionState::ReconnectingAfterAccepted, ConnectionState::ConnectedAndAccepted);
                    }
                    set_device_state(&mut self.connections, d, ConnectionState::ConnectedAndAccepted);
                    proof {
                        lemma_push_event(self@.events, ApplicationEvent::Reconnected);
                    }
                    self.events.push(ApplicationEvent::Reconnected);
                    self.state = CallState::ConnectedAndAccepted;
                },
                None => {},
            }
        }
    }

    /// The setup or reconnect timer expired: the call ends with `EndedTimeout`
    /// where it was still setting up or reconnecting.
    pub fn on_timeout(&mut self)
        requires
            old(self).wf(),
        ensures
            final(self).wf(),
            old(self)@.state == CallState::Terminated ==> final(self)@ == old(self)@,
            times_out(old(self)@.state) ==> final(self)@ == terminating_view(
                old(self)@,
                ApplicationEvent::EndedTimeout,
            ),
            !times_out(old(self)@.state) ==> final(self)@ == old(self)@,
    {
        if self.state == CallState::WaitingToProceed || self.state
            == CallState::ConnectingBeforeAccepted || self.state
            == CallState::ConnectedBeforeAccepted || self.state
            == CallState::ReconnectingAfterAccepted {
            self.begin_termination(ApplicationEvent::EndedTimeout);
        }
    }

    /// A crossing offer arrived from the remote call `remote`; the priority
    /// tokens are those of this call's identity and of the remote's. An
    /// unanswered outgoing call that loses the tie-break ends with
    /// `EndedRemoteGlare`; otherwise nothing changes.
    pub fn on_glare(&mut self, remote: CallId, local_priority: u64, remote_priority: u64)
        requires
            old(self).wf(),
        ensures
            final(self).wf(),
            old(self)@.state == CallState::Terminated ==> final(self)@ == old(self)@,
            loses_glare(old(self)@, local_priority, remote, remote_priority) ==> final(self)@ == terminating_view(
                old(self)@,
                ApplicationEvent::EndedRemoteGlare,
            ),
            !loses_glare(old(self)@, local_priority, remote, remote_priority) ==> final(self)@ == old(self)@,
    {
        if self.direction == CallDirection::OutGoing && (self.state
            == CallState::WaitingToProceed || self.state == CallState::ConnectingBeforeAccepted
            || self.state == CallState::ConnectedBeforeAccepted) && !local_survives_glare(
            self.call_id,
            local_priority,
            remote,
            remote_priority,
        ) {
            self.begin_termination(ApplicationEvent::EndedRemoteGlare);
        }
    }

    /// The remote toggled video or screen sharing; delivered only while the
    /// call is accepted and not ended.
    pub fn on_remote_media(&mut self, e: ApplicationEvent)
        requires
            old(self).wf(),
            is_media_event(e),
        ensures
            final(self).wf(),
            old(self)@.state == CallState::Terminated ==> final(self)@ == old(self)@,
            in_progress_accepted(old(self)@.state) ==> final(self)@ == (CallView {
                events: old(self)@.events.push(e),
                ..old(self)@
            }),
            !in_progress_accepted(old(self)@.state) ==> final(self)@ == old(self)@,
    {
        if self.state == CallState::ConnectedAndAccepted || self.state
            == CallState::ReconnectingAfterAccepted {
            proof {
                lemma_push_event(self@.events, e);
            }
            self.events.push(e);
        }
    }
}

/// The connections after device `d` accepted: it alone stays.
pub open spec fn accepted_connections(c: Seq<Connection>, d: DeviceId) -> Seq<Connection> {
    Seq::new(
        c.len(),
        |i: int|
            Connection {
                device_id: c[i].device_id,
                state: if c[i].device_id == d {
                    ConnectionState::ConnectedAndAccepted
                } else {
                    ConnectionState::Terminated
                },
            },
    )
}

/// The hangups owed, in connection order, to the devices other than `d` that
/// were still negotiating when `d` accepted.
pub open spec fn losing_hangups(c: Seq<Connection>, d: DeviceId) -> Seq<DeviceHangup>
    decreases c.len(),
{
    if c.len() == 0 {
        Seq::empty()
    } else {
        losing_hangups(c.drop_last(), d) + if c.last().device_id != d && is_live(c.last().state) {
            seq![
                DeviceHangup {
                    device_id: c.last().device_id,
                    reason: ApplicationEvent::EndedRemoteHangupAccepted,
                },
            ]
        } else {
            Seq::empty()
        }
    }
}

/// Every reachable call is in one of the valid combinations of call state
/// and connection states, with one connection per device.
pub proof fn reachable_states_consistent(c: &Call)
    requires
        c.wf(),
    ensures
        consistent(c@.state, c@.connections, c@.active_device),
        forall|i: int, j: int|
            0 <= i < c@.connections.len() && 0 <= j < c@.connections.len() && i != j
                ==> #[trigger] c@.connections[i].device_id != #[trigger] c@.connections[j].device_id,
{
}

/// Ringing is delivered only once a connection has connected (a ringing call
/// holds a connected connection; before it rings, none has connected), at
/// most once, and before any acceptance; acceptance is delivered only after ringing; the
/// ending event, once delivered, is the last one.
pub proof fn events_keep_order(c: &Call)
    requires
        c.wf(),
    ensures
        has_ringing(c@.events) ==> !before_ringing(c@.state),
        forall|i: int|
            0 <= i < c@.events.len() && is_accepted(#[trigger] c@.events[i]) ==> exists|j: int|
                0 <= j < i && is_ringing(#[trigger] c@.events[j]),
        forall|i: int, j: int|
            0 <= i < j < c@.events.len() && is_accepted(#[trigger] c@.events[i]) ==> !is_ringing(
                #[trigger] c@.events[j],
            ),
        forall|i: int|
            0 <= i < c@.events.len() && is_end_event(#[trigger] c@.events[i]) ==> i == c@.events.len()
                - 1,
        c@.state == CallState::Terminated ==> is_end_event(c@.events.last()),
        c@.state == CallState::ConnectedBeforeAccepted ==> some_in(
            c@.connections,
            ConnectionState::ConnectedBeforeAccepted,
        ),
        before_ringing(c@.state) ==> !has_ringing(c@.events) && !some_in(
            c@.connections,
            ConnectionState::ConnectedBeforeAccepted,
        ) && !some_in(c@.connections, ConnectionState::ConnectedAndAccepted) && !some_in(
            c@.connections,
            ConnectionState::ReconnectingAfterAccepted,
        ),
{
}

/// Two unanswered outgoing calls that cross, placed by identities with
/// distinct priority tokens `pa` and `pb`: exactly one of them gives way with
/// `EndedRemoteGlare`; the other goes on unchanged. This holds also where the
/// two call identifiers collide.
pub proof fn glare_ends_exactly_one(a: CallView, pa: u64, b: CallView, pb: u64)
    requires
        pa != pb,
        a.direction == CallDirection::OutGoing,
        b.direction == CallDirection::OutGoing,
        a.state == CallState::WaitingToProceed || a.state == CallState::ConnectingBeforeAccepted
            || a.state == CallState::ConnectedBeforeAccepted,
        b.state == CallState::WaitingToProceed || b.state == CallState::ConnectingBeforeAccepted
            || b.state == CallState::ConnectedBeforeAccepted,
    ensures
        loses_glare(a, pa, b.call_id, pb) != loses_glare(b, pb, a.call_id, pa),
{
}

/// `t` follows `s` by one step of a child connection.
pub open spec fn child_edge(s: ConnectionState, t: ConnectionState) -> bool {
    exists|i: ConnectionInput| #[trigger] connection_step(ConnectionRole::Child, s, i) == Some(t)
}

/// `t` follows `s` by at most two steps of a child connection.
pub open spec fn child_reaches(s: ConnectionState, t: ConnectionState) -> bool {
    s == t || child_edge(s, t) || exists|m: ConnectionState|
        #[trigger] child_edge(s, m) && child_edge(m, t)
}

/// Each connection of `b` is the one of `a`, moved along the connection
/// machine's edges.
pub open spec fn connections_advance(a: Seq<Connection>, b: Seq<Connection>) -> bool {
    &&& a.len() == b.len()
    &&& forall|i: int|
        0 <= i < a.len() ==> (#[trigger] b[i]).device_id == a[i].device_id && child_reaches(
            a[i].state,
            b[i].state,
        )
}

/// The moves the call makes on its connections, listed pair by pair.
spec fn listed_move(s: ConnectionState, t: ConnectionState) -> bool {
    ||| s == t
    ||| s == ConnectionState::NotYetStarted && t == ConnectionState::ConnectingBeforeAccepted
    ||| s == ConnectionState::ConnectingBeforeAccepted && t == ConnectionState::ConnectedBeforeAccepted
    ||| s == ConnectionState::ConnectingBeforeAccepted && t == ConnectionState::IceFailed
    ||| s == ConnectionState::ConnectedBeforeAccepted && t == ConnectionState::ConnectedAndAccepted
    ||| s == ConnectionState::ConnectedAndAccepted && t == ConnectionState::ReconnectingAfterAccepted
    ||| s == ConnectionState::ReconnectingAfterAccepted && t == ConnectionState::ConnectedAndAccepted
    ||| s != ConnectionState::Terminated && t == ConnectionState::Terminating
    ||| s == ConnectionState::Terminating && t == ConnectionState::Terminated
    ||| s != ConnectionState::Terminating && s != ConnectionState::Terminated && t
        == ConnectionState::Terminated
}

proof fn lemma_listed_move(s: ConnectionState, t: ConnectionState)
    requires
        listed_move(s, t),
    ensures
        child_reaches(s, t),
{
    let c = ConnectionRole::Child;
    if s == t {
    } else if s == ConnectionState::NotYetStarted && t == ConnectionState::ConnectingBeforeAccepted {
        assert(connection_step(c, s, ConnectionInput::Start) == Some(ConnectionState::Starting));
        assert(connection_step(c, ConnectionState::Starting, ConnectionInput::StartCompleted) == Some(t));
        assert(child_edge(s, ConnectionState::Starting) && child_edge(ConnectionState::Starting, t));
    } else if s == ConnectionState::ConnectingBeforeAccepted && t
        == ConnectionState::ConnectedBeforeAccepted {
        assert(connection_step(c, s, ConnectionInput::IceConnected) == Some(t));
    } else if s == ConnectionState::ConnectingBeforeAccepted && t == ConnectionState::IceFailed {
        assert(connection_step(c, s, ConnectionInput::IceFailed) == Some(t));
    } else if s == ConnectionState::ConnectedBeforeAccepted && t
        == ConnectionState::ConnectedAndAccepted {
        assert(connection_step(c, s, ConnectionInput::Accepted) == Some(t));
    } else if s == ConnectionState::ConnectedAndAccepted && t
        == ConnectionState::ReconnectingAfterAccepted {
        assert(connection_step(c, s, ConnectionInput::IceDisconnected) == Some(t));
    } else if s == ConnectionState::ReconnectingAfterAccepted && t
        == ConnectionState::ConnectedAndAccepted {
        assert(connection_step(c, s, ConnectionInput::IceReconnected) == Some(t));
    } else if s == ConnectionState::Terminating && t == ConnectionState::Terminated {
        assert(connection_step(c, s, ConnectionInput::TerminateCompleted) == Some(t));
    } else if t == ConnectionState::Terminating {
        assert(connection_step(c, s, ConnectionInput::Terminate) == Some(t));
    } else {
        let m = ConnectionState::Terminating;
        assert(connection_step(c, s, ConnectionInput::Terminate) == Some(m));
        assert(connection_step(c, m, ConnectionInput::TerminateCompleted) == Some(t));
        assert(child_edge(s, m) && child_edge(m, t));
    }
}

proof fn lemma_listed_advance(a: Seq<Connection>, b: Seq<Connection>)
    requires
        a.len() == b.len(),
        forall|i: int|
            0 <= i < a.len() ==> (#[trigger] b[i]).device_id == a[i].device_id && listed_move(
                a[i].state,
                b[i].state,
            ),
    ensures
        connections_advance(a, b),
{
    assert forall|i: int| 0 <= i < a.len() implies (#[trigger] b[i]).device_id == a[i].device_id
        && child_reaches(a[i].state, b[i].state) by {
        lemma_listed_move(a[i].state, b[i].state);
    }
}

/// Every change the call's transitions make to its connections is a run of
/// the connection machine (child role): starting, connecting, failing,
/// acceptance, losing the transport and recovering it, teardown.
pub proof fn call_moves_follow_connection_edges(v: CallView, d: DeviceId)
    requires
        call_view_ok(v),
    ensures
        v.state == CallState::WaitingToProceed ==> connections_advance(
            v.connections,
            all_set(v.connections, ConnectionState::ConnectingBeforeAccepted),
        ),
        (v.state == CallState::ConnectingBeforeAccepted || v.state
            == CallState::ConnectedBeforeAccepted) && device_in(
            v.connections,
            d,
            ConnectionState::ConnectingBeforeAccepted,
        ) ==> connections_advance(
            v.connections,
            with_device_state(v.connections, d, ConnectionState::ConnectedBeforeAccepted),
        ) && connections_advance(
            v.connections,
            with_device_state(v.connections, d, ConnectionState::IceFailed),
        ),
        fails_connected(v, d) ==> connections_advance(
            v.connections,
            with_device_state(v.connections, d, ConnectionState::Terminating),
        ),
        accept_applies(v, d) ==> connections_advance(
            v.connections,
            accepted_connections(v.connections, d),
        ),
        v.state == CallState::ConnectedAndAccepted ==> connections_advance(
            v.connections,
            with_device_state(
                v.connections,
                v.active_device->0,
                ConnectionState::ReconnectingAfterAccepted,
            ),
        ),
        v.state == CallState::ReconnectingAfterAccepted ==> connections_advance(
            v.connections,
            with_device_state(v.connections, v.active_device->0, ConnectionState::ConnectedAndAccepted),
        ),
        v.state != CallState::Terminated ==> connections_advance(
            v.connections,
            teardown_connections(v.connections),
        ),
        v.state == CallState::Terminating ==> connections_advance(
            v.connections,
            all_set(v.connections, ConnectionState::Terminated),
        ),
{
    let c = v.connections;
    let unique_at = |k: int, e: DeviceId| forall|j: int|
        0 <= j < c.len() && (#[trigger] c[j]).device_id == e ==> j == k;
    lemma_listed_advance(c, teardown_connections(c));
    if v.state == CallState::WaitingToProceed {
        lemma_listed_advance(c, all_set(c, ConnectionState::ConnectingBeforeAccepted));
    }
    if v.state == CallState::Terminating {
        lemma_listed_advance(c, all_set(c, ConnectionState::Terminated));
    }
    if exists|k: int| 0 <= k < c.len() && (#[trigger] c[k]).device_id == d {
        let k = choose|k: int| 0 <= k < c.len() && (#[trigger] c[k]).device_id == d;
        assert(unique_at(k, d));
        if v.state == CallState::ConnectingBeforeAccepted || v.state
            == CallState::ConnectedBeforeAccepted {
            if c[k].state == ConnectionState::ConnectingBeforeAccepted {
                lemma_listed_advance(
                    c,
                    with_device_state(c, d, ConnectionState::ConnectedBeforeAccepted),
                );
                lemma_listed_advance(c, with_device_state(c, d, ConnectionState::IceFailed));
            }
        }
        if v.state == CallState::ConnectedBeforeAccepted && c[k].state
            == ConnectionState::ConnectedBeforeAccepted {
            lemma_listed_advance(c, with_device_state(c, d, ConnectionState::Terminating));
            lemma_listed_advance(c, accepted_connections(c, d));
        }
    }
    if v.state == CallState::ConnectedAndAccepted {
        lemma_listed_advance(
            c,
            with_device_state(c, v.active_device->0, ConnectionState::ReconnectingAfterAccepted),
        );
    }
    if v.state == CallState::ReconnectingAfterAccepted {
        lemma_listed_advance(
            c,
            with_device_state(c, v.active_device->0, ConnectionState::ConnectedAndAccepted),
        );
    }
}

/// Moving the one remaining device to another state keeps it the only one.
proof fn lemma_rebind(c: Seq<Connection>, d: DeviceId, s: ConnectionState, s2: ConnectionState)
    requires
        bound_to(c, d, s),
    ensures
        bound_to(with_device_state(c, d, s2), d, s2),
{
    let i = choose|i: int| 0 <= i < c.len() && (#[trigger] c[i]).device_id == d;
    let c2 = with_device_state(c, d, s2);
    assert(c2[i].device_id == d);
}

/// The failure of a connection to device `d` that is still negotiating.
pub open spec fn fails_negotiating(v: CallView, d: DeviceId) -> bool {
    (v.state == CallState::ConnectingBeforeAccepted || v.state
        == CallState::ConnectedBeforeAccepted) && device_in(
        v.connections,
        d,
        ConnectionState::ConnectingBeforeAccepted,
    )
}

/// The failure of the connection to device `d` after it connected, while the
/// call rings.
pub open spec fn fails_connected(v: CallView, d: DeviceId) -> bool {
    v.state == CallState::ConnectedBeforeAccepted && device_in(
        v.connections,
        d,
        ConnectionState::ConnectedBeforeAccepted,
    )
}

/// Device `d` can accept: its connection has connected and the call rings.
pub open spec fn accept_applies(v: CallView, d: DeviceId) -> bool {
    v.state == CallState::ConnectedBeforeAccepted && device_in(
        v.connections,
        d,
        ConnectionState::ConnectedBeforeAccepted,
    )
}

/// States in which a setup or reconnect timer runs.
pub open spec fn times_out(s: CallState) -> bool {
    s == CallState::WaitingToProceed || s == CallState::ConnectingBeforeAccepted || s
        == CallState::ConnectedBeforeAccepted || s == CallState::ReconnectingAfterAccepted
}

/// Whether a call gives way to the crossing remote call `remote`.
pub open spec fn loses_glare(
    v: CallView,
    local_priority: u64,
    remote: CallId,
    remote_priority: u64,
) -> bool {
    v.direction == CallDirection::OutGoing && (v.state == CallState::WaitingToProceed || v.state
        == CallState::ConnectingBeforeAccepted || v.state == CallState::ConnectedBeforeAccepted)
        && !survives_glare(v.call_id, local_priority, remote, remote_priority)
}

} // verus!
