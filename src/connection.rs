use vstd::prelude::*;
use crate::types::ConnectionState;

verus! {

/// How a connection takes part in a call.
#[derive(Clone, Copy, Debug, PartialEq, Eq, Structural)]
pub enum ConnectionRole {
    /// The connection of the calling side that gathers candidates before any
    /// remote description exists.
    OutgoingParent,
    /// A connection to one device, outgoing or incoming: it negotiates as
    /// soon as both descriptions exist.
    Child,
}

/// What the transport engine or the owning call reports to a connection.
#[derive(Clone, Copy, Debug, PartialEq, Eq, Structural)]
pub enum ConnectionInput {
    Start,
    StartCompleted,
    IceConnected,
    IceFailed,
    Accepted,
    IceDisconnected,
    IceReconnected,
    Terminate,
    TerminateCompleted,
}

/// The state an input leads to, wherever it applies.
pub open spec fn input_target(role: ConnectionRole, input: ConnectionInput) -> ConnectionState {
    match input {
        ConnectionInput::Start => ConnectionState::Starting,
        ConnectionInput::StartCompleted => if role == ConnectionRole::OutgoingParent {
            ConnectionState::IceGathering
        } else {
            ConnectionState::ConnectingBeforeAccepted
        },
        ConnectionInput::IceConnected => ConnectionState::ConnectedBeforeAccepted,
        ConnectionInput::IceFailed => ConnectionState::IceFailed,
        ConnectionInput::Accepted => ConnectionState::ConnectedAndAccepted,
        ConnectionInput::IceDisconnected => ConnectionState::ReconnectingAfterAccepted,
        ConnectionInput::IceReconnected => ConnectionState::ConnectedAndAccepted,
        ConnectionInput::Terminate => ConnectionState::Terminating,
        ConnectionInput::TerminateCompleted => ConnectionState::Terminated,
    }
}

/// The states in which an input applies.
pub open spec fn input_applies(input: ConnectionInput, s: ConnectionState) -> bool {
    match input {
        ConnectionInput::Start => s == ConnectionState::NotYetStarted,
        ConnectionInput::StartCompleted => s == ConnectionState::Starting,
        ConnectionInput::IceConnected | ConnectionInput::IceFailed => s
            == ConnectionState::ConnectingBeforeAccepted,
        ConnectionInput::Accepted => s == ConnectionState::ConnectedBeforeAccepted,
        ConnectionInput::IceDisconnected => s == ConnectionState::ConnectedAndAccepted,
        ConnectionInput::IceReconnected => s == ConnectionState::ReconnectingAfterAccepted,
        ConnectionInput::Terminate => s != ConnectionState::Terminating && s
            != ConnectionState::Terminated,
        ConnectionInput::TerminateCompleted => s == ConnectionState::Terminating,
    }
}

/// The state after `input` in state `s`, or `None` where the input does not apply.
pub open spec fn connection_step(
    role: ConnectionRole,
    s: ConnectionState,
    input: ConnectionInput,
) -> Option<ConnectionState> {
    if input_applies(input, s) {
        Some(input_target(role, input))
    } else {
        None
    }
}

impl ConnectionState {
    /// The state after `input` for a connection in `role`, or `None` where
    /// the input does not apply in this state.
    pub fn next(self, role: ConnectionRole, input: ConnectionInput) -> (r: Option<ConnectionState>)
        ensures
            r == connection_step(role, self, input),
    {
        match (self, input) {
            (ConnectionState::NotYetStarted, ConnectionInput::Start) => Some(
                ConnectionState::Starting,
            ),
            (ConnectionState::Starting, ConnectionInput::StartCompleted) => match role {
                ConnectionRole::OutgoingParent => Some(ConnectionState::IceGathering),
                ConnectionRole::Child => Some(ConnectionState::ConnectingBeforeAccepted),
            },
            (ConnectionState::ConnectingBeforeAccepted, ConnectionInput::IceConnected) => Some(
                ConnectionState::ConnectedBeforeAccepted,
            ),
            (ConnectionState::ConnectingBeforeAccepted, ConnectionInput::IceFailed) => Some(
                ConnectionState::IceFailed,
            ),
            (ConnectionState::ConnectedBeforeAccepted, ConnectionInput::Accepted) => Some(
                ConnectionState::ConnectedAndAccepted,
            ),
            (ConnectionState::ConnectedAndAccepted, ConnectionInput::IceDisconnected) => Some(
                ConnectionState::ReconnectingAfterAccepted,
            ),
            (ConnectionState::ReconnectingAfterAccepted, ConnectionInput::IceReconnected) => Some(
                ConnectionState::ConnectedAndAccepted,
            ),
            (ConnectionState::Terminating, ConnectionInput::TerminateCompleted) => Some(
                ConnectionState::Terminated,
            ),
            (ConnectionState::Terminating, _) | (ConnectionState::Terminated, _) => None,
            (_, ConnectionInput::Terminate) => Some(ConnectionState::Terminating),
            _ => None,
        }
    }
}

/// A terminated connection takes no further input.
pub proof fn terminated_connection_is_inert(role: ConnectionRole, input: ConnectionInput)
    ensures
        connection_step(role, ConnectionState::Terminated, input) is None,
{
}

/// Only the outgoing parent ever gathers candidates, and a gathering
/// connection can only be torn down.
pub proof fn only_parent_gathers(role: ConnectionRole, s: ConnectionState, input: ConnectionInput)
    ensures
        connection_step(role, s, input) == Some(ConnectionState::IceGathering) ==> role
            == ConnectionRole::OutgoingParent,
        s == ConnectionState::IceGathering && connection_step(role, s, input) is Some
            ==> connection_step(role, s, input) == Some(ConnectionState::Terminating),
{
}

/// Acceptance is reached only from a connected state: a connection never
/// skips the low-level handshake.
pub proof fn acceptance_follows_connection(role: ConnectionRole, s: ConnectionState, input: ConnectionInput)
    ensures
        connection_step(role, s, input) == Some(ConnectionState::ConnectedAndAccepted) ==> s
            == ConnectionState::ConnectedBeforeAccepted || s
            == ConnectionState::ReconnectingAfterAccepted,
{
}

} // verus!
