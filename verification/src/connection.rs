//! The per-connection lifecycle of the server: a connection must join first,
//! may join only once, and thereafter every frame maps to a relay of the
//! matching server-to-client message into the room the frame names.
use vstd::prelude::*;

verus! {

use crate::server_to_client;
use crate::{ClientToServerMessage, ServerToClientMessage};

/// A violation of the join-then-message discipline. Fatal to the offending
/// connection only; the rest of the server keeps serving.
#[derive(Debug, Clone, Copy, PartialEq, Eq, Structural)]
pub enum ProtocolError {
    /// The very first frame of the connection was not a join.
    ExpectedJoinRoom,
    /// A join arrived on a connection that had already joined a room.
    DuplicateJoinRoom,
}

/// The lifecycle of one server-side connection.
#[derive(Debug)]
pub enum ConnectionState {
    /// No frame has been accepted yet; only a join is allowed.
    Unjoined,
    /// The connection is a member of the named room.
    Joined { room_id: String },
    /// The connection is finished; no further frame is processed.
    Closed,
}

/// What the server does in response to one decoded frame.
#[derive(Debug)]
pub enum ConnectionAction {
    /// Add the connection to the named room, creating it if absent.
    EnterRoom { room_id: String },
    /// Fan the message out to every other member of the named room.
    Relay { room_id: String, message: ServerToClientMessage },
    /// Close this connection and log the violation.
    Terminate { reason: ProtocolError },
}

/// One step of the connection state machine: the next state and the action
/// the server takes for the decoded frame `message` arriving in `state`.
pub fn on_client_frame(state: ConnectionState, message: ClientToServerMessage) -> (r: (
    ConnectionState,
    ConnectionAction,
))
    requires
        !(state is Closed),
    ensures
        state is Unjoined ==> (message matches ClientToServerMessage::JoinRoom(j) ==> ((
        r.0 matches ConnectionState::Joined { room_id } && room_id@ == j.room_id@) && (
        r.1 matches ConnectionAction::EnterRoom { room_id } && room_id@ == j.room_id@))),
        (state is Unjoined && !(message is JoinRoom)) ==> (r.0 is Closed && r.1 == (
        ConnectionAction::Terminate { reason: ProtocolError::ExpectedJoinRoom })),
        (state is Joined && message is JoinRoom) ==> (r.0 is Closed && r.1 == (
        ConnectionAction::Terminate { reason: ProtocolError::DuplicateJoinRoom })),
        state matches ConnectionState::Joined { room_id: joined } ==> (
        message matches ClientToServerMessage::ChatMessage(c) ==> ((
        r.0 matches ConnectionState::Joined { room_id } && room_id@ == joined@) && (
        r.1 matches ConnectionAction::Relay { room_id, message: out } && room_id@ == c.room_id@ && (
        out matches ServerToClientMessage::ChatMessage(m) && m.message_id == c.message_id
            && m.username@ == c.username@ && m.contents@ == c.contents@)))),
        state matches ConnectionState::Joined { room_id: joined } ==> (
        message matches ClientToServerMessage::MessageReceived(c) ==> ((
        r.0 matches ConnectionState::Joined { room_id } && room_id@ == joined@) && (
        r.1 matches ConnectionAction::Relay { room_id, message: out } && room_id@ == c.room_id@ && (
        out matches ServerToClientMessage::MessageDelivered(m) && m.message_id == c.message_id)))),
        state matches ConnectionState::Joined { room_id: joined } ==> (
        message matches ClientToServerMessage::MessageRead(c) ==> ((
        r.0 matches ConnectionState::Joined { room_id } && room_id@ == joined@) && (
        r.1 matches ConnectionAction::Relay { room_id, message: out } && room_id@ == c.room_id@ && (
        out matches ServerToClientMessage::MessageRead(m) && m.message_id == c.message_id)))),
{
    match state {
        ConnectionState::Unjoined => {
            match message {
                ClientToServerMessage::JoinRoom(j) => {
                    let action_room = j.room_id.clone();
                    (
                        ConnectionState::Joined { room_id: j.room_id },
                        ConnectionAction::EnterRoom { room_id: action_room },
                    )
                },
                _ => (
                    ConnectionState::Closed,
                    ConnectionAction::Terminate { reason: ProtocolError::ExpectedJoinRoom },
                ),
            }
        },
        ConnectionState::Joined { room_id: joined } => {
            match message {
                ClientToServerMessage::JoinRoom(_) => (
                    ConnectionState::Closed,
                    ConnectionAction::Terminate { reason: ProtocolError::DuplicateJoinRoom },
                ),
                ClientToServerMessage::ChatMessage(c) => (
                    ConnectionState::Joined { room_id: joined },
                    ConnectionAction::Relay {
                        room_id: c.room_id,
                        message: ServerToClientMessage::ChatMessage(
                            server_to_client::ChatMessage {
                                message_id: c.message_id,
                                username: c.username,
                                contents: c.contents,
                            },
                        ),
                    },
                ),
                ClientToServerMessage::MessageReceived(c) => (
                    ConnectionState::Joined { room_id: joined },
                    ConnectionAction::Relay {
                        room_id: c.room_id,
                        message: ServerToClientMessage::MessageDelivered(
                            server_to_client::MessageDeliveredMessage { message_id: c.message_id },
                        ),
                    },
                ),
                ClientToServerMessage::MessageRead(c) => (
                    ConnectionState::Joined { room_id: joined },
                    ConnectionAction::Relay {
                        room_id: c.room_id,
                        message: ServerToClientMessage::MessageRead(
                            server_to_client::MessageReadMessage { message_id: c.message_id },
                        ),
                    },
                ),
            }
        },
        // Unreachable under the precondition: a closed connection processes
        // no further frame.
        ConnectionState::Closed => (
            ConnectionState::Closed,
            ConnectionAction::Terminate { reason: ProtocolError::ExpectedJoinRoom },
        ),
    }
}

} // verus!
