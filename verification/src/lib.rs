//! A room-scoped message relay: a binary wire codec for the chat protocol,
//! the server-side connection state machine and room registry, and the
//! client-side delivery/read acknowledgment bookkeeping.
use vstd::prelude::*;

pub mod client_to_server;
pub mod codec;
pub mod connection;
pub mod conversation;
pub mod identity;
pub mod session;
pub mod registry;
pub mod watermark;
pub mod server_to_client;
pub mod wire;

verus! {

/// Upper bound on the bytes read for one line of local input.
pub const MAX_MESSAGE_BYTES: usize = 4096;

/// The kind of a wire message, carried as the leading byte of every frame.
#[derive(Debug, PartialEq, Eq, Structural, Clone, Copy)]
pub enum MessageType {
    JoinRoom,
    ChatMessage,
    MessageRead,
    MessageReceived,
}

impl MessageType {
    /// The discriminant byte written at the head of a frame of this kind.
    pub fn as_u8(&self) -> (r: u8)
        ensures
            r == self.discriminant(),
    {
        match self {
            MessageType::JoinRoom => 0,
            MessageType::ChatMessage => 1,
            MessageType::MessageRead => 2,
            MessageType::MessageReceived => 3,
        }
    }

    /// The discriminant byte of each kind, as a spec-level value.
    pub open spec fn discriminant(self) -> u8 {
        match self {
            MessageType::JoinRoom => 0,
            MessageType::ChatMessage => 1,
            MessageType::MessageRead => 2,
            MessageType::MessageReceived => 3,
        }
    }

    /// The kind selected by a leading byte; an unrecognized byte selects none,
    /// which callers treat as a protocol violation rather than a panic.
    pub fn from_u8(input: u8) -> (r: Option<MessageType>)
        ensures
            r == MessageType::spec_from_u8(input),
    {
        match input {
            0 => Some(MessageType::JoinRoom),
            1 => Some(MessageType::ChatMessage),
            2 => Some(MessageType::MessageRead),
            3 => Some(MessageType::MessageReceived),
            _ => None,
        }
    }

    pub open spec fn spec_from_u8(input: u8) -> Option<MessageType> {
        if input == 0 {
            Some(MessageType::JoinRoom)
        } else if input == 1 {
            Some(MessageType::ChatMessage)
        } else if input == 2 {
            Some(MessageType::MessageRead)
        } else if input == 3 {
            Some(MessageType::MessageReceived)
        } else {
            None
        }
    }
}

/// The two byte mappings invert each other: every kind decodes from its own
/// discriminant, and a byte that decodes to a kind is that kind's discriminant.
pub proof fn lemma_message_type_byte_round_trip(t: MessageType, b: u8)
    ensures
        MessageType::spec_from_u8(t.discriminant()) == Some(t),
        MessageType::spec_from_u8(b) == Some(t) ==> t.discriminant() == b,
{
}

/// A message travelling from a client to the server.
#[derive(Debug, Clone, PartialEq, Eq)]
pub enum ClientToServerMessage {
    JoinRoom(client_to_server::JoinRoomMessage),
    ChatMessage(client_to_server::ChatMessage),
    MessageReceived(client_to_server::MessageReceivedMessage),
    MessageRead(client_to_server::MessageReadMessage),
}

pub enum ClientToServerMessageView {
    JoinRoom(client_to_server::JoinRoomMessageView),
    ChatMessage(client_to_server::ChatMessageView),
    MessageReceived(client_to_server::MessageReceivedMessageView),
    MessageRead(client_to_server::MessageReadMessageView),
}

impl View for ClientToServerMessage {
    type V = ClientToServerMessageView;

    open spec fn view(&self) -> ClientToServerMessageView {
        match self {
            ClientToServerMessage::JoinRoom(m) => ClientToServerMessageView::JoinRoom(m@),
            ClientToServerMessage::ChatMessage(m) => ClientToServerMessageView::ChatMessage(m@),
            ClientToServerMessage::MessageReceived(m) => ClientToServerMessageView::MessageReceived(
                m@,
            ),
            ClientToServerMessage::MessageRead(m) => ClientToServerMessageView::MessageRead(m@),
        }
    }
}

impl ClientToServerMessageView {
    /// The frame bytes of this message on the wire.
    pub open spec fn encoded(self) -> Seq<u8> {
        match self {
            ClientToServerMessageView::JoinRoom(m) => m.encoded(),
            ClientToServerMessageView::ChatMessage(m) => m.encoded(),
            ClientToServerMessageView::MessageReceived(m) => m.encoded(),
            ClientToServerMessageView::MessageRead(m) => m.encoded(),
        }
    }

    /// True when every text field's byte length fits its four-byte prefix.
    pub open spec fn fits(self) -> bool {
        match self {
            ClientToServerMessageView::JoinRoom(m) => m.fits(),
            ClientToServerMessageView::ChatMessage(m) => m.fits(),
            ClientToServerMessageView::MessageReceived(m) => m.fits(),
            ClientToServerMessageView::MessageRead(m) => m.fits(),
        }
    }
}

/// A message travelling from the server to a client.
#[derive(Debug, Clone, PartialEq, Eq)]
pub enum ServerToClientMessage {
    ChatMessage(server_to_client::ChatMessage),
    MessageDelivered(server_to_client::MessageDeliveredMessage),
    MessageRead(server_to_client::MessageReadMessage),
}

pub enum ServerToClientMessageView {
    ChatMessage(server_to_client::ChatMessageView),
    MessageDelivered(server_to_client::MessageDeliveredMessageView),
    MessageRead(server_to_client::MessageReadMessageView),
}

impl View for ServerToClientMessage {
    type V = ServerToClientMessageView;

    open spec fn view(&self) -> ServerToClientMessageView {
        match self {
            ServerToClientMessage::ChatMessage(m) => ServerToClientMessageView::ChatMessage(m@),
            ServerToClientMessage::MessageDelivered(m) => ServerToClientMessageView::MessageDelivered(
                m@,
            ),
            ServerToClientMessage::MessageRead(m) => ServerToClientMessageView::MessageRead(m@),
        }
    }
}

impl ServerToClientMessageView {
    /// The frame bytes of this message on the wire.
    pub open spec fn encoded(self) -> Seq<u8> {
        match self {
            ServerToClientMessageView::ChatMessage(m) => m.encoded(),
            ServerToClientMessageView::MessageDelivered(m) => m.encoded(),
            ServerToClientMessageView::MessageRead(m) => m.encoded(),
        }
    }

    /// True when every text field's byte length fits its four-byte prefix.
    pub open spec fn fits(self) -> bool {
        match self {
            ServerToClientMessageView::ChatMessage(m) => m.fits(),
            ServerToClientMessageView::MessageDelivered(_) => true,
            ServerToClientMessageView::MessageRead(_) => true,
        }
    }
}

} // verus!
