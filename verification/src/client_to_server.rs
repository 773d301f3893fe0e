//! The client-to-server message kinds and their frame encoders.
use vstd::prelude::*;

verus! {

use crate::MessageType;
use crate::wire::{append_text, append_u64_be, be_bytes_u64, text_encoded, text_fits};

/// Sent once, as the very first frame of a connection, to enter a room.
#[derive(Debug, Clone, PartialEq, Eq)]
pub struct JoinRoomMessage {
    pub room_id: String,
}

pub struct JoinRoomMessageView {
    pub room_id: Seq<char>,
}

impl View for JoinRoomMessage {
    type V = JoinRoomMessageView;

    open spec fn view(&self) -> JoinRoomMessageView {
        JoinRoomMessageView { room_id: self.room_id@ }
    }
}

impl JoinRoomMessageView {
    /// The frame: the kind byte, then the room id text field.
    pub open spec fn encoded(self) -> Seq<u8> {
        seq![MessageType::JoinRoom.discriminant()] + text_encoded(self.room_id)
    }

    /// True when every text field's byte length fits its four-byte prefix.
    pub open spec fn fits(self) -> bool {
        text_fits(self.room_id)
    }
}

/// A chat line sent into the sender's room.
#[derive(Debug, Clone, PartialEq, Eq)]
pub struct ChatMessage {
    pub message_id: u64,
    pub username: String,
    pub room_id: String,
    pub contents: String,
}

pub struct ChatMessageView {
    pub message_id: u64,
    pub username: Seq<char>,
    pub room_id: Seq<char>,
    pub contents: Seq<char>,
}

impl View for ChatMessage {
    type V = ChatMessageView;

    open spec fn view(&self) -> ChatMessageView {
        ChatMessageView {
            message_id: self.message_id,
            username: self.username@,
            room_id: self.room_id@,
            contents: self.contents@,
        }
    }
}

impl ChatMessageView {
    /// The frame: the kind byte, the message id, then the room id, username
    /// and contents text fields in that order.
    pub open spec fn encoded(self) -> Seq<u8> {
        seq![MessageType::ChatMessage.discriminant()] + be_bytes_u64(self.message_id)
            + text_encoded(self.room_id) + text_encoded(self.username) + text_encoded(
            self.contents,
        )
    }

    /// True when every text field's byte length fits its four-byte prefix.
    pub open spec fn fits(self) -> bool {
        text_fits(self.room_id) && text_fits(self.username) && text_fits(self.contents)
    }
}

/// A delivery receipt: the sending client has decoded the chat message with
/// this id.
#[derive(Debug, Clone, PartialEq, Eq)]
pub struct MessageReceivedMessage {
    pub message_id: u64,
    pub room_id: String,
}

pub struct MessageReceivedMessageView {
    pub message_id: u64,
    pub room_id: Seq<char>,
}

impl View for MessageReceivedMessage {
    type V = MessageReceivedMessageView;

    open spec fn view(&self) -> MessageReceivedMessageView {
        MessageReceivedMessageView { message_id: self.message_id, room_id: self.room_id@ }
    }
}

impl MessageReceivedMessageView {
    /// The frame: the kind byte, the message id, then the room id text field.
    pub open spec fn encoded(self) -> Seq<u8> {
        seq![MessageType::MessageReceived.discriminant()] + be_bytes_u64(self.message_id)
            + text_encoded(self.room_id)
    }

    /// True when every text field's byte length fits its four-byte prefix.
    pub open spec fn fits(self) -> bool {
        text_fits(self.room_id)
    }
}

/// A read receipt: the chat message with this id has been surfaced to the
/// consumer layer.
#[derive(Debug, Clone, PartialEq, Eq)]
pub struct MessageReadMessage {
    pub message_id: u64,
    pub room_id: String,
}

pub struct MessageReadMessageView {
    pub message_id: u64,
    pub room_id: Seq<char>,
}

impl View for MessageReadMessage {
    type V = MessageReadMessageView;

    open spec fn view(&self) -> MessageReadMessageView {
        MessageReadMessageView { message_id: self.message_id, room_id: self.room_id@ }
    }
}

impl MessageReadMessageView {
    /// The frame: the kind byte, the message id, then the room id text field.
    pub open spec fn encoded(self) -> Seq<u8> {
        seq![MessageType::MessageRead.discriminant()] + be_bytes_u64(self.message_id)
            + text_encoded(self.room_id)
    }

    /// True when every text field's byte length fits its four-byte prefix.
    pub open spec fn fits(self) -> bool {
        text_fits(self.room_id)
    }
}

/// Appends the frame of a join-room message to `out`.
pub fn write_join_room_message(out: &mut Vec<u8>, message: JoinRoomMessage)
    requires
        message@.fits(),
    ensures
        final(out)@ == old(out)@ + message@.encoded(),
{
    out.push(MessageType::JoinRoom.as_u8());
    append_text(out, message.room_id.as_str());
    proof {
        assert(out@ =~= old(out)@ + message@.encoded());
    }
}

/// Appends the frame of a chat message to `out`.
pub fn write_chat_message(out: &mut Vec<u8>, message: ChatMessage)
    requires
        message@.fits(),
    ensures
        final(out)@ == old(out)@ + message@.encoded(),
{
    out.push(MessageType::ChatMessage.as_u8());
    append_u64_be(out, message.message_id);
    append_text(out, message.room_id.as_str());
    append_text(out, message.username.as_str());
    append_text(out, message.contents.as_str());
    proof {
        assert(out@ =~= old(out)@ + message@.encoded());
    }
}

/// Appends the frame of a delivery receipt to `out`.
pub fn write_message_received(out: &mut Vec<u8>, message: MessageReceivedMessage)
    requires
        message@.fits(),
    ensures
        final(out)@ == old(out)@ + message@.encoded(),
{
    out.push(MessageType::MessageReceived.as_u8());
    append_u64_be(out, message.message_id);
    append_text(out, message.room_id.as_str());
    proof {
        assert(out@ =~= old(out)@ + message@.encoded());
    }
}

/// Appends the frame of a read receipt to `out`.
pub fn write_message_read(out: &mut Vec<u8>, message: MessageReadMessage)
    requires
        message@.fits(),
    ensures
        final(out)@ == old(out)@ + message@.encoded(),
{
    out.push(MessageType::MessageRead.as_u8());
    append_u64_be(out, message.message_id);
    append_text(out, message.room_id.as_str());
    proof {
        assert(out@ =~= old(out)@ + message@.encoded());
    }
}

} // verus!
