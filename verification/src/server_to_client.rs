//! The server-to-client message kinds and their frame encoders.
use vstd::prelude::*;

verus! {

use crate::MessageType;
use crate::wire::{append_text, append_u64_be, be_bytes_u64, text_encoded, text_fits};

/// A chat line relayed to the other members of the sender's room.
#[derive(Debug, Clone, PartialEq, Eq)]
pub struct ChatMessage {
    pub message_id: u64,
    pub username: String,
    pub contents: String,
}

pub struct ChatMessageView {
    pub message_id: u64,
    pub username: Seq<char>,
    pub contents: Seq<char>,
}

impl View for ChatMessage {
    type V = ChatMessageView;

    open spec fn view(&self) -> ChatMessageView {
        ChatMessageView {
            message_id: self.message_id,
            username: self.username@,
            contents: self.contents@,
        }
    }
}

impl ChatMessageView {
    /// The frame: the kind byte, the message id, then the username and
    /// contents text fields in that order.
    pub open spec fn encoded(self) -> Seq<u8> {
        seq![MessageType::ChatMessage.discriminant()] + be_bytes_u64(self.message_id)
            + text_encoded(self.username) + text_encoded(self.contents)
    }

    /// True when every text field's byte length fits its four-byte prefix.
    pub open spec fn fits(self) -> bool {
        text_fits(self.username) && text_fits(self.contents)
    }
}

/// A relayed read receipt: the message with this id has been read by a peer.
#[derive(Debug, Clone, PartialEq, Eq)]
pub struct MessageReadMessage {
    pub message_id: u64,
}

pub struct MessageReadMessageView {
    pub message_id: u64,
}

impl View for MessageReadMessage {
    type V = MessageReadMessageView;

    open spec fn view(&self) -> MessageReadMessageView {
        MessageReadMessageView { message_id: self.message_id }
    }
}

impl MessageReadMessageView {
    /// The frame: the kind byte, then the message id.
    pub open spec fn encoded(self) -> Seq<u8> {
        seq![MessageType::MessageRead.discriminant()] + be_bytes_u64(self.message_id)
    }
}

/// A relayed delivery receipt: the message with this id reached a peer. Its
/// frame reuses the delivery-receipt kind byte of the client-to-server
/// direction.
#[derive(Debug, Clone, PartialEq, Eq)]
pub struct MessageDeliveredMessage {
    pub message_id: u64,
}

pub struct MessageDeliveredMessageView {
    pub message_id: u64,
}

impl View for MessageDeliveredMessage {
    type V = MessageDeliveredMessageView;

    open spec fn view(&self) -> MessageDeliveredMessageView {
        MessageDeliveredMessageView { message_id: self.message_id }
    }
}

impl MessageDeliveredMessageView {
    /// The frame: the kind byte, then the message id.
    pub open spec fn encoded(self) -> Seq<u8> {
        seq![MessageType::MessageReceived.discriminant()] + be_bytes_u64(self.message_id)
    }
}

/// Appends the frame of a relayed chat message to `out`.
pub fn write_chat_message(out: &mut Vec<u8>, message: &ChatMessage)
    requires
        message@.fits(),
    ensures
        final(out)@ == old(out)@ + message@.encoded(),
{
    out.push(MessageType::ChatMessage.as_u8());
    append_u64_be(out, message.message_id);
    append_text(out, message.username.as_str());
    append_text(out, message.contents.as_str());
    proof {
        assert(out@ =~= old(out)@ + message@.encoded());
    }
}

/// Appends the frame of a relayed read receipt to `out`.
pub fn write_message_read(out: &mut Vec<u8>, message: &MessageReadMessage)
    ensures
        final(out)@ == old(out)@ + message@.encoded(),
{
    out.push(MessageType::MessageRead.as_u8());
    append_u64_be(out, message.message_id);
    proof {
        assert(out@ =~= old(out)@ + message@.encoded());
    }
}

/// Appends the frame of a relayed delivery receipt to `out`.
pub fn write_message_delivered(out: &mut Vec<u8>, message: &MessageDeliveredMessage)
    ensures
        final(out)@ == old(out)@ + message@.encoded(),
{
    out.push(MessageType::MessageReceived.as_u8());
    append_u64_be(out, message.message_id);
    proof {
        assert(out@ =~= old(out)@ + message@.encoded());
    }
}

} // verus!
