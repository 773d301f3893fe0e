//! The protocol-facing state of one client endpoint: its identity and room,
//! the monotone id counter of its own message stream, its conversation log,
//! and its acknowledgment watermarks, with the automatic receipt rules.
use vstd::prelude::*;

verus! {

use crate::client_to_server;
use crate::conversation::{CONVERSATION_CAPACITY, Conversation, ConversationEntry,
    MessageFromClient, bounded_push, mark_delivered, mark_read};
use crate::watermark::{AckWatermark, advance};
use crate::{ClientToServerMessage, ServerToClientMessage};

/// One client endpoint of the relay protocol.
pub struct ClientSession {
    /// The display identity that travels in this client's chat messages.
    pub username: String,
    /// The room this session joins and sends into.
    pub room_id: String,
    /// The id the next outgoing chat message will carry; ids start at 0 and
    /// increase by one per message, unique only within this session.
    pub next_message_id: u64,
    /// The lines this client renders.
    pub conversation: Conversation,
    /// The cumulative delivered/read watermarks for this session's stream.
    pub acks: AckWatermark,
}

impl ClientSession {
    /// Well-formed: the conversation log is well-formed.
    pub open spec fn wf(self) -> bool {
        self.conversation.wf()
    }

    /// A fresh session for `username` in the room named `room_id`.
    pub fn new(username: String, room_id: String) -> (r: ClientSession)
        ensures
            r.wf(),
            r.username == username,
            r.room_id == room_id,
            r.next_message_id == 0,
            r.conversation@ == Seq::<ConversationEntry>::empty(),
            r.acks.delivered_upto is None,
            r.acks.read_upto is None,
    {
        ClientSession {
            username,
            room_id,
            next_message_id: 0,
            conversation: Conversation::new(),
            acks: AckWatermark::new(),
        }
    }

    /// The join frame this session opens its connection with.
    pub fn join_message(&self) -> (m: client_to_server::JoinRoomMessage)
        ensures
            m.room_id@ == self.room_id@,
    {
        client_to_server::JoinRoomMessage { room_id: self.room_id.clone() }
    }

    /// Hands out the next fresh id of this session's message stream.
    pub fn next_message_id(&mut self) -> (id: u64)
        requires
            old(self).next_message_id < u64::MAX,
        ensures
            id == old(self).next_message_id,
            final(self).next_message_id == old(self).next_message_id + 1,
            final(self).username == old(self).username,
            final(self).room_id == old(self).room_id,
            final(self).conversation == old(self).conversation,
            final(self).acks == old(self).acks,
    {
        let id = self.next_message_id;
        self.next_message_id = id + 1;
        id
    }

    /// Composes one outgoing chat line: assigns the next id, records the
    /// message as sent and neither delivered nor read, and returns the wire
    /// message to send.
    pub fn compose_chat_message(&mut self, contents: String, sent_at: u64) -> (m:
        client_to_server::ChatMessage)
        requires
            old(self).wf(),
            old(self).next_message_id < u64::MAX,
        ensures
            final(self).wf(),
            m.message_id == old(self).next_message_id,
            m.username@ == old(self).username@,
            m.room_id@ == old(self).room_id@,
            m.contents@ == contents@,
            final(self).next_message_id == old(self).next_message_id + 1,
            final(self).username == old(self).username,
            final(self).room_id == old(self).room_id,
            final(self).acks == old(self).acks,
            final(self).conversation@ == bounded_push(
                old(self).conversation@,
                ConversationEntry::FromClient {
                    username: old(self).username,
                    message_id: old(self).next_message_id,
                    contents,
                    sent_at,
                    delivered: false,
                    read: false,
                },
                CONVERSATION_CAPACITY as int,
            ),
    {
        let id = self.next_message_id;
        self.next_message_id = id + 1;
        let message = client_to_server::ChatMessage {
            message_id: id,
            username: self.username.clone(),
            room_id: self.room_id.clone(),
            contents: contents.clone(),
        };
        self.conversation.message_sent(
            MessageFromClient {
                username: self.username.clone(),
                message_id: id,
                contents,
                sent_at,
            },
        );
        message
    }

    /// The read receipt for a surfaced chat message, sent once the consumer
    /// layer has shown the line.
    pub fn read_receipt(&self, message_id: u64) -> (m: client_to_server::MessageReadMessage)
        ensures
            m.message_id == message_id,
            m.room_id@ == self.room_id@,
    {
        client_to_server::MessageReadMessage { message_id, room_id: self.room_id.clone() }
    }

    /// One step of the client endpoint for a decoded server message. A
    /// peer's chat line is logged and answered with the automatic delivery
    /// receipt and read receipt, in that order; a delivery or read
    /// acknowledgment advances the matching watermark and flags the
    /// conversation, and is never answered.
    pub fn on_server_message(&mut self, message: ServerToClientMessage, received_at: u64) -> (
        replies: Vec<ClientToServerMessage>)
        requires
            old(self).wf(),
        ensures
            final(self).wf(),
            final(self).username == old(self).username,
            final(self).room_id == old(self).room_id,
            final(self).next_message_id == old(self).next_message_id,
            message matches ServerToClientMessage::ChatMessage(m) ==> (
            final(self).acks == old(self).acks
                && final(self).conversation@ == bounded_push(
                old(self).conversation@,
                ConversationEntry::FromPeer {
                    username: m.username,
                    contents: m.contents,
                    received_at,
                },
                CONVERSATION_CAPACITY as int,
            )
                && replies@.len() == 2
                && (replies@[0] matches ClientToServerMessage::MessageReceived(x) && x.message_id
                == m.message_id && x.room_id@ == old(self).room_id@)
                && (replies@[1] matches ClientToServerMessage::MessageRead(x) && x.message_id
                == m.message_id && x.room_id@ == old(self).room_id@)),
            message matches ServerToClientMessage::MessageDelivered(m) ==> (
            replies@.len() == 0
                && final(self).acks.delivered_upto == advance(
                old(self).acks.delivered_upto,
                m.message_id,
            )
                && final(self).acks.read_upto == old(self).acks.read_upto
                && final(self).conversation@.len() == old(self).conversation@.len()
                && (forall|i: int|
                0 <= i < old(self).conversation@.len() ==> final(self).conversation@[i]
                    == mark_delivered(old(self).conversation@[i], m.message_id))),
            message matches ServerToClientMessage::MessageRead(m) ==> (
            replies@.len() == 0
                && final(self).acks.read_upto == advance(old(self).acks.read_upto, m.message_id)
                && final(self).acks.delivered_upto == old(self).acks.delivered_upto
                && final(self).conversation@.len() == old(self).conversation@.len()
                && (forall|i: int|
                0 <= i < old(self).conversation@.len() ==> final(self).conversation@[i] == mark_read(
                    old(self).conversation@[i],
                    m.message_id,
                ))),
    {
        match message {
            ServerToClientMessage::ChatMessage(m) => {
                let message_id = m.message_id;
                let mut replies: Vec<ClientToServerMessage> = Vec::new();
                replies.push(
                    ClientToServerMessage::MessageReceived(
                        client_to_server::MessageReceivedMessage {
                            message_id,
                            room_id: self.room_id.clone(),
                        },
                    ),
                );
                replies.push(
                    ClientToServerMessage::MessageRead(
                        client_to_server::MessageReadMessage {
                            message_id,
                            room_id: self.room_id.clone(),
                        },
                    ),
                );
                self.conversation.message_received(m.username, m.contents, received_at);
                replies
            },
            ServerToClientMessage::MessageDelivered(m) => {
                self.acks.apply_delivered(m.message_id);
                self.conversation.message_delivered(m.message_id);
                Vec::new()
            },
            ServerToClientMessage::MessageRead(m) => {
                self.acks.apply_read(m.message_id);
                self.conversation.message_read(m.message_id);
                Vec::new()
            },
        }
    }
}

} // verus!
