//! The client-side conversation log: the lines a client renders, with the
//! delivered/read flags of its own messages driven by cumulative watermark
//! acknowledgments, and a bounded history.
use vstd::prelude::*;

verus! {

/// How many conversation lines are kept; older lines are dropped first.
pub const CONVERSATION_CAPACITY: usize = 50;

/// A vector that keeps only its most recent `max_len` elements.
pub struct MaxLengthVec<T> {
    max_len: usize,
    items: Vec<T>,
}

impl<T> View for MaxLengthVec<T> {
    type V = Seq<T>;

    closed spec fn view(&self) -> Seq<T> {
        self.items@
    }
}

impl<T> MaxLengthVec<T> {
    /// The bound this vector was created with.
    pub closed spec fn spec_max_len(self) -> usize {
        self.max_len
    }

    /// An empty vector that will keep at most `max_len` elements.
    pub fn new(max_len: usize) -> (r: Self)
        ensures
            r@ == Seq::<T>::empty(),
            r.spec_max_len() == max_len,
    {
        MaxLengthVec { max_len, items: Vec::new() }
    }

    /// Appends `value`; if the bound is now exceeded, the oldest element is
    /// dropped.
    pub fn push(&mut self, value: T)
        ensures
            final(self).spec_max_len() == old(self).spec_max_len(),
            final(self)@ == bounded_push(old(self)@, value, old(self).spec_max_len() as int),
    {
        self.items.push(value);
        if self.items.len() > self.max_len {
            let _ = self.items.remove(0);
            proof {
                assert(self.items@ =~= bounded_push(
                    old(self)@,
                    value,
                    old(self).spec_max_len() as int,
                ));
            }
        }
    }

    /// How many elements are held.
    pub fn len(&self) -> (r: usize)
        ensures
            r == self@.len(),
    {
        self.items.len()
    }

    /// The element at position `i`, oldest first.
    pub fn get(&self, i: usize) -> (r: &T)
        requires
            i < self@.len(),
        ensures
            *r == self@[i as int],
    {
        &self.items[i]
    }
}

/// The contents after pushing onto a history bounded at `max_len` elements.
pub open spec fn bounded_push<T>(s: Seq<T>, value: T, max_len: int) -> Seq<T> {
    if s.len() + 1 > max_len {
        s.push(value).drop_first()
    } else {
        s.push(value)
    }
}

/// One message sent by this client, as recorded in the conversation.
#[derive(Debug, Clone, PartialEq, Eq)]
pub struct MessageFromClient {
    pub username: String,
    pub message_id: u64,
    pub contents: String,
    pub sent_at: u64,
}

/// One line of the conversation.
#[derive(Debug, Clone, PartialEq, Eq)]
pub enum ConversationEntry {
    /// A chat message received from another member of the room.
    FromPeer { username: String, contents: String, received_at: u64 },
    /// A chat message this client sent, with its acknowledgment flags.
    FromClient {
        username: String,
        message_id: u64,
        contents: String,
        sent_at: u64,
        delivered: bool,
        read: bool,
    },
}

/// The entry `e` after a delivery acknowledgment watermark at `id`: every
/// own message with id at or below `id` is flagged delivered.
pub open spec fn mark_delivered(e: ConversationEntry, id: u64) -> ConversationEntry {
    match e {
        ConversationEntry::FromClient { username, message_id, contents, sent_at, delivered, read } => ConversationEntry::FromClient {
            username,
            message_id,
            contents,
            sent_at,
            delivered: delivered || message_id <= id,
            read,
        },
        ConversationEntry::FromPeer { username, contents, received_at } => ConversationEntry::FromPeer {
            username,
            contents,
            received_at,
        },
    }
}

/// The entry `e` after a read acknowledgment watermark at `id`.
pub open spec fn mark_read(e: ConversationEntry, id: u64) -> ConversationEntry {
    match e {
        ConversationEntry::FromClient { username, message_id, contents, sent_at, delivered, read } => ConversationEntry::FromClient {
            username,
            message_id,
            contents,
            sent_at,
            delivered,
            read: read || message_id <= id,
        },
        ConversationEntry::FromPeer { username, contents, received_at } => ConversationEntry::FromPeer {
            username,
            contents,
            received_at,
        },
    }
}

/// The conversation log of one client.
pub struct Conversation {
    messages: MaxLengthVec<ConversationEntry>,
}

impl View for Conversation {
    type V = Seq<ConversationEntry>;

    closed spec fn view(&self) -> Seq<ConversationEntry> {
        self.messages@
    }
}

impl Conversation {
    /// Well-formed: the history bound is the conversation capacity.
    pub closed spec fn wf(self) -> bool {
        self.messages.spec_max_len() == CONVERSATION_CAPACITY
    }

    /// An empty conversation.
    pub fn new() -> (r: Conversation)
        ensures
            r.wf(),
            r@ == Seq::<ConversationEntry>::empty(),
    {
        Conversation { messages: MaxLengthVec::new(CONVERSATION_CAPACITY) }
    }

    /// Records a chat message received from a peer.
    pub fn message_received(&mut self, username: String, contents: String, received_at: u64)
        requires
            old(self).wf(),
        ensures
            final(self).wf(),
            final(self)@ == bounded_push(
                old(self)@,
                ConversationEntry::FromPeer { username, contents, received_at },
                CONVERSATION_CAPACITY as int,
            ),
    {
        self.messages.push(ConversationEntry::FromPeer { username, contents, received_at });
    }

    /// Records a chat message this client sent, not yet delivered nor read.
    pub fn message_sent(&mut self, message: MessageFromClient)
        requires
            old(self).wf(),
        ensures
            final(self).wf(),
            final(self)@ == bounded_push(
                old(self)@,
                ConversationEntry::FromClient {
                    username: message.username,
                    message_id: message.message_id,
                    contents: message.contents,
                    sent_at: message.sent_at,
                    delivered: false,
                    read: false,
                },
                CONVERSATION_CAPACITY as int,
            ),
    {
        self.messages.push(
            ConversationEntry::FromClient {
                username: message.username,
                message_id: message.message_id,
                contents: message.contents,
                sent_at: message.sent_at,
                delivered: false,
                read: false,
            },
        );
    }

    /// Applies a read acknowledgment watermark: every own message with id at
    /// or below `read_message_id` is flagged read.
    pub fn message_read(&mut self, read_message_id: u64)
        requires
            old(self).wf(),
        ensures
            final(self).wf(),
            final(self)@.len() == old(self)@.len(),
            forall|i: int|
                0 <= i < old(self)@.len() ==> final(self)@[i] == mark_read(
                    old(self)@[i],
                    read_message_id,
                ),
    {
        let n = self.messages.items.len();
        let mut updated: Vec<ConversationEntry> = Vec::new();
        let mut i: usize = 0;
        while i < n
            invariant
                n == self.messages.items@.len(),
                i <= n,
                updated@.len() == i,
                forall|j: int|
                    0 <= j < i ==> updated@[j] == mark_read(
                        self.messages.items@[j],
                        read_message_id,
                    ),
            decreases n - i,
        {
            let entry = copy_marked_read(&self.messages.items[i], read_message_id);
            updated.push(entry);
            i += 1;
        }
        self.messages.items = updated;
    }

    /// Applies a delivery acknowledgment watermark: every own message with
    /// id at or below `delivered_message_id` is flagged delivered.
    pub fn message_delivered(&mut self, delivered_message_id: u64)
        requires
            old(self).wf(),
        ensures
            final(self).wf(),
            final(self)@.len() == old(self)@.len(),
            forall|i: int|
                0 <= i < old(self)@.len() ==> final(self)@[i] == mark_delivered(
                    old(self)@[i],
                    delivered_message_id,
                ),
    {
        let n = self.messages.items.len();
        let mut updated: Vec<ConversationEntry> = Vec::new();
        let mut i: usize = 0;
        while i < n
            invariant
                n == self.messages.items@.len(),
                i <= n,
                updated@.len() == i,
                forall|j: int|
                    0 <= j < i ==> updated@[j] == mark_delivered(
                        self.messages.items@[j],
                        delivered_message_id,
                    ),
            decreases n - i,
        {
            let entry = copy_marked_delivered(&self.messages.items[i], delivered_message_id);
            updated.push(entry);
            i += 1;
        }
        self.messages.items = updated;
    }

    /// How many lines are held.
    pub fn len(&self) -> (r: usize)
        ensures
            r == self@.len(),
    {
        self.messages.len()
    }

    /// The line at position `i`, oldest first.
    pub fn entry(&self, i: usize) -> (r: &ConversationEntry)
        requires
            i < self@.len(),
        ensures
            *r == self@[i as int],
    {
        self.messages.get(i)
    }
}

/// A copy of `e` with the delivered flag raised where `id` covers it.
fn copy_marked_delivered(e: &ConversationEntry, id: u64) -> (r: ConversationEntry)
    ensures
        r == mark_delivered(*e, id),
{
    match e {
        ConversationEntry::FromClient { username, message_id, contents, sent_at, delivered, read } => ConversationEntry::FromClient {
            username: username.clone(),
            message_id: *message_id,
            contents: contents.clone(),
            sent_at: *sent_at,
            delivered: *delivered || *message_id <= id,
            read: *read,
        },
        ConversationEntry::FromPeer { username, contents, received_at } => ConversationEntry::FromPeer {
            username: username.clone(),
            contents: contents.clone(),
            received_at: *received_at,
        },
    }
}

/// A copy of `e` with the read flag raised where `id` covers it.
fn copy_marked_read(e: &ConversationEntry, id: u64) -> (r: ConversationEntry)
    ensures
        r == mark_read(*e, id),
{
    match e {
        ConversationEntry::FromClient { username, message_id, contents, sent_at, delivered, read } => ConversationEntry::FromClient {
            username: username.clone(),
            message_id: *message_id,
            contents: contents.clone(),
            sent_at: *sent_at,
            delivered: *delivered,
            read: *read || *message_id <= id,
        },
        ConversationEntry::FromPeer { username, contents, received_at } => ConversationEntry::FromPeer {
            username: username.clone(),
            contents: contents.clone(),
            received_at: *received_at,
        },
    }
}

} // verus!
