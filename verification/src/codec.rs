//! Frame decoding for both directions of the protocol, with a spec-level
//! parser that the executable decoders are proved to match, and round-trip
//! lemmas: a frame written by the encoders decodes to the message it encodes.
use vstd::prelude::*;

verus! {

use crate::client_to_server;
use crate::server_to_client;
use crate::wire::{bytes_at, lemma_bytes_at_concat, lemma_text_at_encoded, lemma_u64_at_be_bytes,
    read_text_at, read_u64_at, text_at, text_encoded, u64_at};
use crate::{ClientToServerMessage, ClientToServerMessageView, MessageType, ServerToClientMessage,
    ServerToClientMessageView};
use vstd::slice::slice_index_get;
use vstd::utf8::encode_utf8;

/// Why a frame could not be decoded. Every variant is fatal for the
/// connection that sent the frame.
#[derive(Debug, Clone, Copy, PartialEq, Eq, Structural)]
pub enum DecodeError {
    /// The frame ends before the layout of its kind is complete.
    Truncated,
    /// The leading byte selects no message kind.
    UnknownKind,
    /// The leading byte selects a kind that never travels in this direction.
    WrongDirection,
}

/// The client-to-server frame parsed at position `i` of `b`: the decoded
/// message and the position after the frame, or the error that stops the
/// parse.
pub open spec fn spec_decode_client_message(b: Seq<u8>, i: int) -> Result<
    (ClientToServerMessageView, int),
    DecodeError,
> {
    if i < 0 || i >= b.len() {
        Err(DecodeError::Truncated)
    } else {
        let k = b[i];
        if k == MessageType::JoinRoom.discriminant() {
            match text_at(b, i + 1) {
                None => Err(DecodeError::Truncated),
                Some((room_id, j)) => Ok(
                    (
                        ClientToServerMessageView::JoinRoom(
                            client_to_server::JoinRoomMessageView { room_id },
                        ),
                        j,
                    ),
                ),
            }
        } else if k == MessageType::ChatMessage.discriminant() {
            if i + 9 > b.len() {
                Err(DecodeError::Truncated)
            } else {
                let message_id = u64_at(b, i + 1);
                match text_at(b, i + 9) {
                    None => Err(DecodeError::Truncated),
                    Some((room_id, j1)) => match text_at(b, j1) {
                        None => Err(DecodeError::Truncated),
                        Some((username, j2)) => match text_at(b, j2) {
                            None => Err(DecodeError::Truncated),
                            Some((contents, j3)) => Ok(
                                (
                                    ClientToServerMessageView::ChatMessage(
                                        client_to_server::ChatMessageView {
                                            message_id,
                                            username,
                                            room_id,
                                            contents,
                                        },
                                    ),
                                    j3,
                                ),
                            ),
                        },
                    },
                }
            }
        } else if k == MessageType::MessageRead.discriminant() {
            if i + 9 > b.len() {
                Err(DecodeError::Truncated)
            } else {
                let message_id = u64_at(b, i + 1);
                match text_at(b, i + 9) {
                    None => Err(DecodeError::Truncated),
                    Some((room_id, j)) => Ok(
                        (
                            ClientToServerMessageView::MessageRead(
                                client_to_server::MessageReadMessageView { message_id, room_id },
                            ),
                            j,
                        ),
                    ),
                }
            }
        } else if k == MessageType::MessageReceived.discriminant() {
            if i + 9 > b.len() {
                Err(DecodeError::Truncated)
            } else {
                let message_id = u64_at(b, i + 1);
                match text_at(b, i + 9) {
                    None => Err(DecodeError::Truncated),
                    Some((room_id, j)) => Ok(
                        (
                            ClientToServerMessageView::MessageReceived(
                                client_to_server::MessageReceivedMessageView {
                                    message_id,
                                    room_id,
                                },
                            ),
                            j,
                        ),
                    ),
                }
            }
        } else {
            Err(DecodeError::UnknownKind)
        }
    }
}

/// The server-to-client frame parsed at position `i` of `b`. A join-room
/// kind byte never travels in this direction and is rejected as such.
pub open spec fn spec_decode_server_message(b: Seq<u8>, i: int) -> Result<
    (ServerToClientMessageView, int),
    DecodeError,
> {
    if i < 0 || i >= b.len() {
        Err(DecodeError::Truncated)
    } else {
        let k = b[i];
        if k == MessageType::JoinRoom.discriminant() {
            Err(DecodeError::WrongDirection)
        } else if k == MessageType::ChatMessage.discriminant() {
            if i + 9 > b.len() {
                Err(DecodeError::Truncated)
            } else {
                let message_id = u64_at(b, i + 1);
                match text_at(b, i + 9) {
                    None => Err(DecodeError::Truncated),
                    Some((username, j1)) => match text_at(b, j1) {
                        None => Err(DecodeError::Truncated),
                        Some((contents, j2)) => Ok(
                            (
                                ServerToClientMessageView::ChatMessage(
                                    server_to_client::ChatMessageView {
                                        message_id,
                                        username,
                                        contents,
                                    },
                                ),
                                j2,
                            ),
                        ),
                    },
                }
            }
        } else if k == MessageType::MessageRead.discriminant() {
            if i + 9 > b.len() {
                Err(DecodeError::Truncated)
            } else {
                Ok(
                    (
                        ServerToClientMessageView::MessageRead(
                            server_to_client::MessageReadMessageView { message_id: u64_at(b, i + 1) },
                        ),
                        i + 9,
                    ),
                )
            }
        } else if k == MessageType::MessageReceived.discriminant() {
            if i + 9 > b.len() {
                Err(DecodeError::Truncated)
            } else {
                Ok(
                    (
                        ServerToClientMessageView::MessageDelivered(
                            server_to_client::MessageDeliveredMessageView {
                                message_id: u64_at(b, i + 1),
                            },
                        ),
                        i + 9,
                    ),
                )
            }
        } else {
            Err(DecodeError::UnknownKind)
        }
    }
}

/// Decodes the client-to-server frame at `start`, returning the message and
/// the position just after its last byte.
pub fn read_client_message(buf: &[u8], start: usize) -> (r: Result<
    (ClientToServerMessage, usize),
    DecodeError,
>)
    ensures
        r matches Ok(p) ==> (spec_decode_client_message(buf@, start as int) matches Ok(q) && p.0@
            == q.0 && p.1 == q.1),
        r matches Err(e) ==> spec_decode_client_message(buf@, start as int) == Err::<
            (ClientToServerMessageView, int),
            DecodeError,
        >(e),
{
    if start >= buf.len() {
        return Err(DecodeError::Truncated);
    }
    let kind_byte = *slice_index_get(buf, start);
    match MessageType::from_u8(kind_byte) {
        None => Err(DecodeError::UnknownKind),
        Some(MessageType::JoinRoom) => {
            match read_text_at(buf, start + 1) {
                None => Err(DecodeError::Truncated),
                Some((room_id, j)) => Ok(
                    (
                        ClientToServerMessage::JoinRoom(
                            client_to_server::JoinRoomMessage { room_id },
                        ),
                        j,
                    ),
                ),
            }
        },
        Some(MessageType::ChatMessage) => {
            match read_u64_at(buf, start + 1) {
                None => Err(DecodeError::Truncated),
                Some((message_id, after_id)) => {
                    match read_text_at(buf, after_id) {
                        None => Err(DecodeError::Truncated),
                        Some((room_id, j1)) => {
                            match read_text_at(buf, j1) {
                                None => Err(DecodeError::Truncated),
                                Some((username, j2)) => {
                                    match read_text_at(buf, j2) {
                                        None => Err(DecodeError::Truncated),
                                        Some((contents, j3)) => Ok(
                                            (
                                                ClientToServerMessage::ChatMessage(
                                                    client_to_server::ChatMessage {
                                                        message_id,
                                                        username,
                                                        room_id,
                                                        contents,
                                                    },
                                                ),
                                                j3,
                                            ),
                                        ),
                                    }
                                },
                            }
                        },
                    }
                },
            }
        },
        Some(MessageType::MessageRead) => {
            match read_u64_at(buf, start + 1) {
                None => Err(DecodeError::Truncated),
                Some((message_id, after_id)) => {
                    match read_text_at(buf, after_id) {
                        None => Err(DecodeError::Truncated),
                        Some((room_id, j)) => Ok(
                            (
                                ClientToServerMessage::MessageRead(
                                    client_to_server::MessageReadMessage { message_id, room_id },
                                ),
                                j,
                            ),
                        ),
                    }
                },
            }
        },
        Some(MessageType::MessageReceived) => {
            match read_u64_at(buf, start + 1) {
                None => Err(DecodeError::Truncated),
                Some((message_id, after_id)) => {
                    match read_text_at(buf, after_id) {
                        None => Err(DecodeError::Truncated),
                        Some((room_id, j)) => Ok(
                            (
                                ClientToServerMessage::MessageReceived(
                                    client_to_server::MessageReceivedMessage {
                                        message_id,
                                        room_id,
                                    },
                                ),
                                j,
                            ),
                        ),
                    }
                },
            }
        },
    }
}

/// Decodes the server-to-client frame at `start`, returning the message and
/// the position just after its last byte.
pub fn read_server_message(buf: &[u8], start: usize) -> (r: Result<
    (ServerToClientMessage, usize),
    DecodeError,
>)
    ensures
        r matches Ok(p) ==> (spec_decode_server_message(buf@, start as int) matches Ok(q) && p.0@
            == q.0 && p.1 == q.1),
        r matches Err(e) ==> spec_decode_server_message(buf@, start as int) == Err::<
            (ServerToClientMessageView, int),
            DecodeError,
        >(e),
{
    if start >= buf.len() {
        return Err(DecodeError::Truncated);
    }
    let kind_byte = *slice_index_get(buf, start);
    match MessageType::from_u8(kind_byte) {
        None => Err(DecodeError::UnknownKind),
        Some(MessageType::JoinRoom) => Err(DecodeError::WrongDirection),
        Some(MessageType::ChatMessage) => {
            match read_u64_at(buf, start + 1) {
                None => Err(DecodeError::Truncated),
                Some((message_id, after_id)) => {
                    match read_text_at(buf, after_id) {
                        None => Err(DecodeError::Truncated),
                        Some((username, j1)) => {
                            match read_text_at(buf, j1) {
                                None => Err(DecodeError::Truncated),
                                Some((contents, j2)) => Ok(
                                    (
                                        ServerToClientMessage::ChatMessage(
                                            server_to_client::ChatMessage {
                                                message_id,
                                                username,
                                                contents,
                                            },
                                        ),
                                        j2,
                                    ),
                                ),
                            }
                        },
                    }
                },
            }
        },
        Some(MessageType::MessageRead) => {
            match read_u64_at(buf, start + 1) {
                None => Err(DecodeError::Truncated),
                Some((message_id, j)) => Ok(
                    (
                        ServerToClientMessage::MessageRead(
                            server_to_client::MessageReadMessage { message_id },
                        ),
                        j,
                    ),
                ),
            }
        },
        Some(MessageType::MessageReceived) => {
            match read_u64_at(buf, start + 1) {
                None => Err(DecodeError::Truncated),
                Some((message_id, j)) => Ok(
                    (
                        ServerToClientMessage::MessageDelivered(
                            server_to_client::MessageDeliveredMessage { message_id },
                        ),
                        j,
                    ),
                ),
            }
        },
    }
}

proof fn lemma_kind_byte(b: Seq<u8>, i: int, k: u8, rest: Seq<u8>)
    requires
        bytes_at(b, i, seq![k] + rest),
    ensures
        0 <= i < b.len(),
        b[i] == k,
        bytes_at(b, i + 1, rest),
{
    lemma_bytes_at_concat(b, i, seq![k], rest);
    assert(b[i] == b.subrange(i, i + 1)[0]);
}

proof fn lemma_u64_field(b: Seq<u8>, i: int, x: u64, rest: Seq<u8>)
    requires
        bytes_at(b, i, crate::wire::be_bytes_u64(x) + rest),
    ensures
        i + 8 <= b.len(),
        u64_at(b, i) == x,
        bytes_at(b, i + 8, rest),
{
    lemma_bytes_at_concat(b, i, crate::wire::be_bytes_u64(x), rest);
    lemma_u64_at_be_bytes(b, i, x);
}

proof fn lemma_text_field(b: Seq<u8>, i: int, s: Seq<char>, rest: Seq<u8>)
    requires
        crate::wire::text_fits(s),
        bytes_at(b, i, text_encoded(s) + rest),
    ensures
        text_at(b, i) == Some((s, i + 4 + encode_utf8(s).len())),
        bytes_at(b, i + 4 + encode_utf8(s).len(), rest),
{
    lemma_bytes_at_concat(b, i, text_encoded(s), rest);
    lemma_text_at_encoded(b, i, s);
}

/// Round trip of the client-to-server direction: a buffer that holds an
/// encoded message at `i`, whatever stands before or after it, parses back to
/// exactly that message, ending right after the frame.
pub proof fn lemma_client_round_trip(b: Seq<u8>, i: int, v: ClientToServerMessageView)
    requires
        v.fits(),
        bytes_at(b, i, v.encoded()),
    ensures
        spec_decode_client_message(b, i) == Ok::<(ClientToServerMessageView, int), DecodeError>(
            (v, i + v.encoded().len()),
        ),
{
    let none: Seq<u8> = seq![];
    match v {
        ClientToServerMessageView::JoinRoom(m) => {
            assert(v.encoded() =~= seq![0u8] + text_encoded(m.room_id));
            lemma_kind_byte(b, i, 0u8, text_encoded(m.room_id));
            lemma_text_field(b, i + 1, m.room_id, none);
        },
        ClientToServerMessageView::ChatMessage(m) => {
            let id_bytes = crate::wire::be_bytes_u64(m.message_id);
            let t1 = text_encoded(m.room_id);
            let t2 = text_encoded(m.username);
            let t3 = text_encoded(m.contents);
            assert(v.encoded() =~= seq![1u8] + (id_bytes + (t1 + (t2 + t3))));
            lemma_kind_byte(b, i, 1u8, id_bytes + (t1 + (t2 + t3)));
            lemma_u64_field(b, i + 1, m.message_id, t1 + (t2 + t3));
            lemma_text_field(b, i + 9, m.room_id, t2 + t3);
            let j1 = i + 9 + 4 + encode_utf8(m.room_id).len();
            lemma_text_field(b, j1, m.username, t3);
            let j2 = j1 + 4 + encode_utf8(m.username).len();
            lemma_text_field(b, j2, m.contents, none);
        },
        ClientToServerMessageView::MessageReceived(m) => {
            let id_bytes = crate::wire::be_bytes_u64(m.message_id);
            assert(v.encoded() =~= seq![3u8] + (id_bytes + text_encoded(m.room_id)));
            lemma_kind_byte(b, i, 3u8, id_bytes + text_encoded(m.room_id));
            lemma_u64_field(b, i + 1, m.message_id, text_encoded(m.room_id));
            lemma_text_field(b, i + 9, m.room_id, none);
        },
        ClientToServerMessageView::MessageRead(m) => {
            let id_bytes = crate::wire::be_bytes_u64(m.message_id);
            assert(v.encoded() =~= seq![2u8] + (id_bytes + text_encoded(m.room_id)));
            lemma_kind_byte(b, i, 2u8, id_bytes + text_encoded(m.room_id));
            lemma_u64_field(b, i + 1, m.message_id, text_encoded(m.room_id));
            lemma_text_field(b, i + 9, m.room_id, none);
        },
    }
}

/// Round trip of the server-to-client direction, stated as for the other
/// direction.
pub proof fn lemma_server_round_trip(b: Seq<u8>, i: int, v: ServerToClientMessageView)
    requires
        v.fits(),
        bytes_at(b, i, v.encoded()),
    ensures
        spec_decode_server_message(b, i) == Ok::<(ServerToClientMessageView, int), DecodeError>(
            (v, i + v.encoded().len()),
        ),
{
    let none: Seq<u8> = seq![];
    match v {
        ServerToClientMessageView::ChatMessage(m) => {
            let id_bytes = crate::wire::be_bytes_u64(m.message_id);
            let t1 = text_encoded(m.username);
            let t2 = text_encoded(m.contents);
            assert(v.encoded() =~= seq![1u8] + (id_bytes + (t1 + t2)));
            lemma_kind_byte(b, i, 1u8, id_bytes + (t1 + t2));
            lemma_u64_field(b, i + 1, m.message_id, t1 + t2);
            lemma_text_field(b, i + 9, m.username, t2);
            let j1 = i + 9 + 4 + encode_utf8(m.username).len();
            lemma_text_field(b, j1, m.contents, none);
        },
        ServerToClientMessageView::MessageDelivered(m) => {
            let id_bytes = crate::wire::be_bytes_u64(m.message_id);
            assert(v.encoded() =~= seq![3u8] + id_bytes);
            lemma_kind_byte(b, i, 3u8, id_bytes);
            lemma_u64_field(b, i + 1, m.message_id, none);
        },
        ServerToClientMessageView::MessageRead(m) => {
            let id_bytes = crate::wire::be_bytes_u64(m.message_id);
            assert(v.encoded() =~= seq![2u8] + id_bytes);
            lemma_kind_byte(b, i, 2u8, id_bytes);
            lemma_u64_field(b, i + 1, m.message_id, none);
        },
    }
}

} // verus!
