use chat_relay::client_to_server;
use chat_relay::codec::{read_client_message, read_server_message, DecodeError};
use chat_relay::connection::{on_client_frame, ConnectionAction, ConnectionState, ProtocolError};
use chat_relay::conversation::ConversationEntry;
use chat_relay::identity::display_name;
use chat_relay::registry::RoomRegistry;
use chat_relay::server_to_client;
use chat_relay::session::ClientSession;
use chat_relay::{ClientToServerMessage, ServerToClientMessage};

fn encode_c2s(message: &ClientToServerMessage) -> Vec<u8> {
    let mut buf = Vec::new();
    match message {
        ClientToServerMessage::JoinRoom(m) => {
            client_to_server::write_join_room_message(&mut buf, m.clone())
        }
        ClientToServerMessage::ChatMessage(m) => {
            client_to_server::write_chat_message(&mut buf, m.clone())
        }
        ClientToServerMessage::MessageReceived(m) => {
            client_to_server::write_message_received(&mut buf, m.clone())
        }
        ClientToServerMessage::MessageRead(m) => {
            client_to_server::write_message_read(&mut buf, m.clone())
        }
    }
    buf
}

fn encode_s2c(message: &ServerToClientMessage) -> Vec<u8> {
    let mut buf = Vec::new();
    match message {
        ServerToClientMessage::ChatMessage(m) => {
            server_to_client::write_chat_message(&mut buf, m)
        }
        ServerToClientMessage::MessageDelivered(m) => {
            server_to_client::write_message_delivered(&mut buf, m)
        }
        ServerToClientMessage::MessageRead(m) => {
            server_to_client::write_message_read(&mut buf, m)
        }
    }
    buf
}

/// One server step for one connection: decode the frame, run the state
/// machine, and perform the resulting registry or fan-out work, appending
/// relayed frames to each recipient's outbox.
fn server_step(
    registry: &mut RoomRegistry,
    state: ConnectionState,
    conn_id: u64,
    frame: &[u8],
    outboxes: &mut Vec<(u64, Vec<u8>)>,
) -> Result<ConnectionState, DecodeError> {
    let (message, _consumed) = read_client_message(frame, 0)?;
    let (next, action) = on_client_frame(state, message);
    match action {
        ConnectionAction::EnterRoom { room_id } => {
            registry.join_room(room_id, conn_id);
        }
        ConnectionAction::Relay { room_id, message } => {
            let bytes = encode_s2c(&message);
            for target in registry.broadcast_targets(&room_id, conn_id) {
                for (id, outbox) in outboxes.iter_mut() {
                    if *id == target {
                        outbox.extend_from_slice(&bytes);
                    }
                }
            }
        }
        ConnectionAction::Terminate { .. } => {}
    }
    Ok(next)
}

fn take_outbox(outboxes: &mut Vec<(u64, Vec<u8>)>, conn_id: u64) -> Vec<u8> {
    for (id, outbox) in outboxes.iter_mut() {
        if *id == conn_id {
            let mut taken = Vec::new();
            std::mem::swap(&mut taken, outbox);
            return taken;
        }
    }
    Vec::new()
}

/// Feeds every frame of `bytes` to the client session, collecting the
/// receipts it answers with.
fn client_consume(
    session: &mut ClientSession,
    bytes: &[u8],
    at: u64,
) -> Vec<ClientToServerMessage> {
    let mut replies = Vec::new();
    let mut pos = 0;
    while pos < bytes.len() {
        let (message, next) = read_server_message(bytes, pos).unwrap();
        replies.extend(session.on_server_message(message, at));
        pos = next;
    }
    replies
}

#[test]
fn end_to_end_chat_with_receipts() {
    let room = String::from("general");
    let mut a = ClientSession::new(display_name("A", 4242), room.clone());
    let mut b = ClientSession::new(display_name("B", 4243), room.clone());
    let mut registry = RoomRegistry::new();
    let mut state_a = ConnectionState::Unjoined;
    let mut state_b = ConnectionState::Unjoined;
    let mut outboxes: Vec<(u64, Vec<u8>)> = vec![(1, Vec::new()), (2, Vec::new())];

    // Both clients join the room; the very first frame is the join.
    let frame = encode_c2s(&ClientToServerMessage::JoinRoom(a.join_message()));
    state_a = server_step(&mut registry, state_a, 1, &frame, &mut outboxes).unwrap();
    assert!(matches!(state_a, ConnectionState::Joined { .. }));
    let frame = encode_c2s(&ClientToServerMessage::JoinRoom(b.join_message()));
    state_b = server_step(&mut registry, state_b, 2, &frame, &mut outboxes).unwrap();
    assert!(matches!(state_b, ConnectionState::Joined { .. }));

    // A sends its first chat message.
    let chat = a.compose_chat_message(String::from("hello"), 1000);
    assert_eq!(chat.message_id, 0);
    let frame = encode_c2s(&ClientToServerMessage::ChatMessage(chat));
    state_a = server_step(&mut registry, state_a, 1, &frame, &mut outboxes).unwrap();

    // The chat reaches B and only B.
    assert!(take_outbox(&mut outboxes, 1).is_empty());
    let to_b = take_outbox(&mut outboxes, 2);
    assert!(!to_b.is_empty());
    let replies = client_consume(&mut b, &to_b, 2000);

    // B sees A's identity and contents, and answers with the automatic
    // delivery receipt followed by the read receipt.
    assert_eq!(b.conversation.len(), 1);
    match b.conversation.entry(0) {
        ConversationEntry::FromPeer {
            username, contents, ..
        } => {
            assert_eq!(username, "A(4242)");
            assert_eq!(contents, "hello");
        }
        other => panic!("expected a peer message, got {other:?}"),
    }
    assert_eq!(replies.len(), 2);
    assert!(matches!(
        &replies[0],
        ClientToServerMessage::MessageReceived(m) if m.message_id == 0 && m.room_id == "general"
    ));
    assert!(matches!(
        &replies[1],
        ClientToServerMessage::MessageRead(m) if m.message_id == 0 && m.room_id == "general"
    ));

    // B's receipts travel back through the relay and reach A.
    for reply in &replies {
        let frame = encode_c2s(reply);
        state_b = server_step(&mut registry, state_b, 2, &frame, &mut outboxes).unwrap();
    }
    assert!(take_outbox(&mut outboxes, 2).is_empty());
    let to_a = take_outbox(&mut outboxes, 1);
    let replies_a = client_consume(&mut a, &to_a, 3000);
    assert!(replies_a.is_empty());

    // A observes its message as delivered and read.
    assert!(a.acks.is_delivered(0));
    assert!(a.acks.is_read(0));
    match a.conversation.entry(0) {
        ConversationEntry::FromClient {
            message_id,
            delivered,
            read,
            ..
        } => {
            assert_eq!(*message_id, 0);
            assert!(*delivered);
            assert!(*read);
        }
        other => panic!("expected an own message, got {other:?}"),
    }
}

#[test]
fn protocol_violation_closes_only_the_offender() {
    let room = String::from("general");
    let mut registry = RoomRegistry::new();
    let mut outboxes: Vec<(u64, Vec<u8>)> = vec![(1, Vec::new()), (2, Vec::new())];

    // Connection 1 joins and behaves.
    let mut one = ClientSession::new(display_name("one", 1), room.clone());
    let frame = encode_c2s(&ClientToServerMessage::JoinRoom(one.join_message()));
    let state_one =
        server_step(&mut registry, ConnectionState::Unjoined, 1, &frame, &mut outboxes).unwrap();
    assert!(matches!(state_one, ConnectionState::Joined { .. }));

    // Connection 2 opens with an unrecognized leading byte: a fatal decode
    // error for that connection alone.
    let garbage: Vec<u8> = vec![0xFF, 1, 2, 3];
    let r = server_step(
        &mut registry,
        ConnectionState::Unjoined,
        2,
        &garbage,
        &mut outboxes,
    );
    assert_eq!(r.unwrap_err(), DecodeError::UnknownKind);

    // Connection 3 joins afterwards and chats with connection 1 normally.
    let mut three = ClientSession::new(display_name("three", 3), room.clone());
    outboxes.push((3, Vec::new()));
    let frame = encode_c2s(&ClientToServerMessage::JoinRoom(three.join_message()));
    let state_three =
        server_step(&mut registry, ConnectionState::Unjoined, 3, &frame, &mut outboxes).unwrap();
    assert!(matches!(state_three, ConnectionState::Joined { .. }));

    let chat = one.compose_chat_message(String::from("still here"), 10);
    let frame = encode_c2s(&ClientToServerMessage::ChatMessage(chat));
    server_step(&mut registry, state_one, 1, &frame, &mut outboxes).unwrap();

    // The dead connection received nothing; the well-behaved one did.
    assert!(take_outbox(&mut outboxes, 2).is_empty());
    let to_three = take_outbox(&mut outboxes, 3);
    let replies = client_consume(&mut three, &to_three, 20);
    assert_eq!(replies.len(), 2);
    assert_eq!(three.conversation.len(), 1);
}

#[test]
fn first_frame_must_be_a_join() {
    let mut registry = RoomRegistry::new();
    let mut outboxes: Vec<(u64, Vec<u8>)> = vec![(1, Vec::new())];
    let chat = ClientToServerMessage::ChatMessage(client_to_server::ChatMessage {
        message_id: 0,
        username: String::from("x(1)"),
        room_id: String::from("general"),
        contents: String::from("hi"),
    });
    let frame = encode_c2s(&chat);
    let state =
        server_step(&mut registry, ConnectionState::Unjoined, 1, &frame, &mut outboxes).unwrap();
    assert!(matches!(state, ConnectionState::Closed));
    // Nothing was joined and nothing was relayed.
    assert!(registry
        .broadcast_targets(&String::from("general"), 99)
        .is_empty());
}

#[test]
fn second_join_is_a_violation() {
    let mut registry = RoomRegistry::new();
    let mut outboxes: Vec<(u64, Vec<u8>)> = vec![(1, Vec::new())];
    let join = ClientToServerMessage::JoinRoom(client_to_server::JoinRoomMessage {
        room_id: String::from("general"),
    });
    let frame = encode_c2s(&join);
    let state =
        server_step(&mut registry, ConnectionState::Unjoined, 1, &frame, &mut outboxes).unwrap();
    let state = server_step(&mut registry, state, 1, &frame, &mut outboxes).unwrap();
    assert!(matches!(state, ConnectionState::Closed));
}

#[test]
fn acknowledgments_arrive_in_any_order() {
    let room = String::from("general");
    let mut a = ClientSession::new(display_name("A", 4242), room.clone());

    // A sends messages 0 and 1 before any acknowledgment arrives.
    let first = a.compose_chat_message(String::from("first"), 1);
    let second = a.compose_chat_message(String::from("second"), 2);
    assert_eq!(first.message_id, 0);
    assert_eq!(second.message_id, 1);

    // A read acknowledgment for 1 arrives before any delivery one.
    let replies = a.on_server_message(
        ServerToClientMessage::MessageRead(server_to_client::MessageReadMessage { message_id: 1 }),
        10,
    );
    assert!(replies.is_empty());
    assert!(a.acks.is_read(0) && a.acks.is_read(1));
    assert!(!a.acks.is_delivered(0));

    // The delivery acknowledgment for 0 then covers message 0.
    a.on_server_message(
        ServerToClientMessage::MessageDelivered(server_to_client::MessageDeliveredMessage {
            message_id: 0,
        }),
        11,
    );
    assert!(a.acks.is_delivered(0));
    assert!(!a.acks.is_delivered(1));

    // After the delivery acknowledgment for 1, the cumulative state is the
    // same as if everything had arrived in order.
    a.on_server_message(
        ServerToClientMessage::MessageDelivered(server_to_client::MessageDeliveredMessage {
            message_id: 1,
        }),
        12,
    );
    assert!(a.acks.is_delivered(0) && a.acks.is_delivered(1));
    let mut in_order = chat_relay::watermark::AckWatermark::new();
    in_order.apply_delivered(0);
    in_order.apply_delivered(1);
    in_order.apply_read(0);
    in_order.apply_read(1);
    assert_eq!(a.acks, in_order);

    // Both own messages end up flagged delivered and read.
    for i in 0..a.conversation.len() {
        match a.conversation.entry(i) {
            ConversationEntry::FromClient {
                delivered, read, ..
            } => {
                assert!(*delivered && *read);
            }
            other => panic!("expected an own message, got {other:?}"),
        }
    }
}

#[test]
fn display_name_combines_username_and_port() {
    assert_eq!(display_name("A", 4242), "A(4242)");
    assert_eq!(display_name("bob", 0), "bob(0)");
    assert_eq!(display_name("x", 65535), "x(65535)");
    assert_eq!(display_name("", 7), "(7)");
}

#[test]
fn session_hands_out_sequential_ids() {
    let mut session = ClientSession::new(String::from("A(1)"), String::from("general"));
    assert_eq!(session.next_message_id(), 0);
    assert_eq!(session.next_message_id(), 1);
    assert_eq!(session.next_message_id(), 2);
    let receipt = session.read_receipt(5);
    assert_eq!(receipt.message_id, 5);
    assert_eq!(receipt.room_id, "general");
}

#[test]
fn state_machine_reports_violation_reasons() {

    // Any non-join first frame is rejected as such.
    let chat = ClientToServerMessage::ChatMessage(client_to_server::ChatMessage {
        message_id: 0,
        username: String::from("x(1)"),
        room_id: String::from("general"),
        contents: String::from("hi"),
    });
    let (state, action) = on_client_frame(ConnectionState::Unjoined, chat);
    assert!(matches!(state, ConnectionState::Closed));
    assert!(matches!(
        action,
        ConnectionAction::Terminate {
            reason: ProtocolError::ExpectedJoinRoom
        }
    ));

    // A second join is rejected as a duplicate.
    let join = ClientToServerMessage::JoinRoom(client_to_server::JoinRoomMessage {
        room_id: String::from("general"),
    });
    let joined = ConnectionState::Joined {
        room_id: String::from("general"),
    };
    let (state, action) = on_client_frame(joined, join);
    assert!(matches!(state, ConnectionState::Closed));
    assert!(matches!(
        action,
        ConnectionAction::Terminate {
            reason: ProtocolError::DuplicateJoinRoom
        }
    ));
}

#[test]
fn relay_targets_the_room_named_in_the_frame() {
    // The relay fans a chat out into the room the frame names, which is the
    // room id the sending client put on the wire.
    let joined = ConnectionState::Joined {
        room_id: String::from("general"),
    };
    let chat = ClientToServerMessage::ChatMessage(client_to_server::ChatMessage {
        message_id: 4,
        username: String::from("x(1)"),
        room_id: String::from("other"),
        contents: String::from("hi"),
    });
    let (state, action) = on_client_frame(joined, chat);
    assert!(matches!(state, ConnectionState::Joined { room_id } if room_id == "general"));
    match action {
        ConnectionAction::Relay { room_id, message } => {
            assert_eq!(room_id, "other");
            match message {
                ServerToClientMessage::ChatMessage(m) => {
                    assert_eq!(m.message_id, 4);
                    assert_eq!(m.username, "x(1)");
                    assert_eq!(m.contents, "hi");
                }
                other => panic!("expected a relayed chat message, got {other:?}"),
            }
        }
        other => panic!("expected a relay, got {other:?}"),
    }
}
