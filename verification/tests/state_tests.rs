use chat_relay::conversation::{Conversation, ConversationEntry, MaxLengthVec, MessageFromClient};
use chat_relay::registry::RoomRegistry;
use chat_relay::watermark::AckWatermark;

#[test]
fn broadcast_excludes_the_sender() {
    let mut registry = RoomRegistry::new();
    let room = String::from("general");
    registry.join_room(room.clone(), 1);
    registry.join_room(room.clone(), 2);
    registry.join_room(room.clone(), 3);
    let targets = registry.broadcast_targets(&room, 1);
    assert_eq!(targets.len(), 2);
    assert!(targets.contains(&2));
    assert!(targets.contains(&3));
    assert!(!targets.contains(&1));
}

#[test]
fn broadcast_into_unknown_room_is_a_no_op() {
    let mut registry = RoomRegistry::new();
    registry.join_room(String::from("general"), 1);
    let targets = registry.broadcast_targets(&String::from("other"), 1);
    assert!(targets.is_empty());
}

#[test]
fn broadcast_to_a_room_of_one_reaches_nobody() {
    let mut registry = RoomRegistry::new();
    let room = String::from("solo");
    registry.join_room(room.clone(), 7);
    let targets = registry.broadcast_targets(&room, 7);
    assert!(targets.is_empty());
}

#[test]
fn joining_twice_adds_one_membership() {
    let mut registry = RoomRegistry::new();
    let room = String::from("general");
    registry.join_room(room.clone(), 1);
    registry.join_room(room.clone(), 1);
    registry.join_room(room.clone(), 2);
    let targets = registry.broadcast_targets(&room, 2);
    assert_eq!(targets.len(), 1);
    assert!(targets.contains(&1));
}

#[test]
fn rooms_are_independent() {
    let mut registry = RoomRegistry::new();
    registry.join_room(String::from("a"), 1);
    registry.join_room(String::from("b"), 2);
    let targets = registry.broadcast_targets(&String::from("a"), 2);
    assert_eq!(targets.len(), 1);
    assert!(targets.contains(&1));
    let targets = registry.broadcast_targets(&String::from("b"), 1);
    assert_eq!(targets.len(), 1);
    assert!(targets.contains(&2));
}

#[test]
fn watermark_never_decreases() {
    let mut acks = AckWatermark::new();
    assert!(!acks.is_delivered(0));
    acks.apply_delivered(5);
    assert_eq!(acks.delivered_upto, Some(5));
    acks.apply_delivered(3);
    assert_eq!(acks.delivered_upto, Some(5));
    for id in 0..=5u64 {
        assert!(acks.is_delivered(id));
    }
    assert!(!acks.is_delivered(6));
}

#[test]
fn watermarks_are_independent() {
    let mut acks = AckWatermark::new();
    acks.apply_read(4);
    assert_eq!(acks.read_upto, Some(4));
    assert_eq!(acks.delivered_upto, None);
    assert!(acks.is_read(4));
    assert!(!acks.is_delivered(4));
    acks.apply_delivered(1);
    assert_eq!(acks.delivered_upto, Some(1));
    assert_eq!(acks.read_upto, Some(4));
}

#[test]
fn watermark_order_does_not_matter() {
    let mut first = AckWatermark::new();
    first.apply_delivered(0);
    first.apply_delivered(1);
    let mut second = AckWatermark::new();
    second.apply_delivered(1);
    second.apply_delivered(0);
    assert_eq!(first, second);
}

#[test]
fn conversation_marks_all_messages_up_to_the_watermark() {
    let mut conversation = Conversation::new();
    for id in 0..3u64 {
        conversation.message_sent(MessageFromClient {
            username: String::from("A(1)"),
            message_id: id,
            contents: format!("line {id}"),
            sent_at: 100 + id,
        });
    }
    conversation.message_delivered(1);
    let flags: Vec<(bool, bool)> = (0..conversation.len())
        .map(|i| match conversation.entry(i) {
            ConversationEntry::FromClient {
                delivered, read, ..
            } => (*delivered, *read),
            other => panic!("expected an own message, got {other:?}"),
        })
        .collect();
    assert_eq!(flags, vec![(true, false), (true, false), (false, false)]);
    conversation.message_read(0);
    match conversation.entry(0) {
        ConversationEntry::FromClient {
            delivered, read, ..
        } => {
            assert!(*delivered && *read);
        }
        other => panic!("expected an own message, got {other:?}"),
    }
}

#[test]
fn conversation_keeps_peer_lines_untouched_by_watermarks() {
    let mut conversation = Conversation::new();
    conversation.message_received(String::from("B(2)"), String::from("hi"), 5);
    conversation.message_delivered(10);
    conversation.message_read(10);
    match conversation.entry(0) {
        ConversationEntry::FromPeer {
            username,
            contents,
            received_at,
        } => {
            assert_eq!(username, "B(2)");
            assert_eq!(contents, "hi");
            assert_eq!(*received_at, 5);
        }
        other => panic!("expected a peer message, got {other:?}"),
    }
}

#[test]
fn conversation_drops_oldest_lines_beyond_capacity() {
    let mut conversation = Conversation::new();
    for id in 0..55u64 {
        conversation.message_sent(MessageFromClient {
            username: String::from("A(1)"),
            message_id: id,
            contents: format!("{id}"),
            sent_at: id,
        });
    }
    assert_eq!(conversation.len(), 50);
    match conversation.entry(0) {
        ConversationEntry::FromClient { message_id, .. } => assert_eq!(*message_id, 5),
        other => panic!("expected an own message, got {other:?}"),
    }
}

#[test]
fn max_length_vec_trims_from_the_front() {
    let mut v: MaxLengthVec<u32> = MaxLengthVec::new(2);
    v.push(10);
    v.push(20);
    assert_eq!(v.len(), 2);
    v.push(30);
    assert_eq!(v.len(), 2);
    assert_eq!(*v.get(0), 20);
    assert_eq!(*v.get(1), 30);
}

#[test]
fn max_length_vec_with_zero_capacity_stays_empty() {
    let mut v: MaxLengthVec<u32> = MaxLengthVec::new(0);
    v.push(1);
    assert_eq!(v.len(), 0);
}
