use slot_broadcaster::codec::{decode, encode};
use slot_broadcaster::message::{SlotMessage, SlotStatus};
use solana_time_utils::timestamp;

#[test]
fn test_from_geyser_with_non_dead_status() {
    let status = SlotStatus::Processed;
    let expected = SlotMessage {
        slot: 12345,
        parent: Some(12344),
        status: status.clone(),
        dead_error: None,
        created_at: timestamp(),
    };

    let actual = SlotMessage::from_geyser(12345, Some(12344), &status);
    assert_eq!(actual, expected);
}

#[test]
fn test_slot_message_serialization_roundtrip() {
    let msg = SlotMessage {
        slot: 77,
        parent: Some(70),
        status: SlotStatus::Completed,
        dead_error: None,
        created_at: timestamp(),
    };

    let json = String::from_utf8(encode(&msg).unwrap()).unwrap();
    assert!(json.contains(r#""completed""#));

    let decoded: SlotMessage = decode(json.as_bytes()).unwrap();
    assert_eq!(decoded, msg);
}

#[test]
fn new_keeps_every_argument() {
    let message = SlotMessage::new(u64::MAX, Some(0), &SlotStatus::CreatedBank, 42);
    assert_eq!(
        message,
        SlotMessage {
            slot: u64::MAX,
            parent: Some(0),
            status: SlotStatus::CreatedBank,
            dead_error: None,
            created_at: 42,
        }
    );
}

#[test]
fn new_without_parent_is_a_root() {
    let message = SlotMessage::new(0, None, &SlotStatus::Rooted, 0);
    assert_eq!(message.parent, None);
    assert_eq!(message.dead_error, None);
}

#[test]
fn dead_status_always_carries_its_reason() {
    let status = SlotStatus::Dead("invalid block".to_string());
    let message = SlotMessage::new(8, Some(7), &status, 1);
    assert_eq!(message.status, status);
    assert_eq!(message.dead_error, Some("invalid block".to_string()));
}

#[test]
fn dead_status_with_empty_reason_still_carries_it() {
    let message = SlotMessage::new(8, Some(7), &SlotStatus::Dead(String::new()), 1);
    assert_eq!(message.dead_error, Some(String::new()));
}

#[test]
fn only_dead_status_carries_a_reason() {
    let others = [
        SlotStatus::Processed,
        SlotStatus::Rooted,
        SlotStatus::Confirmed,
        SlotStatus::FirstShredReceived,
        SlotStatus::Completed,
        SlotStatus::CreatedBank,
    ];
    for status in others {
        assert_eq!(SlotMessage::new(1, None, &status, 1).dead_error, None);
    }
}

#[test]
fn from_geyser_with_dead_status() {
    let status = SlotStatus::Dead("duplicate".to_string());
    let before = timestamp();
    let message = SlotMessage::from_geyser(5, Some(4), &status);
    let after = timestamp();
    assert_eq!(message.slot, 5);
    assert_eq!(message.parent, Some(4));
    assert_eq!(message.status, status);
    assert_eq!(message.dead_error, Some("duplicate".to_string()));
    assert!(before <= message.created_at && message.created_at <= after);
}

#[test]
fn from_geyser_is_new_at_its_own_time() {
    let message = SlotMessage::from_geyser(3, None, &SlotStatus::Confirmed);
    assert_eq!(message, SlotMessage::new(3, None, &SlotStatus::Confirmed, message.created_at));
}

#[test]
fn clone_is_equal() {
    let message = SlotMessage::new(8, Some(7), &SlotStatus::Dead("x".to_string()), 1);
    assert_eq!(message.clone(), message);
    assert_eq!(message.status.clone(), message.status);
}

#[test]
fn as_str_is_the_wire_string() {
    assert_eq!(SlotStatus::Processed.as_str(), "processed");
    assert_eq!(SlotStatus::Rooted.as_str(), "rooted");
    assert_eq!(SlotStatus::Confirmed.as_str(), "confirmed");
    assert_eq!(SlotStatus::FirstShredReceived.as_str(), "first_shred_received");
    assert_eq!(SlotStatus::Completed.as_str(), "completed");
    assert_eq!(SlotStatus::CreatedBank.as_str(), "created_bank");
    assert_eq!(SlotStatus::Dead("why".to_string()).as_str(), "dead");
}

#[test]
fn well_formed_records_carry_the_reason_of_a_dead_slot_and_nothing_else() {
    let dead = SlotStatus::Dead("why".to_string());
    let record = |status: &SlotStatus, dead_error: Option<&str>| SlotMessage {
        slot: 1,
        parent: None,
        status: status.clone(),
        dead_error: dead_error.map(str::to_string),
        created_at: 1,
    };
    assert!(record(&dead, Some("why")).is_well_formed());
    assert!(!record(&dead, Some("other")).is_well_formed());
    assert!(!record(&dead, None).is_well_formed());
    assert!(record(&SlotStatus::Rooted, None).is_well_formed());
    assert!(!record(&SlotStatus::Rooted, Some("why")).is_well_formed());
    assert!(SlotMessage::new(1, None, &dead, 1).is_well_formed());
    assert!(SlotMessage::from_geyser(1, None, &SlotStatus::Completed).is_well_formed());
}
