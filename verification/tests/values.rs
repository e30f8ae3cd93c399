use health_registry::health_ai;
use health_registry::health_ai::{de_string_to_bytes, PersonInfo};
use health_registry::log::{EventLog, Record};
use health_registry::origin::{ensure_root, ensure_signed, Origin};
use health_registry::sign_data;

#[test]
fn text_becomes_its_utf8_bytes() {
    assert_eq!(de_string_to_bytes("A"), vec![65u8]);
    assert_eq!(de_string_to_bytes("luffy"), b"luffy".to_vec());
    assert_eq!(de_string_to_bytes(""), Vec::<u8>::new());
    assert_eq!(de_string_to_bytes("é"), vec![0xC3u8, 0xA9]);
    assert_eq!(de_string_to_bytes("慢"), vec![0xE6u8, 0x85, 0xA2]);
    assert_eq!(de_string_to_bytes("123456"), vec![49u8, 50, 51, 52, 53, 54]);
}

#[test]
fn person_keeps_what_it_was_given() {
    let info = PersonInfo::new(b"luffy".to_vec(), b"43".to_vec(), 43, 44, b"123456".to_vec());
    assert_eq!(info.name(), &b"luffy".to_vec());
    assert_eq!(info.id_card(), &b"43".to_vec());
    assert_eq!(info.height(), 43);
    assert_eq!(info.weight(), 44);
    assert_eq!(info.chronic(), &b"123456".to_vec());
}

#[test]
fn default_person_is_blank() {
    let info = PersonInfo::default();
    assert!(info.name().is_empty());
    assert!(info.id_card().is_empty());
    assert_eq!(info.height(), 0);
    assert_eq!(info.weight(), 0);
    assert!(info.chronic().is_empty());
    assert_eq!(info, PersonInfo::new(Vec::new(), Vec::new(), 0, 0, Vec::new()));
}

#[test]
fn person_equality_looks_at_every_field() {
    let base = PersonInfo::new(b"A".to_vec(), b"1".to_vec(), 170, 60000, b"0".to_vec());
    assert_eq!(base, base.clone());
    assert_eq!(base, PersonInfo::new(b"A".to_vec(), b"1".to_vec(), 170, 60000, b"0".to_vec()));
    assert_ne!(base, PersonInfo::new(b"B".to_vec(), b"1".to_vec(), 170, 60000, b"0".to_vec()));
    assert_ne!(base, PersonInfo::new(b"A".to_vec(), b"2".to_vec(), 170, 60000, b"0".to_vec()));
    assert_ne!(base, PersonInfo::new(b"A".to_vec(), b"1".to_vec(), 171, 60000, b"0".to_vec()));
    assert_ne!(base, PersonInfo::new(b"A".to_vec(), b"1".to_vec(), 170, 60001, b"0".to_vec()));
    assert_ne!(base, PersonInfo::new(b"A".to_vec(), b"1".to_vec(), 170, 60000, b"1".to_vec()));
    assert_ne!(base, PersonInfo::new(b"A".to_vec(), b"1".to_vec(), 170, 60000, b"00".to_vec()));
}

#[test]
fn only_a_signed_origin_has_a_signer() {
    assert_eq!(ensure_signed(Origin::Signed(9)), Some(9));
    assert_eq!(ensure_signed(Origin::Signed(0)), Some(0));
    assert_eq!(ensure_signed(Origin::Root), None);
    assert_eq!(ensure_signed(Origin::Anonymous), None);
}

#[test]
fn only_root_is_privileged() {
    assert!(ensure_root(Origin::Root));
    assert!(!ensure_root(Origin::Signed(9)));
    assert!(!ensure_root(Origin::Anonymous));
}

#[test]
fn relation_events_compare_by_kind_and_values() {
    let info = PersonInfo::new(b"A".to_vec(), b"1".to_vec(), 170, 60000, b"0".to_vec());
    let other = PersonInfo::new(b"B".to_vec(), b"1".to_vec(), 170, 60000, b"0".to_vec());
    let stored = health_ai::Event::RelationStored(1, 2, info.clone());
    assert_eq!(stored, stored.clone());
    assert_eq!(stored, health_ai::Event::RelationStored(1, 2, info.clone()));
    assert_ne!(stored, health_ai::Event::RelationStored(2, 2, info.clone()));
    assert_ne!(stored, health_ai::Event::RelationStored(1, 3, info.clone()));
    assert_ne!(stored, health_ai::Event::RelationStored(1, 2, other));
    let foods = health_ai::Event::ChronicTabooFoods(100, b"peanuts".to_vec());
    assert_eq!(foods, foods.clone());
    assert_ne!(foods, health_ai::Event::ChronicTabooFoods(101, b"peanuts".to_vec()));
    assert_ne!(foods, health_ai::Event::ChronicTabooFoods(100, b"shrimp".to_vec()));
    assert_ne!(foods, stored);
}

#[test]
fn device_events_compare_by_kind_and_values() {
    let stored = sign_data::Event::RelationDeviceStored(1, (2, 3), b"SN".to_vec());
    assert_eq!(stored, stored.clone());
    assert_ne!(stored, sign_data::Event::RelationDeviceStored(0, (2, 3), b"SN".to_vec()));
    assert_ne!(stored, sign_data::Event::RelationDeviceStored(1, (0, 3), b"SN".to_vec()));
    assert_ne!(stored, sign_data::Event::RelationDeviceStored(1, (2, 0), b"SN".to_vec()));
    assert_ne!(stored, sign_data::Event::RelationDeviceStored(1, (2, 3), b"SM".to_vec()));
    let unbind = sign_data::Event::RelationDeviceUnbind(1, (2, 3));
    assert_eq!(unbind, unbind.clone());
    assert_ne!(unbind, sign_data::Event::RelationDeviceUnbind(1, (3, 2)));
    assert_ne!(unbind, stored);
}

#[test]
fn log_keeps_records_in_the_order_of_their_deposit() {
    let mut log = EventLog::new();
    assert!(log.is_empty());
    assert_eq!(log.len(), 0);
    let first = Record::HealthAi(health_ai::Event::ChronicTabooFoods(1, b"salt".to_vec()));
    let second = Record::SignData(sign_data::Event::RelationDeviceUnbind(1, (2, 3)));
    log.deposit_event(first.clone());
    log.deposit_event(second.clone());
    log.deposit_event(first.clone());
    assert!(!log.is_empty());
    assert_eq!(log.len(), 3);
    assert_eq!(log.records()[0], first);
    assert_eq!(log.records()[1], second);
    assert_eq!(log.records()[2], first);
    assert_ne!(first, second);
}
