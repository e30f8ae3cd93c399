use health_registry::health_ai::{Error, Event, Pallet, PersonInfo};
use health_registry::log::{EventLog, Record};
use health_registry::origin::Origin;

#[test]
fn root_sets_taboo_foods() {
    let mut log = EventLog::new();
    let mut pallet = Pallet::new();
    assert_eq!(pallet.chronic_taboo(&100), None);
    assert_eq!(pallet.save_taboo_foods(&mut log, Origin::Root, 100, b"peanuts,shrimp".to_vec()), Ok(()));
    assert_eq!(pallet.chronic_taboo(&100), Some(b"peanuts,shrimp".to_vec()));
    assert_eq!(log.len(), 1);
    assert_eq!(log.records()[0], Record::HealthAi(Event::ChronicTabooFoods(100, b"peanuts,shrimp".to_vec())));
}

#[test]
fn root_overwrites_taboo_foods() {
    let mut log = EventLog::new();
    let mut pallet = Pallet::new();
    assert_eq!(pallet.save_taboo_foods(&mut log, Origin::Root, 7, b"salt".to_vec()), Ok(()));
    assert_eq!(pallet.save_taboo_foods(&mut log, Origin::Root, 7, b"sugar".to_vec()), Ok(()));
    assert_eq!(pallet.chronic_taboo(&7), Some(b"sugar".to_vec()));
    assert_eq!(log.len(), 2);
    assert_eq!(log.records()[1], Record::HealthAi(Event::ChronicTabooFoods(7, b"sugar".to_vec())));
}

#[test]
fn non_root_cannot_overwrite_taboo_foods() {
    let mut log = EventLog::new();
    let mut pallet = Pallet::new();
    assert_eq!(pallet.save_taboo_foods(&mut log, Origin::Root, 100, b"peanuts,shrimp".to_vec()), Ok(()));
    assert_eq!(
        pallet.save_taboo_foods(&mut log, Origin::Signed(5), 100, b"nothing".to_vec()),
        Err(Error::IsNotRoot)
    );
    assert_eq!(pallet.chronic_taboo(&100), Some(b"peanuts,shrimp".to_vec()));
    assert_eq!(log.len(), 1);
}

#[test]
fn no_caller_but_root_changes_the_catalog() {
    let mut log = EventLog::new();
    let mut pallet = Pallet::new();
    assert_eq!(pallet.save_taboo_foods(&mut log, Origin::Signed(0), 1, b"a".to_vec()), Err(Error::IsNotRoot));
    assert_eq!(
        pallet.save_taboo_foods(&mut log, Origin::Signed(u64::MAX), 1, b"a".to_vec()),
        Err(Error::IsNotRoot)
    );
    assert_eq!(pallet.save_taboo_foods(&mut log, Origin::Anonymous, 1, b"a".to_vec()), Err(Error::IsNotRoot));
    assert_eq!(pallet.chronic_taboo(&1), None);
    assert!(log.is_empty());
}

#[test]
fn catalog_is_independent_of_relations() {
    let mut log = EventLog::new();
    let mut pallet = Pallet::new();
    assert_eq!(pallet.save_taboo_foods(&mut log, Origin::Root, u16::MAX, Vec::new()), Ok(()));
    assert_eq!(pallet.chronic_taboo(&u16::MAX), Some(Vec::new()));
    assert_eq!(pallet.chronic_taboo(&0), None);
    assert!(!pallet.relation_stored(&0, &0));
    let info = PersonInfo::new(b"A".to_vec(), b"1".to_vec(), 1, 2, b"65535".to_vec());
    assert_eq!(pallet.bind_info(&mut log, Origin::Signed(1), 1, info), Ok(()));
    assert_eq!(pallet.chronic_taboo(&u16::MAX), Some(Vec::new()));
    assert_eq!(pallet.chronic_taboo(&1), None);
}
