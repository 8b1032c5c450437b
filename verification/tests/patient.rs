use medledger::errors::LedgerError;
use medledger::ledger::Ledger;

const PAT: u64 = 7;
const OTHER: u64 = 8;

#[test]
fn upsert_twice_updates_and_reports_created_flag() {
    let mut l = Ledger::new();
    let first = l.patient_upsert(PAT, PAT, "did:example:1".to_string(), 10).ok().unwrap();
    assert!(first.created);
    assert_eq!(first.created_at, 10);
    assert_eq!(first.updated_at, 10);
    assert_eq!(l.get_seq_value(PAT), Some(0));

    let second = l.patient_upsert(PAT, PAT, "did:example:2".to_string(), 20).ok().unwrap();
    assert!(!second.created);
    assert_eq!(second.created_at, 10);
    assert_eq!(second.updated_at, 20);
    assert_eq!(l.get_patient(PAT).unwrap().did, "did:example:2");

    let third = l.patient_upsert(OTHER, PAT, "did:example:3".to_string(), 30);
    assert_eq!(third.err(), Some(LedgerError::Unauthorized));
    assert_eq!(l.get_patient(PAT).unwrap().did, "did:example:2");
}

#[test]
fn upsert_keeps_the_counter_across_updates() {
    let mut l = Ledger::new();
    l.patient_upsert(PAT, PAT, "d1".to_string(), 0).ok().unwrap();
    assert_eq!(l.get_seq_value(PAT), Some(0));
    l.patient_upsert(PAT, PAT, "d2".to_string(), 1).ok().unwrap();
    assert_eq!(l.get_seq_value(PAT), Some(0));
}

#[test]
fn upsert_rejects_a_did_over_bound() {
    let mut l = Ledger::new();
    let r = l.patient_upsert(PAT, PAT, "d".repeat(129), 0);
    assert_eq!(r.err(), Some(LedgerError::TooLong));
    assert!(l.get_patient(PAT).is_none());
    // The bound itself is accepted, and an empty did is allowed.
    assert!(l.patient_upsert(PAT, PAT, "d".repeat(128), 1).is_ok());
    assert!(l.patient_upsert(PAT, PAT, "".to_string(), 2).is_ok());
    assert_eq!(l.get_patient(PAT).unwrap().did, "");
}

#[test]
fn upsert_creates_one_profile_per_owner() {
    let mut l = Ledger::new();
    l.patient_upsert(PAT, PAT, "d1".to_string(), 0).ok().unwrap();
    let other = l.patient_upsert(OTHER, OTHER, "d2".to_string(), 1).ok().unwrap();
    assert!(other.created);
    assert_eq!(l.get_patient(PAT).unwrap().did, "d1");
    assert_eq!(l.get_patient(OTHER).unwrap().did, "d2");
    assert_eq!(l.get_seq_value(OTHER), Some(0));
}
