use medledger::errors::LedgerError;
use medledger::ledger::Ledger;

const AUTH: u64 = 1;
const OTHER: u64 = 2;
const HOSP: u64 = 100;

fn with_config() -> Ledger {
    let mut l = Ledger::new();
    l.config_init(AUTH, "ns".to_string(), 0).ok().unwrap();
    l
}

#[test]
fn register_trims_and_stores() {
    let mut l = with_config();
    let ev = l
        .hospitals_register(AUTH, HOSP, "  General  ".to_string(), " kms-h ".to_string(), 7)
        .ok()
        .unwrap();
    assert_eq!(ev.hospital_authority, HOSP);
    assert_eq!(ev.name, "General");
    assert_eq!(ev.kms_ref, "kms-h");
    assert_eq!(ev.registered_by, AUTH);
    assert_eq!(ev.created_at, 7);
    let h = l.get_hospital(HOSP).unwrap();
    assert_eq!(h.name, "General");
    assert_eq!(h.kms_ref, "kms-h");
    assert_eq!(h.registered_by, AUTH);
}

#[test]
fn register_requires_the_config_authority() {
    let mut l = with_config();
    let r = l.hospitals_register(OTHER, HOSP, "General".to_string(), "k".to_string(), 0);
    assert_eq!(r.err(), Some(LedgerError::Unauthorized));
    assert!(l.get_hospital(HOSP).is_none());
}

#[test]
fn register_requires_a_config() {
    let mut l = Ledger::new();
    let r = l.hospitals_register(AUTH, HOSP, "General".to_string(), "k".to_string(), 0);
    assert_eq!(r.err(), Some(LedgerError::InvalidArgument));
}

#[test]
fn register_blocked_while_paused() {
    let mut l = with_config();
    l.paused_set(AUTH, true, 1).ok().unwrap();
    let r = l.hospitals_register(AUTH, HOSP, "General".to_string(), "k".to_string(), 2);
    assert_eq!(r.err(), Some(LedgerError::Paused));
}

#[test]
fn register_validates_name_and_key_reference() {
    let mut l = with_config();
    assert_eq!(
        l.hospitals_register(AUTH, HOSP, "   ".to_string(), "k".to_string(), 0).err(),
        Some(LedgerError::InvalidArgument)
    );
    assert_eq!(
        l.hospitals_register(AUTH, HOSP, "n".repeat(101), "k".to_string(), 0).err(),
        Some(LedgerError::TooLong)
    );
    assert_eq!(
        l.hospitals_register(AUTH, HOSP, "General".to_string(), "".to_string(), 0).err(),
        Some(LedgerError::InvalidArgument)
    );
    assert_eq!(
        l.hospitals_register(AUTH, HOSP, "General".to_string(), "k".repeat(65), 0).err(),
        Some(LedgerError::TooLong)
    );
    // The bounds themselves are accepted.
    assert!(l.hospitals_register(AUTH, HOSP, "n".repeat(100), "k".repeat(64), 0).is_ok());
}

#[test]
fn register_same_identity_twice_fails_already_exists() {
    let mut l = with_config();
    assert!(l.hospitals_register(AUTH, HOSP, "General".to_string(), "k".to_string(), 0).is_ok());
    let r = l.hospitals_register(AUTH, HOSP, "Other Name".to_string(), "k2".to_string(), 1);
    assert_eq!(r.err(), Some(LedgerError::AlreadyExists));
    // The first registration is untouched.
    assert_eq!(l.get_hospital(HOSP).unwrap().name, "General");
}
