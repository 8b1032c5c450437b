use medledger::errors::LedgerError;
use medledger::ledger::Ledger;

const AUTH: u64 = 1;
const OTHER: u64 = 2;

#[test]
fn init_stores_trimmed_namespace_and_authority() {
    let mut l = Ledger::new();
    let ev = l.config_init(AUTH, "  prod-ns  ".to_string(), 5).ok().unwrap();
    assert_eq!(ev.authority, AUTH);
    assert_eq!(ev.kms_namespace, "prod-ns");
    assert_eq!(ev.created_at, 5);
    let cfg = l.get_config().unwrap();
    assert_eq!(cfg.authority, AUTH);
    assert_eq!(cfg.kms_namespace, "prod-ns");
    assert!(!cfg.paused);
}

#[test]
fn init_twice_fails_already_initialized() {
    let mut l = Ledger::new();
    assert!(l.config_init(AUTH, "ns".to_string(), 0).is_ok());
    let r = l.config_init(OTHER, "ns2".to_string(), 1);
    assert_eq!(r.err(), Some(LedgerError::AlreadyInitialized));
    // The first authority still stands.
    assert_eq!(l.get_config().unwrap().authority, AUTH);
}

#[test]
fn init_rejects_empty_and_whitespace_namespace() {
    let mut l = Ledger::new();
    assert_eq!(
        l.config_init(AUTH, "".to_string(), 0).err(),
        Some(LedgerError::InvalidArgument)
    );
    assert_eq!(
        l.config_init(AUTH, "   ".to_string(), 0).err(),
        Some(LedgerError::InvalidArgument)
    );
    assert!(l.get_config().is_none());
}

#[test]
fn init_rejects_namespace_over_bound() {
    let mut l = Ledger::new();
    let long = "a".repeat(65);
    assert_eq!(l.config_init(AUTH, long, 0).err(), Some(LedgerError::InvalidArgument));
    let just_fits = "a".repeat(64);
    assert!(l.config_init(AUTH, just_fits, 0).is_ok());
}

#[test]
fn set_paused_flips_and_reports() {
    let mut l = Ledger::new();
    l.config_init(AUTH, "ns".to_string(), 0).ok().unwrap();
    let ev = l.paused_set(AUTH, true, 10).ok().unwrap().unwrap();
    assert!(ev.paused);
    assert_eq!(ev.set_by, AUTH);
    assert_eq!(ev.at, 10);
    assert!(l.get_config().unwrap().paused);
    let back = l.paused_set(AUTH, false, 20).ok().unwrap().unwrap();
    assert!(!back.paused);
    assert!(!l.get_config().unwrap().paused);
}

#[test]
fn set_paused_same_state_is_a_silent_success() {
    let mut l = Ledger::new();
    l.config_init(AUTH, "ns".to_string(), 0).ok().unwrap();
    assert!(l.paused_set(AUTH, false, 10).ok().unwrap().is_none());
    l.paused_set(AUTH, true, 20).ok().unwrap();
    assert!(l.paused_set(AUTH, true, 30).ok().unwrap().is_none());
}

#[test]
fn set_paused_rejects_strangers_and_missing_config() {
    let mut l = Ledger::new();
    assert_eq!(l.paused_set(AUTH, true, 0).err(), Some(LedgerError::InvalidArgument));
    l.config_init(AUTH, "ns".to_string(), 0).ok().unwrap();
    assert_eq!(l.paused_set(OTHER, true, 1).err(), Some(LedgerError::Unauthorized));
    assert!(!l.get_config().unwrap().paused);
}
