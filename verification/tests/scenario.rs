use medledger::errors::LedgerError;
use medledger::event::GrantEvent;
use medledger::ledger::Ledger;
use medledger::states::{EncAlgo, Expiry, WrapAlgo, SCOPE_READ, SCOPE_WRITE};

const AUTH: u64 = 1;
const HOSP: u64 = 100;
const PAT: u64 = 7;
const READER: u64 = 9;

fn create_default(l: &mut Ledger, seq: u64, now: i64) -> Result<medledger::event::RecordCreated, LedgerError> {
    l.record_create(
        HOSP,
        PAT,
        HOSP,
        seq,
        "cid-1".to_string(),
        "application/pdf".to_string(),
        "meta-1".to_string(),
        1024,
        [0u8; 32],
        vec![],
        vec![1, 2, 3],
        vec![4, 5, 6],
        WrapAlgo::SealedBox,
        WrapAlgo::SealedBox,
        WrapAlgo::SealedBox,
        "".to_string(),
        "General".to_string(),
        "Dr. A".to_string(),
        1,
        EncAlgo::XChaCha20,
        now,
    )
}

#[test]
fn full_flow_upsert_register_grant_create_read_revoke() {
    let mut l = Ledger::new();
    assert!(l.config_init(AUTH, "ns".to_string(), 10).is_ok());

    // Patient P upserts: created, counter at 0.
    let up = l.patient_upsert(PAT, PAT, "did:example:1".to_string(), 20).ok().unwrap();
    assert!(up.created);
    assert_eq!(l.get_seq_value(PAT), Some(0));
    assert_eq!(l.get_patient(PAT).unwrap().did, "did:example:1");

    // Hospital H registers with name "General".
    let reg = l
        .hospitals_register(AUTH, HOSP, "General".to_string(), "kms-h".to_string(), 30)
        .ok()
        .unwrap();
    assert_eq!(reg.hospital_authority, HOSP);
    assert_eq!(reg.name, "General");

    // P grants H WRITE with no expiry.
    let g = l.access_grant(PAT, PAT, HOSP, SCOPE_WRITE, Expiry::Never, 40);
    match g.ok().unwrap() {
        GrantEvent::Direct(ev) => {
            assert_eq!(ev.grantee, HOSP);
            assert_eq!(ev.scope, SCOPE_WRITE);
            assert_eq!(ev.expires_at, None);
        }
        GrantEvent::ViaTrustee(_) => panic!("the owner granted directly"),
    }

    // H creates record 0: counter advances to 1, the record exists.
    let ev = create_default(&mut l, 0, 50).ok().unwrap();
    assert_eq!(ev.seq, 0);
    assert_eq!(ev.created_at, 50);
    assert_eq!(l.get_seq_value(PAT), Some(1));
    let rec = l.get_record(PAT, 0).unwrap();
    assert_eq!(rec.hospital, HOSP);
    assert_eq!(rec.uploader, HOSP);

    // Replaying seq 0 fails BadSeq and the counter stays.
    assert_eq!(create_default(&mut l, 0, 60).err(), Some(LedgerError::BadSeq));
    assert_eq!(l.get_seq_value(PAT), Some(1));

    // P grants R READ for one hour.
    let gr = l.access_grant(PAT, PAT, READER, SCOPE_READ, Expiry::After(3600), 70);
    match gr.ok().unwrap() {
        GrantEvent::Direct(ev) => assert_eq!(ev.expires_at, Some(70 + 3600)),
        GrantEvent::ViaTrustee(_) => panic!("the owner granted directly"),
    }

    // R reads record 0: the event names record, patient, hospital, reader.
    let rd = l.records_read(PAT, 0, READER).ok().unwrap();
    assert_eq!(rd.patient, PAT);
    assert_eq!(rd.hospital, HOSP);
    assert_eq!(rd.reader, READER);
    assert_eq!(rd.seq, 0);

    // P revokes R's grant; the next read fails GrantRevoked.
    assert!(l.grant_revoke(PAT, PAT, READER, SCOPE_READ, 80).is_ok());
    assert_eq!(l.records_read(PAT, 0, READER).err(), Some(LedgerError::GrantRevoked));
}

#[test]
fn sequence_chain_stays_gapless() {
    let mut l = Ledger::new();
    l.config_init(AUTH, "ns".to_string(), 0).ok().unwrap();
    l.patient_upsert(PAT, PAT, "did:example:1".to_string(), 0).ok().unwrap();
    l.hospitals_register(AUTH, HOSP, "General".to_string(), "kms-h".to_string(), 0)
        .ok()
        .unwrap();
    l.access_grant(PAT, PAT, HOSP, SCOPE_WRITE, Expiry::Never, 0).ok().unwrap();

    // Skipping ahead fails, replaying fails, the exact counter succeeds.
    assert_eq!(create_default(&mut l, 1, 1).err(), Some(LedgerError::BadSeq));
    assert!(create_default(&mut l, 0, 1).is_ok());
    assert!(create_default(&mut l, 1, 2).is_ok());
    assert_eq!(create_default(&mut l, 1, 3).err(), Some(LedgerError::BadSeq));
    assert_eq!(create_default(&mut l, 3, 3).err(), Some(LedgerError::BadSeq));
    assert!(create_default(&mut l, 2, 3).is_ok());
    assert_eq!(l.get_seq_value(PAT), Some(3));
    assert!(l.get_record(PAT, 0).is_some());
    assert!(l.get_record(PAT, 1).is_some());
    assert!(l.get_record(PAT, 2).is_some());
    assert!(l.get_record(PAT, 3).is_none());
}
