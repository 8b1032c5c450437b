use medledger::errors::LedgerError;
use medledger::event::RecordCreated;
use medledger::ledger::Ledger;
use medledger::states::{EncAlgo, Expiry, PatientSeq, WrapAlgo, SCOPE_READ, SCOPE_WRITE};

const AUTH: u64 = 1;
const HOSP: u64 = 100;
const PAT: u64 = 7;
const READER: u64 = 9;
const OTHER: u64 = 8;

struct Args {
    caller: u64,
    seq: u64,
    cid: String,
    mime: String,
    meta_cid: String,
    size: u64,
    edek_patient: Vec<u8>,
    edek_hospital: Vec<u8>,
    root_algo: WrapAlgo,
    kms_ref: String,
    hospital_name: String,
    doctor_name: String,
}

impl Args {
    fn ok(seq: u64) -> Args {
        Args {
            caller: HOSP,
            seq,
            cid: "cid-1".to_string(),
            mime: "application/pdf".to_string(),
            meta_cid: "meta-1".to_string(),
            size: 1024,
            edek_patient: vec![1, 2, 3],
            edek_hospital: vec![4, 5, 6],
            root_algo: WrapAlgo::SealedBox,
            kms_ref: "".to_string(),
            hospital_name: "General".to_string(),
            doctor_name: "Dr. A".to_string(),
        }
    }
}

fn create(l: &mut Ledger, a: Args, now: i64) -> Result<RecordCreated, LedgerError> {
    l.record_create(
        a.caller,
        PAT,
        HOSP,
        a.seq,
        a.cid,
        a.mime,
        a.meta_cid,
        a.size,
        [9u8; 32],
        vec![],
        a.edek_patient,
        a.edek_hospital,
        a.root_algo,
        WrapAlgo::SealedBox,
        WrapAlgo::SealedBox,
        a.kms_ref,
        a.hospital_name,
        a.doctor_name,
        2,
        EncAlgo::AesGcm,
        now,
    )
}

fn setup() -> Ledger {
    let mut l = Ledger::new();
    l.config_init(AUTH, "ns".to_string(), 0).ok().unwrap();
    l.patient_upsert(PAT, PAT, "did:example:1".to_string(), 0).ok().unwrap();
    l.hospitals_register(AUTH, HOSP, "General".to_string(), "kms-h".to_string(), 0)
        .ok()
        .unwrap();
    l.access_grant(PAT, PAT, HOSP, SCOPE_WRITE, Expiry::Never, 0).ok().unwrap();
    l
}

#[test]
fn create_stores_the_full_envelope() {
    let mut l = setup();
    let ev = create(&mut l, Args::ok(0), 50).ok().unwrap();
    assert_eq!(
        (ev.patient, ev.hospital, ev.uploader, ev.seq, ev.enc_version, ev.created_at),
        (PAT, HOSP, HOSP, 0, 2, 50)
    );
    let r = l.get_record(PAT, 0).unwrap();
    assert_eq!(r.cid_enc, "cid-1");
    assert_eq!(r.meta_mime, "application/pdf");
    assert_eq!(r.meta_cid, "meta-1");
    assert_eq!(r.size_bytes, 1024);
    assert_eq!(r.blake2b_256, [9u8; 32]);
    assert_eq!(r.edek_for_patient, vec![1, 2, 3]);
    assert_eq!(r.edek_for_hospital, vec![4, 5, 6]);
    assert_eq!(r.seq, 0);
    assert_eq!(r.created_at, 50);
    assert_eq!(r.updated_at, 50);
    assert_eq!(r.patient_pubkey, PAT);
    assert_eq!(r.hospital_pubkey, HOSP);
    assert_eq!(r.hospital_name, "General");
    assert_eq!(r.doctor_name, "Dr. A");
}

#[test]
fn create_trims_text_fields() {
    let mut l = setup();
    let mut a = Args::ok(0);
    a.cid = "  cid-1  ".to_string();
    a.hospital_name = " General ".to_string();
    assert!(create(&mut l, a, 1).is_ok());
    let r = l.get_record(PAT, 0).unwrap();
    assert_eq!(r.cid_enc, "cid-1");
    assert_eq!(r.hospital_name, "General");
}

#[test]
fn create_checks_the_gates_in_order() {
    // No config, then paused.
    let mut bare = Ledger::new();
    assert_eq!(create(&mut bare, Args::ok(0), 1).err(), Some(LedgerError::InvalidArgument));
    let mut l = setup();
    l.paused_set(AUTH, true, 1).ok().unwrap();
    assert_eq!(create(&mut l, Args::ok(0), 2).err(), Some(LedgerError::Paused));
    l.paused_set(AUTH, false, 3).ok().unwrap();
    // The uploader must be the hospital's registered authority.
    let mut a = Args::ok(0);
    a.caller = OTHER;
    assert_eq!(create(&mut l, a, 4).err(), Some(LedgerError::UploaderMismatch));
}

#[test]
fn create_requires_a_live_write_grant() {
    let mut l = Ledger::new();
    l.config_init(AUTH, "ns".to_string(), 0).ok().unwrap();
    l.patient_upsert(PAT, PAT, "d".to_string(), 0).ok().unwrap();
    l.hospitals_register(AUTH, HOSP, "General".to_string(), "k".to_string(), 0).ok().unwrap();
    // No grant at all: the WRITE slot does not resolve.
    assert_eq!(create(&mut l, Args::ok(0), 1).err(), Some(LedgerError::GrantMismatch));
    // A READ|WRITE mask lives at another address than the WRITE slot.
    l.access_grant(PAT, PAT, HOSP, SCOPE_READ | SCOPE_WRITE, Expiry::Never, 1).ok().unwrap();
    assert_eq!(create(&mut l, Args::ok(0), 2).err(), Some(LedgerError::GrantMismatch));
    // A revoked WRITE grant refuses.
    l.access_grant(PAT, PAT, HOSP, SCOPE_WRITE, Expiry::Never, 2).ok().unwrap();
    l.grant_revoke(PAT, PAT, HOSP, SCOPE_WRITE, 3).ok().unwrap();
    assert_eq!(create(&mut l, Args::ok(0), 4).err(), Some(LedgerError::GrantRevoked));
    // Re-granted with an expiry: usable until then, expired at and after it.
    l.access_grant(PAT, PAT, HOSP, SCOPE_WRITE, Expiry::At(100), 5).ok().unwrap();
    assert_eq!(create(&mut l, Args::ok(0), 100).err(), Some(LedgerError::GrantExpired));
    assert_eq!(create(&mut l, Args::ok(0), 101).err(), Some(LedgerError::GrantExpired));
    assert!(create(&mut l, Args::ok(0), 99).is_ok());
}

#[test]
fn create_validates_every_field() {
    let mut l = setup();
    let cases: Vec<(Args, LedgerError)> = vec![
        (
            {
                let mut a = Args::ok(0);
                a.cid = "   ".to_string();
                a
            },
            LedgerError::EmptyCidEnc,
        ),
        (
            {
                let mut a = Args::ok(0);
                a.cid = "c".repeat(101);
                a
            },
            LedgerError::CidTooLong,
        ),
        (
            {
                let mut a = Args::ok(0);
                a.mime = "".to_string();
                a
            },
            LedgerError::EmptyMime,
        ),
        (
            {
                let mut a = Args::ok(0);
                a.mime = "m".repeat(41);
                a
            },
            LedgerError::MimeTooLong,
        ),
        (
            {
                let mut a = Args::ok(0);
                a.meta_cid = "m".repeat(101);
                a
            },
            LedgerError::MetaCidTooLong,
        ),
        (
            {
                let mut a = Args::ok(0);
                a.kms_ref = "k".repeat(65);
                a
            },
            LedgerError::KmsRefTooLong,
        ),
        (
            {
                let mut a = Args::ok(0);
                a.hospital_name = "h".repeat(129);
                a
            },
            LedgerError::HospitalNameTooLong,
        ),
        (
            {
                let mut a = Args::ok(0);
                a.doctor_name = "d".repeat(129);
                a
            },
            LedgerError::DoctorNameTooLong,
        ),
        (
            {
                let mut a = Args::ok(0);
                a.size = 0;
                a
            },
            LedgerError::SizeZero,
        ),
        (
            {
                let mut a = Args::ok(0);
                a.edek_patient = vec![];
                a
            },
            LedgerError::EdekMissing,
        ),
        (
            {
                let mut a = Args::ok(0);
                a.edek_hospital = vec![];
                a
            },
            LedgerError::EdekMissing,
        ),
        (
            {
                let mut a = Args::ok(0);
                a.root_algo = WrapAlgo::Kms;
                a.kms_ref = "  ".to_string();
                a
            },
            LedgerError::KmsRefRequired,
        ),
    ];
    for (a, want) in cases {
        assert_eq!(create(&mut l, a, 1).err(), Some(want));
        // Nothing was written and the counter did not move.
        assert_eq!(l.get_seq_value(PAT), Some(0));
        assert!(l.get_record(PAT, 0).is_none());
    }
    // A key-service root wrap with a reference is accepted, as is the
    // largest size.
    let mut a = Args::ok(0);
    a.root_algo = WrapAlgo::Kms;
    a.kms_ref = "kms-key-1".to_string();
    a.size = u64::MAX;
    assert!(create(&mut l, a, 1).is_ok());
}

#[test]
fn create_rejects_any_seq_but_the_counter() {
    let mut l = setup();
    assert_eq!(create(&mut l, Args::ok(5), 1).err(), Some(LedgerError::BadSeq));
    assert!(create(&mut l, Args::ok(0), 1).is_ok());
    assert_eq!(create(&mut l, Args::ok(0), 2).err(), Some(LedgerError::BadSeq));
    assert_eq!(l.get_seq_value(PAT), Some(1));
}

#[test]
fn counter_at_the_integer_edge_overflows_cleanly() {
    let mut l = setup();
    // Push the stored counter to the last representable value.
    l.seqs[0] = PatientSeq { patient: PAT, value: u64::MAX };
    assert_eq!(
        create(&mut l, Args::ok(u64::MAX), 1).err(),
        Some(LedgerError::SeqOverflow)
    );
    assert_eq!(l.get_seq_value(PAT), Some(u64::MAX));
}

#[test]
fn read_consumes_a_live_read_grant() {
    let mut l = setup();
    create(&mut l, Args::ok(0), 1).ok().unwrap();
    // No grant yet.
    assert_eq!(l.records_read(PAT, 0, READER).err(), Some(LedgerError::GrantMismatch));
    l.access_grant(PAT, PAT, READER, SCOPE_READ, Expiry::Never, 2).ok().unwrap();
    let ev = l.records_read(PAT, 0, READER).ok().unwrap();
    assert_eq!((ev.patient, ev.hospital, ev.reader, ev.seq), (PAT, HOSP, READER, 0));
    // A missing record does not resolve.
    assert_eq!(l.records_read(PAT, 1, READER).err(), Some(LedgerError::RecordMismatch));
    // Reading mutates nothing: it still works twice.
    assert!(l.records_read(PAT, 0, READER).is_ok());
    // Paused blocks reads too.
    l.paused_set(AUTH, true, 3).ok().unwrap();
    assert_eq!(l.records_read(PAT, 0, READER).err(), Some(LedgerError::Paused));
}
