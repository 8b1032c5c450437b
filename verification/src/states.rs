use vstd::prelude::*;

verus! {

// Permission bits that a Grant's scope bitmask may combine.
pub const SCOPE_READ: u8 = 0x01;
pub const SCOPE_WRITE: u8 = 0x02;
pub const SCOPE_ADMIN: u8 = 0x04;

// Bounds on stored text fields, counted in characters.
pub const MAX_NAME_LEN: usize = 100;
pub const MAX_CID_LEN: usize = 100;
pub const MAX_KMS_REF_LEN: usize = 64;
pub const MAX_META_MIME_LEN: usize = 40;
pub const MAX_DID_LEN: usize = 128;
pub const MAX_HOSPITAL_NAME_LEN: usize = 128;
pub const MAX_DOCTOR_NAME_LEN: usize = 128;

/// A scope is a non-empty subset of {READ, WRITE, ADMIN}: no other bit may be set.
pub open spec fn scope_valid(scope: u8) -> bool {
    scope != 0 && scope & !(SCOPE_READ | SCOPE_WRITE | SCOPE_ADMIN) == 0
}

/// How a wrapped data-encryption key was produced. `Kms` defers to an
/// external key-management service and therefore needs a key reference.
#[derive(Clone, Copy, PartialEq, Eq, Structural, Debug)]
pub enum WrapAlgo {
    Kms,
    SealedBox,
    Other,
}

/// The content-encryption algorithm recorded on a record envelope.
#[derive(Clone, Copy, PartialEq, Eq, Structural, Debug)]
pub enum EncAlgo {
    XChaCha20,
    AesGcm,
    Other,
}

/// When a grant stops being usable: never, at an absolute Unix timestamp,
/// or after a duration in seconds counted from the moment of granting.
#[derive(Clone, Copy, PartialEq, Eq, Structural, Debug)]
pub enum Expiry {
    Never,
    At(i64),
    After(i64),
}

/// Process-wide singleton: the administering authority, the pause switch
/// and the key-service namespace tag.
pub struct Config {
    pub authority: u64,
    pub paused: bool,
    pub kms_namespace: String,
}

/// Mathematical image of `Config`.
pub struct ConfigV {
    pub authority: u64,
    pub paused: bool,
    pub kms_namespace: Seq<char>,
}

impl View for Config {
    type V = ConfigV;

    open spec fn view(&self) -> ConfigV {
        ConfigV {
            authority: self.authority,
            paused: self.paused,
            kms_namespace: self.kms_namespace@,
        }
    }
}

/// A record-producing organization, keyed by its signing identity.
pub struct Hospital {
    pub authority: u64,
    pub name: String,
    pub kms_ref: String,
    pub registered_by: u64,
    pub created_at: i64,
}

/// Mathematical image of `Hospital`.
pub struct HospitalV {
    pub authority: u64,
    pub name: Seq<char>,
    pub kms_ref: Seq<char>,
    pub registered_by: u64,
    pub created_at: i64,
}

impl View for Hospital {
    type V = HospitalV;

    open spec fn view(&self) -> HospitalV {
        HospitalV {
            authority: self.authority,
            name: self.name@,
            kms_ref: self.kms_ref@,
            registered_by: self.registered_by,
            created_at: self.created_at,
        }
    }
}

/// A record owner, keyed by their identity.
pub struct Patient {
    pub patient_pubkey: u64,
    pub did: String,
    pub created_at: i64,
}

/// Mathematical image of `Patient`.
pub struct PatientV {
    pub patient_pubkey: u64,
    pub did: Seq<char>,
    pub created_at: i64,
}

impl View for Patient {
    type V = PatientV;

    open spec fn view(&self) -> PatientV {
        PatientV {
            patient_pubkey: self.patient_pubkey,
            did: self.did@,
            created_at: self.created_at,
        }
    }
}

/// The strictly monotonic per-owner counter: `value` is the sequence number
/// the next record for this owner must carry.
#[derive(Clone, Copy)]
pub struct PatientSeq {
    pub patient: u64,
    pub value: u64,
}

impl View for PatientSeq {
    type V = PatientSeq;

    open spec fn view(&self) -> PatientSeq {
        *self
    }
}

/// A delegated proxy identity for one owner, revocable once and for all.
#[derive(Clone, Copy)]
pub struct Trustee {
    pub patient: u64,
    pub trustee: u64,
    pub added_by: u64,
    pub created_at: i64,
    pub revoked: bool,
    pub revoked_at: Option<i64>,
}

impl View for Trustee {
    type V = Trustee;

    open spec fn view(&self) -> Trustee {
        *self
    }
}

/// An authorization record keyed by (owner, grantee, scope byte), optionally
/// time-bounded, revocable one way.
#[derive(Clone, Copy)]
pub struct Grant {
    pub patient: u64,
    pub grantee: u64,
    pub scope: u8,
    pub created_by: u64,
    pub created_at: i64,
    pub via_trustee: bool,
    pub expires_at: Option<i64>,
    pub revoked: bool,
    pub revoked_at: Option<i64>,
}

impl View for Grant {
    type V = Grant;

    open spec fn view(&self) -> Grant {
        *self
    }
}

/// One immutable record envelope, keyed by (owner, sequence number).
pub struct Record {
    pub patient: u64,
    pub hospital: u64,
    pub uploader: u64,
    pub cid_enc: String,
    pub meta_mime: String,
    pub meta_cid: String,
    pub size_bytes: u64,
    pub blake2b_256: [u8; 32],
    pub edek_root: Vec<u8>,
    pub edek_for_patient: Vec<u8>,
    pub edek_for_hospital: Vec<u8>,
    pub edek_root_algo: WrapAlgo,
    pub edek_patient_algo: WrapAlgo,
    pub edek_hospital_algo: WrapAlgo,
    pub kms_ref: String,
    pub seq: u64,
    pub enc_version: u16,
    pub enc_algo: EncAlgo,
    pub created_at: i64,
    pub updated_at: i64,
    pub patient_pubkey: u64,
    pub hospital_pubkey: u64,
    pub hospital_name: String,
    pub doctor_name: String,
}

/// Mathematical image of `Record`.
pub struct RecordV {
    pub patient: u64,
    pub hospital: u64,
    pub uploader: u64,
    pub cid_enc: Seq<char>,
    pub meta_mime: Seq<char>,
    pub meta_cid: Seq<char>,
    pub size_bytes: u64,
    pub blake2b_256: Seq<u8>,
    pub edek_root: Seq<u8>,
    pub edek_for_patient: Seq<u8>,
    pub edek_for_hospital: Seq<u8>,
    pub edek_root_algo: WrapAlgo,
    pub edek_patient_algo: WrapAlgo,
    pub edek_hospital_algo: WrapAlgo,
    pub kms_ref: Seq<char>,
    pub seq: u64,
    pub enc_version: u16,
    pub enc_algo: EncAlgo,
    pub created_at: i64,
    pub updated_at: i64,
    pub patient_pubkey: u64,
    pub hospital_pubkey: u64,
    pub hospital_name: Seq<char>,
    pub doctor_name: Seq<char>,
}

impl View for Record {
    type V = RecordV;

    open spec fn view(&self) -> RecordV {
        RecordV {
            patient: self.patient,
            hospital: self.hospital,
            uploader: self.uploader,
            cid_enc: self.cid_enc@,
            meta_mime: self.meta_mime@,
            meta_cid: self.meta_cid@,
            size_bytes: self.size_bytes,
            blake2b_256: self.blake2b_256@,
            edek_root: self.edek_root@,
            edek_for_patient: self.edek_for_patient@,
            edek_for_hospital: self.edek_for_hospital@,
            edek_root_algo: self.edek_root_algo,
            edek_patient_algo: self.edek_patient_algo,
            edek_hospital_algo: self.edek_hospital_algo,
            kms_ref: self.kms_ref@,
            seq: self.seq,
            enc_version: self.enc_version,
            enc_algo: self.enc_algo,
            created_at: self.created_at,
            updated_at: self.updated_at,
            patient_pubkey: self.patient_pubkey,
            hospital_pubkey: self.hospital_pubkey,
            hospital_name: self.hospital_name@,
            doctor_name: self.doctor_name@,
        }
    }
}

/// Field bounds a stored hospital always satisfies.
pub open spec fn hospital_wf(h: HospitalV) -> bool {
    &&& 1 <= h.name.len() <= MAX_NAME_LEN as int
    &&& 1 <= h.kms_ref.len() <= MAX_KMS_REF_LEN as int
}

/// Field bounds a stored patient always satisfies.
pub open spec fn patient_wf(p: PatientV) -> bool {
    p.did.len() <= MAX_DID_LEN as int
}

/// A stored grant carries a valid scope, and a grant a trustee made is
/// read-only.
pub open spec fn grant_wf(g: Grant) -> bool {
    &&& scope_valid(g.scope)
    &&& g.via_trustee ==> g.scope == SCOPE_READ
}

/// Field bounds and identity ties a stored record always satisfies: the
/// uploader is the producing hospital's registered authority, and the
/// denormalized identities agree with the record's key.
pub open spec fn record_wf(r: RecordV) -> bool {
    &&& 1 <= r.cid_enc.len() <= MAX_CID_LEN as int
    &&& 1 <= r.meta_mime.len() <= MAX_META_MIME_LEN as int
    &&& r.meta_cid.len() <= MAX_CID_LEN as int
    &&& r.kms_ref.len() <= MAX_KMS_REF_LEN as int
    &&& r.hospital_name.len() <= MAX_HOSPITAL_NAME_LEN as int
    &&& r.doctor_name.len() <= MAX_DOCTOR_NAME_LEN as int
    &&& r.size_bytes > 0
    &&& r.edek_for_patient.len() > 0
    &&& r.edek_for_hospital.len() > 0
    &&& r.uploader == r.hospital
    &&& r.hospital_pubkey == r.hospital
    &&& r.patient_pubkey == r.patient
}

} // verus!
