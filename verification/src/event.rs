use vstd::prelude::*;

verus! {

// Every operation that commits reports an event value describing the state
// change; delivery to observers is the caller's concern, not the core's.

/// The config singleton was created.
#[derive(Clone, Debug)]
pub struct ConfigInitialized {
    pub authority: u64,
    pub kms_namespace: String,
    pub created_at: i64,
}

/// The pause switch changed (a call that leaves it as it was reports nothing).
#[derive(Clone, Copy, Debug)]
pub struct ProgramPauseUpdated {
    pub paused: bool,
    pub set_by: u64,
    pub at: i64,
}

/// A hospital was registered.
#[derive(Clone, Debug)]
pub struct HospitalRegistered {
    pub hospital_authority: u64,
    pub name: String,
    pub kms_ref: String,
    pub registered_by: u64,
    pub created_at: i64,
}

/// A patient profile was created (`created` true) or its did updated.
#[derive(Clone, Copy, Debug)]
pub struct PatientUpserted {
    pub patient_pubkey: u64,
    pub created: bool,
    pub created_at: i64,
    pub updated_at: i64,
}

/// A trustee slot was created or re-affirmed.
#[derive(Clone, Copy, Debug)]
pub struct TrusteeAdded {
    pub patient: u64,
    pub trustee: u64,
    pub added_at: i64,
}

/// A trustee was revoked, terminally.
#[derive(Clone, Copy, Debug)]
pub struct TrusteeRevoked {
    pub patient: u64,
    pub trustee: u64,
    pub revoked_at: i64,
}

/// The owner created or replaced a grant.
#[derive(Clone, Copy, Debug)]
pub struct GrantCreated {
    pub patient: u64,
    pub grantee: u64,
    pub scope: u8,
    pub expires_at: Option<i64>,
    pub created_by: u64,
    pub created_at: i64,
}

/// A trustee created or replaced a read-only grant on the owner's behalf.
#[derive(Clone, Copy, Debug)]
pub struct TrusteeGrantCreated {
    pub patient: u64,
    pub grantee: u64,
    pub trustee: u64,
    pub scope: u8,
    pub expires_at: Option<i64>,
    pub created_at: i64,
}

/// Which of the two granting variants committed.
#[derive(Clone, Copy, Debug)]
pub enum GrantEvent {
    Direct(GrantCreated),
    ViaTrustee(TrusteeGrantCreated),
}

/// A grant was revoked, terminally.
#[derive(Clone, Copy, Debug)]
pub struct GrantRevoked {
    pub patient: u64,
    pub grantee: u64,
    pub scope: u8,
    pub revoked_by: u64,
    pub revoked_at: i64,
}

/// A record envelope was appended to an owner's chain.
#[derive(Clone, Copy, Debug)]
pub struct RecordCreated {
    pub patient: u64,
    pub hospital: u64,
    pub uploader: u64,
    pub seq: u64,
    pub enc_version: u16,
    pub created_at: i64,
}

/// A read was authorized; this event is the only proof a read occurred.
#[derive(Clone, Copy, Debug)]
pub struct RecordRead {
    pub patient: u64,
    pub hospital: u64,
    pub reader: u64,
    pub seq: u64,
}

} // verus!
