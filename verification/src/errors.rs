use vstd::prelude::*;

verus! {

/// Every failure an operation can return. Each check that fails aborts the
/// whole operation with one of these kinds; no state is changed on failure.
///
/// `InvalidArgument` also covers naming an entity that does not exist
/// (a config, patient, hospital, trustee or grant the operation needs),
/// mirroring a store that cannot resolve the entity's deterministic address.
#[derive(Clone, Copy, PartialEq, Eq, Structural, Debug)]
pub enum LedgerError {
    AlreadyInitialized,
    InvalidArgument,
    TooLong,
    Unauthorized,
    Paused,
    AlreadyExists,
    AlreadyRevoked,
    UnauthorizedGrant,
    InvalidScope,
    ReadOnlyRestriction,
    BadExpiry,
    UploaderMismatch,
    GrantRevoked,
    GrantExpired,
    GrantMismatch,
    RecordMismatch,
    EmptyCidEnc,
    CidTooLong,
    EmptyMime,
    MimeTooLong,
    MetaCidTooLong,
    KmsRefTooLong,
    HospitalNameTooLong,
    DoctorNameTooLong,
    SizeZero,
    EdekMissing,
    KmsRefRequired,
    BadSeq,
    SeqOverflow,
}

} // verus!
