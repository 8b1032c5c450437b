use vstd::prelude::*;

use crate::errors::LedgerError;
use crate::grant_ops::{access_grant_check, grant_revoke_check};
use crate::ledger::{
    grant_at, has_grant, has_hospital, has_patient, has_record, has_seqctr, has_trustee,
    hospital_at,
    lemma_patient_at, lemma_seqctr_at, patient_at, record_index, record_keyed, seqctr_at,
    seqctr_index, trustee_at, LedgerV,
};
use crate::patient_ops::{lemma_patient_upsert_wf, patient_upsert_apply, patient_upsert_check};
use crate::record_ops::{
    lemma_record_create_wf, record_create_apply, record_create_check, records_read_check,
    RecordArgsV,
};
use crate::states::{scope_valid, Expiry, MAX_DID_LEN, SCOPE_ADMIN, SCOPE_READ, SCOPE_WRITE};
use crate::trustee_ops::trustee_revoke_check;

verus! {

/// Sequence monotonicity, standing part: under well-formedness an owner's
/// records are exactly the sequence numbers strictly below the owner's
/// counter — the gapless chain 0,1,2,… with no repeat.
pub proof fn lemma_sequence_chain(l: LedgerV, patient: u64, seq: u64)
    requires
        l.wf(),
        has_seqctr(l.seqs, patient),
    ensures
        has_record(l.records, patient, seq) <==> seq < seqctr_at(l.seqs, patient).value,
{
    if has_record(l.records, patient, seq) {
        let k = record_index(l.records, patient, seq);
        assert(0 <= k < l.records.len() && record_keyed(l.records[k], patient, seq));
        assert(l.records[k].seq < seqctr_at(l.seqs, l.records[k].patient).value);
    }
    if seq < seqctr_at(l.seqs, patient).value {
        let ci = seqctr_index(l.seqs, patient);
        assert(0 <= ci < l.seqs.len() && l.seqs[ci].patient == patient);
        lemma_seqctr_at(l.seqs, patient, ci);
        assert(has_record(l.records, l.seqs[ci].patient, seq));
    }
}

/// Sequence monotonicity, stepping part: a creation is accepted only with
/// `seq` exactly the owner's counter; on success the counter advances to
/// seq + 1 and the record fills slot seq. With any other `seq` the check is
/// `BadSeq`, and `record_create`'s contract then leaves the state unchanged.
pub proof fn lemma_create_seq_discipline(l: LedgerV, a: RecordArgsV, now: i64)
    requires
        l.wf(),
    ensures
        record_create_check(l, a, now) is None ==> {
            &&& a.seq == seqctr_at(l.seqs, a.patient).value
            &&& seqctr_at(record_create_apply(l, a, now).seqs, a.patient).value == a.seq + 1
            &&& has_record(record_create_apply(l, a, now).records, a.patient, a.seq)
        },
        record_create_check(l, a, now) == Some(LedgerError::BadSeq) ==> a.seq != seqctr_at(
            l.seqs,
            a.patient,
        ).value,
        a.seq != seqctr_at(l.seqs, a.patient).value ==> record_create_check(l, a, now) is Some,
{
    if record_create_check(l, a, now) is None {
        lemma_record_create_wf(l, a, now);
        let l2 = record_create_apply(l, a, now);
        let ci = seqctr_index(l.seqs, a.patient);
        assert(has_seqctr(l.seqs, a.patient));
        assert(0 <= ci < l.seqs.len() && l.seqs[ci].patient == a.patient);
        lemma_seqctr_at(l2.seqs, a.patient, ci);
        let n = l.records.len() as int;
        assert(record_keyed(l2.records[n], a.patient, a.seq));
    }
}

/// Revocation monotonicity for grants, first half: a revoked grant can
/// never be revoked again — the owner is told `AlreadyRevoked`, anyone
/// else fails too.
pub proof fn lemma_revoked_grant_stays_revoked(
    l: LedgerV,
    caller: u64,
    patient: u64,
    grantee: u64,
    scope: u8,
)
    requires
        l.wf(),
        has_grant(l.grants, patient, grantee, scope),
        grant_at(l.grants, patient, grantee, scope).revoked,
    ensures
        grant_revoke_check(l, caller, patient, grantee, scope) is Some,
        caller == patient ==> grant_revoke_check(l, caller, patient, grantee, scope) == Some(
            LedgerError::AlreadyRevoked,
        ),
{
}

/// Revocation monotonicity for grants, second half: a creation that relies
/// on a revoked WRITE grant fails `GrantRevoked`, whatever else it carries.
pub proof fn lemma_create_with_revoked_grant(l: LedgerV, a: RecordArgsV, now: i64)
    requires
        l.wf(),
        l.config is Some,
        !l.paused(),
        has_hospital(l.hospitals, a.hospital),
        a.caller == hospital_at(l.hospitals, a.hospital).authority,
        has_patient(l.patients, a.patient),
        has_grant(l.grants, a.patient, a.hospital, SCOPE_WRITE),
        grant_at(l.grants, a.patient, a.hospital, SCOPE_WRITE).revoked,
    ensures
        record_create_check(l, a, now) == Some(LedgerError::GrantRevoked),
{
}

/// Revocation monotonicity for grants, third half: a read that relies on a
/// revoked READ grant fails `GrantRevoked`, whoever asks for whichever
/// existing record.
pub proof fn lemma_read_with_revoked_grant(l: LedgerV, patient: u64, seq: u64, reader: u64)
    requires
        l.wf(),
        l.config is Some,
        !l.paused(),
        has_record(l.records, patient, seq),
        has_grant(l.grants, patient, reader, SCOPE_READ),
        grant_at(l.grants, patient, reader, SCOPE_READ).revoked,
    ensures
        records_read_check(l, patient, seq, reader) == Some(LedgerError::GrantRevoked),
{
    let k = record_index(l.records, patient, seq);
    assert(0 <= k < l.records.len() && record_keyed(l.records[k], patient, seq));
    assert(has_seqctr(l.seqs, l.records[k].patient));
}

/// Revocation monotonicity for trustees: a revoked trustee can never be
/// revoked again, and a grant attempted through them fails
/// `UnauthorizedGrant` — re-adding the slot does not restore it either
/// (`trustee_add_apply` leaves an existing slot untouched).
pub proof fn lemma_revoked_trustee_stays_revoked(
    l: LedgerV,
    caller: u64,
    patient: u64,
    trustee: u64,
)
    requires
        l.wf(),
        has_trustee(l.trustees, patient, trustee),
        trustee_at(l.trustees, patient, trustee).revoked,
    ensures
        trustee_revoke_check(l, caller, patient, trustee) is Some,
        caller == patient ==> trustee_revoke_check(l, caller, patient, trustee) == Some(
            LedgerError::AlreadyRevoked,
        ),
{
}

/// Revocation monotonicity for trustees, granting half: with the config in
/// force, a valid scope and a registered patient, a grant attempted by a
/// revoked trustee fails `UnauthorizedGrant`, for every grantee and expiry.
pub proof fn lemma_grant_via_revoked_trustee(
    l: LedgerV,
    caller: u64,
    patient: u64,
    grantee: u64,
    scope: u8,
    expiry: Expiry,
    now: i64,
)
    requires
        l.wf(),
        l.config is Some,
        !l.paused(),
        scope_valid(scope),
        has_patient(l.patients, patient),
        caller != patient,
        has_trustee(l.trustees, patient, caller),
        trustee_at(l.trustees, patient, caller).revoked,
    ensures
        access_grant_check(l, caller, patient, grantee, scope, expiry, now) == Some(
            LedgerError::UnauthorizedGrant,
        ),
{
}

/// Scope closure: a scope of zero, or with any bit outside
/// {READ, WRITE, ADMIN}, is rejected as `InvalidScope` — for every caller,
/// patient, grantee and expiry.
pub proof fn lemma_scope_closure(
    l: LedgerV,
    caller: u64,
    patient: u64,
    grantee: u64,
    scope: u8,
    expiry: Expiry,
    now: i64,
)
    requires
        l.config is Some,
        !l.paused(),
        !scope_valid(scope),
    ensures
        access_grant_check(l, caller, patient, grantee, scope, expiry, now) == Some(
            LedgerError::InvalidScope,
        ),
{
}

/// Trustee read-only: a grant attempted by a non-revoked trustee with a
/// valid scope containing WRITE or ADMIN fails `ReadOnlyRestriction`,
/// whatever the combination. (A scope with a bit outside the three defined
/// ones fails `InvalidScope` instead, for every caller — see
/// `lemma_scope_closure`.)
pub proof fn lemma_trustee_read_only(
    l: LedgerV,
    caller: u64,
    patient: u64,
    grantee: u64,
    scope: u8,
    expiry: Expiry,
    now: i64,
)
    requires
        l.wf(),
        l.config is Some,
        !l.paused(),
        scope_valid(scope),
        scope & (SCOPE_WRITE | SCOPE_ADMIN) != 0,
        has_patient(l.patients, patient),
        caller != patient,
        has_trustee(l.trustees, patient, caller),
        !trustee_at(l.trustees, patient, caller).revoked,
    ensures
        access_grant_check(l, caller, patient, grantee, scope, expiry, now) == Some(
            LedgerError::ReadOnlyRestriction,
        ),
{
    assert((1u8 & (2u8 | 4u8)) == 0u8) by (bit_vector);
    assert(scope != SCOPE_READ);
}

/// Idempotent upsert: with no profile for `owner` yet, a first upsert
/// creates the profile with its counter at 0; a second upsert by the owner
/// with another did is accepted as an update — the profile already exists,
/// so the reported event carries `created == false` — and the stored did is
/// the second one; an upsert of that profile by anyone else fails
/// `Unauthorized`.
pub proof fn lemma_upsert_idempotent(
    l: LedgerV,
    owner: u64,
    did1: Seq<char>,
    did2: Seq<char>,
    other: u64,
    now1: i64,
    now2: i64,
)
    requires
        l.wf(),
        !has_patient(l.patients, owner),
        did1.len() <= MAX_DID_LEN as int,
        did2.len() <= MAX_DID_LEN as int,
        other != owner,
    ensures
        ({
            let l1 = patient_upsert_apply(l, owner, did1, now1);
            let l2 = patient_upsert_apply(l1, owner, did2, now2);
            &&& patient_upsert_check(l, owner, owner, did1) is None
            &&& has_patient(l1.patients, owner)
            &&& seqctr_at(l1.seqs, owner).value == 0
            &&& patient_upsert_check(l1, owner, owner, did2) is None
            &&& has_patient(l2.patients, owner)
            &&& patient_at(l2.patients, owner).did == did2
            &&& patient_upsert_check(l2, other, owner, did2) == Some(LedgerError::Unauthorized)
        }),
{
    let l1 = patient_upsert_apply(l, owner, did1, now1);
    lemma_patient_upsert_wf(l, owner, did1, now1);
    let n = l.patients.len() as int;
    lemma_patient_at(l1.patients, owner, n);
    let m = l.seqs.len() as int;
    lemma_seqctr_at(l1.seqs, owner, m);
    let l2 = patient_upsert_apply(l1, owner, did2, now2);
    lemma_patient_upsert_wf(l1, owner, did2, now2);
    lemma_patient_at(l2.patients, owner, n);
}

} // verus!
