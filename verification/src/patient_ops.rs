use vstd::prelude::*;
use vstd::string::StrSliceExecFns;

use crate::errors::LedgerError;
use crate::event::PatientUpserted;
use crate::ledger::{
    find_patient, has_patient, has_record, has_seqctr, lemma_patient_at, lemma_seqctr_at,
    patient_at,
    patient_index, seqctr_at, seqctr_index, Ledger, LedgerV,
};
use crate::states::{Patient, PatientSeq, PatientV, MAX_DID_LEN};

verus! {

/// First failing check of `patient_upsert`: the did must fit its bound, and
/// only the owner may create or update their profile.
pub open spec fn patient_upsert_check(
    l: LedgerV,
    caller: u64,
    owner: u64,
    did: Seq<char>,
) -> Option<LedgerError> {
    if did.len() > MAX_DID_LEN as int {
        Some(LedgerError::TooLong)
    } else if caller != owner {
        Some(LedgerError::Unauthorized)
    } else {
        None
    }
}

/// The state after a successful `patient_upsert`: a fresh profile brings its
/// sequence counter at 0 with it, atomically; an existing profile only has
/// its did replaced.
pub open spec fn patient_upsert_apply(l: LedgerV, owner: u64, did: Seq<char>, now: i64) -> LedgerV {
    if has_patient(l.patients, owner) {
        LedgerV {
            patients: l.patients.update(
                patient_index(l.patients, owner),
                PatientV { did, ..patient_at(l.patients, owner) },
            ),
            ..l
        }
    } else {
        LedgerV {
            patients: l.patients.push(PatientV { patient_pubkey: owner, did, created_at: now }),
            seqs: l.seqs.push(PatientSeq { patient: owner, value: 0 }),
            ..l
        }
    }
}

/// A well-checked upsert preserves well-formedness.
pub proof fn lemma_patient_upsert_wf(l: LedgerV, owner: u64, did: Seq<char>, now: i64)
    requires
        l.wf(),
        did.len() <= MAX_DID_LEN as int,
    ensures
        patient_upsert_apply(l, owner, did, now).wf(),
{
    let l2 = patient_upsert_apply(l, owner, did, now);
    if has_patient(l.patients, owner) {
        let idx = patient_index(l.patients, owner);
        assert(0 <= idx < l.patients.len() && l.patients[idx].patient_pubkey == owner);
        assert(forall|i: int|
            0 <= i < l2.patients.len() ==> (#[trigger] l2.patients[i]).patient_pubkey
                == l.patients[i].patient_pubkey);
        assert forall|i: int| 0 <= i < l2.seqs.len() implies has_patient(
            l2.patients,
            (#[trigger] l2.seqs[i]).patient,
        ) by {
            let k = patient_index(l.patients, l.seqs[i].patient);
            assert(0 <= k < l.patients.len() && l.patients[k].patient_pubkey == l.seqs[i].patient);
            assert(l2.patients[k].patient_pubkey == l.seqs[i].patient);
        }
    } else {
        // The counter store cannot hold a counter for an unregistered owner.
        assert(!has_seqctr(l.seqs, owner)) by {
            if has_seqctr(l.seqs, owner) {
                let k = seqctr_index(l.seqs, owner);
                assert(0 <= k < l.seqs.len() && l.seqs[k].patient == owner);
                assert(has_patient(l.patients, l.seqs[k].patient));
            }
        }
        let n = l.patients.len() as int;
        let m = l.seqs.len() as int;
        assert forall|i: int| 0 <= i < l2.patients.len() implies has_seqctr(
            l2.seqs,
            (#[trigger] l2.patients[i]).patient_pubkey,
        ) by {
            if i < n {
                let k = seqctr_index(l.seqs, l.patients[i].patient_pubkey);
                assert(0 <= k < m && l.seqs[k].patient == l.patients[i].patient_pubkey);
                assert(l2.seqs[k].patient == l.patients[i].patient_pubkey);
            } else {
                assert(l2.seqs[m].patient == owner);
            }
        }
        assert forall|i: int| 0 <= i < l2.seqs.len() implies has_patient(
            l2.patients,
            (#[trigger] l2.seqs[i]).patient,
        ) by {
            if i < m {
                let k = patient_index(l.patients, l.seqs[i].patient);
                assert(0 <= k < n && l.patients[k].patient_pubkey == l.seqs[i].patient);
                assert(l2.patients[k].patient_pubkey == l.seqs[i].patient);
            } else {
                assert(l2.patients[n].patient_pubkey == owner);
            }
        }
        assert forall|i: int| 0 <= i < l2.records.len() implies has_seqctr(
            l2.seqs,
            (#[trigger] l2.records[i]).patient,
        ) && l2.records[i].seq < seqctr_at(l2.seqs, l2.records[i].patient).value by {
            let p = l.records[i].patient;
            let k = seqctr_index(l.seqs, p);
            assert(0 <= k < m && l.seqs[k].patient == p);
            assert(l2.seqs[k].patient == p);
            lemma_seqctr_at(l.seqs, p, k);
            lemma_seqctr_at(l2.seqs, p, k);
        }
        assert forall|i: int, s: u64|
            0 <= i < l2.seqs.len() && s < l2.seqs[i].value implies has_record(
            l2.records,
            l2.seqs[i].patient,
            s,
        ) by {
            if i < m {
                assert(l2.seqs[i] == l.seqs[i]);
                assert(has_record(l.records, l.seqs[i].patient, s));
            }
        }
    }
}

impl Ledger {
    /// Creates the caller's patient profile together with its sequence
    /// counter at 0, or, when the profile exists, replaces its did. The
    /// reported event says which of the two happened.
    pub fn patient_upsert(&mut self, caller: u64, owner: u64, did: String, now: i64) -> (r: Result<
        PatientUpserted,
        LedgerError,
    >)
        requires
            old(self)@.wf(),
        ensures
            final(self)@.wf(),
            match patient_upsert_check(old(self)@, caller, owner, did@) {
                Some(e) => r == Err::<PatientUpserted, LedgerError>(e) && final(self)@ == old(
                    self,
                )@,
                None => {
                    &&& final(self)@ == patient_upsert_apply(old(self)@, owner, did@, now)
                    &&& r matches Ok(ev) && ev.patient_pubkey == owner && ev.created
                        == !has_patient(old(self)@.patients, owner) && ev.updated_at == now
                        && ev.created_at == (if has_patient(old(self)@.patients, owner) {
                        patient_at(old(self)@.patients, owner).created_at
                    } else {
                        now
                    })
                },
            },
    {
        let did_len = did.as_str().unicode_len();
        if did_len > MAX_DID_LEN {
            return Err(LedgerError::TooLong);
        }
        if caller != owner {
            return Err(LedgerError::Unauthorized);
        }
        proof {
            lemma_patient_upsert_wf(self@, owner, did@, now);
        }
        match find_patient(&self.patients, owner) {
            Some(i) => {
                proof {
                    lemma_patient_at(self@.patients, owner, i as int);
                }
                let created_at = self.patients[i].created_at;
                self.patients[i] = Patient { patient_pubkey: owner, did, created_at };
                proof {
                    assert(self@.patients =~= patient_upsert_apply(
                        old(self)@,
                        owner,
                        did@,
                        now,
                    ).patients);
                    assert(self@ =~= patient_upsert_apply(old(self)@, owner, did@, now));
                }
                Ok(
                    PatientUpserted {
                        patient_pubkey: owner,
                        created: false,
                        created_at,
                        updated_at: now,
                    },
                )
            },
            None => {
                self.patients.push(Patient { patient_pubkey: owner, did, created_at: now });
                self.seqs.push(PatientSeq { patient: owner, value: 0 });
                proof {
                    assert(self@.patients =~= patient_upsert_apply(
                        old(self)@,
                        owner,
                        did@,
                        now,
                    ).patients);
                    assert(self@ =~= patient_upsert_apply(old(self)@, owner, did@, now));
                }
                Ok(
                    PatientUpserted {
                        patient_pubkey: owner,
                        created: true,
                        created_at: now,
                        updated_at: now,
                    },
                )
            },
        }
    }
}

} // verus!
