use vstd::prelude::*;

use crate::errors::LedgerError;
use crate::event::{TrusteeAdded, TrusteeRevoked};
use crate::ledger::{
    find_trustee, has_trustee, lemma_trustee_at, trustee_at, trustee_index, Ledger, LedgerV,
};
use crate::states::Trustee;

verus! {

/// The state after `trustee_add`, which always succeeds: a fresh slot is
/// created unrevoked; an existing slot is reused untouched, so re-adding a
/// revoked trustee does not un-revoke them.
pub open spec fn trustee_add_apply(l: LedgerV, patient: u64, trustee: u64, now: i64) -> LedgerV {
    if has_trustee(l.trustees, patient, trustee) {
        l
    } else {
        LedgerV {
            trustees: l.trustees.push(
                Trustee {
                    patient,
                    trustee,
                    added_by: patient,
                    created_at: now,
                    revoked: false,
                    revoked_at: None,
                },
            ),
            ..l
        }
    }
}

/// First failing check of `trustee_revoke`: the slot must exist, only the
/// owning patient may revoke, and revocation is one-way.
pub open spec fn trustee_revoke_check(
    l: LedgerV,
    caller: u64,
    patient: u64,
    trustee: u64,
) -> Option<LedgerError> {
    if !has_trustee(l.trustees, patient, trustee) {
        Some(LedgerError::InvalidArgument)
    } else if caller != patient {
        Some(LedgerError::Unauthorized)
    } else if trustee_at(l.trustees, patient, trustee).revoked {
        Some(LedgerError::AlreadyRevoked)
    } else {
        None
    }
}

/// The state after a successful `trustee_revoke`.
pub open spec fn trustee_revoke_apply(l: LedgerV, patient: u64, trustee: u64, now: i64) -> LedgerV {
    LedgerV {
        trustees: l.trustees.update(
            trustee_index(l.trustees, patient, trustee),
            Trustee {
                revoked: true,
                revoked_at: Some(now),
                ..trustee_at(l.trustees, patient, trustee)
            },
        ),
        ..l
    }
}

impl Ledger {
    /// Adds `trustee` as a delegated proxy for `patient` (the owner
    /// co-signs, so the caller is the owner by construction). Idempotent:
    /// an existing slot, revoked or not, is left as it is.
    pub fn trustee_add(&mut self, patient: u64, trustee: u64, now: i64) -> (r: Result<
        TrusteeAdded,
        LedgerError,
    >)
        requires
            old(self)@.wf(),
        ensures
            final(self)@.wf(),
            final(self)@ == trustee_add_apply(old(self)@, patient, trustee, now),
            r matches Ok(ev) && ev.patient == patient && ev.trustee == trustee && ev.added_at
                == now,
    {
        match find_trustee(&self.trustees, patient, trustee) {
            Some(_) => {},
            None => {
                let slot = Trustee {
                    patient,
                    trustee,
                    added_by: patient,
                    created_at: now,
                    revoked: false,
                    revoked_at: None,
                };
                self.trustees.push(slot);
                proof {
                    assert forall|i: int, j: int|
                        0 <= i < self@.trustees.len() && 0 <= j < self@.trustees.len()
                            && self@.trustees[i].patient == self@.trustees[j].patient
                            && self@.trustees[i].trustee == self@.trustees[j].trustee implies i
                        == j by {
                        let s = old(self)@.trustees;
                        if i == s.len() && j < s.len() {
                            assert(has_trustee(s, patient, trustee));
                        } else if j == s.len() && i < s.len() {
                            assert(has_trustee(s, patient, trustee));
                        }
                    }
                    assert(self@ =~= trustee_add_apply(old(self)@, patient, trustee, now));
                }
            },
        }
        Ok(TrusteeAdded { patient, trustee, added_at: now })
    }

    /// Revokes a trustee, terminally: a revoked slot can never be revoked
    /// again, and re-adding it does not restore it.
    pub fn trustee_revoke(&mut self, caller: u64, patient: u64, trustee: u64, now: i64) -> (r:
        Result<TrusteeRevoked, LedgerError>)
        requires
            old(self)@.wf(),
        ensures
            final(self)@.wf(),
            match trustee_revoke_check(old(self)@, caller, patient, trustee) {
                Some(e) => r == Err::<TrusteeRevoked, LedgerError>(e) && final(self)@ == old(
                    self,
                )@,
                None => {
                    &&& final(self)@ == trustee_revoke_apply(old(self)@, patient, trustee, now)
                    &&& r matches Ok(ev) && ev.patient == patient && ev.trustee == trustee
                        && ev.revoked_at == now
                },
            },
    {
        let i = match find_trustee(&self.trustees, patient, trustee) {
            None => {
                return Err(LedgerError::InvalidArgument);
            },
            Some(i) => i,
        };
        proof {
            lemma_trustee_at(self@.trustees, patient, trustee, i as int);
        }
        if caller != patient {
            return Err(LedgerError::Unauthorized);
        }
        if self.trustees[i].revoked {
            return Err(LedgerError::AlreadyRevoked);
        }
        let slot = self.trustees[i];
        self.trustees[i] = Trustee { revoked: true, revoked_at: Some(now), ..slot };
        proof {
            assert(forall|k: int|
                0 <= k < self@.trustees.len() ==> (#[trigger] self@.trustees[k]).patient == old(
                    self,
                )@.trustees[k].patient && self@.trustees[k].trustee
                    == old(self)@.trustees[k].trustee);
            assert(self@ =~= trustee_revoke_apply(old(self)@, patient, trustee, now));
        }
        Ok(TrusteeRevoked { patient, trustee, revoked_at: now })
    }
}

} // verus!
