use vstd::prelude::*;

use crate::errors::LedgerError;
use crate::event::{GrantCreated, GrantEvent, GrantRevoked, TrusteeGrantCreated};
use crate::ledger::{
    find_grant, find_patient, find_trustee, grant_at, grant_index, has_grant, has_patient,
    has_trustee, lemma_grant_at, lemma_trustee_at, trustee_at, Ledger, LedgerV,
};
use crate::states::{scope_valid, Expiry, Grant, SCOPE_ADMIN, SCOPE_READ, SCOPE_WRITE};

verus! {

/// First failing check of `access_grant`: nothing while paused; the scope
/// must be a non-zero subset of the three defined bits, for every caller;
/// the patient must be registered; the caller must be the owner or one of
/// their non-revoked trustees, and a trustee may grant READ alone; an
/// absolute expiry must lie strictly in the future, a duration must be
/// positive and must not overflow the timestamp.
pub open spec fn access_grant_check(
    l: LedgerV,
    caller: u64,
    patient: u64,
    grantee: u64,
    scope: u8,
    expiry: Expiry,
    now: i64,
) -> Option<LedgerError> {
    match l.config {
        None => Some(LedgerError::InvalidArgument),
        Some(c) => if c.paused {
            Some(LedgerError::Paused)
        } else if !scope_valid(scope) {
            Some(LedgerError::InvalidScope)
        } else if !has_patient(l.patients, patient) {
            Some(LedgerError::InvalidArgument)
        } else if caller != patient && (!has_trustee(l.trustees, patient, caller) || trustee_at(
            l.trustees,
            patient,
            caller,
        ).revoked) {
            Some(LedgerError::UnauthorizedGrant)
        } else if caller != patient && scope != SCOPE_READ {
            Some(LedgerError::ReadOnlyRestriction)
        } else {
            match expiry {
                Expiry::Never => None,
                Expiry::At(t) => if t <= now {
                    Some(LedgerError::BadExpiry)
                } else {
                    None
                },
                Expiry::After(d) => if d <= 0 || now + d > i64::MAX {
                    Some(LedgerError::BadExpiry)
                } else {
                    None
                },
            }
        },
    }
}

/// The absolute expiry a successful grant stores: none, the given instant,
/// or now plus the duration.
pub open spec fn expiry_abs(now: i64, expiry: Expiry) -> Option<i64> {
    match expiry {
        Expiry::Never => None,
        Expiry::At(t) => Some(t),
        Expiry::After(d) => Some((now + d) as i64),
    }
}

/// The grant a successful `access_grant` stores.
pub open spec fn grant_new(
    caller: u64,
    patient: u64,
    grantee: u64,
    scope: u8,
    expiry: Expiry,
    now: i64,
) -> Grant {
    Grant {
        patient,
        grantee,
        scope,
        created_by: caller,
        created_at: now,
        via_trustee: caller != patient,
        expires_at: expiry_abs(now, expiry),
        revoked: false,
        revoked_at: None,
    }
}

/// Create-or-replace at the slot keyed by (patient, grantee, scope):
/// re-granting replaces every field, revocation included.
pub open spec fn grants_upsert(s: Seq<Grant>, g: Grant) -> Seq<Grant> {
    if has_grant(s, g.patient, g.grantee, g.scope) {
        s.update(grant_index(s, g.patient, g.grantee, g.scope), g)
    } else {
        s.push(g)
    }
}

/// The state after a successful `access_grant`.
pub open spec fn access_grant_apply(
    l: LedgerV,
    caller: u64,
    patient: u64,
    grantee: u64,
    scope: u8,
    expiry: Expiry,
    now: i64,
) -> LedgerV {
    LedgerV { grants: grants_upsert(l.grants, grant_new(caller, patient, grantee, scope, expiry, now)), ..l }
}

/// First failing check of `grant_revoke`: the grant must exist, only the
/// owning patient may revoke, and revocation is one-way.
pub open spec fn grant_revoke_check(
    l: LedgerV,
    caller: u64,
    patient: u64,
    grantee: u64,
    scope: u8,
) -> Option<LedgerError> {
    if !has_grant(l.grants, patient, grantee, scope) {
        Some(LedgerError::InvalidArgument)
    } else if caller != patient {
        Some(LedgerError::Unauthorized)
    } else if grant_at(l.grants, patient, grantee, scope).revoked {
        Some(LedgerError::AlreadyRevoked)
    } else {
        None
    }
}

/// The state after a successful `grant_revoke`: the entity stays, marked
/// revoked, preserving the audit trail.
pub open spec fn grant_revoke_apply(
    l: LedgerV,
    patient: u64,
    grantee: u64,
    scope: u8,
    now: i64,
) -> LedgerV {
    LedgerV {
        grants: l.grants.update(
            grant_index(l.grants, patient, grantee, scope),
            Grant {
                revoked: true,
                revoked_at: Some(now),
                ..grant_at(l.grants, patient, grantee, scope)
            },
        ),
        ..l
    }
}

impl Ledger {
    /// Creates or replaces the grant at (patient, grantee, scope). The
    /// owner may grant any valid scope; a non-revoked trustee only READ.
    /// The reported event says whether a trustee acted.
    pub fn access_grant(
        &mut self,
        caller: u64,
        patient: u64,
        grantee: u64,
        scope: u8,
        expiry: Expiry,
        now: i64,
    ) -> (r: Result<GrantEvent, LedgerError>)
        requires
            old(self)@.wf(),
        ensures
            final(self)@.wf(),
            match access_grant_check(old(self)@, caller, patient, grantee, scope, expiry, now) {
                Some(e) => r == Err::<GrantEvent, LedgerError>(e) && final(self)@ == old(self)@,
                None => {
                    &&& final(self)@ == access_grant_apply(
                        old(self)@,
                        caller,
                        patient,
                        grantee,
                        scope,
                        expiry,
                        now,
                    )
                    &&& (caller == patient ==> (r matches Ok(GrantEvent::Direct(ev))
                        && ev == (GrantCreated {
                        patient,
                        grantee,
                        scope,
                        expires_at: expiry_abs(now, expiry),
                        created_by: caller,
                        created_at: now,
                    })))
                    &&& (caller != patient ==> (r matches Ok(GrantEvent::ViaTrustee(ev))
                        && ev == (TrusteeGrantCreated {
                        patient,
                        grantee,
                        trustee: caller,
                        scope,
                        expires_at: expiry_abs(now, expiry),
                        created_at: now,
                    })))
                },
            },
    {
        let is_paused = match &self.config {
            None => {
                return Err(LedgerError::InvalidArgument);
            },
            Some(c) => c.paused,
        };
        if is_paused {
            return Err(LedgerError::Paused);
        }
        if !(scope != 0 && (scope & !(SCOPE_READ | SCOPE_WRITE | SCOPE_ADMIN)) == 0) {
            return Err(LedgerError::InvalidScope);
        }
        if find_patient(&self.patients, patient).is_none() {
            return Err(LedgerError::InvalidArgument);
        }
        proof {
            assert(has_patient(self@.patients, patient));
        }
        if caller != patient {
            let i = match find_trustee(&self.trustees, patient, caller) {
                None => {
                    return Err(LedgerError::UnauthorizedGrant);
                },
                Some(i) => i,
            };
            proof {
                lemma_trustee_at(self@.trustees, patient, caller, i as int);
            }
            if self.trustees[i].revoked {
                return Err(LedgerError::UnauthorizedGrant);
            }
            if scope != SCOPE_READ {
                return Err(LedgerError::ReadOnlyRestriction);
            }
        }
        let expires_at: Option<i64> = match expiry {
            Expiry::Never => None,
            Expiry::At(t) => {
                if t <= now {
                    return Err(LedgerError::BadExpiry);
                }
                Some(t)
            },
            Expiry::After(d) => {
                if d <= 0 {
                    return Err(LedgerError::BadExpiry);
                }
                match now.checked_add(d) {
                    None => {
                        return Err(LedgerError::BadExpiry);
                    },
                    Some(t) => Some(t),
                }
            },
        };
        let g = Grant {
            patient,
            grantee,
            scope,
            created_by: caller,
            created_at: now,
            via_trustee: caller != patient,
            expires_at,
            revoked: false,
            revoked_at: None,
        };
        match find_grant(&self.grants, patient, grantee, scope) {
            Some(i) => {
                proof {
                    lemma_grant_at(self@.grants, patient, grantee, scope, i as int);
                }
                self.grants[i] = g;
                proof {
                    assert(forall|k: int|
                        0 <= k < self@.grants.len() ==> (#[trigger] self@.grants[k]).patient
                            == old(self)@.grants[k].patient && self@.grants[k].grantee == old(
                            self,
                        )@.grants[k].grantee && self@.grants[k].scope
                            == old(self)@.grants[k].scope);
                    assert(self@ =~= access_grant_apply(
                        old(self)@,
                        caller,
                        patient,
                        grantee,
                        scope,
                        expiry,
                        now,
                    ));
                }
            },
            None => {
                self.grants.push(g);
                proof {
                    assert forall|i: int, j: int|
                        0 <= i < self@.grants.len() && 0 <= j < self@.grants.len()
                            && self@.grants[i].patient == self@.grants[j].patient
                            && self@.grants[i].grantee == self@.grants[j].grantee
                            && self@.grants[i].scope == self@.grants[j].scope implies i == j by {
                        let s = old(self)@.grants;
                        if i == s.len() && j < s.len() {
                            assert(has_grant(s, patient, grantee, scope));
                        } else if j == s.len() && i < s.len() {
                            assert(has_grant(s, patient, grantee, scope));
                        }
                    }
                    assert(self@ =~= access_grant_apply(
                        old(self)@,
                        caller,
                        patient,
                        grantee,
                        scope,
                        expiry,
                        now,
                    ));
                }
            },
        }
        if caller == patient {
            Ok(
                GrantEvent::Direct(
                    GrantCreated {
                        patient,
                        grantee,
                        scope,
                        expires_at,
                        created_by: caller,
                        created_at: now,
                    },
                ),
            )
        } else {
            Ok(
                GrantEvent::ViaTrustee(
                    TrusteeGrantCreated {
                        patient,
                        grantee,
                        trustee: caller,
                        scope,
                        expires_at,
                        created_at: now,
                    },
                ),
            )
        }
    }

    /// Revokes the grant at (patient, grantee, scope), terminally. The
    /// entity is never removed: the audit trail stays.
    pub fn grant_revoke(&mut self, caller: u64, patient: u64, grantee: u64, scope: u8, now: i64)
        -> (r: Result<GrantRevoked, LedgerError>)
        requires
            old(self)@.wf(),
        ensures
            final(self)@.wf(),
            match grant_revoke_check(old(self)@, caller, patient, grantee, scope) {
                Some(e) => r == Err::<GrantRevoked, LedgerError>(e) && final(self)@ == old(self)@,
                None => {
                    &&& final(self)@ == grant_revoke_apply(old(self)@, patient, grantee, scope, now)
                    &&& r matches Ok(ev) && ev == (GrantRevoked {
                        patient,
                        grantee,
                        scope,
                        revoked_by: caller,
                        revoked_at: now,
                    })
                },
            },
    {
        let i = match find_grant(&self.grants, patient, grantee, scope) {
            None => {
                return Err(LedgerError::InvalidArgument);
            },
            Some(i) => i,
        };
        proof {
            lemma_grant_at(self@.grants, patient, grantee, scope, i as int);
        }
        if caller != patient {
            return Err(LedgerError::Unauthorized);
        }
        if self.grants[i].revoked {
            return Err(LedgerError::AlreadyRevoked);
        }
        let slot = self.grants[i];
        self.grants[i] = Grant { revoked: true, revoked_at: Some(now), ..slot };
        proof {
            assert(forall|k: int|
                0 <= k < self@.grants.len() ==> (#[trigger] self@.grants[k]).patient == old(
                    self,
                )@.grants[k].patient && self@.grants[k].grantee == old(self)@.grants[k].grantee
                    && self@.grants[k].scope == old(self)@.grants[k].scope
                    && self@.grants[k].via_trustee == old(self)@.grants[k].via_trustee);
            assert(self@ =~= grant_revoke_apply(old(self)@, patient, grantee, scope, now));
        }
        Ok(GrantRevoked { patient, grantee, scope, revoked_by: caller, revoked_at: now })
    }
}

} // verus!
