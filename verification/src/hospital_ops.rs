use vstd::prelude::*;
use vstd::string::StrSliceExecFns;

use crate::errors::LedgerError;
use crate::event::HospitalRegistered;
use crate::ledger::{find_hospital, has_hospital, Ledger, LedgerV};
use crate::states::{Hospital, HospitalV, MAX_KMS_REF_LEN, MAX_NAME_LEN};
use crate::strutil::{trim_of, trimmed};

verus! {

/// First failing check of `hospitals_register`: only the config authority
/// may register, never while paused; the trimmed name and key reference must
/// be non-empty and within bound; the identity must not be registered yet.
pub open spec fn hospitals_register_check(
    l: LedgerV,
    caller: u64,
    hospital_authority: u64,
    name: Seq<char>,
    kms_ref: Seq<char>,
) -> Option<LedgerError> {
    match l.config {
        None => Some(LedgerError::InvalidArgument),
        Some(c) => if caller != c.authority {
            Some(LedgerError::Unauthorized)
        } else if c.paused {
            Some(LedgerError::Paused)
        } else if trim_of(name).len() == 0 {
            Some(LedgerError::InvalidArgument)
        } else if trim_of(name).len() > MAX_NAME_LEN as int {
            Some(LedgerError::TooLong)
        } else if trim_of(kms_ref).len() == 0 {
            Some(LedgerError::InvalidArgument)
        } else if trim_of(kms_ref).len() > MAX_KMS_REF_LEN as int {
            Some(LedgerError::TooLong)
        } else if has_hospital(l.hospitals, hospital_authority) {
            Some(LedgerError::AlreadyExists)
        } else {
            None
        },
    }
}

/// The state after a successful `hospitals_register`.
pub open spec fn hospitals_register_apply(
    l: LedgerV,
    caller: u64,
    hospital_authority: u64,
    name: Seq<char>,
    kms_ref: Seq<char>,
    now: i64,
) -> LedgerV {
    LedgerV {
        hospitals: l.hospitals.push(
            HospitalV {
                authority: hospital_authority,
                name: trim_of(name),
                kms_ref: trim_of(kms_ref),
                registered_by: caller,
                created_at: now,
            },
        ),
        ..l
    }
}

/// Registering a well-checked hospital preserves well-formedness.
pub proof fn lemma_hospitals_register_wf(
    l: LedgerV,
    caller: u64,
    hospital_authority: u64,
    name: Seq<char>,
    kms_ref: Seq<char>,
    now: i64,
)
    requires
        l.wf(),
        hospitals_register_check(l, caller, hospital_authority, name, kms_ref) is None,
    ensures
        hospitals_register_apply(l, caller, hospital_authority, name, kms_ref, now).wf(),
{
    let l2 = hospitals_register_apply(l, caller, hospital_authority, name, kms_ref, now);
    assert forall|i: int, j: int|
        0 <= i < l2.hospitals.len() && 0 <= j < l2.hospitals.len() && l2.hospitals[i].authority
            == l2.hospitals[j].authority implies i == j by {
        if i < l.hospitals.len() && j < l.hospitals.len() {
        } else if i == l.hospitals.len() && j < l.hospitals.len() {
            assert(l.hospitals[j].authority == hospital_authority);
            assert(has_hospital(l.hospitals, hospital_authority));
        } else if j == l.hospitals.len() && i < l.hospitals.len() {
            assert(l.hospitals[i].authority == hospital_authority);
            assert(has_hospital(l.hospitals, hospital_authority));
        }
    }
}

impl Ledger {
    /// Registers a hospital under its signing identity. Only the config
    /// authority may do so, and only once per identity.
    pub fn hospitals_register(
        &mut self,
        caller: u64,
        hospital_authority: u64,
        name: String,
        kms_ref: String,
        now: i64,
    ) -> (r: Result<HospitalRegistered, LedgerError>)
        requires
            old(self)@.wf(),
        ensures
            final(self)@.wf(),
            match hospitals_register_check(old(self)@, caller, hospital_authority, name@, kms_ref@) {
                Some(e) => r == Err::<HospitalRegistered, LedgerError>(e) && final(self)@ == old(
                    self,
                )@,
                None => {
                    &&& final(self)@ == hospitals_register_apply(
                        old(self)@,
                        caller,
                        hospital_authority,
                        name@,
                        kms_ref@,
                        now,
                    )
                    &&& r matches Ok(ev) && ev.hospital_authority == hospital_authority
                        && ev.name@ == trim_of(name@) && ev.kms_ref@ == trim_of(kms_ref@)
                        && ev.registered_by == caller && ev.created_at == now
                },
            },
    {
        let (authority, is_paused) = match &self.config {
            None => {
                return Err(LedgerError::InvalidArgument);
            },
            Some(c) => (c.authority, c.paused),
        };
        if caller != authority {
            return Err(LedgerError::Unauthorized);
        }
        if is_paused {
            return Err(LedgerError::Paused);
        }
        let name_trim = trimmed(name.as_str());
        let name_len = name_trim.as_str().unicode_len();
        if name_len == 0 {
            return Err(LedgerError::InvalidArgument);
        }
        if name_len > MAX_NAME_LEN {
            return Err(LedgerError::TooLong);
        }
        let kms_trim = trimmed(kms_ref.as_str());
        let kms_len = kms_trim.as_str().unicode_len();
        if kms_len == 0 {
            return Err(LedgerError::InvalidArgument);
        }
        if kms_len > MAX_KMS_REF_LEN {
            return Err(LedgerError::TooLong);
        }
        if find_hospital(&self.hospitals, hospital_authority).is_some() {
            proof {
                assert(has_hospital(self@.hospitals, hospital_authority));
            }
            return Err(LedgerError::AlreadyExists);
        }
        let ev = HospitalRegistered {
            hospital_authority,
            name: name_trim.clone(),
            kms_ref: kms_trim.clone(),
            registered_by: caller,
            created_at: now,
        };
        let hospital = Hospital {
            authority: hospital_authority,
            name: name_trim,
            kms_ref: kms_trim,
            registered_by: caller,
            created_at: now,
        };
        proof {
            lemma_hospitals_register_wf(self@, caller, hospital_authority, name@, kms_ref@, now);
        }
        self.hospitals.push(hospital);
        proof {
            assert(self@.hospitals =~= hospitals_register_apply(
                old(self)@,
                caller,
                hospital_authority,
                name@,
                kms_ref@,
                now,
            ).hospitals);
            assert(self@ =~= hospitals_register_apply(
                old(self)@,
                caller,
                hospital_authority,
                name@,
                kms_ref@,
                now,
            ));
        }
        Ok(ev)
    }
}

} // verus!
