use vstd::prelude::*;
use vstd::string::StrSliceExecFns;

use crate::errors::LedgerError;
use crate::event::{ConfigInitialized, ProgramPauseUpdated};
use crate::ledger::{Ledger, LedgerV};
use crate::states::{Config, ConfigV, MAX_KMS_REF_LEN};
use crate::strutil::{trim_of, trimmed};

verus! {

/// First failing check of `config_init`: the singleton must not exist yet,
/// and the trimmed namespace must be non-empty and within bound.
pub open spec fn config_init_check(l: LedgerV, kms_namespace: Seq<char>) -> Option<LedgerError> {
    if l.config is Some {
        Some(LedgerError::AlreadyInitialized)
    } else if trim_of(kms_namespace).len() == 0 || trim_of(kms_namespace).len()
        > MAX_KMS_REF_LEN as int {
        Some(LedgerError::InvalidArgument)
    } else {
        None
    }
}

/// The state after a successful `config_init`.
pub open spec fn config_init_apply(l: LedgerV, caller: u64, kms_namespace: Seq<char>) -> LedgerV {
    LedgerV {
        config: Some(
            ConfigV {
                authority: caller,
                paused: false,
                kms_namespace: trim_of(kms_namespace),
            },
        ),
        ..l
    }
}

/// First failing check of `paused_set`: the singleton must exist and the
/// caller must be its authority.
pub open spec fn paused_set_check(l: LedgerV, caller: u64) -> Option<LedgerError> {
    match l.config {
        None => Some(LedgerError::InvalidArgument),
        Some(c) => if caller != c.authority {
            Some(LedgerError::Unauthorized)
        } else {
            None
        },
    }
}

/// The state after a successful `paused_set`: unchanged when the switch
/// already matches, else the switch flipped.
pub open spec fn paused_set_apply(l: LedgerV, paused: bool) -> LedgerV {
    match l.config {
        None => l,
        Some(c) => if c.paused == paused {
            l
        } else {
            LedgerV { config: Some(ConfigV { paused, ..c }), ..l }
        },
    }
}

impl Ledger {
    /// Creates the config singleton: the caller becomes the administering
    /// authority, the pause switch starts off, and the trimmed namespace is
    /// stored.
    pub fn config_init(&mut self, caller: u64, kms_namespace: String, now: i64) -> (r: Result<
        ConfigInitialized,
        LedgerError,
    >)
        requires
            old(self)@.wf(),
        ensures
            final(self)@.wf(),
            match config_init_check(old(self)@, kms_namespace@) {
                Some(e) => r == Err::<ConfigInitialized, LedgerError>(e) && final(self)@ == old(
                    self,
                )@,
                None => {
                    &&& final(self)@ == config_init_apply(old(self)@, caller, kms_namespace@)
                    &&& r matches Ok(ev) && ev.authority == caller && ev.kms_namespace@ == trim_of(
                        kms_namespace@,
                    ) && ev.created_at == now
                },
            },
    {
        if self.config.is_some() {
            return Err(LedgerError::AlreadyInitialized);
        }
        let ns = trimmed(kms_namespace.as_str());
        let ns_len = ns.as_str().unicode_len();
        if ns_len == 0 || ns_len > MAX_KMS_REF_LEN {
            return Err(LedgerError::InvalidArgument);
        }
        let ev = ConfigInitialized { authority: caller, kms_namespace: ns.clone(), created_at: now };
        self.config = Some(Config { authority: caller, paused: false, kms_namespace: ns });
        proof {
            assert(self@ =~= config_init_apply(old(self)@, caller, kms_namespace@));
        }
        Ok(ev)
    }

    /// Flips the pause switch. Only the stored authority may do so; a call
    /// that asks for the state already in force succeeds without an event.
    pub fn paused_set(&mut self, caller: u64, paused: bool, now: i64) -> (r: Result<
        Option<ProgramPauseUpdated>,
        LedgerError,
    >)
        requires
            old(self)@.wf(),
        ensures
            final(self)@.wf(),
            match paused_set_check(old(self)@, caller) {
                Some(e) => r == Err::<Option<ProgramPauseUpdated>, LedgerError>(e) && final(self)@
                    == old(self)@,
                None => {
                    &&& final(self)@ == paused_set_apply(old(self)@, paused)
                    &&& (old(self)@.config matches Some(c) ==> (if c.paused == paused {
                        r == Ok::<Option<ProgramPauseUpdated>, LedgerError>(None)
                    } else {
                        r matches Ok(Some(ev)) && ev.paused == paused && ev.set_by == caller
                            && ev.at == now
                    }))
                },
            },
    {
        let (authority, current) = match &self.config {
            None => {
                return Err(LedgerError::InvalidArgument);
            },
            Some(c) => (c.authority, c.paused),
        };
        if caller != authority {
            return Err(LedgerError::Unauthorized);
        }
        if current == paused {
            return Ok(None);
        }
        match &mut self.config {
            Some(cfg) => {
                cfg.paused = paused;
            },
            None => {
                proof {
                    assert(false);
                }
            },
        }
        proof {
            assert(self@ =~= paused_set_apply(old(self)@, paused));
        }
        Ok(Some(ProgramPauseUpdated { paused, set_by: caller, at: now }))
    }
}

} // verus!
