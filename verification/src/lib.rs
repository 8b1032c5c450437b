//! Access-control and provenance core for encrypted records shared between
//! a record owner (patient), record-producing hospitals and delegated
//! viewers: who may create a record, who may read it, how grants are scoped,
//! expired and revoked, and how record creation stays replay-safe under a
//! strictly monotonic per-owner sequence.

pub mod config_ops;
pub mod errors;
pub mod event;
pub mod grant_ops;
pub mod hospital_ops;
pub mod laws;
pub mod ledger;
pub mod patient_ops;
pub mod record_ops;
pub mod states;
pub mod strutil;
pub mod trustee_ops;
