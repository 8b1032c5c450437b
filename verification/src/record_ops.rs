use vstd::prelude::*;
use vstd::string::StrSliceExecFns;

use crate::errors::LedgerError;
use crate::event::{RecordCreated, RecordRead};
use crate::ledger::{
    find_grant, find_hospital, find_patient, find_record, find_seqctr, grant_at, has_grant,
    has_hospital, has_patient, has_record, has_seqctr, hospital_at, lemma_grant_at,
    lemma_hospital_at, lemma_record_at, lemma_seqctr_at, record_at, record_index, record_keyed,
    seqctr_at, seqctr_index, Ledger, LedgerV,
};
use crate::states::{
    EncAlgo, PatientSeq, Record, RecordV, WrapAlgo, MAX_CID_LEN, MAX_DOCTOR_NAME_LEN,
    MAX_HOSPITAL_NAME_LEN, MAX_KMS_REF_LEN, MAX_META_MIME_LEN, SCOPE_READ, SCOPE_WRITE,
};
use crate::strutil::{trim_of, trimmed};

verus! {

/// Everything `record_create` is given besides the ledger and the clock,
/// as mathematical values.
pub struct RecordArgsV {
    pub caller: u64,
    pub patient: u64,
    pub hospital: u64,
    pub seq: u64,
    pub cid_enc: Seq<char>,
    pub meta_mime: Seq<char>,
    pub meta_cid: Seq<char>,
    pub size_bytes: u64,
    pub blake2b_256: Seq<u8>,
    pub edek_root: Seq<u8>,
    pub edek_for_patient: Seq<u8>,
    pub edek_for_hospital: Seq<u8>,
    pub edek_root_algo: WrapAlgo,
    pub edek_patient_algo: WrapAlgo,
    pub edek_hospital_algo: WrapAlgo,
    pub kms_ref: Seq<char>,
    pub hospital_name: Seq<char>,
    pub doctor_name: Seq<char>,
    pub enc_version: u16,
    pub enc_algo: EncAlgo,
}

/// First failing check of `record_create`, in the order the operation
/// fails: pause gate; the named hospital must exist and the caller must be
/// its registered authority; the patient must exist; the WRITE grant for
/// (patient, hospital) must exist, be unrevoked and unexpired; every text
/// field, trimmed, within its bound and the required ones non-empty; a
/// positive size; the two mandatory wrapped keys present; a key reference
/// when the root wrap defers to the key service; and the supplied sequence
/// number must equal the owner's counter, which must not overflow.
pub open spec fn record_create_check(l: LedgerV, a: RecordArgsV, now: i64) -> Option<
    LedgerError,
> {
    match l.config {
        None => Some(LedgerError::InvalidArgument),
        Some(c) => if c.paused {
            Some(LedgerError::Paused)
        } else if !has_hospital(l.hospitals, a.hospital) {
            Some(LedgerError::InvalidArgument)
        } else if a.caller != hospital_at(l.hospitals, a.hospital).authority {
            Some(LedgerError::UploaderMismatch)
        } else if !has_patient(l.patients, a.patient) {
            Some(LedgerError::InvalidArgument)
        } else if !has_grant(l.grants, a.patient, a.hospital, SCOPE_WRITE) {
            Some(LedgerError::GrantMismatch)
        } else if grant_at(l.grants, a.patient, a.hospital, SCOPE_WRITE).revoked {
            Some(LedgerError::GrantRevoked)
        } else if grant_at(l.grants, a.patient, a.hospital, SCOPE_WRITE).expires_at matches Some(e)
            && e <= now {
            Some(LedgerError::GrantExpired)
        } else if trim_of(a.cid_enc).len() == 0 {
            Some(LedgerError::EmptyCidEnc)
        } else if trim_of(a.cid_enc).len() > MAX_CID_LEN as int {
            Some(LedgerError::CidTooLong)
        } else if trim_of(a.meta_mime).len() == 0 {
            Some(LedgerError::EmptyMime)
        } else if trim_of(a.meta_mime).len() > MAX_META_MIME_LEN as int {
            Some(LedgerError::MimeTooLong)
        } else if trim_of(a.meta_cid).len() > MAX_CID_LEN as int {
            Some(LedgerError::MetaCidTooLong)
        } else if trim_of(a.kms_ref).len() > MAX_KMS_REF_LEN as int {
            Some(LedgerError::KmsRefTooLong)
        } else if trim_of(a.hospital_name).len() > MAX_HOSPITAL_NAME_LEN as int {
            Some(LedgerError::HospitalNameTooLong)
        } else if trim_of(a.doctor_name).len() > MAX_DOCTOR_NAME_LEN as int {
            Some(LedgerError::DoctorNameTooLong)
        } else if a.size_bytes == 0 {
            Some(LedgerError::SizeZero)
        } else if a.edek_for_patient.len() == 0 {
            Some(LedgerError::EdekMissing)
        } else if a.edek_for_hospital.len() == 0 {
            Some(LedgerError::EdekMissing)
        } else if a.edek_root_algo is Kms && trim_of(a.kms_ref).len() == 0 {
            Some(LedgerError::KmsRefRequired)
        } else if a.seq != seqctr_at(l.seqs, a.patient).value {
            Some(LedgerError::BadSeq)
        } else if a.seq == u64::MAX {
            Some(LedgerError::SeqOverflow)
        } else {
            None
        },
    }
}

/// The record envelope a successful `record_create` appends.
pub open spec fn record_new(a: RecordArgsV, now: i64) -> RecordV {
    RecordV {
        patient: a.patient,
        hospital: a.hospital,
        uploader: a.caller,
        cid_enc: trim_of(a.cid_enc),
        meta_mime: trim_of(a.meta_mime),
        meta_cid: trim_of(a.meta_cid),
        size_bytes: a.size_bytes,
        blake2b_256: a.blake2b_256,
        edek_root: a.edek_root,
        edek_for_patient: a.edek_for_patient,
        edek_for_hospital: a.edek_for_hospital,
        edek_root_algo: a.edek_root_algo,
        edek_patient_algo: a.edek_patient_algo,
        edek_hospital_algo: a.edek_hospital_algo,
        kms_ref: trim_of(a.kms_ref),
        seq: a.seq,
        enc_version: a.enc_version,
        enc_algo: a.enc_algo,
        created_at: now,
        updated_at: now,
        patient_pubkey: a.patient,
        hospital_pubkey: a.hospital,
        hospital_name: trim_of(a.hospital_name),
        doctor_name: trim_of(a.doctor_name),
    }
}

/// The state after a successful `record_create`: the owner's counter
/// advances by exactly one, atomically with the append.
pub open spec fn record_create_apply(l: LedgerV, a: RecordArgsV, now: i64) -> LedgerV {
    LedgerV {
        seqs: l.seqs.update(
            seqctr_index(l.seqs, a.patient),
            PatientSeq { patient: a.patient, value: (a.seq + 1) as u64 },
        ),
        records: l.records.push(record_new(a, now)),
        ..l
    }
}

/// A well-checked creation preserves well-formedness: in particular the
/// owner's chain stays gapless, now reaching one further.
pub proof fn lemma_record_create_wf(l: LedgerV, a: RecordArgsV, now: i64)
    requires
        l.wf(),
        record_create_check(l, a, now) is None,
    ensures
        record_create_apply(l, a, now).wf(),
{
    let l2 = record_create_apply(l, a, now);
    let p = a.patient;
    let ci = seqctr_index(l.seqs, p);
    assert(has_seqctr(l.seqs, p));
    assert(0 <= ci < l.seqs.len() && l.seqs[ci].patient == p);
    let v = l.seqs[ci].value;
    lemma_seqctr_at(l.seqs, p, ci);
    assert(a.seq == v);
    let m = l.seqs.len() as int;
    let n = l.records.len() as int;

    // Counter keys are untouched, so both unique stores stay unique and the
    // patient/counter pairing is preserved.
    assert(forall|k: int|
        0 <= k < m ==> (#[trigger] l2.seqs[k]).patient == l.seqs[k].patient);
    assert forall|i: int| 0 <= i < l2.patients.len() implies has_seqctr(
        l2.seqs,
        (#[trigger] l2.patients[i]).patient_pubkey,
    ) by {
        let k = seqctr_index(l.seqs, l.patients[i].patient_pubkey);
        assert(0 <= k < m && l.seqs[k].patient == l.patients[i].patient_pubkey);
        assert(l2.seqs[k].patient == l.patients[i].patient_pubkey);
    }

    // The appended key is fresh: the chain invariant caps every stored
    // sequence number for this owner strictly below the counter.
    assert(!has_record(l.records, p, a.seq)) by {
        if has_record(l.records, p, a.seq) {
            let k = record_index(l.records, p, a.seq);
            assert(0 <= k < l.records.len() && record_keyed(l.records[k], p, a.seq));
            assert(l.records[k].seq < seqctr_at(l.seqs, l.records[k].patient).value);
        }
    }
    assert forall|i: int, j: int|
        0 <= i < l2.records.len() && 0 <= j < l2.records.len() && l2.records[i].patient
            == l2.records[j].patient && l2.records[i].seq == l2.records[j].seq implies i == j by {
        if i == n && j < n {
            assert(record_keyed(l.records[j], p, a.seq));
            assert(has_record(l.records, p, a.seq));
        } else if j == n && i < n {
            assert(record_keyed(l.records[i], p, a.seq));
            assert(has_record(l.records, p, a.seq));
        }
    }

    // Every stored record still sits strictly below its owner's counter.
    assert forall|i: int| 0 <= i < l2.records.len() implies has_seqctr(
        l2.seqs,
        (#[trigger] l2.records[i]).patient,
    ) && l2.records[i].seq < seqctr_at(l2.seqs, l2.records[i].patient).value by {
        if i < n {
            let q = l.records[i].patient;
            let k = seqctr_index(l.seqs, q);
            assert(0 <= k < m && l.seqs[k].patient == q);
            assert(l2.seqs[k].patient == q);
            lemma_seqctr_at(l2.seqs, q, k);
            if q == p {
                assert(k == ci);
                assert(l.records[i].seq < v);
            } else {
                assert(k != ci);
                assert(l2.seqs[k] == l.seqs[k]);
                lemma_seqctr_at(l.seqs, q, k);
            }
        } else {
            assert(l2.seqs[ci].patient == p);
            lemma_seqctr_at(l2.seqs, p, ci);
            assert(l2.seqs[ci].value == a.seq + 1);
        }
    }

    // The chain stays complete: everything below the old counter is still
    // there, and the new record fills exactly the next slot.
    assert forall|i: int, s: u64| 0 <= i < l2.seqs.len() && s < l2.seqs[i].value implies
        has_record(l2.records, l2.seqs[i].patient, s) by {
        let q = l2.seqs[i].patient;
        assert(q == l.seqs[i].patient);
        if i == ci {
            if s < v {
                assert(has_record(l.records, p, s));
                let k = record_index(l.records, p, s);
                assert(0 <= k < l.records.len() && record_keyed(l.records[k], p, s));
                assert(record_keyed(l2.records[k], p, s));
            } else {
                assert(s == a.seq);
                assert(record_keyed(l2.records[n], p, s));
            }
        } else {
            assert(l2.seqs[i] == l.seqs[i]);
            assert(has_record(l.records, q, s));
            let k = record_index(l.records, q, s);
            assert(0 <= k < l.records.len() && record_keyed(l.records[k], q, s));
            assert(record_keyed(l2.records[k], q, s));
        }
    }

    // The new envelope itself is well-formed.
    assert(hospital_at(l.hospitals, a.hospital).authority == a.hospital);
}

/// First failing check of `records_read`: pause gate; the record at
/// (patient, seq) must exist; the owner's counter must exist; the READ
/// grant for (patient, reader) must exist and be unrevoked. Reading never
/// mutates anything.
pub open spec fn records_read_check(l: LedgerV, patient: u64, seq: u64, reader: u64) -> Option<
    LedgerError,
> {
    match l.config {
        None => Some(LedgerError::InvalidArgument),
        Some(c) => if c.paused {
            Some(LedgerError::Paused)
        } else if !has_record(l.records, patient, seq) {
            Some(LedgerError::RecordMismatch)
        } else if !has_seqctr(l.seqs, patient) {
            Some(LedgerError::BadSeq)
        } else if !has_grant(l.grants, patient, reader, SCOPE_READ) {
            Some(LedgerError::GrantMismatch)
        } else if grant_at(l.grants, patient, reader, SCOPE_READ).revoked {
            Some(LedgerError::GrantRevoked)
        } else {
            None
        },
    }
}

impl Ledger {
    /// Appends one record envelope to an owner's chain. Consumes the WRITE
    /// grant held by the producing hospital and the owner's counter; the
    /// supplied `seq` must be exactly the counter's value, which then
    /// advances by one, checked for overflow. No partial write: the first
    /// failed check aborts everything.
    #[verifier::rlimit(30)]
    pub fn record_create(
        &mut self,
        caller: u64,
        patient: u64,
        hospital: u64,
        seq: u64,
        cid_enc: String,
        meta_mime: String,
        meta_cid: String,
        size_bytes: u64,
        blake2b_256: [u8; 32],
        edek_root: Vec<u8>,
        edek_for_patient: Vec<u8>,
        edek_for_hospital: Vec<u8>,
        edek_root_algo: WrapAlgo,
        edek_patient_algo: WrapAlgo,
        edek_hospital_algo: WrapAlgo,
        kms_ref: String,
        hospital_name: String,
        doctor_name: String,
        enc_version: u16,
        enc_algo: EncAlgo,
        now: i64,
    ) -> (r: Result<RecordCreated, LedgerError>)
        requires
            old(self)@.wf(),
        ensures
            final(self)@.wf(),
            ({
                let a = (RecordArgsV {
                    caller,
                    patient,
                    hospital,
                    seq,
                    cid_enc: cid_enc@,
                    meta_mime: meta_mime@,
                    meta_cid: meta_cid@,
                    size_bytes,
                    blake2b_256: blake2b_256@,
                    edek_root: edek_root@,
                    edek_for_patient: edek_for_patient@,
                    edek_for_hospital: edek_for_hospital@,
                    edek_root_algo,
                    edek_patient_algo,
                    edek_hospital_algo,
                    kms_ref: kms_ref@,
                    hospital_name: hospital_name@,
                    doctor_name: doctor_name@,
                    enc_version,
                    enc_algo,
                });
                match record_create_check(old(self)@, a, now) {
                    Some(e) => r == Err::<RecordCreated, LedgerError>(e) && final(self)@ == old(
                        self,
                    )@,
                    None => {
                        &&& final(self)@ == record_create_apply(old(self)@, a, now)
                        &&& r == Ok::<RecordCreated, LedgerError>(
                            RecordCreated {
                                patient,
                                hospital,
                                uploader: caller,
                                seq,
                                enc_version,
                                created_at: now,
                            },
                        )
                    },
                }
            }),
    {
        let ghost a = RecordArgsV {
            caller,
            patient,
            hospital,
            seq,
            cid_enc: cid_enc@,
            meta_mime: meta_mime@,
            meta_cid: meta_cid@,
            size_bytes,
            blake2b_256: blake2b_256@,
            edek_root: edek_root@,
            edek_for_patient: edek_for_patient@,
            edek_for_hospital: edek_for_hospital@,
            edek_root_algo,
            edek_patient_algo,
            edek_hospital_algo,
            kms_ref: kms_ref@,
            hospital_name: hospital_name@,
            doctor_name: doctor_name@,
            enc_version,
            enc_algo,
        };
        let is_paused = match &self.config {
            None => {
                return Err(LedgerError::InvalidArgument);
            },
            Some(c) => c.paused,
        };
        if is_paused {
            return Err(LedgerError::Paused);
        }
        let hi = match find_hospital(&self.hospitals, hospital) {
            None => {
                return Err(LedgerError::InvalidArgument);
            },
            Some(hi) => hi,
        };
        proof {
            lemma_hospital_at(self@.hospitals, hospital, hi as int);
        }
        if caller != self.hospitals[hi].authority {
            return Err(LedgerError::UploaderMismatch);
        }
        if find_patient(&self.patients, patient).is_none() {
            return Err(LedgerError::InvalidArgument);
        }
        proof {
            assert(has_patient(self@.patients, patient));
        }
        let gi = match find_grant(&self.grants, patient, hospital, SCOPE_WRITE) {
            None => {
                return Err(LedgerError::GrantMismatch);
            },
            Some(gi) => gi,
        };
        proof {
            lemma_grant_at(self@.grants, patient, hospital, SCOPE_WRITE, gi as int);
        }
        if self.grants[gi].revoked {
            return Err(LedgerError::GrantRevoked);
        }
        match self.grants[gi].expires_at {
            Some(e) => {
                if e <= now {
                    return Err(LedgerError::GrantExpired);
                }
            },
            None => {},
        }
        let cid_t = trimmed(cid_enc.as_str());
        let cid_len = cid_t.as_str().unicode_len();
        if cid_len == 0 {
            return Err(LedgerError::EmptyCidEnc);
        }
        if cid_len > MAX_CID_LEN {
            return Err(LedgerError::CidTooLong);
        }
        let mime_t = trimmed(meta_mime.as_str());
        let mime_len = mime_t.as_str().unicode_len();
        if mime_len == 0 {
            return Err(LedgerError::EmptyMime);
        }
        if mime_len > MAX_META_MIME_LEN {
            return Err(LedgerError::MimeTooLong);
        }
        let meta_t = trimmed(meta_cid.as_str());
        if meta_t.as_str().unicode_len() > MAX_CID_LEN {
            return Err(LedgerError::MetaCidTooLong);
        }
        let kms_t = trimmed(kms_ref.as_str());
        let kms_len = kms_t.as_str().unicode_len();
        if kms_len > MAX_KMS_REF_LEN {
            return Err(LedgerError::KmsRefTooLong);
        }
        let hname_t = trimmed(hospital_name.as_str());
        if hname_t.as_str().unicode_len() > MAX_HOSPITAL_NAME_LEN {
            return Err(LedgerError::HospitalNameTooLong);
        }
        let dname_t = trimmed(doctor_name.as_str());
        if dname_t.as_str().unicode_len() > MAX_DOCTOR_NAME_LEN {
            return Err(LedgerError::DoctorNameTooLong);
        }
        if size_bytes == 0 {
            return Err(LedgerError::SizeZero);
        }
        if edek_for_patient.len() == 0 {
            return Err(LedgerError::EdekMissing);
        }
        if edek_for_hospital.len() == 0 {
            return Err(LedgerError::EdekMissing);
        }
        match edek_root_algo {
            WrapAlgo::Kms => {
                if kms_len == 0 {
                    return Err(LedgerError::KmsRefRequired);
                }
            },
            _ => {},
        }
        let si = match find_seqctr(&self.seqs, patient) {
            None => {
                proof {
                    assert(false);
                }
                return Err(LedgerError::InvalidArgument);
            },
            Some(si) => si,
        };
        proof {
            lemma_seqctr_at(self@.seqs, patient, si as int);
        }
        if seq != self.seqs[si].value {
            return Err(LedgerError::BadSeq);
        }
        if seq == u64::MAX {
            return Err(LedgerError::SeqOverflow);
        }
        proof {
            lemma_record_create_wf(self@, a, now);
        }
        self.seqs[si] = PatientSeq { patient, value: seq + 1 };
        let rec = Record {
            patient,
            hospital,
            uploader: caller,
            cid_enc: cid_t,
            meta_mime: mime_t,
            meta_cid: meta_t,
            size_bytes,
            blake2b_256,
            edek_root,
            edek_for_patient,
            edek_for_hospital,
            edek_root_algo,
            edek_patient_algo,
            edek_hospital_algo,
            kms_ref: kms_t,
            seq,
            enc_version,
            enc_algo,
            created_at: now,
            updated_at: now,
            patient_pubkey: patient,
            hospital_pubkey: hospital,
            hospital_name: hname_t,
            doctor_name: dname_t,
        };
        self.records.push(rec);
        proof {
            assert(self@.records =~= record_create_apply(old(self)@, a, now).records);
            assert(self@ =~= record_create_apply(old(self)@, a, now));
        }
        Ok(RecordCreated { patient, hospital, uploader: caller, seq, enc_version, created_at: now })
    }

    /// Authorizes a read of the record at (patient, seq) for `reader`,
    /// consuming nothing: the reported event is the only trace. The actual
    /// encrypted bytes are outside this core's reach.
    pub fn records_read(&self, patient: u64, seq: u64, reader: u64) -> (r: Result<
        RecordRead,
        LedgerError,
    >)
        requires
            self@.wf(),
        ensures
            match records_read_check(self@, patient, seq, reader) {
                Some(e) => r == Err::<RecordRead, LedgerError>(e),
                None => r == Ok::<RecordRead, LedgerError>(
                    RecordRead {
                        patient,
                        hospital: record_at(self@.records, patient, seq).hospital,
                        reader,
                        seq,
                    },
                ),
            },
    {
        let is_paused = match &self.config {
            None => {
                return Err(LedgerError::InvalidArgument);
            },
            Some(c) => c.paused,
        };
        if is_paused {
            return Err(LedgerError::Paused);
        }
        let ri = match find_record(&self.records, patient, seq) {
            None => {
                return Err(LedgerError::RecordMismatch);
            },
            Some(ri) => ri,
        };
        proof {
            lemma_record_at(self@.records, patient, seq, ri as int);
        }
        if find_seqctr(&self.seqs, patient).is_none() {
            return Err(LedgerError::BadSeq);
        }
        let gi = match find_grant(&self.grants, patient, reader, SCOPE_READ) {
            None => {
                return Err(LedgerError::GrantMismatch);
            },
            Some(gi) => gi,
        };
        proof {
            lemma_grant_at(self@.grants, patient, reader, SCOPE_READ, gi as int);
        }
        if self.grants[gi].revoked {
            return Err(LedgerError::GrantRevoked);
        }
        Ok(RecordRead { patient, hospital: self.records[ri].hospital, reader, seq })
    }
}

} // verus!
