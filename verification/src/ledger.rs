use vstd::prelude::*;

use crate::states::{
    Config, ConfigV, Grant, Hospital, HospitalV, Patient, PatientSeq, PatientV, Record, RecordV,
    Trustee, MAX_KMS_REF_LEN, grant_wf, hospital_wf, patient_wf, record_wf,
};

verus! {

/// The whole persisted state of the core: every entity store, addressed
/// deterministically by the owning identities (plus the scope byte for a
/// grant, the sequence number for a record).
pub struct Ledger {
    pub config: Option<Config>,
    pub hospitals: Vec<Hospital>,
    pub patients: Vec<Patient>,
    pub seqs: Vec<PatientSeq>,
    pub trustees: Vec<Trustee>,
    pub grants: Vec<Grant>,
    pub records: Vec<Record>,
}

/// Mathematical image of `Ledger`: each store as a sequence of entity
/// images, unordered in meaning (the key predicates below quantify over it).
#[verifier::ext_equal]
pub struct LedgerV {
    pub config: Option<ConfigV>,
    pub hospitals: Seq<HospitalV>,
    pub patients: Seq<PatientV>,
    pub seqs: Seq<PatientSeq>,
    pub trustees: Seq<Trustee>,
    pub grants: Seq<Grant>,
    pub records: Seq<RecordV>,
}

pub open spec fn hospitals_v(s: Seq<Hospital>) -> Seq<HospitalV> {
    s.map_values(|h: Hospital| h@)
}

pub open spec fn patients_v(s: Seq<Patient>) -> Seq<PatientV> {
    s.map_values(|p: Patient| p@)
}

pub open spec fn records_v(s: Seq<Record>) -> Seq<RecordV> {
    s.map_values(|r: Record| r@)
}

impl View for Ledger {
    type V = LedgerV;

    open spec fn view(&self) -> LedgerV {
        LedgerV {
            config: match self.config {
                Some(c) => Some(c@),
                None => None,
            },
            hospitals: hospitals_v(self.hospitals@),
            patients: patients_v(self.patients@),
            seqs: self.seqs@,
            trustees: self.trustees@,
            grants: self.grants@,
            records: records_v(self.records@),
        }
    }
}

// Key predicates: whether a store holds an entity at a key, the entity there,
// and that keys are unique. Uniqueness makes `choose` pick the one index.

pub open spec fn has_hospital(s: Seq<HospitalV>, authority: u64) -> bool {
    exists|i: int| 0 <= i < s.len() && s[i].authority == authority
}

pub open spec fn hospital_index(s: Seq<HospitalV>, authority: u64) -> int {
    choose|i: int| 0 <= i < s.len() && s[i].authority == authority
}

pub open spec fn hospital_at(s: Seq<HospitalV>, authority: u64) -> HospitalV {
    s[hospital_index(s, authority)]
}

pub open spec fn hospitals_unique(s: Seq<HospitalV>) -> bool {
    forall|i: int, j: int|
        0 <= i < s.len() && 0 <= j < s.len() && s[i].authority == s[j].authority ==> i == j
}

pub open spec fn has_patient(s: Seq<PatientV>, owner: u64) -> bool {
    exists|i: int| 0 <= i < s.len() && s[i].patient_pubkey == owner
}

pub open spec fn patient_index(s: Seq<PatientV>, owner: u64) -> int {
    choose|i: int| 0 <= i < s.len() && s[i].patient_pubkey == owner
}

pub open spec fn patient_at(s: Seq<PatientV>, owner: u64) -> PatientV {
    s[patient_index(s, owner)]
}

pub open spec fn patients_unique(s: Seq<PatientV>) -> bool {
    forall|i: int, j: int|
        0 <= i < s.len() && 0 <= j < s.len() && s[i].patient_pubkey == s[j].patient_pubkey
            ==> i == j
}

pub open spec fn has_seqctr(s: Seq<PatientSeq>, owner: u64) -> bool {
    exists|i: int| 0 <= i < s.len() && s[i].patient == owner
}

pub open spec fn seqctr_index(s: Seq<PatientSeq>, owner: u64) -> int {
    choose|i: int| 0 <= i < s.len() && s[i].patient == owner
}

pub open spec fn seqctr_at(s: Seq<PatientSeq>, owner: u64) -> PatientSeq {
    s[seqctr_index(s, owner)]
}

pub open spec fn seqctrs_unique(s: Seq<PatientSeq>) -> bool {
    forall|i: int, j: int|
        0 <= i < s.len() && 0 <= j < s.len() && s[i].patient == s[j].patient ==> i == j
}

pub open spec fn trustee_keyed(t: Trustee, patient: u64, trustee: u64) -> bool {
    t.patient == patient && t.trustee == trustee
}

pub open spec fn has_trustee(s: Seq<Trustee>, patient: u64, trustee: u64) -> bool {
    exists|i: int| 0 <= i < s.len() && trustee_keyed(#[trigger] s[i], patient, trustee)
}

pub open spec fn trustee_index(s: Seq<Trustee>, patient: u64, trustee: u64) -> int {
    choose|i: int| 0 <= i < s.len() && trustee_keyed(#[trigger] s[i], patient, trustee)
}

pub open spec fn trustee_at(s: Seq<Trustee>, patient: u64, trustee: u64) -> Trustee {
    s[trustee_index(s, patient, trustee)]
}

pub open spec fn trustees_unique(s: Seq<Trustee>) -> bool {
    forall|i: int, j: int|
        0 <= i < s.len() && 0 <= j < s.len() && s[i].patient == s[j].patient
            && s[i].trustee == s[j].trustee ==> i == j
}

pub open spec fn grant_keyed(g: Grant, patient: u64, grantee: u64, scope: u8) -> bool {
    g.patient == patient && g.grantee == grantee && g.scope == scope
}

pub open spec fn has_grant(s: Seq<Grant>, patient: u64, grantee: u64, scope: u8) -> bool {
    exists|i: int| 0 <= i < s.len() && grant_keyed(#[trigger] s[i], patient, grantee, scope)
}

pub open spec fn grant_index(s: Seq<Grant>, patient: u64, grantee: u64, scope: u8) -> int {
    choose|i: int| 0 <= i < s.len() && grant_keyed(#[trigger] s[i], patient, grantee, scope)
}

pub open spec fn grant_at(s: Seq<Grant>, patient: u64, grantee: u64, scope: u8) -> Grant {
    s[grant_index(s, patient, grantee, scope)]
}

pub open spec fn grants_unique(s: Seq<Grant>) -> bool {
    forall|i: int, j: int|
        0 <= i < s.len() && 0 <= j < s.len() && s[i].patient == s[j].patient
            && s[i].grantee == s[j].grantee && s[i].scope == s[j].scope ==> i == j
}

pub open spec fn record_keyed(r: RecordV, patient: u64, seq: u64) -> bool {
    r.patient == patient && r.seq == seq
}

pub open spec fn has_record(s: Seq<RecordV>, patient: u64, seq: u64) -> bool {
    exists|i: int| 0 <= i < s.len() && record_keyed(#[trigger] s[i], patient, seq)
}

pub open spec fn record_index(s: Seq<RecordV>, patient: u64, seq: u64) -> int {
    choose|i: int| 0 <= i < s.len() && record_keyed(#[trigger] s[i], patient, seq)
}

pub open spec fn record_at(s: Seq<RecordV>, patient: u64, seq: u64) -> RecordV {
    s[record_index(s, patient, seq)]
}

pub open spec fn records_unique(s: Seq<RecordV>) -> bool {
    forall|i: int, j: int|
        0 <= i < s.len() && 0 <= j < s.len() && s[i].patient == s[j].patient
            && s[i].seq == s[j].seq ==> i == j
}

impl LedgerV {
    /// Well-formedness: keys are unique in every store, every stored entity
    /// satisfies its field bounds, every patient owns exactly one counter,
    /// and each owner's records are exactly the sequence numbers below the
    /// counter — the gapless chain starting at 0.
    pub open spec fn wf(self) -> bool {
        &&& (self.config matches Some(c) ==> 1 <= c.kms_namespace.len()
            <= MAX_KMS_REF_LEN as int)
        &&& hospitals_unique(self.hospitals)
        &&& patients_unique(self.patients)
        &&& seqctrs_unique(self.seqs)
        &&& trustees_unique(self.trustees)
        &&& grants_unique(self.grants)
        &&& records_unique(self.records)
        &&& forall|i: int| 0 <= i < self.hospitals.len() ==> hospital_wf(#[trigger] self.hospitals[i])
        &&& forall|i: int| 0 <= i < self.patients.len() ==> patient_wf(#[trigger] self.patients[i])
        &&& forall|i: int| 0 <= i < self.grants.len() ==> grant_wf(#[trigger] self.grants[i])
        &&& forall|i: int| 0 <= i < self.records.len() ==> record_wf(#[trigger] self.records[i])
        &&& forall|i: int|
            0 <= i < self.patients.len() ==> has_seqctr(
                self.seqs,
                (#[trigger] self.patients[i]).patient_pubkey,
            )
        &&& forall|i: int|
            0 <= i < self.seqs.len() ==> has_patient(
                self.patients,
                (#[trigger] self.seqs[i]).patient,
            )
        &&& forall|i: int|
            0 <= i < self.records.len() ==> has_seqctr(
                self.seqs,
                (#[trigger] self.records[i]).patient,
            ) && self.records[i].seq < seqctr_at(self.seqs, self.records[i].patient).value
        &&& forall|i: int, s: u64|
            0 <= i < self.seqs.len() && s < self.seqs[i].value ==> #[trigger] has_record(
                self.records,
                self.seqs[i].patient,
                s,
            )
    }

    /// Whether the config exists and blocks mutation.
    pub open spec fn paused(self) -> bool {
        self.config matches Some(c) && c.paused
    }
}

/// The state a fresh core starts from: no config, every store empty.
pub open spec fn empty_ledger() -> LedgerV {
    LedgerV {
        config: None,
        hospitals: Seq::empty(),
        patients: Seq::empty(),
        seqs: Seq::empty(),
        trustees: Seq::empty(),
        grants: Seq::empty(),
        records: Seq::empty(),
    }
}

// With unique keys, an index that matches is the index `choose` picks.

pub proof fn lemma_hospital_at(s: Seq<HospitalV>, authority: u64, i: int)
    requires
        hospitals_unique(s),
        0 <= i < s.len(),
        s[i].authority == authority,
    ensures
        has_hospital(s, authority),
        hospital_index(s, authority) == i,
        hospital_at(s, authority) == s[i],
{
    assert(has_hospital(s, authority));
    let j = hospital_index(s, authority);
    assert(0 <= j < s.len() && s[j].authority == authority);
}

pub proof fn lemma_patient_at(s: Seq<PatientV>, owner: u64, i: int)
    requires
        patients_unique(s),
        0 <= i < s.len(),
        s[i].patient_pubkey == owner,
    ensures
        has_patient(s, owner),
        patient_index(s, owner) == i,
        patient_at(s, owner) == s[i],
{
    assert(has_patient(s, owner));
    let j = patient_index(s, owner);
    assert(0 <= j < s.len() && s[j].patient_pubkey == owner);
}

pub proof fn lemma_seqctr_at(s: Seq<PatientSeq>, owner: u64, i: int)
    requires
        seqctrs_unique(s),
        0 <= i < s.len(),
        s[i].patient == owner,
    ensures
        has_seqctr(s, owner),
        seqctr_index(s, owner) == i,
        seqctr_at(s, owner) == s[i],
{
    assert(has_seqctr(s, owner));
    let j = seqctr_index(s, owner);
    assert(0 <= j < s.len() && s[j].patient == owner);
}

pub proof fn lemma_trustee_at(s: Seq<Trustee>, patient: u64, trustee: u64, i: int)
    requires
        trustees_unique(s),
        0 <= i < s.len(),
        trustee_keyed(s[i], patient, trustee),
    ensures
        has_trustee(s, patient, trustee),
        trustee_index(s, patient, trustee) == i,
        trustee_at(s, patient, trustee) == s[i],
{
    assert(has_trustee(s, patient, trustee));
    let j = trustee_index(s, patient, trustee);
    assert(0 <= j < s.len() && trustee_keyed(s[j], patient, trustee));
}

pub proof fn lemma_grant_at(s: Seq<Grant>, patient: u64, grantee: u64, scope: u8, i: int)
    requires
        grants_unique(s),
        0 <= i < s.len(),
        grant_keyed(s[i], patient, grantee, scope),
    ensures
        has_grant(s, patient, grantee, scope),
        grant_index(s, patient, grantee, scope) == i,
        grant_at(s, patient, grantee, scope) == s[i],
{
    assert(has_grant(s, patient, grantee, scope));
    let j = grant_index(s, patient, grantee, scope);
    assert(0 <= j < s.len() && grant_keyed(s[j], patient, grantee, scope));
}

pub proof fn lemma_record_at(s: Seq<RecordV>, patient: u64, seq: u64, i: int)
    requires
        records_unique(s),
        0 <= i < s.len(),
        record_keyed(s[i], patient, seq),
    ensures
        has_record(s, patient, seq),
        record_index(s, patient, seq) == i,
        record_at(s, patient, seq) == s[i],
{
    assert(has_record(s, patient, seq));
    let j = record_index(s, patient, seq);
    assert(0 <= j < s.len() && record_keyed(s[j], patient, seq));
}

// Linear lookups over the stores. Addressing is deterministic, so the
// outcome is exactly the key predicate over the store's image.

pub(crate) fn find_hospital(v: &Vec<Hospital>, authority: u64) -> (r: Option<usize>)
    ensures
        match r {
            Some(i) => i < v.len() && hospitals_v(v@)[i as int].authority == authority,
            None => !has_hospital(hospitals_v(v@), authority),
        },
{
    let mut i: usize = 0;
    while i < v.len()
        invariant
            i <= v.len(),
            forall|j: int| 0 <= j < i ==> hospitals_v(v@)[j].authority != authority,
        decreases v.len() - i,
    {
        if v[i].authority == authority {
            return Some(i);
        }
        i += 1;
    }
    None
}

pub(crate) fn find_patient(v: &Vec<Patient>, owner: u64) -> (r: Option<usize>)
    ensures
        match r {
            Some(i) => i < v.len() && patients_v(v@)[i as int].patient_pubkey == owner,
            None => !has_patient(patients_v(v@), owner),
        },
{
    let mut i: usize = 0;
    while i < v.len()
        invariant
            i <= v.len(),
            forall|j: int| 0 <= j < i ==> patients_v(v@)[j].patient_pubkey != owner,
        decreases v.len() - i,
    {
        if v[i].patient_pubkey == owner {
            return Some(i);
        }
        i += 1;
    }
    None
}

pub(crate) fn find_seqctr(v: &Vec<PatientSeq>, owner: u64) -> (r: Option<usize>)
    ensures
        match r {
            Some(i) => i < v.len() && v@[i as int].patient == owner,
            None => !has_seqctr(v@, owner),
        },
{
    let mut i: usize = 0;
    while i < v.len()
        invariant
            i <= v.len(),
            forall|j: int| 0 <= j < i ==> v@[j].patient != owner,
        decreases v.len() - i,
    {
        if v[i].patient == owner {
            return Some(i);
        }
        i += 1;
    }
    None
}

pub(crate) fn find_trustee(v: &Vec<Trustee>, patient: u64, trustee: u64) -> (r: Option<usize>)
    ensures
        match r {
            Some(i) => i < v.len() && trustee_keyed(v@[i as int], patient, trustee),
            None => !has_trustee(v@, patient, trustee),
        },
{
    let mut i: usize = 0;
    while i < v.len()
        invariant
            i <= v.len(),
            forall|j: int| 0 <= j < i ==> !trustee_keyed(v@[j], patient, trustee),
        decreases v.len() - i,
    {
        if v[i].patient == patient && v[i].trustee == trustee {
            return Some(i);
        }
        i += 1;
    }
    None
}

pub(crate) fn find_grant(v: &Vec<Grant>, patient: u64, grantee: u64, scope: u8) -> (r: Option<
    usize,
>)
    ensures
        match r {
            Some(i) => i < v.len() && grant_keyed(v@[i as int], patient, grantee, scope),
            None => !has_grant(v@, patient, grantee, scope),
        },
{
    let mut i: usize = 0;
    while i < v.len()
        invariant
            i <= v.len(),
            forall|j: int| 0 <= j < i ==> !grant_keyed(v@[j], patient, grantee, scope),
        decreases v.len() - i,
    {
        if v[i].patient == patient && v[i].grantee == grantee && v[i].scope == scope {
            return Some(i);
        }
        i += 1;
    }
    None
}

pub(crate) fn find_record(v: &Vec<Record>, patient: u64, seq: u64) -> (r: Option<usize>)
    ensures
        match r {
            Some(i) => i < v.len() && record_keyed(records_v(v@)[i as int], patient, seq),
            None => !has_record(records_v(v@), patient, seq),
        },
{
    let mut i: usize = 0;
    while i < v.len()
        invariant
            i <= v.len(),
            forall|j: int| 0 <= j < i ==> !record_keyed(records_v(v@)[j], patient, seq),
        decreases v.len() - i,
    {
        if v[i].patient == patient && v[i].seq == seq {
            return Some(i);
        }
        i += 1;
    }
    None
}

impl Ledger {
    /// A fresh, empty core.
    pub fn new() -> (l: Ledger)
        ensures
            l@ == empty_ledger(),
            l@.wf(),
    {
        let l = Ledger {
            config: None,
            hospitals: Vec::new(),
            patients: Vec::new(),
            seqs: Vec::new(),
            trustees: Vec::new(),
            grants: Vec::new(),
            records: Vec::new(),
        };
        proof {
            assert(l@ =~= empty_ledger());
        }
        l
    }

    /// The config singleton, if initialized.
    pub fn get_config(&self) -> (r: Option<&Config>)
        ensures
            match r {
                Some(c) => self@.config == Some(c@),
                None => self@.config is None,
            },
    {
        match &self.config {
            Some(c) => Some(c),
            None => None,
        }
    }

    /// The hospital registered for `authority`, if any.
    pub fn get_hospital(&self, authority: u64) -> (r: Option<&Hospital>)
        requires
            self@.wf(),
        ensures
            match r {
                Some(h) => has_hospital(self@.hospitals, authority) && h@ == hospital_at(
                    self@.hospitals,
                    authority,
                ),
                None => !has_hospital(self@.hospitals, authority),
            },
    {
        match find_hospital(&self.hospitals, authority) {
            Some(i) => {
                proof {
                    lemma_hospital_at(self@.hospitals, authority, i as int);
                }
                Some(&self.hospitals[i])
            },
            None => None,
        }
    }

    /// The patient profile of `owner`, if any.
    pub fn get_patient(&self, owner: u64) -> (r: Option<&Patient>)
        requires
            self@.wf(),
        ensures
            match r {
                Some(p) => has_patient(self@.patients, owner) && p@ == patient_at(
                    self@.patients,
                    owner,
                ),
                None => !has_patient(self@.patients, owner),
            },
    {
        match find_patient(&self.patients, owner) {
            Some(i) => {
                proof {
                    lemma_patient_at(self@.patients, owner, i as int);
                }
                Some(&self.patients[i])
            },
            None => None,
        }
    }

    /// The sequence number the next record for `owner` must carry, if the
    /// owner is registered.
    pub fn get_seq_value(&self, owner: u64) -> (r: Option<u64>)
        requires
            self@.wf(),
        ensures
            match r {
                Some(value) => has_seqctr(self@.seqs, owner) && value == seqctr_at(
                    self@.seqs,
                    owner,
                ).value,
                None => !has_seqctr(self@.seqs, owner),
            },
    {
        match find_seqctr(&self.seqs, owner) {
            Some(i) => {
                proof {
                    lemma_seqctr_at(self@.seqs, owner, i as int);
                }
                Some(self.seqs[i].value)
            },
            None => None,
        }
    }

    /// The trustee slot for (patient, trustee), if any.
    pub fn get_trustee(&self, patient: u64, trustee: u64) -> (r: Option<&Trustee>)
        requires
            self@.wf(),
        ensures
            match r {
                Some(t) => has_trustee(self@.trustees, patient, trustee) && *t == trustee_at(
                    self@.trustees,
                    patient,
                    trustee,
                ),
                None => !has_trustee(self@.trustees, patient, trustee),
            },
    {
        match find_trustee(&self.trustees, patient, trustee) {
            Some(i) => {
                proof {
                    lemma_trustee_at(self@.trustees, patient, trustee, i as int);
                }
                Some(&self.trustees[i])
            },
            None => None,
        }
    }

    /// The grant at (patient, grantee, scope), if any.
    pub fn get_grant(&self, patient: u64, grantee: u64, scope: u8) -> (r: Option<&Grant>)
        requires
            self@.wf(),
        ensures
            match r {
                Some(g) => has_grant(self@.grants, patient, grantee, scope) && *g == grant_at(
                    self@.grants,
                    patient,
                    grantee,
                    scope,
                ),
                None => !has_grant(self@.grants, patient, grantee, scope),
            },
    {
        match find_grant(&self.grants, patient, grantee, scope) {
            Some(i) => {
                proof {
                    lemma_grant_at(self@.grants, patient, grantee, scope, i as int);
                }
                Some(&self.grants[i])
            },
            None => None,
        }
    }

    /// The record envelope at (patient, seq), if any.
    pub fn get_record(&self, patient: u64, seq: u64) -> (r: Option<&Record>)
        requires
            self@.wf(),
        ensures
            match r {
                Some(rec) => has_record(self@.records, patient, seq) && rec@ == record_at(
                    self@.records,
                    patient,
                    seq,
                ),
                None => !has_record(self@.records, patient, seq),
            },
    {
        match find_record(&self.records, patient, seq) {
            Some(i) => {
                proof {
                    lemma_record_at(self@.records, patient, seq, i as int);
                }
                Some(&self.records[i])
            },
            None => None,
        }
    }
}

} // verus!
