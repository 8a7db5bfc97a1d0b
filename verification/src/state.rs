use vstd::prelude::*;

use crate::store::{EvidenceStore, PermitLedger};

verus! {

/// What the executor holds: evidence bytes by identifier, and the spent permits.
#[verifier::ext_equal]
pub struct RetentionState {
    pub evidence: Map<Seq<char>, Seq<u8>>,
    pub spent_permits: Set<Seq<char>>,
}

/// The executor's in-memory state.
pub struct AppState {
    evidence: EvidenceStore,
    spent_permits: PermitLedger,
}

impl View for AppState {
    type V = RetentionState;

    closed spec fn view(&self) -> RetentionState {
        RetentionState { evidence: self.evidence.view(), spent_permits: self.spent_permits.view() }
    }
}

impl AppState {
    /// A state with no evidence and no spent permit.
    pub fn new() -> (s: Self)
        ensures
            s@.evidence == Map::<Seq<char>, Seq<u8>>::empty(),
            s@.spent_permits == Set::<Seq<char>>::empty(),
    {
        AppState { evidence: EvidenceStore::new(), spent_permits: PermitLedger::new() }
    }

    /// Holds `bytes` as the evidence object `evidence_id`, replacing any earlier bytes.
    pub fn seed_evidence(&mut self, evidence_id: &str, bytes: Vec<u8>)
        ensures
            final(self)@.evidence == old(self)@.evidence.insert(evidence_id@, bytes@),
            final(self)@.spent_permits == old(self)@.spent_permits,
    {
        self.evidence.insert(evidence_id.to_owned(), bytes);
    }

    /// Is an evidence object held under `evidence_id`?
    pub fn contains_evidence(&self, evidence_id: &str) -> (r: bool)
        ensures
            r == self@.evidence.contains_key(evidence_id@),
    {
        self.evidence.contains_key(evidence_id)
    }

    /// The bytes held under `evidence_id`, if any.
    pub fn evidence_bytes(&self, evidence_id: &str) -> (r: Option<&[u8]>)
        ensures
            match r {
                Some(bytes) => self@.evidence.contains_key(evidence_id@) && bytes@ == self@.evidence[evidence_id@],
                None => !self@.evidence.contains_key(evidence_id@),
            },
    {
        self.evidence.get(evidence_id)
    }

    /// Has `permit_id` already executed a deletion?
    pub fn is_spent(&self, permit_id: &str) -> (r: bool)
        ensures
            r == self@.spent_permits.contains(permit_id@),
    {
        self.spent_permits.contains(permit_id)
    }

    /// Takes the evidence object `evidence_id` out of the state.
    pub(crate) fn take_evidence(&mut self, evidence_id: &str) -> (r: Option<Vec<u8>>)
        ensures
            final(self)@.evidence == old(self)@.evidence.remove(evidence_id@),
            final(self)@.spent_permits == old(self)@.spent_permits,
            match r {
                Some(bytes) => old(self)@.evidence.contains_key(evidence_id@) && bytes@ == old(self)@.evidence[evidence_id@],
                None => !old(self)@.evidence.contains_key(evidence_id@),
            },
    {
        self.evidence.remove(evidence_id)
    }

    /// Puts an evidence object back under `evidence_id`.
    pub(crate) fn restore_evidence(&mut self, evidence_id: String, bytes: Vec<u8>)
        ensures
            final(self)@.evidence == old(self)@.evidence.insert(evidence_id@, bytes@),
            final(self)@.spent_permits == old(self)@.spent_permits,
    {
        self.evidence.insert(evidence_id, bytes);
    }

    /// Records `permit_id` as spent.
    pub(crate) fn spend_permit(&mut self, permit_id: String)
        ensures
            final(self)@.evidence == old(self)@.evidence,
            final(self)@.spent_permits == old(self)@.spent_permits.insert(permit_id@),
    {
        self.spent_permits.insert(permit_id);
    }
}

} // verus!
