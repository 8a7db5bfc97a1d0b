use vstd::prelude::*;

verus! {

/// An already-issued authorization to delete one evidence object.
/// Every field is bound by `object_hash`, except `object_hash` itself.
#[derive(Clone, Debug)]
pub struct DeletionAuthorization {
    pub permit_id: String,
    pub actor_id: String,
    pub action: String,
    pub evidence_id: String,
    pub evidence_hash: String,
    pub policy_hash: String,
    pub expires_at_unix: u64,
    pub authority_effect: String,
    pub object_hash: String,
}

/// The body of a check or delete request.
#[derive(Debug)]
pub struct DeletionRequest {
    pub authorization: DeletionAuthorization,
}

} // verus!
