use vstd::prelude::*;
use vstd::utf8::encode_utf8;

use crate::authorization::{DeletionAuthorization, DeletionRequest};
use crate::binding::{authorization_object_hash, spec_authorization_object_hash};
use crate::digest::{sha256_hex, spec_sha256_hex};
use crate::errors::{ApiError, ErrorCode, ErrorStatus};
use crate::state::{AppState, RetentionState};
use crate::text::same_text;

verus! {

/// The first refusal among the checks that need no digest, in the order they are made:
/// the action, the authority effect, the path identifier, the expiry, the permit's use.
pub open spec fn screening(
    spent_permits: Set<Seq<char>>,
    path_id: Seq<char>,
    auth: DeletionAuthorization,
    now_unix: u64,
) -> Option<ApiError> {
    if auth.action@ != "delete_evidence"@ {
        Some(ApiError { status: ErrorStatus::BadRequest, code: ErrorCode::ActionMismatch })
    } else if auth.authority_effect@ != "none"@ {
        Some(ApiError { status: ErrorStatus::Forbidden, code: ErrorCode::AuthorityExpansionDenied })
    } else if path_id != auth.evidence_id@ {
        Some(ApiError { status: ErrorStatus::Conflict, code: ErrorCode::EvidenceIdSubstitution })
    } else if now_unix > auth.expires_at_unix {
        Some(ApiError { status: ErrorStatus::Forbidden, code: ErrorCode::AuthorizationExpired })
    } else if spent_permits.contains(auth.permit_id@) {
        Some(ApiError { status: ErrorStatus::Conflict, code: ErrorCode::PermitReplayDenied })
    } else {
        None
    }
}

/// The first refusal among the digest checks, given the recomputed object hash and the
/// digest of the held evidence (`None` when no evidence is held under the path identifier).
pub open spec fn digest_verdict(
    auth: DeletionAuthorization,
    recomputed_object_hash: Seq<char>,
    evidence_digest: Option<Seq<char>>,
) -> Option<ApiError> {
    if recomputed_object_hash != auth.object_hash@ {
        Some(ApiError { status: ErrorStatus::Conflict, code: ErrorCode::AuthorizationObjectHashMismatch })
    } else {
        match evidence_digest {
            None => Some(ApiError { status: ErrorStatus::Conflict, code: ErrorCode::EvidenceNotPresent }),
            Some(d) => if d != auth.evidence_hash@ {
                Some(ApiError { status: ErrorStatus::Conflict, code: ErrorCode::EvidenceHashMismatch })
            } else {
                None
            },
        }
    }
}

/// The digest of the evidence held under `path_id`, if any.
pub open spec fn held_evidence_digest(evidence: Map<Seq<char>, Seq<u8>>, path_id: Seq<char>) -> Option<Seq<char>> {
    if evidence.contains_key(path_id) {
        Some(spec_sha256_hex(evidence[path_id]))
    } else {
        None
    }
}

/// Why a request to delete `path_id` under `auth` at time `now_unix` is refused in
/// `state`, or `None` when it is authorized.
pub open spec fn refusal(
    state: RetentionState,
    path_id: Seq<char>,
    auth: DeletionAuthorization,
    now_unix: u64,
) -> Option<ApiError> {
    match screening(state.spent_permits, path_id, auth, now_unix) {
        Some(e) => Some(e),
        None => digest_verdict(
            auth,
            spec_authorization_object_hash(auth),
            held_evidence_digest(state.evidence, path_id),
        ),
    }
}

/// The text of a custody event.
pub open spec fn event_text(
    kind: Seq<char>,
    permit_id: Seq<char>,
    evidence_id: Seq<char>,
    evidence_hash: Seq<char>,
    object_hash: Seq<char>,
) -> Seq<char> {
    kind + "|"@ + permit_id + "|"@ + evidence_id + "|"@ + evidence_hash + "|"@ + object_hash
}

/// The hash of a custody event of the given kind for a deletion of `path_id` under `auth`.
pub open spec fn event_hash(kind: Seq<char>, path_id: Seq<char>, auth: DeletionAuthorization) -> Seq<char> {
    spec_sha256_hex(
        encode_utf8(event_text(kind, auth.permit_id@, path_id, auth.evidence_hash@, auth.object_hash@)),
    )
}

/// The root that binds the two event hashes.
pub open spec fn merkle_root_of(requested: Seq<char>, executed: Seq<char>) -> Seq<char> {
    spec_sha256_hex(encode_utf8(requested + executed))
}

/// The state after an authorized deletion: the evidence is gone, the permit is spent.
pub open spec fn after_deletion(state: RetentionState, path_id: Seq<char>, auth: DeletionAuthorization) -> RetentionState {
    RetentionState {
        evidence: state.evidence.remove(path_id),
        spent_permits: state.spent_permits.insert(auth.permit_id@),
    }
}

/// A successful dry run of a deletion: the check names the exact evidence and permit and
/// claims no authority.
pub struct RetentionCheck {
    pub evidence_id: String,
    pub permit_id: String,
    pub authorization_object_hash: String,
    pub exact_evidence_present: bool,
    pub governed_effect: &'static str,
    pub authority_effect: &'static str,
}

/// Execution evidence of a deletion. It is never reconciled by the executor itself.
pub struct DeletionManifest {
    pub manifest_id: String,
    pub permit_id: String,
    pub evidence_id: String,
    pub evidence_hash: String,
    pub policy_hash: String,
    pub authorization_object_hash: String,
    pub deletion_requested_hash: String,
    pub deletion_executed_hash: String,
    pub merkle_root: String,
    pub custody_events: Vec<&'static str>,
    pub reconciled: bool,
    pub authority_effect: &'static str,
}

/// `check` reports an authorized deletion of `path_id` under `auth`.
pub open spec fn describes_check(check: RetentionCheck, path_id: Seq<char>, auth: DeletionAuthorization) -> bool {
    &&& check.evidence_id@ == path_id
    &&& check.permit_id@ == auth.permit_id@
    &&& check.authorization_object_hash@ == auth.object_hash@
    &&& check.exact_evidence_present
    &&& check.governed_effect@ == "evidence_deletion"@
    &&& check.authority_effect@ == "none"@
}

/// `m` records the deletion of `path_id` under `auth`.
pub open spec fn describes_deletion(m: DeletionManifest, path_id: Seq<char>, auth: DeletionAuthorization) -> bool {
    let requested = event_hash("DeletionRequested"@, path_id, auth);
    let executed = event_hash("DeletionExecuted"@, path_id, auth);
    let root = merkle_root_of(requested, executed);
    &&& m.deletion_requested_hash@ == requested
    &&& m.deletion_executed_hash@ == executed
    &&& m.merkle_root@ == root
    &&& m.manifest_id@ == "mnf_"@ + root.subrange(0, 16)
    &&& m.permit_id@ == auth.permit_id@
    &&& m.evidence_id@ == path_id
    &&& m.evidence_hash@ == auth.evidence_hash@
    &&& m.policy_hash@ == auth.policy_hash@
    &&& m.authorization_object_hash@ == auth.object_hash@
    &&& m.custody_events@.len() == 2
    &&& m.custody_events@[0]@ == "DeletionRequested"@
    &&& m.custody_events@[1]@ == "DeletionExecuted"@
    &&& !m.reconciled
    &&& m.authority_effect@ == "none"@
}

/// Makes the checks that need no digest, in order, and returns the first refusal.
pub fn screen_authorization(
    state: &AppState,
    path_id: &str,
    auth: &DeletionAuthorization,
    now_unix: u64,
) -> (r: Option<ApiError>)
    ensures
        r == screening(state@.spent_permits, path_id@, *auth, now_unix),
{
    if !same_text(auth.action.as_str(), "delete_evidence") {
        return Some(ApiError::bad_request(ErrorCode::ActionMismatch));
    }
    if !same_text(auth.authority_effect.as_str(), "none") {
        return Some(ApiError::forbidden(ErrorCode::AuthorityExpansionDenied));
    }
    if !same_text(path_id, auth.evidence_id.as_str()) {
        return Some(ApiError::conflict(ErrorCode::EvidenceIdSubstitution));
    }
    if now_unix > auth.expires_at_unix {
        return Some(ApiError::forbidden(ErrorCode::AuthorizationExpired));
    }
    if state.is_spent(auth.permit_id.as_str()) {
        return Some(ApiError::conflict(ErrorCode::PermitReplayDenied));
    }
    None
}

/// Makes the digest checks, in order, on the recomputed object hash and on the digest of
/// the held evidence (`None` when none is held), and returns the first refusal.
pub fn check_digests(
    auth: &DeletionAuthorization,
    recomputed_object_hash: &str,
    evidence_digest: Option<&str>,
) -> (r: Option<ApiError>)
    ensures
        r == digest_verdict(
            *auth,
            recomputed_object_hash@,
            match evidence_digest {
                Some(d) => Some(d@),
                None => None,
            },
        ),
{
    if !same_text(recomputed_object_hash, auth.object_hash.as_str()) {
        return Some(ApiError::conflict(ErrorCode::AuthorizationObjectHashMismatch));
    }
    match evidence_digest {
        None => Some(ApiError::conflict(ErrorCode::EvidenceNotPresent)),
        Some(d) => {
            if !same_text(d, auth.evidence_hash.as_str()) {
                Some(ApiError::conflict(ErrorCode::EvidenceHashMismatch))
            } else {
                None
            }
        },
    }
}

/// Decides whether `auth` authorizes deleting the evidence `path_id` at `now_unix`,
/// and on success returns the exact evidence bytes it governs. The refusal, if any, is
/// the first one in the order of `screening` and then of `digest_verdict`.
pub fn validate<'a>(
    path_id: &str,
    auth: &DeletionAuthorization,
    now_unix: u64,
    inner: &'a AppState,
) -> (r: Result<&'a [u8], ApiError>)
    ensures
        match r {
            Ok(bytes) => {
                &&& refusal(inner@, path_id@, *auth, now_unix) is None
                &&& inner@.evidence.contains_key(path_id@)
                &&& bytes@ == inner@.evidence[path_id@]
            },
            Err(e) => refusal(inner@, path_id@, *auth, now_unix) == Some(e),
        },
{
    match screen_authorization(inner, path_id, auth, now_unix) {
        Some(e) => {
            return Err(e);
        },
        None => {},
    }
    let expected_object_hash = authorization_object_hash(auth);
    let evidence = inner.evidence_bytes(path_id);
    let evidence_hash: Option<String> = match evidence {
        Some(bytes) => Some(sha256_hex(bytes)),
        None => None,
    };
    let evidence_digest: Option<&str> = match &evidence_hash {
        Some(h) => Some(h.as_str()),
        None => None,
    };
    match check_digests(auth, expected_object_hash.as_str(), evidence_digest) {
        Some(e) => Err(e),
        None => match evidence {
            Some(bytes) => Ok(bytes),
            None => Err(ApiError::conflict(ErrorCode::EvidenceNotPresent)),
        },
    }
}

/// The text of a custody event.
fn custody_event_text(
    kind: &str,
    permit_id: &str,
    evidence_id: &str,
    evidence_hash: &str,
    object_hash: &str,
) -> (s: String)
    ensures
        s@ == event_text(kind@, permit_id@, evidence_id@, evidence_hash@, object_hash@),
{
    let mut s = kind.to_owned();
    s.append("|");
    s.append(permit_id);
    s.append("|");
    s.append(evidence_id);
    s.append("|");
    s.append(evidence_hash);
    s.append("|");
    s.append(object_hash);
    s
}

/// Checks, without changing anything, that the request would delete the evidence `id`.
pub fn check_deletion(
    state: &AppState,
    id: String,
    request: DeletionRequest,
    now_unix: u64,
) -> (r: Result<RetentionCheck, ApiError>)
    ensures
        match r {
            Ok(check) => refusal(state@, id@, request.authorization, now_unix) is None
                && describes_check(check, id@, request.authorization),
            Err(e) => refusal(state@, id@, request.authorization, now_unix) == Some(e),
        },
{
    match validate(id.as_str(), &request.authorization, now_unix, state) {
        Err(e) => {
            return Err(e);
        },
        Ok(_) => {},
    }
    Ok(
        RetentionCheck {
            evidence_id: id,
            permit_id: request.authorization.permit_id.clone(),
            authorization_object_hash: request.authorization.object_hash.clone(),
            exact_evidence_present: true,
            governed_effect: "evidence_deletion",
            authority_effect: "none",
        },
    )
}

/// Deletes the evidence `id` when the request's authorization binds it exactly, spends the
/// permit, and returns a manifest of the deletion. A refused request changes nothing.
pub fn delete_evidence(
    state: &mut AppState,
    id: String,
    request: DeletionRequest,
    now_unix: u64,
) -> (r: Result<DeletionManifest, ApiError>)
    ensures
        match r {
            Ok(m) => {
                &&& refusal(old(state)@, id@, request.authorization, now_unix) is None
                &&& final(state)@ == after_deletion(old(state)@, id@, request.authorization)
                &&& describes_deletion(m, id@, request.authorization)
                &&& m.deletion_requested_hash@.len() == 64
                &&& m.deletion_executed_hash@.len() == 64
                &&& m.merkle_root@.len() == 64
                &&& m.manifest_id@.len() == 20
            },
            Err(e) => {
                &&& refusal(old(state)@, id@, request.authorization, now_unix) == Some(e)
                &&& final(state)@ == old(state)@
            },
        },
{
    match validate(id.as_str(), &request.authorization, now_unix, &*state) {
        Err(e) => {
            return Err(e);
        },
        Ok(_) => {},
    }
    let auth = &request.authorization;
    let request_event = custody_event_text(
        "DeletionRequested",
        auth.permit_id.as_str(),
        id.as_str(),
        auth.evidence_hash.as_str(),
        auth.object_hash.as_str(),
    );
    let deletion_requested_hash = sha256_hex(request_event.as_str().as_bytes());

    let removed = match state.take_evidence(id.as_str()) {
        Some(bytes) => bytes,
        None => {
            return Err(ApiError::conflict(ErrorCode::EvidenceNotPresent));
        },
    };
    let removed_hash = sha256_hex(removed.as_slice());
    if !same_text(removed_hash.as_str(), auth.evidence_hash.as_str()) {
        state.restore_evidence(id.clone(), removed);
        return Err(ApiError::conflict(ErrorCode::EvidenceHashChangedDuringDelete));
    }

    state.spend_permit(auth.permit_id.clone());

    let executed_event = custody_event_text(
        "DeletionExecuted",
        auth.permit_id.as_str(),
        id.as_str(),
        auth.evidence_hash.as_str(),
        auth.object_hash.as_str(),
    );
    let deletion_executed_hash = sha256_hex(executed_event.as_str().as_bytes());
    let mut joined = deletion_requested_hash.clone();
    joined.append(deletion_executed_hash.as_str());
    let merkle_root = sha256_hex(joined.as_str().as_bytes());
    let mut manifest_id = "mnf_".to_owned();
    manifest_id.append(merkle_root.as_str().substring_char(0, 16));
    proof {
        reveal_strlit("mnf_");
        assert(manifest_id@.len() == 20);
    }

    Ok(
        DeletionManifest {
            manifest_id,
            permit_id: auth.permit_id.clone(),
            evidence_id: id,
            evidence_hash: auth.evidence_hash.clone(),
            policy_hash: auth.policy_hash.clone(),
            authorization_object_hash: auth.object_hash.clone(),
            deletion_requested_hash,
            deletion_executed_hash,
            merkle_root,
            custody_events: vec!["DeletionRequested", "DeletionExecuted"],
            reconciled: false,
            authority_effect: "none",
        },
    )
}

} // verus!
