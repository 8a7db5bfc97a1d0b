use pulpo_retention_v0::{
    authorization_object_hash, check_deletion, delete_evidence, sha256_hex, AppState,
    DeletionAuthorization, DeletionRequest, ErrorStatus,
};

const NOW: u64 = 1_800_000_000;

fn fixture() -> (AppState, DeletionAuthorization) {
    let mut state = AppState::new();
    let evidence = b"sensitive-evidence-v0".to_vec();
    let evidence_hash = sha256_hex(&evidence);
    state.seed_evidence("ev_123", evidence);

    let mut auth = DeletionAuthorization {
        permit_id: "permit_delete_123".to_string(),
        actor_id: "executor:keel-retention-v0".to_string(),
        action: "delete_evidence".to_string(),
        evidence_id: "ev_123".to_string(),
        evidence_hash,
        policy_hash: "policy_hash_abc".to_string(),
        expires_at_unix: NOW + 60,
        authority_effect: "none".to_string(),
        object_hash: String::new(),
    };
    auth.object_hash = authorization_object_hash(&auth);
    (state, auth)
}

fn request(auth: &DeletionAuthorization) -> DeletionRequest {
    DeletionRequest { authorization: auth.clone() }
}

#[test]
fn valid_exact_deletion_removes_evidence_and_returns_nonreconciled_manifest() {
    let (mut state, auth) = fixture();
    let result = delete_evidence(&mut state, "ev_123".to_string(), request(&auth), NOW);

    let manifest = result.expect("exact authorization must delete");
    assert_eq!(manifest.custody_events, vec!["DeletionRequested", "DeletionExecuted"]);
    assert_eq!(manifest.reconciled, false);
    assert_eq!(manifest.authority_effect, "none");
    assert_eq!(manifest.merkle_root.len(), 64);
    assert!(!state.contains_evidence("ev_123"));
}

#[test]
fn evidence_id_substitution_fails_closed_and_preserves_bytes() {
    let (mut state, auth) = fixture();
    let result = delete_evidence(&mut state, "ev_attacker".to_string(), request(&auth), NOW);

    assert_eq!(result.err().map(|e| e.status), Some(ErrorStatus::Conflict));
    assert!(state.contains_evidence("ev_123"));
}

#[test]
fn evidence_hash_substitution_fails_closed_and_preserves_bytes() {
    let (mut state, mut auth) = fixture();
    auth.evidence_hash = "0".repeat(64);
    auth.object_hash = authorization_object_hash(&auth);

    let result = delete_evidence(&mut state, "ev_123".to_string(), request(&auth), NOW);

    assert_eq!(result.err().map(|e| e.status), Some(ErrorStatus::Conflict));
    assert!(state.contains_evidence("ev_123"));
}

#[test]
fn authorization_object_hash_substitution_fails_closed_and_preserves_bytes() {
    let (mut state, mut auth) = fixture();
    auth.actor_id = "executor:attacker".to_string();
    // Deliberately retain the original object hash after actor substitution.

    let result = delete_evidence(&mut state, "ev_123".to_string(), request(&auth), NOW);

    assert_eq!(result.err().map(|e| e.status), Some(ErrorStatus::Conflict));
    assert!(state.contains_evidence("ev_123"));
}

#[test]
fn expired_authorization_fails_closed_and_preserves_bytes() {
    let (mut state, mut auth) = fixture();
    auth.expires_at_unix = NOW - 1;
    auth.object_hash = authorization_object_hash(&auth);

    let result = delete_evidence(&mut state, "ev_123".to_string(), request(&auth), NOW);

    assert_eq!(result.err().map(|e| e.status), Some(ErrorStatus::Forbidden));
    assert!(state.contains_evidence("ev_123"));
}

#[test]
fn authority_expansion_is_denied() {
    let (mut state, mut auth) = fixture();
    auth.authority_effect = "expand".to_string();
    auth.object_hash = authorization_object_hash(&auth);

    let result = delete_evidence(&mut state, "ev_123".to_string(), request(&auth), NOW);

    assert_eq!(result.err().map(|e| e.status), Some(ErrorStatus::Forbidden));
    assert!(state.contains_evidence("ev_123"));
}

#[test]
fn replay_cannot_execute_a_second_deletion() {
    let (mut state, auth) = fixture();

    let first = delete_evidence(&mut state, "ev_123".to_string(), request(&auth), NOW);
    assert!(first.is_ok());

    // Re-seeding the same bytes simulates a hostile attempt to replay the spent
    // permit against a newly reappearing object. Permit consumption still wins.
    state.seed_evidence("ev_123", b"sensitive-evidence-v0".to_vec());
    let second = delete_evidence(&mut state, "ev_123".to_string(), request(&auth), NOW);
    assert_eq!(second.err().map(|e| e.status), Some(ErrorStatus::Conflict));
    assert!(state.contains_evidence("ev_123"));
}

#[test]
fn check_endpoint_is_nonmutating_and_requires_exact_authorization() {
    let (state, auth) = fixture();
    let result = check_deletion(&state, "ev_123".to_string(), request(&auth), NOW);

    let check = result.expect("exact authorization must pass the check");
    assert_eq!(check.exact_evidence_present, true);
    assert_eq!(check.governed_effect, "evidence_deletion");
    assert!(state.contains_evidence("ev_123"));
}
