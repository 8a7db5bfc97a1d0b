use pulpo_retention_v0::{
    authorization_binding_json, authorization_object_hash, check_deletion, check_digests,
    delete_evidence, encode_hex_lower, same_text, screen_authorization, sha256_hex, validate,
    ApiError, AppState, DeletionAuthorization, DeletionRequest, ErrorCode, ErrorStatus,
};

const NOW: u64 = 1_800_000_000;

fn seeded() -> (AppState, DeletionAuthorization) {
    let mut state = AppState::new();
    let evidence = b"sensitive-evidence-v0".to_vec();
    let evidence_hash = sha256_hex(&evidence);
    state.seed_evidence("ev_123", evidence);
    let mut auth = DeletionAuthorization {
        permit_id: "permit_delete_123".to_string(),
        actor_id: "executor:keel-retention-v0".to_string(),
        action: "delete_evidence".to_string(),
        evidence_id: "ev_123".to_string(),
        evidence_hash,
        policy_hash: "policy_hash_abc".to_string(),
        expires_at_unix: NOW + 60,
        authority_effect: "none".to_string(),
        object_hash: String::new(),
    };
    auth.object_hash = authorization_object_hash(&auth);
    (state, auth)
}

fn req(auth: &DeletionAuthorization) -> DeletionRequest {
    DeletionRequest { authorization: auth.clone() }
}

fn serde_binding(auth: &DeletionAuthorization) -> Vec<u8> {
    let mut map = serde_json::Map::new();
    map.insert("permit_id".to_string(), serde_json::Value::String(auth.permit_id.clone()));
    map.insert("actor_id".to_string(), serde_json::Value::String(auth.actor_id.clone()));
    map.insert("action".to_string(), serde_json::Value::String(auth.action.clone()));
    map.insert("evidence_id".to_string(), serde_json::Value::String(auth.evidence_id.clone()));
    map.insert("evidence_hash".to_string(), serde_json::Value::String(auth.evidence_hash.clone()));
    map.insert("policy_hash".to_string(), serde_json::Value::String(auth.policy_hash.clone()));
    map.insert(
        "expires_at_unix".to_string(),
        serde_json::Value::Number(serde_json::Number::from(auth.expires_at_unix)),
    );
    map.insert(
        "authority_effect".to_string(),
        serde_json::Value::String(auth.authority_effect.clone()),
    );
    serde_json::to_vec(&serde_json::Value::Object(map)).unwrap()
}

#[test]
fn sha256_hex_matches_known_digests() {
    assert_eq!(
        sha256_hex(b""),
        "e3b0c44298fc1c149afbf4c8996fb92427ae41e4649b934ca495991b7852b855"
    );
    assert_eq!(
        sha256_hex(b"abc"),
        "ba7816bf8f01cfea414140de5dae2223b00361a396177a9cb410ff61f20015ad"
    );
}

#[test]
fn hex_encoding_is_lower_case_two_digits_per_byte() {
    assert_eq!(encode_hex_lower(&[]), "");
    assert_eq!(encode_hex_lower(&[0x00, 0x0a, 0x14, 0x1e, 0xab, 0xff]), "000a141eabff");
}

#[test]
fn same_text_compares_characters() {
    assert!(same_text("ev_123", "ev_123"));
    assert!(!same_text("ev_123", "ev_1234"));
    assert!(!same_text("ev_123", "ev_124"));
    assert!(same_text("", ""));
    assert!(same_text("é✓", "é✓"));
    assert!(!same_text("é", "e"));
}

#[test]
fn binding_is_the_compact_json_of_the_bound_fields() {
    let (_, auth) = seeded();
    let expected = format!(
        "{{\"permit_id\":\"permit_delete_123\",\"actor_id\":\"executor:keel-retention-v0\",\"action\":\"delete_evidence\",\"evidence_id\":\"ev_123\",\"evidence_hash\":\"{}\",\"policy_hash\":\"policy_hash_abc\",\"expires_at_unix\":1800000060,\"authority_effect\":\"none\"}}",
        auth.evidence_hash
    );
    assert_eq!(authorization_binding_json(&auth), expected.into_bytes());
    assert_eq!(authorization_binding_json(&auth), serde_binding(&auth));
}

#[test]
fn binding_escapes_strings_as_serde_json_does() {
    let (_, mut auth) = seeded();
    auth.permit_id = "quote\" back\\slash".to_string();
    auth.actor_id = "tab\t nl\n cr\r bs\u{8} ff\u{c}".to_string();
    auth.policy_hash = "ctl\u{1}\u{1f} del\u{7f} slash/".to_string();
    auth.evidence_id = "é ✓ 🦀".to_string();
    auth.expires_at_unix = 0;
    assert_eq!(authorization_binding_json(&auth), serde_binding(&auth));
    auth.expires_at_unix = u64::MAX;
    assert_eq!(authorization_binding_json(&auth), serde_binding(&auth));
}

#[test]
fn object_hash_is_sha256_of_binding() {
    let (_, auth) = seeded();
    let expected = sha256_hex(&authorization_binding_json(&auth));
    assert_eq!(authorization_object_hash(&auth), expected);
    assert_eq!(auth.object_hash.len(), 64);
}

#[test]
fn object_hash_changes_with_every_bound_field() {
    let (_, auth) = seeded();
    let base = authorization_object_hash(&auth);
    let mut variants = Vec::new();
    let mut a = auth.clone();
    a.permit_id.push('x');
    variants.push(a);
    let mut a = auth.clone();
    a.actor_id.push('x');
    variants.push(a);
    let mut a = auth.clone();
    a.action.push('x');
    variants.push(a);
    let mut a = auth.clone();
    a.evidence_id.push('x');
    variants.push(a);
    let mut a = auth.clone();
    a.evidence_hash.push('x');
    variants.push(a);
    let mut a = auth.clone();
    a.policy_hash.push('x');
    variants.push(a);
    let mut a = auth.clone();
    a.expires_at_unix += 1;
    variants.push(a);
    let mut a = auth.clone();
    a.authority_effect.push('x');
    variants.push(a);
    for v in &variants {
        assert_ne!(authorization_object_hash(v), base);
    }
    let mut a = auth.clone();
    a.object_hash = "anything".to_string();
    assert_eq!(authorization_object_hash(&a), base);
}

#[test]
fn error_codes_and_statuses() {
    assert_eq!(ErrorStatus::BadRequest.http_code(), 400);
    assert_eq!(ErrorStatus::Forbidden.http_code(), 403);
    assert_eq!(ErrorStatus::Conflict.http_code(), 409);
    assert_eq!(ErrorCode::ActionMismatch.as_str(), "action_mismatch");
    assert_eq!(ErrorCode::AuthorityExpansionDenied.as_str(), "authority_expansion_denied");
    assert_eq!(ErrorCode::EvidenceIdSubstitution.as_str(), "evidence_id_substitution");
    assert_eq!(ErrorCode::AuthorizationExpired.as_str(), "authorization_expired");
    assert_eq!(ErrorCode::PermitReplayDenied.as_str(), "permit_replay_denied");
    assert_eq!(
        ErrorCode::AuthorizationObjectHashMismatch.as_str(),
        "authorization_object_hash_mismatch"
    );
    assert_eq!(ErrorCode::EvidenceNotPresent.as_str(), "evidence_not_present");
    assert_eq!(ErrorCode::EvidenceHashMismatch.as_str(), "evidence_hash_mismatch");
    assert_eq!(
        ErrorCode::EvidenceHashChangedDuringDelete.as_str(),
        "evidence_hash_changed_during_delete"
    );
    assert_eq!(
        ApiError::bad_request(ErrorCode::ActionMismatch),
        ApiError { status: ErrorStatus::BadRequest, code: ErrorCode::ActionMismatch }
    );
    assert_eq!(ApiError::forbidden(ErrorCode::AuthorizationExpired).status, ErrorStatus::Forbidden);
    assert_eq!(ApiError::conflict(ErrorCode::PermitReplayDenied).status, ErrorStatus::Conflict);
}

fn refusal_of(state: &AppState, path: &str, auth: &DeletionAuthorization) -> Option<ApiError> {
    validate(path, auth, NOW, state).err()
}

#[test]
fn action_mismatch_is_bad_request() {
    let (state, mut auth) = seeded();
    auth.action = "read_evidence".to_string();
    auth.object_hash = authorization_object_hash(&auth);
    assert_eq!(refusal_of(&state, "ev_123", &auth), Some(ApiError::bad_request(ErrorCode::ActionMismatch)));
}

#[test]
fn refusals_come_in_the_documented_order() {
    let (state, mut auth) = seeded();
    // Several faults at once: the earliest check decides.
    auth.action = "other".to_string();
    auth.authority_effect = "expand".to_string();
    auth.expires_at_unix = 0;
    assert_eq!(
        screen_authorization(&state, "ev_attacker", &auth, NOW),
        Some(ApiError::bad_request(ErrorCode::ActionMismatch))
    );
    auth.action = "delete_evidence".to_string();
    assert_eq!(
        screen_authorization(&state, "ev_attacker", &auth, NOW),
        Some(ApiError::forbidden(ErrorCode::AuthorityExpansionDenied))
    );
    auth.authority_effect = "none".to_string();
    assert_eq!(
        screen_authorization(&state, "ev_attacker", &auth, NOW),
        Some(ApiError::conflict(ErrorCode::EvidenceIdSubstitution))
    );
    assert_eq!(
        screen_authorization(&state, "ev_123", &auth, NOW),
        Some(ApiError::forbidden(ErrorCode::AuthorizationExpired))
    );
    auth.expires_at_unix = NOW;
    assert_eq!(screen_authorization(&state, "ev_123", &auth, NOW), None);
}

#[test]
fn expiry_is_inclusive_of_the_expiry_second() {
    let (state, mut auth) = seeded();
    auth.expires_at_unix = NOW;
    auth.object_hash = authorization_object_hash(&auth);
    assert!(validate("ev_123", &auth, NOW, &state).is_ok());
    assert_eq!(
        refusal_of(&state, "ev_123", &auth).is_none(),
        true
    );
    assert_eq!(
        validate("ev_123", &auth, NOW + 1, &state).err(),
        Some(ApiError::forbidden(ErrorCode::AuthorizationExpired))
    );
}

#[test]
fn digest_checks_in_order() {
    let (_, auth) = seeded();
    let object = auth.object_hash.clone();
    let evidence = auth.evidence_hash.clone();
    assert_eq!(check_digests(&auth, &object, Some(&evidence)), None);
    assert_eq!(
        check_digests(&auth, "0000", Some(&evidence)),
        Some(ApiError::conflict(ErrorCode::AuthorizationObjectHashMismatch))
    );
    assert_eq!(
        check_digests(&auth, &object, None),
        Some(ApiError::conflict(ErrorCode::EvidenceNotPresent))
    );
    assert_eq!(
        check_digests(&auth, &object, Some("ffff")),
        Some(ApiError::conflict(ErrorCode::EvidenceHashMismatch))
    );
    assert_eq!(
        check_digests(&auth, "0000", None),
        Some(ApiError::conflict(ErrorCode::AuthorizationObjectHashMismatch))
    );
}

#[test]
fn validate_returns_the_exact_evidence_bytes() {
    let (state, auth) = seeded();
    let bytes = validate("ev_123", &auth, NOW, &state).unwrap();
    assert_eq!(bytes, b"sensitive-evidence-v0");
}

#[test]
fn missing_evidence_is_refused() {
    let (_, auth) = seeded();
    let state = AppState::new();
    assert_eq!(refusal_of(&state, "ev_123", &auth), Some(ApiError::conflict(ErrorCode::EvidenceNotPresent)));
}

#[test]
fn replaced_evidence_bytes_are_refused() {
    let (mut state, auth) = seeded();
    state.seed_evidence("ev_123", b"other-bytes".to_vec());
    assert_eq!(refusal_of(&state, "ev_123", &auth), Some(ApiError::conflict(ErrorCode::EvidenceHashMismatch)));
}

#[test]
fn object_hash_substitution_is_refused_with_its_code() {
    let (state, mut auth) = seeded();
    auth.policy_hash = "policy_hash_other".to_string();
    assert_eq!(
        refusal_of(&state, "ev_123", &auth),
        Some(ApiError::conflict(ErrorCode::AuthorizationObjectHashMismatch))
    );
}

#[test]
fn manifest_binds_event_hashes_into_root() {
    let (mut state, auth) = seeded();
    let m = delete_evidence(&mut state, "ev_123".to_string(), req(&auth), NOW).unwrap();
    let requested = format!(
        "DeletionRequested|{}|{}|{}|{}",
        auth.permit_id, "ev_123", auth.evidence_hash, auth.object_hash
    );
    let executed = format!(
        "DeletionExecuted|{}|{}|{}|{}",
        auth.permit_id, "ev_123", auth.evidence_hash, auth.object_hash
    );
    assert_eq!(m.deletion_requested_hash, sha256_hex(requested.as_bytes()));
    assert_eq!(m.deletion_executed_hash, sha256_hex(executed.as_bytes()));
    let root = sha256_hex(format!("{}{}", m.deletion_requested_hash, m.deletion_executed_hash).as_bytes());
    assert_eq!(m.merkle_root, root);
    assert_eq!(m.manifest_id, format!("mnf_{}", &root[..16]));
    assert_eq!(m.permit_id, auth.permit_id);
    assert_eq!(m.evidence_id, "ev_123");
    assert_eq!(m.evidence_hash, auth.evidence_hash);
    assert_eq!(m.policy_hash, auth.policy_hash);
    assert_eq!(m.authorization_object_hash, auth.object_hash);
}

#[test]
fn refused_deletion_changes_nothing_and_other_evidence_survives() {
    let (mut state, auth) = seeded();
    state.seed_evidence("ev_other", b"keep-me".to_vec());
    let mut wrong = auth.clone();
    wrong.expires_at_unix = 1;
    wrong.object_hash = authorization_object_hash(&wrong);
    assert!(delete_evidence(&mut state, "ev_123".to_string(), req(&wrong), NOW).is_err());
    assert!(state.contains_evidence("ev_123"));
    assert!(!state.is_spent(&auth.permit_id));
    // The exact authorization still works afterwards, and only removes its own object.
    assert!(delete_evidence(&mut state, "ev_123".to_string(), req(&auth), NOW).is_ok());
    assert!(!state.contains_evidence("ev_123"));
    assert!(state.contains_evidence("ev_other"));
    assert_eq!(state.evidence_bytes("ev_other"), Some(&b"keep-me"[..]));
    assert!(state.is_spent(&auth.permit_id));
}

#[test]
fn replay_is_refused_as_permit_replay() {
    let (mut state, auth) = seeded();
    assert!(delete_evidence(&mut state, "ev_123".to_string(), req(&auth), NOW).is_ok());
    state.seed_evidence("ev_123", b"sensitive-evidence-v0".to_vec());
    assert_eq!(
        check_deletion(&state, "ev_123".to_string(), req(&auth), NOW).err(),
        Some(ApiError::conflict(ErrorCode::PermitReplayDenied))
    );
    assert_eq!(
        delete_evidence(&mut state, "ev_123".to_string(), req(&auth), NOW).err(),
        Some(ApiError::conflict(ErrorCode::PermitReplayDenied))
    );
}

#[test]
fn check_agrees_with_delete() {
    let (state, auth) = seeded();
    let check = check_deletion(&state, "ev_123".to_string(), req(&auth), NOW).unwrap();
    assert_eq!(check.evidence_id, "ev_123");
    assert_eq!(check.permit_id, auth.permit_id);
    assert_eq!(check.authorization_object_hash, auth.object_hash);
    assert_eq!(check.authority_effect, "none");
    let check_err = check_deletion(&state, "ev_x".to_string(), req(&auth), NOW).err();
    let (mut state2, _) = seeded();
    let delete_err = delete_evidence(&mut state2, "ev_x".to_string(), req(&auth), NOW).err();
    assert_eq!(check_err, delete_err);
    assert_eq!(check_err, Some(ApiError::conflict(ErrorCode::EvidenceIdSubstitution)));
}

#[test]
fn seeding_holds_and_replaces_bytes() {
    let mut state = AppState::new();
    assert!(!state.contains_evidence("a"));
    state.seed_evidence("a", vec![1, 2, 3]);
    assert!(state.contains_evidence("a"));
    assert_eq!(state.evidence_bytes("a"), Some(&[1u8, 2, 3][..]));
    state.seed_evidence("a", vec![9]);
    assert_eq!(state.evidence_bytes("a"), Some(&[9u8][..]));
    state.seed_evidence("b", vec![]);
    assert!(state.contains_evidence("b"));
    assert_eq!(state.evidence_bytes("a"), Some(&[9u8][..]));
    assert_eq!(state.evidence_bytes("c"), None);
}
