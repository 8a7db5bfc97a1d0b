use vstd::prelude::*;

use crate::authorization::DeletionAuthorization;
use crate::binding::spec_authorization_object_hash;
use crate::digest::{sha256_digest, spec_sha256_hex};
use crate::errors::{ApiError, ErrorCode, ErrorStatus};
use crate::hex::lemma_hex_lower_injective;
use crate::text::lemma_same_text_iff_same_bytes;
use vstd::utf8::encode_utf8;
use crate::executor::{after_deletion, event_hash, event_text, refusal, screening};
use crate::state::RetentionState;

verus! {

/// An operation on the executor's state, as `AppState::seed_evidence` and
/// `delete_evidence` perform it.
pub enum Operation {
    Seed { evidence_id: Seq<char>, bytes: Seq<u8> },
    Delete { path_id: Seq<char>, auth: DeletionAuthorization, now_unix: u64 },
}

/// The state after one operation: seeding holds the bytes; a deletion changes the state
/// exactly when it is authorized.
pub open spec fn apply(state: RetentionState, op: Operation) -> RetentionState {
    match op {
        Operation::Seed { evidence_id, bytes } => RetentionState {
            evidence: state.evidence.insert(evidence_id, bytes),
            spent_permits: state.spent_permits,
        },
        Operation::Delete { path_id, auth, now_unix } => {
            if refusal(state, path_id, auth, now_unix) is None {
                after_deletion(state, path_id, auth)
            } else {
                state
            }
        },
    }
}

/// The state after a sequence of operations, first to last.
pub open spec fn run(state: RetentionState, ops: Seq<Operation>) -> RetentionState
    decreases ops.len(),
{
    if ops.len() == 0 {
        state
    } else {
        apply(run(state, ops.drop_last()), ops.last())
    }
}

/// No operation ever forgets a spent permit.
pub proof fn law_spent_permits_only_grow(state: RetentionState, ops: Seq<Operation>)
    ensures
        state.spent_permits.subset_of(run(state, ops).spent_permits),
    decreases ops.len(),
{
    if ops.len() > 0 {
        law_spent_permits_only_grow(state, ops.drop_last());
    }
}

/// A request whose permit is already spent is refused before any digest is computed,
/// whatever else it says.
pub proof fn law_spent_permit_is_refused(
    state: RetentionState,
    path_id: Seq<char>,
    auth: DeletionAuthorization,
    now_unix: u64,
)
    requires
        state.spent_permits.contains(auth.permit_id@),
    ensures
        screening(state.spent_permits, path_id, auth, now_unix) is Some,
        refusal(state, path_id, auth, now_unix) == screening(state.spent_permits, path_id, auth, now_unix),
{
}

/// Once a permit has executed a deletion, no later request carrying the same permit
/// identifier deletes anything, whatever was seeded or deleted in between.
pub proof fn law_no_second_deletion_with_a_permit(
    state: RetentionState,
    path_id: Seq<char>,
    auth: DeletionAuthorization,
    now_unix: u64,
    later: Seq<Operation>,
    replay_path_id: Seq<char>,
    replay: DeletionAuthorization,
    replay_now_unix: u64,
)
    requires
        refusal(state, path_id, auth, now_unix) is None,
        replay.permit_id@ == auth.permit_id@,
    ensures
        refusal(run(after_deletion(state, path_id, auth), later), replay_path_id, replay, replay_now_unix)
            is Some,
{
    let after = after_deletion(state, path_id, auth);
    assert(after.spent_permits.contains(auth.permit_id@));
    law_spent_permits_only_grow(after, later);
    law_spent_permit_is_refused(run(after, later), replay_path_id, replay, replay_now_unix);
}

/// An authorized deletion governs exactly the request it was issued for: the action is
/// the deletion of evidence, it claims no authority, it names the path's evidence, it has
/// not expired, its permit is unspent, its object hash is the hash of its canonical
/// binding, and the held evidence has exactly the hash it names.
pub proof fn law_authorized_deletion_is_exact(
    state: RetentionState,
    path_id: Seq<char>,
    auth: DeletionAuthorization,
    now_unix: u64,
)
    requires
        refusal(state, path_id, auth, now_unix) is None,
    ensures
        auth.action@ == "delete_evidence"@,
        auth.authority_effect@ == "none"@,
        path_id == auth.evidence_id@,
        now_unix <= auth.expires_at_unix,
        !state.spent_permits.contains(auth.permit_id@),
        auth.object_hash@ == spec_authorization_object_hash(auth),
        state.evidence.contains_key(path_id),
        spec_sha256_hex(state.evidence[path_id]) == auth.evidence_hash@,
{
}

/// An authorized deletion removes the governed evidence object and no other one, and
/// spends exactly its permit.
pub proof fn law_deletion_removes_only_the_governed_object(
    state: RetentionState,
    path_id: Seq<char>,
    auth: DeletionAuthorization,
    other_id: Seq<char>,
)
    requires
        other_id != path_id,
    ensures
        !after_deletion(state, path_id, auth).evidence.contains_key(path_id),
        after_deletion(state, path_id, auth).evidence.contains_key(other_id)
            == state.evidence.contains_key(other_id),
        state.evidence.contains_key(other_id) ==> after_deletion(state, path_id, auth).evidence[other_id]
            == state.evidence[other_id],
        after_deletion(state, path_id, auth).spent_permits == state.spent_permits.insert(auth.permit_id@),
{
}

/// A refused deletion leaves every evidence object and every permit as it was.
pub proof fn law_refused_deletion_preserves_evidence(
    state: RetentionState,
    path_id: Seq<char>,
    auth: DeletionAuthorization,
    now_unix: u64,
)
    requires
        refusal(state, path_id, auth, now_unix) is Some,
    ensures
        apply(state, Operation::Delete { path_id, auth, now_unix }) == state,
{
}

/// Seeded evidence is held, byte for byte, until something deletes it.
pub proof fn law_seeded_evidence_is_held(state: RetentionState, evidence_id: Seq<char>, bytes: Seq<u8>)
    ensures
        apply(state, Operation::Seed { evidence_id, bytes }).evidence.contains_key(evidence_id),
        apply(state, Operation::Seed { evidence_id, bytes }).evidence[evidence_id] == bytes,
{
}

/// A request that is exact in every respect is authorized: the action is the deletion
/// of evidence, it claims no authority, it names the path's evidence, the time has not
/// passed its expiry, its very permit identifier is unspent, its object hash is the hash
/// of its canonical binding, and the held evidence hashes to the hash it names.
pub proof fn law_exact_authorization_is_accepted(
    state: RetentionState,
    path_id: Seq<char>,
    auth: DeletionAuthorization,
    now_unix: u64,
)
    requires
        auth.action@ == "delete_evidence"@,
        auth.authority_effect@ == "none"@,
        path_id == auth.evidence_id@,
        now_unix <= auth.expires_at_unix,
        !state.spent_permits.contains(auth.permit_id@),
        auth.object_hash@ == spec_authorization_object_hash(auth),
        state.evidence.contains_key(path_id),
        spec_sha256_hex(state.evidence[path_id]) == auth.evidence_hash@,
    ensures
        refusal(state, path_id, auth, now_unix) is None,
{
}

/// A request is refused as a replay only when its own permit identifier is spent.
pub proof fn law_replay_refusal_means_the_permit_is_spent(
    state: RetentionState,
    path_id: Seq<char>,
    auth: DeletionAuthorization,
    now_unix: u64,
)
    requires
        refusal(state, path_id, auth, now_unix) == Some(
            ApiError { status: ErrorStatus::Conflict, code: ErrorCode::PermitReplayDenied },
        ),
    ensures
        state.spent_permits.contains(auth.permit_id@),
{
}

/// A request is refused as expired only when the time is past its expiry.
pub proof fn law_expiry_refusal_means_the_time_has_passed(
    state: RetentionState,
    path_id: Seq<char>,
    auth: DeletionAuthorization,
    now_unix: u64,
)
    requires
        refusal(state, path_id, auth, now_unix) == Some(
            ApiError { status: ErrorStatus::Forbidden, code: ErrorCode::AuthorizationExpired },
        ),
    ensures
        now_unix > auth.expires_at_unix,
{
}

/// A custody event's text holds each of its five fields whole, at its own place, with a
/// single separator between neighbours and nothing else.
pub proof fn law_event_text_holds_every_field(
    kind: Seq<char>,
    permit_id: Seq<char>,
    evidence_id: Seq<char>,
    evidence_hash: Seq<char>,
    object_hash: Seq<char>,
)
    ensures
        event_text(kind, permit_id, evidence_id, evidence_hash, object_hash).len() == kind.len()
            + permit_id.len() + evidence_id.len() + evidence_hash.len() + object_hash.len() + 4,
        event_text(kind, permit_id, evidence_id, evidence_hash, object_hash).subrange(
            0,
            kind.len() as int,
        ) == kind,
        event_text(kind, permit_id, evidence_id, evidence_hash, object_hash)[kind.len() as int] == '|',
        event_text(kind, permit_id, evidence_id, evidence_hash, object_hash).subrange(
            kind.len() as int + 1,
            kind.len() as int + 1 + permit_id.len(),
        ) == permit_id,
        event_text(kind, permit_id, evidence_id, evidence_hash, object_hash).subrange(
            kind.len() as int + permit_id.len() + 2,
            kind.len() as int + permit_id.len() + 2 + evidence_id.len(),
        ) == evidence_id,
        event_text(kind, permit_id, evidence_id, evidence_hash, object_hash).subrange(
            kind.len() as int + permit_id.len() + evidence_id.len() + 3,
            kind.len() as int + permit_id.len() + evidence_id.len() + 3 + evidence_hash.len(),
        ) == evidence_hash,
        event_text(kind, permit_id, evidence_id, evidence_hash, object_hash).subrange(
            kind.len() as int + permit_id.len() + evidence_id.len() + evidence_hash.len() + 4,
            kind.len() as int + permit_id.len() + evidence_id.len() + evidence_hash.len() + 4
                + object_hash.len(),
        ) == object_hash,
{
    reveal_strlit("|");
    let t = event_text(kind, permit_id, evidence_id, evidence_hash, object_hash);
    let bar = "|"@;
    assert(t =~= kind + bar + permit_id + bar + evidence_id + bar + evidence_hash + bar + object_hash);
    assert(t.subrange(0, kind.len() as int) =~= kind);
    assert(t.subrange(kind.len() as int + 1, kind.len() as int + 1 + permit_id.len()) =~= permit_id);
    assert(t.subrange(
        kind.len() as int + permit_id.len() + 2,
        kind.len() as int + permit_id.len() + 2 + evidence_id.len(),
    ) =~= evidence_id);
    assert(t.subrange(
        kind.len() as int + permit_id.len() + evidence_id.len() + 3,
        kind.len() as int + permit_id.len() + evidence_id.len() + 3 + evidence_hash.len(),
    ) =~= evidence_hash);
    assert(t.subrange(
        kind.len() as int + permit_id.len() + evidence_id.len() + evidence_hash.len() + 4,
        kind.len() as int + permit_id.len() + evidence_id.len() + evidence_hash.len() + 4 + object_hash.len(),
    ) =~= object_hash);
}

/// Deletions of two different evidence objects under the same authorization fields have
/// different custody-event texts, and so the same event hash only if SHA-256 maps two
/// different byte sequences to the same digest.
pub proof fn law_distinct_evidence_ids_give_distinct_events(
    kind: Seq<char>,
    first_id: Seq<char>,
    second_id: Seq<char>,
    auth: DeletionAuthorization,
)
    requires
        first_id != second_id,
    ensures
        event_text(kind, auth.permit_id@, first_id, auth.evidence_hash@, auth.object_hash@)
            != event_text(kind, auth.permit_id@, second_id, auth.evidence_hash@, auth.object_hash@),
        event_hash(kind, first_id, auth) == event_hash(kind, second_id, auth) ==> {
            let first = encode_utf8(
                event_text(kind, auth.permit_id@, first_id, auth.evidence_hash@, auth.object_hash@),
            );
            let second = encode_utf8(
                event_text(kind, auth.permit_id@, second_id, auth.evidence_hash@, auth.object_hash@),
            );
            first != second && sha256_digest(first) == sha256_digest(second)
        },
{
    let p = auth.permit_id@;
    let h = auth.evidence_hash@;
    let o = auth.object_hash@;
    let t1 = event_text(kind, p, first_id, h, o);
    let t2 = event_text(kind, p, second_id, h, o);
    law_event_text_holds_every_field(kind, p, first_id, h, o);
    law_event_text_holds_every_field(kind, p, second_id, h, o);
    if t1 == t2 {
        assert(first_id.len() == second_id.len());
        assert(first_id == second_id);
    }
    lemma_same_text_iff_same_bytes(t1, t2);
    if event_hash(kind, first_id, auth) == event_hash(kind, second_id, auth) {
        lemma_hex_lower_injective(sha256_digest(encode_utf8(t1)), sha256_digest(encode_utf8(t2)));
    }
}

} // verus!
