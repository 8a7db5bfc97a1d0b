use vstd::prelude::*;

verus! {

/// The HTTP status class of a refusal.
#[derive(Clone, Copy, Debug, PartialEq, Eq, Structural)]
pub enum ErrorStatus {
    BadRequest,
    Forbidden,
    Conflict,
}

impl ErrorStatus {
    pub open spec fn spec_code(self) -> u16 {
        match self {
            ErrorStatus::BadRequest => 400,
            ErrorStatus::Forbidden => 403,
            ErrorStatus::Conflict => 409,
        }
    }

    /// The numeric HTTP status code.
    pub fn http_code(&self) -> (c: u16)
        ensures
            c == self.spec_code(),
    {
        match self {
            ErrorStatus::BadRequest => 400,
            ErrorStatus::Forbidden => 403,
            ErrorStatus::Conflict => 409,
        }
    }
}

/// Why a request was refused.
#[derive(Clone, Copy, Debug, PartialEq, Eq, Structural)]
pub enum ErrorCode {
    ActionMismatch,
    AuthorityExpansionDenied,
    EvidenceIdSubstitution,
    AuthorizationExpired,
    PermitReplayDenied,
    AuthorizationObjectHashMismatch,
    EvidenceNotPresent,
    EvidenceHashMismatch,
    EvidenceHashChangedDuringDelete,
}

impl ErrorCode {
    /// The machine-readable code sent in an error body.
    pub open spec fn text(self) -> Seq<char> {
        match self {
            ErrorCode::ActionMismatch => "action_mismatch"@,
            ErrorCode::AuthorityExpansionDenied => "authority_expansion_denied"@,
            ErrorCode::EvidenceIdSubstitution => "evidence_id_substitution"@,
            ErrorCode::AuthorizationExpired => "authorization_expired"@,
            ErrorCode::PermitReplayDenied => "permit_replay_denied"@,
            ErrorCode::AuthorizationObjectHashMismatch => "authorization_object_hash_mismatch"@,
            ErrorCode::EvidenceNotPresent => "evidence_not_present"@,
            ErrorCode::EvidenceHashMismatch => "evidence_hash_mismatch"@,
            ErrorCode::EvidenceHashChangedDuringDelete => "evidence_hash_changed_during_delete"@,
        }
    }

    /// The machine-readable code sent in an error body.
    pub fn as_str(&self) -> (s: &'static str)
        ensures
            s@ == self.text(),
    {
        match self {
            ErrorCode::ActionMismatch => "action_mismatch",
            ErrorCode::AuthorityExpansionDenied => "authority_expansion_denied",
            ErrorCode::EvidenceIdSubstitution => "evidence_id_substitution",
            ErrorCode::AuthorizationExpired => "authorization_expired",
            ErrorCode::PermitReplayDenied => "permit_replay_denied",
            ErrorCode::AuthorizationObjectHashMismatch => "authorization_object_hash_mismatch",
            ErrorCode::EvidenceNotPresent => "evidence_not_present",
            ErrorCode::EvidenceHashMismatch => "evidence_hash_mismatch",
            ErrorCode::EvidenceHashChangedDuringDelete => "evidence_hash_changed_during_delete",
        }
    }
}

/// A refusal: its status and its code. Every refusal carries no authority.
#[derive(Clone, Copy, Debug, PartialEq, Eq, Structural)]
pub struct ApiError {
    pub status: ErrorStatus,
    pub code: ErrorCode,
}

impl ApiError {
    /// A refusal with status 400.
    pub fn bad_request(code: ErrorCode) -> (e: Self)
        ensures
            e == (ApiError { status: ErrorStatus::BadRequest, code }),
    {
        ApiError { status: ErrorStatus::BadRequest, code }
    }

    /// A refusal with status 403.
    pub fn forbidden(code: ErrorCode) -> (e: Self)
        ensures
            e == (ApiError { status: ErrorStatus::Forbidden, code }),
    {
        ApiError { status: ErrorStatus::Forbidden, code }
    }

    /// A refusal with status 409.
    pub fn conflict(code: ErrorCode) -> (e: Self)
        ensures
            e == (ApiError { status: ErrorStatus::Conflict, code }),
    {
        ApiError { status: ErrorStatus::Conflict, code }
    }
}

} // verus!
