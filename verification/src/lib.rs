//! Retention executor core: validates an already-issued deletion authorization
//! against held evidence and produces a non-reconciled deletion manifest.

pub mod authorization;
pub mod binding;
pub mod binding_laws;
pub mod digest;
pub mod errors;
pub mod executor;
pub mod hex;
pub mod laws;
pub mod state;
pub mod store;
pub mod text;

pub use authorization::{DeletionAuthorization, DeletionRequest};
pub use binding::{authorization_binding_json, authorization_object_hash};
pub use digest::sha256_hex;
pub use hex::encode_hex_lower;
pub use text::same_text;
pub use errors::{ApiError, ErrorCode, ErrorStatus};
pub use state::AppState;
pub use executor::{
    check_deletion, check_digests, delete_evidence, screen_authorization, validate, DeletionManifest,
    RetentionCheck,
};
