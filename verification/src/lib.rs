//! An attestation registry: schemas are registered once, attestations are
//! issued under a schema, revoked by their issuer, and evaluated against the
//! current logical time.

pub mod contract;
pub mod ident;
pub mod laws;
pub mod rules;
pub mod state;
pub mod table;
pub mod types;

pub use contract::EasContract;
pub use types::{
    Attestation, AttesterMode, Error, Event, Invocation, Principal, PrincipalKind, Schema,
    VerifyResult, MODE_ISSUER_ONLY, MODE_PERMISSIONLESS,
};
