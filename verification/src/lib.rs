//! Verified decision logic of the NazoAuth PostgreSQL persistence layer.

pub mod encoding;
pub mod error;
pub mod text;
pub mod digest;
pub mod controller_registry;
pub mod entropy;
pub mod time;
pub mod conformance_leases;
pub mod audit_ledger;
pub mod mfa;
pub mod initial_admin_bootstrap;
pub mod runtime_modules;
pub mod clients;
pub mod access_requests;
pub mod pool;
pub mod credential_crypto;
pub mod issuance;
pub mod presentation;
pub mod mtls;
pub mod tokens;
pub mod scim;
pub mod grants;
