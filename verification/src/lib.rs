//! Verified models of the StellAIverse Soroban contracts.
//!
//! Each contract's persistent storage is held in a plain Rust struct and each
//! contract entry point is a method on it.  A failing entry point returns an
//! error and leaves the storage untouched, exactly as a reverted Soroban
//! invocation does.  Authentication (`require_auth`), ledger time, events and
//! cross-contract calls belong to the host: the caller hands the library the
//! authenticated caller address, the ledger timestamp, and the results of
//! cross-contract queries.
pub mod types;
pub mod validation;
pub mod admin;
pub mod atomic;
pub mod agent_nft;
pub mod execution_hub;
pub mod payments;
pub mod encoding;
pub mod identity_did;
pub mod credentials;
pub mod agent_token;
pub mod metrics;
pub mod prediction_market;
pub mod threshold_agent;
pub mod lifecycle;
pub mod market_rules;
pub mod proxy;
pub mod amm_storage;
