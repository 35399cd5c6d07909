//! A minimal token-issuance authority: it owns one mint and dispenses newly
//! created tokens under a single program-controlled signing identity, derived
//! deterministically from a fixed seed with no stored secret key.

pub mod address;
pub mod error;
pub mod state;
pub mod derivation;
pub mod faucet;
