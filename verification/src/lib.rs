//! Verification core for passkey (WebAuthn) authentication of blockchain
//! accounts: assertion parsing and validation, P-256 ECDSA signature checks,
//! and a single-use, expiring challenge lifecycle.

pub mod base64url;
pub mod challenge;
pub mod contract_id;
pub mod crypto;
pub mod error;
pub mod json;
pub mod onchain;
pub mod rp;
pub mod server;
pub mod storage;
pub mod sys;
pub mod text;
pub mod webauthn;
