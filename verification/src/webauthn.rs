//! The WebAuthn assertion verification engine: authenticator-data parsing,
//! client-data validation, and signature verification.

pub mod authenticator;
pub mod client_data;
pub mod verify;
