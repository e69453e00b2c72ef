//! Error taxonomy of the verification core.
//!
//! Every failure path of the library surfaces as one of these variants, so a
//! caller can map each condition to a distinct outward status.

use vstd::prelude::*;

verus! {

/// A typed failure of challenge issuance, storage, or assertion verification.
#[derive(Debug)]
pub enum Error {
    /// The account identifier is not a well-formed contract address.
    InvalidContractId(String),
    /// No challenge is stored under the requested key (absent or consumed).
    ChallengeNotFound,
    /// The challenge exists but its time-to-live has elapsed.
    ChallengeExpired,
    /// The storage backend failed.
    Storage(String),
    /// The authenticator data bytes are malformed.
    InvalidAuthenticatorData(String),
    /// The client-data JSON is malformed or fails its semantic checks.
    InvalidClientData(String),
    /// The relying-party hash in the authenticator data does not match.
    RpIdMismatch,
    /// The user-present flag is not set in the authenticator data.
    UserNotPresent,
    /// The challenge in the client data differs from the expected one.
    ChallengeMismatch,
    /// The origin in the client data differs from the expected one.
    OriginMismatch { expected: String, actual: String },
    /// The signature is malformed or does not verify.
    InvalidSignature(String),
    /// The public key bytes are not a valid encoding.
    InvalidPublicKey(String),
    /// A base64url field could not be decoded.
    Base64Decode(String),
}

impl Error {
    /// The human-readable description of the error.
    pub open spec fn message_spec(self) -> Seq<char> {
        match self {
            Error::InvalidContractId(m) => "invalid contract ID: "@ + m@,
            Error::ChallengeNotFound => "challenge not found"@,
            Error::ChallengeExpired => "challenge expired"@,
            Error::Storage(m) => "storage error: "@ + m@,
            Error::InvalidAuthenticatorData(m) => "invalid authenticator data: "@ + m@,
            Error::InvalidClientData(m) => "invalid client data: "@ + m@,
            Error::RpIdMismatch => "RP ID mismatch"@,
            Error::UserNotPresent => "user presence flag not set"@,
            Error::ChallengeMismatch => "challenge mismatch"@,
            Error::OriginMismatch { expected, actual } => "origin mismatch: expected "@
                + expected@ + ", got "@ + actual@,
            Error::InvalidSignature(m) => "invalid signature: "@ + m@,
            Error::InvalidPublicKey(m) => "invalid public key: "@ + m@,
            Error::Base64Decode(m) => "base64 decode error: "@ + m@,
        }
    }

    /// Renders the error as text.
    pub fn message(&self) -> (r: String)
        ensures
            r@ == self.message_spec(),
    {
        match self {
            Error::InvalidContractId(m) => {
                let mut s = String::from_str("invalid contract ID: ");
                s.append(m.as_str());
                s
            },
            Error::ChallengeNotFound => String::from_str("challenge not found"),
            Error::ChallengeExpired => String::from_str("challenge expired"),
            Error::Storage(m) => {
                let mut s = String::from_str("storage error: ");
                s.append(m.as_str());
                s
            },
            Error::InvalidAuthenticatorData(m) => {
                let mut s = String::from_str("invalid authenticator data: ");
                s.append(m.as_str());
                s
            },
            Error::InvalidClientData(m) => {
                let mut s = String::from_str("invalid client data: ");
                s.append(m.as_str());
                s
            },
            Error::RpIdMismatch => String::from_str("RP ID mismatch"),
            Error::UserNotPresent => String::from_str("user presence flag not set"),
            Error::ChallengeMismatch => String::from_str("challenge mismatch"),
            Error::OriginMismatch { expected, actual } => {
                let mut s = String::from_str("origin mismatch: expected ");
                s.append(expected.as_str());
                s.append(", got ");
                s.append(actual.as_str());
                s
            },
            Error::InvalidSignature(m) => {
                let mut s = String::from_str("invalid signature: ");
                s.append(m.as_str());
                s
            },
            Error::InvalidPublicKey(m) => {
                let mut s = String::from_str("invalid public key: ");
                s.append(m.as_str());
                s
            },
            Error::Base64Decode(m) => {
                let mut s = String::from_str("base64 decode error: ");
                s.append(m.as_str());
                s
            },
        }
    }

    /// The HTTP status class each error maps to at the serving boundary:
    /// bad input 400, missing challenge 404, expired challenge 410,
    /// storage faults 500, every verification failure 401.
    pub open spec fn http_status_spec(self) -> u16 {
        match self {
            Error::InvalidContractId(_) => 400u16,
            Error::ChallengeNotFound => 404u16,
            Error::ChallengeExpired => 410u16,
            Error::Storage(_) => 500u16,
            _ => 401u16,
        }
    }

    /// Maps the error to its outward HTTP status code.
    pub fn http_status(&self) -> (r: u16)
        ensures
            r == self.http_status_spec(),
    {
        match self {
            Error::InvalidContractId(_) => 400,
            Error::ChallengeNotFound => 404,
            Error::ChallengeExpired => 410,
            Error::Storage(_) => 500,
            _ => 401,
        }
    }
}

} // verus!
