//! Single-use challenges bound to an account: random generation, the
//! deterministic storage key, and time-to-live expiry.

use vstd::prelude::*;

use crate::base64url::b64url_decode;
use crate::base64url::b64url_decoded;
use crate::base64url::b64url_encode;
use crate::base64url::b64url_of;
use crate::error::Error;
use crate::sys::secure_random_bytes;
use crate::sys::unix_time_now;

verus! {

/// Challenge time-to-live, in seconds (5 minutes).
pub const CHALLENGE_TTL_SECS: u64 = 300;

/// The storage key a challenge record lives under:
/// `challenge:<contract_id>:<challenge_id>`.
pub open spec fn storage_key_chars(contract_id: Seq<char>, challenge_id: Seq<char>) -> Seq<char> {
    "challenge:"@ + contract_id + ":"@ + challenge_id
}

/// A WebAuthn challenge with the metadata needed to store and validate it.
#[derive(Debug)]
pub struct Challenge {
    /// The raw 32-byte challenge, base64url-encoded.
    pub challenge: String,
    /// Unique identifier for this challenge, base64url-encoded.
    pub challenge_id: String,
    /// The contract ID this challenge is bound to.
    pub contract_id: String,
    /// Unix timestamp when the challenge was created.
    pub created_at: u64,
}

impl Clone for Challenge {
    /// Copies the record, field for field.
    fn clone(&self) -> (r: Self)
        ensures
            r == *self,
    {
        Challenge {
            challenge: self.challenge.clone(),
            challenge_id: self.challenge_id.clone(),
            contract_id: self.contract_id.clone(),
            created_at: self.created_at,
        }
    }
}

impl Challenge {
    /// Whether the challenge is expired as of `now`: more than the
    /// time-to-live has passed since its creation.
    pub open spec fn is_expired_at_spec(self, now: u64) -> bool {
        now - self.created_at > CHALLENGE_TTL_SECS
    }

    /// The storage key for this challenge.
    pub open spec fn storage_key_spec(self) -> Seq<char> {
        storage_key_chars(self.contract_id@, self.challenge_id@)
    }

    /// Generates a new random challenge for the given contract ID: 32
    /// challenge bytes and a 16-byte id, each drawn independently from the
    /// secure random source, stamped with the current time.
    pub fn new(contract_id: &str) -> (r: Challenge)
        ensures
            r.contract_id@ == contract_id@,
            exists|b: Seq<u8>| b.len() == 32 && r.challenge@ == #[trigger] b64url_of(b),
            exists|b: Seq<u8>| b.len() == 16 && r.challenge_id@ == #[trigger] b64url_of(b),
            b64url_decoded(r.challenge@) matches Some(b) && b.len() == 32,
            b64url_decoded(r.challenge_id@) matches Some(b) && b.len() == 16,
    {
        let challenge_bytes = secure_random_bytes(32);
        let id_bytes = secure_random_bytes(16);
        let now = unix_time_now();

        let r = Challenge {
            challenge: b64url_encode(challenge_bytes.as_slice()),
            challenge_id: b64url_encode(id_bytes.as_slice()),
            contract_id: String::from_str(contract_id),
            created_at: now,
        };
        proof {
            assert(r.challenge@ == b64url_of(challenge_bytes@));
            assert(r.challenge_id@ == b64url_of(id_bytes@));
        }
        r
    }

    /// Returns the storage key for this challenge.
    pub fn storage_key(&self) -> (r: String)
        ensures
            r@ == self.storage_key_spec(),
    {
        let mut s = String::from_str("challenge:");
        s.append(self.contract_id.as_str());
        s.append(":");
        s.append(self.challenge_id.as_str());
        s
    }

    /// Whether the challenge is expired as of the given Unix time.
    pub fn is_expired_at(&self, now: u64) -> (r: bool)
        ensures
            r == self.is_expired_at_spec(now),
    {
        now > self.created_at && now - self.created_at > CHALLENGE_TTL_SECS
    }

    /// Checks the challenge against the wall clock. The reading itself is
    /// unspecified; `is_expired_at` carries the verified rule.
    pub fn is_expired(&self) -> bool {
        let now = unix_time_now();
        self.is_expired_at(now)
    }

    /// Decodes the challenge bytes from the base64url string.
    pub fn challenge_bytes(&self) -> (r: Result<Vec<u8>, Error>)
        ensures
            r is Ok <==> b64url_decoded(self.challenge@) is Some,
            r matches Ok(v) ==> b64url_decoded(self.challenge@) == Some(v@),
            r matches Err(e) ==> e is Base64Decode,
    {
        match b64url_decode(self.challenge.as_str()) {
            Ok(v) => Ok(v),
            Err(m) => Err(Error::Base64Decode(m)),
        }
    }
}

} // verus!
