//! Fixed-layout parsing of WebAuthn authenticator data: a 32-byte
//! relying-party hash, one flags byte, and a big-endian signature counter,
//! with any trailing extension bytes ignored.

use vstd::prelude::*;

use crate::error::Error;
use crate::text::copy_32;
use crate::text::dec_str;
use crate::text::dec_str_spec;

verus! {

/// Minimum authenticator data length:
/// 32 (rpIdHash) + 1 (flags) + 4 (signCount) = 37 bytes.
pub const MIN_AUTH_DATA_LEN: usize = 37;

/// The big-endian 32-bit value held in a 4-byte sequence.
pub open spec fn be_u32(b: Seq<u8>) -> int {
    b[0] * 0x1000000 + b[1] * 0x10000 + b[2] * 0x100 + b[3]
}

/// Parsed authenticator data from a WebAuthn assertion.
#[derive(Debug)]
pub struct AuthenticatorData {
    /// SHA-256 hash of the RP ID (32 bytes).
    pub rp_id_hash: [u8; 32],
    /// Raw flags byte.
    pub flags: u8,
    /// Signature counter (big-endian u32 on the wire).
    pub sign_count: u32,
}

impl AuthenticatorData {
    /// Whether the User Present flag (bit 0) is set.
    pub open spec fn user_present_spec(self) -> bool {
        self.flags & 0x01 != 0
    }

    /// Whether the User Verified flag (bit 2) is set.
    pub open spec fn user_verified_spec(self) -> bool {
        self.flags & 0x04 != 0
    }

    /// Parses authenticator data from raw bytes.
    ///
    /// Layout: bytes [0..32] rpIdHash, byte [32] flags, bytes [33..37]
    /// signCount (big-endian); anything beyond 37 bytes is extension data
    /// and is ignored. Fails exactly when fewer than 37 bytes are given.
    pub fn parse(data: &[u8]) -> (r: Result<AuthenticatorData, Error>)
        ensures
            r is Ok <==> data@.len() >= 37,
            r matches Ok(ad) ==> {
                &&& ad.rp_id_hash@ == data@.subrange(0, 32)
                &&& ad.flags == data@[32]
                &&& ad.sign_count == be_u32(data@.subrange(33, 37))
            },
            data@.len() < 37 ==> (r matches Err(Error::InvalidAuthenticatorData(m)) && m@
                == "too short: "@ + dec_str_spec(data@.len() as int)
                + " bytes, need at least 37"@),
    {
        if data.len() < MIN_AUTH_DATA_LEN {
            let mut m = String::from_str("too short: ");
            m.append(dec_str(data.len() as u64).as_str());
            m.append(" bytes, need at least 37");
            return Err(Error::InvalidAuthenticatorData(m));
        }

        let rp_id_hash = copy_32(data);
        let flags = data[32];
        let sign_count: u32 = (data[33] as u32) * 0x1000000 + (data[34] as u32) * 0x10000 + (
        data[35] as u32) * 0x100 + (data[36] as u32);

        let ad = AuthenticatorData { rp_id_hash, flags, sign_count };
        proof {
            assert(ad.sign_count == be_u32(data@.subrange(33, 37)));
        }
        Ok(ad)
    }

    /// Returns true if the User Present (UP) flag is set.
    pub fn user_present(&self) -> (r: bool)
        ensures
            r == self.user_present_spec(),
    {
        self.flags & 0x01 != 0
    }

    /// Returns true if the User Verified (UV) flag is set.
    pub fn user_verified(&self) -> (r: bool)
        ensures
            r == self.user_verified_spec(),
    {
        self.flags & 0x04 != 0
    }
}

} // verus!
