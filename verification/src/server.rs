//! The serving flow around the verification engine, with the transport kept
//! out: challenge issuance (validate the account, generate, persist) and
//! assertion verification against a stored challenge (consume exactly once,
//! reject expiry, then run the engine). An HTTP layer maps each error to
//! its status through `Error::http_status`.

use vstd::prelude::*;
use vstd::string::StringSliceAdditionalSpecFns;

use crate::base64url::b64url_decoded;
use crate::challenge::storage_key_chars;
use crate::challenge::Challenge;
use crate::contract_id::is_valid_contract_id;
use crate::contract_id::validate_contract_id;
use crate::error::Error;
use crate::storage::InMemoryStore;
use crate::webauthn::verify::outcome_matches;
use crate::webauthn::verify::verify_assertion;
use crate::webauthn::verify::verify_decision;
use crate::webauthn::verify::VerifyRequest;
use crate::webauthn::verify::VerifyResponse;

verus! {

/// A challenge is consumed at most once: after the record under a key is
/// removed — which `handle_verify` does before the outcome is known — the
/// key maps to nothing, so by `handle_verify`'s contract a second attempt
/// with the same id reports "challenge not found", whatever the first
/// attempt returned.
pub proof fn law_single_use(m: Map<Seq<char>, Challenge>, key: Seq<char>)
    ensures
        !m.remove(key).contains_key(key),
{
}

/// Issues a fresh challenge for an account and persists it.
///
/// Rejects a malformed contract ID without touching the store; otherwise
/// stores the new record under its storage key and returns it, with a
/// 32-byte challenge and a 16-byte challenge ID behind the base64url text.
pub fn issue_challenge(store: &mut InMemoryStore, contract_id: &str) -> (r: Result<
    Challenge,
    Error,
>)
    requires
        old(store).wf(),
    ensures
        final(store).wf(),
        r is Ok <==> is_valid_contract_id(contract_id),
        r matches Err(e) ==> e is InvalidContractId && final(store)@ == old(store)@,
        r matches Ok(c) ==> c.contract_id@ == contract_id@ && final(store)@ == old(
            store,
        )@.insert(c.storage_key_spec(), c),
        r matches Ok(c) ==> (b64url_decoded(c.challenge@) matches Some(b) && b.len() == 32),
        r matches Ok(c) ==> (b64url_decoded(c.challenge_id@) matches Some(b) && b.len() == 16),
{
    match validate_contract_id(contract_id) {
        Ok(()) => {},
        Err(e) => {
            return Err(e);
        },
    }
    let challenge = Challenge::new(contract_id);
    let key = challenge.storage_key();
    match store.store(key.as_str(), &challenge) {
        Ok(()) => {},
        Err(e) => {
            return Err(e);
        },
    }
    Ok(challenge)
}

/// Verifies an assertion against the stored challenge for
/// `(contract_id, challenge_id)`, as of time `now`.
///
/// The stored challenge is consumed — removed from the store — before the
/// outcome is known, so a second attempt with the same id observes
/// "not found" whatever the first returned. An expired challenge is
/// rejected even though it was still retrievable. Otherwise the engine
/// decides, with the stored challenge text as the expected challenge.
pub fn handle_verify(
    store: &mut InMemoryStore,
    contract_id: &str,
    challenge_id: &str,
    request: &VerifyRequest,
    now: u64,
) -> (r: Result<VerifyResponse, Error>)
    requires
        old(store).wf(),
    ensures
        final(store).wf(),
        !is_valid_contract_id(contract_id) ==> (r matches Err(e) && e is InvalidContractId
            && final(store)@ == old(store)@),
        ({
            let key = storage_key_chars(contract_id@, challenge_id@);
            &&& (is_valid_contract_id(contract_id) && !old(store)@.contains_key(key)) ==> (r
                == Err::<VerifyResponse, Error>(Error::ChallengeNotFound) && final(store)@ == old(
                store,
            )@)
            &&& (is_valid_contract_id(contract_id) && old(store)@.contains_key(key)) ==> {
                let c = old(store)@[key];
                &&& final(store)@ == old(store)@.remove(key)
                &&& c.is_expired_at_spec(now) ==> r == Err::<VerifyResponse, Error>(
                    Error::ChallengeExpired,
                )
                &&& !c.is_expired_at_spec(now) ==> outcome_matches(
                    contract_id@,
                    r,
                    verify_decision(contract_id@, c.challenge@, request.view_fields()),
                )
            }
        }),
{
    match validate_contract_id(contract_id) {
        Ok(()) => {},
        Err(e) => {
            return Err(e);
        },
    }

    let mut key = String::from_str("challenge:");
    key.append(contract_id);
    key.append(":");
    key.append(challenge_id);

    // Retrieve and consume the challenge: one-time use, whatever follows.
    let challenge = match store.retrieve(key.as_str()) {
        Ok(Some(c)) => c,
        Ok(None) => {
            return Err(Error::ChallengeNotFound);
        },
        Err(e) => {
            return Err(e);
        },
    };
    match store.delete(key.as_str()) {
        Ok(()) => {},
        Err(e) => {
            return Err(e);
        },
    }

    // Reject an expired challenge even though it was still present.
    if challenge.is_expired_at(now) {
        return Err(Error::ChallengeExpired);
    }

    verify_assertion(contract_id, challenge.challenge.as_str(), request)
}

} // verus!
