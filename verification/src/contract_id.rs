//! Validation of the account identifier: a contract address in the usual
//! strkey shape, treated here as text ('C', 56 characters, base32 alphabet).

use vstd::prelude::*;
use vstd::string::StringSliceAdditionalSpecFns;

use crate::error::Error;
use crate::text::dec_str;
use crate::text::dec_str_spec;

verus! {

/// Characters admitted after the leading 'C': the RFC 4648 base32 alphabet.
pub open spec fn is_base32_char(c: char) -> bool {
    (65 <= c as u32 && c as u32 <= 90)  // 'A'..='Z'
    || (50 <= c as u32 && c as u32 <= 55)  // '2'..='7'
}

/// A well-formed contract ID: starts with 'C', is 56 bytes long, and holds
/// only base32 characters after the first.
pub open spec fn is_valid_contract_id(s: &str) -> bool {
    &&& s@.len() > 0
    &&& s@[0] == 'C'
    &&& s.spec_bytes().len() == 56
    &&& forall|i: int| 1 <= i < s@.len() ==> is_base32_char(#[trigger] s@[i])
}

/// Checks that an account identifier is a well-formed contract address.
///
/// Returns `Ok(())` exactly on well-formed identifiers; otherwise the error
/// names the first rule violated, in the order: leading 'C', length, alphabet.
pub fn validate_contract_id(contract_id: &str) -> (r: Result<(), Error>)
    ensures
        r is Ok <==> is_valid_contract_id(contract_id),
        !(contract_id@.len() > 0 && contract_id@[0] == 'C') ==> (r matches Err(
            Error::InvalidContractId(m),
        ) && m@ == "must start with 'C'"@),
        (contract_id@.len() > 0 && contract_id@[0] == 'C' && contract_id.spec_bytes().len() != 56)
            ==> (r matches Err(Error::InvalidContractId(m)) && m@ == "must be 56 characters, got "@
            + dec_str_spec(contract_id.spec_bytes().len() as int)),
        (contract_id@.len() > 0 && contract_id@[0] == 'C' && contract_id.spec_bytes().len() == 56
            && !is_valid_contract_id(contract_id)) ==> (r matches Err(Error::InvalidContractId(m))
            && m@ == "contains invalid base32 characters"@),
{
    let char_len = contract_id.unicode_len();
    if char_len == 0 || contract_id.get_char(0) != 'C' {
        return Err(Error::InvalidContractId(String::from_str("must start with 'C'")));
    }

    let byte_len = contract_id.as_bytes().len();
    if byte_len != 56 {
        let mut m = String::from_str("must be 56 characters, got ");
        m.append(dec_str(byte_len as u64).as_str());
        return Err(Error::InvalidContractId(m));
    }

    for i in 1..char_len
        invariant
            char_len == contract_id@.len(),
            contract_id@.len() > 0,
            contract_id@[0] == 'C',
            contract_id.spec_bytes().len() == 56,
            forall|j: int| 1 <= j < i ==> is_base32_char(#[trigger] contract_id@[j]),
    {
        let c = contract_id.get_char(i) as u32;
        if !((65 <= c && c <= 90) || (50 <= c && c <= 55)) {
            return Err(
                Error::InvalidContractId(String::from_str("contains invalid base32 characters")),
            );
        }
    }

    Ok(())
}

} // verus!
