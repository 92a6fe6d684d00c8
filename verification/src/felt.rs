//! Fail-fast parsing of textual contract addresses into field-element bytes.

use vstd::prelude::*;
use std::str::FromStr;
use crate::errors::CreationError;
use crate::records::ContractAddress;

verus! {

/// The 32 big-endian bytes of the Starknet field element that the text
/// denotes, or `None` where the text denotes no field element. The result
/// depends on the characters alone.
pub uninterp spec fn felt_of(s: Seq<char>) -> Option<Seq<u8>>;

/// Relies on starknet-core's `Felt::from_str`, which parses a `0x`-prefixed
/// hexadecimal or a decimal field element and fails on any other text, and on
/// `Felt::to_bytes_be`, which returns the element's 32 big-endian bytes.
#[verifier::external_body]
fn parse_felt_bytes(s: &str) -> (r: Option<Vec<u8>>)
    ensures
        r is Some <==> felt_of(s@) is Some,
        r matches Some(b) ==> Some(b@) == felt_of(s@),
        r matches Some(b) ==> b@.len() == 32,
{
    match starknet_core::types::Felt::from_str(s) {
        Ok(f) => Some(f.to_bytes_be().to_vec()),
        Err(_) => None,
    }
}

/// Every element of the list denotes a field element.
pub open spec fn all_contracts_valid(parts: Seq<String>) -> bool {
    forall|i: int| 0 <= i < parts.len() ==> felt_of(#[trigger] parts[i]@) is Some
}

/// The parsed addresses line up one-for-one with the textual list.
pub open spec fn contracts_parsed(cs: Seq<ContractAddress>, parts: Seq<String>) -> bool {
    &&& cs.len() == parts.len()
    &&& forall|i: int| 0 <= i < cs.len() ==> Some(#[trigger] cs[i].bytes@) == felt_of(parts[i]@)
}

/// Parse every textual address of the delimited list, aborting on the first
/// element that denotes no field element: a partially parsed list never
/// reaches an insert.
pub fn parse_contracts(parts: &Vec<String>) -> (r: Result<
    Vec<ContractAddress>,
    CreationError,
>)
    ensures
        r is Ok <==> all_contracts_valid(parts@),
        r matches Ok(cs) ==> contracts_parsed(cs@, parts@),
        r matches Ok(cs) ==> forall|i: int| 0 <= i < cs@.len() ==> (#[trigger] cs@[i]).wf(),
        r matches Err(e) ==> e == CreationError::PayloadInvalid,
{
    let mut out: Vec<ContractAddress> = Vec::new();
    let mut i: usize = 0;
    while i < parts.len()
        invariant
            i <= parts@.len(),
            out@.len() == i,
            forall|k: int| 0 <= k < i ==> Some(#[trigger] out@[k].bytes@) == felt_of(parts@[k]@),
            forall|k: int| 0 <= k < i ==> (#[trigger] out@[k]).wf(),
            forall|k: int| 0 <= k < i ==> felt_of(#[trigger] parts@[k]@) is Some,
        decreases parts@.len() - i,
    {
        match parse_felt_bytes(parts[i].as_str()) {
            Some(b) => {
                out.push(ContractAddress { bytes: b });
            },
            None => {
                assert(felt_of(parts@[i as int]@) is None);
                return Err(CreationError::PayloadInvalid);
            },
        }
        i = i + 1;
    }
    Ok(out)
}

} // verus!
