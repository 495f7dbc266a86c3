//! The Rp64_256 hash of winter-crypto and std's UTF-8 check, as seen by the
//! verified code.
use crate::field::{felt_values, ElementDigest, Felt};
use vstd::prelude::*;
use vstd::utf8::{decode_utf8, valid_utf8};
use winter_crypto::hashers::Rp64_256;
use winter_crypto::{ElementHasher, Hasher};
use winter_math::fields::f64::BaseElement;
use winter_math::StarkField;

verus! {

/// Canonical integers of the Rp64_256 digest of a sequence of field elements,
/// given by their integer values.
pub uninterp spec fn rp64_256_hash_elements(elements: Seq<u64>) -> Seq<u64>;

/// Canonical integers of the Rp64_256 digest of a byte string.
pub uninterp spec fn rp64_256_hash(bytes: Seq<u8>) -> Seq<u64>;

/// Relies on winter-crypto's `Rp64_256::hash_elements` for the digest of eight
/// field elements; `BaseElement::new` takes each value in, and
/// `StarkField::as_int`, documented to return the canonical integer, takes
/// each digest element out.
#[verifier::external_body]
pub(crate) fn hash_elements(elements: &[Felt; 8]) -> (r: ElementDigest)
    ensures
        r.values() == rp64_256_hash_elements(felt_values(elements@)),
        r.wf(),
{
    let input = elements.map(|e| BaseElement::new(e.value));
    let out = Rp64_256::hash_elements(&input);
    let e = out.as_elements();
    ElementDigest {
        elements: [
            Felt { value: e[0].as_int() },
            Felt { value: e[1].as_int() },
            Felt { value: e[2].as_int() },
            Felt { value: e[3].as_int() },
        ],
    }
}

/// Byte lengths on which `Rp64_256::hash` returns. It absorbs 7-byte chunks
/// and treats a chunk as the last one by comparing the position within the
/// rate (reset every eight chunks) with the total chunk count; past eight
/// chunks a short last chunk is then copied as a full one, which panics.
pub open spec fn hash_accepts_len(len: nat) -> bool {
    len <= 56 || len % 7 == 0
}

/// Relies on winter-crypto's `Rp64_256::hash` (the `Hasher` impl) for the
/// digest of a byte string; `StarkField::as_int`, documented to return the
/// canonical integer, takes each digest element out.
#[verifier::external_body]
pub(crate) fn hash_bytes(bytes: &[u8]) -> (r: ElementDigest)
    requires
        hash_accepts_len(bytes@.len()),
    ensures
        r.values() == rp64_256_hash(bytes@),
        r.wf(),
{
    let out = Rp64_256::hash(bytes);
    let e = out.as_elements();
    ElementDigest {
        elements: [
            Felt { value: e[0].as_int() },
            Felt { value: e[1].as_int() },
            Felt { value: e[2].as_int() },
            Felt { value: e[3].as_int() },
        ],
    }
}

/// Relies on `String::from_utf8`: it succeeds exactly when the bytes are valid
/// UTF-8, and the string then holds the characters they encode.
#[verifier::external_body]
pub(crate) fn string_from_utf8(bytes: Vec<u8>) -> (r: Option<String>)
    ensures
        r is Some <==> valid_utf8(bytes@),
        r matches Some(s) ==> s@ == decode_utf8(bytes@),
{
    String::from_utf8(bytes).ok()
}

} // verus!
