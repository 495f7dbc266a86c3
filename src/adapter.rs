//! The three hash entry points: parse the caller's input, hash it with
//! Rp64_256, and encode the digest.
use crate::error::RescueError;
use crate::field::{
    as_u64, felt_values, from_vec, le_bytes_u64s, le_words_u128s, u128s_to_le_words, ElementDigest,
    MODULUS,
};
use crate::hasher::{
    hash_accepts_len, hash_bytes, hash_elements, rp64_256_hash, rp64_256_hash_elements,
    string_from_utf8,
};
use crate::parse::{parse_decimal_list, parse_list, tokens};
use vstd::prelude::*;
use vstd::slice::slice_to_vec;
use vstd::utf8::{decode_utf8, decode_utf8_encode_utf8, encode_utf8, valid_utf8};

verus! {

/// Number of 128-bit values that `rescue_v1` takes.
pub const V1_ARITY: usize = 4;

/// Number of 64-bit values that `rescue` takes.
pub const V2_ARITY: usize = 8;

/// The 32 digest bytes of the byte string `b`, where the hash takes its length.
pub open spec fn bytes_digest_outcome(b: Seq<u8>) -> Result<Seq<u8>, RescueError> {
    if hash_accepts_len(b.len()) {
        Ok(le_bytes_u64s(rp64_256_hash(b)))
    } else {
        Err(RescueError::InternalInvariantViolation)
    }
}

/// The field elements that hold the words `ws`, each reduced modulo the field modulus.
pub open spec fn reduced_words(ws: Seq<u64>) -> Seq<u64> {
    Seq::new(ws.len(), |i: int| (ws[i] % MODULUS) as u64)
}

/// What `rescue_v1` returns on input bytes `s`: the 32 digest bytes of the
/// eight 64-bit words of the four values (their 64-byte little-endian
/// encoding), each taken as a field element, or the parse error.
pub open spec fn rescue_v1_outcome(s: Seq<u8>) -> Result<Seq<u8>, RescueError> {
    match parse_list(s, V1_ARITY as nat, u128::MAX as nat) {
        Ok(w) => Ok(le_bytes_u64s(rp64_256_hash_elements(reduced_words(le_words_u128s(w))))),
        Err(e) => Err(e),
    }
}

/// What `rescue` returns on input bytes `s`: the canonical integers of the
/// digest of the eight values taken as field elements, or the parse error.
pub open spec fn rescue_outcome(s: Seq<u8>) -> Result<Seq<u64>, RescueError> {
    match parse_list(s, V2_ARITY as nat, u64::MAX as nat) {
        Ok(w) => Ok(rp64_256_hash_elements(Seq::new(8, |i: int| (w[i] % (MODULUS as u128)) as u64))),
        Err(e) => Err(e),
    }
}

/// The text that the digest bytes `d` encode, or `InvalidText` where they are not UTF-8.
pub open spec fn digest_text_outcome(d: Seq<u8>) -> Result<Seq<char>, RescueError> {
    if valid_utf8(d) {
        Ok(decode_utf8(d))
    } else {
        Err(RescueError::InvalidText)
    }
}

/// What `rescue_v3` returns on the byte string `b`.
pub open spec fn rescue_v3_outcome(b: Seq<u8>) -> Result<Seq<char>, RescueError> {
    match bytes_digest_outcome(b) {
        Ok(d) => digest_text_outcome(d),
        Err(e) => Err(e),
    }
}

/// The Rp64_256 digest of `bytes`, or `InternalInvariantViolation` where the
/// hash cannot take a string of that length.
pub fn digest_of_bytes(bytes: &[u8]) -> (r: Result<ElementDigest, RescueError>)
    ensures
        r matches Ok(d) ==> hash_accepts_len(bytes@.len()) && d.values() == rp64_256_hash(bytes@)
            && d.wf(),
        r matches Err(e) ==> !hash_accepts_len(bytes@.len()) && e
            == RescueError::InternalInvariantViolation,
{
    if bytes.len() <= 56 || bytes.len() % 7 == 0 {
        Ok(hash_bytes(bytes))
    } else {
        Err(RescueError::InternalInvariantViolation)
    }
}

/// Hashes a comma-separated list of exactly four unsigned 128-bit decimal
/// integers. The values' 64-byte little-endian encoding is read as eight
/// little-endian 64-bit words, each of which enters the hash as a field element
/// (reduced modulo the field modulus); the result is the 32-byte digest.
pub fn rescue_v1(values: String) -> (r: Result<Vec<u8>, RescueError>)
    ensures
        parse_list(encode_utf8(values@), V1_ARITY as nat, u128::MAX as nat) is Ok ==> r is Ok,
        r matches Ok(v) ==> rescue_v1_outcome(encode_utf8(values@)) == Ok::<Seq<u8>, RescueError>(v@)
            && v@.len() == 32,
        r matches Err(e) ==> rescue_v1_outcome(encode_utf8(values@)) == Err::<Seq<u8>, RescueError>(e),
        tokens(encode_utf8(values@)).len() != V1_ARITY ==> r == Err::<Vec<u8>, RescueError>(
            RescueError::InvalidArity,
        ),
{
    let bytes: &[u8] = values.as_str().as_bytes();
    let parsed = match parse_decimal_list(bytes, V1_ARITY, u128::MAX) {
        Ok(p) => p,
        Err(e) => {
            return Err(e);
        },
    };
    let ghost w = parsed@;
    let words = u128s_to_le_words(&parsed);
    let elements = from_vec(words);
    assert(felt_values(elements@) =~= reduced_words(le_words_u128s(w)));
    let digest = hash_elements(&elements);
    let out = digest.as_bytes();
    let v = slice_to_vec(out.as_slice());
    assert(digest.values().len() == 4);
    Ok(v)
}

/// Hashes a comma-separated list of exactly eight unsigned 64-bit decimal
/// integers, each taken as a field element (reduced modulo the field modulus);
/// the result is the canonical integers of the four digest elements.
pub fn rescue(values: String) -> (r: Result<Vec<u64>, RescueError>)
    ensures
        r matches Ok(v) ==> rescue_outcome(encode_utf8(values@)) == Ok::<Seq<u64>, RescueError>(v@)
            && v@.len() == 4,
        r matches Ok(v) ==> forall|i: int| 0 <= i < 4 ==> #[trigger] v@[i] < MODULUS,
        r matches Err(e) ==> rescue_outcome(encode_utf8(values@)) == Err::<Seq<u64>, RescueError>(e),
        tokens(encode_utf8(values@)).len() != V2_ARITY ==> r == Err::<Vec<u64>, RescueError>(
            RescueError::InvalidArity,
        ),
{
    let bytes: &[u8] = values.as_str().as_bytes();
    let parsed = match parse_decimal_list(bytes, V2_ARITY, u64::MAX as u128) {
        Ok(p) => p,
        Err(e) => {
            return Err(e);
        },
    };
    let ghost w = parsed@;
    let mut words: Vec<u64> = Vec::new();
    let mut i: usize = 0;
    while i < V2_ARITY
        invariant
            parsed@ == w,
            w.len() == V2_ARITY,
            forall|j: int| 0 <= j < V2_ARITY ==> #[trigger] w[j] <= u64::MAX,
            0 <= i <= V2_ARITY,
            words@.len() == i,
            forall|j: int| 0 <= j < i ==> #[trigger] words@[j] == w[j] as u64,
        decreases V2_ARITY - i,
    {
        words.push(parsed[i] as u64);
        i += 1;
    }
    let elements = from_vec(words);
    assert(felt_values(elements@) =~= Seq::new(8, |j: int| (w[j] % (MODULUS as u128)) as u64));
    let digest = hash_elements(&elements);
    let out = as_u64(digest);
    let v = slice_to_vec(out.as_slice());
    assert forall|i: int| 0 <= i < 4 implies #[trigger] v@[i] < MODULUS by {
        assert(digest.elements[i].wf());
    }
    Ok(v)
}

/// The digest bytes of `d` read as UTF-8 text; `InvalidText` where they are not valid UTF-8.
pub fn digest_text(d: &ElementDigest) -> (r: Result<String, RescueError>)
    ensures
        r matches Ok(s) ==> digest_text_outcome(le_bytes_u64s(d.values())) == Ok::<
            Seq<char>,
            RescueError,
        >(s@) && encode_utf8(s@) == le_bytes_u64s(d.values()),
        r matches Err(e) ==> digest_text_outcome(le_bytes_u64s(d.values())) == Err::<
            Seq<char>,
            RescueError,
        >(e),
{
    let out = d.as_bytes();
    let bytes = slice_to_vec(out.as_slice());
    match string_from_utf8(bytes) {
        Some(s) => {
            proof {
                decode_utf8_encode_utf8(le_bytes_u64s(d.values()));
            }
            Ok(s)
        },
        None => Err(RescueError::InvalidText),
    }
}

/// Hashes a byte string and returns the 32-byte digest read as UTF-8 text;
/// `InvalidText` where the digest bytes are not valid UTF-8, and
/// `InternalInvariantViolation` where the hash cannot take the string's length.
pub fn rescue_v3(values: &[u8]) -> (r: Result<String, RescueError>)
    ensures
        r matches Ok(s) ==> rescue_v3_outcome(values@) == Ok::<Seq<char>, RescueError>(s@)
            && encode_utf8(s@) == le_bytes_u64s(rp64_256_hash(values@))
            && encode_utf8(s@).len() == 32,
        r matches Err(e) ==> rescue_v3_outcome(values@) == Err::<Seq<char>, RescueError>(e),
{
    let digest = match digest_of_bytes(values) {
        Ok(d) => d,
        Err(e) => {
            return Err(e);
        },
    };
    assert(digest.values().len() == 4);
    digest_text(&digest)
}

/// Each adapter's outcome is a function of its input alone: equal inputs give
/// equal results, with no hidden state between calls.
pub proof fn lemma_outcomes_deterministic(a: Seq<u8>, b: Seq<u8>)
    requires
        a == b,
    ensures
        rescue_v1_outcome(a) == rescue_v1_outcome(b),
        rescue_outcome(a) == rescue_outcome(b),
        rescue_v3_outcome(a) == rescue_v3_outcome(b),
{
}

/// An input whose token count differs from the required arity is rejected
/// with `InvalidArity`, whatever its tokens hold.
pub proof fn lemma_arity_enforced(s: Seq<u8>)
    ensures
        tokens(s).len() != V1_ARITY ==> rescue_v1_outcome(s) == Err::<Seq<u8>, RescueError>(
            RescueError::InvalidArity,
        ),
        tokens(s).len() != V2_ARITY ==> rescue_outcome(s) == Err::<Seq<u64>, RescueError>(
            RescueError::InvalidArity,
        ),
{
}

} // verus!
