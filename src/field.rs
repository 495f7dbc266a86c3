//! Elements of the 64-bit prime field used by the Rp64_256 hash, and the
//! digest it produces.
use vstd::prelude::*;

verus! {

/// The field modulus `2^64 - 2^32 + 1`.
pub const MODULUS: u64 = 0xFFFF_FFFF_0000_0001;

/// Number of field elements in a digest.
pub const DIGEST_ELEMENTS: usize = 4;

/// Number of field elements hashed by the list adapter.
pub const INPUT_ELEMENTS: usize = 8;

/// A field element, held as its canonical integer representative.
#[derive(Clone, Copy, Debug, PartialEq, Eq, Structural)]
pub struct Felt {
    pub value: u64,
}

impl Felt {
    /// The representative is canonical: below the modulus.
    pub open spec fn wf(&self) -> bool {
        self.value < MODULUS
    }

    /// The field element congruent to `x`; values at or above the modulus are reduced.
    pub fn from_u64(x: u64) -> (r: Felt)
        ensures
            r.wf(),
            r.value == x % MODULUS,
    {
        Felt { value: x % MODULUS }
    }
}

/// A digest of four field elements.
#[derive(Clone, Copy, Debug)]
pub struct ElementDigest {
    pub elements: [Felt; 4],
}

/// The canonical integers of a sequence of field elements.
pub open spec fn felt_values(es: Seq<Felt>) -> Seq<u64> {
    es.map_values(|e: Felt| e.value)
}

/// Byte `i` of the little-endian encoding of the 64-bit words `xs`, one after another.
pub open spec fn le_bytes_u64s(xs: Seq<u64>) -> Seq<u8> {
    Seq::new(xs.len() * 8, |i: int| (xs[i / 8] >> ((8 * (i % 8)) as u64)) as u8)
}

/// The 128-bit values `xs` as 64-bit words, low word first: the little-endian
/// byte encoding of `xs`, sixteen bytes per value, read back as little-endian
/// 64-bit words.
pub open spec fn le_words_u128s(xs: Seq<u128>) -> Seq<u64> {
    Seq::new(xs.len() * 2, |i: int| (xs[i / 2] >> ((64 * (i % 2)) as u128)) as u64)
}

impl ElementDigest {
    pub open spec fn values(&self) -> Seq<u64> {
        felt_values(self.elements@)
    }

    pub open spec fn wf(&self) -> bool {
        forall|i: int| 0 <= i < 4 ==> (#[trigger] self.elements[i]).wf()
    }

    /// The digest as 32 bytes: the canonical integer of each element in
    /// little-endian order, element after element.
    pub fn as_bytes(&self) -> (r: [u8; 32])
        ensures
            r@ == le_bytes_u64s(self.values()),
    {
        let mut r: [u8; 32] = [0u8; 32];
        let mut i: usize = 0;
        while i < 32
            invariant
                0 <= i <= 32,
                forall|m: int| 0 <= m < i ==> #[trigger] r@[m] == le_bytes_u64s(self.values())[m],
            decreases 32 - i,
        {
            let v: u64 = self.elements[i / 8].value;
            r[i] = (v >> ((8 * (i % 8)) as u64)) as u8;
            i += 1;
        }
        assert(r@ =~= le_bytes_u64s(self.values()));
        r
    }
}

/// The digest's elements as their canonical integers.
pub fn as_u64(origin: ElementDigest) -> (r: [u64; 4])
    ensures
        r@ == origin.values(),
{
    let r: [u64; 4] = [
        origin.elements[0].value,
        origin.elements[1].value,
        origin.elements[2].value,
        origin.elements[3].value,
    ];
    assert(r@ =~= origin.values());
    r
}

/// The eight integers of `origin` as field elements, each reduced modulo the
/// field modulus.
pub fn from_vec(origin: Vec<u64>) -> (r: [Felt; 8])
    requires
        origin@.len() == 8,
    ensures
        forall|i: int| 0 <= i < 8 ==> (#[trigger] r[i]).wf() && r[i].value == origin@[i] % MODULUS,
{
    let mut r: [Felt; 8] = [Felt { value: 0 }; 8];
    let mut i: usize = 0;
    while i < 8
        invariant
            0 <= i <= 8,
            origin@.len() == 8,
            forall|m: int| 0 <= m < i ==> (#[trigger] r[m]).wf() && r[m].value == origin@[m] % MODULUS,
        decreases 8 - i,
    {
        r[i] = Felt::from_u64(origin[i]);
        i += 1;
    }
    r
}

/// The 64-bit words of `xs`, two per value, low word first.
pub fn u128s_to_le_words(xs: &Vec<u128>) -> (r: Vec<u64>)
    requires
        xs@.len() * 2 <= usize::MAX,
    ensures
        r@ == le_words_u128s(xs@),
{
    let n: usize = xs.len() * 2;
    let mut r: Vec<u64> = Vec::new();
    let mut i: usize = 0;
    while i < n
        invariant
            n == xs@.len() * 2,
            0 <= i <= n,
            r@.len() == i,
            forall|m: int| 0 <= m < i ==> #[trigger] r@[m] == le_words_u128s(xs@)[m],
        decreases n - i,
    {
        let x: u128 = xs[i / 2];
        r.push((x >> ((64 * (i % 2)) as u128)) as u64);
        i += 1;
    }
    assert(r@ =~= le_words_u128s(xs@));
    r
}

} // verus!
