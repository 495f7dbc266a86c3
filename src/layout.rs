//! Bit-field layout of the VM's per-cycle instruction register.
use vstd::arithmetic::power2::{lemma2_to64, pow2};
use vstd::prelude::*;

verus! {

/// A half-open range of bit positions `[start, end)` within the instruction register.
#[derive(Clone, Copy, Debug, PartialEq, Eq, Structural)]
pub struct BitRange {
    pub start: usize,
    pub end: usize,
}

impl BitRange {
    pub open spec fn spec_width(&self) -> int {
        self.end - self.start
    }

    /// Whether the range covers bit `bit`.
    pub open spec fn contains(&self, bit: int) -> bool {
        self.start <= bit < self.end
    }
}

/// Width in bits of the instruction register.
pub const REGISTER_BITS: usize = 64;

/// Bit holding the operation counter flag.
pub const OP_COUNTER_START: usize = 0;
pub const OP_COUNTER_END: usize = 1;

/// Bits selecting one of the hash-sponge state slots.
pub const SPONGE_START: usize = 1;
pub const SPONGE_END: usize = 5;

/// Bits holding the control-flow opcode.
pub const CF_OP_BITS_START: usize = 5;
pub const CF_OP_BITS_END: usize = 8;
pub const NUM_CF_OP_BITS: usize = 3;
pub const NUM_CF_OPS: usize = 8;

/// Bits holding the stack-load opcode.
pub const LD_OP_BITS_START: usize = 8;
pub const LD_OP_BITS_END: usize = 13;
pub const NUM_LD_OP_BITS: usize = 5;
pub const NUM_LD_OPS: usize = 32;

/// Bits holding the hash-domain opcode.
pub const HD_OP_BITS_START: usize = 13;
pub const HD_OP_BITS_END: usize = 15;
pub const NUM_HD_OP_BITS: usize = 2;
pub const NUM_HD_OPS: usize = 4;

/// Number of low bits taken by the fixed fields; the context and loop
/// counters live above them.
pub const NUM_STATIC_BITS: usize = 15;

pub const MAX_CONTEXT_DEPTH: usize = 16;
pub const MAX_LOOP_DEPTH: usize = 8;
pub const MIN_TRACE_LENGTH: usize = 16;
pub const MAX_REGISTER_COUNT: usize = 128;
pub const MIN_EXTENSION_FACTOR: usize = 16;
pub const BASE_CYCLE_LENGTH: usize = 16;
pub const MIN_STACK_DEPTH: usize = 8;
pub const MAX_STACK_DEPTH: usize = 32;
pub const MAX_PUBLIC_INPUTS: usize = 8;
pub const MAX_OUTPUTS: usize = 8;

pub const HASH_STATE_RATE: usize = 4;
pub const HASH_STATE_CAPACITY: usize = 2;
pub const HASH_STATE_WIDTH: usize = 6;
pub const HASH_DIGEST_SIZE: usize = 2;
pub const SPONGE_WIDTH: usize = 4;

/// Bit range of the operation counter field.
pub open spec fn op_counter_range() -> BitRange {
    BitRange { start: OP_COUNTER_START, end: OP_COUNTER_END }
}

/// Bit range of the sponge state selector field.
pub open spec fn sponge_range() -> BitRange {
    BitRange { start: SPONGE_START, end: SPONGE_END }
}

/// Bit range of the control-flow opcode field.
pub open spec fn cf_op_bits_range() -> BitRange {
    BitRange { start: CF_OP_BITS_START, end: CF_OP_BITS_END }
}

/// Bit range of the load opcode field.
pub open spec fn ld_op_bits_range() -> BitRange {
    BitRange { start: LD_OP_BITS_START, end: LD_OP_BITS_END }
}

/// Bit range of the hash-domain opcode field.
pub open spec fn hd_op_bits_range() -> BitRange {
    BitRange { start: HD_OP_BITS_START, end: HD_OP_BITS_END }
}

/// The fixed fields of the register, from the lowest bits up.
pub open spec fn register_fields() -> Seq<BitRange> {
    seq![op_counter_range(), sponge_range(), cf_op_bits_range(), ld_op_bits_range(), hd_op_bits_range()]
}

/// Sum of the widths of the first `n` fields.
pub open spec fn total_width(fields: Seq<BitRange>, n: nat) -> int
    decreases n,
{
    if n == 0 {
        0
    } else {
        total_width(fields, (n - 1) as nat) + fields[n - 1].spec_width()
    }
}

/// The register layout is consistent: the fixed fields are non-empty, pairwise
/// disjoint, fill bits `[0, NUM_STATIC_BITS)` with no gap, and their total
/// width fits the register; each opcode field is exactly as wide as needed for
/// its operation count (`2^width == count`); the sponge fields agree with the
/// hash state dimensions.
pub proof fn lemma_register_layout()
    ensures
        forall|i: int| 0 <= i < 5 ==> #[trigger] register_fields()[i].start < register_fields()[i].end,
        forall|i: int, j: int|
            0 <= i < j < 5 ==> #[trigger] register_fields()[i].end <= #[trigger] register_fields()[j].start,
        forall|i: int, j: int, b: int|
            0 <= i < 5 && 0 <= j < 5 && i != j ==> !(#[trigger] register_fields()[i].contains(b)
                && #[trigger] register_fields()[j].contains(b)),
        register_fields()[0].start == 0,
        forall|i: int| 0 <= i < 4 ==> #[trigger] register_fields()[i].end == register_fields()[i + 1].start,
        register_fields()[4].end == NUM_STATIC_BITS,
        total_width(register_fields(), 5) == NUM_STATIC_BITS,
        NUM_STATIC_BITS <= REGISTER_BITS,
        cf_op_bits_range().spec_width() == NUM_CF_OP_BITS,
        pow2(NUM_CF_OP_BITS as nat) == NUM_CF_OPS,
        ld_op_bits_range().spec_width() == NUM_LD_OP_BITS,
        pow2(NUM_LD_OP_BITS as nat) == NUM_LD_OPS,
        hd_op_bits_range().spec_width() == NUM_HD_OP_BITS,
        pow2(NUM_HD_OP_BITS as nat) == NUM_HD_OPS,
        sponge_range().spec_width() == SPONGE_WIDTH,
        SPONGE_WIDTH == HASH_STATE_RATE,
        HASH_STATE_WIDTH == HASH_STATE_RATE + HASH_STATE_CAPACITY,
        HASH_DIGEST_SIZE <= HASH_STATE_WIDTH,
        MIN_STACK_DEPTH <= MAX_STACK_DEPTH,
{
    lemma2_to64();
    let f = register_fields();
    assert(f[0] == op_counter_range() && f[1] == sponge_range() && f[2] == cf_op_bits_range());
    assert(f[3] == ld_op_bits_range() && f[4] == hd_op_bits_range());
    assert(total_width(f, 5) == 15) by {
        reveal_with_fuel(total_width, 6);
    }
}

} // verus!
