use rescue_wasm::layout::{
    CF_OP_BITS_END, CF_OP_BITS_START, HASH_STATE_CAPACITY, HASH_STATE_RATE, HASH_STATE_WIDTH,
    HD_OP_BITS_END, HD_OP_BITS_START, LD_OP_BITS_END, LD_OP_BITS_START, NUM_CF_OPS, NUM_CF_OP_BITS,
    NUM_HD_OPS, NUM_HD_OP_BITS, NUM_LD_OPS, NUM_LD_OP_BITS, NUM_STATIC_BITS, OP_COUNTER_END,
    OP_COUNTER_START, REGISTER_BITS, SPONGE_END, SPONGE_START, SPONGE_WIDTH, MAX_CONTEXT_DEPTH,
    MAX_LOOP_DEPTH, MAX_STACK_DEPTH, MIN_STACK_DEPTH,
};

#[test]
fn register_fields_fit_without_overlap() {
    let fields = [
        (OP_COUNTER_START, OP_COUNTER_END),
        (SPONGE_START, SPONGE_END),
        (CF_OP_BITS_START, CF_OP_BITS_END),
        (LD_OP_BITS_START, LD_OP_BITS_END),
        (HD_OP_BITS_START, HD_OP_BITS_END),
    ];
    let mut owner = vec![None; REGISTER_BITS];
    for (k, (s, e)) in fields.iter().enumerate() {
        assert!(s < e);
        for b in *s..*e {
            assert!(owner[b].is_none());
            owner[b] = Some(k);
        }
    }
    let total: usize = fields.iter().map(|(s, e)| e - s).sum();
    assert_eq!(total, NUM_STATIC_BITS);
    assert!(total <= REGISTER_BITS);
    assert!(owner[..NUM_STATIC_BITS].iter().all(|o| o.is_some()));
}

#[test]
fn opcode_widths_match_counts() {
    assert_eq!(CF_OP_BITS_END - CF_OP_BITS_START, NUM_CF_OP_BITS);
    assert_eq!(1usize << NUM_CF_OP_BITS, NUM_CF_OPS);
    assert_eq!(LD_OP_BITS_END - LD_OP_BITS_START, NUM_LD_OP_BITS);
    assert_eq!(1usize << NUM_LD_OP_BITS, NUM_LD_OPS);
    assert_eq!(HD_OP_BITS_END - HD_OP_BITS_START, NUM_HD_OP_BITS);
    assert_eq!(1usize << NUM_HD_OP_BITS, NUM_HD_OPS);
    assert_eq!(SPONGE_END - SPONGE_START, SPONGE_WIDTH);
    assert_eq!(SPONGE_WIDTH, HASH_STATE_RATE);
    assert_eq!(HASH_STATE_WIDTH, HASH_STATE_RATE + HASH_STATE_CAPACITY);
    assert_eq!((MAX_CONTEXT_DEPTH, MAX_LOOP_DEPTH), (16, 8));
    assert_eq!((MIN_STACK_DEPTH, MAX_STACK_DEPTH), (8, 32));
}
