use itertools::Itertools;
use r68k::cpu::ops::opcodes::{MASK_OUT_X_Y, OP_ABCD_8_RR};

fn opcodes(mask: u32, matching: u32) -> Vec<u32> {
    (matching..0x10000).filter(|opcode| (opcode & mask) == matching).collect()
}

#[test]
fn opcodes_from_mask_and_matching() {
    let mut opseq = Vec::new();
    opseq.extend(opcodes(MASK_OUT_X_Y, OP_ABCD_8_RR));
    assert_eq!(64, opseq.len());
    let ops = opseq.iter().unique();
    assert_eq!(64, ops.count());
    if let Some(&min) = opseq.iter().min() {
        assert_eq!(0b1100000100000000, min);
    }
    if let Some(&max) = opseq.iter().max() {
        assert_eq!(0b1100111100000111, max);
    }
    for code in opseq.iter() {
        assert_eq!(OP_ABCD_8_RR, code & OP_ABCD_8_RR);
    }
}
