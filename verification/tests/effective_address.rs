use r68k::cpu::TestCore;
use r68k::cpu::effective_address::{predecrement_8, postincrement_8};

#[test]
fn predecrement_wraps() {
    let mut core = TestCore::new(0x40);
    for i in 0..8 {
        // pre-decrement should wrap to 0xFFFFFFFF
        core.dar[8 + i as usize] = 0;
    }
    let ea = predecrement_8(&mut core, 8 + 0);
    assert_eq!(0xFFFFFFFF, ea);
}

#[test]
fn predecrement_8_wraps_a7_by_two() {
    let mut core = TestCore::new(0x40);
    for i in 0..8 {
        core.dar[8 + i as usize] = 0;
    }
    let ea = predecrement_8(&mut core, 8 + 7);
    // a7 is kept even
    assert_eq!(0xFFFFFFFE, ea);
}

#[test]
fn postincrement_wraps() {
    let mut core = TestCore::new(0x40);
    for i in 0..8 {
        core.dar[8 + i as usize] = 0xFFFFFFFF;
    }
    let ea = postincrement_8(&mut core, 8 + 0);
    assert_eq!(0xFFFFFFFF, ea);
    assert_eq!(0x0, core.dar[8 + 0]);
}

#[test]
fn postincrement_8_wraps_a7_by_two() {
    let mut core = TestCore::new(0x40);
    for i in 0..8 {
        core.dar[8 + i as usize] = 0xFFFFFFFE;
    }
    let ea = postincrement_8(&mut core, 8 + 7);
    // a7 is kept even
    assert_eq!(0xFFFFFFFE, ea);
    assert_eq!(0x0, core.dar[8 + 7]);
}
