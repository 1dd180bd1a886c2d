use r68k::cpu::{TestCore, reg_dx, reg_dy, reg_ax, reg_ay};
use r68k::cpu::ops::common;

fn core_with_ir(ir: u16) -> TestCore {
    let mut ic = TestCore::new(0x40);
    ic.ir = ir;
    for r in 0..16 {
        ic.dar[r] = (r * 0x11) as u32;
    }
    ic
}

#[test]
fn dx_and_dy() {
    let core = core_with_ir(0b1111_1001_1111_1010);
    assert_eq!(0b1111_1001_1111_1010, core.ir); // X=4, Y=2
    assert_eq!(0x22, core.dar[reg_dy(core.ir)]);
    assert_eq!(0x44, core.dar[reg_dx(core.ir)]);
}

#[test]
fn more_dx_and_dy() {
    let core = core_with_ir(0b1111_1011_1111_1110);
    assert_eq!(0b1111_1011_1111_1110, core.ir); // X=5, Y=6
    assert_eq!(0x66, core.dar[reg_dy(core.ir)]);
    assert_eq!(0x55, core.dar[reg_dx(core.ir)]);
}

#[test]
fn ax_and_ay() {
    let core = core_with_ir(0b1111_1001_1111_1010);
    assert_eq!(0b1111_1001_1111_1010, core.ir); // X=4, Y=2
    assert_eq!(0xAA, core.dar[reg_ay(core.ir)]);
    assert_eq!(0xCC, core.dar[reg_ax(core.ir)]);
}

#[test]
fn more_ax_and_ay() {
    let core = core_with_ir(0b1111_1011_1111_1110);
    assert_eq!(0b1111_1011_1111_1110, core.ir); // X=5, Y=6
    assert_eq!(0xEE, core.dar[reg_ay(core.ir)]);
    assert_eq!(0xDD, core.dar[reg_ax(core.ir)]);
}

#[test]
fn low_nibble() {
    assert_eq!(0x0a, common::low_nibble(0xba));
}

#[test]
fn high_nibble() {
    assert_eq!(0xb0, common::high_nibble(0xba));
}

#[test]
fn mask_out_below_8() {
    assert_eq!(0x2bcdef00, common::mask_out_below_8(0x2bcdef73));
}

#[test]
fn mask_out_above_8() {
    assert_eq!(0xf1, common::mask_out_above_8(0x2bcdeff1));
}

#[test]
fn arithmetic_shift_right_copies_the_sign_bit_in() {
    let mut core = TestCore::new(0x40);
    assert_eq!(0xf0, common::asr_8(&mut core, 0x80, 3));
    assert_eq!(0xff, common::asr_8(&mut core, 0x1234_5680, 20));
    assert_eq!(0x00, common::asr_8(&mut core, 0x7f, 9));
    assert_eq!(0xfc00, common::asr_16(&mut core, 0x8000, 5));
    assert_eq!(0xffff_ffff, common::asr_32(&mut core, 0x8000_0000, 40));
    assert_eq!(0x0000_0001, common::asr_32(&mut core, 0x4000_0000, 30));
}

#[test]
fn shifts_left_and_logical_shifts_right_bring_zeros_in() {
    let mut core = TestCore::new(0x40);
    assert_eq!(0x02, common::asl_8(&mut core, 0x81, 1));
    assert_eq!(0x02, common::lsl_8(&mut core, 0x81, 1));
    assert_eq!(0, common::lsl_8(&mut core, 0xff, 8));
    assert_eq!(0x0001, common::lsr_16(&mut core, 0x8000, 15));
    assert_eq!(0, common::lsr_16(&mut core, 0x8000, 16));
    assert_eq!(0x10, common::lsr_8(&mut core, 0x80, 3));
    assert_eq!(0x8000_0000, common::asl_32(&mut core, 1, 31));
    assert_eq!(0, common::lsr_32(&mut core, 0xffff_ffff, 32));
}

#[test]
fn a_rotation_right_undoes_a_rotation_left() {
    let mut core = TestCore::new(0x40);
    let left = common::rol_8(&mut core, 0x81, 3);
    assert_eq!(0x0c, left);
    assert_eq!(0x81, common::ror_8(&mut core, left, 3));
    let right = common::ror_16(&mut core, 0x1234, 20);
    assert_eq!(0x4123, right);
    assert_eq!(0x1234, common::rol_16(&mut core, right, 20));
    let left32 = common::rol_32(&mut core, 0x8000_0001, 33);
    assert_eq!(0x0000_0003, left32);
    assert_eq!(0x8000_0001, common::ror_32(&mut core, left32, 33));
}

#[test]
fn abcd_adds_two_decimal_digits_per_byte() {
    let mut core = TestCore::new(0x40);
    core.x_flag = 0;
    assert_eq!(0x83, common::abcd_8(&mut core, 0x45, 0x38));
    assert_eq!(0, core.c_flag);
    let mut carried = TestCore::new(0x40);
    carried.x_flag = 0;
    assert_eq!(0x00, common::abcd_8(&mut carried, 0x99, 0x01));
    assert!(carried.c_flag != 0);
    assert_eq!(carried.c_flag, carried.x_flag);
    // the extend flag adds one more
    assert_eq!(0x01, common::abcd_8(&mut carried, 0x00, 0x00));
}

#[test]
fn divu_puts_the_remainder_above_the_quotient() {
    let mut core = TestCore::new(0x40);
    core.ir = 0;
    common::divu_16(&mut core, 100, 7);
    assert_eq!((2 << 16) | 14, core.dar[0]);
    assert_eq!(0, core.v_flag);
    let mut overflow = TestCore::new(0x40);
    overflow.ir = 0;
    overflow.dar[0] = 0x1234;
    common::divu_16(&mut overflow, 0x10000, 1);
    assert_eq!(0x1234, overflow.dar[0]);
    assert!(overflow.v_flag != 0);
}
