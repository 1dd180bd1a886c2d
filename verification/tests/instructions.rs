use r68k::cpu::{TestCore, Cycles, ProcessingState};

#[test]
fn lea_loads_the_address_into_an_address_register() {
    let mut cpu = TestCore::new_mem(0x40, &[0x41, 0xd0]); // LEA (A0),A0
    cpu.dar[8] = 0x1234;
    cpu.execute1();
    assert_eq!(0x1234, cpu.dar[8]);
    assert_eq!(0x42, cpu.pc);
    assert_eq!(ProcessingState::Normal, cpu.processing_state);
}

#[test]
fn move_long_between_data_registers_sets_the_flags() {
    let mut cpu = TestCore::new_mem(0x40, &[0x22, 0x00]); // MOVE.L D0,D1
    cpu.dar[0] = 0x8000_0000;
    let cycles = cpu.execute1();
    assert_eq!(Cycles(4), cycles);
    assert_eq!(0x8000_0000, cpu.dar[1]);
    assert!(cpu.n_flag != 0);
}

#[test]
fn move_byte_to_memory_writes_the_byte() {
    let mut cpu = TestCore::new_mem(0x40, &[0x10, 0x80]); // MOVE.B D0,(A0)
    cpu.dar[0] = 0x1234_56ab;
    cpu.dar[8] = 0x100;
    cpu.execute1();
    assert_eq!(0xab, cpu.read_data_byte(0x100).unwrap());
}

#[test]
fn beq_is_taken_only_when_z_is_set() {
    let mut cpu = TestCore::new_mem(0x40, &[0x67, 0x10]); // BEQ.S +16
    cpu.not_z_flag = 0;
    assert_eq!(Cycles(10), cpu.execute1());
    assert_eq!(0x52, cpu.pc);
    let mut other = TestCore::new_mem(0x40, &[0x67, 0x10]);
    other.not_z_flag = 1;
    assert_eq!(Cycles(8), other.execute1());
    assert_eq!(0x42, other.pc);
}

#[test]
fn dbf_counts_down_and_branches_back() {
    let mut cpu = TestCore::new_mem(0x40, &[0x51, 0xc8, 0xff, 0xfe]); // DBF D0,*
    cpu.dar[0] = 2;
    assert_eq!(Cycles(10), cpu.execute1());
    assert_eq!(1, cpu.dar[0]);
    assert_eq!(0x40, cpu.pc);
    cpu.dar[0] = 0;
    assert_eq!(Cycles(14), cpu.execute1());
    assert_eq!(0xffff, cpu.dar[0]);
    assert_eq!(0x44, cpu.pc);
}

#[test]
fn asr_by_an_immediate_count() {
    let mut cpu = TestCore::new_mem(0x40, &[0xe2, 0x00]); // ASR.B #1,D0
    cpu.dar[0] = 0x80;
    assert_eq!(Cycles(8), cpu.execute1());
    assert_eq!(0xc0, cpu.dar[0]);
}

#[test]
fn mulu_multiplies_the_low_words() {
    let mut cpu = TestCore::new_mem(0x40, &[0xc0, 0xc1]); // MULU D1,D0
    cpu.dar[0] = 0xffff_0003;
    cpu.dar[1] = 7;
    cpu.execute1();
    assert_eq!(21, cpu.dar[0]);
}

#[test]
fn divu_by_zero_traps() {
    let mut cpu = TestCore::new_mem(0x40, &[0x80, 0xc1]); // DIVU D1,D0
    cpu.write_data_long(5 * 4, 0x1000).unwrap();
    cpu.dar[15] = 0x800;
    cpu.dar[0] = 100;
    cpu.dar[1] = 0;
    cpu.execute1();
    assert_eq!(0x1000, cpu.pc);
    assert_eq!(100, cpu.dar[0]);
}

#[test]
fn neg_and_tst_set_the_flags() {
    let mut cpu = TestCore::new_mem(0x40, &[0x44, 0x80, 0x4a, 0x81]); // NEG.L D0; TST.L D1
    cpu.dar[0] = 1;
    cpu.dar[1] = 0;
    cpu.execute1();
    assert_eq!(0xffff_ffff, cpu.dar[0]);
    assert!(cpu.c_flag != 0);
    cpu.execute1();
    assert_eq!(0, cpu.not_z_flag);
}

#[test]
fn scc_sets_a_byte_from_the_condition() {
    let mut cpu = TestCore::new_mem(0x40, &[0x50, 0xc0]); // ST D0
    cpu.dar[0] = 0x1234_5600;
    cpu.execute1();
    assert_eq!(0x1234_56ff, cpu.dar[0]);
}

#[test]
fn jsr_pushes_the_return_address() {
    let mut cpu = TestCore::new_mem(0x40, &[0x4e, 0x90]); // JSR (A0)
    cpu.dar[8] = 0x200;
    cpu.dar[15] = 0x800;
    cpu.execute1();
    assert_eq!(0x200, cpu.pc);
    assert_eq!(0x7fc, cpu.dar[15]);
    assert_eq!(0x42, cpu.read_data_long(0x7fc).unwrap());
}

#[test]
fn move_to_sr_in_user_mode_is_a_privilege_violation() {
    let mut cpu = TestCore::new_mem(0x40, &[0x46, 0xc0]); // MOVE D0,SR
    cpu.write_data_long(8 * 4, 0x1000).unwrap();
    cpu.inactive_ssp = 0x800;
    cpu.s_flag = 0;
    cpu.execute1();
    assert_eq!(0x1000, cpu.pc);
}

#[test]
fn movem_saves_and_restores_registers_on_the_stack() {
    // MOVEM.L D0-D1,-(A7); MOVEM.L (A7)+,D2-D3
    let mut cpu = TestCore::new_mem(0x40, &[0x48, 0xe7, 0xc0, 0x00, 0x4c, 0xdf, 0x00, 0x0c]);
    cpu.dar[15] = 0x800;
    cpu.dar[0] = 0x1111_2222;
    cpu.dar[1] = 0x3333_4444;
    assert_eq!(Cycles(24), cpu.execute1());
    assert_eq!(0x7f8, cpu.dar[15]);
    assert_eq!(0x1111_2222, cpu.read_data_long(0x7f8).unwrap());
    assert_eq!(0x3333_4444, cpu.read_data_long(0x7fc).unwrap());
    assert_eq!(Cycles(28), cpu.execute1());
    assert_eq!(0x800, cpu.dar[15]);
    assert_eq!(0x1111_2222, cpu.dar[2]);
    assert_eq!(0x3333_4444, cpu.dar[3]);
}
