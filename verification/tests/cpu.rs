use r68k::cpu::{TestCore, Cycles, Result, Callbacks, Exception, ProcessingState, AccessType, SFLAG_SET, SFLAG_CLEAR};
use r68k::cpu::{EXCEPTION_CHK, EXCEPTION_ILLEGAL_INSTRUCTION, EXCEPTION_ADDRESS_ERROR};
use r68k::cpu::ops::fake;
use r68k::cpu::ops::opcodes::{OP_NOP, OP_RTE_32};
use r68k::interrupts::InterruptController;
use r68k::ram::{SUPERVISOR_PROGRAM, USER_PROGRAM, USER_DATA};
use r68k::ram::loggingmem::Operation;


#[test]
fn new_sets_pc() {
    let cpu = TestCore::new(256);
    assert_eq!(256, cpu.pc);
}

#[test]
fn new_mem_sets_pc_and_mem() {
    let base = 128;
    let mut cpu = TestCore::new_mem(base, &[1u8, 2u8, 3u8, 4u8, 5u8, 6u8]);
    assert_eq!(128, cpu.pc);
    assert_eq!(1, cpu.mem.read_byte(SUPERVISOR_PROGRAM, 128));
    assert_eq!(2, cpu.mem.read_byte(SUPERVISOR_PROGRAM, 129));
}

#[test]
fn a_jump_changes_pc() {
    let mut cpu = TestCore::new(0);
    cpu.jump(128);
    assert_eq!(128, cpu.pc);
}

#[test]
#[allow(unused_must_use)]
fn a_read_imm_u32_changes_pc() {
    let base = 128;
    let mut cpu = TestCore::new(base);
    cpu.read_imm_u32();
    assert_eq!(base+4, cpu.pc);
}

#[test]
fn a_read_imm_u32_reads_from_pc() {
    let base = 128;
    let mut cpu = TestCore::new_mem(base, &[2u8, 1u8, 3u8, 4u8]);
    let val = cpu.read_imm_u32().unwrap();
    assert_eq!((2<<24)+(1<<16)+(3<<8)+4, val);
}


#[test]
#[allow(unused_must_use)]
fn a_read_imm_u16_changes_pc() {
    let base = 128;
    let mut cpu = TestCore::new(base);
    cpu.read_imm_u16();
    assert_eq!(base+2, cpu.pc);
}

#[test]
fn a_read_imm_u16_reads_from_pc() {
    let base = 128;
    let mut cpu = TestCore::new_mem(base, &[2u8, 1u8, 3u8, 4u8]);
    assert_eq!("-S7-----", cpu.flags());

    let val = cpu.read_imm_u16().unwrap();
    assert_eq!((2<<8)+(1<<0), val);
    assert_eq!(Operation::ReadLong(SUPERVISOR_PROGRAM, base, 0x02010304), cpu.mem.logger.ops()[0]);
}

#[test]
fn an_user_mode_read_imm_u16_is_reflected_in_mem_ops() {
    let base = 128;
    let mut cpu = TestCore::new_mem(base, &[2u8, 1u8, 3u8, 4u8]);
    cpu.s_flag = 0;
    assert_eq!("-U7-----", cpu.flags());

    let val = cpu.read_imm_u16().unwrap();
    assert_eq!((2<<8)+(1<<0), val);
    assert_eq!(Operation::ReadLong(USER_PROGRAM, base, 0x02010304), cpu.mem.logger.ops()[0]);
}

#[test]
fn a_reset_reads_sp_and_pc_from_0() {
    let mut cpu = TestCore::new_mem(0, &[0u8,0u8,1u8,0u8, 0u8,0u8,0u8,128u8]);
    cpu.reset();
    assert_eq!(256, cpu.dar[15]);
    assert_eq!(128, cpu.pc);
    assert_eq!("-S7-----", cpu.flags());
    assert_eq!(Operation::ReadLong(SUPERVISOR_PROGRAM, 0, 0x100), cpu.mem.logger.ops()[0]);
}

#[test]
fn execute_reads_from_pc_and_does_not_panic_on_illegal_instruction() {
    let mut cpu = TestCore::new_mem(0xba, &[0xba,0xd1,1u8,0u8, 0u8,0u8,0u8,128u8]);
    cpu.execute1();
}
#[test]
fn execute_does_not_panic_on_odd_pc() {
    let mut cpu = TestCore::new_mem(0xbd, &[0x00, 0x0a, 0x00, 0x00]);
    cpu.execute1();
}

#[test]
fn execute_can_execute_instruction_handler_0a() {
    let mut cpu = TestCore::new_mem(0xba, &[0x00, 0x0A, 1u8,0u8, 0u8,0u8,0u8,128u8]);
    cpu.instruction_set = fake::instruction_set();
    cpu.execute1();
    assert_eq!(0xabcd, cpu.dar[0]);
    assert_eq!(0x0000, cpu.dar[1]);
}

#[test]
fn execute_can_execute_instruction_handler_0b() {
    let mut cpu = TestCore::new_mem(0xba, &[0x00, 0x0B, 1u8,0u8, 0u8,0u8,0u8,128u8]);
    cpu.instruction_set = fake::instruction_set();
    cpu.execute1();
    assert_eq!(0x0000, cpu.dar[0]);
    assert_eq!(0xbcde, cpu.dar[1]);
}


#[test]
fn execute_can_execute_set_dx() {
    // first byte 40 is register D0
    // 42 == D1
    // 44 == D2
    // 46 == D3
    // 48 == D4
    // 4a == D5
    // 4c == D6
    // 4e == D7
    let mut cpu = TestCore::new_mem(0x40, &[0x4c, 0x00, 1u8, 0u8]);
    cpu.instruction_set = fake::instruction_set();
    cpu.execute1();
    assert_eq!(0xcdef, cpu.dar[6]);
}

#[test]
fn array_elems() {
    let mut arr = [1, 2, 3, 4];
    let marr = &mut arr;
    let elem: &mut i32 = &mut (marr[1]);
    // let mut elem2: &mut i32 = &mut (arr[2]);
    assert_eq!(2, *elem);
    *elem = 200;
    assert_eq!(200, *elem);
    // assert_eq!(200, &mut marr[1]);
}
#[test]
fn cycle_counting() {
    // 0xc308 = abcd_8_mm taking 18 cycles
    let mut cpu = TestCore::new_mem(0x40, &[0xc3, 0x08]);
    let Cycles(count) = cpu.execute1();
    assert_eq!(18, count);
}
#[test]
fn cycle_counting_exec2() {
    // 0xc308 = abcd_8_mm taking 18 cycles
    let mut cpu = TestCore::new_mem(0x40, &[0xc3, 0x08, 0xc3, 0x08]);
    let Cycles(count) = cpu.execute(20);
    assert_eq!(18*2, count);
}

#[test]
fn abcd_8_rr() {
    // opcodes c100 - c107, c300 - c307, etc.
    // or more generally c[13579bdf]0[0-7]
    // where [13579bdf] is DX (dest regno) and [0-7] is DY (src regno)
    // so c300 means D1 = D0 + D1 in BCD
    let mut cpu = TestCore::new_mem(0x40, &[0xc3, 0x00]);

    cpu.dar[0] = 0x16;
    cpu.dar[1] = 0x26;
    cpu.execute1();

    // 16 + 26 is 42
    assert_eq!(0x42, cpu.dar[1]);
}
#[test]
fn abcd_8_mm() {
    // opcodes c108 - c10f, c308 - c30f, etc.
    // or more generally c[13579bdf]0[8-f]
    // where [13579bdf] is AX (dest regno) and [8-f] is AY (src regno)
    // so c308 means A1 = A0 + A1 in BCD
    let mut cpu = TestCore::new_mem(0x40, &[0xc3, 0x08]);

    cpu.dar[8+0] = 0x160+1;
    cpu.dar[8+1] = 0x260+1;
    cpu.mem.write_byte(USER_DATA, 0x160, 0x16);
    cpu.mem.write_byte(USER_DATA, 0x260, 0x26);
    cpu.execute1();
    let res = cpu.mem.read_byte(USER_DATA, 0x260);

    // 16 + 26 is 42
    assert_eq!(0x42, res);
}

#[test]
fn add_8_er_d() {
    // opcodes d000 - d007, d200 - d207, etc.
    // or more generally d[02468ace]0[0-7]
    // where [02468ace] is DX (dest regno) and [0-7] is DY (src regno)

    // opcodes d200 is ADD.B    D0, D1
    let mut cpu = TestCore::new_mem(0x40, &[0xd2, 0x00]);

    cpu.dar[0] = 16;
    cpu.dar[1] = 26;
    cpu.execute1();

    // 16 + 26 is 42
    assert_eq!(42, cpu.dar[1]);
}

#[test]
fn add_8_er_pi() {
    // opcodes d018 - d01f, d218 - d21f, etc.
    // or more generally d[02468ace]1[8-f]
    // where [02468ace] is DX (dest regno) and [8-f] is AY (src regno)

    // opcodes d218 is ADD.B    (A0)+, D1
    let mut cpu = TestCore::new_mem(0x40, &[0xd2, 0x18]);
    let addr = 0x100;
    cpu.dar[8+0] = addr;
    cpu.mem.write_byte(USER_DATA, addr, 16);
    cpu.dar[1] = 26;
    cpu.execute1();

    // 16 + 26 is 42
    assert_eq!(42, cpu.dar[1]);
    assert_eq!(addr+1, cpu.dar[8+0]);
}

#[test]
fn add_8_er_pd() {
    // opcodes d020 - d027, d220 - d227, etc.
    // or more generally d[02468ace]2[0-7]
    // where [02468ace] is DX (dest regno) and [0-7] is AY (src regno)

    // opcodes d220 is ADD.B    -(A0), D1
    let mut cpu = TestCore::new_mem(0x40, &[0xd2, 0x20]);
    let addr = 0x100;
    cpu.dar[8+0] = addr;
    cpu.mem.write_byte(USER_DATA, addr-1, 16);
    cpu.dar[1] = 26;
    cpu.execute1();

    // 16 + 26 is 42
    assert_eq!(42, cpu.dar[1]);
    assert_eq!(addr-1, cpu.dar[8+0]);
}

#[test]
fn add_8_er_ai() {
    // opcodes d010 - d017, d210 - d217, etc.
    // or more generally d[02468ace]1[0-7]
    // where [02468ace] is DX (dest regno) and [0-7] is AY (src regno)

    // opcodes d210 is ADD.B    (A0), D1
    let mut cpu = TestCore::new_mem(0x40, &[0xd2, 0x10]);

    let addr = 0x100;
    cpu.dar[8+0] = addr;
    cpu.mem.write_byte(USER_DATA, addr, 16);
    cpu.dar[1] = 26;
    cpu.execute1();

    // 16 + 26 is 42
    assert_eq!(42, cpu.dar[1]);
    assert_eq!(addr, cpu.dar[8+0]);
}
#[test]
fn add_8_er_di_with_positive_displacement() {
    // opcodes d028 - d02f, d228 - d22f, etc.
    // or more generally d[02468ace]2[8-f]
    // where [02468ace] is DX (dest regno) and [8-f] is AY (src regno)

    // opcodes d228,0108 is ADD.B    (0x108, A0), D1
    let mut cpu = TestCore::new_mem(0x40, &[0xd2, 0x28, 0x01, 0x08]);

    let addr = 0x100;
    cpu.dar[8+0] = addr;
    let displaced_addr = addr + 0x108;
    cpu.mem.write_byte(USER_DATA, displaced_addr, 16);
    cpu.dar[1] = 26;
    cpu.execute1();

    // 16 + 26 is 42
    assert_eq!(42, cpu.dar[1]);
    assert_eq!(addr, cpu.dar[8+0]);
}
#[test]
fn add_8_er_di_with_negative_displacement() {
    // opcodes d028 - d02f, d228 - d22f, etc. followed by an extension word
    // or more generally d[02468ace]2[8-f]
    // where [02468ace] is DX (dest regno) and [8-f] is AY (src regno)

    // opcodes d228,FFFE is ADD.B    (-2, A0), D1
    let mut cpu = TestCore::new_mem(0x40, &[0xd2, 0x28, 0xFF, 0xFE]);

    let addr = 0x100;
    cpu.dar[8+0] = addr;
    let displaced_addr = addr - 2;
    cpu.mem.write_byte(USER_DATA, displaced_addr, 16);
    cpu.dar[1] = 26;
    cpu.execute1();

    // 16 + 26 is 42
    assert_eq!(42, cpu.dar[1]);
    assert_eq!(addr, cpu.dar[8+0]);
}
#[test]
fn add_8_er_ix_with_positive_displacement() {
    // opcodes d030 - d037, d230 - d237, etc. followed by an extension word
    // or more generally d[02468ace]3[0-7]
    // where [02468ace] is DX (dest regno) and [0-7] is AY (src regno)

    // opcodes d230,9002 is ADD.B    (2, A0, A1), D1
    let mut cpu = TestCore::new_mem(0x40, &[0xd2, 0x30, 0x90, 0x02]);

    let addr = 0x100;
    let index = 0x10;
    let displacement = 2;
    cpu.dar[8+0] = addr;
    cpu.dar[8+1] = index;
    let effective_addr = addr + index + displacement;
    cpu.mem.write_byte(USER_DATA, effective_addr, 16);
    cpu.dar[1] = 26;
    cpu.execute1();

    // 16 + 26 is 42
    assert_eq!(42, cpu.dar[1]);
    assert_eq!(addr, cpu.dar[8+0]);
}
#[test]
fn add_8_er_ix_with_negative_displacement() {
    // opcodes d030 - d037, d230 - d237, etc. followed by an extension word
    // or more generally d[02468ace]3[0-7]
    // where [02468ace] is DX (dest regno) and [0-7] is AY (src regno)

    // opcodes d230,90FE is ADD.B    (-2, A0, A1), D1
    let mut cpu = TestCore::new_mem(0x40, &[0xd2, 0x30, 0x90, 0xFE]);

    let addr = 0x100;
    let index = 0x10;
    let displacement = 2;
    cpu.dar[8+0] = addr;
    cpu.dar[8+1] = index;
    let effective_addr = addr + index - displacement;
    cpu.mem.write_byte(USER_DATA, effective_addr, 16);
    cpu.dar[1] = 26;
    cpu.execute1();

    // 16 + 26 is 42
    assert_eq!(42, cpu.dar[1]);
    assert_eq!(addr, cpu.dar[8+0]);
}
#[test]
fn add_8_er_aw() {
    // opcodes d038, d238, d438, etc. followed by an extension word
    // or more generally d[02468ace]38
    // where [02468ace] is DX (dest regno) and the extension word is
    // the 16-bit absolute address

    // opcodes d238,0108 is ADD.B    $0108, D1
    let mut cpu = TestCore::new_mem(0x40, &[0xd2, 0x38, 0x01, 0x08]);
    cpu.mem.write_byte(USER_DATA, 0x108, 16);
    cpu.dar[1] = 26;
    cpu.execute1();

    // 16 + 26 is 42
    assert_eq!(42, cpu.dar[1]);
}
#[test]
fn add_8_er_al() {
    // opcodes d039, d239, d439, etc. followed by two extension words
    // or more generally d[02468ace]39

    // where [02468ace] is DX (dest regno) and the first extension
    // word is the high order word of the 32-bit absolute address,
    // and the second extension word is the low order word.

    // opcodes d239,0009,0000 is ADD.B    $90000, D1
    let mut cpu = TestCore::new_mem(0x40, &[0xd2, 0x39, 0x00, 0x09, 0x00, 0x00]);
    cpu.mem.write_byte(USER_DATA, 0x90000, 16);
    cpu.dar[1] = 26;
    cpu.execute1();

    // 16 + 26 is 42
    assert_eq!(42, cpu.dar[1]);
}
#[test]
fn add_8_er_pcdi() {
    // opcodes d03a, d23a, d43a, etc. followed by an extension word
    // or more generally d[02468ace]3a

    // where [02468ace] is DX (dest regno)
    // opcodes d23a,0108 is ADD.B    ($0108, PC), D1
    let mut cpu = TestCore::new_mem(0x40, &[0xd2, 0x3a, 0x01, 0x08]);
    let addr = 0x40+2+0x0108;
    cpu.mem.write_byte(USER_DATA, addr, 16);
    cpu.dar[1] = 26;
    cpu.execute1();

    // 16 + 26 is 42
    assert_eq!(42, cpu.dar[1]);
}
#[test]
fn add_8_er_pcix() {
    // opcodes d03b, d23b, d43b, etc. followed by an extension word
    // or more generally d[02468ace]3b

    // where [02468ace] is DX (dest regno)
    // opcodes d23b,9002 is ADD.B    (2, PC, A1), D1
    let mut cpu = TestCore::new_mem(0x40, &[0xd2, 0x3b, 0x90, 0x02]);
    let addr = cpu.pc + 2; // will be +2 after reading instruction word
    let index = 0x10;
    let displacement = 2;
    cpu.dar[8+1] = index;
    let effective_addr = addr + index + displacement;
    cpu.mem.write_byte(USER_DATA, effective_addr, 16);
    cpu.dar[1] = 26;
    cpu.execute1();

    // 16 + 26 is 42
    assert_eq!(42, cpu.dar[1]);
}
#[test]
fn add_8_er_imm() {
    // opcodes d03c, d23c, d43c, etc. followed by an extension word
    // or more generally d[02468ace]3c
    // where [02468ace] is DX (dest regno)

    // opcodes d23c,0010 is ADD.B    #16, D1
    let mut cpu = TestCore::new_mem(0x40, &[0xd2, 0x3c, 0x00, 0x10]);

    cpu.dar[1] = 26;
    cpu.execute1();

    // 16 + 26 is 42
    assert_eq!(42, cpu.dar[1]);
}
#[test]
fn add_16_re_pi() { //0xD400, 0xD700
    let mut cpu = TestCore::new_mem(0x40, &[0xd3, 0x58]);
    cpu.dar[8+0] = 0x40;
    cpu.dar[1] = 0xa8;

    cpu.execute1();
    for op in cpu.mem.logger.ops() {
        println!("{:?}", op);
    }
    let word = cpu.read_data_word(64).unwrap();
    assert_eq!(0xd358 + 0xa8, word);
}
#[test]
fn op_with_extension_word_moves_pc_past_extension_word() {
    let mut cpu = TestCore::new_mem(0x40, &[0xd2, 0x30, 0x90, 0xFE]);
    cpu.execute1();
    assert_eq!(0x44, cpu.pc);
}

#[test]
fn status_register_roundtrip(){
    let mut core = TestCore::new(0x40);
    //Status register bits are:
    //      TTSM_0iii_000X_NZVC;
    let f=0b0000_1000_1110_0000; // these bits should always be zero
    let s=0b0010_0000_0000_0000;
    let i=0b0000_0111_0000_0000;
    let x=0b0000_0000_0001_0000;
    let n=0b0000_0000_0000_1000;
    let z=0b0000_0000_0000_0100;
    let v=0b0000_0000_0000_0010;
    let c=0b0000_0000_0000_0001;
    let flags = vec![x,n,z,v,c,f,s,i,0];
    for sf in flags {
        core.sr_to_flags(sf);
        let sr = core.status_register();
        let expected = if sf == f {0} else {sf};
        assert_eq!(expected, sr);
    }
}
#[test]
fn clones_have_independent_registers() {
    let mut core = TestCore::new(0x40);
    core.dar[1] = 0x16;
    let mut clone = core.clone();
    assert_eq!(0x16, core.dar[1]);
    assert_eq!(0x16, clone.dar[1]);
    clone.dar[1] = 0x32;
    assert_eq!(0x16, core.dar[1]);
    assert_eq!(0x32, clone.dar[1]);
}

#[test]
fn user_mode_chk_16_pd_with_trap_uses_sp_correctly() {
    let mut cpu = TestCore::new_mem(0x40, &[0x41, 0xa7]); // 0x41a7 CHK.W -(A7), D0
    cpu.write_data_long(EXCEPTION_CHK as u32 * 4, 0x1010).unwrap(); // set up exception vector 6
    cpu.s_flag = SFLAG_CLEAR; // user mode
    cpu.inactive_ssp = 0x200; // Supervisor stack at 0x200
    cpu.dar[15] = 0x100; // User stack at 0x100
    cpu.dar[0] = 0xF123; // negative, will cause a trap (vector 6) and enter supervisor mode

    cpu.execute1();
    assert_eq!(0x1010, cpu.pc);
    assert_eq!(SFLAG_SET, cpu.s_flag);
    assert_eq!(0x100-2, cpu.inactive_usp); // check USP, decremented by A7 PD
    assert_eq!(0x200-6, cpu.dar[15]); // check SSP
}

#[test]
fn sr_to_flags_can_enter_user_mode_and_swap_stackpointers() {
    let mut cpu = TestCore::new_mem(0x40, &[0x41, 0xa7]); // 0x41a7 CHK.W -(A7), D0
    cpu.s_flag = SFLAG_SET;
    cpu.inactive_usp = 0x1000;
    cpu.dar[15] = 0x2000;
    assert_eq!(SFLAG_SET, cpu.s_flag);
    assert_eq!(0x2000, cpu.ssp());
    cpu.sr_to_flags(0); // User mode
    assert_eq!(0x1000, cpu.usp());
    assert_eq!(0x1000, cpu.dar[15]);
    assert_eq!(SFLAG_CLEAR, cpu.s_flag);
}

#[test]
fn sr_to_flags_can_enter_supervisor_mode_and_swap_stackpointers() {
    let mut cpu = TestCore::new_mem(0x40, &[0x41, 0xa7]); // 0x41a7 CHK.W -(A7), D0
    cpu.s_flag = SFLAG_CLEAR;
    cpu.inactive_ssp = 0x1000;
    cpu.dar[15] = 0x2000;
    assert_eq!(SFLAG_CLEAR, cpu.s_flag);
    assert_eq!(0x2000, cpu.usp());
    cpu.sr_to_flags(0xffff); // Supa mode
    assert_eq!(0x1000, cpu.ssp());
    assert_eq!(0x1000, cpu.dar[15]);
    assert_eq!(SFLAG_SET, cpu.s_flag);
}

#[test]
fn core_can_stop() {
    let initial_pc = 0x40;
    let mut cpu = TestCore::new_mem_init(initial_pc, &[0x4e, 0x72, 0x00, 0x00], OP_NOP);
    cpu.sr_to_flags(0xffff); // Supa mode
    cpu.execute1();
    assert_eq!(0x0000, cpu.status_register());
    let next_instruction = initial_pc + 2 + 2; // 40 + instruction word + immediate word
    assert_eq!(next_instruction, cpu.pc);
    // continue executing some cycles
    let chunk_of_cycles = 400;
    let Cycles(consumed) = cpu.execute(chunk_of_cycles);
    assert_eq!(chunk_of_cycles, consumed);
    // but as the cpu is stopped, pc should still point
    // to the next instruction
    assert_eq!(next_instruction, cpu.pc);
}

#[test]
fn reset_calls_interrupt_controller() {
    let mut cpu = TestCore::new_mem(0x40, &[0x4e, 0x70]); // 0x4e70 RESET
    cpu.int_ctrl.request_interrupt(5);
    cpu.execute1(); // will execute RESET, which will reset all IRQs
    assert_eq!(0, cpu.int_ctrl.highest_priority());
}

#[test]
fn processing_state_is_known_in_g2_exception_handler() {
    let mut cpu = TestCore::new_mem(0x40, &[0x41, 0x90]); // 0x4190 CHK.W (A0), D0
    cpu.write_data_long(EXCEPTION_CHK as u32 * 4, 0x1010).unwrap(); // set up exception vector 6
    cpu.write_data_word(0x1010, OP_RTE_32).unwrap(); // handler is just RTE
    cpu.s_flag = SFLAG_CLEAR; // user mode
    cpu.inactive_ssp = 0x200; // Supervisor stack at 0x200
    cpu.dar[15] = 0x100; // User stack at 0x100
    cpu.dar[0] = 0xF123; // negative, will cause a trap (vector 6) and enter the handler in supervisor mode

    cpu.execute1();
    assert_eq!(0x1010, cpu.pc);
    assert_eq!(SFLAG_SET, cpu.s_flag);
    assert_eq!(ProcessingState::Group2Exception, cpu.processing_state);
    assert_eq!(0x200-6, cpu.dar[15]); // check SSP

    cpu.execute1(); // will execute RTE
    // which should return to user mode, instruction after CHK, normal state
    assert_eq!(0x42, cpu.pc);
    assert_eq!(SFLAG_CLEAR, cpu.s_flag);
    assert_eq!(ProcessingState::Normal, cpu.processing_state);
}

#[test]
fn processing_state_is_known_in_g1_exception_handler() {
    // real illegal instruction = 0x4afc, but any illegal instruction should work
    let mut cpu = TestCore::new_mem(0x40, &[0x4a, 0xfc]);
    cpu.write_data_long(EXCEPTION_ILLEGAL_INSTRUCTION as u32 * 4, 0x1010).unwrap(); // set up exception vector
    cpu.write_data_word(0x1010, OP_RTE_32).unwrap(); // handler is just RTE
    cpu.s_flag = SFLAG_CLEAR; // user mode
    cpu.inactive_ssp = 0x200; // Supervisor stack at 0x200
    cpu.dar[15] = 0x100; // User stack at 0x100

    cpu.execute1(); // will execute the illegal instruction and enter the handler in supervisor mode
    assert_eq!(0x1010, cpu.pc);
    assert_eq!(SFLAG_SET, cpu.s_flag);
    assert_eq!(ProcessingState::Group1Exception, cpu.processing_state);

    cpu.execute1(); // will execute RTE
    // which should return to user mode, faulting instruction, normal state
    assert_eq!(0x40, cpu.pc);
    assert_eq!(SFLAG_CLEAR, cpu.s_flag);
    assert_eq!(ProcessingState::Normal, cpu.processing_state);
}

#[test]
fn processing_state_is_known_in_g0_exception_handler() {
    let mut cpu = TestCore::new_mem(0x40, &[0x41, 0xa0]); // 0x41a0 CHK.W -(A0), D0
    cpu.write_data_long(EXCEPTION_ADDRESS_ERROR as u32 * 4, 0x1010).unwrap(); // set up exception vector
    cpu.write_data_word(0x1010, 0x504F).unwrap(); // handler is ADD #8, A7
    cpu.write_data_word(0x1012, OP_RTE_32).unwrap(); // followed by RTE

    cpu.s_flag = SFLAG_CLEAR; // user mode
    cpu.inactive_ssp = 0x200; // Supervisor stack at 0x200
    cpu.dar[15] = 0x100; // User stack at 0x100
    cpu.dar[8] = 0x0023; // odd, will cause an address error exception and enter the handler in supervisor mode

    cpu.execute1();
    assert_eq!(0x1010, cpu.pc);
    assert_eq!(0x200-14, cpu.dar[15]);
    assert_eq!(SFLAG_SET, cpu.s_flag);
    assert_eq!(ProcessingState::Group0Exception, cpu.processing_state);

    cpu.execute1(); // will execute ADD #8, A7 (to skip g0 stuff in stack frame)
    assert_eq!(0x1012, cpu.pc);
    assert_eq!(0x200-6, cpu.dar[15]);

    cpu.execute1(); // will execute RTE
    // which should return to user mode, after faulted instruction, normal state
    assert_eq!(0x42, cpu.pc); // this is what address errors stack in Musashi
    assert_eq!(SFLAG_CLEAR, cpu.s_flag);
    assert_eq!(ProcessingState::Normal, cpu.processing_state);
}

#[test]
fn stop_changes_processing_state() {
    let mut cpu = TestCore::new_mem(0x40, &[0x4e, 0x72]); // 0x4e72 STOP
    cpu.execute1(); // will execute STOP
    assert_eq!(ProcessingState::Stopped, cpu.processing_state);
}

#[test]
fn interrupt_can_trigger_from_stopped_state() {
    let mut cpu = TestCore::new_mem(0x40, &[0x4e, 0x72]); // 0x4e72 STOP
    let supervisor_bit = 1 << 13;
    let irq_mask = 0;
    cpu.sr_to_flags(supervisor_bit | irq_mask);
    let vec4handler = 0x2F0000;
    let autovector_base = 24;
    let irq = 5;
    cpu.mem.write_long(SUPERVISOR_PROGRAM, (autovector_base + irq) * 4 , vec4handler);
    // opcodes d278,0108 is ADD.W    $0108, D1
    cpu.mem.write_long(SUPERVISOR_PROGRAM, vec4handler, 0xd2780108);
    cpu.execute1(); // will execute STOP
    assert_eq!(ProcessingState::Stopped, cpu.processing_state);
    cpu.int_ctrl.request_interrupt(irq as u8);
    cpu.execute1(); // will trigger interrupt handler
    assert_eq!(ProcessingState::Group1Exception, cpu.processing_state);
    assert_eq!(vec4handler, cpu.pc);
    cpu.execute1(); // should execute first instruction of handler, which is 4 bytes
    assert_eq!(vec4handler + 4, cpu.pc);
}

#[test]
fn pending_interrupt_check_does_not_change_state() {
    // opcodes d200 is ADD.B    D0, D1
    let mut cpu = TestCore::new_mem(0x40, &[0xd2, 0x00]);
    let supervisor_bit = 1 << 13;
    let irq_mask = 0;
    cpu.sr_to_flags(supervisor_bit | irq_mask);
    cpu.int_ctrl.request_interrupt(4);
    assert_eq!(Some(4), cpu.pending_interrupt());
    assert_eq!(Some(4), cpu.pending_interrupt());
    // but is cleared after initiating interrupt handling
    assert_eq!(Cycles(44), cpu.execute1());
    assert_eq!(None, cpu.pending_interrupt());
}

#[test]
fn can_enter_halted_state() {
    // halted state is entered when a second group 0 exception
    // (except external reset) occurs in a group 0 exception handler
    let mut cpu = TestCore::new_mem(0x41, &[0xd2, 0x00]); // d200 is ADD.B D0, D1
    let address_error_handler = 0x2F0001;
    cpu.mem.write_long(SUPERVISOR_PROGRAM, EXCEPTION_ADDRESS_ERROR as u32 * 4, address_error_handler);
    // opcodes d278,0108 is ADD.W    $0108, D1
    cpu.execute1(); // will execute at an odd address, invoking the address error exception handler
    assert_eq!(ProcessingState::Group0Exception, cpu.processing_state);
    cpu.execute1(); // will execute the handler at an odd address,
    // this should trigger a second address error, which should halt the processor
    assert_eq!(ProcessingState::Halted, cpu.processing_state);
    // in the halted state, the only way to win, is not to play.
    // An external reset is needed.
}

#[test]
fn nmi_has_no_effect_in_halted_state() {
    let mut cpu = TestCore::new_mem(0x41, &[0x4e, 0x72]); // 0x4e72 STOP
    cpu.processing_state = ProcessingState::Halted;

    // Normally this would trigger a NMI, but should not in halted state
    cpu.int_ctrl.request_interrupt(7);
    cpu.execute1(); // will do nothing
    assert_eq!(ProcessingState::Halted, cpu.processing_state);
}


struct CustomExceptionHandler
{
    suppress: bool,
    count: isize,
    ex: Option<Exception>
}

impl Callbacks for CustomExceptionHandler {
    fn exception_callback(&mut self, core: &mut TestCore, ex: Exception) -> Result<Cycles> {
        self.count += 1;
        self.ex = Some(ex);

        if !self.suppress {
            Err(ex)
        } else {
            // correct an odd PC
            if core.pc % 2 == 1 {
                core.pc += 1;
            }
            Ok(Cycles(1000))
        }
    }
}

#[test]
fn can_execute_with_state() {
    let odd_initial_address = 0x41;
    let odd_subsequent_address = 0x441;
    let address_error_handler = 0x2F0000;
    // setup an odd PC, in order to cause an Address Error
    let mut cpu = TestCore::new_mem(odd_initial_address, &[0xd2, 0x00]); // d200 is ADD.B D0, D1
    cpu.write_data_long(EXCEPTION_ADDRESS_ERROR as u32 * 4, address_error_handler).unwrap();

    let mut handler = CustomExceptionHandler { suppress: false, count: 0, ex: None };
    let cycles = cpu.execute_with_state(1, &mut handler);
    assert_eq!(1, handler.count);
    assert_eq!(Cycles(50), cycles); // expected number of cycles for initiating an AddressError exception
    assert_eq!(address_error_handler, cpu.pc);
    if let Some(Exception::AddressError { address, .. }) = handler.ex {
        assert_eq!(odd_initial_address, address);
    } else {
        assert!(false);
    }
    // now the exception_callback will not pass through subsequent
    // exceptions, causing normal exception handling to be
    // suppressed. The exception_callback then acts as if some handler
    // took 1000 cycles, and returned to the next instruction
    handler.suppress = true;
    // setup an odd PC, in order to cause another Address Error
    cpu.pc = odd_subsequent_address;
    let cycles = cpu.execute_with_state(1, &mut handler);
    assert_eq!(2, handler.count);
    assert_eq!(Cycles(1000), cycles); // expected number of cycles we faked in our exception_callback
    assert_eq!(odd_subsequent_address + 1, cpu.pc); // our exception_callback jumps to the next even address
    if let Some(Exception::AddressError { address, .. }) = handler.ex {
        assert_eq!(odd_subsequent_address, address);
    } else {
        assert!(false);
    }
}

#[test]
fn exceptions_are_reported_with_their_details() {
    assert_eq!("Illegal Instruction 4afc at 00001000", Exception::IllegalInstruction(0x4afc, 0x1000).to_string());
    assert_eq!("Trap: 20 (ea cyc 34)", Exception::Trap(0x20, 34).to_string());
    assert_eq!("Trap: 05 (ea cyc -4)", Exception::Trap(5, -4).to_string());
    assert_eq!("Privilege Violation 4e72 at 00fffffe", Exception::PrivilegeViolation(0x4e72, 0xfffffe).to_string());
    assert_eq!("Unimplemented Instruction a000 at 00000040", Exception::UnimplementedInstruction(0xa000, 0x40, 10).to_string());
    assert_eq!("Interrupt 5 (vector 1d)", Exception::Interrupt(5, 0x1d).to_string());
    let e = Exception::AddressError {
        address: 0x1001,
        access_type: AccessType::Read,
        processing_state: ProcessingState::Normal,
        address_space: r68k::ram::SUPERVISOR_DATA,
    };
    assert_eq!("Address Error: Read SupervisorData at 00001001 during Normal processing", e.to_string());
    assert_eq!("Address Error", e.description());
    assert_eq!("Illegal Instruction", Exception::IllegalInstruction(0, 0).description());
    assert_eq!("PrivilegeViolation", Exception::PrivilegeViolation(0, 0).description());
    assert_eq!("UnimplementedInstruction", Exception::UnimplementedInstruction(0, 0, 0).description());
    assert_eq!("Trap", Exception::Trap(0, 0).description());
    assert_eq!("Interrupt", Exception::Interrupt(0, 0).description());
}

struct FreeFirstAnswer {
    count: isize,
}

impl Callbacks for FreeFirstAnswer {
    fn exception_callback(&mut self, _core: &mut TestCore, ex: Exception) -> Result<Cycles> {
        self.count += 1;
        if self.count == 1 {
            Ok(Cycles(0))
        } else {
            Err(ex)
        }
    }
}

#[test]
fn a_step_that_takes_no_cycles_does_not_end_the_run() {
    let address_error_handler = 0x2F0000;
    let mut cpu = TestCore::new_mem(0x41, &[0xd2, 0x00]);
    cpu.write_data_long(EXCEPTION_ADDRESS_ERROR as u32 * 4, address_error_handler).unwrap();
    let mut handler = FreeFirstAnswer { count: 0 };
    let cycles = cpu.execute_with_state(1, &mut handler);
    assert_eq!(2, handler.count);
    assert_eq!(Cycles(50), cycles);
    assert_eq!(address_error_handler, cpu.pc);
}

struct RefundFirstAnswer {
    count: isize,
}

impl Callbacks for RefundFirstAnswer {
    fn exception_callback(&mut self, _core: &mut TestCore, ex: Exception) -> Result<Cycles> {
        self.count += 1;
        if self.count == 1 {
            Ok(Cycles(-5))
        } else {
            Err(ex)
        }
    }
}

#[test]
fn a_negative_count_gives_cycles_back_to_the_run() {
    let address_error_handler = 0x2F0000;
    let mut cpu = TestCore::new_mem(0x41, &[0xd2, 0x00]);
    cpu.write_data_long(EXCEPTION_ADDRESS_ERROR as u32 * 4, address_error_handler).unwrap();
    let mut handler = RefundFirstAnswer { count: 0 };
    let cycles = cpu.execute_with_state(1, &mut handler);
    assert_eq!(2, handler.count);
    assert_eq!(Cycles(45), cycles);
    assert_eq!(address_error_handler, cpu.pc);
}
