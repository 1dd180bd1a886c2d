use r68k::dasm::Size;
use r68k::dasm::assembler::{encode_instruction, parse_assembler};
use r68k::dasm::memory::{Memory, MemoryVec};
use r68k::dasm::operand::Operand;

#[test]
fn encodes_add_8_er() {
    let text = "ADD.B\t(A1),D2";
    let inst = parse_assembler(text);
    assert_eq!("ADD", inst.mnemonic);
    assert_eq!(Size::Byte, inst.size);
    assert_eq!(Operand::AddressRegisterIndirect(1), inst.operands[0]);
    assert_eq!(Operand::DataRegisterDirect(2), inst.operands[1]);
    let mem = &mut MemoryVec { mem: vec![0x00, 0x00, 0x00, 0x00] };
    let pc = 0;
    let new_pc = encode_instruction(text, &inst, pc, mem);
    assert_eq!(2, new_pc);
    assert_eq!(0xd411, mem.read_word(pc));
}

#[test]
fn encodes_add_8_re() {
    let text = "ADD.B\tD2,(A1)";
    let inst = parse_assembler(text);
    assert_eq!("ADD", inst.mnemonic);
    assert_eq!(Size::Byte, inst.size);
    assert_eq!(Operand::DataRegisterDirect(2), inst.operands[0]);
    assert_eq!(Operand::AddressRegisterIndirect(1), inst.operands[1]);
    let mem = &mut MemoryVec { mem: vec![0x00, 0x00, 0x00, 0x00] };
    let pc = 0;
    let new_pc = encode_instruction(text, &inst, pc, mem);
    assert_eq!(2, new_pc);
    assert_eq!(0xd511, mem.read_word(pc));
}

#[test]
fn encodes_addi_with_both_extensions() {
    let text = "ADDI.W\t#$1234,16(A0)";
    let inst = parse_assembler(text);
    let mem = &mut MemoryVec { mem: vec![0, 0, 0, 0, 0] };
    let new_pc = encode_instruction(text, &inst, 2, mem);
    assert_eq!(8, new_pc);
    assert_eq!(vec![0, 0x0668, 0x1234, 0x0010, 0], mem.mem);
}

#[test]
fn encodes_register_to_register_add_as_ea_to_dx() {
    let text = "ADD.L\tD1,D2";
    let inst = parse_assembler(text);
    let mem = &mut MemoryVec { mem: vec![0] };
    encode_instruction(text, &inst, 0, mem);
    assert_eq!(0xd481, mem.read_word(0));
}

#[test]
fn a_unicode_space_separates_the_operands_from_the_mnemonic() {
    let inst = parse_assembler("ADD.B\u{a0}(A1),D2");
    assert_eq!("ADD", inst.mnemonic);
    assert_eq!(Operand::AddressRegisterIndirect(1), inst.operands[0]);
    assert_eq!(Operand::DataRegisterDirect(2), inst.operands[1]);
}
