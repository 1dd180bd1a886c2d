use r68k::dasm::{disassemble, disassemble_first, imm_ea, valid_ea, Exception, Size};
use r68k::dasm::{
    EA_ADDRESS_REGISTER_DIRECT, EA_ALL, EA_ALL_EXCEPT_AN, EA_ALTERABLE, EA_ARI_POSTINCREMENT,
    EA_ARI_PREDECREMENT, EA_CONTROL, EA_CONTROL_ALTERABLE_OR_PD, EA_CONTROL_OR_PI, EA_DATA,
    EA_DATA_ALTERABLE, EA_DATA_REGISTER_DIRECT, EA_IMMEDIATE, EA_MEMORY_ALTERABLE,
    EA_PC_DISPLACEMENT, EA_PC_INDEX,
};
use r68k::dasm::assembler::{encode_instruction, parse_assembler};
use r68k::dasm::memory::{Memory, MemoryVec};
use r68k::dasm::operand::{encode_extension_word, Operand};

#[test]
fn decodes_add_8_er() {
    let mem = MemoryVec { mem: vec![0xd411] };
    let inst = disassemble_first(&mem);
    assert_eq!("ADD", inst.mnemonic);
    assert_eq!(Size::Byte, inst.size);
    assert_eq!(Operand::AddressRegisterIndirect(1), inst.operands[0]);
    assert_eq!(Operand::DataRegisterDirect(2), inst.operands[1]);
    assert_eq!("(A1)", inst.operands[0].to_string());
    assert_eq!("D2", inst.operands[1].to_string());
    assert_eq!("ADD.B\t(A1),D2", inst.to_string());
}

#[test]
fn decodes_add_8_re() {
    let mem = MemoryVec { mem: vec![0xd511] };
    let inst = disassemble_first(&mem);

    assert_eq!("ADD", inst.mnemonic);
    assert_eq!(Size::Byte, inst.size);
    assert_eq!(Operand::DataRegisterDirect(2), inst.operands[0]);
    assert_eq!(Operand::AddressRegisterIndirect(1), inst.operands[1]);
    assert_eq!("D2", inst.operands[0].to_string());
    assert_eq!("(A1)", inst.operands[1].to_string());
    assert_eq!("ADD.B\tD2,(A1)", inst.to_string());
}

#[test]
fn roundtrips_from_opcode() {
    let opcode = 0xd511;
    let mem = &mut MemoryVec { mem: vec![opcode] };
    let text = {
        let inst = disassemble_first(mem);
        inst.to_string()
    };
    let pc = 0;
    let inst = parse_assembler(text.as_str());
    let new_pc = encode_instruction(text.as_str(), &inst, pc, mem);
    assert_eq!(2, new_pc);
    assert_eq!(opcode, mem.read_word(pc));
}

#[test]
fn roundtrips_from_asm() {
    let mem = &mut MemoryVec { mem: vec![0x00, 0x00, 0x00, 0x00] };
    let pc = 0;
    let text = "ADD.B\tD2,(A1)";
    let inst = parse_assembler(text);
    encode_instruction(text, &inst, pc, mem);
    let inst = disassemble_first(mem);

    assert_eq!(text, inst.to_string());
}

#[test]
fn two_word_imm_ea() {
    // ADDI #$12,$34(A0) is 0x0668 0x0012 0x0034
    let dasm_mem = &mut MemoryVec { mem: vec![0x0668, 0x0012, 0x0034] };
    let ops = imm_ea(0x0668, Size::Byte, 0, dasm_mem);
    assert_eq!(ops[0], Operand::Immediate(Size::Byte, 0x12));
    assert_eq!(ops[1], Operand::AddressRegisterIndirectWithDisplacement(0, 0x34));
}

#[test]
fn ea_all_except_an() {
    assert_eq!(EA_ALL_EXCEPT_AN & EA_ADDRESS_REGISTER_DIRECT, 0);
}

#[test]
fn ea_alterable() {
    assert_eq!(EA_ALTERABLE & (EA_IMMEDIATE | EA_PC_DISPLACEMENT | EA_PC_INDEX), 0);
}

#[test]
fn ea_control() {
    assert_eq!(EA_CONTROL, 0x27b);
}

#[test]
fn ea_control_alterable_or_pd() {
    assert_eq!(EA_CONTROL_ALTERABLE_OR_PD & EA_ARI_PREDECREMENT, EA_ARI_PREDECREMENT);
}

#[test]
fn ea_control_or_pi() {
    assert_eq!(EA_CONTROL_OR_PI & EA_ARI_POSTINCREMENT, EA_ARI_POSTINCREMENT);
}

#[test]
fn ea_data() {
    assert_eq!(EA_DATA & (EA_ADDRESS_REGISTER_DIRECT | EA_IMMEDIATE), 0);
}

#[test]
fn ea_data_alterable() {
    assert_eq!(EA_DATA_ALTERABLE, EA_DATA & EA_ALTERABLE);
}

#[test]
fn ea_memory_alterable() {
    assert_eq!(EA_MEMORY_ALTERABLE & (EA_DATA_REGISTER_DIRECT | EA_ADDRESS_REGISTER_DIRECT), 0);
}

#[test]
fn disassembling_an_unknown_word_is_an_illegal_instruction() {
    let mem = MemoryVec { mem: vec![0x0000, 0x4e71] };
    let r = disassemble(2, &mem);
    assert!(matches!(r, Err(Exception::IllegalInstruction(0x4e71, 2))));
}

#[test]
fn decodes_adda_long() {
    let mem = MemoryVec { mem: vec![0xd3c8] };
    let inst = disassemble_first(&mem);
    assert_eq!("ADDA.L\tA0,A1", inst.to_string());
    assert_eq!(1, inst.length());
}

#[test]
fn decodes_addi_word_to_absolute_long() {
    let mem = MemoryVec { mem: vec![0x0679, 0x1234, 0x0001, 0x2345] };
    let inst = disassemble_first(&mem);
    assert_eq!(Operand::Immediate(Size::Word, 0x1234), inst.operands[0]);
    assert_eq!(Operand::AbsoluteLong(0x0001_2345), inst.operands[1]);
    assert_eq!("ADDI.W\t#$1234,$00012345.L", inst.to_string());
    assert_eq!(4, inst.length());
}

#[test]
fn decodes_addi_long_immediate() {
    let mem = MemoryVec { mem: vec![0x0690, 0x1234, 0x5678] };
    let inst = disassemble_first(&mem);
    assert_eq!(Operand::Immediate(Size::Long, 0x1234_5678), inst.operands[0]);
    assert_eq!(Operand::AddressRegisterIndirect(0), inst.operands[1]);
    assert_eq!("ADDI.L\t#$12345678,(A0)", inst.to_string());
    assert_eq!(3, inst.length());
}

#[test]
fn decodes_indexed_and_pc_relative_operands() {
    let mem = MemoryVec { mem: vec![0xd470, 0x1008] };
    let inst = disassemble_first(&mem);
    assert_eq!(Operand::AddressRegisterIndirectWithIndex(0, 1, 8), inst.operands[0]);
    assert_eq!("ADD.W\t8(A0,D1),D2", inst.to_string());

    let mem = MemoryVec { mem: vec![0xd0ba, 0xfffe] };
    let inst = disassemble_first(&mem);
    assert_eq!(Operand::PcWithDisplacement(-2), inst.operands[0]);
    assert_eq!("ADD.L\t-2(PC),D0", inst.to_string());
}

#[test]
fn a_memory_ea_with_data_register_destination_is_illegal_for_dest_ea_forms() {
    // ADD.B D1,D0 written with the destination-ea bit set is ADDX, not ADD
    let mem = MemoryVec { mem: vec![0xd101] };
    assert!(matches!(disassemble(0, &mem), Err(Exception::IllegalInstruction(0xd101, 0))));
}

#[test]
fn operands_are_written_in_assembly_syntax() {
    assert_eq!("$0012", Operand::AbsoluteWord(0x12).to_string());
    assert_eq!("$00012345.L", Operand::AbsoluteLong(0x12345).to_string());
    assert_eq!("#$12345678", Operand::Immediate(Size::Long, 0x1234_5678).to_string());
    assert_eq!("-(A7)", Operand::AddressRegisterIndirectWithPredecrement(7).to_string());
    assert_eq!("(A3)+", Operand::AddressRegisterIndirectWithPostincrement(3).to_string());
    assert_eq!("-128(A1,A6)", Operand::AddressRegisterIndirectWithIndex(1, 14, -128).to_string());
    assert_eq!("-32768(A0)", Operand::AddressRegisterIndirectWithDisplacement(0, -32768).to_string());
    assert_eq!("5(PC,D3)", Operand::PcWithIndex(3, 5).to_string());
    assert_eq!("", Size::Unsized.to_string());
    assert_eq!(".W", Size::Word.to_string());
}

#[test]
fn valid_ea_follows_the_mode_masks() {
    assert!(valid_ea(0x0010, EA_MEMORY_ALTERABLE));
    assert!(!valid_ea(0x0001, EA_MEMORY_ALTERABLE));
    assert!(!valid_ea(0x003d, EA_ALL));
    assert!(valid_ea(0x003c, EA_ALL));
    assert!(!valid_ea(0x003c, EA_DATA_ALTERABLE));
    assert!(valid_ea(0x003f, 0));
}

#[test]
fn extension_words_follow_the_operand() {
    assert_eq!(0x1034, encode_extension_word(1, 0x34));
    assert_eq!(0x9080, encode_extension_word(9, -128));
    assert_eq!(2, Operand::AbsoluteLong(1).extension_words());
    assert_eq!(2, Operand::Immediate(Size::Long, 1).extension_words());
    assert_eq!(1, Operand::Immediate(Size::Byte, 1).extension_words());
    assert_eq!(0, Operand::DataRegisterDirect(1).extension_words());

    let mut mem = MemoryVec { mem: vec![0, 0, 0, 0] };
    let next = Operand::AbsoluteLong(0x1234_5678).add_extension_words(2, &mut mem);
    assert_eq!(6, next);
    assert_eq!(vec![0, 0x1234, 0x5678, 0], mem.mem);
    let next = Operand::DataRegisterDirect(0).add_extension_words(6, &mut mem);
    assert_eq!(6, next);
}

#[test]
fn write_word_gives_back_the_word_it_replaced() {
    let mut mem = MemoryVec { mem: vec![0x1111, 0x2222] };
    assert_eq!(0x2222, mem.write_word(2, 0x3333));
    assert_eq!(0x3333, mem.read_word(2));
    assert_eq!(0x1111, mem.read_word(1));
}

#[test]
fn reassembling_a_disassembled_instruction_gives_back_its_words() {
    let words = vec![0x0679, 0x1234, 0x0001, 0x2345];
    let mem = MemoryVec { mem: words.clone() };
    let inst = disassemble_first(&mem);
    let mut out = MemoryVec { mem: vec![0, 0, 0, 0] };
    let next = encode_instruction("", &inst, 0, &mut out);
    assert_eq!(8, next);
    assert_eq!(words, out.mem);
}

#[test]
fn reassembling_an_indexed_operand_gives_back_its_extension_word() {
    let mem = MemoryVec { mem: vec![0xd470, 0x1008] };
    let inst = disassemble_first(&mem);
    let mut out = MemoryVec { mem: vec![0, 0] };
    encode_instruction("", &inst, 0, &mut out);
    assert_eq!(0xd470, out.mem[0]);
    assert_eq!(0x1008, out.mem[1]);
}

#[test]
fn parses_operands_by_addressing_mode() {
    let inst = parse_assembler("ADDI.L\t#$12345678,$1234");
    assert_eq!("ADDI", inst.mnemonic);
    assert_eq!(Size::Long, inst.size);
    assert_eq!(vec![Operand::Immediate(Size::Long, 0x1234_5678), Operand::AbsoluteWord(0x1234)], inst.operands);

    let inst = parse_assembler("ADD.W -12(A3),D1");
    assert_eq!(vec![Operand::AddressRegisterIndirectWithDisplacement(3, -12), Operand::DataRegisterDirect(1)], inst.operands);

    let inst = parse_assembler("ADD.L  8(A0,A1),D7");
    assert_eq!(Operand::AddressRegisterIndirectWithIndex(0, 9, 8), inst.operands[0]);

    let inst = parse_assembler("ADDA $8000,A2");
    assert_eq!(Size::Unsized, inst.size);
    assert_eq!(Operand::AbsoluteLong(0x8000), inst.operands[0]);
    assert_eq!(Operand::AddressRegisterDirect(2), inst.operands[1]);

    let inst = parse_assembler("TST.B\t-(A0)");
    assert_eq!(vec![Operand::AddressRegisterIndirectWithPredecrement(0)], inst.operands);

    let inst = parse_assembler("ADD.W 4(PC,D2),D0");
    assert_eq!(Operand::PcWithIndex(2, 4), inst.operands[0]);
    let inst = parse_assembler("ADD.W -4(PC),D0");
    assert_eq!(Operand::PcWithDisplacement(-4), inst.operands[0]);
    let inst = parse_assembler("ADD.W $00001234.L,D0");
    assert_eq!(Operand::AbsoluteLong(0x1234), inst.operands[0]);
    let inst = parse_assembler("ADD.W (A5)+,D0");
    assert_eq!(Operand::AddressRegisterIndirectWithPostincrement(5), inst.operands[0]);
}

#[test]
fn disassembled_text_reads_back_as_the_instruction() {
    let programs: Vec<Vec<u16>> = vec![
        vec![0xd470, 0x1008],
        vec![0xd0ba, 0xfffe],
        vec![0x0679, 0x1234, 0x0001, 0x2345],
        vec![0x0690, 0x1234, 0x5678],
        vec![0xd3c8],
        vec![0xd028, 0x8001],
        vec![0xd03c, 0x00ff],
    ];
    for words in programs {
        let mem = MemoryVec { mem: words };
        let inst = disassemble_first(&mem);
        let read = parse_assembler(inst.to_string().as_str());
        assert_eq!(inst.mnemonic, read.mnemonic);
        assert_eq!(inst.size, read.size);
        assert_eq!(inst.operands, read.operands);
    }
}

#[test]
fn a_high_absolute_word_reads_back_as_a_long_address() {
    let mem = MemoryVec { mem: vec![0xd078, 0x8000] };
    let inst = disassemble_first(&mem);
    assert_eq!(Operand::AbsoluteWord(0x8000), inst.operands[0]);
    let read = parse_assembler(inst.to_string().as_str());
    assert_eq!(Operand::AbsoluteLong(0x8000), read.operands[0]);
}

#[test]
fn reassembly_drops_the_extension_bits_the_decoder_ignores() {
    // bits 8 to 11 of a brief extension word are not read
    let mem = MemoryVec { mem: vec![0xd470, 0x1f08] };
    let inst = disassemble_first(&mem);
    let mut out = MemoryVec { mem: vec![0, 0] };
    encode_instruction("", &inst, 0, &mut out);
    assert_eq!(0x1008, out.mem[1]);
}
