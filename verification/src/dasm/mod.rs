use vstd::prelude::*;

pub mod memory;
pub mod operand;
pub mod assembler;
pub mod syntax;
pub mod laws;

use crate::dasm::memory::Memory;
use crate::dasm::operand::{Operand, operand_text};

verus! {

/// What went wrong while disassembling.
#[derive(Debug, PartialEq, Eq, Structural)]
pub enum Exception {
    /// The word at `pc` (`ir`, `pc`) is no instruction the table knows.
    IllegalInstruction(u16, u32),
}

/// The operation size an instruction carries.
#[derive(Clone, Copy, Debug, PartialEq, Eq, Structural)]
pub enum Size {
    Unsized,
    Byte,
    Word,
    Long,
}

pub const OP_ADD: u32 = 0b1101_0000_0000_0000;
pub const OP_ADDI: u32 = 0b0000_0110_0000_0000;

pub const BYTE_SIZED: u32 = 0x00;
pub const WORD_SIZED: u32 = 0x40;
pub const LONG_SIZED: u32 = 0x80;

pub const DEST_DX: u32 = 0x000;
pub const DEST_EA: u32 = 0x100;
// ADDA does not follow the ADD pattern for 'oper' so it has constants of
// its own.
pub const DEST_AX_WORD: u32 = 0x0C0;
pub const DEST_AX_LONG: u32 = 0x1C0;

/// Masks out X and Y register bits, plus mode (????xxx???mmmyyy).
pub const MASK_OUT_X_EA: u32 = 0b1111000111000000;
/// Masks out Y register bits, plus mode (??????????mmmyyy).
pub const MASK_OUT_EA: u32 = 0b1111111111000000;

pub const EA_DATA_REGISTER_DIRECT: u16 = 0b1000_0000_0000;
pub const EA_ADDRESS_REGISTER_DIRECT: u16 = 0b0100_0000_0000;
pub const EA_ADDRESS_REGISTER_INDIRECT: u16 = 0b0010_0000_0000;
pub const EA_ARI_POSTINCREMENT: u16 = 0b0001_0000_0000;
pub const EA_ARI_PREDECREMENT: u16 = 0b0000_1000_0000;
pub const EA_ARI_DISPLACEMENT: u16 = 0b0000_0100_0000;
pub const EA_ARI_INDEX: u16 = 0b0000_0010_0000;
pub const EA_ABSOLUTE_SHORT: u16 = 0b0000_0001_0000;
pub const EA_ABSOLUTE_LONG: u16 = 0b0000_0000_1000;
pub const EA_IMMEDIATE: u16 = 0b0000_0000_0100;
pub const EA_PC_DISPLACEMENT: u16 = 0b0000_0000_0010;
pub const EA_PC_INDEX: u16 = 0b0000_0000_0001;

pub const EA_ALL: u16 = 0xfff;
pub const EA_ALL_EXCEPT_AN: u16 = EA_ALL & !EA_ADDRESS_REGISTER_DIRECT;
pub const EA_ALTERABLE: u16 = EA_DATA_REGISTER_DIRECT | EA_ADDRESS_REGISTER_DIRECT
    | EA_ADDRESS_REGISTER_INDIRECT | EA_ARI_POSTINCREMENT | EA_ARI_PREDECREMENT
    | EA_ARI_DISPLACEMENT | EA_ARI_INDEX | EA_ABSOLUTE_SHORT | EA_ABSOLUTE_LONG;
pub const EA_CONTROL: u16 = EA_ADDRESS_REGISTER_INDIRECT | EA_ARI_DISPLACEMENT | EA_ARI_INDEX
    | EA_ABSOLUTE_SHORT | EA_ABSOLUTE_LONG | EA_PC_DISPLACEMENT | EA_PC_INDEX;
pub const EA_CONTROL_ALTERABLE_OR_PD: u16 = EA_CONTROL & EA_ALTERABLE | EA_ARI_PREDECREMENT;
pub const EA_CONTROL_OR_PI: u16 = EA_CONTROL | EA_ARI_POSTINCREMENT;
pub const EA_DATA: u16 = EA_ALL & !(EA_ADDRESS_REGISTER_DIRECT | EA_IMMEDIATE);
pub const EA_DATA_ALTERABLE: u16 = EA_DATA & EA_ALTERABLE;
pub const EA_MEMORY_ALTERABLE: u16 = EA_ALTERABLE & !(EA_DATA_REGISTER_DIRECT
    | EA_ADDRESS_REGISTER_DIRECT);
pub const EA_NONE: u16 = 0x000;

/// How a table entry reads its operands from the instruction.
#[derive(Clone, Copy, Debug, PartialEq, Eq, Structural)]
pub enum OperandDecoder {
    EaDx,
    EaAx,
    DxEa,
    ImmEa,
}

/// Which parsed instructions a table entry can assemble.
#[derive(Clone, Copy, Debug, PartialEq, Eq, Structural)]
pub enum InstructionSelector {
    IsEaDx,
    IsEaAx,
    IsDxEa,
    IsImmEa,
}

/// How a table entry writes an instruction back to memory.
#[derive(Clone, Copy, Debug, PartialEq, Eq, Structural)]
pub enum InstructionEncoder {
    EncodeEaDx,
    EncodeEaAx,
    EncodeDxEa,
    EncodeImmEa,
}

/// One entry of the instruction table: an opcode matches it when
/// `opcode & mask == matching` and its effective address is one of
/// `ea_mask`.
#[derive(Clone, Copy)]
pub struct OpcodeInfo {
    pub mask: u32,
    pub matching: u32,
    pub ea_mask: u16,
    pub size: Size,
    pub decoder: OperandDecoder,
    pub mnemonic: &'static str,
    pub encoder: InstructionEncoder,
    pub selector: InstructionSelector,
}

/// A decoded (or parsed) instruction.
#[derive(Debug)]
pub struct OpcodeInstance {
    pub mnemonic: String,
    pub size: Size,
    pub operands: Vec<Operand>,
}

pub open spec fn entry(
    mask: u32,
    matching: u32,
    ea_mask: u16,
    size: Size,
    mnemonic: &'static str,
    decoder: OperandDecoder,
    selector: InstructionSelector,
    encoder: InstructionEncoder,
) -> OpcodeInfo {
    OpcodeInfo { mask, matching, ea_mask, size, decoder, mnemonic, encoder, selector }
}

/// The instruction table, in the order it is searched.
pub open spec fn optable() -> Seq<OpcodeInfo> {
    seq![
        entry(MASK_OUT_X_EA, OP_ADD | BYTE_SIZED | DEST_EA, EA_MEMORY_ALTERABLE, Size::Byte, "ADD", OperandDecoder::DxEa, InstructionSelector::IsDxEa, InstructionEncoder::EncodeDxEa),
        entry(MASK_OUT_X_EA, OP_ADD | BYTE_SIZED | DEST_DX, EA_ALL_EXCEPT_AN, Size::Byte, "ADD", OperandDecoder::EaDx, InstructionSelector::IsEaDx, InstructionEncoder::EncodeEaDx),
        entry(MASK_OUT_X_EA, OP_ADD | WORD_SIZED | DEST_EA, EA_MEMORY_ALTERABLE, Size::Word, "ADD", OperandDecoder::DxEa, InstructionSelector::IsDxEa, InstructionEncoder::EncodeDxEa),
        entry(MASK_OUT_X_EA, OP_ADD | WORD_SIZED | DEST_DX, EA_ALL, Size::Word, "ADD", OperandDecoder::EaDx, InstructionSelector::IsEaDx, InstructionEncoder::EncodeEaDx),
        entry(MASK_OUT_X_EA, OP_ADD | LONG_SIZED | DEST_EA, EA_MEMORY_ALTERABLE, Size::Long, "ADD", OperandDecoder::DxEa, InstructionSelector::IsDxEa, InstructionEncoder::EncodeDxEa),
        entry(MASK_OUT_X_EA, OP_ADD | LONG_SIZED | DEST_DX, EA_ALL, Size::Long, "ADD", OperandDecoder::EaDx, InstructionSelector::IsEaDx, InstructionEncoder::EncodeEaDx),
        entry(MASK_OUT_X_EA, OP_ADD | DEST_AX_WORD, EA_ALL, Size::Word, "ADDA", OperandDecoder::EaAx, InstructionSelector::IsEaAx, InstructionEncoder::EncodeEaAx),
        entry(MASK_OUT_X_EA, OP_ADD | DEST_AX_LONG, EA_ALL, Size::Long, "ADDA", OperandDecoder::EaAx, InstructionSelector::IsEaAx, InstructionEncoder::EncodeEaAx),
        entry(MASK_OUT_EA, OP_ADDI | BYTE_SIZED, EA_DATA_ALTERABLE, Size::Byte, "ADDI", OperandDecoder::ImmEa, InstructionSelector::IsImmEa, InstructionEncoder::EncodeImmEa),
        entry(MASK_OUT_EA, OP_ADDI | WORD_SIZED, EA_DATA_ALTERABLE, Size::Word, "ADDI", OperandDecoder::ImmEa, InstructionSelector::IsImmEa, InstructionEncoder::EncodeImmEa),
        entry(MASK_OUT_EA, OP_ADDI | LONG_SIZED, EA_DATA_ALTERABLE, Size::Long, "ADDI", OperandDecoder::ImmEa, InstructionSelector::IsImmEa, InstructionEncoder::EncodeImmEa),
    ]
}

fn info(
    mask: u32,
    matching: u32,
    ea_mask: u16,
    size: Size,
    mnemonic: &'static str,
    decoder: OperandDecoder,
    selector: InstructionSelector,
    encoder: InstructionEncoder,
) -> (r: OpcodeInfo)
    ensures
        r == entry(mask, matching, ea_mask, size, mnemonic, decoder, selector, encoder),
{
    OpcodeInfo { mask, matching, ea_mask, size, decoder, mnemonic, encoder, selector }
}

/// Builds the instruction table.
pub fn generate() -> (r: Vec<OpcodeInfo>)
    ensures
        r@ == optable(),
{
    let r = vec![
        info(MASK_OUT_X_EA, OP_ADD | BYTE_SIZED | DEST_EA, EA_MEMORY_ALTERABLE, Size::Byte, "ADD", OperandDecoder::DxEa, InstructionSelector::IsDxEa, InstructionEncoder::EncodeDxEa),
        info(MASK_OUT_X_EA, OP_ADD | BYTE_SIZED | DEST_DX, EA_ALL_EXCEPT_AN, Size::Byte, "ADD", OperandDecoder::EaDx, InstructionSelector::IsEaDx, InstructionEncoder::EncodeEaDx),
        info(MASK_OUT_X_EA, OP_ADD | WORD_SIZED | DEST_EA, EA_MEMORY_ALTERABLE, Size::Word, "ADD", OperandDecoder::DxEa, InstructionSelector::IsDxEa, InstructionEncoder::EncodeDxEa),
        info(MASK_OUT_X_EA, OP_ADD | WORD_SIZED | DEST_DX, EA_ALL, Size::Word, "ADD", OperandDecoder::EaDx, InstructionSelector::IsEaDx, InstructionEncoder::EncodeEaDx),
        info(MASK_OUT_X_EA, OP_ADD | LONG_SIZED | DEST_EA, EA_MEMORY_ALTERABLE, Size::Long, "ADD", OperandDecoder::DxEa, InstructionSelector::IsDxEa, InstructionEncoder::EncodeDxEa),
        info(MASK_OUT_X_EA, OP_ADD | LONG_SIZED | DEST_DX, EA_ALL, Size::Long, "ADD", OperandDecoder::EaDx, InstructionSelector::IsEaDx, InstructionEncoder::EncodeEaDx),
        info(MASK_OUT_X_EA, OP_ADD | DEST_AX_WORD, EA_ALL, Size::Word, "ADDA", OperandDecoder::EaAx, InstructionSelector::IsEaAx, InstructionEncoder::EncodeEaAx),
        info(MASK_OUT_X_EA, OP_ADD | DEST_AX_LONG, EA_ALL, Size::Long, "ADDA", OperandDecoder::EaAx, InstructionSelector::IsEaAx, InstructionEncoder::EncodeEaAx),
        info(MASK_OUT_EA, OP_ADDI | BYTE_SIZED, EA_DATA_ALTERABLE, Size::Byte, "ADDI", OperandDecoder::ImmEa, InstructionSelector::IsImmEa, InstructionEncoder::EncodeImmEa),
        info(MASK_OUT_EA, OP_ADDI | WORD_SIZED, EA_DATA_ALTERABLE, Size::Word, "ADDI", OperandDecoder::ImmEa, InstructionSelector::IsImmEa, InstructionEncoder::EncodeImmEa),
        info(MASK_OUT_EA, OP_ADDI | LONG_SIZED, EA_DATA_ALTERABLE, Size::Long, "ADDI", OperandDecoder::ImmEa, InstructionSelector::IsImmEa, InstructionEncoder::EncodeImmEa),
    ];
    assert(r@ =~= optable());
    r
}

/// The word that holds address `addr`.
pub open spec fn word_at(w: Seq<u16>, addr: int) -> u16 {
    w[addr / 2]
}

pub open spec fn ea_mode(opcode: u16) -> u16 {
    (opcode >> 3u16) & 7
}

pub open spec fn ea_reg(opcode: u16) -> u16 {
    opcode & 7
}

pub open spec fn reg_x(opcode: u16) -> u16 {
    (opcode >> 9u16) & 7
}

/// Whether the effective address field names a mode the decoder knows,
/// immediate data needing a size.
pub open spec fn ea_decodable(opcode: u16, size: Size) -> bool {
    ea_mode(opcode) != 7 || ea_reg(opcode) < 4 || (ea_reg(opcode) == 4 && size != Size::Unsized)
}

/// How many words immediate data of `size` takes.
pub open spec fn imm_words(size: Size) -> nat {
    if size == Size::Long { 2 } else { 1 }
}

/// How many extension words the effective address field reads.
pub open spec fn ea_words(opcode: u16, size: Size) -> nat {
    let mode = ea_mode(opcode);
    let reg = ea_reg(opcode);
    if mode == 5 || mode == 6 {
        1
    } else if mode == 7 {
        if reg == 1 { 2 } else if reg == 4 { imm_words(size) } else { 1 }
    } else {
        0
    }
}

/// The `n` words after `pc` can be read.
pub open spec fn reads_ok(pc: u32, n: nat, w: Seq<u16>) -> bool {
    n == 0 || (pc + 2 * n <= u32::MAX && pc / 2 + n < w.len())
}

/// The two words at `addr` as one long, high word first.
pub open spec fn long_at(w: Seq<u16>, addr: int) -> u32 {
    ((word_at(w, addr) as u32) << 16u32) | (word_at(w, addr + 2) as u32)
}

/// Immediate data of `size` following the word at `pc`.
pub open spec fn imm_operand(size: Size, pc: u32, w: Seq<u16>) -> Operand {
    match size {
        Size::Byte => Operand::Immediate(size, (word_at(w, pc + 2) & 0xFF) as u32),
        Size::Long => Operand::Immediate(size, long_at(w, pc + 2)),
        _ => Operand::Immediate(size, word_at(w, pc + 2) as u32),
    }
}

/// The operand the effective address field of `opcode` stands for, its
/// extension words following the word at `pc`.
pub open spec fn ea_operand(opcode: u16, size: Size, pc: u32, w: Seq<u16>) -> Operand {
    let reg_y = ea_reg(opcode) as u8;
    let ext = word_at(w, pc + 2);
    let mode = ea_mode(opcode);
    if mode == 0 {
        Operand::DataRegisterDirect(reg_y)
    } else if mode == 1 {
        Operand::AddressRegisterDirect(reg_y)
    } else if mode == 2 {
        Operand::AddressRegisterIndirect(reg_y)
    } else if mode == 3 {
        Operand::AddressRegisterIndirectWithPostincrement(reg_y)
    } else if mode == 4 {
        Operand::AddressRegisterIndirectWithPredecrement(reg_y)
    } else if mode == 5 {
        Operand::AddressRegisterIndirectWithDisplacement(reg_y, ext as i16)
    } else if mode == 6 {
        Operand::AddressRegisterIndirectWithIndex(reg_y, (ext >> 12u16) as u8, ext as i8)
    } else if reg_y == 2 {
        Operand::PcWithDisplacement(ext as i16)
    } else if reg_y == 3 {
        Operand::PcWithIndex((ext >> 12u16) as u8, ext as i8)
    } else if reg_y == 0 {
        Operand::AbsoluteWord(ext)
    } else if reg_y == 1 {
        Operand::AbsoluteLong(long_at(w, pc + 2))
    } else {
        imm_operand(size, pc, w)
    }
}

pub proof fn lemma_ea_fields(opcode: u16)
    ensures
        ea_mode(opcode) < 8,
        ea_reg(opcode) < 8,
        reg_x(opcode) < 8,
        opcode & 0x3f == ea_mode(opcode) * 8 + ea_reg(opcode),
{
    assert(((opcode >> 3u16) & 7) < 8 && (opcode & 7) < 8 && ((opcode >> 9u16) & 7) < 8
        && opcode & 0x3f == ((opcode >> 3u16) & 7) * 8 + (opcode & 7)) by (bit_vector);
}

/// The index register (with its D/A bit) and the displacement of a brief
/// extension word.
pub fn parse_extension_word(extension: u16) -> (r: (u8, i8))
    ensures
        r == ((extension >> 12u16) as u8, extension as i8),
{
    // top four bits = (D/A RRR) matches our register array layout
    let xreg_ndx_size = (extension >> 12u16) as u8;
    let displacement = extension as i8;
    (xreg_ndx_size, displacement)
}

fn read_long<M: Memory>(addr: u32, mem: &M) -> (r: u32)
    requires
        addr + 2 <= u32::MAX,
        addr / 2 + 1 < mem.words().len(),
    ensures
        r == long_at(mem.words(), addr as int),
{
    ((mem.read_word(addr) as u32) << 16u32) | mem.read_word(addr + 2) as u32
}

pub fn get_imm<M: Memory>(size: Size, pc: u32, mem: &M) -> (r: Operand)
    requires
        size != Size::Unsized,
        reads_ok(pc, imm_words(size), mem.words()),
    ensures
        r == imm_operand(size, pc, mem.words()),
        r.spec_extension_words() == imm_words(size),
{
    match size {
        Size::Byte => Operand::Immediate(size, (mem.read_word(pc + 2) & 0xFF) as u32),
        Size::Long => Operand::Immediate(size, read_long(pc + 2, mem)),
        _ => Operand::Immediate(size, mem.read_word(pc + 2) as u32),
    }
}

pub fn get_ea<M: Memory>(opcode: u16, size: Size, pc: u32, mem: &M) -> (r: Operand)
    requires
        ea_decodable(opcode, size),
        reads_ok(pc, ea_words(opcode, size), mem.words()),
    ensures
        r == ea_operand(opcode, size, pc, mem.words()),
        r.spec_extension_words() == ea_words(opcode, size),
{
    proof {
        lemma_ea_fields(opcode);
    }
    let mode = ((opcode >> 3u16) & 7) as u8;
    let reg_y = (opcode & 7) as u8;
    match mode {
        0 => Operand::DataRegisterDirect(reg_y),
        1 => Operand::AddressRegisterDirect(reg_y),
        2 => Operand::AddressRegisterIndirect(reg_y),
        3 => Operand::AddressRegisterIndirectWithPostincrement(reg_y),
        4 => Operand::AddressRegisterIndirectWithPredecrement(reg_y),
        5 => Operand::AddressRegisterIndirectWithDisplacement(reg_y, mem.read_word(pc + 2) as i16),
        6 => {
            let (indexinfo, displacement) = parse_extension_word(mem.read_word(pc + 2));
            Operand::AddressRegisterIndirectWithIndex(reg_y, indexinfo, displacement)
        },
        _ => match reg_y {
            2 => Operand::PcWithDisplacement(mem.read_word(pc + 2) as i16),
            3 => {
                let (indexinfo, displacement) = parse_extension_word(mem.read_word(pc + 2));
                Operand::PcWithIndex(indexinfo, displacement)
            },
            0 => Operand::AbsoluteWord(mem.read_word(pc + 2)),
            1 => Operand::AbsoluteLong(read_long(pc + 2, mem)),
            _ => get_imm(size, pc, mem),
        },
    }
}

pub fn get_dx(opcode: u16) -> (r: Operand)
    ensures
        r == Operand::DataRegisterDirect(reg_x(opcode) as u8),
{
    Operand::DataRegisterDirect(((opcode >> 9u16) & 7) as u8)
}

pub fn get_ax(opcode: u16) -> (r: Operand)
    ensures
        r == Operand::AddressRegisterDirect(reg_x(opcode) as u8),
{
    Operand::AddressRegisterDirect(((opcode >> 9u16) & 7) as u8)
}

/// Whether `decoder` can decode `opcode` at all.
pub open spec fn decoder_ok(decoder: OperandDecoder, opcode: u16, size: Size) -> bool {
    ea_decodable(opcode, size) && (decoder == OperandDecoder::ImmEa ==> size != Size::Unsized)
}

/// How many words after the operation word `decoder` reads.
pub open spec fn decoder_words(decoder: OperandDecoder, opcode: u16, size: Size) -> nat {
    if decoder == OperandDecoder::ImmEa {
        imm_words(size) + ea_words(opcode, size)
    } else {
        ea_words(opcode, size)
    }
}

/// The operands `decoder` reads for `opcode` at `pc`.
pub open spec fn decode_operands(
    decoder: OperandDecoder,
    opcode: u16,
    size: Size,
    pc: u32,
    w: Seq<u16>,
) -> Seq<Operand> {
    let ea = ea_operand(opcode, size, pc, w);
    match decoder {
        OperandDecoder::EaDx => seq![ea, Operand::DataRegisterDirect(reg_x(opcode) as u8)],
        OperandDecoder::EaAx => seq![ea, Operand::AddressRegisterDirect(reg_x(opcode) as u8)],
        OperandDecoder::DxEa => seq![Operand::DataRegisterDirect(reg_x(opcode) as u8), ea],
        OperandDecoder::ImmEa => seq![
            imm_operand(size, pc, w),
            ea_operand(opcode, size, (pc + 2 * imm_words(size)) as u32, w),
        ],
    }
}

pub fn ea_dx<M: Memory>(opcode: u16, size: Size, pc: u32, mem: &M) -> (r: Vec<Operand>)
    requires
        decoder_ok(OperandDecoder::EaDx, opcode, size),
        reads_ok(pc, decoder_words(OperandDecoder::EaDx, opcode, size), mem.words()),
    ensures
        r@ == decode_operands(OperandDecoder::EaDx, opcode, size, pc, mem.words()),
{
    vec![get_ea(opcode, size, pc, mem), get_dx(opcode)]
}

pub fn ea_ax<M: Memory>(opcode: u16, size: Size, pc: u32, mem: &M) -> (r: Vec<Operand>)
    requires
        decoder_ok(OperandDecoder::EaAx, opcode, size),
        reads_ok(pc, decoder_words(OperandDecoder::EaAx, opcode, size), mem.words()),
    ensures
        r@ == decode_operands(OperandDecoder::EaAx, opcode, size, pc, mem.words()),
{
    vec![get_ea(opcode, size, pc, mem), get_ax(opcode)]
}

pub fn dx_ea<M: Memory>(opcode: u16, size: Size, pc: u32, mem: &M) -> (r: Vec<Operand>)
    requires
        decoder_ok(OperandDecoder::DxEa, opcode, size),
        reads_ok(pc, decoder_words(OperandDecoder::DxEa, opcode, size), mem.words()),
    ensures
        r@ == decode_operands(OperandDecoder::DxEa, opcode, size, pc, mem.words()),
{
    vec![get_dx(opcode), get_ea(opcode, size, pc, mem)]
}

pub fn imm_ea<M: Memory>(opcode: u16, size: Size, pc: u32, mem: &M) -> (r: Vec<Operand>)
    requires
        decoder_ok(OperandDecoder::ImmEa, opcode, size),
        reads_ok(pc, decoder_words(OperandDecoder::ImmEa, opcode, size), mem.words()),
    ensures
        r@ == decode_operands(OperandDecoder::ImmEa, opcode, size, pc, mem.words()),
{
    let imm = get_imm(size, pc, mem);
    let at = pc + imm.extension_words() * 2;
    vec![imm, get_ea(opcode, size, at, mem)]
}

fn decode<M: Memory>(decoder: OperandDecoder, opcode: u16, size: Size, pc: u32, mem: &M) -> (r: Vec<
    Operand,
>)
    requires
        decoder_ok(decoder, opcode, size),
        reads_ok(pc, decoder_words(decoder, opcode, size), mem.words()),
    ensures
        r@ == decode_operands(decoder, opcode, size, pc, mem.words()),
{
    match decoder {
        OperandDecoder::EaDx => ea_dx(opcode, size, pc, mem),
        OperandDecoder::EaAx => ea_ax(opcode, size, pc, mem),
        OperandDecoder::DxEa => dx_ea(opcode, size, pc, mem),
        OperandDecoder::ImmEa => imm_ea(opcode, size, pc, mem),
    }
}

/// Whether the effective address of `opcode` is one of the modes in
/// `mask` (an empty mask allows all).
pub open spec fn ea_allowed(opcode: u16, mask: u16) -> bool {
    let m = opcode & 0x3f;
    if mask == 0 {
        true
    } else if m <= 0x07 {
        (mask & EA_DATA_REGISTER_DIRECT) != 0
    } else if m <= 0x0f {
        (mask & EA_ADDRESS_REGISTER_DIRECT) != 0
    } else if m <= 0x17 {
        (mask & EA_ADDRESS_REGISTER_INDIRECT) != 0
    } else if m <= 0x1f {
        (mask & EA_ARI_POSTINCREMENT) != 0
    } else if m <= 0x27 {
        (mask & EA_ARI_PREDECREMENT) != 0
    } else if m <= 0x2f {
        (mask & EA_ARI_DISPLACEMENT) != 0
    } else if m <= 0x37 {
        (mask & EA_ARI_INDEX) != 0
    } else if m == 0x38 {
        (mask & EA_ABSOLUTE_SHORT) != 0
    } else if m == 0x39 {
        (mask & EA_ABSOLUTE_LONG) != 0
    } else if m == 0x3a {
        (mask & EA_PC_DISPLACEMENT) != 0
    } else if m == 0x3b {
        (mask & EA_PC_INDEX) != 0
    } else if m == 0x3c {
        (mask & EA_IMMEDIATE) != 0
    } else {
        false
    }
}

/// Checks whether `opcode` is using a valid ea mode.
pub fn valid_ea(opcode: u16, mask: u16) -> (r: bool)
    ensures
        r == ea_allowed(opcode, mask),
{
    let m = opcode & 0x3f;
    if mask == 0 {
        true
    } else if m <= 0x07 {
        (mask & EA_DATA_REGISTER_DIRECT) != 0
    } else if m <= 0x0f {
        (mask & EA_ADDRESS_REGISTER_DIRECT) != 0
    } else if m <= 0x17 {
        (mask & EA_ADDRESS_REGISTER_INDIRECT) != 0
    } else if m <= 0x1f {
        (mask & EA_ARI_POSTINCREMENT) != 0
    } else if m <= 0x27 {
        (mask & EA_ARI_PREDECREMENT) != 0
    } else if m <= 0x2f {
        (mask & EA_ARI_DISPLACEMENT) != 0
    } else if m <= 0x37 {
        (mask & EA_ARI_INDEX) != 0
    } else if m == 0x38 {
        (mask & EA_ABSOLUTE_SHORT) != 0
    } else if m == 0x39 {
        (mask & EA_ABSOLUTE_LONG) != 0
    } else if m == 0x3a {
        (mask & EA_PC_DISPLACEMENT) != 0
    } else if m == 0x3b {
        (mask & EA_PC_INDEX) != 0
    } else if m == 0x3c {
        (mask & EA_IMMEDIATE) != 0
    } else {
        false
    }
}

/// Whether `opcode` is an instance of table entry `i`.
pub open spec fn row_matches(opcode: u16, i: int) -> bool {
    (opcode as u32) & optable()[i].mask == optable()[i].matching && ea_allowed(
        opcode,
        optable()[i].ea_mask,
    )
}

pub open spec fn first_match_from(opcode: u16, i: int) -> Option<int>
    decreases 11 - i,
{
    if i < 0 || i >= 11 {
        None
    } else if row_matches(opcode, i) {
        Some(i)
    } else {
        first_match_from(opcode, i + 1)
    }
}

/// The first table entry `opcode` is an instance of.
pub open spec fn first_match(opcode: u16) -> Option<int> {
    first_match_from(opcode, 0)
}

/// The values of the composite addressing-mode masks.
pub proof fn lemma_ea_masks()
    ensures
        EA_ALL_EXCEPT_AN == 0xbff,
        EA_ALTERABLE == 0xff8,
        EA_CONTROL == 0x27b,
        EA_CONTROL_ALTERABLE_OR_PD == 0x2f8,
        EA_CONTROL_OR_PI == 0x37b,
        EA_DATA == 0xbfb,
        EA_DATA_ALTERABLE == 0xbf8,
        EA_MEMORY_ALTERABLE == 0x3f8,
{
    assert(EA_ALL_EXCEPT_AN == 0xbff && EA_ALTERABLE == 0xff8 && EA_CONTROL == 0x27b
        && EA_CONTROL_ALTERABLE_OR_PD == 0x2f8 && EA_CONTROL_OR_PI == 0x37b && EA_DATA == 0xbfb
        && EA_DATA_ALTERABLE == 0xbf8 && EA_MEMORY_ALTERABLE == 0x3f8) by (bit_vector);
}

proof fn lemma_first_match_bounds(opcode: u16, i: int)
    requires
        0 <= i <= 11,
    ensures
        first_match_from(opcode, i) matches Some(j) ==> i <= j < 11 && row_matches(opcode, j),
    decreases 11 - i,
{
    if i < 11 && !row_matches(opcode, i) {
        lemma_first_match_bounds(opcode, i + 1);
    }
}

/// An opcode that matches a table entry can be decoded by it.
proof fn lemma_match_decodable(opcode: u16, i: int)
    requires
        0 <= i < 11,
        row_matches(opcode, i),
    ensures
        decoder_ok(optable()[i].decoder, opcode, optable()[i].size),
{
    lemma_ea_masks();
    lemma_ea_fields(opcode);
}

/// Where the disassembler can read all it needs of the instruction at `pc`.
pub open spec fn can_disassemble(pc: u32, w: Seq<u16>) -> bool {
    let opcode = word_at(w, pc as int);
    &&& pc / 2 < w.len()
    &&& match first_match(opcode) {
        Some(i) => reads_ok(
            pc,
            decoder_words(optable()[i].decoder, opcode, optable()[i].size),
            w,
        ),
        None => true,
    }
}

/// `inst` is entry `info` with `operands`.
pub open spec fn instance_of(inst: OpcodeInstance, info: OpcodeInfo, operands: Seq<Operand>) -> bool {
    &&& inst.mnemonic@ == info.mnemonic@
    &&& inst.size == info.size
    &&& inst.operands@ == operands
}

/// The instruction at `pc` decodes to `inst`, by the entry it first matches.
pub open spec fn decodes_to(pc: u32, w: Seq<u16>, inst: OpcodeInstance) -> bool {
    let opcode = word_at(w, pc as int);
    match first_match(opcode) {
        Some(i) => instance_of(
            inst,
            optable()[i],
            decode_operands(optable()[i].decoder, opcode, optable()[i].size, pc, w),
        ),
        None => false,
    }
}

pub fn disassemble<M: Memory>(pc: u32, mem: &M) -> (r: Result<OpcodeInstance, Exception>)
    requires
        can_disassemble(pc, mem.words()),
    ensures
        first_match(word_at(mem.words(), pc as int)) is None ==> r == Err::<
            OpcodeInstance,
            Exception,
        >(Exception::IllegalInstruction(word_at(mem.words(), pc as int), pc)),
        first_match(word_at(mem.words(), pc as int)) is Some ==> (r matches Ok(inst) && decodes_to(
            pc,
            mem.words(),
            inst,
        )),
{
    let table = generate();
    let opcode = mem.read_word(pc);
    let mut i: usize = 0;
    while i < table.len()
        invariant
            table@ == optable(),
            0 <= i <= 11,
            opcode == word_at(mem.words(), pc as int),
            can_disassemble(pc, mem.words()),
            first_match(opcode) == first_match_from(opcode, i as int),
        decreases 11 - i,
    {
        let op = table[i];
        if ((opcode as u32) & op.mask) == op.matching && valid_ea(opcode, op.ea_mask) {
            proof {
                lemma_match_decodable(opcode, i as int);
            }
            let operands = decode(op.decoder, opcode, op.size, pc, mem);
            let mut mnemonic = String::new();
            mnemonic.append(op.mnemonic);
            assert(mnemonic@ =~= op.mnemonic@);
            return Ok(OpcodeInstance { mnemonic, size: op.size, operands });
        }
        i += 1;
    }
    Err(Exception::IllegalInstruction(opcode, pc))
}

/// Disassembles the instruction at address 0, which must be one the table
/// knows.
pub fn disassemble_first<M: Memory>(mem: &M) -> (r: OpcodeInstance)
    requires
        can_disassemble(0, mem.words()),
        first_match(word_at(mem.words(), 0)) is Some,
    ensures
        decodes_to(0, mem.words(), r),
{
    match disassemble(0, mem) {
        Ok(inst) => inst,
        Err(_) => {
            proof {
                assert(false);
            }
            OpcodeInstance { mnemonic: String::new(), size: Size::Unsized, operands: Vec::new() }
        },
    }
}

/// The number of extension words of `ops` together.
pub open spec fn sum_ext(ops: Seq<Operand>) -> nat
    decreases ops.len(),
{
    if ops.len() == 0 {
        0
    } else {
        sum_ext(ops.drop_last()) + ops.last().spec_extension_words()
    }
}

impl OpcodeInstance {
    /// The instruction's length in words.
    pub open spec fn spec_length(&self) -> nat {
        1 + sum_ext(self.operands@)
    }

    pub fn length(&self) -> (r: u32)
        requires
            self.operands.len() < 0x7fff_ffff,
        ensures
            r == self.spec_length(),
    {
        let mut total: u32 = 1;
        let mut i: usize = 0;
        while i < self.operands.len()
            invariant
                i <= self.operands.len() < 0x7fff_ffff,
                total == 1 + sum_ext(self.operands@.subrange(0, i as int)),
                total <= 1 + 2 * i,
            decreases self.operands.len() - i,
        {
            proof {
                assert(self.operands@.subrange(0, i + 1).drop_last() =~= self.operands@.subrange(
                    0,
                    i as int,
                ));
            }
            total = total + self.operands[i].extension_words();
            i += 1;
        }
        assert(self.operands@.subrange(0, i as int) =~= self.operands@);
        total
    }
}

/// How a size is written after a mnemonic.
pub open spec fn size_text(size: Size) -> Seq<char> {
    match size {
        Size::Unsized => Seq::empty(),
        Size::Byte => seq!['.', 'B'],
        Size::Word => seq!['.', 'W'],
        Size::Long => seq!['.', 'L'],
    }
}

impl Size {
    /// The size as written after a mnemonic.
    pub fn to_string(&self) -> (r: String)
        ensures
            r@ == size_text(*self),
    {
        proof {
            reveal_strlit(".B");
            reveal_strlit(".W");
            reveal_strlit(".L");
        }
        let mut s = String::new();
        match *self {
            Size::Unsized => {},
            Size::Byte => s.append(".B"),
            Size::Word => s.append(".W"),
            Size::Long => s.append(".L"),
        }
        assert(s@ =~= size_text(*self));
        s
    }
}

/// How an instruction is written in assembly: mnemonic and size, then a
/// tab and the operands separated by commas.
pub open spec fn instance_text(mnemonic: Seq<char>, size: Size, operands: Seq<Operand>) -> Seq<
    char,
> {
    mnemonic + size_text(size) + if operands.len() == 0 {
        Seq::empty()
    } else if operands.len() == 1 {
        seq!['\t'] + operand_text(operands[0])
    } else {
        seq!['\t'] + operand_text(operands[0]) + seq![','] + operand_text(operands[1])
    }
}

impl OpcodeInstance {
    /// The instruction as written in assembly; it has at most two operands.
    pub fn to_string(&self) -> (r: String)
        requires
            self.operands.len() <= 2,
        ensures
            r@ == instance_text(self.mnemonic@, self.size, self.operands@),
    {
        proof {
            reveal_strlit("\t");
            reveal_strlit(",");
        }
        let mut s = String::new();
        s.append(self.mnemonic.as_str());
        let size = self.size.to_string();
        s.append(size.as_str());
        if self.operands.len() >= 1 {
            s.append("\t");
            let first = self.operands[0].to_string();
            s.append(first.as_str());
            if self.operands.len() == 2 {
                s.append(",");
                let second = self.operands[1].to_string();
                s.append(second.as_str());
            }
        }
        assert(s@ =~= instance_text(self.mnemonic@, self.size, self.operands@));
        s
    }
}

} // verus!
