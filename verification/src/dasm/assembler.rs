use vstd::prelude::*;

use crate::dasm::memory::{Memory, write_words};
use crate::dasm::syntax::{parse_instruction, parsed};
use crate::dasm::operand::{Operand, ext_seq};
use crate::dasm::{
    InstructionEncoder, InstructionSelector, OpcodeInstance, OperandDecoder, Size, generate,
    optable, sum_ext, can_disassemble, decodes_to, first_match, word_at, ea_mode, ea_reg,
    ea_operand, imm_operand, ea_words, imm_words, reads_ok, ea_allowed, reg_x, lemma_ea_fields, lemma_ea_masks,
    lemma_first_match_bounds, lemma_match_decodable, EA_ALL, EA_ALL_EXCEPT_AN,
    EA_DATA_ALTERABLE, EA_MEMORY_ALTERABLE,
};

verus! {

/// The mode and register bits of `op` in the effective address field.
pub open spec fn spec_encode_ea(op: Operand) -> u16 {
    (match op {
        Operand::DataRegisterDirect(reg_y) => 0b000000u8 | reg_y,
        Operand::AddressRegisterDirect(reg_y) => 0b001000u8 | reg_y,
        Operand::AddressRegisterIndirect(reg_y) => 0b010000u8 | reg_y,
        Operand::AddressRegisterIndirectWithPostincrement(reg_y) => 0b011000u8 | reg_y,
        Operand::AddressRegisterIndirectWithPredecrement(reg_y) => 0b100000u8 | reg_y,
        Operand::AddressRegisterIndirectWithDisplacement(reg_y, _) => 0b101000u8 | reg_y,
        Operand::AddressRegisterIndirectWithIndex(reg_y, _, _) => 0b110000u8 | reg_y,
        Operand::AbsoluteWord(_) => 0b111000u8,
        Operand::AbsoluteLong(_) => 0b111001u8,
        Operand::PcWithDisplacement(_) => 0b111010u8,
        Operand::PcWithIndex(_, _) => 0b111011u8,
        Operand::Immediate(_, _) => 0b111100u8,
    }) as u16
}

fn encode_ea(op: &Operand) -> (r: u16)
    ensures
        r == spec_encode_ea(*op),
        r <= 0xff,
{
    (match *op {
        Operand::DataRegisterDirect(reg_y) => 0b000000u8 | reg_y,
        Operand::AddressRegisterDirect(reg_y) => 0b001000u8 | reg_y,
        Operand::AddressRegisterIndirect(reg_y) => 0b010000u8 | reg_y,
        Operand::AddressRegisterIndirectWithPostincrement(reg_y) => 0b011000u8 | reg_y,
        Operand::AddressRegisterIndirectWithPredecrement(reg_y) => 0b100000u8 | reg_y,
        Operand::AddressRegisterIndirectWithDisplacement(reg_y, _) => 0b101000u8 | reg_y,
        Operand::AddressRegisterIndirectWithIndex(reg_y, _, _) => 0b110000u8 | reg_y,
        Operand::AbsoluteWord(_) => 0b111000u8,
        Operand::AbsoluteLong(_) => 0b111001u8,
        Operand::PcWithDisplacement(_) => 0b111010u8,
        Operand::PcWithIndex(_, _) => 0b111011u8,
        Operand::Immediate(_, _) => 0b111100u8,
    }) as u16
}

/// The register of a register-direct operand, placed in bits 9..11.
pub open spec fn reg_bits(op: Operand) -> u16 {
    match op {
        Operand::DataRegisterDirect(reg_x) => (reg_x as u16) << 9u16,
        Operand::AddressRegisterDirect(reg_x) => (reg_x as u16) << 9u16,
        _ => 0,
    }
}

fn encode_dx(op: &Operand) -> (r: u16)
    requires
        op is DataRegisterDirect,
    ensures
        r == reg_bits(*op),
{
    match *op {
        Operand::DataRegisterDirect(reg_x) => (reg_x as u16) << 9u16,
        _ => 0,
    }
}

fn encode_ax(op: &Operand) -> (r: u16)
    requires
        op is AddressRegisterDirect,
    ensures
        r == reg_bits(*op),
{
    match *op {
        Operand::AddressRegisterDirect(reg_x) => (reg_x as u16) << 9u16,
        _ => 0,
    }
}

proof fn lemma_field_bits(template: u16, ea: u16, reg: u16, r: u8)
    by (bit_vector)
    ensures
        ea <= 0xff && (reg == 0 || reg & 0x1ff == 0) ==> template & ea & reg == 0,
        ((r as u16) << 9u16) & 0x1ff == 0,
{
}

proof fn lemma_fields_disjoint(template: u16, ea: u16, reg: u16)
    requires
        ea <= 0xff,
        reg == 0 || reg & 0x1ff == 0,
    ensures
        template & ea & reg == 0,
{
    lemma_field_bits(template, ea, reg, 0);
}

proof fn lemma_shift9(r: u8)
    ensures
        ((r as u16) << 9u16) & 0x1ff == 0,
{
    lemma_field_bits(0, 0, 0, r);
}

proof fn lemma_reg_bits(op: Operand)
    ensures
        reg_bits(op) == 0 || reg_bits(op) & 0x1ff == 0,
{
    match op {
        Operand::DataRegisterDirect(r) => lemma_shift9(r),
        Operand::AddressRegisterDirect(r) => lemma_shift9(r),
        _ => {},
    }
}

/// The words an encoder writes for `ops`, the operation word first.
pub open spec fn encoded_words(encoder: InstructionEncoder, ops: Seq<Operand>, template: u16) -> Seq<
    u16,
> {
    match encoder {
        InstructionEncoder::EncodeEaDx => seq![template | spec_encode_ea(ops[0]) | reg_bits(ops[1])]
            + ext_seq(ops[0]),
        InstructionEncoder::EncodeEaAx => seq![template | spec_encode_ea(ops[0]) | reg_bits(ops[1])]
            + ext_seq(ops[0]),
        InstructionEncoder::EncodeDxEa => seq![template | spec_encode_ea(ops[1]) | reg_bits(ops[0])]
            + ext_seq(ops[1]),
        InstructionEncoder::EncodeImmEa => seq![template | spec_encode_ea(ops[1])] + ext_seq(ops[0])
            + ext_seq(ops[1]),
    }
}

/// Whether `encoder` can encode `ops` over `template`: the operands have
/// the shapes it expects, and the effective address does not overlap the
/// template.
pub open spec fn encoder_ok(encoder: InstructionEncoder, ops: Seq<Operand>, template: u16) -> bool {
    ops.len() >= 2 && match encoder {
        InstructionEncoder::EncodeEaDx => ops[1] is DataRegisterDirect,
        InstructionEncoder::EncodeEaAx => ops[1] is AddressRegisterDirect,
        InstructionEncoder::EncodeDxEa => ops[0] is DataRegisterDirect,
        InstructionEncoder::EncodeImmEa => template & spec_encode_ea(ops[1]) == 0,
    }
}

/// The `n` words from `pc` on can be written.
pub open spec fn writes_ok(pc: u32, n: nat, w: Seq<u16>) -> bool {
    pc + 2 * n <= u32::MAX && pc / 2 + n <= w.len()
}

proof fn lemma_write_then_rest(w: Seq<u16>, at: int, first: u16, rest: Seq<u16>)
    requires
        0 <= at < w.len(),
        at + 1 + rest.len() <= w.len(),
    ensures
        write_words(w.update(at, first), at + 1, rest) == write_words(w, at, seq![first] + rest),
{
    assert(write_words(w.update(at, first), at + 1, rest) =~= write_words(
        w,
        at,
        seq![first] + rest,
    ));
}

proof fn lemma_write_concat(w: Seq<u16>, at: int, a: Seq<u16>, b: Seq<u16>)
    requires
        0 <= at,
        at + a.len() + b.len() <= w.len(),
    ensures
        write_words(write_words(w, at, a), at + a.len(), b) == write_words(w, at, a + b),
{
    assert(write_words(write_words(w, at, a), at + a.len(), b) =~= write_words(w, at, a + b));
}

pub fn encode_ea_dx<M: Memory>(op: &OpcodeInstance, template: u16, pc: u32, mem: &mut M) -> (r: u32)
    requires
        encoder_ok(InstructionEncoder::EncodeEaDx, op.operands@, template),
        writes_ok(
            pc,
            encoded_words(InstructionEncoder::EncodeEaDx, op.operands@, template).len(),
            old(mem).words(),
        ),
    ensures
        final(mem).words() == write_words(
            old(mem).words(),
            (pc / 2) as int,
            encoded_words(InstructionEncoder::EncodeEaDx, op.operands@, template),
        ),
        r == pc + 2 * encoded_words(InstructionEncoder::EncodeEaDx, op.operands@, template).len(),
{
    let ghost w0 = mem.words();
    let ea = encode_ea(&op.operands[0]);
    let dx = encode_dx(&op.operands[1]);
    proof {
        lemma_reg_bits(op.operands@[1]);
        lemma_fields_disjoint(template, ea, dx);
    }
    mem.write_word(pc, template | ea | dx);
    let r = op.operands[0].add_extension_words(pc + 2, mem);
    proof {
        lemma_write_then_rest(w0, (pc / 2) as int, template | ea | dx, ext_seq(op.operands@[0]));
    }
    r
}

pub fn encode_ea_ax<M: Memory>(op: &OpcodeInstance, template: u16, pc: u32, mem: &mut M) -> (r: u32)
    requires
        encoder_ok(InstructionEncoder::EncodeEaAx, op.operands@, template),
        writes_ok(
            pc,
            encoded_words(InstructionEncoder::EncodeEaAx, op.operands@, template).len(),
            old(mem).words(),
        ),
    ensures
        final(mem).words() == write_words(
            old(mem).words(),
            (pc / 2) as int,
            encoded_words(InstructionEncoder::EncodeEaAx, op.operands@, template),
        ),
        r == pc + 2 * encoded_words(InstructionEncoder::EncodeEaAx, op.operands@, template).len(),
{
    let ghost w0 = mem.words();
    let ea = encode_ea(&op.operands[0]);
    let ax = encode_ax(&op.operands[1]);
    proof {
        lemma_reg_bits(op.operands@[1]);
        lemma_fields_disjoint(template, ea, ax);
    }
    mem.write_word(pc, template | ea | ax);
    let r = op.operands[0].add_extension_words(pc + 2, mem);
    proof {
        lemma_write_then_rest(w0, (pc / 2) as int, template | ea | ax, ext_seq(op.operands@[0]));
    }
    r
}

pub fn encode_dx_ea<M: Memory>(op: &OpcodeInstance, template: u16, pc: u32, mem: &mut M) -> (r: u32)
    requires
        encoder_ok(InstructionEncoder::EncodeDxEa, op.operands@, template),
        writes_ok(
            pc,
            encoded_words(InstructionEncoder::EncodeDxEa, op.operands@, template).len(),
            old(mem).words(),
        ),
    ensures
        final(mem).words() == write_words(
            old(mem).words(),
            (pc / 2) as int,
            encoded_words(InstructionEncoder::EncodeDxEa, op.operands@, template),
        ),
        r == pc + 2 * encoded_words(InstructionEncoder::EncodeDxEa, op.operands@, template).len(),
{
    let ghost w0 = mem.words();
    let ea = encode_ea(&op.operands[1]);
    let dx = encode_dx(&op.operands[0]);
    proof {
        lemma_reg_bits(op.operands@[0]);
        lemma_fields_disjoint(template, ea, dx);
    }
    mem.write_word(pc, template | ea | dx);
    let r = op.operands[1].add_extension_words(pc + 2, mem);
    proof {
        lemma_write_then_rest(w0, (pc / 2) as int, template | ea | dx, ext_seq(op.operands@[1]));
    }
    r
}

pub fn encode_imm_ea<M: Memory>(op: &OpcodeInstance, template: u16, pc: u32, mem: &mut M) -> (r: u32)
    requires
        encoder_ok(InstructionEncoder::EncodeImmEa, op.operands@, template),
        writes_ok(
            pc,
            encoded_words(InstructionEncoder::EncodeImmEa, op.operands@, template).len(),
            old(mem).words(),
        ),
    ensures
        final(mem).words() == write_words(
            old(mem).words(),
            (pc / 2) as int,
            encoded_words(InstructionEncoder::EncodeImmEa, op.operands@, template),
        ),
        r == pc + 2 * encoded_words(InstructionEncoder::EncodeImmEa, op.operands@, template).len(),
{
    let ghost w0 = mem.words();
    let ea = encode_ea(&op.operands[1]);
    mem.write_word(pc, template | ea);
    let ghost w1 = mem.words();
    let pc1 = op.operands[0].add_extension_words(pc + 2, mem);
    let r = op.operands[1].add_extension_words(pc1, mem);
    proof {
        let e0 = ext_seq(op.operands@[0]);
        let e1 = ext_seq(op.operands@[1]);
        lemma_write_concat(w1, (pc / 2) as int + 1, e0, e1);
        lemma_write_then_rest(w0, (pc / 2) as int, template | ea, e0 + e1);
        assert(seq![template | ea] + (e0 + e1) =~= seq![template | ea] + e0 + e1);
    }
    r
}
/// Operands that name memory and may be written.
pub open spec fn memory_alterable(op: Operand) -> bool {
    match op {
        Operand::AddressRegisterIndirect(_) => true,
        Operand::AddressRegisterIndirectWithPostincrement(_) => true,
        Operand::AddressRegisterIndirectWithPredecrement(_) => true,
        Operand::AddressRegisterIndirectWithDisplacement(_, _) => true,
        Operand::AddressRegisterIndirectWithIndex(_, _, _) => true,
        Operand::AbsoluteWord(_) => true,
        Operand::AbsoluteLong(_) => true,
        _ => false,
    }
}

/// Whether an instruction with operands `ops` has the shape `selector`
/// accepts.
pub open spec fn selects(selector: InstructionSelector, ops: Seq<Operand>) -> bool {
    ops.len() == 2 && match selector {
        InstructionSelector::IsEaDx => ops[1] is DataRegisterDirect,
        InstructionSelector::IsEaAx => ops[1] is AddressRegisterDirect,
        InstructionSelector::IsDxEa => ops[0] is DataRegisterDirect && memory_alterable(ops[1]),
        InstructionSelector::IsImmEa => ops[0] is Immediate,
    }
}

/// An effective address operand followed by a data register.
pub fn is_ea_dx(op: &OpcodeInstance) -> (r: bool)
    ensures
        r == selects(InstructionSelector::IsEaDx, op.operands@),
{
    op.operands.len() == 2 && matches!(op.operands[1], Operand::DataRegisterDirect(_))
}

/// An effective address operand followed by an address register.
pub fn is_ea_ax(op: &OpcodeInstance) -> (r: bool)
    ensures
        r == selects(InstructionSelector::IsEaAx, op.operands@),
{
    op.operands.len() == 2 && matches!(op.operands[1], Operand::AddressRegisterDirect(_))
}

/// A data register followed by a memory operand.
pub fn is_dx_ea(op: &OpcodeInstance) -> (r: bool)
    ensures
        r == selects(InstructionSelector::IsDxEa, op.operands@),
{
    op.operands.len() == 2 && matches!(op.operands[0], Operand::DataRegisterDirect(_)) && match op.operands[1] {
        Operand::AddressRegisterIndirect(_) => true,
        Operand::AddressRegisterIndirectWithPostincrement(_) => true,
        Operand::AddressRegisterIndirectWithPredecrement(_) => true,
        Operand::AddressRegisterIndirectWithDisplacement(_, _) => true,
        Operand::AddressRegisterIndirectWithIndex(_, _, _) => true,
        Operand::AbsoluteWord(_) => true,
        Operand::AbsoluteLong(_) => true,
        _ => false,
    }
}

/// Immediate data followed by an effective address operand.
pub fn is_imm_ea(op: &OpcodeInstance) -> (r: bool)
    ensures
        r == selects(InstructionSelector::IsImmEa, op.operands@),
{
    op.operands.len() == 2 && matches!(op.operands[0], Operand::Immediate(_, _))
}

fn select(selector: InstructionSelector, op: &OpcodeInstance) -> (r: bool)
    ensures
        r == selects(selector, op.operands@),
{
    match selector {
        InstructionSelector::IsEaDx => is_ea_dx(op),
        InstructionSelector::IsEaAx => is_ea_ax(op),
        InstructionSelector::IsDxEa => is_dx_ea(op),
        InstructionSelector::IsImmEa => is_imm_ea(op),
    }
}

/// Whether table entry `i` assembles `inst`.
pub open spec fn row_selects(inst: OpcodeInstance, i: int) -> bool {
    &&& inst.mnemonic@ == optable()[i].mnemonic@
    &&& inst.size == optable()[i].size
    &&& selects(optable()[i].selector, inst.operands@)
}

pub open spec fn first_selected_from(inst: OpcodeInstance, i: int) -> Option<int>
    decreases 11 - i,
{
    if i < 0 || i >= 11 {
        None
    } else if row_selects(inst, i) {
        Some(i)
    } else {
        first_selected_from(inst, i + 1)
    }
}

/// The first table entry that assembles `inst`.
pub open spec fn first_selected(inst: OpcodeInstance) -> Option<int> {
    first_selected_from(inst, 0)
}

/// The words that assemble `inst` by table entry `i`.
pub open spec fn assembled_words(inst: OpcodeInstance, i: int) -> Seq<u16> {
    encoded_words(optable()[i].encoder, inst.operands@, optable()[i].matching as u16)
}

/// Where `inst` can be assembled at `pc`: some entry takes it, its
/// effective address does not overlap the entry's template, and its words
/// fit in memory.
pub open spec fn can_assemble(inst: OpcodeInstance, pc: u32, w: Seq<u16>) -> bool {
    match first_selected(inst) {
        Some(i) => encoder_ok(optable()[i].encoder, inst.operands@, optable()[i].matching as u16)
            && writes_ok(pc, assembled_words(inst, i).len(), w),
        None => false,
    }
}

proof fn lemma_first_selected(inst: OpcodeInstance, i: int)
    requires
        0 <= i <= 11,
    ensures
        first_selected_from(inst, i) matches Some(j) ==> i <= j < 11 && row_selects(inst, j),
    decreases 11 - i,
{
    if i < 11 && !row_selects(inst, i) {
        lemma_first_selected(inst, i + 1);
    }
}

/// The table's entries pair each selector with the matching encoder, so a
/// selected entry's encoder accepts the operands' shapes.
proof fn lemma_selected_shapes(inst: OpcodeInstance, i: int)
    requires
        0 <= i < 11,
        row_selects(inst, i),
    ensures
        optable()[i].encoder != InstructionEncoder::EncodeImmEa ==> encoder_ok(
            optable()[i].encoder,
            inst.operands@,
            optable()[i].matching as u16,
        ),
        assembled_words(inst, i).len() == inst.spec_length(),
{
    let ops = inst.operands@;
    assert(ops.drop_last().drop_last() =~= Seq::<Operand>::empty());
    assert(ops.drop_last() =~= seq![ops[0]]);
    reveal_with_fuel(sum_ext, 3);
    assert(sum_ext(ops) == ops[0].spec_extension_words() + ops[1].spec_extension_words());
}

fn same_text(a: &String, b: &str) -> (r: bool)
    ensures
        r == (a@ == b@),
{
    let mut t = String::new();
    t.append(b);
    assert(t@ =~= b@);
    *a == t
}

/// Assembles `op_inst` at `pc` by the first table entry that takes it, and
/// gives the address after the instruction.
pub fn encode_instruction<M: Memory>(
    instruction: &str,
    op_inst: &OpcodeInstance,
    pc: u32,
    mem: &mut M,
) -> (r: u32)
    requires
        can_assemble(*op_inst, pc, old(mem).words()),
    ensures
        first_selected(*op_inst) matches Some(i) && final(mem).words() == write_words(
            old(mem).words(),
            (pc / 2) as int,
            assembled_words(*op_inst, i),
        ),
        r == pc + 2 * op_inst.spec_length(),
{
    let table = generate();
    let mut i: usize = 0;
    proof {
        lemma_first_selected(*op_inst, 0);
    }
    while i < table.len()
        invariant
            table@ == optable(),
            0 <= i <= 11,
            can_assemble(*op_inst, pc, old(mem).words()),
            *mem == *old(mem),
            first_selected(*op_inst) == first_selected_from(*op_inst, i as int),
        decreases 11 - i,
    {
        let op = table[i];
        if same_text(&op_inst.mnemonic, op.mnemonic) && op_inst.size == op.size && select(
            op.selector,
            op_inst,
        ) {
            proof {
                lemma_selected_shapes(*op_inst, i as int);
            }
            let template = op.matching as u16;
            return match op.encoder {
                InstructionEncoder::EncodeEaDx => encode_ea_dx(op_inst, template, pc, mem),
                InstructionEncoder::EncodeEaAx => encode_ea_ax(op_inst, template, pc, mem),
                InstructionEncoder::EncodeDxEa => encode_dx_ea(op_inst, template, pc, mem),
                InstructionEncoder::EncodeImmEa => encode_imm_ea(op_inst, template, pc, mem),
            };
        }
        i += 1;
    }
    proof {
        lemma_first_selected(*op_inst, 0);
    }
    0
}

/// The effective address of `opcode` is one of the indexed modes.
pub open spec fn ea_indexed(opcode: u16) -> bool {
    ea_mode(opcode) == 6 || (ea_mode(opcode) == 7 && ea_reg(opcode) == 3)
}

/// The address of the effective address's first extension word for the
/// instruction at `pc`: after the immediate data where there is any.
pub open spec fn ea_ext_addr(pc: u32, w: Seq<u16>) -> int {
    let opcode = word_at(w, pc as int);
    match first_match(opcode) {
        Some(i) => if optable()[i].decoder == OperandDecoder::ImmEa {
            pc + 2 + 2 * imm_words(optable()[i].size)
        } else {
            pc + 2
        },
        None => pc + 2,
    }
}

/// The instruction at `pc` re-encodes word for word: the brief extension
/// word of an indexed effective address has bits 8 to 11 clear (the
/// decoder reads the index register and the displacement only), and byte
/// immediate data (always in the word after the operation word) has a
/// clear high byte.
pub open spec fn reencodes(pc: u32, w: Seq<u16>) -> bool {
    let opcode = word_at(w, pc as int);
    &&& ea_indexed(opcode) ==> word_at(w, ea_ext_addr(pc, w)) & 0x0f00 == 0
    &&& (first_match(opcode) matches Some(i) && optable()[i].size == Size::Byte && (
    optable()[i].decoder == OperandDecoder::ImmEa || (ea_mode(opcode) == 7 && ea_reg(opcode)
        == 4)) ==> word_at(w, pc + 2) < 0x100)
}

proof fn lemma_rejoin(o: u16, r: u8, x: u16, a: u16, b: u16)
    by (bit_vector)
    ensures
        (o & 0xF1C0) | (o & 0x3f) | (((o >> 9u16) & 7) << 9u16) == o,
        (o & 0xFFC0) | (o & 0x3f) == o,
        (o & 0xFFC0) & (o & 0x3f) == 0,
        r < 8 ==> 0u8 | r == r && 8u8 | r == 8 + r && 16u8 | r == 16 + r && 24u8 | r == 24 + r
            && 32u8 | r == 32 + r && 40u8 | r == 40 + r && 48u8 | r == 48 + r,
        (x as i16) as u16 == x,
        x < 0x100 ==> x & 0xff == x,
        x & 0x0f00 == 0 ==> ((((x >> 12u16) as u8) as u16) << 12u16) | ((x as i8) as u8 as u16) == x,
        ((((a as u32) << 16u32) | (b as u32)) >> 16u32) as u16 == a,
        (((a as u32) << 16u32) | (b as u32)) as u16 == b,
{
}

/// Which effective addresses the table's masks allow, by mode field.
proof fn lemma_table_masks(opcode: u16)
    ensures
        ea_allowed(opcode, EA_MEMORY_ALTERABLE) <==> 0x10 <= opcode & 0x3f <= 0x39,
        ea_allowed(opcode, EA_ALL_EXCEPT_AN) <==> (opcode & 0x3f <= 0x07 || 0x10 <= opcode
            & 0x3f <= 0x3c),
        ea_allowed(opcode, EA_ALL) <==> opcode & 0x3f <= 0x3c,
        ea_allowed(opcode, EA_DATA_ALTERABLE) <==> (opcode & 0x3f <= 0x07 || 0x10 <= opcode
            & 0x3f <= 0x39),
{
    lemma_ea_masks();
    assert(0x3f8u16 & 0x800 == 0 && 0x3f8u16 & 0x400 == 0 && 0x3f8u16 & 0x200 != 0
        && 0x3f8u16 & 0x100 != 0 && 0x3f8u16 & 0x80 != 0 && 0x3f8u16 & 0x40 != 0
        && 0x3f8u16 & 0x20 != 0 && 0x3f8u16 & 0x10 != 0 && 0x3f8u16 & 0x08 != 0
        && 0x3f8u16 & 0x04 == 0 && 0x3f8u16 & 0x02 == 0 && 0x3f8u16 & 0x01 == 0
        && 0xbffu16 & 0x800 != 0 && 0xbffu16 & 0x400 == 0 && 0xbffu16 & 0x200 != 0
        && 0xbffu16 & 0x100 != 0 && 0xbffu16 & 0x80 != 0 && 0xbffu16 & 0x40 != 0
        && 0xbffu16 & 0x20 != 0 && 0xbffu16 & 0x10 != 0 && 0xbffu16 & 0x08 != 0
        && 0xbffu16 & 0x04 != 0 && 0xbffu16 & 0x02 != 0 && 0xbffu16 & 0x01 != 0
        && 0xfffu16 & 0x800 != 0 && 0xfffu16 & 0x400 != 0 && 0xfffu16 & 0x200 != 0
        && 0xfffu16 & 0x100 != 0 && 0xfffu16 & 0x80 != 0 && 0xfffu16 & 0x40 != 0
        && 0xfffu16 & 0x20 != 0 && 0xfffu16 & 0x10 != 0 && 0xfffu16 & 0x08 != 0
        && 0xfffu16 & 0x04 != 0 && 0xfffu16 & 0x02 != 0 && 0xfffu16 & 0x01 != 0
        && 0xbf8u16 & 0x800 != 0 && 0xbf8u16 & 0x400 == 0 && 0xbf8u16 & 0x200 != 0
        && 0xbf8u16 & 0x100 != 0 && 0xbf8u16 & 0x80 != 0 && 0xbf8u16 & 0x40 != 0
        && 0xbf8u16 & 0x20 != 0 && 0xbf8u16 & 0x10 != 0 && 0xbf8u16 & 0x08 != 0
        && 0xbf8u16 & 0x04 == 0 && 0xbf8u16 & 0x02 == 0 && 0xbf8u16 & 0x01 == 0)
        by (bit_vector);
}

/// The effective address field re-encodes to itself, and (for modes the
/// encoder packs as read) its extension words to the words read.
proof fn lemma_ea_reencodes(opcode: u16, size: Size, pc: u32, w: Seq<u16>)
    requires
        ea_mode(opcode) != 7 || ea_reg(opcode) <= 4,
        ea_mode(opcode) == 7 && ea_reg(opcode) == 4 ==> size != Size::Unsized,
        reads_ok(pc, ea_words(opcode, size), w),
        pc / 2 < w.len(),
    ensures
        spec_encode_ea(ea_operand(opcode, size, pc, w)) == opcode & 0x3f,
        ext_seq(ea_operand(opcode, size, pc, w)).len() == ea_words(opcode, size),
        (ea_indexed(opcode) ==> word_at(w, pc + 2) & 0x0f00 == 0) && (size == Size::Byte && ea_mode(
            opcode,
        ) == 7 && ea_reg(opcode) == 4 ==> word_at(w, pc + 2) < 0x100) ==> ext_seq(ea_operand(opcode, size, pc, w))
            == w.subrange(pc / 2 + 1, pc / 2 + 1 + ea_words(opcode, size)),
{
    lemma_ea_fields(opcode);
    let mode = ea_mode(opcode);
    let reg = ea_reg(opcode) as u8;
    let e = word_at(w, pc + 2);
    let e2 = word_at(w, pc + 4);
    lemma_rejoin(opcode, reg, e, e, e2);
    if ea_words(opcode, size) > 0 {
        assert((pc + 2) / 2 == pc / 2 + 1);
        assert((pc + 4) / 2 == pc / 2 + 2);
        if ea_words(opcode, size) == 1 {
            assert(w.subrange(pc / 2 + 1, pc / 2 + 2) =~= seq![e]);
        } else {
            assert(w.subrange(pc / 2 + 1, pc / 2 + 3) =~= seq![e, e2]);
        }
    } else {
        assert(w.subrange(pc / 2 + 1, pc / 2 + 1) =~= Seq::<u16>::empty());
    }
}

/// Encoding the effective address field of the operand the decoder reads
/// gives back the field: `encode_ea` inverts `get_ea` on every mode the
/// decoder knows.
pub proof fn law_encode_ea_inverts_get_ea(opcode: u16, size: Size, pc: u32, w: Seq<u16>)
    requires
        ea_mode(opcode) != 7 || ea_reg(opcode) < 4 || (ea_reg(opcode) == 4 && size != Size::Unsized),
        reads_ok(pc, ea_words(opcode, size), w),
        pc / 2 < w.len(),
    ensures
        spec_encode_ea(ea_operand(opcode, size, pc, w)) == opcode & 0x3f,
{
    lemma_ea_reencodes(opcode, size, pc, w);
}

/// Immediate data re-encodes to the words read, a byte one when its word's
/// high byte is clear.
proof fn lemma_imm_reencodes(size: Size, pc: u32, w: Seq<u16>)
    requires
        size != Size::Unsized,
        reads_ok(pc, imm_words(size), w),
    ensures
        ext_seq(imm_operand(size, pc, w)).len() == imm_words(size),
        (size == Size::Byte ==> word_at(w, pc + 2) < 0x100) ==> ext_seq(imm_operand(size, pc, w))
            == w.subrange(pc / 2 + 1, pc / 2 + 1 + imm_words(size)),
{
    let e = word_at(w, pc + 2);
    let e2 = word_at(w, pc + 4);
    lemma_rejoin(0, 0, e, e, e2);
    assert((pc + 2) / 2 == pc / 2 + 1);
    assert((pc + 4) / 2 == pc / 2 + 2);
    if size == Size::Long {
        assert(w.subrange(pc / 2 + 1, pc / 2 + 3) =~= seq![e, e2]);
    } else {
        assert(w.subrange(pc / 2 + 1, pc / 2 + 2) =~= seq![e]);
    }
}

proof fn lemma_first_selected_is(inst: OpcodeInstance, i: int, k: int)
    requires
        0 <= k <= i < 11,
        row_selects(inst, i),
        forall|j: int| k <= j < i ==> !row_selects(inst, j),
    ensures
        first_selected_from(inst, k) == Some(i),
    decreases i - k,
{
    if k < i {
        lemma_first_selected_is(inst, i, k + 1);
    }
}

/// Reassembling what the disassembler made of the instruction at `pc`
/// takes the table entry it was decoded by, and gives back its operation
/// word and its length; where the instruction re-encodes (see
/// `reencodes`), it gives back every one of its words.
pub proof fn law_reassemble_disassembled(pc: u32, w: Seq<u16>, inst: OpcodeInstance)
    requires
        can_disassemble(pc, w),
        decodes_to(pc, w, inst),
        pc + 2 * inst.spec_length() <= u32::MAX,
    ensures
        first_selected(inst) == first_match(word_at(w, pc as int)),
        can_assemble(inst, pc, w),
        assembled_words(inst, first_selected(inst)->0).len() == inst.spec_length(),
        assembled_words(inst, first_selected(inst)->0)[0] == word_at(w, pc as int),
        reencodes(pc, w) ==> assembled_words(inst, first_selected(inst)->0) == w.subrange(
            (pc / 2) as int,
            pc / 2 + inst.spec_length(),
        ),
{
    let opcode = word_at(w, pc as int);
    lemma_first_match_bounds(opcode, 0);
    let i = first_match(opcode)->0;
    lemma_match_decodable(opcode, i);
    lemma_ea_fields(opcode);
    lemma_table_masks(opcode);
    reveal_strlit("ADD");
    reveal_strlit("ADDA");
    reveal_strlit("ADDI");
    let info = optable()[i];
    let size = info.size;
    let ops = inst.operands@;
    let ea = ea_operand(opcode, size, pc, w);
    let x = reg_x(opcode) as u8;
    assert(row_selects(inst, i));
    assert("ADD"@ != "ADDA"@ && "ADD"@ != "ADDI"@ && "ADDA"@ != "ADDI"@) by {
        assert("ADD"@.len() == 3 && "ADDA"@.len() == 4 && "ADDI"@.len() == 4);
        assert("ADDA"@[3] == 'A' && "ADDI"@[3] == 'I');
    }
    assert forall|j: int| 0 <= j < i implies !row_selects(inst, j) by {
        if j == 0 || j == 2 || j == 4 {
            assert(i == j + 1 ==> ops[1] is DataRegisterDirect);
        }
    }
    lemma_first_selected_is(inst, i, 0);
    lemma_selected_shapes(inst, i);
    let e = word_at(w, pc + 2);
    lemma_rejoin(opcode, x, e, e, e);
    let first = assembled_words(inst, i)[0];
    if info.decoder == OperandDecoder::ImmEa {
        let at = (pc + 2 * imm_words(size)) as u32;
        lemma_imm_reencodes(size, pc, w);
        lemma_ea_reencodes(opcode, size, at, w);
        assert(info.matching as u16 == opcode & 0xFFC0);
        assert(first == opcode);
        assert(encoder_ok(info.encoder, ops, info.matching as u16));
        if reencodes(pc, w) {
            let start = pc / 2;
            let mid = start + 1 + imm_words(size);
            let end = start + inst.spec_length();
            assert(at / 2 == mid - 1);
            assert(w.subrange(start as int, end as int) =~= seq![opcode] + w.subrange(
                start + 1,
                mid as int,
            ) + w.subrange(mid as int, end as int));
            assert(assembled_words(inst, i) =~= w.subrange(start as int, end as int));
        }
    } else {
        lemma_ea_reencodes(opcode, size, pc, w);
        assert(info.matching as u16 == opcode & 0xF1C0);
        assert(reg_bits(Operand::DataRegisterDirect(x)) == ((opcode >> 9u16) & 7) << 9u16);
        assert(reg_bits(Operand::AddressRegisterDirect(x)) == ((opcode >> 9u16) & 7) << 9u16);
        assert(first == opcode);
        if reencodes(pc, w) {
            let start = pc / 2;
            let end = start + inst.spec_length();
            assert(w.subrange(start as int, end as int) =~= seq![opcode] + w.subrange(
                start + 1,
                end as int,
            ));
            assert(assembled_words(inst, i) =~= w.subrange(start as int, end as int));
        }
    }
}

/// The characters of `s`.
fn chars_of(s: &str) -> (r: Vec<char>)
    ensures
        r@ == s@,
{
    let n = s.unicode_len();
    let mut v: Vec<char> = Vec::new();
    let mut i: usize = 0;
    while i < n
        invariant
            i <= n == s@.len(),
            v@ == s@.subrange(0, i as int),
        decreases n - i,
    {
        v.push(s.get_char(i));
        i += 1;
        assert(v@ =~= s@.subrange(0, i as int));
    }
    assert(v@ =~= s@);
    v
}

/// Parses an instruction written in assembly, which must be written as
/// `parsed` describes.
pub fn parse_assembler(instruction: &str) -> (r: OpcodeInstance)
    requires
        parsed(instruction@) is Some,
    ensures
        parsed(instruction@) == Some((r.mnemonic@, r.size, r.operands@)),
{
    let t = chars_of(instruction);
    match parse_instruction(&t) {
        Some((end, size, operands)) => {
            let mut mnemonic = String::new();
            mnemonic.append(instruction.substring_char(0, end));
            assert(mnemonic@ =~= instruction@.subrange(0, end as int));
            OpcodeInstance { mnemonic, size, operands }
        },
        None => {
            proof {
                assert(false);
            }
            OpcodeInstance { mnemonic: String::new(), size: Size::Unsized, operands: Vec::new() }
        },
    }
}

} // verus!
