use vstd::prelude::*;

use crate::dasm::memory::{Memory, write_words};
use crate::dasm::Size;
use crate::text::{dec_digits, dec_text, hex_padded, push_dec, push_dec_digits, push_hex};

verus! {

/// An instruction operand, by addressing mode.
#[derive(Clone, Copy, Debug, PartialEq, Eq, Structural)]
pub enum Operand {
    DataRegisterDirect(u8),
    AddressRegisterDirect(u8),
    AddressRegisterIndirect(u8),
    AddressRegisterIndirectWithPredecrement(u8),
    AddressRegisterIndirectWithPostincrement(u8),
    AddressRegisterIndirectWithDisplacement(u8, i16),
    /// Base register, index register (bit 3 set for an address register),
    /// displacement.
    AddressRegisterIndirectWithIndex(u8, u8, i8),
    PcWithDisplacement(i16),
    /// Index register (bit 3 set for an address register), displacement.
    PcWithIndex(u8, i8),
    AbsoluteWord(u16),
    AbsoluteLong(u32),
    Immediate(Size, u32),
}

/// The brief extension word for the indexed modes.
pub open spec fn spec_extension_word(xreg_ndx_size: u8, displacement: i8) -> u16 {
    ((xreg_ndx_size as u16) << 12u16) | (displacement as u8 as u16)
}

pub fn encode_extension_word(xreg_ndx_size: u8, displacement: i8) -> (r: u16)
    ensures
        r == spec_extension_word(xreg_ndx_size, displacement),
{
    ((xreg_ndx_size as u16) << 12u16) | (displacement as u8 as u16)
}

/// The extension words that follow the operation word for `op`, in order.
pub open spec fn ext_seq(op: Operand) -> Seq<u16> {
    match op {
        Operand::AddressRegisterIndirectWithDisplacement(_, d) => seq![d as u16],
        Operand::AddressRegisterIndirectWithIndex(_, x, d) => seq![spec_extension_word(x, d)],
        Operand::PcWithDisplacement(d) => seq![d as u16],
        Operand::PcWithIndex(x, d) => seq![spec_extension_word(x, d)],
        Operand::AbsoluteWord(w) => seq![w],
        Operand::AbsoluteLong(l) => seq![(l >> 16u32) as u16, l as u16],
        Operand::Immediate(Size::Long, v) => seq![(v >> 16u32) as u16, v as u16],
        Operand::Immediate(_, v) => seq![v as u16],
        _ => Seq::empty(),
    }
}

/// The index register as an operand of its own.
pub open spec fn spec_xreg(xreg: u8) -> Operand {
    if xreg & 8 > 0 {
        Operand::AddressRegisterDirect(xreg & 7)
    } else {
        Operand::DataRegisterDirect(xreg & 7)
    }
}

pub fn xreg(ireg: u8) -> (r: Operand)
    ensures
        r == spec_xreg(ireg),
{
    if ireg & 8 > 0 {
        Operand::AddressRegisterDirect(ireg & 7)
    } else {
        Operand::DataRegisterDirect(ireg & 7)
    }
}

impl Operand {
    /// How many extension words the operand takes.
    pub open spec fn spec_extension_words(self) -> nat {
        ext_seq(self).len()
    }

    pub fn extension_words(&self) -> (r: u32)
        ensures
            r == self.spec_extension_words(),
            r <= 2,
    {
        match *self {
            Operand::DataRegisterDirect(_) => 0,
            Operand::AddressRegisterDirect(_) => 0,
            Operand::AddressRegisterIndirect(_) => 0,
            Operand::AddressRegisterIndirectWithPredecrement(_) => 0,
            Operand::AddressRegisterIndirectWithPostincrement(_) => 0,
            Operand::AddressRegisterIndirectWithDisplacement(_, _) => 1,
            Operand::AddressRegisterIndirectWithIndex(_, _, _) => 1,
            Operand::AbsoluteWord(_) => 1,
            Operand::AbsoluteLong(_) => 2,
            Operand::PcWithDisplacement(_) => 1,
            Operand::PcWithIndex(_, _) => 1,
            Operand::Immediate(Size::Long, _) => 2,
            Operand::Immediate(_, _) => 1,
        }
    }

    /// Writes the operand's extension words at `pc` and gives the address
    /// that follows them.
    pub fn add_extension_words<M: Memory>(&self, pc: u32, mem: &mut M) -> (r: u32)
        requires
            pc + 2 * self.spec_extension_words() <= u32::MAX,
            self.spec_extension_words() > 0 ==> (pc / 2) + self.spec_extension_words() <= old(
                mem,
            ).words().len(),
        ensures
            final(mem).words() == write_words(old(mem).words(), (pc / 2) as int, ext_seq(*self)),
            r == pc + 2 * self.spec_extension_words(),
    {
        let ghost w0 = mem.words();
        match *self {
            Operand::AddressRegisterIndirectWithDisplacement(_, displacement) => {
                mem.write_word(pc, displacement as u16);
            },
            Operand::AddressRegisterIndirectWithIndex(_, indexinfo, displacement) => {
                mem.write_word(pc, encode_extension_word(indexinfo, displacement));
            },
            Operand::AbsoluteWord(wrd) => {
                mem.write_word(pc, wrd);
            },
            Operand::AbsoluteLong(lng) => {
                mem.write_word(pc, (lng >> 16u32) as u16);
                mem.write_word(pc + 2, lng as u16);
            },
            Operand::PcWithDisplacement(displacement) => {
                mem.write_word(pc, displacement as u16);
            },
            Operand::PcWithIndex(indexinfo, displacement) => {
                mem.write_word(pc, encode_extension_word(indexinfo, displacement));
            },
            Operand::Immediate(Size::Long, imm) => {
                mem.write_word(pc, (imm >> 16u32) as u16);
                mem.write_word(pc + 2, imm as u16);
            },
            Operand::Immediate(_, imm) => {
                mem.write_word(pc, imm as u16);
            },
            _ => {},
        }
        assert(mem.words() =~= write_words(w0, (pc / 2) as int, ext_seq(*self)));
        pc + 2 * self.extension_words()
    }
}

/// How an index register is written: `D` or `A` and its number.
pub open spec fn xreg_text(x: u8) -> Seq<char> {
    (if x & 8 > 0 { seq!['A'] } else { seq!['D'] }) + dec_digits((x & 7) as nat)
}

/// How `op` is written in assembly.
pub open spec fn operand_text(op: Operand) -> Seq<char> {
    match op {
        Operand::DataRegisterDirect(r) => seq!['D'] + dec_digits(r as nat),
        Operand::AddressRegisterDirect(r) => seq!['A'] + dec_digits(r as nat),
        Operand::AddressRegisterIndirect(r) => seq!['(', 'A'] + dec_digits(r as nat) + seq![')'],
        Operand::AddressRegisterIndirectWithPredecrement(r) => seq!['-', '(', 'A'] + dec_digits(
            r as nat,
        ) + seq![')'],
        Operand::AddressRegisterIndirectWithPostincrement(r) => seq!['(', 'A'] + dec_digits(
            r as nat,
        ) + seq![')', '+'],
        Operand::AddressRegisterIndirectWithDisplacement(r, d) => dec_text(d as int) + seq![
            '(',
            'A',
        ] + dec_digits(r as nat) + seq![')'],
        Operand::AddressRegisterIndirectWithIndex(r, x, d) => dec_text(d as int) + seq!['(', 'A']
            + dec_digits(r as nat) + seq![','] + xreg_text(x) + seq![')'],
        Operand::PcWithDisplacement(d) => dec_text(d as int) + seq!['(', 'P', 'C', ')'],
        Operand::PcWithIndex(x, d) => dec_text(d as int) + seq!['(', 'P', 'C', ','] + xreg_text(x)
            + seq![')'],
        Operand::AbsoluteWord(w) => seq!['$'] + hex_padded(w as nat, 4),
        Operand::AbsoluteLong(l) => seq!['$'] + hex_padded(l as nat, 8) + seq!['.', 'L'],
        Operand::Immediate(_, v) => seq!['#', '$'] + hex_padded(v as nat, 4),
    }
}

fn push_xreg(s: &mut String, x: u8)
    ensures
        final(s)@ == old(s)@ + xreg_text(x),
{
    proof {
        reveal_strlit("A");
        reveal_strlit("D");
    }
    if x & 8 > 0 {
        s.append("A");
    } else {
        s.append("D");
    }
    push_dec_digits(s, (x & 7) as u32);
    assert(s@ =~= old(s)@ + xreg_text(x));
}

impl Operand {
    /// The operand as written in assembly.
    pub fn to_string(&self) -> (r: String)
        ensures
            r@ == operand_text(*self),
    {
        proof {
            reveal_strlit("D");
            reveal_strlit("A");
            reveal_strlit("(A");
            reveal_strlit("-(A");
            reveal_strlit(")");
            reveal_strlit(")+");
            reveal_strlit(",");
            reveal_strlit("(PC)");
            reveal_strlit("(PC,");
            reveal_strlit("$");
            reveal_strlit(".L");
            reveal_strlit("#$");
        }
        let mut s = String::new();
        match *self {
            Operand::DataRegisterDirect(reg) => {
                s.append("D");
                push_dec_digits(&mut s, reg as u32);
            },
            Operand::AddressRegisterDirect(reg) => {
                s.append("A");
                push_dec_digits(&mut s, reg as u32);
            },
            Operand::AddressRegisterIndirect(reg) => {
                s.append("(A");
                push_dec_digits(&mut s, reg as u32);
                s.append(")");
            },
            Operand::AddressRegisterIndirectWithPredecrement(reg) => {
                s.append("-(A");
                push_dec_digits(&mut s, reg as u32);
                s.append(")");
            },
            Operand::AddressRegisterIndirectWithPostincrement(reg) => {
                s.append("(A");
                push_dec_digits(&mut s, reg as u32);
                s.append(")+");
            },
            Operand::AddressRegisterIndirectWithDisplacement(reg, dis) => {
                push_dec(&mut s, dis as i32);
                s.append("(A");
                push_dec_digits(&mut s, reg as u32);
                s.append(")");
            },
            Operand::AddressRegisterIndirectWithIndex(reg, ireg, dis) => {
                push_dec(&mut s, dis as i32);
                s.append("(A");
                push_dec_digits(&mut s, reg as u32);
                s.append(",");
                push_xreg(&mut s, ireg);
                s.append(")");
            },
            Operand::PcWithDisplacement(dis) => {
                push_dec(&mut s, dis as i32);
                s.append("(PC)");
            },
            Operand::PcWithIndex(ireg, dis) => {
                push_dec(&mut s, dis as i32);
                s.append("(PC,");
                push_xreg(&mut s, ireg);
                s.append(")");
            },
            Operand::AbsoluteWord(word) => {
                s.append("$");
                push_hex(&mut s, word as u32, 4);
            },
            Operand::AbsoluteLong(long) => {
                s.append("$");
                push_hex(&mut s, long, 8);
                s.append(".L");
            },
            Operand::Immediate(_, imm) => {
                s.append("#$");
                push_hex(&mut s, imm, 4);
            },
        }
        assert(s@ =~= operand_text(*self));
        s
    }
}

} // verus!
