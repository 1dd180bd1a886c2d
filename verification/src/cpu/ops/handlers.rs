use vstd::prelude::*;
use crate::cpu::{ConfiguredCore, Cycles, Result};
use crate::cpu::ops;
use crate::cpu::ops::opcodes;

verus! {

/// The instruction that an instruction word selects.
#[derive(Clone, Copy, Debug, PartialEq, Eq, Structural)]
pub enum Handler {
    Illegal,
    Basic(BasicOp),
    Move(ops::moves::MoveOp),
    Flow(ops::flow::FlowOp),
    Unary(ops::unary::UnaryOp),
    Arith(ops::arith::ArithOp),
    Shift(ops::shifts::ShiftOp),
    Bit(ops::bits::BitOp),
    Status(ops::status::StatusOp),
    Movem(ops::movem::MovemOp),
    SetD0,
    SetD1,
    SetDx,
}

/// The instructions whose handlers stand in the `ops` module itself.
#[derive(Clone, Copy, Debug, PartialEq, Eq, Structural)]
pub enum BasicOp {
    RealIllegal,
    Nop,
    Reset,
    Stop,
    Rte32,
    Rts32,
    Trapv,
    Rtr32,
    Andi8Toc,
    Andi16Tos,
    Eori8Toc,
    Eori16Tos,
    Ori8Toc,
    Ori16Tos,
    Bra16,
    Bsr16,
    Trap,
    Link16,
    Unlk32,
    Move32Tou,
    Move32Fru,
    Swap32Dn,
    ExtBw,
    ExtWl,
    Exg32Dd,
    Exg32Aa,
    Exg32Da,
    Moveq32,
    Bra8,
    Bsr8,
    Addq16An,
    Addq32An,
    Subq16An,
    Subq32An,
    Bchg32RDn,
    Bchg32SDn,
    Bclr32RDn,
    Bclr32SDn,
    Bset32RDn,
    Bset32SDn,
    Btst32RDn,
    Btst32SDn,
    Clr8Dn,
    Clr16Dn,
    Clr32Dn,
    Movep16Er,
    Movep16Re,
    Movep32Er,
    Movep32Re,
    Chk16Ai,
    Chk16Al,
    Chk16Aw,
    Chk16Dn,
    Chk16Di,
    Chk16Imm,
    Chk16Ix,
    Chk16Pcdi,
    Chk16Pcix,
    Chk16Pd,
    Chk16Pi,
    Add8ErDn,
    Add8ErAi,
    Add8ErPi,
    Add8ErPd,
    Add8ErDi,
    Add8ErIx,
    Add8ErAw,
    Add8ErAl,
    Add8ErPcdi,
    Add8ErPcix,
    Add8ErImm,
    Add8ReAi,
    Add8RePi,
    Add8RePd,
    Add8ReDi,
    Add8ReIx,
    Add8ReAw,
    Add8ReAl,
    Add16ErDn,
    Add16ErAn,
    Add16ErAi,
    Add16ErPi,
    Add16ErPd,
    Add16ErDi,
    Add16ErIx,
    Add16ErAw,
    Add16ErAl,
    Add16ErPcdi,
    Add16ErPcix,
    Add16ErImm,
    Add16ReAi,
    Add16RePi,
    Add16RePd,
    Add16ReDi,
    Add16ReIx,
    Add16ReAw,
    Add16ReAl,
    Add32ErDn,
    Add32ErAn,
    Add32ErAi,
    Add32ErPi,
    Add32ErPd,
    Add32ErDi,
    Add32ErIx,
    Add32ErAw,
    Add32ErAl,
    Add32ErPcdi,
    Add32ErPcix,
    Add32ErImm,
    Add32ReAi,
    Add32RePi,
    Add32RePd,
    Add32ReDi,
    Add32ReIx,
    Add32ReAw,
    Add32ReAl,
    Addi8Dn,
    Addi8Ai,
    Addi8Pi,
    Addi8Pd,
    Addi8Di,
    Addi8Ix,
    Addi8Aw,
    Addi8Al,
    Addi16Dn,
    Addi16Ai,
    Addi16Pi,
    Addi16Pd,
    Addi16Di,
    Addi16Ix,
    Addi16Aw,
    Addi16Al,
    Addi32Dn,
    Addi32Ai,
    Addi32Pi,
    Addi32Pd,
    Addi32Di,
    Addi32Ix,
    Addi32Aw,
    Addi32Al,
    Addq8Dn,
    Addq8Ai,
    Addq8Pi,
    Addq8Pd,
    Addq8Di,
    Addq8Ix,
    Addq8Aw,
    Addq8Al,
    Addq16Dn,
    Addq16Ai,
    Addq16Pi,
    Addq16Pd,
    Addq16Di,
    Addq16Ix,
    Addq16Aw,
    Addq16Al,
    Addq32Dn,
    Addq32Ai,
    Addq32Pi,
    Addq32Pd,
    Addq32Di,
    Addq32Ix,
    Addq32Aw,
    Addq32Al,
    And8ErDn,
    And8ErAi,
    And8ErPi,
    And8ErPd,
    And8ErDi,
    And8ErIx,
    And8ErAw,
    And8ErAl,
    And8ErPcdi,
    And8ErPcix,
    And8ErImm,
    And8ReAi,
    And8RePi,
    And8RePd,
    And8ReDi,
    And8ReIx,
    And8ReAw,
    And8ReAl,
    And16ErDn,
    And16ErAi,
    And16ErPi,
    And16ErPd,
    And16ErDi,
    And16ErIx,
    And16ErAw,
    And16ErAl,
    And16ErPcdi,
    And16ErPcix,
    And16ErImm,
    And16ReAi,
    And16RePi,
    And16RePd,
    And16ReDi,
    And16ReIx,
    And16ReAw,
    And16ReAl,
    And32ErDn,
    And32ErAi,
    And32ErPi,
    And32ErPd,
    And32ErDi,
    And32ErIx,
    And32ErAw,
    And32ErAl,
    And32ErPcdi,
    And32ErPcix,
    And32ErImm,
    And32ReAi,
    And32RePi,
    And32RePd,
    And32ReDi,
    And32ReIx,
    And32ReAw,
    And32ReAl,
    Andi8Dn,
    Andi8Ai,
    Andi8Pi,
    Andi8Pd,
    Andi8Di,
    Andi8Ix,
    Andi8Aw,
    Andi8Al,
    Andi16Dn,
    Andi16Ai,
    Andi16Pi,
    Andi16Pd,
    Andi16Di,
    Andi16Ix,
    Andi16Aw,
    Andi16Al,
    Andi32Dn,
    Andi32Ai,
    Andi32Pi,
    Andi32Pd,
    Andi32Di,
    Andi32Ix,
    Andi32Aw,
    Andi32Al,
    Cmpi8Dn,
    Cmpi8Ai,
    Cmpi8Pi,
    Cmpi8Pd,
    Cmpi8Di,
    Cmpi8Ix,
    Cmpi8Aw,
    Cmpi8Al,
    Cmpi16Dn,
    Cmpi16Ai,
    Cmpi16Pi,
    Cmpi16Pd,
    Cmpi16Di,
    Cmpi16Ix,
    Cmpi16Aw,
    Cmpi16Al,
    Cmpi32Dn,
    Cmpi32Ai,
    Cmpi32Pi,
    Cmpi32Pd,
    Cmpi32Di,
    Cmpi32Ix,
    Cmpi32Aw,
    Cmpi32Al,
    Eor8Dn,
    Eor8Ai,
    Eor8Pi,
    Eor8Pd,
    Eor8Di,
    Eor8Ix,
    Eor8Aw,
    Eor8Al,
    Eor16Dn,
    Eor16Ai,
    Eor16Pi,
    Eor16Pd,
    Eor16Di,
    Eor16Ix,
    Eor16Aw,
    Eor16Al,
    Eor32Dn,
    Eor32Ai,
    Eor32Pi,
    Eor32Pd,
    Eor32Di,
    Eor32Ix,
    Eor32Aw,
    Eor32Al,
    Eori8Dn,
    Eori8Ai,
    Eori8Pi,
    Eori8Pd,
    Eori8Di,
    Eori8Ix,
    Eori8Aw,
    Eori8Al,
    Eori16Dn,
    Eori16Ai,
    Eori16Pi,
    Eori16Pd,
    Eori16Di,
    Eori16Ix,
    Eori16Aw,
    Eori16Al,
    Eori32Dn,
    Eori32Ai,
    Eori32Pi,
    Eori32Pd,
    Eori32Di,
    Eori32Ix,
    Eori32Aw,
    Eori32Al,
    Or8ErDn,
    Or8ErAi,
    Or8ErPi,
    Or8ErPd,
    Or8ErDi,
    Or8ErIx,
    Or8ErAw,
    Or8ErAl,
    Or8ErPcdi,
    Or8ErPcix,
    Or8ErImm,
    Or8ReAi,
    Or8RePi,
    Or8RePd,
    Or8ReDi,
    Or8ReIx,
    Or8ReAw,
    Or8ReAl,
    Or16ErDn,
    Or16ErAi,
    Or16ErPi,
    Or16ErPd,
    Or16ErDi,
    Or16ErIx,
    Or16ErAw,
    Or16ErAl,
    Or16ErPcdi,
    Or16ErPcix,
    Or16ErImm,
    Or16ReAi,
    Or16RePi,
    Or16RePd,
    Or16ReDi,
    Or16ReIx,
    Or16ReAw,
    Or16ReAl,
    Or32ErDn,
    Or32ErAi,
    Or32ErPi,
    Or32ErPd,
    Or32ErDi,
    Or32ErIx,
    Or32ErAw,
    Or32ErAl,
    Or32ErPcdi,
    Or32ErPcix,
    Or32ErImm,
    Or32ReAi,
    Or32RePi,
    Or32RePd,
    Or32ReDi,
    Or32ReIx,
    Or32ReAw,
    Or32ReAl,
    Ori8Dn,
    Ori8Ai,
    Ori8Pi,
    Ori8Pd,
    Ori8Di,
    Ori8Ix,
    Ori8Aw,
    Ori8Al,
    Ori16Dn,
    Ori16Ai,
    Ori16Pi,
    Ori16Pd,
    Ori16Di,
    Ori16Ix,
    Ori16Aw,
    Ori16Al,
    Ori32Dn,
    Ori32Ai,
    Ori32Pi,
    Ori32Pd,
    Ori32Di,
    Ori32Ix,
    Ori32Aw,
    Ori32Al,
    Sub8ErDn,
    Sub8ErAi,
    Sub8ErPi,
    Sub8ErPd,
    Sub8ErDi,
    Sub8ErIx,
    Sub8ErAw,
    Sub8ErAl,
    Sub8ErPcdi,
    Sub8ErPcix,
    Sub8ErImm,
    Sub8ReAi,
    Sub8RePi,
    Sub8RePd,
    Sub8ReDi,
    Sub8ReIx,
    Sub8ReAw,
    Sub8ReAl,
    Sub16ErDn,
    Sub16ErAn,
    Sub16ErAi,
    Sub16ErPi,
    Sub16ErPd,
    Sub16ErDi,
    Sub16ErIx,
    Sub16ErAw,
    Sub16ErAl,
    Sub16ErPcdi,
    Sub16ErPcix,
    Sub16ErImm,
    Sub16ReAi,
    Sub16RePi,
    Sub16RePd,
    Sub16ReDi,
    Sub16ReIx,
    Sub16ReAw,
    Sub16ReAl,
    Sub32ErDn,
    Sub32ErAn,
    Sub32ErAi,
    Sub32ErPi,
    Sub32ErPd,
    Sub32ErDi,
    Sub32ErIx,
    Sub32ErAw,
    Sub32ErAl,
    Sub32ErPcdi,
    Sub32ErPcix,
    Sub32ErImm,
    Sub32ReAi,
    Sub32RePi,
    Sub32RePd,
    Sub32ReDi,
    Sub32ReIx,
    Sub32ReAw,
    Sub32ReAl,
    Subi8Dn,
    Subi8Ai,
    Subi8Pi,
    Subi8Pd,
    Subi8Di,
    Subi8Ix,
    Subi8Aw,
    Subi8Al,
    Subi16Dn,
    Subi16Ai,
    Subi16Pi,
    Subi16Pd,
    Subi16Di,
    Subi16Ix,
    Subi16Aw,
    Subi16Al,
    Subi32Dn,
    Subi32Ai,
    Subi32Pi,
    Subi32Pd,
    Subi32Di,
    Subi32Ix,
    Subi32Aw,
    Subi32Al,
    Subq8Dn,
    Subq8Ai,
    Subq8Pi,
    Subq8Pd,
    Subq8Di,
    Subq8Ix,
    Subq8Aw,
    Subq8Al,
    Subq16Dn,
    Subq16Ai,
    Subq16Pi,
    Subq16Pd,
    Subq16Di,
    Subq16Ix,
    Subq16Aw,
    Subq16Al,
    Subq32Dn,
    Subq32Ai,
    Subq32Pi,
    Subq32Pd,
    Subq32Di,
    Subq32Ix,
    Subq32Aw,
    Subq32Al,
    Abcd8Rr,
    Abcd8Mm,
    Addx8Rr,
    Addx8Mm,
    Addx16Rr,
    Addx16Mm,
    Addx32Rr,
    Addx32Mm,
    Cmp8Dn,
    Cmp8Ai,
    Cmp8Pi,
    Cmp8Pd,
    Cmp8Di,
    Cmp8Ix,
    Cmp8Aw,
    Cmp8Al,
    Cmp8Pcdi,
    Cmp8Pcix,
    Cmp8Imm,
    Cmp16Dn,
    Cmp16An,
    Cmp16Ai,
    Cmp16Pi,
    Cmp16Pd,
    Cmp16Di,
    Cmp16Ix,
    Cmp16Aw,
    Cmp16Al,
    Cmp16Pcdi,
    Cmp16Pcix,
    Cmp16Imm,
    Cmp32Dn,
    Cmp32An,
    Cmp32Ai,
    Cmp32Pi,
    Cmp32Pd,
    Cmp32Di,
    Cmp32Ix,
    Cmp32Aw,
    Cmp32Al,
    Cmp32Pcdi,
    Cmp32Pcix,
    Cmp32Imm,
    Cmpm8,
    Cmpm16,
    Cmpm32,
    Sbcd8Rr,
    Sbcd8Mm,
    Subx8Rr,
    Subx8Mm,
    Subx16Rr,
    Subx16Mm,
    Subx32Rr,
    Subx32Mm,
    Unimplemented1010,
    Unimplemented1111,
}

/// The number of instruction patterns of each group: the patterns of
/// group `g` are those of the instruction words whose top four bits are `g`.
pub open spec fn group_size(g: int) -> int {
    if g == 0 {
        224
    } else if g == 1 {
        88
    } else if g == 2 {
        108
    } else if g == 3 {
        108
    } else if g == 4 {
        249
    } else if g == 5 {
        196
    } else if g == 6 {
        32
    } else if g == 7 {
        1
    } else if g == 8 {
        78
    } else if g == 9 {
        86
    } else if g == 10 {
        1
    } else if g == 11 {
        86
    } else if g == 12 {
        81
    } else if g == 13 {
        86
    } else if g == 14 {
        104
    } else {
        1
    }
}

fn group_len(g: usize) -> (n: usize)
    requires
        g < 16,
    ensures
        n == group_size(g as int),
{
    match g {
        0 => 224,
        1 => 88,
        2 => 108,
        3 => 108,
        4 => 249,
        5 => 196,
        6 => 32,
        7 => 1,
        8 => 78,
        9 => 86,
        10 => 1,
        11 => 86,
        12 => 81,
        13 => 86,
        14 => 104,
        _ => 1,
    }
}

/// The instruction patterns of group 0, in the order they are tried.
pub open spec fn group_0(i: int) -> (u32, u32, Handler) {
    if i == 0 {
        (opcodes::MASK_EXACT, opcodes::OP_ANDI_8_TOC, Handler::Basic(BasicOp::Andi8Toc))
    } else if i == 1 {
        (opcodes::MASK_EXACT, opcodes::OP_ANDI_16_TOS, Handler::Basic(BasicOp::Andi16Tos))
    } else if i == 2 {
        (opcodes::MASK_EXACT, opcodes::OP_EORI_8_TOC, Handler::Basic(BasicOp::Eori8Toc))
    } else if i == 3 {
        (opcodes::MASK_EXACT, opcodes::OP_EORI_16_TOS, Handler::Basic(BasicOp::Eori16Tos))
    } else if i == 4 {
        (opcodes::MASK_EXACT, opcodes::OP_ORI_8_TOC, Handler::Basic(BasicOp::Ori8Toc))
    } else if i == 5 {
        (opcodes::MASK_EXACT, opcodes::OP_ORI_16_TOS, Handler::Basic(BasicOp::Ori16Tos))
    } else if i == 6 {
        (opcodes::MASK_OUT_X_Y, opcodes::OP_BCHG_32_R_DN, Handler::Basic(BasicOp::Bchg32RDn))
    } else if i == 7 {
        (opcodes::MASK_OUT_Y, opcodes::OP_BCHG_32_S_DN, Handler::Basic(BasicOp::Bchg32SDn))
    } else if i == 8 {
        (opcodes::MASK_OUT_X_Y, opcodes::OP_BCLR_32_R_DN, Handler::Basic(BasicOp::Bclr32RDn))
    } else if i == 9 {
        (opcodes::MASK_OUT_Y, opcodes::OP_BCLR_32_S_DN, Handler::Basic(BasicOp::Bclr32SDn))
    } else if i == 10 {
        (opcodes::MASK_OUT_X_Y, opcodes::OP_BSET_32_R_DN, Handler::Basic(BasicOp::Bset32RDn))
    } else if i == 11 {
        (opcodes::MASK_OUT_Y, opcodes::OP_BSET_32_S_DN, Handler::Basic(BasicOp::Bset32SDn))
    } else if i == 12 {
        (opcodes::MASK_OUT_X_Y, opcodes::OP_BTST_32_R_DN, Handler::Basic(BasicOp::Btst32RDn))
    } else if i == 13 {
        (opcodes::MASK_OUT_Y, opcodes::OP_BTST_32_S_DN, Handler::Basic(BasicOp::Btst32SDn))
    } else if i == 14 {
        (opcodes::MASK_OUT_X_Y, opcodes::OP_MOVEP_16_ER, Handler::Basic(BasicOp::Movep16Er))
    } else if i == 15 {
        (opcodes::MASK_OUT_X_Y, opcodes::OP_MOVEP_16_RE, Handler::Basic(BasicOp::Movep16Re))
    } else if i == 16 {
        (opcodes::MASK_OUT_X_Y, opcodes::OP_MOVEP_32_ER, Handler::Basic(BasicOp::Movep32Er))
    } else if i == 17 {
        (opcodes::MASK_OUT_X_Y, opcodes::OP_MOVEP_32_RE, Handler::Basic(BasicOp::Movep32Re))
    } else if i == 18 {
        (opcodes::MASK_OUT_Y, opcodes::OP_ADDI_8_DN, Handler::Basic(BasicOp::Addi8Dn))
    } else if i == 19 {
        (opcodes::MASK_OUT_Y, opcodes::OP_ADDI_8_AI, Handler::Basic(BasicOp::Addi8Ai))
    } else if i == 20 {
        (opcodes::MASK_OUT_Y, opcodes::OP_ADDI_8_PI, Handler::Basic(BasicOp::Addi8Pi))
    } else if i == 21 {
        (opcodes::MASK_OUT_Y, opcodes::OP_ADDI_8_PD, Handler::Basic(BasicOp::Addi8Pd))
    } else if i == 22 {
        (opcodes::MASK_OUT_Y, opcodes::OP_ADDI_8_DI, Handler::Basic(BasicOp::Addi8Di))
    } else if i == 23 {
        (opcodes::MASK_OUT_Y, opcodes::OP_ADDI_8_IX, Handler::Basic(BasicOp::Addi8Ix))
    } else if i == 24 {
        (opcodes::MASK_EXACT, opcodes::OP_ADDI_8_AW, Handler::Basic(BasicOp::Addi8Aw))
    } else if i == 25 {
        (opcodes::MASK_EXACT, opcodes::OP_ADDI_8_AL, Handler::Basic(BasicOp::Addi8Al))
    } else if i == 26 {
        (opcodes::MASK_OUT_Y, opcodes::OP_ADDI_16_DN, Handler::Basic(BasicOp::Addi16Dn))
    } else if i == 27 {
        (opcodes::MASK_OUT_Y, opcodes::OP_ADDI_16_AI, Handler::Basic(BasicOp::Addi16Ai))
    } else if i == 28 {
        (opcodes::MASK_OUT_Y, opcodes::OP_ADDI_16_PI, Handler::Basic(BasicOp::Addi16Pi))
    } else if i == 29 {
        (opcodes::MASK_OUT_Y, opcodes::OP_ADDI_16_PD, Handler::Basic(BasicOp::Addi16Pd))
    } else if i == 30 {
        (opcodes::MASK_OUT_Y, opcodes::OP_ADDI_16_DI, Handler::Basic(BasicOp::Addi16Di))
    } else if i == 31 {
        (opcodes::MASK_OUT_Y, opcodes::OP_ADDI_16_IX, Handler::Basic(BasicOp::Addi16Ix))
    } else if i == 32 {
        (opcodes::MASK_EXACT, opcodes::OP_ADDI_16_AW, Handler::Basic(BasicOp::Addi16Aw))
    } else if i == 33 {
        (opcodes::MASK_EXACT, opcodes::OP_ADDI_16_AL, Handler::Basic(BasicOp::Addi16Al))
    } else if i == 34 {
        (opcodes::MASK_OUT_Y, opcodes::OP_ADDI_32_DN, Handler::Basic(BasicOp::Addi32Dn))
    } else if i == 35 {
        (opcodes::MASK_OUT_Y, opcodes::OP_ADDI_32_AI, Handler::Basic(BasicOp::Addi32Ai))
    } else if i == 36 {
        (opcodes::MASK_OUT_Y, opcodes::OP_ADDI_32_PI, Handler::Basic(BasicOp::Addi32Pi))
    } else if i == 37 {
        (opcodes::MASK_OUT_Y, opcodes::OP_ADDI_32_PD, Handler::Basic(BasicOp::Addi32Pd))
    } else if i == 38 {
        (opcodes::MASK_OUT_Y, opcodes::OP_ADDI_32_DI, Handler::Basic(BasicOp::Addi32Di))
    } else if i == 39 {
        (opcodes::MASK_OUT_Y, opcodes::OP_ADDI_32_IX, Handler::Basic(BasicOp::Addi32Ix))
    } else if i == 40 {
        (opcodes::MASK_EXACT, opcodes::OP_ADDI_32_AW, Handler::Basic(BasicOp::Addi32Aw))
    } else if i == 41 {
        (opcodes::MASK_EXACT, opcodes::OP_ADDI_32_AL, Handler::Basic(BasicOp::Addi32Al))
    } else if i == 42 {
        (opcodes::MASK_OUT_Y, opcodes::OP_ANDI_8_DN, Handler::Basic(BasicOp::Andi8Dn))
    } else if i == 43 {
        (opcodes::MASK_OUT_Y, opcodes::OP_ANDI_8_AI, Handler::Basic(BasicOp::Andi8Ai))
    } else if i == 44 {
        (opcodes::MASK_OUT_Y, opcodes::OP_ANDI_8_PI, Handler::Basic(BasicOp::Andi8Pi))
    } else if i == 45 {
        (opcodes::MASK_OUT_Y, opcodes::OP_ANDI_8_PD, Handler::Basic(BasicOp::Andi8Pd))
    } else if i == 46 {
        (opcodes::MASK_OUT_Y, opcodes::OP_ANDI_8_DI, Handler::Basic(BasicOp::Andi8Di))
    } else if i == 47 {
        (opcodes::MASK_OUT_Y, opcodes::OP_ANDI_8_IX, Handler::Basic(BasicOp::Andi8Ix))
    } else if i == 48 {
        (opcodes::MASK_EXACT, opcodes::OP_ANDI_8_AW, Handler::Basic(BasicOp::Andi8Aw))
    } else if i == 49 {
        (opcodes::MASK_EXACT, opcodes::OP_ANDI_8_AL, Handler::Basic(BasicOp::Andi8Al))
    } else if i == 50 {
        (opcodes::MASK_OUT_Y, opcodes::OP_ANDI_16_DN, Handler::Basic(BasicOp::Andi16Dn))
    } else if i == 51 {
        (opcodes::MASK_OUT_Y, opcodes::OP_ANDI_16_AI, Handler::Basic(BasicOp::Andi16Ai))
    } else if i == 52 {
        (opcodes::MASK_OUT_Y, opcodes::OP_ANDI_16_PI, Handler::Basic(BasicOp::Andi16Pi))
    } else if i == 53 {
        (opcodes::MASK_OUT_Y, opcodes::OP_ANDI_16_PD, Handler::Basic(BasicOp::Andi16Pd))
    } else if i == 54 {
        (opcodes::MASK_OUT_Y, opcodes::OP_ANDI_16_DI, Handler::Basic(BasicOp::Andi16Di))
    } else if i == 55 {
        (opcodes::MASK_OUT_Y, opcodes::OP_ANDI_16_IX, Handler::Basic(BasicOp::Andi16Ix))
    } else if i == 56 {
        (opcodes::MASK_EXACT, opcodes::OP_ANDI_16_AW, Handler::Basic(BasicOp::Andi16Aw))
    } else if i == 57 {
        (opcodes::MASK_EXACT, opcodes::OP_ANDI_16_AL, Handler::Basic(BasicOp::Andi16Al))
    } else if i == 58 {
        (opcodes::MASK_OUT_Y, opcodes::OP_ANDI_32_DN, Handler::Basic(BasicOp::Andi32Dn))
    } else if i == 59 {
        (opcodes::MASK_OUT_Y, opcodes::OP_ANDI_32_AI, Handler::Basic(BasicOp::Andi32Ai))
    } else if i == 60 {
        (opcodes::MASK_OUT_Y, opcodes::OP_ANDI_32_PI, Handler::Basic(BasicOp::Andi32Pi))
    } else if i == 61 {
        (opcodes::MASK_OUT_Y, opcodes::OP_ANDI_32_PD, Handler::Basic(BasicOp::Andi32Pd))
    } else if i == 62 {
        (opcodes::MASK_OUT_Y, opcodes::OP_ANDI_32_DI, Handler::Basic(BasicOp::Andi32Di))
    } else if i == 63 {
        (opcodes::MASK_OUT_Y, opcodes::OP_ANDI_32_IX, Handler::Basic(BasicOp::Andi32Ix))
    } else if i == 64 {
        (opcodes::MASK_EXACT, opcodes::OP_ANDI_32_AW, Handler::Basic(BasicOp::Andi32Aw))
    } else if i == 65 {
        (opcodes::MASK_EXACT, opcodes::OP_ANDI_32_AL, Handler::Basic(BasicOp::Andi32Al))
    } else if i == 66 {
        (opcodes::MASK_OUT_Y, opcodes::OP_CMPI_8_DN, Handler::Basic(BasicOp::Cmpi8Dn))
    } else if i == 67 {
        (opcodes::MASK_OUT_Y, opcodes::OP_CMPI_8_AI, Handler::Basic(BasicOp::Cmpi8Ai))
    } else if i == 68 {
        (opcodes::MASK_OUT_Y, opcodes::OP_CMPI_8_PI, Handler::Basic(BasicOp::Cmpi8Pi))
    } else if i == 69 {
        (opcodes::MASK_OUT_Y, opcodes::OP_CMPI_8_PD, Handler::Basic(BasicOp::Cmpi8Pd))
    } else if i == 70 {
        (opcodes::MASK_OUT_Y, opcodes::OP_CMPI_8_DI, Handler::Basic(BasicOp::Cmpi8Di))
    } else if i == 71 {
        (opcodes::MASK_OUT_Y, opcodes::OP_CMPI_8_IX, Handler::Basic(BasicOp::Cmpi8Ix))
    } else if i == 72 {
        (opcodes::MASK_EXACT, opcodes::OP_CMPI_8_AW, Handler::Basic(BasicOp::Cmpi8Aw))
    } else if i == 73 {
        (opcodes::MASK_EXACT, opcodes::OP_CMPI_8_AL, Handler::Basic(BasicOp::Cmpi8Al))
    } else if i == 74 {
        (opcodes::MASK_OUT_Y, opcodes::OP_CMPI_16_DN, Handler::Basic(BasicOp::Cmpi16Dn))
    } else if i == 75 {
        (opcodes::MASK_OUT_Y, opcodes::OP_CMPI_16_AI, Handler::Basic(BasicOp::Cmpi16Ai))
    } else if i == 76 {
        (opcodes::MASK_OUT_Y, opcodes::OP_CMPI_16_PI, Handler::Basic(BasicOp::Cmpi16Pi))
    } else if i == 77 {
        (opcodes::MASK_OUT_Y, opcodes::OP_CMPI_16_PD, Handler::Basic(BasicOp::Cmpi16Pd))
    } else if i == 78 {
        (opcodes::MASK_OUT_Y, opcodes::OP_CMPI_16_DI, Handler::Basic(BasicOp::Cmpi16Di))
    } else if i == 79 {
        (opcodes::MASK_OUT_Y, opcodes::OP_CMPI_16_IX, Handler::Basic(BasicOp::Cmpi16Ix))
    } else if i == 80 {
        (opcodes::MASK_EXACT, opcodes::OP_CMPI_16_AW, Handler::Basic(BasicOp::Cmpi16Aw))
    } else if i == 81 {
        (opcodes::MASK_EXACT, opcodes::OP_CMPI_16_AL, Handler::Basic(BasicOp::Cmpi16Al))
    } else if i == 82 {
        (opcodes::MASK_OUT_Y, opcodes::OP_CMPI_32_DN, Handler::Basic(BasicOp::Cmpi32Dn))
    } else if i == 83 {
        (opcodes::MASK_OUT_Y, opcodes::OP_CMPI_32_AI, Handler::Basic(BasicOp::Cmpi32Ai))
    } else if i == 84 {
        (opcodes::MASK_OUT_Y, opcodes::OP_CMPI_32_PI, Handler::Basic(BasicOp::Cmpi32Pi))
    } else if i == 85 {
        (opcodes::MASK_OUT_Y, opcodes::OP_CMPI_32_PD, Handler::Basic(BasicOp::Cmpi32Pd))
    } else if i == 86 {
        (opcodes::MASK_OUT_Y, opcodes::OP_CMPI_32_DI, Handler::Basic(BasicOp::Cmpi32Di))
    } else if i == 87 {
        (opcodes::MASK_OUT_Y, opcodes::OP_CMPI_32_IX, Handler::Basic(BasicOp::Cmpi32Ix))
    } else if i == 88 {
        (opcodes::MASK_EXACT, opcodes::OP_CMPI_32_AW, Handler::Basic(BasicOp::Cmpi32Aw))
    } else if i == 89 {
        (opcodes::MASK_EXACT, opcodes::OP_CMPI_32_AL, Handler::Basic(BasicOp::Cmpi32Al))
    } else if i == 90 {
        (opcodes::MASK_OUT_Y, opcodes::OP_EORI_8_DN, Handler::Basic(BasicOp::Eori8Dn))
    } else if i == 91 {
        (opcodes::MASK_OUT_Y, opcodes::OP_EORI_8_AI, Handler::Basic(BasicOp::Eori8Ai))
    } else if i == 92 {
        (opcodes::MASK_OUT_Y, opcodes::OP_EORI_8_PI, Handler::Basic(BasicOp::Eori8Pi))
    } else if i == 93 {
        (opcodes::MASK_OUT_Y, opcodes::OP_EORI_8_PD, Handler::Basic(BasicOp::Eori8Pd))
    } else if i == 94 {
        (opcodes::MASK_OUT_Y, opcodes::OP_EORI_8_DI, Handler::Basic(BasicOp::Eori8Di))
    } else if i == 95 {
        (opcodes::MASK_OUT_Y, opcodes::OP_EORI_8_IX, Handler::Basic(BasicOp::Eori8Ix))
    } else if i == 96 {
        (opcodes::MASK_EXACT, opcodes::OP_EORI_8_AW, Handler::Basic(BasicOp::Eori8Aw))
    } else if i == 97 {
        (opcodes::MASK_EXACT, opcodes::OP_EORI_8_AL, Handler::Basic(BasicOp::Eori8Al))
    } else if i == 98 {
        (opcodes::MASK_OUT_Y, opcodes::OP_EORI_16_DN, Handler::Basic(BasicOp::Eori16Dn))
    } else if i == 99 {
        (opcodes::MASK_OUT_Y, opcodes::OP_EORI_16_AI, Handler::Basic(BasicOp::Eori16Ai))
    } else if i == 100 {
        (opcodes::MASK_OUT_Y, opcodes::OP_EORI_16_PI, Handler::Basic(BasicOp::Eori16Pi))
    } else if i == 101 {
        (opcodes::MASK_OUT_Y, opcodes::OP_EORI_16_PD, Handler::Basic(BasicOp::Eori16Pd))
    } else if i == 102 {
        (opcodes::MASK_OUT_Y, opcodes::OP_EORI_16_DI, Handler::Basic(BasicOp::Eori16Di))
    } else if i == 103 {
        (opcodes::MASK_OUT_Y, opcodes::OP_EORI_16_IX, Handler::Basic(BasicOp::Eori16Ix))
    } else if i == 104 {
        (opcodes::MASK_EXACT, opcodes::OP_EORI_16_AW, Handler::Basic(BasicOp::Eori16Aw))
    } else if i == 105 {
        (opcodes::MASK_EXACT, opcodes::OP_EORI_16_AL, Handler::Basic(BasicOp::Eori16Al))
    } else if i == 106 {
        (opcodes::MASK_OUT_Y, opcodes::OP_EORI_32_DN, Handler::Basic(BasicOp::Eori32Dn))
    } else if i == 107 {
        (opcodes::MASK_OUT_Y, opcodes::OP_EORI_32_AI, Handler::Basic(BasicOp::Eori32Ai))
    } else if i == 108 {
        (opcodes::MASK_OUT_Y, opcodes::OP_EORI_32_PI, Handler::Basic(BasicOp::Eori32Pi))
    } else if i == 109 {
        (opcodes::MASK_OUT_Y, opcodes::OP_EORI_32_PD, Handler::Basic(BasicOp::Eori32Pd))
    } else if i == 110 {
        (opcodes::MASK_OUT_Y, opcodes::OP_EORI_32_DI, Handler::Basic(BasicOp::Eori32Di))
    } else if i == 111 {
        (opcodes::MASK_OUT_Y, opcodes::OP_EORI_32_IX, Handler::Basic(BasicOp::Eori32Ix))
    } else if i == 112 {
        (opcodes::MASK_EXACT, opcodes::OP_EORI_32_AW, Handler::Basic(BasicOp::Eori32Aw))
    } else if i == 113 {
        (opcodes::MASK_EXACT, opcodes::OP_EORI_32_AL, Handler::Basic(BasicOp::Eori32Al))
    } else if i == 114 {
        (opcodes::MASK_OUT_Y, opcodes::OP_ORI_8_DN, Handler::Basic(BasicOp::Ori8Dn))
    } else if i == 115 {
        (opcodes::MASK_OUT_Y, opcodes::OP_ORI_8_AI, Handler::Basic(BasicOp::Ori8Ai))
    } else if i == 116 {
        (opcodes::MASK_OUT_Y, opcodes::OP_ORI_8_PI, Handler::Basic(BasicOp::Ori8Pi))
    } else if i == 117 {
        (opcodes::MASK_OUT_Y, opcodes::OP_ORI_8_PD, Handler::Basic(BasicOp::Ori8Pd))
    } else if i == 118 {
        (opcodes::MASK_OUT_Y, opcodes::OP_ORI_8_DI, Handler::Basic(BasicOp::Ori8Di))
    } else if i == 119 {
        (opcodes::MASK_OUT_Y, opcodes::OP_ORI_8_IX, Handler::Basic(BasicOp::Ori8Ix))
    } else if i == 120 {
        (opcodes::MASK_EXACT, opcodes::OP_ORI_8_AW, Handler::Basic(BasicOp::Ori8Aw))
    } else if i == 121 {
        (opcodes::MASK_EXACT, opcodes::OP_ORI_8_AL, Handler::Basic(BasicOp::Ori8Al))
    } else if i == 122 {
        (opcodes::MASK_OUT_Y, opcodes::OP_ORI_16_DN, Handler::Basic(BasicOp::Ori16Dn))
    } else if i == 123 {
        (opcodes::MASK_OUT_Y, opcodes::OP_ORI_16_AI, Handler::Basic(BasicOp::Ori16Ai))
    } else if i == 124 {
        (opcodes::MASK_OUT_Y, opcodes::OP_ORI_16_PI, Handler::Basic(BasicOp::Ori16Pi))
    } else if i == 125 {
        (opcodes::MASK_OUT_Y, opcodes::OP_ORI_16_PD, Handler::Basic(BasicOp::Ori16Pd))
    } else if i == 126 {
        (opcodes::MASK_OUT_Y, opcodes::OP_ORI_16_DI, Handler::Basic(BasicOp::Ori16Di))
    } else if i == 127 {
        (opcodes::MASK_OUT_Y, opcodes::OP_ORI_16_IX, Handler::Basic(BasicOp::Ori16Ix))
    } else if i == 128 {
        (opcodes::MASK_EXACT, opcodes::OP_ORI_16_AW, Handler::Basic(BasicOp::Ori16Aw))
    } else if i == 129 {
        (opcodes::MASK_EXACT, opcodes::OP_ORI_16_AL, Handler::Basic(BasicOp::Ori16Al))
    } else if i == 130 {
        (opcodes::MASK_OUT_Y, opcodes::OP_ORI_32_DN, Handler::Basic(BasicOp::Ori32Dn))
    } else if i == 131 {
        (opcodes::MASK_OUT_Y, opcodes::OP_ORI_32_AI, Handler::Basic(BasicOp::Ori32Ai))
    } else if i == 132 {
        (opcodes::MASK_OUT_Y, opcodes::OP_ORI_32_PI, Handler::Basic(BasicOp::Ori32Pi))
    } else if i == 133 {
        (opcodes::MASK_OUT_Y, opcodes::OP_ORI_32_PD, Handler::Basic(BasicOp::Ori32Pd))
    } else if i == 134 {
        (opcodes::MASK_OUT_Y, opcodes::OP_ORI_32_DI, Handler::Basic(BasicOp::Ori32Di))
    } else if i == 135 {
        (opcodes::MASK_OUT_Y, opcodes::OP_ORI_32_IX, Handler::Basic(BasicOp::Ori32Ix))
    } else if i == 136 {
        (opcodes::MASK_EXACT, opcodes::OP_ORI_32_AW, Handler::Basic(BasicOp::Ori32Aw))
    } else if i == 137 {
        (opcodes::MASK_EXACT, opcodes::OP_ORI_32_AL, Handler::Basic(BasicOp::Ori32Al))
    } else if i == 138 {
        (opcodes::MASK_OUT_Y, opcodes::OP_SUBI_8_DN, Handler::Basic(BasicOp::Subi8Dn))
    } else if i == 139 {
        (opcodes::MASK_OUT_Y, opcodes::OP_SUBI_8_AI, Handler::Basic(BasicOp::Subi8Ai))
    } else if i == 140 {
        (opcodes::MASK_OUT_Y, opcodes::OP_SUBI_8_PI, Handler::Basic(BasicOp::Subi8Pi))
    } else if i == 141 {
        (opcodes::MASK_OUT_Y, opcodes::OP_SUBI_8_PD, Handler::Basic(BasicOp::Subi8Pd))
    } else if i == 142 {
        (opcodes::MASK_OUT_Y, opcodes::OP_SUBI_8_DI, Handler::Basic(BasicOp::Subi8Di))
    } else if i == 143 {
        (opcodes::MASK_OUT_Y, opcodes::OP_SUBI_8_IX, Handler::Basic(BasicOp::Subi8Ix))
    } else if i == 144 {
        (opcodes::MASK_EXACT, opcodes::OP_SUBI_8_AW, Handler::Basic(BasicOp::Subi8Aw))
    } else if i == 145 {
        (opcodes::MASK_EXACT, opcodes::OP_SUBI_8_AL, Handler::Basic(BasicOp::Subi8Al))
    } else if i == 146 {
        (opcodes::MASK_OUT_Y, opcodes::OP_SUBI_16_DN, Handler::Basic(BasicOp::Subi16Dn))
    } else if i == 147 {
        (opcodes::MASK_OUT_Y, opcodes::OP_SUBI_16_AI, Handler::Basic(BasicOp::Subi16Ai))
    } else if i == 148 {
        (opcodes::MASK_OUT_Y, opcodes::OP_SUBI_16_PI, Handler::Basic(BasicOp::Subi16Pi))
    } else if i == 149 {
        (opcodes::MASK_OUT_Y, opcodes::OP_SUBI_16_PD, Handler::Basic(BasicOp::Subi16Pd))
    } else if i == 150 {
        (opcodes::MASK_OUT_Y, opcodes::OP_SUBI_16_DI, Handler::Basic(BasicOp::Subi16Di))
    } else if i == 151 {
        (opcodes::MASK_OUT_Y, opcodes::OP_SUBI_16_IX, Handler::Basic(BasicOp::Subi16Ix))
    } else if i == 152 {
        (opcodes::MASK_EXACT, opcodes::OP_SUBI_16_AW, Handler::Basic(BasicOp::Subi16Aw))
    } else if i == 153 {
        (opcodes::MASK_EXACT, opcodes::OP_SUBI_16_AL, Handler::Basic(BasicOp::Subi16Al))
    } else if i == 154 {
        (opcodes::MASK_OUT_Y, opcodes::OP_SUBI_32_DN, Handler::Basic(BasicOp::Subi32Dn))
    } else if i == 155 {
        (opcodes::MASK_OUT_Y, opcodes::OP_SUBI_32_AI, Handler::Basic(BasicOp::Subi32Ai))
    } else if i == 156 {
        (opcodes::MASK_OUT_Y, opcodes::OP_SUBI_32_PI, Handler::Basic(BasicOp::Subi32Pi))
    } else if i == 157 {
        (opcodes::MASK_OUT_Y, opcodes::OP_SUBI_32_PD, Handler::Basic(BasicOp::Subi32Pd))
    } else if i == 158 {
        (opcodes::MASK_OUT_Y, opcodes::OP_SUBI_32_DI, Handler::Basic(BasicOp::Subi32Di))
    } else if i == 159 {
        (opcodes::MASK_OUT_Y, opcodes::OP_SUBI_32_IX, Handler::Basic(BasicOp::Subi32Ix))
    } else if i == 160 {
        (opcodes::MASK_EXACT, opcodes::OP_SUBI_32_AW, Handler::Basic(BasicOp::Subi32Aw))
    } else if i == 161 {
        (opcodes::MASK_EXACT, opcodes::OP_SUBI_32_AL, Handler::Basic(BasicOp::Subi32Al))
    } else if i == 162 {
        (opcodes::MASK_OUT_X_Y, opcodes::OP_BCHG_8_R_AI, Handler::Bit(ops::bits::BitOp::Bchg8RAi))
    } else if i == 163 {
        (opcodes::MASK_OUT_X_Y, opcodes::OP_BCHG_8_R_PI, Handler::Bit(ops::bits::BitOp::Bchg8RPi))
    } else if i == 164 {
        (opcodes::MASK_OUT_X_Y, opcodes::OP_BCHG_8_R_PD, Handler::Bit(ops::bits::BitOp::Bchg8RPd))
    } else if i == 165 {
        (opcodes::MASK_OUT_X_Y, opcodes::OP_BCHG_8_R_DI, Handler::Bit(ops::bits::BitOp::Bchg8RDi))
    } else if i == 166 {
        (opcodes::MASK_OUT_X_Y, opcodes::OP_BCHG_8_R_IX, Handler::Bit(ops::bits::BitOp::Bchg8RIx))
    } else if i == 167 {
        (opcodes::MASK_OUT_X, opcodes::OP_BCHG_8_R_AW, Handler::Bit(ops::bits::BitOp::Bchg8RAw))
    } else if i == 168 {
        (opcodes::MASK_OUT_X, opcodes::OP_BCHG_8_R_AL, Handler::Bit(ops::bits::BitOp::Bchg8RAl))
    } else if i == 169 {
        (opcodes::MASK_OUT_Y, opcodes::OP_BCHG_8_S_AI, Handler::Bit(ops::bits::BitOp::Bchg8SAi))
    } else if i == 170 {
        (opcodes::MASK_OUT_Y, opcodes::OP_BCHG_8_S_PI, Handler::Bit(ops::bits::BitOp::Bchg8SPi))
    } else if i == 171 {
        (opcodes::MASK_OUT_Y, opcodes::OP_BCHG_8_S_PD, Handler::Bit(ops::bits::BitOp::Bchg8SPd))
    } else if i == 172 {
        (opcodes::MASK_OUT_Y, opcodes::OP_BCHG_8_S_DI, Handler::Bit(ops::bits::BitOp::Bchg8SDi))
    } else if i == 173 {
        (opcodes::MASK_OUT_Y, opcodes::OP_BCHG_8_S_IX, Handler::Bit(ops::bits::BitOp::Bchg8SIx))
    } else if i == 174 {
        (opcodes::MASK_EXACT, opcodes::OP_BCHG_8_S_AW, Handler::Bit(ops::bits::BitOp::Bchg8SAw))
    } else if i == 175 {
        (opcodes::MASK_EXACT, opcodes::OP_BCHG_8_S_AL, Handler::Bit(ops::bits::BitOp::Bchg8SAl))
    } else if i == 176 {
        (opcodes::MASK_OUT_X_Y, opcodes::OP_BCLR_8_R_AI, Handler::Bit(ops::bits::BitOp::Bclr8RAi))
    } else if i == 177 {
        (opcodes::MASK_OUT_X_Y, opcodes::OP_BCLR_8_R_PI, Handler::Bit(ops::bits::BitOp::Bclr8RPi))
    } else if i == 178 {
        (opcodes::MASK_OUT_X_Y, opcodes::OP_BCLR_8_R_PD, Handler::Bit(ops::bits::BitOp::Bclr8RPd))
    } else if i == 179 {
        (opcodes::MASK_OUT_X_Y, opcodes::OP_BCLR_8_R_DI, Handler::Bit(ops::bits::BitOp::Bclr8RDi))
    } else if i == 180 {
        (opcodes::MASK_OUT_X_Y, opcodes::OP_BCLR_8_R_IX, Handler::Bit(ops::bits::BitOp::Bclr8RIx))
    } else if i == 181 {
        (opcodes::MASK_OUT_X, opcodes::OP_BCLR_8_R_AW, Handler::Bit(ops::bits::BitOp::Bclr8RAw))
    } else if i == 182 {
        (opcodes::MASK_OUT_X, opcodes::OP_BCLR_8_R_AL, Handler::Bit(ops::bits::BitOp::Bclr8RAl))
    } else if i == 183 {
        (opcodes::MASK_OUT_Y, opcodes::OP_BCLR_8_S_AI, Handler::Bit(ops::bits::BitOp::Bclr8SAi))
    } else if i == 184 {
        (opcodes::MASK_OUT_Y, opcodes::OP_BCLR_8_S_PI, Handler::Bit(ops::bits::BitOp::Bclr8SPi))
    } else if i == 185 {
        (opcodes::MASK_OUT_Y, opcodes::OP_BCLR_8_S_PD, Handler::Bit(ops::bits::BitOp::Bclr8SPd))
    } else if i == 186 {
        (opcodes::MASK_OUT_Y, opcodes::OP_BCLR_8_S_DI, Handler::Bit(ops::bits::BitOp::Bclr8SDi))
    } else if i == 187 {
        (opcodes::MASK_OUT_Y, opcodes::OP_BCLR_8_S_IX, Handler::Bit(ops::bits::BitOp::Bclr8SIx))
    } else if i == 188 {
        (opcodes::MASK_EXACT, opcodes::OP_BCLR_8_S_AW, Handler::Bit(ops::bits::BitOp::Bclr8SAw))
    } else if i == 189 {
        (opcodes::MASK_EXACT, opcodes::OP_BCLR_8_S_AL, Handler::Bit(ops::bits::BitOp::Bclr8SAl))
    } else if i == 190 {
        (opcodes::MASK_OUT_X_Y, opcodes::OP_BSET_8_R_AI, Handler::Bit(ops::bits::BitOp::Bset8RAi))
    } else if i == 191 {
        (opcodes::MASK_OUT_X_Y, opcodes::OP_BSET_8_R_PI, Handler::Bit(ops::bits::BitOp::Bset8RPi))
    } else if i == 192 {
        (opcodes::MASK_OUT_X_Y, opcodes::OP_BSET_8_R_PD, Handler::Bit(ops::bits::BitOp::Bset8RPd))
    } else if i == 193 {
        (opcodes::MASK_OUT_X_Y, opcodes::OP_BSET_8_R_DI, Handler::Bit(ops::bits::BitOp::Bset8RDi))
    } else if i == 194 {
        (opcodes::MASK_OUT_X_Y, opcodes::OP_BSET_8_R_IX, Handler::Bit(ops::bits::BitOp::Bset8RIx))
    } else if i == 195 {
        (opcodes::MASK_OUT_X, opcodes::OP_BSET_8_R_AW, Handler::Bit(ops::bits::BitOp::Bset8RAw))
    } else if i == 196 {
        (opcodes::MASK_OUT_X, opcodes::OP_BSET_8_R_AL, Handler::Bit(ops::bits::BitOp::Bset8RAl))
    } else if i == 197 {
        (opcodes::MASK_OUT_Y, opcodes::OP_BSET_8_S_AI, Handler::Bit(ops::bits::BitOp::Bset8SAi))
    } else if i == 198 {
        (opcodes::MASK_OUT_Y, opcodes::OP_BSET_8_S_PI, Handler::Bit(ops::bits::BitOp::Bset8SPi))
    } else if i == 199 {
        (opcodes::MASK_OUT_Y, opcodes::OP_BSET_8_S_PD, Handler::Bit(ops::bits::BitOp::Bset8SPd))
    } else if i == 200 {
        (opcodes::MASK_OUT_Y, opcodes::OP_BSET_8_S_DI, Handler::Bit(ops::bits::BitOp::Bset8SDi))
    } else if i == 201 {
        (opcodes::MASK_OUT_Y, opcodes::OP_BSET_8_S_IX, Handler::Bit(ops::bits::BitOp::Bset8SIx))
    } else if i == 202 {
        (opcodes::MASK_EXACT, opcodes::OP_BSET_8_S_AW, Handler::Bit(ops::bits::BitOp::Bset8SAw))
    } else if i == 203 {
        (opcodes::MASK_EXACT, opcodes::OP_BSET_8_S_AL, Handler::Bit(ops::bits::BitOp::Bset8SAl))
    } else if i == 204 {
        (opcodes::MASK_OUT_X_Y, opcodes::OP_BTST_8_R_AI, Handler::Bit(ops::bits::BitOp::Btst8RAi))
    } else if i == 205 {
        (opcodes::MASK_OUT_X_Y, opcodes::OP_BTST_8_R_PI, Handler::Bit(ops::bits::BitOp::Btst8RPi))
    } else if i == 206 {
        (opcodes::MASK_OUT_X_Y, opcodes::OP_BTST_8_R_PD, Handler::Bit(ops::bits::BitOp::Btst8RPd))
    } else if i == 207 {
        (opcodes::MASK_OUT_X_Y, opcodes::OP_BTST_8_R_DI, Handler::Bit(ops::bits::BitOp::Btst8RDi))
    } else if i == 208 {
        (opcodes::MASK_OUT_X_Y, opcodes::OP_BTST_8_R_IX, Handler::Bit(ops::bits::BitOp::Btst8RIx))
    } else if i == 209 {
        (opcodes::MASK_OUT_X, opcodes::OP_BTST_8_R_AW, Handler::Bit(ops::bits::BitOp::Btst8RAw))
    } else if i == 210 {
        (opcodes::MASK_OUT_X, opcodes::OP_BTST_8_R_AL, Handler::Bit(ops::bits::BitOp::Btst8RAl))
    } else if i == 211 {
        (opcodes::MASK_OUT_X, opcodes::OP_BTST_8_R_PCDI, Handler::Bit(ops::bits::BitOp::Btst8RPcdi))
    } else if i == 212 {
        (opcodes::MASK_OUT_X, opcodes::OP_BTST_8_R_PCIX, Handler::Bit(ops::bits::BitOp::Btst8RPcix))
    } else if i == 213 {
        (opcodes::MASK_OUT_X, opcodes::OP_BTST_8_R_IMM, Handler::Bit(ops::bits::BitOp::Btst8RImm))
    } else if i == 214 {
        (opcodes::MASK_OUT_Y, opcodes::OP_BTST_8_S_AI, Handler::Bit(ops::bits::BitOp::Btst8SAi))
    } else if i == 215 {
        (opcodes::MASK_OUT_Y, opcodes::OP_BTST_8_S_PI, Handler::Bit(ops::bits::BitOp::Btst8SPi))
    } else if i == 216 {
        (opcodes::MASK_OUT_Y, opcodes::OP_BTST_8_S_PD, Handler::Bit(ops::bits::BitOp::Btst8SPd))
    } else if i == 217 {
        (opcodes::MASK_OUT_Y, opcodes::OP_BTST_8_S_DI, Handler::Bit(ops::bits::BitOp::Btst8SDi))
    } else if i == 218 {
        (opcodes::MASK_OUT_Y, opcodes::OP_BTST_8_S_IX, Handler::Bit(ops::bits::BitOp::Btst8SIx))
    } else if i == 219 {
        (opcodes::MASK_EXACT, opcodes::OP_BTST_8_S_AW, Handler::Bit(ops::bits::BitOp::Btst8SAw))
    } else if i == 220 {
        (opcodes::MASK_EXACT, opcodes::OP_BTST_8_S_AL, Handler::Bit(ops::bits::BitOp::Btst8SAl))
    } else if i == 221 {
        (opcodes::MASK_EXACT, opcodes::OP_BTST_8_S_PCDI, Handler::Bit(ops::bits::BitOp::Btst8SPcdi))
    } else if i == 222 {
        (opcodes::MASK_EXACT, opcodes::OP_BTST_8_S_PCIX, Handler::Bit(ops::bits::BitOp::Btst8SPcix))
    } else {
        (opcodes::MASK_EXACT, opcodes::OP_BTST_8_S_IMM, Handler::Bit(ops::bits::BitOp::Btst8SImm))
    }
}

fn group_0_at(i: usize) -> (r: (u32, u32, Handler))
    requires
        i < group_size(0),
    ensures
        r == group_0(i as int),
{
    match i {
        0 => (opcodes::MASK_EXACT, opcodes::OP_ANDI_8_TOC, Handler::Basic(BasicOp::Andi8Toc)),
        1 => (opcodes::MASK_EXACT, opcodes::OP_ANDI_16_TOS, Handler::Basic(BasicOp::Andi16Tos)),
        2 => (opcodes::MASK_EXACT, opcodes::OP_EORI_8_TOC, Handler::Basic(BasicOp::Eori8Toc)),
        3 => (opcodes::MASK_EXACT, opcodes::OP_EORI_16_TOS, Handler::Basic(BasicOp::Eori16Tos)),
        4 => (opcodes::MASK_EXACT, opcodes::OP_ORI_8_TOC, Handler::Basic(BasicOp::Ori8Toc)),
        5 => (opcodes::MASK_EXACT, opcodes::OP_ORI_16_TOS, Handler::Basic(BasicOp::Ori16Tos)),
        6 => (opcodes::MASK_OUT_X_Y, opcodes::OP_BCHG_32_R_DN, Handler::Basic(BasicOp::Bchg32RDn)),
        7 => (opcodes::MASK_OUT_Y, opcodes::OP_BCHG_32_S_DN, Handler::Basic(BasicOp::Bchg32SDn)),
        8 => (opcodes::MASK_OUT_X_Y, opcodes::OP_BCLR_32_R_DN, Handler::Basic(BasicOp::Bclr32RDn)),
        9 => (opcodes::MASK_OUT_Y, opcodes::OP_BCLR_32_S_DN, Handler::Basic(BasicOp::Bclr32SDn)),
        10 => (opcodes::MASK_OUT_X_Y, opcodes::OP_BSET_32_R_DN, Handler::Basic(BasicOp::Bset32RDn)),
        11 => (opcodes::MASK_OUT_Y, opcodes::OP_BSET_32_S_DN, Handler::Basic(BasicOp::Bset32SDn)),
        12 => (opcodes::MASK_OUT_X_Y, opcodes::OP_BTST_32_R_DN, Handler::Basic(BasicOp::Btst32RDn)),
        13 => (opcodes::MASK_OUT_Y, opcodes::OP_BTST_32_S_DN, Handler::Basic(BasicOp::Btst32SDn)),
        14 => (opcodes::MASK_OUT_X_Y, opcodes::OP_MOVEP_16_ER, Handler::Basic(BasicOp::Movep16Er)),
        15 => (opcodes::MASK_OUT_X_Y, opcodes::OP_MOVEP_16_RE, Handler::Basic(BasicOp::Movep16Re)),
        16 => (opcodes::MASK_OUT_X_Y, opcodes::OP_MOVEP_32_ER, Handler::Basic(BasicOp::Movep32Er)),
        17 => (opcodes::MASK_OUT_X_Y, opcodes::OP_MOVEP_32_RE, Handler::Basic(BasicOp::Movep32Re)),
        18 => (opcodes::MASK_OUT_Y, opcodes::OP_ADDI_8_DN, Handler::Basic(BasicOp::Addi8Dn)),
        19 => (opcodes::MASK_OUT_Y, opcodes::OP_ADDI_8_AI, Handler::Basic(BasicOp::Addi8Ai)),
        20 => (opcodes::MASK_OUT_Y, opcodes::OP_ADDI_8_PI, Handler::Basic(BasicOp::Addi8Pi)),
        21 => (opcodes::MASK_OUT_Y, opcodes::OP_ADDI_8_PD, Handler::Basic(BasicOp::Addi8Pd)),
        22 => (opcodes::MASK_OUT_Y, opcodes::OP_ADDI_8_DI, Handler::Basic(BasicOp::Addi8Di)),
        23 => (opcodes::MASK_OUT_Y, opcodes::OP_ADDI_8_IX, Handler::Basic(BasicOp::Addi8Ix)),
        24 => (opcodes::MASK_EXACT, opcodes::OP_ADDI_8_AW, Handler::Basic(BasicOp::Addi8Aw)),
        25 => (opcodes::MASK_EXACT, opcodes::OP_ADDI_8_AL, Handler::Basic(BasicOp::Addi8Al)),
        26 => (opcodes::MASK_OUT_Y, opcodes::OP_ADDI_16_DN, Handler::Basic(BasicOp::Addi16Dn)),
        27 => (opcodes::MASK_OUT_Y, opcodes::OP_ADDI_16_AI, Handler::Basic(BasicOp::Addi16Ai)),
        28 => (opcodes::MASK_OUT_Y, opcodes::OP_ADDI_16_PI, Handler::Basic(BasicOp::Addi16Pi)),
        29 => (opcodes::MASK_OUT_Y, opcodes::OP_ADDI_16_PD, Handler::Basic(BasicOp::Addi16Pd)),
        30 => (opcodes::MASK_OUT_Y, opcodes::OP_ADDI_16_DI, Handler::Basic(BasicOp::Addi16Di)),
        31 => (opcodes::MASK_OUT_Y, opcodes::OP_ADDI_16_IX, Handler::Basic(BasicOp::Addi16Ix)),
        32 => (opcodes::MASK_EXACT, opcodes::OP_ADDI_16_AW, Handler::Basic(BasicOp::Addi16Aw)),
        33 => (opcodes::MASK_EXACT, opcodes::OP_ADDI_16_AL, Handler::Basic(BasicOp::Addi16Al)),
        34 => (opcodes::MASK_OUT_Y, opcodes::OP_ADDI_32_DN, Handler::Basic(BasicOp::Addi32Dn)),
        35 => (opcodes::MASK_OUT_Y, opcodes::OP_ADDI_32_AI, Handler::Basic(BasicOp::Addi32Ai)),
        36 => (opcodes::MASK_OUT_Y, opcodes::OP_ADDI_32_PI, Handler::Basic(BasicOp::Addi32Pi)),
        37 => (opcodes::MASK_OUT_Y, opcodes::OP_ADDI_32_PD, Handler::Basic(BasicOp::Addi32Pd)),
        38 => (opcodes::MASK_OUT_Y, opcodes::OP_ADDI_32_DI, Handler::Basic(BasicOp::Addi32Di)),
        39 => (opcodes::MASK_OUT_Y, opcodes::OP_ADDI_32_IX, Handler::Basic(BasicOp::Addi32Ix)),
        40 => (opcodes::MASK_EXACT, opcodes::OP_ADDI_32_AW, Handler::Basic(BasicOp::Addi32Aw)),
        41 => (opcodes::MASK_EXACT, opcodes::OP_ADDI_32_AL, Handler::Basic(BasicOp::Addi32Al)),
        42 => (opcodes::MASK_OUT_Y, opcodes::OP_ANDI_8_DN, Handler::Basic(BasicOp::Andi8Dn)),
        43 => (opcodes::MASK_OUT_Y, opcodes::OP_ANDI_8_AI, Handler::Basic(BasicOp::Andi8Ai)),
        44 => (opcodes::MASK_OUT_Y, opcodes::OP_ANDI_8_PI, Handler::Basic(BasicOp::Andi8Pi)),
        45 => (opcodes::MASK_OUT_Y, opcodes::OP_ANDI_8_PD, Handler::Basic(BasicOp::Andi8Pd)),
        46 => (opcodes::MASK_OUT_Y, opcodes::OP_ANDI_8_DI, Handler::Basic(BasicOp::Andi8Di)),
        47 => (opcodes::MASK_OUT_Y, opcodes::OP_ANDI_8_IX, Handler::Basic(BasicOp::Andi8Ix)),
        48 => (opcodes::MASK_EXACT, opcodes::OP_ANDI_8_AW, Handler::Basic(BasicOp::Andi8Aw)),
        49 => (opcodes::MASK_EXACT, opcodes::OP_ANDI_8_AL, Handler::Basic(BasicOp::Andi8Al)),
        50 => (opcodes::MASK_OUT_Y, opcodes::OP_ANDI_16_DN, Handler::Basic(BasicOp::Andi16Dn)),
        51 => (opcodes::MASK_OUT_Y, opcodes::OP_ANDI_16_AI, Handler::Basic(BasicOp::Andi16Ai)),
        52 => (opcodes::MASK_OUT_Y, opcodes::OP_ANDI_16_PI, Handler::Basic(BasicOp::Andi16Pi)),
        53 => (opcodes::MASK_OUT_Y, opcodes::OP_ANDI_16_PD, Handler::Basic(BasicOp::Andi16Pd)),
        54 => (opcodes::MASK_OUT_Y, opcodes::OP_ANDI_16_DI, Handler::Basic(BasicOp::Andi16Di)),
        55 => (opcodes::MASK_OUT_Y, opcodes::OP_ANDI_16_IX, Handler::Basic(BasicOp::Andi16Ix)),
        56 => (opcodes::MASK_EXACT, opcodes::OP_ANDI_16_AW, Handler::Basic(BasicOp::Andi16Aw)),
        57 => (opcodes::MASK_EXACT, opcodes::OP_ANDI_16_AL, Handler::Basic(BasicOp::Andi16Al)),
        58 => (opcodes::MASK_OUT_Y, opcodes::OP_ANDI_32_DN, Handler::Basic(BasicOp::Andi32Dn)),
        59 => (opcodes::MASK_OUT_Y, opcodes::OP_ANDI_32_AI, Handler::Basic(BasicOp::Andi32Ai)),
        60 => (opcodes::MASK_OUT_Y, opcodes::OP_ANDI_32_PI, Handler::Basic(BasicOp::Andi32Pi)),
        61 => (opcodes::MASK_OUT_Y, opcodes::OP_ANDI_32_PD, Handler::Basic(BasicOp::Andi32Pd)),
        62 => (opcodes::MASK_OUT_Y, opcodes::OP_ANDI_32_DI, Handler::Basic(BasicOp::Andi32Di)),
        63 => (opcodes::MASK_OUT_Y, opcodes::OP_ANDI_32_IX, Handler::Basic(BasicOp::Andi32Ix)),
        64 => (opcodes::MASK_EXACT, opcodes::OP_ANDI_32_AW, Handler::Basic(BasicOp::Andi32Aw)),
        65 => (opcodes::MASK_EXACT, opcodes::OP_ANDI_32_AL, Handler::Basic(BasicOp::Andi32Al)),
        66 => (opcodes::MASK_OUT_Y, opcodes::OP_CMPI_8_DN, Handler::Basic(BasicOp::Cmpi8Dn)),
        67 => (opcodes::MASK_OUT_Y, opcodes::OP_CMPI_8_AI, Handler::Basic(BasicOp::Cmpi8Ai)),
        68 => (opcodes::MASK_OUT_Y, opcodes::OP_CMPI_8_PI, Handler::Basic(BasicOp::Cmpi8Pi)),
        69 => (opcodes::MASK_OUT_Y, opcodes::OP_CMPI_8_PD, Handler::Basic(BasicOp::Cmpi8Pd)),
        70 => (opcodes::MASK_OUT_Y, opcodes::OP_CMPI_8_DI, Handler::Basic(BasicOp::Cmpi8Di)),
        71 => (opcodes::MASK_OUT_Y, opcodes::OP_CMPI_8_IX, Handler::Basic(BasicOp::Cmpi8Ix)),
        72 => (opcodes::MASK_EXACT, opcodes::OP_CMPI_8_AW, Handler::Basic(BasicOp::Cmpi8Aw)),
        73 => (opcodes::MASK_EXACT, opcodes::OP_CMPI_8_AL, Handler::Basic(BasicOp::Cmpi8Al)),
        74 => (opcodes::MASK_OUT_Y, opcodes::OP_CMPI_16_DN, Handler::Basic(BasicOp::Cmpi16Dn)),
        75 => (opcodes::MASK_OUT_Y, opcodes::OP_CMPI_16_AI, Handler::Basic(BasicOp::Cmpi16Ai)),
        76 => (opcodes::MASK_OUT_Y, opcodes::OP_CMPI_16_PI, Handler::Basic(BasicOp::Cmpi16Pi)),
        77 => (opcodes::MASK_OUT_Y, opcodes::OP_CMPI_16_PD, Handler::Basic(BasicOp::Cmpi16Pd)),
        78 => (opcodes::MASK_OUT_Y, opcodes::OP_CMPI_16_DI, Handler::Basic(BasicOp::Cmpi16Di)),
        79 => (opcodes::MASK_OUT_Y, opcodes::OP_CMPI_16_IX, Handler::Basic(BasicOp::Cmpi16Ix)),
        80 => (opcodes::MASK_EXACT, opcodes::OP_CMPI_16_AW, Handler::Basic(BasicOp::Cmpi16Aw)),
        81 => (opcodes::MASK_EXACT, opcodes::OP_CMPI_16_AL, Handler::Basic(BasicOp::Cmpi16Al)),
        82 => (opcodes::MASK_OUT_Y, opcodes::OP_CMPI_32_DN, Handler::Basic(BasicOp::Cmpi32Dn)),
        83 => (opcodes::MASK_OUT_Y, opcodes::OP_CMPI_32_AI, Handler::Basic(BasicOp::Cmpi32Ai)),
        84 => (opcodes::MASK_OUT_Y, opcodes::OP_CMPI_32_PI, Handler::Basic(BasicOp::Cmpi32Pi)),
        85 => (opcodes::MASK_OUT_Y, opcodes::OP_CMPI_32_PD, Handler::Basic(BasicOp::Cmpi32Pd)),
        86 => (opcodes::MASK_OUT_Y, opcodes::OP_CMPI_32_DI, Handler::Basic(BasicOp::Cmpi32Di)),
        87 => (opcodes::MASK_OUT_Y, opcodes::OP_CMPI_32_IX, Handler::Basic(BasicOp::Cmpi32Ix)),
        88 => (opcodes::MASK_EXACT, opcodes::OP_CMPI_32_AW, Handler::Basic(BasicOp::Cmpi32Aw)),
        89 => (opcodes::MASK_EXACT, opcodes::OP_CMPI_32_AL, Handler::Basic(BasicOp::Cmpi32Al)),
        90 => (opcodes::MASK_OUT_Y, opcodes::OP_EORI_8_DN, Handler::Basic(BasicOp::Eori8Dn)),
        91 => (opcodes::MASK_OUT_Y, opcodes::OP_EORI_8_AI, Handler::Basic(BasicOp::Eori8Ai)),
        92 => (opcodes::MASK_OUT_Y, opcodes::OP_EORI_8_PI, Handler::Basic(BasicOp::Eori8Pi)),
        93 => (opcodes::MASK_OUT_Y, opcodes::OP_EORI_8_PD, Handler::Basic(BasicOp::Eori8Pd)),
        94 => (opcodes::MASK_OUT_Y, opcodes::OP_EORI_8_DI, Handler::Basic(BasicOp::Eori8Di)),
        95 => (opcodes::MASK_OUT_Y, opcodes::OP_EORI_8_IX, Handler::Basic(BasicOp::Eori8Ix)),
        96 => (opcodes::MASK_EXACT, opcodes::OP_EORI_8_AW, Handler::Basic(BasicOp::Eori8Aw)),
        97 => (opcodes::MASK_EXACT, opcodes::OP_EORI_8_AL, Handler::Basic(BasicOp::Eori8Al)),
        98 => (opcodes::MASK_OUT_Y, opcodes::OP_EORI_16_DN, Handler::Basic(BasicOp::Eori16Dn)),
        99 => (opcodes::MASK_OUT_Y, opcodes::OP_EORI_16_AI, Handler::Basic(BasicOp::Eori16Ai)),
        100 => (opcodes::MASK_OUT_Y, opcodes::OP_EORI_16_PI, Handler::Basic(BasicOp::Eori16Pi)),
        101 => (opcodes::MASK_OUT_Y, opcodes::OP_EORI_16_PD, Handler::Basic(BasicOp::Eori16Pd)),
        102 => (opcodes::MASK_OUT_Y, opcodes::OP_EORI_16_DI, Handler::Basic(BasicOp::Eori16Di)),
        103 => (opcodes::MASK_OUT_Y, opcodes::OP_EORI_16_IX, Handler::Basic(BasicOp::Eori16Ix)),
        104 => (opcodes::MASK_EXACT, opcodes::OP_EORI_16_AW, Handler::Basic(BasicOp::Eori16Aw)),
        105 => (opcodes::MASK_EXACT, opcodes::OP_EORI_16_AL, Handler::Basic(BasicOp::Eori16Al)),
        106 => (opcodes::MASK_OUT_Y, opcodes::OP_EORI_32_DN, Handler::Basic(BasicOp::Eori32Dn)),
        107 => (opcodes::MASK_OUT_Y, opcodes::OP_EORI_32_AI, Handler::Basic(BasicOp::Eori32Ai)),
        108 => (opcodes::MASK_OUT_Y, opcodes::OP_EORI_32_PI, Handler::Basic(BasicOp::Eori32Pi)),
        109 => (opcodes::MASK_OUT_Y, opcodes::OP_EORI_32_PD, Handler::Basic(BasicOp::Eori32Pd)),
        110 => (opcodes::MASK_OUT_Y, opcodes::OP_EORI_32_DI, Handler::Basic(BasicOp::Eori32Di)),
        111 => (opcodes::MASK_OUT_Y, opcodes::OP_EORI_32_IX, Handler::Basic(BasicOp::Eori32Ix)),
        112 => (opcodes::MASK_EXACT, opcodes::OP_EORI_32_AW, Handler::Basic(BasicOp::Eori32Aw)),
        113 => (opcodes::MASK_EXACT, opcodes::OP_EORI_32_AL, Handler::Basic(BasicOp::Eori32Al)),
        114 => (opcodes::MASK_OUT_Y, opcodes::OP_ORI_8_DN, Handler::Basic(BasicOp::Ori8Dn)),
        115 => (opcodes::MASK_OUT_Y, opcodes::OP_ORI_8_AI, Handler::Basic(BasicOp::Ori8Ai)),
        116 => (opcodes::MASK_OUT_Y, opcodes::OP_ORI_8_PI, Handler::Basic(BasicOp::Ori8Pi)),
        117 => (opcodes::MASK_OUT_Y, opcodes::OP_ORI_8_PD, Handler::Basic(BasicOp::Ori8Pd)),
        118 => (opcodes::MASK_OUT_Y, opcodes::OP_ORI_8_DI, Handler::Basic(BasicOp::Ori8Di)),
        119 => (opcodes::MASK_OUT_Y, opcodes::OP_ORI_8_IX, Handler::Basic(BasicOp::Ori8Ix)),
        120 => (opcodes::MASK_EXACT, opcodes::OP_ORI_8_AW, Handler::Basic(BasicOp::Ori8Aw)),
        121 => (opcodes::MASK_EXACT, opcodes::OP_ORI_8_AL, Handler::Basic(BasicOp::Ori8Al)),
        122 => (opcodes::MASK_OUT_Y, opcodes::OP_ORI_16_DN, Handler::Basic(BasicOp::Ori16Dn)),
        123 => (opcodes::MASK_OUT_Y, opcodes::OP_ORI_16_AI, Handler::Basic(BasicOp::Ori16Ai)),
        124 => (opcodes::MASK_OUT_Y, opcodes::OP_ORI_16_PI, Handler::Basic(BasicOp::Ori16Pi)),
        125 => (opcodes::MASK_OUT_Y, opcodes::OP_ORI_16_PD, Handler::Basic(BasicOp::Ori16Pd)),
        126 => (opcodes::MASK_OUT_Y, opcodes::OP_ORI_16_DI, Handler::Basic(BasicOp::Ori16Di)),
        127 => (opcodes::MASK_OUT_Y, opcodes::OP_ORI_16_IX, Handler::Basic(BasicOp::Ori16Ix)),
        128 => (opcodes::MASK_EXACT, opcodes::OP_ORI_16_AW, Handler::Basic(BasicOp::Ori16Aw)),
        129 => (opcodes::MASK_EXACT, opcodes::OP_ORI_16_AL, Handler::Basic(BasicOp::Ori16Al)),
        130 => (opcodes::MASK_OUT_Y, opcodes::OP_ORI_32_DN, Handler::Basic(BasicOp::Ori32Dn)),
        131 => (opcodes::MASK_OUT_Y, opcodes::OP_ORI_32_AI, Handler::Basic(BasicOp::Ori32Ai)),
        132 => (opcodes::MASK_OUT_Y, opcodes::OP_ORI_32_PI, Handler::Basic(BasicOp::Ori32Pi)),
        133 => (opcodes::MASK_OUT_Y, opcodes::OP_ORI_32_PD, Handler::Basic(BasicOp::Ori32Pd)),
        134 => (opcodes::MASK_OUT_Y, opcodes::OP_ORI_32_DI, Handler::Basic(BasicOp::Ori32Di)),
        135 => (opcodes::MASK_OUT_Y, opcodes::OP_ORI_32_IX, Handler::Basic(BasicOp::Ori32Ix)),
        136 => (opcodes::MASK_EXACT, opcodes::OP_ORI_32_AW, Handler::Basic(BasicOp::Ori32Aw)),
        137 => (opcodes::MASK_EXACT, opcodes::OP_ORI_32_AL, Handler::Basic(BasicOp::Ori32Al)),
        138 => (opcodes::MASK_OUT_Y, opcodes::OP_SUBI_8_DN, Handler::Basic(BasicOp::Subi8Dn)),
        139 => (opcodes::MASK_OUT_Y, opcodes::OP_SUBI_8_AI, Handler::Basic(BasicOp::Subi8Ai)),
        140 => (opcodes::MASK_OUT_Y, opcodes::OP_SUBI_8_PI, Handler::Basic(BasicOp::Subi8Pi)),
        141 => (opcodes::MASK_OUT_Y, opcodes::OP_SUBI_8_PD, Handler::Basic(BasicOp::Subi8Pd)),
        142 => (opcodes::MASK_OUT_Y, opcodes::OP_SUBI_8_DI, Handler::Basic(BasicOp::Subi8Di)),
        143 => (opcodes::MASK_OUT_Y, opcodes::OP_SUBI_8_IX, Handler::Basic(BasicOp::Subi8Ix)),
        144 => (opcodes::MASK_EXACT, opcodes::OP_SUBI_8_AW, Handler::Basic(BasicOp::Subi8Aw)),
        145 => (opcodes::MASK_EXACT, opcodes::OP_SUBI_8_AL, Handler::Basic(BasicOp::Subi8Al)),
        146 => (opcodes::MASK_OUT_Y, opcodes::OP_SUBI_16_DN, Handler::Basic(BasicOp::Subi16Dn)),
        147 => (opcodes::MASK_OUT_Y, opcodes::OP_SUBI_16_AI, Handler::Basic(BasicOp::Subi16Ai)),
        148 => (opcodes::MASK_OUT_Y, opcodes::OP_SUBI_16_PI, Handler::Basic(BasicOp::Subi16Pi)),
        149 => (opcodes::MASK_OUT_Y, opcodes::OP_SUBI_16_PD, Handler::Basic(BasicOp::Subi16Pd)),
        150 => (opcodes::MASK_OUT_Y, opcodes::OP_SUBI_16_DI, Handler::Basic(BasicOp::Subi16Di)),
        151 => (opcodes::MASK_OUT_Y, opcodes::OP_SUBI_16_IX, Handler::Basic(BasicOp::Subi16Ix)),
        152 => (opcodes::MASK_EXACT, opcodes::OP_SUBI_16_AW, Handler::Basic(BasicOp::Subi16Aw)),
        153 => (opcodes::MASK_EXACT, opcodes::OP_SUBI_16_AL, Handler::Basic(BasicOp::Subi16Al)),
        154 => (opcodes::MASK_OUT_Y, opcodes::OP_SUBI_32_DN, Handler::Basic(BasicOp::Subi32Dn)),
        155 => (opcodes::MASK_OUT_Y, opcodes::OP_SUBI_32_AI, Handler::Basic(BasicOp::Subi32Ai)),
        156 => (opcodes::MASK_OUT_Y, opcodes::OP_SUBI_32_PI, Handler::Basic(BasicOp::Subi32Pi)),
        157 => (opcodes::MASK_OUT_Y, opcodes::OP_SUBI_32_PD, Handler::Basic(BasicOp::Subi32Pd)),
        158 => (opcodes::MASK_OUT_Y, opcodes::OP_SUBI_32_DI, Handler::Basic(BasicOp::Subi32Di)),
        159 => (opcodes::MASK_OUT_Y, opcodes::OP_SUBI_32_IX, Handler::Basic(BasicOp::Subi32Ix)),
        160 => (opcodes::MASK_EXACT, opcodes::OP_SUBI_32_AW, Handler::Basic(BasicOp::Subi32Aw)),
        161 => (opcodes::MASK_EXACT, opcodes::OP_SUBI_32_AL, Handler::Basic(BasicOp::Subi32Al)),
        162 => (opcodes::MASK_OUT_X_Y, opcodes::OP_BCHG_8_R_AI, Handler::Bit(ops::bits::BitOp::Bchg8RAi)),
        163 => (opcodes::MASK_OUT_X_Y, opcodes::OP_BCHG_8_R_PI, Handler::Bit(ops::bits::BitOp::Bchg8RPi)),
        164 => (opcodes::MASK_OUT_X_Y, opcodes::OP_BCHG_8_R_PD, Handler::Bit(ops::bits::BitOp::Bchg8RPd)),
        165 => (opcodes::MASK_OUT_X_Y, opcodes::OP_BCHG_8_R_DI, Handler::Bit(ops::bits::BitOp::Bchg8RDi)),
        166 => (opcodes::MASK_OUT_X_Y, opcodes::OP_BCHG_8_R_IX, Handler::Bit(ops::bits::BitOp::Bchg8RIx)),
        167 => (opcodes::MASK_OUT_X, opcodes::OP_BCHG_8_R_AW, Handler::Bit(ops::bits::BitOp::Bchg8RAw)),
        168 => (opcodes::MASK_OUT_X, opcodes::OP_BCHG_8_R_AL, Handler::Bit(ops::bits::BitOp::Bchg8RAl)),
        169 => (opcodes::MASK_OUT_Y, opcodes::OP_BCHG_8_S_AI, Handler::Bit(ops::bits::BitOp::Bchg8SAi)),
        170 => (opcodes::MASK_OUT_Y, opcodes::OP_BCHG_8_S_PI, Handler::Bit(ops::bits::BitOp::Bchg8SPi)),
        171 => (opcodes::MASK_OUT_Y, opcodes::OP_BCHG_8_S_PD, Handler::Bit(ops::bits::BitOp::Bchg8SPd)),
        172 => (opcodes::MASK_OUT_Y, opcodes::OP_BCHG_8_S_DI, Handler::Bit(ops::bits::BitOp::Bchg8SDi)),
        173 => (opcodes::MASK_OUT_Y, opcodes::OP_BCHG_8_S_IX, Handler::Bit(ops::bits::BitOp::Bchg8SIx)),
        174 => (opcodes::MASK_EXACT, opcodes::OP_BCHG_8_S_AW, Handler::Bit(ops::bits::BitOp::Bchg8SAw)),
        175 => (opcodes::MASK_EXACT, opcodes::OP_BCHG_8_S_AL, Handler::Bit(ops::bits::BitOp::Bchg8SAl)),
        176 => (opcodes::MASK_OUT_X_Y, opcodes::OP_BCLR_8_R_AI, Handler::Bit(ops::bits::BitOp::Bclr8RAi)),
        177 => (opcodes::MASK_OUT_X_Y, opcodes::OP_BCLR_8_R_PI, Handler::Bit(ops::bits::BitOp::Bclr8RPi)),
        178 => (opcodes::MASK_OUT_X_Y, opcodes::OP_BCLR_8_R_PD, Handler::Bit(ops::bits::BitOp::Bclr8RPd)),
        179 => (opcodes::MASK_OUT_X_Y, opcodes::OP_BCLR_8_R_DI, Handler::Bit(ops::bits::BitOp::Bclr8RDi)),
        180 => (opcodes::MASK_OUT_X_Y, opcodes::OP_BCLR_8_R_IX, Handler::Bit(ops::bits::BitOp::Bclr8RIx)),
        181 => (opcodes::MASK_OUT_X, opcodes::OP_BCLR_8_R_AW, Handler::Bit(ops::bits::BitOp::Bclr8RAw)),
        182 => (opcodes::MASK_OUT_X, opcodes::OP_BCLR_8_R_AL, Handler::Bit(ops::bits::BitOp::Bclr8RAl)),
        183 => (opcodes::MASK_OUT_Y, opcodes::OP_BCLR_8_S_AI, Handler::Bit(ops::bits::BitOp::Bclr8SAi)),
        184 => (opcodes::MASK_OUT_Y, opcodes::OP_BCLR_8_S_PI, Handler::Bit(ops::bits::BitOp::Bclr8SPi)),
        185 => (opcodes::MASK_OUT_Y, opcodes::OP_BCLR_8_S_PD, Handler::Bit(ops::bits::BitOp::Bclr8SPd)),
        186 => (opcodes::MASK_OUT_Y, opcodes::OP_BCLR_8_S_DI, Handler::Bit(ops::bits::BitOp::Bclr8SDi)),
        187 => (opcodes::MASK_OUT_Y, opcodes::OP_BCLR_8_S_IX, Handler::Bit(ops::bits::BitOp::Bclr8SIx)),
        188 => (opcodes::MASK_EXACT, opcodes::OP_BCLR_8_S_AW, Handler::Bit(ops::bits::BitOp::Bclr8SAw)),
        189 => (opcodes::MASK_EXACT, opcodes::OP_BCLR_8_S_AL, Handler::Bit(ops::bits::BitOp::Bclr8SAl)),
        190 => (opcodes::MASK_OUT_X_Y, opcodes::OP_BSET_8_R_AI, Handler::Bit(ops::bits::BitOp::Bset8RAi)),
        191 => (opcodes::MASK_OUT_X_Y, opcodes::OP_BSET_8_R_PI, Handler::Bit(ops::bits::BitOp::Bset8RPi)),
        192 => (opcodes::MASK_OUT_X_Y, opcodes::OP_BSET_8_R_PD, Handler::Bit(ops::bits::BitOp::Bset8RPd)),
        193 => (opcodes::MASK_OUT_X_Y, opcodes::OP_BSET_8_R_DI, Handler::Bit(ops::bits::BitOp::Bset8RDi)),
        194 => (opcodes::MASK_OUT_X_Y, opcodes::OP_BSET_8_R_IX, Handler::Bit(ops::bits::BitOp::Bset8RIx)),
        195 => (opcodes::MASK_OUT_X, opcodes::OP_BSET_8_R_AW, Handler::Bit(ops::bits::BitOp::Bset8RAw)),
        196 => (opcodes::MASK_OUT_X, opcodes::OP_BSET_8_R_AL, Handler::Bit(ops::bits::BitOp::Bset8RAl)),
        197 => (opcodes::MASK_OUT_Y, opcodes::OP_BSET_8_S_AI, Handler::Bit(ops::bits::BitOp::Bset8SAi)),
        198 => (opcodes::MASK_OUT_Y, opcodes::OP_BSET_8_S_PI, Handler::Bit(ops::bits::BitOp::Bset8SPi)),
        199 => (opcodes::MASK_OUT_Y, opcodes::OP_BSET_8_S_PD, Handler::Bit(ops::bits::BitOp::Bset8SPd)),
        200 => (opcodes::MASK_OUT_Y, opcodes::OP_BSET_8_S_DI, Handler::Bit(ops::bits::BitOp::Bset8SDi)),
        201 => (opcodes::MASK_OUT_Y, opcodes::OP_BSET_8_S_IX, Handler::Bit(ops::bits::BitOp::Bset8SIx)),
        202 => (opcodes::MASK_EXACT, opcodes::OP_BSET_8_S_AW, Handler::Bit(ops::bits::BitOp::Bset8SAw)),
        203 => (opcodes::MASK_EXACT, opcodes::OP_BSET_8_S_AL, Handler::Bit(ops::bits::BitOp::Bset8SAl)),
        204 => (opcodes::MASK_OUT_X_Y, opcodes::OP_BTST_8_R_AI, Handler::Bit(ops::bits::BitOp::Btst8RAi)),
        205 => (opcodes::MASK_OUT_X_Y, opcodes::OP_BTST_8_R_PI, Handler::Bit(ops::bits::BitOp::Btst8RPi)),
        206 => (opcodes::MASK_OUT_X_Y, opcodes::OP_BTST_8_R_PD, Handler::Bit(ops::bits::BitOp::Btst8RPd)),
        207 => (opcodes::MASK_OUT_X_Y, opcodes::OP_BTST_8_R_DI, Handler::Bit(ops::bits::BitOp::Btst8RDi)),
        208 => (opcodes::MASK_OUT_X_Y, opcodes::OP_BTST_8_R_IX, Handler::Bit(ops::bits::BitOp::Btst8RIx)),
        209 => (opcodes::MASK_OUT_X, opcodes::OP_BTST_8_R_AW, Handler::Bit(ops::bits::BitOp::Btst8RAw)),
        210 => (opcodes::MASK_OUT_X, opcodes::OP_BTST_8_R_AL, Handler::Bit(ops::bits::BitOp::Btst8RAl)),
        211 => (opcodes::MASK_OUT_X, opcodes::OP_BTST_8_R_PCDI, Handler::Bit(ops::bits::BitOp::Btst8RPcdi)),
        212 => (opcodes::MASK_OUT_X, opcodes::OP_BTST_8_R_PCIX, Handler::Bit(ops::bits::BitOp::Btst8RPcix)),
        213 => (opcodes::MASK_OUT_X, opcodes::OP_BTST_8_R_IMM, Handler::Bit(ops::bits::BitOp::Btst8RImm)),
        214 => (opcodes::MASK_OUT_Y, opcodes::OP_BTST_8_S_AI, Handler::Bit(ops::bits::BitOp::Btst8SAi)),
        215 => (opcodes::MASK_OUT_Y, opcodes::OP_BTST_8_S_PI, Handler::Bit(ops::bits::BitOp::Btst8SPi)),
        216 => (opcodes::MASK_OUT_Y, opcodes::OP_BTST_8_S_PD, Handler::Bit(ops::bits::BitOp::Btst8SPd)),
        217 => (opcodes::MASK_OUT_Y, opcodes::OP_BTST_8_S_DI, Handler::Bit(ops::bits::BitOp::Btst8SDi)),
        218 => (opcodes::MASK_OUT_Y, opcodes::OP_BTST_8_S_IX, Handler::Bit(ops::bits::BitOp::Btst8SIx)),
        219 => (opcodes::MASK_EXACT, opcodes::OP_BTST_8_S_AW, Handler::Bit(ops::bits::BitOp::Btst8SAw)),
        220 => (opcodes::MASK_EXACT, opcodes::OP_BTST_8_S_AL, Handler::Bit(ops::bits::BitOp::Btst8SAl)),
        221 => (opcodes::MASK_EXACT, opcodes::OP_BTST_8_S_PCDI, Handler::Bit(ops::bits::BitOp::Btst8SPcdi)),
        222 => (opcodes::MASK_EXACT, opcodes::OP_BTST_8_S_PCIX, Handler::Bit(ops::bits::BitOp::Btst8SPcix)),
        _ => (opcodes::MASK_EXACT, opcodes::OP_BTST_8_S_IMM, Handler::Bit(ops::bits::BitOp::Btst8SImm)),
    }
}

/// The instruction patterns of group 1, in the order they are tried.
pub open spec fn group_1(i: int) -> (u32, u32, Handler) {
    if i == 0 {
        (opcodes::MASK_OUT_X_Y, opcodes::OP_MOVE_8_DN_DN, Handler::Move(ops::moves::MoveOp::Move8DnDn))
    } else if i == 1 {
        (opcodes::MASK_OUT_X_Y, opcodes::OP_MOVE_8_AI_DN, Handler::Move(ops::moves::MoveOp::Move8AiDn))
    } else if i == 2 {
        (opcodes::MASK_OUT_X_Y, opcodes::OP_MOVE_8_PI_DN, Handler::Move(ops::moves::MoveOp::Move8PiDn))
    } else if i == 3 {
        (opcodes::MASK_OUT_X_Y, opcodes::OP_MOVE_8_PD_DN, Handler::Move(ops::moves::MoveOp::Move8PdDn))
    } else if i == 4 {
        (opcodes::MASK_OUT_X_Y, opcodes::OP_MOVE_8_DI_DN, Handler::Move(ops::moves::MoveOp::Move8DiDn))
    } else if i == 5 {
        (opcodes::MASK_OUT_X_Y, opcodes::OP_MOVE_8_IX_DN, Handler::Move(ops::moves::MoveOp::Move8IxDn))
    } else if i == 6 {
        (opcodes::MASK_OUT_Y, opcodes::OP_MOVE_8_AW_DN, Handler::Move(ops::moves::MoveOp::Move8AwDn))
    } else if i == 7 {
        (opcodes::MASK_OUT_Y, opcodes::OP_MOVE_8_AL_DN, Handler::Move(ops::moves::MoveOp::Move8AlDn))
    } else if i == 8 {
        (opcodes::MASK_OUT_X_Y, opcodes::OP_MOVE_8_DN_AI, Handler::Move(ops::moves::MoveOp::Move8DnAi))
    } else if i == 9 {
        (opcodes::MASK_OUT_X_Y, opcodes::OP_MOVE_8_AI_AI, Handler::Move(ops::moves::MoveOp::Move8AiAi))
    } else if i == 10 {
        (opcodes::MASK_OUT_X_Y, opcodes::OP_MOVE_8_PI_AI, Handler::Move(ops::moves::MoveOp::Move8PiAi))
    } else if i == 11 {
        (opcodes::MASK_OUT_X_Y, opcodes::OP_MOVE_8_PD_AI, Handler::Move(ops::moves::MoveOp::Move8PdAi))
    } else if i == 12 {
        (opcodes::MASK_OUT_X_Y, opcodes::OP_MOVE_8_DI_AI, Handler::Move(ops::moves::MoveOp::Move8DiAi))
    } else if i == 13 {
        (opcodes::MASK_OUT_X_Y, opcodes::OP_MOVE_8_IX_AI, Handler::Move(ops::moves::MoveOp::Move8IxAi))
    } else if i == 14 {
        (opcodes::MASK_OUT_Y, opcodes::OP_MOVE_8_AW_AI, Handler::Move(ops::moves::MoveOp::Move8AwAi))
    } else if i == 15 {
        (opcodes::MASK_OUT_Y, opcodes::OP_MOVE_8_AL_AI, Handler::Move(ops::moves::MoveOp::Move8AlAi))
    } else if i == 16 {
        (opcodes::MASK_OUT_X_Y, opcodes::OP_MOVE_8_DN_PI, Handler::Move(ops::moves::MoveOp::Move8DnPi))
    } else if i == 17 {
        (opcodes::MASK_OUT_X_Y, opcodes::OP_MOVE_8_AI_PI, Handler::Move(ops::moves::MoveOp::Move8AiPi))
    } else if i == 18 {
        (opcodes::MASK_OUT_X_Y, opcodes::OP_MOVE_8_PI_PI, Handler::Move(ops::moves::MoveOp::Move8PiPi))
    } else if i == 19 {
        (opcodes::MASK_OUT_X_Y, opcodes::OP_MOVE_8_PD_PI, Handler::Move(ops::moves::MoveOp::Move8PdPi))
    } else if i == 20 {
        (opcodes::MASK_OUT_X_Y, opcodes::OP_MOVE_8_DI_PI, Handler::Move(ops::moves::MoveOp::Move8DiPi))
    } else if i == 21 {
        (opcodes::MASK_OUT_X_Y, opcodes::OP_MOVE_8_IX_PI, Handler::Move(ops::moves::MoveOp::Move8IxPi))
    } else if i == 22 {
        (opcodes::MASK_OUT_Y, opcodes::OP_MOVE_8_AW_PI, Handler::Move(ops::moves::MoveOp::Move8AwPi))
    } else if i == 23 {
        (opcodes::MASK_OUT_Y, opcodes::OP_MOVE_8_AL_PI, Handler::Move(ops::moves::MoveOp::Move8AlPi))
    } else if i == 24 {
        (opcodes::MASK_OUT_X_Y, opcodes::OP_MOVE_8_DN_PD, Handler::Move(ops::moves::MoveOp::Move8DnPd))
    } else if i == 25 {
        (opcodes::MASK_OUT_X_Y, opcodes::OP_MOVE_8_AI_PD, Handler::Move(ops::moves::MoveOp::Move8AiPd))
    } else if i == 26 {
        (opcodes::MASK_OUT_X_Y, opcodes::OP_MOVE_8_PI_PD, Handler::Move(ops::moves::MoveOp::Move8PiPd))
    } else if i == 27 {
        (opcodes::MASK_OUT_X_Y, opcodes::OP_MOVE_8_PD_PD, Handler::Move(ops::moves::MoveOp::Move8PdPd))
    } else if i == 28 {
        (opcodes::MASK_OUT_X_Y, opcodes::OP_MOVE_8_DI_PD, Handler::Move(ops::moves::MoveOp::Move8DiPd))
    } else if i == 29 {
        (opcodes::MASK_OUT_X_Y, opcodes::OP_MOVE_8_IX_PD, Handler::Move(ops::moves::MoveOp::Move8IxPd))
    } else if i == 30 {
        (opcodes::MASK_OUT_Y, opcodes::OP_MOVE_8_AW_PD, Handler::Move(ops::moves::MoveOp::Move8AwPd))
    } else if i == 31 {
        (opcodes::MASK_OUT_Y, opcodes::OP_MOVE_8_AL_PD, Handler::Move(ops::moves::MoveOp::Move8AlPd))
    } else if i == 32 {
        (opcodes::MASK_OUT_X_Y, opcodes::OP_MOVE_8_DN_DI, Handler::Move(ops::moves::MoveOp::Move8DnDi))
    } else if i == 33 {
        (opcodes::MASK_OUT_X_Y, opcodes::OP_MOVE_8_AI_DI, Handler::Move(ops::moves::MoveOp::Move8AiDi))
    } else if i == 34 {
        (opcodes::MASK_OUT_X_Y, opcodes::OP_MOVE_8_PI_DI, Handler::Move(ops::moves::MoveOp::Move8PiDi))
    } else if i == 35 {
        (opcodes::MASK_OUT_X_Y, opcodes::OP_MOVE_8_PD_DI, Handler::Move(ops::moves::MoveOp::Move8PdDi))
    } else if i == 36 {
        (opcodes::MASK_OUT_X_Y, opcodes::OP_MOVE_8_DI_DI, Handler::Move(ops::moves::MoveOp::Move8DiDi))
    } else if i == 37 {
        (opcodes::MASK_OUT_X_Y, opcodes::OP_MOVE_8_IX_DI, Handler::Move(ops::moves::MoveOp::Move8IxDi))
    } else if i == 38 {
        (opcodes::MASK_OUT_Y, opcodes::OP_MOVE_8_AW_DI, Handler::Move(ops::moves::MoveOp::Move8AwDi))
    } else if i == 39 {
        (opcodes::MASK_OUT_Y, opcodes::OP_MOVE_8_AL_DI, Handler::Move(ops::moves::MoveOp::Move8AlDi))
    } else if i == 40 {
        (opcodes::MASK_OUT_X_Y, opcodes::OP_MOVE_8_DN_IX, Handler::Move(ops::moves::MoveOp::Move8DnIx))
    } else if i == 41 {
        (opcodes::MASK_OUT_X_Y, opcodes::OP_MOVE_8_AI_IX, Handler::Move(ops::moves::MoveOp::Move8AiIx))
    } else if i == 42 {
        (opcodes::MASK_OUT_X_Y, opcodes::OP_MOVE_8_PI_IX, Handler::Move(ops::moves::MoveOp::Move8PiIx))
    } else if i == 43 {
        (opcodes::MASK_OUT_X_Y, opcodes::OP_MOVE_8_PD_IX, Handler::Move(ops::moves::MoveOp::Move8PdIx))
    } else if i == 44 {
        (opcodes::MASK_OUT_X_Y, opcodes::OP_MOVE_8_DI_IX, Handler::Move(ops::moves::MoveOp::Move8DiIx))
    } else if i == 45 {
        (opcodes::MASK_OUT_X_Y, opcodes::OP_MOVE_8_IX_IX, Handler::Move(ops::moves::MoveOp::Move8IxIx))
    } else if i == 46 {
        (opcodes::MASK_OUT_Y, opcodes::OP_MOVE_8_AW_IX, Handler::Move(ops::moves::MoveOp::Move8AwIx))
    } else if i == 47 {
        (opcodes::MASK_OUT_Y, opcodes::OP_MOVE_8_AL_IX, Handler::Move(ops::moves::MoveOp::Move8AlIx))
    } else if i == 48 {
        (opcodes::MASK_OUT_X, opcodes::OP_MOVE_8_DN_AW, Handler::Move(ops::moves::MoveOp::Move8DnAw))
    } else if i == 49 {
        (opcodes::MASK_OUT_X, opcodes::OP_MOVE_8_AI_AW, Handler::Move(ops::moves::MoveOp::Move8AiAw))
    } else if i == 50 {
        (opcodes::MASK_OUT_X, opcodes::OP_MOVE_8_PI_AW, Handler::Move(ops::moves::MoveOp::Move8PiAw))
    } else if i == 51 {
        (opcodes::MASK_OUT_X, opcodes::OP_MOVE_8_PD_AW, Handler::Move(ops::moves::MoveOp::Move8PdAw))
    } else if i == 52 {
        (opcodes::MASK_OUT_X, opcodes::OP_MOVE_8_DI_AW, Handler::Move(ops::moves::MoveOp::Move8DiAw))
    } else if i == 53 {
        (opcodes::MASK_OUT_X, opcodes::OP_MOVE_8_IX_AW, Handler::Move(ops::moves::MoveOp::Move8IxAw))
    } else if i == 54 {
        (opcodes::MASK_EXACT, opcodes::OP_MOVE_8_AW_AW, Handler::Move(ops::moves::MoveOp::Move8AwAw))
    } else if i == 55 {
        (opcodes::MASK_EXACT, opcodes::OP_MOVE_8_AL_AW, Handler::Move(ops::moves::MoveOp::Move8AlAw))
    } else if i == 56 {
        (opcodes::MASK_OUT_X, opcodes::OP_MOVE_8_DN_AL, Handler::Move(ops::moves::MoveOp::Move8DnAl))
    } else if i == 57 {
        (opcodes::MASK_OUT_X, opcodes::OP_MOVE_8_AI_AL, Handler::Move(ops::moves::MoveOp::Move8AiAl))
    } else if i == 58 {
        (opcodes::MASK_OUT_X, opcodes::OP_MOVE_8_PI_AL, Handler::Move(ops::moves::MoveOp::Move8PiAl))
    } else if i == 59 {
        (opcodes::MASK_OUT_X, opcodes::OP_MOVE_8_PD_AL, Handler::Move(ops::moves::MoveOp::Move8PdAl))
    } else if i == 60 {
        (opcodes::MASK_OUT_X, opcodes::OP_MOVE_8_DI_AL, Handler::Move(ops::moves::MoveOp::Move8DiAl))
    } else if i == 61 {
        (opcodes::MASK_OUT_X, opcodes::OP_MOVE_8_IX_AL, Handler::Move(ops::moves::MoveOp::Move8IxAl))
    } else if i == 62 {
        (opcodes::MASK_EXACT, opcodes::OP_MOVE_8_AW_AL, Handler::Move(ops::moves::MoveOp::Move8AwAl))
    } else if i == 63 {
        (opcodes::MASK_EXACT, opcodes::OP_MOVE_8_AL_AL, Handler::Move(ops::moves::MoveOp::Move8AlAl))
    } else if i == 64 {
        (opcodes::MASK_OUT_X, opcodes::OP_MOVE_8_DN_PCDI, Handler::Move(ops::moves::MoveOp::Move8DnPcdi))
    } else if i == 65 {
        (opcodes::MASK_OUT_X, opcodes::OP_MOVE_8_AI_PCDI, Handler::Move(ops::moves::MoveOp::Move8AiPcdi))
    } else if i == 66 {
        (opcodes::MASK_OUT_X, opcodes::OP_MOVE_8_PI_PCDI, Handler::Move(ops::moves::MoveOp::Move8PiPcdi))
    } else if i == 67 {
        (opcodes::MASK_OUT_X, opcodes::OP_MOVE_8_PD_PCDI, Handler::Move(ops::moves::MoveOp::Move8PdPcdi))
    } else if i == 68 {
        (opcodes::MASK_OUT_X, opcodes::OP_MOVE_8_DI_PCDI, Handler::Move(ops::moves::MoveOp::Move8DiPcdi))
    } else if i == 69 {
        (opcodes::MASK_OUT_X, opcodes::OP_MOVE_8_IX_PCDI, Handler::Move(ops::moves::MoveOp::Move8IxPcdi))
    } else if i == 70 {
        (opcodes::MASK_EXACT, opcodes::OP_MOVE_8_AW_PCDI, Handler::Move(ops::moves::MoveOp::Move8AwPcdi))
    } else if i == 71 {
        (opcodes::MASK_EXACT, opcodes::OP_MOVE_8_AL_PCDI, Handler::Move(ops::moves::MoveOp::Move8AlPcdi))
    } else if i == 72 {
        (opcodes::MASK_OUT_X, opcodes::OP_MOVE_8_DN_PCIX, Handler::Move(ops::moves::MoveOp::Move8DnPcix))
    } else if i == 73 {
        (opcodes::MASK_OUT_X, opcodes::OP_MOVE_8_AI_PCIX, Handler::Move(ops::moves::MoveOp::Move8AiPcix))
    } else if i == 74 {
        (opcodes::MASK_OUT_X, opcodes::OP_MOVE_8_PI_PCIX, Handler::Move(ops::moves::MoveOp::Move8PiPcix))
    } else if i == 75 {
        (opcodes::MASK_OUT_X, opcodes::OP_MOVE_8_PD_PCIX, Handler::Move(ops::moves::MoveOp::Move8PdPcix))
    } else if i == 76 {
        (opcodes::MASK_OUT_X, opcodes::OP_MOVE_8_DI_PCIX, Handler::Move(ops::moves::MoveOp::Move8DiPcix))
    } else if i == 77 {
        (opcodes::MASK_OUT_X, opcodes::OP_MOVE_8_IX_PCIX, Handler::Move(ops::moves::MoveOp::Move8IxPcix))
    } else if i == 78 {
        (opcodes::MASK_EXACT, opcodes::OP_MOVE_8_AW_PCIX, Handler::Move(ops::moves::MoveOp::Move8AwPcix))
    } else if i == 79 {
        (opcodes::MASK_EXACT, opcodes::OP_MOVE_8_AL_PCIX, Handler::Move(ops::moves::MoveOp::Move8AlPcix))
    } else if i == 80 {
        (opcodes::MASK_OUT_X, opcodes::OP_MOVE_8_DN_IMM, Handler::Move(ops::moves::MoveOp::Move8DnImm))
    } else if i == 81 {
        (opcodes::MASK_OUT_X, opcodes::OP_MOVE_8_AI_IMM, Handler::Move(ops::moves::MoveOp::Move8AiImm))
    } else if i == 82 {
        (opcodes::MASK_OUT_X, opcodes::OP_MOVE_8_PI_IMM, Handler::Move(ops::moves::MoveOp::Move8PiImm))
    } else if i == 83 {
        (opcodes::MASK_OUT_X, opcodes::OP_MOVE_8_PD_IMM, Handler::Move(ops::moves::MoveOp::Move8PdImm))
    } else if i == 84 {
        (opcodes::MASK_OUT_X, opcodes::OP_MOVE_8_DI_IMM, Handler::Move(ops::moves::MoveOp::Move8DiImm))
    } else if i == 85 {
        (opcodes::MASK_OUT_X, opcodes::OP_MOVE_8_IX_IMM, Handler::Move(ops::moves::MoveOp::Move8IxImm))
    } else if i == 86 {
        (opcodes::MASK_EXACT, opcodes::OP_MOVE_8_AW_IMM, Handler::Move(ops::moves::MoveOp::Move8AwImm))
    } else {
        (opcodes::MASK_EXACT, opcodes::OP_MOVE_8_AL_IMM, Handler::Move(ops::moves::MoveOp::Move8AlImm))
    }
}

fn group_1_at(i: usize) -> (r: (u32, u32, Handler))
    requires
        i < group_size(1),
    ensures
        r == group_1(i as int),
{
    match i {
        0 => (opcodes::MASK_OUT_X_Y, opcodes::OP_MOVE_8_DN_DN, Handler::Move(ops::moves::MoveOp::Move8DnDn)),
        1 => (opcodes::MASK_OUT_X_Y, opcodes::OP_MOVE_8_AI_DN, Handler::Move(ops::moves::MoveOp::Move8AiDn)),
        2 => (opcodes::MASK_OUT_X_Y, opcodes::OP_MOVE_8_PI_DN, Handler::Move(ops::moves::MoveOp::Move8PiDn)),
        3 => (opcodes::MASK_OUT_X_Y, opcodes::OP_MOVE_8_PD_DN, Handler::Move(ops::moves::MoveOp::Move8PdDn)),
        4 => (opcodes::MASK_OUT_X_Y, opcodes::OP_MOVE_8_DI_DN, Handler::Move(ops::moves::MoveOp::Move8DiDn)),
        5 => (opcodes::MASK_OUT_X_Y, opcodes::OP_MOVE_8_IX_DN, Handler::Move(ops::moves::MoveOp::Move8IxDn)),
        6 => (opcodes::MASK_OUT_Y, opcodes::OP_MOVE_8_AW_DN, Handler::Move(ops::moves::MoveOp::Move8AwDn)),
        7 => (opcodes::MASK_OUT_Y, opcodes::OP_MOVE_8_AL_DN, Handler::Move(ops::moves::MoveOp::Move8AlDn)),
        8 => (opcodes::MASK_OUT_X_Y, opcodes::OP_MOVE_8_DN_AI, Handler::Move(ops::moves::MoveOp::Move8DnAi)),
        9 => (opcodes::MASK_OUT_X_Y, opcodes::OP_MOVE_8_AI_AI, Handler::Move(ops::moves::MoveOp::Move8AiAi)),
        10 => (opcodes::MASK_OUT_X_Y, opcodes::OP_MOVE_8_PI_AI, Handler::Move(ops::moves::MoveOp::Move8PiAi)),
        11 => (opcodes::MASK_OUT_X_Y, opcodes::OP_MOVE_8_PD_AI, Handler::Move(ops::moves::MoveOp::Move8PdAi)),
        12 => (opcodes::MASK_OUT_X_Y, opcodes::OP_MOVE_8_DI_AI, Handler::Move(ops::moves::MoveOp::Move8DiAi)),
        13 => (opcodes::MASK_OUT_X_Y, opcodes::OP_MOVE_8_IX_AI, Handler::Move(ops::moves::MoveOp::Move8IxAi)),
        14 => (opcodes::MASK_OUT_Y, opcodes::OP_MOVE_8_AW_AI, Handler::Move(ops::moves::MoveOp::Move8AwAi)),
        15 => (opcodes::MASK_OUT_Y, opcodes::OP_MOVE_8_AL_AI, Handler::Move(ops::moves::MoveOp::Move8AlAi)),
        16 => (opcodes::MASK_OUT_X_Y, opcodes::OP_MOVE_8_DN_PI, Handler::Move(ops::moves::MoveOp::Move8DnPi)),
        17 => (opcodes::MASK_OUT_X_Y, opcodes::OP_MOVE_8_AI_PI, Handler::Move(ops::moves::MoveOp::Move8AiPi)),
        18 => (opcodes::MASK_OUT_X_Y, opcodes::OP_MOVE_8_PI_PI, Handler::Move(ops::moves::MoveOp::Move8PiPi)),
        19 => (opcodes::MASK_OUT_X_Y, opcodes::OP_MOVE_8_PD_PI, Handler::Move(ops::moves::MoveOp::Move8PdPi)),
        20 => (opcodes::MASK_OUT_X_Y, opcodes::OP_MOVE_8_DI_PI, Handler::Move(ops::moves::MoveOp::Move8DiPi)),
        21 => (opcodes::MASK_OUT_X_Y, opcodes::OP_MOVE_8_IX_PI, Handler::Move(ops::moves::MoveOp::Move8IxPi)),
        22 => (opcodes::MASK_OUT_Y, opcodes::OP_MOVE_8_AW_PI, Handler::Move(ops::moves::MoveOp::Move8AwPi)),
        23 => (opcodes::MASK_OUT_Y, opcodes::OP_MOVE_8_AL_PI, Handler::Move(ops::moves::MoveOp::Move8AlPi)),
        24 => (opcodes::MASK_OUT_X_Y, opcodes::OP_MOVE_8_DN_PD, Handler::Move(ops::moves::MoveOp::Move8DnPd)),
        25 => (opcodes::MASK_OUT_X_Y, opcodes::OP_MOVE_8_AI_PD, Handler::Move(ops::moves::MoveOp::Move8AiPd)),
        26 => (opcodes::MASK_OUT_X_Y, opcodes::OP_MOVE_8_PI_PD, Handler::Move(ops::moves::MoveOp::Move8PiPd)),
        27 => (opcodes::MASK_OUT_X_Y, opcodes::OP_MOVE_8_PD_PD, Handler::Move(ops::moves::MoveOp::Move8PdPd)),
        28 => (opcodes::MASK_OUT_X_Y, opcodes::OP_MOVE_8_DI_PD, Handler::Move(ops::moves::MoveOp::Move8DiPd)),
        29 => (opcodes::MASK_OUT_X_Y, opcodes::OP_MOVE_8_IX_PD, Handler::Move(ops::moves::MoveOp::Move8IxPd)),
        30 => (opcodes::MASK_OUT_Y, opcodes::OP_MOVE_8_AW_PD, Handler::Move(ops::moves::MoveOp::Move8AwPd)),
        31 => (opcodes::MASK_OUT_Y, opcodes::OP_MOVE_8_AL_PD, Handler::Move(ops::moves::MoveOp::Move8AlPd)),
        32 => (opcodes::MASK_OUT_X_Y, opcodes::OP_MOVE_8_DN_DI, Handler::Move(ops::moves::MoveOp::Move8DnDi)),
        33 => (opcodes::MASK_OUT_X_Y, opcodes::OP_MOVE_8_AI_DI, Handler::Move(ops::moves::MoveOp::Move8AiDi)),
        34 => (opcodes::MASK_OUT_X_Y, opcodes::OP_MOVE_8_PI_DI, Handler::Move(ops::moves::MoveOp::Move8PiDi)),
        35 => (opcodes::MASK_OUT_X_Y, opcodes::OP_MOVE_8_PD_DI, Handler::Move(ops::moves::MoveOp::Move8PdDi)),
        36 => (opcodes::MASK_OUT_X_Y, opcodes::OP_MOVE_8_DI_DI, Handler::Move(ops::moves::MoveOp::Move8DiDi)),
        37 => (opcodes::MASK_OUT_X_Y, opcodes::OP_MOVE_8_IX_DI, Handler::Move(ops::moves::MoveOp::Move8IxDi)),
        38 => (opcodes::MASK_OUT_Y, opcodes::OP_MOVE_8_AW_DI, Handler::Move(ops::moves::MoveOp::Move8AwDi)),
        39 => (opcodes::MASK_OUT_Y, opcodes::OP_MOVE_8_AL_DI, Handler::Move(ops::moves::MoveOp::Move8AlDi)),
        40 => (opcodes::MASK_OUT_X_Y, opcodes::OP_MOVE_8_DN_IX, Handler::Move(ops::moves::MoveOp::Move8DnIx)),
        41 => (opcodes::MASK_OUT_X_Y, opcodes::OP_MOVE_8_AI_IX, Handler::Move(ops::moves::MoveOp::Move8AiIx)),
        42 => (opcodes::MASK_OUT_X_Y, opcodes::OP_MOVE_8_PI_IX, Handler::Move(ops::moves::MoveOp::Move8PiIx)),
        43 => (opcodes::MASK_OUT_X_Y, opcodes::OP_MOVE_8_PD_IX, Handler::Move(ops::moves::MoveOp::Move8PdIx)),
        44 => (opcodes::MASK_OUT_X_Y, opcodes::OP_MOVE_8_DI_IX, Handler::Move(ops::moves::MoveOp::Move8DiIx)),
        45 => (opcodes::MASK_OUT_X_Y, opcodes::OP_MOVE_8_IX_IX, Handler::Move(ops::moves::MoveOp::Move8IxIx)),
        46 => (opcodes::MASK_OUT_Y, opcodes::OP_MOVE_8_AW_IX, Handler::Move(ops::moves::MoveOp::Move8AwIx)),
        47 => (opcodes::MASK_OUT_Y, opcodes::OP_MOVE_8_AL_IX, Handler::Move(ops::moves::MoveOp::Move8AlIx)),
        48 => (opcodes::MASK_OUT_X, opcodes::OP_MOVE_8_DN_AW, Handler::Move(ops::moves::MoveOp::Move8DnAw)),
        49 => (opcodes::MASK_OUT_X, opcodes::OP_MOVE_8_AI_AW, Handler::Move(ops::moves::MoveOp::Move8AiAw)),
        50 => (opcodes::MASK_OUT_X, opcodes::OP_MOVE_8_PI_AW, Handler::Move(ops::moves::MoveOp::Move8PiAw)),
        51 => (opcodes::MASK_OUT_X, opcodes::OP_MOVE_8_PD_AW, Handler::Move(ops::moves::MoveOp::Move8PdAw)),
        52 => (opcodes::MASK_OUT_X, opcodes::OP_MOVE_8_DI_AW, Handler::Move(ops::moves::MoveOp::Move8DiAw)),
        53 => (opcodes::MASK_OUT_X, opcodes::OP_MOVE_8_IX_AW, Handler::Move(ops::moves::MoveOp::Move8IxAw)),
        54 => (opcodes::MASK_EXACT, opcodes::OP_MOVE_8_AW_AW, Handler::Move(ops::moves::MoveOp::Move8AwAw)),
        55 => (opcodes::MASK_EXACT, opcodes::OP_MOVE_8_AL_AW, Handler::Move(ops::moves::MoveOp::Move8AlAw)),
        56 => (opcodes::MASK_OUT_X, opcodes::OP_MOVE_8_DN_AL, Handler::Move(ops::moves::MoveOp::Move8DnAl)),
        57 => (opcodes::MASK_OUT_X, opcodes::OP_MOVE_8_AI_AL, Handler::Move(ops::moves::MoveOp::Move8AiAl)),
        58 => (opcodes::MASK_OUT_X, opcodes::OP_MOVE_8_PI_AL, Handler::Move(ops::moves::MoveOp::Move8PiAl)),
        59 => (opcodes::MASK_OUT_X, opcodes::OP_MOVE_8_PD_AL, Handler::Move(ops::moves::MoveOp::Move8PdAl)),
        60 => (opcodes::MASK_OUT_X, opcodes::OP_MOVE_8_DI_AL, Handler::Move(ops::moves::MoveOp::Move8DiAl)),
        61 => (opcodes::MASK_OUT_X, opcodes::OP_MOVE_8_IX_AL, Handler::Move(ops::moves::MoveOp::Move8IxAl)),
        62 => (opcodes::MASK_EXACT, opcodes::OP_MOVE_8_AW_AL, Handler::Move(ops::moves::MoveOp::Move8AwAl)),
        63 => (opcodes::MASK_EXACT, opcodes::OP_MOVE_8_AL_AL, Handler::Move(ops::moves::MoveOp::Move8AlAl)),
        64 => (opcodes::MASK_OUT_X, opcodes::OP_MOVE_8_DN_PCDI, Handler::Move(ops::moves::MoveOp::Move8DnPcdi)),
        65 => (opcodes::MASK_OUT_X, opcodes::OP_MOVE_8_AI_PCDI, Handler::Move(ops::moves::MoveOp::Move8AiPcdi)),
        66 => (opcodes::MASK_OUT_X, opcodes::OP_MOVE_8_PI_PCDI, Handler::Move(ops::moves::MoveOp::Move8PiPcdi)),
        67 => (opcodes::MASK_OUT_X, opcodes::OP_MOVE_8_PD_PCDI, Handler::Move(ops::moves::MoveOp::Move8PdPcdi)),
        68 => (opcodes::MASK_OUT_X, opcodes::OP_MOVE_8_DI_PCDI, Handler::Move(ops::moves::MoveOp::Move8DiPcdi)),
        69 => (opcodes::MASK_OUT_X, opcodes::OP_MOVE_8_IX_PCDI, Handler::Move(ops::moves::MoveOp::Move8IxPcdi)),
        70 => (opcodes::MASK_EXACT, opcodes::OP_MOVE_8_AW_PCDI, Handler::Move(ops::moves::MoveOp::Move8AwPcdi)),
        71 => (opcodes::MASK_EXACT, opcodes::OP_MOVE_8_AL_PCDI, Handler::Move(ops::moves::MoveOp::Move8AlPcdi)),
        72 => (opcodes::MASK_OUT_X, opcodes::OP_MOVE_8_DN_PCIX, Handler::Move(ops::moves::MoveOp::Move8DnPcix)),
        73 => (opcodes::MASK_OUT_X, opcodes::OP_MOVE_8_AI_PCIX, Handler::Move(ops::moves::MoveOp::Move8AiPcix)),
        74 => (opcodes::MASK_OUT_X, opcodes::OP_MOVE_8_PI_PCIX, Handler::Move(ops::moves::MoveOp::Move8PiPcix)),
        75 => (opcodes::MASK_OUT_X, opcodes::OP_MOVE_8_PD_PCIX, Handler::Move(ops::moves::MoveOp::Move8PdPcix)),
        76 => (opcodes::MASK_OUT_X, opcodes::OP_MOVE_8_DI_PCIX, Handler::Move(ops::moves::MoveOp::Move8DiPcix)),
        77 => (opcodes::MASK_OUT_X, opcodes::OP_MOVE_8_IX_PCIX, Handler::Move(ops::moves::MoveOp::Move8IxPcix)),
        78 => (opcodes::MASK_EXACT, opcodes::OP_MOVE_8_AW_PCIX, Handler::Move(ops::moves::MoveOp::Move8AwPcix)),
        79 => (opcodes::MASK_EXACT, opcodes::OP_MOVE_8_AL_PCIX, Handler::Move(ops::moves::MoveOp::Move8AlPcix)),
        80 => (opcodes::MASK_OUT_X, opcodes::OP_MOVE_8_DN_IMM, Handler::Move(ops::moves::MoveOp::Move8DnImm)),
        81 => (opcodes::MASK_OUT_X, opcodes::OP_MOVE_8_AI_IMM, Handler::Move(ops::moves::MoveOp::Move8AiImm)),
        82 => (opcodes::MASK_OUT_X, opcodes::OP_MOVE_8_PI_IMM, Handler::Move(ops::moves::MoveOp::Move8PiImm)),
        83 => (opcodes::MASK_OUT_X, opcodes::OP_MOVE_8_PD_IMM, Handler::Move(ops::moves::MoveOp::Move8PdImm)),
        84 => (opcodes::MASK_OUT_X, opcodes::OP_MOVE_8_DI_IMM, Handler::Move(ops::moves::MoveOp::Move8DiImm)),
        85 => (opcodes::MASK_OUT_X, opcodes::OP_MOVE_8_IX_IMM, Handler::Move(ops::moves::MoveOp::Move8IxImm)),
        86 => (opcodes::MASK_EXACT, opcodes::OP_MOVE_8_AW_IMM, Handler::Move(ops::moves::MoveOp::Move8AwImm)),
        _ => (opcodes::MASK_EXACT, opcodes::OP_MOVE_8_AL_IMM, Handler::Move(ops::moves::MoveOp::Move8AlImm)),
    }
}

/// The instruction patterns of group 2, in the order they are tried.
pub open spec fn group_2(i: int) -> (u32, u32, Handler) {
    if i == 0 {
        (opcodes::MASK_OUT_X_Y, opcodes::OP_MOVE_32_DN_DN, Handler::Move(ops::moves::MoveOp::Move32DnDn))
    } else if i == 1 {
        (opcodes::MASK_OUT_X_Y, opcodes::OP_MOVE_32_AI_DN, Handler::Move(ops::moves::MoveOp::Move32AiDn))
    } else if i == 2 {
        (opcodes::MASK_OUT_X_Y, opcodes::OP_MOVE_32_PI_DN, Handler::Move(ops::moves::MoveOp::Move32PiDn))
    } else if i == 3 {
        (opcodes::MASK_OUT_X_Y, opcodes::OP_MOVE_32_PD_DN, Handler::Move(ops::moves::MoveOp::Move32PdDn))
    } else if i == 4 {
        (opcodes::MASK_OUT_X_Y, opcodes::OP_MOVE_32_DI_DN, Handler::Move(ops::moves::MoveOp::Move32DiDn))
    } else if i == 5 {
        (opcodes::MASK_OUT_X_Y, opcodes::OP_MOVE_32_IX_DN, Handler::Move(ops::moves::MoveOp::Move32IxDn))
    } else if i == 6 {
        (opcodes::MASK_OUT_Y, opcodes::OP_MOVE_32_AW_DN, Handler::Move(ops::moves::MoveOp::Move32AwDn))
    } else if i == 7 {
        (opcodes::MASK_OUT_Y, opcodes::OP_MOVE_32_AL_DN, Handler::Move(ops::moves::MoveOp::Move32AlDn))
    } else if i == 8 {
        (opcodes::MASK_OUT_X_Y, opcodes::OP_MOVE_32_DN_AN, Handler::Move(ops::moves::MoveOp::Move32DnAn))
    } else if i == 9 {
        (opcodes::MASK_OUT_X_Y, opcodes::OP_MOVE_32_AI_AN, Handler::Move(ops::moves::MoveOp::Move32AiAn))
    } else if i == 10 {
        (opcodes::MASK_OUT_X_Y, opcodes::OP_MOVE_32_PI_AN, Handler::Move(ops::moves::MoveOp::Move32PiAn))
    } else if i == 11 {
        (opcodes::MASK_OUT_X_Y, opcodes::OP_MOVE_32_PD_AN, Handler::Move(ops::moves::MoveOp::Move32PdAn))
    } else if i == 12 {
        (opcodes::MASK_OUT_X_Y, opcodes::OP_MOVE_32_DI_AN, Handler::Move(ops::moves::MoveOp::Move32DiAn))
    } else if i == 13 {
        (opcodes::MASK_OUT_X_Y, opcodes::OP_MOVE_32_IX_AN, Handler::Move(ops::moves::MoveOp::Move32IxAn))
    } else if i == 14 {
        (opcodes::MASK_OUT_Y, opcodes::OP_MOVE_32_AW_AN, Handler::Move(ops::moves::MoveOp::Move32AwAn))
    } else if i == 15 {
        (opcodes::MASK_OUT_Y, opcodes::OP_MOVE_32_AL_AN, Handler::Move(ops::moves::MoveOp::Move32AlAn))
    } else if i == 16 {
        (opcodes::MASK_OUT_X_Y, opcodes::OP_MOVE_32_DN_AI, Handler::Move(ops::moves::MoveOp::Move32DnAi))
    } else if i == 17 {
        (opcodes::MASK_OUT_X_Y, opcodes::OP_MOVE_32_AI_AI, Handler::Move(ops::moves::MoveOp::Move32AiAi))
    } else if i == 18 {
        (opcodes::MASK_OUT_X_Y, opcodes::OP_MOVE_32_PI_AI, Handler::Move(ops::moves::MoveOp::Move32PiAi))
    } else if i == 19 {
        (opcodes::MASK_OUT_X_Y, opcodes::OP_MOVE_32_PD_AI, Handler::Move(ops::moves::MoveOp::Move32PdAi))
    } else if i == 20 {
        (opcodes::MASK_OUT_X_Y, opcodes::OP_MOVE_32_DI_AI, Handler::Move(ops::moves::MoveOp::Move32DiAi))
    } else if i == 21 {
        (opcodes::MASK_OUT_X_Y, opcodes::OP_MOVE_32_IX_AI, Handler::Move(ops::moves::MoveOp::Move32IxAi))
    } else if i == 22 {
        (opcodes::MASK_OUT_Y, opcodes::OP_MOVE_32_AW_AI, Handler::Move(ops::moves::MoveOp::Move32AwAi))
    } else if i == 23 {
        (opcodes::MASK_OUT_Y, opcodes::OP_MOVE_32_AL_AI, Handler::Move(ops::moves::MoveOp::Move32AlAi))
    } else if i == 24 {
        (opcodes::MASK_OUT_X_Y, opcodes::OP_MOVE_32_DN_PI, Handler::Move(ops::moves::MoveOp::Move32DnPi))
    } else if i == 25 {
        (opcodes::MASK_OUT_X_Y, opcodes::OP_MOVE_32_AI_PI, Handler::Move(ops::moves::MoveOp::Move32AiPi))
    } else if i == 26 {
        (opcodes::MASK_OUT_X_Y, opcodes::OP_MOVE_32_PI_PI, Handler::Move(ops::moves::MoveOp::Move32PiPi))
    } else if i == 27 {
        (opcodes::MASK_OUT_X_Y, opcodes::OP_MOVE_32_PD_PI, Handler::Move(ops::moves::MoveOp::Move32PdPi))
    } else if i == 28 {
        (opcodes::MASK_OUT_X_Y, opcodes::OP_MOVE_32_DI_PI, Handler::Move(ops::moves::MoveOp::Move32DiPi))
    } else if i == 29 {
        (opcodes::MASK_OUT_X_Y, opcodes::OP_MOVE_32_IX_PI, Handler::Move(ops::moves::MoveOp::Move32IxPi))
    } else if i == 30 {
        (opcodes::MASK_OUT_Y, opcodes::OP_MOVE_32_AW_PI, Handler::Move(ops::moves::MoveOp::Move32AwPi))
    } else if i == 31 {
        (opcodes::MASK_OUT_Y, opcodes::OP_MOVE_32_AL_PI, Handler::Move(ops::moves::MoveOp::Move32AlPi))
    } else if i == 32 {
        (opcodes::MASK_OUT_X_Y, opcodes::OP_MOVE_32_DN_PD, Handler::Move(ops::moves::MoveOp::Move32DnPd))
    } else if i == 33 {
        (opcodes::MASK_OUT_X_Y, opcodes::OP_MOVE_32_AI_PD, Handler::Move(ops::moves::MoveOp::Move32AiPd))
    } else if i == 34 {
        (opcodes::MASK_OUT_X_Y, opcodes::OP_MOVE_32_PI_PD, Handler::Move(ops::moves::MoveOp::Move32PiPd))
    } else if i == 35 {
        (opcodes::MASK_OUT_X_Y, opcodes::OP_MOVE_32_PD_PD, Handler::Move(ops::moves::MoveOp::Move32PdPd))
    } else if i == 36 {
        (opcodes::MASK_OUT_X_Y, opcodes::OP_MOVE_32_DI_PD, Handler::Move(ops::moves::MoveOp::Move32DiPd))
    } else if i == 37 {
        (opcodes::MASK_OUT_X_Y, opcodes::OP_MOVE_32_IX_PD, Handler::Move(ops::moves::MoveOp::Move32IxPd))
    } else if i == 38 {
        (opcodes::MASK_OUT_Y, opcodes::OP_MOVE_32_AW_PD, Handler::Move(ops::moves::MoveOp::Move32AwPd))
    } else if i == 39 {
        (opcodes::MASK_OUT_Y, opcodes::OP_MOVE_32_AL_PD, Handler::Move(ops::moves::MoveOp::Move32AlPd))
    } else if i == 40 {
        (opcodes::MASK_OUT_X_Y, opcodes::OP_MOVE_32_DN_DI, Handler::Move(ops::moves::MoveOp::Move32DnDi))
    } else if i == 41 {
        (opcodes::MASK_OUT_X_Y, opcodes::OP_MOVE_32_AI_DI, Handler::Move(ops::moves::MoveOp::Move32AiDi))
    } else if i == 42 {
        (opcodes::MASK_OUT_X_Y, opcodes::OP_MOVE_32_PI_DI, Handler::Move(ops::moves::MoveOp::Move32PiDi))
    } else if i == 43 {
        (opcodes::MASK_OUT_X_Y, opcodes::OP_MOVE_32_PD_DI, Handler::Move(ops::moves::MoveOp::Move32PdDi))
    } else if i == 44 {
        (opcodes::MASK_OUT_X_Y, opcodes::OP_MOVE_32_DI_DI, Handler::Move(ops::moves::MoveOp::Move32DiDi))
    } else if i == 45 {
        (opcodes::MASK_OUT_X_Y, opcodes::OP_MOVE_32_IX_DI, Handler::Move(ops::moves::MoveOp::Move32IxDi))
    } else if i == 46 {
        (opcodes::MASK_OUT_Y, opcodes::OP_MOVE_32_AW_DI, Handler::Move(ops::moves::MoveOp::Move32AwDi))
    } else if i == 47 {
        (opcodes::MASK_OUT_Y, opcodes::OP_MOVE_32_AL_DI, Handler::Move(ops::moves::MoveOp::Move32AlDi))
    } else if i == 48 {
        (opcodes::MASK_OUT_X_Y, opcodes::OP_MOVE_32_DN_IX, Handler::Move(ops::moves::MoveOp::Move32DnIx))
    } else if i == 49 {
        (opcodes::MASK_OUT_X_Y, opcodes::OP_MOVE_32_AI_IX, Handler::Move(ops::moves::MoveOp::Move32AiIx))
    } else if i == 50 {
        (opcodes::MASK_OUT_X_Y, opcodes::OP_MOVE_32_PI_IX, Handler::Move(ops::moves::MoveOp::Move32PiIx))
    } else if i == 51 {
        (opcodes::MASK_OUT_X_Y, opcodes::OP_MOVE_32_PD_IX, Handler::Move(ops::moves::MoveOp::Move32PdIx))
    } else if i == 52 {
        (opcodes::MASK_OUT_X_Y, opcodes::OP_MOVE_32_DI_IX, Handler::Move(ops::moves::MoveOp::Move32DiIx))
    } else if i == 53 {
        (opcodes::MASK_OUT_X_Y, opcodes::OP_MOVE_32_IX_IX, Handler::Move(ops::moves::MoveOp::Move32IxIx))
    } else if i == 54 {
        (opcodes::MASK_OUT_Y, opcodes::OP_MOVE_32_AW_IX, Handler::Move(ops::moves::MoveOp::Move32AwIx))
    } else if i == 55 {
        (opcodes::MASK_OUT_Y, opcodes::OP_MOVE_32_AL_IX, Handler::Move(ops::moves::MoveOp::Move32AlIx))
    } else if i == 56 {
        (opcodes::MASK_OUT_X, opcodes::OP_MOVE_32_DN_AW, Handler::Move(ops::moves::MoveOp::Move32DnAw))
    } else if i == 57 {
        (opcodes::MASK_OUT_X, opcodes::OP_MOVE_32_AI_AW, Handler::Move(ops::moves::MoveOp::Move32AiAw))
    } else if i == 58 {
        (opcodes::MASK_OUT_X, opcodes::OP_MOVE_32_PI_AW, Handler::Move(ops::moves::MoveOp::Move32PiAw))
    } else if i == 59 {
        (opcodes::MASK_OUT_X, opcodes::OP_MOVE_32_PD_AW, Handler::Move(ops::moves::MoveOp::Move32PdAw))
    } else if i == 60 {
        (opcodes::MASK_OUT_X, opcodes::OP_MOVE_32_DI_AW, Handler::Move(ops::moves::MoveOp::Move32DiAw))
    } else if i == 61 {
        (opcodes::MASK_OUT_X, opcodes::OP_MOVE_32_IX_AW, Handler::Move(ops::moves::MoveOp::Move32IxAw))
    } else if i == 62 {
        (opcodes::MASK_EXACT, opcodes::OP_MOVE_32_AW_AW, Handler::Move(ops::moves::MoveOp::Move32AwAw))
    } else if i == 63 {
        (opcodes::MASK_EXACT, opcodes::OP_MOVE_32_AL_AW, Handler::Move(ops::moves::MoveOp::Move32AlAw))
    } else if i == 64 {
        (opcodes::MASK_OUT_X, opcodes::OP_MOVE_32_DN_AL, Handler::Move(ops::moves::MoveOp::Move32DnAl))
    } else if i == 65 {
        (opcodes::MASK_OUT_X, opcodes::OP_MOVE_32_AI_AL, Handler::Move(ops::moves::MoveOp::Move32AiAl))
    } else if i == 66 {
        (opcodes::MASK_OUT_X, opcodes::OP_MOVE_32_PI_AL, Handler::Move(ops::moves::MoveOp::Move32PiAl))
    } else if i == 67 {
        (opcodes::MASK_OUT_X, opcodes::OP_MOVE_32_PD_AL, Handler::Move(ops::moves::MoveOp::Move32PdAl))
    } else if i == 68 {
        (opcodes::MASK_OUT_X, opcodes::OP_MOVE_32_DI_AL, Handler::Move(ops::moves::MoveOp::Move32DiAl))
    } else if i == 69 {
        (opcodes::MASK_OUT_X, opcodes::OP_MOVE_32_IX_AL, Handler::Move(ops::moves::MoveOp::Move32IxAl))
    } else if i == 70 {
        (opcodes::MASK_EXACT, opcodes::OP_MOVE_32_AW_AL, Handler::Move(ops::moves::MoveOp::Move32AwAl))
    } else if i == 71 {
        (opcodes::MASK_EXACT, opcodes::OP_MOVE_32_AL_AL, Handler::Move(ops::moves::MoveOp::Move32AlAl))
    } else if i == 72 {
        (opcodes::MASK_OUT_X, opcodes::OP_MOVE_32_DN_PCDI, Handler::Move(ops::moves::MoveOp::Move32DnPcdi))
    } else if i == 73 {
        (opcodes::MASK_OUT_X, opcodes::OP_MOVE_32_AI_PCDI, Handler::Move(ops::moves::MoveOp::Move32AiPcdi))
    } else if i == 74 {
        (opcodes::MASK_OUT_X, opcodes::OP_MOVE_32_PI_PCDI, Handler::Move(ops::moves::MoveOp::Move32PiPcdi))
    } else if i == 75 {
        (opcodes::MASK_OUT_X, opcodes::OP_MOVE_32_PD_PCDI, Handler::Move(ops::moves::MoveOp::Move32PdPcdi))
    } else if i == 76 {
        (opcodes::MASK_OUT_X, opcodes::OP_MOVE_32_DI_PCDI, Handler::Move(ops::moves::MoveOp::Move32DiPcdi))
    } else if i == 77 {
        (opcodes::MASK_OUT_X, opcodes::OP_MOVE_32_IX_PCDI, Handler::Move(ops::moves::MoveOp::Move32IxPcdi))
    } else if i == 78 {
        (opcodes::MASK_EXACT, opcodes::OP_MOVE_32_AW_PCDI, Handler::Move(ops::moves::MoveOp::Move32AwPcdi))
    } else if i == 79 {
        (opcodes::MASK_EXACT, opcodes::OP_MOVE_32_AL_PCDI, Handler::Move(ops::moves::MoveOp::Move32AlPcdi))
    } else if i == 80 {
        (opcodes::MASK_OUT_X, opcodes::OP_MOVE_32_DN_PCIX, Handler::Move(ops::moves::MoveOp::Move32DnPcix))
    } else if i == 81 {
        (opcodes::MASK_OUT_X, opcodes::OP_MOVE_32_AI_PCIX, Handler::Move(ops::moves::MoveOp::Move32AiPcix))
    } else if i == 82 {
        (opcodes::MASK_OUT_X, opcodes::OP_MOVE_32_PI_PCIX, Handler::Move(ops::moves::MoveOp::Move32PiPcix))
    } else if i == 83 {
        (opcodes::MASK_OUT_X, opcodes::OP_MOVE_32_PD_PCIX, Handler::Move(ops::moves::MoveOp::Move32PdPcix))
    } else if i == 84 {
        (opcodes::MASK_OUT_X, opcodes::OP_MOVE_32_DI_PCIX, Handler::Move(ops::moves::MoveOp::Move32DiPcix))
    } else if i == 85 {
        (opcodes::MASK_OUT_X, opcodes::OP_MOVE_32_IX_PCIX, Handler::Move(ops::moves::MoveOp::Move32IxPcix))
    } else if i == 86 {
        (opcodes::MASK_EXACT, opcodes::OP_MOVE_32_AW_PCIX, Handler::Move(ops::moves::MoveOp::Move32AwPcix))
    } else if i == 87 {
        (opcodes::MASK_EXACT, opcodes::OP_MOVE_32_AL_PCIX, Handler::Move(ops::moves::MoveOp::Move32AlPcix))
    } else if i == 88 {
        (opcodes::MASK_OUT_X, opcodes::OP_MOVE_32_DN_IMM, Handler::Move(ops::moves::MoveOp::Move32DnImm))
    } else if i == 89 {
        (opcodes::MASK_OUT_X, opcodes::OP_MOVE_32_AI_IMM, Handler::Move(ops::moves::MoveOp::Move32AiImm))
    } else if i == 90 {
        (opcodes::MASK_OUT_X, opcodes::OP_MOVE_32_PI_IMM, Handler::Move(ops::moves::MoveOp::Move32PiImm))
    } else if i == 91 {
        (opcodes::MASK_OUT_X, opcodes::OP_MOVE_32_PD_IMM, Handler::Move(ops::moves::MoveOp::Move32PdImm))
    } else if i == 92 {
        (opcodes::MASK_OUT_X, opcodes::OP_MOVE_32_DI_IMM, Handler::Move(ops::moves::MoveOp::Move32DiImm))
    } else if i == 93 {
        (opcodes::MASK_OUT_X, opcodes::OP_MOVE_32_IX_IMM, Handler::Move(ops::moves::MoveOp::Move32IxImm))
    } else if i == 94 {
        (opcodes::MASK_EXACT, opcodes::OP_MOVE_32_AW_IMM, Handler::Move(ops::moves::MoveOp::Move32AwImm))
    } else if i == 95 {
        (opcodes::MASK_EXACT, opcodes::OP_MOVE_32_AL_IMM, Handler::Move(ops::moves::MoveOp::Move32AlImm))
    } else if i == 96 {
        (opcodes::MASK_OUT_X_Y, opcodes::OP_MOVEA_32_DN, Handler::Move(ops::moves::MoveOp::Movea32Dn))
    } else if i == 97 {
        (opcodes::MASK_OUT_X_Y, opcodes::OP_MOVEA_32_AN, Handler::Move(ops::moves::MoveOp::Movea32An))
    } else if i == 98 {
        (opcodes::MASK_OUT_X_Y, opcodes::OP_MOVEA_32_AI, Handler::Move(ops::moves::MoveOp::Movea32Ai))
    } else if i == 99 {
        (opcodes::MASK_OUT_X_Y, opcodes::OP_MOVEA_32_PI, Handler::Move(ops::moves::MoveOp::Movea32Pi))
    } else if i == 100 {
        (opcodes::MASK_OUT_X_Y, opcodes::OP_MOVEA_32_PD, Handler::Move(ops::moves::MoveOp::Movea32Pd))
    } else if i == 101 {
        (opcodes::MASK_OUT_X_Y, opcodes::OP_MOVEA_32_DI, Handler::Move(ops::moves::MoveOp::Movea32Di))
    } else if i == 102 {
        (opcodes::MASK_OUT_X_Y, opcodes::OP_MOVEA_32_IX, Handler::Move(ops::moves::MoveOp::Movea32Ix))
    } else if i == 103 {
        (opcodes::MASK_OUT_X, opcodes::OP_MOVEA_32_AW, Handler::Move(ops::moves::MoveOp::Movea32Aw))
    } else if i == 104 {
        (opcodes::MASK_OUT_X, opcodes::OP_MOVEA_32_AL, Handler::Move(ops::moves::MoveOp::Movea32Al))
    } else if i == 105 {
        (opcodes::MASK_OUT_X, opcodes::OP_MOVEA_32_PCDI, Handler::Move(ops::moves::MoveOp::Movea32Pcdi))
    } else if i == 106 {
        (opcodes::MASK_OUT_X, opcodes::OP_MOVEA_32_PCIX, Handler::Move(ops::moves::MoveOp::Movea32Pcix))
    } else {
        (opcodes::MASK_OUT_X, opcodes::OP_MOVEA_32_IMM, Handler::Move(ops::moves::MoveOp::Movea32Imm))
    }
}

fn group_2_at(i: usize) -> (r: (u32, u32, Handler))
    requires
        i < group_size(2),
    ensures
        r == group_2(i as int),
{
    match i {
        0 => (opcodes::MASK_OUT_X_Y, opcodes::OP_MOVE_32_DN_DN, Handler::Move(ops::moves::MoveOp::Move32DnDn)),
        1 => (opcodes::MASK_OUT_X_Y, opcodes::OP_MOVE_32_AI_DN, Handler::Move(ops::moves::MoveOp::Move32AiDn)),
        2 => (opcodes::MASK_OUT_X_Y, opcodes::OP_MOVE_32_PI_DN, Handler::Move(ops::moves::MoveOp::Move32PiDn)),
        3 => (opcodes::MASK_OUT_X_Y, opcodes::OP_MOVE_32_PD_DN, Handler::Move(ops::moves::MoveOp::Move32PdDn)),
        4 => (opcodes::MASK_OUT_X_Y, opcodes::OP_MOVE_32_DI_DN, Handler::Move(ops::moves::MoveOp::Move32DiDn)),
        5 => (opcodes::MASK_OUT_X_Y, opcodes::OP_MOVE_32_IX_DN, Handler::Move(ops::moves::MoveOp::Move32IxDn)),
        6 => (opcodes::MASK_OUT_Y, opcodes::OP_MOVE_32_AW_DN, Handler::Move(ops::moves::MoveOp::Move32AwDn)),
        7 => (opcodes::MASK_OUT_Y, opcodes::OP_MOVE_32_AL_DN, Handler::Move(ops::moves::MoveOp::Move32AlDn)),
        8 => (opcodes::MASK_OUT_X_Y, opcodes::OP_MOVE_32_DN_AN, Handler::Move(ops::moves::MoveOp::Move32DnAn)),
        9 => (opcodes::MASK_OUT_X_Y, opcodes::OP_MOVE_32_AI_AN, Handler::Move(ops::moves::MoveOp::Move32AiAn)),
        10 => (opcodes::MASK_OUT_X_Y, opcodes::OP_MOVE_32_PI_AN, Handler::Move(ops::moves::MoveOp::Move32PiAn)),
        11 => (opcodes::MASK_OUT_X_Y, opcodes::OP_MOVE_32_PD_AN, Handler::Move(ops::moves::MoveOp::Move32PdAn)),
        12 => (opcodes::MASK_OUT_X_Y, opcodes::OP_MOVE_32_DI_AN, Handler::Move(ops::moves::MoveOp::Move32DiAn)),
        13 => (opcodes::MASK_OUT_X_Y, opcodes::OP_MOVE_32_IX_AN, Handler::Move(ops::moves::MoveOp::Move32IxAn)),
        14 => (opcodes::MASK_OUT_Y, opcodes::OP_MOVE_32_AW_AN, Handler::Move(ops::moves::MoveOp::Move32AwAn)),
        15 => (opcodes::MASK_OUT_Y, opcodes::OP_MOVE_32_AL_AN, Handler::Move(ops::moves::MoveOp::Move32AlAn)),
        16 => (opcodes::MASK_OUT_X_Y, opcodes::OP_MOVE_32_DN_AI, Handler::Move(ops::moves::MoveOp::Move32DnAi)),
        17 => (opcodes::MASK_OUT_X_Y, opcodes::OP_MOVE_32_AI_AI, Handler::Move(ops::moves::MoveOp::Move32AiAi)),
        18 => (opcodes::MASK_OUT_X_Y, opcodes::OP_MOVE_32_PI_AI, Handler::Move(ops::moves::MoveOp::Move32PiAi)),
        19 => (opcodes::MASK_OUT_X_Y, opcodes::OP_MOVE_32_PD_AI, Handler::Move(ops::moves::MoveOp::Move32PdAi)),
        20 => (opcodes::MASK_OUT_X_Y, opcodes::OP_MOVE_32_DI_AI, Handler::Move(ops::moves::MoveOp::Move32DiAi)),
        21 => (opcodes::MASK_OUT_X_Y, opcodes::OP_MOVE_32_IX_AI, Handler::Move(ops::moves::MoveOp::Move32IxAi)),
        22 => (opcodes::MASK_OUT_Y, opcodes::OP_MOVE_32_AW_AI, Handler::Move(ops::moves::MoveOp::Move32AwAi)),
        23 => (opcodes::MASK_OUT_Y, opcodes::OP_MOVE_32_AL_AI, Handler::Move(ops::moves::MoveOp::Move32AlAi)),
        24 => (opcodes::MASK_OUT_X_Y, opcodes::OP_MOVE_32_DN_PI, Handler::Move(ops::moves::MoveOp::Move32DnPi)),
        25 => (opcodes::MASK_OUT_X_Y, opcodes::OP_MOVE_32_AI_PI, Handler::Move(ops::moves::MoveOp::Move32AiPi)),
        26 => (opcodes::MASK_OUT_X_Y, opcodes::OP_MOVE_32_PI_PI, Handler::Move(ops::moves::MoveOp::Move32PiPi)),
        27 => (opcodes::MASK_OUT_X_Y, opcodes::OP_MOVE_32_PD_PI, Handler::Move(ops::moves::MoveOp::Move32PdPi)),
        28 => (opcodes::MASK_OUT_X_Y, opcodes::OP_MOVE_32_DI_PI, Handler::Move(ops::moves::MoveOp::Move32DiPi)),
        29 => (opcodes::MASK_OUT_X_Y, opcodes::OP_MOVE_32_IX_PI, Handler::Move(ops::moves::MoveOp::Move32IxPi)),
        30 => (opcodes::MASK_OUT_Y, opcodes::OP_MOVE_32_AW_PI, Handler::Move(ops::moves::MoveOp::Move32AwPi)),
        31 => (opcodes::MASK_OUT_Y, opcodes::OP_MOVE_32_AL_PI, Handler::Move(ops::moves::MoveOp::Move32AlPi)),
        32 => (opcodes::MASK_OUT_X_Y, opcodes::OP_MOVE_32_DN_PD, Handler::Move(ops::moves::MoveOp::Move32DnPd)),
        33 => (opcodes::MASK_OUT_X_Y, opcodes::OP_MOVE_32_AI_PD, Handler::Move(ops::moves::MoveOp::Move32AiPd)),
        34 => (opcodes::MASK_OUT_X_Y, opcodes::OP_MOVE_32_PI_PD, Handler::Move(ops::moves::MoveOp::Move32PiPd)),
        35 => (opcodes::MASK_OUT_X_Y, opcodes::OP_MOVE_32_PD_PD, Handler::Move(ops::moves::MoveOp::Move32PdPd)),
        36 => (opcodes::MASK_OUT_X_Y, opcodes::OP_MOVE_32_DI_PD, Handler::Move(ops::moves::MoveOp::Move32DiPd)),
        37 => (opcodes::MASK_OUT_X_Y, opcodes::OP_MOVE_32_IX_PD, Handler::Move(ops::moves::MoveOp::Move32IxPd)),
        38 => (opcodes::MASK_OUT_Y, opcodes::OP_MOVE_32_AW_PD, Handler::Move(ops::moves::MoveOp::Move32AwPd)),
        39 => (opcodes::MASK_OUT_Y, opcodes::OP_MOVE_32_AL_PD, Handler::Move(ops::moves::MoveOp::Move32AlPd)),
        40 => (opcodes::MASK_OUT_X_Y, opcodes::OP_MOVE_32_DN_DI, Handler::Move(ops::moves::MoveOp::Move32DnDi)),
        41 => (opcodes::MASK_OUT_X_Y, opcodes::OP_MOVE_32_AI_DI, Handler::Move(ops::moves::MoveOp::Move32AiDi)),
        42 => (opcodes::MASK_OUT_X_Y, opcodes::OP_MOVE_32_PI_DI, Handler::Move(ops::moves::MoveOp::Move32PiDi)),
        43 => (opcodes::MASK_OUT_X_Y, opcodes::OP_MOVE_32_PD_DI, Handler::Move(ops::moves::MoveOp::Move32PdDi)),
        44 => (opcodes::MASK_OUT_X_Y, opcodes::OP_MOVE_32_DI_DI, Handler::Move(ops::moves::MoveOp::Move32DiDi)),
        45 => (opcodes::MASK_OUT_X_Y, opcodes::OP_MOVE_32_IX_DI, Handler::Move(ops::moves::MoveOp::Move32IxDi)),
        46 => (opcodes::MASK_OUT_Y, opcodes::OP_MOVE_32_AW_DI, Handler::Move(ops::moves::MoveOp::Move32AwDi)),
        47 => (opcodes::MASK_OUT_Y, opcodes::OP_MOVE_32_AL_DI, Handler::Move(ops::moves::MoveOp::Move32AlDi)),
        48 => (opcodes::MASK_OUT_X_Y, opcodes::OP_MOVE_32_DN_IX, Handler::Move(ops::moves::MoveOp::Move32DnIx)),
        49 => (opcodes::MASK_OUT_X_Y, opcodes::OP_MOVE_32_AI_IX, Handler::Move(ops::moves::MoveOp::Move32AiIx)),
        50 => (opcodes::MASK_OUT_X_Y, opcodes::OP_MOVE_32_PI_IX, Handler::Move(ops::moves::MoveOp::Move32PiIx)),
        51 => (opcodes::MASK_OUT_X_Y, opcodes::OP_MOVE_32_PD_IX, Handler::Move(ops::moves::MoveOp::Move32PdIx)),
        52 => (opcodes::MASK_OUT_X_Y, opcodes::OP_MOVE_32_DI_IX, Handler::Move(ops::moves::MoveOp::Move32DiIx)),
        53 => (opcodes::MASK_OUT_X_Y, opcodes::OP_MOVE_32_IX_IX, Handler::Move(ops::moves::MoveOp::Move32IxIx)),
        54 => (opcodes::MASK_OUT_Y, opcodes::OP_MOVE_32_AW_IX, Handler::Move(ops::moves::MoveOp::Move32AwIx)),
        55 => (opcodes::MASK_OUT_Y, opcodes::OP_MOVE_32_AL_IX, Handler::Move(ops::moves::MoveOp::Move32AlIx)),
        56 => (opcodes::MASK_OUT_X, opcodes::OP_MOVE_32_DN_AW, Handler::Move(ops::moves::MoveOp::Move32DnAw)),
        57 => (opcodes::MASK_OUT_X, opcodes::OP_MOVE_32_AI_AW, Handler::Move(ops::moves::MoveOp::Move32AiAw)),
        58 => (opcodes::MASK_OUT_X, opcodes::OP_MOVE_32_PI_AW, Handler::Move(ops::moves::MoveOp::Move32PiAw)),
        59 => (opcodes::MASK_OUT_X, opcodes::OP_MOVE_32_PD_AW, Handler::Move(ops::moves::MoveOp::Move32PdAw)),
        60 => (opcodes::MASK_OUT_X, opcodes::OP_MOVE_32_DI_AW, Handler::Move(ops::moves::MoveOp::Move32DiAw)),
        61 => (opcodes::MASK_OUT_X, opcodes::OP_MOVE_32_IX_AW, Handler::Move(ops::moves::MoveOp::Move32IxAw)),
        62 => (opcodes::MASK_EXACT, opcodes::OP_MOVE_32_AW_AW, Handler::Move(ops::moves::MoveOp::Move32AwAw)),
        63 => (opcodes::MASK_EXACT, opcodes::OP_MOVE_32_AL_AW, Handler::Move(ops::moves::MoveOp::Move32AlAw)),
        64 => (opcodes::MASK_OUT_X, opcodes::OP_MOVE_32_DN_AL, Handler::Move(ops::moves::MoveOp::Move32DnAl)),
        65 => (opcodes::MASK_OUT_X, opcodes::OP_MOVE_32_AI_AL, Handler::Move(ops::moves::MoveOp::Move32AiAl)),
        66 => (opcodes::MASK_OUT_X, opcodes::OP_MOVE_32_PI_AL, Handler::Move(ops::moves::MoveOp::Move32PiAl)),
        67 => (opcodes::MASK_OUT_X, opcodes::OP_MOVE_32_PD_AL, Handler::Move(ops::moves::MoveOp::Move32PdAl)),
        68 => (opcodes::MASK_OUT_X, opcodes::OP_MOVE_32_DI_AL, Handler::Move(ops::moves::MoveOp::Move32DiAl)),
        69 => (opcodes::MASK_OUT_X, opcodes::OP_MOVE_32_IX_AL, Handler::Move(ops::moves::MoveOp::Move32IxAl)),
        70 => (opcodes::MASK_EXACT, opcodes::OP_MOVE_32_AW_AL, Handler::Move(ops::moves::MoveOp::Move32AwAl)),
        71 => (opcodes::MASK_EXACT, opcodes::OP_MOVE_32_AL_AL, Handler::Move(ops::moves::MoveOp::Move32AlAl)),
        72 => (opcodes::MASK_OUT_X, opcodes::OP_MOVE_32_DN_PCDI, Handler::Move(ops::moves::MoveOp::Move32DnPcdi)),
        73 => (opcodes::MASK_OUT_X, opcodes::OP_MOVE_32_AI_PCDI, Handler::Move(ops::moves::MoveOp::Move32AiPcdi)),
        74 => (opcodes::MASK_OUT_X, opcodes::OP_MOVE_32_PI_PCDI, Handler::Move(ops::moves::MoveOp::Move32PiPcdi)),
        75 => (opcodes::MASK_OUT_X, opcodes::OP_MOVE_32_PD_PCDI, Handler::Move(ops::moves::MoveOp::Move32PdPcdi)),
        76 => (opcodes::MASK_OUT_X, opcodes::OP_MOVE_32_DI_PCDI, Handler::Move(ops::moves::MoveOp::Move32DiPcdi)),
        77 => (opcodes::MASK_OUT_X, opcodes::OP_MOVE_32_IX_PCDI, Handler::Move(ops::moves::MoveOp::Move32IxPcdi)),
        78 => (opcodes::MASK_EXACT, opcodes::OP_MOVE_32_AW_PCDI, Handler::Move(ops::moves::MoveOp::Move32AwPcdi)),
        79 => (opcodes::MASK_EXACT, opcodes::OP_MOVE_32_AL_PCDI, Handler::Move(ops::moves::MoveOp::Move32AlPcdi)),
        80 => (opcodes::MASK_OUT_X, opcodes::OP_MOVE_32_DN_PCIX, Handler::Move(ops::moves::MoveOp::Move32DnPcix)),
        81 => (opcodes::MASK_OUT_X, opcodes::OP_MOVE_32_AI_PCIX, Handler::Move(ops::moves::MoveOp::Move32AiPcix)),
        82 => (opcodes::MASK_OUT_X, opcodes::OP_MOVE_32_PI_PCIX, Handler::Move(ops::moves::MoveOp::Move32PiPcix)),
        83 => (opcodes::MASK_OUT_X, opcodes::OP_MOVE_32_PD_PCIX, Handler::Move(ops::moves::MoveOp::Move32PdPcix)),
        84 => (opcodes::MASK_OUT_X, opcodes::OP_MOVE_32_DI_PCIX, Handler::Move(ops::moves::MoveOp::Move32DiPcix)),
        85 => (opcodes::MASK_OUT_X, opcodes::OP_MOVE_32_IX_PCIX, Handler::Move(ops::moves::MoveOp::Move32IxPcix)),
        86 => (opcodes::MASK_EXACT, opcodes::OP_MOVE_32_AW_PCIX, Handler::Move(ops::moves::MoveOp::Move32AwPcix)),
        87 => (opcodes::MASK_EXACT, opcodes::OP_MOVE_32_AL_PCIX, Handler::Move(ops::moves::MoveOp::Move32AlPcix)),
        88 => (opcodes::MASK_OUT_X, opcodes::OP_MOVE_32_DN_IMM, Handler::Move(ops::moves::MoveOp::Move32DnImm)),
        89 => (opcodes::MASK_OUT_X, opcodes::OP_MOVE_32_AI_IMM, Handler::Move(ops::moves::MoveOp::Move32AiImm)),
        90 => (opcodes::MASK_OUT_X, opcodes::OP_MOVE_32_PI_IMM, Handler::Move(ops::moves::MoveOp::Move32PiImm)),
        91 => (opcodes::MASK_OUT_X, opcodes::OP_MOVE_32_PD_IMM, Handler::Move(ops::moves::MoveOp::Move32PdImm)),
        92 => (opcodes::MASK_OUT_X, opcodes::OP_MOVE_32_DI_IMM, Handler::Move(ops::moves::MoveOp::Move32DiImm)),
        93 => (opcodes::MASK_OUT_X, opcodes::OP_MOVE_32_IX_IMM, Handler::Move(ops::moves::MoveOp::Move32IxImm)),
        94 => (opcodes::MASK_EXACT, opcodes::OP_MOVE_32_AW_IMM, Handler::Move(ops::moves::MoveOp::Move32AwImm)),
        95 => (opcodes::MASK_EXACT, opcodes::OP_MOVE_32_AL_IMM, Handler::Move(ops::moves::MoveOp::Move32AlImm)),
        96 => (opcodes::MASK_OUT_X_Y, opcodes::OP_MOVEA_32_DN, Handler::Move(ops::moves::MoveOp::Movea32Dn)),
        97 => (opcodes::MASK_OUT_X_Y, opcodes::OP_MOVEA_32_AN, Handler::Move(ops::moves::MoveOp::Movea32An)),
        98 => (opcodes::MASK_OUT_X_Y, opcodes::OP_MOVEA_32_AI, Handler::Move(ops::moves::MoveOp::Movea32Ai)),
        99 => (opcodes::MASK_OUT_X_Y, opcodes::OP_MOVEA_32_PI, Handler::Move(ops::moves::MoveOp::Movea32Pi)),
        100 => (opcodes::MASK_OUT_X_Y, opcodes::OP_MOVEA_32_PD, Handler::Move(ops::moves::MoveOp::Movea32Pd)),
        101 => (opcodes::MASK_OUT_X_Y, opcodes::OP_MOVEA_32_DI, Handler::Move(ops::moves::MoveOp::Movea32Di)),
        102 => (opcodes::MASK_OUT_X_Y, opcodes::OP_MOVEA_32_IX, Handler::Move(ops::moves::MoveOp::Movea32Ix)),
        103 => (opcodes::MASK_OUT_X, opcodes::OP_MOVEA_32_AW, Handler::Move(ops::moves::MoveOp::Movea32Aw)),
        104 => (opcodes::MASK_OUT_X, opcodes::OP_MOVEA_32_AL, Handler::Move(ops::moves::MoveOp::Movea32Al)),
        105 => (opcodes::MASK_OUT_X, opcodes::OP_MOVEA_32_PCDI, Handler::Move(ops::moves::MoveOp::Movea32Pcdi)),
        106 => (opcodes::MASK_OUT_X, opcodes::OP_MOVEA_32_PCIX, Handler::Move(ops::moves::MoveOp::Movea32Pcix)),
        _ => (opcodes::MASK_OUT_X, opcodes::OP_MOVEA_32_IMM, Handler::Move(ops::moves::MoveOp::Movea32Imm)),
    }
}

/// The instruction patterns of group 3, in the order they are tried.
pub open spec fn group_3(i: int) -> (u32, u32, Handler) {
    if i == 0 {
        (opcodes::MASK_OUT_X_Y, opcodes::OP_MOVE_16_DN_DN, Handler::Move(ops::moves::MoveOp::Move16DnDn))
    } else if i == 1 {
        (opcodes::MASK_OUT_X_Y, opcodes::OP_MOVE_16_AI_DN, Handler::Move(ops::moves::MoveOp::Move16AiDn))
    } else if i == 2 {
        (opcodes::MASK_OUT_X_Y, opcodes::OP_MOVE_16_PI_DN, Handler::Move(ops::moves::MoveOp::Move16PiDn))
    } else if i == 3 {
        (opcodes::MASK_OUT_X_Y, opcodes::OP_MOVE_16_PD_DN, Handler::Move(ops::moves::MoveOp::Move16PdDn))
    } else if i == 4 {
        (opcodes::MASK_OUT_X_Y, opcodes::OP_MOVE_16_DI_DN, Handler::Move(ops::moves::MoveOp::Move16DiDn))
    } else if i == 5 {
        (opcodes::MASK_OUT_X_Y, opcodes::OP_MOVE_16_IX_DN, Handler::Move(ops::moves::MoveOp::Move16IxDn))
    } else if i == 6 {
        (opcodes::MASK_OUT_Y, opcodes::OP_MOVE_16_AW_DN, Handler::Move(ops::moves::MoveOp::Move16AwDn))
    } else if i == 7 {
        (opcodes::MASK_OUT_Y, opcodes::OP_MOVE_16_AL_DN, Handler::Move(ops::moves::MoveOp::Move16AlDn))
    } else if i == 8 {
        (opcodes::MASK_OUT_X_Y, opcodes::OP_MOVE_16_DN_AN, Handler::Move(ops::moves::MoveOp::Move16DnAn))
    } else if i == 9 {
        (opcodes::MASK_OUT_X_Y, opcodes::OP_MOVE_16_AI_AN, Handler::Move(ops::moves::MoveOp::Move16AiAn))
    } else if i == 10 {
        (opcodes::MASK_OUT_X_Y, opcodes::OP_MOVE_16_PI_AN, Handler::Move(ops::moves::MoveOp::Move16PiAn))
    } else if i == 11 {
        (opcodes::MASK_OUT_X_Y, opcodes::OP_MOVE_16_PD_AN, Handler::Move(ops::moves::MoveOp::Move16PdAn))
    } else if i == 12 {
        (opcodes::MASK_OUT_X_Y, opcodes::OP_MOVE_16_DI_AN, Handler::Move(ops::moves::MoveOp::Move16DiAn))
    } else if i == 13 {
        (opcodes::MASK_OUT_X_Y, opcodes::OP_MOVE_16_IX_AN, Handler::Move(ops::moves::MoveOp::Move16IxAn))
    } else if i == 14 {
        (opcodes::MASK_OUT_Y, opcodes::OP_MOVE_16_AW_AN, Handler::Move(ops::moves::MoveOp::Move16AwAn))
    } else if i == 15 {
        (opcodes::MASK_OUT_Y, opcodes::OP_MOVE_16_AL_AN, Handler::Move(ops::moves::MoveOp::Move16AlAn))
    } else if i == 16 {
        (opcodes::MASK_OUT_X_Y, opcodes::OP_MOVE_16_DN_AI, Handler::Move(ops::moves::MoveOp::Move16DnAi))
    } else if i == 17 {
        (opcodes::MASK_OUT_X_Y, opcodes::OP_MOVE_16_AI_AI, Handler::Move(ops::moves::MoveOp::Move16AiAi))
    } else if i == 18 {
        (opcodes::MASK_OUT_X_Y, opcodes::OP_MOVE_16_PI_AI, Handler::Move(ops::moves::MoveOp::Move16PiAi))
    } else if i == 19 {
        (opcodes::MASK_OUT_X_Y, opcodes::OP_MOVE_16_PD_AI, Handler::Move(ops::moves::MoveOp::Move16PdAi))
    } else if i == 20 {
        (opcodes::MASK_OUT_X_Y, opcodes::OP_MOVE_16_DI_AI, Handler::Move(ops::moves::MoveOp::Move16DiAi))
    } else if i == 21 {
        (opcodes::MASK_OUT_X_Y, opcodes::OP_MOVE_16_IX_AI, Handler::Move(ops::moves::MoveOp::Move16IxAi))
    } else if i == 22 {
        (opcodes::MASK_OUT_Y, opcodes::OP_MOVE_16_AW_AI, Handler::Move(ops::moves::MoveOp::Move16AwAi))
    } else if i == 23 {
        (opcodes::MASK_OUT_Y, opcodes::OP_MOVE_16_AL_AI, Handler::Move(ops::moves::MoveOp::Move16AlAi))
    } else if i == 24 {
        (opcodes::MASK_OUT_X_Y, opcodes::OP_MOVE_16_DN_PI, Handler::Move(ops::moves::MoveOp::Move16DnPi))
    } else if i == 25 {
        (opcodes::MASK_OUT_X_Y, opcodes::OP_MOVE_16_AI_PI, Handler::Move(ops::moves::MoveOp::Move16AiPi))
    } else if i == 26 {
        (opcodes::MASK_OUT_X_Y, opcodes::OP_MOVE_16_PI_PI, Handler::Move(ops::moves::MoveOp::Move16PiPi))
    } else if i == 27 {
        (opcodes::MASK_OUT_X_Y, opcodes::OP_MOVE_16_PD_PI, Handler::Move(ops::moves::MoveOp::Move16PdPi))
    } else if i == 28 {
        (opcodes::MASK_OUT_X_Y, opcodes::OP_MOVE_16_DI_PI, Handler::Move(ops::moves::MoveOp::Move16DiPi))
    } else if i == 29 {
        (opcodes::MASK_OUT_X_Y, opcodes::OP_MOVE_16_IX_PI, Handler::Move(ops::moves::MoveOp::Move16IxPi))
    } else if i == 30 {
        (opcodes::MASK_OUT_Y, opcodes::OP_MOVE_16_AW_PI, Handler::Move(ops::moves::MoveOp::Move16AwPi))
    } else if i == 31 {
        (opcodes::MASK_OUT_Y, opcodes::OP_MOVE_16_AL_PI, Handler::Move(ops::moves::MoveOp::Move16AlPi))
    } else if i == 32 {
        (opcodes::MASK_OUT_X_Y, opcodes::OP_MOVE_16_DN_PD, Handler::Move(ops::moves::MoveOp::Move16DnPd))
    } else if i == 33 {
        (opcodes::MASK_OUT_X_Y, opcodes::OP_MOVE_16_AI_PD, Handler::Move(ops::moves::MoveOp::Move16AiPd))
    } else if i == 34 {
        (opcodes::MASK_OUT_X_Y, opcodes::OP_MOVE_16_PI_PD, Handler::Move(ops::moves::MoveOp::Move16PiPd))
    } else if i == 35 {
        (opcodes::MASK_OUT_X_Y, opcodes::OP_MOVE_16_PD_PD, Handler::Move(ops::moves::MoveOp::Move16PdPd))
    } else if i == 36 {
        (opcodes::MASK_OUT_X_Y, opcodes::OP_MOVE_16_DI_PD, Handler::Move(ops::moves::MoveOp::Move16DiPd))
    } else if i == 37 {
        (opcodes::MASK_OUT_X_Y, opcodes::OP_MOVE_16_IX_PD, Handler::Move(ops::moves::MoveOp::Move16IxPd))
    } else if i == 38 {
        (opcodes::MASK_OUT_Y, opcodes::OP_MOVE_16_AW_PD, Handler::Move(ops::moves::MoveOp::Move16AwPd))
    } else if i == 39 {
        (opcodes::MASK_OUT_Y, opcodes::OP_MOVE_16_AL_PD, Handler::Move(ops::moves::MoveOp::Move16AlPd))
    } else if i == 40 {
        (opcodes::MASK_OUT_X_Y, opcodes::OP_MOVE_16_DN_DI, Handler::Move(ops::moves::MoveOp::Move16DnDi))
    } else if i == 41 {
        (opcodes::MASK_OUT_X_Y, opcodes::OP_MOVE_16_AI_DI, Handler::Move(ops::moves::MoveOp::Move16AiDi))
    } else if i == 42 {
        (opcodes::MASK_OUT_X_Y, opcodes::OP_MOVE_16_PI_DI, Handler::Move(ops::moves::MoveOp::Move16PiDi))
    } else if i == 43 {
        (opcodes::MASK_OUT_X_Y, opcodes::OP_MOVE_16_PD_DI, Handler::Move(ops::moves::MoveOp::Move16PdDi))
    } else if i == 44 {
        (opcodes::MASK_OUT_X_Y, opcodes::OP_MOVE_16_DI_DI, Handler::Move(ops::moves::MoveOp::Move16DiDi))
    } else if i == 45 {
        (opcodes::MASK_OUT_X_Y, opcodes::OP_MOVE_16_IX_DI, Handler::Move(ops::moves::MoveOp::Move16IxDi))
    } else if i == 46 {
        (opcodes::MASK_OUT_Y, opcodes::OP_MOVE_16_AW_DI, Handler::Move(ops::moves::MoveOp::Move16AwDi))
    } else if i == 47 {
        (opcodes::MASK_OUT_Y, opcodes::OP_MOVE_16_AL_DI, Handler::Move(ops::moves::MoveOp::Move16AlDi))
    } else if i == 48 {
        (opcodes::MASK_OUT_X_Y, opcodes::OP_MOVE_16_DN_IX, Handler::Move(ops::moves::MoveOp::Move16DnIx))
    } else if i == 49 {
        (opcodes::MASK_OUT_X_Y, opcodes::OP_MOVE_16_AI_IX, Handler::Move(ops::moves::MoveOp::Move16AiIx))
    } else if i == 50 {
        (opcodes::MASK_OUT_X_Y, opcodes::OP_MOVE_16_PI_IX, Handler::Move(ops::moves::MoveOp::Move16PiIx))
    } else if i == 51 {
        (opcodes::MASK_OUT_X_Y, opcodes::OP_MOVE_16_PD_IX, Handler::Move(ops::moves::MoveOp::Move16PdIx))
    } else if i == 52 {
        (opcodes::MASK_OUT_X_Y, opcodes::OP_MOVE_16_DI_IX, Handler::Move(ops::moves::MoveOp::Move16DiIx))
    } else if i == 53 {
        (opcodes::MASK_OUT_X_Y, opcodes::OP_MOVE_16_IX_IX, Handler::Move(ops::moves::MoveOp::Move16IxIx))
    } else if i == 54 {
        (opcodes::MASK_OUT_Y, opcodes::OP_MOVE_16_AW_IX, Handler::Move(ops::moves::MoveOp::Move16AwIx))
    } else if i == 55 {
        (opcodes::MASK_OUT_Y, opcodes::OP_MOVE_16_AL_IX, Handler::Move(ops::moves::MoveOp::Move16AlIx))
    } else if i == 56 {
        (opcodes::MASK_OUT_X, opcodes::OP_MOVE_16_DN_AW, Handler::Move(ops::moves::MoveOp::Move16DnAw))
    } else if i == 57 {
        (opcodes::MASK_OUT_X, opcodes::OP_MOVE_16_AI_AW, Handler::Move(ops::moves::MoveOp::Move16AiAw))
    } else if i == 58 {
        (opcodes::MASK_OUT_X, opcodes::OP_MOVE_16_PI_AW, Handler::Move(ops::moves::MoveOp::Move16PiAw))
    } else if i == 59 {
        (opcodes::MASK_OUT_X, opcodes::OP_MOVE_16_PD_AW, Handler::Move(ops::moves::MoveOp::Move16PdAw))
    } else if i == 60 {
        (opcodes::MASK_OUT_X, opcodes::OP_MOVE_16_DI_AW, Handler::Move(ops::moves::MoveOp::Move16DiAw))
    } else if i == 61 {
        (opcodes::MASK_OUT_X, opcodes::OP_MOVE_16_IX_AW, Handler::Move(ops::moves::MoveOp::Move16IxAw))
    } else if i == 62 {
        (opcodes::MASK_EXACT, opcodes::OP_MOVE_16_AW_AW, Handler::Move(ops::moves::MoveOp::Move16AwAw))
    } else if i == 63 {
        (opcodes::MASK_EXACT, opcodes::OP_MOVE_16_AL_AW, Handler::Move(ops::moves::MoveOp::Move16AlAw))
    } else if i == 64 {
        (opcodes::MASK_OUT_X, opcodes::OP_MOVE_16_DN_AL, Handler::Move(ops::moves::MoveOp::Move16DnAl))
    } else if i == 65 {
        (opcodes::MASK_OUT_X, opcodes::OP_MOVE_16_AI_AL, Handler::Move(ops::moves::MoveOp::Move16AiAl))
    } else if i == 66 {
        (opcodes::MASK_OUT_X, opcodes::OP_MOVE_16_PI_AL, Handler::Move(ops::moves::MoveOp::Move16PiAl))
    } else if i == 67 {
        (opcodes::MASK_OUT_X, opcodes::OP_MOVE_16_PD_AL, Handler::Move(ops::moves::MoveOp::Move16PdAl))
    } else if i == 68 {
        (opcodes::MASK_OUT_X, opcodes::OP_MOVE_16_DI_AL, Handler::Move(ops::moves::MoveOp::Move16DiAl))
    } else if i == 69 {
        (opcodes::MASK_OUT_X, opcodes::OP_MOVE_16_IX_AL, Handler::Move(ops::moves::MoveOp::Move16IxAl))
    } else if i == 70 {
        (opcodes::MASK_EXACT, opcodes::OP_MOVE_16_AW_AL, Handler::Move(ops::moves::MoveOp::Move16AwAl))
    } else if i == 71 {
        (opcodes::MASK_EXACT, opcodes::OP_MOVE_16_AL_AL, Handler::Move(ops::moves::MoveOp::Move16AlAl))
    } else if i == 72 {
        (opcodes::MASK_OUT_X, opcodes::OP_MOVE_16_DN_PCDI, Handler::Move(ops::moves::MoveOp::Move16DnPcdi))
    } else if i == 73 {
        (opcodes::MASK_OUT_X, opcodes::OP_MOVE_16_AI_PCDI, Handler::Move(ops::moves::MoveOp::Move16AiPcdi))
    } else if i == 74 {
        (opcodes::MASK_OUT_X, opcodes::OP_MOVE_16_PI_PCDI, Handler::Move(ops::moves::MoveOp::Move16PiPcdi))
    } else if i == 75 {
        (opcodes::MASK_OUT_X, opcodes::OP_MOVE_16_PD_PCDI, Handler::Move(ops::moves::MoveOp::Move16PdPcdi))
    } else if i == 76 {
        (opcodes::MASK_OUT_X, opcodes::OP_MOVE_16_DI_PCDI, Handler::Move(ops::moves::MoveOp::Move16DiPcdi))
    } else if i == 77 {
        (opcodes::MASK_OUT_X, opcodes::OP_MOVE_16_IX_PCDI, Handler::Move(ops::moves::MoveOp::Move16IxPcdi))
    } else if i == 78 {
        (opcodes::MASK_EXACT, opcodes::OP_MOVE_16_AW_PCDI, Handler::Move(ops::moves::MoveOp::Move16AwPcdi))
    } else if i == 79 {
        (opcodes::MASK_EXACT, opcodes::OP_MOVE_16_AL_PCDI, Handler::Move(ops::moves::MoveOp::Move16AlPcdi))
    } else if i == 80 {
        (opcodes::MASK_OUT_X, opcodes::OP_MOVE_16_DN_PCIX, Handler::Move(ops::moves::MoveOp::Move16DnPcix))
    } else if i == 81 {
        (opcodes::MASK_OUT_X, opcodes::OP_MOVE_16_AI_PCIX, Handler::Move(ops::moves::MoveOp::Move16AiPcix))
    } else if i == 82 {
        (opcodes::MASK_OUT_X, opcodes::OP_MOVE_16_PI_PCIX, Handler::Move(ops::moves::MoveOp::Move16PiPcix))
    } else if i == 83 {
        (opcodes::MASK_OUT_X, opcodes::OP_MOVE_16_PD_PCIX, Handler::Move(ops::moves::MoveOp::Move16PdPcix))
    } else if i == 84 {
        (opcodes::MASK_OUT_X, opcodes::OP_MOVE_16_DI_PCIX, Handler::Move(ops::moves::MoveOp::Move16DiPcix))
    } else if i == 85 {
        (opcodes::MASK_OUT_X, opcodes::OP_MOVE_16_IX_PCIX, Handler::Move(ops::moves::MoveOp::Move16IxPcix))
    } else if i == 86 {
        (opcodes::MASK_EXACT, opcodes::OP_MOVE_16_AW_PCIX, Handler::Move(ops::moves::MoveOp::Move16AwPcix))
    } else if i == 87 {
        (opcodes::MASK_EXACT, opcodes::OP_MOVE_16_AL_PCIX, Handler::Move(ops::moves::MoveOp::Move16AlPcix))
    } else if i == 88 {
        (opcodes::MASK_OUT_X, opcodes::OP_MOVE_16_DN_IMM, Handler::Move(ops::moves::MoveOp::Move16DnImm))
    } else if i == 89 {
        (opcodes::MASK_OUT_X, opcodes::OP_MOVE_16_AI_IMM, Handler::Move(ops::moves::MoveOp::Move16AiImm))
    } else if i == 90 {
        (opcodes::MASK_OUT_X, opcodes::OP_MOVE_16_PI_IMM, Handler::Move(ops::moves::MoveOp::Move16PiImm))
    } else if i == 91 {
        (opcodes::MASK_OUT_X, opcodes::OP_MOVE_16_PD_IMM, Handler::Move(ops::moves::MoveOp::Move16PdImm))
    } else if i == 92 {
        (opcodes::MASK_OUT_X, opcodes::OP_MOVE_16_DI_IMM, Handler::Move(ops::moves::MoveOp::Move16DiImm))
    } else if i == 93 {
        (opcodes::MASK_OUT_X, opcodes::OP_MOVE_16_IX_IMM, Handler::Move(ops::moves::MoveOp::Move16IxImm))
    } else if i == 94 {
        (opcodes::MASK_EXACT, opcodes::OP_MOVE_16_AW_IMM, Handler::Move(ops::moves::MoveOp::Move16AwImm))
    } else if i == 95 {
        (opcodes::MASK_EXACT, opcodes::OP_MOVE_16_AL_IMM, Handler::Move(ops::moves::MoveOp::Move16AlImm))
    } else if i == 96 {
        (opcodes::MASK_OUT_X_Y, opcodes::OP_MOVEA_16_DN, Handler::Move(ops::moves::MoveOp::Movea16Dn))
    } else if i == 97 {
        (opcodes::MASK_OUT_X_Y, opcodes::OP_MOVEA_16_AN, Handler::Move(ops::moves::MoveOp::Movea16An))
    } else if i == 98 {
        (opcodes::MASK_OUT_X_Y, opcodes::OP_MOVEA_16_AI, Handler::Move(ops::moves::MoveOp::Movea16Ai))
    } else if i == 99 {
        (opcodes::MASK_OUT_X_Y, opcodes::OP_MOVEA_16_PI, Handler::Move(ops::moves::MoveOp::Movea16Pi))
    } else if i == 100 {
        (opcodes::MASK_OUT_X_Y, opcodes::OP_MOVEA_16_PD, Handler::Move(ops::moves::MoveOp::Movea16Pd))
    } else if i == 101 {
        (opcodes::MASK_OUT_X_Y, opcodes::OP_MOVEA_16_DI, Handler::Move(ops::moves::MoveOp::Movea16Di))
    } else if i == 102 {
        (opcodes::MASK_OUT_X_Y, opcodes::OP_MOVEA_16_IX, Handler::Move(ops::moves::MoveOp::Movea16Ix))
    } else if i == 103 {
        (opcodes::MASK_OUT_X, opcodes::OP_MOVEA_16_AW, Handler::Move(ops::moves::MoveOp::Movea16Aw))
    } else if i == 104 {
        (opcodes::MASK_OUT_X, opcodes::OP_MOVEA_16_AL, Handler::Move(ops::moves::MoveOp::Movea16Al))
    } else if i == 105 {
        (opcodes::MASK_OUT_X, opcodes::OP_MOVEA_16_PCDI, Handler::Move(ops::moves::MoveOp::Movea16Pcdi))
    } else if i == 106 {
        (opcodes::MASK_OUT_X, opcodes::OP_MOVEA_16_PCIX, Handler::Move(ops::moves::MoveOp::Movea16Pcix))
    } else {
        (opcodes::MASK_OUT_X, opcodes::OP_MOVEA_16_IMM, Handler::Move(ops::moves::MoveOp::Movea16Imm))
    }
}

fn group_3_at(i: usize) -> (r: (u32, u32, Handler))
    requires
        i < group_size(3),
    ensures
        r == group_3(i as int),
{
    match i {
        0 => (opcodes::MASK_OUT_X_Y, opcodes::OP_MOVE_16_DN_DN, Handler::Move(ops::moves::MoveOp::Move16DnDn)),
        1 => (opcodes::MASK_OUT_X_Y, opcodes::OP_MOVE_16_AI_DN, Handler::Move(ops::moves::MoveOp::Move16AiDn)),
        2 => (opcodes::MASK_OUT_X_Y, opcodes::OP_MOVE_16_PI_DN, Handler::Move(ops::moves::MoveOp::Move16PiDn)),
        3 => (opcodes::MASK_OUT_X_Y, opcodes::OP_MOVE_16_PD_DN, Handler::Move(ops::moves::MoveOp::Move16PdDn)),
        4 => (opcodes::MASK_OUT_X_Y, opcodes::OP_MOVE_16_DI_DN, Handler::Move(ops::moves::MoveOp::Move16DiDn)),
        5 => (opcodes::MASK_OUT_X_Y, opcodes::OP_MOVE_16_IX_DN, Handler::Move(ops::moves::MoveOp::Move16IxDn)),
        6 => (opcodes::MASK_OUT_Y, opcodes::OP_MOVE_16_AW_DN, Handler::Move(ops::moves::MoveOp::Move16AwDn)),
        7 => (opcodes::MASK_OUT_Y, opcodes::OP_MOVE_16_AL_DN, Handler::Move(ops::moves::MoveOp::Move16AlDn)),
        8 => (opcodes::MASK_OUT_X_Y, opcodes::OP_MOVE_16_DN_AN, Handler::Move(ops::moves::MoveOp::Move16DnAn)),
        9 => (opcodes::MASK_OUT_X_Y, opcodes::OP_MOVE_16_AI_AN, Handler::Move(ops::moves::MoveOp::Move16AiAn)),
        10 => (opcodes::MASK_OUT_X_Y, opcodes::OP_MOVE_16_PI_AN, Handler::Move(ops::moves::MoveOp::Move16PiAn)),
        11 => (opcodes::MASK_OUT_X_Y, opcodes::OP_MOVE_16_PD_AN, Handler::Move(ops::moves::MoveOp::Move16PdAn)),
        12 => (opcodes::MASK_OUT_X_Y, opcodes::OP_MOVE_16_DI_AN, Handler::Move(ops::moves::MoveOp::Move16DiAn)),
        13 => (opcodes::MASK_OUT_X_Y, opcodes::OP_MOVE_16_IX_AN, Handler::Move(ops::moves::MoveOp::Move16IxAn)),
        14 => (opcodes::MASK_OUT_Y, opcodes::OP_MOVE_16_AW_AN, Handler::Move(ops::moves::MoveOp::Move16AwAn)),
        15 => (opcodes::MASK_OUT_Y, opcodes::OP_MOVE_16_AL_AN, Handler::Move(ops::moves::MoveOp::Move16AlAn)),
        16 => (opcodes::MASK_OUT_X_Y, opcodes::OP_MOVE_16_DN_AI, Handler::Move(ops::moves::MoveOp::Move16DnAi)),
        17 => (opcodes::MASK_OUT_X_Y, opcodes::OP_MOVE_16_AI_AI, Handler::Move(ops::moves::MoveOp::Move16AiAi)),
        18 => (opcodes::MASK_OUT_X_Y, opcodes::OP_MOVE_16_PI_AI, Handler::Move(ops::moves::MoveOp::Move16PiAi)),
        19 => (opcodes::MASK_OUT_X_Y, opcodes::OP_MOVE_16_PD_AI, Handler::Move(ops::moves::MoveOp::Move16PdAi)),
        20 => (opcodes::MASK_OUT_X_Y, opcodes::OP_MOVE_16_DI_AI, Handler::Move(ops::moves::MoveOp::Move16DiAi)),
        21 => (opcodes::MASK_OUT_X_Y, opcodes::OP_MOVE_16_IX_AI, Handler::Move(ops::moves::MoveOp::Move16IxAi)),
        22 => (opcodes::MASK_OUT_Y, opcodes::OP_MOVE_16_AW_AI, Handler::Move(ops::moves::MoveOp::Move16AwAi)),
        23 => (opcodes::MASK_OUT_Y, opcodes::OP_MOVE_16_AL_AI, Handler::Move(ops::moves::MoveOp::Move16AlAi)),
        24 => (opcodes::MASK_OUT_X_Y, opcodes::OP_MOVE_16_DN_PI, Handler::Move(ops::moves::MoveOp::Move16DnPi)),
        25 => (opcodes::MASK_OUT_X_Y, opcodes::OP_MOVE_16_AI_PI, Handler::Move(ops::moves::MoveOp::Move16AiPi)),
        26 => (opcodes::MASK_OUT_X_Y, opcodes::OP_MOVE_16_PI_PI, Handler::Move(ops::moves::MoveOp::Move16PiPi)),
        27 => (opcodes::MASK_OUT_X_Y, opcodes::OP_MOVE_16_PD_PI, Handler::Move(ops::moves::MoveOp::Move16PdPi)),
        28 => (opcodes::MASK_OUT_X_Y, opcodes::OP_MOVE_16_DI_PI, Handler::Move(ops::moves::MoveOp::Move16DiPi)),
        29 => (opcodes::MASK_OUT_X_Y, opcodes::OP_MOVE_16_IX_PI, Handler::Move(ops::moves::MoveOp::Move16IxPi)),
        30 => (opcodes::MASK_OUT_Y, opcodes::OP_MOVE_16_AW_PI, Handler::Move(ops::moves::MoveOp::Move16AwPi)),
        31 => (opcodes::MASK_OUT_Y, opcodes::OP_MOVE_16_AL_PI, Handler::Move(ops::moves::MoveOp::Move16AlPi)),
        32 => (opcodes::MASK_OUT_X_Y, opcodes::OP_MOVE_16_DN_PD, Handler::Move(ops::moves::MoveOp::Move16DnPd)),
        33 => (opcodes::MASK_OUT_X_Y, opcodes::OP_MOVE_16_AI_PD, Handler::Move(ops::moves::MoveOp::Move16AiPd)),
        34 => (opcodes::MASK_OUT_X_Y, opcodes::OP_MOVE_16_PI_PD, Handler::Move(ops::moves::MoveOp::Move16PiPd)),
        35 => (opcodes::MASK_OUT_X_Y, opcodes::OP_MOVE_16_PD_PD, Handler::Move(ops::moves::MoveOp::Move16PdPd)),
        36 => (opcodes::MASK_OUT_X_Y, opcodes::OP_MOVE_16_DI_PD, Handler::Move(ops::moves::MoveOp::Move16DiPd)),
        37 => (opcodes::MASK_OUT_X_Y, opcodes::OP_MOVE_16_IX_PD, Handler::Move(ops::moves::MoveOp::Move16IxPd)),
        38 => (opcodes::MASK_OUT_Y, opcodes::OP_MOVE_16_AW_PD, Handler::Move(ops::moves::MoveOp::Move16AwPd)),
        39 => (opcodes::MASK_OUT_Y, opcodes::OP_MOVE_16_AL_PD, Handler::Move(ops::moves::MoveOp::Move16AlPd)),
        40 => (opcodes::MASK_OUT_X_Y, opcodes::OP_MOVE_16_DN_DI, Handler::Move(ops::moves::MoveOp::Move16DnDi)),
        41 => (opcodes::MASK_OUT_X_Y, opcodes::OP_MOVE_16_AI_DI, Handler::Move(ops::moves::MoveOp::Move16AiDi)),
        42 => (opcodes::MASK_OUT_X_Y, opcodes::OP_MOVE_16_PI_DI, Handler::Move(ops::moves::MoveOp::Move16PiDi)),
        43 => (opcodes::MASK_OUT_X_Y, opcodes::OP_MOVE_16_PD_DI, Handler::Move(ops::moves::MoveOp::Move16PdDi)),
        44 => (opcodes::MASK_OUT_X_Y, opcodes::OP_MOVE_16_DI_DI, Handler::Move(ops::moves::MoveOp::Move16DiDi)),
        45 => (opcodes::MASK_OUT_X_Y, opcodes::OP_MOVE_16_IX_DI, Handler::Move(ops::moves::MoveOp::Move16IxDi)),
        46 => (opcodes::MASK_OUT_Y, opcodes::OP_MOVE_16_AW_DI, Handler::Move(ops::moves::MoveOp::Move16AwDi)),
        47 => (opcodes::MASK_OUT_Y, opcodes::OP_MOVE_16_AL_DI, Handler::Move(ops::moves::MoveOp::Move16AlDi)),
        48 => (opcodes::MASK_OUT_X_Y, opcodes::OP_MOVE_16_DN_IX, Handler::Move(ops::moves::MoveOp::Move16DnIx)),
        49 => (opcodes::MASK_OUT_X_Y, opcodes::OP_MOVE_16_AI_IX, Handler::Move(ops::moves::MoveOp::Move16AiIx)),
        50 => (opcodes::MASK_OUT_X_Y, opcodes::OP_MOVE_16_PI_IX, Handler::Move(ops::moves::MoveOp::Move16PiIx)),
        51 => (opcodes::MASK_OUT_X_Y, opcodes::OP_MOVE_16_PD_IX, Handler::Move(ops::moves::MoveOp::Move16PdIx)),
        52 => (opcodes::MASK_OUT_X_Y, opcodes::OP_MOVE_16_DI_IX, Handler::Move(ops::moves::MoveOp::Move16DiIx)),
        53 => (opcodes::MASK_OUT_X_Y, opcodes::OP_MOVE_16_IX_IX, Handler::Move(ops::moves::MoveOp::Move16IxIx)),
        54 => (opcodes::MASK_OUT_Y, opcodes::OP_MOVE_16_AW_IX, Handler::Move(ops::moves::MoveOp::Move16AwIx)),
        55 => (opcodes::MASK_OUT_Y, opcodes::OP_MOVE_16_AL_IX, Handler::Move(ops::moves::MoveOp::Move16AlIx)),
        56 => (opcodes::MASK_OUT_X, opcodes::OP_MOVE_16_DN_AW, Handler::Move(ops::moves::MoveOp::Move16DnAw)),
        57 => (opcodes::MASK_OUT_X, opcodes::OP_MOVE_16_AI_AW, Handler::Move(ops::moves::MoveOp::Move16AiAw)),
        58 => (opcodes::MASK_OUT_X, opcodes::OP_MOVE_16_PI_AW, Handler::Move(ops::moves::MoveOp::Move16PiAw)),
        59 => (opcodes::MASK_OUT_X, opcodes::OP_MOVE_16_PD_AW, Handler::Move(ops::moves::MoveOp::Move16PdAw)),
        60 => (opcodes::MASK_OUT_X, opcodes::OP_MOVE_16_DI_AW, Handler::Move(ops::moves::MoveOp::Move16DiAw)),
        61 => (opcodes::MASK_OUT_X, opcodes::OP_MOVE_16_IX_AW, Handler::Move(ops::moves::MoveOp::Move16IxAw)),
        62 => (opcodes::MASK_EXACT, opcodes::OP_MOVE_16_AW_AW, Handler::Move(ops::moves::MoveOp::Move16AwAw)),
        63 => (opcodes::MASK_EXACT, opcodes::OP_MOVE_16_AL_AW, Handler::Move(ops::moves::MoveOp::Move16AlAw)),
        64 => (opcodes::MASK_OUT_X, opcodes::OP_MOVE_16_DN_AL, Handler::Move(ops::moves::MoveOp::Move16DnAl)),
        65 => (opcodes::MASK_OUT_X, opcodes::OP_MOVE_16_AI_AL, Handler::Move(ops::moves::MoveOp::Move16AiAl)),
        66 => (opcodes::MASK_OUT_X, opcodes::OP_MOVE_16_PI_AL, Handler::Move(ops::moves::MoveOp::Move16PiAl)),
        67 => (opcodes::MASK_OUT_X, opcodes::OP_MOVE_16_PD_AL, Handler::Move(ops::moves::MoveOp::Move16PdAl)),
        68 => (opcodes::MASK_OUT_X, opcodes::OP_MOVE_16_DI_AL, Handler::Move(ops::moves::MoveOp::Move16DiAl)),
        69 => (opcodes::MASK_OUT_X, opcodes::OP_MOVE_16_IX_AL, Handler::Move(ops::moves::MoveOp::Move16IxAl)),
        70 => (opcodes::MASK_EXACT, opcodes::OP_MOVE_16_AW_AL, Handler::Move(ops::moves::MoveOp::Move16AwAl)),
        71 => (opcodes::MASK_EXACT, opcodes::OP_MOVE_16_AL_AL, Handler::Move(ops::moves::MoveOp::Move16AlAl)),
        72 => (opcodes::MASK_OUT_X, opcodes::OP_MOVE_16_DN_PCDI, Handler::Move(ops::moves::MoveOp::Move16DnPcdi)),
        73 => (opcodes::MASK_OUT_X, opcodes::OP_MOVE_16_AI_PCDI, Handler::Move(ops::moves::MoveOp::Move16AiPcdi)),
        74 => (opcodes::MASK_OUT_X, opcodes::OP_MOVE_16_PI_PCDI, Handler::Move(ops::moves::MoveOp::Move16PiPcdi)),
        75 => (opcodes::MASK_OUT_X, opcodes::OP_MOVE_16_PD_PCDI, Handler::Move(ops::moves::MoveOp::Move16PdPcdi)),
        76 => (opcodes::MASK_OUT_X, opcodes::OP_MOVE_16_DI_PCDI, Handler::Move(ops::moves::MoveOp::Move16DiPcdi)),
        77 => (opcodes::MASK_OUT_X, opcodes::OP_MOVE_16_IX_PCDI, Handler::Move(ops::moves::MoveOp::Move16IxPcdi)),
        78 => (opcodes::MASK_EXACT, opcodes::OP_MOVE_16_AW_PCDI, Handler::Move(ops::moves::MoveOp::Move16AwPcdi)),
        79 => (opcodes::MASK_EXACT, opcodes::OP_MOVE_16_AL_PCDI, Handler::Move(ops::moves::MoveOp::Move16AlPcdi)),
        80 => (opcodes::MASK_OUT_X, opcodes::OP_MOVE_16_DN_PCIX, Handler::Move(ops::moves::MoveOp::Move16DnPcix)),
        81 => (opcodes::MASK_OUT_X, opcodes::OP_MOVE_16_AI_PCIX, Handler::Move(ops::moves::MoveOp::Move16AiPcix)),
        82 => (opcodes::MASK_OUT_X, opcodes::OP_MOVE_16_PI_PCIX, Handler::Move(ops::moves::MoveOp::Move16PiPcix)),
        83 => (opcodes::MASK_OUT_X, opcodes::OP_MOVE_16_PD_PCIX, Handler::Move(ops::moves::MoveOp::Move16PdPcix)),
        84 => (opcodes::MASK_OUT_X, opcodes::OP_MOVE_16_DI_PCIX, Handler::Move(ops::moves::MoveOp::Move16DiPcix)),
        85 => (opcodes::MASK_OUT_X, opcodes::OP_MOVE_16_IX_PCIX, Handler::Move(ops::moves::MoveOp::Move16IxPcix)),
        86 => (opcodes::MASK_EXACT, opcodes::OP_MOVE_16_AW_PCIX, Handler::Move(ops::moves::MoveOp::Move16AwPcix)),
        87 => (opcodes::MASK_EXACT, opcodes::OP_MOVE_16_AL_PCIX, Handler::Move(ops::moves::MoveOp::Move16AlPcix)),
        88 => (opcodes::MASK_OUT_X, opcodes::OP_MOVE_16_DN_IMM, Handler::Move(ops::moves::MoveOp::Move16DnImm)),
        89 => (opcodes::MASK_OUT_X, opcodes::OP_MOVE_16_AI_IMM, Handler::Move(ops::moves::MoveOp::Move16AiImm)),
        90 => (opcodes::MASK_OUT_X, opcodes::OP_MOVE_16_PI_IMM, Handler::Move(ops::moves::MoveOp::Move16PiImm)),
        91 => (opcodes::MASK_OUT_X, opcodes::OP_MOVE_16_PD_IMM, Handler::Move(ops::moves::MoveOp::Move16PdImm)),
        92 => (opcodes::MASK_OUT_X, opcodes::OP_MOVE_16_DI_IMM, Handler::Move(ops::moves::MoveOp::Move16DiImm)),
        93 => (opcodes::MASK_OUT_X, opcodes::OP_MOVE_16_IX_IMM, Handler::Move(ops::moves::MoveOp::Move16IxImm)),
        94 => (opcodes::MASK_EXACT, opcodes::OP_MOVE_16_AW_IMM, Handler::Move(ops::moves::MoveOp::Move16AwImm)),
        95 => (opcodes::MASK_EXACT, opcodes::OP_MOVE_16_AL_IMM, Handler::Move(ops::moves::MoveOp::Move16AlImm)),
        96 => (opcodes::MASK_OUT_X_Y, opcodes::OP_MOVEA_16_DN, Handler::Move(ops::moves::MoveOp::Movea16Dn)),
        97 => (opcodes::MASK_OUT_X_Y, opcodes::OP_MOVEA_16_AN, Handler::Move(ops::moves::MoveOp::Movea16An)),
        98 => (opcodes::MASK_OUT_X_Y, opcodes::OP_MOVEA_16_AI, Handler::Move(ops::moves::MoveOp::Movea16Ai)),
        99 => (opcodes::MASK_OUT_X_Y, opcodes::OP_MOVEA_16_PI, Handler::Move(ops::moves::MoveOp::Movea16Pi)),
        100 => (opcodes::MASK_OUT_X_Y, opcodes::OP_MOVEA_16_PD, Handler::Move(ops::moves::MoveOp::Movea16Pd)),
        101 => (opcodes::MASK_OUT_X_Y, opcodes::OP_MOVEA_16_DI, Handler::Move(ops::moves::MoveOp::Movea16Di)),
        102 => (opcodes::MASK_OUT_X_Y, opcodes::OP_MOVEA_16_IX, Handler::Move(ops::moves::MoveOp::Movea16Ix)),
        103 => (opcodes::MASK_OUT_X, opcodes::OP_MOVEA_16_AW, Handler::Move(ops::moves::MoveOp::Movea16Aw)),
        104 => (opcodes::MASK_OUT_X, opcodes::OP_MOVEA_16_AL, Handler::Move(ops::moves::MoveOp::Movea16Al)),
        105 => (opcodes::MASK_OUT_X, opcodes::OP_MOVEA_16_PCDI, Handler::Move(ops::moves::MoveOp::Movea16Pcdi)),
        106 => (opcodes::MASK_OUT_X, opcodes::OP_MOVEA_16_PCIX, Handler::Move(ops::moves::MoveOp::Movea16Pcix)),
        _ => (opcodes::MASK_OUT_X, opcodes::OP_MOVEA_16_IMM, Handler::Move(ops::moves::MoveOp::Movea16Imm)),
    }
}

/// The instruction patterns of group 4, in the order they are tried.
pub open spec fn group_4(i: int) -> (u32, u32, Handler) {
    if i == 0 {
        (opcodes::MASK_EXACT, opcodes::OP_ILLEGAL, Handler::Basic(BasicOp::RealIllegal))
    } else if i == 1 {
        (opcodes::MASK_EXACT, opcodes::OP_NOP, Handler::Basic(BasicOp::Nop))
    } else if i == 2 {
        (opcodes::MASK_EXACT, opcodes::OP_RESET, Handler::Basic(BasicOp::Reset))
    } else if i == 3 {
        (opcodes::MASK_EXACT, opcodes::OP_STOP, Handler::Basic(BasicOp::Stop))
    } else if i == 4 {
        (opcodes::MASK_EXACT, opcodes::OP_RTE_32, Handler::Basic(BasicOp::Rte32))
    } else if i == 5 {
        (opcodes::MASK_EXACT, opcodes::OP_RTS_32, Handler::Basic(BasicOp::Rts32))
    } else if i == 6 {
        (opcodes::MASK_EXACT, opcodes::OP_TRAPV, Handler::Basic(BasicOp::Trapv))
    } else if i == 7 {
        (opcodes::MASK_EXACT, opcodes::OP_RTR_32, Handler::Basic(BasicOp::Rtr32))
    } else if i == 8 {
        (opcodes::MASK_LONIB, opcodes::OP_TRAP, Handler::Basic(BasicOp::Trap))
    } else if i == 9 {
        (opcodes::MASK_OUT_Y, opcodes::OP_LINK_16, Handler::Basic(BasicOp::Link16))
    } else if i == 10 {
        (opcodes::MASK_OUT_Y, opcodes::OP_UNLK_32, Handler::Basic(BasicOp::Unlk32))
    } else if i == 11 {
        (opcodes::MASK_OUT_Y, opcodes::OP_MOVE_32_TOU, Handler::Basic(BasicOp::Move32Tou))
    } else if i == 12 {
        (opcodes::MASK_OUT_Y, opcodes::OP_MOVE_32_FRU, Handler::Basic(BasicOp::Move32Fru))
    } else if i == 13 {
        (opcodes::MASK_OUT_Y, opcodes::OP_SWAP_32_DN, Handler::Basic(BasicOp::Swap32Dn))
    } else if i == 14 {
        (opcodes::MASK_OUT_Y, opcodes::OP_EXT_BW, Handler::Basic(BasicOp::ExtBw))
    } else if i == 15 {
        (opcodes::MASK_OUT_Y, opcodes::OP_EXT_WL, Handler::Basic(BasicOp::ExtWl))
    } else if i == 16 {
        (opcodes::MASK_OUT_Y, opcodes::OP_CLR_8_DN, Handler::Basic(BasicOp::Clr8Dn))
    } else if i == 17 {
        (opcodes::MASK_OUT_Y, opcodes::OP_CLR_16_DN, Handler::Basic(BasicOp::Clr16Dn))
    } else if i == 18 {
        (opcodes::MASK_OUT_Y, opcodes::OP_CLR_32_DN, Handler::Basic(BasicOp::Clr32Dn))
    } else if i == 19 {
        (opcodes::MASK_OUT_X_Y, opcodes::OP_CHK_16_AI, Handler::Basic(BasicOp::Chk16Ai))
    } else if i == 20 {
        (opcodes::MASK_OUT_X, opcodes::OP_CHK_16_AL, Handler::Basic(BasicOp::Chk16Al))
    } else if i == 21 {
        (opcodes::MASK_OUT_X, opcodes::OP_CHK_16_AW, Handler::Basic(BasicOp::Chk16Aw))
    } else if i == 22 {
        (opcodes::MASK_OUT_X_Y, opcodes::OP_CHK_16_DN, Handler::Basic(BasicOp::Chk16Dn))
    } else if i == 23 {
        (opcodes::MASK_OUT_X_Y, opcodes::OP_CHK_16_DI, Handler::Basic(BasicOp::Chk16Di))
    } else if i == 24 {
        (opcodes::MASK_OUT_X, opcodes::OP_CHK_16_IMM, Handler::Basic(BasicOp::Chk16Imm))
    } else if i == 25 {
        (opcodes::MASK_OUT_X_Y, opcodes::OP_CHK_16_IX, Handler::Basic(BasicOp::Chk16Ix))
    } else if i == 26 {
        (opcodes::MASK_OUT_X, opcodes::OP_CHK_16_PCDI, Handler::Basic(BasicOp::Chk16Pcdi))
    } else if i == 27 {
        (opcodes::MASK_OUT_X, opcodes::OP_CHK_16_PCIX, Handler::Basic(BasicOp::Chk16Pcix))
    } else if i == 28 {
        (opcodes::MASK_OUT_X_Y, opcodes::OP_CHK_16_PD, Handler::Basic(BasicOp::Chk16Pd))
    } else if i == 29 {
        (opcodes::MASK_OUT_X_Y, opcodes::OP_CHK_16_PI, Handler::Basic(BasicOp::Chk16Pi))
    } else if i == 30 {
        (opcodes::MASK_OUT_Y, opcodes::OP_JMP_32_AI, Handler::Flow(ops::flow::FlowOp::Jmp32Ai))
    } else if i == 31 {
        (opcodes::MASK_OUT_Y, opcodes::OP_JMP_32_DI, Handler::Flow(ops::flow::FlowOp::Jmp32Di))
    } else if i == 32 {
        (opcodes::MASK_OUT_Y, opcodes::OP_JMP_32_IX, Handler::Flow(ops::flow::FlowOp::Jmp32Ix))
    } else if i == 33 {
        (opcodes::MASK_EXACT, opcodes::OP_JMP_32_AW, Handler::Flow(ops::flow::FlowOp::Jmp32Aw))
    } else if i == 34 {
        (opcodes::MASK_EXACT, opcodes::OP_JMP_32_AL, Handler::Flow(ops::flow::FlowOp::Jmp32Al))
    } else if i == 35 {
        (opcodes::MASK_EXACT, opcodes::OP_JMP_32_PCDI, Handler::Flow(ops::flow::FlowOp::Jmp32Pcdi))
    } else if i == 36 {
        (opcodes::MASK_EXACT, opcodes::OP_JMP_32_PCIX, Handler::Flow(ops::flow::FlowOp::Jmp32Pcix))
    } else if i == 37 {
        (opcodes::MASK_OUT_Y, opcodes::OP_JSR_32_AI, Handler::Flow(ops::flow::FlowOp::Jsr32Ai))
    } else if i == 38 {
        (opcodes::MASK_OUT_Y, opcodes::OP_JSR_32_DI, Handler::Flow(ops::flow::FlowOp::Jsr32Di))
    } else if i == 39 {
        (opcodes::MASK_OUT_Y, opcodes::OP_JSR_32_IX, Handler::Flow(ops::flow::FlowOp::Jsr32Ix))
    } else if i == 40 {
        (opcodes::MASK_EXACT, opcodes::OP_JSR_32_AW, Handler::Flow(ops::flow::FlowOp::Jsr32Aw))
    } else if i == 41 {
        (opcodes::MASK_EXACT, opcodes::OP_JSR_32_AL, Handler::Flow(ops::flow::FlowOp::Jsr32Al))
    } else if i == 42 {
        (opcodes::MASK_EXACT, opcodes::OP_JSR_32_PCDI, Handler::Flow(ops::flow::FlowOp::Jsr32Pcdi))
    } else if i == 43 {
        (opcodes::MASK_EXACT, opcodes::OP_JSR_32_PCIX, Handler::Flow(ops::flow::FlowOp::Jsr32Pcix))
    } else if i == 44 {
        (opcodes::MASK_OUT_X_Y, opcodes::OP_LEA_32_AI, Handler::Flow(ops::flow::FlowOp::Lea32Ai))
    } else if i == 45 {
        (opcodes::MASK_OUT_X_Y, opcodes::OP_LEA_32_DI, Handler::Flow(ops::flow::FlowOp::Lea32Di))
    } else if i == 46 {
        (opcodes::MASK_OUT_X_Y, opcodes::OP_LEA_32_IX, Handler::Flow(ops::flow::FlowOp::Lea32Ix))
    } else if i == 47 {
        (opcodes::MASK_OUT_X, opcodes::OP_LEA_32_AW, Handler::Flow(ops::flow::FlowOp::Lea32Aw))
    } else if i == 48 {
        (opcodes::MASK_OUT_X, opcodes::OP_LEA_32_AL, Handler::Flow(ops::flow::FlowOp::Lea32Al))
    } else if i == 49 {
        (opcodes::MASK_OUT_X, opcodes::OP_LEA_32_PCDI, Handler::Flow(ops::flow::FlowOp::Lea32Pcdi))
    } else if i == 50 {
        (opcodes::MASK_OUT_X, opcodes::OP_LEA_32_PCIX, Handler::Flow(ops::flow::FlowOp::Lea32Pcix))
    } else if i == 51 {
        (opcodes::MASK_OUT_Y, opcodes::OP_PEA_32_AI, Handler::Flow(ops::flow::FlowOp::Pea32Ai))
    } else if i == 52 {
        (opcodes::MASK_OUT_Y, opcodes::OP_PEA_32_DI, Handler::Flow(ops::flow::FlowOp::Pea32Di))
    } else if i == 53 {
        (opcodes::MASK_OUT_Y, opcodes::OP_PEA_32_IX, Handler::Flow(ops::flow::FlowOp::Pea32Ix))
    } else if i == 54 {
        (opcodes::MASK_EXACT, opcodes::OP_PEA_32_AW, Handler::Flow(ops::flow::FlowOp::Pea32Aw))
    } else if i == 55 {
        (opcodes::MASK_EXACT, opcodes::OP_PEA_32_AL, Handler::Flow(ops::flow::FlowOp::Pea32Al))
    } else if i == 56 {
        (opcodes::MASK_EXACT, opcodes::OP_PEA_32_PCDI, Handler::Flow(ops::flow::FlowOp::Pea32Pcdi))
    } else if i == 57 {
        (opcodes::MASK_EXACT, opcodes::OP_PEA_32_PCIX, Handler::Flow(ops::flow::FlowOp::Pea32Pcix))
    } else if i == 58 {
        (opcodes::MASK_OUT_Y, opcodes::OP_CLR_8_AI, Handler::Unary(ops::unary::UnaryOp::Clr8Ai))
    } else if i == 59 {
        (opcodes::MASK_OUT_Y, opcodes::OP_CLR_8_PI, Handler::Unary(ops::unary::UnaryOp::Clr8Pi))
    } else if i == 60 {
        (opcodes::MASK_OUT_Y, opcodes::OP_CLR_8_PD, Handler::Unary(ops::unary::UnaryOp::Clr8Pd))
    } else if i == 61 {
        (opcodes::MASK_OUT_Y, opcodes::OP_CLR_8_DI, Handler::Unary(ops::unary::UnaryOp::Clr8Di))
    } else if i == 62 {
        (opcodes::MASK_OUT_Y, opcodes::OP_CLR_8_IX, Handler::Unary(ops::unary::UnaryOp::Clr8Ix))
    } else if i == 63 {
        (opcodes::MASK_EXACT, opcodes::OP_CLR_8_AW, Handler::Unary(ops::unary::UnaryOp::Clr8Aw))
    } else if i == 64 {
        (opcodes::MASK_EXACT, opcodes::OP_CLR_8_AL, Handler::Unary(ops::unary::UnaryOp::Clr8Al))
    } else if i == 65 {
        (opcodes::MASK_OUT_Y, opcodes::OP_CLR_16_AI, Handler::Unary(ops::unary::UnaryOp::Clr16Ai))
    } else if i == 66 {
        (opcodes::MASK_OUT_Y, opcodes::OP_CLR_16_PI, Handler::Unary(ops::unary::UnaryOp::Clr16Pi))
    } else if i == 67 {
        (opcodes::MASK_OUT_Y, opcodes::OP_CLR_16_PD, Handler::Unary(ops::unary::UnaryOp::Clr16Pd))
    } else if i == 68 {
        (opcodes::MASK_OUT_Y, opcodes::OP_CLR_16_DI, Handler::Unary(ops::unary::UnaryOp::Clr16Di))
    } else if i == 69 {
        (opcodes::MASK_OUT_Y, opcodes::OP_CLR_16_IX, Handler::Unary(ops::unary::UnaryOp::Clr16Ix))
    } else if i == 70 {
        (opcodes::MASK_EXACT, opcodes::OP_CLR_16_AW, Handler::Unary(ops::unary::UnaryOp::Clr16Aw))
    } else if i == 71 {
        (opcodes::MASK_EXACT, opcodes::OP_CLR_16_AL, Handler::Unary(ops::unary::UnaryOp::Clr16Al))
    } else if i == 72 {
        (opcodes::MASK_OUT_Y, opcodes::OP_CLR_32_AI, Handler::Unary(ops::unary::UnaryOp::Clr32Ai))
    } else if i == 73 {
        (opcodes::MASK_OUT_Y, opcodes::OP_CLR_32_PI, Handler::Unary(ops::unary::UnaryOp::Clr32Pi))
    } else if i == 74 {
        (opcodes::MASK_OUT_Y, opcodes::OP_CLR_32_PD, Handler::Unary(ops::unary::UnaryOp::Clr32Pd))
    } else if i == 75 {
        (opcodes::MASK_OUT_Y, opcodes::OP_CLR_32_DI, Handler::Unary(ops::unary::UnaryOp::Clr32Di))
    } else if i == 76 {
        (opcodes::MASK_OUT_Y, opcodes::OP_CLR_32_IX, Handler::Unary(ops::unary::UnaryOp::Clr32Ix))
    } else if i == 77 {
        (opcodes::MASK_EXACT, opcodes::OP_CLR_32_AW, Handler::Unary(ops::unary::UnaryOp::Clr32Aw))
    } else if i == 78 {
        (opcodes::MASK_EXACT, opcodes::OP_CLR_32_AL, Handler::Unary(ops::unary::UnaryOp::Clr32Al))
    } else if i == 79 {
        (opcodes::MASK_OUT_Y, opcodes::OP_NBCD_8_DN, Handler::Unary(ops::unary::UnaryOp::Nbcd8Dn))
    } else if i == 80 {
        (opcodes::MASK_OUT_Y, opcodes::OP_NBCD_8_AI, Handler::Unary(ops::unary::UnaryOp::Nbcd8Ai))
    } else if i == 81 {
        (opcodes::MASK_OUT_Y, opcodes::OP_NBCD_8_PI, Handler::Unary(ops::unary::UnaryOp::Nbcd8Pi))
    } else if i == 82 {
        (opcodes::MASK_OUT_Y, opcodes::OP_NBCD_8_PD, Handler::Unary(ops::unary::UnaryOp::Nbcd8Pd))
    } else if i == 83 {
        (opcodes::MASK_OUT_Y, opcodes::OP_NBCD_8_DI, Handler::Unary(ops::unary::UnaryOp::Nbcd8Di))
    } else if i == 84 {
        (opcodes::MASK_OUT_Y, opcodes::OP_NBCD_8_IX, Handler::Unary(ops::unary::UnaryOp::Nbcd8Ix))
    } else if i == 85 {
        (opcodes::MASK_EXACT, opcodes::OP_NBCD_8_AW, Handler::Unary(ops::unary::UnaryOp::Nbcd8Aw))
    } else if i == 86 {
        (opcodes::MASK_EXACT, opcodes::OP_NBCD_8_AL, Handler::Unary(ops::unary::UnaryOp::Nbcd8Al))
    } else if i == 87 {
        (opcodes::MASK_OUT_Y, opcodes::OP_NEG_8_DN, Handler::Unary(ops::unary::UnaryOp::Neg8Dn))
    } else if i == 88 {
        (opcodes::MASK_OUT_Y, opcodes::OP_NEG_8_AI, Handler::Unary(ops::unary::UnaryOp::Neg8Ai))
    } else if i == 89 {
        (opcodes::MASK_OUT_Y, opcodes::OP_NEG_8_PI, Handler::Unary(ops::unary::UnaryOp::Neg8Pi))
    } else if i == 90 {
        (opcodes::MASK_OUT_Y, opcodes::OP_NEG_8_PD, Handler::Unary(ops::unary::UnaryOp::Neg8Pd))
    } else if i == 91 {
        (opcodes::MASK_OUT_Y, opcodes::OP_NEG_8_DI, Handler::Unary(ops::unary::UnaryOp::Neg8Di))
    } else if i == 92 {
        (opcodes::MASK_OUT_Y, opcodes::OP_NEG_8_IX, Handler::Unary(ops::unary::UnaryOp::Neg8Ix))
    } else if i == 93 {
        (opcodes::MASK_EXACT, opcodes::OP_NEG_8_AW, Handler::Unary(ops::unary::UnaryOp::Neg8Aw))
    } else if i == 94 {
        (opcodes::MASK_EXACT, opcodes::OP_NEG_8_AL, Handler::Unary(ops::unary::UnaryOp::Neg8Al))
    } else if i == 95 {
        (opcodes::MASK_OUT_Y, opcodes::OP_NEG_16_DN, Handler::Unary(ops::unary::UnaryOp::Neg16Dn))
    } else if i == 96 {
        (opcodes::MASK_OUT_Y, opcodes::OP_NEG_16_AI, Handler::Unary(ops::unary::UnaryOp::Neg16Ai))
    } else if i == 97 {
        (opcodes::MASK_OUT_Y, opcodes::OP_NEG_16_PI, Handler::Unary(ops::unary::UnaryOp::Neg16Pi))
    } else if i == 98 {
        (opcodes::MASK_OUT_Y, opcodes::OP_NEG_16_PD, Handler::Unary(ops::unary::UnaryOp::Neg16Pd))
    } else if i == 99 {
        (opcodes::MASK_OUT_Y, opcodes::OP_NEG_16_DI, Handler::Unary(ops::unary::UnaryOp::Neg16Di))
    } else if i == 100 {
        (opcodes::MASK_OUT_Y, opcodes::OP_NEG_16_IX, Handler::Unary(ops::unary::UnaryOp::Neg16Ix))
    } else if i == 101 {
        (opcodes::MASK_EXACT, opcodes::OP_NEG_16_AW, Handler::Unary(ops::unary::UnaryOp::Neg16Aw))
    } else if i == 102 {
        (opcodes::MASK_EXACT, opcodes::OP_NEG_16_AL, Handler::Unary(ops::unary::UnaryOp::Neg16Al))
    } else if i == 103 {
        (opcodes::MASK_OUT_Y, opcodes::OP_NEG_32_DN, Handler::Unary(ops::unary::UnaryOp::Neg32Dn))
    } else if i == 104 {
        (opcodes::MASK_OUT_Y, opcodes::OP_NEG_32_AI, Handler::Unary(ops::unary::UnaryOp::Neg32Ai))
    } else if i == 105 {
        (opcodes::MASK_OUT_Y, opcodes::OP_NEG_32_PI, Handler::Unary(ops::unary::UnaryOp::Neg32Pi))
    } else if i == 106 {
        (opcodes::MASK_OUT_Y, opcodes::OP_NEG_32_PD, Handler::Unary(ops::unary::UnaryOp::Neg32Pd))
    } else if i == 107 {
        (opcodes::MASK_OUT_Y, opcodes::OP_NEG_32_DI, Handler::Unary(ops::unary::UnaryOp::Neg32Di))
    } else if i == 108 {
        (opcodes::MASK_OUT_Y, opcodes::OP_NEG_32_IX, Handler::Unary(ops::unary::UnaryOp::Neg32Ix))
    } else if i == 109 {
        (opcodes::MASK_EXACT, opcodes::OP_NEG_32_AW, Handler::Unary(ops::unary::UnaryOp::Neg32Aw))
    } else if i == 110 {
        (opcodes::MASK_EXACT, opcodes::OP_NEG_32_AL, Handler::Unary(ops::unary::UnaryOp::Neg32Al))
    } else if i == 111 {
        (opcodes::MASK_OUT_Y, opcodes::OP_NEGX_8_DN, Handler::Unary(ops::unary::UnaryOp::Negx8Dn))
    } else if i == 112 {
        (opcodes::MASK_OUT_Y, opcodes::OP_NEGX_8_AI, Handler::Unary(ops::unary::UnaryOp::Negx8Ai))
    } else if i == 113 {
        (opcodes::MASK_OUT_Y, opcodes::OP_NEGX_8_PI, Handler::Unary(ops::unary::UnaryOp::Negx8Pi))
    } else if i == 114 {
        (opcodes::MASK_OUT_Y, opcodes::OP_NEGX_8_PD, Handler::Unary(ops::unary::UnaryOp::Negx8Pd))
    } else if i == 115 {
        (opcodes::MASK_OUT_Y, opcodes::OP_NEGX_8_DI, Handler::Unary(ops::unary::UnaryOp::Negx8Di))
    } else if i == 116 {
        (opcodes::MASK_OUT_Y, opcodes::OP_NEGX_8_IX, Handler::Unary(ops::unary::UnaryOp::Negx8Ix))
    } else if i == 117 {
        (opcodes::MASK_EXACT, opcodes::OP_NEGX_8_AW, Handler::Unary(ops::unary::UnaryOp::Negx8Aw))
    } else if i == 118 {
        (opcodes::MASK_EXACT, opcodes::OP_NEGX_8_AL, Handler::Unary(ops::unary::UnaryOp::Negx8Al))
    } else if i == 119 {
        (opcodes::MASK_OUT_Y, opcodes::OP_NEGX_16_DN, Handler::Unary(ops::unary::UnaryOp::Negx16Dn))
    } else if i == 120 {
        (opcodes::MASK_OUT_Y, opcodes::OP_NEGX_16_AI, Handler::Unary(ops::unary::UnaryOp::Negx16Ai))
    } else if i == 121 {
        (opcodes::MASK_OUT_Y, opcodes::OP_NEGX_16_PI, Handler::Unary(ops::unary::UnaryOp::Negx16Pi))
    } else if i == 122 {
        (opcodes::MASK_OUT_Y, opcodes::OP_NEGX_16_PD, Handler::Unary(ops::unary::UnaryOp::Negx16Pd))
    } else if i == 123 {
        (opcodes::MASK_OUT_Y, opcodes::OP_NEGX_16_DI, Handler::Unary(ops::unary::UnaryOp::Negx16Di))
    } else if i == 124 {
        (opcodes::MASK_OUT_Y, opcodes::OP_NEGX_16_IX, Handler::Unary(ops::unary::UnaryOp::Negx16Ix))
    } else if i == 125 {
        (opcodes::MASK_EXACT, opcodes::OP_NEGX_16_AW, Handler::Unary(ops::unary::UnaryOp::Negx16Aw))
    } else if i == 126 {
        (opcodes::MASK_EXACT, opcodes::OP_NEGX_16_AL, Handler::Unary(ops::unary::UnaryOp::Negx16Al))
    } else if i == 127 {
        (opcodes::MASK_OUT_Y, opcodes::OP_NEGX_32_DN, Handler::Unary(ops::unary::UnaryOp::Negx32Dn))
    } else if i == 128 {
        (opcodes::MASK_OUT_Y, opcodes::OP_NEGX_32_AI, Handler::Unary(ops::unary::UnaryOp::Negx32Ai))
    } else if i == 129 {
        (opcodes::MASK_OUT_Y, opcodes::OP_NEGX_32_PI, Handler::Unary(ops::unary::UnaryOp::Negx32Pi))
    } else if i == 130 {
        (opcodes::MASK_OUT_Y, opcodes::OP_NEGX_32_PD, Handler::Unary(ops::unary::UnaryOp::Negx32Pd))
    } else if i == 131 {
        (opcodes::MASK_OUT_Y, opcodes::OP_NEGX_32_DI, Handler::Unary(ops::unary::UnaryOp::Negx32Di))
    } else if i == 132 {
        (opcodes::MASK_OUT_Y, opcodes::OP_NEGX_32_IX, Handler::Unary(ops::unary::UnaryOp::Negx32Ix))
    } else if i == 133 {
        (opcodes::MASK_EXACT, opcodes::OP_NEGX_32_AW, Handler::Unary(ops::unary::UnaryOp::Negx32Aw))
    } else if i == 134 {
        (opcodes::MASK_EXACT, opcodes::OP_NEGX_32_AL, Handler::Unary(ops::unary::UnaryOp::Negx32Al))
    } else if i == 135 {
        (opcodes::MASK_OUT_Y, opcodes::OP_NOT_8_DN, Handler::Unary(ops::unary::UnaryOp::Not8Dn))
    } else if i == 136 {
        (opcodes::MASK_OUT_Y, opcodes::OP_NOT_8_AI, Handler::Unary(ops::unary::UnaryOp::Not8Ai))
    } else if i == 137 {
        (opcodes::MASK_OUT_Y, opcodes::OP_NOT_8_PI, Handler::Unary(ops::unary::UnaryOp::Not8Pi))
    } else if i == 138 {
        (opcodes::MASK_OUT_Y, opcodes::OP_NOT_8_PD, Handler::Unary(ops::unary::UnaryOp::Not8Pd))
    } else if i == 139 {
        (opcodes::MASK_OUT_Y, opcodes::OP_NOT_8_DI, Handler::Unary(ops::unary::UnaryOp::Not8Di))
    } else if i == 140 {
        (opcodes::MASK_OUT_Y, opcodes::OP_NOT_8_IX, Handler::Unary(ops::unary::UnaryOp::Not8Ix))
    } else if i == 141 {
        (opcodes::MASK_EXACT, opcodes::OP_NOT_8_AW, Handler::Unary(ops::unary::UnaryOp::Not8Aw))
    } else if i == 142 {
        (opcodes::MASK_EXACT, opcodes::OP_NOT_8_AL, Handler::Unary(ops::unary::UnaryOp::Not8Al))
    } else if i == 143 {
        (opcodes::MASK_OUT_Y, opcodes::OP_NOT_16_DN, Handler::Unary(ops::unary::UnaryOp::Not16Dn))
    } else if i == 144 {
        (opcodes::MASK_OUT_Y, opcodes::OP_NOT_16_AI, Handler::Unary(ops::unary::UnaryOp::Not16Ai))
    } else if i == 145 {
        (opcodes::MASK_OUT_Y, opcodes::OP_NOT_16_PI, Handler::Unary(ops::unary::UnaryOp::Not16Pi))
    } else if i == 146 {
        (opcodes::MASK_OUT_Y, opcodes::OP_NOT_16_PD, Handler::Unary(ops::unary::UnaryOp::Not16Pd))
    } else if i == 147 {
        (opcodes::MASK_OUT_Y, opcodes::OP_NOT_16_DI, Handler::Unary(ops::unary::UnaryOp::Not16Di))
    } else if i == 148 {
        (opcodes::MASK_OUT_Y, opcodes::OP_NOT_16_IX, Handler::Unary(ops::unary::UnaryOp::Not16Ix))
    } else if i == 149 {
        (opcodes::MASK_EXACT, opcodes::OP_NOT_16_AW, Handler::Unary(ops::unary::UnaryOp::Not16Aw))
    } else if i == 150 {
        (opcodes::MASK_EXACT, opcodes::OP_NOT_16_AL, Handler::Unary(ops::unary::UnaryOp::Not16Al))
    } else if i == 151 {
        (opcodes::MASK_OUT_Y, opcodes::OP_NOT_32_DN, Handler::Unary(ops::unary::UnaryOp::Not32Dn))
    } else if i == 152 {
        (opcodes::MASK_OUT_Y, opcodes::OP_NOT_32_AI, Handler::Unary(ops::unary::UnaryOp::Not32Ai))
    } else if i == 153 {
        (opcodes::MASK_OUT_Y, opcodes::OP_NOT_32_PI, Handler::Unary(ops::unary::UnaryOp::Not32Pi))
    } else if i == 154 {
        (opcodes::MASK_OUT_Y, opcodes::OP_NOT_32_PD, Handler::Unary(ops::unary::UnaryOp::Not32Pd))
    } else if i == 155 {
        (opcodes::MASK_OUT_Y, opcodes::OP_NOT_32_DI, Handler::Unary(ops::unary::UnaryOp::Not32Di))
    } else if i == 156 {
        (opcodes::MASK_OUT_Y, opcodes::OP_NOT_32_IX, Handler::Unary(ops::unary::UnaryOp::Not32Ix))
    } else if i == 157 {
        (opcodes::MASK_EXACT, opcodes::OP_NOT_32_AW, Handler::Unary(ops::unary::UnaryOp::Not32Aw))
    } else if i == 158 {
        (opcodes::MASK_EXACT, opcodes::OP_NOT_32_AL, Handler::Unary(ops::unary::UnaryOp::Not32Al))
    } else if i == 159 {
        (opcodes::MASK_OUT_Y, opcodes::OP_TAS_8_DN, Handler::Unary(ops::unary::UnaryOp::Tas8Dn))
    } else if i == 160 {
        (opcodes::MASK_OUT_Y, opcodes::OP_TAS_8_AI, Handler::Unary(ops::unary::UnaryOp::Tas8Ai))
    } else if i == 161 {
        (opcodes::MASK_OUT_Y, opcodes::OP_TAS_8_PI, Handler::Unary(ops::unary::UnaryOp::Tas8Pi))
    } else if i == 162 {
        (opcodes::MASK_OUT_Y, opcodes::OP_TAS_8_PD, Handler::Unary(ops::unary::UnaryOp::Tas8Pd))
    } else if i == 163 {
        (opcodes::MASK_OUT_Y, opcodes::OP_TAS_8_DI, Handler::Unary(ops::unary::UnaryOp::Tas8Di))
    } else if i == 164 {
        (opcodes::MASK_OUT_Y, opcodes::OP_TAS_8_IX, Handler::Unary(ops::unary::UnaryOp::Tas8Ix))
    } else if i == 165 {
        (opcodes::MASK_EXACT, opcodes::OP_TAS_8_AW, Handler::Unary(ops::unary::UnaryOp::Tas8Aw))
    } else if i == 166 {
        (opcodes::MASK_EXACT, opcodes::OP_TAS_8_AL, Handler::Unary(ops::unary::UnaryOp::Tas8Al))
    } else if i == 167 {
        (opcodes::MASK_OUT_Y, opcodes::OP_TST_8_DN, Handler::Unary(ops::unary::UnaryOp::Tst8Dn))
    } else if i == 168 {
        (opcodes::MASK_OUT_Y, opcodes::OP_TST_8_AI, Handler::Unary(ops::unary::UnaryOp::Tst8Ai))
    } else if i == 169 {
        (opcodes::MASK_OUT_Y, opcodes::OP_TST_8_PI, Handler::Unary(ops::unary::UnaryOp::Tst8Pi))
    } else if i == 170 {
        (opcodes::MASK_OUT_Y, opcodes::OP_TST_8_PD, Handler::Unary(ops::unary::UnaryOp::Tst8Pd))
    } else if i == 171 {
        (opcodes::MASK_OUT_Y, opcodes::OP_TST_8_DI, Handler::Unary(ops::unary::UnaryOp::Tst8Di))
    } else if i == 172 {
        (opcodes::MASK_OUT_Y, opcodes::OP_TST_8_IX, Handler::Unary(ops::unary::UnaryOp::Tst8Ix))
    } else if i == 173 {
        (opcodes::MASK_EXACT, opcodes::OP_TST_8_AW, Handler::Unary(ops::unary::UnaryOp::Tst8Aw))
    } else if i == 174 {
        (opcodes::MASK_EXACT, opcodes::OP_TST_8_AL, Handler::Unary(ops::unary::UnaryOp::Tst8Al))
    } else if i == 175 {
        (opcodes::MASK_OUT_Y, opcodes::OP_TST_16_DN, Handler::Unary(ops::unary::UnaryOp::Tst16Dn))
    } else if i == 176 {
        (opcodes::MASK_OUT_Y, opcodes::OP_TST_16_AI, Handler::Unary(ops::unary::UnaryOp::Tst16Ai))
    } else if i == 177 {
        (opcodes::MASK_OUT_Y, opcodes::OP_TST_16_PI, Handler::Unary(ops::unary::UnaryOp::Tst16Pi))
    } else if i == 178 {
        (opcodes::MASK_OUT_Y, opcodes::OP_TST_16_PD, Handler::Unary(ops::unary::UnaryOp::Tst16Pd))
    } else if i == 179 {
        (opcodes::MASK_OUT_Y, opcodes::OP_TST_16_DI, Handler::Unary(ops::unary::UnaryOp::Tst16Di))
    } else if i == 180 {
        (opcodes::MASK_OUT_Y, opcodes::OP_TST_16_IX, Handler::Unary(ops::unary::UnaryOp::Tst16Ix))
    } else if i == 181 {
        (opcodes::MASK_EXACT, opcodes::OP_TST_16_AW, Handler::Unary(ops::unary::UnaryOp::Tst16Aw))
    } else if i == 182 {
        (opcodes::MASK_EXACT, opcodes::OP_TST_16_AL, Handler::Unary(ops::unary::UnaryOp::Tst16Al))
    } else if i == 183 {
        (opcodes::MASK_OUT_Y, opcodes::OP_TST_32_DN, Handler::Unary(ops::unary::UnaryOp::Tst32Dn))
    } else if i == 184 {
        (opcodes::MASK_OUT_Y, opcodes::OP_TST_32_AI, Handler::Unary(ops::unary::UnaryOp::Tst32Ai))
    } else if i == 185 {
        (opcodes::MASK_OUT_Y, opcodes::OP_TST_32_PI, Handler::Unary(ops::unary::UnaryOp::Tst32Pi))
    } else if i == 186 {
        (opcodes::MASK_OUT_Y, opcodes::OP_TST_32_PD, Handler::Unary(ops::unary::UnaryOp::Tst32Pd))
    } else if i == 187 {
        (opcodes::MASK_OUT_Y, opcodes::OP_TST_32_DI, Handler::Unary(ops::unary::UnaryOp::Tst32Di))
    } else if i == 188 {
        (opcodes::MASK_OUT_Y, opcodes::OP_TST_32_IX, Handler::Unary(ops::unary::UnaryOp::Tst32Ix))
    } else if i == 189 {
        (opcodes::MASK_EXACT, opcodes::OP_TST_32_AW, Handler::Unary(ops::unary::UnaryOp::Tst32Aw))
    } else if i == 190 {
        (opcodes::MASK_EXACT, opcodes::OP_TST_32_AL, Handler::Unary(ops::unary::UnaryOp::Tst32Al))
    } else if i == 191 {
        (opcodes::MASK_OUT_Y, opcodes::OP_MOVE_16_TOC_DN, Handler::Status(ops::status::StatusOp::Move16TocDn))
    } else if i == 192 {
        (opcodes::MASK_OUT_Y, opcodes::OP_MOVE_16_TOC_AI, Handler::Status(ops::status::StatusOp::Move16TocAi))
    } else if i == 193 {
        (opcodes::MASK_OUT_Y, opcodes::OP_MOVE_16_TOC_PI, Handler::Status(ops::status::StatusOp::Move16TocPi))
    } else if i == 194 {
        (opcodes::MASK_OUT_Y, opcodes::OP_MOVE_16_TOC_PD, Handler::Status(ops::status::StatusOp::Move16TocPd))
    } else if i == 195 {
        (opcodes::MASK_OUT_Y, opcodes::OP_MOVE_16_TOC_DI, Handler::Status(ops::status::StatusOp::Move16TocDi))
    } else if i == 196 {
        (opcodes::MASK_OUT_Y, opcodes::OP_MOVE_16_TOC_IX, Handler::Status(ops::status::StatusOp::Move16TocIx))
    } else if i == 197 {
        (opcodes::MASK_EXACT, opcodes::OP_MOVE_16_TOC_AW, Handler::Status(ops::status::StatusOp::Move16TocAw))
    } else if i == 198 {
        (opcodes::MASK_EXACT, opcodes::OP_MOVE_16_TOC_AL, Handler::Status(ops::status::StatusOp::Move16TocAl))
    } else if i == 199 {
        (opcodes::MASK_EXACT, opcodes::OP_MOVE_16_TOC_PCDI, Handler::Status(ops::status::StatusOp::Move16TocPcdi))
    } else if i == 200 {
        (opcodes::MASK_EXACT, opcodes::OP_MOVE_16_TOC_PCIX, Handler::Status(ops::status::StatusOp::Move16TocPcix))
    } else if i == 201 {
        (opcodes::MASK_EXACT, opcodes::OP_MOVE_16_TOC_IMM, Handler::Status(ops::status::StatusOp::Move16TocImm))
    } else if i == 202 {
        (opcodes::MASK_OUT_Y, opcodes::OP_MOVE_16_FRS_DN, Handler::Status(ops::status::StatusOp::Move16FrsDn))
    } else if i == 203 {
        (opcodes::MASK_OUT_Y, opcodes::OP_MOVE_16_FRS_AI, Handler::Status(ops::status::StatusOp::Move16FrsAi))
    } else if i == 204 {
        (opcodes::MASK_OUT_Y, opcodes::OP_MOVE_16_FRS_PI, Handler::Status(ops::status::StatusOp::Move16FrsPi))
    } else if i == 205 {
        (opcodes::MASK_OUT_Y, opcodes::OP_MOVE_16_FRS_PD, Handler::Status(ops::status::StatusOp::Move16FrsPd))
    } else if i == 206 {
        (opcodes::MASK_OUT_Y, opcodes::OP_MOVE_16_FRS_DI, Handler::Status(ops::status::StatusOp::Move16FrsDi))
    } else if i == 207 {
        (opcodes::MASK_OUT_Y, opcodes::OP_MOVE_16_FRS_IX, Handler::Status(ops::status::StatusOp::Move16FrsIx))
    } else if i == 208 {
        (opcodes::MASK_EXACT, opcodes::OP_MOVE_16_FRS_AW, Handler::Status(ops::status::StatusOp::Move16FrsAw))
    } else if i == 209 {
        (opcodes::MASK_EXACT, opcodes::OP_MOVE_16_FRS_AL, Handler::Status(ops::status::StatusOp::Move16FrsAl))
    } else if i == 210 {
        (opcodes::MASK_OUT_Y, opcodes::OP_MOVE_16_TOS_DN, Handler::Status(ops::status::StatusOp::Move16TosDn))
    } else if i == 211 {
        (opcodes::MASK_OUT_Y, opcodes::OP_MOVE_16_TOS_AI, Handler::Status(ops::status::StatusOp::Move16TosAi))
    } else if i == 212 {
        (opcodes::MASK_OUT_Y, opcodes::OP_MOVE_16_TOS_PI, Handler::Status(ops::status::StatusOp::Move16TosPi))
    } else if i == 213 {
        (opcodes::MASK_OUT_Y, opcodes::OP_MOVE_16_TOS_PD, Handler::Status(ops::status::StatusOp::Move16TosPd))
    } else if i == 214 {
        (opcodes::MASK_OUT_Y, opcodes::OP_MOVE_16_TOS_DI, Handler::Status(ops::status::StatusOp::Move16TosDi))
    } else if i == 215 {
        (opcodes::MASK_OUT_Y, opcodes::OP_MOVE_16_TOS_IX, Handler::Status(ops::status::StatusOp::Move16TosIx))
    } else if i == 216 {
        (opcodes::MASK_EXACT, opcodes::OP_MOVE_16_TOS_AW, Handler::Status(ops::status::StatusOp::Move16TosAw))
    } else if i == 217 {
        (opcodes::MASK_EXACT, opcodes::OP_MOVE_16_TOS_AL, Handler::Status(ops::status::StatusOp::Move16TosAl))
    } else if i == 218 {
        (opcodes::MASK_EXACT, opcodes::OP_MOVE_16_TOS_PCDI, Handler::Status(ops::status::StatusOp::Move16TosPcdi))
    } else if i == 219 {
        (opcodes::MASK_EXACT, opcodes::OP_MOVE_16_TOS_PCIX, Handler::Status(ops::status::StatusOp::Move16TosPcix))
    } else if i == 220 {
        (opcodes::MASK_EXACT, opcodes::OP_MOVE_16_TOS_IMM, Handler::Status(ops::status::StatusOp::Move16TosImm))
    } else if i == 221 {
        (opcodes::MASK_OUT_Y, opcodes::OP_MOVEM_16_RE_AI, Handler::Movem(ops::movem::MovemOp::Movem16ReAi))
    } else if i == 222 {
        (opcodes::MASK_OUT_Y, opcodes::OP_MOVEM_16_RE_PD, Handler::Movem(ops::movem::MovemOp::Movem16RePd))
    } else if i == 223 {
        (opcodes::MASK_OUT_Y, opcodes::OP_MOVEM_16_RE_DI, Handler::Movem(ops::movem::MovemOp::Movem16ReDi))
    } else if i == 224 {
        (opcodes::MASK_OUT_Y, opcodes::OP_MOVEM_16_RE_IX, Handler::Movem(ops::movem::MovemOp::Movem16ReIx))
    } else if i == 225 {
        (opcodes::MASK_EXACT, opcodes::OP_MOVEM_16_RE_AW, Handler::Movem(ops::movem::MovemOp::Movem16ReAw))
    } else if i == 226 {
        (opcodes::MASK_EXACT, opcodes::OP_MOVEM_16_RE_AL, Handler::Movem(ops::movem::MovemOp::Movem16ReAl))
    } else if i == 227 {
        (opcodes::MASK_OUT_Y, opcodes::OP_MOVEM_16_ER_AI, Handler::Movem(ops::movem::MovemOp::Movem16ErAi))
    } else if i == 228 {
        (opcodes::MASK_OUT_Y, opcodes::OP_MOVEM_16_ER_PI, Handler::Movem(ops::movem::MovemOp::Movem16ErPi))
    } else if i == 229 {
        (opcodes::MASK_OUT_Y, opcodes::OP_MOVEM_16_ER_DI, Handler::Movem(ops::movem::MovemOp::Movem16ErDi))
    } else if i == 230 {
        (opcodes::MASK_OUT_Y, opcodes::OP_MOVEM_16_ER_IX, Handler::Movem(ops::movem::MovemOp::Movem16ErIx))
    } else if i == 231 {
        (opcodes::MASK_EXACT, opcodes::OP_MOVEM_16_ER_AW, Handler::Movem(ops::movem::MovemOp::Movem16ErAw))
    } else if i == 232 {
        (opcodes::MASK_EXACT, opcodes::OP_MOVEM_16_ER_AL, Handler::Movem(ops::movem::MovemOp::Movem16ErAl))
    } else if i == 233 {
        (opcodes::MASK_EXACT, opcodes::OP_MOVEM_16_ER_PCDI, Handler::Movem(ops::movem::MovemOp::Movem16ErPcdi))
    } else if i == 234 {
        (opcodes::MASK_EXACT, opcodes::OP_MOVEM_16_ER_PCIX, Handler::Movem(ops::movem::MovemOp::Movem16ErPcix))
    } else if i == 235 {
        (opcodes::MASK_OUT_Y, opcodes::OP_MOVEM_32_RE_AI, Handler::Movem(ops::movem::MovemOp::Movem32ReAi))
    } else if i == 236 {
        (opcodes::MASK_OUT_Y, opcodes::OP_MOVEM_32_RE_PD, Handler::Movem(ops::movem::MovemOp::Movem32RePd))
    } else if i == 237 {
        (opcodes::MASK_OUT_Y, opcodes::OP_MOVEM_32_RE_DI, Handler::Movem(ops::movem::MovemOp::Movem32ReDi))
    } else if i == 238 {
        (opcodes::MASK_OUT_Y, opcodes::OP_MOVEM_32_RE_IX, Handler::Movem(ops::movem::MovemOp::Movem32ReIx))
    } else if i == 239 {
        (opcodes::MASK_EXACT, opcodes::OP_MOVEM_32_RE_AW, Handler::Movem(ops::movem::MovemOp::Movem32ReAw))
    } else if i == 240 {
        (opcodes::MASK_EXACT, opcodes::OP_MOVEM_32_RE_AL, Handler::Movem(ops::movem::MovemOp::Movem32ReAl))
    } else if i == 241 {
        (opcodes::MASK_OUT_Y, opcodes::OP_MOVEM_32_ER_AI, Handler::Movem(ops::movem::MovemOp::Movem32ErAi))
    } else if i == 242 {
        (opcodes::MASK_OUT_Y, opcodes::OP_MOVEM_32_ER_PI, Handler::Movem(ops::movem::MovemOp::Movem32ErPi))
    } else if i == 243 {
        (opcodes::MASK_OUT_Y, opcodes::OP_MOVEM_32_ER_DI, Handler::Movem(ops::movem::MovemOp::Movem32ErDi))
    } else if i == 244 {
        (opcodes::MASK_OUT_Y, opcodes::OP_MOVEM_32_ER_IX, Handler::Movem(ops::movem::MovemOp::Movem32ErIx))
    } else if i == 245 {
        (opcodes::MASK_EXACT, opcodes::OP_MOVEM_32_ER_AW, Handler::Movem(ops::movem::MovemOp::Movem32ErAw))
    } else if i == 246 {
        (opcodes::MASK_EXACT, opcodes::OP_MOVEM_32_ER_AL, Handler::Movem(ops::movem::MovemOp::Movem32ErAl))
    } else if i == 247 {
        (opcodes::MASK_EXACT, opcodes::OP_MOVEM_32_ER_PCDI, Handler::Movem(ops::movem::MovemOp::Movem32ErPcdi))
    } else {
        (opcodes::MASK_EXACT, opcodes::OP_MOVEM_32_ER_PCIX, Handler::Movem(ops::movem::MovemOp::Movem32ErPcix))
    }
}

fn group_4_at(i: usize) -> (r: (u32, u32, Handler))
    requires
        i < group_size(4),
    ensures
        r == group_4(i as int),
{
    match i {
        0 => (opcodes::MASK_EXACT, opcodes::OP_ILLEGAL, Handler::Basic(BasicOp::RealIllegal)),
        1 => (opcodes::MASK_EXACT, opcodes::OP_NOP, Handler::Basic(BasicOp::Nop)),
        2 => (opcodes::MASK_EXACT, opcodes::OP_RESET, Handler::Basic(BasicOp::Reset)),
        3 => (opcodes::MASK_EXACT, opcodes::OP_STOP, Handler::Basic(BasicOp::Stop)),
        4 => (opcodes::MASK_EXACT, opcodes::OP_RTE_32, Handler::Basic(BasicOp::Rte32)),
        5 => (opcodes::MASK_EXACT, opcodes::OP_RTS_32, Handler::Basic(BasicOp::Rts32)),
        6 => (opcodes::MASK_EXACT, opcodes::OP_TRAPV, Handler::Basic(BasicOp::Trapv)),
        7 => (opcodes::MASK_EXACT, opcodes::OP_RTR_32, Handler::Basic(BasicOp::Rtr32)),
        8 => (opcodes::MASK_LONIB, opcodes::OP_TRAP, Handler::Basic(BasicOp::Trap)),
        9 => (opcodes::MASK_OUT_Y, opcodes::OP_LINK_16, Handler::Basic(BasicOp::Link16)),
        10 => (opcodes::MASK_OUT_Y, opcodes::OP_UNLK_32, Handler::Basic(BasicOp::Unlk32)),
        11 => (opcodes::MASK_OUT_Y, opcodes::OP_MOVE_32_TOU, Handler::Basic(BasicOp::Move32Tou)),
        12 => (opcodes::MASK_OUT_Y, opcodes::OP_MOVE_32_FRU, Handler::Basic(BasicOp::Move32Fru)),
        13 => (opcodes::MASK_OUT_Y, opcodes::OP_SWAP_32_DN, Handler::Basic(BasicOp::Swap32Dn)),
        14 => (opcodes::MASK_OUT_Y, opcodes::OP_EXT_BW, Handler::Basic(BasicOp::ExtBw)),
        15 => (opcodes::MASK_OUT_Y, opcodes::OP_EXT_WL, Handler::Basic(BasicOp::ExtWl)),
        16 => (opcodes::MASK_OUT_Y, opcodes::OP_CLR_8_DN, Handler::Basic(BasicOp::Clr8Dn)),
        17 => (opcodes::MASK_OUT_Y, opcodes::OP_CLR_16_DN, Handler::Basic(BasicOp::Clr16Dn)),
        18 => (opcodes::MASK_OUT_Y, opcodes::OP_CLR_32_DN, Handler::Basic(BasicOp::Clr32Dn)),
        19 => (opcodes::MASK_OUT_X_Y, opcodes::OP_CHK_16_AI, Handler::Basic(BasicOp::Chk16Ai)),
        20 => (opcodes::MASK_OUT_X, opcodes::OP_CHK_16_AL, Handler::Basic(BasicOp::Chk16Al)),
        21 => (opcodes::MASK_OUT_X, opcodes::OP_CHK_16_AW, Handler::Basic(BasicOp::Chk16Aw)),
        22 => (opcodes::MASK_OUT_X_Y, opcodes::OP_CHK_16_DN, Handler::Basic(BasicOp::Chk16Dn)),
        23 => (opcodes::MASK_OUT_X_Y, opcodes::OP_CHK_16_DI, Handler::Basic(BasicOp::Chk16Di)),
        24 => (opcodes::MASK_OUT_X, opcodes::OP_CHK_16_IMM, Handler::Basic(BasicOp::Chk16Imm)),
        25 => (opcodes::MASK_OUT_X_Y, opcodes::OP_CHK_16_IX, Handler::Basic(BasicOp::Chk16Ix)),
        26 => (opcodes::MASK_OUT_X, opcodes::OP_CHK_16_PCDI, Handler::Basic(BasicOp::Chk16Pcdi)),
        27 => (opcodes::MASK_OUT_X, opcodes::OP_CHK_16_PCIX, Handler::Basic(BasicOp::Chk16Pcix)),
        28 => (opcodes::MASK_OUT_X_Y, opcodes::OP_CHK_16_PD, Handler::Basic(BasicOp::Chk16Pd)),
        29 => (opcodes::MASK_OUT_X_Y, opcodes::OP_CHK_16_PI, Handler::Basic(BasicOp::Chk16Pi)),
        30 => (opcodes::MASK_OUT_Y, opcodes::OP_JMP_32_AI, Handler::Flow(ops::flow::FlowOp::Jmp32Ai)),
        31 => (opcodes::MASK_OUT_Y, opcodes::OP_JMP_32_DI, Handler::Flow(ops::flow::FlowOp::Jmp32Di)),
        32 => (opcodes::MASK_OUT_Y, opcodes::OP_JMP_32_IX, Handler::Flow(ops::flow::FlowOp::Jmp32Ix)),
        33 => (opcodes::MASK_EXACT, opcodes::OP_JMP_32_AW, Handler::Flow(ops::flow::FlowOp::Jmp32Aw)),
        34 => (opcodes::MASK_EXACT, opcodes::OP_JMP_32_AL, Handler::Flow(ops::flow::FlowOp::Jmp32Al)),
        35 => (opcodes::MASK_EXACT, opcodes::OP_JMP_32_PCDI, Handler::Flow(ops::flow::FlowOp::Jmp32Pcdi)),
        36 => (opcodes::MASK_EXACT, opcodes::OP_JMP_32_PCIX, Handler::Flow(ops::flow::FlowOp::Jmp32Pcix)),
        37 => (opcodes::MASK_OUT_Y, opcodes::OP_JSR_32_AI, Handler::Flow(ops::flow::FlowOp::Jsr32Ai)),
        38 => (opcodes::MASK_OUT_Y, opcodes::OP_JSR_32_DI, Handler::Flow(ops::flow::FlowOp::Jsr32Di)),
        39 => (opcodes::MASK_OUT_Y, opcodes::OP_JSR_32_IX, Handler::Flow(ops::flow::FlowOp::Jsr32Ix)),
        40 => (opcodes::MASK_EXACT, opcodes::OP_JSR_32_AW, Handler::Flow(ops::flow::FlowOp::Jsr32Aw)),
        41 => (opcodes::MASK_EXACT, opcodes::OP_JSR_32_AL, Handler::Flow(ops::flow::FlowOp::Jsr32Al)),
        42 => (opcodes::MASK_EXACT, opcodes::OP_JSR_32_PCDI, Handler::Flow(ops::flow::FlowOp::Jsr32Pcdi)),
        43 => (opcodes::MASK_EXACT, opcodes::OP_JSR_32_PCIX, Handler::Flow(ops::flow::FlowOp::Jsr32Pcix)),
        44 => (opcodes::MASK_OUT_X_Y, opcodes::OP_LEA_32_AI, Handler::Flow(ops::flow::FlowOp::Lea32Ai)),
        45 => (opcodes::MASK_OUT_X_Y, opcodes::OP_LEA_32_DI, Handler::Flow(ops::flow::FlowOp::Lea32Di)),
        46 => (opcodes::MASK_OUT_X_Y, opcodes::OP_LEA_32_IX, Handler::Flow(ops::flow::FlowOp::Lea32Ix)),
        47 => (opcodes::MASK_OUT_X, opcodes::OP_LEA_32_AW, Handler::Flow(ops::flow::FlowOp::Lea32Aw)),
        48 => (opcodes::MASK_OUT_X, opcodes::OP_LEA_32_AL, Handler::Flow(ops::flow::FlowOp::Lea32Al)),
        49 => (opcodes::MASK_OUT_X, opcodes::OP_LEA_32_PCDI, Handler::Flow(ops::flow::FlowOp::Lea32Pcdi)),
        50 => (opcodes::MASK_OUT_X, opcodes::OP_LEA_32_PCIX, Handler::Flow(ops::flow::FlowOp::Lea32Pcix)),
        51 => (opcodes::MASK_OUT_Y, opcodes::OP_PEA_32_AI, Handler::Flow(ops::flow::FlowOp::Pea32Ai)),
        52 => (opcodes::MASK_OUT_Y, opcodes::OP_PEA_32_DI, Handler::Flow(ops::flow::FlowOp::Pea32Di)),
        53 => (opcodes::MASK_OUT_Y, opcodes::OP_PEA_32_IX, Handler::Flow(ops::flow::FlowOp::Pea32Ix)),
        54 => (opcodes::MASK_EXACT, opcodes::OP_PEA_32_AW, Handler::Flow(ops::flow::FlowOp::Pea32Aw)),
        55 => (opcodes::MASK_EXACT, opcodes::OP_PEA_32_AL, Handler::Flow(ops::flow::FlowOp::Pea32Al)),
        56 => (opcodes::MASK_EXACT, opcodes::OP_PEA_32_PCDI, Handler::Flow(ops::flow::FlowOp::Pea32Pcdi)),
        57 => (opcodes::MASK_EXACT, opcodes::OP_PEA_32_PCIX, Handler::Flow(ops::flow::FlowOp::Pea32Pcix)),
        58 => (opcodes::MASK_OUT_Y, opcodes::OP_CLR_8_AI, Handler::Unary(ops::unary::UnaryOp::Clr8Ai)),
        59 => (opcodes::MASK_OUT_Y, opcodes::OP_CLR_8_PI, Handler::Unary(ops::unary::UnaryOp::Clr8Pi)),
        60 => (opcodes::MASK_OUT_Y, opcodes::OP_CLR_8_PD, Handler::Unary(ops::unary::UnaryOp::Clr8Pd)),
        61 => (opcodes::MASK_OUT_Y, opcodes::OP_CLR_8_DI, Handler::Unary(ops::unary::UnaryOp::Clr8Di)),
        62 => (opcodes::MASK_OUT_Y, opcodes::OP_CLR_8_IX, Handler::Unary(ops::unary::UnaryOp::Clr8Ix)),
        63 => (opcodes::MASK_EXACT, opcodes::OP_CLR_8_AW, Handler::Unary(ops::unary::UnaryOp::Clr8Aw)),
        64 => (opcodes::MASK_EXACT, opcodes::OP_CLR_8_AL, Handler::Unary(ops::unary::UnaryOp::Clr8Al)),
        65 => (opcodes::MASK_OUT_Y, opcodes::OP_CLR_16_AI, Handler::Unary(ops::unary::UnaryOp::Clr16Ai)),
        66 => (opcodes::MASK_OUT_Y, opcodes::OP_CLR_16_PI, Handler::Unary(ops::unary::UnaryOp::Clr16Pi)),
        67 => (opcodes::MASK_OUT_Y, opcodes::OP_CLR_16_PD, Handler::Unary(ops::unary::UnaryOp::Clr16Pd)),
        68 => (opcodes::MASK_OUT_Y, opcodes::OP_CLR_16_DI, Handler::Unary(ops::unary::UnaryOp::Clr16Di)),
        69 => (opcodes::MASK_OUT_Y, opcodes::OP_CLR_16_IX, Handler::Unary(ops::unary::UnaryOp::Clr16Ix)),
        70 => (opcodes::MASK_EXACT, opcodes::OP_CLR_16_AW, Handler::Unary(ops::unary::UnaryOp::Clr16Aw)),
        71 => (opcodes::MASK_EXACT, opcodes::OP_CLR_16_AL, Handler::Unary(ops::unary::UnaryOp::Clr16Al)),
        72 => (opcodes::MASK_OUT_Y, opcodes::OP_CLR_32_AI, Handler::Unary(ops::unary::UnaryOp::Clr32Ai)),
        73 => (opcodes::MASK_OUT_Y, opcodes::OP_CLR_32_PI, Handler::Unary(ops::unary::UnaryOp::Clr32Pi)),
        74 => (opcodes::MASK_OUT_Y, opcodes::OP_CLR_32_PD, Handler::Unary(ops::unary::UnaryOp::Clr32Pd)),
        75 => (opcodes::MASK_OUT_Y, opcodes::OP_CLR_32_DI, Handler::Unary(ops::unary::UnaryOp::Clr32Di)),
        76 => (opcodes::MASK_OUT_Y, opcodes::OP_CLR_32_IX, Handler::Unary(ops::unary::UnaryOp::Clr32Ix)),
        77 => (opcodes::MASK_EXACT, opcodes::OP_CLR_32_AW, Handler::Unary(ops::unary::UnaryOp::Clr32Aw)),
        78 => (opcodes::MASK_EXACT, opcodes::OP_CLR_32_AL, Handler::Unary(ops::unary::UnaryOp::Clr32Al)),
        79 => (opcodes::MASK_OUT_Y, opcodes::OP_NBCD_8_DN, Handler::Unary(ops::unary::UnaryOp::Nbcd8Dn)),
        80 => (opcodes::MASK_OUT_Y, opcodes::OP_NBCD_8_AI, Handler::Unary(ops::unary::UnaryOp::Nbcd8Ai)),
        81 => (opcodes::MASK_OUT_Y, opcodes::OP_NBCD_8_PI, Handler::Unary(ops::unary::UnaryOp::Nbcd8Pi)),
        82 => (opcodes::MASK_OUT_Y, opcodes::OP_NBCD_8_PD, Handler::Unary(ops::unary::UnaryOp::Nbcd8Pd)),
        83 => (opcodes::MASK_OUT_Y, opcodes::OP_NBCD_8_DI, Handler::Unary(ops::unary::UnaryOp::Nbcd8Di)),
        84 => (opcodes::MASK_OUT_Y, opcodes::OP_NBCD_8_IX, Handler::Unary(ops::unary::UnaryOp::Nbcd8Ix)),
        85 => (opcodes::MASK_EXACT, opcodes::OP_NBCD_8_AW, Handler::Unary(ops::unary::UnaryOp::Nbcd8Aw)),
        86 => (opcodes::MASK_EXACT, opcodes::OP_NBCD_8_AL, Handler::Unary(ops::unary::UnaryOp::Nbcd8Al)),
        87 => (opcodes::MASK_OUT_Y, opcodes::OP_NEG_8_DN, Handler::Unary(ops::unary::UnaryOp::Neg8Dn)),
        88 => (opcodes::MASK_OUT_Y, opcodes::OP_NEG_8_AI, Handler::Unary(ops::unary::UnaryOp::Neg8Ai)),
        89 => (opcodes::MASK_OUT_Y, opcodes::OP_NEG_8_PI, Handler::Unary(ops::unary::UnaryOp::Neg8Pi)),
        90 => (opcodes::MASK_OUT_Y, opcodes::OP_NEG_8_PD, Handler::Unary(ops::unary::UnaryOp::Neg8Pd)),
        91 => (opcodes::MASK_OUT_Y, opcodes::OP_NEG_8_DI, Handler::Unary(ops::unary::UnaryOp::Neg8Di)),
        92 => (opcodes::MASK_OUT_Y, opcodes::OP_NEG_8_IX, Handler::Unary(ops::unary::UnaryOp::Neg8Ix)),
        93 => (opcodes::MASK_EXACT, opcodes::OP_NEG_8_AW, Handler::Unary(ops::unary::UnaryOp::Neg8Aw)),
        94 => (opcodes::MASK_EXACT, opcodes::OP_NEG_8_AL, Handler::Unary(ops::unary::UnaryOp::Neg8Al)),
        95 => (opcodes::MASK_OUT_Y, opcodes::OP_NEG_16_DN, Handler::Unary(ops::unary::UnaryOp::Neg16Dn)),
        96 => (opcodes::MASK_OUT_Y, opcodes::OP_NEG_16_AI, Handler::Unary(ops::unary::UnaryOp::Neg16Ai)),
        97 => (opcodes::MASK_OUT_Y, opcodes::OP_NEG_16_PI, Handler::Unary(ops::unary::UnaryOp::Neg16Pi)),
        98 => (opcodes::MASK_OUT_Y, opcodes::OP_NEG_16_PD, Handler::Unary(ops::unary::UnaryOp::Neg16Pd)),
        99 => (opcodes::MASK_OUT_Y, opcodes::OP_NEG_16_DI, Handler::Unary(ops::unary::UnaryOp::Neg16Di)),
        100 => (opcodes::MASK_OUT_Y, opcodes::OP_NEG_16_IX, Handler::Unary(ops::unary::UnaryOp::Neg16Ix)),
        101 => (opcodes::MASK_EXACT, opcodes::OP_NEG_16_AW, Handler::Unary(ops::unary::UnaryOp::Neg16Aw)),
        102 => (opcodes::MASK_EXACT, opcodes::OP_NEG_16_AL, Handler::Unary(ops::unary::UnaryOp::Neg16Al)),
        103 => (opcodes::MASK_OUT_Y, opcodes::OP_NEG_32_DN, Handler::Unary(ops::unary::UnaryOp::Neg32Dn)),
        104 => (opcodes::MASK_OUT_Y, opcodes::OP_NEG_32_AI, Handler::Unary(ops::unary::UnaryOp::Neg32Ai)),
        105 => (opcodes::MASK_OUT_Y, opcodes::OP_NEG_32_PI, Handler::Unary(ops::unary::UnaryOp::Neg32Pi)),
        106 => (opcodes::MASK_OUT_Y, opcodes::OP_NEG_32_PD, Handler::Unary(ops::unary::UnaryOp::Neg32Pd)),
        107 => (opcodes::MASK_OUT_Y, opcodes::OP_NEG_32_DI, Handler::Unary(ops::unary::UnaryOp::Neg32Di)),
        108 => (opcodes::MASK_OUT_Y, opcodes::OP_NEG_32_IX, Handler::Unary(ops::unary::UnaryOp::Neg32Ix)),
        109 => (opcodes::MASK_EXACT, opcodes::OP_NEG_32_AW, Handler::Unary(ops::unary::UnaryOp::Neg32Aw)),
        110 => (opcodes::MASK_EXACT, opcodes::OP_NEG_32_AL, Handler::Unary(ops::unary::UnaryOp::Neg32Al)),
        111 => (opcodes::MASK_OUT_Y, opcodes::OP_NEGX_8_DN, Handler::Unary(ops::unary::UnaryOp::Negx8Dn)),
        112 => (opcodes::MASK_OUT_Y, opcodes::OP_NEGX_8_AI, Handler::Unary(ops::unary::UnaryOp::Negx8Ai)),
        113 => (opcodes::MASK_OUT_Y, opcodes::OP_NEGX_8_PI, Handler::Unary(ops::unary::UnaryOp::Negx8Pi)),
        114 => (opcodes::MASK_OUT_Y, opcodes::OP_NEGX_8_PD, Handler::Unary(ops::unary::UnaryOp::Negx8Pd)),
        115 => (opcodes::MASK_OUT_Y, opcodes::OP_NEGX_8_DI, Handler::Unary(ops::unary::UnaryOp::Negx8Di)),
        116 => (opcodes::MASK_OUT_Y, opcodes::OP_NEGX_8_IX, Handler::Unary(ops::unary::UnaryOp::Negx8Ix)),
        117 => (opcodes::MASK_EXACT, opcodes::OP_NEGX_8_AW, Handler::Unary(ops::unary::UnaryOp::Negx8Aw)),
        118 => (opcodes::MASK_EXACT, opcodes::OP_NEGX_8_AL, Handler::Unary(ops::unary::UnaryOp::Negx8Al)),
        119 => (opcodes::MASK_OUT_Y, opcodes::OP_NEGX_16_DN, Handler::Unary(ops::unary::UnaryOp::Negx16Dn)),
        120 => (opcodes::MASK_OUT_Y, opcodes::OP_NEGX_16_AI, Handler::Unary(ops::unary::UnaryOp::Negx16Ai)),
        121 => (opcodes::MASK_OUT_Y, opcodes::OP_NEGX_16_PI, Handler::Unary(ops::unary::UnaryOp::Negx16Pi)),
        122 => (opcodes::MASK_OUT_Y, opcodes::OP_NEGX_16_PD, Handler::Unary(ops::unary::UnaryOp::Negx16Pd)),
        123 => (opcodes::MASK_OUT_Y, opcodes::OP_NEGX_16_DI, Handler::Unary(ops::unary::UnaryOp::Negx16Di)),
        124 => (opcodes::MASK_OUT_Y, opcodes::OP_NEGX_16_IX, Handler::Unary(ops::unary::UnaryOp::Negx16Ix)),
        125 => (opcodes::MASK_EXACT, opcodes::OP_NEGX_16_AW, Handler::Unary(ops::unary::UnaryOp::Negx16Aw)),
        126 => (opcodes::MASK_EXACT, opcodes::OP_NEGX_16_AL, Handler::Unary(ops::unary::UnaryOp::Negx16Al)),
        127 => (opcodes::MASK_OUT_Y, opcodes::OP_NEGX_32_DN, Handler::Unary(ops::unary::UnaryOp::Negx32Dn)),
        128 => (opcodes::MASK_OUT_Y, opcodes::OP_NEGX_32_AI, Handler::Unary(ops::unary::UnaryOp::Negx32Ai)),
        129 => (opcodes::MASK_OUT_Y, opcodes::OP_NEGX_32_PI, Handler::Unary(ops::unary::UnaryOp::Negx32Pi)),
        130 => (opcodes::MASK_OUT_Y, opcodes::OP_NEGX_32_PD, Handler::Unary(ops::unary::UnaryOp::Negx32Pd)),
        131 => (opcodes::MASK_OUT_Y, opcodes::OP_NEGX_32_DI, Handler::Unary(ops::unary::UnaryOp::Negx32Di)),
        132 => (opcodes::MASK_OUT_Y, opcodes::OP_NEGX_32_IX, Handler::Unary(ops::unary::UnaryOp::Negx32Ix)),
        133 => (opcodes::MASK_EXACT, opcodes::OP_NEGX_32_AW, Handler::Unary(ops::unary::UnaryOp::Negx32Aw)),
        134 => (opcodes::MASK_EXACT, opcodes::OP_NEGX_32_AL, Handler::Unary(ops::unary::UnaryOp::Negx32Al)),
        135 => (opcodes::MASK_OUT_Y, opcodes::OP_NOT_8_DN, Handler::Unary(ops::unary::UnaryOp::Not8Dn)),
        136 => (opcodes::MASK_OUT_Y, opcodes::OP_NOT_8_AI, Handler::Unary(ops::unary::UnaryOp::Not8Ai)),
        137 => (opcodes::MASK_OUT_Y, opcodes::OP_NOT_8_PI, Handler::Unary(ops::unary::UnaryOp::Not8Pi)),
        138 => (opcodes::MASK_OUT_Y, opcodes::OP_NOT_8_PD, Handler::Unary(ops::unary::UnaryOp::Not8Pd)),
        139 => (opcodes::MASK_OUT_Y, opcodes::OP_NOT_8_DI, Handler::Unary(ops::unary::UnaryOp::Not8Di)),
        140 => (opcodes::MASK_OUT_Y, opcodes::OP_NOT_8_IX, Handler::Unary(ops::unary::UnaryOp::Not8Ix)),
        141 => (opcodes::MASK_EXACT, opcodes::OP_NOT_8_AW, Handler::Unary(ops::unary::UnaryOp::Not8Aw)),
        142 => (opcodes::MASK_EXACT, opcodes::OP_NOT_8_AL, Handler::Unary(ops::unary::UnaryOp::Not8Al)),
        143 => (opcodes::MASK_OUT_Y, opcodes::OP_NOT_16_DN, Handler::Unary(ops::unary::UnaryOp::Not16Dn)),
        144 => (opcodes::MASK_OUT_Y, opcodes::OP_NOT_16_AI, Handler::Unary(ops::unary::UnaryOp::Not16Ai)),
        145 => (opcodes::MASK_OUT_Y, opcodes::OP_NOT_16_PI, Handler::Unary(ops::unary::UnaryOp::Not16Pi)),
        146 => (opcodes::MASK_OUT_Y, opcodes::OP_NOT_16_PD, Handler::Unary(ops::unary::UnaryOp::Not16Pd)),
        147 => (opcodes::MASK_OUT_Y, opcodes::OP_NOT_16_DI, Handler::Unary(ops::unary::UnaryOp::Not16Di)),
        148 => (opcodes::MASK_OUT_Y, opcodes::OP_NOT_16_IX, Handler::Unary(ops::unary::UnaryOp::Not16Ix)),
        149 => (opcodes::MASK_EXACT, opcodes::OP_NOT_16_AW, Handler::Unary(ops::unary::UnaryOp::Not16Aw)),
        150 => (opcodes::MASK_EXACT, opcodes::OP_NOT_16_AL, Handler::Unary(ops::unary::UnaryOp::Not16Al)),
        151 => (opcodes::MASK_OUT_Y, opcodes::OP_NOT_32_DN, Handler::Unary(ops::unary::UnaryOp::Not32Dn)),
        152 => (opcodes::MASK_OUT_Y, opcodes::OP_NOT_32_AI, Handler::Unary(ops::unary::UnaryOp::Not32Ai)),
        153 => (opcodes::MASK_OUT_Y, opcodes::OP_NOT_32_PI, Handler::Unary(ops::unary::UnaryOp::Not32Pi)),
        154 => (opcodes::MASK_OUT_Y, opcodes::OP_NOT_32_PD, Handler::Unary(ops::unary::UnaryOp::Not32Pd)),
        155 => (opcodes::MASK_OUT_Y, opcodes::OP_NOT_32_DI, Handler::Unary(ops::unary::UnaryOp::Not32Di)),
        156 => (opcodes::MASK_OUT_Y, opcodes::OP_NOT_32_IX, Handler::Unary(ops::unary::UnaryOp::Not32Ix)),
        157 => (opcodes::MASK_EXACT, opcodes::OP_NOT_32_AW, Handler::Unary(ops::unary::UnaryOp::Not32Aw)),
        158 => (opcodes::MASK_EXACT, opcodes::OP_NOT_32_AL, Handler::Unary(ops::unary::UnaryOp::Not32Al)),
        159 => (opcodes::MASK_OUT_Y, opcodes::OP_TAS_8_DN, Handler::Unary(ops::unary::UnaryOp::Tas8Dn)),
        160 => (opcodes::MASK_OUT_Y, opcodes::OP_TAS_8_AI, Handler::Unary(ops::unary::UnaryOp::Tas8Ai)),
        161 => (opcodes::MASK_OUT_Y, opcodes::OP_TAS_8_PI, Handler::Unary(ops::unary::UnaryOp::Tas8Pi)),
        162 => (opcodes::MASK_OUT_Y, opcodes::OP_TAS_8_PD, Handler::Unary(ops::unary::UnaryOp::Tas8Pd)),
        163 => (opcodes::MASK_OUT_Y, opcodes::OP_TAS_8_DI, Handler::Unary(ops::unary::UnaryOp::Tas8Di)),
        164 => (opcodes::MASK_OUT_Y, opcodes::OP_TAS_8_IX, Handler::Unary(ops::unary::UnaryOp::Tas8Ix)),
        165 => (opcodes::MASK_EXACT, opcodes::OP_TAS_8_AW, Handler::Unary(ops::unary::UnaryOp::Tas8Aw)),
        166 => (opcodes::MASK_EXACT, opcodes::OP_TAS_8_AL, Handler::Unary(ops::unary::UnaryOp::Tas8Al)),
        167 => (opcodes::MASK_OUT_Y, opcodes::OP_TST_8_DN, Handler::Unary(ops::unary::UnaryOp::Tst8Dn)),
        168 => (opcodes::MASK_OUT_Y, opcodes::OP_TST_8_AI, Handler::Unary(ops::unary::UnaryOp::Tst8Ai)),
        169 => (opcodes::MASK_OUT_Y, opcodes::OP_TST_8_PI, Handler::Unary(ops::unary::UnaryOp::Tst8Pi)),
        170 => (opcodes::MASK_OUT_Y, opcodes::OP_TST_8_PD, Handler::Unary(ops::unary::UnaryOp::Tst8Pd)),
        171 => (opcodes::MASK_OUT_Y, opcodes::OP_TST_8_DI, Handler::Unary(ops::unary::UnaryOp::Tst8Di)),
        172 => (opcodes::MASK_OUT_Y, opcodes::OP_TST_8_IX, Handler::Unary(ops::unary::UnaryOp::Tst8Ix)),
        173 => (opcodes::MASK_EXACT, opcodes::OP_TST_8_AW, Handler::Unary(ops::unary::UnaryOp::Tst8Aw)),
        174 => (opcodes::MASK_EXACT, opcodes::OP_TST_8_AL, Handler::Unary(ops::unary::UnaryOp::Tst8Al)),
        175 => (opcodes::MASK_OUT_Y, opcodes::OP_TST_16_DN, Handler::Unary(ops::unary::UnaryOp::Tst16Dn)),
        176 => (opcodes::MASK_OUT_Y, opcodes::OP_TST_16_AI, Handler::Unary(ops::unary::UnaryOp::Tst16Ai)),
        177 => (opcodes::MASK_OUT_Y, opcodes::OP_TST_16_PI, Handler::Unary(ops::unary::UnaryOp::Tst16Pi)),
        178 => (opcodes::MASK_OUT_Y, opcodes::OP_TST_16_PD, Handler::Unary(ops::unary::UnaryOp::Tst16Pd)),
        179 => (opcodes::MASK_OUT_Y, opcodes::OP_TST_16_DI, Handler::Unary(ops::unary::UnaryOp::Tst16Di)),
        180 => (opcodes::MASK_OUT_Y, opcodes::OP_TST_16_IX, Handler::Unary(ops::unary::UnaryOp::Tst16Ix)),
        181 => (opcodes::MASK_EXACT, opcodes::OP_TST_16_AW, Handler::Unary(ops::unary::UnaryOp::Tst16Aw)),
        182 => (opcodes::MASK_EXACT, opcodes::OP_TST_16_AL, Handler::Unary(ops::unary::UnaryOp::Tst16Al)),
        183 => (opcodes::MASK_OUT_Y, opcodes::OP_TST_32_DN, Handler::Unary(ops::unary::UnaryOp::Tst32Dn)),
        184 => (opcodes::MASK_OUT_Y, opcodes::OP_TST_32_AI, Handler::Unary(ops::unary::UnaryOp::Tst32Ai)),
        185 => (opcodes::MASK_OUT_Y, opcodes::OP_TST_32_PI, Handler::Unary(ops::unary::UnaryOp::Tst32Pi)),
        186 => (opcodes::MASK_OUT_Y, opcodes::OP_TST_32_PD, Handler::Unary(ops::unary::UnaryOp::Tst32Pd)),
        187 => (opcodes::MASK_OUT_Y, opcodes::OP_TST_32_DI, Handler::Unary(ops::unary::UnaryOp::Tst32Di)),
        188 => (opcodes::MASK_OUT_Y, opcodes::OP_TST_32_IX, Handler::Unary(ops::unary::UnaryOp::Tst32Ix)),
        189 => (opcodes::MASK_EXACT, opcodes::OP_TST_32_AW, Handler::Unary(ops::unary::UnaryOp::Tst32Aw)),
        190 => (opcodes::MASK_EXACT, opcodes::OP_TST_32_AL, Handler::Unary(ops::unary::UnaryOp::Tst32Al)),
        191 => (opcodes::MASK_OUT_Y, opcodes::OP_MOVE_16_TOC_DN, Handler::Status(ops::status::StatusOp::Move16TocDn)),
        192 => (opcodes::MASK_OUT_Y, opcodes::OP_MOVE_16_TOC_AI, Handler::Status(ops::status::StatusOp::Move16TocAi)),
        193 => (opcodes::MASK_OUT_Y, opcodes::OP_MOVE_16_TOC_PI, Handler::Status(ops::status::StatusOp::Move16TocPi)),
        194 => (opcodes::MASK_OUT_Y, opcodes::OP_MOVE_16_TOC_PD, Handler::Status(ops::status::StatusOp::Move16TocPd)),
        195 => (opcodes::MASK_OUT_Y, opcodes::OP_MOVE_16_TOC_DI, Handler::Status(ops::status::StatusOp::Move16TocDi)),
        196 => (opcodes::MASK_OUT_Y, opcodes::OP_MOVE_16_TOC_IX, Handler::Status(ops::status::StatusOp::Move16TocIx)),
        197 => (opcodes::MASK_EXACT, opcodes::OP_MOVE_16_TOC_AW, Handler::Status(ops::status::StatusOp::Move16TocAw)),
        198 => (opcodes::MASK_EXACT, opcodes::OP_MOVE_16_TOC_AL, Handler::Status(ops::status::StatusOp::Move16TocAl)),
        199 => (opcodes::MASK_EXACT, opcodes::OP_MOVE_16_TOC_PCDI, Handler::Status(ops::status::StatusOp::Move16TocPcdi)),
        200 => (opcodes::MASK_EXACT, opcodes::OP_MOVE_16_TOC_PCIX, Handler::Status(ops::status::StatusOp::Move16TocPcix)),
        201 => (opcodes::MASK_EXACT, opcodes::OP_MOVE_16_TOC_IMM, Handler::Status(ops::status::StatusOp::Move16TocImm)),
        202 => (opcodes::MASK_OUT_Y, opcodes::OP_MOVE_16_FRS_DN, Handler::Status(ops::status::StatusOp::Move16FrsDn)),
        203 => (opcodes::MASK_OUT_Y, opcodes::OP_MOVE_16_FRS_AI, Handler::Status(ops::status::StatusOp::Move16FrsAi)),
        204 => (opcodes::MASK_OUT_Y, opcodes::OP_MOVE_16_FRS_PI, Handler::Status(ops::status::StatusOp::Move16FrsPi)),
        205 => (opcodes::MASK_OUT_Y, opcodes::OP_MOVE_16_FRS_PD, Handler::Status(ops::status::StatusOp::Move16FrsPd)),
        206 => (opcodes::MASK_OUT_Y, opcodes::OP_MOVE_16_FRS_DI, Handler::Status(ops::status::StatusOp::Move16FrsDi)),
        207 => (opcodes::MASK_OUT_Y, opcodes::OP_MOVE_16_FRS_IX, Handler::Status(ops::status::StatusOp::Move16FrsIx)),
        208 => (opcodes::MASK_EXACT, opcodes::OP_MOVE_16_FRS_AW, Handler::Status(ops::status::StatusOp::Move16FrsAw)),
        209 => (opcodes::MASK_EXACT, opcodes::OP_MOVE_16_FRS_AL, Handler::Status(ops::status::StatusOp::Move16FrsAl)),
        210 => (opcodes::MASK_OUT_Y, opcodes::OP_MOVE_16_TOS_DN, Handler::Status(ops::status::StatusOp::Move16TosDn)),
        211 => (opcodes::MASK_OUT_Y, opcodes::OP_MOVE_16_TOS_AI, Handler::Status(ops::status::StatusOp::Move16TosAi)),
        212 => (opcodes::MASK_OUT_Y, opcodes::OP_MOVE_16_TOS_PI, Handler::Status(ops::status::StatusOp::Move16TosPi)),
        213 => (opcodes::MASK_OUT_Y, opcodes::OP_MOVE_16_TOS_PD, Handler::Status(ops::status::StatusOp::Move16TosPd)),
        214 => (opcodes::MASK_OUT_Y, opcodes::OP_MOVE_16_TOS_DI, Handler::Status(ops::status::StatusOp::Move16TosDi)),
        215 => (opcodes::MASK_OUT_Y, opcodes::OP_MOVE_16_TOS_IX, Handler::Status(ops::status::StatusOp::Move16TosIx)),
        216 => (opcodes::MASK_EXACT, opcodes::OP_MOVE_16_TOS_AW, Handler::Status(ops::status::StatusOp::Move16TosAw)),
        217 => (opcodes::MASK_EXACT, opcodes::OP_MOVE_16_TOS_AL, Handler::Status(ops::status::StatusOp::Move16TosAl)),
        218 => (opcodes::MASK_EXACT, opcodes::OP_MOVE_16_TOS_PCDI, Handler::Status(ops::status::StatusOp::Move16TosPcdi)),
        219 => (opcodes::MASK_EXACT, opcodes::OP_MOVE_16_TOS_PCIX, Handler::Status(ops::status::StatusOp::Move16TosPcix)),
        220 => (opcodes::MASK_EXACT, opcodes::OP_MOVE_16_TOS_IMM, Handler::Status(ops::status::StatusOp::Move16TosImm)),
        221 => (opcodes::MASK_OUT_Y, opcodes::OP_MOVEM_16_RE_AI, Handler::Movem(ops::movem::MovemOp::Movem16ReAi)),
        222 => (opcodes::MASK_OUT_Y, opcodes::OP_MOVEM_16_RE_PD, Handler::Movem(ops::movem::MovemOp::Movem16RePd)),
        223 => (opcodes::MASK_OUT_Y, opcodes::OP_MOVEM_16_RE_DI, Handler::Movem(ops::movem::MovemOp::Movem16ReDi)),
        224 => (opcodes::MASK_OUT_Y, opcodes::OP_MOVEM_16_RE_IX, Handler::Movem(ops::movem::MovemOp::Movem16ReIx)),
        225 => (opcodes::MASK_EXACT, opcodes::OP_MOVEM_16_RE_AW, Handler::Movem(ops::movem::MovemOp::Movem16ReAw)),
        226 => (opcodes::MASK_EXACT, opcodes::OP_MOVEM_16_RE_AL, Handler::Movem(ops::movem::MovemOp::Movem16ReAl)),
        227 => (opcodes::MASK_OUT_Y, opcodes::OP_MOVEM_16_ER_AI, Handler::Movem(ops::movem::MovemOp::Movem16ErAi)),
        228 => (opcodes::MASK_OUT_Y, opcodes::OP_MOVEM_16_ER_PI, Handler::Movem(ops::movem::MovemOp::Movem16ErPi)),
        229 => (opcodes::MASK_OUT_Y, opcodes::OP_MOVEM_16_ER_DI, Handler::Movem(ops::movem::MovemOp::Movem16ErDi)),
        230 => (opcodes::MASK_OUT_Y, opcodes::OP_MOVEM_16_ER_IX, Handler::Movem(ops::movem::MovemOp::Movem16ErIx)),
        231 => (opcodes::MASK_EXACT, opcodes::OP_MOVEM_16_ER_AW, Handler::Movem(ops::movem::MovemOp::Movem16ErAw)),
        232 => (opcodes::MASK_EXACT, opcodes::OP_MOVEM_16_ER_AL, Handler::Movem(ops::movem::MovemOp::Movem16ErAl)),
        233 => (opcodes::MASK_EXACT, opcodes::OP_MOVEM_16_ER_PCDI, Handler::Movem(ops::movem::MovemOp::Movem16ErPcdi)),
        234 => (opcodes::MASK_EXACT, opcodes::OP_MOVEM_16_ER_PCIX, Handler::Movem(ops::movem::MovemOp::Movem16ErPcix)),
        235 => (opcodes::MASK_OUT_Y, opcodes::OP_MOVEM_32_RE_AI, Handler::Movem(ops::movem::MovemOp::Movem32ReAi)),
        236 => (opcodes::MASK_OUT_Y, opcodes::OP_MOVEM_32_RE_PD, Handler::Movem(ops::movem::MovemOp::Movem32RePd)),
        237 => (opcodes::MASK_OUT_Y, opcodes::OP_MOVEM_32_RE_DI, Handler::Movem(ops::movem::MovemOp::Movem32ReDi)),
        238 => (opcodes::MASK_OUT_Y, opcodes::OP_MOVEM_32_RE_IX, Handler::Movem(ops::movem::MovemOp::Movem32ReIx)),
        239 => (opcodes::MASK_EXACT, opcodes::OP_MOVEM_32_RE_AW, Handler::Movem(ops::movem::MovemOp::Movem32ReAw)),
        240 => (opcodes::MASK_EXACT, opcodes::OP_MOVEM_32_RE_AL, Handler::Movem(ops::movem::MovemOp::Movem32ReAl)),
        241 => (opcodes::MASK_OUT_Y, opcodes::OP_MOVEM_32_ER_AI, Handler::Movem(ops::movem::MovemOp::Movem32ErAi)),
        242 => (opcodes::MASK_OUT_Y, opcodes::OP_MOVEM_32_ER_PI, Handler::Movem(ops::movem::MovemOp::Movem32ErPi)),
        243 => (opcodes::MASK_OUT_Y, opcodes::OP_MOVEM_32_ER_DI, Handler::Movem(ops::movem::MovemOp::Movem32ErDi)),
        244 => (opcodes::MASK_OUT_Y, opcodes::OP_MOVEM_32_ER_IX, Handler::Movem(ops::movem::MovemOp::Movem32ErIx)),
        245 => (opcodes::MASK_EXACT, opcodes::OP_MOVEM_32_ER_AW, Handler::Movem(ops::movem::MovemOp::Movem32ErAw)),
        246 => (opcodes::MASK_EXACT, opcodes::OP_MOVEM_32_ER_AL, Handler::Movem(ops::movem::MovemOp::Movem32ErAl)),
        247 => (opcodes::MASK_EXACT, opcodes::OP_MOVEM_32_ER_PCDI, Handler::Movem(ops::movem::MovemOp::Movem32ErPcdi)),
        _ => (opcodes::MASK_EXACT, opcodes::OP_MOVEM_32_ER_PCIX, Handler::Movem(ops::movem::MovemOp::Movem32ErPcix)),
    }
}

/// The instruction patterns of group 5, in the order they are tried.
pub open spec fn group_5(i: int) -> (u32, u32, Handler) {
    if i == 0 {
        (opcodes::MASK_OUT_X_Y, opcodes::OP_ADDQ_16_AN, Handler::Basic(BasicOp::Addq16An))
    } else if i == 1 {
        (opcodes::MASK_OUT_X_Y, opcodes::OP_ADDQ_32_AN, Handler::Basic(BasicOp::Addq32An))
    } else if i == 2 {
        (opcodes::MASK_OUT_X_Y, opcodes::OP_SUBQ_16_AN, Handler::Basic(BasicOp::Subq16An))
    } else if i == 3 {
        (opcodes::MASK_OUT_X_Y, opcodes::OP_SUBQ_32_AN, Handler::Basic(BasicOp::Subq32An))
    } else if i == 4 {
        (opcodes::MASK_OUT_X_Y, opcodes::OP_ADDQ_8_DN, Handler::Basic(BasicOp::Addq8Dn))
    } else if i == 5 {
        (opcodes::MASK_OUT_X_Y, opcodes::OP_ADDQ_8_AI, Handler::Basic(BasicOp::Addq8Ai))
    } else if i == 6 {
        (opcodes::MASK_OUT_X_Y, opcodes::OP_ADDQ_8_PI, Handler::Basic(BasicOp::Addq8Pi))
    } else if i == 7 {
        (opcodes::MASK_OUT_X_Y, opcodes::OP_ADDQ_8_PD, Handler::Basic(BasicOp::Addq8Pd))
    } else if i == 8 {
        (opcodes::MASK_OUT_X_Y, opcodes::OP_ADDQ_8_DI, Handler::Basic(BasicOp::Addq8Di))
    } else if i == 9 {
        (opcodes::MASK_OUT_X_Y, opcodes::OP_ADDQ_8_IX, Handler::Basic(BasicOp::Addq8Ix))
    } else if i == 10 {
        (opcodes::MASK_OUT_X, opcodes::OP_ADDQ_8_AW, Handler::Basic(BasicOp::Addq8Aw))
    } else if i == 11 {
        (opcodes::MASK_OUT_X, opcodes::OP_ADDQ_8_AL, Handler::Basic(BasicOp::Addq8Al))
    } else if i == 12 {
        (opcodes::MASK_OUT_X_Y, opcodes::OP_ADDQ_16_DN, Handler::Basic(BasicOp::Addq16Dn))
    } else if i == 13 {
        (opcodes::MASK_OUT_X_Y, opcodes::OP_ADDQ_16_AI, Handler::Basic(BasicOp::Addq16Ai))
    } else if i == 14 {
        (opcodes::MASK_OUT_X_Y, opcodes::OP_ADDQ_16_PI, Handler::Basic(BasicOp::Addq16Pi))
    } else if i == 15 {
        (opcodes::MASK_OUT_X_Y, opcodes::OP_ADDQ_16_PD, Handler::Basic(BasicOp::Addq16Pd))
    } else if i == 16 {
        (opcodes::MASK_OUT_X_Y, opcodes::OP_ADDQ_16_DI, Handler::Basic(BasicOp::Addq16Di))
    } else if i == 17 {
        (opcodes::MASK_OUT_X_Y, opcodes::OP_ADDQ_16_IX, Handler::Basic(BasicOp::Addq16Ix))
    } else if i == 18 {
        (opcodes::MASK_OUT_X, opcodes::OP_ADDQ_16_AW, Handler::Basic(BasicOp::Addq16Aw))
    } else if i == 19 {
        (opcodes::MASK_OUT_X, opcodes::OP_ADDQ_16_AL, Handler::Basic(BasicOp::Addq16Al))
    } else if i == 20 {
        (opcodes::MASK_OUT_X_Y, opcodes::OP_ADDQ_32_DN, Handler::Basic(BasicOp::Addq32Dn))
    } else if i == 21 {
        (opcodes::MASK_OUT_X_Y, opcodes::OP_ADDQ_32_AI, Handler::Basic(BasicOp::Addq32Ai))
    } else if i == 22 {
        (opcodes::MASK_OUT_X_Y, opcodes::OP_ADDQ_32_PI, Handler::Basic(BasicOp::Addq32Pi))
    } else if i == 23 {
        (opcodes::MASK_OUT_X_Y, opcodes::OP_ADDQ_32_PD, Handler::Basic(BasicOp::Addq32Pd))
    } else if i == 24 {
        (opcodes::MASK_OUT_X_Y, opcodes::OP_ADDQ_32_DI, Handler::Basic(BasicOp::Addq32Di))
    } else if i == 25 {
        (opcodes::MASK_OUT_X_Y, opcodes::OP_ADDQ_32_IX, Handler::Basic(BasicOp::Addq32Ix))
    } else if i == 26 {
        (opcodes::MASK_OUT_X, opcodes::OP_ADDQ_32_AW, Handler::Basic(BasicOp::Addq32Aw))
    } else if i == 27 {
        (opcodes::MASK_OUT_X, opcodes::OP_ADDQ_32_AL, Handler::Basic(BasicOp::Addq32Al))
    } else if i == 28 {
        (opcodes::MASK_OUT_X_Y, opcodes::OP_SUBQ_8_DN, Handler::Basic(BasicOp::Subq8Dn))
    } else if i == 29 {
        (opcodes::MASK_OUT_X_Y, opcodes::OP_SUBQ_8_AI, Handler::Basic(BasicOp::Subq8Ai))
    } else if i == 30 {
        (opcodes::MASK_OUT_X_Y, opcodes::OP_SUBQ_8_PI, Handler::Basic(BasicOp::Subq8Pi))
    } else if i == 31 {
        (opcodes::MASK_OUT_X_Y, opcodes::OP_SUBQ_8_PD, Handler::Basic(BasicOp::Subq8Pd))
    } else if i == 32 {
        (opcodes::MASK_OUT_X_Y, opcodes::OP_SUBQ_8_DI, Handler::Basic(BasicOp::Subq8Di))
    } else if i == 33 {
        (opcodes::MASK_OUT_X_Y, opcodes::OP_SUBQ_8_IX, Handler::Basic(BasicOp::Subq8Ix))
    } else if i == 34 {
        (opcodes::MASK_OUT_X, opcodes::OP_SUBQ_8_AW, Handler::Basic(BasicOp::Subq8Aw))
    } else if i == 35 {
        (opcodes::MASK_OUT_X, opcodes::OP_SUBQ_8_AL, Handler::Basic(BasicOp::Subq8Al))
    } else if i == 36 {
        (opcodes::MASK_OUT_X_Y, opcodes::OP_SUBQ_16_DN, Handler::Basic(BasicOp::Subq16Dn))
    } else if i == 37 {
        (opcodes::MASK_OUT_X_Y, opcodes::OP_SUBQ_16_AI, Handler::Basic(BasicOp::Subq16Ai))
    } else if i == 38 {
        (opcodes::MASK_OUT_X_Y, opcodes::OP_SUBQ_16_PI, Handler::Basic(BasicOp::Subq16Pi))
    } else if i == 39 {
        (opcodes::MASK_OUT_X_Y, opcodes::OP_SUBQ_16_PD, Handler::Basic(BasicOp::Subq16Pd))
    } else if i == 40 {
        (opcodes::MASK_OUT_X_Y, opcodes::OP_SUBQ_16_DI, Handler::Basic(BasicOp::Subq16Di))
    } else if i == 41 {
        (opcodes::MASK_OUT_X_Y, opcodes::OP_SUBQ_16_IX, Handler::Basic(BasicOp::Subq16Ix))
    } else if i == 42 {
        (opcodes::MASK_OUT_X, opcodes::OP_SUBQ_16_AW, Handler::Basic(BasicOp::Subq16Aw))
    } else if i == 43 {
        (opcodes::MASK_OUT_X, opcodes::OP_SUBQ_16_AL, Handler::Basic(BasicOp::Subq16Al))
    } else if i == 44 {
        (opcodes::MASK_OUT_X_Y, opcodes::OP_SUBQ_32_DN, Handler::Basic(BasicOp::Subq32Dn))
    } else if i == 45 {
        (opcodes::MASK_OUT_X_Y, opcodes::OP_SUBQ_32_AI, Handler::Basic(BasicOp::Subq32Ai))
    } else if i == 46 {
        (opcodes::MASK_OUT_X_Y, opcodes::OP_SUBQ_32_PI, Handler::Basic(BasicOp::Subq32Pi))
    } else if i == 47 {
        (opcodes::MASK_OUT_X_Y, opcodes::OP_SUBQ_32_PD, Handler::Basic(BasicOp::Subq32Pd))
    } else if i == 48 {
        (opcodes::MASK_OUT_X_Y, opcodes::OP_SUBQ_32_DI, Handler::Basic(BasicOp::Subq32Di))
    } else if i == 49 {
        (opcodes::MASK_OUT_X_Y, opcodes::OP_SUBQ_32_IX, Handler::Basic(BasicOp::Subq32Ix))
    } else if i == 50 {
        (opcodes::MASK_OUT_X, opcodes::OP_SUBQ_32_AW, Handler::Basic(BasicOp::Subq32Aw))
    } else if i == 51 {
        (opcodes::MASK_OUT_X, opcodes::OP_SUBQ_32_AL, Handler::Basic(BasicOp::Subq32Al))
    } else if i == 52 {
        (opcodes::MASK_OUT_Y, opcodes::OP_DBT_16, Handler::Flow(ops::flow::FlowOp::Dbt16))
    } else if i == 53 {
        (opcodes::MASK_OUT_Y, opcodes::OP_DBF_16, Handler::Flow(ops::flow::FlowOp::Dbf16))
    } else if i == 54 {
        (opcodes::MASK_OUT_Y, opcodes::OP_DBHI_16, Handler::Flow(ops::flow::FlowOp::Dbhi16))
    } else if i == 55 {
        (opcodes::MASK_OUT_Y, opcodes::OP_DBLS_16, Handler::Flow(ops::flow::FlowOp::Dbls16))
    } else if i == 56 {
        (opcodes::MASK_OUT_Y, opcodes::OP_DBCC_16, Handler::Flow(ops::flow::FlowOp::Dbcc16))
    } else if i == 57 {
        (opcodes::MASK_OUT_Y, opcodes::OP_DBCS_16, Handler::Flow(ops::flow::FlowOp::Dbcs16))
    } else if i == 58 {
        (opcodes::MASK_OUT_Y, opcodes::OP_DBNE_16, Handler::Flow(ops::flow::FlowOp::Dbne16))
    } else if i == 59 {
        (opcodes::MASK_OUT_Y, opcodes::OP_DBEQ_16, Handler::Flow(ops::flow::FlowOp::Dbeq16))
    } else if i == 60 {
        (opcodes::MASK_OUT_Y, opcodes::OP_DBVC_16, Handler::Flow(ops::flow::FlowOp::Dbvc16))
    } else if i == 61 {
        (opcodes::MASK_OUT_Y, opcodes::OP_DBVS_16, Handler::Flow(ops::flow::FlowOp::Dbvs16))
    } else if i == 62 {
        (opcodes::MASK_OUT_Y, opcodes::OP_DBPL_16, Handler::Flow(ops::flow::FlowOp::Dbpl16))
    } else if i == 63 {
        (opcodes::MASK_OUT_Y, opcodes::OP_DBMI_16, Handler::Flow(ops::flow::FlowOp::Dbmi16))
    } else if i == 64 {
        (opcodes::MASK_OUT_Y, opcodes::OP_DBGE_16, Handler::Flow(ops::flow::FlowOp::Dbge16))
    } else if i == 65 {
        (opcodes::MASK_OUT_Y, opcodes::OP_DBLT_16, Handler::Flow(ops::flow::FlowOp::Dblt16))
    } else if i == 66 {
        (opcodes::MASK_OUT_Y, opcodes::OP_DBGT_16, Handler::Flow(ops::flow::FlowOp::Dbgt16))
    } else if i == 67 {
        (opcodes::MASK_OUT_Y, opcodes::OP_DBLE_16, Handler::Flow(ops::flow::FlowOp::Dble16))
    } else if i == 68 {
        (opcodes::MASK_OUT_Y, opcodes::OP_SCC_8_DN, Handler::Flow(ops::flow::FlowOp::Scc8Dn))
    } else if i == 69 {
        (opcodes::MASK_OUT_Y, opcodes::OP_SCC_8_AI, Handler::Flow(ops::flow::FlowOp::Scc8Ai))
    } else if i == 70 {
        (opcodes::MASK_EXACT, opcodes::OP_SCC_8_AL, Handler::Flow(ops::flow::FlowOp::Scc8Al))
    } else if i == 71 {
        (opcodes::MASK_EXACT, opcodes::OP_SCC_8_AW, Handler::Flow(ops::flow::FlowOp::Scc8Aw))
    } else if i == 72 {
        (opcodes::MASK_OUT_Y, opcodes::OP_SCC_8_DI, Handler::Flow(ops::flow::FlowOp::Scc8Di))
    } else if i == 73 {
        (opcodes::MASK_OUT_Y, opcodes::OP_SCC_8_IX, Handler::Flow(ops::flow::FlowOp::Scc8Ix))
    } else if i == 74 {
        (opcodes::MASK_OUT_Y, opcodes::OP_SCC_8_PD, Handler::Flow(ops::flow::FlowOp::Scc8Pd))
    } else if i == 75 {
        (opcodes::MASK_OUT_Y, opcodes::OP_SCC_8_PI, Handler::Flow(ops::flow::FlowOp::Scc8Pi))
    } else if i == 76 {
        (opcodes::MASK_OUT_Y, opcodes::OP_SCS_8_DN, Handler::Flow(ops::flow::FlowOp::Scs8Dn))
    } else if i == 77 {
        (opcodes::MASK_OUT_Y, opcodes::OP_SCS_8_AI, Handler::Flow(ops::flow::FlowOp::Scs8Ai))
    } else if i == 78 {
        (opcodes::MASK_EXACT, opcodes::OP_SCS_8_AL, Handler::Flow(ops::flow::FlowOp::Scs8Al))
    } else if i == 79 {
        (opcodes::MASK_EXACT, opcodes::OP_SCS_8_AW, Handler::Flow(ops::flow::FlowOp::Scs8Aw))
    } else if i == 80 {
        (opcodes::MASK_OUT_Y, opcodes::OP_SCS_8_DI, Handler::Flow(ops::flow::FlowOp::Scs8Di))
    } else if i == 81 {
        (opcodes::MASK_OUT_Y, opcodes::OP_SCS_8_IX, Handler::Flow(ops::flow::FlowOp::Scs8Ix))
    } else if i == 82 {
        (opcodes::MASK_OUT_Y, opcodes::OP_SCS_8_PD, Handler::Flow(ops::flow::FlowOp::Scs8Pd))
    } else if i == 83 {
        (opcodes::MASK_OUT_Y, opcodes::OP_SCS_8_PI, Handler::Flow(ops::flow::FlowOp::Scs8Pi))
    } else if i == 84 {
        (opcodes::MASK_OUT_Y, opcodes::OP_SEQ_8_DN, Handler::Flow(ops::flow::FlowOp::Seq8Dn))
    } else if i == 85 {
        (opcodes::MASK_OUT_Y, opcodes::OP_SEQ_8_AI, Handler::Flow(ops::flow::FlowOp::Seq8Ai))
    } else if i == 86 {
        (opcodes::MASK_EXACT, opcodes::OP_SEQ_8_AL, Handler::Flow(ops::flow::FlowOp::Seq8Al))
    } else if i == 87 {
        (opcodes::MASK_EXACT, opcodes::OP_SEQ_8_AW, Handler::Flow(ops::flow::FlowOp::Seq8Aw))
    } else if i == 88 {
        (opcodes::MASK_OUT_Y, opcodes::OP_SEQ_8_DI, Handler::Flow(ops::flow::FlowOp::Seq8Di))
    } else if i == 89 {
        (opcodes::MASK_OUT_Y, opcodes::OP_SEQ_8_IX, Handler::Flow(ops::flow::FlowOp::Seq8Ix))
    } else if i == 90 {
        (opcodes::MASK_OUT_Y, opcodes::OP_SEQ_8_PD, Handler::Flow(ops::flow::FlowOp::Seq8Pd))
    } else if i == 91 {
        (opcodes::MASK_OUT_Y, opcodes::OP_SEQ_8_PI, Handler::Flow(ops::flow::FlowOp::Seq8Pi))
    } else if i == 92 {
        (opcodes::MASK_OUT_Y, opcodes::OP_SF_8_DN, Handler::Flow(ops::flow::FlowOp::Sf8Dn))
    } else if i == 93 {
        (opcodes::MASK_OUT_Y, opcodes::OP_SF_8_AI, Handler::Flow(ops::flow::FlowOp::Sf8Ai))
    } else if i == 94 {
        (opcodes::MASK_EXACT, opcodes::OP_SF_8_AL, Handler::Flow(ops::flow::FlowOp::Sf8Al))
    } else if i == 95 {
        (opcodes::MASK_EXACT, opcodes::OP_SF_8_AW, Handler::Flow(ops::flow::FlowOp::Sf8Aw))
    } else if i == 96 {
        (opcodes::MASK_OUT_Y, opcodes::OP_SF_8_DI, Handler::Flow(ops::flow::FlowOp::Sf8Di))
    } else if i == 97 {
        (opcodes::MASK_OUT_Y, opcodes::OP_SF_8_IX, Handler::Flow(ops::flow::FlowOp::Sf8Ix))
    } else if i == 98 {
        (opcodes::MASK_OUT_Y, opcodes::OP_SF_8_PD, Handler::Flow(ops::flow::FlowOp::Sf8Pd))
    } else if i == 99 {
        (opcodes::MASK_OUT_Y, opcodes::OP_SF_8_PI, Handler::Flow(ops::flow::FlowOp::Sf8Pi))
    } else if i == 100 {
        (opcodes::MASK_OUT_Y, opcodes::OP_SGE_8_DN, Handler::Flow(ops::flow::FlowOp::Sge8Dn))
    } else if i == 101 {
        (opcodes::MASK_OUT_Y, opcodes::OP_SGE_8_AI, Handler::Flow(ops::flow::FlowOp::Sge8Ai))
    } else if i == 102 {
        (opcodes::MASK_EXACT, opcodes::OP_SGE_8_AL, Handler::Flow(ops::flow::FlowOp::Sge8Al))
    } else if i == 103 {
        (opcodes::MASK_EXACT, opcodes::OP_SGE_8_AW, Handler::Flow(ops::flow::FlowOp::Sge8Aw))
    } else if i == 104 {
        (opcodes::MASK_OUT_Y, opcodes::OP_SGE_8_DI, Handler::Flow(ops::flow::FlowOp::Sge8Di))
    } else if i == 105 {
        (opcodes::MASK_OUT_Y, opcodes::OP_SGE_8_IX, Handler::Flow(ops::flow::FlowOp::Sge8Ix))
    } else if i == 106 {
        (opcodes::MASK_OUT_Y, opcodes::OP_SGE_8_PD, Handler::Flow(ops::flow::FlowOp::Sge8Pd))
    } else if i == 107 {
        (opcodes::MASK_OUT_Y, opcodes::OP_SGE_8_PI, Handler::Flow(ops::flow::FlowOp::Sge8Pi))
    } else if i == 108 {
        (opcodes::MASK_OUT_Y, opcodes::OP_SGT_8_DN, Handler::Flow(ops::flow::FlowOp::Sgt8Dn))
    } else if i == 109 {
        (opcodes::MASK_OUT_Y, opcodes::OP_SGT_8_AI, Handler::Flow(ops::flow::FlowOp::Sgt8Ai))
    } else if i == 110 {
        (opcodes::MASK_EXACT, opcodes::OP_SGT_8_AL, Handler::Flow(ops::flow::FlowOp::Sgt8Al))
    } else if i == 111 {
        (opcodes::MASK_EXACT, opcodes::OP_SGT_8_AW, Handler::Flow(ops::flow::FlowOp::Sgt8Aw))
    } else if i == 112 {
        (opcodes::MASK_OUT_Y, opcodes::OP_SGT_8_DI, Handler::Flow(ops::flow::FlowOp::Sgt8Di))
    } else if i == 113 {
        (opcodes::MASK_OUT_Y, opcodes::OP_SGT_8_IX, Handler::Flow(ops::flow::FlowOp::Sgt8Ix))
    } else if i == 114 {
        (opcodes::MASK_OUT_Y, opcodes::OP_SGT_8_PD, Handler::Flow(ops::flow::FlowOp::Sgt8Pd))
    } else if i == 115 {
        (opcodes::MASK_OUT_Y, opcodes::OP_SGT_8_PI, Handler::Flow(ops::flow::FlowOp::Sgt8Pi))
    } else if i == 116 {
        (opcodes::MASK_OUT_Y, opcodes::OP_SHI_8_DN, Handler::Flow(ops::flow::FlowOp::Shi8Dn))
    } else if i == 117 {
        (opcodes::MASK_OUT_Y, opcodes::OP_SHI_8_AI, Handler::Flow(ops::flow::FlowOp::Shi8Ai))
    } else if i == 118 {
        (opcodes::MASK_EXACT, opcodes::OP_SHI_8_AL, Handler::Flow(ops::flow::FlowOp::Shi8Al))
    } else if i == 119 {
        (opcodes::MASK_EXACT, opcodes::OP_SHI_8_AW, Handler::Flow(ops::flow::FlowOp::Shi8Aw))
    } else if i == 120 {
        (opcodes::MASK_OUT_Y, opcodes::OP_SHI_8_DI, Handler::Flow(ops::flow::FlowOp::Shi8Di))
    } else if i == 121 {
        (opcodes::MASK_OUT_Y, opcodes::OP_SHI_8_IX, Handler::Flow(ops::flow::FlowOp::Shi8Ix))
    } else if i == 122 {
        (opcodes::MASK_OUT_Y, opcodes::OP_SHI_8_PD, Handler::Flow(ops::flow::FlowOp::Shi8Pd))
    } else if i == 123 {
        (opcodes::MASK_OUT_Y, opcodes::OP_SHI_8_PI, Handler::Flow(ops::flow::FlowOp::Shi8Pi))
    } else if i == 124 {
        (opcodes::MASK_OUT_Y, opcodes::OP_SLE_8_DN, Handler::Flow(ops::flow::FlowOp::Sle8Dn))
    } else if i == 125 {
        (opcodes::MASK_OUT_Y, opcodes::OP_SLE_8_AI, Handler::Flow(ops::flow::FlowOp::Sle8Ai))
    } else if i == 126 {
        (opcodes::MASK_EXACT, opcodes::OP_SLE_8_AL, Handler::Flow(ops::flow::FlowOp::Sle8Al))
    } else if i == 127 {
        (opcodes::MASK_EXACT, opcodes::OP_SLE_8_AW, Handler::Flow(ops::flow::FlowOp::Sle8Aw))
    } else if i == 128 {
        (opcodes::MASK_OUT_Y, opcodes::OP_SLE_8_DI, Handler::Flow(ops::flow::FlowOp::Sle8Di))
    } else if i == 129 {
        (opcodes::MASK_OUT_Y, opcodes::OP_SLE_8_IX, Handler::Flow(ops::flow::FlowOp::Sle8Ix))
    } else if i == 130 {
        (opcodes::MASK_OUT_Y, opcodes::OP_SLE_8_PD, Handler::Flow(ops::flow::FlowOp::Sle8Pd))
    } else if i == 131 {
        (opcodes::MASK_OUT_Y, opcodes::OP_SLE_8_PI, Handler::Flow(ops::flow::FlowOp::Sle8Pi))
    } else if i == 132 {
        (opcodes::MASK_OUT_Y, opcodes::OP_SLS_8_DN, Handler::Flow(ops::flow::FlowOp::Sls8Dn))
    } else if i == 133 {
        (opcodes::MASK_OUT_Y, opcodes::OP_SLS_8_AI, Handler::Flow(ops::flow::FlowOp::Sls8Ai))
    } else if i == 134 {
        (opcodes::MASK_EXACT, opcodes::OP_SLS_8_AL, Handler::Flow(ops::flow::FlowOp::Sls8Al))
    } else if i == 135 {
        (opcodes::MASK_EXACT, opcodes::OP_SLS_8_AW, Handler::Flow(ops::flow::FlowOp::Sls8Aw))
    } else if i == 136 {
        (opcodes::MASK_OUT_Y, opcodes::OP_SLS_8_DI, Handler::Flow(ops::flow::FlowOp::Sls8Di))
    } else if i == 137 {
        (opcodes::MASK_OUT_Y, opcodes::OP_SLS_8_IX, Handler::Flow(ops::flow::FlowOp::Sls8Ix))
    } else if i == 138 {
        (opcodes::MASK_OUT_Y, opcodes::OP_SLS_8_PD, Handler::Flow(ops::flow::FlowOp::Sls8Pd))
    } else if i == 139 {
        (opcodes::MASK_OUT_Y, opcodes::OP_SLS_8_PI, Handler::Flow(ops::flow::FlowOp::Sls8Pi))
    } else if i == 140 {
        (opcodes::MASK_OUT_Y, opcodes::OP_SLT_8_DN, Handler::Flow(ops::flow::FlowOp::Slt8Dn))
    } else if i == 141 {
        (opcodes::MASK_OUT_Y, opcodes::OP_SLT_8_AI, Handler::Flow(ops::flow::FlowOp::Slt8Ai))
    } else if i == 142 {
        (opcodes::MASK_EXACT, opcodes::OP_SLT_8_AL, Handler::Flow(ops::flow::FlowOp::Slt8Al))
    } else if i == 143 {
        (opcodes::MASK_EXACT, opcodes::OP_SLT_8_AW, Handler::Flow(ops::flow::FlowOp::Slt8Aw))
    } else if i == 144 {
        (opcodes::MASK_OUT_Y, opcodes::OP_SLT_8_DI, Handler::Flow(ops::flow::FlowOp::Slt8Di))
    } else if i == 145 {
        (opcodes::MASK_OUT_Y, opcodes::OP_SLT_8_IX, Handler::Flow(ops::flow::FlowOp::Slt8Ix))
    } else if i == 146 {
        (opcodes::MASK_OUT_Y, opcodes::OP_SLT_8_PD, Handler::Flow(ops::flow::FlowOp::Slt8Pd))
    } else if i == 147 {
        (opcodes::MASK_OUT_Y, opcodes::OP_SLT_8_PI, Handler::Flow(ops::flow::FlowOp::Slt8Pi))
    } else if i == 148 {
        (opcodes::MASK_OUT_Y, opcodes::OP_SMI_8_DN, Handler::Flow(ops::flow::FlowOp::Smi8Dn))
    } else if i == 149 {
        (opcodes::MASK_OUT_Y, opcodes::OP_SMI_8_AI, Handler::Flow(ops::flow::FlowOp::Smi8Ai))
    } else if i == 150 {
        (opcodes::MASK_EXACT, opcodes::OP_SMI_8_AL, Handler::Flow(ops::flow::FlowOp::Smi8Al))
    } else if i == 151 {
        (opcodes::MASK_EXACT, opcodes::OP_SMI_8_AW, Handler::Flow(ops::flow::FlowOp::Smi8Aw))
    } else if i == 152 {
        (opcodes::MASK_OUT_Y, opcodes::OP_SMI_8_DI, Handler::Flow(ops::flow::FlowOp::Smi8Di))
    } else if i == 153 {
        (opcodes::MASK_OUT_Y, opcodes::OP_SMI_8_IX, Handler::Flow(ops::flow::FlowOp::Smi8Ix))
    } else if i == 154 {
        (opcodes::MASK_OUT_Y, opcodes::OP_SMI_8_PD, Handler::Flow(ops::flow::FlowOp::Smi8Pd))
    } else if i == 155 {
        (opcodes::MASK_OUT_Y, opcodes::OP_SMI_8_PI, Handler::Flow(ops::flow::FlowOp::Smi8Pi))
    } else if i == 156 {
        (opcodes::MASK_OUT_Y, opcodes::OP_SNE_8_DN, Handler::Flow(ops::flow::FlowOp::Sne8Dn))
    } else if i == 157 {
        (opcodes::MASK_OUT_Y, opcodes::OP_SNE_8_AI, Handler::Flow(ops::flow::FlowOp::Sne8Ai))
    } else if i == 158 {
        (opcodes::MASK_EXACT, opcodes::OP_SNE_8_AL, Handler::Flow(ops::flow::FlowOp::Sne8Al))
    } else if i == 159 {
        (opcodes::MASK_EXACT, opcodes::OP_SNE_8_AW, Handler::Flow(ops::flow::FlowOp::Sne8Aw))
    } else if i == 160 {
        (opcodes::MASK_OUT_Y, opcodes::OP_SNE_8_DI, Handler::Flow(ops::flow::FlowOp::Sne8Di))
    } else if i == 161 {
        (opcodes::MASK_OUT_Y, opcodes::OP_SNE_8_IX, Handler::Flow(ops::flow::FlowOp::Sne8Ix))
    } else if i == 162 {
        (opcodes::MASK_OUT_Y, opcodes::OP_SNE_8_PD, Handler::Flow(ops::flow::FlowOp::Sne8Pd))
    } else if i == 163 {
        (opcodes::MASK_OUT_Y, opcodes::OP_SNE_8_PI, Handler::Flow(ops::flow::FlowOp::Sne8Pi))
    } else if i == 164 {
        (opcodes::MASK_OUT_Y, opcodes::OP_SPL_8_DN, Handler::Flow(ops::flow::FlowOp::Spl8Dn))
    } else if i == 165 {
        (opcodes::MASK_OUT_Y, opcodes::OP_SPL_8_AI, Handler::Flow(ops::flow::FlowOp::Spl8Ai))
    } else if i == 166 {
        (opcodes::MASK_EXACT, opcodes::OP_SPL_8_AL, Handler::Flow(ops::flow::FlowOp::Spl8Al))
    } else if i == 167 {
        (opcodes::MASK_EXACT, opcodes::OP_SPL_8_AW, Handler::Flow(ops::flow::FlowOp::Spl8Aw))
    } else if i == 168 {
        (opcodes::MASK_OUT_Y, opcodes::OP_SPL_8_DI, Handler::Flow(ops::flow::FlowOp::Spl8Di))
    } else if i == 169 {
        (opcodes::MASK_OUT_Y, opcodes::OP_SPL_8_IX, Handler::Flow(ops::flow::FlowOp::Spl8Ix))
    } else if i == 170 {
        (opcodes::MASK_OUT_Y, opcodes::OP_SPL_8_PD, Handler::Flow(ops::flow::FlowOp::Spl8Pd))
    } else if i == 171 {
        (opcodes::MASK_OUT_Y, opcodes::OP_SPL_8_PI, Handler::Flow(ops::flow::FlowOp::Spl8Pi))
    } else if i == 172 {
        (opcodes::MASK_OUT_Y, opcodes::OP_ST_8_DN, Handler::Flow(ops::flow::FlowOp::St8Dn))
    } else if i == 173 {
        (opcodes::MASK_OUT_Y, opcodes::OP_ST_8_AI, Handler::Flow(ops::flow::FlowOp::St8Ai))
    } else if i == 174 {
        (opcodes::MASK_EXACT, opcodes::OP_ST_8_AL, Handler::Flow(ops::flow::FlowOp::St8Al))
    } else if i == 175 {
        (opcodes::MASK_EXACT, opcodes::OP_ST_8_AW, Handler::Flow(ops::flow::FlowOp::St8Aw))
    } else if i == 176 {
        (opcodes::MASK_OUT_Y, opcodes::OP_ST_8_DI, Handler::Flow(ops::flow::FlowOp::St8Di))
    } else if i == 177 {
        (opcodes::MASK_OUT_Y, opcodes::OP_ST_8_IX, Handler::Flow(ops::flow::FlowOp::St8Ix))
    } else if i == 178 {
        (opcodes::MASK_OUT_Y, opcodes::OP_ST_8_PD, Handler::Flow(ops::flow::FlowOp::St8Pd))
    } else if i == 179 {
        (opcodes::MASK_OUT_Y, opcodes::OP_ST_8_PI, Handler::Flow(ops::flow::FlowOp::St8Pi))
    } else if i == 180 {
        (opcodes::MASK_OUT_Y, opcodes::OP_SVC_8_DN, Handler::Flow(ops::flow::FlowOp::Svc8Dn))
    } else if i == 181 {
        (opcodes::MASK_OUT_Y, opcodes::OP_SVC_8_AI, Handler::Flow(ops::flow::FlowOp::Svc8Ai))
    } else if i == 182 {
        (opcodes::MASK_EXACT, opcodes::OP_SVC_8_AL, Handler::Flow(ops::flow::FlowOp::Svc8Al))
    } else if i == 183 {
        (opcodes::MASK_EXACT, opcodes::OP_SVC_8_AW, Handler::Flow(ops::flow::FlowOp::Svc8Aw))
    } else if i == 184 {
        (opcodes::MASK_OUT_Y, opcodes::OP_SVC_8_DI, Handler::Flow(ops::flow::FlowOp::Svc8Di))
    } else if i == 185 {
        (opcodes::MASK_OUT_Y, opcodes::OP_SVC_8_IX, Handler::Flow(ops::flow::FlowOp::Svc8Ix))
    } else if i == 186 {
        (opcodes::MASK_OUT_Y, opcodes::OP_SVC_8_PD, Handler::Flow(ops::flow::FlowOp::Svc8Pd))
    } else if i == 187 {
        (opcodes::MASK_OUT_Y, opcodes::OP_SVC_8_PI, Handler::Flow(ops::flow::FlowOp::Svc8Pi))
    } else if i == 188 {
        (opcodes::MASK_OUT_Y, opcodes::OP_SVS_8_DN, Handler::Flow(ops::flow::FlowOp::Svs8Dn))
    } else if i == 189 {
        (opcodes::MASK_OUT_Y, opcodes::OP_SVS_8_AI, Handler::Flow(ops::flow::FlowOp::Svs8Ai))
    } else if i == 190 {
        (opcodes::MASK_EXACT, opcodes::OP_SVS_8_AL, Handler::Flow(ops::flow::FlowOp::Svs8Al))
    } else if i == 191 {
        (opcodes::MASK_EXACT, opcodes::OP_SVS_8_AW, Handler::Flow(ops::flow::FlowOp::Svs8Aw))
    } else if i == 192 {
        (opcodes::MASK_OUT_Y, opcodes::OP_SVS_8_DI, Handler::Flow(ops::flow::FlowOp::Svs8Di))
    } else if i == 193 {
        (opcodes::MASK_OUT_Y, opcodes::OP_SVS_8_IX, Handler::Flow(ops::flow::FlowOp::Svs8Ix))
    } else if i == 194 {
        (opcodes::MASK_OUT_Y, opcodes::OP_SVS_8_PD, Handler::Flow(ops::flow::FlowOp::Svs8Pd))
    } else {
        (opcodes::MASK_OUT_Y, opcodes::OP_SVS_8_PI, Handler::Flow(ops::flow::FlowOp::Svs8Pi))
    }
}

fn group_5_at(i: usize) -> (r: (u32, u32, Handler))
    requires
        i < group_size(5),
    ensures
        r == group_5(i as int),
{
    match i {
        0 => (opcodes::MASK_OUT_X_Y, opcodes::OP_ADDQ_16_AN, Handler::Basic(BasicOp::Addq16An)),
        1 => (opcodes::MASK_OUT_X_Y, opcodes::OP_ADDQ_32_AN, Handler::Basic(BasicOp::Addq32An)),
        2 => (opcodes::MASK_OUT_X_Y, opcodes::OP_SUBQ_16_AN, Handler::Basic(BasicOp::Subq16An)),
        3 => (opcodes::MASK_OUT_X_Y, opcodes::OP_SUBQ_32_AN, Handler::Basic(BasicOp::Subq32An)),
        4 => (opcodes::MASK_OUT_X_Y, opcodes::OP_ADDQ_8_DN, Handler::Basic(BasicOp::Addq8Dn)),
        5 => (opcodes::MASK_OUT_X_Y, opcodes::OP_ADDQ_8_AI, Handler::Basic(BasicOp::Addq8Ai)),
        6 => (opcodes::MASK_OUT_X_Y, opcodes::OP_ADDQ_8_PI, Handler::Basic(BasicOp::Addq8Pi)),
        7 => (opcodes::MASK_OUT_X_Y, opcodes::OP_ADDQ_8_PD, Handler::Basic(BasicOp::Addq8Pd)),
        8 => (opcodes::MASK_OUT_X_Y, opcodes::OP_ADDQ_8_DI, Handler::Basic(BasicOp::Addq8Di)),
        9 => (opcodes::MASK_OUT_X_Y, opcodes::OP_ADDQ_8_IX, Handler::Basic(BasicOp::Addq8Ix)),
        10 => (opcodes::MASK_OUT_X, opcodes::OP_ADDQ_8_AW, Handler::Basic(BasicOp::Addq8Aw)),
        11 => (opcodes::MASK_OUT_X, opcodes::OP_ADDQ_8_AL, Handler::Basic(BasicOp::Addq8Al)),
        12 => (opcodes::MASK_OUT_X_Y, opcodes::OP_ADDQ_16_DN, Handler::Basic(BasicOp::Addq16Dn)),
        13 => (opcodes::MASK_OUT_X_Y, opcodes::OP_ADDQ_16_AI, Handler::Basic(BasicOp::Addq16Ai)),
        14 => (opcodes::MASK_OUT_X_Y, opcodes::OP_ADDQ_16_PI, Handler::Basic(BasicOp::Addq16Pi)),
        15 => (opcodes::MASK_OUT_X_Y, opcodes::OP_ADDQ_16_PD, Handler::Basic(BasicOp::Addq16Pd)),
        16 => (opcodes::MASK_OUT_X_Y, opcodes::OP_ADDQ_16_DI, Handler::Basic(BasicOp::Addq16Di)),
        17 => (opcodes::MASK_OUT_X_Y, opcodes::OP_ADDQ_16_IX, Handler::Basic(BasicOp::Addq16Ix)),
        18 => (opcodes::MASK_OUT_X, opcodes::OP_ADDQ_16_AW, Handler::Basic(BasicOp::Addq16Aw)),
        19 => (opcodes::MASK_OUT_X, opcodes::OP_ADDQ_16_AL, Handler::Basic(BasicOp::Addq16Al)),
        20 => (opcodes::MASK_OUT_X_Y, opcodes::OP_ADDQ_32_DN, Handler::Basic(BasicOp::Addq32Dn)),
        21 => (opcodes::MASK_OUT_X_Y, opcodes::OP_ADDQ_32_AI, Handler::Basic(BasicOp::Addq32Ai)),
        22 => (opcodes::MASK_OUT_X_Y, opcodes::OP_ADDQ_32_PI, Handler::Basic(BasicOp::Addq32Pi)),
        23 => (opcodes::MASK_OUT_X_Y, opcodes::OP_ADDQ_32_PD, Handler::Basic(BasicOp::Addq32Pd)),
        24 => (opcodes::MASK_OUT_X_Y, opcodes::OP_ADDQ_32_DI, Handler::Basic(BasicOp::Addq32Di)),
        25 => (opcodes::MASK_OUT_X_Y, opcodes::OP_ADDQ_32_IX, Handler::Basic(BasicOp::Addq32Ix)),
        26 => (opcodes::MASK_OUT_X, opcodes::OP_ADDQ_32_AW, Handler::Basic(BasicOp::Addq32Aw)),
        27 => (opcodes::MASK_OUT_X, opcodes::OP_ADDQ_32_AL, Handler::Basic(BasicOp::Addq32Al)),
        28 => (opcodes::MASK_OUT_X_Y, opcodes::OP_SUBQ_8_DN, Handler::Basic(BasicOp::Subq8Dn)),
        29 => (opcodes::MASK_OUT_X_Y, opcodes::OP_SUBQ_8_AI, Handler::Basic(BasicOp::Subq8Ai)),
        30 => (opcodes::MASK_OUT_X_Y, opcodes::OP_SUBQ_8_PI, Handler::Basic(BasicOp::Subq8Pi)),
        31 => (opcodes::MASK_OUT_X_Y, opcodes::OP_SUBQ_8_PD, Handler::Basic(BasicOp::Subq8Pd)),
        32 => (opcodes::MASK_OUT_X_Y, opcodes::OP_SUBQ_8_DI, Handler::Basic(BasicOp::Subq8Di)),
        33 => (opcodes::MASK_OUT_X_Y, opcodes::OP_SUBQ_8_IX, Handler::Basic(BasicOp::Subq8Ix)),
        34 => (opcodes::MASK_OUT_X, opcodes::OP_SUBQ_8_AW, Handler::Basic(BasicOp::Subq8Aw)),
        35 => (opcodes::MASK_OUT_X, opcodes::OP_SUBQ_8_AL, Handler::Basic(BasicOp::Subq8Al)),
        36 => (opcodes::MASK_OUT_X_Y, opcodes::OP_SUBQ_16_DN, Handler::Basic(BasicOp::Subq16Dn)),
        37 => (opcodes::MASK_OUT_X_Y, opcodes::OP_SUBQ_16_AI, Handler::Basic(BasicOp::Subq16Ai)),
        38 => (opcodes::MASK_OUT_X_Y, opcodes::OP_SUBQ_16_PI, Handler::Basic(BasicOp::Subq16Pi)),
        39 => (opcodes::MASK_OUT_X_Y, opcodes::OP_SUBQ_16_PD, Handler::Basic(BasicOp::Subq16Pd)),
        40 => (opcodes::MASK_OUT_X_Y, opcodes::OP_SUBQ_16_DI, Handler::Basic(BasicOp::Subq16Di)),
        41 => (opcodes::MASK_OUT_X_Y, opcodes::OP_SUBQ_16_IX, Handler::Basic(BasicOp::Subq16Ix)),
        42 => (opcodes::MASK_OUT_X, opcodes::OP_SUBQ_16_AW, Handler::Basic(BasicOp::Subq16Aw)),
        43 => (opcodes::MASK_OUT_X, opcodes::OP_SUBQ_16_AL, Handler::Basic(BasicOp::Subq16Al)),
        44 => (opcodes::MASK_OUT_X_Y, opcodes::OP_SUBQ_32_DN, Handler::Basic(BasicOp::Subq32Dn)),
        45 => (opcodes::MASK_OUT_X_Y, opcodes::OP_SUBQ_32_AI, Handler::Basic(BasicOp::Subq32Ai)),
        46 => (opcodes::MASK_OUT_X_Y, opcodes::OP_SUBQ_32_PI, Handler::Basic(BasicOp::Subq32Pi)),
        47 => (opcodes::MASK_OUT_X_Y, opcodes::OP_SUBQ_32_PD, Handler::Basic(BasicOp::Subq32Pd)),
        48 => (opcodes::MASK_OUT_X_Y, opcodes::OP_SUBQ_32_DI, Handler::Basic(BasicOp::Subq32Di)),
        49 => (opcodes::MASK_OUT_X_Y, opcodes::OP_SUBQ_32_IX, Handler::Basic(BasicOp::Subq32Ix)),
        50 => (opcodes::MASK_OUT_X, opcodes::OP_SUBQ_32_AW, Handler::Basic(BasicOp::Subq32Aw)),
        51 => (opcodes::MASK_OUT_X, opcodes::OP_SUBQ_32_AL, Handler::Basic(BasicOp::Subq32Al)),
        52 => (opcodes::MASK_OUT_Y, opcodes::OP_DBT_16, Handler::Flow(ops::flow::FlowOp::Dbt16)),
        53 => (opcodes::MASK_OUT_Y, opcodes::OP_DBF_16, Handler::Flow(ops::flow::FlowOp::Dbf16)),
        54 => (opcodes::MASK_OUT_Y, opcodes::OP_DBHI_16, Handler::Flow(ops::flow::FlowOp::Dbhi16)),
        55 => (opcodes::MASK_OUT_Y, opcodes::OP_DBLS_16, Handler::Flow(ops::flow::FlowOp::Dbls16)),
        56 => (opcodes::MASK_OUT_Y, opcodes::OP_DBCC_16, Handler::Flow(ops::flow::FlowOp::Dbcc16)),
        57 => (opcodes::MASK_OUT_Y, opcodes::OP_DBCS_16, Handler::Flow(ops::flow::FlowOp::Dbcs16)),
        58 => (opcodes::MASK_OUT_Y, opcodes::OP_DBNE_16, Handler::Flow(ops::flow::FlowOp::Dbne16)),
        59 => (opcodes::MASK_OUT_Y, opcodes::OP_DBEQ_16, Handler::Flow(ops::flow::FlowOp::Dbeq16)),
        60 => (opcodes::MASK_OUT_Y, opcodes::OP_DBVC_16, Handler::Flow(ops::flow::FlowOp::Dbvc16)),
        61 => (opcodes::MASK_OUT_Y, opcodes::OP_DBVS_16, Handler::Flow(ops::flow::FlowOp::Dbvs16)),
        62 => (opcodes::MASK_OUT_Y, opcodes::OP_DBPL_16, Handler::Flow(ops::flow::FlowOp::Dbpl16)),
        63 => (opcodes::MASK_OUT_Y, opcodes::OP_DBMI_16, Handler::Flow(ops::flow::FlowOp::Dbmi16)),
        64 => (opcodes::MASK_OUT_Y, opcodes::OP_DBGE_16, Handler::Flow(ops::flow::FlowOp::Dbge16)),
        65 => (opcodes::MASK_OUT_Y, opcodes::OP_DBLT_16, Handler::Flow(ops::flow::FlowOp::Dblt16)),
        66 => (opcodes::MASK_OUT_Y, opcodes::OP_DBGT_16, Handler::Flow(ops::flow::FlowOp::Dbgt16)),
        67 => (opcodes::MASK_OUT_Y, opcodes::OP_DBLE_16, Handler::Flow(ops::flow::FlowOp::Dble16)),
        68 => (opcodes::MASK_OUT_Y, opcodes::OP_SCC_8_DN, Handler::Flow(ops::flow::FlowOp::Scc8Dn)),
        69 => (opcodes::MASK_OUT_Y, opcodes::OP_SCC_8_AI, Handler::Flow(ops::flow::FlowOp::Scc8Ai)),
        70 => (opcodes::MASK_EXACT, opcodes::OP_SCC_8_AL, Handler::Flow(ops::flow::FlowOp::Scc8Al)),
        71 => (opcodes::MASK_EXACT, opcodes::OP_SCC_8_AW, Handler::Flow(ops::flow::FlowOp::Scc8Aw)),
        72 => (opcodes::MASK_OUT_Y, opcodes::OP_SCC_8_DI, Handler::Flow(ops::flow::FlowOp::Scc8Di)),
        73 => (opcodes::MASK_OUT_Y, opcodes::OP_SCC_8_IX, Handler::Flow(ops::flow::FlowOp::Scc8Ix)),
        74 => (opcodes::MASK_OUT_Y, opcodes::OP_SCC_8_PD, Handler::Flow(ops::flow::FlowOp::Scc8Pd)),
        75 => (opcodes::MASK_OUT_Y, opcodes::OP_SCC_8_PI, Handler::Flow(ops::flow::FlowOp::Scc8Pi)),
        76 => (opcodes::MASK_OUT_Y, opcodes::OP_SCS_8_DN, Handler::Flow(ops::flow::FlowOp::Scs8Dn)),
        77 => (opcodes::MASK_OUT_Y, opcodes::OP_SCS_8_AI, Handler::Flow(ops::flow::FlowOp::Scs8Ai)),
        78 => (opcodes::MASK_EXACT, opcodes::OP_SCS_8_AL, Handler::Flow(ops::flow::FlowOp::Scs8Al)),
        79 => (opcodes::MASK_EXACT, opcodes::OP_SCS_8_AW, Handler::Flow(ops::flow::FlowOp::Scs8Aw)),
        80 => (opcodes::MASK_OUT_Y, opcodes::OP_SCS_8_DI, Handler::Flow(ops::flow::FlowOp::Scs8Di)),
        81 => (opcodes::MASK_OUT_Y, opcodes::OP_SCS_8_IX, Handler::Flow(ops::flow::FlowOp::Scs8Ix)),
        82 => (opcodes::MASK_OUT_Y, opcodes::OP_SCS_8_PD, Handler::Flow(ops::flow::FlowOp::Scs8Pd)),
        83 => (opcodes::MASK_OUT_Y, opcodes::OP_SCS_8_PI, Handler::Flow(ops::flow::FlowOp::Scs8Pi)),
        84 => (opcodes::MASK_OUT_Y, opcodes::OP_SEQ_8_DN, Handler::Flow(ops::flow::FlowOp::Seq8Dn)),
        85 => (opcodes::MASK_OUT_Y, opcodes::OP_SEQ_8_AI, Handler::Flow(ops::flow::FlowOp::Seq8Ai)),
        86 => (opcodes::MASK_EXACT, opcodes::OP_SEQ_8_AL, Handler::Flow(ops::flow::FlowOp::Seq8Al)),
        87 => (opcodes::MASK_EXACT, opcodes::OP_SEQ_8_AW, Handler::Flow(ops::flow::FlowOp::Seq8Aw)),
        88 => (opcodes::MASK_OUT_Y, opcodes::OP_SEQ_8_DI, Handler::Flow(ops::flow::FlowOp::Seq8Di)),
        89 => (opcodes::MASK_OUT_Y, opcodes::OP_SEQ_8_IX, Handler::Flow(ops::flow::FlowOp::Seq8Ix)),
        90 => (opcodes::MASK_OUT_Y, opcodes::OP_SEQ_8_PD, Handler::Flow(ops::flow::FlowOp::Seq8Pd)),
        91 => (opcodes::MASK_OUT_Y, opcodes::OP_SEQ_8_PI, Handler::Flow(ops::flow::FlowOp::Seq8Pi)),
        92 => (opcodes::MASK_OUT_Y, opcodes::OP_SF_8_DN, Handler::Flow(ops::flow::FlowOp::Sf8Dn)),
        93 => (opcodes::MASK_OUT_Y, opcodes::OP_SF_8_AI, Handler::Flow(ops::flow::FlowOp::Sf8Ai)),
        94 => (opcodes::MASK_EXACT, opcodes::OP_SF_8_AL, Handler::Flow(ops::flow::FlowOp::Sf8Al)),
        95 => (opcodes::MASK_EXACT, opcodes::OP_SF_8_AW, Handler::Flow(ops::flow::FlowOp::Sf8Aw)),
        96 => (opcodes::MASK_OUT_Y, opcodes::OP_SF_8_DI, Handler::Flow(ops::flow::FlowOp::Sf8Di)),
        97 => (opcodes::MASK_OUT_Y, opcodes::OP_SF_8_IX, Handler::Flow(ops::flow::FlowOp::Sf8Ix)),
        98 => (opcodes::MASK_OUT_Y, opcodes::OP_SF_8_PD, Handler::Flow(ops::flow::FlowOp::Sf8Pd)),
        99 => (opcodes::MASK_OUT_Y, opcodes::OP_SF_8_PI, Handler::Flow(ops::flow::FlowOp::Sf8Pi)),
        100 => (opcodes::MASK_OUT_Y, opcodes::OP_SGE_8_DN, Handler::Flow(ops::flow::FlowOp::Sge8Dn)),
        101 => (opcodes::MASK_OUT_Y, opcodes::OP_SGE_8_AI, Handler::Flow(ops::flow::FlowOp::Sge8Ai)),
        102 => (opcodes::MASK_EXACT, opcodes::OP_SGE_8_AL, Handler::Flow(ops::flow::FlowOp::Sge8Al)),
        103 => (opcodes::MASK_EXACT, opcodes::OP_SGE_8_AW, Handler::Flow(ops::flow::FlowOp::Sge8Aw)),
        104 => (opcodes::MASK_OUT_Y, opcodes::OP_SGE_8_DI, Handler::Flow(ops::flow::FlowOp::Sge8Di)),
        105 => (opcodes::MASK_OUT_Y, opcodes::OP_SGE_8_IX, Handler::Flow(ops::flow::FlowOp::Sge8Ix)),
        106 => (opcodes::MASK_OUT_Y, opcodes::OP_SGE_8_PD, Handler::Flow(ops::flow::FlowOp::Sge8Pd)),
        107 => (opcodes::MASK_OUT_Y, opcodes::OP_SGE_8_PI, Handler::Flow(ops::flow::FlowOp::Sge8Pi)),
        108 => (opcodes::MASK_OUT_Y, opcodes::OP_SGT_8_DN, Handler::Flow(ops::flow::FlowOp::Sgt8Dn)),
        109 => (opcodes::MASK_OUT_Y, opcodes::OP_SGT_8_AI, Handler::Flow(ops::flow::FlowOp::Sgt8Ai)),
        110 => (opcodes::MASK_EXACT, opcodes::OP_SGT_8_AL, Handler::Flow(ops::flow::FlowOp::Sgt8Al)),
        111 => (opcodes::MASK_EXACT, opcodes::OP_SGT_8_AW, Handler::Flow(ops::flow::FlowOp::Sgt8Aw)),
        112 => (opcodes::MASK_OUT_Y, opcodes::OP_SGT_8_DI, Handler::Flow(ops::flow::FlowOp::Sgt8Di)),
        113 => (opcodes::MASK_OUT_Y, opcodes::OP_SGT_8_IX, Handler::Flow(ops::flow::FlowOp::Sgt8Ix)),
        114 => (opcodes::MASK_OUT_Y, opcodes::OP_SGT_8_PD, Handler::Flow(ops::flow::FlowOp::Sgt8Pd)),
        115 => (opcodes::MASK_OUT_Y, opcodes::OP_SGT_8_PI, Handler::Flow(ops::flow::FlowOp::Sgt8Pi)),
        116 => (opcodes::MASK_OUT_Y, opcodes::OP_SHI_8_DN, Handler::Flow(ops::flow::FlowOp::Shi8Dn)),
        117 => (opcodes::MASK_OUT_Y, opcodes::OP_SHI_8_AI, Handler::Flow(ops::flow::FlowOp::Shi8Ai)),
        118 => (opcodes::MASK_EXACT, opcodes::OP_SHI_8_AL, Handler::Flow(ops::flow::FlowOp::Shi8Al)),
        119 => (opcodes::MASK_EXACT, opcodes::OP_SHI_8_AW, Handler::Flow(ops::flow::FlowOp::Shi8Aw)),
        120 => (opcodes::MASK_OUT_Y, opcodes::OP_SHI_8_DI, Handler::Flow(ops::flow::FlowOp::Shi8Di)),
        121 => (opcodes::MASK_OUT_Y, opcodes::OP_SHI_8_IX, Handler::Flow(ops::flow::FlowOp::Shi8Ix)),
        122 => (opcodes::MASK_OUT_Y, opcodes::OP_SHI_8_PD, Handler::Flow(ops::flow::FlowOp::Shi8Pd)),
        123 => (opcodes::MASK_OUT_Y, opcodes::OP_SHI_8_PI, Handler::Flow(ops::flow::FlowOp::Shi8Pi)),
        124 => (opcodes::MASK_OUT_Y, opcodes::OP_SLE_8_DN, Handler::Flow(ops::flow::FlowOp::Sle8Dn)),
        125 => (opcodes::MASK_OUT_Y, opcodes::OP_SLE_8_AI, Handler::Flow(ops::flow::FlowOp::Sle8Ai)),
        126 => (opcodes::MASK_EXACT, opcodes::OP_SLE_8_AL, Handler::Flow(ops::flow::FlowOp::Sle8Al)),
        127 => (opcodes::MASK_EXACT, opcodes::OP_SLE_8_AW, Handler::Flow(ops::flow::FlowOp::Sle8Aw)),
        128 => (opcodes::MASK_OUT_Y, opcodes::OP_SLE_8_DI, Handler::Flow(ops::flow::FlowOp::Sle8Di)),
        129 => (opcodes::MASK_OUT_Y, opcodes::OP_SLE_8_IX, Handler::Flow(ops::flow::FlowOp::Sle8Ix)),
        130 => (opcodes::MASK_OUT_Y, opcodes::OP_SLE_8_PD, Handler::Flow(ops::flow::FlowOp::Sle8Pd)),
        131 => (opcodes::MASK_OUT_Y, opcodes::OP_SLE_8_PI, Handler::Flow(ops::flow::FlowOp::Sle8Pi)),
        132 => (opcodes::MASK_OUT_Y, opcodes::OP_SLS_8_DN, Handler::Flow(ops::flow::FlowOp::Sls8Dn)),
        133 => (opcodes::MASK_OUT_Y, opcodes::OP_SLS_8_AI, Handler::Flow(ops::flow::FlowOp::Sls8Ai)),
        134 => (opcodes::MASK_EXACT, opcodes::OP_SLS_8_AL, Handler::Flow(ops::flow::FlowOp::Sls8Al)),
        135 => (opcodes::MASK_EXACT, opcodes::OP_SLS_8_AW, Handler::Flow(ops::flow::FlowOp::Sls8Aw)),
        136 => (opcodes::MASK_OUT_Y, opcodes::OP_SLS_8_DI, Handler::Flow(ops::flow::FlowOp::Sls8Di)),
        137 => (opcodes::MASK_OUT_Y, opcodes::OP_SLS_8_IX, Handler::Flow(ops::flow::FlowOp::Sls8Ix)),
        138 => (opcodes::MASK_OUT_Y, opcodes::OP_SLS_8_PD, Handler::Flow(ops::flow::FlowOp::Sls8Pd)),
        139 => (opcodes::MASK_OUT_Y, opcodes::OP_SLS_8_PI, Handler::Flow(ops::flow::FlowOp::Sls8Pi)),
        140 => (opcodes::MASK_OUT_Y, opcodes::OP_SLT_8_DN, Handler::Flow(ops::flow::FlowOp::Slt8Dn)),
        141 => (opcodes::MASK_OUT_Y, opcodes::OP_SLT_8_AI, Handler::Flow(ops::flow::FlowOp::Slt8Ai)),
        142 => (opcodes::MASK_EXACT, opcodes::OP_SLT_8_AL, Handler::Flow(ops::flow::FlowOp::Slt8Al)),
        143 => (opcodes::MASK_EXACT, opcodes::OP_SLT_8_AW, Handler::Flow(ops::flow::FlowOp::Slt8Aw)),
        144 => (opcodes::MASK_OUT_Y, opcodes::OP_SLT_8_DI, Handler::Flow(ops::flow::FlowOp::Slt8Di)),
        145 => (opcodes::MASK_OUT_Y, opcodes::OP_SLT_8_IX, Handler::Flow(ops::flow::FlowOp::Slt8Ix)),
        146 => (opcodes::MASK_OUT_Y, opcodes::OP_SLT_8_PD, Handler::Flow(ops::flow::FlowOp::Slt8Pd)),
        147 => (opcodes::MASK_OUT_Y, opcodes::OP_SLT_8_PI, Handler::Flow(ops::flow::FlowOp::Slt8Pi)),
        148 => (opcodes::MASK_OUT_Y, opcodes::OP_SMI_8_DN, Handler::Flow(ops::flow::FlowOp::Smi8Dn)),
        149 => (opcodes::MASK_OUT_Y, opcodes::OP_SMI_8_AI, Handler::Flow(ops::flow::FlowOp::Smi8Ai)),
        150 => (opcodes::MASK_EXACT, opcodes::OP_SMI_8_AL, Handler::Flow(ops::flow::FlowOp::Smi8Al)),
        151 => (opcodes::MASK_EXACT, opcodes::OP_SMI_8_AW, Handler::Flow(ops::flow::FlowOp::Smi8Aw)),
        152 => (opcodes::MASK_OUT_Y, opcodes::OP_SMI_8_DI, Handler::Flow(ops::flow::FlowOp::Smi8Di)),
        153 => (opcodes::MASK_OUT_Y, opcodes::OP_SMI_8_IX, Handler::Flow(ops::flow::FlowOp::Smi8Ix)),
        154 => (opcodes::MASK_OUT_Y, opcodes::OP_SMI_8_PD, Handler::Flow(ops::flow::FlowOp::Smi8Pd)),
        155 => (opcodes::MASK_OUT_Y, opcodes::OP_SMI_8_PI, Handler::Flow(ops::flow::FlowOp::Smi8Pi)),
        156 => (opcodes::MASK_OUT_Y, opcodes::OP_SNE_8_DN, Handler::Flow(ops::flow::FlowOp::Sne8Dn)),
        157 => (opcodes::MASK_OUT_Y, opcodes::OP_SNE_8_AI, Handler::Flow(ops::flow::FlowOp::Sne8Ai)),
        158 => (opcodes::MASK_EXACT, opcodes::OP_SNE_8_AL, Handler::Flow(ops::flow::FlowOp::Sne8Al)),
        159 => (opcodes::MASK_EXACT, opcodes::OP_SNE_8_AW, Handler::Flow(ops::flow::FlowOp::Sne8Aw)),
        160 => (opcodes::MASK_OUT_Y, opcodes::OP_SNE_8_DI, Handler::Flow(ops::flow::FlowOp::Sne8Di)),
        161 => (opcodes::MASK_OUT_Y, opcodes::OP_SNE_8_IX, Handler::Flow(ops::flow::FlowOp::Sne8Ix)),
        162 => (opcodes::MASK_OUT_Y, opcodes::OP_SNE_8_PD, Handler::Flow(ops::flow::FlowOp::Sne8Pd)),
        163 => (opcodes::MASK_OUT_Y, opcodes::OP_SNE_8_PI, Handler::Flow(ops::flow::FlowOp::Sne8Pi)),
        164 => (opcodes::MASK_OUT_Y, opcodes::OP_SPL_8_DN, Handler::Flow(ops::flow::FlowOp::Spl8Dn)),
        165 => (opcodes::MASK_OUT_Y, opcodes::OP_SPL_8_AI, Handler::Flow(ops::flow::FlowOp::Spl8Ai)),
        166 => (opcodes::MASK_EXACT, opcodes::OP_SPL_8_AL, Handler::Flow(ops::flow::FlowOp::Spl8Al)),
        167 => (opcodes::MASK_EXACT, opcodes::OP_SPL_8_AW, Handler::Flow(ops::flow::FlowOp::Spl8Aw)),
        168 => (opcodes::MASK_OUT_Y, opcodes::OP_SPL_8_DI, Handler::Flow(ops::flow::FlowOp::Spl8Di)),
        169 => (opcodes::MASK_OUT_Y, opcodes::OP_SPL_8_IX, Handler::Flow(ops::flow::FlowOp::Spl8Ix)),
        170 => (opcodes::MASK_OUT_Y, opcodes::OP_SPL_8_PD, Handler::Flow(ops::flow::FlowOp::Spl8Pd)),
        171 => (opcodes::MASK_OUT_Y, opcodes::OP_SPL_8_PI, Handler::Flow(ops::flow::FlowOp::Spl8Pi)),
        172 => (opcodes::MASK_OUT_Y, opcodes::OP_ST_8_DN, Handler::Flow(ops::flow::FlowOp::St8Dn)),
        173 => (opcodes::MASK_OUT_Y, opcodes::OP_ST_8_AI, Handler::Flow(ops::flow::FlowOp::St8Ai)),
        174 => (opcodes::MASK_EXACT, opcodes::OP_ST_8_AL, Handler::Flow(ops::flow::FlowOp::St8Al)),
        175 => (opcodes::MASK_EXACT, opcodes::OP_ST_8_AW, Handler::Flow(ops::flow::FlowOp::St8Aw)),
        176 => (opcodes::MASK_OUT_Y, opcodes::OP_ST_8_DI, Handler::Flow(ops::flow::FlowOp::St8Di)),
        177 => (opcodes::MASK_OUT_Y, opcodes::OP_ST_8_IX, Handler::Flow(ops::flow::FlowOp::St8Ix)),
        178 => (opcodes::MASK_OUT_Y, opcodes::OP_ST_8_PD, Handler::Flow(ops::flow::FlowOp::St8Pd)),
        179 => (opcodes::MASK_OUT_Y, opcodes::OP_ST_8_PI, Handler::Flow(ops::flow::FlowOp::St8Pi)),
        180 => (opcodes::MASK_OUT_Y, opcodes::OP_SVC_8_DN, Handler::Flow(ops::flow::FlowOp::Svc8Dn)),
        181 => (opcodes::MASK_OUT_Y, opcodes::OP_SVC_8_AI, Handler::Flow(ops::flow::FlowOp::Svc8Ai)),
        182 => (opcodes::MASK_EXACT, opcodes::OP_SVC_8_AL, Handler::Flow(ops::flow::FlowOp::Svc8Al)),
        183 => (opcodes::MASK_EXACT, opcodes::OP_SVC_8_AW, Handler::Flow(ops::flow::FlowOp::Svc8Aw)),
        184 => (opcodes::MASK_OUT_Y, opcodes::OP_SVC_8_DI, Handler::Flow(ops::flow::FlowOp::Svc8Di)),
        185 => (opcodes::MASK_OUT_Y, opcodes::OP_SVC_8_IX, Handler::Flow(ops::flow::FlowOp::Svc8Ix)),
        186 => (opcodes::MASK_OUT_Y, opcodes::OP_SVC_8_PD, Handler::Flow(ops::flow::FlowOp::Svc8Pd)),
        187 => (opcodes::MASK_OUT_Y, opcodes::OP_SVC_8_PI, Handler::Flow(ops::flow::FlowOp::Svc8Pi)),
        188 => (opcodes::MASK_OUT_Y, opcodes::OP_SVS_8_DN, Handler::Flow(ops::flow::FlowOp::Svs8Dn)),
        189 => (opcodes::MASK_OUT_Y, opcodes::OP_SVS_8_AI, Handler::Flow(ops::flow::FlowOp::Svs8Ai)),
        190 => (opcodes::MASK_EXACT, opcodes::OP_SVS_8_AL, Handler::Flow(ops::flow::FlowOp::Svs8Al)),
        191 => (opcodes::MASK_EXACT, opcodes::OP_SVS_8_AW, Handler::Flow(ops::flow::FlowOp::Svs8Aw)),
        192 => (opcodes::MASK_OUT_Y, opcodes::OP_SVS_8_DI, Handler::Flow(ops::flow::FlowOp::Svs8Di)),
        193 => (opcodes::MASK_OUT_Y, opcodes::OP_SVS_8_IX, Handler::Flow(ops::flow::FlowOp::Svs8Ix)),
        194 => (opcodes::MASK_OUT_Y, opcodes::OP_SVS_8_PD, Handler::Flow(ops::flow::FlowOp::Svs8Pd)),
        _ => (opcodes::MASK_OUT_Y, opcodes::OP_SVS_8_PI, Handler::Flow(ops::flow::FlowOp::Svs8Pi)),
    }
}

/// The instruction patterns of group 6, in the order they are tried.
pub open spec fn group_6(i: int) -> (u32, u32, Handler) {
    if i == 0 {
        (opcodes::MASK_EXACT, opcodes::OP_BRA_16, Handler::Basic(BasicOp::Bra16))
    } else if i == 1 {
        (opcodes::MASK_EXACT, opcodes::OP_BSR_16, Handler::Basic(BasicOp::Bsr16))
    } else if i == 2 {
        (opcodes::MASK_LOBYTE, opcodes::OP_BRA_8, Handler::Basic(BasicOp::Bra8))
    } else if i == 3 {
        (opcodes::MASK_LOBYTE, opcodes::OP_BSR_8, Handler::Basic(BasicOp::Bsr8))
    } else if i == 4 {
        (opcodes::MASK_EXACT, opcodes::OP_BHI_16, Handler::Flow(ops::flow::FlowOp::Bhi16))
    } else if i == 5 {
        (opcodes::MASK_EXACT, opcodes::OP_BLS_16, Handler::Flow(ops::flow::FlowOp::Bls16))
    } else if i == 6 {
        (opcodes::MASK_EXACT, opcodes::OP_BCC_16, Handler::Flow(ops::flow::FlowOp::Bcc16))
    } else if i == 7 {
        (opcodes::MASK_EXACT, opcodes::OP_BCS_16, Handler::Flow(ops::flow::FlowOp::Bcs16))
    } else if i == 8 {
        (opcodes::MASK_EXACT, opcodes::OP_BNE_16, Handler::Flow(ops::flow::FlowOp::Bne16))
    } else if i == 9 {
        (opcodes::MASK_EXACT, opcodes::OP_BEQ_16, Handler::Flow(ops::flow::FlowOp::Beq16))
    } else if i == 10 {
        (opcodes::MASK_EXACT, opcodes::OP_BVC_16, Handler::Flow(ops::flow::FlowOp::Bvc16))
    } else if i == 11 {
        (opcodes::MASK_EXACT, opcodes::OP_BVS_16, Handler::Flow(ops::flow::FlowOp::Bvs16))
    } else if i == 12 {
        (opcodes::MASK_EXACT, opcodes::OP_BPL_16, Handler::Flow(ops::flow::FlowOp::Bpl16))
    } else if i == 13 {
        (opcodes::MASK_EXACT, opcodes::OP_BMI_16, Handler::Flow(ops::flow::FlowOp::Bmi16))
    } else if i == 14 {
        (opcodes::MASK_EXACT, opcodes::OP_BGE_16, Handler::Flow(ops::flow::FlowOp::Bge16))
    } else if i == 15 {
        (opcodes::MASK_EXACT, opcodes::OP_BLT_16, Handler::Flow(ops::flow::FlowOp::Blt16))
    } else if i == 16 {
        (opcodes::MASK_EXACT, opcodes::OP_BGT_16, Handler::Flow(ops::flow::FlowOp::Bgt16))
    } else if i == 17 {
        (opcodes::MASK_EXACT, opcodes::OP_BLE_16, Handler::Flow(ops::flow::FlowOp::Ble16))
    } else if i == 18 {
        (opcodes::MASK_LOBYTE, opcodes::OP_BHI_8, Handler::Flow(ops::flow::FlowOp::Bhi8))
    } else if i == 19 {
        (opcodes::MASK_LOBYTE, opcodes::OP_BLS_8, Handler::Flow(ops::flow::FlowOp::Bls8))
    } else if i == 20 {
        (opcodes::MASK_LOBYTE, opcodes::OP_BCC_8, Handler::Flow(ops::flow::FlowOp::Bcc8))
    } else if i == 21 {
        (opcodes::MASK_LOBYTE, opcodes::OP_BCS_8, Handler::Flow(ops::flow::FlowOp::Bcs8))
    } else if i == 22 {
        (opcodes::MASK_LOBYTE, opcodes::OP_BNE_8, Handler::Flow(ops::flow::FlowOp::Bne8))
    } else if i == 23 {
        (opcodes::MASK_LOBYTE, opcodes::OP_BEQ_8, Handler::Flow(ops::flow::FlowOp::Beq8))
    } else if i == 24 {
        (opcodes::MASK_LOBYTE, opcodes::OP_BVC_8, Handler::Flow(ops::flow::FlowOp::Bvc8))
    } else if i == 25 {
        (opcodes::MASK_LOBYTE, opcodes::OP_BVS_8, Handler::Flow(ops::flow::FlowOp::Bvs8))
    } else if i == 26 {
        (opcodes::MASK_LOBYTE, opcodes::OP_BPL_8, Handler::Flow(ops::flow::FlowOp::Bpl8))
    } else if i == 27 {
        (opcodes::MASK_LOBYTE, opcodes::OP_BMI_8, Handler::Flow(ops::flow::FlowOp::Bmi8))
    } else if i == 28 {
        (opcodes::MASK_LOBYTE, opcodes::OP_BGE_8, Handler::Flow(ops::flow::FlowOp::Bge8))
    } else if i == 29 {
        (opcodes::MASK_LOBYTE, opcodes::OP_BLT_8, Handler::Flow(ops::flow::FlowOp::Blt8))
    } else if i == 30 {
        (opcodes::MASK_LOBYTE, opcodes::OP_BGT_8, Handler::Flow(ops::flow::FlowOp::Bgt8))
    } else {
        (opcodes::MASK_LOBYTE, opcodes::OP_BLE_8, Handler::Flow(ops::flow::FlowOp::Ble8))
    }
}

fn group_6_at(i: usize) -> (r: (u32, u32, Handler))
    requires
        i < group_size(6),
    ensures
        r == group_6(i as int),
{
    match i {
        0 => (opcodes::MASK_EXACT, opcodes::OP_BRA_16, Handler::Basic(BasicOp::Bra16)),
        1 => (opcodes::MASK_EXACT, opcodes::OP_BSR_16, Handler::Basic(BasicOp::Bsr16)),
        2 => (opcodes::MASK_LOBYTE, opcodes::OP_BRA_8, Handler::Basic(BasicOp::Bra8)),
        3 => (opcodes::MASK_LOBYTE, opcodes::OP_BSR_8, Handler::Basic(BasicOp::Bsr8)),
        4 => (opcodes::MASK_EXACT, opcodes::OP_BHI_16, Handler::Flow(ops::flow::FlowOp::Bhi16)),
        5 => (opcodes::MASK_EXACT, opcodes::OP_BLS_16, Handler::Flow(ops::flow::FlowOp::Bls16)),
        6 => (opcodes::MASK_EXACT, opcodes::OP_BCC_16, Handler::Flow(ops::flow::FlowOp::Bcc16)),
        7 => (opcodes::MASK_EXACT, opcodes::OP_BCS_16, Handler::Flow(ops::flow::FlowOp::Bcs16)),
        8 => (opcodes::MASK_EXACT, opcodes::OP_BNE_16, Handler::Flow(ops::flow::FlowOp::Bne16)),
        9 => (opcodes::MASK_EXACT, opcodes::OP_BEQ_16, Handler::Flow(ops::flow::FlowOp::Beq16)),
        10 => (opcodes::MASK_EXACT, opcodes::OP_BVC_16, Handler::Flow(ops::flow::FlowOp::Bvc16)),
        11 => (opcodes::MASK_EXACT, opcodes::OP_BVS_16, Handler::Flow(ops::flow::FlowOp::Bvs16)),
        12 => (opcodes::MASK_EXACT, opcodes::OP_BPL_16, Handler::Flow(ops::flow::FlowOp::Bpl16)),
        13 => (opcodes::MASK_EXACT, opcodes::OP_BMI_16, Handler::Flow(ops::flow::FlowOp::Bmi16)),
        14 => (opcodes::MASK_EXACT, opcodes::OP_BGE_16, Handler::Flow(ops::flow::FlowOp::Bge16)),
        15 => (opcodes::MASK_EXACT, opcodes::OP_BLT_16, Handler::Flow(ops::flow::FlowOp::Blt16)),
        16 => (opcodes::MASK_EXACT, opcodes::OP_BGT_16, Handler::Flow(ops::flow::FlowOp::Bgt16)),
        17 => (opcodes::MASK_EXACT, opcodes::OP_BLE_16, Handler::Flow(ops::flow::FlowOp::Ble16)),
        18 => (opcodes::MASK_LOBYTE, opcodes::OP_BHI_8, Handler::Flow(ops::flow::FlowOp::Bhi8)),
        19 => (opcodes::MASK_LOBYTE, opcodes::OP_BLS_8, Handler::Flow(ops::flow::FlowOp::Bls8)),
        20 => (opcodes::MASK_LOBYTE, opcodes::OP_BCC_8, Handler::Flow(ops::flow::FlowOp::Bcc8)),
        21 => (opcodes::MASK_LOBYTE, opcodes::OP_BCS_8, Handler::Flow(ops::flow::FlowOp::Bcs8)),
        22 => (opcodes::MASK_LOBYTE, opcodes::OP_BNE_8, Handler::Flow(ops::flow::FlowOp::Bne8)),
        23 => (opcodes::MASK_LOBYTE, opcodes::OP_BEQ_8, Handler::Flow(ops::flow::FlowOp::Beq8)),
        24 => (opcodes::MASK_LOBYTE, opcodes::OP_BVC_8, Handler::Flow(ops::flow::FlowOp::Bvc8)),
        25 => (opcodes::MASK_LOBYTE, opcodes::OP_BVS_8, Handler::Flow(ops::flow::FlowOp::Bvs8)),
        26 => (opcodes::MASK_LOBYTE, opcodes::OP_BPL_8, Handler::Flow(ops::flow::FlowOp::Bpl8)),
        27 => (opcodes::MASK_LOBYTE, opcodes::OP_BMI_8, Handler::Flow(ops::flow::FlowOp::Bmi8)),
        28 => (opcodes::MASK_LOBYTE, opcodes::OP_BGE_8, Handler::Flow(ops::flow::FlowOp::Bge8)),
        29 => (opcodes::MASK_LOBYTE, opcodes::OP_BLT_8, Handler::Flow(ops::flow::FlowOp::Blt8)),
        30 => (opcodes::MASK_LOBYTE, opcodes::OP_BGT_8, Handler::Flow(ops::flow::FlowOp::Bgt8)),
        _ => (opcodes::MASK_LOBYTE, opcodes::OP_BLE_8, Handler::Flow(ops::flow::FlowOp::Ble8)),
    }
}

/// The instruction patterns of group 7, in the order they are tried.
pub open spec fn group_7(i: int) -> (u32, u32, Handler) {
    (opcodes::MASK_LOBYTX, opcodes::OP_MOVEQ_32, Handler::Basic(BasicOp::Moveq32))
}

fn group_7_at(i: usize) -> (r: (u32, u32, Handler))
    requires
        i < group_size(7),
    ensures
        r == group_7(i as int),
{
    (opcodes::MASK_LOBYTX, opcodes::OP_MOVEQ_32, Handler::Basic(BasicOp::Moveq32))
}

/// The instruction patterns of group 8, in the order they are tried.
pub open spec fn group_8(i: int) -> (u32, u32, Handler) {
    if i == 0 {
        (opcodes::MASK_OUT_X_Y, opcodes::OP_OR_8_ER_DN, Handler::Basic(BasicOp::Or8ErDn))
    } else if i == 1 {
        (opcodes::MASK_OUT_X_Y, opcodes::OP_OR_8_ER_AI, Handler::Basic(BasicOp::Or8ErAi))
    } else if i == 2 {
        (opcodes::MASK_OUT_X_Y, opcodes::OP_OR_8_ER_PI, Handler::Basic(BasicOp::Or8ErPi))
    } else if i == 3 {
        (opcodes::MASK_OUT_X_Y, opcodes::OP_OR_8_ER_PD, Handler::Basic(BasicOp::Or8ErPd))
    } else if i == 4 {
        (opcodes::MASK_OUT_X_Y, opcodes::OP_OR_8_ER_DI, Handler::Basic(BasicOp::Or8ErDi))
    } else if i == 5 {
        (opcodes::MASK_OUT_X_Y, opcodes::OP_OR_8_ER_IX, Handler::Basic(BasicOp::Or8ErIx))
    } else if i == 6 {
        (opcodes::MASK_OUT_X, opcodes::OP_OR_8_ER_AW, Handler::Basic(BasicOp::Or8ErAw))
    } else if i == 7 {
        (opcodes::MASK_OUT_X, opcodes::OP_OR_8_ER_AL, Handler::Basic(BasicOp::Or8ErAl))
    } else if i == 8 {
        (opcodes::MASK_OUT_X, opcodes::OP_OR_8_ER_PCDI, Handler::Basic(BasicOp::Or8ErPcdi))
    } else if i == 9 {
        (opcodes::MASK_OUT_X, opcodes::OP_OR_8_ER_PCIX, Handler::Basic(BasicOp::Or8ErPcix))
    } else if i == 10 {
        (opcodes::MASK_OUT_X, opcodes::OP_OR_8_ER_IMM, Handler::Basic(BasicOp::Or8ErImm))
    } else if i == 11 {
        (opcodes::MASK_OUT_X_Y, opcodes::OP_OR_8_RE_AI, Handler::Basic(BasicOp::Or8ReAi))
    } else if i == 12 {
        (opcodes::MASK_OUT_X_Y, opcodes::OP_OR_8_RE_PI, Handler::Basic(BasicOp::Or8RePi))
    } else if i == 13 {
        (opcodes::MASK_OUT_X_Y, opcodes::OP_OR_8_RE_PD, Handler::Basic(BasicOp::Or8RePd))
    } else if i == 14 {
        (opcodes::MASK_OUT_X_Y, opcodes::OP_OR_8_RE_DI, Handler::Basic(BasicOp::Or8ReDi))
    } else if i == 15 {
        (opcodes::MASK_OUT_X_Y, opcodes::OP_OR_8_RE_IX, Handler::Basic(BasicOp::Or8ReIx))
    } else if i == 16 {
        (opcodes::MASK_OUT_X, opcodes::OP_OR_8_RE_AW, Handler::Basic(BasicOp::Or8ReAw))
    } else if i == 17 {
        (opcodes::MASK_OUT_X, opcodes::OP_OR_8_RE_AL, Handler::Basic(BasicOp::Or8ReAl))
    } else if i == 18 {
        (opcodes::MASK_OUT_X_Y, opcodes::OP_OR_16_ER_DN, Handler::Basic(BasicOp::Or16ErDn))
    } else if i == 19 {
        (opcodes::MASK_OUT_X_Y, opcodes::OP_OR_16_ER_AI, Handler::Basic(BasicOp::Or16ErAi))
    } else if i == 20 {
        (opcodes::MASK_OUT_X_Y, opcodes::OP_OR_16_ER_PI, Handler::Basic(BasicOp::Or16ErPi))
    } else if i == 21 {
        (opcodes::MASK_OUT_X_Y, opcodes::OP_OR_16_ER_PD, Handler::Basic(BasicOp::Or16ErPd))
    } else if i == 22 {
        (opcodes::MASK_OUT_X_Y, opcodes::OP_OR_16_ER_DI, Handler::Basic(BasicOp::Or16ErDi))
    } else if i == 23 {
        (opcodes::MASK_OUT_X_Y, opcodes::OP_OR_16_ER_IX, Handler::Basic(BasicOp::Or16ErIx))
    } else if i == 24 {
        (opcodes::MASK_OUT_X, opcodes::OP_OR_16_ER_AW, Handler::Basic(BasicOp::Or16ErAw))
    } else if i == 25 {
        (opcodes::MASK_OUT_X, opcodes::OP_OR_16_ER_AL, Handler::Basic(BasicOp::Or16ErAl))
    } else if i == 26 {
        (opcodes::MASK_OUT_X, opcodes::OP_OR_16_ER_PCDI, Handler::Basic(BasicOp::Or16ErPcdi))
    } else if i == 27 {
        (opcodes::MASK_OUT_X, opcodes::OP_OR_16_ER_PCIX, Handler::Basic(BasicOp::Or16ErPcix))
    } else if i == 28 {
        (opcodes::MASK_OUT_X, opcodes::OP_OR_16_ER_IMM, Handler::Basic(BasicOp::Or16ErImm))
    } else if i == 29 {
        (opcodes::MASK_OUT_X_Y, opcodes::OP_OR_16_RE_AI, Handler::Basic(BasicOp::Or16ReAi))
    } else if i == 30 {
        (opcodes::MASK_OUT_X_Y, opcodes::OP_OR_16_RE_PI, Handler::Basic(BasicOp::Or16RePi))
    } else if i == 31 {
        (opcodes::MASK_OUT_X_Y, opcodes::OP_OR_16_RE_PD, Handler::Basic(BasicOp::Or16RePd))
    } else if i == 32 {
        (opcodes::MASK_OUT_X_Y, opcodes::OP_OR_16_RE_DI, Handler::Basic(BasicOp::Or16ReDi))
    } else if i == 33 {
        (opcodes::MASK_OUT_X_Y, opcodes::OP_OR_16_RE_IX, Handler::Basic(BasicOp::Or16ReIx))
    } else if i == 34 {
        (opcodes::MASK_OUT_X, opcodes::OP_OR_16_RE_AW, Handler::Basic(BasicOp::Or16ReAw))
    } else if i == 35 {
        (opcodes::MASK_OUT_X, opcodes::OP_OR_16_RE_AL, Handler::Basic(BasicOp::Or16ReAl))
    } else if i == 36 {
        (opcodes::MASK_OUT_X_Y, opcodes::OP_OR_32_ER_DN, Handler::Basic(BasicOp::Or32ErDn))
    } else if i == 37 {
        (opcodes::MASK_OUT_X_Y, opcodes::OP_OR_32_ER_AI, Handler::Basic(BasicOp::Or32ErAi))
    } else if i == 38 {
        (opcodes::MASK_OUT_X_Y, opcodes::OP_OR_32_ER_PI, Handler::Basic(BasicOp::Or32ErPi))
    } else if i == 39 {
        (opcodes::MASK_OUT_X_Y, opcodes::OP_OR_32_ER_PD, Handler::Basic(BasicOp::Or32ErPd))
    } else if i == 40 {
        (opcodes::MASK_OUT_X_Y, opcodes::OP_OR_32_ER_DI, Handler::Basic(BasicOp::Or32ErDi))
    } else if i == 41 {
        (opcodes::MASK_OUT_X_Y, opcodes::OP_OR_32_ER_IX, Handler::Basic(BasicOp::Or32ErIx))
    } else if i == 42 {
        (opcodes::MASK_OUT_X, opcodes::OP_OR_32_ER_AW, Handler::Basic(BasicOp::Or32ErAw))
    } else if i == 43 {
        (opcodes::MASK_OUT_X, opcodes::OP_OR_32_ER_AL, Handler::Basic(BasicOp::Or32ErAl))
    } else if i == 44 {
        (opcodes::MASK_OUT_X, opcodes::OP_OR_32_ER_PCDI, Handler::Basic(BasicOp::Or32ErPcdi))
    } else if i == 45 {
        (opcodes::MASK_OUT_X, opcodes::OP_OR_32_ER_PCIX, Handler::Basic(BasicOp::Or32ErPcix))
    } else if i == 46 {
        (opcodes::MASK_OUT_X, opcodes::OP_OR_32_ER_IMM, Handler::Basic(BasicOp::Or32ErImm))
    } else if i == 47 {
        (opcodes::MASK_OUT_X_Y, opcodes::OP_OR_32_RE_AI, Handler::Basic(BasicOp::Or32ReAi))
    } else if i == 48 {
        (opcodes::MASK_OUT_X_Y, opcodes::OP_OR_32_RE_PI, Handler::Basic(BasicOp::Or32RePi))
    } else if i == 49 {
        (opcodes::MASK_OUT_X_Y, opcodes::OP_OR_32_RE_PD, Handler::Basic(BasicOp::Or32RePd))
    } else if i == 50 {
        (opcodes::MASK_OUT_X_Y, opcodes::OP_OR_32_RE_DI, Handler::Basic(BasicOp::Or32ReDi))
    } else if i == 51 {
        (opcodes::MASK_OUT_X_Y, opcodes::OP_OR_32_RE_IX, Handler::Basic(BasicOp::Or32ReIx))
    } else if i == 52 {
        (opcodes::MASK_OUT_X, opcodes::OP_OR_32_RE_AW, Handler::Basic(BasicOp::Or32ReAw))
    } else if i == 53 {
        (opcodes::MASK_OUT_X, opcodes::OP_OR_32_RE_AL, Handler::Basic(BasicOp::Or32ReAl))
    } else if i == 54 {
        (opcodes::MASK_OUT_X_Y, opcodes::OP_SBCD_8_RR, Handler::Basic(BasicOp::Sbcd8Rr))
    } else if i == 55 {
        (opcodes::MASK_OUT_X_Y, opcodes::OP_SBCD_8_MM, Handler::Basic(BasicOp::Sbcd8Mm))
    } else if i == 56 {
        (opcodes::MASK_OUT_X_Y, opcodes::OP_DIVS_16_DN, Handler::Arith(ops::arith::ArithOp::Divs16Dn))
    } else if i == 57 {
        (opcodes::MASK_OUT_X_Y, opcodes::OP_DIVS_16_AI, Handler::Arith(ops::arith::ArithOp::Divs16Ai))
    } else if i == 58 {
        (opcodes::MASK_OUT_X_Y, opcodes::OP_DIVS_16_PI, Handler::Arith(ops::arith::ArithOp::Divs16Pi))
    } else if i == 59 {
        (opcodes::MASK_OUT_X_Y, opcodes::OP_DIVS_16_PD, Handler::Arith(ops::arith::ArithOp::Divs16Pd))
    } else if i == 60 {
        (opcodes::MASK_OUT_X_Y, opcodes::OP_DIVS_16_DI, Handler::Arith(ops::arith::ArithOp::Divs16Di))
    } else if i == 61 {
        (opcodes::MASK_OUT_X_Y, opcodes::OP_DIVS_16_IX, Handler::Arith(ops::arith::ArithOp::Divs16Ix))
    } else if i == 62 {
        (opcodes::MASK_OUT_X, opcodes::OP_DIVS_16_AW, Handler::Arith(ops::arith::ArithOp::Divs16Aw))
    } else if i == 63 {
        (opcodes::MASK_OUT_X, opcodes::OP_DIVS_16_AL, Handler::Arith(ops::arith::ArithOp::Divs16Al))
    } else if i == 64 {
        (opcodes::MASK_OUT_X, opcodes::OP_DIVS_16_PCDI, Handler::Arith(ops::arith::ArithOp::Divs16Pcdi))
    } else if i == 65 {
        (opcodes::MASK_OUT_X, opcodes::OP_DIVS_16_PCIX, Handler::Arith(ops::arith::ArithOp::Divs16Pcix))
    } else if i == 66 {
        (opcodes::MASK_OUT_X, opcodes::OP_DIVS_16_IMM, Handler::Arith(ops::arith::ArithOp::Divs16Imm))
    } else if i == 67 {
        (opcodes::MASK_OUT_X_Y, opcodes::OP_DIVU_16_DN, Handler::Arith(ops::arith::ArithOp::Divu16Dn))
    } else if i == 68 {
        (opcodes::MASK_OUT_X_Y, opcodes::OP_DIVU_16_AI, Handler::Arith(ops::arith::ArithOp::Divu16Ai))
    } else if i == 69 {
        (opcodes::MASK_OUT_X_Y, opcodes::OP_DIVU_16_PI, Handler::Arith(ops::arith::ArithOp::Divu16Pi))
    } else if i == 70 {
        (opcodes::MASK_OUT_X_Y, opcodes::OP_DIVU_16_PD, Handler::Arith(ops::arith::ArithOp::Divu16Pd))
    } else if i == 71 {
        (opcodes::MASK_OUT_X_Y, opcodes::OP_DIVU_16_DI, Handler::Arith(ops::arith::ArithOp::Divu16Di))
    } else if i == 72 {
        (opcodes::MASK_OUT_X_Y, opcodes::OP_DIVU_16_IX, Handler::Arith(ops::arith::ArithOp::Divu16Ix))
    } else if i == 73 {
        (opcodes::MASK_OUT_X, opcodes::OP_DIVU_16_AW, Handler::Arith(ops::arith::ArithOp::Divu16Aw))
    } else if i == 74 {
        (opcodes::MASK_OUT_X, opcodes::OP_DIVU_16_AL, Handler::Arith(ops::arith::ArithOp::Divu16Al))
    } else if i == 75 {
        (opcodes::MASK_OUT_X, opcodes::OP_DIVU_16_PCDI, Handler::Arith(ops::arith::ArithOp::Divu16Pcdi))
    } else if i == 76 {
        (opcodes::MASK_OUT_X, opcodes::OP_DIVU_16_PCIX, Handler::Arith(ops::arith::ArithOp::Divu16Pcix))
    } else {
        (opcodes::MASK_OUT_X, opcodes::OP_DIVU_16_IMM, Handler::Arith(ops::arith::ArithOp::Divu16Imm))
    }
}

fn group_8_at(i: usize) -> (r: (u32, u32, Handler))
    requires
        i < group_size(8),
    ensures
        r == group_8(i as int),
{
    match i {
        0 => (opcodes::MASK_OUT_X_Y, opcodes::OP_OR_8_ER_DN, Handler::Basic(BasicOp::Or8ErDn)),
        1 => (opcodes::MASK_OUT_X_Y, opcodes::OP_OR_8_ER_AI, Handler::Basic(BasicOp::Or8ErAi)),
        2 => (opcodes::MASK_OUT_X_Y, opcodes::OP_OR_8_ER_PI, Handler::Basic(BasicOp::Or8ErPi)),
        3 => (opcodes::MASK_OUT_X_Y, opcodes::OP_OR_8_ER_PD, Handler::Basic(BasicOp::Or8ErPd)),
        4 => (opcodes::MASK_OUT_X_Y, opcodes::OP_OR_8_ER_DI, Handler::Basic(BasicOp::Or8ErDi)),
        5 => (opcodes::MASK_OUT_X_Y, opcodes::OP_OR_8_ER_IX, Handler::Basic(BasicOp::Or8ErIx)),
        6 => (opcodes::MASK_OUT_X, opcodes::OP_OR_8_ER_AW, Handler::Basic(BasicOp::Or8ErAw)),
        7 => (opcodes::MASK_OUT_X, opcodes::OP_OR_8_ER_AL, Handler::Basic(BasicOp::Or8ErAl)),
        8 => (opcodes::MASK_OUT_X, opcodes::OP_OR_8_ER_PCDI, Handler::Basic(BasicOp::Or8ErPcdi)),
        9 => (opcodes::MASK_OUT_X, opcodes::OP_OR_8_ER_PCIX, Handler::Basic(BasicOp::Or8ErPcix)),
        10 => (opcodes::MASK_OUT_X, opcodes::OP_OR_8_ER_IMM, Handler::Basic(BasicOp::Or8ErImm)),
        11 => (opcodes::MASK_OUT_X_Y, opcodes::OP_OR_8_RE_AI, Handler::Basic(BasicOp::Or8ReAi)),
        12 => (opcodes::MASK_OUT_X_Y, opcodes::OP_OR_8_RE_PI, Handler::Basic(BasicOp::Or8RePi)),
        13 => (opcodes::MASK_OUT_X_Y, opcodes::OP_OR_8_RE_PD, Handler::Basic(BasicOp::Or8RePd)),
        14 => (opcodes::MASK_OUT_X_Y, opcodes::OP_OR_8_RE_DI, Handler::Basic(BasicOp::Or8ReDi)),
        15 => (opcodes::MASK_OUT_X_Y, opcodes::OP_OR_8_RE_IX, Handler::Basic(BasicOp::Or8ReIx)),
        16 => (opcodes::MASK_OUT_X, opcodes::OP_OR_8_RE_AW, Handler::Basic(BasicOp::Or8ReAw)),
        17 => (opcodes::MASK_OUT_X, opcodes::OP_OR_8_RE_AL, Handler::Basic(BasicOp::Or8ReAl)),
        18 => (opcodes::MASK_OUT_X_Y, opcodes::OP_OR_16_ER_DN, Handler::Basic(BasicOp::Or16ErDn)),
        19 => (opcodes::MASK_OUT_X_Y, opcodes::OP_OR_16_ER_AI, Handler::Basic(BasicOp::Or16ErAi)),
        20 => (opcodes::MASK_OUT_X_Y, opcodes::OP_OR_16_ER_PI, Handler::Basic(BasicOp::Or16ErPi)),
        21 => (opcodes::MASK_OUT_X_Y, opcodes::OP_OR_16_ER_PD, Handler::Basic(BasicOp::Or16ErPd)),
        22 => (opcodes::MASK_OUT_X_Y, opcodes::OP_OR_16_ER_DI, Handler::Basic(BasicOp::Or16ErDi)),
        23 => (opcodes::MASK_OUT_X_Y, opcodes::OP_OR_16_ER_IX, Handler::Basic(BasicOp::Or16ErIx)),
        24 => (opcodes::MASK_OUT_X, opcodes::OP_OR_16_ER_AW, Handler::Basic(BasicOp::Or16ErAw)),
        25 => (opcodes::MASK_OUT_X, opcodes::OP_OR_16_ER_AL, Handler::Basic(BasicOp::Or16ErAl)),
        26 => (opcodes::MASK_OUT_X, opcodes::OP_OR_16_ER_PCDI, Handler::Basic(BasicOp::Or16ErPcdi)),
        27 => (opcodes::MASK_OUT_X, opcodes::OP_OR_16_ER_PCIX, Handler::Basic(BasicOp::Or16ErPcix)),
        28 => (opcodes::MASK_OUT_X, opcodes::OP_OR_16_ER_IMM, Handler::Basic(BasicOp::Or16ErImm)),
        29 => (opcodes::MASK_OUT_X_Y, opcodes::OP_OR_16_RE_AI, Handler::Basic(BasicOp::Or16ReAi)),
        30 => (opcodes::MASK_OUT_X_Y, opcodes::OP_OR_16_RE_PI, Handler::Basic(BasicOp::Or16RePi)),
        31 => (opcodes::MASK_OUT_X_Y, opcodes::OP_OR_16_RE_PD, Handler::Basic(BasicOp::Or16RePd)),
        32 => (opcodes::MASK_OUT_X_Y, opcodes::OP_OR_16_RE_DI, Handler::Basic(BasicOp::Or16ReDi)),
        33 => (opcodes::MASK_OUT_X_Y, opcodes::OP_OR_16_RE_IX, Handler::Basic(BasicOp::Or16ReIx)),
        34 => (opcodes::MASK_OUT_X, opcodes::OP_OR_16_RE_AW, Handler::Basic(BasicOp::Or16ReAw)),
        35 => (opcodes::MASK_OUT_X, opcodes::OP_OR_16_RE_AL, Handler::Basic(BasicOp::Or16ReAl)),
        36 => (opcodes::MASK_OUT_X_Y, opcodes::OP_OR_32_ER_DN, Handler::Basic(BasicOp::Or32ErDn)),
        37 => (opcodes::MASK_OUT_X_Y, opcodes::OP_OR_32_ER_AI, Handler::Basic(BasicOp::Or32ErAi)),
        38 => (opcodes::MASK_OUT_X_Y, opcodes::OP_OR_32_ER_PI, Handler::Basic(BasicOp::Or32ErPi)),
        39 => (opcodes::MASK_OUT_X_Y, opcodes::OP_OR_32_ER_PD, Handler::Basic(BasicOp::Or32ErPd)),
        40 => (opcodes::MASK_OUT_X_Y, opcodes::OP_OR_32_ER_DI, Handler::Basic(BasicOp::Or32ErDi)),
        41 => (opcodes::MASK_OUT_X_Y, opcodes::OP_OR_32_ER_IX, Handler::Basic(BasicOp::Or32ErIx)),
        42 => (opcodes::MASK_OUT_X, opcodes::OP_OR_32_ER_AW, Handler::Basic(BasicOp::Or32ErAw)),
        43 => (opcodes::MASK_OUT_X, opcodes::OP_OR_32_ER_AL, Handler::Basic(BasicOp::Or32ErAl)),
        44 => (opcodes::MASK_OUT_X, opcodes::OP_OR_32_ER_PCDI, Handler::Basic(BasicOp::Or32ErPcdi)),
        45 => (opcodes::MASK_OUT_X, opcodes::OP_OR_32_ER_PCIX, Handler::Basic(BasicOp::Or32ErPcix)),
        46 => (opcodes::MASK_OUT_X, opcodes::OP_OR_32_ER_IMM, Handler::Basic(BasicOp::Or32ErImm)),
        47 => (opcodes::MASK_OUT_X_Y, opcodes::OP_OR_32_RE_AI, Handler::Basic(BasicOp::Or32ReAi)),
        48 => (opcodes::MASK_OUT_X_Y, opcodes::OP_OR_32_RE_PI, Handler::Basic(BasicOp::Or32RePi)),
        49 => (opcodes::MASK_OUT_X_Y, opcodes::OP_OR_32_RE_PD, Handler::Basic(BasicOp::Or32RePd)),
        50 => (opcodes::MASK_OUT_X_Y, opcodes::OP_OR_32_RE_DI, Handler::Basic(BasicOp::Or32ReDi)),
        51 => (opcodes::MASK_OUT_X_Y, opcodes::OP_OR_32_RE_IX, Handler::Basic(BasicOp::Or32ReIx)),
        52 => (opcodes::MASK_OUT_X, opcodes::OP_OR_32_RE_AW, Handler::Basic(BasicOp::Or32ReAw)),
        53 => (opcodes::MASK_OUT_X, opcodes::OP_OR_32_RE_AL, Handler::Basic(BasicOp::Or32ReAl)),
        54 => (opcodes::MASK_OUT_X_Y, opcodes::OP_SBCD_8_RR, Handler::Basic(BasicOp::Sbcd8Rr)),
        55 => (opcodes::MASK_OUT_X_Y, opcodes::OP_SBCD_8_MM, Handler::Basic(BasicOp::Sbcd8Mm)),
        56 => (opcodes::MASK_OUT_X_Y, opcodes::OP_DIVS_16_DN, Handler::Arith(ops::arith::ArithOp::Divs16Dn)),
        57 => (opcodes::MASK_OUT_X_Y, opcodes::OP_DIVS_16_AI, Handler::Arith(ops::arith::ArithOp::Divs16Ai)),
        58 => (opcodes::MASK_OUT_X_Y, opcodes::OP_DIVS_16_PI, Handler::Arith(ops::arith::ArithOp::Divs16Pi)),
        59 => (opcodes::MASK_OUT_X_Y, opcodes::OP_DIVS_16_PD, Handler::Arith(ops::arith::ArithOp::Divs16Pd)),
        60 => (opcodes::MASK_OUT_X_Y, opcodes::OP_DIVS_16_DI, Handler::Arith(ops::arith::ArithOp::Divs16Di)),
        61 => (opcodes::MASK_OUT_X_Y, opcodes::OP_DIVS_16_IX, Handler::Arith(ops::arith::ArithOp::Divs16Ix)),
        62 => (opcodes::MASK_OUT_X, opcodes::OP_DIVS_16_AW, Handler::Arith(ops::arith::ArithOp::Divs16Aw)),
        63 => (opcodes::MASK_OUT_X, opcodes::OP_DIVS_16_AL, Handler::Arith(ops::arith::ArithOp::Divs16Al)),
        64 => (opcodes::MASK_OUT_X, opcodes::OP_DIVS_16_PCDI, Handler::Arith(ops::arith::ArithOp::Divs16Pcdi)),
        65 => (opcodes::MASK_OUT_X, opcodes::OP_DIVS_16_PCIX, Handler::Arith(ops::arith::ArithOp::Divs16Pcix)),
        66 => (opcodes::MASK_OUT_X, opcodes::OP_DIVS_16_IMM, Handler::Arith(ops::arith::ArithOp::Divs16Imm)),
        67 => (opcodes::MASK_OUT_X_Y, opcodes::OP_DIVU_16_DN, Handler::Arith(ops::arith::ArithOp::Divu16Dn)),
        68 => (opcodes::MASK_OUT_X_Y, opcodes::OP_DIVU_16_AI, Handler::Arith(ops::arith::ArithOp::Divu16Ai)),
        69 => (opcodes::MASK_OUT_X_Y, opcodes::OP_DIVU_16_PI, Handler::Arith(ops::arith::ArithOp::Divu16Pi)),
        70 => (opcodes::MASK_OUT_X_Y, opcodes::OP_DIVU_16_PD, Handler::Arith(ops::arith::ArithOp::Divu16Pd)),
        71 => (opcodes::MASK_OUT_X_Y, opcodes::OP_DIVU_16_DI, Handler::Arith(ops::arith::ArithOp::Divu16Di)),
        72 => (opcodes::MASK_OUT_X_Y, opcodes::OP_DIVU_16_IX, Handler::Arith(ops::arith::ArithOp::Divu16Ix)),
        73 => (opcodes::MASK_OUT_X, opcodes::OP_DIVU_16_AW, Handler::Arith(ops::arith::ArithOp::Divu16Aw)),
        74 => (opcodes::MASK_OUT_X, opcodes::OP_DIVU_16_AL, Handler::Arith(ops::arith::ArithOp::Divu16Al)),
        75 => (opcodes::MASK_OUT_X, opcodes::OP_DIVU_16_PCDI, Handler::Arith(ops::arith::ArithOp::Divu16Pcdi)),
        76 => (opcodes::MASK_OUT_X, opcodes::OP_DIVU_16_PCIX, Handler::Arith(ops::arith::ArithOp::Divu16Pcix)),
        _ => (opcodes::MASK_OUT_X, opcodes::OP_DIVU_16_IMM, Handler::Arith(ops::arith::ArithOp::Divu16Imm)),
    }
}

/// The instruction patterns of group 9, in the order they are tried.
pub open spec fn group_9(i: int) -> (u32, u32, Handler) {
    if i == 0 {
        (opcodes::MASK_OUT_X_Y, opcodes::OP_SUB_8_ER_DN, Handler::Basic(BasicOp::Sub8ErDn))
    } else if i == 1 {
        (opcodes::MASK_OUT_X_Y, opcodes::OP_SUB_8_ER_AI, Handler::Basic(BasicOp::Sub8ErAi))
    } else if i == 2 {
        (opcodes::MASK_OUT_X_Y, opcodes::OP_SUB_8_ER_PI, Handler::Basic(BasicOp::Sub8ErPi))
    } else if i == 3 {
        (opcodes::MASK_OUT_X_Y, opcodes::OP_SUB_8_ER_PD, Handler::Basic(BasicOp::Sub8ErPd))
    } else if i == 4 {
        (opcodes::MASK_OUT_X_Y, opcodes::OP_SUB_8_ER_DI, Handler::Basic(BasicOp::Sub8ErDi))
    } else if i == 5 {
        (opcodes::MASK_OUT_X_Y, opcodes::OP_SUB_8_ER_IX, Handler::Basic(BasicOp::Sub8ErIx))
    } else if i == 6 {
        (opcodes::MASK_OUT_X, opcodes::OP_SUB_8_ER_AW, Handler::Basic(BasicOp::Sub8ErAw))
    } else if i == 7 {
        (opcodes::MASK_OUT_X, opcodes::OP_SUB_8_ER_AL, Handler::Basic(BasicOp::Sub8ErAl))
    } else if i == 8 {
        (opcodes::MASK_OUT_X, opcodes::OP_SUB_8_ER_PCDI, Handler::Basic(BasicOp::Sub8ErPcdi))
    } else if i == 9 {
        (opcodes::MASK_OUT_X, opcodes::OP_SUB_8_ER_PCIX, Handler::Basic(BasicOp::Sub8ErPcix))
    } else if i == 10 {
        (opcodes::MASK_OUT_X, opcodes::OP_SUB_8_ER_IMM, Handler::Basic(BasicOp::Sub8ErImm))
    } else if i == 11 {
        (opcodes::MASK_OUT_X_Y, opcodes::OP_SUB_8_RE_AI, Handler::Basic(BasicOp::Sub8ReAi))
    } else if i == 12 {
        (opcodes::MASK_OUT_X_Y, opcodes::OP_SUB_8_RE_PI, Handler::Basic(BasicOp::Sub8RePi))
    } else if i == 13 {
        (opcodes::MASK_OUT_X_Y, opcodes::OP_SUB_8_RE_PD, Handler::Basic(BasicOp::Sub8RePd))
    } else if i == 14 {
        (opcodes::MASK_OUT_X_Y, opcodes::OP_SUB_8_RE_DI, Handler::Basic(BasicOp::Sub8ReDi))
    } else if i == 15 {
        (opcodes::MASK_OUT_X_Y, opcodes::OP_SUB_8_RE_IX, Handler::Basic(BasicOp::Sub8ReIx))
    } else if i == 16 {
        (opcodes::MASK_OUT_X, opcodes::OP_SUB_8_RE_AW, Handler::Basic(BasicOp::Sub8ReAw))
    } else if i == 17 {
        (opcodes::MASK_OUT_X, opcodes::OP_SUB_8_RE_AL, Handler::Basic(BasicOp::Sub8ReAl))
    } else if i == 18 {
        (opcodes::MASK_OUT_X_Y, opcodes::OP_SUB_16_ER_DN, Handler::Basic(BasicOp::Sub16ErDn))
    } else if i == 19 {
        (opcodes::MASK_OUT_X_Y, opcodes::OP_SUB_16_ER_AN, Handler::Basic(BasicOp::Sub16ErAn))
    } else if i == 20 {
        (opcodes::MASK_OUT_X_Y, opcodes::OP_SUB_16_ER_AI, Handler::Basic(BasicOp::Sub16ErAi))
    } else if i == 21 {
        (opcodes::MASK_OUT_X_Y, opcodes::OP_SUB_16_ER_PI, Handler::Basic(BasicOp::Sub16ErPi))
    } else if i == 22 {
        (opcodes::MASK_OUT_X_Y, opcodes::OP_SUB_16_ER_PD, Handler::Basic(BasicOp::Sub16ErPd))
    } else if i == 23 {
        (opcodes::MASK_OUT_X_Y, opcodes::OP_SUB_16_ER_DI, Handler::Basic(BasicOp::Sub16ErDi))
    } else if i == 24 {
        (opcodes::MASK_OUT_X_Y, opcodes::OP_SUB_16_ER_IX, Handler::Basic(BasicOp::Sub16ErIx))
    } else if i == 25 {
        (opcodes::MASK_OUT_X, opcodes::OP_SUB_16_ER_AW, Handler::Basic(BasicOp::Sub16ErAw))
    } else if i == 26 {
        (opcodes::MASK_OUT_X, opcodes::OP_SUB_16_ER_AL, Handler::Basic(BasicOp::Sub16ErAl))
    } else if i == 27 {
        (opcodes::MASK_OUT_X, opcodes::OP_SUB_16_ER_PCDI, Handler::Basic(BasicOp::Sub16ErPcdi))
    } else if i == 28 {
        (opcodes::MASK_OUT_X, opcodes::OP_SUB_16_ER_PCIX, Handler::Basic(BasicOp::Sub16ErPcix))
    } else if i == 29 {
        (opcodes::MASK_OUT_X, opcodes::OP_SUB_16_ER_IMM, Handler::Basic(BasicOp::Sub16ErImm))
    } else if i == 30 {
        (opcodes::MASK_OUT_X_Y, opcodes::OP_SUB_16_RE_AI, Handler::Basic(BasicOp::Sub16ReAi))
    } else if i == 31 {
        (opcodes::MASK_OUT_X_Y, opcodes::OP_SUB_16_RE_PI, Handler::Basic(BasicOp::Sub16RePi))
    } else if i == 32 {
        (opcodes::MASK_OUT_X_Y, opcodes::OP_SUB_16_RE_PD, Handler::Basic(BasicOp::Sub16RePd))
    } else if i == 33 {
        (opcodes::MASK_OUT_X_Y, opcodes::OP_SUB_16_RE_DI, Handler::Basic(BasicOp::Sub16ReDi))
    } else if i == 34 {
        (opcodes::MASK_OUT_X_Y, opcodes::OP_SUB_16_RE_IX, Handler::Basic(BasicOp::Sub16ReIx))
    } else if i == 35 {
        (opcodes::MASK_OUT_X, opcodes::OP_SUB_16_RE_AW, Handler::Basic(BasicOp::Sub16ReAw))
    } else if i == 36 {
        (opcodes::MASK_OUT_X, opcodes::OP_SUB_16_RE_AL, Handler::Basic(BasicOp::Sub16ReAl))
    } else if i == 37 {
        (opcodes::MASK_OUT_X_Y, opcodes::OP_SUB_32_ER_DN, Handler::Basic(BasicOp::Sub32ErDn))
    } else if i == 38 {
        (opcodes::MASK_OUT_X_Y, opcodes::OP_SUB_32_ER_AN, Handler::Basic(BasicOp::Sub32ErAn))
    } else if i == 39 {
        (opcodes::MASK_OUT_X_Y, opcodes::OP_SUB_32_ER_AI, Handler::Basic(BasicOp::Sub32ErAi))
    } else if i == 40 {
        (opcodes::MASK_OUT_X_Y, opcodes::OP_SUB_32_ER_PI, Handler::Basic(BasicOp::Sub32ErPi))
    } else if i == 41 {
        (opcodes::MASK_OUT_X_Y, opcodes::OP_SUB_32_ER_PD, Handler::Basic(BasicOp::Sub32ErPd))
    } else if i == 42 {
        (opcodes::MASK_OUT_X_Y, opcodes::OP_SUB_32_ER_DI, Handler::Basic(BasicOp::Sub32ErDi))
    } else if i == 43 {
        (opcodes::MASK_OUT_X_Y, opcodes::OP_SUB_32_ER_IX, Handler::Basic(BasicOp::Sub32ErIx))
    } else if i == 44 {
        (opcodes::MASK_OUT_X, opcodes::OP_SUB_32_ER_AW, Handler::Basic(BasicOp::Sub32ErAw))
    } else if i == 45 {
        (opcodes::MASK_OUT_X, opcodes::OP_SUB_32_ER_AL, Handler::Basic(BasicOp::Sub32ErAl))
    } else if i == 46 {
        (opcodes::MASK_OUT_X, opcodes::OP_SUB_32_ER_PCDI, Handler::Basic(BasicOp::Sub32ErPcdi))
    } else if i == 47 {
        (opcodes::MASK_OUT_X, opcodes::OP_SUB_32_ER_PCIX, Handler::Basic(BasicOp::Sub32ErPcix))
    } else if i == 48 {
        (opcodes::MASK_OUT_X, opcodes::OP_SUB_32_ER_IMM, Handler::Basic(BasicOp::Sub32ErImm))
    } else if i == 49 {
        (opcodes::MASK_OUT_X_Y, opcodes::OP_SUB_32_RE_AI, Handler::Basic(BasicOp::Sub32ReAi))
    } else if i == 50 {
        (opcodes::MASK_OUT_X_Y, opcodes::OP_SUB_32_RE_PI, Handler::Basic(BasicOp::Sub32RePi))
    } else if i == 51 {
        (opcodes::MASK_OUT_X_Y, opcodes::OP_SUB_32_RE_PD, Handler::Basic(BasicOp::Sub32RePd))
    } else if i == 52 {
        (opcodes::MASK_OUT_X_Y, opcodes::OP_SUB_32_RE_DI, Handler::Basic(BasicOp::Sub32ReDi))
    } else if i == 53 {
        (opcodes::MASK_OUT_X_Y, opcodes::OP_SUB_32_RE_IX, Handler::Basic(BasicOp::Sub32ReIx))
    } else if i == 54 {
        (opcodes::MASK_OUT_X, opcodes::OP_SUB_32_RE_AW, Handler::Basic(BasicOp::Sub32ReAw))
    } else if i == 55 {
        (opcodes::MASK_OUT_X, opcodes::OP_SUB_32_RE_AL, Handler::Basic(BasicOp::Sub32ReAl))
    } else if i == 56 {
        (opcodes::MASK_OUT_X_Y, opcodes::OP_SUBX_8_RR, Handler::Basic(BasicOp::Subx8Rr))
    } else if i == 57 {
        (opcodes::MASK_OUT_X_Y, opcodes::OP_SUBX_8_MM, Handler::Basic(BasicOp::Subx8Mm))
    } else if i == 58 {
        (opcodes::MASK_OUT_X_Y, opcodes::OP_SUBX_16_RR, Handler::Basic(BasicOp::Subx16Rr))
    } else if i == 59 {
        (opcodes::MASK_OUT_X_Y, opcodes::OP_SUBX_16_MM, Handler::Basic(BasicOp::Subx16Mm))
    } else if i == 60 {
        (opcodes::MASK_OUT_X_Y, opcodes::OP_SUBX_32_RR, Handler::Basic(BasicOp::Subx32Rr))
    } else if i == 61 {
        (opcodes::MASK_OUT_X_Y, opcodes::OP_SUBX_32_MM, Handler::Basic(BasicOp::Subx32Mm))
    } else if i == 62 {
        (opcodes::MASK_OUT_X_Y, opcodes::OP_SUBA_16_DN, Handler::Arith(ops::arith::ArithOp::Suba16Dn))
    } else if i == 63 {
        (opcodes::MASK_OUT_X_Y, opcodes::OP_SUBA_16_AN, Handler::Arith(ops::arith::ArithOp::Suba16An))
    } else if i == 64 {
        (opcodes::MASK_OUT_X_Y, opcodes::OP_SUBA_16_AI, Handler::Arith(ops::arith::ArithOp::Suba16Ai))
    } else if i == 65 {
        (opcodes::MASK_OUT_X_Y, opcodes::OP_SUBA_16_PI, Handler::Arith(ops::arith::ArithOp::Suba16Pi))
    } else if i == 66 {
        (opcodes::MASK_OUT_X_Y, opcodes::OP_SUBA_16_PD, Handler::Arith(ops::arith::ArithOp::Suba16Pd))
    } else if i == 67 {
        (opcodes::MASK_OUT_X_Y, opcodes::OP_SUBA_16_DI, Handler::Arith(ops::arith::ArithOp::Suba16Di))
    } else if i == 68 {
        (opcodes::MASK_OUT_X_Y, opcodes::OP_SUBA_16_IX, Handler::Arith(ops::arith::ArithOp::Suba16Ix))
    } else if i == 69 {
        (opcodes::MASK_OUT_X, opcodes::OP_SUBA_16_AW, Handler::Arith(ops::arith::ArithOp::Suba16Aw))
    } else if i == 70 {
        (opcodes::MASK_OUT_X, opcodes::OP_SUBA_16_AL, Handler::Arith(ops::arith::ArithOp::Suba16Al))
    } else if i == 71 {
        (opcodes::MASK_OUT_X, opcodes::OP_SUBA_16_PCDI, Handler::Arith(ops::arith::ArithOp::Suba16Pcdi))
    } else if i == 72 {
        (opcodes::MASK_OUT_X, opcodes::OP_SUBA_16_PCIX, Handler::Arith(ops::arith::ArithOp::Suba16Pcix))
    } else if i == 73 {
        (opcodes::MASK_OUT_X, opcodes::OP_SUBA_16_IMM, Handler::Arith(ops::arith::ArithOp::Suba16Imm))
    } else if i == 74 {
        (opcodes::MASK_OUT_X_Y, opcodes::OP_SUBA_32_DN, Handler::Arith(ops::arith::ArithOp::Suba32Dn))
    } else if i == 75 {
        (opcodes::MASK_OUT_X_Y, opcodes::OP_SUBA_32_AN, Handler::Arith(ops::arith::ArithOp::Suba32An))
    } else if i == 76 {
        (opcodes::MASK_OUT_X_Y, opcodes::OP_SUBA_32_AI, Handler::Arith(ops::arith::ArithOp::Suba32Ai))
    } else if i == 77 {
        (opcodes::MASK_OUT_X_Y, opcodes::OP_SUBA_32_PI, Handler::Arith(ops::arith::ArithOp::Suba32Pi))
    } else if i == 78 {
        (opcodes::MASK_OUT_X_Y, opcodes::OP_SUBA_32_PD, Handler::Arith(ops::arith::ArithOp::Suba32Pd))
    } else if i == 79 {
        (opcodes::MASK_OUT_X_Y, opcodes::OP_SUBA_32_DI, Handler::Arith(ops::arith::ArithOp::Suba32Di))
    } else if i == 80 {
        (opcodes::MASK_OUT_X_Y, opcodes::OP_SUBA_32_IX, Handler::Arith(ops::arith::ArithOp::Suba32Ix))
    } else if i == 81 {
        (opcodes::MASK_OUT_X, opcodes::OP_SUBA_32_AW, Handler::Arith(ops::arith::ArithOp::Suba32Aw))
    } else if i == 82 {
        (opcodes::MASK_OUT_X, opcodes::OP_SUBA_32_AL, Handler::Arith(ops::arith::ArithOp::Suba32Al))
    } else if i == 83 {
        (opcodes::MASK_OUT_X, opcodes::OP_SUBA_32_PCDI, Handler::Arith(ops::arith::ArithOp::Suba32Pcdi))
    } else if i == 84 {
        (opcodes::MASK_OUT_X, opcodes::OP_SUBA_32_PCIX, Handler::Arith(ops::arith::ArithOp::Suba32Pcix))
    } else {
        (opcodes::MASK_OUT_X, opcodes::OP_SUBA_32_IMM, Handler::Arith(ops::arith::ArithOp::Suba32Imm))
    }
}

fn group_9_at(i: usize) -> (r: (u32, u32, Handler))
    requires
        i < group_size(9),
    ensures
        r == group_9(i as int),
{
    match i {
        0 => (opcodes::MASK_OUT_X_Y, opcodes::OP_SUB_8_ER_DN, Handler::Basic(BasicOp::Sub8ErDn)),
        1 => (opcodes::MASK_OUT_X_Y, opcodes::OP_SUB_8_ER_AI, Handler::Basic(BasicOp::Sub8ErAi)),
        2 => (opcodes::MASK_OUT_X_Y, opcodes::OP_SUB_8_ER_PI, Handler::Basic(BasicOp::Sub8ErPi)),
        3 => (opcodes::MASK_OUT_X_Y, opcodes::OP_SUB_8_ER_PD, Handler::Basic(BasicOp::Sub8ErPd)),
        4 => (opcodes::MASK_OUT_X_Y, opcodes::OP_SUB_8_ER_DI, Handler::Basic(BasicOp::Sub8ErDi)),
        5 => (opcodes::MASK_OUT_X_Y, opcodes::OP_SUB_8_ER_IX, Handler::Basic(BasicOp::Sub8ErIx)),
        6 => (opcodes::MASK_OUT_X, opcodes::OP_SUB_8_ER_AW, Handler::Basic(BasicOp::Sub8ErAw)),
        7 => (opcodes::MASK_OUT_X, opcodes::OP_SUB_8_ER_AL, Handler::Basic(BasicOp::Sub8ErAl)),
        8 => (opcodes::MASK_OUT_X, opcodes::OP_SUB_8_ER_PCDI, Handler::Basic(BasicOp::Sub8ErPcdi)),
        9 => (opcodes::MASK_OUT_X, opcodes::OP_SUB_8_ER_PCIX, Handler::Basic(BasicOp::Sub8ErPcix)),
        10 => (opcodes::MASK_OUT_X, opcodes::OP_SUB_8_ER_IMM, Handler::Basic(BasicOp::Sub8ErImm)),
        11 => (opcodes::MASK_OUT_X_Y, opcodes::OP_SUB_8_RE_AI, Handler::Basic(BasicOp::Sub8ReAi)),
        12 => (opcodes::MASK_OUT_X_Y, opcodes::OP_SUB_8_RE_PI, Handler::Basic(BasicOp::Sub8RePi)),
        13 => (opcodes::MASK_OUT_X_Y, opcodes::OP_SUB_8_RE_PD, Handler::Basic(BasicOp::Sub8RePd)),
        14 => (opcodes::MASK_OUT_X_Y, opcodes::OP_SUB_8_RE_DI, Handler::Basic(BasicOp::Sub8ReDi)),
        15 => (opcodes::MASK_OUT_X_Y, opcodes::OP_SUB_8_RE_IX, Handler::Basic(BasicOp::Sub8ReIx)),
        16 => (opcodes::MASK_OUT_X, opcodes::OP_SUB_8_RE_AW, Handler::Basic(BasicOp::Sub8ReAw)),
        17 => (opcodes::MASK_OUT_X, opcodes::OP_SUB_8_RE_AL, Handler::Basic(BasicOp::Sub8ReAl)),
        18 => (opcodes::MASK_OUT_X_Y, opcodes::OP_SUB_16_ER_DN, Handler::Basic(BasicOp::Sub16ErDn)),
        19 => (opcodes::MASK_OUT_X_Y, opcodes::OP_SUB_16_ER_AN, Handler::Basic(BasicOp::Sub16ErAn)),
        20 => (opcodes::MASK_OUT_X_Y, opcodes::OP_SUB_16_ER_AI, Handler::Basic(BasicOp::Sub16ErAi)),
        21 => (opcodes::MASK_OUT_X_Y, opcodes::OP_SUB_16_ER_PI, Handler::Basic(BasicOp::Sub16ErPi)),
        22 => (opcodes::MASK_OUT_X_Y, opcodes::OP_SUB_16_ER_PD, Handler::Basic(BasicOp::Sub16ErPd)),
        23 => (opcodes::MASK_OUT_X_Y, opcodes::OP_SUB_16_ER_DI, Handler::Basic(BasicOp::Sub16ErDi)),
        24 => (opcodes::MASK_OUT_X_Y, opcodes::OP_SUB_16_ER_IX, Handler::Basic(BasicOp::Sub16ErIx)),
        25 => (opcodes::MASK_OUT_X, opcodes::OP_SUB_16_ER_AW, Handler::Basic(BasicOp::Sub16ErAw)),
        26 => (opcodes::MASK_OUT_X, opcodes::OP_SUB_16_ER_AL, Handler::Basic(BasicOp::Sub16ErAl)),
        27 => (opcodes::MASK_OUT_X, opcodes::OP_SUB_16_ER_PCDI, Handler::Basic(BasicOp::Sub16ErPcdi)),
        28 => (opcodes::MASK_OUT_X, opcodes::OP_SUB_16_ER_PCIX, Handler::Basic(BasicOp::Sub16ErPcix)),
        29 => (opcodes::MASK_OUT_X, opcodes::OP_SUB_16_ER_IMM, Handler::Basic(BasicOp::Sub16ErImm)),
        30 => (opcodes::MASK_OUT_X_Y, opcodes::OP_SUB_16_RE_AI, Handler::Basic(BasicOp::Sub16ReAi)),
        31 => (opcodes::MASK_OUT_X_Y, opcodes::OP_SUB_16_RE_PI, Handler::Basic(BasicOp::Sub16RePi)),
        32 => (opcodes::MASK_OUT_X_Y, opcodes::OP_SUB_16_RE_PD, Handler::Basic(BasicOp::Sub16RePd)),
        33 => (opcodes::MASK_OUT_X_Y, opcodes::OP_SUB_16_RE_DI, Handler::Basic(BasicOp::Sub16ReDi)),
        34 => (opcodes::MASK_OUT_X_Y, opcodes::OP_SUB_16_RE_IX, Handler::Basic(BasicOp::Sub16ReIx)),
        35 => (opcodes::MASK_OUT_X, opcodes::OP_SUB_16_RE_AW, Handler::Basic(BasicOp::Sub16ReAw)),
        36 => (opcodes::MASK_OUT_X, opcodes::OP_SUB_16_RE_AL, Handler::Basic(BasicOp::Sub16ReAl)),
        37 => (opcodes::MASK_OUT_X_Y, opcodes::OP_SUB_32_ER_DN, Handler::Basic(BasicOp::Sub32ErDn)),
        38 => (opcodes::MASK_OUT_X_Y, opcodes::OP_SUB_32_ER_AN, Handler::Basic(BasicOp::Sub32ErAn)),
        39 => (opcodes::MASK_OUT_X_Y, opcodes::OP_SUB_32_ER_AI, Handler::Basic(BasicOp::Sub32ErAi)),
        40 => (opcodes::MASK_OUT_X_Y, opcodes::OP_SUB_32_ER_PI, Handler::Basic(BasicOp::Sub32ErPi)),
        41 => (opcodes::MASK_OUT_X_Y, opcodes::OP_SUB_32_ER_PD, Handler::Basic(BasicOp::Sub32ErPd)),
        42 => (opcodes::MASK_OUT_X_Y, opcodes::OP_SUB_32_ER_DI, Handler::Basic(BasicOp::Sub32ErDi)),
        43 => (opcodes::MASK_OUT_X_Y, opcodes::OP_SUB_32_ER_IX, Handler::Basic(BasicOp::Sub32ErIx)),
        44 => (opcodes::MASK_OUT_X, opcodes::OP_SUB_32_ER_AW, Handler::Basic(BasicOp::Sub32ErAw)),
        45 => (opcodes::MASK_OUT_X, opcodes::OP_SUB_32_ER_AL, Handler::Basic(BasicOp::Sub32ErAl)),
        46 => (opcodes::MASK_OUT_X, opcodes::OP_SUB_32_ER_PCDI, Handler::Basic(BasicOp::Sub32ErPcdi)),
        47 => (opcodes::MASK_OUT_X, opcodes::OP_SUB_32_ER_PCIX, Handler::Basic(BasicOp::Sub32ErPcix)),
        48 => (opcodes::MASK_OUT_X, opcodes::OP_SUB_32_ER_IMM, Handler::Basic(BasicOp::Sub32ErImm)),
        49 => (opcodes::MASK_OUT_X_Y, opcodes::OP_SUB_32_RE_AI, Handler::Basic(BasicOp::Sub32ReAi)),
        50 => (opcodes::MASK_OUT_X_Y, opcodes::OP_SUB_32_RE_PI, Handler::Basic(BasicOp::Sub32RePi)),
        51 => (opcodes::MASK_OUT_X_Y, opcodes::OP_SUB_32_RE_PD, Handler::Basic(BasicOp::Sub32RePd)),
        52 => (opcodes::MASK_OUT_X_Y, opcodes::OP_SUB_32_RE_DI, Handler::Basic(BasicOp::Sub32ReDi)),
        53 => (opcodes::MASK_OUT_X_Y, opcodes::OP_SUB_32_RE_IX, Handler::Basic(BasicOp::Sub32ReIx)),
        54 => (opcodes::MASK_OUT_X, opcodes::OP_SUB_32_RE_AW, Handler::Basic(BasicOp::Sub32ReAw)),
        55 => (opcodes::MASK_OUT_X, opcodes::OP_SUB_32_RE_AL, Handler::Basic(BasicOp::Sub32ReAl)),
        56 => (opcodes::MASK_OUT_X_Y, opcodes::OP_SUBX_8_RR, Handler::Basic(BasicOp::Subx8Rr)),
        57 => (opcodes::MASK_OUT_X_Y, opcodes::OP_SUBX_8_MM, Handler::Basic(BasicOp::Subx8Mm)),
        58 => (opcodes::MASK_OUT_X_Y, opcodes::OP_SUBX_16_RR, Handler::Basic(BasicOp::Subx16Rr)),
        59 => (opcodes::MASK_OUT_X_Y, opcodes::OP_SUBX_16_MM, Handler::Basic(BasicOp::Subx16Mm)),
        60 => (opcodes::MASK_OUT_X_Y, opcodes::OP_SUBX_32_RR, Handler::Basic(BasicOp::Subx32Rr)),
        61 => (opcodes::MASK_OUT_X_Y, opcodes::OP_SUBX_32_MM, Handler::Basic(BasicOp::Subx32Mm)),
        62 => (opcodes::MASK_OUT_X_Y, opcodes::OP_SUBA_16_DN, Handler::Arith(ops::arith::ArithOp::Suba16Dn)),
        63 => (opcodes::MASK_OUT_X_Y, opcodes::OP_SUBA_16_AN, Handler::Arith(ops::arith::ArithOp::Suba16An)),
        64 => (opcodes::MASK_OUT_X_Y, opcodes::OP_SUBA_16_AI, Handler::Arith(ops::arith::ArithOp::Suba16Ai)),
        65 => (opcodes::MASK_OUT_X_Y, opcodes::OP_SUBA_16_PI, Handler::Arith(ops::arith::ArithOp::Suba16Pi)),
        66 => (opcodes::MASK_OUT_X_Y, opcodes::OP_SUBA_16_PD, Handler::Arith(ops::arith::ArithOp::Suba16Pd)),
        67 => (opcodes::MASK_OUT_X_Y, opcodes::OP_SUBA_16_DI, Handler::Arith(ops::arith::ArithOp::Suba16Di)),
        68 => (opcodes::MASK_OUT_X_Y, opcodes::OP_SUBA_16_IX, Handler::Arith(ops::arith::ArithOp::Suba16Ix)),
        69 => (opcodes::MASK_OUT_X, opcodes::OP_SUBA_16_AW, Handler::Arith(ops::arith::ArithOp::Suba16Aw)),
        70 => (opcodes::MASK_OUT_X, opcodes::OP_SUBA_16_AL, Handler::Arith(ops::arith::ArithOp::Suba16Al)),
        71 => (opcodes::MASK_OUT_X, opcodes::OP_SUBA_16_PCDI, Handler::Arith(ops::arith::ArithOp::Suba16Pcdi)),
        72 => (opcodes::MASK_OUT_X, opcodes::OP_SUBA_16_PCIX, Handler::Arith(ops::arith::ArithOp::Suba16Pcix)),
        73 => (opcodes::MASK_OUT_X, opcodes::OP_SUBA_16_IMM, Handler::Arith(ops::arith::ArithOp::Suba16Imm)),
        74 => (opcodes::MASK_OUT_X_Y, opcodes::OP_SUBA_32_DN, Handler::Arith(ops::arith::ArithOp::Suba32Dn)),
        75 => (opcodes::MASK_OUT_X_Y, opcodes::OP_SUBA_32_AN, Handler::Arith(ops::arith::ArithOp::Suba32An)),
        76 => (opcodes::MASK_OUT_X_Y, opcodes::OP_SUBA_32_AI, Handler::Arith(ops::arith::ArithOp::Suba32Ai)),
        77 => (opcodes::MASK_OUT_X_Y, opcodes::OP_SUBA_32_PI, Handler::Arith(ops::arith::ArithOp::Suba32Pi)),
        78 => (opcodes::MASK_OUT_X_Y, opcodes::OP_SUBA_32_PD, Handler::Arith(ops::arith::ArithOp::Suba32Pd)),
        79 => (opcodes::MASK_OUT_X_Y, opcodes::OP_SUBA_32_DI, Handler::Arith(ops::arith::ArithOp::Suba32Di)),
        80 => (opcodes::MASK_OUT_X_Y, opcodes::OP_SUBA_32_IX, Handler::Arith(ops::arith::ArithOp::Suba32Ix)),
        81 => (opcodes::MASK_OUT_X, opcodes::OP_SUBA_32_AW, Handler::Arith(ops::arith::ArithOp::Suba32Aw)),
        82 => (opcodes::MASK_OUT_X, opcodes::OP_SUBA_32_AL, Handler::Arith(ops::arith::ArithOp::Suba32Al)),
        83 => (opcodes::MASK_OUT_X, opcodes::OP_SUBA_32_PCDI, Handler::Arith(ops::arith::ArithOp::Suba32Pcdi)),
        84 => (opcodes::MASK_OUT_X, opcodes::OP_SUBA_32_PCIX, Handler::Arith(ops::arith::ArithOp::Suba32Pcix)),
        _ => (opcodes::MASK_OUT_X, opcodes::OP_SUBA_32_IMM, Handler::Arith(ops::arith::ArithOp::Suba32Imm)),
    }
}

/// The instruction patterns of group 10, in the order they are tried.
pub open spec fn group_10(i: int) -> (u32, u32, Handler) {
    (opcodes::MASK_LO3NIB, opcodes::OP_UNIMPLEMENTED_1010, Handler::Basic(BasicOp::Unimplemented1010))
}

fn group_10_at(i: usize) -> (r: (u32, u32, Handler))
    requires
        i < group_size(10),
    ensures
        r == group_10(i as int),
{
    (opcodes::MASK_LO3NIB, opcodes::OP_UNIMPLEMENTED_1010, Handler::Basic(BasicOp::Unimplemented1010))
}

/// The instruction patterns of group 11, in the order they are tried.
pub open spec fn group_11(i: int) -> (u32, u32, Handler) {
    if i == 0 {
        (opcodes::MASK_OUT_X_Y, opcodes::OP_EOR_8_DN, Handler::Basic(BasicOp::Eor8Dn))
    } else if i == 1 {
        (opcodes::MASK_OUT_X_Y, opcodes::OP_EOR_8_AI, Handler::Basic(BasicOp::Eor8Ai))
    } else if i == 2 {
        (opcodes::MASK_OUT_X_Y, opcodes::OP_EOR_8_PI, Handler::Basic(BasicOp::Eor8Pi))
    } else if i == 3 {
        (opcodes::MASK_OUT_X_Y, opcodes::OP_EOR_8_PD, Handler::Basic(BasicOp::Eor8Pd))
    } else if i == 4 {
        (opcodes::MASK_OUT_X_Y, opcodes::OP_EOR_8_DI, Handler::Basic(BasicOp::Eor8Di))
    } else if i == 5 {
        (opcodes::MASK_OUT_X_Y, opcodes::OP_EOR_8_IX, Handler::Basic(BasicOp::Eor8Ix))
    } else if i == 6 {
        (opcodes::MASK_OUT_X, opcodes::OP_EOR_8_AW, Handler::Basic(BasicOp::Eor8Aw))
    } else if i == 7 {
        (opcodes::MASK_OUT_X, opcodes::OP_EOR_8_AL, Handler::Basic(BasicOp::Eor8Al))
    } else if i == 8 {
        (opcodes::MASK_OUT_X_Y, opcodes::OP_EOR_16_DN, Handler::Basic(BasicOp::Eor16Dn))
    } else if i == 9 {
        (opcodes::MASK_OUT_X_Y, opcodes::OP_EOR_16_AI, Handler::Basic(BasicOp::Eor16Ai))
    } else if i == 10 {
        (opcodes::MASK_OUT_X_Y, opcodes::OP_EOR_16_PI, Handler::Basic(BasicOp::Eor16Pi))
    } else if i == 11 {
        (opcodes::MASK_OUT_X_Y, opcodes::OP_EOR_16_PD, Handler::Basic(BasicOp::Eor16Pd))
    } else if i == 12 {
        (opcodes::MASK_OUT_X_Y, opcodes::OP_EOR_16_DI, Handler::Basic(BasicOp::Eor16Di))
    } else if i == 13 {
        (opcodes::MASK_OUT_X_Y, opcodes::OP_EOR_16_IX, Handler::Basic(BasicOp::Eor16Ix))
    } else if i == 14 {
        (opcodes::MASK_OUT_X, opcodes::OP_EOR_16_AW, Handler::Basic(BasicOp::Eor16Aw))
    } else if i == 15 {
        (opcodes::MASK_OUT_X, opcodes::OP_EOR_16_AL, Handler::Basic(BasicOp::Eor16Al))
    } else if i == 16 {
        (opcodes::MASK_OUT_X_Y, opcodes::OP_EOR_32_DN, Handler::Basic(BasicOp::Eor32Dn))
    } else if i == 17 {
        (opcodes::MASK_OUT_X_Y, opcodes::OP_EOR_32_AI, Handler::Basic(BasicOp::Eor32Ai))
    } else if i == 18 {
        (opcodes::MASK_OUT_X_Y, opcodes::OP_EOR_32_PI, Handler::Basic(BasicOp::Eor32Pi))
    } else if i == 19 {
        (opcodes::MASK_OUT_X_Y, opcodes::OP_EOR_32_PD, Handler::Basic(BasicOp::Eor32Pd))
    } else if i == 20 {
        (opcodes::MASK_OUT_X_Y, opcodes::OP_EOR_32_DI, Handler::Basic(BasicOp::Eor32Di))
    } else if i == 21 {
        (opcodes::MASK_OUT_X_Y, opcodes::OP_EOR_32_IX, Handler::Basic(BasicOp::Eor32Ix))
    } else if i == 22 {
        (opcodes::MASK_OUT_X, opcodes::OP_EOR_32_AW, Handler::Basic(BasicOp::Eor32Aw))
    } else if i == 23 {
        (opcodes::MASK_OUT_X, opcodes::OP_EOR_32_AL, Handler::Basic(BasicOp::Eor32Al))
    } else if i == 24 {
        (opcodes::MASK_OUT_X_Y, opcodes::OP_CMP_8_DN, Handler::Basic(BasicOp::Cmp8Dn))
    } else if i == 25 {
        (opcodes::MASK_OUT_X_Y, opcodes::OP_CMP_8_AI, Handler::Basic(BasicOp::Cmp8Ai))
    } else if i == 26 {
        (opcodes::MASK_OUT_X_Y, opcodes::OP_CMP_8_PI, Handler::Basic(BasicOp::Cmp8Pi))
    } else if i == 27 {
        (opcodes::MASK_OUT_X_Y, opcodes::OP_CMP_8_PD, Handler::Basic(BasicOp::Cmp8Pd))
    } else if i == 28 {
        (opcodes::MASK_OUT_X_Y, opcodes::OP_CMP_8_DI, Handler::Basic(BasicOp::Cmp8Di))
    } else if i == 29 {
        (opcodes::MASK_OUT_X_Y, opcodes::OP_CMP_8_IX, Handler::Basic(BasicOp::Cmp8Ix))
    } else if i == 30 {
        (opcodes::MASK_OUT_X, opcodes::OP_CMP_8_AW, Handler::Basic(BasicOp::Cmp8Aw))
    } else if i == 31 {
        (opcodes::MASK_OUT_X, opcodes::OP_CMP_8_AL, Handler::Basic(BasicOp::Cmp8Al))
    } else if i == 32 {
        (opcodes::MASK_OUT_X, opcodes::OP_CMP_8_PCDI, Handler::Basic(BasicOp::Cmp8Pcdi))
    } else if i == 33 {
        (opcodes::MASK_OUT_X, opcodes::OP_CMP_8_PCIX, Handler::Basic(BasicOp::Cmp8Pcix))
    } else if i == 34 {
        (opcodes::MASK_OUT_X, opcodes::OP_CMP_8_IMM, Handler::Basic(BasicOp::Cmp8Imm))
    } else if i == 35 {
        (opcodes::MASK_OUT_X_Y, opcodes::OP_CMP_16_DN, Handler::Basic(BasicOp::Cmp16Dn))
    } else if i == 36 {
        (opcodes::MASK_OUT_X_Y, opcodes::OP_CMP_16_AN, Handler::Basic(BasicOp::Cmp16An))
    } else if i == 37 {
        (opcodes::MASK_OUT_X_Y, opcodes::OP_CMP_16_AI, Handler::Basic(BasicOp::Cmp16Ai))
    } else if i == 38 {
        (opcodes::MASK_OUT_X_Y, opcodes::OP_CMP_16_PI, Handler::Basic(BasicOp::Cmp16Pi))
    } else if i == 39 {
        (opcodes::MASK_OUT_X_Y, opcodes::OP_CMP_16_PD, Handler::Basic(BasicOp::Cmp16Pd))
    } else if i == 40 {
        (opcodes::MASK_OUT_X_Y, opcodes::OP_CMP_16_DI, Handler::Basic(BasicOp::Cmp16Di))
    } else if i == 41 {
        (opcodes::MASK_OUT_X_Y, opcodes::OP_CMP_16_IX, Handler::Basic(BasicOp::Cmp16Ix))
    } else if i == 42 {
        (opcodes::MASK_OUT_X, opcodes::OP_CMP_16_AW, Handler::Basic(BasicOp::Cmp16Aw))
    } else if i == 43 {
        (opcodes::MASK_OUT_X, opcodes::OP_CMP_16_AL, Handler::Basic(BasicOp::Cmp16Al))
    } else if i == 44 {
        (opcodes::MASK_OUT_X, opcodes::OP_CMP_16_PCDI, Handler::Basic(BasicOp::Cmp16Pcdi))
    } else if i == 45 {
        (opcodes::MASK_OUT_X, opcodes::OP_CMP_16_PCIX, Handler::Basic(BasicOp::Cmp16Pcix))
    } else if i == 46 {
        (opcodes::MASK_OUT_X, opcodes::OP_CMP_16_IMM, Handler::Basic(BasicOp::Cmp16Imm))
    } else if i == 47 {
        (opcodes::MASK_OUT_X_Y, opcodes::OP_CMP_32_DN, Handler::Basic(BasicOp::Cmp32Dn))
    } else if i == 48 {
        (opcodes::MASK_OUT_X_Y, opcodes::OP_CMP_32_AN, Handler::Basic(BasicOp::Cmp32An))
    } else if i == 49 {
        (opcodes::MASK_OUT_X_Y, opcodes::OP_CMP_32_AI, Handler::Basic(BasicOp::Cmp32Ai))
    } else if i == 50 {
        (opcodes::MASK_OUT_X_Y, opcodes::OP_CMP_32_PI, Handler::Basic(BasicOp::Cmp32Pi))
    } else if i == 51 {
        (opcodes::MASK_OUT_X_Y, opcodes::OP_CMP_32_PD, Handler::Basic(BasicOp::Cmp32Pd))
    } else if i == 52 {
        (opcodes::MASK_OUT_X_Y, opcodes::OP_CMP_32_DI, Handler::Basic(BasicOp::Cmp32Di))
    } else if i == 53 {
        (opcodes::MASK_OUT_X_Y, opcodes::OP_CMP_32_IX, Handler::Basic(BasicOp::Cmp32Ix))
    } else if i == 54 {
        (opcodes::MASK_OUT_X, opcodes::OP_CMP_32_AW, Handler::Basic(BasicOp::Cmp32Aw))
    } else if i == 55 {
        (opcodes::MASK_OUT_X, opcodes::OP_CMP_32_AL, Handler::Basic(BasicOp::Cmp32Al))
    } else if i == 56 {
        (opcodes::MASK_OUT_X, opcodes::OP_CMP_32_PCDI, Handler::Basic(BasicOp::Cmp32Pcdi))
    } else if i == 57 {
        (opcodes::MASK_OUT_X, opcodes::OP_CMP_32_PCIX, Handler::Basic(BasicOp::Cmp32Pcix))
    } else if i == 58 {
        (opcodes::MASK_OUT_X, opcodes::OP_CMP_32_IMM, Handler::Basic(BasicOp::Cmp32Imm))
    } else if i == 59 {
        (opcodes::MASK_OUT_X_Y, opcodes::OP_CMPM_8, Handler::Basic(BasicOp::Cmpm8))
    } else if i == 60 {
        (opcodes::MASK_OUT_X_Y, opcodes::OP_CMPM_16, Handler::Basic(BasicOp::Cmpm16))
    } else if i == 61 {
        (opcodes::MASK_OUT_X_Y, opcodes::OP_CMPM_32, Handler::Basic(BasicOp::Cmpm32))
    } else if i == 62 {
        (opcodes::MASK_OUT_X_Y, opcodes::OP_CMPA_16_DN, Handler::Arith(ops::arith::ArithOp::Cmpa16Dn))
    } else if i == 63 {
        (opcodes::MASK_OUT_X_Y, opcodes::OP_CMPA_16_AN, Handler::Arith(ops::arith::ArithOp::Cmpa16An))
    } else if i == 64 {
        (opcodes::MASK_OUT_X_Y, opcodes::OP_CMPA_16_AI, Handler::Arith(ops::arith::ArithOp::Cmpa16Ai))
    } else if i == 65 {
        (opcodes::MASK_OUT_X_Y, opcodes::OP_CMPA_16_PI, Handler::Arith(ops::arith::ArithOp::Cmpa16Pi))
    } else if i == 66 {
        (opcodes::MASK_OUT_X_Y, opcodes::OP_CMPA_16_PD, Handler::Arith(ops::arith::ArithOp::Cmpa16Pd))
    } else if i == 67 {
        (opcodes::MASK_OUT_X_Y, opcodes::OP_CMPA_16_DI, Handler::Arith(ops::arith::ArithOp::Cmpa16Di))
    } else if i == 68 {
        (opcodes::MASK_OUT_X_Y, opcodes::OP_CMPA_16_IX, Handler::Arith(ops::arith::ArithOp::Cmpa16Ix))
    } else if i == 69 {
        (opcodes::MASK_OUT_X, opcodes::OP_CMPA_16_AW, Handler::Arith(ops::arith::ArithOp::Cmpa16Aw))
    } else if i == 70 {
        (opcodes::MASK_OUT_X, opcodes::OP_CMPA_16_AL, Handler::Arith(ops::arith::ArithOp::Cmpa16Al))
    } else if i == 71 {
        (opcodes::MASK_OUT_X, opcodes::OP_CMPA_16_PCDI, Handler::Arith(ops::arith::ArithOp::Cmpa16Pcdi))
    } else if i == 72 {
        (opcodes::MASK_OUT_X, opcodes::OP_CMPA_16_PCIX, Handler::Arith(ops::arith::ArithOp::Cmpa16Pcix))
    } else if i == 73 {
        (opcodes::MASK_OUT_X, opcodes::OP_CMPA_16_IMM, Handler::Arith(ops::arith::ArithOp::Cmpa16Imm))
    } else if i == 74 {
        (opcodes::MASK_OUT_X_Y, opcodes::OP_CMPA_32_DN, Handler::Arith(ops::arith::ArithOp::Cmpa32Dn))
    } else if i == 75 {
        (opcodes::MASK_OUT_X_Y, opcodes::OP_CMPA_32_AN, Handler::Arith(ops::arith::ArithOp::Cmpa32An))
    } else if i == 76 {
        (opcodes::MASK_OUT_X_Y, opcodes::OP_CMPA_32_AI, Handler::Arith(ops::arith::ArithOp::Cmpa32Ai))
    } else if i == 77 {
        (opcodes::MASK_OUT_X_Y, opcodes::OP_CMPA_32_PI, Handler::Arith(ops::arith::ArithOp::Cmpa32Pi))
    } else if i == 78 {
        (opcodes::MASK_OUT_X_Y, opcodes::OP_CMPA_32_PD, Handler::Arith(ops::arith::ArithOp::Cmpa32Pd))
    } else if i == 79 {
        (opcodes::MASK_OUT_X_Y, opcodes::OP_CMPA_32_DI, Handler::Arith(ops::arith::ArithOp::Cmpa32Di))
    } else if i == 80 {
        (opcodes::MASK_OUT_X_Y, opcodes::OP_CMPA_32_IX, Handler::Arith(ops::arith::ArithOp::Cmpa32Ix))
    } else if i == 81 {
        (opcodes::MASK_OUT_X, opcodes::OP_CMPA_32_AW, Handler::Arith(ops::arith::ArithOp::Cmpa32Aw))
    } else if i == 82 {
        (opcodes::MASK_OUT_X, opcodes::OP_CMPA_32_AL, Handler::Arith(ops::arith::ArithOp::Cmpa32Al))
    } else if i == 83 {
        (opcodes::MASK_OUT_X, opcodes::OP_CMPA_32_PCDI, Handler::Arith(ops::arith::ArithOp::Cmpa32Pcdi))
    } else if i == 84 {
        (opcodes::MASK_OUT_X, opcodes::OP_CMPA_32_PCIX, Handler::Arith(ops::arith::ArithOp::Cmpa32Pcix))
    } else {
        (opcodes::MASK_OUT_X, opcodes::OP_CMPA_32_IMM, Handler::Arith(ops::arith::ArithOp::Cmpa32Imm))
    }
}

fn group_11_at(i: usize) -> (r: (u32, u32, Handler))
    requires
        i < group_size(11),
    ensures
        r == group_11(i as int),
{
    match i {
        0 => (opcodes::MASK_OUT_X_Y, opcodes::OP_EOR_8_DN, Handler::Basic(BasicOp::Eor8Dn)),
        1 => (opcodes::MASK_OUT_X_Y, opcodes::OP_EOR_8_AI, Handler::Basic(BasicOp::Eor8Ai)),
        2 => (opcodes::MASK_OUT_X_Y, opcodes::OP_EOR_8_PI, Handler::Basic(BasicOp::Eor8Pi)),
        3 => (opcodes::MASK_OUT_X_Y, opcodes::OP_EOR_8_PD, Handler::Basic(BasicOp::Eor8Pd)),
        4 => (opcodes::MASK_OUT_X_Y, opcodes::OP_EOR_8_DI, Handler::Basic(BasicOp::Eor8Di)),
        5 => (opcodes::MASK_OUT_X_Y, opcodes::OP_EOR_8_IX, Handler::Basic(BasicOp::Eor8Ix)),
        6 => (opcodes::MASK_OUT_X, opcodes::OP_EOR_8_AW, Handler::Basic(BasicOp::Eor8Aw)),
        7 => (opcodes::MASK_OUT_X, opcodes::OP_EOR_8_AL, Handler::Basic(BasicOp::Eor8Al)),
        8 => (opcodes::MASK_OUT_X_Y, opcodes::OP_EOR_16_DN, Handler::Basic(BasicOp::Eor16Dn)),
        9 => (opcodes::MASK_OUT_X_Y, opcodes::OP_EOR_16_AI, Handler::Basic(BasicOp::Eor16Ai)),
        10 => (opcodes::MASK_OUT_X_Y, opcodes::OP_EOR_16_PI, Handler::Basic(BasicOp::Eor16Pi)),
        11 => (opcodes::MASK_OUT_X_Y, opcodes::OP_EOR_16_PD, Handler::Basic(BasicOp::Eor16Pd)),
        12 => (opcodes::MASK_OUT_X_Y, opcodes::OP_EOR_16_DI, Handler::Basic(BasicOp::Eor16Di)),
        13 => (opcodes::MASK_OUT_X_Y, opcodes::OP_EOR_16_IX, Handler::Basic(BasicOp::Eor16Ix)),
        14 => (opcodes::MASK_OUT_X, opcodes::OP_EOR_16_AW, Handler::Basic(BasicOp::Eor16Aw)),
        15 => (opcodes::MASK_OUT_X, opcodes::OP_EOR_16_AL, Handler::Basic(BasicOp::Eor16Al)),
        16 => (opcodes::MASK_OUT_X_Y, opcodes::OP_EOR_32_DN, Handler::Basic(BasicOp::Eor32Dn)),
        17 => (opcodes::MASK_OUT_X_Y, opcodes::OP_EOR_32_AI, Handler::Basic(BasicOp::Eor32Ai)),
        18 => (opcodes::MASK_OUT_X_Y, opcodes::OP_EOR_32_PI, Handler::Basic(BasicOp::Eor32Pi)),
        19 => (opcodes::MASK_OUT_X_Y, opcodes::OP_EOR_32_PD, Handler::Basic(BasicOp::Eor32Pd)),
        20 => (opcodes::MASK_OUT_X_Y, opcodes::OP_EOR_32_DI, Handler::Basic(BasicOp::Eor32Di)),
        21 => (opcodes::MASK_OUT_X_Y, opcodes::OP_EOR_32_IX, Handler::Basic(BasicOp::Eor32Ix)),
        22 => (opcodes::MASK_OUT_X, opcodes::OP_EOR_32_AW, Handler::Basic(BasicOp::Eor32Aw)),
        23 => (opcodes::MASK_OUT_X, opcodes::OP_EOR_32_AL, Handler::Basic(BasicOp::Eor32Al)),
        24 => (opcodes::MASK_OUT_X_Y, opcodes::OP_CMP_8_DN, Handler::Basic(BasicOp::Cmp8Dn)),
        25 => (opcodes::MASK_OUT_X_Y, opcodes::OP_CMP_8_AI, Handler::Basic(BasicOp::Cmp8Ai)),
        26 => (opcodes::MASK_OUT_X_Y, opcodes::OP_CMP_8_PI, Handler::Basic(BasicOp::Cmp8Pi)),
        27 => (opcodes::MASK_OUT_X_Y, opcodes::OP_CMP_8_PD, Handler::Basic(BasicOp::Cmp8Pd)),
        28 => (opcodes::MASK_OUT_X_Y, opcodes::OP_CMP_8_DI, Handler::Basic(BasicOp::Cmp8Di)),
        29 => (opcodes::MASK_OUT_X_Y, opcodes::OP_CMP_8_IX, Handler::Basic(BasicOp::Cmp8Ix)),
        30 => (opcodes::MASK_OUT_X, opcodes::OP_CMP_8_AW, Handler::Basic(BasicOp::Cmp8Aw)),
        31 => (opcodes::MASK_OUT_X, opcodes::OP_CMP_8_AL, Handler::Basic(BasicOp::Cmp8Al)),
        32 => (opcodes::MASK_OUT_X, opcodes::OP_CMP_8_PCDI, Handler::Basic(BasicOp::Cmp8Pcdi)),
        33 => (opcodes::MASK_OUT_X, opcodes::OP_CMP_8_PCIX, Handler::Basic(BasicOp::Cmp8Pcix)),
        34 => (opcodes::MASK_OUT_X, opcodes::OP_CMP_8_IMM, Handler::Basic(BasicOp::Cmp8Imm)),
        35 => (opcodes::MASK_OUT_X_Y, opcodes::OP_CMP_16_DN, Handler::Basic(BasicOp::Cmp16Dn)),
        36 => (opcodes::MASK_OUT_X_Y, opcodes::OP_CMP_16_AN, Handler::Basic(BasicOp::Cmp16An)),
        37 => (opcodes::MASK_OUT_X_Y, opcodes::OP_CMP_16_AI, Handler::Basic(BasicOp::Cmp16Ai)),
        38 => (opcodes::MASK_OUT_X_Y, opcodes::OP_CMP_16_PI, Handler::Basic(BasicOp::Cmp16Pi)),
        39 => (opcodes::MASK_OUT_X_Y, opcodes::OP_CMP_16_PD, Handler::Basic(BasicOp::Cmp16Pd)),
        40 => (opcodes::MASK_OUT_X_Y, opcodes::OP_CMP_16_DI, Handler::Basic(BasicOp::Cmp16Di)),
        41 => (opcodes::MASK_OUT_X_Y, opcodes::OP_CMP_16_IX, Handler::Basic(BasicOp::Cmp16Ix)),
        42 => (opcodes::MASK_OUT_X, opcodes::OP_CMP_16_AW, Handler::Basic(BasicOp::Cmp16Aw)),
        43 => (opcodes::MASK_OUT_X, opcodes::OP_CMP_16_AL, Handler::Basic(BasicOp::Cmp16Al)),
        44 => (opcodes::MASK_OUT_X, opcodes::OP_CMP_16_PCDI, Handler::Basic(BasicOp::Cmp16Pcdi)),
        45 => (opcodes::MASK_OUT_X, opcodes::OP_CMP_16_PCIX, Handler::Basic(BasicOp::Cmp16Pcix)),
        46 => (opcodes::MASK_OUT_X, opcodes::OP_CMP_16_IMM, Handler::Basic(BasicOp::Cmp16Imm)),
        47 => (opcodes::MASK_OUT_X_Y, opcodes::OP_CMP_32_DN, Handler::Basic(BasicOp::Cmp32Dn)),
        48 => (opcodes::MASK_OUT_X_Y, opcodes::OP_CMP_32_AN, Handler::Basic(BasicOp::Cmp32An)),
        49 => (opcodes::MASK_OUT_X_Y, opcodes::OP_CMP_32_AI, Handler::Basic(BasicOp::Cmp32Ai)),
        50 => (opcodes::MASK_OUT_X_Y, opcodes::OP_CMP_32_PI, Handler::Basic(BasicOp::Cmp32Pi)),
        51 => (opcodes::MASK_OUT_X_Y, opcodes::OP_CMP_32_PD, Handler::Basic(BasicOp::Cmp32Pd)),
        52 => (opcodes::MASK_OUT_X_Y, opcodes::OP_CMP_32_DI, Handler::Basic(BasicOp::Cmp32Di)),
        53 => (opcodes::MASK_OUT_X_Y, opcodes::OP_CMP_32_IX, Handler::Basic(BasicOp::Cmp32Ix)),
        54 => (opcodes::MASK_OUT_X, opcodes::OP_CMP_32_AW, Handler::Basic(BasicOp::Cmp32Aw)),
        55 => (opcodes::MASK_OUT_X, opcodes::OP_CMP_32_AL, Handler::Basic(BasicOp::Cmp32Al)),
        56 => (opcodes::MASK_OUT_X, opcodes::OP_CMP_32_PCDI, Handler::Basic(BasicOp::Cmp32Pcdi)),
        57 => (opcodes::MASK_OUT_X, opcodes::OP_CMP_32_PCIX, Handler::Basic(BasicOp::Cmp32Pcix)),
        58 => (opcodes::MASK_OUT_X, opcodes::OP_CMP_32_IMM, Handler::Basic(BasicOp::Cmp32Imm)),
        59 => (opcodes::MASK_OUT_X_Y, opcodes::OP_CMPM_8, Handler::Basic(BasicOp::Cmpm8)),
        60 => (opcodes::MASK_OUT_X_Y, opcodes::OP_CMPM_16, Handler::Basic(BasicOp::Cmpm16)),
        61 => (opcodes::MASK_OUT_X_Y, opcodes::OP_CMPM_32, Handler::Basic(BasicOp::Cmpm32)),
        62 => (opcodes::MASK_OUT_X_Y, opcodes::OP_CMPA_16_DN, Handler::Arith(ops::arith::ArithOp::Cmpa16Dn)),
        63 => (opcodes::MASK_OUT_X_Y, opcodes::OP_CMPA_16_AN, Handler::Arith(ops::arith::ArithOp::Cmpa16An)),
        64 => (opcodes::MASK_OUT_X_Y, opcodes::OP_CMPA_16_AI, Handler::Arith(ops::arith::ArithOp::Cmpa16Ai)),
        65 => (opcodes::MASK_OUT_X_Y, opcodes::OP_CMPA_16_PI, Handler::Arith(ops::arith::ArithOp::Cmpa16Pi)),
        66 => (opcodes::MASK_OUT_X_Y, opcodes::OP_CMPA_16_PD, Handler::Arith(ops::arith::ArithOp::Cmpa16Pd)),
        67 => (opcodes::MASK_OUT_X_Y, opcodes::OP_CMPA_16_DI, Handler::Arith(ops::arith::ArithOp::Cmpa16Di)),
        68 => (opcodes::MASK_OUT_X_Y, opcodes::OP_CMPA_16_IX, Handler::Arith(ops::arith::ArithOp::Cmpa16Ix)),
        69 => (opcodes::MASK_OUT_X, opcodes::OP_CMPA_16_AW, Handler::Arith(ops::arith::ArithOp::Cmpa16Aw)),
        70 => (opcodes::MASK_OUT_X, opcodes::OP_CMPA_16_AL, Handler::Arith(ops::arith::ArithOp::Cmpa16Al)),
        71 => (opcodes::MASK_OUT_X, opcodes::OP_CMPA_16_PCDI, Handler::Arith(ops::arith::ArithOp::Cmpa16Pcdi)),
        72 => (opcodes::MASK_OUT_X, opcodes::OP_CMPA_16_PCIX, Handler::Arith(ops::arith::ArithOp::Cmpa16Pcix)),
        73 => (opcodes::MASK_OUT_X, opcodes::OP_CMPA_16_IMM, Handler::Arith(ops::arith::ArithOp::Cmpa16Imm)),
        74 => (opcodes::MASK_OUT_X_Y, opcodes::OP_CMPA_32_DN, Handler::Arith(ops::arith::ArithOp::Cmpa32Dn)),
        75 => (opcodes::MASK_OUT_X_Y, opcodes::OP_CMPA_32_AN, Handler::Arith(ops::arith::ArithOp::Cmpa32An)),
        76 => (opcodes::MASK_OUT_X_Y, opcodes::OP_CMPA_32_AI, Handler::Arith(ops::arith::ArithOp::Cmpa32Ai)),
        77 => (opcodes::MASK_OUT_X_Y, opcodes::OP_CMPA_32_PI, Handler::Arith(ops::arith::ArithOp::Cmpa32Pi)),
        78 => (opcodes::MASK_OUT_X_Y, opcodes::OP_CMPA_32_PD, Handler::Arith(ops::arith::ArithOp::Cmpa32Pd)),
        79 => (opcodes::MASK_OUT_X_Y, opcodes::OP_CMPA_32_DI, Handler::Arith(ops::arith::ArithOp::Cmpa32Di)),
        80 => (opcodes::MASK_OUT_X_Y, opcodes::OP_CMPA_32_IX, Handler::Arith(ops::arith::ArithOp::Cmpa32Ix)),
        81 => (opcodes::MASK_OUT_X, opcodes::OP_CMPA_32_AW, Handler::Arith(ops::arith::ArithOp::Cmpa32Aw)),
        82 => (opcodes::MASK_OUT_X, opcodes::OP_CMPA_32_AL, Handler::Arith(ops::arith::ArithOp::Cmpa32Al)),
        83 => (opcodes::MASK_OUT_X, opcodes::OP_CMPA_32_PCDI, Handler::Arith(ops::arith::ArithOp::Cmpa32Pcdi)),
        84 => (opcodes::MASK_OUT_X, opcodes::OP_CMPA_32_PCIX, Handler::Arith(ops::arith::ArithOp::Cmpa32Pcix)),
        _ => (opcodes::MASK_OUT_X, opcodes::OP_CMPA_32_IMM, Handler::Arith(ops::arith::ArithOp::Cmpa32Imm)),
    }
}

/// The instruction patterns of group 12, in the order they are tried.
pub open spec fn group_12(i: int) -> (u32, u32, Handler) {
    if i == 0 {
        (opcodes::MASK_OUT_X, opcodes::OP_EXG_32_DD, Handler::Basic(BasicOp::Exg32Dd))
    } else if i == 1 {
        (opcodes::MASK_OUT_X, opcodes::OP_EXG_32_AA, Handler::Basic(BasicOp::Exg32Aa))
    } else if i == 2 {
        (opcodes::MASK_OUT_X, opcodes::OP_EXG_32_DA, Handler::Basic(BasicOp::Exg32Da))
    } else if i == 3 {
        (opcodes::MASK_OUT_X_Y, opcodes::OP_AND_8_ER_DN, Handler::Basic(BasicOp::And8ErDn))
    } else if i == 4 {
        (opcodes::MASK_OUT_X_Y, opcodes::OP_AND_8_ER_AI, Handler::Basic(BasicOp::And8ErAi))
    } else if i == 5 {
        (opcodes::MASK_OUT_X_Y, opcodes::OP_AND_8_ER_PI, Handler::Basic(BasicOp::And8ErPi))
    } else if i == 6 {
        (opcodes::MASK_OUT_X_Y, opcodes::OP_AND_8_ER_PD, Handler::Basic(BasicOp::And8ErPd))
    } else if i == 7 {
        (opcodes::MASK_OUT_X_Y, opcodes::OP_AND_8_ER_DI, Handler::Basic(BasicOp::And8ErDi))
    } else if i == 8 {
        (opcodes::MASK_OUT_X_Y, opcodes::OP_AND_8_ER_IX, Handler::Basic(BasicOp::And8ErIx))
    } else if i == 9 {
        (opcodes::MASK_OUT_X, opcodes::OP_AND_8_ER_AW, Handler::Basic(BasicOp::And8ErAw))
    } else if i == 10 {
        (opcodes::MASK_OUT_X, opcodes::OP_AND_8_ER_AL, Handler::Basic(BasicOp::And8ErAl))
    } else if i == 11 {
        (opcodes::MASK_OUT_X, opcodes::OP_AND_8_ER_PCDI, Handler::Basic(BasicOp::And8ErPcdi))
    } else if i == 12 {
        (opcodes::MASK_OUT_X, opcodes::OP_AND_8_ER_PCIX, Handler::Basic(BasicOp::And8ErPcix))
    } else if i == 13 {
        (opcodes::MASK_OUT_X, opcodes::OP_AND_8_ER_IMM, Handler::Basic(BasicOp::And8ErImm))
    } else if i == 14 {
        (opcodes::MASK_OUT_X_Y, opcodes::OP_AND_8_RE_AI, Handler::Basic(BasicOp::And8ReAi))
    } else if i == 15 {
        (opcodes::MASK_OUT_X_Y, opcodes::OP_AND_8_RE_PI, Handler::Basic(BasicOp::And8RePi))
    } else if i == 16 {
        (opcodes::MASK_OUT_X_Y, opcodes::OP_AND_8_RE_PD, Handler::Basic(BasicOp::And8RePd))
    } else if i == 17 {
        (opcodes::MASK_OUT_X_Y, opcodes::OP_AND_8_RE_DI, Handler::Basic(BasicOp::And8ReDi))
    } else if i == 18 {
        (opcodes::MASK_OUT_X_Y, opcodes::OP_AND_8_RE_IX, Handler::Basic(BasicOp::And8ReIx))
    } else if i == 19 {
        (opcodes::MASK_OUT_X, opcodes::OP_AND_8_RE_AW, Handler::Basic(BasicOp::And8ReAw))
    } else if i == 20 {
        (opcodes::MASK_OUT_X, opcodes::OP_AND_8_RE_AL, Handler::Basic(BasicOp::And8ReAl))
    } else if i == 21 {
        (opcodes::MASK_OUT_X_Y, opcodes::OP_AND_16_ER_DN, Handler::Basic(BasicOp::And16ErDn))
    } else if i == 22 {
        (opcodes::MASK_OUT_X_Y, opcodes::OP_AND_16_ER_AI, Handler::Basic(BasicOp::And16ErAi))
    } else if i == 23 {
        (opcodes::MASK_OUT_X_Y, opcodes::OP_AND_16_ER_PI, Handler::Basic(BasicOp::And16ErPi))
    } else if i == 24 {
        (opcodes::MASK_OUT_X_Y, opcodes::OP_AND_16_ER_PD, Handler::Basic(BasicOp::And16ErPd))
    } else if i == 25 {
        (opcodes::MASK_OUT_X_Y, opcodes::OP_AND_16_ER_DI, Handler::Basic(BasicOp::And16ErDi))
    } else if i == 26 {
        (opcodes::MASK_OUT_X_Y, opcodes::OP_AND_16_ER_IX, Handler::Basic(BasicOp::And16ErIx))
    } else if i == 27 {
        (opcodes::MASK_OUT_X, opcodes::OP_AND_16_ER_AW, Handler::Basic(BasicOp::And16ErAw))
    } else if i == 28 {
        (opcodes::MASK_OUT_X, opcodes::OP_AND_16_ER_AL, Handler::Basic(BasicOp::And16ErAl))
    } else if i == 29 {
        (opcodes::MASK_OUT_X, opcodes::OP_AND_16_ER_PCDI, Handler::Basic(BasicOp::And16ErPcdi))
    } else if i == 30 {
        (opcodes::MASK_OUT_X, opcodes::OP_AND_16_ER_PCIX, Handler::Basic(BasicOp::And16ErPcix))
    } else if i == 31 {
        (opcodes::MASK_OUT_X, opcodes::OP_AND_16_ER_IMM, Handler::Basic(BasicOp::And16ErImm))
    } else if i == 32 {
        (opcodes::MASK_OUT_X_Y, opcodes::OP_AND_16_RE_AI, Handler::Basic(BasicOp::And16ReAi))
    } else if i == 33 {
        (opcodes::MASK_OUT_X_Y, opcodes::OP_AND_16_RE_PI, Handler::Basic(BasicOp::And16RePi))
    } else if i == 34 {
        (opcodes::MASK_OUT_X_Y, opcodes::OP_AND_16_RE_PD, Handler::Basic(BasicOp::And16RePd))
    } else if i == 35 {
        (opcodes::MASK_OUT_X_Y, opcodes::OP_AND_16_RE_DI, Handler::Basic(BasicOp::And16ReDi))
    } else if i == 36 {
        (opcodes::MASK_OUT_X_Y, opcodes::OP_AND_16_RE_IX, Handler::Basic(BasicOp::And16ReIx))
    } else if i == 37 {
        (opcodes::MASK_OUT_X, opcodes::OP_AND_16_RE_AW, Handler::Basic(BasicOp::And16ReAw))
    } else if i == 38 {
        (opcodes::MASK_OUT_X, opcodes::OP_AND_16_RE_AL, Handler::Basic(BasicOp::And16ReAl))
    } else if i == 39 {
        (opcodes::MASK_OUT_X_Y, opcodes::OP_AND_32_ER_DN, Handler::Basic(BasicOp::And32ErDn))
    } else if i == 40 {
        (opcodes::MASK_OUT_X_Y, opcodes::OP_AND_32_ER_AI, Handler::Basic(BasicOp::And32ErAi))
    } else if i == 41 {
        (opcodes::MASK_OUT_X_Y, opcodes::OP_AND_32_ER_PI, Handler::Basic(BasicOp::And32ErPi))
    } else if i == 42 {
        (opcodes::MASK_OUT_X_Y, opcodes::OP_AND_32_ER_PD, Handler::Basic(BasicOp::And32ErPd))
    } else if i == 43 {
        (opcodes::MASK_OUT_X_Y, opcodes::OP_AND_32_ER_DI, Handler::Basic(BasicOp::And32ErDi))
    } else if i == 44 {
        (opcodes::MASK_OUT_X_Y, opcodes::OP_AND_32_ER_IX, Handler::Basic(BasicOp::And32ErIx))
    } else if i == 45 {
        (opcodes::MASK_OUT_X, opcodes::OP_AND_32_ER_AW, Handler::Basic(BasicOp::And32ErAw))
    } else if i == 46 {
        (opcodes::MASK_OUT_X, opcodes::OP_AND_32_ER_AL, Handler::Basic(BasicOp::And32ErAl))
    } else if i == 47 {
        (opcodes::MASK_OUT_X, opcodes::OP_AND_32_ER_PCDI, Handler::Basic(BasicOp::And32ErPcdi))
    } else if i == 48 {
        (opcodes::MASK_OUT_X, opcodes::OP_AND_32_ER_PCIX, Handler::Basic(BasicOp::And32ErPcix))
    } else if i == 49 {
        (opcodes::MASK_OUT_X, opcodes::OP_AND_32_ER_IMM, Handler::Basic(BasicOp::And32ErImm))
    } else if i == 50 {
        (opcodes::MASK_OUT_X_Y, opcodes::OP_AND_32_RE_AI, Handler::Basic(BasicOp::And32ReAi))
    } else if i == 51 {
        (opcodes::MASK_OUT_X_Y, opcodes::OP_AND_32_RE_PI, Handler::Basic(BasicOp::And32RePi))
    } else if i == 52 {
        (opcodes::MASK_OUT_X_Y, opcodes::OP_AND_32_RE_PD, Handler::Basic(BasicOp::And32RePd))
    } else if i == 53 {
        (opcodes::MASK_OUT_X_Y, opcodes::OP_AND_32_RE_DI, Handler::Basic(BasicOp::And32ReDi))
    } else if i == 54 {
        (opcodes::MASK_OUT_X_Y, opcodes::OP_AND_32_RE_IX, Handler::Basic(BasicOp::And32ReIx))
    } else if i == 55 {
        (opcodes::MASK_OUT_X, opcodes::OP_AND_32_RE_AW, Handler::Basic(BasicOp::And32ReAw))
    } else if i == 56 {
        (opcodes::MASK_OUT_X, opcodes::OP_AND_32_RE_AL, Handler::Basic(BasicOp::And32ReAl))
    } else if i == 57 {
        (opcodes::MASK_OUT_X_Y, opcodes::OP_ABCD_8_RR, Handler::Basic(BasicOp::Abcd8Rr))
    } else if i == 58 {
        (opcodes::MASK_OUT_X_Y, opcodes::OP_ABCD_8_MM, Handler::Basic(BasicOp::Abcd8Mm))
    } else if i == 59 {
        (opcodes::MASK_OUT_X_Y, opcodes::OP_MULS_16_DN, Handler::Arith(ops::arith::ArithOp::Muls16Dn))
    } else if i == 60 {
        (opcodes::MASK_OUT_X_Y, opcodes::OP_MULS_16_AI, Handler::Arith(ops::arith::ArithOp::Muls16Ai))
    } else if i == 61 {
        (opcodes::MASK_OUT_X_Y, opcodes::OP_MULS_16_PI, Handler::Arith(ops::arith::ArithOp::Muls16Pi))
    } else if i == 62 {
        (opcodes::MASK_OUT_X_Y, opcodes::OP_MULS_16_PD, Handler::Arith(ops::arith::ArithOp::Muls16Pd))
    } else if i == 63 {
        (opcodes::MASK_OUT_X_Y, opcodes::OP_MULS_16_DI, Handler::Arith(ops::arith::ArithOp::Muls16Di))
    } else if i == 64 {
        (opcodes::MASK_OUT_X_Y, opcodes::OP_MULS_16_IX, Handler::Arith(ops::arith::ArithOp::Muls16Ix))
    } else if i == 65 {
        (opcodes::MASK_OUT_X, opcodes::OP_MULS_16_AW, Handler::Arith(ops::arith::ArithOp::Muls16Aw))
    } else if i == 66 {
        (opcodes::MASK_OUT_X, opcodes::OP_MULS_16_AL, Handler::Arith(ops::arith::ArithOp::Muls16Al))
    } else if i == 67 {
        (opcodes::MASK_OUT_X, opcodes::OP_MULS_16_PCDI, Handler::Arith(ops::arith::ArithOp::Muls16Pcdi))
    } else if i == 68 {
        (opcodes::MASK_OUT_X, opcodes::OP_MULS_16_PCIX, Handler::Arith(ops::arith::ArithOp::Muls16Pcix))
    } else if i == 69 {
        (opcodes::MASK_OUT_X, opcodes::OP_MULS_16_IMM, Handler::Arith(ops::arith::ArithOp::Muls16Imm))
    } else if i == 70 {
        (opcodes::MASK_OUT_X_Y, opcodes::OP_MULU_16_DN, Handler::Arith(ops::arith::ArithOp::Mulu16Dn))
    } else if i == 71 {
        (opcodes::MASK_OUT_X_Y, opcodes::OP_MULU_16_AI, Handler::Arith(ops::arith::ArithOp::Mulu16Ai))
    } else if i == 72 {
        (opcodes::MASK_OUT_X_Y, opcodes::OP_MULU_16_PI, Handler::Arith(ops::arith::ArithOp::Mulu16Pi))
    } else if i == 73 {
        (opcodes::MASK_OUT_X_Y, opcodes::OP_MULU_16_PD, Handler::Arith(ops::arith::ArithOp::Mulu16Pd))
    } else if i == 74 {
        (opcodes::MASK_OUT_X_Y, opcodes::OP_MULU_16_DI, Handler::Arith(ops::arith::ArithOp::Mulu16Di))
    } else if i == 75 {
        (opcodes::MASK_OUT_X_Y, opcodes::OP_MULU_16_IX, Handler::Arith(ops::arith::ArithOp::Mulu16Ix))
    } else if i == 76 {
        (opcodes::MASK_OUT_X, opcodes::OP_MULU_16_AW, Handler::Arith(ops::arith::ArithOp::Mulu16Aw))
    } else if i == 77 {
        (opcodes::MASK_OUT_X, opcodes::OP_MULU_16_AL, Handler::Arith(ops::arith::ArithOp::Mulu16Al))
    } else if i == 78 {
        (opcodes::MASK_OUT_X, opcodes::OP_MULU_16_PCDI, Handler::Arith(ops::arith::ArithOp::Mulu16Pcdi))
    } else if i == 79 {
        (opcodes::MASK_OUT_X, opcodes::OP_MULU_16_PCIX, Handler::Arith(ops::arith::ArithOp::Mulu16Pcix))
    } else {
        (opcodes::MASK_OUT_X, opcodes::OP_MULU_16_IMM, Handler::Arith(ops::arith::ArithOp::Mulu16Imm))
    }
}

fn group_12_at(i: usize) -> (r: (u32, u32, Handler))
    requires
        i < group_size(12),
    ensures
        r == group_12(i as int),
{
    match i {
        0 => (opcodes::MASK_OUT_X, opcodes::OP_EXG_32_DD, Handler::Basic(BasicOp::Exg32Dd)),
        1 => (opcodes::MASK_OUT_X, opcodes::OP_EXG_32_AA, Handler::Basic(BasicOp::Exg32Aa)),
        2 => (opcodes::MASK_OUT_X, opcodes::OP_EXG_32_DA, Handler::Basic(BasicOp::Exg32Da)),
        3 => (opcodes::MASK_OUT_X_Y, opcodes::OP_AND_8_ER_DN, Handler::Basic(BasicOp::And8ErDn)),
        4 => (opcodes::MASK_OUT_X_Y, opcodes::OP_AND_8_ER_AI, Handler::Basic(BasicOp::And8ErAi)),
        5 => (opcodes::MASK_OUT_X_Y, opcodes::OP_AND_8_ER_PI, Handler::Basic(BasicOp::And8ErPi)),
        6 => (opcodes::MASK_OUT_X_Y, opcodes::OP_AND_8_ER_PD, Handler::Basic(BasicOp::And8ErPd)),
        7 => (opcodes::MASK_OUT_X_Y, opcodes::OP_AND_8_ER_DI, Handler::Basic(BasicOp::And8ErDi)),
        8 => (opcodes::MASK_OUT_X_Y, opcodes::OP_AND_8_ER_IX, Handler::Basic(BasicOp::And8ErIx)),
        9 => (opcodes::MASK_OUT_X, opcodes::OP_AND_8_ER_AW, Handler::Basic(BasicOp::And8ErAw)),
        10 => (opcodes::MASK_OUT_X, opcodes::OP_AND_8_ER_AL, Handler::Basic(BasicOp::And8ErAl)),
        11 => (opcodes::MASK_OUT_X, opcodes::OP_AND_8_ER_PCDI, Handler::Basic(BasicOp::And8ErPcdi)),
        12 => (opcodes::MASK_OUT_X, opcodes::OP_AND_8_ER_PCIX, Handler::Basic(BasicOp::And8ErPcix)),
        13 => (opcodes::MASK_OUT_X, opcodes::OP_AND_8_ER_IMM, Handler::Basic(BasicOp::And8ErImm)),
        14 => (opcodes::MASK_OUT_X_Y, opcodes::OP_AND_8_RE_AI, Handler::Basic(BasicOp::And8ReAi)),
        15 => (opcodes::MASK_OUT_X_Y, opcodes::OP_AND_8_RE_PI, Handler::Basic(BasicOp::And8RePi)),
        16 => (opcodes::MASK_OUT_X_Y, opcodes::OP_AND_8_RE_PD, Handler::Basic(BasicOp::And8RePd)),
        17 => (opcodes::MASK_OUT_X_Y, opcodes::OP_AND_8_RE_DI, Handler::Basic(BasicOp::And8ReDi)),
        18 => (opcodes::MASK_OUT_X_Y, opcodes::OP_AND_8_RE_IX, Handler::Basic(BasicOp::And8ReIx)),
        19 => (opcodes::MASK_OUT_X, opcodes::OP_AND_8_RE_AW, Handler::Basic(BasicOp::And8ReAw)),
        20 => (opcodes::MASK_OUT_X, opcodes::OP_AND_8_RE_AL, Handler::Basic(BasicOp::And8ReAl)),
        21 => (opcodes::MASK_OUT_X_Y, opcodes::OP_AND_16_ER_DN, Handler::Basic(BasicOp::And16ErDn)),
        22 => (opcodes::MASK_OUT_X_Y, opcodes::OP_AND_16_ER_AI, Handler::Basic(BasicOp::And16ErAi)),
        23 => (opcodes::MASK_OUT_X_Y, opcodes::OP_AND_16_ER_PI, Handler::Basic(BasicOp::And16ErPi)),
        24 => (opcodes::MASK_OUT_X_Y, opcodes::OP_AND_16_ER_PD, Handler::Basic(BasicOp::And16ErPd)),
        25 => (opcodes::MASK_OUT_X_Y, opcodes::OP_AND_16_ER_DI, Handler::Basic(BasicOp::And16ErDi)),
        26 => (opcodes::MASK_OUT_X_Y, opcodes::OP_AND_16_ER_IX, Handler::Basic(BasicOp::And16ErIx)),
        27 => (opcodes::MASK_OUT_X, opcodes::OP_AND_16_ER_AW, Handler::Basic(BasicOp::And16ErAw)),
        28 => (opcodes::MASK_OUT_X, opcodes::OP_AND_16_ER_AL, Handler::Basic(BasicOp::And16ErAl)),
        29 => (opcodes::MASK_OUT_X, opcodes::OP_AND_16_ER_PCDI, Handler::Basic(BasicOp::And16ErPcdi)),
        30 => (opcodes::MASK_OUT_X, opcodes::OP_AND_16_ER_PCIX, Handler::Basic(BasicOp::And16ErPcix)),
        31 => (opcodes::MASK_OUT_X, opcodes::OP_AND_16_ER_IMM, Handler::Basic(BasicOp::And16ErImm)),
        32 => (opcodes::MASK_OUT_X_Y, opcodes::OP_AND_16_RE_AI, Handler::Basic(BasicOp::And16ReAi)),
        33 => (opcodes::MASK_OUT_X_Y, opcodes::OP_AND_16_RE_PI, Handler::Basic(BasicOp::And16RePi)),
        34 => (opcodes::MASK_OUT_X_Y, opcodes::OP_AND_16_RE_PD, Handler::Basic(BasicOp::And16RePd)),
        35 => (opcodes::MASK_OUT_X_Y, opcodes::OP_AND_16_RE_DI, Handler::Basic(BasicOp::And16ReDi)),
        36 => (opcodes::MASK_OUT_X_Y, opcodes::OP_AND_16_RE_IX, Handler::Basic(BasicOp::And16ReIx)),
        37 => (opcodes::MASK_OUT_X, opcodes::OP_AND_16_RE_AW, Handler::Basic(BasicOp::And16ReAw)),
        38 => (opcodes::MASK_OUT_X, opcodes::OP_AND_16_RE_AL, Handler::Basic(BasicOp::And16ReAl)),
        39 => (opcodes::MASK_OUT_X_Y, opcodes::OP_AND_32_ER_DN, Handler::Basic(BasicOp::And32ErDn)),
        40 => (opcodes::MASK_OUT_X_Y, opcodes::OP_AND_32_ER_AI, Handler::Basic(BasicOp::And32ErAi)),
        41 => (opcodes::MASK_OUT_X_Y, opcodes::OP_AND_32_ER_PI, Handler::Basic(BasicOp::And32ErPi)),
        42 => (opcodes::MASK_OUT_X_Y, opcodes::OP_AND_32_ER_PD, Handler::Basic(BasicOp::And32ErPd)),
        43 => (opcodes::MASK_OUT_X_Y, opcodes::OP_AND_32_ER_DI, Handler::Basic(BasicOp::And32ErDi)),
        44 => (opcodes::MASK_OUT_X_Y, opcodes::OP_AND_32_ER_IX, Handler::Basic(BasicOp::And32ErIx)),
        45 => (opcodes::MASK_OUT_X, opcodes::OP_AND_32_ER_AW, Handler::Basic(BasicOp::And32ErAw)),
        46 => (opcodes::MASK_OUT_X, opcodes::OP_AND_32_ER_AL, Handler::Basic(BasicOp::And32ErAl)),
        47 => (opcodes::MASK_OUT_X, opcodes::OP_AND_32_ER_PCDI, Handler::Basic(BasicOp::And32ErPcdi)),
        48 => (opcodes::MASK_OUT_X, opcodes::OP_AND_32_ER_PCIX, Handler::Basic(BasicOp::And32ErPcix)),
        49 => (opcodes::MASK_OUT_X, opcodes::OP_AND_32_ER_IMM, Handler::Basic(BasicOp::And32ErImm)),
        50 => (opcodes::MASK_OUT_X_Y, opcodes::OP_AND_32_RE_AI, Handler::Basic(BasicOp::And32ReAi)),
        51 => (opcodes::MASK_OUT_X_Y, opcodes::OP_AND_32_RE_PI, Handler::Basic(BasicOp::And32RePi)),
        52 => (opcodes::MASK_OUT_X_Y, opcodes::OP_AND_32_RE_PD, Handler::Basic(BasicOp::And32RePd)),
        53 => (opcodes::MASK_OUT_X_Y, opcodes::OP_AND_32_RE_DI, Handler::Basic(BasicOp::And32ReDi)),
        54 => (opcodes::MASK_OUT_X_Y, opcodes::OP_AND_32_RE_IX, Handler::Basic(BasicOp::And32ReIx)),
        55 => (opcodes::MASK_OUT_X, opcodes::OP_AND_32_RE_AW, Handler::Basic(BasicOp::And32ReAw)),
        56 => (opcodes::MASK_OUT_X, opcodes::OP_AND_32_RE_AL, Handler::Basic(BasicOp::And32ReAl)),
        57 => (opcodes::MASK_OUT_X_Y, opcodes::OP_ABCD_8_RR, Handler::Basic(BasicOp::Abcd8Rr)),
        58 => (opcodes::MASK_OUT_X_Y, opcodes::OP_ABCD_8_MM, Handler::Basic(BasicOp::Abcd8Mm)),
        59 => (opcodes::MASK_OUT_X_Y, opcodes::OP_MULS_16_DN, Handler::Arith(ops::arith::ArithOp::Muls16Dn)),
        60 => (opcodes::MASK_OUT_X_Y, opcodes::OP_MULS_16_AI, Handler::Arith(ops::arith::ArithOp::Muls16Ai)),
        61 => (opcodes::MASK_OUT_X_Y, opcodes::OP_MULS_16_PI, Handler::Arith(ops::arith::ArithOp::Muls16Pi)),
        62 => (opcodes::MASK_OUT_X_Y, opcodes::OP_MULS_16_PD, Handler::Arith(ops::arith::ArithOp::Muls16Pd)),
        63 => (opcodes::MASK_OUT_X_Y, opcodes::OP_MULS_16_DI, Handler::Arith(ops::arith::ArithOp::Muls16Di)),
        64 => (opcodes::MASK_OUT_X_Y, opcodes::OP_MULS_16_IX, Handler::Arith(ops::arith::ArithOp::Muls16Ix)),
        65 => (opcodes::MASK_OUT_X, opcodes::OP_MULS_16_AW, Handler::Arith(ops::arith::ArithOp::Muls16Aw)),
        66 => (opcodes::MASK_OUT_X, opcodes::OP_MULS_16_AL, Handler::Arith(ops::arith::ArithOp::Muls16Al)),
        67 => (opcodes::MASK_OUT_X, opcodes::OP_MULS_16_PCDI, Handler::Arith(ops::arith::ArithOp::Muls16Pcdi)),
        68 => (opcodes::MASK_OUT_X, opcodes::OP_MULS_16_PCIX, Handler::Arith(ops::arith::ArithOp::Muls16Pcix)),
        69 => (opcodes::MASK_OUT_X, opcodes::OP_MULS_16_IMM, Handler::Arith(ops::arith::ArithOp::Muls16Imm)),
        70 => (opcodes::MASK_OUT_X_Y, opcodes::OP_MULU_16_DN, Handler::Arith(ops::arith::ArithOp::Mulu16Dn)),
        71 => (opcodes::MASK_OUT_X_Y, opcodes::OP_MULU_16_AI, Handler::Arith(ops::arith::ArithOp::Mulu16Ai)),
        72 => (opcodes::MASK_OUT_X_Y, opcodes::OP_MULU_16_PI, Handler::Arith(ops::arith::ArithOp::Mulu16Pi)),
        73 => (opcodes::MASK_OUT_X_Y, opcodes::OP_MULU_16_PD, Handler::Arith(ops::arith::ArithOp::Mulu16Pd)),
        74 => (opcodes::MASK_OUT_X_Y, opcodes::OP_MULU_16_DI, Handler::Arith(ops::arith::ArithOp::Mulu16Di)),
        75 => (opcodes::MASK_OUT_X_Y, opcodes::OP_MULU_16_IX, Handler::Arith(ops::arith::ArithOp::Mulu16Ix)),
        76 => (opcodes::MASK_OUT_X, opcodes::OP_MULU_16_AW, Handler::Arith(ops::arith::ArithOp::Mulu16Aw)),
        77 => (opcodes::MASK_OUT_X, opcodes::OP_MULU_16_AL, Handler::Arith(ops::arith::ArithOp::Mulu16Al)),
        78 => (opcodes::MASK_OUT_X, opcodes::OP_MULU_16_PCDI, Handler::Arith(ops::arith::ArithOp::Mulu16Pcdi)),
        79 => (opcodes::MASK_OUT_X, opcodes::OP_MULU_16_PCIX, Handler::Arith(ops::arith::ArithOp::Mulu16Pcix)),
        _ => (opcodes::MASK_OUT_X, opcodes::OP_MULU_16_IMM, Handler::Arith(ops::arith::ArithOp::Mulu16Imm)),
    }
}

/// The instruction patterns of group 13, in the order they are tried.
pub open spec fn group_13(i: int) -> (u32, u32, Handler) {
    if i == 0 {
        (opcodes::MASK_OUT_X_Y, opcodes::OP_ADD_8_ER_DN, Handler::Basic(BasicOp::Add8ErDn))
    } else if i == 1 {
        (opcodes::MASK_OUT_X_Y, opcodes::OP_ADD_8_ER_AI, Handler::Basic(BasicOp::Add8ErAi))
    } else if i == 2 {
        (opcodes::MASK_OUT_X_Y, opcodes::OP_ADD_8_ER_PI, Handler::Basic(BasicOp::Add8ErPi))
    } else if i == 3 {
        (opcodes::MASK_OUT_X_Y, opcodes::OP_ADD_8_ER_PD, Handler::Basic(BasicOp::Add8ErPd))
    } else if i == 4 {
        (opcodes::MASK_OUT_X_Y, opcodes::OP_ADD_8_ER_DI, Handler::Basic(BasicOp::Add8ErDi))
    } else if i == 5 {
        (opcodes::MASK_OUT_X_Y, opcodes::OP_ADD_8_ER_IX, Handler::Basic(BasicOp::Add8ErIx))
    } else if i == 6 {
        (opcodes::MASK_OUT_X, opcodes::OP_ADD_8_ER_AW, Handler::Basic(BasicOp::Add8ErAw))
    } else if i == 7 {
        (opcodes::MASK_OUT_X, opcodes::OP_ADD_8_ER_AL, Handler::Basic(BasicOp::Add8ErAl))
    } else if i == 8 {
        (opcodes::MASK_OUT_X, opcodes::OP_ADD_8_ER_PCDI, Handler::Basic(BasicOp::Add8ErPcdi))
    } else if i == 9 {
        (opcodes::MASK_OUT_X, opcodes::OP_ADD_8_ER_PCIX, Handler::Basic(BasicOp::Add8ErPcix))
    } else if i == 10 {
        (opcodes::MASK_OUT_X, opcodes::OP_ADD_8_ER_IMM, Handler::Basic(BasicOp::Add8ErImm))
    } else if i == 11 {
        (opcodes::MASK_OUT_X_Y, opcodes::OP_ADD_8_RE_AI, Handler::Basic(BasicOp::Add8ReAi))
    } else if i == 12 {
        (opcodes::MASK_OUT_X_Y, opcodes::OP_ADD_8_RE_PI, Handler::Basic(BasicOp::Add8RePi))
    } else if i == 13 {
        (opcodes::MASK_OUT_X_Y, opcodes::OP_ADD_8_RE_PD, Handler::Basic(BasicOp::Add8RePd))
    } else if i == 14 {
        (opcodes::MASK_OUT_X_Y, opcodes::OP_ADD_8_RE_DI, Handler::Basic(BasicOp::Add8ReDi))
    } else if i == 15 {
        (opcodes::MASK_OUT_X_Y, opcodes::OP_ADD_8_RE_IX, Handler::Basic(BasicOp::Add8ReIx))
    } else if i == 16 {
        (opcodes::MASK_OUT_X, opcodes::OP_ADD_8_RE_AW, Handler::Basic(BasicOp::Add8ReAw))
    } else if i == 17 {
        (opcodes::MASK_OUT_X, opcodes::OP_ADD_8_RE_AL, Handler::Basic(BasicOp::Add8ReAl))
    } else if i == 18 {
        (opcodes::MASK_OUT_X_Y, opcodes::OP_ADD_16_ER_DN, Handler::Basic(BasicOp::Add16ErDn))
    } else if i == 19 {
        (opcodes::MASK_OUT_X_Y, opcodes::OP_ADD_16_ER_AN, Handler::Basic(BasicOp::Add16ErAn))
    } else if i == 20 {
        (opcodes::MASK_OUT_X_Y, opcodes::OP_ADD_16_ER_AI, Handler::Basic(BasicOp::Add16ErAi))
    } else if i == 21 {
        (opcodes::MASK_OUT_X_Y, opcodes::OP_ADD_16_ER_PI, Handler::Basic(BasicOp::Add16ErPi))
    } else if i == 22 {
        (opcodes::MASK_OUT_X_Y, opcodes::OP_ADD_16_ER_PD, Handler::Basic(BasicOp::Add16ErPd))
    } else if i == 23 {
        (opcodes::MASK_OUT_X_Y, opcodes::OP_ADD_16_ER_DI, Handler::Basic(BasicOp::Add16ErDi))
    } else if i == 24 {
        (opcodes::MASK_OUT_X_Y, opcodes::OP_ADD_16_ER_IX, Handler::Basic(BasicOp::Add16ErIx))
    } else if i == 25 {
        (opcodes::MASK_OUT_X, opcodes::OP_ADD_16_ER_AW, Handler::Basic(BasicOp::Add16ErAw))
    } else if i == 26 {
        (opcodes::MASK_OUT_X, opcodes::OP_ADD_16_ER_AL, Handler::Basic(BasicOp::Add16ErAl))
    } else if i == 27 {
        (opcodes::MASK_OUT_X, opcodes::OP_ADD_16_ER_PCDI, Handler::Basic(BasicOp::Add16ErPcdi))
    } else if i == 28 {
        (opcodes::MASK_OUT_X, opcodes::OP_ADD_16_ER_PCIX, Handler::Basic(BasicOp::Add16ErPcix))
    } else if i == 29 {
        (opcodes::MASK_OUT_X, opcodes::OP_ADD_16_ER_IMM, Handler::Basic(BasicOp::Add16ErImm))
    } else if i == 30 {
        (opcodes::MASK_OUT_X_Y, opcodes::OP_ADD_16_RE_AI, Handler::Basic(BasicOp::Add16ReAi))
    } else if i == 31 {
        (opcodes::MASK_OUT_X_Y, opcodes::OP_ADD_16_RE_PI, Handler::Basic(BasicOp::Add16RePi))
    } else if i == 32 {
        (opcodes::MASK_OUT_X_Y, opcodes::OP_ADD_16_RE_PD, Handler::Basic(BasicOp::Add16RePd))
    } else if i == 33 {
        (opcodes::MASK_OUT_X_Y, opcodes::OP_ADD_16_RE_DI, Handler::Basic(BasicOp::Add16ReDi))
    } else if i == 34 {
        (opcodes::MASK_OUT_X_Y, opcodes::OP_ADD_16_RE_IX, Handler::Basic(BasicOp::Add16ReIx))
    } else if i == 35 {
        (opcodes::MASK_OUT_X, opcodes::OP_ADD_16_RE_AW, Handler::Basic(BasicOp::Add16ReAw))
    } else if i == 36 {
        (opcodes::MASK_OUT_X, opcodes::OP_ADD_16_RE_AL, Handler::Basic(BasicOp::Add16ReAl))
    } else if i == 37 {
        (opcodes::MASK_OUT_X_Y, opcodes::OP_ADD_32_ER_DN, Handler::Basic(BasicOp::Add32ErDn))
    } else if i == 38 {
        (opcodes::MASK_OUT_X_Y, opcodes::OP_ADD_32_ER_AN, Handler::Basic(BasicOp::Add32ErAn))
    } else if i == 39 {
        (opcodes::MASK_OUT_X_Y, opcodes::OP_ADD_32_ER_AI, Handler::Basic(BasicOp::Add32ErAi))
    } else if i == 40 {
        (opcodes::MASK_OUT_X_Y, opcodes::OP_ADD_32_ER_PI, Handler::Basic(BasicOp::Add32ErPi))
    } else if i == 41 {
        (opcodes::MASK_OUT_X_Y, opcodes::OP_ADD_32_ER_PD, Handler::Basic(BasicOp::Add32ErPd))
    } else if i == 42 {
        (opcodes::MASK_OUT_X_Y, opcodes::OP_ADD_32_ER_DI, Handler::Basic(BasicOp::Add32ErDi))
    } else if i == 43 {
        (opcodes::MASK_OUT_X_Y, opcodes::OP_ADD_32_ER_IX, Handler::Basic(BasicOp::Add32ErIx))
    } else if i == 44 {
        (opcodes::MASK_OUT_X, opcodes::OP_ADD_32_ER_AW, Handler::Basic(BasicOp::Add32ErAw))
    } else if i == 45 {
        (opcodes::MASK_OUT_X, opcodes::OP_ADD_32_ER_AL, Handler::Basic(BasicOp::Add32ErAl))
    } else if i == 46 {
        (opcodes::MASK_OUT_X, opcodes::OP_ADD_32_ER_PCDI, Handler::Basic(BasicOp::Add32ErPcdi))
    } else if i == 47 {
        (opcodes::MASK_OUT_X, opcodes::OP_ADD_32_ER_PCIX, Handler::Basic(BasicOp::Add32ErPcix))
    } else if i == 48 {
        (opcodes::MASK_OUT_X, opcodes::OP_ADD_32_ER_IMM, Handler::Basic(BasicOp::Add32ErImm))
    } else if i == 49 {
        (opcodes::MASK_OUT_X_Y, opcodes::OP_ADD_32_RE_AI, Handler::Basic(BasicOp::Add32ReAi))
    } else if i == 50 {
        (opcodes::MASK_OUT_X_Y, opcodes::OP_ADD_32_RE_PI, Handler::Basic(BasicOp::Add32RePi))
    } else if i == 51 {
        (opcodes::MASK_OUT_X_Y, opcodes::OP_ADD_32_RE_PD, Handler::Basic(BasicOp::Add32RePd))
    } else if i == 52 {
        (opcodes::MASK_OUT_X_Y, opcodes::OP_ADD_32_RE_DI, Handler::Basic(BasicOp::Add32ReDi))
    } else if i == 53 {
        (opcodes::MASK_OUT_X_Y, opcodes::OP_ADD_32_RE_IX, Handler::Basic(BasicOp::Add32ReIx))
    } else if i == 54 {
        (opcodes::MASK_OUT_X, opcodes::OP_ADD_32_RE_AW, Handler::Basic(BasicOp::Add32ReAw))
    } else if i == 55 {
        (opcodes::MASK_OUT_X, opcodes::OP_ADD_32_RE_AL, Handler::Basic(BasicOp::Add32ReAl))
    } else if i == 56 {
        (opcodes::MASK_OUT_X_Y, opcodes::OP_ADDX_8_RR, Handler::Basic(BasicOp::Addx8Rr))
    } else if i == 57 {
        (opcodes::MASK_OUT_X_Y, opcodes::OP_ADDX_8_MM, Handler::Basic(BasicOp::Addx8Mm))
    } else if i == 58 {
        (opcodes::MASK_OUT_X_Y, opcodes::OP_ADDX_16_RR, Handler::Basic(BasicOp::Addx16Rr))
    } else if i == 59 {
        (opcodes::MASK_OUT_X_Y, opcodes::OP_ADDX_16_MM, Handler::Basic(BasicOp::Addx16Mm))
    } else if i == 60 {
        (opcodes::MASK_OUT_X_Y, opcodes::OP_ADDX_32_RR, Handler::Basic(BasicOp::Addx32Rr))
    } else if i == 61 {
        (opcodes::MASK_OUT_X_Y, opcodes::OP_ADDX_32_MM, Handler::Basic(BasicOp::Addx32Mm))
    } else if i == 62 {
        (opcodes::MASK_OUT_X_Y, opcodes::OP_ADDA_16_DN, Handler::Arith(ops::arith::ArithOp::Adda16Dn))
    } else if i == 63 {
        (opcodes::MASK_OUT_X_Y, opcodes::OP_ADDA_16_AN, Handler::Arith(ops::arith::ArithOp::Adda16An))
    } else if i == 64 {
        (opcodes::MASK_OUT_X_Y, opcodes::OP_ADDA_16_AI, Handler::Arith(ops::arith::ArithOp::Adda16Ai))
    } else if i == 65 {
        (opcodes::MASK_OUT_X_Y, opcodes::OP_ADDA_16_PI, Handler::Arith(ops::arith::ArithOp::Adda16Pi))
    } else if i == 66 {
        (opcodes::MASK_OUT_X_Y, opcodes::OP_ADDA_16_PD, Handler::Arith(ops::arith::ArithOp::Adda16Pd))
    } else if i == 67 {
        (opcodes::MASK_OUT_X_Y, opcodes::OP_ADDA_16_DI, Handler::Arith(ops::arith::ArithOp::Adda16Di))
    } else if i == 68 {
        (opcodes::MASK_OUT_X_Y, opcodes::OP_ADDA_16_IX, Handler::Arith(ops::arith::ArithOp::Adda16Ix))
    } else if i == 69 {
        (opcodes::MASK_OUT_X, opcodes::OP_ADDA_16_AW, Handler::Arith(ops::arith::ArithOp::Adda16Aw))
    } else if i == 70 {
        (opcodes::MASK_OUT_X, opcodes::OP_ADDA_16_AL, Handler::Arith(ops::arith::ArithOp::Adda16Al))
    } else if i == 71 {
        (opcodes::MASK_OUT_X, opcodes::OP_ADDA_16_PCDI, Handler::Arith(ops::arith::ArithOp::Adda16Pcdi))
    } else if i == 72 {
        (opcodes::MASK_OUT_X, opcodes::OP_ADDA_16_PCIX, Handler::Arith(ops::arith::ArithOp::Adda16Pcix))
    } else if i == 73 {
        (opcodes::MASK_OUT_X, opcodes::OP_ADDA_16_IMM, Handler::Arith(ops::arith::ArithOp::Adda16Imm))
    } else if i == 74 {
        (opcodes::MASK_OUT_X_Y, opcodes::OP_ADDA_32_DN, Handler::Arith(ops::arith::ArithOp::Adda32Dn))
    } else if i == 75 {
        (opcodes::MASK_OUT_X_Y, opcodes::OP_ADDA_32_AN, Handler::Arith(ops::arith::ArithOp::Adda32An))
    } else if i == 76 {
        (opcodes::MASK_OUT_X_Y, opcodes::OP_ADDA_32_AI, Handler::Arith(ops::arith::ArithOp::Adda32Ai))
    } else if i == 77 {
        (opcodes::MASK_OUT_X_Y, opcodes::OP_ADDA_32_PI, Handler::Arith(ops::arith::ArithOp::Adda32Pi))
    } else if i == 78 {
        (opcodes::MASK_OUT_X_Y, opcodes::OP_ADDA_32_PD, Handler::Arith(ops::arith::ArithOp::Adda32Pd))
    } else if i == 79 {
        (opcodes::MASK_OUT_X_Y, opcodes::OP_ADDA_32_DI, Handler::Arith(ops::arith::ArithOp::Adda32Di))
    } else if i == 80 {
        (opcodes::MASK_OUT_X_Y, opcodes::OP_ADDA_32_IX, Handler::Arith(ops::arith::ArithOp::Adda32Ix))
    } else if i == 81 {
        (opcodes::MASK_OUT_X, opcodes::OP_ADDA_32_AW, Handler::Arith(ops::arith::ArithOp::Adda32Aw))
    } else if i == 82 {
        (opcodes::MASK_OUT_X, opcodes::OP_ADDA_32_AL, Handler::Arith(ops::arith::ArithOp::Adda32Al))
    } else if i == 83 {
        (opcodes::MASK_OUT_X, opcodes::OP_ADDA_32_PCDI, Handler::Arith(ops::arith::ArithOp::Adda32Pcdi))
    } else if i == 84 {
        (opcodes::MASK_OUT_X, opcodes::OP_ADDA_32_PCIX, Handler::Arith(ops::arith::ArithOp::Adda32Pcix))
    } else {
        (opcodes::MASK_OUT_X, opcodes::OP_ADDA_32_IMM, Handler::Arith(ops::arith::ArithOp::Adda32Imm))
    }
}

fn group_13_at(i: usize) -> (r: (u32, u32, Handler))
    requires
        i < group_size(13),
    ensures
        r == group_13(i as int),
{
    match i {
        0 => (opcodes::MASK_OUT_X_Y, opcodes::OP_ADD_8_ER_DN, Handler::Basic(BasicOp::Add8ErDn)),
        1 => (opcodes::MASK_OUT_X_Y, opcodes::OP_ADD_8_ER_AI, Handler::Basic(BasicOp::Add8ErAi)),
        2 => (opcodes::MASK_OUT_X_Y, opcodes::OP_ADD_8_ER_PI, Handler::Basic(BasicOp::Add8ErPi)),
        3 => (opcodes::MASK_OUT_X_Y, opcodes::OP_ADD_8_ER_PD, Handler::Basic(BasicOp::Add8ErPd)),
        4 => (opcodes::MASK_OUT_X_Y, opcodes::OP_ADD_8_ER_DI, Handler::Basic(BasicOp::Add8ErDi)),
        5 => (opcodes::MASK_OUT_X_Y, opcodes::OP_ADD_8_ER_IX, Handler::Basic(BasicOp::Add8ErIx)),
        6 => (opcodes::MASK_OUT_X, opcodes::OP_ADD_8_ER_AW, Handler::Basic(BasicOp::Add8ErAw)),
        7 => (opcodes::MASK_OUT_X, opcodes::OP_ADD_8_ER_AL, Handler::Basic(BasicOp::Add8ErAl)),
        8 => (opcodes::MASK_OUT_X, opcodes::OP_ADD_8_ER_PCDI, Handler::Basic(BasicOp::Add8ErPcdi)),
        9 => (opcodes::MASK_OUT_X, opcodes::OP_ADD_8_ER_PCIX, Handler::Basic(BasicOp::Add8ErPcix)),
        10 => (opcodes::MASK_OUT_X, opcodes::OP_ADD_8_ER_IMM, Handler::Basic(BasicOp::Add8ErImm)),
        11 => (opcodes::MASK_OUT_X_Y, opcodes::OP_ADD_8_RE_AI, Handler::Basic(BasicOp::Add8ReAi)),
        12 => (opcodes::MASK_OUT_X_Y, opcodes::OP_ADD_8_RE_PI, Handler::Basic(BasicOp::Add8RePi)),
        13 => (opcodes::MASK_OUT_X_Y, opcodes::OP_ADD_8_RE_PD, Handler::Basic(BasicOp::Add8RePd)),
        14 => (opcodes::MASK_OUT_X_Y, opcodes::OP_ADD_8_RE_DI, Handler::Basic(BasicOp::Add8ReDi)),
        15 => (opcodes::MASK_OUT_X_Y, opcodes::OP_ADD_8_RE_IX, Handler::Basic(BasicOp::Add8ReIx)),
        16 => (opcodes::MASK_OUT_X, opcodes::OP_ADD_8_RE_AW, Handler::Basic(BasicOp::Add8ReAw)),
        17 => (opcodes::MASK_OUT_X, opcodes::OP_ADD_8_RE_AL, Handler::Basic(BasicOp::Add8ReAl)),
        18 => (opcodes::MASK_OUT_X_Y, opcodes::OP_ADD_16_ER_DN, Handler::Basic(BasicOp::Add16ErDn)),
        19 => (opcodes::MASK_OUT_X_Y, opcodes::OP_ADD_16_ER_AN, Handler::Basic(BasicOp::Add16ErAn)),
        20 => (opcodes::MASK_OUT_X_Y, opcodes::OP_ADD_16_ER_AI, Handler::Basic(BasicOp::Add16ErAi)),
        21 => (opcodes::MASK_OUT_X_Y, opcodes::OP_ADD_16_ER_PI, Handler::Basic(BasicOp::Add16ErPi)),
        22 => (opcodes::MASK_OUT_X_Y, opcodes::OP_ADD_16_ER_PD, Handler::Basic(BasicOp::Add16ErPd)),
        23 => (opcodes::MASK_OUT_X_Y, opcodes::OP_ADD_16_ER_DI, Handler::Basic(BasicOp::Add16ErDi)),
        24 => (opcodes::MASK_OUT_X_Y, opcodes::OP_ADD_16_ER_IX, Handler::Basic(BasicOp::Add16ErIx)),
        25 => (opcodes::MASK_OUT_X, opcodes::OP_ADD_16_ER_AW, Handler::Basic(BasicOp::Add16ErAw)),
        26 => (opcodes::MASK_OUT_X, opcodes::OP_ADD_16_ER_AL, Handler::Basic(BasicOp::Add16ErAl)),
        27 => (opcodes::MASK_OUT_X, opcodes::OP_ADD_16_ER_PCDI, Handler::Basic(BasicOp::Add16ErPcdi)),
        28 => (opcodes::MASK_OUT_X, opcodes::OP_ADD_16_ER_PCIX, Handler::Basic(BasicOp::Add16ErPcix)),
        29 => (opcodes::MASK_OUT_X, opcodes::OP_ADD_16_ER_IMM, Handler::Basic(BasicOp::Add16ErImm)),
        30 => (opcodes::MASK_OUT_X_Y, opcodes::OP_ADD_16_RE_AI, Handler::Basic(BasicOp::Add16ReAi)),
        31 => (opcodes::MASK_OUT_X_Y, opcodes::OP_ADD_16_RE_PI, Handler::Basic(BasicOp::Add16RePi)),
        32 => (opcodes::MASK_OUT_X_Y, opcodes::OP_ADD_16_RE_PD, Handler::Basic(BasicOp::Add16RePd)),
        33 => (opcodes::MASK_OUT_X_Y, opcodes::OP_ADD_16_RE_DI, Handler::Basic(BasicOp::Add16ReDi)),
        34 => (opcodes::MASK_OUT_X_Y, opcodes::OP_ADD_16_RE_IX, Handler::Basic(BasicOp::Add16ReIx)),
        35 => (opcodes::MASK_OUT_X, opcodes::OP_ADD_16_RE_AW, Handler::Basic(BasicOp::Add16ReAw)),
        36 => (opcodes::MASK_OUT_X, opcodes::OP_ADD_16_RE_AL, Handler::Basic(BasicOp::Add16ReAl)),
        37 => (opcodes::MASK_OUT_X_Y, opcodes::OP_ADD_32_ER_DN, Handler::Basic(BasicOp::Add32ErDn)),
        38 => (opcodes::MASK_OUT_X_Y, opcodes::OP_ADD_32_ER_AN, Handler::Basic(BasicOp::Add32ErAn)),
        39 => (opcodes::MASK_OUT_X_Y, opcodes::OP_ADD_32_ER_AI, Handler::Basic(BasicOp::Add32ErAi)),
        40 => (opcodes::MASK_OUT_X_Y, opcodes::OP_ADD_32_ER_PI, Handler::Basic(BasicOp::Add32ErPi)),
        41 => (opcodes::MASK_OUT_X_Y, opcodes::OP_ADD_32_ER_PD, Handler::Basic(BasicOp::Add32ErPd)),
        42 => (opcodes::MASK_OUT_X_Y, opcodes::OP_ADD_32_ER_DI, Handler::Basic(BasicOp::Add32ErDi)),
        43 => (opcodes::MASK_OUT_X_Y, opcodes::OP_ADD_32_ER_IX, Handler::Basic(BasicOp::Add32ErIx)),
        44 => (opcodes::MASK_OUT_X, opcodes::OP_ADD_32_ER_AW, Handler::Basic(BasicOp::Add32ErAw)),
        45 => (opcodes::MASK_OUT_X, opcodes::OP_ADD_32_ER_AL, Handler::Basic(BasicOp::Add32ErAl)),
        46 => (opcodes::MASK_OUT_X, opcodes::OP_ADD_32_ER_PCDI, Handler::Basic(BasicOp::Add32ErPcdi)),
        47 => (opcodes::MASK_OUT_X, opcodes::OP_ADD_32_ER_PCIX, Handler::Basic(BasicOp::Add32ErPcix)),
        48 => (opcodes::MASK_OUT_X, opcodes::OP_ADD_32_ER_IMM, Handler::Basic(BasicOp::Add32ErImm)),
        49 => (opcodes::MASK_OUT_X_Y, opcodes::OP_ADD_32_RE_AI, Handler::Basic(BasicOp::Add32ReAi)),
        50 => (opcodes::MASK_OUT_X_Y, opcodes::OP_ADD_32_RE_PI, Handler::Basic(BasicOp::Add32RePi)),
        51 => (opcodes::MASK_OUT_X_Y, opcodes::OP_ADD_32_RE_PD, Handler::Basic(BasicOp::Add32RePd)),
        52 => (opcodes::MASK_OUT_X_Y, opcodes::OP_ADD_32_RE_DI, Handler::Basic(BasicOp::Add32ReDi)),
        53 => (opcodes::MASK_OUT_X_Y, opcodes::OP_ADD_32_RE_IX, Handler::Basic(BasicOp::Add32ReIx)),
        54 => (opcodes::MASK_OUT_X, opcodes::OP_ADD_32_RE_AW, Handler::Basic(BasicOp::Add32ReAw)),
        55 => (opcodes::MASK_OUT_X, opcodes::OP_ADD_32_RE_AL, Handler::Basic(BasicOp::Add32ReAl)),
        56 => (opcodes::MASK_OUT_X_Y, opcodes::OP_ADDX_8_RR, Handler::Basic(BasicOp::Addx8Rr)),
        57 => (opcodes::MASK_OUT_X_Y, opcodes::OP_ADDX_8_MM, Handler::Basic(BasicOp::Addx8Mm)),
        58 => (opcodes::MASK_OUT_X_Y, opcodes::OP_ADDX_16_RR, Handler::Basic(BasicOp::Addx16Rr)),
        59 => (opcodes::MASK_OUT_X_Y, opcodes::OP_ADDX_16_MM, Handler::Basic(BasicOp::Addx16Mm)),
        60 => (opcodes::MASK_OUT_X_Y, opcodes::OP_ADDX_32_RR, Handler::Basic(BasicOp::Addx32Rr)),
        61 => (opcodes::MASK_OUT_X_Y, opcodes::OP_ADDX_32_MM, Handler::Basic(BasicOp::Addx32Mm)),
        62 => (opcodes::MASK_OUT_X_Y, opcodes::OP_ADDA_16_DN, Handler::Arith(ops::arith::ArithOp::Adda16Dn)),
        63 => (opcodes::MASK_OUT_X_Y, opcodes::OP_ADDA_16_AN, Handler::Arith(ops::arith::ArithOp::Adda16An)),
        64 => (opcodes::MASK_OUT_X_Y, opcodes::OP_ADDA_16_AI, Handler::Arith(ops::arith::ArithOp::Adda16Ai)),
        65 => (opcodes::MASK_OUT_X_Y, opcodes::OP_ADDA_16_PI, Handler::Arith(ops::arith::ArithOp::Adda16Pi)),
        66 => (opcodes::MASK_OUT_X_Y, opcodes::OP_ADDA_16_PD, Handler::Arith(ops::arith::ArithOp::Adda16Pd)),
        67 => (opcodes::MASK_OUT_X_Y, opcodes::OP_ADDA_16_DI, Handler::Arith(ops::arith::ArithOp::Adda16Di)),
        68 => (opcodes::MASK_OUT_X_Y, opcodes::OP_ADDA_16_IX, Handler::Arith(ops::arith::ArithOp::Adda16Ix)),
        69 => (opcodes::MASK_OUT_X, opcodes::OP_ADDA_16_AW, Handler::Arith(ops::arith::ArithOp::Adda16Aw)),
        70 => (opcodes::MASK_OUT_X, opcodes::OP_ADDA_16_AL, Handler::Arith(ops::arith::ArithOp::Adda16Al)),
        71 => (opcodes::MASK_OUT_X, opcodes::OP_ADDA_16_PCDI, Handler::Arith(ops::arith::ArithOp::Adda16Pcdi)),
        72 => (opcodes::MASK_OUT_X, opcodes::OP_ADDA_16_PCIX, Handler::Arith(ops::arith::ArithOp::Adda16Pcix)),
        73 => (opcodes::MASK_OUT_X, opcodes::OP_ADDA_16_IMM, Handler::Arith(ops::arith::ArithOp::Adda16Imm)),
        74 => (opcodes::MASK_OUT_X_Y, opcodes::OP_ADDA_32_DN, Handler::Arith(ops::arith::ArithOp::Adda32Dn)),
        75 => (opcodes::MASK_OUT_X_Y, opcodes::OP_ADDA_32_AN, Handler::Arith(ops::arith::ArithOp::Adda32An)),
        76 => (opcodes::MASK_OUT_X_Y, opcodes::OP_ADDA_32_AI, Handler::Arith(ops::arith::ArithOp::Adda32Ai)),
        77 => (opcodes::MASK_OUT_X_Y, opcodes::OP_ADDA_32_PI, Handler::Arith(ops::arith::ArithOp::Adda32Pi)),
        78 => (opcodes::MASK_OUT_X_Y, opcodes::OP_ADDA_32_PD, Handler::Arith(ops::arith::ArithOp::Adda32Pd)),
        79 => (opcodes::MASK_OUT_X_Y, opcodes::OP_ADDA_32_DI, Handler::Arith(ops::arith::ArithOp::Adda32Di)),
        80 => (opcodes::MASK_OUT_X_Y, opcodes::OP_ADDA_32_IX, Handler::Arith(ops::arith::ArithOp::Adda32Ix)),
        81 => (opcodes::MASK_OUT_X, opcodes::OP_ADDA_32_AW, Handler::Arith(ops::arith::ArithOp::Adda32Aw)),
        82 => (opcodes::MASK_OUT_X, opcodes::OP_ADDA_32_AL, Handler::Arith(ops::arith::ArithOp::Adda32Al)),
        83 => (opcodes::MASK_OUT_X, opcodes::OP_ADDA_32_PCDI, Handler::Arith(ops::arith::ArithOp::Adda32Pcdi)),
        84 => (opcodes::MASK_OUT_X, opcodes::OP_ADDA_32_PCIX, Handler::Arith(ops::arith::ArithOp::Adda32Pcix)),
        _ => (opcodes::MASK_OUT_X, opcodes::OP_ADDA_32_IMM, Handler::Arith(ops::arith::ArithOp::Adda32Imm)),
    }
}

/// The instruction patterns of group 14, in the order they are tried.
pub open spec fn group_14(i: int) -> (u32, u32, Handler) {
    if i == 0 {
        (opcodes::MASK_OUT_X_Y, opcodes::OP_ASR_8_S, Handler::Shift(ops::shifts::ShiftOp::Asr8S))
    } else if i == 1 {
        (opcodes::MASK_OUT_X_Y, opcodes::OP_ASR_16_S, Handler::Shift(ops::shifts::ShiftOp::Asr16S))
    } else if i == 2 {
        (opcodes::MASK_OUT_X_Y, opcodes::OP_ASR_32_S, Handler::Shift(ops::shifts::ShiftOp::Asr32S))
    } else if i == 3 {
        (opcodes::MASK_OUT_X_Y, opcodes::OP_ASR_8_R, Handler::Shift(ops::shifts::ShiftOp::Asr8R))
    } else if i == 4 {
        (opcodes::MASK_OUT_X_Y, opcodes::OP_ASR_16_R, Handler::Shift(ops::shifts::ShiftOp::Asr16R))
    } else if i == 5 {
        (opcodes::MASK_OUT_X_Y, opcodes::OP_ASR_32_R, Handler::Shift(ops::shifts::ShiftOp::Asr32R))
    } else if i == 6 {
        (opcodes::MASK_OUT_X_Y, opcodes::OP_ASL_8_S, Handler::Shift(ops::shifts::ShiftOp::Asl8S))
    } else if i == 7 {
        (opcodes::MASK_OUT_X_Y, opcodes::OP_ASL_16_S, Handler::Shift(ops::shifts::ShiftOp::Asl16S))
    } else if i == 8 {
        (opcodes::MASK_OUT_X_Y, opcodes::OP_ASL_32_S, Handler::Shift(ops::shifts::ShiftOp::Asl32S))
    } else if i == 9 {
        (opcodes::MASK_OUT_X_Y, opcodes::OP_ASL_8_R, Handler::Shift(ops::shifts::ShiftOp::Asl8R))
    } else if i == 10 {
        (opcodes::MASK_OUT_X_Y, opcodes::OP_ASL_16_R, Handler::Shift(ops::shifts::ShiftOp::Asl16R))
    } else if i == 11 {
        (opcodes::MASK_OUT_X_Y, opcodes::OP_ASL_32_R, Handler::Shift(ops::shifts::ShiftOp::Asl32R))
    } else if i == 12 {
        (opcodes::MASK_OUT_Y, opcodes::OP_ASL_16_AI, Handler::Shift(ops::shifts::ShiftOp::Asl16Ai))
    } else if i == 13 {
        (opcodes::MASK_OUT_Y, opcodes::OP_ASL_16_PI, Handler::Shift(ops::shifts::ShiftOp::Asl16Pi))
    } else if i == 14 {
        (opcodes::MASK_OUT_Y, opcodes::OP_ASL_16_PD, Handler::Shift(ops::shifts::ShiftOp::Asl16Pd))
    } else if i == 15 {
        (opcodes::MASK_OUT_Y, opcodes::OP_ASL_16_DI, Handler::Shift(ops::shifts::ShiftOp::Asl16Di))
    } else if i == 16 {
        (opcodes::MASK_OUT_Y, opcodes::OP_ASL_16_IX, Handler::Shift(ops::shifts::ShiftOp::Asl16Ix))
    } else if i == 17 {
        (opcodes::MASK_EXACT, opcodes::OP_ASL_16_AW, Handler::Shift(ops::shifts::ShiftOp::Asl16Aw))
    } else if i == 18 {
        (opcodes::MASK_EXACT, opcodes::OP_ASL_16_AL, Handler::Shift(ops::shifts::ShiftOp::Asl16Al))
    } else if i == 19 {
        (opcodes::MASK_OUT_Y, opcodes::OP_ASR_16_AI, Handler::Shift(ops::shifts::ShiftOp::Asr16Ai))
    } else if i == 20 {
        (opcodes::MASK_OUT_Y, opcodes::OP_ASR_16_PI, Handler::Shift(ops::shifts::ShiftOp::Asr16Pi))
    } else if i == 21 {
        (opcodes::MASK_OUT_Y, opcodes::OP_ASR_16_PD, Handler::Shift(ops::shifts::ShiftOp::Asr16Pd))
    } else if i == 22 {
        (opcodes::MASK_OUT_Y, opcodes::OP_ASR_16_DI, Handler::Shift(ops::shifts::ShiftOp::Asr16Di))
    } else if i == 23 {
        (opcodes::MASK_OUT_Y, opcodes::OP_ASR_16_IX, Handler::Shift(ops::shifts::ShiftOp::Asr16Ix))
    } else if i == 24 {
        (opcodes::MASK_EXACT, opcodes::OP_ASR_16_AW, Handler::Shift(ops::shifts::ShiftOp::Asr16Aw))
    } else if i == 25 {
        (opcodes::MASK_EXACT, opcodes::OP_ASR_16_AL, Handler::Shift(ops::shifts::ShiftOp::Asr16Al))
    } else if i == 26 {
        (opcodes::MASK_OUT_X_Y, opcodes::OP_LSR_8_S, Handler::Shift(ops::shifts::ShiftOp::Lsr8S))
    } else if i == 27 {
        (opcodes::MASK_OUT_X_Y, opcodes::OP_LSR_16_S, Handler::Shift(ops::shifts::ShiftOp::Lsr16S))
    } else if i == 28 {
        (opcodes::MASK_OUT_X_Y, opcodes::OP_LSR_32_S, Handler::Shift(ops::shifts::ShiftOp::Lsr32S))
    } else if i == 29 {
        (opcodes::MASK_OUT_X_Y, opcodes::OP_LSR_8_R, Handler::Shift(ops::shifts::ShiftOp::Lsr8R))
    } else if i == 30 {
        (opcodes::MASK_OUT_X_Y, opcodes::OP_LSR_16_R, Handler::Shift(ops::shifts::ShiftOp::Lsr16R))
    } else if i == 31 {
        (opcodes::MASK_OUT_X_Y, opcodes::OP_LSR_32_R, Handler::Shift(ops::shifts::ShiftOp::Lsr32R))
    } else if i == 32 {
        (opcodes::MASK_OUT_X_Y, opcodes::OP_LSL_8_S, Handler::Shift(ops::shifts::ShiftOp::Lsl8S))
    } else if i == 33 {
        (opcodes::MASK_OUT_X_Y, opcodes::OP_LSL_16_S, Handler::Shift(ops::shifts::ShiftOp::Lsl16S))
    } else if i == 34 {
        (opcodes::MASK_OUT_X_Y, opcodes::OP_LSL_32_S, Handler::Shift(ops::shifts::ShiftOp::Lsl32S))
    } else if i == 35 {
        (opcodes::MASK_OUT_X_Y, opcodes::OP_LSL_8_R, Handler::Shift(ops::shifts::ShiftOp::Lsl8R))
    } else if i == 36 {
        (opcodes::MASK_OUT_X_Y, opcodes::OP_LSL_16_R, Handler::Shift(ops::shifts::ShiftOp::Lsl16R))
    } else if i == 37 {
        (opcodes::MASK_OUT_X_Y, opcodes::OP_LSL_32_R, Handler::Shift(ops::shifts::ShiftOp::Lsl32R))
    } else if i == 38 {
        (opcodes::MASK_OUT_Y, opcodes::OP_LSL_16_AI, Handler::Shift(ops::shifts::ShiftOp::Lsl16Ai))
    } else if i == 39 {
        (opcodes::MASK_OUT_Y, opcodes::OP_LSL_16_PI, Handler::Shift(ops::shifts::ShiftOp::Lsl16Pi))
    } else if i == 40 {
        (opcodes::MASK_OUT_Y, opcodes::OP_LSL_16_PD, Handler::Shift(ops::shifts::ShiftOp::Lsl16Pd))
    } else if i == 41 {
        (opcodes::MASK_OUT_Y, opcodes::OP_LSL_16_DI, Handler::Shift(ops::shifts::ShiftOp::Lsl16Di))
    } else if i == 42 {
        (opcodes::MASK_OUT_Y, opcodes::OP_LSL_16_IX, Handler::Shift(ops::shifts::ShiftOp::Lsl16Ix))
    } else if i == 43 {
        (opcodes::MASK_EXACT, opcodes::OP_LSL_16_AW, Handler::Shift(ops::shifts::ShiftOp::Lsl16Aw))
    } else if i == 44 {
        (opcodes::MASK_EXACT, opcodes::OP_LSL_16_AL, Handler::Shift(ops::shifts::ShiftOp::Lsl16Al))
    } else if i == 45 {
        (opcodes::MASK_OUT_Y, opcodes::OP_LSR_16_AI, Handler::Shift(ops::shifts::ShiftOp::Lsr16Ai))
    } else if i == 46 {
        (opcodes::MASK_OUT_Y, opcodes::OP_LSR_16_PI, Handler::Shift(ops::shifts::ShiftOp::Lsr16Pi))
    } else if i == 47 {
        (opcodes::MASK_OUT_Y, opcodes::OP_LSR_16_PD, Handler::Shift(ops::shifts::ShiftOp::Lsr16Pd))
    } else if i == 48 {
        (opcodes::MASK_OUT_Y, opcodes::OP_LSR_16_DI, Handler::Shift(ops::shifts::ShiftOp::Lsr16Di))
    } else if i == 49 {
        (opcodes::MASK_OUT_Y, opcodes::OP_LSR_16_IX, Handler::Shift(ops::shifts::ShiftOp::Lsr16Ix))
    } else if i == 50 {
        (opcodes::MASK_EXACT, opcodes::OP_LSR_16_AW, Handler::Shift(ops::shifts::ShiftOp::Lsr16Aw))
    } else if i == 51 {
        (opcodes::MASK_EXACT, opcodes::OP_LSR_16_AL, Handler::Shift(ops::shifts::ShiftOp::Lsr16Al))
    } else if i == 52 {
        (opcodes::MASK_OUT_X_Y, opcodes::OP_ROR_8_S, Handler::Shift(ops::shifts::ShiftOp::Ror8S))
    } else if i == 53 {
        (opcodes::MASK_OUT_X_Y, opcodes::OP_ROR_16_S, Handler::Shift(ops::shifts::ShiftOp::Ror16S))
    } else if i == 54 {
        (opcodes::MASK_OUT_X_Y, opcodes::OP_ROR_32_S, Handler::Shift(ops::shifts::ShiftOp::Ror32S))
    } else if i == 55 {
        (opcodes::MASK_OUT_X_Y, opcodes::OP_ROR_8_R, Handler::Shift(ops::shifts::ShiftOp::Ror8R))
    } else if i == 56 {
        (opcodes::MASK_OUT_X_Y, opcodes::OP_ROR_16_R, Handler::Shift(ops::shifts::ShiftOp::Ror16R))
    } else if i == 57 {
        (opcodes::MASK_OUT_X_Y, opcodes::OP_ROR_32_R, Handler::Shift(ops::shifts::ShiftOp::Ror32R))
    } else if i == 58 {
        (opcodes::MASK_OUT_X_Y, opcodes::OP_ROL_8_S, Handler::Shift(ops::shifts::ShiftOp::Rol8S))
    } else if i == 59 {
        (opcodes::MASK_OUT_X_Y, opcodes::OP_ROL_16_S, Handler::Shift(ops::shifts::ShiftOp::Rol16S))
    } else if i == 60 {
        (opcodes::MASK_OUT_X_Y, opcodes::OP_ROL_32_S, Handler::Shift(ops::shifts::ShiftOp::Rol32S))
    } else if i == 61 {
        (opcodes::MASK_OUT_X_Y, opcodes::OP_ROL_8_R, Handler::Shift(ops::shifts::ShiftOp::Rol8R))
    } else if i == 62 {
        (opcodes::MASK_OUT_X_Y, opcodes::OP_ROL_16_R, Handler::Shift(ops::shifts::ShiftOp::Rol16R))
    } else if i == 63 {
        (opcodes::MASK_OUT_X_Y, opcodes::OP_ROL_32_R, Handler::Shift(ops::shifts::ShiftOp::Rol32R))
    } else if i == 64 {
        (opcodes::MASK_OUT_Y, opcodes::OP_ROL_16_AI, Handler::Shift(ops::shifts::ShiftOp::Rol16Ai))
    } else if i == 65 {
        (opcodes::MASK_OUT_Y, opcodes::OP_ROL_16_PI, Handler::Shift(ops::shifts::ShiftOp::Rol16Pi))
    } else if i == 66 {
        (opcodes::MASK_OUT_Y, opcodes::OP_ROL_16_PD, Handler::Shift(ops::shifts::ShiftOp::Rol16Pd))
    } else if i == 67 {
        (opcodes::MASK_OUT_Y, opcodes::OP_ROL_16_DI, Handler::Shift(ops::shifts::ShiftOp::Rol16Di))
    } else if i == 68 {
        (opcodes::MASK_OUT_Y, opcodes::OP_ROL_16_IX, Handler::Shift(ops::shifts::ShiftOp::Rol16Ix))
    } else if i == 69 {
        (opcodes::MASK_EXACT, opcodes::OP_ROL_16_AW, Handler::Shift(ops::shifts::ShiftOp::Rol16Aw))
    } else if i == 70 {
        (opcodes::MASK_EXACT, opcodes::OP_ROL_16_AL, Handler::Shift(ops::shifts::ShiftOp::Rol16Al))
    } else if i == 71 {
        (opcodes::MASK_OUT_Y, opcodes::OP_ROR_16_AI, Handler::Shift(ops::shifts::ShiftOp::Ror16Ai))
    } else if i == 72 {
        (opcodes::MASK_OUT_Y, opcodes::OP_ROR_16_PI, Handler::Shift(ops::shifts::ShiftOp::Ror16Pi))
    } else if i == 73 {
        (opcodes::MASK_OUT_Y, opcodes::OP_ROR_16_PD, Handler::Shift(ops::shifts::ShiftOp::Ror16Pd))
    } else if i == 74 {
        (opcodes::MASK_OUT_Y, opcodes::OP_ROR_16_DI, Handler::Shift(ops::shifts::ShiftOp::Ror16Di))
    } else if i == 75 {
        (opcodes::MASK_OUT_Y, opcodes::OP_ROR_16_IX, Handler::Shift(ops::shifts::ShiftOp::Ror16Ix))
    } else if i == 76 {
        (opcodes::MASK_EXACT, opcodes::OP_ROR_16_AW, Handler::Shift(ops::shifts::ShiftOp::Ror16Aw))
    } else if i == 77 {
        (opcodes::MASK_EXACT, opcodes::OP_ROR_16_AL, Handler::Shift(ops::shifts::ShiftOp::Ror16Al))
    } else if i == 78 {
        (opcodes::MASK_OUT_X_Y, opcodes::OP_ROXR_8_S, Handler::Shift(ops::shifts::ShiftOp::Roxr8S))
    } else if i == 79 {
        (opcodes::MASK_OUT_X_Y, opcodes::OP_ROXR_16_S, Handler::Shift(ops::shifts::ShiftOp::Roxr16S))
    } else if i == 80 {
        (opcodes::MASK_OUT_X_Y, opcodes::OP_ROXR_32_S, Handler::Shift(ops::shifts::ShiftOp::Roxr32S))
    } else if i == 81 {
        (opcodes::MASK_OUT_X_Y, opcodes::OP_ROXR_8_R, Handler::Shift(ops::shifts::ShiftOp::Roxr8R))
    } else if i == 82 {
        (opcodes::MASK_OUT_X_Y, opcodes::OP_ROXR_16_R, Handler::Shift(ops::shifts::ShiftOp::Roxr16R))
    } else if i == 83 {
        (opcodes::MASK_OUT_X_Y, opcodes::OP_ROXR_32_R, Handler::Shift(ops::shifts::ShiftOp::Roxr32R))
    } else if i == 84 {
        (opcodes::MASK_OUT_X_Y, opcodes::OP_ROXL_8_S, Handler::Shift(ops::shifts::ShiftOp::Roxl8S))
    } else if i == 85 {
        (opcodes::MASK_OUT_X_Y, opcodes::OP_ROXL_16_S, Handler::Shift(ops::shifts::ShiftOp::Roxl16S))
    } else if i == 86 {
        (opcodes::MASK_OUT_X_Y, opcodes::OP_ROXL_32_S, Handler::Shift(ops::shifts::ShiftOp::Roxl32S))
    } else if i == 87 {
        (opcodes::MASK_OUT_X_Y, opcodes::OP_ROXL_8_R, Handler::Shift(ops::shifts::ShiftOp::Roxl8R))
    } else if i == 88 {
        (opcodes::MASK_OUT_X_Y, opcodes::OP_ROXL_16_R, Handler::Shift(ops::shifts::ShiftOp::Roxl16R))
    } else if i == 89 {
        (opcodes::MASK_OUT_X_Y, opcodes::OP_ROXL_32_R, Handler::Shift(ops::shifts::ShiftOp::Roxl32R))
    } else if i == 90 {
        (opcodes::MASK_OUT_Y, opcodes::OP_ROXL_16_AI, Handler::Shift(ops::shifts::ShiftOp::Roxl16Ai))
    } else if i == 91 {
        (opcodes::MASK_OUT_Y, opcodes::OP_ROXL_16_PI, Handler::Shift(ops::shifts::ShiftOp::Roxl16Pi))
    } else if i == 92 {
        (opcodes::MASK_OUT_Y, opcodes::OP_ROXL_16_PD, Handler::Shift(ops::shifts::ShiftOp::Roxl16Pd))
    } else if i == 93 {
        (opcodes::MASK_OUT_Y, opcodes::OP_ROXL_16_DI, Handler::Shift(ops::shifts::ShiftOp::Roxl16Di))
    } else if i == 94 {
        (opcodes::MASK_OUT_Y, opcodes::OP_ROXL_16_IX, Handler::Shift(ops::shifts::ShiftOp::Roxl16Ix))
    } else if i == 95 {
        (opcodes::MASK_EXACT, opcodes::OP_ROXL_16_AW, Handler::Shift(ops::shifts::ShiftOp::Roxl16Aw))
    } else if i == 96 {
        (opcodes::MASK_EXACT, opcodes::OP_ROXL_16_AL, Handler::Shift(ops::shifts::ShiftOp::Roxl16Al))
    } else if i == 97 {
        (opcodes::MASK_OUT_Y, opcodes::OP_ROXR_16_AI, Handler::Shift(ops::shifts::ShiftOp::Roxr16Ai))
    } else if i == 98 {
        (opcodes::MASK_OUT_Y, opcodes::OP_ROXR_16_PI, Handler::Shift(ops::shifts::ShiftOp::Roxr16Pi))
    } else if i == 99 {
        (opcodes::MASK_OUT_Y, opcodes::OP_ROXR_16_PD, Handler::Shift(ops::shifts::ShiftOp::Roxr16Pd))
    } else if i == 100 {
        (opcodes::MASK_OUT_Y, opcodes::OP_ROXR_16_DI, Handler::Shift(ops::shifts::ShiftOp::Roxr16Di))
    } else if i == 101 {
        (opcodes::MASK_OUT_Y, opcodes::OP_ROXR_16_IX, Handler::Shift(ops::shifts::ShiftOp::Roxr16Ix))
    } else if i == 102 {
        (opcodes::MASK_EXACT, opcodes::OP_ROXR_16_AW, Handler::Shift(ops::shifts::ShiftOp::Roxr16Aw))
    } else {
        (opcodes::MASK_EXACT, opcodes::OP_ROXR_16_AL, Handler::Shift(ops::shifts::ShiftOp::Roxr16Al))
    }
}

fn group_14_at(i: usize) -> (r: (u32, u32, Handler))
    requires
        i < group_size(14),
    ensures
        r == group_14(i as int),
{
    match i {
        0 => (opcodes::MASK_OUT_X_Y, opcodes::OP_ASR_8_S, Handler::Shift(ops::shifts::ShiftOp::Asr8S)),
        1 => (opcodes::MASK_OUT_X_Y, opcodes::OP_ASR_16_S, Handler::Shift(ops::shifts::ShiftOp::Asr16S)),
        2 => (opcodes::MASK_OUT_X_Y, opcodes::OP_ASR_32_S, Handler::Shift(ops::shifts::ShiftOp::Asr32S)),
        3 => (opcodes::MASK_OUT_X_Y, opcodes::OP_ASR_8_R, Handler::Shift(ops::shifts::ShiftOp::Asr8R)),
        4 => (opcodes::MASK_OUT_X_Y, opcodes::OP_ASR_16_R, Handler::Shift(ops::shifts::ShiftOp::Asr16R)),
        5 => (opcodes::MASK_OUT_X_Y, opcodes::OP_ASR_32_R, Handler::Shift(ops::shifts::ShiftOp::Asr32R)),
        6 => (opcodes::MASK_OUT_X_Y, opcodes::OP_ASL_8_S, Handler::Shift(ops::shifts::ShiftOp::Asl8S)),
        7 => (opcodes::MASK_OUT_X_Y, opcodes::OP_ASL_16_S, Handler::Shift(ops::shifts::ShiftOp::Asl16S)),
        8 => (opcodes::MASK_OUT_X_Y, opcodes::OP_ASL_32_S, Handler::Shift(ops::shifts::ShiftOp::Asl32S)),
        9 => (opcodes::MASK_OUT_X_Y, opcodes::OP_ASL_8_R, Handler::Shift(ops::shifts::ShiftOp::Asl8R)),
        10 => (opcodes::MASK_OUT_X_Y, opcodes::OP_ASL_16_R, Handler::Shift(ops::shifts::ShiftOp::Asl16R)),
        11 => (opcodes::MASK_OUT_X_Y, opcodes::OP_ASL_32_R, Handler::Shift(ops::shifts::ShiftOp::Asl32R)),
        12 => (opcodes::MASK_OUT_Y, opcodes::OP_ASL_16_AI, Handler::Shift(ops::shifts::ShiftOp::Asl16Ai)),
        13 => (opcodes::MASK_OUT_Y, opcodes::OP_ASL_16_PI, Handler::Shift(ops::shifts::ShiftOp::Asl16Pi)),
        14 => (opcodes::MASK_OUT_Y, opcodes::OP_ASL_16_PD, Handler::Shift(ops::shifts::ShiftOp::Asl16Pd)),
        15 => (opcodes::MASK_OUT_Y, opcodes::OP_ASL_16_DI, Handler::Shift(ops::shifts::ShiftOp::Asl16Di)),
        16 => (opcodes::MASK_OUT_Y, opcodes::OP_ASL_16_IX, Handler::Shift(ops::shifts::ShiftOp::Asl16Ix)),
        17 => (opcodes::MASK_EXACT, opcodes::OP_ASL_16_AW, Handler::Shift(ops::shifts::ShiftOp::Asl16Aw)),
        18 => (opcodes::MASK_EXACT, opcodes::OP_ASL_16_AL, Handler::Shift(ops::shifts::ShiftOp::Asl16Al)),
        19 => (opcodes::MASK_OUT_Y, opcodes::OP_ASR_16_AI, Handler::Shift(ops::shifts::ShiftOp::Asr16Ai)),
        20 => (opcodes::MASK_OUT_Y, opcodes::OP_ASR_16_PI, Handler::Shift(ops::shifts::ShiftOp::Asr16Pi)),
        21 => (opcodes::MASK_OUT_Y, opcodes::OP_ASR_16_PD, Handler::Shift(ops::shifts::ShiftOp::Asr16Pd)),
        22 => (opcodes::MASK_OUT_Y, opcodes::OP_ASR_16_DI, Handler::Shift(ops::shifts::ShiftOp::Asr16Di)),
        23 => (opcodes::MASK_OUT_Y, opcodes::OP_ASR_16_IX, Handler::Shift(ops::shifts::ShiftOp::Asr16Ix)),
        24 => (opcodes::MASK_EXACT, opcodes::OP_ASR_16_AW, Handler::Shift(ops::shifts::ShiftOp::Asr16Aw)),
        25 => (opcodes::MASK_EXACT, opcodes::OP_ASR_16_AL, Handler::Shift(ops::shifts::ShiftOp::Asr16Al)),
        26 => (opcodes::MASK_OUT_X_Y, opcodes::OP_LSR_8_S, Handler::Shift(ops::shifts::ShiftOp::Lsr8S)),
        27 => (opcodes::MASK_OUT_X_Y, opcodes::OP_LSR_16_S, Handler::Shift(ops::shifts::ShiftOp::Lsr16S)),
        28 => (opcodes::MASK_OUT_X_Y, opcodes::OP_LSR_32_S, Handler::Shift(ops::shifts::ShiftOp::Lsr32S)),
        29 => (opcodes::MASK_OUT_X_Y, opcodes::OP_LSR_8_R, Handler::Shift(ops::shifts::ShiftOp::Lsr8R)),
        30 => (opcodes::MASK_OUT_X_Y, opcodes::OP_LSR_16_R, Handler::Shift(ops::shifts::ShiftOp::Lsr16R)),
        31 => (opcodes::MASK_OUT_X_Y, opcodes::OP_LSR_32_R, Handler::Shift(ops::shifts::ShiftOp::Lsr32R)),
        32 => (opcodes::MASK_OUT_X_Y, opcodes::OP_LSL_8_S, Handler::Shift(ops::shifts::ShiftOp::Lsl8S)),
        33 => (opcodes::MASK_OUT_X_Y, opcodes::OP_LSL_16_S, Handler::Shift(ops::shifts::ShiftOp::Lsl16S)),
        34 => (opcodes::MASK_OUT_X_Y, opcodes::OP_LSL_32_S, Handler::Shift(ops::shifts::ShiftOp::Lsl32S)),
        35 => (opcodes::MASK_OUT_X_Y, opcodes::OP_LSL_8_R, Handler::Shift(ops::shifts::ShiftOp::Lsl8R)),
        36 => (opcodes::MASK_OUT_X_Y, opcodes::OP_LSL_16_R, Handler::Shift(ops::shifts::ShiftOp::Lsl16R)),
        37 => (opcodes::MASK_OUT_X_Y, opcodes::OP_LSL_32_R, Handler::Shift(ops::shifts::ShiftOp::Lsl32R)),
        38 => (opcodes::MASK_OUT_Y, opcodes::OP_LSL_16_AI, Handler::Shift(ops::shifts::ShiftOp::Lsl16Ai)),
        39 => (opcodes::MASK_OUT_Y, opcodes::OP_LSL_16_PI, Handler::Shift(ops::shifts::ShiftOp::Lsl16Pi)),
        40 => (opcodes::MASK_OUT_Y, opcodes::OP_LSL_16_PD, Handler::Shift(ops::shifts::ShiftOp::Lsl16Pd)),
        41 => (opcodes::MASK_OUT_Y, opcodes::OP_LSL_16_DI, Handler::Shift(ops::shifts::ShiftOp::Lsl16Di)),
        42 => (opcodes::MASK_OUT_Y, opcodes::OP_LSL_16_IX, Handler::Shift(ops::shifts::ShiftOp::Lsl16Ix)),
        43 => (opcodes::MASK_EXACT, opcodes::OP_LSL_16_AW, Handler::Shift(ops::shifts::ShiftOp::Lsl16Aw)),
        44 => (opcodes::MASK_EXACT, opcodes::OP_LSL_16_AL, Handler::Shift(ops::shifts::ShiftOp::Lsl16Al)),
        45 => (opcodes::MASK_OUT_Y, opcodes::OP_LSR_16_AI, Handler::Shift(ops::shifts::ShiftOp::Lsr16Ai)),
        46 => (opcodes::MASK_OUT_Y, opcodes::OP_LSR_16_PI, Handler::Shift(ops::shifts::ShiftOp::Lsr16Pi)),
        47 => (opcodes::MASK_OUT_Y, opcodes::OP_LSR_16_PD, Handler::Shift(ops::shifts::ShiftOp::Lsr16Pd)),
        48 => (opcodes::MASK_OUT_Y, opcodes::OP_LSR_16_DI, Handler::Shift(ops::shifts::ShiftOp::Lsr16Di)),
        49 => (opcodes::MASK_OUT_Y, opcodes::OP_LSR_16_IX, Handler::Shift(ops::shifts::ShiftOp::Lsr16Ix)),
        50 => (opcodes::MASK_EXACT, opcodes::OP_LSR_16_AW, Handler::Shift(ops::shifts::ShiftOp::Lsr16Aw)),
        51 => (opcodes::MASK_EXACT, opcodes::OP_LSR_16_AL, Handler::Shift(ops::shifts::ShiftOp::Lsr16Al)),
        52 => (opcodes::MASK_OUT_X_Y, opcodes::OP_ROR_8_S, Handler::Shift(ops::shifts::ShiftOp::Ror8S)),
        53 => (opcodes::MASK_OUT_X_Y, opcodes::OP_ROR_16_S, Handler::Shift(ops::shifts::ShiftOp::Ror16S)),
        54 => (opcodes::MASK_OUT_X_Y, opcodes::OP_ROR_32_S, Handler::Shift(ops::shifts::ShiftOp::Ror32S)),
        55 => (opcodes::MASK_OUT_X_Y, opcodes::OP_ROR_8_R, Handler::Shift(ops::shifts::ShiftOp::Ror8R)),
        56 => (opcodes::MASK_OUT_X_Y, opcodes::OP_ROR_16_R, Handler::Shift(ops::shifts::ShiftOp::Ror16R)),
        57 => (opcodes::MASK_OUT_X_Y, opcodes::OP_ROR_32_R, Handler::Shift(ops::shifts::ShiftOp::Ror32R)),
        58 => (opcodes::MASK_OUT_X_Y, opcodes::OP_ROL_8_S, Handler::Shift(ops::shifts::ShiftOp::Rol8S)),
        59 => (opcodes::MASK_OUT_X_Y, opcodes::OP_ROL_16_S, Handler::Shift(ops::shifts::ShiftOp::Rol16S)),
        60 => (opcodes::MASK_OUT_X_Y, opcodes::OP_ROL_32_S, Handler::Shift(ops::shifts::ShiftOp::Rol32S)),
        61 => (opcodes::MASK_OUT_X_Y, opcodes::OP_ROL_8_R, Handler::Shift(ops::shifts::ShiftOp::Rol8R)),
        62 => (opcodes::MASK_OUT_X_Y, opcodes::OP_ROL_16_R, Handler::Shift(ops::shifts::ShiftOp::Rol16R)),
        63 => (opcodes::MASK_OUT_X_Y, opcodes::OP_ROL_32_R, Handler::Shift(ops::shifts::ShiftOp::Rol32R)),
        64 => (opcodes::MASK_OUT_Y, opcodes::OP_ROL_16_AI, Handler::Shift(ops::shifts::ShiftOp::Rol16Ai)),
        65 => (opcodes::MASK_OUT_Y, opcodes::OP_ROL_16_PI, Handler::Shift(ops::shifts::ShiftOp::Rol16Pi)),
        66 => (opcodes::MASK_OUT_Y, opcodes::OP_ROL_16_PD, Handler::Shift(ops::shifts::ShiftOp::Rol16Pd)),
        67 => (opcodes::MASK_OUT_Y, opcodes::OP_ROL_16_DI, Handler::Shift(ops::shifts::ShiftOp::Rol16Di)),
        68 => (opcodes::MASK_OUT_Y, opcodes::OP_ROL_16_IX, Handler::Shift(ops::shifts::ShiftOp::Rol16Ix)),
        69 => (opcodes::MASK_EXACT, opcodes::OP_ROL_16_AW, Handler::Shift(ops::shifts::ShiftOp::Rol16Aw)),
        70 => (opcodes::MASK_EXACT, opcodes::OP_ROL_16_AL, Handler::Shift(ops::shifts::ShiftOp::Rol16Al)),
        71 => (opcodes::MASK_OUT_Y, opcodes::OP_ROR_16_AI, Handler::Shift(ops::shifts::ShiftOp::Ror16Ai)),
        72 => (opcodes::MASK_OUT_Y, opcodes::OP_ROR_16_PI, Handler::Shift(ops::shifts::ShiftOp::Ror16Pi)),
        73 => (opcodes::MASK_OUT_Y, opcodes::OP_ROR_16_PD, Handler::Shift(ops::shifts::ShiftOp::Ror16Pd)),
        74 => (opcodes::MASK_OUT_Y, opcodes::OP_ROR_16_DI, Handler::Shift(ops::shifts::ShiftOp::Ror16Di)),
        75 => (opcodes::MASK_OUT_Y, opcodes::OP_ROR_16_IX, Handler::Shift(ops::shifts::ShiftOp::Ror16Ix)),
        76 => (opcodes::MASK_EXACT, opcodes::OP_ROR_16_AW, Handler::Shift(ops::shifts::ShiftOp::Ror16Aw)),
        77 => (opcodes::MASK_EXACT, opcodes::OP_ROR_16_AL, Handler::Shift(ops::shifts::ShiftOp::Ror16Al)),
        78 => (opcodes::MASK_OUT_X_Y, opcodes::OP_ROXR_8_S, Handler::Shift(ops::shifts::ShiftOp::Roxr8S)),
        79 => (opcodes::MASK_OUT_X_Y, opcodes::OP_ROXR_16_S, Handler::Shift(ops::shifts::ShiftOp::Roxr16S)),
        80 => (opcodes::MASK_OUT_X_Y, opcodes::OP_ROXR_32_S, Handler::Shift(ops::shifts::ShiftOp::Roxr32S)),
        81 => (opcodes::MASK_OUT_X_Y, opcodes::OP_ROXR_8_R, Handler::Shift(ops::shifts::ShiftOp::Roxr8R)),
        82 => (opcodes::MASK_OUT_X_Y, opcodes::OP_ROXR_16_R, Handler::Shift(ops::shifts::ShiftOp::Roxr16R)),
        83 => (opcodes::MASK_OUT_X_Y, opcodes::OP_ROXR_32_R, Handler::Shift(ops::shifts::ShiftOp::Roxr32R)),
        84 => (opcodes::MASK_OUT_X_Y, opcodes::OP_ROXL_8_S, Handler::Shift(ops::shifts::ShiftOp::Roxl8S)),
        85 => (opcodes::MASK_OUT_X_Y, opcodes::OP_ROXL_16_S, Handler::Shift(ops::shifts::ShiftOp::Roxl16S)),
        86 => (opcodes::MASK_OUT_X_Y, opcodes::OP_ROXL_32_S, Handler::Shift(ops::shifts::ShiftOp::Roxl32S)),
        87 => (opcodes::MASK_OUT_X_Y, opcodes::OP_ROXL_8_R, Handler::Shift(ops::shifts::ShiftOp::Roxl8R)),
        88 => (opcodes::MASK_OUT_X_Y, opcodes::OP_ROXL_16_R, Handler::Shift(ops::shifts::ShiftOp::Roxl16R)),
        89 => (opcodes::MASK_OUT_X_Y, opcodes::OP_ROXL_32_R, Handler::Shift(ops::shifts::ShiftOp::Roxl32R)),
        90 => (opcodes::MASK_OUT_Y, opcodes::OP_ROXL_16_AI, Handler::Shift(ops::shifts::ShiftOp::Roxl16Ai)),
        91 => (opcodes::MASK_OUT_Y, opcodes::OP_ROXL_16_PI, Handler::Shift(ops::shifts::ShiftOp::Roxl16Pi)),
        92 => (opcodes::MASK_OUT_Y, opcodes::OP_ROXL_16_PD, Handler::Shift(ops::shifts::ShiftOp::Roxl16Pd)),
        93 => (opcodes::MASK_OUT_Y, opcodes::OP_ROXL_16_DI, Handler::Shift(ops::shifts::ShiftOp::Roxl16Di)),
        94 => (opcodes::MASK_OUT_Y, opcodes::OP_ROXL_16_IX, Handler::Shift(ops::shifts::ShiftOp::Roxl16Ix)),
        95 => (opcodes::MASK_EXACT, opcodes::OP_ROXL_16_AW, Handler::Shift(ops::shifts::ShiftOp::Roxl16Aw)),
        96 => (opcodes::MASK_EXACT, opcodes::OP_ROXL_16_AL, Handler::Shift(ops::shifts::ShiftOp::Roxl16Al)),
        97 => (opcodes::MASK_OUT_Y, opcodes::OP_ROXR_16_AI, Handler::Shift(ops::shifts::ShiftOp::Roxr16Ai)),
        98 => (opcodes::MASK_OUT_Y, opcodes::OP_ROXR_16_PI, Handler::Shift(ops::shifts::ShiftOp::Roxr16Pi)),
        99 => (opcodes::MASK_OUT_Y, opcodes::OP_ROXR_16_PD, Handler::Shift(ops::shifts::ShiftOp::Roxr16Pd)),
        100 => (opcodes::MASK_OUT_Y, opcodes::OP_ROXR_16_DI, Handler::Shift(ops::shifts::ShiftOp::Roxr16Di)),
        101 => (opcodes::MASK_OUT_Y, opcodes::OP_ROXR_16_IX, Handler::Shift(ops::shifts::ShiftOp::Roxr16Ix)),
        102 => (opcodes::MASK_EXACT, opcodes::OP_ROXR_16_AW, Handler::Shift(ops::shifts::ShiftOp::Roxr16Aw)),
        _ => (opcodes::MASK_EXACT, opcodes::OP_ROXR_16_AL, Handler::Shift(ops::shifts::ShiftOp::Roxr16Al)),
    }
}

/// The instruction patterns of group 15, in the order they are tried.
pub open spec fn group_15(i: int) -> (u32, u32, Handler) {
    (opcodes::MASK_LO3NIB, opcodes::OP_UNIMPLEMENTED_1111, Handler::Basic(BasicOp::Unimplemented1111))
}

fn group_15_at(i: usize) -> (r: (u32, u32, Handler))
    requires
        i < group_size(15),
    ensures
        r == group_15(i as int),
{
    (opcodes::MASK_LO3NIB, opcodes::OP_UNIMPLEMENTED_1111, Handler::Basic(BasicOp::Unimplemented1111))
}

/// Pattern `i` of group `g`.
pub open spec fn pattern(g: int, i: int) -> (u32, u32, Handler) {
    if g == 0 {
        group_0(i)
    } else if g == 1 {
        group_1(i)
    } else if g == 2 {
        group_2(i)
    } else if g == 3 {
        group_3(i)
    } else if g == 4 {
        group_4(i)
    } else if g == 5 {
        group_5(i)
    } else if g == 6 {
        group_6(i)
    } else if g == 7 {
        group_7(i)
    } else if g == 8 {
        group_8(i)
    } else if g == 9 {
        group_9(i)
    } else if g == 10 {
        group_10(i)
    } else if g == 11 {
        group_11(i)
    } else if g == 12 {
        group_12(i)
    } else if g == 13 {
        group_13(i)
    } else if g == 14 {
        group_14(i)
    } else {
        group_15(i)
    }
}

fn pattern_at(g: usize, i: usize) -> (r: (u32, u32, Handler))
    requires
        g < 16,
        i < group_size(g as int),
    ensures
        r == pattern(g as int, i as int),
{
    match g {
        0 => group_0_at(i),
        1 => group_1_at(i),
        2 => group_2_at(i),
        3 => group_3_at(i),
        4 => group_4_at(i),
        5 => group_5_at(i),
        6 => group_6_at(i),
        7 => group_7_at(i),
        8 => group_8_at(i),
        9 => group_9_at(i),
        10 => group_10_at(i),
        11 => group_11_at(i),
        12 => group_12_at(i),
        13 => group_13_at(i),
        14 => group_14_at(i),
        _ => group_15_at(i),
    }
}

/// The handler of the first pattern of group `g` from `i` on that `op`
/// matches, or `Illegal` when none does.
pub open spec fn first_match(op: u32, g: int, i: int) -> Handler
    decreases group_size(g) - i,
{
    if i < 0 || i >= group_size(g) {
        Handler::Illegal
    } else if op & pattern(g, i).0 == pattern(g, i).1 {
        pattern(g, i).2
    } else {
        first_match(op, g, i + 1)
    }
}

/// The handler that the instruction word `op` selects: the first pattern of
/// the group of its top four bits that it matches.
pub open spec fn decoded(op: u32) -> Handler {
    if op < 0x10000 {
        first_match(op, (op >> 12u32) as int, 0)
    } else {
        Handler::Illegal
    }
}

/// Finds the handler of an instruction word.
pub fn decode(op: u32) -> (h: Handler)
    ensures
        h == decoded(op),
{
    if op >= 0x10000 {
        return Handler::Illegal;
    }
    let g = (op >> 12) as usize;
    assert(op >> 12u32 < 16) by (bit_vector)
        requires
            op < 0x10000,
    ;
    let n = group_len(g);
    let mut i: usize = 0;
    while i < n
        invariant
            g < 16,
            n == group_size(g as int),
            g == op >> 12u32,
            op < 0x10000,
            i <= n,
            first_match(op, g as int, 0) == first_match(op, g as int, i as int),
        decreases n - i,
    {
        let (mask, pat, h) = pattern_at(g, i);
        if op & mask == pat {
            return h;
        }
        i = i + 1;
    }
    Handler::Illegal
}

/// The handler of every instruction word, indexed by the word.
pub fn generate() -> (t: Vec<Handler>)
    ensures
        t@.len() == 0x10000,
        forall|op: int| 0 <= op < 0x10000 ==> #[trigger] t@[op] == decoded(op as u32),
{
    let mut t: Vec<Handler> = Vec::new();
    let mut op: u32 = 0;
    while op < 0x10000
        invariant
            op <= 0x10000,
            t@.len() == op,
            forall|k: int| 0 <= k < op ==> #[trigger] t@[k] == decoded(k as u32),
        decreases 0x10000 - op,
    {
        let h = decode(op);
        t.push(h);
        op = op + 1;
    }
    t
}

/// What handler `h` does: the core goes from `c0` to `c1` and `r` comes back.
pub open spec fn handler_effect(h: Handler, c0: ConfiguredCore, c1: ConfiguredCore, r: Result<Cycles>) -> bool {
    match h {
        Handler::Illegal => ops::illegal_effect(c0, c1, r),
        Handler::SetD0 => ops::fake::set_d0_effect(c0, c1, r),
        Handler::SetD1 => ops::fake::set_d1_effect(c0, c1, r),
        Handler::SetDx => ops::fake::set_dx_effect(c0, c1, r),
        Handler::Basic(o) => basic_effect(o, c0, c1, r),
        Handler::Move(o) => ops::moves::effect(o, c0, c1, r),
        Handler::Flow(o) => ops::flow::effect(o, c0, c1, r),
        Handler::Unary(o) => ops::unary::effect(o, c0, c1, r),
        Handler::Arith(o) => ops::arith::effect(o, c0, c1, r),
        Handler::Shift(o) => ops::shifts::effect(o, c0, c1, r),
        Handler::Bit(o) => ops::bits::effect(o, c0, c1, r),
        Handler::Status(o) => ops::status::effect(o, c0, c1, r),
        Handler::Movem(o) => ops::movem::effect(o, c0, c1, r),
    }
}

/// What the instruction `op` does: the core goes from `c0` to `c1` and `r`
/// comes back.
pub open spec fn basic_effect(op: BasicOp, c0: ConfiguredCore, c1: ConfiguredCore, r: Result<Cycles>) -> bool {
    match op {
        BasicOp::RealIllegal => ops::real_illegal_effect(c0, c1, r),
        BasicOp::Nop => ops::nop_effect(c0, c1, r),
        BasicOp::Reset => ops::reset_effect(c0, c1, r),
        BasicOp::Stop => ops::stop_effect(c0, c1, r),
        BasicOp::Rte32 => ops::rte_32_effect(c0, c1, r),
        BasicOp::Rts32 => ops::rts_32_effect(c0, c1, r),
        BasicOp::Trapv => ops::trapv_effect(c0, c1, r),
        BasicOp::Rtr32 => ops::rtr_32_effect(c0, c1, r),
        BasicOp::Andi8Toc => ops::andi_8_toc_effect(c0, c1, r),
        BasicOp::Andi16Tos => ops::andi_16_tos_effect(c0, c1, r),
        BasicOp::Eori8Toc => ops::eori_8_toc_effect(c0, c1, r),
        BasicOp::Eori16Tos => ops::eori_16_tos_effect(c0, c1, r),
        BasicOp::Ori8Toc => ops::ori_8_toc_effect(c0, c1, r),
        BasicOp::Ori16Tos => ops::ori_16_tos_effect(c0, c1, r),
        BasicOp::Bra16 => ops::bra_16_effect(c0, c1, r),
        BasicOp::Bsr16 => ops::bsr_16_effect(c0, c1, r),
        BasicOp::Trap => ops::trap_effect(c0, c1, r),
        BasicOp::Link16 => ops::link_16_effect(c0, c1, r),
        BasicOp::Unlk32 => ops::unlk_32_effect(c0, c1, r),
        BasicOp::Move32Tou => ops::move_32_tou_effect(c0, c1, r),
        BasicOp::Move32Fru => ops::move_32_fru_effect(c0, c1, r),
        BasicOp::Swap32Dn => ops::swap_32_dn_effect(c0, c1, r),
        BasicOp::ExtBw => ops::ext_bw_effect(c0, c1, r),
        BasicOp::ExtWl => ops::ext_wl_effect(c0, c1, r),
        BasicOp::Exg32Dd => ops::exg_32_dd_effect(c0, c1, r),
        BasicOp::Exg32Aa => ops::exg_32_aa_effect(c0, c1, r),
        BasicOp::Exg32Da => ops::exg_32_da_effect(c0, c1, r),
        BasicOp::Moveq32 => ops::moveq_32_effect(c0, c1, r),
        BasicOp::Bra8 => ops::bra_8_effect(c0, c1, r),
        BasicOp::Bsr8 => ops::bsr_8_effect(c0, c1, r),
        BasicOp::Addq16An => ops::addq_16_an_effect(c0, c1, r),
        BasicOp::Addq32An => ops::addq_32_an_effect(c0, c1, r),
        BasicOp::Subq16An => ops::subq_16_an_effect(c0, c1, r),
        BasicOp::Subq32An => ops::subq_32_an_effect(c0, c1, r),
        BasicOp::Bchg32RDn => ops::bchg_32_r_dn_effect(c0, c1, r),
        BasicOp::Bchg32SDn => ops::bchg_32_s_dn_effect(c0, c1, r),
        BasicOp::Bclr32RDn => ops::bclr_32_r_dn_effect(c0, c1, r),
        BasicOp::Bclr32SDn => ops::bclr_32_s_dn_effect(c0, c1, r),
        BasicOp::Bset32RDn => ops::bset_32_r_dn_effect(c0, c1, r),
        BasicOp::Bset32SDn => ops::bset_32_s_dn_effect(c0, c1, r),
        BasicOp::Btst32RDn => ops::btst_32_r_dn_effect(c0, c1, r),
        BasicOp::Btst32SDn => ops::btst_32_s_dn_effect(c0, c1, r),
        BasicOp::Clr8Dn => ops::clr_8_dn_effect(c0, c1, r),
        BasicOp::Clr16Dn => ops::clr_16_dn_effect(c0, c1, r),
        BasicOp::Clr32Dn => ops::clr_32_dn_effect(c0, c1, r),
        BasicOp::Movep16Er => ops::movep_16_er_effect(c0, c1, r),
        BasicOp::Movep16Re => ops::movep_16_re_effect(c0, c1, r),
        BasicOp::Movep32Er => ops::movep_32_er_effect(c0, c1, r),
        BasicOp::Movep32Re => ops::movep_32_re_effect(c0, c1, r),
        BasicOp::Chk16Ai => ops::chk_16_ai_effect(c0, c1, r),
        BasicOp::Chk16Al => ops::chk_16_al_effect(c0, c1, r),
        BasicOp::Chk16Aw => ops::chk_16_aw_effect(c0, c1, r),
        BasicOp::Chk16Dn => ops::chk_16_dn_effect(c0, c1, r),
        BasicOp::Chk16Di => ops::chk_16_di_effect(c0, c1, r),
        BasicOp::Chk16Imm => ops::chk_16_imm_effect(c0, c1, r),
        BasicOp::Chk16Ix => ops::chk_16_ix_effect(c0, c1, r),
        BasicOp::Chk16Pcdi => ops::chk_16_pcdi_effect(c0, c1, r),
        BasicOp::Chk16Pcix => ops::chk_16_pcix_effect(c0, c1, r),
        BasicOp::Chk16Pd => ops::chk_16_pd_effect(c0, c1, r),
        BasicOp::Chk16Pi => ops::chk_16_pi_effect(c0, c1, r),
        BasicOp::Add8ErDn => ops::add_8_er_dn_effect(c0, c1, r),
        BasicOp::Add8ErAi => ops::add_8_er_ai_effect(c0, c1, r),
        BasicOp::Add8ErPi => ops::add_8_er_pi_effect(c0, c1, r),
        BasicOp::Add8ErPd => ops::add_8_er_pd_effect(c0, c1, r),
        BasicOp::Add8ErDi => ops::add_8_er_di_effect(c0, c1, r),
        BasicOp::Add8ErIx => ops::add_8_er_ix_effect(c0, c1, r),
        BasicOp::Add8ErAw => ops::add_8_er_aw_effect(c0, c1, r),
        BasicOp::Add8ErAl => ops::add_8_er_al_effect(c0, c1, r),
        BasicOp::Add8ErPcdi => ops::add_8_er_pcdi_effect(c0, c1, r),
        BasicOp::Add8ErPcix => ops::add_8_er_pcix_effect(c0, c1, r),
        BasicOp::Add8ErImm => ops::add_8_er_imm_effect(c0, c1, r),
        BasicOp::Add8ReAi => ops::add_8_re_ai_effect(c0, c1, r),
        BasicOp::Add8RePi => ops::add_8_re_pi_effect(c0, c1, r),
        BasicOp::Add8RePd => ops::add_8_re_pd_effect(c0, c1, r),
        BasicOp::Add8ReDi => ops::add_8_re_di_effect(c0, c1, r),
        BasicOp::Add8ReIx => ops::add_8_re_ix_effect(c0, c1, r),
        BasicOp::Add8ReAw => ops::add_8_re_aw_effect(c0, c1, r),
        BasicOp::Add8ReAl => ops::add_8_re_al_effect(c0, c1, r),
        BasicOp::Add16ErDn => ops::add_16_er_dn_effect(c0, c1, r),
        BasicOp::Add16ErAn => ops::add_16_er_an_effect(c0, c1, r),
        BasicOp::Add16ErAi => ops::add_16_er_ai_effect(c0, c1, r),
        BasicOp::Add16ErPi => ops::add_16_er_pi_effect(c0, c1, r),
        BasicOp::Add16ErPd => ops::add_16_er_pd_effect(c0, c1, r),
        BasicOp::Add16ErDi => ops::add_16_er_di_effect(c0, c1, r),
        BasicOp::Add16ErIx => ops::add_16_er_ix_effect(c0, c1, r),
        BasicOp::Add16ErAw => ops::add_16_er_aw_effect(c0, c1, r),
        BasicOp::Add16ErAl => ops::add_16_er_al_effect(c0, c1, r),
        BasicOp::Add16ErPcdi => ops::add_16_er_pcdi_effect(c0, c1, r),
        BasicOp::Add16ErPcix => ops::add_16_er_pcix_effect(c0, c1, r),
        BasicOp::Add16ErImm => ops::add_16_er_imm_effect(c0, c1, r),
        BasicOp::Add16ReAi => ops::add_16_re_ai_effect(c0, c1, r),
        BasicOp::Add16RePi => ops::add_16_re_pi_effect(c0, c1, r),
        BasicOp::Add16RePd => ops::add_16_re_pd_effect(c0, c1, r),
        BasicOp::Add16ReDi => ops::add_16_re_di_effect(c0, c1, r),
        BasicOp::Add16ReIx => ops::add_16_re_ix_effect(c0, c1, r),
        BasicOp::Add16ReAw => ops::add_16_re_aw_effect(c0, c1, r),
        BasicOp::Add16ReAl => ops::add_16_re_al_effect(c0, c1, r),
        BasicOp::Add32ErDn => ops::add_32_er_dn_effect(c0, c1, r),
        BasicOp::Add32ErAn => ops::add_32_er_an_effect(c0, c1, r),
        BasicOp::Add32ErAi => ops::add_32_er_ai_effect(c0, c1, r),
        BasicOp::Add32ErPi => ops::add_32_er_pi_effect(c0, c1, r),
        BasicOp::Add32ErPd => ops::add_32_er_pd_effect(c0, c1, r),
        BasicOp::Add32ErDi => ops::add_32_er_di_effect(c0, c1, r),
        BasicOp::Add32ErIx => ops::add_32_er_ix_effect(c0, c1, r),
        BasicOp::Add32ErAw => ops::add_32_er_aw_effect(c0, c1, r),
        BasicOp::Add32ErAl => ops::add_32_er_al_effect(c0, c1, r),
        BasicOp::Add32ErPcdi => ops::add_32_er_pcdi_effect(c0, c1, r),
        BasicOp::Add32ErPcix => ops::add_32_er_pcix_effect(c0, c1, r),
        BasicOp::Add32ErImm => ops::add_32_er_imm_effect(c0, c1, r),
        BasicOp::Add32ReAi => ops::add_32_re_ai_effect(c0, c1, r),
        BasicOp::Add32RePi => ops::add_32_re_pi_effect(c0, c1, r),
        BasicOp::Add32RePd => ops::add_32_re_pd_effect(c0, c1, r),
        BasicOp::Add32ReDi => ops::add_32_re_di_effect(c0, c1, r),
        BasicOp::Add32ReIx => ops::add_32_re_ix_effect(c0, c1, r),
        BasicOp::Add32ReAw => ops::add_32_re_aw_effect(c0, c1, r),
        BasicOp::Add32ReAl => ops::add_32_re_al_effect(c0, c1, r),
        BasicOp::Addi8Dn => ops::addi_8_dn_effect(c0, c1, r),
        BasicOp::Addi8Ai => ops::addi_8_ai_effect(c0, c1, r),
        BasicOp::Addi8Pi => ops::addi_8_pi_effect(c0, c1, r),
        BasicOp::Addi8Pd => ops::addi_8_pd_effect(c0, c1, r),
        BasicOp::Addi8Di => ops::addi_8_di_effect(c0, c1, r),
        BasicOp::Addi8Ix => ops::addi_8_ix_effect(c0, c1, r),
        BasicOp::Addi8Aw => ops::addi_8_aw_effect(c0, c1, r),
        BasicOp::Addi8Al => ops::addi_8_al_effect(c0, c1, r),
        BasicOp::Addi16Dn => ops::addi_16_dn_effect(c0, c1, r),
        BasicOp::Addi16Ai => ops::addi_16_ai_effect(c0, c1, r),
        BasicOp::Addi16Pi => ops::addi_16_pi_effect(c0, c1, r),
        BasicOp::Addi16Pd => ops::addi_16_pd_effect(c0, c1, r),
        BasicOp::Addi16Di => ops::addi_16_di_effect(c0, c1, r),
        BasicOp::Addi16Ix => ops::addi_16_ix_effect(c0, c1, r),
        BasicOp::Addi16Aw => ops::addi_16_aw_effect(c0, c1, r),
        BasicOp::Addi16Al => ops::addi_16_al_effect(c0, c1, r),
        BasicOp::Addi32Dn => ops::addi_32_dn_effect(c0, c1, r),
        BasicOp::Addi32Ai => ops::addi_32_ai_effect(c0, c1, r),
        BasicOp::Addi32Pi => ops::addi_32_pi_effect(c0, c1, r),
        BasicOp::Addi32Pd => ops::addi_32_pd_effect(c0, c1, r),
        BasicOp::Addi32Di => ops::addi_32_di_effect(c0, c1, r),
        BasicOp::Addi32Ix => ops::addi_32_ix_effect(c0, c1, r),
        BasicOp::Addi32Aw => ops::addi_32_aw_effect(c0, c1, r),
        BasicOp::Addi32Al => ops::addi_32_al_effect(c0, c1, r),
        BasicOp::Addq8Dn => ops::addq_8_dn_effect(c0, c1, r),
        BasicOp::Addq8Ai => ops::addq_8_ai_effect(c0, c1, r),
        BasicOp::Addq8Pi => ops::addq_8_pi_effect(c0, c1, r),
        BasicOp::Addq8Pd => ops::addq_8_pd_effect(c0, c1, r),
        BasicOp::Addq8Di => ops::addq_8_di_effect(c0, c1, r),
        BasicOp::Addq8Ix => ops::addq_8_ix_effect(c0, c1, r),
        BasicOp::Addq8Aw => ops::addq_8_aw_effect(c0, c1, r),
        BasicOp::Addq8Al => ops::addq_8_al_effect(c0, c1, r),
        BasicOp::Addq16Dn => ops::addq_16_dn_effect(c0, c1, r),
        BasicOp::Addq16Ai => ops::addq_16_ai_effect(c0, c1, r),
        BasicOp::Addq16Pi => ops::addq_16_pi_effect(c0, c1, r),
        BasicOp::Addq16Pd => ops::addq_16_pd_effect(c0, c1, r),
        BasicOp::Addq16Di => ops::addq_16_di_effect(c0, c1, r),
        BasicOp::Addq16Ix => ops::addq_16_ix_effect(c0, c1, r),
        BasicOp::Addq16Aw => ops::addq_16_aw_effect(c0, c1, r),
        BasicOp::Addq16Al => ops::addq_16_al_effect(c0, c1, r),
        BasicOp::Addq32Dn => ops::addq_32_dn_effect(c0, c1, r),
        BasicOp::Addq32Ai => ops::addq_32_ai_effect(c0, c1, r),
        BasicOp::Addq32Pi => ops::addq_32_pi_effect(c0, c1, r),
        BasicOp::Addq32Pd => ops::addq_32_pd_effect(c0, c1, r),
        BasicOp::Addq32Di => ops::addq_32_di_effect(c0, c1, r),
        BasicOp::Addq32Ix => ops::addq_32_ix_effect(c0, c1, r),
        BasicOp::Addq32Aw => ops::addq_32_aw_effect(c0, c1, r),
        BasicOp::Addq32Al => ops::addq_32_al_effect(c0, c1, r),
        BasicOp::And8ErDn => ops::and_8_er_dn_effect(c0, c1, r),
        BasicOp::And8ErAi => ops::and_8_er_ai_effect(c0, c1, r),
        BasicOp::And8ErPi => ops::and_8_er_pi_effect(c0, c1, r),
        BasicOp::And8ErPd => ops::and_8_er_pd_effect(c0, c1, r),
        BasicOp::And8ErDi => ops::and_8_er_di_effect(c0, c1, r),
        BasicOp::And8ErIx => ops::and_8_er_ix_effect(c0, c1, r),
        BasicOp::And8ErAw => ops::and_8_er_aw_effect(c0, c1, r),
        BasicOp::And8ErAl => ops::and_8_er_al_effect(c0, c1, r),
        BasicOp::And8ErPcdi => ops::and_8_er_pcdi_effect(c0, c1, r),
        BasicOp::And8ErPcix => ops::and_8_er_pcix_effect(c0, c1, r),
        BasicOp::And8ErImm => ops::and_8_er_imm_effect(c0, c1, r),
        BasicOp::And8ReAi => ops::and_8_re_ai_effect(c0, c1, r),
        BasicOp::And8RePi => ops::and_8_re_pi_effect(c0, c1, r),
        BasicOp::And8RePd => ops::and_8_re_pd_effect(c0, c1, r),
        BasicOp::And8ReDi => ops::and_8_re_di_effect(c0, c1, r),
        BasicOp::And8ReIx => ops::and_8_re_ix_effect(c0, c1, r),
        BasicOp::And8ReAw => ops::and_8_re_aw_effect(c0, c1, r),
        BasicOp::And8ReAl => ops::and_8_re_al_effect(c0, c1, r),
        BasicOp::And16ErDn => ops::and_16_er_dn_effect(c0, c1, r),
        BasicOp::And16ErAi => ops::and_16_er_ai_effect(c0, c1, r),
        BasicOp::And16ErPi => ops::and_16_er_pi_effect(c0, c1, r),
        BasicOp::And16ErPd => ops::and_16_er_pd_effect(c0, c1, r),
        BasicOp::And16ErDi => ops::and_16_er_di_effect(c0, c1, r),
        BasicOp::And16ErIx => ops::and_16_er_ix_effect(c0, c1, r),
        BasicOp::And16ErAw => ops::and_16_er_aw_effect(c0, c1, r),
        BasicOp::And16ErAl => ops::and_16_er_al_effect(c0, c1, r),
        BasicOp::And16ErPcdi => ops::and_16_er_pcdi_effect(c0, c1, r),
        BasicOp::And16ErPcix => ops::and_16_er_pcix_effect(c0, c1, r),
        BasicOp::And16ErImm => ops::and_16_er_imm_effect(c0, c1, r),
        BasicOp::And16ReAi => ops::and_16_re_ai_effect(c0, c1, r),
        BasicOp::And16RePi => ops::and_16_re_pi_effect(c0, c1, r),
        BasicOp::And16RePd => ops::and_16_re_pd_effect(c0, c1, r),
        BasicOp::And16ReDi => ops::and_16_re_di_effect(c0, c1, r),
        BasicOp::And16ReIx => ops::and_16_re_ix_effect(c0, c1, r),
        BasicOp::And16ReAw => ops::and_16_re_aw_effect(c0, c1, r),
        BasicOp::And16ReAl => ops::and_16_re_al_effect(c0, c1, r),
        BasicOp::And32ErDn => ops::and_32_er_dn_effect(c0, c1, r),
        BasicOp::And32ErAi => ops::and_32_er_ai_effect(c0, c1, r),
        BasicOp::And32ErPi => ops::and_32_er_pi_effect(c0, c1, r),
        BasicOp::And32ErPd => ops::and_32_er_pd_effect(c0, c1, r),
        BasicOp::And32ErDi => ops::and_32_er_di_effect(c0, c1, r),
        BasicOp::And32ErIx => ops::and_32_er_ix_effect(c0, c1, r),
        BasicOp::And32ErAw => ops::and_32_er_aw_effect(c0, c1, r),
        BasicOp::And32ErAl => ops::and_32_er_al_effect(c0, c1, r),
        BasicOp::And32ErPcdi => ops::and_32_er_pcdi_effect(c0, c1, r),
        BasicOp::And32ErPcix => ops::and_32_er_pcix_effect(c0, c1, r),
        BasicOp::And32ErImm => ops::and_32_er_imm_effect(c0, c1, r),
        BasicOp::And32ReAi => ops::and_32_re_ai_effect(c0, c1, r),
        BasicOp::And32RePi => ops::and_32_re_pi_effect(c0, c1, r),
        BasicOp::And32RePd => ops::and_32_re_pd_effect(c0, c1, r),
        BasicOp::And32ReDi => ops::and_32_re_di_effect(c0, c1, r),
        BasicOp::And32ReIx => ops::and_32_re_ix_effect(c0, c1, r),
        BasicOp::And32ReAw => ops::and_32_re_aw_effect(c0, c1, r),
        BasicOp::And32ReAl => ops::and_32_re_al_effect(c0, c1, r),
        BasicOp::Andi8Dn => ops::andi_8_dn_effect(c0, c1, r),
        BasicOp::Andi8Ai => ops::andi_8_ai_effect(c0, c1, r),
        BasicOp::Andi8Pi => ops::andi_8_pi_effect(c0, c1, r),
        BasicOp::Andi8Pd => ops::andi_8_pd_effect(c0, c1, r),
        BasicOp::Andi8Di => ops::andi_8_di_effect(c0, c1, r),
        BasicOp::Andi8Ix => ops::andi_8_ix_effect(c0, c1, r),
        BasicOp::Andi8Aw => ops::andi_8_aw_effect(c0, c1, r),
        BasicOp::Andi8Al => ops::andi_8_al_effect(c0, c1, r),
        BasicOp::Andi16Dn => ops::andi_16_dn_effect(c0, c1, r),
        BasicOp::Andi16Ai => ops::andi_16_ai_effect(c0, c1, r),
        BasicOp::Andi16Pi => ops::andi_16_pi_effect(c0, c1, r),
        BasicOp::Andi16Pd => ops::andi_16_pd_effect(c0, c1, r),
        BasicOp::Andi16Di => ops::andi_16_di_effect(c0, c1, r),
        BasicOp::Andi16Ix => ops::andi_16_ix_effect(c0, c1, r),
        BasicOp::Andi16Aw => ops::andi_16_aw_effect(c0, c1, r),
        BasicOp::Andi16Al => ops::andi_16_al_effect(c0, c1, r),
        BasicOp::Andi32Dn => ops::andi_32_dn_effect(c0, c1, r),
        BasicOp::Andi32Ai => ops::andi_32_ai_effect(c0, c1, r),
        BasicOp::Andi32Pi => ops::andi_32_pi_effect(c0, c1, r),
        BasicOp::Andi32Pd => ops::andi_32_pd_effect(c0, c1, r),
        BasicOp::Andi32Di => ops::andi_32_di_effect(c0, c1, r),
        BasicOp::Andi32Ix => ops::andi_32_ix_effect(c0, c1, r),
        BasicOp::Andi32Aw => ops::andi_32_aw_effect(c0, c1, r),
        BasicOp::Andi32Al => ops::andi_32_al_effect(c0, c1, r),
        BasicOp::Cmpi8Dn => ops::cmpi_8_dn_effect(c0, c1, r),
        BasicOp::Cmpi8Ai => ops::cmpi_8_ai_effect(c0, c1, r),
        BasicOp::Cmpi8Pi => ops::cmpi_8_pi_effect(c0, c1, r),
        BasicOp::Cmpi8Pd => ops::cmpi_8_pd_effect(c0, c1, r),
        BasicOp::Cmpi8Di => ops::cmpi_8_di_effect(c0, c1, r),
        BasicOp::Cmpi8Ix => ops::cmpi_8_ix_effect(c0, c1, r),
        BasicOp::Cmpi8Aw => ops::cmpi_8_aw_effect(c0, c1, r),
        BasicOp::Cmpi8Al => ops::cmpi_8_al_effect(c0, c1, r),
        BasicOp::Cmpi16Dn => ops::cmpi_16_dn_effect(c0, c1, r),
        BasicOp::Cmpi16Ai => ops::cmpi_16_ai_effect(c0, c1, r),
        BasicOp::Cmpi16Pi => ops::cmpi_16_pi_effect(c0, c1, r),
        BasicOp::Cmpi16Pd => ops::cmpi_16_pd_effect(c0, c1, r),
        BasicOp::Cmpi16Di => ops::cmpi_16_di_effect(c0, c1, r),
        BasicOp::Cmpi16Ix => ops::cmpi_16_ix_effect(c0, c1, r),
        BasicOp::Cmpi16Aw => ops::cmpi_16_aw_effect(c0, c1, r),
        BasicOp::Cmpi16Al => ops::cmpi_16_al_effect(c0, c1, r),
        BasicOp::Cmpi32Dn => ops::cmpi_32_dn_effect(c0, c1, r),
        BasicOp::Cmpi32Ai => ops::cmpi_32_ai_effect(c0, c1, r),
        BasicOp::Cmpi32Pi => ops::cmpi_32_pi_effect(c0, c1, r),
        BasicOp::Cmpi32Pd => ops::cmpi_32_pd_effect(c0, c1, r),
        BasicOp::Cmpi32Di => ops::cmpi_32_di_effect(c0, c1, r),
        BasicOp::Cmpi32Ix => ops::cmpi_32_ix_effect(c0, c1, r),
        BasicOp::Cmpi32Aw => ops::cmpi_32_aw_effect(c0, c1, r),
        BasicOp::Cmpi32Al => ops::cmpi_32_al_effect(c0, c1, r),
        BasicOp::Eor8Dn => ops::eor_8_dn_effect(c0, c1, r),
        BasicOp::Eor8Ai => ops::eor_8_ai_effect(c0, c1, r),
        BasicOp::Eor8Pi => ops::eor_8_pi_effect(c0, c1, r),
        BasicOp::Eor8Pd => ops::eor_8_pd_effect(c0, c1, r),
        BasicOp::Eor8Di => ops::eor_8_di_effect(c0, c1, r),
        BasicOp::Eor8Ix => ops::eor_8_ix_effect(c0, c1, r),
        BasicOp::Eor8Aw => ops::eor_8_aw_effect(c0, c1, r),
        BasicOp::Eor8Al => ops::eor_8_al_effect(c0, c1, r),
        BasicOp::Eor16Dn => ops::eor_16_dn_effect(c0, c1, r),
        BasicOp::Eor16Ai => ops::eor_16_ai_effect(c0, c1, r),
        BasicOp::Eor16Pi => ops::eor_16_pi_effect(c0, c1, r),
        BasicOp::Eor16Pd => ops::eor_16_pd_effect(c0, c1, r),
        BasicOp::Eor16Di => ops::eor_16_di_effect(c0, c1, r),
        BasicOp::Eor16Ix => ops::eor_16_ix_effect(c0, c1, r),
        BasicOp::Eor16Aw => ops::eor_16_aw_effect(c0, c1, r),
        BasicOp::Eor16Al => ops::eor_16_al_effect(c0, c1, r),
        BasicOp::Eor32Dn => ops::eor_32_dn_effect(c0, c1, r),
        BasicOp::Eor32Ai => ops::eor_32_ai_effect(c0, c1, r),
        BasicOp::Eor32Pi => ops::eor_32_pi_effect(c0, c1, r),
        BasicOp::Eor32Pd => ops::eor_32_pd_effect(c0, c1, r),
        BasicOp::Eor32Di => ops::eor_32_di_effect(c0, c1, r),
        BasicOp::Eor32Ix => ops::eor_32_ix_effect(c0, c1, r),
        BasicOp::Eor32Aw => ops::eor_32_aw_effect(c0, c1, r),
        BasicOp::Eor32Al => ops::eor_32_al_effect(c0, c1, r),
        BasicOp::Eori8Dn => ops::eori_8_dn_effect(c0, c1, r),
        BasicOp::Eori8Ai => ops::eori_8_ai_effect(c0, c1, r),
        BasicOp::Eori8Pi => ops::eori_8_pi_effect(c0, c1, r),
        BasicOp::Eori8Pd => ops::eori_8_pd_effect(c0, c1, r),
        BasicOp::Eori8Di => ops::eori_8_di_effect(c0, c1, r),
        BasicOp::Eori8Ix => ops::eori_8_ix_effect(c0, c1, r),
        BasicOp::Eori8Aw => ops::eori_8_aw_effect(c0, c1, r),
        BasicOp::Eori8Al => ops::eori_8_al_effect(c0, c1, r),
        BasicOp::Eori16Dn => ops::eori_16_dn_effect(c0, c1, r),
        BasicOp::Eori16Ai => ops::eori_16_ai_effect(c0, c1, r),
        BasicOp::Eori16Pi => ops::eori_16_pi_effect(c0, c1, r),
        BasicOp::Eori16Pd => ops::eori_16_pd_effect(c0, c1, r),
        BasicOp::Eori16Di => ops::eori_16_di_effect(c0, c1, r),
        BasicOp::Eori16Ix => ops::eori_16_ix_effect(c0, c1, r),
        BasicOp::Eori16Aw => ops::eori_16_aw_effect(c0, c1, r),
        BasicOp::Eori16Al => ops::eori_16_al_effect(c0, c1, r),
        BasicOp::Eori32Dn => ops::eori_32_dn_effect(c0, c1, r),
        BasicOp::Eori32Ai => ops::eori_32_ai_effect(c0, c1, r),
        BasicOp::Eori32Pi => ops::eori_32_pi_effect(c0, c1, r),
        BasicOp::Eori32Pd => ops::eori_32_pd_effect(c0, c1, r),
        BasicOp::Eori32Di => ops::eori_32_di_effect(c0, c1, r),
        BasicOp::Eori32Ix => ops::eori_32_ix_effect(c0, c1, r),
        BasicOp::Eori32Aw => ops::eori_32_aw_effect(c0, c1, r),
        BasicOp::Eori32Al => ops::eori_32_al_effect(c0, c1, r),
        BasicOp::Or8ErDn => ops::or_8_er_dn_effect(c0, c1, r),
        BasicOp::Or8ErAi => ops::or_8_er_ai_effect(c0, c1, r),
        BasicOp::Or8ErPi => ops::or_8_er_pi_effect(c0, c1, r),
        BasicOp::Or8ErPd => ops::or_8_er_pd_effect(c0, c1, r),
        BasicOp::Or8ErDi => ops::or_8_er_di_effect(c0, c1, r),
        BasicOp::Or8ErIx => ops::or_8_er_ix_effect(c0, c1, r),
        BasicOp::Or8ErAw => ops::or_8_er_aw_effect(c0, c1, r),
        BasicOp::Or8ErAl => ops::or_8_er_al_effect(c0, c1, r),
        BasicOp::Or8ErPcdi => ops::or_8_er_pcdi_effect(c0, c1, r),
        BasicOp::Or8ErPcix => ops::or_8_er_pcix_effect(c0, c1, r),
        BasicOp::Or8ErImm => ops::or_8_er_imm_effect(c0, c1, r),
        BasicOp::Or8ReAi => ops::or_8_re_ai_effect(c0, c1, r),
        BasicOp::Or8RePi => ops::or_8_re_pi_effect(c0, c1, r),
        BasicOp::Or8RePd => ops::or_8_re_pd_effect(c0, c1, r),
        BasicOp::Or8ReDi => ops::or_8_re_di_effect(c0, c1, r),
        BasicOp::Or8ReIx => ops::or_8_re_ix_effect(c0, c1, r),
        BasicOp::Or8ReAw => ops::or_8_re_aw_effect(c0, c1, r),
        BasicOp::Or8ReAl => ops::or_8_re_al_effect(c0, c1, r),
        BasicOp::Or16ErDn => ops::or_16_er_dn_effect(c0, c1, r),
        BasicOp::Or16ErAi => ops::or_16_er_ai_effect(c0, c1, r),
        BasicOp::Or16ErPi => ops::or_16_er_pi_effect(c0, c1, r),
        BasicOp::Or16ErPd => ops::or_16_er_pd_effect(c0, c1, r),
        BasicOp::Or16ErDi => ops::or_16_er_di_effect(c0, c1, r),
        BasicOp::Or16ErIx => ops::or_16_er_ix_effect(c0, c1, r),
        BasicOp::Or16ErAw => ops::or_16_er_aw_effect(c0, c1, r),
        BasicOp::Or16ErAl => ops::or_16_er_al_effect(c0, c1, r),
        BasicOp::Or16ErPcdi => ops::or_16_er_pcdi_effect(c0, c1, r),
        BasicOp::Or16ErPcix => ops::or_16_er_pcix_effect(c0, c1, r),
        BasicOp::Or16ErImm => ops::or_16_er_imm_effect(c0, c1, r),
        BasicOp::Or16ReAi => ops::or_16_re_ai_effect(c0, c1, r),
        BasicOp::Or16RePi => ops::or_16_re_pi_effect(c0, c1, r),
        BasicOp::Or16RePd => ops::or_16_re_pd_effect(c0, c1, r),
        BasicOp::Or16ReDi => ops::or_16_re_di_effect(c0, c1, r),
        BasicOp::Or16ReIx => ops::or_16_re_ix_effect(c0, c1, r),
        BasicOp::Or16ReAw => ops::or_16_re_aw_effect(c0, c1, r),
        BasicOp::Or16ReAl => ops::or_16_re_al_effect(c0, c1, r),
        BasicOp::Or32ErDn => ops::or_32_er_dn_effect(c0, c1, r),
        BasicOp::Or32ErAi => ops::or_32_er_ai_effect(c0, c1, r),
        BasicOp::Or32ErPi => ops::or_32_er_pi_effect(c0, c1, r),
        BasicOp::Or32ErPd => ops::or_32_er_pd_effect(c0, c1, r),
        BasicOp::Or32ErDi => ops::or_32_er_di_effect(c0, c1, r),
        BasicOp::Or32ErIx => ops::or_32_er_ix_effect(c0, c1, r),
        BasicOp::Or32ErAw => ops::or_32_er_aw_effect(c0, c1, r),
        BasicOp::Or32ErAl => ops::or_32_er_al_effect(c0, c1, r),
        BasicOp::Or32ErPcdi => ops::or_32_er_pcdi_effect(c0, c1, r),
        BasicOp::Or32ErPcix => ops::or_32_er_pcix_effect(c0, c1, r),
        BasicOp::Or32ErImm => ops::or_32_er_imm_effect(c0, c1, r),
        BasicOp::Or32ReAi => ops::or_32_re_ai_effect(c0, c1, r),
        BasicOp::Or32RePi => ops::or_32_re_pi_effect(c0, c1, r),
        BasicOp::Or32RePd => ops::or_32_re_pd_effect(c0, c1, r),
        BasicOp::Or32ReDi => ops::or_32_re_di_effect(c0, c1, r),
        BasicOp::Or32ReIx => ops::or_32_re_ix_effect(c0, c1, r),
        BasicOp::Or32ReAw => ops::or_32_re_aw_effect(c0, c1, r),
        BasicOp::Or32ReAl => ops::or_32_re_al_effect(c0, c1, r),
        BasicOp::Ori8Dn => ops::ori_8_dn_effect(c0, c1, r),
        BasicOp::Ori8Ai => ops::ori_8_ai_effect(c0, c1, r),
        BasicOp::Ori8Pi => ops::ori_8_pi_effect(c0, c1, r),
        BasicOp::Ori8Pd => ops::ori_8_pd_effect(c0, c1, r),
        BasicOp::Ori8Di => ops::ori_8_di_effect(c0, c1, r),
        BasicOp::Ori8Ix => ops::ori_8_ix_effect(c0, c1, r),
        BasicOp::Ori8Aw => ops::ori_8_aw_effect(c0, c1, r),
        BasicOp::Ori8Al => ops::ori_8_al_effect(c0, c1, r),
        BasicOp::Ori16Dn => ops::ori_16_dn_effect(c0, c1, r),
        BasicOp::Ori16Ai => ops::ori_16_ai_effect(c0, c1, r),
        BasicOp::Ori16Pi => ops::ori_16_pi_effect(c0, c1, r),
        BasicOp::Ori16Pd => ops::ori_16_pd_effect(c0, c1, r),
        BasicOp::Ori16Di => ops::ori_16_di_effect(c0, c1, r),
        BasicOp::Ori16Ix => ops::ori_16_ix_effect(c0, c1, r),
        BasicOp::Ori16Aw => ops::ori_16_aw_effect(c0, c1, r),
        BasicOp::Ori16Al => ops::ori_16_al_effect(c0, c1, r),
        BasicOp::Ori32Dn => ops::ori_32_dn_effect(c0, c1, r),
        BasicOp::Ori32Ai => ops::ori_32_ai_effect(c0, c1, r),
        BasicOp::Ori32Pi => ops::ori_32_pi_effect(c0, c1, r),
        BasicOp::Ori32Pd => ops::ori_32_pd_effect(c0, c1, r),
        BasicOp::Ori32Di => ops::ori_32_di_effect(c0, c1, r),
        BasicOp::Ori32Ix => ops::ori_32_ix_effect(c0, c1, r),
        BasicOp::Ori32Aw => ops::ori_32_aw_effect(c0, c1, r),
        BasicOp::Ori32Al => ops::ori_32_al_effect(c0, c1, r),
        BasicOp::Sub8ErDn => ops::sub_8_er_dn_effect(c0, c1, r),
        BasicOp::Sub8ErAi => ops::sub_8_er_ai_effect(c0, c1, r),
        BasicOp::Sub8ErPi => ops::sub_8_er_pi_effect(c0, c1, r),
        BasicOp::Sub8ErPd => ops::sub_8_er_pd_effect(c0, c1, r),
        BasicOp::Sub8ErDi => ops::sub_8_er_di_effect(c0, c1, r),
        BasicOp::Sub8ErIx => ops::sub_8_er_ix_effect(c0, c1, r),
        BasicOp::Sub8ErAw => ops::sub_8_er_aw_effect(c0, c1, r),
        BasicOp::Sub8ErAl => ops::sub_8_er_al_effect(c0, c1, r),
        BasicOp::Sub8ErPcdi => ops::sub_8_er_pcdi_effect(c0, c1, r),
        BasicOp::Sub8ErPcix => ops::sub_8_er_pcix_effect(c0, c1, r),
        BasicOp::Sub8ErImm => ops::sub_8_er_imm_effect(c0, c1, r),
        BasicOp::Sub8ReAi => ops::sub_8_re_ai_effect(c0, c1, r),
        BasicOp::Sub8RePi => ops::sub_8_re_pi_effect(c0, c1, r),
        BasicOp::Sub8RePd => ops::sub_8_re_pd_effect(c0, c1, r),
        BasicOp::Sub8ReDi => ops::sub_8_re_di_effect(c0, c1, r),
        BasicOp::Sub8ReIx => ops::sub_8_re_ix_effect(c0, c1, r),
        BasicOp::Sub8ReAw => ops::sub_8_re_aw_effect(c0, c1, r),
        BasicOp::Sub8ReAl => ops::sub_8_re_al_effect(c0, c1, r),
        BasicOp::Sub16ErDn => ops::sub_16_er_dn_effect(c0, c1, r),
        BasicOp::Sub16ErAn => ops::sub_16_er_an_effect(c0, c1, r),
        BasicOp::Sub16ErAi => ops::sub_16_er_ai_effect(c0, c1, r),
        BasicOp::Sub16ErPi => ops::sub_16_er_pi_effect(c0, c1, r),
        BasicOp::Sub16ErPd => ops::sub_16_er_pd_effect(c0, c1, r),
        BasicOp::Sub16ErDi => ops::sub_16_er_di_effect(c0, c1, r),
        BasicOp::Sub16ErIx => ops::sub_16_er_ix_effect(c0, c1, r),
        BasicOp::Sub16ErAw => ops::sub_16_er_aw_effect(c0, c1, r),
        BasicOp::Sub16ErAl => ops::sub_16_er_al_effect(c0, c1, r),
        BasicOp::Sub16ErPcdi => ops::sub_16_er_pcdi_effect(c0, c1, r),
        BasicOp::Sub16ErPcix => ops::sub_16_er_pcix_effect(c0, c1, r),
        BasicOp::Sub16ErImm => ops::sub_16_er_imm_effect(c0, c1, r),
        BasicOp::Sub16ReAi => ops::sub_16_re_ai_effect(c0, c1, r),
        BasicOp::Sub16RePi => ops::sub_16_re_pi_effect(c0, c1, r),
        BasicOp::Sub16RePd => ops::sub_16_re_pd_effect(c0, c1, r),
        BasicOp::Sub16ReDi => ops::sub_16_re_di_effect(c0, c1, r),
        BasicOp::Sub16ReIx => ops::sub_16_re_ix_effect(c0, c1, r),
        BasicOp::Sub16ReAw => ops::sub_16_re_aw_effect(c0, c1, r),
        BasicOp::Sub16ReAl => ops::sub_16_re_al_effect(c0, c1, r),
        BasicOp::Sub32ErDn => ops::sub_32_er_dn_effect(c0, c1, r),
        BasicOp::Sub32ErAn => ops::sub_32_er_an_effect(c0, c1, r),
        BasicOp::Sub32ErAi => ops::sub_32_er_ai_effect(c0, c1, r),
        BasicOp::Sub32ErPi => ops::sub_32_er_pi_effect(c0, c1, r),
        BasicOp::Sub32ErPd => ops::sub_32_er_pd_effect(c0, c1, r),
        BasicOp::Sub32ErDi => ops::sub_32_er_di_effect(c0, c1, r),
        BasicOp::Sub32ErIx => ops::sub_32_er_ix_effect(c0, c1, r),
        BasicOp::Sub32ErAw => ops::sub_32_er_aw_effect(c0, c1, r),
        BasicOp::Sub32ErAl => ops::sub_32_er_al_effect(c0, c1, r),
        BasicOp::Sub32ErPcdi => ops::sub_32_er_pcdi_effect(c0, c1, r),
        BasicOp::Sub32ErPcix => ops::sub_32_er_pcix_effect(c0, c1, r),
        BasicOp::Sub32ErImm => ops::sub_32_er_imm_effect(c0, c1, r),
        BasicOp::Sub32ReAi => ops::sub_32_re_ai_effect(c0, c1, r),
        BasicOp::Sub32RePi => ops::sub_32_re_pi_effect(c0, c1, r),
        BasicOp::Sub32RePd => ops::sub_32_re_pd_effect(c0, c1, r),
        BasicOp::Sub32ReDi => ops::sub_32_re_di_effect(c0, c1, r),
        BasicOp::Sub32ReIx => ops::sub_32_re_ix_effect(c0, c1, r),
        BasicOp::Sub32ReAw => ops::sub_32_re_aw_effect(c0, c1, r),
        BasicOp::Sub32ReAl => ops::sub_32_re_al_effect(c0, c1, r),
        BasicOp::Subi8Dn => ops::subi_8_dn_effect(c0, c1, r),
        BasicOp::Subi8Ai => ops::subi_8_ai_effect(c0, c1, r),
        BasicOp::Subi8Pi => ops::subi_8_pi_effect(c0, c1, r),
        BasicOp::Subi8Pd => ops::subi_8_pd_effect(c0, c1, r),
        BasicOp::Subi8Di => ops::subi_8_di_effect(c0, c1, r),
        BasicOp::Subi8Ix => ops::subi_8_ix_effect(c0, c1, r),
        BasicOp::Subi8Aw => ops::subi_8_aw_effect(c0, c1, r),
        BasicOp::Subi8Al => ops::subi_8_al_effect(c0, c1, r),
        BasicOp::Subi16Dn => ops::subi_16_dn_effect(c0, c1, r),
        BasicOp::Subi16Ai => ops::subi_16_ai_effect(c0, c1, r),
        BasicOp::Subi16Pi => ops::subi_16_pi_effect(c0, c1, r),
        BasicOp::Subi16Pd => ops::subi_16_pd_effect(c0, c1, r),
        BasicOp::Subi16Di => ops::subi_16_di_effect(c0, c1, r),
        BasicOp::Subi16Ix => ops::subi_16_ix_effect(c0, c1, r),
        BasicOp::Subi16Aw => ops::subi_16_aw_effect(c0, c1, r),
        BasicOp::Subi16Al => ops::subi_16_al_effect(c0, c1, r),
        BasicOp::Subi32Dn => ops::subi_32_dn_effect(c0, c1, r),
        BasicOp::Subi32Ai => ops::subi_32_ai_effect(c0, c1, r),
        BasicOp::Subi32Pi => ops::subi_32_pi_effect(c0, c1, r),
        BasicOp::Subi32Pd => ops::subi_32_pd_effect(c0, c1, r),
        BasicOp::Subi32Di => ops::subi_32_di_effect(c0, c1, r),
        BasicOp::Subi32Ix => ops::subi_32_ix_effect(c0, c1, r),
        BasicOp::Subi32Aw => ops::subi_32_aw_effect(c0, c1, r),
        BasicOp::Subi32Al => ops::subi_32_al_effect(c0, c1, r),
        BasicOp::Subq8Dn => ops::subq_8_dn_effect(c0, c1, r),
        BasicOp::Subq8Ai => ops::subq_8_ai_effect(c0, c1, r),
        BasicOp::Subq8Pi => ops::subq_8_pi_effect(c0, c1, r),
        BasicOp::Subq8Pd => ops::subq_8_pd_effect(c0, c1, r),
        BasicOp::Subq8Di => ops::subq_8_di_effect(c0, c1, r),
        BasicOp::Subq8Ix => ops::subq_8_ix_effect(c0, c1, r),
        BasicOp::Subq8Aw => ops::subq_8_aw_effect(c0, c1, r),
        BasicOp::Subq8Al => ops::subq_8_al_effect(c0, c1, r),
        BasicOp::Subq16Dn => ops::subq_16_dn_effect(c0, c1, r),
        BasicOp::Subq16Ai => ops::subq_16_ai_effect(c0, c1, r),
        BasicOp::Subq16Pi => ops::subq_16_pi_effect(c0, c1, r),
        BasicOp::Subq16Pd => ops::subq_16_pd_effect(c0, c1, r),
        BasicOp::Subq16Di => ops::subq_16_di_effect(c0, c1, r),
        BasicOp::Subq16Ix => ops::subq_16_ix_effect(c0, c1, r),
        BasicOp::Subq16Aw => ops::subq_16_aw_effect(c0, c1, r),
        BasicOp::Subq16Al => ops::subq_16_al_effect(c0, c1, r),
        BasicOp::Subq32Dn => ops::subq_32_dn_effect(c0, c1, r),
        BasicOp::Subq32Ai => ops::subq_32_ai_effect(c0, c1, r),
        BasicOp::Subq32Pi => ops::subq_32_pi_effect(c0, c1, r),
        BasicOp::Subq32Pd => ops::subq_32_pd_effect(c0, c1, r),
        BasicOp::Subq32Di => ops::subq_32_di_effect(c0, c1, r),
        BasicOp::Subq32Ix => ops::subq_32_ix_effect(c0, c1, r),
        BasicOp::Subq32Aw => ops::subq_32_aw_effect(c0, c1, r),
        BasicOp::Subq32Al => ops::subq_32_al_effect(c0, c1, r),
        BasicOp::Abcd8Rr => ops::abcd_8_rr_effect(c0, c1, r),
        BasicOp::Abcd8Mm => ops::abcd_8_mm_effect(c0, c1, r),
        BasicOp::Addx8Rr => ops::addx_8_rr_effect(c0, c1, r),
        BasicOp::Addx8Mm => ops::addx_8_mm_effect(c0, c1, r),
        BasicOp::Addx16Rr => ops::addx_16_rr_effect(c0, c1, r),
        BasicOp::Addx16Mm => ops::addx_16_mm_effect(c0, c1, r),
        BasicOp::Addx32Rr => ops::addx_32_rr_effect(c0, c1, r),
        BasicOp::Addx32Mm => ops::addx_32_mm_effect(c0, c1, r),
        BasicOp::Cmp8Dn => ops::cmp_8_dn_effect(c0, c1, r),
        BasicOp::Cmp8Ai => ops::cmp_8_ai_effect(c0, c1, r),
        BasicOp::Cmp8Pi => ops::cmp_8_pi_effect(c0, c1, r),
        BasicOp::Cmp8Pd => ops::cmp_8_pd_effect(c0, c1, r),
        BasicOp::Cmp8Di => ops::cmp_8_di_effect(c0, c1, r),
        BasicOp::Cmp8Ix => ops::cmp_8_ix_effect(c0, c1, r),
        BasicOp::Cmp8Aw => ops::cmp_8_aw_effect(c0, c1, r),
        BasicOp::Cmp8Al => ops::cmp_8_al_effect(c0, c1, r),
        BasicOp::Cmp8Pcdi => ops::cmp_8_pcdi_effect(c0, c1, r),
        BasicOp::Cmp8Pcix => ops::cmp_8_pcix_effect(c0, c1, r),
        BasicOp::Cmp8Imm => ops::cmp_8_imm_effect(c0, c1, r),
        BasicOp::Cmp16Dn => ops::cmp_16_dn_effect(c0, c1, r),
        BasicOp::Cmp16An => ops::cmp_16_an_effect(c0, c1, r),
        BasicOp::Cmp16Ai => ops::cmp_16_ai_effect(c0, c1, r),
        BasicOp::Cmp16Pi => ops::cmp_16_pi_effect(c0, c1, r),
        BasicOp::Cmp16Pd => ops::cmp_16_pd_effect(c0, c1, r),
        BasicOp::Cmp16Di => ops::cmp_16_di_effect(c0, c1, r),
        BasicOp::Cmp16Ix => ops::cmp_16_ix_effect(c0, c1, r),
        BasicOp::Cmp16Aw => ops::cmp_16_aw_effect(c0, c1, r),
        BasicOp::Cmp16Al => ops::cmp_16_al_effect(c0, c1, r),
        BasicOp::Cmp16Pcdi => ops::cmp_16_pcdi_effect(c0, c1, r),
        BasicOp::Cmp16Pcix => ops::cmp_16_pcix_effect(c0, c1, r),
        BasicOp::Cmp16Imm => ops::cmp_16_imm_effect(c0, c1, r),
        BasicOp::Cmp32Dn => ops::cmp_32_dn_effect(c0, c1, r),
        BasicOp::Cmp32An => ops::cmp_32_an_effect(c0, c1, r),
        BasicOp::Cmp32Ai => ops::cmp_32_ai_effect(c0, c1, r),
        BasicOp::Cmp32Pi => ops::cmp_32_pi_effect(c0, c1, r),
        BasicOp::Cmp32Pd => ops::cmp_32_pd_effect(c0, c1, r),
        BasicOp::Cmp32Di => ops::cmp_32_di_effect(c0, c1, r),
        BasicOp::Cmp32Ix => ops::cmp_32_ix_effect(c0, c1, r),
        BasicOp::Cmp32Aw => ops::cmp_32_aw_effect(c0, c1, r),
        BasicOp::Cmp32Al => ops::cmp_32_al_effect(c0, c1, r),
        BasicOp::Cmp32Pcdi => ops::cmp_32_pcdi_effect(c0, c1, r),
        BasicOp::Cmp32Pcix => ops::cmp_32_pcix_effect(c0, c1, r),
        BasicOp::Cmp32Imm => ops::cmp_32_imm_effect(c0, c1, r),
        BasicOp::Cmpm8 => ops::cmpm_8_effect(c0, c1, r),
        BasicOp::Cmpm16 => ops::cmpm_16_effect(c0, c1, r),
        BasicOp::Cmpm32 => ops::cmpm_32_effect(c0, c1, r),
        BasicOp::Sbcd8Rr => ops::sbcd_8_rr_effect(c0, c1, r),
        BasicOp::Sbcd8Mm => ops::sbcd_8_mm_effect(c0, c1, r),
        BasicOp::Subx8Rr => ops::subx_8_rr_effect(c0, c1, r),
        BasicOp::Subx8Mm => ops::subx_8_mm_effect(c0, c1, r),
        BasicOp::Subx16Rr => ops::subx_16_rr_effect(c0, c1, r),
        BasicOp::Subx16Mm => ops::subx_16_mm_effect(c0, c1, r),
        BasicOp::Subx32Rr => ops::subx_32_rr_effect(c0, c1, r),
        BasicOp::Subx32Mm => ops::subx_32_mm_effect(c0, c1, r),
        BasicOp::Unimplemented1010 => ops::unimplemented_1010_effect(c0, c1, r),
        BasicOp::Unimplemented1111 => ops::unimplemented_1111_effect(c0, c1, r),
    }
}

#[verifier::spinoff_prover]
#[verifier::rlimit(80)]
fn run_basic(core: &mut ConfiguredCore, op: BasicOp) -> (r: Result<Cycles>)
    requires
        old(core).wf(),
    ensures
        final(core).wf(),
        basic_effect(op, *old(core), *final(core), r),
{
    match op {
        BasicOp::RealIllegal => ops::real_illegal(core),
        BasicOp::Nop => ops::nop(core),
        BasicOp::Reset => ops::reset(core),
        BasicOp::Stop => ops::stop(core),
        BasicOp::Rte32 => ops::rte_32(core),
        BasicOp::Rts32 => ops::rts_32(core),
        BasicOp::Trapv => ops::trapv(core),
        BasicOp::Rtr32 => ops::rtr_32(core),
        BasicOp::Andi8Toc => ops::andi_8_toc(core),
        BasicOp::Andi16Tos => ops::andi_16_tos(core),
        BasicOp::Eori8Toc => ops::eori_8_toc(core),
        BasicOp::Eori16Tos => ops::eori_16_tos(core),
        BasicOp::Ori8Toc => ops::ori_8_toc(core),
        BasicOp::Ori16Tos => ops::ori_16_tos(core),
        BasicOp::Bra16 => ops::bra_16(core),
        BasicOp::Bsr16 => ops::bsr_16(core),
        BasicOp::Trap => ops::trap(core),
        BasicOp::Link16 => ops::link_16(core),
        BasicOp::Unlk32 => ops::unlk_32(core),
        BasicOp::Move32Tou => ops::move_32_tou(core),
        BasicOp::Move32Fru => ops::move_32_fru(core),
        BasicOp::Swap32Dn => ops::swap_32_dn(core),
        BasicOp::ExtBw => ops::ext_bw(core),
        BasicOp::ExtWl => ops::ext_wl(core),
        BasicOp::Exg32Dd => ops::exg_32_dd(core),
        BasicOp::Exg32Aa => ops::exg_32_aa(core),
        BasicOp::Exg32Da => ops::exg_32_da(core),
        BasicOp::Moveq32 => ops::moveq_32(core),
        BasicOp::Bra8 => ops::bra_8(core),
        BasicOp::Bsr8 => ops::bsr_8(core),
        BasicOp::Addq16An => ops::addq_16_an(core),
        BasicOp::Addq32An => ops::addq_32_an(core),
        BasicOp::Subq16An => ops::subq_16_an(core),
        BasicOp::Subq32An => ops::subq_32_an(core),
        BasicOp::Bchg32RDn => ops::bchg_32_r_dn(core),
        BasicOp::Bchg32SDn => ops::bchg_32_s_dn(core),
        BasicOp::Bclr32RDn => ops::bclr_32_r_dn(core),
        BasicOp::Bclr32SDn => ops::bclr_32_s_dn(core),
        BasicOp::Bset32RDn => ops::bset_32_r_dn(core),
        BasicOp::Bset32SDn => ops::bset_32_s_dn(core),
        BasicOp::Btst32RDn => ops::btst_32_r_dn(core),
        BasicOp::Btst32SDn => ops::btst_32_s_dn(core),
        BasicOp::Clr8Dn => ops::clr_8_dn(core),
        BasicOp::Clr16Dn => ops::clr_16_dn(core),
        BasicOp::Clr32Dn => ops::clr_32_dn(core),
        BasicOp::Movep16Er => ops::movep_16_er(core),
        BasicOp::Movep16Re => ops::movep_16_re(core),
        BasicOp::Movep32Er => ops::movep_32_er(core),
        BasicOp::Movep32Re => ops::movep_32_re(core),
        BasicOp::Chk16Ai => ops::chk_16_ai(core),
        BasicOp::Chk16Al => ops::chk_16_al(core),
        BasicOp::Chk16Aw => ops::chk_16_aw(core),
        BasicOp::Chk16Dn => ops::chk_16_dn(core),
        BasicOp::Chk16Di => ops::chk_16_di(core),
        BasicOp::Chk16Imm => ops::chk_16_imm(core),
        BasicOp::Chk16Ix => ops::chk_16_ix(core),
        BasicOp::Chk16Pcdi => ops::chk_16_pcdi(core),
        BasicOp::Chk16Pcix => ops::chk_16_pcix(core),
        BasicOp::Chk16Pd => ops::chk_16_pd(core),
        BasicOp::Chk16Pi => ops::chk_16_pi(core),
        BasicOp::Add8ErDn => ops::add_8_er_dn(core),
        BasicOp::Add8ErAi => ops::add_8_er_ai(core),
        BasicOp::Add8ErPi => ops::add_8_er_pi(core),
        BasicOp::Add8ErPd => ops::add_8_er_pd(core),
        BasicOp::Add8ErDi => ops::add_8_er_di(core),
        BasicOp::Add8ErIx => ops::add_8_er_ix(core),
        BasicOp::Add8ErAw => ops::add_8_er_aw(core),
        BasicOp::Add8ErAl => ops::add_8_er_al(core),
        BasicOp::Add8ErPcdi => ops::add_8_er_pcdi(core),
        BasicOp::Add8ErPcix => ops::add_8_er_pcix(core),
        BasicOp::Add8ErImm => ops::add_8_er_imm(core),
        BasicOp::Add8ReAi => ops::add_8_re_ai(core),
        BasicOp::Add8RePi => ops::add_8_re_pi(core),
        BasicOp::Add8RePd => ops::add_8_re_pd(core),
        BasicOp::Add8ReDi => ops::add_8_re_di(core),
        BasicOp::Add8ReIx => ops::add_8_re_ix(core),
        BasicOp::Add8ReAw => ops::add_8_re_aw(core),
        BasicOp::Add8ReAl => ops::add_8_re_al(core),
        BasicOp::Add16ErDn => ops::add_16_er_dn(core),
        BasicOp::Add16ErAn => ops::add_16_er_an(core),
        BasicOp::Add16ErAi => ops::add_16_er_ai(core),
        BasicOp::Add16ErPi => ops::add_16_er_pi(core),
        BasicOp::Add16ErPd => ops::add_16_er_pd(core),
        BasicOp::Add16ErDi => ops::add_16_er_di(core),
        BasicOp::Add16ErIx => ops::add_16_er_ix(core),
        BasicOp::Add16ErAw => ops::add_16_er_aw(core),
        BasicOp::Add16ErAl => ops::add_16_er_al(core),
        BasicOp::Add16ErPcdi => ops::add_16_er_pcdi(core),
        BasicOp::Add16ErPcix => ops::add_16_er_pcix(core),
        BasicOp::Add16ErImm => ops::add_16_er_imm(core),
        BasicOp::Add16ReAi => ops::add_16_re_ai(core),
        BasicOp::Add16RePi => ops::add_16_re_pi(core),
        BasicOp::Add16RePd => ops::add_16_re_pd(core),
        BasicOp::Add16ReDi => ops::add_16_re_di(core),
        BasicOp::Add16ReIx => ops::add_16_re_ix(core),
        BasicOp::Add16ReAw => ops::add_16_re_aw(core),
        BasicOp::Add16ReAl => ops::add_16_re_al(core),
        BasicOp::Add32ErDn => ops::add_32_er_dn(core),
        BasicOp::Add32ErAn => ops::add_32_er_an(core),
        BasicOp::Add32ErAi => ops::add_32_er_ai(core),
        BasicOp::Add32ErPi => ops::add_32_er_pi(core),
        BasicOp::Add32ErPd => ops::add_32_er_pd(core),
        BasicOp::Add32ErDi => ops::add_32_er_di(core),
        BasicOp::Add32ErIx => ops::add_32_er_ix(core),
        BasicOp::Add32ErAw => ops::add_32_er_aw(core),
        BasicOp::Add32ErAl => ops::add_32_er_al(core),
        BasicOp::Add32ErPcdi => ops::add_32_er_pcdi(core),
        BasicOp::Add32ErPcix => ops::add_32_er_pcix(core),
        BasicOp::Add32ErImm => ops::add_32_er_imm(core),
        BasicOp::Add32ReAi => ops::add_32_re_ai(core),
        BasicOp::Add32RePi => ops::add_32_re_pi(core),
        BasicOp::Add32RePd => ops::add_32_re_pd(core),
        BasicOp::Add32ReDi => ops::add_32_re_di(core),
        BasicOp::Add32ReIx => ops::add_32_re_ix(core),
        BasicOp::Add32ReAw => ops::add_32_re_aw(core),
        BasicOp::Add32ReAl => ops::add_32_re_al(core),
        BasicOp::Addi8Dn => ops::addi_8_dn(core),
        BasicOp::Addi8Ai => ops::addi_8_ai(core),
        BasicOp::Addi8Pi => ops::addi_8_pi(core),
        BasicOp::Addi8Pd => ops::addi_8_pd(core),
        BasicOp::Addi8Di => ops::addi_8_di(core),
        BasicOp::Addi8Ix => ops::addi_8_ix(core),
        BasicOp::Addi8Aw => ops::addi_8_aw(core),
        BasicOp::Addi8Al => ops::addi_8_al(core),
        BasicOp::Addi16Dn => ops::addi_16_dn(core),
        BasicOp::Addi16Ai => ops::addi_16_ai(core),
        BasicOp::Addi16Pi => ops::addi_16_pi(core),
        BasicOp::Addi16Pd => ops::addi_16_pd(core),
        BasicOp::Addi16Di => ops::addi_16_di(core),
        BasicOp::Addi16Ix => ops::addi_16_ix(core),
        BasicOp::Addi16Aw => ops::addi_16_aw(core),
        BasicOp::Addi16Al => ops::addi_16_al(core),
        BasicOp::Addi32Dn => ops::addi_32_dn(core),
        BasicOp::Addi32Ai => ops::addi_32_ai(core),
        BasicOp::Addi32Pi => ops::addi_32_pi(core),
        BasicOp::Addi32Pd => ops::addi_32_pd(core),
        BasicOp::Addi32Di => ops::addi_32_di(core),
        BasicOp::Addi32Ix => ops::addi_32_ix(core),
        BasicOp::Addi32Aw => ops::addi_32_aw(core),
        BasicOp::Addi32Al => ops::addi_32_al(core),
        BasicOp::Addq8Dn => ops::addq_8_dn(core),
        BasicOp::Addq8Ai => ops::addq_8_ai(core),
        BasicOp::Addq8Pi => ops::addq_8_pi(core),
        BasicOp::Addq8Pd => ops::addq_8_pd(core),
        BasicOp::Addq8Di => ops::addq_8_di(core),
        BasicOp::Addq8Ix => ops::addq_8_ix(core),
        BasicOp::Addq8Aw => ops::addq_8_aw(core),
        BasicOp::Addq8Al => ops::addq_8_al(core),
        BasicOp::Addq16Dn => ops::addq_16_dn(core),
        BasicOp::Addq16Ai => ops::addq_16_ai(core),
        BasicOp::Addq16Pi => ops::addq_16_pi(core),
        BasicOp::Addq16Pd => ops::addq_16_pd(core),
        BasicOp::Addq16Di => ops::addq_16_di(core),
        BasicOp::Addq16Ix => ops::addq_16_ix(core),
        BasicOp::Addq16Aw => ops::addq_16_aw(core),
        BasicOp::Addq16Al => ops::addq_16_al(core),
        BasicOp::Addq32Dn => ops::addq_32_dn(core),
        BasicOp::Addq32Ai => ops::addq_32_ai(core),
        BasicOp::Addq32Pi => ops::addq_32_pi(core),
        BasicOp::Addq32Pd => ops::addq_32_pd(core),
        BasicOp::Addq32Di => ops::addq_32_di(core),
        BasicOp::Addq32Ix => ops::addq_32_ix(core),
        BasicOp::Addq32Aw => ops::addq_32_aw(core),
        BasicOp::Addq32Al => ops::addq_32_al(core),
        BasicOp::And8ErDn => ops::and_8_er_dn(core),
        BasicOp::And8ErAi => ops::and_8_er_ai(core),
        BasicOp::And8ErPi => ops::and_8_er_pi(core),
        BasicOp::And8ErPd => ops::and_8_er_pd(core),
        BasicOp::And8ErDi => ops::and_8_er_di(core),
        BasicOp::And8ErIx => ops::and_8_er_ix(core),
        BasicOp::And8ErAw => ops::and_8_er_aw(core),
        BasicOp::And8ErAl => ops::and_8_er_al(core),
        BasicOp::And8ErPcdi => ops::and_8_er_pcdi(core),
        BasicOp::And8ErPcix => ops::and_8_er_pcix(core),
        BasicOp::And8ErImm => ops::and_8_er_imm(core),
        BasicOp::And8ReAi => ops::and_8_re_ai(core),
        BasicOp::And8RePi => ops::and_8_re_pi(core),
        BasicOp::And8RePd => ops::and_8_re_pd(core),
        BasicOp::And8ReDi => ops::and_8_re_di(core),
        BasicOp::And8ReIx => ops::and_8_re_ix(core),
        BasicOp::And8ReAw => ops::and_8_re_aw(core),
        BasicOp::And8ReAl => ops::and_8_re_al(core),
        BasicOp::And16ErDn => ops::and_16_er_dn(core),
        BasicOp::And16ErAi => ops::and_16_er_ai(core),
        BasicOp::And16ErPi => ops::and_16_er_pi(core),
        BasicOp::And16ErPd => ops::and_16_er_pd(core),
        BasicOp::And16ErDi => ops::and_16_er_di(core),
        BasicOp::And16ErIx => ops::and_16_er_ix(core),
        BasicOp::And16ErAw => ops::and_16_er_aw(core),
        BasicOp::And16ErAl => ops::and_16_er_al(core),
        BasicOp::And16ErPcdi => ops::and_16_er_pcdi(core),
        BasicOp::And16ErPcix => ops::and_16_er_pcix(core),
        BasicOp::And16ErImm => ops::and_16_er_imm(core),
        BasicOp::And16ReAi => ops::and_16_re_ai(core),
        BasicOp::And16RePi => ops::and_16_re_pi(core),
        BasicOp::And16RePd => ops::and_16_re_pd(core),
        BasicOp::And16ReDi => ops::and_16_re_di(core),
        BasicOp::And16ReIx => ops::and_16_re_ix(core),
        BasicOp::And16ReAw => ops::and_16_re_aw(core),
        BasicOp::And16ReAl => ops::and_16_re_al(core),
        BasicOp::And32ErDn => ops::and_32_er_dn(core),
        BasicOp::And32ErAi => ops::and_32_er_ai(core),
        BasicOp::And32ErPi => ops::and_32_er_pi(core),
        BasicOp::And32ErPd => ops::and_32_er_pd(core),
        BasicOp::And32ErDi => ops::and_32_er_di(core),
        BasicOp::And32ErIx => ops::and_32_er_ix(core),
        BasicOp::And32ErAw => ops::and_32_er_aw(core),
        BasicOp::And32ErAl => ops::and_32_er_al(core),
        BasicOp::And32ErPcdi => ops::and_32_er_pcdi(core),
        BasicOp::And32ErPcix => ops::and_32_er_pcix(core),
        BasicOp::And32ErImm => ops::and_32_er_imm(core),
        BasicOp::And32ReAi => ops::and_32_re_ai(core),
        BasicOp::And32RePi => ops::and_32_re_pi(core),
        BasicOp::And32RePd => ops::and_32_re_pd(core),
        BasicOp::And32ReDi => ops::and_32_re_di(core),
        BasicOp::And32ReIx => ops::and_32_re_ix(core),
        BasicOp::And32ReAw => ops::and_32_re_aw(core),
        BasicOp::And32ReAl => ops::and_32_re_al(core),
        BasicOp::Andi8Dn => ops::andi_8_dn(core),
        BasicOp::Andi8Ai => ops::andi_8_ai(core),
        BasicOp::Andi8Pi => ops::andi_8_pi(core),
        BasicOp::Andi8Pd => ops::andi_8_pd(core),
        BasicOp::Andi8Di => ops::andi_8_di(core),
        BasicOp::Andi8Ix => ops::andi_8_ix(core),
        BasicOp::Andi8Aw => ops::andi_8_aw(core),
        BasicOp::Andi8Al => ops::andi_8_al(core),
        BasicOp::Andi16Dn => ops::andi_16_dn(core),
        BasicOp::Andi16Ai => ops::andi_16_ai(core),
        BasicOp::Andi16Pi => ops::andi_16_pi(core),
        BasicOp::Andi16Pd => ops::andi_16_pd(core),
        BasicOp::Andi16Di => ops::andi_16_di(core),
        BasicOp::Andi16Ix => ops::andi_16_ix(core),
        BasicOp::Andi16Aw => ops::andi_16_aw(core),
        BasicOp::Andi16Al => ops::andi_16_al(core),
        BasicOp::Andi32Dn => ops::andi_32_dn(core),
        BasicOp::Andi32Ai => ops::andi_32_ai(core),
        BasicOp::Andi32Pi => ops::andi_32_pi(core),
        BasicOp::Andi32Pd => ops::andi_32_pd(core),
        BasicOp::Andi32Di => ops::andi_32_di(core),
        BasicOp::Andi32Ix => ops::andi_32_ix(core),
        BasicOp::Andi32Aw => ops::andi_32_aw(core),
        BasicOp::Andi32Al => ops::andi_32_al(core),
        BasicOp::Cmpi8Dn => ops::cmpi_8_dn(core),
        BasicOp::Cmpi8Ai => ops::cmpi_8_ai(core),
        BasicOp::Cmpi8Pi => ops::cmpi_8_pi(core),
        BasicOp::Cmpi8Pd => ops::cmpi_8_pd(core),
        BasicOp::Cmpi8Di => ops::cmpi_8_di(core),
        BasicOp::Cmpi8Ix => ops::cmpi_8_ix(core),
        BasicOp::Cmpi8Aw => ops::cmpi_8_aw(core),
        BasicOp::Cmpi8Al => ops::cmpi_8_al(core),
        BasicOp::Cmpi16Dn => ops::cmpi_16_dn(core),
        BasicOp::Cmpi16Ai => ops::cmpi_16_ai(core),
        BasicOp::Cmpi16Pi => ops::cmpi_16_pi(core),
        BasicOp::Cmpi16Pd => ops::cmpi_16_pd(core),
        BasicOp::Cmpi16Di => ops::cmpi_16_di(core),
        BasicOp::Cmpi16Ix => ops::cmpi_16_ix(core),
        BasicOp::Cmpi16Aw => ops::cmpi_16_aw(core),
        BasicOp::Cmpi16Al => ops::cmpi_16_al(core),
        BasicOp::Cmpi32Dn => ops::cmpi_32_dn(core),
        BasicOp::Cmpi32Ai => ops::cmpi_32_ai(core),
        BasicOp::Cmpi32Pi => ops::cmpi_32_pi(core),
        BasicOp::Cmpi32Pd => ops::cmpi_32_pd(core),
        BasicOp::Cmpi32Di => ops::cmpi_32_di(core),
        BasicOp::Cmpi32Ix => ops::cmpi_32_ix(core),
        BasicOp::Cmpi32Aw => ops::cmpi_32_aw(core),
        BasicOp::Cmpi32Al => ops::cmpi_32_al(core),
        BasicOp::Eor8Dn => ops::eor_8_dn(core),
        BasicOp::Eor8Ai => ops::eor_8_ai(core),
        BasicOp::Eor8Pi => ops::eor_8_pi(core),
        BasicOp::Eor8Pd => ops::eor_8_pd(core),
        BasicOp::Eor8Di => ops::eor_8_di(core),
        BasicOp::Eor8Ix => ops::eor_8_ix(core),
        BasicOp::Eor8Aw => ops::eor_8_aw(core),
        BasicOp::Eor8Al => ops::eor_8_al(core),
        BasicOp::Eor16Dn => ops::eor_16_dn(core),
        BasicOp::Eor16Ai => ops::eor_16_ai(core),
        BasicOp::Eor16Pi => ops::eor_16_pi(core),
        BasicOp::Eor16Pd => ops::eor_16_pd(core),
        BasicOp::Eor16Di => ops::eor_16_di(core),
        BasicOp::Eor16Ix => ops::eor_16_ix(core),
        BasicOp::Eor16Aw => ops::eor_16_aw(core),
        BasicOp::Eor16Al => ops::eor_16_al(core),
        BasicOp::Eor32Dn => ops::eor_32_dn(core),
        BasicOp::Eor32Ai => ops::eor_32_ai(core),
        BasicOp::Eor32Pi => ops::eor_32_pi(core),
        BasicOp::Eor32Pd => ops::eor_32_pd(core),
        BasicOp::Eor32Di => ops::eor_32_di(core),
        BasicOp::Eor32Ix => ops::eor_32_ix(core),
        BasicOp::Eor32Aw => ops::eor_32_aw(core),
        BasicOp::Eor32Al => ops::eor_32_al(core),
        BasicOp::Eori8Dn => ops::eori_8_dn(core),
        BasicOp::Eori8Ai => ops::eori_8_ai(core),
        BasicOp::Eori8Pi => ops::eori_8_pi(core),
        BasicOp::Eori8Pd => ops::eori_8_pd(core),
        BasicOp::Eori8Di => ops::eori_8_di(core),
        BasicOp::Eori8Ix => ops::eori_8_ix(core),
        BasicOp::Eori8Aw => ops::eori_8_aw(core),
        BasicOp::Eori8Al => ops::eori_8_al(core),
        BasicOp::Eori16Dn => ops::eori_16_dn(core),
        BasicOp::Eori16Ai => ops::eori_16_ai(core),
        BasicOp::Eori16Pi => ops::eori_16_pi(core),
        BasicOp::Eori16Pd => ops::eori_16_pd(core),
        BasicOp::Eori16Di => ops::eori_16_di(core),
        BasicOp::Eori16Ix => ops::eori_16_ix(core),
        BasicOp::Eori16Aw => ops::eori_16_aw(core),
        BasicOp::Eori16Al => ops::eori_16_al(core),
        BasicOp::Eori32Dn => ops::eori_32_dn(core),
        BasicOp::Eori32Ai => ops::eori_32_ai(core),
        BasicOp::Eori32Pi => ops::eori_32_pi(core),
        BasicOp::Eori32Pd => ops::eori_32_pd(core),
        BasicOp::Eori32Di => ops::eori_32_di(core),
        BasicOp::Eori32Ix => ops::eori_32_ix(core),
        BasicOp::Eori32Aw => ops::eori_32_aw(core),
        BasicOp::Eori32Al => ops::eori_32_al(core),
        BasicOp::Or8ErDn => ops::or_8_er_dn(core),
        BasicOp::Or8ErAi => ops::or_8_er_ai(core),
        BasicOp::Or8ErPi => ops::or_8_er_pi(core),
        BasicOp::Or8ErPd => ops::or_8_er_pd(core),
        BasicOp::Or8ErDi => ops::or_8_er_di(core),
        BasicOp::Or8ErIx => ops::or_8_er_ix(core),
        BasicOp::Or8ErAw => ops::or_8_er_aw(core),
        BasicOp::Or8ErAl => ops::or_8_er_al(core),
        BasicOp::Or8ErPcdi => ops::or_8_er_pcdi(core),
        BasicOp::Or8ErPcix => ops::or_8_er_pcix(core),
        BasicOp::Or8ErImm => ops::or_8_er_imm(core),
        BasicOp::Or8ReAi => ops::or_8_re_ai(core),
        BasicOp::Or8RePi => ops::or_8_re_pi(core),
        BasicOp::Or8RePd => ops::or_8_re_pd(core),
        BasicOp::Or8ReDi => ops::or_8_re_di(core),
        BasicOp::Or8ReIx => ops::or_8_re_ix(core),
        BasicOp::Or8ReAw => ops::or_8_re_aw(core),
        BasicOp::Or8ReAl => ops::or_8_re_al(core),
        BasicOp::Or16ErDn => ops::or_16_er_dn(core),
        BasicOp::Or16ErAi => ops::or_16_er_ai(core),
        BasicOp::Or16ErPi => ops::or_16_er_pi(core),
        BasicOp::Or16ErPd => ops::or_16_er_pd(core),
        BasicOp::Or16ErDi => ops::or_16_er_di(core),
        BasicOp::Or16ErIx => ops::or_16_er_ix(core),
        BasicOp::Or16ErAw => ops::or_16_er_aw(core),
        BasicOp::Or16ErAl => ops::or_16_er_al(core),
        BasicOp::Or16ErPcdi => ops::or_16_er_pcdi(core),
        BasicOp::Or16ErPcix => ops::or_16_er_pcix(core),
        BasicOp::Or16ErImm => ops::or_16_er_imm(core),
        BasicOp::Or16ReAi => ops::or_16_re_ai(core),
        BasicOp::Or16RePi => ops::or_16_re_pi(core),
        BasicOp::Or16RePd => ops::or_16_re_pd(core),
        BasicOp::Or16ReDi => ops::or_16_re_di(core),
        BasicOp::Or16ReIx => ops::or_16_re_ix(core),
        BasicOp::Or16ReAw => ops::or_16_re_aw(core),
        BasicOp::Or16ReAl => ops::or_16_re_al(core),
        BasicOp::Or32ErDn => ops::or_32_er_dn(core),
        BasicOp::Or32ErAi => ops::or_32_er_ai(core),
        BasicOp::Or32ErPi => ops::or_32_er_pi(core),
        BasicOp::Or32ErPd => ops::or_32_er_pd(core),
        BasicOp::Or32ErDi => ops::or_32_er_di(core),
        BasicOp::Or32ErIx => ops::or_32_er_ix(core),
        BasicOp::Or32ErAw => ops::or_32_er_aw(core),
        BasicOp::Or32ErAl => ops::or_32_er_al(core),
        BasicOp::Or32ErPcdi => ops::or_32_er_pcdi(core),
        BasicOp::Or32ErPcix => ops::or_32_er_pcix(core),
        BasicOp::Or32ErImm => ops::or_32_er_imm(core),
        BasicOp::Or32ReAi => ops::or_32_re_ai(core),
        BasicOp::Or32RePi => ops::or_32_re_pi(core),
        BasicOp::Or32RePd => ops::or_32_re_pd(core),
        BasicOp::Or32ReDi => ops::or_32_re_di(core),
        BasicOp::Or32ReIx => ops::or_32_re_ix(core),
        BasicOp::Or32ReAw => ops::or_32_re_aw(core),
        BasicOp::Or32ReAl => ops::or_32_re_al(core),
        BasicOp::Ori8Dn => ops::ori_8_dn(core),
        BasicOp::Ori8Ai => ops::ori_8_ai(core),
        BasicOp::Ori8Pi => ops::ori_8_pi(core),
        BasicOp::Ori8Pd => ops::ori_8_pd(core),
        BasicOp::Ori8Di => ops::ori_8_di(core),
        BasicOp::Ori8Ix => ops::ori_8_ix(core),
        BasicOp::Ori8Aw => ops::ori_8_aw(core),
        BasicOp::Ori8Al => ops::ori_8_al(core),
        BasicOp::Ori16Dn => ops::ori_16_dn(core),
        BasicOp::Ori16Ai => ops::ori_16_ai(core),
        BasicOp::Ori16Pi => ops::ori_16_pi(core),
        BasicOp::Ori16Pd => ops::ori_16_pd(core),
        BasicOp::Ori16Di => ops::ori_16_di(core),
        BasicOp::Ori16Ix => ops::ori_16_ix(core),
        BasicOp::Ori16Aw => ops::ori_16_aw(core),
        BasicOp::Ori16Al => ops::ori_16_al(core),
        BasicOp::Ori32Dn => ops::ori_32_dn(core),
        BasicOp::Ori32Ai => ops::ori_32_ai(core),
        BasicOp::Ori32Pi => ops::ori_32_pi(core),
        BasicOp::Ori32Pd => ops::ori_32_pd(core),
        BasicOp::Ori32Di => ops::ori_32_di(core),
        BasicOp::Ori32Ix => ops::ori_32_ix(core),
        BasicOp::Ori32Aw => ops::ori_32_aw(core),
        BasicOp::Ori32Al => ops::ori_32_al(core),
        BasicOp::Sub8ErDn => ops::sub_8_er_dn(core),
        BasicOp::Sub8ErAi => ops::sub_8_er_ai(core),
        BasicOp::Sub8ErPi => ops::sub_8_er_pi(core),
        BasicOp::Sub8ErPd => ops::sub_8_er_pd(core),
        BasicOp::Sub8ErDi => ops::sub_8_er_di(core),
        BasicOp::Sub8ErIx => ops::sub_8_er_ix(core),
        BasicOp::Sub8ErAw => ops::sub_8_er_aw(core),
        BasicOp::Sub8ErAl => ops::sub_8_er_al(core),
        BasicOp::Sub8ErPcdi => ops::sub_8_er_pcdi(core),
        BasicOp::Sub8ErPcix => ops::sub_8_er_pcix(core),
        BasicOp::Sub8ErImm => ops::sub_8_er_imm(core),
        BasicOp::Sub8ReAi => ops::sub_8_re_ai(core),
        BasicOp::Sub8RePi => ops::sub_8_re_pi(core),
        BasicOp::Sub8RePd => ops::sub_8_re_pd(core),
        BasicOp::Sub8ReDi => ops::sub_8_re_di(core),
        BasicOp::Sub8ReIx => ops::sub_8_re_ix(core),
        BasicOp::Sub8ReAw => ops::sub_8_re_aw(core),
        BasicOp::Sub8ReAl => ops::sub_8_re_al(core),
        BasicOp::Sub16ErDn => ops::sub_16_er_dn(core),
        BasicOp::Sub16ErAn => ops::sub_16_er_an(core),
        BasicOp::Sub16ErAi => ops::sub_16_er_ai(core),
        BasicOp::Sub16ErPi => ops::sub_16_er_pi(core),
        BasicOp::Sub16ErPd => ops::sub_16_er_pd(core),
        BasicOp::Sub16ErDi => ops::sub_16_er_di(core),
        BasicOp::Sub16ErIx => ops::sub_16_er_ix(core),
        BasicOp::Sub16ErAw => ops::sub_16_er_aw(core),
        BasicOp::Sub16ErAl => ops::sub_16_er_al(core),
        BasicOp::Sub16ErPcdi => ops::sub_16_er_pcdi(core),
        BasicOp::Sub16ErPcix => ops::sub_16_er_pcix(core),
        BasicOp::Sub16ErImm => ops::sub_16_er_imm(core),
        BasicOp::Sub16ReAi => ops::sub_16_re_ai(core),
        BasicOp::Sub16RePi => ops::sub_16_re_pi(core),
        BasicOp::Sub16RePd => ops::sub_16_re_pd(core),
        BasicOp::Sub16ReDi => ops::sub_16_re_di(core),
        BasicOp::Sub16ReIx => ops::sub_16_re_ix(core),
        BasicOp::Sub16ReAw => ops::sub_16_re_aw(core),
        BasicOp::Sub16ReAl => ops::sub_16_re_al(core),
        BasicOp::Sub32ErDn => ops::sub_32_er_dn(core),
        BasicOp::Sub32ErAn => ops::sub_32_er_an(core),
        BasicOp::Sub32ErAi => ops::sub_32_er_ai(core),
        BasicOp::Sub32ErPi => ops::sub_32_er_pi(core),
        BasicOp::Sub32ErPd => ops::sub_32_er_pd(core),
        BasicOp::Sub32ErDi => ops::sub_32_er_di(core),
        BasicOp::Sub32ErIx => ops::sub_32_er_ix(core),
        BasicOp::Sub32ErAw => ops::sub_32_er_aw(core),
        BasicOp::Sub32ErAl => ops::sub_32_er_al(core),
        BasicOp::Sub32ErPcdi => ops::sub_32_er_pcdi(core),
        BasicOp::Sub32ErPcix => ops::sub_32_er_pcix(core),
        BasicOp::Sub32ErImm => ops::sub_32_er_imm(core),
        BasicOp::Sub32ReAi => ops::sub_32_re_ai(core),
        BasicOp::Sub32RePi => ops::sub_32_re_pi(core),
        BasicOp::Sub32RePd => ops::sub_32_re_pd(core),
        BasicOp::Sub32ReDi => ops::sub_32_re_di(core),
        BasicOp::Sub32ReIx => ops::sub_32_re_ix(core),
        BasicOp::Sub32ReAw => ops::sub_32_re_aw(core),
        BasicOp::Sub32ReAl => ops::sub_32_re_al(core),
        BasicOp::Subi8Dn => ops::subi_8_dn(core),
        BasicOp::Subi8Ai => ops::subi_8_ai(core),
        BasicOp::Subi8Pi => ops::subi_8_pi(core),
        BasicOp::Subi8Pd => ops::subi_8_pd(core),
        BasicOp::Subi8Di => ops::subi_8_di(core),
        BasicOp::Subi8Ix => ops::subi_8_ix(core),
        BasicOp::Subi8Aw => ops::subi_8_aw(core),
        BasicOp::Subi8Al => ops::subi_8_al(core),
        BasicOp::Subi16Dn => ops::subi_16_dn(core),
        BasicOp::Subi16Ai => ops::subi_16_ai(core),
        BasicOp::Subi16Pi => ops::subi_16_pi(core),
        BasicOp::Subi16Pd => ops::subi_16_pd(core),
        BasicOp::Subi16Di => ops::subi_16_di(core),
        BasicOp::Subi16Ix => ops::subi_16_ix(core),
        BasicOp::Subi16Aw => ops::subi_16_aw(core),
        BasicOp::Subi16Al => ops::subi_16_al(core),
        BasicOp::Subi32Dn => ops::subi_32_dn(core),
        BasicOp::Subi32Ai => ops::subi_32_ai(core),
        BasicOp::Subi32Pi => ops::subi_32_pi(core),
        BasicOp::Subi32Pd => ops::subi_32_pd(core),
        BasicOp::Subi32Di => ops::subi_32_di(core),
        BasicOp::Subi32Ix => ops::subi_32_ix(core),
        BasicOp::Subi32Aw => ops::subi_32_aw(core),
        BasicOp::Subi32Al => ops::subi_32_al(core),
        BasicOp::Subq8Dn => ops::subq_8_dn(core),
        BasicOp::Subq8Ai => ops::subq_8_ai(core),
        BasicOp::Subq8Pi => ops::subq_8_pi(core),
        BasicOp::Subq8Pd => ops::subq_8_pd(core),
        BasicOp::Subq8Di => ops::subq_8_di(core),
        BasicOp::Subq8Ix => ops::subq_8_ix(core),
        BasicOp::Subq8Aw => ops::subq_8_aw(core),
        BasicOp::Subq8Al => ops::subq_8_al(core),
        BasicOp::Subq16Dn => ops::subq_16_dn(core),
        BasicOp::Subq16Ai => ops::subq_16_ai(core),
        BasicOp::Subq16Pi => ops::subq_16_pi(core),
        BasicOp::Subq16Pd => ops::subq_16_pd(core),
        BasicOp::Subq16Di => ops::subq_16_di(core),
        BasicOp::Subq16Ix => ops::subq_16_ix(core),
        BasicOp::Subq16Aw => ops::subq_16_aw(core),
        BasicOp::Subq16Al => ops::subq_16_al(core),
        BasicOp::Subq32Dn => ops::subq_32_dn(core),
        BasicOp::Subq32Ai => ops::subq_32_ai(core),
        BasicOp::Subq32Pi => ops::subq_32_pi(core),
        BasicOp::Subq32Pd => ops::subq_32_pd(core),
        BasicOp::Subq32Di => ops::subq_32_di(core),
        BasicOp::Subq32Ix => ops::subq_32_ix(core),
        BasicOp::Subq32Aw => ops::subq_32_aw(core),
        BasicOp::Subq32Al => ops::subq_32_al(core),
        BasicOp::Abcd8Rr => ops::abcd_8_rr(core),
        BasicOp::Abcd8Mm => ops::abcd_8_mm(core),
        BasicOp::Addx8Rr => ops::addx_8_rr(core),
        BasicOp::Addx8Mm => ops::addx_8_mm(core),
        BasicOp::Addx16Rr => ops::addx_16_rr(core),
        BasicOp::Addx16Mm => ops::addx_16_mm(core),
        BasicOp::Addx32Rr => ops::addx_32_rr(core),
        BasicOp::Addx32Mm => ops::addx_32_mm(core),
        BasicOp::Cmp8Dn => ops::cmp_8_dn(core),
        BasicOp::Cmp8Ai => ops::cmp_8_ai(core),
        BasicOp::Cmp8Pi => ops::cmp_8_pi(core),
        BasicOp::Cmp8Pd => ops::cmp_8_pd(core),
        BasicOp::Cmp8Di => ops::cmp_8_di(core),
        BasicOp::Cmp8Ix => ops::cmp_8_ix(core),
        BasicOp::Cmp8Aw => ops::cmp_8_aw(core),
        BasicOp::Cmp8Al => ops::cmp_8_al(core),
        BasicOp::Cmp8Pcdi => ops::cmp_8_pcdi(core),
        BasicOp::Cmp8Pcix => ops::cmp_8_pcix(core),
        BasicOp::Cmp8Imm => ops::cmp_8_imm(core),
        BasicOp::Cmp16Dn => ops::cmp_16_dn(core),
        BasicOp::Cmp16An => ops::cmp_16_an(core),
        BasicOp::Cmp16Ai => ops::cmp_16_ai(core),
        BasicOp::Cmp16Pi => ops::cmp_16_pi(core),
        BasicOp::Cmp16Pd => ops::cmp_16_pd(core),
        BasicOp::Cmp16Di => ops::cmp_16_di(core),
        BasicOp::Cmp16Ix => ops::cmp_16_ix(core),
        BasicOp::Cmp16Aw => ops::cmp_16_aw(core),
        BasicOp::Cmp16Al => ops::cmp_16_al(core),
        BasicOp::Cmp16Pcdi => ops::cmp_16_pcdi(core),
        BasicOp::Cmp16Pcix => ops::cmp_16_pcix(core),
        BasicOp::Cmp16Imm => ops::cmp_16_imm(core),
        BasicOp::Cmp32Dn => ops::cmp_32_dn(core),
        BasicOp::Cmp32An => ops::cmp_32_an(core),
        BasicOp::Cmp32Ai => ops::cmp_32_ai(core),
        BasicOp::Cmp32Pi => ops::cmp_32_pi(core),
        BasicOp::Cmp32Pd => ops::cmp_32_pd(core),
        BasicOp::Cmp32Di => ops::cmp_32_di(core),
        BasicOp::Cmp32Ix => ops::cmp_32_ix(core),
        BasicOp::Cmp32Aw => ops::cmp_32_aw(core),
        BasicOp::Cmp32Al => ops::cmp_32_al(core),
        BasicOp::Cmp32Pcdi => ops::cmp_32_pcdi(core),
        BasicOp::Cmp32Pcix => ops::cmp_32_pcix(core),
        BasicOp::Cmp32Imm => ops::cmp_32_imm(core),
        BasicOp::Cmpm8 => ops::cmpm_8(core),
        BasicOp::Cmpm16 => ops::cmpm_16(core),
        BasicOp::Cmpm32 => ops::cmpm_32(core),
        BasicOp::Sbcd8Rr => ops::sbcd_8_rr(core),
        BasicOp::Sbcd8Mm => ops::sbcd_8_mm(core),
        BasicOp::Subx8Rr => ops::subx_8_rr(core),
        BasicOp::Subx8Mm => ops::subx_8_mm(core),
        BasicOp::Subx16Rr => ops::subx_16_rr(core),
        BasicOp::Subx16Mm => ops::subx_16_mm(core),
        BasicOp::Subx32Rr => ops::subx_32_rr(core),
        BasicOp::Subx32Mm => ops::subx_32_mm(core),
        BasicOp::Unimplemented1010 => ops::unimplemented_1010(core),
        BasicOp::Unimplemented1111 => ops::unimplemented_1111(core),
    }
}

/// Runs the handler `h` on the core.
pub fn run(core: &mut ConfiguredCore, h: Handler) -> (r: Result<Cycles>)
    requires
        old(core).wf(),
    ensures
        final(core).wf(),
        handler_effect(h, *old(core), *final(core), r),
{
    match h {
        Handler::Illegal => ops::illegal(core),
        Handler::SetD0 => ops::fake::set_d0(core),
        Handler::SetD1 => ops::fake::set_d1(core),
        Handler::SetDx => ops::fake::set_dx(core),
        Handler::Basic(o) => run_basic(core, o),
        Handler::Move(o) => ops::moves::run(core, o),
        Handler::Flow(o) => ops::flow::run(core, o),
        Handler::Unary(o) => ops::unary::run(core, o),
        Handler::Arith(o) => ops::arith::run(core, o),
        Handler::Shift(o) => ops::shifts::run(core, o),
        Handler::Bit(o) => ops::bits::run(core, o),
        Handler::Status(o) => ops::status::run(core, o),
        Handler::Movem(o) => ops::movem::run(core, o),
    }
}

} // verus!
