use vstd::prelude::*;
use crate::cpu::{ConfiguredCore, lemma_low_bits, ir_dx, reg_dx, carry_set, extend_set, negative_set, overflow_set, zero_set};
use crate::cpu::{CFLAG_CLEAR, CFLAG_SET, NFLAG_CLEAR, NFLAG_SET, VFLAG_CLEAR, VFLAG_SET, XFLAG_CLEAR, XFLAG_SET, ZFLAG_CLEAR, ZFLAG_SET};

verus! {

/// The extend flag as 0 or 1.
pub open spec fn x1(c: ConfiguredCore) -> u32 {
    (c.x_flag >> 8u32) & 1
}

/// The state with the N, Z, V and C flags replaced and X kept.
pub open spec fn with_nzvc(c: ConfiguredCore, n: u32, not_z: u32, v: u32, carry: u32) -> ConfiguredCore {
    ConfiguredCore { n_flag: n, not_z_flag: not_z, v_flag: v, c_flag: carry, ..c }
}

/// The state with all five condition flags replaced.
pub open spec fn with_xnzvc(c: ConfiguredCore, x: u32, n: u32, not_z: u32, v: u32, carry: u32) -> ConfiguredCore {
    ConfiguredCore { x_flag: x, ..with_nzvc(c, n, not_z, v, carry) }
}

fn set_nzvc(core: &mut ConfiguredCore, n: u32, not_z: u32, v: u32, carry: u32)
    ensures
        *final(core) == with_nzvc(*old(core), n, not_z, v, carry),
{
    core.n_flag = n;
    core.not_z_flag = not_z;
    core.v_flag = v;
    core.c_flag = carry;
}

fn set_xnzvc(core: &mut ConfiguredCore, x: u32, n: u32, not_z: u32, v: u32, carry: u32)
    ensures
        *final(core) == with_xnzvc(*old(core), x, n, not_z, v, carry),
{
    core.x_flag = x;
    set_nzvc(core, n, not_z, v, carry);
}

proof fn lemma_x1(c: ConfiguredCore)
    ensures
        x1(c) <= 1,
{
    lemma_low_bits(c.x_flag >> 8u32);
}

/// Addition at 8 bits: the flags it sets and the result.
pub open spec fn add_8_outcome(c: ConfiguredCore, dst: u32, src: u32) -> (ConfiguredCore, u32) {
    let d = dst & 0xff;
    let s = src & 0xff;
    let res = (d + s) as u32;
    let hi = res;
    let low = res & 0xff;
    (with_xnzvc(c, hi, hi, low, (s ^ res) & (d ^ res), hi), low)
}

pub fn add_8(core: &mut ConfiguredCore, dst: u32, src: u32) -> (r: u32)
    ensures
        (*final(core), r) == add_8_outcome(*old(core), dst, src),
{
    proof {
        lemma_low_bits(dst);
        lemma_low_bits(src);
        lemma_x1(*old(core));
    }
    let d = dst & 0xff;
    let s = src & 0xff;
    let res = d + s;
    let hi = res;
    let low = res & 0xff;
    set_xnzvc(core, hi, hi, low, (s ^ res) & (d ^ res), hi);
    low
}

/// Addition at 16 bits: the flags it sets and the result.
pub open spec fn add_16_outcome(c: ConfiguredCore, dst: u32, src: u32) -> (ConfiguredCore, u32) {
    let d = dst & 0xffff;
    let s = src & 0xffff;
    let res = (d + s) as u32;
    let hi = res >> 8u32;
    let low = res & 0xffff;
    (with_xnzvc(c, hi, hi, low, ((s ^ res) & (d ^ res)) >> 8u32, hi), low)
}

pub fn add_16(core: &mut ConfiguredCore, dst: u32, src: u32) -> (r: u32)
    ensures
        (*final(core), r) == add_16_outcome(*old(core), dst, src),
{
    proof {
        lemma_low_bits(dst);
        lemma_low_bits(src);
        lemma_x1(*old(core));
    }
    let d = dst & 0xffff;
    let s = src & 0xffff;
    let res = d + s;
    let hi = res >> 8u32;
    let low = res & 0xffff;
    set_xnzvc(core, hi, hi, low, ((s ^ res) & (d ^ res)) >> 8u32, hi);
    low
}

/// Addition at 32 bits: the flags it sets and the result.
pub open spec fn add_32_outcome(c: ConfiguredCore, dst: u32, src: u32) -> (ConfiguredCore, u32) {
    let res = (dst as u64 + src as u64) as u64;
    let hi = (res >> 24u32) as u32;
    let low = res as u32;
    (with_xnzvc(c, hi, hi, low, (((src as u64 ^ res) & (dst as u64 ^ res)) >> 24u32) as u32, hi), low)
}

pub fn add_32(core: &mut ConfiguredCore, dst: u32, src: u32) -> (r: u32)
    ensures
        (*final(core), r) == add_32_outcome(*old(core), dst, src),
{
    proof {
        lemma_low_bits(dst);
        lemma_low_bits(src);
        lemma_x1(*old(core));
    }
    let res: u64 = dst as u64 + src as u64;
    let hi = (res >> 24u32) as u32;
    let low = res as u32;
    set_xnzvc(core, hi, hi, low, (((src as u64 ^ res) & (dst as u64 ^ res)) >> 24u32) as u32, hi);
    low
}

/// Addition with the extend flag at 8 bits: the flags it sets and the result.
pub open spec fn addx_8_outcome(c: ConfiguredCore, dst: u32, src: u32) -> (ConfiguredCore, u32) {
    let d = dst & 0xff;
    let s = src & 0xff;
    let res = (d + s + x1(c)) as u32;
    let hi = res;
    let low = res & 0xff;
    (with_xnzvc(c, hi, hi, c.not_z_flag | low, (s ^ res) & (d ^ res), hi), low)
}

pub fn addx_8(core: &mut ConfiguredCore, dst: u32, src: u32) -> (r: u32)
    ensures
        (*final(core), r) == addx_8_outcome(*old(core), dst, src),
{
    proof {
        lemma_low_bits(dst);
        lemma_low_bits(src);
        lemma_x1(*old(core));
    }
    let d = dst & 0xff;
    let s = src & 0xff;
    let res = d + s + core.x_flag_as_1();
    let hi = res;
    let low = res & 0xff;
    set_xnzvc(core, hi, hi, core.not_z_flag | low, (s ^ res) & (d ^ res), hi);
    low
}

/// Addition with the extend flag at 16 bits: the flags it sets and the result.
pub open spec fn addx_16_outcome(c: ConfiguredCore, dst: u32, src: u32) -> (ConfiguredCore, u32) {
    let d = dst & 0xffff;
    let s = src & 0xffff;
    let res = (d + s + x1(c)) as u32;
    let hi = res >> 8u32;
    let low = res & 0xffff;
    (with_xnzvc(c, hi, hi, c.not_z_flag | low, ((s ^ res) & (d ^ res)) >> 8u32, hi), low)
}

pub fn addx_16(core: &mut ConfiguredCore, dst: u32, src: u32) -> (r: u32)
    ensures
        (*final(core), r) == addx_16_outcome(*old(core), dst, src),
{
    proof {
        lemma_low_bits(dst);
        lemma_low_bits(src);
        lemma_x1(*old(core));
    }
    let d = dst & 0xffff;
    let s = src & 0xffff;
    let res = d + s + core.x_flag_as_1();
    let hi = res >> 8u32;
    let low = res & 0xffff;
    set_xnzvc(core, hi, hi, core.not_z_flag | low, ((s ^ res) & (d ^ res)) >> 8u32, hi);
    low
}

/// Addition with the extend flag at 32 bits: the flags it sets and the result.
pub open spec fn addx_32_outcome(c: ConfiguredCore, dst: u32, src: u32) -> (ConfiguredCore, u32) {
    let res = (dst as u64 + src as u64 + x1(c) as u64) as u64;
    let hi = (res >> 24u32) as u32;
    let low = res as u32;
    (with_xnzvc(c, hi, hi, c.not_z_flag | low, (((src as u64 ^ res) & (dst as u64 ^ res)) >> 24u32) as u32, hi), low)
}

pub fn addx_32(core: &mut ConfiguredCore, dst: u32, src: u32) -> (r: u32)
    ensures
        (*final(core), r) == addx_32_outcome(*old(core), dst, src),
{
    proof {
        lemma_low_bits(dst);
        lemma_low_bits(src);
        lemma_x1(*old(core));
    }
    let res: u64 = dst as u64 + src as u64 + core.x_flag_as_1() as u64;
    let hi = (res >> 24u32) as u32;
    let low = res as u32;
    set_xnzvc(core, hi, hi, core.not_z_flag | low, (((src as u64 ^ res) & (dst as u64 ^ res)) >> 24u32) as u32, hi);
    low
}

/// Comparison: `dst - src` sets the flags, X is kept at 8 bits: the flags it sets and the result.
pub open spec fn compare_8_outcome(c: ConfiguredCore, dst: u32, src: u32) -> (ConfiguredCore, u32) {
    let d = dst & 0xff;
    let s = src & 0xff;
    let res = d.wrapping_sub(s);
    let hi = res;
    let low = res & 0xff;
    (with_nzvc(c, hi, low, (s ^ d) & (res ^ d), hi), low)
}

pub fn cmp_8(core: &mut ConfiguredCore, dst: u32, src: u32) -> (r: u32)
    ensures
        (*final(core), r) == compare_8_outcome(*old(core), dst, src),
{
    proof {
        lemma_low_bits(dst);
        lemma_low_bits(src);
        lemma_x1(*old(core));
    }
    let d = dst & 0xff;
    let s = src & 0xff;
    let res = d.wrapping_sub(s);
    let hi = res;
    let low = res & 0xff;
    set_nzvc(core, hi, low, (s ^ d) & (res ^ d), hi);
    low
}

/// Comparison: `dst - src` sets the flags, X is kept at 16 bits: the flags it sets and the result.
pub open spec fn compare_16_outcome(c: ConfiguredCore, dst: u32, src: u32) -> (ConfiguredCore, u32) {
    let d = dst & 0xffff;
    let s = src & 0xffff;
    let res = d.wrapping_sub(s);
    let hi = res >> 8u32;
    let low = res & 0xffff;
    (with_nzvc(c, hi, low, ((s ^ d) & (res ^ d)) >> 8u32, hi), low)
}

pub fn cmp_16(core: &mut ConfiguredCore, dst: u32, src: u32) -> (r: u32)
    ensures
        (*final(core), r) == compare_16_outcome(*old(core), dst, src),
{
    proof {
        lemma_low_bits(dst);
        lemma_low_bits(src);
        lemma_x1(*old(core));
    }
    let d = dst & 0xffff;
    let s = src & 0xffff;
    let res = d.wrapping_sub(s);
    let hi = res >> 8u32;
    let low = res & 0xffff;
    set_nzvc(core, hi, low, ((s ^ d) & (res ^ d)) >> 8u32, hi);
    low
}

/// Comparison: `dst - src` sets the flags, X is kept at 32 bits: the flags it sets and the result.
pub open spec fn compare_32_outcome(c: ConfiguredCore, dst: u32, src: u32) -> (ConfiguredCore, u32) {
    let res = (dst as u64).wrapping_sub(src as u64);
    let hi = (res >> 24u32) as u32;
    let low = res as u32;
    (with_nzvc(c, hi, low, (((src as u64 ^ dst as u64) & (res ^ dst as u64)) >> 24u32) as u32, hi), low)
}

/// The high part, the overflow bits and the low long word of `dst - src`
/// worked out on 64 bits.
fn difference_32(dst: u32, src: u32) -> (r: (u32, u32, u32))
    ensures
        ({
            let res = (dst as u64).wrapping_sub(src as u64);
            r == ((res >> 24u32) as u32, (((src as u64 ^ dst as u64) & (res ^ dst as u64)) >> 24u32) as u32, res as u32)
        }),
{
    let res: u64 = (dst as u64).wrapping_sub(src as u64);
    ((res >> 24) as u32, (((src as u64 ^ dst as u64) & (res ^ dst as u64)) >> 24) as u32, res as u32)
}

pub fn cmp_32(core: &mut ConfiguredCore, dst: u32, src: u32) -> (r: u32)
    ensures
        (*final(core), r) == compare_32_outcome(*old(core), dst, src),
{
    proof {
        lemma_low_bits(dst);
        lemma_low_bits(src);
        lemma_x1(*old(core));
    }
    let (hi, v, low) = difference_32(dst, src);
    set_nzvc(core, hi, low, v, hi);
    low
}

/// Subtraction of `src` from `dst` at 8 bits: the flags it sets and the result.
pub open spec fn sub_8_outcome(c: ConfiguredCore, dst: u32, src: u32) -> (ConfiguredCore, u32) {
    let d = dst & 0xff;
    let s = src & 0xff;
    let res = d.wrapping_sub(s);
    let hi = res;
    let low = res & 0xff;
    (with_xnzvc(c, hi, hi, low, (s ^ d) & (res ^ d), hi), low)
}

pub fn sub_8(core: &mut ConfiguredCore, dst: u32, src: u32) -> (r: u32)
    ensures
        (*final(core), r) == sub_8_outcome(*old(core), dst, src),
{
    proof {
        lemma_low_bits(dst);
        lemma_low_bits(src);
        lemma_x1(*old(core));
    }
    let d = dst & 0xff;
    let s = src & 0xff;
    let res = d.wrapping_sub(s);
    let hi = res;
    let low = res & 0xff;
    set_xnzvc(core, hi, hi, low, (s ^ d) & (res ^ d), hi);
    low
}

/// Subtraction of `src` from `dst` at 16 bits: the flags it sets and the result.
pub open spec fn sub_16_outcome(c: ConfiguredCore, dst: u32, src: u32) -> (ConfiguredCore, u32) {
    let d = dst & 0xffff;
    let s = src & 0xffff;
    let res = d.wrapping_sub(s);
    let hi = res >> 8u32;
    let low = res & 0xffff;
    (with_xnzvc(c, hi, hi, low, ((s ^ d) & (res ^ d)) >> 8u32, hi), low)
}

pub fn sub_16(core: &mut ConfiguredCore, dst: u32, src: u32) -> (r: u32)
    ensures
        (*final(core), r) == sub_16_outcome(*old(core), dst, src),
{
    proof {
        lemma_low_bits(dst);
        lemma_low_bits(src);
        lemma_x1(*old(core));
    }
    let d = dst & 0xffff;
    let s = src & 0xffff;
    let res = d.wrapping_sub(s);
    let hi = res >> 8u32;
    let low = res & 0xffff;
    set_xnzvc(core, hi, hi, low, ((s ^ d) & (res ^ d)) >> 8u32, hi);
    low
}

/// Subtraction of `src` from `dst` at 32 bits: the flags it sets and the result.
pub open spec fn sub_32_outcome(c: ConfiguredCore, dst: u32, src: u32) -> (ConfiguredCore, u32) {
    let res = (dst as u64).wrapping_sub(src as u64);
    let hi = (res >> 24u32) as u32;
    let low = res as u32;
    (with_xnzvc(c, hi, hi, low, (((src as u64 ^ dst as u64) & (res ^ dst as u64)) >> 24u32) as u32, hi), low)
}

pub fn sub_32(core: &mut ConfiguredCore, dst: u32, src: u32) -> (r: u32)
    ensures
        (*final(core), r) == sub_32_outcome(*old(core), dst, src),
{
    proof {
        lemma_low_bits(dst);
        lemma_low_bits(src);
        lemma_x1(*old(core));
    }
    let res: u64 = (dst as u64).wrapping_sub(src as u64);
    let hi = (res >> 24u32) as u32;
    let low = res as u32;
    set_xnzvc(core, hi, hi, low, (((src as u64 ^ dst as u64) & (res ^ dst as u64)) >> 24u32) as u32, hi);
    low
}

/// Subtraction of `src` and the extend flag from `dst` at 8 bits: the flags it sets and the result.
pub open spec fn subx_8_outcome(c: ConfiguredCore, dst: u32, src: u32) -> (ConfiguredCore, u32) {
    let d = dst & 0xff;
    let s = src & 0xff;
    let res = d.wrapping_sub(s).wrapping_sub(x1(c));
    let hi = res;
    let low = res & 0xff;
    (with_xnzvc(c, hi, hi, c.not_z_flag | low, (s ^ d) & (res ^ d), hi), low)
}

pub fn subx_8(core: &mut ConfiguredCore, dst: u32, src: u32) -> (r: u32)
    ensures
        (*final(core), r) == subx_8_outcome(*old(core), dst, src),
{
    proof {
        lemma_low_bits(dst);
        lemma_low_bits(src);
        lemma_x1(*old(core));
    }
    let d = dst & 0xff;
    let s = src & 0xff;
    let res = d.wrapping_sub(s).wrapping_sub(core.x_flag_as_1());
    let hi = res;
    let low = res & 0xff;
    set_xnzvc(core, hi, hi, core.not_z_flag | low, (s ^ d) & (res ^ d), hi);
    low
}

/// Subtraction of `src` and the extend flag from `dst` at 16 bits: the flags it sets and the result.
pub open spec fn subx_16_outcome(c: ConfiguredCore, dst: u32, src: u32) -> (ConfiguredCore, u32) {
    let d = dst & 0xffff;
    let s = src & 0xffff;
    let res = d.wrapping_sub(s).wrapping_sub(x1(c));
    let hi = res >> 8u32;
    let low = res & 0xffff;
    (with_xnzvc(c, hi, hi, c.not_z_flag | low, ((s ^ d) & (res ^ d)) >> 8u32, hi), low)
}

pub fn subx_16(core: &mut ConfiguredCore, dst: u32, src: u32) -> (r: u32)
    ensures
        (*final(core), r) == subx_16_outcome(*old(core), dst, src),
{
    proof {
        lemma_low_bits(dst);
        lemma_low_bits(src);
        lemma_x1(*old(core));
    }
    let d = dst & 0xffff;
    let s = src & 0xffff;
    let res = d.wrapping_sub(s).wrapping_sub(core.x_flag_as_1());
    let hi = res >> 8u32;
    let low = res & 0xffff;
    set_xnzvc(core, hi, hi, core.not_z_flag | low, ((s ^ d) & (res ^ d)) >> 8u32, hi);
    low
}

/// Subtraction of `src` and the extend flag from `dst` at 32 bits: the flags it sets and the result.
pub open spec fn subx_32_outcome(c: ConfiguredCore, dst: u32, src: u32) -> (ConfiguredCore, u32) {
    let res = (dst as u64).wrapping_sub(src as u64).wrapping_sub(x1(c) as u64);
    let hi = (res >> 24u32) as u32;
    let low = res as u32;
    (with_xnzvc(c, hi, hi, c.not_z_flag | low, (((src as u64 ^ dst as u64) & (res ^ dst as u64)) >> 24u32) as u32, hi), low)
}

pub fn subx_32(core: &mut ConfiguredCore, dst: u32, src: u32) -> (r: u32)
    ensures
        (*final(core), r) == subx_32_outcome(*old(core), dst, src),
{
    proof {
        lemma_low_bits(dst);
        lemma_low_bits(src);
        lemma_x1(*old(core));
    }
    let res: u64 = (dst as u64).wrapping_sub(src as u64).wrapping_sub(core.x_flag_as_1() as u64);
    let hi = (res >> 24u32) as u32;
    let low = res as u32;
    set_xnzvc(core, hi, hi, core.not_z_flag | low, (((src as u64 ^ dst as u64) & (res ^ dst as u64)) >> 24u32) as u32, hi);
    low
}

/// Bitwise and at 8 bits: N and Z from the result, V and C cleared, X kept.
pub open spec fn and_8_outcome(c: ConfiguredCore, dst: u32, src: u32) -> (ConfiguredCore, u32) {
    let res = (dst & 0xff) & (src & 0xff);
    (with_nzvc(c, res, res, 0, 0), res)
}

pub fn and_8(core: &mut ConfiguredCore, dst: u32, src: u32) -> (r: u32)
    ensures
        (*final(core), r) == and_8_outcome(*old(core), dst, src),
{
    let res = (dst & 0xff) & (src & 0xff);
    set_nzvc(core, res, res, 0, 0);
    res
}

/// Bitwise and at 16 bits: N and Z from the result, V and C cleared, X kept.
pub open spec fn and_16_outcome(c: ConfiguredCore, dst: u32, src: u32) -> (ConfiguredCore, u32) {
    let res = (dst & 0xffff) & (src & 0xffff);
    (with_nzvc(c, res >> 8u32, res, 0, 0), res)
}

pub fn and_16(core: &mut ConfiguredCore, dst: u32, src: u32) -> (r: u32)
    ensures
        (*final(core), r) == and_16_outcome(*old(core), dst, src),
{
    let res = (dst & 0xffff) & (src & 0xffff);
    set_nzvc(core, res >> 8u32, res, 0, 0);
    res
}

/// Bitwise and at 32 bits: N and Z from the result, V and C cleared, X kept.
pub open spec fn and_32_outcome(c: ConfiguredCore, dst: u32, src: u32) -> (ConfiguredCore, u32) {
    let res = dst & src;
    (with_nzvc(c, res >> 24u32, res, 0, 0), res)
}

pub fn and_32(core: &mut ConfiguredCore, dst: u32, src: u32) -> (r: u32)
    ensures
        (*final(core), r) == and_32_outcome(*old(core), dst, src),
{
    let res = dst & src;
    set_nzvc(core, res >> 24u32, res, 0, 0);
    res
}

/// Bitwise exclusive or at 8 bits: N and Z from the result, V and C cleared, X kept.
pub open spec fn eor_8_outcome(c: ConfiguredCore, dst: u32, src: u32) -> (ConfiguredCore, u32) {
    let res = (dst & 0xff) ^ (src & 0xff);
    (with_nzvc(c, res, res, 0, 0), res)
}

pub fn eor_8(core: &mut ConfiguredCore, dst: u32, src: u32) -> (r: u32)
    ensures
        (*final(core), r) == eor_8_outcome(*old(core), dst, src),
{
    let res = (dst & 0xff) ^ (src & 0xff);
    set_nzvc(core, res, res, 0, 0);
    res
}

/// Bitwise exclusive or at 16 bits: N and Z from the result, V and C cleared, X kept.
pub open spec fn eor_16_outcome(c: ConfiguredCore, dst: u32, src: u32) -> (ConfiguredCore, u32) {
    let res = (dst & 0xffff) ^ (src & 0xffff);
    (with_nzvc(c, res >> 8u32, res, 0, 0), res)
}

pub fn eor_16(core: &mut ConfiguredCore, dst: u32, src: u32) -> (r: u32)
    ensures
        (*final(core), r) == eor_16_outcome(*old(core), dst, src),
{
    let res = (dst & 0xffff) ^ (src & 0xffff);
    set_nzvc(core, res >> 8u32, res, 0, 0);
    res
}

/// Bitwise exclusive or at 32 bits: N and Z from the result, V and C cleared, X kept.
pub open spec fn eor_32_outcome(c: ConfiguredCore, dst: u32, src: u32) -> (ConfiguredCore, u32) {
    let res = dst ^ src;
    (with_nzvc(c, res >> 24u32, res, 0, 0), res)
}

pub fn eor_32(core: &mut ConfiguredCore, dst: u32, src: u32) -> (r: u32)
    ensures
        (*final(core), r) == eor_32_outcome(*old(core), dst, src),
{
    let res = dst ^ src;
    set_nzvc(core, res >> 24u32, res, 0, 0);
    res
}

/// Bitwise complement at 8 bits: N and Z from the result, V and C cleared, X kept.
pub open spec fn not_8_outcome(c: ConfiguredCore, dst: u32) -> (ConfiguredCore, u32) {
    let res = (!dst) & 0xff;
    (with_nzvc(c, res, res, 0, 0), res)
}

pub fn not_8(core: &mut ConfiguredCore, dst: u32) -> (r: u32)
    ensures
        (*final(core), r) == not_8_outcome(*old(core), dst),
{
    let res = (!dst) & 0xff;
    set_nzvc(core, res, res, 0, 0);
    res
}

/// Bitwise complement at 16 bits: N and Z from the result, V and C cleared, X kept.
pub open spec fn not_16_outcome(c: ConfiguredCore, dst: u32) -> (ConfiguredCore, u32) {
    let res = (!dst) & 0xffff;
    (with_nzvc(c, res >> 8u32, res, 0, 0), res)
}

pub fn not_16(core: &mut ConfiguredCore, dst: u32) -> (r: u32)
    ensures
        (*final(core), r) == not_16_outcome(*old(core), dst),
{
    let res = (!dst) & 0xffff;
    set_nzvc(core, res >> 8u32, res, 0, 0);
    res
}

/// Bitwise complement at 32 bits: N and Z from the result, V and C cleared, X kept.
pub open spec fn not_32_outcome(c: ConfiguredCore, dst: u32) -> (ConfiguredCore, u32) {
    let res = !dst;
    (with_nzvc(c, res >> 24u32, res, 0, 0), res)
}

pub fn not_32(core: &mut ConfiguredCore, dst: u32) -> (r: u32)
    ensures
        (*final(core), r) == not_32_outcome(*old(core), dst),
{
    let res = !dst;
    set_nzvc(core, res >> 24u32, res, 0, 0);
    res
}

/// Bitwise or at 8 bits: N and Z from the result, V and C cleared, X kept.
pub open spec fn or_8_outcome(c: ConfiguredCore, dst: u32, src: u32) -> (ConfiguredCore, u32) {
    let res = (dst & 0xff) | (src & 0xff);
    (with_nzvc(c, res, res, 0, 0), res)
}

pub fn or_8(core: &mut ConfiguredCore, dst: u32, src: u32) -> (r: u32)
    ensures
        (*final(core), r) == or_8_outcome(*old(core), dst, src),
{
    let res = (dst & 0xff) | (src & 0xff);
    set_nzvc(core, res, res, 0, 0);
    res
}

/// Bitwise or at 16 bits: N and Z from the result, V and C cleared, X kept.
pub open spec fn or_16_outcome(c: ConfiguredCore, dst: u32, src: u32) -> (ConfiguredCore, u32) {
    let res = (dst & 0xffff) | (src & 0xffff);
    (with_nzvc(c, res >> 8u32, res, 0, 0), res)
}

pub fn or_16(core: &mut ConfiguredCore, dst: u32, src: u32) -> (r: u32)
    ensures
        (*final(core), r) == or_16_outcome(*old(core), dst, src),
{
    let res = (dst & 0xffff) | (src & 0xffff);
    set_nzvc(core, res >> 8u32, res, 0, 0);
    res
}

/// Bitwise or at 32 bits: N and Z from the result, V and C cleared, X kept.
pub open spec fn or_32_outcome(c: ConfiguredCore, dst: u32, src: u32) -> (ConfiguredCore, u32) {
    let res = dst | src;
    (with_nzvc(c, res >> 24u32, res, 0, 0), res)
}

pub fn or_32(core: &mut ConfiguredCore, dst: u32, src: u32) -> (r: u32)
    ensures
        (*final(core), r) == or_32_outcome(*old(core), dst, src),
{
    let res = dst | src;
    set_nzvc(core, res >> 24u32, res, 0, 0);
    res
}

/// The mask of the top `n` bits of a byte; all eight bits from `n == 8` on.
pub open spec fn top_bits_8(n: u32) -> u32 {
    if n < 8 {
        (0xff00u32 >> n) & 0xff
    } else {
        0xff
    }
}

/// The mask of the top `n` bits of a word; all sixteen bits from `n == 16` on.
pub open spec fn top_bits_16(n: u32) -> u32 {
    if n < 16 {
        (0xffff_0000u32 >> n) & 0xffff
    } else {
        0xffff
    }
}

/// The mask of the top `n` bits of a long word; all bits from `n == 32` on.
pub open spec fn top_bits_32(n: u32) -> u32 {
    if n < 32 {
        !(0xffff_ffffu32 >> n)
    } else {
        0xffff_ffff
    }
}

fn shift_mask_8(n: u32) -> (r: u32)
    ensures
        r == top_bits_8(n),
{
    if n < 8 {
        (0xff00u32 >> n) & 0xff
    } else {
        0xff
    }
}

fn shift_mask_16(n: u32) -> (r: u32)
    ensures
        r == top_bits_16(n),
{
    if n < 16 {
        (0xffff_0000u32 >> n) & 0xffff
    } else {
        0xffff
    }
}

fn shift_mask_32(n: u32) -> (r: u32)
    ensures
        r == top_bits_32(n),
{
    if n < 32 {
        !(0xffff_ffffu32 >> n)
    } else {
        0xffff_ffff
    }
}

/// Arithmetic shift right of a byte by `shift` bits.
pub open spec fn asr_8_outcome(c: ConfiguredCore, dst: u32, shift: u32) -> (ConfiguredCore, u32) {
    let src = dst & 0xff;
    if shift == 0 {
        (with_nzvc(c, src, src, VFLAG_CLEAR, CFLAG_CLEAR), src)
    } else if shift < 8 {
        let res = if src & 0x80 != 0 {
            (src >> shift) | top_bits_8(shift)
        } else {
            src >> shift
        };
        let carry = src << ((9 - shift) as u32);
        (with_xnzvc(c, carry, res, res, VFLAG_CLEAR, carry), res)
    } else if src & 0x80 != 0 {
        (with_xnzvc(c, XFLAG_SET, NFLAG_SET, ZFLAG_CLEAR, VFLAG_CLEAR, CFLAG_SET), 0xff)
    } else {
        (with_xnzvc(c, XFLAG_CLEAR, NFLAG_CLEAR, ZFLAG_SET, VFLAG_CLEAR, CFLAG_CLEAR), 0)
    }
}

pub fn asr_8(core: &mut ConfiguredCore, dst: u32, shift: u32) -> (r: u32)
    ensures
        (*final(core), r) == asr_8_outcome(*old(core), dst, shift),
{
    let src = dst & 0xff;
    if shift == 0 {
        set_nzvc(core, src, src, VFLAG_CLEAR, CFLAG_CLEAR);
        src
    } else if shift < 8 {
        let res = if src & 0x80 != 0 {
            (src >> shift) | shift_mask_8(shift)
        } else {
            src >> shift
        };
        let carry = src << (9 - shift);
        set_xnzvc(core, carry, res, res, VFLAG_CLEAR, carry);
        res
    } else if src & 0x80 != 0 {
        set_xnzvc(core, XFLAG_SET, NFLAG_SET, ZFLAG_CLEAR, VFLAG_CLEAR, CFLAG_SET);
        0xff
    } else {
        set_xnzvc(core, XFLAG_CLEAR, NFLAG_CLEAR, ZFLAG_SET, VFLAG_CLEAR, CFLAG_CLEAR);
        0
    }
}

/// Arithmetic shift right of a word by `shift` bits.
pub open spec fn asr_16_outcome(c: ConfiguredCore, dst: u32, shift: u32) -> (ConfiguredCore, u32) {
    let src = dst & 0xffff;
    if shift == 0 {
        (with_nzvc(c, src >> 8u32, src, VFLAG_CLEAR, CFLAG_CLEAR), src)
    } else if shift < 16 {
        let res = if src & 0x8000 != 0 {
            (src >> shift) | top_bits_16(shift)
        } else {
            src >> shift
        };
        let carry = (src >> ((shift - 1) as u32)) << 8u32;
        (with_xnzvc(c, carry, res >> 8u32, res, VFLAG_CLEAR, carry), res)
    } else if src & 0x8000 != 0 {
        (with_xnzvc(c, XFLAG_SET, NFLAG_SET, ZFLAG_CLEAR, VFLAG_CLEAR, CFLAG_SET), 0xffff)
    } else {
        (with_xnzvc(c, XFLAG_CLEAR, NFLAG_CLEAR, ZFLAG_SET, VFLAG_CLEAR, CFLAG_CLEAR), 0)
    }
}

pub fn asr_16(core: &mut ConfiguredCore, dst: u32, shift: u32) -> (r: u32)
    ensures
        (*final(core), r) == asr_16_outcome(*old(core), dst, shift),
{
    let src = dst & 0xffff;
    if shift == 0 {
        set_nzvc(core, src >> 8, src, VFLAG_CLEAR, CFLAG_CLEAR);
        src
    } else if shift < 16 {
        let res = if src & 0x8000 != 0 {
            (src >> shift) | shift_mask_16(shift)
        } else {
            src >> shift
        };
        let carry = (src >> (shift - 1)) << 8;
        set_xnzvc(core, carry, res >> 8, res, VFLAG_CLEAR, carry);
        res
    } else if src & 0x8000 != 0 {
        set_xnzvc(core, XFLAG_SET, NFLAG_SET, ZFLAG_CLEAR, VFLAG_CLEAR, CFLAG_SET);
        0xffff
    } else {
        set_xnzvc(core, XFLAG_CLEAR, NFLAG_CLEAR, ZFLAG_SET, VFLAG_CLEAR, CFLAG_CLEAR);
        0
    }
}

/// Arithmetic shift right of a long word by `shift` bits.
pub open spec fn asr_32_outcome(c: ConfiguredCore, dst: u32, shift: u32) -> (ConfiguredCore, u32) {
    let src = dst;
    if shift == 0 {
        (with_nzvc(c, src >> 24u32, src, VFLAG_CLEAR, CFLAG_CLEAR), src)
    } else if shift < 32 {
        let res = if src & 0x8000_0000 != 0 {
            (src >> shift) | top_bits_32(shift)
        } else {
            src >> shift
        };
        let carry = (src >> ((shift - 1) as u32)) << 8u32;
        (with_xnzvc(c, carry, res >> 24u32, res, VFLAG_CLEAR, carry), res)
    } else if src & 0x8000_0000 != 0 {
        (with_xnzvc(c, XFLAG_SET, NFLAG_SET, ZFLAG_CLEAR, VFLAG_CLEAR, CFLAG_SET), 0xffff_ffff)
    } else {
        (with_xnzvc(c, XFLAG_CLEAR, NFLAG_CLEAR, ZFLAG_SET, VFLAG_CLEAR, CFLAG_CLEAR), 0)
    }
}

pub fn asr_32(core: &mut ConfiguredCore, dst: u32, shift: u32) -> (r: u32)
    ensures
        (*final(core), r) == asr_32_outcome(*old(core), dst, shift),
{
    let src = dst;
    if shift == 0 {
        set_nzvc(core, src >> 24, src, VFLAG_CLEAR, CFLAG_CLEAR);
        src
    } else if shift < 32 {
        let res = if src & 0x8000_0000 != 0 {
            (src >> shift) | shift_mask_32(shift)
        } else {
            src >> shift
        };
        let carry = (src >> (shift - 1)) << 8;
        set_xnzvc(core, carry, res >> 24, res, VFLAG_CLEAR, carry);
        res
    } else if src & 0x8000_0000 != 0 {
        set_xnzvc(core, XFLAG_SET, NFLAG_SET, ZFLAG_CLEAR, VFLAG_CLEAR, CFLAG_SET);
        0xffff_ffff
    } else {
        set_xnzvc(core, XFLAG_CLEAR, NFLAG_CLEAR, ZFLAG_SET, VFLAG_CLEAR, CFLAG_CLEAR);
        0
    }
}

/// The V flag of an arithmetic shift left by fewer bits than the operand
/// has: set when the bits that pass through the sign position are not all
/// equal.
pub open spec fn asl_overflow(bits: u32, mask: u32) -> u32 {
    if bits & mask == 0 || bits & mask == mask {
        0
    } else {
        0x80
    }
}

fn asl_v(bits: u32, mask: u32) -> (r: u32)
    ensures
        r == asl_overflow(bits, mask),
{
    let b = bits & mask;
    if b == 0 || b == mask {
        0
    } else {
        0x80
    }
}

/// Arithmetic shift left of a byte by `shift` bits.
pub open spec fn asl_8_outcome(c: ConfiguredCore, dst: u32, shift: u32) -> (ConfiguredCore, u32) {
    let src = dst & 0xff;
    if shift == 0 {
        (with_nzvc(c, src, src, VFLAG_CLEAR, CFLAG_CLEAR), src)
    } else if shift < 8 {
        let full = src << shift;
        let res = full & 0xff;
        (with_xnzvc(c, full, res, res, asl_overflow(src, top_bits_8((shift + 1) as u32)), full), res)
    } else {
        let carry = (if shift == 8 { src & 1 } else { 0 }) << 8u32;
        (with_xnzvc(c, carry, NFLAG_CLEAR, ZFLAG_SET, if src == 0 { VFLAG_CLEAR } else { VFLAG_SET }, carry), 0)
    }
}

pub fn asl_8(core: &mut ConfiguredCore, dst: u32, shift: u32) -> (r: u32)
    ensures
        (*final(core), r) == asl_8_outcome(*old(core), dst, shift),
{
    let src = dst & 0xff;
    if shift == 0 {
        set_nzvc(core, src, src, VFLAG_CLEAR, CFLAG_CLEAR);
        src
    } else if shift < 8 {
        let full = src << shift;
        let res = full & 0xff;
        let v = asl_v(src, shift_mask_8(shift + 1));
        set_xnzvc(core, full, res, res, v, full);
        res
    } else {
        let carry = (if shift == 8 { src & 1 } else { 0 }) << 8;
        let v = if src == 0 { VFLAG_CLEAR } else { VFLAG_SET };
        set_xnzvc(core, carry, NFLAG_CLEAR, ZFLAG_SET, v, carry);
        0
    }
}

/// Arithmetic shift left of a word by `shift` bits.
pub open spec fn asl_16_outcome(c: ConfiguredCore, dst: u32, shift: u32) -> (ConfiguredCore, u32) {
    let src = dst & 0xffff;
    if shift == 0 {
        (with_nzvc(c, src >> 8u32, src, VFLAG_CLEAR, CFLAG_CLEAR), src)
    } else if shift < 16 {
        let full = src << shift;
        let res = full & 0xffff;
        let carry = full >> 8u32;
        (with_xnzvc(c, carry, res >> 8u32, res, asl_overflow(src, top_bits_16((shift + 1) as u32)), carry), res)
    } else {
        let carry = (if shift == 16 { src & 1 } else { 0 }) << 8u32;
        (with_xnzvc(c, carry, NFLAG_CLEAR, ZFLAG_SET, if src == 0 { VFLAG_CLEAR } else { VFLAG_SET }, carry), 0)
    }
}

pub fn asl_16(core: &mut ConfiguredCore, dst: u32, shift: u32) -> (r: u32)
    ensures
        (*final(core), r) == asl_16_outcome(*old(core), dst, shift),
{
    let src = dst & 0xffff;
    if shift == 0 {
        set_nzvc(core, src >> 8, src, VFLAG_CLEAR, CFLAG_CLEAR);
        src
    } else if shift < 16 {
        let full = src << shift;
        let res = full & 0xffff;
        let carry = full >> 8;
        let v = asl_v(src, shift_mask_16(shift + 1));
        set_xnzvc(core, carry, res >> 8, res, v, carry);
        res
    } else {
        let carry = (if shift == 16 { src & 1 } else { 0 }) << 8;
        let v = if src == 0 { VFLAG_CLEAR } else { VFLAG_SET };
        set_xnzvc(core, carry, NFLAG_CLEAR, ZFLAG_SET, v, carry);
        0
    }
}

/// Arithmetic shift left of a long word by `shift` bits.
pub open spec fn asl_32_outcome(c: ConfiguredCore, dst: u32, shift: u32) -> (ConfiguredCore, u32) {
    let src = dst;
    if shift == 0 {
        (with_nzvc(c, src >> 24u32, src, VFLAG_CLEAR, CFLAG_CLEAR), src)
    } else if shift < 32 {
        let res = src << shift;
        let carry = (src >> ((32 - shift) as u32)) << 8u32;
        (with_xnzvc(c, carry, res >> 24u32, res, asl_overflow(src, top_bits_32((shift + 1) as u32)), carry), res)
    } else {
        let carry = (if shift == 32 { src & 1 } else { 0 }) << 8u32;
        (with_xnzvc(c, carry, NFLAG_CLEAR, ZFLAG_SET, if src == 0 { VFLAG_CLEAR } else { VFLAG_SET }, carry), 0)
    }
}

pub fn asl_32(core: &mut ConfiguredCore, dst: u32, shift: u32) -> (r: u32)
    ensures
        (*final(core), r) == asl_32_outcome(*old(core), dst, shift),
{
    let src = dst;
    if shift == 0 {
        set_nzvc(core, src >> 24, src, VFLAG_CLEAR, CFLAG_CLEAR);
        src
    } else if shift < 32 {
        let res = src << shift;
        let carry = (src >> (32 - shift)) << 8;
        let v = asl_v(src, shift_mask_32(shift + 1));
        set_xnzvc(core, carry, res >> 24, res, v, carry);
        res
    } else {
        let carry = (if shift == 32 { src & 1 } else { 0 }) << 8;
        let v = if src == 0 { VFLAG_CLEAR } else { VFLAG_SET };
        set_xnzvc(core, carry, NFLAG_CLEAR, ZFLAG_SET, v, carry);
        0
    }
}

/// Logical shift right of a byte by `shift` bits.
pub open spec fn lsr_8_outcome(c: ConfiguredCore, dst: u32, shift: u32) -> (ConfiguredCore, u32) {
    let src = dst & 0xff;
    if shift == 0 {
        (with_nzvc(c, src, src, VFLAG_CLEAR, CFLAG_CLEAR), src)
    } else if shift <= 8 {
        let res = src >> shift;
        let carry = src << ((9 - shift) as u32);
        (with_xnzvc(c, carry, NFLAG_CLEAR, res, VFLAG_CLEAR, carry), res)
    } else {
        (with_xnzvc(c, XFLAG_CLEAR, NFLAG_CLEAR, ZFLAG_SET, VFLAG_CLEAR, CFLAG_CLEAR), 0)
    }
}

pub fn lsr_8(core: &mut ConfiguredCore, dst: u32, shift: u32) -> (r: u32)
    ensures
        (*final(core), r) == lsr_8_outcome(*old(core), dst, shift),
{
    let src = dst & 0xff;
    if shift == 0 {
        set_nzvc(core, src, src, VFLAG_CLEAR, CFLAG_CLEAR);
        src
    } else if shift <= 8 {
        let res = src >> shift;
        let carry = src << (9 - shift);
        set_xnzvc(core, carry, NFLAG_CLEAR, res, VFLAG_CLEAR, carry);
        res
    } else {
        set_xnzvc(core, XFLAG_CLEAR, NFLAG_CLEAR, ZFLAG_SET, VFLAG_CLEAR, CFLAG_CLEAR);
        0
    }
}

/// Logical shift right of a word by `shift` bits.
pub open spec fn lsr_16_outcome(c: ConfiguredCore, dst: u32, shift: u32) -> (ConfiguredCore, u32) {
    let src = dst & 0xffff;
    if shift == 0 {
        (with_nzvc(c, src >> 8u32, src, VFLAG_CLEAR, CFLAG_CLEAR), src)
    } else if shift <= 16 {
        let res = src >> shift;
        let carry = (src >> ((shift - 1) as u32)) << 8u32;
        (with_xnzvc(c, carry, NFLAG_CLEAR, res, VFLAG_CLEAR, carry), res)
    } else {
        (with_xnzvc(c, XFLAG_CLEAR, NFLAG_CLEAR, ZFLAG_SET, VFLAG_CLEAR, CFLAG_CLEAR), 0)
    }
}

pub fn lsr_16(core: &mut ConfiguredCore, dst: u32, shift: u32) -> (r: u32)
    ensures
        (*final(core), r) == lsr_16_outcome(*old(core), dst, shift),
{
    let src = dst & 0xffff;
    if shift == 0 {
        set_nzvc(core, src >> 8, src, VFLAG_CLEAR, CFLAG_CLEAR);
        src
    } else if shift <= 16 {
        let res = src >> shift;
        let carry = (src >> (shift - 1)) << 8;
        set_xnzvc(core, carry, NFLAG_CLEAR, res, VFLAG_CLEAR, carry);
        res
    } else {
        set_xnzvc(core, XFLAG_CLEAR, NFLAG_CLEAR, ZFLAG_SET, VFLAG_CLEAR, CFLAG_CLEAR);
        0
    }
}

/// Logical shift right of a long word by `shift` bits.
pub open spec fn lsr_32_outcome(c: ConfiguredCore, dst: u32, shift: u32) -> (ConfiguredCore, u32) {
    let src = dst;
    if shift == 0 {
        (with_nzvc(c, src >> 24u32, src, VFLAG_CLEAR, CFLAG_CLEAR), src)
    } else if shift < 32 {
        let res = src >> shift;
        let carry = (src >> ((shift - 1) as u32)) << 8u32;
        (with_xnzvc(c, carry, NFLAG_CLEAR, res, VFLAG_CLEAR, carry), res)
    } else {
        let carry = if shift == 32 { (src & 0x8000_0000) >> 23u32 } else { 0 };
        (with_xnzvc(c, carry, NFLAG_CLEAR, ZFLAG_SET, VFLAG_CLEAR, carry), 0)
    }
}

pub fn lsr_32(core: &mut ConfiguredCore, dst: u32, shift: u32) -> (r: u32)
    ensures
        (*final(core), r) == lsr_32_outcome(*old(core), dst, shift),
{
    let src = dst;
    if shift == 0 {
        set_nzvc(core, src >> 24, src, VFLAG_CLEAR, CFLAG_CLEAR);
        src
    } else if shift < 32 {
        let res = src >> shift;
        let carry = (src >> (shift - 1)) << 8;
        set_xnzvc(core, carry, NFLAG_CLEAR, res, VFLAG_CLEAR, carry);
        res
    } else {
        let carry = if shift == 32 { (src & 0x8000_0000) >> 23 } else { 0 };
        set_xnzvc(core, carry, NFLAG_CLEAR, ZFLAG_SET, VFLAG_CLEAR, carry);
        0
    }
}

/// Logical shift left of a byte by `shift` bits.
pub open spec fn lsl_8_outcome(c: ConfiguredCore, dst: u32, shift: u32) -> (ConfiguredCore, u32) {
    let src = dst & 0xff;
    if shift == 0 {
        (with_nzvc(c, src, src, VFLAG_CLEAR, CFLAG_CLEAR), src)
    } else if shift <= 8 {
        let full = src << shift;
        let res = full & 0xff;
        (with_xnzvc(c, full, res, res, VFLAG_CLEAR, full), res)
    } else {
        (with_xnzvc(c, XFLAG_CLEAR, NFLAG_CLEAR, ZFLAG_SET, VFLAG_CLEAR, CFLAG_CLEAR), 0)
    }
}

pub fn lsl_8(core: &mut ConfiguredCore, dst: u32, shift: u32) -> (r: u32)
    ensures
        (*final(core), r) == lsl_8_outcome(*old(core), dst, shift),
{
    let src = dst & 0xff;
    if shift == 0 {
        set_nzvc(core, src, src, VFLAG_CLEAR, CFLAG_CLEAR);
        src
    } else if shift <= 8 {
        let full = src << shift;
        let res = full & 0xff;
        set_xnzvc(core, full, res, res, VFLAG_CLEAR, full);
        res
    } else {
        set_xnzvc(core, XFLAG_CLEAR, NFLAG_CLEAR, ZFLAG_SET, VFLAG_CLEAR, CFLAG_CLEAR);
        0
    }
}

/// Logical shift left of a word by `shift` bits.
pub open spec fn lsl_16_outcome(c: ConfiguredCore, dst: u32, shift: u32) -> (ConfiguredCore, u32) {
    let src = dst & 0xffff;
    if shift == 0 {
        (with_nzvc(c, src >> 8u32, src, VFLAG_CLEAR, CFLAG_CLEAR), src)
    } else if shift <= 16 {
        let full = src << shift;
        let res = full & 0xffff;
        let carry = full >> 8u32;
        (with_xnzvc(c, carry, res >> 8u32, res, VFLAG_CLEAR, carry), res)
    } else {
        (with_xnzvc(c, XFLAG_CLEAR, NFLAG_CLEAR, ZFLAG_SET, VFLAG_CLEAR, CFLAG_CLEAR), 0)
    }
}

pub fn lsl_16(core: &mut ConfiguredCore, dst: u32, shift: u32) -> (r: u32)
    ensures
        (*final(core), r) == lsl_16_outcome(*old(core), dst, shift),
{
    let src = dst & 0xffff;
    if shift == 0 {
        set_nzvc(core, src >> 8, src, VFLAG_CLEAR, CFLAG_CLEAR);
        src
    } else if shift <= 16 {
        let full = src << shift;
        let res = full & 0xffff;
        let carry = full >> 8;
        set_xnzvc(core, carry, res >> 8, res, VFLAG_CLEAR, carry);
        res
    } else {
        set_xnzvc(core, XFLAG_CLEAR, NFLAG_CLEAR, ZFLAG_SET, VFLAG_CLEAR, CFLAG_CLEAR);
        0
    }
}

/// Logical shift left of a long word by `shift` bits.
pub open spec fn lsl_32_outcome(c: ConfiguredCore, dst: u32, shift: u32) -> (ConfiguredCore, u32) {
    let src = dst;
    if shift == 0 {
        (with_nzvc(c, src >> 24u32, src, VFLAG_CLEAR, CFLAG_CLEAR), src)
    } else if shift < 32 {
        let res = src << shift;
        let carry = (src >> ((32 - shift) as u32)) << 8u32;
        (with_xnzvc(c, carry, res >> 24u32, res, VFLAG_CLEAR, carry), res)
    } else {
        let carry = (if shift == 32 { src & 1 } else { 0 }) << 8u32;
        (with_xnzvc(c, carry, NFLAG_CLEAR, ZFLAG_SET, VFLAG_CLEAR, carry), 0)
    }
}

pub fn lsl_32(core: &mut ConfiguredCore, dst: u32, shift: u32) -> (r: u32)
    ensures
        (*final(core), r) == lsl_32_outcome(*old(core), dst, shift),
{
    let src = dst;
    if shift == 0 {
        set_nzvc(core, src >> 24, src, VFLAG_CLEAR, CFLAG_CLEAR);
        src
    } else if shift < 32 {
        let res = src << shift;
        let carry = (src >> (32 - shift)) << 8;
        set_xnzvc(core, carry, res >> 24, res, VFLAG_CLEAR, carry);
        res
    } else {
        let carry = (if shift == 32 { src & 1 } else { 0 }) << 8;
        set_xnzvc(core, carry, NFLAG_CLEAR, ZFLAG_SET, VFLAG_CLEAR, carry);
        0
    }
}

/// A byte rotated right by `k < 8` places.
pub open spec fn rotate_right_8(x: u32, k: u32) -> u32 {
    if k == 0 {
        x
    } else {
        ((x >> k) | (x << ((8 - k) as u32))) & 0xff
    }
}

/// A byte rotated left by `k < 8` places.
pub open spec fn rotate_left_8(x: u32, k: u32) -> u32 {
    if k == 0 {
        x
    } else {
        ((x << k) | (x >> ((8 - k) as u32))) & 0xff
    }
}

/// A word rotated right by `k < 16` places.
pub open spec fn rotate_right_16(x: u32, k: u32) -> u32 {
    if k == 0 {
        x
    } else {
        ((x >> k) | (x << ((16 - k) as u32))) & 0xffff
    }
}

/// A word rotated left by `k < 16` places.
pub open spec fn rotate_left_16(x: u32, k: u32) -> u32 {
    if k == 0 {
        x
    } else {
        ((x << k) | (x >> ((16 - k) as u32))) & 0xffff
    }
}

/// A long word rotated right by `k < 32` places.
pub open spec fn rotate_right_32(x: u32, k: u32) -> u32 {
    if k == 0 {
        x
    } else {
        (x >> k) | (x << ((32 - k) as u32))
    }
}

/// A long word rotated left by `k < 32` places.
pub open spec fn rotate_left_32(x: u32, k: u32) -> u32 {
    if k == 0 {
        x
    } else {
        (x << k) | (x >> ((32 - k) as u32))
    }
}

/// Rotation right of a byte; the count is taken modulo 8, and C gets the
/// last bit rotated out.
pub open spec fn ror_8_outcome(c: ConfiguredCore, dst: u32, orig_shift: u32) -> (ConfiguredCore, u32) {
    let src = dst & 0xff;
    if orig_shift != 0 {
        let shift = orig_shift & 7;
        let res = rotate_right_8(src, shift);
        let carry = src << ((8 - (shift.wrapping_sub(1) & 7)) as u32);
        (with_nzvc(c, res, res, VFLAG_CLEAR, carry), res)
    } else {
        (with_nzvc(c, src, src, VFLAG_CLEAR, CFLAG_CLEAR), src)
    }
}

pub fn ror_8(core: &mut ConfiguredCore, dst: u32, orig_shift: u32) -> (r: u32)
    ensures
        (*final(core), r) == ror_8_outcome(*old(core), dst, orig_shift),
{
    let src = dst & 0xff;
    if orig_shift != 0 {
        let shift = orig_shift & 7;
        proof {
            lemma_low_bits(orig_shift);
            lemma_low_bits(shift.wrapping_sub(1));
        }
        let res = if shift == 0 {
            src
        } else {
            ((src >> shift) | (src << (8 - shift))) & 0xff
        };
        let carry = src << (8 - (shift.wrapping_sub(1) & 7));
        set_nzvc(core, res, res, VFLAG_CLEAR, carry);
        res
    } else {
        set_nzvc(core, src, src, VFLAG_CLEAR, CFLAG_CLEAR);
        src
    }
}

/// Rotation right of a word; the count is taken modulo 16.
pub open spec fn ror_16_outcome(c: ConfiguredCore, dst: u32, orig_shift: u32) -> (ConfiguredCore, u32) {
    let src = dst & 0xffff;
    if orig_shift != 0 {
        let shift = orig_shift & 15;
        let res = rotate_right_16(src, shift);
        let carry = (src >> (shift.wrapping_sub(1) & 15)) << 8u32;
        (with_nzvc(c, res >> 8u32, res, VFLAG_CLEAR, carry), res)
    } else {
        (with_nzvc(c, src >> 8u32, src, VFLAG_CLEAR, CFLAG_CLEAR), src)
    }
}

pub fn ror_16(core: &mut ConfiguredCore, dst: u32, orig_shift: u32) -> (r: u32)
    ensures
        (*final(core), r) == ror_16_outcome(*old(core), dst, orig_shift),
{
    let src = dst & 0xffff;
    if orig_shift != 0 {
        let shift = orig_shift & 15;
        proof {
            lemma_low_bits(orig_shift);
            lemma_low_bits(shift.wrapping_sub(1));
        }
        let res = if shift == 0 {
            src
        } else {
            ((src >> shift) | (src << (16 - shift))) & 0xffff
        };
        let carry = (src >> (shift.wrapping_sub(1) & 15)) << 8;
        set_nzvc(core, res >> 8, res, VFLAG_CLEAR, carry);
        res
    } else {
        set_nzvc(core, src >> 8, src, VFLAG_CLEAR, CFLAG_CLEAR);
        src
    }
}

/// Rotation right of a long word; the count is taken modulo 32.
pub open spec fn ror_32_outcome(c: ConfiguredCore, dst: u32, orig_shift: u32) -> (ConfiguredCore, u32) {
    let src = dst;
    if orig_shift != 0 {
        let shift = orig_shift & 31;
        let res = rotate_right_32(src, shift);
        let carry = (src >> (shift.wrapping_sub(1) & 31)) << 8u32;
        (with_nzvc(c, res >> 24u32, res, VFLAG_CLEAR, carry), res)
    } else {
        (with_nzvc(c, src >> 24u32, src, VFLAG_CLEAR, CFLAG_CLEAR), src)
    }
}

pub fn ror_32(core: &mut ConfiguredCore, dst: u32, orig_shift: u32) -> (r: u32)
    ensures
        (*final(core), r) == ror_32_outcome(*old(core), dst, orig_shift),
{
    let src = dst;
    if orig_shift != 0 {
        let shift = orig_shift & 31;
        proof {
            lemma_low_bits(orig_shift);
            lemma_low_bits(shift.wrapping_sub(1));
        }
        let res = if shift == 0 {
            src
        } else {
            (src >> shift) | (src << (32 - shift))
        };
        let carry = (src >> (shift.wrapping_sub(1) & 31)) << 8;
        set_nzvc(core, res >> 24, res, VFLAG_CLEAR, carry);
        res
    } else {
        set_nzvc(core, src >> 24, src, VFLAG_CLEAR, CFLAG_CLEAR);
        src
    }
}

/// Rotation left of a byte; the count is taken modulo 8.
pub open spec fn rol_8_outcome(c: ConfiguredCore, dst: u32, orig_shift: u32) -> (ConfiguredCore, u32) {
    let src = dst & 0xff;
    if orig_shift != 0 {
        let shift = orig_shift & 7;
        if shift != 0 {
            let res = rotate_left_8(src, shift);
            (with_nzvc(c, res, res, VFLAG_CLEAR, src << shift), res)
        } else {
            (with_nzvc(c, src, src, VFLAG_CLEAR, (src & 1) << 8u32), src)
        }
    } else {
        (with_nzvc(c, src, src, VFLAG_CLEAR, CFLAG_CLEAR), src)
    }
}

pub fn rol_8(core: &mut ConfiguredCore, dst: u32, orig_shift: u32) -> (r: u32)
    ensures
        (*final(core), r) == rol_8_outcome(*old(core), dst, orig_shift),
{
    let src = dst & 0xff;
    if orig_shift != 0 {
        let shift = orig_shift & 7;
        proof {
            lemma_low_bits(orig_shift);
        }
        if shift != 0 {
            let res = ((src << shift) | (src >> (8 - shift))) & 0xff;
            set_nzvc(core, res, res, VFLAG_CLEAR, src << shift);
            res
        } else {
            set_nzvc(core, src, src, VFLAG_CLEAR, (src & 1) << 8);
            src
        }
    } else {
        set_nzvc(core, src, src, VFLAG_CLEAR, CFLAG_CLEAR);
        src
    }
}

/// Rotation left of a word; the count is taken modulo 16.
pub open spec fn rol_16_outcome(c: ConfiguredCore, dst: u32, orig_shift: u32) -> (ConfiguredCore, u32) {
    let src = dst & 0xffff;
    if orig_shift != 0 {
        let shift = orig_shift & 15;
        if shift != 0 {
            let res = rotate_left_16(src, shift);
            (with_nzvc(c, res >> 8u32, res, VFLAG_CLEAR, (src << shift) >> 8u32), res)
        } else {
            (with_nzvc(c, src >> 8u32, src, VFLAG_CLEAR, (src & 1) << 8u32), src)
        }
    } else {
        (with_nzvc(c, src >> 8u32, src, VFLAG_CLEAR, CFLAG_CLEAR), src)
    }
}

pub fn rol_16(core: &mut ConfiguredCore, dst: u32, orig_shift: u32) -> (r: u32)
    ensures
        (*final(core), r) == rol_16_outcome(*old(core), dst, orig_shift),
{
    let src = dst & 0xffff;
    if orig_shift != 0 {
        let shift = orig_shift & 15;
        proof {
            lemma_low_bits(orig_shift);
        }
        if shift != 0 {
            let res = ((src << shift) | (src >> (16 - shift))) & 0xffff;
            set_nzvc(core, res >> 8, res, VFLAG_CLEAR, (src << shift) >> 8);
            res
        } else {
            set_nzvc(core, src >> 8, src, VFLAG_CLEAR, (src & 1) << 8);
            src
        }
    } else {
        set_nzvc(core, src >> 8, src, VFLAG_CLEAR, CFLAG_CLEAR);
        src
    }
}

/// Rotation left of a long word; the count is taken modulo 32.
pub open spec fn rol_32_outcome(c: ConfiguredCore, dst: u32, orig_shift: u32) -> (ConfiguredCore, u32) {
    let src = dst;
    if orig_shift != 0 {
        let shift = orig_shift & 31;
        let res = rotate_left_32(src, shift);
        let out = if shift == 0 {
            src
        } else {
            src >> ((32 - shift) as u32)
        };
        (with_nzvc(c, res >> 24u32, res, VFLAG_CLEAR, out << 8u32), res)
    } else {
        (with_nzvc(c, src >> 24u32, src, VFLAG_CLEAR, CFLAG_CLEAR), src)
    }
}

pub fn rol_32(core: &mut ConfiguredCore, dst: u32, orig_shift: u32) -> (r: u32)
    ensures
        (*final(core), r) == rol_32_outcome(*old(core), dst, orig_shift),
{
    let src = dst;
    if orig_shift != 0 {
        let shift = orig_shift & 31;
        proof {
            lemma_low_bits(orig_shift);
        }
        let res = if shift == 0 {
            src
        } else {
            (src << shift) | (src >> (32 - shift))
        };
        let out = if shift == 0 {
            src
        } else {
            src >> (32 - shift)
        };
        set_nzvc(core, res >> 24, res, VFLAG_CLEAR, out << 8);
        res
    } else {
        set_nzvc(core, src >> 24, src, VFLAG_CLEAR, CFLAG_CLEAR);
        src
    }
}

/// Rotation right of a byte through the extend flag, as a nine-bit
/// quantity; the count is taken modulo 9.
pub open spec fn roxr_8_outcome(c: ConfiguredCore, dst: u32, orig_shift: u32) -> (ConfiguredCore, u32) {
    if orig_shift != 0 {
        let shift = orig_shift % 9;
        let srcx = (dst & 0xff) | (x1(c) << 8u32);
        let res = (srcx >> shift) | (srcx << ((9 - shift) as u32));
        let low = res & 0xff;
        (with_xnzvc(c, res, low, low, VFLAG_CLEAR, res), low)
    } else {
        (with_nzvc(c, dst, dst & 0xff, VFLAG_CLEAR, c.x_flag), dst)
    }
}

pub fn roxr_8(core: &mut ConfiguredCore, dst: u32, orig_shift: u32) -> (r: u32)
    ensures
        (*final(core), r) == roxr_8_outcome(*old(core), dst, orig_shift),
{
    if orig_shift != 0 {
        let shift = orig_shift % 9;
        let srcx = (dst & 0xff) | (core.x_flag_as_1() << 8);
        let res = (srcx >> shift) | (srcx << (9 - shift));
        let low = res & 0xff;
        set_xnzvc(core, res, low, low, VFLAG_CLEAR, res);
        low
    } else {
        let x = core.x_flag;
        set_nzvc(core, dst, dst & 0xff, VFLAG_CLEAR, x);
        dst
    }
}

/// Rotation right of a word through the extend flag, as a seventeen-bit
/// quantity; the count is taken modulo 17.
pub open spec fn roxr_16_outcome(c: ConfiguredCore, dst: u32, orig_shift: u32) -> (ConfiguredCore, u32) {
    if orig_shift != 0 {
        let shift = orig_shift % 17;
        let srcx = (dst & 0xffff) | (x1(c) << 16u32);
        let res = (srcx >> shift) | (srcx << ((17 - shift) as u32));
        let low = res & 0xffff;
        (with_xnzvc(c, res >> 8u32, low >> 8u32, low, VFLAG_CLEAR, res >> 8u32), low)
    } else {
        (with_nzvc(c, dst >> 8u32, dst & 0xffff, VFLAG_CLEAR, c.x_flag), dst)
    }
}

pub fn roxr_16(core: &mut ConfiguredCore, dst: u32, orig_shift: u32) -> (r: u32)
    ensures
        (*final(core), r) == roxr_16_outcome(*old(core), dst, orig_shift),
{
    if orig_shift != 0 {
        let shift = orig_shift % 17;
        let srcx = (dst & 0xffff) | (core.x_flag_as_1() << 16);
        let res = (srcx >> shift) | (srcx << (17 - shift));
        let low = res & 0xffff;
        set_xnzvc(core, res >> 8, low >> 8, low, VFLAG_CLEAR, res >> 8);
        low
    } else {
        let x = core.x_flag;
        set_nzvc(core, dst >> 8, dst & 0xffff, VFLAG_CLEAR, x);
        dst
    }
}

/// Rotation right of a long word through the extend flag, as a 33-bit
/// quantity; the count is taken modulo 33.
pub open spec fn roxr_32_outcome(c: ConfiguredCore, dst: u32, orig_shift: u32) -> (ConfiguredCore, u32) {
    let shift = (orig_shift % 33) as u64;
    if shift != 0 {
        let srcx = (dst as u64) | ((x1(c) as u64) << 32u64);
        let res = (srcx >> shift) | (srcx << ((33 - shift) as u64));
        let x = (res >> 24u64) as u32;
        let low = res as u32;
        (with_xnzvc(c, x, low >> 24u32, low, VFLAG_CLEAR, x), low)
    } else {
        (with_nzvc(c, dst >> 24u32, dst, VFLAG_CLEAR, c.x_flag), dst)
    }
}

pub fn roxr_32(core: &mut ConfiguredCore, dst: u32, orig_shift: u32) -> (r: u32)
    ensures
        (*final(core), r) == roxr_32_outcome(*old(core), dst, orig_shift),
{
    let shift = (orig_shift % 33) as u64;
    if shift != 0 {
        let srcx = (dst as u64) | ((core.x_flag_as_1() as u64) << 32);
        let res = (srcx >> shift) | (srcx << (33 - shift));
        let x = (res >> 24) as u32;
        let low = res as u32;
        set_xnzvc(core, x, low >> 24, low, VFLAG_CLEAR, x);
        low
    } else {
        let x = core.x_flag;
        set_nzvc(core, dst >> 24, dst, VFLAG_CLEAR, x);
        dst
    }
}

/// Rotation left of a byte through the extend flag; the count is taken
/// modulo 9.
pub open spec fn roxl_8_outcome(c: ConfiguredCore, dst: u32, orig_shift: u32) -> (ConfiguredCore, u32) {
    if orig_shift != 0 {
        let shift = orig_shift % 9;
        let srcx = (dst & 0xff) | (x1(c) << 8u32);
        let res = (srcx << shift) | (srcx >> ((9 - shift) as u32));
        let low = res & 0xff;
        (with_xnzvc(c, res, low, low, VFLAG_CLEAR, res), low)
    } else {
        (with_nzvc(c, dst, dst & 0xff, VFLAG_CLEAR, c.x_flag), dst)
    }
}

pub fn roxl_8(core: &mut ConfiguredCore, dst: u32, orig_shift: u32) -> (r: u32)
    ensures
        (*final(core), r) == roxl_8_outcome(*old(core), dst, orig_shift),
{
    if orig_shift != 0 {
        let shift = orig_shift % 9;
        let srcx = (dst & 0xff) | (core.x_flag_as_1() << 8);
        let res = (srcx << shift) | (srcx >> (9 - shift));
        let low = res & 0xff;
        set_xnzvc(core, res, low, low, VFLAG_CLEAR, res);
        low
    } else {
        let x = core.x_flag;
        set_nzvc(core, dst, dst & 0xff, VFLAG_CLEAR, x);
        dst
    }
}

/// Rotation left of a word through the extend flag; the count is taken
/// modulo 17.
pub open spec fn roxl_16_outcome(c: ConfiguredCore, dst: u32, orig_shift: u32) -> (ConfiguredCore, u32) {
    if orig_shift != 0 {
        let shift = orig_shift % 17;
        let srcx = (dst & 0xffff) | (x1(c) << 16u32);
        let res = (srcx << shift) | (srcx >> ((17 - shift) as u32));
        let low = res & 0xffff;
        (with_xnzvc(c, res >> 8u32, low >> 8u32, low, VFLAG_CLEAR, res >> 8u32), low)
    } else {
        (with_nzvc(c, dst >> 8u32, dst & 0xffff, VFLAG_CLEAR, c.x_flag), dst)
    }
}

pub fn roxl_16(core: &mut ConfiguredCore, dst: u32, orig_shift: u32) -> (r: u32)
    ensures
        (*final(core), r) == roxl_16_outcome(*old(core), dst, orig_shift),
{
    if orig_shift != 0 {
        let shift = orig_shift % 17;
        let srcx = (dst & 0xffff) | (core.x_flag_as_1() << 16);
        let res = (srcx << shift) | (srcx >> (17 - shift));
        let low = res & 0xffff;
        set_xnzvc(core, res >> 8, low >> 8, low, VFLAG_CLEAR, res >> 8);
        low
    } else {
        let x = core.x_flag;
        set_nzvc(core, dst >> 8, dst & 0xffff, VFLAG_CLEAR, x);
        dst
    }
}

/// Rotation left of a long word through the extend flag; the count is
/// taken modulo 33.
pub open spec fn roxl_32_outcome(c: ConfiguredCore, dst: u32, orig_shift: u32) -> (ConfiguredCore, u32) {
    let shift = (orig_shift % 33) as u64;
    if shift != 0 {
        let srcx = (dst as u64) | ((x1(c) as u64) << 32u64);
        let res = (srcx << shift) | (srcx >> ((33 - shift) as u64));
        let x = (res >> 24u64) as u32;
        let low = res as u32;
        (with_xnzvc(c, x, low >> 24u32, low, VFLAG_CLEAR, x), low)
    } else {
        (with_nzvc(c, dst >> 24u32, dst, VFLAG_CLEAR, c.x_flag), dst)
    }
}

pub fn roxl_32(core: &mut ConfiguredCore, dst: u32, orig_shift: u32) -> (r: u32)
    ensures
        (*final(core), r) == roxl_32_outcome(*old(core), dst, orig_shift),
{
    let shift = (orig_shift % 33) as u64;
    if shift != 0 {
        let srcx = (dst as u64) | ((core.x_flag_as_1() as u64) << 32);
        let res = (srcx << shift) | (srcx >> (33 - shift));
        let x = (res >> 24) as u32;
        let low = res as u32;
        set_xnzvc(core, x, low >> 24, low, VFLAG_CLEAR, x);
        low
    } else {
        let x = core.x_flag;
        set_nzvc(core, dst >> 24, dst, VFLAG_CLEAR, x);
        dst
    }
}

/// The low nibble of `v`.
pub fn low_nibble(v: u32) -> (r: u32)
    ensures
        r == v & 0x0f,
{
    v & 0x0f
}

/// The high nibble of the low byte of `v`.
pub fn high_nibble(v: u32) -> (r: u32)
    ensures
        r == v & 0xf0,
{
    v & 0xf0
}

/// `v` with all but its low byte cleared.
pub fn mask_out_above_8(v: u32) -> (r: u32)
    ensures
        r == v & 0xff,
{
    v & 0xff
}

/// `v` with its low byte cleared.
pub fn mask_out_below_8(v: u32) -> (r: u32)
    ensures
        r == v & 0xffff_ff00,
{
    v & 0xffff_ff00
}

/// Decimal addition of two packed BCD bytes and the extend flag; Z is
/// only ever cleared, so that it spans a multi-byte operation.
pub open spec fn abcd_8_outcome(c: ConfiguredCore, dst: u32, src: u32) -> (ConfiguredCore, u32) {
    let lo = ((src & 0x0f) + (dst & 0x0f) + x1(c)) as u32;
    let lo_adjusted = if lo > 9 { (lo + 6) as u32 } else { lo };
    let sum = (lo_adjusted + (src & 0xf0) + (dst & 0xf0)) as u32;
    let carry = if sum > 0x99 { CFLAG_SET } else { CFLAG_CLEAR };
    let res = if carry > 0 { sum.wrapping_sub(0xa0) } else { sum };
    let low = res & 0xff;
    (with_xnzvc(c, carry, res, c.not_z_flag | low, !lo & res, carry), low)
}

pub fn abcd_8(core: &mut ConfiguredCore, dst: u32, src: u32) -> (r: u32)
    ensures
        (*final(core), r) == abcd_8_outcome(*old(core), dst, src),
{
    proof {
        lemma_low_bits(dst);
        lemma_low_bits(src);
        lemma_x1(*old(core));
    }
    let lo = low_nibble(src) + low_nibble(dst) + core.x_flag_as_1();
    let lo_adjusted = if lo > 9 { lo + 6 } else { lo };
    let sum = lo_adjusted + high_nibble(src) + high_nibble(dst);
    let carry = if sum > 0x99 { CFLAG_SET } else { CFLAG_CLEAR };
    let res = if carry > 0 { sum.wrapping_sub(0xa0) } else { sum };
    let low = mask_out_above_8(res);
    let not_z = core.not_z_flag | low;
    set_xnzvc(core, carry, res, not_z, !lo & res, carry);
    low
}

/// Decimal subtraction of a packed BCD byte and the extend flag from
/// another; Z is only ever cleared.
pub open spec fn sbcd_8_outcome(c: ConfiguredCore, dst: u32, src: u32) -> (ConfiguredCore, u32) {
    let lo = (dst & 0x0f).wrapping_sub(src & 0x0f).wrapping_sub(x1(c));
    let lo_adjusted = if lo > 9 { (lo - 6) as u32 } else { lo };
    let diff = lo_adjusted.wrapping_add((dst & 0xf0).wrapping_sub(src & 0xf0));
    let carry = if diff > 0x99 { CFLAG_SET } else { CFLAG_CLEAR };
    let res = if carry > 0 { diff.wrapping_add(0xa0) } else { diff };
    let low = res & 0xff;
    (with_xnzvc(c, carry, res, c.not_z_flag | low, !lo & res, carry), low)
}

pub fn sbcd_8(core: &mut ConfiguredCore, dst: u32, src: u32) -> (r: u32)
    ensures
        (*final(core), r) == sbcd_8_outcome(*old(core), dst, src),
{
    let lo = low_nibble(dst).wrapping_sub(low_nibble(src)).wrapping_sub(core.x_flag_as_1());
    let lo_adjusted = if lo > 9 { lo - 6 } else { lo };
    let diff = lo_adjusted.wrapping_add(high_nibble(dst).wrapping_sub(high_nibble(src)));
    let carry = if diff > 0x99 { CFLAG_SET } else { CFLAG_CLEAR };
    let res = if carry > 0 { diff.wrapping_add(0xa0) } else { diff };
    let low = mask_out_above_8(res);
    let not_z = core.not_z_flag | low;
    set_xnzvc(core, carry, res, not_z, !lo & res, carry);
    low
}

/// Decimal negation of a packed BCD byte with the extend flag; `None` when
/// the result is zero and nothing is to be written back.
pub open spec fn nbcd_outcome(c: ConfiguredCore, dst: u32) -> (ConfiguredCore, Option<u32>) {
    let res = 0x9au32.wrapping_sub(dst).wrapping_sub(x1(c)) & 0xff;
    if res != 0x9a {
        let adjusted = if res & 0x0f == 0x0a { ((res & 0xf0) + 0x10) as u32 } else { res };
        let low = adjusted & 0xff;
        (with_xnzvc(c, XFLAG_SET, low, c.not_z_flag | low, !res & low, CFLAG_SET), Some(low))
    } else {
        (with_xnzvc(c, XFLAG_CLEAR, res, c.not_z_flag, VFLAG_CLEAR, CFLAG_CLEAR), None)
    }
}

pub fn nbcd(core: &mut ConfiguredCore, dst: u32) -> (r: Option<u32>)
    ensures
        (*final(core), r) == nbcd_outcome(*old(core), dst),
{
    let res = 0x9au32.wrapping_sub(dst).wrapping_sub(core.x_flag_as_1()) & 0xff;
    if res != 0x9a {
        proof {
            lemma_low_bits(res);
        }
        let adjusted = if res & 0x0f == 0x0a { (res & 0xf0) + 0x10 } else { res };
        let low = adjusted & 0xff;
        let not_z = core.not_z_flag | low;
        set_xnzvc(core, XFLAG_SET, low, not_z, !res & low, CFLAG_SET);
        Some(low)
    } else {
        let not_z = core.not_z_flag;
        set_xnzvc(core, XFLAG_CLEAR, res, not_z, VFLAG_CLEAR, CFLAG_CLEAR);
        None
    }
}

/// The flags of a MOVE: N from bit `shift + 7` of `src`, Z from `src`.
pub open spec fn move_flags_outcome(c: ConfiguredCore, src: u32, shift: u32) -> (ConfiguredCore, u32) {
    (with_nzvc(c, src >> shift, src, VFLAG_CLEAR, CFLAG_CLEAR), src)
}

pub fn move_flags(core: &mut ConfiguredCore, src: u32, shift: u32) -> (r: u32)
    requires
        shift < 32,
    ensures
        (*final(core), r) == move_flags_outcome(*old(core), src, shift),
{
    set_nzvc(core, src >> shift, src, VFLAG_CLEAR, CFLAG_CLEAR);
    src
}

/// Signed multiplication of two words into a long word.
pub open spec fn muls_16_outcome(c: ConfiguredCore, dst: i16, src: i16) -> (ConfiguredCore, u32) {
    let res = (dst as int * src as int) as u32;
    (with_nzvc(c, res >> 24u32, res, VFLAG_CLEAR, CFLAG_CLEAR), res)
}

pub fn muls_16(core: &mut ConfiguredCore, dst: i16, src: i16) -> (r: u32)
    ensures
        (*final(core), r) == muls_16_outcome(*old(core), dst, src),
{
    assert(-0x4000_0000 <= dst as int * src as int <= 0x4000_0000) by (nonlinear_arith);
    let res = ((dst as i32) * (src as i32)) as u32;
    set_nzvc(core, res >> 24, res, VFLAG_CLEAR, CFLAG_CLEAR);
    res
}

/// Unsigned multiplication of two words into a long word.
pub open spec fn mulu_16_outcome(c: ConfiguredCore, dst: u16, src: u16) -> (ConfiguredCore, u32) {
    let res = (dst as int * src as int) as u32;
    (with_nzvc(c, res >> 24u32, res, VFLAG_CLEAR, CFLAG_CLEAR), res)
}

pub fn mulu_16(core: &mut ConfiguredCore, dst: u16, src: u16) -> (r: u32)
    ensures
        (*final(core), r) == mulu_16_outcome(*old(core), dst, src),
{
    assert(0 <= dst as int * src as int <= 0xffff * 0xffff) by (nonlinear_arith);
    let res = (dst as u32) * (src as u32);
    set_nzvc(core, res >> 24, res, VFLAG_CLEAR, CFLAG_CLEAR);
    res
}

pub open spec fn abs_int(a: int) -> int {
    if a < 0 {
        -a
    } else {
        a
    }
}

/// Division rounded toward zero.
pub open spec fn trunc_div(a: int, b: int) -> int {
    if (a >= 0) == (b > 0) {
        abs_int(a) / abs_int(b)
    } else {
        -(abs_int(a) / abs_int(b))
    }
}

/// The remainder of division rounded toward zero; it has the sign of `a`.
pub open spec fn trunc_rem(a: int, b: int) -> int {
    if a < 0 {
        -(abs_int(a) % abs_int(b))
    } else {
        abs_int(a) % abs_int(b)
    }
}

/// Signed division of a long word by a word: the flags, and the long word
/// (remainder above, quotient below) written to Dx, or `None` when the
/// quotient does not fit in a word and only V is set.
pub open spec fn divs_16_outcome(c: ConfiguredCore, dst: u32, src: i16) -> (ConfiguredCore, Option<u32>) {
    if dst == 0x8000_0000 && src == -1 {
        (with_nzvc(c, 0, 0, 0, 0), Some(0u32))
    } else {
        let a = (dst as i32) as int;
        let q = trunc_div(a, src as int);
        let r = trunc_rem(a, src as int);
        if -0x8000 <= q <= 0x7fff {
            (with_nzvc(c, (q as u32) >> 8u32, q as u32, VFLAG_CLEAR, CFLAG_CLEAR), Some(((r as u32) << 16u32) | ((q as u32) & 0xffff)))
        } else {
            (ConfiguredCore { v_flag: VFLAG_SET, ..c }, None)
        }
    }
}

/// The state after a division whose outcome is `o`: the flags of `o.0`, and
/// Dx replaced by `o.1` where there is one.
pub open spec fn divided(c0: ConfiguredCore, c1: ConfiguredCore, o: (ConfiguredCore, Option<u32>)) -> bool {
    &&& c1.dar@ == match o.1 {
        Some(v) => c0.dar@.update(ir_dx(c0.ir), v),
        None => c0.dar@,
    }
    &&& c1 == ConfiguredCore { dar: c1.dar, ..o.0 }
}

pub fn divs_16(core: &mut ConfiguredCore, dst: u32, src: i16)
    requires
        src != 0,
    ensures
        divided(*old(core), *final(core), divs_16_outcome(*old(core), dst, src)),
{
    let dx = reg_dx(core.ir);
    if dst == 0x8000_0000 && src == -1 {
        set_nzvc(core, 0, 0, 0, 0);
        core.dar[dx] = 0;
        assert(core.dar@ =~= old(core).dar@.update(ir_dx(old(core).ir), 0u32));
        return;
    }
    let a: i32 = dst as i32;
    let b: i32 = src as i32;
    let ua: u32 = if a < 0 { (-(a as i64)) as u32 } else { a as u32 };
    let ub: u32 = if b < 0 { (-(b as i64)) as u32 } else { b as u32 };
    let uq = ua / ub;
    let ur = ua % ub;
    let quotient: i64 = if (a >= 0) == (b > 0) { uq as i64 } else { -(uq as i64) };
    let remainder: i64 = if a < 0 { -(ur as i64) } else { ur as i64 };
    assert(quotient as int == trunc_div(a as int, b as int));
    assert(remainder as int == trunc_rem(a as int, b as int));
    if -0x8000 <= quotient && quotient <= 0x7fff {
        set_nzvc(core, (quotient as u32) >> 8, quotient as u32, VFLAG_CLEAR, CFLAG_CLEAR);
        let v = ((remainder as u32) << 16) | ((quotient as u32) & 0xffff);
        core.dar[dx] = v;
        assert(core.dar@ =~= old(core).dar@.update(ir_dx(old(core).ir), v));
    } else {
        core.v_flag = VFLAG_SET;
    }
}

/// Unsigned division of a long word by a word, with the outcome as for
/// `divs_16_outcome`.
pub open spec fn divu_16_outcome(c: ConfiguredCore, dst: u32, src: u16) -> (ConfiguredCore, Option<u32>) {
    let q = dst / (src as u32);
    let r = dst % (src as u32);
    if q < 0x10000 {
        (with_nzvc(c, q >> 8u32, q, VFLAG_CLEAR, CFLAG_CLEAR), Some((r << 16u32) | (q & 0xffff)))
    } else {
        (ConfiguredCore { v_flag: VFLAG_SET, ..c }, None)
    }
}

pub fn divu_16(core: &mut ConfiguredCore, dst: u32, src: u16)
    requires
        src != 0,
    ensures
        divided(*old(core), *final(core), divu_16_outcome(*old(core), dst, src)),
{
    let dx = reg_dx(core.ir);
    let quotient: u32 = dst / (src as u32);
    let remainder: u32 = dst % (src as u32);
    if quotient < 0x10000 {
        set_nzvc(core, quotient >> 8, quotient, VFLAG_CLEAR, CFLAG_CLEAR);
        let v = (remainder << 16) | (quotient & 0xffff);
        core.dar[dx] = v;
        assert(core.dar@ =~= old(core).dar@.update(ir_dx(old(core).ir), v));
    } else {
        core.v_flag = VFLAG_SET;
    }
}

proof fn add_bits_8(a: u32, b: u32, x: u32, r: u32, nz: u32)
    by (bit_vector)
    requires
        a <= 0xff,
        b <= 0xff,
        x <= 1,
        r == (a + b + x) as u32,
    ensures
        (r & 0x100 != 0) == (a + b + x > 0xff),
        r & 0xff == (a + b + x) % 0x100,
        (r & 0x80 != 0) == (r & 0xff >= 0x80),
        (((b ^ r) & (a ^ r)) & 0x80 != 0) == ((a >= 0x80) == (b >= 0x80) && (r & 0xff >= 0x80) != (a >= 0x80)),
        ((nz | (r & 0xff)) == 0) == (nz == 0 && r & 0xff == 0),
{
}

proof fn add_bits_16(a: u32, b: u32, x: u32, r: u32, nz: u32)
    by (bit_vector)
    requires
        a <= 0xffff,
        b <= 0xffff,
        x <= 1,
        r == (a + b + x) as u32,
    ensures
        ((r >> 8u32) & 0x100 != 0) == (a + b + x > 0xffff),
        r & 0xffff == (a + b + x) % 0x10000,
        ((r >> 8u32) & 0x80 != 0) == (r & 0xffff >= 0x8000),
        ((((b ^ r) & (a ^ r)) >> 8u32) & 0x80 != 0) == ((a >= 0x8000) == (b >= 0x8000) && (r & 0xffff >= 0x8000) != (a >= 0x8000)),
        ((nz | (r & 0xffff)) == 0) == (nz == 0 && r & 0xffff == 0),
{
}

proof fn add_bits_32(a: u32, b: u32, x: u32, r: u64, nz: u32)
    by (bit_vector)
    requires
        x <= 1,
        r == (a as u64 + b as u64 + x as u64) as u64,
    ensures
        (((r >> 24u32) as u32) & 0x100 != 0) == (a + b + x > 0xffff_ffff),
        r as u32 == (a + b + x) % 0x1_0000_0000,
        (((r >> 24u32) as u32) & 0x80 != 0) == (r as u32 >= 0x8000_0000),
        (((((b as u64 ^ r) & (a as u64 ^ r)) >> 24u32) as u32) & 0x80 != 0) == ((a >= 0x8000_0000) == (b
            >= 0x8000_0000) && (r as u32 >= 0x8000_0000) != (a >= 0x8000_0000)),
        ((nz | (r as u32)) == 0) == (nz == 0 && r as u32 == 0),
{
}

proof fn sub_bits_8(a: u32, b: u32, x: u32, t: u32, r: u32, nz: u32)
    by (bit_vector)
    requires
        a <= 0xff,
        b <= 0xff,
        x <= 1,
        t == (if a - b < 0 { (a - b + 0x1_0000_0000) as u32 } else { (a - b) as u32 }),
        r == (if t - x < 0 { (t - x + 0x1_0000_0000) as u32 } else { (t - x) as u32 }),
    ensures
        (r & 0x100 != 0) == (a < b + x),
        r & 0xff == (a - b - x + 0x100) % 0x100,
        (r & 0x80 != 0) == (r & 0xff >= 0x80),
        (((b ^ a) & (r ^ a)) & 0x80 != 0) == ((a >= 0x80) != (b >= 0x80) && (r & 0xff >= 0x80) != (a >= 0x80)),
        ((nz | (r & 0xff)) == 0) == (nz == 0 && r & 0xff == 0),
{
}

proof fn sub_bits_16(a: u32, b: u32, x: u32, t: u32, r: u32, nz: u32)
    by (bit_vector)
    requires
        a <= 0xffff,
        b <= 0xffff,
        x <= 1,
        t == (if a - b < 0 { (a - b + 0x1_0000_0000) as u32 } else { (a - b) as u32 }),
        r == (if t - x < 0 { (t - x + 0x1_0000_0000) as u32 } else { (t - x) as u32 }),
    ensures
        ((r >> 8u32) & 0x100 != 0) == (a < b + x),
        r & 0xffff == (a - b - x + 0x10000) % 0x10000,
        ((r >> 8u32) & 0x80 != 0) == (r & 0xffff >= 0x8000),
        ((((b ^ a) & (r ^ a)) >> 8u32) & 0x80 != 0) == ((a >= 0x8000) != (b >= 0x8000) && (r & 0xffff >= 0x8000) != (a >= 0x8000)),
        ((nz | (r & 0xffff)) == 0) == (nz == 0 && r & 0xffff == 0),
{
}

proof fn sub_bits_32(a: u32, b: u32, x: u32, t: u64, r: u64, nz: u32)
    by (bit_vector)
    requires
        x <= 1,
        t == (if a - b < 0 { (a - b + 0x1_0000_0000_0000_0000) as u64 } else { (a - b) as u64 }),
        r == (if t - x < 0 { (t - x + 0x1_0000_0000_0000_0000) as u64 } else { (t - x) as u64 }),
    ensures
        (((r >> 24u32) as u32) & 0x100 != 0) == (a < b + x),
        r as u32 == (a - b - x + 0x1_0000_0000) % 0x1_0000_0000,
        (((r >> 24u32) as u32) & 0x80 != 0) == (r as u32 >= 0x8000_0000),
        (((((b as u64 ^ a as u64) & (r ^ a as u64)) >> 24u32) as u32) & 0x80 != 0) == ((a >= 0x8000_0000) != (b
            >= 0x8000_0000) && (r as u32 >= 0x8000_0000) != (a >= 0x8000_0000)),
        ((nz | (r as u32)) == 0) == (nz == 0 && r as u32 == 0),
{
}

proof fn sign_bits(r: u32)
    by (bit_vector)
    ensures
        0u32 & 0x100 == 0 && 0u32 & 0x80 == 0,
        ((r >> 8u32) & 0x80 != 0) == (r & 0x8000 != 0),
        ((r >> 24u32) & 0x80 != 0) == (r & 0x8000_0000 != 0),
{
}

/// Addition of bytes, with or without the extend flag, sets the condition
/// codes by the arithmetic on the unsigned bytes `a` and `b`: the result is
/// the sum modulo 256, C and X say that it carried out, N is the result's
/// sign, V says that the signed sum overflowed, and Z says that the result
/// is zero (ADDX only ever clears Z).
pub proof fn law_add_8_flags(c: ConfiguredCore, dst: u32, src: u32)
    ensures
        ({
            let a = dst & 0xff;
            let b = src & 0xff;
            let (c1, r) = add_8_outcome(c, dst, src);
            let (c2, rx) = addx_8_outcome(c, dst, src);
            &&& r == (a + b) % 0x100
            &&& carry_set(c1) == (a + b > 0xff) && extend_set(c1) == carry_set(c1)
            &&& zero_set(c1) == (r == 0)
            &&& negative_set(c1) == (r >= 0x80)
            &&& overflow_set(c1) == ((a >= 0x80) == (b >= 0x80) && (r >= 0x80) != (a >= 0x80))
            &&& rx == (a + b + x1(c)) % 0x100
            &&& carry_set(c2) == (a + b + x1(c) > 0xff) && extend_set(c2) == carry_set(c2)
            &&& zero_set(c2) == (zero_set(c) && rx == 0)
            &&& negative_set(c2) == (rx >= 0x80)
            &&& overflow_set(c2) == ((a >= 0x80) == (b >= 0x80) && (rx >= 0x80) != (a >= 0x80))
        }),
{
    let a = dst & 0xff;
    let b = src & 0xff;
    lemma_low_bits(dst);
    lemma_low_bits(src);
    lemma_x1(c);
    add_bits_8(a, b, 0, (a + b) as u32, c.not_z_flag);
    add_bits_8(a, b, x1(c), (a + b + x1(c)) as u32, c.not_z_flag);
}

/// Addition of words sets the condition codes as for bytes, modulo 65536.
pub proof fn law_add_16_flags(c: ConfiguredCore, dst: u32, src: u32)
    ensures
        ({
            let a = dst & 0xffff;
            let b = src & 0xffff;
            let (c1, r) = add_16_outcome(c, dst, src);
            let (c2, rx) = addx_16_outcome(c, dst, src);
            &&& r == (a + b) % 0x10000
            &&& carry_set(c1) == (a + b > 0xffff) && extend_set(c1) == carry_set(c1)
            &&& zero_set(c1) == (r == 0)
            &&& negative_set(c1) == (r >= 0x8000)
            &&& overflow_set(c1) == ((a >= 0x8000) == (b >= 0x8000) && (r >= 0x8000) != (a >= 0x8000))
            &&& rx == (a + b + x1(c)) % 0x10000
            &&& carry_set(c2) == (a + b + x1(c) > 0xffff) && extend_set(c2) == carry_set(c2)
            &&& zero_set(c2) == (zero_set(c) && rx == 0)
            &&& negative_set(c2) == (rx >= 0x8000)
            &&& overflow_set(c2) == ((a >= 0x8000) == (b >= 0x8000) && (rx >= 0x8000) != (a >= 0x8000))
        }),
{
    let a = dst & 0xffff;
    let b = src & 0xffff;
    lemma_low_bits(dst);
    lemma_low_bits(src);
    lemma_x1(c);
    add_bits_16(a, b, 0, (a + b) as u32, c.not_z_flag);
    add_bits_16(a, b, x1(c), (a + b + x1(c)) as u32, c.not_z_flag);
}

/// Addition of long words sets the condition codes as for bytes, modulo
/// 2^32.
pub proof fn law_add_32_flags(c: ConfiguredCore, dst: u32, src: u32)
    ensures
        ({
            let (c1, r) = add_32_outcome(c, dst, src);
            let (c2, rx) = addx_32_outcome(c, dst, src);
            &&& r == (dst + src) % 0x1_0000_0000
            &&& carry_set(c1) == (dst + src > 0xffff_ffff) && extend_set(c1) == carry_set(c1)
            &&& zero_set(c1) == (r == 0)
            &&& negative_set(c1) == (r >= 0x8000_0000)
            &&& overflow_set(c1) == ((dst >= 0x8000_0000) == (src >= 0x8000_0000) && (r >= 0x8000_0000) != (dst >= 0x8000_0000))
            &&& rx == (dst + src + x1(c)) % 0x1_0000_0000
            &&& carry_set(c2) == (dst + src + x1(c) > 0xffff_ffff) && extend_set(c2) == carry_set(c2)
            &&& zero_set(c2) == (zero_set(c) && rx == 0)
            &&& negative_set(c2) == (rx >= 0x8000_0000)
            &&& overflow_set(c2) == ((dst >= 0x8000_0000) == (src >= 0x8000_0000) && (rx >= 0x8000_0000) != (dst >= 0x8000_0000))
        }),
{
    lemma_x1(c);
    add_bits_32(dst, src, 0, (dst as u64 + src as u64) as u64, c.not_z_flag);
    add_bits_32(dst, src, x1(c), (dst as u64 + src as u64 + x1(c) as u64) as u64, c.not_z_flag);
}

/// Subtraction and comparison of bytes set the condition codes by the
/// arithmetic on the unsigned bytes `a` and `b`: the result is the
/// difference modulo 256, C says that it borrowed, N is the result's sign,
/// V says that the signed difference overflowed and Z that the result is
/// zero. SUB sets X as C, CMP leaves X alone, SUBX also takes away the extend
/// flag and only ever clears Z.
pub proof fn law_sub_8_flags(c: ConfiguredCore, dst: u32, src: u32)
    ensures
        ({
            let a = dst & 0xff;
            let b = src & 0xff;
            let (c1, r) = sub_8_outcome(c, dst, src);
            let (c2, rx) = subx_8_outcome(c, dst, src);
            let (c3, rc) = compare_8_outcome(c, dst, src);
            &&& r == (a - b + 0x100) % 0x100
            &&& carry_set(c1) == (a < b) && extend_set(c1) == carry_set(c1)
            &&& zero_set(c1) == (r == 0)
            &&& negative_set(c1) == (r >= 0x80)
            &&& overflow_set(c1) == ((a >= 0x80) != (b >= 0x80) && (r >= 0x80) != (a >= 0x80))
            &&& rc == r && c3.x_flag == c.x_flag
            &&& carry_set(c3) == carry_set(c1) && zero_set(c3) == zero_set(c1)
            &&& negative_set(c3) == negative_set(c1) && overflow_set(c3) == overflow_set(c1)
            &&& rx == (a - b - x1(c) + 0x100) % 0x100
            &&& carry_set(c2) == (a < b + x1(c)) && extend_set(c2) == carry_set(c2)
            &&& zero_set(c2) == (zero_set(c) && rx == 0)
            &&& negative_set(c2) == (rx >= 0x80)
            &&& overflow_set(c2) == ((a >= 0x80) != (b >= 0x80) && (rx >= 0x80) != (a >= 0x80))
        }),
{
    let a = dst & 0xff;
    let b = src & 0xff;
    lemma_low_bits(dst);
    lemma_low_bits(src);
    lemma_x1(c);
    let t = a.wrapping_sub(b);
    sub_bits_8(a, b, 0, t, t, c.not_z_flag);
    sub_bits_8(a, b, x1(c), t, t.wrapping_sub(x1(c)), c.not_z_flag);
}

/// Subtraction and comparison of words set the condition codes as for
/// bytes, modulo 65536.
pub proof fn law_sub_16_flags(c: ConfiguredCore, dst: u32, src: u32)
    ensures
        ({
            let a = dst & 0xffff;
            let b = src & 0xffff;
            let (c1, r) = sub_16_outcome(c, dst, src);
            let (c2, rx) = subx_16_outcome(c, dst, src);
            let (c3, rc) = compare_16_outcome(c, dst, src);
            &&& r == (a - b + 0x10000) % 0x10000
            &&& carry_set(c1) == (a < b) && extend_set(c1) == carry_set(c1)
            &&& zero_set(c1) == (r == 0)
            &&& negative_set(c1) == (r >= 0x8000)
            &&& overflow_set(c1) == ((a >= 0x8000) != (b >= 0x8000) && (r >= 0x8000) != (a >= 0x8000))
            &&& rc == r && c3.x_flag == c.x_flag
            &&& carry_set(c3) == carry_set(c1) && zero_set(c3) == zero_set(c1)
            &&& negative_set(c3) == negative_set(c1) && overflow_set(c3) == overflow_set(c1)
            &&& rx == (a - b - x1(c) + 0x10000) % 0x10000
            &&& carry_set(c2) == (a < b + x1(c)) && extend_set(c2) == carry_set(c2)
            &&& zero_set(c2) == (zero_set(c) && rx == 0)
            &&& negative_set(c2) == (rx >= 0x8000)
            &&& overflow_set(c2) == ((a >= 0x8000) != (b >= 0x8000) && (rx >= 0x8000) != (a >= 0x8000))
        }),
{
    let a = dst & 0xffff;
    let b = src & 0xffff;
    lemma_low_bits(dst);
    lemma_low_bits(src);
    lemma_x1(c);
    let t = a.wrapping_sub(b);
    sub_bits_16(a, b, 0, t, t, c.not_z_flag);
    sub_bits_16(a, b, x1(c), t, t.wrapping_sub(x1(c)), c.not_z_flag);
}

/// Subtraction and comparison of long words set the condition codes as for
/// bytes, modulo 2^32.
pub proof fn law_sub_32_flags(c: ConfiguredCore, dst: u32, src: u32)
    ensures
        ({
            let (c1, r) = sub_32_outcome(c, dst, src);
            let (c2, rx) = subx_32_outcome(c, dst, src);
            let (c3, rc) = compare_32_outcome(c, dst, src);
            &&& r == (dst - src + 0x1_0000_0000) % 0x1_0000_0000
            &&& carry_set(c1) == (dst < src) && extend_set(c1) == carry_set(c1)
            &&& zero_set(c1) == (r == 0)
            &&& negative_set(c1) == (r >= 0x8000_0000)
            &&& overflow_set(c1) == ((dst >= 0x8000_0000) != (src >= 0x8000_0000) && (r >= 0x8000_0000) != (dst >= 0x8000_0000))
            &&& rc == r && c3.x_flag == c.x_flag
            &&& carry_set(c3) == carry_set(c1) && zero_set(c3) == zero_set(c1)
            &&& negative_set(c3) == negative_set(c1) && overflow_set(c3) == overflow_set(c1)
            &&& rx == (dst - src - x1(c) + 0x1_0000_0000) % 0x1_0000_0000
            &&& carry_set(c2) == (dst < src + x1(c)) && extend_set(c2) == carry_set(c2)
            &&& zero_set(c2) == (zero_set(c) && rx == 0)
            &&& negative_set(c2) == (rx >= 0x8000_0000)
            &&& overflow_set(c2) == ((dst >= 0x8000_0000) != (src >= 0x8000_0000) && (rx >= 0x8000_0000) != (dst >= 0x8000_0000))
        }),
{
    lemma_x1(c);
    let t = (dst as u64).wrapping_sub(src as u64);
    sub_bits_32(dst, src, 0, t, t, c.not_z_flag);
    sub_bits_32(dst, src, x1(c), t, t.wrapping_sub(x1(c) as u64), c.not_z_flag);
}

/// What a logical operation promises of its outcome `o`: V and C cleared, X
/// kept, Z set when the result is zero and N from the result's bit `sign`.
pub open spec fn logic_flags_hold(c: ConfiguredCore, o: (ConfiguredCore, u32), sign: u32) -> bool {
    let (c1, r) = o;
    &&& !carry_set(c1) && !overflow_set(c1) && c1.x_flag == c.x_flag
    &&& zero_set(c1) == (r == 0)
    &&& negative_set(c1) == (r & sign != 0)
}

/// AND, OR, EOR and NOT clear V and C, keep X, and set Z when the result
/// is zero and N from the result's sign bit, at every size.
pub proof fn law_logic_flags(c: ConfiguredCore, dst: u32, src: u32)
    ensures
        logic_flags_hold(c, and_8_outcome(c, dst, src), 0x80),
        logic_flags_hold(c, or_8_outcome(c, dst, src), 0x80),
        logic_flags_hold(c, eor_8_outcome(c, dst, src), 0x80),
        logic_flags_hold(c, not_8_outcome(c, dst), 0x80),
        logic_flags_hold(c, and_16_outcome(c, dst, src), 0x8000),
        logic_flags_hold(c, or_16_outcome(c, dst, src), 0x8000),
        logic_flags_hold(c, eor_16_outcome(c, dst, src), 0x8000),
        logic_flags_hold(c, not_16_outcome(c, dst), 0x8000),
        logic_flags_hold(c, and_32_outcome(c, dst, src), 0x8000_0000),
        logic_flags_hold(c, or_32_outcome(c, dst, src), 0x8000_0000),
        logic_flags_hold(c, eor_32_outcome(c, dst, src), 0x8000_0000),
        logic_flags_hold(c, not_32_outcome(c, dst), 0x8000_0000),
{
    sign_bits((dst & 0xffff) & (src & 0xffff));
    sign_bits((dst & 0xffff) | (src & 0xffff));
    sign_bits((dst & 0xffff) ^ (src & 0xffff));
    sign_bits((!dst) & 0xffff);
    sign_bits(dst & src);
    sign_bits(dst | src);
    sign_bits(dst ^ src);
    sign_bits(!dst);
}

proof fn lemma_asr_values(dst: u32, shift: u32)
    by (bit_vector)
    ensures
        (if shift == 0 {
            dst & 0xff
        } else if shift < 8 {
            if (dst & 0xff) & 0x80 != 0 {
                ((dst & 0xff) >> shift) | ((0xff00u32 >> shift) & 0xff)
            } else {
                (dst & 0xff) >> shift
            }
        } else if (dst & 0xff) & 0x80 != 0 {
            0xffu32
        } else {
            0u32
        }) == ((((dst as u8) as i8) >> (if shift < 7 { shift } else { 7u32 })) as u8) as u32,
        (if shift == 0 {
            dst & 0xffff
        } else if shift < 16 {
            if (dst & 0xffff) & 0x8000 != 0 {
                ((dst & 0xffff) >> shift) | ((0xffff_0000u32 >> shift) & 0xffff)
            } else {
                (dst & 0xffff) >> shift
            }
        } else if (dst & 0xffff) & 0x8000 != 0 {
            0xffffu32
        } else {
            0u32
        }) == ((((dst as u16) as i16) >> (if shift < 15 { shift } else { 15u32 })) as u16) as u32,
        (if shift == 0 {
            dst
        } else if shift < 32 {
            if dst & 0x8000_0000 != 0 {
                (dst >> shift) | !(0xffff_ffffu32 >> shift)
            } else {
                dst >> shift
            }
        } else if dst & 0x8000_0000 != 0 {
            0xffff_ffffu32
        } else {
            0u32
        }) == ((dst as i32) >> (if shift < 31 { shift } else { 31u32 })) as u32,
{
}

/// An arithmetic shift right gives the operand, read as a signed number,
/// shifted right with its sign copied in; from the operand's width on, every
/// bit is the sign bit.
pub proof fn law_asr_results(c: ConfiguredCore, dst: u32, shift: u32)
    ensures
        asr_8_outcome(c, dst, shift).1 == ((((dst as u8) as i8) >> (if shift < 7 { shift } else { 7u32 })) as u8) as u32,
        asr_16_outcome(c, dst, shift).1 == ((((dst as u16) as i16) >> (if shift < 15 { shift } else { 15u32 })) as u16) as u32,
        asr_32_outcome(c, dst, shift).1 == ((dst as i32) >> (if shift < 31 { shift } else { 31u32 })) as u32,
{
    lemma_asr_values(dst, shift);
}

proof fn lemma_logical_shift_values(dst: u32, shift: u32)
    by (bit_vector)
    ensures
        shift < 8 ==> ((dst & 0xff) << shift) & 0xff == ((dst as u8) << shift) as u32,
        shift < 8 ==> (dst & 0xff) >> shift == ((dst as u8) >> shift) as u32,
        shift == 0 ==> dst & 0xff == ((dst as u8) << shift) as u32 && dst & 0xff == ((dst as u8) >> shift) as u32,
        shift == 8 ==> ((dst & 0xff) << shift) & 0xff == 0 && (dst & 0xff) >> shift == 0,
        shift < 16 ==> ((dst & 0xffff) << shift) & 0xffff == ((dst as u16) << shift) as u32,
        shift < 16 ==> (dst & 0xffff) >> shift == ((dst as u16) >> shift) as u32,
        shift == 0 ==> dst & 0xffff == ((dst as u16) << shift) as u32 && dst & 0xffff == ((dst as u16) >> shift) as u32,
        shift == 16 ==> ((dst & 0xffff) << shift) & 0xffff == 0 && (dst & 0xffff) >> shift == 0,
        shift == 0 ==> dst << shift == dst && dst >> shift == dst,
{
}

/// A shift left, arithmetic or logical, gives the operand shifted left
/// within its width, and zero once every bit has been shifted out; a logical
/// shift right gives the operand shifted right with zeros coming in.
pub proof fn law_logical_shift_results(c: ConfiguredCore, dst: u32, shift: u32)
    ensures
        asl_8_outcome(c, dst, shift).1 == (if shift < 8 { ((dst as u8) << shift) as u32 } else { 0 }),
        lsl_8_outcome(c, dst, shift).1 == (if shift < 8 { ((dst as u8) << shift) as u32 } else { 0 }),
        lsr_8_outcome(c, dst, shift).1 == (if shift < 8 { ((dst as u8) >> shift) as u32 } else { 0 }),
        asl_16_outcome(c, dst, shift).1 == (if shift < 16 { ((dst as u16) << shift) as u32 } else { 0 }),
        lsl_16_outcome(c, dst, shift).1 == (if shift < 16 { ((dst as u16) << shift) as u32 } else { 0 }),
        lsr_16_outcome(c, dst, shift).1 == (if shift < 16 { ((dst as u16) >> shift) as u32 } else { 0 }),
        asl_32_outcome(c, dst, shift).1 == (if shift < 32 { dst << shift } else { 0 }),
        lsl_32_outcome(c, dst, shift).1 == (if shift < 32 { dst << shift } else { 0 }),
        lsr_32_outcome(c, dst, shift).1 == (if shift < 32 { dst >> shift } else { 0 }),
{
    lemma_logical_shift_values(dst, shift);
}

proof fn lemma_rotations_undo(d: u32, n: u32)
    by (bit_vector)
    ensures
        rotate_right_8(rotate_left_8(d & 0xff, n & 7) & 0xff, n & 7) == d & 0xff,
        rotate_left_8(rotate_right_8(d & 0xff, n & 7) & 0xff, n & 7) == d & 0xff,
        rotate_right_16(rotate_left_16(d & 0xffff, n & 15) & 0xffff, n & 15) == d & 0xffff,
        rotate_left_16(rotate_right_16(d & 0xffff, n & 15) & 0xffff, n & 15) == d & 0xffff,
        rotate_right_32(rotate_left_32(d, n & 31), n & 31) == d,
        rotate_left_32(rotate_right_32(d, n & 31), n & 31) == d,
        (d & 0xff) & 0xff == d & 0xff,
        (d & 0xffff) & 0xffff == d & 0xffff,
{
}

/// A rotation right by a count undoes a rotation left by the same count,
/// and the other way round, whatever the count.
pub proof fn law_rotations_undo(c: ConfiguredCore, dst: u32, n: u32)
    ensures
        ror_8_outcome(c, rol_8_outcome(c, dst, n).1, n).1 == dst & 0xff,
        rol_8_outcome(c, ror_8_outcome(c, dst, n).1, n).1 == dst & 0xff,
        ror_16_outcome(c, rol_16_outcome(c, dst, n).1, n).1 == dst & 0xffff,
        rol_16_outcome(c, ror_16_outcome(c, dst, n).1, n).1 == dst & 0xffff,
        ror_32_outcome(c, rol_32_outcome(c, dst, n).1, n).1 == dst,
        rol_32_outcome(c, ror_32_outcome(c, dst, n).1, n).1 == dst,
{
    lemma_rotations_undo(dst, n);
}

/// A byte that holds two decimal digits, one per nibble.
pub open spec fn is_bcd(b: u32) -> bool {
    b <= 0xff && b & 0x0f <= 9 && b >> 4u32 <= 9
}

/// The number that a packed BCD byte stands for.
pub open spec fn bcd_value(b: u32) -> int {
    (b >> 4u32) * 10 + (b & 0x0f)
}

proof fn lemma_abcd_digits(d: u32, s: u32, x: u32)
    by (bit_vector)
    requires
        d <= 0xff && d & 0x0f <= 9 && d >> 4u32 <= 9,
        s <= 0xff && s & 0x0f <= 9 && s >> 4u32 <= 9,
        x <= 1,
    ensures
        ({
            let lo = (s & 0x0f) + (d & 0x0f) + x;
            let lo_adjusted = if lo > 9 { lo + 6 } else { lo };
            let sum = lo_adjusted + (s & 0xf0) + (d & 0xf0);
            let res = if sum > 0x99 { (sum - 0xa0) as u32 } else { sum as u32 };
            &&& res <= 0xff && res & 0x0f <= 9 && res >> 4u32 <= 9
            &&& (res >> 4u32) * 10 + (res & 0x0f) + (if sum > 0x99 { 100u32 } else { 0u32 })
                == (d >> 4u32) * 10 + (d & 0x0f) + (s >> 4u32) * 10 + (s & 0x0f) + x
            &&& res & 0xff == res
            &&& d & 0xf0 <= 0x90 && s & 0xf0 <= 0x90
            &&& sum > 0x99 ==> sum >= 0xa0
        }),
{
}

/// ABCD adds decimally: on two packed BCD bytes it gives a packed BCD byte
/// whose value, with a hundred for the carry, is the sum of the two values
/// and the extend bit; X is set with C.
pub proof fn law_abcd_adds_decimal(c: ConfiguredCore, dst: u32, src: u32)
    requires
        is_bcd(dst),
        is_bcd(src),
    ensures
        is_bcd(abcd_8_outcome(c, dst, src).1),
        bcd_value(abcd_8_outcome(c, dst, src).1) + (if abcd_8_outcome(c, dst, src).0.c_flag != 0 { 100int } else { 0 })
            == bcd_value(dst) + bcd_value(src) + x1(c),
        abcd_8_outcome(c, dst, src).0.x_flag == abcd_8_outcome(c, dst, src).0.c_flag,
{
    lemma_x1(c);
    let x = x1(c);
    lemma_abcd_digits(dst, src, x);
    let lo_i = (src & 0x0f) + (dst & 0x0f) + x;
    let lo = lo_i as u32;
    assert(lo == lo_i);
    let adj_i = if lo_i > 9 { lo_i + 6 } else { lo_i };
    let lo_adjusted = if lo > 9 { (lo + 6) as u32 } else { lo };
    assert(lo_adjusted == adj_i);
    let sum_i = adj_i + (src & 0xf0) + (dst & 0xf0);
    let sum = (lo_adjusted + (src & 0xf0) + (dst & 0xf0)) as u32;
    assert(sum == sum_i);
    let res_i = if sum_i > 0x99 { (sum_i - 0xa0) as u32 } else { sum_i as u32 };
    let res = if sum > 0x99 { sum.wrapping_sub(0xa0) } else { sum };
    assert(res == res_i);
    assert(abcd_8_outcome(c, dst, src).1 == res & 0xff);
}

proof fn lemma_quotient_and_remainder(q: u32, r: u32)
    by (bit_vector)
    requires
        q < 0x10000,
        r < 0x10000,
    ensures
        ((r << 16u32) | (q & 0xffff)) & 0xffff == q,
        ((r << 16u32) | (q & 0xffff)) >> 16u32 == r,
{
}

/// DIVU puts the quotient in the low word and the remainder in the high
/// word: quotient times divisor plus remainder is the dividend, and the
/// remainder is below the divisor; nothing is written, and V is set, exactly
/// when the quotient does not fit in a word.
pub proof fn law_divu_divides(c: ConfiguredCore, dst: u32, src: u16)
    requires
        src != 0,
    ensures
        divu_16_outcome(c, dst, src).1 is None <==> dst / (src as u32) >= 0x10000,
        divu_16_outcome(c, dst, src).1 is None ==> divu_16_outcome(c, dst, src).0.v_flag == VFLAG_SET,
        divu_16_outcome(c, dst, src).1 matches Some(v) ==> (v & 0xffff) * (src as int) + (v >> 16u32) == dst
            && v >> 16u32 < src,
{
    let q = dst / (src as u32);
    let r = dst % (src as u32);
    vstd::arithmetic::div_mod::lemma_fundamental_div_mod(dst as int, src as int);
    vstd::arithmetic::div_mod::lemma_mod_bound(dst as int, src as int);
    assert(r < src);
    assert(q * (src as int) + r == dst) by (nonlinear_arith)
        requires
            dst == (src as int) * (q as int) + (r as int),
    ;
    if q < 0x10000 {
        lemma_quotient_and_remainder(q, r);
    }
}

/// `x - y` on 32 bits, wrapping around.
pub open spec fn sub_wrapped(x: u32, y: u32) -> u32 {
    if x >= y {
        (x - y) as u32
    } else {
        (x + 0x1_0000_0000 - y) as u32
    }
}

/// `x + y` on 32 bits, wrapping around.
pub open spec fn add_wrapped(x: u32, y: u32) -> u32 {
    if x + y > 0xffff_ffff {
        (x + y - 0x1_0000_0000) as u32
    } else {
        (x + y) as u32
    }
}

proof fn lemma_sbcd_digits(d: u32, s: u32, x: u32)
    by (bit_vector)
    requires
        d <= 0xff && d & 0x0f <= 9 && d >> 4u32 <= 9,
        s <= 0xff && s & 0x0f <= 9 && s >> 4u32 <= 9,
        x <= 1,
    ensures
        ({
            let lo = sub_wrapped(sub_wrapped(d & 0x0f, s & 0x0f), x);
            let adj = if lo > 9 { (lo - 6) as u32 } else { lo };
            let diff = add_wrapped(adj, sub_wrapped(d & 0xf0, s & 0xf0));
            let res = if diff > 0x99 { add_wrapped(diff, 0xa0) } else { diff };
            let low = res & 0xff;
            &&& low <= 0xff && low & 0x0f <= 9 && low >> 4u32 <= 9
            &&& (low >> 4u32) * 10 + (low & 0x0f) - (if diff > 0x99 { 100u32 } else { 0u32 })
                == (d >> 4u32) * 10 + (d & 0x0f) - (s >> 4u32) * 10 - (s & 0x0f) - x
        }),
{
}

/// SBCD subtracts decimally: on two packed BCD bytes it gives a packed BCD
/// byte whose value, less a hundred when C is set, is the value of `dst`
/// less that of `src` and the extend bit; X is set with C.
pub proof fn law_sbcd_subtracts_decimal(c: ConfiguredCore, dst: u32, src: u32)
    requires
        is_bcd(dst),
        is_bcd(src),
    ensures
        is_bcd(sbcd_8_outcome(c, dst, src).1),
        bcd_value(sbcd_8_outcome(c, dst, src).1) - (if sbcd_8_outcome(c, dst, src).0.c_flag != 0 { 100int } else { 0 })
            == bcd_value(dst) - bcd_value(src) - x1(c),
        sbcd_8_outcome(c, dst, src).0.x_flag == sbcd_8_outcome(c, dst, src).0.c_flag,
{
    lemma_x1(c);
    let x = x1(c);
    lemma_sbcd_digits(dst, src, x);
    let a = (dst & 0x0f).wrapping_sub(src & 0x0f);
    assert(a == sub_wrapped(dst & 0x0f, src & 0x0f));
    let lo = a.wrapping_sub(x);
    assert(lo == sub_wrapped(a, x));
    let h = (dst & 0xf0).wrapping_sub(src & 0xf0);
    assert(h == sub_wrapped(dst & 0xf0, src & 0xf0));
    let adj = if lo > 9 { (lo - 6) as u32 } else { lo };
    let diff = adj.wrapping_add(h);
    assert(diff == add_wrapped(adj, h));
    assert(diff.wrapping_add(0xa0) == add_wrapped(diff, 0xa0));
}

proof fn lemma_product_bits(p: i32, u: u32)
    by (bit_vector)
    ensures
        ((p as u32) as i32) == p,
        ((((p as u32) >> 24u32) & 0x80) != 0) == (p < 0),
        (((p as u32) == 0) == (p == 0)),
        (((u >> 24u32) & 0x80) != 0) == (u >= 0x8000_0000),
{
}

/// MULS gives the signed product: the long word read as a signed number is
/// the product of the two words read as signed numbers, N is its sign and
/// Z says that it is zero.
pub proof fn law_muls_signed_product(c: ConfiguredCore, dst: i16, src: i16)
    ensures
        (muls_16_outcome(c, dst, src).1 as i32) as int == dst as int * src as int,
        negative_set(muls_16_outcome(c, dst, src).0) == ((dst as int) * (src as int) < 0),
        zero_set(muls_16_outcome(c, dst, src).0) == ((dst as int) * (src as int) == 0),
{
    let p = dst as int * src as int;
    assert(-0x4000_0000 <= p <= 0x4000_0000) by (nonlinear_arith)
        requires
            p == dst as int * src as int,
    ;
    let q = p as i32;
    assert(q as int == p);
    lemma_product_bits(q, 0);
    assert((q as u32) == (p as u32));
}

proof fn lemma_roxl_bits(d: u32, x: u32, s: u32, k: u32)
    by (bit_vector)
    requires
        d <= 0xff,
        x <= 1,
        1 <= s <= 8,
        k < 8,
    ensures
        d & 0xff == d,
        ({
            let v = d | (x << 8u32);
            let res = (v << s) | (v >> ((9 - s) as u32));
            &&& ((res & 0xff) >> k) & 1 == (if k >= s {
                (d >> ((k - s) as u32)) & 1
            } else if k + 1 == s {
                x
            } else {
                (d >> ((k + 9 - s) as u32)) & 1
            })
            &&& (res >> 8u32) & 1 == (d >> ((8 - s) as u32)) & 1
            &&& ((((res & 0xff) & 0xff) | (((res >> 8u32) & 1) << 8u32)) >> s | (((res & 0xff) & 0xff) | (((res >> 8u32) & 1) << 8u32)) << ((9 - s) as u32)) & 0xff == d
            &&& (((((res & 0xff) & 0xff) | (((res >> 8u32) & 1) << 8u32)) >> s | (((res & 0xff) & 0xff) | (((res >> 8u32) & 1) << 8u32)) << ((9 - s) as u32)) >> 8u32) & 1 == x
        }),
{
}

/// ROXL.B by a count that is not a multiple of nine, `s` places once taken
/// modulo nine, rotates the nine bits of X and the byte: bit `k` of the
/// result is bit `k - s` of the byte, the old X at `s - 1`, and below that
/// the top bits of the byte; the new X is the bit rotated out of the top,
/// bit `8 - s` of the byte. A ROXR by the same count then gives the byte and
/// X back.
pub proof fn law_roxl_8_rotates_through_x(c: ConfiguredCore, dst: u32, n: u32, k: u32)
    requires
        dst <= 0xff,
        n % 9 != 0,
        k < 8,
    ensures
        ({
            let s = n % 9;
            let (c1, res) = roxl_8_outcome(c, dst, n);
            &&& (res >> k) & 1 == (if k >= s {
                (dst >> ((k - s) as u32)) & 1
            } else if k + 1 == s {
                x1(c)
            } else {
                (dst >> ((k + 9 - s) as u32)) & 1
            })
            &&& x1(c1) == (dst >> ((8 - s) as u32)) & 1
            &&& roxr_8_outcome(c1, res, n).1 == dst
            &&& x1(roxr_8_outcome(c1, res, n).0) == x1(c)
        }),
{
    lemma_x1(c);
    let s = n % 9;
    lemma_roxl_bits(dst, x1(c), s, k);
}

/// MULU gives the unsigned product: the long word is the product of the two
/// words read as unsigned numbers, N is its top bit and Z says that it is
/// zero.
pub proof fn law_mulu_unsigned_product(c: ConfiguredCore, dst: u16, src: u16)
    ensures
        mulu_16_outcome(c, dst, src).1 as int == dst as int * src as int,
        negative_set(mulu_16_outcome(c, dst, src).0) == ((dst as int) * (src as int) >= 0x8000_0000),
        zero_set(mulu_16_outcome(c, dst, src).0) == ((dst as int) * (src as int) == 0),
{
    let p = dst as int * src as int;
    assert(0 <= p <= 0xffff * 0xffff) by (nonlinear_arith)
        requires
            p == dst as int * src as int,
    ;
    let u = p as u32;
    assert(u as int == p);
    lemma_product_bits(0, u);
}

proof fn lemma_signed_words(q: i32, r: i32)
    by (bit_vector)
    requires
        -0x8000 <= q <= 0x7fff,
        -0x8000 <= r <= 0x7fff,
    ensures
        (((((r as u32) << 16u32) | ((q as u32) & 0xffff)) & 0xffff) as u16) as i16 == q,
        (((((r as u32) << 16u32) | ((q as u32) & 0xffff)) >> 16u32) as u16) as i16 == r,
{
}

/// DIVS divides rounding toward zero: where Dx is written, its low word read
/// as a signed number is the quotient and its high word the remainder, with
/// quotient times divisor plus remainder equal to the dividend, the
/// remainder smaller than the divisor and of the dividend's sign; nothing is
/// written, and V is set, exactly when the quotient does not fit in a word.
/// The one pair that the operation treats apart (the least long word by -1)
/// is left out.
pub proof fn law_divs_divides(c: ConfiguredCore, dst: u32, src: i16)
    requires
        src != 0,
        !(dst == 0x8000_0000 && src == -1),
    ensures
        ({
            let a = (dst as i32) as int;
            let b = src as int;
            let q = trunc_div(a, b);
            let r = trunc_rem(a, b);
            &&& q * b + r == a
            &&& abs_int(r) < abs_int(b)
            &&& (r == 0 || ((r < 0) == (a < 0)))
            &&& divs_16_outcome(c, dst, src).1 is None <==> !(-0x8000 <= q <= 0x7fff)
            &&& divs_16_outcome(c, dst, src).1 is None ==> divs_16_outcome(c, dst, src).0.v_flag == VFLAG_SET
            &&& divs_16_outcome(c, dst, src).1 matches Some(v) ==> ((v & 0xffff) as u16) as i16 == q
                && ((v >> 16u32) as u16) as i16 == r
        }),
{
    let a = (dst as i32) as int;
    let b = src as int;
    let aa = abs_int(a);
    let bb = abs_int(b);
    let qq = aa / bb;
    let rr = aa % bb;
    vstd::arithmetic::div_mod::lemma_fundamental_div_mod(aa, bb);
    vstd::arithmetic::div_mod::lemma_mod_bound(aa, bb);
    let q = trunc_div(a, b);
    let r = trunc_rem(a, b);
    assert(q * b + r == a) by (nonlinear_arith)
        requires
            aa == bb * qq + rr,
            aa == (if a < 0 { -a } else { a }),
            bb == (if b < 0 { -b } else { b }),
            q == (if (a >= 0) == (b > 0) { qq } else { -qq }),
            r == (if a < 0 { -rr } else { rr }),
            b != 0,
    ;
    assert(abs_int(r) == rr);
    assert(bb <= 0x8000);
    if -0x8000 <= q <= 0x7fff {
        lemma_signed_words(q as i32, r as i32);
        assert((q as i32) as u32 == q as u32);
        assert((r as i32) as u32 == r as u32);
    }
}

proof fn lemma_nbcd_digits(d: u32, x: u32)
    by (bit_vector)
    requires
        d <= 0xff && d & 0x0f <= 9 && d >> 4u32 <= 9,
        x <= 1,
    ensures
        ({
            let res = sub_wrapped(sub_wrapped(0x9a, d), x) & 0xff;
            let adjusted = if res & 0x0f == 0x0a { ((res & 0xf0) + 0x10) as u32 } else { res };
            let low = adjusted & 0xff;
            &&& (res == 0x9a) == (d == 0 && x == 0)
            &&& res != 0x9a ==> low <= 0xff && low & 0x0f <= 9 && low >> 4u32 <= 9
            &&& res != 0x9a ==> (low >> 4u32) * 10 + (low & 0x0f) + (d >> 4u32) * 10 + (d & 0x0f) + x == 100
        }),
{
}

/// NBCD negates decimally: on a packed BCD byte it gives, with a borrow, the
/// packed BCD byte whose value added to the byte's value and the extend bit
/// makes a hundred; where the byte and X are both zero there is nothing to
/// borrow, nothing is written and C is cleared. X is set with C.
pub proof fn law_nbcd_negates_decimal(c: ConfiguredCore, dst: u32)
    requires
        is_bcd(dst),
    ensures
        nbcd_outcome(c, dst).1 is None <==> (dst == 0 && x1(c) == 0),
        (nbcd_outcome(c, dst).0.c_flag != 0) <==> nbcd_outcome(c, dst).1 is Some,
        nbcd_outcome(c, dst).0.x_flag == nbcd_outcome(c, dst).0.c_flag,
        nbcd_outcome(c, dst).1 matches Some(v) ==> is_bcd(v) && bcd_value(v) + bcd_value(dst) + x1(c) == 100,
{
    lemma_x1(c);
    let x = x1(c);
    lemma_nbcd_digits(dst, x);
    let a = 0x9au32.wrapping_sub(dst);
    assert(a == sub_wrapped(0x9a, dst));
    let b = a.wrapping_sub(x);
    assert(b == sub_wrapped(a, x));
}

} // verus!
