use vstd::prelude::*;
use super::{ConfiguredCore, Result, wadd, wsub, ir_ax, ir_ay, reg_ax, reg_ay};

verus! {

/// The address an indexed mode computes: the base, plus the index
/// register that the extension word names (sign-extended from 16 bits
/// unless the word asks for a long index), plus the 8-bit displacement.
pub open spec fn index_ea(dar: Seq<u32>, base: u32, extension: u16) -> u32 {
    let xn = dar[(extension >> 12u16) as int];
    let xn = if extension & 0x0800 != 0 {
        xn
    } else {
        (xn as i16) as u32
    };
    wadd(wadd(base, xn), (extension as i8) as u32)
}

/// How much a byte-sized pre-decrement or post-increment moves a register:
/// A7 is kept even.
pub open spec fn byte_step(reg_ndx: int) -> u32 {
    if reg_ndx == 15 {
        2
    } else {
        1
    }
}

/// What `absolute_word` does: `c0` before, `c1` after, `r` the address.
pub open spec fn absolute_word_rel(c0: ConfiguredCore, c1: ConfiguredCore, r: Result<u32>) -> bool {
    &&& c0.pc & 1 != 0 ==> r == Err::<u32, super::Exception>(c0.pc_error()) && c1
            == c0
    &&& c0.pc & 1 == 0 ==> r == Ok::<u32, super::Exception>((c0.ext16() as i16) as u32)
            && ConfiguredCore::fetched(c0, c1, c0.after16())
}

pub fn absolute_word(core: &mut ConfiguredCore) -> (r: Result<u32>)
    requires
        old(core).wf(),
    ensures
        absolute_word_rel(*old(core), *final(core), r),
{
    match core.read_imm_i16() {
        Ok(res) => Ok(res as u32),
        Err(e) => Err(e),
    }
}

/// What `absolute_long` does: `c0` before, `c1` after, `r` the address.
pub open spec fn absolute_long_rel(c0: ConfiguredCore, c1: ConfiguredCore, r: Result<u32>) -> bool {
    &&& c0.pc & 1 != 0 ==> r == Err::<u32, super::Exception>(c0.pc_error()) && c1
            == c0
    &&& c0.pc & 1 == 0 ==> r == Ok::<u32, super::Exception>(c0.ext32())
            && ConfiguredCore::fetched(c0, c1, c0.after32())
}

pub fn absolute_long(core: &mut ConfiguredCore) -> (r: Result<u32>)
    requires
        old(core).wf(),
    ensures
        absolute_long_rel(*old(core), *final(core), r),
{
    core.read_imm_u32()
}

pub fn predecrement_8(core: &mut ConfiguredCore, reg_ndx: usize) -> (ea: u32)
    requires
        reg_ndx < 16,
    ensures
        ea == wsub(old(core).dar[reg_ndx as int], byte_step(reg_ndx as int)),
        final(core).dar@ == old(core).dar@.update(reg_ndx as int, ea),
        *final(core) == (ConfiguredCore { dar: final(core).dar, ..*old(core) }),
{
    let step: u32 = if reg_ndx == 15 {
        2  // A7 is kept even
    } else {
        1
    };
    core.dar[reg_ndx] = core.dar[reg_ndx].wrapping_sub(step);
    core.dar[reg_ndx]
}

pub fn postincrement_8(core: &mut ConfiguredCore, reg_ndx: usize) -> (ea: u32)
    requires
        reg_ndx < 16,
    ensures
        ea == old(core).dar[reg_ndx as int],
        final(core).dar@ == old(core).dar@.update(reg_ndx as int, wadd(ea, byte_step(reg_ndx as int))),
        *final(core) == (ConfiguredCore { dar: final(core).dar, ..*old(core) }),
{
    let ea = core.dar[reg_ndx];
    let step: u32 = if reg_ndx == 15 {
        2  // A7 is kept even
    } else {
        1
    };
    core.dar[reg_ndx] = ea.wrapping_add(step);
    ea
}

pub fn predecrement_16(core: &mut ConfiguredCore, reg_ndx: usize) -> (ea: u32)
    requires
        reg_ndx < 16,
    ensures
        ea == wsub(old(core).dar[reg_ndx as int], 2),
        final(core).dar@ == old(core).dar@.update(reg_ndx as int, ea),
        *final(core) == (ConfiguredCore { dar: final(core).dar, ..*old(core) }),
{
    core.dar[reg_ndx] = core.dar[reg_ndx].wrapping_sub(2);
    core.dar[reg_ndx]
}

pub fn postincrement_16(core: &mut ConfiguredCore, reg_ndx: usize) -> (ea: u32)
    requires
        reg_ndx < 16,
    ensures
        ea == old(core).dar[reg_ndx as int],
        final(core).dar@ == old(core).dar@.update(reg_ndx as int, wadd(ea, 2)),
        *final(core) == (ConfiguredCore { dar: final(core).dar, ..*old(core) }),
{
    let ea = core.dar[reg_ndx];
    core.dar[reg_ndx] = ea.wrapping_add(2);
    ea
}

pub fn predecrement_32(core: &mut ConfiguredCore, reg_ndx: usize) -> (ea: u32)
    requires
        reg_ndx < 16,
    ensures
        ea == wsub(old(core).dar[reg_ndx as int], 4),
        final(core).dar@ == old(core).dar@.update(reg_ndx as int, ea),
        *final(core) == (ConfiguredCore { dar: final(core).dar, ..*old(core) }),
{
    core.dar[reg_ndx] = core.dar[reg_ndx].wrapping_sub(4);
    core.dar[reg_ndx]
}

pub fn postincrement_32(core: &mut ConfiguredCore, reg_ndx: usize) -> (ea: u32)
    requires
        reg_ndx < 16,
    ensures
        ea == old(core).dar[reg_ndx as int],
        final(core).dar@ == old(core).dar@.update(reg_ndx as int, wadd(ea, 4)),
        *final(core) == (ConfiguredCore { dar: final(core).dar, ..*old(core) }),
{
    let ea = core.dar[reg_ndx];
    core.dar[reg_ndx] = ea.wrapping_add(4);
    ea
}

pub fn displacement(core: &mut ConfiguredCore, reg_val: u32) -> (r: Result<u32>)
    requires
        old(core).wf(),
    ensures
        old(core).pc & 1 != 0 ==> r == Err::<u32, super::Exception>(old(core).pc_error()) && *final(core)
            == *old(core),
        old(core).pc & 1 == 0 ==> r == Ok::<u32, super::Exception>(
            wadd(reg_val, (old(core).ext16() as i16) as u32),
        ) && ConfiguredCore::fetched(*old(core), *final(core), old(core).after16()),
{
    let displacement = match core.read_imm_i16() {
        Ok(d) => d,
        Err(e) => {
            return Err(e);
        },
    };
    Ok(reg_val.wrapping_add(displacement as u32))
}

// Brief Extension Word format (see M68000 PRM section 2.1)
pub const LONG_INDEX_MASK: u16 = 0x0800;

pub fn index(core: &mut ConfiguredCore, reg_val: u32) -> (r: Result<u32>)
    requires
        old(core).wf(),
    ensures
        old(core).pc & 1 != 0 ==> r == Err::<u32, super::Exception>(old(core).pc_error()) && *final(core)
            == *old(core),
        old(core).pc & 1 == 0 ==> r == Ok::<u32, super::Exception>(
            index_ea(old(core).dar@, reg_val, old(core).ext16()),
        ) && ConfiguredCore::fetched(*old(core), *final(core), old(core).after16()),
{
    let extension = match core.read_imm_u16() {
        Ok(e) => e,
        Err(e) => {
            return Err(e);
        },
    };
    // top four bits = (D/A RRR) matches our register array layout
    let xreg_ndx = (extension >> 12) as usize;
    assert(extension >> 12u16 < 16) by (bit_vector);
    let xn = core.dar[xreg_ndx];
    let xn = if (extension & LONG_INDEX_MASK) > 0 {
        xn
    } else {
        (xn as i16) as u32
    };
    let index = extension as i8;
    Ok(reg_val.wrapping_add(xn).wrapping_add(index as u32))
}

/// What `predecrement_ay_8` does: `c0` before, `c1` after, `r` the address.
pub open spec fn predecrement_ay_8_rel(c0: ConfiguredCore, c1: ConfiguredCore, r: Result<u32>) -> bool {
    &&& ({
            let reg = ir_ay(c0.ir);
            let ea = wsub(c0.dar[reg], byte_step(reg));
            &&& r == Ok::<u32, super::Exception>(ea)
            &&& c1.dar@ == c0.dar@.update(reg, ea)
            &&& c1 == (ConfiguredCore { dar: c1.dar, ..c0 })
        })
}

pub fn predecrement_ay_8(core: &mut ConfiguredCore) -> (r: Result<u32>)
    ensures
        predecrement_ay_8_rel(*old(core), *final(core), r),
{
    let reg_ndx = reg_ay(core.ir);
    Ok(predecrement_8(core, reg_ndx))
}

/// What `postincrement_ay_8` does: `c0` before, `c1` after, `r` the address.
pub open spec fn postincrement_ay_8_rel(c0: ConfiguredCore, c1: ConfiguredCore, r: Result<u32>) -> bool {
    &&& ({
            let reg = ir_ay(c0.ir);
            let ea = c0.dar[reg];
            &&& r == Ok::<u32, super::Exception>(ea)
            &&& c1.dar@ == c0.dar@.update(reg, wadd(ea, byte_step(reg)))
            &&& c1 == (ConfiguredCore { dar: c1.dar, ..c0 })
        })
}

pub fn postincrement_ay_8(core: &mut ConfiguredCore) -> (r: Result<u32>)
    ensures
        postincrement_ay_8_rel(*old(core), *final(core), r),
{
    let reg_ndx = reg_ay(core.ir);
    Ok(postincrement_8(core, reg_ndx))
}

/// What `predecrement_ax_8` does: `c0` before, `c1` after, `r` the address.
pub open spec fn predecrement_ax_8_rel(c0: ConfiguredCore, c1: ConfiguredCore, r: Result<u32>) -> bool {
    &&& ({
            let reg = ir_ax(c0.ir);
            let ea = wsub(c0.dar[reg], byte_step(reg));
            &&& r == Ok::<u32, super::Exception>(ea)
            &&& c1.dar@ == c0.dar@.update(reg, ea)
            &&& c1 == (ConfiguredCore { dar: c1.dar, ..c0 })
        })
}

pub fn predecrement_ax_8(core: &mut ConfiguredCore) -> (r: Result<u32>)
    ensures
        predecrement_ax_8_rel(*old(core), *final(core), r),
{
    let reg_ndx = reg_ax(core.ir);
    Ok(predecrement_8(core, reg_ndx))
}

/// What `postincrement_ax_8` does: `c0` before, `c1` after, `r` the address.
pub open spec fn postincrement_ax_8_rel(c0: ConfiguredCore, c1: ConfiguredCore, r: Result<u32>) -> bool {
    &&& ({
            let reg = ir_ax(c0.ir);
            let ea = c0.dar[reg];
            &&& r == Ok::<u32, super::Exception>(ea)
            &&& c1.dar@ == c0.dar@.update(reg, wadd(ea, byte_step(reg)))
            &&& c1 == (ConfiguredCore { dar: c1.dar, ..c0 })
        })
}

pub fn postincrement_ax_8(core: &mut ConfiguredCore) -> (r: Result<u32>)
    ensures
        postincrement_ax_8_rel(*old(core), *final(core), r),
{
    let reg_ndx = reg_ax(core.ir);
    Ok(postincrement_8(core, reg_ndx))
}

/// What `predecrement_ay_16` does: `c0` before, `c1` after, `r` the address.
pub open spec fn predecrement_ay_16_rel(c0: ConfiguredCore, c1: ConfiguredCore, r: Result<u32>) -> bool {
    &&& ({
            let reg = ir_ay(c0.ir);
            let ea = wsub(c0.dar[reg], 2);
            &&& r == Ok::<u32, super::Exception>(ea)
            &&& c1.dar@ == c0.dar@.update(reg, ea)
            &&& c1 == (ConfiguredCore { dar: c1.dar, ..c0 })
        })
}

pub fn predecrement_ay_16(core: &mut ConfiguredCore) -> (r: Result<u32>)
    ensures
        predecrement_ay_16_rel(*old(core), *final(core), r),
{
    let reg_ndx = reg_ay(core.ir);
    Ok(predecrement_16(core, reg_ndx))
}

/// What `postincrement_ay_16` does: `c0` before, `c1` after, `r` the address.
pub open spec fn postincrement_ay_16_rel(c0: ConfiguredCore, c1: ConfiguredCore, r: Result<u32>) -> bool {
    &&& ({
            let reg = ir_ay(c0.ir);
            let ea = c0.dar[reg];
            &&& r == Ok::<u32, super::Exception>(ea)
            &&& c1.dar@ == c0.dar@.update(reg, wadd(ea, 2))
            &&& c1 == (ConfiguredCore { dar: c1.dar, ..c0 })
        })
}

pub fn postincrement_ay_16(core: &mut ConfiguredCore) -> (r: Result<u32>)
    ensures
        postincrement_ay_16_rel(*old(core), *final(core), r),
{
    let reg_ndx = reg_ay(core.ir);
    Ok(postincrement_16(core, reg_ndx))
}

/// What `predecrement_ay_32` does: `c0` before, `c1` after, `r` the address.
pub open spec fn predecrement_ay_32_rel(c0: ConfiguredCore, c1: ConfiguredCore, r: Result<u32>) -> bool {
    &&& ({
            let reg = ir_ay(c0.ir);
            let ea = wsub(c0.dar[reg], 4);
            &&& r == Ok::<u32, super::Exception>(ea)
            &&& c1.dar@ == c0.dar@.update(reg, ea)
            &&& c1 == (ConfiguredCore { dar: c1.dar, ..c0 })
        })
}

pub fn predecrement_ay_32(core: &mut ConfiguredCore) -> (r: Result<u32>)
    ensures
        predecrement_ay_32_rel(*old(core), *final(core), r),
{
    let reg_ndx = reg_ay(core.ir);
    Ok(predecrement_32(core, reg_ndx))
}

/// What `postincrement_ay_32` does: `c0` before, `c1` after, `r` the address.
pub open spec fn postincrement_ay_32_rel(c0: ConfiguredCore, c1: ConfiguredCore, r: Result<u32>) -> bool {
    &&& ({
            let reg = ir_ay(c0.ir);
            let ea = c0.dar[reg];
            &&& r == Ok::<u32, super::Exception>(ea)
            &&& c1.dar@ == c0.dar@.update(reg, wadd(ea, 4))
            &&& c1 == (ConfiguredCore { dar: c1.dar, ..c0 })
        })
}

pub fn postincrement_ay_32(core: &mut ConfiguredCore) -> (r: Result<u32>)
    ensures
        postincrement_ay_32_rel(*old(core), *final(core), r),
{
    let reg_ndx = reg_ay(core.ir);
    Ok(postincrement_32(core, reg_ndx))
}

/// What `predecrement_ax_16` does: `c0` before, `c1` after, `r` the address.
pub open spec fn predecrement_ax_16_rel(c0: ConfiguredCore, c1: ConfiguredCore, r: Result<u32>) -> bool {
    &&& ({
            let reg = ir_ax(c0.ir);
            let ea = wsub(c0.dar[reg], 2);
            &&& r == Ok::<u32, super::Exception>(ea)
            &&& c1.dar@ == c0.dar@.update(reg, ea)
            &&& c1 == (ConfiguredCore { dar: c1.dar, ..c0 })
        })
}

pub fn predecrement_ax_16(core: &mut ConfiguredCore) -> (r: Result<u32>)
    ensures
        predecrement_ax_16_rel(*old(core), *final(core), r),
{
    let reg_ndx = reg_ax(core.ir);
    Ok(predecrement_16(core, reg_ndx))
}

/// What `postincrement_ax_16` does: `c0` before, `c1` after, `r` the address.
pub open spec fn postincrement_ax_16_rel(c0: ConfiguredCore, c1: ConfiguredCore, r: Result<u32>) -> bool {
    &&& ({
            let reg = ir_ax(c0.ir);
            let ea = c0.dar[reg];
            &&& r == Ok::<u32, super::Exception>(ea)
            &&& c1.dar@ == c0.dar@.update(reg, wadd(ea, 2))
            &&& c1 == (ConfiguredCore { dar: c1.dar, ..c0 })
        })
}

pub fn postincrement_ax_16(core: &mut ConfiguredCore) -> (r: Result<u32>)
    ensures
        postincrement_ax_16_rel(*old(core), *final(core), r),
{
    let reg_ndx = reg_ax(core.ir);
    Ok(postincrement_16(core, reg_ndx))
}

/// What `predecrement_ax_32` does: `c0` before, `c1` after, `r` the address.
pub open spec fn predecrement_ax_32_rel(c0: ConfiguredCore, c1: ConfiguredCore, r: Result<u32>) -> bool {
    &&& ({
            let reg = ir_ax(c0.ir);
            let ea = wsub(c0.dar[reg], 4);
            &&& r == Ok::<u32, super::Exception>(ea)
            &&& c1.dar@ == c0.dar@.update(reg, ea)
            &&& c1 == (ConfiguredCore { dar: c1.dar, ..c0 })
        })
}

pub fn predecrement_ax_32(core: &mut ConfiguredCore) -> (r: Result<u32>)
    ensures
        predecrement_ax_32_rel(*old(core), *final(core), r),
{
    let reg_ndx = reg_ax(core.ir);
    Ok(predecrement_32(core, reg_ndx))
}

/// What `postincrement_ax_32` does: `c0` before, `c1` after, `r` the address.
pub open spec fn postincrement_ax_32_rel(c0: ConfiguredCore, c1: ConfiguredCore, r: Result<u32>) -> bool {
    &&& ({
            let reg = ir_ax(c0.ir);
            let ea = c0.dar[reg];
            &&& r == Ok::<u32, super::Exception>(ea)
            &&& c1.dar@ == c0.dar@.update(reg, wadd(ea, 4))
            &&& c1 == (ConfiguredCore { dar: c1.dar, ..c0 })
        })
}

pub fn postincrement_ax_32(core: &mut ConfiguredCore) -> (r: Result<u32>)
    ensures
        postincrement_ax_32_rel(*old(core), *final(core), r),
{
    let reg_ndx = reg_ax(core.ir);
    Ok(postincrement_32(core, reg_ndx))
}

/// What `address_indirect_ay` does: `c0` before, `c1` after, `r` the address.
pub open spec fn address_indirect_ay_rel(c0: ConfiguredCore, c1: ConfiguredCore, r: Result<u32>) -> bool {
    &&& r == Ok::<u32, super::Exception>(c0.dar[ir_ay(c0.ir)])
    &&& c1 == c0
}

pub fn address_indirect_ay(core: &mut ConfiguredCore) -> (r: Result<u32>)
    ensures
        address_indirect_ay_rel(*old(core), *final(core), r),
{
    let reg_ndx = reg_ay(core.ir);
    Ok(core.dar[reg_ndx])
}

/// What `displacement_ay` does: `c0` before, `c1` after, `r` the address.
pub open spec fn displacement_ay_rel(c0: ConfiguredCore, c1: ConfiguredCore, r: Result<u32>) -> bool {
    &&& c0.pc & 1 != 0 ==> r == Err::<u32, super::Exception>(c0.pc_error()) && c1
            == c0
    &&& c0.pc & 1 == 0 ==> r == Ok::<u32, super::Exception>(
            wadd(c0.dar[ir_ay(c0.ir)], (c0.ext16() as i16) as u32),
        ) && ConfiguredCore::fetched(c0, c1, c0.after16())
}

pub fn displacement_ay(core: &mut ConfiguredCore) -> (r: Result<u32>)
    requires
        old(core).wf(),
    ensures
        displacement_ay_rel(*old(core), *final(core), r),
{
    let reg_ndx = reg_ay(core.ir);
    let reg_val = core.dar[reg_ndx];
    displacement(core, reg_val)
}

/// What `index_ay` does: `c0` before, `c1` after, `r` the address.
pub open spec fn index_ay_rel(c0: ConfiguredCore, c1: ConfiguredCore, r: Result<u32>) -> bool {
    &&& c0.pc & 1 != 0 ==> r == Err::<u32, super::Exception>(c0.pc_error()) && c1
            == c0
    &&& c0.pc & 1 == 0 ==> r == Ok::<u32, super::Exception>(
            index_ea(c0.dar@, c0.dar[ir_ay(c0.ir)], c0.ext16()),
        ) && ConfiguredCore::fetched(c0, c1, c0.after16())
}

pub fn index_ay(core: &mut ConfiguredCore) -> (r: Result<u32>)
    requires
        old(core).wf(),
    ensures
        index_ay_rel(*old(core), *final(core), r),
{
    let reg_ndx = reg_ay(core.ir);
    let reg_val = core.dar[reg_ndx];
    index(core, reg_val)
}

/// What `address_indirect_ax` does: `c0` before, `c1` after, `r` the address.
pub open spec fn address_indirect_ax_rel(c0: ConfiguredCore, c1: ConfiguredCore, r: Result<u32>) -> bool {
    &&& r == Ok::<u32, super::Exception>(c0.dar[ir_ax(c0.ir)])
    &&& c1 == c0
}

pub fn address_indirect_ax(core: &mut ConfiguredCore) -> (r: Result<u32>)
    ensures
        address_indirect_ax_rel(*old(core), *final(core), r),
{
    let reg_ndx = reg_ax(core.ir);
    Ok(core.dar[reg_ndx])
}

/// What `displacement_ax` does: `c0` before, `c1` after, `r` the address.
pub open spec fn displacement_ax_rel(c0: ConfiguredCore, c1: ConfiguredCore, r: Result<u32>) -> bool {
    &&& c0.pc & 1 != 0 ==> r == Err::<u32, super::Exception>(c0.pc_error()) && c1
            == c0
    &&& c0.pc & 1 == 0 ==> r == Ok::<u32, super::Exception>(
            wadd(c0.dar[ir_ax(c0.ir)], (c0.ext16() as i16) as u32),
        ) && ConfiguredCore::fetched(c0, c1, c0.after16())
}

pub fn displacement_ax(core: &mut ConfiguredCore) -> (r: Result<u32>)
    requires
        old(core).wf(),
    ensures
        displacement_ax_rel(*old(core), *final(core), r),
{
    let reg_ndx = reg_ax(core.ir);
    let reg_val = core.dar[reg_ndx];
    displacement(core, reg_val)
}

/// What `index_ax` does: `c0` before, `c1` after, `r` the address.
pub open spec fn index_ax_rel(c0: ConfiguredCore, c1: ConfiguredCore, r: Result<u32>) -> bool {
    &&& c0.pc & 1 != 0 ==> r == Err::<u32, super::Exception>(c0.pc_error()) && c1
            == c0
    &&& c0.pc & 1 == 0 ==> r == Ok::<u32, super::Exception>(
            index_ea(c0.dar@, c0.dar[ir_ax(c0.ir)], c0.ext16()),
        ) && ConfiguredCore::fetched(c0, c1, c0.after16())
}

pub fn index_ax(core: &mut ConfiguredCore) -> (r: Result<u32>)
    requires
        old(core).wf(),
    ensures
        index_ax_rel(*old(core), *final(core), r),
{
    let reg_ndx = reg_ax(core.ir);
    let reg_val = core.dar[reg_ndx];
    index(core, reg_val)
}

/// What `displacement_pc` does: `c0` before, `c1` after, `r` the address.
pub open spec fn displacement_pc_rel(c0: ConfiguredCore, c1: ConfiguredCore, r: Result<u32>) -> bool {
    &&& c0.pc & 1 != 0 ==> r == Err::<u32, super::Exception>(c0.pc_error()) && c1
            == c0
    &&& c0.pc & 1 == 0 ==> r == Ok::<u32, super::Exception>(
            wadd(c0.pc, (c0.ext16() as i16) as u32),
        ) && ConfiguredCore::fetched(c0, c1, c0.after16())
}

pub fn displacement_pc(core: &mut ConfiguredCore) -> (r: Result<u32>)
    requires
        old(core).wf(),
    ensures
        displacement_pc_rel(*old(core), *final(core), r),
{
    let old_pc = core.pc;
    displacement(core, old_pc)
}

/// What `index_pc` does: `c0` before, `c1` after, `r` the address.
pub open spec fn index_pc_rel(c0: ConfiguredCore, c1: ConfiguredCore, r: Result<u32>) -> bool {
    &&& c0.pc & 1 != 0 ==> r == Err::<u32, super::Exception>(c0.pc_error()) && c1
            == c0
    &&& c0.pc & 1 == 0 ==> r == Ok::<u32, super::Exception>(
            index_ea(c0.dar@, c0.pc, c0.ext16()),
        ) && ConfiguredCore::fetched(c0, c1, c0.after16())
}

pub fn index_pc(core: &mut ConfiguredCore) -> (r: Result<u32>)
    requires
        old(core).wf(),
    ensures
        index_pc_rel(*old(core), *final(core), r),
{
    let pc = core.pc;
    index(core, pc)
}

} // verus!
