use vstd::prelude::*;
use crate::cpu::{ConfiguredCore, Cycles, Exception, Result, AccessType, data_written, pushed_32, branched, wadd, wsub, ir_dx, ir_dy, ir_ax, ir_ay, reg_dx, reg_dy, reg_ax, reg_ay, condition};
use crate::cpu::effective_address;
use crate::cpu::operator;
use crate::cpu::ops::common;
use crate::cpu::ops::{reg_set, merged, merge, set_reg, write_sized, stack_error, stack_fault, sp_odd, privilege_violation, short_offset, long_branch_done};

verus! {

/// The byte that Scc writes: all ones when the condition holds.
pub open spec fn flag_byte(b: bool) -> u32 {
    if b {
        0xff
    } else {
        0
    }
}

/// What `bhi_8` does: the core goes from `c0` to `c1` and `r` comes back.
pub open spec fn bhi_8_effect(c0: ConfiguredCore, c1: ConfiguredCore, r: Result<Cycles>) -> bool {
    if condition(c0, 2) {
        r == Ok::<Cycles, Exception>(Cycles(10)) && c1 == (ConfiguredCore { pc: branched(c0.pc, short_offset(c0.ir)), ..c0 })
    } else {
        r == Ok::<Cycles, Exception>(Cycles(8)) && c1 == c0
    }
}

/// Bcc with an 8-bit displacement: taken when the condition holds.
pub fn bhi_8(core: &mut ConfiguredCore) -> (r: Result<Cycles>)
    requires
        old(core).wf(),
    ensures
        final(core).wf(),
        bhi_8_effect(*old(core), *final(core), r),
{
    if core.cond_hi() {
        let offset = (core.ir & 0xff) as i8;
        core.branch_8(offset);
        Ok(Cycles(10))
    } else {
        Ok(Cycles(8))
    }
}

/// What `bls_8` does: the core goes from `c0` to `c1` and `r` comes back.
pub open spec fn bls_8_effect(c0: ConfiguredCore, c1: ConfiguredCore, r: Result<Cycles>) -> bool {
    if condition(c0, 3) {
        r == Ok::<Cycles, Exception>(Cycles(10)) && c1 == (ConfiguredCore { pc: branched(c0.pc, short_offset(c0.ir)), ..c0 })
    } else {
        r == Ok::<Cycles, Exception>(Cycles(8)) && c1 == c0
    }
}

/// Bcc with an 8-bit displacement: taken when the condition holds.
pub fn bls_8(core: &mut ConfiguredCore) -> (r: Result<Cycles>)
    requires
        old(core).wf(),
    ensures
        final(core).wf(),
        bls_8_effect(*old(core), *final(core), r),
{
    if core.cond_ls() {
        let offset = (core.ir & 0xff) as i8;
        core.branch_8(offset);
        Ok(Cycles(10))
    } else {
        Ok(Cycles(8))
    }
}

/// What `bcc_8` does: the core goes from `c0` to `c1` and `r` comes back.
pub open spec fn bcc_8_effect(c0: ConfiguredCore, c1: ConfiguredCore, r: Result<Cycles>) -> bool {
    if condition(c0, 4) {
        r == Ok::<Cycles, Exception>(Cycles(10)) && c1 == (ConfiguredCore { pc: branched(c0.pc, short_offset(c0.ir)), ..c0 })
    } else {
        r == Ok::<Cycles, Exception>(Cycles(8)) && c1 == c0
    }
}

/// Bcc with an 8-bit displacement: taken when the condition holds.
pub fn bcc_8(core: &mut ConfiguredCore) -> (r: Result<Cycles>)
    requires
        old(core).wf(),
    ensures
        final(core).wf(),
        bcc_8_effect(*old(core), *final(core), r),
{
    if core.cond_cc() {
        let offset = (core.ir & 0xff) as i8;
        core.branch_8(offset);
        Ok(Cycles(10))
    } else {
        Ok(Cycles(8))
    }
}

/// What `bcs_8` does: the core goes from `c0` to `c1` and `r` comes back.
pub open spec fn bcs_8_effect(c0: ConfiguredCore, c1: ConfiguredCore, r: Result<Cycles>) -> bool {
    if condition(c0, 5) {
        r == Ok::<Cycles, Exception>(Cycles(10)) && c1 == (ConfiguredCore { pc: branched(c0.pc, short_offset(c0.ir)), ..c0 })
    } else {
        r == Ok::<Cycles, Exception>(Cycles(8)) && c1 == c0
    }
}

/// Bcc with an 8-bit displacement: taken when the condition holds.
pub fn bcs_8(core: &mut ConfiguredCore) -> (r: Result<Cycles>)
    requires
        old(core).wf(),
    ensures
        final(core).wf(),
        bcs_8_effect(*old(core), *final(core), r),
{
    if core.cond_cs() {
        let offset = (core.ir & 0xff) as i8;
        core.branch_8(offset);
        Ok(Cycles(10))
    } else {
        Ok(Cycles(8))
    }
}

/// What `bne_8` does: the core goes from `c0` to `c1` and `r` comes back.
pub open spec fn bne_8_effect(c0: ConfiguredCore, c1: ConfiguredCore, r: Result<Cycles>) -> bool {
    if condition(c0, 6) {
        r == Ok::<Cycles, Exception>(Cycles(10)) && c1 == (ConfiguredCore { pc: branched(c0.pc, short_offset(c0.ir)), ..c0 })
    } else {
        r == Ok::<Cycles, Exception>(Cycles(8)) && c1 == c0
    }
}

/// Bcc with an 8-bit displacement: taken when the condition holds.
pub fn bne_8(core: &mut ConfiguredCore) -> (r: Result<Cycles>)
    requires
        old(core).wf(),
    ensures
        final(core).wf(),
        bne_8_effect(*old(core), *final(core), r),
{
    if core.cond_ne() {
        let offset = (core.ir & 0xff) as i8;
        core.branch_8(offset);
        Ok(Cycles(10))
    } else {
        Ok(Cycles(8))
    }
}

/// What `beq_8` does: the core goes from `c0` to `c1` and `r` comes back.
pub open spec fn beq_8_effect(c0: ConfiguredCore, c1: ConfiguredCore, r: Result<Cycles>) -> bool {
    if condition(c0, 7) {
        r == Ok::<Cycles, Exception>(Cycles(10)) && c1 == (ConfiguredCore { pc: branched(c0.pc, short_offset(c0.ir)), ..c0 })
    } else {
        r == Ok::<Cycles, Exception>(Cycles(8)) && c1 == c0
    }
}

/// Bcc with an 8-bit displacement: taken when the condition holds.
pub fn beq_8(core: &mut ConfiguredCore) -> (r: Result<Cycles>)
    requires
        old(core).wf(),
    ensures
        final(core).wf(),
        beq_8_effect(*old(core), *final(core), r),
{
    if core.cond_eq() {
        let offset = (core.ir & 0xff) as i8;
        core.branch_8(offset);
        Ok(Cycles(10))
    } else {
        Ok(Cycles(8))
    }
}

/// What `bvc_8` does: the core goes from `c0` to `c1` and `r` comes back.
pub open spec fn bvc_8_effect(c0: ConfiguredCore, c1: ConfiguredCore, r: Result<Cycles>) -> bool {
    if condition(c0, 8) {
        r == Ok::<Cycles, Exception>(Cycles(10)) && c1 == (ConfiguredCore { pc: branched(c0.pc, short_offset(c0.ir)), ..c0 })
    } else {
        r == Ok::<Cycles, Exception>(Cycles(8)) && c1 == c0
    }
}

/// Bcc with an 8-bit displacement: taken when the condition holds.
pub fn bvc_8(core: &mut ConfiguredCore) -> (r: Result<Cycles>)
    requires
        old(core).wf(),
    ensures
        final(core).wf(),
        bvc_8_effect(*old(core), *final(core), r),
{
    if core.cond_vc() {
        let offset = (core.ir & 0xff) as i8;
        core.branch_8(offset);
        Ok(Cycles(10))
    } else {
        Ok(Cycles(8))
    }
}

/// What `bvs_8` does: the core goes from `c0` to `c1` and `r` comes back.
pub open spec fn bvs_8_effect(c0: ConfiguredCore, c1: ConfiguredCore, r: Result<Cycles>) -> bool {
    if condition(c0, 9) {
        r == Ok::<Cycles, Exception>(Cycles(10)) && c1 == (ConfiguredCore { pc: branched(c0.pc, short_offset(c0.ir)), ..c0 })
    } else {
        r == Ok::<Cycles, Exception>(Cycles(8)) && c1 == c0
    }
}

/// Bcc with an 8-bit displacement: taken when the condition holds.
pub fn bvs_8(core: &mut ConfiguredCore) -> (r: Result<Cycles>)
    requires
        old(core).wf(),
    ensures
        final(core).wf(),
        bvs_8_effect(*old(core), *final(core), r),
{
    if core.cond_vs() {
        let offset = (core.ir & 0xff) as i8;
        core.branch_8(offset);
        Ok(Cycles(10))
    } else {
        Ok(Cycles(8))
    }
}

/// What `bpl_8` does: the core goes from `c0` to `c1` and `r` comes back.
pub open spec fn bpl_8_effect(c0: ConfiguredCore, c1: ConfiguredCore, r: Result<Cycles>) -> bool {
    if condition(c0, 10) {
        r == Ok::<Cycles, Exception>(Cycles(10)) && c1 == (ConfiguredCore { pc: branched(c0.pc, short_offset(c0.ir)), ..c0 })
    } else {
        r == Ok::<Cycles, Exception>(Cycles(8)) && c1 == c0
    }
}

/// Bcc with an 8-bit displacement: taken when the condition holds.
pub fn bpl_8(core: &mut ConfiguredCore) -> (r: Result<Cycles>)
    requires
        old(core).wf(),
    ensures
        final(core).wf(),
        bpl_8_effect(*old(core), *final(core), r),
{
    if core.cond_pl() {
        let offset = (core.ir & 0xff) as i8;
        core.branch_8(offset);
        Ok(Cycles(10))
    } else {
        Ok(Cycles(8))
    }
}

/// What `bmi_8` does: the core goes from `c0` to `c1` and `r` comes back.
pub open spec fn bmi_8_effect(c0: ConfiguredCore, c1: ConfiguredCore, r: Result<Cycles>) -> bool {
    if condition(c0, 11) {
        r == Ok::<Cycles, Exception>(Cycles(10)) && c1 == (ConfiguredCore { pc: branched(c0.pc, short_offset(c0.ir)), ..c0 })
    } else {
        r == Ok::<Cycles, Exception>(Cycles(8)) && c1 == c0
    }
}

/// Bcc with an 8-bit displacement: taken when the condition holds.
pub fn bmi_8(core: &mut ConfiguredCore) -> (r: Result<Cycles>)
    requires
        old(core).wf(),
    ensures
        final(core).wf(),
        bmi_8_effect(*old(core), *final(core), r),
{
    if core.cond_mi() {
        let offset = (core.ir & 0xff) as i8;
        core.branch_8(offset);
        Ok(Cycles(10))
    } else {
        Ok(Cycles(8))
    }
}

/// What `bge_8` does: the core goes from `c0` to `c1` and `r` comes back.
pub open spec fn bge_8_effect(c0: ConfiguredCore, c1: ConfiguredCore, r: Result<Cycles>) -> bool {
    if condition(c0, 12) {
        r == Ok::<Cycles, Exception>(Cycles(10)) && c1 == (ConfiguredCore { pc: branched(c0.pc, short_offset(c0.ir)), ..c0 })
    } else {
        r == Ok::<Cycles, Exception>(Cycles(8)) && c1 == c0
    }
}

/// Bcc with an 8-bit displacement: taken when the condition holds.
pub fn bge_8(core: &mut ConfiguredCore) -> (r: Result<Cycles>)
    requires
        old(core).wf(),
    ensures
        final(core).wf(),
        bge_8_effect(*old(core), *final(core), r),
{
    if core.cond_ge() {
        let offset = (core.ir & 0xff) as i8;
        core.branch_8(offset);
        Ok(Cycles(10))
    } else {
        Ok(Cycles(8))
    }
}

/// What `blt_8` does: the core goes from `c0` to `c1` and `r` comes back.
pub open spec fn blt_8_effect(c0: ConfiguredCore, c1: ConfiguredCore, r: Result<Cycles>) -> bool {
    if condition(c0, 13) {
        r == Ok::<Cycles, Exception>(Cycles(10)) && c1 == (ConfiguredCore { pc: branched(c0.pc, short_offset(c0.ir)), ..c0 })
    } else {
        r == Ok::<Cycles, Exception>(Cycles(8)) && c1 == c0
    }
}

/// Bcc with an 8-bit displacement: taken when the condition holds.
pub fn blt_8(core: &mut ConfiguredCore) -> (r: Result<Cycles>)
    requires
        old(core).wf(),
    ensures
        final(core).wf(),
        blt_8_effect(*old(core), *final(core), r),
{
    if core.cond_lt() {
        let offset = (core.ir & 0xff) as i8;
        core.branch_8(offset);
        Ok(Cycles(10))
    } else {
        Ok(Cycles(8))
    }
}

/// What `bgt_8` does: the core goes from `c0` to `c1` and `r` comes back.
pub open spec fn bgt_8_effect(c0: ConfiguredCore, c1: ConfiguredCore, r: Result<Cycles>) -> bool {
    if condition(c0, 14) {
        r == Ok::<Cycles, Exception>(Cycles(10)) && c1 == (ConfiguredCore { pc: branched(c0.pc, short_offset(c0.ir)), ..c0 })
    } else {
        r == Ok::<Cycles, Exception>(Cycles(8)) && c1 == c0
    }
}

/// Bcc with an 8-bit displacement: taken when the condition holds.
pub fn bgt_8(core: &mut ConfiguredCore) -> (r: Result<Cycles>)
    requires
        old(core).wf(),
    ensures
        final(core).wf(),
        bgt_8_effect(*old(core), *final(core), r),
{
    if core.cond_gt() {
        let offset = (core.ir & 0xff) as i8;
        core.branch_8(offset);
        Ok(Cycles(10))
    } else {
        Ok(Cycles(8))
    }
}

/// What `ble_8` does: the core goes from `c0` to `c1` and `r` comes back.
pub open spec fn ble_8_effect(c0: ConfiguredCore, c1: ConfiguredCore, r: Result<Cycles>) -> bool {
    if condition(c0, 15) {
        r == Ok::<Cycles, Exception>(Cycles(10)) && c1 == (ConfiguredCore { pc: branched(c0.pc, short_offset(c0.ir)), ..c0 })
    } else {
        r == Ok::<Cycles, Exception>(Cycles(8)) && c1 == c0
    }
}

/// Bcc with an 8-bit displacement: taken when the condition holds.
pub fn ble_8(core: &mut ConfiguredCore) -> (r: Result<Cycles>)
    requires
        old(core).wf(),
    ensures
        final(core).wf(),
        ble_8_effect(*old(core), *final(core), r),
{
    if core.cond_le() {
        let offset = (core.ir & 0xff) as i8;
        core.branch_8(offset);
        Ok(Cycles(10))
    } else {
        Ok(Cycles(8))
    }
}

/// What `bhi_16` does: the core goes from `c0` to `c1` and `r` comes back.
pub open spec fn bhi_16_effect(c0: ConfiguredCore, c1: ConfiguredCore, r: Result<Cycles>) -> bool {
    if condition(c0, 2) {
        &&& c0.pc & 1 != 0 ==> r == Err::<Cycles, Exception>(c0.pc_error()) && c1 == c0
        &&& c0.pc & 1 == 0 ==> r == Ok::<Cycles, Exception>(Cycles(10)) && long_branch_done(c0, c1)
    } else {
        r == Ok::<Cycles, Exception>(Cycles(12)) && c1 == (ConfiguredCore { pc: wadd(c0.pc, 2), ..c0 })
    }
}

/// Bcc with a 16-bit displacement: taken when the condition holds, and
/// otherwise the displacement word is skipped.
pub fn bhi_16(core: &mut ConfiguredCore) -> (r: Result<Cycles>)
    requires
        old(core).wf(),
    ensures
        final(core).wf(),
        bhi_16_effect(*old(core), *final(core), r),
{
    if core.cond_hi() {
        let ghost c0 = *core;
        let offset = match core.read_imm_i16() {
            Ok(o) => o,
            Err(e) => {
                return Err(e);
            },
        };
        let ghost mid = *core;
        assert(ConfiguredCore::fetched(c0, mid, c0.after16()));
        core.pc = core.pc.wrapping_sub(2);
        core.branch_16(offset);
        Ok(Cycles(10))
    } else {
        core.pc = core.pc.wrapping_add(2);
        Ok(Cycles(12))
    }
}

/// What `bls_16` does: the core goes from `c0` to `c1` and `r` comes back.
pub open spec fn bls_16_effect(c0: ConfiguredCore, c1: ConfiguredCore, r: Result<Cycles>) -> bool {
    if condition(c0, 3) {
        &&& c0.pc & 1 != 0 ==> r == Err::<Cycles, Exception>(c0.pc_error()) && c1 == c0
        &&& c0.pc & 1 == 0 ==> r == Ok::<Cycles, Exception>(Cycles(10)) && long_branch_done(c0, c1)
    } else {
        r == Ok::<Cycles, Exception>(Cycles(12)) && c1 == (ConfiguredCore { pc: wadd(c0.pc, 2), ..c0 })
    }
}

/// Bcc with a 16-bit displacement: taken when the condition holds, and
/// otherwise the displacement word is skipped.
pub fn bls_16(core: &mut ConfiguredCore) -> (r: Result<Cycles>)
    requires
        old(core).wf(),
    ensures
        final(core).wf(),
        bls_16_effect(*old(core), *final(core), r),
{
    if core.cond_ls() {
        let ghost c0 = *core;
        let offset = match core.read_imm_i16() {
            Ok(o) => o,
            Err(e) => {
                return Err(e);
            },
        };
        let ghost mid = *core;
        assert(ConfiguredCore::fetched(c0, mid, c0.after16()));
        core.pc = core.pc.wrapping_sub(2);
        core.branch_16(offset);
        Ok(Cycles(10))
    } else {
        core.pc = core.pc.wrapping_add(2);
        Ok(Cycles(12))
    }
}

/// What `bcc_16` does: the core goes from `c0` to `c1` and `r` comes back.
pub open spec fn bcc_16_effect(c0: ConfiguredCore, c1: ConfiguredCore, r: Result<Cycles>) -> bool {
    if condition(c0, 4) {
        &&& c0.pc & 1 != 0 ==> r == Err::<Cycles, Exception>(c0.pc_error()) && c1 == c0
        &&& c0.pc & 1 == 0 ==> r == Ok::<Cycles, Exception>(Cycles(10)) && long_branch_done(c0, c1)
    } else {
        r == Ok::<Cycles, Exception>(Cycles(12)) && c1 == (ConfiguredCore { pc: wadd(c0.pc, 2), ..c0 })
    }
}

/// Bcc with a 16-bit displacement: taken when the condition holds, and
/// otherwise the displacement word is skipped.
pub fn bcc_16(core: &mut ConfiguredCore) -> (r: Result<Cycles>)
    requires
        old(core).wf(),
    ensures
        final(core).wf(),
        bcc_16_effect(*old(core), *final(core), r),
{
    if core.cond_cc() {
        let ghost c0 = *core;
        let offset = match core.read_imm_i16() {
            Ok(o) => o,
            Err(e) => {
                return Err(e);
            },
        };
        let ghost mid = *core;
        assert(ConfiguredCore::fetched(c0, mid, c0.after16()));
        core.pc = core.pc.wrapping_sub(2);
        core.branch_16(offset);
        Ok(Cycles(10))
    } else {
        core.pc = core.pc.wrapping_add(2);
        Ok(Cycles(12))
    }
}

/// What `bcs_16` does: the core goes from `c0` to `c1` and `r` comes back.
pub open spec fn bcs_16_effect(c0: ConfiguredCore, c1: ConfiguredCore, r: Result<Cycles>) -> bool {
    if condition(c0, 5) {
        &&& c0.pc & 1 != 0 ==> r == Err::<Cycles, Exception>(c0.pc_error()) && c1 == c0
        &&& c0.pc & 1 == 0 ==> r == Ok::<Cycles, Exception>(Cycles(10)) && long_branch_done(c0, c1)
    } else {
        r == Ok::<Cycles, Exception>(Cycles(12)) && c1 == (ConfiguredCore { pc: wadd(c0.pc, 2), ..c0 })
    }
}

/// Bcc with a 16-bit displacement: taken when the condition holds, and
/// otherwise the displacement word is skipped.
pub fn bcs_16(core: &mut ConfiguredCore) -> (r: Result<Cycles>)
    requires
        old(core).wf(),
    ensures
        final(core).wf(),
        bcs_16_effect(*old(core), *final(core), r),
{
    if core.cond_cs() {
        let ghost c0 = *core;
        let offset = match core.read_imm_i16() {
            Ok(o) => o,
            Err(e) => {
                return Err(e);
            },
        };
        let ghost mid = *core;
        assert(ConfiguredCore::fetched(c0, mid, c0.after16()));
        core.pc = core.pc.wrapping_sub(2);
        core.branch_16(offset);
        Ok(Cycles(10))
    } else {
        core.pc = core.pc.wrapping_add(2);
        Ok(Cycles(12))
    }
}

/// What `bne_16` does: the core goes from `c0` to `c1` and `r` comes back.
pub open spec fn bne_16_effect(c0: ConfiguredCore, c1: ConfiguredCore, r: Result<Cycles>) -> bool {
    if condition(c0, 6) {
        &&& c0.pc & 1 != 0 ==> r == Err::<Cycles, Exception>(c0.pc_error()) && c1 == c0
        &&& c0.pc & 1 == 0 ==> r == Ok::<Cycles, Exception>(Cycles(10)) && long_branch_done(c0, c1)
    } else {
        r == Ok::<Cycles, Exception>(Cycles(12)) && c1 == (ConfiguredCore { pc: wadd(c0.pc, 2), ..c0 })
    }
}

/// Bcc with a 16-bit displacement: taken when the condition holds, and
/// otherwise the displacement word is skipped.
pub fn bne_16(core: &mut ConfiguredCore) -> (r: Result<Cycles>)
    requires
        old(core).wf(),
    ensures
        final(core).wf(),
        bne_16_effect(*old(core), *final(core), r),
{
    if core.cond_ne() {
        let ghost c0 = *core;
        let offset = match core.read_imm_i16() {
            Ok(o) => o,
            Err(e) => {
                return Err(e);
            },
        };
        let ghost mid = *core;
        assert(ConfiguredCore::fetched(c0, mid, c0.after16()));
        core.pc = core.pc.wrapping_sub(2);
        core.branch_16(offset);
        Ok(Cycles(10))
    } else {
        core.pc = core.pc.wrapping_add(2);
        Ok(Cycles(12))
    }
}

/// What `beq_16` does: the core goes from `c0` to `c1` and `r` comes back.
pub open spec fn beq_16_effect(c0: ConfiguredCore, c1: ConfiguredCore, r: Result<Cycles>) -> bool {
    if condition(c0, 7) {
        &&& c0.pc & 1 != 0 ==> r == Err::<Cycles, Exception>(c0.pc_error()) && c1 == c0
        &&& c0.pc & 1 == 0 ==> r == Ok::<Cycles, Exception>(Cycles(10)) && long_branch_done(c0, c1)
    } else {
        r == Ok::<Cycles, Exception>(Cycles(12)) && c1 == (ConfiguredCore { pc: wadd(c0.pc, 2), ..c0 })
    }
}

/// Bcc with a 16-bit displacement: taken when the condition holds, and
/// otherwise the displacement word is skipped.
pub fn beq_16(core: &mut ConfiguredCore) -> (r: Result<Cycles>)
    requires
        old(core).wf(),
    ensures
        final(core).wf(),
        beq_16_effect(*old(core), *final(core), r),
{
    if core.cond_eq() {
        let ghost c0 = *core;
        let offset = match core.read_imm_i16() {
            Ok(o) => o,
            Err(e) => {
                return Err(e);
            },
        };
        let ghost mid = *core;
        assert(ConfiguredCore::fetched(c0, mid, c0.after16()));
        core.pc = core.pc.wrapping_sub(2);
        core.branch_16(offset);
        Ok(Cycles(10))
    } else {
        core.pc = core.pc.wrapping_add(2);
        Ok(Cycles(12))
    }
}

/// What `bvc_16` does: the core goes from `c0` to `c1` and `r` comes back.
pub open spec fn bvc_16_effect(c0: ConfiguredCore, c1: ConfiguredCore, r: Result<Cycles>) -> bool {
    if condition(c0, 8) {
        &&& c0.pc & 1 != 0 ==> r == Err::<Cycles, Exception>(c0.pc_error()) && c1 == c0
        &&& c0.pc & 1 == 0 ==> r == Ok::<Cycles, Exception>(Cycles(10)) && long_branch_done(c0, c1)
    } else {
        r == Ok::<Cycles, Exception>(Cycles(12)) && c1 == (ConfiguredCore { pc: wadd(c0.pc, 2), ..c0 })
    }
}

/// Bcc with a 16-bit displacement: taken when the condition holds, and
/// otherwise the displacement word is skipped.
pub fn bvc_16(core: &mut ConfiguredCore) -> (r: Result<Cycles>)
    requires
        old(core).wf(),
    ensures
        final(core).wf(),
        bvc_16_effect(*old(core), *final(core), r),
{
    if core.cond_vc() {
        let ghost c0 = *core;
        let offset = match core.read_imm_i16() {
            Ok(o) => o,
            Err(e) => {
                return Err(e);
            },
        };
        let ghost mid = *core;
        assert(ConfiguredCore::fetched(c0, mid, c0.after16()));
        core.pc = core.pc.wrapping_sub(2);
        core.branch_16(offset);
        Ok(Cycles(10))
    } else {
        core.pc = core.pc.wrapping_add(2);
        Ok(Cycles(12))
    }
}

/// What `bvs_16` does: the core goes from `c0` to `c1` and `r` comes back.
pub open spec fn bvs_16_effect(c0: ConfiguredCore, c1: ConfiguredCore, r: Result<Cycles>) -> bool {
    if condition(c0, 9) {
        &&& c0.pc & 1 != 0 ==> r == Err::<Cycles, Exception>(c0.pc_error()) && c1 == c0
        &&& c0.pc & 1 == 0 ==> r == Ok::<Cycles, Exception>(Cycles(10)) && long_branch_done(c0, c1)
    } else {
        r == Ok::<Cycles, Exception>(Cycles(12)) && c1 == (ConfiguredCore { pc: wadd(c0.pc, 2), ..c0 })
    }
}

/// Bcc with a 16-bit displacement: taken when the condition holds, and
/// otherwise the displacement word is skipped.
pub fn bvs_16(core: &mut ConfiguredCore) -> (r: Result<Cycles>)
    requires
        old(core).wf(),
    ensures
        final(core).wf(),
        bvs_16_effect(*old(core), *final(core), r),
{
    if core.cond_vs() {
        let ghost c0 = *core;
        let offset = match core.read_imm_i16() {
            Ok(o) => o,
            Err(e) => {
                return Err(e);
            },
        };
        let ghost mid = *core;
        assert(ConfiguredCore::fetched(c0, mid, c0.after16()));
        core.pc = core.pc.wrapping_sub(2);
        core.branch_16(offset);
        Ok(Cycles(10))
    } else {
        core.pc = core.pc.wrapping_add(2);
        Ok(Cycles(12))
    }
}

/// What `bpl_16` does: the core goes from `c0` to `c1` and `r` comes back.
pub open spec fn bpl_16_effect(c0: ConfiguredCore, c1: ConfiguredCore, r: Result<Cycles>) -> bool {
    if condition(c0, 10) {
        &&& c0.pc & 1 != 0 ==> r == Err::<Cycles, Exception>(c0.pc_error()) && c1 == c0
        &&& c0.pc & 1 == 0 ==> r == Ok::<Cycles, Exception>(Cycles(10)) && long_branch_done(c0, c1)
    } else {
        r == Ok::<Cycles, Exception>(Cycles(12)) && c1 == (ConfiguredCore { pc: wadd(c0.pc, 2), ..c0 })
    }
}

/// Bcc with a 16-bit displacement: taken when the condition holds, and
/// otherwise the displacement word is skipped.
pub fn bpl_16(core: &mut ConfiguredCore) -> (r: Result<Cycles>)
    requires
        old(core).wf(),
    ensures
        final(core).wf(),
        bpl_16_effect(*old(core), *final(core), r),
{
    if core.cond_pl() {
        let ghost c0 = *core;
        let offset = match core.read_imm_i16() {
            Ok(o) => o,
            Err(e) => {
                return Err(e);
            },
        };
        let ghost mid = *core;
        assert(ConfiguredCore::fetched(c0, mid, c0.after16()));
        core.pc = core.pc.wrapping_sub(2);
        core.branch_16(offset);
        Ok(Cycles(10))
    } else {
        core.pc = core.pc.wrapping_add(2);
        Ok(Cycles(12))
    }
}

/// What `bmi_16` does: the core goes from `c0` to `c1` and `r` comes back.
pub open spec fn bmi_16_effect(c0: ConfiguredCore, c1: ConfiguredCore, r: Result<Cycles>) -> bool {
    if condition(c0, 11) {
        &&& c0.pc & 1 != 0 ==> r == Err::<Cycles, Exception>(c0.pc_error()) && c1 == c0
        &&& c0.pc & 1 == 0 ==> r == Ok::<Cycles, Exception>(Cycles(10)) && long_branch_done(c0, c1)
    } else {
        r == Ok::<Cycles, Exception>(Cycles(12)) && c1 == (ConfiguredCore { pc: wadd(c0.pc, 2), ..c0 })
    }
}

/// Bcc with a 16-bit displacement: taken when the condition holds, and
/// otherwise the displacement word is skipped.
pub fn bmi_16(core: &mut ConfiguredCore) -> (r: Result<Cycles>)
    requires
        old(core).wf(),
    ensures
        final(core).wf(),
        bmi_16_effect(*old(core), *final(core), r),
{
    if core.cond_mi() {
        let ghost c0 = *core;
        let offset = match core.read_imm_i16() {
            Ok(o) => o,
            Err(e) => {
                return Err(e);
            },
        };
        let ghost mid = *core;
        assert(ConfiguredCore::fetched(c0, mid, c0.after16()));
        core.pc = core.pc.wrapping_sub(2);
        core.branch_16(offset);
        Ok(Cycles(10))
    } else {
        core.pc = core.pc.wrapping_add(2);
        Ok(Cycles(12))
    }
}

/// What `bge_16` does: the core goes from `c0` to `c1` and `r` comes back.
pub open spec fn bge_16_effect(c0: ConfiguredCore, c1: ConfiguredCore, r: Result<Cycles>) -> bool {
    if condition(c0, 12) {
        &&& c0.pc & 1 != 0 ==> r == Err::<Cycles, Exception>(c0.pc_error()) && c1 == c0
        &&& c0.pc & 1 == 0 ==> r == Ok::<Cycles, Exception>(Cycles(10)) && long_branch_done(c0, c1)
    } else {
        r == Ok::<Cycles, Exception>(Cycles(12)) && c1 == (ConfiguredCore { pc: wadd(c0.pc, 2), ..c0 })
    }
}

/// Bcc with a 16-bit displacement: taken when the condition holds, and
/// otherwise the displacement word is skipped.
pub fn bge_16(core: &mut ConfiguredCore) -> (r: Result<Cycles>)
    requires
        old(core).wf(),
    ensures
        final(core).wf(),
        bge_16_effect(*old(core), *final(core), r),
{
    if core.cond_ge() {
        let ghost c0 = *core;
        let offset = match core.read_imm_i16() {
            Ok(o) => o,
            Err(e) => {
                return Err(e);
            },
        };
        let ghost mid = *core;
        assert(ConfiguredCore::fetched(c0, mid, c0.after16()));
        core.pc = core.pc.wrapping_sub(2);
        core.branch_16(offset);
        Ok(Cycles(10))
    } else {
        core.pc = core.pc.wrapping_add(2);
        Ok(Cycles(12))
    }
}

/// What `blt_16` does: the core goes from `c0` to `c1` and `r` comes back.
pub open spec fn blt_16_effect(c0: ConfiguredCore, c1: ConfiguredCore, r: Result<Cycles>) -> bool {
    if condition(c0, 13) {
        &&& c0.pc & 1 != 0 ==> r == Err::<Cycles, Exception>(c0.pc_error()) && c1 == c0
        &&& c0.pc & 1 == 0 ==> r == Ok::<Cycles, Exception>(Cycles(10)) && long_branch_done(c0, c1)
    } else {
        r == Ok::<Cycles, Exception>(Cycles(12)) && c1 == (ConfiguredCore { pc: wadd(c0.pc, 2), ..c0 })
    }
}

/// Bcc with a 16-bit displacement: taken when the condition holds, and
/// otherwise the displacement word is skipped.
pub fn blt_16(core: &mut ConfiguredCore) -> (r: Result<Cycles>)
    requires
        old(core).wf(),
    ensures
        final(core).wf(),
        blt_16_effect(*old(core), *final(core), r),
{
    if core.cond_lt() {
        let ghost c0 = *core;
        let offset = match core.read_imm_i16() {
            Ok(o) => o,
            Err(e) => {
                return Err(e);
            },
        };
        let ghost mid = *core;
        assert(ConfiguredCore::fetched(c0, mid, c0.after16()));
        core.pc = core.pc.wrapping_sub(2);
        core.branch_16(offset);
        Ok(Cycles(10))
    } else {
        core.pc = core.pc.wrapping_add(2);
        Ok(Cycles(12))
    }
}

/// What `bgt_16` does: the core goes from `c0` to `c1` and `r` comes back.
pub open spec fn bgt_16_effect(c0: ConfiguredCore, c1: ConfiguredCore, r: Result<Cycles>) -> bool {
    if condition(c0, 14) {
        &&& c0.pc & 1 != 0 ==> r == Err::<Cycles, Exception>(c0.pc_error()) && c1 == c0
        &&& c0.pc & 1 == 0 ==> r == Ok::<Cycles, Exception>(Cycles(10)) && long_branch_done(c0, c1)
    } else {
        r == Ok::<Cycles, Exception>(Cycles(12)) && c1 == (ConfiguredCore { pc: wadd(c0.pc, 2), ..c0 })
    }
}

/// Bcc with a 16-bit displacement: taken when the condition holds, and
/// otherwise the displacement word is skipped.
pub fn bgt_16(core: &mut ConfiguredCore) -> (r: Result<Cycles>)
    requires
        old(core).wf(),
    ensures
        final(core).wf(),
        bgt_16_effect(*old(core), *final(core), r),
{
    if core.cond_gt() {
        let ghost c0 = *core;
        let offset = match core.read_imm_i16() {
            Ok(o) => o,
            Err(e) => {
                return Err(e);
            },
        };
        let ghost mid = *core;
        assert(ConfiguredCore::fetched(c0, mid, c0.after16()));
        core.pc = core.pc.wrapping_sub(2);
        core.branch_16(offset);
        Ok(Cycles(10))
    } else {
        core.pc = core.pc.wrapping_add(2);
        Ok(Cycles(12))
    }
}

/// What `ble_16` does: the core goes from `c0` to `c1` and `r` comes back.
pub open spec fn ble_16_effect(c0: ConfiguredCore, c1: ConfiguredCore, r: Result<Cycles>) -> bool {
    if condition(c0, 15) {
        &&& c0.pc & 1 != 0 ==> r == Err::<Cycles, Exception>(c0.pc_error()) && c1 == c0
        &&& c0.pc & 1 == 0 ==> r == Ok::<Cycles, Exception>(Cycles(10)) && long_branch_done(c0, c1)
    } else {
        r == Ok::<Cycles, Exception>(Cycles(12)) && c1 == (ConfiguredCore { pc: wadd(c0.pc, 2), ..c0 })
    }
}

/// Bcc with a 16-bit displacement: taken when the condition holds, and
/// otherwise the displacement word is skipped.
pub fn ble_16(core: &mut ConfiguredCore) -> (r: Result<Cycles>)
    requires
        old(core).wf(),
    ensures
        final(core).wf(),
        ble_16_effect(*old(core), *final(core), r),
{
    if core.cond_le() {
        let ghost c0 = *core;
        let offset = match core.read_imm_i16() {
            Ok(o) => o,
            Err(e) => {
                return Err(e);
            },
        };
        let ghost mid = *core;
        assert(ConfiguredCore::fetched(c0, mid, c0.after16()));
        core.pc = core.pc.wrapping_sub(2);
        core.branch_16(offset);
        Ok(Cycles(10))
    } else {
        core.pc = core.pc.wrapping_add(2);
        Ok(Cycles(12))
    }
}

/// What `dbt_16` does: the core goes from `c0` to `c1` and `r` comes back.
pub open spec fn dbt_16_effect(c0: ConfiguredCore, c1: ConfiguredCore, r: Result<Cycles>) -> bool {
    if condition(c0, 0) {
        r == Ok::<Cycles, Exception>(Cycles(12)) && c1 == (ConfiguredCore { pc: wadd(c0.pc, 2), ..c0 })
    } else {
        let reg = ir_dy(c0.ir);
        let dst = c0.dar[reg];
        let res = wsub(dst, 1) & 0xffff;
        exists|m1: ConfiguredCore|
            #[trigger] reg_set(c0, m1, reg, merged(dst, res, 16)) && if res != 0xffff {
                &&& m1.pc & 1 != 0 ==> r == Err::<Cycles, Exception>(m1.pc_error()) && c1 == m1
                &&& m1.pc & 1 == 0 ==> r == Ok::<Cycles, Exception>(Cycles(10)) && long_branch_done(m1, c1)
            } else {
                r == Ok::<Cycles, Exception>(Cycles(14)) && c1 == (ConfiguredCore { pc: wadd(m1.pc, 2), ..m1 })
            }
    }
}

/// DBcc: unless the condition holds, the low word of Dy counts down, and
/// the branch is taken until it passes zero.
pub fn dbt_16(core: &mut ConfiguredCore) -> (r: Result<Cycles>)
    requires
        old(core).wf(),
    ensures
        final(core).wf(),
        dbt_16_effect(*old(core), *final(core), r),
{
    if !core.cond_t() {
        let ghost c0 = *core;
        let reg = reg_dy(core.ir);
        let dst = core.dar[reg];
        let res = dst.wrapping_sub(1) & 0xffff;
        assert(dst.wrapping_sub(1) == wsub(dst, 1));
        set_reg(core, reg, merge(dst, res, 16));
        let ghost m1 = *core;
        assert(reg_set(c0, m1, ir_dy(c0.ir), merged(dst, res, 16)));
        if res != 0xffff {
            let offset = match core.read_imm_i16() {
                Ok(o) => o,
                Err(e) => {
                    return Err(e);
                },
            };
            let ghost mid = *core;
            assert(ConfiguredCore::fetched(m1, mid, m1.after16()));
            core.pc = core.pc.wrapping_sub(2);
            core.branch_16(offset);
            Ok(Cycles(10))
        } else {
            core.pc = core.pc.wrapping_add(2);
            Ok(Cycles(14))
        }
    } else {
        core.pc = core.pc.wrapping_add(2);
        Ok(Cycles(12))
    }
}

/// What `dbf_16` does: the core goes from `c0` to `c1` and `r` comes back.
pub open spec fn dbf_16_effect(c0: ConfiguredCore, c1: ConfiguredCore, r: Result<Cycles>) -> bool {
    if condition(c0, 1) {
        r == Ok::<Cycles, Exception>(Cycles(12)) && c1 == (ConfiguredCore { pc: wadd(c0.pc, 2), ..c0 })
    } else {
        let reg = ir_dy(c0.ir);
        let dst = c0.dar[reg];
        let res = wsub(dst, 1) & 0xffff;
        exists|m1: ConfiguredCore|
            #[trigger] reg_set(c0, m1, reg, merged(dst, res, 16)) && if res != 0xffff {
                &&& m1.pc & 1 != 0 ==> r == Err::<Cycles, Exception>(m1.pc_error()) && c1 == m1
                &&& m1.pc & 1 == 0 ==> r == Ok::<Cycles, Exception>(Cycles(10)) && long_branch_done(m1, c1)
            } else {
                r == Ok::<Cycles, Exception>(Cycles(14)) && c1 == (ConfiguredCore { pc: wadd(m1.pc, 2), ..m1 })
            }
    }
}

/// DBcc: unless the condition holds, the low word of Dy counts down, and
/// the branch is taken until it passes zero.
pub fn dbf_16(core: &mut ConfiguredCore) -> (r: Result<Cycles>)
    requires
        old(core).wf(),
    ensures
        final(core).wf(),
        dbf_16_effect(*old(core), *final(core), r),
{
    if !core.cond_f() {
        let ghost c0 = *core;
        let reg = reg_dy(core.ir);
        let dst = core.dar[reg];
        let res = dst.wrapping_sub(1) & 0xffff;
        assert(dst.wrapping_sub(1) == wsub(dst, 1));
        set_reg(core, reg, merge(dst, res, 16));
        let ghost m1 = *core;
        assert(reg_set(c0, m1, ir_dy(c0.ir), merged(dst, res, 16)));
        if res != 0xffff {
            let offset = match core.read_imm_i16() {
                Ok(o) => o,
                Err(e) => {
                    return Err(e);
                },
            };
            let ghost mid = *core;
            assert(ConfiguredCore::fetched(m1, mid, m1.after16()));
            core.pc = core.pc.wrapping_sub(2);
            core.branch_16(offset);
            Ok(Cycles(10))
        } else {
            core.pc = core.pc.wrapping_add(2);
            Ok(Cycles(14))
        }
    } else {
        core.pc = core.pc.wrapping_add(2);
        Ok(Cycles(12))
    }
}

/// What `dbhi_16` does: the core goes from `c0` to `c1` and `r` comes back.
pub open spec fn dbhi_16_effect(c0: ConfiguredCore, c1: ConfiguredCore, r: Result<Cycles>) -> bool {
    if condition(c0, 2) {
        r == Ok::<Cycles, Exception>(Cycles(12)) && c1 == (ConfiguredCore { pc: wadd(c0.pc, 2), ..c0 })
    } else {
        let reg = ir_dy(c0.ir);
        let dst = c0.dar[reg];
        let res = wsub(dst, 1) & 0xffff;
        exists|m1: ConfiguredCore|
            #[trigger] reg_set(c0, m1, reg, merged(dst, res, 16)) && if res != 0xffff {
                &&& m1.pc & 1 != 0 ==> r == Err::<Cycles, Exception>(m1.pc_error()) && c1 == m1
                &&& m1.pc & 1 == 0 ==> r == Ok::<Cycles, Exception>(Cycles(10)) && long_branch_done(m1, c1)
            } else {
                r == Ok::<Cycles, Exception>(Cycles(14)) && c1 == (ConfiguredCore { pc: wadd(m1.pc, 2), ..m1 })
            }
    }
}

/// DBcc: unless the condition holds, the low word of Dy counts down, and
/// the branch is taken until it passes zero.
pub fn dbhi_16(core: &mut ConfiguredCore) -> (r: Result<Cycles>)
    requires
        old(core).wf(),
    ensures
        final(core).wf(),
        dbhi_16_effect(*old(core), *final(core), r),
{
    if !core.cond_hi() {
        let ghost c0 = *core;
        let reg = reg_dy(core.ir);
        let dst = core.dar[reg];
        let res = dst.wrapping_sub(1) & 0xffff;
        assert(dst.wrapping_sub(1) == wsub(dst, 1));
        set_reg(core, reg, merge(dst, res, 16));
        let ghost m1 = *core;
        assert(reg_set(c0, m1, ir_dy(c0.ir), merged(dst, res, 16)));
        if res != 0xffff {
            let offset = match core.read_imm_i16() {
                Ok(o) => o,
                Err(e) => {
                    return Err(e);
                },
            };
            let ghost mid = *core;
            assert(ConfiguredCore::fetched(m1, mid, m1.after16()));
            core.pc = core.pc.wrapping_sub(2);
            core.branch_16(offset);
            Ok(Cycles(10))
        } else {
            core.pc = core.pc.wrapping_add(2);
            Ok(Cycles(14))
        }
    } else {
        core.pc = core.pc.wrapping_add(2);
        Ok(Cycles(12))
    }
}

/// What `dbls_16` does: the core goes from `c0` to `c1` and `r` comes back.
pub open spec fn dbls_16_effect(c0: ConfiguredCore, c1: ConfiguredCore, r: Result<Cycles>) -> bool {
    if condition(c0, 3) {
        r == Ok::<Cycles, Exception>(Cycles(12)) && c1 == (ConfiguredCore { pc: wadd(c0.pc, 2), ..c0 })
    } else {
        let reg = ir_dy(c0.ir);
        let dst = c0.dar[reg];
        let res = wsub(dst, 1) & 0xffff;
        exists|m1: ConfiguredCore|
            #[trigger] reg_set(c0, m1, reg, merged(dst, res, 16)) && if res != 0xffff {
                &&& m1.pc & 1 != 0 ==> r == Err::<Cycles, Exception>(m1.pc_error()) && c1 == m1
                &&& m1.pc & 1 == 0 ==> r == Ok::<Cycles, Exception>(Cycles(10)) && long_branch_done(m1, c1)
            } else {
                r == Ok::<Cycles, Exception>(Cycles(14)) && c1 == (ConfiguredCore { pc: wadd(m1.pc, 2), ..m1 })
            }
    }
}

/// DBcc: unless the condition holds, the low word of Dy counts down, and
/// the branch is taken until it passes zero.
pub fn dbls_16(core: &mut ConfiguredCore) -> (r: Result<Cycles>)
    requires
        old(core).wf(),
    ensures
        final(core).wf(),
        dbls_16_effect(*old(core), *final(core), r),
{
    if !core.cond_ls() {
        let ghost c0 = *core;
        let reg = reg_dy(core.ir);
        let dst = core.dar[reg];
        let res = dst.wrapping_sub(1) & 0xffff;
        assert(dst.wrapping_sub(1) == wsub(dst, 1));
        set_reg(core, reg, merge(dst, res, 16));
        let ghost m1 = *core;
        assert(reg_set(c0, m1, ir_dy(c0.ir), merged(dst, res, 16)));
        if res != 0xffff {
            let offset = match core.read_imm_i16() {
                Ok(o) => o,
                Err(e) => {
                    return Err(e);
                },
            };
            let ghost mid = *core;
            assert(ConfiguredCore::fetched(m1, mid, m1.after16()));
            core.pc = core.pc.wrapping_sub(2);
            core.branch_16(offset);
            Ok(Cycles(10))
        } else {
            core.pc = core.pc.wrapping_add(2);
            Ok(Cycles(14))
        }
    } else {
        core.pc = core.pc.wrapping_add(2);
        Ok(Cycles(12))
    }
}

/// What `dbcc_16` does: the core goes from `c0` to `c1` and `r` comes back.
pub open spec fn dbcc_16_effect(c0: ConfiguredCore, c1: ConfiguredCore, r: Result<Cycles>) -> bool {
    if condition(c0, 4) {
        r == Ok::<Cycles, Exception>(Cycles(12)) && c1 == (ConfiguredCore { pc: wadd(c0.pc, 2), ..c0 })
    } else {
        let reg = ir_dy(c0.ir);
        let dst = c0.dar[reg];
        let res = wsub(dst, 1) & 0xffff;
        exists|m1: ConfiguredCore|
            #[trigger] reg_set(c0, m1, reg, merged(dst, res, 16)) && if res != 0xffff {
                &&& m1.pc & 1 != 0 ==> r == Err::<Cycles, Exception>(m1.pc_error()) && c1 == m1
                &&& m1.pc & 1 == 0 ==> r == Ok::<Cycles, Exception>(Cycles(10)) && long_branch_done(m1, c1)
            } else {
                r == Ok::<Cycles, Exception>(Cycles(14)) && c1 == (ConfiguredCore { pc: wadd(m1.pc, 2), ..m1 })
            }
    }
}

/// DBcc: unless the condition holds, the low word of Dy counts down, and
/// the branch is taken until it passes zero.
pub fn dbcc_16(core: &mut ConfiguredCore) -> (r: Result<Cycles>)
    requires
        old(core).wf(),
    ensures
        final(core).wf(),
        dbcc_16_effect(*old(core), *final(core), r),
{
    if !core.cond_cc() {
        let ghost c0 = *core;
        let reg = reg_dy(core.ir);
        let dst = core.dar[reg];
        let res = dst.wrapping_sub(1) & 0xffff;
        assert(dst.wrapping_sub(1) == wsub(dst, 1));
        set_reg(core, reg, merge(dst, res, 16));
        let ghost m1 = *core;
        assert(reg_set(c0, m1, ir_dy(c0.ir), merged(dst, res, 16)));
        if res != 0xffff {
            let offset = match core.read_imm_i16() {
                Ok(o) => o,
                Err(e) => {
                    return Err(e);
                },
            };
            let ghost mid = *core;
            assert(ConfiguredCore::fetched(m1, mid, m1.after16()));
            core.pc = core.pc.wrapping_sub(2);
            core.branch_16(offset);
            Ok(Cycles(10))
        } else {
            core.pc = core.pc.wrapping_add(2);
            Ok(Cycles(14))
        }
    } else {
        core.pc = core.pc.wrapping_add(2);
        Ok(Cycles(12))
    }
}

/// What `dbcs_16` does: the core goes from `c0` to `c1` and `r` comes back.
pub open spec fn dbcs_16_effect(c0: ConfiguredCore, c1: ConfiguredCore, r: Result<Cycles>) -> bool {
    if condition(c0, 5) {
        r == Ok::<Cycles, Exception>(Cycles(12)) && c1 == (ConfiguredCore { pc: wadd(c0.pc, 2), ..c0 })
    } else {
        let reg = ir_dy(c0.ir);
        let dst = c0.dar[reg];
        let res = wsub(dst, 1) & 0xffff;
        exists|m1: ConfiguredCore|
            #[trigger] reg_set(c0, m1, reg, merged(dst, res, 16)) && if res != 0xffff {
                &&& m1.pc & 1 != 0 ==> r == Err::<Cycles, Exception>(m1.pc_error()) && c1 == m1
                &&& m1.pc & 1 == 0 ==> r == Ok::<Cycles, Exception>(Cycles(10)) && long_branch_done(m1, c1)
            } else {
                r == Ok::<Cycles, Exception>(Cycles(14)) && c1 == (ConfiguredCore { pc: wadd(m1.pc, 2), ..m1 })
            }
    }
}

/// DBcc: unless the condition holds, the low word of Dy counts down, and
/// the branch is taken until it passes zero.
pub fn dbcs_16(core: &mut ConfiguredCore) -> (r: Result<Cycles>)
    requires
        old(core).wf(),
    ensures
        final(core).wf(),
        dbcs_16_effect(*old(core), *final(core), r),
{
    if !core.cond_cs() {
        let ghost c0 = *core;
        let reg = reg_dy(core.ir);
        let dst = core.dar[reg];
        let res = dst.wrapping_sub(1) & 0xffff;
        assert(dst.wrapping_sub(1) == wsub(dst, 1));
        set_reg(core, reg, merge(dst, res, 16));
        let ghost m1 = *core;
        assert(reg_set(c0, m1, ir_dy(c0.ir), merged(dst, res, 16)));
        if res != 0xffff {
            let offset = match core.read_imm_i16() {
                Ok(o) => o,
                Err(e) => {
                    return Err(e);
                },
            };
            let ghost mid = *core;
            assert(ConfiguredCore::fetched(m1, mid, m1.after16()));
            core.pc = core.pc.wrapping_sub(2);
            core.branch_16(offset);
            Ok(Cycles(10))
        } else {
            core.pc = core.pc.wrapping_add(2);
            Ok(Cycles(14))
        }
    } else {
        core.pc = core.pc.wrapping_add(2);
        Ok(Cycles(12))
    }
}

/// What `dbne_16` does: the core goes from `c0` to `c1` and `r` comes back.
pub open spec fn dbne_16_effect(c0: ConfiguredCore, c1: ConfiguredCore, r: Result<Cycles>) -> bool {
    if condition(c0, 6) {
        r == Ok::<Cycles, Exception>(Cycles(12)) && c1 == (ConfiguredCore { pc: wadd(c0.pc, 2), ..c0 })
    } else {
        let reg = ir_dy(c0.ir);
        let dst = c0.dar[reg];
        let res = wsub(dst, 1) & 0xffff;
        exists|m1: ConfiguredCore|
            #[trigger] reg_set(c0, m1, reg, merged(dst, res, 16)) && if res != 0xffff {
                &&& m1.pc & 1 != 0 ==> r == Err::<Cycles, Exception>(m1.pc_error()) && c1 == m1
                &&& m1.pc & 1 == 0 ==> r == Ok::<Cycles, Exception>(Cycles(10)) && long_branch_done(m1, c1)
            } else {
                r == Ok::<Cycles, Exception>(Cycles(14)) && c1 == (ConfiguredCore { pc: wadd(m1.pc, 2), ..m1 })
            }
    }
}

/// DBcc: unless the condition holds, the low word of Dy counts down, and
/// the branch is taken until it passes zero.
pub fn dbne_16(core: &mut ConfiguredCore) -> (r: Result<Cycles>)
    requires
        old(core).wf(),
    ensures
        final(core).wf(),
        dbne_16_effect(*old(core), *final(core), r),
{
    if !core.cond_ne() {
        let ghost c0 = *core;
        let reg = reg_dy(core.ir);
        let dst = core.dar[reg];
        let res = dst.wrapping_sub(1) & 0xffff;
        assert(dst.wrapping_sub(1) == wsub(dst, 1));
        set_reg(core, reg, merge(dst, res, 16));
        let ghost m1 = *core;
        assert(reg_set(c0, m1, ir_dy(c0.ir), merged(dst, res, 16)));
        if res != 0xffff {
            let offset = match core.read_imm_i16() {
                Ok(o) => o,
                Err(e) => {
                    return Err(e);
                },
            };
            let ghost mid = *core;
            assert(ConfiguredCore::fetched(m1, mid, m1.after16()));
            core.pc = core.pc.wrapping_sub(2);
            core.branch_16(offset);
            Ok(Cycles(10))
        } else {
            core.pc = core.pc.wrapping_add(2);
            Ok(Cycles(14))
        }
    } else {
        core.pc = core.pc.wrapping_add(2);
        Ok(Cycles(12))
    }
}

/// What `dbeq_16` does: the core goes from `c0` to `c1` and `r` comes back.
pub open spec fn dbeq_16_effect(c0: ConfiguredCore, c1: ConfiguredCore, r: Result<Cycles>) -> bool {
    if condition(c0, 7) {
        r == Ok::<Cycles, Exception>(Cycles(12)) && c1 == (ConfiguredCore { pc: wadd(c0.pc, 2), ..c0 })
    } else {
        let reg = ir_dy(c0.ir);
        let dst = c0.dar[reg];
        let res = wsub(dst, 1) & 0xffff;
        exists|m1: ConfiguredCore|
            #[trigger] reg_set(c0, m1, reg, merged(dst, res, 16)) && if res != 0xffff {
                &&& m1.pc & 1 != 0 ==> r == Err::<Cycles, Exception>(m1.pc_error()) && c1 == m1
                &&& m1.pc & 1 == 0 ==> r == Ok::<Cycles, Exception>(Cycles(10)) && long_branch_done(m1, c1)
            } else {
                r == Ok::<Cycles, Exception>(Cycles(14)) && c1 == (ConfiguredCore { pc: wadd(m1.pc, 2), ..m1 })
            }
    }
}

/// DBcc: unless the condition holds, the low word of Dy counts down, and
/// the branch is taken until it passes zero.
pub fn dbeq_16(core: &mut ConfiguredCore) -> (r: Result<Cycles>)
    requires
        old(core).wf(),
    ensures
        final(core).wf(),
        dbeq_16_effect(*old(core), *final(core), r),
{
    if !core.cond_eq() {
        let ghost c0 = *core;
        let reg = reg_dy(core.ir);
        let dst = core.dar[reg];
        let res = dst.wrapping_sub(1) & 0xffff;
        assert(dst.wrapping_sub(1) == wsub(dst, 1));
        set_reg(core, reg, merge(dst, res, 16));
        let ghost m1 = *core;
        assert(reg_set(c0, m1, ir_dy(c0.ir), merged(dst, res, 16)));
        if res != 0xffff {
            let offset = match core.read_imm_i16() {
                Ok(o) => o,
                Err(e) => {
                    return Err(e);
                },
            };
            let ghost mid = *core;
            assert(ConfiguredCore::fetched(m1, mid, m1.after16()));
            core.pc = core.pc.wrapping_sub(2);
            core.branch_16(offset);
            Ok(Cycles(10))
        } else {
            core.pc = core.pc.wrapping_add(2);
            Ok(Cycles(14))
        }
    } else {
        core.pc = core.pc.wrapping_add(2);
        Ok(Cycles(12))
    }
}

/// What `dbvc_16` does: the core goes from `c0` to `c1` and `r` comes back.
pub open spec fn dbvc_16_effect(c0: ConfiguredCore, c1: ConfiguredCore, r: Result<Cycles>) -> bool {
    if condition(c0, 8) {
        r == Ok::<Cycles, Exception>(Cycles(12)) && c1 == (ConfiguredCore { pc: wadd(c0.pc, 2), ..c0 })
    } else {
        let reg = ir_dy(c0.ir);
        let dst = c0.dar[reg];
        let res = wsub(dst, 1) & 0xffff;
        exists|m1: ConfiguredCore|
            #[trigger] reg_set(c0, m1, reg, merged(dst, res, 16)) && if res != 0xffff {
                &&& m1.pc & 1 != 0 ==> r == Err::<Cycles, Exception>(m1.pc_error()) && c1 == m1
                &&& m1.pc & 1 == 0 ==> r == Ok::<Cycles, Exception>(Cycles(10)) && long_branch_done(m1, c1)
            } else {
                r == Ok::<Cycles, Exception>(Cycles(14)) && c1 == (ConfiguredCore { pc: wadd(m1.pc, 2), ..m1 })
            }
    }
}

/// DBcc: unless the condition holds, the low word of Dy counts down, and
/// the branch is taken until it passes zero.
pub fn dbvc_16(core: &mut ConfiguredCore) -> (r: Result<Cycles>)
    requires
        old(core).wf(),
    ensures
        final(core).wf(),
        dbvc_16_effect(*old(core), *final(core), r),
{
    if !core.cond_vc() {
        let ghost c0 = *core;
        let reg = reg_dy(core.ir);
        let dst = core.dar[reg];
        let res = dst.wrapping_sub(1) & 0xffff;
        assert(dst.wrapping_sub(1) == wsub(dst, 1));
        set_reg(core, reg, merge(dst, res, 16));
        let ghost m1 = *core;
        assert(reg_set(c0, m1, ir_dy(c0.ir), merged(dst, res, 16)));
        if res != 0xffff {
            let offset = match core.read_imm_i16() {
                Ok(o) => o,
                Err(e) => {
                    return Err(e);
                },
            };
            let ghost mid = *core;
            assert(ConfiguredCore::fetched(m1, mid, m1.after16()));
            core.pc = core.pc.wrapping_sub(2);
            core.branch_16(offset);
            Ok(Cycles(10))
        } else {
            core.pc = core.pc.wrapping_add(2);
            Ok(Cycles(14))
        }
    } else {
        core.pc = core.pc.wrapping_add(2);
        Ok(Cycles(12))
    }
}

/// What `dbvs_16` does: the core goes from `c0` to `c1` and `r` comes back.
pub open spec fn dbvs_16_effect(c0: ConfiguredCore, c1: ConfiguredCore, r: Result<Cycles>) -> bool {
    if condition(c0, 9) {
        r == Ok::<Cycles, Exception>(Cycles(12)) && c1 == (ConfiguredCore { pc: wadd(c0.pc, 2), ..c0 })
    } else {
        let reg = ir_dy(c0.ir);
        let dst = c0.dar[reg];
        let res = wsub(dst, 1) & 0xffff;
        exists|m1: ConfiguredCore|
            #[trigger] reg_set(c0, m1, reg, merged(dst, res, 16)) && if res != 0xffff {
                &&& m1.pc & 1 != 0 ==> r == Err::<Cycles, Exception>(m1.pc_error()) && c1 == m1
                &&& m1.pc & 1 == 0 ==> r == Ok::<Cycles, Exception>(Cycles(10)) && long_branch_done(m1, c1)
            } else {
                r == Ok::<Cycles, Exception>(Cycles(14)) && c1 == (ConfiguredCore { pc: wadd(m1.pc, 2), ..m1 })
            }
    }
}

/// DBcc: unless the condition holds, the low word of Dy counts down, and
/// the branch is taken until it passes zero.
pub fn dbvs_16(core: &mut ConfiguredCore) -> (r: Result<Cycles>)
    requires
        old(core).wf(),
    ensures
        final(core).wf(),
        dbvs_16_effect(*old(core), *final(core), r),
{
    if !core.cond_vs() {
        let ghost c0 = *core;
        let reg = reg_dy(core.ir);
        let dst = core.dar[reg];
        let res = dst.wrapping_sub(1) & 0xffff;
        assert(dst.wrapping_sub(1) == wsub(dst, 1));
        set_reg(core, reg, merge(dst, res, 16));
        let ghost m1 = *core;
        assert(reg_set(c0, m1, ir_dy(c0.ir), merged(dst, res, 16)));
        if res != 0xffff {
            let offset = match core.read_imm_i16() {
                Ok(o) => o,
                Err(e) => {
                    return Err(e);
                },
            };
            let ghost mid = *core;
            assert(ConfiguredCore::fetched(m1, mid, m1.after16()));
            core.pc = core.pc.wrapping_sub(2);
            core.branch_16(offset);
            Ok(Cycles(10))
        } else {
            core.pc = core.pc.wrapping_add(2);
            Ok(Cycles(14))
        }
    } else {
        core.pc = core.pc.wrapping_add(2);
        Ok(Cycles(12))
    }
}

/// What `dbpl_16` does: the core goes from `c0` to `c1` and `r` comes back.
pub open spec fn dbpl_16_effect(c0: ConfiguredCore, c1: ConfiguredCore, r: Result<Cycles>) -> bool {
    if condition(c0, 10) {
        r == Ok::<Cycles, Exception>(Cycles(12)) && c1 == (ConfiguredCore { pc: wadd(c0.pc, 2), ..c0 })
    } else {
        let reg = ir_dy(c0.ir);
        let dst = c0.dar[reg];
        let res = wsub(dst, 1) & 0xffff;
        exists|m1: ConfiguredCore|
            #[trigger] reg_set(c0, m1, reg, merged(dst, res, 16)) && if res != 0xffff {
                &&& m1.pc & 1 != 0 ==> r == Err::<Cycles, Exception>(m1.pc_error()) && c1 == m1
                &&& m1.pc & 1 == 0 ==> r == Ok::<Cycles, Exception>(Cycles(10)) && long_branch_done(m1, c1)
            } else {
                r == Ok::<Cycles, Exception>(Cycles(14)) && c1 == (ConfiguredCore { pc: wadd(m1.pc, 2), ..m1 })
            }
    }
}

/// DBcc: unless the condition holds, the low word of Dy counts down, and
/// the branch is taken until it passes zero.
pub fn dbpl_16(core: &mut ConfiguredCore) -> (r: Result<Cycles>)
    requires
        old(core).wf(),
    ensures
        final(core).wf(),
        dbpl_16_effect(*old(core), *final(core), r),
{
    if !core.cond_pl() {
        let ghost c0 = *core;
        let reg = reg_dy(core.ir);
        let dst = core.dar[reg];
        let res = dst.wrapping_sub(1) & 0xffff;
        assert(dst.wrapping_sub(1) == wsub(dst, 1));
        set_reg(core, reg, merge(dst, res, 16));
        let ghost m1 = *core;
        assert(reg_set(c0, m1, ir_dy(c0.ir), merged(dst, res, 16)));
        if res != 0xffff {
            let offset = match core.read_imm_i16() {
                Ok(o) => o,
                Err(e) => {
                    return Err(e);
                },
            };
            let ghost mid = *core;
            assert(ConfiguredCore::fetched(m1, mid, m1.after16()));
            core.pc = core.pc.wrapping_sub(2);
            core.branch_16(offset);
            Ok(Cycles(10))
        } else {
            core.pc = core.pc.wrapping_add(2);
            Ok(Cycles(14))
        }
    } else {
        core.pc = core.pc.wrapping_add(2);
        Ok(Cycles(12))
    }
}

/// What `dbmi_16` does: the core goes from `c0` to `c1` and `r` comes back.
pub open spec fn dbmi_16_effect(c0: ConfiguredCore, c1: ConfiguredCore, r: Result<Cycles>) -> bool {
    if condition(c0, 11) {
        r == Ok::<Cycles, Exception>(Cycles(12)) && c1 == (ConfiguredCore { pc: wadd(c0.pc, 2), ..c0 })
    } else {
        let reg = ir_dy(c0.ir);
        let dst = c0.dar[reg];
        let res = wsub(dst, 1) & 0xffff;
        exists|m1: ConfiguredCore|
            #[trigger] reg_set(c0, m1, reg, merged(dst, res, 16)) && if res != 0xffff {
                &&& m1.pc & 1 != 0 ==> r == Err::<Cycles, Exception>(m1.pc_error()) && c1 == m1
                &&& m1.pc & 1 == 0 ==> r == Ok::<Cycles, Exception>(Cycles(10)) && long_branch_done(m1, c1)
            } else {
                r == Ok::<Cycles, Exception>(Cycles(14)) && c1 == (ConfiguredCore { pc: wadd(m1.pc, 2), ..m1 })
            }
    }
}

/// DBcc: unless the condition holds, the low word of Dy counts down, and
/// the branch is taken until it passes zero.
pub fn dbmi_16(core: &mut ConfiguredCore) -> (r: Result<Cycles>)
    requires
        old(core).wf(),
    ensures
        final(core).wf(),
        dbmi_16_effect(*old(core), *final(core), r),
{
    if !core.cond_mi() {
        let ghost c0 = *core;
        let reg = reg_dy(core.ir);
        let dst = core.dar[reg];
        let res = dst.wrapping_sub(1) & 0xffff;
        assert(dst.wrapping_sub(1) == wsub(dst, 1));
        set_reg(core, reg, merge(dst, res, 16));
        let ghost m1 = *core;
        assert(reg_set(c0, m1, ir_dy(c0.ir), merged(dst, res, 16)));
        if res != 0xffff {
            let offset = match core.read_imm_i16() {
                Ok(o) => o,
                Err(e) => {
                    return Err(e);
                },
            };
            let ghost mid = *core;
            assert(ConfiguredCore::fetched(m1, mid, m1.after16()));
            core.pc = core.pc.wrapping_sub(2);
            core.branch_16(offset);
            Ok(Cycles(10))
        } else {
            core.pc = core.pc.wrapping_add(2);
            Ok(Cycles(14))
        }
    } else {
        core.pc = core.pc.wrapping_add(2);
        Ok(Cycles(12))
    }
}

/// What `dbge_16` does: the core goes from `c0` to `c1` and `r` comes back.
pub open spec fn dbge_16_effect(c0: ConfiguredCore, c1: ConfiguredCore, r: Result<Cycles>) -> bool {
    if condition(c0, 12) {
        r == Ok::<Cycles, Exception>(Cycles(12)) && c1 == (ConfiguredCore { pc: wadd(c0.pc, 2), ..c0 })
    } else {
        let reg = ir_dy(c0.ir);
        let dst = c0.dar[reg];
        let res = wsub(dst, 1) & 0xffff;
        exists|m1: ConfiguredCore|
            #[trigger] reg_set(c0, m1, reg, merged(dst, res, 16)) && if res != 0xffff {
                &&& m1.pc & 1 != 0 ==> r == Err::<Cycles, Exception>(m1.pc_error()) && c1 == m1
                &&& m1.pc & 1 == 0 ==> r == Ok::<Cycles, Exception>(Cycles(10)) && long_branch_done(m1, c1)
            } else {
                r == Ok::<Cycles, Exception>(Cycles(14)) && c1 == (ConfiguredCore { pc: wadd(m1.pc, 2), ..m1 })
            }
    }
}

/// DBcc: unless the condition holds, the low word of Dy counts down, and
/// the branch is taken until it passes zero.
pub fn dbge_16(core: &mut ConfiguredCore) -> (r: Result<Cycles>)
    requires
        old(core).wf(),
    ensures
        final(core).wf(),
        dbge_16_effect(*old(core), *final(core), r),
{
    if !core.cond_ge() {
        let ghost c0 = *core;
        let reg = reg_dy(core.ir);
        let dst = core.dar[reg];
        let res = dst.wrapping_sub(1) & 0xffff;
        assert(dst.wrapping_sub(1) == wsub(dst, 1));
        set_reg(core, reg, merge(dst, res, 16));
        let ghost m1 = *core;
        assert(reg_set(c0, m1, ir_dy(c0.ir), merged(dst, res, 16)));
        if res != 0xffff {
            let offset = match core.read_imm_i16() {
                Ok(o) => o,
                Err(e) => {
                    return Err(e);
                },
            };
            let ghost mid = *core;
            assert(ConfiguredCore::fetched(m1, mid, m1.after16()));
            core.pc = core.pc.wrapping_sub(2);
            core.branch_16(offset);
            Ok(Cycles(10))
        } else {
            core.pc = core.pc.wrapping_add(2);
            Ok(Cycles(14))
        }
    } else {
        core.pc = core.pc.wrapping_add(2);
        Ok(Cycles(12))
    }
}

/// What `dblt_16` does: the core goes from `c0` to `c1` and `r` comes back.
pub open spec fn dblt_16_effect(c0: ConfiguredCore, c1: ConfiguredCore, r: Result<Cycles>) -> bool {
    if condition(c0, 13) {
        r == Ok::<Cycles, Exception>(Cycles(12)) && c1 == (ConfiguredCore { pc: wadd(c0.pc, 2), ..c0 })
    } else {
        let reg = ir_dy(c0.ir);
        let dst = c0.dar[reg];
        let res = wsub(dst, 1) & 0xffff;
        exists|m1: ConfiguredCore|
            #[trigger] reg_set(c0, m1, reg, merged(dst, res, 16)) && if res != 0xffff {
                &&& m1.pc & 1 != 0 ==> r == Err::<Cycles, Exception>(m1.pc_error()) && c1 == m1
                &&& m1.pc & 1 == 0 ==> r == Ok::<Cycles, Exception>(Cycles(10)) && long_branch_done(m1, c1)
            } else {
                r == Ok::<Cycles, Exception>(Cycles(14)) && c1 == (ConfiguredCore { pc: wadd(m1.pc, 2), ..m1 })
            }
    }
}

/// DBcc: unless the condition holds, the low word of Dy counts down, and
/// the branch is taken until it passes zero.
pub fn dblt_16(core: &mut ConfiguredCore) -> (r: Result<Cycles>)
    requires
        old(core).wf(),
    ensures
        final(core).wf(),
        dblt_16_effect(*old(core), *final(core), r),
{
    if !core.cond_lt() {
        let ghost c0 = *core;
        let reg = reg_dy(core.ir);
        let dst = core.dar[reg];
        let res = dst.wrapping_sub(1) & 0xffff;
        assert(dst.wrapping_sub(1) == wsub(dst, 1));
        set_reg(core, reg, merge(dst, res, 16));
        let ghost m1 = *core;
        assert(reg_set(c0, m1, ir_dy(c0.ir), merged(dst, res, 16)));
        if res != 0xffff {
            let offset = match core.read_imm_i16() {
                Ok(o) => o,
                Err(e) => {
                    return Err(e);
                },
            };
            let ghost mid = *core;
            assert(ConfiguredCore::fetched(m1, mid, m1.after16()));
            core.pc = core.pc.wrapping_sub(2);
            core.branch_16(offset);
            Ok(Cycles(10))
        } else {
            core.pc = core.pc.wrapping_add(2);
            Ok(Cycles(14))
        }
    } else {
        core.pc = core.pc.wrapping_add(2);
        Ok(Cycles(12))
    }
}

/// What `dbgt_16` does: the core goes from `c0` to `c1` and `r` comes back.
pub open spec fn dbgt_16_effect(c0: ConfiguredCore, c1: ConfiguredCore, r: Result<Cycles>) -> bool {
    if condition(c0, 14) {
        r == Ok::<Cycles, Exception>(Cycles(12)) && c1 == (ConfiguredCore { pc: wadd(c0.pc, 2), ..c0 })
    } else {
        let reg = ir_dy(c0.ir);
        let dst = c0.dar[reg];
        let res = wsub(dst, 1) & 0xffff;
        exists|m1: ConfiguredCore|
            #[trigger] reg_set(c0, m1, reg, merged(dst, res, 16)) && if res != 0xffff {
                &&& m1.pc & 1 != 0 ==> r == Err::<Cycles, Exception>(m1.pc_error()) && c1 == m1
                &&& m1.pc & 1 == 0 ==> r == Ok::<Cycles, Exception>(Cycles(10)) && long_branch_done(m1, c1)
            } else {
                r == Ok::<Cycles, Exception>(Cycles(14)) && c1 == (ConfiguredCore { pc: wadd(m1.pc, 2), ..m1 })
            }
    }
}

/// DBcc: unless the condition holds, the low word of Dy counts down, and
/// the branch is taken until it passes zero.
pub fn dbgt_16(core: &mut ConfiguredCore) -> (r: Result<Cycles>)
    requires
        old(core).wf(),
    ensures
        final(core).wf(),
        dbgt_16_effect(*old(core), *final(core), r),
{
    if !core.cond_gt() {
        let ghost c0 = *core;
        let reg = reg_dy(core.ir);
        let dst = core.dar[reg];
        let res = dst.wrapping_sub(1) & 0xffff;
        assert(dst.wrapping_sub(1) == wsub(dst, 1));
        set_reg(core, reg, merge(dst, res, 16));
        let ghost m1 = *core;
        assert(reg_set(c0, m1, ir_dy(c0.ir), merged(dst, res, 16)));
        if res != 0xffff {
            let offset = match core.read_imm_i16() {
                Ok(o) => o,
                Err(e) => {
                    return Err(e);
                },
            };
            let ghost mid = *core;
            assert(ConfiguredCore::fetched(m1, mid, m1.after16()));
            core.pc = core.pc.wrapping_sub(2);
            core.branch_16(offset);
            Ok(Cycles(10))
        } else {
            core.pc = core.pc.wrapping_add(2);
            Ok(Cycles(14))
        }
    } else {
        core.pc = core.pc.wrapping_add(2);
        Ok(Cycles(12))
    }
}

/// What `dble_16` does: the core goes from `c0` to `c1` and `r` comes back.
pub open spec fn dble_16_effect(c0: ConfiguredCore, c1: ConfiguredCore, r: Result<Cycles>) -> bool {
    if condition(c0, 15) {
        r == Ok::<Cycles, Exception>(Cycles(12)) && c1 == (ConfiguredCore { pc: wadd(c0.pc, 2), ..c0 })
    } else {
        let reg = ir_dy(c0.ir);
        let dst = c0.dar[reg];
        let res = wsub(dst, 1) & 0xffff;
        exists|m1: ConfiguredCore|
            #[trigger] reg_set(c0, m1, reg, merged(dst, res, 16)) && if res != 0xffff {
                &&& m1.pc & 1 != 0 ==> r == Err::<Cycles, Exception>(m1.pc_error()) && c1 == m1
                &&& m1.pc & 1 == 0 ==> r == Ok::<Cycles, Exception>(Cycles(10)) && long_branch_done(m1, c1)
            } else {
                r == Ok::<Cycles, Exception>(Cycles(14)) && c1 == (ConfiguredCore { pc: wadd(m1.pc, 2), ..m1 })
            }
    }
}

/// DBcc: unless the condition holds, the low word of Dy counts down, and
/// the branch is taken until it passes zero.
pub fn dble_16(core: &mut ConfiguredCore) -> (r: Result<Cycles>)
    requires
        old(core).wf(),
    ensures
        final(core).wf(),
        dble_16_effect(*old(core), *final(core), r),
{
    if !core.cond_le() {
        let ghost c0 = *core;
        let reg = reg_dy(core.ir);
        let dst = core.dar[reg];
        let res = dst.wrapping_sub(1) & 0xffff;
        assert(dst.wrapping_sub(1) == wsub(dst, 1));
        set_reg(core, reg, merge(dst, res, 16));
        let ghost m1 = *core;
        assert(reg_set(c0, m1, ir_dy(c0.ir), merged(dst, res, 16)));
        if res != 0xffff {
            let offset = match core.read_imm_i16() {
                Ok(o) => o,
                Err(e) => {
                    return Err(e);
                },
            };
            let ghost mid = *core;
            assert(ConfiguredCore::fetched(m1, mid, m1.after16()));
            core.pc = core.pc.wrapping_sub(2);
            core.branch_16(offset);
            Ok(Cycles(10))
        } else {
            core.pc = core.pc.wrapping_add(2);
            Ok(Cycles(14))
        }
    } else {
        core.pc = core.pc.wrapping_add(2);
        Ok(Cycles(12))
    }
}

/// What `jmp_32_ai` does: the core goes from `c0` to `c1` and `r` comes back.
pub open spec fn jmp_32_ai_effect(c0: ConfiguredCore, c1: ConfiguredCore, r: Result<Cycles>) -> bool {
    exists|m1: ConfiguredCore, ea: Result<u32>|
        #[trigger] effective_address::address_indirect_ay_rel(c0, m1, ea) && match ea {
            Err(e) => r == Err::<Cycles, Exception>(e) && c1 == m1,
            Ok(a) => r == Ok::<Cycles, Exception>(Cycles(8)) && c1 == (ConfiguredCore { pc: a, ..m1 }),
        }
}

/// JMP: the program counter set to the effective address.
pub fn jmp_32_ai(core: &mut ConfiguredCore) -> (r: Result<Cycles>)
    requires
        old(core).wf(),
    ensures
        final(core).wf(),
        jmp_32_ai_effect(*old(core), *final(core), r),
{
    let ghost c0 = *core;
    let ea = effective_address::address_indirect_ay(core);
    let ghost m1 = *core;
    assert(effective_address::address_indirect_ay_rel(c0, m1, ea));
    match ea {
        Err(e) => Err(e),
        Ok(a) => {
            core.jump(a);
            Ok(Cycles(8))
        },
    }
}

/// What `jmp_32_di` does: the core goes from `c0` to `c1` and `r` comes back.
pub open spec fn jmp_32_di_effect(c0: ConfiguredCore, c1: ConfiguredCore, r: Result<Cycles>) -> bool {
    exists|m1: ConfiguredCore, ea: Result<u32>|
        #[trigger] effective_address::displacement_ay_rel(c0, m1, ea) && match ea {
            Err(e) => r == Err::<Cycles, Exception>(e) && c1 == m1,
            Ok(a) => r == Ok::<Cycles, Exception>(Cycles(10)) && c1 == (ConfiguredCore { pc: a, ..m1 }),
        }
}

/// JMP: the program counter set to the effective address.
pub fn jmp_32_di(core: &mut ConfiguredCore) -> (r: Result<Cycles>)
    requires
        old(core).wf(),
    ensures
        final(core).wf(),
        jmp_32_di_effect(*old(core), *final(core), r),
{
    let ghost c0 = *core;
    let ea = effective_address::displacement_ay(core);
    let ghost m1 = *core;
    assert(effective_address::displacement_ay_rel(c0, m1, ea));
    match ea {
        Err(e) => Err(e),
        Ok(a) => {
            core.jump(a);
            Ok(Cycles(10))
        },
    }
}

/// What `jmp_32_ix` does: the core goes from `c0` to `c1` and `r` comes back.
pub open spec fn jmp_32_ix_effect(c0: ConfiguredCore, c1: ConfiguredCore, r: Result<Cycles>) -> bool {
    exists|m1: ConfiguredCore, ea: Result<u32>|
        #[trigger] effective_address::index_ay_rel(c0, m1, ea) && match ea {
            Err(e) => r == Err::<Cycles, Exception>(e) && c1 == m1,
            Ok(a) => r == Ok::<Cycles, Exception>(Cycles(14)) && c1 == (ConfiguredCore { pc: a, ..m1 }),
        }
}

/// JMP: the program counter set to the effective address.
pub fn jmp_32_ix(core: &mut ConfiguredCore) -> (r: Result<Cycles>)
    requires
        old(core).wf(),
    ensures
        final(core).wf(),
        jmp_32_ix_effect(*old(core), *final(core), r),
{
    let ghost c0 = *core;
    let ea = effective_address::index_ay(core);
    let ghost m1 = *core;
    assert(effective_address::index_ay_rel(c0, m1, ea));
    match ea {
        Err(e) => Err(e),
        Ok(a) => {
            core.jump(a);
            Ok(Cycles(14))
        },
    }
}

/// What `jmp_32_aw` does: the core goes from `c0` to `c1` and `r` comes back.
pub open spec fn jmp_32_aw_effect(c0: ConfiguredCore, c1: ConfiguredCore, r: Result<Cycles>) -> bool {
    exists|m1: ConfiguredCore, ea: Result<u32>|
        #[trigger] effective_address::absolute_word_rel(c0, m1, ea) && match ea {
            Err(e) => r == Err::<Cycles, Exception>(e) && c1 == m1,
            Ok(a) => r == Ok::<Cycles, Exception>(Cycles(10)) && c1 == (ConfiguredCore { pc: a, ..m1 }),
        }
}

/// JMP: the program counter set to the effective address.
pub fn jmp_32_aw(core: &mut ConfiguredCore) -> (r: Result<Cycles>)
    requires
        old(core).wf(),
    ensures
        final(core).wf(),
        jmp_32_aw_effect(*old(core), *final(core), r),
{
    let ghost c0 = *core;
    let ea = effective_address::absolute_word(core);
    let ghost m1 = *core;
    assert(effective_address::absolute_word_rel(c0, m1, ea));
    match ea {
        Err(e) => Err(e),
        Ok(a) => {
            core.jump(a);
            Ok(Cycles(10))
        },
    }
}

/// What `jmp_32_al` does: the core goes from `c0` to `c1` and `r` comes back.
pub open spec fn jmp_32_al_effect(c0: ConfiguredCore, c1: ConfiguredCore, r: Result<Cycles>) -> bool {
    exists|m1: ConfiguredCore, ea: Result<u32>|
        #[trigger] effective_address::absolute_long_rel(c0, m1, ea) && match ea {
            Err(e) => r == Err::<Cycles, Exception>(e) && c1 == m1,
            Ok(a) => r == Ok::<Cycles, Exception>(Cycles(12)) && c1 == (ConfiguredCore { pc: a, ..m1 }),
        }
}

/// JMP: the program counter set to the effective address.
pub fn jmp_32_al(core: &mut ConfiguredCore) -> (r: Result<Cycles>)
    requires
        old(core).wf(),
    ensures
        final(core).wf(),
        jmp_32_al_effect(*old(core), *final(core), r),
{
    let ghost c0 = *core;
    let ea = effective_address::absolute_long(core);
    let ghost m1 = *core;
    assert(effective_address::absolute_long_rel(c0, m1, ea));
    match ea {
        Err(e) => Err(e),
        Ok(a) => {
            core.jump(a);
            Ok(Cycles(12))
        },
    }
}

/// What `jmp_32_pcdi` does: the core goes from `c0` to `c1` and `r` comes back.
pub open spec fn jmp_32_pcdi_effect(c0: ConfiguredCore, c1: ConfiguredCore, r: Result<Cycles>) -> bool {
    exists|m1: ConfiguredCore, ea: Result<u32>|
        #[trigger] effective_address::displacement_pc_rel(c0, m1, ea) && match ea {
            Err(e) => r == Err::<Cycles, Exception>(e) && c1 == m1,
            Ok(a) => r == Ok::<Cycles, Exception>(Cycles(10)) && c1 == (ConfiguredCore { pc: a, ..m1 }),
        }
}

/// JMP: the program counter set to the effective address.
pub fn jmp_32_pcdi(core: &mut ConfiguredCore) -> (r: Result<Cycles>)
    requires
        old(core).wf(),
    ensures
        final(core).wf(),
        jmp_32_pcdi_effect(*old(core), *final(core), r),
{
    let ghost c0 = *core;
    let ea = effective_address::displacement_pc(core);
    let ghost m1 = *core;
    assert(effective_address::displacement_pc_rel(c0, m1, ea));
    match ea {
        Err(e) => Err(e),
        Ok(a) => {
            core.jump(a);
            Ok(Cycles(10))
        },
    }
}

/// What `jmp_32_pcix` does: the core goes from `c0` to `c1` and `r` comes back.
pub open spec fn jmp_32_pcix_effect(c0: ConfiguredCore, c1: ConfiguredCore, r: Result<Cycles>) -> bool {
    exists|m1: ConfiguredCore, ea: Result<u32>|
        #[trigger] effective_address::index_pc_rel(c0, m1, ea) && match ea {
            Err(e) => r == Err::<Cycles, Exception>(e) && c1 == m1,
            Ok(a) => r == Ok::<Cycles, Exception>(Cycles(14)) && c1 == (ConfiguredCore { pc: a, ..m1 }),
        }
}

/// JMP: the program counter set to the effective address.
pub fn jmp_32_pcix(core: &mut ConfiguredCore) -> (r: Result<Cycles>)
    requires
        old(core).wf(),
    ensures
        final(core).wf(),
        jmp_32_pcix_effect(*old(core), *final(core), r),
{
    let ghost c0 = *core;
    let ea = effective_address::index_pc(core);
    let ghost m1 = *core;
    assert(effective_address::index_pc_rel(c0, m1, ea));
    match ea {
        Err(e) => Err(e),
        Ok(a) => {
            core.jump(a);
            Ok(Cycles(14))
        },
    }
}

/// What `jsr_32_ai` does: the core goes from `c0` to `c1` and `r` comes back.
pub open spec fn jsr_32_ai_effect(c0: ConfiguredCore, c1: ConfiguredCore, r: Result<Cycles>) -> bool {
    exists|m1: ConfiguredCore, ea: Result<u32>|
        #[trigger] effective_address::address_indirect_ay_rel(c0, m1, ea) && match ea {
            Err(e) => r == Err::<Cycles, Exception>(e) && c1 == m1,
            Ok(a) => if sp_odd(m1) {
                r == Err::<Cycles, Exception>(stack_error(m1, wsub(m1.dar[15], 4), AccessType::Write)) && c1 == m1
            } else {
                r == Ok::<Cycles, Exception>(Cycles(16)) && exists|m2: ConfiguredCore|
                    #[trigger] pushed_32(m1, m2, m1.pc) && c1 == (ConfiguredCore { pc: a, ..m2 })
            },
        }
}

/// JSR: the return address pushed, then a jump to the effective address.
pub fn jsr_32_ai(core: &mut ConfiguredCore) -> (r: Result<Cycles>)
    requires
        old(core).wf(),
    ensures
        final(core).wf(),
        jsr_32_ai_effect(*old(core), *final(core), r),
{
    let ghost c0 = *core;
    let ea = effective_address::address_indirect_ay(core);
    let ghost m1 = *core;
    assert(effective_address::address_indirect_ay_rel(c0, m1, ea));
    match ea {
        Err(e) => Err(e),
        Ok(a) => {
            if core.dar[15] & 1 != 0 {
                return Err(stack_fault(core, core.dar[15].wrapping_sub(4), AccessType::Write));
            }
            let pc = core.pc;
            core.push_32(pc);
            let ghost m2 = *core;
            assert(pushed_32(m1, m2, m1.pc));
            core.jump(a);
            Ok(Cycles(16))
        },
    }
}

/// What `jsr_32_di` does: the core goes from `c0` to `c1` and `r` comes back.
pub open spec fn jsr_32_di_effect(c0: ConfiguredCore, c1: ConfiguredCore, r: Result<Cycles>) -> bool {
    exists|m1: ConfiguredCore, ea: Result<u32>|
        #[trigger] effective_address::displacement_ay_rel(c0, m1, ea) && match ea {
            Err(e) => r == Err::<Cycles, Exception>(e) && c1 == m1,
            Ok(a) => if sp_odd(m1) {
                r == Err::<Cycles, Exception>(stack_error(m1, wsub(m1.dar[15], 4), AccessType::Write)) && c1 == m1
            } else {
                r == Ok::<Cycles, Exception>(Cycles(18)) && exists|m2: ConfiguredCore|
                    #[trigger] pushed_32(m1, m2, m1.pc) && c1 == (ConfiguredCore { pc: a, ..m2 })
            },
        }
}

/// JSR: the return address pushed, then a jump to the effective address.
pub fn jsr_32_di(core: &mut ConfiguredCore) -> (r: Result<Cycles>)
    requires
        old(core).wf(),
    ensures
        final(core).wf(),
        jsr_32_di_effect(*old(core), *final(core), r),
{
    let ghost c0 = *core;
    let ea = effective_address::displacement_ay(core);
    let ghost m1 = *core;
    assert(effective_address::displacement_ay_rel(c0, m1, ea));
    match ea {
        Err(e) => Err(e),
        Ok(a) => {
            if core.dar[15] & 1 != 0 {
                return Err(stack_fault(core, core.dar[15].wrapping_sub(4), AccessType::Write));
            }
            let pc = core.pc;
            core.push_32(pc);
            let ghost m2 = *core;
            assert(pushed_32(m1, m2, m1.pc));
            core.jump(a);
            Ok(Cycles(18))
        },
    }
}

/// What `jsr_32_ix` does: the core goes from `c0` to `c1` and `r` comes back.
pub open spec fn jsr_32_ix_effect(c0: ConfiguredCore, c1: ConfiguredCore, r: Result<Cycles>) -> bool {
    exists|m1: ConfiguredCore, ea: Result<u32>|
        #[trigger] effective_address::index_ay_rel(c0, m1, ea) && match ea {
            Err(e) => r == Err::<Cycles, Exception>(e) && c1 == m1,
            Ok(a) => if sp_odd(m1) {
                r == Err::<Cycles, Exception>(stack_error(m1, wsub(m1.dar[15], 4), AccessType::Write)) && c1 == m1
            } else {
                r == Ok::<Cycles, Exception>(Cycles(22)) && exists|m2: ConfiguredCore|
                    #[trigger] pushed_32(m1, m2, m1.pc) && c1 == (ConfiguredCore { pc: a, ..m2 })
            },
        }
}

/// JSR: the return address pushed, then a jump to the effective address.
pub fn jsr_32_ix(core: &mut ConfiguredCore) -> (r: Result<Cycles>)
    requires
        old(core).wf(),
    ensures
        final(core).wf(),
        jsr_32_ix_effect(*old(core), *final(core), r),
{
    let ghost c0 = *core;
    let ea = effective_address::index_ay(core);
    let ghost m1 = *core;
    assert(effective_address::index_ay_rel(c0, m1, ea));
    match ea {
        Err(e) => Err(e),
        Ok(a) => {
            if core.dar[15] & 1 != 0 {
                return Err(stack_fault(core, core.dar[15].wrapping_sub(4), AccessType::Write));
            }
            let pc = core.pc;
            core.push_32(pc);
            let ghost m2 = *core;
            assert(pushed_32(m1, m2, m1.pc));
            core.jump(a);
            Ok(Cycles(22))
        },
    }
}

/// What `jsr_32_aw` does: the core goes from `c0` to `c1` and `r` comes back.
pub open spec fn jsr_32_aw_effect(c0: ConfiguredCore, c1: ConfiguredCore, r: Result<Cycles>) -> bool {
    exists|m1: ConfiguredCore, ea: Result<u32>|
        #[trigger] effective_address::absolute_word_rel(c0, m1, ea) && match ea {
            Err(e) => r == Err::<Cycles, Exception>(e) && c1 == m1,
            Ok(a) => if sp_odd(m1) {
                r == Err::<Cycles, Exception>(stack_error(m1, wsub(m1.dar[15], 4), AccessType::Write)) && c1 == m1
            } else {
                r == Ok::<Cycles, Exception>(Cycles(18)) && exists|m2: ConfiguredCore|
                    #[trigger] pushed_32(m1, m2, m1.pc) && c1 == (ConfiguredCore { pc: a, ..m2 })
            },
        }
}

/// JSR: the return address pushed, then a jump to the effective address.
pub fn jsr_32_aw(core: &mut ConfiguredCore) -> (r: Result<Cycles>)
    requires
        old(core).wf(),
    ensures
        final(core).wf(),
        jsr_32_aw_effect(*old(core), *final(core), r),
{
    let ghost c0 = *core;
    let ea = effective_address::absolute_word(core);
    let ghost m1 = *core;
    assert(effective_address::absolute_word_rel(c0, m1, ea));
    match ea {
        Err(e) => Err(e),
        Ok(a) => {
            if core.dar[15] & 1 != 0 {
                return Err(stack_fault(core, core.dar[15].wrapping_sub(4), AccessType::Write));
            }
            let pc = core.pc;
            core.push_32(pc);
            let ghost m2 = *core;
            assert(pushed_32(m1, m2, m1.pc));
            core.jump(a);
            Ok(Cycles(18))
        },
    }
}

/// What `jsr_32_al` does: the core goes from `c0` to `c1` and `r` comes back.
pub open spec fn jsr_32_al_effect(c0: ConfiguredCore, c1: ConfiguredCore, r: Result<Cycles>) -> bool {
    exists|m1: ConfiguredCore, ea: Result<u32>|
        #[trigger] effective_address::absolute_long_rel(c0, m1, ea) && match ea {
            Err(e) => r == Err::<Cycles, Exception>(e) && c1 == m1,
            Ok(a) => if sp_odd(m1) {
                r == Err::<Cycles, Exception>(stack_error(m1, wsub(m1.dar[15], 4), AccessType::Write)) && c1 == m1
            } else {
                r == Ok::<Cycles, Exception>(Cycles(20)) && exists|m2: ConfiguredCore|
                    #[trigger] pushed_32(m1, m2, m1.pc) && c1 == (ConfiguredCore { pc: a, ..m2 })
            },
        }
}

/// JSR: the return address pushed, then a jump to the effective address.
pub fn jsr_32_al(core: &mut ConfiguredCore) -> (r: Result<Cycles>)
    requires
        old(core).wf(),
    ensures
        final(core).wf(),
        jsr_32_al_effect(*old(core), *final(core), r),
{
    let ghost c0 = *core;
    let ea = effective_address::absolute_long(core);
    let ghost m1 = *core;
    assert(effective_address::absolute_long_rel(c0, m1, ea));
    match ea {
        Err(e) => Err(e),
        Ok(a) => {
            if core.dar[15] & 1 != 0 {
                return Err(stack_fault(core, core.dar[15].wrapping_sub(4), AccessType::Write));
            }
            let pc = core.pc;
            core.push_32(pc);
            let ghost m2 = *core;
            assert(pushed_32(m1, m2, m1.pc));
            core.jump(a);
            Ok(Cycles(20))
        },
    }
}

/// What `jsr_32_pcdi` does: the core goes from `c0` to `c1` and `r` comes back.
pub open spec fn jsr_32_pcdi_effect(c0: ConfiguredCore, c1: ConfiguredCore, r: Result<Cycles>) -> bool {
    exists|m1: ConfiguredCore, ea: Result<u32>|
        #[trigger] effective_address::displacement_pc_rel(c0, m1, ea) && match ea {
            Err(e) => r == Err::<Cycles, Exception>(e) && c1 == m1,
            Ok(a) => if sp_odd(m1) {
                r == Err::<Cycles, Exception>(stack_error(m1, wsub(m1.dar[15], 4), AccessType::Write)) && c1 == m1
            } else {
                r == Ok::<Cycles, Exception>(Cycles(18)) && exists|m2: ConfiguredCore|
                    #[trigger] pushed_32(m1, m2, m1.pc) && c1 == (ConfiguredCore { pc: a, ..m2 })
            },
        }
}

/// JSR: the return address pushed, then a jump to the effective address.
pub fn jsr_32_pcdi(core: &mut ConfiguredCore) -> (r: Result<Cycles>)
    requires
        old(core).wf(),
    ensures
        final(core).wf(),
        jsr_32_pcdi_effect(*old(core), *final(core), r),
{
    let ghost c0 = *core;
    let ea = effective_address::displacement_pc(core);
    let ghost m1 = *core;
    assert(effective_address::displacement_pc_rel(c0, m1, ea));
    match ea {
        Err(e) => Err(e),
        Ok(a) => {
            if core.dar[15] & 1 != 0 {
                return Err(stack_fault(core, core.dar[15].wrapping_sub(4), AccessType::Write));
            }
            let pc = core.pc;
            core.push_32(pc);
            let ghost m2 = *core;
            assert(pushed_32(m1, m2, m1.pc));
            core.jump(a);
            Ok(Cycles(18))
        },
    }
}

/// What `jsr_32_pcix` does: the core goes from `c0` to `c1` and `r` comes back.
pub open spec fn jsr_32_pcix_effect(c0: ConfiguredCore, c1: ConfiguredCore, r: Result<Cycles>) -> bool {
    exists|m1: ConfiguredCore, ea: Result<u32>|
        #[trigger] effective_address::index_pc_rel(c0, m1, ea) && match ea {
            Err(e) => r == Err::<Cycles, Exception>(e) && c1 == m1,
            Ok(a) => if sp_odd(m1) {
                r == Err::<Cycles, Exception>(stack_error(m1, wsub(m1.dar[15], 4), AccessType::Write)) && c1 == m1
            } else {
                r == Ok::<Cycles, Exception>(Cycles(22)) && exists|m2: ConfiguredCore|
                    #[trigger] pushed_32(m1, m2, m1.pc) && c1 == (ConfiguredCore { pc: a, ..m2 })
            },
        }
}

/// JSR: the return address pushed, then a jump to the effective address.
pub fn jsr_32_pcix(core: &mut ConfiguredCore) -> (r: Result<Cycles>)
    requires
        old(core).wf(),
    ensures
        final(core).wf(),
        jsr_32_pcix_effect(*old(core), *final(core), r),
{
    let ghost c0 = *core;
    let ea = effective_address::index_pc(core);
    let ghost m1 = *core;
    assert(effective_address::index_pc_rel(c0, m1, ea));
    match ea {
        Err(e) => Err(e),
        Ok(a) => {
            if core.dar[15] & 1 != 0 {
                return Err(stack_fault(core, core.dar[15].wrapping_sub(4), AccessType::Write));
            }
            let pc = core.pc;
            core.push_32(pc);
            let ghost m2 = *core;
            assert(pushed_32(m1, m2, m1.pc));
            core.jump(a);
            Ok(Cycles(22))
        },
    }
}

/// What `lea_32_ai` does: the core goes from `c0` to `c1` and `r` comes back.
pub open spec fn lea_32_ai_effect(c0: ConfiguredCore, c1: ConfiguredCore, r: Result<Cycles>) -> bool {
    exists|m1: ConfiguredCore, ea: Result<u32>|
        #[trigger] effective_address::address_indirect_ay_rel(c0, m1, ea) && match ea {
            Err(e) => r == Err::<Cycles, Exception>(e) && c1 == m1,
            Ok(a) => r == Ok::<Cycles, Exception>(Cycles(4)) && reg_set(m1, c1, ir_ax(m1.ir), a),
        }
}

/// LEA: the effective address into Ax.
pub fn lea_32_ai(core: &mut ConfiguredCore) -> (r: Result<Cycles>)
    requires
        old(core).wf(),
    ensures
        final(core).wf(),
        lea_32_ai_effect(*old(core), *final(core), r),
{
    let ghost c0 = *core;
    let ea = effective_address::address_indirect_ay(core);
    let ghost m1 = *core;
    assert(effective_address::address_indirect_ay_rel(c0, m1, ea));
    match ea {
        Err(e) => Err(e),
        Ok(a) => {
            let reg = reg_ax(core.ir);
            set_reg(core, reg, a);
            Ok(Cycles(4))
        },
    }
}

/// What `lea_32_di` does: the core goes from `c0` to `c1` and `r` comes back.
pub open spec fn lea_32_di_effect(c0: ConfiguredCore, c1: ConfiguredCore, r: Result<Cycles>) -> bool {
    exists|m1: ConfiguredCore, ea: Result<u32>|
        #[trigger] effective_address::displacement_ay_rel(c0, m1, ea) && match ea {
            Err(e) => r == Err::<Cycles, Exception>(e) && c1 == m1,
            Ok(a) => r == Ok::<Cycles, Exception>(Cycles(8)) && reg_set(m1, c1, ir_ax(m1.ir), a),
        }
}

/// LEA: the effective address into Ax.
pub fn lea_32_di(core: &mut ConfiguredCore) -> (r: Result<Cycles>)
    requires
        old(core).wf(),
    ensures
        final(core).wf(),
        lea_32_di_effect(*old(core), *final(core), r),
{
    let ghost c0 = *core;
    let ea = effective_address::displacement_ay(core);
    let ghost m1 = *core;
    assert(effective_address::displacement_ay_rel(c0, m1, ea));
    match ea {
        Err(e) => Err(e),
        Ok(a) => {
            let reg = reg_ax(core.ir);
            set_reg(core, reg, a);
            Ok(Cycles(8))
        },
    }
}

/// What `lea_32_ix` does: the core goes from `c0` to `c1` and `r` comes back.
pub open spec fn lea_32_ix_effect(c0: ConfiguredCore, c1: ConfiguredCore, r: Result<Cycles>) -> bool {
    exists|m1: ConfiguredCore, ea: Result<u32>|
        #[trigger] effective_address::index_ay_rel(c0, m1, ea) && match ea {
            Err(e) => r == Err::<Cycles, Exception>(e) && c1 == m1,
            Ok(a) => r == Ok::<Cycles, Exception>(Cycles(12)) && reg_set(m1, c1, ir_ax(m1.ir), a),
        }
}

/// LEA: the effective address into Ax.
pub fn lea_32_ix(core: &mut ConfiguredCore) -> (r: Result<Cycles>)
    requires
        old(core).wf(),
    ensures
        final(core).wf(),
        lea_32_ix_effect(*old(core), *final(core), r),
{
    let ghost c0 = *core;
    let ea = effective_address::index_ay(core);
    let ghost m1 = *core;
    assert(effective_address::index_ay_rel(c0, m1, ea));
    match ea {
        Err(e) => Err(e),
        Ok(a) => {
            let reg = reg_ax(core.ir);
            set_reg(core, reg, a);
            Ok(Cycles(12))
        },
    }
}

/// What `lea_32_aw` does: the core goes from `c0` to `c1` and `r` comes back.
pub open spec fn lea_32_aw_effect(c0: ConfiguredCore, c1: ConfiguredCore, r: Result<Cycles>) -> bool {
    exists|m1: ConfiguredCore, ea: Result<u32>|
        #[trigger] effective_address::absolute_word_rel(c0, m1, ea) && match ea {
            Err(e) => r == Err::<Cycles, Exception>(e) && c1 == m1,
            Ok(a) => r == Ok::<Cycles, Exception>(Cycles(8)) && reg_set(m1, c1, ir_ax(m1.ir), a),
        }
}

/// LEA: the effective address into Ax.
pub fn lea_32_aw(core: &mut ConfiguredCore) -> (r: Result<Cycles>)
    requires
        old(core).wf(),
    ensures
        final(core).wf(),
        lea_32_aw_effect(*old(core), *final(core), r),
{
    let ghost c0 = *core;
    let ea = effective_address::absolute_word(core);
    let ghost m1 = *core;
    assert(effective_address::absolute_word_rel(c0, m1, ea));
    match ea {
        Err(e) => Err(e),
        Ok(a) => {
            let reg = reg_ax(core.ir);
            set_reg(core, reg, a);
            Ok(Cycles(8))
        },
    }
}

/// What `lea_32_al` does: the core goes from `c0` to `c1` and `r` comes back.
pub open spec fn lea_32_al_effect(c0: ConfiguredCore, c1: ConfiguredCore, r: Result<Cycles>) -> bool {
    exists|m1: ConfiguredCore, ea: Result<u32>|
        #[trigger] effective_address::absolute_long_rel(c0, m1, ea) && match ea {
            Err(e) => r == Err::<Cycles, Exception>(e) && c1 == m1,
            Ok(a) => r == Ok::<Cycles, Exception>(Cycles(12)) && reg_set(m1, c1, ir_ax(m1.ir), a),
        }
}

/// LEA: the effective address into Ax.
pub fn lea_32_al(core: &mut ConfiguredCore) -> (r: Result<Cycles>)
    requires
        old(core).wf(),
    ensures
        final(core).wf(),
        lea_32_al_effect(*old(core), *final(core), r),
{
    let ghost c0 = *core;
    let ea = effective_address::absolute_long(core);
    let ghost m1 = *core;
    assert(effective_address::absolute_long_rel(c0, m1, ea));
    match ea {
        Err(e) => Err(e),
        Ok(a) => {
            let reg = reg_ax(core.ir);
            set_reg(core, reg, a);
            Ok(Cycles(12))
        },
    }
}

/// What `lea_32_pcdi` does: the core goes from `c0` to `c1` and `r` comes back.
pub open spec fn lea_32_pcdi_effect(c0: ConfiguredCore, c1: ConfiguredCore, r: Result<Cycles>) -> bool {
    exists|m1: ConfiguredCore, ea: Result<u32>|
        #[trigger] effective_address::displacement_pc_rel(c0, m1, ea) && match ea {
            Err(e) => r == Err::<Cycles, Exception>(e) && c1 == m1,
            Ok(a) => r == Ok::<Cycles, Exception>(Cycles(8)) && reg_set(m1, c1, ir_ax(m1.ir), a),
        }
}

/// LEA: the effective address into Ax.
pub fn lea_32_pcdi(core: &mut ConfiguredCore) -> (r: Result<Cycles>)
    requires
        old(core).wf(),
    ensures
        final(core).wf(),
        lea_32_pcdi_effect(*old(core), *final(core), r),
{
    let ghost c0 = *core;
    let ea = effective_address::displacement_pc(core);
    let ghost m1 = *core;
    assert(effective_address::displacement_pc_rel(c0, m1, ea));
    match ea {
        Err(e) => Err(e),
        Ok(a) => {
            let reg = reg_ax(core.ir);
            set_reg(core, reg, a);
            Ok(Cycles(8))
        },
    }
}

/// What `lea_32_pcix` does: the core goes from `c0` to `c1` and `r` comes back.
pub open spec fn lea_32_pcix_effect(c0: ConfiguredCore, c1: ConfiguredCore, r: Result<Cycles>) -> bool {
    exists|m1: ConfiguredCore, ea: Result<u32>|
        #[trigger] effective_address::index_pc_rel(c0, m1, ea) && match ea {
            Err(e) => r == Err::<Cycles, Exception>(e) && c1 == m1,
            Ok(a) => r == Ok::<Cycles, Exception>(Cycles(12)) && reg_set(m1, c1, ir_ax(m1.ir), a),
        }
}

/// LEA: the effective address into Ax.
pub fn lea_32_pcix(core: &mut ConfiguredCore) -> (r: Result<Cycles>)
    requires
        old(core).wf(),
    ensures
        final(core).wf(),
        lea_32_pcix_effect(*old(core), *final(core), r),
{
    let ghost c0 = *core;
    let ea = effective_address::index_pc(core);
    let ghost m1 = *core;
    assert(effective_address::index_pc_rel(c0, m1, ea));
    match ea {
        Err(e) => Err(e),
        Ok(a) => {
            let reg = reg_ax(core.ir);
            set_reg(core, reg, a);
            Ok(Cycles(12))
        },
    }
}

/// What `pea_32_ai` does: the core goes from `c0` to `c1` and `r` comes back.
pub open spec fn pea_32_ai_effect(c0: ConfiguredCore, c1: ConfiguredCore, r: Result<Cycles>) -> bool {
    exists|m1: ConfiguredCore, ea: Result<u32>|
        #[trigger] effective_address::address_indirect_ay_rel(c0, m1, ea) && match ea {
            Err(e) => r == Err::<Cycles, Exception>(e) && c1 == m1,
            Ok(a) => if sp_odd(m1) {
                r == Err::<Cycles, Exception>(stack_error(m1, wsub(m1.dar[15], 4), AccessType::Write)) && c1 == m1
            } else {
                r == Ok::<Cycles, Exception>(Cycles(12)) && pushed_32(m1, c1, a)
            },
        }
}

/// PEA: the effective address pushed on the stack.
pub fn pea_32_ai(core: &mut ConfiguredCore) -> (r: Result<Cycles>)
    requires
        old(core).wf(),
    ensures
        final(core).wf(),
        pea_32_ai_effect(*old(core), *final(core), r),
{
    let ghost c0 = *core;
    let ea = effective_address::address_indirect_ay(core);
    let ghost m1 = *core;
    assert(effective_address::address_indirect_ay_rel(c0, m1, ea));
    match ea {
        Err(e) => Err(e),
        Ok(a) => {
            if core.dar[15] & 1 != 0 {
                return Err(stack_fault(core, core.dar[15].wrapping_sub(4), AccessType::Write));
            }
            core.push_32(a);
            Ok(Cycles(12))
        },
    }
}

/// What `pea_32_di` does: the core goes from `c0` to `c1` and `r` comes back.
pub open spec fn pea_32_di_effect(c0: ConfiguredCore, c1: ConfiguredCore, r: Result<Cycles>) -> bool {
    exists|m1: ConfiguredCore, ea: Result<u32>|
        #[trigger] effective_address::displacement_ay_rel(c0, m1, ea) && match ea {
            Err(e) => r == Err::<Cycles, Exception>(e) && c1 == m1,
            Ok(a) => if sp_odd(m1) {
                r == Err::<Cycles, Exception>(stack_error(m1, wsub(m1.dar[15], 4), AccessType::Write)) && c1 == m1
            } else {
                r == Ok::<Cycles, Exception>(Cycles(16)) && pushed_32(m1, c1, a)
            },
        }
}

/// PEA: the effective address pushed on the stack.
pub fn pea_32_di(core: &mut ConfiguredCore) -> (r: Result<Cycles>)
    requires
        old(core).wf(),
    ensures
        final(core).wf(),
        pea_32_di_effect(*old(core), *final(core), r),
{
    let ghost c0 = *core;
    let ea = effective_address::displacement_ay(core);
    let ghost m1 = *core;
    assert(effective_address::displacement_ay_rel(c0, m1, ea));
    match ea {
        Err(e) => Err(e),
        Ok(a) => {
            if core.dar[15] & 1 != 0 {
                return Err(stack_fault(core, core.dar[15].wrapping_sub(4), AccessType::Write));
            }
            core.push_32(a);
            Ok(Cycles(16))
        },
    }
}

/// What `pea_32_ix` does: the core goes from `c0` to `c1` and `r` comes back.
pub open spec fn pea_32_ix_effect(c0: ConfiguredCore, c1: ConfiguredCore, r: Result<Cycles>) -> bool {
    exists|m1: ConfiguredCore, ea: Result<u32>|
        #[trigger] effective_address::index_ay_rel(c0, m1, ea) && match ea {
            Err(e) => r == Err::<Cycles, Exception>(e) && c1 == m1,
            Ok(a) => if sp_odd(m1) {
                r == Err::<Cycles, Exception>(stack_error(m1, wsub(m1.dar[15], 4), AccessType::Write)) && c1 == m1
            } else {
                r == Ok::<Cycles, Exception>(Cycles(20)) && pushed_32(m1, c1, a)
            },
        }
}

/// PEA: the effective address pushed on the stack.
pub fn pea_32_ix(core: &mut ConfiguredCore) -> (r: Result<Cycles>)
    requires
        old(core).wf(),
    ensures
        final(core).wf(),
        pea_32_ix_effect(*old(core), *final(core), r),
{
    let ghost c0 = *core;
    let ea = effective_address::index_ay(core);
    let ghost m1 = *core;
    assert(effective_address::index_ay_rel(c0, m1, ea));
    match ea {
        Err(e) => Err(e),
        Ok(a) => {
            if core.dar[15] & 1 != 0 {
                return Err(stack_fault(core, core.dar[15].wrapping_sub(4), AccessType::Write));
            }
            core.push_32(a);
            Ok(Cycles(20))
        },
    }
}

/// What `pea_32_aw` does: the core goes from `c0` to `c1` and `r` comes back.
pub open spec fn pea_32_aw_effect(c0: ConfiguredCore, c1: ConfiguredCore, r: Result<Cycles>) -> bool {
    exists|m1: ConfiguredCore, ea: Result<u32>|
        #[trigger] effective_address::absolute_word_rel(c0, m1, ea) && match ea {
            Err(e) => r == Err::<Cycles, Exception>(e) && c1 == m1,
            Ok(a) => if sp_odd(m1) {
                r == Err::<Cycles, Exception>(stack_error(m1, wsub(m1.dar[15], 4), AccessType::Write)) && c1 == m1
            } else {
                r == Ok::<Cycles, Exception>(Cycles(16)) && pushed_32(m1, c1, a)
            },
        }
}

/// PEA: the effective address pushed on the stack.
pub fn pea_32_aw(core: &mut ConfiguredCore) -> (r: Result<Cycles>)
    requires
        old(core).wf(),
    ensures
        final(core).wf(),
        pea_32_aw_effect(*old(core), *final(core), r),
{
    let ghost c0 = *core;
    let ea = effective_address::absolute_word(core);
    let ghost m1 = *core;
    assert(effective_address::absolute_word_rel(c0, m1, ea));
    match ea {
        Err(e) => Err(e),
        Ok(a) => {
            if core.dar[15] & 1 != 0 {
                return Err(stack_fault(core, core.dar[15].wrapping_sub(4), AccessType::Write));
            }
            core.push_32(a);
            Ok(Cycles(16))
        },
    }
}

/// What `pea_32_al` does: the core goes from `c0` to `c1` and `r` comes back.
pub open spec fn pea_32_al_effect(c0: ConfiguredCore, c1: ConfiguredCore, r: Result<Cycles>) -> bool {
    exists|m1: ConfiguredCore, ea: Result<u32>|
        #[trigger] effective_address::absolute_long_rel(c0, m1, ea) && match ea {
            Err(e) => r == Err::<Cycles, Exception>(e) && c1 == m1,
            Ok(a) => if sp_odd(m1) {
                r == Err::<Cycles, Exception>(stack_error(m1, wsub(m1.dar[15], 4), AccessType::Write)) && c1 == m1
            } else {
                r == Ok::<Cycles, Exception>(Cycles(20)) && pushed_32(m1, c1, a)
            },
        }
}

/// PEA: the effective address pushed on the stack.
pub fn pea_32_al(core: &mut ConfiguredCore) -> (r: Result<Cycles>)
    requires
        old(core).wf(),
    ensures
        final(core).wf(),
        pea_32_al_effect(*old(core), *final(core), r),
{
    let ghost c0 = *core;
    let ea = effective_address::absolute_long(core);
    let ghost m1 = *core;
    assert(effective_address::absolute_long_rel(c0, m1, ea));
    match ea {
        Err(e) => Err(e),
        Ok(a) => {
            if core.dar[15] & 1 != 0 {
                return Err(stack_fault(core, core.dar[15].wrapping_sub(4), AccessType::Write));
            }
            core.push_32(a);
            Ok(Cycles(20))
        },
    }
}

/// What `pea_32_pcdi` does: the core goes from `c0` to `c1` and `r` comes back.
pub open spec fn pea_32_pcdi_effect(c0: ConfiguredCore, c1: ConfiguredCore, r: Result<Cycles>) -> bool {
    exists|m1: ConfiguredCore, ea: Result<u32>|
        #[trigger] effective_address::displacement_pc_rel(c0, m1, ea) && match ea {
            Err(e) => r == Err::<Cycles, Exception>(e) && c1 == m1,
            Ok(a) => if sp_odd(m1) {
                r == Err::<Cycles, Exception>(stack_error(m1, wsub(m1.dar[15], 4), AccessType::Write)) && c1 == m1
            } else {
                r == Ok::<Cycles, Exception>(Cycles(16)) && pushed_32(m1, c1, a)
            },
        }
}

/// PEA: the effective address pushed on the stack.
pub fn pea_32_pcdi(core: &mut ConfiguredCore) -> (r: Result<Cycles>)
    requires
        old(core).wf(),
    ensures
        final(core).wf(),
        pea_32_pcdi_effect(*old(core), *final(core), r),
{
    let ghost c0 = *core;
    let ea = effective_address::displacement_pc(core);
    let ghost m1 = *core;
    assert(effective_address::displacement_pc_rel(c0, m1, ea));
    match ea {
        Err(e) => Err(e),
        Ok(a) => {
            if core.dar[15] & 1 != 0 {
                return Err(stack_fault(core, core.dar[15].wrapping_sub(4), AccessType::Write));
            }
            core.push_32(a);
            Ok(Cycles(16))
        },
    }
}

/// What `pea_32_pcix` does: the core goes from `c0` to `c1` and `r` comes back.
pub open spec fn pea_32_pcix_effect(c0: ConfiguredCore, c1: ConfiguredCore, r: Result<Cycles>) -> bool {
    exists|m1: ConfiguredCore, ea: Result<u32>|
        #[trigger] effective_address::index_pc_rel(c0, m1, ea) && match ea {
            Err(e) => r == Err::<Cycles, Exception>(e) && c1 == m1,
            Ok(a) => if sp_odd(m1) {
                r == Err::<Cycles, Exception>(stack_error(m1, wsub(m1.dar[15], 4), AccessType::Write)) && c1 == m1
            } else {
                r == Ok::<Cycles, Exception>(Cycles(20)) && pushed_32(m1, c1, a)
            },
        }
}

/// PEA: the effective address pushed on the stack.
pub fn pea_32_pcix(core: &mut ConfiguredCore) -> (r: Result<Cycles>)
    requires
        old(core).wf(),
    ensures
        final(core).wf(),
        pea_32_pcix_effect(*old(core), *final(core), r),
{
    let ghost c0 = *core;
    let ea = effective_address::index_pc(core);
    let ghost m1 = *core;
    assert(effective_address::index_pc_rel(c0, m1, ea));
    match ea {
        Err(e) => Err(e),
        Ok(a) => {
            if core.dar[15] & 1 != 0 {
                return Err(stack_fault(core, core.dar[15].wrapping_sub(4), AccessType::Write));
            }
            core.push_32(a);
            Ok(Cycles(20))
        },
    }
}

/// What `scc_8_dn` does: the core goes from `c0` to `c1` and `r` comes back.
pub open spec fn scc_8_dn_effect(c0: ConfiguredCore, c1: ConfiguredCore, r: Result<Cycles>) -> bool {
    let reg = ir_dy(c0.ir);
    if condition(c0, 4) {
        r == Ok::<Cycles, Exception>(Cycles(6)) && reg_set(c0, c1, reg, c0.dar[reg] | 0xff)
    } else {
        r == Ok::<Cycles, Exception>(Cycles(4)) && reg_set(c0, c1, reg, c0.dar[reg] & 0xffff_ff00)
    }
}

/// Scc on Dy: the low byte set to all ones when the condition holds, to
/// zero otherwise.
pub fn scc_8_dn(core: &mut ConfiguredCore) -> (r: Result<Cycles>)
    requires
        old(core).wf(),
    ensures
        final(core).wf(),
        scc_8_dn_effect(*old(core), *final(core), r),
{
    let reg = reg_dy(core.ir);
    let v = core.dar[reg];
    if core.cond_cc() {
        set_reg(core, reg, v | 0xff);
        Ok(Cycles(6))
    } else {
        set_reg(core, reg, v & 0xffff_ff00);
        Ok(Cycles(4))
    }
}

/// What `scc_8_ai` does: the core goes from `c0` to `c1` and `r` comes back.
pub open spec fn scc_8_ai_effect(c0: ConfiguredCore, c1: ConfiguredCore, r: Result<Cycles>) -> bool {
    let t = flag_byte(condition(c0, 4));
    exists|m1: ConfiguredCore, ea: Result<u32>|
        #[trigger] effective_address::address_indirect_ay_rel(c0, m1, ea) && match ea {
            Err(e) => r == Err::<Cycles, Exception>(e) && c1 == m1,
            Ok(a) => exists|m2: ConfiguredCore, w: Result<()>|
                #[trigger] data_written(m1, m2, 8, a, t, w) && c1 == m2 && match w {
                    Err(e) => r == Err::<Cycles, Exception>(e),
                    Ok(_) => r == Ok::<Cycles, Exception>(Cycles(12)),
                },
        }
}

/// Scc on memory: the byte written is all ones when the condition holds,
/// zero otherwise.
pub fn scc_8_ai(core: &mut ConfiguredCore) -> (r: Result<Cycles>)
    requires
        old(core).wf(),
    ensures
        final(core).wf(),
        scc_8_ai_effect(*old(core), *final(core), r),
{
    let t: u32 = if core.cond_cc() {
        0xff
    } else {
        0
    };
    let ghost c0 = *core;
    let ea = effective_address::address_indirect_ay(core);
    let ghost m1 = *core;
    assert(effective_address::address_indirect_ay_rel(c0, m1, ea));
    let a = match ea {
        Err(e) => {
            return Err(e);
        },
        Ok(a) => a,
    };
    let w = write_sized(core, 8, a, t);
    let ghost m2 = *core;
    assert(t == flag_byte(condition(c0, 4)));
    assert(data_written(m1, m2, 8, a, flag_byte(condition(c0, 4)), w));
    match w {
        Err(e) => Err(e),
        Ok(()) => Ok(Cycles(12)),
    }
}

/// What `scc_8_al` does: the core goes from `c0` to `c1` and `r` comes back.
pub open spec fn scc_8_al_effect(c0: ConfiguredCore, c1: ConfiguredCore, r: Result<Cycles>) -> bool {
    let t = flag_byte(condition(c0, 4));
    exists|m1: ConfiguredCore, ea: Result<u32>|
        #[trigger] effective_address::absolute_long_rel(c0, m1, ea) && match ea {
            Err(e) => r == Err::<Cycles, Exception>(e) && c1 == m1,
            Ok(a) => exists|m2: ConfiguredCore, w: Result<()>|
                #[trigger] data_written(m1, m2, 8, a, t, w) && c1 == m2 && match w {
                    Err(e) => r == Err::<Cycles, Exception>(e),
                    Ok(_) => r == Ok::<Cycles, Exception>(Cycles(20)),
                },
        }
}

/// Scc on memory: the byte written is all ones when the condition holds,
/// zero otherwise.
pub fn scc_8_al(core: &mut ConfiguredCore) -> (r: Result<Cycles>)
    requires
        old(core).wf(),
    ensures
        final(core).wf(),
        scc_8_al_effect(*old(core), *final(core), r),
{
    let t: u32 = if core.cond_cc() {
        0xff
    } else {
        0
    };
    let ghost c0 = *core;
    let ea = effective_address::absolute_long(core);
    let ghost m1 = *core;
    assert(effective_address::absolute_long_rel(c0, m1, ea));
    let a = match ea {
        Err(e) => {
            return Err(e);
        },
        Ok(a) => a,
    };
    let w = write_sized(core, 8, a, t);
    let ghost m2 = *core;
    assert(t == flag_byte(condition(c0, 4)));
    assert(data_written(m1, m2, 8, a, flag_byte(condition(c0, 4)), w));
    match w {
        Err(e) => Err(e),
        Ok(()) => Ok(Cycles(20)),
    }
}

/// What `scc_8_aw` does: the core goes from `c0` to `c1` and `r` comes back.
pub open spec fn scc_8_aw_effect(c0: ConfiguredCore, c1: ConfiguredCore, r: Result<Cycles>) -> bool {
    let t = flag_byte(condition(c0, 4));
    exists|m1: ConfiguredCore, ea: Result<u32>|
        #[trigger] effective_address::absolute_word_rel(c0, m1, ea) && match ea {
            Err(e) => r == Err::<Cycles, Exception>(e) && c1 == m1,
            Ok(a) => exists|m2: ConfiguredCore, w: Result<()>|
                #[trigger] data_written(m1, m2, 8, a, t, w) && c1 == m2 && match w {
                    Err(e) => r == Err::<Cycles, Exception>(e),
                    Ok(_) => r == Ok::<Cycles, Exception>(Cycles(16)),
                },
        }
}

/// Scc on memory: the byte written is all ones when the condition holds,
/// zero otherwise.
pub fn scc_8_aw(core: &mut ConfiguredCore) -> (r: Result<Cycles>)
    requires
        old(core).wf(),
    ensures
        final(core).wf(),
        scc_8_aw_effect(*old(core), *final(core), r),
{
    let t: u32 = if core.cond_cc() {
        0xff
    } else {
        0
    };
    let ghost c0 = *core;
    let ea = effective_address::absolute_word(core);
    let ghost m1 = *core;
    assert(effective_address::absolute_word_rel(c0, m1, ea));
    let a = match ea {
        Err(e) => {
            return Err(e);
        },
        Ok(a) => a,
    };
    let w = write_sized(core, 8, a, t);
    let ghost m2 = *core;
    assert(t == flag_byte(condition(c0, 4)));
    assert(data_written(m1, m2, 8, a, flag_byte(condition(c0, 4)), w));
    match w {
        Err(e) => Err(e),
        Ok(()) => Ok(Cycles(16)),
    }
}

/// What `scc_8_di` does: the core goes from `c0` to `c1` and `r` comes back.
pub open spec fn scc_8_di_effect(c0: ConfiguredCore, c1: ConfiguredCore, r: Result<Cycles>) -> bool {
    let t = flag_byte(condition(c0, 4));
    exists|m1: ConfiguredCore, ea: Result<u32>|
        #[trigger] effective_address::displacement_ay_rel(c0, m1, ea) && match ea {
            Err(e) => r == Err::<Cycles, Exception>(e) && c1 == m1,
            Ok(a) => exists|m2: ConfiguredCore, w: Result<()>|
                #[trigger] data_written(m1, m2, 8, a, t, w) && c1 == m2 && match w {
                    Err(e) => r == Err::<Cycles, Exception>(e),
                    Ok(_) => r == Ok::<Cycles, Exception>(Cycles(16)),
                },
        }
}

/// Scc on memory: the byte written is all ones when the condition holds,
/// zero otherwise.
pub fn scc_8_di(core: &mut ConfiguredCore) -> (r: Result<Cycles>)
    requires
        old(core).wf(),
    ensures
        final(core).wf(),
        scc_8_di_effect(*old(core), *final(core), r),
{
    let t: u32 = if core.cond_cc() {
        0xff
    } else {
        0
    };
    let ghost c0 = *core;
    let ea = effective_address::displacement_ay(core);
    let ghost m1 = *core;
    assert(effective_address::displacement_ay_rel(c0, m1, ea));
    let a = match ea {
        Err(e) => {
            return Err(e);
        },
        Ok(a) => a,
    };
    let w = write_sized(core, 8, a, t);
    let ghost m2 = *core;
    assert(t == flag_byte(condition(c0, 4)));
    assert(data_written(m1, m2, 8, a, flag_byte(condition(c0, 4)), w));
    match w {
        Err(e) => Err(e),
        Ok(()) => Ok(Cycles(16)),
    }
}

/// What `scc_8_ix` does: the core goes from `c0` to `c1` and `r` comes back.
pub open spec fn scc_8_ix_effect(c0: ConfiguredCore, c1: ConfiguredCore, r: Result<Cycles>) -> bool {
    let t = flag_byte(condition(c0, 4));
    exists|m1: ConfiguredCore, ea: Result<u32>|
        #[trigger] effective_address::index_ay_rel(c0, m1, ea) && match ea {
            Err(e) => r == Err::<Cycles, Exception>(e) && c1 == m1,
            Ok(a) => exists|m2: ConfiguredCore, w: Result<()>|
                #[trigger] data_written(m1, m2, 8, a, t, w) && c1 == m2 && match w {
                    Err(e) => r == Err::<Cycles, Exception>(e),
                    Ok(_) => r == Ok::<Cycles, Exception>(Cycles(18)),
                },
        }
}

/// Scc on memory: the byte written is all ones when the condition holds,
/// zero otherwise.
pub fn scc_8_ix(core: &mut ConfiguredCore) -> (r: Result<Cycles>)
    requires
        old(core).wf(),
    ensures
        final(core).wf(),
        scc_8_ix_effect(*old(core), *final(core), r),
{
    let t: u32 = if core.cond_cc() {
        0xff
    } else {
        0
    };
    let ghost c0 = *core;
    let ea = effective_address::index_ay(core);
    let ghost m1 = *core;
    assert(effective_address::index_ay_rel(c0, m1, ea));
    let a = match ea {
        Err(e) => {
            return Err(e);
        },
        Ok(a) => a,
    };
    let w = write_sized(core, 8, a, t);
    let ghost m2 = *core;
    assert(t == flag_byte(condition(c0, 4)));
    assert(data_written(m1, m2, 8, a, flag_byte(condition(c0, 4)), w));
    match w {
        Err(e) => Err(e),
        Ok(()) => Ok(Cycles(18)),
    }
}

/// What `scc_8_pd` does: the core goes from `c0` to `c1` and `r` comes back.
pub open spec fn scc_8_pd_effect(c0: ConfiguredCore, c1: ConfiguredCore, r: Result<Cycles>) -> bool {
    let t = flag_byte(condition(c0, 4));
    exists|m1: ConfiguredCore, ea: Result<u32>|
        #[trigger] effective_address::predecrement_ay_8_rel(c0, m1, ea) && match ea {
            Err(e) => r == Err::<Cycles, Exception>(e) && c1 == m1,
            Ok(a) => exists|m2: ConfiguredCore, w: Result<()>|
                #[trigger] data_written(m1, m2, 8, a, t, w) && c1 == m2 && match w {
                    Err(e) => r == Err::<Cycles, Exception>(e),
                    Ok(_) => r == Ok::<Cycles, Exception>(Cycles(14)),
                },
        }
}

/// Scc on memory: the byte written is all ones when the condition holds,
/// zero otherwise.
pub fn scc_8_pd(core: &mut ConfiguredCore) -> (r: Result<Cycles>)
    requires
        old(core).wf(),
    ensures
        final(core).wf(),
        scc_8_pd_effect(*old(core), *final(core), r),
{
    let t: u32 = if core.cond_cc() {
        0xff
    } else {
        0
    };
    let ghost c0 = *core;
    let ea = effective_address::predecrement_ay_8(core);
    let ghost m1 = *core;
    assert(effective_address::predecrement_ay_8_rel(c0, m1, ea));
    let a = match ea {
        Err(e) => {
            return Err(e);
        },
        Ok(a) => a,
    };
    let w = write_sized(core, 8, a, t);
    let ghost m2 = *core;
    assert(t == flag_byte(condition(c0, 4)));
    assert(data_written(m1, m2, 8, a, flag_byte(condition(c0, 4)), w));
    match w {
        Err(e) => Err(e),
        Ok(()) => Ok(Cycles(14)),
    }
}

/// What `scc_8_pi` does: the core goes from `c0` to `c1` and `r` comes back.
pub open spec fn scc_8_pi_effect(c0: ConfiguredCore, c1: ConfiguredCore, r: Result<Cycles>) -> bool {
    let t = flag_byte(condition(c0, 4));
    exists|m1: ConfiguredCore, ea: Result<u32>|
        #[trigger] effective_address::postincrement_ay_8_rel(c0, m1, ea) && match ea {
            Err(e) => r == Err::<Cycles, Exception>(e) && c1 == m1,
            Ok(a) => exists|m2: ConfiguredCore, w: Result<()>|
                #[trigger] data_written(m1, m2, 8, a, t, w) && c1 == m2 && match w {
                    Err(e) => r == Err::<Cycles, Exception>(e),
                    Ok(_) => r == Ok::<Cycles, Exception>(Cycles(12)),
                },
        }
}

/// Scc on memory: the byte written is all ones when the condition holds,
/// zero otherwise.
pub fn scc_8_pi(core: &mut ConfiguredCore) -> (r: Result<Cycles>)
    requires
        old(core).wf(),
    ensures
        final(core).wf(),
        scc_8_pi_effect(*old(core), *final(core), r),
{
    let t: u32 = if core.cond_cc() {
        0xff
    } else {
        0
    };
    let ghost c0 = *core;
    let ea = effective_address::postincrement_ay_8(core);
    let ghost m1 = *core;
    assert(effective_address::postincrement_ay_8_rel(c0, m1, ea));
    let a = match ea {
        Err(e) => {
            return Err(e);
        },
        Ok(a) => a,
    };
    let w = write_sized(core, 8, a, t);
    let ghost m2 = *core;
    assert(t == flag_byte(condition(c0, 4)));
    assert(data_written(m1, m2, 8, a, flag_byte(condition(c0, 4)), w));
    match w {
        Err(e) => Err(e),
        Ok(()) => Ok(Cycles(12)),
    }
}

/// What `scs_8_dn` does: the core goes from `c0` to `c1` and `r` comes back.
pub open spec fn scs_8_dn_effect(c0: ConfiguredCore, c1: ConfiguredCore, r: Result<Cycles>) -> bool {
    let reg = ir_dy(c0.ir);
    if condition(c0, 5) {
        r == Ok::<Cycles, Exception>(Cycles(6)) && reg_set(c0, c1, reg, c0.dar[reg] | 0xff)
    } else {
        r == Ok::<Cycles, Exception>(Cycles(4)) && reg_set(c0, c1, reg, c0.dar[reg] & 0xffff_ff00)
    }
}

/// Scc on Dy: the low byte set to all ones when the condition holds, to
/// zero otherwise.
pub fn scs_8_dn(core: &mut ConfiguredCore) -> (r: Result<Cycles>)
    requires
        old(core).wf(),
    ensures
        final(core).wf(),
        scs_8_dn_effect(*old(core), *final(core), r),
{
    let reg = reg_dy(core.ir);
    let v = core.dar[reg];
    if core.cond_cs() {
        set_reg(core, reg, v | 0xff);
        Ok(Cycles(6))
    } else {
        set_reg(core, reg, v & 0xffff_ff00);
        Ok(Cycles(4))
    }
}

/// What `scs_8_ai` does: the core goes from `c0` to `c1` and `r` comes back.
pub open spec fn scs_8_ai_effect(c0: ConfiguredCore, c1: ConfiguredCore, r: Result<Cycles>) -> bool {
    let t = flag_byte(condition(c0, 5));
    exists|m1: ConfiguredCore, ea: Result<u32>|
        #[trigger] effective_address::address_indirect_ay_rel(c0, m1, ea) && match ea {
            Err(e) => r == Err::<Cycles, Exception>(e) && c1 == m1,
            Ok(a) => exists|m2: ConfiguredCore, w: Result<()>|
                #[trigger] data_written(m1, m2, 8, a, t, w) && c1 == m2 && match w {
                    Err(e) => r == Err::<Cycles, Exception>(e),
                    Ok(_) => r == Ok::<Cycles, Exception>(Cycles(12)),
                },
        }
}

/// Scc on memory: the byte written is all ones when the condition holds,
/// zero otherwise.
pub fn scs_8_ai(core: &mut ConfiguredCore) -> (r: Result<Cycles>)
    requires
        old(core).wf(),
    ensures
        final(core).wf(),
        scs_8_ai_effect(*old(core), *final(core), r),
{
    let t: u32 = if core.cond_cs() {
        0xff
    } else {
        0
    };
    let ghost c0 = *core;
    let ea = effective_address::address_indirect_ay(core);
    let ghost m1 = *core;
    assert(effective_address::address_indirect_ay_rel(c0, m1, ea));
    let a = match ea {
        Err(e) => {
            return Err(e);
        },
        Ok(a) => a,
    };
    let w = write_sized(core, 8, a, t);
    let ghost m2 = *core;
    assert(t == flag_byte(condition(c0, 5)));
    assert(data_written(m1, m2, 8, a, flag_byte(condition(c0, 5)), w));
    match w {
        Err(e) => Err(e),
        Ok(()) => Ok(Cycles(12)),
    }
}

/// What `scs_8_al` does: the core goes from `c0` to `c1` and `r` comes back.
pub open spec fn scs_8_al_effect(c0: ConfiguredCore, c1: ConfiguredCore, r: Result<Cycles>) -> bool {
    let t = flag_byte(condition(c0, 5));
    exists|m1: ConfiguredCore, ea: Result<u32>|
        #[trigger] effective_address::absolute_long_rel(c0, m1, ea) && match ea {
            Err(e) => r == Err::<Cycles, Exception>(e) && c1 == m1,
            Ok(a) => exists|m2: ConfiguredCore, w: Result<()>|
                #[trigger] data_written(m1, m2, 8, a, t, w) && c1 == m2 && match w {
                    Err(e) => r == Err::<Cycles, Exception>(e),
                    Ok(_) => r == Ok::<Cycles, Exception>(Cycles(20)),
                },
        }
}

/// Scc on memory: the byte written is all ones when the condition holds,
/// zero otherwise.
pub fn scs_8_al(core: &mut ConfiguredCore) -> (r: Result<Cycles>)
    requires
        old(core).wf(),
    ensures
        final(core).wf(),
        scs_8_al_effect(*old(core), *final(core), r),
{
    let t: u32 = if core.cond_cs() {
        0xff
    } else {
        0
    };
    let ghost c0 = *core;
    let ea = effective_address::absolute_long(core);
    let ghost m1 = *core;
    assert(effective_address::absolute_long_rel(c0, m1, ea));
    let a = match ea {
        Err(e) => {
            return Err(e);
        },
        Ok(a) => a,
    };
    let w = write_sized(core, 8, a, t);
    let ghost m2 = *core;
    assert(t == flag_byte(condition(c0, 5)));
    assert(data_written(m1, m2, 8, a, flag_byte(condition(c0, 5)), w));
    match w {
        Err(e) => Err(e),
        Ok(()) => Ok(Cycles(20)),
    }
}

/// What `scs_8_aw` does: the core goes from `c0` to `c1` and `r` comes back.
pub open spec fn scs_8_aw_effect(c0: ConfiguredCore, c1: ConfiguredCore, r: Result<Cycles>) -> bool {
    let t = flag_byte(condition(c0, 5));
    exists|m1: ConfiguredCore, ea: Result<u32>|
        #[trigger] effective_address::absolute_word_rel(c0, m1, ea) && match ea {
            Err(e) => r == Err::<Cycles, Exception>(e) && c1 == m1,
            Ok(a) => exists|m2: ConfiguredCore, w: Result<()>|
                #[trigger] data_written(m1, m2, 8, a, t, w) && c1 == m2 && match w {
                    Err(e) => r == Err::<Cycles, Exception>(e),
                    Ok(_) => r == Ok::<Cycles, Exception>(Cycles(16)),
                },
        }
}

/// Scc on memory: the byte written is all ones when the condition holds,
/// zero otherwise.
pub fn scs_8_aw(core: &mut ConfiguredCore) -> (r: Result<Cycles>)
    requires
        old(core).wf(),
    ensures
        final(core).wf(),
        scs_8_aw_effect(*old(core), *final(core), r),
{
    let t: u32 = if core.cond_cs() {
        0xff
    } else {
        0
    };
    let ghost c0 = *core;
    let ea = effective_address::absolute_word(core);
    let ghost m1 = *core;
    assert(effective_address::absolute_word_rel(c0, m1, ea));
    let a = match ea {
        Err(e) => {
            return Err(e);
        },
        Ok(a) => a,
    };
    let w = write_sized(core, 8, a, t);
    let ghost m2 = *core;
    assert(t == flag_byte(condition(c0, 5)));
    assert(data_written(m1, m2, 8, a, flag_byte(condition(c0, 5)), w));
    match w {
        Err(e) => Err(e),
        Ok(()) => Ok(Cycles(16)),
    }
}

/// What `scs_8_di` does: the core goes from `c0` to `c1` and `r` comes back.
pub open spec fn scs_8_di_effect(c0: ConfiguredCore, c1: ConfiguredCore, r: Result<Cycles>) -> bool {
    let t = flag_byte(condition(c0, 5));
    exists|m1: ConfiguredCore, ea: Result<u32>|
        #[trigger] effective_address::displacement_ay_rel(c0, m1, ea) && match ea {
            Err(e) => r == Err::<Cycles, Exception>(e) && c1 == m1,
            Ok(a) => exists|m2: ConfiguredCore, w: Result<()>|
                #[trigger] data_written(m1, m2, 8, a, t, w) && c1 == m2 && match w {
                    Err(e) => r == Err::<Cycles, Exception>(e),
                    Ok(_) => r == Ok::<Cycles, Exception>(Cycles(16)),
                },
        }
}

/// Scc on memory: the byte written is all ones when the condition holds,
/// zero otherwise.
pub fn scs_8_di(core: &mut ConfiguredCore) -> (r: Result<Cycles>)
    requires
        old(core).wf(),
    ensures
        final(core).wf(),
        scs_8_di_effect(*old(core), *final(core), r),
{
    let t: u32 = if core.cond_cs() {
        0xff
    } else {
        0
    };
    let ghost c0 = *core;
    let ea = effective_address::displacement_ay(core);
    let ghost m1 = *core;
    assert(effective_address::displacement_ay_rel(c0, m1, ea));
    let a = match ea {
        Err(e) => {
            return Err(e);
        },
        Ok(a) => a,
    };
    let w = write_sized(core, 8, a, t);
    let ghost m2 = *core;
    assert(t == flag_byte(condition(c0, 5)));
    assert(data_written(m1, m2, 8, a, flag_byte(condition(c0, 5)), w));
    match w {
        Err(e) => Err(e),
        Ok(()) => Ok(Cycles(16)),
    }
}

/// What `scs_8_ix` does: the core goes from `c0` to `c1` and `r` comes back.
pub open spec fn scs_8_ix_effect(c0: ConfiguredCore, c1: ConfiguredCore, r: Result<Cycles>) -> bool {
    let t = flag_byte(condition(c0, 5));
    exists|m1: ConfiguredCore, ea: Result<u32>|
        #[trigger] effective_address::index_ay_rel(c0, m1, ea) && match ea {
            Err(e) => r == Err::<Cycles, Exception>(e) && c1 == m1,
            Ok(a) => exists|m2: ConfiguredCore, w: Result<()>|
                #[trigger] data_written(m1, m2, 8, a, t, w) && c1 == m2 && match w {
                    Err(e) => r == Err::<Cycles, Exception>(e),
                    Ok(_) => r == Ok::<Cycles, Exception>(Cycles(18)),
                },
        }
}

/// Scc on memory: the byte written is all ones when the condition holds,
/// zero otherwise.
pub fn scs_8_ix(core: &mut ConfiguredCore) -> (r: Result<Cycles>)
    requires
        old(core).wf(),
    ensures
        final(core).wf(),
        scs_8_ix_effect(*old(core), *final(core), r),
{
    let t: u32 = if core.cond_cs() {
        0xff
    } else {
        0
    };
    let ghost c0 = *core;
    let ea = effective_address::index_ay(core);
    let ghost m1 = *core;
    assert(effective_address::index_ay_rel(c0, m1, ea));
    let a = match ea {
        Err(e) => {
            return Err(e);
        },
        Ok(a) => a,
    };
    let w = write_sized(core, 8, a, t);
    let ghost m2 = *core;
    assert(t == flag_byte(condition(c0, 5)));
    assert(data_written(m1, m2, 8, a, flag_byte(condition(c0, 5)), w));
    match w {
        Err(e) => Err(e),
        Ok(()) => Ok(Cycles(18)),
    }
}

/// What `scs_8_pd` does: the core goes from `c0` to `c1` and `r` comes back.
pub open spec fn scs_8_pd_effect(c0: ConfiguredCore, c1: ConfiguredCore, r: Result<Cycles>) -> bool {
    let t = flag_byte(condition(c0, 5));
    exists|m1: ConfiguredCore, ea: Result<u32>|
        #[trigger] effective_address::predecrement_ay_8_rel(c0, m1, ea) && match ea {
            Err(e) => r == Err::<Cycles, Exception>(e) && c1 == m1,
            Ok(a) => exists|m2: ConfiguredCore, w: Result<()>|
                #[trigger] data_written(m1, m2, 8, a, t, w) && c1 == m2 && match w {
                    Err(e) => r == Err::<Cycles, Exception>(e),
                    Ok(_) => r == Ok::<Cycles, Exception>(Cycles(14)),
                },
        }
}

/// Scc on memory: the byte written is all ones when the condition holds,
/// zero otherwise.
pub fn scs_8_pd(core: &mut ConfiguredCore) -> (r: Result<Cycles>)
    requires
        old(core).wf(),
    ensures
        final(core).wf(),
        scs_8_pd_effect(*old(core), *final(core), r),
{
    let t: u32 = if core.cond_cs() {
        0xff
    } else {
        0
    };
    let ghost c0 = *core;
    let ea = effective_address::predecrement_ay_8(core);
    let ghost m1 = *core;
    assert(effective_address::predecrement_ay_8_rel(c0, m1, ea));
    let a = match ea {
        Err(e) => {
            return Err(e);
        },
        Ok(a) => a,
    };
    let w = write_sized(core, 8, a, t);
    let ghost m2 = *core;
    assert(t == flag_byte(condition(c0, 5)));
    assert(data_written(m1, m2, 8, a, flag_byte(condition(c0, 5)), w));
    match w {
        Err(e) => Err(e),
        Ok(()) => Ok(Cycles(14)),
    }
}

/// What `scs_8_pi` does: the core goes from `c0` to `c1` and `r` comes back.
pub open spec fn scs_8_pi_effect(c0: ConfiguredCore, c1: ConfiguredCore, r: Result<Cycles>) -> bool {
    let t = flag_byte(condition(c0, 5));
    exists|m1: ConfiguredCore, ea: Result<u32>|
        #[trigger] effective_address::postincrement_ay_8_rel(c0, m1, ea) && match ea {
            Err(e) => r == Err::<Cycles, Exception>(e) && c1 == m1,
            Ok(a) => exists|m2: ConfiguredCore, w: Result<()>|
                #[trigger] data_written(m1, m2, 8, a, t, w) && c1 == m2 && match w {
                    Err(e) => r == Err::<Cycles, Exception>(e),
                    Ok(_) => r == Ok::<Cycles, Exception>(Cycles(12)),
                },
        }
}

/// Scc on memory: the byte written is all ones when the condition holds,
/// zero otherwise.
pub fn scs_8_pi(core: &mut ConfiguredCore) -> (r: Result<Cycles>)
    requires
        old(core).wf(),
    ensures
        final(core).wf(),
        scs_8_pi_effect(*old(core), *final(core), r),
{
    let t: u32 = if core.cond_cs() {
        0xff
    } else {
        0
    };
    let ghost c0 = *core;
    let ea = effective_address::postincrement_ay_8(core);
    let ghost m1 = *core;
    assert(effective_address::postincrement_ay_8_rel(c0, m1, ea));
    let a = match ea {
        Err(e) => {
            return Err(e);
        },
        Ok(a) => a,
    };
    let w = write_sized(core, 8, a, t);
    let ghost m2 = *core;
    assert(t == flag_byte(condition(c0, 5)));
    assert(data_written(m1, m2, 8, a, flag_byte(condition(c0, 5)), w));
    match w {
        Err(e) => Err(e),
        Ok(()) => Ok(Cycles(12)),
    }
}

/// What `seq_8_dn` does: the core goes from `c0` to `c1` and `r` comes back.
pub open spec fn seq_8_dn_effect(c0: ConfiguredCore, c1: ConfiguredCore, r: Result<Cycles>) -> bool {
    let reg = ir_dy(c0.ir);
    if condition(c0, 7) {
        r == Ok::<Cycles, Exception>(Cycles(6)) && reg_set(c0, c1, reg, c0.dar[reg] | 0xff)
    } else {
        r == Ok::<Cycles, Exception>(Cycles(4)) && reg_set(c0, c1, reg, c0.dar[reg] & 0xffff_ff00)
    }
}

/// Scc on Dy: the low byte set to all ones when the condition holds, to
/// zero otherwise.
pub fn seq_8_dn(core: &mut ConfiguredCore) -> (r: Result<Cycles>)
    requires
        old(core).wf(),
    ensures
        final(core).wf(),
        seq_8_dn_effect(*old(core), *final(core), r),
{
    let reg = reg_dy(core.ir);
    let v = core.dar[reg];
    if core.cond_eq() {
        set_reg(core, reg, v | 0xff);
        Ok(Cycles(6))
    } else {
        set_reg(core, reg, v & 0xffff_ff00);
        Ok(Cycles(4))
    }
}

/// What `seq_8_ai` does: the core goes from `c0` to `c1` and `r` comes back.
pub open spec fn seq_8_ai_effect(c0: ConfiguredCore, c1: ConfiguredCore, r: Result<Cycles>) -> bool {
    let t = flag_byte(condition(c0, 7));
    exists|m1: ConfiguredCore, ea: Result<u32>|
        #[trigger] effective_address::address_indirect_ay_rel(c0, m1, ea) && match ea {
            Err(e) => r == Err::<Cycles, Exception>(e) && c1 == m1,
            Ok(a) => exists|m2: ConfiguredCore, w: Result<()>|
                #[trigger] data_written(m1, m2, 8, a, t, w) && c1 == m2 && match w {
                    Err(e) => r == Err::<Cycles, Exception>(e),
                    Ok(_) => r == Ok::<Cycles, Exception>(Cycles(12)),
                },
        }
}

/// Scc on memory: the byte written is all ones when the condition holds,
/// zero otherwise.
pub fn seq_8_ai(core: &mut ConfiguredCore) -> (r: Result<Cycles>)
    requires
        old(core).wf(),
    ensures
        final(core).wf(),
        seq_8_ai_effect(*old(core), *final(core), r),
{
    let t: u32 = if core.cond_eq() {
        0xff
    } else {
        0
    };
    let ghost c0 = *core;
    let ea = effective_address::address_indirect_ay(core);
    let ghost m1 = *core;
    assert(effective_address::address_indirect_ay_rel(c0, m1, ea));
    let a = match ea {
        Err(e) => {
            return Err(e);
        },
        Ok(a) => a,
    };
    let w = write_sized(core, 8, a, t);
    let ghost m2 = *core;
    assert(t == flag_byte(condition(c0, 7)));
    assert(data_written(m1, m2, 8, a, flag_byte(condition(c0, 7)), w));
    match w {
        Err(e) => Err(e),
        Ok(()) => Ok(Cycles(12)),
    }
}

/// What `seq_8_al` does: the core goes from `c0` to `c1` and `r` comes back.
pub open spec fn seq_8_al_effect(c0: ConfiguredCore, c1: ConfiguredCore, r: Result<Cycles>) -> bool {
    let t = flag_byte(condition(c0, 7));
    exists|m1: ConfiguredCore, ea: Result<u32>|
        #[trigger] effective_address::absolute_long_rel(c0, m1, ea) && match ea {
            Err(e) => r == Err::<Cycles, Exception>(e) && c1 == m1,
            Ok(a) => exists|m2: ConfiguredCore, w: Result<()>|
                #[trigger] data_written(m1, m2, 8, a, t, w) && c1 == m2 && match w {
                    Err(e) => r == Err::<Cycles, Exception>(e),
                    Ok(_) => r == Ok::<Cycles, Exception>(Cycles(20)),
                },
        }
}

/// Scc on memory: the byte written is all ones when the condition holds,
/// zero otherwise.
pub fn seq_8_al(core: &mut ConfiguredCore) -> (r: Result<Cycles>)
    requires
        old(core).wf(),
    ensures
        final(core).wf(),
        seq_8_al_effect(*old(core), *final(core), r),
{
    let t: u32 = if core.cond_eq() {
        0xff
    } else {
        0
    };
    let ghost c0 = *core;
    let ea = effective_address::absolute_long(core);
    let ghost m1 = *core;
    assert(effective_address::absolute_long_rel(c0, m1, ea));
    let a = match ea {
        Err(e) => {
            return Err(e);
        },
        Ok(a) => a,
    };
    let w = write_sized(core, 8, a, t);
    let ghost m2 = *core;
    assert(t == flag_byte(condition(c0, 7)));
    assert(data_written(m1, m2, 8, a, flag_byte(condition(c0, 7)), w));
    match w {
        Err(e) => Err(e),
        Ok(()) => Ok(Cycles(20)),
    }
}

/// What `seq_8_aw` does: the core goes from `c0` to `c1` and `r` comes back.
pub open spec fn seq_8_aw_effect(c0: ConfiguredCore, c1: ConfiguredCore, r: Result<Cycles>) -> bool {
    let t = flag_byte(condition(c0, 7));
    exists|m1: ConfiguredCore, ea: Result<u32>|
        #[trigger] effective_address::absolute_word_rel(c0, m1, ea) && match ea {
            Err(e) => r == Err::<Cycles, Exception>(e) && c1 == m1,
            Ok(a) => exists|m2: ConfiguredCore, w: Result<()>|
                #[trigger] data_written(m1, m2, 8, a, t, w) && c1 == m2 && match w {
                    Err(e) => r == Err::<Cycles, Exception>(e),
                    Ok(_) => r == Ok::<Cycles, Exception>(Cycles(16)),
                },
        }
}

/// Scc on memory: the byte written is all ones when the condition holds,
/// zero otherwise.
pub fn seq_8_aw(core: &mut ConfiguredCore) -> (r: Result<Cycles>)
    requires
        old(core).wf(),
    ensures
        final(core).wf(),
        seq_8_aw_effect(*old(core), *final(core), r),
{
    let t: u32 = if core.cond_eq() {
        0xff
    } else {
        0
    };
    let ghost c0 = *core;
    let ea = effective_address::absolute_word(core);
    let ghost m1 = *core;
    assert(effective_address::absolute_word_rel(c0, m1, ea));
    let a = match ea {
        Err(e) => {
            return Err(e);
        },
        Ok(a) => a,
    };
    let w = write_sized(core, 8, a, t);
    let ghost m2 = *core;
    assert(t == flag_byte(condition(c0, 7)));
    assert(data_written(m1, m2, 8, a, flag_byte(condition(c0, 7)), w));
    match w {
        Err(e) => Err(e),
        Ok(()) => Ok(Cycles(16)),
    }
}

/// What `seq_8_di` does: the core goes from `c0` to `c1` and `r` comes back.
pub open spec fn seq_8_di_effect(c0: ConfiguredCore, c1: ConfiguredCore, r: Result<Cycles>) -> bool {
    let t = flag_byte(condition(c0, 7));
    exists|m1: ConfiguredCore, ea: Result<u32>|
        #[trigger] effective_address::displacement_ay_rel(c0, m1, ea) && match ea {
            Err(e) => r == Err::<Cycles, Exception>(e) && c1 == m1,
            Ok(a) => exists|m2: ConfiguredCore, w: Result<()>|
                #[trigger] data_written(m1, m2, 8, a, t, w) && c1 == m2 && match w {
                    Err(e) => r == Err::<Cycles, Exception>(e),
                    Ok(_) => r == Ok::<Cycles, Exception>(Cycles(16)),
                },
        }
}

/// Scc on memory: the byte written is all ones when the condition holds,
/// zero otherwise.
pub fn seq_8_di(core: &mut ConfiguredCore) -> (r: Result<Cycles>)
    requires
        old(core).wf(),
    ensures
        final(core).wf(),
        seq_8_di_effect(*old(core), *final(core), r),
{
    let t: u32 = if core.cond_eq() {
        0xff
    } else {
        0
    };
    let ghost c0 = *core;
    let ea = effective_address::displacement_ay(core);
    let ghost m1 = *core;
    assert(effective_address::displacement_ay_rel(c0, m1, ea));
    let a = match ea {
        Err(e) => {
            return Err(e);
        },
        Ok(a) => a,
    };
    let w = write_sized(core, 8, a, t);
    let ghost m2 = *core;
    assert(t == flag_byte(condition(c0, 7)));
    assert(data_written(m1, m2, 8, a, flag_byte(condition(c0, 7)), w));
    match w {
        Err(e) => Err(e),
        Ok(()) => Ok(Cycles(16)),
    }
}

/// What `seq_8_ix` does: the core goes from `c0` to `c1` and `r` comes back.
pub open spec fn seq_8_ix_effect(c0: ConfiguredCore, c1: ConfiguredCore, r: Result<Cycles>) -> bool {
    let t = flag_byte(condition(c0, 7));
    exists|m1: ConfiguredCore, ea: Result<u32>|
        #[trigger] effective_address::index_ay_rel(c0, m1, ea) && match ea {
            Err(e) => r == Err::<Cycles, Exception>(e) && c1 == m1,
            Ok(a) => exists|m2: ConfiguredCore, w: Result<()>|
                #[trigger] data_written(m1, m2, 8, a, t, w) && c1 == m2 && match w {
                    Err(e) => r == Err::<Cycles, Exception>(e),
                    Ok(_) => r == Ok::<Cycles, Exception>(Cycles(18)),
                },
        }
}

/// Scc on memory: the byte written is all ones when the condition holds,
/// zero otherwise.
pub fn seq_8_ix(core: &mut ConfiguredCore) -> (r: Result<Cycles>)
    requires
        old(core).wf(),
    ensures
        final(core).wf(),
        seq_8_ix_effect(*old(core), *final(core), r),
{
    let t: u32 = if core.cond_eq() {
        0xff
    } else {
        0
    };
    let ghost c0 = *core;
    let ea = effective_address::index_ay(core);
    let ghost m1 = *core;
    assert(effective_address::index_ay_rel(c0, m1, ea));
    let a = match ea {
        Err(e) => {
            return Err(e);
        },
        Ok(a) => a,
    };
    let w = write_sized(core, 8, a, t);
    let ghost m2 = *core;
    assert(t == flag_byte(condition(c0, 7)));
    assert(data_written(m1, m2, 8, a, flag_byte(condition(c0, 7)), w));
    match w {
        Err(e) => Err(e),
        Ok(()) => Ok(Cycles(18)),
    }
}

/// What `seq_8_pd` does: the core goes from `c0` to `c1` and `r` comes back.
pub open spec fn seq_8_pd_effect(c0: ConfiguredCore, c1: ConfiguredCore, r: Result<Cycles>) -> bool {
    let t = flag_byte(condition(c0, 7));
    exists|m1: ConfiguredCore, ea: Result<u32>|
        #[trigger] effective_address::predecrement_ay_8_rel(c0, m1, ea) && match ea {
            Err(e) => r == Err::<Cycles, Exception>(e) && c1 == m1,
            Ok(a) => exists|m2: ConfiguredCore, w: Result<()>|
                #[trigger] data_written(m1, m2, 8, a, t, w) && c1 == m2 && match w {
                    Err(e) => r == Err::<Cycles, Exception>(e),
                    Ok(_) => r == Ok::<Cycles, Exception>(Cycles(14)),
                },
        }
}

/// Scc on memory: the byte written is all ones when the condition holds,
/// zero otherwise.
pub fn seq_8_pd(core: &mut ConfiguredCore) -> (r: Result<Cycles>)
    requires
        old(core).wf(),
    ensures
        final(core).wf(),
        seq_8_pd_effect(*old(core), *final(core), r),
{
    let t: u32 = if core.cond_eq() {
        0xff
    } else {
        0
    };
    let ghost c0 = *core;
    let ea = effective_address::predecrement_ay_8(core);
    let ghost m1 = *core;
    assert(effective_address::predecrement_ay_8_rel(c0, m1, ea));
    let a = match ea {
        Err(e) => {
            return Err(e);
        },
        Ok(a) => a,
    };
    let w = write_sized(core, 8, a, t);
    let ghost m2 = *core;
    assert(t == flag_byte(condition(c0, 7)));
    assert(data_written(m1, m2, 8, a, flag_byte(condition(c0, 7)), w));
    match w {
        Err(e) => Err(e),
        Ok(()) => Ok(Cycles(14)),
    }
}

/// What `seq_8_pi` does: the core goes from `c0` to `c1` and `r` comes back.
pub open spec fn seq_8_pi_effect(c0: ConfiguredCore, c1: ConfiguredCore, r: Result<Cycles>) -> bool {
    let t = flag_byte(condition(c0, 7));
    exists|m1: ConfiguredCore, ea: Result<u32>|
        #[trigger] effective_address::postincrement_ay_8_rel(c0, m1, ea) && match ea {
            Err(e) => r == Err::<Cycles, Exception>(e) && c1 == m1,
            Ok(a) => exists|m2: ConfiguredCore, w: Result<()>|
                #[trigger] data_written(m1, m2, 8, a, t, w) && c1 == m2 && match w {
                    Err(e) => r == Err::<Cycles, Exception>(e),
                    Ok(_) => r == Ok::<Cycles, Exception>(Cycles(12)),
                },
        }
}

/// Scc on memory: the byte written is all ones when the condition holds,
/// zero otherwise.
pub fn seq_8_pi(core: &mut ConfiguredCore) -> (r: Result<Cycles>)
    requires
        old(core).wf(),
    ensures
        final(core).wf(),
        seq_8_pi_effect(*old(core), *final(core), r),
{
    let t: u32 = if core.cond_eq() {
        0xff
    } else {
        0
    };
    let ghost c0 = *core;
    let ea = effective_address::postincrement_ay_8(core);
    let ghost m1 = *core;
    assert(effective_address::postincrement_ay_8_rel(c0, m1, ea));
    let a = match ea {
        Err(e) => {
            return Err(e);
        },
        Ok(a) => a,
    };
    let w = write_sized(core, 8, a, t);
    let ghost m2 = *core;
    assert(t == flag_byte(condition(c0, 7)));
    assert(data_written(m1, m2, 8, a, flag_byte(condition(c0, 7)), w));
    match w {
        Err(e) => Err(e),
        Ok(()) => Ok(Cycles(12)),
    }
}

/// What `sf_8_dn` does: the core goes from `c0` to `c1` and `r` comes back.
pub open spec fn sf_8_dn_effect(c0: ConfiguredCore, c1: ConfiguredCore, r: Result<Cycles>) -> bool {
    let reg = ir_dy(c0.ir);
    if condition(c0, 1) {
        r == Ok::<Cycles, Exception>(Cycles(6)) && reg_set(c0, c1, reg, c0.dar[reg] | 0xff)
    } else {
        r == Ok::<Cycles, Exception>(Cycles(4)) && reg_set(c0, c1, reg, c0.dar[reg] & 0xffff_ff00)
    }
}

/// Scc on Dy: the low byte set to all ones when the condition holds, to
/// zero otherwise.
pub fn sf_8_dn(core: &mut ConfiguredCore) -> (r: Result<Cycles>)
    requires
        old(core).wf(),
    ensures
        final(core).wf(),
        sf_8_dn_effect(*old(core), *final(core), r),
{
    let reg = reg_dy(core.ir);
    let v = core.dar[reg];
    if core.cond_f() {
        set_reg(core, reg, v | 0xff);
        Ok(Cycles(6))
    } else {
        set_reg(core, reg, v & 0xffff_ff00);
        Ok(Cycles(4))
    }
}

/// What `sf_8_ai` does: the core goes from `c0` to `c1` and `r` comes back.
pub open spec fn sf_8_ai_effect(c0: ConfiguredCore, c1: ConfiguredCore, r: Result<Cycles>) -> bool {
    let t = flag_byte(condition(c0, 1));
    exists|m1: ConfiguredCore, ea: Result<u32>|
        #[trigger] effective_address::address_indirect_ay_rel(c0, m1, ea) && match ea {
            Err(e) => r == Err::<Cycles, Exception>(e) && c1 == m1,
            Ok(a) => exists|m2: ConfiguredCore, w: Result<()>|
                #[trigger] data_written(m1, m2, 8, a, t, w) && c1 == m2 && match w {
                    Err(e) => r == Err::<Cycles, Exception>(e),
                    Ok(_) => r == Ok::<Cycles, Exception>(Cycles(12)),
                },
        }
}

/// Scc on memory: the byte written is all ones when the condition holds,
/// zero otherwise.
pub fn sf_8_ai(core: &mut ConfiguredCore) -> (r: Result<Cycles>)
    requires
        old(core).wf(),
    ensures
        final(core).wf(),
        sf_8_ai_effect(*old(core), *final(core), r),
{
    let t: u32 = if core.cond_f() {
        0xff
    } else {
        0
    };
    let ghost c0 = *core;
    let ea = effective_address::address_indirect_ay(core);
    let ghost m1 = *core;
    assert(effective_address::address_indirect_ay_rel(c0, m1, ea));
    let a = match ea {
        Err(e) => {
            return Err(e);
        },
        Ok(a) => a,
    };
    let w = write_sized(core, 8, a, t);
    let ghost m2 = *core;
    assert(t == flag_byte(condition(c0, 1)));
    assert(data_written(m1, m2, 8, a, flag_byte(condition(c0, 1)), w));
    match w {
        Err(e) => Err(e),
        Ok(()) => Ok(Cycles(12)),
    }
}

/// What `sf_8_al` does: the core goes from `c0` to `c1` and `r` comes back.
pub open spec fn sf_8_al_effect(c0: ConfiguredCore, c1: ConfiguredCore, r: Result<Cycles>) -> bool {
    let t = flag_byte(condition(c0, 1));
    exists|m1: ConfiguredCore, ea: Result<u32>|
        #[trigger] effective_address::absolute_long_rel(c0, m1, ea) && match ea {
            Err(e) => r == Err::<Cycles, Exception>(e) && c1 == m1,
            Ok(a) => exists|m2: ConfiguredCore, w: Result<()>|
                #[trigger] data_written(m1, m2, 8, a, t, w) && c1 == m2 && match w {
                    Err(e) => r == Err::<Cycles, Exception>(e),
                    Ok(_) => r == Ok::<Cycles, Exception>(Cycles(20)),
                },
        }
}

/// Scc on memory: the byte written is all ones when the condition holds,
/// zero otherwise.
pub fn sf_8_al(core: &mut ConfiguredCore) -> (r: Result<Cycles>)
    requires
        old(core).wf(),
    ensures
        final(core).wf(),
        sf_8_al_effect(*old(core), *final(core), r),
{
    let t: u32 = if core.cond_f() {
        0xff
    } else {
        0
    };
    let ghost c0 = *core;
    let ea = effective_address::absolute_long(core);
    let ghost m1 = *core;
    assert(effective_address::absolute_long_rel(c0, m1, ea));
    let a = match ea {
        Err(e) => {
            return Err(e);
        },
        Ok(a) => a,
    };
    let w = write_sized(core, 8, a, t);
    let ghost m2 = *core;
    assert(t == flag_byte(condition(c0, 1)));
    assert(data_written(m1, m2, 8, a, flag_byte(condition(c0, 1)), w));
    match w {
        Err(e) => Err(e),
        Ok(()) => Ok(Cycles(20)),
    }
}

/// What `sf_8_aw` does: the core goes from `c0` to `c1` and `r` comes back.
pub open spec fn sf_8_aw_effect(c0: ConfiguredCore, c1: ConfiguredCore, r: Result<Cycles>) -> bool {
    let t = flag_byte(condition(c0, 1));
    exists|m1: ConfiguredCore, ea: Result<u32>|
        #[trigger] effective_address::absolute_word_rel(c0, m1, ea) && match ea {
            Err(e) => r == Err::<Cycles, Exception>(e) && c1 == m1,
            Ok(a) => exists|m2: ConfiguredCore, w: Result<()>|
                #[trigger] data_written(m1, m2, 8, a, t, w) && c1 == m2 && match w {
                    Err(e) => r == Err::<Cycles, Exception>(e),
                    Ok(_) => r == Ok::<Cycles, Exception>(Cycles(16)),
                },
        }
}

/// Scc on memory: the byte written is all ones when the condition holds,
/// zero otherwise.
pub fn sf_8_aw(core: &mut ConfiguredCore) -> (r: Result<Cycles>)
    requires
        old(core).wf(),
    ensures
        final(core).wf(),
        sf_8_aw_effect(*old(core), *final(core), r),
{
    let t: u32 = if core.cond_f() {
        0xff
    } else {
        0
    };
    let ghost c0 = *core;
    let ea = effective_address::absolute_word(core);
    let ghost m1 = *core;
    assert(effective_address::absolute_word_rel(c0, m1, ea));
    let a = match ea {
        Err(e) => {
            return Err(e);
        },
        Ok(a) => a,
    };
    let w = write_sized(core, 8, a, t);
    let ghost m2 = *core;
    assert(t == flag_byte(condition(c0, 1)));
    assert(data_written(m1, m2, 8, a, flag_byte(condition(c0, 1)), w));
    match w {
        Err(e) => Err(e),
        Ok(()) => Ok(Cycles(16)),
    }
}

/// What `sf_8_di` does: the core goes from `c0` to `c1` and `r` comes back.
pub open spec fn sf_8_di_effect(c0: ConfiguredCore, c1: ConfiguredCore, r: Result<Cycles>) -> bool {
    let t = flag_byte(condition(c0, 1));
    exists|m1: ConfiguredCore, ea: Result<u32>|
        #[trigger] effective_address::displacement_ay_rel(c0, m1, ea) && match ea {
            Err(e) => r == Err::<Cycles, Exception>(e) && c1 == m1,
            Ok(a) => exists|m2: ConfiguredCore, w: Result<()>|
                #[trigger] data_written(m1, m2, 8, a, t, w) && c1 == m2 && match w {
                    Err(e) => r == Err::<Cycles, Exception>(e),
                    Ok(_) => r == Ok::<Cycles, Exception>(Cycles(16)),
                },
        }
}

/// Scc on memory: the byte written is all ones when the condition holds,
/// zero otherwise.
pub fn sf_8_di(core: &mut ConfiguredCore) -> (r: Result<Cycles>)
    requires
        old(core).wf(),
    ensures
        final(core).wf(),
        sf_8_di_effect(*old(core), *final(core), r),
{
    let t: u32 = if core.cond_f() {
        0xff
    } else {
        0
    };
    let ghost c0 = *core;
    let ea = effective_address::displacement_ay(core);
    let ghost m1 = *core;
    assert(effective_address::displacement_ay_rel(c0, m1, ea));
    let a = match ea {
        Err(e) => {
            return Err(e);
        },
        Ok(a) => a,
    };
    let w = write_sized(core, 8, a, t);
    let ghost m2 = *core;
    assert(t == flag_byte(condition(c0, 1)));
    assert(data_written(m1, m2, 8, a, flag_byte(condition(c0, 1)), w));
    match w {
        Err(e) => Err(e),
        Ok(()) => Ok(Cycles(16)),
    }
}

/// What `sf_8_ix` does: the core goes from `c0` to `c1` and `r` comes back.
pub open spec fn sf_8_ix_effect(c0: ConfiguredCore, c1: ConfiguredCore, r: Result<Cycles>) -> bool {
    let t = flag_byte(condition(c0, 1));
    exists|m1: ConfiguredCore, ea: Result<u32>|
        #[trigger] effective_address::index_ay_rel(c0, m1, ea) && match ea {
            Err(e) => r == Err::<Cycles, Exception>(e) && c1 == m1,
            Ok(a) => exists|m2: ConfiguredCore, w: Result<()>|
                #[trigger] data_written(m1, m2, 8, a, t, w) && c1 == m2 && match w {
                    Err(e) => r == Err::<Cycles, Exception>(e),
                    Ok(_) => r == Ok::<Cycles, Exception>(Cycles(18)),
                },
        }
}

/// Scc on memory: the byte written is all ones when the condition holds,
/// zero otherwise.
pub fn sf_8_ix(core: &mut ConfiguredCore) -> (r: Result<Cycles>)
    requires
        old(core).wf(),
    ensures
        final(core).wf(),
        sf_8_ix_effect(*old(core), *final(core), r),
{
    let t: u32 = if core.cond_f() {
        0xff
    } else {
        0
    };
    let ghost c0 = *core;
    let ea = effective_address::index_ay(core);
    let ghost m1 = *core;
    assert(effective_address::index_ay_rel(c0, m1, ea));
    let a = match ea {
        Err(e) => {
            return Err(e);
        },
        Ok(a) => a,
    };
    let w = write_sized(core, 8, a, t);
    let ghost m2 = *core;
    assert(t == flag_byte(condition(c0, 1)));
    assert(data_written(m1, m2, 8, a, flag_byte(condition(c0, 1)), w));
    match w {
        Err(e) => Err(e),
        Ok(()) => Ok(Cycles(18)),
    }
}

/// What `sf_8_pd` does: the core goes from `c0` to `c1` and `r` comes back.
pub open spec fn sf_8_pd_effect(c0: ConfiguredCore, c1: ConfiguredCore, r: Result<Cycles>) -> bool {
    let t = flag_byte(condition(c0, 1));
    exists|m1: ConfiguredCore, ea: Result<u32>|
        #[trigger] effective_address::predecrement_ay_8_rel(c0, m1, ea) && match ea {
            Err(e) => r == Err::<Cycles, Exception>(e) && c1 == m1,
            Ok(a) => exists|m2: ConfiguredCore, w: Result<()>|
                #[trigger] data_written(m1, m2, 8, a, t, w) && c1 == m2 && match w {
                    Err(e) => r == Err::<Cycles, Exception>(e),
                    Ok(_) => r == Ok::<Cycles, Exception>(Cycles(14)),
                },
        }
}

/// Scc on memory: the byte written is all ones when the condition holds,
/// zero otherwise.
pub fn sf_8_pd(core: &mut ConfiguredCore) -> (r: Result<Cycles>)
    requires
        old(core).wf(),
    ensures
        final(core).wf(),
        sf_8_pd_effect(*old(core), *final(core), r),
{
    let t: u32 = if core.cond_f() {
        0xff
    } else {
        0
    };
    let ghost c0 = *core;
    let ea = effective_address::predecrement_ay_8(core);
    let ghost m1 = *core;
    assert(effective_address::predecrement_ay_8_rel(c0, m1, ea));
    let a = match ea {
        Err(e) => {
            return Err(e);
        },
        Ok(a) => a,
    };
    let w = write_sized(core, 8, a, t);
    let ghost m2 = *core;
    assert(t == flag_byte(condition(c0, 1)));
    assert(data_written(m1, m2, 8, a, flag_byte(condition(c0, 1)), w));
    match w {
        Err(e) => Err(e),
        Ok(()) => Ok(Cycles(14)),
    }
}

/// What `sf_8_pi` does: the core goes from `c0` to `c1` and `r` comes back.
pub open spec fn sf_8_pi_effect(c0: ConfiguredCore, c1: ConfiguredCore, r: Result<Cycles>) -> bool {
    let t = flag_byte(condition(c0, 1));
    exists|m1: ConfiguredCore, ea: Result<u32>|
        #[trigger] effective_address::postincrement_ay_8_rel(c0, m1, ea) && match ea {
            Err(e) => r == Err::<Cycles, Exception>(e) && c1 == m1,
            Ok(a) => exists|m2: ConfiguredCore, w: Result<()>|
                #[trigger] data_written(m1, m2, 8, a, t, w) && c1 == m2 && match w {
                    Err(e) => r == Err::<Cycles, Exception>(e),
                    Ok(_) => r == Ok::<Cycles, Exception>(Cycles(12)),
                },
        }
}

/// Scc on memory: the byte written is all ones when the condition holds,
/// zero otherwise.
pub fn sf_8_pi(core: &mut ConfiguredCore) -> (r: Result<Cycles>)
    requires
        old(core).wf(),
    ensures
        final(core).wf(),
        sf_8_pi_effect(*old(core), *final(core), r),
{
    let t: u32 = if core.cond_f() {
        0xff
    } else {
        0
    };
    let ghost c0 = *core;
    let ea = effective_address::postincrement_ay_8(core);
    let ghost m1 = *core;
    assert(effective_address::postincrement_ay_8_rel(c0, m1, ea));
    let a = match ea {
        Err(e) => {
            return Err(e);
        },
        Ok(a) => a,
    };
    let w = write_sized(core, 8, a, t);
    let ghost m2 = *core;
    assert(t == flag_byte(condition(c0, 1)));
    assert(data_written(m1, m2, 8, a, flag_byte(condition(c0, 1)), w));
    match w {
        Err(e) => Err(e),
        Ok(()) => Ok(Cycles(12)),
    }
}

/// What `sge_8_dn` does: the core goes from `c0` to `c1` and `r` comes back.
pub open spec fn sge_8_dn_effect(c0: ConfiguredCore, c1: ConfiguredCore, r: Result<Cycles>) -> bool {
    let reg = ir_dy(c0.ir);
    if condition(c0, 12) {
        r == Ok::<Cycles, Exception>(Cycles(6)) && reg_set(c0, c1, reg, c0.dar[reg] | 0xff)
    } else {
        r == Ok::<Cycles, Exception>(Cycles(4)) && reg_set(c0, c1, reg, c0.dar[reg] & 0xffff_ff00)
    }
}

/// Scc on Dy: the low byte set to all ones when the condition holds, to
/// zero otherwise.
pub fn sge_8_dn(core: &mut ConfiguredCore) -> (r: Result<Cycles>)
    requires
        old(core).wf(),
    ensures
        final(core).wf(),
        sge_8_dn_effect(*old(core), *final(core), r),
{
    let reg = reg_dy(core.ir);
    let v = core.dar[reg];
    if core.cond_ge() {
        set_reg(core, reg, v | 0xff);
        Ok(Cycles(6))
    } else {
        set_reg(core, reg, v & 0xffff_ff00);
        Ok(Cycles(4))
    }
}

/// What `sge_8_ai` does: the core goes from `c0` to `c1` and `r` comes back.
pub open spec fn sge_8_ai_effect(c0: ConfiguredCore, c1: ConfiguredCore, r: Result<Cycles>) -> bool {
    let t = flag_byte(condition(c0, 12));
    exists|m1: ConfiguredCore, ea: Result<u32>|
        #[trigger] effective_address::address_indirect_ay_rel(c0, m1, ea) && match ea {
            Err(e) => r == Err::<Cycles, Exception>(e) && c1 == m1,
            Ok(a) => exists|m2: ConfiguredCore, w: Result<()>|
                #[trigger] data_written(m1, m2, 8, a, t, w) && c1 == m2 && match w {
                    Err(e) => r == Err::<Cycles, Exception>(e),
                    Ok(_) => r == Ok::<Cycles, Exception>(Cycles(12)),
                },
        }
}

/// Scc on memory: the byte written is all ones when the condition holds,
/// zero otherwise.
pub fn sge_8_ai(core: &mut ConfiguredCore) -> (r: Result<Cycles>)
    requires
        old(core).wf(),
    ensures
        final(core).wf(),
        sge_8_ai_effect(*old(core), *final(core), r),
{
    let t: u32 = if core.cond_ge() {
        0xff
    } else {
        0
    };
    let ghost c0 = *core;
    let ea = effective_address::address_indirect_ay(core);
    let ghost m1 = *core;
    assert(effective_address::address_indirect_ay_rel(c0, m1, ea));
    let a = match ea {
        Err(e) => {
            return Err(e);
        },
        Ok(a) => a,
    };
    let w = write_sized(core, 8, a, t);
    let ghost m2 = *core;
    assert(t == flag_byte(condition(c0, 12)));
    assert(data_written(m1, m2, 8, a, flag_byte(condition(c0, 12)), w));
    match w {
        Err(e) => Err(e),
        Ok(()) => Ok(Cycles(12)),
    }
}

/// What `sge_8_al` does: the core goes from `c0` to `c1` and `r` comes back.
pub open spec fn sge_8_al_effect(c0: ConfiguredCore, c1: ConfiguredCore, r: Result<Cycles>) -> bool {
    let t = flag_byte(condition(c0, 12));
    exists|m1: ConfiguredCore, ea: Result<u32>|
        #[trigger] effective_address::absolute_long_rel(c0, m1, ea) && match ea {
            Err(e) => r == Err::<Cycles, Exception>(e) && c1 == m1,
            Ok(a) => exists|m2: ConfiguredCore, w: Result<()>|
                #[trigger] data_written(m1, m2, 8, a, t, w) && c1 == m2 && match w {
                    Err(e) => r == Err::<Cycles, Exception>(e),
                    Ok(_) => r == Ok::<Cycles, Exception>(Cycles(20)),
                },
        }
}

/// Scc on memory: the byte written is all ones when the condition holds,
/// zero otherwise.
pub fn sge_8_al(core: &mut ConfiguredCore) -> (r: Result<Cycles>)
    requires
        old(core).wf(),
    ensures
        final(core).wf(),
        sge_8_al_effect(*old(core), *final(core), r),
{
    let t: u32 = if core.cond_ge() {
        0xff
    } else {
        0
    };
    let ghost c0 = *core;
    let ea = effective_address::absolute_long(core);
    let ghost m1 = *core;
    assert(effective_address::absolute_long_rel(c0, m1, ea));
    let a = match ea {
        Err(e) => {
            return Err(e);
        },
        Ok(a) => a,
    };
    let w = write_sized(core, 8, a, t);
    let ghost m2 = *core;
    assert(t == flag_byte(condition(c0, 12)));
    assert(data_written(m1, m2, 8, a, flag_byte(condition(c0, 12)), w));
    match w {
        Err(e) => Err(e),
        Ok(()) => Ok(Cycles(20)),
    }
}

/// What `sge_8_aw` does: the core goes from `c0` to `c1` and `r` comes back.
pub open spec fn sge_8_aw_effect(c0: ConfiguredCore, c1: ConfiguredCore, r: Result<Cycles>) -> bool {
    let t = flag_byte(condition(c0, 12));
    exists|m1: ConfiguredCore, ea: Result<u32>|
        #[trigger] effective_address::absolute_word_rel(c0, m1, ea) && match ea {
            Err(e) => r == Err::<Cycles, Exception>(e) && c1 == m1,
            Ok(a) => exists|m2: ConfiguredCore, w: Result<()>|
                #[trigger] data_written(m1, m2, 8, a, t, w) && c1 == m2 && match w {
                    Err(e) => r == Err::<Cycles, Exception>(e),
                    Ok(_) => r == Ok::<Cycles, Exception>(Cycles(16)),
                },
        }
}

/// Scc on memory: the byte written is all ones when the condition holds,
/// zero otherwise.
pub fn sge_8_aw(core: &mut ConfiguredCore) -> (r: Result<Cycles>)
    requires
        old(core).wf(),
    ensures
        final(core).wf(),
        sge_8_aw_effect(*old(core), *final(core), r),
{
    let t: u32 = if core.cond_ge() {
        0xff
    } else {
        0
    };
    let ghost c0 = *core;
    let ea = effective_address::absolute_word(core);
    let ghost m1 = *core;
    assert(effective_address::absolute_word_rel(c0, m1, ea));
    let a = match ea {
        Err(e) => {
            return Err(e);
        },
        Ok(a) => a,
    };
    let w = write_sized(core, 8, a, t);
    let ghost m2 = *core;
    assert(t == flag_byte(condition(c0, 12)));
    assert(data_written(m1, m2, 8, a, flag_byte(condition(c0, 12)), w));
    match w {
        Err(e) => Err(e),
        Ok(()) => Ok(Cycles(16)),
    }
}

/// What `sge_8_di` does: the core goes from `c0` to `c1` and `r` comes back.
pub open spec fn sge_8_di_effect(c0: ConfiguredCore, c1: ConfiguredCore, r: Result<Cycles>) -> bool {
    let t = flag_byte(condition(c0, 12));
    exists|m1: ConfiguredCore, ea: Result<u32>|
        #[trigger] effective_address::displacement_ay_rel(c0, m1, ea) && match ea {
            Err(e) => r == Err::<Cycles, Exception>(e) && c1 == m1,
            Ok(a) => exists|m2: ConfiguredCore, w: Result<()>|
                #[trigger] data_written(m1, m2, 8, a, t, w) && c1 == m2 && match w {
                    Err(e) => r == Err::<Cycles, Exception>(e),
                    Ok(_) => r == Ok::<Cycles, Exception>(Cycles(16)),
                },
        }
}

/// Scc on memory: the byte written is all ones when the condition holds,
/// zero otherwise.
pub fn sge_8_di(core: &mut ConfiguredCore) -> (r: Result<Cycles>)
    requires
        old(core).wf(),
    ensures
        final(core).wf(),
        sge_8_di_effect(*old(core), *final(core), r),
{
    let t: u32 = if core.cond_ge() {
        0xff
    } else {
        0
    };
    let ghost c0 = *core;
    let ea = effective_address::displacement_ay(core);
    let ghost m1 = *core;
    assert(effective_address::displacement_ay_rel(c0, m1, ea));
    let a = match ea {
        Err(e) => {
            return Err(e);
        },
        Ok(a) => a,
    };
    let w = write_sized(core, 8, a, t);
    let ghost m2 = *core;
    assert(t == flag_byte(condition(c0, 12)));
    assert(data_written(m1, m2, 8, a, flag_byte(condition(c0, 12)), w));
    match w {
        Err(e) => Err(e),
        Ok(()) => Ok(Cycles(16)),
    }
}

/// What `sge_8_ix` does: the core goes from `c0` to `c1` and `r` comes back.
pub open spec fn sge_8_ix_effect(c0: ConfiguredCore, c1: ConfiguredCore, r: Result<Cycles>) -> bool {
    let t = flag_byte(condition(c0, 12));
    exists|m1: ConfiguredCore, ea: Result<u32>|
        #[trigger] effective_address::index_ay_rel(c0, m1, ea) && match ea {
            Err(e) => r == Err::<Cycles, Exception>(e) && c1 == m1,
            Ok(a) => exists|m2: ConfiguredCore, w: Result<()>|
                #[trigger] data_written(m1, m2, 8, a, t, w) && c1 == m2 && match w {
                    Err(e) => r == Err::<Cycles, Exception>(e),
                    Ok(_) => r == Ok::<Cycles, Exception>(Cycles(18)),
                },
        }
}

/// Scc on memory: the byte written is all ones when the condition holds,
/// zero otherwise.
pub fn sge_8_ix(core: &mut ConfiguredCore) -> (r: Result<Cycles>)
    requires
        old(core).wf(),
    ensures
        final(core).wf(),
        sge_8_ix_effect(*old(core), *final(core), r),
{
    let t: u32 = if core.cond_ge() {
        0xff
    } else {
        0
    };
    let ghost c0 = *core;
    let ea = effective_address::index_ay(core);
    let ghost m1 = *core;
    assert(effective_address::index_ay_rel(c0, m1, ea));
    let a = match ea {
        Err(e) => {
            return Err(e);
        },
        Ok(a) => a,
    };
    let w = write_sized(core, 8, a, t);
    let ghost m2 = *core;
    assert(t == flag_byte(condition(c0, 12)));
    assert(data_written(m1, m2, 8, a, flag_byte(condition(c0, 12)), w));
    match w {
        Err(e) => Err(e),
        Ok(()) => Ok(Cycles(18)),
    }
}

/// What `sge_8_pd` does: the core goes from `c0` to `c1` and `r` comes back.
pub open spec fn sge_8_pd_effect(c0: ConfiguredCore, c1: ConfiguredCore, r: Result<Cycles>) -> bool {
    let t = flag_byte(condition(c0, 12));
    exists|m1: ConfiguredCore, ea: Result<u32>|
        #[trigger] effective_address::predecrement_ay_8_rel(c0, m1, ea) && match ea {
            Err(e) => r == Err::<Cycles, Exception>(e) && c1 == m1,
            Ok(a) => exists|m2: ConfiguredCore, w: Result<()>|
                #[trigger] data_written(m1, m2, 8, a, t, w) && c1 == m2 && match w {
                    Err(e) => r == Err::<Cycles, Exception>(e),
                    Ok(_) => r == Ok::<Cycles, Exception>(Cycles(14)),
                },
        }
}

/// Scc on memory: the byte written is all ones when the condition holds,
/// zero otherwise.
pub fn sge_8_pd(core: &mut ConfiguredCore) -> (r: Result<Cycles>)
    requires
        old(core).wf(),
    ensures
        final(core).wf(),
        sge_8_pd_effect(*old(core), *final(core), r),
{
    let t: u32 = if core.cond_ge() {
        0xff
    } else {
        0
    };
    let ghost c0 = *core;
    let ea = effective_address::predecrement_ay_8(core);
    let ghost m1 = *core;
    assert(effective_address::predecrement_ay_8_rel(c0, m1, ea));
    let a = match ea {
        Err(e) => {
            return Err(e);
        },
        Ok(a) => a,
    };
    let w = write_sized(core, 8, a, t);
    let ghost m2 = *core;
    assert(t == flag_byte(condition(c0, 12)));
    assert(data_written(m1, m2, 8, a, flag_byte(condition(c0, 12)), w));
    match w {
        Err(e) => Err(e),
        Ok(()) => Ok(Cycles(14)),
    }
}

/// What `sge_8_pi` does: the core goes from `c0` to `c1` and `r` comes back.
pub open spec fn sge_8_pi_effect(c0: ConfiguredCore, c1: ConfiguredCore, r: Result<Cycles>) -> bool {
    let t = flag_byte(condition(c0, 12));
    exists|m1: ConfiguredCore, ea: Result<u32>|
        #[trigger] effective_address::postincrement_ay_8_rel(c0, m1, ea) && match ea {
            Err(e) => r == Err::<Cycles, Exception>(e) && c1 == m1,
            Ok(a) => exists|m2: ConfiguredCore, w: Result<()>|
                #[trigger] data_written(m1, m2, 8, a, t, w) && c1 == m2 && match w {
                    Err(e) => r == Err::<Cycles, Exception>(e),
                    Ok(_) => r == Ok::<Cycles, Exception>(Cycles(12)),
                },
        }
}

/// Scc on memory: the byte written is all ones when the condition holds,
/// zero otherwise.
pub fn sge_8_pi(core: &mut ConfiguredCore) -> (r: Result<Cycles>)
    requires
        old(core).wf(),
    ensures
        final(core).wf(),
        sge_8_pi_effect(*old(core), *final(core), r),
{
    let t: u32 = if core.cond_ge() {
        0xff
    } else {
        0
    };
    let ghost c0 = *core;
    let ea = effective_address::postincrement_ay_8(core);
    let ghost m1 = *core;
    assert(effective_address::postincrement_ay_8_rel(c0, m1, ea));
    let a = match ea {
        Err(e) => {
            return Err(e);
        },
        Ok(a) => a,
    };
    let w = write_sized(core, 8, a, t);
    let ghost m2 = *core;
    assert(t == flag_byte(condition(c0, 12)));
    assert(data_written(m1, m2, 8, a, flag_byte(condition(c0, 12)), w));
    match w {
        Err(e) => Err(e),
        Ok(()) => Ok(Cycles(12)),
    }
}

/// What `sgt_8_dn` does: the core goes from `c0` to `c1` and `r` comes back.
pub open spec fn sgt_8_dn_effect(c0: ConfiguredCore, c1: ConfiguredCore, r: Result<Cycles>) -> bool {
    let reg = ir_dy(c0.ir);
    if condition(c0, 14) {
        r == Ok::<Cycles, Exception>(Cycles(6)) && reg_set(c0, c1, reg, c0.dar[reg] | 0xff)
    } else {
        r == Ok::<Cycles, Exception>(Cycles(4)) && reg_set(c0, c1, reg, c0.dar[reg] & 0xffff_ff00)
    }
}

/// Scc on Dy: the low byte set to all ones when the condition holds, to
/// zero otherwise.
pub fn sgt_8_dn(core: &mut ConfiguredCore) -> (r: Result<Cycles>)
    requires
        old(core).wf(),
    ensures
        final(core).wf(),
        sgt_8_dn_effect(*old(core), *final(core), r),
{
    let reg = reg_dy(core.ir);
    let v = core.dar[reg];
    if core.cond_gt() {
        set_reg(core, reg, v | 0xff);
        Ok(Cycles(6))
    } else {
        set_reg(core, reg, v & 0xffff_ff00);
        Ok(Cycles(4))
    }
}

/// What `sgt_8_ai` does: the core goes from `c0` to `c1` and `r` comes back.
pub open spec fn sgt_8_ai_effect(c0: ConfiguredCore, c1: ConfiguredCore, r: Result<Cycles>) -> bool {
    let t = flag_byte(condition(c0, 14));
    exists|m1: ConfiguredCore, ea: Result<u32>|
        #[trigger] effective_address::address_indirect_ay_rel(c0, m1, ea) && match ea {
            Err(e) => r == Err::<Cycles, Exception>(e) && c1 == m1,
            Ok(a) => exists|m2: ConfiguredCore, w: Result<()>|
                #[trigger] data_written(m1, m2, 8, a, t, w) && c1 == m2 && match w {
                    Err(e) => r == Err::<Cycles, Exception>(e),
                    Ok(_) => r == Ok::<Cycles, Exception>(Cycles(12)),
                },
        }
}

/// Scc on memory: the byte written is all ones when the condition holds,
/// zero otherwise.
pub fn sgt_8_ai(core: &mut ConfiguredCore) -> (r: Result<Cycles>)
    requires
        old(core).wf(),
    ensures
        final(core).wf(),
        sgt_8_ai_effect(*old(core), *final(core), r),
{
    let t: u32 = if core.cond_gt() {
        0xff
    } else {
        0
    };
    let ghost c0 = *core;
    let ea = effective_address::address_indirect_ay(core);
    let ghost m1 = *core;
    assert(effective_address::address_indirect_ay_rel(c0, m1, ea));
    let a = match ea {
        Err(e) => {
            return Err(e);
        },
        Ok(a) => a,
    };
    let w = write_sized(core, 8, a, t);
    let ghost m2 = *core;
    assert(t == flag_byte(condition(c0, 14)));
    assert(data_written(m1, m2, 8, a, flag_byte(condition(c0, 14)), w));
    match w {
        Err(e) => Err(e),
        Ok(()) => Ok(Cycles(12)),
    }
}

/// What `sgt_8_al` does: the core goes from `c0` to `c1` and `r` comes back.
pub open spec fn sgt_8_al_effect(c0: ConfiguredCore, c1: ConfiguredCore, r: Result<Cycles>) -> bool {
    let t = flag_byte(condition(c0, 14));
    exists|m1: ConfiguredCore, ea: Result<u32>|
        #[trigger] effective_address::absolute_long_rel(c0, m1, ea) && match ea {
            Err(e) => r == Err::<Cycles, Exception>(e) && c1 == m1,
            Ok(a) => exists|m2: ConfiguredCore, w: Result<()>|
                #[trigger] data_written(m1, m2, 8, a, t, w) && c1 == m2 && match w {
                    Err(e) => r == Err::<Cycles, Exception>(e),
                    Ok(_) => r == Ok::<Cycles, Exception>(Cycles(20)),
                },
        }
}

/// Scc on memory: the byte written is all ones when the condition holds,
/// zero otherwise.
pub fn sgt_8_al(core: &mut ConfiguredCore) -> (r: Result<Cycles>)
    requires
        old(core).wf(),
    ensures
        final(core).wf(),
        sgt_8_al_effect(*old(core), *final(core), r),
{
    let t: u32 = if core.cond_gt() {
        0xff
    } else {
        0
    };
    let ghost c0 = *core;
    let ea = effective_address::absolute_long(core);
    let ghost m1 = *core;
    assert(effective_address::absolute_long_rel(c0, m1, ea));
    let a = match ea {
        Err(e) => {
            return Err(e);
        },
        Ok(a) => a,
    };
    let w = write_sized(core, 8, a, t);
    let ghost m2 = *core;
    assert(t == flag_byte(condition(c0, 14)));
    assert(data_written(m1, m2, 8, a, flag_byte(condition(c0, 14)), w));
    match w {
        Err(e) => Err(e),
        Ok(()) => Ok(Cycles(20)),
    }
}

/// What `sgt_8_aw` does: the core goes from `c0` to `c1` and `r` comes back.
pub open spec fn sgt_8_aw_effect(c0: ConfiguredCore, c1: ConfiguredCore, r: Result<Cycles>) -> bool {
    let t = flag_byte(condition(c0, 14));
    exists|m1: ConfiguredCore, ea: Result<u32>|
        #[trigger] effective_address::absolute_word_rel(c0, m1, ea) && match ea {
            Err(e) => r == Err::<Cycles, Exception>(e) && c1 == m1,
            Ok(a) => exists|m2: ConfiguredCore, w: Result<()>|
                #[trigger] data_written(m1, m2, 8, a, t, w) && c1 == m2 && match w {
                    Err(e) => r == Err::<Cycles, Exception>(e),
                    Ok(_) => r == Ok::<Cycles, Exception>(Cycles(16)),
                },
        }
}

/// Scc on memory: the byte written is all ones when the condition holds,
/// zero otherwise.
pub fn sgt_8_aw(core: &mut ConfiguredCore) -> (r: Result<Cycles>)
    requires
        old(core).wf(),
    ensures
        final(core).wf(),
        sgt_8_aw_effect(*old(core), *final(core), r),
{
    let t: u32 = if core.cond_gt() {
        0xff
    } else {
        0
    };
    let ghost c0 = *core;
    let ea = effective_address::absolute_word(core);
    let ghost m1 = *core;
    assert(effective_address::absolute_word_rel(c0, m1, ea));
    let a = match ea {
        Err(e) => {
            return Err(e);
        },
        Ok(a) => a,
    };
    let w = write_sized(core, 8, a, t);
    let ghost m2 = *core;
    assert(t == flag_byte(condition(c0, 14)));
    assert(data_written(m1, m2, 8, a, flag_byte(condition(c0, 14)), w));
    match w {
        Err(e) => Err(e),
        Ok(()) => Ok(Cycles(16)),
    }
}

/// What `sgt_8_di` does: the core goes from `c0` to `c1` and `r` comes back.
pub open spec fn sgt_8_di_effect(c0: ConfiguredCore, c1: ConfiguredCore, r: Result<Cycles>) -> bool {
    let t = flag_byte(condition(c0, 14));
    exists|m1: ConfiguredCore, ea: Result<u32>|
        #[trigger] effective_address::displacement_ay_rel(c0, m1, ea) && match ea {
            Err(e) => r == Err::<Cycles, Exception>(e) && c1 == m1,
            Ok(a) => exists|m2: ConfiguredCore, w: Result<()>|
                #[trigger] data_written(m1, m2, 8, a, t, w) && c1 == m2 && match w {
                    Err(e) => r == Err::<Cycles, Exception>(e),
                    Ok(_) => r == Ok::<Cycles, Exception>(Cycles(16)),
                },
        }
}

/// Scc on memory: the byte written is all ones when the condition holds,
/// zero otherwise.
pub fn sgt_8_di(core: &mut ConfiguredCore) -> (r: Result<Cycles>)
    requires
        old(core).wf(),
    ensures
        final(core).wf(),
        sgt_8_di_effect(*old(core), *final(core), r),
{
    let t: u32 = if core.cond_gt() {
        0xff
    } else {
        0
    };
    let ghost c0 = *core;
    let ea = effective_address::displacement_ay(core);
    let ghost m1 = *core;
    assert(effective_address::displacement_ay_rel(c0, m1, ea));
    let a = match ea {
        Err(e) => {
            return Err(e);
        },
        Ok(a) => a,
    };
    let w = write_sized(core, 8, a, t);
    let ghost m2 = *core;
    assert(t == flag_byte(condition(c0, 14)));
    assert(data_written(m1, m2, 8, a, flag_byte(condition(c0, 14)), w));
    match w {
        Err(e) => Err(e),
        Ok(()) => Ok(Cycles(16)),
    }
}

/// What `sgt_8_ix` does: the core goes from `c0` to `c1` and `r` comes back.
pub open spec fn sgt_8_ix_effect(c0: ConfiguredCore, c1: ConfiguredCore, r: Result<Cycles>) -> bool {
    let t = flag_byte(condition(c0, 14));
    exists|m1: ConfiguredCore, ea: Result<u32>|
        #[trigger] effective_address::index_ay_rel(c0, m1, ea) && match ea {
            Err(e) => r == Err::<Cycles, Exception>(e) && c1 == m1,
            Ok(a) => exists|m2: ConfiguredCore, w: Result<()>|
                #[trigger] data_written(m1, m2, 8, a, t, w) && c1 == m2 && match w {
                    Err(e) => r == Err::<Cycles, Exception>(e),
                    Ok(_) => r == Ok::<Cycles, Exception>(Cycles(18)),
                },
        }
}

/// Scc on memory: the byte written is all ones when the condition holds,
/// zero otherwise.
pub fn sgt_8_ix(core: &mut ConfiguredCore) -> (r: Result<Cycles>)
    requires
        old(core).wf(),
    ensures
        final(core).wf(),
        sgt_8_ix_effect(*old(core), *final(core), r),
{
    let t: u32 = if core.cond_gt() {
        0xff
    } else {
        0
    };
    let ghost c0 = *core;
    let ea = effective_address::index_ay(core);
    let ghost m1 = *core;
    assert(effective_address::index_ay_rel(c0, m1, ea));
    let a = match ea {
        Err(e) => {
            return Err(e);
        },
        Ok(a) => a,
    };
    let w = write_sized(core, 8, a, t);
    let ghost m2 = *core;
    assert(t == flag_byte(condition(c0, 14)));
    assert(data_written(m1, m2, 8, a, flag_byte(condition(c0, 14)), w));
    match w {
        Err(e) => Err(e),
        Ok(()) => Ok(Cycles(18)),
    }
}

/// What `sgt_8_pd` does: the core goes from `c0` to `c1` and `r` comes back.
pub open spec fn sgt_8_pd_effect(c0: ConfiguredCore, c1: ConfiguredCore, r: Result<Cycles>) -> bool {
    let t = flag_byte(condition(c0, 14));
    exists|m1: ConfiguredCore, ea: Result<u32>|
        #[trigger] effective_address::predecrement_ay_8_rel(c0, m1, ea) && match ea {
            Err(e) => r == Err::<Cycles, Exception>(e) && c1 == m1,
            Ok(a) => exists|m2: ConfiguredCore, w: Result<()>|
                #[trigger] data_written(m1, m2, 8, a, t, w) && c1 == m2 && match w {
                    Err(e) => r == Err::<Cycles, Exception>(e),
                    Ok(_) => r == Ok::<Cycles, Exception>(Cycles(14)),
                },
        }
}

/// Scc on memory: the byte written is all ones when the condition holds,
/// zero otherwise.
pub fn sgt_8_pd(core: &mut ConfiguredCore) -> (r: Result<Cycles>)
    requires
        old(core).wf(),
    ensures
        final(core).wf(),
        sgt_8_pd_effect(*old(core), *final(core), r),
{
    let t: u32 = if core.cond_gt() {
        0xff
    } else {
        0
    };
    let ghost c0 = *core;
    let ea = effective_address::predecrement_ay_8(core);
    let ghost m1 = *core;
    assert(effective_address::predecrement_ay_8_rel(c0, m1, ea));
    let a = match ea {
        Err(e) => {
            return Err(e);
        },
        Ok(a) => a,
    };
    let w = write_sized(core, 8, a, t);
    let ghost m2 = *core;
    assert(t == flag_byte(condition(c0, 14)));
    assert(data_written(m1, m2, 8, a, flag_byte(condition(c0, 14)), w));
    match w {
        Err(e) => Err(e),
        Ok(()) => Ok(Cycles(14)),
    }
}

/// What `sgt_8_pi` does: the core goes from `c0` to `c1` and `r` comes back.
pub open spec fn sgt_8_pi_effect(c0: ConfiguredCore, c1: ConfiguredCore, r: Result<Cycles>) -> bool {
    let t = flag_byte(condition(c0, 14));
    exists|m1: ConfiguredCore, ea: Result<u32>|
        #[trigger] effective_address::postincrement_ay_8_rel(c0, m1, ea) && match ea {
            Err(e) => r == Err::<Cycles, Exception>(e) && c1 == m1,
            Ok(a) => exists|m2: ConfiguredCore, w: Result<()>|
                #[trigger] data_written(m1, m2, 8, a, t, w) && c1 == m2 && match w {
                    Err(e) => r == Err::<Cycles, Exception>(e),
                    Ok(_) => r == Ok::<Cycles, Exception>(Cycles(12)),
                },
        }
}

/// Scc on memory: the byte written is all ones when the condition holds,
/// zero otherwise.
pub fn sgt_8_pi(core: &mut ConfiguredCore) -> (r: Result<Cycles>)
    requires
        old(core).wf(),
    ensures
        final(core).wf(),
        sgt_8_pi_effect(*old(core), *final(core), r),
{
    let t: u32 = if core.cond_gt() {
        0xff
    } else {
        0
    };
    let ghost c0 = *core;
    let ea = effective_address::postincrement_ay_8(core);
    let ghost m1 = *core;
    assert(effective_address::postincrement_ay_8_rel(c0, m1, ea));
    let a = match ea {
        Err(e) => {
            return Err(e);
        },
        Ok(a) => a,
    };
    let w = write_sized(core, 8, a, t);
    let ghost m2 = *core;
    assert(t == flag_byte(condition(c0, 14)));
    assert(data_written(m1, m2, 8, a, flag_byte(condition(c0, 14)), w));
    match w {
        Err(e) => Err(e),
        Ok(()) => Ok(Cycles(12)),
    }
}

/// What `shi_8_dn` does: the core goes from `c0` to `c1` and `r` comes back.
pub open spec fn shi_8_dn_effect(c0: ConfiguredCore, c1: ConfiguredCore, r: Result<Cycles>) -> bool {
    let reg = ir_dy(c0.ir);
    if condition(c0, 2) {
        r == Ok::<Cycles, Exception>(Cycles(6)) && reg_set(c0, c1, reg, c0.dar[reg] | 0xff)
    } else {
        r == Ok::<Cycles, Exception>(Cycles(4)) && reg_set(c0, c1, reg, c0.dar[reg] & 0xffff_ff00)
    }
}

/// Scc on Dy: the low byte set to all ones when the condition holds, to
/// zero otherwise.
pub fn shi_8_dn(core: &mut ConfiguredCore) -> (r: Result<Cycles>)
    requires
        old(core).wf(),
    ensures
        final(core).wf(),
        shi_8_dn_effect(*old(core), *final(core), r),
{
    let reg = reg_dy(core.ir);
    let v = core.dar[reg];
    if core.cond_hi() {
        set_reg(core, reg, v | 0xff);
        Ok(Cycles(6))
    } else {
        set_reg(core, reg, v & 0xffff_ff00);
        Ok(Cycles(4))
    }
}

/// What `shi_8_ai` does: the core goes from `c0` to `c1` and `r` comes back.
pub open spec fn shi_8_ai_effect(c0: ConfiguredCore, c1: ConfiguredCore, r: Result<Cycles>) -> bool {
    let t = flag_byte(condition(c0, 2));
    exists|m1: ConfiguredCore, ea: Result<u32>|
        #[trigger] effective_address::address_indirect_ay_rel(c0, m1, ea) && match ea {
            Err(e) => r == Err::<Cycles, Exception>(e) && c1 == m1,
            Ok(a) => exists|m2: ConfiguredCore, w: Result<()>|
                #[trigger] data_written(m1, m2, 8, a, t, w) && c1 == m2 && match w {
                    Err(e) => r == Err::<Cycles, Exception>(e),
                    Ok(_) => r == Ok::<Cycles, Exception>(Cycles(12)),
                },
        }
}

/// Scc on memory: the byte written is all ones when the condition holds,
/// zero otherwise.
pub fn shi_8_ai(core: &mut ConfiguredCore) -> (r: Result<Cycles>)
    requires
        old(core).wf(),
    ensures
        final(core).wf(),
        shi_8_ai_effect(*old(core), *final(core), r),
{
    let t: u32 = if core.cond_hi() {
        0xff
    } else {
        0
    };
    let ghost c0 = *core;
    let ea = effective_address::address_indirect_ay(core);
    let ghost m1 = *core;
    assert(effective_address::address_indirect_ay_rel(c0, m1, ea));
    let a = match ea {
        Err(e) => {
            return Err(e);
        },
        Ok(a) => a,
    };
    let w = write_sized(core, 8, a, t);
    let ghost m2 = *core;
    assert(t == flag_byte(condition(c0, 2)));
    assert(data_written(m1, m2, 8, a, flag_byte(condition(c0, 2)), w));
    match w {
        Err(e) => Err(e),
        Ok(()) => Ok(Cycles(12)),
    }
}

/// What `shi_8_al` does: the core goes from `c0` to `c1` and `r` comes back.
pub open spec fn shi_8_al_effect(c0: ConfiguredCore, c1: ConfiguredCore, r: Result<Cycles>) -> bool {
    let t = flag_byte(condition(c0, 2));
    exists|m1: ConfiguredCore, ea: Result<u32>|
        #[trigger] effective_address::absolute_long_rel(c0, m1, ea) && match ea {
            Err(e) => r == Err::<Cycles, Exception>(e) && c1 == m1,
            Ok(a) => exists|m2: ConfiguredCore, w: Result<()>|
                #[trigger] data_written(m1, m2, 8, a, t, w) && c1 == m2 && match w {
                    Err(e) => r == Err::<Cycles, Exception>(e),
                    Ok(_) => r == Ok::<Cycles, Exception>(Cycles(20)),
                },
        }
}

/// Scc on memory: the byte written is all ones when the condition holds,
/// zero otherwise.
pub fn shi_8_al(core: &mut ConfiguredCore) -> (r: Result<Cycles>)
    requires
        old(core).wf(),
    ensures
        final(core).wf(),
        shi_8_al_effect(*old(core), *final(core), r),
{
    let t: u32 = if core.cond_hi() {
        0xff
    } else {
        0
    };
    let ghost c0 = *core;
    let ea = effective_address::absolute_long(core);
    let ghost m1 = *core;
    assert(effective_address::absolute_long_rel(c0, m1, ea));
    let a = match ea {
        Err(e) => {
            return Err(e);
        },
        Ok(a) => a,
    };
    let w = write_sized(core, 8, a, t);
    let ghost m2 = *core;
    assert(t == flag_byte(condition(c0, 2)));
    assert(data_written(m1, m2, 8, a, flag_byte(condition(c0, 2)), w));
    match w {
        Err(e) => Err(e),
        Ok(()) => Ok(Cycles(20)),
    }
}

/// What `shi_8_aw` does: the core goes from `c0` to `c1` and `r` comes back.
pub open spec fn shi_8_aw_effect(c0: ConfiguredCore, c1: ConfiguredCore, r: Result<Cycles>) -> bool {
    let t = flag_byte(condition(c0, 2));
    exists|m1: ConfiguredCore, ea: Result<u32>|
        #[trigger] effective_address::absolute_word_rel(c0, m1, ea) && match ea {
            Err(e) => r == Err::<Cycles, Exception>(e) && c1 == m1,
            Ok(a) => exists|m2: ConfiguredCore, w: Result<()>|
                #[trigger] data_written(m1, m2, 8, a, t, w) && c1 == m2 && match w {
                    Err(e) => r == Err::<Cycles, Exception>(e),
                    Ok(_) => r == Ok::<Cycles, Exception>(Cycles(16)),
                },
        }
}

/// Scc on memory: the byte written is all ones when the condition holds,
/// zero otherwise.
pub fn shi_8_aw(core: &mut ConfiguredCore) -> (r: Result<Cycles>)
    requires
        old(core).wf(),
    ensures
        final(core).wf(),
        shi_8_aw_effect(*old(core), *final(core), r),
{
    let t: u32 = if core.cond_hi() {
        0xff
    } else {
        0
    };
    let ghost c0 = *core;
    let ea = effective_address::absolute_word(core);
    let ghost m1 = *core;
    assert(effective_address::absolute_word_rel(c0, m1, ea));
    let a = match ea {
        Err(e) => {
            return Err(e);
        },
        Ok(a) => a,
    };
    let w = write_sized(core, 8, a, t);
    let ghost m2 = *core;
    assert(t == flag_byte(condition(c0, 2)));
    assert(data_written(m1, m2, 8, a, flag_byte(condition(c0, 2)), w));
    match w {
        Err(e) => Err(e),
        Ok(()) => Ok(Cycles(16)),
    }
}

/// What `shi_8_di` does: the core goes from `c0` to `c1` and `r` comes back.
pub open spec fn shi_8_di_effect(c0: ConfiguredCore, c1: ConfiguredCore, r: Result<Cycles>) -> bool {
    let t = flag_byte(condition(c0, 2));
    exists|m1: ConfiguredCore, ea: Result<u32>|
        #[trigger] effective_address::displacement_ay_rel(c0, m1, ea) && match ea {
            Err(e) => r == Err::<Cycles, Exception>(e) && c1 == m1,
            Ok(a) => exists|m2: ConfiguredCore, w: Result<()>|
                #[trigger] data_written(m1, m2, 8, a, t, w) && c1 == m2 && match w {
                    Err(e) => r == Err::<Cycles, Exception>(e),
                    Ok(_) => r == Ok::<Cycles, Exception>(Cycles(16)),
                },
        }
}

/// Scc on memory: the byte written is all ones when the condition holds,
/// zero otherwise.
pub fn shi_8_di(core: &mut ConfiguredCore) -> (r: Result<Cycles>)
    requires
        old(core).wf(),
    ensures
        final(core).wf(),
        shi_8_di_effect(*old(core), *final(core), r),
{
    let t: u32 = if core.cond_hi() {
        0xff
    } else {
        0
    };
    let ghost c0 = *core;
    let ea = effective_address::displacement_ay(core);
    let ghost m1 = *core;
    assert(effective_address::displacement_ay_rel(c0, m1, ea));
    let a = match ea {
        Err(e) => {
            return Err(e);
        },
        Ok(a) => a,
    };
    let w = write_sized(core, 8, a, t);
    let ghost m2 = *core;
    assert(t == flag_byte(condition(c0, 2)));
    assert(data_written(m1, m2, 8, a, flag_byte(condition(c0, 2)), w));
    match w {
        Err(e) => Err(e),
        Ok(()) => Ok(Cycles(16)),
    }
}

/// What `shi_8_ix` does: the core goes from `c0` to `c1` and `r` comes back.
pub open spec fn shi_8_ix_effect(c0: ConfiguredCore, c1: ConfiguredCore, r: Result<Cycles>) -> bool {
    let t = flag_byte(condition(c0, 2));
    exists|m1: ConfiguredCore, ea: Result<u32>|
        #[trigger] effective_address::index_ay_rel(c0, m1, ea) && match ea {
            Err(e) => r == Err::<Cycles, Exception>(e) && c1 == m1,
            Ok(a) => exists|m2: ConfiguredCore, w: Result<()>|
                #[trigger] data_written(m1, m2, 8, a, t, w) && c1 == m2 && match w {
                    Err(e) => r == Err::<Cycles, Exception>(e),
                    Ok(_) => r == Ok::<Cycles, Exception>(Cycles(18)),
                },
        }
}

/// Scc on memory: the byte written is all ones when the condition holds,
/// zero otherwise.
pub fn shi_8_ix(core: &mut ConfiguredCore) -> (r: Result<Cycles>)
    requires
        old(core).wf(),
    ensures
        final(core).wf(),
        shi_8_ix_effect(*old(core), *final(core), r),
{
    let t: u32 = if core.cond_hi() {
        0xff
    } else {
        0
    };
    let ghost c0 = *core;
    let ea = effective_address::index_ay(core);
    let ghost m1 = *core;
    assert(effective_address::index_ay_rel(c0, m1, ea));
    let a = match ea {
        Err(e) => {
            return Err(e);
        },
        Ok(a) => a,
    };
    let w = write_sized(core, 8, a, t);
    let ghost m2 = *core;
    assert(t == flag_byte(condition(c0, 2)));
    assert(data_written(m1, m2, 8, a, flag_byte(condition(c0, 2)), w));
    match w {
        Err(e) => Err(e),
        Ok(()) => Ok(Cycles(18)),
    }
}

/// What `shi_8_pd` does: the core goes from `c0` to `c1` and `r` comes back.
pub open spec fn shi_8_pd_effect(c0: ConfiguredCore, c1: ConfiguredCore, r: Result<Cycles>) -> bool {
    let t = flag_byte(condition(c0, 2));
    exists|m1: ConfiguredCore, ea: Result<u32>|
        #[trigger] effective_address::predecrement_ay_8_rel(c0, m1, ea) && match ea {
            Err(e) => r == Err::<Cycles, Exception>(e) && c1 == m1,
            Ok(a) => exists|m2: ConfiguredCore, w: Result<()>|
                #[trigger] data_written(m1, m2, 8, a, t, w) && c1 == m2 && match w {
                    Err(e) => r == Err::<Cycles, Exception>(e),
                    Ok(_) => r == Ok::<Cycles, Exception>(Cycles(14)),
                },
        }
}

/// Scc on memory: the byte written is all ones when the condition holds,
/// zero otherwise.
pub fn shi_8_pd(core: &mut ConfiguredCore) -> (r: Result<Cycles>)
    requires
        old(core).wf(),
    ensures
        final(core).wf(),
        shi_8_pd_effect(*old(core), *final(core), r),
{
    let t: u32 = if core.cond_hi() {
        0xff
    } else {
        0
    };
    let ghost c0 = *core;
    let ea = effective_address::predecrement_ay_8(core);
    let ghost m1 = *core;
    assert(effective_address::predecrement_ay_8_rel(c0, m1, ea));
    let a = match ea {
        Err(e) => {
            return Err(e);
        },
        Ok(a) => a,
    };
    let w = write_sized(core, 8, a, t);
    let ghost m2 = *core;
    assert(t == flag_byte(condition(c0, 2)));
    assert(data_written(m1, m2, 8, a, flag_byte(condition(c0, 2)), w));
    match w {
        Err(e) => Err(e),
        Ok(()) => Ok(Cycles(14)),
    }
}

/// What `shi_8_pi` does: the core goes from `c0` to `c1` and `r` comes back.
pub open spec fn shi_8_pi_effect(c0: ConfiguredCore, c1: ConfiguredCore, r: Result<Cycles>) -> bool {
    let t = flag_byte(condition(c0, 2));
    exists|m1: ConfiguredCore, ea: Result<u32>|
        #[trigger] effective_address::postincrement_ay_8_rel(c0, m1, ea) && match ea {
            Err(e) => r == Err::<Cycles, Exception>(e) && c1 == m1,
            Ok(a) => exists|m2: ConfiguredCore, w: Result<()>|
                #[trigger] data_written(m1, m2, 8, a, t, w) && c1 == m2 && match w {
                    Err(e) => r == Err::<Cycles, Exception>(e),
                    Ok(_) => r == Ok::<Cycles, Exception>(Cycles(12)),
                },
        }
}

/// Scc on memory: the byte written is all ones when the condition holds,
/// zero otherwise.
pub fn shi_8_pi(core: &mut ConfiguredCore) -> (r: Result<Cycles>)
    requires
        old(core).wf(),
    ensures
        final(core).wf(),
        shi_8_pi_effect(*old(core), *final(core), r),
{
    let t: u32 = if core.cond_hi() {
        0xff
    } else {
        0
    };
    let ghost c0 = *core;
    let ea = effective_address::postincrement_ay_8(core);
    let ghost m1 = *core;
    assert(effective_address::postincrement_ay_8_rel(c0, m1, ea));
    let a = match ea {
        Err(e) => {
            return Err(e);
        },
        Ok(a) => a,
    };
    let w = write_sized(core, 8, a, t);
    let ghost m2 = *core;
    assert(t == flag_byte(condition(c0, 2)));
    assert(data_written(m1, m2, 8, a, flag_byte(condition(c0, 2)), w));
    match w {
        Err(e) => Err(e),
        Ok(()) => Ok(Cycles(12)),
    }
}

/// What `sle_8_dn` does: the core goes from `c0` to `c1` and `r` comes back.
pub open spec fn sle_8_dn_effect(c0: ConfiguredCore, c1: ConfiguredCore, r: Result<Cycles>) -> bool {
    let reg = ir_dy(c0.ir);
    if condition(c0, 15) {
        r == Ok::<Cycles, Exception>(Cycles(6)) && reg_set(c0, c1, reg, c0.dar[reg] | 0xff)
    } else {
        r == Ok::<Cycles, Exception>(Cycles(4)) && reg_set(c0, c1, reg, c0.dar[reg] & 0xffff_ff00)
    }
}

/// Scc on Dy: the low byte set to all ones when the condition holds, to
/// zero otherwise.
pub fn sle_8_dn(core: &mut ConfiguredCore) -> (r: Result<Cycles>)
    requires
        old(core).wf(),
    ensures
        final(core).wf(),
        sle_8_dn_effect(*old(core), *final(core), r),
{
    let reg = reg_dy(core.ir);
    let v = core.dar[reg];
    if core.cond_le() {
        set_reg(core, reg, v | 0xff);
        Ok(Cycles(6))
    } else {
        set_reg(core, reg, v & 0xffff_ff00);
        Ok(Cycles(4))
    }
}

/// What `sle_8_ai` does: the core goes from `c0` to `c1` and `r` comes back.
pub open spec fn sle_8_ai_effect(c0: ConfiguredCore, c1: ConfiguredCore, r: Result<Cycles>) -> bool {
    let t = flag_byte(condition(c0, 15));
    exists|m1: ConfiguredCore, ea: Result<u32>|
        #[trigger] effective_address::address_indirect_ay_rel(c0, m1, ea) && match ea {
            Err(e) => r == Err::<Cycles, Exception>(e) && c1 == m1,
            Ok(a) => exists|m2: ConfiguredCore, w: Result<()>|
                #[trigger] data_written(m1, m2, 8, a, t, w) && c1 == m2 && match w {
                    Err(e) => r == Err::<Cycles, Exception>(e),
                    Ok(_) => r == Ok::<Cycles, Exception>(Cycles(12)),
                },
        }
}

/// Scc on memory: the byte written is all ones when the condition holds,
/// zero otherwise.
pub fn sle_8_ai(core: &mut ConfiguredCore) -> (r: Result<Cycles>)
    requires
        old(core).wf(),
    ensures
        final(core).wf(),
        sle_8_ai_effect(*old(core), *final(core), r),
{
    let t: u32 = if core.cond_le() {
        0xff
    } else {
        0
    };
    let ghost c0 = *core;
    let ea = effective_address::address_indirect_ay(core);
    let ghost m1 = *core;
    assert(effective_address::address_indirect_ay_rel(c0, m1, ea));
    let a = match ea {
        Err(e) => {
            return Err(e);
        },
        Ok(a) => a,
    };
    let w = write_sized(core, 8, a, t);
    let ghost m2 = *core;
    assert(t == flag_byte(condition(c0, 15)));
    assert(data_written(m1, m2, 8, a, flag_byte(condition(c0, 15)), w));
    match w {
        Err(e) => Err(e),
        Ok(()) => Ok(Cycles(12)),
    }
}

/// What `sle_8_al` does: the core goes from `c0` to `c1` and `r` comes back.
pub open spec fn sle_8_al_effect(c0: ConfiguredCore, c1: ConfiguredCore, r: Result<Cycles>) -> bool {
    let t = flag_byte(condition(c0, 15));
    exists|m1: ConfiguredCore, ea: Result<u32>|
        #[trigger] effective_address::absolute_long_rel(c0, m1, ea) && match ea {
            Err(e) => r == Err::<Cycles, Exception>(e) && c1 == m1,
            Ok(a) => exists|m2: ConfiguredCore, w: Result<()>|
                #[trigger] data_written(m1, m2, 8, a, t, w) && c1 == m2 && match w {
                    Err(e) => r == Err::<Cycles, Exception>(e),
                    Ok(_) => r == Ok::<Cycles, Exception>(Cycles(20)),
                },
        }
}

/// Scc on memory: the byte written is all ones when the condition holds,
/// zero otherwise.
pub fn sle_8_al(core: &mut ConfiguredCore) -> (r: Result<Cycles>)
    requires
        old(core).wf(),
    ensures
        final(core).wf(),
        sle_8_al_effect(*old(core), *final(core), r),
{
    let t: u32 = if core.cond_le() {
        0xff
    } else {
        0
    };
    let ghost c0 = *core;
    let ea = effective_address::absolute_long(core);
    let ghost m1 = *core;
    assert(effective_address::absolute_long_rel(c0, m1, ea));
    let a = match ea {
        Err(e) => {
            return Err(e);
        },
        Ok(a) => a,
    };
    let w = write_sized(core, 8, a, t);
    let ghost m2 = *core;
    assert(t == flag_byte(condition(c0, 15)));
    assert(data_written(m1, m2, 8, a, flag_byte(condition(c0, 15)), w));
    match w {
        Err(e) => Err(e),
        Ok(()) => Ok(Cycles(20)),
    }
}

/// What `sle_8_aw` does: the core goes from `c0` to `c1` and `r` comes back.
pub open spec fn sle_8_aw_effect(c0: ConfiguredCore, c1: ConfiguredCore, r: Result<Cycles>) -> bool {
    let t = flag_byte(condition(c0, 15));
    exists|m1: ConfiguredCore, ea: Result<u32>|
        #[trigger] effective_address::absolute_word_rel(c0, m1, ea) && match ea {
            Err(e) => r == Err::<Cycles, Exception>(e) && c1 == m1,
            Ok(a) => exists|m2: ConfiguredCore, w: Result<()>|
                #[trigger] data_written(m1, m2, 8, a, t, w) && c1 == m2 && match w {
                    Err(e) => r == Err::<Cycles, Exception>(e),
                    Ok(_) => r == Ok::<Cycles, Exception>(Cycles(16)),
                },
        }
}

/// Scc on memory: the byte written is all ones when the condition holds,
/// zero otherwise.
pub fn sle_8_aw(core: &mut ConfiguredCore) -> (r: Result<Cycles>)
    requires
        old(core).wf(),
    ensures
        final(core).wf(),
        sle_8_aw_effect(*old(core), *final(core), r),
{
    let t: u32 = if core.cond_le() {
        0xff
    } else {
        0
    };
    let ghost c0 = *core;
    let ea = effective_address::absolute_word(core);
    let ghost m1 = *core;
    assert(effective_address::absolute_word_rel(c0, m1, ea));
    let a = match ea {
        Err(e) => {
            return Err(e);
        },
        Ok(a) => a,
    };
    let w = write_sized(core, 8, a, t);
    let ghost m2 = *core;
    assert(t == flag_byte(condition(c0, 15)));
    assert(data_written(m1, m2, 8, a, flag_byte(condition(c0, 15)), w));
    match w {
        Err(e) => Err(e),
        Ok(()) => Ok(Cycles(16)),
    }
}

/// What `sle_8_di` does: the core goes from `c0` to `c1` and `r` comes back.
pub open spec fn sle_8_di_effect(c0: ConfiguredCore, c1: ConfiguredCore, r: Result<Cycles>) -> bool {
    let t = flag_byte(condition(c0, 15));
    exists|m1: ConfiguredCore, ea: Result<u32>|
        #[trigger] effective_address::displacement_ay_rel(c0, m1, ea) && match ea {
            Err(e) => r == Err::<Cycles, Exception>(e) && c1 == m1,
            Ok(a) => exists|m2: ConfiguredCore, w: Result<()>|
                #[trigger] data_written(m1, m2, 8, a, t, w) && c1 == m2 && match w {
                    Err(e) => r == Err::<Cycles, Exception>(e),
                    Ok(_) => r == Ok::<Cycles, Exception>(Cycles(16)),
                },
        }
}

/// Scc on memory: the byte written is all ones when the condition holds,
/// zero otherwise.
pub fn sle_8_di(core: &mut ConfiguredCore) -> (r: Result<Cycles>)
    requires
        old(core).wf(),
    ensures
        final(core).wf(),
        sle_8_di_effect(*old(core), *final(core), r),
{
    let t: u32 = if core.cond_le() {
        0xff
    } else {
        0
    };
    let ghost c0 = *core;
    let ea = effective_address::displacement_ay(core);
    let ghost m1 = *core;
    assert(effective_address::displacement_ay_rel(c0, m1, ea));
    let a = match ea {
        Err(e) => {
            return Err(e);
        },
        Ok(a) => a,
    };
    let w = write_sized(core, 8, a, t);
    let ghost m2 = *core;
    assert(t == flag_byte(condition(c0, 15)));
    assert(data_written(m1, m2, 8, a, flag_byte(condition(c0, 15)), w));
    match w {
        Err(e) => Err(e),
        Ok(()) => Ok(Cycles(16)),
    }
}

/// What `sle_8_ix` does: the core goes from `c0` to `c1` and `r` comes back.
pub open spec fn sle_8_ix_effect(c0: ConfiguredCore, c1: ConfiguredCore, r: Result<Cycles>) -> bool {
    let t = flag_byte(condition(c0, 15));
    exists|m1: ConfiguredCore, ea: Result<u32>|
        #[trigger] effective_address::index_ay_rel(c0, m1, ea) && match ea {
            Err(e) => r == Err::<Cycles, Exception>(e) && c1 == m1,
            Ok(a) => exists|m2: ConfiguredCore, w: Result<()>|
                #[trigger] data_written(m1, m2, 8, a, t, w) && c1 == m2 && match w {
                    Err(e) => r == Err::<Cycles, Exception>(e),
                    Ok(_) => r == Ok::<Cycles, Exception>(Cycles(18)),
                },
        }
}

/// Scc on memory: the byte written is all ones when the condition holds,
/// zero otherwise.
pub fn sle_8_ix(core: &mut ConfiguredCore) -> (r: Result<Cycles>)
    requires
        old(core).wf(),
    ensures
        final(core).wf(),
        sle_8_ix_effect(*old(core), *final(core), r),
{
    let t: u32 = if core.cond_le() {
        0xff
    } else {
        0
    };
    let ghost c0 = *core;
    let ea = effective_address::index_ay(core);
    let ghost m1 = *core;
    assert(effective_address::index_ay_rel(c0, m1, ea));
    let a = match ea {
        Err(e) => {
            return Err(e);
        },
        Ok(a) => a,
    };
    let w = write_sized(core, 8, a, t);
    let ghost m2 = *core;
    assert(t == flag_byte(condition(c0, 15)));
    assert(data_written(m1, m2, 8, a, flag_byte(condition(c0, 15)), w));
    match w {
        Err(e) => Err(e),
        Ok(()) => Ok(Cycles(18)),
    }
}

/// What `sle_8_pd` does: the core goes from `c0` to `c1` and `r` comes back.
pub open spec fn sle_8_pd_effect(c0: ConfiguredCore, c1: ConfiguredCore, r: Result<Cycles>) -> bool {
    let t = flag_byte(condition(c0, 15));
    exists|m1: ConfiguredCore, ea: Result<u32>|
        #[trigger] effective_address::predecrement_ay_8_rel(c0, m1, ea) && match ea {
            Err(e) => r == Err::<Cycles, Exception>(e) && c1 == m1,
            Ok(a) => exists|m2: ConfiguredCore, w: Result<()>|
                #[trigger] data_written(m1, m2, 8, a, t, w) && c1 == m2 && match w {
                    Err(e) => r == Err::<Cycles, Exception>(e),
                    Ok(_) => r == Ok::<Cycles, Exception>(Cycles(14)),
                },
        }
}

/// Scc on memory: the byte written is all ones when the condition holds,
/// zero otherwise.
pub fn sle_8_pd(core: &mut ConfiguredCore) -> (r: Result<Cycles>)
    requires
        old(core).wf(),
    ensures
        final(core).wf(),
        sle_8_pd_effect(*old(core), *final(core), r),
{
    let t: u32 = if core.cond_le() {
        0xff
    } else {
        0
    };
    let ghost c0 = *core;
    let ea = effective_address::predecrement_ay_8(core);
    let ghost m1 = *core;
    assert(effective_address::predecrement_ay_8_rel(c0, m1, ea));
    let a = match ea {
        Err(e) => {
            return Err(e);
        },
        Ok(a) => a,
    };
    let w = write_sized(core, 8, a, t);
    let ghost m2 = *core;
    assert(t == flag_byte(condition(c0, 15)));
    assert(data_written(m1, m2, 8, a, flag_byte(condition(c0, 15)), w));
    match w {
        Err(e) => Err(e),
        Ok(()) => Ok(Cycles(14)),
    }
}

/// What `sle_8_pi` does: the core goes from `c0` to `c1` and `r` comes back.
pub open spec fn sle_8_pi_effect(c0: ConfiguredCore, c1: ConfiguredCore, r: Result<Cycles>) -> bool {
    let t = flag_byte(condition(c0, 15));
    exists|m1: ConfiguredCore, ea: Result<u32>|
        #[trigger] effective_address::postincrement_ay_8_rel(c0, m1, ea) && match ea {
            Err(e) => r == Err::<Cycles, Exception>(e) && c1 == m1,
            Ok(a) => exists|m2: ConfiguredCore, w: Result<()>|
                #[trigger] data_written(m1, m2, 8, a, t, w) && c1 == m2 && match w {
                    Err(e) => r == Err::<Cycles, Exception>(e),
                    Ok(_) => r == Ok::<Cycles, Exception>(Cycles(12)),
                },
        }
}

/// Scc on memory: the byte written is all ones when the condition holds,
/// zero otherwise.
pub fn sle_8_pi(core: &mut ConfiguredCore) -> (r: Result<Cycles>)
    requires
        old(core).wf(),
    ensures
        final(core).wf(),
        sle_8_pi_effect(*old(core), *final(core), r),
{
    let t: u32 = if core.cond_le() {
        0xff
    } else {
        0
    };
    let ghost c0 = *core;
    let ea = effective_address::postincrement_ay_8(core);
    let ghost m1 = *core;
    assert(effective_address::postincrement_ay_8_rel(c0, m1, ea));
    let a = match ea {
        Err(e) => {
            return Err(e);
        },
        Ok(a) => a,
    };
    let w = write_sized(core, 8, a, t);
    let ghost m2 = *core;
    assert(t == flag_byte(condition(c0, 15)));
    assert(data_written(m1, m2, 8, a, flag_byte(condition(c0, 15)), w));
    match w {
        Err(e) => Err(e),
        Ok(()) => Ok(Cycles(12)),
    }
}

/// What `sls_8_dn` does: the core goes from `c0` to `c1` and `r` comes back.
pub open spec fn sls_8_dn_effect(c0: ConfiguredCore, c1: ConfiguredCore, r: Result<Cycles>) -> bool {
    let reg = ir_dy(c0.ir);
    if condition(c0, 3) {
        r == Ok::<Cycles, Exception>(Cycles(6)) && reg_set(c0, c1, reg, c0.dar[reg] | 0xff)
    } else {
        r == Ok::<Cycles, Exception>(Cycles(4)) && reg_set(c0, c1, reg, c0.dar[reg] & 0xffff_ff00)
    }
}

/// Scc on Dy: the low byte set to all ones when the condition holds, to
/// zero otherwise.
pub fn sls_8_dn(core: &mut ConfiguredCore) -> (r: Result<Cycles>)
    requires
        old(core).wf(),
    ensures
        final(core).wf(),
        sls_8_dn_effect(*old(core), *final(core), r),
{
    let reg = reg_dy(core.ir);
    let v = core.dar[reg];
    if core.cond_ls() {
        set_reg(core, reg, v | 0xff);
        Ok(Cycles(6))
    } else {
        set_reg(core, reg, v & 0xffff_ff00);
        Ok(Cycles(4))
    }
}

/// What `sls_8_ai` does: the core goes from `c0` to `c1` and `r` comes back.
pub open spec fn sls_8_ai_effect(c0: ConfiguredCore, c1: ConfiguredCore, r: Result<Cycles>) -> bool {
    let t = flag_byte(condition(c0, 3));
    exists|m1: ConfiguredCore, ea: Result<u32>|
        #[trigger] effective_address::address_indirect_ay_rel(c0, m1, ea) && match ea {
            Err(e) => r == Err::<Cycles, Exception>(e) && c1 == m1,
            Ok(a) => exists|m2: ConfiguredCore, w: Result<()>|
                #[trigger] data_written(m1, m2, 8, a, t, w) && c1 == m2 && match w {
                    Err(e) => r == Err::<Cycles, Exception>(e),
                    Ok(_) => r == Ok::<Cycles, Exception>(Cycles(12)),
                },
        }
}

/// Scc on memory: the byte written is all ones when the condition holds,
/// zero otherwise.
pub fn sls_8_ai(core: &mut ConfiguredCore) -> (r: Result<Cycles>)
    requires
        old(core).wf(),
    ensures
        final(core).wf(),
        sls_8_ai_effect(*old(core), *final(core), r),
{
    let t: u32 = if core.cond_ls() {
        0xff
    } else {
        0
    };
    let ghost c0 = *core;
    let ea = effective_address::address_indirect_ay(core);
    let ghost m1 = *core;
    assert(effective_address::address_indirect_ay_rel(c0, m1, ea));
    let a = match ea {
        Err(e) => {
            return Err(e);
        },
        Ok(a) => a,
    };
    let w = write_sized(core, 8, a, t);
    let ghost m2 = *core;
    assert(t == flag_byte(condition(c0, 3)));
    assert(data_written(m1, m2, 8, a, flag_byte(condition(c0, 3)), w));
    match w {
        Err(e) => Err(e),
        Ok(()) => Ok(Cycles(12)),
    }
}

/// What `sls_8_al` does: the core goes from `c0` to `c1` and `r` comes back.
pub open spec fn sls_8_al_effect(c0: ConfiguredCore, c1: ConfiguredCore, r: Result<Cycles>) -> bool {
    let t = flag_byte(condition(c0, 3));
    exists|m1: ConfiguredCore, ea: Result<u32>|
        #[trigger] effective_address::absolute_long_rel(c0, m1, ea) && match ea {
            Err(e) => r == Err::<Cycles, Exception>(e) && c1 == m1,
            Ok(a) => exists|m2: ConfiguredCore, w: Result<()>|
                #[trigger] data_written(m1, m2, 8, a, t, w) && c1 == m2 && match w {
                    Err(e) => r == Err::<Cycles, Exception>(e),
                    Ok(_) => r == Ok::<Cycles, Exception>(Cycles(20)),
                },
        }
}

/// Scc on memory: the byte written is all ones when the condition holds,
/// zero otherwise.
pub fn sls_8_al(core: &mut ConfiguredCore) -> (r: Result<Cycles>)
    requires
        old(core).wf(),
    ensures
        final(core).wf(),
        sls_8_al_effect(*old(core), *final(core), r),
{
    let t: u32 = if core.cond_ls() {
        0xff
    } else {
        0
    };
    let ghost c0 = *core;
    let ea = effective_address::absolute_long(core);
    let ghost m1 = *core;
    assert(effective_address::absolute_long_rel(c0, m1, ea));
    let a = match ea {
        Err(e) => {
            return Err(e);
        },
        Ok(a) => a,
    };
    let w = write_sized(core, 8, a, t);
    let ghost m2 = *core;
    assert(t == flag_byte(condition(c0, 3)));
    assert(data_written(m1, m2, 8, a, flag_byte(condition(c0, 3)), w));
    match w {
        Err(e) => Err(e),
        Ok(()) => Ok(Cycles(20)),
    }
}

/// What `sls_8_aw` does: the core goes from `c0` to `c1` and `r` comes back.
pub open spec fn sls_8_aw_effect(c0: ConfiguredCore, c1: ConfiguredCore, r: Result<Cycles>) -> bool {
    let t = flag_byte(condition(c0, 3));
    exists|m1: ConfiguredCore, ea: Result<u32>|
        #[trigger] effective_address::absolute_word_rel(c0, m1, ea) && match ea {
            Err(e) => r == Err::<Cycles, Exception>(e) && c1 == m1,
            Ok(a) => exists|m2: ConfiguredCore, w: Result<()>|
                #[trigger] data_written(m1, m2, 8, a, t, w) && c1 == m2 && match w {
                    Err(e) => r == Err::<Cycles, Exception>(e),
                    Ok(_) => r == Ok::<Cycles, Exception>(Cycles(16)),
                },
        }
}

/// Scc on memory: the byte written is all ones when the condition holds,
/// zero otherwise.
pub fn sls_8_aw(core: &mut ConfiguredCore) -> (r: Result<Cycles>)
    requires
        old(core).wf(),
    ensures
        final(core).wf(),
        sls_8_aw_effect(*old(core), *final(core), r),
{
    let t: u32 = if core.cond_ls() {
        0xff
    } else {
        0
    };
    let ghost c0 = *core;
    let ea = effective_address::absolute_word(core);
    let ghost m1 = *core;
    assert(effective_address::absolute_word_rel(c0, m1, ea));
    let a = match ea {
        Err(e) => {
            return Err(e);
        },
        Ok(a) => a,
    };
    let w = write_sized(core, 8, a, t);
    let ghost m2 = *core;
    assert(t == flag_byte(condition(c0, 3)));
    assert(data_written(m1, m2, 8, a, flag_byte(condition(c0, 3)), w));
    match w {
        Err(e) => Err(e),
        Ok(()) => Ok(Cycles(16)),
    }
}

/// What `sls_8_di` does: the core goes from `c0` to `c1` and `r` comes back.
pub open spec fn sls_8_di_effect(c0: ConfiguredCore, c1: ConfiguredCore, r: Result<Cycles>) -> bool {
    let t = flag_byte(condition(c0, 3));
    exists|m1: ConfiguredCore, ea: Result<u32>|
        #[trigger] effective_address::displacement_ay_rel(c0, m1, ea) && match ea {
            Err(e) => r == Err::<Cycles, Exception>(e) && c1 == m1,
            Ok(a) => exists|m2: ConfiguredCore, w: Result<()>|
                #[trigger] data_written(m1, m2, 8, a, t, w) && c1 == m2 && match w {
                    Err(e) => r == Err::<Cycles, Exception>(e),
                    Ok(_) => r == Ok::<Cycles, Exception>(Cycles(16)),
                },
        }
}

/// Scc on memory: the byte written is all ones when the condition holds,
/// zero otherwise.
pub fn sls_8_di(core: &mut ConfiguredCore) -> (r: Result<Cycles>)
    requires
        old(core).wf(),
    ensures
        final(core).wf(),
        sls_8_di_effect(*old(core), *final(core), r),
{
    let t: u32 = if core.cond_ls() {
        0xff
    } else {
        0
    };
    let ghost c0 = *core;
    let ea = effective_address::displacement_ay(core);
    let ghost m1 = *core;
    assert(effective_address::displacement_ay_rel(c0, m1, ea));
    let a = match ea {
        Err(e) => {
            return Err(e);
        },
        Ok(a) => a,
    };
    let w = write_sized(core, 8, a, t);
    let ghost m2 = *core;
    assert(t == flag_byte(condition(c0, 3)));
    assert(data_written(m1, m2, 8, a, flag_byte(condition(c0, 3)), w));
    match w {
        Err(e) => Err(e),
        Ok(()) => Ok(Cycles(16)),
    }
}

/// What `sls_8_ix` does: the core goes from `c0` to `c1` and `r` comes back.
pub open spec fn sls_8_ix_effect(c0: ConfiguredCore, c1: ConfiguredCore, r: Result<Cycles>) -> bool {
    let t = flag_byte(condition(c0, 3));
    exists|m1: ConfiguredCore, ea: Result<u32>|
        #[trigger] effective_address::index_ay_rel(c0, m1, ea) && match ea {
            Err(e) => r == Err::<Cycles, Exception>(e) && c1 == m1,
            Ok(a) => exists|m2: ConfiguredCore, w: Result<()>|
                #[trigger] data_written(m1, m2, 8, a, t, w) && c1 == m2 && match w {
                    Err(e) => r == Err::<Cycles, Exception>(e),
                    Ok(_) => r == Ok::<Cycles, Exception>(Cycles(18)),
                },
        }
}

/// Scc on memory: the byte written is all ones when the condition holds,
/// zero otherwise.
pub fn sls_8_ix(core: &mut ConfiguredCore) -> (r: Result<Cycles>)
    requires
        old(core).wf(),
    ensures
        final(core).wf(),
        sls_8_ix_effect(*old(core), *final(core), r),
{
    let t: u32 = if core.cond_ls() {
        0xff
    } else {
        0
    };
    let ghost c0 = *core;
    let ea = effective_address::index_ay(core);
    let ghost m1 = *core;
    assert(effective_address::index_ay_rel(c0, m1, ea));
    let a = match ea {
        Err(e) => {
            return Err(e);
        },
        Ok(a) => a,
    };
    let w = write_sized(core, 8, a, t);
    let ghost m2 = *core;
    assert(t == flag_byte(condition(c0, 3)));
    assert(data_written(m1, m2, 8, a, flag_byte(condition(c0, 3)), w));
    match w {
        Err(e) => Err(e),
        Ok(()) => Ok(Cycles(18)),
    }
}

/// What `sls_8_pd` does: the core goes from `c0` to `c1` and `r` comes back.
pub open spec fn sls_8_pd_effect(c0: ConfiguredCore, c1: ConfiguredCore, r: Result<Cycles>) -> bool {
    let t = flag_byte(condition(c0, 3));
    exists|m1: ConfiguredCore, ea: Result<u32>|
        #[trigger] effective_address::predecrement_ay_8_rel(c0, m1, ea) && match ea {
            Err(e) => r == Err::<Cycles, Exception>(e) && c1 == m1,
            Ok(a) => exists|m2: ConfiguredCore, w: Result<()>|
                #[trigger] data_written(m1, m2, 8, a, t, w) && c1 == m2 && match w {
                    Err(e) => r == Err::<Cycles, Exception>(e),
                    Ok(_) => r == Ok::<Cycles, Exception>(Cycles(14)),
                },
        }
}

/// Scc on memory: the byte written is all ones when the condition holds,
/// zero otherwise.
pub fn sls_8_pd(core: &mut ConfiguredCore) -> (r: Result<Cycles>)
    requires
        old(core).wf(),
    ensures
        final(core).wf(),
        sls_8_pd_effect(*old(core), *final(core), r),
{
    let t: u32 = if core.cond_ls() {
        0xff
    } else {
        0
    };
    let ghost c0 = *core;
    let ea = effective_address::predecrement_ay_8(core);
    let ghost m1 = *core;
    assert(effective_address::predecrement_ay_8_rel(c0, m1, ea));
    let a = match ea {
        Err(e) => {
            return Err(e);
        },
        Ok(a) => a,
    };
    let w = write_sized(core, 8, a, t);
    let ghost m2 = *core;
    assert(t == flag_byte(condition(c0, 3)));
    assert(data_written(m1, m2, 8, a, flag_byte(condition(c0, 3)), w));
    match w {
        Err(e) => Err(e),
        Ok(()) => Ok(Cycles(14)),
    }
}

/// What `sls_8_pi` does: the core goes from `c0` to `c1` and `r` comes back.
pub open spec fn sls_8_pi_effect(c0: ConfiguredCore, c1: ConfiguredCore, r: Result<Cycles>) -> bool {
    let t = flag_byte(condition(c0, 3));
    exists|m1: ConfiguredCore, ea: Result<u32>|
        #[trigger] effective_address::postincrement_ay_8_rel(c0, m1, ea) && match ea {
            Err(e) => r == Err::<Cycles, Exception>(e) && c1 == m1,
            Ok(a) => exists|m2: ConfiguredCore, w: Result<()>|
                #[trigger] data_written(m1, m2, 8, a, t, w) && c1 == m2 && match w {
                    Err(e) => r == Err::<Cycles, Exception>(e),
                    Ok(_) => r == Ok::<Cycles, Exception>(Cycles(12)),
                },
        }
}

/// Scc on memory: the byte written is all ones when the condition holds,
/// zero otherwise.
pub fn sls_8_pi(core: &mut ConfiguredCore) -> (r: Result<Cycles>)
    requires
        old(core).wf(),
    ensures
        final(core).wf(),
        sls_8_pi_effect(*old(core), *final(core), r),
{
    let t: u32 = if core.cond_ls() {
        0xff
    } else {
        0
    };
    let ghost c0 = *core;
    let ea = effective_address::postincrement_ay_8(core);
    let ghost m1 = *core;
    assert(effective_address::postincrement_ay_8_rel(c0, m1, ea));
    let a = match ea {
        Err(e) => {
            return Err(e);
        },
        Ok(a) => a,
    };
    let w = write_sized(core, 8, a, t);
    let ghost m2 = *core;
    assert(t == flag_byte(condition(c0, 3)));
    assert(data_written(m1, m2, 8, a, flag_byte(condition(c0, 3)), w));
    match w {
        Err(e) => Err(e),
        Ok(()) => Ok(Cycles(12)),
    }
}

/// What `slt_8_dn` does: the core goes from `c0` to `c1` and `r` comes back.
pub open spec fn slt_8_dn_effect(c0: ConfiguredCore, c1: ConfiguredCore, r: Result<Cycles>) -> bool {
    let reg = ir_dy(c0.ir);
    if condition(c0, 13) {
        r == Ok::<Cycles, Exception>(Cycles(6)) && reg_set(c0, c1, reg, c0.dar[reg] | 0xff)
    } else {
        r == Ok::<Cycles, Exception>(Cycles(4)) && reg_set(c0, c1, reg, c0.dar[reg] & 0xffff_ff00)
    }
}

/// Scc on Dy: the low byte set to all ones when the condition holds, to
/// zero otherwise.
pub fn slt_8_dn(core: &mut ConfiguredCore) -> (r: Result<Cycles>)
    requires
        old(core).wf(),
    ensures
        final(core).wf(),
        slt_8_dn_effect(*old(core), *final(core), r),
{
    let reg = reg_dy(core.ir);
    let v = core.dar[reg];
    if core.cond_lt() {
        set_reg(core, reg, v | 0xff);
        Ok(Cycles(6))
    } else {
        set_reg(core, reg, v & 0xffff_ff00);
        Ok(Cycles(4))
    }
}

/// What `slt_8_ai` does: the core goes from `c0` to `c1` and `r` comes back.
pub open spec fn slt_8_ai_effect(c0: ConfiguredCore, c1: ConfiguredCore, r: Result<Cycles>) -> bool {
    let t = flag_byte(condition(c0, 13));
    exists|m1: ConfiguredCore, ea: Result<u32>|
        #[trigger] effective_address::address_indirect_ay_rel(c0, m1, ea) && match ea {
            Err(e) => r == Err::<Cycles, Exception>(e) && c1 == m1,
            Ok(a) => exists|m2: ConfiguredCore, w: Result<()>|
                #[trigger] data_written(m1, m2, 8, a, t, w) && c1 == m2 && match w {
                    Err(e) => r == Err::<Cycles, Exception>(e),
                    Ok(_) => r == Ok::<Cycles, Exception>(Cycles(12)),
                },
        }
}

/// Scc on memory: the byte written is all ones when the condition holds,
/// zero otherwise.
pub fn slt_8_ai(core: &mut ConfiguredCore) -> (r: Result<Cycles>)
    requires
        old(core).wf(),
    ensures
        final(core).wf(),
        slt_8_ai_effect(*old(core), *final(core), r),
{
    let t: u32 = if core.cond_lt() {
        0xff
    } else {
        0
    };
    let ghost c0 = *core;
    let ea = effective_address::address_indirect_ay(core);
    let ghost m1 = *core;
    assert(effective_address::address_indirect_ay_rel(c0, m1, ea));
    let a = match ea {
        Err(e) => {
            return Err(e);
        },
        Ok(a) => a,
    };
    let w = write_sized(core, 8, a, t);
    let ghost m2 = *core;
    assert(t == flag_byte(condition(c0, 13)));
    assert(data_written(m1, m2, 8, a, flag_byte(condition(c0, 13)), w));
    match w {
        Err(e) => Err(e),
        Ok(()) => Ok(Cycles(12)),
    }
}

/// What `slt_8_al` does: the core goes from `c0` to `c1` and `r` comes back.
pub open spec fn slt_8_al_effect(c0: ConfiguredCore, c1: ConfiguredCore, r: Result<Cycles>) -> bool {
    let t = flag_byte(condition(c0, 13));
    exists|m1: ConfiguredCore, ea: Result<u32>|
        #[trigger] effective_address::absolute_long_rel(c0, m1, ea) && match ea {
            Err(e) => r == Err::<Cycles, Exception>(e) && c1 == m1,
            Ok(a) => exists|m2: ConfiguredCore, w: Result<()>|
                #[trigger] data_written(m1, m2, 8, a, t, w) && c1 == m2 && match w {
                    Err(e) => r == Err::<Cycles, Exception>(e),
                    Ok(_) => r == Ok::<Cycles, Exception>(Cycles(20)),
                },
        }
}

/// Scc on memory: the byte written is all ones when the condition holds,
/// zero otherwise.
pub fn slt_8_al(core: &mut ConfiguredCore) -> (r: Result<Cycles>)
    requires
        old(core).wf(),
    ensures
        final(core).wf(),
        slt_8_al_effect(*old(core), *final(core), r),
{
    let t: u32 = if core.cond_lt() {
        0xff
    } else {
        0
    };
    let ghost c0 = *core;
    let ea = effective_address::absolute_long(core);
    let ghost m1 = *core;
    assert(effective_address::absolute_long_rel(c0, m1, ea));
    let a = match ea {
        Err(e) => {
            return Err(e);
        },
        Ok(a) => a,
    };
    let w = write_sized(core, 8, a, t);
    let ghost m2 = *core;
    assert(t == flag_byte(condition(c0, 13)));
    assert(data_written(m1, m2, 8, a, flag_byte(condition(c0, 13)), w));
    match w {
        Err(e) => Err(e),
        Ok(()) => Ok(Cycles(20)),
    }
}

/// What `slt_8_aw` does: the core goes from `c0` to `c1` and `r` comes back.
pub open spec fn slt_8_aw_effect(c0: ConfiguredCore, c1: ConfiguredCore, r: Result<Cycles>) -> bool {
    let t = flag_byte(condition(c0, 13));
    exists|m1: ConfiguredCore, ea: Result<u32>|
        #[trigger] effective_address::absolute_word_rel(c0, m1, ea) && match ea {
            Err(e) => r == Err::<Cycles, Exception>(e) && c1 == m1,
            Ok(a) => exists|m2: ConfiguredCore, w: Result<()>|
                #[trigger] data_written(m1, m2, 8, a, t, w) && c1 == m2 && match w {
                    Err(e) => r == Err::<Cycles, Exception>(e),
                    Ok(_) => r == Ok::<Cycles, Exception>(Cycles(16)),
                },
        }
}

/// Scc on memory: the byte written is all ones when the condition holds,
/// zero otherwise.
pub fn slt_8_aw(core: &mut ConfiguredCore) -> (r: Result<Cycles>)
    requires
        old(core).wf(),
    ensures
        final(core).wf(),
        slt_8_aw_effect(*old(core), *final(core), r),
{
    let t: u32 = if core.cond_lt() {
        0xff
    } else {
        0
    };
    let ghost c0 = *core;
    let ea = effective_address::absolute_word(core);
    let ghost m1 = *core;
    assert(effective_address::absolute_word_rel(c0, m1, ea));
    let a = match ea {
        Err(e) => {
            return Err(e);
        },
        Ok(a) => a,
    };
    let w = write_sized(core, 8, a, t);
    let ghost m2 = *core;
    assert(t == flag_byte(condition(c0, 13)));
    assert(data_written(m1, m2, 8, a, flag_byte(condition(c0, 13)), w));
    match w {
        Err(e) => Err(e),
        Ok(()) => Ok(Cycles(16)),
    }
}

/// What `slt_8_di` does: the core goes from `c0` to `c1` and `r` comes back.
pub open spec fn slt_8_di_effect(c0: ConfiguredCore, c1: ConfiguredCore, r: Result<Cycles>) -> bool {
    let t = flag_byte(condition(c0, 13));
    exists|m1: ConfiguredCore, ea: Result<u32>|
        #[trigger] effective_address::displacement_ay_rel(c0, m1, ea) && match ea {
            Err(e) => r == Err::<Cycles, Exception>(e) && c1 == m1,
            Ok(a) => exists|m2: ConfiguredCore, w: Result<()>|
                #[trigger] data_written(m1, m2, 8, a, t, w) && c1 == m2 && match w {
                    Err(e) => r == Err::<Cycles, Exception>(e),
                    Ok(_) => r == Ok::<Cycles, Exception>(Cycles(16)),
                },
        }
}

/// Scc on memory: the byte written is all ones when the condition holds,
/// zero otherwise.
pub fn slt_8_di(core: &mut ConfiguredCore) -> (r: Result<Cycles>)
    requires
        old(core).wf(),
    ensures
        final(core).wf(),
        slt_8_di_effect(*old(core), *final(core), r),
{
    let t: u32 = if core.cond_lt() {
        0xff
    } else {
        0
    };
    let ghost c0 = *core;
    let ea = effective_address::displacement_ay(core);
    let ghost m1 = *core;
    assert(effective_address::displacement_ay_rel(c0, m1, ea));
    let a = match ea {
        Err(e) => {
            return Err(e);
        },
        Ok(a) => a,
    };
    let w = write_sized(core, 8, a, t);
    let ghost m2 = *core;
    assert(t == flag_byte(condition(c0, 13)));
    assert(data_written(m1, m2, 8, a, flag_byte(condition(c0, 13)), w));
    match w {
        Err(e) => Err(e),
        Ok(()) => Ok(Cycles(16)),
    }
}

/// What `slt_8_ix` does: the core goes from `c0` to `c1` and `r` comes back.
pub open spec fn slt_8_ix_effect(c0: ConfiguredCore, c1: ConfiguredCore, r: Result<Cycles>) -> bool {
    let t = flag_byte(condition(c0, 13));
    exists|m1: ConfiguredCore, ea: Result<u32>|
        #[trigger] effective_address::index_ay_rel(c0, m1, ea) && match ea {
            Err(e) => r == Err::<Cycles, Exception>(e) && c1 == m1,
            Ok(a) => exists|m2: ConfiguredCore, w: Result<()>|
                #[trigger] data_written(m1, m2, 8, a, t, w) && c1 == m2 && match w {
                    Err(e) => r == Err::<Cycles, Exception>(e),
                    Ok(_) => r == Ok::<Cycles, Exception>(Cycles(18)),
                },
        }
}

/// Scc on memory: the byte written is all ones when the condition holds,
/// zero otherwise.
pub fn slt_8_ix(core: &mut ConfiguredCore) -> (r: Result<Cycles>)
    requires
        old(core).wf(),
    ensures
        final(core).wf(),
        slt_8_ix_effect(*old(core), *final(core), r),
{
    let t: u32 = if core.cond_lt() {
        0xff
    } else {
        0
    };
    let ghost c0 = *core;
    let ea = effective_address::index_ay(core);
    let ghost m1 = *core;
    assert(effective_address::index_ay_rel(c0, m1, ea));
    let a = match ea {
        Err(e) => {
            return Err(e);
        },
        Ok(a) => a,
    };
    let w = write_sized(core, 8, a, t);
    let ghost m2 = *core;
    assert(t == flag_byte(condition(c0, 13)));
    assert(data_written(m1, m2, 8, a, flag_byte(condition(c0, 13)), w));
    match w {
        Err(e) => Err(e),
        Ok(()) => Ok(Cycles(18)),
    }
}

/// What `slt_8_pd` does: the core goes from `c0` to `c1` and `r` comes back.
pub open spec fn slt_8_pd_effect(c0: ConfiguredCore, c1: ConfiguredCore, r: Result<Cycles>) -> bool {
    let t = flag_byte(condition(c0, 13));
    exists|m1: ConfiguredCore, ea: Result<u32>|
        #[trigger] effective_address::predecrement_ay_8_rel(c0, m1, ea) && match ea {
            Err(e) => r == Err::<Cycles, Exception>(e) && c1 == m1,
            Ok(a) => exists|m2: ConfiguredCore, w: Result<()>|
                #[trigger] data_written(m1, m2, 8, a, t, w) && c1 == m2 && match w {
                    Err(e) => r == Err::<Cycles, Exception>(e),
                    Ok(_) => r == Ok::<Cycles, Exception>(Cycles(14)),
                },
        }
}

/// Scc on memory: the byte written is all ones when the condition holds,
/// zero otherwise.
pub fn slt_8_pd(core: &mut ConfiguredCore) -> (r: Result<Cycles>)
    requires
        old(core).wf(),
    ensures
        final(core).wf(),
        slt_8_pd_effect(*old(core), *final(core), r),
{
    let t: u32 = if core.cond_lt() {
        0xff
    } else {
        0
    };
    let ghost c0 = *core;
    let ea = effective_address::predecrement_ay_8(core);
    let ghost m1 = *core;
    assert(effective_address::predecrement_ay_8_rel(c0, m1, ea));
    let a = match ea {
        Err(e) => {
            return Err(e);
        },
        Ok(a) => a,
    };
    let w = write_sized(core, 8, a, t);
    let ghost m2 = *core;
    assert(t == flag_byte(condition(c0, 13)));
    assert(data_written(m1, m2, 8, a, flag_byte(condition(c0, 13)), w));
    match w {
        Err(e) => Err(e),
        Ok(()) => Ok(Cycles(14)),
    }
}

/// What `slt_8_pi` does: the core goes from `c0` to `c1` and `r` comes back.
pub open spec fn slt_8_pi_effect(c0: ConfiguredCore, c1: ConfiguredCore, r: Result<Cycles>) -> bool {
    let t = flag_byte(condition(c0, 13));
    exists|m1: ConfiguredCore, ea: Result<u32>|
        #[trigger] effective_address::postincrement_ay_8_rel(c0, m1, ea) && match ea {
            Err(e) => r == Err::<Cycles, Exception>(e) && c1 == m1,
            Ok(a) => exists|m2: ConfiguredCore, w: Result<()>|
                #[trigger] data_written(m1, m2, 8, a, t, w) && c1 == m2 && match w {
                    Err(e) => r == Err::<Cycles, Exception>(e),
                    Ok(_) => r == Ok::<Cycles, Exception>(Cycles(12)),
                },
        }
}

/// Scc on memory: the byte written is all ones when the condition holds,
/// zero otherwise.
pub fn slt_8_pi(core: &mut ConfiguredCore) -> (r: Result<Cycles>)
    requires
        old(core).wf(),
    ensures
        final(core).wf(),
        slt_8_pi_effect(*old(core), *final(core), r),
{
    let t: u32 = if core.cond_lt() {
        0xff
    } else {
        0
    };
    let ghost c0 = *core;
    let ea = effective_address::postincrement_ay_8(core);
    let ghost m1 = *core;
    assert(effective_address::postincrement_ay_8_rel(c0, m1, ea));
    let a = match ea {
        Err(e) => {
            return Err(e);
        },
        Ok(a) => a,
    };
    let w = write_sized(core, 8, a, t);
    let ghost m2 = *core;
    assert(t == flag_byte(condition(c0, 13)));
    assert(data_written(m1, m2, 8, a, flag_byte(condition(c0, 13)), w));
    match w {
        Err(e) => Err(e),
        Ok(()) => Ok(Cycles(12)),
    }
}

/// What `smi_8_dn` does: the core goes from `c0` to `c1` and `r` comes back.
pub open spec fn smi_8_dn_effect(c0: ConfiguredCore, c1: ConfiguredCore, r: Result<Cycles>) -> bool {
    let reg = ir_dy(c0.ir);
    if condition(c0, 11) {
        r == Ok::<Cycles, Exception>(Cycles(6)) && reg_set(c0, c1, reg, c0.dar[reg] | 0xff)
    } else {
        r == Ok::<Cycles, Exception>(Cycles(4)) && reg_set(c0, c1, reg, c0.dar[reg] & 0xffff_ff00)
    }
}

/// Scc on Dy: the low byte set to all ones when the condition holds, to
/// zero otherwise.
pub fn smi_8_dn(core: &mut ConfiguredCore) -> (r: Result<Cycles>)
    requires
        old(core).wf(),
    ensures
        final(core).wf(),
        smi_8_dn_effect(*old(core), *final(core), r),
{
    let reg = reg_dy(core.ir);
    let v = core.dar[reg];
    if core.cond_mi() {
        set_reg(core, reg, v | 0xff);
        Ok(Cycles(6))
    } else {
        set_reg(core, reg, v & 0xffff_ff00);
        Ok(Cycles(4))
    }
}

/// What `smi_8_ai` does: the core goes from `c0` to `c1` and `r` comes back.
pub open spec fn smi_8_ai_effect(c0: ConfiguredCore, c1: ConfiguredCore, r: Result<Cycles>) -> bool {
    let t = flag_byte(condition(c0, 11));
    exists|m1: ConfiguredCore, ea: Result<u32>|
        #[trigger] effective_address::address_indirect_ay_rel(c0, m1, ea) && match ea {
            Err(e) => r == Err::<Cycles, Exception>(e) && c1 == m1,
            Ok(a) => exists|m2: ConfiguredCore, w: Result<()>|
                #[trigger] data_written(m1, m2, 8, a, t, w) && c1 == m2 && match w {
                    Err(e) => r == Err::<Cycles, Exception>(e),
                    Ok(_) => r == Ok::<Cycles, Exception>(Cycles(12)),
                },
        }
}

/// Scc on memory: the byte written is all ones when the condition holds,
/// zero otherwise.
pub fn smi_8_ai(core: &mut ConfiguredCore) -> (r: Result<Cycles>)
    requires
        old(core).wf(),
    ensures
        final(core).wf(),
        smi_8_ai_effect(*old(core), *final(core), r),
{
    let t: u32 = if core.cond_mi() {
        0xff
    } else {
        0
    };
    let ghost c0 = *core;
    let ea = effective_address::address_indirect_ay(core);
    let ghost m1 = *core;
    assert(effective_address::address_indirect_ay_rel(c0, m1, ea));
    let a = match ea {
        Err(e) => {
            return Err(e);
        },
        Ok(a) => a,
    };
    let w = write_sized(core, 8, a, t);
    let ghost m2 = *core;
    assert(t == flag_byte(condition(c0, 11)));
    assert(data_written(m1, m2, 8, a, flag_byte(condition(c0, 11)), w));
    match w {
        Err(e) => Err(e),
        Ok(()) => Ok(Cycles(12)),
    }
}

/// What `smi_8_al` does: the core goes from `c0` to `c1` and `r` comes back.
pub open spec fn smi_8_al_effect(c0: ConfiguredCore, c1: ConfiguredCore, r: Result<Cycles>) -> bool {
    let t = flag_byte(condition(c0, 11));
    exists|m1: ConfiguredCore, ea: Result<u32>|
        #[trigger] effective_address::absolute_long_rel(c0, m1, ea) && match ea {
            Err(e) => r == Err::<Cycles, Exception>(e) && c1 == m1,
            Ok(a) => exists|m2: ConfiguredCore, w: Result<()>|
                #[trigger] data_written(m1, m2, 8, a, t, w) && c1 == m2 && match w {
                    Err(e) => r == Err::<Cycles, Exception>(e),
                    Ok(_) => r == Ok::<Cycles, Exception>(Cycles(20)),
                },
        }
}

/// Scc on memory: the byte written is all ones when the condition holds,
/// zero otherwise.
pub fn smi_8_al(core: &mut ConfiguredCore) -> (r: Result<Cycles>)
    requires
        old(core).wf(),
    ensures
        final(core).wf(),
        smi_8_al_effect(*old(core), *final(core), r),
{
    let t: u32 = if core.cond_mi() {
        0xff
    } else {
        0
    };
    let ghost c0 = *core;
    let ea = effective_address::absolute_long(core);
    let ghost m1 = *core;
    assert(effective_address::absolute_long_rel(c0, m1, ea));
    let a = match ea {
        Err(e) => {
            return Err(e);
        },
        Ok(a) => a,
    };
    let w = write_sized(core, 8, a, t);
    let ghost m2 = *core;
    assert(t == flag_byte(condition(c0, 11)));
    assert(data_written(m1, m2, 8, a, flag_byte(condition(c0, 11)), w));
    match w {
        Err(e) => Err(e),
        Ok(()) => Ok(Cycles(20)),
    }
}

/// What `smi_8_aw` does: the core goes from `c0` to `c1` and `r` comes back.
pub open spec fn smi_8_aw_effect(c0: ConfiguredCore, c1: ConfiguredCore, r: Result<Cycles>) -> bool {
    let t = flag_byte(condition(c0, 11));
    exists|m1: ConfiguredCore, ea: Result<u32>|
        #[trigger] effective_address::absolute_word_rel(c0, m1, ea) && match ea {
            Err(e) => r == Err::<Cycles, Exception>(e) && c1 == m1,
            Ok(a) => exists|m2: ConfiguredCore, w: Result<()>|
                #[trigger] data_written(m1, m2, 8, a, t, w) && c1 == m2 && match w {
                    Err(e) => r == Err::<Cycles, Exception>(e),
                    Ok(_) => r == Ok::<Cycles, Exception>(Cycles(16)),
                },
        }
}

/// Scc on memory: the byte written is all ones when the condition holds,
/// zero otherwise.
pub fn smi_8_aw(core: &mut ConfiguredCore) -> (r: Result<Cycles>)
    requires
        old(core).wf(),
    ensures
        final(core).wf(),
        smi_8_aw_effect(*old(core), *final(core), r),
{
    let t: u32 = if core.cond_mi() {
        0xff
    } else {
        0
    };
    let ghost c0 = *core;
    let ea = effective_address::absolute_word(core);
    let ghost m1 = *core;
    assert(effective_address::absolute_word_rel(c0, m1, ea));
    let a = match ea {
        Err(e) => {
            return Err(e);
        },
        Ok(a) => a,
    };
    let w = write_sized(core, 8, a, t);
    let ghost m2 = *core;
    assert(t == flag_byte(condition(c0, 11)));
    assert(data_written(m1, m2, 8, a, flag_byte(condition(c0, 11)), w));
    match w {
        Err(e) => Err(e),
        Ok(()) => Ok(Cycles(16)),
    }
}

/// What `smi_8_di` does: the core goes from `c0` to `c1` and `r` comes back.
pub open spec fn smi_8_di_effect(c0: ConfiguredCore, c1: ConfiguredCore, r: Result<Cycles>) -> bool {
    let t = flag_byte(condition(c0, 11));
    exists|m1: ConfiguredCore, ea: Result<u32>|
        #[trigger] effective_address::displacement_ay_rel(c0, m1, ea) && match ea {
            Err(e) => r == Err::<Cycles, Exception>(e) && c1 == m1,
            Ok(a) => exists|m2: ConfiguredCore, w: Result<()>|
                #[trigger] data_written(m1, m2, 8, a, t, w) && c1 == m2 && match w {
                    Err(e) => r == Err::<Cycles, Exception>(e),
                    Ok(_) => r == Ok::<Cycles, Exception>(Cycles(16)),
                },
        }
}

/// Scc on memory: the byte written is all ones when the condition holds,
/// zero otherwise.
pub fn smi_8_di(core: &mut ConfiguredCore) -> (r: Result<Cycles>)
    requires
        old(core).wf(),
    ensures
        final(core).wf(),
        smi_8_di_effect(*old(core), *final(core), r),
{
    let t: u32 = if core.cond_mi() {
        0xff
    } else {
        0
    };
    let ghost c0 = *core;
    let ea = effective_address::displacement_ay(core);
    let ghost m1 = *core;
    assert(effective_address::displacement_ay_rel(c0, m1, ea));
    let a = match ea {
        Err(e) => {
            return Err(e);
        },
        Ok(a) => a,
    };
    let w = write_sized(core, 8, a, t);
    let ghost m2 = *core;
    assert(t == flag_byte(condition(c0, 11)));
    assert(data_written(m1, m2, 8, a, flag_byte(condition(c0, 11)), w));
    match w {
        Err(e) => Err(e),
        Ok(()) => Ok(Cycles(16)),
    }
}

/// What `smi_8_ix` does: the core goes from `c0` to `c1` and `r` comes back.
pub open spec fn smi_8_ix_effect(c0: ConfiguredCore, c1: ConfiguredCore, r: Result<Cycles>) -> bool {
    let t = flag_byte(condition(c0, 11));
    exists|m1: ConfiguredCore, ea: Result<u32>|
        #[trigger] effective_address::index_ay_rel(c0, m1, ea) && match ea {
            Err(e) => r == Err::<Cycles, Exception>(e) && c1 == m1,
            Ok(a) => exists|m2: ConfiguredCore, w: Result<()>|
                #[trigger] data_written(m1, m2, 8, a, t, w) && c1 == m2 && match w {
                    Err(e) => r == Err::<Cycles, Exception>(e),
                    Ok(_) => r == Ok::<Cycles, Exception>(Cycles(18)),
                },
        }
}

/// Scc on memory: the byte written is all ones when the condition holds,
/// zero otherwise.
pub fn smi_8_ix(core: &mut ConfiguredCore) -> (r: Result<Cycles>)
    requires
        old(core).wf(),
    ensures
        final(core).wf(),
        smi_8_ix_effect(*old(core), *final(core), r),
{
    let t: u32 = if core.cond_mi() {
        0xff
    } else {
        0
    };
    let ghost c0 = *core;
    let ea = effective_address::index_ay(core);
    let ghost m1 = *core;
    assert(effective_address::index_ay_rel(c0, m1, ea));
    let a = match ea {
        Err(e) => {
            return Err(e);
        },
        Ok(a) => a,
    };
    let w = write_sized(core, 8, a, t);
    let ghost m2 = *core;
    assert(t == flag_byte(condition(c0, 11)));
    assert(data_written(m1, m2, 8, a, flag_byte(condition(c0, 11)), w));
    match w {
        Err(e) => Err(e),
        Ok(()) => Ok(Cycles(18)),
    }
}

/// What `smi_8_pd` does: the core goes from `c0` to `c1` and `r` comes back.
pub open spec fn smi_8_pd_effect(c0: ConfiguredCore, c1: ConfiguredCore, r: Result<Cycles>) -> bool {
    let t = flag_byte(condition(c0, 11));
    exists|m1: ConfiguredCore, ea: Result<u32>|
        #[trigger] effective_address::predecrement_ay_8_rel(c0, m1, ea) && match ea {
            Err(e) => r == Err::<Cycles, Exception>(e) && c1 == m1,
            Ok(a) => exists|m2: ConfiguredCore, w: Result<()>|
                #[trigger] data_written(m1, m2, 8, a, t, w) && c1 == m2 && match w {
                    Err(e) => r == Err::<Cycles, Exception>(e),
                    Ok(_) => r == Ok::<Cycles, Exception>(Cycles(14)),
                },
        }
}

/// Scc on memory: the byte written is all ones when the condition holds,
/// zero otherwise.
pub fn smi_8_pd(core: &mut ConfiguredCore) -> (r: Result<Cycles>)
    requires
        old(core).wf(),
    ensures
        final(core).wf(),
        smi_8_pd_effect(*old(core), *final(core), r),
{
    let t: u32 = if core.cond_mi() {
        0xff
    } else {
        0
    };
    let ghost c0 = *core;
    let ea = effective_address::predecrement_ay_8(core);
    let ghost m1 = *core;
    assert(effective_address::predecrement_ay_8_rel(c0, m1, ea));
    let a = match ea {
        Err(e) => {
            return Err(e);
        },
        Ok(a) => a,
    };
    let w = write_sized(core, 8, a, t);
    let ghost m2 = *core;
    assert(t == flag_byte(condition(c0, 11)));
    assert(data_written(m1, m2, 8, a, flag_byte(condition(c0, 11)), w));
    match w {
        Err(e) => Err(e),
        Ok(()) => Ok(Cycles(14)),
    }
}

/// What `smi_8_pi` does: the core goes from `c0` to `c1` and `r` comes back.
pub open spec fn smi_8_pi_effect(c0: ConfiguredCore, c1: ConfiguredCore, r: Result<Cycles>) -> bool {
    let t = flag_byte(condition(c0, 11));
    exists|m1: ConfiguredCore, ea: Result<u32>|
        #[trigger] effective_address::postincrement_ay_8_rel(c0, m1, ea) && match ea {
            Err(e) => r == Err::<Cycles, Exception>(e) && c1 == m1,
            Ok(a) => exists|m2: ConfiguredCore, w: Result<()>|
                #[trigger] data_written(m1, m2, 8, a, t, w) && c1 == m2 && match w {
                    Err(e) => r == Err::<Cycles, Exception>(e),
                    Ok(_) => r == Ok::<Cycles, Exception>(Cycles(12)),
                },
        }
}

/// Scc on memory: the byte written is all ones when the condition holds,
/// zero otherwise.
pub fn smi_8_pi(core: &mut ConfiguredCore) -> (r: Result<Cycles>)
    requires
        old(core).wf(),
    ensures
        final(core).wf(),
        smi_8_pi_effect(*old(core), *final(core), r),
{
    let t: u32 = if core.cond_mi() {
        0xff
    } else {
        0
    };
    let ghost c0 = *core;
    let ea = effective_address::postincrement_ay_8(core);
    let ghost m1 = *core;
    assert(effective_address::postincrement_ay_8_rel(c0, m1, ea));
    let a = match ea {
        Err(e) => {
            return Err(e);
        },
        Ok(a) => a,
    };
    let w = write_sized(core, 8, a, t);
    let ghost m2 = *core;
    assert(t == flag_byte(condition(c0, 11)));
    assert(data_written(m1, m2, 8, a, flag_byte(condition(c0, 11)), w));
    match w {
        Err(e) => Err(e),
        Ok(()) => Ok(Cycles(12)),
    }
}

/// What `sne_8_dn` does: the core goes from `c0` to `c1` and `r` comes back.
pub open spec fn sne_8_dn_effect(c0: ConfiguredCore, c1: ConfiguredCore, r: Result<Cycles>) -> bool {
    let reg = ir_dy(c0.ir);
    if condition(c0, 6) {
        r == Ok::<Cycles, Exception>(Cycles(6)) && reg_set(c0, c1, reg, c0.dar[reg] | 0xff)
    } else {
        r == Ok::<Cycles, Exception>(Cycles(4)) && reg_set(c0, c1, reg, c0.dar[reg] & 0xffff_ff00)
    }
}

/// Scc on Dy: the low byte set to all ones when the condition holds, to
/// zero otherwise.
pub fn sne_8_dn(core: &mut ConfiguredCore) -> (r: Result<Cycles>)
    requires
        old(core).wf(),
    ensures
        final(core).wf(),
        sne_8_dn_effect(*old(core), *final(core), r),
{
    let reg = reg_dy(core.ir);
    let v = core.dar[reg];
    if core.cond_ne() {
        set_reg(core, reg, v | 0xff);
        Ok(Cycles(6))
    } else {
        set_reg(core, reg, v & 0xffff_ff00);
        Ok(Cycles(4))
    }
}

/// What `sne_8_ai` does: the core goes from `c0` to `c1` and `r` comes back.
pub open spec fn sne_8_ai_effect(c0: ConfiguredCore, c1: ConfiguredCore, r: Result<Cycles>) -> bool {
    let t = flag_byte(condition(c0, 6));
    exists|m1: ConfiguredCore, ea: Result<u32>|
        #[trigger] effective_address::address_indirect_ay_rel(c0, m1, ea) && match ea {
            Err(e) => r == Err::<Cycles, Exception>(e) && c1 == m1,
            Ok(a) => exists|m2: ConfiguredCore, w: Result<()>|
                #[trigger] data_written(m1, m2, 8, a, t, w) && c1 == m2 && match w {
                    Err(e) => r == Err::<Cycles, Exception>(e),
                    Ok(_) => r == Ok::<Cycles, Exception>(Cycles(12)),
                },
        }
}

/// Scc on memory: the byte written is all ones when the condition holds,
/// zero otherwise.
pub fn sne_8_ai(core: &mut ConfiguredCore) -> (r: Result<Cycles>)
    requires
        old(core).wf(),
    ensures
        final(core).wf(),
        sne_8_ai_effect(*old(core), *final(core), r),
{
    let t: u32 = if core.cond_ne() {
        0xff
    } else {
        0
    };
    let ghost c0 = *core;
    let ea = effective_address::address_indirect_ay(core);
    let ghost m1 = *core;
    assert(effective_address::address_indirect_ay_rel(c0, m1, ea));
    let a = match ea {
        Err(e) => {
            return Err(e);
        },
        Ok(a) => a,
    };
    let w = write_sized(core, 8, a, t);
    let ghost m2 = *core;
    assert(t == flag_byte(condition(c0, 6)));
    assert(data_written(m1, m2, 8, a, flag_byte(condition(c0, 6)), w));
    match w {
        Err(e) => Err(e),
        Ok(()) => Ok(Cycles(12)),
    }
}

/// What `sne_8_al` does: the core goes from `c0` to `c1` and `r` comes back.
pub open spec fn sne_8_al_effect(c0: ConfiguredCore, c1: ConfiguredCore, r: Result<Cycles>) -> bool {
    let t = flag_byte(condition(c0, 6));
    exists|m1: ConfiguredCore, ea: Result<u32>|
        #[trigger] effective_address::absolute_long_rel(c0, m1, ea) && match ea {
            Err(e) => r == Err::<Cycles, Exception>(e) && c1 == m1,
            Ok(a) => exists|m2: ConfiguredCore, w: Result<()>|
                #[trigger] data_written(m1, m2, 8, a, t, w) && c1 == m2 && match w {
                    Err(e) => r == Err::<Cycles, Exception>(e),
                    Ok(_) => r == Ok::<Cycles, Exception>(Cycles(20)),
                },
        }
}

/// Scc on memory: the byte written is all ones when the condition holds,
/// zero otherwise.
pub fn sne_8_al(core: &mut ConfiguredCore) -> (r: Result<Cycles>)
    requires
        old(core).wf(),
    ensures
        final(core).wf(),
        sne_8_al_effect(*old(core), *final(core), r),
{
    let t: u32 = if core.cond_ne() {
        0xff
    } else {
        0
    };
    let ghost c0 = *core;
    let ea = effective_address::absolute_long(core);
    let ghost m1 = *core;
    assert(effective_address::absolute_long_rel(c0, m1, ea));
    let a = match ea {
        Err(e) => {
            return Err(e);
        },
        Ok(a) => a,
    };
    let w = write_sized(core, 8, a, t);
    let ghost m2 = *core;
    assert(t == flag_byte(condition(c0, 6)));
    assert(data_written(m1, m2, 8, a, flag_byte(condition(c0, 6)), w));
    match w {
        Err(e) => Err(e),
        Ok(()) => Ok(Cycles(20)),
    }
}

/// What `sne_8_aw` does: the core goes from `c0` to `c1` and `r` comes back.
pub open spec fn sne_8_aw_effect(c0: ConfiguredCore, c1: ConfiguredCore, r: Result<Cycles>) -> bool {
    let t = flag_byte(condition(c0, 6));
    exists|m1: ConfiguredCore, ea: Result<u32>|
        #[trigger] effective_address::absolute_word_rel(c0, m1, ea) && match ea {
            Err(e) => r == Err::<Cycles, Exception>(e) && c1 == m1,
            Ok(a) => exists|m2: ConfiguredCore, w: Result<()>|
                #[trigger] data_written(m1, m2, 8, a, t, w) && c1 == m2 && match w {
                    Err(e) => r == Err::<Cycles, Exception>(e),
                    Ok(_) => r == Ok::<Cycles, Exception>(Cycles(16)),
                },
        }
}

/// Scc on memory: the byte written is all ones when the condition holds,
/// zero otherwise.
pub fn sne_8_aw(core: &mut ConfiguredCore) -> (r: Result<Cycles>)
    requires
        old(core).wf(),
    ensures
        final(core).wf(),
        sne_8_aw_effect(*old(core), *final(core), r),
{
    let t: u32 = if core.cond_ne() {
        0xff
    } else {
        0
    };
    let ghost c0 = *core;
    let ea = effective_address::absolute_word(core);
    let ghost m1 = *core;
    assert(effective_address::absolute_word_rel(c0, m1, ea));
    let a = match ea {
        Err(e) => {
            return Err(e);
        },
        Ok(a) => a,
    };
    let w = write_sized(core, 8, a, t);
    let ghost m2 = *core;
    assert(t == flag_byte(condition(c0, 6)));
    assert(data_written(m1, m2, 8, a, flag_byte(condition(c0, 6)), w));
    match w {
        Err(e) => Err(e),
        Ok(()) => Ok(Cycles(16)),
    }
}

/// What `sne_8_di` does: the core goes from `c0` to `c1` and `r` comes back.
pub open spec fn sne_8_di_effect(c0: ConfiguredCore, c1: ConfiguredCore, r: Result<Cycles>) -> bool {
    let t = flag_byte(condition(c0, 6));
    exists|m1: ConfiguredCore, ea: Result<u32>|
        #[trigger] effective_address::displacement_ay_rel(c0, m1, ea) && match ea {
            Err(e) => r == Err::<Cycles, Exception>(e) && c1 == m1,
            Ok(a) => exists|m2: ConfiguredCore, w: Result<()>|
                #[trigger] data_written(m1, m2, 8, a, t, w) && c1 == m2 && match w {
                    Err(e) => r == Err::<Cycles, Exception>(e),
                    Ok(_) => r == Ok::<Cycles, Exception>(Cycles(16)),
                },
        }
}

/// Scc on memory: the byte written is all ones when the condition holds,
/// zero otherwise.
pub fn sne_8_di(core: &mut ConfiguredCore) -> (r: Result<Cycles>)
    requires
        old(core).wf(),
    ensures
        final(core).wf(),
        sne_8_di_effect(*old(core), *final(core), r),
{
    let t: u32 = if core.cond_ne() {
        0xff
    } else {
        0
    };
    let ghost c0 = *core;
    let ea = effective_address::displacement_ay(core);
    let ghost m1 = *core;
    assert(effective_address::displacement_ay_rel(c0, m1, ea));
    let a = match ea {
        Err(e) => {
            return Err(e);
        },
        Ok(a) => a,
    };
    let w = write_sized(core, 8, a, t);
    let ghost m2 = *core;
    assert(t == flag_byte(condition(c0, 6)));
    assert(data_written(m1, m2, 8, a, flag_byte(condition(c0, 6)), w));
    match w {
        Err(e) => Err(e),
        Ok(()) => Ok(Cycles(16)),
    }
}

/// What `sne_8_ix` does: the core goes from `c0` to `c1` and `r` comes back.
pub open spec fn sne_8_ix_effect(c0: ConfiguredCore, c1: ConfiguredCore, r: Result<Cycles>) -> bool {
    let t = flag_byte(condition(c0, 6));
    exists|m1: ConfiguredCore, ea: Result<u32>|
        #[trigger] effective_address::index_ay_rel(c0, m1, ea) && match ea {
            Err(e) => r == Err::<Cycles, Exception>(e) && c1 == m1,
            Ok(a) => exists|m2: ConfiguredCore, w: Result<()>|
                #[trigger] data_written(m1, m2, 8, a, t, w) && c1 == m2 && match w {
                    Err(e) => r == Err::<Cycles, Exception>(e),
                    Ok(_) => r == Ok::<Cycles, Exception>(Cycles(18)),
                },
        }
}

/// Scc on memory: the byte written is all ones when the condition holds,
/// zero otherwise.
pub fn sne_8_ix(core: &mut ConfiguredCore) -> (r: Result<Cycles>)
    requires
        old(core).wf(),
    ensures
        final(core).wf(),
        sne_8_ix_effect(*old(core), *final(core), r),
{
    let t: u32 = if core.cond_ne() {
        0xff
    } else {
        0
    };
    let ghost c0 = *core;
    let ea = effective_address::index_ay(core);
    let ghost m1 = *core;
    assert(effective_address::index_ay_rel(c0, m1, ea));
    let a = match ea {
        Err(e) => {
            return Err(e);
        },
        Ok(a) => a,
    };
    let w = write_sized(core, 8, a, t);
    let ghost m2 = *core;
    assert(t == flag_byte(condition(c0, 6)));
    assert(data_written(m1, m2, 8, a, flag_byte(condition(c0, 6)), w));
    match w {
        Err(e) => Err(e),
        Ok(()) => Ok(Cycles(18)),
    }
}

/// What `sne_8_pd` does: the core goes from `c0` to `c1` and `r` comes back.
pub open spec fn sne_8_pd_effect(c0: ConfiguredCore, c1: ConfiguredCore, r: Result<Cycles>) -> bool {
    let t = flag_byte(condition(c0, 6));
    exists|m1: ConfiguredCore, ea: Result<u32>|
        #[trigger] effective_address::predecrement_ay_8_rel(c0, m1, ea) && match ea {
            Err(e) => r == Err::<Cycles, Exception>(e) && c1 == m1,
            Ok(a) => exists|m2: ConfiguredCore, w: Result<()>|
                #[trigger] data_written(m1, m2, 8, a, t, w) && c1 == m2 && match w {
                    Err(e) => r == Err::<Cycles, Exception>(e),
                    Ok(_) => r == Ok::<Cycles, Exception>(Cycles(14)),
                },
        }
}

/// Scc on memory: the byte written is all ones when the condition holds,
/// zero otherwise.
pub fn sne_8_pd(core: &mut ConfiguredCore) -> (r: Result<Cycles>)
    requires
        old(core).wf(),
    ensures
        final(core).wf(),
        sne_8_pd_effect(*old(core), *final(core), r),
{
    let t: u32 = if core.cond_ne() {
        0xff
    } else {
        0
    };
    let ghost c0 = *core;
    let ea = effective_address::predecrement_ay_8(core);
    let ghost m1 = *core;
    assert(effective_address::predecrement_ay_8_rel(c0, m1, ea));
    let a = match ea {
        Err(e) => {
            return Err(e);
        },
        Ok(a) => a,
    };
    let w = write_sized(core, 8, a, t);
    let ghost m2 = *core;
    assert(t == flag_byte(condition(c0, 6)));
    assert(data_written(m1, m2, 8, a, flag_byte(condition(c0, 6)), w));
    match w {
        Err(e) => Err(e),
        Ok(()) => Ok(Cycles(14)),
    }
}

/// What `sne_8_pi` does: the core goes from `c0` to `c1` and `r` comes back.
pub open spec fn sne_8_pi_effect(c0: ConfiguredCore, c1: ConfiguredCore, r: Result<Cycles>) -> bool {
    let t = flag_byte(condition(c0, 6));
    exists|m1: ConfiguredCore, ea: Result<u32>|
        #[trigger] effective_address::postincrement_ay_8_rel(c0, m1, ea) && match ea {
            Err(e) => r == Err::<Cycles, Exception>(e) && c1 == m1,
            Ok(a) => exists|m2: ConfiguredCore, w: Result<()>|
                #[trigger] data_written(m1, m2, 8, a, t, w) && c1 == m2 && match w {
                    Err(e) => r == Err::<Cycles, Exception>(e),
                    Ok(_) => r == Ok::<Cycles, Exception>(Cycles(12)),
                },
        }
}

/// Scc on memory: the byte written is all ones when the condition holds,
/// zero otherwise.
pub fn sne_8_pi(core: &mut ConfiguredCore) -> (r: Result<Cycles>)
    requires
        old(core).wf(),
    ensures
        final(core).wf(),
        sne_8_pi_effect(*old(core), *final(core), r),
{
    let t: u32 = if core.cond_ne() {
        0xff
    } else {
        0
    };
    let ghost c0 = *core;
    let ea = effective_address::postincrement_ay_8(core);
    let ghost m1 = *core;
    assert(effective_address::postincrement_ay_8_rel(c0, m1, ea));
    let a = match ea {
        Err(e) => {
            return Err(e);
        },
        Ok(a) => a,
    };
    let w = write_sized(core, 8, a, t);
    let ghost m2 = *core;
    assert(t == flag_byte(condition(c0, 6)));
    assert(data_written(m1, m2, 8, a, flag_byte(condition(c0, 6)), w));
    match w {
        Err(e) => Err(e),
        Ok(()) => Ok(Cycles(12)),
    }
}

/// What `spl_8_dn` does: the core goes from `c0` to `c1` and `r` comes back.
pub open spec fn spl_8_dn_effect(c0: ConfiguredCore, c1: ConfiguredCore, r: Result<Cycles>) -> bool {
    let reg = ir_dy(c0.ir);
    if condition(c0, 10) {
        r == Ok::<Cycles, Exception>(Cycles(6)) && reg_set(c0, c1, reg, c0.dar[reg] | 0xff)
    } else {
        r == Ok::<Cycles, Exception>(Cycles(4)) && reg_set(c0, c1, reg, c0.dar[reg] & 0xffff_ff00)
    }
}

/// Scc on Dy: the low byte set to all ones when the condition holds, to
/// zero otherwise.
pub fn spl_8_dn(core: &mut ConfiguredCore) -> (r: Result<Cycles>)
    requires
        old(core).wf(),
    ensures
        final(core).wf(),
        spl_8_dn_effect(*old(core), *final(core), r),
{
    let reg = reg_dy(core.ir);
    let v = core.dar[reg];
    if core.cond_pl() {
        set_reg(core, reg, v | 0xff);
        Ok(Cycles(6))
    } else {
        set_reg(core, reg, v & 0xffff_ff00);
        Ok(Cycles(4))
    }
}

/// What `spl_8_ai` does: the core goes from `c0` to `c1` and `r` comes back.
pub open spec fn spl_8_ai_effect(c0: ConfiguredCore, c1: ConfiguredCore, r: Result<Cycles>) -> bool {
    let t = flag_byte(condition(c0, 10));
    exists|m1: ConfiguredCore, ea: Result<u32>|
        #[trigger] effective_address::address_indirect_ay_rel(c0, m1, ea) && match ea {
            Err(e) => r == Err::<Cycles, Exception>(e) && c1 == m1,
            Ok(a) => exists|m2: ConfiguredCore, w: Result<()>|
                #[trigger] data_written(m1, m2, 8, a, t, w) && c1 == m2 && match w {
                    Err(e) => r == Err::<Cycles, Exception>(e),
                    Ok(_) => r == Ok::<Cycles, Exception>(Cycles(12)),
                },
        }
}

/// Scc on memory: the byte written is all ones when the condition holds,
/// zero otherwise.
pub fn spl_8_ai(core: &mut ConfiguredCore) -> (r: Result<Cycles>)
    requires
        old(core).wf(),
    ensures
        final(core).wf(),
        spl_8_ai_effect(*old(core), *final(core), r),
{
    let t: u32 = if core.cond_pl() {
        0xff
    } else {
        0
    };
    let ghost c0 = *core;
    let ea = effective_address::address_indirect_ay(core);
    let ghost m1 = *core;
    assert(effective_address::address_indirect_ay_rel(c0, m1, ea));
    let a = match ea {
        Err(e) => {
            return Err(e);
        },
        Ok(a) => a,
    };
    let w = write_sized(core, 8, a, t);
    let ghost m2 = *core;
    assert(t == flag_byte(condition(c0, 10)));
    assert(data_written(m1, m2, 8, a, flag_byte(condition(c0, 10)), w));
    match w {
        Err(e) => Err(e),
        Ok(()) => Ok(Cycles(12)),
    }
}

/// What `spl_8_al` does: the core goes from `c0` to `c1` and `r` comes back.
pub open spec fn spl_8_al_effect(c0: ConfiguredCore, c1: ConfiguredCore, r: Result<Cycles>) -> bool {
    let t = flag_byte(condition(c0, 10));
    exists|m1: ConfiguredCore, ea: Result<u32>|
        #[trigger] effective_address::absolute_long_rel(c0, m1, ea) && match ea {
            Err(e) => r == Err::<Cycles, Exception>(e) && c1 == m1,
            Ok(a) => exists|m2: ConfiguredCore, w: Result<()>|
                #[trigger] data_written(m1, m2, 8, a, t, w) && c1 == m2 && match w {
                    Err(e) => r == Err::<Cycles, Exception>(e),
                    Ok(_) => r == Ok::<Cycles, Exception>(Cycles(20)),
                },
        }
}

/// Scc on memory: the byte written is all ones when the condition holds,
/// zero otherwise.
pub fn spl_8_al(core: &mut ConfiguredCore) -> (r: Result<Cycles>)
    requires
        old(core).wf(),
    ensures
        final(core).wf(),
        spl_8_al_effect(*old(core), *final(core), r),
{
    let t: u32 = if core.cond_pl() {
        0xff
    } else {
        0
    };
    let ghost c0 = *core;
    let ea = effective_address::absolute_long(core);
    let ghost m1 = *core;
    assert(effective_address::absolute_long_rel(c0, m1, ea));
    let a = match ea {
        Err(e) => {
            return Err(e);
        },
        Ok(a) => a,
    };
    let w = write_sized(core, 8, a, t);
    let ghost m2 = *core;
    assert(t == flag_byte(condition(c0, 10)));
    assert(data_written(m1, m2, 8, a, flag_byte(condition(c0, 10)), w));
    match w {
        Err(e) => Err(e),
        Ok(()) => Ok(Cycles(20)),
    }
}

/// What `spl_8_aw` does: the core goes from `c0` to `c1` and `r` comes back.
pub open spec fn spl_8_aw_effect(c0: ConfiguredCore, c1: ConfiguredCore, r: Result<Cycles>) -> bool {
    let t = flag_byte(condition(c0, 10));
    exists|m1: ConfiguredCore, ea: Result<u32>|
        #[trigger] effective_address::absolute_word_rel(c0, m1, ea) && match ea {
            Err(e) => r == Err::<Cycles, Exception>(e) && c1 == m1,
            Ok(a) => exists|m2: ConfiguredCore, w: Result<()>|
                #[trigger] data_written(m1, m2, 8, a, t, w) && c1 == m2 && match w {
                    Err(e) => r == Err::<Cycles, Exception>(e),
                    Ok(_) => r == Ok::<Cycles, Exception>(Cycles(16)),
                },
        }
}

/// Scc on memory: the byte written is all ones when the condition holds,
/// zero otherwise.
pub fn spl_8_aw(core: &mut ConfiguredCore) -> (r: Result<Cycles>)
    requires
        old(core).wf(),
    ensures
        final(core).wf(),
        spl_8_aw_effect(*old(core), *final(core), r),
{
    let t: u32 = if core.cond_pl() {
        0xff
    } else {
        0
    };
    let ghost c0 = *core;
    let ea = effective_address::absolute_word(core);
    let ghost m1 = *core;
    assert(effective_address::absolute_word_rel(c0, m1, ea));
    let a = match ea {
        Err(e) => {
            return Err(e);
        },
        Ok(a) => a,
    };
    let w = write_sized(core, 8, a, t);
    let ghost m2 = *core;
    assert(t == flag_byte(condition(c0, 10)));
    assert(data_written(m1, m2, 8, a, flag_byte(condition(c0, 10)), w));
    match w {
        Err(e) => Err(e),
        Ok(()) => Ok(Cycles(16)),
    }
}

/// What `spl_8_di` does: the core goes from `c0` to `c1` and `r` comes back.
pub open spec fn spl_8_di_effect(c0: ConfiguredCore, c1: ConfiguredCore, r: Result<Cycles>) -> bool {
    let t = flag_byte(condition(c0, 10));
    exists|m1: ConfiguredCore, ea: Result<u32>|
        #[trigger] effective_address::displacement_ay_rel(c0, m1, ea) && match ea {
            Err(e) => r == Err::<Cycles, Exception>(e) && c1 == m1,
            Ok(a) => exists|m2: ConfiguredCore, w: Result<()>|
                #[trigger] data_written(m1, m2, 8, a, t, w) && c1 == m2 && match w {
                    Err(e) => r == Err::<Cycles, Exception>(e),
                    Ok(_) => r == Ok::<Cycles, Exception>(Cycles(16)),
                },
        }
}

/// Scc on memory: the byte written is all ones when the condition holds,
/// zero otherwise.
pub fn spl_8_di(core: &mut ConfiguredCore) -> (r: Result<Cycles>)
    requires
        old(core).wf(),
    ensures
        final(core).wf(),
        spl_8_di_effect(*old(core), *final(core), r),
{
    let t: u32 = if core.cond_pl() {
        0xff
    } else {
        0
    };
    let ghost c0 = *core;
    let ea = effective_address::displacement_ay(core);
    let ghost m1 = *core;
    assert(effective_address::displacement_ay_rel(c0, m1, ea));
    let a = match ea {
        Err(e) => {
            return Err(e);
        },
        Ok(a) => a,
    };
    let w = write_sized(core, 8, a, t);
    let ghost m2 = *core;
    assert(t == flag_byte(condition(c0, 10)));
    assert(data_written(m1, m2, 8, a, flag_byte(condition(c0, 10)), w));
    match w {
        Err(e) => Err(e),
        Ok(()) => Ok(Cycles(16)),
    }
}

/// What `spl_8_ix` does: the core goes from `c0` to `c1` and `r` comes back.
pub open spec fn spl_8_ix_effect(c0: ConfiguredCore, c1: ConfiguredCore, r: Result<Cycles>) -> bool {
    let t = flag_byte(condition(c0, 10));
    exists|m1: ConfiguredCore, ea: Result<u32>|
        #[trigger] effective_address::index_ay_rel(c0, m1, ea) && match ea {
            Err(e) => r == Err::<Cycles, Exception>(e) && c1 == m1,
            Ok(a) => exists|m2: ConfiguredCore, w: Result<()>|
                #[trigger] data_written(m1, m2, 8, a, t, w) && c1 == m2 && match w {
                    Err(e) => r == Err::<Cycles, Exception>(e),
                    Ok(_) => r == Ok::<Cycles, Exception>(Cycles(18)),
                },
        }
}

/// Scc on memory: the byte written is all ones when the condition holds,
/// zero otherwise.
pub fn spl_8_ix(core: &mut ConfiguredCore) -> (r: Result<Cycles>)
    requires
        old(core).wf(),
    ensures
        final(core).wf(),
        spl_8_ix_effect(*old(core), *final(core), r),
{
    let t: u32 = if core.cond_pl() {
        0xff
    } else {
        0
    };
    let ghost c0 = *core;
    let ea = effective_address::index_ay(core);
    let ghost m1 = *core;
    assert(effective_address::index_ay_rel(c0, m1, ea));
    let a = match ea {
        Err(e) => {
            return Err(e);
        },
        Ok(a) => a,
    };
    let w = write_sized(core, 8, a, t);
    let ghost m2 = *core;
    assert(t == flag_byte(condition(c0, 10)));
    assert(data_written(m1, m2, 8, a, flag_byte(condition(c0, 10)), w));
    match w {
        Err(e) => Err(e),
        Ok(()) => Ok(Cycles(18)),
    }
}

/// What `spl_8_pd` does: the core goes from `c0` to `c1` and `r` comes back.
pub open spec fn spl_8_pd_effect(c0: ConfiguredCore, c1: ConfiguredCore, r: Result<Cycles>) -> bool {
    let t = flag_byte(condition(c0, 10));
    exists|m1: ConfiguredCore, ea: Result<u32>|
        #[trigger] effective_address::predecrement_ay_8_rel(c0, m1, ea) && match ea {
            Err(e) => r == Err::<Cycles, Exception>(e) && c1 == m1,
            Ok(a) => exists|m2: ConfiguredCore, w: Result<()>|
                #[trigger] data_written(m1, m2, 8, a, t, w) && c1 == m2 && match w {
                    Err(e) => r == Err::<Cycles, Exception>(e),
                    Ok(_) => r == Ok::<Cycles, Exception>(Cycles(14)),
                },
        }
}

/// Scc on memory: the byte written is all ones when the condition holds,
/// zero otherwise.
pub fn spl_8_pd(core: &mut ConfiguredCore) -> (r: Result<Cycles>)
    requires
        old(core).wf(),
    ensures
        final(core).wf(),
        spl_8_pd_effect(*old(core), *final(core), r),
{
    let t: u32 = if core.cond_pl() {
        0xff
    } else {
        0
    };
    let ghost c0 = *core;
    let ea = effective_address::predecrement_ay_8(core);
    let ghost m1 = *core;
    assert(effective_address::predecrement_ay_8_rel(c0, m1, ea));
    let a = match ea {
        Err(e) => {
            return Err(e);
        },
        Ok(a) => a,
    };
    let w = write_sized(core, 8, a, t);
    let ghost m2 = *core;
    assert(t == flag_byte(condition(c0, 10)));
    assert(data_written(m1, m2, 8, a, flag_byte(condition(c0, 10)), w));
    match w {
        Err(e) => Err(e),
        Ok(()) => Ok(Cycles(14)),
    }
}

/// What `spl_8_pi` does: the core goes from `c0` to `c1` and `r` comes back.
pub open spec fn spl_8_pi_effect(c0: ConfiguredCore, c1: ConfiguredCore, r: Result<Cycles>) -> bool {
    let t = flag_byte(condition(c0, 10));
    exists|m1: ConfiguredCore, ea: Result<u32>|
        #[trigger] effective_address::postincrement_ay_8_rel(c0, m1, ea) && match ea {
            Err(e) => r == Err::<Cycles, Exception>(e) && c1 == m1,
            Ok(a) => exists|m2: ConfiguredCore, w: Result<()>|
                #[trigger] data_written(m1, m2, 8, a, t, w) && c1 == m2 && match w {
                    Err(e) => r == Err::<Cycles, Exception>(e),
                    Ok(_) => r == Ok::<Cycles, Exception>(Cycles(12)),
                },
        }
}

/// Scc on memory: the byte written is all ones when the condition holds,
/// zero otherwise.
pub fn spl_8_pi(core: &mut ConfiguredCore) -> (r: Result<Cycles>)
    requires
        old(core).wf(),
    ensures
        final(core).wf(),
        spl_8_pi_effect(*old(core), *final(core), r),
{
    let t: u32 = if core.cond_pl() {
        0xff
    } else {
        0
    };
    let ghost c0 = *core;
    let ea = effective_address::postincrement_ay_8(core);
    let ghost m1 = *core;
    assert(effective_address::postincrement_ay_8_rel(c0, m1, ea));
    let a = match ea {
        Err(e) => {
            return Err(e);
        },
        Ok(a) => a,
    };
    let w = write_sized(core, 8, a, t);
    let ghost m2 = *core;
    assert(t == flag_byte(condition(c0, 10)));
    assert(data_written(m1, m2, 8, a, flag_byte(condition(c0, 10)), w));
    match w {
        Err(e) => Err(e),
        Ok(()) => Ok(Cycles(12)),
    }
}

/// What `st_8_dn` does: the core goes from `c0` to `c1` and `r` comes back.
pub open spec fn st_8_dn_effect(c0: ConfiguredCore, c1: ConfiguredCore, r: Result<Cycles>) -> bool {
    let reg = ir_dy(c0.ir);
    if condition(c0, 0) {
        r == Ok::<Cycles, Exception>(Cycles(6)) && reg_set(c0, c1, reg, c0.dar[reg] | 0xff)
    } else {
        r == Ok::<Cycles, Exception>(Cycles(4)) && reg_set(c0, c1, reg, c0.dar[reg] & 0xffff_ff00)
    }
}

/// Scc on Dy: the low byte set to all ones when the condition holds, to
/// zero otherwise.
pub fn st_8_dn(core: &mut ConfiguredCore) -> (r: Result<Cycles>)
    requires
        old(core).wf(),
    ensures
        final(core).wf(),
        st_8_dn_effect(*old(core), *final(core), r),
{
    let reg = reg_dy(core.ir);
    let v = core.dar[reg];
    if core.cond_t() {
        set_reg(core, reg, v | 0xff);
        Ok(Cycles(6))
    } else {
        set_reg(core, reg, v & 0xffff_ff00);
        Ok(Cycles(4))
    }
}

/// What `st_8_ai` does: the core goes from `c0` to `c1` and `r` comes back.
pub open spec fn st_8_ai_effect(c0: ConfiguredCore, c1: ConfiguredCore, r: Result<Cycles>) -> bool {
    let t = flag_byte(condition(c0, 0));
    exists|m1: ConfiguredCore, ea: Result<u32>|
        #[trigger] effective_address::address_indirect_ay_rel(c0, m1, ea) && match ea {
            Err(e) => r == Err::<Cycles, Exception>(e) && c1 == m1,
            Ok(a) => exists|m2: ConfiguredCore, w: Result<()>|
                #[trigger] data_written(m1, m2, 8, a, t, w) && c1 == m2 && match w {
                    Err(e) => r == Err::<Cycles, Exception>(e),
                    Ok(_) => r == Ok::<Cycles, Exception>(Cycles(12)),
                },
        }
}

/// Scc on memory: the byte written is all ones when the condition holds,
/// zero otherwise.
pub fn st_8_ai(core: &mut ConfiguredCore) -> (r: Result<Cycles>)
    requires
        old(core).wf(),
    ensures
        final(core).wf(),
        st_8_ai_effect(*old(core), *final(core), r),
{
    let t: u32 = if core.cond_t() {
        0xff
    } else {
        0
    };
    let ghost c0 = *core;
    let ea = effective_address::address_indirect_ay(core);
    let ghost m1 = *core;
    assert(effective_address::address_indirect_ay_rel(c0, m1, ea));
    let a = match ea {
        Err(e) => {
            return Err(e);
        },
        Ok(a) => a,
    };
    let w = write_sized(core, 8, a, t);
    let ghost m2 = *core;
    assert(t == flag_byte(condition(c0, 0)));
    assert(data_written(m1, m2, 8, a, flag_byte(condition(c0, 0)), w));
    match w {
        Err(e) => Err(e),
        Ok(()) => Ok(Cycles(12)),
    }
}

/// What `st_8_al` does: the core goes from `c0` to `c1` and `r` comes back.
pub open spec fn st_8_al_effect(c0: ConfiguredCore, c1: ConfiguredCore, r: Result<Cycles>) -> bool {
    let t = flag_byte(condition(c0, 0));
    exists|m1: ConfiguredCore, ea: Result<u32>|
        #[trigger] effective_address::absolute_long_rel(c0, m1, ea) && match ea {
            Err(e) => r == Err::<Cycles, Exception>(e) && c1 == m1,
            Ok(a) => exists|m2: ConfiguredCore, w: Result<()>|
                #[trigger] data_written(m1, m2, 8, a, t, w) && c1 == m2 && match w {
                    Err(e) => r == Err::<Cycles, Exception>(e),
                    Ok(_) => r == Ok::<Cycles, Exception>(Cycles(20)),
                },
        }
}

/// Scc on memory: the byte written is all ones when the condition holds,
/// zero otherwise.
pub fn st_8_al(core: &mut ConfiguredCore) -> (r: Result<Cycles>)
    requires
        old(core).wf(),
    ensures
        final(core).wf(),
        st_8_al_effect(*old(core), *final(core), r),
{
    let t: u32 = if core.cond_t() {
        0xff
    } else {
        0
    };
    let ghost c0 = *core;
    let ea = effective_address::absolute_long(core);
    let ghost m1 = *core;
    assert(effective_address::absolute_long_rel(c0, m1, ea));
    let a = match ea {
        Err(e) => {
            return Err(e);
        },
        Ok(a) => a,
    };
    let w = write_sized(core, 8, a, t);
    let ghost m2 = *core;
    assert(t == flag_byte(condition(c0, 0)));
    assert(data_written(m1, m2, 8, a, flag_byte(condition(c0, 0)), w));
    match w {
        Err(e) => Err(e),
        Ok(()) => Ok(Cycles(20)),
    }
}

/// What `st_8_aw` does: the core goes from `c0` to `c1` and `r` comes back.
pub open spec fn st_8_aw_effect(c0: ConfiguredCore, c1: ConfiguredCore, r: Result<Cycles>) -> bool {
    let t = flag_byte(condition(c0, 0));
    exists|m1: ConfiguredCore, ea: Result<u32>|
        #[trigger] effective_address::absolute_word_rel(c0, m1, ea) && match ea {
            Err(e) => r == Err::<Cycles, Exception>(e) && c1 == m1,
            Ok(a) => exists|m2: ConfiguredCore, w: Result<()>|
                #[trigger] data_written(m1, m2, 8, a, t, w) && c1 == m2 && match w {
                    Err(e) => r == Err::<Cycles, Exception>(e),
                    Ok(_) => r == Ok::<Cycles, Exception>(Cycles(16)),
                },
        }
}

/// Scc on memory: the byte written is all ones when the condition holds,
/// zero otherwise.
pub fn st_8_aw(core: &mut ConfiguredCore) -> (r: Result<Cycles>)
    requires
        old(core).wf(),
    ensures
        final(core).wf(),
        st_8_aw_effect(*old(core), *final(core), r),
{
    let t: u32 = if core.cond_t() {
        0xff
    } else {
        0
    };
    let ghost c0 = *core;
    let ea = effective_address::absolute_word(core);
    let ghost m1 = *core;
    assert(effective_address::absolute_word_rel(c0, m1, ea));
    let a = match ea {
        Err(e) => {
            return Err(e);
        },
        Ok(a) => a,
    };
    let w = write_sized(core, 8, a, t);
    let ghost m2 = *core;
    assert(t == flag_byte(condition(c0, 0)));
    assert(data_written(m1, m2, 8, a, flag_byte(condition(c0, 0)), w));
    match w {
        Err(e) => Err(e),
        Ok(()) => Ok(Cycles(16)),
    }
}

/// What `st_8_di` does: the core goes from `c0` to `c1` and `r` comes back.
pub open spec fn st_8_di_effect(c0: ConfiguredCore, c1: ConfiguredCore, r: Result<Cycles>) -> bool {
    let t = flag_byte(condition(c0, 0));
    exists|m1: ConfiguredCore, ea: Result<u32>|
        #[trigger] effective_address::displacement_ay_rel(c0, m1, ea) && match ea {
            Err(e) => r == Err::<Cycles, Exception>(e) && c1 == m1,
            Ok(a) => exists|m2: ConfiguredCore, w: Result<()>|
                #[trigger] data_written(m1, m2, 8, a, t, w) && c1 == m2 && match w {
                    Err(e) => r == Err::<Cycles, Exception>(e),
                    Ok(_) => r == Ok::<Cycles, Exception>(Cycles(16)),
                },
        }
}

/// Scc on memory: the byte written is all ones when the condition holds,
/// zero otherwise.
pub fn st_8_di(core: &mut ConfiguredCore) -> (r: Result<Cycles>)
    requires
        old(core).wf(),
    ensures
        final(core).wf(),
        st_8_di_effect(*old(core), *final(core), r),
{
    let t: u32 = if core.cond_t() {
        0xff
    } else {
        0
    };
    let ghost c0 = *core;
    let ea = effective_address::displacement_ay(core);
    let ghost m1 = *core;
    assert(effective_address::displacement_ay_rel(c0, m1, ea));
    let a = match ea {
        Err(e) => {
            return Err(e);
        },
        Ok(a) => a,
    };
    let w = write_sized(core, 8, a, t);
    let ghost m2 = *core;
    assert(t == flag_byte(condition(c0, 0)));
    assert(data_written(m1, m2, 8, a, flag_byte(condition(c0, 0)), w));
    match w {
        Err(e) => Err(e),
        Ok(()) => Ok(Cycles(16)),
    }
}

/// What `st_8_ix` does: the core goes from `c0` to `c1` and `r` comes back.
pub open spec fn st_8_ix_effect(c0: ConfiguredCore, c1: ConfiguredCore, r: Result<Cycles>) -> bool {
    let t = flag_byte(condition(c0, 0));
    exists|m1: ConfiguredCore, ea: Result<u32>|
        #[trigger] effective_address::index_ay_rel(c0, m1, ea) && match ea {
            Err(e) => r == Err::<Cycles, Exception>(e) && c1 == m1,
            Ok(a) => exists|m2: ConfiguredCore, w: Result<()>|
                #[trigger] data_written(m1, m2, 8, a, t, w) && c1 == m2 && match w {
                    Err(e) => r == Err::<Cycles, Exception>(e),
                    Ok(_) => r == Ok::<Cycles, Exception>(Cycles(18)),
                },
        }
}

/// Scc on memory: the byte written is all ones when the condition holds,
/// zero otherwise.
pub fn st_8_ix(core: &mut ConfiguredCore) -> (r: Result<Cycles>)
    requires
        old(core).wf(),
    ensures
        final(core).wf(),
        st_8_ix_effect(*old(core), *final(core), r),
{
    let t: u32 = if core.cond_t() {
        0xff
    } else {
        0
    };
    let ghost c0 = *core;
    let ea = effective_address::index_ay(core);
    let ghost m1 = *core;
    assert(effective_address::index_ay_rel(c0, m1, ea));
    let a = match ea {
        Err(e) => {
            return Err(e);
        },
        Ok(a) => a,
    };
    let w = write_sized(core, 8, a, t);
    let ghost m2 = *core;
    assert(t == flag_byte(condition(c0, 0)));
    assert(data_written(m1, m2, 8, a, flag_byte(condition(c0, 0)), w));
    match w {
        Err(e) => Err(e),
        Ok(()) => Ok(Cycles(18)),
    }
}

/// What `st_8_pd` does: the core goes from `c0` to `c1` and `r` comes back.
pub open spec fn st_8_pd_effect(c0: ConfiguredCore, c1: ConfiguredCore, r: Result<Cycles>) -> bool {
    let t = flag_byte(condition(c0, 0));
    exists|m1: ConfiguredCore, ea: Result<u32>|
        #[trigger] effective_address::predecrement_ay_8_rel(c0, m1, ea) && match ea {
            Err(e) => r == Err::<Cycles, Exception>(e) && c1 == m1,
            Ok(a) => exists|m2: ConfiguredCore, w: Result<()>|
                #[trigger] data_written(m1, m2, 8, a, t, w) && c1 == m2 && match w {
                    Err(e) => r == Err::<Cycles, Exception>(e),
                    Ok(_) => r == Ok::<Cycles, Exception>(Cycles(14)),
                },
        }
}

/// Scc on memory: the byte written is all ones when the condition holds,
/// zero otherwise.
pub fn st_8_pd(core: &mut ConfiguredCore) -> (r: Result<Cycles>)
    requires
        old(core).wf(),
    ensures
        final(core).wf(),
        st_8_pd_effect(*old(core), *final(core), r),
{
    let t: u32 = if core.cond_t() {
        0xff
    } else {
        0
    };
    let ghost c0 = *core;
    let ea = effective_address::predecrement_ay_8(core);
    let ghost m1 = *core;
    assert(effective_address::predecrement_ay_8_rel(c0, m1, ea));
    let a = match ea {
        Err(e) => {
            return Err(e);
        },
        Ok(a) => a,
    };
    let w = write_sized(core, 8, a, t);
    let ghost m2 = *core;
    assert(t == flag_byte(condition(c0, 0)));
    assert(data_written(m1, m2, 8, a, flag_byte(condition(c0, 0)), w));
    match w {
        Err(e) => Err(e),
        Ok(()) => Ok(Cycles(14)),
    }
}

/// What `st_8_pi` does: the core goes from `c0` to `c1` and `r` comes back.
pub open spec fn st_8_pi_effect(c0: ConfiguredCore, c1: ConfiguredCore, r: Result<Cycles>) -> bool {
    let t = flag_byte(condition(c0, 0));
    exists|m1: ConfiguredCore, ea: Result<u32>|
        #[trigger] effective_address::postincrement_ay_8_rel(c0, m1, ea) && match ea {
            Err(e) => r == Err::<Cycles, Exception>(e) && c1 == m1,
            Ok(a) => exists|m2: ConfiguredCore, w: Result<()>|
                #[trigger] data_written(m1, m2, 8, a, t, w) && c1 == m2 && match w {
                    Err(e) => r == Err::<Cycles, Exception>(e),
                    Ok(_) => r == Ok::<Cycles, Exception>(Cycles(12)),
                },
        }
}

/// Scc on memory: the byte written is all ones when the condition holds,
/// zero otherwise.
pub fn st_8_pi(core: &mut ConfiguredCore) -> (r: Result<Cycles>)
    requires
        old(core).wf(),
    ensures
        final(core).wf(),
        st_8_pi_effect(*old(core), *final(core), r),
{
    let t: u32 = if core.cond_t() {
        0xff
    } else {
        0
    };
    let ghost c0 = *core;
    let ea = effective_address::postincrement_ay_8(core);
    let ghost m1 = *core;
    assert(effective_address::postincrement_ay_8_rel(c0, m1, ea));
    let a = match ea {
        Err(e) => {
            return Err(e);
        },
        Ok(a) => a,
    };
    let w = write_sized(core, 8, a, t);
    let ghost m2 = *core;
    assert(t == flag_byte(condition(c0, 0)));
    assert(data_written(m1, m2, 8, a, flag_byte(condition(c0, 0)), w));
    match w {
        Err(e) => Err(e),
        Ok(()) => Ok(Cycles(12)),
    }
}

/// What `svc_8_dn` does: the core goes from `c0` to `c1` and `r` comes back.
pub open spec fn svc_8_dn_effect(c0: ConfiguredCore, c1: ConfiguredCore, r: Result<Cycles>) -> bool {
    let reg = ir_dy(c0.ir);
    if condition(c0, 8) {
        r == Ok::<Cycles, Exception>(Cycles(6)) && reg_set(c0, c1, reg, c0.dar[reg] | 0xff)
    } else {
        r == Ok::<Cycles, Exception>(Cycles(4)) && reg_set(c0, c1, reg, c0.dar[reg] & 0xffff_ff00)
    }
}

/// Scc on Dy: the low byte set to all ones when the condition holds, to
/// zero otherwise.
pub fn svc_8_dn(core: &mut ConfiguredCore) -> (r: Result<Cycles>)
    requires
        old(core).wf(),
    ensures
        final(core).wf(),
        svc_8_dn_effect(*old(core), *final(core), r),
{
    let reg = reg_dy(core.ir);
    let v = core.dar[reg];
    if core.cond_vc() {
        set_reg(core, reg, v | 0xff);
        Ok(Cycles(6))
    } else {
        set_reg(core, reg, v & 0xffff_ff00);
        Ok(Cycles(4))
    }
}

/// What `svc_8_ai` does: the core goes from `c0` to `c1` and `r` comes back.
pub open spec fn svc_8_ai_effect(c0: ConfiguredCore, c1: ConfiguredCore, r: Result<Cycles>) -> bool {
    let t = flag_byte(condition(c0, 8));
    exists|m1: ConfiguredCore, ea: Result<u32>|
        #[trigger] effective_address::address_indirect_ay_rel(c0, m1, ea) && match ea {
            Err(e) => r == Err::<Cycles, Exception>(e) && c1 == m1,
            Ok(a) => exists|m2: ConfiguredCore, w: Result<()>|
                #[trigger] data_written(m1, m2, 8, a, t, w) && c1 == m2 && match w {
                    Err(e) => r == Err::<Cycles, Exception>(e),
                    Ok(_) => r == Ok::<Cycles, Exception>(Cycles(12)),
                },
        }
}

/// Scc on memory: the byte written is all ones when the condition holds,
/// zero otherwise.
pub fn svc_8_ai(core: &mut ConfiguredCore) -> (r: Result<Cycles>)
    requires
        old(core).wf(),
    ensures
        final(core).wf(),
        svc_8_ai_effect(*old(core), *final(core), r),
{
    let t: u32 = if core.cond_vc() {
        0xff
    } else {
        0
    };
    let ghost c0 = *core;
    let ea = effective_address::address_indirect_ay(core);
    let ghost m1 = *core;
    assert(effective_address::address_indirect_ay_rel(c0, m1, ea));
    let a = match ea {
        Err(e) => {
            return Err(e);
        },
        Ok(a) => a,
    };
    let w = write_sized(core, 8, a, t);
    let ghost m2 = *core;
    assert(t == flag_byte(condition(c0, 8)));
    assert(data_written(m1, m2, 8, a, flag_byte(condition(c0, 8)), w));
    match w {
        Err(e) => Err(e),
        Ok(()) => Ok(Cycles(12)),
    }
}

/// What `svc_8_al` does: the core goes from `c0` to `c1` and `r` comes back.
pub open spec fn svc_8_al_effect(c0: ConfiguredCore, c1: ConfiguredCore, r: Result<Cycles>) -> bool {
    let t = flag_byte(condition(c0, 8));
    exists|m1: ConfiguredCore, ea: Result<u32>|
        #[trigger] effective_address::absolute_long_rel(c0, m1, ea) && match ea {
            Err(e) => r == Err::<Cycles, Exception>(e) && c1 == m1,
            Ok(a) => exists|m2: ConfiguredCore, w: Result<()>|
                #[trigger] data_written(m1, m2, 8, a, t, w) && c1 == m2 && match w {
                    Err(e) => r == Err::<Cycles, Exception>(e),
                    Ok(_) => r == Ok::<Cycles, Exception>(Cycles(20)),
                },
        }
}

/// Scc on memory: the byte written is all ones when the condition holds,
/// zero otherwise.
pub fn svc_8_al(core: &mut ConfiguredCore) -> (r: Result<Cycles>)
    requires
        old(core).wf(),
    ensures
        final(core).wf(),
        svc_8_al_effect(*old(core), *final(core), r),
{
    let t: u32 = if core.cond_vc() {
        0xff
    } else {
        0
    };
    let ghost c0 = *core;
    let ea = effective_address::absolute_long(core);
    let ghost m1 = *core;
    assert(effective_address::absolute_long_rel(c0, m1, ea));
    let a = match ea {
        Err(e) => {
            return Err(e);
        },
        Ok(a) => a,
    };
    let w = write_sized(core, 8, a, t);
    let ghost m2 = *core;
    assert(t == flag_byte(condition(c0, 8)));
    assert(data_written(m1, m2, 8, a, flag_byte(condition(c0, 8)), w));
    match w {
        Err(e) => Err(e),
        Ok(()) => Ok(Cycles(20)),
    }
}

/// What `svc_8_aw` does: the core goes from `c0` to `c1` and `r` comes back.
pub open spec fn svc_8_aw_effect(c0: ConfiguredCore, c1: ConfiguredCore, r: Result<Cycles>) -> bool {
    let t = flag_byte(condition(c0, 8));
    exists|m1: ConfiguredCore, ea: Result<u32>|
        #[trigger] effective_address::absolute_word_rel(c0, m1, ea) && match ea {
            Err(e) => r == Err::<Cycles, Exception>(e) && c1 == m1,
            Ok(a) => exists|m2: ConfiguredCore, w: Result<()>|
                #[trigger] data_written(m1, m2, 8, a, t, w) && c1 == m2 && match w {
                    Err(e) => r == Err::<Cycles, Exception>(e),
                    Ok(_) => r == Ok::<Cycles, Exception>(Cycles(16)),
                },
        }
}

/// Scc on memory: the byte written is all ones when the condition holds,
/// zero otherwise.
pub fn svc_8_aw(core: &mut ConfiguredCore) -> (r: Result<Cycles>)
    requires
        old(core).wf(),
    ensures
        final(core).wf(),
        svc_8_aw_effect(*old(core), *final(core), r),
{
    let t: u32 = if core.cond_vc() {
        0xff
    } else {
        0
    };
    let ghost c0 = *core;
    let ea = effective_address::absolute_word(core);
    let ghost m1 = *core;
    assert(effective_address::absolute_word_rel(c0, m1, ea));
    let a = match ea {
        Err(e) => {
            return Err(e);
        },
        Ok(a) => a,
    };
    let w = write_sized(core, 8, a, t);
    let ghost m2 = *core;
    assert(t == flag_byte(condition(c0, 8)));
    assert(data_written(m1, m2, 8, a, flag_byte(condition(c0, 8)), w));
    match w {
        Err(e) => Err(e),
        Ok(()) => Ok(Cycles(16)),
    }
}

/// What `svc_8_di` does: the core goes from `c0` to `c1` and `r` comes back.
pub open spec fn svc_8_di_effect(c0: ConfiguredCore, c1: ConfiguredCore, r: Result<Cycles>) -> bool {
    let t = flag_byte(condition(c0, 8));
    exists|m1: ConfiguredCore, ea: Result<u32>|
        #[trigger] effective_address::displacement_ay_rel(c0, m1, ea) && match ea {
            Err(e) => r == Err::<Cycles, Exception>(e) && c1 == m1,
            Ok(a) => exists|m2: ConfiguredCore, w: Result<()>|
                #[trigger] data_written(m1, m2, 8, a, t, w) && c1 == m2 && match w {
                    Err(e) => r == Err::<Cycles, Exception>(e),
                    Ok(_) => r == Ok::<Cycles, Exception>(Cycles(16)),
                },
        }
}

/// Scc on memory: the byte written is all ones when the condition holds,
/// zero otherwise.
pub fn svc_8_di(core: &mut ConfiguredCore) -> (r: Result<Cycles>)
    requires
        old(core).wf(),
    ensures
        final(core).wf(),
        svc_8_di_effect(*old(core), *final(core), r),
{
    let t: u32 = if core.cond_vc() {
        0xff
    } else {
        0
    };
    let ghost c0 = *core;
    let ea = effective_address::displacement_ay(core);
    let ghost m1 = *core;
    assert(effective_address::displacement_ay_rel(c0, m1, ea));
    let a = match ea {
        Err(e) => {
            return Err(e);
        },
        Ok(a) => a,
    };
    let w = write_sized(core, 8, a, t);
    let ghost m2 = *core;
    assert(t == flag_byte(condition(c0, 8)));
    assert(data_written(m1, m2, 8, a, flag_byte(condition(c0, 8)), w));
    match w {
        Err(e) => Err(e),
        Ok(()) => Ok(Cycles(16)),
    }
}

/// What `svc_8_ix` does: the core goes from `c0` to `c1` and `r` comes back.
pub open spec fn svc_8_ix_effect(c0: ConfiguredCore, c1: ConfiguredCore, r: Result<Cycles>) -> bool {
    let t = flag_byte(condition(c0, 8));
    exists|m1: ConfiguredCore, ea: Result<u32>|
        #[trigger] effective_address::index_ay_rel(c0, m1, ea) && match ea {
            Err(e) => r == Err::<Cycles, Exception>(e) && c1 == m1,
            Ok(a) => exists|m2: ConfiguredCore, w: Result<()>|
                #[trigger] data_written(m1, m2, 8, a, t, w) && c1 == m2 && match w {
                    Err(e) => r == Err::<Cycles, Exception>(e),
                    Ok(_) => r == Ok::<Cycles, Exception>(Cycles(18)),
                },
        }
}

/// Scc on memory: the byte written is all ones when the condition holds,
/// zero otherwise.
pub fn svc_8_ix(core: &mut ConfiguredCore) -> (r: Result<Cycles>)
    requires
        old(core).wf(),
    ensures
        final(core).wf(),
        svc_8_ix_effect(*old(core), *final(core), r),
{
    let t: u32 = if core.cond_vc() {
        0xff
    } else {
        0
    };
    let ghost c0 = *core;
    let ea = effective_address::index_ay(core);
    let ghost m1 = *core;
    assert(effective_address::index_ay_rel(c0, m1, ea));
    let a = match ea {
        Err(e) => {
            return Err(e);
        },
        Ok(a) => a,
    };
    let w = write_sized(core, 8, a, t);
    let ghost m2 = *core;
    assert(t == flag_byte(condition(c0, 8)));
    assert(data_written(m1, m2, 8, a, flag_byte(condition(c0, 8)), w));
    match w {
        Err(e) => Err(e),
        Ok(()) => Ok(Cycles(18)),
    }
}

/// What `svc_8_pd` does: the core goes from `c0` to `c1` and `r` comes back.
pub open spec fn svc_8_pd_effect(c0: ConfiguredCore, c1: ConfiguredCore, r: Result<Cycles>) -> bool {
    let t = flag_byte(condition(c0, 8));
    exists|m1: ConfiguredCore, ea: Result<u32>|
        #[trigger] effective_address::predecrement_ay_8_rel(c0, m1, ea) && match ea {
            Err(e) => r == Err::<Cycles, Exception>(e) && c1 == m1,
            Ok(a) => exists|m2: ConfiguredCore, w: Result<()>|
                #[trigger] data_written(m1, m2, 8, a, t, w) && c1 == m2 && match w {
                    Err(e) => r == Err::<Cycles, Exception>(e),
                    Ok(_) => r == Ok::<Cycles, Exception>(Cycles(14)),
                },
        }
}

/// Scc on memory: the byte written is all ones when the condition holds,
/// zero otherwise.
pub fn svc_8_pd(core: &mut ConfiguredCore) -> (r: Result<Cycles>)
    requires
        old(core).wf(),
    ensures
        final(core).wf(),
        svc_8_pd_effect(*old(core), *final(core), r),
{
    let t: u32 = if core.cond_vc() {
        0xff
    } else {
        0
    };
    let ghost c0 = *core;
    let ea = effective_address::predecrement_ay_8(core);
    let ghost m1 = *core;
    assert(effective_address::predecrement_ay_8_rel(c0, m1, ea));
    let a = match ea {
        Err(e) => {
            return Err(e);
        },
        Ok(a) => a,
    };
    let w = write_sized(core, 8, a, t);
    let ghost m2 = *core;
    assert(t == flag_byte(condition(c0, 8)));
    assert(data_written(m1, m2, 8, a, flag_byte(condition(c0, 8)), w));
    match w {
        Err(e) => Err(e),
        Ok(()) => Ok(Cycles(14)),
    }
}

/// What `svc_8_pi` does: the core goes from `c0` to `c1` and `r` comes back.
pub open spec fn svc_8_pi_effect(c0: ConfiguredCore, c1: ConfiguredCore, r: Result<Cycles>) -> bool {
    let t = flag_byte(condition(c0, 8));
    exists|m1: ConfiguredCore, ea: Result<u32>|
        #[trigger] effective_address::postincrement_ay_8_rel(c0, m1, ea) && match ea {
            Err(e) => r == Err::<Cycles, Exception>(e) && c1 == m1,
            Ok(a) => exists|m2: ConfiguredCore, w: Result<()>|
                #[trigger] data_written(m1, m2, 8, a, t, w) && c1 == m2 && match w {
                    Err(e) => r == Err::<Cycles, Exception>(e),
                    Ok(_) => r == Ok::<Cycles, Exception>(Cycles(12)),
                },
        }
}

/// Scc on memory: the byte written is all ones when the condition holds,
/// zero otherwise.
pub fn svc_8_pi(core: &mut ConfiguredCore) -> (r: Result<Cycles>)
    requires
        old(core).wf(),
    ensures
        final(core).wf(),
        svc_8_pi_effect(*old(core), *final(core), r),
{
    let t: u32 = if core.cond_vc() {
        0xff
    } else {
        0
    };
    let ghost c0 = *core;
    let ea = effective_address::postincrement_ay_8(core);
    let ghost m1 = *core;
    assert(effective_address::postincrement_ay_8_rel(c0, m1, ea));
    let a = match ea {
        Err(e) => {
            return Err(e);
        },
        Ok(a) => a,
    };
    let w = write_sized(core, 8, a, t);
    let ghost m2 = *core;
    assert(t == flag_byte(condition(c0, 8)));
    assert(data_written(m1, m2, 8, a, flag_byte(condition(c0, 8)), w));
    match w {
        Err(e) => Err(e),
        Ok(()) => Ok(Cycles(12)),
    }
}

/// What `svs_8_dn` does: the core goes from `c0` to `c1` and `r` comes back.
pub open spec fn svs_8_dn_effect(c0: ConfiguredCore, c1: ConfiguredCore, r: Result<Cycles>) -> bool {
    let reg = ir_dy(c0.ir);
    if condition(c0, 9) {
        r == Ok::<Cycles, Exception>(Cycles(6)) && reg_set(c0, c1, reg, c0.dar[reg] | 0xff)
    } else {
        r == Ok::<Cycles, Exception>(Cycles(4)) && reg_set(c0, c1, reg, c0.dar[reg] & 0xffff_ff00)
    }
}

/// Scc on Dy: the low byte set to all ones when the condition holds, to
/// zero otherwise.
pub fn svs_8_dn(core: &mut ConfiguredCore) -> (r: Result<Cycles>)
    requires
        old(core).wf(),
    ensures
        final(core).wf(),
        svs_8_dn_effect(*old(core), *final(core), r),
{
    let reg = reg_dy(core.ir);
    let v = core.dar[reg];
    if core.cond_vs() {
        set_reg(core, reg, v | 0xff);
        Ok(Cycles(6))
    } else {
        set_reg(core, reg, v & 0xffff_ff00);
        Ok(Cycles(4))
    }
}

/// What `svs_8_ai` does: the core goes from `c0` to `c1` and `r` comes back.
pub open spec fn svs_8_ai_effect(c0: ConfiguredCore, c1: ConfiguredCore, r: Result<Cycles>) -> bool {
    let t = flag_byte(condition(c0, 9));
    exists|m1: ConfiguredCore, ea: Result<u32>|
        #[trigger] effective_address::address_indirect_ay_rel(c0, m1, ea) && match ea {
            Err(e) => r == Err::<Cycles, Exception>(e) && c1 == m1,
            Ok(a) => exists|m2: ConfiguredCore, w: Result<()>|
                #[trigger] data_written(m1, m2, 8, a, t, w) && c1 == m2 && match w {
                    Err(e) => r == Err::<Cycles, Exception>(e),
                    Ok(_) => r == Ok::<Cycles, Exception>(Cycles(12)),
                },
        }
}

/// Scc on memory: the byte written is all ones when the condition holds,
/// zero otherwise.
pub fn svs_8_ai(core: &mut ConfiguredCore) -> (r: Result<Cycles>)
    requires
        old(core).wf(),
    ensures
        final(core).wf(),
        svs_8_ai_effect(*old(core), *final(core), r),
{
    let t: u32 = if core.cond_vs() {
        0xff
    } else {
        0
    };
    let ghost c0 = *core;
    let ea = effective_address::address_indirect_ay(core);
    let ghost m1 = *core;
    assert(effective_address::address_indirect_ay_rel(c0, m1, ea));
    let a = match ea {
        Err(e) => {
            return Err(e);
        },
        Ok(a) => a,
    };
    let w = write_sized(core, 8, a, t);
    let ghost m2 = *core;
    assert(t == flag_byte(condition(c0, 9)));
    assert(data_written(m1, m2, 8, a, flag_byte(condition(c0, 9)), w));
    match w {
        Err(e) => Err(e),
        Ok(()) => Ok(Cycles(12)),
    }
}

/// What `svs_8_al` does: the core goes from `c0` to `c1` and `r` comes back.
pub open spec fn svs_8_al_effect(c0: ConfiguredCore, c1: ConfiguredCore, r: Result<Cycles>) -> bool {
    let t = flag_byte(condition(c0, 9));
    exists|m1: ConfiguredCore, ea: Result<u32>|
        #[trigger] effective_address::absolute_long_rel(c0, m1, ea) && match ea {
            Err(e) => r == Err::<Cycles, Exception>(e) && c1 == m1,
            Ok(a) => exists|m2: ConfiguredCore, w: Result<()>|
                #[trigger] data_written(m1, m2, 8, a, t, w) && c1 == m2 && match w {
                    Err(e) => r == Err::<Cycles, Exception>(e),
                    Ok(_) => r == Ok::<Cycles, Exception>(Cycles(20)),
                },
        }
}

/// Scc on memory: the byte written is all ones when the condition holds,
/// zero otherwise.
pub fn svs_8_al(core: &mut ConfiguredCore) -> (r: Result<Cycles>)
    requires
        old(core).wf(),
    ensures
        final(core).wf(),
        svs_8_al_effect(*old(core), *final(core), r),
{
    let t: u32 = if core.cond_vs() {
        0xff
    } else {
        0
    };
    let ghost c0 = *core;
    let ea = effective_address::absolute_long(core);
    let ghost m1 = *core;
    assert(effective_address::absolute_long_rel(c0, m1, ea));
    let a = match ea {
        Err(e) => {
            return Err(e);
        },
        Ok(a) => a,
    };
    let w = write_sized(core, 8, a, t);
    let ghost m2 = *core;
    assert(t == flag_byte(condition(c0, 9)));
    assert(data_written(m1, m2, 8, a, flag_byte(condition(c0, 9)), w));
    match w {
        Err(e) => Err(e),
        Ok(()) => Ok(Cycles(20)),
    }
}

/// What `svs_8_aw` does: the core goes from `c0` to `c1` and `r` comes back.
pub open spec fn svs_8_aw_effect(c0: ConfiguredCore, c1: ConfiguredCore, r: Result<Cycles>) -> bool {
    let t = flag_byte(condition(c0, 9));
    exists|m1: ConfiguredCore, ea: Result<u32>|
        #[trigger] effective_address::absolute_word_rel(c0, m1, ea) && match ea {
            Err(e) => r == Err::<Cycles, Exception>(e) && c1 == m1,
            Ok(a) => exists|m2: ConfiguredCore, w: Result<()>|
                #[trigger] data_written(m1, m2, 8, a, t, w) && c1 == m2 && match w {
                    Err(e) => r == Err::<Cycles, Exception>(e),
                    Ok(_) => r == Ok::<Cycles, Exception>(Cycles(16)),
                },
        }
}

/// Scc on memory: the byte written is all ones when the condition holds,
/// zero otherwise.
pub fn svs_8_aw(core: &mut ConfiguredCore) -> (r: Result<Cycles>)
    requires
        old(core).wf(),
    ensures
        final(core).wf(),
        svs_8_aw_effect(*old(core), *final(core), r),
{
    let t: u32 = if core.cond_vs() {
        0xff
    } else {
        0
    };
    let ghost c0 = *core;
    let ea = effective_address::absolute_word(core);
    let ghost m1 = *core;
    assert(effective_address::absolute_word_rel(c0, m1, ea));
    let a = match ea {
        Err(e) => {
            return Err(e);
        },
        Ok(a) => a,
    };
    let w = write_sized(core, 8, a, t);
    let ghost m2 = *core;
    assert(t == flag_byte(condition(c0, 9)));
    assert(data_written(m1, m2, 8, a, flag_byte(condition(c0, 9)), w));
    match w {
        Err(e) => Err(e),
        Ok(()) => Ok(Cycles(16)),
    }
}

/// What `svs_8_di` does: the core goes from `c0` to `c1` and `r` comes back.
pub open spec fn svs_8_di_effect(c0: ConfiguredCore, c1: ConfiguredCore, r: Result<Cycles>) -> bool {
    let t = flag_byte(condition(c0, 9));
    exists|m1: ConfiguredCore, ea: Result<u32>|
        #[trigger] effective_address::displacement_ay_rel(c0, m1, ea) && match ea {
            Err(e) => r == Err::<Cycles, Exception>(e) && c1 == m1,
            Ok(a) => exists|m2: ConfiguredCore, w: Result<()>|
                #[trigger] data_written(m1, m2, 8, a, t, w) && c1 == m2 && match w {
                    Err(e) => r == Err::<Cycles, Exception>(e),
                    Ok(_) => r == Ok::<Cycles, Exception>(Cycles(16)),
                },
        }
}

/// Scc on memory: the byte written is all ones when the condition holds,
/// zero otherwise.
pub fn svs_8_di(core: &mut ConfiguredCore) -> (r: Result<Cycles>)
    requires
        old(core).wf(),
    ensures
        final(core).wf(),
        svs_8_di_effect(*old(core), *final(core), r),
{
    let t: u32 = if core.cond_vs() {
        0xff
    } else {
        0
    };
    let ghost c0 = *core;
    let ea = effective_address::displacement_ay(core);
    let ghost m1 = *core;
    assert(effective_address::displacement_ay_rel(c0, m1, ea));
    let a = match ea {
        Err(e) => {
            return Err(e);
        },
        Ok(a) => a,
    };
    let w = write_sized(core, 8, a, t);
    let ghost m2 = *core;
    assert(t == flag_byte(condition(c0, 9)));
    assert(data_written(m1, m2, 8, a, flag_byte(condition(c0, 9)), w));
    match w {
        Err(e) => Err(e),
        Ok(()) => Ok(Cycles(16)),
    }
}

/// What `svs_8_ix` does: the core goes from `c0` to `c1` and `r` comes back.
pub open spec fn svs_8_ix_effect(c0: ConfiguredCore, c1: ConfiguredCore, r: Result<Cycles>) -> bool {
    let t = flag_byte(condition(c0, 9));
    exists|m1: ConfiguredCore, ea: Result<u32>|
        #[trigger] effective_address::index_ay_rel(c0, m1, ea) && match ea {
            Err(e) => r == Err::<Cycles, Exception>(e) && c1 == m1,
            Ok(a) => exists|m2: ConfiguredCore, w: Result<()>|
                #[trigger] data_written(m1, m2, 8, a, t, w) && c1 == m2 && match w {
                    Err(e) => r == Err::<Cycles, Exception>(e),
                    Ok(_) => r == Ok::<Cycles, Exception>(Cycles(18)),
                },
        }
}

/// Scc on memory: the byte written is all ones when the condition holds,
/// zero otherwise.
pub fn svs_8_ix(core: &mut ConfiguredCore) -> (r: Result<Cycles>)
    requires
        old(core).wf(),
    ensures
        final(core).wf(),
        svs_8_ix_effect(*old(core), *final(core), r),
{
    let t: u32 = if core.cond_vs() {
        0xff
    } else {
        0
    };
    let ghost c0 = *core;
    let ea = effective_address::index_ay(core);
    let ghost m1 = *core;
    assert(effective_address::index_ay_rel(c0, m1, ea));
    let a = match ea {
        Err(e) => {
            return Err(e);
        },
        Ok(a) => a,
    };
    let w = write_sized(core, 8, a, t);
    let ghost m2 = *core;
    assert(t == flag_byte(condition(c0, 9)));
    assert(data_written(m1, m2, 8, a, flag_byte(condition(c0, 9)), w));
    match w {
        Err(e) => Err(e),
        Ok(()) => Ok(Cycles(18)),
    }
}

/// What `svs_8_pd` does: the core goes from `c0` to `c1` and `r` comes back.
pub open spec fn svs_8_pd_effect(c0: ConfiguredCore, c1: ConfiguredCore, r: Result<Cycles>) -> bool {
    let t = flag_byte(condition(c0, 9));
    exists|m1: ConfiguredCore, ea: Result<u32>|
        #[trigger] effective_address::predecrement_ay_8_rel(c0, m1, ea) && match ea {
            Err(e) => r == Err::<Cycles, Exception>(e) && c1 == m1,
            Ok(a) => exists|m2: ConfiguredCore, w: Result<()>|
                #[trigger] data_written(m1, m2, 8, a, t, w) && c1 == m2 && match w {
                    Err(e) => r == Err::<Cycles, Exception>(e),
                    Ok(_) => r == Ok::<Cycles, Exception>(Cycles(14)),
                },
        }
}

/// Scc on memory: the byte written is all ones when the condition holds,
/// zero otherwise.
pub fn svs_8_pd(core: &mut ConfiguredCore) -> (r: Result<Cycles>)
    requires
        old(core).wf(),
    ensures
        final(core).wf(),
        svs_8_pd_effect(*old(core), *final(core), r),
{
    let t: u32 = if core.cond_vs() {
        0xff
    } else {
        0
    };
    let ghost c0 = *core;
    let ea = effective_address::predecrement_ay_8(core);
    let ghost m1 = *core;
    assert(effective_address::predecrement_ay_8_rel(c0, m1, ea));
    let a = match ea {
        Err(e) => {
            return Err(e);
        },
        Ok(a) => a,
    };
    let w = write_sized(core, 8, a, t);
    let ghost m2 = *core;
    assert(t == flag_byte(condition(c0, 9)));
    assert(data_written(m1, m2, 8, a, flag_byte(condition(c0, 9)), w));
    match w {
        Err(e) => Err(e),
        Ok(()) => Ok(Cycles(14)),
    }
}

/// What `svs_8_pi` does: the core goes from `c0` to `c1` and `r` comes back.
pub open spec fn svs_8_pi_effect(c0: ConfiguredCore, c1: ConfiguredCore, r: Result<Cycles>) -> bool {
    let t = flag_byte(condition(c0, 9));
    exists|m1: ConfiguredCore, ea: Result<u32>|
        #[trigger] effective_address::postincrement_ay_8_rel(c0, m1, ea) && match ea {
            Err(e) => r == Err::<Cycles, Exception>(e) && c1 == m1,
            Ok(a) => exists|m2: ConfiguredCore, w: Result<()>|
                #[trigger] data_written(m1, m2, 8, a, t, w) && c1 == m2 && match w {
                    Err(e) => r == Err::<Cycles, Exception>(e),
                    Ok(_) => r == Ok::<Cycles, Exception>(Cycles(12)),
                },
        }
}

/// Scc on memory: the byte written is all ones when the condition holds,
/// zero otherwise.
pub fn svs_8_pi(core: &mut ConfiguredCore) -> (r: Result<Cycles>)
    requires
        old(core).wf(),
    ensures
        final(core).wf(),
        svs_8_pi_effect(*old(core), *final(core), r),
{
    let t: u32 = if core.cond_vs() {
        0xff
    } else {
        0
    };
    let ghost c0 = *core;
    let ea = effective_address::postincrement_ay_8(core);
    let ghost m1 = *core;
    assert(effective_address::postincrement_ay_8_rel(c0, m1, ea));
    let a = match ea {
        Err(e) => {
            return Err(e);
        },
        Ok(a) => a,
    };
    let w = write_sized(core, 8, a, t);
    let ghost m2 = *core;
    assert(t == flag_byte(condition(c0, 9)));
    assert(data_written(m1, m2, 8, a, flag_byte(condition(c0, 9)), w));
    match w {
        Err(e) => Err(e),
        Ok(()) => Ok(Cycles(12)),
    }
}

/// The instructions that branch, jump, compute an address or set a byte from a condition.
#[derive(Clone, Copy, Debug, PartialEq, Eq, Structural)]
pub enum FlowOp {
    Bhi16,
    Bls16,
    Bcc16,
    Bcs16,
    Bne16,
    Beq16,
    Bvc16,
    Bvs16,
    Bpl16,
    Bmi16,
    Bge16,
    Blt16,
    Bgt16,
    Ble16,
    Bhi8,
    Bls8,
    Bcc8,
    Bcs8,
    Bne8,
    Beq8,
    Bvc8,
    Bvs8,
    Bpl8,
    Bmi8,
    Bge8,
    Blt8,
    Bgt8,
    Ble8,
    Dbt16,
    Dbf16,
    Dbhi16,
    Dbls16,
    Dbcc16,
    Dbcs16,
    Dbne16,
    Dbeq16,
    Dbvc16,
    Dbvs16,
    Dbpl16,
    Dbmi16,
    Dbge16,
    Dblt16,
    Dbgt16,
    Dble16,
    Jmp32Ai,
    Jmp32Di,
    Jmp32Ix,
    Jmp32Aw,
    Jmp32Al,
    Jmp32Pcdi,
    Jmp32Pcix,
    Jsr32Ai,
    Jsr32Di,
    Jsr32Ix,
    Jsr32Aw,
    Jsr32Al,
    Jsr32Pcdi,
    Jsr32Pcix,
    Lea32Ai,
    Lea32Di,
    Lea32Ix,
    Lea32Aw,
    Lea32Al,
    Lea32Pcdi,
    Lea32Pcix,
    Pea32Ai,
    Pea32Di,
    Pea32Ix,
    Pea32Aw,
    Pea32Al,
    Pea32Pcdi,
    Pea32Pcix,
    Scc8Dn,
    Scc8Ai,
    Scc8Al,
    Scc8Aw,
    Scc8Di,
    Scc8Ix,
    Scc8Pd,
    Scc8Pi,
    Scs8Dn,
    Scs8Ai,
    Scs8Al,
    Scs8Aw,
    Scs8Di,
    Scs8Ix,
    Scs8Pd,
    Scs8Pi,
    Seq8Dn,
    Seq8Ai,
    Seq8Al,
    Seq8Aw,
    Seq8Di,
    Seq8Ix,
    Seq8Pd,
    Seq8Pi,
    Sf8Dn,
    Sf8Ai,
    Sf8Al,
    Sf8Aw,
    Sf8Di,
    Sf8Ix,
    Sf8Pd,
    Sf8Pi,
    Sge8Dn,
    Sge8Ai,
    Sge8Al,
    Sge8Aw,
    Sge8Di,
    Sge8Ix,
    Sge8Pd,
    Sge8Pi,
    Sgt8Dn,
    Sgt8Ai,
    Sgt8Al,
    Sgt8Aw,
    Sgt8Di,
    Sgt8Ix,
    Sgt8Pd,
    Sgt8Pi,
    Shi8Dn,
    Shi8Ai,
    Shi8Al,
    Shi8Aw,
    Shi8Di,
    Shi8Ix,
    Shi8Pd,
    Shi8Pi,
    Sle8Dn,
    Sle8Ai,
    Sle8Al,
    Sle8Aw,
    Sle8Di,
    Sle8Ix,
    Sle8Pd,
    Sle8Pi,
    Sls8Dn,
    Sls8Ai,
    Sls8Al,
    Sls8Aw,
    Sls8Di,
    Sls8Ix,
    Sls8Pd,
    Sls8Pi,
    Slt8Dn,
    Slt8Ai,
    Slt8Al,
    Slt8Aw,
    Slt8Di,
    Slt8Ix,
    Slt8Pd,
    Slt8Pi,
    Smi8Dn,
    Smi8Ai,
    Smi8Al,
    Smi8Aw,
    Smi8Di,
    Smi8Ix,
    Smi8Pd,
    Smi8Pi,
    Sne8Dn,
    Sne8Ai,
    Sne8Al,
    Sne8Aw,
    Sne8Di,
    Sne8Ix,
    Sne8Pd,
    Sne8Pi,
    Spl8Dn,
    Spl8Ai,
    Spl8Al,
    Spl8Aw,
    Spl8Di,
    Spl8Ix,
    Spl8Pd,
    Spl8Pi,
    St8Dn,
    St8Ai,
    St8Al,
    St8Aw,
    St8Di,
    St8Ix,
    St8Pd,
    St8Pi,
    Svc8Dn,
    Svc8Ai,
    Svc8Al,
    Svc8Aw,
    Svc8Di,
    Svc8Ix,
    Svc8Pd,
    Svc8Pi,
    Svs8Dn,
    Svs8Ai,
    Svs8Al,
    Svs8Aw,
    Svs8Di,
    Svs8Ix,
    Svs8Pd,
    Svs8Pi,
}

/// What the instruction `op` does: the core goes from `c0` to `c1` and `r`
/// comes back.
pub open spec fn effect(op: FlowOp, c0: ConfiguredCore, c1: ConfiguredCore, r: Result<Cycles>) -> bool {
    match op {
        FlowOp::Bhi16 => bhi_16_effect(c0, c1, r),
        FlowOp::Bls16 => bls_16_effect(c0, c1, r),
        FlowOp::Bcc16 => bcc_16_effect(c0, c1, r),
        FlowOp::Bcs16 => bcs_16_effect(c0, c1, r),
        FlowOp::Bne16 => bne_16_effect(c0, c1, r),
        FlowOp::Beq16 => beq_16_effect(c0, c1, r),
        FlowOp::Bvc16 => bvc_16_effect(c0, c1, r),
        FlowOp::Bvs16 => bvs_16_effect(c0, c1, r),
        FlowOp::Bpl16 => bpl_16_effect(c0, c1, r),
        FlowOp::Bmi16 => bmi_16_effect(c0, c1, r),
        FlowOp::Bge16 => bge_16_effect(c0, c1, r),
        FlowOp::Blt16 => blt_16_effect(c0, c1, r),
        FlowOp::Bgt16 => bgt_16_effect(c0, c1, r),
        FlowOp::Ble16 => ble_16_effect(c0, c1, r),
        FlowOp::Bhi8 => bhi_8_effect(c0, c1, r),
        FlowOp::Bls8 => bls_8_effect(c0, c1, r),
        FlowOp::Bcc8 => bcc_8_effect(c0, c1, r),
        FlowOp::Bcs8 => bcs_8_effect(c0, c1, r),
        FlowOp::Bne8 => bne_8_effect(c0, c1, r),
        FlowOp::Beq8 => beq_8_effect(c0, c1, r),
        FlowOp::Bvc8 => bvc_8_effect(c0, c1, r),
        FlowOp::Bvs8 => bvs_8_effect(c0, c1, r),
        FlowOp::Bpl8 => bpl_8_effect(c0, c1, r),
        FlowOp::Bmi8 => bmi_8_effect(c0, c1, r),
        FlowOp::Bge8 => bge_8_effect(c0, c1, r),
        FlowOp::Blt8 => blt_8_effect(c0, c1, r),
        FlowOp::Bgt8 => bgt_8_effect(c0, c1, r),
        FlowOp::Ble8 => ble_8_effect(c0, c1, r),
        FlowOp::Dbt16 => dbt_16_effect(c0, c1, r),
        FlowOp::Dbf16 => dbf_16_effect(c0, c1, r),
        FlowOp::Dbhi16 => dbhi_16_effect(c0, c1, r),
        FlowOp::Dbls16 => dbls_16_effect(c0, c1, r),
        FlowOp::Dbcc16 => dbcc_16_effect(c0, c1, r),
        FlowOp::Dbcs16 => dbcs_16_effect(c0, c1, r),
        FlowOp::Dbne16 => dbne_16_effect(c0, c1, r),
        FlowOp::Dbeq16 => dbeq_16_effect(c0, c1, r),
        FlowOp::Dbvc16 => dbvc_16_effect(c0, c1, r),
        FlowOp::Dbvs16 => dbvs_16_effect(c0, c1, r),
        FlowOp::Dbpl16 => dbpl_16_effect(c0, c1, r),
        FlowOp::Dbmi16 => dbmi_16_effect(c0, c1, r),
        FlowOp::Dbge16 => dbge_16_effect(c0, c1, r),
        FlowOp::Dblt16 => dblt_16_effect(c0, c1, r),
        FlowOp::Dbgt16 => dbgt_16_effect(c0, c1, r),
        FlowOp::Dble16 => dble_16_effect(c0, c1, r),
        FlowOp::Jmp32Ai => jmp_32_ai_effect(c0, c1, r),
        FlowOp::Jmp32Di => jmp_32_di_effect(c0, c1, r),
        FlowOp::Jmp32Ix => jmp_32_ix_effect(c0, c1, r),
        FlowOp::Jmp32Aw => jmp_32_aw_effect(c0, c1, r),
        FlowOp::Jmp32Al => jmp_32_al_effect(c0, c1, r),
        FlowOp::Jmp32Pcdi => jmp_32_pcdi_effect(c0, c1, r),
        FlowOp::Jmp32Pcix => jmp_32_pcix_effect(c0, c1, r),
        FlowOp::Jsr32Ai => jsr_32_ai_effect(c0, c1, r),
        FlowOp::Jsr32Di => jsr_32_di_effect(c0, c1, r),
        FlowOp::Jsr32Ix => jsr_32_ix_effect(c0, c1, r),
        FlowOp::Jsr32Aw => jsr_32_aw_effect(c0, c1, r),
        FlowOp::Jsr32Al => jsr_32_al_effect(c0, c1, r),
        FlowOp::Jsr32Pcdi => jsr_32_pcdi_effect(c0, c1, r),
        FlowOp::Jsr32Pcix => jsr_32_pcix_effect(c0, c1, r),
        FlowOp::Lea32Ai => lea_32_ai_effect(c0, c1, r),
        FlowOp::Lea32Di => lea_32_di_effect(c0, c1, r),
        FlowOp::Lea32Ix => lea_32_ix_effect(c0, c1, r),
        FlowOp::Lea32Aw => lea_32_aw_effect(c0, c1, r),
        FlowOp::Lea32Al => lea_32_al_effect(c0, c1, r),
        FlowOp::Lea32Pcdi => lea_32_pcdi_effect(c0, c1, r),
        FlowOp::Lea32Pcix => lea_32_pcix_effect(c0, c1, r),
        FlowOp::Pea32Ai => pea_32_ai_effect(c0, c1, r),
        FlowOp::Pea32Di => pea_32_di_effect(c0, c1, r),
        FlowOp::Pea32Ix => pea_32_ix_effect(c0, c1, r),
        FlowOp::Pea32Aw => pea_32_aw_effect(c0, c1, r),
        FlowOp::Pea32Al => pea_32_al_effect(c0, c1, r),
        FlowOp::Pea32Pcdi => pea_32_pcdi_effect(c0, c1, r),
        FlowOp::Pea32Pcix => pea_32_pcix_effect(c0, c1, r),
        FlowOp::Scc8Dn => scc_8_dn_effect(c0, c1, r),
        FlowOp::Scc8Ai => scc_8_ai_effect(c0, c1, r),
        FlowOp::Scc8Al => scc_8_al_effect(c0, c1, r),
        FlowOp::Scc8Aw => scc_8_aw_effect(c0, c1, r),
        FlowOp::Scc8Di => scc_8_di_effect(c0, c1, r),
        FlowOp::Scc8Ix => scc_8_ix_effect(c0, c1, r),
        FlowOp::Scc8Pd => scc_8_pd_effect(c0, c1, r),
        FlowOp::Scc8Pi => scc_8_pi_effect(c0, c1, r),
        FlowOp::Scs8Dn => scs_8_dn_effect(c0, c1, r),
        FlowOp::Scs8Ai => scs_8_ai_effect(c0, c1, r),
        FlowOp::Scs8Al => scs_8_al_effect(c0, c1, r),
        FlowOp::Scs8Aw => scs_8_aw_effect(c0, c1, r),
        FlowOp::Scs8Di => scs_8_di_effect(c0, c1, r),
        FlowOp::Scs8Ix => scs_8_ix_effect(c0, c1, r),
        FlowOp::Scs8Pd => scs_8_pd_effect(c0, c1, r),
        FlowOp::Scs8Pi => scs_8_pi_effect(c0, c1, r),
        FlowOp::Seq8Dn => seq_8_dn_effect(c0, c1, r),
        FlowOp::Seq8Ai => seq_8_ai_effect(c0, c1, r),
        FlowOp::Seq8Al => seq_8_al_effect(c0, c1, r),
        FlowOp::Seq8Aw => seq_8_aw_effect(c0, c1, r),
        FlowOp::Seq8Di => seq_8_di_effect(c0, c1, r),
        FlowOp::Seq8Ix => seq_8_ix_effect(c0, c1, r),
        FlowOp::Seq8Pd => seq_8_pd_effect(c0, c1, r),
        FlowOp::Seq8Pi => seq_8_pi_effect(c0, c1, r),
        FlowOp::Sf8Dn => sf_8_dn_effect(c0, c1, r),
        FlowOp::Sf8Ai => sf_8_ai_effect(c0, c1, r),
        FlowOp::Sf8Al => sf_8_al_effect(c0, c1, r),
        FlowOp::Sf8Aw => sf_8_aw_effect(c0, c1, r),
        FlowOp::Sf8Di => sf_8_di_effect(c0, c1, r),
        FlowOp::Sf8Ix => sf_8_ix_effect(c0, c1, r),
        FlowOp::Sf8Pd => sf_8_pd_effect(c0, c1, r),
        FlowOp::Sf8Pi => sf_8_pi_effect(c0, c1, r),
        FlowOp::Sge8Dn => sge_8_dn_effect(c0, c1, r),
        FlowOp::Sge8Ai => sge_8_ai_effect(c0, c1, r),
        FlowOp::Sge8Al => sge_8_al_effect(c0, c1, r),
        FlowOp::Sge8Aw => sge_8_aw_effect(c0, c1, r),
        FlowOp::Sge8Di => sge_8_di_effect(c0, c1, r),
        FlowOp::Sge8Ix => sge_8_ix_effect(c0, c1, r),
        FlowOp::Sge8Pd => sge_8_pd_effect(c0, c1, r),
        FlowOp::Sge8Pi => sge_8_pi_effect(c0, c1, r),
        FlowOp::Sgt8Dn => sgt_8_dn_effect(c0, c1, r),
        FlowOp::Sgt8Ai => sgt_8_ai_effect(c0, c1, r),
        FlowOp::Sgt8Al => sgt_8_al_effect(c0, c1, r),
        FlowOp::Sgt8Aw => sgt_8_aw_effect(c0, c1, r),
        FlowOp::Sgt8Di => sgt_8_di_effect(c0, c1, r),
        FlowOp::Sgt8Ix => sgt_8_ix_effect(c0, c1, r),
        FlowOp::Sgt8Pd => sgt_8_pd_effect(c0, c1, r),
        FlowOp::Sgt8Pi => sgt_8_pi_effect(c0, c1, r),
        FlowOp::Shi8Dn => shi_8_dn_effect(c0, c1, r),
        FlowOp::Shi8Ai => shi_8_ai_effect(c0, c1, r),
        FlowOp::Shi8Al => shi_8_al_effect(c0, c1, r),
        FlowOp::Shi8Aw => shi_8_aw_effect(c0, c1, r),
        FlowOp::Shi8Di => shi_8_di_effect(c0, c1, r),
        FlowOp::Shi8Ix => shi_8_ix_effect(c0, c1, r),
        FlowOp::Shi8Pd => shi_8_pd_effect(c0, c1, r),
        FlowOp::Shi8Pi => shi_8_pi_effect(c0, c1, r),
        FlowOp::Sle8Dn => sle_8_dn_effect(c0, c1, r),
        FlowOp::Sle8Ai => sle_8_ai_effect(c0, c1, r),
        FlowOp::Sle8Al => sle_8_al_effect(c0, c1, r),
        FlowOp::Sle8Aw => sle_8_aw_effect(c0, c1, r),
        FlowOp::Sle8Di => sle_8_di_effect(c0, c1, r),
        FlowOp::Sle8Ix => sle_8_ix_effect(c0, c1, r),
        FlowOp::Sle8Pd => sle_8_pd_effect(c0, c1, r),
        FlowOp::Sle8Pi => sle_8_pi_effect(c0, c1, r),
        FlowOp::Sls8Dn => sls_8_dn_effect(c0, c1, r),
        FlowOp::Sls8Ai => sls_8_ai_effect(c0, c1, r),
        FlowOp::Sls8Al => sls_8_al_effect(c0, c1, r),
        FlowOp::Sls8Aw => sls_8_aw_effect(c0, c1, r),
        FlowOp::Sls8Di => sls_8_di_effect(c0, c1, r),
        FlowOp::Sls8Ix => sls_8_ix_effect(c0, c1, r),
        FlowOp::Sls8Pd => sls_8_pd_effect(c0, c1, r),
        FlowOp::Sls8Pi => sls_8_pi_effect(c0, c1, r),
        FlowOp::Slt8Dn => slt_8_dn_effect(c0, c1, r),
        FlowOp::Slt8Ai => slt_8_ai_effect(c0, c1, r),
        FlowOp::Slt8Al => slt_8_al_effect(c0, c1, r),
        FlowOp::Slt8Aw => slt_8_aw_effect(c0, c1, r),
        FlowOp::Slt8Di => slt_8_di_effect(c0, c1, r),
        FlowOp::Slt8Ix => slt_8_ix_effect(c0, c1, r),
        FlowOp::Slt8Pd => slt_8_pd_effect(c0, c1, r),
        FlowOp::Slt8Pi => slt_8_pi_effect(c0, c1, r),
        FlowOp::Smi8Dn => smi_8_dn_effect(c0, c1, r),
        FlowOp::Smi8Ai => smi_8_ai_effect(c0, c1, r),
        FlowOp::Smi8Al => smi_8_al_effect(c0, c1, r),
        FlowOp::Smi8Aw => smi_8_aw_effect(c0, c1, r),
        FlowOp::Smi8Di => smi_8_di_effect(c0, c1, r),
        FlowOp::Smi8Ix => smi_8_ix_effect(c0, c1, r),
        FlowOp::Smi8Pd => smi_8_pd_effect(c0, c1, r),
        FlowOp::Smi8Pi => smi_8_pi_effect(c0, c1, r),
        FlowOp::Sne8Dn => sne_8_dn_effect(c0, c1, r),
        FlowOp::Sne8Ai => sne_8_ai_effect(c0, c1, r),
        FlowOp::Sne8Al => sne_8_al_effect(c0, c1, r),
        FlowOp::Sne8Aw => sne_8_aw_effect(c0, c1, r),
        FlowOp::Sne8Di => sne_8_di_effect(c0, c1, r),
        FlowOp::Sne8Ix => sne_8_ix_effect(c0, c1, r),
        FlowOp::Sne8Pd => sne_8_pd_effect(c0, c1, r),
        FlowOp::Sne8Pi => sne_8_pi_effect(c0, c1, r),
        FlowOp::Spl8Dn => spl_8_dn_effect(c0, c1, r),
        FlowOp::Spl8Ai => spl_8_ai_effect(c0, c1, r),
        FlowOp::Spl8Al => spl_8_al_effect(c0, c1, r),
        FlowOp::Spl8Aw => spl_8_aw_effect(c0, c1, r),
        FlowOp::Spl8Di => spl_8_di_effect(c0, c1, r),
        FlowOp::Spl8Ix => spl_8_ix_effect(c0, c1, r),
        FlowOp::Spl8Pd => spl_8_pd_effect(c0, c1, r),
        FlowOp::Spl8Pi => spl_8_pi_effect(c0, c1, r),
        FlowOp::St8Dn => st_8_dn_effect(c0, c1, r),
        FlowOp::St8Ai => st_8_ai_effect(c0, c1, r),
        FlowOp::St8Al => st_8_al_effect(c0, c1, r),
        FlowOp::St8Aw => st_8_aw_effect(c0, c1, r),
        FlowOp::St8Di => st_8_di_effect(c0, c1, r),
        FlowOp::St8Ix => st_8_ix_effect(c0, c1, r),
        FlowOp::St8Pd => st_8_pd_effect(c0, c1, r),
        FlowOp::St8Pi => st_8_pi_effect(c0, c1, r),
        FlowOp::Svc8Dn => svc_8_dn_effect(c0, c1, r),
        FlowOp::Svc8Ai => svc_8_ai_effect(c0, c1, r),
        FlowOp::Svc8Al => svc_8_al_effect(c0, c1, r),
        FlowOp::Svc8Aw => svc_8_aw_effect(c0, c1, r),
        FlowOp::Svc8Di => svc_8_di_effect(c0, c1, r),
        FlowOp::Svc8Ix => svc_8_ix_effect(c0, c1, r),
        FlowOp::Svc8Pd => svc_8_pd_effect(c0, c1, r),
        FlowOp::Svc8Pi => svc_8_pi_effect(c0, c1, r),
        FlowOp::Svs8Dn => svs_8_dn_effect(c0, c1, r),
        FlowOp::Svs8Ai => svs_8_ai_effect(c0, c1, r),
        FlowOp::Svs8Al => svs_8_al_effect(c0, c1, r),
        FlowOp::Svs8Aw => svs_8_aw_effect(c0, c1, r),
        FlowOp::Svs8Di => svs_8_di_effect(c0, c1, r),
        FlowOp::Svs8Ix => svs_8_ix_effect(c0, c1, r),
        FlowOp::Svs8Pd => svs_8_pd_effect(c0, c1, r),
        FlowOp::Svs8Pi => svs_8_pi_effect(c0, c1, r),
    }
}

/// Runs the instruction `op` on the core.
pub fn run(core: &mut ConfiguredCore, op: FlowOp) -> (r: Result<Cycles>)
    requires
        old(core).wf(),
    ensures
        final(core).wf(),
        effect(op, *old(core), *final(core), r),
{
    match op {
        FlowOp::Bhi16 => bhi_16(core),
        FlowOp::Bls16 => bls_16(core),
        FlowOp::Bcc16 => bcc_16(core),
        FlowOp::Bcs16 => bcs_16(core),
        FlowOp::Bne16 => bne_16(core),
        FlowOp::Beq16 => beq_16(core),
        FlowOp::Bvc16 => bvc_16(core),
        FlowOp::Bvs16 => bvs_16(core),
        FlowOp::Bpl16 => bpl_16(core),
        FlowOp::Bmi16 => bmi_16(core),
        FlowOp::Bge16 => bge_16(core),
        FlowOp::Blt16 => blt_16(core),
        FlowOp::Bgt16 => bgt_16(core),
        FlowOp::Ble16 => ble_16(core),
        FlowOp::Bhi8 => bhi_8(core),
        FlowOp::Bls8 => bls_8(core),
        FlowOp::Bcc8 => bcc_8(core),
        FlowOp::Bcs8 => bcs_8(core),
        FlowOp::Bne8 => bne_8(core),
        FlowOp::Beq8 => beq_8(core),
        FlowOp::Bvc8 => bvc_8(core),
        FlowOp::Bvs8 => bvs_8(core),
        FlowOp::Bpl8 => bpl_8(core),
        FlowOp::Bmi8 => bmi_8(core),
        FlowOp::Bge8 => bge_8(core),
        FlowOp::Blt8 => blt_8(core),
        FlowOp::Bgt8 => bgt_8(core),
        FlowOp::Ble8 => ble_8(core),
        FlowOp::Dbt16 => dbt_16(core),
        FlowOp::Dbf16 => dbf_16(core),
        FlowOp::Dbhi16 => dbhi_16(core),
        FlowOp::Dbls16 => dbls_16(core),
        FlowOp::Dbcc16 => dbcc_16(core),
        FlowOp::Dbcs16 => dbcs_16(core),
        FlowOp::Dbne16 => dbne_16(core),
        FlowOp::Dbeq16 => dbeq_16(core),
        FlowOp::Dbvc16 => dbvc_16(core),
        FlowOp::Dbvs16 => dbvs_16(core),
        FlowOp::Dbpl16 => dbpl_16(core),
        FlowOp::Dbmi16 => dbmi_16(core),
        FlowOp::Dbge16 => dbge_16(core),
        FlowOp::Dblt16 => dblt_16(core),
        FlowOp::Dbgt16 => dbgt_16(core),
        FlowOp::Dble16 => dble_16(core),
        FlowOp::Jmp32Ai => jmp_32_ai(core),
        FlowOp::Jmp32Di => jmp_32_di(core),
        FlowOp::Jmp32Ix => jmp_32_ix(core),
        FlowOp::Jmp32Aw => jmp_32_aw(core),
        FlowOp::Jmp32Al => jmp_32_al(core),
        FlowOp::Jmp32Pcdi => jmp_32_pcdi(core),
        FlowOp::Jmp32Pcix => jmp_32_pcix(core),
        FlowOp::Jsr32Ai => jsr_32_ai(core),
        FlowOp::Jsr32Di => jsr_32_di(core),
        FlowOp::Jsr32Ix => jsr_32_ix(core),
        FlowOp::Jsr32Aw => jsr_32_aw(core),
        FlowOp::Jsr32Al => jsr_32_al(core),
        FlowOp::Jsr32Pcdi => jsr_32_pcdi(core),
        FlowOp::Jsr32Pcix => jsr_32_pcix(core),
        FlowOp::Lea32Ai => lea_32_ai(core),
        FlowOp::Lea32Di => lea_32_di(core),
        FlowOp::Lea32Ix => lea_32_ix(core),
        FlowOp::Lea32Aw => lea_32_aw(core),
        FlowOp::Lea32Al => lea_32_al(core),
        FlowOp::Lea32Pcdi => lea_32_pcdi(core),
        FlowOp::Lea32Pcix => lea_32_pcix(core),
        FlowOp::Pea32Ai => pea_32_ai(core),
        FlowOp::Pea32Di => pea_32_di(core),
        FlowOp::Pea32Ix => pea_32_ix(core),
        FlowOp::Pea32Aw => pea_32_aw(core),
        FlowOp::Pea32Al => pea_32_al(core),
        FlowOp::Pea32Pcdi => pea_32_pcdi(core),
        FlowOp::Pea32Pcix => pea_32_pcix(core),
        FlowOp::Scc8Dn => scc_8_dn(core),
        FlowOp::Scc8Ai => scc_8_ai(core),
        FlowOp::Scc8Al => scc_8_al(core),
        FlowOp::Scc8Aw => scc_8_aw(core),
        FlowOp::Scc8Di => scc_8_di(core),
        FlowOp::Scc8Ix => scc_8_ix(core),
        FlowOp::Scc8Pd => scc_8_pd(core),
        FlowOp::Scc8Pi => scc_8_pi(core),
        FlowOp::Scs8Dn => scs_8_dn(core),
        FlowOp::Scs8Ai => scs_8_ai(core),
        FlowOp::Scs8Al => scs_8_al(core),
        FlowOp::Scs8Aw => scs_8_aw(core),
        FlowOp::Scs8Di => scs_8_di(core),
        FlowOp::Scs8Ix => scs_8_ix(core),
        FlowOp::Scs8Pd => scs_8_pd(core),
        FlowOp::Scs8Pi => scs_8_pi(core),
        FlowOp::Seq8Dn => seq_8_dn(core),
        FlowOp::Seq8Ai => seq_8_ai(core),
        FlowOp::Seq8Al => seq_8_al(core),
        FlowOp::Seq8Aw => seq_8_aw(core),
        FlowOp::Seq8Di => seq_8_di(core),
        FlowOp::Seq8Ix => seq_8_ix(core),
        FlowOp::Seq8Pd => seq_8_pd(core),
        FlowOp::Seq8Pi => seq_8_pi(core),
        FlowOp::Sf8Dn => sf_8_dn(core),
        FlowOp::Sf8Ai => sf_8_ai(core),
        FlowOp::Sf8Al => sf_8_al(core),
        FlowOp::Sf8Aw => sf_8_aw(core),
        FlowOp::Sf8Di => sf_8_di(core),
        FlowOp::Sf8Ix => sf_8_ix(core),
        FlowOp::Sf8Pd => sf_8_pd(core),
        FlowOp::Sf8Pi => sf_8_pi(core),
        FlowOp::Sge8Dn => sge_8_dn(core),
        FlowOp::Sge8Ai => sge_8_ai(core),
        FlowOp::Sge8Al => sge_8_al(core),
        FlowOp::Sge8Aw => sge_8_aw(core),
        FlowOp::Sge8Di => sge_8_di(core),
        FlowOp::Sge8Ix => sge_8_ix(core),
        FlowOp::Sge8Pd => sge_8_pd(core),
        FlowOp::Sge8Pi => sge_8_pi(core),
        FlowOp::Sgt8Dn => sgt_8_dn(core),
        FlowOp::Sgt8Ai => sgt_8_ai(core),
        FlowOp::Sgt8Al => sgt_8_al(core),
        FlowOp::Sgt8Aw => sgt_8_aw(core),
        FlowOp::Sgt8Di => sgt_8_di(core),
        FlowOp::Sgt8Ix => sgt_8_ix(core),
        FlowOp::Sgt8Pd => sgt_8_pd(core),
        FlowOp::Sgt8Pi => sgt_8_pi(core),
        FlowOp::Shi8Dn => shi_8_dn(core),
        FlowOp::Shi8Ai => shi_8_ai(core),
        FlowOp::Shi8Al => shi_8_al(core),
        FlowOp::Shi8Aw => shi_8_aw(core),
        FlowOp::Shi8Di => shi_8_di(core),
        FlowOp::Shi8Ix => shi_8_ix(core),
        FlowOp::Shi8Pd => shi_8_pd(core),
        FlowOp::Shi8Pi => shi_8_pi(core),
        FlowOp::Sle8Dn => sle_8_dn(core),
        FlowOp::Sle8Ai => sle_8_ai(core),
        FlowOp::Sle8Al => sle_8_al(core),
        FlowOp::Sle8Aw => sle_8_aw(core),
        FlowOp::Sle8Di => sle_8_di(core),
        FlowOp::Sle8Ix => sle_8_ix(core),
        FlowOp::Sle8Pd => sle_8_pd(core),
        FlowOp::Sle8Pi => sle_8_pi(core),
        FlowOp::Sls8Dn => sls_8_dn(core),
        FlowOp::Sls8Ai => sls_8_ai(core),
        FlowOp::Sls8Al => sls_8_al(core),
        FlowOp::Sls8Aw => sls_8_aw(core),
        FlowOp::Sls8Di => sls_8_di(core),
        FlowOp::Sls8Ix => sls_8_ix(core),
        FlowOp::Sls8Pd => sls_8_pd(core),
        FlowOp::Sls8Pi => sls_8_pi(core),
        FlowOp::Slt8Dn => slt_8_dn(core),
        FlowOp::Slt8Ai => slt_8_ai(core),
        FlowOp::Slt8Al => slt_8_al(core),
        FlowOp::Slt8Aw => slt_8_aw(core),
        FlowOp::Slt8Di => slt_8_di(core),
        FlowOp::Slt8Ix => slt_8_ix(core),
        FlowOp::Slt8Pd => slt_8_pd(core),
        FlowOp::Slt8Pi => slt_8_pi(core),
        FlowOp::Smi8Dn => smi_8_dn(core),
        FlowOp::Smi8Ai => smi_8_ai(core),
        FlowOp::Smi8Al => smi_8_al(core),
        FlowOp::Smi8Aw => smi_8_aw(core),
        FlowOp::Smi8Di => smi_8_di(core),
        FlowOp::Smi8Ix => smi_8_ix(core),
        FlowOp::Smi8Pd => smi_8_pd(core),
        FlowOp::Smi8Pi => smi_8_pi(core),
        FlowOp::Sne8Dn => sne_8_dn(core),
        FlowOp::Sne8Ai => sne_8_ai(core),
        FlowOp::Sne8Al => sne_8_al(core),
        FlowOp::Sne8Aw => sne_8_aw(core),
        FlowOp::Sne8Di => sne_8_di(core),
        FlowOp::Sne8Ix => sne_8_ix(core),
        FlowOp::Sne8Pd => sne_8_pd(core),
        FlowOp::Sne8Pi => sne_8_pi(core),
        FlowOp::Spl8Dn => spl_8_dn(core),
        FlowOp::Spl8Ai => spl_8_ai(core),
        FlowOp::Spl8Al => spl_8_al(core),
        FlowOp::Spl8Aw => spl_8_aw(core),
        FlowOp::Spl8Di => spl_8_di(core),
        FlowOp::Spl8Ix => spl_8_ix(core),
        FlowOp::Spl8Pd => spl_8_pd(core),
        FlowOp::Spl8Pi => spl_8_pi(core),
        FlowOp::St8Dn => st_8_dn(core),
        FlowOp::St8Ai => st_8_ai(core),
        FlowOp::St8Al => st_8_al(core),
        FlowOp::St8Aw => st_8_aw(core),
        FlowOp::St8Di => st_8_di(core),
        FlowOp::St8Ix => st_8_ix(core),
        FlowOp::St8Pd => st_8_pd(core),
        FlowOp::St8Pi => st_8_pi(core),
        FlowOp::Svc8Dn => svc_8_dn(core),
        FlowOp::Svc8Ai => svc_8_ai(core),
        FlowOp::Svc8Al => svc_8_al(core),
        FlowOp::Svc8Aw => svc_8_aw(core),
        FlowOp::Svc8Di => svc_8_di(core),
        FlowOp::Svc8Ix => svc_8_ix(core),
        FlowOp::Svc8Pd => svc_8_pd(core),
        FlowOp::Svc8Pi => svc_8_pi(core),
        FlowOp::Svs8Dn => svs_8_dn(core),
        FlowOp::Svs8Ai => svs_8_ai(core),
        FlowOp::Svs8Al => svs_8_al(core),
        FlowOp::Svs8Aw => svs_8_aw(core),
        FlowOp::Svs8Di => svs_8_di(core),
        FlowOp::Svs8Ix => svs_8_ix(core),
        FlowOp::Svs8Pd => svs_8_pd(core),
        FlowOp::Svs8Pi => svs_8_pi(core),
    }
}

} // verus!
