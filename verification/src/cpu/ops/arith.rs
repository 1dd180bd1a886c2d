use vstd::prelude::*;
use crate::cpu::{EXCEPTION_ZERO_DIVIDE, ConfiguredCore, Cycles, Exception, Result, AccessType, data_written, pushed_32, branched, wadd, wsub, ir_dx, ir_dy, ir_ax, ir_ay, reg_dx, reg_dy, reg_ax, reg_ay, condition};
use crate::cpu::effective_address;
use crate::cpu::operator;
use crate::cpu::ops::common;
use crate::cpu::ops::{reg_set, merged, merge, set_reg, write_sized, stack_error, stack_fault, sp_odd, privilege_violation, short_offset, long_branch_done};

verus! {

/// A word operand sign-extended to a long word.
pub open spec fn word_as_long(v: u32) -> u32 {
    (v as i16) as u32
}

fn extend_word(v: u32) -> (r: u32)
    ensures
        r == word_as_long(v),
{
    (v as i16) as u32
}

/// What `adda_16_dn` does: the core goes from `c0` to `c1` and `r` comes back.
pub open spec fn adda_16_dn_effect(c0: ConfiguredCore, c1: ConfiguredCore, r: Result<Cycles>) -> bool {
    exists|mid: ConfiguredCore, src: Result<u32>|
        #[trigger] operator::dy_rel(c0, mid, src) && match src {
            Err(e) => r == Err::<Cycles, Exception>(e) && c1 == mid,
            Ok(v) => {
                let reg = ir_ax(mid.ir);
                &&& r == Ok::<Cycles, Exception>(Cycles(8))
                &&& reg_set(mid, c1, reg, wadd(mid.dar[reg], word_as_long(v)))
            },
        }
}

/// ADDA: the source, as a long word, added to Ax; no flag changes.
pub fn adda_16_dn(core: &mut ConfiguredCore) -> (r: Result<Cycles>)
    requires
        old(core).wf(),
    ensures
        final(core).wf(),
        adda_16_dn_effect(*old(core), *final(core), r),
{
    let ghost c0 = *core;
    let src = operator::dy(core);
    let ghost mid = *core;
    assert(operator::dy_rel(c0, mid, src));
    match src {
        Err(e) => Err(e),
        Ok(v) => {
            let reg = reg_ax(core.ir);
            let dst = core.dar[reg];
            let x: u32 = extend_word(v);
            assert(dst.wrapping_add(x) == wadd(dst, x));
            set_reg(core, reg, dst.wrapping_add(x));
            Ok(Cycles(8))
        },
    }
}

/// What `adda_16_an` does: the core goes from `c0` to `c1` and `r` comes back.
pub open spec fn adda_16_an_effect(c0: ConfiguredCore, c1: ConfiguredCore, r: Result<Cycles>) -> bool {
    exists|mid: ConfiguredCore, src: Result<u32>|
        #[trigger] operator::ay_rel(c0, mid, src) && match src {
            Err(e) => r == Err::<Cycles, Exception>(e) && c1 == mid,
            Ok(v) => {
                let reg = ir_ax(mid.ir);
                &&& r == Ok::<Cycles, Exception>(Cycles(8))
                &&& reg_set(mid, c1, reg, wadd(mid.dar[reg], word_as_long(v)))
            },
        }
}

/// ADDA: the source, as a long word, added to Ax; no flag changes.
pub fn adda_16_an(core: &mut ConfiguredCore) -> (r: Result<Cycles>)
    requires
        old(core).wf(),
    ensures
        final(core).wf(),
        adda_16_an_effect(*old(core), *final(core), r),
{
    let ghost c0 = *core;
    let src = operator::ay(core);
    let ghost mid = *core;
    assert(operator::ay_rel(c0, mid, src));
    match src {
        Err(e) => Err(e),
        Ok(v) => {
            let reg = reg_ax(core.ir);
            let dst = core.dar[reg];
            let x: u32 = extend_word(v);
            assert(dst.wrapping_add(x) == wadd(dst, x));
            set_reg(core, reg, dst.wrapping_add(x));
            Ok(Cycles(8))
        },
    }
}

/// What `adda_16_ai` does: the core goes from `c0` to `c1` and `r` comes back.
pub open spec fn adda_16_ai_effect(c0: ConfiguredCore, c1: ConfiguredCore, r: Result<Cycles>) -> bool {
    exists|mid: ConfiguredCore, src: Result<u32>|
        #[trigger] operator::ay_ai_16_rel(c0, mid, src) && match src {
            Err(e) => r == Err::<Cycles, Exception>(e) && c1 == mid,
            Ok(v) => {
                let reg = ir_ax(mid.ir);
                &&& r == Ok::<Cycles, Exception>(Cycles(12))
                &&& reg_set(mid, c1, reg, wadd(mid.dar[reg], word_as_long(v)))
            },
        }
}

/// ADDA: the source, as a long word, added to Ax; no flag changes.
pub fn adda_16_ai(core: &mut ConfiguredCore) -> (r: Result<Cycles>)
    requires
        old(core).wf(),
    ensures
        final(core).wf(),
        adda_16_ai_effect(*old(core), *final(core), r),
{
    let ghost c0 = *core;
    let src = operator::ay_ai_16(core);
    let ghost mid = *core;
    assert(operator::ay_ai_16_rel(c0, mid, src));
    match src {
        Err(e) => Err(e),
        Ok(v) => {
            let reg = reg_ax(core.ir);
            let dst = core.dar[reg];
            let x: u32 = extend_word(v);
            assert(dst.wrapping_add(x) == wadd(dst, x));
            set_reg(core, reg, dst.wrapping_add(x));
            Ok(Cycles(12))
        },
    }
}

/// What `adda_16_pi` does: the core goes from `c0` to `c1` and `r` comes back.
pub open spec fn adda_16_pi_effect(c0: ConfiguredCore, c1: ConfiguredCore, r: Result<Cycles>) -> bool {
    exists|mid: ConfiguredCore, src: Result<u32>|
        #[trigger] operator::ay_pi_16_rel(c0, mid, src) && match src {
            Err(e) => r == Err::<Cycles, Exception>(e) && c1 == mid,
            Ok(v) => {
                let reg = ir_ax(mid.ir);
                &&& r == Ok::<Cycles, Exception>(Cycles(12))
                &&& reg_set(mid, c1, reg, wadd(mid.dar[reg], word_as_long(v)))
            },
        }
}

/// ADDA: the source, as a long word, added to Ax; no flag changes.
pub fn adda_16_pi(core: &mut ConfiguredCore) -> (r: Result<Cycles>)
    requires
        old(core).wf(),
    ensures
        final(core).wf(),
        adda_16_pi_effect(*old(core), *final(core), r),
{
    let ghost c0 = *core;
    let src = operator::ay_pi_16(core);
    let ghost mid = *core;
    assert(operator::ay_pi_16_rel(c0, mid, src));
    match src {
        Err(e) => Err(e),
        Ok(v) => {
            let reg = reg_ax(core.ir);
            let dst = core.dar[reg];
            let x: u32 = extend_word(v);
            assert(dst.wrapping_add(x) == wadd(dst, x));
            set_reg(core, reg, dst.wrapping_add(x));
            Ok(Cycles(12))
        },
    }
}

/// What `adda_16_pd` does: the core goes from `c0` to `c1` and `r` comes back.
pub open spec fn adda_16_pd_effect(c0: ConfiguredCore, c1: ConfiguredCore, r: Result<Cycles>) -> bool {
    exists|mid: ConfiguredCore, src: Result<u32>|
        #[trigger] operator::ay_pd_16_rel(c0, mid, src) && match src {
            Err(e) => r == Err::<Cycles, Exception>(e) && c1 == mid,
            Ok(v) => {
                let reg = ir_ax(mid.ir);
                &&& r == Ok::<Cycles, Exception>(Cycles(14))
                &&& reg_set(mid, c1, reg, wadd(mid.dar[reg], word_as_long(v)))
            },
        }
}

/// ADDA: the source, as a long word, added to Ax; no flag changes.
pub fn adda_16_pd(core: &mut ConfiguredCore) -> (r: Result<Cycles>)
    requires
        old(core).wf(),
    ensures
        final(core).wf(),
        adda_16_pd_effect(*old(core), *final(core), r),
{
    let ghost c0 = *core;
    let src = operator::ay_pd_16(core);
    let ghost mid = *core;
    assert(operator::ay_pd_16_rel(c0, mid, src));
    match src {
        Err(e) => Err(e),
        Ok(v) => {
            let reg = reg_ax(core.ir);
            let dst = core.dar[reg];
            let x: u32 = extend_word(v);
            assert(dst.wrapping_add(x) == wadd(dst, x));
            set_reg(core, reg, dst.wrapping_add(x));
            Ok(Cycles(14))
        },
    }
}

/// What `adda_16_di` does: the core goes from `c0` to `c1` and `r` comes back.
pub open spec fn adda_16_di_effect(c0: ConfiguredCore, c1: ConfiguredCore, r: Result<Cycles>) -> bool {
    exists|mid: ConfiguredCore, src: Result<u32>|
        #[trigger] operator::ay_di_16_rel(c0, mid, src) && match src {
            Err(e) => r == Err::<Cycles, Exception>(e) && c1 == mid,
            Ok(v) => {
                let reg = ir_ax(mid.ir);
                &&& r == Ok::<Cycles, Exception>(Cycles(16))
                &&& reg_set(mid, c1, reg, wadd(mid.dar[reg], word_as_long(v)))
            },
        }
}

/// ADDA: the source, as a long word, added to Ax; no flag changes.
pub fn adda_16_di(core: &mut ConfiguredCore) -> (r: Result<Cycles>)
    requires
        old(core).wf(),
    ensures
        final(core).wf(),
        adda_16_di_effect(*old(core), *final(core), r),
{
    let ghost c0 = *core;
    let src = operator::ay_di_16(core);
    let ghost mid = *core;
    assert(operator::ay_di_16_rel(c0, mid, src));
    match src {
        Err(e) => Err(e),
        Ok(v) => {
            let reg = reg_ax(core.ir);
            let dst = core.dar[reg];
            let x: u32 = extend_word(v);
            assert(dst.wrapping_add(x) == wadd(dst, x));
            set_reg(core, reg, dst.wrapping_add(x));
            Ok(Cycles(16))
        },
    }
}

/// What `adda_16_ix` does: the core goes from `c0` to `c1` and `r` comes back.
pub open spec fn adda_16_ix_effect(c0: ConfiguredCore, c1: ConfiguredCore, r: Result<Cycles>) -> bool {
    exists|mid: ConfiguredCore, src: Result<u32>|
        #[trigger] operator::ay_ix_16_rel(c0, mid, src) && match src {
            Err(e) => r == Err::<Cycles, Exception>(e) && c1 == mid,
            Ok(v) => {
                let reg = ir_ax(mid.ir);
                &&& r == Ok::<Cycles, Exception>(Cycles(18))
                &&& reg_set(mid, c1, reg, wadd(mid.dar[reg], word_as_long(v)))
            },
        }
}

/// ADDA: the source, as a long word, added to Ax; no flag changes.
pub fn adda_16_ix(core: &mut ConfiguredCore) -> (r: Result<Cycles>)
    requires
        old(core).wf(),
    ensures
        final(core).wf(),
        adda_16_ix_effect(*old(core), *final(core), r),
{
    let ghost c0 = *core;
    let src = operator::ay_ix_16(core);
    let ghost mid = *core;
    assert(operator::ay_ix_16_rel(c0, mid, src));
    match src {
        Err(e) => Err(e),
        Ok(v) => {
            let reg = reg_ax(core.ir);
            let dst = core.dar[reg];
            let x: u32 = extend_word(v);
            assert(dst.wrapping_add(x) == wadd(dst, x));
            set_reg(core, reg, dst.wrapping_add(x));
            Ok(Cycles(18))
        },
    }
}

/// What `adda_16_aw` does: the core goes from `c0` to `c1` and `r` comes back.
pub open spec fn adda_16_aw_effect(c0: ConfiguredCore, c1: ConfiguredCore, r: Result<Cycles>) -> bool {
    exists|mid: ConfiguredCore, src: Result<u32>|
        #[trigger] operator::aw_16_rel(c0, mid, src) && match src {
            Err(e) => r == Err::<Cycles, Exception>(e) && c1 == mid,
            Ok(v) => {
                let reg = ir_ax(mid.ir);
                &&& r == Ok::<Cycles, Exception>(Cycles(16))
                &&& reg_set(mid, c1, reg, wadd(mid.dar[reg], word_as_long(v)))
            },
        }
}

/// ADDA: the source, as a long word, added to Ax; no flag changes.
pub fn adda_16_aw(core: &mut ConfiguredCore) -> (r: Result<Cycles>)
    requires
        old(core).wf(),
    ensures
        final(core).wf(),
        adda_16_aw_effect(*old(core), *final(core), r),
{
    let ghost c0 = *core;
    let src = operator::aw_16(core);
    let ghost mid = *core;
    assert(operator::aw_16_rel(c0, mid, src));
    match src {
        Err(e) => Err(e),
        Ok(v) => {
            let reg = reg_ax(core.ir);
            let dst = core.dar[reg];
            let x: u32 = extend_word(v);
            assert(dst.wrapping_add(x) == wadd(dst, x));
            set_reg(core, reg, dst.wrapping_add(x));
            Ok(Cycles(16))
        },
    }
}

/// What `adda_16_al` does: the core goes from `c0` to `c1` and `r` comes back.
pub open spec fn adda_16_al_effect(c0: ConfiguredCore, c1: ConfiguredCore, r: Result<Cycles>) -> bool {
    exists|mid: ConfiguredCore, src: Result<u32>|
        #[trigger] operator::al_16_rel(c0, mid, src) && match src {
            Err(e) => r == Err::<Cycles, Exception>(e) && c1 == mid,
            Ok(v) => {
                let reg = ir_ax(mid.ir);
                &&& r == Ok::<Cycles, Exception>(Cycles(20))
                &&& reg_set(mid, c1, reg, wadd(mid.dar[reg], word_as_long(v)))
            },
        }
}

/// ADDA: the source, as a long word, added to Ax; no flag changes.
pub fn adda_16_al(core: &mut ConfiguredCore) -> (r: Result<Cycles>)
    requires
        old(core).wf(),
    ensures
        final(core).wf(),
        adda_16_al_effect(*old(core), *final(core), r),
{
    let ghost c0 = *core;
    let src = operator::al_16(core);
    let ghost mid = *core;
    assert(operator::al_16_rel(c0, mid, src));
    match src {
        Err(e) => Err(e),
        Ok(v) => {
            let reg = reg_ax(core.ir);
            let dst = core.dar[reg];
            let x: u32 = extend_word(v);
            assert(dst.wrapping_add(x) == wadd(dst, x));
            set_reg(core, reg, dst.wrapping_add(x));
            Ok(Cycles(20))
        },
    }
}

/// What `adda_16_pcdi` does: the core goes from `c0` to `c1` and `r` comes back.
pub open spec fn adda_16_pcdi_effect(c0: ConfiguredCore, c1: ConfiguredCore, r: Result<Cycles>) -> bool {
    exists|mid: ConfiguredCore, src: Result<u32>|
        #[trigger] operator::pcdi_16_rel(c0, mid, src) && match src {
            Err(e) => r == Err::<Cycles, Exception>(e) && c1 == mid,
            Ok(v) => {
                let reg = ir_ax(mid.ir);
                &&& r == Ok::<Cycles, Exception>(Cycles(16))
                &&& reg_set(mid, c1, reg, wadd(mid.dar[reg], word_as_long(v)))
            },
        }
}

/// ADDA: the source, as a long word, added to Ax; no flag changes.
pub fn adda_16_pcdi(core: &mut ConfiguredCore) -> (r: Result<Cycles>)
    requires
        old(core).wf(),
    ensures
        final(core).wf(),
        adda_16_pcdi_effect(*old(core), *final(core), r),
{
    let ghost c0 = *core;
    let src = operator::pcdi_16(core);
    let ghost mid = *core;
    assert(operator::pcdi_16_rel(c0, mid, src));
    match src {
        Err(e) => Err(e),
        Ok(v) => {
            let reg = reg_ax(core.ir);
            let dst = core.dar[reg];
            let x: u32 = extend_word(v);
            assert(dst.wrapping_add(x) == wadd(dst, x));
            set_reg(core, reg, dst.wrapping_add(x));
            Ok(Cycles(16))
        },
    }
}

/// What `adda_16_pcix` does: the core goes from `c0` to `c1` and `r` comes back.
pub open spec fn adda_16_pcix_effect(c0: ConfiguredCore, c1: ConfiguredCore, r: Result<Cycles>) -> bool {
    exists|mid: ConfiguredCore, src: Result<u32>|
        #[trigger] operator::pcix_16_rel(c0, mid, src) && match src {
            Err(e) => r == Err::<Cycles, Exception>(e) && c1 == mid,
            Ok(v) => {
                let reg = ir_ax(mid.ir);
                &&& r == Ok::<Cycles, Exception>(Cycles(18))
                &&& reg_set(mid, c1, reg, wadd(mid.dar[reg], word_as_long(v)))
            },
        }
}

/// ADDA: the source, as a long word, added to Ax; no flag changes.
pub fn adda_16_pcix(core: &mut ConfiguredCore) -> (r: Result<Cycles>)
    requires
        old(core).wf(),
    ensures
        final(core).wf(),
        adda_16_pcix_effect(*old(core), *final(core), r),
{
    let ghost c0 = *core;
    let src = operator::pcix_16(core);
    let ghost mid = *core;
    assert(operator::pcix_16_rel(c0, mid, src));
    match src {
        Err(e) => Err(e),
        Ok(v) => {
            let reg = reg_ax(core.ir);
            let dst = core.dar[reg];
            let x: u32 = extend_word(v);
            assert(dst.wrapping_add(x) == wadd(dst, x));
            set_reg(core, reg, dst.wrapping_add(x));
            Ok(Cycles(18))
        },
    }
}

/// What `adda_16_imm` does: the core goes from `c0` to `c1` and `r` comes back.
pub open spec fn adda_16_imm_effect(c0: ConfiguredCore, c1: ConfiguredCore, r: Result<Cycles>) -> bool {
    exists|mid: ConfiguredCore, src: Result<u32>|
        #[trigger] operator::imm_16_rel(c0, mid, src) && match src {
            Err(e) => r == Err::<Cycles, Exception>(e) && c1 == mid,
            Ok(v) => {
                let reg = ir_ax(mid.ir);
                &&& r == Ok::<Cycles, Exception>(Cycles(14))
                &&& reg_set(mid, c1, reg, wadd(mid.dar[reg], word_as_long(v)))
            },
        }
}

/// ADDA: the source, as a long word, added to Ax; no flag changes.
pub fn adda_16_imm(core: &mut ConfiguredCore) -> (r: Result<Cycles>)
    requires
        old(core).wf(),
    ensures
        final(core).wf(),
        adda_16_imm_effect(*old(core), *final(core), r),
{
    let ghost c0 = *core;
    let src = operator::imm_16(core);
    let ghost mid = *core;
    assert(operator::imm_16_rel(c0, mid, src));
    match src {
        Err(e) => Err(e),
        Ok(v) => {
            let reg = reg_ax(core.ir);
            let dst = core.dar[reg];
            let x: u32 = extend_word(v);
            assert(dst.wrapping_add(x) == wadd(dst, x));
            set_reg(core, reg, dst.wrapping_add(x));
            Ok(Cycles(14))
        },
    }
}

/// What `adda_32_dn` does: the core goes from `c0` to `c1` and `r` comes back.
pub open spec fn adda_32_dn_effect(c0: ConfiguredCore, c1: ConfiguredCore, r: Result<Cycles>) -> bool {
    exists|mid: ConfiguredCore, src: Result<u32>|
        #[trigger] operator::dy_rel(c0, mid, src) && match src {
            Err(e) => r == Err::<Cycles, Exception>(e) && c1 == mid,
            Ok(v) => {
                let reg = ir_ax(mid.ir);
                &&& r == Ok::<Cycles, Exception>(Cycles(6))
                &&& reg_set(mid, c1, reg, wadd(mid.dar[reg], v))
            },
        }
}

/// ADDA: the source, as a long word, added to Ax; no flag changes.
pub fn adda_32_dn(core: &mut ConfiguredCore) -> (r: Result<Cycles>)
    requires
        old(core).wf(),
    ensures
        final(core).wf(),
        adda_32_dn_effect(*old(core), *final(core), r),
{
    let ghost c0 = *core;
    let src = operator::dy(core);
    let ghost mid = *core;
    assert(operator::dy_rel(c0, mid, src));
    match src {
        Err(e) => Err(e),
        Ok(v) => {
            let reg = reg_ax(core.ir);
            let dst = core.dar[reg];
            let x: u32 = v;
            assert(dst.wrapping_add(x) == wadd(dst, x));
            set_reg(core, reg, dst.wrapping_add(x));
            Ok(Cycles(6))
        },
    }
}

/// What `adda_32_an` does: the core goes from `c0` to `c1` and `r` comes back.
pub open spec fn adda_32_an_effect(c0: ConfiguredCore, c1: ConfiguredCore, r: Result<Cycles>) -> bool {
    exists|mid: ConfiguredCore, src: Result<u32>|
        #[trigger] operator::ay_rel(c0, mid, src) && match src {
            Err(e) => r == Err::<Cycles, Exception>(e) && c1 == mid,
            Ok(v) => {
                let reg = ir_ax(mid.ir);
                &&& r == Ok::<Cycles, Exception>(Cycles(6))
                &&& reg_set(mid, c1, reg, wadd(mid.dar[reg], v))
            },
        }
}

/// ADDA: the source, as a long word, added to Ax; no flag changes.
pub fn adda_32_an(core: &mut ConfiguredCore) -> (r: Result<Cycles>)
    requires
        old(core).wf(),
    ensures
        final(core).wf(),
        adda_32_an_effect(*old(core), *final(core), r),
{
    let ghost c0 = *core;
    let src = operator::ay(core);
    let ghost mid = *core;
    assert(operator::ay_rel(c0, mid, src));
    match src {
        Err(e) => Err(e),
        Ok(v) => {
            let reg = reg_ax(core.ir);
            let dst = core.dar[reg];
            let x: u32 = v;
            assert(dst.wrapping_add(x) == wadd(dst, x));
            set_reg(core, reg, dst.wrapping_add(x));
            Ok(Cycles(6))
        },
    }
}

/// What `adda_32_ai` does: the core goes from `c0` to `c1` and `r` comes back.
pub open spec fn adda_32_ai_effect(c0: ConfiguredCore, c1: ConfiguredCore, r: Result<Cycles>) -> bool {
    exists|mid: ConfiguredCore, src: Result<u32>|
        #[trigger] operator::ay_ai_32_rel(c0, mid, src) && match src {
            Err(e) => r == Err::<Cycles, Exception>(e) && c1 == mid,
            Ok(v) => {
                let reg = ir_ax(mid.ir);
                &&& r == Ok::<Cycles, Exception>(Cycles(14))
                &&& reg_set(mid, c1, reg, wadd(mid.dar[reg], v))
            },
        }
}

/// ADDA: the source, as a long word, added to Ax; no flag changes.
pub fn adda_32_ai(core: &mut ConfiguredCore) -> (r: Result<Cycles>)
    requires
        old(core).wf(),
    ensures
        final(core).wf(),
        adda_32_ai_effect(*old(core), *final(core), r),
{
    let ghost c0 = *core;
    let src = operator::ay_ai_32(core);
    let ghost mid = *core;
    assert(operator::ay_ai_32_rel(c0, mid, src));
    match src {
        Err(e) => Err(e),
        Ok(v) => {
            let reg = reg_ax(core.ir);
            let dst = core.dar[reg];
            let x: u32 = v;
            assert(dst.wrapping_add(x) == wadd(dst, x));
            set_reg(core, reg, dst.wrapping_add(x));
            Ok(Cycles(14))
        },
    }
}

/// What `adda_32_pi` does: the core goes from `c0` to `c1` and `r` comes back.
pub open spec fn adda_32_pi_effect(c0: ConfiguredCore, c1: ConfiguredCore, r: Result<Cycles>) -> bool {
    exists|mid: ConfiguredCore, src: Result<u32>|
        #[trigger] operator::ay_pi_32_rel(c0, mid, src) && match src {
            Err(e) => r == Err::<Cycles, Exception>(e) && c1 == mid,
            Ok(v) => {
                let reg = ir_ax(mid.ir);
                &&& r == Ok::<Cycles, Exception>(Cycles(14))
                &&& reg_set(mid, c1, reg, wadd(mid.dar[reg], v))
            },
        }
}

/// ADDA: the source, as a long word, added to Ax; no flag changes.
pub fn adda_32_pi(core: &mut ConfiguredCore) -> (r: Result<Cycles>)
    requires
        old(core).wf(),
    ensures
        final(core).wf(),
        adda_32_pi_effect(*old(core), *final(core), r),
{
    let ghost c0 = *core;
    let src = operator::ay_pi_32(core);
    let ghost mid = *core;
    assert(operator::ay_pi_32_rel(c0, mid, src));
    match src {
        Err(e) => Err(e),
        Ok(v) => {
            let reg = reg_ax(core.ir);
            let dst = core.dar[reg];
            let x: u32 = v;
            assert(dst.wrapping_add(x) == wadd(dst, x));
            set_reg(core, reg, dst.wrapping_add(x));
            Ok(Cycles(14))
        },
    }
}

/// What `adda_32_pd` does: the core goes from `c0` to `c1` and `r` comes back.
pub open spec fn adda_32_pd_effect(c0: ConfiguredCore, c1: ConfiguredCore, r: Result<Cycles>) -> bool {
    exists|mid: ConfiguredCore, src: Result<u32>|
        #[trigger] operator::ay_pd_32_rel(c0, mid, src) && match src {
            Err(e) => r == Err::<Cycles, Exception>(e) && c1 == mid,
            Ok(v) => {
                let reg = ir_ax(mid.ir);
                &&& r == Ok::<Cycles, Exception>(Cycles(16))
                &&& reg_set(mid, c1, reg, wadd(mid.dar[reg], v))
            },
        }
}

/// ADDA: the source, as a long word, added to Ax; no flag changes.
pub fn adda_32_pd(core: &mut ConfiguredCore) -> (r: Result<Cycles>)
    requires
        old(core).wf(),
    ensures
        final(core).wf(),
        adda_32_pd_effect(*old(core), *final(core), r),
{
    let ghost c0 = *core;
    let src = operator::ay_pd_32(core);
    let ghost mid = *core;
    assert(operator::ay_pd_32_rel(c0, mid, src));
    match src {
        Err(e) => Err(e),
        Ok(v) => {
            let reg = reg_ax(core.ir);
            let dst = core.dar[reg];
            let x: u32 = v;
            assert(dst.wrapping_add(x) == wadd(dst, x));
            set_reg(core, reg, dst.wrapping_add(x));
            Ok(Cycles(16))
        },
    }
}

/// What `adda_32_di` does: the core goes from `c0` to `c1` and `r` comes back.
pub open spec fn adda_32_di_effect(c0: ConfiguredCore, c1: ConfiguredCore, r: Result<Cycles>) -> bool {
    exists|mid: ConfiguredCore, src: Result<u32>|
        #[trigger] operator::ay_di_32_rel(c0, mid, src) && match src {
            Err(e) => r == Err::<Cycles, Exception>(e) && c1 == mid,
            Ok(v) => {
                let reg = ir_ax(mid.ir);
                &&& r == Ok::<Cycles, Exception>(Cycles(18))
                &&& reg_set(mid, c1, reg, wadd(mid.dar[reg], v))
            },
        }
}

/// ADDA: the source, as a long word, added to Ax; no flag changes.
pub fn adda_32_di(core: &mut ConfiguredCore) -> (r: Result<Cycles>)
    requires
        old(core).wf(),
    ensures
        final(core).wf(),
        adda_32_di_effect(*old(core), *final(core), r),
{
    let ghost c0 = *core;
    let src = operator::ay_di_32(core);
    let ghost mid = *core;
    assert(operator::ay_di_32_rel(c0, mid, src));
    match src {
        Err(e) => Err(e),
        Ok(v) => {
            let reg = reg_ax(core.ir);
            let dst = core.dar[reg];
            let x: u32 = v;
            assert(dst.wrapping_add(x) == wadd(dst, x));
            set_reg(core, reg, dst.wrapping_add(x));
            Ok(Cycles(18))
        },
    }
}

/// What `adda_32_ix` does: the core goes from `c0` to `c1` and `r` comes back.
pub open spec fn adda_32_ix_effect(c0: ConfiguredCore, c1: ConfiguredCore, r: Result<Cycles>) -> bool {
    exists|mid: ConfiguredCore, src: Result<u32>|
        #[trigger] operator::ay_ix_32_rel(c0, mid, src) && match src {
            Err(e) => r == Err::<Cycles, Exception>(e) && c1 == mid,
            Ok(v) => {
                let reg = ir_ax(mid.ir);
                &&& r == Ok::<Cycles, Exception>(Cycles(20))
                &&& reg_set(mid, c1, reg, wadd(mid.dar[reg], v))
            },
        }
}

/// ADDA: the source, as a long word, added to Ax; no flag changes.
pub fn adda_32_ix(core: &mut ConfiguredCore) -> (r: Result<Cycles>)
    requires
        old(core).wf(),
    ensures
        final(core).wf(),
        adda_32_ix_effect(*old(core), *final(core), r),
{
    let ghost c0 = *core;
    let src = operator::ay_ix_32(core);
    let ghost mid = *core;
    assert(operator::ay_ix_32_rel(c0, mid, src));
    match src {
        Err(e) => Err(e),
        Ok(v) => {
            let reg = reg_ax(core.ir);
            let dst = core.dar[reg];
            let x: u32 = v;
            assert(dst.wrapping_add(x) == wadd(dst, x));
            set_reg(core, reg, dst.wrapping_add(x));
            Ok(Cycles(20))
        },
    }
}

/// What `adda_32_aw` does: the core goes from `c0` to `c1` and `r` comes back.
pub open spec fn adda_32_aw_effect(c0: ConfiguredCore, c1: ConfiguredCore, r: Result<Cycles>) -> bool {
    exists|mid: ConfiguredCore, src: Result<u32>|
        #[trigger] operator::aw_32_rel(c0, mid, src) && match src {
            Err(e) => r == Err::<Cycles, Exception>(e) && c1 == mid,
            Ok(v) => {
                let reg = ir_ax(mid.ir);
                &&& r == Ok::<Cycles, Exception>(Cycles(18))
                &&& reg_set(mid, c1, reg, wadd(mid.dar[reg], v))
            },
        }
}

/// ADDA: the source, as a long word, added to Ax; no flag changes.
pub fn adda_32_aw(core: &mut ConfiguredCore) -> (r: Result<Cycles>)
    requires
        old(core).wf(),
    ensures
        final(core).wf(),
        adda_32_aw_effect(*old(core), *final(core), r),
{
    let ghost c0 = *core;
    let src = operator::aw_32(core);
    let ghost mid = *core;
    assert(operator::aw_32_rel(c0, mid, src));
    match src {
        Err(e) => Err(e),
        Ok(v) => {
            let reg = reg_ax(core.ir);
            let dst = core.dar[reg];
            let x: u32 = v;
            assert(dst.wrapping_add(x) == wadd(dst, x));
            set_reg(core, reg, dst.wrapping_add(x));
            Ok(Cycles(18))
        },
    }
}

/// What `adda_32_al` does: the core goes from `c0` to `c1` and `r` comes back.
pub open spec fn adda_32_al_effect(c0: ConfiguredCore, c1: ConfiguredCore, r: Result<Cycles>) -> bool {
    exists|mid: ConfiguredCore, src: Result<u32>|
        #[trigger] operator::al_32_rel(c0, mid, src) && match src {
            Err(e) => r == Err::<Cycles, Exception>(e) && c1 == mid,
            Ok(v) => {
                let reg = ir_ax(mid.ir);
                &&& r == Ok::<Cycles, Exception>(Cycles(22))
                &&& reg_set(mid, c1, reg, wadd(mid.dar[reg], v))
            },
        }
}

/// ADDA: the source, as a long word, added to Ax; no flag changes.
pub fn adda_32_al(core: &mut ConfiguredCore) -> (r: Result<Cycles>)
    requires
        old(core).wf(),
    ensures
        final(core).wf(),
        adda_32_al_effect(*old(core), *final(core), r),
{
    let ghost c0 = *core;
    let src = operator::al_32(core);
    let ghost mid = *core;
    assert(operator::al_32_rel(c0, mid, src));
    match src {
        Err(e) => Err(e),
        Ok(v) => {
            let reg = reg_ax(core.ir);
            let dst = core.dar[reg];
            let x: u32 = v;
            assert(dst.wrapping_add(x) == wadd(dst, x));
            set_reg(core, reg, dst.wrapping_add(x));
            Ok(Cycles(22))
        },
    }
}

/// What `adda_32_pcdi` does: the core goes from `c0` to `c1` and `r` comes back.
pub open spec fn adda_32_pcdi_effect(c0: ConfiguredCore, c1: ConfiguredCore, r: Result<Cycles>) -> bool {
    exists|mid: ConfiguredCore, src: Result<u32>|
        #[trigger] operator::pcdi_32_rel(c0, mid, src) && match src {
            Err(e) => r == Err::<Cycles, Exception>(e) && c1 == mid,
            Ok(v) => {
                let reg = ir_ax(mid.ir);
                &&& r == Ok::<Cycles, Exception>(Cycles(18))
                &&& reg_set(mid, c1, reg, wadd(mid.dar[reg], v))
            },
        }
}

/// ADDA: the source, as a long word, added to Ax; no flag changes.
pub fn adda_32_pcdi(core: &mut ConfiguredCore) -> (r: Result<Cycles>)
    requires
        old(core).wf(),
    ensures
        final(core).wf(),
        adda_32_pcdi_effect(*old(core), *final(core), r),
{
    let ghost c0 = *core;
    let src = operator::pcdi_32(core);
    let ghost mid = *core;
    assert(operator::pcdi_32_rel(c0, mid, src));
    match src {
        Err(e) => Err(e),
        Ok(v) => {
            let reg = reg_ax(core.ir);
            let dst = core.dar[reg];
            let x: u32 = v;
            assert(dst.wrapping_add(x) == wadd(dst, x));
            set_reg(core, reg, dst.wrapping_add(x));
            Ok(Cycles(18))
        },
    }
}

/// What `adda_32_pcix` does: the core goes from `c0` to `c1` and `r` comes back.
pub open spec fn adda_32_pcix_effect(c0: ConfiguredCore, c1: ConfiguredCore, r: Result<Cycles>) -> bool {
    exists|mid: ConfiguredCore, src: Result<u32>|
        #[trigger] operator::pcix_32_rel(c0, mid, src) && match src {
            Err(e) => r == Err::<Cycles, Exception>(e) && c1 == mid,
            Ok(v) => {
                let reg = ir_ax(mid.ir);
                &&& r == Ok::<Cycles, Exception>(Cycles(20))
                &&& reg_set(mid, c1, reg, wadd(mid.dar[reg], v))
            },
        }
}

/// ADDA: the source, as a long word, added to Ax; no flag changes.
pub fn adda_32_pcix(core: &mut ConfiguredCore) -> (r: Result<Cycles>)
    requires
        old(core).wf(),
    ensures
        final(core).wf(),
        adda_32_pcix_effect(*old(core), *final(core), r),
{
    let ghost c0 = *core;
    let src = operator::pcix_32(core);
    let ghost mid = *core;
    assert(operator::pcix_32_rel(c0, mid, src));
    match src {
        Err(e) => Err(e),
        Ok(v) => {
            let reg = reg_ax(core.ir);
            let dst = core.dar[reg];
            let x: u32 = v;
            assert(dst.wrapping_add(x) == wadd(dst, x));
            set_reg(core, reg, dst.wrapping_add(x));
            Ok(Cycles(20))
        },
    }
}

/// What `adda_32_imm` does: the core goes from `c0` to `c1` and `r` comes back.
pub open spec fn adda_32_imm_effect(c0: ConfiguredCore, c1: ConfiguredCore, r: Result<Cycles>) -> bool {
    exists|mid: ConfiguredCore, src: Result<u32>|
        #[trigger] operator::imm_32_rel(c0, mid, src) && match src {
            Err(e) => r == Err::<Cycles, Exception>(e) && c1 == mid,
            Ok(v) => {
                let reg = ir_ax(mid.ir);
                &&& r == Ok::<Cycles, Exception>(Cycles(16))
                &&& reg_set(mid, c1, reg, wadd(mid.dar[reg], v))
            },
        }
}

/// ADDA: the source, as a long word, added to Ax; no flag changes.
pub fn adda_32_imm(core: &mut ConfiguredCore) -> (r: Result<Cycles>)
    requires
        old(core).wf(),
    ensures
        final(core).wf(),
        adda_32_imm_effect(*old(core), *final(core), r),
{
    let ghost c0 = *core;
    let src = operator::imm_32(core);
    let ghost mid = *core;
    assert(operator::imm_32_rel(c0, mid, src));
    match src {
        Err(e) => Err(e),
        Ok(v) => {
            let reg = reg_ax(core.ir);
            let dst = core.dar[reg];
            let x: u32 = v;
            assert(dst.wrapping_add(x) == wadd(dst, x));
            set_reg(core, reg, dst.wrapping_add(x));
            Ok(Cycles(16))
        },
    }
}

/// What `cmpa_16_dn` does: the core goes from `c0` to `c1` and `r` comes back.
pub open spec fn cmpa_16_dn_effect(c0: ConfiguredCore, c1: ConfiguredCore, r: Result<Cycles>) -> bool {
    exists|mid: ConfiguredCore, src: Result<u32>|
        #[trigger] operator::dy_rel(c0, mid, src) && match src {
            Err(e) => r == Err::<Cycles, Exception>(e) && c1 == mid,
            Ok(v) => {
                r == Ok::<Cycles, Exception>(Cycles(6)) && c1 == common::compare_32_outcome(mid, mid.dar[ir_ax(mid.ir)], word_as_long(v)).0
            },
        }
}

/// CMPA: the source, as a long word, compared with Ax; only the flags change.
pub fn cmpa_16_dn(core: &mut ConfiguredCore) -> (r: Result<Cycles>)
    requires
        old(core).wf(),
    ensures
        final(core).wf(),
        cmpa_16_dn_effect(*old(core), *final(core), r),
{
    let ghost c0 = *core;
    let src = operator::dy(core);
    let ghost mid = *core;
    assert(operator::dy_rel(c0, mid, src));
    match src {
        Err(e) => Err(e),
        Ok(v) => {
            let dst = core.dar[reg_ax(core.ir)];
            let _ = common::cmp_32(core, dst, extend_word(v));
            Ok(Cycles(6))
        },
    }
}

/// What `cmpa_16_an` does: the core goes from `c0` to `c1` and `r` comes back.
pub open spec fn cmpa_16_an_effect(c0: ConfiguredCore, c1: ConfiguredCore, r: Result<Cycles>) -> bool {
    exists|mid: ConfiguredCore, src: Result<u32>|
        #[trigger] operator::ay_rel(c0, mid, src) && match src {
            Err(e) => r == Err::<Cycles, Exception>(e) && c1 == mid,
            Ok(v) => {
                r == Ok::<Cycles, Exception>(Cycles(6)) && c1 == common::compare_32_outcome(mid, mid.dar[ir_ax(mid.ir)], word_as_long(v)).0
            },
        }
}

/// CMPA: the source, as a long word, compared with Ax; only the flags change.
pub fn cmpa_16_an(core: &mut ConfiguredCore) -> (r: Result<Cycles>)
    requires
        old(core).wf(),
    ensures
        final(core).wf(),
        cmpa_16_an_effect(*old(core), *final(core), r),
{
    let ghost c0 = *core;
    let src = operator::ay(core);
    let ghost mid = *core;
    assert(operator::ay_rel(c0, mid, src));
    match src {
        Err(e) => Err(e),
        Ok(v) => {
            let dst = core.dar[reg_ax(core.ir)];
            let _ = common::cmp_32(core, dst, extend_word(v));
            Ok(Cycles(6))
        },
    }
}

/// What `cmpa_16_ai` does: the core goes from `c0` to `c1` and `r` comes back.
pub open spec fn cmpa_16_ai_effect(c0: ConfiguredCore, c1: ConfiguredCore, r: Result<Cycles>) -> bool {
    exists|mid: ConfiguredCore, src: Result<u32>|
        #[trigger] operator::ay_ai_16_rel(c0, mid, src) && match src {
            Err(e) => r == Err::<Cycles, Exception>(e) && c1 == mid,
            Ok(v) => {
                r == Ok::<Cycles, Exception>(Cycles(10)) && c1 == common::compare_32_outcome(mid, mid.dar[ir_ax(mid.ir)], word_as_long(v)).0
            },
        }
}

/// CMPA: the source, as a long word, compared with Ax; only the flags change.
pub fn cmpa_16_ai(core: &mut ConfiguredCore) -> (r: Result<Cycles>)
    requires
        old(core).wf(),
    ensures
        final(core).wf(),
        cmpa_16_ai_effect(*old(core), *final(core), r),
{
    let ghost c0 = *core;
    let src = operator::ay_ai_16(core);
    let ghost mid = *core;
    assert(operator::ay_ai_16_rel(c0, mid, src));
    match src {
        Err(e) => Err(e),
        Ok(v) => {
            let dst = core.dar[reg_ax(core.ir)];
            let _ = common::cmp_32(core, dst, extend_word(v));
            Ok(Cycles(10))
        },
    }
}

/// What `cmpa_16_pi` does: the core goes from `c0` to `c1` and `r` comes back.
pub open spec fn cmpa_16_pi_effect(c0: ConfiguredCore, c1: ConfiguredCore, r: Result<Cycles>) -> bool {
    exists|mid: ConfiguredCore, src: Result<u32>|
        #[trigger] operator::ay_pi_16_rel(c0, mid, src) && match src {
            Err(e) => r == Err::<Cycles, Exception>(e) && c1 == mid,
            Ok(v) => {
                r == Ok::<Cycles, Exception>(Cycles(10)) && c1 == common::compare_32_outcome(mid, mid.dar[ir_ax(mid.ir)], word_as_long(v)).0
            },
        }
}

/// CMPA: the source, as a long word, compared with Ax; only the flags change.
pub fn cmpa_16_pi(core: &mut ConfiguredCore) -> (r: Result<Cycles>)
    requires
        old(core).wf(),
    ensures
        final(core).wf(),
        cmpa_16_pi_effect(*old(core), *final(core), r),
{
    let ghost c0 = *core;
    let src = operator::ay_pi_16(core);
    let ghost mid = *core;
    assert(operator::ay_pi_16_rel(c0, mid, src));
    match src {
        Err(e) => Err(e),
        Ok(v) => {
            let dst = core.dar[reg_ax(core.ir)];
            let _ = common::cmp_32(core, dst, extend_word(v));
            Ok(Cycles(10))
        },
    }
}

/// What `cmpa_16_pd` does: the core goes from `c0` to `c1` and `r` comes back.
pub open spec fn cmpa_16_pd_effect(c0: ConfiguredCore, c1: ConfiguredCore, r: Result<Cycles>) -> bool {
    exists|mid: ConfiguredCore, src: Result<u32>|
        #[trigger] operator::ay_pd_16_rel(c0, mid, src) && match src {
            Err(e) => r == Err::<Cycles, Exception>(e) && c1 == mid,
            Ok(v) => {
                r == Ok::<Cycles, Exception>(Cycles(12)) && c1 == common::compare_32_outcome(mid, mid.dar[ir_ax(mid.ir)], word_as_long(v)).0
            },
        }
}

/// CMPA: the source, as a long word, compared with Ax; only the flags change.
pub fn cmpa_16_pd(core: &mut ConfiguredCore) -> (r: Result<Cycles>)
    requires
        old(core).wf(),
    ensures
        final(core).wf(),
        cmpa_16_pd_effect(*old(core), *final(core), r),
{
    let ghost c0 = *core;
    let src = operator::ay_pd_16(core);
    let ghost mid = *core;
    assert(operator::ay_pd_16_rel(c0, mid, src));
    match src {
        Err(e) => Err(e),
        Ok(v) => {
            let dst = core.dar[reg_ax(core.ir)];
            let _ = common::cmp_32(core, dst, extend_word(v));
            Ok(Cycles(12))
        },
    }
}

/// What `cmpa_16_di` does: the core goes from `c0` to `c1` and `r` comes back.
pub open spec fn cmpa_16_di_effect(c0: ConfiguredCore, c1: ConfiguredCore, r: Result<Cycles>) -> bool {
    exists|mid: ConfiguredCore, src: Result<u32>|
        #[trigger] operator::ay_di_16_rel(c0, mid, src) && match src {
            Err(e) => r == Err::<Cycles, Exception>(e) && c1 == mid,
            Ok(v) => {
                r == Ok::<Cycles, Exception>(Cycles(14)) && c1 == common::compare_32_outcome(mid, mid.dar[ir_ax(mid.ir)], word_as_long(v)).0
            },
        }
}

/// CMPA: the source, as a long word, compared with Ax; only the flags change.
pub fn cmpa_16_di(core: &mut ConfiguredCore) -> (r: Result<Cycles>)
    requires
        old(core).wf(),
    ensures
        final(core).wf(),
        cmpa_16_di_effect(*old(core), *final(core), r),
{
    let ghost c0 = *core;
    let src = operator::ay_di_16(core);
    let ghost mid = *core;
    assert(operator::ay_di_16_rel(c0, mid, src));
    match src {
        Err(e) => Err(e),
        Ok(v) => {
            let dst = core.dar[reg_ax(core.ir)];
            let _ = common::cmp_32(core, dst, extend_word(v));
            Ok(Cycles(14))
        },
    }
}

/// What `cmpa_16_ix` does: the core goes from `c0` to `c1` and `r` comes back.
pub open spec fn cmpa_16_ix_effect(c0: ConfiguredCore, c1: ConfiguredCore, r: Result<Cycles>) -> bool {
    exists|mid: ConfiguredCore, src: Result<u32>|
        #[trigger] operator::ay_ix_16_rel(c0, mid, src) && match src {
            Err(e) => r == Err::<Cycles, Exception>(e) && c1 == mid,
            Ok(v) => {
                r == Ok::<Cycles, Exception>(Cycles(16)) && c1 == common::compare_32_outcome(mid, mid.dar[ir_ax(mid.ir)], word_as_long(v)).0
            },
        }
}

/// CMPA: the source, as a long word, compared with Ax; only the flags change.
pub fn cmpa_16_ix(core: &mut ConfiguredCore) -> (r: Result<Cycles>)
    requires
        old(core).wf(),
    ensures
        final(core).wf(),
        cmpa_16_ix_effect(*old(core), *final(core), r),
{
    let ghost c0 = *core;
    let src = operator::ay_ix_16(core);
    let ghost mid = *core;
    assert(operator::ay_ix_16_rel(c0, mid, src));
    match src {
        Err(e) => Err(e),
        Ok(v) => {
            let dst = core.dar[reg_ax(core.ir)];
            let _ = common::cmp_32(core, dst, extend_word(v));
            Ok(Cycles(16))
        },
    }
}

/// What `cmpa_16_aw` does: the core goes from `c0` to `c1` and `r` comes back.
pub open spec fn cmpa_16_aw_effect(c0: ConfiguredCore, c1: ConfiguredCore, r: Result<Cycles>) -> bool {
    exists|mid: ConfiguredCore, src: Result<u32>|
        #[trigger] operator::aw_16_rel(c0, mid, src) && match src {
            Err(e) => r == Err::<Cycles, Exception>(e) && c1 == mid,
            Ok(v) => {
                r == Ok::<Cycles, Exception>(Cycles(14)) && c1 == common::compare_32_outcome(mid, mid.dar[ir_ax(mid.ir)], word_as_long(v)).0
            },
        }
}

/// CMPA: the source, as a long word, compared with Ax; only the flags change.
pub fn cmpa_16_aw(core: &mut ConfiguredCore) -> (r: Result<Cycles>)
    requires
        old(core).wf(),
    ensures
        final(core).wf(),
        cmpa_16_aw_effect(*old(core), *final(core), r),
{
    let ghost c0 = *core;
    let src = operator::aw_16(core);
    let ghost mid = *core;
    assert(operator::aw_16_rel(c0, mid, src));
    match src {
        Err(e) => Err(e),
        Ok(v) => {
            let dst = core.dar[reg_ax(core.ir)];
            let _ = common::cmp_32(core, dst, extend_word(v));
            Ok(Cycles(14))
        },
    }
}

/// What `cmpa_16_al` does: the core goes from `c0` to `c1` and `r` comes back.
pub open spec fn cmpa_16_al_effect(c0: ConfiguredCore, c1: ConfiguredCore, r: Result<Cycles>) -> bool {
    exists|mid: ConfiguredCore, src: Result<u32>|
        #[trigger] operator::al_16_rel(c0, mid, src) && match src {
            Err(e) => r == Err::<Cycles, Exception>(e) && c1 == mid,
            Ok(v) => {
                r == Ok::<Cycles, Exception>(Cycles(18)) && c1 == common::compare_32_outcome(mid, mid.dar[ir_ax(mid.ir)], word_as_long(v)).0
            },
        }
}

/// CMPA: the source, as a long word, compared with Ax; only the flags change.
pub fn cmpa_16_al(core: &mut ConfiguredCore) -> (r: Result<Cycles>)
    requires
        old(core).wf(),
    ensures
        final(core).wf(),
        cmpa_16_al_effect(*old(core), *final(core), r),
{
    let ghost c0 = *core;
    let src = operator::al_16(core);
    let ghost mid = *core;
    assert(operator::al_16_rel(c0, mid, src));
    match src {
        Err(e) => Err(e),
        Ok(v) => {
            let dst = core.dar[reg_ax(core.ir)];
            let _ = common::cmp_32(core, dst, extend_word(v));
            Ok(Cycles(18))
        },
    }
}

/// What `cmpa_16_pcdi` does: the core goes from `c0` to `c1` and `r` comes back.
pub open spec fn cmpa_16_pcdi_effect(c0: ConfiguredCore, c1: ConfiguredCore, r: Result<Cycles>) -> bool {
    exists|mid: ConfiguredCore, src: Result<u32>|
        #[trigger] operator::pcdi_16_rel(c0, mid, src) && match src {
            Err(e) => r == Err::<Cycles, Exception>(e) && c1 == mid,
            Ok(v) => {
                r == Ok::<Cycles, Exception>(Cycles(14)) && c1 == common::compare_32_outcome(mid, mid.dar[ir_ax(mid.ir)], word_as_long(v)).0
            },
        }
}

/// CMPA: the source, as a long word, compared with Ax; only the flags change.
pub fn cmpa_16_pcdi(core: &mut ConfiguredCore) -> (r: Result<Cycles>)
    requires
        old(core).wf(),
    ensures
        final(core).wf(),
        cmpa_16_pcdi_effect(*old(core), *final(core), r),
{
    let ghost c0 = *core;
    let src = operator::pcdi_16(core);
    let ghost mid = *core;
    assert(operator::pcdi_16_rel(c0, mid, src));
    match src {
        Err(e) => Err(e),
        Ok(v) => {
            let dst = core.dar[reg_ax(core.ir)];
            let _ = common::cmp_32(core, dst, extend_word(v));
            Ok(Cycles(14))
        },
    }
}

/// What `cmpa_16_pcix` does: the core goes from `c0` to `c1` and `r` comes back.
pub open spec fn cmpa_16_pcix_effect(c0: ConfiguredCore, c1: ConfiguredCore, r: Result<Cycles>) -> bool {
    exists|mid: ConfiguredCore, src: Result<u32>|
        #[trigger] operator::pcix_16_rel(c0, mid, src) && match src {
            Err(e) => r == Err::<Cycles, Exception>(e) && c1 == mid,
            Ok(v) => {
                r == Ok::<Cycles, Exception>(Cycles(16)) && c1 == common::compare_32_outcome(mid, mid.dar[ir_ax(mid.ir)], word_as_long(v)).0
            },
        }
}

/// CMPA: the source, as a long word, compared with Ax; only the flags change.
pub fn cmpa_16_pcix(core: &mut ConfiguredCore) -> (r: Result<Cycles>)
    requires
        old(core).wf(),
    ensures
        final(core).wf(),
        cmpa_16_pcix_effect(*old(core), *final(core), r),
{
    let ghost c0 = *core;
    let src = operator::pcix_16(core);
    let ghost mid = *core;
    assert(operator::pcix_16_rel(c0, mid, src));
    match src {
        Err(e) => Err(e),
        Ok(v) => {
            let dst = core.dar[reg_ax(core.ir)];
            let _ = common::cmp_32(core, dst, extend_word(v));
            Ok(Cycles(16))
        },
    }
}

/// What `cmpa_16_imm` does: the core goes from `c0` to `c1` and `r` comes back.
pub open spec fn cmpa_16_imm_effect(c0: ConfiguredCore, c1: ConfiguredCore, r: Result<Cycles>) -> bool {
    exists|mid: ConfiguredCore, src: Result<u32>|
        #[trigger] operator::imm_16_rel(c0, mid, src) && match src {
            Err(e) => r == Err::<Cycles, Exception>(e) && c1 == mid,
            Ok(v) => {
                r == Ok::<Cycles, Exception>(Cycles(10)) && c1 == common::compare_32_outcome(mid, mid.dar[ir_ax(mid.ir)], word_as_long(v)).0
            },
        }
}

/// CMPA: the source, as a long word, compared with Ax; only the flags change.
pub fn cmpa_16_imm(core: &mut ConfiguredCore) -> (r: Result<Cycles>)
    requires
        old(core).wf(),
    ensures
        final(core).wf(),
        cmpa_16_imm_effect(*old(core), *final(core), r),
{
    let ghost c0 = *core;
    let src = operator::imm_16(core);
    let ghost mid = *core;
    assert(operator::imm_16_rel(c0, mid, src));
    match src {
        Err(e) => Err(e),
        Ok(v) => {
            let dst = core.dar[reg_ax(core.ir)];
            let _ = common::cmp_32(core, dst, extend_word(v));
            Ok(Cycles(10))
        },
    }
}

/// What `cmpa_32_dn` does: the core goes from `c0` to `c1` and `r` comes back.
pub open spec fn cmpa_32_dn_effect(c0: ConfiguredCore, c1: ConfiguredCore, r: Result<Cycles>) -> bool {
    exists|mid: ConfiguredCore, src: Result<u32>|
        #[trigger] operator::dy_rel(c0, mid, src) && match src {
            Err(e) => r == Err::<Cycles, Exception>(e) && c1 == mid,
            Ok(v) => {
                r == Ok::<Cycles, Exception>(Cycles(6)) && c1 == common::compare_32_outcome(mid, mid.dar[ir_ax(mid.ir)], v).0
            },
        }
}

/// CMPA: the source, as a long word, compared with Ax; only the flags change.
pub fn cmpa_32_dn(core: &mut ConfiguredCore) -> (r: Result<Cycles>)
    requires
        old(core).wf(),
    ensures
        final(core).wf(),
        cmpa_32_dn_effect(*old(core), *final(core), r),
{
    let ghost c0 = *core;
    let src = operator::dy(core);
    let ghost mid = *core;
    assert(operator::dy_rel(c0, mid, src));
    match src {
        Err(e) => Err(e),
        Ok(v) => {
            let dst = core.dar[reg_ax(core.ir)];
            let _ = common::cmp_32(core, dst, v);
            Ok(Cycles(6))
        },
    }
}

/// What `cmpa_32_an` does: the core goes from `c0` to `c1` and `r` comes back.
pub open spec fn cmpa_32_an_effect(c0: ConfiguredCore, c1: ConfiguredCore, r: Result<Cycles>) -> bool {
    exists|mid: ConfiguredCore, src: Result<u32>|
        #[trigger] operator::ay_rel(c0, mid, src) && match src {
            Err(e) => r == Err::<Cycles, Exception>(e) && c1 == mid,
            Ok(v) => {
                r == Ok::<Cycles, Exception>(Cycles(6)) && c1 == common::compare_32_outcome(mid, mid.dar[ir_ax(mid.ir)], v).0
            },
        }
}

/// CMPA: the source, as a long word, compared with Ax; only the flags change.
pub fn cmpa_32_an(core: &mut ConfiguredCore) -> (r: Result<Cycles>)
    requires
        old(core).wf(),
    ensures
        final(core).wf(),
        cmpa_32_an_effect(*old(core), *final(core), r),
{
    let ghost c0 = *core;
    let src = operator::ay(core);
    let ghost mid = *core;
    assert(operator::ay_rel(c0, mid, src));
    match src {
        Err(e) => Err(e),
        Ok(v) => {
            let dst = core.dar[reg_ax(core.ir)];
            let _ = common::cmp_32(core, dst, v);
            Ok(Cycles(6))
        },
    }
}

/// What `cmpa_32_ai` does: the core goes from `c0` to `c1` and `r` comes back.
pub open spec fn cmpa_32_ai_effect(c0: ConfiguredCore, c1: ConfiguredCore, r: Result<Cycles>) -> bool {
    exists|mid: ConfiguredCore, src: Result<u32>|
        #[trigger] operator::ay_ai_32_rel(c0, mid, src) && match src {
            Err(e) => r == Err::<Cycles, Exception>(e) && c1 == mid,
            Ok(v) => {
                r == Ok::<Cycles, Exception>(Cycles(14)) && c1 == common::compare_32_outcome(mid, mid.dar[ir_ax(mid.ir)], v).0
            },
        }
}

/// CMPA: the source, as a long word, compared with Ax; only the flags change.
pub fn cmpa_32_ai(core: &mut ConfiguredCore) -> (r: Result<Cycles>)
    requires
        old(core).wf(),
    ensures
        final(core).wf(),
        cmpa_32_ai_effect(*old(core), *final(core), r),
{
    let ghost c0 = *core;
    let src = operator::ay_ai_32(core);
    let ghost mid = *core;
    assert(operator::ay_ai_32_rel(c0, mid, src));
    match src {
        Err(e) => Err(e),
        Ok(v) => {
            let dst = core.dar[reg_ax(core.ir)];
            let _ = common::cmp_32(core, dst, v);
            Ok(Cycles(14))
        },
    }
}

/// What `cmpa_32_pi` does: the core goes from `c0` to `c1` and `r` comes back.
pub open spec fn cmpa_32_pi_effect(c0: ConfiguredCore, c1: ConfiguredCore, r: Result<Cycles>) -> bool {
    exists|mid: ConfiguredCore, src: Result<u32>|
        #[trigger] operator::ay_pi_32_rel(c0, mid, src) && match src {
            Err(e) => r == Err::<Cycles, Exception>(e) && c1 == mid,
            Ok(v) => {
                r == Ok::<Cycles, Exception>(Cycles(14)) && c1 == common::compare_32_outcome(mid, mid.dar[ir_ax(mid.ir)], v).0
            },
        }
}

/// CMPA: the source, as a long word, compared with Ax; only the flags change.
pub fn cmpa_32_pi(core: &mut ConfiguredCore) -> (r: Result<Cycles>)
    requires
        old(core).wf(),
    ensures
        final(core).wf(),
        cmpa_32_pi_effect(*old(core), *final(core), r),
{
    let ghost c0 = *core;
    let src = operator::ay_pi_32(core);
    let ghost mid = *core;
    assert(operator::ay_pi_32_rel(c0, mid, src));
    match src {
        Err(e) => Err(e),
        Ok(v) => {
            let dst = core.dar[reg_ax(core.ir)];
            let _ = common::cmp_32(core, dst, v);
            Ok(Cycles(14))
        },
    }
}

/// What `cmpa_32_pd` does: the core goes from `c0` to `c1` and `r` comes back.
pub open spec fn cmpa_32_pd_effect(c0: ConfiguredCore, c1: ConfiguredCore, r: Result<Cycles>) -> bool {
    exists|mid: ConfiguredCore, src: Result<u32>|
        #[trigger] operator::ay_pd_32_rel(c0, mid, src) && match src {
            Err(e) => r == Err::<Cycles, Exception>(e) && c1 == mid,
            Ok(v) => {
                r == Ok::<Cycles, Exception>(Cycles(16)) && c1 == common::compare_32_outcome(mid, mid.dar[ir_ax(mid.ir)], v).0
            },
        }
}

/// CMPA: the source, as a long word, compared with Ax; only the flags change.
pub fn cmpa_32_pd(core: &mut ConfiguredCore) -> (r: Result<Cycles>)
    requires
        old(core).wf(),
    ensures
        final(core).wf(),
        cmpa_32_pd_effect(*old(core), *final(core), r),
{
    let ghost c0 = *core;
    let src = operator::ay_pd_32(core);
    let ghost mid = *core;
    assert(operator::ay_pd_32_rel(c0, mid, src));
    match src {
        Err(e) => Err(e),
        Ok(v) => {
            let dst = core.dar[reg_ax(core.ir)];
            let _ = common::cmp_32(core, dst, v);
            Ok(Cycles(16))
        },
    }
}

/// What `cmpa_32_di` does: the core goes from `c0` to `c1` and `r` comes back.
pub open spec fn cmpa_32_di_effect(c0: ConfiguredCore, c1: ConfiguredCore, r: Result<Cycles>) -> bool {
    exists|mid: ConfiguredCore, src: Result<u32>|
        #[trigger] operator::ay_di_32_rel(c0, mid, src) && match src {
            Err(e) => r == Err::<Cycles, Exception>(e) && c1 == mid,
            Ok(v) => {
                r == Ok::<Cycles, Exception>(Cycles(18)) && c1 == common::compare_32_outcome(mid, mid.dar[ir_ax(mid.ir)], v).0
            },
        }
}

/// CMPA: the source, as a long word, compared with Ax; only the flags change.
pub fn cmpa_32_di(core: &mut ConfiguredCore) -> (r: Result<Cycles>)
    requires
        old(core).wf(),
    ensures
        final(core).wf(),
        cmpa_32_di_effect(*old(core), *final(core), r),
{
    let ghost c0 = *core;
    let src = operator::ay_di_32(core);
    let ghost mid = *core;
    assert(operator::ay_di_32_rel(c0, mid, src));
    match src {
        Err(e) => Err(e),
        Ok(v) => {
            let dst = core.dar[reg_ax(core.ir)];
            let _ = common::cmp_32(core, dst, v);
            Ok(Cycles(18))
        },
    }
}

/// What `cmpa_32_ix` does: the core goes from `c0` to `c1` and `r` comes back.
pub open spec fn cmpa_32_ix_effect(c0: ConfiguredCore, c1: ConfiguredCore, r: Result<Cycles>) -> bool {
    exists|mid: ConfiguredCore, src: Result<u32>|
        #[trigger] operator::ay_ix_32_rel(c0, mid, src) && match src {
            Err(e) => r == Err::<Cycles, Exception>(e) && c1 == mid,
            Ok(v) => {
                r == Ok::<Cycles, Exception>(Cycles(20)) && c1 == common::compare_32_outcome(mid, mid.dar[ir_ax(mid.ir)], v).0
            },
        }
}

/// CMPA: the source, as a long word, compared with Ax; only the flags change.
pub fn cmpa_32_ix(core: &mut ConfiguredCore) -> (r: Result<Cycles>)
    requires
        old(core).wf(),
    ensures
        final(core).wf(),
        cmpa_32_ix_effect(*old(core), *final(core), r),
{
    let ghost c0 = *core;
    let src = operator::ay_ix_32(core);
    let ghost mid = *core;
    assert(operator::ay_ix_32_rel(c0, mid, src));
    match src {
        Err(e) => Err(e),
        Ok(v) => {
            let dst = core.dar[reg_ax(core.ir)];
            let _ = common::cmp_32(core, dst, v);
            Ok(Cycles(20))
        },
    }
}

/// What `cmpa_32_aw` does: the core goes from `c0` to `c1` and `r` comes back.
pub open spec fn cmpa_32_aw_effect(c0: ConfiguredCore, c1: ConfiguredCore, r: Result<Cycles>) -> bool {
    exists|mid: ConfiguredCore, src: Result<u32>|
        #[trigger] operator::aw_32_rel(c0, mid, src) && match src {
            Err(e) => r == Err::<Cycles, Exception>(e) && c1 == mid,
            Ok(v) => {
                r == Ok::<Cycles, Exception>(Cycles(18)) && c1 == common::compare_32_outcome(mid, mid.dar[ir_ax(mid.ir)], v).0
            },
        }
}

/// CMPA: the source, as a long word, compared with Ax; only the flags change.
pub fn cmpa_32_aw(core: &mut ConfiguredCore) -> (r: Result<Cycles>)
    requires
        old(core).wf(),
    ensures
        final(core).wf(),
        cmpa_32_aw_effect(*old(core), *final(core), r),
{
    let ghost c0 = *core;
    let src = operator::aw_32(core);
    let ghost mid = *core;
    assert(operator::aw_32_rel(c0, mid, src));
    match src {
        Err(e) => Err(e),
        Ok(v) => {
            let dst = core.dar[reg_ax(core.ir)];
            let _ = common::cmp_32(core, dst, v);
            Ok(Cycles(18))
        },
    }
}

/// What `cmpa_32_al` does: the core goes from `c0` to `c1` and `r` comes back.
pub open spec fn cmpa_32_al_effect(c0: ConfiguredCore, c1: ConfiguredCore, r: Result<Cycles>) -> bool {
    exists|mid: ConfiguredCore, src: Result<u32>|
        #[trigger] operator::al_32_rel(c0, mid, src) && match src {
            Err(e) => r == Err::<Cycles, Exception>(e) && c1 == mid,
            Ok(v) => {
                r == Ok::<Cycles, Exception>(Cycles(22)) && c1 == common::compare_32_outcome(mid, mid.dar[ir_ax(mid.ir)], v).0
            },
        }
}

/// CMPA: the source, as a long word, compared with Ax; only the flags change.
pub fn cmpa_32_al(core: &mut ConfiguredCore) -> (r: Result<Cycles>)
    requires
        old(core).wf(),
    ensures
        final(core).wf(),
        cmpa_32_al_effect(*old(core), *final(core), r),
{
    let ghost c0 = *core;
    let src = operator::al_32(core);
    let ghost mid = *core;
    assert(operator::al_32_rel(c0, mid, src));
    match src {
        Err(e) => Err(e),
        Ok(v) => {
            let dst = core.dar[reg_ax(core.ir)];
            let _ = common::cmp_32(core, dst, v);
            Ok(Cycles(22))
        },
    }
}

/// What `cmpa_32_pcdi` does: the core goes from `c0` to `c1` and `r` comes back.
pub open spec fn cmpa_32_pcdi_effect(c0: ConfiguredCore, c1: ConfiguredCore, r: Result<Cycles>) -> bool {
    exists|mid: ConfiguredCore, src: Result<u32>|
        #[trigger] operator::pcdi_32_rel(c0, mid, src) && match src {
            Err(e) => r == Err::<Cycles, Exception>(e) && c1 == mid,
            Ok(v) => {
                r == Ok::<Cycles, Exception>(Cycles(18)) && c1 == common::compare_32_outcome(mid, mid.dar[ir_ax(mid.ir)], v).0
            },
        }
}

/// CMPA: the source, as a long word, compared with Ax; only the flags change.
pub fn cmpa_32_pcdi(core: &mut ConfiguredCore) -> (r: Result<Cycles>)
    requires
        old(core).wf(),
    ensures
        final(core).wf(),
        cmpa_32_pcdi_effect(*old(core), *final(core), r),
{
    let ghost c0 = *core;
    let src = operator::pcdi_32(core);
    let ghost mid = *core;
    assert(operator::pcdi_32_rel(c0, mid, src));
    match src {
        Err(e) => Err(e),
        Ok(v) => {
            let dst = core.dar[reg_ax(core.ir)];
            let _ = common::cmp_32(core, dst, v);
            Ok(Cycles(18))
        },
    }
}

/// What `cmpa_32_pcix` does: the core goes from `c0` to `c1` and `r` comes back.
pub open spec fn cmpa_32_pcix_effect(c0: ConfiguredCore, c1: ConfiguredCore, r: Result<Cycles>) -> bool {
    exists|mid: ConfiguredCore, src: Result<u32>|
        #[trigger] operator::pcix_32_rel(c0, mid, src) && match src {
            Err(e) => r == Err::<Cycles, Exception>(e) && c1 == mid,
            Ok(v) => {
                r == Ok::<Cycles, Exception>(Cycles(20)) && c1 == common::compare_32_outcome(mid, mid.dar[ir_ax(mid.ir)], v).0
            },
        }
}

/// CMPA: the source, as a long word, compared with Ax; only the flags change.
pub fn cmpa_32_pcix(core: &mut ConfiguredCore) -> (r: Result<Cycles>)
    requires
        old(core).wf(),
    ensures
        final(core).wf(),
        cmpa_32_pcix_effect(*old(core), *final(core), r),
{
    let ghost c0 = *core;
    let src = operator::pcix_32(core);
    let ghost mid = *core;
    assert(operator::pcix_32_rel(c0, mid, src));
    match src {
        Err(e) => Err(e),
        Ok(v) => {
            let dst = core.dar[reg_ax(core.ir)];
            let _ = common::cmp_32(core, dst, v);
            Ok(Cycles(20))
        },
    }
}

/// What `cmpa_32_imm` does: the core goes from `c0` to `c1` and `r` comes back.
pub open spec fn cmpa_32_imm_effect(c0: ConfiguredCore, c1: ConfiguredCore, r: Result<Cycles>) -> bool {
    exists|mid: ConfiguredCore, src: Result<u32>|
        #[trigger] operator::imm_32_rel(c0, mid, src) && match src {
            Err(e) => r == Err::<Cycles, Exception>(e) && c1 == mid,
            Ok(v) => {
                r == Ok::<Cycles, Exception>(Cycles(14)) && c1 == common::compare_32_outcome(mid, mid.dar[ir_ax(mid.ir)], v).0
            },
        }
}

/// CMPA: the source, as a long word, compared with Ax; only the flags change.
pub fn cmpa_32_imm(core: &mut ConfiguredCore) -> (r: Result<Cycles>)
    requires
        old(core).wf(),
    ensures
        final(core).wf(),
        cmpa_32_imm_effect(*old(core), *final(core), r),
{
    let ghost c0 = *core;
    let src = operator::imm_32(core);
    let ghost mid = *core;
    assert(operator::imm_32_rel(c0, mid, src));
    match src {
        Err(e) => Err(e),
        Ok(v) => {
            let dst = core.dar[reg_ax(core.ir)];
            let _ = common::cmp_32(core, dst, v);
            Ok(Cycles(14))
        },
    }
}

/// What `divs_16_dn` does: the core goes from `c0` to `c1` and `r` comes back.
pub open spec fn divs_16_dn_effect(c0: ConfiguredCore, c1: ConfiguredCore, r: Result<Cycles>) -> bool {
    exists|mid: ConfiguredCore, src: Result<u32>|
        #[trigger] operator::dy_rel(c0, mid, src) && match src {
            Err(e) => r == Err::<Cycles, Exception>(e) && c1 == mid,
            Ok(v) => {
                if v as i16 != 0 {
                    r == Ok::<Cycles, Exception>(Cycles(158)) && common::divided(mid, c1, common::divs_16_outcome(mid, mid.dar[ir_dx(mid.ir)], v as i16))
                } else {
                    r == Err::<Cycles, Exception>(Exception::Trap(EXCEPTION_ZERO_DIVIDE, 38)) && c1 == mid
                }
            },
        }
}

/// DIVS: Dx divided by the source word; a zero divisor traps.
pub fn divs_16_dn(core: &mut ConfiguredCore) -> (r: Result<Cycles>)
    requires
        old(core).wf(),
    ensures
        final(core).wf(),
        divs_16_dn_effect(*old(core), *final(core), r),
{
    let ghost c0 = *core;
    let src = operator::dy(core);
    let ghost mid = *core;
    assert(operator::dy_rel(c0, mid, src));
    match src {
        Err(e) => Err(e),
        Ok(v) => {
            let s = v as i16;
            if s != 0 {
                let dst = core.dar[reg_dx(core.ir)];
                common::divs_16(core, dst, s);
                Ok(Cycles(158))
            } else {
                Err(Exception::Trap(EXCEPTION_ZERO_DIVIDE, 38))
            }
        },
    }
}

/// What `divs_16_ai` does: the core goes from `c0` to `c1` and `r` comes back.
pub open spec fn divs_16_ai_effect(c0: ConfiguredCore, c1: ConfiguredCore, r: Result<Cycles>) -> bool {
    exists|mid: ConfiguredCore, src: Result<u32>|
        #[trigger] operator::ay_ai_16_rel(c0, mid, src) && match src {
            Err(e) => r == Err::<Cycles, Exception>(e) && c1 == mid,
            Ok(v) => {
                if v as i16 != 0 {
                    r == Ok::<Cycles, Exception>(Cycles(162)) && common::divided(mid, c1, common::divs_16_outcome(mid, mid.dar[ir_dx(mid.ir)], v as i16))
                } else {
                    r == Err::<Cycles, Exception>(Exception::Trap(EXCEPTION_ZERO_DIVIDE, 42)) && c1 == mid
                }
            },
        }
}

/// DIVS: Dx divided by the source word; a zero divisor traps.
pub fn divs_16_ai(core: &mut ConfiguredCore) -> (r: Result<Cycles>)
    requires
        old(core).wf(),
    ensures
        final(core).wf(),
        divs_16_ai_effect(*old(core), *final(core), r),
{
    let ghost c0 = *core;
    let src = operator::ay_ai_16(core);
    let ghost mid = *core;
    assert(operator::ay_ai_16_rel(c0, mid, src));
    match src {
        Err(e) => Err(e),
        Ok(v) => {
            let s = v as i16;
            if s != 0 {
                let dst = core.dar[reg_dx(core.ir)];
                common::divs_16(core, dst, s);
                Ok(Cycles(162))
            } else {
                Err(Exception::Trap(EXCEPTION_ZERO_DIVIDE, 42))
            }
        },
    }
}

/// What `divs_16_pi` does: the core goes from `c0` to `c1` and `r` comes back.
pub open spec fn divs_16_pi_effect(c0: ConfiguredCore, c1: ConfiguredCore, r: Result<Cycles>) -> bool {
    exists|mid: ConfiguredCore, src: Result<u32>|
        #[trigger] operator::ay_pi_16_rel(c0, mid, src) && match src {
            Err(e) => r == Err::<Cycles, Exception>(e) && c1 == mid,
            Ok(v) => {
                if v as i16 != 0 {
                    r == Ok::<Cycles, Exception>(Cycles(162)) && common::divided(mid, c1, common::divs_16_outcome(mid, mid.dar[ir_dx(mid.ir)], v as i16))
                } else {
                    r == Err::<Cycles, Exception>(Exception::Trap(EXCEPTION_ZERO_DIVIDE, 42)) && c1 == mid
                }
            },
        }
}

/// DIVS: Dx divided by the source word; a zero divisor traps.
pub fn divs_16_pi(core: &mut ConfiguredCore) -> (r: Result<Cycles>)
    requires
        old(core).wf(),
    ensures
        final(core).wf(),
        divs_16_pi_effect(*old(core), *final(core), r),
{
    let ghost c0 = *core;
    let src = operator::ay_pi_16(core);
    let ghost mid = *core;
    assert(operator::ay_pi_16_rel(c0, mid, src));
    match src {
        Err(e) => Err(e),
        Ok(v) => {
            let s = v as i16;
            if s != 0 {
                let dst = core.dar[reg_dx(core.ir)];
                common::divs_16(core, dst, s);
                Ok(Cycles(162))
            } else {
                Err(Exception::Trap(EXCEPTION_ZERO_DIVIDE, 42))
            }
        },
    }
}

/// What `divs_16_pd` does: the core goes from `c0` to `c1` and `r` comes back.
pub open spec fn divs_16_pd_effect(c0: ConfiguredCore, c1: ConfiguredCore, r: Result<Cycles>) -> bool {
    exists|mid: ConfiguredCore, src: Result<u32>|
        #[trigger] operator::ay_pd_16_rel(c0, mid, src) && match src {
            Err(e) => r == Err::<Cycles, Exception>(e) && c1 == mid,
            Ok(v) => {
                if v as i16 != 0 {
                    r == Ok::<Cycles, Exception>(Cycles(164)) && common::divided(mid, c1, common::divs_16_outcome(mid, mid.dar[ir_dx(mid.ir)], v as i16))
                } else {
                    r == Err::<Cycles, Exception>(Exception::Trap(EXCEPTION_ZERO_DIVIDE, 44)) && c1 == mid
                }
            },
        }
}

/// DIVS: Dx divided by the source word; a zero divisor traps.
pub fn divs_16_pd(core: &mut ConfiguredCore) -> (r: Result<Cycles>)
    requires
        old(core).wf(),
    ensures
        final(core).wf(),
        divs_16_pd_effect(*old(core), *final(core), r),
{
    let ghost c0 = *core;
    let src = operator::ay_pd_16(core);
    let ghost mid = *core;
    assert(operator::ay_pd_16_rel(c0, mid, src));
    match src {
        Err(e) => Err(e),
        Ok(v) => {
            let s = v as i16;
            if s != 0 {
                let dst = core.dar[reg_dx(core.ir)];
                common::divs_16(core, dst, s);
                Ok(Cycles(164))
            } else {
                Err(Exception::Trap(EXCEPTION_ZERO_DIVIDE, 44))
            }
        },
    }
}

/// What `divs_16_di` does: the core goes from `c0` to `c1` and `r` comes back.
pub open spec fn divs_16_di_effect(c0: ConfiguredCore, c1: ConfiguredCore, r: Result<Cycles>) -> bool {
    exists|mid: ConfiguredCore, src: Result<u32>|
        #[trigger] operator::ay_di_16_rel(c0, mid, src) && match src {
            Err(e) => r == Err::<Cycles, Exception>(e) && c1 == mid,
            Ok(v) => {
                if v as i16 != 0 {
                    r == Ok::<Cycles, Exception>(Cycles(166)) && common::divided(mid, c1, common::divs_16_outcome(mid, mid.dar[ir_dx(mid.ir)], v as i16))
                } else {
                    r == Err::<Cycles, Exception>(Exception::Trap(EXCEPTION_ZERO_DIVIDE, 46)) && c1 == mid
                }
            },
        }
}

/// DIVS: Dx divided by the source word; a zero divisor traps.
pub fn divs_16_di(core: &mut ConfiguredCore) -> (r: Result<Cycles>)
    requires
        old(core).wf(),
    ensures
        final(core).wf(),
        divs_16_di_effect(*old(core), *final(core), r),
{
    let ghost c0 = *core;
    let src = operator::ay_di_16(core);
    let ghost mid = *core;
    assert(operator::ay_di_16_rel(c0, mid, src));
    match src {
        Err(e) => Err(e),
        Ok(v) => {
            let s = v as i16;
            if s != 0 {
                let dst = core.dar[reg_dx(core.ir)];
                common::divs_16(core, dst, s);
                Ok(Cycles(166))
            } else {
                Err(Exception::Trap(EXCEPTION_ZERO_DIVIDE, 46))
            }
        },
    }
}

/// What `divs_16_ix` does: the core goes from `c0` to `c1` and `r` comes back.
pub open spec fn divs_16_ix_effect(c0: ConfiguredCore, c1: ConfiguredCore, r: Result<Cycles>) -> bool {
    exists|mid: ConfiguredCore, src: Result<u32>|
        #[trigger] operator::ay_ix_16_rel(c0, mid, src) && match src {
            Err(e) => r == Err::<Cycles, Exception>(e) && c1 == mid,
            Ok(v) => {
                if v as i16 != 0 {
                    r == Ok::<Cycles, Exception>(Cycles(168)) && common::divided(mid, c1, common::divs_16_outcome(mid, mid.dar[ir_dx(mid.ir)], v as i16))
                } else {
                    r == Err::<Cycles, Exception>(Exception::Trap(EXCEPTION_ZERO_DIVIDE, 48)) && c1 == mid
                }
            },
        }
}

/// DIVS: Dx divided by the source word; a zero divisor traps.
pub fn divs_16_ix(core: &mut ConfiguredCore) -> (r: Result<Cycles>)
    requires
        old(core).wf(),
    ensures
        final(core).wf(),
        divs_16_ix_effect(*old(core), *final(core), r),
{
    let ghost c0 = *core;
    let src = operator::ay_ix_16(core);
    let ghost mid = *core;
    assert(operator::ay_ix_16_rel(c0, mid, src));
    match src {
        Err(e) => Err(e),
        Ok(v) => {
            let s = v as i16;
            if s != 0 {
                let dst = core.dar[reg_dx(core.ir)];
                common::divs_16(core, dst, s);
                Ok(Cycles(168))
            } else {
                Err(Exception::Trap(EXCEPTION_ZERO_DIVIDE, 48))
            }
        },
    }
}

/// What `divs_16_aw` does: the core goes from `c0` to `c1` and `r` comes back.
pub open spec fn divs_16_aw_effect(c0: ConfiguredCore, c1: ConfiguredCore, r: Result<Cycles>) -> bool {
    exists|mid: ConfiguredCore, src: Result<u32>|
        #[trigger] operator::aw_16_rel(c0, mid, src) && match src {
            Err(e) => r == Err::<Cycles, Exception>(e) && c1 == mid,
            Ok(v) => {
                if v as i16 != 0 {
                    r == Ok::<Cycles, Exception>(Cycles(166)) && common::divided(mid, c1, common::divs_16_outcome(mid, mid.dar[ir_dx(mid.ir)], v as i16))
                } else {
                    r == Err::<Cycles, Exception>(Exception::Trap(EXCEPTION_ZERO_DIVIDE, 46)) && c1 == mid
                }
            },
        }
}

/// DIVS: Dx divided by the source word; a zero divisor traps.
pub fn divs_16_aw(core: &mut ConfiguredCore) -> (r: Result<Cycles>)
    requires
        old(core).wf(),
    ensures
        final(core).wf(),
        divs_16_aw_effect(*old(core), *final(core), r),
{
    let ghost c0 = *core;
    let src = operator::aw_16(core);
    let ghost mid = *core;
    assert(operator::aw_16_rel(c0, mid, src));
    match src {
        Err(e) => Err(e),
        Ok(v) => {
            let s = v as i16;
            if s != 0 {
                let dst = core.dar[reg_dx(core.ir)];
                common::divs_16(core, dst, s);
                Ok(Cycles(166))
            } else {
                Err(Exception::Trap(EXCEPTION_ZERO_DIVIDE, 46))
            }
        },
    }
}

/// What `divs_16_al` does: the core goes from `c0` to `c1` and `r` comes back.
pub open spec fn divs_16_al_effect(c0: ConfiguredCore, c1: ConfiguredCore, r: Result<Cycles>) -> bool {
    exists|mid: ConfiguredCore, src: Result<u32>|
        #[trigger] operator::al_16_rel(c0, mid, src) && match src {
            Err(e) => r == Err::<Cycles, Exception>(e) && c1 == mid,
            Ok(v) => {
                if v as i16 != 0 {
                    r == Ok::<Cycles, Exception>(Cycles(170)) && common::divided(mid, c1, common::divs_16_outcome(mid, mid.dar[ir_dx(mid.ir)], v as i16))
                } else {
                    r == Err::<Cycles, Exception>(Exception::Trap(EXCEPTION_ZERO_DIVIDE, 50)) && c1 == mid
                }
            },
        }
}

/// DIVS: Dx divided by the source word; a zero divisor traps.
pub fn divs_16_al(core: &mut ConfiguredCore) -> (r: Result<Cycles>)
    requires
        old(core).wf(),
    ensures
        final(core).wf(),
        divs_16_al_effect(*old(core), *final(core), r),
{
    let ghost c0 = *core;
    let src = operator::al_16(core);
    let ghost mid = *core;
    assert(operator::al_16_rel(c0, mid, src));
    match src {
        Err(e) => Err(e),
        Ok(v) => {
            let s = v as i16;
            if s != 0 {
                let dst = core.dar[reg_dx(core.ir)];
                common::divs_16(core, dst, s);
                Ok(Cycles(170))
            } else {
                Err(Exception::Trap(EXCEPTION_ZERO_DIVIDE, 50))
            }
        },
    }
}

/// What `divs_16_pcdi` does: the core goes from `c0` to `c1` and `r` comes back.
pub open spec fn divs_16_pcdi_effect(c0: ConfiguredCore, c1: ConfiguredCore, r: Result<Cycles>) -> bool {
    exists|mid: ConfiguredCore, src: Result<u32>|
        #[trigger] operator::pcdi_16_rel(c0, mid, src) && match src {
            Err(e) => r == Err::<Cycles, Exception>(e) && c1 == mid,
            Ok(v) => {
                if v as i16 != 0 {
                    r == Ok::<Cycles, Exception>(Cycles(166)) && common::divided(mid, c1, common::divs_16_outcome(mid, mid.dar[ir_dx(mid.ir)], v as i16))
                } else {
                    r == Err::<Cycles, Exception>(Exception::Trap(EXCEPTION_ZERO_DIVIDE, 46)) && c1 == mid
                }
            },
        }
}

/// DIVS: Dx divided by the source word; a zero divisor traps.
pub fn divs_16_pcdi(core: &mut ConfiguredCore) -> (r: Result<Cycles>)
    requires
        old(core).wf(),
    ensures
        final(core).wf(),
        divs_16_pcdi_effect(*old(core), *final(core), r),
{
    let ghost c0 = *core;
    let src = operator::pcdi_16(core);
    let ghost mid = *core;
    assert(operator::pcdi_16_rel(c0, mid, src));
    match src {
        Err(e) => Err(e),
        Ok(v) => {
            let s = v as i16;
            if s != 0 {
                let dst = core.dar[reg_dx(core.ir)];
                common::divs_16(core, dst, s);
                Ok(Cycles(166))
            } else {
                Err(Exception::Trap(EXCEPTION_ZERO_DIVIDE, 46))
            }
        },
    }
}

/// What `divs_16_pcix` does: the core goes from `c0` to `c1` and `r` comes back.
pub open spec fn divs_16_pcix_effect(c0: ConfiguredCore, c1: ConfiguredCore, r: Result<Cycles>) -> bool {
    exists|mid: ConfiguredCore, src: Result<u32>|
        #[trigger] operator::pcix_16_rel(c0, mid, src) && match src {
            Err(e) => r == Err::<Cycles, Exception>(e) && c1 == mid,
            Ok(v) => {
                if v as i16 != 0 {
                    r == Ok::<Cycles, Exception>(Cycles(168)) && common::divided(mid, c1, common::divs_16_outcome(mid, mid.dar[ir_dx(mid.ir)], v as i16))
                } else {
                    r == Err::<Cycles, Exception>(Exception::Trap(EXCEPTION_ZERO_DIVIDE, 48)) && c1 == mid
                }
            },
        }
}

/// DIVS: Dx divided by the source word; a zero divisor traps.
pub fn divs_16_pcix(core: &mut ConfiguredCore) -> (r: Result<Cycles>)
    requires
        old(core).wf(),
    ensures
        final(core).wf(),
        divs_16_pcix_effect(*old(core), *final(core), r),
{
    let ghost c0 = *core;
    let src = operator::pcix_16(core);
    let ghost mid = *core;
    assert(operator::pcix_16_rel(c0, mid, src));
    match src {
        Err(e) => Err(e),
        Ok(v) => {
            let s = v as i16;
            if s != 0 {
                let dst = core.dar[reg_dx(core.ir)];
                common::divs_16(core, dst, s);
                Ok(Cycles(168))
            } else {
                Err(Exception::Trap(EXCEPTION_ZERO_DIVIDE, 48))
            }
        },
    }
}

/// What `divs_16_imm` does: the core goes from `c0` to `c1` and `r` comes back.
pub open spec fn divs_16_imm_effect(c0: ConfiguredCore, c1: ConfiguredCore, r: Result<Cycles>) -> bool {
    exists|mid: ConfiguredCore, src: Result<u32>|
        #[trigger] operator::imm_16_rel(c0, mid, src) && match src {
            Err(e) => r == Err::<Cycles, Exception>(e) && c1 == mid,
            Ok(v) => {
                if v as i16 != 0 {
                    r == Ok::<Cycles, Exception>(Cycles(162)) && common::divided(mid, c1, common::divs_16_outcome(mid, mid.dar[ir_dx(mid.ir)], v as i16))
                } else {
                    r == Err::<Cycles, Exception>(Exception::Trap(EXCEPTION_ZERO_DIVIDE, 42)) && c1 == mid
                }
            },
        }
}

/// DIVS: Dx divided by the source word; a zero divisor traps.
pub fn divs_16_imm(core: &mut ConfiguredCore) -> (r: Result<Cycles>)
    requires
        old(core).wf(),
    ensures
        final(core).wf(),
        divs_16_imm_effect(*old(core), *final(core), r),
{
    let ghost c0 = *core;
    let src = operator::imm_16(core);
    let ghost mid = *core;
    assert(operator::imm_16_rel(c0, mid, src));
    match src {
        Err(e) => Err(e),
        Ok(v) => {
            let s = v as i16;
            if s != 0 {
                let dst = core.dar[reg_dx(core.ir)];
                common::divs_16(core, dst, s);
                Ok(Cycles(162))
            } else {
                Err(Exception::Trap(EXCEPTION_ZERO_DIVIDE, 42))
            }
        },
    }
}

/// What `divu_16_dn` does: the core goes from `c0` to `c1` and `r` comes back.
pub open spec fn divu_16_dn_effect(c0: ConfiguredCore, c1: ConfiguredCore, r: Result<Cycles>) -> bool {
    exists|mid: ConfiguredCore, src: Result<u32>|
        #[trigger] operator::dy_rel(c0, mid, src) && match src {
            Err(e) => r == Err::<Cycles, Exception>(e) && c1 == mid,
            Ok(v) => {
                if v as u16 != 0 {
                    r == Ok::<Cycles, Exception>(Cycles(140)) && common::divided(mid, c1, common::divu_16_outcome(mid, mid.dar[ir_dx(mid.ir)], v as u16))
                } else {
                    r == Err::<Cycles, Exception>(Exception::Trap(EXCEPTION_ZERO_DIVIDE, 38)) && c1 == mid
                }
            },
        }
}

/// DIVU: Dx divided by the source word; a zero divisor traps.
pub fn divu_16_dn(core: &mut ConfiguredCore) -> (r: Result<Cycles>)
    requires
        old(core).wf(),
    ensures
        final(core).wf(),
        divu_16_dn_effect(*old(core), *final(core), r),
{
    let ghost c0 = *core;
    let src = operator::dy(core);
    let ghost mid = *core;
    assert(operator::dy_rel(c0, mid, src));
    match src {
        Err(e) => Err(e),
        Ok(v) => {
            let s = v as u16;
            if s != 0 {
                let dst = core.dar[reg_dx(core.ir)];
                common::divu_16(core, dst, s);
                Ok(Cycles(140))
            } else {
                Err(Exception::Trap(EXCEPTION_ZERO_DIVIDE, 38))
            }
        },
    }
}

/// What `divu_16_ai` does: the core goes from `c0` to `c1` and `r` comes back.
pub open spec fn divu_16_ai_effect(c0: ConfiguredCore, c1: ConfiguredCore, r: Result<Cycles>) -> bool {
    exists|mid: ConfiguredCore, src: Result<u32>|
        #[trigger] operator::ay_ai_16_rel(c0, mid, src) && match src {
            Err(e) => r == Err::<Cycles, Exception>(e) && c1 == mid,
            Ok(v) => {
                if v as u16 != 0 {
                    r == Ok::<Cycles, Exception>(Cycles(144)) && common::divided(mid, c1, common::divu_16_outcome(mid, mid.dar[ir_dx(mid.ir)], v as u16))
                } else {
                    r == Err::<Cycles, Exception>(Exception::Trap(EXCEPTION_ZERO_DIVIDE, 42)) && c1 == mid
                }
            },
        }
}

/// DIVU: Dx divided by the source word; a zero divisor traps.
pub fn divu_16_ai(core: &mut ConfiguredCore) -> (r: Result<Cycles>)
    requires
        old(core).wf(),
    ensures
        final(core).wf(),
        divu_16_ai_effect(*old(core), *final(core), r),
{
    let ghost c0 = *core;
    let src = operator::ay_ai_16(core);
    let ghost mid = *core;
    assert(operator::ay_ai_16_rel(c0, mid, src));
    match src {
        Err(e) => Err(e),
        Ok(v) => {
            let s = v as u16;
            if s != 0 {
                let dst = core.dar[reg_dx(core.ir)];
                common::divu_16(core, dst, s);
                Ok(Cycles(144))
            } else {
                Err(Exception::Trap(EXCEPTION_ZERO_DIVIDE, 42))
            }
        },
    }
}

/// What `divu_16_pi` does: the core goes from `c0` to `c1` and `r` comes back.
pub open spec fn divu_16_pi_effect(c0: ConfiguredCore, c1: ConfiguredCore, r: Result<Cycles>) -> bool {
    exists|mid: ConfiguredCore, src: Result<u32>|
        #[trigger] operator::ay_pi_16_rel(c0, mid, src) && match src {
            Err(e) => r == Err::<Cycles, Exception>(e) && c1 == mid,
            Ok(v) => {
                if v as u16 != 0 {
                    r == Ok::<Cycles, Exception>(Cycles(144)) && common::divided(mid, c1, common::divu_16_outcome(mid, mid.dar[ir_dx(mid.ir)], v as u16))
                } else {
                    r == Err::<Cycles, Exception>(Exception::Trap(EXCEPTION_ZERO_DIVIDE, 42)) && c1 == mid
                }
            },
        }
}

/// DIVU: Dx divided by the source word; a zero divisor traps.
pub fn divu_16_pi(core: &mut ConfiguredCore) -> (r: Result<Cycles>)
    requires
        old(core).wf(),
    ensures
        final(core).wf(),
        divu_16_pi_effect(*old(core), *final(core), r),
{
    let ghost c0 = *core;
    let src = operator::ay_pi_16(core);
    let ghost mid = *core;
    assert(operator::ay_pi_16_rel(c0, mid, src));
    match src {
        Err(e) => Err(e),
        Ok(v) => {
            let s = v as u16;
            if s != 0 {
                let dst = core.dar[reg_dx(core.ir)];
                common::divu_16(core, dst, s);
                Ok(Cycles(144))
            } else {
                Err(Exception::Trap(EXCEPTION_ZERO_DIVIDE, 42))
            }
        },
    }
}

/// What `divu_16_pd` does: the core goes from `c0` to `c1` and `r` comes back.
pub open spec fn divu_16_pd_effect(c0: ConfiguredCore, c1: ConfiguredCore, r: Result<Cycles>) -> bool {
    exists|mid: ConfiguredCore, src: Result<u32>|
        #[trigger] operator::ay_pd_16_rel(c0, mid, src) && match src {
            Err(e) => r == Err::<Cycles, Exception>(e) && c1 == mid,
            Ok(v) => {
                if v as u16 != 0 {
                    r == Ok::<Cycles, Exception>(Cycles(146)) && common::divided(mid, c1, common::divu_16_outcome(mid, mid.dar[ir_dx(mid.ir)], v as u16))
                } else {
                    r == Err::<Cycles, Exception>(Exception::Trap(EXCEPTION_ZERO_DIVIDE, 44)) && c1 == mid
                }
            },
        }
}

/// DIVU: Dx divided by the source word; a zero divisor traps.
pub fn divu_16_pd(core: &mut ConfiguredCore) -> (r: Result<Cycles>)
    requires
        old(core).wf(),
    ensures
        final(core).wf(),
        divu_16_pd_effect(*old(core), *final(core), r),
{
    let ghost c0 = *core;
    let src = operator::ay_pd_16(core);
    let ghost mid = *core;
    assert(operator::ay_pd_16_rel(c0, mid, src));
    match src {
        Err(e) => Err(e),
        Ok(v) => {
            let s = v as u16;
            if s != 0 {
                let dst = core.dar[reg_dx(core.ir)];
                common::divu_16(core, dst, s);
                Ok(Cycles(146))
            } else {
                Err(Exception::Trap(EXCEPTION_ZERO_DIVIDE, 44))
            }
        },
    }
}

/// What `divu_16_di` does: the core goes from `c0` to `c1` and `r` comes back.
pub open spec fn divu_16_di_effect(c0: ConfiguredCore, c1: ConfiguredCore, r: Result<Cycles>) -> bool {
    exists|mid: ConfiguredCore, src: Result<u32>|
        #[trigger] operator::ay_di_16_rel(c0, mid, src) && match src {
            Err(e) => r == Err::<Cycles, Exception>(e) && c1 == mid,
            Ok(v) => {
                if v as u16 != 0 {
                    r == Ok::<Cycles, Exception>(Cycles(148)) && common::divided(mid, c1, common::divu_16_outcome(mid, mid.dar[ir_dx(mid.ir)], v as u16))
                } else {
                    r == Err::<Cycles, Exception>(Exception::Trap(EXCEPTION_ZERO_DIVIDE, 46)) && c1 == mid
                }
            },
        }
}

/// DIVU: Dx divided by the source word; a zero divisor traps.
pub fn divu_16_di(core: &mut ConfiguredCore) -> (r: Result<Cycles>)
    requires
        old(core).wf(),
    ensures
        final(core).wf(),
        divu_16_di_effect(*old(core), *final(core), r),
{
    let ghost c0 = *core;
    let src = operator::ay_di_16(core);
    let ghost mid = *core;
    assert(operator::ay_di_16_rel(c0, mid, src));
    match src {
        Err(e) => Err(e),
        Ok(v) => {
            let s = v as u16;
            if s != 0 {
                let dst = core.dar[reg_dx(core.ir)];
                common::divu_16(core, dst, s);
                Ok(Cycles(148))
            } else {
                Err(Exception::Trap(EXCEPTION_ZERO_DIVIDE, 46))
            }
        },
    }
}

/// What `divu_16_ix` does: the core goes from `c0` to `c1` and `r` comes back.
pub open spec fn divu_16_ix_effect(c0: ConfiguredCore, c1: ConfiguredCore, r: Result<Cycles>) -> bool {
    exists|mid: ConfiguredCore, src: Result<u32>|
        #[trigger] operator::ay_ix_16_rel(c0, mid, src) && match src {
            Err(e) => r == Err::<Cycles, Exception>(e) && c1 == mid,
            Ok(v) => {
                if v as u16 != 0 {
                    r == Ok::<Cycles, Exception>(Cycles(150)) && common::divided(mid, c1, common::divu_16_outcome(mid, mid.dar[ir_dx(mid.ir)], v as u16))
                } else {
                    r == Err::<Cycles, Exception>(Exception::Trap(EXCEPTION_ZERO_DIVIDE, 48)) && c1 == mid
                }
            },
        }
}

/// DIVU: Dx divided by the source word; a zero divisor traps.
pub fn divu_16_ix(core: &mut ConfiguredCore) -> (r: Result<Cycles>)
    requires
        old(core).wf(),
    ensures
        final(core).wf(),
        divu_16_ix_effect(*old(core), *final(core), r),
{
    let ghost c0 = *core;
    let src = operator::ay_ix_16(core);
    let ghost mid = *core;
    assert(operator::ay_ix_16_rel(c0, mid, src));
    match src {
        Err(e) => Err(e),
        Ok(v) => {
            let s = v as u16;
            if s != 0 {
                let dst = core.dar[reg_dx(core.ir)];
                common::divu_16(core, dst, s);
                Ok(Cycles(150))
            } else {
                Err(Exception::Trap(EXCEPTION_ZERO_DIVIDE, 48))
            }
        },
    }
}

/// What `divu_16_aw` does: the core goes from `c0` to `c1` and `r` comes back.
pub open spec fn divu_16_aw_effect(c0: ConfiguredCore, c1: ConfiguredCore, r: Result<Cycles>) -> bool {
    exists|mid: ConfiguredCore, src: Result<u32>|
        #[trigger] operator::aw_16_rel(c0, mid, src) && match src {
            Err(e) => r == Err::<Cycles, Exception>(e) && c1 == mid,
            Ok(v) => {
                if v as u16 != 0 {
                    r == Ok::<Cycles, Exception>(Cycles(148)) && common::divided(mid, c1, common::divu_16_outcome(mid, mid.dar[ir_dx(mid.ir)], v as u16))
                } else {
                    r == Err::<Cycles, Exception>(Exception::Trap(EXCEPTION_ZERO_DIVIDE, 46)) && c1 == mid
                }
            },
        }
}

/// DIVU: Dx divided by the source word; a zero divisor traps.
pub fn divu_16_aw(core: &mut ConfiguredCore) -> (r: Result<Cycles>)
    requires
        old(core).wf(),
    ensures
        final(core).wf(),
        divu_16_aw_effect(*old(core), *final(core), r),
{
    let ghost c0 = *core;
    let src = operator::aw_16(core);
    let ghost mid = *core;
    assert(operator::aw_16_rel(c0, mid, src));
    match src {
        Err(e) => Err(e),
        Ok(v) => {
            let s = v as u16;
            if s != 0 {
                let dst = core.dar[reg_dx(core.ir)];
                common::divu_16(core, dst, s);
                Ok(Cycles(148))
            } else {
                Err(Exception::Trap(EXCEPTION_ZERO_DIVIDE, 46))
            }
        },
    }
}

/// What `divu_16_al` does: the core goes from `c0` to `c1` and `r` comes back.
pub open spec fn divu_16_al_effect(c0: ConfiguredCore, c1: ConfiguredCore, r: Result<Cycles>) -> bool {
    exists|mid: ConfiguredCore, src: Result<u32>|
        #[trigger] operator::al_16_rel(c0, mid, src) && match src {
            Err(e) => r == Err::<Cycles, Exception>(e) && c1 == mid,
            Ok(v) => {
                if v as u16 != 0 {
                    r == Ok::<Cycles, Exception>(Cycles(152)) && common::divided(mid, c1, common::divu_16_outcome(mid, mid.dar[ir_dx(mid.ir)], v as u16))
                } else {
                    r == Err::<Cycles, Exception>(Exception::Trap(EXCEPTION_ZERO_DIVIDE, 50)) && c1 == mid
                }
            },
        }
}

/// DIVU: Dx divided by the source word; a zero divisor traps.
pub fn divu_16_al(core: &mut ConfiguredCore) -> (r: Result<Cycles>)
    requires
        old(core).wf(),
    ensures
        final(core).wf(),
        divu_16_al_effect(*old(core), *final(core), r),
{
    let ghost c0 = *core;
    let src = operator::al_16(core);
    let ghost mid = *core;
    assert(operator::al_16_rel(c0, mid, src));
    match src {
        Err(e) => Err(e),
        Ok(v) => {
            let s = v as u16;
            if s != 0 {
                let dst = core.dar[reg_dx(core.ir)];
                common::divu_16(core, dst, s);
                Ok(Cycles(152))
            } else {
                Err(Exception::Trap(EXCEPTION_ZERO_DIVIDE, 50))
            }
        },
    }
}

/// What `divu_16_pcdi` does: the core goes from `c0` to `c1` and `r` comes back.
pub open spec fn divu_16_pcdi_effect(c0: ConfiguredCore, c1: ConfiguredCore, r: Result<Cycles>) -> bool {
    exists|mid: ConfiguredCore, src: Result<u32>|
        #[trigger] operator::pcdi_16_rel(c0, mid, src) && match src {
            Err(e) => r == Err::<Cycles, Exception>(e) && c1 == mid,
            Ok(v) => {
                if v as u16 != 0 {
                    r == Ok::<Cycles, Exception>(Cycles(148)) && common::divided(mid, c1, common::divu_16_outcome(mid, mid.dar[ir_dx(mid.ir)], v as u16))
                } else {
                    r == Err::<Cycles, Exception>(Exception::Trap(EXCEPTION_ZERO_DIVIDE, 46)) && c1 == mid
                }
            },
        }
}

/// DIVU: Dx divided by the source word; a zero divisor traps.
pub fn divu_16_pcdi(core: &mut ConfiguredCore) -> (r: Result<Cycles>)
    requires
        old(core).wf(),
    ensures
        final(core).wf(),
        divu_16_pcdi_effect(*old(core), *final(core), r),
{
    let ghost c0 = *core;
    let src = operator::pcdi_16(core);
    let ghost mid = *core;
    assert(operator::pcdi_16_rel(c0, mid, src));
    match src {
        Err(e) => Err(e),
        Ok(v) => {
            let s = v as u16;
            if s != 0 {
                let dst = core.dar[reg_dx(core.ir)];
                common::divu_16(core, dst, s);
                Ok(Cycles(148))
            } else {
                Err(Exception::Trap(EXCEPTION_ZERO_DIVIDE, 46))
            }
        },
    }
}

/// What `divu_16_pcix` does: the core goes from `c0` to `c1` and `r` comes back.
pub open spec fn divu_16_pcix_effect(c0: ConfiguredCore, c1: ConfiguredCore, r: Result<Cycles>) -> bool {
    exists|mid: ConfiguredCore, src: Result<u32>|
        #[trigger] operator::pcix_16_rel(c0, mid, src) && match src {
            Err(e) => r == Err::<Cycles, Exception>(e) && c1 == mid,
            Ok(v) => {
                if v as u16 != 0 {
                    r == Ok::<Cycles, Exception>(Cycles(150)) && common::divided(mid, c1, common::divu_16_outcome(mid, mid.dar[ir_dx(mid.ir)], v as u16))
                } else {
                    r == Err::<Cycles, Exception>(Exception::Trap(EXCEPTION_ZERO_DIVIDE, 48)) && c1 == mid
                }
            },
        }
}

/// DIVU: Dx divided by the source word; a zero divisor traps.
pub fn divu_16_pcix(core: &mut ConfiguredCore) -> (r: Result<Cycles>)
    requires
        old(core).wf(),
    ensures
        final(core).wf(),
        divu_16_pcix_effect(*old(core), *final(core), r),
{
    let ghost c0 = *core;
    let src = operator::pcix_16(core);
    let ghost mid = *core;
    assert(operator::pcix_16_rel(c0, mid, src));
    match src {
        Err(e) => Err(e),
        Ok(v) => {
            let s = v as u16;
            if s != 0 {
                let dst = core.dar[reg_dx(core.ir)];
                common::divu_16(core, dst, s);
                Ok(Cycles(150))
            } else {
                Err(Exception::Trap(EXCEPTION_ZERO_DIVIDE, 48))
            }
        },
    }
}

/// What `divu_16_imm` does: the core goes from `c0` to `c1` and `r` comes back.
pub open spec fn divu_16_imm_effect(c0: ConfiguredCore, c1: ConfiguredCore, r: Result<Cycles>) -> bool {
    exists|mid: ConfiguredCore, src: Result<u32>|
        #[trigger] operator::imm_16_rel(c0, mid, src) && match src {
            Err(e) => r == Err::<Cycles, Exception>(e) && c1 == mid,
            Ok(v) => {
                if v as u16 != 0 {
                    r == Ok::<Cycles, Exception>(Cycles(144)) && common::divided(mid, c1, common::divu_16_outcome(mid, mid.dar[ir_dx(mid.ir)], v as u16))
                } else {
                    r == Err::<Cycles, Exception>(Exception::Trap(EXCEPTION_ZERO_DIVIDE, 42)) && c1 == mid
                }
            },
        }
}

/// DIVU: Dx divided by the source word; a zero divisor traps.
pub fn divu_16_imm(core: &mut ConfiguredCore) -> (r: Result<Cycles>)
    requires
        old(core).wf(),
    ensures
        final(core).wf(),
        divu_16_imm_effect(*old(core), *final(core), r),
{
    let ghost c0 = *core;
    let src = operator::imm_16(core);
    let ghost mid = *core;
    assert(operator::imm_16_rel(c0, mid, src));
    match src {
        Err(e) => Err(e),
        Ok(v) => {
            let s = v as u16;
            if s != 0 {
                let dst = core.dar[reg_dx(core.ir)];
                common::divu_16(core, dst, s);
                Ok(Cycles(144))
            } else {
                Err(Exception::Trap(EXCEPTION_ZERO_DIVIDE, 42))
            }
        },
    }
}

/// What `muls_16_dn` does: the core goes from `c0` to `c1` and `r` comes back.
pub open spec fn muls_16_dn_effect(c0: ConfiguredCore, c1: ConfiguredCore, r: Result<Cycles>) -> bool {
    exists|mid: ConfiguredCore, src: Result<u32>|
        #[trigger] operator::dy_rel(c0, mid, src) && match src {
            Err(e) => r == Err::<Cycles, Exception>(e) && c1 == mid,
            Ok(v) => {
                let reg = ir_dx(mid.ir);
                let o = common::muls_16_outcome(mid, mid.dar[reg] as i16, v as i16);
                &&& r == Ok::<Cycles, Exception>(Cycles(54))
                &&& reg_set(o.0, c1, reg, o.1)
            },
        }
}

/// MULS: the low words of Dx and the source multiplied into Dx.
pub fn muls_16_dn(core: &mut ConfiguredCore) -> (r: Result<Cycles>)
    requires
        old(core).wf(),
    ensures
        final(core).wf(),
        muls_16_dn_effect(*old(core), *final(core), r),
{
    let ghost c0 = *core;
    let src = operator::dy(core);
    let ghost mid = *core;
    assert(operator::dy_rel(c0, mid, src));
    match src {
        Err(e) => Err(e),
        Ok(v) => {
            let reg = reg_dx(core.ir);
            let dst = core.dar[reg] as i16;
            let res = common::muls_16(core, dst, v as i16);
            set_reg(core, reg, res);
            Ok(Cycles(54))
        },
    }
}

/// What `muls_16_ai` does: the core goes from `c0` to `c1` and `r` comes back.
pub open spec fn muls_16_ai_effect(c0: ConfiguredCore, c1: ConfiguredCore, r: Result<Cycles>) -> bool {
    exists|mid: ConfiguredCore, src: Result<u32>|
        #[trigger] operator::ay_ai_16_rel(c0, mid, src) && match src {
            Err(e) => r == Err::<Cycles, Exception>(e) && c1 == mid,
            Ok(v) => {
                let reg = ir_dx(mid.ir);
                let o = common::muls_16_outcome(mid, mid.dar[reg] as i16, v as i16);
                &&& r == Ok::<Cycles, Exception>(Cycles(58))
                &&& reg_set(o.0, c1, reg, o.1)
            },
        }
}

/// MULS: the low words of Dx and the source multiplied into Dx.
pub fn muls_16_ai(core: &mut ConfiguredCore) -> (r: Result<Cycles>)
    requires
        old(core).wf(),
    ensures
        final(core).wf(),
        muls_16_ai_effect(*old(core), *final(core), r),
{
    let ghost c0 = *core;
    let src = operator::ay_ai_16(core);
    let ghost mid = *core;
    assert(operator::ay_ai_16_rel(c0, mid, src));
    match src {
        Err(e) => Err(e),
        Ok(v) => {
            let reg = reg_dx(core.ir);
            let dst = core.dar[reg] as i16;
            let res = common::muls_16(core, dst, v as i16);
            set_reg(core, reg, res);
            Ok(Cycles(58))
        },
    }
}

/// What `muls_16_pi` does: the core goes from `c0` to `c1` and `r` comes back.
pub open spec fn muls_16_pi_effect(c0: ConfiguredCore, c1: ConfiguredCore, r: Result<Cycles>) -> bool {
    exists|mid: ConfiguredCore, src: Result<u32>|
        #[trigger] operator::ay_pi_16_rel(c0, mid, src) && match src {
            Err(e) => r == Err::<Cycles, Exception>(e) && c1 == mid,
            Ok(v) => {
                let reg = ir_dx(mid.ir);
                let o = common::muls_16_outcome(mid, mid.dar[reg] as i16, v as i16);
                &&& r == Ok::<Cycles, Exception>(Cycles(58))
                &&& reg_set(o.0, c1, reg, o.1)
            },
        }
}

/// MULS: the low words of Dx and the source multiplied into Dx.
pub fn muls_16_pi(core: &mut ConfiguredCore) -> (r: Result<Cycles>)
    requires
        old(core).wf(),
    ensures
        final(core).wf(),
        muls_16_pi_effect(*old(core), *final(core), r),
{
    let ghost c0 = *core;
    let src = operator::ay_pi_16(core);
    let ghost mid = *core;
    assert(operator::ay_pi_16_rel(c0, mid, src));
    match src {
        Err(e) => Err(e),
        Ok(v) => {
            let reg = reg_dx(core.ir);
            let dst = core.dar[reg] as i16;
            let res = common::muls_16(core, dst, v as i16);
            set_reg(core, reg, res);
            Ok(Cycles(58))
        },
    }
}

/// What `muls_16_pd` does: the core goes from `c0` to `c1` and `r` comes back.
pub open spec fn muls_16_pd_effect(c0: ConfiguredCore, c1: ConfiguredCore, r: Result<Cycles>) -> bool {
    exists|mid: ConfiguredCore, src: Result<u32>|
        #[trigger] operator::ay_pd_16_rel(c0, mid, src) && match src {
            Err(e) => r == Err::<Cycles, Exception>(e) && c1 == mid,
            Ok(v) => {
                let reg = ir_dx(mid.ir);
                let o = common::muls_16_outcome(mid, mid.dar[reg] as i16, v as i16);
                &&& r == Ok::<Cycles, Exception>(Cycles(60))
                &&& reg_set(o.0, c1, reg, o.1)
            },
        }
}

/// MULS: the low words of Dx and the source multiplied into Dx.
pub fn muls_16_pd(core: &mut ConfiguredCore) -> (r: Result<Cycles>)
    requires
        old(core).wf(),
    ensures
        final(core).wf(),
        muls_16_pd_effect(*old(core), *final(core), r),
{
    let ghost c0 = *core;
    let src = operator::ay_pd_16(core);
    let ghost mid = *core;
    assert(operator::ay_pd_16_rel(c0, mid, src));
    match src {
        Err(e) => Err(e),
        Ok(v) => {
            let reg = reg_dx(core.ir);
            let dst = core.dar[reg] as i16;
            let res = common::muls_16(core, dst, v as i16);
            set_reg(core, reg, res);
            Ok(Cycles(60))
        },
    }
}

/// What `muls_16_di` does: the core goes from `c0` to `c1` and `r` comes back.
pub open spec fn muls_16_di_effect(c0: ConfiguredCore, c1: ConfiguredCore, r: Result<Cycles>) -> bool {
    exists|mid: ConfiguredCore, src: Result<u32>|
        #[trigger] operator::ay_di_16_rel(c0, mid, src) && match src {
            Err(e) => r == Err::<Cycles, Exception>(e) && c1 == mid,
            Ok(v) => {
                let reg = ir_dx(mid.ir);
                let o = common::muls_16_outcome(mid, mid.dar[reg] as i16, v as i16);
                &&& r == Ok::<Cycles, Exception>(Cycles(62))
                &&& reg_set(o.0, c1, reg, o.1)
            },
        }
}

/// MULS: the low words of Dx and the source multiplied into Dx.
pub fn muls_16_di(core: &mut ConfiguredCore) -> (r: Result<Cycles>)
    requires
        old(core).wf(),
    ensures
        final(core).wf(),
        muls_16_di_effect(*old(core), *final(core), r),
{
    let ghost c0 = *core;
    let src = operator::ay_di_16(core);
    let ghost mid = *core;
    assert(operator::ay_di_16_rel(c0, mid, src));
    match src {
        Err(e) => Err(e),
        Ok(v) => {
            let reg = reg_dx(core.ir);
            let dst = core.dar[reg] as i16;
            let res = common::muls_16(core, dst, v as i16);
            set_reg(core, reg, res);
            Ok(Cycles(62))
        },
    }
}

/// What `muls_16_ix` does: the core goes from `c0` to `c1` and `r` comes back.
pub open spec fn muls_16_ix_effect(c0: ConfiguredCore, c1: ConfiguredCore, r: Result<Cycles>) -> bool {
    exists|mid: ConfiguredCore, src: Result<u32>|
        #[trigger] operator::ay_ix_16_rel(c0, mid, src) && match src {
            Err(e) => r == Err::<Cycles, Exception>(e) && c1 == mid,
            Ok(v) => {
                let reg = ir_dx(mid.ir);
                let o = common::muls_16_outcome(mid, mid.dar[reg] as i16, v as i16);
                &&& r == Ok::<Cycles, Exception>(Cycles(64))
                &&& reg_set(o.0, c1, reg, o.1)
            },
        }
}

/// MULS: the low words of Dx and the source multiplied into Dx.
pub fn muls_16_ix(core: &mut ConfiguredCore) -> (r: Result<Cycles>)
    requires
        old(core).wf(),
    ensures
        final(core).wf(),
        muls_16_ix_effect(*old(core), *final(core), r),
{
    let ghost c0 = *core;
    let src = operator::ay_ix_16(core);
    let ghost mid = *core;
    assert(operator::ay_ix_16_rel(c0, mid, src));
    match src {
        Err(e) => Err(e),
        Ok(v) => {
            let reg = reg_dx(core.ir);
            let dst = core.dar[reg] as i16;
            let res = common::muls_16(core, dst, v as i16);
            set_reg(core, reg, res);
            Ok(Cycles(64))
        },
    }
}

/// What `muls_16_aw` does: the core goes from `c0` to `c1` and `r` comes back.
pub open spec fn muls_16_aw_effect(c0: ConfiguredCore, c1: ConfiguredCore, r: Result<Cycles>) -> bool {
    exists|mid: ConfiguredCore, src: Result<u32>|
        #[trigger] operator::aw_16_rel(c0, mid, src) && match src {
            Err(e) => r == Err::<Cycles, Exception>(e) && c1 == mid,
            Ok(v) => {
                let reg = ir_dx(mid.ir);
                let o = common::muls_16_outcome(mid, mid.dar[reg] as i16, v as i16);
                &&& r == Ok::<Cycles, Exception>(Cycles(62))
                &&& reg_set(o.0, c1, reg, o.1)
            },
        }
}

/// MULS: the low words of Dx and the source multiplied into Dx.
pub fn muls_16_aw(core: &mut ConfiguredCore) -> (r: Result<Cycles>)
    requires
        old(core).wf(),
    ensures
        final(core).wf(),
        muls_16_aw_effect(*old(core), *final(core), r),
{
    let ghost c0 = *core;
    let src = operator::aw_16(core);
    let ghost mid = *core;
    assert(operator::aw_16_rel(c0, mid, src));
    match src {
        Err(e) => Err(e),
        Ok(v) => {
            let reg = reg_dx(core.ir);
            let dst = core.dar[reg] as i16;
            let res = common::muls_16(core, dst, v as i16);
            set_reg(core, reg, res);
            Ok(Cycles(62))
        },
    }
}

/// What `muls_16_al` does: the core goes from `c0` to `c1` and `r` comes back.
pub open spec fn muls_16_al_effect(c0: ConfiguredCore, c1: ConfiguredCore, r: Result<Cycles>) -> bool {
    exists|mid: ConfiguredCore, src: Result<u32>|
        #[trigger] operator::al_16_rel(c0, mid, src) && match src {
            Err(e) => r == Err::<Cycles, Exception>(e) && c1 == mid,
            Ok(v) => {
                let reg = ir_dx(mid.ir);
                let o = common::muls_16_outcome(mid, mid.dar[reg] as i16, v as i16);
                &&& r == Ok::<Cycles, Exception>(Cycles(66))
                &&& reg_set(o.0, c1, reg, o.1)
            },
        }
}

/// MULS: the low words of Dx and the source multiplied into Dx.
pub fn muls_16_al(core: &mut ConfiguredCore) -> (r: Result<Cycles>)
    requires
        old(core).wf(),
    ensures
        final(core).wf(),
        muls_16_al_effect(*old(core), *final(core), r),
{
    let ghost c0 = *core;
    let src = operator::al_16(core);
    let ghost mid = *core;
    assert(operator::al_16_rel(c0, mid, src));
    match src {
        Err(e) => Err(e),
        Ok(v) => {
            let reg = reg_dx(core.ir);
            let dst = core.dar[reg] as i16;
            let res = common::muls_16(core, dst, v as i16);
            set_reg(core, reg, res);
            Ok(Cycles(66))
        },
    }
}

/// What `muls_16_pcdi` does: the core goes from `c0` to `c1` and `r` comes back.
pub open spec fn muls_16_pcdi_effect(c0: ConfiguredCore, c1: ConfiguredCore, r: Result<Cycles>) -> bool {
    exists|mid: ConfiguredCore, src: Result<u32>|
        #[trigger] operator::pcdi_16_rel(c0, mid, src) && match src {
            Err(e) => r == Err::<Cycles, Exception>(e) && c1 == mid,
            Ok(v) => {
                let reg = ir_dx(mid.ir);
                let o = common::muls_16_outcome(mid, mid.dar[reg] as i16, v as i16);
                &&& r == Ok::<Cycles, Exception>(Cycles(62))
                &&& reg_set(o.0, c1, reg, o.1)
            },
        }
}

/// MULS: the low words of Dx and the source multiplied into Dx.
pub fn muls_16_pcdi(core: &mut ConfiguredCore) -> (r: Result<Cycles>)
    requires
        old(core).wf(),
    ensures
        final(core).wf(),
        muls_16_pcdi_effect(*old(core), *final(core), r),
{
    let ghost c0 = *core;
    let src = operator::pcdi_16(core);
    let ghost mid = *core;
    assert(operator::pcdi_16_rel(c0, mid, src));
    match src {
        Err(e) => Err(e),
        Ok(v) => {
            let reg = reg_dx(core.ir);
            let dst = core.dar[reg] as i16;
            let res = common::muls_16(core, dst, v as i16);
            set_reg(core, reg, res);
            Ok(Cycles(62))
        },
    }
}

/// What `muls_16_pcix` does: the core goes from `c0` to `c1` and `r` comes back.
pub open spec fn muls_16_pcix_effect(c0: ConfiguredCore, c1: ConfiguredCore, r: Result<Cycles>) -> bool {
    exists|mid: ConfiguredCore, src: Result<u32>|
        #[trigger] operator::pcix_16_rel(c0, mid, src) && match src {
            Err(e) => r == Err::<Cycles, Exception>(e) && c1 == mid,
            Ok(v) => {
                let reg = ir_dx(mid.ir);
                let o = common::muls_16_outcome(mid, mid.dar[reg] as i16, v as i16);
                &&& r == Ok::<Cycles, Exception>(Cycles(64))
                &&& reg_set(o.0, c1, reg, o.1)
            },
        }
}

/// MULS: the low words of Dx and the source multiplied into Dx.
pub fn muls_16_pcix(core: &mut ConfiguredCore) -> (r: Result<Cycles>)
    requires
        old(core).wf(),
    ensures
        final(core).wf(),
        muls_16_pcix_effect(*old(core), *final(core), r),
{
    let ghost c0 = *core;
    let src = operator::pcix_16(core);
    let ghost mid = *core;
    assert(operator::pcix_16_rel(c0, mid, src));
    match src {
        Err(e) => Err(e),
        Ok(v) => {
            let reg = reg_dx(core.ir);
            let dst = core.dar[reg] as i16;
            let res = common::muls_16(core, dst, v as i16);
            set_reg(core, reg, res);
            Ok(Cycles(64))
        },
    }
}

/// What `muls_16_imm` does: the core goes from `c0` to `c1` and `r` comes back.
pub open spec fn muls_16_imm_effect(c0: ConfiguredCore, c1: ConfiguredCore, r: Result<Cycles>) -> bool {
    exists|mid: ConfiguredCore, src: Result<u32>|
        #[trigger] operator::imm_16_rel(c0, mid, src) && match src {
            Err(e) => r == Err::<Cycles, Exception>(e) && c1 == mid,
            Ok(v) => {
                let reg = ir_dx(mid.ir);
                let o = common::muls_16_outcome(mid, mid.dar[reg] as i16, v as i16);
                &&& r == Ok::<Cycles, Exception>(Cycles(58))
                &&& reg_set(o.0, c1, reg, o.1)
            },
        }
}

/// MULS: the low words of Dx and the source multiplied into Dx.
pub fn muls_16_imm(core: &mut ConfiguredCore) -> (r: Result<Cycles>)
    requires
        old(core).wf(),
    ensures
        final(core).wf(),
        muls_16_imm_effect(*old(core), *final(core), r),
{
    let ghost c0 = *core;
    let src = operator::imm_16(core);
    let ghost mid = *core;
    assert(operator::imm_16_rel(c0, mid, src));
    match src {
        Err(e) => Err(e),
        Ok(v) => {
            let reg = reg_dx(core.ir);
            let dst = core.dar[reg] as i16;
            let res = common::muls_16(core, dst, v as i16);
            set_reg(core, reg, res);
            Ok(Cycles(58))
        },
    }
}

/// What `mulu_16_dn` does: the core goes from `c0` to `c1` and `r` comes back.
pub open spec fn mulu_16_dn_effect(c0: ConfiguredCore, c1: ConfiguredCore, r: Result<Cycles>) -> bool {
    exists|mid: ConfiguredCore, src: Result<u32>|
        #[trigger] operator::dy_rel(c0, mid, src) && match src {
            Err(e) => r == Err::<Cycles, Exception>(e) && c1 == mid,
            Ok(v) => {
                let reg = ir_dx(mid.ir);
                let o = common::mulu_16_outcome(mid, mid.dar[reg] as u16, v as u16);
                &&& r == Ok::<Cycles, Exception>(Cycles(54))
                &&& reg_set(o.0, c1, reg, o.1)
            },
        }
}

/// MULU: the low words of Dx and the source multiplied into Dx.
pub fn mulu_16_dn(core: &mut ConfiguredCore) -> (r: Result<Cycles>)
    requires
        old(core).wf(),
    ensures
        final(core).wf(),
        mulu_16_dn_effect(*old(core), *final(core), r),
{
    let ghost c0 = *core;
    let src = operator::dy(core);
    let ghost mid = *core;
    assert(operator::dy_rel(c0, mid, src));
    match src {
        Err(e) => Err(e),
        Ok(v) => {
            let reg = reg_dx(core.ir);
            let dst = core.dar[reg] as u16;
            let res = common::mulu_16(core, dst, v as u16);
            set_reg(core, reg, res);
            Ok(Cycles(54))
        },
    }
}

/// What `mulu_16_ai` does: the core goes from `c0` to `c1` and `r` comes back.
pub open spec fn mulu_16_ai_effect(c0: ConfiguredCore, c1: ConfiguredCore, r: Result<Cycles>) -> bool {
    exists|mid: ConfiguredCore, src: Result<u32>|
        #[trigger] operator::ay_ai_16_rel(c0, mid, src) && match src {
            Err(e) => r == Err::<Cycles, Exception>(e) && c1 == mid,
            Ok(v) => {
                let reg = ir_dx(mid.ir);
                let o = common::mulu_16_outcome(mid, mid.dar[reg] as u16, v as u16);
                &&& r == Ok::<Cycles, Exception>(Cycles(58))
                &&& reg_set(o.0, c1, reg, o.1)
            },
        }
}

/// MULU: the low words of Dx and the source multiplied into Dx.
pub fn mulu_16_ai(core: &mut ConfiguredCore) -> (r: Result<Cycles>)
    requires
        old(core).wf(),
    ensures
        final(core).wf(),
        mulu_16_ai_effect(*old(core), *final(core), r),
{
    let ghost c0 = *core;
    let src = operator::ay_ai_16(core);
    let ghost mid = *core;
    assert(operator::ay_ai_16_rel(c0, mid, src));
    match src {
        Err(e) => Err(e),
        Ok(v) => {
            let reg = reg_dx(core.ir);
            let dst = core.dar[reg] as u16;
            let res = common::mulu_16(core, dst, v as u16);
            set_reg(core, reg, res);
            Ok(Cycles(58))
        },
    }
}

/// What `mulu_16_pi` does: the core goes from `c0` to `c1` and `r` comes back.
pub open spec fn mulu_16_pi_effect(c0: ConfiguredCore, c1: ConfiguredCore, r: Result<Cycles>) -> bool {
    exists|mid: ConfiguredCore, src: Result<u32>|
        #[trigger] operator::ay_pi_16_rel(c0, mid, src) && match src {
            Err(e) => r == Err::<Cycles, Exception>(e) && c1 == mid,
            Ok(v) => {
                let reg = ir_dx(mid.ir);
                let o = common::mulu_16_outcome(mid, mid.dar[reg] as u16, v as u16);
                &&& r == Ok::<Cycles, Exception>(Cycles(58))
                &&& reg_set(o.0, c1, reg, o.1)
            },
        }
}

/// MULU: the low words of Dx and the source multiplied into Dx.
pub fn mulu_16_pi(core: &mut ConfiguredCore) -> (r: Result<Cycles>)
    requires
        old(core).wf(),
    ensures
        final(core).wf(),
        mulu_16_pi_effect(*old(core), *final(core), r),
{
    let ghost c0 = *core;
    let src = operator::ay_pi_16(core);
    let ghost mid = *core;
    assert(operator::ay_pi_16_rel(c0, mid, src));
    match src {
        Err(e) => Err(e),
        Ok(v) => {
            let reg = reg_dx(core.ir);
            let dst = core.dar[reg] as u16;
            let res = common::mulu_16(core, dst, v as u16);
            set_reg(core, reg, res);
            Ok(Cycles(58))
        },
    }
}

/// What `mulu_16_pd` does: the core goes from `c0` to `c1` and `r` comes back.
pub open spec fn mulu_16_pd_effect(c0: ConfiguredCore, c1: ConfiguredCore, r: Result<Cycles>) -> bool {
    exists|mid: ConfiguredCore, src: Result<u32>|
        #[trigger] operator::ay_pd_16_rel(c0, mid, src) && match src {
            Err(e) => r == Err::<Cycles, Exception>(e) && c1 == mid,
            Ok(v) => {
                let reg = ir_dx(mid.ir);
                let o = common::mulu_16_outcome(mid, mid.dar[reg] as u16, v as u16);
                &&& r == Ok::<Cycles, Exception>(Cycles(60))
                &&& reg_set(o.0, c1, reg, o.1)
            },
        }
}

/// MULU: the low words of Dx and the source multiplied into Dx.
pub fn mulu_16_pd(core: &mut ConfiguredCore) -> (r: Result<Cycles>)
    requires
        old(core).wf(),
    ensures
        final(core).wf(),
        mulu_16_pd_effect(*old(core), *final(core), r),
{
    let ghost c0 = *core;
    let src = operator::ay_pd_16(core);
    let ghost mid = *core;
    assert(operator::ay_pd_16_rel(c0, mid, src));
    match src {
        Err(e) => Err(e),
        Ok(v) => {
            let reg = reg_dx(core.ir);
            let dst = core.dar[reg] as u16;
            let res = common::mulu_16(core, dst, v as u16);
            set_reg(core, reg, res);
            Ok(Cycles(60))
        },
    }
}

/// What `mulu_16_di` does: the core goes from `c0` to `c1` and `r` comes back.
pub open spec fn mulu_16_di_effect(c0: ConfiguredCore, c1: ConfiguredCore, r: Result<Cycles>) -> bool {
    exists|mid: ConfiguredCore, src: Result<u32>|
        #[trigger] operator::ay_di_16_rel(c0, mid, src) && match src {
            Err(e) => r == Err::<Cycles, Exception>(e) && c1 == mid,
            Ok(v) => {
                let reg = ir_dx(mid.ir);
                let o = common::mulu_16_outcome(mid, mid.dar[reg] as u16, v as u16);
                &&& r == Ok::<Cycles, Exception>(Cycles(62))
                &&& reg_set(o.0, c1, reg, o.1)
            },
        }
}

/// MULU: the low words of Dx and the source multiplied into Dx.
pub fn mulu_16_di(core: &mut ConfiguredCore) -> (r: Result<Cycles>)
    requires
        old(core).wf(),
    ensures
        final(core).wf(),
        mulu_16_di_effect(*old(core), *final(core), r),
{
    let ghost c0 = *core;
    let src = operator::ay_di_16(core);
    let ghost mid = *core;
    assert(operator::ay_di_16_rel(c0, mid, src));
    match src {
        Err(e) => Err(e),
        Ok(v) => {
            let reg = reg_dx(core.ir);
            let dst = core.dar[reg] as u16;
            let res = common::mulu_16(core, dst, v as u16);
            set_reg(core, reg, res);
            Ok(Cycles(62))
        },
    }
}

/// What `mulu_16_ix` does: the core goes from `c0` to `c1` and `r` comes back.
pub open spec fn mulu_16_ix_effect(c0: ConfiguredCore, c1: ConfiguredCore, r: Result<Cycles>) -> bool {
    exists|mid: ConfiguredCore, src: Result<u32>|
        #[trigger] operator::ay_ix_16_rel(c0, mid, src) && match src {
            Err(e) => r == Err::<Cycles, Exception>(e) && c1 == mid,
            Ok(v) => {
                let reg = ir_dx(mid.ir);
                let o = common::mulu_16_outcome(mid, mid.dar[reg] as u16, v as u16);
                &&& r == Ok::<Cycles, Exception>(Cycles(64))
                &&& reg_set(o.0, c1, reg, o.1)
            },
        }
}

/// MULU: the low words of Dx and the source multiplied into Dx.
pub fn mulu_16_ix(core: &mut ConfiguredCore) -> (r: Result<Cycles>)
    requires
        old(core).wf(),
    ensures
        final(core).wf(),
        mulu_16_ix_effect(*old(core), *final(core), r),
{
    let ghost c0 = *core;
    let src = operator::ay_ix_16(core);
    let ghost mid = *core;
    assert(operator::ay_ix_16_rel(c0, mid, src));
    match src {
        Err(e) => Err(e),
        Ok(v) => {
            let reg = reg_dx(core.ir);
            let dst = core.dar[reg] as u16;
            let res = common::mulu_16(core, dst, v as u16);
            set_reg(core, reg, res);
            Ok(Cycles(64))
        },
    }
}

/// What `mulu_16_aw` does: the core goes from `c0` to `c1` and `r` comes back.
pub open spec fn mulu_16_aw_effect(c0: ConfiguredCore, c1: ConfiguredCore, r: Result<Cycles>) -> bool {
    exists|mid: ConfiguredCore, src: Result<u32>|
        #[trigger] operator::aw_16_rel(c0, mid, src) && match src {
            Err(e) => r == Err::<Cycles, Exception>(e) && c1 == mid,
            Ok(v) => {
                let reg = ir_dx(mid.ir);
                let o = common::mulu_16_outcome(mid, mid.dar[reg] as u16, v as u16);
                &&& r == Ok::<Cycles, Exception>(Cycles(62))
                &&& reg_set(o.0, c1, reg, o.1)
            },
        }
}

/// MULU: the low words of Dx and the source multiplied into Dx.
pub fn mulu_16_aw(core: &mut ConfiguredCore) -> (r: Result<Cycles>)
    requires
        old(core).wf(),
    ensures
        final(core).wf(),
        mulu_16_aw_effect(*old(core), *final(core), r),
{
    let ghost c0 = *core;
    let src = operator::aw_16(core);
    let ghost mid = *core;
    assert(operator::aw_16_rel(c0, mid, src));
    match src {
        Err(e) => Err(e),
        Ok(v) => {
            let reg = reg_dx(core.ir);
            let dst = core.dar[reg] as u16;
            let res = common::mulu_16(core, dst, v as u16);
            set_reg(core, reg, res);
            Ok(Cycles(62))
        },
    }
}

/// What `mulu_16_al` does: the core goes from `c0` to `c1` and `r` comes back.
pub open spec fn mulu_16_al_effect(c0: ConfiguredCore, c1: ConfiguredCore, r: Result<Cycles>) -> bool {
    exists|mid: ConfiguredCore, src: Result<u32>|
        #[trigger] operator::al_16_rel(c0, mid, src) && match src {
            Err(e) => r == Err::<Cycles, Exception>(e) && c1 == mid,
            Ok(v) => {
                let reg = ir_dx(mid.ir);
                let o = common::mulu_16_outcome(mid, mid.dar[reg] as u16, v as u16);
                &&& r == Ok::<Cycles, Exception>(Cycles(66))
                &&& reg_set(o.0, c1, reg, o.1)
            },
        }
}

/// MULU: the low words of Dx and the source multiplied into Dx.
pub fn mulu_16_al(core: &mut ConfiguredCore) -> (r: Result<Cycles>)
    requires
        old(core).wf(),
    ensures
        final(core).wf(),
        mulu_16_al_effect(*old(core), *final(core), r),
{
    let ghost c0 = *core;
    let src = operator::al_16(core);
    let ghost mid = *core;
    assert(operator::al_16_rel(c0, mid, src));
    match src {
        Err(e) => Err(e),
        Ok(v) => {
            let reg = reg_dx(core.ir);
            let dst = core.dar[reg] as u16;
            let res = common::mulu_16(core, dst, v as u16);
            set_reg(core, reg, res);
            Ok(Cycles(66))
        },
    }
}

/// What `mulu_16_pcdi` does: the core goes from `c0` to `c1` and `r` comes back.
pub open spec fn mulu_16_pcdi_effect(c0: ConfiguredCore, c1: ConfiguredCore, r: Result<Cycles>) -> bool {
    exists|mid: ConfiguredCore, src: Result<u32>|
        #[trigger] operator::pcdi_16_rel(c0, mid, src) && match src {
            Err(e) => r == Err::<Cycles, Exception>(e) && c1 == mid,
            Ok(v) => {
                let reg = ir_dx(mid.ir);
                let o = common::mulu_16_outcome(mid, mid.dar[reg] as u16, v as u16);
                &&& r == Ok::<Cycles, Exception>(Cycles(62))
                &&& reg_set(o.0, c1, reg, o.1)
            },
        }
}

/// MULU: the low words of Dx and the source multiplied into Dx.
pub fn mulu_16_pcdi(core: &mut ConfiguredCore) -> (r: Result<Cycles>)
    requires
        old(core).wf(),
    ensures
        final(core).wf(),
        mulu_16_pcdi_effect(*old(core), *final(core), r),
{
    let ghost c0 = *core;
    let src = operator::pcdi_16(core);
    let ghost mid = *core;
    assert(operator::pcdi_16_rel(c0, mid, src));
    match src {
        Err(e) => Err(e),
        Ok(v) => {
            let reg = reg_dx(core.ir);
            let dst = core.dar[reg] as u16;
            let res = common::mulu_16(core, dst, v as u16);
            set_reg(core, reg, res);
            Ok(Cycles(62))
        },
    }
}

/// What `mulu_16_pcix` does: the core goes from `c0` to `c1` and `r` comes back.
pub open spec fn mulu_16_pcix_effect(c0: ConfiguredCore, c1: ConfiguredCore, r: Result<Cycles>) -> bool {
    exists|mid: ConfiguredCore, src: Result<u32>|
        #[trigger] operator::pcix_16_rel(c0, mid, src) && match src {
            Err(e) => r == Err::<Cycles, Exception>(e) && c1 == mid,
            Ok(v) => {
                let reg = ir_dx(mid.ir);
                let o = common::mulu_16_outcome(mid, mid.dar[reg] as u16, v as u16);
                &&& r == Ok::<Cycles, Exception>(Cycles(64))
                &&& reg_set(o.0, c1, reg, o.1)
            },
        }
}

/// MULU: the low words of Dx and the source multiplied into Dx.
pub fn mulu_16_pcix(core: &mut ConfiguredCore) -> (r: Result<Cycles>)
    requires
        old(core).wf(),
    ensures
        final(core).wf(),
        mulu_16_pcix_effect(*old(core), *final(core), r),
{
    let ghost c0 = *core;
    let src = operator::pcix_16(core);
    let ghost mid = *core;
    assert(operator::pcix_16_rel(c0, mid, src));
    match src {
        Err(e) => Err(e),
        Ok(v) => {
            let reg = reg_dx(core.ir);
            let dst = core.dar[reg] as u16;
            let res = common::mulu_16(core, dst, v as u16);
            set_reg(core, reg, res);
            Ok(Cycles(64))
        },
    }
}

/// What `mulu_16_imm` does: the core goes from `c0` to `c1` and `r` comes back.
pub open spec fn mulu_16_imm_effect(c0: ConfiguredCore, c1: ConfiguredCore, r: Result<Cycles>) -> bool {
    exists|mid: ConfiguredCore, src: Result<u32>|
        #[trigger] operator::imm_16_rel(c0, mid, src) && match src {
            Err(e) => r == Err::<Cycles, Exception>(e) && c1 == mid,
            Ok(v) => {
                let reg = ir_dx(mid.ir);
                let o = common::mulu_16_outcome(mid, mid.dar[reg] as u16, v as u16);
                &&& r == Ok::<Cycles, Exception>(Cycles(58))
                &&& reg_set(o.0, c1, reg, o.1)
            },
        }
}

/// MULU: the low words of Dx and the source multiplied into Dx.
pub fn mulu_16_imm(core: &mut ConfiguredCore) -> (r: Result<Cycles>)
    requires
        old(core).wf(),
    ensures
        final(core).wf(),
        mulu_16_imm_effect(*old(core), *final(core), r),
{
    let ghost c0 = *core;
    let src = operator::imm_16(core);
    let ghost mid = *core;
    assert(operator::imm_16_rel(c0, mid, src));
    match src {
        Err(e) => Err(e),
        Ok(v) => {
            let reg = reg_dx(core.ir);
            let dst = core.dar[reg] as u16;
            let res = common::mulu_16(core, dst, v as u16);
            set_reg(core, reg, res);
            Ok(Cycles(58))
        },
    }
}

/// What `suba_16_dn` does: the core goes from `c0` to `c1` and `r` comes back.
pub open spec fn suba_16_dn_effect(c0: ConfiguredCore, c1: ConfiguredCore, r: Result<Cycles>) -> bool {
    exists|mid: ConfiguredCore, src: Result<u32>|
        #[trigger] operator::dy_rel(c0, mid, src) && match src {
            Err(e) => r == Err::<Cycles, Exception>(e) && c1 == mid,
            Ok(v) => {
                let reg = ir_ax(mid.ir);
                &&& r == Ok::<Cycles, Exception>(Cycles(8))
                &&& reg_set(mid, c1, reg, wsub(mid.dar[reg], word_as_long(v)))
            },
        }
}

/// SUBA: the source, as a long word, subtracted from Ax; no flag changes.
pub fn suba_16_dn(core: &mut ConfiguredCore) -> (r: Result<Cycles>)
    requires
        old(core).wf(),
    ensures
        final(core).wf(),
        suba_16_dn_effect(*old(core), *final(core), r),
{
    let ghost c0 = *core;
    let src = operator::dy(core);
    let ghost mid = *core;
    assert(operator::dy_rel(c0, mid, src));
    match src {
        Err(e) => Err(e),
        Ok(v) => {
            let reg = reg_ax(core.ir);
            let dst = core.dar[reg];
            let x: u32 = extend_word(v);
            assert(dst.wrapping_sub(x) == wsub(dst, x));
            set_reg(core, reg, dst.wrapping_sub(x));
            Ok(Cycles(8))
        },
    }
}

/// What `suba_16_an` does: the core goes from `c0` to `c1` and `r` comes back.
pub open spec fn suba_16_an_effect(c0: ConfiguredCore, c1: ConfiguredCore, r: Result<Cycles>) -> bool {
    exists|mid: ConfiguredCore, src: Result<u32>|
        #[trigger] operator::ay_rel(c0, mid, src) && match src {
            Err(e) => r == Err::<Cycles, Exception>(e) && c1 == mid,
            Ok(v) => {
                let reg = ir_ax(mid.ir);
                &&& r == Ok::<Cycles, Exception>(Cycles(8))
                &&& reg_set(mid, c1, reg, wsub(mid.dar[reg], word_as_long(v)))
            },
        }
}

/// SUBA: the source, as a long word, subtracted from Ax; no flag changes.
pub fn suba_16_an(core: &mut ConfiguredCore) -> (r: Result<Cycles>)
    requires
        old(core).wf(),
    ensures
        final(core).wf(),
        suba_16_an_effect(*old(core), *final(core), r),
{
    let ghost c0 = *core;
    let src = operator::ay(core);
    let ghost mid = *core;
    assert(operator::ay_rel(c0, mid, src));
    match src {
        Err(e) => Err(e),
        Ok(v) => {
            let reg = reg_ax(core.ir);
            let dst = core.dar[reg];
            let x: u32 = extend_word(v);
            assert(dst.wrapping_sub(x) == wsub(dst, x));
            set_reg(core, reg, dst.wrapping_sub(x));
            Ok(Cycles(8))
        },
    }
}

/// What `suba_16_ai` does: the core goes from `c0` to `c1` and `r` comes back.
pub open spec fn suba_16_ai_effect(c0: ConfiguredCore, c1: ConfiguredCore, r: Result<Cycles>) -> bool {
    exists|mid: ConfiguredCore, src: Result<u32>|
        #[trigger] operator::ay_ai_16_rel(c0, mid, src) && match src {
            Err(e) => r == Err::<Cycles, Exception>(e) && c1 == mid,
            Ok(v) => {
                let reg = ir_ax(mid.ir);
                &&& r == Ok::<Cycles, Exception>(Cycles(12))
                &&& reg_set(mid, c1, reg, wsub(mid.dar[reg], word_as_long(v)))
            },
        }
}

/// SUBA: the source, as a long word, subtracted from Ax; no flag changes.
pub fn suba_16_ai(core: &mut ConfiguredCore) -> (r: Result<Cycles>)
    requires
        old(core).wf(),
    ensures
        final(core).wf(),
        suba_16_ai_effect(*old(core), *final(core), r),
{
    let ghost c0 = *core;
    let src = operator::ay_ai_16(core);
    let ghost mid = *core;
    assert(operator::ay_ai_16_rel(c0, mid, src));
    match src {
        Err(e) => Err(e),
        Ok(v) => {
            let reg = reg_ax(core.ir);
            let dst = core.dar[reg];
            let x: u32 = extend_word(v);
            assert(dst.wrapping_sub(x) == wsub(dst, x));
            set_reg(core, reg, dst.wrapping_sub(x));
            Ok(Cycles(12))
        },
    }
}

/// What `suba_16_pi` does: the core goes from `c0` to `c1` and `r` comes back.
pub open spec fn suba_16_pi_effect(c0: ConfiguredCore, c1: ConfiguredCore, r: Result<Cycles>) -> bool {
    exists|mid: ConfiguredCore, src: Result<u32>|
        #[trigger] operator::ay_pi_16_rel(c0, mid, src) && match src {
            Err(e) => r == Err::<Cycles, Exception>(e) && c1 == mid,
            Ok(v) => {
                let reg = ir_ax(mid.ir);
                &&& r == Ok::<Cycles, Exception>(Cycles(12))
                &&& reg_set(mid, c1, reg, wsub(mid.dar[reg], word_as_long(v)))
            },
        }
}

/// SUBA: the source, as a long word, subtracted from Ax; no flag changes.
pub fn suba_16_pi(core: &mut ConfiguredCore) -> (r: Result<Cycles>)
    requires
        old(core).wf(),
    ensures
        final(core).wf(),
        suba_16_pi_effect(*old(core), *final(core), r),
{
    let ghost c0 = *core;
    let src = operator::ay_pi_16(core);
    let ghost mid = *core;
    assert(operator::ay_pi_16_rel(c0, mid, src));
    match src {
        Err(e) => Err(e),
        Ok(v) => {
            let reg = reg_ax(core.ir);
            let dst = core.dar[reg];
            let x: u32 = extend_word(v);
            assert(dst.wrapping_sub(x) == wsub(dst, x));
            set_reg(core, reg, dst.wrapping_sub(x));
            Ok(Cycles(12))
        },
    }
}

/// What `suba_16_pd` does: the core goes from `c0` to `c1` and `r` comes back.
pub open spec fn suba_16_pd_effect(c0: ConfiguredCore, c1: ConfiguredCore, r: Result<Cycles>) -> bool {
    exists|mid: ConfiguredCore, src: Result<u32>|
        #[trigger] operator::ay_pd_16_rel(c0, mid, src) && match src {
            Err(e) => r == Err::<Cycles, Exception>(e) && c1 == mid,
            Ok(v) => {
                let reg = ir_ax(mid.ir);
                &&& r == Ok::<Cycles, Exception>(Cycles(14))
                &&& reg_set(mid, c1, reg, wsub(mid.dar[reg], word_as_long(v)))
            },
        }
}

/// SUBA: the source, as a long word, subtracted from Ax; no flag changes.
pub fn suba_16_pd(core: &mut ConfiguredCore) -> (r: Result<Cycles>)
    requires
        old(core).wf(),
    ensures
        final(core).wf(),
        suba_16_pd_effect(*old(core), *final(core), r),
{
    let ghost c0 = *core;
    let src = operator::ay_pd_16(core);
    let ghost mid = *core;
    assert(operator::ay_pd_16_rel(c0, mid, src));
    match src {
        Err(e) => Err(e),
        Ok(v) => {
            let reg = reg_ax(core.ir);
            let dst = core.dar[reg];
            let x: u32 = extend_word(v);
            assert(dst.wrapping_sub(x) == wsub(dst, x));
            set_reg(core, reg, dst.wrapping_sub(x));
            Ok(Cycles(14))
        },
    }
}

/// What `suba_16_di` does: the core goes from `c0` to `c1` and `r` comes back.
pub open spec fn suba_16_di_effect(c0: ConfiguredCore, c1: ConfiguredCore, r: Result<Cycles>) -> bool {
    exists|mid: ConfiguredCore, src: Result<u32>|
        #[trigger] operator::ay_di_16_rel(c0, mid, src) && match src {
            Err(e) => r == Err::<Cycles, Exception>(e) && c1 == mid,
            Ok(v) => {
                let reg = ir_ax(mid.ir);
                &&& r == Ok::<Cycles, Exception>(Cycles(16))
                &&& reg_set(mid, c1, reg, wsub(mid.dar[reg], word_as_long(v)))
            },
        }
}

/// SUBA: the source, as a long word, subtracted from Ax; no flag changes.
pub fn suba_16_di(core: &mut ConfiguredCore) -> (r: Result<Cycles>)
    requires
        old(core).wf(),
    ensures
        final(core).wf(),
        suba_16_di_effect(*old(core), *final(core), r),
{
    let ghost c0 = *core;
    let src = operator::ay_di_16(core);
    let ghost mid = *core;
    assert(operator::ay_di_16_rel(c0, mid, src));
    match src {
        Err(e) => Err(e),
        Ok(v) => {
            let reg = reg_ax(core.ir);
            let dst = core.dar[reg];
            let x: u32 = extend_word(v);
            assert(dst.wrapping_sub(x) == wsub(dst, x));
            set_reg(core, reg, dst.wrapping_sub(x));
            Ok(Cycles(16))
        },
    }
}

/// What `suba_16_ix` does: the core goes from `c0` to `c1` and `r` comes back.
pub open spec fn suba_16_ix_effect(c0: ConfiguredCore, c1: ConfiguredCore, r: Result<Cycles>) -> bool {
    exists|mid: ConfiguredCore, src: Result<u32>|
        #[trigger] operator::ay_ix_16_rel(c0, mid, src) && match src {
            Err(e) => r == Err::<Cycles, Exception>(e) && c1 == mid,
            Ok(v) => {
                let reg = ir_ax(mid.ir);
                &&& r == Ok::<Cycles, Exception>(Cycles(18))
                &&& reg_set(mid, c1, reg, wsub(mid.dar[reg], word_as_long(v)))
            },
        }
}

/// SUBA: the source, as a long word, subtracted from Ax; no flag changes.
pub fn suba_16_ix(core: &mut ConfiguredCore) -> (r: Result<Cycles>)
    requires
        old(core).wf(),
    ensures
        final(core).wf(),
        suba_16_ix_effect(*old(core), *final(core), r),
{
    let ghost c0 = *core;
    let src = operator::ay_ix_16(core);
    let ghost mid = *core;
    assert(operator::ay_ix_16_rel(c0, mid, src));
    match src {
        Err(e) => Err(e),
        Ok(v) => {
            let reg = reg_ax(core.ir);
            let dst = core.dar[reg];
            let x: u32 = extend_word(v);
            assert(dst.wrapping_sub(x) == wsub(dst, x));
            set_reg(core, reg, dst.wrapping_sub(x));
            Ok(Cycles(18))
        },
    }
}

/// What `suba_16_aw` does: the core goes from `c0` to `c1` and `r` comes back.
pub open spec fn suba_16_aw_effect(c0: ConfiguredCore, c1: ConfiguredCore, r: Result<Cycles>) -> bool {
    exists|mid: ConfiguredCore, src: Result<u32>|
        #[trigger] operator::aw_16_rel(c0, mid, src) && match src {
            Err(e) => r == Err::<Cycles, Exception>(e) && c1 == mid,
            Ok(v) => {
                let reg = ir_ax(mid.ir);
                &&& r == Ok::<Cycles, Exception>(Cycles(16))
                &&& reg_set(mid, c1, reg, wsub(mid.dar[reg], word_as_long(v)))
            },
        }
}

/// SUBA: the source, as a long word, subtracted from Ax; no flag changes.
pub fn suba_16_aw(core: &mut ConfiguredCore) -> (r: Result<Cycles>)
    requires
        old(core).wf(),
    ensures
        final(core).wf(),
        suba_16_aw_effect(*old(core), *final(core), r),
{
    let ghost c0 = *core;
    let src = operator::aw_16(core);
    let ghost mid = *core;
    assert(operator::aw_16_rel(c0, mid, src));
    match src {
        Err(e) => Err(e),
        Ok(v) => {
            let reg = reg_ax(core.ir);
            let dst = core.dar[reg];
            let x: u32 = extend_word(v);
            assert(dst.wrapping_sub(x) == wsub(dst, x));
            set_reg(core, reg, dst.wrapping_sub(x));
            Ok(Cycles(16))
        },
    }
}

/// What `suba_16_al` does: the core goes from `c0` to `c1` and `r` comes back.
pub open spec fn suba_16_al_effect(c0: ConfiguredCore, c1: ConfiguredCore, r: Result<Cycles>) -> bool {
    exists|mid: ConfiguredCore, src: Result<u32>|
        #[trigger] operator::al_16_rel(c0, mid, src) && match src {
            Err(e) => r == Err::<Cycles, Exception>(e) && c1 == mid,
            Ok(v) => {
                let reg = ir_ax(mid.ir);
                &&& r == Ok::<Cycles, Exception>(Cycles(20))
                &&& reg_set(mid, c1, reg, wsub(mid.dar[reg], word_as_long(v)))
            },
        }
}

/// SUBA: the source, as a long word, subtracted from Ax; no flag changes.
pub fn suba_16_al(core: &mut ConfiguredCore) -> (r: Result<Cycles>)
    requires
        old(core).wf(),
    ensures
        final(core).wf(),
        suba_16_al_effect(*old(core), *final(core), r),
{
    let ghost c0 = *core;
    let src = operator::al_16(core);
    let ghost mid = *core;
    assert(operator::al_16_rel(c0, mid, src));
    match src {
        Err(e) => Err(e),
        Ok(v) => {
            let reg = reg_ax(core.ir);
            let dst = core.dar[reg];
            let x: u32 = extend_word(v);
            assert(dst.wrapping_sub(x) == wsub(dst, x));
            set_reg(core, reg, dst.wrapping_sub(x));
            Ok(Cycles(20))
        },
    }
}

/// What `suba_16_pcdi` does: the core goes from `c0` to `c1` and `r` comes back.
pub open spec fn suba_16_pcdi_effect(c0: ConfiguredCore, c1: ConfiguredCore, r: Result<Cycles>) -> bool {
    exists|mid: ConfiguredCore, src: Result<u32>|
        #[trigger] operator::pcdi_16_rel(c0, mid, src) && match src {
            Err(e) => r == Err::<Cycles, Exception>(e) && c1 == mid,
            Ok(v) => {
                let reg = ir_ax(mid.ir);
                &&& r == Ok::<Cycles, Exception>(Cycles(16))
                &&& reg_set(mid, c1, reg, wsub(mid.dar[reg], word_as_long(v)))
            },
        }
}

/// SUBA: the source, as a long word, subtracted from Ax; no flag changes.
pub fn suba_16_pcdi(core: &mut ConfiguredCore) -> (r: Result<Cycles>)
    requires
        old(core).wf(),
    ensures
        final(core).wf(),
        suba_16_pcdi_effect(*old(core), *final(core), r),
{
    let ghost c0 = *core;
    let src = operator::pcdi_16(core);
    let ghost mid = *core;
    assert(operator::pcdi_16_rel(c0, mid, src));
    match src {
        Err(e) => Err(e),
        Ok(v) => {
            let reg = reg_ax(core.ir);
            let dst = core.dar[reg];
            let x: u32 = extend_word(v);
            assert(dst.wrapping_sub(x) == wsub(dst, x));
            set_reg(core, reg, dst.wrapping_sub(x));
            Ok(Cycles(16))
        },
    }
}

/// What `suba_16_pcix` does: the core goes from `c0` to `c1` and `r` comes back.
pub open spec fn suba_16_pcix_effect(c0: ConfiguredCore, c1: ConfiguredCore, r: Result<Cycles>) -> bool {
    exists|mid: ConfiguredCore, src: Result<u32>|
        #[trigger] operator::pcix_16_rel(c0, mid, src) && match src {
            Err(e) => r == Err::<Cycles, Exception>(e) && c1 == mid,
            Ok(v) => {
                let reg = ir_ax(mid.ir);
                &&& r == Ok::<Cycles, Exception>(Cycles(18))
                &&& reg_set(mid, c1, reg, wsub(mid.dar[reg], word_as_long(v)))
            },
        }
}

/// SUBA: the source, as a long word, subtracted from Ax; no flag changes.
pub fn suba_16_pcix(core: &mut ConfiguredCore) -> (r: Result<Cycles>)
    requires
        old(core).wf(),
    ensures
        final(core).wf(),
        suba_16_pcix_effect(*old(core), *final(core), r),
{
    let ghost c0 = *core;
    let src = operator::pcix_16(core);
    let ghost mid = *core;
    assert(operator::pcix_16_rel(c0, mid, src));
    match src {
        Err(e) => Err(e),
        Ok(v) => {
            let reg = reg_ax(core.ir);
            let dst = core.dar[reg];
            let x: u32 = extend_word(v);
            assert(dst.wrapping_sub(x) == wsub(dst, x));
            set_reg(core, reg, dst.wrapping_sub(x));
            Ok(Cycles(18))
        },
    }
}

/// What `suba_16_imm` does: the core goes from `c0` to `c1` and `r` comes back.
pub open spec fn suba_16_imm_effect(c0: ConfiguredCore, c1: ConfiguredCore, r: Result<Cycles>) -> bool {
    exists|mid: ConfiguredCore, src: Result<u32>|
        #[trigger] operator::imm_16_rel(c0, mid, src) && match src {
            Err(e) => r == Err::<Cycles, Exception>(e) && c1 == mid,
            Ok(v) => {
                let reg = ir_ax(mid.ir);
                &&& r == Ok::<Cycles, Exception>(Cycles(14))
                &&& reg_set(mid, c1, reg, wsub(mid.dar[reg], word_as_long(v)))
            },
        }
}

/// SUBA: the source, as a long word, subtracted from Ax; no flag changes.
pub fn suba_16_imm(core: &mut ConfiguredCore) -> (r: Result<Cycles>)
    requires
        old(core).wf(),
    ensures
        final(core).wf(),
        suba_16_imm_effect(*old(core), *final(core), r),
{
    let ghost c0 = *core;
    let src = operator::imm_16(core);
    let ghost mid = *core;
    assert(operator::imm_16_rel(c0, mid, src));
    match src {
        Err(e) => Err(e),
        Ok(v) => {
            let reg = reg_ax(core.ir);
            let dst = core.dar[reg];
            let x: u32 = extend_word(v);
            assert(dst.wrapping_sub(x) == wsub(dst, x));
            set_reg(core, reg, dst.wrapping_sub(x));
            Ok(Cycles(14))
        },
    }
}

/// What `suba_32_dn` does: the core goes from `c0` to `c1` and `r` comes back.
pub open spec fn suba_32_dn_effect(c0: ConfiguredCore, c1: ConfiguredCore, r: Result<Cycles>) -> bool {
    exists|mid: ConfiguredCore, src: Result<u32>|
        #[trigger] operator::dy_rel(c0, mid, src) && match src {
            Err(e) => r == Err::<Cycles, Exception>(e) && c1 == mid,
            Ok(v) => {
                let reg = ir_ax(mid.ir);
                &&& r == Ok::<Cycles, Exception>(Cycles(6))
                &&& reg_set(mid, c1, reg, wsub(mid.dar[reg], v))
            },
        }
}

/// SUBA: the source, as a long word, subtracted from Ax; no flag changes.
pub fn suba_32_dn(core: &mut ConfiguredCore) -> (r: Result<Cycles>)
    requires
        old(core).wf(),
    ensures
        final(core).wf(),
        suba_32_dn_effect(*old(core), *final(core), r),
{
    let ghost c0 = *core;
    let src = operator::dy(core);
    let ghost mid = *core;
    assert(operator::dy_rel(c0, mid, src));
    match src {
        Err(e) => Err(e),
        Ok(v) => {
            let reg = reg_ax(core.ir);
            let dst = core.dar[reg];
            let x: u32 = v;
            assert(dst.wrapping_sub(x) == wsub(dst, x));
            set_reg(core, reg, dst.wrapping_sub(x));
            Ok(Cycles(6))
        },
    }
}

/// What `suba_32_an` does: the core goes from `c0` to `c1` and `r` comes back.
pub open spec fn suba_32_an_effect(c0: ConfiguredCore, c1: ConfiguredCore, r: Result<Cycles>) -> bool {
    exists|mid: ConfiguredCore, src: Result<u32>|
        #[trigger] operator::ay_rel(c0, mid, src) && match src {
            Err(e) => r == Err::<Cycles, Exception>(e) && c1 == mid,
            Ok(v) => {
                let reg = ir_ax(mid.ir);
                &&& r == Ok::<Cycles, Exception>(Cycles(6))
                &&& reg_set(mid, c1, reg, wsub(mid.dar[reg], v))
            },
        }
}

/// SUBA: the source, as a long word, subtracted from Ax; no flag changes.
pub fn suba_32_an(core: &mut ConfiguredCore) -> (r: Result<Cycles>)
    requires
        old(core).wf(),
    ensures
        final(core).wf(),
        suba_32_an_effect(*old(core), *final(core), r),
{
    let ghost c0 = *core;
    let src = operator::ay(core);
    let ghost mid = *core;
    assert(operator::ay_rel(c0, mid, src));
    match src {
        Err(e) => Err(e),
        Ok(v) => {
            let reg = reg_ax(core.ir);
            let dst = core.dar[reg];
            let x: u32 = v;
            assert(dst.wrapping_sub(x) == wsub(dst, x));
            set_reg(core, reg, dst.wrapping_sub(x));
            Ok(Cycles(6))
        },
    }
}

/// What `suba_32_ai` does: the core goes from `c0` to `c1` and `r` comes back.
pub open spec fn suba_32_ai_effect(c0: ConfiguredCore, c1: ConfiguredCore, r: Result<Cycles>) -> bool {
    exists|mid: ConfiguredCore, src: Result<u32>|
        #[trigger] operator::ay_ai_32_rel(c0, mid, src) && match src {
            Err(e) => r == Err::<Cycles, Exception>(e) && c1 == mid,
            Ok(v) => {
                let reg = ir_ax(mid.ir);
                &&& r == Ok::<Cycles, Exception>(Cycles(14))
                &&& reg_set(mid, c1, reg, wsub(mid.dar[reg], v))
            },
        }
}

/// SUBA: the source, as a long word, subtracted from Ax; no flag changes.
pub fn suba_32_ai(core: &mut ConfiguredCore) -> (r: Result<Cycles>)
    requires
        old(core).wf(),
    ensures
        final(core).wf(),
        suba_32_ai_effect(*old(core), *final(core), r),
{
    let ghost c0 = *core;
    let src = operator::ay_ai_32(core);
    let ghost mid = *core;
    assert(operator::ay_ai_32_rel(c0, mid, src));
    match src {
        Err(e) => Err(e),
        Ok(v) => {
            let reg = reg_ax(core.ir);
            let dst = core.dar[reg];
            let x: u32 = v;
            assert(dst.wrapping_sub(x) == wsub(dst, x));
            set_reg(core, reg, dst.wrapping_sub(x));
            Ok(Cycles(14))
        },
    }
}

/// What `suba_32_pi` does: the core goes from `c0` to `c1` and `r` comes back.
pub open spec fn suba_32_pi_effect(c0: ConfiguredCore, c1: ConfiguredCore, r: Result<Cycles>) -> bool {
    exists|mid: ConfiguredCore, src: Result<u32>|
        #[trigger] operator::ay_pi_32_rel(c0, mid, src) && match src {
            Err(e) => r == Err::<Cycles, Exception>(e) && c1 == mid,
            Ok(v) => {
                let reg = ir_ax(mid.ir);
                &&& r == Ok::<Cycles, Exception>(Cycles(14))
                &&& reg_set(mid, c1, reg, wsub(mid.dar[reg], v))
            },
        }
}

/// SUBA: the source, as a long word, subtracted from Ax; no flag changes.
pub fn suba_32_pi(core: &mut ConfiguredCore) -> (r: Result<Cycles>)
    requires
        old(core).wf(),
    ensures
        final(core).wf(),
        suba_32_pi_effect(*old(core), *final(core), r),
{
    let ghost c0 = *core;
    let src = operator::ay_pi_32(core);
    let ghost mid = *core;
    assert(operator::ay_pi_32_rel(c0, mid, src));
    match src {
        Err(e) => Err(e),
        Ok(v) => {
            let reg = reg_ax(core.ir);
            let dst = core.dar[reg];
            let x: u32 = v;
            assert(dst.wrapping_sub(x) == wsub(dst, x));
            set_reg(core, reg, dst.wrapping_sub(x));
            Ok(Cycles(14))
        },
    }
}

/// What `suba_32_pd` does: the core goes from `c0` to `c1` and `r` comes back.
pub open spec fn suba_32_pd_effect(c0: ConfiguredCore, c1: ConfiguredCore, r: Result<Cycles>) -> bool {
    exists|mid: ConfiguredCore, src: Result<u32>|
        #[trigger] operator::ay_pd_32_rel(c0, mid, src) && match src {
            Err(e) => r == Err::<Cycles, Exception>(e) && c1 == mid,
            Ok(v) => {
                let reg = ir_ax(mid.ir);
                &&& r == Ok::<Cycles, Exception>(Cycles(16))
                &&& reg_set(mid, c1, reg, wsub(mid.dar[reg], v))
            },
        }
}

/// SUBA: the source, as a long word, subtracted from Ax; no flag changes.
pub fn suba_32_pd(core: &mut ConfiguredCore) -> (r: Result<Cycles>)
    requires
        old(core).wf(),
    ensures
        final(core).wf(),
        suba_32_pd_effect(*old(core), *final(core), r),
{
    let ghost c0 = *core;
    let src = operator::ay_pd_32(core);
    let ghost mid = *core;
    assert(operator::ay_pd_32_rel(c0, mid, src));
    match src {
        Err(e) => Err(e),
        Ok(v) => {
            let reg = reg_ax(core.ir);
            let dst = core.dar[reg];
            let x: u32 = v;
            assert(dst.wrapping_sub(x) == wsub(dst, x));
            set_reg(core, reg, dst.wrapping_sub(x));
            Ok(Cycles(16))
        },
    }
}

/// What `suba_32_di` does: the core goes from `c0` to `c1` and `r` comes back.
pub open spec fn suba_32_di_effect(c0: ConfiguredCore, c1: ConfiguredCore, r: Result<Cycles>) -> bool {
    exists|mid: ConfiguredCore, src: Result<u32>|
        #[trigger] operator::ay_di_32_rel(c0, mid, src) && match src {
            Err(e) => r == Err::<Cycles, Exception>(e) && c1 == mid,
            Ok(v) => {
                let reg = ir_ax(mid.ir);
                &&& r == Ok::<Cycles, Exception>(Cycles(18))
                &&& reg_set(mid, c1, reg, wsub(mid.dar[reg], v))
            },
        }
}

/// SUBA: the source, as a long word, subtracted from Ax; no flag changes.
pub fn suba_32_di(core: &mut ConfiguredCore) -> (r: Result<Cycles>)
    requires
        old(core).wf(),
    ensures
        final(core).wf(),
        suba_32_di_effect(*old(core), *final(core), r),
{
    let ghost c0 = *core;
    let src = operator::ay_di_32(core);
    let ghost mid = *core;
    assert(operator::ay_di_32_rel(c0, mid, src));
    match src {
        Err(e) => Err(e),
        Ok(v) => {
            let reg = reg_ax(core.ir);
            let dst = core.dar[reg];
            let x: u32 = v;
            assert(dst.wrapping_sub(x) == wsub(dst, x));
            set_reg(core, reg, dst.wrapping_sub(x));
            Ok(Cycles(18))
        },
    }
}

/// What `suba_32_ix` does: the core goes from `c0` to `c1` and `r` comes back.
pub open spec fn suba_32_ix_effect(c0: ConfiguredCore, c1: ConfiguredCore, r: Result<Cycles>) -> bool {
    exists|mid: ConfiguredCore, src: Result<u32>|
        #[trigger] operator::ay_ix_32_rel(c0, mid, src) && match src {
            Err(e) => r == Err::<Cycles, Exception>(e) && c1 == mid,
            Ok(v) => {
                let reg = ir_ax(mid.ir);
                &&& r == Ok::<Cycles, Exception>(Cycles(20))
                &&& reg_set(mid, c1, reg, wsub(mid.dar[reg], v))
            },
        }
}

/// SUBA: the source, as a long word, subtracted from Ax; no flag changes.
pub fn suba_32_ix(core: &mut ConfiguredCore) -> (r: Result<Cycles>)
    requires
        old(core).wf(),
    ensures
        final(core).wf(),
        suba_32_ix_effect(*old(core), *final(core), r),
{
    let ghost c0 = *core;
    let src = operator::ay_ix_32(core);
    let ghost mid = *core;
    assert(operator::ay_ix_32_rel(c0, mid, src));
    match src {
        Err(e) => Err(e),
        Ok(v) => {
            let reg = reg_ax(core.ir);
            let dst = core.dar[reg];
            let x: u32 = v;
            assert(dst.wrapping_sub(x) == wsub(dst, x));
            set_reg(core, reg, dst.wrapping_sub(x));
            Ok(Cycles(20))
        },
    }
}

/// What `suba_32_aw` does: the core goes from `c0` to `c1` and `r` comes back.
pub open spec fn suba_32_aw_effect(c0: ConfiguredCore, c1: ConfiguredCore, r: Result<Cycles>) -> bool {
    exists|mid: ConfiguredCore, src: Result<u32>|
        #[trigger] operator::aw_32_rel(c0, mid, src) && match src {
            Err(e) => r == Err::<Cycles, Exception>(e) && c1 == mid,
            Ok(v) => {
                let reg = ir_ax(mid.ir);
                &&& r == Ok::<Cycles, Exception>(Cycles(18))
                &&& reg_set(mid, c1, reg, wsub(mid.dar[reg], v))
            },
        }
}

/// SUBA: the source, as a long word, subtracted from Ax; no flag changes.
pub fn suba_32_aw(core: &mut ConfiguredCore) -> (r: Result<Cycles>)
    requires
        old(core).wf(),
    ensures
        final(core).wf(),
        suba_32_aw_effect(*old(core), *final(core), r),
{
    let ghost c0 = *core;
    let src = operator::aw_32(core);
    let ghost mid = *core;
    assert(operator::aw_32_rel(c0, mid, src));
    match src {
        Err(e) => Err(e),
        Ok(v) => {
            let reg = reg_ax(core.ir);
            let dst = core.dar[reg];
            let x: u32 = v;
            assert(dst.wrapping_sub(x) == wsub(dst, x));
            set_reg(core, reg, dst.wrapping_sub(x));
            Ok(Cycles(18))
        },
    }
}

/// What `suba_32_al` does: the core goes from `c0` to `c1` and `r` comes back.
pub open spec fn suba_32_al_effect(c0: ConfiguredCore, c1: ConfiguredCore, r: Result<Cycles>) -> bool {
    exists|mid: ConfiguredCore, src: Result<u32>|
        #[trigger] operator::al_32_rel(c0, mid, src) && match src {
            Err(e) => r == Err::<Cycles, Exception>(e) && c1 == mid,
            Ok(v) => {
                let reg = ir_ax(mid.ir);
                &&& r == Ok::<Cycles, Exception>(Cycles(22))
                &&& reg_set(mid, c1, reg, wsub(mid.dar[reg], v))
            },
        }
}

/// SUBA: the source, as a long word, subtracted from Ax; no flag changes.
pub fn suba_32_al(core: &mut ConfiguredCore) -> (r: Result<Cycles>)
    requires
        old(core).wf(),
    ensures
        final(core).wf(),
        suba_32_al_effect(*old(core), *final(core), r),
{
    let ghost c0 = *core;
    let src = operator::al_32(core);
    let ghost mid = *core;
    assert(operator::al_32_rel(c0, mid, src));
    match src {
        Err(e) => Err(e),
        Ok(v) => {
            let reg = reg_ax(core.ir);
            let dst = core.dar[reg];
            let x: u32 = v;
            assert(dst.wrapping_sub(x) == wsub(dst, x));
            set_reg(core, reg, dst.wrapping_sub(x));
            Ok(Cycles(22))
        },
    }
}

/// What `suba_32_pcdi` does: the core goes from `c0` to `c1` and `r` comes back.
pub open spec fn suba_32_pcdi_effect(c0: ConfiguredCore, c1: ConfiguredCore, r: Result<Cycles>) -> bool {
    exists|mid: ConfiguredCore, src: Result<u32>|
        #[trigger] operator::pcdi_32_rel(c0, mid, src) && match src {
            Err(e) => r == Err::<Cycles, Exception>(e) && c1 == mid,
            Ok(v) => {
                let reg = ir_ax(mid.ir);
                &&& r == Ok::<Cycles, Exception>(Cycles(18))
                &&& reg_set(mid, c1, reg, wsub(mid.dar[reg], v))
            },
        }
}

/// SUBA: the source, as a long word, subtracted from Ax; no flag changes.
pub fn suba_32_pcdi(core: &mut ConfiguredCore) -> (r: Result<Cycles>)
    requires
        old(core).wf(),
    ensures
        final(core).wf(),
        suba_32_pcdi_effect(*old(core), *final(core), r),
{
    let ghost c0 = *core;
    let src = operator::pcdi_32(core);
    let ghost mid = *core;
    assert(operator::pcdi_32_rel(c0, mid, src));
    match src {
        Err(e) => Err(e),
        Ok(v) => {
            let reg = reg_ax(core.ir);
            let dst = core.dar[reg];
            let x: u32 = v;
            assert(dst.wrapping_sub(x) == wsub(dst, x));
            set_reg(core, reg, dst.wrapping_sub(x));
            Ok(Cycles(18))
        },
    }
}

/// What `suba_32_pcix` does: the core goes from `c0` to `c1` and `r` comes back.
pub open spec fn suba_32_pcix_effect(c0: ConfiguredCore, c1: ConfiguredCore, r: Result<Cycles>) -> bool {
    exists|mid: ConfiguredCore, src: Result<u32>|
        #[trigger] operator::pcix_32_rel(c0, mid, src) && match src {
            Err(e) => r == Err::<Cycles, Exception>(e) && c1 == mid,
            Ok(v) => {
                let reg = ir_ax(mid.ir);
                &&& r == Ok::<Cycles, Exception>(Cycles(20))
                &&& reg_set(mid, c1, reg, wsub(mid.dar[reg], v))
            },
        }
}

/// SUBA: the source, as a long word, subtracted from Ax; no flag changes.
pub fn suba_32_pcix(core: &mut ConfiguredCore) -> (r: Result<Cycles>)
    requires
        old(core).wf(),
    ensures
        final(core).wf(),
        suba_32_pcix_effect(*old(core), *final(core), r),
{
    let ghost c0 = *core;
    let src = operator::pcix_32(core);
    let ghost mid = *core;
    assert(operator::pcix_32_rel(c0, mid, src));
    match src {
        Err(e) => Err(e),
        Ok(v) => {
            let reg = reg_ax(core.ir);
            let dst = core.dar[reg];
            let x: u32 = v;
            assert(dst.wrapping_sub(x) == wsub(dst, x));
            set_reg(core, reg, dst.wrapping_sub(x));
            Ok(Cycles(20))
        },
    }
}

/// What `suba_32_imm` does: the core goes from `c0` to `c1` and `r` comes back.
pub open spec fn suba_32_imm_effect(c0: ConfiguredCore, c1: ConfiguredCore, r: Result<Cycles>) -> bool {
    exists|mid: ConfiguredCore, src: Result<u32>|
        #[trigger] operator::imm_32_rel(c0, mid, src) && match src {
            Err(e) => r == Err::<Cycles, Exception>(e) && c1 == mid,
            Ok(v) => {
                let reg = ir_ax(mid.ir);
                &&& r == Ok::<Cycles, Exception>(Cycles(16))
                &&& reg_set(mid, c1, reg, wsub(mid.dar[reg], v))
            },
        }
}

/// SUBA: the source, as a long word, subtracted from Ax; no flag changes.
pub fn suba_32_imm(core: &mut ConfiguredCore) -> (r: Result<Cycles>)
    requires
        old(core).wf(),
    ensures
        final(core).wf(),
        suba_32_imm_effect(*old(core), *final(core), r),
{
    let ghost c0 = *core;
    let src = operator::imm_32(core);
    let ghost mid = *core;
    assert(operator::imm_32_rel(c0, mid, src));
    match src {
        Err(e) => Err(e),
        Ok(v) => {
            let reg = reg_ax(core.ir);
            let dst = core.dar[reg];
            let x: u32 = v;
            assert(dst.wrapping_sub(x) == wsub(dst, x));
            set_reg(core, reg, dst.wrapping_sub(x));
            Ok(Cycles(16))
        },
    }
}

/// ADDA, SUBA, CMPA, and the word multiplications and divisions.
#[derive(Clone, Copy, Debug, PartialEq, Eq, Structural)]
pub enum ArithOp {
    Adda16Dn,
    Adda16An,
    Adda16Ai,
    Adda16Pi,
    Adda16Pd,
    Adda16Di,
    Adda16Ix,
    Adda16Aw,
    Adda16Al,
    Adda16Pcdi,
    Adda16Pcix,
    Adda16Imm,
    Adda32Dn,
    Adda32An,
    Adda32Ai,
    Adda32Pi,
    Adda32Pd,
    Adda32Di,
    Adda32Ix,
    Adda32Aw,
    Adda32Al,
    Adda32Pcdi,
    Adda32Pcix,
    Adda32Imm,
    Cmpa16Dn,
    Cmpa16An,
    Cmpa16Ai,
    Cmpa16Pi,
    Cmpa16Pd,
    Cmpa16Di,
    Cmpa16Ix,
    Cmpa16Aw,
    Cmpa16Al,
    Cmpa16Pcdi,
    Cmpa16Pcix,
    Cmpa16Imm,
    Cmpa32Dn,
    Cmpa32An,
    Cmpa32Ai,
    Cmpa32Pi,
    Cmpa32Pd,
    Cmpa32Di,
    Cmpa32Ix,
    Cmpa32Aw,
    Cmpa32Al,
    Cmpa32Pcdi,
    Cmpa32Pcix,
    Cmpa32Imm,
    Divs16Dn,
    Divs16Ai,
    Divs16Pi,
    Divs16Pd,
    Divs16Di,
    Divs16Ix,
    Divs16Aw,
    Divs16Al,
    Divs16Pcdi,
    Divs16Pcix,
    Divs16Imm,
    Divu16Dn,
    Divu16Ai,
    Divu16Pi,
    Divu16Pd,
    Divu16Di,
    Divu16Ix,
    Divu16Aw,
    Divu16Al,
    Divu16Pcdi,
    Divu16Pcix,
    Divu16Imm,
    Muls16Dn,
    Muls16Ai,
    Muls16Pi,
    Muls16Pd,
    Muls16Di,
    Muls16Ix,
    Muls16Aw,
    Muls16Al,
    Muls16Pcdi,
    Muls16Pcix,
    Muls16Imm,
    Mulu16Dn,
    Mulu16Ai,
    Mulu16Pi,
    Mulu16Pd,
    Mulu16Di,
    Mulu16Ix,
    Mulu16Aw,
    Mulu16Al,
    Mulu16Pcdi,
    Mulu16Pcix,
    Mulu16Imm,
    Suba16Dn,
    Suba16An,
    Suba16Ai,
    Suba16Pi,
    Suba16Pd,
    Suba16Di,
    Suba16Ix,
    Suba16Aw,
    Suba16Al,
    Suba16Pcdi,
    Suba16Pcix,
    Suba16Imm,
    Suba32Dn,
    Suba32An,
    Suba32Ai,
    Suba32Pi,
    Suba32Pd,
    Suba32Di,
    Suba32Ix,
    Suba32Aw,
    Suba32Al,
    Suba32Pcdi,
    Suba32Pcix,
    Suba32Imm,
}

/// What the instruction `op` does: the core goes from `c0` to `c1` and `r`
/// comes back.
pub open spec fn effect(op: ArithOp, c0: ConfiguredCore, c1: ConfiguredCore, r: Result<Cycles>) -> bool {
    match op {
        ArithOp::Adda16Dn => adda_16_dn_effect(c0, c1, r),
        ArithOp::Adda16An => adda_16_an_effect(c0, c1, r),
        ArithOp::Adda16Ai => adda_16_ai_effect(c0, c1, r),
        ArithOp::Adda16Pi => adda_16_pi_effect(c0, c1, r),
        ArithOp::Adda16Pd => adda_16_pd_effect(c0, c1, r),
        ArithOp::Adda16Di => adda_16_di_effect(c0, c1, r),
        ArithOp::Adda16Ix => adda_16_ix_effect(c0, c1, r),
        ArithOp::Adda16Aw => adda_16_aw_effect(c0, c1, r),
        ArithOp::Adda16Al => adda_16_al_effect(c0, c1, r),
        ArithOp::Adda16Pcdi => adda_16_pcdi_effect(c0, c1, r),
        ArithOp::Adda16Pcix => adda_16_pcix_effect(c0, c1, r),
        ArithOp::Adda16Imm => adda_16_imm_effect(c0, c1, r),
        ArithOp::Adda32Dn => adda_32_dn_effect(c0, c1, r),
        ArithOp::Adda32An => adda_32_an_effect(c0, c1, r),
        ArithOp::Adda32Ai => adda_32_ai_effect(c0, c1, r),
        ArithOp::Adda32Pi => adda_32_pi_effect(c0, c1, r),
        ArithOp::Adda32Pd => adda_32_pd_effect(c0, c1, r),
        ArithOp::Adda32Di => adda_32_di_effect(c0, c1, r),
        ArithOp::Adda32Ix => adda_32_ix_effect(c0, c1, r),
        ArithOp::Adda32Aw => adda_32_aw_effect(c0, c1, r),
        ArithOp::Adda32Al => adda_32_al_effect(c0, c1, r),
        ArithOp::Adda32Pcdi => adda_32_pcdi_effect(c0, c1, r),
        ArithOp::Adda32Pcix => adda_32_pcix_effect(c0, c1, r),
        ArithOp::Adda32Imm => adda_32_imm_effect(c0, c1, r),
        ArithOp::Cmpa16Dn => cmpa_16_dn_effect(c0, c1, r),
        ArithOp::Cmpa16An => cmpa_16_an_effect(c0, c1, r),
        ArithOp::Cmpa16Ai => cmpa_16_ai_effect(c0, c1, r),
        ArithOp::Cmpa16Pi => cmpa_16_pi_effect(c0, c1, r),
        ArithOp::Cmpa16Pd => cmpa_16_pd_effect(c0, c1, r),
        ArithOp::Cmpa16Di => cmpa_16_di_effect(c0, c1, r),
        ArithOp::Cmpa16Ix => cmpa_16_ix_effect(c0, c1, r),
        ArithOp::Cmpa16Aw => cmpa_16_aw_effect(c0, c1, r),
        ArithOp::Cmpa16Al => cmpa_16_al_effect(c0, c1, r),
        ArithOp::Cmpa16Pcdi => cmpa_16_pcdi_effect(c0, c1, r),
        ArithOp::Cmpa16Pcix => cmpa_16_pcix_effect(c0, c1, r),
        ArithOp::Cmpa16Imm => cmpa_16_imm_effect(c0, c1, r),
        ArithOp::Cmpa32Dn => cmpa_32_dn_effect(c0, c1, r),
        ArithOp::Cmpa32An => cmpa_32_an_effect(c0, c1, r),
        ArithOp::Cmpa32Ai => cmpa_32_ai_effect(c0, c1, r),
        ArithOp::Cmpa32Pi => cmpa_32_pi_effect(c0, c1, r),
        ArithOp::Cmpa32Pd => cmpa_32_pd_effect(c0, c1, r),
        ArithOp::Cmpa32Di => cmpa_32_di_effect(c0, c1, r),
        ArithOp::Cmpa32Ix => cmpa_32_ix_effect(c0, c1, r),
        ArithOp::Cmpa32Aw => cmpa_32_aw_effect(c0, c1, r),
        ArithOp::Cmpa32Al => cmpa_32_al_effect(c0, c1, r),
        ArithOp::Cmpa32Pcdi => cmpa_32_pcdi_effect(c0, c1, r),
        ArithOp::Cmpa32Pcix => cmpa_32_pcix_effect(c0, c1, r),
        ArithOp::Cmpa32Imm => cmpa_32_imm_effect(c0, c1, r),
        ArithOp::Divs16Dn => divs_16_dn_effect(c0, c1, r),
        ArithOp::Divs16Ai => divs_16_ai_effect(c0, c1, r),
        ArithOp::Divs16Pi => divs_16_pi_effect(c0, c1, r),
        ArithOp::Divs16Pd => divs_16_pd_effect(c0, c1, r),
        ArithOp::Divs16Di => divs_16_di_effect(c0, c1, r),
        ArithOp::Divs16Ix => divs_16_ix_effect(c0, c1, r),
        ArithOp::Divs16Aw => divs_16_aw_effect(c0, c1, r),
        ArithOp::Divs16Al => divs_16_al_effect(c0, c1, r),
        ArithOp::Divs16Pcdi => divs_16_pcdi_effect(c0, c1, r),
        ArithOp::Divs16Pcix => divs_16_pcix_effect(c0, c1, r),
        ArithOp::Divs16Imm => divs_16_imm_effect(c0, c1, r),
        ArithOp::Divu16Dn => divu_16_dn_effect(c0, c1, r),
        ArithOp::Divu16Ai => divu_16_ai_effect(c0, c1, r),
        ArithOp::Divu16Pi => divu_16_pi_effect(c0, c1, r),
        ArithOp::Divu16Pd => divu_16_pd_effect(c0, c1, r),
        ArithOp::Divu16Di => divu_16_di_effect(c0, c1, r),
        ArithOp::Divu16Ix => divu_16_ix_effect(c0, c1, r),
        ArithOp::Divu16Aw => divu_16_aw_effect(c0, c1, r),
        ArithOp::Divu16Al => divu_16_al_effect(c0, c1, r),
        ArithOp::Divu16Pcdi => divu_16_pcdi_effect(c0, c1, r),
        ArithOp::Divu16Pcix => divu_16_pcix_effect(c0, c1, r),
        ArithOp::Divu16Imm => divu_16_imm_effect(c0, c1, r),
        ArithOp::Muls16Dn => muls_16_dn_effect(c0, c1, r),
        ArithOp::Muls16Ai => muls_16_ai_effect(c0, c1, r),
        ArithOp::Muls16Pi => muls_16_pi_effect(c0, c1, r),
        ArithOp::Muls16Pd => muls_16_pd_effect(c0, c1, r),
        ArithOp::Muls16Di => muls_16_di_effect(c0, c1, r),
        ArithOp::Muls16Ix => muls_16_ix_effect(c0, c1, r),
        ArithOp::Muls16Aw => muls_16_aw_effect(c0, c1, r),
        ArithOp::Muls16Al => muls_16_al_effect(c0, c1, r),
        ArithOp::Muls16Pcdi => muls_16_pcdi_effect(c0, c1, r),
        ArithOp::Muls16Pcix => muls_16_pcix_effect(c0, c1, r),
        ArithOp::Muls16Imm => muls_16_imm_effect(c0, c1, r),
        ArithOp::Mulu16Dn => mulu_16_dn_effect(c0, c1, r),
        ArithOp::Mulu16Ai => mulu_16_ai_effect(c0, c1, r),
        ArithOp::Mulu16Pi => mulu_16_pi_effect(c0, c1, r),
        ArithOp::Mulu16Pd => mulu_16_pd_effect(c0, c1, r),
        ArithOp::Mulu16Di => mulu_16_di_effect(c0, c1, r),
        ArithOp::Mulu16Ix => mulu_16_ix_effect(c0, c1, r),
        ArithOp::Mulu16Aw => mulu_16_aw_effect(c0, c1, r),
        ArithOp::Mulu16Al => mulu_16_al_effect(c0, c1, r),
        ArithOp::Mulu16Pcdi => mulu_16_pcdi_effect(c0, c1, r),
        ArithOp::Mulu16Pcix => mulu_16_pcix_effect(c0, c1, r),
        ArithOp::Mulu16Imm => mulu_16_imm_effect(c0, c1, r),
        ArithOp::Suba16Dn => suba_16_dn_effect(c0, c1, r),
        ArithOp::Suba16An => suba_16_an_effect(c0, c1, r),
        ArithOp::Suba16Ai => suba_16_ai_effect(c0, c1, r),
        ArithOp::Suba16Pi => suba_16_pi_effect(c0, c1, r),
        ArithOp::Suba16Pd => suba_16_pd_effect(c0, c1, r),
        ArithOp::Suba16Di => suba_16_di_effect(c0, c1, r),
        ArithOp::Suba16Ix => suba_16_ix_effect(c0, c1, r),
        ArithOp::Suba16Aw => suba_16_aw_effect(c0, c1, r),
        ArithOp::Suba16Al => suba_16_al_effect(c0, c1, r),
        ArithOp::Suba16Pcdi => suba_16_pcdi_effect(c0, c1, r),
        ArithOp::Suba16Pcix => suba_16_pcix_effect(c0, c1, r),
        ArithOp::Suba16Imm => suba_16_imm_effect(c0, c1, r),
        ArithOp::Suba32Dn => suba_32_dn_effect(c0, c1, r),
        ArithOp::Suba32An => suba_32_an_effect(c0, c1, r),
        ArithOp::Suba32Ai => suba_32_ai_effect(c0, c1, r),
        ArithOp::Suba32Pi => suba_32_pi_effect(c0, c1, r),
        ArithOp::Suba32Pd => suba_32_pd_effect(c0, c1, r),
        ArithOp::Suba32Di => suba_32_di_effect(c0, c1, r),
        ArithOp::Suba32Ix => suba_32_ix_effect(c0, c1, r),
        ArithOp::Suba32Aw => suba_32_aw_effect(c0, c1, r),
        ArithOp::Suba32Al => suba_32_al_effect(c0, c1, r),
        ArithOp::Suba32Pcdi => suba_32_pcdi_effect(c0, c1, r),
        ArithOp::Suba32Pcix => suba_32_pcix_effect(c0, c1, r),
        ArithOp::Suba32Imm => suba_32_imm_effect(c0, c1, r),
    }
}

/// Runs the instruction `op` on the core.
pub fn run(core: &mut ConfiguredCore, op: ArithOp) -> (r: Result<Cycles>)
    requires
        old(core).wf(),
    ensures
        final(core).wf(),
        effect(op, *old(core), *final(core), r),
{
    match op {
        ArithOp::Adda16Dn => adda_16_dn(core),
        ArithOp::Adda16An => adda_16_an(core),
        ArithOp::Adda16Ai => adda_16_ai(core),
        ArithOp::Adda16Pi => adda_16_pi(core),
        ArithOp::Adda16Pd => adda_16_pd(core),
        ArithOp::Adda16Di => adda_16_di(core),
        ArithOp::Adda16Ix => adda_16_ix(core),
        ArithOp::Adda16Aw => adda_16_aw(core),
        ArithOp::Adda16Al => adda_16_al(core),
        ArithOp::Adda16Pcdi => adda_16_pcdi(core),
        ArithOp::Adda16Pcix => adda_16_pcix(core),
        ArithOp::Adda16Imm => adda_16_imm(core),
        ArithOp::Adda32Dn => adda_32_dn(core),
        ArithOp::Adda32An => adda_32_an(core),
        ArithOp::Adda32Ai => adda_32_ai(core),
        ArithOp::Adda32Pi => adda_32_pi(core),
        ArithOp::Adda32Pd => adda_32_pd(core),
        ArithOp::Adda32Di => adda_32_di(core),
        ArithOp::Adda32Ix => adda_32_ix(core),
        ArithOp::Adda32Aw => adda_32_aw(core),
        ArithOp::Adda32Al => adda_32_al(core),
        ArithOp::Adda32Pcdi => adda_32_pcdi(core),
        ArithOp::Adda32Pcix => adda_32_pcix(core),
        ArithOp::Adda32Imm => adda_32_imm(core),
        ArithOp::Cmpa16Dn => cmpa_16_dn(core),
        ArithOp::Cmpa16An => cmpa_16_an(core),
        ArithOp::Cmpa16Ai => cmpa_16_ai(core),
        ArithOp::Cmpa16Pi => cmpa_16_pi(core),
        ArithOp::Cmpa16Pd => cmpa_16_pd(core),
        ArithOp::Cmpa16Di => cmpa_16_di(core),
        ArithOp::Cmpa16Ix => cmpa_16_ix(core),
        ArithOp::Cmpa16Aw => cmpa_16_aw(core),
        ArithOp::Cmpa16Al => cmpa_16_al(core),
        ArithOp::Cmpa16Pcdi => cmpa_16_pcdi(core),
        ArithOp::Cmpa16Pcix => cmpa_16_pcix(core),
        ArithOp::Cmpa16Imm => cmpa_16_imm(core),
        ArithOp::Cmpa32Dn => cmpa_32_dn(core),
        ArithOp::Cmpa32An => cmpa_32_an(core),
        ArithOp::Cmpa32Ai => cmpa_32_ai(core),
        ArithOp::Cmpa32Pi => cmpa_32_pi(core),
        ArithOp::Cmpa32Pd => cmpa_32_pd(core),
        ArithOp::Cmpa32Di => cmpa_32_di(core),
        ArithOp::Cmpa32Ix => cmpa_32_ix(core),
        ArithOp::Cmpa32Aw => cmpa_32_aw(core),
        ArithOp::Cmpa32Al => cmpa_32_al(core),
        ArithOp::Cmpa32Pcdi => cmpa_32_pcdi(core),
        ArithOp::Cmpa32Pcix => cmpa_32_pcix(core),
        ArithOp::Cmpa32Imm => cmpa_32_imm(core),
        ArithOp::Divs16Dn => divs_16_dn(core),
        ArithOp::Divs16Ai => divs_16_ai(core),
        ArithOp::Divs16Pi => divs_16_pi(core),
        ArithOp::Divs16Pd => divs_16_pd(core),
        ArithOp::Divs16Di => divs_16_di(core),
        ArithOp::Divs16Ix => divs_16_ix(core),
        ArithOp::Divs16Aw => divs_16_aw(core),
        ArithOp::Divs16Al => divs_16_al(core),
        ArithOp::Divs16Pcdi => divs_16_pcdi(core),
        ArithOp::Divs16Pcix => divs_16_pcix(core),
        ArithOp::Divs16Imm => divs_16_imm(core),
        ArithOp::Divu16Dn => divu_16_dn(core),
        ArithOp::Divu16Ai => divu_16_ai(core),
        ArithOp::Divu16Pi => divu_16_pi(core),
        ArithOp::Divu16Pd => divu_16_pd(core),
        ArithOp::Divu16Di => divu_16_di(core),
        ArithOp::Divu16Ix => divu_16_ix(core),
        ArithOp::Divu16Aw => divu_16_aw(core),
        ArithOp::Divu16Al => divu_16_al(core),
        ArithOp::Divu16Pcdi => divu_16_pcdi(core),
        ArithOp::Divu16Pcix => divu_16_pcix(core),
        ArithOp::Divu16Imm => divu_16_imm(core),
        ArithOp::Muls16Dn => muls_16_dn(core),
        ArithOp::Muls16Ai => muls_16_ai(core),
        ArithOp::Muls16Pi => muls_16_pi(core),
        ArithOp::Muls16Pd => muls_16_pd(core),
        ArithOp::Muls16Di => muls_16_di(core),
        ArithOp::Muls16Ix => muls_16_ix(core),
        ArithOp::Muls16Aw => muls_16_aw(core),
        ArithOp::Muls16Al => muls_16_al(core),
        ArithOp::Muls16Pcdi => muls_16_pcdi(core),
        ArithOp::Muls16Pcix => muls_16_pcix(core),
        ArithOp::Muls16Imm => muls_16_imm(core),
        ArithOp::Mulu16Dn => mulu_16_dn(core),
        ArithOp::Mulu16Ai => mulu_16_ai(core),
        ArithOp::Mulu16Pi => mulu_16_pi(core),
        ArithOp::Mulu16Pd => mulu_16_pd(core),
        ArithOp::Mulu16Di => mulu_16_di(core),
        ArithOp::Mulu16Ix => mulu_16_ix(core),
        ArithOp::Mulu16Aw => mulu_16_aw(core),
        ArithOp::Mulu16Al => mulu_16_al(core),
        ArithOp::Mulu16Pcdi => mulu_16_pcdi(core),
        ArithOp::Mulu16Pcix => mulu_16_pcix(core),
        ArithOp::Mulu16Imm => mulu_16_imm(core),
        ArithOp::Suba16Dn => suba_16_dn(core),
        ArithOp::Suba16An => suba_16_an(core),
        ArithOp::Suba16Ai => suba_16_ai(core),
        ArithOp::Suba16Pi => suba_16_pi(core),
        ArithOp::Suba16Pd => suba_16_pd(core),
        ArithOp::Suba16Di => suba_16_di(core),
        ArithOp::Suba16Ix => suba_16_ix(core),
        ArithOp::Suba16Aw => suba_16_aw(core),
        ArithOp::Suba16Al => suba_16_al(core),
        ArithOp::Suba16Pcdi => suba_16_pcdi(core),
        ArithOp::Suba16Pcix => suba_16_pcix(core),
        ArithOp::Suba16Imm => suba_16_imm(core),
        ArithOp::Suba32Dn => suba_32_dn(core),
        ArithOp::Suba32An => suba_32_an(core),
        ArithOp::Suba32Ai => suba_32_ai(core),
        ArithOp::Suba32Pi => suba_32_pi(core),
        ArithOp::Suba32Pd => suba_32_pd(core),
        ArithOp::Suba32Di => suba_32_di(core),
        ArithOp::Suba32Ix => suba_32_ix(core),
        ArithOp::Suba32Aw => suba_32_aw(core),
        ArithOp::Suba32Al => suba_32_al(core),
        ArithOp::Suba32Pcdi => suba_32_pcdi(core),
        ArithOp::Suba32Pcix => suba_32_pcix(core),
        ArithOp::Suba32Imm => suba_32_imm(core),
    }
}

} // verus!
