use vstd::prelude::*;
use crate::cpu::{ConfiguredCore, Cycles, Exception, Result, AccessType, data_written, pushed_32, branched, wadd, wsub, ir_dx, ir_dy, ir_ax, ir_ay, reg_dx, reg_dy, reg_ax, reg_ay, condition};
use crate::cpu::effective_address;
use crate::cpu::operator;
use crate::cpu::ops::common;
use crate::cpu::ops::{stored, store, reg_set, merged, merge, set_reg, write_sized, stack_error, stack_fault, sp_odd, privilege_violation, short_offset, long_branch_done};

verus! {

/// The shift count of a register shift: the source modulo 64.
fn shift_count(v: u32) -> (s: u32)
    ensures
        s == v & 0x3f,
        s < 64,
{
    let s = v & 0x3f;
    assert(v & 0x3f < 64) by (bit_vector);
    s
}

/// What `asr_8_s` does: the core goes from `c0` to `c1` and `r` comes back.
pub open spec fn asr_8_s_effect(c0: ConfiguredCore, c1: ConfiguredCore, r: Result<Cycles>) -> bool {
    exists|mid: ConfiguredCore, src: Result<u32>|
        #[trigger] operator::quick_rel(c0, mid, src) && match src {
            Err(e) => r == Err::<Cycles, Exception>(e) && c1 == mid,
            Ok(v) => {
                let shift = v & 0x3f;
                let reg = ir_dy(mid.ir);
                let o = common::asr_8_outcome(mid, mid.dar[reg], shift);
                &&& r == Ok::<Cycles, Exception>(Cycles((6 + 2 * shift) as i32))
                &&& reg_set(o.0, c1, reg, merged(mid.dar[reg], o.1, 8))
            },
        }
}

/// ASR of Dy by an immediate count; two more cycles per bit.
pub fn asr_8_s(core: &mut ConfiguredCore) -> (r: Result<Cycles>)
    requires
        old(core).wf(),
    ensures
        final(core).wf(),
        asr_8_s_effect(*old(core), *final(core), r),
{
    let ghost c0 = *core;
    let src = operator::quick(core);
    let ghost mid = *core;
    assert(operator::quick_rel(c0, mid, src));
    match src {
        Err(e) => Err(e),
        Ok(v) => {
            let shift = shift_count(v);
            let reg = reg_dy(core.ir);
            let dst = core.dar[reg];
            let res = common::asr_8(core, dst, shift);
            set_reg(core, reg, merge(dst, res, 8));
            Ok(Cycles(6 + 2 * (shift as i32)))
        },
    }
}

/// What `asr_16_s` does: the core goes from `c0` to `c1` and `r` comes back.
pub open spec fn asr_16_s_effect(c0: ConfiguredCore, c1: ConfiguredCore, r: Result<Cycles>) -> bool {
    exists|mid: ConfiguredCore, src: Result<u32>|
        #[trigger] operator::quick_rel(c0, mid, src) && match src {
            Err(e) => r == Err::<Cycles, Exception>(e) && c1 == mid,
            Ok(v) => {
                let shift = v & 0x3f;
                let reg = ir_dy(mid.ir);
                let o = common::asr_16_outcome(mid, mid.dar[reg], shift);
                &&& r == Ok::<Cycles, Exception>(Cycles((6 + 2 * shift) as i32))
                &&& reg_set(o.0, c1, reg, merged(mid.dar[reg], o.1, 16))
            },
        }
}

/// ASR of Dy by an immediate count; two more cycles per bit.
pub fn asr_16_s(core: &mut ConfiguredCore) -> (r: Result<Cycles>)
    requires
        old(core).wf(),
    ensures
        final(core).wf(),
        asr_16_s_effect(*old(core), *final(core), r),
{
    let ghost c0 = *core;
    let src = operator::quick(core);
    let ghost mid = *core;
    assert(operator::quick_rel(c0, mid, src));
    match src {
        Err(e) => Err(e),
        Ok(v) => {
            let shift = shift_count(v);
            let reg = reg_dy(core.ir);
            let dst = core.dar[reg];
            let res = common::asr_16(core, dst, shift);
            set_reg(core, reg, merge(dst, res, 16));
            Ok(Cycles(6 + 2 * (shift as i32)))
        },
    }
}

/// What `asr_32_s` does: the core goes from `c0` to `c1` and `r` comes back.
pub open spec fn asr_32_s_effect(c0: ConfiguredCore, c1: ConfiguredCore, r: Result<Cycles>) -> bool {
    exists|mid: ConfiguredCore, src: Result<u32>|
        #[trigger] operator::quick_rel(c0, mid, src) && match src {
            Err(e) => r == Err::<Cycles, Exception>(e) && c1 == mid,
            Ok(v) => {
                let shift = v & 0x3f;
                let reg = ir_dy(mid.ir);
                let o = common::asr_32_outcome(mid, mid.dar[reg], shift);
                &&& r == Ok::<Cycles, Exception>(Cycles((8 + 2 * shift) as i32))
                &&& reg_set(o.0, c1, reg, merged(mid.dar[reg], o.1, 32))
            },
        }
}

/// ASR of Dy by an immediate count; two more cycles per bit.
pub fn asr_32_s(core: &mut ConfiguredCore) -> (r: Result<Cycles>)
    requires
        old(core).wf(),
    ensures
        final(core).wf(),
        asr_32_s_effect(*old(core), *final(core), r),
{
    let ghost c0 = *core;
    let src = operator::quick(core);
    let ghost mid = *core;
    assert(operator::quick_rel(c0, mid, src));
    match src {
        Err(e) => Err(e),
        Ok(v) => {
            let shift = shift_count(v);
            let reg = reg_dy(core.ir);
            let dst = core.dar[reg];
            let res = common::asr_32(core, dst, shift);
            set_reg(core, reg, merge(dst, res, 32));
            Ok(Cycles(8 + 2 * (shift as i32)))
        },
    }
}

/// What `asr_8_r` does: the core goes from `c0` to `c1` and `r` comes back.
pub open spec fn asr_8_r_effect(c0: ConfiguredCore, c1: ConfiguredCore, r: Result<Cycles>) -> bool {
    exists|mid: ConfiguredCore, src: Result<u32>|
        #[trigger] operator::dx_rel(c0, mid, src) && match src {
            Err(e) => r == Err::<Cycles, Exception>(e) && c1 == mid,
            Ok(v) => {
                let shift = v & 0x3f;
                let reg = ir_dy(mid.ir);
                let o = common::asr_8_outcome(mid, mid.dar[reg], shift);
                &&& r == Ok::<Cycles, Exception>(Cycles((6 + 2 * shift) as i32))
                &&& reg_set(o.0, c1, reg, merged(mid.dar[reg], o.1, 8))
            },
        }
}

/// ASR of Dy by the count in Dx, modulo 64; two more cycles per bit.
pub fn asr_8_r(core: &mut ConfiguredCore) -> (r: Result<Cycles>)
    requires
        old(core).wf(),
    ensures
        final(core).wf(),
        asr_8_r_effect(*old(core), *final(core), r),
{
    let ghost c0 = *core;
    let src = operator::dx(core);
    let ghost mid = *core;
    assert(operator::dx_rel(c0, mid, src));
    match src {
        Err(e) => Err(e),
        Ok(v) => {
            let shift = shift_count(v);
            let reg = reg_dy(core.ir);
            let dst = core.dar[reg];
            let res = common::asr_8(core, dst, shift);
            set_reg(core, reg, merge(dst, res, 8));
            Ok(Cycles(6 + 2 * (shift as i32)))
        },
    }
}

/// What `asr_16_r` does: the core goes from `c0` to `c1` and `r` comes back.
pub open spec fn asr_16_r_effect(c0: ConfiguredCore, c1: ConfiguredCore, r: Result<Cycles>) -> bool {
    exists|mid: ConfiguredCore, src: Result<u32>|
        #[trigger] operator::dx_rel(c0, mid, src) && match src {
            Err(e) => r == Err::<Cycles, Exception>(e) && c1 == mid,
            Ok(v) => {
                let shift = v & 0x3f;
                let reg = ir_dy(mid.ir);
                let o = common::asr_16_outcome(mid, mid.dar[reg], shift);
                &&& r == Ok::<Cycles, Exception>(Cycles((6 + 2 * shift) as i32))
                &&& reg_set(o.0, c1, reg, merged(mid.dar[reg], o.1, 16))
            },
        }
}

/// ASR of Dy by the count in Dx, modulo 64; two more cycles per bit.
pub fn asr_16_r(core: &mut ConfiguredCore) -> (r: Result<Cycles>)
    requires
        old(core).wf(),
    ensures
        final(core).wf(),
        asr_16_r_effect(*old(core), *final(core), r),
{
    let ghost c0 = *core;
    let src = operator::dx(core);
    let ghost mid = *core;
    assert(operator::dx_rel(c0, mid, src));
    match src {
        Err(e) => Err(e),
        Ok(v) => {
            let shift = shift_count(v);
            let reg = reg_dy(core.ir);
            let dst = core.dar[reg];
            let res = common::asr_16(core, dst, shift);
            set_reg(core, reg, merge(dst, res, 16));
            Ok(Cycles(6 + 2 * (shift as i32)))
        },
    }
}

/// What `asr_32_r` does: the core goes from `c0` to `c1` and `r` comes back.
pub open spec fn asr_32_r_effect(c0: ConfiguredCore, c1: ConfiguredCore, r: Result<Cycles>) -> bool {
    exists|mid: ConfiguredCore, src: Result<u32>|
        #[trigger] operator::dx_rel(c0, mid, src) && match src {
            Err(e) => r == Err::<Cycles, Exception>(e) && c1 == mid,
            Ok(v) => {
                let shift = v & 0x3f;
                let reg = ir_dy(mid.ir);
                let o = common::asr_32_outcome(mid, mid.dar[reg], shift);
                &&& r == Ok::<Cycles, Exception>(Cycles((8 + 2 * shift) as i32))
                &&& reg_set(o.0, c1, reg, merged(mid.dar[reg], o.1, 32))
            },
        }
}

/// ASR of Dy by the count in Dx, modulo 64; two more cycles per bit.
pub fn asr_32_r(core: &mut ConfiguredCore) -> (r: Result<Cycles>)
    requires
        old(core).wf(),
    ensures
        final(core).wf(),
        asr_32_r_effect(*old(core), *final(core), r),
{
    let ghost c0 = *core;
    let src = operator::dx(core);
    let ghost mid = *core;
    assert(operator::dx_rel(c0, mid, src));
    match src {
        Err(e) => Err(e),
        Ok(v) => {
            let shift = shift_count(v);
            let reg = reg_dy(core.ir);
            let dst = core.dar[reg];
            let res = common::asr_32(core, dst, shift);
            set_reg(core, reg, merge(dst, res, 32));
            Ok(Cycles(8 + 2 * (shift as i32)))
        },
    }
}

/// What `asl_8_s` does: the core goes from `c0` to `c1` and `r` comes back.
pub open spec fn asl_8_s_effect(c0: ConfiguredCore, c1: ConfiguredCore, r: Result<Cycles>) -> bool {
    exists|mid: ConfiguredCore, src: Result<u32>|
        #[trigger] operator::quick_rel(c0, mid, src) && match src {
            Err(e) => r == Err::<Cycles, Exception>(e) && c1 == mid,
            Ok(v) => {
                let shift = v & 0x3f;
                let reg = ir_dy(mid.ir);
                let o = common::asl_8_outcome(mid, mid.dar[reg], shift);
                &&& r == Ok::<Cycles, Exception>(Cycles((6 + 2 * shift) as i32))
                &&& reg_set(o.0, c1, reg, merged(mid.dar[reg], o.1, 8))
            },
        }
}

/// ASL of Dy by an immediate count; two more cycles per bit.
pub fn asl_8_s(core: &mut ConfiguredCore) -> (r: Result<Cycles>)
    requires
        old(core).wf(),
    ensures
        final(core).wf(),
        asl_8_s_effect(*old(core), *final(core), r),
{
    let ghost c0 = *core;
    let src = operator::quick(core);
    let ghost mid = *core;
    assert(operator::quick_rel(c0, mid, src));
    match src {
        Err(e) => Err(e),
        Ok(v) => {
            let shift = shift_count(v);
            let reg = reg_dy(core.ir);
            let dst = core.dar[reg];
            let res = common::asl_8(core, dst, shift);
            set_reg(core, reg, merge(dst, res, 8));
            Ok(Cycles(6 + 2 * (shift as i32)))
        },
    }
}

/// What `asl_16_s` does: the core goes from `c0` to `c1` and `r` comes back.
pub open spec fn asl_16_s_effect(c0: ConfiguredCore, c1: ConfiguredCore, r: Result<Cycles>) -> bool {
    exists|mid: ConfiguredCore, src: Result<u32>|
        #[trigger] operator::quick_rel(c0, mid, src) && match src {
            Err(e) => r == Err::<Cycles, Exception>(e) && c1 == mid,
            Ok(v) => {
                let shift = v & 0x3f;
                let reg = ir_dy(mid.ir);
                let o = common::asl_16_outcome(mid, mid.dar[reg], shift);
                &&& r == Ok::<Cycles, Exception>(Cycles((6 + 2 * shift) as i32))
                &&& reg_set(o.0, c1, reg, merged(mid.dar[reg], o.1, 16))
            },
        }
}

/// ASL of Dy by an immediate count; two more cycles per bit.
pub fn asl_16_s(core: &mut ConfiguredCore) -> (r: Result<Cycles>)
    requires
        old(core).wf(),
    ensures
        final(core).wf(),
        asl_16_s_effect(*old(core), *final(core), r),
{
    let ghost c0 = *core;
    let src = operator::quick(core);
    let ghost mid = *core;
    assert(operator::quick_rel(c0, mid, src));
    match src {
        Err(e) => Err(e),
        Ok(v) => {
            let shift = shift_count(v);
            let reg = reg_dy(core.ir);
            let dst = core.dar[reg];
            let res = common::asl_16(core, dst, shift);
            set_reg(core, reg, merge(dst, res, 16));
            Ok(Cycles(6 + 2 * (shift as i32)))
        },
    }
}

/// What `asl_32_s` does: the core goes from `c0` to `c1` and `r` comes back.
pub open spec fn asl_32_s_effect(c0: ConfiguredCore, c1: ConfiguredCore, r: Result<Cycles>) -> bool {
    exists|mid: ConfiguredCore, src: Result<u32>|
        #[trigger] operator::quick_rel(c0, mid, src) && match src {
            Err(e) => r == Err::<Cycles, Exception>(e) && c1 == mid,
            Ok(v) => {
                let shift = v & 0x3f;
                let reg = ir_dy(mid.ir);
                let o = common::asl_32_outcome(mid, mid.dar[reg], shift);
                &&& r == Ok::<Cycles, Exception>(Cycles((8 + 2 * shift) as i32))
                &&& reg_set(o.0, c1, reg, merged(mid.dar[reg], o.1, 32))
            },
        }
}

/// ASL of Dy by an immediate count; two more cycles per bit.
pub fn asl_32_s(core: &mut ConfiguredCore) -> (r: Result<Cycles>)
    requires
        old(core).wf(),
    ensures
        final(core).wf(),
        asl_32_s_effect(*old(core), *final(core), r),
{
    let ghost c0 = *core;
    let src = operator::quick(core);
    let ghost mid = *core;
    assert(operator::quick_rel(c0, mid, src));
    match src {
        Err(e) => Err(e),
        Ok(v) => {
            let shift = shift_count(v);
            let reg = reg_dy(core.ir);
            let dst = core.dar[reg];
            let res = common::asl_32(core, dst, shift);
            set_reg(core, reg, merge(dst, res, 32));
            Ok(Cycles(8 + 2 * (shift as i32)))
        },
    }
}

/// What `asl_8_r` does: the core goes from `c0` to `c1` and `r` comes back.
pub open spec fn asl_8_r_effect(c0: ConfiguredCore, c1: ConfiguredCore, r: Result<Cycles>) -> bool {
    exists|mid: ConfiguredCore, src: Result<u32>|
        #[trigger] operator::dx_rel(c0, mid, src) && match src {
            Err(e) => r == Err::<Cycles, Exception>(e) && c1 == mid,
            Ok(v) => {
                let shift = v & 0x3f;
                let reg = ir_dy(mid.ir);
                let o = common::asl_8_outcome(mid, mid.dar[reg], shift);
                &&& r == Ok::<Cycles, Exception>(Cycles((6 + 2 * shift) as i32))
                &&& reg_set(o.0, c1, reg, merged(mid.dar[reg], o.1, 8))
            },
        }
}

/// ASL of Dy by the count in Dx, modulo 64; two more cycles per bit.
pub fn asl_8_r(core: &mut ConfiguredCore) -> (r: Result<Cycles>)
    requires
        old(core).wf(),
    ensures
        final(core).wf(),
        asl_8_r_effect(*old(core), *final(core), r),
{
    let ghost c0 = *core;
    let src = operator::dx(core);
    let ghost mid = *core;
    assert(operator::dx_rel(c0, mid, src));
    match src {
        Err(e) => Err(e),
        Ok(v) => {
            let shift = shift_count(v);
            let reg = reg_dy(core.ir);
            let dst = core.dar[reg];
            let res = common::asl_8(core, dst, shift);
            set_reg(core, reg, merge(dst, res, 8));
            Ok(Cycles(6 + 2 * (shift as i32)))
        },
    }
}

/// What `asl_16_r` does: the core goes from `c0` to `c1` and `r` comes back.
pub open spec fn asl_16_r_effect(c0: ConfiguredCore, c1: ConfiguredCore, r: Result<Cycles>) -> bool {
    exists|mid: ConfiguredCore, src: Result<u32>|
        #[trigger] operator::dx_rel(c0, mid, src) && match src {
            Err(e) => r == Err::<Cycles, Exception>(e) && c1 == mid,
            Ok(v) => {
                let shift = v & 0x3f;
                let reg = ir_dy(mid.ir);
                let o = common::asl_16_outcome(mid, mid.dar[reg], shift);
                &&& r == Ok::<Cycles, Exception>(Cycles((6 + 2 * shift) as i32))
                &&& reg_set(o.0, c1, reg, merged(mid.dar[reg], o.1, 16))
            },
        }
}

/// ASL of Dy by the count in Dx, modulo 64; two more cycles per bit.
pub fn asl_16_r(core: &mut ConfiguredCore) -> (r: Result<Cycles>)
    requires
        old(core).wf(),
    ensures
        final(core).wf(),
        asl_16_r_effect(*old(core), *final(core), r),
{
    let ghost c0 = *core;
    let src = operator::dx(core);
    let ghost mid = *core;
    assert(operator::dx_rel(c0, mid, src));
    match src {
        Err(e) => Err(e),
        Ok(v) => {
            let shift = shift_count(v);
            let reg = reg_dy(core.ir);
            let dst = core.dar[reg];
            let res = common::asl_16(core, dst, shift);
            set_reg(core, reg, merge(dst, res, 16));
            Ok(Cycles(6 + 2 * (shift as i32)))
        },
    }
}

/// What `asl_32_r` does: the core goes from `c0` to `c1` and `r` comes back.
pub open spec fn asl_32_r_effect(c0: ConfiguredCore, c1: ConfiguredCore, r: Result<Cycles>) -> bool {
    exists|mid: ConfiguredCore, src: Result<u32>|
        #[trigger] operator::dx_rel(c0, mid, src) && match src {
            Err(e) => r == Err::<Cycles, Exception>(e) && c1 == mid,
            Ok(v) => {
                let shift = v & 0x3f;
                let reg = ir_dy(mid.ir);
                let o = common::asl_32_outcome(mid, mid.dar[reg], shift);
                &&& r == Ok::<Cycles, Exception>(Cycles((8 + 2 * shift) as i32))
                &&& reg_set(o.0, c1, reg, merged(mid.dar[reg], o.1, 32))
            },
        }
}

/// ASL of Dy by the count in Dx, modulo 64; two more cycles per bit.
pub fn asl_32_r(core: &mut ConfiguredCore) -> (r: Result<Cycles>)
    requires
        old(core).wf(),
    ensures
        final(core).wf(),
        asl_32_r_effect(*old(core), *final(core), r),
{
    let ghost c0 = *core;
    let src = operator::dx(core);
    let ghost mid = *core;
    assert(operator::dx_rel(c0, mid, src));
    match src {
        Err(e) => Err(e),
        Ok(v) => {
            let shift = shift_count(v);
            let reg = reg_dy(core.ir);
            let dst = core.dar[reg];
            let res = common::asl_32(core, dst, shift);
            set_reg(core, reg, merge(dst, res, 32));
            Ok(Cycles(8 + 2 * (shift as i32)))
        },
    }
}

/// What `asl_16_ai` does: the core goes from `c0` to `c1` and `r` comes back.
pub open spec fn asl_16_ai_effect(c0: ConfiguredCore, c1: ConfiguredCore, r: Result<Cycles>) -> bool {
    exists|m1: ConfiguredCore, d: Result<(u32, u32)>|
        #[trigger] operator::ea_ay_ai_16_rel(c0, m1, d) && match d {
            Err(e) => r == Err::<Cycles, Exception>(e) && c1 == m1,
            Ok((dv, ea)) => {
                let o = common::asl_16_outcome(m1, dv, 1);
                stored(o.0, c1, 16, ea, merged(dv, o.1, 16), r, 12)
            },
        }
}

/// ASL of a word in memory by one bit.
pub fn asl_16_ai(core: &mut ConfiguredCore) -> (r: Result<Cycles>)
    requires
        old(core).wf(),
    ensures
        final(core).wf(),
        asl_16_ai_effect(*old(core), *final(core), r),
{
    let ghost c0 = *core;
    let d = operator::ea_ay_ai_16(core);
    let ghost m1 = *core;
    assert(operator::ea_ay_ai_16_rel(c0, m1, d));
    let (dv, ea) = match d {
        Err(e) => {
            return Err(e);
        },
        Ok(p) => p,
    };
    let res = common::asl_16(core, dv, 1);
    store(core, 16, ea, merge(dv, res, 16), 12)
}

/// What `asl_16_pi` does: the core goes from `c0` to `c1` and `r` comes back.
pub open spec fn asl_16_pi_effect(c0: ConfiguredCore, c1: ConfiguredCore, r: Result<Cycles>) -> bool {
    exists|m1: ConfiguredCore, d: Result<(u32, u32)>|
        #[trigger] operator::ea_ay_pi_16_rel(c0, m1, d) && match d {
            Err(e) => r == Err::<Cycles, Exception>(e) && c1 == m1,
            Ok((dv, ea)) => {
                let o = common::asl_16_outcome(m1, dv, 1);
                stored(o.0, c1, 16, ea, merged(dv, o.1, 16), r, 12)
            },
        }
}

/// ASL of a word in memory by one bit.
pub fn asl_16_pi(core: &mut ConfiguredCore) -> (r: Result<Cycles>)
    requires
        old(core).wf(),
    ensures
        final(core).wf(),
        asl_16_pi_effect(*old(core), *final(core), r),
{
    let ghost c0 = *core;
    let d = operator::ea_ay_pi_16(core);
    let ghost m1 = *core;
    assert(operator::ea_ay_pi_16_rel(c0, m1, d));
    let (dv, ea) = match d {
        Err(e) => {
            return Err(e);
        },
        Ok(p) => p,
    };
    let res = common::asl_16(core, dv, 1);
    store(core, 16, ea, merge(dv, res, 16), 12)
}

/// What `asl_16_pd` does: the core goes from `c0` to `c1` and `r` comes back.
pub open spec fn asl_16_pd_effect(c0: ConfiguredCore, c1: ConfiguredCore, r: Result<Cycles>) -> bool {
    exists|m1: ConfiguredCore, d: Result<(u32, u32)>|
        #[trigger] operator::ea_ay_pd_16_rel(c0, m1, d) && match d {
            Err(e) => r == Err::<Cycles, Exception>(e) && c1 == m1,
            Ok((dv, ea)) => {
                let o = common::asl_16_outcome(m1, dv, 1);
                stored(o.0, c1, 16, ea, merged(dv, o.1, 16), r, 14)
            },
        }
}

/// ASL of a word in memory by one bit.
pub fn asl_16_pd(core: &mut ConfiguredCore) -> (r: Result<Cycles>)
    requires
        old(core).wf(),
    ensures
        final(core).wf(),
        asl_16_pd_effect(*old(core), *final(core), r),
{
    let ghost c0 = *core;
    let d = operator::ea_ay_pd_16(core);
    let ghost m1 = *core;
    assert(operator::ea_ay_pd_16_rel(c0, m1, d));
    let (dv, ea) = match d {
        Err(e) => {
            return Err(e);
        },
        Ok(p) => p,
    };
    let res = common::asl_16(core, dv, 1);
    store(core, 16, ea, merge(dv, res, 16), 14)
}

/// What `asl_16_di` does: the core goes from `c0` to `c1` and `r` comes back.
pub open spec fn asl_16_di_effect(c0: ConfiguredCore, c1: ConfiguredCore, r: Result<Cycles>) -> bool {
    exists|m1: ConfiguredCore, d: Result<(u32, u32)>|
        #[trigger] operator::ea_ay_di_16_rel(c0, m1, d) && match d {
            Err(e) => r == Err::<Cycles, Exception>(e) && c1 == m1,
            Ok((dv, ea)) => {
                let o = common::asl_16_outcome(m1, dv, 1);
                stored(o.0, c1, 16, ea, merged(dv, o.1, 16), r, 16)
            },
        }
}

/// ASL of a word in memory by one bit.
pub fn asl_16_di(core: &mut ConfiguredCore) -> (r: Result<Cycles>)
    requires
        old(core).wf(),
    ensures
        final(core).wf(),
        asl_16_di_effect(*old(core), *final(core), r),
{
    let ghost c0 = *core;
    let d = operator::ea_ay_di_16(core);
    let ghost m1 = *core;
    assert(operator::ea_ay_di_16_rel(c0, m1, d));
    let (dv, ea) = match d {
        Err(e) => {
            return Err(e);
        },
        Ok(p) => p,
    };
    let res = common::asl_16(core, dv, 1);
    store(core, 16, ea, merge(dv, res, 16), 16)
}

/// What `asl_16_ix` does: the core goes from `c0` to `c1` and `r` comes back.
pub open spec fn asl_16_ix_effect(c0: ConfiguredCore, c1: ConfiguredCore, r: Result<Cycles>) -> bool {
    exists|m1: ConfiguredCore, d: Result<(u32, u32)>|
        #[trigger] operator::ea_ay_ix_16_rel(c0, m1, d) && match d {
            Err(e) => r == Err::<Cycles, Exception>(e) && c1 == m1,
            Ok((dv, ea)) => {
                let o = common::asl_16_outcome(m1, dv, 1);
                stored(o.0, c1, 16, ea, merged(dv, o.1, 16), r, 18)
            },
        }
}

/// ASL of a word in memory by one bit.
pub fn asl_16_ix(core: &mut ConfiguredCore) -> (r: Result<Cycles>)
    requires
        old(core).wf(),
    ensures
        final(core).wf(),
        asl_16_ix_effect(*old(core), *final(core), r),
{
    let ghost c0 = *core;
    let d = operator::ea_ay_ix_16(core);
    let ghost m1 = *core;
    assert(operator::ea_ay_ix_16_rel(c0, m1, d));
    let (dv, ea) = match d {
        Err(e) => {
            return Err(e);
        },
        Ok(p) => p,
    };
    let res = common::asl_16(core, dv, 1);
    store(core, 16, ea, merge(dv, res, 16), 18)
}

/// What `asl_16_aw` does: the core goes from `c0` to `c1` and `r` comes back.
pub open spec fn asl_16_aw_effect(c0: ConfiguredCore, c1: ConfiguredCore, r: Result<Cycles>) -> bool {
    exists|m1: ConfiguredCore, d: Result<(u32, u32)>|
        #[trigger] operator::ea_aw_16_rel(c0, m1, d) && match d {
            Err(e) => r == Err::<Cycles, Exception>(e) && c1 == m1,
            Ok((dv, ea)) => {
                let o = common::asl_16_outcome(m1, dv, 1);
                stored(o.0, c1, 16, ea, merged(dv, o.1, 16), r, 16)
            },
        }
}

/// ASL of a word in memory by one bit.
pub fn asl_16_aw(core: &mut ConfiguredCore) -> (r: Result<Cycles>)
    requires
        old(core).wf(),
    ensures
        final(core).wf(),
        asl_16_aw_effect(*old(core), *final(core), r),
{
    let ghost c0 = *core;
    let d = operator::ea_aw_16(core);
    let ghost m1 = *core;
    assert(operator::ea_aw_16_rel(c0, m1, d));
    let (dv, ea) = match d {
        Err(e) => {
            return Err(e);
        },
        Ok(p) => p,
    };
    let res = common::asl_16(core, dv, 1);
    store(core, 16, ea, merge(dv, res, 16), 16)
}

/// What `asl_16_al` does: the core goes from `c0` to `c1` and `r` comes back.
pub open spec fn asl_16_al_effect(c0: ConfiguredCore, c1: ConfiguredCore, r: Result<Cycles>) -> bool {
    exists|m1: ConfiguredCore, d: Result<(u32, u32)>|
        #[trigger] operator::ea_al_16_rel(c0, m1, d) && match d {
            Err(e) => r == Err::<Cycles, Exception>(e) && c1 == m1,
            Ok((dv, ea)) => {
                let o = common::asl_16_outcome(m1, dv, 1);
                stored(o.0, c1, 16, ea, merged(dv, o.1, 16), r, 20)
            },
        }
}

/// ASL of a word in memory by one bit.
pub fn asl_16_al(core: &mut ConfiguredCore) -> (r: Result<Cycles>)
    requires
        old(core).wf(),
    ensures
        final(core).wf(),
        asl_16_al_effect(*old(core), *final(core), r),
{
    let ghost c0 = *core;
    let d = operator::ea_al_16(core);
    let ghost m1 = *core;
    assert(operator::ea_al_16_rel(c0, m1, d));
    let (dv, ea) = match d {
        Err(e) => {
            return Err(e);
        },
        Ok(p) => p,
    };
    let res = common::asl_16(core, dv, 1);
    store(core, 16, ea, merge(dv, res, 16), 20)
}

/// What `asr_16_ai` does: the core goes from `c0` to `c1` and `r` comes back.
pub open spec fn asr_16_ai_effect(c0: ConfiguredCore, c1: ConfiguredCore, r: Result<Cycles>) -> bool {
    exists|m1: ConfiguredCore, d: Result<(u32, u32)>|
        #[trigger] operator::ea_ay_ai_16_rel(c0, m1, d) && match d {
            Err(e) => r == Err::<Cycles, Exception>(e) && c1 == m1,
            Ok((dv, ea)) => {
                let o = common::asr_16_outcome(m1, dv, 1);
                stored(o.0, c1, 16, ea, merged(dv, o.1, 16), r, 12)
            },
        }
}

/// ASR of a word in memory by one bit.
pub fn asr_16_ai(core: &mut ConfiguredCore) -> (r: Result<Cycles>)
    requires
        old(core).wf(),
    ensures
        final(core).wf(),
        asr_16_ai_effect(*old(core), *final(core), r),
{
    let ghost c0 = *core;
    let d = operator::ea_ay_ai_16(core);
    let ghost m1 = *core;
    assert(operator::ea_ay_ai_16_rel(c0, m1, d));
    let (dv, ea) = match d {
        Err(e) => {
            return Err(e);
        },
        Ok(p) => p,
    };
    let res = common::asr_16(core, dv, 1);
    store(core, 16, ea, merge(dv, res, 16), 12)
}

/// What `asr_16_pi` does: the core goes from `c0` to `c1` and `r` comes back.
pub open spec fn asr_16_pi_effect(c0: ConfiguredCore, c1: ConfiguredCore, r: Result<Cycles>) -> bool {
    exists|m1: ConfiguredCore, d: Result<(u32, u32)>|
        #[trigger] operator::ea_ay_pi_16_rel(c0, m1, d) && match d {
            Err(e) => r == Err::<Cycles, Exception>(e) && c1 == m1,
            Ok((dv, ea)) => {
                let o = common::asr_16_outcome(m1, dv, 1);
                stored(o.0, c1, 16, ea, merged(dv, o.1, 16), r, 12)
            },
        }
}

/// ASR of a word in memory by one bit.
pub fn asr_16_pi(core: &mut ConfiguredCore) -> (r: Result<Cycles>)
    requires
        old(core).wf(),
    ensures
        final(core).wf(),
        asr_16_pi_effect(*old(core), *final(core), r),
{
    let ghost c0 = *core;
    let d = operator::ea_ay_pi_16(core);
    let ghost m1 = *core;
    assert(operator::ea_ay_pi_16_rel(c0, m1, d));
    let (dv, ea) = match d {
        Err(e) => {
            return Err(e);
        },
        Ok(p) => p,
    };
    let res = common::asr_16(core, dv, 1);
    store(core, 16, ea, merge(dv, res, 16), 12)
}

/// What `asr_16_pd` does: the core goes from `c0` to `c1` and `r` comes back.
pub open spec fn asr_16_pd_effect(c0: ConfiguredCore, c1: ConfiguredCore, r: Result<Cycles>) -> bool {
    exists|m1: ConfiguredCore, d: Result<(u32, u32)>|
        #[trigger] operator::ea_ay_pd_16_rel(c0, m1, d) && match d {
            Err(e) => r == Err::<Cycles, Exception>(e) && c1 == m1,
            Ok((dv, ea)) => {
                let o = common::asr_16_outcome(m1, dv, 1);
                stored(o.0, c1, 16, ea, merged(dv, o.1, 16), r, 14)
            },
        }
}

/// ASR of a word in memory by one bit.
pub fn asr_16_pd(core: &mut ConfiguredCore) -> (r: Result<Cycles>)
    requires
        old(core).wf(),
    ensures
        final(core).wf(),
        asr_16_pd_effect(*old(core), *final(core), r),
{
    let ghost c0 = *core;
    let d = operator::ea_ay_pd_16(core);
    let ghost m1 = *core;
    assert(operator::ea_ay_pd_16_rel(c0, m1, d));
    let (dv, ea) = match d {
        Err(e) => {
            return Err(e);
        },
        Ok(p) => p,
    };
    let res = common::asr_16(core, dv, 1);
    store(core, 16, ea, merge(dv, res, 16), 14)
}

/// What `asr_16_di` does: the core goes from `c0` to `c1` and `r` comes back.
pub open spec fn asr_16_di_effect(c0: ConfiguredCore, c1: ConfiguredCore, r: Result<Cycles>) -> bool {
    exists|m1: ConfiguredCore, d: Result<(u32, u32)>|
        #[trigger] operator::ea_ay_di_16_rel(c0, m1, d) && match d {
            Err(e) => r == Err::<Cycles, Exception>(e) && c1 == m1,
            Ok((dv, ea)) => {
                let o = common::asr_16_outcome(m1, dv, 1);
                stored(o.0, c1, 16, ea, merged(dv, o.1, 16), r, 16)
            },
        }
}

/// ASR of a word in memory by one bit.
pub fn asr_16_di(core: &mut ConfiguredCore) -> (r: Result<Cycles>)
    requires
        old(core).wf(),
    ensures
        final(core).wf(),
        asr_16_di_effect(*old(core), *final(core), r),
{
    let ghost c0 = *core;
    let d = operator::ea_ay_di_16(core);
    let ghost m1 = *core;
    assert(operator::ea_ay_di_16_rel(c0, m1, d));
    let (dv, ea) = match d {
        Err(e) => {
            return Err(e);
        },
        Ok(p) => p,
    };
    let res = common::asr_16(core, dv, 1);
    store(core, 16, ea, merge(dv, res, 16), 16)
}

/// What `asr_16_ix` does: the core goes from `c0` to `c1` and `r` comes back.
pub open spec fn asr_16_ix_effect(c0: ConfiguredCore, c1: ConfiguredCore, r: Result<Cycles>) -> bool {
    exists|m1: ConfiguredCore, d: Result<(u32, u32)>|
        #[trigger] operator::ea_ay_ix_16_rel(c0, m1, d) && match d {
            Err(e) => r == Err::<Cycles, Exception>(e) && c1 == m1,
            Ok((dv, ea)) => {
                let o = common::asr_16_outcome(m1, dv, 1);
                stored(o.0, c1, 16, ea, merged(dv, o.1, 16), r, 18)
            },
        }
}

/// ASR of a word in memory by one bit.
pub fn asr_16_ix(core: &mut ConfiguredCore) -> (r: Result<Cycles>)
    requires
        old(core).wf(),
    ensures
        final(core).wf(),
        asr_16_ix_effect(*old(core), *final(core), r),
{
    let ghost c0 = *core;
    let d = operator::ea_ay_ix_16(core);
    let ghost m1 = *core;
    assert(operator::ea_ay_ix_16_rel(c0, m1, d));
    let (dv, ea) = match d {
        Err(e) => {
            return Err(e);
        },
        Ok(p) => p,
    };
    let res = common::asr_16(core, dv, 1);
    store(core, 16, ea, merge(dv, res, 16), 18)
}

/// What `asr_16_aw` does: the core goes from `c0` to `c1` and `r` comes back.
pub open spec fn asr_16_aw_effect(c0: ConfiguredCore, c1: ConfiguredCore, r: Result<Cycles>) -> bool {
    exists|m1: ConfiguredCore, d: Result<(u32, u32)>|
        #[trigger] operator::ea_aw_16_rel(c0, m1, d) && match d {
            Err(e) => r == Err::<Cycles, Exception>(e) && c1 == m1,
            Ok((dv, ea)) => {
                let o = common::asr_16_outcome(m1, dv, 1);
                stored(o.0, c1, 16, ea, merged(dv, o.1, 16), r, 16)
            },
        }
}

/// ASR of a word in memory by one bit.
pub fn asr_16_aw(core: &mut ConfiguredCore) -> (r: Result<Cycles>)
    requires
        old(core).wf(),
    ensures
        final(core).wf(),
        asr_16_aw_effect(*old(core), *final(core), r),
{
    let ghost c0 = *core;
    let d = operator::ea_aw_16(core);
    let ghost m1 = *core;
    assert(operator::ea_aw_16_rel(c0, m1, d));
    let (dv, ea) = match d {
        Err(e) => {
            return Err(e);
        },
        Ok(p) => p,
    };
    let res = common::asr_16(core, dv, 1);
    store(core, 16, ea, merge(dv, res, 16), 16)
}

/// What `asr_16_al` does: the core goes from `c0` to `c1` and `r` comes back.
pub open spec fn asr_16_al_effect(c0: ConfiguredCore, c1: ConfiguredCore, r: Result<Cycles>) -> bool {
    exists|m1: ConfiguredCore, d: Result<(u32, u32)>|
        #[trigger] operator::ea_al_16_rel(c0, m1, d) && match d {
            Err(e) => r == Err::<Cycles, Exception>(e) && c1 == m1,
            Ok((dv, ea)) => {
                let o = common::asr_16_outcome(m1, dv, 1);
                stored(o.0, c1, 16, ea, merged(dv, o.1, 16), r, 20)
            },
        }
}

/// ASR of a word in memory by one bit.
pub fn asr_16_al(core: &mut ConfiguredCore) -> (r: Result<Cycles>)
    requires
        old(core).wf(),
    ensures
        final(core).wf(),
        asr_16_al_effect(*old(core), *final(core), r),
{
    let ghost c0 = *core;
    let d = operator::ea_al_16(core);
    let ghost m1 = *core;
    assert(operator::ea_al_16_rel(c0, m1, d));
    let (dv, ea) = match d {
        Err(e) => {
            return Err(e);
        },
        Ok(p) => p,
    };
    let res = common::asr_16(core, dv, 1);
    store(core, 16, ea, merge(dv, res, 16), 20)
}

/// What `lsr_8_s` does: the core goes from `c0` to `c1` and `r` comes back.
pub open spec fn lsr_8_s_effect(c0: ConfiguredCore, c1: ConfiguredCore, r: Result<Cycles>) -> bool {
    exists|mid: ConfiguredCore, src: Result<u32>|
        #[trigger] operator::quick_rel(c0, mid, src) && match src {
            Err(e) => r == Err::<Cycles, Exception>(e) && c1 == mid,
            Ok(v) => {
                let shift = v & 0x3f;
                let reg = ir_dy(mid.ir);
                let o = common::lsr_8_outcome(mid, mid.dar[reg], shift);
                &&& r == Ok::<Cycles, Exception>(Cycles((6 + 2 * shift) as i32))
                &&& reg_set(o.0, c1, reg, merged(mid.dar[reg], o.1, 8))
            },
        }
}

/// LSR of Dy by an immediate count; two more cycles per bit.
pub fn lsr_8_s(core: &mut ConfiguredCore) -> (r: Result<Cycles>)
    requires
        old(core).wf(),
    ensures
        final(core).wf(),
        lsr_8_s_effect(*old(core), *final(core), r),
{
    let ghost c0 = *core;
    let src = operator::quick(core);
    let ghost mid = *core;
    assert(operator::quick_rel(c0, mid, src));
    match src {
        Err(e) => Err(e),
        Ok(v) => {
            let shift = shift_count(v);
            let reg = reg_dy(core.ir);
            let dst = core.dar[reg];
            let res = common::lsr_8(core, dst, shift);
            set_reg(core, reg, merge(dst, res, 8));
            Ok(Cycles(6 + 2 * (shift as i32)))
        },
    }
}

/// What `lsr_16_s` does: the core goes from `c0` to `c1` and `r` comes back.
pub open spec fn lsr_16_s_effect(c0: ConfiguredCore, c1: ConfiguredCore, r: Result<Cycles>) -> bool {
    exists|mid: ConfiguredCore, src: Result<u32>|
        #[trigger] operator::quick_rel(c0, mid, src) && match src {
            Err(e) => r == Err::<Cycles, Exception>(e) && c1 == mid,
            Ok(v) => {
                let shift = v & 0x3f;
                let reg = ir_dy(mid.ir);
                let o = common::lsr_16_outcome(mid, mid.dar[reg], shift);
                &&& r == Ok::<Cycles, Exception>(Cycles((6 + 2 * shift) as i32))
                &&& reg_set(o.0, c1, reg, merged(mid.dar[reg], o.1, 16))
            },
        }
}

/// LSR of Dy by an immediate count; two more cycles per bit.
pub fn lsr_16_s(core: &mut ConfiguredCore) -> (r: Result<Cycles>)
    requires
        old(core).wf(),
    ensures
        final(core).wf(),
        lsr_16_s_effect(*old(core), *final(core), r),
{
    let ghost c0 = *core;
    let src = operator::quick(core);
    let ghost mid = *core;
    assert(operator::quick_rel(c0, mid, src));
    match src {
        Err(e) => Err(e),
        Ok(v) => {
            let shift = shift_count(v);
            let reg = reg_dy(core.ir);
            let dst = core.dar[reg];
            let res = common::lsr_16(core, dst, shift);
            set_reg(core, reg, merge(dst, res, 16));
            Ok(Cycles(6 + 2 * (shift as i32)))
        },
    }
}

/// What `lsr_32_s` does: the core goes from `c0` to `c1` and `r` comes back.
pub open spec fn lsr_32_s_effect(c0: ConfiguredCore, c1: ConfiguredCore, r: Result<Cycles>) -> bool {
    exists|mid: ConfiguredCore, src: Result<u32>|
        #[trigger] operator::quick_rel(c0, mid, src) && match src {
            Err(e) => r == Err::<Cycles, Exception>(e) && c1 == mid,
            Ok(v) => {
                let shift = v & 0x3f;
                let reg = ir_dy(mid.ir);
                let o = common::lsr_32_outcome(mid, mid.dar[reg], shift);
                &&& r == Ok::<Cycles, Exception>(Cycles((8 + 2 * shift) as i32))
                &&& reg_set(o.0, c1, reg, merged(mid.dar[reg], o.1, 32))
            },
        }
}

/// LSR of Dy by an immediate count; two more cycles per bit.
pub fn lsr_32_s(core: &mut ConfiguredCore) -> (r: Result<Cycles>)
    requires
        old(core).wf(),
    ensures
        final(core).wf(),
        lsr_32_s_effect(*old(core), *final(core), r),
{
    let ghost c0 = *core;
    let src = operator::quick(core);
    let ghost mid = *core;
    assert(operator::quick_rel(c0, mid, src));
    match src {
        Err(e) => Err(e),
        Ok(v) => {
            let shift = shift_count(v);
            let reg = reg_dy(core.ir);
            let dst = core.dar[reg];
            let res = common::lsr_32(core, dst, shift);
            set_reg(core, reg, merge(dst, res, 32));
            Ok(Cycles(8 + 2 * (shift as i32)))
        },
    }
}

/// What `lsr_8_r` does: the core goes from `c0` to `c1` and `r` comes back.
pub open spec fn lsr_8_r_effect(c0: ConfiguredCore, c1: ConfiguredCore, r: Result<Cycles>) -> bool {
    exists|mid: ConfiguredCore, src: Result<u32>|
        #[trigger] operator::dx_rel(c0, mid, src) && match src {
            Err(e) => r == Err::<Cycles, Exception>(e) && c1 == mid,
            Ok(v) => {
                let shift = v & 0x3f;
                let reg = ir_dy(mid.ir);
                let o = common::lsr_8_outcome(mid, mid.dar[reg], shift);
                &&& r == Ok::<Cycles, Exception>(Cycles((6 + 2 * shift) as i32))
                &&& reg_set(o.0, c1, reg, merged(mid.dar[reg], o.1, 8))
            },
        }
}

/// LSR of Dy by the count in Dx, modulo 64; two more cycles per bit.
pub fn lsr_8_r(core: &mut ConfiguredCore) -> (r: Result<Cycles>)
    requires
        old(core).wf(),
    ensures
        final(core).wf(),
        lsr_8_r_effect(*old(core), *final(core), r),
{
    let ghost c0 = *core;
    let src = operator::dx(core);
    let ghost mid = *core;
    assert(operator::dx_rel(c0, mid, src));
    match src {
        Err(e) => Err(e),
        Ok(v) => {
            let shift = shift_count(v);
            let reg = reg_dy(core.ir);
            let dst = core.dar[reg];
            let res = common::lsr_8(core, dst, shift);
            set_reg(core, reg, merge(dst, res, 8));
            Ok(Cycles(6 + 2 * (shift as i32)))
        },
    }
}

/// What `lsr_16_r` does: the core goes from `c0` to `c1` and `r` comes back.
pub open spec fn lsr_16_r_effect(c0: ConfiguredCore, c1: ConfiguredCore, r: Result<Cycles>) -> bool {
    exists|mid: ConfiguredCore, src: Result<u32>|
        #[trigger] operator::dx_rel(c0, mid, src) && match src {
            Err(e) => r == Err::<Cycles, Exception>(e) && c1 == mid,
            Ok(v) => {
                let shift = v & 0x3f;
                let reg = ir_dy(mid.ir);
                let o = common::lsr_16_outcome(mid, mid.dar[reg], shift);
                &&& r == Ok::<Cycles, Exception>(Cycles((6 + 2 * shift) as i32))
                &&& reg_set(o.0, c1, reg, merged(mid.dar[reg], o.1, 16))
            },
        }
}

/// LSR of Dy by the count in Dx, modulo 64; two more cycles per bit.
pub fn lsr_16_r(core: &mut ConfiguredCore) -> (r: Result<Cycles>)
    requires
        old(core).wf(),
    ensures
        final(core).wf(),
        lsr_16_r_effect(*old(core), *final(core), r),
{
    let ghost c0 = *core;
    let src = operator::dx(core);
    let ghost mid = *core;
    assert(operator::dx_rel(c0, mid, src));
    match src {
        Err(e) => Err(e),
        Ok(v) => {
            let shift = shift_count(v);
            let reg = reg_dy(core.ir);
            let dst = core.dar[reg];
            let res = common::lsr_16(core, dst, shift);
            set_reg(core, reg, merge(dst, res, 16));
            Ok(Cycles(6 + 2 * (shift as i32)))
        },
    }
}

/// What `lsr_32_r` does: the core goes from `c0` to `c1` and `r` comes back.
pub open spec fn lsr_32_r_effect(c0: ConfiguredCore, c1: ConfiguredCore, r: Result<Cycles>) -> bool {
    exists|mid: ConfiguredCore, src: Result<u32>|
        #[trigger] operator::dx_rel(c0, mid, src) && match src {
            Err(e) => r == Err::<Cycles, Exception>(e) && c1 == mid,
            Ok(v) => {
                let shift = v & 0x3f;
                let reg = ir_dy(mid.ir);
                let o = common::lsr_32_outcome(mid, mid.dar[reg], shift);
                &&& r == Ok::<Cycles, Exception>(Cycles((8 + 2 * shift) as i32))
                &&& reg_set(o.0, c1, reg, merged(mid.dar[reg], o.1, 32))
            },
        }
}

/// LSR of Dy by the count in Dx, modulo 64; two more cycles per bit.
pub fn lsr_32_r(core: &mut ConfiguredCore) -> (r: Result<Cycles>)
    requires
        old(core).wf(),
    ensures
        final(core).wf(),
        lsr_32_r_effect(*old(core), *final(core), r),
{
    let ghost c0 = *core;
    let src = operator::dx(core);
    let ghost mid = *core;
    assert(operator::dx_rel(c0, mid, src));
    match src {
        Err(e) => Err(e),
        Ok(v) => {
            let shift = shift_count(v);
            let reg = reg_dy(core.ir);
            let dst = core.dar[reg];
            let res = common::lsr_32(core, dst, shift);
            set_reg(core, reg, merge(dst, res, 32));
            Ok(Cycles(8 + 2 * (shift as i32)))
        },
    }
}

/// What `lsl_8_s` does: the core goes from `c0` to `c1` and `r` comes back.
pub open spec fn lsl_8_s_effect(c0: ConfiguredCore, c1: ConfiguredCore, r: Result<Cycles>) -> bool {
    exists|mid: ConfiguredCore, src: Result<u32>|
        #[trigger] operator::quick_rel(c0, mid, src) && match src {
            Err(e) => r == Err::<Cycles, Exception>(e) && c1 == mid,
            Ok(v) => {
                let shift = v & 0x3f;
                let reg = ir_dy(mid.ir);
                let o = common::lsl_8_outcome(mid, mid.dar[reg], shift);
                &&& r == Ok::<Cycles, Exception>(Cycles((6 + 2 * shift) as i32))
                &&& reg_set(o.0, c1, reg, merged(mid.dar[reg], o.1, 8))
            },
        }
}

/// LSL of Dy by an immediate count; two more cycles per bit.
pub fn lsl_8_s(core: &mut ConfiguredCore) -> (r: Result<Cycles>)
    requires
        old(core).wf(),
    ensures
        final(core).wf(),
        lsl_8_s_effect(*old(core), *final(core), r),
{
    let ghost c0 = *core;
    let src = operator::quick(core);
    let ghost mid = *core;
    assert(operator::quick_rel(c0, mid, src));
    match src {
        Err(e) => Err(e),
        Ok(v) => {
            let shift = shift_count(v);
            let reg = reg_dy(core.ir);
            let dst = core.dar[reg];
            let res = common::lsl_8(core, dst, shift);
            set_reg(core, reg, merge(dst, res, 8));
            Ok(Cycles(6 + 2 * (shift as i32)))
        },
    }
}

/// What `lsl_16_s` does: the core goes from `c0` to `c1` and `r` comes back.
pub open spec fn lsl_16_s_effect(c0: ConfiguredCore, c1: ConfiguredCore, r: Result<Cycles>) -> bool {
    exists|mid: ConfiguredCore, src: Result<u32>|
        #[trigger] operator::quick_rel(c0, mid, src) && match src {
            Err(e) => r == Err::<Cycles, Exception>(e) && c1 == mid,
            Ok(v) => {
                let shift = v & 0x3f;
                let reg = ir_dy(mid.ir);
                let o = common::lsl_16_outcome(mid, mid.dar[reg], shift);
                &&& r == Ok::<Cycles, Exception>(Cycles((6 + 2 * shift) as i32))
                &&& reg_set(o.0, c1, reg, merged(mid.dar[reg], o.1, 16))
            },
        }
}

/// LSL of Dy by an immediate count; two more cycles per bit.
pub fn lsl_16_s(core: &mut ConfiguredCore) -> (r: Result<Cycles>)
    requires
        old(core).wf(),
    ensures
        final(core).wf(),
        lsl_16_s_effect(*old(core), *final(core), r),
{
    let ghost c0 = *core;
    let src = operator::quick(core);
    let ghost mid = *core;
    assert(operator::quick_rel(c0, mid, src));
    match src {
        Err(e) => Err(e),
        Ok(v) => {
            let shift = shift_count(v);
            let reg = reg_dy(core.ir);
            let dst = core.dar[reg];
            let res = common::lsl_16(core, dst, shift);
            set_reg(core, reg, merge(dst, res, 16));
            Ok(Cycles(6 + 2 * (shift as i32)))
        },
    }
}

/// What `lsl_32_s` does: the core goes from `c0` to `c1` and `r` comes back.
pub open spec fn lsl_32_s_effect(c0: ConfiguredCore, c1: ConfiguredCore, r: Result<Cycles>) -> bool {
    exists|mid: ConfiguredCore, src: Result<u32>|
        #[trigger] operator::quick_rel(c0, mid, src) && match src {
            Err(e) => r == Err::<Cycles, Exception>(e) && c1 == mid,
            Ok(v) => {
                let shift = v & 0x3f;
                let reg = ir_dy(mid.ir);
                let o = common::lsl_32_outcome(mid, mid.dar[reg], shift);
                &&& r == Ok::<Cycles, Exception>(Cycles((8 + 2 * shift) as i32))
                &&& reg_set(o.0, c1, reg, merged(mid.dar[reg], o.1, 32))
            },
        }
}

/// LSL of Dy by an immediate count; two more cycles per bit.
pub fn lsl_32_s(core: &mut ConfiguredCore) -> (r: Result<Cycles>)
    requires
        old(core).wf(),
    ensures
        final(core).wf(),
        lsl_32_s_effect(*old(core), *final(core), r),
{
    let ghost c0 = *core;
    let src = operator::quick(core);
    let ghost mid = *core;
    assert(operator::quick_rel(c0, mid, src));
    match src {
        Err(e) => Err(e),
        Ok(v) => {
            let shift = shift_count(v);
            let reg = reg_dy(core.ir);
            let dst = core.dar[reg];
            let res = common::lsl_32(core, dst, shift);
            set_reg(core, reg, merge(dst, res, 32));
            Ok(Cycles(8 + 2 * (shift as i32)))
        },
    }
}

/// What `lsl_8_r` does: the core goes from `c0` to `c1` and `r` comes back.
pub open spec fn lsl_8_r_effect(c0: ConfiguredCore, c1: ConfiguredCore, r: Result<Cycles>) -> bool {
    exists|mid: ConfiguredCore, src: Result<u32>|
        #[trigger] operator::dx_rel(c0, mid, src) && match src {
            Err(e) => r == Err::<Cycles, Exception>(e) && c1 == mid,
            Ok(v) => {
                let shift = v & 0x3f;
                let reg = ir_dy(mid.ir);
                let o = common::lsl_8_outcome(mid, mid.dar[reg], shift);
                &&& r == Ok::<Cycles, Exception>(Cycles((6 + 2 * shift) as i32))
                &&& reg_set(o.0, c1, reg, merged(mid.dar[reg], o.1, 8))
            },
        }
}

/// LSL of Dy by the count in Dx, modulo 64; two more cycles per bit.
pub fn lsl_8_r(core: &mut ConfiguredCore) -> (r: Result<Cycles>)
    requires
        old(core).wf(),
    ensures
        final(core).wf(),
        lsl_8_r_effect(*old(core), *final(core), r),
{
    let ghost c0 = *core;
    let src = operator::dx(core);
    let ghost mid = *core;
    assert(operator::dx_rel(c0, mid, src));
    match src {
        Err(e) => Err(e),
        Ok(v) => {
            let shift = shift_count(v);
            let reg = reg_dy(core.ir);
            let dst = core.dar[reg];
            let res = common::lsl_8(core, dst, shift);
            set_reg(core, reg, merge(dst, res, 8));
            Ok(Cycles(6 + 2 * (shift as i32)))
        },
    }
}

/// What `lsl_16_r` does: the core goes from `c0` to `c1` and `r` comes back.
pub open spec fn lsl_16_r_effect(c0: ConfiguredCore, c1: ConfiguredCore, r: Result<Cycles>) -> bool {
    exists|mid: ConfiguredCore, src: Result<u32>|
        #[trigger] operator::dx_rel(c0, mid, src) && match src {
            Err(e) => r == Err::<Cycles, Exception>(e) && c1 == mid,
            Ok(v) => {
                let shift = v & 0x3f;
                let reg = ir_dy(mid.ir);
                let o = common::lsl_16_outcome(mid, mid.dar[reg], shift);
                &&& r == Ok::<Cycles, Exception>(Cycles((6 + 2 * shift) as i32))
                &&& reg_set(o.0, c1, reg, merged(mid.dar[reg], o.1, 16))
            },
        }
}

/// LSL of Dy by the count in Dx, modulo 64; two more cycles per bit.
pub fn lsl_16_r(core: &mut ConfiguredCore) -> (r: Result<Cycles>)
    requires
        old(core).wf(),
    ensures
        final(core).wf(),
        lsl_16_r_effect(*old(core), *final(core), r),
{
    let ghost c0 = *core;
    let src = operator::dx(core);
    let ghost mid = *core;
    assert(operator::dx_rel(c0, mid, src));
    match src {
        Err(e) => Err(e),
        Ok(v) => {
            let shift = shift_count(v);
            let reg = reg_dy(core.ir);
            let dst = core.dar[reg];
            let res = common::lsl_16(core, dst, shift);
            set_reg(core, reg, merge(dst, res, 16));
            Ok(Cycles(6 + 2 * (shift as i32)))
        },
    }
}

/// What `lsl_32_r` does: the core goes from `c0` to `c1` and `r` comes back.
pub open spec fn lsl_32_r_effect(c0: ConfiguredCore, c1: ConfiguredCore, r: Result<Cycles>) -> bool {
    exists|mid: ConfiguredCore, src: Result<u32>|
        #[trigger] operator::dx_rel(c0, mid, src) && match src {
            Err(e) => r == Err::<Cycles, Exception>(e) && c1 == mid,
            Ok(v) => {
                let shift = v & 0x3f;
                let reg = ir_dy(mid.ir);
                let o = common::lsl_32_outcome(mid, mid.dar[reg], shift);
                &&& r == Ok::<Cycles, Exception>(Cycles((8 + 2 * shift) as i32))
                &&& reg_set(o.0, c1, reg, merged(mid.dar[reg], o.1, 32))
            },
        }
}

/// LSL of Dy by the count in Dx, modulo 64; two more cycles per bit.
pub fn lsl_32_r(core: &mut ConfiguredCore) -> (r: Result<Cycles>)
    requires
        old(core).wf(),
    ensures
        final(core).wf(),
        lsl_32_r_effect(*old(core), *final(core), r),
{
    let ghost c0 = *core;
    let src = operator::dx(core);
    let ghost mid = *core;
    assert(operator::dx_rel(c0, mid, src));
    match src {
        Err(e) => Err(e),
        Ok(v) => {
            let shift = shift_count(v);
            let reg = reg_dy(core.ir);
            let dst = core.dar[reg];
            let res = common::lsl_32(core, dst, shift);
            set_reg(core, reg, merge(dst, res, 32));
            Ok(Cycles(8 + 2 * (shift as i32)))
        },
    }
}

/// What `lsl_16_ai` does: the core goes from `c0` to `c1` and `r` comes back.
pub open spec fn lsl_16_ai_effect(c0: ConfiguredCore, c1: ConfiguredCore, r: Result<Cycles>) -> bool {
    exists|m1: ConfiguredCore, d: Result<(u32, u32)>|
        #[trigger] operator::ea_ay_ai_16_rel(c0, m1, d) && match d {
            Err(e) => r == Err::<Cycles, Exception>(e) && c1 == m1,
            Ok((dv, ea)) => {
                let o = common::lsl_16_outcome(m1, dv, 1);
                stored(o.0, c1, 16, ea, merged(dv, o.1, 16), r, 12)
            },
        }
}

/// LSL of a word in memory by one bit.
pub fn lsl_16_ai(core: &mut ConfiguredCore) -> (r: Result<Cycles>)
    requires
        old(core).wf(),
    ensures
        final(core).wf(),
        lsl_16_ai_effect(*old(core), *final(core), r),
{
    let ghost c0 = *core;
    let d = operator::ea_ay_ai_16(core);
    let ghost m1 = *core;
    assert(operator::ea_ay_ai_16_rel(c0, m1, d));
    let (dv, ea) = match d {
        Err(e) => {
            return Err(e);
        },
        Ok(p) => p,
    };
    let res = common::lsl_16(core, dv, 1);
    store(core, 16, ea, merge(dv, res, 16), 12)
}

/// What `lsl_16_pi` does: the core goes from `c0` to `c1` and `r` comes back.
pub open spec fn lsl_16_pi_effect(c0: ConfiguredCore, c1: ConfiguredCore, r: Result<Cycles>) -> bool {
    exists|m1: ConfiguredCore, d: Result<(u32, u32)>|
        #[trigger] operator::ea_ay_pi_16_rel(c0, m1, d) && match d {
            Err(e) => r == Err::<Cycles, Exception>(e) && c1 == m1,
            Ok((dv, ea)) => {
                let o = common::lsl_16_outcome(m1, dv, 1);
                stored(o.0, c1, 16, ea, merged(dv, o.1, 16), r, 12)
            },
        }
}

/// LSL of a word in memory by one bit.
pub fn lsl_16_pi(core: &mut ConfiguredCore) -> (r: Result<Cycles>)
    requires
        old(core).wf(),
    ensures
        final(core).wf(),
        lsl_16_pi_effect(*old(core), *final(core), r),
{
    let ghost c0 = *core;
    let d = operator::ea_ay_pi_16(core);
    let ghost m1 = *core;
    assert(operator::ea_ay_pi_16_rel(c0, m1, d));
    let (dv, ea) = match d {
        Err(e) => {
            return Err(e);
        },
        Ok(p) => p,
    };
    let res = common::lsl_16(core, dv, 1);
    store(core, 16, ea, merge(dv, res, 16), 12)
}

/// What `lsl_16_pd` does: the core goes from `c0` to `c1` and `r` comes back.
pub open spec fn lsl_16_pd_effect(c0: ConfiguredCore, c1: ConfiguredCore, r: Result<Cycles>) -> bool {
    exists|m1: ConfiguredCore, d: Result<(u32, u32)>|
        #[trigger] operator::ea_ay_pd_16_rel(c0, m1, d) && match d {
            Err(e) => r == Err::<Cycles, Exception>(e) && c1 == m1,
            Ok((dv, ea)) => {
                let o = common::lsl_16_outcome(m1, dv, 1);
                stored(o.0, c1, 16, ea, merged(dv, o.1, 16), r, 14)
            },
        }
}

/// LSL of a word in memory by one bit.
pub fn lsl_16_pd(core: &mut ConfiguredCore) -> (r: Result<Cycles>)
    requires
        old(core).wf(),
    ensures
        final(core).wf(),
        lsl_16_pd_effect(*old(core), *final(core), r),
{
    let ghost c0 = *core;
    let d = operator::ea_ay_pd_16(core);
    let ghost m1 = *core;
    assert(operator::ea_ay_pd_16_rel(c0, m1, d));
    let (dv, ea) = match d {
        Err(e) => {
            return Err(e);
        },
        Ok(p) => p,
    };
    let res = common::lsl_16(core, dv, 1);
    store(core, 16, ea, merge(dv, res, 16), 14)
}

/// What `lsl_16_di` does: the core goes from `c0` to `c1` and `r` comes back.
pub open spec fn lsl_16_di_effect(c0: ConfiguredCore, c1: ConfiguredCore, r: Result<Cycles>) -> bool {
    exists|m1: ConfiguredCore, d: Result<(u32, u32)>|
        #[trigger] operator::ea_ay_di_16_rel(c0, m1, d) && match d {
            Err(e) => r == Err::<Cycles, Exception>(e) && c1 == m1,
            Ok((dv, ea)) => {
                let o = common::lsl_16_outcome(m1, dv, 1);
                stored(o.0, c1, 16, ea, merged(dv, o.1, 16), r, 16)
            },
        }
}

/// LSL of a word in memory by one bit.
pub fn lsl_16_di(core: &mut ConfiguredCore) -> (r: Result<Cycles>)
    requires
        old(core).wf(),
    ensures
        final(core).wf(),
        lsl_16_di_effect(*old(core), *final(core), r),
{
    let ghost c0 = *core;
    let d = operator::ea_ay_di_16(core);
    let ghost m1 = *core;
    assert(operator::ea_ay_di_16_rel(c0, m1, d));
    let (dv, ea) = match d {
        Err(e) => {
            return Err(e);
        },
        Ok(p) => p,
    };
    let res = common::lsl_16(core, dv, 1);
    store(core, 16, ea, merge(dv, res, 16), 16)
}

/// What `lsl_16_ix` does: the core goes from `c0` to `c1` and `r` comes back.
pub open spec fn lsl_16_ix_effect(c0: ConfiguredCore, c1: ConfiguredCore, r: Result<Cycles>) -> bool {
    exists|m1: ConfiguredCore, d: Result<(u32, u32)>|
        #[trigger] operator::ea_ay_ix_16_rel(c0, m1, d) && match d {
            Err(e) => r == Err::<Cycles, Exception>(e) && c1 == m1,
            Ok((dv, ea)) => {
                let o = common::lsl_16_outcome(m1, dv, 1);
                stored(o.0, c1, 16, ea, merged(dv, o.1, 16), r, 18)
            },
        }
}

/// LSL of a word in memory by one bit.
pub fn lsl_16_ix(core: &mut ConfiguredCore) -> (r: Result<Cycles>)
    requires
        old(core).wf(),
    ensures
        final(core).wf(),
        lsl_16_ix_effect(*old(core), *final(core), r),
{
    let ghost c0 = *core;
    let d = operator::ea_ay_ix_16(core);
    let ghost m1 = *core;
    assert(operator::ea_ay_ix_16_rel(c0, m1, d));
    let (dv, ea) = match d {
        Err(e) => {
            return Err(e);
        },
        Ok(p) => p,
    };
    let res = common::lsl_16(core, dv, 1);
    store(core, 16, ea, merge(dv, res, 16), 18)
}

/// What `lsl_16_aw` does: the core goes from `c0` to `c1` and `r` comes back.
pub open spec fn lsl_16_aw_effect(c0: ConfiguredCore, c1: ConfiguredCore, r: Result<Cycles>) -> bool {
    exists|m1: ConfiguredCore, d: Result<(u32, u32)>|
        #[trigger] operator::ea_aw_16_rel(c0, m1, d) && match d {
            Err(e) => r == Err::<Cycles, Exception>(e) && c1 == m1,
            Ok((dv, ea)) => {
                let o = common::lsl_16_outcome(m1, dv, 1);
                stored(o.0, c1, 16, ea, merged(dv, o.1, 16), r, 16)
            },
        }
}

/// LSL of a word in memory by one bit.
pub fn lsl_16_aw(core: &mut ConfiguredCore) -> (r: Result<Cycles>)
    requires
        old(core).wf(),
    ensures
        final(core).wf(),
        lsl_16_aw_effect(*old(core), *final(core), r),
{
    let ghost c0 = *core;
    let d = operator::ea_aw_16(core);
    let ghost m1 = *core;
    assert(operator::ea_aw_16_rel(c0, m1, d));
    let (dv, ea) = match d {
        Err(e) => {
            return Err(e);
        },
        Ok(p) => p,
    };
    let res = common::lsl_16(core, dv, 1);
    store(core, 16, ea, merge(dv, res, 16), 16)
}

/// What `lsl_16_al` does: the core goes from `c0` to `c1` and `r` comes back.
pub open spec fn lsl_16_al_effect(c0: ConfiguredCore, c1: ConfiguredCore, r: Result<Cycles>) -> bool {
    exists|m1: ConfiguredCore, d: Result<(u32, u32)>|
        #[trigger] operator::ea_al_16_rel(c0, m1, d) && match d {
            Err(e) => r == Err::<Cycles, Exception>(e) && c1 == m1,
            Ok((dv, ea)) => {
                let o = common::lsl_16_outcome(m1, dv, 1);
                stored(o.0, c1, 16, ea, merged(dv, o.1, 16), r, 20)
            },
        }
}

/// LSL of a word in memory by one bit.
pub fn lsl_16_al(core: &mut ConfiguredCore) -> (r: Result<Cycles>)
    requires
        old(core).wf(),
    ensures
        final(core).wf(),
        lsl_16_al_effect(*old(core), *final(core), r),
{
    let ghost c0 = *core;
    let d = operator::ea_al_16(core);
    let ghost m1 = *core;
    assert(operator::ea_al_16_rel(c0, m1, d));
    let (dv, ea) = match d {
        Err(e) => {
            return Err(e);
        },
        Ok(p) => p,
    };
    let res = common::lsl_16(core, dv, 1);
    store(core, 16, ea, merge(dv, res, 16), 20)
}

/// What `lsr_16_ai` does: the core goes from `c0` to `c1` and `r` comes back.
pub open spec fn lsr_16_ai_effect(c0: ConfiguredCore, c1: ConfiguredCore, r: Result<Cycles>) -> bool {
    exists|m1: ConfiguredCore, d: Result<(u32, u32)>|
        #[trigger] operator::ea_ay_ai_16_rel(c0, m1, d) && match d {
            Err(e) => r == Err::<Cycles, Exception>(e) && c1 == m1,
            Ok((dv, ea)) => {
                let o = common::lsr_16_outcome(m1, dv, 1);
                stored(o.0, c1, 16, ea, merged(dv, o.1, 16), r, 12)
            },
        }
}

/// LSR of a word in memory by one bit.
pub fn lsr_16_ai(core: &mut ConfiguredCore) -> (r: Result<Cycles>)
    requires
        old(core).wf(),
    ensures
        final(core).wf(),
        lsr_16_ai_effect(*old(core), *final(core), r),
{
    let ghost c0 = *core;
    let d = operator::ea_ay_ai_16(core);
    let ghost m1 = *core;
    assert(operator::ea_ay_ai_16_rel(c0, m1, d));
    let (dv, ea) = match d {
        Err(e) => {
            return Err(e);
        },
        Ok(p) => p,
    };
    let res = common::lsr_16(core, dv, 1);
    store(core, 16, ea, merge(dv, res, 16), 12)
}

/// What `lsr_16_pi` does: the core goes from `c0` to `c1` and `r` comes back.
pub open spec fn lsr_16_pi_effect(c0: ConfiguredCore, c1: ConfiguredCore, r: Result<Cycles>) -> bool {
    exists|m1: ConfiguredCore, d: Result<(u32, u32)>|
        #[trigger] operator::ea_ay_pi_16_rel(c0, m1, d) && match d {
            Err(e) => r == Err::<Cycles, Exception>(e) && c1 == m1,
            Ok((dv, ea)) => {
                let o = common::lsr_16_outcome(m1, dv, 1);
                stored(o.0, c1, 16, ea, merged(dv, o.1, 16), r, 12)
            },
        }
}

/// LSR of a word in memory by one bit.
pub fn lsr_16_pi(core: &mut ConfiguredCore) -> (r: Result<Cycles>)
    requires
        old(core).wf(),
    ensures
        final(core).wf(),
        lsr_16_pi_effect(*old(core), *final(core), r),
{
    let ghost c0 = *core;
    let d = operator::ea_ay_pi_16(core);
    let ghost m1 = *core;
    assert(operator::ea_ay_pi_16_rel(c0, m1, d));
    let (dv, ea) = match d {
        Err(e) => {
            return Err(e);
        },
        Ok(p) => p,
    };
    let res = common::lsr_16(core, dv, 1);
    store(core, 16, ea, merge(dv, res, 16), 12)
}

/// What `lsr_16_pd` does: the core goes from `c0` to `c1` and `r` comes back.
pub open spec fn lsr_16_pd_effect(c0: ConfiguredCore, c1: ConfiguredCore, r: Result<Cycles>) -> bool {
    exists|m1: ConfiguredCore, d: Result<(u32, u32)>|
        #[trigger] operator::ea_ay_pd_16_rel(c0, m1, d) && match d {
            Err(e) => r == Err::<Cycles, Exception>(e) && c1 == m1,
            Ok((dv, ea)) => {
                let o = common::lsr_16_outcome(m1, dv, 1);
                stored(o.0, c1, 16, ea, merged(dv, o.1, 16), r, 14)
            },
        }
}

/// LSR of a word in memory by one bit.
pub fn lsr_16_pd(core: &mut ConfiguredCore) -> (r: Result<Cycles>)
    requires
        old(core).wf(),
    ensures
        final(core).wf(),
        lsr_16_pd_effect(*old(core), *final(core), r),
{
    let ghost c0 = *core;
    let d = operator::ea_ay_pd_16(core);
    let ghost m1 = *core;
    assert(operator::ea_ay_pd_16_rel(c0, m1, d));
    let (dv, ea) = match d {
        Err(e) => {
            return Err(e);
        },
        Ok(p) => p,
    };
    let res = common::lsr_16(core, dv, 1);
    store(core, 16, ea, merge(dv, res, 16), 14)
}

/// What `lsr_16_di` does: the core goes from `c0` to `c1` and `r` comes back.
pub open spec fn lsr_16_di_effect(c0: ConfiguredCore, c1: ConfiguredCore, r: Result<Cycles>) -> bool {
    exists|m1: ConfiguredCore, d: Result<(u32, u32)>|
        #[trigger] operator::ea_ay_di_16_rel(c0, m1, d) && match d {
            Err(e) => r == Err::<Cycles, Exception>(e) && c1 == m1,
            Ok((dv, ea)) => {
                let o = common::lsr_16_outcome(m1, dv, 1);
                stored(o.0, c1, 16, ea, merged(dv, o.1, 16), r, 16)
            },
        }
}

/// LSR of a word in memory by one bit.
pub fn lsr_16_di(core: &mut ConfiguredCore) -> (r: Result<Cycles>)
    requires
        old(core).wf(),
    ensures
        final(core).wf(),
        lsr_16_di_effect(*old(core), *final(core), r),
{
    let ghost c0 = *core;
    let d = operator::ea_ay_di_16(core);
    let ghost m1 = *core;
    assert(operator::ea_ay_di_16_rel(c0, m1, d));
    let (dv, ea) = match d {
        Err(e) => {
            return Err(e);
        },
        Ok(p) => p,
    };
    let res = common::lsr_16(core, dv, 1);
    store(core, 16, ea, merge(dv, res, 16), 16)
}

/// What `lsr_16_ix` does: the core goes from `c0` to `c1` and `r` comes back.
pub open spec fn lsr_16_ix_effect(c0: ConfiguredCore, c1: ConfiguredCore, r: Result<Cycles>) -> bool {
    exists|m1: ConfiguredCore, d: Result<(u32, u32)>|
        #[trigger] operator::ea_ay_ix_16_rel(c0, m1, d) && match d {
            Err(e) => r == Err::<Cycles, Exception>(e) && c1 == m1,
            Ok((dv, ea)) => {
                let o = common::lsr_16_outcome(m1, dv, 1);
                stored(o.0, c1, 16, ea, merged(dv, o.1, 16), r, 18)
            },
        }
}

/// LSR of a word in memory by one bit.
pub fn lsr_16_ix(core: &mut ConfiguredCore) -> (r: Result<Cycles>)
    requires
        old(core).wf(),
    ensures
        final(core).wf(),
        lsr_16_ix_effect(*old(core), *final(core), r),
{
    let ghost c0 = *core;
    let d = operator::ea_ay_ix_16(core);
    let ghost m1 = *core;
    assert(operator::ea_ay_ix_16_rel(c0, m1, d));
    let (dv, ea) = match d {
        Err(e) => {
            return Err(e);
        },
        Ok(p) => p,
    };
    let res = common::lsr_16(core, dv, 1);
    store(core, 16, ea, merge(dv, res, 16), 18)
}

/// What `lsr_16_aw` does: the core goes from `c0` to `c1` and `r` comes back.
pub open spec fn lsr_16_aw_effect(c0: ConfiguredCore, c1: ConfiguredCore, r: Result<Cycles>) -> bool {
    exists|m1: ConfiguredCore, d: Result<(u32, u32)>|
        #[trigger] operator::ea_aw_16_rel(c0, m1, d) && match d {
            Err(e) => r == Err::<Cycles, Exception>(e) && c1 == m1,
            Ok((dv, ea)) => {
                let o = common::lsr_16_outcome(m1, dv, 1);
                stored(o.0, c1, 16, ea, merged(dv, o.1, 16), r, 16)
            },
        }
}

/// LSR of a word in memory by one bit.
pub fn lsr_16_aw(core: &mut ConfiguredCore) -> (r: Result<Cycles>)
    requires
        old(core).wf(),
    ensures
        final(core).wf(),
        lsr_16_aw_effect(*old(core), *final(core), r),
{
    let ghost c0 = *core;
    let d = operator::ea_aw_16(core);
    let ghost m1 = *core;
    assert(operator::ea_aw_16_rel(c0, m1, d));
    let (dv, ea) = match d {
        Err(e) => {
            return Err(e);
        },
        Ok(p) => p,
    };
    let res = common::lsr_16(core, dv, 1);
    store(core, 16, ea, merge(dv, res, 16), 16)
}

/// What `lsr_16_al` does: the core goes from `c0` to `c1` and `r` comes back.
pub open spec fn lsr_16_al_effect(c0: ConfiguredCore, c1: ConfiguredCore, r: Result<Cycles>) -> bool {
    exists|m1: ConfiguredCore, d: Result<(u32, u32)>|
        #[trigger] operator::ea_al_16_rel(c0, m1, d) && match d {
            Err(e) => r == Err::<Cycles, Exception>(e) && c1 == m1,
            Ok((dv, ea)) => {
                let o = common::lsr_16_outcome(m1, dv, 1);
                stored(o.0, c1, 16, ea, merged(dv, o.1, 16), r, 20)
            },
        }
}

/// LSR of a word in memory by one bit.
pub fn lsr_16_al(core: &mut ConfiguredCore) -> (r: Result<Cycles>)
    requires
        old(core).wf(),
    ensures
        final(core).wf(),
        lsr_16_al_effect(*old(core), *final(core), r),
{
    let ghost c0 = *core;
    let d = operator::ea_al_16(core);
    let ghost m1 = *core;
    assert(operator::ea_al_16_rel(c0, m1, d));
    let (dv, ea) = match d {
        Err(e) => {
            return Err(e);
        },
        Ok(p) => p,
    };
    let res = common::lsr_16(core, dv, 1);
    store(core, 16, ea, merge(dv, res, 16), 20)
}

/// What `ror_8_s` does: the core goes from `c0` to `c1` and `r` comes back.
pub open spec fn ror_8_s_effect(c0: ConfiguredCore, c1: ConfiguredCore, r: Result<Cycles>) -> bool {
    exists|mid: ConfiguredCore, src: Result<u32>|
        #[trigger] operator::quick_rel(c0, mid, src) && match src {
            Err(e) => r == Err::<Cycles, Exception>(e) && c1 == mid,
            Ok(v) => {
                let shift = v & 0x3f;
                let reg = ir_dy(mid.ir);
                let o = common::ror_8_outcome(mid, mid.dar[reg], shift);
                &&& r == Ok::<Cycles, Exception>(Cycles((6 + 2 * shift) as i32))
                &&& reg_set(o.0, c1, reg, merged(mid.dar[reg], o.1, 8))
            },
        }
}

/// ROR of Dy by an immediate count; two more cycles per bit.
pub fn ror_8_s(core: &mut ConfiguredCore) -> (r: Result<Cycles>)
    requires
        old(core).wf(),
    ensures
        final(core).wf(),
        ror_8_s_effect(*old(core), *final(core), r),
{
    let ghost c0 = *core;
    let src = operator::quick(core);
    let ghost mid = *core;
    assert(operator::quick_rel(c0, mid, src));
    match src {
        Err(e) => Err(e),
        Ok(v) => {
            let shift = shift_count(v);
            let reg = reg_dy(core.ir);
            let dst = core.dar[reg];
            let res = common::ror_8(core, dst, shift);
            set_reg(core, reg, merge(dst, res, 8));
            Ok(Cycles(6 + 2 * (shift as i32)))
        },
    }
}

/// What `ror_16_s` does: the core goes from `c0` to `c1` and `r` comes back.
pub open spec fn ror_16_s_effect(c0: ConfiguredCore, c1: ConfiguredCore, r: Result<Cycles>) -> bool {
    exists|mid: ConfiguredCore, src: Result<u32>|
        #[trigger] operator::quick_rel(c0, mid, src) && match src {
            Err(e) => r == Err::<Cycles, Exception>(e) && c1 == mid,
            Ok(v) => {
                let shift = v & 0x3f;
                let reg = ir_dy(mid.ir);
                let o = common::ror_16_outcome(mid, mid.dar[reg], shift);
                &&& r == Ok::<Cycles, Exception>(Cycles((6 + 2 * shift) as i32))
                &&& reg_set(o.0, c1, reg, merged(mid.dar[reg], o.1, 16))
            },
        }
}

/// ROR of Dy by an immediate count; two more cycles per bit.
pub fn ror_16_s(core: &mut ConfiguredCore) -> (r: Result<Cycles>)
    requires
        old(core).wf(),
    ensures
        final(core).wf(),
        ror_16_s_effect(*old(core), *final(core), r),
{
    let ghost c0 = *core;
    let src = operator::quick(core);
    let ghost mid = *core;
    assert(operator::quick_rel(c0, mid, src));
    match src {
        Err(e) => Err(e),
        Ok(v) => {
            let shift = shift_count(v);
            let reg = reg_dy(core.ir);
            let dst = core.dar[reg];
            let res = common::ror_16(core, dst, shift);
            set_reg(core, reg, merge(dst, res, 16));
            Ok(Cycles(6 + 2 * (shift as i32)))
        },
    }
}

/// What `ror_32_s` does: the core goes from `c0` to `c1` and `r` comes back.
pub open spec fn ror_32_s_effect(c0: ConfiguredCore, c1: ConfiguredCore, r: Result<Cycles>) -> bool {
    exists|mid: ConfiguredCore, src: Result<u32>|
        #[trigger] operator::quick_rel(c0, mid, src) && match src {
            Err(e) => r == Err::<Cycles, Exception>(e) && c1 == mid,
            Ok(v) => {
                let shift = v & 0x3f;
                let reg = ir_dy(mid.ir);
                let o = common::ror_32_outcome(mid, mid.dar[reg], shift);
                &&& r == Ok::<Cycles, Exception>(Cycles((8 + 2 * shift) as i32))
                &&& reg_set(o.0, c1, reg, merged(mid.dar[reg], o.1, 32))
            },
        }
}

/// ROR of Dy by an immediate count; two more cycles per bit.
pub fn ror_32_s(core: &mut ConfiguredCore) -> (r: Result<Cycles>)
    requires
        old(core).wf(),
    ensures
        final(core).wf(),
        ror_32_s_effect(*old(core), *final(core), r),
{
    let ghost c0 = *core;
    let src = operator::quick(core);
    let ghost mid = *core;
    assert(operator::quick_rel(c0, mid, src));
    match src {
        Err(e) => Err(e),
        Ok(v) => {
            let shift = shift_count(v);
            let reg = reg_dy(core.ir);
            let dst = core.dar[reg];
            let res = common::ror_32(core, dst, shift);
            set_reg(core, reg, merge(dst, res, 32));
            Ok(Cycles(8 + 2 * (shift as i32)))
        },
    }
}

/// What `ror_8_r` does: the core goes from `c0` to `c1` and `r` comes back.
pub open spec fn ror_8_r_effect(c0: ConfiguredCore, c1: ConfiguredCore, r: Result<Cycles>) -> bool {
    exists|mid: ConfiguredCore, src: Result<u32>|
        #[trigger] operator::dx_rel(c0, mid, src) && match src {
            Err(e) => r == Err::<Cycles, Exception>(e) && c1 == mid,
            Ok(v) => {
                let shift = v & 0x3f;
                let reg = ir_dy(mid.ir);
                let o = common::ror_8_outcome(mid, mid.dar[reg], shift);
                &&& r == Ok::<Cycles, Exception>(Cycles((6 + 2 * shift) as i32))
                &&& reg_set(o.0, c1, reg, merged(mid.dar[reg], o.1, 8))
            },
        }
}

/// ROR of Dy by the count in Dx, modulo 64; two more cycles per bit.
pub fn ror_8_r(core: &mut ConfiguredCore) -> (r: Result<Cycles>)
    requires
        old(core).wf(),
    ensures
        final(core).wf(),
        ror_8_r_effect(*old(core), *final(core), r),
{
    let ghost c0 = *core;
    let src = operator::dx(core);
    let ghost mid = *core;
    assert(operator::dx_rel(c0, mid, src));
    match src {
        Err(e) => Err(e),
        Ok(v) => {
            let shift = shift_count(v);
            let reg = reg_dy(core.ir);
            let dst = core.dar[reg];
            let res = common::ror_8(core, dst, shift);
            set_reg(core, reg, merge(dst, res, 8));
            Ok(Cycles(6 + 2 * (shift as i32)))
        },
    }
}

/// What `ror_16_r` does: the core goes from `c0` to `c1` and `r` comes back.
pub open spec fn ror_16_r_effect(c0: ConfiguredCore, c1: ConfiguredCore, r: Result<Cycles>) -> bool {
    exists|mid: ConfiguredCore, src: Result<u32>|
        #[trigger] operator::dx_rel(c0, mid, src) && match src {
            Err(e) => r == Err::<Cycles, Exception>(e) && c1 == mid,
            Ok(v) => {
                let shift = v & 0x3f;
                let reg = ir_dy(mid.ir);
                let o = common::ror_16_outcome(mid, mid.dar[reg], shift);
                &&& r == Ok::<Cycles, Exception>(Cycles((6 + 2 * shift) as i32))
                &&& reg_set(o.0, c1, reg, merged(mid.dar[reg], o.1, 16))
            },
        }
}

/// ROR of Dy by the count in Dx, modulo 64; two more cycles per bit.
pub fn ror_16_r(core: &mut ConfiguredCore) -> (r: Result<Cycles>)
    requires
        old(core).wf(),
    ensures
        final(core).wf(),
        ror_16_r_effect(*old(core), *final(core), r),
{
    let ghost c0 = *core;
    let src = operator::dx(core);
    let ghost mid = *core;
    assert(operator::dx_rel(c0, mid, src));
    match src {
        Err(e) => Err(e),
        Ok(v) => {
            let shift = shift_count(v);
            let reg = reg_dy(core.ir);
            let dst = core.dar[reg];
            let res = common::ror_16(core, dst, shift);
            set_reg(core, reg, merge(dst, res, 16));
            Ok(Cycles(6 + 2 * (shift as i32)))
        },
    }
}

/// What `ror_32_r` does: the core goes from `c0` to `c1` and `r` comes back.
pub open spec fn ror_32_r_effect(c0: ConfiguredCore, c1: ConfiguredCore, r: Result<Cycles>) -> bool {
    exists|mid: ConfiguredCore, src: Result<u32>|
        #[trigger] operator::dx_rel(c0, mid, src) && match src {
            Err(e) => r == Err::<Cycles, Exception>(e) && c1 == mid,
            Ok(v) => {
                let shift = v & 0x3f;
                let reg = ir_dy(mid.ir);
                let o = common::ror_32_outcome(mid, mid.dar[reg], shift);
                &&& r == Ok::<Cycles, Exception>(Cycles((8 + 2 * shift) as i32))
                &&& reg_set(o.0, c1, reg, merged(mid.dar[reg], o.1, 32))
            },
        }
}

/// ROR of Dy by the count in Dx, modulo 64; two more cycles per bit.
pub fn ror_32_r(core: &mut ConfiguredCore) -> (r: Result<Cycles>)
    requires
        old(core).wf(),
    ensures
        final(core).wf(),
        ror_32_r_effect(*old(core), *final(core), r),
{
    let ghost c0 = *core;
    let src = operator::dx(core);
    let ghost mid = *core;
    assert(operator::dx_rel(c0, mid, src));
    match src {
        Err(e) => Err(e),
        Ok(v) => {
            let shift = shift_count(v);
            let reg = reg_dy(core.ir);
            let dst = core.dar[reg];
            let res = common::ror_32(core, dst, shift);
            set_reg(core, reg, merge(dst, res, 32));
            Ok(Cycles(8 + 2 * (shift as i32)))
        },
    }
}

/// What `rol_8_s` does: the core goes from `c0` to `c1` and `r` comes back.
pub open spec fn rol_8_s_effect(c0: ConfiguredCore, c1: ConfiguredCore, r: Result<Cycles>) -> bool {
    exists|mid: ConfiguredCore, src: Result<u32>|
        #[trigger] operator::quick_rel(c0, mid, src) && match src {
            Err(e) => r == Err::<Cycles, Exception>(e) && c1 == mid,
            Ok(v) => {
                let shift = v & 0x3f;
                let reg = ir_dy(mid.ir);
                let o = common::rol_8_outcome(mid, mid.dar[reg], shift);
                &&& r == Ok::<Cycles, Exception>(Cycles((6 + 2 * shift) as i32))
                &&& reg_set(o.0, c1, reg, merged(mid.dar[reg], o.1, 8))
            },
        }
}

/// ROL of Dy by an immediate count; two more cycles per bit.
pub fn rol_8_s(core: &mut ConfiguredCore) -> (r: Result<Cycles>)
    requires
        old(core).wf(),
    ensures
        final(core).wf(),
        rol_8_s_effect(*old(core), *final(core), r),
{
    let ghost c0 = *core;
    let src = operator::quick(core);
    let ghost mid = *core;
    assert(operator::quick_rel(c0, mid, src));
    match src {
        Err(e) => Err(e),
        Ok(v) => {
            let shift = shift_count(v);
            let reg = reg_dy(core.ir);
            let dst = core.dar[reg];
            let res = common::rol_8(core, dst, shift);
            set_reg(core, reg, merge(dst, res, 8));
            Ok(Cycles(6 + 2 * (shift as i32)))
        },
    }
}

/// What `rol_16_s` does: the core goes from `c0` to `c1` and `r` comes back.
pub open spec fn rol_16_s_effect(c0: ConfiguredCore, c1: ConfiguredCore, r: Result<Cycles>) -> bool {
    exists|mid: ConfiguredCore, src: Result<u32>|
        #[trigger] operator::quick_rel(c0, mid, src) && match src {
            Err(e) => r == Err::<Cycles, Exception>(e) && c1 == mid,
            Ok(v) => {
                let shift = v & 0x3f;
                let reg = ir_dy(mid.ir);
                let o = common::rol_16_outcome(mid, mid.dar[reg], shift);
                &&& r == Ok::<Cycles, Exception>(Cycles((6 + 2 * shift) as i32))
                &&& reg_set(o.0, c1, reg, merged(mid.dar[reg], o.1, 16))
            },
        }
}

/// ROL of Dy by an immediate count; two more cycles per bit.
pub fn rol_16_s(core: &mut ConfiguredCore) -> (r: Result<Cycles>)
    requires
        old(core).wf(),
    ensures
        final(core).wf(),
        rol_16_s_effect(*old(core), *final(core), r),
{
    let ghost c0 = *core;
    let src = operator::quick(core);
    let ghost mid = *core;
    assert(operator::quick_rel(c0, mid, src));
    match src {
        Err(e) => Err(e),
        Ok(v) => {
            let shift = shift_count(v);
            let reg = reg_dy(core.ir);
            let dst = core.dar[reg];
            let res = common::rol_16(core, dst, shift);
            set_reg(core, reg, merge(dst, res, 16));
            Ok(Cycles(6 + 2 * (shift as i32)))
        },
    }
}

/// What `rol_32_s` does: the core goes from `c0` to `c1` and `r` comes back.
pub open spec fn rol_32_s_effect(c0: ConfiguredCore, c1: ConfiguredCore, r: Result<Cycles>) -> bool {
    exists|mid: ConfiguredCore, src: Result<u32>|
        #[trigger] operator::quick_rel(c0, mid, src) && match src {
            Err(e) => r == Err::<Cycles, Exception>(e) && c1 == mid,
            Ok(v) => {
                let shift = v & 0x3f;
                let reg = ir_dy(mid.ir);
                let o = common::rol_32_outcome(mid, mid.dar[reg], shift);
                &&& r == Ok::<Cycles, Exception>(Cycles((8 + 2 * shift) as i32))
                &&& reg_set(o.0, c1, reg, merged(mid.dar[reg], o.1, 32))
            },
        }
}

/// ROL of Dy by an immediate count; two more cycles per bit.
pub fn rol_32_s(core: &mut ConfiguredCore) -> (r: Result<Cycles>)
    requires
        old(core).wf(),
    ensures
        final(core).wf(),
        rol_32_s_effect(*old(core), *final(core), r),
{
    let ghost c0 = *core;
    let src = operator::quick(core);
    let ghost mid = *core;
    assert(operator::quick_rel(c0, mid, src));
    match src {
        Err(e) => Err(e),
        Ok(v) => {
            let shift = shift_count(v);
            let reg = reg_dy(core.ir);
            let dst = core.dar[reg];
            let res = common::rol_32(core, dst, shift);
            set_reg(core, reg, merge(dst, res, 32));
            Ok(Cycles(8 + 2 * (shift as i32)))
        },
    }
}

/// What `rol_8_r` does: the core goes from `c0` to `c1` and `r` comes back.
pub open spec fn rol_8_r_effect(c0: ConfiguredCore, c1: ConfiguredCore, r: Result<Cycles>) -> bool {
    exists|mid: ConfiguredCore, src: Result<u32>|
        #[trigger] operator::dx_rel(c0, mid, src) && match src {
            Err(e) => r == Err::<Cycles, Exception>(e) && c1 == mid,
            Ok(v) => {
                let shift = v & 0x3f;
                let reg = ir_dy(mid.ir);
                let o = common::rol_8_outcome(mid, mid.dar[reg], shift);
                &&& r == Ok::<Cycles, Exception>(Cycles((6 + 2 * shift) as i32))
                &&& reg_set(o.0, c1, reg, merged(mid.dar[reg], o.1, 8))
            },
        }
}

/// ROL of Dy by the count in Dx, modulo 64; two more cycles per bit.
pub fn rol_8_r(core: &mut ConfiguredCore) -> (r: Result<Cycles>)
    requires
        old(core).wf(),
    ensures
        final(core).wf(),
        rol_8_r_effect(*old(core), *final(core), r),
{
    let ghost c0 = *core;
    let src = operator::dx(core);
    let ghost mid = *core;
    assert(operator::dx_rel(c0, mid, src));
    match src {
        Err(e) => Err(e),
        Ok(v) => {
            let shift = shift_count(v);
            let reg = reg_dy(core.ir);
            let dst = core.dar[reg];
            let res = common::rol_8(core, dst, shift);
            set_reg(core, reg, merge(dst, res, 8));
            Ok(Cycles(6 + 2 * (shift as i32)))
        },
    }
}

/// What `rol_16_r` does: the core goes from `c0` to `c1` and `r` comes back.
pub open spec fn rol_16_r_effect(c0: ConfiguredCore, c1: ConfiguredCore, r: Result<Cycles>) -> bool {
    exists|mid: ConfiguredCore, src: Result<u32>|
        #[trigger] operator::dx_rel(c0, mid, src) && match src {
            Err(e) => r == Err::<Cycles, Exception>(e) && c1 == mid,
            Ok(v) => {
                let shift = v & 0x3f;
                let reg = ir_dy(mid.ir);
                let o = common::rol_16_outcome(mid, mid.dar[reg], shift);
                &&& r == Ok::<Cycles, Exception>(Cycles((6 + 2 * shift) as i32))
                &&& reg_set(o.0, c1, reg, merged(mid.dar[reg], o.1, 16))
            },
        }
}

/// ROL of Dy by the count in Dx, modulo 64; two more cycles per bit.
pub fn rol_16_r(core: &mut ConfiguredCore) -> (r: Result<Cycles>)
    requires
        old(core).wf(),
    ensures
        final(core).wf(),
        rol_16_r_effect(*old(core), *final(core), r),
{
    let ghost c0 = *core;
    let src = operator::dx(core);
    let ghost mid = *core;
    assert(operator::dx_rel(c0, mid, src));
    match src {
        Err(e) => Err(e),
        Ok(v) => {
            let shift = shift_count(v);
            let reg = reg_dy(core.ir);
            let dst = core.dar[reg];
            let res = common::rol_16(core, dst, shift);
            set_reg(core, reg, merge(dst, res, 16));
            Ok(Cycles(6 + 2 * (shift as i32)))
        },
    }
}

/// What `rol_32_r` does: the core goes from `c0` to `c1` and `r` comes back.
pub open spec fn rol_32_r_effect(c0: ConfiguredCore, c1: ConfiguredCore, r: Result<Cycles>) -> bool {
    exists|mid: ConfiguredCore, src: Result<u32>|
        #[trigger] operator::dx_rel(c0, mid, src) && match src {
            Err(e) => r == Err::<Cycles, Exception>(e) && c1 == mid,
            Ok(v) => {
                let shift = v & 0x3f;
                let reg = ir_dy(mid.ir);
                let o = common::rol_32_outcome(mid, mid.dar[reg], shift);
                &&& r == Ok::<Cycles, Exception>(Cycles((8 + 2 * shift) as i32))
                &&& reg_set(o.0, c1, reg, merged(mid.dar[reg], o.1, 32))
            },
        }
}

/// ROL of Dy by the count in Dx, modulo 64; two more cycles per bit.
pub fn rol_32_r(core: &mut ConfiguredCore) -> (r: Result<Cycles>)
    requires
        old(core).wf(),
    ensures
        final(core).wf(),
        rol_32_r_effect(*old(core), *final(core), r),
{
    let ghost c0 = *core;
    let src = operator::dx(core);
    let ghost mid = *core;
    assert(operator::dx_rel(c0, mid, src));
    match src {
        Err(e) => Err(e),
        Ok(v) => {
            let shift = shift_count(v);
            let reg = reg_dy(core.ir);
            let dst = core.dar[reg];
            let res = common::rol_32(core, dst, shift);
            set_reg(core, reg, merge(dst, res, 32));
            Ok(Cycles(8 + 2 * (shift as i32)))
        },
    }
}

/// What `rol_16_ai` does: the core goes from `c0` to `c1` and `r` comes back.
pub open spec fn rol_16_ai_effect(c0: ConfiguredCore, c1: ConfiguredCore, r: Result<Cycles>) -> bool {
    exists|m1: ConfiguredCore, d: Result<(u32, u32)>|
        #[trigger] operator::ea_ay_ai_16_rel(c0, m1, d) && match d {
            Err(e) => r == Err::<Cycles, Exception>(e) && c1 == m1,
            Ok((dv, ea)) => {
                let o = common::rol_16_outcome(m1, dv, 1);
                stored(o.0, c1, 16, ea, merged(dv, o.1, 16), r, 12)
            },
        }
}

/// ROL of a word in memory by one bit.
pub fn rol_16_ai(core: &mut ConfiguredCore) -> (r: Result<Cycles>)
    requires
        old(core).wf(),
    ensures
        final(core).wf(),
        rol_16_ai_effect(*old(core), *final(core), r),
{
    let ghost c0 = *core;
    let d = operator::ea_ay_ai_16(core);
    let ghost m1 = *core;
    assert(operator::ea_ay_ai_16_rel(c0, m1, d));
    let (dv, ea) = match d {
        Err(e) => {
            return Err(e);
        },
        Ok(p) => p,
    };
    let res = common::rol_16(core, dv, 1);
    store(core, 16, ea, merge(dv, res, 16), 12)
}

/// What `rol_16_pi` does: the core goes from `c0` to `c1` and `r` comes back.
pub open spec fn rol_16_pi_effect(c0: ConfiguredCore, c1: ConfiguredCore, r: Result<Cycles>) -> bool {
    exists|m1: ConfiguredCore, d: Result<(u32, u32)>|
        #[trigger] operator::ea_ay_pi_16_rel(c0, m1, d) && match d {
            Err(e) => r == Err::<Cycles, Exception>(e) && c1 == m1,
            Ok((dv, ea)) => {
                let o = common::rol_16_outcome(m1, dv, 1);
                stored(o.0, c1, 16, ea, merged(dv, o.1, 16), r, 12)
            },
        }
}

/// ROL of a word in memory by one bit.
pub fn rol_16_pi(core: &mut ConfiguredCore) -> (r: Result<Cycles>)
    requires
        old(core).wf(),
    ensures
        final(core).wf(),
        rol_16_pi_effect(*old(core), *final(core), r),
{
    let ghost c0 = *core;
    let d = operator::ea_ay_pi_16(core);
    let ghost m1 = *core;
    assert(operator::ea_ay_pi_16_rel(c0, m1, d));
    let (dv, ea) = match d {
        Err(e) => {
            return Err(e);
        },
        Ok(p) => p,
    };
    let res = common::rol_16(core, dv, 1);
    store(core, 16, ea, merge(dv, res, 16), 12)
}

/// What `rol_16_pd` does: the core goes from `c0` to `c1` and `r` comes back.
pub open spec fn rol_16_pd_effect(c0: ConfiguredCore, c1: ConfiguredCore, r: Result<Cycles>) -> bool {
    exists|m1: ConfiguredCore, d: Result<(u32, u32)>|
        #[trigger] operator::ea_ay_pd_16_rel(c0, m1, d) && match d {
            Err(e) => r == Err::<Cycles, Exception>(e) && c1 == m1,
            Ok((dv, ea)) => {
                let o = common::rol_16_outcome(m1, dv, 1);
                stored(o.0, c1, 16, ea, merged(dv, o.1, 16), r, 14)
            },
        }
}

/// ROL of a word in memory by one bit.
pub fn rol_16_pd(core: &mut ConfiguredCore) -> (r: Result<Cycles>)
    requires
        old(core).wf(),
    ensures
        final(core).wf(),
        rol_16_pd_effect(*old(core), *final(core), r),
{
    let ghost c0 = *core;
    let d = operator::ea_ay_pd_16(core);
    let ghost m1 = *core;
    assert(operator::ea_ay_pd_16_rel(c0, m1, d));
    let (dv, ea) = match d {
        Err(e) => {
            return Err(e);
        },
        Ok(p) => p,
    };
    let res = common::rol_16(core, dv, 1);
    store(core, 16, ea, merge(dv, res, 16), 14)
}

/// What `rol_16_di` does: the core goes from `c0` to `c1` and `r` comes back.
pub open spec fn rol_16_di_effect(c0: ConfiguredCore, c1: ConfiguredCore, r: Result<Cycles>) -> bool {
    exists|m1: ConfiguredCore, d: Result<(u32, u32)>|
        #[trigger] operator::ea_ay_di_16_rel(c0, m1, d) && match d {
            Err(e) => r == Err::<Cycles, Exception>(e) && c1 == m1,
            Ok((dv, ea)) => {
                let o = common::rol_16_outcome(m1, dv, 1);
                stored(o.0, c1, 16, ea, merged(dv, o.1, 16), r, 16)
            },
        }
}

/// ROL of a word in memory by one bit.
pub fn rol_16_di(core: &mut ConfiguredCore) -> (r: Result<Cycles>)
    requires
        old(core).wf(),
    ensures
        final(core).wf(),
        rol_16_di_effect(*old(core), *final(core), r),
{
    let ghost c0 = *core;
    let d = operator::ea_ay_di_16(core);
    let ghost m1 = *core;
    assert(operator::ea_ay_di_16_rel(c0, m1, d));
    let (dv, ea) = match d {
        Err(e) => {
            return Err(e);
        },
        Ok(p) => p,
    };
    let res = common::rol_16(core, dv, 1);
    store(core, 16, ea, merge(dv, res, 16), 16)
}

/// What `rol_16_ix` does: the core goes from `c0` to `c1` and `r` comes back.
pub open spec fn rol_16_ix_effect(c0: ConfiguredCore, c1: ConfiguredCore, r: Result<Cycles>) -> bool {
    exists|m1: ConfiguredCore, d: Result<(u32, u32)>|
        #[trigger] operator::ea_ay_ix_16_rel(c0, m1, d) && match d {
            Err(e) => r == Err::<Cycles, Exception>(e) && c1 == m1,
            Ok((dv, ea)) => {
                let o = common::rol_16_outcome(m1, dv, 1);
                stored(o.0, c1, 16, ea, merged(dv, o.1, 16), r, 18)
            },
        }
}

/// ROL of a word in memory by one bit.
pub fn rol_16_ix(core: &mut ConfiguredCore) -> (r: Result<Cycles>)
    requires
        old(core).wf(),
    ensures
        final(core).wf(),
        rol_16_ix_effect(*old(core), *final(core), r),
{
    let ghost c0 = *core;
    let d = operator::ea_ay_ix_16(core);
    let ghost m1 = *core;
    assert(operator::ea_ay_ix_16_rel(c0, m1, d));
    let (dv, ea) = match d {
        Err(e) => {
            return Err(e);
        },
        Ok(p) => p,
    };
    let res = common::rol_16(core, dv, 1);
    store(core, 16, ea, merge(dv, res, 16), 18)
}

/// What `rol_16_aw` does: the core goes from `c0` to `c1` and `r` comes back.
pub open spec fn rol_16_aw_effect(c0: ConfiguredCore, c1: ConfiguredCore, r: Result<Cycles>) -> bool {
    exists|m1: ConfiguredCore, d: Result<(u32, u32)>|
        #[trigger] operator::ea_aw_16_rel(c0, m1, d) && match d {
            Err(e) => r == Err::<Cycles, Exception>(e) && c1 == m1,
            Ok((dv, ea)) => {
                let o = common::rol_16_outcome(m1, dv, 1);
                stored(o.0, c1, 16, ea, merged(dv, o.1, 16), r, 16)
            },
        }
}

/// ROL of a word in memory by one bit.
pub fn rol_16_aw(core: &mut ConfiguredCore) -> (r: Result<Cycles>)
    requires
        old(core).wf(),
    ensures
        final(core).wf(),
        rol_16_aw_effect(*old(core), *final(core), r),
{
    let ghost c0 = *core;
    let d = operator::ea_aw_16(core);
    let ghost m1 = *core;
    assert(operator::ea_aw_16_rel(c0, m1, d));
    let (dv, ea) = match d {
        Err(e) => {
            return Err(e);
        },
        Ok(p) => p,
    };
    let res = common::rol_16(core, dv, 1);
    store(core, 16, ea, merge(dv, res, 16), 16)
}

/// What `rol_16_al` does: the core goes from `c0` to `c1` and `r` comes back.
pub open spec fn rol_16_al_effect(c0: ConfiguredCore, c1: ConfiguredCore, r: Result<Cycles>) -> bool {
    exists|m1: ConfiguredCore, d: Result<(u32, u32)>|
        #[trigger] operator::ea_al_16_rel(c0, m1, d) && match d {
            Err(e) => r == Err::<Cycles, Exception>(e) && c1 == m1,
            Ok((dv, ea)) => {
                let o = common::rol_16_outcome(m1, dv, 1);
                stored(o.0, c1, 16, ea, merged(dv, o.1, 16), r, 20)
            },
        }
}

/// ROL of a word in memory by one bit.
pub fn rol_16_al(core: &mut ConfiguredCore) -> (r: Result<Cycles>)
    requires
        old(core).wf(),
    ensures
        final(core).wf(),
        rol_16_al_effect(*old(core), *final(core), r),
{
    let ghost c0 = *core;
    let d = operator::ea_al_16(core);
    let ghost m1 = *core;
    assert(operator::ea_al_16_rel(c0, m1, d));
    let (dv, ea) = match d {
        Err(e) => {
            return Err(e);
        },
        Ok(p) => p,
    };
    let res = common::rol_16(core, dv, 1);
    store(core, 16, ea, merge(dv, res, 16), 20)
}

/// What `ror_16_ai` does: the core goes from `c0` to `c1` and `r` comes back.
pub open spec fn ror_16_ai_effect(c0: ConfiguredCore, c1: ConfiguredCore, r: Result<Cycles>) -> bool {
    exists|m1: ConfiguredCore, d: Result<(u32, u32)>|
        #[trigger] operator::ea_ay_ai_16_rel(c0, m1, d) && match d {
            Err(e) => r == Err::<Cycles, Exception>(e) && c1 == m1,
            Ok((dv, ea)) => {
                let o = common::ror_16_outcome(m1, dv, 1);
                stored(o.0, c1, 16, ea, merged(dv, o.1, 16), r, 12)
            },
        }
}

/// ROR of a word in memory by one bit.
pub fn ror_16_ai(core: &mut ConfiguredCore) -> (r: Result<Cycles>)
    requires
        old(core).wf(),
    ensures
        final(core).wf(),
        ror_16_ai_effect(*old(core), *final(core), r),
{
    let ghost c0 = *core;
    let d = operator::ea_ay_ai_16(core);
    let ghost m1 = *core;
    assert(operator::ea_ay_ai_16_rel(c0, m1, d));
    let (dv, ea) = match d {
        Err(e) => {
            return Err(e);
        },
        Ok(p) => p,
    };
    let res = common::ror_16(core, dv, 1);
    store(core, 16, ea, merge(dv, res, 16), 12)
}

/// What `ror_16_pi` does: the core goes from `c0` to `c1` and `r` comes back.
pub open spec fn ror_16_pi_effect(c0: ConfiguredCore, c1: ConfiguredCore, r: Result<Cycles>) -> bool {
    exists|m1: ConfiguredCore, d: Result<(u32, u32)>|
        #[trigger] operator::ea_ay_pi_16_rel(c0, m1, d) && match d {
            Err(e) => r == Err::<Cycles, Exception>(e) && c1 == m1,
            Ok((dv, ea)) => {
                let o = common::ror_16_outcome(m1, dv, 1);
                stored(o.0, c1, 16, ea, merged(dv, o.1, 16), r, 12)
            },
        }
}

/// ROR of a word in memory by one bit.
pub fn ror_16_pi(core: &mut ConfiguredCore) -> (r: Result<Cycles>)
    requires
        old(core).wf(),
    ensures
        final(core).wf(),
        ror_16_pi_effect(*old(core), *final(core), r),
{
    let ghost c0 = *core;
    let d = operator::ea_ay_pi_16(core);
    let ghost m1 = *core;
    assert(operator::ea_ay_pi_16_rel(c0, m1, d));
    let (dv, ea) = match d {
        Err(e) => {
            return Err(e);
        },
        Ok(p) => p,
    };
    let res = common::ror_16(core, dv, 1);
    store(core, 16, ea, merge(dv, res, 16), 12)
}

/// What `ror_16_pd` does: the core goes from `c0` to `c1` and `r` comes back.
pub open spec fn ror_16_pd_effect(c0: ConfiguredCore, c1: ConfiguredCore, r: Result<Cycles>) -> bool {
    exists|m1: ConfiguredCore, d: Result<(u32, u32)>|
        #[trigger] operator::ea_ay_pd_16_rel(c0, m1, d) && match d {
            Err(e) => r == Err::<Cycles, Exception>(e) && c1 == m1,
            Ok((dv, ea)) => {
                let o = common::ror_16_outcome(m1, dv, 1);
                stored(o.0, c1, 16, ea, merged(dv, o.1, 16), r, 14)
            },
        }
}

/// ROR of a word in memory by one bit.
pub fn ror_16_pd(core: &mut ConfiguredCore) -> (r: Result<Cycles>)
    requires
        old(core).wf(),
    ensures
        final(core).wf(),
        ror_16_pd_effect(*old(core), *final(core), r),
{
    let ghost c0 = *core;
    let d = operator::ea_ay_pd_16(core);
    let ghost m1 = *core;
    assert(operator::ea_ay_pd_16_rel(c0, m1, d));
    let (dv, ea) = match d {
        Err(e) => {
            return Err(e);
        },
        Ok(p) => p,
    };
    let res = common::ror_16(core, dv, 1);
    store(core, 16, ea, merge(dv, res, 16), 14)
}

/// What `ror_16_di` does: the core goes from `c0` to `c1` and `r` comes back.
pub open spec fn ror_16_di_effect(c0: ConfiguredCore, c1: ConfiguredCore, r: Result<Cycles>) -> bool {
    exists|m1: ConfiguredCore, d: Result<(u32, u32)>|
        #[trigger] operator::ea_ay_di_16_rel(c0, m1, d) && match d {
            Err(e) => r == Err::<Cycles, Exception>(e) && c1 == m1,
            Ok((dv, ea)) => {
                let o = common::ror_16_outcome(m1, dv, 1);
                stored(o.0, c1, 16, ea, merged(dv, o.1, 16), r, 16)
            },
        }
}

/// ROR of a word in memory by one bit.
pub fn ror_16_di(core: &mut ConfiguredCore) -> (r: Result<Cycles>)
    requires
        old(core).wf(),
    ensures
        final(core).wf(),
        ror_16_di_effect(*old(core), *final(core), r),
{
    let ghost c0 = *core;
    let d = operator::ea_ay_di_16(core);
    let ghost m1 = *core;
    assert(operator::ea_ay_di_16_rel(c0, m1, d));
    let (dv, ea) = match d {
        Err(e) => {
            return Err(e);
        },
        Ok(p) => p,
    };
    let res = common::ror_16(core, dv, 1);
    store(core, 16, ea, merge(dv, res, 16), 16)
}

/// What `ror_16_ix` does: the core goes from `c0` to `c1` and `r` comes back.
pub open spec fn ror_16_ix_effect(c0: ConfiguredCore, c1: ConfiguredCore, r: Result<Cycles>) -> bool {
    exists|m1: ConfiguredCore, d: Result<(u32, u32)>|
        #[trigger] operator::ea_ay_ix_16_rel(c0, m1, d) && match d {
            Err(e) => r == Err::<Cycles, Exception>(e) && c1 == m1,
            Ok((dv, ea)) => {
                let o = common::ror_16_outcome(m1, dv, 1);
                stored(o.0, c1, 16, ea, merged(dv, o.1, 16), r, 18)
            },
        }
}

/// ROR of a word in memory by one bit.
pub fn ror_16_ix(core: &mut ConfiguredCore) -> (r: Result<Cycles>)
    requires
        old(core).wf(),
    ensures
        final(core).wf(),
        ror_16_ix_effect(*old(core), *final(core), r),
{
    let ghost c0 = *core;
    let d = operator::ea_ay_ix_16(core);
    let ghost m1 = *core;
    assert(operator::ea_ay_ix_16_rel(c0, m1, d));
    let (dv, ea) = match d {
        Err(e) => {
            return Err(e);
        },
        Ok(p) => p,
    };
    let res = common::ror_16(core, dv, 1);
    store(core, 16, ea, merge(dv, res, 16), 18)
}

/// What `ror_16_aw` does: the core goes from `c0` to `c1` and `r` comes back.
pub open spec fn ror_16_aw_effect(c0: ConfiguredCore, c1: ConfiguredCore, r: Result<Cycles>) -> bool {
    exists|m1: ConfiguredCore, d: Result<(u32, u32)>|
        #[trigger] operator::ea_aw_16_rel(c0, m1, d) && match d {
            Err(e) => r == Err::<Cycles, Exception>(e) && c1 == m1,
            Ok((dv, ea)) => {
                let o = common::ror_16_outcome(m1, dv, 1);
                stored(o.0, c1, 16, ea, merged(dv, o.1, 16), r, 16)
            },
        }
}

/// ROR of a word in memory by one bit.
pub fn ror_16_aw(core: &mut ConfiguredCore) -> (r: Result<Cycles>)
    requires
        old(core).wf(),
    ensures
        final(core).wf(),
        ror_16_aw_effect(*old(core), *final(core), r),
{
    let ghost c0 = *core;
    let d = operator::ea_aw_16(core);
    let ghost m1 = *core;
    assert(operator::ea_aw_16_rel(c0, m1, d));
    let (dv, ea) = match d {
        Err(e) => {
            return Err(e);
        },
        Ok(p) => p,
    };
    let res = common::ror_16(core, dv, 1);
    store(core, 16, ea, merge(dv, res, 16), 16)
}

/// What `ror_16_al` does: the core goes from `c0` to `c1` and `r` comes back.
pub open spec fn ror_16_al_effect(c0: ConfiguredCore, c1: ConfiguredCore, r: Result<Cycles>) -> bool {
    exists|m1: ConfiguredCore, d: Result<(u32, u32)>|
        #[trigger] operator::ea_al_16_rel(c0, m1, d) && match d {
            Err(e) => r == Err::<Cycles, Exception>(e) && c1 == m1,
            Ok((dv, ea)) => {
                let o = common::ror_16_outcome(m1, dv, 1);
                stored(o.0, c1, 16, ea, merged(dv, o.1, 16), r, 20)
            },
        }
}

/// ROR of a word in memory by one bit.
pub fn ror_16_al(core: &mut ConfiguredCore) -> (r: Result<Cycles>)
    requires
        old(core).wf(),
    ensures
        final(core).wf(),
        ror_16_al_effect(*old(core), *final(core), r),
{
    let ghost c0 = *core;
    let d = operator::ea_al_16(core);
    let ghost m1 = *core;
    assert(operator::ea_al_16_rel(c0, m1, d));
    let (dv, ea) = match d {
        Err(e) => {
            return Err(e);
        },
        Ok(p) => p,
    };
    let res = common::ror_16(core, dv, 1);
    store(core, 16, ea, merge(dv, res, 16), 20)
}

/// What `roxr_8_s` does: the core goes from `c0` to `c1` and `r` comes back.
pub open spec fn roxr_8_s_effect(c0: ConfiguredCore, c1: ConfiguredCore, r: Result<Cycles>) -> bool {
    exists|mid: ConfiguredCore, src: Result<u32>|
        #[trigger] operator::quick_rel(c0, mid, src) && match src {
            Err(e) => r == Err::<Cycles, Exception>(e) && c1 == mid,
            Ok(v) => {
                let shift = v & 0x3f;
                let reg = ir_dy(mid.ir);
                let o = common::roxr_8_outcome(mid, mid.dar[reg], shift);
                &&& r == Ok::<Cycles, Exception>(Cycles((6 + 2 * shift) as i32))
                &&& reg_set(o.0, c1, reg, merged(mid.dar[reg], o.1, 8))
            },
        }
}

/// ROXR of Dy by an immediate count; two more cycles per bit.
pub fn roxr_8_s(core: &mut ConfiguredCore) -> (r: Result<Cycles>)
    requires
        old(core).wf(),
    ensures
        final(core).wf(),
        roxr_8_s_effect(*old(core), *final(core), r),
{
    let ghost c0 = *core;
    let src = operator::quick(core);
    let ghost mid = *core;
    assert(operator::quick_rel(c0, mid, src));
    match src {
        Err(e) => Err(e),
        Ok(v) => {
            let shift = shift_count(v);
            let reg = reg_dy(core.ir);
            let dst = core.dar[reg];
            let res = common::roxr_8(core, dst, shift);
            set_reg(core, reg, merge(dst, res, 8));
            Ok(Cycles(6 + 2 * (shift as i32)))
        },
    }
}

/// What `roxr_16_s` does: the core goes from `c0` to `c1` and `r` comes back.
pub open spec fn roxr_16_s_effect(c0: ConfiguredCore, c1: ConfiguredCore, r: Result<Cycles>) -> bool {
    exists|mid: ConfiguredCore, src: Result<u32>|
        #[trigger] operator::quick_rel(c0, mid, src) && match src {
            Err(e) => r == Err::<Cycles, Exception>(e) && c1 == mid,
            Ok(v) => {
                let shift = v & 0x3f;
                let reg = ir_dy(mid.ir);
                let o = common::roxr_16_outcome(mid, mid.dar[reg], shift);
                &&& r == Ok::<Cycles, Exception>(Cycles((6 + 2 * shift) as i32))
                &&& reg_set(o.0, c1, reg, merged(mid.dar[reg], o.1, 16))
            },
        }
}

/// ROXR of Dy by an immediate count; two more cycles per bit.
pub fn roxr_16_s(core: &mut ConfiguredCore) -> (r: Result<Cycles>)
    requires
        old(core).wf(),
    ensures
        final(core).wf(),
        roxr_16_s_effect(*old(core), *final(core), r),
{
    let ghost c0 = *core;
    let src = operator::quick(core);
    let ghost mid = *core;
    assert(operator::quick_rel(c0, mid, src));
    match src {
        Err(e) => Err(e),
        Ok(v) => {
            let shift = shift_count(v);
            let reg = reg_dy(core.ir);
            let dst = core.dar[reg];
            let res = common::roxr_16(core, dst, shift);
            set_reg(core, reg, merge(dst, res, 16));
            Ok(Cycles(6 + 2 * (shift as i32)))
        },
    }
}

/// What `roxr_32_s` does: the core goes from `c0` to `c1` and `r` comes back.
pub open spec fn roxr_32_s_effect(c0: ConfiguredCore, c1: ConfiguredCore, r: Result<Cycles>) -> bool {
    exists|mid: ConfiguredCore, src: Result<u32>|
        #[trigger] operator::quick_rel(c0, mid, src) && match src {
            Err(e) => r == Err::<Cycles, Exception>(e) && c1 == mid,
            Ok(v) => {
                let shift = v & 0x3f;
                let reg = ir_dy(mid.ir);
                let o = common::roxr_32_outcome(mid, mid.dar[reg], shift);
                &&& r == Ok::<Cycles, Exception>(Cycles((8 + 2 * shift) as i32))
                &&& reg_set(o.0, c1, reg, merged(mid.dar[reg], o.1, 32))
            },
        }
}

/// ROXR of Dy by an immediate count; two more cycles per bit.
pub fn roxr_32_s(core: &mut ConfiguredCore) -> (r: Result<Cycles>)
    requires
        old(core).wf(),
    ensures
        final(core).wf(),
        roxr_32_s_effect(*old(core), *final(core), r),
{
    let ghost c0 = *core;
    let src = operator::quick(core);
    let ghost mid = *core;
    assert(operator::quick_rel(c0, mid, src));
    match src {
        Err(e) => Err(e),
        Ok(v) => {
            let shift = shift_count(v);
            let reg = reg_dy(core.ir);
            let dst = core.dar[reg];
            let res = common::roxr_32(core, dst, shift);
            set_reg(core, reg, merge(dst, res, 32));
            Ok(Cycles(8 + 2 * (shift as i32)))
        },
    }
}

/// What `roxr_8_r` does: the core goes from `c0` to `c1` and `r` comes back.
pub open spec fn roxr_8_r_effect(c0: ConfiguredCore, c1: ConfiguredCore, r: Result<Cycles>) -> bool {
    exists|mid: ConfiguredCore, src: Result<u32>|
        #[trigger] operator::dx_rel(c0, mid, src) && match src {
            Err(e) => r == Err::<Cycles, Exception>(e) && c1 == mid,
            Ok(v) => {
                let shift = v & 0x3f;
                let reg = ir_dy(mid.ir);
                let o = common::roxr_8_outcome(mid, mid.dar[reg], shift);
                &&& r == Ok::<Cycles, Exception>(Cycles((6 + 2 * shift) as i32))
                &&& reg_set(o.0, c1, reg, merged(mid.dar[reg], o.1, 8))
            },
        }
}

/// ROXR of Dy by the count in Dx, modulo 64; two more cycles per bit.
pub fn roxr_8_r(core: &mut ConfiguredCore) -> (r: Result<Cycles>)
    requires
        old(core).wf(),
    ensures
        final(core).wf(),
        roxr_8_r_effect(*old(core), *final(core), r),
{
    let ghost c0 = *core;
    let src = operator::dx(core);
    let ghost mid = *core;
    assert(operator::dx_rel(c0, mid, src));
    match src {
        Err(e) => Err(e),
        Ok(v) => {
            let shift = shift_count(v);
            let reg = reg_dy(core.ir);
            let dst = core.dar[reg];
            let res = common::roxr_8(core, dst, shift);
            set_reg(core, reg, merge(dst, res, 8));
            Ok(Cycles(6 + 2 * (shift as i32)))
        },
    }
}

/// What `roxr_16_r` does: the core goes from `c0` to `c1` and `r` comes back.
pub open spec fn roxr_16_r_effect(c0: ConfiguredCore, c1: ConfiguredCore, r: Result<Cycles>) -> bool {
    exists|mid: ConfiguredCore, src: Result<u32>|
        #[trigger] operator::dx_rel(c0, mid, src) && match src {
            Err(e) => r == Err::<Cycles, Exception>(e) && c1 == mid,
            Ok(v) => {
                let shift = v & 0x3f;
                let reg = ir_dy(mid.ir);
                let o = common::roxr_16_outcome(mid, mid.dar[reg], shift);
                &&& r == Ok::<Cycles, Exception>(Cycles((6 + 2 * shift) as i32))
                &&& reg_set(o.0, c1, reg, merged(mid.dar[reg], o.1, 16))
            },
        }
}

/// ROXR of Dy by the count in Dx, modulo 64; two more cycles per bit.
pub fn roxr_16_r(core: &mut ConfiguredCore) -> (r: Result<Cycles>)
    requires
        old(core).wf(),
    ensures
        final(core).wf(),
        roxr_16_r_effect(*old(core), *final(core), r),
{
    let ghost c0 = *core;
    let src = operator::dx(core);
    let ghost mid = *core;
    assert(operator::dx_rel(c0, mid, src));
    match src {
        Err(e) => Err(e),
        Ok(v) => {
            let shift = shift_count(v);
            let reg = reg_dy(core.ir);
            let dst = core.dar[reg];
            let res = common::roxr_16(core, dst, shift);
            set_reg(core, reg, merge(dst, res, 16));
            Ok(Cycles(6 + 2 * (shift as i32)))
        },
    }
}

/// What `roxr_32_r` does: the core goes from `c0` to `c1` and `r` comes back.
pub open spec fn roxr_32_r_effect(c0: ConfiguredCore, c1: ConfiguredCore, r: Result<Cycles>) -> bool {
    exists|mid: ConfiguredCore, src: Result<u32>|
        #[trigger] operator::dx_rel(c0, mid, src) && match src {
            Err(e) => r == Err::<Cycles, Exception>(e) && c1 == mid,
            Ok(v) => {
                let shift = v & 0x3f;
                let reg = ir_dy(mid.ir);
                let o = common::roxr_32_outcome(mid, mid.dar[reg], shift);
                &&& r == Ok::<Cycles, Exception>(Cycles((8 + 2 * shift) as i32))
                &&& reg_set(o.0, c1, reg, merged(mid.dar[reg], o.1, 32))
            },
        }
}

/// ROXR of Dy by the count in Dx, modulo 64; two more cycles per bit.
pub fn roxr_32_r(core: &mut ConfiguredCore) -> (r: Result<Cycles>)
    requires
        old(core).wf(),
    ensures
        final(core).wf(),
        roxr_32_r_effect(*old(core), *final(core), r),
{
    let ghost c0 = *core;
    let src = operator::dx(core);
    let ghost mid = *core;
    assert(operator::dx_rel(c0, mid, src));
    match src {
        Err(e) => Err(e),
        Ok(v) => {
            let shift = shift_count(v);
            let reg = reg_dy(core.ir);
            let dst = core.dar[reg];
            let res = common::roxr_32(core, dst, shift);
            set_reg(core, reg, merge(dst, res, 32));
            Ok(Cycles(8 + 2 * (shift as i32)))
        },
    }
}

/// What `roxl_8_s` does: the core goes from `c0` to `c1` and `r` comes back.
pub open spec fn roxl_8_s_effect(c0: ConfiguredCore, c1: ConfiguredCore, r: Result<Cycles>) -> bool {
    exists|mid: ConfiguredCore, src: Result<u32>|
        #[trigger] operator::quick_rel(c0, mid, src) && match src {
            Err(e) => r == Err::<Cycles, Exception>(e) && c1 == mid,
            Ok(v) => {
                let shift = v & 0x3f;
                let reg = ir_dy(mid.ir);
                let o = common::roxl_8_outcome(mid, mid.dar[reg], shift);
                &&& r == Ok::<Cycles, Exception>(Cycles((6 + 2 * shift) as i32))
                &&& reg_set(o.0, c1, reg, merged(mid.dar[reg], o.1, 8))
            },
        }
}

/// ROXL of Dy by an immediate count; two more cycles per bit.
pub fn roxl_8_s(core: &mut ConfiguredCore) -> (r: Result<Cycles>)
    requires
        old(core).wf(),
    ensures
        final(core).wf(),
        roxl_8_s_effect(*old(core), *final(core), r),
{
    let ghost c0 = *core;
    let src = operator::quick(core);
    let ghost mid = *core;
    assert(operator::quick_rel(c0, mid, src));
    match src {
        Err(e) => Err(e),
        Ok(v) => {
            let shift = shift_count(v);
            let reg = reg_dy(core.ir);
            let dst = core.dar[reg];
            let res = common::roxl_8(core, dst, shift);
            set_reg(core, reg, merge(dst, res, 8));
            Ok(Cycles(6 + 2 * (shift as i32)))
        },
    }
}

/// What `roxl_16_s` does: the core goes from `c0` to `c1` and `r` comes back.
pub open spec fn roxl_16_s_effect(c0: ConfiguredCore, c1: ConfiguredCore, r: Result<Cycles>) -> bool {
    exists|mid: ConfiguredCore, src: Result<u32>|
        #[trigger] operator::quick_rel(c0, mid, src) && match src {
            Err(e) => r == Err::<Cycles, Exception>(e) && c1 == mid,
            Ok(v) => {
                let shift = v & 0x3f;
                let reg = ir_dy(mid.ir);
                let o = common::roxl_16_outcome(mid, mid.dar[reg], shift);
                &&& r == Ok::<Cycles, Exception>(Cycles((6 + 2 * shift) as i32))
                &&& reg_set(o.0, c1, reg, merged(mid.dar[reg], o.1, 16))
            },
        }
}

/// ROXL of Dy by an immediate count; two more cycles per bit.
pub fn roxl_16_s(core: &mut ConfiguredCore) -> (r: Result<Cycles>)
    requires
        old(core).wf(),
    ensures
        final(core).wf(),
        roxl_16_s_effect(*old(core), *final(core), r),
{
    let ghost c0 = *core;
    let src = operator::quick(core);
    let ghost mid = *core;
    assert(operator::quick_rel(c0, mid, src));
    match src {
        Err(e) => Err(e),
        Ok(v) => {
            let shift = shift_count(v);
            let reg = reg_dy(core.ir);
            let dst = core.dar[reg];
            let res = common::roxl_16(core, dst, shift);
            set_reg(core, reg, merge(dst, res, 16));
            Ok(Cycles(6 + 2 * (shift as i32)))
        },
    }
}

/// What `roxl_32_s` does: the core goes from `c0` to `c1` and `r` comes back.
pub open spec fn roxl_32_s_effect(c0: ConfiguredCore, c1: ConfiguredCore, r: Result<Cycles>) -> bool {
    exists|mid: ConfiguredCore, src: Result<u32>|
        #[trigger] operator::quick_rel(c0, mid, src) && match src {
            Err(e) => r == Err::<Cycles, Exception>(e) && c1 == mid,
            Ok(v) => {
                let shift = v & 0x3f;
                let reg = ir_dy(mid.ir);
                let o = common::roxl_32_outcome(mid, mid.dar[reg], shift);
                &&& r == Ok::<Cycles, Exception>(Cycles((8 + 2 * shift) as i32))
                &&& reg_set(o.0, c1, reg, merged(mid.dar[reg], o.1, 32))
            },
        }
}

/// ROXL of Dy by an immediate count; two more cycles per bit.
pub fn roxl_32_s(core: &mut ConfiguredCore) -> (r: Result<Cycles>)
    requires
        old(core).wf(),
    ensures
        final(core).wf(),
        roxl_32_s_effect(*old(core), *final(core), r),
{
    let ghost c0 = *core;
    let src = operator::quick(core);
    let ghost mid = *core;
    assert(operator::quick_rel(c0, mid, src));
    match src {
        Err(e) => Err(e),
        Ok(v) => {
            let shift = shift_count(v);
            let reg = reg_dy(core.ir);
            let dst = core.dar[reg];
            let res = common::roxl_32(core, dst, shift);
            set_reg(core, reg, merge(dst, res, 32));
            Ok(Cycles(8 + 2 * (shift as i32)))
        },
    }
}

/// What `roxl_8_r` does: the core goes from `c0` to `c1` and `r` comes back.
pub open spec fn roxl_8_r_effect(c0: ConfiguredCore, c1: ConfiguredCore, r: Result<Cycles>) -> bool {
    exists|mid: ConfiguredCore, src: Result<u32>|
        #[trigger] operator::dx_rel(c0, mid, src) && match src {
            Err(e) => r == Err::<Cycles, Exception>(e) && c1 == mid,
            Ok(v) => {
                let shift = v & 0x3f;
                let reg = ir_dy(mid.ir);
                let o = common::roxl_8_outcome(mid, mid.dar[reg], shift);
                &&& r == Ok::<Cycles, Exception>(Cycles((6 + 2 * shift) as i32))
                &&& reg_set(o.0, c1, reg, merged(mid.dar[reg], o.1, 8))
            },
        }
}

/// ROXL of Dy by the count in Dx, modulo 64; two more cycles per bit.
pub fn roxl_8_r(core: &mut ConfiguredCore) -> (r: Result<Cycles>)
    requires
        old(core).wf(),
    ensures
        final(core).wf(),
        roxl_8_r_effect(*old(core), *final(core), r),
{
    let ghost c0 = *core;
    let src = operator::dx(core);
    let ghost mid = *core;
    assert(operator::dx_rel(c0, mid, src));
    match src {
        Err(e) => Err(e),
        Ok(v) => {
            let shift = shift_count(v);
            let reg = reg_dy(core.ir);
            let dst = core.dar[reg];
            let res = common::roxl_8(core, dst, shift);
            set_reg(core, reg, merge(dst, res, 8));
            Ok(Cycles(6 + 2 * (shift as i32)))
        },
    }
}

/// What `roxl_16_r` does: the core goes from `c0` to `c1` and `r` comes back.
pub open spec fn roxl_16_r_effect(c0: ConfiguredCore, c1: ConfiguredCore, r: Result<Cycles>) -> bool {
    exists|mid: ConfiguredCore, src: Result<u32>|
        #[trigger] operator::dx_rel(c0, mid, src) && match src {
            Err(e) => r == Err::<Cycles, Exception>(e) && c1 == mid,
            Ok(v) => {
                let shift = v & 0x3f;
                let reg = ir_dy(mid.ir);
                let o = common::roxl_16_outcome(mid, mid.dar[reg], shift);
                &&& r == Ok::<Cycles, Exception>(Cycles((6 + 2 * shift) as i32))
                &&& reg_set(o.0, c1, reg, merged(mid.dar[reg], o.1, 16))
            },
        }
}

/// ROXL of Dy by the count in Dx, modulo 64; two more cycles per bit.
pub fn roxl_16_r(core: &mut ConfiguredCore) -> (r: Result<Cycles>)
    requires
        old(core).wf(),
    ensures
        final(core).wf(),
        roxl_16_r_effect(*old(core), *final(core), r),
{
    let ghost c0 = *core;
    let src = operator::dx(core);
    let ghost mid = *core;
    assert(operator::dx_rel(c0, mid, src));
    match src {
        Err(e) => Err(e),
        Ok(v) => {
            let shift = shift_count(v);
            let reg = reg_dy(core.ir);
            let dst = core.dar[reg];
            let res = common::roxl_16(core, dst, shift);
            set_reg(core, reg, merge(dst, res, 16));
            Ok(Cycles(6 + 2 * (shift as i32)))
        },
    }
}

/// What `roxl_32_r` does: the core goes from `c0` to `c1` and `r` comes back.
pub open spec fn roxl_32_r_effect(c0: ConfiguredCore, c1: ConfiguredCore, r: Result<Cycles>) -> bool {
    exists|mid: ConfiguredCore, src: Result<u32>|
        #[trigger] operator::dx_rel(c0, mid, src) && match src {
            Err(e) => r == Err::<Cycles, Exception>(e) && c1 == mid,
            Ok(v) => {
                let shift = v & 0x3f;
                let reg = ir_dy(mid.ir);
                let o = common::roxl_32_outcome(mid, mid.dar[reg], shift);
                &&& r == Ok::<Cycles, Exception>(Cycles((8 + 2 * shift) as i32))
                &&& reg_set(o.0, c1, reg, merged(mid.dar[reg], o.1, 32))
            },
        }
}

/// ROXL of Dy by the count in Dx, modulo 64; two more cycles per bit.
pub fn roxl_32_r(core: &mut ConfiguredCore) -> (r: Result<Cycles>)
    requires
        old(core).wf(),
    ensures
        final(core).wf(),
        roxl_32_r_effect(*old(core), *final(core), r),
{
    let ghost c0 = *core;
    let src = operator::dx(core);
    let ghost mid = *core;
    assert(operator::dx_rel(c0, mid, src));
    match src {
        Err(e) => Err(e),
        Ok(v) => {
            let shift = shift_count(v);
            let reg = reg_dy(core.ir);
            let dst = core.dar[reg];
            let res = common::roxl_32(core, dst, shift);
            set_reg(core, reg, merge(dst, res, 32));
            Ok(Cycles(8 + 2 * (shift as i32)))
        },
    }
}

/// What `roxl_16_ai` does: the core goes from `c0` to `c1` and `r` comes back.
pub open spec fn roxl_16_ai_effect(c0: ConfiguredCore, c1: ConfiguredCore, r: Result<Cycles>) -> bool {
    exists|m1: ConfiguredCore, d: Result<(u32, u32)>|
        #[trigger] operator::ea_ay_ai_16_rel(c0, m1, d) && match d {
            Err(e) => r == Err::<Cycles, Exception>(e) && c1 == m1,
            Ok((dv, ea)) => {
                let o = common::roxl_16_outcome(m1, dv, 1);
                stored(o.0, c1, 16, ea, merged(dv, o.1, 16), r, 12)
            },
        }
}

/// ROXL of a word in memory by one bit.
pub fn roxl_16_ai(core: &mut ConfiguredCore) -> (r: Result<Cycles>)
    requires
        old(core).wf(),
    ensures
        final(core).wf(),
        roxl_16_ai_effect(*old(core), *final(core), r),
{
    let ghost c0 = *core;
    let d = operator::ea_ay_ai_16(core);
    let ghost m1 = *core;
    assert(operator::ea_ay_ai_16_rel(c0, m1, d));
    let (dv, ea) = match d {
        Err(e) => {
            return Err(e);
        },
        Ok(p) => p,
    };
    let res = common::roxl_16(core, dv, 1);
    store(core, 16, ea, merge(dv, res, 16), 12)
}

/// What `roxl_16_pi` does: the core goes from `c0` to `c1` and `r` comes back.
pub open spec fn roxl_16_pi_effect(c0: ConfiguredCore, c1: ConfiguredCore, r: Result<Cycles>) -> bool {
    exists|m1: ConfiguredCore, d: Result<(u32, u32)>|
        #[trigger] operator::ea_ay_pi_16_rel(c0, m1, d) && match d {
            Err(e) => r == Err::<Cycles, Exception>(e) && c1 == m1,
            Ok((dv, ea)) => {
                let o = common::roxl_16_outcome(m1, dv, 1);
                stored(o.0, c1, 16, ea, merged(dv, o.1, 16), r, 12)
            },
        }
}

/// ROXL of a word in memory by one bit.
pub fn roxl_16_pi(core: &mut ConfiguredCore) -> (r: Result<Cycles>)
    requires
        old(core).wf(),
    ensures
        final(core).wf(),
        roxl_16_pi_effect(*old(core), *final(core), r),
{
    let ghost c0 = *core;
    let d = operator::ea_ay_pi_16(core);
    let ghost m1 = *core;
    assert(operator::ea_ay_pi_16_rel(c0, m1, d));
    let (dv, ea) = match d {
        Err(e) => {
            return Err(e);
        },
        Ok(p) => p,
    };
    let res = common::roxl_16(core, dv, 1);
    store(core, 16, ea, merge(dv, res, 16), 12)
}

/// What `roxl_16_pd` does: the core goes from `c0` to `c1` and `r` comes back.
pub open spec fn roxl_16_pd_effect(c0: ConfiguredCore, c1: ConfiguredCore, r: Result<Cycles>) -> bool {
    exists|m1: ConfiguredCore, d: Result<(u32, u32)>|
        #[trigger] operator::ea_ay_pd_16_rel(c0, m1, d) && match d {
            Err(e) => r == Err::<Cycles, Exception>(e) && c1 == m1,
            Ok((dv, ea)) => {
                let o = common::roxl_16_outcome(m1, dv, 1);
                stored(o.0, c1, 16, ea, merged(dv, o.1, 16), r, 14)
            },
        }
}

/// ROXL of a word in memory by one bit.
pub fn roxl_16_pd(core: &mut ConfiguredCore) -> (r: Result<Cycles>)
    requires
        old(core).wf(),
    ensures
        final(core).wf(),
        roxl_16_pd_effect(*old(core), *final(core), r),
{
    let ghost c0 = *core;
    let d = operator::ea_ay_pd_16(core);
    let ghost m1 = *core;
    assert(operator::ea_ay_pd_16_rel(c0, m1, d));
    let (dv, ea) = match d {
        Err(e) => {
            return Err(e);
        },
        Ok(p) => p,
    };
    let res = common::roxl_16(core, dv, 1);
    store(core, 16, ea, merge(dv, res, 16), 14)
}

/// What `roxl_16_di` does: the core goes from `c0` to `c1` and `r` comes back.
pub open spec fn roxl_16_di_effect(c0: ConfiguredCore, c1: ConfiguredCore, r: Result<Cycles>) -> bool {
    exists|m1: ConfiguredCore, d: Result<(u32, u32)>|
        #[trigger] operator::ea_ay_di_16_rel(c0, m1, d) && match d {
            Err(e) => r == Err::<Cycles, Exception>(e) && c1 == m1,
            Ok((dv, ea)) => {
                let o = common::roxl_16_outcome(m1, dv, 1);
                stored(o.0, c1, 16, ea, merged(dv, o.1, 16), r, 16)
            },
        }
}

/// ROXL of a word in memory by one bit.
pub fn roxl_16_di(core: &mut ConfiguredCore) -> (r: Result<Cycles>)
    requires
        old(core).wf(),
    ensures
        final(core).wf(),
        roxl_16_di_effect(*old(core), *final(core), r),
{
    let ghost c0 = *core;
    let d = operator::ea_ay_di_16(core);
    let ghost m1 = *core;
    assert(operator::ea_ay_di_16_rel(c0, m1, d));
    let (dv, ea) = match d {
        Err(e) => {
            return Err(e);
        },
        Ok(p) => p,
    };
    let res = common::roxl_16(core, dv, 1);
    store(core, 16, ea, merge(dv, res, 16), 16)
}

/// What `roxl_16_ix` does: the core goes from `c0` to `c1` and `r` comes back.
pub open spec fn roxl_16_ix_effect(c0: ConfiguredCore, c1: ConfiguredCore, r: Result<Cycles>) -> bool {
    exists|m1: ConfiguredCore, d: Result<(u32, u32)>|
        #[trigger] operator::ea_ay_ix_16_rel(c0, m1, d) && match d {
            Err(e) => r == Err::<Cycles, Exception>(e) && c1 == m1,
            Ok((dv, ea)) => {
                let o = common::roxl_16_outcome(m1, dv, 1);
                stored(o.0, c1, 16, ea, merged(dv, o.1, 16), r, 18)
            },
        }
}

/// ROXL of a word in memory by one bit.
pub fn roxl_16_ix(core: &mut ConfiguredCore) -> (r: Result<Cycles>)
    requires
        old(core).wf(),
    ensures
        final(core).wf(),
        roxl_16_ix_effect(*old(core), *final(core), r),
{
    let ghost c0 = *core;
    let d = operator::ea_ay_ix_16(core);
    let ghost m1 = *core;
    assert(operator::ea_ay_ix_16_rel(c0, m1, d));
    let (dv, ea) = match d {
        Err(e) => {
            return Err(e);
        },
        Ok(p) => p,
    };
    let res = common::roxl_16(core, dv, 1);
    store(core, 16, ea, merge(dv, res, 16), 18)
}

/// What `roxl_16_aw` does: the core goes from `c0` to `c1` and `r` comes back.
pub open spec fn roxl_16_aw_effect(c0: ConfiguredCore, c1: ConfiguredCore, r: Result<Cycles>) -> bool {
    exists|m1: ConfiguredCore, d: Result<(u32, u32)>|
        #[trigger] operator::ea_aw_16_rel(c0, m1, d) && match d {
            Err(e) => r == Err::<Cycles, Exception>(e) && c1 == m1,
            Ok((dv, ea)) => {
                let o = common::roxl_16_outcome(m1, dv, 1);
                stored(o.0, c1, 16, ea, merged(dv, o.1, 16), r, 16)
            },
        }
}

/// ROXL of a word in memory by one bit.
pub fn roxl_16_aw(core: &mut ConfiguredCore) -> (r: Result<Cycles>)
    requires
        old(core).wf(),
    ensures
        final(core).wf(),
        roxl_16_aw_effect(*old(core), *final(core), r),
{
    let ghost c0 = *core;
    let d = operator::ea_aw_16(core);
    let ghost m1 = *core;
    assert(operator::ea_aw_16_rel(c0, m1, d));
    let (dv, ea) = match d {
        Err(e) => {
            return Err(e);
        },
        Ok(p) => p,
    };
    let res = common::roxl_16(core, dv, 1);
    store(core, 16, ea, merge(dv, res, 16), 16)
}

/// What `roxl_16_al` does: the core goes from `c0` to `c1` and `r` comes back.
pub open spec fn roxl_16_al_effect(c0: ConfiguredCore, c1: ConfiguredCore, r: Result<Cycles>) -> bool {
    exists|m1: ConfiguredCore, d: Result<(u32, u32)>|
        #[trigger] operator::ea_al_16_rel(c0, m1, d) && match d {
            Err(e) => r == Err::<Cycles, Exception>(e) && c1 == m1,
            Ok((dv, ea)) => {
                let o = common::roxl_16_outcome(m1, dv, 1);
                stored(o.0, c1, 16, ea, merged(dv, o.1, 16), r, 20)
            },
        }
}

/// ROXL of a word in memory by one bit.
pub fn roxl_16_al(core: &mut ConfiguredCore) -> (r: Result<Cycles>)
    requires
        old(core).wf(),
    ensures
        final(core).wf(),
        roxl_16_al_effect(*old(core), *final(core), r),
{
    let ghost c0 = *core;
    let d = operator::ea_al_16(core);
    let ghost m1 = *core;
    assert(operator::ea_al_16_rel(c0, m1, d));
    let (dv, ea) = match d {
        Err(e) => {
            return Err(e);
        },
        Ok(p) => p,
    };
    let res = common::roxl_16(core, dv, 1);
    store(core, 16, ea, merge(dv, res, 16), 20)
}

/// What `roxr_16_ai` does: the core goes from `c0` to `c1` and `r` comes back.
pub open spec fn roxr_16_ai_effect(c0: ConfiguredCore, c1: ConfiguredCore, r: Result<Cycles>) -> bool {
    exists|m1: ConfiguredCore, d: Result<(u32, u32)>|
        #[trigger] operator::ea_ay_ai_16_rel(c0, m1, d) && match d {
            Err(e) => r == Err::<Cycles, Exception>(e) && c1 == m1,
            Ok((dv, ea)) => {
                let o = common::roxr_16_outcome(m1, dv, 1);
                stored(o.0, c1, 16, ea, merged(dv, o.1, 16), r, 12)
            },
        }
}

/// ROXR of a word in memory by one bit.
pub fn roxr_16_ai(core: &mut ConfiguredCore) -> (r: Result<Cycles>)
    requires
        old(core).wf(),
    ensures
        final(core).wf(),
        roxr_16_ai_effect(*old(core), *final(core), r),
{
    let ghost c0 = *core;
    let d = operator::ea_ay_ai_16(core);
    let ghost m1 = *core;
    assert(operator::ea_ay_ai_16_rel(c0, m1, d));
    let (dv, ea) = match d {
        Err(e) => {
            return Err(e);
        },
        Ok(p) => p,
    };
    let res = common::roxr_16(core, dv, 1);
    store(core, 16, ea, merge(dv, res, 16), 12)
}

/// What `roxr_16_pi` does: the core goes from `c0` to `c1` and `r` comes back.
pub open spec fn roxr_16_pi_effect(c0: ConfiguredCore, c1: ConfiguredCore, r: Result<Cycles>) -> bool {
    exists|m1: ConfiguredCore, d: Result<(u32, u32)>|
        #[trigger] operator::ea_ay_pi_16_rel(c0, m1, d) && match d {
            Err(e) => r == Err::<Cycles, Exception>(e) && c1 == m1,
            Ok((dv, ea)) => {
                let o = common::roxr_16_outcome(m1, dv, 1);
                stored(o.0, c1, 16, ea, merged(dv, o.1, 16), r, 12)
            },
        }
}

/// ROXR of a word in memory by one bit.
pub fn roxr_16_pi(core: &mut ConfiguredCore) -> (r: Result<Cycles>)
    requires
        old(core).wf(),
    ensures
        final(core).wf(),
        roxr_16_pi_effect(*old(core), *final(core), r),
{
    let ghost c0 = *core;
    let d = operator::ea_ay_pi_16(core);
    let ghost m1 = *core;
    assert(operator::ea_ay_pi_16_rel(c0, m1, d));
    let (dv, ea) = match d {
        Err(e) => {
            return Err(e);
        },
        Ok(p) => p,
    };
    let res = common::roxr_16(core, dv, 1);
    store(core, 16, ea, merge(dv, res, 16), 12)
}

/// What `roxr_16_pd` does: the core goes from `c0` to `c1` and `r` comes back.
pub open spec fn roxr_16_pd_effect(c0: ConfiguredCore, c1: ConfiguredCore, r: Result<Cycles>) -> bool {
    exists|m1: ConfiguredCore, d: Result<(u32, u32)>|
        #[trigger] operator::ea_ay_pd_16_rel(c0, m1, d) && match d {
            Err(e) => r == Err::<Cycles, Exception>(e) && c1 == m1,
            Ok((dv, ea)) => {
                let o = common::roxr_16_outcome(m1, dv, 1);
                stored(o.0, c1, 16, ea, merged(dv, o.1, 16), r, 14)
            },
        }
}

/// ROXR of a word in memory by one bit.
pub fn roxr_16_pd(core: &mut ConfiguredCore) -> (r: Result<Cycles>)
    requires
        old(core).wf(),
    ensures
        final(core).wf(),
        roxr_16_pd_effect(*old(core), *final(core), r),
{
    let ghost c0 = *core;
    let d = operator::ea_ay_pd_16(core);
    let ghost m1 = *core;
    assert(operator::ea_ay_pd_16_rel(c0, m1, d));
    let (dv, ea) = match d {
        Err(e) => {
            return Err(e);
        },
        Ok(p) => p,
    };
    let res = common::roxr_16(core, dv, 1);
    store(core, 16, ea, merge(dv, res, 16), 14)
}

/// What `roxr_16_di` does: the core goes from `c0` to `c1` and `r` comes back.
pub open spec fn roxr_16_di_effect(c0: ConfiguredCore, c1: ConfiguredCore, r: Result<Cycles>) -> bool {
    exists|m1: ConfiguredCore, d: Result<(u32, u32)>|
        #[trigger] operator::ea_ay_di_16_rel(c0, m1, d) && match d {
            Err(e) => r == Err::<Cycles, Exception>(e) && c1 == m1,
            Ok((dv, ea)) => {
                let o = common::roxr_16_outcome(m1, dv, 1);
                stored(o.0, c1, 16, ea, merged(dv, o.1, 16), r, 16)
            },
        }
}

/// ROXR of a word in memory by one bit.
pub fn roxr_16_di(core: &mut ConfiguredCore) -> (r: Result<Cycles>)
    requires
        old(core).wf(),
    ensures
        final(core).wf(),
        roxr_16_di_effect(*old(core), *final(core), r),
{
    let ghost c0 = *core;
    let d = operator::ea_ay_di_16(core);
    let ghost m1 = *core;
    assert(operator::ea_ay_di_16_rel(c0, m1, d));
    let (dv, ea) = match d {
        Err(e) => {
            return Err(e);
        },
        Ok(p) => p,
    };
    let res = common::roxr_16(core, dv, 1);
    store(core, 16, ea, merge(dv, res, 16), 16)
}

/// What `roxr_16_ix` does: the core goes from `c0` to `c1` and `r` comes back.
pub open spec fn roxr_16_ix_effect(c0: ConfiguredCore, c1: ConfiguredCore, r: Result<Cycles>) -> bool {
    exists|m1: ConfiguredCore, d: Result<(u32, u32)>|
        #[trigger] operator::ea_ay_ix_16_rel(c0, m1, d) && match d {
            Err(e) => r == Err::<Cycles, Exception>(e) && c1 == m1,
            Ok((dv, ea)) => {
                let o = common::roxr_16_outcome(m1, dv, 1);
                stored(o.0, c1, 16, ea, merged(dv, o.1, 16), r, 18)
            },
        }
}

/// ROXR of a word in memory by one bit.
pub fn roxr_16_ix(core: &mut ConfiguredCore) -> (r: Result<Cycles>)
    requires
        old(core).wf(),
    ensures
        final(core).wf(),
        roxr_16_ix_effect(*old(core), *final(core), r),
{
    let ghost c0 = *core;
    let d = operator::ea_ay_ix_16(core);
    let ghost m1 = *core;
    assert(operator::ea_ay_ix_16_rel(c0, m1, d));
    let (dv, ea) = match d {
        Err(e) => {
            return Err(e);
        },
        Ok(p) => p,
    };
    let res = common::roxr_16(core, dv, 1);
    store(core, 16, ea, merge(dv, res, 16), 18)
}

/// What `roxr_16_aw` does: the core goes from `c0` to `c1` and `r` comes back.
pub open spec fn roxr_16_aw_effect(c0: ConfiguredCore, c1: ConfiguredCore, r: Result<Cycles>) -> bool {
    exists|m1: ConfiguredCore, d: Result<(u32, u32)>|
        #[trigger] operator::ea_aw_16_rel(c0, m1, d) && match d {
            Err(e) => r == Err::<Cycles, Exception>(e) && c1 == m1,
            Ok((dv, ea)) => {
                let o = common::roxr_16_outcome(m1, dv, 1);
                stored(o.0, c1, 16, ea, merged(dv, o.1, 16), r, 16)
            },
        }
}

/// ROXR of a word in memory by one bit.
pub fn roxr_16_aw(core: &mut ConfiguredCore) -> (r: Result<Cycles>)
    requires
        old(core).wf(),
    ensures
        final(core).wf(),
        roxr_16_aw_effect(*old(core), *final(core), r),
{
    let ghost c0 = *core;
    let d = operator::ea_aw_16(core);
    let ghost m1 = *core;
    assert(operator::ea_aw_16_rel(c0, m1, d));
    let (dv, ea) = match d {
        Err(e) => {
            return Err(e);
        },
        Ok(p) => p,
    };
    let res = common::roxr_16(core, dv, 1);
    store(core, 16, ea, merge(dv, res, 16), 16)
}

/// What `roxr_16_al` does: the core goes from `c0` to `c1` and `r` comes back.
pub open spec fn roxr_16_al_effect(c0: ConfiguredCore, c1: ConfiguredCore, r: Result<Cycles>) -> bool {
    exists|m1: ConfiguredCore, d: Result<(u32, u32)>|
        #[trigger] operator::ea_al_16_rel(c0, m1, d) && match d {
            Err(e) => r == Err::<Cycles, Exception>(e) && c1 == m1,
            Ok((dv, ea)) => {
                let o = common::roxr_16_outcome(m1, dv, 1);
                stored(o.0, c1, 16, ea, merged(dv, o.1, 16), r, 20)
            },
        }
}

/// ROXR of a word in memory by one bit.
pub fn roxr_16_al(core: &mut ConfiguredCore) -> (r: Result<Cycles>)
    requires
        old(core).wf(),
    ensures
        final(core).wf(),
        roxr_16_al_effect(*old(core), *final(core), r),
{
    let ghost c0 = *core;
    let d = operator::ea_al_16(core);
    let ghost m1 = *core;
    assert(operator::ea_al_16_rel(c0, m1, d));
    let (dv, ea) = match d {
        Err(e) => {
            return Err(e);
        },
        Ok(p) => p,
    };
    let res = common::roxr_16(core, dv, 1);
    store(core, 16, ea, merge(dv, res, 16), 20)
}

/// The shifts and rotations, of a register or of a word in memory.
#[derive(Clone, Copy, Debug, PartialEq, Eq, Structural)]
pub enum ShiftOp {
    Asr8S,
    Asr16S,
    Asr32S,
    Asr8R,
    Asr16R,
    Asr32R,
    Asl8S,
    Asl16S,
    Asl32S,
    Asl8R,
    Asl16R,
    Asl32R,
    Asl16Ai,
    Asl16Pi,
    Asl16Pd,
    Asl16Di,
    Asl16Ix,
    Asl16Aw,
    Asl16Al,
    Asr16Ai,
    Asr16Pi,
    Asr16Pd,
    Asr16Di,
    Asr16Ix,
    Asr16Aw,
    Asr16Al,
    Lsr8S,
    Lsr16S,
    Lsr32S,
    Lsr8R,
    Lsr16R,
    Lsr32R,
    Lsl8S,
    Lsl16S,
    Lsl32S,
    Lsl8R,
    Lsl16R,
    Lsl32R,
    Lsl16Ai,
    Lsl16Pi,
    Lsl16Pd,
    Lsl16Di,
    Lsl16Ix,
    Lsl16Aw,
    Lsl16Al,
    Lsr16Ai,
    Lsr16Pi,
    Lsr16Pd,
    Lsr16Di,
    Lsr16Ix,
    Lsr16Aw,
    Lsr16Al,
    Ror8S,
    Ror16S,
    Ror32S,
    Ror8R,
    Ror16R,
    Ror32R,
    Rol8S,
    Rol16S,
    Rol32S,
    Rol8R,
    Rol16R,
    Rol32R,
    Rol16Ai,
    Rol16Pi,
    Rol16Pd,
    Rol16Di,
    Rol16Ix,
    Rol16Aw,
    Rol16Al,
    Ror16Ai,
    Ror16Pi,
    Ror16Pd,
    Ror16Di,
    Ror16Ix,
    Ror16Aw,
    Ror16Al,
    Roxr8S,
    Roxr16S,
    Roxr32S,
    Roxr8R,
    Roxr16R,
    Roxr32R,
    Roxl8S,
    Roxl16S,
    Roxl32S,
    Roxl8R,
    Roxl16R,
    Roxl32R,
    Roxl16Ai,
    Roxl16Pi,
    Roxl16Pd,
    Roxl16Di,
    Roxl16Ix,
    Roxl16Aw,
    Roxl16Al,
    Roxr16Ai,
    Roxr16Pi,
    Roxr16Pd,
    Roxr16Di,
    Roxr16Ix,
    Roxr16Aw,
    Roxr16Al,
}

/// What the instruction `op` does: the core goes from `c0` to `c1` and `r`
/// comes back.
pub open spec fn effect(op: ShiftOp, c0: ConfiguredCore, c1: ConfiguredCore, r: Result<Cycles>) -> bool {
    match op {
        ShiftOp::Asr8S => asr_8_s_effect(c0, c1, r),
        ShiftOp::Asr16S => asr_16_s_effect(c0, c1, r),
        ShiftOp::Asr32S => asr_32_s_effect(c0, c1, r),
        ShiftOp::Asr8R => asr_8_r_effect(c0, c1, r),
        ShiftOp::Asr16R => asr_16_r_effect(c0, c1, r),
        ShiftOp::Asr32R => asr_32_r_effect(c0, c1, r),
        ShiftOp::Asl8S => asl_8_s_effect(c0, c1, r),
        ShiftOp::Asl16S => asl_16_s_effect(c0, c1, r),
        ShiftOp::Asl32S => asl_32_s_effect(c0, c1, r),
        ShiftOp::Asl8R => asl_8_r_effect(c0, c1, r),
        ShiftOp::Asl16R => asl_16_r_effect(c0, c1, r),
        ShiftOp::Asl32R => asl_32_r_effect(c0, c1, r),
        ShiftOp::Asl16Ai => asl_16_ai_effect(c0, c1, r),
        ShiftOp::Asl16Pi => asl_16_pi_effect(c0, c1, r),
        ShiftOp::Asl16Pd => asl_16_pd_effect(c0, c1, r),
        ShiftOp::Asl16Di => asl_16_di_effect(c0, c1, r),
        ShiftOp::Asl16Ix => asl_16_ix_effect(c0, c1, r),
        ShiftOp::Asl16Aw => asl_16_aw_effect(c0, c1, r),
        ShiftOp::Asl16Al => asl_16_al_effect(c0, c1, r),
        ShiftOp::Asr16Ai => asr_16_ai_effect(c0, c1, r),
        ShiftOp::Asr16Pi => asr_16_pi_effect(c0, c1, r),
        ShiftOp::Asr16Pd => asr_16_pd_effect(c0, c1, r),
        ShiftOp::Asr16Di => asr_16_di_effect(c0, c1, r),
        ShiftOp::Asr16Ix => asr_16_ix_effect(c0, c1, r),
        ShiftOp::Asr16Aw => asr_16_aw_effect(c0, c1, r),
        ShiftOp::Asr16Al => asr_16_al_effect(c0, c1, r),
        ShiftOp::Lsr8S => lsr_8_s_effect(c0, c1, r),
        ShiftOp::Lsr16S => lsr_16_s_effect(c0, c1, r),
        ShiftOp::Lsr32S => lsr_32_s_effect(c0, c1, r),
        ShiftOp::Lsr8R => lsr_8_r_effect(c0, c1, r),
        ShiftOp::Lsr16R => lsr_16_r_effect(c0, c1, r),
        ShiftOp::Lsr32R => lsr_32_r_effect(c0, c1, r),
        ShiftOp::Lsl8S => lsl_8_s_effect(c0, c1, r),
        ShiftOp::Lsl16S => lsl_16_s_effect(c0, c1, r),
        ShiftOp::Lsl32S => lsl_32_s_effect(c0, c1, r),
        ShiftOp::Lsl8R => lsl_8_r_effect(c0, c1, r),
        ShiftOp::Lsl16R => lsl_16_r_effect(c0, c1, r),
        ShiftOp::Lsl32R => lsl_32_r_effect(c0, c1, r),
        ShiftOp::Lsl16Ai => lsl_16_ai_effect(c0, c1, r),
        ShiftOp::Lsl16Pi => lsl_16_pi_effect(c0, c1, r),
        ShiftOp::Lsl16Pd => lsl_16_pd_effect(c0, c1, r),
        ShiftOp::Lsl16Di => lsl_16_di_effect(c0, c1, r),
        ShiftOp::Lsl16Ix => lsl_16_ix_effect(c0, c1, r),
        ShiftOp::Lsl16Aw => lsl_16_aw_effect(c0, c1, r),
        ShiftOp::Lsl16Al => lsl_16_al_effect(c0, c1, r),
        ShiftOp::Lsr16Ai => lsr_16_ai_effect(c0, c1, r),
        ShiftOp::Lsr16Pi => lsr_16_pi_effect(c0, c1, r),
        ShiftOp::Lsr16Pd => lsr_16_pd_effect(c0, c1, r),
        ShiftOp::Lsr16Di => lsr_16_di_effect(c0, c1, r),
        ShiftOp::Lsr16Ix => lsr_16_ix_effect(c0, c1, r),
        ShiftOp::Lsr16Aw => lsr_16_aw_effect(c0, c1, r),
        ShiftOp::Lsr16Al => lsr_16_al_effect(c0, c1, r),
        ShiftOp::Ror8S => ror_8_s_effect(c0, c1, r),
        ShiftOp::Ror16S => ror_16_s_effect(c0, c1, r),
        ShiftOp::Ror32S => ror_32_s_effect(c0, c1, r),
        ShiftOp::Ror8R => ror_8_r_effect(c0, c1, r),
        ShiftOp::Ror16R => ror_16_r_effect(c0, c1, r),
        ShiftOp::Ror32R => ror_32_r_effect(c0, c1, r),
        ShiftOp::Rol8S => rol_8_s_effect(c0, c1, r),
        ShiftOp::Rol16S => rol_16_s_effect(c0, c1, r),
        ShiftOp::Rol32S => rol_32_s_effect(c0, c1, r),
        ShiftOp::Rol8R => rol_8_r_effect(c0, c1, r),
        ShiftOp::Rol16R => rol_16_r_effect(c0, c1, r),
        ShiftOp::Rol32R => rol_32_r_effect(c0, c1, r),
        ShiftOp::Rol16Ai => rol_16_ai_effect(c0, c1, r),
        ShiftOp::Rol16Pi => rol_16_pi_effect(c0, c1, r),
        ShiftOp::Rol16Pd => rol_16_pd_effect(c0, c1, r),
        ShiftOp::Rol16Di => rol_16_di_effect(c0, c1, r),
        ShiftOp::Rol16Ix => rol_16_ix_effect(c0, c1, r),
        ShiftOp::Rol16Aw => rol_16_aw_effect(c0, c1, r),
        ShiftOp::Rol16Al => rol_16_al_effect(c0, c1, r),
        ShiftOp::Ror16Ai => ror_16_ai_effect(c0, c1, r),
        ShiftOp::Ror16Pi => ror_16_pi_effect(c0, c1, r),
        ShiftOp::Ror16Pd => ror_16_pd_effect(c0, c1, r),
        ShiftOp::Ror16Di => ror_16_di_effect(c0, c1, r),
        ShiftOp::Ror16Ix => ror_16_ix_effect(c0, c1, r),
        ShiftOp::Ror16Aw => ror_16_aw_effect(c0, c1, r),
        ShiftOp::Ror16Al => ror_16_al_effect(c0, c1, r),
        ShiftOp::Roxr8S => roxr_8_s_effect(c0, c1, r),
        ShiftOp::Roxr16S => roxr_16_s_effect(c0, c1, r),
        ShiftOp::Roxr32S => roxr_32_s_effect(c0, c1, r),
        ShiftOp::Roxr8R => roxr_8_r_effect(c0, c1, r),
        ShiftOp::Roxr16R => roxr_16_r_effect(c0, c1, r),
        ShiftOp::Roxr32R => roxr_32_r_effect(c0, c1, r),
        ShiftOp::Roxl8S => roxl_8_s_effect(c0, c1, r),
        ShiftOp::Roxl16S => roxl_16_s_effect(c0, c1, r),
        ShiftOp::Roxl32S => roxl_32_s_effect(c0, c1, r),
        ShiftOp::Roxl8R => roxl_8_r_effect(c0, c1, r),
        ShiftOp::Roxl16R => roxl_16_r_effect(c0, c1, r),
        ShiftOp::Roxl32R => roxl_32_r_effect(c0, c1, r),
        ShiftOp::Roxl16Ai => roxl_16_ai_effect(c0, c1, r),
        ShiftOp::Roxl16Pi => roxl_16_pi_effect(c0, c1, r),
        ShiftOp::Roxl16Pd => roxl_16_pd_effect(c0, c1, r),
        ShiftOp::Roxl16Di => roxl_16_di_effect(c0, c1, r),
        ShiftOp::Roxl16Ix => roxl_16_ix_effect(c0, c1, r),
        ShiftOp::Roxl16Aw => roxl_16_aw_effect(c0, c1, r),
        ShiftOp::Roxl16Al => roxl_16_al_effect(c0, c1, r),
        ShiftOp::Roxr16Ai => roxr_16_ai_effect(c0, c1, r),
        ShiftOp::Roxr16Pi => roxr_16_pi_effect(c0, c1, r),
        ShiftOp::Roxr16Pd => roxr_16_pd_effect(c0, c1, r),
        ShiftOp::Roxr16Di => roxr_16_di_effect(c0, c1, r),
        ShiftOp::Roxr16Ix => roxr_16_ix_effect(c0, c1, r),
        ShiftOp::Roxr16Aw => roxr_16_aw_effect(c0, c1, r),
        ShiftOp::Roxr16Al => roxr_16_al_effect(c0, c1, r),
    }
}

/// Runs the instruction `op` on the core.
pub fn run(core: &mut ConfiguredCore, op: ShiftOp) -> (r: Result<Cycles>)
    requires
        old(core).wf(),
    ensures
        final(core).wf(),
        effect(op, *old(core), *final(core), r),
{
    match op {
        ShiftOp::Asr8S => asr_8_s(core),
        ShiftOp::Asr16S => asr_16_s(core),
        ShiftOp::Asr32S => asr_32_s(core),
        ShiftOp::Asr8R => asr_8_r(core),
        ShiftOp::Asr16R => asr_16_r(core),
        ShiftOp::Asr32R => asr_32_r(core),
        ShiftOp::Asl8S => asl_8_s(core),
        ShiftOp::Asl16S => asl_16_s(core),
        ShiftOp::Asl32S => asl_32_s(core),
        ShiftOp::Asl8R => asl_8_r(core),
        ShiftOp::Asl16R => asl_16_r(core),
        ShiftOp::Asl32R => asl_32_r(core),
        ShiftOp::Asl16Ai => asl_16_ai(core),
        ShiftOp::Asl16Pi => asl_16_pi(core),
        ShiftOp::Asl16Pd => asl_16_pd(core),
        ShiftOp::Asl16Di => asl_16_di(core),
        ShiftOp::Asl16Ix => asl_16_ix(core),
        ShiftOp::Asl16Aw => asl_16_aw(core),
        ShiftOp::Asl16Al => asl_16_al(core),
        ShiftOp::Asr16Ai => asr_16_ai(core),
        ShiftOp::Asr16Pi => asr_16_pi(core),
        ShiftOp::Asr16Pd => asr_16_pd(core),
        ShiftOp::Asr16Di => asr_16_di(core),
        ShiftOp::Asr16Ix => asr_16_ix(core),
        ShiftOp::Asr16Aw => asr_16_aw(core),
        ShiftOp::Asr16Al => asr_16_al(core),
        ShiftOp::Lsr8S => lsr_8_s(core),
        ShiftOp::Lsr16S => lsr_16_s(core),
        ShiftOp::Lsr32S => lsr_32_s(core),
        ShiftOp::Lsr8R => lsr_8_r(core),
        ShiftOp::Lsr16R => lsr_16_r(core),
        ShiftOp::Lsr32R => lsr_32_r(core),
        ShiftOp::Lsl8S => lsl_8_s(core),
        ShiftOp::Lsl16S => lsl_16_s(core),
        ShiftOp::Lsl32S => lsl_32_s(core),
        ShiftOp::Lsl8R => lsl_8_r(core),
        ShiftOp::Lsl16R => lsl_16_r(core),
        ShiftOp::Lsl32R => lsl_32_r(core),
        ShiftOp::Lsl16Ai => lsl_16_ai(core),
        ShiftOp::Lsl16Pi => lsl_16_pi(core),
        ShiftOp::Lsl16Pd => lsl_16_pd(core),
        ShiftOp::Lsl16Di => lsl_16_di(core),
        ShiftOp::Lsl16Ix => lsl_16_ix(core),
        ShiftOp::Lsl16Aw => lsl_16_aw(core),
        ShiftOp::Lsl16Al => lsl_16_al(core),
        ShiftOp::Lsr16Ai => lsr_16_ai(core),
        ShiftOp::Lsr16Pi => lsr_16_pi(core),
        ShiftOp::Lsr16Pd => lsr_16_pd(core),
        ShiftOp::Lsr16Di => lsr_16_di(core),
        ShiftOp::Lsr16Ix => lsr_16_ix(core),
        ShiftOp::Lsr16Aw => lsr_16_aw(core),
        ShiftOp::Lsr16Al => lsr_16_al(core),
        ShiftOp::Ror8S => ror_8_s(core),
        ShiftOp::Ror16S => ror_16_s(core),
        ShiftOp::Ror32S => ror_32_s(core),
        ShiftOp::Ror8R => ror_8_r(core),
        ShiftOp::Ror16R => ror_16_r(core),
        ShiftOp::Ror32R => ror_32_r(core),
        ShiftOp::Rol8S => rol_8_s(core),
        ShiftOp::Rol16S => rol_16_s(core),
        ShiftOp::Rol32S => rol_32_s(core),
        ShiftOp::Rol8R => rol_8_r(core),
        ShiftOp::Rol16R => rol_16_r(core),
        ShiftOp::Rol32R => rol_32_r(core),
        ShiftOp::Rol16Ai => rol_16_ai(core),
        ShiftOp::Rol16Pi => rol_16_pi(core),
        ShiftOp::Rol16Pd => rol_16_pd(core),
        ShiftOp::Rol16Di => rol_16_di(core),
        ShiftOp::Rol16Ix => rol_16_ix(core),
        ShiftOp::Rol16Aw => rol_16_aw(core),
        ShiftOp::Rol16Al => rol_16_al(core),
        ShiftOp::Ror16Ai => ror_16_ai(core),
        ShiftOp::Ror16Pi => ror_16_pi(core),
        ShiftOp::Ror16Pd => ror_16_pd(core),
        ShiftOp::Ror16Di => ror_16_di(core),
        ShiftOp::Ror16Ix => ror_16_ix(core),
        ShiftOp::Ror16Aw => ror_16_aw(core),
        ShiftOp::Ror16Al => ror_16_al(core),
        ShiftOp::Roxr8S => roxr_8_s(core),
        ShiftOp::Roxr16S => roxr_16_s(core),
        ShiftOp::Roxr32S => roxr_32_s(core),
        ShiftOp::Roxr8R => roxr_8_r(core),
        ShiftOp::Roxr16R => roxr_16_r(core),
        ShiftOp::Roxr32R => roxr_32_r(core),
        ShiftOp::Roxl8S => roxl_8_s(core),
        ShiftOp::Roxl16S => roxl_16_s(core),
        ShiftOp::Roxl32S => roxl_32_s(core),
        ShiftOp::Roxl8R => roxl_8_r(core),
        ShiftOp::Roxl16R => roxl_16_r(core),
        ShiftOp::Roxl32R => roxl_32_r(core),
        ShiftOp::Roxl16Ai => roxl_16_ai(core),
        ShiftOp::Roxl16Pi => roxl_16_pi(core),
        ShiftOp::Roxl16Pd => roxl_16_pd(core),
        ShiftOp::Roxl16Di => roxl_16_di(core),
        ShiftOp::Roxl16Ix => roxl_16_ix(core),
        ShiftOp::Roxl16Aw => roxl_16_aw(core),
        ShiftOp::Roxl16Al => roxl_16_al(core),
        ShiftOp::Roxr16Ai => roxr_16_ai(core),
        ShiftOp::Roxr16Pi => roxr_16_pi(core),
        ShiftOp::Roxr16Pd => roxr_16_pd(core),
        ShiftOp::Roxr16Di => roxr_16_di(core),
        ShiftOp::Roxr16Ix => roxr_16_ix(core),
        ShiftOp::Roxr16Aw => roxr_16_aw(core),
        ShiftOp::Roxr16Al => roxr_16_al(core),
    }
}

} // verus!
