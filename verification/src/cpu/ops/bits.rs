use vstd::prelude::*;
use crate::cpu::{ConfiguredCore, Cycles, Exception, Result, AccessType, data_written, pushed_32, branched, wadd, wsub, ir_dx, ir_dy, ir_ax, ir_ay, reg_dx, reg_dy, reg_ax, reg_ay, condition};
use crate::cpu::effective_address;
use crate::cpu::operator;
use crate::cpu::ops::common;
use crate::cpu::ops::{stored, store, reg_set, merged, merge, set_reg, write_sized, stack_error, stack_fault, sp_odd, privilege_violation, short_offset, long_branch_done};

verus! {

/// The bit that a bit instruction on a byte selects: number `n` modulo 8.
pub open spec fn bit_mask(n: u32) -> u32 {
    1u32 << (n % 8)
}

fn bit_of(n: u32) -> (m: u32)
    ensures
        m == bit_mask(n),
{
    1u32 << (n % 8)
}

/// What `bchg_8_r_ai` does: the core goes from `c0` to `c1` and `r` comes back.
pub open spec fn bchg_8_r_ai_effect(c0: ConfiguredCore, c1: ConfiguredCore, r: Result<Cycles>) -> bool {
    exists|m1: ConfiguredCore, s: Result<u32>|
        #[trigger] operator::dx_rel(c0, m1, s) && match s {
            Err(e) => r == Err::<Cycles, Exception>(e) && c1 == m1,
            Ok(sv) => exists|m2: ConfiguredCore, d: Result<(u32, u32)>|
                #[trigger] operator::ea_ay_ai_8_rel(m1, m2, d) && match d {
                    Err(e) => r == Err::<Cycles, Exception>(e) && c1 == m2,
                    Ok((dv, ea)) => stored(ConfiguredCore { not_z_flag: dv & bit_mask(sv), ..m2 }, c1, 8, ea, dv ^ bit_mask(sv), r, 12),
                },
        }
}

/// BCHG on a byte in memory: Z tells whether the bit, numbered modulo 8, was clear, and the bit is inverted.
pub fn bchg_8_r_ai(core: &mut ConfiguredCore) -> (r: Result<Cycles>)
    requires
        old(core).wf(),
    ensures
        final(core).wf(),
        bchg_8_r_ai_effect(*old(core), *final(core), r),
{
    let ghost c0 = *core;
    let s = operator::dx(core);
    let ghost m1 = *core;
    assert(operator::dx_rel(c0, m1, s));
    let sv = match s {
        Err(e) => {
            return Err(e);
        },
        Ok(v) => v,
    };
    let d = operator::ea_ay_ai_8(core);
    let ghost m2 = *core;
    assert(operator::ea_ay_ai_8_rel(m1, m2, d));
    let (dv, ea) = match d {
        Err(e) => {
            return Err(e);
        },
        Ok(p) => p,
    };
    let mask = bit_of(sv);
    core.not_z_flag = dv & mask;
    store(core, 8, ea, dv ^ mask, 12)
}

/// What `bchg_8_r_pi` does: the core goes from `c0` to `c1` and `r` comes back.
pub open spec fn bchg_8_r_pi_effect(c0: ConfiguredCore, c1: ConfiguredCore, r: Result<Cycles>) -> bool {
    exists|m1: ConfiguredCore, s: Result<u32>|
        #[trigger] operator::dx_rel(c0, m1, s) && match s {
            Err(e) => r == Err::<Cycles, Exception>(e) && c1 == m1,
            Ok(sv) => exists|m2: ConfiguredCore, d: Result<(u32, u32)>|
                #[trigger] operator::ea_ay_pi_8_rel(m1, m2, d) && match d {
                    Err(e) => r == Err::<Cycles, Exception>(e) && c1 == m2,
                    Ok((dv, ea)) => stored(ConfiguredCore { not_z_flag: dv & bit_mask(sv), ..m2 }, c1, 8, ea, dv ^ bit_mask(sv), r, 12),
                },
        }
}

/// BCHG on a byte in memory: Z tells whether the bit, numbered modulo 8, was clear, and the bit is inverted.
pub fn bchg_8_r_pi(core: &mut ConfiguredCore) -> (r: Result<Cycles>)
    requires
        old(core).wf(),
    ensures
        final(core).wf(),
        bchg_8_r_pi_effect(*old(core), *final(core), r),
{
    let ghost c0 = *core;
    let s = operator::dx(core);
    let ghost m1 = *core;
    assert(operator::dx_rel(c0, m1, s));
    let sv = match s {
        Err(e) => {
            return Err(e);
        },
        Ok(v) => v,
    };
    let d = operator::ea_ay_pi_8(core);
    let ghost m2 = *core;
    assert(operator::ea_ay_pi_8_rel(m1, m2, d));
    let (dv, ea) = match d {
        Err(e) => {
            return Err(e);
        },
        Ok(p) => p,
    };
    let mask = bit_of(sv);
    core.not_z_flag = dv & mask;
    store(core, 8, ea, dv ^ mask, 12)
}

/// What `bchg_8_r_pd` does: the core goes from `c0` to `c1` and `r` comes back.
pub open spec fn bchg_8_r_pd_effect(c0: ConfiguredCore, c1: ConfiguredCore, r: Result<Cycles>) -> bool {
    exists|m1: ConfiguredCore, s: Result<u32>|
        #[trigger] operator::dx_rel(c0, m1, s) && match s {
            Err(e) => r == Err::<Cycles, Exception>(e) && c1 == m1,
            Ok(sv) => exists|m2: ConfiguredCore, d: Result<(u32, u32)>|
                #[trigger] operator::ea_ay_pd_8_rel(m1, m2, d) && match d {
                    Err(e) => r == Err::<Cycles, Exception>(e) && c1 == m2,
                    Ok((dv, ea)) => stored(ConfiguredCore { not_z_flag: dv & bit_mask(sv), ..m2 }, c1, 8, ea, dv ^ bit_mask(sv), r, 14),
                },
        }
}

/// BCHG on a byte in memory: Z tells whether the bit, numbered modulo 8, was clear, and the bit is inverted.
pub fn bchg_8_r_pd(core: &mut ConfiguredCore) -> (r: Result<Cycles>)
    requires
        old(core).wf(),
    ensures
        final(core).wf(),
        bchg_8_r_pd_effect(*old(core), *final(core), r),
{
    let ghost c0 = *core;
    let s = operator::dx(core);
    let ghost m1 = *core;
    assert(operator::dx_rel(c0, m1, s));
    let sv = match s {
        Err(e) => {
            return Err(e);
        },
        Ok(v) => v,
    };
    let d = operator::ea_ay_pd_8(core);
    let ghost m2 = *core;
    assert(operator::ea_ay_pd_8_rel(m1, m2, d));
    let (dv, ea) = match d {
        Err(e) => {
            return Err(e);
        },
        Ok(p) => p,
    };
    let mask = bit_of(sv);
    core.not_z_flag = dv & mask;
    store(core, 8, ea, dv ^ mask, 14)
}

/// What `bchg_8_r_di` does: the core goes from `c0` to `c1` and `r` comes back.
pub open spec fn bchg_8_r_di_effect(c0: ConfiguredCore, c1: ConfiguredCore, r: Result<Cycles>) -> bool {
    exists|m1: ConfiguredCore, s: Result<u32>|
        #[trigger] operator::dx_rel(c0, m1, s) && match s {
            Err(e) => r == Err::<Cycles, Exception>(e) && c1 == m1,
            Ok(sv) => exists|m2: ConfiguredCore, d: Result<(u32, u32)>|
                #[trigger] operator::ea_ay_di_8_rel(m1, m2, d) && match d {
                    Err(e) => r == Err::<Cycles, Exception>(e) && c1 == m2,
                    Ok((dv, ea)) => stored(ConfiguredCore { not_z_flag: dv & bit_mask(sv), ..m2 }, c1, 8, ea, dv ^ bit_mask(sv), r, 16),
                },
        }
}

/// BCHG on a byte in memory: Z tells whether the bit, numbered modulo 8, was clear, and the bit is inverted.
pub fn bchg_8_r_di(core: &mut ConfiguredCore) -> (r: Result<Cycles>)
    requires
        old(core).wf(),
    ensures
        final(core).wf(),
        bchg_8_r_di_effect(*old(core), *final(core), r),
{
    let ghost c0 = *core;
    let s = operator::dx(core);
    let ghost m1 = *core;
    assert(operator::dx_rel(c0, m1, s));
    let sv = match s {
        Err(e) => {
            return Err(e);
        },
        Ok(v) => v,
    };
    let d = operator::ea_ay_di_8(core);
    let ghost m2 = *core;
    assert(operator::ea_ay_di_8_rel(m1, m2, d));
    let (dv, ea) = match d {
        Err(e) => {
            return Err(e);
        },
        Ok(p) => p,
    };
    let mask = bit_of(sv);
    core.not_z_flag = dv & mask;
    store(core, 8, ea, dv ^ mask, 16)
}

/// What `bchg_8_r_ix` does: the core goes from `c0` to `c1` and `r` comes back.
pub open spec fn bchg_8_r_ix_effect(c0: ConfiguredCore, c1: ConfiguredCore, r: Result<Cycles>) -> bool {
    exists|m1: ConfiguredCore, s: Result<u32>|
        #[trigger] operator::dx_rel(c0, m1, s) && match s {
            Err(e) => r == Err::<Cycles, Exception>(e) && c1 == m1,
            Ok(sv) => exists|m2: ConfiguredCore, d: Result<(u32, u32)>|
                #[trigger] operator::ea_ay_ix_8_rel(m1, m2, d) && match d {
                    Err(e) => r == Err::<Cycles, Exception>(e) && c1 == m2,
                    Ok((dv, ea)) => stored(ConfiguredCore { not_z_flag: dv & bit_mask(sv), ..m2 }, c1, 8, ea, dv ^ bit_mask(sv), r, 18),
                },
        }
}

/// BCHG on a byte in memory: Z tells whether the bit, numbered modulo 8, was clear, and the bit is inverted.
pub fn bchg_8_r_ix(core: &mut ConfiguredCore) -> (r: Result<Cycles>)
    requires
        old(core).wf(),
    ensures
        final(core).wf(),
        bchg_8_r_ix_effect(*old(core), *final(core), r),
{
    let ghost c0 = *core;
    let s = operator::dx(core);
    let ghost m1 = *core;
    assert(operator::dx_rel(c0, m1, s));
    let sv = match s {
        Err(e) => {
            return Err(e);
        },
        Ok(v) => v,
    };
    let d = operator::ea_ay_ix_8(core);
    let ghost m2 = *core;
    assert(operator::ea_ay_ix_8_rel(m1, m2, d));
    let (dv, ea) = match d {
        Err(e) => {
            return Err(e);
        },
        Ok(p) => p,
    };
    let mask = bit_of(sv);
    core.not_z_flag = dv & mask;
    store(core, 8, ea, dv ^ mask, 18)
}

/// What `bchg_8_r_aw` does: the core goes from `c0` to `c1` and `r` comes back.
pub open spec fn bchg_8_r_aw_effect(c0: ConfiguredCore, c1: ConfiguredCore, r: Result<Cycles>) -> bool {
    exists|m1: ConfiguredCore, s: Result<u32>|
        #[trigger] operator::dx_rel(c0, m1, s) && match s {
            Err(e) => r == Err::<Cycles, Exception>(e) && c1 == m1,
            Ok(sv) => exists|m2: ConfiguredCore, d: Result<(u32, u32)>|
                #[trigger] operator::ea_aw_8_rel(m1, m2, d) && match d {
                    Err(e) => r == Err::<Cycles, Exception>(e) && c1 == m2,
                    Ok((dv, ea)) => stored(ConfiguredCore { not_z_flag: dv & bit_mask(sv), ..m2 }, c1, 8, ea, dv ^ bit_mask(sv), r, 16),
                },
        }
}

/// BCHG on a byte in memory: Z tells whether the bit, numbered modulo 8, was clear, and the bit is inverted.
pub fn bchg_8_r_aw(core: &mut ConfiguredCore) -> (r: Result<Cycles>)
    requires
        old(core).wf(),
    ensures
        final(core).wf(),
        bchg_8_r_aw_effect(*old(core), *final(core), r),
{
    let ghost c0 = *core;
    let s = operator::dx(core);
    let ghost m1 = *core;
    assert(operator::dx_rel(c0, m1, s));
    let sv = match s {
        Err(e) => {
            return Err(e);
        },
        Ok(v) => v,
    };
    let d = operator::ea_aw_8(core);
    let ghost m2 = *core;
    assert(operator::ea_aw_8_rel(m1, m2, d));
    let (dv, ea) = match d {
        Err(e) => {
            return Err(e);
        },
        Ok(p) => p,
    };
    let mask = bit_of(sv);
    core.not_z_flag = dv & mask;
    store(core, 8, ea, dv ^ mask, 16)
}

/// What `bchg_8_r_al` does: the core goes from `c0` to `c1` and `r` comes back.
pub open spec fn bchg_8_r_al_effect(c0: ConfiguredCore, c1: ConfiguredCore, r: Result<Cycles>) -> bool {
    exists|m1: ConfiguredCore, s: Result<u32>|
        #[trigger] operator::dx_rel(c0, m1, s) && match s {
            Err(e) => r == Err::<Cycles, Exception>(e) && c1 == m1,
            Ok(sv) => exists|m2: ConfiguredCore, d: Result<(u32, u32)>|
                #[trigger] operator::ea_al_8_rel(m1, m2, d) && match d {
                    Err(e) => r == Err::<Cycles, Exception>(e) && c1 == m2,
                    Ok((dv, ea)) => stored(ConfiguredCore { not_z_flag: dv & bit_mask(sv), ..m2 }, c1, 8, ea, dv ^ bit_mask(sv), r, 20),
                },
        }
}

/// BCHG on a byte in memory: Z tells whether the bit, numbered modulo 8, was clear, and the bit is inverted.
pub fn bchg_8_r_al(core: &mut ConfiguredCore) -> (r: Result<Cycles>)
    requires
        old(core).wf(),
    ensures
        final(core).wf(),
        bchg_8_r_al_effect(*old(core), *final(core), r),
{
    let ghost c0 = *core;
    let s = operator::dx(core);
    let ghost m1 = *core;
    assert(operator::dx_rel(c0, m1, s));
    let sv = match s {
        Err(e) => {
            return Err(e);
        },
        Ok(v) => v,
    };
    let d = operator::ea_al_8(core);
    let ghost m2 = *core;
    assert(operator::ea_al_8_rel(m1, m2, d));
    let (dv, ea) = match d {
        Err(e) => {
            return Err(e);
        },
        Ok(p) => p,
    };
    let mask = bit_of(sv);
    core.not_z_flag = dv & mask;
    store(core, 8, ea, dv ^ mask, 20)
}

/// What `bchg_8_s_ai` does: the core goes from `c0` to `c1` and `r` comes back.
pub open spec fn bchg_8_s_ai_effect(c0: ConfiguredCore, c1: ConfiguredCore, r: Result<Cycles>) -> bool {
    exists|m1: ConfiguredCore, s: Result<u32>|
        #[trigger] operator::imm_8_rel(c0, m1, s) && match s {
            Err(e) => r == Err::<Cycles, Exception>(e) && c1 == m1,
            Ok(sv) => exists|m2: ConfiguredCore, d: Result<(u32, u32)>|
                #[trigger] operator::ea_ay_ai_8_rel(m1, m2, d) && match d {
                    Err(e) => r == Err::<Cycles, Exception>(e) && c1 == m2,
                    Ok((dv, ea)) => stored(ConfiguredCore { not_z_flag: dv & bit_mask(sv), ..m2 }, c1, 8, ea, dv ^ bit_mask(sv), r, 16),
                },
        }
}

/// BCHG on a byte in memory: Z tells whether the bit, numbered modulo 8, was clear, and the bit is inverted.
pub fn bchg_8_s_ai(core: &mut ConfiguredCore) -> (r: Result<Cycles>)
    requires
        old(core).wf(),
    ensures
        final(core).wf(),
        bchg_8_s_ai_effect(*old(core), *final(core), r),
{
    let ghost c0 = *core;
    let s = operator::imm_8(core);
    let ghost m1 = *core;
    assert(operator::imm_8_rel(c0, m1, s));
    let sv = match s {
        Err(e) => {
            return Err(e);
        },
        Ok(v) => v,
    };
    let d = operator::ea_ay_ai_8(core);
    let ghost m2 = *core;
    assert(operator::ea_ay_ai_8_rel(m1, m2, d));
    let (dv, ea) = match d {
        Err(e) => {
            return Err(e);
        },
        Ok(p) => p,
    };
    let mask = bit_of(sv);
    core.not_z_flag = dv & mask;
    store(core, 8, ea, dv ^ mask, 16)
}

/// What `bchg_8_s_pi` does: the core goes from `c0` to `c1` and `r` comes back.
pub open spec fn bchg_8_s_pi_effect(c0: ConfiguredCore, c1: ConfiguredCore, r: Result<Cycles>) -> bool {
    exists|m1: ConfiguredCore, s: Result<u32>|
        #[trigger] operator::imm_8_rel(c0, m1, s) && match s {
            Err(e) => r == Err::<Cycles, Exception>(e) && c1 == m1,
            Ok(sv) => exists|m2: ConfiguredCore, d: Result<(u32, u32)>|
                #[trigger] operator::ea_ay_pi_8_rel(m1, m2, d) && match d {
                    Err(e) => r == Err::<Cycles, Exception>(e) && c1 == m2,
                    Ok((dv, ea)) => stored(ConfiguredCore { not_z_flag: dv & bit_mask(sv), ..m2 }, c1, 8, ea, dv ^ bit_mask(sv), r, 16),
                },
        }
}

/// BCHG on a byte in memory: Z tells whether the bit, numbered modulo 8, was clear, and the bit is inverted.
pub fn bchg_8_s_pi(core: &mut ConfiguredCore) -> (r: Result<Cycles>)
    requires
        old(core).wf(),
    ensures
        final(core).wf(),
        bchg_8_s_pi_effect(*old(core), *final(core), r),
{
    let ghost c0 = *core;
    let s = operator::imm_8(core);
    let ghost m1 = *core;
    assert(operator::imm_8_rel(c0, m1, s));
    let sv = match s {
        Err(e) => {
            return Err(e);
        },
        Ok(v) => v,
    };
    let d = operator::ea_ay_pi_8(core);
    let ghost m2 = *core;
    assert(operator::ea_ay_pi_8_rel(m1, m2, d));
    let (dv, ea) = match d {
        Err(e) => {
            return Err(e);
        },
        Ok(p) => p,
    };
    let mask = bit_of(sv);
    core.not_z_flag = dv & mask;
    store(core, 8, ea, dv ^ mask, 16)
}

/// What `bchg_8_s_pd` does: the core goes from `c0` to `c1` and `r` comes back.
pub open spec fn bchg_8_s_pd_effect(c0: ConfiguredCore, c1: ConfiguredCore, r: Result<Cycles>) -> bool {
    exists|m1: ConfiguredCore, s: Result<u32>|
        #[trigger] operator::imm_8_rel(c0, m1, s) && match s {
            Err(e) => r == Err::<Cycles, Exception>(e) && c1 == m1,
            Ok(sv) => exists|m2: ConfiguredCore, d: Result<(u32, u32)>|
                #[trigger] operator::ea_ay_pd_8_rel(m1, m2, d) && match d {
                    Err(e) => r == Err::<Cycles, Exception>(e) && c1 == m2,
                    Ok((dv, ea)) => stored(ConfiguredCore { not_z_flag: dv & bit_mask(sv), ..m2 }, c1, 8, ea, dv ^ bit_mask(sv), r, 18),
                },
        }
}

/// BCHG on a byte in memory: Z tells whether the bit, numbered modulo 8, was clear, and the bit is inverted.
pub fn bchg_8_s_pd(core: &mut ConfiguredCore) -> (r: Result<Cycles>)
    requires
        old(core).wf(),
    ensures
        final(core).wf(),
        bchg_8_s_pd_effect(*old(core), *final(core), r),
{
    let ghost c0 = *core;
    let s = operator::imm_8(core);
    let ghost m1 = *core;
    assert(operator::imm_8_rel(c0, m1, s));
    let sv = match s {
        Err(e) => {
            return Err(e);
        },
        Ok(v) => v,
    };
    let d = operator::ea_ay_pd_8(core);
    let ghost m2 = *core;
    assert(operator::ea_ay_pd_8_rel(m1, m2, d));
    let (dv, ea) = match d {
        Err(e) => {
            return Err(e);
        },
        Ok(p) => p,
    };
    let mask = bit_of(sv);
    core.not_z_flag = dv & mask;
    store(core, 8, ea, dv ^ mask, 18)
}

/// What `bchg_8_s_di` does: the core goes from `c0` to `c1` and `r` comes back.
pub open spec fn bchg_8_s_di_effect(c0: ConfiguredCore, c1: ConfiguredCore, r: Result<Cycles>) -> bool {
    exists|m1: ConfiguredCore, s: Result<u32>|
        #[trigger] operator::imm_8_rel(c0, m1, s) && match s {
            Err(e) => r == Err::<Cycles, Exception>(e) && c1 == m1,
            Ok(sv) => exists|m2: ConfiguredCore, d: Result<(u32, u32)>|
                #[trigger] operator::ea_ay_di_8_rel(m1, m2, d) && match d {
                    Err(e) => r == Err::<Cycles, Exception>(e) && c1 == m2,
                    Ok((dv, ea)) => stored(ConfiguredCore { not_z_flag: dv & bit_mask(sv), ..m2 }, c1, 8, ea, dv ^ bit_mask(sv), r, 20),
                },
        }
}

/// BCHG on a byte in memory: Z tells whether the bit, numbered modulo 8, was clear, and the bit is inverted.
pub fn bchg_8_s_di(core: &mut ConfiguredCore) -> (r: Result<Cycles>)
    requires
        old(core).wf(),
    ensures
        final(core).wf(),
        bchg_8_s_di_effect(*old(core), *final(core), r),
{
    let ghost c0 = *core;
    let s = operator::imm_8(core);
    let ghost m1 = *core;
    assert(operator::imm_8_rel(c0, m1, s));
    let sv = match s {
        Err(e) => {
            return Err(e);
        },
        Ok(v) => v,
    };
    let d = operator::ea_ay_di_8(core);
    let ghost m2 = *core;
    assert(operator::ea_ay_di_8_rel(m1, m2, d));
    let (dv, ea) = match d {
        Err(e) => {
            return Err(e);
        },
        Ok(p) => p,
    };
    let mask = bit_of(sv);
    core.not_z_flag = dv & mask;
    store(core, 8, ea, dv ^ mask, 20)
}

/// What `bchg_8_s_ix` does: the core goes from `c0` to `c1` and `r` comes back.
pub open spec fn bchg_8_s_ix_effect(c0: ConfiguredCore, c1: ConfiguredCore, r: Result<Cycles>) -> bool {
    exists|m1: ConfiguredCore, s: Result<u32>|
        #[trigger] operator::imm_8_rel(c0, m1, s) && match s {
            Err(e) => r == Err::<Cycles, Exception>(e) && c1 == m1,
            Ok(sv) => exists|m2: ConfiguredCore, d: Result<(u32, u32)>|
                #[trigger] operator::ea_ay_ix_8_rel(m1, m2, d) && match d {
                    Err(e) => r == Err::<Cycles, Exception>(e) && c1 == m2,
                    Ok((dv, ea)) => stored(ConfiguredCore { not_z_flag: dv & bit_mask(sv), ..m2 }, c1, 8, ea, dv ^ bit_mask(sv), r, 22),
                },
        }
}

/// BCHG on a byte in memory: Z tells whether the bit, numbered modulo 8, was clear, and the bit is inverted.
pub fn bchg_8_s_ix(core: &mut ConfiguredCore) -> (r: Result<Cycles>)
    requires
        old(core).wf(),
    ensures
        final(core).wf(),
        bchg_8_s_ix_effect(*old(core), *final(core), r),
{
    let ghost c0 = *core;
    let s = operator::imm_8(core);
    let ghost m1 = *core;
    assert(operator::imm_8_rel(c0, m1, s));
    let sv = match s {
        Err(e) => {
            return Err(e);
        },
        Ok(v) => v,
    };
    let d = operator::ea_ay_ix_8(core);
    let ghost m2 = *core;
    assert(operator::ea_ay_ix_8_rel(m1, m2, d));
    let (dv, ea) = match d {
        Err(e) => {
            return Err(e);
        },
        Ok(p) => p,
    };
    let mask = bit_of(sv);
    core.not_z_flag = dv & mask;
    store(core, 8, ea, dv ^ mask, 22)
}

/// What `bchg_8_s_aw` does: the core goes from `c0` to `c1` and `r` comes back.
pub open spec fn bchg_8_s_aw_effect(c0: ConfiguredCore, c1: ConfiguredCore, r: Result<Cycles>) -> bool {
    exists|m1: ConfiguredCore, s: Result<u32>|
        #[trigger] operator::imm_8_rel(c0, m1, s) && match s {
            Err(e) => r == Err::<Cycles, Exception>(e) && c1 == m1,
            Ok(sv) => exists|m2: ConfiguredCore, d: Result<(u32, u32)>|
                #[trigger] operator::ea_aw_8_rel(m1, m2, d) && match d {
                    Err(e) => r == Err::<Cycles, Exception>(e) && c1 == m2,
                    Ok((dv, ea)) => stored(ConfiguredCore { not_z_flag: dv & bit_mask(sv), ..m2 }, c1, 8, ea, dv ^ bit_mask(sv), r, 20),
                },
        }
}

/// BCHG on a byte in memory: Z tells whether the bit, numbered modulo 8, was clear, and the bit is inverted.
pub fn bchg_8_s_aw(core: &mut ConfiguredCore) -> (r: Result<Cycles>)
    requires
        old(core).wf(),
    ensures
        final(core).wf(),
        bchg_8_s_aw_effect(*old(core), *final(core), r),
{
    let ghost c0 = *core;
    let s = operator::imm_8(core);
    let ghost m1 = *core;
    assert(operator::imm_8_rel(c0, m1, s));
    let sv = match s {
        Err(e) => {
            return Err(e);
        },
        Ok(v) => v,
    };
    let d = operator::ea_aw_8(core);
    let ghost m2 = *core;
    assert(operator::ea_aw_8_rel(m1, m2, d));
    let (dv, ea) = match d {
        Err(e) => {
            return Err(e);
        },
        Ok(p) => p,
    };
    let mask = bit_of(sv);
    core.not_z_flag = dv & mask;
    store(core, 8, ea, dv ^ mask, 20)
}

/// What `bchg_8_s_al` does: the core goes from `c0` to `c1` and `r` comes back.
pub open spec fn bchg_8_s_al_effect(c0: ConfiguredCore, c1: ConfiguredCore, r: Result<Cycles>) -> bool {
    exists|m1: ConfiguredCore, s: Result<u32>|
        #[trigger] operator::imm_8_rel(c0, m1, s) && match s {
            Err(e) => r == Err::<Cycles, Exception>(e) && c1 == m1,
            Ok(sv) => exists|m2: ConfiguredCore, d: Result<(u32, u32)>|
                #[trigger] operator::ea_al_8_rel(m1, m2, d) && match d {
                    Err(e) => r == Err::<Cycles, Exception>(e) && c1 == m2,
                    Ok((dv, ea)) => stored(ConfiguredCore { not_z_flag: dv & bit_mask(sv), ..m2 }, c1, 8, ea, dv ^ bit_mask(sv), r, 24),
                },
        }
}

/// BCHG on a byte in memory: Z tells whether the bit, numbered modulo 8, was clear, and the bit is inverted.
pub fn bchg_8_s_al(core: &mut ConfiguredCore) -> (r: Result<Cycles>)
    requires
        old(core).wf(),
    ensures
        final(core).wf(),
        bchg_8_s_al_effect(*old(core), *final(core), r),
{
    let ghost c0 = *core;
    let s = operator::imm_8(core);
    let ghost m1 = *core;
    assert(operator::imm_8_rel(c0, m1, s));
    let sv = match s {
        Err(e) => {
            return Err(e);
        },
        Ok(v) => v,
    };
    let d = operator::ea_al_8(core);
    let ghost m2 = *core;
    assert(operator::ea_al_8_rel(m1, m2, d));
    let (dv, ea) = match d {
        Err(e) => {
            return Err(e);
        },
        Ok(p) => p,
    };
    let mask = bit_of(sv);
    core.not_z_flag = dv & mask;
    store(core, 8, ea, dv ^ mask, 24)
}

/// What `bclr_8_r_ai` does: the core goes from `c0` to `c1` and `r` comes back.
pub open spec fn bclr_8_r_ai_effect(c0: ConfiguredCore, c1: ConfiguredCore, r: Result<Cycles>) -> bool {
    exists|m1: ConfiguredCore, s: Result<u32>|
        #[trigger] operator::dx_rel(c0, m1, s) && match s {
            Err(e) => r == Err::<Cycles, Exception>(e) && c1 == m1,
            Ok(sv) => exists|m2: ConfiguredCore, d: Result<(u32, u32)>|
                #[trigger] operator::ea_ay_ai_8_rel(m1, m2, d) && match d {
                    Err(e) => r == Err::<Cycles, Exception>(e) && c1 == m2,
                    Ok((dv, ea)) => stored(ConfiguredCore { not_z_flag: dv & bit_mask(sv), ..m2 }, c1, 8, ea, dv & !bit_mask(sv), r, 12),
                },
        }
}

/// BCLR on a byte in memory: Z tells whether the bit, numbered modulo 8, was clear, and the bit is cleared.
pub fn bclr_8_r_ai(core: &mut ConfiguredCore) -> (r: Result<Cycles>)
    requires
        old(core).wf(),
    ensures
        final(core).wf(),
        bclr_8_r_ai_effect(*old(core), *final(core), r),
{
    let ghost c0 = *core;
    let s = operator::dx(core);
    let ghost m1 = *core;
    assert(operator::dx_rel(c0, m1, s));
    let sv = match s {
        Err(e) => {
            return Err(e);
        },
        Ok(v) => v,
    };
    let d = operator::ea_ay_ai_8(core);
    let ghost m2 = *core;
    assert(operator::ea_ay_ai_8_rel(m1, m2, d));
    let (dv, ea) = match d {
        Err(e) => {
            return Err(e);
        },
        Ok(p) => p,
    };
    let mask = bit_of(sv);
    core.not_z_flag = dv & mask;
    store(core, 8, ea, dv & !mask, 12)
}

/// What `bclr_8_r_pi` does: the core goes from `c0` to `c1` and `r` comes back.
pub open spec fn bclr_8_r_pi_effect(c0: ConfiguredCore, c1: ConfiguredCore, r: Result<Cycles>) -> bool {
    exists|m1: ConfiguredCore, s: Result<u32>|
        #[trigger] operator::dx_rel(c0, m1, s) && match s {
            Err(e) => r == Err::<Cycles, Exception>(e) && c1 == m1,
            Ok(sv) => exists|m2: ConfiguredCore, d: Result<(u32, u32)>|
                #[trigger] operator::ea_ay_pi_8_rel(m1, m2, d) && match d {
                    Err(e) => r == Err::<Cycles, Exception>(e) && c1 == m2,
                    Ok((dv, ea)) => stored(ConfiguredCore { not_z_flag: dv & bit_mask(sv), ..m2 }, c1, 8, ea, dv & !bit_mask(sv), r, 12),
                },
        }
}

/// BCLR on a byte in memory: Z tells whether the bit, numbered modulo 8, was clear, and the bit is cleared.
pub fn bclr_8_r_pi(core: &mut ConfiguredCore) -> (r: Result<Cycles>)
    requires
        old(core).wf(),
    ensures
        final(core).wf(),
        bclr_8_r_pi_effect(*old(core), *final(core), r),
{
    let ghost c0 = *core;
    let s = operator::dx(core);
    let ghost m1 = *core;
    assert(operator::dx_rel(c0, m1, s));
    let sv = match s {
        Err(e) => {
            return Err(e);
        },
        Ok(v) => v,
    };
    let d = operator::ea_ay_pi_8(core);
    let ghost m2 = *core;
    assert(operator::ea_ay_pi_8_rel(m1, m2, d));
    let (dv, ea) = match d {
        Err(e) => {
            return Err(e);
        },
        Ok(p) => p,
    };
    let mask = bit_of(sv);
    core.not_z_flag = dv & mask;
    store(core, 8, ea, dv & !mask, 12)
}

/// What `bclr_8_r_pd` does: the core goes from `c0` to `c1` and `r` comes back.
pub open spec fn bclr_8_r_pd_effect(c0: ConfiguredCore, c1: ConfiguredCore, r: Result<Cycles>) -> bool {
    exists|m1: ConfiguredCore, s: Result<u32>|
        #[trigger] operator::dx_rel(c0, m1, s) && match s {
            Err(e) => r == Err::<Cycles, Exception>(e) && c1 == m1,
            Ok(sv) => exists|m2: ConfiguredCore, d: Result<(u32, u32)>|
                #[trigger] operator::ea_ay_pd_8_rel(m1, m2, d) && match d {
                    Err(e) => r == Err::<Cycles, Exception>(e) && c1 == m2,
                    Ok((dv, ea)) => stored(ConfiguredCore { not_z_flag: dv & bit_mask(sv), ..m2 }, c1, 8, ea, dv & !bit_mask(sv), r, 14),
                },
        }
}

/// BCLR on a byte in memory: Z tells whether the bit, numbered modulo 8, was clear, and the bit is cleared.
pub fn bclr_8_r_pd(core: &mut ConfiguredCore) -> (r: Result<Cycles>)
    requires
        old(core).wf(),
    ensures
        final(core).wf(),
        bclr_8_r_pd_effect(*old(core), *final(core), r),
{
    let ghost c0 = *core;
    let s = operator::dx(core);
    let ghost m1 = *core;
    assert(operator::dx_rel(c0, m1, s));
    let sv = match s {
        Err(e) => {
            return Err(e);
        },
        Ok(v) => v,
    };
    let d = operator::ea_ay_pd_8(core);
    let ghost m2 = *core;
    assert(operator::ea_ay_pd_8_rel(m1, m2, d));
    let (dv, ea) = match d {
        Err(e) => {
            return Err(e);
        },
        Ok(p) => p,
    };
    let mask = bit_of(sv);
    core.not_z_flag = dv & mask;
    store(core, 8, ea, dv & !mask, 14)
}

/// What `bclr_8_r_di` does: the core goes from `c0` to `c1` and `r` comes back.
pub open spec fn bclr_8_r_di_effect(c0: ConfiguredCore, c1: ConfiguredCore, r: Result<Cycles>) -> bool {
    exists|m1: ConfiguredCore, s: Result<u32>|
        #[trigger] operator::dx_rel(c0, m1, s) && match s {
            Err(e) => r == Err::<Cycles, Exception>(e) && c1 == m1,
            Ok(sv) => exists|m2: ConfiguredCore, d: Result<(u32, u32)>|
                #[trigger] operator::ea_ay_di_8_rel(m1, m2, d) && match d {
                    Err(e) => r == Err::<Cycles, Exception>(e) && c1 == m2,
                    Ok((dv, ea)) => stored(ConfiguredCore { not_z_flag: dv & bit_mask(sv), ..m2 }, c1, 8, ea, dv & !bit_mask(sv), r, 16),
                },
        }
}

/// BCLR on a byte in memory: Z tells whether the bit, numbered modulo 8, was clear, and the bit is cleared.
pub fn bclr_8_r_di(core: &mut ConfiguredCore) -> (r: Result<Cycles>)
    requires
        old(core).wf(),
    ensures
        final(core).wf(),
        bclr_8_r_di_effect(*old(core), *final(core), r),
{
    let ghost c0 = *core;
    let s = operator::dx(core);
    let ghost m1 = *core;
    assert(operator::dx_rel(c0, m1, s));
    let sv = match s {
        Err(e) => {
            return Err(e);
        },
        Ok(v) => v,
    };
    let d = operator::ea_ay_di_8(core);
    let ghost m2 = *core;
    assert(operator::ea_ay_di_8_rel(m1, m2, d));
    let (dv, ea) = match d {
        Err(e) => {
            return Err(e);
        },
        Ok(p) => p,
    };
    let mask = bit_of(sv);
    core.not_z_flag = dv & mask;
    store(core, 8, ea, dv & !mask, 16)
}

/// What `bclr_8_r_ix` does: the core goes from `c0` to `c1` and `r` comes back.
pub open spec fn bclr_8_r_ix_effect(c0: ConfiguredCore, c1: ConfiguredCore, r: Result<Cycles>) -> bool {
    exists|m1: ConfiguredCore, s: Result<u32>|
        #[trigger] operator::dx_rel(c0, m1, s) && match s {
            Err(e) => r == Err::<Cycles, Exception>(e) && c1 == m1,
            Ok(sv) => exists|m2: ConfiguredCore, d: Result<(u32, u32)>|
                #[trigger] operator::ea_ay_ix_8_rel(m1, m2, d) && match d {
                    Err(e) => r == Err::<Cycles, Exception>(e) && c1 == m2,
                    Ok((dv, ea)) => stored(ConfiguredCore { not_z_flag: dv & bit_mask(sv), ..m2 }, c1, 8, ea, dv & !bit_mask(sv), r, 18),
                },
        }
}

/// BCLR on a byte in memory: Z tells whether the bit, numbered modulo 8, was clear, and the bit is cleared.
pub fn bclr_8_r_ix(core: &mut ConfiguredCore) -> (r: Result<Cycles>)
    requires
        old(core).wf(),
    ensures
        final(core).wf(),
        bclr_8_r_ix_effect(*old(core), *final(core), r),
{
    let ghost c0 = *core;
    let s = operator::dx(core);
    let ghost m1 = *core;
    assert(operator::dx_rel(c0, m1, s));
    let sv = match s {
        Err(e) => {
            return Err(e);
        },
        Ok(v) => v,
    };
    let d = operator::ea_ay_ix_8(core);
    let ghost m2 = *core;
    assert(operator::ea_ay_ix_8_rel(m1, m2, d));
    let (dv, ea) = match d {
        Err(e) => {
            return Err(e);
        },
        Ok(p) => p,
    };
    let mask = bit_of(sv);
    core.not_z_flag = dv & mask;
    store(core, 8, ea, dv & !mask, 18)
}

/// What `bclr_8_r_aw` does: the core goes from `c0` to `c1` and `r` comes back.
pub open spec fn bclr_8_r_aw_effect(c0: ConfiguredCore, c1: ConfiguredCore, r: Result<Cycles>) -> bool {
    exists|m1: ConfiguredCore, s: Result<u32>|
        #[trigger] operator::dx_rel(c0, m1, s) && match s {
            Err(e) => r == Err::<Cycles, Exception>(e) && c1 == m1,
            Ok(sv) => exists|m2: ConfiguredCore, d: Result<(u32, u32)>|
                #[trigger] operator::ea_aw_8_rel(m1, m2, d) && match d {
                    Err(e) => r == Err::<Cycles, Exception>(e) && c1 == m2,
                    Ok((dv, ea)) => stored(ConfiguredCore { not_z_flag: dv & bit_mask(sv), ..m2 }, c1, 8, ea, dv & !bit_mask(sv), r, 16),
                },
        }
}

/// BCLR on a byte in memory: Z tells whether the bit, numbered modulo 8, was clear, and the bit is cleared.
pub fn bclr_8_r_aw(core: &mut ConfiguredCore) -> (r: Result<Cycles>)
    requires
        old(core).wf(),
    ensures
        final(core).wf(),
        bclr_8_r_aw_effect(*old(core), *final(core), r),
{
    let ghost c0 = *core;
    let s = operator::dx(core);
    let ghost m1 = *core;
    assert(operator::dx_rel(c0, m1, s));
    let sv = match s {
        Err(e) => {
            return Err(e);
        },
        Ok(v) => v,
    };
    let d = operator::ea_aw_8(core);
    let ghost m2 = *core;
    assert(operator::ea_aw_8_rel(m1, m2, d));
    let (dv, ea) = match d {
        Err(e) => {
            return Err(e);
        },
        Ok(p) => p,
    };
    let mask = bit_of(sv);
    core.not_z_flag = dv & mask;
    store(core, 8, ea, dv & !mask, 16)
}

/// What `bclr_8_r_al` does: the core goes from `c0` to `c1` and `r` comes back.
pub open spec fn bclr_8_r_al_effect(c0: ConfiguredCore, c1: ConfiguredCore, r: Result<Cycles>) -> bool {
    exists|m1: ConfiguredCore, s: Result<u32>|
        #[trigger] operator::dx_rel(c0, m1, s) && match s {
            Err(e) => r == Err::<Cycles, Exception>(e) && c1 == m1,
            Ok(sv) => exists|m2: ConfiguredCore, d: Result<(u32, u32)>|
                #[trigger] operator::ea_al_8_rel(m1, m2, d) && match d {
                    Err(e) => r == Err::<Cycles, Exception>(e) && c1 == m2,
                    Ok((dv, ea)) => stored(ConfiguredCore { not_z_flag: dv & bit_mask(sv), ..m2 }, c1, 8, ea, dv & !bit_mask(sv), r, 20),
                },
        }
}

/// BCLR on a byte in memory: Z tells whether the bit, numbered modulo 8, was clear, and the bit is cleared.
pub fn bclr_8_r_al(core: &mut ConfiguredCore) -> (r: Result<Cycles>)
    requires
        old(core).wf(),
    ensures
        final(core).wf(),
        bclr_8_r_al_effect(*old(core), *final(core), r),
{
    let ghost c0 = *core;
    let s = operator::dx(core);
    let ghost m1 = *core;
    assert(operator::dx_rel(c0, m1, s));
    let sv = match s {
        Err(e) => {
            return Err(e);
        },
        Ok(v) => v,
    };
    let d = operator::ea_al_8(core);
    let ghost m2 = *core;
    assert(operator::ea_al_8_rel(m1, m2, d));
    let (dv, ea) = match d {
        Err(e) => {
            return Err(e);
        },
        Ok(p) => p,
    };
    let mask = bit_of(sv);
    core.not_z_flag = dv & mask;
    store(core, 8, ea, dv & !mask, 20)
}

/// What `bclr_8_s_ai` does: the core goes from `c0` to `c1` and `r` comes back.
pub open spec fn bclr_8_s_ai_effect(c0: ConfiguredCore, c1: ConfiguredCore, r: Result<Cycles>) -> bool {
    exists|m1: ConfiguredCore, s: Result<u32>|
        #[trigger] operator::imm_8_rel(c0, m1, s) && match s {
            Err(e) => r == Err::<Cycles, Exception>(e) && c1 == m1,
            Ok(sv) => exists|m2: ConfiguredCore, d: Result<(u32, u32)>|
                #[trigger] operator::ea_ay_ai_8_rel(m1, m2, d) && match d {
                    Err(e) => r == Err::<Cycles, Exception>(e) && c1 == m2,
                    Ok((dv, ea)) => stored(ConfiguredCore { not_z_flag: dv & bit_mask(sv), ..m2 }, c1, 8, ea, dv & !bit_mask(sv), r, 16),
                },
        }
}

/// BCLR on a byte in memory: Z tells whether the bit, numbered modulo 8, was clear, and the bit is cleared.
pub fn bclr_8_s_ai(core: &mut ConfiguredCore) -> (r: Result<Cycles>)
    requires
        old(core).wf(),
    ensures
        final(core).wf(),
        bclr_8_s_ai_effect(*old(core), *final(core), r),
{
    let ghost c0 = *core;
    let s = operator::imm_8(core);
    let ghost m1 = *core;
    assert(operator::imm_8_rel(c0, m1, s));
    let sv = match s {
        Err(e) => {
            return Err(e);
        },
        Ok(v) => v,
    };
    let d = operator::ea_ay_ai_8(core);
    let ghost m2 = *core;
    assert(operator::ea_ay_ai_8_rel(m1, m2, d));
    let (dv, ea) = match d {
        Err(e) => {
            return Err(e);
        },
        Ok(p) => p,
    };
    let mask = bit_of(sv);
    core.not_z_flag = dv & mask;
    store(core, 8, ea, dv & !mask, 16)
}

/// What `bclr_8_s_pi` does: the core goes from `c0` to `c1` and `r` comes back.
pub open spec fn bclr_8_s_pi_effect(c0: ConfiguredCore, c1: ConfiguredCore, r: Result<Cycles>) -> bool {
    exists|m1: ConfiguredCore, s: Result<u32>|
        #[trigger] operator::imm_8_rel(c0, m1, s) && match s {
            Err(e) => r == Err::<Cycles, Exception>(e) && c1 == m1,
            Ok(sv) => exists|m2: ConfiguredCore, d: Result<(u32, u32)>|
                #[trigger] operator::ea_ay_pi_8_rel(m1, m2, d) && match d {
                    Err(e) => r == Err::<Cycles, Exception>(e) && c1 == m2,
                    Ok((dv, ea)) => stored(ConfiguredCore { not_z_flag: dv & bit_mask(sv), ..m2 }, c1, 8, ea, dv & !bit_mask(sv), r, 16),
                },
        }
}

/// BCLR on a byte in memory: Z tells whether the bit, numbered modulo 8, was clear, and the bit is cleared.
pub fn bclr_8_s_pi(core: &mut ConfiguredCore) -> (r: Result<Cycles>)
    requires
        old(core).wf(),
    ensures
        final(core).wf(),
        bclr_8_s_pi_effect(*old(core), *final(core), r),
{
    let ghost c0 = *core;
    let s = operator::imm_8(core);
    let ghost m1 = *core;
    assert(operator::imm_8_rel(c0, m1, s));
    let sv = match s {
        Err(e) => {
            return Err(e);
        },
        Ok(v) => v,
    };
    let d = operator::ea_ay_pi_8(core);
    let ghost m2 = *core;
    assert(operator::ea_ay_pi_8_rel(m1, m2, d));
    let (dv, ea) = match d {
        Err(e) => {
            return Err(e);
        },
        Ok(p) => p,
    };
    let mask = bit_of(sv);
    core.not_z_flag = dv & mask;
    store(core, 8, ea, dv & !mask, 16)
}

/// What `bclr_8_s_pd` does: the core goes from `c0` to `c1` and `r` comes back.
pub open spec fn bclr_8_s_pd_effect(c0: ConfiguredCore, c1: ConfiguredCore, r: Result<Cycles>) -> bool {
    exists|m1: ConfiguredCore, s: Result<u32>|
        #[trigger] operator::imm_8_rel(c0, m1, s) && match s {
            Err(e) => r == Err::<Cycles, Exception>(e) && c1 == m1,
            Ok(sv) => exists|m2: ConfiguredCore, d: Result<(u32, u32)>|
                #[trigger] operator::ea_ay_pd_8_rel(m1, m2, d) && match d {
                    Err(e) => r == Err::<Cycles, Exception>(e) && c1 == m2,
                    Ok((dv, ea)) => stored(ConfiguredCore { not_z_flag: dv & bit_mask(sv), ..m2 }, c1, 8, ea, dv & !bit_mask(sv), r, 18),
                },
        }
}

/// BCLR on a byte in memory: Z tells whether the bit, numbered modulo 8, was clear, and the bit is cleared.
pub fn bclr_8_s_pd(core: &mut ConfiguredCore) -> (r: Result<Cycles>)
    requires
        old(core).wf(),
    ensures
        final(core).wf(),
        bclr_8_s_pd_effect(*old(core), *final(core), r),
{
    let ghost c0 = *core;
    let s = operator::imm_8(core);
    let ghost m1 = *core;
    assert(operator::imm_8_rel(c0, m1, s));
    let sv = match s {
        Err(e) => {
            return Err(e);
        },
        Ok(v) => v,
    };
    let d = operator::ea_ay_pd_8(core);
    let ghost m2 = *core;
    assert(operator::ea_ay_pd_8_rel(m1, m2, d));
    let (dv, ea) = match d {
        Err(e) => {
            return Err(e);
        },
        Ok(p) => p,
    };
    let mask = bit_of(sv);
    core.not_z_flag = dv & mask;
    store(core, 8, ea, dv & !mask, 18)
}

/// What `bclr_8_s_di` does: the core goes from `c0` to `c1` and `r` comes back.
pub open spec fn bclr_8_s_di_effect(c0: ConfiguredCore, c1: ConfiguredCore, r: Result<Cycles>) -> bool {
    exists|m1: ConfiguredCore, s: Result<u32>|
        #[trigger] operator::imm_8_rel(c0, m1, s) && match s {
            Err(e) => r == Err::<Cycles, Exception>(e) && c1 == m1,
            Ok(sv) => exists|m2: ConfiguredCore, d: Result<(u32, u32)>|
                #[trigger] operator::ea_ay_di_8_rel(m1, m2, d) && match d {
                    Err(e) => r == Err::<Cycles, Exception>(e) && c1 == m2,
                    Ok((dv, ea)) => stored(ConfiguredCore { not_z_flag: dv & bit_mask(sv), ..m2 }, c1, 8, ea, dv & !bit_mask(sv), r, 20),
                },
        }
}

/// BCLR on a byte in memory: Z tells whether the bit, numbered modulo 8, was clear, and the bit is cleared.
pub fn bclr_8_s_di(core: &mut ConfiguredCore) -> (r: Result<Cycles>)
    requires
        old(core).wf(),
    ensures
        final(core).wf(),
        bclr_8_s_di_effect(*old(core), *final(core), r),
{
    let ghost c0 = *core;
    let s = operator::imm_8(core);
    let ghost m1 = *core;
    assert(operator::imm_8_rel(c0, m1, s));
    let sv = match s {
        Err(e) => {
            return Err(e);
        },
        Ok(v) => v,
    };
    let d = operator::ea_ay_di_8(core);
    let ghost m2 = *core;
    assert(operator::ea_ay_di_8_rel(m1, m2, d));
    let (dv, ea) = match d {
        Err(e) => {
            return Err(e);
        },
        Ok(p) => p,
    };
    let mask = bit_of(sv);
    core.not_z_flag = dv & mask;
    store(core, 8, ea, dv & !mask, 20)
}

/// What `bclr_8_s_ix` does: the core goes from `c0` to `c1` and `r` comes back.
pub open spec fn bclr_8_s_ix_effect(c0: ConfiguredCore, c1: ConfiguredCore, r: Result<Cycles>) -> bool {
    exists|m1: ConfiguredCore, s: Result<u32>|
        #[trigger] operator::imm_8_rel(c0, m1, s) && match s {
            Err(e) => r == Err::<Cycles, Exception>(e) && c1 == m1,
            Ok(sv) => exists|m2: ConfiguredCore, d: Result<(u32, u32)>|
                #[trigger] operator::ea_ay_ix_8_rel(m1, m2, d) && match d {
                    Err(e) => r == Err::<Cycles, Exception>(e) && c1 == m2,
                    Ok((dv, ea)) => stored(ConfiguredCore { not_z_flag: dv & bit_mask(sv), ..m2 }, c1, 8, ea, dv & !bit_mask(sv), r, 22),
                },
        }
}

/// BCLR on a byte in memory: Z tells whether the bit, numbered modulo 8, was clear, and the bit is cleared.
pub fn bclr_8_s_ix(core: &mut ConfiguredCore) -> (r: Result<Cycles>)
    requires
        old(core).wf(),
    ensures
        final(core).wf(),
        bclr_8_s_ix_effect(*old(core), *final(core), r),
{
    let ghost c0 = *core;
    let s = operator::imm_8(core);
    let ghost m1 = *core;
    assert(operator::imm_8_rel(c0, m1, s));
    let sv = match s {
        Err(e) => {
            return Err(e);
        },
        Ok(v) => v,
    };
    let d = operator::ea_ay_ix_8(core);
    let ghost m2 = *core;
    assert(operator::ea_ay_ix_8_rel(m1, m2, d));
    let (dv, ea) = match d {
        Err(e) => {
            return Err(e);
        },
        Ok(p) => p,
    };
    let mask = bit_of(sv);
    core.not_z_flag = dv & mask;
    store(core, 8, ea, dv & !mask, 22)
}

/// What `bclr_8_s_aw` does: the core goes from `c0` to `c1` and `r` comes back.
pub open spec fn bclr_8_s_aw_effect(c0: ConfiguredCore, c1: ConfiguredCore, r: Result<Cycles>) -> bool {
    exists|m1: ConfiguredCore, s: Result<u32>|
        #[trigger] operator::imm_8_rel(c0, m1, s) && match s {
            Err(e) => r == Err::<Cycles, Exception>(e) && c1 == m1,
            Ok(sv) => exists|m2: ConfiguredCore, d: Result<(u32, u32)>|
                #[trigger] operator::ea_aw_8_rel(m1, m2, d) && match d {
                    Err(e) => r == Err::<Cycles, Exception>(e) && c1 == m2,
                    Ok((dv, ea)) => stored(ConfiguredCore { not_z_flag: dv & bit_mask(sv), ..m2 }, c1, 8, ea, dv & !bit_mask(sv), r, 20),
                },
        }
}

/// BCLR on a byte in memory: Z tells whether the bit, numbered modulo 8, was clear, and the bit is cleared.
pub fn bclr_8_s_aw(core: &mut ConfiguredCore) -> (r: Result<Cycles>)
    requires
        old(core).wf(),
    ensures
        final(core).wf(),
        bclr_8_s_aw_effect(*old(core), *final(core), r),
{
    let ghost c0 = *core;
    let s = operator::imm_8(core);
    let ghost m1 = *core;
    assert(operator::imm_8_rel(c0, m1, s));
    let sv = match s {
        Err(e) => {
            return Err(e);
        },
        Ok(v) => v,
    };
    let d = operator::ea_aw_8(core);
    let ghost m2 = *core;
    assert(operator::ea_aw_8_rel(m1, m2, d));
    let (dv, ea) = match d {
        Err(e) => {
            return Err(e);
        },
        Ok(p) => p,
    };
    let mask = bit_of(sv);
    core.not_z_flag = dv & mask;
    store(core, 8, ea, dv & !mask, 20)
}

/// What `bclr_8_s_al` does: the core goes from `c0` to `c1` and `r` comes back.
pub open spec fn bclr_8_s_al_effect(c0: ConfiguredCore, c1: ConfiguredCore, r: Result<Cycles>) -> bool {
    exists|m1: ConfiguredCore, s: Result<u32>|
        #[trigger] operator::imm_8_rel(c0, m1, s) && match s {
            Err(e) => r == Err::<Cycles, Exception>(e) && c1 == m1,
            Ok(sv) => exists|m2: ConfiguredCore, d: Result<(u32, u32)>|
                #[trigger] operator::ea_al_8_rel(m1, m2, d) && match d {
                    Err(e) => r == Err::<Cycles, Exception>(e) && c1 == m2,
                    Ok((dv, ea)) => stored(ConfiguredCore { not_z_flag: dv & bit_mask(sv), ..m2 }, c1, 8, ea, dv & !bit_mask(sv), r, 24),
                },
        }
}

/// BCLR on a byte in memory: Z tells whether the bit, numbered modulo 8, was clear, and the bit is cleared.
pub fn bclr_8_s_al(core: &mut ConfiguredCore) -> (r: Result<Cycles>)
    requires
        old(core).wf(),
    ensures
        final(core).wf(),
        bclr_8_s_al_effect(*old(core), *final(core), r),
{
    let ghost c0 = *core;
    let s = operator::imm_8(core);
    let ghost m1 = *core;
    assert(operator::imm_8_rel(c0, m1, s));
    let sv = match s {
        Err(e) => {
            return Err(e);
        },
        Ok(v) => v,
    };
    let d = operator::ea_al_8(core);
    let ghost m2 = *core;
    assert(operator::ea_al_8_rel(m1, m2, d));
    let (dv, ea) = match d {
        Err(e) => {
            return Err(e);
        },
        Ok(p) => p,
    };
    let mask = bit_of(sv);
    core.not_z_flag = dv & mask;
    store(core, 8, ea, dv & !mask, 24)
}

/// What `bset_8_r_ai` does: the core goes from `c0` to `c1` and `r` comes back.
pub open spec fn bset_8_r_ai_effect(c0: ConfiguredCore, c1: ConfiguredCore, r: Result<Cycles>) -> bool {
    exists|m1: ConfiguredCore, s: Result<u32>|
        #[trigger] operator::dx_rel(c0, m1, s) && match s {
            Err(e) => r == Err::<Cycles, Exception>(e) && c1 == m1,
            Ok(sv) => exists|m2: ConfiguredCore, d: Result<(u32, u32)>|
                #[trigger] operator::ea_ay_ai_8_rel(m1, m2, d) && match d {
                    Err(e) => r == Err::<Cycles, Exception>(e) && c1 == m2,
                    Ok((dv, ea)) => stored(ConfiguredCore { not_z_flag: dv & bit_mask(sv), ..m2 }, c1, 8, ea, dv | bit_mask(sv), r, 12),
                },
        }
}

/// BSET on a byte in memory: Z tells whether the bit, numbered modulo 8, was clear, and the bit is set.
pub fn bset_8_r_ai(core: &mut ConfiguredCore) -> (r: Result<Cycles>)
    requires
        old(core).wf(),
    ensures
        final(core).wf(),
        bset_8_r_ai_effect(*old(core), *final(core), r),
{
    let ghost c0 = *core;
    let s = operator::dx(core);
    let ghost m1 = *core;
    assert(operator::dx_rel(c0, m1, s));
    let sv = match s {
        Err(e) => {
            return Err(e);
        },
        Ok(v) => v,
    };
    let d = operator::ea_ay_ai_8(core);
    let ghost m2 = *core;
    assert(operator::ea_ay_ai_8_rel(m1, m2, d));
    let (dv, ea) = match d {
        Err(e) => {
            return Err(e);
        },
        Ok(p) => p,
    };
    let mask = bit_of(sv);
    core.not_z_flag = dv & mask;
    store(core, 8, ea, dv | mask, 12)
}

/// What `bset_8_r_pi` does: the core goes from `c0` to `c1` and `r` comes back.
pub open spec fn bset_8_r_pi_effect(c0: ConfiguredCore, c1: ConfiguredCore, r: Result<Cycles>) -> bool {
    exists|m1: ConfiguredCore, s: Result<u32>|
        #[trigger] operator::dx_rel(c0, m1, s) && match s {
            Err(e) => r == Err::<Cycles, Exception>(e) && c1 == m1,
            Ok(sv) => exists|m2: ConfiguredCore, d: Result<(u32, u32)>|
                #[trigger] operator::ea_ay_pi_8_rel(m1, m2, d) && match d {
                    Err(e) => r == Err::<Cycles, Exception>(e) && c1 == m2,
                    Ok((dv, ea)) => stored(ConfiguredCore { not_z_flag: dv & bit_mask(sv), ..m2 }, c1, 8, ea, dv | bit_mask(sv), r, 12),
                },
        }
}

/// BSET on a byte in memory: Z tells whether the bit, numbered modulo 8, was clear, and the bit is set.
pub fn bset_8_r_pi(core: &mut ConfiguredCore) -> (r: Result<Cycles>)
    requires
        old(core).wf(),
    ensures
        final(core).wf(),
        bset_8_r_pi_effect(*old(core), *final(core), r),
{
    let ghost c0 = *core;
    let s = operator::dx(core);
    let ghost m1 = *core;
    assert(operator::dx_rel(c0, m1, s));
    let sv = match s {
        Err(e) => {
            return Err(e);
        },
        Ok(v) => v,
    };
    let d = operator::ea_ay_pi_8(core);
    let ghost m2 = *core;
    assert(operator::ea_ay_pi_8_rel(m1, m2, d));
    let (dv, ea) = match d {
        Err(e) => {
            return Err(e);
        },
        Ok(p) => p,
    };
    let mask = bit_of(sv);
    core.not_z_flag = dv & mask;
    store(core, 8, ea, dv | mask, 12)
}

/// What `bset_8_r_pd` does: the core goes from `c0` to `c1` and `r` comes back.
pub open spec fn bset_8_r_pd_effect(c0: ConfiguredCore, c1: ConfiguredCore, r: Result<Cycles>) -> bool {
    exists|m1: ConfiguredCore, s: Result<u32>|
        #[trigger] operator::dx_rel(c0, m1, s) && match s {
            Err(e) => r == Err::<Cycles, Exception>(e) && c1 == m1,
            Ok(sv) => exists|m2: ConfiguredCore, d: Result<(u32, u32)>|
                #[trigger] operator::ea_ay_pd_8_rel(m1, m2, d) && match d {
                    Err(e) => r == Err::<Cycles, Exception>(e) && c1 == m2,
                    Ok((dv, ea)) => stored(ConfiguredCore { not_z_flag: dv & bit_mask(sv), ..m2 }, c1, 8, ea, dv | bit_mask(sv), r, 14),
                },
        }
}

/// BSET on a byte in memory: Z tells whether the bit, numbered modulo 8, was clear, and the bit is set.
pub fn bset_8_r_pd(core: &mut ConfiguredCore) -> (r: Result<Cycles>)
    requires
        old(core).wf(),
    ensures
        final(core).wf(),
        bset_8_r_pd_effect(*old(core), *final(core), r),
{
    let ghost c0 = *core;
    let s = operator::dx(core);
    let ghost m1 = *core;
    assert(operator::dx_rel(c0, m1, s));
    let sv = match s {
        Err(e) => {
            return Err(e);
        },
        Ok(v) => v,
    };
    let d = operator::ea_ay_pd_8(core);
    let ghost m2 = *core;
    assert(operator::ea_ay_pd_8_rel(m1, m2, d));
    let (dv, ea) = match d {
        Err(e) => {
            return Err(e);
        },
        Ok(p) => p,
    };
    let mask = bit_of(sv);
    core.not_z_flag = dv & mask;
    store(core, 8, ea, dv | mask, 14)
}

/// What `bset_8_r_di` does: the core goes from `c0` to `c1` and `r` comes back.
pub open spec fn bset_8_r_di_effect(c0: ConfiguredCore, c1: ConfiguredCore, r: Result<Cycles>) -> bool {
    exists|m1: ConfiguredCore, s: Result<u32>|
        #[trigger] operator::dx_rel(c0, m1, s) && match s {
            Err(e) => r == Err::<Cycles, Exception>(e) && c1 == m1,
            Ok(sv) => exists|m2: ConfiguredCore, d: Result<(u32, u32)>|
                #[trigger] operator::ea_ay_di_8_rel(m1, m2, d) && match d {
                    Err(e) => r == Err::<Cycles, Exception>(e) && c1 == m2,
                    Ok((dv, ea)) => stored(ConfiguredCore { not_z_flag: dv & bit_mask(sv), ..m2 }, c1, 8, ea, dv | bit_mask(sv), r, 16),
                },
        }
}

/// BSET on a byte in memory: Z tells whether the bit, numbered modulo 8, was clear, and the bit is set.
pub fn bset_8_r_di(core: &mut ConfiguredCore) -> (r: Result<Cycles>)
    requires
        old(core).wf(),
    ensures
        final(core).wf(),
        bset_8_r_di_effect(*old(core), *final(core), r),
{
    let ghost c0 = *core;
    let s = operator::dx(core);
    let ghost m1 = *core;
    assert(operator::dx_rel(c0, m1, s));
    let sv = match s {
        Err(e) => {
            return Err(e);
        },
        Ok(v) => v,
    };
    let d = operator::ea_ay_di_8(core);
    let ghost m2 = *core;
    assert(operator::ea_ay_di_8_rel(m1, m2, d));
    let (dv, ea) = match d {
        Err(e) => {
            return Err(e);
        },
        Ok(p) => p,
    };
    let mask = bit_of(sv);
    core.not_z_flag = dv & mask;
    store(core, 8, ea, dv | mask, 16)
}

/// What `bset_8_r_ix` does: the core goes from `c0` to `c1` and `r` comes back.
pub open spec fn bset_8_r_ix_effect(c0: ConfiguredCore, c1: ConfiguredCore, r: Result<Cycles>) -> bool {
    exists|m1: ConfiguredCore, s: Result<u32>|
        #[trigger] operator::dx_rel(c0, m1, s) && match s {
            Err(e) => r == Err::<Cycles, Exception>(e) && c1 == m1,
            Ok(sv) => exists|m2: ConfiguredCore, d: Result<(u32, u32)>|
                #[trigger] operator::ea_ay_ix_8_rel(m1, m2, d) && match d {
                    Err(e) => r == Err::<Cycles, Exception>(e) && c1 == m2,
                    Ok((dv, ea)) => stored(ConfiguredCore { not_z_flag: dv & bit_mask(sv), ..m2 }, c1, 8, ea, dv | bit_mask(sv), r, 18),
                },
        }
}

/// BSET on a byte in memory: Z tells whether the bit, numbered modulo 8, was clear, and the bit is set.
pub fn bset_8_r_ix(core: &mut ConfiguredCore) -> (r: Result<Cycles>)
    requires
        old(core).wf(),
    ensures
        final(core).wf(),
        bset_8_r_ix_effect(*old(core), *final(core), r),
{
    let ghost c0 = *core;
    let s = operator::dx(core);
    let ghost m1 = *core;
    assert(operator::dx_rel(c0, m1, s));
    let sv = match s {
        Err(e) => {
            return Err(e);
        },
        Ok(v) => v,
    };
    let d = operator::ea_ay_ix_8(core);
    let ghost m2 = *core;
    assert(operator::ea_ay_ix_8_rel(m1, m2, d));
    let (dv, ea) = match d {
        Err(e) => {
            return Err(e);
        },
        Ok(p) => p,
    };
    let mask = bit_of(sv);
    core.not_z_flag = dv & mask;
    store(core, 8, ea, dv | mask, 18)
}

/// What `bset_8_r_aw` does: the core goes from `c0` to `c1` and `r` comes back.
pub open spec fn bset_8_r_aw_effect(c0: ConfiguredCore, c1: ConfiguredCore, r: Result<Cycles>) -> bool {
    exists|m1: ConfiguredCore, s: Result<u32>|
        #[trigger] operator::dx_rel(c0, m1, s) && match s {
            Err(e) => r == Err::<Cycles, Exception>(e) && c1 == m1,
            Ok(sv) => exists|m2: ConfiguredCore, d: Result<(u32, u32)>|
                #[trigger] operator::ea_aw_8_rel(m1, m2, d) && match d {
                    Err(e) => r == Err::<Cycles, Exception>(e) && c1 == m2,
                    Ok((dv, ea)) => stored(ConfiguredCore { not_z_flag: dv & bit_mask(sv), ..m2 }, c1, 8, ea, dv | bit_mask(sv), r, 16),
                },
        }
}

/// BSET on a byte in memory: Z tells whether the bit, numbered modulo 8, was clear, and the bit is set.
pub fn bset_8_r_aw(core: &mut ConfiguredCore) -> (r: Result<Cycles>)
    requires
        old(core).wf(),
    ensures
        final(core).wf(),
        bset_8_r_aw_effect(*old(core), *final(core), r),
{
    let ghost c0 = *core;
    let s = operator::dx(core);
    let ghost m1 = *core;
    assert(operator::dx_rel(c0, m1, s));
    let sv = match s {
        Err(e) => {
            return Err(e);
        },
        Ok(v) => v,
    };
    let d = operator::ea_aw_8(core);
    let ghost m2 = *core;
    assert(operator::ea_aw_8_rel(m1, m2, d));
    let (dv, ea) = match d {
        Err(e) => {
            return Err(e);
        },
        Ok(p) => p,
    };
    let mask = bit_of(sv);
    core.not_z_flag = dv & mask;
    store(core, 8, ea, dv | mask, 16)
}

/// What `bset_8_r_al` does: the core goes from `c0` to `c1` and `r` comes back.
pub open spec fn bset_8_r_al_effect(c0: ConfiguredCore, c1: ConfiguredCore, r: Result<Cycles>) -> bool {
    exists|m1: ConfiguredCore, s: Result<u32>|
        #[trigger] operator::dx_rel(c0, m1, s) && match s {
            Err(e) => r == Err::<Cycles, Exception>(e) && c1 == m1,
            Ok(sv) => exists|m2: ConfiguredCore, d: Result<(u32, u32)>|
                #[trigger] operator::ea_al_8_rel(m1, m2, d) && match d {
                    Err(e) => r == Err::<Cycles, Exception>(e) && c1 == m2,
                    Ok((dv, ea)) => stored(ConfiguredCore { not_z_flag: dv & bit_mask(sv), ..m2 }, c1, 8, ea, dv | bit_mask(sv), r, 20),
                },
        }
}

/// BSET on a byte in memory: Z tells whether the bit, numbered modulo 8, was clear, and the bit is set.
pub fn bset_8_r_al(core: &mut ConfiguredCore) -> (r: Result<Cycles>)
    requires
        old(core).wf(),
    ensures
        final(core).wf(),
        bset_8_r_al_effect(*old(core), *final(core), r),
{
    let ghost c0 = *core;
    let s = operator::dx(core);
    let ghost m1 = *core;
    assert(operator::dx_rel(c0, m1, s));
    let sv = match s {
        Err(e) => {
            return Err(e);
        },
        Ok(v) => v,
    };
    let d = operator::ea_al_8(core);
    let ghost m2 = *core;
    assert(operator::ea_al_8_rel(m1, m2, d));
    let (dv, ea) = match d {
        Err(e) => {
            return Err(e);
        },
        Ok(p) => p,
    };
    let mask = bit_of(sv);
    core.not_z_flag = dv & mask;
    store(core, 8, ea, dv | mask, 20)
}

/// What `bset_8_s_ai` does: the core goes from `c0` to `c1` and `r` comes back.
pub open spec fn bset_8_s_ai_effect(c0: ConfiguredCore, c1: ConfiguredCore, r: Result<Cycles>) -> bool {
    exists|m1: ConfiguredCore, s: Result<u32>|
        #[trigger] operator::imm_8_rel(c0, m1, s) && match s {
            Err(e) => r == Err::<Cycles, Exception>(e) && c1 == m1,
            Ok(sv) => exists|m2: ConfiguredCore, d: Result<(u32, u32)>|
                #[trigger] operator::ea_ay_ai_8_rel(m1, m2, d) && match d {
                    Err(e) => r == Err::<Cycles, Exception>(e) && c1 == m2,
                    Ok((dv, ea)) => stored(ConfiguredCore { not_z_flag: dv & bit_mask(sv), ..m2 }, c1, 8, ea, dv | bit_mask(sv), r, 16),
                },
        }
}

/// BSET on a byte in memory: Z tells whether the bit, numbered modulo 8, was clear, and the bit is set.
pub fn bset_8_s_ai(core: &mut ConfiguredCore) -> (r: Result<Cycles>)
    requires
        old(core).wf(),
    ensures
        final(core).wf(),
        bset_8_s_ai_effect(*old(core), *final(core), r),
{
    let ghost c0 = *core;
    let s = operator::imm_8(core);
    let ghost m1 = *core;
    assert(operator::imm_8_rel(c0, m1, s));
    let sv = match s {
        Err(e) => {
            return Err(e);
        },
        Ok(v) => v,
    };
    let d = operator::ea_ay_ai_8(core);
    let ghost m2 = *core;
    assert(operator::ea_ay_ai_8_rel(m1, m2, d));
    let (dv, ea) = match d {
        Err(e) => {
            return Err(e);
        },
        Ok(p) => p,
    };
    let mask = bit_of(sv);
    core.not_z_flag = dv & mask;
    store(core, 8, ea, dv | mask, 16)
}

/// What `bset_8_s_pi` does: the core goes from `c0` to `c1` and `r` comes back.
pub open spec fn bset_8_s_pi_effect(c0: ConfiguredCore, c1: ConfiguredCore, r: Result<Cycles>) -> bool {
    exists|m1: ConfiguredCore, s: Result<u32>|
        #[trigger] operator::imm_8_rel(c0, m1, s) && match s {
            Err(e) => r == Err::<Cycles, Exception>(e) && c1 == m1,
            Ok(sv) => exists|m2: ConfiguredCore, d: Result<(u32, u32)>|
                #[trigger] operator::ea_ay_pi_8_rel(m1, m2, d) && match d {
                    Err(e) => r == Err::<Cycles, Exception>(e) && c1 == m2,
                    Ok((dv, ea)) => stored(ConfiguredCore { not_z_flag: dv & bit_mask(sv), ..m2 }, c1, 8, ea, dv | bit_mask(sv), r, 16),
                },
        }
}

/// BSET on a byte in memory: Z tells whether the bit, numbered modulo 8, was clear, and the bit is set.
pub fn bset_8_s_pi(core: &mut ConfiguredCore) -> (r: Result<Cycles>)
    requires
        old(core).wf(),
    ensures
        final(core).wf(),
        bset_8_s_pi_effect(*old(core), *final(core), r),
{
    let ghost c0 = *core;
    let s = operator::imm_8(core);
    let ghost m1 = *core;
    assert(operator::imm_8_rel(c0, m1, s));
    let sv = match s {
        Err(e) => {
            return Err(e);
        },
        Ok(v) => v,
    };
    let d = operator::ea_ay_pi_8(core);
    let ghost m2 = *core;
    assert(operator::ea_ay_pi_8_rel(m1, m2, d));
    let (dv, ea) = match d {
        Err(e) => {
            return Err(e);
        },
        Ok(p) => p,
    };
    let mask = bit_of(sv);
    core.not_z_flag = dv & mask;
    store(core, 8, ea, dv | mask, 16)
}

/// What `bset_8_s_pd` does: the core goes from `c0` to `c1` and `r` comes back.
pub open spec fn bset_8_s_pd_effect(c0: ConfiguredCore, c1: ConfiguredCore, r: Result<Cycles>) -> bool {
    exists|m1: ConfiguredCore, s: Result<u32>|
        #[trigger] operator::imm_8_rel(c0, m1, s) && match s {
            Err(e) => r == Err::<Cycles, Exception>(e) && c1 == m1,
            Ok(sv) => exists|m2: ConfiguredCore, d: Result<(u32, u32)>|
                #[trigger] operator::ea_ay_pd_8_rel(m1, m2, d) && match d {
                    Err(e) => r == Err::<Cycles, Exception>(e) && c1 == m2,
                    Ok((dv, ea)) => stored(ConfiguredCore { not_z_flag: dv & bit_mask(sv), ..m2 }, c1, 8, ea, dv | bit_mask(sv), r, 18),
                },
        }
}

/// BSET on a byte in memory: Z tells whether the bit, numbered modulo 8, was clear, and the bit is set.
pub fn bset_8_s_pd(core: &mut ConfiguredCore) -> (r: Result<Cycles>)
    requires
        old(core).wf(),
    ensures
        final(core).wf(),
        bset_8_s_pd_effect(*old(core), *final(core), r),
{
    let ghost c0 = *core;
    let s = operator::imm_8(core);
    let ghost m1 = *core;
    assert(operator::imm_8_rel(c0, m1, s));
    let sv = match s {
        Err(e) => {
            return Err(e);
        },
        Ok(v) => v,
    };
    let d = operator::ea_ay_pd_8(core);
    let ghost m2 = *core;
    assert(operator::ea_ay_pd_8_rel(m1, m2, d));
    let (dv, ea) = match d {
        Err(e) => {
            return Err(e);
        },
        Ok(p) => p,
    };
    let mask = bit_of(sv);
    core.not_z_flag = dv & mask;
    store(core, 8, ea, dv | mask, 18)
}

/// What `bset_8_s_di` does: the core goes from `c0` to `c1` and `r` comes back.
pub open spec fn bset_8_s_di_effect(c0: ConfiguredCore, c1: ConfiguredCore, r: Result<Cycles>) -> bool {
    exists|m1: ConfiguredCore, s: Result<u32>|
        #[trigger] operator::imm_8_rel(c0, m1, s) && match s {
            Err(e) => r == Err::<Cycles, Exception>(e) && c1 == m1,
            Ok(sv) => exists|m2: ConfiguredCore, d: Result<(u32, u32)>|
                #[trigger] operator::ea_ay_di_8_rel(m1, m2, d) && match d {
                    Err(e) => r == Err::<Cycles, Exception>(e) && c1 == m2,
                    Ok((dv, ea)) => stored(ConfiguredCore { not_z_flag: dv & bit_mask(sv), ..m2 }, c1, 8, ea, dv | bit_mask(sv), r, 20),
                },
        }
}

/// BSET on a byte in memory: Z tells whether the bit, numbered modulo 8, was clear, and the bit is set.
pub fn bset_8_s_di(core: &mut ConfiguredCore) -> (r: Result<Cycles>)
    requires
        old(core).wf(),
    ensures
        final(core).wf(),
        bset_8_s_di_effect(*old(core), *final(core), r),
{
    let ghost c0 = *core;
    let s = operator::imm_8(core);
    let ghost m1 = *core;
    assert(operator::imm_8_rel(c0, m1, s));
    let sv = match s {
        Err(e) => {
            return Err(e);
        },
        Ok(v) => v,
    };
    let d = operator::ea_ay_di_8(core);
    let ghost m2 = *core;
    assert(operator::ea_ay_di_8_rel(m1, m2, d));
    let (dv, ea) = match d {
        Err(e) => {
            return Err(e);
        },
        Ok(p) => p,
    };
    let mask = bit_of(sv);
    core.not_z_flag = dv & mask;
    store(core, 8, ea, dv | mask, 20)
}

/// What `bset_8_s_ix` does: the core goes from `c0` to `c1` and `r` comes back.
pub open spec fn bset_8_s_ix_effect(c0: ConfiguredCore, c1: ConfiguredCore, r: Result<Cycles>) -> bool {
    exists|m1: ConfiguredCore, s: Result<u32>|
        #[trigger] operator::imm_8_rel(c0, m1, s) && match s {
            Err(e) => r == Err::<Cycles, Exception>(e) && c1 == m1,
            Ok(sv) => exists|m2: ConfiguredCore, d: Result<(u32, u32)>|
                #[trigger] operator::ea_ay_ix_8_rel(m1, m2, d) && match d {
                    Err(e) => r == Err::<Cycles, Exception>(e) && c1 == m2,
                    Ok((dv, ea)) => stored(ConfiguredCore { not_z_flag: dv & bit_mask(sv), ..m2 }, c1, 8, ea, dv | bit_mask(sv), r, 22),
                },
        }
}

/// BSET on a byte in memory: Z tells whether the bit, numbered modulo 8, was clear, and the bit is set.
pub fn bset_8_s_ix(core: &mut ConfiguredCore) -> (r: Result<Cycles>)
    requires
        old(core).wf(),
    ensures
        final(core).wf(),
        bset_8_s_ix_effect(*old(core), *final(core), r),
{
    let ghost c0 = *core;
    let s = operator::imm_8(core);
    let ghost m1 = *core;
    assert(operator::imm_8_rel(c0, m1, s));
    let sv = match s {
        Err(e) => {
            return Err(e);
        },
        Ok(v) => v,
    };
    let d = operator::ea_ay_ix_8(core);
    let ghost m2 = *core;
    assert(operator::ea_ay_ix_8_rel(m1, m2, d));
    let (dv, ea) = match d {
        Err(e) => {
            return Err(e);
        },
        Ok(p) => p,
    };
    let mask = bit_of(sv);
    core.not_z_flag = dv & mask;
    store(core, 8, ea, dv | mask, 22)
}

/// What `bset_8_s_aw` does: the core goes from `c0` to `c1` and `r` comes back.
pub open spec fn bset_8_s_aw_effect(c0: ConfiguredCore, c1: ConfiguredCore, r: Result<Cycles>) -> bool {
    exists|m1: ConfiguredCore, s: Result<u32>|
        #[trigger] operator::imm_8_rel(c0, m1, s) && match s {
            Err(e) => r == Err::<Cycles, Exception>(e) && c1 == m1,
            Ok(sv) => exists|m2: ConfiguredCore, d: Result<(u32, u32)>|
                #[trigger] operator::ea_aw_8_rel(m1, m2, d) && match d {
                    Err(e) => r == Err::<Cycles, Exception>(e) && c1 == m2,
                    Ok((dv, ea)) => stored(ConfiguredCore { not_z_flag: dv & bit_mask(sv), ..m2 }, c1, 8, ea, dv | bit_mask(sv), r, 20),
                },
        }
}

/// BSET on a byte in memory: Z tells whether the bit, numbered modulo 8, was clear, and the bit is set.
pub fn bset_8_s_aw(core: &mut ConfiguredCore) -> (r: Result<Cycles>)
    requires
        old(core).wf(),
    ensures
        final(core).wf(),
        bset_8_s_aw_effect(*old(core), *final(core), r),
{
    let ghost c0 = *core;
    let s = operator::imm_8(core);
    let ghost m1 = *core;
    assert(operator::imm_8_rel(c0, m1, s));
    let sv = match s {
        Err(e) => {
            return Err(e);
        },
        Ok(v) => v,
    };
    let d = operator::ea_aw_8(core);
    let ghost m2 = *core;
    assert(operator::ea_aw_8_rel(m1, m2, d));
    let (dv, ea) = match d {
        Err(e) => {
            return Err(e);
        },
        Ok(p) => p,
    };
    let mask = bit_of(sv);
    core.not_z_flag = dv & mask;
    store(core, 8, ea, dv | mask, 20)
}

/// What `bset_8_s_al` does: the core goes from `c0` to `c1` and `r` comes back.
pub open spec fn bset_8_s_al_effect(c0: ConfiguredCore, c1: ConfiguredCore, r: Result<Cycles>) -> bool {
    exists|m1: ConfiguredCore, s: Result<u32>|
        #[trigger] operator::imm_8_rel(c0, m1, s) && match s {
            Err(e) => r == Err::<Cycles, Exception>(e) && c1 == m1,
            Ok(sv) => exists|m2: ConfiguredCore, d: Result<(u32, u32)>|
                #[trigger] operator::ea_al_8_rel(m1, m2, d) && match d {
                    Err(e) => r == Err::<Cycles, Exception>(e) && c1 == m2,
                    Ok((dv, ea)) => stored(ConfiguredCore { not_z_flag: dv & bit_mask(sv), ..m2 }, c1, 8, ea, dv | bit_mask(sv), r, 24),
                },
        }
}

/// BSET on a byte in memory: Z tells whether the bit, numbered modulo 8, was clear, and the bit is set.
pub fn bset_8_s_al(core: &mut ConfiguredCore) -> (r: Result<Cycles>)
    requires
        old(core).wf(),
    ensures
        final(core).wf(),
        bset_8_s_al_effect(*old(core), *final(core), r),
{
    let ghost c0 = *core;
    let s = operator::imm_8(core);
    let ghost m1 = *core;
    assert(operator::imm_8_rel(c0, m1, s));
    let sv = match s {
        Err(e) => {
            return Err(e);
        },
        Ok(v) => v,
    };
    let d = operator::ea_al_8(core);
    let ghost m2 = *core;
    assert(operator::ea_al_8_rel(m1, m2, d));
    let (dv, ea) = match d {
        Err(e) => {
            return Err(e);
        },
        Ok(p) => p,
    };
    let mask = bit_of(sv);
    core.not_z_flag = dv & mask;
    store(core, 8, ea, dv | mask, 24)
}

/// What `btst_8_r_ai` does: the core goes from `c0` to `c1` and `r` comes back.
pub open spec fn btst_8_r_ai_effect(c0: ConfiguredCore, c1: ConfiguredCore, r: Result<Cycles>) -> bool {
    exists|m1: ConfiguredCore, s: Result<u32>|
        #[trigger] operator::dx_rel(c0, m1, s) && match s {
            Err(e) => r == Err::<Cycles, Exception>(e) && c1 == m1,
            Ok(sv) => exists|m2: ConfiguredCore, d: Result<u32>|
                #[trigger] operator::ay_ai_8_rel(m1, m2, d) && match d {
                    Err(e) => r == Err::<Cycles, Exception>(e) && c1 == m2,
                    Ok(dv) => r == Ok::<Cycles, Exception>(Cycles(8))
                        && c1 == (ConfiguredCore { not_z_flag: dv & bit_mask(sv), ..m2 }),
                },
        }
}

/// BTST on a byte: Z tells whether the bit, numbered modulo 8, is clear.
pub fn btst_8_r_ai(core: &mut ConfiguredCore) -> (r: Result<Cycles>)
    requires
        old(core).wf(),
    ensures
        final(core).wf(),
        btst_8_r_ai_effect(*old(core), *final(core), r),
{
    let ghost c0 = *core;
    let s = operator::dx(core);
    let ghost m1 = *core;
    assert(operator::dx_rel(c0, m1, s));
    let sv = match s {
        Err(e) => {
            return Err(e);
        },
        Ok(v) => v,
    };
    let d = operator::ay_ai_8(core);
    let ghost m2 = *core;
    assert(operator::ay_ai_8_rel(m1, m2, d));
    match d {
        Err(e) => Err(e),
        Ok(dv) => {
            core.not_z_flag = dv & bit_of(sv);
            Ok(Cycles(8))
        },
    }
}

/// What `btst_8_r_pi` does: the core goes from `c0` to `c1` and `r` comes back.
pub open spec fn btst_8_r_pi_effect(c0: ConfiguredCore, c1: ConfiguredCore, r: Result<Cycles>) -> bool {
    exists|m1: ConfiguredCore, s: Result<u32>|
        #[trigger] operator::dx_rel(c0, m1, s) && match s {
            Err(e) => r == Err::<Cycles, Exception>(e) && c1 == m1,
            Ok(sv) => exists|m2: ConfiguredCore, d: Result<u32>|
                #[trigger] operator::ay_pi_8_rel(m1, m2, d) && match d {
                    Err(e) => r == Err::<Cycles, Exception>(e) && c1 == m2,
                    Ok(dv) => r == Ok::<Cycles, Exception>(Cycles(8))
                        && c1 == (ConfiguredCore { not_z_flag: dv & bit_mask(sv), ..m2 }),
                },
        }
}

/// BTST on a byte: Z tells whether the bit, numbered modulo 8, is clear.
pub fn btst_8_r_pi(core: &mut ConfiguredCore) -> (r: Result<Cycles>)
    requires
        old(core).wf(),
    ensures
        final(core).wf(),
        btst_8_r_pi_effect(*old(core), *final(core), r),
{
    let ghost c0 = *core;
    let s = operator::dx(core);
    let ghost m1 = *core;
    assert(operator::dx_rel(c0, m1, s));
    let sv = match s {
        Err(e) => {
            return Err(e);
        },
        Ok(v) => v,
    };
    let d = operator::ay_pi_8(core);
    let ghost m2 = *core;
    assert(operator::ay_pi_8_rel(m1, m2, d));
    match d {
        Err(e) => Err(e),
        Ok(dv) => {
            core.not_z_flag = dv & bit_of(sv);
            Ok(Cycles(8))
        },
    }
}

/// What `btst_8_r_pd` does: the core goes from `c0` to `c1` and `r` comes back.
pub open spec fn btst_8_r_pd_effect(c0: ConfiguredCore, c1: ConfiguredCore, r: Result<Cycles>) -> bool {
    exists|m1: ConfiguredCore, s: Result<u32>|
        #[trigger] operator::dx_rel(c0, m1, s) && match s {
            Err(e) => r == Err::<Cycles, Exception>(e) && c1 == m1,
            Ok(sv) => exists|m2: ConfiguredCore, d: Result<u32>|
                #[trigger] operator::ay_pd_8_rel(m1, m2, d) && match d {
                    Err(e) => r == Err::<Cycles, Exception>(e) && c1 == m2,
                    Ok(dv) => r == Ok::<Cycles, Exception>(Cycles(10))
                        && c1 == (ConfiguredCore { not_z_flag: dv & bit_mask(sv), ..m2 }),
                },
        }
}

/// BTST on a byte: Z tells whether the bit, numbered modulo 8, is clear.
pub fn btst_8_r_pd(core: &mut ConfiguredCore) -> (r: Result<Cycles>)
    requires
        old(core).wf(),
    ensures
        final(core).wf(),
        btst_8_r_pd_effect(*old(core), *final(core), r),
{
    let ghost c0 = *core;
    let s = operator::dx(core);
    let ghost m1 = *core;
    assert(operator::dx_rel(c0, m1, s));
    let sv = match s {
        Err(e) => {
            return Err(e);
        },
        Ok(v) => v,
    };
    let d = operator::ay_pd_8(core);
    let ghost m2 = *core;
    assert(operator::ay_pd_8_rel(m1, m2, d));
    match d {
        Err(e) => Err(e),
        Ok(dv) => {
            core.not_z_flag = dv & bit_of(sv);
            Ok(Cycles(10))
        },
    }
}

/// What `btst_8_r_di` does: the core goes from `c0` to `c1` and `r` comes back.
pub open spec fn btst_8_r_di_effect(c0: ConfiguredCore, c1: ConfiguredCore, r: Result<Cycles>) -> bool {
    exists|m1: ConfiguredCore, s: Result<u32>|
        #[trigger] operator::dx_rel(c0, m1, s) && match s {
            Err(e) => r == Err::<Cycles, Exception>(e) && c1 == m1,
            Ok(sv) => exists|m2: ConfiguredCore, d: Result<u32>|
                #[trigger] operator::ay_di_8_rel(m1, m2, d) && match d {
                    Err(e) => r == Err::<Cycles, Exception>(e) && c1 == m2,
                    Ok(dv) => r == Ok::<Cycles, Exception>(Cycles(12))
                        && c1 == (ConfiguredCore { not_z_flag: dv & bit_mask(sv), ..m2 }),
                },
        }
}

/// BTST on a byte: Z tells whether the bit, numbered modulo 8, is clear.
pub fn btst_8_r_di(core: &mut ConfiguredCore) -> (r: Result<Cycles>)
    requires
        old(core).wf(),
    ensures
        final(core).wf(),
        btst_8_r_di_effect(*old(core), *final(core), r),
{
    let ghost c0 = *core;
    let s = operator::dx(core);
    let ghost m1 = *core;
    assert(operator::dx_rel(c0, m1, s));
    let sv = match s {
        Err(e) => {
            return Err(e);
        },
        Ok(v) => v,
    };
    let d = operator::ay_di_8(core);
    let ghost m2 = *core;
    assert(operator::ay_di_8_rel(m1, m2, d));
    match d {
        Err(e) => Err(e),
        Ok(dv) => {
            core.not_z_flag = dv & bit_of(sv);
            Ok(Cycles(12))
        },
    }
}

/// What `btst_8_r_ix` does: the core goes from `c0` to `c1` and `r` comes back.
pub open spec fn btst_8_r_ix_effect(c0: ConfiguredCore, c1: ConfiguredCore, r: Result<Cycles>) -> bool {
    exists|m1: ConfiguredCore, s: Result<u32>|
        #[trigger] operator::dx_rel(c0, m1, s) && match s {
            Err(e) => r == Err::<Cycles, Exception>(e) && c1 == m1,
            Ok(sv) => exists|m2: ConfiguredCore, d: Result<u32>|
                #[trigger] operator::ay_ix_8_rel(m1, m2, d) && match d {
                    Err(e) => r == Err::<Cycles, Exception>(e) && c1 == m2,
                    Ok(dv) => r == Ok::<Cycles, Exception>(Cycles(14))
                        && c1 == (ConfiguredCore { not_z_flag: dv & bit_mask(sv), ..m2 }),
                },
        }
}

/// BTST on a byte: Z tells whether the bit, numbered modulo 8, is clear.
pub fn btst_8_r_ix(core: &mut ConfiguredCore) -> (r: Result<Cycles>)
    requires
        old(core).wf(),
    ensures
        final(core).wf(),
        btst_8_r_ix_effect(*old(core), *final(core), r),
{
    let ghost c0 = *core;
    let s = operator::dx(core);
    let ghost m1 = *core;
    assert(operator::dx_rel(c0, m1, s));
    let sv = match s {
        Err(e) => {
            return Err(e);
        },
        Ok(v) => v,
    };
    let d = operator::ay_ix_8(core);
    let ghost m2 = *core;
    assert(operator::ay_ix_8_rel(m1, m2, d));
    match d {
        Err(e) => Err(e),
        Ok(dv) => {
            core.not_z_flag = dv & bit_of(sv);
            Ok(Cycles(14))
        },
    }
}

/// What `btst_8_r_aw` does: the core goes from `c0` to `c1` and `r` comes back.
pub open spec fn btst_8_r_aw_effect(c0: ConfiguredCore, c1: ConfiguredCore, r: Result<Cycles>) -> bool {
    exists|m1: ConfiguredCore, s: Result<u32>|
        #[trigger] operator::dx_rel(c0, m1, s) && match s {
            Err(e) => r == Err::<Cycles, Exception>(e) && c1 == m1,
            Ok(sv) => exists|m2: ConfiguredCore, d: Result<u32>|
                #[trigger] operator::aw_8_rel(m1, m2, d) && match d {
                    Err(e) => r == Err::<Cycles, Exception>(e) && c1 == m2,
                    Ok(dv) => r == Ok::<Cycles, Exception>(Cycles(12))
                        && c1 == (ConfiguredCore { not_z_flag: dv & bit_mask(sv), ..m2 }),
                },
        }
}

/// BTST on a byte: Z tells whether the bit, numbered modulo 8, is clear.
pub fn btst_8_r_aw(core: &mut ConfiguredCore) -> (r: Result<Cycles>)
    requires
        old(core).wf(),
    ensures
        final(core).wf(),
        btst_8_r_aw_effect(*old(core), *final(core), r),
{
    let ghost c0 = *core;
    let s = operator::dx(core);
    let ghost m1 = *core;
    assert(operator::dx_rel(c0, m1, s));
    let sv = match s {
        Err(e) => {
            return Err(e);
        },
        Ok(v) => v,
    };
    let d = operator::aw_8(core);
    let ghost m2 = *core;
    assert(operator::aw_8_rel(m1, m2, d));
    match d {
        Err(e) => Err(e),
        Ok(dv) => {
            core.not_z_flag = dv & bit_of(sv);
            Ok(Cycles(12))
        },
    }
}

/// What `btst_8_r_al` does: the core goes from `c0` to `c1` and `r` comes back.
pub open spec fn btst_8_r_al_effect(c0: ConfiguredCore, c1: ConfiguredCore, r: Result<Cycles>) -> bool {
    exists|m1: ConfiguredCore, s: Result<u32>|
        #[trigger] operator::dx_rel(c0, m1, s) && match s {
            Err(e) => r == Err::<Cycles, Exception>(e) && c1 == m1,
            Ok(sv) => exists|m2: ConfiguredCore, d: Result<u32>|
                #[trigger] operator::al_8_rel(m1, m2, d) && match d {
                    Err(e) => r == Err::<Cycles, Exception>(e) && c1 == m2,
                    Ok(dv) => r == Ok::<Cycles, Exception>(Cycles(16))
                        && c1 == (ConfiguredCore { not_z_flag: dv & bit_mask(sv), ..m2 }),
                },
        }
}

/// BTST on a byte: Z tells whether the bit, numbered modulo 8, is clear.
pub fn btst_8_r_al(core: &mut ConfiguredCore) -> (r: Result<Cycles>)
    requires
        old(core).wf(),
    ensures
        final(core).wf(),
        btst_8_r_al_effect(*old(core), *final(core), r),
{
    let ghost c0 = *core;
    let s = operator::dx(core);
    let ghost m1 = *core;
    assert(operator::dx_rel(c0, m1, s));
    let sv = match s {
        Err(e) => {
            return Err(e);
        },
        Ok(v) => v,
    };
    let d = operator::al_8(core);
    let ghost m2 = *core;
    assert(operator::al_8_rel(m1, m2, d));
    match d {
        Err(e) => Err(e),
        Ok(dv) => {
            core.not_z_flag = dv & bit_of(sv);
            Ok(Cycles(16))
        },
    }
}

/// What `btst_8_r_pcdi` does: the core goes from `c0` to `c1` and `r` comes back.
pub open spec fn btst_8_r_pcdi_effect(c0: ConfiguredCore, c1: ConfiguredCore, r: Result<Cycles>) -> bool {
    exists|m1: ConfiguredCore, s: Result<u32>|
        #[trigger] operator::dx_rel(c0, m1, s) && match s {
            Err(e) => r == Err::<Cycles, Exception>(e) && c1 == m1,
            Ok(sv) => exists|m2: ConfiguredCore, d: Result<u32>|
                #[trigger] operator::pcdi_8_rel(m1, m2, d) && match d {
                    Err(e) => r == Err::<Cycles, Exception>(e) && c1 == m2,
                    Ok(dv) => r == Ok::<Cycles, Exception>(Cycles(12))
                        && c1 == (ConfiguredCore { not_z_flag: dv & bit_mask(sv), ..m2 }),
                },
        }
}

/// BTST on a byte: Z tells whether the bit, numbered modulo 8, is clear.
pub fn btst_8_r_pcdi(core: &mut ConfiguredCore) -> (r: Result<Cycles>)
    requires
        old(core).wf(),
    ensures
        final(core).wf(),
        btst_8_r_pcdi_effect(*old(core), *final(core), r),
{
    let ghost c0 = *core;
    let s = operator::dx(core);
    let ghost m1 = *core;
    assert(operator::dx_rel(c0, m1, s));
    let sv = match s {
        Err(e) => {
            return Err(e);
        },
        Ok(v) => v,
    };
    let d = operator::pcdi_8(core);
    let ghost m2 = *core;
    assert(operator::pcdi_8_rel(m1, m2, d));
    match d {
        Err(e) => Err(e),
        Ok(dv) => {
            core.not_z_flag = dv & bit_of(sv);
            Ok(Cycles(12))
        },
    }
}

/// What `btst_8_r_pcix` does: the core goes from `c0` to `c1` and `r` comes back.
pub open spec fn btst_8_r_pcix_effect(c0: ConfiguredCore, c1: ConfiguredCore, r: Result<Cycles>) -> bool {
    exists|m1: ConfiguredCore, s: Result<u32>|
        #[trigger] operator::dx_rel(c0, m1, s) && match s {
            Err(e) => r == Err::<Cycles, Exception>(e) && c1 == m1,
            Ok(sv) => exists|m2: ConfiguredCore, d: Result<u32>|
                #[trigger] operator::pcix_8_rel(m1, m2, d) && match d {
                    Err(e) => r == Err::<Cycles, Exception>(e) && c1 == m2,
                    Ok(dv) => r == Ok::<Cycles, Exception>(Cycles(14))
                        && c1 == (ConfiguredCore { not_z_flag: dv & bit_mask(sv), ..m2 }),
                },
        }
}

/// BTST on a byte: Z tells whether the bit, numbered modulo 8, is clear.
pub fn btst_8_r_pcix(core: &mut ConfiguredCore) -> (r: Result<Cycles>)
    requires
        old(core).wf(),
    ensures
        final(core).wf(),
        btst_8_r_pcix_effect(*old(core), *final(core), r),
{
    let ghost c0 = *core;
    let s = operator::dx(core);
    let ghost m1 = *core;
    assert(operator::dx_rel(c0, m1, s));
    let sv = match s {
        Err(e) => {
            return Err(e);
        },
        Ok(v) => v,
    };
    let d = operator::pcix_8(core);
    let ghost m2 = *core;
    assert(operator::pcix_8_rel(m1, m2, d));
    match d {
        Err(e) => Err(e),
        Ok(dv) => {
            core.not_z_flag = dv & bit_of(sv);
            Ok(Cycles(14))
        },
    }
}

/// What `btst_8_r_imm` does: the core goes from `c0` to `c1` and `r` comes back.
pub open spec fn btst_8_r_imm_effect(c0: ConfiguredCore, c1: ConfiguredCore, r: Result<Cycles>) -> bool {
    exists|m1: ConfiguredCore, s: Result<u32>|
        #[trigger] operator::dx_rel(c0, m1, s) && match s {
            Err(e) => r == Err::<Cycles, Exception>(e) && c1 == m1,
            Ok(sv) => exists|m2: ConfiguredCore, d: Result<u32>|
                #[trigger] operator::imm_8_rel(m1, m2, d) && match d {
                    Err(e) => r == Err::<Cycles, Exception>(e) && c1 == m2,
                    Ok(dv) => r == Ok::<Cycles, Exception>(Cycles(8))
                        && c1 == (ConfiguredCore { not_z_flag: dv & bit_mask(sv), ..m2 }),
                },
        }
}

/// BTST on a byte: Z tells whether the bit, numbered modulo 8, is clear.
pub fn btst_8_r_imm(core: &mut ConfiguredCore) -> (r: Result<Cycles>)
    requires
        old(core).wf(),
    ensures
        final(core).wf(),
        btst_8_r_imm_effect(*old(core), *final(core), r),
{
    let ghost c0 = *core;
    let s = operator::dx(core);
    let ghost m1 = *core;
    assert(operator::dx_rel(c0, m1, s));
    let sv = match s {
        Err(e) => {
            return Err(e);
        },
        Ok(v) => v,
    };
    let d = operator::imm_8(core);
    let ghost m2 = *core;
    assert(operator::imm_8_rel(m1, m2, d));
    match d {
        Err(e) => Err(e),
        Ok(dv) => {
            core.not_z_flag = dv & bit_of(sv);
            Ok(Cycles(8))
        },
    }
}

/// What `btst_8_s_ai` does: the core goes from `c0` to `c1` and `r` comes back.
pub open spec fn btst_8_s_ai_effect(c0: ConfiguredCore, c1: ConfiguredCore, r: Result<Cycles>) -> bool {
    exists|m1: ConfiguredCore, s: Result<u32>|
        #[trigger] operator::imm_8_rel(c0, m1, s) && match s {
            Err(e) => r == Err::<Cycles, Exception>(e) && c1 == m1,
            Ok(sv) => exists|m2: ConfiguredCore, d: Result<u32>|
                #[trigger] operator::ay_ai_8_rel(m1, m2, d) && match d {
                    Err(e) => r == Err::<Cycles, Exception>(e) && c1 == m2,
                    Ok(dv) => r == Ok::<Cycles, Exception>(Cycles(12))
                        && c1 == (ConfiguredCore { not_z_flag: dv & bit_mask(sv), ..m2 }),
                },
        }
}

/// BTST on a byte: Z tells whether the bit, numbered modulo 8, is clear.
pub fn btst_8_s_ai(core: &mut ConfiguredCore) -> (r: Result<Cycles>)
    requires
        old(core).wf(),
    ensures
        final(core).wf(),
        btst_8_s_ai_effect(*old(core), *final(core), r),
{
    let ghost c0 = *core;
    let s = operator::imm_8(core);
    let ghost m1 = *core;
    assert(operator::imm_8_rel(c0, m1, s));
    let sv = match s {
        Err(e) => {
            return Err(e);
        },
        Ok(v) => v,
    };
    let d = operator::ay_ai_8(core);
    let ghost m2 = *core;
    assert(operator::ay_ai_8_rel(m1, m2, d));
    match d {
        Err(e) => Err(e),
        Ok(dv) => {
            core.not_z_flag = dv & bit_of(sv);
            Ok(Cycles(12))
        },
    }
}

/// What `btst_8_s_pi` does: the core goes from `c0` to `c1` and `r` comes back.
pub open spec fn btst_8_s_pi_effect(c0: ConfiguredCore, c1: ConfiguredCore, r: Result<Cycles>) -> bool {
    exists|m1: ConfiguredCore, s: Result<u32>|
        #[trigger] operator::imm_8_rel(c0, m1, s) && match s {
            Err(e) => r == Err::<Cycles, Exception>(e) && c1 == m1,
            Ok(sv) => exists|m2: ConfiguredCore, d: Result<u32>|
                #[trigger] operator::ay_pi_8_rel(m1, m2, d) && match d {
                    Err(e) => r == Err::<Cycles, Exception>(e) && c1 == m2,
                    Ok(dv) => r == Ok::<Cycles, Exception>(Cycles(12))
                        && c1 == (ConfiguredCore { not_z_flag: dv & bit_mask(sv), ..m2 }),
                },
        }
}

/// BTST on a byte: Z tells whether the bit, numbered modulo 8, is clear.
pub fn btst_8_s_pi(core: &mut ConfiguredCore) -> (r: Result<Cycles>)
    requires
        old(core).wf(),
    ensures
        final(core).wf(),
        btst_8_s_pi_effect(*old(core), *final(core), r),
{
    let ghost c0 = *core;
    let s = operator::imm_8(core);
    let ghost m1 = *core;
    assert(operator::imm_8_rel(c0, m1, s));
    let sv = match s {
        Err(e) => {
            return Err(e);
        },
        Ok(v) => v,
    };
    let d = operator::ay_pi_8(core);
    let ghost m2 = *core;
    assert(operator::ay_pi_8_rel(m1, m2, d));
    match d {
        Err(e) => Err(e),
        Ok(dv) => {
            core.not_z_flag = dv & bit_of(sv);
            Ok(Cycles(12))
        },
    }
}

/// What `btst_8_s_pd` does: the core goes from `c0` to `c1` and `r` comes back.
pub open spec fn btst_8_s_pd_effect(c0: ConfiguredCore, c1: ConfiguredCore, r: Result<Cycles>) -> bool {
    exists|m1: ConfiguredCore, s: Result<u32>|
        #[trigger] operator::imm_8_rel(c0, m1, s) && match s {
            Err(e) => r == Err::<Cycles, Exception>(e) && c1 == m1,
            Ok(sv) => exists|m2: ConfiguredCore, d: Result<u32>|
                #[trigger] operator::ay_pd_8_rel(m1, m2, d) && match d {
                    Err(e) => r == Err::<Cycles, Exception>(e) && c1 == m2,
                    Ok(dv) => r == Ok::<Cycles, Exception>(Cycles(14))
                        && c1 == (ConfiguredCore { not_z_flag: dv & bit_mask(sv), ..m2 }),
                },
        }
}

/// BTST on a byte: Z tells whether the bit, numbered modulo 8, is clear.
pub fn btst_8_s_pd(core: &mut ConfiguredCore) -> (r: Result<Cycles>)
    requires
        old(core).wf(),
    ensures
        final(core).wf(),
        btst_8_s_pd_effect(*old(core), *final(core), r),
{
    let ghost c0 = *core;
    let s = operator::imm_8(core);
    let ghost m1 = *core;
    assert(operator::imm_8_rel(c0, m1, s));
    let sv = match s {
        Err(e) => {
            return Err(e);
        },
        Ok(v) => v,
    };
    let d = operator::ay_pd_8(core);
    let ghost m2 = *core;
    assert(operator::ay_pd_8_rel(m1, m2, d));
    match d {
        Err(e) => Err(e),
        Ok(dv) => {
            core.not_z_flag = dv & bit_of(sv);
            Ok(Cycles(14))
        },
    }
}

/// What `btst_8_s_di` does: the core goes from `c0` to `c1` and `r` comes back.
pub open spec fn btst_8_s_di_effect(c0: ConfiguredCore, c1: ConfiguredCore, r: Result<Cycles>) -> bool {
    exists|m1: ConfiguredCore, s: Result<u32>|
        #[trigger] operator::imm_8_rel(c0, m1, s) && match s {
            Err(e) => r == Err::<Cycles, Exception>(e) && c1 == m1,
            Ok(sv) => exists|m2: ConfiguredCore, d: Result<u32>|
                #[trigger] operator::ay_di_8_rel(m1, m2, d) && match d {
                    Err(e) => r == Err::<Cycles, Exception>(e) && c1 == m2,
                    Ok(dv) => r == Ok::<Cycles, Exception>(Cycles(16))
                        && c1 == (ConfiguredCore { not_z_flag: dv & bit_mask(sv), ..m2 }),
                },
        }
}

/// BTST on a byte: Z tells whether the bit, numbered modulo 8, is clear.
pub fn btst_8_s_di(core: &mut ConfiguredCore) -> (r: Result<Cycles>)
    requires
        old(core).wf(),
    ensures
        final(core).wf(),
        btst_8_s_di_effect(*old(core), *final(core), r),
{
    let ghost c0 = *core;
    let s = operator::imm_8(core);
    let ghost m1 = *core;
    assert(operator::imm_8_rel(c0, m1, s));
    let sv = match s {
        Err(e) => {
            return Err(e);
        },
        Ok(v) => v,
    };
    let d = operator::ay_di_8(core);
    let ghost m2 = *core;
    assert(operator::ay_di_8_rel(m1, m2, d));
    match d {
        Err(e) => Err(e),
        Ok(dv) => {
            core.not_z_flag = dv & bit_of(sv);
            Ok(Cycles(16))
        },
    }
}

/// What `btst_8_s_ix` does: the core goes from `c0` to `c1` and `r` comes back.
pub open spec fn btst_8_s_ix_effect(c0: ConfiguredCore, c1: ConfiguredCore, r: Result<Cycles>) -> bool {
    exists|m1: ConfiguredCore, s: Result<u32>|
        #[trigger] operator::imm_8_rel(c0, m1, s) && match s {
            Err(e) => r == Err::<Cycles, Exception>(e) && c1 == m1,
            Ok(sv) => exists|m2: ConfiguredCore, d: Result<u32>|
                #[trigger] operator::ay_ix_8_rel(m1, m2, d) && match d {
                    Err(e) => r == Err::<Cycles, Exception>(e) && c1 == m2,
                    Ok(dv) => r == Ok::<Cycles, Exception>(Cycles(18))
                        && c1 == (ConfiguredCore { not_z_flag: dv & bit_mask(sv), ..m2 }),
                },
        }
}

/// BTST on a byte: Z tells whether the bit, numbered modulo 8, is clear.
pub fn btst_8_s_ix(core: &mut ConfiguredCore) -> (r: Result<Cycles>)
    requires
        old(core).wf(),
    ensures
        final(core).wf(),
        btst_8_s_ix_effect(*old(core), *final(core), r),
{
    let ghost c0 = *core;
    let s = operator::imm_8(core);
    let ghost m1 = *core;
    assert(operator::imm_8_rel(c0, m1, s));
    let sv = match s {
        Err(e) => {
            return Err(e);
        },
        Ok(v) => v,
    };
    let d = operator::ay_ix_8(core);
    let ghost m2 = *core;
    assert(operator::ay_ix_8_rel(m1, m2, d));
    match d {
        Err(e) => Err(e),
        Ok(dv) => {
            core.not_z_flag = dv & bit_of(sv);
            Ok(Cycles(18))
        },
    }
}

/// What `btst_8_s_aw` does: the core goes from `c0` to `c1` and `r` comes back.
pub open spec fn btst_8_s_aw_effect(c0: ConfiguredCore, c1: ConfiguredCore, r: Result<Cycles>) -> bool {
    exists|m1: ConfiguredCore, s: Result<u32>|
        #[trigger] operator::imm_8_rel(c0, m1, s) && match s {
            Err(e) => r == Err::<Cycles, Exception>(e) && c1 == m1,
            Ok(sv) => exists|m2: ConfiguredCore, d: Result<u32>|
                #[trigger] operator::aw_8_rel(m1, m2, d) && match d {
                    Err(e) => r == Err::<Cycles, Exception>(e) && c1 == m2,
                    Ok(dv) => r == Ok::<Cycles, Exception>(Cycles(16))
                        && c1 == (ConfiguredCore { not_z_flag: dv & bit_mask(sv), ..m2 }),
                },
        }
}

/// BTST on a byte: Z tells whether the bit, numbered modulo 8, is clear.
pub fn btst_8_s_aw(core: &mut ConfiguredCore) -> (r: Result<Cycles>)
    requires
        old(core).wf(),
    ensures
        final(core).wf(),
        btst_8_s_aw_effect(*old(core), *final(core), r),
{
    let ghost c0 = *core;
    let s = operator::imm_8(core);
    let ghost m1 = *core;
    assert(operator::imm_8_rel(c0, m1, s));
    let sv = match s {
        Err(e) => {
            return Err(e);
        },
        Ok(v) => v,
    };
    let d = operator::aw_8(core);
    let ghost m2 = *core;
    assert(operator::aw_8_rel(m1, m2, d));
    match d {
        Err(e) => Err(e),
        Ok(dv) => {
            core.not_z_flag = dv & bit_of(sv);
            Ok(Cycles(16))
        },
    }
}

/// What `btst_8_s_al` does: the core goes from `c0` to `c1` and `r` comes back.
pub open spec fn btst_8_s_al_effect(c0: ConfiguredCore, c1: ConfiguredCore, r: Result<Cycles>) -> bool {
    exists|m1: ConfiguredCore, s: Result<u32>|
        #[trigger] operator::imm_8_rel(c0, m1, s) && match s {
            Err(e) => r == Err::<Cycles, Exception>(e) && c1 == m1,
            Ok(sv) => exists|m2: ConfiguredCore, d: Result<u32>|
                #[trigger] operator::al_8_rel(m1, m2, d) && match d {
                    Err(e) => r == Err::<Cycles, Exception>(e) && c1 == m2,
                    Ok(dv) => r == Ok::<Cycles, Exception>(Cycles(20))
                        && c1 == (ConfiguredCore { not_z_flag: dv & bit_mask(sv), ..m2 }),
                },
        }
}

/// BTST on a byte: Z tells whether the bit, numbered modulo 8, is clear.
pub fn btst_8_s_al(core: &mut ConfiguredCore) -> (r: Result<Cycles>)
    requires
        old(core).wf(),
    ensures
        final(core).wf(),
        btst_8_s_al_effect(*old(core), *final(core), r),
{
    let ghost c0 = *core;
    let s = operator::imm_8(core);
    let ghost m1 = *core;
    assert(operator::imm_8_rel(c0, m1, s));
    let sv = match s {
        Err(e) => {
            return Err(e);
        },
        Ok(v) => v,
    };
    let d = operator::al_8(core);
    let ghost m2 = *core;
    assert(operator::al_8_rel(m1, m2, d));
    match d {
        Err(e) => Err(e),
        Ok(dv) => {
            core.not_z_flag = dv & bit_of(sv);
            Ok(Cycles(20))
        },
    }
}

/// What `btst_8_s_pcdi` does: the core goes from `c0` to `c1` and `r` comes back.
pub open spec fn btst_8_s_pcdi_effect(c0: ConfiguredCore, c1: ConfiguredCore, r: Result<Cycles>) -> bool {
    exists|m1: ConfiguredCore, s: Result<u32>|
        #[trigger] operator::imm_8_rel(c0, m1, s) && match s {
            Err(e) => r == Err::<Cycles, Exception>(e) && c1 == m1,
            Ok(sv) => exists|m2: ConfiguredCore, d: Result<u32>|
                #[trigger] operator::pcdi_8_rel(m1, m2, d) && match d {
                    Err(e) => r == Err::<Cycles, Exception>(e) && c1 == m2,
                    Ok(dv) => r == Ok::<Cycles, Exception>(Cycles(16))
                        && c1 == (ConfiguredCore { not_z_flag: dv & bit_mask(sv), ..m2 }),
                },
        }
}

/// BTST on a byte: Z tells whether the bit, numbered modulo 8, is clear.
pub fn btst_8_s_pcdi(core: &mut ConfiguredCore) -> (r: Result<Cycles>)
    requires
        old(core).wf(),
    ensures
        final(core).wf(),
        btst_8_s_pcdi_effect(*old(core), *final(core), r),
{
    let ghost c0 = *core;
    let s = operator::imm_8(core);
    let ghost m1 = *core;
    assert(operator::imm_8_rel(c0, m1, s));
    let sv = match s {
        Err(e) => {
            return Err(e);
        },
        Ok(v) => v,
    };
    let d = operator::pcdi_8(core);
    let ghost m2 = *core;
    assert(operator::pcdi_8_rel(m1, m2, d));
    match d {
        Err(e) => Err(e),
        Ok(dv) => {
            core.not_z_flag = dv & bit_of(sv);
            Ok(Cycles(16))
        },
    }
}

/// What `btst_8_s_pcix` does: the core goes from `c0` to `c1` and `r` comes back.
pub open spec fn btst_8_s_pcix_effect(c0: ConfiguredCore, c1: ConfiguredCore, r: Result<Cycles>) -> bool {
    exists|m1: ConfiguredCore, s: Result<u32>|
        #[trigger] operator::imm_8_rel(c0, m1, s) && match s {
            Err(e) => r == Err::<Cycles, Exception>(e) && c1 == m1,
            Ok(sv) => exists|m2: ConfiguredCore, d: Result<u32>|
                #[trigger] operator::pcix_8_rel(m1, m2, d) && match d {
                    Err(e) => r == Err::<Cycles, Exception>(e) && c1 == m2,
                    Ok(dv) => r == Ok::<Cycles, Exception>(Cycles(18))
                        && c1 == (ConfiguredCore { not_z_flag: dv & bit_mask(sv), ..m2 }),
                },
        }
}

/// BTST on a byte: Z tells whether the bit, numbered modulo 8, is clear.
pub fn btst_8_s_pcix(core: &mut ConfiguredCore) -> (r: Result<Cycles>)
    requires
        old(core).wf(),
    ensures
        final(core).wf(),
        btst_8_s_pcix_effect(*old(core), *final(core), r),
{
    let ghost c0 = *core;
    let s = operator::imm_8(core);
    let ghost m1 = *core;
    assert(operator::imm_8_rel(c0, m1, s));
    let sv = match s {
        Err(e) => {
            return Err(e);
        },
        Ok(v) => v,
    };
    let d = operator::pcix_8(core);
    let ghost m2 = *core;
    assert(operator::pcix_8_rel(m1, m2, d));
    match d {
        Err(e) => Err(e),
        Ok(dv) => {
            core.not_z_flag = dv & bit_of(sv);
            Ok(Cycles(18))
        },
    }
}

/// What `btst_8_s_imm` does: the core goes from `c0` to `c1` and `r` comes back.
pub open spec fn btst_8_s_imm_effect(c0: ConfiguredCore, c1: ConfiguredCore, r: Result<Cycles>) -> bool {
    exists|m1: ConfiguredCore, s: Result<u32>|
        #[trigger] operator::imm_8_rel(c0, m1, s) && match s {
            Err(e) => r == Err::<Cycles, Exception>(e) && c1 == m1,
            Ok(sv) => exists|m2: ConfiguredCore, d: Result<u32>|
                #[trigger] operator::imm_8_rel(m1, m2, d) && match d {
                    Err(e) => r == Err::<Cycles, Exception>(e) && c1 == m2,
                    Ok(dv) => r == Ok::<Cycles, Exception>(Cycles(12))
                        && c1 == (ConfiguredCore { not_z_flag: dv & bit_mask(sv), ..m2 }),
                },
        }
}

/// BTST on a byte: Z tells whether the bit, numbered modulo 8, is clear.
pub fn btst_8_s_imm(core: &mut ConfiguredCore) -> (r: Result<Cycles>)
    requires
        old(core).wf(),
    ensures
        final(core).wf(),
        btst_8_s_imm_effect(*old(core), *final(core), r),
{
    let ghost c0 = *core;
    let s = operator::imm_8(core);
    let ghost m1 = *core;
    assert(operator::imm_8_rel(c0, m1, s));
    let sv = match s {
        Err(e) => {
            return Err(e);
        },
        Ok(v) => v,
    };
    let d = operator::imm_8(core);
    let ghost m2 = *core;
    assert(operator::imm_8_rel(m1, m2, d));
    match d {
        Err(e) => Err(e),
        Ok(dv) => {
            core.not_z_flag = dv & bit_of(sv);
            Ok(Cycles(12))
        },
    }
}

/// BTST, BCHG, BCLR and BSET on a byte in memory.
#[derive(Clone, Copy, Debug, PartialEq, Eq, Structural)]
pub enum BitOp {
    Bchg8RAi,
    Bchg8RPi,
    Bchg8RPd,
    Bchg8RDi,
    Bchg8RIx,
    Bchg8RAw,
    Bchg8RAl,
    Bchg8SAi,
    Bchg8SPi,
    Bchg8SPd,
    Bchg8SDi,
    Bchg8SIx,
    Bchg8SAw,
    Bchg8SAl,
    Bclr8RAi,
    Bclr8RPi,
    Bclr8RPd,
    Bclr8RDi,
    Bclr8RIx,
    Bclr8RAw,
    Bclr8RAl,
    Bclr8SAi,
    Bclr8SPi,
    Bclr8SPd,
    Bclr8SDi,
    Bclr8SIx,
    Bclr8SAw,
    Bclr8SAl,
    Bset8RAi,
    Bset8RPi,
    Bset8RPd,
    Bset8RDi,
    Bset8RIx,
    Bset8RAw,
    Bset8RAl,
    Bset8SAi,
    Bset8SPi,
    Bset8SPd,
    Bset8SDi,
    Bset8SIx,
    Bset8SAw,
    Bset8SAl,
    Btst8RAi,
    Btst8RPi,
    Btst8RPd,
    Btst8RDi,
    Btst8RIx,
    Btst8RAw,
    Btst8RAl,
    Btst8RPcdi,
    Btst8RPcix,
    Btst8RImm,
    Btst8SAi,
    Btst8SPi,
    Btst8SPd,
    Btst8SDi,
    Btst8SIx,
    Btst8SAw,
    Btst8SAl,
    Btst8SPcdi,
    Btst8SPcix,
    Btst8SImm,
}

/// What the instruction `op` does: the core goes from `c0` to `c1` and `r`
/// comes back.
pub open spec fn effect(op: BitOp, c0: ConfiguredCore, c1: ConfiguredCore, r: Result<Cycles>) -> bool {
    match op {
        BitOp::Bchg8RAi => bchg_8_r_ai_effect(c0, c1, r),
        BitOp::Bchg8RPi => bchg_8_r_pi_effect(c0, c1, r),
        BitOp::Bchg8RPd => bchg_8_r_pd_effect(c0, c1, r),
        BitOp::Bchg8RDi => bchg_8_r_di_effect(c0, c1, r),
        BitOp::Bchg8RIx => bchg_8_r_ix_effect(c0, c1, r),
        BitOp::Bchg8RAw => bchg_8_r_aw_effect(c0, c1, r),
        BitOp::Bchg8RAl => bchg_8_r_al_effect(c0, c1, r),
        BitOp::Bchg8SAi => bchg_8_s_ai_effect(c0, c1, r),
        BitOp::Bchg8SPi => bchg_8_s_pi_effect(c0, c1, r),
        BitOp::Bchg8SPd => bchg_8_s_pd_effect(c0, c1, r),
        BitOp::Bchg8SDi => bchg_8_s_di_effect(c0, c1, r),
        BitOp::Bchg8SIx => bchg_8_s_ix_effect(c0, c1, r),
        BitOp::Bchg8SAw => bchg_8_s_aw_effect(c0, c1, r),
        BitOp::Bchg8SAl => bchg_8_s_al_effect(c0, c1, r),
        BitOp::Bclr8RAi => bclr_8_r_ai_effect(c0, c1, r),
        BitOp::Bclr8RPi => bclr_8_r_pi_effect(c0, c1, r),
        BitOp::Bclr8RPd => bclr_8_r_pd_effect(c0, c1, r),
        BitOp::Bclr8RDi => bclr_8_r_di_effect(c0, c1, r),
        BitOp::Bclr8RIx => bclr_8_r_ix_effect(c0, c1, r),
        BitOp::Bclr8RAw => bclr_8_r_aw_effect(c0, c1, r),
        BitOp::Bclr8RAl => bclr_8_r_al_effect(c0, c1, r),
        BitOp::Bclr8SAi => bclr_8_s_ai_effect(c0, c1, r),
        BitOp::Bclr8SPi => bclr_8_s_pi_effect(c0, c1, r),
        BitOp::Bclr8SPd => bclr_8_s_pd_effect(c0, c1, r),
        BitOp::Bclr8SDi => bclr_8_s_di_effect(c0, c1, r),
        BitOp::Bclr8SIx => bclr_8_s_ix_effect(c0, c1, r),
        BitOp::Bclr8SAw => bclr_8_s_aw_effect(c0, c1, r),
        BitOp::Bclr8SAl => bclr_8_s_al_effect(c0, c1, r),
        BitOp::Bset8RAi => bset_8_r_ai_effect(c0, c1, r),
        BitOp::Bset8RPi => bset_8_r_pi_effect(c0, c1, r),
        BitOp::Bset8RPd => bset_8_r_pd_effect(c0, c1, r),
        BitOp::Bset8RDi => bset_8_r_di_effect(c0, c1, r),
        BitOp::Bset8RIx => bset_8_r_ix_effect(c0, c1, r),
        BitOp::Bset8RAw => bset_8_r_aw_effect(c0, c1, r),
        BitOp::Bset8RAl => bset_8_r_al_effect(c0, c1, r),
        BitOp::Bset8SAi => bset_8_s_ai_effect(c0, c1, r),
        BitOp::Bset8SPi => bset_8_s_pi_effect(c0, c1, r),
        BitOp::Bset8SPd => bset_8_s_pd_effect(c0, c1, r),
        BitOp::Bset8SDi => bset_8_s_di_effect(c0, c1, r),
        BitOp::Bset8SIx => bset_8_s_ix_effect(c0, c1, r),
        BitOp::Bset8SAw => bset_8_s_aw_effect(c0, c1, r),
        BitOp::Bset8SAl => bset_8_s_al_effect(c0, c1, r),
        BitOp::Btst8RAi => btst_8_r_ai_effect(c0, c1, r),
        BitOp::Btst8RPi => btst_8_r_pi_effect(c0, c1, r),
        BitOp::Btst8RPd => btst_8_r_pd_effect(c0, c1, r),
        BitOp::Btst8RDi => btst_8_r_di_effect(c0, c1, r),
        BitOp::Btst8RIx => btst_8_r_ix_effect(c0, c1, r),
        BitOp::Btst8RAw => btst_8_r_aw_effect(c0, c1, r),
        BitOp::Btst8RAl => btst_8_r_al_effect(c0, c1, r),
        BitOp::Btst8RPcdi => btst_8_r_pcdi_effect(c0, c1, r),
        BitOp::Btst8RPcix => btst_8_r_pcix_effect(c0, c1, r),
        BitOp::Btst8RImm => btst_8_r_imm_effect(c0, c1, r),
        BitOp::Btst8SAi => btst_8_s_ai_effect(c0, c1, r),
        BitOp::Btst8SPi => btst_8_s_pi_effect(c0, c1, r),
        BitOp::Btst8SPd => btst_8_s_pd_effect(c0, c1, r),
        BitOp::Btst8SDi => btst_8_s_di_effect(c0, c1, r),
        BitOp::Btst8SIx => btst_8_s_ix_effect(c0, c1, r),
        BitOp::Btst8SAw => btst_8_s_aw_effect(c0, c1, r),
        BitOp::Btst8SAl => btst_8_s_al_effect(c0, c1, r),
        BitOp::Btst8SPcdi => btst_8_s_pcdi_effect(c0, c1, r),
        BitOp::Btst8SPcix => btst_8_s_pcix_effect(c0, c1, r),
        BitOp::Btst8SImm => btst_8_s_imm_effect(c0, c1, r),
    }
}

/// Runs the instruction `op` on the core.
pub fn run(core: &mut ConfiguredCore, op: BitOp) -> (r: Result<Cycles>)
    requires
        old(core).wf(),
    ensures
        final(core).wf(),
        effect(op, *old(core), *final(core), r),
{
    match op {
        BitOp::Bchg8RAi => bchg_8_r_ai(core),
        BitOp::Bchg8RPi => bchg_8_r_pi(core),
        BitOp::Bchg8RPd => bchg_8_r_pd(core),
        BitOp::Bchg8RDi => bchg_8_r_di(core),
        BitOp::Bchg8RIx => bchg_8_r_ix(core),
        BitOp::Bchg8RAw => bchg_8_r_aw(core),
        BitOp::Bchg8RAl => bchg_8_r_al(core),
        BitOp::Bchg8SAi => bchg_8_s_ai(core),
        BitOp::Bchg8SPi => bchg_8_s_pi(core),
        BitOp::Bchg8SPd => bchg_8_s_pd(core),
        BitOp::Bchg8SDi => bchg_8_s_di(core),
        BitOp::Bchg8SIx => bchg_8_s_ix(core),
        BitOp::Bchg8SAw => bchg_8_s_aw(core),
        BitOp::Bchg8SAl => bchg_8_s_al(core),
        BitOp::Bclr8RAi => bclr_8_r_ai(core),
        BitOp::Bclr8RPi => bclr_8_r_pi(core),
        BitOp::Bclr8RPd => bclr_8_r_pd(core),
        BitOp::Bclr8RDi => bclr_8_r_di(core),
        BitOp::Bclr8RIx => bclr_8_r_ix(core),
        BitOp::Bclr8RAw => bclr_8_r_aw(core),
        BitOp::Bclr8RAl => bclr_8_r_al(core),
        BitOp::Bclr8SAi => bclr_8_s_ai(core),
        BitOp::Bclr8SPi => bclr_8_s_pi(core),
        BitOp::Bclr8SPd => bclr_8_s_pd(core),
        BitOp::Bclr8SDi => bclr_8_s_di(core),
        BitOp::Bclr8SIx => bclr_8_s_ix(core),
        BitOp::Bclr8SAw => bclr_8_s_aw(core),
        BitOp::Bclr8SAl => bclr_8_s_al(core),
        BitOp::Bset8RAi => bset_8_r_ai(core),
        BitOp::Bset8RPi => bset_8_r_pi(core),
        BitOp::Bset8RPd => bset_8_r_pd(core),
        BitOp::Bset8RDi => bset_8_r_di(core),
        BitOp::Bset8RIx => bset_8_r_ix(core),
        BitOp::Bset8RAw => bset_8_r_aw(core),
        BitOp::Bset8RAl => bset_8_r_al(core),
        BitOp::Bset8SAi => bset_8_s_ai(core),
        BitOp::Bset8SPi => bset_8_s_pi(core),
        BitOp::Bset8SPd => bset_8_s_pd(core),
        BitOp::Bset8SDi => bset_8_s_di(core),
        BitOp::Bset8SIx => bset_8_s_ix(core),
        BitOp::Bset8SAw => bset_8_s_aw(core),
        BitOp::Bset8SAl => bset_8_s_al(core),
        BitOp::Btst8RAi => btst_8_r_ai(core),
        BitOp::Btst8RPi => btst_8_r_pi(core),
        BitOp::Btst8RPd => btst_8_r_pd(core),
        BitOp::Btst8RDi => btst_8_r_di(core),
        BitOp::Btst8RIx => btst_8_r_ix(core),
        BitOp::Btst8RAw => btst_8_r_aw(core),
        BitOp::Btst8RAl => btst_8_r_al(core),
        BitOp::Btst8RPcdi => btst_8_r_pcdi(core),
        BitOp::Btst8RPcix => btst_8_r_pcix(core),
        BitOp::Btst8RImm => btst_8_r_imm(core),
        BitOp::Btst8SAi => btst_8_s_ai(core),
        BitOp::Btst8SPi => btst_8_s_pi(core),
        BitOp::Btst8SPd => btst_8_s_pd(core),
        BitOp::Btst8SDi => btst_8_s_di(core),
        BitOp::Btst8SIx => btst_8_s_ix(core),
        BitOp::Btst8SAw => btst_8_s_aw(core),
        BitOp::Btst8SAl => btst_8_s_al(core),
        BitOp::Btst8SPcdi => btst_8_s_pcdi(core),
        BitOp::Btst8SPcix => btst_8_s_pcix(core),
        BitOp::Btst8SImm => btst_8_s_imm(core),
    }
}

} // verus!
