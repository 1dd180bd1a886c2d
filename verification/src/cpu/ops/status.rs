use vstd::prelude::*;
use crate::cpu::{sr_set, ConfiguredCore, Cycles, Exception, Result, AccessType, data_written, pushed_32, branched, wadd, wsub, ir_dx, ir_dy, ir_ax, ir_ay, reg_dx, reg_dy, reg_ax, reg_ay, condition};
use crate::cpu::effective_address;
use crate::cpu::operator;
use crate::cpu::ops::common;
use crate::cpu::ops::{reg_set, merged, merge, set_reg, write_sized, stack_error, stack_fault, sp_odd, privilege_violation, short_offset, long_branch_done};

verus! {

/// What `move_16_toc_dn` does: the core goes from `c0` to `c1` and `r` comes back.
pub open spec fn move_16_toc_dn_effect(c0: ConfiguredCore, c1: ConfiguredCore, r: Result<Cycles>) -> bool {
    exists|mid: ConfiguredCore, src: Result<u32>|
        #[trigger] operator::dy_rel(c0, mid, src) && match src {
            Err(e) => r == Err::<Cycles, Exception>(e) && c1 == mid,
            Ok(v) => {
                r == Ok::<Cycles, Exception>(Cycles(12)) && sr_set(mid, c1, mid.ccr_sr(v as u16))
            },
        }
}

/// MOVE to CCR: the low byte of the source into the condition codes.
pub fn move_16_toc_dn(core: &mut ConfiguredCore) -> (r: Result<Cycles>)
    requires
        old(core).wf(),
    ensures
        final(core).wf(),
        move_16_toc_dn_effect(*old(core), *final(core), r),
{
    let ghost c0 = *core;
    let src = operator::dy(core);
    let ghost mid = *core;
    assert(operator::dy_rel(c0, mid, src));
    match src {
        Err(e) => Err(e),
        Ok(v) => {
            core.ccr_to_flags(v as u16);
            Ok(Cycles(12))
        },
    }
}

/// What `move_16_toc_ai` does: the core goes from `c0` to `c1` and `r` comes back.
pub open spec fn move_16_toc_ai_effect(c0: ConfiguredCore, c1: ConfiguredCore, r: Result<Cycles>) -> bool {
    exists|mid: ConfiguredCore, src: Result<u32>|
        #[trigger] operator::ay_ai_16_rel(c0, mid, src) && match src {
            Err(e) => r == Err::<Cycles, Exception>(e) && c1 == mid,
            Ok(v) => {
                r == Ok::<Cycles, Exception>(Cycles(16)) && sr_set(mid, c1, mid.ccr_sr(v as u16))
            },
        }
}

/// MOVE to CCR: the low byte of the source into the condition codes.
pub fn move_16_toc_ai(core: &mut ConfiguredCore) -> (r: Result<Cycles>)
    requires
        old(core).wf(),
    ensures
        final(core).wf(),
        move_16_toc_ai_effect(*old(core), *final(core), r),
{
    let ghost c0 = *core;
    let src = operator::ay_ai_16(core);
    let ghost mid = *core;
    assert(operator::ay_ai_16_rel(c0, mid, src));
    match src {
        Err(e) => Err(e),
        Ok(v) => {
            core.ccr_to_flags(v as u16);
            Ok(Cycles(16))
        },
    }
}

/// What `move_16_toc_pi` does: the core goes from `c0` to `c1` and `r` comes back.
pub open spec fn move_16_toc_pi_effect(c0: ConfiguredCore, c1: ConfiguredCore, r: Result<Cycles>) -> bool {
    exists|mid: ConfiguredCore, src: Result<u32>|
        #[trigger] operator::ay_pi_16_rel(c0, mid, src) && match src {
            Err(e) => r == Err::<Cycles, Exception>(e) && c1 == mid,
            Ok(v) => {
                r == Ok::<Cycles, Exception>(Cycles(16)) && sr_set(mid, c1, mid.ccr_sr(v as u16))
            },
        }
}

/// MOVE to CCR: the low byte of the source into the condition codes.
pub fn move_16_toc_pi(core: &mut ConfiguredCore) -> (r: Result<Cycles>)
    requires
        old(core).wf(),
    ensures
        final(core).wf(),
        move_16_toc_pi_effect(*old(core), *final(core), r),
{
    let ghost c0 = *core;
    let src = operator::ay_pi_16(core);
    let ghost mid = *core;
    assert(operator::ay_pi_16_rel(c0, mid, src));
    match src {
        Err(e) => Err(e),
        Ok(v) => {
            core.ccr_to_flags(v as u16);
            Ok(Cycles(16))
        },
    }
}

/// What `move_16_toc_pd` does: the core goes from `c0` to `c1` and `r` comes back.
pub open spec fn move_16_toc_pd_effect(c0: ConfiguredCore, c1: ConfiguredCore, r: Result<Cycles>) -> bool {
    exists|mid: ConfiguredCore, src: Result<u32>|
        #[trigger] operator::ay_pd_16_rel(c0, mid, src) && match src {
            Err(e) => r == Err::<Cycles, Exception>(e) && c1 == mid,
            Ok(v) => {
                r == Ok::<Cycles, Exception>(Cycles(18)) && sr_set(mid, c1, mid.ccr_sr(v as u16))
            },
        }
}

/// MOVE to CCR: the low byte of the source into the condition codes.
pub fn move_16_toc_pd(core: &mut ConfiguredCore) -> (r: Result<Cycles>)
    requires
        old(core).wf(),
    ensures
        final(core).wf(),
        move_16_toc_pd_effect(*old(core), *final(core), r),
{
    let ghost c0 = *core;
    let src = operator::ay_pd_16(core);
    let ghost mid = *core;
    assert(operator::ay_pd_16_rel(c0, mid, src));
    match src {
        Err(e) => Err(e),
        Ok(v) => {
            core.ccr_to_flags(v as u16);
            Ok(Cycles(18))
        },
    }
}

/// What `move_16_toc_di` does: the core goes from `c0` to `c1` and `r` comes back.
pub open spec fn move_16_toc_di_effect(c0: ConfiguredCore, c1: ConfiguredCore, r: Result<Cycles>) -> bool {
    exists|mid: ConfiguredCore, src: Result<u32>|
        #[trigger] operator::ay_di_16_rel(c0, mid, src) && match src {
            Err(e) => r == Err::<Cycles, Exception>(e) && c1 == mid,
            Ok(v) => {
                r == Ok::<Cycles, Exception>(Cycles(20)) && sr_set(mid, c1, mid.ccr_sr(v as u16))
            },
        }
}

/// MOVE to CCR: the low byte of the source into the condition codes.
pub fn move_16_toc_di(core: &mut ConfiguredCore) -> (r: Result<Cycles>)
    requires
        old(core).wf(),
    ensures
        final(core).wf(),
        move_16_toc_di_effect(*old(core), *final(core), r),
{
    let ghost c0 = *core;
    let src = operator::ay_di_16(core);
    let ghost mid = *core;
    assert(operator::ay_di_16_rel(c0, mid, src));
    match src {
        Err(e) => Err(e),
        Ok(v) => {
            core.ccr_to_flags(v as u16);
            Ok(Cycles(20))
        },
    }
}

/// What `move_16_toc_ix` does: the core goes from `c0` to `c1` and `r` comes back.
pub open spec fn move_16_toc_ix_effect(c0: ConfiguredCore, c1: ConfiguredCore, r: Result<Cycles>) -> bool {
    exists|mid: ConfiguredCore, src: Result<u32>|
        #[trigger] operator::ay_ix_16_rel(c0, mid, src) && match src {
            Err(e) => r == Err::<Cycles, Exception>(e) && c1 == mid,
            Ok(v) => {
                r == Ok::<Cycles, Exception>(Cycles(22)) && sr_set(mid, c1, mid.ccr_sr(v as u16))
            },
        }
}

/// MOVE to CCR: the low byte of the source into the condition codes.
pub fn move_16_toc_ix(core: &mut ConfiguredCore) -> (r: Result<Cycles>)
    requires
        old(core).wf(),
    ensures
        final(core).wf(),
        move_16_toc_ix_effect(*old(core), *final(core), r),
{
    let ghost c0 = *core;
    let src = operator::ay_ix_16(core);
    let ghost mid = *core;
    assert(operator::ay_ix_16_rel(c0, mid, src));
    match src {
        Err(e) => Err(e),
        Ok(v) => {
            core.ccr_to_flags(v as u16);
            Ok(Cycles(22))
        },
    }
}

/// What `move_16_toc_aw` does: the core goes from `c0` to `c1` and `r` comes back.
pub open spec fn move_16_toc_aw_effect(c0: ConfiguredCore, c1: ConfiguredCore, r: Result<Cycles>) -> bool {
    exists|mid: ConfiguredCore, src: Result<u32>|
        #[trigger] operator::aw_16_rel(c0, mid, src) && match src {
            Err(e) => r == Err::<Cycles, Exception>(e) && c1 == mid,
            Ok(v) => {
                r == Ok::<Cycles, Exception>(Cycles(20)) && sr_set(mid, c1, mid.ccr_sr(v as u16))
            },
        }
}

/// MOVE to CCR: the low byte of the source into the condition codes.
pub fn move_16_toc_aw(core: &mut ConfiguredCore) -> (r: Result<Cycles>)
    requires
        old(core).wf(),
    ensures
        final(core).wf(),
        move_16_toc_aw_effect(*old(core), *final(core), r),
{
    let ghost c0 = *core;
    let src = operator::aw_16(core);
    let ghost mid = *core;
    assert(operator::aw_16_rel(c0, mid, src));
    match src {
        Err(e) => Err(e),
        Ok(v) => {
            core.ccr_to_flags(v as u16);
            Ok(Cycles(20))
        },
    }
}

/// What `move_16_toc_al` does: the core goes from `c0` to `c1` and `r` comes back.
pub open spec fn move_16_toc_al_effect(c0: ConfiguredCore, c1: ConfiguredCore, r: Result<Cycles>) -> bool {
    exists|mid: ConfiguredCore, src: Result<u32>|
        #[trigger] operator::al_16_rel(c0, mid, src) && match src {
            Err(e) => r == Err::<Cycles, Exception>(e) && c1 == mid,
            Ok(v) => {
                r == Ok::<Cycles, Exception>(Cycles(24)) && sr_set(mid, c1, mid.ccr_sr(v as u16))
            },
        }
}

/// MOVE to CCR: the low byte of the source into the condition codes.
pub fn move_16_toc_al(core: &mut ConfiguredCore) -> (r: Result<Cycles>)
    requires
        old(core).wf(),
    ensures
        final(core).wf(),
        move_16_toc_al_effect(*old(core), *final(core), r),
{
    let ghost c0 = *core;
    let src = operator::al_16(core);
    let ghost mid = *core;
    assert(operator::al_16_rel(c0, mid, src));
    match src {
        Err(e) => Err(e),
        Ok(v) => {
            core.ccr_to_flags(v as u16);
            Ok(Cycles(24))
        },
    }
}

/// What `move_16_toc_pcdi` does: the core goes from `c0` to `c1` and `r` comes back.
pub open spec fn move_16_toc_pcdi_effect(c0: ConfiguredCore, c1: ConfiguredCore, r: Result<Cycles>) -> bool {
    exists|mid: ConfiguredCore, src: Result<u32>|
        #[trigger] operator::pcdi_16_rel(c0, mid, src) && match src {
            Err(e) => r == Err::<Cycles, Exception>(e) && c1 == mid,
            Ok(v) => {
                r == Ok::<Cycles, Exception>(Cycles(20)) && sr_set(mid, c1, mid.ccr_sr(v as u16))
            },
        }
}

/// MOVE to CCR: the low byte of the source into the condition codes.
pub fn move_16_toc_pcdi(core: &mut ConfiguredCore) -> (r: Result<Cycles>)
    requires
        old(core).wf(),
    ensures
        final(core).wf(),
        move_16_toc_pcdi_effect(*old(core), *final(core), r),
{
    let ghost c0 = *core;
    let src = operator::pcdi_16(core);
    let ghost mid = *core;
    assert(operator::pcdi_16_rel(c0, mid, src));
    match src {
        Err(e) => Err(e),
        Ok(v) => {
            core.ccr_to_flags(v as u16);
            Ok(Cycles(20))
        },
    }
}

/// What `move_16_toc_pcix` does: the core goes from `c0` to `c1` and `r` comes back.
pub open spec fn move_16_toc_pcix_effect(c0: ConfiguredCore, c1: ConfiguredCore, r: Result<Cycles>) -> bool {
    exists|mid: ConfiguredCore, src: Result<u32>|
        #[trigger] operator::pcix_16_rel(c0, mid, src) && match src {
            Err(e) => r == Err::<Cycles, Exception>(e) && c1 == mid,
            Ok(v) => {
                r == Ok::<Cycles, Exception>(Cycles(22)) && sr_set(mid, c1, mid.ccr_sr(v as u16))
            },
        }
}

/// MOVE to CCR: the low byte of the source into the condition codes.
pub fn move_16_toc_pcix(core: &mut ConfiguredCore) -> (r: Result<Cycles>)
    requires
        old(core).wf(),
    ensures
        final(core).wf(),
        move_16_toc_pcix_effect(*old(core), *final(core), r),
{
    let ghost c0 = *core;
    let src = operator::pcix_16(core);
    let ghost mid = *core;
    assert(operator::pcix_16_rel(c0, mid, src));
    match src {
        Err(e) => Err(e),
        Ok(v) => {
            core.ccr_to_flags(v as u16);
            Ok(Cycles(22))
        },
    }
}

/// What `move_16_toc_imm` does: the core goes from `c0` to `c1` and `r` comes back.
pub open spec fn move_16_toc_imm_effect(c0: ConfiguredCore, c1: ConfiguredCore, r: Result<Cycles>) -> bool {
    exists|mid: ConfiguredCore, src: Result<u32>|
        #[trigger] operator::imm_16_rel(c0, mid, src) && match src {
            Err(e) => r == Err::<Cycles, Exception>(e) && c1 == mid,
            Ok(v) => {
                r == Ok::<Cycles, Exception>(Cycles(16)) && sr_set(mid, c1, mid.ccr_sr(v as u16))
            },
        }
}

/// MOVE to CCR: the low byte of the source into the condition codes.
pub fn move_16_toc_imm(core: &mut ConfiguredCore) -> (r: Result<Cycles>)
    requires
        old(core).wf(),
    ensures
        final(core).wf(),
        move_16_toc_imm_effect(*old(core), *final(core), r),
{
    let ghost c0 = *core;
    let src = operator::imm_16(core);
    let ghost mid = *core;
    assert(operator::imm_16_rel(c0, mid, src));
    match src {
        Err(e) => Err(e),
        Ok(v) => {
            core.ccr_to_flags(v as u16);
            Ok(Cycles(16))
        },
    }
}

/// What `move_16_frs_dn` does: the core goes from `c0` to `c1` and `r` comes back.
pub open spec fn move_16_frs_dn_effect(c0: ConfiguredCore, c1: ConfiguredCore, r: Result<Cycles>) -> bool {
    let reg = ir_dy(c0.ir);
    &&& r == Ok::<Cycles, Exception>(Cycles(6))
    &&& reg_set(c0, c1, reg, merged(c0.dar[reg], c0.spec_status_register() as u32, 16))
}

/// MOVE from SR: the status register word into the destination.
pub fn move_16_frs_dn(core: &mut ConfiguredCore) -> (r: Result<Cycles>)
    requires
        old(core).wf(),
    ensures
        final(core).wf(),
        move_16_frs_dn_effect(*old(core), *final(core), r),
{
    let reg = reg_dy(core.ir);
    let dst = core.dar[reg];
    let sr = core.status_register() as u32;
    set_reg(core, reg, merge(dst, sr, 16));
    Ok(Cycles(6))
}

/// What `move_16_frs_ai` does: the core goes from `c0` to `c1` and `r` comes back.
pub open spec fn move_16_frs_ai_effect(c0: ConfiguredCore, c1: ConfiguredCore, r: Result<Cycles>) -> bool {
    exists|m1: ConfiguredCore, ea: Result<u32>|
        #[trigger] effective_address::address_indirect_ay_rel(c0, m1, ea) && match ea {
            Err(e) => r == Err::<Cycles, Exception>(e) && c1 == m1,
            Ok(a) => exists|m2: ConfiguredCore, w: Result<()>|
                #[trigger] data_written(m1, m2, 16, a, c0.spec_status_register() as u32, w) && match w {
                    Err(e) => r == Err::<Cycles, Exception>(e) && c1 == m2,
                    Ok(_) => r == Ok::<Cycles, Exception>(Cycles(12)) && c1 == m2,
                },
        }
}

/// MOVE from SR: the status register word into the destination.
pub fn move_16_frs_ai(core: &mut ConfiguredCore) -> (r: Result<Cycles>)
    requires
        old(core).wf(),
    ensures
        final(core).wf(),
        move_16_frs_ai_effect(*old(core), *final(core), r),
{
    let ghost c0 = *core;
    let value: u32 = core.status_register() as u32;
    let ea = effective_address::address_indirect_ay(core);
    let ghost m1 = *core;
    assert(effective_address::address_indirect_ay_rel(c0, m1, ea));
    let a = match ea {
        Err(e) => {
            return Err(e);
        },
        Ok(a) => a,
    };
    let w = write_sized(core, 16, a, value);
    let ghost m2 = *core;
    assert(data_written(m1, m2, 16, a, c0.spec_status_register() as u32, w));
    match w {
        Err(e) => Err(e),
        Ok(()) => {
            
            Ok(Cycles(12))
        },
    }
}

/// What `move_16_frs_pi` does: the core goes from `c0` to `c1` and `r` comes back.
pub open spec fn move_16_frs_pi_effect(c0: ConfiguredCore, c1: ConfiguredCore, r: Result<Cycles>) -> bool {
    exists|m1: ConfiguredCore, ea: Result<u32>|
        #[trigger] effective_address::postincrement_ay_16_rel(c0, m1, ea) && match ea {
            Err(e) => r == Err::<Cycles, Exception>(e) && c1 == m1,
            Ok(a) => exists|m2: ConfiguredCore, w: Result<()>|
                #[trigger] data_written(m1, m2, 16, a, c0.spec_status_register() as u32, w) && match w {
                    Err(e) => r == Err::<Cycles, Exception>(e) && c1 == m2,
                    Ok(_) => r == Ok::<Cycles, Exception>(Cycles(12)) && c1 == m2,
                },
        }
}

/// MOVE from SR: the status register word into the destination.
pub fn move_16_frs_pi(core: &mut ConfiguredCore) -> (r: Result<Cycles>)
    requires
        old(core).wf(),
    ensures
        final(core).wf(),
        move_16_frs_pi_effect(*old(core), *final(core), r),
{
    let ghost c0 = *core;
    let value: u32 = core.status_register() as u32;
    let ea = effective_address::postincrement_ay_16(core);
    let ghost m1 = *core;
    assert(effective_address::postincrement_ay_16_rel(c0, m1, ea));
    let a = match ea {
        Err(e) => {
            return Err(e);
        },
        Ok(a) => a,
    };
    let w = write_sized(core, 16, a, value);
    let ghost m2 = *core;
    assert(data_written(m1, m2, 16, a, c0.spec_status_register() as u32, w));
    match w {
        Err(e) => Err(e),
        Ok(()) => {
            
            Ok(Cycles(12))
        },
    }
}

/// What `move_16_frs_pd` does: the core goes from `c0` to `c1` and `r` comes back.
pub open spec fn move_16_frs_pd_effect(c0: ConfiguredCore, c1: ConfiguredCore, r: Result<Cycles>) -> bool {
    exists|m1: ConfiguredCore, ea: Result<u32>|
        #[trigger] effective_address::predecrement_ay_16_rel(c0, m1, ea) && match ea {
            Err(e) => r == Err::<Cycles, Exception>(e) && c1 == m1,
            Ok(a) => exists|m2: ConfiguredCore, w: Result<()>|
                #[trigger] data_written(m1, m2, 16, a, c0.spec_status_register() as u32, w) && match w {
                    Err(e) => r == Err::<Cycles, Exception>(e) && c1 == m2,
                    Ok(_) => r == Ok::<Cycles, Exception>(Cycles(14)) && c1 == m2,
                },
        }
}

/// MOVE from SR: the status register word into the destination.
pub fn move_16_frs_pd(core: &mut ConfiguredCore) -> (r: Result<Cycles>)
    requires
        old(core).wf(),
    ensures
        final(core).wf(),
        move_16_frs_pd_effect(*old(core), *final(core), r),
{
    let ghost c0 = *core;
    let value: u32 = core.status_register() as u32;
    let ea = effective_address::predecrement_ay_16(core);
    let ghost m1 = *core;
    assert(effective_address::predecrement_ay_16_rel(c0, m1, ea));
    let a = match ea {
        Err(e) => {
            return Err(e);
        },
        Ok(a) => a,
    };
    let w = write_sized(core, 16, a, value);
    let ghost m2 = *core;
    assert(data_written(m1, m2, 16, a, c0.spec_status_register() as u32, w));
    match w {
        Err(e) => Err(e),
        Ok(()) => {
            
            Ok(Cycles(14))
        },
    }
}

/// What `move_16_frs_di` does: the core goes from `c0` to `c1` and `r` comes back.
pub open spec fn move_16_frs_di_effect(c0: ConfiguredCore, c1: ConfiguredCore, r: Result<Cycles>) -> bool {
    exists|m1: ConfiguredCore, ea: Result<u32>|
        #[trigger] effective_address::displacement_ay_rel(c0, m1, ea) && match ea {
            Err(e) => r == Err::<Cycles, Exception>(e) && c1 == m1,
            Ok(a) => exists|m2: ConfiguredCore, w: Result<()>|
                #[trigger] data_written(m1, m2, 16, a, c0.spec_status_register() as u32, w) && match w {
                    Err(e) => r == Err::<Cycles, Exception>(e) && c1 == m2,
                    Ok(_) => r == Ok::<Cycles, Exception>(Cycles(16)) && c1 == m2,
                },
        }
}

/// MOVE from SR: the status register word into the destination.
pub fn move_16_frs_di(core: &mut ConfiguredCore) -> (r: Result<Cycles>)
    requires
        old(core).wf(),
    ensures
        final(core).wf(),
        move_16_frs_di_effect(*old(core), *final(core), r),
{
    let ghost c0 = *core;
    let value: u32 = core.status_register() as u32;
    let ea = effective_address::displacement_ay(core);
    let ghost m1 = *core;
    assert(effective_address::displacement_ay_rel(c0, m1, ea));
    let a = match ea {
        Err(e) => {
            return Err(e);
        },
        Ok(a) => a,
    };
    let w = write_sized(core, 16, a, value);
    let ghost m2 = *core;
    assert(data_written(m1, m2, 16, a, c0.spec_status_register() as u32, w));
    match w {
        Err(e) => Err(e),
        Ok(()) => {
            
            Ok(Cycles(16))
        },
    }
}

/// What `move_16_frs_ix` does: the core goes from `c0` to `c1` and `r` comes back.
pub open spec fn move_16_frs_ix_effect(c0: ConfiguredCore, c1: ConfiguredCore, r: Result<Cycles>) -> bool {
    exists|m1: ConfiguredCore, ea: Result<u32>|
        #[trigger] effective_address::index_ay_rel(c0, m1, ea) && match ea {
            Err(e) => r == Err::<Cycles, Exception>(e) && c1 == m1,
            Ok(a) => exists|m2: ConfiguredCore, w: Result<()>|
                #[trigger] data_written(m1, m2, 16, a, c0.spec_status_register() as u32, w) && match w {
                    Err(e) => r == Err::<Cycles, Exception>(e) && c1 == m2,
                    Ok(_) => r == Ok::<Cycles, Exception>(Cycles(18)) && c1 == m2,
                },
        }
}

/// MOVE from SR: the status register word into the destination.
pub fn move_16_frs_ix(core: &mut ConfiguredCore) -> (r: Result<Cycles>)
    requires
        old(core).wf(),
    ensures
        final(core).wf(),
        move_16_frs_ix_effect(*old(core), *final(core), r),
{
    let ghost c0 = *core;
    let value: u32 = core.status_register() as u32;
    let ea = effective_address::index_ay(core);
    let ghost m1 = *core;
    assert(effective_address::index_ay_rel(c0, m1, ea));
    let a = match ea {
        Err(e) => {
            return Err(e);
        },
        Ok(a) => a,
    };
    let w = write_sized(core, 16, a, value);
    let ghost m2 = *core;
    assert(data_written(m1, m2, 16, a, c0.spec_status_register() as u32, w));
    match w {
        Err(e) => Err(e),
        Ok(()) => {
            
            Ok(Cycles(18))
        },
    }
}

/// What `move_16_frs_aw` does: the core goes from `c0` to `c1` and `r` comes back.
pub open spec fn move_16_frs_aw_effect(c0: ConfiguredCore, c1: ConfiguredCore, r: Result<Cycles>) -> bool {
    exists|m1: ConfiguredCore, ea: Result<u32>|
        #[trigger] effective_address::absolute_word_rel(c0, m1, ea) && match ea {
            Err(e) => r == Err::<Cycles, Exception>(e) && c1 == m1,
            Ok(a) => exists|m2: ConfiguredCore, w: Result<()>|
                #[trigger] data_written(m1, m2, 16, a, c0.spec_status_register() as u32, w) && match w {
                    Err(e) => r == Err::<Cycles, Exception>(e) && c1 == m2,
                    Ok(_) => r == Ok::<Cycles, Exception>(Cycles(16)) && c1 == m2,
                },
        }
}

/// MOVE from SR: the status register word into the destination.
pub fn move_16_frs_aw(core: &mut ConfiguredCore) -> (r: Result<Cycles>)
    requires
        old(core).wf(),
    ensures
        final(core).wf(),
        move_16_frs_aw_effect(*old(core), *final(core), r),
{
    let ghost c0 = *core;
    let value: u32 = core.status_register() as u32;
    let ea = effective_address::absolute_word(core);
    let ghost m1 = *core;
    assert(effective_address::absolute_word_rel(c0, m1, ea));
    let a = match ea {
        Err(e) => {
            return Err(e);
        },
        Ok(a) => a,
    };
    let w = write_sized(core, 16, a, value);
    let ghost m2 = *core;
    assert(data_written(m1, m2, 16, a, c0.spec_status_register() as u32, w));
    match w {
        Err(e) => Err(e),
        Ok(()) => {
            
            Ok(Cycles(16))
        },
    }
}

/// What `move_16_frs_al` does: the core goes from `c0` to `c1` and `r` comes back.
pub open spec fn move_16_frs_al_effect(c0: ConfiguredCore, c1: ConfiguredCore, r: Result<Cycles>) -> bool {
    exists|m1: ConfiguredCore, ea: Result<u32>|
        #[trigger] effective_address::absolute_long_rel(c0, m1, ea) && match ea {
            Err(e) => r == Err::<Cycles, Exception>(e) && c1 == m1,
            Ok(a) => exists|m2: ConfiguredCore, w: Result<()>|
                #[trigger] data_written(m1, m2, 16, a, c0.spec_status_register() as u32, w) && match w {
                    Err(e) => r == Err::<Cycles, Exception>(e) && c1 == m2,
                    Ok(_) => r == Ok::<Cycles, Exception>(Cycles(20)) && c1 == m2,
                },
        }
}

/// MOVE from SR: the status register word into the destination.
pub fn move_16_frs_al(core: &mut ConfiguredCore) -> (r: Result<Cycles>)
    requires
        old(core).wf(),
    ensures
        final(core).wf(),
        move_16_frs_al_effect(*old(core), *final(core), r),
{
    let ghost c0 = *core;
    let value: u32 = core.status_register() as u32;
    let ea = effective_address::absolute_long(core);
    let ghost m1 = *core;
    assert(effective_address::absolute_long_rel(c0, m1, ea));
    let a = match ea {
        Err(e) => {
            return Err(e);
        },
        Ok(a) => a,
    };
    let w = write_sized(core, 16, a, value);
    let ghost m2 = *core;
    assert(data_written(m1, m2, 16, a, c0.spec_status_register() as u32, w));
    match w {
        Err(e) => Err(e),
        Ok(()) => {
            
            Ok(Cycles(20))
        },
    }
}

/// What `move_16_tos_dn` does: the core goes from `c0` to `c1` and `r` comes back.
pub open spec fn move_16_tos_dn_effect(c0: ConfiguredCore, c1: ConfiguredCore, r: Result<Cycles>) -> bool {
    if c0.s_flag == 0 {
        r == Err::<Cycles, Exception>(privilege_violation(c0)) && c1 == c0
    } else {
        exists|mid: ConfiguredCore, src: Result<u32>|
        #[trigger] operator::dy_rel(c0, mid, src) && match src {
            Err(e) => r == Err::<Cycles, Exception>(e) && c1 == mid,
            Ok(v) => {
                r == Ok::<Cycles, Exception>(Cycles(12)) && sr_set(mid, c1, v as u16)
            },
        }
    }
}

/// MOVE to SR: the source word into the status register; supervisor mode only.
pub fn move_16_tos_dn(core: &mut ConfiguredCore) -> (r: Result<Cycles>)
    requires
        old(core).wf(),
    ensures
        final(core).wf(),
        move_16_tos_dn_effect(*old(core), *final(core), r),
{
    if core.s_flag == 0 {
        assert(core.pc.wrapping_sub(2) == wsub(core.pc, 2));
        return Err(Exception::PrivilegeViolation(core.ir, core.pc.wrapping_sub(2)));
    }
    let ghost c0 = *core;
    let src = operator::dy(core);
    let ghost mid = *core;
    assert(operator::dy_rel(c0, mid, src));
    match src {
        Err(e) => Err(e),
        Ok(v) => {
            core.sr_to_flags(v as u16);
            Ok(Cycles(12))
        },
    }
}

/// What `move_16_tos_ai` does: the core goes from `c0` to `c1` and `r` comes back.
pub open spec fn move_16_tos_ai_effect(c0: ConfiguredCore, c1: ConfiguredCore, r: Result<Cycles>) -> bool {
    if c0.s_flag == 0 {
        r == Err::<Cycles, Exception>(privilege_violation(c0)) && c1 == c0
    } else {
        exists|mid: ConfiguredCore, src: Result<u32>|
        #[trigger] operator::ay_ai_16_rel(c0, mid, src) && match src {
            Err(e) => r == Err::<Cycles, Exception>(e) && c1 == mid,
            Ok(v) => {
                r == Ok::<Cycles, Exception>(Cycles(16)) && sr_set(mid, c1, v as u16)
            },
        }
    }
}

/// MOVE to SR: the source word into the status register; supervisor mode only.
pub fn move_16_tos_ai(core: &mut ConfiguredCore) -> (r: Result<Cycles>)
    requires
        old(core).wf(),
    ensures
        final(core).wf(),
        move_16_tos_ai_effect(*old(core), *final(core), r),
{
    if core.s_flag == 0 {
        assert(core.pc.wrapping_sub(2) == wsub(core.pc, 2));
        return Err(Exception::PrivilegeViolation(core.ir, core.pc.wrapping_sub(2)));
    }
    let ghost c0 = *core;
    let src = operator::ay_ai_16(core);
    let ghost mid = *core;
    assert(operator::ay_ai_16_rel(c0, mid, src));
    match src {
        Err(e) => Err(e),
        Ok(v) => {
            core.sr_to_flags(v as u16);
            Ok(Cycles(16))
        },
    }
}

/// What `move_16_tos_pi` does: the core goes from `c0` to `c1` and `r` comes back.
pub open spec fn move_16_tos_pi_effect(c0: ConfiguredCore, c1: ConfiguredCore, r: Result<Cycles>) -> bool {
    if c0.s_flag == 0 {
        r == Err::<Cycles, Exception>(privilege_violation(c0)) && c1 == c0
    } else {
        exists|mid: ConfiguredCore, src: Result<u32>|
        #[trigger] operator::ay_pi_16_rel(c0, mid, src) && match src {
            Err(e) => r == Err::<Cycles, Exception>(e) && c1 == mid,
            Ok(v) => {
                r == Ok::<Cycles, Exception>(Cycles(16)) && sr_set(mid, c1, v as u16)
            },
        }
    }
}

/// MOVE to SR: the source word into the status register; supervisor mode only.
pub fn move_16_tos_pi(core: &mut ConfiguredCore) -> (r: Result<Cycles>)
    requires
        old(core).wf(),
    ensures
        final(core).wf(),
        move_16_tos_pi_effect(*old(core), *final(core), r),
{
    if core.s_flag == 0 {
        assert(core.pc.wrapping_sub(2) == wsub(core.pc, 2));
        return Err(Exception::PrivilegeViolation(core.ir, core.pc.wrapping_sub(2)));
    }
    let ghost c0 = *core;
    let src = operator::ay_pi_16(core);
    let ghost mid = *core;
    assert(operator::ay_pi_16_rel(c0, mid, src));
    match src {
        Err(e) => Err(e),
        Ok(v) => {
            core.sr_to_flags(v as u16);
            Ok(Cycles(16))
        },
    }
}

/// What `move_16_tos_pd` does: the core goes from `c0` to `c1` and `r` comes back.
pub open spec fn move_16_tos_pd_effect(c0: ConfiguredCore, c1: ConfiguredCore, r: Result<Cycles>) -> bool {
    if c0.s_flag == 0 {
        r == Err::<Cycles, Exception>(privilege_violation(c0)) && c1 == c0
    } else {
        exists|mid: ConfiguredCore, src: Result<u32>|
        #[trigger] operator::ay_pd_16_rel(c0, mid, src) && match src {
            Err(e) => r == Err::<Cycles, Exception>(e) && c1 == mid,
            Ok(v) => {
                r == Ok::<Cycles, Exception>(Cycles(18)) && sr_set(mid, c1, v as u16)
            },
        }
    }
}

/// MOVE to SR: the source word into the status register; supervisor mode only.
pub fn move_16_tos_pd(core: &mut ConfiguredCore) -> (r: Result<Cycles>)
    requires
        old(core).wf(),
    ensures
        final(core).wf(),
        move_16_tos_pd_effect(*old(core), *final(core), r),
{
    if core.s_flag == 0 {
        assert(core.pc.wrapping_sub(2) == wsub(core.pc, 2));
        return Err(Exception::PrivilegeViolation(core.ir, core.pc.wrapping_sub(2)));
    }
    let ghost c0 = *core;
    let src = operator::ay_pd_16(core);
    let ghost mid = *core;
    assert(operator::ay_pd_16_rel(c0, mid, src));
    match src {
        Err(e) => Err(e),
        Ok(v) => {
            core.sr_to_flags(v as u16);
            Ok(Cycles(18))
        },
    }
}

/// What `move_16_tos_di` does: the core goes from `c0` to `c1` and `r` comes back.
pub open spec fn move_16_tos_di_effect(c0: ConfiguredCore, c1: ConfiguredCore, r: Result<Cycles>) -> bool {
    if c0.s_flag == 0 {
        r == Err::<Cycles, Exception>(privilege_violation(c0)) && c1 == c0
    } else {
        exists|mid: ConfiguredCore, src: Result<u32>|
        #[trigger] operator::ay_di_16_rel(c0, mid, src) && match src {
            Err(e) => r == Err::<Cycles, Exception>(e) && c1 == mid,
            Ok(v) => {
                r == Ok::<Cycles, Exception>(Cycles(20)) && sr_set(mid, c1, v as u16)
            },
        }
    }
}

/// MOVE to SR: the source word into the status register; supervisor mode only.
pub fn move_16_tos_di(core: &mut ConfiguredCore) -> (r: Result<Cycles>)
    requires
        old(core).wf(),
    ensures
        final(core).wf(),
        move_16_tos_di_effect(*old(core), *final(core), r),
{
    if core.s_flag == 0 {
        assert(core.pc.wrapping_sub(2) == wsub(core.pc, 2));
        return Err(Exception::PrivilegeViolation(core.ir, core.pc.wrapping_sub(2)));
    }
    let ghost c0 = *core;
    let src = operator::ay_di_16(core);
    let ghost mid = *core;
    assert(operator::ay_di_16_rel(c0, mid, src));
    match src {
        Err(e) => Err(e),
        Ok(v) => {
            core.sr_to_flags(v as u16);
            Ok(Cycles(20))
        },
    }
}

/// What `move_16_tos_ix` does: the core goes from `c0` to `c1` and `r` comes back.
pub open spec fn move_16_tos_ix_effect(c0: ConfiguredCore, c1: ConfiguredCore, r: Result<Cycles>) -> bool {
    if c0.s_flag == 0 {
        r == Err::<Cycles, Exception>(privilege_violation(c0)) && c1 == c0
    } else {
        exists|mid: ConfiguredCore, src: Result<u32>|
        #[trigger] operator::ay_ix_16_rel(c0, mid, src) && match src {
            Err(e) => r == Err::<Cycles, Exception>(e) && c1 == mid,
            Ok(v) => {
                r == Ok::<Cycles, Exception>(Cycles(22)) && sr_set(mid, c1, v as u16)
            },
        }
    }
}

/// MOVE to SR: the source word into the status register; supervisor mode only.
pub fn move_16_tos_ix(core: &mut ConfiguredCore) -> (r: Result<Cycles>)
    requires
        old(core).wf(),
    ensures
        final(core).wf(),
        move_16_tos_ix_effect(*old(core), *final(core), r),
{
    if core.s_flag == 0 {
        assert(core.pc.wrapping_sub(2) == wsub(core.pc, 2));
        return Err(Exception::PrivilegeViolation(core.ir, core.pc.wrapping_sub(2)));
    }
    let ghost c0 = *core;
    let src = operator::ay_ix_16(core);
    let ghost mid = *core;
    assert(operator::ay_ix_16_rel(c0, mid, src));
    match src {
        Err(e) => Err(e),
        Ok(v) => {
            core.sr_to_flags(v as u16);
            Ok(Cycles(22))
        },
    }
}

/// What `move_16_tos_aw` does: the core goes from `c0` to `c1` and `r` comes back.
pub open spec fn move_16_tos_aw_effect(c0: ConfiguredCore, c1: ConfiguredCore, r: Result<Cycles>) -> bool {
    if c0.s_flag == 0 {
        r == Err::<Cycles, Exception>(privilege_violation(c0)) && c1 == c0
    } else {
        exists|mid: ConfiguredCore, src: Result<u32>|
        #[trigger] operator::aw_16_rel(c0, mid, src) && match src {
            Err(e) => r == Err::<Cycles, Exception>(e) && c1 == mid,
            Ok(v) => {
                r == Ok::<Cycles, Exception>(Cycles(20)) && sr_set(mid, c1, v as u16)
            },
        }
    }
}

/// MOVE to SR: the source word into the status register; supervisor mode only.
pub fn move_16_tos_aw(core: &mut ConfiguredCore) -> (r: Result<Cycles>)
    requires
        old(core).wf(),
    ensures
        final(core).wf(),
        move_16_tos_aw_effect(*old(core), *final(core), r),
{
    if core.s_flag == 0 {
        assert(core.pc.wrapping_sub(2) == wsub(core.pc, 2));
        return Err(Exception::PrivilegeViolation(core.ir, core.pc.wrapping_sub(2)));
    }
    let ghost c0 = *core;
    let src = operator::aw_16(core);
    let ghost mid = *core;
    assert(operator::aw_16_rel(c0, mid, src));
    match src {
        Err(e) => Err(e),
        Ok(v) => {
            core.sr_to_flags(v as u16);
            Ok(Cycles(20))
        },
    }
}

/// What `move_16_tos_al` does: the core goes from `c0` to `c1` and `r` comes back.
pub open spec fn move_16_tos_al_effect(c0: ConfiguredCore, c1: ConfiguredCore, r: Result<Cycles>) -> bool {
    if c0.s_flag == 0 {
        r == Err::<Cycles, Exception>(privilege_violation(c0)) && c1 == c0
    } else {
        exists|mid: ConfiguredCore, src: Result<u32>|
        #[trigger] operator::al_16_rel(c0, mid, src) && match src {
            Err(e) => r == Err::<Cycles, Exception>(e) && c1 == mid,
            Ok(v) => {
                r == Ok::<Cycles, Exception>(Cycles(24)) && sr_set(mid, c1, v as u16)
            },
        }
    }
}

/// MOVE to SR: the source word into the status register; supervisor mode only.
pub fn move_16_tos_al(core: &mut ConfiguredCore) -> (r: Result<Cycles>)
    requires
        old(core).wf(),
    ensures
        final(core).wf(),
        move_16_tos_al_effect(*old(core), *final(core), r),
{
    if core.s_flag == 0 {
        assert(core.pc.wrapping_sub(2) == wsub(core.pc, 2));
        return Err(Exception::PrivilegeViolation(core.ir, core.pc.wrapping_sub(2)));
    }
    let ghost c0 = *core;
    let src = operator::al_16(core);
    let ghost mid = *core;
    assert(operator::al_16_rel(c0, mid, src));
    match src {
        Err(e) => Err(e),
        Ok(v) => {
            core.sr_to_flags(v as u16);
            Ok(Cycles(24))
        },
    }
}

/// What `move_16_tos_pcdi` does: the core goes from `c0` to `c1` and `r` comes back.
pub open spec fn move_16_tos_pcdi_effect(c0: ConfiguredCore, c1: ConfiguredCore, r: Result<Cycles>) -> bool {
    if c0.s_flag == 0 {
        r == Err::<Cycles, Exception>(privilege_violation(c0)) && c1 == c0
    } else {
        exists|mid: ConfiguredCore, src: Result<u32>|
        #[trigger] operator::pcdi_16_rel(c0, mid, src) && match src {
            Err(e) => r == Err::<Cycles, Exception>(e) && c1 == mid,
            Ok(v) => {
                r == Ok::<Cycles, Exception>(Cycles(20)) && sr_set(mid, c1, v as u16)
            },
        }
    }
}

/// MOVE to SR: the source word into the status register; supervisor mode only.
pub fn move_16_tos_pcdi(core: &mut ConfiguredCore) -> (r: Result<Cycles>)
    requires
        old(core).wf(),
    ensures
        final(core).wf(),
        move_16_tos_pcdi_effect(*old(core), *final(core), r),
{
    if core.s_flag == 0 {
        assert(core.pc.wrapping_sub(2) == wsub(core.pc, 2));
        return Err(Exception::PrivilegeViolation(core.ir, core.pc.wrapping_sub(2)));
    }
    let ghost c0 = *core;
    let src = operator::pcdi_16(core);
    let ghost mid = *core;
    assert(operator::pcdi_16_rel(c0, mid, src));
    match src {
        Err(e) => Err(e),
        Ok(v) => {
            core.sr_to_flags(v as u16);
            Ok(Cycles(20))
        },
    }
}

/// What `move_16_tos_pcix` does: the core goes from `c0` to `c1` and `r` comes back.
pub open spec fn move_16_tos_pcix_effect(c0: ConfiguredCore, c1: ConfiguredCore, r: Result<Cycles>) -> bool {
    if c0.s_flag == 0 {
        r == Err::<Cycles, Exception>(privilege_violation(c0)) && c1 == c0
    } else {
        exists|mid: ConfiguredCore, src: Result<u32>|
        #[trigger] operator::pcix_16_rel(c0, mid, src) && match src {
            Err(e) => r == Err::<Cycles, Exception>(e) && c1 == mid,
            Ok(v) => {
                r == Ok::<Cycles, Exception>(Cycles(22)) && sr_set(mid, c1, v as u16)
            },
        }
    }
}

/// MOVE to SR: the source word into the status register; supervisor mode only.
pub fn move_16_tos_pcix(core: &mut ConfiguredCore) -> (r: Result<Cycles>)
    requires
        old(core).wf(),
    ensures
        final(core).wf(),
        move_16_tos_pcix_effect(*old(core), *final(core), r),
{
    if core.s_flag == 0 {
        assert(core.pc.wrapping_sub(2) == wsub(core.pc, 2));
        return Err(Exception::PrivilegeViolation(core.ir, core.pc.wrapping_sub(2)));
    }
    let ghost c0 = *core;
    let src = operator::pcix_16(core);
    let ghost mid = *core;
    assert(operator::pcix_16_rel(c0, mid, src));
    match src {
        Err(e) => Err(e),
        Ok(v) => {
            core.sr_to_flags(v as u16);
            Ok(Cycles(22))
        },
    }
}

/// What `move_16_tos_imm` does: the core goes from `c0` to `c1` and `r` comes back.
pub open spec fn move_16_tos_imm_effect(c0: ConfiguredCore, c1: ConfiguredCore, r: Result<Cycles>) -> bool {
    if c0.s_flag == 0 {
        r == Err::<Cycles, Exception>(privilege_violation(c0)) && c1 == c0
    } else {
        exists|mid: ConfiguredCore, src: Result<u32>|
        #[trigger] operator::imm_16_rel(c0, mid, src) && match src {
            Err(e) => r == Err::<Cycles, Exception>(e) && c1 == mid,
            Ok(v) => {
                r == Ok::<Cycles, Exception>(Cycles(16)) && sr_set(mid, c1, v as u16)
            },
        }
    }
}

/// MOVE to SR: the source word into the status register; supervisor mode only.
pub fn move_16_tos_imm(core: &mut ConfiguredCore) -> (r: Result<Cycles>)
    requires
        old(core).wf(),
    ensures
        final(core).wf(),
        move_16_tos_imm_effect(*old(core), *final(core), r),
{
    if core.s_flag == 0 {
        assert(core.pc.wrapping_sub(2) == wsub(core.pc, 2));
        return Err(Exception::PrivilegeViolation(core.ir, core.pc.wrapping_sub(2)));
    }
    let ghost c0 = *core;
    let src = operator::imm_16(core);
    let ghost mid = *core;
    assert(operator::imm_16_rel(c0, mid, src));
    match src {
        Err(e) => Err(e),
        Ok(v) => {
            core.sr_to_flags(v as u16);
            Ok(Cycles(16))
        },
    }
}

/// MOVE to CCR, MOVE to SR and MOVE from SR.
#[derive(Clone, Copy, Debug, PartialEq, Eq, Structural)]
pub enum StatusOp {
    Move16TocDn,
    Move16TocAi,
    Move16TocPi,
    Move16TocPd,
    Move16TocDi,
    Move16TocIx,
    Move16TocAw,
    Move16TocAl,
    Move16TocPcdi,
    Move16TocPcix,
    Move16TocImm,
    Move16FrsDn,
    Move16FrsAi,
    Move16FrsPi,
    Move16FrsPd,
    Move16FrsDi,
    Move16FrsIx,
    Move16FrsAw,
    Move16FrsAl,
    Move16TosDn,
    Move16TosAi,
    Move16TosPi,
    Move16TosPd,
    Move16TosDi,
    Move16TosIx,
    Move16TosAw,
    Move16TosAl,
    Move16TosPcdi,
    Move16TosPcix,
    Move16TosImm,
}

/// What the instruction `op` does: the core goes from `c0` to `c1` and `r`
/// comes back.
pub open spec fn effect(op: StatusOp, c0: ConfiguredCore, c1: ConfiguredCore, r: Result<Cycles>) -> bool {
    match op {
        StatusOp::Move16TocDn => move_16_toc_dn_effect(c0, c1, r),
        StatusOp::Move16TocAi => move_16_toc_ai_effect(c0, c1, r),
        StatusOp::Move16TocPi => move_16_toc_pi_effect(c0, c1, r),
        StatusOp::Move16TocPd => move_16_toc_pd_effect(c0, c1, r),
        StatusOp::Move16TocDi => move_16_toc_di_effect(c0, c1, r),
        StatusOp::Move16TocIx => move_16_toc_ix_effect(c0, c1, r),
        StatusOp::Move16TocAw => move_16_toc_aw_effect(c0, c1, r),
        StatusOp::Move16TocAl => move_16_toc_al_effect(c0, c1, r),
        StatusOp::Move16TocPcdi => move_16_toc_pcdi_effect(c0, c1, r),
        StatusOp::Move16TocPcix => move_16_toc_pcix_effect(c0, c1, r),
        StatusOp::Move16TocImm => move_16_toc_imm_effect(c0, c1, r),
        StatusOp::Move16FrsDn => move_16_frs_dn_effect(c0, c1, r),
        StatusOp::Move16FrsAi => move_16_frs_ai_effect(c0, c1, r),
        StatusOp::Move16FrsPi => move_16_frs_pi_effect(c0, c1, r),
        StatusOp::Move16FrsPd => move_16_frs_pd_effect(c0, c1, r),
        StatusOp::Move16FrsDi => move_16_frs_di_effect(c0, c1, r),
        StatusOp::Move16FrsIx => move_16_frs_ix_effect(c0, c1, r),
        StatusOp::Move16FrsAw => move_16_frs_aw_effect(c0, c1, r),
        StatusOp::Move16FrsAl => move_16_frs_al_effect(c0, c1, r),
        StatusOp::Move16TosDn => move_16_tos_dn_effect(c0, c1, r),
        StatusOp::Move16TosAi => move_16_tos_ai_effect(c0, c1, r),
        StatusOp::Move16TosPi => move_16_tos_pi_effect(c0, c1, r),
        StatusOp::Move16TosPd => move_16_tos_pd_effect(c0, c1, r),
        StatusOp::Move16TosDi => move_16_tos_di_effect(c0, c1, r),
        StatusOp::Move16TosIx => move_16_tos_ix_effect(c0, c1, r),
        StatusOp::Move16TosAw => move_16_tos_aw_effect(c0, c1, r),
        StatusOp::Move16TosAl => move_16_tos_al_effect(c0, c1, r),
        StatusOp::Move16TosPcdi => move_16_tos_pcdi_effect(c0, c1, r),
        StatusOp::Move16TosPcix => move_16_tos_pcix_effect(c0, c1, r),
        StatusOp::Move16TosImm => move_16_tos_imm_effect(c0, c1, r),
    }
}

/// Runs the instruction `op` on the core.
pub fn run(core: &mut ConfiguredCore, op: StatusOp) -> (r: Result<Cycles>)
    requires
        old(core).wf(),
    ensures
        final(core).wf(),
        effect(op, *old(core), *final(core), r),
{
    match op {
        StatusOp::Move16TocDn => move_16_toc_dn(core),
        StatusOp::Move16TocAi => move_16_toc_ai(core),
        StatusOp::Move16TocPi => move_16_toc_pi(core),
        StatusOp::Move16TocPd => move_16_toc_pd(core),
        StatusOp::Move16TocDi => move_16_toc_di(core),
        StatusOp::Move16TocIx => move_16_toc_ix(core),
        StatusOp::Move16TocAw => move_16_toc_aw(core),
        StatusOp::Move16TocAl => move_16_toc_al(core),
        StatusOp::Move16TocPcdi => move_16_toc_pcdi(core),
        StatusOp::Move16TocPcix => move_16_toc_pcix(core),
        StatusOp::Move16TocImm => move_16_toc_imm(core),
        StatusOp::Move16FrsDn => move_16_frs_dn(core),
        StatusOp::Move16FrsAi => move_16_frs_ai(core),
        StatusOp::Move16FrsPi => move_16_frs_pi(core),
        StatusOp::Move16FrsPd => move_16_frs_pd(core),
        StatusOp::Move16FrsDi => move_16_frs_di(core),
        StatusOp::Move16FrsIx => move_16_frs_ix(core),
        StatusOp::Move16FrsAw => move_16_frs_aw(core),
        StatusOp::Move16FrsAl => move_16_frs_al(core),
        StatusOp::Move16TosDn => move_16_tos_dn(core),
        StatusOp::Move16TosAi => move_16_tos_ai(core),
        StatusOp::Move16TosPi => move_16_tos_pi(core),
        StatusOp::Move16TosPd => move_16_tos_pd(core),
        StatusOp::Move16TosDi => move_16_tos_di(core),
        StatusOp::Move16TosIx => move_16_tos_ix(core),
        StatusOp::Move16TosAw => move_16_tos_aw(core),
        StatusOp::Move16TosAl => move_16_tos_al(core),
        StatusOp::Move16TosPcdi => move_16_tos_pcdi(core),
        StatusOp::Move16TosPcix => move_16_tos_pcix(core),
        StatusOp::Move16TosImm => move_16_tos_imm(core),
    }
}

} // verus!
