use vstd::prelude::*;
use crate::cpu::{ConfiguredCore, Cycles, Exception, Result, AccessType, data_written, pushed_32, branched, wadd, wsub, ir_dx, ir_dy, ir_ax, ir_ay, reg_dx, reg_dy, reg_ax, reg_ay, condition};
use crate::cpu::effective_address;
use crate::cpu::operator;
use crate::cpu::ops::common;
use crate::cpu::ops::{stored, store, reg_set, merged, merge, set_reg, write_sized, stack_error, stack_fault, sp_odd, privilege_violation, short_offset, long_branch_done};

verus! {

/// What `clr_8_ai` does: the core goes from `c0` to `c1` and `r` comes back.
pub open spec fn clr_8_ai_effect(c0: ConfiguredCore, c1: ConfiguredCore, r: Result<Cycles>) -> bool {
    exists|m1: ConfiguredCore, ea: Result<u32>|
        #[trigger] effective_address::address_indirect_ay_rel(c0, m1, ea) && match ea {
            Err(e) => r == Err::<Cycles, Exception>(e) && c1 == m1,
            Ok(a) => exists|m2: ConfiguredCore, w: Result<()>|
                #[trigger] data_written(m1, m2, 8, a, 0, w) && match w {
                    Err(e) => r == Err::<Cycles, Exception>(e) && c1 == m2,
                    Ok(_) => r == Ok::<Cycles, Exception>(Cycles(12)) && c1 == (ConfiguredCore { n_flag: 0, v_flag: 0, c_flag: 0, not_z_flag: 0, ..m2 }),
                },
        }
}

/// CLR on memory: zero written, Z set and N, V, C cleared.
pub fn clr_8_ai(core: &mut ConfiguredCore) -> (r: Result<Cycles>)
    requires
        old(core).wf(),
    ensures
        final(core).wf(),
        clr_8_ai_effect(*old(core), *final(core), r),
{
    let ghost c0 = *core;
    let value: u32 = 0;
    let ea = effective_address::address_indirect_ay(core);
    let ghost m1 = *core;
    assert(effective_address::address_indirect_ay_rel(c0, m1, ea));
    let a = match ea {
        Err(e) => {
            return Err(e);
        },
        Ok(a) => a,
    };
    let w = write_sized(core, 8, a, value);
    let ghost m2 = *core;
    assert(data_written(m1, m2, 8, a, 0, w));
    match w {
        Err(e) => Err(e),
        Ok(()) => {
            core.n_flag = 0;
            core.v_flag = 0;
            core.c_flag = 0;
            core.not_z_flag = 0;
            Ok(Cycles(12))
        },
    }
}

/// What `clr_8_pi` does: the core goes from `c0` to `c1` and `r` comes back.
pub open spec fn clr_8_pi_effect(c0: ConfiguredCore, c1: ConfiguredCore, r: Result<Cycles>) -> bool {
    exists|m1: ConfiguredCore, ea: Result<u32>|
        #[trigger] effective_address::postincrement_ay_8_rel(c0, m1, ea) && match ea {
            Err(e) => r == Err::<Cycles, Exception>(e) && c1 == m1,
            Ok(a) => exists|m2: ConfiguredCore, w: Result<()>|
                #[trigger] data_written(m1, m2, 8, a, 0, w) && match w {
                    Err(e) => r == Err::<Cycles, Exception>(e) && c1 == m2,
                    Ok(_) => r == Ok::<Cycles, Exception>(Cycles(12)) && c1 == (ConfiguredCore { n_flag: 0, v_flag: 0, c_flag: 0, not_z_flag: 0, ..m2 }),
                },
        }
}

/// CLR on memory: zero written, Z set and N, V, C cleared.
pub fn clr_8_pi(core: &mut ConfiguredCore) -> (r: Result<Cycles>)
    requires
        old(core).wf(),
    ensures
        final(core).wf(),
        clr_8_pi_effect(*old(core), *final(core), r),
{
    let ghost c0 = *core;
    let value: u32 = 0;
    let ea = effective_address::postincrement_ay_8(core);
    let ghost m1 = *core;
    assert(effective_address::postincrement_ay_8_rel(c0, m1, ea));
    let a = match ea {
        Err(e) => {
            return Err(e);
        },
        Ok(a) => a,
    };
    let w = write_sized(core, 8, a, value);
    let ghost m2 = *core;
    assert(data_written(m1, m2, 8, a, 0, w));
    match w {
        Err(e) => Err(e),
        Ok(()) => {
            core.n_flag = 0;
            core.v_flag = 0;
            core.c_flag = 0;
            core.not_z_flag = 0;
            Ok(Cycles(12))
        },
    }
}

/// What `clr_8_pd` does: the core goes from `c0` to `c1` and `r` comes back.
pub open spec fn clr_8_pd_effect(c0: ConfiguredCore, c1: ConfiguredCore, r: Result<Cycles>) -> bool {
    exists|m1: ConfiguredCore, ea: Result<u32>|
        #[trigger] effective_address::predecrement_ay_8_rel(c0, m1, ea) && match ea {
            Err(e) => r == Err::<Cycles, Exception>(e) && c1 == m1,
            Ok(a) => exists|m2: ConfiguredCore, w: Result<()>|
                #[trigger] data_written(m1, m2, 8, a, 0, w) && match w {
                    Err(e) => r == Err::<Cycles, Exception>(e) && c1 == m2,
                    Ok(_) => r == Ok::<Cycles, Exception>(Cycles(14)) && c1 == (ConfiguredCore { n_flag: 0, v_flag: 0, c_flag: 0, not_z_flag: 0, ..m2 }),
                },
        }
}

/// CLR on memory: zero written, Z set and N, V, C cleared.
pub fn clr_8_pd(core: &mut ConfiguredCore) -> (r: Result<Cycles>)
    requires
        old(core).wf(),
    ensures
        final(core).wf(),
        clr_8_pd_effect(*old(core), *final(core), r),
{
    let ghost c0 = *core;
    let value: u32 = 0;
    let ea = effective_address::predecrement_ay_8(core);
    let ghost m1 = *core;
    assert(effective_address::predecrement_ay_8_rel(c0, m1, ea));
    let a = match ea {
        Err(e) => {
            return Err(e);
        },
        Ok(a) => a,
    };
    let w = write_sized(core, 8, a, value);
    let ghost m2 = *core;
    assert(data_written(m1, m2, 8, a, 0, w));
    match w {
        Err(e) => Err(e),
        Ok(()) => {
            core.n_flag = 0;
            core.v_flag = 0;
            core.c_flag = 0;
            core.not_z_flag = 0;
            Ok(Cycles(14))
        },
    }
}

/// What `clr_8_di` does: the core goes from `c0` to `c1` and `r` comes back.
pub open spec fn clr_8_di_effect(c0: ConfiguredCore, c1: ConfiguredCore, r: Result<Cycles>) -> bool {
    exists|m1: ConfiguredCore, ea: Result<u32>|
        #[trigger] effective_address::displacement_ay_rel(c0, m1, ea) && match ea {
            Err(e) => r == Err::<Cycles, Exception>(e) && c1 == m1,
            Ok(a) => exists|m2: ConfiguredCore, w: Result<()>|
                #[trigger] data_written(m1, m2, 8, a, 0, w) && match w {
                    Err(e) => r == Err::<Cycles, Exception>(e) && c1 == m2,
                    Ok(_) => r == Ok::<Cycles, Exception>(Cycles(16)) && c1 == (ConfiguredCore { n_flag: 0, v_flag: 0, c_flag: 0, not_z_flag: 0, ..m2 }),
                },
        }
}

/// CLR on memory: zero written, Z set and N, V, C cleared.
pub fn clr_8_di(core: &mut ConfiguredCore) -> (r: Result<Cycles>)
    requires
        old(core).wf(),
    ensures
        final(core).wf(),
        clr_8_di_effect(*old(core), *final(core), r),
{
    let ghost c0 = *core;
    let value: u32 = 0;
    let ea = effective_address::displacement_ay(core);
    let ghost m1 = *core;
    assert(effective_address::displacement_ay_rel(c0, m1, ea));
    let a = match ea {
        Err(e) => {
            return Err(e);
        },
        Ok(a) => a,
    };
    let w = write_sized(core, 8, a, value);
    let ghost m2 = *core;
    assert(data_written(m1, m2, 8, a, 0, w));
    match w {
        Err(e) => Err(e),
        Ok(()) => {
            core.n_flag = 0;
            core.v_flag = 0;
            core.c_flag = 0;
            core.not_z_flag = 0;
            Ok(Cycles(16))
        },
    }
}

/// What `clr_8_ix` does: the core goes from `c0` to `c1` and `r` comes back.
pub open spec fn clr_8_ix_effect(c0: ConfiguredCore, c1: ConfiguredCore, r: Result<Cycles>) -> bool {
    exists|m1: ConfiguredCore, ea: Result<u32>|
        #[trigger] effective_address::index_ay_rel(c0, m1, ea) && match ea {
            Err(e) => r == Err::<Cycles, Exception>(e) && c1 == m1,
            Ok(a) => exists|m2: ConfiguredCore, w: Result<()>|
                #[trigger] data_written(m1, m2, 8, a, 0, w) && match w {
                    Err(e) => r == Err::<Cycles, Exception>(e) && c1 == m2,
                    Ok(_) => r == Ok::<Cycles, Exception>(Cycles(18)) && c1 == (ConfiguredCore { n_flag: 0, v_flag: 0, c_flag: 0, not_z_flag: 0, ..m2 }),
                },
        }
}

/// CLR on memory: zero written, Z set and N, V, C cleared.
pub fn clr_8_ix(core: &mut ConfiguredCore) -> (r: Result<Cycles>)
    requires
        old(core).wf(),
    ensures
        final(core).wf(),
        clr_8_ix_effect(*old(core), *final(core), r),
{
    let ghost c0 = *core;
    let value: u32 = 0;
    let ea = effective_address::index_ay(core);
    let ghost m1 = *core;
    assert(effective_address::index_ay_rel(c0, m1, ea));
    let a = match ea {
        Err(e) => {
            return Err(e);
        },
        Ok(a) => a,
    };
    let w = write_sized(core, 8, a, value);
    let ghost m2 = *core;
    assert(data_written(m1, m2, 8, a, 0, w));
    match w {
        Err(e) => Err(e),
        Ok(()) => {
            core.n_flag = 0;
            core.v_flag = 0;
            core.c_flag = 0;
            core.not_z_flag = 0;
            Ok(Cycles(18))
        },
    }
}

/// What `clr_8_aw` does: the core goes from `c0` to `c1` and `r` comes back.
pub open spec fn clr_8_aw_effect(c0: ConfiguredCore, c1: ConfiguredCore, r: Result<Cycles>) -> bool {
    exists|m1: ConfiguredCore, ea: Result<u32>|
        #[trigger] effective_address::absolute_word_rel(c0, m1, ea) && match ea {
            Err(e) => r == Err::<Cycles, Exception>(e) && c1 == m1,
            Ok(a) => exists|m2: ConfiguredCore, w: Result<()>|
                #[trigger] data_written(m1, m2, 8, a, 0, w) && match w {
                    Err(e) => r == Err::<Cycles, Exception>(e) && c1 == m2,
                    Ok(_) => r == Ok::<Cycles, Exception>(Cycles(16)) && c1 == (ConfiguredCore { n_flag: 0, v_flag: 0, c_flag: 0, not_z_flag: 0, ..m2 }),
                },
        }
}

/// CLR on memory: zero written, Z set and N, V, C cleared.
pub fn clr_8_aw(core: &mut ConfiguredCore) -> (r: Result<Cycles>)
    requires
        old(core).wf(),
    ensures
        final(core).wf(),
        clr_8_aw_effect(*old(core), *final(core), r),
{
    let ghost c0 = *core;
    let value: u32 = 0;
    let ea = effective_address::absolute_word(core);
    let ghost m1 = *core;
    assert(effective_address::absolute_word_rel(c0, m1, ea));
    let a = match ea {
        Err(e) => {
            return Err(e);
        },
        Ok(a) => a,
    };
    let w = write_sized(core, 8, a, value);
    let ghost m2 = *core;
    assert(data_written(m1, m2, 8, a, 0, w));
    match w {
        Err(e) => Err(e),
        Ok(()) => {
            core.n_flag = 0;
            core.v_flag = 0;
            core.c_flag = 0;
            core.not_z_flag = 0;
            Ok(Cycles(16))
        },
    }
}

/// What `clr_8_al` does: the core goes from `c0` to `c1` and `r` comes back.
pub open spec fn clr_8_al_effect(c0: ConfiguredCore, c1: ConfiguredCore, r: Result<Cycles>) -> bool {
    exists|m1: ConfiguredCore, ea: Result<u32>|
        #[trigger] effective_address::absolute_long_rel(c0, m1, ea) && match ea {
            Err(e) => r == Err::<Cycles, Exception>(e) && c1 == m1,
            Ok(a) => exists|m2: ConfiguredCore, w: Result<()>|
                #[trigger] data_written(m1, m2, 8, a, 0, w) && match w {
                    Err(e) => r == Err::<Cycles, Exception>(e) && c1 == m2,
                    Ok(_) => r == Ok::<Cycles, Exception>(Cycles(20)) && c1 == (ConfiguredCore { n_flag: 0, v_flag: 0, c_flag: 0, not_z_flag: 0, ..m2 }),
                },
        }
}

/// CLR on memory: zero written, Z set and N, V, C cleared.
pub fn clr_8_al(core: &mut ConfiguredCore) -> (r: Result<Cycles>)
    requires
        old(core).wf(),
    ensures
        final(core).wf(),
        clr_8_al_effect(*old(core), *final(core), r),
{
    let ghost c0 = *core;
    let value: u32 = 0;
    let ea = effective_address::absolute_long(core);
    let ghost m1 = *core;
    assert(effective_address::absolute_long_rel(c0, m1, ea));
    let a = match ea {
        Err(e) => {
            return Err(e);
        },
        Ok(a) => a,
    };
    let w = write_sized(core, 8, a, value);
    let ghost m2 = *core;
    assert(data_written(m1, m2, 8, a, 0, w));
    match w {
        Err(e) => Err(e),
        Ok(()) => {
            core.n_flag = 0;
            core.v_flag = 0;
            core.c_flag = 0;
            core.not_z_flag = 0;
            Ok(Cycles(20))
        },
    }
}

/// What `clr_16_ai` does: the core goes from `c0` to `c1` and `r` comes back.
pub open spec fn clr_16_ai_effect(c0: ConfiguredCore, c1: ConfiguredCore, r: Result<Cycles>) -> bool {
    exists|m1: ConfiguredCore, ea: Result<u32>|
        #[trigger] effective_address::address_indirect_ay_rel(c0, m1, ea) && match ea {
            Err(e) => r == Err::<Cycles, Exception>(e) && c1 == m1,
            Ok(a) => exists|m2: ConfiguredCore, w: Result<()>|
                #[trigger] data_written(m1, m2, 16, a, 0, w) && match w {
                    Err(e) => r == Err::<Cycles, Exception>(e) && c1 == m2,
                    Ok(_) => r == Ok::<Cycles, Exception>(Cycles(12)) && c1 == (ConfiguredCore { n_flag: 0, v_flag: 0, c_flag: 0, not_z_flag: 0, ..m2 }),
                },
        }
}

/// CLR on memory: zero written, Z set and N, V, C cleared.
pub fn clr_16_ai(core: &mut ConfiguredCore) -> (r: Result<Cycles>)
    requires
        old(core).wf(),
    ensures
        final(core).wf(),
        clr_16_ai_effect(*old(core), *final(core), r),
{
    let ghost c0 = *core;
    let value: u32 = 0;
    let ea = effective_address::address_indirect_ay(core);
    let ghost m1 = *core;
    assert(effective_address::address_indirect_ay_rel(c0, m1, ea));
    let a = match ea {
        Err(e) => {
            return Err(e);
        },
        Ok(a) => a,
    };
    let w = write_sized(core, 16, a, value);
    let ghost m2 = *core;
    assert(data_written(m1, m2, 16, a, 0, w));
    match w {
        Err(e) => Err(e),
        Ok(()) => {
            core.n_flag = 0;
            core.v_flag = 0;
            core.c_flag = 0;
            core.not_z_flag = 0;
            Ok(Cycles(12))
        },
    }
}

/// What `clr_16_pi` does: the core goes from `c0` to `c1` and `r` comes back.
pub open spec fn clr_16_pi_effect(c0: ConfiguredCore, c1: ConfiguredCore, r: Result<Cycles>) -> bool {
    exists|m1: ConfiguredCore, ea: Result<u32>|
        #[trigger] effective_address::postincrement_ay_16_rel(c0, m1, ea) && match ea {
            Err(e) => r == Err::<Cycles, Exception>(e) && c1 == m1,
            Ok(a) => exists|m2: ConfiguredCore, w: Result<()>|
                #[trigger] data_written(m1, m2, 16, a, 0, w) && match w {
                    Err(e) => r == Err::<Cycles, Exception>(e) && c1 == m2,
                    Ok(_) => r == Ok::<Cycles, Exception>(Cycles(12)) && c1 == (ConfiguredCore { n_flag: 0, v_flag: 0, c_flag: 0, not_z_flag: 0, ..m2 }),
                },
        }
}

/// CLR on memory: zero written, Z set and N, V, C cleared.
pub fn clr_16_pi(core: &mut ConfiguredCore) -> (r: Result<Cycles>)
    requires
        old(core).wf(),
    ensures
        final(core).wf(),
        clr_16_pi_effect(*old(core), *final(core), r),
{
    let ghost c0 = *core;
    let value: u32 = 0;
    let ea = effective_address::postincrement_ay_16(core);
    let ghost m1 = *core;
    assert(effective_address::postincrement_ay_16_rel(c0, m1, ea));
    let a = match ea {
        Err(e) => {
            return Err(e);
        },
        Ok(a) => a,
    };
    let w = write_sized(core, 16, a, value);
    let ghost m2 = *core;
    assert(data_written(m1, m2, 16, a, 0, w));
    match w {
        Err(e) => Err(e),
        Ok(()) => {
            core.n_flag = 0;
            core.v_flag = 0;
            core.c_flag = 0;
            core.not_z_flag = 0;
            Ok(Cycles(12))
        },
    }
}

/// What `clr_16_pd` does: the core goes from `c0` to `c1` and `r` comes back.
pub open spec fn clr_16_pd_effect(c0: ConfiguredCore, c1: ConfiguredCore, r: Result<Cycles>) -> bool {
    exists|m1: ConfiguredCore, ea: Result<u32>|
        #[trigger] effective_address::predecrement_ay_16_rel(c0, m1, ea) && match ea {
            Err(e) => r == Err::<Cycles, Exception>(e) && c1 == m1,
            Ok(a) => exists|m2: ConfiguredCore, w: Result<()>|
                #[trigger] data_written(m1, m2, 16, a, 0, w) && match w {
                    Err(e) => r == Err::<Cycles, Exception>(e) && c1 == m2,
                    Ok(_) => r == Ok::<Cycles, Exception>(Cycles(14)) && c1 == (ConfiguredCore { n_flag: 0, v_flag: 0, c_flag: 0, not_z_flag: 0, ..m2 }),
                },
        }
}

/// CLR on memory: zero written, Z set and N, V, C cleared.
pub fn clr_16_pd(core: &mut ConfiguredCore) -> (r: Result<Cycles>)
    requires
        old(core).wf(),
    ensures
        final(core).wf(),
        clr_16_pd_effect(*old(core), *final(core), r),
{
    let ghost c0 = *core;
    let value: u32 = 0;
    let ea = effective_address::predecrement_ay_16(core);
    let ghost m1 = *core;
    assert(effective_address::predecrement_ay_16_rel(c0, m1, ea));
    let a = match ea {
        Err(e) => {
            return Err(e);
        },
        Ok(a) => a,
    };
    let w = write_sized(core, 16, a, value);
    let ghost m2 = *core;
    assert(data_written(m1, m2, 16, a, 0, w));
    match w {
        Err(e) => Err(e),
        Ok(()) => {
            core.n_flag = 0;
            core.v_flag = 0;
            core.c_flag = 0;
            core.not_z_flag = 0;
            Ok(Cycles(14))
        },
    }
}

/// What `clr_16_di` does: the core goes from `c0` to `c1` and `r` comes back.
pub open spec fn clr_16_di_effect(c0: ConfiguredCore, c1: ConfiguredCore, r: Result<Cycles>) -> bool {
    exists|m1: ConfiguredCore, ea: Result<u32>|
        #[trigger] effective_address::displacement_ay_rel(c0, m1, ea) && match ea {
            Err(e) => r == Err::<Cycles, Exception>(e) && c1 == m1,
            Ok(a) => exists|m2: ConfiguredCore, w: Result<()>|
                #[trigger] data_written(m1, m2, 16, a, 0, w) && match w {
                    Err(e) => r == Err::<Cycles, Exception>(e) && c1 == m2,
                    Ok(_) => r == Ok::<Cycles, Exception>(Cycles(16)) && c1 == (ConfiguredCore { n_flag: 0, v_flag: 0, c_flag: 0, not_z_flag: 0, ..m2 }),
                },
        }
}

/// CLR on memory: zero written, Z set and N, V, C cleared.
pub fn clr_16_di(core: &mut ConfiguredCore) -> (r: Result<Cycles>)
    requires
        old(core).wf(),
    ensures
        final(core).wf(),
        clr_16_di_effect(*old(core), *final(core), r),
{
    let ghost c0 = *core;
    let value: u32 = 0;
    let ea = effective_address::displacement_ay(core);
    let ghost m1 = *core;
    assert(effective_address::displacement_ay_rel(c0, m1, ea));
    let a = match ea {
        Err(e) => {
            return Err(e);
        },
        Ok(a) => a,
    };
    let w = write_sized(core, 16, a, value);
    let ghost m2 = *core;
    assert(data_written(m1, m2, 16, a, 0, w));
    match w {
        Err(e) => Err(e),
        Ok(()) => {
            core.n_flag = 0;
            core.v_flag = 0;
            core.c_flag = 0;
            core.not_z_flag = 0;
            Ok(Cycles(16))
        },
    }
}

/// What `clr_16_ix` does: the core goes from `c0` to `c1` and `r` comes back.
pub open spec fn clr_16_ix_effect(c0: ConfiguredCore, c1: ConfiguredCore, r: Result<Cycles>) -> bool {
    exists|m1: ConfiguredCore, ea: Result<u32>|
        #[trigger] effective_address::index_ay_rel(c0, m1, ea) && match ea {
            Err(e) => r == Err::<Cycles, Exception>(e) && c1 == m1,
            Ok(a) => exists|m2: ConfiguredCore, w: Result<()>|
                #[trigger] data_written(m1, m2, 16, a, 0, w) && match w {
                    Err(e) => r == Err::<Cycles, Exception>(e) && c1 == m2,
                    Ok(_) => r == Ok::<Cycles, Exception>(Cycles(18)) && c1 == (ConfiguredCore { n_flag: 0, v_flag: 0, c_flag: 0, not_z_flag: 0, ..m2 }),
                },
        }
}

/// CLR on memory: zero written, Z set and N, V, C cleared.
pub fn clr_16_ix(core: &mut ConfiguredCore) -> (r: Result<Cycles>)
    requires
        old(core).wf(),
    ensures
        final(core).wf(),
        clr_16_ix_effect(*old(core), *final(core), r),
{
    let ghost c0 = *core;
    let value: u32 = 0;
    let ea = effective_address::index_ay(core);
    let ghost m1 = *core;
    assert(effective_address::index_ay_rel(c0, m1, ea));
    let a = match ea {
        Err(e) => {
            return Err(e);
        },
        Ok(a) => a,
    };
    let w = write_sized(core, 16, a, value);
    let ghost m2 = *core;
    assert(data_written(m1, m2, 16, a, 0, w));
    match w {
        Err(e) => Err(e),
        Ok(()) => {
            core.n_flag = 0;
            core.v_flag = 0;
            core.c_flag = 0;
            core.not_z_flag = 0;
            Ok(Cycles(18))
        },
    }
}

/// What `clr_16_aw` does: the core goes from `c0` to `c1` and `r` comes back.
pub open spec fn clr_16_aw_effect(c0: ConfiguredCore, c1: ConfiguredCore, r: Result<Cycles>) -> bool {
    exists|m1: ConfiguredCore, ea: Result<u32>|
        #[trigger] effective_address::absolute_word_rel(c0, m1, ea) && match ea {
            Err(e) => r == Err::<Cycles, Exception>(e) && c1 == m1,
            Ok(a) => exists|m2: ConfiguredCore, w: Result<()>|
                #[trigger] data_written(m1, m2, 16, a, 0, w) && match w {
                    Err(e) => r == Err::<Cycles, Exception>(e) && c1 == m2,
                    Ok(_) => r == Ok::<Cycles, Exception>(Cycles(16)) && c1 == (ConfiguredCore { n_flag: 0, v_flag: 0, c_flag: 0, not_z_flag: 0, ..m2 }),
                },
        }
}

/// CLR on memory: zero written, Z set and N, V, C cleared.
pub fn clr_16_aw(core: &mut ConfiguredCore) -> (r: Result<Cycles>)
    requires
        old(core).wf(),
    ensures
        final(core).wf(),
        clr_16_aw_effect(*old(core), *final(core), r),
{
    let ghost c0 = *core;
    let value: u32 = 0;
    let ea = effective_address::absolute_word(core);
    let ghost m1 = *core;
    assert(effective_address::absolute_word_rel(c0, m1, ea));
    let a = match ea {
        Err(e) => {
            return Err(e);
        },
        Ok(a) => a,
    };
    let w = write_sized(core, 16, a, value);
    let ghost m2 = *core;
    assert(data_written(m1, m2, 16, a, 0, w));
    match w {
        Err(e) => Err(e),
        Ok(()) => {
            core.n_flag = 0;
            core.v_flag = 0;
            core.c_flag = 0;
            core.not_z_flag = 0;
            Ok(Cycles(16))
        },
    }
}

/// What `clr_16_al` does: the core goes from `c0` to `c1` and `r` comes back.
pub open spec fn clr_16_al_effect(c0: ConfiguredCore, c1: ConfiguredCore, r: Result<Cycles>) -> bool {
    exists|m1: ConfiguredCore, ea: Result<u32>|
        #[trigger] effective_address::absolute_long_rel(c0, m1, ea) && match ea {
            Err(e) => r == Err::<Cycles, Exception>(e) && c1 == m1,
            Ok(a) => exists|m2: ConfiguredCore, w: Result<()>|
                #[trigger] data_written(m1, m2, 16, a, 0, w) && match w {
                    Err(e) => r == Err::<Cycles, Exception>(e) && c1 == m2,
                    Ok(_) => r == Ok::<Cycles, Exception>(Cycles(20)) && c1 == (ConfiguredCore { n_flag: 0, v_flag: 0, c_flag: 0, not_z_flag: 0, ..m2 }),
                },
        }
}

/// CLR on memory: zero written, Z set and N, V, C cleared.
pub fn clr_16_al(core: &mut ConfiguredCore) -> (r: Result<Cycles>)
    requires
        old(core).wf(),
    ensures
        final(core).wf(),
        clr_16_al_effect(*old(core), *final(core), r),
{
    let ghost c0 = *core;
    let value: u32 = 0;
    let ea = effective_address::absolute_long(core);
    let ghost m1 = *core;
    assert(effective_address::absolute_long_rel(c0, m1, ea));
    let a = match ea {
        Err(e) => {
            return Err(e);
        },
        Ok(a) => a,
    };
    let w = write_sized(core, 16, a, value);
    let ghost m2 = *core;
    assert(data_written(m1, m2, 16, a, 0, w));
    match w {
        Err(e) => Err(e),
        Ok(()) => {
            core.n_flag = 0;
            core.v_flag = 0;
            core.c_flag = 0;
            core.not_z_flag = 0;
            Ok(Cycles(20))
        },
    }
}

/// What `clr_32_ai` does: the core goes from `c0` to `c1` and `r` comes back.
pub open spec fn clr_32_ai_effect(c0: ConfiguredCore, c1: ConfiguredCore, r: Result<Cycles>) -> bool {
    exists|m1: ConfiguredCore, ea: Result<u32>|
        #[trigger] effective_address::address_indirect_ay_rel(c0, m1, ea) && match ea {
            Err(e) => r == Err::<Cycles, Exception>(e) && c1 == m1,
            Ok(a) => exists|m2: ConfiguredCore, w: Result<()>|
                #[trigger] data_written(m1, m2, 32, a, 0, w) && match w {
                    Err(e) => r == Err::<Cycles, Exception>(e) && c1 == m2,
                    Ok(_) => r == Ok::<Cycles, Exception>(Cycles(20)) && c1 == (ConfiguredCore { n_flag: 0, v_flag: 0, c_flag: 0, not_z_flag: 0, ..m2 }),
                },
        }
}

/// CLR on memory: zero written, Z set and N, V, C cleared.
pub fn clr_32_ai(core: &mut ConfiguredCore) -> (r: Result<Cycles>)
    requires
        old(core).wf(),
    ensures
        final(core).wf(),
        clr_32_ai_effect(*old(core), *final(core), r),
{
    let ghost c0 = *core;
    let value: u32 = 0;
    let ea = effective_address::address_indirect_ay(core);
    let ghost m1 = *core;
    assert(effective_address::address_indirect_ay_rel(c0, m1, ea));
    let a = match ea {
        Err(e) => {
            return Err(e);
        },
        Ok(a) => a,
    };
    let w = write_sized(core, 32, a, value);
    let ghost m2 = *core;
    assert(data_written(m1, m2, 32, a, 0, w));
    match w {
        Err(e) => Err(e),
        Ok(()) => {
            core.n_flag = 0;
            core.v_flag = 0;
            core.c_flag = 0;
            core.not_z_flag = 0;
            Ok(Cycles(20))
        },
    }
}

/// What `clr_32_pi` does: the core goes from `c0` to `c1` and `r` comes back.
pub open spec fn clr_32_pi_effect(c0: ConfiguredCore, c1: ConfiguredCore, r: Result<Cycles>) -> bool {
    exists|m1: ConfiguredCore, ea: Result<u32>|
        #[trigger] effective_address::postincrement_ay_32_rel(c0, m1, ea) && match ea {
            Err(e) => r == Err::<Cycles, Exception>(e) && c1 == m1,
            Ok(a) => exists|m2: ConfiguredCore, w: Result<()>|
                #[trigger] data_written(m1, m2, 32, a, 0, w) && match w {
                    Err(e) => r == Err::<Cycles, Exception>(e) && c1 == m2,
                    Ok(_) => r == Ok::<Cycles, Exception>(Cycles(20)) && c1 == (ConfiguredCore { n_flag: 0, v_flag: 0, c_flag: 0, not_z_flag: 0, ..m2 }),
                },
        }
}

/// CLR on memory: zero written, Z set and N, V, C cleared.
pub fn clr_32_pi(core: &mut ConfiguredCore) -> (r: Result<Cycles>)
    requires
        old(core).wf(),
    ensures
        final(core).wf(),
        clr_32_pi_effect(*old(core), *final(core), r),
{
    let ghost c0 = *core;
    let value: u32 = 0;
    let ea = effective_address::postincrement_ay_32(core);
    let ghost m1 = *core;
    assert(effective_address::postincrement_ay_32_rel(c0, m1, ea));
    let a = match ea {
        Err(e) => {
            return Err(e);
        },
        Ok(a) => a,
    };
    let w = write_sized(core, 32, a, value);
    let ghost m2 = *core;
    assert(data_written(m1, m2, 32, a, 0, w));
    match w {
        Err(e) => Err(e),
        Ok(()) => {
            core.n_flag = 0;
            core.v_flag = 0;
            core.c_flag = 0;
            core.not_z_flag = 0;
            Ok(Cycles(20))
        },
    }
}

/// What `clr_32_pd` does: the core goes from `c0` to `c1` and `r` comes back.
pub open spec fn clr_32_pd_effect(c0: ConfiguredCore, c1: ConfiguredCore, r: Result<Cycles>) -> bool {
    exists|m1: ConfiguredCore, ea: Result<u32>|
        #[trigger] effective_address::predecrement_ay_32_rel(c0, m1, ea) && match ea {
            Err(e) => r == Err::<Cycles, Exception>(e) && c1 == m1,
            Ok(a) => exists|m2: ConfiguredCore, w: Result<()>|
                #[trigger] data_written(m1, m2, 32, a, 0, w) && match w {
                    Err(e) => r == Err::<Cycles, Exception>(e) && c1 == m2,
                    Ok(_) => r == Ok::<Cycles, Exception>(Cycles(22)) && c1 == (ConfiguredCore { n_flag: 0, v_flag: 0, c_flag: 0, not_z_flag: 0, ..m2 }),
                },
        }
}

/// CLR on memory: zero written, Z set and N, V, C cleared.
pub fn clr_32_pd(core: &mut ConfiguredCore) -> (r: Result<Cycles>)
    requires
        old(core).wf(),
    ensures
        final(core).wf(),
        clr_32_pd_effect(*old(core), *final(core), r),
{
    let ghost c0 = *core;
    let value: u32 = 0;
    let ea = effective_address::predecrement_ay_32(core);
    let ghost m1 = *core;
    assert(effective_address::predecrement_ay_32_rel(c0, m1, ea));
    let a = match ea {
        Err(e) => {
            return Err(e);
        },
        Ok(a) => a,
    };
    let w = write_sized(core, 32, a, value);
    let ghost m2 = *core;
    assert(data_written(m1, m2, 32, a, 0, w));
    match w {
        Err(e) => Err(e),
        Ok(()) => {
            core.n_flag = 0;
            core.v_flag = 0;
            core.c_flag = 0;
            core.not_z_flag = 0;
            Ok(Cycles(22))
        },
    }
}

/// What `clr_32_di` does: the core goes from `c0` to `c1` and `r` comes back.
pub open spec fn clr_32_di_effect(c0: ConfiguredCore, c1: ConfiguredCore, r: Result<Cycles>) -> bool {
    exists|m1: ConfiguredCore, ea: Result<u32>|
        #[trigger] effective_address::displacement_ay_rel(c0, m1, ea) && match ea {
            Err(e) => r == Err::<Cycles, Exception>(e) && c1 == m1,
            Ok(a) => exists|m2: ConfiguredCore, w: Result<()>|
                #[trigger] data_written(m1, m2, 32, a, 0, w) && match w {
                    Err(e) => r == Err::<Cycles, Exception>(e) && c1 == m2,
                    Ok(_) => r == Ok::<Cycles, Exception>(Cycles(24)) && c1 == (ConfiguredCore { n_flag: 0, v_flag: 0, c_flag: 0, not_z_flag: 0, ..m2 }),
                },
        }
}

/// CLR on memory: zero written, Z set and N, V, C cleared.
pub fn clr_32_di(core: &mut ConfiguredCore) -> (r: Result<Cycles>)
    requires
        old(core).wf(),
    ensures
        final(core).wf(),
        clr_32_di_effect(*old(core), *final(core), r),
{
    let ghost c0 = *core;
    let value: u32 = 0;
    let ea = effective_address::displacement_ay(core);
    let ghost m1 = *core;
    assert(effective_address::displacement_ay_rel(c0, m1, ea));
    let a = match ea {
        Err(e) => {
            return Err(e);
        },
        Ok(a) => a,
    };
    let w = write_sized(core, 32, a, value);
    let ghost m2 = *core;
    assert(data_written(m1, m2, 32, a, 0, w));
    match w {
        Err(e) => Err(e),
        Ok(()) => {
            core.n_flag = 0;
            core.v_flag = 0;
            core.c_flag = 0;
            core.not_z_flag = 0;
            Ok(Cycles(24))
        },
    }
}

/// What `clr_32_ix` does: the core goes from `c0` to `c1` and `r` comes back.
pub open spec fn clr_32_ix_effect(c0: ConfiguredCore, c1: ConfiguredCore, r: Result<Cycles>) -> bool {
    exists|m1: ConfiguredCore, ea: Result<u32>|
        #[trigger] effective_address::index_ay_rel(c0, m1, ea) && match ea {
            Err(e) => r == Err::<Cycles, Exception>(e) && c1 == m1,
            Ok(a) => exists|m2: ConfiguredCore, w: Result<()>|
                #[trigger] data_written(m1, m2, 32, a, 0, w) && match w {
                    Err(e) => r == Err::<Cycles, Exception>(e) && c1 == m2,
                    Ok(_) => r == Ok::<Cycles, Exception>(Cycles(26)) && c1 == (ConfiguredCore { n_flag: 0, v_flag: 0, c_flag: 0, not_z_flag: 0, ..m2 }),
                },
        }
}

/// CLR on memory: zero written, Z set and N, V, C cleared.
pub fn clr_32_ix(core: &mut ConfiguredCore) -> (r: Result<Cycles>)
    requires
        old(core).wf(),
    ensures
        final(core).wf(),
        clr_32_ix_effect(*old(core), *final(core), r),
{
    let ghost c0 = *core;
    let value: u32 = 0;
    let ea = effective_address::index_ay(core);
    let ghost m1 = *core;
    assert(effective_address::index_ay_rel(c0, m1, ea));
    let a = match ea {
        Err(e) => {
            return Err(e);
        },
        Ok(a) => a,
    };
    let w = write_sized(core, 32, a, value);
    let ghost m2 = *core;
    assert(data_written(m1, m2, 32, a, 0, w));
    match w {
        Err(e) => Err(e),
        Ok(()) => {
            core.n_flag = 0;
            core.v_flag = 0;
            core.c_flag = 0;
            core.not_z_flag = 0;
            Ok(Cycles(26))
        },
    }
}

/// What `clr_32_aw` does: the core goes from `c0` to `c1` and `r` comes back.
pub open spec fn clr_32_aw_effect(c0: ConfiguredCore, c1: ConfiguredCore, r: Result<Cycles>) -> bool {
    exists|m1: ConfiguredCore, ea: Result<u32>|
        #[trigger] effective_address::absolute_word_rel(c0, m1, ea) && match ea {
            Err(e) => r == Err::<Cycles, Exception>(e) && c1 == m1,
            Ok(a) => exists|m2: ConfiguredCore, w: Result<()>|
                #[trigger] data_written(m1, m2, 32, a, 0, w) && match w {
                    Err(e) => r == Err::<Cycles, Exception>(e) && c1 == m2,
                    Ok(_) => r == Ok::<Cycles, Exception>(Cycles(24)) && c1 == (ConfiguredCore { n_flag: 0, v_flag: 0, c_flag: 0, not_z_flag: 0, ..m2 }),
                },
        }
}

/// CLR on memory: zero written, Z set and N, V, C cleared.
pub fn clr_32_aw(core: &mut ConfiguredCore) -> (r: Result<Cycles>)
    requires
        old(core).wf(),
    ensures
        final(core).wf(),
        clr_32_aw_effect(*old(core), *final(core), r),
{
    let ghost c0 = *core;
    let value: u32 = 0;
    let ea = effective_address::absolute_word(core);
    let ghost m1 = *core;
    assert(effective_address::absolute_word_rel(c0, m1, ea));
    let a = match ea {
        Err(e) => {
            return Err(e);
        },
        Ok(a) => a,
    };
    let w = write_sized(core, 32, a, value);
    let ghost m2 = *core;
    assert(data_written(m1, m2, 32, a, 0, w));
    match w {
        Err(e) => Err(e),
        Ok(()) => {
            core.n_flag = 0;
            core.v_flag = 0;
            core.c_flag = 0;
            core.not_z_flag = 0;
            Ok(Cycles(24))
        },
    }
}

/// What `clr_32_al` does: the core goes from `c0` to `c1` and `r` comes back.
pub open spec fn clr_32_al_effect(c0: ConfiguredCore, c1: ConfiguredCore, r: Result<Cycles>) -> bool {
    exists|m1: ConfiguredCore, ea: Result<u32>|
        #[trigger] effective_address::absolute_long_rel(c0, m1, ea) && match ea {
            Err(e) => r == Err::<Cycles, Exception>(e) && c1 == m1,
            Ok(a) => exists|m2: ConfiguredCore, w: Result<()>|
                #[trigger] data_written(m1, m2, 32, a, 0, w) && match w {
                    Err(e) => r == Err::<Cycles, Exception>(e) && c1 == m2,
                    Ok(_) => r == Ok::<Cycles, Exception>(Cycles(28)) && c1 == (ConfiguredCore { n_flag: 0, v_flag: 0, c_flag: 0, not_z_flag: 0, ..m2 }),
                },
        }
}

/// CLR on memory: zero written, Z set and N, V, C cleared.
pub fn clr_32_al(core: &mut ConfiguredCore) -> (r: Result<Cycles>)
    requires
        old(core).wf(),
    ensures
        final(core).wf(),
        clr_32_al_effect(*old(core), *final(core), r),
{
    let ghost c0 = *core;
    let value: u32 = 0;
    let ea = effective_address::absolute_long(core);
    let ghost m1 = *core;
    assert(effective_address::absolute_long_rel(c0, m1, ea));
    let a = match ea {
        Err(e) => {
            return Err(e);
        },
        Ok(a) => a,
    };
    let w = write_sized(core, 32, a, value);
    let ghost m2 = *core;
    assert(data_written(m1, m2, 32, a, 0, w));
    match w {
        Err(e) => Err(e),
        Ok(()) => {
            core.n_flag = 0;
            core.v_flag = 0;
            core.c_flag = 0;
            core.not_z_flag = 0;
            Ok(Cycles(28))
        },
    }
}

/// What `nbcd_8_dn` does: the core goes from `c0` to `c1` and `r` comes back.
pub open spec fn nbcd_8_dn_effect(c0: ConfiguredCore, c1: ConfiguredCore, r: Result<Cycles>) -> bool {
    let reg = ir_dy(c0.ir);
    let o = common::nbcd_outcome(c0, c0.dar[reg]);
    &&& r == Ok::<Cycles, Exception>(Cycles(6))
    &&& match o.1 {
        Some(res) => reg_set(o.0, c1, reg, merged(c0.dar[reg], res, 8)),
        None => c1 == o.0,
    }
}

/// NBCD: the byte negated in decimal with the extend bit.
pub fn nbcd_8_dn(core: &mut ConfiguredCore) -> (r: Result<Cycles>)
    requires
        old(core).wf(),
    ensures
        final(core).wf(),
        nbcd_8_dn_effect(*old(core), *final(core), r),
{
    let reg = reg_dy(core.ir);
    let dst = core.dar[reg];
    match common::nbcd(core, dst) {
        Some(res) => {
            set_reg(core, reg, merge(dst, res, 8));
        },
        None => {},
    }
    Ok(Cycles(6))
}

/// What `nbcd_8_ai` does: the core goes from `c0` to `c1` and `r` comes back.
pub open spec fn nbcd_8_ai_effect(c0: ConfiguredCore, c1: ConfiguredCore, r: Result<Cycles>) -> bool {
    exists|m1: ConfiguredCore, d: Result<(u32, u32)>|
        #[trigger] operator::ea_ay_ai_8_rel(c0, m1, d) && match d {
            Err(e) => r == Err::<Cycles, Exception>(e) && c1 == m1,
            Ok((dv, ea)) => {
                let o = common::nbcd_outcome(m1, dv);
                match o.1 {
                    Some(res) => stored(o.0, c1, 8, ea, res, r, 12),
                    None => r == Ok::<Cycles, Exception>(Cycles(12)) && c1 == o.0,
                }
            },
        }
}

/// NBCD: the byte negated in decimal with the extend bit.
pub fn nbcd_8_ai(core: &mut ConfiguredCore) -> (r: Result<Cycles>)
    requires
        old(core).wf(),
    ensures
        final(core).wf(),
        nbcd_8_ai_effect(*old(core), *final(core), r),
{
    let ghost c0 = *core;
    let d = operator::ea_ay_ai_8(core);
    let ghost m1 = *core;
    assert(operator::ea_ay_ai_8_rel(c0, m1, d));
    let (dv, ea) = match d {
        Err(e) => {
            return Err(e);
        },
        Ok(p) => p,
    };
    match common::nbcd(core, dv) {
        Some(res) => store(core, 8, ea, res, 12),
        None => Ok(Cycles(12)),
    }
}

/// What `nbcd_8_pi` does: the core goes from `c0` to `c1` and `r` comes back.
pub open spec fn nbcd_8_pi_effect(c0: ConfiguredCore, c1: ConfiguredCore, r: Result<Cycles>) -> bool {
    exists|m1: ConfiguredCore, d: Result<(u32, u32)>|
        #[trigger] operator::ea_ay_pi_8_rel(c0, m1, d) && match d {
            Err(e) => r == Err::<Cycles, Exception>(e) && c1 == m1,
            Ok((dv, ea)) => {
                let o = common::nbcd_outcome(m1, dv);
                match o.1 {
                    Some(res) => stored(o.0, c1, 8, ea, res, r, 12),
                    None => r == Ok::<Cycles, Exception>(Cycles(12)) && c1 == o.0,
                }
            },
        }
}

/// NBCD: the byte negated in decimal with the extend bit.
pub fn nbcd_8_pi(core: &mut ConfiguredCore) -> (r: Result<Cycles>)
    requires
        old(core).wf(),
    ensures
        final(core).wf(),
        nbcd_8_pi_effect(*old(core), *final(core), r),
{
    let ghost c0 = *core;
    let d = operator::ea_ay_pi_8(core);
    let ghost m1 = *core;
    assert(operator::ea_ay_pi_8_rel(c0, m1, d));
    let (dv, ea) = match d {
        Err(e) => {
            return Err(e);
        },
        Ok(p) => p,
    };
    match common::nbcd(core, dv) {
        Some(res) => store(core, 8, ea, res, 12),
        None => Ok(Cycles(12)),
    }
}

/// What `nbcd_8_pd` does: the core goes from `c0` to `c1` and `r` comes back.
pub open spec fn nbcd_8_pd_effect(c0: ConfiguredCore, c1: ConfiguredCore, r: Result<Cycles>) -> bool {
    exists|m1: ConfiguredCore, d: Result<(u32, u32)>|
        #[trigger] operator::ea_ay_pd_8_rel(c0, m1, d) && match d {
            Err(e) => r == Err::<Cycles, Exception>(e) && c1 == m1,
            Ok((dv, ea)) => {
                let o = common::nbcd_outcome(m1, dv);
                match o.1 {
                    Some(res) => stored(o.0, c1, 8, ea, res, r, 14),
                    None => r == Ok::<Cycles, Exception>(Cycles(14)) && c1 == o.0,
                }
            },
        }
}

/// NBCD: the byte negated in decimal with the extend bit.
pub fn nbcd_8_pd(core: &mut ConfiguredCore) -> (r: Result<Cycles>)
    requires
        old(core).wf(),
    ensures
        final(core).wf(),
        nbcd_8_pd_effect(*old(core), *final(core), r),
{
    let ghost c0 = *core;
    let d = operator::ea_ay_pd_8(core);
    let ghost m1 = *core;
    assert(operator::ea_ay_pd_8_rel(c0, m1, d));
    let (dv, ea) = match d {
        Err(e) => {
            return Err(e);
        },
        Ok(p) => p,
    };
    match common::nbcd(core, dv) {
        Some(res) => store(core, 8, ea, res, 14),
        None => Ok(Cycles(14)),
    }
}

/// What `nbcd_8_di` does: the core goes from `c0` to `c1` and `r` comes back.
pub open spec fn nbcd_8_di_effect(c0: ConfiguredCore, c1: ConfiguredCore, r: Result<Cycles>) -> bool {
    exists|m1: ConfiguredCore, d: Result<(u32, u32)>|
        #[trigger] operator::ea_ay_di_8_rel(c0, m1, d) && match d {
            Err(e) => r == Err::<Cycles, Exception>(e) && c1 == m1,
            Ok((dv, ea)) => {
                let o = common::nbcd_outcome(m1, dv);
                match o.1 {
                    Some(res) => stored(o.0, c1, 8, ea, res, r, 16),
                    None => r == Ok::<Cycles, Exception>(Cycles(16)) && c1 == o.0,
                }
            },
        }
}

/// NBCD: the byte negated in decimal with the extend bit.
pub fn nbcd_8_di(core: &mut ConfiguredCore) -> (r: Result<Cycles>)
    requires
        old(core).wf(),
    ensures
        final(core).wf(),
        nbcd_8_di_effect(*old(core), *final(core), r),
{
    let ghost c0 = *core;
    let d = operator::ea_ay_di_8(core);
    let ghost m1 = *core;
    assert(operator::ea_ay_di_8_rel(c0, m1, d));
    let (dv, ea) = match d {
        Err(e) => {
            return Err(e);
        },
        Ok(p) => p,
    };
    match common::nbcd(core, dv) {
        Some(res) => store(core, 8, ea, res, 16),
        None => Ok(Cycles(16)),
    }
}

/// What `nbcd_8_ix` does: the core goes from `c0` to `c1` and `r` comes back.
pub open spec fn nbcd_8_ix_effect(c0: ConfiguredCore, c1: ConfiguredCore, r: Result<Cycles>) -> bool {
    exists|m1: ConfiguredCore, d: Result<(u32, u32)>|
        #[trigger] operator::ea_ay_ix_8_rel(c0, m1, d) && match d {
            Err(e) => r == Err::<Cycles, Exception>(e) && c1 == m1,
            Ok((dv, ea)) => {
                let o = common::nbcd_outcome(m1, dv);
                match o.1 {
                    Some(res) => stored(o.0, c1, 8, ea, res, r, 18),
                    None => r == Ok::<Cycles, Exception>(Cycles(18)) && c1 == o.0,
                }
            },
        }
}

/// NBCD: the byte negated in decimal with the extend bit.
pub fn nbcd_8_ix(core: &mut ConfiguredCore) -> (r: Result<Cycles>)
    requires
        old(core).wf(),
    ensures
        final(core).wf(),
        nbcd_8_ix_effect(*old(core), *final(core), r),
{
    let ghost c0 = *core;
    let d = operator::ea_ay_ix_8(core);
    let ghost m1 = *core;
    assert(operator::ea_ay_ix_8_rel(c0, m1, d));
    let (dv, ea) = match d {
        Err(e) => {
            return Err(e);
        },
        Ok(p) => p,
    };
    match common::nbcd(core, dv) {
        Some(res) => store(core, 8, ea, res, 18),
        None => Ok(Cycles(18)),
    }
}

/// What `nbcd_8_aw` does: the core goes from `c0` to `c1` and `r` comes back.
pub open spec fn nbcd_8_aw_effect(c0: ConfiguredCore, c1: ConfiguredCore, r: Result<Cycles>) -> bool {
    exists|m1: ConfiguredCore, d: Result<(u32, u32)>|
        #[trigger] operator::ea_aw_8_rel(c0, m1, d) && match d {
            Err(e) => r == Err::<Cycles, Exception>(e) && c1 == m1,
            Ok((dv, ea)) => {
                let o = common::nbcd_outcome(m1, dv);
                match o.1 {
                    Some(res) => stored(o.0, c1, 8, ea, res, r, 16),
                    None => r == Ok::<Cycles, Exception>(Cycles(16)) && c1 == o.0,
                }
            },
        }
}

/// NBCD: the byte negated in decimal with the extend bit.
pub fn nbcd_8_aw(core: &mut ConfiguredCore) -> (r: Result<Cycles>)
    requires
        old(core).wf(),
    ensures
        final(core).wf(),
        nbcd_8_aw_effect(*old(core), *final(core), r),
{
    let ghost c0 = *core;
    let d = operator::ea_aw_8(core);
    let ghost m1 = *core;
    assert(operator::ea_aw_8_rel(c0, m1, d));
    let (dv, ea) = match d {
        Err(e) => {
            return Err(e);
        },
        Ok(p) => p,
    };
    match common::nbcd(core, dv) {
        Some(res) => store(core, 8, ea, res, 16),
        None => Ok(Cycles(16)),
    }
}

/// What `nbcd_8_al` does: the core goes from `c0` to `c1` and `r` comes back.
pub open spec fn nbcd_8_al_effect(c0: ConfiguredCore, c1: ConfiguredCore, r: Result<Cycles>) -> bool {
    exists|m1: ConfiguredCore, d: Result<(u32, u32)>|
        #[trigger] operator::ea_al_8_rel(c0, m1, d) && match d {
            Err(e) => r == Err::<Cycles, Exception>(e) && c1 == m1,
            Ok((dv, ea)) => {
                let o = common::nbcd_outcome(m1, dv);
                match o.1 {
                    Some(res) => stored(o.0, c1, 8, ea, res, r, 20),
                    None => r == Ok::<Cycles, Exception>(Cycles(20)) && c1 == o.0,
                }
            },
        }
}

/// NBCD: the byte negated in decimal with the extend bit.
pub fn nbcd_8_al(core: &mut ConfiguredCore) -> (r: Result<Cycles>)
    requires
        old(core).wf(),
    ensures
        final(core).wf(),
        nbcd_8_al_effect(*old(core), *final(core), r),
{
    let ghost c0 = *core;
    let d = operator::ea_al_8(core);
    let ghost m1 = *core;
    assert(operator::ea_al_8_rel(c0, m1, d));
    let (dv, ea) = match d {
        Err(e) => {
            return Err(e);
        },
        Ok(p) => p,
    };
    match common::nbcd(core, dv) {
        Some(res) => store(core, 8, ea, res, 20),
        None => Ok(Cycles(20)),
    }
}

/// What `neg_8_dn` does: the core goes from `c0` to `c1` and `r` comes back.
pub open spec fn neg_8_dn_effect(c0: ConfiguredCore, c1: ConfiguredCore, r: Result<Cycles>) -> bool {
    let reg = ir_dy(c0.ir);
    let o = common::sub_8_outcome(c0, 0, c0.dar[reg]);
    &&& r == Ok::<Cycles, Exception>(Cycles(4))
    &&& reg_set(o.0, c1, reg, merged(c0.dar[reg], o.1, 8))
}

/// NEG: the operand subtracted from zero.
pub fn neg_8_dn(core: &mut ConfiguredCore) -> (r: Result<Cycles>)
    requires
        old(core).wf(),
    ensures
        final(core).wf(),
        neg_8_dn_effect(*old(core), *final(core), r),
{
    let reg = reg_dy(core.ir);
    let dst = core.dar[reg];
    let res = common::sub_8(core, 0, dst);
    set_reg(core, reg, merge(dst, res, 8));
    Ok(Cycles(4))
}

/// What `neg_8_ai` does: the core goes from `c0` to `c1` and `r` comes back.
pub open spec fn neg_8_ai_effect(c0: ConfiguredCore, c1: ConfiguredCore, r: Result<Cycles>) -> bool {
    exists|m1: ConfiguredCore, d: Result<(u32, u32)>|
        #[trigger] operator::ea_ay_ai_8_rel(c0, m1, d) && match d {
            Err(e) => r == Err::<Cycles, Exception>(e) && c1 == m1,
            Ok((dv, ea)) => {
                let o = common::sub_8_outcome(m1, 0, dv);
                stored(o.0, c1, 8, ea, o.1 & 0xff, r, 12)
            },
        }
}

/// NEG: the operand subtracted from zero.
pub fn neg_8_ai(core: &mut ConfiguredCore) -> (r: Result<Cycles>)
    requires
        old(core).wf(),
    ensures
        final(core).wf(),
        neg_8_ai_effect(*old(core), *final(core), r),
{
    let ghost c0 = *core;
    let d = operator::ea_ay_ai_8(core);
    let ghost m1 = *core;
    assert(operator::ea_ay_ai_8_rel(c0, m1, d));
    let (dv, ea) = match d {
        Err(e) => {
            return Err(e);
        },
        Ok(p) => p,
    };
    let res = common::sub_8(core, 0, dv);
    store(core, 8, ea, res & 0xff, 12)
}

/// What `neg_8_pi` does: the core goes from `c0` to `c1` and `r` comes back.
pub open spec fn neg_8_pi_effect(c0: ConfiguredCore, c1: ConfiguredCore, r: Result<Cycles>) -> bool {
    exists|m1: ConfiguredCore, d: Result<(u32, u32)>|
        #[trigger] operator::ea_ay_pi_8_rel(c0, m1, d) && match d {
            Err(e) => r == Err::<Cycles, Exception>(e) && c1 == m1,
            Ok((dv, ea)) => {
                let o = common::sub_8_outcome(m1, 0, dv);
                stored(o.0, c1, 8, ea, o.1 & 0xff, r, 12)
            },
        }
}

/// NEG: the operand subtracted from zero.
pub fn neg_8_pi(core: &mut ConfiguredCore) -> (r: Result<Cycles>)
    requires
        old(core).wf(),
    ensures
        final(core).wf(),
        neg_8_pi_effect(*old(core), *final(core), r),
{
    let ghost c0 = *core;
    let d = operator::ea_ay_pi_8(core);
    let ghost m1 = *core;
    assert(operator::ea_ay_pi_8_rel(c0, m1, d));
    let (dv, ea) = match d {
        Err(e) => {
            return Err(e);
        },
        Ok(p) => p,
    };
    let res = common::sub_8(core, 0, dv);
    store(core, 8, ea, res & 0xff, 12)
}

/// What `neg_8_pd` does: the core goes from `c0` to `c1` and `r` comes back.
pub open spec fn neg_8_pd_effect(c0: ConfiguredCore, c1: ConfiguredCore, r: Result<Cycles>) -> bool {
    exists|m1: ConfiguredCore, d: Result<(u32, u32)>|
        #[trigger] operator::ea_ay_pd_8_rel(c0, m1, d) && match d {
            Err(e) => r == Err::<Cycles, Exception>(e) && c1 == m1,
            Ok((dv, ea)) => {
                let o = common::sub_8_outcome(m1, 0, dv);
                stored(o.0, c1, 8, ea, o.1 & 0xff, r, 14)
            },
        }
}

/// NEG: the operand subtracted from zero.
pub fn neg_8_pd(core: &mut ConfiguredCore) -> (r: Result<Cycles>)
    requires
        old(core).wf(),
    ensures
        final(core).wf(),
        neg_8_pd_effect(*old(core), *final(core), r),
{
    let ghost c0 = *core;
    let d = operator::ea_ay_pd_8(core);
    let ghost m1 = *core;
    assert(operator::ea_ay_pd_8_rel(c0, m1, d));
    let (dv, ea) = match d {
        Err(e) => {
            return Err(e);
        },
        Ok(p) => p,
    };
    let res = common::sub_8(core, 0, dv);
    store(core, 8, ea, res & 0xff, 14)
}

/// What `neg_8_di` does: the core goes from `c0` to `c1` and `r` comes back.
pub open spec fn neg_8_di_effect(c0: ConfiguredCore, c1: ConfiguredCore, r: Result<Cycles>) -> bool {
    exists|m1: ConfiguredCore, d: Result<(u32, u32)>|
        #[trigger] operator::ea_ay_di_8_rel(c0, m1, d) && match d {
            Err(e) => r == Err::<Cycles, Exception>(e) && c1 == m1,
            Ok((dv, ea)) => {
                let o = common::sub_8_outcome(m1, 0, dv);
                stored(o.0, c1, 8, ea, o.1 & 0xff, r, 16)
            },
        }
}

/// NEG: the operand subtracted from zero.
pub fn neg_8_di(core: &mut ConfiguredCore) -> (r: Result<Cycles>)
    requires
        old(core).wf(),
    ensures
        final(core).wf(),
        neg_8_di_effect(*old(core), *final(core), r),
{
    let ghost c0 = *core;
    let d = operator::ea_ay_di_8(core);
    let ghost m1 = *core;
    assert(operator::ea_ay_di_8_rel(c0, m1, d));
    let (dv, ea) = match d {
        Err(e) => {
            return Err(e);
        },
        Ok(p) => p,
    };
    let res = common::sub_8(core, 0, dv);
    store(core, 8, ea, res & 0xff, 16)
}

/// What `neg_8_ix` does: the core goes from `c0` to `c1` and `r` comes back.
pub open spec fn neg_8_ix_effect(c0: ConfiguredCore, c1: ConfiguredCore, r: Result<Cycles>) -> bool {
    exists|m1: ConfiguredCore, d: Result<(u32, u32)>|
        #[trigger] operator::ea_ay_ix_8_rel(c0, m1, d) && match d {
            Err(e) => r == Err::<Cycles, Exception>(e) && c1 == m1,
            Ok((dv, ea)) => {
                let o = common::sub_8_outcome(m1, 0, dv);
                stored(o.0, c1, 8, ea, o.1 & 0xff, r, 18)
            },
        }
}

/// NEG: the operand subtracted from zero.
pub fn neg_8_ix(core: &mut ConfiguredCore) -> (r: Result<Cycles>)
    requires
        old(core).wf(),
    ensures
        final(core).wf(),
        neg_8_ix_effect(*old(core), *final(core), r),
{
    let ghost c0 = *core;
    let d = operator::ea_ay_ix_8(core);
    let ghost m1 = *core;
    assert(operator::ea_ay_ix_8_rel(c0, m1, d));
    let (dv, ea) = match d {
        Err(e) => {
            return Err(e);
        },
        Ok(p) => p,
    };
    let res = common::sub_8(core, 0, dv);
    store(core, 8, ea, res & 0xff, 18)
}

/// What `neg_8_aw` does: the core goes from `c0` to `c1` and `r` comes back.
pub open spec fn neg_8_aw_effect(c0: ConfiguredCore, c1: ConfiguredCore, r: Result<Cycles>) -> bool {
    exists|m1: ConfiguredCore, d: Result<(u32, u32)>|
        #[trigger] operator::ea_aw_8_rel(c0, m1, d) && match d {
            Err(e) => r == Err::<Cycles, Exception>(e) && c1 == m1,
            Ok((dv, ea)) => {
                let o = common::sub_8_outcome(m1, 0, dv);
                stored(o.0, c1, 8, ea, o.1 & 0xff, r, 16)
            },
        }
}

/// NEG: the operand subtracted from zero.
pub fn neg_8_aw(core: &mut ConfiguredCore) -> (r: Result<Cycles>)
    requires
        old(core).wf(),
    ensures
        final(core).wf(),
        neg_8_aw_effect(*old(core), *final(core), r),
{
    let ghost c0 = *core;
    let d = operator::ea_aw_8(core);
    let ghost m1 = *core;
    assert(operator::ea_aw_8_rel(c0, m1, d));
    let (dv, ea) = match d {
        Err(e) => {
            return Err(e);
        },
        Ok(p) => p,
    };
    let res = common::sub_8(core, 0, dv);
    store(core, 8, ea, res & 0xff, 16)
}

/// What `neg_8_al` does: the core goes from `c0` to `c1` and `r` comes back.
pub open spec fn neg_8_al_effect(c0: ConfiguredCore, c1: ConfiguredCore, r: Result<Cycles>) -> bool {
    exists|m1: ConfiguredCore, d: Result<(u32, u32)>|
        #[trigger] operator::ea_al_8_rel(c0, m1, d) && match d {
            Err(e) => r == Err::<Cycles, Exception>(e) && c1 == m1,
            Ok((dv, ea)) => {
                let o = common::sub_8_outcome(m1, 0, dv);
                stored(o.0, c1, 8, ea, o.1 & 0xff, r, 20)
            },
        }
}

/// NEG: the operand subtracted from zero.
pub fn neg_8_al(core: &mut ConfiguredCore) -> (r: Result<Cycles>)
    requires
        old(core).wf(),
    ensures
        final(core).wf(),
        neg_8_al_effect(*old(core), *final(core), r),
{
    let ghost c0 = *core;
    let d = operator::ea_al_8(core);
    let ghost m1 = *core;
    assert(operator::ea_al_8_rel(c0, m1, d));
    let (dv, ea) = match d {
        Err(e) => {
            return Err(e);
        },
        Ok(p) => p,
    };
    let res = common::sub_8(core, 0, dv);
    store(core, 8, ea, res & 0xff, 20)
}

/// What `neg_16_dn` does: the core goes from `c0` to `c1` and `r` comes back.
pub open spec fn neg_16_dn_effect(c0: ConfiguredCore, c1: ConfiguredCore, r: Result<Cycles>) -> bool {
    let reg = ir_dy(c0.ir);
    let o = common::sub_16_outcome(c0, 0, c0.dar[reg]);
    &&& r == Ok::<Cycles, Exception>(Cycles(4))
    &&& reg_set(o.0, c1, reg, merged(c0.dar[reg], o.1, 16))
}

/// NEG: the operand subtracted from zero.
pub fn neg_16_dn(core: &mut ConfiguredCore) -> (r: Result<Cycles>)
    requires
        old(core).wf(),
    ensures
        final(core).wf(),
        neg_16_dn_effect(*old(core), *final(core), r),
{
    let reg = reg_dy(core.ir);
    let dst = core.dar[reg];
    let res = common::sub_16(core, 0, dst);
    set_reg(core, reg, merge(dst, res, 16));
    Ok(Cycles(4))
}

/// What `neg_16_ai` does: the core goes from `c0` to `c1` and `r` comes back.
pub open spec fn neg_16_ai_effect(c0: ConfiguredCore, c1: ConfiguredCore, r: Result<Cycles>) -> bool {
    exists|m1: ConfiguredCore, d: Result<(u32, u32)>|
        #[trigger] operator::ea_ay_ai_16_rel(c0, m1, d) && match d {
            Err(e) => r == Err::<Cycles, Exception>(e) && c1 == m1,
            Ok((dv, ea)) => {
                let o = common::sub_16_outcome(m1, 0, dv);
                stored(o.0, c1, 16, ea, o.1 & 0xffff, r, 12)
            },
        }
}

/// NEG: the operand subtracted from zero.
pub fn neg_16_ai(core: &mut ConfiguredCore) -> (r: Result<Cycles>)
    requires
        old(core).wf(),
    ensures
        final(core).wf(),
        neg_16_ai_effect(*old(core), *final(core), r),
{
    let ghost c0 = *core;
    let d = operator::ea_ay_ai_16(core);
    let ghost m1 = *core;
    assert(operator::ea_ay_ai_16_rel(c0, m1, d));
    let (dv, ea) = match d {
        Err(e) => {
            return Err(e);
        },
        Ok(p) => p,
    };
    let res = common::sub_16(core, 0, dv);
    store(core, 16, ea, res & 0xffff, 12)
}

/// What `neg_16_pi` does: the core goes from `c0` to `c1` and `r` comes back.
pub open spec fn neg_16_pi_effect(c0: ConfiguredCore, c1: ConfiguredCore, r: Result<Cycles>) -> bool {
    exists|m1: ConfiguredCore, d: Result<(u32, u32)>|
        #[trigger] operator::ea_ay_pi_16_rel(c0, m1, d) && match d {
            Err(e) => r == Err::<Cycles, Exception>(e) && c1 == m1,
            Ok((dv, ea)) => {
                let o = common::sub_16_outcome(m1, 0, dv);
                stored(o.0, c1, 16, ea, o.1 & 0xffff, r, 12)
            },
        }
}

/// NEG: the operand subtracted from zero.
pub fn neg_16_pi(core: &mut ConfiguredCore) -> (r: Result<Cycles>)
    requires
        old(core).wf(),
    ensures
        final(core).wf(),
        neg_16_pi_effect(*old(core), *final(core), r),
{
    let ghost c0 = *core;
    let d = operator::ea_ay_pi_16(core);
    let ghost m1 = *core;
    assert(operator::ea_ay_pi_16_rel(c0, m1, d));
    let (dv, ea) = match d {
        Err(e) => {
            return Err(e);
        },
        Ok(p) => p,
    };
    let res = common::sub_16(core, 0, dv);
    store(core, 16, ea, res & 0xffff, 12)
}

/// What `neg_16_pd` does: the core goes from `c0` to `c1` and `r` comes back.
pub open spec fn neg_16_pd_effect(c0: ConfiguredCore, c1: ConfiguredCore, r: Result<Cycles>) -> bool {
    exists|m1: ConfiguredCore, d: Result<(u32, u32)>|
        #[trigger] operator::ea_ay_pd_16_rel(c0, m1, d) && match d {
            Err(e) => r == Err::<Cycles, Exception>(e) && c1 == m1,
            Ok((dv, ea)) => {
                let o = common::sub_16_outcome(m1, 0, dv);
                stored(o.0, c1, 16, ea, o.1 & 0xffff, r, 14)
            },
        }
}

/// NEG: the operand subtracted from zero.
pub fn neg_16_pd(core: &mut ConfiguredCore) -> (r: Result<Cycles>)
    requires
        old(core).wf(),
    ensures
        final(core).wf(),
        neg_16_pd_effect(*old(core), *final(core), r),
{
    let ghost c0 = *core;
    let d = operator::ea_ay_pd_16(core);
    let ghost m1 = *core;
    assert(operator::ea_ay_pd_16_rel(c0, m1, d));
    let (dv, ea) = match d {
        Err(e) => {
            return Err(e);
        },
        Ok(p) => p,
    };
    let res = common::sub_16(core, 0, dv);
    store(core, 16, ea, res & 0xffff, 14)
}

/// What `neg_16_di` does: the core goes from `c0` to `c1` and `r` comes back.
pub open spec fn neg_16_di_effect(c0: ConfiguredCore, c1: ConfiguredCore, r: Result<Cycles>) -> bool {
    exists|m1: ConfiguredCore, d: Result<(u32, u32)>|
        #[trigger] operator::ea_ay_di_16_rel(c0, m1, d) && match d {
            Err(e) => r == Err::<Cycles, Exception>(e) && c1 == m1,
            Ok((dv, ea)) => {
                let o = common::sub_16_outcome(m1, 0, dv);
                stored(o.0, c1, 16, ea, o.1 & 0xffff, r, 16)
            },
        }
}

/// NEG: the operand subtracted from zero.
pub fn neg_16_di(core: &mut ConfiguredCore) -> (r: Result<Cycles>)
    requires
        old(core).wf(),
    ensures
        final(core).wf(),
        neg_16_di_effect(*old(core), *final(core), r),
{
    let ghost c0 = *core;
    let d = operator::ea_ay_di_16(core);
    let ghost m1 = *core;
    assert(operator::ea_ay_di_16_rel(c0, m1, d));
    let (dv, ea) = match d {
        Err(e) => {
            return Err(e);
        },
        Ok(p) => p,
    };
    let res = common::sub_16(core, 0, dv);
    store(core, 16, ea, res & 0xffff, 16)
}

/// What `neg_16_ix` does: the core goes from `c0` to `c1` and `r` comes back.
pub open spec fn neg_16_ix_effect(c0: ConfiguredCore, c1: ConfiguredCore, r: Result<Cycles>) -> bool {
    exists|m1: ConfiguredCore, d: Result<(u32, u32)>|
        #[trigger] operator::ea_ay_ix_16_rel(c0, m1, d) && match d {
            Err(e) => r == Err::<Cycles, Exception>(e) && c1 == m1,
            Ok((dv, ea)) => {
                let o = common::sub_16_outcome(m1, 0, dv);
                stored(o.0, c1, 16, ea, o.1 & 0xffff, r, 18)
            },
        }
}

/// NEG: the operand subtracted from zero.
pub fn neg_16_ix(core: &mut ConfiguredCore) -> (r: Result<Cycles>)
    requires
        old(core).wf(),
    ensures
        final(core).wf(),
        neg_16_ix_effect(*old(core), *final(core), r),
{
    let ghost c0 = *core;
    let d = operator::ea_ay_ix_16(core);
    let ghost m1 = *core;
    assert(operator::ea_ay_ix_16_rel(c0, m1, d));
    let (dv, ea) = match d {
        Err(e) => {
            return Err(e);
        },
        Ok(p) => p,
    };
    let res = common::sub_16(core, 0, dv);
    store(core, 16, ea, res & 0xffff, 18)
}

/// What `neg_16_aw` does: the core goes from `c0` to `c1` and `r` comes back.
pub open spec fn neg_16_aw_effect(c0: ConfiguredCore, c1: ConfiguredCore, r: Result<Cycles>) -> bool {
    exists|m1: ConfiguredCore, d: Result<(u32, u32)>|
        #[trigger] operator::ea_aw_16_rel(c0, m1, d) && match d {
            Err(e) => r == Err::<Cycles, Exception>(e) && c1 == m1,
            Ok((dv, ea)) => {
                let o = common::sub_16_outcome(m1, 0, dv);
                stored(o.0, c1, 16, ea, o.1 & 0xffff, r, 16)
            },
        }
}

/// NEG: the operand subtracted from zero.
pub fn neg_16_aw(core: &mut ConfiguredCore) -> (r: Result<Cycles>)
    requires
        old(core).wf(),
    ensures
        final(core).wf(),
        neg_16_aw_effect(*old(core), *final(core), r),
{
    let ghost c0 = *core;
    let d = operator::ea_aw_16(core);
    let ghost m1 = *core;
    assert(operator::ea_aw_16_rel(c0, m1, d));
    let (dv, ea) = match d {
        Err(e) => {
            return Err(e);
        },
        Ok(p) => p,
    };
    let res = common::sub_16(core, 0, dv);
    store(core, 16, ea, res & 0xffff, 16)
}

/// What `neg_16_al` does: the core goes from `c0` to `c1` and `r` comes back.
pub open spec fn neg_16_al_effect(c0: ConfiguredCore, c1: ConfiguredCore, r: Result<Cycles>) -> bool {
    exists|m1: ConfiguredCore, d: Result<(u32, u32)>|
        #[trigger] operator::ea_al_16_rel(c0, m1, d) && match d {
            Err(e) => r == Err::<Cycles, Exception>(e) && c1 == m1,
            Ok((dv, ea)) => {
                let o = common::sub_16_outcome(m1, 0, dv);
                stored(o.0, c1, 16, ea, o.1 & 0xffff, r, 20)
            },
        }
}

/// NEG: the operand subtracted from zero.
pub fn neg_16_al(core: &mut ConfiguredCore) -> (r: Result<Cycles>)
    requires
        old(core).wf(),
    ensures
        final(core).wf(),
        neg_16_al_effect(*old(core), *final(core), r),
{
    let ghost c0 = *core;
    let d = operator::ea_al_16(core);
    let ghost m1 = *core;
    assert(operator::ea_al_16_rel(c0, m1, d));
    let (dv, ea) = match d {
        Err(e) => {
            return Err(e);
        },
        Ok(p) => p,
    };
    let res = common::sub_16(core, 0, dv);
    store(core, 16, ea, res & 0xffff, 20)
}

/// What `neg_32_dn` does: the core goes from `c0` to `c1` and `r` comes back.
pub open spec fn neg_32_dn_effect(c0: ConfiguredCore, c1: ConfiguredCore, r: Result<Cycles>) -> bool {
    let reg = ir_dy(c0.ir);
    let o = common::sub_32_outcome(c0, 0, c0.dar[reg]);
    &&& r == Ok::<Cycles, Exception>(Cycles(6))
    &&& reg_set(o.0, c1, reg, merged(c0.dar[reg], o.1, 32))
}

/// NEG: the operand subtracted from zero.
pub fn neg_32_dn(core: &mut ConfiguredCore) -> (r: Result<Cycles>)
    requires
        old(core).wf(),
    ensures
        final(core).wf(),
        neg_32_dn_effect(*old(core), *final(core), r),
{
    let reg = reg_dy(core.ir);
    let dst = core.dar[reg];
    let res = common::sub_32(core, 0, dst);
    set_reg(core, reg, merge(dst, res, 32));
    Ok(Cycles(6))
}

/// What `neg_32_ai` does: the core goes from `c0` to `c1` and `r` comes back.
pub open spec fn neg_32_ai_effect(c0: ConfiguredCore, c1: ConfiguredCore, r: Result<Cycles>) -> bool {
    exists|m1: ConfiguredCore, d: Result<(u32, u32)>|
        #[trigger] operator::ea_ay_ai_32_rel(c0, m1, d) && match d {
            Err(e) => r == Err::<Cycles, Exception>(e) && c1 == m1,
            Ok((dv, ea)) => {
                let o = common::sub_32_outcome(m1, 0, dv);
                stored(o.0, c1, 32, ea, o.1, r, 20)
            },
        }
}

/// NEG: the operand subtracted from zero.
pub fn neg_32_ai(core: &mut ConfiguredCore) -> (r: Result<Cycles>)
    requires
        old(core).wf(),
    ensures
        final(core).wf(),
        neg_32_ai_effect(*old(core), *final(core), r),
{
    let ghost c0 = *core;
    let d = operator::ea_ay_ai_32(core);
    let ghost m1 = *core;
    assert(operator::ea_ay_ai_32_rel(c0, m1, d));
    let (dv, ea) = match d {
        Err(e) => {
            return Err(e);
        },
        Ok(p) => p,
    };
    let res = common::sub_32(core, 0, dv);
    store(core, 32, ea, res, 20)
}

/// What `neg_32_pi` does: the core goes from `c0` to `c1` and `r` comes back.
pub open spec fn neg_32_pi_effect(c0: ConfiguredCore, c1: ConfiguredCore, r: Result<Cycles>) -> bool {
    exists|m1: ConfiguredCore, d: Result<(u32, u32)>|
        #[trigger] operator::ea_ay_pi_32_rel(c0, m1, d) && match d {
            Err(e) => r == Err::<Cycles, Exception>(e) && c1 == m1,
            Ok((dv, ea)) => {
                let o = common::sub_32_outcome(m1, 0, dv);
                stored(o.0, c1, 32, ea, o.1, r, 20)
            },
        }
}

/// NEG: the operand subtracted from zero.
pub fn neg_32_pi(core: &mut ConfiguredCore) -> (r: Result<Cycles>)
    requires
        old(core).wf(),
    ensures
        final(core).wf(),
        neg_32_pi_effect(*old(core), *final(core), r),
{
    let ghost c0 = *core;
    let d = operator::ea_ay_pi_32(core);
    let ghost m1 = *core;
    assert(operator::ea_ay_pi_32_rel(c0, m1, d));
    let (dv, ea) = match d {
        Err(e) => {
            return Err(e);
        },
        Ok(p) => p,
    };
    let res = common::sub_32(core, 0, dv);
    store(core, 32, ea, res, 20)
}

/// What `neg_32_pd` does: the core goes from `c0` to `c1` and `r` comes back.
pub open spec fn neg_32_pd_effect(c0: ConfiguredCore, c1: ConfiguredCore, r: Result<Cycles>) -> bool {
    exists|m1: ConfiguredCore, d: Result<(u32, u32)>|
        #[trigger] operator::ea_ay_pd_32_rel(c0, m1, d) && match d {
            Err(e) => r == Err::<Cycles, Exception>(e) && c1 == m1,
            Ok((dv, ea)) => {
                let o = common::sub_32_outcome(m1, 0, dv);
                stored(o.0, c1, 32, ea, o.1, r, 22)
            },
        }
}

/// NEG: the operand subtracted from zero.
pub fn neg_32_pd(core: &mut ConfiguredCore) -> (r: Result<Cycles>)
    requires
        old(core).wf(),
    ensures
        final(core).wf(),
        neg_32_pd_effect(*old(core), *final(core), r),
{
    let ghost c0 = *core;
    let d = operator::ea_ay_pd_32(core);
    let ghost m1 = *core;
    assert(operator::ea_ay_pd_32_rel(c0, m1, d));
    let (dv, ea) = match d {
        Err(e) => {
            return Err(e);
        },
        Ok(p) => p,
    };
    let res = common::sub_32(core, 0, dv);
    store(core, 32, ea, res, 22)
}

/// What `neg_32_di` does: the core goes from `c0` to `c1` and `r` comes back.
pub open spec fn neg_32_di_effect(c0: ConfiguredCore, c1: ConfiguredCore, r: Result<Cycles>) -> bool {
    exists|m1: ConfiguredCore, d: Result<(u32, u32)>|
        #[trigger] operator::ea_ay_di_32_rel(c0, m1, d) && match d {
            Err(e) => r == Err::<Cycles, Exception>(e) && c1 == m1,
            Ok((dv, ea)) => {
                let o = common::sub_32_outcome(m1, 0, dv);
                stored(o.0, c1, 32, ea, o.1, r, 24)
            },
        }
}

/// NEG: the operand subtracted from zero.
pub fn neg_32_di(core: &mut ConfiguredCore) -> (r: Result<Cycles>)
    requires
        old(core).wf(),
    ensures
        final(core).wf(),
        neg_32_di_effect(*old(core), *final(core), r),
{
    let ghost c0 = *core;
    let d = operator::ea_ay_di_32(core);
    let ghost m1 = *core;
    assert(operator::ea_ay_di_32_rel(c0, m1, d));
    let (dv, ea) = match d {
        Err(e) => {
            return Err(e);
        },
        Ok(p) => p,
    };
    let res = common::sub_32(core, 0, dv);
    store(core, 32, ea, res, 24)
}

/// What `neg_32_ix` does: the core goes from `c0` to `c1` and `r` comes back.
pub open spec fn neg_32_ix_effect(c0: ConfiguredCore, c1: ConfiguredCore, r: Result<Cycles>) -> bool {
    exists|m1: ConfiguredCore, d: Result<(u32, u32)>|
        #[trigger] operator::ea_ay_ix_32_rel(c0, m1, d) && match d {
            Err(e) => r == Err::<Cycles, Exception>(e) && c1 == m1,
            Ok((dv, ea)) => {
                let o = common::sub_32_outcome(m1, 0, dv);
                stored(o.0, c1, 32, ea, o.1, r, 26)
            },
        }
}

/// NEG: the operand subtracted from zero.
pub fn neg_32_ix(core: &mut ConfiguredCore) -> (r: Result<Cycles>)
    requires
        old(core).wf(),
    ensures
        final(core).wf(),
        neg_32_ix_effect(*old(core), *final(core), r),
{
    let ghost c0 = *core;
    let d = operator::ea_ay_ix_32(core);
    let ghost m1 = *core;
    assert(operator::ea_ay_ix_32_rel(c0, m1, d));
    let (dv, ea) = match d {
        Err(e) => {
            return Err(e);
        },
        Ok(p) => p,
    };
    let res = common::sub_32(core, 0, dv);
    store(core, 32, ea, res, 26)
}

/// What `neg_32_aw` does: the core goes from `c0` to `c1` and `r` comes back.
pub open spec fn neg_32_aw_effect(c0: ConfiguredCore, c1: ConfiguredCore, r: Result<Cycles>) -> bool {
    exists|m1: ConfiguredCore, d: Result<(u32, u32)>|
        #[trigger] operator::ea_aw_32_rel(c0, m1, d) && match d {
            Err(e) => r == Err::<Cycles, Exception>(e) && c1 == m1,
            Ok((dv, ea)) => {
                let o = common::sub_32_outcome(m1, 0, dv);
                stored(o.0, c1, 32, ea, o.1, r, 24)
            },
        }
}

/// NEG: the operand subtracted from zero.
pub fn neg_32_aw(core: &mut ConfiguredCore) -> (r: Result<Cycles>)
    requires
        old(core).wf(),
    ensures
        final(core).wf(),
        neg_32_aw_effect(*old(core), *final(core), r),
{
    let ghost c0 = *core;
    let d = operator::ea_aw_32(core);
    let ghost m1 = *core;
    assert(operator::ea_aw_32_rel(c0, m1, d));
    let (dv, ea) = match d {
        Err(e) => {
            return Err(e);
        },
        Ok(p) => p,
    };
    let res = common::sub_32(core, 0, dv);
    store(core, 32, ea, res, 24)
}

/// What `neg_32_al` does: the core goes from `c0` to `c1` and `r` comes back.
pub open spec fn neg_32_al_effect(c0: ConfiguredCore, c1: ConfiguredCore, r: Result<Cycles>) -> bool {
    exists|m1: ConfiguredCore, d: Result<(u32, u32)>|
        #[trigger] operator::ea_al_32_rel(c0, m1, d) && match d {
            Err(e) => r == Err::<Cycles, Exception>(e) && c1 == m1,
            Ok((dv, ea)) => {
                let o = common::sub_32_outcome(m1, 0, dv);
                stored(o.0, c1, 32, ea, o.1, r, 28)
            },
        }
}

/// NEG: the operand subtracted from zero.
pub fn neg_32_al(core: &mut ConfiguredCore) -> (r: Result<Cycles>)
    requires
        old(core).wf(),
    ensures
        final(core).wf(),
        neg_32_al_effect(*old(core), *final(core), r),
{
    let ghost c0 = *core;
    let d = operator::ea_al_32(core);
    let ghost m1 = *core;
    assert(operator::ea_al_32_rel(c0, m1, d));
    let (dv, ea) = match d {
        Err(e) => {
            return Err(e);
        },
        Ok(p) => p,
    };
    let res = common::sub_32(core, 0, dv);
    store(core, 32, ea, res, 28)
}

/// What `negx_8_dn` does: the core goes from `c0` to `c1` and `r` comes back.
pub open spec fn negx_8_dn_effect(c0: ConfiguredCore, c1: ConfiguredCore, r: Result<Cycles>) -> bool {
    let reg = ir_dy(c0.ir);
    let o = common::subx_8_outcome(c0, 0, c0.dar[reg]);
    &&& r == Ok::<Cycles, Exception>(Cycles(4))
    &&& reg_set(o.0, c1, reg, merged(c0.dar[reg], o.1, 8))
}

/// NEGX: the operand and the extend bit subtracted from zero.
pub fn negx_8_dn(core: &mut ConfiguredCore) -> (r: Result<Cycles>)
    requires
        old(core).wf(),
    ensures
        final(core).wf(),
        negx_8_dn_effect(*old(core), *final(core), r),
{
    let reg = reg_dy(core.ir);
    let dst = core.dar[reg];
    let res = common::subx_8(core, 0, dst);
    set_reg(core, reg, merge(dst, res, 8));
    Ok(Cycles(4))
}

/// What `negx_8_ai` does: the core goes from `c0` to `c1` and `r` comes back.
pub open spec fn negx_8_ai_effect(c0: ConfiguredCore, c1: ConfiguredCore, r: Result<Cycles>) -> bool {
    exists|m1: ConfiguredCore, d: Result<(u32, u32)>|
        #[trigger] operator::ea_ay_ai_8_rel(c0, m1, d) && match d {
            Err(e) => r == Err::<Cycles, Exception>(e) && c1 == m1,
            Ok((dv, ea)) => {
                let o = common::subx_8_outcome(m1, 0, dv);
                stored(o.0, c1, 8, ea, o.1 & 0xff, r, 12)
            },
        }
}

/// NEGX: the operand and the extend bit subtracted from zero.
pub fn negx_8_ai(core: &mut ConfiguredCore) -> (r: Result<Cycles>)
    requires
        old(core).wf(),
    ensures
        final(core).wf(),
        negx_8_ai_effect(*old(core), *final(core), r),
{
    let ghost c0 = *core;
    let d = operator::ea_ay_ai_8(core);
    let ghost m1 = *core;
    assert(operator::ea_ay_ai_8_rel(c0, m1, d));
    let (dv, ea) = match d {
        Err(e) => {
            return Err(e);
        },
        Ok(p) => p,
    };
    let res = common::subx_8(core, 0, dv);
    store(core, 8, ea, res & 0xff, 12)
}

/// What `negx_8_pi` does: the core goes from `c0` to `c1` and `r` comes back.
pub open spec fn negx_8_pi_effect(c0: ConfiguredCore, c1: ConfiguredCore, r: Result<Cycles>) -> bool {
    exists|m1: ConfiguredCore, d: Result<(u32, u32)>|
        #[trigger] operator::ea_ay_pi_8_rel(c0, m1, d) && match d {
            Err(e) => r == Err::<Cycles, Exception>(e) && c1 == m1,
            Ok((dv, ea)) => {
                let o = common::subx_8_outcome(m1, 0, dv);
                stored(o.0, c1, 8, ea, o.1 & 0xff, r, 12)
            },
        }
}

/// NEGX: the operand and the extend bit subtracted from zero.
pub fn negx_8_pi(core: &mut ConfiguredCore) -> (r: Result<Cycles>)
    requires
        old(core).wf(),
    ensures
        final(core).wf(),
        negx_8_pi_effect(*old(core), *final(core), r),
{
    let ghost c0 = *core;
    let d = operator::ea_ay_pi_8(core);
    let ghost m1 = *core;
    assert(operator::ea_ay_pi_8_rel(c0, m1, d));
    let (dv, ea) = match d {
        Err(e) => {
            return Err(e);
        },
        Ok(p) => p,
    };
    let res = common::subx_8(core, 0, dv);
    store(core, 8, ea, res & 0xff, 12)
}

/// What `negx_8_pd` does: the core goes from `c0` to `c1` and `r` comes back.
pub open spec fn negx_8_pd_effect(c0: ConfiguredCore, c1: ConfiguredCore, r: Result<Cycles>) -> bool {
    exists|m1: ConfiguredCore, d: Result<(u32, u32)>|
        #[trigger] operator::ea_ay_pd_8_rel(c0, m1, d) && match d {
            Err(e) => r == Err::<Cycles, Exception>(e) && c1 == m1,
            Ok((dv, ea)) => {
                let o = common::subx_8_outcome(m1, 0, dv);
                stored(o.0, c1, 8, ea, o.1 & 0xff, r, 14)
            },
        }
}

/// NEGX: the operand and the extend bit subtracted from zero.
pub fn negx_8_pd(core: &mut ConfiguredCore) -> (r: Result<Cycles>)
    requires
        old(core).wf(),
    ensures
        final(core).wf(),
        negx_8_pd_effect(*old(core), *final(core), r),
{
    let ghost c0 = *core;
    let d = operator::ea_ay_pd_8(core);
    let ghost m1 = *core;
    assert(operator::ea_ay_pd_8_rel(c0, m1, d));
    let (dv, ea) = match d {
        Err(e) => {
            return Err(e);
        },
        Ok(p) => p,
    };
    let res = common::subx_8(core, 0, dv);
    store(core, 8, ea, res & 0xff, 14)
}

/// What `negx_8_di` does: the core goes from `c0` to `c1` and `r` comes back.
pub open spec fn negx_8_di_effect(c0: ConfiguredCore, c1: ConfiguredCore, r: Result<Cycles>) -> bool {
    exists|m1: ConfiguredCore, d: Result<(u32, u32)>|
        #[trigger] operator::ea_ay_di_8_rel(c0, m1, d) && match d {
            Err(e) => r == Err::<Cycles, Exception>(e) && c1 == m1,
            Ok((dv, ea)) => {
                let o = common::subx_8_outcome(m1, 0, dv);
                stored(o.0, c1, 8, ea, o.1 & 0xff, r, 16)
            },
        }
}

/// NEGX: the operand and the extend bit subtracted from zero.
pub fn negx_8_di(core: &mut ConfiguredCore) -> (r: Result<Cycles>)
    requires
        old(core).wf(),
    ensures
        final(core).wf(),
        negx_8_di_effect(*old(core), *final(core), r),
{
    let ghost c0 = *core;
    let d = operator::ea_ay_di_8(core);
    let ghost m1 = *core;
    assert(operator::ea_ay_di_8_rel(c0, m1, d));
    let (dv, ea) = match d {
        Err(e) => {
            return Err(e);
        },
        Ok(p) => p,
    };
    let res = common::subx_8(core, 0, dv);
    store(core, 8, ea, res & 0xff, 16)
}

/// What `negx_8_ix` does: the core goes from `c0` to `c1` and `r` comes back.
pub open spec fn negx_8_ix_effect(c0: ConfiguredCore, c1: ConfiguredCore, r: Result<Cycles>) -> bool {
    exists|m1: ConfiguredCore, d: Result<(u32, u32)>|
        #[trigger] operator::ea_ay_ix_8_rel(c0, m1, d) && match d {
            Err(e) => r == Err::<Cycles, Exception>(e) && c1 == m1,
            Ok((dv, ea)) => {
                let o = common::subx_8_outcome(m1, 0, dv);
                stored(o.0, c1, 8, ea, o.1 & 0xff, r, 18)
            },
        }
}

/// NEGX: the operand and the extend bit subtracted from zero.
pub fn negx_8_ix(core: &mut ConfiguredCore) -> (r: Result<Cycles>)
    requires
        old(core).wf(),
    ensures
        final(core).wf(),
        negx_8_ix_effect(*old(core), *final(core), r),
{
    let ghost c0 = *core;
    let d = operator::ea_ay_ix_8(core);
    let ghost m1 = *core;
    assert(operator::ea_ay_ix_8_rel(c0, m1, d));
    let (dv, ea) = match d {
        Err(e) => {
            return Err(e);
        },
        Ok(p) => p,
    };
    let res = common::subx_8(core, 0, dv);
    store(core, 8, ea, res & 0xff, 18)
}

/// What `negx_8_aw` does: the core goes from `c0` to `c1` and `r` comes back.
pub open spec fn negx_8_aw_effect(c0: ConfiguredCore, c1: ConfiguredCore, r: Result<Cycles>) -> bool {
    exists|m1: ConfiguredCore, d: Result<(u32, u32)>|
        #[trigger] operator::ea_aw_8_rel(c0, m1, d) && match d {
            Err(e) => r == Err::<Cycles, Exception>(e) && c1 == m1,
            Ok((dv, ea)) => {
                let o = common::subx_8_outcome(m1, 0, dv);
                stored(o.0, c1, 8, ea, o.1 & 0xff, r, 16)
            },
        }
}

/// NEGX: the operand and the extend bit subtracted from zero.
pub fn negx_8_aw(core: &mut ConfiguredCore) -> (r: Result<Cycles>)
    requires
        old(core).wf(),
    ensures
        final(core).wf(),
        negx_8_aw_effect(*old(core), *final(core), r),
{
    let ghost c0 = *core;
    let d = operator::ea_aw_8(core);
    let ghost m1 = *core;
    assert(operator::ea_aw_8_rel(c0, m1, d));
    let (dv, ea) = match d {
        Err(e) => {
            return Err(e);
        },
        Ok(p) => p,
    };
    let res = common::subx_8(core, 0, dv);
    store(core, 8, ea, res & 0xff, 16)
}

/// What `negx_8_al` does: the core goes from `c0` to `c1` and `r` comes back.
pub open spec fn negx_8_al_effect(c0: ConfiguredCore, c1: ConfiguredCore, r: Result<Cycles>) -> bool {
    exists|m1: ConfiguredCore, d: Result<(u32, u32)>|
        #[trigger] operator::ea_al_8_rel(c0, m1, d) && match d {
            Err(e) => r == Err::<Cycles, Exception>(e) && c1 == m1,
            Ok((dv, ea)) => {
                let o = common::subx_8_outcome(m1, 0, dv);
                stored(o.0, c1, 8, ea, o.1 & 0xff, r, 20)
            },
        }
}

/// NEGX: the operand and the extend bit subtracted from zero.
pub fn negx_8_al(core: &mut ConfiguredCore) -> (r: Result<Cycles>)
    requires
        old(core).wf(),
    ensures
        final(core).wf(),
        negx_8_al_effect(*old(core), *final(core), r),
{
    let ghost c0 = *core;
    let d = operator::ea_al_8(core);
    let ghost m1 = *core;
    assert(operator::ea_al_8_rel(c0, m1, d));
    let (dv, ea) = match d {
        Err(e) => {
            return Err(e);
        },
        Ok(p) => p,
    };
    let res = common::subx_8(core, 0, dv);
    store(core, 8, ea, res & 0xff, 20)
}

/// What `negx_16_dn` does: the core goes from `c0` to `c1` and `r` comes back.
pub open spec fn negx_16_dn_effect(c0: ConfiguredCore, c1: ConfiguredCore, r: Result<Cycles>) -> bool {
    let reg = ir_dy(c0.ir);
    let o = common::subx_16_outcome(c0, 0, c0.dar[reg]);
    &&& r == Ok::<Cycles, Exception>(Cycles(4))
    &&& reg_set(o.0, c1, reg, merged(c0.dar[reg], o.1, 16))
}

/// NEGX: the operand and the extend bit subtracted from zero.
pub fn negx_16_dn(core: &mut ConfiguredCore) -> (r: Result<Cycles>)
    requires
        old(core).wf(),
    ensures
        final(core).wf(),
        negx_16_dn_effect(*old(core), *final(core), r),
{
    let reg = reg_dy(core.ir);
    let dst = core.dar[reg];
    let res = common::subx_16(core, 0, dst);
    set_reg(core, reg, merge(dst, res, 16));
    Ok(Cycles(4))
}

/// What `negx_16_ai` does: the core goes from `c0` to `c1` and `r` comes back.
pub open spec fn negx_16_ai_effect(c0: ConfiguredCore, c1: ConfiguredCore, r: Result<Cycles>) -> bool {
    exists|m1: ConfiguredCore, d: Result<(u32, u32)>|
        #[trigger] operator::ea_ay_ai_16_rel(c0, m1, d) && match d {
            Err(e) => r == Err::<Cycles, Exception>(e) && c1 == m1,
            Ok((dv, ea)) => {
                let o = common::subx_16_outcome(m1, 0, dv);
                stored(o.0, c1, 16, ea, o.1 & 0xffff, r, 12)
            },
        }
}

/// NEGX: the operand and the extend bit subtracted from zero.
pub fn negx_16_ai(core: &mut ConfiguredCore) -> (r: Result<Cycles>)
    requires
        old(core).wf(),
    ensures
        final(core).wf(),
        negx_16_ai_effect(*old(core), *final(core), r),
{
    let ghost c0 = *core;
    let d = operator::ea_ay_ai_16(core);
    let ghost m1 = *core;
    assert(operator::ea_ay_ai_16_rel(c0, m1, d));
    let (dv, ea) = match d {
        Err(e) => {
            return Err(e);
        },
        Ok(p) => p,
    };
    let res = common::subx_16(core, 0, dv);
    store(core, 16, ea, res & 0xffff, 12)
}

/// What `negx_16_pi` does: the core goes from `c0` to `c1` and `r` comes back.
pub open spec fn negx_16_pi_effect(c0: ConfiguredCore, c1: ConfiguredCore, r: Result<Cycles>) -> bool {
    exists|m1: ConfiguredCore, d: Result<(u32, u32)>|
        #[trigger] operator::ea_ay_pi_16_rel(c0, m1, d) && match d {
            Err(e) => r == Err::<Cycles, Exception>(e) && c1 == m1,
            Ok((dv, ea)) => {
                let o = common::subx_16_outcome(m1, 0, dv);
                stored(o.0, c1, 16, ea, o.1 & 0xffff, r, 12)
            },
        }
}

/// NEGX: the operand and the extend bit subtracted from zero.
pub fn negx_16_pi(core: &mut ConfiguredCore) -> (r: Result<Cycles>)
    requires
        old(core).wf(),
    ensures
        final(core).wf(),
        negx_16_pi_effect(*old(core), *final(core), r),
{
    let ghost c0 = *core;
    let d = operator::ea_ay_pi_16(core);
    let ghost m1 = *core;
    assert(operator::ea_ay_pi_16_rel(c0, m1, d));
    let (dv, ea) = match d {
        Err(e) => {
            return Err(e);
        },
        Ok(p) => p,
    };
    let res = common::subx_16(core, 0, dv);
    store(core, 16, ea, res & 0xffff, 12)
}

/// What `negx_16_pd` does: the core goes from `c0` to `c1` and `r` comes back.
pub open spec fn negx_16_pd_effect(c0: ConfiguredCore, c1: ConfiguredCore, r: Result<Cycles>) -> bool {
    exists|m1: ConfiguredCore, d: Result<(u32, u32)>|
        #[trigger] operator::ea_ay_pd_16_rel(c0, m1, d) && match d {
            Err(e) => r == Err::<Cycles, Exception>(e) && c1 == m1,
            Ok((dv, ea)) => {
                let o = common::subx_16_outcome(m1, 0, dv);
                stored(o.0, c1, 16, ea, o.1 & 0xffff, r, 14)
            },
        }
}

/// NEGX: the operand and the extend bit subtracted from zero.
pub fn negx_16_pd(core: &mut ConfiguredCore) -> (r: Result<Cycles>)
    requires
        old(core).wf(),
    ensures
        final(core).wf(),
        negx_16_pd_effect(*old(core), *final(core), r),
{
    let ghost c0 = *core;
    let d = operator::ea_ay_pd_16(core);
    let ghost m1 = *core;
    assert(operator::ea_ay_pd_16_rel(c0, m1, d));
    let (dv, ea) = match d {
        Err(e) => {
            return Err(e);
        },
        Ok(p) => p,
    };
    let res = common::subx_16(core, 0, dv);
    store(core, 16, ea, res & 0xffff, 14)
}

/// What `negx_16_di` does: the core goes from `c0` to `c1` and `r` comes back.
pub open spec fn negx_16_di_effect(c0: ConfiguredCore, c1: ConfiguredCore, r: Result<Cycles>) -> bool {
    exists|m1: ConfiguredCore, d: Result<(u32, u32)>|
        #[trigger] operator::ea_ay_di_16_rel(c0, m1, d) && match d {
            Err(e) => r == Err::<Cycles, Exception>(e) && c1 == m1,
            Ok((dv, ea)) => {
                let o = common::subx_16_outcome(m1, 0, dv);
                stored(o.0, c1, 16, ea, o.1 & 0xffff, r, 16)
            },
        }
}

/// NEGX: the operand and the extend bit subtracted from zero.
pub fn negx_16_di(core: &mut ConfiguredCore) -> (r: Result<Cycles>)
    requires
        old(core).wf(),
    ensures
        final(core).wf(),
        negx_16_di_effect(*old(core), *final(core), r),
{
    let ghost c0 = *core;
    let d = operator::ea_ay_di_16(core);
    let ghost m1 = *core;
    assert(operator::ea_ay_di_16_rel(c0, m1, d));
    let (dv, ea) = match d {
        Err(e) => {
            return Err(e);
        },
        Ok(p) => p,
    };
    let res = common::subx_16(core, 0, dv);
    store(core, 16, ea, res & 0xffff, 16)
}

/// What `negx_16_ix` does: the core goes from `c0` to `c1` and `r` comes back.
pub open spec fn negx_16_ix_effect(c0: ConfiguredCore, c1: ConfiguredCore, r: Result<Cycles>) -> bool {
    exists|m1: ConfiguredCore, d: Result<(u32, u32)>|
        #[trigger] operator::ea_ay_ix_16_rel(c0, m1, d) && match d {
            Err(e) => r == Err::<Cycles, Exception>(e) && c1 == m1,
            Ok((dv, ea)) => {
                let o = common::subx_16_outcome(m1, 0, dv);
                stored(o.0, c1, 16, ea, o.1 & 0xffff, r, 18)
            },
        }
}

/// NEGX: the operand and the extend bit subtracted from zero.
pub fn negx_16_ix(core: &mut ConfiguredCore) -> (r: Result<Cycles>)
    requires
        old(core).wf(),
    ensures
        final(core).wf(),
        negx_16_ix_effect(*old(core), *final(core), r),
{
    let ghost c0 = *core;
    let d = operator::ea_ay_ix_16(core);
    let ghost m1 = *core;
    assert(operator::ea_ay_ix_16_rel(c0, m1, d));
    let (dv, ea) = match d {
        Err(e) => {
            return Err(e);
        },
        Ok(p) => p,
    };
    let res = common::subx_16(core, 0, dv);
    store(core, 16, ea, res & 0xffff, 18)
}

/// What `negx_16_aw` does: the core goes from `c0` to `c1` and `r` comes back.
pub open spec fn negx_16_aw_effect(c0: ConfiguredCore, c1: ConfiguredCore, r: Result<Cycles>) -> bool {
    exists|m1: ConfiguredCore, d: Result<(u32, u32)>|
        #[trigger] operator::ea_aw_16_rel(c0, m1, d) && match d {
            Err(e) => r == Err::<Cycles, Exception>(e) && c1 == m1,
            Ok((dv, ea)) => {
                let o = common::subx_16_outcome(m1, 0, dv);
                stored(o.0, c1, 16, ea, o.1 & 0xffff, r, 16)
            },
        }
}

/// NEGX: the operand and the extend bit subtracted from zero.
pub fn negx_16_aw(core: &mut ConfiguredCore) -> (r: Result<Cycles>)
    requires
        old(core).wf(),
    ensures
        final(core).wf(),
        negx_16_aw_effect(*old(core), *final(core), r),
{
    let ghost c0 = *core;
    let d = operator::ea_aw_16(core);
    let ghost m1 = *core;
    assert(operator::ea_aw_16_rel(c0, m1, d));
    let (dv, ea) = match d {
        Err(e) => {
            return Err(e);
        },
        Ok(p) => p,
    };
    let res = common::subx_16(core, 0, dv);
    store(core, 16, ea, res & 0xffff, 16)
}

/// What `negx_16_al` does: the core goes from `c0` to `c1` and `r` comes back.
pub open spec fn negx_16_al_effect(c0: ConfiguredCore, c1: ConfiguredCore, r: Result<Cycles>) -> bool {
    exists|m1: ConfiguredCore, d: Result<(u32, u32)>|
        #[trigger] operator::ea_al_16_rel(c0, m1, d) && match d {
            Err(e) => r == Err::<Cycles, Exception>(e) && c1 == m1,
            Ok((dv, ea)) => {
                let o = common::subx_16_outcome(m1, 0, dv);
                stored(o.0, c1, 16, ea, o.1 & 0xffff, r, 20)
            },
        }
}

/// NEGX: the operand and the extend bit subtracted from zero.
pub fn negx_16_al(core: &mut ConfiguredCore) -> (r: Result<Cycles>)
    requires
        old(core).wf(),
    ensures
        final(core).wf(),
        negx_16_al_effect(*old(core), *final(core), r),
{
    let ghost c0 = *core;
    let d = operator::ea_al_16(core);
    let ghost m1 = *core;
    assert(operator::ea_al_16_rel(c0, m1, d));
    let (dv, ea) = match d {
        Err(e) => {
            return Err(e);
        },
        Ok(p) => p,
    };
    let res = common::subx_16(core, 0, dv);
    store(core, 16, ea, res & 0xffff, 20)
}

/// What `negx_32_dn` does: the core goes from `c0` to `c1` and `r` comes back.
pub open spec fn negx_32_dn_effect(c0: ConfiguredCore, c1: ConfiguredCore, r: Result<Cycles>) -> bool {
    let reg = ir_dy(c0.ir);
    let o = common::subx_32_outcome(c0, 0, c0.dar[reg]);
    &&& r == Ok::<Cycles, Exception>(Cycles(6))
    &&& reg_set(o.0, c1, reg, merged(c0.dar[reg], o.1, 32))
}

/// NEGX: the operand and the extend bit subtracted from zero.
pub fn negx_32_dn(core: &mut ConfiguredCore) -> (r: Result<Cycles>)
    requires
        old(core).wf(),
    ensures
        final(core).wf(),
        negx_32_dn_effect(*old(core), *final(core), r),
{
    let reg = reg_dy(core.ir);
    let dst = core.dar[reg];
    let res = common::subx_32(core, 0, dst);
    set_reg(core, reg, merge(dst, res, 32));
    Ok(Cycles(6))
}

/// What `negx_32_ai` does: the core goes from `c0` to `c1` and `r` comes back.
pub open spec fn negx_32_ai_effect(c0: ConfiguredCore, c1: ConfiguredCore, r: Result<Cycles>) -> bool {
    exists|m1: ConfiguredCore, d: Result<(u32, u32)>|
        #[trigger] operator::ea_ay_ai_32_rel(c0, m1, d) && match d {
            Err(e) => r == Err::<Cycles, Exception>(e) && c1 == m1,
            Ok((dv, ea)) => {
                let o = common::subx_32_outcome(m1, 0, dv);
                stored(o.0, c1, 32, ea, o.1, r, 20)
            },
        }
}

/// NEGX: the operand and the extend bit subtracted from zero.
pub fn negx_32_ai(core: &mut ConfiguredCore) -> (r: Result<Cycles>)
    requires
        old(core).wf(),
    ensures
        final(core).wf(),
        negx_32_ai_effect(*old(core), *final(core), r),
{
    let ghost c0 = *core;
    let d = operator::ea_ay_ai_32(core);
    let ghost m1 = *core;
    assert(operator::ea_ay_ai_32_rel(c0, m1, d));
    let (dv, ea) = match d {
        Err(e) => {
            return Err(e);
        },
        Ok(p) => p,
    };
    let res = common::subx_32(core, 0, dv);
    store(core, 32, ea, res, 20)
}

/// What `negx_32_pi` does: the core goes from `c0` to `c1` and `r` comes back.
pub open spec fn negx_32_pi_effect(c0: ConfiguredCore, c1: ConfiguredCore, r: Result<Cycles>) -> bool {
    exists|m1: ConfiguredCore, d: Result<(u32, u32)>|
        #[trigger] operator::ea_ay_pi_32_rel(c0, m1, d) && match d {
            Err(e) => r == Err::<Cycles, Exception>(e) && c1 == m1,
            Ok((dv, ea)) => {
                let o = common::subx_32_outcome(m1, 0, dv);
                stored(o.0, c1, 32, ea, o.1, r, 20)
            },
        }
}

/// NEGX: the operand and the extend bit subtracted from zero.
pub fn negx_32_pi(core: &mut ConfiguredCore) -> (r: Result<Cycles>)
    requires
        old(core).wf(),
    ensures
        final(core).wf(),
        negx_32_pi_effect(*old(core), *final(core), r),
{
    let ghost c0 = *core;
    let d = operator::ea_ay_pi_32(core);
    let ghost m1 = *core;
    assert(operator::ea_ay_pi_32_rel(c0, m1, d));
    let (dv, ea) = match d {
        Err(e) => {
            return Err(e);
        },
        Ok(p) => p,
    };
    let res = common::subx_32(core, 0, dv);
    store(core, 32, ea, res, 20)
}

/// What `negx_32_pd` does: the core goes from `c0` to `c1` and `r` comes back.
pub open spec fn negx_32_pd_effect(c0: ConfiguredCore, c1: ConfiguredCore, r: Result<Cycles>) -> bool {
    exists|m1: ConfiguredCore, d: Result<(u32, u32)>|
        #[trigger] operator::ea_ay_pd_32_rel(c0, m1, d) && match d {
            Err(e) => r == Err::<Cycles, Exception>(e) && c1 == m1,
            Ok((dv, ea)) => {
                let o = common::subx_32_outcome(m1, 0, dv);
                stored(o.0, c1, 32, ea, o.1, r, 22)
            },
        }
}

/// NEGX: the operand and the extend bit subtracted from zero.
pub fn negx_32_pd(core: &mut ConfiguredCore) -> (r: Result<Cycles>)
    requires
        old(core).wf(),
    ensures
        final(core).wf(),
        negx_32_pd_effect(*old(core), *final(core), r),
{
    let ghost c0 = *core;
    let d = operator::ea_ay_pd_32(core);
    let ghost m1 = *core;
    assert(operator::ea_ay_pd_32_rel(c0, m1, d));
    let (dv, ea) = match d {
        Err(e) => {
            return Err(e);
        },
        Ok(p) => p,
    };
    let res = common::subx_32(core, 0, dv);
    store(core, 32, ea, res, 22)
}

/// What `negx_32_di` does: the core goes from `c0` to `c1` and `r` comes back.
pub open spec fn negx_32_di_effect(c0: ConfiguredCore, c1: ConfiguredCore, r: Result<Cycles>) -> bool {
    exists|m1: ConfiguredCore, d: Result<(u32, u32)>|
        #[trigger] operator::ea_ay_di_32_rel(c0, m1, d) && match d {
            Err(e) => r == Err::<Cycles, Exception>(e) && c1 == m1,
            Ok((dv, ea)) => {
                let o = common::subx_32_outcome(m1, 0, dv);
                stored(o.0, c1, 32, ea, o.1, r, 24)
            },
        }
}

/// NEGX: the operand and the extend bit subtracted from zero.
pub fn negx_32_di(core: &mut ConfiguredCore) -> (r: Result<Cycles>)
    requires
        old(core).wf(),
    ensures
        final(core).wf(),
        negx_32_di_effect(*old(core), *final(core), r),
{
    let ghost c0 = *core;
    let d = operator::ea_ay_di_32(core);
    let ghost m1 = *core;
    assert(operator::ea_ay_di_32_rel(c0, m1, d));
    let (dv, ea) = match d {
        Err(e) => {
            return Err(e);
        },
        Ok(p) => p,
    };
    let res = common::subx_32(core, 0, dv);
    store(core, 32, ea, res, 24)
}

/// What `negx_32_ix` does: the core goes from `c0` to `c1` and `r` comes back.
pub open spec fn negx_32_ix_effect(c0: ConfiguredCore, c1: ConfiguredCore, r: Result<Cycles>) -> bool {
    exists|m1: ConfiguredCore, d: Result<(u32, u32)>|
        #[trigger] operator::ea_ay_ix_32_rel(c0, m1, d) && match d {
            Err(e) => r == Err::<Cycles, Exception>(e) && c1 == m1,
            Ok((dv, ea)) => {
                let o = common::subx_32_outcome(m1, 0, dv);
                stored(o.0, c1, 32, ea, o.1, r, 26)
            },
        }
}

/// NEGX: the operand and the extend bit subtracted from zero.
pub fn negx_32_ix(core: &mut ConfiguredCore) -> (r: Result<Cycles>)
    requires
        old(core).wf(),
    ensures
        final(core).wf(),
        negx_32_ix_effect(*old(core), *final(core), r),
{
    let ghost c0 = *core;
    let d = operator::ea_ay_ix_32(core);
    let ghost m1 = *core;
    assert(operator::ea_ay_ix_32_rel(c0, m1, d));
    let (dv, ea) = match d {
        Err(e) => {
            return Err(e);
        },
        Ok(p) => p,
    };
    let res = common::subx_32(core, 0, dv);
    store(core, 32, ea, res, 26)
}

/// What `negx_32_aw` does: the core goes from `c0` to `c1` and `r` comes back.
pub open spec fn negx_32_aw_effect(c0: ConfiguredCore, c1: ConfiguredCore, r: Result<Cycles>) -> bool {
    exists|m1: ConfiguredCore, d: Result<(u32, u32)>|
        #[trigger] operator::ea_aw_32_rel(c0, m1, d) && match d {
            Err(e) => r == Err::<Cycles, Exception>(e) && c1 == m1,
            Ok((dv, ea)) => {
                let o = common::subx_32_outcome(m1, 0, dv);
                stored(o.0, c1, 32, ea, o.1, r, 24)
            },
        }
}

/// NEGX: the operand and the extend bit subtracted from zero.
pub fn negx_32_aw(core: &mut ConfiguredCore) -> (r: Result<Cycles>)
    requires
        old(core).wf(),
    ensures
        final(core).wf(),
        negx_32_aw_effect(*old(core), *final(core), r),
{
    let ghost c0 = *core;
    let d = operator::ea_aw_32(core);
    let ghost m1 = *core;
    assert(operator::ea_aw_32_rel(c0, m1, d));
    let (dv, ea) = match d {
        Err(e) => {
            return Err(e);
        },
        Ok(p) => p,
    };
    let res = common::subx_32(core, 0, dv);
    store(core, 32, ea, res, 24)
}

/// What `negx_32_al` does: the core goes from `c0` to `c1` and `r` comes back.
pub open spec fn negx_32_al_effect(c0: ConfiguredCore, c1: ConfiguredCore, r: Result<Cycles>) -> bool {
    exists|m1: ConfiguredCore, d: Result<(u32, u32)>|
        #[trigger] operator::ea_al_32_rel(c0, m1, d) && match d {
            Err(e) => r == Err::<Cycles, Exception>(e) && c1 == m1,
            Ok((dv, ea)) => {
                let o = common::subx_32_outcome(m1, 0, dv);
                stored(o.0, c1, 32, ea, o.1, r, 28)
            },
        }
}

/// NEGX: the operand and the extend bit subtracted from zero.
pub fn negx_32_al(core: &mut ConfiguredCore) -> (r: Result<Cycles>)
    requires
        old(core).wf(),
    ensures
        final(core).wf(),
        negx_32_al_effect(*old(core), *final(core), r),
{
    let ghost c0 = *core;
    let d = operator::ea_al_32(core);
    let ghost m1 = *core;
    assert(operator::ea_al_32_rel(c0, m1, d));
    let (dv, ea) = match d {
        Err(e) => {
            return Err(e);
        },
        Ok(p) => p,
    };
    let res = common::subx_32(core, 0, dv);
    store(core, 32, ea, res, 28)
}

/// What `not_8_dn` does: the core goes from `c0` to `c1` and `r` comes back.
pub open spec fn not_8_dn_effect(c0: ConfiguredCore, c1: ConfiguredCore, r: Result<Cycles>) -> bool {
    let reg = ir_dy(c0.ir);
    let o = common::not_8_outcome(c0, c0.dar[reg]);
    &&& r == Ok::<Cycles, Exception>(Cycles(4))
    &&& reg_set(o.0, c1, reg, merged(c0.dar[reg], o.1, 8))
}

/// NOT: every bit of the operand inverted.
pub fn not_8_dn(core: &mut ConfiguredCore) -> (r: Result<Cycles>)
    requires
        old(core).wf(),
    ensures
        final(core).wf(),
        not_8_dn_effect(*old(core), *final(core), r),
{
    let reg = reg_dy(core.ir);
    let dst = core.dar[reg];
    let res = common::not_8(core, dst);
    set_reg(core, reg, merge(dst, res, 8));
    Ok(Cycles(4))
}

/// What `not_8_ai` does: the core goes from `c0` to `c1` and `r` comes back.
pub open spec fn not_8_ai_effect(c0: ConfiguredCore, c1: ConfiguredCore, r: Result<Cycles>) -> bool {
    exists|m1: ConfiguredCore, d: Result<(u32, u32)>|
        #[trigger] operator::ea_ay_ai_8_rel(c0, m1, d) && match d {
            Err(e) => r == Err::<Cycles, Exception>(e) && c1 == m1,
            Ok((dv, ea)) => {
                let o = common::not_8_outcome(m1, dv);
                stored(o.0, c1, 8, ea, o.1 & 0xff, r, 12)
            },
        }
}

/// NOT: every bit of the operand inverted.
pub fn not_8_ai(core: &mut ConfiguredCore) -> (r: Result<Cycles>)
    requires
        old(core).wf(),
    ensures
        final(core).wf(),
        not_8_ai_effect(*old(core), *final(core), r),
{
    let ghost c0 = *core;
    let d = operator::ea_ay_ai_8(core);
    let ghost m1 = *core;
    assert(operator::ea_ay_ai_8_rel(c0, m1, d));
    let (dv, ea) = match d {
        Err(e) => {
            return Err(e);
        },
        Ok(p) => p,
    };
    let res = common::not_8(core, dv);
    store(core, 8, ea, res & 0xff, 12)
}

/// What `not_8_pi` does: the core goes from `c0` to `c1` and `r` comes back.
pub open spec fn not_8_pi_effect(c0: ConfiguredCore, c1: ConfiguredCore, r: Result<Cycles>) -> bool {
    exists|m1: ConfiguredCore, d: Result<(u32, u32)>|
        #[trigger] operator::ea_ay_pi_8_rel(c0, m1, d) && match d {
            Err(e) => r == Err::<Cycles, Exception>(e) && c1 == m1,
            Ok((dv, ea)) => {
                let o = common::not_8_outcome(m1, dv);
                stored(o.0, c1, 8, ea, o.1 & 0xff, r, 12)
            },
        }
}

/// NOT: every bit of the operand inverted.
pub fn not_8_pi(core: &mut ConfiguredCore) -> (r: Result<Cycles>)
    requires
        old(core).wf(),
    ensures
        final(core).wf(),
        not_8_pi_effect(*old(core), *final(core), r),
{
    let ghost c0 = *core;
    let d = operator::ea_ay_pi_8(core);
    let ghost m1 = *core;
    assert(operator::ea_ay_pi_8_rel(c0, m1, d));
    let (dv, ea) = match d {
        Err(e) => {
            return Err(e);
        },
        Ok(p) => p,
    };
    let res = common::not_8(core, dv);
    store(core, 8, ea, res & 0xff, 12)
}

/// What `not_8_pd` does: the core goes from `c0` to `c1` and `r` comes back.
pub open spec fn not_8_pd_effect(c0: ConfiguredCore, c1: ConfiguredCore, r: Result<Cycles>) -> bool {
    exists|m1: ConfiguredCore, d: Result<(u32, u32)>|
        #[trigger] operator::ea_ay_pd_8_rel(c0, m1, d) && match d {
            Err(e) => r == Err::<Cycles, Exception>(e) && c1 == m1,
            Ok((dv, ea)) => {
                let o = common::not_8_outcome(m1, dv);
                stored(o.0, c1, 8, ea, o.1 & 0xff, r, 14)
            },
        }
}

/// NOT: every bit of the operand inverted.
pub fn not_8_pd(core: &mut ConfiguredCore) -> (r: Result<Cycles>)
    requires
        old(core).wf(),
    ensures
        final(core).wf(),
        not_8_pd_effect(*old(core), *final(core), r),
{
    let ghost c0 = *core;
    let d = operator::ea_ay_pd_8(core);
    let ghost m1 = *core;
    assert(operator::ea_ay_pd_8_rel(c0, m1, d));
    let (dv, ea) = match d {
        Err(e) => {
            return Err(e);
        },
        Ok(p) => p,
    };
    let res = common::not_8(core, dv);
    store(core, 8, ea, res & 0xff, 14)
}

/// What `not_8_di` does: the core goes from `c0` to `c1` and `r` comes back.
pub open spec fn not_8_di_effect(c0: ConfiguredCore, c1: ConfiguredCore, r: Result<Cycles>) -> bool {
    exists|m1: ConfiguredCore, d: Result<(u32, u32)>|
        #[trigger] operator::ea_ay_di_8_rel(c0, m1, d) && match d {
            Err(e) => r == Err::<Cycles, Exception>(e) && c1 == m1,
            Ok((dv, ea)) => {
                let o = common::not_8_outcome(m1, dv);
                stored(o.0, c1, 8, ea, o.1 & 0xff, r, 16)
            },
        }
}

/// NOT: every bit of the operand inverted.
pub fn not_8_di(core: &mut ConfiguredCore) -> (r: Result<Cycles>)
    requires
        old(core).wf(),
    ensures
        final(core).wf(),
        not_8_di_effect(*old(core), *final(core), r),
{
    let ghost c0 = *core;
    let d = operator::ea_ay_di_8(core);
    let ghost m1 = *core;
    assert(operator::ea_ay_di_8_rel(c0, m1, d));
    let (dv, ea) = match d {
        Err(e) => {
            return Err(e);
        },
        Ok(p) => p,
    };
    let res = common::not_8(core, dv);
    store(core, 8, ea, res & 0xff, 16)
}

/// What `not_8_ix` does: the core goes from `c0` to `c1` and `r` comes back.
pub open spec fn not_8_ix_effect(c0: ConfiguredCore, c1: ConfiguredCore, r: Result<Cycles>) -> bool {
    exists|m1: ConfiguredCore, d: Result<(u32, u32)>|
        #[trigger] operator::ea_ay_ix_8_rel(c0, m1, d) && match d {
            Err(e) => r == Err::<Cycles, Exception>(e) && c1 == m1,
            Ok((dv, ea)) => {
                let o = common::not_8_outcome(m1, dv);
                stored(o.0, c1, 8, ea, o.1 & 0xff, r, 18)
            },
        }
}

/// NOT: every bit of the operand inverted.
pub fn not_8_ix(core: &mut ConfiguredCore) -> (r: Result<Cycles>)
    requires
        old(core).wf(),
    ensures
        final(core).wf(),
        not_8_ix_effect(*old(core), *final(core), r),
{
    let ghost c0 = *core;
    let d = operator::ea_ay_ix_8(core);
    let ghost m1 = *core;
    assert(operator::ea_ay_ix_8_rel(c0, m1, d));
    let (dv, ea) = match d {
        Err(e) => {
            return Err(e);
        },
        Ok(p) => p,
    };
    let res = common::not_8(core, dv);
    store(core, 8, ea, res & 0xff, 18)
}

/// What `not_8_aw` does: the core goes from `c0` to `c1` and `r` comes back.
pub open spec fn not_8_aw_effect(c0: ConfiguredCore, c1: ConfiguredCore, r: Result<Cycles>) -> bool {
    exists|m1: ConfiguredCore, d: Result<(u32, u32)>|
        #[trigger] operator::ea_aw_8_rel(c0, m1, d) && match d {
            Err(e) => r == Err::<Cycles, Exception>(e) && c1 == m1,
            Ok((dv, ea)) => {
                let o = common::not_8_outcome(m1, dv);
                stored(o.0, c1, 8, ea, o.1 & 0xff, r, 16)
            },
        }
}

/// NOT: every bit of the operand inverted.
pub fn not_8_aw(core: &mut ConfiguredCore) -> (r: Result<Cycles>)
    requires
        old(core).wf(),
    ensures
        final(core).wf(),
        not_8_aw_effect(*old(core), *final(core), r),
{
    let ghost c0 = *core;
    let d = operator::ea_aw_8(core);
    let ghost m1 = *core;
    assert(operator::ea_aw_8_rel(c0, m1, d));
    let (dv, ea) = match d {
        Err(e) => {
            return Err(e);
        },
        Ok(p) => p,
    };
    let res = common::not_8(core, dv);
    store(core, 8, ea, res & 0xff, 16)
}

/// What `not_8_al` does: the core goes from `c0` to `c1` and `r` comes back.
pub open spec fn not_8_al_effect(c0: ConfiguredCore, c1: ConfiguredCore, r: Result<Cycles>) -> bool {
    exists|m1: ConfiguredCore, d: Result<(u32, u32)>|
        #[trigger] operator::ea_al_8_rel(c0, m1, d) && match d {
            Err(e) => r == Err::<Cycles, Exception>(e) && c1 == m1,
            Ok((dv, ea)) => {
                let o = common::not_8_outcome(m1, dv);
                stored(o.0, c1, 8, ea, o.1 & 0xff, r, 20)
            },
        }
}

/// NOT: every bit of the operand inverted.
pub fn not_8_al(core: &mut ConfiguredCore) -> (r: Result<Cycles>)
    requires
        old(core).wf(),
    ensures
        final(core).wf(),
        not_8_al_effect(*old(core), *final(core), r),
{
    let ghost c0 = *core;
    let d = operator::ea_al_8(core);
    let ghost m1 = *core;
    assert(operator::ea_al_8_rel(c0, m1, d));
    let (dv, ea) = match d {
        Err(e) => {
            return Err(e);
        },
        Ok(p) => p,
    };
    let res = common::not_8(core, dv);
    store(core, 8, ea, res & 0xff, 20)
}

/// What `not_16_dn` does: the core goes from `c0` to `c1` and `r` comes back.
pub open spec fn not_16_dn_effect(c0: ConfiguredCore, c1: ConfiguredCore, r: Result<Cycles>) -> bool {
    let reg = ir_dy(c0.ir);
    let o = common::not_16_outcome(c0, c0.dar[reg]);
    &&& r == Ok::<Cycles, Exception>(Cycles(4))
    &&& reg_set(o.0, c1, reg, merged(c0.dar[reg], o.1, 16))
}

/// NOT: every bit of the operand inverted.
pub fn not_16_dn(core: &mut ConfiguredCore) -> (r: Result<Cycles>)
    requires
        old(core).wf(),
    ensures
        final(core).wf(),
        not_16_dn_effect(*old(core), *final(core), r),
{
    let reg = reg_dy(core.ir);
    let dst = core.dar[reg];
    let res = common::not_16(core, dst);
    set_reg(core, reg, merge(dst, res, 16));
    Ok(Cycles(4))
}

/// What `not_16_ai` does: the core goes from `c0` to `c1` and `r` comes back.
pub open spec fn not_16_ai_effect(c0: ConfiguredCore, c1: ConfiguredCore, r: Result<Cycles>) -> bool {
    exists|m1: ConfiguredCore, d: Result<(u32, u32)>|
        #[trigger] operator::ea_ay_ai_16_rel(c0, m1, d) && match d {
            Err(e) => r == Err::<Cycles, Exception>(e) && c1 == m1,
            Ok((dv, ea)) => {
                let o = common::not_16_outcome(m1, dv);
                stored(o.0, c1, 16, ea, o.1 & 0xffff, r, 12)
            },
        }
}

/// NOT: every bit of the operand inverted.
pub fn not_16_ai(core: &mut ConfiguredCore) -> (r: Result<Cycles>)
    requires
        old(core).wf(),
    ensures
        final(core).wf(),
        not_16_ai_effect(*old(core), *final(core), r),
{
    let ghost c0 = *core;
    let d = operator::ea_ay_ai_16(core);
    let ghost m1 = *core;
    assert(operator::ea_ay_ai_16_rel(c0, m1, d));
    let (dv, ea) = match d {
        Err(e) => {
            return Err(e);
        },
        Ok(p) => p,
    };
    let res = common::not_16(core, dv);
    store(core, 16, ea, res & 0xffff, 12)
}

/// What `not_16_pi` does: the core goes from `c0` to `c1` and `r` comes back.
pub open spec fn not_16_pi_effect(c0: ConfiguredCore, c1: ConfiguredCore, r: Result<Cycles>) -> bool {
    exists|m1: ConfiguredCore, d: Result<(u32, u32)>|
        #[trigger] operator::ea_ay_pi_16_rel(c0, m1, d) && match d {
            Err(e) => r == Err::<Cycles, Exception>(e) && c1 == m1,
            Ok((dv, ea)) => {
                let o = common::not_16_outcome(m1, dv);
                stored(o.0, c1, 16, ea, o.1 & 0xffff, r, 12)
            },
        }
}

/// NOT: every bit of the operand inverted.
pub fn not_16_pi(core: &mut ConfiguredCore) -> (r: Result<Cycles>)
    requires
        old(core).wf(),
    ensures
        final(core).wf(),
        not_16_pi_effect(*old(core), *final(core), r),
{
    let ghost c0 = *core;
    let d = operator::ea_ay_pi_16(core);
    let ghost m1 = *core;
    assert(operator::ea_ay_pi_16_rel(c0, m1, d));
    let (dv, ea) = match d {
        Err(e) => {
            return Err(e);
        },
        Ok(p) => p,
    };
    let res = common::not_16(core, dv);
    store(core, 16, ea, res & 0xffff, 12)
}

/// What `not_16_pd` does: the core goes from `c0` to `c1` and `r` comes back.
pub open spec fn not_16_pd_effect(c0: ConfiguredCore, c1: ConfiguredCore, r: Result<Cycles>) -> bool {
    exists|m1: ConfiguredCore, d: Result<(u32, u32)>|
        #[trigger] operator::ea_ay_pd_16_rel(c0, m1, d) && match d {
            Err(e) => r == Err::<Cycles, Exception>(e) && c1 == m1,
            Ok((dv, ea)) => {
                let o = common::not_16_outcome(m1, dv);
                stored(o.0, c1, 16, ea, o.1 & 0xffff, r, 14)
            },
        }
}

/// NOT: every bit of the operand inverted.
pub fn not_16_pd(core: &mut ConfiguredCore) -> (r: Result<Cycles>)
    requires
        old(core).wf(),
    ensures
        final(core).wf(),
        not_16_pd_effect(*old(core), *final(core), r),
{
    let ghost c0 = *core;
    let d = operator::ea_ay_pd_16(core);
    let ghost m1 = *core;
    assert(operator::ea_ay_pd_16_rel(c0, m1, d));
    let (dv, ea) = match d {
        Err(e) => {
            return Err(e);
        },
        Ok(p) => p,
    };
    let res = common::not_16(core, dv);
    store(core, 16, ea, res & 0xffff, 14)
}

/// What `not_16_di` does: the core goes from `c0` to `c1` and `r` comes back.
pub open spec fn not_16_di_effect(c0: ConfiguredCore, c1: ConfiguredCore, r: Result<Cycles>) -> bool {
    exists|m1: ConfiguredCore, d: Result<(u32, u32)>|
        #[trigger] operator::ea_ay_di_16_rel(c0, m1, d) && match d {
            Err(e) => r == Err::<Cycles, Exception>(e) && c1 == m1,
            Ok((dv, ea)) => {
                let o = common::not_16_outcome(m1, dv);
                stored(o.0, c1, 16, ea, o.1 & 0xffff, r, 16)
            },
        }
}

/// NOT: every bit of the operand inverted.
pub fn not_16_di(core: &mut ConfiguredCore) -> (r: Result<Cycles>)
    requires
        old(core).wf(),
    ensures
        final(core).wf(),
        not_16_di_effect(*old(core), *final(core), r),
{
    let ghost c0 = *core;
    let d = operator::ea_ay_di_16(core);
    let ghost m1 = *core;
    assert(operator::ea_ay_di_16_rel(c0, m1, d));
    let (dv, ea) = match d {
        Err(e) => {
            return Err(e);
        },
        Ok(p) => p,
    };
    let res = common::not_16(core, dv);
    store(core, 16, ea, res & 0xffff, 16)
}

/// What `not_16_ix` does: the core goes from `c0` to `c1` and `r` comes back.
pub open spec fn not_16_ix_effect(c0: ConfiguredCore, c1: ConfiguredCore, r: Result<Cycles>) -> bool {
    exists|m1: ConfiguredCore, d: Result<(u32, u32)>|
        #[trigger] operator::ea_ay_ix_16_rel(c0, m1, d) && match d {
            Err(e) => r == Err::<Cycles, Exception>(e) && c1 == m1,
            Ok((dv, ea)) => {
                let o = common::not_16_outcome(m1, dv);
                stored(o.0, c1, 16, ea, o.1 & 0xffff, r, 18)
            },
        }
}

/// NOT: every bit of the operand inverted.
pub fn not_16_ix(core: &mut ConfiguredCore) -> (r: Result<Cycles>)
    requires
        old(core).wf(),
    ensures
        final(core).wf(),
        not_16_ix_effect(*old(core), *final(core), r),
{
    let ghost c0 = *core;
    let d = operator::ea_ay_ix_16(core);
    let ghost m1 = *core;
    assert(operator::ea_ay_ix_16_rel(c0, m1, d));
    let (dv, ea) = match d {
        Err(e) => {
            return Err(e);
        },
        Ok(p) => p,
    };
    let res = common::not_16(core, dv);
    store(core, 16, ea, res & 0xffff, 18)
}

/// What `not_16_aw` does: the core goes from `c0` to `c1` and `r` comes back.
pub open spec fn not_16_aw_effect(c0: ConfiguredCore, c1: ConfiguredCore, r: Result<Cycles>) -> bool {
    exists|m1: ConfiguredCore, d: Result<(u32, u32)>|
        #[trigger] operator::ea_aw_16_rel(c0, m1, d) && match d {
            Err(e) => r == Err::<Cycles, Exception>(e) && c1 == m1,
            Ok((dv, ea)) => {
                let o = common::not_16_outcome(m1, dv);
                stored(o.0, c1, 16, ea, o.1 & 0xffff, r, 16)
            },
        }
}

/// NOT: every bit of the operand inverted.
pub fn not_16_aw(core: &mut ConfiguredCore) -> (r: Result<Cycles>)
    requires
        old(core).wf(),
    ensures
        final(core).wf(),
        not_16_aw_effect(*old(core), *final(core), r),
{
    let ghost c0 = *core;
    let d = operator::ea_aw_16(core);
    let ghost m1 = *core;
    assert(operator::ea_aw_16_rel(c0, m1, d));
    let (dv, ea) = match d {
        Err(e) => {
            return Err(e);
        },
        Ok(p) => p,
    };
    let res = common::not_16(core, dv);
    store(core, 16, ea, res & 0xffff, 16)
}

/// What `not_16_al` does: the core goes from `c0` to `c1` and `r` comes back.
pub open spec fn not_16_al_effect(c0: ConfiguredCore, c1: ConfiguredCore, r: Result<Cycles>) -> bool {
    exists|m1: ConfiguredCore, d: Result<(u32, u32)>|
        #[trigger] operator::ea_al_16_rel(c0, m1, d) && match d {
            Err(e) => r == Err::<Cycles, Exception>(e) && c1 == m1,
            Ok((dv, ea)) => {
                let o = common::not_16_outcome(m1, dv);
                stored(o.0, c1, 16, ea, o.1 & 0xffff, r, 20)
            },
        }
}

/// NOT: every bit of the operand inverted.
pub fn not_16_al(core: &mut ConfiguredCore) -> (r: Result<Cycles>)
    requires
        old(core).wf(),
    ensures
        final(core).wf(),
        not_16_al_effect(*old(core), *final(core), r),
{
    let ghost c0 = *core;
    let d = operator::ea_al_16(core);
    let ghost m1 = *core;
    assert(operator::ea_al_16_rel(c0, m1, d));
    let (dv, ea) = match d {
        Err(e) => {
            return Err(e);
        },
        Ok(p) => p,
    };
    let res = common::not_16(core, dv);
    store(core, 16, ea, res & 0xffff, 20)
}

/// What `not_32_dn` does: the core goes from `c0` to `c1` and `r` comes back.
pub open spec fn not_32_dn_effect(c0: ConfiguredCore, c1: ConfiguredCore, r: Result<Cycles>) -> bool {
    let reg = ir_dy(c0.ir);
    let o = common::not_32_outcome(c0, c0.dar[reg]);
    &&& r == Ok::<Cycles, Exception>(Cycles(6))
    &&& reg_set(o.0, c1, reg, merged(c0.dar[reg], o.1, 32))
}

/// NOT: every bit of the operand inverted.
pub fn not_32_dn(core: &mut ConfiguredCore) -> (r: Result<Cycles>)
    requires
        old(core).wf(),
    ensures
        final(core).wf(),
        not_32_dn_effect(*old(core), *final(core), r),
{
    let reg = reg_dy(core.ir);
    let dst = core.dar[reg];
    let res = common::not_32(core, dst);
    set_reg(core, reg, merge(dst, res, 32));
    Ok(Cycles(6))
}

/// What `not_32_ai` does: the core goes from `c0` to `c1` and `r` comes back.
pub open spec fn not_32_ai_effect(c0: ConfiguredCore, c1: ConfiguredCore, r: Result<Cycles>) -> bool {
    exists|m1: ConfiguredCore, d: Result<(u32, u32)>|
        #[trigger] operator::ea_ay_ai_32_rel(c0, m1, d) && match d {
            Err(e) => r == Err::<Cycles, Exception>(e) && c1 == m1,
            Ok((dv, ea)) => {
                let o = common::not_32_outcome(m1, dv);
                stored(o.0, c1, 32, ea, o.1, r, 20)
            },
        }
}

/// NOT: every bit of the operand inverted.
pub fn not_32_ai(core: &mut ConfiguredCore) -> (r: Result<Cycles>)
    requires
        old(core).wf(),
    ensures
        final(core).wf(),
        not_32_ai_effect(*old(core), *final(core), r),
{
    let ghost c0 = *core;
    let d = operator::ea_ay_ai_32(core);
    let ghost m1 = *core;
    assert(operator::ea_ay_ai_32_rel(c0, m1, d));
    let (dv, ea) = match d {
        Err(e) => {
            return Err(e);
        },
        Ok(p) => p,
    };
    let res = common::not_32(core, dv);
    store(core, 32, ea, res, 20)
}

/// What `not_32_pi` does: the core goes from `c0` to `c1` and `r` comes back.
pub open spec fn not_32_pi_effect(c0: ConfiguredCore, c1: ConfiguredCore, r: Result<Cycles>) -> bool {
    exists|m1: ConfiguredCore, d: Result<(u32, u32)>|
        #[trigger] operator::ea_ay_pi_32_rel(c0, m1, d) && match d {
            Err(e) => r == Err::<Cycles, Exception>(e) && c1 == m1,
            Ok((dv, ea)) => {
                let o = common::not_32_outcome(m1, dv);
                stored(o.0, c1, 32, ea, o.1, r, 20)
            },
        }
}

/// NOT: every bit of the operand inverted.
pub fn not_32_pi(core: &mut ConfiguredCore) -> (r: Result<Cycles>)
    requires
        old(core).wf(),
    ensures
        final(core).wf(),
        not_32_pi_effect(*old(core), *final(core), r),
{
    let ghost c0 = *core;
    let d = operator::ea_ay_pi_32(core);
    let ghost m1 = *core;
    assert(operator::ea_ay_pi_32_rel(c0, m1, d));
    let (dv, ea) = match d {
        Err(e) => {
            return Err(e);
        },
        Ok(p) => p,
    };
    let res = common::not_32(core, dv);
    store(core, 32, ea, res, 20)
}

/// What `not_32_pd` does: the core goes from `c0` to `c1` and `r` comes back.
pub open spec fn not_32_pd_effect(c0: ConfiguredCore, c1: ConfiguredCore, r: Result<Cycles>) -> bool {
    exists|m1: ConfiguredCore, d: Result<(u32, u32)>|
        #[trigger] operator::ea_ay_pd_32_rel(c0, m1, d) && match d {
            Err(e) => r == Err::<Cycles, Exception>(e) && c1 == m1,
            Ok((dv, ea)) => {
                let o = common::not_32_outcome(m1, dv);
                stored(o.0, c1, 32, ea, o.1, r, 22)
            },
        }
}

/// NOT: every bit of the operand inverted.
pub fn not_32_pd(core: &mut ConfiguredCore) -> (r: Result<Cycles>)
    requires
        old(core).wf(),
    ensures
        final(core).wf(),
        not_32_pd_effect(*old(core), *final(core), r),
{
    let ghost c0 = *core;
    let d = operator::ea_ay_pd_32(core);
    let ghost m1 = *core;
    assert(operator::ea_ay_pd_32_rel(c0, m1, d));
    let (dv, ea) = match d {
        Err(e) => {
            return Err(e);
        },
        Ok(p) => p,
    };
    let res = common::not_32(core, dv);
    store(core, 32, ea, res, 22)
}

/// What `not_32_di` does: the core goes from `c0` to `c1` and `r` comes back.
pub open spec fn not_32_di_effect(c0: ConfiguredCore, c1: ConfiguredCore, r: Result<Cycles>) -> bool {
    exists|m1: ConfiguredCore, d: Result<(u32, u32)>|
        #[trigger] operator::ea_ay_di_32_rel(c0, m1, d) && match d {
            Err(e) => r == Err::<Cycles, Exception>(e) && c1 == m1,
            Ok((dv, ea)) => {
                let o = common::not_32_outcome(m1, dv);
                stored(o.0, c1, 32, ea, o.1, r, 24)
            },
        }
}

/// NOT: every bit of the operand inverted.
pub fn not_32_di(core: &mut ConfiguredCore) -> (r: Result<Cycles>)
    requires
        old(core).wf(),
    ensures
        final(core).wf(),
        not_32_di_effect(*old(core), *final(core), r),
{
    let ghost c0 = *core;
    let d = operator::ea_ay_di_32(core);
    let ghost m1 = *core;
    assert(operator::ea_ay_di_32_rel(c0, m1, d));
    let (dv, ea) = match d {
        Err(e) => {
            return Err(e);
        },
        Ok(p) => p,
    };
    let res = common::not_32(core, dv);
    store(core, 32, ea, res, 24)
}

/// What `not_32_ix` does: the core goes from `c0` to `c1` and `r` comes back.
pub open spec fn not_32_ix_effect(c0: ConfiguredCore, c1: ConfiguredCore, r: Result<Cycles>) -> bool {
    exists|m1: ConfiguredCore, d: Result<(u32, u32)>|
        #[trigger] operator::ea_ay_ix_32_rel(c0, m1, d) && match d {
            Err(e) => r == Err::<Cycles, Exception>(e) && c1 == m1,
            Ok((dv, ea)) => {
                let o = common::not_32_outcome(m1, dv);
                stored(o.0, c1, 32, ea, o.1, r, 26)
            },
        }
}

/// NOT: every bit of the operand inverted.
pub fn not_32_ix(core: &mut ConfiguredCore) -> (r: Result<Cycles>)
    requires
        old(core).wf(),
    ensures
        final(core).wf(),
        not_32_ix_effect(*old(core), *final(core), r),
{
    let ghost c0 = *core;
    let d = operator::ea_ay_ix_32(core);
    let ghost m1 = *core;
    assert(operator::ea_ay_ix_32_rel(c0, m1, d));
    let (dv, ea) = match d {
        Err(e) => {
            return Err(e);
        },
        Ok(p) => p,
    };
    let res = common::not_32(core, dv);
    store(core, 32, ea, res, 26)
}

/// What `not_32_aw` does: the core goes from `c0` to `c1` and `r` comes back.
pub open spec fn not_32_aw_effect(c0: ConfiguredCore, c1: ConfiguredCore, r: Result<Cycles>) -> bool {
    exists|m1: ConfiguredCore, d: Result<(u32, u32)>|
        #[trigger] operator::ea_aw_32_rel(c0, m1, d) && match d {
            Err(e) => r == Err::<Cycles, Exception>(e) && c1 == m1,
            Ok((dv, ea)) => {
                let o = common::not_32_outcome(m1, dv);
                stored(o.0, c1, 32, ea, o.1, r, 24)
            },
        }
}

/// NOT: every bit of the operand inverted.
pub fn not_32_aw(core: &mut ConfiguredCore) -> (r: Result<Cycles>)
    requires
        old(core).wf(),
    ensures
        final(core).wf(),
        not_32_aw_effect(*old(core), *final(core), r),
{
    let ghost c0 = *core;
    let d = operator::ea_aw_32(core);
    let ghost m1 = *core;
    assert(operator::ea_aw_32_rel(c0, m1, d));
    let (dv, ea) = match d {
        Err(e) => {
            return Err(e);
        },
        Ok(p) => p,
    };
    let res = common::not_32(core, dv);
    store(core, 32, ea, res, 24)
}

/// What `not_32_al` does: the core goes from `c0` to `c1` and `r` comes back.
pub open spec fn not_32_al_effect(c0: ConfiguredCore, c1: ConfiguredCore, r: Result<Cycles>) -> bool {
    exists|m1: ConfiguredCore, d: Result<(u32, u32)>|
        #[trigger] operator::ea_al_32_rel(c0, m1, d) && match d {
            Err(e) => r == Err::<Cycles, Exception>(e) && c1 == m1,
            Ok((dv, ea)) => {
                let o = common::not_32_outcome(m1, dv);
                stored(o.0, c1, 32, ea, o.1, r, 28)
            },
        }
}

/// NOT: every bit of the operand inverted.
pub fn not_32_al(core: &mut ConfiguredCore) -> (r: Result<Cycles>)
    requires
        old(core).wf(),
    ensures
        final(core).wf(),
        not_32_al_effect(*old(core), *final(core), r),
{
    let ghost c0 = *core;
    let d = operator::ea_al_32(core);
    let ghost m1 = *core;
    assert(operator::ea_al_32_rel(c0, m1, d));
    let (dv, ea) = match d {
        Err(e) => {
            return Err(e);
        },
        Ok(p) => p,
    };
    let res = common::not_32(core, dv);
    store(core, 32, ea, res, 28)
}

/// What `tas_8_dn` does: the core goes from `c0` to `c1` and `r` comes back.
pub open spec fn tas_8_dn_effect(c0: ConfiguredCore, c1: ConfiguredCore, r: Result<Cycles>) -> bool {
    let reg = ir_dy(c0.ir);
    let dst = c0.dar[reg];
    &&& r == Ok::<Cycles, Exception>(Cycles(4))
    &&& reg_set(ConfiguredCore { n_flag: dst, not_z_flag: dst & 0xff, v_flag: 0, c_flag: 0, ..c0 }, c1, reg, dst | 0x80)
}

/// TAS: N and Z set from the byte, which then gets its top bit set.
pub fn tas_8_dn(core: &mut ConfiguredCore) -> (r: Result<Cycles>)
    requires
        old(core).wf(),
    ensures
        final(core).wf(),
        tas_8_dn_effect(*old(core), *final(core), r),
{
    let reg = reg_dy(core.ir);
    let dst = core.dar[reg];
    core.not_z_flag = dst & 0xff;
    core.n_flag = dst;
    core.v_flag = 0;
    core.c_flag = 0;
    set_reg(core, reg, dst | 0x80);
    Ok(Cycles(4))
}

/// What `tas_8_ai` does: the core goes from `c0` to `c1` and `r` comes back.
pub open spec fn tas_8_ai_effect(c0: ConfiguredCore, c1: ConfiguredCore, r: Result<Cycles>) -> bool {
    exists|m1: ConfiguredCore, d: Result<(u32, u32)>|
        #[trigger] operator::ea_ay_ai_8_rel(c0, m1, d) && match d {
            Err(e) => r == Err::<Cycles, Exception>(e) && c1 == m1,
            Ok((dv, ea)) => {
                stored(common::move_flags_outcome(m1, dv, 0).0, c1, 8, ea, (dv | 0x80) & 0xff, r, 18)
            },
        }
}

/// TAS: N and Z set from the byte, which then gets its top bit set.
pub fn tas_8_ai(core: &mut ConfiguredCore) -> (r: Result<Cycles>)
    requires
        old(core).wf(),
    ensures
        final(core).wf(),
        tas_8_ai_effect(*old(core), *final(core), r),
{
    let ghost c0 = *core;
    let d = operator::ea_ay_ai_8(core);
    let ghost m1 = *core;
    assert(operator::ea_ay_ai_8_rel(c0, m1, d));
    let (dv, ea) = match d {
        Err(e) => {
            return Err(e);
        },
        Ok(p) => p,
    };
    common::move_flags(core, dv, 0);
    let _ = core.allow_tas_writeback();
    store(core, 8, ea, (dv | 0x80) & 0xff, 18)
}

/// What `tas_8_pi` does: the core goes from `c0` to `c1` and `r` comes back.
pub open spec fn tas_8_pi_effect(c0: ConfiguredCore, c1: ConfiguredCore, r: Result<Cycles>) -> bool {
    exists|m1: ConfiguredCore, d: Result<(u32, u32)>|
        #[trigger] operator::ea_ay_pi_8_rel(c0, m1, d) && match d {
            Err(e) => r == Err::<Cycles, Exception>(e) && c1 == m1,
            Ok((dv, ea)) => {
                stored(common::move_flags_outcome(m1, dv, 0).0, c1, 8, ea, (dv | 0x80) & 0xff, r, 18)
            },
        }
}

/// TAS: N and Z set from the byte, which then gets its top bit set.
pub fn tas_8_pi(core: &mut ConfiguredCore) -> (r: Result<Cycles>)
    requires
        old(core).wf(),
    ensures
        final(core).wf(),
        tas_8_pi_effect(*old(core), *final(core), r),
{
    let ghost c0 = *core;
    let d = operator::ea_ay_pi_8(core);
    let ghost m1 = *core;
    assert(operator::ea_ay_pi_8_rel(c0, m1, d));
    let (dv, ea) = match d {
        Err(e) => {
            return Err(e);
        },
        Ok(p) => p,
    };
    common::move_flags(core, dv, 0);
    let _ = core.allow_tas_writeback();
    store(core, 8, ea, (dv | 0x80) & 0xff, 18)
}

/// What `tas_8_pd` does: the core goes from `c0` to `c1` and `r` comes back.
pub open spec fn tas_8_pd_effect(c0: ConfiguredCore, c1: ConfiguredCore, r: Result<Cycles>) -> bool {
    exists|m1: ConfiguredCore, d: Result<(u32, u32)>|
        #[trigger] operator::ea_ay_pd_8_rel(c0, m1, d) && match d {
            Err(e) => r == Err::<Cycles, Exception>(e) && c1 == m1,
            Ok((dv, ea)) => {
                stored(common::move_flags_outcome(m1, dv, 0).0, c1, 8, ea, (dv | 0x80) & 0xff, r, 20)
            },
        }
}

/// TAS: N and Z set from the byte, which then gets its top bit set.
pub fn tas_8_pd(core: &mut ConfiguredCore) -> (r: Result<Cycles>)
    requires
        old(core).wf(),
    ensures
        final(core).wf(),
        tas_8_pd_effect(*old(core), *final(core), r),
{
    let ghost c0 = *core;
    let d = operator::ea_ay_pd_8(core);
    let ghost m1 = *core;
    assert(operator::ea_ay_pd_8_rel(c0, m1, d));
    let (dv, ea) = match d {
        Err(e) => {
            return Err(e);
        },
        Ok(p) => p,
    };
    common::move_flags(core, dv, 0);
    let _ = core.allow_tas_writeback();
    store(core, 8, ea, (dv | 0x80) & 0xff, 20)
}

/// What `tas_8_di` does: the core goes from `c0` to `c1` and `r` comes back.
pub open spec fn tas_8_di_effect(c0: ConfiguredCore, c1: ConfiguredCore, r: Result<Cycles>) -> bool {
    exists|m1: ConfiguredCore, d: Result<(u32, u32)>|
        #[trigger] operator::ea_ay_di_8_rel(c0, m1, d) && match d {
            Err(e) => r == Err::<Cycles, Exception>(e) && c1 == m1,
            Ok((dv, ea)) => {
                stored(common::move_flags_outcome(m1, dv, 0).0, c1, 8, ea, (dv | 0x80) & 0xff, r, 22)
            },
        }
}

/// TAS: N and Z set from the byte, which then gets its top bit set.
pub fn tas_8_di(core: &mut ConfiguredCore) -> (r: Result<Cycles>)
    requires
        old(core).wf(),
    ensures
        final(core).wf(),
        tas_8_di_effect(*old(core), *final(core), r),
{
    let ghost c0 = *core;
    let d = operator::ea_ay_di_8(core);
    let ghost m1 = *core;
    assert(operator::ea_ay_di_8_rel(c0, m1, d));
    let (dv, ea) = match d {
        Err(e) => {
            return Err(e);
        },
        Ok(p) => p,
    };
    common::move_flags(core, dv, 0);
    let _ = core.allow_tas_writeback();
    store(core, 8, ea, (dv | 0x80) & 0xff, 22)
}

/// What `tas_8_ix` does: the core goes from `c0` to `c1` and `r` comes back.
pub open spec fn tas_8_ix_effect(c0: ConfiguredCore, c1: ConfiguredCore, r: Result<Cycles>) -> bool {
    exists|m1: ConfiguredCore, d: Result<(u32, u32)>|
        #[trigger] operator::ea_ay_ix_8_rel(c0, m1, d) && match d {
            Err(e) => r == Err::<Cycles, Exception>(e) && c1 == m1,
            Ok((dv, ea)) => {
                stored(common::move_flags_outcome(m1, dv, 0).0, c1, 8, ea, (dv | 0x80) & 0xff, r, 24)
            },
        }
}

/// TAS: N and Z set from the byte, which then gets its top bit set.
pub fn tas_8_ix(core: &mut ConfiguredCore) -> (r: Result<Cycles>)
    requires
        old(core).wf(),
    ensures
        final(core).wf(),
        tas_8_ix_effect(*old(core), *final(core), r),
{
    let ghost c0 = *core;
    let d = operator::ea_ay_ix_8(core);
    let ghost m1 = *core;
    assert(operator::ea_ay_ix_8_rel(c0, m1, d));
    let (dv, ea) = match d {
        Err(e) => {
            return Err(e);
        },
        Ok(p) => p,
    };
    common::move_flags(core, dv, 0);
    let _ = core.allow_tas_writeback();
    store(core, 8, ea, (dv | 0x80) & 0xff, 24)
}

/// What `tas_8_aw` does: the core goes from `c0` to `c1` and `r` comes back.
pub open spec fn tas_8_aw_effect(c0: ConfiguredCore, c1: ConfiguredCore, r: Result<Cycles>) -> bool {
    exists|m1: ConfiguredCore, d: Result<(u32, u32)>|
        #[trigger] operator::ea_aw_8_rel(c0, m1, d) && match d {
            Err(e) => r == Err::<Cycles, Exception>(e) && c1 == m1,
            Ok((dv, ea)) => {
                stored(common::move_flags_outcome(m1, dv, 0).0, c1, 8, ea, (dv | 0x80) & 0xff, r, 22)
            },
        }
}

/// TAS: N and Z set from the byte, which then gets its top bit set.
pub fn tas_8_aw(core: &mut ConfiguredCore) -> (r: Result<Cycles>)
    requires
        old(core).wf(),
    ensures
        final(core).wf(),
        tas_8_aw_effect(*old(core), *final(core), r),
{
    let ghost c0 = *core;
    let d = operator::ea_aw_8(core);
    let ghost m1 = *core;
    assert(operator::ea_aw_8_rel(c0, m1, d));
    let (dv, ea) = match d {
        Err(e) => {
            return Err(e);
        },
        Ok(p) => p,
    };
    common::move_flags(core, dv, 0);
    let _ = core.allow_tas_writeback();
    store(core, 8, ea, (dv | 0x80) & 0xff, 22)
}

/// What `tas_8_al` does: the core goes from `c0` to `c1` and `r` comes back.
pub open spec fn tas_8_al_effect(c0: ConfiguredCore, c1: ConfiguredCore, r: Result<Cycles>) -> bool {
    exists|m1: ConfiguredCore, d: Result<(u32, u32)>|
        #[trigger] operator::ea_al_8_rel(c0, m1, d) && match d {
            Err(e) => r == Err::<Cycles, Exception>(e) && c1 == m1,
            Ok((dv, ea)) => {
                stored(common::move_flags_outcome(m1, dv, 0).0, c1, 8, ea, (dv | 0x80) & 0xff, r, 26)
            },
        }
}

/// TAS: N and Z set from the byte, which then gets its top bit set.
pub fn tas_8_al(core: &mut ConfiguredCore) -> (r: Result<Cycles>)
    requires
        old(core).wf(),
    ensures
        final(core).wf(),
        tas_8_al_effect(*old(core), *final(core), r),
{
    let ghost c0 = *core;
    let d = operator::ea_al_8(core);
    let ghost m1 = *core;
    assert(operator::ea_al_8_rel(c0, m1, d));
    let (dv, ea) = match d {
        Err(e) => {
            return Err(e);
        },
        Ok(p) => p,
    };
    common::move_flags(core, dv, 0);
    let _ = core.allow_tas_writeback();
    store(core, 8, ea, (dv | 0x80) & 0xff, 26)
}

/// What `tst_8_dn` does: the core goes from `c0` to `c1` and `r` comes back.
pub open spec fn tst_8_dn_effect(c0: ConfiguredCore, c1: ConfiguredCore, r: Result<Cycles>) -> bool {
    exists|mid: ConfiguredCore, src: Result<u32>|
        #[trigger] operator::dy_rel(c0, mid, src) && match src {
            Err(e) => r == Err::<Cycles, Exception>(e) && c1 == mid,
            Ok(v) => {
                r == Ok::<Cycles, Exception>(Cycles(4)) && c1 == common::move_flags_outcome(mid, v & 0xff, 0).0
            },
        }
}

/// TST: N and Z set from the operand, V and C cleared.
pub fn tst_8_dn(core: &mut ConfiguredCore) -> (r: Result<Cycles>)
    requires
        old(core).wf(),
    ensures
        final(core).wf(),
        tst_8_dn_effect(*old(core), *final(core), r),
{
    let ghost c0 = *core;
    let src = operator::dy(core);
    let ghost mid = *core;
    assert(operator::dy_rel(c0, mid, src));
    match src {
        Err(e) => Err(e),
        Ok(v) => {
            common::move_flags(core, v & 0xff, 0);
            Ok(Cycles(4))
        },
    }
}

/// What `tst_8_ai` does: the core goes from `c0` to `c1` and `r` comes back.
pub open spec fn tst_8_ai_effect(c0: ConfiguredCore, c1: ConfiguredCore, r: Result<Cycles>) -> bool {
    exists|mid: ConfiguredCore, src: Result<u32>|
        #[trigger] operator::ay_ai_8_rel(c0, mid, src) && match src {
            Err(e) => r == Err::<Cycles, Exception>(e) && c1 == mid,
            Ok(v) => {
                r == Ok::<Cycles, Exception>(Cycles(8)) && c1 == common::move_flags_outcome(mid, v, 0).0
            },
        }
}

/// TST: N and Z set from the operand, V and C cleared.
pub fn tst_8_ai(core: &mut ConfiguredCore) -> (r: Result<Cycles>)
    requires
        old(core).wf(),
    ensures
        final(core).wf(),
        tst_8_ai_effect(*old(core), *final(core), r),
{
    let ghost c0 = *core;
    let src = operator::ay_ai_8(core);
    let ghost mid = *core;
    assert(operator::ay_ai_8_rel(c0, mid, src));
    match src {
        Err(e) => Err(e),
        Ok(v) => {
            common::move_flags(core, v, 0);
            Ok(Cycles(8))
        },
    }
}

/// What `tst_8_pi` does: the core goes from `c0` to `c1` and `r` comes back.
pub open spec fn tst_8_pi_effect(c0: ConfiguredCore, c1: ConfiguredCore, r: Result<Cycles>) -> bool {
    exists|mid: ConfiguredCore, src: Result<u32>|
        #[trigger] operator::ay_pi_8_rel(c0, mid, src) && match src {
            Err(e) => r == Err::<Cycles, Exception>(e) && c1 == mid,
            Ok(v) => {
                r == Ok::<Cycles, Exception>(Cycles(8)) && c1 == common::move_flags_outcome(mid, v, 0).0
            },
        }
}

/// TST: N and Z set from the operand, V and C cleared.
pub fn tst_8_pi(core: &mut ConfiguredCore) -> (r: Result<Cycles>)
    requires
        old(core).wf(),
    ensures
        final(core).wf(),
        tst_8_pi_effect(*old(core), *final(core), r),
{
    let ghost c0 = *core;
    let src = operator::ay_pi_8(core);
    let ghost mid = *core;
    assert(operator::ay_pi_8_rel(c0, mid, src));
    match src {
        Err(e) => Err(e),
        Ok(v) => {
            common::move_flags(core, v, 0);
            Ok(Cycles(8))
        },
    }
}

/// What `tst_8_pd` does: the core goes from `c0` to `c1` and `r` comes back.
pub open spec fn tst_8_pd_effect(c0: ConfiguredCore, c1: ConfiguredCore, r: Result<Cycles>) -> bool {
    exists|mid: ConfiguredCore, src: Result<u32>|
        #[trigger] operator::ay_pd_8_rel(c0, mid, src) && match src {
            Err(e) => r == Err::<Cycles, Exception>(e) && c1 == mid,
            Ok(v) => {
                r == Ok::<Cycles, Exception>(Cycles(10)) && c1 == common::move_flags_outcome(mid, v, 0).0
            },
        }
}

/// TST: N and Z set from the operand, V and C cleared.
pub fn tst_8_pd(core: &mut ConfiguredCore) -> (r: Result<Cycles>)
    requires
        old(core).wf(),
    ensures
        final(core).wf(),
        tst_8_pd_effect(*old(core), *final(core), r),
{
    let ghost c0 = *core;
    let src = operator::ay_pd_8(core);
    let ghost mid = *core;
    assert(operator::ay_pd_8_rel(c0, mid, src));
    match src {
        Err(e) => Err(e),
        Ok(v) => {
            common::move_flags(core, v, 0);
            Ok(Cycles(10))
        },
    }
}

/// What `tst_8_di` does: the core goes from `c0` to `c1` and `r` comes back.
pub open spec fn tst_8_di_effect(c0: ConfiguredCore, c1: ConfiguredCore, r: Result<Cycles>) -> bool {
    exists|mid: ConfiguredCore, src: Result<u32>|
        #[trigger] operator::ay_di_8_rel(c0, mid, src) && match src {
            Err(e) => r == Err::<Cycles, Exception>(e) && c1 == mid,
            Ok(v) => {
                r == Ok::<Cycles, Exception>(Cycles(12)) && c1 == common::move_flags_outcome(mid, v, 0).0
            },
        }
}

/// TST: N and Z set from the operand, V and C cleared.
pub fn tst_8_di(core: &mut ConfiguredCore) -> (r: Result<Cycles>)
    requires
        old(core).wf(),
    ensures
        final(core).wf(),
        tst_8_di_effect(*old(core), *final(core), r),
{
    let ghost c0 = *core;
    let src = operator::ay_di_8(core);
    let ghost mid = *core;
    assert(operator::ay_di_8_rel(c0, mid, src));
    match src {
        Err(e) => Err(e),
        Ok(v) => {
            common::move_flags(core, v, 0);
            Ok(Cycles(12))
        },
    }
}

/// What `tst_8_ix` does: the core goes from `c0` to `c1` and `r` comes back.
pub open spec fn tst_8_ix_effect(c0: ConfiguredCore, c1: ConfiguredCore, r: Result<Cycles>) -> bool {
    exists|mid: ConfiguredCore, src: Result<u32>|
        #[trigger] operator::ay_ix_8_rel(c0, mid, src) && match src {
            Err(e) => r == Err::<Cycles, Exception>(e) && c1 == mid,
            Ok(v) => {
                r == Ok::<Cycles, Exception>(Cycles(14)) && c1 == common::move_flags_outcome(mid, v, 0).0
            },
        }
}

/// TST: N and Z set from the operand, V and C cleared.
pub fn tst_8_ix(core: &mut ConfiguredCore) -> (r: Result<Cycles>)
    requires
        old(core).wf(),
    ensures
        final(core).wf(),
        tst_8_ix_effect(*old(core), *final(core), r),
{
    let ghost c0 = *core;
    let src = operator::ay_ix_8(core);
    let ghost mid = *core;
    assert(operator::ay_ix_8_rel(c0, mid, src));
    match src {
        Err(e) => Err(e),
        Ok(v) => {
            common::move_flags(core, v, 0);
            Ok(Cycles(14))
        },
    }
}

/// What `tst_8_aw` does: the core goes from `c0` to `c1` and `r` comes back.
pub open spec fn tst_8_aw_effect(c0: ConfiguredCore, c1: ConfiguredCore, r: Result<Cycles>) -> bool {
    exists|mid: ConfiguredCore, src: Result<u32>|
        #[trigger] operator::aw_8_rel(c0, mid, src) && match src {
            Err(e) => r == Err::<Cycles, Exception>(e) && c1 == mid,
            Ok(v) => {
                r == Ok::<Cycles, Exception>(Cycles(12)) && c1 == common::move_flags_outcome(mid, v, 0).0
            },
        }
}

/// TST: N and Z set from the operand, V and C cleared.
pub fn tst_8_aw(core: &mut ConfiguredCore) -> (r: Result<Cycles>)
    requires
        old(core).wf(),
    ensures
        final(core).wf(),
        tst_8_aw_effect(*old(core), *final(core), r),
{
    let ghost c0 = *core;
    let src = operator::aw_8(core);
    let ghost mid = *core;
    assert(operator::aw_8_rel(c0, mid, src));
    match src {
        Err(e) => Err(e),
        Ok(v) => {
            common::move_flags(core, v, 0);
            Ok(Cycles(12))
        },
    }
}

/// What `tst_8_al` does: the core goes from `c0` to `c1` and `r` comes back.
pub open spec fn tst_8_al_effect(c0: ConfiguredCore, c1: ConfiguredCore, r: Result<Cycles>) -> bool {
    exists|mid: ConfiguredCore, src: Result<u32>|
        #[trigger] operator::al_8_rel(c0, mid, src) && match src {
            Err(e) => r == Err::<Cycles, Exception>(e) && c1 == mid,
            Ok(v) => {
                r == Ok::<Cycles, Exception>(Cycles(16)) && c1 == common::move_flags_outcome(mid, v, 0).0
            },
        }
}

/// TST: N and Z set from the operand, V and C cleared.
pub fn tst_8_al(core: &mut ConfiguredCore) -> (r: Result<Cycles>)
    requires
        old(core).wf(),
    ensures
        final(core).wf(),
        tst_8_al_effect(*old(core), *final(core), r),
{
    let ghost c0 = *core;
    let src = operator::al_8(core);
    let ghost mid = *core;
    assert(operator::al_8_rel(c0, mid, src));
    match src {
        Err(e) => Err(e),
        Ok(v) => {
            common::move_flags(core, v, 0);
            Ok(Cycles(16))
        },
    }
}

/// What `tst_16_dn` does: the core goes from `c0` to `c1` and `r` comes back.
pub open spec fn tst_16_dn_effect(c0: ConfiguredCore, c1: ConfiguredCore, r: Result<Cycles>) -> bool {
    exists|mid: ConfiguredCore, src: Result<u32>|
        #[trigger] operator::dy_rel(c0, mid, src) && match src {
            Err(e) => r == Err::<Cycles, Exception>(e) && c1 == mid,
            Ok(v) => {
                r == Ok::<Cycles, Exception>(Cycles(4)) && c1 == common::move_flags_outcome(mid, v & 0xffff, 8).0
            },
        }
}

/// TST: N and Z set from the operand, V and C cleared.
pub fn tst_16_dn(core: &mut ConfiguredCore) -> (r: Result<Cycles>)
    requires
        old(core).wf(),
    ensures
        final(core).wf(),
        tst_16_dn_effect(*old(core), *final(core), r),
{
    let ghost c0 = *core;
    let src = operator::dy(core);
    let ghost mid = *core;
    assert(operator::dy_rel(c0, mid, src));
    match src {
        Err(e) => Err(e),
        Ok(v) => {
            common::move_flags(core, v & 0xffff, 8);
            Ok(Cycles(4))
        },
    }
}

/// What `tst_16_ai` does: the core goes from `c0` to `c1` and `r` comes back.
pub open spec fn tst_16_ai_effect(c0: ConfiguredCore, c1: ConfiguredCore, r: Result<Cycles>) -> bool {
    exists|mid: ConfiguredCore, src: Result<u32>|
        #[trigger] operator::ay_ai_16_rel(c0, mid, src) && match src {
            Err(e) => r == Err::<Cycles, Exception>(e) && c1 == mid,
            Ok(v) => {
                r == Ok::<Cycles, Exception>(Cycles(8)) && c1 == common::move_flags_outcome(mid, v, 8).0
            },
        }
}

/// TST: N and Z set from the operand, V and C cleared.
pub fn tst_16_ai(core: &mut ConfiguredCore) -> (r: Result<Cycles>)
    requires
        old(core).wf(),
    ensures
        final(core).wf(),
        tst_16_ai_effect(*old(core), *final(core), r),
{
    let ghost c0 = *core;
    let src = operator::ay_ai_16(core);
    let ghost mid = *core;
    assert(operator::ay_ai_16_rel(c0, mid, src));
    match src {
        Err(e) => Err(e),
        Ok(v) => {
            common::move_flags(core, v, 8);
            Ok(Cycles(8))
        },
    }
}

/// What `tst_16_pi` does: the core goes from `c0` to `c1` and `r` comes back.
pub open spec fn tst_16_pi_effect(c0: ConfiguredCore, c1: ConfiguredCore, r: Result<Cycles>) -> bool {
    exists|mid: ConfiguredCore, src: Result<u32>|
        #[trigger] operator::ay_pi_16_rel(c0, mid, src) && match src {
            Err(e) => r == Err::<Cycles, Exception>(e) && c1 == mid,
            Ok(v) => {
                r == Ok::<Cycles, Exception>(Cycles(8)) && c1 == common::move_flags_outcome(mid, v, 8).0
            },
        }
}

/// TST: N and Z set from the operand, V and C cleared.
pub fn tst_16_pi(core: &mut ConfiguredCore) -> (r: Result<Cycles>)
    requires
        old(core).wf(),
    ensures
        final(core).wf(),
        tst_16_pi_effect(*old(core), *final(core), r),
{
    let ghost c0 = *core;
    let src = operator::ay_pi_16(core);
    let ghost mid = *core;
    assert(operator::ay_pi_16_rel(c0, mid, src));
    match src {
        Err(e) => Err(e),
        Ok(v) => {
            common::move_flags(core, v, 8);
            Ok(Cycles(8))
        },
    }
}

/// What `tst_16_pd` does: the core goes from `c0` to `c1` and `r` comes back.
pub open spec fn tst_16_pd_effect(c0: ConfiguredCore, c1: ConfiguredCore, r: Result<Cycles>) -> bool {
    exists|mid: ConfiguredCore, src: Result<u32>|
        #[trigger] operator::ay_pd_16_rel(c0, mid, src) && match src {
            Err(e) => r == Err::<Cycles, Exception>(e) && c1 == mid,
            Ok(v) => {
                r == Ok::<Cycles, Exception>(Cycles(10)) && c1 == common::move_flags_outcome(mid, v, 8).0
            },
        }
}

/// TST: N and Z set from the operand, V and C cleared.
pub fn tst_16_pd(core: &mut ConfiguredCore) -> (r: Result<Cycles>)
    requires
        old(core).wf(),
    ensures
        final(core).wf(),
        tst_16_pd_effect(*old(core), *final(core), r),
{
    let ghost c0 = *core;
    let src = operator::ay_pd_16(core);
    let ghost mid = *core;
    assert(operator::ay_pd_16_rel(c0, mid, src));
    match src {
        Err(e) => Err(e),
        Ok(v) => {
            common::move_flags(core, v, 8);
            Ok(Cycles(10))
        },
    }
}

/// What `tst_16_di` does: the core goes from `c0` to `c1` and `r` comes back.
pub open spec fn tst_16_di_effect(c0: ConfiguredCore, c1: ConfiguredCore, r: Result<Cycles>) -> bool {
    exists|mid: ConfiguredCore, src: Result<u32>|
        #[trigger] operator::ay_di_16_rel(c0, mid, src) && match src {
            Err(e) => r == Err::<Cycles, Exception>(e) && c1 == mid,
            Ok(v) => {
                r == Ok::<Cycles, Exception>(Cycles(12)) && c1 == common::move_flags_outcome(mid, v, 8).0
            },
        }
}

/// TST: N and Z set from the operand, V and C cleared.
pub fn tst_16_di(core: &mut ConfiguredCore) -> (r: Result<Cycles>)
    requires
        old(core).wf(),
    ensures
        final(core).wf(),
        tst_16_di_effect(*old(core), *final(core), r),
{
    let ghost c0 = *core;
    let src = operator::ay_di_16(core);
    let ghost mid = *core;
    assert(operator::ay_di_16_rel(c0, mid, src));
    match src {
        Err(e) => Err(e),
        Ok(v) => {
            common::move_flags(core, v, 8);
            Ok(Cycles(12))
        },
    }
}

/// What `tst_16_ix` does: the core goes from `c0` to `c1` and `r` comes back.
pub open spec fn tst_16_ix_effect(c0: ConfiguredCore, c1: ConfiguredCore, r: Result<Cycles>) -> bool {
    exists|mid: ConfiguredCore, src: Result<u32>|
        #[trigger] operator::ay_ix_16_rel(c0, mid, src) && match src {
            Err(e) => r == Err::<Cycles, Exception>(e) && c1 == mid,
            Ok(v) => {
                r == Ok::<Cycles, Exception>(Cycles(14)) && c1 == common::move_flags_outcome(mid, v, 8).0
            },
        }
}

/// TST: N and Z set from the operand, V and C cleared.
pub fn tst_16_ix(core: &mut ConfiguredCore) -> (r: Result<Cycles>)
    requires
        old(core).wf(),
    ensures
        final(core).wf(),
        tst_16_ix_effect(*old(core), *final(core), r),
{
    let ghost c0 = *core;
    let src = operator::ay_ix_16(core);
    let ghost mid = *core;
    assert(operator::ay_ix_16_rel(c0, mid, src));
    match src {
        Err(e) => Err(e),
        Ok(v) => {
            common::move_flags(core, v, 8);
            Ok(Cycles(14))
        },
    }
}

/// What `tst_16_aw` does: the core goes from `c0` to `c1` and `r` comes back.
pub open spec fn tst_16_aw_effect(c0: ConfiguredCore, c1: ConfiguredCore, r: Result<Cycles>) -> bool {
    exists|mid: ConfiguredCore, src: Result<u32>|
        #[trigger] operator::aw_16_rel(c0, mid, src) && match src {
            Err(e) => r == Err::<Cycles, Exception>(e) && c1 == mid,
            Ok(v) => {
                r == Ok::<Cycles, Exception>(Cycles(12)) && c1 == common::move_flags_outcome(mid, v, 8).0
            },
        }
}

/// TST: N and Z set from the operand, V and C cleared.
pub fn tst_16_aw(core: &mut ConfiguredCore) -> (r: Result<Cycles>)
    requires
        old(core).wf(),
    ensures
        final(core).wf(),
        tst_16_aw_effect(*old(core), *final(core), r),
{
    let ghost c0 = *core;
    let src = operator::aw_16(core);
    let ghost mid = *core;
    assert(operator::aw_16_rel(c0, mid, src));
    match src {
        Err(e) => Err(e),
        Ok(v) => {
            common::move_flags(core, v, 8);
            Ok(Cycles(12))
        },
    }
}

/// What `tst_16_al` does: the core goes from `c0` to `c1` and `r` comes back.
pub open spec fn tst_16_al_effect(c0: ConfiguredCore, c1: ConfiguredCore, r: Result<Cycles>) -> bool {
    exists|mid: ConfiguredCore, src: Result<u32>|
        #[trigger] operator::al_16_rel(c0, mid, src) && match src {
            Err(e) => r == Err::<Cycles, Exception>(e) && c1 == mid,
            Ok(v) => {
                r == Ok::<Cycles, Exception>(Cycles(16)) && c1 == common::move_flags_outcome(mid, v, 8).0
            },
        }
}

/// TST: N and Z set from the operand, V and C cleared.
pub fn tst_16_al(core: &mut ConfiguredCore) -> (r: Result<Cycles>)
    requires
        old(core).wf(),
    ensures
        final(core).wf(),
        tst_16_al_effect(*old(core), *final(core), r),
{
    let ghost c0 = *core;
    let src = operator::al_16(core);
    let ghost mid = *core;
    assert(operator::al_16_rel(c0, mid, src));
    match src {
        Err(e) => Err(e),
        Ok(v) => {
            common::move_flags(core, v, 8);
            Ok(Cycles(16))
        },
    }
}

/// What `tst_32_dn` does: the core goes from `c0` to `c1` and `r` comes back.
pub open spec fn tst_32_dn_effect(c0: ConfiguredCore, c1: ConfiguredCore, r: Result<Cycles>) -> bool {
    exists|mid: ConfiguredCore, src: Result<u32>|
        #[trigger] operator::dy_rel(c0, mid, src) && match src {
            Err(e) => r == Err::<Cycles, Exception>(e) && c1 == mid,
            Ok(v) => {
                r == Ok::<Cycles, Exception>(Cycles(4)) && c1 == common::move_flags_outcome(mid, v, 24).0
            },
        }
}

/// TST: N and Z set from the operand, V and C cleared.
pub fn tst_32_dn(core: &mut ConfiguredCore) -> (r: Result<Cycles>)
    requires
        old(core).wf(),
    ensures
        final(core).wf(),
        tst_32_dn_effect(*old(core), *final(core), r),
{
    let ghost c0 = *core;
    let src = operator::dy(core);
    let ghost mid = *core;
    assert(operator::dy_rel(c0, mid, src));
    match src {
        Err(e) => Err(e),
        Ok(v) => {
            common::move_flags(core, v, 24);
            Ok(Cycles(4))
        },
    }
}

/// What `tst_32_ai` does: the core goes from `c0` to `c1` and `r` comes back.
pub open spec fn tst_32_ai_effect(c0: ConfiguredCore, c1: ConfiguredCore, r: Result<Cycles>) -> bool {
    exists|mid: ConfiguredCore, src: Result<u32>|
        #[trigger] operator::ay_ai_32_rel(c0, mid, src) && match src {
            Err(e) => r == Err::<Cycles, Exception>(e) && c1 == mid,
            Ok(v) => {
                r == Ok::<Cycles, Exception>(Cycles(12)) && c1 == common::move_flags_outcome(mid, v, 24).0
            },
        }
}

/// TST: N and Z set from the operand, V and C cleared.
pub fn tst_32_ai(core: &mut ConfiguredCore) -> (r: Result<Cycles>)
    requires
        old(core).wf(),
    ensures
        final(core).wf(),
        tst_32_ai_effect(*old(core), *final(core), r),
{
    let ghost c0 = *core;
    let src = operator::ay_ai_32(core);
    let ghost mid = *core;
    assert(operator::ay_ai_32_rel(c0, mid, src));
    match src {
        Err(e) => Err(e),
        Ok(v) => {
            common::move_flags(core, v, 24);
            Ok(Cycles(12))
        },
    }
}

/// What `tst_32_pi` does: the core goes from `c0` to `c1` and `r` comes back.
pub open spec fn tst_32_pi_effect(c0: ConfiguredCore, c1: ConfiguredCore, r: Result<Cycles>) -> bool {
    exists|mid: ConfiguredCore, src: Result<u32>|
        #[trigger] operator::ay_pi_32_rel(c0, mid, src) && match src {
            Err(e) => r == Err::<Cycles, Exception>(e) && c1 == mid,
            Ok(v) => {
                r == Ok::<Cycles, Exception>(Cycles(12)) && c1 == common::move_flags_outcome(mid, v, 24).0
            },
        }
}

/// TST: N and Z set from the operand, V and C cleared.
pub fn tst_32_pi(core: &mut ConfiguredCore) -> (r: Result<Cycles>)
    requires
        old(core).wf(),
    ensures
        final(core).wf(),
        tst_32_pi_effect(*old(core), *final(core), r),
{
    let ghost c0 = *core;
    let src = operator::ay_pi_32(core);
    let ghost mid = *core;
    assert(operator::ay_pi_32_rel(c0, mid, src));
    match src {
        Err(e) => Err(e),
        Ok(v) => {
            common::move_flags(core, v, 24);
            Ok(Cycles(12))
        },
    }
}

/// What `tst_32_pd` does: the core goes from `c0` to `c1` and `r` comes back.
pub open spec fn tst_32_pd_effect(c0: ConfiguredCore, c1: ConfiguredCore, r: Result<Cycles>) -> bool {
    exists|mid: ConfiguredCore, src: Result<u32>|
        #[trigger] operator::ay_pd_32_rel(c0, mid, src) && match src {
            Err(e) => r == Err::<Cycles, Exception>(e) && c1 == mid,
            Ok(v) => {
                r == Ok::<Cycles, Exception>(Cycles(14)) && c1 == common::move_flags_outcome(mid, v, 24).0
            },
        }
}

/// TST: N and Z set from the operand, V and C cleared.
pub fn tst_32_pd(core: &mut ConfiguredCore) -> (r: Result<Cycles>)
    requires
        old(core).wf(),
    ensures
        final(core).wf(),
        tst_32_pd_effect(*old(core), *final(core), r),
{
    let ghost c0 = *core;
    let src = operator::ay_pd_32(core);
    let ghost mid = *core;
    assert(operator::ay_pd_32_rel(c0, mid, src));
    match src {
        Err(e) => Err(e),
        Ok(v) => {
            common::move_flags(core, v, 24);
            Ok(Cycles(14))
        },
    }
}

/// What `tst_32_di` does: the core goes from `c0` to `c1` and `r` comes back.
pub open spec fn tst_32_di_effect(c0: ConfiguredCore, c1: ConfiguredCore, r: Result<Cycles>) -> bool {
    exists|mid: ConfiguredCore, src: Result<u32>|
        #[trigger] operator::ay_di_32_rel(c0, mid, src) && match src {
            Err(e) => r == Err::<Cycles, Exception>(e) && c1 == mid,
            Ok(v) => {
                r == Ok::<Cycles, Exception>(Cycles(16)) && c1 == common::move_flags_outcome(mid, v, 24).0
            },
        }
}

/// TST: N and Z set from the operand, V and C cleared.
pub fn tst_32_di(core: &mut ConfiguredCore) -> (r: Result<Cycles>)
    requires
        old(core).wf(),
    ensures
        final(core).wf(),
        tst_32_di_effect(*old(core), *final(core), r),
{
    let ghost c0 = *core;
    let src = operator::ay_di_32(core);
    let ghost mid = *core;
    assert(operator::ay_di_32_rel(c0, mid, src));
    match src {
        Err(e) => Err(e),
        Ok(v) => {
            common::move_flags(core, v, 24);
            Ok(Cycles(16))
        },
    }
}

/// What `tst_32_ix` does: the core goes from `c0` to `c1` and `r` comes back.
pub open spec fn tst_32_ix_effect(c0: ConfiguredCore, c1: ConfiguredCore, r: Result<Cycles>) -> bool {
    exists|mid: ConfiguredCore, src: Result<u32>|
        #[trigger] operator::ay_ix_32_rel(c0, mid, src) && match src {
            Err(e) => r == Err::<Cycles, Exception>(e) && c1 == mid,
            Ok(v) => {
                r == Ok::<Cycles, Exception>(Cycles(18)) && c1 == common::move_flags_outcome(mid, v, 24).0
            },
        }
}

/// TST: N and Z set from the operand, V and C cleared.
pub fn tst_32_ix(core: &mut ConfiguredCore) -> (r: Result<Cycles>)
    requires
        old(core).wf(),
    ensures
        final(core).wf(),
        tst_32_ix_effect(*old(core), *final(core), r),
{
    let ghost c0 = *core;
    let src = operator::ay_ix_32(core);
    let ghost mid = *core;
    assert(operator::ay_ix_32_rel(c0, mid, src));
    match src {
        Err(e) => Err(e),
        Ok(v) => {
            common::move_flags(core, v, 24);
            Ok(Cycles(18))
        },
    }
}

/// What `tst_32_aw` does: the core goes from `c0` to `c1` and `r` comes back.
pub open spec fn tst_32_aw_effect(c0: ConfiguredCore, c1: ConfiguredCore, r: Result<Cycles>) -> bool {
    exists|mid: ConfiguredCore, src: Result<u32>|
        #[trigger] operator::aw_32_rel(c0, mid, src) && match src {
            Err(e) => r == Err::<Cycles, Exception>(e) && c1 == mid,
            Ok(v) => {
                r == Ok::<Cycles, Exception>(Cycles(16)) && c1 == common::move_flags_outcome(mid, v, 24).0
            },
        }
}

/// TST: N and Z set from the operand, V and C cleared.
pub fn tst_32_aw(core: &mut ConfiguredCore) -> (r: Result<Cycles>)
    requires
        old(core).wf(),
    ensures
        final(core).wf(),
        tst_32_aw_effect(*old(core), *final(core), r),
{
    let ghost c0 = *core;
    let src = operator::aw_32(core);
    let ghost mid = *core;
    assert(operator::aw_32_rel(c0, mid, src));
    match src {
        Err(e) => Err(e),
        Ok(v) => {
            common::move_flags(core, v, 24);
            Ok(Cycles(16))
        },
    }
}

/// What `tst_32_al` does: the core goes from `c0` to `c1` and `r` comes back.
pub open spec fn tst_32_al_effect(c0: ConfiguredCore, c1: ConfiguredCore, r: Result<Cycles>) -> bool {
    exists|mid: ConfiguredCore, src: Result<u32>|
        #[trigger] operator::al_32_rel(c0, mid, src) && match src {
            Err(e) => r == Err::<Cycles, Exception>(e) && c1 == mid,
            Ok(v) => {
                r == Ok::<Cycles, Exception>(Cycles(20)) && c1 == common::move_flags_outcome(mid, v, 24).0
            },
        }
}

/// TST: N and Z set from the operand, V and C cleared.
pub fn tst_32_al(core: &mut ConfiguredCore) -> (r: Result<Cycles>)
    requires
        old(core).wf(),
    ensures
        final(core).wf(),
        tst_32_al_effect(*old(core), *final(core), r),
{
    let ghost c0 = *core;
    let src = operator::al_32(core);
    let ghost mid = *core;
    assert(operator::al_32_rel(c0, mid, src));
    match src {
        Err(e) => Err(e),
        Ok(v) => {
            common::move_flags(core, v, 24);
            Ok(Cycles(20))
        },
    }
}

/// The instructions on one operand: CLR, NEG, NEGX, NOT, TST, TAS and NBCD.
#[derive(Clone, Copy, Debug, PartialEq, Eq, Structural)]
pub enum UnaryOp {
    Clr8Ai,
    Clr8Pi,
    Clr8Pd,
    Clr8Di,
    Clr8Ix,
    Clr8Aw,
    Clr8Al,
    Clr16Ai,
    Clr16Pi,
    Clr16Pd,
    Clr16Di,
    Clr16Ix,
    Clr16Aw,
    Clr16Al,
    Clr32Ai,
    Clr32Pi,
    Clr32Pd,
    Clr32Di,
    Clr32Ix,
    Clr32Aw,
    Clr32Al,
    Nbcd8Dn,
    Nbcd8Ai,
    Nbcd8Pi,
    Nbcd8Pd,
    Nbcd8Di,
    Nbcd8Ix,
    Nbcd8Aw,
    Nbcd8Al,
    Neg8Dn,
    Neg8Ai,
    Neg8Pi,
    Neg8Pd,
    Neg8Di,
    Neg8Ix,
    Neg8Aw,
    Neg8Al,
    Neg16Dn,
    Neg16Ai,
    Neg16Pi,
    Neg16Pd,
    Neg16Di,
    Neg16Ix,
    Neg16Aw,
    Neg16Al,
    Neg32Dn,
    Neg32Ai,
    Neg32Pi,
    Neg32Pd,
    Neg32Di,
    Neg32Ix,
    Neg32Aw,
    Neg32Al,
    Negx8Dn,
    Negx8Ai,
    Negx8Pi,
    Negx8Pd,
    Negx8Di,
    Negx8Ix,
    Negx8Aw,
    Negx8Al,
    Negx16Dn,
    Negx16Ai,
    Negx16Pi,
    Negx16Pd,
    Negx16Di,
    Negx16Ix,
    Negx16Aw,
    Negx16Al,
    Negx32Dn,
    Negx32Ai,
    Negx32Pi,
    Negx32Pd,
    Negx32Di,
    Negx32Ix,
    Negx32Aw,
    Negx32Al,
    Not8Dn,
    Not8Ai,
    Not8Pi,
    Not8Pd,
    Not8Di,
    Not8Ix,
    Not8Aw,
    Not8Al,
    Not16Dn,
    Not16Ai,
    Not16Pi,
    Not16Pd,
    Not16Di,
    Not16Ix,
    Not16Aw,
    Not16Al,
    Not32Dn,
    Not32Ai,
    Not32Pi,
    Not32Pd,
    Not32Di,
    Not32Ix,
    Not32Aw,
    Not32Al,
    Tas8Dn,
    Tas8Ai,
    Tas8Pi,
    Tas8Pd,
    Tas8Di,
    Tas8Ix,
    Tas8Aw,
    Tas8Al,
    Tst8Dn,
    Tst8Ai,
    Tst8Pi,
    Tst8Pd,
    Tst8Di,
    Tst8Ix,
    Tst8Aw,
    Tst8Al,
    Tst16Dn,
    Tst16Ai,
    Tst16Pi,
    Tst16Pd,
    Tst16Di,
    Tst16Ix,
    Tst16Aw,
    Tst16Al,
    Tst32Dn,
    Tst32Ai,
    Tst32Pi,
    Tst32Pd,
    Tst32Di,
    Tst32Ix,
    Tst32Aw,
    Tst32Al,
}

/// What the instruction `op` does: the core goes from `c0` to `c1` and `r`
/// comes back.
pub open spec fn effect(op: UnaryOp, c0: ConfiguredCore, c1: ConfiguredCore, r: Result<Cycles>) -> bool {
    match op {
        UnaryOp::Clr8Ai => clr_8_ai_effect(c0, c1, r),
        UnaryOp::Clr8Pi => clr_8_pi_effect(c0, c1, r),
        UnaryOp::Clr8Pd => clr_8_pd_effect(c0, c1, r),
        UnaryOp::Clr8Di => clr_8_di_effect(c0, c1, r),
        UnaryOp::Clr8Ix => clr_8_ix_effect(c0, c1, r),
        UnaryOp::Clr8Aw => clr_8_aw_effect(c0, c1, r),
        UnaryOp::Clr8Al => clr_8_al_effect(c0, c1, r),
        UnaryOp::Clr16Ai => clr_16_ai_effect(c0, c1, r),
        UnaryOp::Clr16Pi => clr_16_pi_effect(c0, c1, r),
        UnaryOp::Clr16Pd => clr_16_pd_effect(c0, c1, r),
        UnaryOp::Clr16Di => clr_16_di_effect(c0, c1, r),
        UnaryOp::Clr16Ix => clr_16_ix_effect(c0, c1, r),
        UnaryOp::Clr16Aw => clr_16_aw_effect(c0, c1, r),
        UnaryOp::Clr16Al => clr_16_al_effect(c0, c1, r),
        UnaryOp::Clr32Ai => clr_32_ai_effect(c0, c1, r),
        UnaryOp::Clr32Pi => clr_32_pi_effect(c0, c1, r),
        UnaryOp::Clr32Pd => clr_32_pd_effect(c0, c1, r),
        UnaryOp::Clr32Di => clr_32_di_effect(c0, c1, r),
        UnaryOp::Clr32Ix => clr_32_ix_effect(c0, c1, r),
        UnaryOp::Clr32Aw => clr_32_aw_effect(c0, c1, r),
        UnaryOp::Clr32Al => clr_32_al_effect(c0, c1, r),
        UnaryOp::Nbcd8Dn => nbcd_8_dn_effect(c0, c1, r),
        UnaryOp::Nbcd8Ai => nbcd_8_ai_effect(c0, c1, r),
        UnaryOp::Nbcd8Pi => nbcd_8_pi_effect(c0, c1, r),
        UnaryOp::Nbcd8Pd => nbcd_8_pd_effect(c0, c1, r),
        UnaryOp::Nbcd8Di => nbcd_8_di_effect(c0, c1, r),
        UnaryOp::Nbcd8Ix => nbcd_8_ix_effect(c0, c1, r),
        UnaryOp::Nbcd8Aw => nbcd_8_aw_effect(c0, c1, r),
        UnaryOp::Nbcd8Al => nbcd_8_al_effect(c0, c1, r),
        UnaryOp::Neg8Dn => neg_8_dn_effect(c0, c1, r),
        UnaryOp::Neg8Ai => neg_8_ai_effect(c0, c1, r),
        UnaryOp::Neg8Pi => neg_8_pi_effect(c0, c1, r),
        UnaryOp::Neg8Pd => neg_8_pd_effect(c0, c1, r),
        UnaryOp::Neg8Di => neg_8_di_effect(c0, c1, r),
        UnaryOp::Neg8Ix => neg_8_ix_effect(c0, c1, r),
        UnaryOp::Neg8Aw => neg_8_aw_effect(c0, c1, r),
        UnaryOp::Neg8Al => neg_8_al_effect(c0, c1, r),
        UnaryOp::Neg16Dn => neg_16_dn_effect(c0, c1, r),
        UnaryOp::Neg16Ai => neg_16_ai_effect(c0, c1, r),
        UnaryOp::Neg16Pi => neg_16_pi_effect(c0, c1, r),
        UnaryOp::Neg16Pd => neg_16_pd_effect(c0, c1, r),
        UnaryOp::Neg16Di => neg_16_di_effect(c0, c1, r),
        UnaryOp::Neg16Ix => neg_16_ix_effect(c0, c1, r),
        UnaryOp::Neg16Aw => neg_16_aw_effect(c0, c1, r),
        UnaryOp::Neg16Al => neg_16_al_effect(c0, c1, r),
        UnaryOp::Neg32Dn => neg_32_dn_effect(c0, c1, r),
        UnaryOp::Neg32Ai => neg_32_ai_effect(c0, c1, r),
        UnaryOp::Neg32Pi => neg_32_pi_effect(c0, c1, r),
        UnaryOp::Neg32Pd => neg_32_pd_effect(c0, c1, r),
        UnaryOp::Neg32Di => neg_32_di_effect(c0, c1, r),
        UnaryOp::Neg32Ix => neg_32_ix_effect(c0, c1, r),
        UnaryOp::Neg32Aw => neg_32_aw_effect(c0, c1, r),
        UnaryOp::Neg32Al => neg_32_al_effect(c0, c1, r),
        UnaryOp::Negx8Dn => negx_8_dn_effect(c0, c1, r),
        UnaryOp::Negx8Ai => negx_8_ai_effect(c0, c1, r),
        UnaryOp::Negx8Pi => negx_8_pi_effect(c0, c1, r),
        UnaryOp::Negx8Pd => negx_8_pd_effect(c0, c1, r),
        UnaryOp::Negx8Di => negx_8_di_effect(c0, c1, r),
        UnaryOp::Negx8Ix => negx_8_ix_effect(c0, c1, r),
        UnaryOp::Negx8Aw => negx_8_aw_effect(c0, c1, r),
        UnaryOp::Negx8Al => negx_8_al_effect(c0, c1, r),
        UnaryOp::Negx16Dn => negx_16_dn_effect(c0, c1, r),
        UnaryOp::Negx16Ai => negx_16_ai_effect(c0, c1, r),
        UnaryOp::Negx16Pi => negx_16_pi_effect(c0, c1, r),
        UnaryOp::Negx16Pd => negx_16_pd_effect(c0, c1, r),
        UnaryOp::Negx16Di => negx_16_di_effect(c0, c1, r),
        UnaryOp::Negx16Ix => negx_16_ix_effect(c0, c1, r),
        UnaryOp::Negx16Aw => negx_16_aw_effect(c0, c1, r),
        UnaryOp::Negx16Al => negx_16_al_effect(c0, c1, r),
        UnaryOp::Negx32Dn => negx_32_dn_effect(c0, c1, r),
        UnaryOp::Negx32Ai => negx_32_ai_effect(c0, c1, r),
        UnaryOp::Negx32Pi => negx_32_pi_effect(c0, c1, r),
        UnaryOp::Negx32Pd => negx_32_pd_effect(c0, c1, r),
        UnaryOp::Negx32Di => negx_32_di_effect(c0, c1, r),
        UnaryOp::Negx32Ix => negx_32_ix_effect(c0, c1, r),
        UnaryOp::Negx32Aw => negx_32_aw_effect(c0, c1, r),
        UnaryOp::Negx32Al => negx_32_al_effect(c0, c1, r),
        UnaryOp::Not8Dn => not_8_dn_effect(c0, c1, r),
        UnaryOp::Not8Ai => not_8_ai_effect(c0, c1, r),
        UnaryOp::Not8Pi => not_8_pi_effect(c0, c1, r),
        UnaryOp::Not8Pd => not_8_pd_effect(c0, c1, r),
        UnaryOp::Not8Di => not_8_di_effect(c0, c1, r),
        UnaryOp::Not8Ix => not_8_ix_effect(c0, c1, r),
        UnaryOp::Not8Aw => not_8_aw_effect(c0, c1, r),
        UnaryOp::Not8Al => not_8_al_effect(c0, c1, r),
        UnaryOp::Not16Dn => not_16_dn_effect(c0, c1, r),
        UnaryOp::Not16Ai => not_16_ai_effect(c0, c1, r),
        UnaryOp::Not16Pi => not_16_pi_effect(c0, c1, r),
        UnaryOp::Not16Pd => not_16_pd_effect(c0, c1, r),
        UnaryOp::Not16Di => not_16_di_effect(c0, c1, r),
        UnaryOp::Not16Ix => not_16_ix_effect(c0, c1, r),
        UnaryOp::Not16Aw => not_16_aw_effect(c0, c1, r),
        UnaryOp::Not16Al => not_16_al_effect(c0, c1, r),
        UnaryOp::Not32Dn => not_32_dn_effect(c0, c1, r),
        UnaryOp::Not32Ai => not_32_ai_effect(c0, c1, r),
        UnaryOp::Not32Pi => not_32_pi_effect(c0, c1, r),
        UnaryOp::Not32Pd => not_32_pd_effect(c0, c1, r),
        UnaryOp::Not32Di => not_32_di_effect(c0, c1, r),
        UnaryOp::Not32Ix => not_32_ix_effect(c0, c1, r),
        UnaryOp::Not32Aw => not_32_aw_effect(c0, c1, r),
        UnaryOp::Not32Al => not_32_al_effect(c0, c1, r),
        UnaryOp::Tas8Dn => tas_8_dn_effect(c0, c1, r),
        UnaryOp::Tas8Ai => tas_8_ai_effect(c0, c1, r),
        UnaryOp::Tas8Pi => tas_8_pi_effect(c0, c1, r),
        UnaryOp::Tas8Pd => tas_8_pd_effect(c0, c1, r),
        UnaryOp::Tas8Di => tas_8_di_effect(c0, c1, r),
        UnaryOp::Tas8Ix => tas_8_ix_effect(c0, c1, r),
        UnaryOp::Tas8Aw => tas_8_aw_effect(c0, c1, r),
        UnaryOp::Tas8Al => tas_8_al_effect(c0, c1, r),
        UnaryOp::Tst8Dn => tst_8_dn_effect(c0, c1, r),
        UnaryOp::Tst8Ai => tst_8_ai_effect(c0, c1, r),
        UnaryOp::Tst8Pi => tst_8_pi_effect(c0, c1, r),
        UnaryOp::Tst8Pd => tst_8_pd_effect(c0, c1, r),
        UnaryOp::Tst8Di => tst_8_di_effect(c0, c1, r),
        UnaryOp::Tst8Ix => tst_8_ix_effect(c0, c1, r),
        UnaryOp::Tst8Aw => tst_8_aw_effect(c0, c1, r),
        UnaryOp::Tst8Al => tst_8_al_effect(c0, c1, r),
        UnaryOp::Tst16Dn => tst_16_dn_effect(c0, c1, r),
        UnaryOp::Tst16Ai => tst_16_ai_effect(c0, c1, r),
        UnaryOp::Tst16Pi => tst_16_pi_effect(c0, c1, r),
        UnaryOp::Tst16Pd => tst_16_pd_effect(c0, c1, r),
        UnaryOp::Tst16Di => tst_16_di_effect(c0, c1, r),
        UnaryOp::Tst16Ix => tst_16_ix_effect(c0, c1, r),
        UnaryOp::Tst16Aw => tst_16_aw_effect(c0, c1, r),
        UnaryOp::Tst16Al => tst_16_al_effect(c0, c1, r),
        UnaryOp::Tst32Dn => tst_32_dn_effect(c0, c1, r),
        UnaryOp::Tst32Ai => tst_32_ai_effect(c0, c1, r),
        UnaryOp::Tst32Pi => tst_32_pi_effect(c0, c1, r),
        UnaryOp::Tst32Pd => tst_32_pd_effect(c0, c1, r),
        UnaryOp::Tst32Di => tst_32_di_effect(c0, c1, r),
        UnaryOp::Tst32Ix => tst_32_ix_effect(c0, c1, r),
        UnaryOp::Tst32Aw => tst_32_aw_effect(c0, c1, r),
        UnaryOp::Tst32Al => tst_32_al_effect(c0, c1, r),
    }
}

/// Runs the instruction `op` on the core.
pub fn run(core: &mut ConfiguredCore, op: UnaryOp) -> (r: Result<Cycles>)
    requires
        old(core).wf(),
    ensures
        final(core).wf(),
        effect(op, *old(core), *final(core), r),
{
    match op {
        UnaryOp::Clr8Ai => clr_8_ai(core),
        UnaryOp::Clr8Pi => clr_8_pi(core),
        UnaryOp::Clr8Pd => clr_8_pd(core),
        UnaryOp::Clr8Di => clr_8_di(core),
        UnaryOp::Clr8Ix => clr_8_ix(core),
        UnaryOp::Clr8Aw => clr_8_aw(core),
        UnaryOp::Clr8Al => clr_8_al(core),
        UnaryOp::Clr16Ai => clr_16_ai(core),
        UnaryOp::Clr16Pi => clr_16_pi(core),
        UnaryOp::Clr16Pd => clr_16_pd(core),
        UnaryOp::Clr16Di => clr_16_di(core),
        UnaryOp::Clr16Ix => clr_16_ix(core),
        UnaryOp::Clr16Aw => clr_16_aw(core),
        UnaryOp::Clr16Al => clr_16_al(core),
        UnaryOp::Clr32Ai => clr_32_ai(core),
        UnaryOp::Clr32Pi => clr_32_pi(core),
        UnaryOp::Clr32Pd => clr_32_pd(core),
        UnaryOp::Clr32Di => clr_32_di(core),
        UnaryOp::Clr32Ix => clr_32_ix(core),
        UnaryOp::Clr32Aw => clr_32_aw(core),
        UnaryOp::Clr32Al => clr_32_al(core),
        UnaryOp::Nbcd8Dn => nbcd_8_dn(core),
        UnaryOp::Nbcd8Ai => nbcd_8_ai(core),
        UnaryOp::Nbcd8Pi => nbcd_8_pi(core),
        UnaryOp::Nbcd8Pd => nbcd_8_pd(core),
        UnaryOp::Nbcd8Di => nbcd_8_di(core),
        UnaryOp::Nbcd8Ix => nbcd_8_ix(core),
        UnaryOp::Nbcd8Aw => nbcd_8_aw(core),
        UnaryOp::Nbcd8Al => nbcd_8_al(core),
        UnaryOp::Neg8Dn => neg_8_dn(core),
        UnaryOp::Neg8Ai => neg_8_ai(core),
        UnaryOp::Neg8Pi => neg_8_pi(core),
        UnaryOp::Neg8Pd => neg_8_pd(core),
        UnaryOp::Neg8Di => neg_8_di(core),
        UnaryOp::Neg8Ix => neg_8_ix(core),
        UnaryOp::Neg8Aw => neg_8_aw(core),
        UnaryOp::Neg8Al => neg_8_al(core),
        UnaryOp::Neg16Dn => neg_16_dn(core),
        UnaryOp::Neg16Ai => neg_16_ai(core),
        UnaryOp::Neg16Pi => neg_16_pi(core),
        UnaryOp::Neg16Pd => neg_16_pd(core),
        UnaryOp::Neg16Di => neg_16_di(core),
        UnaryOp::Neg16Ix => neg_16_ix(core),
        UnaryOp::Neg16Aw => neg_16_aw(core),
        UnaryOp::Neg16Al => neg_16_al(core),
        UnaryOp::Neg32Dn => neg_32_dn(core),
        UnaryOp::Neg32Ai => neg_32_ai(core),
        UnaryOp::Neg32Pi => neg_32_pi(core),
        UnaryOp::Neg32Pd => neg_32_pd(core),
        UnaryOp::Neg32Di => neg_32_di(core),
        UnaryOp::Neg32Ix => neg_32_ix(core),
        UnaryOp::Neg32Aw => neg_32_aw(core),
        UnaryOp::Neg32Al => neg_32_al(core),
        UnaryOp::Negx8Dn => negx_8_dn(core),
        UnaryOp::Negx8Ai => negx_8_ai(core),
        UnaryOp::Negx8Pi => negx_8_pi(core),
        UnaryOp::Negx8Pd => negx_8_pd(core),
        UnaryOp::Negx8Di => negx_8_di(core),
        UnaryOp::Negx8Ix => negx_8_ix(core),
        UnaryOp::Negx8Aw => negx_8_aw(core),
        UnaryOp::Negx8Al => negx_8_al(core),
        UnaryOp::Negx16Dn => negx_16_dn(core),
        UnaryOp::Negx16Ai => negx_16_ai(core),
        UnaryOp::Negx16Pi => negx_16_pi(core),
        UnaryOp::Negx16Pd => negx_16_pd(core),
        UnaryOp::Negx16Di => negx_16_di(core),
        UnaryOp::Negx16Ix => negx_16_ix(core),
        UnaryOp::Negx16Aw => negx_16_aw(core),
        UnaryOp::Negx16Al => negx_16_al(core),
        UnaryOp::Negx32Dn => negx_32_dn(core),
        UnaryOp::Negx32Ai => negx_32_ai(core),
        UnaryOp::Negx32Pi => negx_32_pi(core),
        UnaryOp::Negx32Pd => negx_32_pd(core),
        UnaryOp::Negx32Di => negx_32_di(core),
        UnaryOp::Negx32Ix => negx_32_ix(core),
        UnaryOp::Negx32Aw => negx_32_aw(core),
        UnaryOp::Negx32Al => negx_32_al(core),
        UnaryOp::Not8Dn => not_8_dn(core),
        UnaryOp::Not8Ai => not_8_ai(core),
        UnaryOp::Not8Pi => not_8_pi(core),
        UnaryOp::Not8Pd => not_8_pd(core),
        UnaryOp::Not8Di => not_8_di(core),
        UnaryOp::Not8Ix => not_8_ix(core),
        UnaryOp::Not8Aw => not_8_aw(core),
        UnaryOp::Not8Al => not_8_al(core),
        UnaryOp::Not16Dn => not_16_dn(core),
        UnaryOp::Not16Ai => not_16_ai(core),
        UnaryOp::Not16Pi => not_16_pi(core),
        UnaryOp::Not16Pd => not_16_pd(core),
        UnaryOp::Not16Di => not_16_di(core),
        UnaryOp::Not16Ix => not_16_ix(core),
        UnaryOp::Not16Aw => not_16_aw(core),
        UnaryOp::Not16Al => not_16_al(core),
        UnaryOp::Not32Dn => not_32_dn(core),
        UnaryOp::Not32Ai => not_32_ai(core),
        UnaryOp::Not32Pi => not_32_pi(core),
        UnaryOp::Not32Pd => not_32_pd(core),
        UnaryOp::Not32Di => not_32_di(core),
        UnaryOp::Not32Ix => not_32_ix(core),
        UnaryOp::Not32Aw => not_32_aw(core),
        UnaryOp::Not32Al => not_32_al(core),
        UnaryOp::Tas8Dn => tas_8_dn(core),
        UnaryOp::Tas8Ai => tas_8_ai(core),
        UnaryOp::Tas8Pi => tas_8_pi(core),
        UnaryOp::Tas8Pd => tas_8_pd(core),
        UnaryOp::Tas8Di => tas_8_di(core),
        UnaryOp::Tas8Ix => tas_8_ix(core),
        UnaryOp::Tas8Aw => tas_8_aw(core),
        UnaryOp::Tas8Al => tas_8_al(core),
        UnaryOp::Tst8Dn => tst_8_dn(core),
        UnaryOp::Tst8Ai => tst_8_ai(core),
        UnaryOp::Tst8Pi => tst_8_pi(core),
        UnaryOp::Tst8Pd => tst_8_pd(core),
        UnaryOp::Tst8Di => tst_8_di(core),
        UnaryOp::Tst8Ix => tst_8_ix(core),
        UnaryOp::Tst8Aw => tst_8_aw(core),
        UnaryOp::Tst8Al => tst_8_al(core),
        UnaryOp::Tst16Dn => tst_16_dn(core),
        UnaryOp::Tst16Ai => tst_16_ai(core),
        UnaryOp::Tst16Pi => tst_16_pi(core),
        UnaryOp::Tst16Pd => tst_16_pd(core),
        UnaryOp::Tst16Di => tst_16_di(core),
        UnaryOp::Tst16Ix => tst_16_ix(core),
        UnaryOp::Tst16Aw => tst_16_aw(core),
        UnaryOp::Tst16Al => tst_16_al(core),
        UnaryOp::Tst32Dn => tst_32_dn(core),
        UnaryOp::Tst32Ai => tst_32_ai(core),
        UnaryOp::Tst32Pi => tst_32_pi(core),
        UnaryOp::Tst32Pd => tst_32_pd(core),
        UnaryOp::Tst32Di => tst_32_di(core),
        UnaryOp::Tst32Ix => tst_32_ix(core),
        UnaryOp::Tst32Aw => tst_32_aw(core),
        UnaryOp::Tst32Al => tst_32_al(core),
    }
}

} // verus!
