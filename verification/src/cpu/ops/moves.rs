use vstd::prelude::*;
use crate::cpu::{ConfiguredCore, Cycles, Exception, Result, AccessType, data_written, pushed_32, branched, wadd, wsub, ir_dx, ir_dy, ir_ax, ir_ay, reg_dx, reg_dy, reg_ax, reg_ay, condition};
use crate::cpu::effective_address;
use crate::cpu::operator;
use crate::cpu::ops::common;
use crate::cpu::ops::{reg_set, merged, merge, set_reg, write_sized, stack_error, stack_fault, sp_odd, privilege_violation, short_offset, long_branch_done};

verus! {

/// What `move_8_dn_dn` does: the core goes from `c0` to `c1` and `r` comes back.
pub open spec fn move_8_dn_dn_effect(c0: ConfiguredCore, c1: ConfiguredCore, r: Result<Cycles>) -> bool {
    &&& exists|mid: ConfiguredCore, src: Result<u32>|
            #[trigger] operator::dy_rel(c0, mid, src) && match src {
                Err(e) => r == Err::<Cycles, Exception>(e) && c1 == mid,
                Ok(v) => {
                    let m = v & 0xff;
                    let reg = ir_dx(mid.ir);
                    &&& r == Ok::<Cycles, Exception>(Cycles(4))
                    &&& reg_set(common::move_flags_outcome(mid, m, 0).0, c1, reg, merged(mid.dar[reg], m, 8))
                },
            }
}

/// MOVE into Dx, with N and Z set from the value moved.
pub fn move_8_dn_dn(core: &mut ConfiguredCore) -> (r: Result<Cycles>)
    requires
        old(core).wf(),
    ensures
        final(core).wf(),
        move_8_dn_dn_effect(*old(core), *final(core), r),
{
    let ghost c0 = *core;
    let src = operator::dy(core);
    let ghost mid = *core;
    assert(operator::dy_rel(c0, mid, src));
    match src {
        Err(e) => Err(e),
        Ok(v) => {
            let m = v & 0xff;
            let reg = reg_dx(core.ir);
            let dst = core.dar[reg];
            common::move_flags(core, m, 0);
            set_reg(core, reg, merge(dst, m, 8));
            Ok(Cycles(4))
        },
    }
}

/// What `move_8_ai_dn` does: the core goes from `c0` to `c1` and `r` comes back.
pub open spec fn move_8_ai_dn_effect(c0: ConfiguredCore, c1: ConfiguredCore, r: Result<Cycles>) -> bool {
    &&& exists|m1: ConfiguredCore, src: Result<u32>|
            #[trigger] operator::dy_rel(c0, m1, src) && match src {
                Err(e) => r == Err::<Cycles, Exception>(e) && c1 == m1,
                Ok(v) => exists|m2: ConfiguredCore, ea: Result<u32>|
                    #[trigger] effective_address::address_indirect_ax_rel(m1, m2, ea) && match ea {
                        Err(e) => r == Err::<Cycles, Exception>(e) && c1 == m2,
                        Ok(a) => exists|m3: ConfiguredCore, w: Result<()>|
                            #[trigger] data_written(m2, m3, 8, a, v & 0xff, w) && match w {
                                Err(e) => r == Err::<Cycles, Exception>(e) && c1 == m3,
                                Ok(_) => r == Ok::<Cycles, Exception>(Cycles(8))
                                    && c1 == common::move_flags_outcome(m3, v & 0xff, 0).0,
                            },
                    },
            }
}

/// MOVE to memory: the value is written, then N and Z are set from it.
pub fn move_8_ai_dn(core: &mut ConfiguredCore) -> (r: Result<Cycles>)
    requires
        old(core).wf(),
    ensures
        final(core).wf(),
        move_8_ai_dn_effect(*old(core), *final(core), r),
{
    let ghost c0 = *core;
    let src = operator::dy(core);
    let ghost m1 = *core;
    assert(operator::dy_rel(c0, m1, src));
    let v = match src {
        Err(e) => {
            return Err(e);
        },
        Ok(v) => v,
    };
    let m = v & 0xff;
    let ea = effective_address::address_indirect_ax(core);
    let ghost m2 = *core;
    assert(effective_address::address_indirect_ax_rel(m1, m2, ea));
    let a = match ea {
        Err(e) => {
            return Err(e);
        },
        Ok(a) => a,
    };
    let w = write_sized(core, 8, a, m);
    let ghost m3 = *core;
    assert(data_written(m2, m3, 8, a, m, w));
    match w {
        Err(e) => Err(e),
        Ok(()) => {
            common::move_flags(core, m, 0);
            Ok(Cycles(8))
        },
    }
}

/// What `move_8_pi_dn` does: the core goes from `c0` to `c1` and `r` comes back.
pub open spec fn move_8_pi_dn_effect(c0: ConfiguredCore, c1: ConfiguredCore, r: Result<Cycles>) -> bool {
    &&& exists|m1: ConfiguredCore, src: Result<u32>|
            #[trigger] operator::dy_rel(c0, m1, src) && match src {
                Err(e) => r == Err::<Cycles, Exception>(e) && c1 == m1,
                Ok(v) => exists|m2: ConfiguredCore, ea: Result<u32>|
                    #[trigger] effective_address::postincrement_ax_8_rel(m1, m2, ea) && match ea {
                        Err(e) => r == Err::<Cycles, Exception>(e) && c1 == m2,
                        Ok(a) => exists|m3: ConfiguredCore, w: Result<()>|
                            #[trigger] data_written(m2, m3, 8, a, v & 0xff, w) && match w {
                                Err(e) => r == Err::<Cycles, Exception>(e) && c1 == m3,
                                Ok(_) => r == Ok::<Cycles, Exception>(Cycles(8))
                                    && c1 == common::move_flags_outcome(m3, v & 0xff, 0).0,
                            },
                    },
            }
}

/// MOVE to memory: the value is written, then N and Z are set from it.
pub fn move_8_pi_dn(core: &mut ConfiguredCore) -> (r: Result<Cycles>)
    requires
        old(core).wf(),
    ensures
        final(core).wf(),
        move_8_pi_dn_effect(*old(core), *final(core), r),
{
    let ghost c0 = *core;
    let src = operator::dy(core);
    let ghost m1 = *core;
    assert(operator::dy_rel(c0, m1, src));
    let v = match src {
        Err(e) => {
            return Err(e);
        },
        Ok(v) => v,
    };
    let m = v & 0xff;
    let ea = effective_address::postincrement_ax_8(core);
    let ghost m2 = *core;
    assert(effective_address::postincrement_ax_8_rel(m1, m2, ea));
    let a = match ea {
        Err(e) => {
            return Err(e);
        },
        Ok(a) => a,
    };
    let w = write_sized(core, 8, a, m);
    let ghost m3 = *core;
    assert(data_written(m2, m3, 8, a, m, w));
    match w {
        Err(e) => Err(e),
        Ok(()) => {
            common::move_flags(core, m, 0);
            Ok(Cycles(8))
        },
    }
}

/// What `move_8_pd_dn` does: the core goes from `c0` to `c1` and `r` comes back.
pub open spec fn move_8_pd_dn_effect(c0: ConfiguredCore, c1: ConfiguredCore, r: Result<Cycles>) -> bool {
    &&& exists|m1: ConfiguredCore, src: Result<u32>|
            #[trigger] operator::dy_rel(c0, m1, src) && match src {
                Err(e) => r == Err::<Cycles, Exception>(e) && c1 == m1,
                Ok(v) => exists|m2: ConfiguredCore, ea: Result<u32>|
                    #[trigger] effective_address::predecrement_ax_8_rel(m1, m2, ea) && match ea {
                        Err(e) => r == Err::<Cycles, Exception>(e) && c1 == m2,
                        Ok(a) => exists|m3: ConfiguredCore, w: Result<()>|
                            #[trigger] data_written(m2, m3, 8, a, v & 0xff, w) && match w {
                                Err(e) => r == Err::<Cycles, Exception>(e) && c1 == m3,
                                Ok(_) => r == Ok::<Cycles, Exception>(Cycles(8))
                                    && c1 == common::move_flags_outcome(m3, v & 0xff, 0).0,
                            },
                    },
            }
}

/// MOVE to memory: the value is written, then N and Z are set from it.
pub fn move_8_pd_dn(core: &mut ConfiguredCore) -> (r: Result<Cycles>)
    requires
        old(core).wf(),
    ensures
        final(core).wf(),
        move_8_pd_dn_effect(*old(core), *final(core), r),
{
    let ghost c0 = *core;
    let src = operator::dy(core);
    let ghost m1 = *core;
    assert(operator::dy_rel(c0, m1, src));
    let v = match src {
        Err(e) => {
            return Err(e);
        },
        Ok(v) => v,
    };
    let m = v & 0xff;
    let ea = effective_address::predecrement_ax_8(core);
    let ghost m2 = *core;
    assert(effective_address::predecrement_ax_8_rel(m1, m2, ea));
    let a = match ea {
        Err(e) => {
            return Err(e);
        },
        Ok(a) => a,
    };
    let w = write_sized(core, 8, a, m);
    let ghost m3 = *core;
    assert(data_written(m2, m3, 8, a, m, w));
    match w {
        Err(e) => Err(e),
        Ok(()) => {
            common::move_flags(core, m, 0);
            Ok(Cycles(8))
        },
    }
}

/// What `move_8_di_dn` does: the core goes from `c0` to `c1` and `r` comes back.
pub open spec fn move_8_di_dn_effect(c0: ConfiguredCore, c1: ConfiguredCore, r: Result<Cycles>) -> bool {
    &&& exists|m1: ConfiguredCore, src: Result<u32>|
            #[trigger] operator::dy_rel(c0, m1, src) && match src {
                Err(e) => r == Err::<Cycles, Exception>(e) && c1 == m1,
                Ok(v) => exists|m2: ConfiguredCore, ea: Result<u32>|
                    #[trigger] effective_address::displacement_ax_rel(m1, m2, ea) && match ea {
                        Err(e) => r == Err::<Cycles, Exception>(e) && c1 == m2,
                        Ok(a) => exists|m3: ConfiguredCore, w: Result<()>|
                            #[trigger] data_written(m2, m3, 8, a, v & 0xff, w) && match w {
                                Err(e) => r == Err::<Cycles, Exception>(e) && c1 == m3,
                                Ok(_) => r == Ok::<Cycles, Exception>(Cycles(12))
                                    && c1 == common::move_flags_outcome(m3, v & 0xff, 0).0,
                            },
                    },
            }
}

/// MOVE to memory: the value is written, then N and Z are set from it.
pub fn move_8_di_dn(core: &mut ConfiguredCore) -> (r: Result<Cycles>)
    requires
        old(core).wf(),
    ensures
        final(core).wf(),
        move_8_di_dn_effect(*old(core), *final(core), r),
{
    let ghost c0 = *core;
    let src = operator::dy(core);
    let ghost m1 = *core;
    assert(operator::dy_rel(c0, m1, src));
    let v = match src {
        Err(e) => {
            return Err(e);
        },
        Ok(v) => v,
    };
    let m = v & 0xff;
    let ea = effective_address::displacement_ax(core);
    let ghost m2 = *core;
    assert(effective_address::displacement_ax_rel(m1, m2, ea));
    let a = match ea {
        Err(e) => {
            return Err(e);
        },
        Ok(a) => a,
    };
    let w = write_sized(core, 8, a, m);
    let ghost m3 = *core;
    assert(data_written(m2, m3, 8, a, m, w));
    match w {
        Err(e) => Err(e),
        Ok(()) => {
            common::move_flags(core, m, 0);
            Ok(Cycles(12))
        },
    }
}

/// What `move_8_ix_dn` does: the core goes from `c0` to `c1` and `r` comes back.
pub open spec fn move_8_ix_dn_effect(c0: ConfiguredCore, c1: ConfiguredCore, r: Result<Cycles>) -> bool {
    &&& exists|m1: ConfiguredCore, src: Result<u32>|
            #[trigger] operator::dy_rel(c0, m1, src) && match src {
                Err(e) => r == Err::<Cycles, Exception>(e) && c1 == m1,
                Ok(v) => exists|m2: ConfiguredCore, ea: Result<u32>|
                    #[trigger] effective_address::index_ax_rel(m1, m2, ea) && match ea {
                        Err(e) => r == Err::<Cycles, Exception>(e) && c1 == m2,
                        Ok(a) => exists|m3: ConfiguredCore, w: Result<()>|
                            #[trigger] data_written(m2, m3, 8, a, v & 0xff, w) && match w {
                                Err(e) => r == Err::<Cycles, Exception>(e) && c1 == m3,
                                Ok(_) => r == Ok::<Cycles, Exception>(Cycles(14))
                                    && c1 == common::move_flags_outcome(m3, v & 0xff, 0).0,
                            },
                    },
            }
}

/// MOVE to memory: the value is written, then N and Z are set from it.
pub fn move_8_ix_dn(core: &mut ConfiguredCore) -> (r: Result<Cycles>)
    requires
        old(core).wf(),
    ensures
        final(core).wf(),
        move_8_ix_dn_effect(*old(core), *final(core), r),
{
    let ghost c0 = *core;
    let src = operator::dy(core);
    let ghost m1 = *core;
    assert(operator::dy_rel(c0, m1, src));
    let v = match src {
        Err(e) => {
            return Err(e);
        },
        Ok(v) => v,
    };
    let m = v & 0xff;
    let ea = effective_address::index_ax(core);
    let ghost m2 = *core;
    assert(effective_address::index_ax_rel(m1, m2, ea));
    let a = match ea {
        Err(e) => {
            return Err(e);
        },
        Ok(a) => a,
    };
    let w = write_sized(core, 8, a, m);
    let ghost m3 = *core;
    assert(data_written(m2, m3, 8, a, m, w));
    match w {
        Err(e) => Err(e),
        Ok(()) => {
            common::move_flags(core, m, 0);
            Ok(Cycles(14))
        },
    }
}

/// What `move_8_aw_dn` does: the core goes from `c0` to `c1` and `r` comes back.
pub open spec fn move_8_aw_dn_effect(c0: ConfiguredCore, c1: ConfiguredCore, r: Result<Cycles>) -> bool {
    &&& exists|m1: ConfiguredCore, src: Result<u32>|
            #[trigger] operator::dy_rel(c0, m1, src) && match src {
                Err(e) => r == Err::<Cycles, Exception>(e) && c1 == m1,
                Ok(v) => exists|m2: ConfiguredCore, ea: Result<u32>|
                    #[trigger] effective_address::absolute_word_rel(m1, m2, ea) && match ea {
                        Err(e) => r == Err::<Cycles, Exception>(e) && c1 == m2,
                        Ok(a) => exists|m3: ConfiguredCore, w: Result<()>|
                            #[trigger] data_written(m2, m3, 8, a, v & 0xff, w) && match w {
                                Err(e) => r == Err::<Cycles, Exception>(e) && c1 == m3,
                                Ok(_) => r == Ok::<Cycles, Exception>(Cycles(12))
                                    && c1 == common::move_flags_outcome(m3, v & 0xff, 0).0,
                            },
                    },
            }
}

/// MOVE to memory: the value is written, then N and Z are set from it.
pub fn move_8_aw_dn(core: &mut ConfiguredCore) -> (r: Result<Cycles>)
    requires
        old(core).wf(),
    ensures
        final(core).wf(),
        move_8_aw_dn_effect(*old(core), *final(core), r),
{
    let ghost c0 = *core;
    let src = operator::dy(core);
    let ghost m1 = *core;
    assert(operator::dy_rel(c0, m1, src));
    let v = match src {
        Err(e) => {
            return Err(e);
        },
        Ok(v) => v,
    };
    let m = v & 0xff;
    let ea = effective_address::absolute_word(core);
    let ghost m2 = *core;
    assert(effective_address::absolute_word_rel(m1, m2, ea));
    let a = match ea {
        Err(e) => {
            return Err(e);
        },
        Ok(a) => a,
    };
    let w = write_sized(core, 8, a, m);
    let ghost m3 = *core;
    assert(data_written(m2, m3, 8, a, m, w));
    match w {
        Err(e) => Err(e),
        Ok(()) => {
            common::move_flags(core, m, 0);
            Ok(Cycles(12))
        },
    }
}

/// What `move_8_al_dn` does: the core goes from `c0` to `c1` and `r` comes back.
pub open spec fn move_8_al_dn_effect(c0: ConfiguredCore, c1: ConfiguredCore, r: Result<Cycles>) -> bool {
    &&& exists|m1: ConfiguredCore, src: Result<u32>|
            #[trigger] operator::dy_rel(c0, m1, src) && match src {
                Err(e) => r == Err::<Cycles, Exception>(e) && c1 == m1,
                Ok(v) => exists|m2: ConfiguredCore, ea: Result<u32>|
                    #[trigger] effective_address::absolute_long_rel(m1, m2, ea) && match ea {
                        Err(e) => r == Err::<Cycles, Exception>(e) && c1 == m2,
                        Ok(a) => exists|m3: ConfiguredCore, w: Result<()>|
                            #[trigger] data_written(m2, m3, 8, a, v & 0xff, w) && match w {
                                Err(e) => r == Err::<Cycles, Exception>(e) && c1 == m3,
                                Ok(_) => r == Ok::<Cycles, Exception>(Cycles(16))
                                    && c1 == common::move_flags_outcome(m3, v & 0xff, 0).0,
                            },
                    },
            }
}

/// MOVE to memory: the value is written, then N and Z are set from it.
pub fn move_8_al_dn(core: &mut ConfiguredCore) -> (r: Result<Cycles>)
    requires
        old(core).wf(),
    ensures
        final(core).wf(),
        move_8_al_dn_effect(*old(core), *final(core), r),
{
    let ghost c0 = *core;
    let src = operator::dy(core);
    let ghost m1 = *core;
    assert(operator::dy_rel(c0, m1, src));
    let v = match src {
        Err(e) => {
            return Err(e);
        },
        Ok(v) => v,
    };
    let m = v & 0xff;
    let ea = effective_address::absolute_long(core);
    let ghost m2 = *core;
    assert(effective_address::absolute_long_rel(m1, m2, ea));
    let a = match ea {
        Err(e) => {
            return Err(e);
        },
        Ok(a) => a,
    };
    let w = write_sized(core, 8, a, m);
    let ghost m3 = *core;
    assert(data_written(m2, m3, 8, a, m, w));
    match w {
        Err(e) => Err(e),
        Ok(()) => {
            common::move_flags(core, m, 0);
            Ok(Cycles(16))
        },
    }
}

/// What `move_8_dn_ai` does: the core goes from `c0` to `c1` and `r` comes back.
pub open spec fn move_8_dn_ai_effect(c0: ConfiguredCore, c1: ConfiguredCore, r: Result<Cycles>) -> bool {
    &&& exists|mid: ConfiguredCore, src: Result<u32>|
            #[trigger] operator::ay_ai_8_rel(c0, mid, src) && match src {
                Err(e) => r == Err::<Cycles, Exception>(e) && c1 == mid,
                Ok(v) => {
                    let m = v & 0xff;
                    let reg = ir_dx(mid.ir);
                    &&& r == Ok::<Cycles, Exception>(Cycles(8))
                    &&& reg_set(common::move_flags_outcome(mid, m, 0).0, c1, reg, merged(mid.dar[reg], m, 8))
                },
            }
}

/// MOVE into Dx, with N and Z set from the value moved.
pub fn move_8_dn_ai(core: &mut ConfiguredCore) -> (r: Result<Cycles>)
    requires
        old(core).wf(),
    ensures
        final(core).wf(),
        move_8_dn_ai_effect(*old(core), *final(core), r),
{
    let ghost c0 = *core;
    let src = operator::ay_ai_8(core);
    let ghost mid = *core;
    assert(operator::ay_ai_8_rel(c0, mid, src));
    match src {
        Err(e) => Err(e),
        Ok(v) => {
            let m = v & 0xff;
            let reg = reg_dx(core.ir);
            let dst = core.dar[reg];
            common::move_flags(core, m, 0);
            set_reg(core, reg, merge(dst, m, 8));
            Ok(Cycles(8))
        },
    }
}

/// What `move_8_ai_ai` does: the core goes from `c0` to `c1` and `r` comes back.
pub open spec fn move_8_ai_ai_effect(c0: ConfiguredCore, c1: ConfiguredCore, r: Result<Cycles>) -> bool {
    &&& exists|m1: ConfiguredCore, src: Result<u32>|
            #[trigger] operator::ay_ai_8_rel(c0, m1, src) && match src {
                Err(e) => r == Err::<Cycles, Exception>(e) && c1 == m1,
                Ok(v) => exists|m2: ConfiguredCore, ea: Result<u32>|
                    #[trigger] effective_address::address_indirect_ax_rel(m1, m2, ea) && match ea {
                        Err(e) => r == Err::<Cycles, Exception>(e) && c1 == m2,
                        Ok(a) => exists|m3: ConfiguredCore, w: Result<()>|
                            #[trigger] data_written(m2, m3, 8, a, v & 0xff, w) && match w {
                                Err(e) => r == Err::<Cycles, Exception>(e) && c1 == m3,
                                Ok(_) => r == Ok::<Cycles, Exception>(Cycles(12))
                                    && c1 == common::move_flags_outcome(m3, v & 0xff, 0).0,
                            },
                    },
            }
}

/// MOVE to memory: the value is written, then N and Z are set from it.
pub fn move_8_ai_ai(core: &mut ConfiguredCore) -> (r: Result<Cycles>)
    requires
        old(core).wf(),
    ensures
        final(core).wf(),
        move_8_ai_ai_effect(*old(core), *final(core), r),
{
    let ghost c0 = *core;
    let src = operator::ay_ai_8(core);
    let ghost m1 = *core;
    assert(operator::ay_ai_8_rel(c0, m1, src));
    let v = match src {
        Err(e) => {
            return Err(e);
        },
        Ok(v) => v,
    };
    let m = v & 0xff;
    let ea = effective_address::address_indirect_ax(core);
    let ghost m2 = *core;
    assert(effective_address::address_indirect_ax_rel(m1, m2, ea));
    let a = match ea {
        Err(e) => {
            return Err(e);
        },
        Ok(a) => a,
    };
    let w = write_sized(core, 8, a, m);
    let ghost m3 = *core;
    assert(data_written(m2, m3, 8, a, m, w));
    match w {
        Err(e) => Err(e),
        Ok(()) => {
            common::move_flags(core, m, 0);
            Ok(Cycles(12))
        },
    }
}

/// What `move_8_pi_ai` does: the core goes from `c0` to `c1` and `r` comes back.
pub open spec fn move_8_pi_ai_effect(c0: ConfiguredCore, c1: ConfiguredCore, r: Result<Cycles>) -> bool {
    &&& exists|m1: ConfiguredCore, src: Result<u32>|
            #[trigger] operator::ay_ai_8_rel(c0, m1, src) && match src {
                Err(e) => r == Err::<Cycles, Exception>(e) && c1 == m1,
                Ok(v) => exists|m2: ConfiguredCore, ea: Result<u32>|
                    #[trigger] effective_address::postincrement_ax_8_rel(m1, m2, ea) && match ea {
                        Err(e) => r == Err::<Cycles, Exception>(e) && c1 == m2,
                        Ok(a) => exists|m3: ConfiguredCore, w: Result<()>|
                            #[trigger] data_written(m2, m3, 8, a, v & 0xff, w) && match w {
                                Err(e) => r == Err::<Cycles, Exception>(e) && c1 == m3,
                                Ok(_) => r == Ok::<Cycles, Exception>(Cycles(12))
                                    && c1 == common::move_flags_outcome(m3, v & 0xff, 0).0,
                            },
                    },
            }
}

/// MOVE to memory: the value is written, then N and Z are set from it.
pub fn move_8_pi_ai(core: &mut ConfiguredCore) -> (r: Result<Cycles>)
    requires
        old(core).wf(),
    ensures
        final(core).wf(),
        move_8_pi_ai_effect(*old(core), *final(core), r),
{
    let ghost c0 = *core;
    let src = operator::ay_ai_8(core);
    let ghost m1 = *core;
    assert(operator::ay_ai_8_rel(c0, m1, src));
    let v = match src {
        Err(e) => {
            return Err(e);
        },
        Ok(v) => v,
    };
    let m = v & 0xff;
    let ea = effective_address::postincrement_ax_8(core);
    let ghost m2 = *core;
    assert(effective_address::postincrement_ax_8_rel(m1, m2, ea));
    let a = match ea {
        Err(e) => {
            return Err(e);
        },
        Ok(a) => a,
    };
    let w = write_sized(core, 8, a, m);
    let ghost m3 = *core;
    assert(data_written(m2, m3, 8, a, m, w));
    match w {
        Err(e) => Err(e),
        Ok(()) => {
            common::move_flags(core, m, 0);
            Ok(Cycles(12))
        },
    }
}

/// What `move_8_pd_ai` does: the core goes from `c0` to `c1` and `r` comes back.
pub open spec fn move_8_pd_ai_effect(c0: ConfiguredCore, c1: ConfiguredCore, r: Result<Cycles>) -> bool {
    &&& exists|m1: ConfiguredCore, src: Result<u32>|
            #[trigger] operator::ay_ai_8_rel(c0, m1, src) && match src {
                Err(e) => r == Err::<Cycles, Exception>(e) && c1 == m1,
                Ok(v) => exists|m2: ConfiguredCore, ea: Result<u32>|
                    #[trigger] effective_address::predecrement_ax_8_rel(m1, m2, ea) && match ea {
                        Err(e) => r == Err::<Cycles, Exception>(e) && c1 == m2,
                        Ok(a) => exists|m3: ConfiguredCore, w: Result<()>|
                            #[trigger] data_written(m2, m3, 8, a, v & 0xff, w) && match w {
                                Err(e) => r == Err::<Cycles, Exception>(e) && c1 == m3,
                                Ok(_) => r == Ok::<Cycles, Exception>(Cycles(12))
                                    && c1 == common::move_flags_outcome(m3, v & 0xff, 0).0,
                            },
                    },
            }
}

/// MOVE to memory: the value is written, then N and Z are set from it.
pub fn move_8_pd_ai(core: &mut ConfiguredCore) -> (r: Result<Cycles>)
    requires
        old(core).wf(),
    ensures
        final(core).wf(),
        move_8_pd_ai_effect(*old(core), *final(core), r),
{
    let ghost c0 = *core;
    let src = operator::ay_ai_8(core);
    let ghost m1 = *core;
    assert(operator::ay_ai_8_rel(c0, m1, src));
    let v = match src {
        Err(e) => {
            return Err(e);
        },
        Ok(v) => v,
    };
    let m = v & 0xff;
    let ea = effective_address::predecrement_ax_8(core);
    let ghost m2 = *core;
    assert(effective_address::predecrement_ax_8_rel(m1, m2, ea));
    let a = match ea {
        Err(e) => {
            return Err(e);
        },
        Ok(a) => a,
    };
    let w = write_sized(core, 8, a, m);
    let ghost m3 = *core;
    assert(data_written(m2, m3, 8, a, m, w));
    match w {
        Err(e) => Err(e),
        Ok(()) => {
            common::move_flags(core, m, 0);
            Ok(Cycles(12))
        },
    }
}

/// What `move_8_di_ai` does: the core goes from `c0` to `c1` and `r` comes back.
pub open spec fn move_8_di_ai_effect(c0: ConfiguredCore, c1: ConfiguredCore, r: Result<Cycles>) -> bool {
    &&& exists|m1: ConfiguredCore, src: Result<u32>|
            #[trigger] operator::ay_ai_8_rel(c0, m1, src) && match src {
                Err(e) => r == Err::<Cycles, Exception>(e) && c1 == m1,
                Ok(v) => exists|m2: ConfiguredCore, ea: Result<u32>|
                    #[trigger] effective_address::displacement_ax_rel(m1, m2, ea) && match ea {
                        Err(e) => r == Err::<Cycles, Exception>(e) && c1 == m2,
                        Ok(a) => exists|m3: ConfiguredCore, w: Result<()>|
                            #[trigger] data_written(m2, m3, 8, a, v & 0xff, w) && match w {
                                Err(e) => r == Err::<Cycles, Exception>(e) && c1 == m3,
                                Ok(_) => r == Ok::<Cycles, Exception>(Cycles(16))
                                    && c1 == common::move_flags_outcome(m3, v & 0xff, 0).0,
                            },
                    },
            }
}

/// MOVE to memory: the value is written, then N and Z are set from it.
pub fn move_8_di_ai(core: &mut ConfiguredCore) -> (r: Result<Cycles>)
    requires
        old(core).wf(),
    ensures
        final(core).wf(),
        move_8_di_ai_effect(*old(core), *final(core), r),
{
    let ghost c0 = *core;
    let src = operator::ay_ai_8(core);
    let ghost m1 = *core;
    assert(operator::ay_ai_8_rel(c0, m1, src));
    let v = match src {
        Err(e) => {
            return Err(e);
        },
        Ok(v) => v,
    };
    let m = v & 0xff;
    let ea = effective_address::displacement_ax(core);
    let ghost m2 = *core;
    assert(effective_address::displacement_ax_rel(m1, m2, ea));
    let a = match ea {
        Err(e) => {
            return Err(e);
        },
        Ok(a) => a,
    };
    let w = write_sized(core, 8, a, m);
    let ghost m3 = *core;
    assert(data_written(m2, m3, 8, a, m, w));
    match w {
        Err(e) => Err(e),
        Ok(()) => {
            common::move_flags(core, m, 0);
            Ok(Cycles(16))
        },
    }
}

/// What `move_8_ix_ai` does: the core goes from `c0` to `c1` and `r` comes back.
pub open spec fn move_8_ix_ai_effect(c0: ConfiguredCore, c1: ConfiguredCore, r: Result<Cycles>) -> bool {
    &&& exists|m1: ConfiguredCore, src: Result<u32>|
            #[trigger] operator::ay_ai_8_rel(c0, m1, src) && match src {
                Err(e) => r == Err::<Cycles, Exception>(e) && c1 == m1,
                Ok(v) => exists|m2: ConfiguredCore, ea: Result<u32>|
                    #[trigger] effective_address::index_ax_rel(m1, m2, ea) && match ea {
                        Err(e) => r == Err::<Cycles, Exception>(e) && c1 == m2,
                        Ok(a) => exists|m3: ConfiguredCore, w: Result<()>|
                            #[trigger] data_written(m2, m3, 8, a, v & 0xff, w) && match w {
                                Err(e) => r == Err::<Cycles, Exception>(e) && c1 == m3,
                                Ok(_) => r == Ok::<Cycles, Exception>(Cycles(18))
                                    && c1 == common::move_flags_outcome(m3, v & 0xff, 0).0,
                            },
                    },
            }
}

/// MOVE to memory: the value is written, then N and Z are set from it.
pub fn move_8_ix_ai(core: &mut ConfiguredCore) -> (r: Result<Cycles>)
    requires
        old(core).wf(),
    ensures
        final(core).wf(),
        move_8_ix_ai_effect(*old(core), *final(core), r),
{
    let ghost c0 = *core;
    let src = operator::ay_ai_8(core);
    let ghost m1 = *core;
    assert(operator::ay_ai_8_rel(c0, m1, src));
    let v = match src {
        Err(e) => {
            return Err(e);
        },
        Ok(v) => v,
    };
    let m = v & 0xff;
    let ea = effective_address::index_ax(core);
    let ghost m2 = *core;
    assert(effective_address::index_ax_rel(m1, m2, ea));
    let a = match ea {
        Err(e) => {
            return Err(e);
        },
        Ok(a) => a,
    };
    let w = write_sized(core, 8, a, m);
    let ghost m3 = *core;
    assert(data_written(m2, m3, 8, a, m, w));
    match w {
        Err(e) => Err(e),
        Ok(()) => {
            common::move_flags(core, m, 0);
            Ok(Cycles(18))
        },
    }
}

/// What `move_8_aw_ai` does: the core goes from `c0` to `c1` and `r` comes back.
pub open spec fn move_8_aw_ai_effect(c0: ConfiguredCore, c1: ConfiguredCore, r: Result<Cycles>) -> bool {
    &&& exists|m1: ConfiguredCore, src: Result<u32>|
            #[trigger] operator::ay_ai_8_rel(c0, m1, src) && match src {
                Err(e) => r == Err::<Cycles, Exception>(e) && c1 == m1,
                Ok(v) => exists|m2: ConfiguredCore, ea: Result<u32>|
                    #[trigger] effective_address::absolute_word_rel(m1, m2, ea) && match ea {
                        Err(e) => r == Err::<Cycles, Exception>(e) && c1 == m2,
                        Ok(a) => exists|m3: ConfiguredCore, w: Result<()>|
                            #[trigger] data_written(m2, m3, 8, a, v & 0xff, w) && match w {
                                Err(e) => r == Err::<Cycles, Exception>(e) && c1 == m3,
                                Ok(_) => r == Ok::<Cycles, Exception>(Cycles(16))
                                    && c1 == common::move_flags_outcome(m3, v & 0xff, 0).0,
                            },
                    },
            }
}

/// MOVE to memory: the value is written, then N and Z are set from it.
pub fn move_8_aw_ai(core: &mut ConfiguredCore) -> (r: Result<Cycles>)
    requires
        old(core).wf(),
    ensures
        final(core).wf(),
        move_8_aw_ai_effect(*old(core), *final(core), r),
{
    let ghost c0 = *core;
    let src = operator::ay_ai_8(core);
    let ghost m1 = *core;
    assert(operator::ay_ai_8_rel(c0, m1, src));
    let v = match src {
        Err(e) => {
            return Err(e);
        },
        Ok(v) => v,
    };
    let m = v & 0xff;
    let ea = effective_address::absolute_word(core);
    let ghost m2 = *core;
    assert(effective_address::absolute_word_rel(m1, m2, ea));
    let a = match ea {
        Err(e) => {
            return Err(e);
        },
        Ok(a) => a,
    };
    let w = write_sized(core, 8, a, m);
    let ghost m3 = *core;
    assert(data_written(m2, m3, 8, a, m, w));
    match w {
        Err(e) => Err(e),
        Ok(()) => {
            common::move_flags(core, m, 0);
            Ok(Cycles(16))
        },
    }
}

/// What `move_8_al_ai` does: the core goes from `c0` to `c1` and `r` comes back.
pub open spec fn move_8_al_ai_effect(c0: ConfiguredCore, c1: ConfiguredCore, r: Result<Cycles>) -> bool {
    &&& exists|m1: ConfiguredCore, src: Result<u32>|
            #[trigger] operator::ay_ai_8_rel(c0, m1, src) && match src {
                Err(e) => r == Err::<Cycles, Exception>(e) && c1 == m1,
                Ok(v) => exists|m2: ConfiguredCore, ea: Result<u32>|
                    #[trigger] effective_address::absolute_long_rel(m1, m2, ea) && match ea {
                        Err(e) => r == Err::<Cycles, Exception>(e) && c1 == m2,
                        Ok(a) => exists|m3: ConfiguredCore, w: Result<()>|
                            #[trigger] data_written(m2, m3, 8, a, v & 0xff, w) && match w {
                                Err(e) => r == Err::<Cycles, Exception>(e) && c1 == m3,
                                Ok(_) => r == Ok::<Cycles, Exception>(Cycles(20))
                                    && c1 == common::move_flags_outcome(m3, v & 0xff, 0).0,
                            },
                    },
            }
}

/// MOVE to memory: the value is written, then N and Z are set from it.
pub fn move_8_al_ai(core: &mut ConfiguredCore) -> (r: Result<Cycles>)
    requires
        old(core).wf(),
    ensures
        final(core).wf(),
        move_8_al_ai_effect(*old(core), *final(core), r),
{
    let ghost c0 = *core;
    let src = operator::ay_ai_8(core);
    let ghost m1 = *core;
    assert(operator::ay_ai_8_rel(c0, m1, src));
    let v = match src {
        Err(e) => {
            return Err(e);
        },
        Ok(v) => v,
    };
    let m = v & 0xff;
    let ea = effective_address::absolute_long(core);
    let ghost m2 = *core;
    assert(effective_address::absolute_long_rel(m1, m2, ea));
    let a = match ea {
        Err(e) => {
            return Err(e);
        },
        Ok(a) => a,
    };
    let w = write_sized(core, 8, a, m);
    let ghost m3 = *core;
    assert(data_written(m2, m3, 8, a, m, w));
    match w {
        Err(e) => Err(e),
        Ok(()) => {
            common::move_flags(core, m, 0);
            Ok(Cycles(20))
        },
    }
}

/// What `move_8_dn_pi` does: the core goes from `c0` to `c1` and `r` comes back.
pub open spec fn move_8_dn_pi_effect(c0: ConfiguredCore, c1: ConfiguredCore, r: Result<Cycles>) -> bool {
    &&& exists|mid: ConfiguredCore, src: Result<u32>|
            #[trigger] operator::ay_pi_8_rel(c0, mid, src) && match src {
                Err(e) => r == Err::<Cycles, Exception>(e) && c1 == mid,
                Ok(v) => {
                    let m = v & 0xff;
                    let reg = ir_dx(mid.ir);
                    &&& r == Ok::<Cycles, Exception>(Cycles(8))
                    &&& reg_set(common::move_flags_outcome(mid, m, 0).0, c1, reg, merged(mid.dar[reg], m, 8))
                },
            }
}

/// MOVE into Dx, with N and Z set from the value moved.
pub fn move_8_dn_pi(core: &mut ConfiguredCore) -> (r: Result<Cycles>)
    requires
        old(core).wf(),
    ensures
        final(core).wf(),
        move_8_dn_pi_effect(*old(core), *final(core), r),
{
    let ghost c0 = *core;
    let src = operator::ay_pi_8(core);
    let ghost mid = *core;
    assert(operator::ay_pi_8_rel(c0, mid, src));
    match src {
        Err(e) => Err(e),
        Ok(v) => {
            let m = v & 0xff;
            let reg = reg_dx(core.ir);
            let dst = core.dar[reg];
            common::move_flags(core, m, 0);
            set_reg(core, reg, merge(dst, m, 8));
            Ok(Cycles(8))
        },
    }
}

/// What `move_8_ai_pi` does: the core goes from `c0` to `c1` and `r` comes back.
pub open spec fn move_8_ai_pi_effect(c0: ConfiguredCore, c1: ConfiguredCore, r: Result<Cycles>) -> bool {
    &&& exists|m1: ConfiguredCore, src: Result<u32>|
            #[trigger] operator::ay_pi_8_rel(c0, m1, src) && match src {
                Err(e) => r == Err::<Cycles, Exception>(e) && c1 == m1,
                Ok(v) => exists|m2: ConfiguredCore, ea: Result<u32>|
                    #[trigger] effective_address::address_indirect_ax_rel(m1, m2, ea) && match ea {
                        Err(e) => r == Err::<Cycles, Exception>(e) && c1 == m2,
                        Ok(a) => exists|m3: ConfiguredCore, w: Result<()>|
                            #[trigger] data_written(m2, m3, 8, a, v & 0xff, w) && match w {
                                Err(e) => r == Err::<Cycles, Exception>(e) && c1 == m3,
                                Ok(_) => r == Ok::<Cycles, Exception>(Cycles(12))
                                    && c1 == common::move_flags_outcome(m3, v & 0xff, 0).0,
                            },
                    },
            }
}

/// MOVE to memory: the value is written, then N and Z are set from it.
pub fn move_8_ai_pi(core: &mut ConfiguredCore) -> (r: Result<Cycles>)
    requires
        old(core).wf(),
    ensures
        final(core).wf(),
        move_8_ai_pi_effect(*old(core), *final(core), r),
{
    let ghost c0 = *core;
    let src = operator::ay_pi_8(core);
    let ghost m1 = *core;
    assert(operator::ay_pi_8_rel(c0, m1, src));
    let v = match src {
        Err(e) => {
            return Err(e);
        },
        Ok(v) => v,
    };
    let m = v & 0xff;
    let ea = effective_address::address_indirect_ax(core);
    let ghost m2 = *core;
    assert(effective_address::address_indirect_ax_rel(m1, m2, ea));
    let a = match ea {
        Err(e) => {
            return Err(e);
        },
        Ok(a) => a,
    };
    let w = write_sized(core, 8, a, m);
    let ghost m3 = *core;
    assert(data_written(m2, m3, 8, a, m, w));
    match w {
        Err(e) => Err(e),
        Ok(()) => {
            common::move_flags(core, m, 0);
            Ok(Cycles(12))
        },
    }
}

/// What `move_8_pi_pi` does: the core goes from `c0` to `c1` and `r` comes back.
pub open spec fn move_8_pi_pi_effect(c0: ConfiguredCore, c1: ConfiguredCore, r: Result<Cycles>) -> bool {
    &&& exists|m1: ConfiguredCore, src: Result<u32>|
            #[trigger] operator::ay_pi_8_rel(c0, m1, src) && match src {
                Err(e) => r == Err::<Cycles, Exception>(e) && c1 == m1,
                Ok(v) => exists|m2: ConfiguredCore, ea: Result<u32>|
                    #[trigger] effective_address::postincrement_ax_8_rel(m1, m2, ea) && match ea {
                        Err(e) => r == Err::<Cycles, Exception>(e) && c1 == m2,
                        Ok(a) => exists|m3: ConfiguredCore, w: Result<()>|
                            #[trigger] data_written(m2, m3, 8, a, v & 0xff, w) && match w {
                                Err(e) => r == Err::<Cycles, Exception>(e) && c1 == m3,
                                Ok(_) => r == Ok::<Cycles, Exception>(Cycles(12))
                                    && c1 == common::move_flags_outcome(m3, v & 0xff, 0).0,
                            },
                    },
            }
}

/// MOVE to memory: the value is written, then N and Z are set from it.
pub fn move_8_pi_pi(core: &mut ConfiguredCore) -> (r: Result<Cycles>)
    requires
        old(core).wf(),
    ensures
        final(core).wf(),
        move_8_pi_pi_effect(*old(core), *final(core), r),
{
    let ghost c0 = *core;
    let src = operator::ay_pi_8(core);
    let ghost m1 = *core;
    assert(operator::ay_pi_8_rel(c0, m1, src));
    let v = match src {
        Err(e) => {
            return Err(e);
        },
        Ok(v) => v,
    };
    let m = v & 0xff;
    let ea = effective_address::postincrement_ax_8(core);
    let ghost m2 = *core;
    assert(effective_address::postincrement_ax_8_rel(m1, m2, ea));
    let a = match ea {
        Err(e) => {
            return Err(e);
        },
        Ok(a) => a,
    };
    let w = write_sized(core, 8, a, m);
    let ghost m3 = *core;
    assert(data_written(m2, m3, 8, a, m, w));
    match w {
        Err(e) => Err(e),
        Ok(()) => {
            common::move_flags(core, m, 0);
            Ok(Cycles(12))
        },
    }
}

/// What `move_8_pd_pi` does: the core goes from `c0` to `c1` and `r` comes back.
pub open spec fn move_8_pd_pi_effect(c0: ConfiguredCore, c1: ConfiguredCore, r: Result<Cycles>) -> bool {
    &&& exists|m1: ConfiguredCore, src: Result<u32>|
            #[trigger] operator::ay_pi_8_rel(c0, m1, src) && match src {
                Err(e) => r == Err::<Cycles, Exception>(e) && c1 == m1,
                Ok(v) => exists|m2: ConfiguredCore, ea: Result<u32>|
                    #[trigger] effective_address::predecrement_ax_8_rel(m1, m2, ea) && match ea {
                        Err(e) => r == Err::<Cycles, Exception>(e) && c1 == m2,
                        Ok(a) => exists|m3: ConfiguredCore, w: Result<()>|
                            #[trigger] data_written(m2, m3, 8, a, v & 0xff, w) && match w {
                                Err(e) => r == Err::<Cycles, Exception>(e) && c1 == m3,
                                Ok(_) => r == Ok::<Cycles, Exception>(Cycles(12))
                                    && c1 == common::move_flags_outcome(m3, v & 0xff, 0).0,
                            },
                    },
            }
}

/// MOVE to memory: the value is written, then N and Z are set from it.
pub fn move_8_pd_pi(core: &mut ConfiguredCore) -> (r: Result<Cycles>)
    requires
        old(core).wf(),
    ensures
        final(core).wf(),
        move_8_pd_pi_effect(*old(core), *final(core), r),
{
    let ghost c0 = *core;
    let src = operator::ay_pi_8(core);
    let ghost m1 = *core;
    assert(operator::ay_pi_8_rel(c0, m1, src));
    let v = match src {
        Err(e) => {
            return Err(e);
        },
        Ok(v) => v,
    };
    let m = v & 0xff;
    let ea = effective_address::predecrement_ax_8(core);
    let ghost m2 = *core;
    assert(effective_address::predecrement_ax_8_rel(m1, m2, ea));
    let a = match ea {
        Err(e) => {
            return Err(e);
        },
        Ok(a) => a,
    };
    let w = write_sized(core, 8, a, m);
    let ghost m3 = *core;
    assert(data_written(m2, m3, 8, a, m, w));
    match w {
        Err(e) => Err(e),
        Ok(()) => {
            common::move_flags(core, m, 0);
            Ok(Cycles(12))
        },
    }
}

/// What `move_8_di_pi` does: the core goes from `c0` to `c1` and `r` comes back.
pub open spec fn move_8_di_pi_effect(c0: ConfiguredCore, c1: ConfiguredCore, r: Result<Cycles>) -> bool {
    &&& exists|m1: ConfiguredCore, src: Result<u32>|
            #[trigger] operator::ay_pi_8_rel(c0, m1, src) && match src {
                Err(e) => r == Err::<Cycles, Exception>(e) && c1 == m1,
                Ok(v) => exists|m2: ConfiguredCore, ea: Result<u32>|
                    #[trigger] effective_address::displacement_ax_rel(m1, m2, ea) && match ea {
                        Err(e) => r == Err::<Cycles, Exception>(e) && c1 == m2,
                        Ok(a) => exists|m3: ConfiguredCore, w: Result<()>|
                            #[trigger] data_written(m2, m3, 8, a, v & 0xff, w) && match w {
                                Err(e) => r == Err::<Cycles, Exception>(e) && c1 == m3,
                                Ok(_) => r == Ok::<Cycles, Exception>(Cycles(16))
                                    && c1 == common::move_flags_outcome(m3, v & 0xff, 0).0,
                            },
                    },
            }
}

/// MOVE to memory: the value is written, then N and Z are set from it.
pub fn move_8_di_pi(core: &mut ConfiguredCore) -> (r: Result<Cycles>)
    requires
        old(core).wf(),
    ensures
        final(core).wf(),
        move_8_di_pi_effect(*old(core), *final(core), r),
{
    let ghost c0 = *core;
    let src = operator::ay_pi_8(core);
    let ghost m1 = *core;
    assert(operator::ay_pi_8_rel(c0, m1, src));
    let v = match src {
        Err(e) => {
            return Err(e);
        },
        Ok(v) => v,
    };
    let m = v & 0xff;
    let ea = effective_address::displacement_ax(core);
    let ghost m2 = *core;
    assert(effective_address::displacement_ax_rel(m1, m2, ea));
    let a = match ea {
        Err(e) => {
            return Err(e);
        },
        Ok(a) => a,
    };
    let w = write_sized(core, 8, a, m);
    let ghost m3 = *core;
    assert(data_written(m2, m3, 8, a, m, w));
    match w {
        Err(e) => Err(e),
        Ok(()) => {
            common::move_flags(core, m, 0);
            Ok(Cycles(16))
        },
    }
}

/// What `move_8_ix_pi` does: the core goes from `c0` to `c1` and `r` comes back.
pub open spec fn move_8_ix_pi_effect(c0: ConfiguredCore, c1: ConfiguredCore, r: Result<Cycles>) -> bool {
    &&& exists|m1: ConfiguredCore, src: Result<u32>|
            #[trigger] operator::ay_pi_8_rel(c0, m1, src) && match src {
                Err(e) => r == Err::<Cycles, Exception>(e) && c1 == m1,
                Ok(v) => exists|m2: ConfiguredCore, ea: Result<u32>|
                    #[trigger] effective_address::index_ax_rel(m1, m2, ea) && match ea {
                        Err(e) => r == Err::<Cycles, Exception>(e) && c1 == m2,
                        Ok(a) => exists|m3: ConfiguredCore, w: Result<()>|
                            #[trigger] data_written(m2, m3, 8, a, v & 0xff, w) && match w {
                                Err(e) => r == Err::<Cycles, Exception>(e) && c1 == m3,
                                Ok(_) => r == Ok::<Cycles, Exception>(Cycles(18))
                                    && c1 == common::move_flags_outcome(m3, v & 0xff, 0).0,
                            },
                    },
            }
}

/// MOVE to memory: the value is written, then N and Z are set from it.
pub fn move_8_ix_pi(core: &mut ConfiguredCore) -> (r: Result<Cycles>)
    requires
        old(core).wf(),
    ensures
        final(core).wf(),
        move_8_ix_pi_effect(*old(core), *final(core), r),
{
    let ghost c0 = *core;
    let src = operator::ay_pi_8(core);
    let ghost m1 = *core;
    assert(operator::ay_pi_8_rel(c0, m1, src));
    let v = match src {
        Err(e) => {
            return Err(e);
        },
        Ok(v) => v,
    };
    let m = v & 0xff;
    let ea = effective_address::index_ax(core);
    let ghost m2 = *core;
    assert(effective_address::index_ax_rel(m1, m2, ea));
    let a = match ea {
        Err(e) => {
            return Err(e);
        },
        Ok(a) => a,
    };
    let w = write_sized(core, 8, a, m);
    let ghost m3 = *core;
    assert(data_written(m2, m3, 8, a, m, w));
    match w {
        Err(e) => Err(e),
        Ok(()) => {
            common::move_flags(core, m, 0);
            Ok(Cycles(18))
        },
    }
}

/// What `move_8_aw_pi` does: the core goes from `c0` to `c1` and `r` comes back.
pub open spec fn move_8_aw_pi_effect(c0: ConfiguredCore, c1: ConfiguredCore, r: Result<Cycles>) -> bool {
    &&& exists|m1: ConfiguredCore, src: Result<u32>|
            #[trigger] operator::ay_pi_8_rel(c0, m1, src) && match src {
                Err(e) => r == Err::<Cycles, Exception>(e) && c1 == m1,
                Ok(v) => exists|m2: ConfiguredCore, ea: Result<u32>|
                    #[trigger] effective_address::absolute_word_rel(m1, m2, ea) && match ea {
                        Err(e) => r == Err::<Cycles, Exception>(e) && c1 == m2,
                        Ok(a) => exists|m3: ConfiguredCore, w: Result<()>|
                            #[trigger] data_written(m2, m3, 8, a, v & 0xff, w) && match w {
                                Err(e) => r == Err::<Cycles, Exception>(e) && c1 == m3,
                                Ok(_) => r == Ok::<Cycles, Exception>(Cycles(16))
                                    && c1 == common::move_flags_outcome(m3, v & 0xff, 0).0,
                            },
                    },
            }
}

/// MOVE to memory: the value is written, then N and Z are set from it.
pub fn move_8_aw_pi(core: &mut ConfiguredCore) -> (r: Result<Cycles>)
    requires
        old(core).wf(),
    ensures
        final(core).wf(),
        move_8_aw_pi_effect(*old(core), *final(core), r),
{
    let ghost c0 = *core;
    let src = operator::ay_pi_8(core);
    let ghost m1 = *core;
    assert(operator::ay_pi_8_rel(c0, m1, src));
    let v = match src {
        Err(e) => {
            return Err(e);
        },
        Ok(v) => v,
    };
    let m = v & 0xff;
    let ea = effective_address::absolute_word(core);
    let ghost m2 = *core;
    assert(effective_address::absolute_word_rel(m1, m2, ea));
    let a = match ea {
        Err(e) => {
            return Err(e);
        },
        Ok(a) => a,
    };
    let w = write_sized(core, 8, a, m);
    let ghost m3 = *core;
    assert(data_written(m2, m3, 8, a, m, w));
    match w {
        Err(e) => Err(e),
        Ok(()) => {
            common::move_flags(core, m, 0);
            Ok(Cycles(16))
        },
    }
}

/// What `move_8_al_pi` does: the core goes from `c0` to `c1` and `r` comes back.
pub open spec fn move_8_al_pi_effect(c0: ConfiguredCore, c1: ConfiguredCore, r: Result<Cycles>) -> bool {
    &&& exists|m1: ConfiguredCore, src: Result<u32>|
            #[trigger] operator::ay_pi_8_rel(c0, m1, src) && match src {
                Err(e) => r == Err::<Cycles, Exception>(e) && c1 == m1,
                Ok(v) => exists|m2: ConfiguredCore, ea: Result<u32>|
                    #[trigger] effective_address::absolute_long_rel(m1, m2, ea) && match ea {
                        Err(e) => r == Err::<Cycles, Exception>(e) && c1 == m2,
                        Ok(a) => exists|m3: ConfiguredCore, w: Result<()>|
                            #[trigger] data_written(m2, m3, 8, a, v & 0xff, w) && match w {
                                Err(e) => r == Err::<Cycles, Exception>(e) && c1 == m3,
                                Ok(_) => r == Ok::<Cycles, Exception>(Cycles(20))
                                    && c1 == common::move_flags_outcome(m3, v & 0xff, 0).0,
                            },
                    },
            }
}

/// MOVE to memory: the value is written, then N and Z are set from it.
pub fn move_8_al_pi(core: &mut ConfiguredCore) -> (r: Result<Cycles>)
    requires
        old(core).wf(),
    ensures
        final(core).wf(),
        move_8_al_pi_effect(*old(core), *final(core), r),
{
    let ghost c0 = *core;
    let src = operator::ay_pi_8(core);
    let ghost m1 = *core;
    assert(operator::ay_pi_8_rel(c0, m1, src));
    let v = match src {
        Err(e) => {
            return Err(e);
        },
        Ok(v) => v,
    };
    let m = v & 0xff;
    let ea = effective_address::absolute_long(core);
    let ghost m2 = *core;
    assert(effective_address::absolute_long_rel(m1, m2, ea));
    let a = match ea {
        Err(e) => {
            return Err(e);
        },
        Ok(a) => a,
    };
    let w = write_sized(core, 8, a, m);
    let ghost m3 = *core;
    assert(data_written(m2, m3, 8, a, m, w));
    match w {
        Err(e) => Err(e),
        Ok(()) => {
            common::move_flags(core, m, 0);
            Ok(Cycles(20))
        },
    }
}

/// What `move_8_dn_pd` does: the core goes from `c0` to `c1` and `r` comes back.
pub open spec fn move_8_dn_pd_effect(c0: ConfiguredCore, c1: ConfiguredCore, r: Result<Cycles>) -> bool {
    &&& exists|mid: ConfiguredCore, src: Result<u32>|
            #[trigger] operator::ay_pd_8_rel(c0, mid, src) && match src {
                Err(e) => r == Err::<Cycles, Exception>(e) && c1 == mid,
                Ok(v) => {
                    let m = v & 0xff;
                    let reg = ir_dx(mid.ir);
                    &&& r == Ok::<Cycles, Exception>(Cycles(10))
                    &&& reg_set(common::move_flags_outcome(mid, m, 0).0, c1, reg, merged(mid.dar[reg], m, 8))
                },
            }
}

/// MOVE into Dx, with N and Z set from the value moved.
pub fn move_8_dn_pd(core: &mut ConfiguredCore) -> (r: Result<Cycles>)
    requires
        old(core).wf(),
    ensures
        final(core).wf(),
        move_8_dn_pd_effect(*old(core), *final(core), r),
{
    let ghost c0 = *core;
    let src = operator::ay_pd_8(core);
    let ghost mid = *core;
    assert(operator::ay_pd_8_rel(c0, mid, src));
    match src {
        Err(e) => Err(e),
        Ok(v) => {
            let m = v & 0xff;
            let reg = reg_dx(core.ir);
            let dst = core.dar[reg];
            common::move_flags(core, m, 0);
            set_reg(core, reg, merge(dst, m, 8));
            Ok(Cycles(10))
        },
    }
}

/// What `move_8_ai_pd` does: the core goes from `c0` to `c1` and `r` comes back.
pub open spec fn move_8_ai_pd_effect(c0: ConfiguredCore, c1: ConfiguredCore, r: Result<Cycles>) -> bool {
    &&& exists|m1: ConfiguredCore, src: Result<u32>|
            #[trigger] operator::ay_pd_8_rel(c0, m1, src) && match src {
                Err(e) => r == Err::<Cycles, Exception>(e) && c1 == m1,
                Ok(v) => exists|m2: ConfiguredCore, ea: Result<u32>|
                    #[trigger] effective_address::address_indirect_ax_rel(m1, m2, ea) && match ea {
                        Err(e) => r == Err::<Cycles, Exception>(e) && c1 == m2,
                        Ok(a) => exists|m3: ConfiguredCore, w: Result<()>|
                            #[trigger] data_written(m2, m3, 8, a, v & 0xff, w) && match w {
                                Err(e) => r == Err::<Cycles, Exception>(e) && c1 == m3,
                                Ok(_) => r == Ok::<Cycles, Exception>(Cycles(14))
                                    && c1 == common::move_flags_outcome(m3, v & 0xff, 0).0,
                            },
                    },
            }
}

/// MOVE to memory: the value is written, then N and Z are set from it.
pub fn move_8_ai_pd(core: &mut ConfiguredCore) -> (r: Result<Cycles>)
    requires
        old(core).wf(),
    ensures
        final(core).wf(),
        move_8_ai_pd_effect(*old(core), *final(core), r),
{
    let ghost c0 = *core;
    let src = operator::ay_pd_8(core);
    let ghost m1 = *core;
    assert(operator::ay_pd_8_rel(c0, m1, src));
    let v = match src {
        Err(e) => {
            return Err(e);
        },
        Ok(v) => v,
    };
    let m = v & 0xff;
    let ea = effective_address::address_indirect_ax(core);
    let ghost m2 = *core;
    assert(effective_address::address_indirect_ax_rel(m1, m2, ea));
    let a = match ea {
        Err(e) => {
            return Err(e);
        },
        Ok(a) => a,
    };
    let w = write_sized(core, 8, a, m);
    let ghost m3 = *core;
    assert(data_written(m2, m3, 8, a, m, w));
    match w {
        Err(e) => Err(e),
        Ok(()) => {
            common::move_flags(core, m, 0);
            Ok(Cycles(14))
        },
    }
}

/// What `move_8_pi_pd` does: the core goes from `c0` to `c1` and `r` comes back.
pub open spec fn move_8_pi_pd_effect(c0: ConfiguredCore, c1: ConfiguredCore, r: Result<Cycles>) -> bool {
    &&& exists|m1: ConfiguredCore, src: Result<u32>|
            #[trigger] operator::ay_pd_8_rel(c0, m1, src) && match src {
                Err(e) => r == Err::<Cycles, Exception>(e) && c1 == m1,
                Ok(v) => exists|m2: ConfiguredCore, ea: Result<u32>|
                    #[trigger] effective_address::postincrement_ax_8_rel(m1, m2, ea) && match ea {
                        Err(e) => r == Err::<Cycles, Exception>(e) && c1 == m2,
                        Ok(a) => exists|m3: ConfiguredCore, w: Result<()>|
                            #[trigger] data_written(m2, m3, 8, a, v & 0xff, w) && match w {
                                Err(e) => r == Err::<Cycles, Exception>(e) && c1 == m3,
                                Ok(_) => r == Ok::<Cycles, Exception>(Cycles(14))
                                    && c1 == common::move_flags_outcome(m3, v & 0xff, 0).0,
                            },
                    },
            }
}

/// MOVE to memory: the value is written, then N and Z are set from it.
pub fn move_8_pi_pd(core: &mut ConfiguredCore) -> (r: Result<Cycles>)
    requires
        old(core).wf(),
    ensures
        final(core).wf(),
        move_8_pi_pd_effect(*old(core), *final(core), r),
{
    let ghost c0 = *core;
    let src = operator::ay_pd_8(core);
    let ghost m1 = *core;
    assert(operator::ay_pd_8_rel(c0, m1, src));
    let v = match src {
        Err(e) => {
            return Err(e);
        },
        Ok(v) => v,
    };
    let m = v & 0xff;
    let ea = effective_address::postincrement_ax_8(core);
    let ghost m2 = *core;
    assert(effective_address::postincrement_ax_8_rel(m1, m2, ea));
    let a = match ea {
        Err(e) => {
            return Err(e);
        },
        Ok(a) => a,
    };
    let w = write_sized(core, 8, a, m);
    let ghost m3 = *core;
    assert(data_written(m2, m3, 8, a, m, w));
    match w {
        Err(e) => Err(e),
        Ok(()) => {
            common::move_flags(core, m, 0);
            Ok(Cycles(14))
        },
    }
}

/// What `move_8_pd_pd` does: the core goes from `c0` to `c1` and `r` comes back.
pub open spec fn move_8_pd_pd_effect(c0: ConfiguredCore, c1: ConfiguredCore, r: Result<Cycles>) -> bool {
    &&& exists|m1: ConfiguredCore, src: Result<u32>|
            #[trigger] operator::ay_pd_8_rel(c0, m1, src) && match src {
                Err(e) => r == Err::<Cycles, Exception>(e) && c1 == m1,
                Ok(v) => exists|m2: ConfiguredCore, ea: Result<u32>|
                    #[trigger] effective_address::predecrement_ax_8_rel(m1, m2, ea) && match ea {
                        Err(e) => r == Err::<Cycles, Exception>(e) && c1 == m2,
                        Ok(a) => exists|m3: ConfiguredCore, w: Result<()>|
                            #[trigger] data_written(m2, m3, 8, a, v & 0xff, w) && match w {
                                Err(e) => r == Err::<Cycles, Exception>(e) && c1 == m3,
                                Ok(_) => r == Ok::<Cycles, Exception>(Cycles(14))
                                    && c1 == common::move_flags_outcome(m3, v & 0xff, 0).0,
                            },
                    },
            }
}

/// MOVE to memory: the value is written, then N and Z are set from it.
pub fn move_8_pd_pd(core: &mut ConfiguredCore) -> (r: Result<Cycles>)
    requires
        old(core).wf(),
    ensures
        final(core).wf(),
        move_8_pd_pd_effect(*old(core), *final(core), r),
{
    let ghost c0 = *core;
    let src = operator::ay_pd_8(core);
    let ghost m1 = *core;
    assert(operator::ay_pd_8_rel(c0, m1, src));
    let v = match src {
        Err(e) => {
            return Err(e);
        },
        Ok(v) => v,
    };
    let m = v & 0xff;
    let ea = effective_address::predecrement_ax_8(core);
    let ghost m2 = *core;
    assert(effective_address::predecrement_ax_8_rel(m1, m2, ea));
    let a = match ea {
        Err(e) => {
            return Err(e);
        },
        Ok(a) => a,
    };
    let w = write_sized(core, 8, a, m);
    let ghost m3 = *core;
    assert(data_written(m2, m3, 8, a, m, w));
    match w {
        Err(e) => Err(e),
        Ok(()) => {
            common::move_flags(core, m, 0);
            Ok(Cycles(14))
        },
    }
}

/// What `move_8_di_pd` does: the core goes from `c0` to `c1` and `r` comes back.
pub open spec fn move_8_di_pd_effect(c0: ConfiguredCore, c1: ConfiguredCore, r: Result<Cycles>) -> bool {
    &&& exists|m1: ConfiguredCore, src: Result<u32>|
            #[trigger] operator::ay_pd_8_rel(c0, m1, src) && match src {
                Err(e) => r == Err::<Cycles, Exception>(e) && c1 == m1,
                Ok(v) => exists|m2: ConfiguredCore, ea: Result<u32>|
                    #[trigger] effective_address::displacement_ax_rel(m1, m2, ea) && match ea {
                        Err(e) => r == Err::<Cycles, Exception>(e) && c1 == m2,
                        Ok(a) => exists|m3: ConfiguredCore, w: Result<()>|
                            #[trigger] data_written(m2, m3, 8, a, v & 0xff, w) && match w {
                                Err(e) => r == Err::<Cycles, Exception>(e) && c1 == m3,
                                Ok(_) => r == Ok::<Cycles, Exception>(Cycles(18))
                                    && c1 == common::move_flags_outcome(m3, v & 0xff, 0).0,
                            },
                    },
            }
}

/// MOVE to memory: the value is written, then N and Z are set from it.
pub fn move_8_di_pd(core: &mut ConfiguredCore) -> (r: Result<Cycles>)
    requires
        old(core).wf(),
    ensures
        final(core).wf(),
        move_8_di_pd_effect(*old(core), *final(core), r),
{
    let ghost c0 = *core;
    let src = operator::ay_pd_8(core);
    let ghost m1 = *core;
    assert(operator::ay_pd_8_rel(c0, m1, src));
    let v = match src {
        Err(e) => {
            return Err(e);
        },
        Ok(v) => v,
    };
    let m = v & 0xff;
    let ea = effective_address::displacement_ax(core);
    let ghost m2 = *core;
    assert(effective_address::displacement_ax_rel(m1, m2, ea));
    let a = match ea {
        Err(e) => {
            return Err(e);
        },
        Ok(a) => a,
    };
    let w = write_sized(core, 8, a, m);
    let ghost m3 = *core;
    assert(data_written(m2, m3, 8, a, m, w));
    match w {
        Err(e) => Err(e),
        Ok(()) => {
            common::move_flags(core, m, 0);
            Ok(Cycles(18))
        },
    }
}

/// What `move_8_ix_pd` does: the core goes from `c0` to `c1` and `r` comes back.
pub open spec fn move_8_ix_pd_effect(c0: ConfiguredCore, c1: ConfiguredCore, r: Result<Cycles>) -> bool {
    &&& exists|m1: ConfiguredCore, src: Result<u32>|
            #[trigger] operator::ay_pd_8_rel(c0, m1, src) && match src {
                Err(e) => r == Err::<Cycles, Exception>(e) && c1 == m1,
                Ok(v) => exists|m2: ConfiguredCore, ea: Result<u32>|
                    #[trigger] effective_address::index_ax_rel(m1, m2, ea) && match ea {
                        Err(e) => r == Err::<Cycles, Exception>(e) && c1 == m2,
                        Ok(a) => exists|m3: ConfiguredCore, w: Result<()>|
                            #[trigger] data_written(m2, m3, 8, a, v & 0xff, w) && match w {
                                Err(e) => r == Err::<Cycles, Exception>(e) && c1 == m3,
                                Ok(_) => r == Ok::<Cycles, Exception>(Cycles(20))
                                    && c1 == common::move_flags_outcome(m3, v & 0xff, 0).0,
                            },
                    },
            }
}

/// MOVE to memory: the value is written, then N and Z are set from it.
pub fn move_8_ix_pd(core: &mut ConfiguredCore) -> (r: Result<Cycles>)
    requires
        old(core).wf(),
    ensures
        final(core).wf(),
        move_8_ix_pd_effect(*old(core), *final(core), r),
{
    let ghost c0 = *core;
    let src = operator::ay_pd_8(core);
    let ghost m1 = *core;
    assert(operator::ay_pd_8_rel(c0, m1, src));
    let v = match src {
        Err(e) => {
            return Err(e);
        },
        Ok(v) => v,
    };
    let m = v & 0xff;
    let ea = effective_address::index_ax(core);
    let ghost m2 = *core;
    assert(effective_address::index_ax_rel(m1, m2, ea));
    let a = match ea {
        Err(e) => {
            return Err(e);
        },
        Ok(a) => a,
    };
    let w = write_sized(core, 8, a, m);
    let ghost m3 = *core;
    assert(data_written(m2, m3, 8, a, m, w));
    match w {
        Err(e) => Err(e),
        Ok(()) => {
            common::move_flags(core, m, 0);
            Ok(Cycles(20))
        },
    }
}

/// What `move_8_aw_pd` does: the core goes from `c0` to `c1` and `r` comes back.
pub open spec fn move_8_aw_pd_effect(c0: ConfiguredCore, c1: ConfiguredCore, r: Result<Cycles>) -> bool {
    &&& exists|m1: ConfiguredCore, src: Result<u32>|
            #[trigger] operator::ay_pd_8_rel(c0, m1, src) && match src {
                Err(e) => r == Err::<Cycles, Exception>(e) && c1 == m1,
                Ok(v) => exists|m2: ConfiguredCore, ea: Result<u32>|
                    #[trigger] effective_address::absolute_word_rel(m1, m2, ea) && match ea {
                        Err(e) => r == Err::<Cycles, Exception>(e) && c1 == m2,
                        Ok(a) => exists|m3: ConfiguredCore, w: Result<()>|
                            #[trigger] data_written(m2, m3, 8, a, v & 0xff, w) && match w {
                                Err(e) => r == Err::<Cycles, Exception>(e) && c1 == m3,
                                Ok(_) => r == Ok::<Cycles, Exception>(Cycles(18))
                                    && c1 == common::move_flags_outcome(m3, v & 0xff, 0).0,
                            },
                    },
            }
}

/// MOVE to memory: the value is written, then N and Z are set from it.
pub fn move_8_aw_pd(core: &mut ConfiguredCore) -> (r: Result<Cycles>)
    requires
        old(core).wf(),
    ensures
        final(core).wf(),
        move_8_aw_pd_effect(*old(core), *final(core), r),
{
    let ghost c0 = *core;
    let src = operator::ay_pd_8(core);
    let ghost m1 = *core;
    assert(operator::ay_pd_8_rel(c0, m1, src));
    let v = match src {
        Err(e) => {
            return Err(e);
        },
        Ok(v) => v,
    };
    let m = v & 0xff;
    let ea = effective_address::absolute_word(core);
    let ghost m2 = *core;
    assert(effective_address::absolute_word_rel(m1, m2, ea));
    let a = match ea {
        Err(e) => {
            return Err(e);
        },
        Ok(a) => a,
    };
    let w = write_sized(core, 8, a, m);
    let ghost m3 = *core;
    assert(data_written(m2, m3, 8, a, m, w));
    match w {
        Err(e) => Err(e),
        Ok(()) => {
            common::move_flags(core, m, 0);
            Ok(Cycles(18))
        },
    }
}

/// What `move_8_al_pd` does: the core goes from `c0` to `c1` and `r` comes back.
pub open spec fn move_8_al_pd_effect(c0: ConfiguredCore, c1: ConfiguredCore, r: Result<Cycles>) -> bool {
    &&& exists|m1: ConfiguredCore, src: Result<u32>|
            #[trigger] operator::ay_pd_8_rel(c0, m1, src) && match src {
                Err(e) => r == Err::<Cycles, Exception>(e) && c1 == m1,
                Ok(v) => exists|m2: ConfiguredCore, ea: Result<u32>|
                    #[trigger] effective_address::absolute_long_rel(m1, m2, ea) && match ea {
                        Err(e) => r == Err::<Cycles, Exception>(e) && c1 == m2,
                        Ok(a) => exists|m3: ConfiguredCore, w: Result<()>|
                            #[trigger] data_written(m2, m3, 8, a, v & 0xff, w) && match w {
                                Err(e) => r == Err::<Cycles, Exception>(e) && c1 == m3,
                                Ok(_) => r == Ok::<Cycles, Exception>(Cycles(22))
                                    && c1 == common::move_flags_outcome(m3, v & 0xff, 0).0,
                            },
                    },
            }
}

/// MOVE to memory: the value is written, then N and Z are set from it.
pub fn move_8_al_pd(core: &mut ConfiguredCore) -> (r: Result<Cycles>)
    requires
        old(core).wf(),
    ensures
        final(core).wf(),
        move_8_al_pd_effect(*old(core), *final(core), r),
{
    let ghost c0 = *core;
    let src = operator::ay_pd_8(core);
    let ghost m1 = *core;
    assert(operator::ay_pd_8_rel(c0, m1, src));
    let v = match src {
        Err(e) => {
            return Err(e);
        },
        Ok(v) => v,
    };
    let m = v & 0xff;
    let ea = effective_address::absolute_long(core);
    let ghost m2 = *core;
    assert(effective_address::absolute_long_rel(m1, m2, ea));
    let a = match ea {
        Err(e) => {
            return Err(e);
        },
        Ok(a) => a,
    };
    let w = write_sized(core, 8, a, m);
    let ghost m3 = *core;
    assert(data_written(m2, m3, 8, a, m, w));
    match w {
        Err(e) => Err(e),
        Ok(()) => {
            common::move_flags(core, m, 0);
            Ok(Cycles(22))
        },
    }
}

/// What `move_8_dn_di` does: the core goes from `c0` to `c1` and `r` comes back.
pub open spec fn move_8_dn_di_effect(c0: ConfiguredCore, c1: ConfiguredCore, r: Result<Cycles>) -> bool {
    &&& exists|mid: ConfiguredCore, src: Result<u32>|
            #[trigger] operator::ay_di_8_rel(c0, mid, src) && match src {
                Err(e) => r == Err::<Cycles, Exception>(e) && c1 == mid,
                Ok(v) => {
                    let m = v & 0xff;
                    let reg = ir_dx(mid.ir);
                    &&& r == Ok::<Cycles, Exception>(Cycles(12))
                    &&& reg_set(common::move_flags_outcome(mid, m, 0).0, c1, reg, merged(mid.dar[reg], m, 8))
                },
            }
}

/// MOVE into Dx, with N and Z set from the value moved.
pub fn move_8_dn_di(core: &mut ConfiguredCore) -> (r: Result<Cycles>)
    requires
        old(core).wf(),
    ensures
        final(core).wf(),
        move_8_dn_di_effect(*old(core), *final(core), r),
{
    let ghost c0 = *core;
    let src = operator::ay_di_8(core);
    let ghost mid = *core;
    assert(operator::ay_di_8_rel(c0, mid, src));
    match src {
        Err(e) => Err(e),
        Ok(v) => {
            let m = v & 0xff;
            let reg = reg_dx(core.ir);
            let dst = core.dar[reg];
            common::move_flags(core, m, 0);
            set_reg(core, reg, merge(dst, m, 8));
            Ok(Cycles(12))
        },
    }
}

/// What `move_8_ai_di` does: the core goes from `c0` to `c1` and `r` comes back.
pub open spec fn move_8_ai_di_effect(c0: ConfiguredCore, c1: ConfiguredCore, r: Result<Cycles>) -> bool {
    &&& exists|m1: ConfiguredCore, src: Result<u32>|
            #[trigger] operator::ay_di_8_rel(c0, m1, src) && match src {
                Err(e) => r == Err::<Cycles, Exception>(e) && c1 == m1,
                Ok(v) => exists|m2: ConfiguredCore, ea: Result<u32>|
                    #[trigger] effective_address::address_indirect_ax_rel(m1, m2, ea) && match ea {
                        Err(e) => r == Err::<Cycles, Exception>(e) && c1 == m2,
                        Ok(a) => exists|m3: ConfiguredCore, w: Result<()>|
                            #[trigger] data_written(m2, m3, 8, a, v & 0xff, w) && match w {
                                Err(e) => r == Err::<Cycles, Exception>(e) && c1 == m3,
                                Ok(_) => r == Ok::<Cycles, Exception>(Cycles(16))
                                    && c1 == common::move_flags_outcome(m3, v & 0xff, 0).0,
                            },
                    },
            }
}

/// MOVE to memory: the value is written, then N and Z are set from it.
pub fn move_8_ai_di(core: &mut ConfiguredCore) -> (r: Result<Cycles>)
    requires
        old(core).wf(),
    ensures
        final(core).wf(),
        move_8_ai_di_effect(*old(core), *final(core), r),
{
    let ghost c0 = *core;
    let src = operator::ay_di_8(core);
    let ghost m1 = *core;
    assert(operator::ay_di_8_rel(c0, m1, src));
    let v = match src {
        Err(e) => {
            return Err(e);
        },
        Ok(v) => v,
    };
    let m = v & 0xff;
    let ea = effective_address::address_indirect_ax(core);
    let ghost m2 = *core;
    assert(effective_address::address_indirect_ax_rel(m1, m2, ea));
    let a = match ea {
        Err(e) => {
            return Err(e);
        },
        Ok(a) => a,
    };
    let w = write_sized(core, 8, a, m);
    let ghost m3 = *core;
    assert(data_written(m2, m3, 8, a, m, w));
    match w {
        Err(e) => Err(e),
        Ok(()) => {
            common::move_flags(core, m, 0);
            Ok(Cycles(16))
        },
    }
}

/// What `move_8_pi_di` does: the core goes from `c0` to `c1` and `r` comes back.
pub open spec fn move_8_pi_di_effect(c0: ConfiguredCore, c1: ConfiguredCore, r: Result<Cycles>) -> bool {
    &&& exists|m1: ConfiguredCore, src: Result<u32>|
            #[trigger] operator::ay_di_8_rel(c0, m1, src) && match src {
                Err(e) => r == Err::<Cycles, Exception>(e) && c1 == m1,
                Ok(v) => exists|m2: ConfiguredCore, ea: Result<u32>|
                    #[trigger] effective_address::postincrement_ax_8_rel(m1, m2, ea) && match ea {
                        Err(e) => r == Err::<Cycles, Exception>(e) && c1 == m2,
                        Ok(a) => exists|m3: ConfiguredCore, w: Result<()>|
                            #[trigger] data_written(m2, m3, 8, a, v & 0xff, w) && match w {
                                Err(e) => r == Err::<Cycles, Exception>(e) && c1 == m3,
                                Ok(_) => r == Ok::<Cycles, Exception>(Cycles(16))
                                    && c1 == common::move_flags_outcome(m3, v & 0xff, 0).0,
                            },
                    },
            }
}

/// MOVE to memory: the value is written, then N and Z are set from it.
pub fn move_8_pi_di(core: &mut ConfiguredCore) -> (r: Result<Cycles>)
    requires
        old(core).wf(),
    ensures
        final(core).wf(),
        move_8_pi_di_effect(*old(core), *final(core), r),
{
    let ghost c0 = *core;
    let src = operator::ay_di_8(core);
    let ghost m1 = *core;
    assert(operator::ay_di_8_rel(c0, m1, src));
    let v = match src {
        Err(e) => {
            return Err(e);
        },
        Ok(v) => v,
    };
    let m = v & 0xff;
    let ea = effective_address::postincrement_ax_8(core);
    let ghost m2 = *core;
    assert(effective_address::postincrement_ax_8_rel(m1, m2, ea));
    let a = match ea {
        Err(e) => {
            return Err(e);
        },
        Ok(a) => a,
    };
    let w = write_sized(core, 8, a, m);
    let ghost m3 = *core;
    assert(data_written(m2, m3, 8, a, m, w));
    match w {
        Err(e) => Err(e),
        Ok(()) => {
            common::move_flags(core, m, 0);
            Ok(Cycles(16))
        },
    }
}

/// What `move_8_pd_di` does: the core goes from `c0` to `c1` and `r` comes back.
pub open spec fn move_8_pd_di_effect(c0: ConfiguredCore, c1: ConfiguredCore, r: Result<Cycles>) -> bool {
    &&& exists|m1: ConfiguredCore, src: Result<u32>|
            #[trigger] operator::ay_di_8_rel(c0, m1, src) && match src {
                Err(e) => r == Err::<Cycles, Exception>(e) && c1 == m1,
                Ok(v) => exists|m2: ConfiguredCore, ea: Result<u32>|
                    #[trigger] effective_address::predecrement_ax_8_rel(m1, m2, ea) && match ea {
                        Err(e) => r == Err::<Cycles, Exception>(e) && c1 == m2,
                        Ok(a) => exists|m3: ConfiguredCore, w: Result<()>|
                            #[trigger] data_written(m2, m3, 8, a, v & 0xff, w) && match w {
                                Err(e) => r == Err::<Cycles, Exception>(e) && c1 == m3,
                                Ok(_) => r == Ok::<Cycles, Exception>(Cycles(16))
                                    && c1 == common::move_flags_outcome(m3, v & 0xff, 0).0,
                            },
                    },
            }
}

/// MOVE to memory: the value is written, then N and Z are set from it.
pub fn move_8_pd_di(core: &mut ConfiguredCore) -> (r: Result<Cycles>)
    requires
        old(core).wf(),
    ensures
        final(core).wf(),
        move_8_pd_di_effect(*old(core), *final(core), r),
{
    let ghost c0 = *core;
    let src = operator::ay_di_8(core);
    let ghost m1 = *core;
    assert(operator::ay_di_8_rel(c0, m1, src));
    let v = match src {
        Err(e) => {
            return Err(e);
        },
        Ok(v) => v,
    };
    let m = v & 0xff;
    let ea = effective_address::predecrement_ax_8(core);
    let ghost m2 = *core;
    assert(effective_address::predecrement_ax_8_rel(m1, m2, ea));
    let a = match ea {
        Err(e) => {
            return Err(e);
        },
        Ok(a) => a,
    };
    let w = write_sized(core, 8, a, m);
    let ghost m3 = *core;
    assert(data_written(m2, m3, 8, a, m, w));
    match w {
        Err(e) => Err(e),
        Ok(()) => {
            common::move_flags(core, m, 0);
            Ok(Cycles(16))
        },
    }
}

/// What `move_8_di_di` does: the core goes from `c0` to `c1` and `r` comes back.
pub open spec fn move_8_di_di_effect(c0: ConfiguredCore, c1: ConfiguredCore, r: Result<Cycles>) -> bool {
    &&& exists|m1: ConfiguredCore, src: Result<u32>|
            #[trigger] operator::ay_di_8_rel(c0, m1, src) && match src {
                Err(e) => r == Err::<Cycles, Exception>(e) && c1 == m1,
                Ok(v) => exists|m2: ConfiguredCore, ea: Result<u32>|
                    #[trigger] effective_address::displacement_ax_rel(m1, m2, ea) && match ea {
                        Err(e) => r == Err::<Cycles, Exception>(e) && c1 == m2,
                        Ok(a) => exists|m3: ConfiguredCore, w: Result<()>|
                            #[trigger] data_written(m2, m3, 8, a, v & 0xff, w) && match w {
                                Err(e) => r == Err::<Cycles, Exception>(e) && c1 == m3,
                                Ok(_) => r == Ok::<Cycles, Exception>(Cycles(20))
                                    && c1 == common::move_flags_outcome(m3, v & 0xff, 0).0,
                            },
                    },
            }
}

/// MOVE to memory: the value is written, then N and Z are set from it.
pub fn move_8_di_di(core: &mut ConfiguredCore) -> (r: Result<Cycles>)
    requires
        old(core).wf(),
    ensures
        final(core).wf(),
        move_8_di_di_effect(*old(core), *final(core), r),
{
    let ghost c0 = *core;
    let src = operator::ay_di_8(core);
    let ghost m1 = *core;
    assert(operator::ay_di_8_rel(c0, m1, src));
    let v = match src {
        Err(e) => {
            return Err(e);
        },
        Ok(v) => v,
    };
    let m = v & 0xff;
    let ea = effective_address::displacement_ax(core);
    let ghost m2 = *core;
    assert(effective_address::displacement_ax_rel(m1, m2, ea));
    let a = match ea {
        Err(e) => {
            return Err(e);
        },
        Ok(a) => a,
    };
    let w = write_sized(core, 8, a, m);
    let ghost m3 = *core;
    assert(data_written(m2, m3, 8, a, m, w));
    match w {
        Err(e) => Err(e),
        Ok(()) => {
            common::move_flags(core, m, 0);
            Ok(Cycles(20))
        },
    }
}

/// What `move_8_ix_di` does: the core goes from `c0` to `c1` and `r` comes back.
pub open spec fn move_8_ix_di_effect(c0: ConfiguredCore, c1: ConfiguredCore, r: Result<Cycles>) -> bool {
    &&& exists|m1: ConfiguredCore, src: Result<u32>|
            #[trigger] operator::ay_di_8_rel(c0, m1, src) && match src {
                Err(e) => r == Err::<Cycles, Exception>(e) && c1 == m1,
                Ok(v) => exists|m2: ConfiguredCore, ea: Result<u32>|
                    #[trigger] effective_address::index_ax_rel(m1, m2, ea) && match ea {
                        Err(e) => r == Err::<Cycles, Exception>(e) && c1 == m2,
                        Ok(a) => exists|m3: ConfiguredCore, w: Result<()>|
                            #[trigger] data_written(m2, m3, 8, a, v & 0xff, w) && match w {
                                Err(e) => r == Err::<Cycles, Exception>(e) && c1 == m3,
                                Ok(_) => r == Ok::<Cycles, Exception>(Cycles(22))
                                    && c1 == common::move_flags_outcome(m3, v & 0xff, 0).0,
                            },
                    },
            }
}

/// MOVE to memory: the value is written, then N and Z are set from it.
pub fn move_8_ix_di(core: &mut ConfiguredCore) -> (r: Result<Cycles>)
    requires
        old(core).wf(),
    ensures
        final(core).wf(),
        move_8_ix_di_effect(*old(core), *final(core), r),
{
    let ghost c0 = *core;
    let src = operator::ay_di_8(core);
    let ghost m1 = *core;
    assert(operator::ay_di_8_rel(c0, m1, src));
    let v = match src {
        Err(e) => {
            return Err(e);
        },
        Ok(v) => v,
    };
    let m = v & 0xff;
    let ea = effective_address::index_ax(core);
    let ghost m2 = *core;
    assert(effective_address::index_ax_rel(m1, m2, ea));
    let a = match ea {
        Err(e) => {
            return Err(e);
        },
        Ok(a) => a,
    };
    let w = write_sized(core, 8, a, m);
    let ghost m3 = *core;
    assert(data_written(m2, m3, 8, a, m, w));
    match w {
        Err(e) => Err(e),
        Ok(()) => {
            common::move_flags(core, m, 0);
            Ok(Cycles(22))
        },
    }
}

/// What `move_8_aw_di` does: the core goes from `c0` to `c1` and `r` comes back.
pub open spec fn move_8_aw_di_effect(c0: ConfiguredCore, c1: ConfiguredCore, r: Result<Cycles>) -> bool {
    &&& exists|m1: ConfiguredCore, src: Result<u32>|
            #[trigger] operator::ay_di_8_rel(c0, m1, src) && match src {
                Err(e) => r == Err::<Cycles, Exception>(e) && c1 == m1,
                Ok(v) => exists|m2: ConfiguredCore, ea: Result<u32>|
                    #[trigger] effective_address::absolute_word_rel(m1, m2, ea) && match ea {
                        Err(e) => r == Err::<Cycles, Exception>(e) && c1 == m2,
                        Ok(a) => exists|m3: ConfiguredCore, w: Result<()>|
                            #[trigger] data_written(m2, m3, 8, a, v & 0xff, w) && match w {
                                Err(e) => r == Err::<Cycles, Exception>(e) && c1 == m3,
                                Ok(_) => r == Ok::<Cycles, Exception>(Cycles(20))
                                    && c1 == common::move_flags_outcome(m3, v & 0xff, 0).0,
                            },
                    },
            }
}

/// MOVE to memory: the value is written, then N and Z are set from it.
pub fn move_8_aw_di(core: &mut ConfiguredCore) -> (r: Result<Cycles>)
    requires
        old(core).wf(),
    ensures
        final(core).wf(),
        move_8_aw_di_effect(*old(core), *final(core), r),
{
    let ghost c0 = *core;
    let src = operator::ay_di_8(core);
    let ghost m1 = *core;
    assert(operator::ay_di_8_rel(c0, m1, src));
    let v = match src {
        Err(e) => {
            return Err(e);
        },
        Ok(v) => v,
    };
    let m = v & 0xff;
    let ea = effective_address::absolute_word(core);
    let ghost m2 = *core;
    assert(effective_address::absolute_word_rel(m1, m2, ea));
    let a = match ea {
        Err(e) => {
            return Err(e);
        },
        Ok(a) => a,
    };
    let w = write_sized(core, 8, a, m);
    let ghost m3 = *core;
    assert(data_written(m2, m3, 8, a, m, w));
    match w {
        Err(e) => Err(e),
        Ok(()) => {
            common::move_flags(core, m, 0);
            Ok(Cycles(20))
        },
    }
}

/// What `move_8_al_di` does: the core goes from `c0` to `c1` and `r` comes back.
pub open spec fn move_8_al_di_effect(c0: ConfiguredCore, c1: ConfiguredCore, r: Result<Cycles>) -> bool {
    &&& exists|m1: ConfiguredCore, src: Result<u32>|
            #[trigger] operator::ay_di_8_rel(c0, m1, src) && match src {
                Err(e) => r == Err::<Cycles, Exception>(e) && c1 == m1,
                Ok(v) => exists|m2: ConfiguredCore, ea: Result<u32>|
                    #[trigger] effective_address::absolute_long_rel(m1, m2, ea) && match ea {
                        Err(e) => r == Err::<Cycles, Exception>(e) && c1 == m2,
                        Ok(a) => exists|m3: ConfiguredCore, w: Result<()>|
                            #[trigger] data_written(m2, m3, 8, a, v & 0xff, w) && match w {
                                Err(e) => r == Err::<Cycles, Exception>(e) && c1 == m3,
                                Ok(_) => r == Ok::<Cycles, Exception>(Cycles(24))
                                    && c1 == common::move_flags_outcome(m3, v & 0xff, 0).0,
                            },
                    },
            }
}

/// MOVE to memory: the value is written, then N and Z are set from it.
pub fn move_8_al_di(core: &mut ConfiguredCore) -> (r: Result<Cycles>)
    requires
        old(core).wf(),
    ensures
        final(core).wf(),
        move_8_al_di_effect(*old(core), *final(core), r),
{
    let ghost c0 = *core;
    let src = operator::ay_di_8(core);
    let ghost m1 = *core;
    assert(operator::ay_di_8_rel(c0, m1, src));
    let v = match src {
        Err(e) => {
            return Err(e);
        },
        Ok(v) => v,
    };
    let m = v & 0xff;
    let ea = effective_address::absolute_long(core);
    let ghost m2 = *core;
    assert(effective_address::absolute_long_rel(m1, m2, ea));
    let a = match ea {
        Err(e) => {
            return Err(e);
        },
        Ok(a) => a,
    };
    let w = write_sized(core, 8, a, m);
    let ghost m3 = *core;
    assert(data_written(m2, m3, 8, a, m, w));
    match w {
        Err(e) => Err(e),
        Ok(()) => {
            common::move_flags(core, m, 0);
            Ok(Cycles(24))
        },
    }
}

/// What `move_8_dn_ix` does: the core goes from `c0` to `c1` and `r` comes back.
pub open spec fn move_8_dn_ix_effect(c0: ConfiguredCore, c1: ConfiguredCore, r: Result<Cycles>) -> bool {
    &&& exists|mid: ConfiguredCore, src: Result<u32>|
            #[trigger] operator::ay_ix_8_rel(c0, mid, src) && match src {
                Err(e) => r == Err::<Cycles, Exception>(e) && c1 == mid,
                Ok(v) => {
                    let m = v & 0xff;
                    let reg = ir_dx(mid.ir);
                    &&& r == Ok::<Cycles, Exception>(Cycles(14))
                    &&& reg_set(common::move_flags_outcome(mid, m, 0).0, c1, reg, merged(mid.dar[reg], m, 8))
                },
            }
}

/// MOVE into Dx, with N and Z set from the value moved.
pub fn move_8_dn_ix(core: &mut ConfiguredCore) -> (r: Result<Cycles>)
    requires
        old(core).wf(),
    ensures
        final(core).wf(),
        move_8_dn_ix_effect(*old(core), *final(core), r),
{
    let ghost c0 = *core;
    let src = operator::ay_ix_8(core);
    let ghost mid = *core;
    assert(operator::ay_ix_8_rel(c0, mid, src));
    match src {
        Err(e) => Err(e),
        Ok(v) => {
            let m = v & 0xff;
            let reg = reg_dx(core.ir);
            let dst = core.dar[reg];
            common::move_flags(core, m, 0);
            set_reg(core, reg, merge(dst, m, 8));
            Ok(Cycles(14))
        },
    }
}

/// What `move_8_ai_ix` does: the core goes from `c0` to `c1` and `r` comes back.
pub open spec fn move_8_ai_ix_effect(c0: ConfiguredCore, c1: ConfiguredCore, r: Result<Cycles>) -> bool {
    &&& exists|m1: ConfiguredCore, src: Result<u32>|
            #[trigger] operator::ay_ix_8_rel(c0, m1, src) && match src {
                Err(e) => r == Err::<Cycles, Exception>(e) && c1 == m1,
                Ok(v) => exists|m2: ConfiguredCore, ea: Result<u32>|
                    #[trigger] effective_address::address_indirect_ax_rel(m1, m2, ea) && match ea {
                        Err(e) => r == Err::<Cycles, Exception>(e) && c1 == m2,
                        Ok(a) => exists|m3: ConfiguredCore, w: Result<()>|
                            #[trigger] data_written(m2, m3, 8, a, v & 0xff, w) && match w {
                                Err(e) => r == Err::<Cycles, Exception>(e) && c1 == m3,
                                Ok(_) => r == Ok::<Cycles, Exception>(Cycles(18))
                                    && c1 == common::move_flags_outcome(m3, v & 0xff, 0).0,
                            },
                    },
            }
}

/// MOVE to memory: the value is written, then N and Z are set from it.
pub fn move_8_ai_ix(core: &mut ConfiguredCore) -> (r: Result<Cycles>)
    requires
        old(core).wf(),
    ensures
        final(core).wf(),
        move_8_ai_ix_effect(*old(core), *final(core), r),
{
    let ghost c0 = *core;
    let src = operator::ay_ix_8(core);
    let ghost m1 = *core;
    assert(operator::ay_ix_8_rel(c0, m1, src));
    let v = match src {
        Err(e) => {
            return Err(e);
        },
        Ok(v) => v,
    };
    let m = v & 0xff;
    let ea = effective_address::address_indirect_ax(core);
    let ghost m2 = *core;
    assert(effective_address::address_indirect_ax_rel(m1, m2, ea));
    let a = match ea {
        Err(e) => {
            return Err(e);
        },
        Ok(a) => a,
    };
    let w = write_sized(core, 8, a, m);
    let ghost m3 = *core;
    assert(data_written(m2, m3, 8, a, m, w));
    match w {
        Err(e) => Err(e),
        Ok(()) => {
            common::move_flags(core, m, 0);
            Ok(Cycles(18))
        },
    }
}

/// What `move_8_pi_ix` does: the core goes from `c0` to `c1` and `r` comes back.
pub open spec fn move_8_pi_ix_effect(c0: ConfiguredCore, c1: ConfiguredCore, r: Result<Cycles>) -> bool {
    &&& exists|m1: ConfiguredCore, src: Result<u32>|
            #[trigger] operator::ay_ix_8_rel(c0, m1, src) && match src {
                Err(e) => r == Err::<Cycles, Exception>(e) && c1 == m1,
                Ok(v) => exists|m2: ConfiguredCore, ea: Result<u32>|
                    #[trigger] effective_address::postincrement_ax_8_rel(m1, m2, ea) && match ea {
                        Err(e) => r == Err::<Cycles, Exception>(e) && c1 == m2,
                        Ok(a) => exists|m3: ConfiguredCore, w: Result<()>|
                            #[trigger] data_written(m2, m3, 8, a, v & 0xff, w) && match w {
                                Err(e) => r == Err::<Cycles, Exception>(e) && c1 == m3,
                                Ok(_) => r == Ok::<Cycles, Exception>(Cycles(18))
                                    && c1 == common::move_flags_outcome(m3, v & 0xff, 0).0,
                            },
                    },
            }
}

/// MOVE to memory: the value is written, then N and Z are set from it.
pub fn move_8_pi_ix(core: &mut ConfiguredCore) -> (r: Result<Cycles>)
    requires
        old(core).wf(),
    ensures
        final(core).wf(),
        move_8_pi_ix_effect(*old(core), *final(core), r),
{
    let ghost c0 = *core;
    let src = operator::ay_ix_8(core);
    let ghost m1 = *core;
    assert(operator::ay_ix_8_rel(c0, m1, src));
    let v = match src {
        Err(e) => {
            return Err(e);
        },
        Ok(v) => v,
    };
    let m = v & 0xff;
    let ea = effective_address::postincrement_ax_8(core);
    let ghost m2 = *core;
    assert(effective_address::postincrement_ax_8_rel(m1, m2, ea));
    let a = match ea {
        Err(e) => {
            return Err(e);
        },
        Ok(a) => a,
    };
    let w = write_sized(core, 8, a, m);
    let ghost m3 = *core;
    assert(data_written(m2, m3, 8, a, m, w));
    match w {
        Err(e) => Err(e),
        Ok(()) => {
            common::move_flags(core, m, 0);
            Ok(Cycles(18))
        },
    }
}

/// What `move_8_pd_ix` does: the core goes from `c0` to `c1` and `r` comes back.
pub open spec fn move_8_pd_ix_effect(c0: ConfiguredCore, c1: ConfiguredCore, r: Result<Cycles>) -> bool {
    &&& exists|m1: ConfiguredCore, src: Result<u32>|
            #[trigger] operator::ay_ix_8_rel(c0, m1, src) && match src {
                Err(e) => r == Err::<Cycles, Exception>(e) && c1 == m1,
                Ok(v) => exists|m2: ConfiguredCore, ea: Result<u32>|
                    #[trigger] effective_address::predecrement_ax_8_rel(m1, m2, ea) && match ea {
                        Err(e) => r == Err::<Cycles, Exception>(e) && c1 == m2,
                        Ok(a) => exists|m3: ConfiguredCore, w: Result<()>|
                            #[trigger] data_written(m2, m3, 8, a, v & 0xff, w) && match w {
                                Err(e) => r == Err::<Cycles, Exception>(e) && c1 == m3,
                                Ok(_) => r == Ok::<Cycles, Exception>(Cycles(18))
                                    && c1 == common::move_flags_outcome(m3, v & 0xff, 0).0,
                            },
                    },
            }
}

/// MOVE to memory: the value is written, then N and Z are set from it.
pub fn move_8_pd_ix(core: &mut ConfiguredCore) -> (r: Result<Cycles>)
    requires
        old(core).wf(),
    ensures
        final(core).wf(),
        move_8_pd_ix_effect(*old(core), *final(core), r),
{
    let ghost c0 = *core;
    let src = operator::ay_ix_8(core);
    let ghost m1 = *core;
    assert(operator::ay_ix_8_rel(c0, m1, src));
    let v = match src {
        Err(e) => {
            return Err(e);
        },
        Ok(v) => v,
    };
    let m = v & 0xff;
    let ea = effective_address::predecrement_ax_8(core);
    let ghost m2 = *core;
    assert(effective_address::predecrement_ax_8_rel(m1, m2, ea));
    let a = match ea {
        Err(e) => {
            return Err(e);
        },
        Ok(a) => a,
    };
    let w = write_sized(core, 8, a, m);
    let ghost m3 = *core;
    assert(data_written(m2, m3, 8, a, m, w));
    match w {
        Err(e) => Err(e),
        Ok(()) => {
            common::move_flags(core, m, 0);
            Ok(Cycles(18))
        },
    }
}

/// What `move_8_di_ix` does: the core goes from `c0` to `c1` and `r` comes back.
pub open spec fn move_8_di_ix_effect(c0: ConfiguredCore, c1: ConfiguredCore, r: Result<Cycles>) -> bool {
    &&& exists|m1: ConfiguredCore, src: Result<u32>|
            #[trigger] operator::ay_ix_8_rel(c0, m1, src) && match src {
                Err(e) => r == Err::<Cycles, Exception>(e) && c1 == m1,
                Ok(v) => exists|m2: ConfiguredCore, ea: Result<u32>|
                    #[trigger] effective_address::displacement_ax_rel(m1, m2, ea) && match ea {
                        Err(e) => r == Err::<Cycles, Exception>(e) && c1 == m2,
                        Ok(a) => exists|m3: ConfiguredCore, w: Result<()>|
                            #[trigger] data_written(m2, m3, 8, a, v & 0xff, w) && match w {
                                Err(e) => r == Err::<Cycles, Exception>(e) && c1 == m3,
                                Ok(_) => r == Ok::<Cycles, Exception>(Cycles(22))
                                    && c1 == common::move_flags_outcome(m3, v & 0xff, 0).0,
                            },
                    },
            }
}

/// MOVE to memory: the value is written, then N and Z are set from it.
pub fn move_8_di_ix(core: &mut ConfiguredCore) -> (r: Result<Cycles>)
    requires
        old(core).wf(),
    ensures
        final(core).wf(),
        move_8_di_ix_effect(*old(core), *final(core), r),
{
    let ghost c0 = *core;
    let src = operator::ay_ix_8(core);
    let ghost m1 = *core;
    assert(operator::ay_ix_8_rel(c0, m1, src));
    let v = match src {
        Err(e) => {
            return Err(e);
        },
        Ok(v) => v,
    };
    let m = v & 0xff;
    let ea = effective_address::displacement_ax(core);
    let ghost m2 = *core;
    assert(effective_address::displacement_ax_rel(m1, m2, ea));
    let a = match ea {
        Err(e) => {
            return Err(e);
        },
        Ok(a) => a,
    };
    let w = write_sized(core, 8, a, m);
    let ghost m3 = *core;
    assert(data_written(m2, m3, 8, a, m, w));
    match w {
        Err(e) => Err(e),
        Ok(()) => {
            common::move_flags(core, m, 0);
            Ok(Cycles(22))
        },
    }
}

/// What `move_8_ix_ix` does: the core goes from `c0` to `c1` and `r` comes back.
pub open spec fn move_8_ix_ix_effect(c0: ConfiguredCore, c1: ConfiguredCore, r: Result<Cycles>) -> bool {
    &&& exists|m1: ConfiguredCore, src: Result<u32>|
            #[trigger] operator::ay_ix_8_rel(c0, m1, src) && match src {
                Err(e) => r == Err::<Cycles, Exception>(e) && c1 == m1,
                Ok(v) => exists|m2: ConfiguredCore, ea: Result<u32>|
                    #[trigger] effective_address::index_ax_rel(m1, m2, ea) && match ea {
                        Err(e) => r == Err::<Cycles, Exception>(e) && c1 == m2,
                        Ok(a) => exists|m3: ConfiguredCore, w: Result<()>|
                            #[trigger] data_written(m2, m3, 8, a, v & 0xff, w) && match w {
                                Err(e) => r == Err::<Cycles, Exception>(e) && c1 == m3,
                                Ok(_) => r == Ok::<Cycles, Exception>(Cycles(24))
                                    && c1 == common::move_flags_outcome(m3, v & 0xff, 0).0,
                            },
                    },
            }
}

/// MOVE to memory: the value is written, then N and Z are set from it.
pub fn move_8_ix_ix(core: &mut ConfiguredCore) -> (r: Result<Cycles>)
    requires
        old(core).wf(),
    ensures
        final(core).wf(),
        move_8_ix_ix_effect(*old(core), *final(core), r),
{
    let ghost c0 = *core;
    let src = operator::ay_ix_8(core);
    let ghost m1 = *core;
    assert(operator::ay_ix_8_rel(c0, m1, src));
    let v = match src {
        Err(e) => {
            return Err(e);
        },
        Ok(v) => v,
    };
    let m = v & 0xff;
    let ea = effective_address::index_ax(core);
    let ghost m2 = *core;
    assert(effective_address::index_ax_rel(m1, m2, ea));
    let a = match ea {
        Err(e) => {
            return Err(e);
        },
        Ok(a) => a,
    };
    let w = write_sized(core, 8, a, m);
    let ghost m3 = *core;
    assert(data_written(m2, m3, 8, a, m, w));
    match w {
        Err(e) => Err(e),
        Ok(()) => {
            common::move_flags(core, m, 0);
            Ok(Cycles(24))
        },
    }
}

/// What `move_8_aw_ix` does: the core goes from `c0` to `c1` and `r` comes back.
pub open spec fn move_8_aw_ix_effect(c0: ConfiguredCore, c1: ConfiguredCore, r: Result<Cycles>) -> bool {
    &&& exists|m1: ConfiguredCore, src: Result<u32>|
            #[trigger] operator::ay_ix_8_rel(c0, m1, src) && match src {
                Err(e) => r == Err::<Cycles, Exception>(e) && c1 == m1,
                Ok(v) => exists|m2: ConfiguredCore, ea: Result<u32>|
                    #[trigger] effective_address::absolute_word_rel(m1, m2, ea) && match ea {
                        Err(e) => r == Err::<Cycles, Exception>(e) && c1 == m2,
                        Ok(a) => exists|m3: ConfiguredCore, w: Result<()>|
                            #[trigger] data_written(m2, m3, 8, a, v & 0xff, w) && match w {
                                Err(e) => r == Err::<Cycles, Exception>(e) && c1 == m3,
                                Ok(_) => r == Ok::<Cycles, Exception>(Cycles(22))
                                    && c1 == common::move_flags_outcome(m3, v & 0xff, 0).0,
                            },
                    },
            }
}

/// MOVE to memory: the value is written, then N and Z are set from it.
pub fn move_8_aw_ix(core: &mut ConfiguredCore) -> (r: Result<Cycles>)
    requires
        old(core).wf(),
    ensures
        final(core).wf(),
        move_8_aw_ix_effect(*old(core), *final(core), r),
{
    let ghost c0 = *core;
    let src = operator::ay_ix_8(core);
    let ghost m1 = *core;
    assert(operator::ay_ix_8_rel(c0, m1, src));
    let v = match src {
        Err(e) => {
            return Err(e);
        },
        Ok(v) => v,
    };
    let m = v & 0xff;
    let ea = effective_address::absolute_word(core);
    let ghost m2 = *core;
    assert(effective_address::absolute_word_rel(m1, m2, ea));
    let a = match ea {
        Err(e) => {
            return Err(e);
        },
        Ok(a) => a,
    };
    let w = write_sized(core, 8, a, m);
    let ghost m3 = *core;
    assert(data_written(m2, m3, 8, a, m, w));
    match w {
        Err(e) => Err(e),
        Ok(()) => {
            common::move_flags(core, m, 0);
            Ok(Cycles(22))
        },
    }
}

/// What `move_8_al_ix` does: the core goes from `c0` to `c1` and `r` comes back.
pub open spec fn move_8_al_ix_effect(c0: ConfiguredCore, c1: ConfiguredCore, r: Result<Cycles>) -> bool {
    &&& exists|m1: ConfiguredCore, src: Result<u32>|
            #[trigger] operator::ay_ix_8_rel(c0, m1, src) && match src {
                Err(e) => r == Err::<Cycles, Exception>(e) && c1 == m1,
                Ok(v) => exists|m2: ConfiguredCore, ea: Result<u32>|
                    #[trigger] effective_address::absolute_long_rel(m1, m2, ea) && match ea {
                        Err(e) => r == Err::<Cycles, Exception>(e) && c1 == m2,
                        Ok(a) => exists|m3: ConfiguredCore, w: Result<()>|
                            #[trigger] data_written(m2, m3, 8, a, v & 0xff, w) && match w {
                                Err(e) => r == Err::<Cycles, Exception>(e) && c1 == m3,
                                Ok(_) => r == Ok::<Cycles, Exception>(Cycles(26))
                                    && c1 == common::move_flags_outcome(m3, v & 0xff, 0).0,
                            },
                    },
            }
}

/// MOVE to memory: the value is written, then N and Z are set from it.
pub fn move_8_al_ix(core: &mut ConfiguredCore) -> (r: Result<Cycles>)
    requires
        old(core).wf(),
    ensures
        final(core).wf(),
        move_8_al_ix_effect(*old(core), *final(core), r),
{
    let ghost c0 = *core;
    let src = operator::ay_ix_8(core);
    let ghost m1 = *core;
    assert(operator::ay_ix_8_rel(c0, m1, src));
    let v = match src {
        Err(e) => {
            return Err(e);
        },
        Ok(v) => v,
    };
    let m = v & 0xff;
    let ea = effective_address::absolute_long(core);
    let ghost m2 = *core;
    assert(effective_address::absolute_long_rel(m1, m2, ea));
    let a = match ea {
        Err(e) => {
            return Err(e);
        },
        Ok(a) => a,
    };
    let w = write_sized(core, 8, a, m);
    let ghost m3 = *core;
    assert(data_written(m2, m3, 8, a, m, w));
    match w {
        Err(e) => Err(e),
        Ok(()) => {
            common::move_flags(core, m, 0);
            Ok(Cycles(26))
        },
    }
}

/// What `move_8_dn_aw` does: the core goes from `c0` to `c1` and `r` comes back.
pub open spec fn move_8_dn_aw_effect(c0: ConfiguredCore, c1: ConfiguredCore, r: Result<Cycles>) -> bool {
    &&& exists|mid: ConfiguredCore, src: Result<u32>|
            #[trigger] operator::aw_8_rel(c0, mid, src) && match src {
                Err(e) => r == Err::<Cycles, Exception>(e) && c1 == mid,
                Ok(v) => {
                    let m = v & 0xff;
                    let reg = ir_dx(mid.ir);
                    &&& r == Ok::<Cycles, Exception>(Cycles(12))
                    &&& reg_set(common::move_flags_outcome(mid, m, 0).0, c1, reg, merged(mid.dar[reg], m, 8))
                },
            }
}

/// MOVE into Dx, with N and Z set from the value moved.
pub fn move_8_dn_aw(core: &mut ConfiguredCore) -> (r: Result<Cycles>)
    requires
        old(core).wf(),
    ensures
        final(core).wf(),
        move_8_dn_aw_effect(*old(core), *final(core), r),
{
    let ghost c0 = *core;
    let src = operator::aw_8(core);
    let ghost mid = *core;
    assert(operator::aw_8_rel(c0, mid, src));
    match src {
        Err(e) => Err(e),
        Ok(v) => {
            let m = v & 0xff;
            let reg = reg_dx(core.ir);
            let dst = core.dar[reg];
            common::move_flags(core, m, 0);
            set_reg(core, reg, merge(dst, m, 8));
            Ok(Cycles(12))
        },
    }
}

/// What `move_8_ai_aw` does: the core goes from `c0` to `c1` and `r` comes back.
pub open spec fn move_8_ai_aw_effect(c0: ConfiguredCore, c1: ConfiguredCore, r: Result<Cycles>) -> bool {
    &&& exists|m1: ConfiguredCore, src: Result<u32>|
            #[trigger] operator::aw_8_rel(c0, m1, src) && match src {
                Err(e) => r == Err::<Cycles, Exception>(e) && c1 == m1,
                Ok(v) => exists|m2: ConfiguredCore, ea: Result<u32>|
                    #[trigger] effective_address::address_indirect_ax_rel(m1, m2, ea) && match ea {
                        Err(e) => r == Err::<Cycles, Exception>(e) && c1 == m2,
                        Ok(a) => exists|m3: ConfiguredCore, w: Result<()>|
                            #[trigger] data_written(m2, m3, 8, a, v & 0xff, w) && match w {
                                Err(e) => r == Err::<Cycles, Exception>(e) && c1 == m3,
                                Ok(_) => r == Ok::<Cycles, Exception>(Cycles(16))
                                    && c1 == common::move_flags_outcome(m3, v & 0xff, 0).0,
                            },
                    },
            }
}

/// MOVE to memory: the value is written, then N and Z are set from it.
pub fn move_8_ai_aw(core: &mut ConfiguredCore) -> (r: Result<Cycles>)
    requires
        old(core).wf(),
    ensures
        final(core).wf(),
        move_8_ai_aw_effect(*old(core), *final(core), r),
{
    let ghost c0 = *core;
    let src = operator::aw_8(core);
    let ghost m1 = *core;
    assert(operator::aw_8_rel(c0, m1, src));
    let v = match src {
        Err(e) => {
            return Err(e);
        },
        Ok(v) => v,
    };
    let m = v & 0xff;
    let ea = effective_address::address_indirect_ax(core);
    let ghost m2 = *core;
    assert(effective_address::address_indirect_ax_rel(m1, m2, ea));
    let a = match ea {
        Err(e) => {
            return Err(e);
        },
        Ok(a) => a,
    };
    let w = write_sized(core, 8, a, m);
    let ghost m3 = *core;
    assert(data_written(m2, m3, 8, a, m, w));
    match w {
        Err(e) => Err(e),
        Ok(()) => {
            common::move_flags(core, m, 0);
            Ok(Cycles(16))
        },
    }
}

/// What `move_8_pi_aw` does: the core goes from `c0` to `c1` and `r` comes back.
pub open spec fn move_8_pi_aw_effect(c0: ConfiguredCore, c1: ConfiguredCore, r: Result<Cycles>) -> bool {
    &&& exists|m1: ConfiguredCore, src: Result<u32>|
            #[trigger] operator::aw_8_rel(c0, m1, src) && match src {
                Err(e) => r == Err::<Cycles, Exception>(e) && c1 == m1,
                Ok(v) => exists|m2: ConfiguredCore, ea: Result<u32>|
                    #[trigger] effective_address::postincrement_ax_8_rel(m1, m2, ea) && match ea {
                        Err(e) => r == Err::<Cycles, Exception>(e) && c1 == m2,
                        Ok(a) => exists|m3: ConfiguredCore, w: Result<()>|
                            #[trigger] data_written(m2, m3, 8, a, v & 0xff, w) && match w {
                                Err(e) => r == Err::<Cycles, Exception>(e) && c1 == m3,
                                Ok(_) => r == Ok::<Cycles, Exception>(Cycles(16))
                                    && c1 == common::move_flags_outcome(m3, v & 0xff, 0).0,
                            },
                    },
            }
}

/// MOVE to memory: the value is written, then N and Z are set from it.
pub fn move_8_pi_aw(core: &mut ConfiguredCore) -> (r: Result<Cycles>)
    requires
        old(core).wf(),
    ensures
        final(core).wf(),
        move_8_pi_aw_effect(*old(core), *final(core), r),
{
    let ghost c0 = *core;
    let src = operator::aw_8(core);
    let ghost m1 = *core;
    assert(operator::aw_8_rel(c0, m1, src));
    let v = match src {
        Err(e) => {
            return Err(e);
        },
        Ok(v) => v,
    };
    let m = v & 0xff;
    let ea = effective_address::postincrement_ax_8(core);
    let ghost m2 = *core;
    assert(effective_address::postincrement_ax_8_rel(m1, m2, ea));
    let a = match ea {
        Err(e) => {
            return Err(e);
        },
        Ok(a) => a,
    };
    let w = write_sized(core, 8, a, m);
    let ghost m3 = *core;
    assert(data_written(m2, m3, 8, a, m, w));
    match w {
        Err(e) => Err(e),
        Ok(()) => {
            common::move_flags(core, m, 0);
            Ok(Cycles(16))
        },
    }
}

/// What `move_8_pd_aw` does: the core goes from `c0` to `c1` and `r` comes back.
pub open spec fn move_8_pd_aw_effect(c0: ConfiguredCore, c1: ConfiguredCore, r: Result<Cycles>) -> bool {
    &&& exists|m1: ConfiguredCore, src: Result<u32>|
            #[trigger] operator::aw_8_rel(c0, m1, src) && match src {
                Err(e) => r == Err::<Cycles, Exception>(e) && c1 == m1,
                Ok(v) => exists|m2: ConfiguredCore, ea: Result<u32>|
                    #[trigger] effective_address::predecrement_ax_8_rel(m1, m2, ea) && match ea {
                        Err(e) => r == Err::<Cycles, Exception>(e) && c1 == m2,
                        Ok(a) => exists|m3: ConfiguredCore, w: Result<()>|
                            #[trigger] data_written(m2, m3, 8, a, v & 0xff, w) && match w {
                                Err(e) => r == Err::<Cycles, Exception>(e) && c1 == m3,
                                Ok(_) => r == Ok::<Cycles, Exception>(Cycles(16))
                                    && c1 == common::move_flags_outcome(m3, v & 0xff, 0).0,
                            },
                    },
            }
}

/// MOVE to memory: the value is written, then N and Z are set from it.
pub fn move_8_pd_aw(core: &mut ConfiguredCore) -> (r: Result<Cycles>)
    requires
        old(core).wf(),
    ensures
        final(core).wf(),
        move_8_pd_aw_effect(*old(core), *final(core), r),
{
    let ghost c0 = *core;
    let src = operator::aw_8(core);
    let ghost m1 = *core;
    assert(operator::aw_8_rel(c0, m1, src));
    let v = match src {
        Err(e) => {
            return Err(e);
        },
        Ok(v) => v,
    };
    let m = v & 0xff;
    let ea = effective_address::predecrement_ax_8(core);
    let ghost m2 = *core;
    assert(effective_address::predecrement_ax_8_rel(m1, m2, ea));
    let a = match ea {
        Err(e) => {
            return Err(e);
        },
        Ok(a) => a,
    };
    let w = write_sized(core, 8, a, m);
    let ghost m3 = *core;
    assert(data_written(m2, m3, 8, a, m, w));
    match w {
        Err(e) => Err(e),
        Ok(()) => {
            common::move_flags(core, m, 0);
            Ok(Cycles(16))
        },
    }
}

/// What `move_8_di_aw` does: the core goes from `c0` to `c1` and `r` comes back.
pub open spec fn move_8_di_aw_effect(c0: ConfiguredCore, c1: ConfiguredCore, r: Result<Cycles>) -> bool {
    &&& exists|m1: ConfiguredCore, src: Result<u32>|
            #[trigger] operator::aw_8_rel(c0, m1, src) && match src {
                Err(e) => r == Err::<Cycles, Exception>(e) && c1 == m1,
                Ok(v) => exists|m2: ConfiguredCore, ea: Result<u32>|
                    #[trigger] effective_address::displacement_ax_rel(m1, m2, ea) && match ea {
                        Err(e) => r == Err::<Cycles, Exception>(e) && c1 == m2,
                        Ok(a) => exists|m3: ConfiguredCore, w: Result<()>|
                            #[trigger] data_written(m2, m3, 8, a, v & 0xff, w) && match w {
                                Err(e) => r == Err::<Cycles, Exception>(e) && c1 == m3,
                                Ok(_) => r == Ok::<Cycles, Exception>(Cycles(20))
                                    && c1 == common::move_flags_outcome(m3, v & 0xff, 0).0,
                            },
                    },
            }
}

/// MOVE to memory: the value is written, then N and Z are set from it.
pub fn move_8_di_aw(core: &mut ConfiguredCore) -> (r: Result<Cycles>)
    requires
        old(core).wf(),
    ensures
        final(core).wf(),
        move_8_di_aw_effect(*old(core), *final(core), r),
{
    let ghost c0 = *core;
    let src = operator::aw_8(core);
    let ghost m1 = *core;
    assert(operator::aw_8_rel(c0, m1, src));
    let v = match src {
        Err(e) => {
            return Err(e);
        },
        Ok(v) => v,
    };
    let m = v & 0xff;
    let ea = effective_address::displacement_ax(core);
    let ghost m2 = *core;
    assert(effective_address::displacement_ax_rel(m1, m2, ea));
    let a = match ea {
        Err(e) => {
            return Err(e);
        },
        Ok(a) => a,
    };
    let w = write_sized(core, 8, a, m);
    let ghost m3 = *core;
    assert(data_written(m2, m3, 8, a, m, w));
    match w {
        Err(e) => Err(e),
        Ok(()) => {
            common::move_flags(core, m, 0);
            Ok(Cycles(20))
        },
    }
}

/// What `move_8_ix_aw` does: the core goes from `c0` to `c1` and `r` comes back.
pub open spec fn move_8_ix_aw_effect(c0: ConfiguredCore, c1: ConfiguredCore, r: Result<Cycles>) -> bool {
    &&& exists|m1: ConfiguredCore, src: Result<u32>|
            #[trigger] operator::aw_8_rel(c0, m1, src) && match src {
                Err(e) => r == Err::<Cycles, Exception>(e) && c1 == m1,
                Ok(v) => exists|m2: ConfiguredCore, ea: Result<u32>|
                    #[trigger] effective_address::index_ax_rel(m1, m2, ea) && match ea {
                        Err(e) => r == Err::<Cycles, Exception>(e) && c1 == m2,
                        Ok(a) => exists|m3: ConfiguredCore, w: Result<()>|
                            #[trigger] data_written(m2, m3, 8, a, v & 0xff, w) && match w {
                                Err(e) => r == Err::<Cycles, Exception>(e) && c1 == m3,
                                Ok(_) => r == Ok::<Cycles, Exception>(Cycles(22))
                                    && c1 == common::move_flags_outcome(m3, v & 0xff, 0).0,
                            },
                    },
            }
}

/// MOVE to memory: the value is written, then N and Z are set from it.
pub fn move_8_ix_aw(core: &mut ConfiguredCore) -> (r: Result<Cycles>)
    requires
        old(core).wf(),
    ensures
        final(core).wf(),
        move_8_ix_aw_effect(*old(core), *final(core), r),
{
    let ghost c0 = *core;
    let src = operator::aw_8(core);
    let ghost m1 = *core;
    assert(operator::aw_8_rel(c0, m1, src));
    let v = match src {
        Err(e) => {
            return Err(e);
        },
        Ok(v) => v,
    };
    let m = v & 0xff;
    let ea = effective_address::index_ax(core);
    let ghost m2 = *core;
    assert(effective_address::index_ax_rel(m1, m2, ea));
    let a = match ea {
        Err(e) => {
            return Err(e);
        },
        Ok(a) => a,
    };
    let w = write_sized(core, 8, a, m);
    let ghost m3 = *core;
    assert(data_written(m2, m3, 8, a, m, w));
    match w {
        Err(e) => Err(e),
        Ok(()) => {
            common::move_flags(core, m, 0);
            Ok(Cycles(22))
        },
    }
}

/// What `move_8_aw_aw` does: the core goes from `c0` to `c1` and `r` comes back.
pub open spec fn move_8_aw_aw_effect(c0: ConfiguredCore, c1: ConfiguredCore, r: Result<Cycles>) -> bool {
    &&& exists|m1: ConfiguredCore, src: Result<u32>|
            #[trigger] operator::aw_8_rel(c0, m1, src) && match src {
                Err(e) => r == Err::<Cycles, Exception>(e) && c1 == m1,
                Ok(v) => exists|m2: ConfiguredCore, ea: Result<u32>|
                    #[trigger] effective_address::absolute_word_rel(m1, m2, ea) && match ea {
                        Err(e) => r == Err::<Cycles, Exception>(e) && c1 == m2,
                        Ok(a) => exists|m3: ConfiguredCore, w: Result<()>|
                            #[trigger] data_written(m2, m3, 8, a, v & 0xff, w) && match w {
                                Err(e) => r == Err::<Cycles, Exception>(e) && c1 == m3,
                                Ok(_) => r == Ok::<Cycles, Exception>(Cycles(20))
                                    && c1 == common::move_flags_outcome(m3, v & 0xff, 0).0,
                            },
                    },
            }
}

/// MOVE to memory: the value is written, then N and Z are set from it.
pub fn move_8_aw_aw(core: &mut ConfiguredCore) -> (r: Result<Cycles>)
    requires
        old(core).wf(),
    ensures
        final(core).wf(),
        move_8_aw_aw_effect(*old(core), *final(core), r),
{
    let ghost c0 = *core;
    let src = operator::aw_8(core);
    let ghost m1 = *core;
    assert(operator::aw_8_rel(c0, m1, src));
    let v = match src {
        Err(e) => {
            return Err(e);
        },
        Ok(v) => v,
    };
    let m = v & 0xff;
    let ea = effective_address::absolute_word(core);
    let ghost m2 = *core;
    assert(effective_address::absolute_word_rel(m1, m2, ea));
    let a = match ea {
        Err(e) => {
            return Err(e);
        },
        Ok(a) => a,
    };
    let w = write_sized(core, 8, a, m);
    let ghost m3 = *core;
    assert(data_written(m2, m3, 8, a, m, w));
    match w {
        Err(e) => Err(e),
        Ok(()) => {
            common::move_flags(core, m, 0);
            Ok(Cycles(20))
        },
    }
}

/// What `move_8_al_aw` does: the core goes from `c0` to `c1` and `r` comes back.
pub open spec fn move_8_al_aw_effect(c0: ConfiguredCore, c1: ConfiguredCore, r: Result<Cycles>) -> bool {
    &&& exists|m1: ConfiguredCore, src: Result<u32>|
            #[trigger] operator::aw_8_rel(c0, m1, src) && match src {
                Err(e) => r == Err::<Cycles, Exception>(e) && c1 == m1,
                Ok(v) => exists|m2: ConfiguredCore, ea: Result<u32>|
                    #[trigger] effective_address::absolute_long_rel(m1, m2, ea) && match ea {
                        Err(e) => r == Err::<Cycles, Exception>(e) && c1 == m2,
                        Ok(a) => exists|m3: ConfiguredCore, w: Result<()>|
                            #[trigger] data_written(m2, m3, 8, a, v & 0xff, w) && match w {
                                Err(e) => r == Err::<Cycles, Exception>(e) && c1 == m3,
                                Ok(_) => r == Ok::<Cycles, Exception>(Cycles(24))
                                    && c1 == common::move_flags_outcome(m3, v & 0xff, 0).0,
                            },
                    },
            }
}

/// MOVE to memory: the value is written, then N and Z are set from it.
pub fn move_8_al_aw(core: &mut ConfiguredCore) -> (r: Result<Cycles>)
    requires
        old(core).wf(),
    ensures
        final(core).wf(),
        move_8_al_aw_effect(*old(core), *final(core), r),
{
    let ghost c0 = *core;
    let src = operator::aw_8(core);
    let ghost m1 = *core;
    assert(operator::aw_8_rel(c0, m1, src));
    let v = match src {
        Err(e) => {
            return Err(e);
        },
        Ok(v) => v,
    };
    let m = v & 0xff;
    let ea = effective_address::absolute_long(core);
    let ghost m2 = *core;
    assert(effective_address::absolute_long_rel(m1, m2, ea));
    let a = match ea {
        Err(e) => {
            return Err(e);
        },
        Ok(a) => a,
    };
    let w = write_sized(core, 8, a, m);
    let ghost m3 = *core;
    assert(data_written(m2, m3, 8, a, m, w));
    match w {
        Err(e) => Err(e),
        Ok(()) => {
            common::move_flags(core, m, 0);
            Ok(Cycles(24))
        },
    }
}

/// What `move_8_dn_al` does: the core goes from `c0` to `c1` and `r` comes back.
pub open spec fn move_8_dn_al_effect(c0: ConfiguredCore, c1: ConfiguredCore, r: Result<Cycles>) -> bool {
    &&& exists|mid: ConfiguredCore, src: Result<u32>|
            #[trigger] operator::al_8_rel(c0, mid, src) && match src {
                Err(e) => r == Err::<Cycles, Exception>(e) && c1 == mid,
                Ok(v) => {
                    let m = v & 0xff;
                    let reg = ir_dx(mid.ir);
                    &&& r == Ok::<Cycles, Exception>(Cycles(16))
                    &&& reg_set(common::move_flags_outcome(mid, m, 0).0, c1, reg, merged(mid.dar[reg], m, 8))
                },
            }
}

/// MOVE into Dx, with N and Z set from the value moved.
pub fn move_8_dn_al(core: &mut ConfiguredCore) -> (r: Result<Cycles>)
    requires
        old(core).wf(),
    ensures
        final(core).wf(),
        move_8_dn_al_effect(*old(core), *final(core), r),
{
    let ghost c0 = *core;
    let src = operator::al_8(core);
    let ghost mid = *core;
    assert(operator::al_8_rel(c0, mid, src));
    match src {
        Err(e) => Err(e),
        Ok(v) => {
            let m = v & 0xff;
            let reg = reg_dx(core.ir);
            let dst = core.dar[reg];
            common::move_flags(core, m, 0);
            set_reg(core, reg, merge(dst, m, 8));
            Ok(Cycles(16))
        },
    }
}

/// What `move_8_ai_al` does: the core goes from `c0` to `c1` and `r` comes back.
pub open spec fn move_8_ai_al_effect(c0: ConfiguredCore, c1: ConfiguredCore, r: Result<Cycles>) -> bool {
    &&& exists|m1: ConfiguredCore, src: Result<u32>|
            #[trigger] operator::al_8_rel(c0, m1, src) && match src {
                Err(e) => r == Err::<Cycles, Exception>(e) && c1 == m1,
                Ok(v) => exists|m2: ConfiguredCore, ea: Result<u32>|
                    #[trigger] effective_address::address_indirect_ax_rel(m1, m2, ea) && match ea {
                        Err(e) => r == Err::<Cycles, Exception>(e) && c1 == m2,
                        Ok(a) => exists|m3: ConfiguredCore, w: Result<()>|
                            #[trigger] data_written(m2, m3, 8, a, v & 0xff, w) && match w {
                                Err(e) => r == Err::<Cycles, Exception>(e) && c1 == m3,
                                Ok(_) => r == Ok::<Cycles, Exception>(Cycles(20))
                                    && c1 == common::move_flags_outcome(m3, v & 0xff, 0).0,
                            },
                    },
            }
}

/// MOVE to memory: the value is written, then N and Z are set from it.
pub fn move_8_ai_al(core: &mut ConfiguredCore) -> (r: Result<Cycles>)
    requires
        old(core).wf(),
    ensures
        final(core).wf(),
        move_8_ai_al_effect(*old(core), *final(core), r),
{
    let ghost c0 = *core;
    let src = operator::al_8(core);
    let ghost m1 = *core;
    assert(operator::al_8_rel(c0, m1, src));
    let v = match src {
        Err(e) => {
            return Err(e);
        },
        Ok(v) => v,
    };
    let m = v & 0xff;
    let ea = effective_address::address_indirect_ax(core);
    let ghost m2 = *core;
    assert(effective_address::address_indirect_ax_rel(m1, m2, ea));
    let a = match ea {
        Err(e) => {
            return Err(e);
        },
        Ok(a) => a,
    };
    let w = write_sized(core, 8, a, m);
    let ghost m3 = *core;
    assert(data_written(m2, m3, 8, a, m, w));
    match w {
        Err(e) => Err(e),
        Ok(()) => {
            common::move_flags(core, m, 0);
            Ok(Cycles(20))
        },
    }
}

/// What `move_8_pi_al` does: the core goes from `c0` to `c1` and `r` comes back.
pub open spec fn move_8_pi_al_effect(c0: ConfiguredCore, c1: ConfiguredCore, r: Result<Cycles>) -> bool {
    &&& exists|m1: ConfiguredCore, src: Result<u32>|
            #[trigger] operator::al_8_rel(c0, m1, src) && match src {
                Err(e) => r == Err::<Cycles, Exception>(e) && c1 == m1,
                Ok(v) => exists|m2: ConfiguredCore, ea: Result<u32>|
                    #[trigger] effective_address::postincrement_ax_8_rel(m1, m2, ea) && match ea {
                        Err(e) => r == Err::<Cycles, Exception>(e) && c1 == m2,
                        Ok(a) => exists|m3: ConfiguredCore, w: Result<()>|
                            #[trigger] data_written(m2, m3, 8, a, v & 0xff, w) && match w {
                                Err(e) => r == Err::<Cycles, Exception>(e) && c1 == m3,
                                Ok(_) => r == Ok::<Cycles, Exception>(Cycles(20))
                                    && c1 == common::move_flags_outcome(m3, v & 0xff, 0).0,
                            },
                    },
            }
}

/// MOVE to memory: the value is written, then N and Z are set from it.
pub fn move_8_pi_al(core: &mut ConfiguredCore) -> (r: Result<Cycles>)
    requires
        old(core).wf(),
    ensures
        final(core).wf(),
        move_8_pi_al_effect(*old(core), *final(core), r),
{
    let ghost c0 = *core;
    let src = operator::al_8(core);
    let ghost m1 = *core;
    assert(operator::al_8_rel(c0, m1, src));
    let v = match src {
        Err(e) => {
            return Err(e);
        },
        Ok(v) => v,
    };
    let m = v & 0xff;
    let ea = effective_address::postincrement_ax_8(core);
    let ghost m2 = *core;
    assert(effective_address::postincrement_ax_8_rel(m1, m2, ea));
    let a = match ea {
        Err(e) => {
            return Err(e);
        },
        Ok(a) => a,
    };
    let w = write_sized(core, 8, a, m);
    let ghost m3 = *core;
    assert(data_written(m2, m3, 8, a, m, w));
    match w {
        Err(e) => Err(e),
        Ok(()) => {
            common::move_flags(core, m, 0);
            Ok(Cycles(20))
        },
    }
}

/// What `move_8_pd_al` does: the core goes from `c0` to `c1` and `r` comes back.
pub open spec fn move_8_pd_al_effect(c0: ConfiguredCore, c1: ConfiguredCore, r: Result<Cycles>) -> bool {
    &&& exists|m1: ConfiguredCore, src: Result<u32>|
            #[trigger] operator::al_8_rel(c0, m1, src) && match src {
                Err(e) => r == Err::<Cycles, Exception>(e) && c1 == m1,
                Ok(v) => exists|m2: ConfiguredCore, ea: Result<u32>|
                    #[trigger] effective_address::predecrement_ax_8_rel(m1, m2, ea) && match ea {
                        Err(e) => r == Err::<Cycles, Exception>(e) && c1 == m2,
                        Ok(a) => exists|m3: ConfiguredCore, w: Result<()>|
                            #[trigger] data_written(m2, m3, 8, a, v & 0xff, w) && match w {
                                Err(e) => r == Err::<Cycles, Exception>(e) && c1 == m3,
                                Ok(_) => r == Ok::<Cycles, Exception>(Cycles(20))
                                    && c1 == common::move_flags_outcome(m3, v & 0xff, 0).0,
                            },
                    },
            }
}

/// MOVE to memory: the value is written, then N and Z are set from it.
pub fn move_8_pd_al(core: &mut ConfiguredCore) -> (r: Result<Cycles>)
    requires
        old(core).wf(),
    ensures
        final(core).wf(),
        move_8_pd_al_effect(*old(core), *final(core), r),
{
    let ghost c0 = *core;
    let src = operator::al_8(core);
    let ghost m1 = *core;
    assert(operator::al_8_rel(c0, m1, src));
    let v = match src {
        Err(e) => {
            return Err(e);
        },
        Ok(v) => v,
    };
    let m = v & 0xff;
    let ea = effective_address::predecrement_ax_8(core);
    let ghost m2 = *core;
    assert(effective_address::predecrement_ax_8_rel(m1, m2, ea));
    let a = match ea {
        Err(e) => {
            return Err(e);
        },
        Ok(a) => a,
    };
    let w = write_sized(core, 8, a, m);
    let ghost m3 = *core;
    assert(data_written(m2, m3, 8, a, m, w));
    match w {
        Err(e) => Err(e),
        Ok(()) => {
            common::move_flags(core, m, 0);
            Ok(Cycles(20))
        },
    }
}

/// What `move_8_di_al` does: the core goes from `c0` to `c1` and `r` comes back.
pub open spec fn move_8_di_al_effect(c0: ConfiguredCore, c1: ConfiguredCore, r: Result<Cycles>) -> bool {
    &&& exists|m1: ConfiguredCore, src: Result<u32>|
            #[trigger] operator::al_8_rel(c0, m1, src) && match src {
                Err(e) => r == Err::<Cycles, Exception>(e) && c1 == m1,
                Ok(v) => exists|m2: ConfiguredCore, ea: Result<u32>|
                    #[trigger] effective_address::displacement_ax_rel(m1, m2, ea) && match ea {
                        Err(e) => r == Err::<Cycles, Exception>(e) && c1 == m2,
                        Ok(a) => exists|m3: ConfiguredCore, w: Result<()>|
                            #[trigger] data_written(m2, m3, 8, a, v & 0xff, w) && match w {
                                Err(e) => r == Err::<Cycles, Exception>(e) && c1 == m3,
                                Ok(_) => r == Ok::<Cycles, Exception>(Cycles(24))
                                    && c1 == common::move_flags_outcome(m3, v & 0xff, 0).0,
                            },
                    },
            }
}

/// MOVE to memory: the value is written, then N and Z are set from it.
pub fn move_8_di_al(core: &mut ConfiguredCore) -> (r: Result<Cycles>)
    requires
        old(core).wf(),
    ensures
        final(core).wf(),
        move_8_di_al_effect(*old(core), *final(core), r),
{
    let ghost c0 = *core;
    let src = operator::al_8(core);
    let ghost m1 = *core;
    assert(operator::al_8_rel(c0, m1, src));
    let v = match src {
        Err(e) => {
            return Err(e);
        },
        Ok(v) => v,
    };
    let m = v & 0xff;
    let ea = effective_address::displacement_ax(core);
    let ghost m2 = *core;
    assert(effective_address::displacement_ax_rel(m1, m2, ea));
    let a = match ea {
        Err(e) => {
            return Err(e);
        },
        Ok(a) => a,
    };
    let w = write_sized(core, 8, a, m);
    let ghost m3 = *core;
    assert(data_written(m2, m3, 8, a, m, w));
    match w {
        Err(e) => Err(e),
        Ok(()) => {
            common::move_flags(core, m, 0);
            Ok(Cycles(24))
        },
    }
}

/// What `move_8_ix_al` does: the core goes from `c0` to `c1` and `r` comes back.
pub open spec fn move_8_ix_al_effect(c0: ConfiguredCore, c1: ConfiguredCore, r: Result<Cycles>) -> bool {
    &&& exists|m1: ConfiguredCore, src: Result<u32>|
            #[trigger] operator::al_8_rel(c0, m1, src) && match src {
                Err(e) => r == Err::<Cycles, Exception>(e) && c1 == m1,
                Ok(v) => exists|m2: ConfiguredCore, ea: Result<u32>|
                    #[trigger] effective_address::index_ax_rel(m1, m2, ea) && match ea {
                        Err(e) => r == Err::<Cycles, Exception>(e) && c1 == m2,
                        Ok(a) => exists|m3: ConfiguredCore, w: Result<()>|
                            #[trigger] data_written(m2, m3, 8, a, v & 0xff, w) && match w {
                                Err(e) => r == Err::<Cycles, Exception>(e) && c1 == m3,
                                Ok(_) => r == Ok::<Cycles, Exception>(Cycles(26))
                                    && c1 == common::move_flags_outcome(m3, v & 0xff, 0).0,
                            },
                    },
            }
}

/// MOVE to memory: the value is written, then N and Z are set from it.
pub fn move_8_ix_al(core: &mut ConfiguredCore) -> (r: Result<Cycles>)
    requires
        old(core).wf(),
    ensures
        final(core).wf(),
        move_8_ix_al_effect(*old(core), *final(core), r),
{
    let ghost c0 = *core;
    let src = operator::al_8(core);
    let ghost m1 = *core;
    assert(operator::al_8_rel(c0, m1, src));
    let v = match src {
        Err(e) => {
            return Err(e);
        },
        Ok(v) => v,
    };
    let m = v & 0xff;
    let ea = effective_address::index_ax(core);
    let ghost m2 = *core;
    assert(effective_address::index_ax_rel(m1, m2, ea));
    let a = match ea {
        Err(e) => {
            return Err(e);
        },
        Ok(a) => a,
    };
    let w = write_sized(core, 8, a, m);
    let ghost m3 = *core;
    assert(data_written(m2, m3, 8, a, m, w));
    match w {
        Err(e) => Err(e),
        Ok(()) => {
            common::move_flags(core, m, 0);
            Ok(Cycles(26))
        },
    }
}

/// What `move_8_aw_al` does: the core goes from `c0` to `c1` and `r` comes back.
pub open spec fn move_8_aw_al_effect(c0: ConfiguredCore, c1: ConfiguredCore, r: Result<Cycles>) -> bool {
    &&& exists|m1: ConfiguredCore, src: Result<u32>|
            #[trigger] operator::al_8_rel(c0, m1, src) && match src {
                Err(e) => r == Err::<Cycles, Exception>(e) && c1 == m1,
                Ok(v) => exists|m2: ConfiguredCore, ea: Result<u32>|
                    #[trigger] effective_address::absolute_word_rel(m1, m2, ea) && match ea {
                        Err(e) => r == Err::<Cycles, Exception>(e) && c1 == m2,
                        Ok(a) => exists|m3: ConfiguredCore, w: Result<()>|
                            #[trigger] data_written(m2, m3, 8, a, v & 0xff, w) && match w {
                                Err(e) => r == Err::<Cycles, Exception>(e) && c1 == m3,
                                Ok(_) => r == Ok::<Cycles, Exception>(Cycles(24))
                                    && c1 == common::move_flags_outcome(m3, v & 0xff, 0).0,
                            },
                    },
            }
}

/// MOVE to memory: the value is written, then N and Z are set from it.
pub fn move_8_aw_al(core: &mut ConfiguredCore) -> (r: Result<Cycles>)
    requires
        old(core).wf(),
    ensures
        final(core).wf(),
        move_8_aw_al_effect(*old(core), *final(core), r),
{
    let ghost c0 = *core;
    let src = operator::al_8(core);
    let ghost m1 = *core;
    assert(operator::al_8_rel(c0, m1, src));
    let v = match src {
        Err(e) => {
            return Err(e);
        },
        Ok(v) => v,
    };
    let m = v & 0xff;
    let ea = effective_address::absolute_word(core);
    let ghost m2 = *core;
    assert(effective_address::absolute_word_rel(m1, m2, ea));
    let a = match ea {
        Err(e) => {
            return Err(e);
        },
        Ok(a) => a,
    };
    let w = write_sized(core, 8, a, m);
    let ghost m3 = *core;
    assert(data_written(m2, m3, 8, a, m, w));
    match w {
        Err(e) => Err(e),
        Ok(()) => {
            common::move_flags(core, m, 0);
            Ok(Cycles(24))
        },
    }
}

/// What `move_8_al_al` does: the core goes from `c0` to `c1` and `r` comes back.
pub open spec fn move_8_al_al_effect(c0: ConfiguredCore, c1: ConfiguredCore, r: Result<Cycles>) -> bool {
    &&& exists|m1: ConfiguredCore, src: Result<u32>|
            #[trigger] operator::al_8_rel(c0, m1, src) && match src {
                Err(e) => r == Err::<Cycles, Exception>(e) && c1 == m1,
                Ok(v) => exists|m2: ConfiguredCore, ea: Result<u32>|
                    #[trigger] effective_address::absolute_long_rel(m1, m2, ea) && match ea {
                        Err(e) => r == Err::<Cycles, Exception>(e) && c1 == m2,
                        Ok(a) => exists|m3: ConfiguredCore, w: Result<()>|
                            #[trigger] data_written(m2, m3, 8, a, v & 0xff, w) && match w {
                                Err(e) => r == Err::<Cycles, Exception>(e) && c1 == m3,
                                Ok(_) => r == Ok::<Cycles, Exception>(Cycles(28))
                                    && c1 == common::move_flags_outcome(m3, v & 0xff, 0).0,
                            },
                    },
            }
}

/// MOVE to memory: the value is written, then N and Z are set from it.
pub fn move_8_al_al(core: &mut ConfiguredCore) -> (r: Result<Cycles>)
    requires
        old(core).wf(),
    ensures
        final(core).wf(),
        move_8_al_al_effect(*old(core), *final(core), r),
{
    let ghost c0 = *core;
    let src = operator::al_8(core);
    let ghost m1 = *core;
    assert(operator::al_8_rel(c0, m1, src));
    let v = match src {
        Err(e) => {
            return Err(e);
        },
        Ok(v) => v,
    };
    let m = v & 0xff;
    let ea = effective_address::absolute_long(core);
    let ghost m2 = *core;
    assert(effective_address::absolute_long_rel(m1, m2, ea));
    let a = match ea {
        Err(e) => {
            return Err(e);
        },
        Ok(a) => a,
    };
    let w = write_sized(core, 8, a, m);
    let ghost m3 = *core;
    assert(data_written(m2, m3, 8, a, m, w));
    match w {
        Err(e) => Err(e),
        Ok(()) => {
            common::move_flags(core, m, 0);
            Ok(Cycles(28))
        },
    }
}

/// What `move_8_dn_pcdi` does: the core goes from `c0` to `c1` and `r` comes back.
pub open spec fn move_8_dn_pcdi_effect(c0: ConfiguredCore, c1: ConfiguredCore, r: Result<Cycles>) -> bool {
    &&& exists|mid: ConfiguredCore, src: Result<u32>|
            #[trigger] operator::pcdi_8_rel(c0, mid, src) && match src {
                Err(e) => r == Err::<Cycles, Exception>(e) && c1 == mid,
                Ok(v) => {
                    let m = v & 0xff;
                    let reg = ir_dx(mid.ir);
                    &&& r == Ok::<Cycles, Exception>(Cycles(12))
                    &&& reg_set(common::move_flags_outcome(mid, m, 0).0, c1, reg, merged(mid.dar[reg], m, 8))
                },
            }
}

/// MOVE into Dx, with N and Z set from the value moved.
pub fn move_8_dn_pcdi(core: &mut ConfiguredCore) -> (r: Result<Cycles>)
    requires
        old(core).wf(),
    ensures
        final(core).wf(),
        move_8_dn_pcdi_effect(*old(core), *final(core), r),
{
    let ghost c0 = *core;
    let src = operator::pcdi_8(core);
    let ghost mid = *core;
    assert(operator::pcdi_8_rel(c0, mid, src));
    match src {
        Err(e) => Err(e),
        Ok(v) => {
            let m = v & 0xff;
            let reg = reg_dx(core.ir);
            let dst = core.dar[reg];
            common::move_flags(core, m, 0);
            set_reg(core, reg, merge(dst, m, 8));
            Ok(Cycles(12))
        },
    }
}

/// What `move_8_ai_pcdi` does: the core goes from `c0` to `c1` and `r` comes back.
pub open spec fn move_8_ai_pcdi_effect(c0: ConfiguredCore, c1: ConfiguredCore, r: Result<Cycles>) -> bool {
    &&& exists|m1: ConfiguredCore, src: Result<u32>|
            #[trigger] operator::pcdi_8_rel(c0, m1, src) && match src {
                Err(e) => r == Err::<Cycles, Exception>(e) && c1 == m1,
                Ok(v) => exists|m2: ConfiguredCore, ea: Result<u32>|
                    #[trigger] effective_address::address_indirect_ax_rel(m1, m2, ea) && match ea {
                        Err(e) => r == Err::<Cycles, Exception>(e) && c1 == m2,
                        Ok(a) => exists|m3: ConfiguredCore, w: Result<()>|
                            #[trigger] data_written(m2, m3, 8, a, v & 0xff, w) && match w {
                                Err(e) => r == Err::<Cycles, Exception>(e) && c1 == m3,
                                Ok(_) => r == Ok::<Cycles, Exception>(Cycles(16))
                                    && c1 == common::move_flags_outcome(m3, v & 0xff, 0).0,
                            },
                    },
            }
}

/// MOVE to memory: the value is written, then N and Z are set from it.
pub fn move_8_ai_pcdi(core: &mut ConfiguredCore) -> (r: Result<Cycles>)
    requires
        old(core).wf(),
    ensures
        final(core).wf(),
        move_8_ai_pcdi_effect(*old(core), *final(core), r),
{
    let ghost c0 = *core;
    let src = operator::pcdi_8(core);
    let ghost m1 = *core;
    assert(operator::pcdi_8_rel(c0, m1, src));
    let v = match src {
        Err(e) => {
            return Err(e);
        },
        Ok(v) => v,
    };
    let m = v & 0xff;
    let ea = effective_address::address_indirect_ax(core);
    let ghost m2 = *core;
    assert(effective_address::address_indirect_ax_rel(m1, m2, ea));
    let a = match ea {
        Err(e) => {
            return Err(e);
        },
        Ok(a) => a,
    };
    let w = write_sized(core, 8, a, m);
    let ghost m3 = *core;
    assert(data_written(m2, m3, 8, a, m, w));
    match w {
        Err(e) => Err(e),
        Ok(()) => {
            common::move_flags(core, m, 0);
            Ok(Cycles(16))
        },
    }
}

/// What `move_8_pi_pcdi` does: the core goes from `c0` to `c1` and `r` comes back.
pub open spec fn move_8_pi_pcdi_effect(c0: ConfiguredCore, c1: ConfiguredCore, r: Result<Cycles>) -> bool {
    &&& exists|m1: ConfiguredCore, src: Result<u32>|
            #[trigger] operator::pcdi_8_rel(c0, m1, src) && match src {
                Err(e) => r == Err::<Cycles, Exception>(e) && c1 == m1,
                Ok(v) => exists|m2: ConfiguredCore, ea: Result<u32>|
                    #[trigger] effective_address::postincrement_ax_8_rel(m1, m2, ea) && match ea {
                        Err(e) => r == Err::<Cycles, Exception>(e) && c1 == m2,
                        Ok(a) => exists|m3: ConfiguredCore, w: Result<()>|
                            #[trigger] data_written(m2, m3, 8, a, v & 0xff, w) && match w {
                                Err(e) => r == Err::<Cycles, Exception>(e) && c1 == m3,
                                Ok(_) => r == Ok::<Cycles, Exception>(Cycles(16))
                                    && c1 == common::move_flags_outcome(m3, v & 0xff, 0).0,
                            },
                    },
            }
}

/// MOVE to memory: the value is written, then N and Z are set from it.
pub fn move_8_pi_pcdi(core: &mut ConfiguredCore) -> (r: Result<Cycles>)
    requires
        old(core).wf(),
    ensures
        final(core).wf(),
        move_8_pi_pcdi_effect(*old(core), *final(core), r),
{
    let ghost c0 = *core;
    let src = operator::pcdi_8(core);
    let ghost m1 = *core;
    assert(operator::pcdi_8_rel(c0, m1, src));
    let v = match src {
        Err(e) => {
            return Err(e);
        },
        Ok(v) => v,
    };
    let m = v & 0xff;
    let ea = effective_address::postincrement_ax_8(core);
    let ghost m2 = *core;
    assert(effective_address::postincrement_ax_8_rel(m1, m2, ea));
    let a = match ea {
        Err(e) => {
            return Err(e);
        },
        Ok(a) => a,
    };
    let w = write_sized(core, 8, a, m);
    let ghost m3 = *core;
    assert(data_written(m2, m3, 8, a, m, w));
    match w {
        Err(e) => Err(e),
        Ok(()) => {
            common::move_flags(core, m, 0);
            Ok(Cycles(16))
        },
    }
}

/// What `move_8_pd_pcdi` does: the core goes from `c0` to `c1` and `r` comes back.
pub open spec fn move_8_pd_pcdi_effect(c0: ConfiguredCore, c1: ConfiguredCore, r: Result<Cycles>) -> bool {
    &&& exists|m1: ConfiguredCore, src: Result<u32>|
            #[trigger] operator::pcdi_8_rel(c0, m1, src) && match src {
                Err(e) => r == Err::<Cycles, Exception>(e) && c1 == m1,
                Ok(v) => exists|m2: ConfiguredCore, ea: Result<u32>|
                    #[trigger] effective_address::predecrement_ax_8_rel(m1, m2, ea) && match ea {
                        Err(e) => r == Err::<Cycles, Exception>(e) && c1 == m2,
                        Ok(a) => exists|m3: ConfiguredCore, w: Result<()>|
                            #[trigger] data_written(m2, m3, 8, a, v & 0xff, w) && match w {
                                Err(e) => r == Err::<Cycles, Exception>(e) && c1 == m3,
                                Ok(_) => r == Ok::<Cycles, Exception>(Cycles(16))
                                    && c1 == common::move_flags_outcome(m3, v & 0xff, 0).0,
                            },
                    },
            }
}

/// MOVE to memory: the value is written, then N and Z are set from it.
pub fn move_8_pd_pcdi(core: &mut ConfiguredCore) -> (r: Result<Cycles>)
    requires
        old(core).wf(),
    ensures
        final(core).wf(),
        move_8_pd_pcdi_effect(*old(core), *final(core), r),
{
    let ghost c0 = *core;
    let src = operator::pcdi_8(core);
    let ghost m1 = *core;
    assert(operator::pcdi_8_rel(c0, m1, src));
    let v = match src {
        Err(e) => {
            return Err(e);
        },
        Ok(v) => v,
    };
    let m = v & 0xff;
    let ea = effective_address::predecrement_ax_8(core);
    let ghost m2 = *core;
    assert(effective_address::predecrement_ax_8_rel(m1, m2, ea));
    let a = match ea {
        Err(e) => {
            return Err(e);
        },
        Ok(a) => a,
    };
    let w = write_sized(core, 8, a, m);
    let ghost m3 = *core;
    assert(data_written(m2, m3, 8, a, m, w));
    match w {
        Err(e) => Err(e),
        Ok(()) => {
            common::move_flags(core, m, 0);
            Ok(Cycles(16))
        },
    }
}

/// What `move_8_di_pcdi` does: the core goes from `c0` to `c1` and `r` comes back.
pub open spec fn move_8_di_pcdi_effect(c0: ConfiguredCore, c1: ConfiguredCore, r: Result<Cycles>) -> bool {
    &&& exists|m1: ConfiguredCore, src: Result<u32>|
            #[trigger] operator::pcdi_8_rel(c0, m1, src) && match src {
                Err(e) => r == Err::<Cycles, Exception>(e) && c1 == m1,
                Ok(v) => exists|m2: ConfiguredCore, ea: Result<u32>|
                    #[trigger] effective_address::displacement_ax_rel(m1, m2, ea) && match ea {
                        Err(e) => r == Err::<Cycles, Exception>(e) && c1 == m2,
                        Ok(a) => exists|m3: ConfiguredCore, w: Result<()>|
                            #[trigger] data_written(m2, m3, 8, a, v & 0xff, w) && match w {
                                Err(e) => r == Err::<Cycles, Exception>(e) && c1 == m3,
                                Ok(_) => r == Ok::<Cycles, Exception>(Cycles(20))
                                    && c1 == common::move_flags_outcome(m3, v & 0xff, 0).0,
                            },
                    },
            }
}

/// MOVE to memory: the value is written, then N and Z are set from it.
pub fn move_8_di_pcdi(core: &mut ConfiguredCore) -> (r: Result<Cycles>)
    requires
        old(core).wf(),
    ensures
        final(core).wf(),
        move_8_di_pcdi_effect(*old(core), *final(core), r),
{
    let ghost c0 = *core;
    let src = operator::pcdi_8(core);
    let ghost m1 = *core;
    assert(operator::pcdi_8_rel(c0, m1, src));
    let v = match src {
        Err(e) => {
            return Err(e);
        },
        Ok(v) => v,
    };
    let m = v & 0xff;
    let ea = effective_address::displacement_ax(core);
    let ghost m2 = *core;
    assert(effective_address::displacement_ax_rel(m1, m2, ea));
    let a = match ea {
        Err(e) => {
            return Err(e);
        },
        Ok(a) => a,
    };
    let w = write_sized(core, 8, a, m);
    let ghost m3 = *core;
    assert(data_written(m2, m3, 8, a, m, w));
    match w {
        Err(e) => Err(e),
        Ok(()) => {
            common::move_flags(core, m, 0);
            Ok(Cycles(20))
        },
    }
}

/// What `move_8_ix_pcdi` does: the core goes from `c0` to `c1` and `r` comes back.
pub open spec fn move_8_ix_pcdi_effect(c0: ConfiguredCore, c1: ConfiguredCore, r: Result<Cycles>) -> bool {
    &&& exists|m1: ConfiguredCore, src: Result<u32>|
            #[trigger] operator::pcdi_8_rel(c0, m1, src) && match src {
                Err(e) => r == Err::<Cycles, Exception>(e) && c1 == m1,
                Ok(v) => exists|m2: ConfiguredCore, ea: Result<u32>|
                    #[trigger] effective_address::index_ax_rel(m1, m2, ea) && match ea {
                        Err(e) => r == Err::<Cycles, Exception>(e) && c1 == m2,
                        Ok(a) => exists|m3: ConfiguredCore, w: Result<()>|
                            #[trigger] data_written(m2, m3, 8, a, v & 0xff, w) && match w {
                                Err(e) => r == Err::<Cycles, Exception>(e) && c1 == m3,
                                Ok(_) => r == Ok::<Cycles, Exception>(Cycles(22))
                                    && c1 == common::move_flags_outcome(m3, v & 0xff, 0).0,
                            },
                    },
            }
}

/// MOVE to memory: the value is written, then N and Z are set from it.
pub fn move_8_ix_pcdi(core: &mut ConfiguredCore) -> (r: Result<Cycles>)
    requires
        old(core).wf(),
    ensures
        final(core).wf(),
        move_8_ix_pcdi_effect(*old(core), *final(core), r),
{
    let ghost c0 = *core;
    let src = operator::pcdi_8(core);
    let ghost m1 = *core;
    assert(operator::pcdi_8_rel(c0, m1, src));
    let v = match src {
        Err(e) => {
            return Err(e);
        },
        Ok(v) => v,
    };
    let m = v & 0xff;
    let ea = effective_address::index_ax(core);
    let ghost m2 = *core;
    assert(effective_address::index_ax_rel(m1, m2, ea));
    let a = match ea {
        Err(e) => {
            return Err(e);
        },
        Ok(a) => a,
    };
    let w = write_sized(core, 8, a, m);
    let ghost m3 = *core;
    assert(data_written(m2, m3, 8, a, m, w));
    match w {
        Err(e) => Err(e),
        Ok(()) => {
            common::move_flags(core, m, 0);
            Ok(Cycles(22))
        },
    }
}

/// What `move_8_aw_pcdi` does: the core goes from `c0` to `c1` and `r` comes back.
pub open spec fn move_8_aw_pcdi_effect(c0: ConfiguredCore, c1: ConfiguredCore, r: Result<Cycles>) -> bool {
    &&& exists|m1: ConfiguredCore, src: Result<u32>|
            #[trigger] operator::pcdi_8_rel(c0, m1, src) && match src {
                Err(e) => r == Err::<Cycles, Exception>(e) && c1 == m1,
                Ok(v) => exists|m2: ConfiguredCore, ea: Result<u32>|
                    #[trigger] effective_address::absolute_word_rel(m1, m2, ea) && match ea {
                        Err(e) => r == Err::<Cycles, Exception>(e) && c1 == m2,
                        Ok(a) => exists|m3: ConfiguredCore, w: Result<()>|
                            #[trigger] data_written(m2, m3, 8, a, v & 0xff, w) && match w {
                                Err(e) => r == Err::<Cycles, Exception>(e) && c1 == m3,
                                Ok(_) => r == Ok::<Cycles, Exception>(Cycles(20))
                                    && c1 == common::move_flags_outcome(m3, v & 0xff, 0).0,
                            },
                    },
            }
}

/// MOVE to memory: the value is written, then N and Z are set from it.
pub fn move_8_aw_pcdi(core: &mut ConfiguredCore) -> (r: Result<Cycles>)
    requires
        old(core).wf(),
    ensures
        final(core).wf(),
        move_8_aw_pcdi_effect(*old(core), *final(core), r),
{
    let ghost c0 = *core;
    let src = operator::pcdi_8(core);
    let ghost m1 = *core;
    assert(operator::pcdi_8_rel(c0, m1, src));
    let v = match src {
        Err(e) => {
            return Err(e);
        },
        Ok(v) => v,
    };
    let m = v & 0xff;
    let ea = effective_address::absolute_word(core);
    let ghost m2 = *core;
    assert(effective_address::absolute_word_rel(m1, m2, ea));
    let a = match ea {
        Err(e) => {
            return Err(e);
        },
        Ok(a) => a,
    };
    let w = write_sized(core, 8, a, m);
    let ghost m3 = *core;
    assert(data_written(m2, m3, 8, a, m, w));
    match w {
        Err(e) => Err(e),
        Ok(()) => {
            common::move_flags(core, m, 0);
            Ok(Cycles(20))
        },
    }
}

/// What `move_8_al_pcdi` does: the core goes from `c0` to `c1` and `r` comes back.
pub open spec fn move_8_al_pcdi_effect(c0: ConfiguredCore, c1: ConfiguredCore, r: Result<Cycles>) -> bool {
    &&& exists|m1: ConfiguredCore, src: Result<u32>|
            #[trigger] operator::pcdi_8_rel(c0, m1, src) && match src {
                Err(e) => r == Err::<Cycles, Exception>(e) && c1 == m1,
                Ok(v) => exists|m2: ConfiguredCore, ea: Result<u32>|
                    #[trigger] effective_address::absolute_long_rel(m1, m2, ea) && match ea {
                        Err(e) => r == Err::<Cycles, Exception>(e) && c1 == m2,
                        Ok(a) => exists|m3: ConfiguredCore, w: Result<()>|
                            #[trigger] data_written(m2, m3, 8, a, v & 0xff, w) && match w {
                                Err(e) => r == Err::<Cycles, Exception>(e) && c1 == m3,
                                Ok(_) => r == Ok::<Cycles, Exception>(Cycles(24))
                                    && c1 == common::move_flags_outcome(m3, v & 0xff, 0).0,
                            },
                    },
            }
}

/// MOVE to memory: the value is written, then N and Z are set from it.
pub fn move_8_al_pcdi(core: &mut ConfiguredCore) -> (r: Result<Cycles>)
    requires
        old(core).wf(),
    ensures
        final(core).wf(),
        move_8_al_pcdi_effect(*old(core), *final(core), r),
{
    let ghost c0 = *core;
    let src = operator::pcdi_8(core);
    let ghost m1 = *core;
    assert(operator::pcdi_8_rel(c0, m1, src));
    let v = match src {
        Err(e) => {
            return Err(e);
        },
        Ok(v) => v,
    };
    let m = v & 0xff;
    let ea = effective_address::absolute_long(core);
    let ghost m2 = *core;
    assert(effective_address::absolute_long_rel(m1, m2, ea));
    let a = match ea {
        Err(e) => {
            return Err(e);
        },
        Ok(a) => a,
    };
    let w = write_sized(core, 8, a, m);
    let ghost m3 = *core;
    assert(data_written(m2, m3, 8, a, m, w));
    match w {
        Err(e) => Err(e),
        Ok(()) => {
            common::move_flags(core, m, 0);
            Ok(Cycles(24))
        },
    }
}

/// What `move_8_dn_pcix` does: the core goes from `c0` to `c1` and `r` comes back.
pub open spec fn move_8_dn_pcix_effect(c0: ConfiguredCore, c1: ConfiguredCore, r: Result<Cycles>) -> bool {
    &&& exists|mid: ConfiguredCore, src: Result<u32>|
            #[trigger] operator::pcix_8_rel(c0, mid, src) && match src {
                Err(e) => r == Err::<Cycles, Exception>(e) && c1 == mid,
                Ok(v) => {
                    let m = v & 0xff;
                    let reg = ir_dx(mid.ir);
                    &&& r == Ok::<Cycles, Exception>(Cycles(14))
                    &&& reg_set(common::move_flags_outcome(mid, m, 0).0, c1, reg, merged(mid.dar[reg], m, 8))
                },
            }
}

/// MOVE into Dx, with N and Z set from the value moved.
pub fn move_8_dn_pcix(core: &mut ConfiguredCore) -> (r: Result<Cycles>)
    requires
        old(core).wf(),
    ensures
        final(core).wf(),
        move_8_dn_pcix_effect(*old(core), *final(core), r),
{
    let ghost c0 = *core;
    let src = operator::pcix_8(core);
    let ghost mid = *core;
    assert(operator::pcix_8_rel(c0, mid, src));
    match src {
        Err(e) => Err(e),
        Ok(v) => {
            let m = v & 0xff;
            let reg = reg_dx(core.ir);
            let dst = core.dar[reg];
            common::move_flags(core, m, 0);
            set_reg(core, reg, merge(dst, m, 8));
            Ok(Cycles(14))
        },
    }
}

/// What `move_8_ai_pcix` does: the core goes from `c0` to `c1` and `r` comes back.
pub open spec fn move_8_ai_pcix_effect(c0: ConfiguredCore, c1: ConfiguredCore, r: Result<Cycles>) -> bool {
    &&& exists|m1: ConfiguredCore, src: Result<u32>|
            #[trigger] operator::pcix_8_rel(c0, m1, src) && match src {
                Err(e) => r == Err::<Cycles, Exception>(e) && c1 == m1,
                Ok(v) => exists|m2: ConfiguredCore, ea: Result<u32>|
                    #[trigger] effective_address::address_indirect_ax_rel(m1, m2, ea) && match ea {
                        Err(e) => r == Err::<Cycles, Exception>(e) && c1 == m2,
                        Ok(a) => exists|m3: ConfiguredCore, w: Result<()>|
                            #[trigger] data_written(m2, m3, 8, a, v & 0xff, w) && match w {
                                Err(e) => r == Err::<Cycles, Exception>(e) && c1 == m3,
                                Ok(_) => r == Ok::<Cycles, Exception>(Cycles(18))
                                    && c1 == common::move_flags_outcome(m3, v & 0xff, 0).0,
                            },
                    },
            }
}

/// MOVE to memory: the value is written, then N and Z are set from it.
pub fn move_8_ai_pcix(core: &mut ConfiguredCore) -> (r: Result<Cycles>)
    requires
        old(core).wf(),
    ensures
        final(core).wf(),
        move_8_ai_pcix_effect(*old(core), *final(core), r),
{
    let ghost c0 = *core;
    let src = operator::pcix_8(core);
    let ghost m1 = *core;
    assert(operator::pcix_8_rel(c0, m1, src));
    let v = match src {
        Err(e) => {
            return Err(e);
        },
        Ok(v) => v,
    };
    let m = v & 0xff;
    let ea = effective_address::address_indirect_ax(core);
    let ghost m2 = *core;
    assert(effective_address::address_indirect_ax_rel(m1, m2, ea));
    let a = match ea {
        Err(e) => {
            return Err(e);
        },
        Ok(a) => a,
    };
    let w = write_sized(core, 8, a, m);
    let ghost m3 = *core;
    assert(data_written(m2, m3, 8, a, m, w));
    match w {
        Err(e) => Err(e),
        Ok(()) => {
            common::move_flags(core, m, 0);
            Ok(Cycles(18))
        },
    }
}

/// What `move_8_pi_pcix` does: the core goes from `c0` to `c1` and `r` comes back.
pub open spec fn move_8_pi_pcix_effect(c0: ConfiguredCore, c1: ConfiguredCore, r: Result<Cycles>) -> bool {
    &&& exists|m1: ConfiguredCore, src: Result<u32>|
            #[trigger] operator::pcix_8_rel(c0, m1, src) && match src {
                Err(e) => r == Err::<Cycles, Exception>(e) && c1 == m1,
                Ok(v) => exists|m2: ConfiguredCore, ea: Result<u32>|
                    #[trigger] effective_address::postincrement_ax_8_rel(m1, m2, ea) && match ea {
                        Err(e) => r == Err::<Cycles, Exception>(e) && c1 == m2,
                        Ok(a) => exists|m3: ConfiguredCore, w: Result<()>|
                            #[trigger] data_written(m2, m3, 8, a, v & 0xff, w) && match w {
                                Err(e) => r == Err::<Cycles, Exception>(e) && c1 == m3,
                                Ok(_) => r == Ok::<Cycles, Exception>(Cycles(18))
                                    && c1 == common::move_flags_outcome(m3, v & 0xff, 0).0,
                            },
                    },
            }
}

/// MOVE to memory: the value is written, then N and Z are set from it.
pub fn move_8_pi_pcix(core: &mut ConfiguredCore) -> (r: Result<Cycles>)
    requires
        old(core).wf(),
    ensures
        final(core).wf(),
        move_8_pi_pcix_effect(*old(core), *final(core), r),
{
    let ghost c0 = *core;
    let src = operator::pcix_8(core);
    let ghost m1 = *core;
    assert(operator::pcix_8_rel(c0, m1, src));
    let v = match src {
        Err(e) => {
            return Err(e);
        },
        Ok(v) => v,
    };
    let m = v & 0xff;
    let ea = effective_address::postincrement_ax_8(core);
    let ghost m2 = *core;
    assert(effective_address::postincrement_ax_8_rel(m1, m2, ea));
    let a = match ea {
        Err(e) => {
            return Err(e);
        },
        Ok(a) => a,
    };
    let w = write_sized(core, 8, a, m);
    let ghost m3 = *core;
    assert(data_written(m2, m3, 8, a, m, w));
    match w {
        Err(e) => Err(e),
        Ok(()) => {
            common::move_flags(core, m, 0);
            Ok(Cycles(18))
        },
    }
}

/// What `move_8_pd_pcix` does: the core goes from `c0` to `c1` and `r` comes back.
pub open spec fn move_8_pd_pcix_effect(c0: ConfiguredCore, c1: ConfiguredCore, r: Result<Cycles>) -> bool {
    &&& exists|m1: ConfiguredCore, src: Result<u32>|
            #[trigger] operator::pcix_8_rel(c0, m1, src) && match src {
                Err(e) => r == Err::<Cycles, Exception>(e) && c1 == m1,
                Ok(v) => exists|m2: ConfiguredCore, ea: Result<u32>|
                    #[trigger] effective_address::predecrement_ax_8_rel(m1, m2, ea) && match ea {
                        Err(e) => r == Err::<Cycles, Exception>(e) && c1 == m2,
                        Ok(a) => exists|m3: ConfiguredCore, w: Result<()>|
                            #[trigger] data_written(m2, m3, 8, a, v & 0xff, w) && match w {
                                Err(e) => r == Err::<Cycles, Exception>(e) && c1 == m3,
                                Ok(_) => r == Ok::<Cycles, Exception>(Cycles(18))
                                    && c1 == common::move_flags_outcome(m3, v & 0xff, 0).0,
                            },
                    },
            }
}

/// MOVE to memory: the value is written, then N and Z are set from it.
pub fn move_8_pd_pcix(core: &mut ConfiguredCore) -> (r: Result<Cycles>)
    requires
        old(core).wf(),
    ensures
        final(core).wf(),
        move_8_pd_pcix_effect(*old(core), *final(core), r),
{
    let ghost c0 = *core;
    let src = operator::pcix_8(core);
    let ghost m1 = *core;
    assert(operator::pcix_8_rel(c0, m1, src));
    let v = match src {
        Err(e) => {
            return Err(e);
        },
        Ok(v) => v,
    };
    let m = v & 0xff;
    let ea = effective_address::predecrement_ax_8(core);
    let ghost m2 = *core;
    assert(effective_address::predecrement_ax_8_rel(m1, m2, ea));
    let a = match ea {
        Err(e) => {
            return Err(e);
        },
        Ok(a) => a,
    };
    let w = write_sized(core, 8, a, m);
    let ghost m3 = *core;
    assert(data_written(m2, m3, 8, a, m, w));
    match w {
        Err(e) => Err(e),
        Ok(()) => {
            common::move_flags(core, m, 0);
            Ok(Cycles(18))
        },
    }
}

/// What `move_8_di_pcix` does: the core goes from `c0` to `c1` and `r` comes back.
pub open spec fn move_8_di_pcix_effect(c0: ConfiguredCore, c1: ConfiguredCore, r: Result<Cycles>) -> bool {
    &&& exists|m1: ConfiguredCore, src: Result<u32>|
            #[trigger] operator::pcix_8_rel(c0, m1, src) && match src {
                Err(e) => r == Err::<Cycles, Exception>(e) && c1 == m1,
                Ok(v) => exists|m2: ConfiguredCore, ea: Result<u32>|
                    #[trigger] effective_address::displacement_ax_rel(m1, m2, ea) && match ea {
                        Err(e) => r == Err::<Cycles, Exception>(e) && c1 == m2,
                        Ok(a) => exists|m3: ConfiguredCore, w: Result<()>|
                            #[trigger] data_written(m2, m3, 8, a, v & 0xff, w) && match w {
                                Err(e) => r == Err::<Cycles, Exception>(e) && c1 == m3,
                                Ok(_) => r == Ok::<Cycles, Exception>(Cycles(22))
                                    && c1 == common::move_flags_outcome(m3, v & 0xff, 0).0,
                            },
                    },
            }
}

/// MOVE to memory: the value is written, then N and Z are set from it.
pub fn move_8_di_pcix(core: &mut ConfiguredCore) -> (r: Result<Cycles>)
    requires
        old(core).wf(),
    ensures
        final(core).wf(),
        move_8_di_pcix_effect(*old(core), *final(core), r),
{
    let ghost c0 = *core;
    let src = operator::pcix_8(core);
    let ghost m1 = *core;
    assert(operator::pcix_8_rel(c0, m1, src));
    let v = match src {
        Err(e) => {
            return Err(e);
        },
        Ok(v) => v,
    };
    let m = v & 0xff;
    let ea = effective_address::displacement_ax(core);
    let ghost m2 = *core;
    assert(effective_address::displacement_ax_rel(m1, m2, ea));
    let a = match ea {
        Err(e) => {
            return Err(e);
        },
        Ok(a) => a,
    };
    let w = write_sized(core, 8, a, m);
    let ghost m3 = *core;
    assert(data_written(m2, m3, 8, a, m, w));
    match w {
        Err(e) => Err(e),
        Ok(()) => {
            common::move_flags(core, m, 0);
            Ok(Cycles(22))
        },
    }
}

/// What `move_8_ix_pcix` does: the core goes from `c0` to `c1` and `r` comes back.
pub open spec fn move_8_ix_pcix_effect(c0: ConfiguredCore, c1: ConfiguredCore, r: Result<Cycles>) -> bool {
    &&& exists|m1: ConfiguredCore, src: Result<u32>|
            #[trigger] operator::pcix_8_rel(c0, m1, src) && match src {
                Err(e) => r == Err::<Cycles, Exception>(e) && c1 == m1,
                Ok(v) => exists|m2: ConfiguredCore, ea: Result<u32>|
                    #[trigger] effective_address::index_ax_rel(m1, m2, ea) && match ea {
                        Err(e) => r == Err::<Cycles, Exception>(e) && c1 == m2,
                        Ok(a) => exists|m3: ConfiguredCore, w: Result<()>|
                            #[trigger] data_written(m2, m3, 8, a, v & 0xff, w) && match w {
                                Err(e) => r == Err::<Cycles, Exception>(e) && c1 == m3,
                                Ok(_) => r == Ok::<Cycles, Exception>(Cycles(24))
                                    && c1 == common::move_flags_outcome(m3, v & 0xff, 0).0,
                            },
                    },
            }
}

/// MOVE to memory: the value is written, then N and Z are set from it.
pub fn move_8_ix_pcix(core: &mut ConfiguredCore) -> (r: Result<Cycles>)
    requires
        old(core).wf(),
    ensures
        final(core).wf(),
        move_8_ix_pcix_effect(*old(core), *final(core), r),
{
    let ghost c0 = *core;
    let src = operator::pcix_8(core);
    let ghost m1 = *core;
    assert(operator::pcix_8_rel(c0, m1, src));
    let v = match src {
        Err(e) => {
            return Err(e);
        },
        Ok(v) => v,
    };
    let m = v & 0xff;
    let ea = effective_address::index_ax(core);
    let ghost m2 = *core;
    assert(effective_address::index_ax_rel(m1, m2, ea));
    let a = match ea {
        Err(e) => {
            return Err(e);
        },
        Ok(a) => a,
    };
    let w = write_sized(core, 8, a, m);
    let ghost m3 = *core;
    assert(data_written(m2, m3, 8, a, m, w));
    match w {
        Err(e) => Err(e),
        Ok(()) => {
            common::move_flags(core, m, 0);
            Ok(Cycles(24))
        },
    }
}

/// What `move_8_aw_pcix` does: the core goes from `c0` to `c1` and `r` comes back.
pub open spec fn move_8_aw_pcix_effect(c0: ConfiguredCore, c1: ConfiguredCore, r: Result<Cycles>) -> bool {
    &&& exists|m1: ConfiguredCore, src: Result<u32>|
            #[trigger] operator::pcix_8_rel(c0, m1, src) && match src {
                Err(e) => r == Err::<Cycles, Exception>(e) && c1 == m1,
                Ok(v) => exists|m2: ConfiguredCore, ea: Result<u32>|
                    #[trigger] effective_address::absolute_word_rel(m1, m2, ea) && match ea {
                        Err(e) => r == Err::<Cycles, Exception>(e) && c1 == m2,
                        Ok(a) => exists|m3: ConfiguredCore, w: Result<()>|
                            #[trigger] data_written(m2, m3, 8, a, v & 0xff, w) && match w {
                                Err(e) => r == Err::<Cycles, Exception>(e) && c1 == m3,
                                Ok(_) => r == Ok::<Cycles, Exception>(Cycles(22))
                                    && c1 == common::move_flags_outcome(m3, v & 0xff, 0).0,
                            },
                    },
            }
}

/// MOVE to memory: the value is written, then N and Z are set from it.
pub fn move_8_aw_pcix(core: &mut ConfiguredCore) -> (r: Result<Cycles>)
    requires
        old(core).wf(),
    ensures
        final(core).wf(),
        move_8_aw_pcix_effect(*old(core), *final(core), r),
{
    let ghost c0 = *core;
    let src = operator::pcix_8(core);
    let ghost m1 = *core;
    assert(operator::pcix_8_rel(c0, m1, src));
    let v = match src {
        Err(e) => {
            return Err(e);
        },
        Ok(v) => v,
    };
    let m = v & 0xff;
    let ea = effective_address::absolute_word(core);
    let ghost m2 = *core;
    assert(effective_address::absolute_word_rel(m1, m2, ea));
    let a = match ea {
        Err(e) => {
            return Err(e);
        },
        Ok(a) => a,
    };
    let w = write_sized(core, 8, a, m);
    let ghost m3 = *core;
    assert(data_written(m2, m3, 8, a, m, w));
    match w {
        Err(e) => Err(e),
        Ok(()) => {
            common::move_flags(core, m, 0);
            Ok(Cycles(22))
        },
    }
}

/// What `move_8_al_pcix` does: the core goes from `c0` to `c1` and `r` comes back.
pub open spec fn move_8_al_pcix_effect(c0: ConfiguredCore, c1: ConfiguredCore, r: Result<Cycles>) -> bool {
    &&& exists|m1: ConfiguredCore, src: Result<u32>|
            #[trigger] operator::pcix_8_rel(c0, m1, src) && match src {
                Err(e) => r == Err::<Cycles, Exception>(e) && c1 == m1,
                Ok(v) => exists|m2: ConfiguredCore, ea: Result<u32>|
                    #[trigger] effective_address::absolute_long_rel(m1, m2, ea) && match ea {
                        Err(e) => r == Err::<Cycles, Exception>(e) && c1 == m2,
                        Ok(a) => exists|m3: ConfiguredCore, w: Result<()>|
                            #[trigger] data_written(m2, m3, 8, a, v & 0xff, w) && match w {
                                Err(e) => r == Err::<Cycles, Exception>(e) && c1 == m3,
                                Ok(_) => r == Ok::<Cycles, Exception>(Cycles(26))
                                    && c1 == common::move_flags_outcome(m3, v & 0xff, 0).0,
                            },
                    },
            }
}

/// MOVE to memory: the value is written, then N and Z are set from it.
pub fn move_8_al_pcix(core: &mut ConfiguredCore) -> (r: Result<Cycles>)
    requires
        old(core).wf(),
    ensures
        final(core).wf(),
        move_8_al_pcix_effect(*old(core), *final(core), r),
{
    let ghost c0 = *core;
    let src = operator::pcix_8(core);
    let ghost m1 = *core;
    assert(operator::pcix_8_rel(c0, m1, src));
    let v = match src {
        Err(e) => {
            return Err(e);
        },
        Ok(v) => v,
    };
    let m = v & 0xff;
    let ea = effective_address::absolute_long(core);
    let ghost m2 = *core;
    assert(effective_address::absolute_long_rel(m1, m2, ea));
    let a = match ea {
        Err(e) => {
            return Err(e);
        },
        Ok(a) => a,
    };
    let w = write_sized(core, 8, a, m);
    let ghost m3 = *core;
    assert(data_written(m2, m3, 8, a, m, w));
    match w {
        Err(e) => Err(e),
        Ok(()) => {
            common::move_flags(core, m, 0);
            Ok(Cycles(26))
        },
    }
}

/// What `move_8_dn_imm` does: the core goes from `c0` to `c1` and `r` comes back.
pub open spec fn move_8_dn_imm_effect(c0: ConfiguredCore, c1: ConfiguredCore, r: Result<Cycles>) -> bool {
    &&& exists|mid: ConfiguredCore, src: Result<u32>|
            #[trigger] operator::imm_8_rel(c0, mid, src) && match src {
                Err(e) => r == Err::<Cycles, Exception>(e) && c1 == mid,
                Ok(v) => {
                    let m = v & 0xff;
                    let reg = ir_dx(mid.ir);
                    &&& r == Ok::<Cycles, Exception>(Cycles(8))
                    &&& reg_set(common::move_flags_outcome(mid, m, 0).0, c1, reg, merged(mid.dar[reg], m, 8))
                },
            }
}

/// MOVE into Dx, with N and Z set from the value moved.
pub fn move_8_dn_imm(core: &mut ConfiguredCore) -> (r: Result<Cycles>)
    requires
        old(core).wf(),
    ensures
        final(core).wf(),
        move_8_dn_imm_effect(*old(core), *final(core), r),
{
    let ghost c0 = *core;
    let src = operator::imm_8(core);
    let ghost mid = *core;
    assert(operator::imm_8_rel(c0, mid, src));
    match src {
        Err(e) => Err(e),
        Ok(v) => {
            let m = v & 0xff;
            let reg = reg_dx(core.ir);
            let dst = core.dar[reg];
            common::move_flags(core, m, 0);
            set_reg(core, reg, merge(dst, m, 8));
            Ok(Cycles(8))
        },
    }
}

/// What `move_8_ai_imm` does: the core goes from `c0` to `c1` and `r` comes back.
pub open spec fn move_8_ai_imm_effect(c0: ConfiguredCore, c1: ConfiguredCore, r: Result<Cycles>) -> bool {
    &&& exists|m1: ConfiguredCore, src: Result<u32>|
            #[trigger] operator::imm_8_rel(c0, m1, src) && match src {
                Err(e) => r == Err::<Cycles, Exception>(e) && c1 == m1,
                Ok(v) => exists|m2: ConfiguredCore, ea: Result<u32>|
                    #[trigger] effective_address::address_indirect_ax_rel(m1, m2, ea) && match ea {
                        Err(e) => r == Err::<Cycles, Exception>(e) && c1 == m2,
                        Ok(a) => exists|m3: ConfiguredCore, w: Result<()>|
                            #[trigger] data_written(m2, m3, 8, a, v & 0xff, w) && match w {
                                Err(e) => r == Err::<Cycles, Exception>(e) && c1 == m3,
                                Ok(_) => r == Ok::<Cycles, Exception>(Cycles(12))
                                    && c1 == common::move_flags_outcome(m3, v & 0xff, 0).0,
                            },
                    },
            }
}

/// MOVE to memory: the value is written, then N and Z are set from it.
pub fn move_8_ai_imm(core: &mut ConfiguredCore) -> (r: Result<Cycles>)
    requires
        old(core).wf(),
    ensures
        final(core).wf(),
        move_8_ai_imm_effect(*old(core), *final(core), r),
{
    let ghost c0 = *core;
    let src = operator::imm_8(core);
    let ghost m1 = *core;
    assert(operator::imm_8_rel(c0, m1, src));
    let v = match src {
        Err(e) => {
            return Err(e);
        },
        Ok(v) => v,
    };
    let m = v & 0xff;
    let ea = effective_address::address_indirect_ax(core);
    let ghost m2 = *core;
    assert(effective_address::address_indirect_ax_rel(m1, m2, ea));
    let a = match ea {
        Err(e) => {
            return Err(e);
        },
        Ok(a) => a,
    };
    let w = write_sized(core, 8, a, m);
    let ghost m3 = *core;
    assert(data_written(m2, m3, 8, a, m, w));
    match w {
        Err(e) => Err(e),
        Ok(()) => {
            common::move_flags(core, m, 0);
            Ok(Cycles(12))
        },
    }
}

/// What `move_8_pi_imm` does: the core goes from `c0` to `c1` and `r` comes back.
pub open spec fn move_8_pi_imm_effect(c0: ConfiguredCore, c1: ConfiguredCore, r: Result<Cycles>) -> bool {
    &&& exists|m1: ConfiguredCore, src: Result<u32>|
            #[trigger] operator::imm_8_rel(c0, m1, src) && match src {
                Err(e) => r == Err::<Cycles, Exception>(e) && c1 == m1,
                Ok(v) => exists|m2: ConfiguredCore, ea: Result<u32>|
                    #[trigger] effective_address::postincrement_ax_8_rel(m1, m2, ea) && match ea {
                        Err(e) => r == Err::<Cycles, Exception>(e) && c1 == m2,
                        Ok(a) => exists|m3: ConfiguredCore, w: Result<()>|
                            #[trigger] data_written(m2, m3, 8, a, v & 0xff, w) && match w {
                                Err(e) => r == Err::<Cycles, Exception>(e) && c1 == m3,
                                Ok(_) => r == Ok::<Cycles, Exception>(Cycles(12))
                                    && c1 == common::move_flags_outcome(m3, v & 0xff, 0).0,
                            },
                    },
            }
}

/// MOVE to memory: the value is written, then N and Z are set from it.
pub fn move_8_pi_imm(core: &mut ConfiguredCore) -> (r: Result<Cycles>)
    requires
        old(core).wf(),
    ensures
        final(core).wf(),
        move_8_pi_imm_effect(*old(core), *final(core), r),
{
    let ghost c0 = *core;
    let src = operator::imm_8(core);
    let ghost m1 = *core;
    assert(operator::imm_8_rel(c0, m1, src));
    let v = match src {
        Err(e) => {
            return Err(e);
        },
        Ok(v) => v,
    };
    let m = v & 0xff;
    let ea = effective_address::postincrement_ax_8(core);
    let ghost m2 = *core;
    assert(effective_address::postincrement_ax_8_rel(m1, m2, ea));
    let a = match ea {
        Err(e) => {
            return Err(e);
        },
        Ok(a) => a,
    };
    let w = write_sized(core, 8, a, m);
    let ghost m3 = *core;
    assert(data_written(m2, m3, 8, a, m, w));
    match w {
        Err(e) => Err(e),
        Ok(()) => {
            common::move_flags(core, m, 0);
            Ok(Cycles(12))
        },
    }
}

/// What `move_8_pd_imm` does: the core goes from `c0` to `c1` and `r` comes back.
pub open spec fn move_8_pd_imm_effect(c0: ConfiguredCore, c1: ConfiguredCore, r: Result<Cycles>) -> bool {
    &&& exists|m1: ConfiguredCore, src: Result<u32>|
            #[trigger] operator::imm_8_rel(c0, m1, src) && match src {
                Err(e) => r == Err::<Cycles, Exception>(e) && c1 == m1,
                Ok(v) => exists|m2: ConfiguredCore, ea: Result<u32>|
                    #[trigger] effective_address::predecrement_ax_8_rel(m1, m2, ea) && match ea {
                        Err(e) => r == Err::<Cycles, Exception>(e) && c1 == m2,
                        Ok(a) => exists|m3: ConfiguredCore, w: Result<()>|
                            #[trigger] data_written(m2, m3, 8, a, v & 0xff, w) && match w {
                                Err(e) => r == Err::<Cycles, Exception>(e) && c1 == m3,
                                Ok(_) => r == Ok::<Cycles, Exception>(Cycles(12))
                                    && c1 == common::move_flags_outcome(m3, v & 0xff, 0).0,
                            },
                    },
            }
}

/// MOVE to memory: the value is written, then N and Z are set from it.
pub fn move_8_pd_imm(core: &mut ConfiguredCore) -> (r: Result<Cycles>)
    requires
        old(core).wf(),
    ensures
        final(core).wf(),
        move_8_pd_imm_effect(*old(core), *final(core), r),
{
    let ghost c0 = *core;
    let src = operator::imm_8(core);
    let ghost m1 = *core;
    assert(operator::imm_8_rel(c0, m1, src));
    let v = match src {
        Err(e) => {
            return Err(e);
        },
        Ok(v) => v,
    };
    let m = v & 0xff;
    let ea = effective_address::predecrement_ax_8(core);
    let ghost m2 = *core;
    assert(effective_address::predecrement_ax_8_rel(m1, m2, ea));
    let a = match ea {
        Err(e) => {
            return Err(e);
        },
        Ok(a) => a,
    };
    let w = write_sized(core, 8, a, m);
    let ghost m3 = *core;
    assert(data_written(m2, m3, 8, a, m, w));
    match w {
        Err(e) => Err(e),
        Ok(()) => {
            common::move_flags(core, m, 0);
            Ok(Cycles(12))
        },
    }
}

/// What `move_8_di_imm` does: the core goes from `c0` to `c1` and `r` comes back.
pub open spec fn move_8_di_imm_effect(c0: ConfiguredCore, c1: ConfiguredCore, r: Result<Cycles>) -> bool {
    &&& exists|m1: ConfiguredCore, src: Result<u32>|
            #[trigger] operator::imm_8_rel(c0, m1, src) && match src {
                Err(e) => r == Err::<Cycles, Exception>(e) && c1 == m1,
                Ok(v) => exists|m2: ConfiguredCore, ea: Result<u32>|
                    #[trigger] effective_address::displacement_ax_rel(m1, m2, ea) && match ea {
                        Err(e) => r == Err::<Cycles, Exception>(e) && c1 == m2,
                        Ok(a) => exists|m3: ConfiguredCore, w: Result<()>|
                            #[trigger] data_written(m2, m3, 8, a, v & 0xff, w) && match w {
                                Err(e) => r == Err::<Cycles, Exception>(e) && c1 == m3,
                                Ok(_) => r == Ok::<Cycles, Exception>(Cycles(16))
                                    && c1 == common::move_flags_outcome(m3, v & 0xff, 0).0,
                            },
                    },
            }
}

/// MOVE to memory: the value is written, then N and Z are set from it.
pub fn move_8_di_imm(core: &mut ConfiguredCore) -> (r: Result<Cycles>)
    requires
        old(core).wf(),
    ensures
        final(core).wf(),
        move_8_di_imm_effect(*old(core), *final(core), r),
{
    let ghost c0 = *core;
    let src = operator::imm_8(core);
    let ghost m1 = *core;
    assert(operator::imm_8_rel(c0, m1, src));
    let v = match src {
        Err(e) => {
            return Err(e);
        },
        Ok(v) => v,
    };
    let m = v & 0xff;
    let ea = effective_address::displacement_ax(core);
    let ghost m2 = *core;
    assert(effective_address::displacement_ax_rel(m1, m2, ea));
    let a = match ea {
        Err(e) => {
            return Err(e);
        },
        Ok(a) => a,
    };
    let w = write_sized(core, 8, a, m);
    let ghost m3 = *core;
    assert(data_written(m2, m3, 8, a, m, w));
    match w {
        Err(e) => Err(e),
        Ok(()) => {
            common::move_flags(core, m, 0);
            Ok(Cycles(16))
        },
    }
}

/// What `move_8_ix_imm` does: the core goes from `c0` to `c1` and `r` comes back.
pub open spec fn move_8_ix_imm_effect(c0: ConfiguredCore, c1: ConfiguredCore, r: Result<Cycles>) -> bool {
    &&& exists|m1: ConfiguredCore, src: Result<u32>|
            #[trigger] operator::imm_8_rel(c0, m1, src) && match src {
                Err(e) => r == Err::<Cycles, Exception>(e) && c1 == m1,
                Ok(v) => exists|m2: ConfiguredCore, ea: Result<u32>|
                    #[trigger] effective_address::index_ax_rel(m1, m2, ea) && match ea {
                        Err(e) => r == Err::<Cycles, Exception>(e) && c1 == m2,
                        Ok(a) => exists|m3: ConfiguredCore, w: Result<()>|
                            #[trigger] data_written(m2, m3, 8, a, v & 0xff, w) && match w {
                                Err(e) => r == Err::<Cycles, Exception>(e) && c1 == m3,
                                Ok(_) => r == Ok::<Cycles, Exception>(Cycles(18))
                                    && c1 == common::move_flags_outcome(m3, v & 0xff, 0).0,
                            },
                    },
            }
}

/// MOVE to memory: the value is written, then N and Z are set from it.
pub fn move_8_ix_imm(core: &mut ConfiguredCore) -> (r: Result<Cycles>)
    requires
        old(core).wf(),
    ensures
        final(core).wf(),
        move_8_ix_imm_effect(*old(core), *final(core), r),
{
    let ghost c0 = *core;
    let src = operator::imm_8(core);
    let ghost m1 = *core;
    assert(operator::imm_8_rel(c0, m1, src));
    let v = match src {
        Err(e) => {
            return Err(e);
        },
        Ok(v) => v,
    };
    let m = v & 0xff;
    let ea = effective_address::index_ax(core);
    let ghost m2 = *core;
    assert(effective_address::index_ax_rel(m1, m2, ea));
    let a = match ea {
        Err(e) => {
            return Err(e);
        },
        Ok(a) => a,
    };
    let w = write_sized(core, 8, a, m);
    let ghost m3 = *core;
    assert(data_written(m2, m3, 8, a, m, w));
    match w {
        Err(e) => Err(e),
        Ok(()) => {
            common::move_flags(core, m, 0);
            Ok(Cycles(18))
        },
    }
}

/// What `move_8_aw_imm` does: the core goes from `c0` to `c1` and `r` comes back.
pub open spec fn move_8_aw_imm_effect(c0: ConfiguredCore, c1: ConfiguredCore, r: Result<Cycles>) -> bool {
    &&& exists|m1: ConfiguredCore, src: Result<u32>|
            #[trigger] operator::imm_8_rel(c0, m1, src) && match src {
                Err(e) => r == Err::<Cycles, Exception>(e) && c1 == m1,
                Ok(v) => exists|m2: ConfiguredCore, ea: Result<u32>|
                    #[trigger] effective_address::absolute_word_rel(m1, m2, ea) && match ea {
                        Err(e) => r == Err::<Cycles, Exception>(e) && c1 == m2,
                        Ok(a) => exists|m3: ConfiguredCore, w: Result<()>|
                            #[trigger] data_written(m2, m3, 8, a, v & 0xff, w) && match w {
                                Err(e) => r == Err::<Cycles, Exception>(e) && c1 == m3,
                                Ok(_) => r == Ok::<Cycles, Exception>(Cycles(16))
                                    && c1 == common::move_flags_outcome(m3, v & 0xff, 0).0,
                            },
                    },
            }
}

/// MOVE to memory: the value is written, then N and Z are set from it.
pub fn move_8_aw_imm(core: &mut ConfiguredCore) -> (r: Result<Cycles>)
    requires
        old(core).wf(),
    ensures
        final(core).wf(),
        move_8_aw_imm_effect(*old(core), *final(core), r),
{
    let ghost c0 = *core;
    let src = operator::imm_8(core);
    let ghost m1 = *core;
    assert(operator::imm_8_rel(c0, m1, src));
    let v = match src {
        Err(e) => {
            return Err(e);
        },
        Ok(v) => v,
    };
    let m = v & 0xff;
    let ea = effective_address::absolute_word(core);
    let ghost m2 = *core;
    assert(effective_address::absolute_word_rel(m1, m2, ea));
    let a = match ea {
        Err(e) => {
            return Err(e);
        },
        Ok(a) => a,
    };
    let w = write_sized(core, 8, a, m);
    let ghost m3 = *core;
    assert(data_written(m2, m3, 8, a, m, w));
    match w {
        Err(e) => Err(e),
        Ok(()) => {
            common::move_flags(core, m, 0);
            Ok(Cycles(16))
        },
    }
}

/// What `move_8_al_imm` does: the core goes from `c0` to `c1` and `r` comes back.
pub open spec fn move_8_al_imm_effect(c0: ConfiguredCore, c1: ConfiguredCore, r: Result<Cycles>) -> bool {
    &&& exists|m1: ConfiguredCore, src: Result<u32>|
            #[trigger] operator::imm_8_rel(c0, m1, src) && match src {
                Err(e) => r == Err::<Cycles, Exception>(e) && c1 == m1,
                Ok(v) => exists|m2: ConfiguredCore, ea: Result<u32>|
                    #[trigger] effective_address::absolute_long_rel(m1, m2, ea) && match ea {
                        Err(e) => r == Err::<Cycles, Exception>(e) && c1 == m2,
                        Ok(a) => exists|m3: ConfiguredCore, w: Result<()>|
                            #[trigger] data_written(m2, m3, 8, a, v & 0xff, w) && match w {
                                Err(e) => r == Err::<Cycles, Exception>(e) && c1 == m3,
                                Ok(_) => r == Ok::<Cycles, Exception>(Cycles(20))
                                    && c1 == common::move_flags_outcome(m3, v & 0xff, 0).0,
                            },
                    },
            }
}

/// MOVE to memory: the value is written, then N and Z are set from it.
pub fn move_8_al_imm(core: &mut ConfiguredCore) -> (r: Result<Cycles>)
    requires
        old(core).wf(),
    ensures
        final(core).wf(),
        move_8_al_imm_effect(*old(core), *final(core), r),
{
    let ghost c0 = *core;
    let src = operator::imm_8(core);
    let ghost m1 = *core;
    assert(operator::imm_8_rel(c0, m1, src));
    let v = match src {
        Err(e) => {
            return Err(e);
        },
        Ok(v) => v,
    };
    let m = v & 0xff;
    let ea = effective_address::absolute_long(core);
    let ghost m2 = *core;
    assert(effective_address::absolute_long_rel(m1, m2, ea));
    let a = match ea {
        Err(e) => {
            return Err(e);
        },
        Ok(a) => a,
    };
    let w = write_sized(core, 8, a, m);
    let ghost m3 = *core;
    assert(data_written(m2, m3, 8, a, m, w));
    match w {
        Err(e) => Err(e),
        Ok(()) => {
            common::move_flags(core, m, 0);
            Ok(Cycles(20))
        },
    }
}

/// What `move_16_dn_dn` does: the core goes from `c0` to `c1` and `r` comes back.
pub open spec fn move_16_dn_dn_effect(c0: ConfiguredCore, c1: ConfiguredCore, r: Result<Cycles>) -> bool {
    &&& exists|mid: ConfiguredCore, src: Result<u32>|
            #[trigger] operator::dy_rel(c0, mid, src) && match src {
                Err(e) => r == Err::<Cycles, Exception>(e) && c1 == mid,
                Ok(v) => {
                    let m = v & 0xffff;
                    let reg = ir_dx(mid.ir);
                    &&& r == Ok::<Cycles, Exception>(Cycles(4))
                    &&& reg_set(common::move_flags_outcome(mid, m, 8).0, c1, reg, merged(mid.dar[reg], m, 16))
                },
            }
}

/// MOVE into Dx, with N and Z set from the value moved.
pub fn move_16_dn_dn(core: &mut ConfiguredCore) -> (r: Result<Cycles>)
    requires
        old(core).wf(),
    ensures
        final(core).wf(),
        move_16_dn_dn_effect(*old(core), *final(core), r),
{
    let ghost c0 = *core;
    let src = operator::dy(core);
    let ghost mid = *core;
    assert(operator::dy_rel(c0, mid, src));
    match src {
        Err(e) => Err(e),
        Ok(v) => {
            let m = v & 0xffff;
            let reg = reg_dx(core.ir);
            let dst = core.dar[reg];
            common::move_flags(core, m, 8);
            set_reg(core, reg, merge(dst, m, 16));
            Ok(Cycles(4))
        },
    }
}

/// What `move_16_ai_dn` does: the core goes from `c0` to `c1` and `r` comes back.
pub open spec fn move_16_ai_dn_effect(c0: ConfiguredCore, c1: ConfiguredCore, r: Result<Cycles>) -> bool {
    &&& exists|m1: ConfiguredCore, src: Result<u32>|
            #[trigger] operator::dy_rel(c0, m1, src) && match src {
                Err(e) => r == Err::<Cycles, Exception>(e) && c1 == m1,
                Ok(v) => exists|m2: ConfiguredCore, ea: Result<u32>|
                    #[trigger] effective_address::address_indirect_ax_rel(m1, m2, ea) && match ea {
                        Err(e) => r == Err::<Cycles, Exception>(e) && c1 == m2,
                        Ok(a) => exists|m3: ConfiguredCore, w: Result<()>|
                            #[trigger] data_written(m2, m3, 16, a, v & 0xffff, w) && match w {
                                Err(e) => r == Err::<Cycles, Exception>(e) && c1 == m3,
                                Ok(_) => r == Ok::<Cycles, Exception>(Cycles(8))
                                    && c1 == common::move_flags_outcome(m3, v & 0xffff, 8).0,
                            },
                    },
            }
}

/// MOVE to memory: the value is written, then N and Z are set from it.
pub fn move_16_ai_dn(core: &mut ConfiguredCore) -> (r: Result<Cycles>)
    requires
        old(core).wf(),
    ensures
        final(core).wf(),
        move_16_ai_dn_effect(*old(core), *final(core), r),
{
    let ghost c0 = *core;
    let src = operator::dy(core);
    let ghost m1 = *core;
    assert(operator::dy_rel(c0, m1, src));
    let v = match src {
        Err(e) => {
            return Err(e);
        },
        Ok(v) => v,
    };
    let m = v & 0xffff;
    let ea = effective_address::address_indirect_ax(core);
    let ghost m2 = *core;
    assert(effective_address::address_indirect_ax_rel(m1, m2, ea));
    let a = match ea {
        Err(e) => {
            return Err(e);
        },
        Ok(a) => a,
    };
    let w = write_sized(core, 16, a, m);
    let ghost m3 = *core;
    assert(data_written(m2, m3, 16, a, m, w));
    match w {
        Err(e) => Err(e),
        Ok(()) => {
            common::move_flags(core, m, 8);
            Ok(Cycles(8))
        },
    }
}

/// What `move_16_pi_dn` does: the core goes from `c0` to `c1` and `r` comes back.
pub open spec fn move_16_pi_dn_effect(c0: ConfiguredCore, c1: ConfiguredCore, r: Result<Cycles>) -> bool {
    &&& exists|m1: ConfiguredCore, src: Result<u32>|
            #[trigger] operator::dy_rel(c0, m1, src) && match src {
                Err(e) => r == Err::<Cycles, Exception>(e) && c1 == m1,
                Ok(v) => exists|m2: ConfiguredCore, ea: Result<u32>|
                    #[trigger] effective_address::postincrement_ax_16_rel(m1, m2, ea) && match ea {
                        Err(e) => r == Err::<Cycles, Exception>(e) && c1 == m2,
                        Ok(a) => exists|m3: ConfiguredCore, w: Result<()>|
                            #[trigger] data_written(m2, m3, 16, a, v & 0xffff, w) && match w {
                                Err(e) => r == Err::<Cycles, Exception>(e) && c1 == m3,
                                Ok(_) => r == Ok::<Cycles, Exception>(Cycles(8))
                                    && c1 == common::move_flags_outcome(m3, v & 0xffff, 8).0,
                            },
                    },
            }
}

/// MOVE to memory: the value is written, then N and Z are set from it.
pub fn move_16_pi_dn(core: &mut ConfiguredCore) -> (r: Result<Cycles>)
    requires
        old(core).wf(),
    ensures
        final(core).wf(),
        move_16_pi_dn_effect(*old(core), *final(core), r),
{
    let ghost c0 = *core;
    let src = operator::dy(core);
    let ghost m1 = *core;
    assert(operator::dy_rel(c0, m1, src));
    let v = match src {
        Err(e) => {
            return Err(e);
        },
        Ok(v) => v,
    };
    let m = v & 0xffff;
    let ea = effective_address::postincrement_ax_16(core);
    let ghost m2 = *core;
    assert(effective_address::postincrement_ax_16_rel(m1, m2, ea));
    let a = match ea {
        Err(e) => {
            return Err(e);
        },
        Ok(a) => a,
    };
    let w = write_sized(core, 16, a, m);
    let ghost m3 = *core;
    assert(data_written(m2, m3, 16, a, m, w));
    match w {
        Err(e) => Err(e),
        Ok(()) => {
            common::move_flags(core, m, 8);
            Ok(Cycles(8))
        },
    }
}

/// What `move_16_pd_dn` does: the core goes from `c0` to `c1` and `r` comes back.
pub open spec fn move_16_pd_dn_effect(c0: ConfiguredCore, c1: ConfiguredCore, r: Result<Cycles>) -> bool {
    &&& exists|m1: ConfiguredCore, src: Result<u32>|
            #[trigger] operator::dy_rel(c0, m1, src) && match src {
                Err(e) => r == Err::<Cycles, Exception>(e) && c1 == m1,
                Ok(v) => exists|m2: ConfiguredCore, ea: Result<u32>|
                    #[trigger] effective_address::predecrement_ax_16_rel(m1, m2, ea) && match ea {
                        Err(e) => r == Err::<Cycles, Exception>(e) && c1 == m2,
                        Ok(a) => exists|m3: ConfiguredCore, w: Result<()>|
                            #[trigger] data_written(m2, m3, 16, a, v & 0xffff, w) && match w {
                                Err(e) => r == Err::<Cycles, Exception>(e) && c1 == m3,
                                Ok(_) => r == Ok::<Cycles, Exception>(Cycles(8))
                                    && c1 == common::move_flags_outcome(m3, v & 0xffff, 8).0,
                            },
                    },
            }
}

/// MOVE to memory: the value is written, then N and Z are set from it.
pub fn move_16_pd_dn(core: &mut ConfiguredCore) -> (r: Result<Cycles>)
    requires
        old(core).wf(),
    ensures
        final(core).wf(),
        move_16_pd_dn_effect(*old(core), *final(core), r),
{
    let ghost c0 = *core;
    let src = operator::dy(core);
    let ghost m1 = *core;
    assert(operator::dy_rel(c0, m1, src));
    let v = match src {
        Err(e) => {
            return Err(e);
        },
        Ok(v) => v,
    };
    let m = v & 0xffff;
    let ea = effective_address::predecrement_ax_16(core);
    let ghost m2 = *core;
    assert(effective_address::predecrement_ax_16_rel(m1, m2, ea));
    let a = match ea {
        Err(e) => {
            return Err(e);
        },
        Ok(a) => a,
    };
    let w = write_sized(core, 16, a, m);
    let ghost m3 = *core;
    assert(data_written(m2, m3, 16, a, m, w));
    match w {
        Err(e) => Err(e),
        Ok(()) => {
            common::move_flags(core, m, 8);
            Ok(Cycles(8))
        },
    }
}

/// What `move_16_di_dn` does: the core goes from `c0` to `c1` and `r` comes back.
pub open spec fn move_16_di_dn_effect(c0: ConfiguredCore, c1: ConfiguredCore, r: Result<Cycles>) -> bool {
    &&& exists|m1: ConfiguredCore, src: Result<u32>|
            #[trigger] operator::dy_rel(c0, m1, src) && match src {
                Err(e) => r == Err::<Cycles, Exception>(e) && c1 == m1,
                Ok(v) => exists|m2: ConfiguredCore, ea: Result<u32>|
                    #[trigger] effective_address::displacement_ax_rel(m1, m2, ea) && match ea {
                        Err(e) => r == Err::<Cycles, Exception>(e) && c1 == m2,
                        Ok(a) => exists|m3: ConfiguredCore, w: Result<()>|
                            #[trigger] data_written(m2, m3, 16, a, v & 0xffff, w) && match w {
                                Err(e) => r == Err::<Cycles, Exception>(e) && c1 == m3,
                                Ok(_) => r == Ok::<Cycles, Exception>(Cycles(12))
                                    && c1 == common::move_flags_outcome(m3, v & 0xffff, 8).0,
                            },
                    },
            }
}

/// MOVE to memory: the value is written, then N and Z are set from it.
pub fn move_16_di_dn(core: &mut ConfiguredCore) -> (r: Result<Cycles>)
    requires
        old(core).wf(),
    ensures
        final(core).wf(),
        move_16_di_dn_effect(*old(core), *final(core), r),
{
    let ghost c0 = *core;
    let src = operator::dy(core);
    let ghost m1 = *core;
    assert(operator::dy_rel(c0, m1, src));
    let v = match src {
        Err(e) => {
            return Err(e);
        },
        Ok(v) => v,
    };
    let m = v & 0xffff;
    let ea = effective_address::displacement_ax(core);
    let ghost m2 = *core;
    assert(effective_address::displacement_ax_rel(m1, m2, ea));
    let a = match ea {
        Err(e) => {
            return Err(e);
        },
        Ok(a) => a,
    };
    let w = write_sized(core, 16, a, m);
    let ghost m3 = *core;
    assert(data_written(m2, m3, 16, a, m, w));
    match w {
        Err(e) => Err(e),
        Ok(()) => {
            common::move_flags(core, m, 8);
            Ok(Cycles(12))
        },
    }
}

/// What `move_16_ix_dn` does: the core goes from `c0` to `c1` and `r` comes back.
pub open spec fn move_16_ix_dn_effect(c0: ConfiguredCore, c1: ConfiguredCore, r: Result<Cycles>) -> bool {
    &&& exists|m1: ConfiguredCore, src: Result<u32>|
            #[trigger] operator::dy_rel(c0, m1, src) && match src {
                Err(e) => r == Err::<Cycles, Exception>(e) && c1 == m1,
                Ok(v) => exists|m2: ConfiguredCore, ea: Result<u32>|
                    #[trigger] effective_address::index_ax_rel(m1, m2, ea) && match ea {
                        Err(e) => r == Err::<Cycles, Exception>(e) && c1 == m2,
                        Ok(a) => exists|m3: ConfiguredCore, w: Result<()>|
                            #[trigger] data_written(m2, m3, 16, a, v & 0xffff, w) && match w {
                                Err(e) => r == Err::<Cycles, Exception>(e) && c1 == m3,
                                Ok(_) => r == Ok::<Cycles, Exception>(Cycles(14))
                                    && c1 == common::move_flags_outcome(m3, v & 0xffff, 8).0,
                            },
                    },
            }
}

/// MOVE to memory: the value is written, then N and Z are set from it.
pub fn move_16_ix_dn(core: &mut ConfiguredCore) -> (r: Result<Cycles>)
    requires
        old(core).wf(),
    ensures
        final(core).wf(),
        move_16_ix_dn_effect(*old(core), *final(core), r),
{
    let ghost c0 = *core;
    let src = operator::dy(core);
    let ghost m1 = *core;
    assert(operator::dy_rel(c0, m1, src));
    let v = match src {
        Err(e) => {
            return Err(e);
        },
        Ok(v) => v,
    };
    let m = v & 0xffff;
    let ea = effective_address::index_ax(core);
    let ghost m2 = *core;
    assert(effective_address::index_ax_rel(m1, m2, ea));
    let a = match ea {
        Err(e) => {
            return Err(e);
        },
        Ok(a) => a,
    };
    let w = write_sized(core, 16, a, m);
    let ghost m3 = *core;
    assert(data_written(m2, m3, 16, a, m, w));
    match w {
        Err(e) => Err(e),
        Ok(()) => {
            common::move_flags(core, m, 8);
            Ok(Cycles(14))
        },
    }
}

/// What `move_16_aw_dn` does: the core goes from `c0` to `c1` and `r` comes back.
pub open spec fn move_16_aw_dn_effect(c0: ConfiguredCore, c1: ConfiguredCore, r: Result<Cycles>) -> bool {
    &&& exists|m1: ConfiguredCore, src: Result<u32>|
            #[trigger] operator::dy_rel(c0, m1, src) && match src {
                Err(e) => r == Err::<Cycles, Exception>(e) && c1 == m1,
                Ok(v) => exists|m2: ConfiguredCore, ea: Result<u32>|
                    #[trigger] effective_address::absolute_word_rel(m1, m2, ea) && match ea {
                        Err(e) => r == Err::<Cycles, Exception>(e) && c1 == m2,
                        Ok(a) => exists|m3: ConfiguredCore, w: Result<()>|
                            #[trigger] data_written(m2, m3, 16, a, v & 0xffff, w) && match w {
                                Err(e) => r == Err::<Cycles, Exception>(e) && c1 == m3,
                                Ok(_) => r == Ok::<Cycles, Exception>(Cycles(12))
                                    && c1 == common::move_flags_outcome(m3, v & 0xffff, 8).0,
                            },
                    },
            }
}

/// MOVE to memory: the value is written, then N and Z are set from it.
pub fn move_16_aw_dn(core: &mut ConfiguredCore) -> (r: Result<Cycles>)
    requires
        old(core).wf(),
    ensures
        final(core).wf(),
        move_16_aw_dn_effect(*old(core), *final(core), r),
{
    let ghost c0 = *core;
    let src = operator::dy(core);
    let ghost m1 = *core;
    assert(operator::dy_rel(c0, m1, src));
    let v = match src {
        Err(e) => {
            return Err(e);
        },
        Ok(v) => v,
    };
    let m = v & 0xffff;
    let ea = effective_address::absolute_word(core);
    let ghost m2 = *core;
    assert(effective_address::absolute_word_rel(m1, m2, ea));
    let a = match ea {
        Err(e) => {
            return Err(e);
        },
        Ok(a) => a,
    };
    let w = write_sized(core, 16, a, m);
    let ghost m3 = *core;
    assert(data_written(m2, m3, 16, a, m, w));
    match w {
        Err(e) => Err(e),
        Ok(()) => {
            common::move_flags(core, m, 8);
            Ok(Cycles(12))
        },
    }
}

/// What `move_16_al_dn` does: the core goes from `c0` to `c1` and `r` comes back.
pub open spec fn move_16_al_dn_effect(c0: ConfiguredCore, c1: ConfiguredCore, r: Result<Cycles>) -> bool {
    &&& exists|m1: ConfiguredCore, src: Result<u32>|
            #[trigger] operator::dy_rel(c0, m1, src) && match src {
                Err(e) => r == Err::<Cycles, Exception>(e) && c1 == m1,
                Ok(v) => exists|m2: ConfiguredCore, ea: Result<u32>|
                    #[trigger] effective_address::absolute_long_rel(m1, m2, ea) && match ea {
                        Err(e) => r == Err::<Cycles, Exception>(e) && c1 == m2,
                        Ok(a) => exists|m3: ConfiguredCore, w: Result<()>|
                            #[trigger] data_written(m2, m3, 16, a, v & 0xffff, w) && match w {
                                Err(e) => r == Err::<Cycles, Exception>(e) && c1 == m3,
                                Ok(_) => r == Ok::<Cycles, Exception>(Cycles(16))
                                    && c1 == common::move_flags_outcome(m3, v & 0xffff, 8).0,
                            },
                    },
            }
}

/// MOVE to memory: the value is written, then N and Z are set from it.
pub fn move_16_al_dn(core: &mut ConfiguredCore) -> (r: Result<Cycles>)
    requires
        old(core).wf(),
    ensures
        final(core).wf(),
        move_16_al_dn_effect(*old(core), *final(core), r),
{
    let ghost c0 = *core;
    let src = operator::dy(core);
    let ghost m1 = *core;
    assert(operator::dy_rel(c0, m1, src));
    let v = match src {
        Err(e) => {
            return Err(e);
        },
        Ok(v) => v,
    };
    let m = v & 0xffff;
    let ea = effective_address::absolute_long(core);
    let ghost m2 = *core;
    assert(effective_address::absolute_long_rel(m1, m2, ea));
    let a = match ea {
        Err(e) => {
            return Err(e);
        },
        Ok(a) => a,
    };
    let w = write_sized(core, 16, a, m);
    let ghost m3 = *core;
    assert(data_written(m2, m3, 16, a, m, w));
    match w {
        Err(e) => Err(e),
        Ok(()) => {
            common::move_flags(core, m, 8);
            Ok(Cycles(16))
        },
    }
}

/// What `move_16_dn_an` does: the core goes from `c0` to `c1` and `r` comes back.
pub open spec fn move_16_dn_an_effect(c0: ConfiguredCore, c1: ConfiguredCore, r: Result<Cycles>) -> bool {
    &&& exists|mid: ConfiguredCore, src: Result<u32>|
            #[trigger] operator::ay_rel(c0, mid, src) && match src {
                Err(e) => r == Err::<Cycles, Exception>(e) && c1 == mid,
                Ok(v) => {
                    let m = v & 0xffff;
                    let reg = ir_dx(mid.ir);
                    &&& r == Ok::<Cycles, Exception>(Cycles(4))
                    &&& reg_set(common::move_flags_outcome(mid, m, 8).0, c1, reg, merged(mid.dar[reg], m, 16))
                },
            }
}

/// MOVE into Dx, with N and Z set from the value moved.
pub fn move_16_dn_an(core: &mut ConfiguredCore) -> (r: Result<Cycles>)
    requires
        old(core).wf(),
    ensures
        final(core).wf(),
        move_16_dn_an_effect(*old(core), *final(core), r),
{
    let ghost c0 = *core;
    let src = operator::ay(core);
    let ghost mid = *core;
    assert(operator::ay_rel(c0, mid, src));
    match src {
        Err(e) => Err(e),
        Ok(v) => {
            let m = v & 0xffff;
            let reg = reg_dx(core.ir);
            let dst = core.dar[reg];
            common::move_flags(core, m, 8);
            set_reg(core, reg, merge(dst, m, 16));
            Ok(Cycles(4))
        },
    }
}

/// What `move_16_ai_an` does: the core goes from `c0` to `c1` and `r` comes back.
pub open spec fn move_16_ai_an_effect(c0: ConfiguredCore, c1: ConfiguredCore, r: Result<Cycles>) -> bool {
    &&& exists|m1: ConfiguredCore, src: Result<u32>|
            #[trigger] operator::ay_rel(c0, m1, src) && match src {
                Err(e) => r == Err::<Cycles, Exception>(e) && c1 == m1,
                Ok(v) => exists|m2: ConfiguredCore, ea: Result<u32>|
                    #[trigger] effective_address::address_indirect_ax_rel(m1, m2, ea) && match ea {
                        Err(e) => r == Err::<Cycles, Exception>(e) && c1 == m2,
                        Ok(a) => exists|m3: ConfiguredCore, w: Result<()>|
                            #[trigger] data_written(m2, m3, 16, a, v & 0xffff, w) && match w {
                                Err(e) => r == Err::<Cycles, Exception>(e) && c1 == m3,
                                Ok(_) => r == Ok::<Cycles, Exception>(Cycles(8))
                                    && c1 == common::move_flags_outcome(m3, v & 0xffff, 8).0,
                            },
                    },
            }
}

/// MOVE to memory: the value is written, then N and Z are set from it.
pub fn move_16_ai_an(core: &mut ConfiguredCore) -> (r: Result<Cycles>)
    requires
        old(core).wf(),
    ensures
        final(core).wf(),
        move_16_ai_an_effect(*old(core), *final(core), r),
{
    let ghost c0 = *core;
    let src = operator::ay(core);
    let ghost m1 = *core;
    assert(operator::ay_rel(c0, m1, src));
    let v = match src {
        Err(e) => {
            return Err(e);
        },
        Ok(v) => v,
    };
    let m = v & 0xffff;
    let ea = effective_address::address_indirect_ax(core);
    let ghost m2 = *core;
    assert(effective_address::address_indirect_ax_rel(m1, m2, ea));
    let a = match ea {
        Err(e) => {
            return Err(e);
        },
        Ok(a) => a,
    };
    let w = write_sized(core, 16, a, m);
    let ghost m3 = *core;
    assert(data_written(m2, m3, 16, a, m, w));
    match w {
        Err(e) => Err(e),
        Ok(()) => {
            common::move_flags(core, m, 8);
            Ok(Cycles(8))
        },
    }
}

/// What `move_16_pi_an` does: the core goes from `c0` to `c1` and `r` comes back.
pub open spec fn move_16_pi_an_effect(c0: ConfiguredCore, c1: ConfiguredCore, r: Result<Cycles>) -> bool {
    &&& exists|m1: ConfiguredCore, src: Result<u32>|
            #[trigger] operator::ay_rel(c0, m1, src) && match src {
                Err(e) => r == Err::<Cycles, Exception>(e) && c1 == m1,
                Ok(v) => exists|m2: ConfiguredCore, ea: Result<u32>|
                    #[trigger] effective_address::postincrement_ax_16_rel(m1, m2, ea) && match ea {
                        Err(e) => r == Err::<Cycles, Exception>(e) && c1 == m2,
                        Ok(a) => exists|m3: ConfiguredCore, w: Result<()>|
                            #[trigger] data_written(m2, m3, 16, a, v & 0xffff, w) && match w {
                                Err(e) => r == Err::<Cycles, Exception>(e) && c1 == m3,
                                Ok(_) => r == Ok::<Cycles, Exception>(Cycles(8))
                                    && c1 == common::move_flags_outcome(m3, v & 0xffff, 8).0,
                            },
                    },
            }
}

/// MOVE to memory: the value is written, then N and Z are set from it.
pub fn move_16_pi_an(core: &mut ConfiguredCore) -> (r: Result<Cycles>)
    requires
        old(core).wf(),
    ensures
        final(core).wf(),
        move_16_pi_an_effect(*old(core), *final(core), r),
{
    let ghost c0 = *core;
    let src = operator::ay(core);
    let ghost m1 = *core;
    assert(operator::ay_rel(c0, m1, src));
    let v = match src {
        Err(e) => {
            return Err(e);
        },
        Ok(v) => v,
    };
    let m = v & 0xffff;
    let ea = effective_address::postincrement_ax_16(core);
    let ghost m2 = *core;
    assert(effective_address::postincrement_ax_16_rel(m1, m2, ea));
    let a = match ea {
        Err(e) => {
            return Err(e);
        },
        Ok(a) => a,
    };
    let w = write_sized(core, 16, a, m);
    let ghost m3 = *core;
    assert(data_written(m2, m3, 16, a, m, w));
    match w {
        Err(e) => Err(e),
        Ok(()) => {
            common::move_flags(core, m, 8);
            Ok(Cycles(8))
        },
    }
}

/// What `move_16_pd_an` does: the core goes from `c0` to `c1` and `r` comes back.
pub open spec fn move_16_pd_an_effect(c0: ConfiguredCore, c1: ConfiguredCore, r: Result<Cycles>) -> bool {
    &&& exists|m1: ConfiguredCore, src: Result<u32>|
            #[trigger] operator::ay_rel(c0, m1, src) && match src {
                Err(e) => r == Err::<Cycles, Exception>(e) && c1 == m1,
                Ok(v) => exists|m2: ConfiguredCore, ea: Result<u32>|
                    #[trigger] effective_address::predecrement_ax_16_rel(m1, m2, ea) && match ea {
                        Err(e) => r == Err::<Cycles, Exception>(e) && c1 == m2,
                        Ok(a) => exists|m3: ConfiguredCore, w: Result<()>|
                            #[trigger] data_written(m2, m3, 16, a, v & 0xffff, w) && match w {
                                Err(e) => r == Err::<Cycles, Exception>(e) && c1 == m3,
                                Ok(_) => r == Ok::<Cycles, Exception>(Cycles(8))
                                    && c1 == common::move_flags_outcome(m3, v & 0xffff, 8).0,
                            },
                    },
            }
}

/// MOVE to memory: the value is written, then N and Z are set from it.
pub fn move_16_pd_an(core: &mut ConfiguredCore) -> (r: Result<Cycles>)
    requires
        old(core).wf(),
    ensures
        final(core).wf(),
        move_16_pd_an_effect(*old(core), *final(core), r),
{
    let ghost c0 = *core;
    let src = operator::ay(core);
    let ghost m1 = *core;
    assert(operator::ay_rel(c0, m1, src));
    let v = match src {
        Err(e) => {
            return Err(e);
        },
        Ok(v) => v,
    };
    let m = v & 0xffff;
    let ea = effective_address::predecrement_ax_16(core);
    let ghost m2 = *core;
    assert(effective_address::predecrement_ax_16_rel(m1, m2, ea));
    let a = match ea {
        Err(e) => {
            return Err(e);
        },
        Ok(a) => a,
    };
    let w = write_sized(core, 16, a, m);
    let ghost m3 = *core;
    assert(data_written(m2, m3, 16, a, m, w));
    match w {
        Err(e) => Err(e),
        Ok(()) => {
            common::move_flags(core, m, 8);
            Ok(Cycles(8))
        },
    }
}

/// What `move_16_di_an` does: the core goes from `c0` to `c1` and `r` comes back.
pub open spec fn move_16_di_an_effect(c0: ConfiguredCore, c1: ConfiguredCore, r: Result<Cycles>) -> bool {
    &&& exists|m1: ConfiguredCore, src: Result<u32>|
            #[trigger] operator::ay_rel(c0, m1, src) && match src {
                Err(e) => r == Err::<Cycles, Exception>(e) && c1 == m1,
                Ok(v) => exists|m2: ConfiguredCore, ea: Result<u32>|
                    #[trigger] effective_address::displacement_ax_rel(m1, m2, ea) && match ea {
                        Err(e) => r == Err::<Cycles, Exception>(e) && c1 == m2,
                        Ok(a) => exists|m3: ConfiguredCore, w: Result<()>|
                            #[trigger] data_written(m2, m3, 16, a, v & 0xffff, w) && match w {
                                Err(e) => r == Err::<Cycles, Exception>(e) && c1 == m3,
                                Ok(_) => r == Ok::<Cycles, Exception>(Cycles(12))
                                    && c1 == common::move_flags_outcome(m3, v & 0xffff, 8).0,
                            },
                    },
            }
}

/// MOVE to memory: the value is written, then N and Z are set from it.
pub fn move_16_di_an(core: &mut ConfiguredCore) -> (r: Result<Cycles>)
    requires
        old(core).wf(),
    ensures
        final(core).wf(),
        move_16_di_an_effect(*old(core), *final(core), r),
{
    let ghost c0 = *core;
    let src = operator::ay(core);
    let ghost m1 = *core;
    assert(operator::ay_rel(c0, m1, src));
    let v = match src {
        Err(e) => {
            return Err(e);
        },
        Ok(v) => v,
    };
    let m = v & 0xffff;
    let ea = effective_address::displacement_ax(core);
    let ghost m2 = *core;
    assert(effective_address::displacement_ax_rel(m1, m2, ea));
    let a = match ea {
        Err(e) => {
            return Err(e);
        },
        Ok(a) => a,
    };
    let w = write_sized(core, 16, a, m);
    let ghost m3 = *core;
    assert(data_written(m2, m3, 16, a, m, w));
    match w {
        Err(e) => Err(e),
        Ok(()) => {
            common::move_flags(core, m, 8);
            Ok(Cycles(12))
        },
    }
}

/// What `move_16_ix_an` does: the core goes from `c0` to `c1` and `r` comes back.
pub open spec fn move_16_ix_an_effect(c0: ConfiguredCore, c1: ConfiguredCore, r: Result<Cycles>) -> bool {
    &&& exists|m1: ConfiguredCore, src: Result<u32>|
            #[trigger] operator::ay_rel(c0, m1, src) && match src {
                Err(e) => r == Err::<Cycles, Exception>(e) && c1 == m1,
                Ok(v) => exists|m2: ConfiguredCore, ea: Result<u32>|
                    #[trigger] effective_address::index_ax_rel(m1, m2, ea) && match ea {
                        Err(e) => r == Err::<Cycles, Exception>(e) && c1 == m2,
                        Ok(a) => exists|m3: ConfiguredCore, w: Result<()>|
                            #[trigger] data_written(m2, m3, 16, a, v & 0xffff, w) && match w {
                                Err(e) => r == Err::<Cycles, Exception>(e) && c1 == m3,
                                Ok(_) => r == Ok::<Cycles, Exception>(Cycles(14))
                                    && c1 == common::move_flags_outcome(m3, v & 0xffff, 8).0,
                            },
                    },
            }
}

/// MOVE to memory: the value is written, then N and Z are set from it.
pub fn move_16_ix_an(core: &mut ConfiguredCore) -> (r: Result<Cycles>)
    requires
        old(core).wf(),
    ensures
        final(core).wf(),
        move_16_ix_an_effect(*old(core), *final(core), r),
{
    let ghost c0 = *core;
    let src = operator::ay(core);
    let ghost m1 = *core;
    assert(operator::ay_rel(c0, m1, src));
    let v = match src {
        Err(e) => {
            return Err(e);
        },
        Ok(v) => v,
    };
    let m = v & 0xffff;
    let ea = effective_address::index_ax(core);
    let ghost m2 = *core;
    assert(effective_address::index_ax_rel(m1, m2, ea));
    let a = match ea {
        Err(e) => {
            return Err(e);
        },
        Ok(a) => a,
    };
    let w = write_sized(core, 16, a, m);
    let ghost m3 = *core;
    assert(data_written(m2, m3, 16, a, m, w));
    match w {
        Err(e) => Err(e),
        Ok(()) => {
            common::move_flags(core, m, 8);
            Ok(Cycles(14))
        },
    }
}

/// What `move_16_aw_an` does: the core goes from `c0` to `c1` and `r` comes back.
pub open spec fn move_16_aw_an_effect(c0: ConfiguredCore, c1: ConfiguredCore, r: Result<Cycles>) -> bool {
    &&& exists|m1: ConfiguredCore, src: Result<u32>|
            #[trigger] operator::ay_rel(c0, m1, src) && match src {
                Err(e) => r == Err::<Cycles, Exception>(e) && c1 == m1,
                Ok(v) => exists|m2: ConfiguredCore, ea: Result<u32>|
                    #[trigger] effective_address::absolute_word_rel(m1, m2, ea) && match ea {
                        Err(e) => r == Err::<Cycles, Exception>(e) && c1 == m2,
                        Ok(a) => exists|m3: ConfiguredCore, w: Result<()>|
                            #[trigger] data_written(m2, m3, 16, a, v & 0xffff, w) && match w {
                                Err(e) => r == Err::<Cycles, Exception>(e) && c1 == m3,
                                Ok(_) => r == Ok::<Cycles, Exception>(Cycles(12))
                                    && c1 == common::move_flags_outcome(m3, v & 0xffff, 8).0,
                            },
                    },
            }
}

/// MOVE to memory: the value is written, then N and Z are set from it.
pub fn move_16_aw_an(core: &mut ConfiguredCore) -> (r: Result<Cycles>)
    requires
        old(core).wf(),
    ensures
        final(core).wf(),
        move_16_aw_an_effect(*old(core), *final(core), r),
{
    let ghost c0 = *core;
    let src = operator::ay(core);
    let ghost m1 = *core;
    assert(operator::ay_rel(c0, m1, src));
    let v = match src {
        Err(e) => {
            return Err(e);
        },
        Ok(v) => v,
    };
    let m = v & 0xffff;
    let ea = effective_address::absolute_word(core);
    let ghost m2 = *core;
    assert(effective_address::absolute_word_rel(m1, m2, ea));
    let a = match ea {
        Err(e) => {
            return Err(e);
        },
        Ok(a) => a,
    };
    let w = write_sized(core, 16, a, m);
    let ghost m3 = *core;
    assert(data_written(m2, m3, 16, a, m, w));
    match w {
        Err(e) => Err(e),
        Ok(()) => {
            common::move_flags(core, m, 8);
            Ok(Cycles(12))
        },
    }
}

/// What `move_16_al_an` does: the core goes from `c0` to `c1` and `r` comes back.
pub open spec fn move_16_al_an_effect(c0: ConfiguredCore, c1: ConfiguredCore, r: Result<Cycles>) -> bool {
    &&& exists|m1: ConfiguredCore, src: Result<u32>|
            #[trigger] operator::ay_rel(c0, m1, src) && match src {
                Err(e) => r == Err::<Cycles, Exception>(e) && c1 == m1,
                Ok(v) => exists|m2: ConfiguredCore, ea: Result<u32>|
                    #[trigger] effective_address::absolute_long_rel(m1, m2, ea) && match ea {
                        Err(e) => r == Err::<Cycles, Exception>(e) && c1 == m2,
                        Ok(a) => exists|m3: ConfiguredCore, w: Result<()>|
                            #[trigger] data_written(m2, m3, 16, a, v & 0xffff, w) && match w {
                                Err(e) => r == Err::<Cycles, Exception>(e) && c1 == m3,
                                Ok(_) => r == Ok::<Cycles, Exception>(Cycles(16))
                                    && c1 == common::move_flags_outcome(m3, v & 0xffff, 8).0,
                            },
                    },
            }
}

/// MOVE to memory: the value is written, then N and Z are set from it.
pub fn move_16_al_an(core: &mut ConfiguredCore) -> (r: Result<Cycles>)
    requires
        old(core).wf(),
    ensures
        final(core).wf(),
        move_16_al_an_effect(*old(core), *final(core), r),
{
    let ghost c0 = *core;
    let src = operator::ay(core);
    let ghost m1 = *core;
    assert(operator::ay_rel(c0, m1, src));
    let v = match src {
        Err(e) => {
            return Err(e);
        },
        Ok(v) => v,
    };
    let m = v & 0xffff;
    let ea = effective_address::absolute_long(core);
    let ghost m2 = *core;
    assert(effective_address::absolute_long_rel(m1, m2, ea));
    let a = match ea {
        Err(e) => {
            return Err(e);
        },
        Ok(a) => a,
    };
    let w = write_sized(core, 16, a, m);
    let ghost m3 = *core;
    assert(data_written(m2, m3, 16, a, m, w));
    match w {
        Err(e) => Err(e),
        Ok(()) => {
            common::move_flags(core, m, 8);
            Ok(Cycles(16))
        },
    }
}

/// What `move_16_dn_ai` does: the core goes from `c0` to `c1` and `r` comes back.
pub open spec fn move_16_dn_ai_effect(c0: ConfiguredCore, c1: ConfiguredCore, r: Result<Cycles>) -> bool {
    &&& exists|mid: ConfiguredCore, src: Result<u32>|
            #[trigger] operator::ay_ai_16_rel(c0, mid, src) && match src {
                Err(e) => r == Err::<Cycles, Exception>(e) && c1 == mid,
                Ok(v) => {
                    let m = v & 0xffff;
                    let reg = ir_dx(mid.ir);
                    &&& r == Ok::<Cycles, Exception>(Cycles(8))
                    &&& reg_set(common::move_flags_outcome(mid, m, 8).0, c1, reg, merged(mid.dar[reg], m, 16))
                },
            }
}

/// MOVE into Dx, with N and Z set from the value moved.
pub fn move_16_dn_ai(core: &mut ConfiguredCore) -> (r: Result<Cycles>)
    requires
        old(core).wf(),
    ensures
        final(core).wf(),
        move_16_dn_ai_effect(*old(core), *final(core), r),
{
    let ghost c0 = *core;
    let src = operator::ay_ai_16(core);
    let ghost mid = *core;
    assert(operator::ay_ai_16_rel(c0, mid, src));
    match src {
        Err(e) => Err(e),
        Ok(v) => {
            let m = v & 0xffff;
            let reg = reg_dx(core.ir);
            let dst = core.dar[reg];
            common::move_flags(core, m, 8);
            set_reg(core, reg, merge(dst, m, 16));
            Ok(Cycles(8))
        },
    }
}

/// What `move_16_ai_ai` does: the core goes from `c0` to `c1` and `r` comes back.
pub open spec fn move_16_ai_ai_effect(c0: ConfiguredCore, c1: ConfiguredCore, r: Result<Cycles>) -> bool {
    &&& exists|m1: ConfiguredCore, src: Result<u32>|
            #[trigger] operator::ay_ai_16_rel(c0, m1, src) && match src {
                Err(e) => r == Err::<Cycles, Exception>(e) && c1 == m1,
                Ok(v) => exists|m2: ConfiguredCore, ea: Result<u32>|
                    #[trigger] effective_address::address_indirect_ax_rel(m1, m2, ea) && match ea {
                        Err(e) => r == Err::<Cycles, Exception>(e) && c1 == m2,
                        Ok(a) => exists|m3: ConfiguredCore, w: Result<()>|
                            #[trigger] data_written(m2, m3, 16, a, v & 0xffff, w) && match w {
                                Err(e) => r == Err::<Cycles, Exception>(e) && c1 == m3,
                                Ok(_) => r == Ok::<Cycles, Exception>(Cycles(12))
                                    && c1 == common::move_flags_outcome(m3, v & 0xffff, 8).0,
                            },
                    },
            }
}

/// MOVE to memory: the value is written, then N and Z are set from it.
pub fn move_16_ai_ai(core: &mut ConfiguredCore) -> (r: Result<Cycles>)
    requires
        old(core).wf(),
    ensures
        final(core).wf(),
        move_16_ai_ai_effect(*old(core), *final(core), r),
{
    let ghost c0 = *core;
    let src = operator::ay_ai_16(core);
    let ghost m1 = *core;
    assert(operator::ay_ai_16_rel(c0, m1, src));
    let v = match src {
        Err(e) => {
            return Err(e);
        },
        Ok(v) => v,
    };
    let m = v & 0xffff;
    let ea = effective_address::address_indirect_ax(core);
    let ghost m2 = *core;
    assert(effective_address::address_indirect_ax_rel(m1, m2, ea));
    let a = match ea {
        Err(e) => {
            return Err(e);
        },
        Ok(a) => a,
    };
    let w = write_sized(core, 16, a, m);
    let ghost m3 = *core;
    assert(data_written(m2, m3, 16, a, m, w));
    match w {
        Err(e) => Err(e),
        Ok(()) => {
            common::move_flags(core, m, 8);
            Ok(Cycles(12))
        },
    }
}

/// What `move_16_pi_ai` does: the core goes from `c0` to `c1` and `r` comes back.
pub open spec fn move_16_pi_ai_effect(c0: ConfiguredCore, c1: ConfiguredCore, r: Result<Cycles>) -> bool {
    &&& exists|m1: ConfiguredCore, src: Result<u32>|
            #[trigger] operator::ay_ai_16_rel(c0, m1, src) && match src {
                Err(e) => r == Err::<Cycles, Exception>(e) && c1 == m1,
                Ok(v) => exists|m2: ConfiguredCore, ea: Result<u32>|
                    #[trigger] effective_address::postincrement_ax_16_rel(m1, m2, ea) && match ea {
                        Err(e) => r == Err::<Cycles, Exception>(e) && c1 == m2,
                        Ok(a) => exists|m3: ConfiguredCore, w: Result<()>|
                            #[trigger] data_written(m2, m3, 16, a, v & 0xffff, w) && match w {
                                Err(e) => r == Err::<Cycles, Exception>(e) && c1 == m3,
                                Ok(_) => r == Ok::<Cycles, Exception>(Cycles(12))
                                    && c1 == common::move_flags_outcome(m3, v & 0xffff, 8).0,
                            },
                    },
            }
}

/// MOVE to memory: the value is written, then N and Z are set from it.
pub fn move_16_pi_ai(core: &mut ConfiguredCore) -> (r: Result<Cycles>)
    requires
        old(core).wf(),
    ensures
        final(core).wf(),
        move_16_pi_ai_effect(*old(core), *final(core), r),
{
    let ghost c0 = *core;
    let src = operator::ay_ai_16(core);
    let ghost m1 = *core;
    assert(operator::ay_ai_16_rel(c0, m1, src));
    let v = match src {
        Err(e) => {
            return Err(e);
        },
        Ok(v) => v,
    };
    let m = v & 0xffff;
    let ea = effective_address::postincrement_ax_16(core);
    let ghost m2 = *core;
    assert(effective_address::postincrement_ax_16_rel(m1, m2, ea));
    let a = match ea {
        Err(e) => {
            return Err(e);
        },
        Ok(a) => a,
    };
    let w = write_sized(core, 16, a, m);
    let ghost m3 = *core;
    assert(data_written(m2, m3, 16, a, m, w));
    match w {
        Err(e) => Err(e),
        Ok(()) => {
            common::move_flags(core, m, 8);
            Ok(Cycles(12))
        },
    }
}

/// What `move_16_pd_ai` does: the core goes from `c0` to `c1` and `r` comes back.
pub open spec fn move_16_pd_ai_effect(c0: ConfiguredCore, c1: ConfiguredCore, r: Result<Cycles>) -> bool {
    &&& exists|m1: ConfiguredCore, src: Result<u32>|
            #[trigger] operator::ay_ai_16_rel(c0, m1, src) && match src {
                Err(e) => r == Err::<Cycles, Exception>(e) && c1 == m1,
                Ok(v) => exists|m2: ConfiguredCore, ea: Result<u32>|
                    #[trigger] effective_address::predecrement_ax_16_rel(m1, m2, ea) && match ea {
                        Err(e) => r == Err::<Cycles, Exception>(e) && c1 == m2,
                        Ok(a) => exists|m3: ConfiguredCore, w: Result<()>|
                            #[trigger] data_written(m2, m3, 16, a, v & 0xffff, w) && match w {
                                Err(e) => r == Err::<Cycles, Exception>(e) && c1 == m3,
                                Ok(_) => r == Ok::<Cycles, Exception>(Cycles(12))
                                    && c1 == common::move_flags_outcome(m3, v & 0xffff, 8).0,
                            },
                    },
            }
}

/// MOVE to memory: the value is written, then N and Z are set from it.
pub fn move_16_pd_ai(core: &mut ConfiguredCore) -> (r: Result<Cycles>)
    requires
        old(core).wf(),
    ensures
        final(core).wf(),
        move_16_pd_ai_effect(*old(core), *final(core), r),
{
    let ghost c0 = *core;
    let src = operator::ay_ai_16(core);
    let ghost m1 = *core;
    assert(operator::ay_ai_16_rel(c0, m1, src));
    let v = match src {
        Err(e) => {
            return Err(e);
        },
        Ok(v) => v,
    };
    let m = v & 0xffff;
    let ea = effective_address::predecrement_ax_16(core);
    let ghost m2 = *core;
    assert(effective_address::predecrement_ax_16_rel(m1, m2, ea));
    let a = match ea {
        Err(e) => {
            return Err(e);
        },
        Ok(a) => a,
    };
    let w = write_sized(core, 16, a, m);
    let ghost m3 = *core;
    assert(data_written(m2, m3, 16, a, m, w));
    match w {
        Err(e) => Err(e),
        Ok(()) => {
            common::move_flags(core, m, 8);
            Ok(Cycles(12))
        },
    }
}

/// What `move_16_di_ai` does: the core goes from `c0` to `c1` and `r` comes back.
pub open spec fn move_16_di_ai_effect(c0: ConfiguredCore, c1: ConfiguredCore, r: Result<Cycles>) -> bool {
    &&& exists|m1: ConfiguredCore, src: Result<u32>|
            #[trigger] operator::ay_ai_16_rel(c0, m1, src) && match src {
                Err(e) => r == Err::<Cycles, Exception>(e) && c1 == m1,
                Ok(v) => exists|m2: ConfiguredCore, ea: Result<u32>|
                    #[trigger] effective_address::displacement_ax_rel(m1, m2, ea) && match ea {
                        Err(e) => r == Err::<Cycles, Exception>(e) && c1 == m2,
                        Ok(a) => exists|m3: ConfiguredCore, w: Result<()>|
                            #[trigger] data_written(m2, m3, 16, a, v & 0xffff, w) && match w {
                                Err(e) => r == Err::<Cycles, Exception>(e) && c1 == m3,
                                Ok(_) => r == Ok::<Cycles, Exception>(Cycles(16))
                                    && c1 == common::move_flags_outcome(m3, v & 0xffff, 8).0,
                            },
                    },
            }
}

/// MOVE to memory: the value is written, then N and Z are set from it.
pub fn move_16_di_ai(core: &mut ConfiguredCore) -> (r: Result<Cycles>)
    requires
        old(core).wf(),
    ensures
        final(core).wf(),
        move_16_di_ai_effect(*old(core), *final(core), r),
{
    let ghost c0 = *core;
    let src = operator::ay_ai_16(core);
    let ghost m1 = *core;
    assert(operator::ay_ai_16_rel(c0, m1, src));
    let v = match src {
        Err(e) => {
            return Err(e);
        },
        Ok(v) => v,
    };
    let m = v & 0xffff;
    let ea = effective_address::displacement_ax(core);
    let ghost m2 = *core;
    assert(effective_address::displacement_ax_rel(m1, m2, ea));
    let a = match ea {
        Err(e) => {
            return Err(e);
        },
        Ok(a) => a,
    };
    let w = write_sized(core, 16, a, m);
    let ghost m3 = *core;
    assert(data_written(m2, m3, 16, a, m, w));
    match w {
        Err(e) => Err(e),
        Ok(()) => {
            common::move_flags(core, m, 8);
            Ok(Cycles(16))
        },
    }
}

/// What `move_16_ix_ai` does: the core goes from `c0` to `c1` and `r` comes back.
pub open spec fn move_16_ix_ai_effect(c0: ConfiguredCore, c1: ConfiguredCore, r: Result<Cycles>) -> bool {
    &&& exists|m1: ConfiguredCore, src: Result<u32>|
            #[trigger] operator::ay_ai_16_rel(c0, m1, src) && match src {
                Err(e) => r == Err::<Cycles, Exception>(e) && c1 == m1,
                Ok(v) => exists|m2: ConfiguredCore, ea: Result<u32>|
                    #[trigger] effective_address::index_ax_rel(m1, m2, ea) && match ea {
                        Err(e) => r == Err::<Cycles, Exception>(e) && c1 == m2,
                        Ok(a) => exists|m3: ConfiguredCore, w: Result<()>|
                            #[trigger] data_written(m2, m3, 16, a, v & 0xffff, w) && match w {
                                Err(e) => r == Err::<Cycles, Exception>(e) && c1 == m3,
                                Ok(_) => r == Ok::<Cycles, Exception>(Cycles(18))
                                    && c1 == common::move_flags_outcome(m3, v & 0xffff, 8).0,
                            },
                    },
            }
}

/// MOVE to memory: the value is written, then N and Z are set from it.
pub fn move_16_ix_ai(core: &mut ConfiguredCore) -> (r: Result<Cycles>)
    requires
        old(core).wf(),
    ensures
        final(core).wf(),
        move_16_ix_ai_effect(*old(core), *final(core), r),
{
    let ghost c0 = *core;
    let src = operator::ay_ai_16(core);
    let ghost m1 = *core;
    assert(operator::ay_ai_16_rel(c0, m1, src));
    let v = match src {
        Err(e) => {
            return Err(e);
        },
        Ok(v) => v,
    };
    let m = v & 0xffff;
    let ea = effective_address::index_ax(core);
    let ghost m2 = *core;
    assert(effective_address::index_ax_rel(m1, m2, ea));
    let a = match ea {
        Err(e) => {
            return Err(e);
        },
        Ok(a) => a,
    };
    let w = write_sized(core, 16, a, m);
    let ghost m3 = *core;
    assert(data_written(m2, m3, 16, a, m, w));
    match w {
        Err(e) => Err(e),
        Ok(()) => {
            common::move_flags(core, m, 8);
            Ok(Cycles(18))
        },
    }
}

/// What `move_16_aw_ai` does: the core goes from `c0` to `c1` and `r` comes back.
pub open spec fn move_16_aw_ai_effect(c0: ConfiguredCore, c1: ConfiguredCore, r: Result<Cycles>) -> bool {
    &&& exists|m1: ConfiguredCore, src: Result<u32>|
            #[trigger] operator::ay_ai_16_rel(c0, m1, src) && match src {
                Err(e) => r == Err::<Cycles, Exception>(e) && c1 == m1,
                Ok(v) => exists|m2: ConfiguredCore, ea: Result<u32>|
                    #[trigger] effective_address::absolute_word_rel(m1, m2, ea) && match ea {
                        Err(e) => r == Err::<Cycles, Exception>(e) && c1 == m2,
                        Ok(a) => exists|m3: ConfiguredCore, w: Result<()>|
                            #[trigger] data_written(m2, m3, 16, a, v & 0xffff, w) && match w {
                                Err(e) => r == Err::<Cycles, Exception>(e) && c1 == m3,
                                Ok(_) => r == Ok::<Cycles, Exception>(Cycles(16))
                                    && c1 == common::move_flags_outcome(m3, v & 0xffff, 8).0,
                            },
                    },
            }
}

/// MOVE to memory: the value is written, then N and Z are set from it.
pub fn move_16_aw_ai(core: &mut ConfiguredCore) -> (r: Result<Cycles>)
    requires
        old(core).wf(),
    ensures
        final(core).wf(),
        move_16_aw_ai_effect(*old(core), *final(core), r),
{
    let ghost c0 = *core;
    let src = operator::ay_ai_16(core);
    let ghost m1 = *core;
    assert(operator::ay_ai_16_rel(c0, m1, src));
    let v = match src {
        Err(e) => {
            return Err(e);
        },
        Ok(v) => v,
    };
    let m = v & 0xffff;
    let ea = effective_address::absolute_word(core);
    let ghost m2 = *core;
    assert(effective_address::absolute_word_rel(m1, m2, ea));
    let a = match ea {
        Err(e) => {
            return Err(e);
        },
        Ok(a) => a,
    };
    let w = write_sized(core, 16, a, m);
    let ghost m3 = *core;
    assert(data_written(m2, m3, 16, a, m, w));
    match w {
        Err(e) => Err(e),
        Ok(()) => {
            common::move_flags(core, m, 8);
            Ok(Cycles(16))
        },
    }
}

/// What `move_16_al_ai` does: the core goes from `c0` to `c1` and `r` comes back.
pub open spec fn move_16_al_ai_effect(c0: ConfiguredCore, c1: ConfiguredCore, r: Result<Cycles>) -> bool {
    &&& exists|m1: ConfiguredCore, src: Result<u32>|
            #[trigger] operator::ay_ai_16_rel(c0, m1, src) && match src {
                Err(e) => r == Err::<Cycles, Exception>(e) && c1 == m1,
                Ok(v) => exists|m2: ConfiguredCore, ea: Result<u32>|
                    #[trigger] effective_address::absolute_long_rel(m1, m2, ea) && match ea {
                        Err(e) => r == Err::<Cycles, Exception>(e) && c1 == m2,
                        Ok(a) => exists|m3: ConfiguredCore, w: Result<()>|
                            #[trigger] data_written(m2, m3, 16, a, v & 0xffff, w) && match w {
                                Err(e) => r == Err::<Cycles, Exception>(e) && c1 == m3,
                                Ok(_) => r == Ok::<Cycles, Exception>(Cycles(20))
                                    && c1 == common::move_flags_outcome(m3, v & 0xffff, 8).0,
                            },
                    },
            }
}

/// MOVE to memory: the value is written, then N and Z are set from it.
pub fn move_16_al_ai(core: &mut ConfiguredCore) -> (r: Result<Cycles>)
    requires
        old(core).wf(),
    ensures
        final(core).wf(),
        move_16_al_ai_effect(*old(core), *final(core), r),
{
    let ghost c0 = *core;
    let src = operator::ay_ai_16(core);
    let ghost m1 = *core;
    assert(operator::ay_ai_16_rel(c0, m1, src));
    let v = match src {
        Err(e) => {
            return Err(e);
        },
        Ok(v) => v,
    };
    let m = v & 0xffff;
    let ea = effective_address::absolute_long(core);
    let ghost m2 = *core;
    assert(effective_address::absolute_long_rel(m1, m2, ea));
    let a = match ea {
        Err(e) => {
            return Err(e);
        },
        Ok(a) => a,
    };
    let w = write_sized(core, 16, a, m);
    let ghost m3 = *core;
    assert(data_written(m2, m3, 16, a, m, w));
    match w {
        Err(e) => Err(e),
        Ok(()) => {
            common::move_flags(core, m, 8);
            Ok(Cycles(20))
        },
    }
}

/// What `move_16_dn_pi` does: the core goes from `c0` to `c1` and `r` comes back.
pub open spec fn move_16_dn_pi_effect(c0: ConfiguredCore, c1: ConfiguredCore, r: Result<Cycles>) -> bool {
    &&& exists|mid: ConfiguredCore, src: Result<u32>|
            #[trigger] operator::ay_pi_16_rel(c0, mid, src) && match src {
                Err(e) => r == Err::<Cycles, Exception>(e) && c1 == mid,
                Ok(v) => {
                    let m = v & 0xffff;
                    let reg = ir_dx(mid.ir);
                    &&& r == Ok::<Cycles, Exception>(Cycles(8))
                    &&& reg_set(common::move_flags_outcome(mid, m, 8).0, c1, reg, merged(mid.dar[reg], m, 16))
                },
            }
}

/// MOVE into Dx, with N and Z set from the value moved.
pub fn move_16_dn_pi(core: &mut ConfiguredCore) -> (r: Result<Cycles>)
    requires
        old(core).wf(),
    ensures
        final(core).wf(),
        move_16_dn_pi_effect(*old(core), *final(core), r),
{
    let ghost c0 = *core;
    let src = operator::ay_pi_16(core);
    let ghost mid = *core;
    assert(operator::ay_pi_16_rel(c0, mid, src));
    match src {
        Err(e) => Err(e),
        Ok(v) => {
            let m = v & 0xffff;
            let reg = reg_dx(core.ir);
            let dst = core.dar[reg];
            common::move_flags(core, m, 8);
            set_reg(core, reg, merge(dst, m, 16));
            Ok(Cycles(8))
        },
    }
}

/// What `move_16_ai_pi` does: the core goes from `c0` to `c1` and `r` comes back.
pub open spec fn move_16_ai_pi_effect(c0: ConfiguredCore, c1: ConfiguredCore, r: Result<Cycles>) -> bool {
    &&& exists|m1: ConfiguredCore, src: Result<u32>|
            #[trigger] operator::ay_pi_16_rel(c0, m1, src) && match src {
                Err(e) => r == Err::<Cycles, Exception>(e) && c1 == m1,
                Ok(v) => exists|m2: ConfiguredCore, ea: Result<u32>|
                    #[trigger] effective_address::address_indirect_ax_rel(m1, m2, ea) && match ea {
                        Err(e) => r == Err::<Cycles, Exception>(e) && c1 == m2,
                        Ok(a) => exists|m3: ConfiguredCore, w: Result<()>|
                            #[trigger] data_written(m2, m3, 16, a, v & 0xffff, w) && match w {
                                Err(e) => r == Err::<Cycles, Exception>(e) && c1 == m3,
                                Ok(_) => r == Ok::<Cycles, Exception>(Cycles(12))
                                    && c1 == common::move_flags_outcome(m3, v & 0xffff, 8).0,
                            },
                    },
            }
}

/// MOVE to memory: the value is written, then N and Z are set from it.
pub fn move_16_ai_pi(core: &mut ConfiguredCore) -> (r: Result<Cycles>)
    requires
        old(core).wf(),
    ensures
        final(core).wf(),
        move_16_ai_pi_effect(*old(core), *final(core), r),
{
    let ghost c0 = *core;
    let src = operator::ay_pi_16(core);
    let ghost m1 = *core;
    assert(operator::ay_pi_16_rel(c0, m1, src));
    let v = match src {
        Err(e) => {
            return Err(e);
        },
        Ok(v) => v,
    };
    let m = v & 0xffff;
    let ea = effective_address::address_indirect_ax(core);
    let ghost m2 = *core;
    assert(effective_address::address_indirect_ax_rel(m1, m2, ea));
    let a = match ea {
        Err(e) => {
            return Err(e);
        },
        Ok(a) => a,
    };
    let w = write_sized(core, 16, a, m);
    let ghost m3 = *core;
    assert(data_written(m2, m3, 16, a, m, w));
    match w {
        Err(e) => Err(e),
        Ok(()) => {
            common::move_flags(core, m, 8);
            Ok(Cycles(12))
        },
    }
}

/// What `move_16_pi_pi` does: the core goes from `c0` to `c1` and `r` comes back.
pub open spec fn move_16_pi_pi_effect(c0: ConfiguredCore, c1: ConfiguredCore, r: Result<Cycles>) -> bool {
    &&& exists|m1: ConfiguredCore, src: Result<u32>|
            #[trigger] operator::ay_pi_16_rel(c0, m1, src) && match src {
                Err(e) => r == Err::<Cycles, Exception>(e) && c1 == m1,
                Ok(v) => exists|m2: ConfiguredCore, ea: Result<u32>|
                    #[trigger] effective_address::postincrement_ax_16_rel(m1, m2, ea) && match ea {
                        Err(e) => r == Err::<Cycles, Exception>(e) && c1 == m2,
                        Ok(a) => exists|m3: ConfiguredCore, w: Result<()>|
                            #[trigger] data_written(m2, m3, 16, a, v & 0xffff, w) && match w {
                                Err(e) => r == Err::<Cycles, Exception>(e) && c1 == m3,
                                Ok(_) => r == Ok::<Cycles, Exception>(Cycles(12))
                                    && c1 == common::move_flags_outcome(m3, v & 0xffff, 8).0,
                            },
                    },
            }
}

/// MOVE to memory: the value is written, then N and Z are set from it.
pub fn move_16_pi_pi(core: &mut ConfiguredCore) -> (r: Result<Cycles>)
    requires
        old(core).wf(),
    ensures
        final(core).wf(),
        move_16_pi_pi_effect(*old(core), *final(core), r),
{
    let ghost c0 = *core;
    let src = operator::ay_pi_16(core);
    let ghost m1 = *core;
    assert(operator::ay_pi_16_rel(c0, m1, src));
    let v = match src {
        Err(e) => {
            return Err(e);
        },
        Ok(v) => v,
    };
    let m = v & 0xffff;
    let ea = effective_address::postincrement_ax_16(core);
    let ghost m2 = *core;
    assert(effective_address::postincrement_ax_16_rel(m1, m2, ea));
    let a = match ea {
        Err(e) => {
            return Err(e);
        },
        Ok(a) => a,
    };
    let w = write_sized(core, 16, a, m);
    let ghost m3 = *core;
    assert(data_written(m2, m3, 16, a, m, w));
    match w {
        Err(e) => Err(e),
        Ok(()) => {
            common::move_flags(core, m, 8);
            Ok(Cycles(12))
        },
    }
}

/// What `move_16_pd_pi` does: the core goes from `c0` to `c1` and `r` comes back.
pub open spec fn move_16_pd_pi_effect(c0: ConfiguredCore, c1: ConfiguredCore, r: Result<Cycles>) -> bool {
    &&& exists|m1: ConfiguredCore, src: Result<u32>|
            #[trigger] operator::ay_pi_16_rel(c0, m1, src) && match src {
                Err(e) => r == Err::<Cycles, Exception>(e) && c1 == m1,
                Ok(v) => exists|m2: ConfiguredCore, ea: Result<u32>|
                    #[trigger] effective_address::predecrement_ax_16_rel(m1, m2, ea) && match ea {
                        Err(e) => r == Err::<Cycles, Exception>(e) && c1 == m2,
                        Ok(a) => exists|m3: ConfiguredCore, w: Result<()>|
                            #[trigger] data_written(m2, m3, 16, a, v & 0xffff, w) && match w {
                                Err(e) => r == Err::<Cycles, Exception>(e) && c1 == m3,
                                Ok(_) => r == Ok::<Cycles, Exception>(Cycles(12))
                                    && c1 == common::move_flags_outcome(m3, v & 0xffff, 8).0,
                            },
                    },
            }
}

/// MOVE to memory: the value is written, then N and Z are set from it.
pub fn move_16_pd_pi(core: &mut ConfiguredCore) -> (r: Result<Cycles>)
    requires
        old(core).wf(),
    ensures
        final(core).wf(),
        move_16_pd_pi_effect(*old(core), *final(core), r),
{
    let ghost c0 = *core;
    let src = operator::ay_pi_16(core);
    let ghost m1 = *core;
    assert(operator::ay_pi_16_rel(c0, m1, src));
    let v = match src {
        Err(e) => {
            return Err(e);
        },
        Ok(v) => v,
    };
    let m = v & 0xffff;
    let ea = effective_address::predecrement_ax_16(core);
    let ghost m2 = *core;
    assert(effective_address::predecrement_ax_16_rel(m1, m2, ea));
    let a = match ea {
        Err(e) => {
            return Err(e);
        },
        Ok(a) => a,
    };
    let w = write_sized(core, 16, a, m);
    let ghost m3 = *core;
    assert(data_written(m2, m3, 16, a, m, w));
    match w {
        Err(e) => Err(e),
        Ok(()) => {
            common::move_flags(core, m, 8);
            Ok(Cycles(12))
        },
    }
}

/// What `move_16_di_pi` does: the core goes from `c0` to `c1` and `r` comes back.
pub open spec fn move_16_di_pi_effect(c0: ConfiguredCore, c1: ConfiguredCore, r: Result<Cycles>) -> bool {
    &&& exists|m1: ConfiguredCore, src: Result<u32>|
            #[trigger] operator::ay_pi_16_rel(c0, m1, src) && match src {
                Err(e) => r == Err::<Cycles, Exception>(e) && c1 == m1,
                Ok(v) => exists|m2: ConfiguredCore, ea: Result<u32>|
                    #[trigger] effective_address::displacement_ax_rel(m1, m2, ea) && match ea {
                        Err(e) => r == Err::<Cycles, Exception>(e) && c1 == m2,
                        Ok(a) => exists|m3: ConfiguredCore, w: Result<()>|
                            #[trigger] data_written(m2, m3, 16, a, v & 0xffff, w) && match w {
                                Err(e) => r == Err::<Cycles, Exception>(e) && c1 == m3,
                                Ok(_) => r == Ok::<Cycles, Exception>(Cycles(16))
                                    && c1 == common::move_flags_outcome(m3, v & 0xffff, 8).0,
                            },
                    },
            }
}

/// MOVE to memory: the value is written, then N and Z are set from it.
pub fn move_16_di_pi(core: &mut ConfiguredCore) -> (r: Result<Cycles>)
    requires
        old(core).wf(),
    ensures
        final(core).wf(),
        move_16_di_pi_effect(*old(core), *final(core), r),
{
    let ghost c0 = *core;
    let src = operator::ay_pi_16(core);
    let ghost m1 = *core;
    assert(operator::ay_pi_16_rel(c0, m1, src));
    let v = match src {
        Err(e) => {
            return Err(e);
        },
        Ok(v) => v,
    };
    let m = v & 0xffff;
    let ea = effective_address::displacement_ax(core);
    let ghost m2 = *core;
    assert(effective_address::displacement_ax_rel(m1, m2, ea));
    let a = match ea {
        Err(e) => {
            return Err(e);
        },
        Ok(a) => a,
    };
    let w = write_sized(core, 16, a, m);
    let ghost m3 = *core;
    assert(data_written(m2, m3, 16, a, m, w));
    match w {
        Err(e) => Err(e),
        Ok(()) => {
            common::move_flags(core, m, 8);
            Ok(Cycles(16))
        },
    }
}

/// What `move_16_ix_pi` does: the core goes from `c0` to `c1` and `r` comes back.
pub open spec fn move_16_ix_pi_effect(c0: ConfiguredCore, c1: ConfiguredCore, r: Result<Cycles>) -> bool {
    &&& exists|m1: ConfiguredCore, src: Result<u32>|
            #[trigger] operator::ay_pi_16_rel(c0, m1, src) && match src {
                Err(e) => r == Err::<Cycles, Exception>(e) && c1 == m1,
                Ok(v) => exists|m2: ConfiguredCore, ea: Result<u32>|
                    #[trigger] effective_address::index_ax_rel(m1, m2, ea) && match ea {
                        Err(e) => r == Err::<Cycles, Exception>(e) && c1 == m2,
                        Ok(a) => exists|m3: ConfiguredCore, w: Result<()>|
                            #[trigger] data_written(m2, m3, 16, a, v & 0xffff, w) && match w {
                                Err(e) => r == Err::<Cycles, Exception>(e) && c1 == m3,
                                Ok(_) => r == Ok::<Cycles, Exception>(Cycles(18))
                                    && c1 == common::move_flags_outcome(m3, v & 0xffff, 8).0,
                            },
                    },
            }
}

/// MOVE to memory: the value is written, then N and Z are set from it.
pub fn move_16_ix_pi(core: &mut ConfiguredCore) -> (r: Result<Cycles>)
    requires
        old(core).wf(),
    ensures
        final(core).wf(),
        move_16_ix_pi_effect(*old(core), *final(core), r),
{
    let ghost c0 = *core;
    let src = operator::ay_pi_16(core);
    let ghost m1 = *core;
    assert(operator::ay_pi_16_rel(c0, m1, src));
    let v = match src {
        Err(e) => {
            return Err(e);
        },
        Ok(v) => v,
    };
    let m = v & 0xffff;
    let ea = effective_address::index_ax(core);
    let ghost m2 = *core;
    assert(effective_address::index_ax_rel(m1, m2, ea));
    let a = match ea {
        Err(e) => {
            return Err(e);
        },
        Ok(a) => a,
    };
    let w = write_sized(core, 16, a, m);
    let ghost m3 = *core;
    assert(data_written(m2, m3, 16, a, m, w));
    match w {
        Err(e) => Err(e),
        Ok(()) => {
            common::move_flags(core, m, 8);
            Ok(Cycles(18))
        },
    }
}

/// What `move_16_aw_pi` does: the core goes from `c0` to `c1` and `r` comes back.
pub open spec fn move_16_aw_pi_effect(c0: ConfiguredCore, c1: ConfiguredCore, r: Result<Cycles>) -> bool {
    &&& exists|m1: ConfiguredCore, src: Result<u32>|
            #[trigger] operator::ay_pi_16_rel(c0, m1, src) && match src {
                Err(e) => r == Err::<Cycles, Exception>(e) && c1 == m1,
                Ok(v) => exists|m2: ConfiguredCore, ea: Result<u32>|
                    #[trigger] effective_address::absolute_word_rel(m1, m2, ea) && match ea {
                        Err(e) => r == Err::<Cycles, Exception>(e) && c1 == m2,
                        Ok(a) => exists|m3: ConfiguredCore, w: Result<()>|
                            #[trigger] data_written(m2, m3, 16, a, v & 0xffff, w) && match w {
                                Err(e) => r == Err::<Cycles, Exception>(e) && c1 == m3,
                                Ok(_) => r == Ok::<Cycles, Exception>(Cycles(16))
                                    && c1 == common::move_flags_outcome(m3, v & 0xffff, 8).0,
                            },
                    },
            }
}

/// MOVE to memory: the value is written, then N and Z are set from it.
pub fn move_16_aw_pi(core: &mut ConfiguredCore) -> (r: Result<Cycles>)
    requires
        old(core).wf(),
    ensures
        final(core).wf(),
        move_16_aw_pi_effect(*old(core), *final(core), r),
{
    let ghost c0 = *core;
    let src = operator::ay_pi_16(core);
    let ghost m1 = *core;
    assert(operator::ay_pi_16_rel(c0, m1, src));
    let v = match src {
        Err(e) => {
            return Err(e);
        },
        Ok(v) => v,
    };
    let m = v & 0xffff;
    let ea = effective_address::absolute_word(core);
    let ghost m2 = *core;
    assert(effective_address::absolute_word_rel(m1, m2, ea));
    let a = match ea {
        Err(e) => {
            return Err(e);
        },
        Ok(a) => a,
    };
    let w = write_sized(core, 16, a, m);
    let ghost m3 = *core;
    assert(data_written(m2, m3, 16, a, m, w));
    match w {
        Err(e) => Err(e),
        Ok(()) => {
            common::move_flags(core, m, 8);
            Ok(Cycles(16))
        },
    }
}

/// What `move_16_al_pi` does: the core goes from `c0` to `c1` and `r` comes back.
pub open spec fn move_16_al_pi_effect(c0: ConfiguredCore, c1: ConfiguredCore, r: Result<Cycles>) -> bool {
    &&& exists|m1: ConfiguredCore, src: Result<u32>|
            #[trigger] operator::ay_pi_16_rel(c0, m1, src) && match src {
                Err(e) => r == Err::<Cycles, Exception>(e) && c1 == m1,
                Ok(v) => exists|m2: ConfiguredCore, ea: Result<u32>|
                    #[trigger] effective_address::absolute_long_rel(m1, m2, ea) && match ea {
                        Err(e) => r == Err::<Cycles, Exception>(e) && c1 == m2,
                        Ok(a) => exists|m3: ConfiguredCore, w: Result<()>|
                            #[trigger] data_written(m2, m3, 16, a, v & 0xffff, w) && match w {
                                Err(e) => r == Err::<Cycles, Exception>(e) && c1 == m3,
                                Ok(_) => r == Ok::<Cycles, Exception>(Cycles(20))
                                    && c1 == common::move_flags_outcome(m3, v & 0xffff, 8).0,
                            },
                    },
            }
}

/// MOVE to memory: the value is written, then N and Z are set from it.
pub fn move_16_al_pi(core: &mut ConfiguredCore) -> (r: Result<Cycles>)
    requires
        old(core).wf(),
    ensures
        final(core).wf(),
        move_16_al_pi_effect(*old(core), *final(core), r),
{
    let ghost c0 = *core;
    let src = operator::ay_pi_16(core);
    let ghost m1 = *core;
    assert(operator::ay_pi_16_rel(c0, m1, src));
    let v = match src {
        Err(e) => {
            return Err(e);
        },
        Ok(v) => v,
    };
    let m = v & 0xffff;
    let ea = effective_address::absolute_long(core);
    let ghost m2 = *core;
    assert(effective_address::absolute_long_rel(m1, m2, ea));
    let a = match ea {
        Err(e) => {
            return Err(e);
        },
        Ok(a) => a,
    };
    let w = write_sized(core, 16, a, m);
    let ghost m3 = *core;
    assert(data_written(m2, m3, 16, a, m, w));
    match w {
        Err(e) => Err(e),
        Ok(()) => {
            common::move_flags(core, m, 8);
            Ok(Cycles(20))
        },
    }
}

/// What `move_16_dn_pd` does: the core goes from `c0` to `c1` and `r` comes back.
pub open spec fn move_16_dn_pd_effect(c0: ConfiguredCore, c1: ConfiguredCore, r: Result<Cycles>) -> bool {
    &&& exists|mid: ConfiguredCore, src: Result<u32>|
            #[trigger] operator::ay_pd_16_rel(c0, mid, src) && match src {
                Err(e) => r == Err::<Cycles, Exception>(e) && c1 == mid,
                Ok(v) => {
                    let m = v & 0xffff;
                    let reg = ir_dx(mid.ir);
                    &&& r == Ok::<Cycles, Exception>(Cycles(10))
                    &&& reg_set(common::move_flags_outcome(mid, m, 8).0, c1, reg, merged(mid.dar[reg], m, 16))
                },
            }
}

/// MOVE into Dx, with N and Z set from the value moved.
pub fn move_16_dn_pd(core: &mut ConfiguredCore) -> (r: Result<Cycles>)
    requires
        old(core).wf(),
    ensures
        final(core).wf(),
        move_16_dn_pd_effect(*old(core), *final(core), r),
{
    let ghost c0 = *core;
    let src = operator::ay_pd_16(core);
    let ghost mid = *core;
    assert(operator::ay_pd_16_rel(c0, mid, src));
    match src {
        Err(e) => Err(e),
        Ok(v) => {
            let m = v & 0xffff;
            let reg = reg_dx(core.ir);
            let dst = core.dar[reg];
            common::move_flags(core, m, 8);
            set_reg(core, reg, merge(dst, m, 16));
            Ok(Cycles(10))
        },
    }
}

/// What `move_16_ai_pd` does: the core goes from `c0` to `c1` and `r` comes back.
pub open spec fn move_16_ai_pd_effect(c0: ConfiguredCore, c1: ConfiguredCore, r: Result<Cycles>) -> bool {
    &&& exists|m1: ConfiguredCore, src: Result<u32>|
            #[trigger] operator::ay_pd_16_rel(c0, m1, src) && match src {
                Err(e) => r == Err::<Cycles, Exception>(e) && c1 == m1,
                Ok(v) => exists|m2: ConfiguredCore, ea: Result<u32>|
                    #[trigger] effective_address::address_indirect_ax_rel(m1, m2, ea) && match ea {
                        Err(e) => r == Err::<Cycles, Exception>(e) && c1 == m2,
                        Ok(a) => exists|m3: ConfiguredCore, w: Result<()>|
                            #[trigger] data_written(m2, m3, 16, a, v & 0xffff, w) && match w {
                                Err(e) => r == Err::<Cycles, Exception>(e) && c1 == m3,
                                Ok(_) => r == Ok::<Cycles, Exception>(Cycles(14))
                                    && c1 == common::move_flags_outcome(m3, v & 0xffff, 8).0,
                            },
                    },
            }
}

/// MOVE to memory: the value is written, then N and Z are set from it.
pub fn move_16_ai_pd(core: &mut ConfiguredCore) -> (r: Result<Cycles>)
    requires
        old(core).wf(),
    ensures
        final(core).wf(),
        move_16_ai_pd_effect(*old(core), *final(core), r),
{
    let ghost c0 = *core;
    let src = operator::ay_pd_16(core);
    let ghost m1 = *core;
    assert(operator::ay_pd_16_rel(c0, m1, src));
    let v = match src {
        Err(e) => {
            return Err(e);
        },
        Ok(v) => v,
    };
    let m = v & 0xffff;
    let ea = effective_address::address_indirect_ax(core);
    let ghost m2 = *core;
    assert(effective_address::address_indirect_ax_rel(m1, m2, ea));
    let a = match ea {
        Err(e) => {
            return Err(e);
        },
        Ok(a) => a,
    };
    let w = write_sized(core, 16, a, m);
    let ghost m3 = *core;
    assert(data_written(m2, m3, 16, a, m, w));
    match w {
        Err(e) => Err(e),
        Ok(()) => {
            common::move_flags(core, m, 8);
            Ok(Cycles(14))
        },
    }
}

/// What `move_16_pi_pd` does: the core goes from `c0` to `c1` and `r` comes back.
pub open spec fn move_16_pi_pd_effect(c0: ConfiguredCore, c1: ConfiguredCore, r: Result<Cycles>) -> bool {
    &&& exists|m1: ConfiguredCore, src: Result<u32>|
            #[trigger] operator::ay_pd_16_rel(c0, m1, src) && match src {
                Err(e) => r == Err::<Cycles, Exception>(e) && c1 == m1,
                Ok(v) => exists|m2: ConfiguredCore, ea: Result<u32>|
                    #[trigger] effective_address::postincrement_ax_16_rel(m1, m2, ea) && match ea {
                        Err(e) => r == Err::<Cycles, Exception>(e) && c1 == m2,
                        Ok(a) => exists|m3: ConfiguredCore, w: Result<()>|
                            #[trigger] data_written(m2, m3, 16, a, v & 0xffff, w) && match w {
                                Err(e) => r == Err::<Cycles, Exception>(e) && c1 == m3,
                                Ok(_) => r == Ok::<Cycles, Exception>(Cycles(14))
                                    && c1 == common::move_flags_outcome(m3, v & 0xffff, 8).0,
                            },
                    },
            }
}

/// MOVE to memory: the value is written, then N and Z are set from it.
pub fn move_16_pi_pd(core: &mut ConfiguredCore) -> (r: Result<Cycles>)
    requires
        old(core).wf(),
    ensures
        final(core).wf(),
        move_16_pi_pd_effect(*old(core), *final(core), r),
{
    let ghost c0 = *core;
    let src = operator::ay_pd_16(core);
    let ghost m1 = *core;
    assert(operator::ay_pd_16_rel(c0, m1, src));
    let v = match src {
        Err(e) => {
            return Err(e);
        },
        Ok(v) => v,
    };
    let m = v & 0xffff;
    let ea = effective_address::postincrement_ax_16(core);
    let ghost m2 = *core;
    assert(effective_address::postincrement_ax_16_rel(m1, m2, ea));
    let a = match ea {
        Err(e) => {
            return Err(e);
        },
        Ok(a) => a,
    };
    let w = write_sized(core, 16, a, m);
    let ghost m3 = *core;
    assert(data_written(m2, m3, 16, a, m, w));
    match w {
        Err(e) => Err(e),
        Ok(()) => {
            common::move_flags(core, m, 8);
            Ok(Cycles(14))
        },
    }
}

/// What `move_16_pd_pd` does: the core goes from `c0` to `c1` and `r` comes back.
pub open spec fn move_16_pd_pd_effect(c0: ConfiguredCore, c1: ConfiguredCore, r: Result<Cycles>) -> bool {
    &&& exists|m1: ConfiguredCore, src: Result<u32>|
            #[trigger] operator::ay_pd_16_rel(c0, m1, src) && match src {
                Err(e) => r == Err::<Cycles, Exception>(e) && c1 == m1,
                Ok(v) => exists|m2: ConfiguredCore, ea: Result<u32>|
                    #[trigger] effective_address::predecrement_ax_16_rel(m1, m2, ea) && match ea {
                        Err(e) => r == Err::<Cycles, Exception>(e) && c1 == m2,
                        Ok(a) => exists|m3: ConfiguredCore, w: Result<()>|
                            #[trigger] data_written(m2, m3, 16, a, v & 0xffff, w) && match w {
                                Err(e) => r == Err::<Cycles, Exception>(e) && c1 == m3,
                                Ok(_) => r == Ok::<Cycles, Exception>(Cycles(14))
                                    && c1 == common::move_flags_outcome(m3, v & 0xffff, 8).0,
                            },
                    },
            }
}

/// MOVE to memory: the value is written, then N and Z are set from it.
pub fn move_16_pd_pd(core: &mut ConfiguredCore) -> (r: Result<Cycles>)
    requires
        old(core).wf(),
    ensures
        final(core).wf(),
        move_16_pd_pd_effect(*old(core), *final(core), r),
{
    let ghost c0 = *core;
    let src = operator::ay_pd_16(core);
    let ghost m1 = *core;
    assert(operator::ay_pd_16_rel(c0, m1, src));
    let v = match src {
        Err(e) => {
            return Err(e);
        },
        Ok(v) => v,
    };
    let m = v & 0xffff;
    let ea = effective_address::predecrement_ax_16(core);
    let ghost m2 = *core;
    assert(effective_address::predecrement_ax_16_rel(m1, m2, ea));
    let a = match ea {
        Err(e) => {
            return Err(e);
        },
        Ok(a) => a,
    };
    let w = write_sized(core, 16, a, m);
    let ghost m3 = *core;
    assert(data_written(m2, m3, 16, a, m, w));
    match w {
        Err(e) => Err(e),
        Ok(()) => {
            common::move_flags(core, m, 8);
            Ok(Cycles(14))
        },
    }
}

/// What `move_16_di_pd` does: the core goes from `c0` to `c1` and `r` comes back.
pub open spec fn move_16_di_pd_effect(c0: ConfiguredCore, c1: ConfiguredCore, r: Result<Cycles>) -> bool {
    &&& exists|m1: ConfiguredCore, src: Result<u32>|
            #[trigger] operator::ay_pd_16_rel(c0, m1, src) && match src {
                Err(e) => r == Err::<Cycles, Exception>(e) && c1 == m1,
                Ok(v) => exists|m2: ConfiguredCore, ea: Result<u32>|
                    #[trigger] effective_address::displacement_ax_rel(m1, m2, ea) && match ea {
                        Err(e) => r == Err::<Cycles, Exception>(e) && c1 == m2,
                        Ok(a) => exists|m3: ConfiguredCore, w: Result<()>|
                            #[trigger] data_written(m2, m3, 16, a, v & 0xffff, w) && match w {
                                Err(e) => r == Err::<Cycles, Exception>(e) && c1 == m3,
                                Ok(_) => r == Ok::<Cycles, Exception>(Cycles(18))
                                    && c1 == common::move_flags_outcome(m3, v & 0xffff, 8).0,
                            },
                    },
            }
}

/// MOVE to memory: the value is written, then N and Z are set from it.
pub fn move_16_di_pd(core: &mut ConfiguredCore) -> (r: Result<Cycles>)
    requires
        old(core).wf(),
    ensures
        final(core).wf(),
        move_16_di_pd_effect(*old(core), *final(core), r),
{
    let ghost c0 = *core;
    let src = operator::ay_pd_16(core);
    let ghost m1 = *core;
    assert(operator::ay_pd_16_rel(c0, m1, src));
    let v = match src {
        Err(e) => {
            return Err(e);
        },
        Ok(v) => v,
    };
    let m = v & 0xffff;
    let ea = effective_address::displacement_ax(core);
    let ghost m2 = *core;
    assert(effective_address::displacement_ax_rel(m1, m2, ea));
    let a = match ea {
        Err(e) => {
            return Err(e);
        },
        Ok(a) => a,
    };
    let w = write_sized(core, 16, a, m);
    let ghost m3 = *core;
    assert(data_written(m2, m3, 16, a, m, w));
    match w {
        Err(e) => Err(e),
        Ok(()) => {
            common::move_flags(core, m, 8);
            Ok(Cycles(18))
        },
    }
}

/// What `move_16_ix_pd` does: the core goes from `c0` to `c1` and `r` comes back.
pub open spec fn move_16_ix_pd_effect(c0: ConfiguredCore, c1: ConfiguredCore, r: Result<Cycles>) -> bool {
    &&& exists|m1: ConfiguredCore, src: Result<u32>|
            #[trigger] operator::ay_pd_16_rel(c0, m1, src) && match src {
                Err(e) => r == Err::<Cycles, Exception>(e) && c1 == m1,
                Ok(v) => exists|m2: ConfiguredCore, ea: Result<u32>|
                    #[trigger] effective_address::index_ax_rel(m1, m2, ea) && match ea {
                        Err(e) => r == Err::<Cycles, Exception>(e) && c1 == m2,
                        Ok(a) => exists|m3: ConfiguredCore, w: Result<()>|
                            #[trigger] data_written(m2, m3, 16, a, v & 0xffff, w) && match w {
                                Err(e) => r == Err::<Cycles, Exception>(e) && c1 == m3,
                                Ok(_) => r == Ok::<Cycles, Exception>(Cycles(20))
                                    && c1 == common::move_flags_outcome(m3, v & 0xffff, 8).0,
                            },
                    },
            }
}

/// MOVE to memory: the value is written, then N and Z are set from it.
pub fn move_16_ix_pd(core: &mut ConfiguredCore) -> (r: Result<Cycles>)
    requires
        old(core).wf(),
    ensures
        final(core).wf(),
        move_16_ix_pd_effect(*old(core), *final(core), r),
{
    let ghost c0 = *core;
    let src = operator::ay_pd_16(core);
    let ghost m1 = *core;
    assert(operator::ay_pd_16_rel(c0, m1, src));
    let v = match src {
        Err(e) => {
            return Err(e);
        },
        Ok(v) => v,
    };
    let m = v & 0xffff;
    let ea = effective_address::index_ax(core);
    let ghost m2 = *core;
    assert(effective_address::index_ax_rel(m1, m2, ea));
    let a = match ea {
        Err(e) => {
            return Err(e);
        },
        Ok(a) => a,
    };
    let w = write_sized(core, 16, a, m);
    let ghost m3 = *core;
    assert(data_written(m2, m3, 16, a, m, w));
    match w {
        Err(e) => Err(e),
        Ok(()) => {
            common::move_flags(core, m, 8);
            Ok(Cycles(20))
        },
    }
}

/// What `move_16_aw_pd` does: the core goes from `c0` to `c1` and `r` comes back.
pub open spec fn move_16_aw_pd_effect(c0: ConfiguredCore, c1: ConfiguredCore, r: Result<Cycles>) -> bool {
    &&& exists|m1: ConfiguredCore, src: Result<u32>|
            #[trigger] operator::ay_pd_16_rel(c0, m1, src) && match src {
                Err(e) => r == Err::<Cycles, Exception>(e) && c1 == m1,
                Ok(v) => exists|m2: ConfiguredCore, ea: Result<u32>|
                    #[trigger] effective_address::absolute_word_rel(m1, m2, ea) && match ea {
                        Err(e) => r == Err::<Cycles, Exception>(e) && c1 == m2,
                        Ok(a) => exists|m3: ConfiguredCore, w: Result<()>|
                            #[trigger] data_written(m2, m3, 16, a, v & 0xffff, w) && match w {
                                Err(e) => r == Err::<Cycles, Exception>(e) && c1 == m3,
                                Ok(_) => r == Ok::<Cycles, Exception>(Cycles(18))
                                    && c1 == common::move_flags_outcome(m3, v & 0xffff, 8).0,
                            },
                    },
            }
}

/// MOVE to memory: the value is written, then N and Z are set from it.
pub fn move_16_aw_pd(core: &mut ConfiguredCore) -> (r: Result<Cycles>)
    requires
        old(core).wf(),
    ensures
        final(core).wf(),
        move_16_aw_pd_effect(*old(core), *final(core), r),
{
    let ghost c0 = *core;
    let src = operator::ay_pd_16(core);
    let ghost m1 = *core;
    assert(operator::ay_pd_16_rel(c0, m1, src));
    let v = match src {
        Err(e) => {
            return Err(e);
        },
        Ok(v) => v,
    };
    let m = v & 0xffff;
    let ea = effective_address::absolute_word(core);
    let ghost m2 = *core;
    assert(effective_address::absolute_word_rel(m1, m2, ea));
    let a = match ea {
        Err(e) => {
            return Err(e);
        },
        Ok(a) => a,
    };
    let w = write_sized(core, 16, a, m);
    let ghost m3 = *core;
    assert(data_written(m2, m3, 16, a, m, w));
    match w {
        Err(e) => Err(e),
        Ok(()) => {
            common::move_flags(core, m, 8);
            Ok(Cycles(18))
        },
    }
}

/// What `move_16_al_pd` does: the core goes from `c0` to `c1` and `r` comes back.
pub open spec fn move_16_al_pd_effect(c0: ConfiguredCore, c1: ConfiguredCore, r: Result<Cycles>) -> bool {
    &&& exists|m1: ConfiguredCore, src: Result<u32>|
            #[trigger] operator::ay_pd_16_rel(c0, m1, src) && match src {
                Err(e) => r == Err::<Cycles, Exception>(e) && c1 == m1,
                Ok(v) => exists|m2: ConfiguredCore, ea: Result<u32>|
                    #[trigger] effective_address::absolute_long_rel(m1, m2, ea) && match ea {
                        Err(e) => r == Err::<Cycles, Exception>(e) && c1 == m2,
                        Ok(a) => exists|m3: ConfiguredCore, w: Result<()>|
                            #[trigger] data_written(m2, m3, 16, a, v & 0xffff, w) && match w {
                                Err(e) => r == Err::<Cycles, Exception>(e) && c1 == m3,
                                Ok(_) => r == Ok::<Cycles, Exception>(Cycles(22))
                                    && c1 == common::move_flags_outcome(m3, v & 0xffff, 8).0,
                            },
                    },
            }
}

/// MOVE to memory: the value is written, then N and Z are set from it.
pub fn move_16_al_pd(core: &mut ConfiguredCore) -> (r: Result<Cycles>)
    requires
        old(core).wf(),
    ensures
        final(core).wf(),
        move_16_al_pd_effect(*old(core), *final(core), r),
{
    let ghost c0 = *core;
    let src = operator::ay_pd_16(core);
    let ghost m1 = *core;
    assert(operator::ay_pd_16_rel(c0, m1, src));
    let v = match src {
        Err(e) => {
            return Err(e);
        },
        Ok(v) => v,
    };
    let m = v & 0xffff;
    let ea = effective_address::absolute_long(core);
    let ghost m2 = *core;
    assert(effective_address::absolute_long_rel(m1, m2, ea));
    let a = match ea {
        Err(e) => {
            return Err(e);
        },
        Ok(a) => a,
    };
    let w = write_sized(core, 16, a, m);
    let ghost m3 = *core;
    assert(data_written(m2, m3, 16, a, m, w));
    match w {
        Err(e) => Err(e),
        Ok(()) => {
            common::move_flags(core, m, 8);
            Ok(Cycles(22))
        },
    }
}

/// What `move_16_dn_di` does: the core goes from `c0` to `c1` and `r` comes back.
pub open spec fn move_16_dn_di_effect(c0: ConfiguredCore, c1: ConfiguredCore, r: Result<Cycles>) -> bool {
    &&& exists|mid: ConfiguredCore, src: Result<u32>|
            #[trigger] operator::ay_di_16_rel(c0, mid, src) && match src {
                Err(e) => r == Err::<Cycles, Exception>(e) && c1 == mid,
                Ok(v) => {
                    let m = v & 0xffff;
                    let reg = ir_dx(mid.ir);
                    &&& r == Ok::<Cycles, Exception>(Cycles(12))
                    &&& reg_set(common::move_flags_outcome(mid, m, 8).0, c1, reg, merged(mid.dar[reg], m, 16))
                },
            }
}

/// MOVE into Dx, with N and Z set from the value moved.
pub fn move_16_dn_di(core: &mut ConfiguredCore) -> (r: Result<Cycles>)
    requires
        old(core).wf(),
    ensures
        final(core).wf(),
        move_16_dn_di_effect(*old(core), *final(core), r),
{
    let ghost c0 = *core;
    let src = operator::ay_di_16(core);
    let ghost mid = *core;
    assert(operator::ay_di_16_rel(c0, mid, src));
    match src {
        Err(e) => Err(e),
        Ok(v) => {
            let m = v & 0xffff;
            let reg = reg_dx(core.ir);
            let dst = core.dar[reg];
            common::move_flags(core, m, 8);
            set_reg(core, reg, merge(dst, m, 16));
            Ok(Cycles(12))
        },
    }
}

/// What `move_16_ai_di` does: the core goes from `c0` to `c1` and `r` comes back.
pub open spec fn move_16_ai_di_effect(c0: ConfiguredCore, c1: ConfiguredCore, r: Result<Cycles>) -> bool {
    &&& exists|m1: ConfiguredCore, src: Result<u32>|
            #[trigger] operator::ay_di_16_rel(c0, m1, src) && match src {
                Err(e) => r == Err::<Cycles, Exception>(e) && c1 == m1,
                Ok(v) => exists|m2: ConfiguredCore, ea: Result<u32>|
                    #[trigger] effective_address::address_indirect_ax_rel(m1, m2, ea) && match ea {
                        Err(e) => r == Err::<Cycles, Exception>(e) && c1 == m2,
                        Ok(a) => exists|m3: ConfiguredCore, w: Result<()>|
                            #[trigger] data_written(m2, m3, 16, a, v & 0xffff, w) && match w {
                                Err(e) => r == Err::<Cycles, Exception>(e) && c1 == m3,
                                Ok(_) => r == Ok::<Cycles, Exception>(Cycles(16))
                                    && c1 == common::move_flags_outcome(m3, v & 0xffff, 8).0,
                            },
                    },
            }
}

/// MOVE to memory: the value is written, then N and Z are set from it.
pub fn move_16_ai_di(core: &mut ConfiguredCore) -> (r: Result<Cycles>)
    requires
        old(core).wf(),
    ensures
        final(core).wf(),
        move_16_ai_di_effect(*old(core), *final(core), r),
{
    let ghost c0 = *core;
    let src = operator::ay_di_16(core);
    let ghost m1 = *core;
    assert(operator::ay_di_16_rel(c0, m1, src));
    let v = match src {
        Err(e) => {
            return Err(e);
        },
        Ok(v) => v,
    };
    let m = v & 0xffff;
    let ea = effective_address::address_indirect_ax(core);
    let ghost m2 = *core;
    assert(effective_address::address_indirect_ax_rel(m1, m2, ea));
    let a = match ea {
        Err(e) => {
            return Err(e);
        },
        Ok(a) => a,
    };
    let w = write_sized(core, 16, a, m);
    let ghost m3 = *core;
    assert(data_written(m2, m3, 16, a, m, w));
    match w {
        Err(e) => Err(e),
        Ok(()) => {
            common::move_flags(core, m, 8);
            Ok(Cycles(16))
        },
    }
}

/// What `move_16_pi_di` does: the core goes from `c0` to `c1` and `r` comes back.
pub open spec fn move_16_pi_di_effect(c0: ConfiguredCore, c1: ConfiguredCore, r: Result<Cycles>) -> bool {
    &&& exists|m1: ConfiguredCore, src: Result<u32>|
            #[trigger] operator::ay_di_16_rel(c0, m1, src) && match src {
                Err(e) => r == Err::<Cycles, Exception>(e) && c1 == m1,
                Ok(v) => exists|m2: ConfiguredCore, ea: Result<u32>|
                    #[trigger] effective_address::postincrement_ax_16_rel(m1, m2, ea) && match ea {
                        Err(e) => r == Err::<Cycles, Exception>(e) && c1 == m2,
                        Ok(a) => exists|m3: ConfiguredCore, w: Result<()>|
                            #[trigger] data_written(m2, m3, 16, a, v & 0xffff, w) && match w {
                                Err(e) => r == Err::<Cycles, Exception>(e) && c1 == m3,
                                Ok(_) => r == Ok::<Cycles, Exception>(Cycles(16))
                                    && c1 == common::move_flags_outcome(m3, v & 0xffff, 8).0,
                            },
                    },
            }
}

/// MOVE to memory: the value is written, then N and Z are set from it.
pub fn move_16_pi_di(core: &mut ConfiguredCore) -> (r: Result<Cycles>)
    requires
        old(core).wf(),
    ensures
        final(core).wf(),
        move_16_pi_di_effect(*old(core), *final(core), r),
{
    let ghost c0 = *core;
    let src = operator::ay_di_16(core);
    let ghost m1 = *core;
    assert(operator::ay_di_16_rel(c0, m1, src));
    let v = match src {
        Err(e) => {
            return Err(e);
        },
        Ok(v) => v,
    };
    let m = v & 0xffff;
    let ea = effective_address::postincrement_ax_16(core);
    let ghost m2 = *core;
    assert(effective_address::postincrement_ax_16_rel(m1, m2, ea));
    let a = match ea {
        Err(e) => {
            return Err(e);
        },
        Ok(a) => a,
    };
    let w = write_sized(core, 16, a, m);
    let ghost m3 = *core;
    assert(data_written(m2, m3, 16, a, m, w));
    match w {
        Err(e) => Err(e),
        Ok(()) => {
            common::move_flags(core, m, 8);
            Ok(Cycles(16))
        },
    }
}

/// What `move_16_pd_di` does: the core goes from `c0` to `c1` and `r` comes back.
pub open spec fn move_16_pd_di_effect(c0: ConfiguredCore, c1: ConfiguredCore, r: Result<Cycles>) -> bool {
    &&& exists|m1: ConfiguredCore, src: Result<u32>|
            #[trigger] operator::ay_di_16_rel(c0, m1, src) && match src {
                Err(e) => r == Err::<Cycles, Exception>(e) && c1 == m1,
                Ok(v) => exists|m2: ConfiguredCore, ea: Result<u32>|
                    #[trigger] effective_address::predecrement_ax_16_rel(m1, m2, ea) && match ea {
                        Err(e) => r == Err::<Cycles, Exception>(e) && c1 == m2,
                        Ok(a) => exists|m3: ConfiguredCore, w: Result<()>|
                            #[trigger] data_written(m2, m3, 16, a, v & 0xffff, w) && match w {
                                Err(e) => r == Err::<Cycles, Exception>(e) && c1 == m3,
                                Ok(_) => r == Ok::<Cycles, Exception>(Cycles(16))
                                    && c1 == common::move_flags_outcome(m3, v & 0xffff, 8).0,
                            },
                    },
            }
}

/// MOVE to memory: the value is written, then N and Z are set from it.
pub fn move_16_pd_di(core: &mut ConfiguredCore) -> (r: Result<Cycles>)
    requires
        old(core).wf(),
    ensures
        final(core).wf(),
        move_16_pd_di_effect(*old(core), *final(core), r),
{
    let ghost c0 = *core;
    let src = operator::ay_di_16(core);
    let ghost m1 = *core;
    assert(operator::ay_di_16_rel(c0, m1, src));
    let v = match src {
        Err(e) => {
            return Err(e);
        },
        Ok(v) => v,
    };
    let m = v & 0xffff;
    let ea = effective_address::predecrement_ax_16(core);
    let ghost m2 = *core;
    assert(effective_address::predecrement_ax_16_rel(m1, m2, ea));
    let a = match ea {
        Err(e) => {
            return Err(e);
        },
        Ok(a) => a,
    };
    let w = write_sized(core, 16, a, m);
    let ghost m3 = *core;
    assert(data_written(m2, m3, 16, a, m, w));
    match w {
        Err(e) => Err(e),
        Ok(()) => {
            common::move_flags(core, m, 8);
            Ok(Cycles(16))
        },
    }
}

/// What `move_16_di_di` does: the core goes from `c0` to `c1` and `r` comes back.
pub open spec fn move_16_di_di_effect(c0: ConfiguredCore, c1: ConfiguredCore, r: Result<Cycles>) -> bool {
    &&& exists|m1: ConfiguredCore, src: Result<u32>|
            #[trigger] operator::ay_di_16_rel(c0, m1, src) && match src {
                Err(e) => r == Err::<Cycles, Exception>(e) && c1 == m1,
                Ok(v) => exists|m2: ConfiguredCore, ea: Result<u32>|
                    #[trigger] effective_address::displacement_ax_rel(m1, m2, ea) && match ea {
                        Err(e) => r == Err::<Cycles, Exception>(e) && c1 == m2,
                        Ok(a) => exists|m3: ConfiguredCore, w: Result<()>|
                            #[trigger] data_written(m2, m3, 16, a, v & 0xffff, w) && match w {
                                Err(e) => r == Err::<Cycles, Exception>(e) && c1 == m3,
                                Ok(_) => r == Ok::<Cycles, Exception>(Cycles(20))
                                    && c1 == common::move_flags_outcome(m3, v & 0xffff, 8).0,
                            },
                    },
            }
}

/// MOVE to memory: the value is written, then N and Z are set from it.
pub fn move_16_di_di(core: &mut ConfiguredCore) -> (r: Result<Cycles>)
    requires
        old(core).wf(),
    ensures
        final(core).wf(),
        move_16_di_di_effect(*old(core), *final(core), r),
{
    let ghost c0 = *core;
    let src = operator::ay_di_16(core);
    let ghost m1 = *core;
    assert(operator::ay_di_16_rel(c0, m1, src));
    let v = match src {
        Err(e) => {
            return Err(e);
        },
        Ok(v) => v,
    };
    let m = v & 0xffff;
    let ea = effective_address::displacement_ax(core);
    let ghost m2 = *core;
    assert(effective_address::displacement_ax_rel(m1, m2, ea));
    let a = match ea {
        Err(e) => {
            return Err(e);
        },
        Ok(a) => a,
    };
    let w = write_sized(core, 16, a, m);
    let ghost m3 = *core;
    assert(data_written(m2, m3, 16, a, m, w));
    match w {
        Err(e) => Err(e),
        Ok(()) => {
            common::move_flags(core, m, 8);
            Ok(Cycles(20))
        },
    }
}

/// What `move_16_ix_di` does: the core goes from `c0` to `c1` and `r` comes back.
pub open spec fn move_16_ix_di_effect(c0: ConfiguredCore, c1: ConfiguredCore, r: Result<Cycles>) -> bool {
    &&& exists|m1: ConfiguredCore, src: Result<u32>|
            #[trigger] operator::ay_di_16_rel(c0, m1, src) && match src {
                Err(e) => r == Err::<Cycles, Exception>(e) && c1 == m1,
                Ok(v) => exists|m2: ConfiguredCore, ea: Result<u32>|
                    #[trigger] effective_address::index_ax_rel(m1, m2, ea) && match ea {
                        Err(e) => r == Err::<Cycles, Exception>(e) && c1 == m2,
                        Ok(a) => exists|m3: ConfiguredCore, w: Result<()>|
                            #[trigger] data_written(m2, m3, 16, a, v & 0xffff, w) && match w {
                                Err(e) => r == Err::<Cycles, Exception>(e) && c1 == m3,
                                Ok(_) => r == Ok::<Cycles, Exception>(Cycles(22))
                                    && c1 == common::move_flags_outcome(m3, v & 0xffff, 8).0,
                            },
                    },
            }
}

/// MOVE to memory: the value is written, then N and Z are set from it.
pub fn move_16_ix_di(core: &mut ConfiguredCore) -> (r: Result<Cycles>)
    requires
        old(core).wf(),
    ensures
        final(core).wf(),
        move_16_ix_di_effect(*old(core), *final(core), r),
{
    let ghost c0 = *core;
    let src = operator::ay_di_16(core);
    let ghost m1 = *core;
    assert(operator::ay_di_16_rel(c0, m1, src));
    let v = match src {
        Err(e) => {
            return Err(e);
        },
        Ok(v) => v,
    };
    let m = v & 0xffff;
    let ea = effective_address::index_ax(core);
    let ghost m2 = *core;
    assert(effective_address::index_ax_rel(m1, m2, ea));
    let a = match ea {
        Err(e) => {
            return Err(e);
        },
        Ok(a) => a,
    };
    let w = write_sized(core, 16, a, m);
    let ghost m3 = *core;
    assert(data_written(m2, m3, 16, a, m, w));
    match w {
        Err(e) => Err(e),
        Ok(()) => {
            common::move_flags(core, m, 8);
            Ok(Cycles(22))
        },
    }
}

/// What `move_16_aw_di` does: the core goes from `c0` to `c1` and `r` comes back.
pub open spec fn move_16_aw_di_effect(c0: ConfiguredCore, c1: ConfiguredCore, r: Result<Cycles>) -> bool {
    &&& exists|m1: ConfiguredCore, src: Result<u32>|
            #[trigger] operator::ay_di_16_rel(c0, m1, src) && match src {
                Err(e) => r == Err::<Cycles, Exception>(e) && c1 == m1,
                Ok(v) => exists|m2: ConfiguredCore, ea: Result<u32>|
                    #[trigger] effective_address::absolute_word_rel(m1, m2, ea) && match ea {
                        Err(e) => r == Err::<Cycles, Exception>(e) && c1 == m2,
                        Ok(a) => exists|m3: ConfiguredCore, w: Result<()>|
                            #[trigger] data_written(m2, m3, 16, a, v & 0xffff, w) && match w {
                                Err(e) => r == Err::<Cycles, Exception>(e) && c1 == m3,
                                Ok(_) => r == Ok::<Cycles, Exception>(Cycles(20))
                                    && c1 == common::move_flags_outcome(m3, v & 0xffff, 8).0,
                            },
                    },
            }
}

/// MOVE to memory: the value is written, then N and Z are set from it.
pub fn move_16_aw_di(core: &mut ConfiguredCore) -> (r: Result<Cycles>)
    requires
        old(core).wf(),
    ensures
        final(core).wf(),
        move_16_aw_di_effect(*old(core), *final(core), r),
{
    let ghost c0 = *core;
    let src = operator::ay_di_16(core);
    let ghost m1 = *core;
    assert(operator::ay_di_16_rel(c0, m1, src));
    let v = match src {
        Err(e) => {
            return Err(e);
        },
        Ok(v) => v,
    };
    let m = v & 0xffff;
    let ea = effective_address::absolute_word(core);
    let ghost m2 = *core;
    assert(effective_address::absolute_word_rel(m1, m2, ea));
    let a = match ea {
        Err(e) => {
            return Err(e);
        },
        Ok(a) => a,
    };
    let w = write_sized(core, 16, a, m);
    let ghost m3 = *core;
    assert(data_written(m2, m3, 16, a, m, w));
    match w {
        Err(e) => Err(e),
        Ok(()) => {
            common::move_flags(core, m, 8);
            Ok(Cycles(20))
        },
    }
}

/// What `move_16_al_di` does: the core goes from `c0` to `c1` and `r` comes back.
pub open spec fn move_16_al_di_effect(c0: ConfiguredCore, c1: ConfiguredCore, r: Result<Cycles>) -> bool {
    &&& exists|m1: ConfiguredCore, src: Result<u32>|
            #[trigger] operator::ay_di_16_rel(c0, m1, src) && match src {
                Err(e) => r == Err::<Cycles, Exception>(e) && c1 == m1,
                Ok(v) => exists|m2: ConfiguredCore, ea: Result<u32>|
                    #[trigger] effective_address::absolute_long_rel(m1, m2, ea) && match ea {
                        Err(e) => r == Err::<Cycles, Exception>(e) && c1 == m2,
                        Ok(a) => exists|m3: ConfiguredCore, w: Result<()>|
                            #[trigger] data_written(m2, m3, 16, a, v & 0xffff, w) && match w {
                                Err(e) => r == Err::<Cycles, Exception>(e) && c1 == m3,
                                Ok(_) => r == Ok::<Cycles, Exception>(Cycles(24))
                                    && c1 == common::move_flags_outcome(m3, v & 0xffff, 8).0,
                            },
                    },
            }
}

/// MOVE to memory: the value is written, then N and Z are set from it.
pub fn move_16_al_di(core: &mut ConfiguredCore) -> (r: Result<Cycles>)
    requires
        old(core).wf(),
    ensures
        final(core).wf(),
        move_16_al_di_effect(*old(core), *final(core), r),
{
    let ghost c0 = *core;
    let src = operator::ay_di_16(core);
    let ghost m1 = *core;
    assert(operator::ay_di_16_rel(c0, m1, src));
    let v = match src {
        Err(e) => {
            return Err(e);
        },
        Ok(v) => v,
    };
    let m = v & 0xffff;
    let ea = effective_address::absolute_long(core);
    let ghost m2 = *core;
    assert(effective_address::absolute_long_rel(m1, m2, ea));
    let a = match ea {
        Err(e) => {
            return Err(e);
        },
        Ok(a) => a,
    };
    let w = write_sized(core, 16, a, m);
    let ghost m3 = *core;
    assert(data_written(m2, m3, 16, a, m, w));
    match w {
        Err(e) => Err(e),
        Ok(()) => {
            common::move_flags(core, m, 8);
            Ok(Cycles(24))
        },
    }
}

/// What `move_16_dn_ix` does: the core goes from `c0` to `c1` and `r` comes back.
pub open spec fn move_16_dn_ix_effect(c0: ConfiguredCore, c1: ConfiguredCore, r: Result<Cycles>) -> bool {
    &&& exists|mid: ConfiguredCore, src: Result<u32>|
            #[trigger] operator::ay_ix_16_rel(c0, mid, src) && match src {
                Err(e) => r == Err::<Cycles, Exception>(e) && c1 == mid,
                Ok(v) => {
                    let m = v & 0xffff;
                    let reg = ir_dx(mid.ir);
                    &&& r == Ok::<Cycles, Exception>(Cycles(14))
                    &&& reg_set(common::move_flags_outcome(mid, m, 8).0, c1, reg, merged(mid.dar[reg], m, 16))
                },
            }
}

/// MOVE into Dx, with N and Z set from the value moved.
pub fn move_16_dn_ix(core: &mut ConfiguredCore) -> (r: Result<Cycles>)
    requires
        old(core).wf(),
    ensures
        final(core).wf(),
        move_16_dn_ix_effect(*old(core), *final(core), r),
{
    let ghost c0 = *core;
    let src = operator::ay_ix_16(core);
    let ghost mid = *core;
    assert(operator::ay_ix_16_rel(c0, mid, src));
    match src {
        Err(e) => Err(e),
        Ok(v) => {
            let m = v & 0xffff;
            let reg = reg_dx(core.ir);
            let dst = core.dar[reg];
            common::move_flags(core, m, 8);
            set_reg(core, reg, merge(dst, m, 16));
            Ok(Cycles(14))
        },
    }
}

/// What `move_16_ai_ix` does: the core goes from `c0` to `c1` and `r` comes back.
pub open spec fn move_16_ai_ix_effect(c0: ConfiguredCore, c1: ConfiguredCore, r: Result<Cycles>) -> bool {
    &&& exists|m1: ConfiguredCore, src: Result<u32>|
            #[trigger] operator::ay_ix_16_rel(c0, m1, src) && match src {
                Err(e) => r == Err::<Cycles, Exception>(e) && c1 == m1,
                Ok(v) => exists|m2: ConfiguredCore, ea: Result<u32>|
                    #[trigger] effective_address::address_indirect_ax_rel(m1, m2, ea) && match ea {
                        Err(e) => r == Err::<Cycles, Exception>(e) && c1 == m2,
                        Ok(a) => exists|m3: ConfiguredCore, w: Result<()>|
                            #[trigger] data_written(m2, m3, 16, a, v & 0xffff, w) && match w {
                                Err(e) => r == Err::<Cycles, Exception>(e) && c1 == m3,
                                Ok(_) => r == Ok::<Cycles, Exception>(Cycles(18))
                                    && c1 == common::move_flags_outcome(m3, v & 0xffff, 8).0,
                            },
                    },
            }
}

/// MOVE to memory: the value is written, then N and Z are set from it.
pub fn move_16_ai_ix(core: &mut ConfiguredCore) -> (r: Result<Cycles>)
    requires
        old(core).wf(),
    ensures
        final(core).wf(),
        move_16_ai_ix_effect(*old(core), *final(core), r),
{
    let ghost c0 = *core;
    let src = operator::ay_ix_16(core);
    let ghost m1 = *core;
    assert(operator::ay_ix_16_rel(c0, m1, src));
    let v = match src {
        Err(e) => {
            return Err(e);
        },
        Ok(v) => v,
    };
    let m = v & 0xffff;
    let ea = effective_address::address_indirect_ax(core);
    let ghost m2 = *core;
    assert(effective_address::address_indirect_ax_rel(m1, m2, ea));
    let a = match ea {
        Err(e) => {
            return Err(e);
        },
        Ok(a) => a,
    };
    let w = write_sized(core, 16, a, m);
    let ghost m3 = *core;
    assert(data_written(m2, m3, 16, a, m, w));
    match w {
        Err(e) => Err(e),
        Ok(()) => {
            common::move_flags(core, m, 8);
            Ok(Cycles(18))
        },
    }
}

/// What `move_16_pi_ix` does: the core goes from `c0` to `c1` and `r` comes back.
pub open spec fn move_16_pi_ix_effect(c0: ConfiguredCore, c1: ConfiguredCore, r: Result<Cycles>) -> bool {
    &&& exists|m1: ConfiguredCore, src: Result<u32>|
            #[trigger] operator::ay_ix_16_rel(c0, m1, src) && match src {
                Err(e) => r == Err::<Cycles, Exception>(e) && c1 == m1,
                Ok(v) => exists|m2: ConfiguredCore, ea: Result<u32>|
                    #[trigger] effective_address::postincrement_ax_16_rel(m1, m2, ea) && match ea {
                        Err(e) => r == Err::<Cycles, Exception>(e) && c1 == m2,
                        Ok(a) => exists|m3: ConfiguredCore, w: Result<()>|
                            #[trigger] data_written(m2, m3, 16, a, v & 0xffff, w) && match w {
                                Err(e) => r == Err::<Cycles, Exception>(e) && c1 == m3,
                                Ok(_) => r == Ok::<Cycles, Exception>(Cycles(18))
                                    && c1 == common::move_flags_outcome(m3, v & 0xffff, 8).0,
                            },
                    },
            }
}

/// MOVE to memory: the value is written, then N and Z are set from it.
pub fn move_16_pi_ix(core: &mut ConfiguredCore) -> (r: Result<Cycles>)
    requires
        old(core).wf(),
    ensures
        final(core).wf(),
        move_16_pi_ix_effect(*old(core), *final(core), r),
{
    let ghost c0 = *core;
    let src = operator::ay_ix_16(core);
    let ghost m1 = *core;
    assert(operator::ay_ix_16_rel(c0, m1, src));
    let v = match src {
        Err(e) => {
            return Err(e);
        },
        Ok(v) => v,
    };
    let m = v & 0xffff;
    let ea = effective_address::postincrement_ax_16(core);
    let ghost m2 = *core;
    assert(effective_address::postincrement_ax_16_rel(m1, m2, ea));
    let a = match ea {
        Err(e) => {
            return Err(e);
        },
        Ok(a) => a,
    };
    let w = write_sized(core, 16, a, m);
    let ghost m3 = *core;
    assert(data_written(m2, m3, 16, a, m, w));
    match w {
        Err(e) => Err(e),
        Ok(()) => {
            common::move_flags(core, m, 8);
            Ok(Cycles(18))
        },
    }
}

/// What `move_16_pd_ix` does: the core goes from `c0` to `c1` and `r` comes back.
pub open spec fn move_16_pd_ix_effect(c0: ConfiguredCore, c1: ConfiguredCore, r: Result<Cycles>) -> bool {
    &&& exists|m1: ConfiguredCore, src: Result<u32>|
            #[trigger] operator::ay_ix_16_rel(c0, m1, src) && match src {
                Err(e) => r == Err::<Cycles, Exception>(e) && c1 == m1,
                Ok(v) => exists|m2: ConfiguredCore, ea: Result<u32>|
                    #[trigger] effective_address::predecrement_ax_16_rel(m1, m2, ea) && match ea {
                        Err(e) => r == Err::<Cycles, Exception>(e) && c1 == m2,
                        Ok(a) => exists|m3: ConfiguredCore, w: Result<()>|
                            #[trigger] data_written(m2, m3, 16, a, v & 0xffff, w) && match w {
                                Err(e) => r == Err::<Cycles, Exception>(e) && c1 == m3,
                                Ok(_) => r == Ok::<Cycles, Exception>(Cycles(18))
                                    && c1 == common::move_flags_outcome(m3, v & 0xffff, 8).0,
                            },
                    },
            }
}

/// MOVE to memory: the value is written, then N and Z are set from it.
pub fn move_16_pd_ix(core: &mut ConfiguredCore) -> (r: Result<Cycles>)
    requires
        old(core).wf(),
    ensures
        final(core).wf(),
        move_16_pd_ix_effect(*old(core), *final(core), r),
{
    let ghost c0 = *core;
    let src = operator::ay_ix_16(core);
    let ghost m1 = *core;
    assert(operator::ay_ix_16_rel(c0, m1, src));
    let v = match src {
        Err(e) => {
            return Err(e);
        },
        Ok(v) => v,
    };
    let m = v & 0xffff;
    let ea = effective_address::predecrement_ax_16(core);
    let ghost m2 = *core;
    assert(effective_address::predecrement_ax_16_rel(m1, m2, ea));
    let a = match ea {
        Err(e) => {
            return Err(e);
        },
        Ok(a) => a,
    };
    let w = write_sized(core, 16, a, m);
    let ghost m3 = *core;
    assert(data_written(m2, m3, 16, a, m, w));
    match w {
        Err(e) => Err(e),
        Ok(()) => {
            common::move_flags(core, m, 8);
            Ok(Cycles(18))
        },
    }
}

/// What `move_16_di_ix` does: the core goes from `c0` to `c1` and `r` comes back.
pub open spec fn move_16_di_ix_effect(c0: ConfiguredCore, c1: ConfiguredCore, r: Result<Cycles>) -> bool {
    &&& exists|m1: ConfiguredCore, src: Result<u32>|
            #[trigger] operator::ay_ix_16_rel(c0, m1, src) && match src {
                Err(e) => r == Err::<Cycles, Exception>(e) && c1 == m1,
                Ok(v) => exists|m2: ConfiguredCore, ea: Result<u32>|
                    #[trigger] effective_address::displacement_ax_rel(m1, m2, ea) && match ea {
                        Err(e) => r == Err::<Cycles, Exception>(e) && c1 == m2,
                        Ok(a) => exists|m3: ConfiguredCore, w: Result<()>|
                            #[trigger] data_written(m2, m3, 16, a, v & 0xffff, w) && match w {
                                Err(e) => r == Err::<Cycles, Exception>(e) && c1 == m3,
                                Ok(_) => r == Ok::<Cycles, Exception>(Cycles(22))
                                    && c1 == common::move_flags_outcome(m3, v & 0xffff, 8).0,
                            },
                    },
            }
}

/// MOVE to memory: the value is written, then N and Z are set from it.
pub fn move_16_di_ix(core: &mut ConfiguredCore) -> (r: Result<Cycles>)
    requires
        old(core).wf(),
    ensures
        final(core).wf(),
        move_16_di_ix_effect(*old(core), *final(core), r),
{
    let ghost c0 = *core;
    let src = operator::ay_ix_16(core);
    let ghost m1 = *core;
    assert(operator::ay_ix_16_rel(c0, m1, src));
    let v = match src {
        Err(e) => {
            return Err(e);
        },
        Ok(v) => v,
    };
    let m = v & 0xffff;
    let ea = effective_address::displacement_ax(core);
    let ghost m2 = *core;
    assert(effective_address::displacement_ax_rel(m1, m2, ea));
    let a = match ea {
        Err(e) => {
            return Err(e);
        },
        Ok(a) => a,
    };
    let w = write_sized(core, 16, a, m);
    let ghost m3 = *core;
    assert(data_written(m2, m3, 16, a, m, w));
    match w {
        Err(e) => Err(e),
        Ok(()) => {
            common::move_flags(core, m, 8);
            Ok(Cycles(22))
        },
    }
}

/// What `move_16_ix_ix` does: the core goes from `c0` to `c1` and `r` comes back.
pub open spec fn move_16_ix_ix_effect(c0: ConfiguredCore, c1: ConfiguredCore, r: Result<Cycles>) -> bool {
    &&& exists|m1: ConfiguredCore, src: Result<u32>|
            #[trigger] operator::ay_ix_16_rel(c0, m1, src) && match src {
                Err(e) => r == Err::<Cycles, Exception>(e) && c1 == m1,
                Ok(v) => exists|m2: ConfiguredCore, ea: Result<u32>|
                    #[trigger] effective_address::index_ax_rel(m1, m2, ea) && match ea {
                        Err(e) => r == Err::<Cycles, Exception>(e) && c1 == m2,
                        Ok(a) => exists|m3: ConfiguredCore, w: Result<()>|
                            #[trigger] data_written(m2, m3, 16, a, v & 0xffff, w) && match w {
                                Err(e) => r == Err::<Cycles, Exception>(e) && c1 == m3,
                                Ok(_) => r == Ok::<Cycles, Exception>(Cycles(24))
                                    && c1 == common::move_flags_outcome(m3, v & 0xffff, 8).0,
                            },
                    },
            }
}

/// MOVE to memory: the value is written, then N and Z are set from it.
pub fn move_16_ix_ix(core: &mut ConfiguredCore) -> (r: Result<Cycles>)
    requires
        old(core).wf(),
    ensures
        final(core).wf(),
        move_16_ix_ix_effect(*old(core), *final(core), r),
{
    let ghost c0 = *core;
    let src = operator::ay_ix_16(core);
    let ghost m1 = *core;
    assert(operator::ay_ix_16_rel(c0, m1, src));
    let v = match src {
        Err(e) => {
            return Err(e);
        },
        Ok(v) => v,
    };
    let m = v & 0xffff;
    let ea = effective_address::index_ax(core);
    let ghost m2 = *core;
    assert(effective_address::index_ax_rel(m1, m2, ea));
    let a = match ea {
        Err(e) => {
            return Err(e);
        },
        Ok(a) => a,
    };
    let w = write_sized(core, 16, a, m);
    let ghost m3 = *core;
    assert(data_written(m2, m3, 16, a, m, w));
    match w {
        Err(e) => Err(e),
        Ok(()) => {
            common::move_flags(core, m, 8);
            Ok(Cycles(24))
        },
    }
}

/// What `move_16_aw_ix` does: the core goes from `c0` to `c1` and `r` comes back.
pub open spec fn move_16_aw_ix_effect(c0: ConfiguredCore, c1: ConfiguredCore, r: Result<Cycles>) -> bool {
    &&& exists|m1: ConfiguredCore, src: Result<u32>|
            #[trigger] operator::ay_ix_16_rel(c0, m1, src) && match src {
                Err(e) => r == Err::<Cycles, Exception>(e) && c1 == m1,
                Ok(v) => exists|m2: ConfiguredCore, ea: Result<u32>|
                    #[trigger] effective_address::absolute_word_rel(m1, m2, ea) && match ea {
                        Err(e) => r == Err::<Cycles, Exception>(e) && c1 == m2,
                        Ok(a) => exists|m3: ConfiguredCore, w: Result<()>|
                            #[trigger] data_written(m2, m3, 16, a, v & 0xffff, w) && match w {
                                Err(e) => r == Err::<Cycles, Exception>(e) && c1 == m3,
                                Ok(_) => r == Ok::<Cycles, Exception>(Cycles(22))
                                    && c1 == common::move_flags_outcome(m3, v & 0xffff, 8).0,
                            },
                    },
            }
}

/// MOVE to memory: the value is written, then N and Z are set from it.
pub fn move_16_aw_ix(core: &mut ConfiguredCore) -> (r: Result<Cycles>)
    requires
        old(core).wf(),
    ensures
        final(core).wf(),
        move_16_aw_ix_effect(*old(core), *final(core), r),
{
    let ghost c0 = *core;
    let src = operator::ay_ix_16(core);
    let ghost m1 = *core;
    assert(operator::ay_ix_16_rel(c0, m1, src));
    let v = match src {
        Err(e) => {
            return Err(e);
        },
        Ok(v) => v,
    };
    let m = v & 0xffff;
    let ea = effective_address::absolute_word(core);
    let ghost m2 = *core;
    assert(effective_address::absolute_word_rel(m1, m2, ea));
    let a = match ea {
        Err(e) => {
            return Err(e);
        },
        Ok(a) => a,
    };
    let w = write_sized(core, 16, a, m);
    let ghost m3 = *core;
    assert(data_written(m2, m3, 16, a, m, w));
    match w {
        Err(e) => Err(e),
        Ok(()) => {
            common::move_flags(core, m, 8);
            Ok(Cycles(22))
        },
    }
}

/// What `move_16_al_ix` does: the core goes from `c0` to `c1` and `r` comes back.
pub open spec fn move_16_al_ix_effect(c0: ConfiguredCore, c1: ConfiguredCore, r: Result<Cycles>) -> bool {
    &&& exists|m1: ConfiguredCore, src: Result<u32>|
            #[trigger] operator::ay_ix_16_rel(c0, m1, src) && match src {
                Err(e) => r == Err::<Cycles, Exception>(e) && c1 == m1,
                Ok(v) => exists|m2: ConfiguredCore, ea: Result<u32>|
                    #[trigger] effective_address::absolute_long_rel(m1, m2, ea) && match ea {
                        Err(e) => r == Err::<Cycles, Exception>(e) && c1 == m2,
                        Ok(a) => exists|m3: ConfiguredCore, w: Result<()>|
                            #[trigger] data_written(m2, m3, 16, a, v & 0xffff, w) && match w {
                                Err(e) => r == Err::<Cycles, Exception>(e) && c1 == m3,
                                Ok(_) => r == Ok::<Cycles, Exception>(Cycles(26))
                                    && c1 == common::move_flags_outcome(m3, v & 0xffff, 8).0,
                            },
                    },
            }
}

/// MOVE to memory: the value is written, then N and Z are set from it.
pub fn move_16_al_ix(core: &mut ConfiguredCore) -> (r: Result<Cycles>)
    requires
        old(core).wf(),
    ensures
        final(core).wf(),
        move_16_al_ix_effect(*old(core), *final(core), r),
{
    let ghost c0 = *core;
    let src = operator::ay_ix_16(core);
    let ghost m1 = *core;
    assert(operator::ay_ix_16_rel(c0, m1, src));
    let v = match src {
        Err(e) => {
            return Err(e);
        },
        Ok(v) => v,
    };
    let m = v & 0xffff;
    let ea = effective_address::absolute_long(core);
    let ghost m2 = *core;
    assert(effective_address::absolute_long_rel(m1, m2, ea));
    let a = match ea {
        Err(e) => {
            return Err(e);
        },
        Ok(a) => a,
    };
    let w = write_sized(core, 16, a, m);
    let ghost m3 = *core;
    assert(data_written(m2, m3, 16, a, m, w));
    match w {
        Err(e) => Err(e),
        Ok(()) => {
            common::move_flags(core, m, 8);
            Ok(Cycles(26))
        },
    }
}

/// What `move_16_dn_aw` does: the core goes from `c0` to `c1` and `r` comes back.
pub open spec fn move_16_dn_aw_effect(c0: ConfiguredCore, c1: ConfiguredCore, r: Result<Cycles>) -> bool {
    &&& exists|mid: ConfiguredCore, src: Result<u32>|
            #[trigger] operator::aw_16_rel(c0, mid, src) && match src {
                Err(e) => r == Err::<Cycles, Exception>(e) && c1 == mid,
                Ok(v) => {
                    let m = v & 0xffff;
                    let reg = ir_dx(mid.ir);
                    &&& r == Ok::<Cycles, Exception>(Cycles(12))
                    &&& reg_set(common::move_flags_outcome(mid, m, 8).0, c1, reg, merged(mid.dar[reg], m, 16))
                },
            }
}

/// MOVE into Dx, with N and Z set from the value moved.
pub fn move_16_dn_aw(core: &mut ConfiguredCore) -> (r: Result<Cycles>)
    requires
        old(core).wf(),
    ensures
        final(core).wf(),
        move_16_dn_aw_effect(*old(core), *final(core), r),
{
    let ghost c0 = *core;
    let src = operator::aw_16(core);
    let ghost mid = *core;
    assert(operator::aw_16_rel(c0, mid, src));
    match src {
        Err(e) => Err(e),
        Ok(v) => {
            let m = v & 0xffff;
            let reg = reg_dx(core.ir);
            let dst = core.dar[reg];
            common::move_flags(core, m, 8);
            set_reg(core, reg, merge(dst, m, 16));
            Ok(Cycles(12))
        },
    }
}

/// What `move_16_ai_aw` does: the core goes from `c0` to `c1` and `r` comes back.
pub open spec fn move_16_ai_aw_effect(c0: ConfiguredCore, c1: ConfiguredCore, r: Result<Cycles>) -> bool {
    &&& exists|m1: ConfiguredCore, src: Result<u32>|
            #[trigger] operator::aw_16_rel(c0, m1, src) && match src {
                Err(e) => r == Err::<Cycles, Exception>(e) && c1 == m1,
                Ok(v) => exists|m2: ConfiguredCore, ea: Result<u32>|
                    #[trigger] effective_address::address_indirect_ax_rel(m1, m2, ea) && match ea {
                        Err(e) => r == Err::<Cycles, Exception>(e) && c1 == m2,
                        Ok(a) => exists|m3: ConfiguredCore, w: Result<()>|
                            #[trigger] data_written(m2, m3, 16, a, v & 0xffff, w) && match w {
                                Err(e) => r == Err::<Cycles, Exception>(e) && c1 == m3,
                                Ok(_) => r == Ok::<Cycles, Exception>(Cycles(16))
                                    && c1 == common::move_flags_outcome(m3, v & 0xffff, 8).0,
                            },
                    },
            }
}

/// MOVE to memory: the value is written, then N and Z are set from it.
pub fn move_16_ai_aw(core: &mut ConfiguredCore) -> (r: Result<Cycles>)
    requires
        old(core).wf(),
    ensures
        final(core).wf(),
        move_16_ai_aw_effect(*old(core), *final(core), r),
{
    let ghost c0 = *core;
    let src = operator::aw_16(core);
    let ghost m1 = *core;
    assert(operator::aw_16_rel(c0, m1, src));
    let v = match src {
        Err(e) => {
            return Err(e);
        },
        Ok(v) => v,
    };
    let m = v & 0xffff;
    let ea = effective_address::address_indirect_ax(core);
    let ghost m2 = *core;
    assert(effective_address::address_indirect_ax_rel(m1, m2, ea));
    let a = match ea {
        Err(e) => {
            return Err(e);
        },
        Ok(a) => a,
    };
    let w = write_sized(core, 16, a, m);
    let ghost m3 = *core;
    assert(data_written(m2, m3, 16, a, m, w));
    match w {
        Err(e) => Err(e),
        Ok(()) => {
            common::move_flags(core, m, 8);
            Ok(Cycles(16))
        },
    }
}

/// What `move_16_pi_aw` does: the core goes from `c0` to `c1` and `r` comes back.
pub open spec fn move_16_pi_aw_effect(c0: ConfiguredCore, c1: ConfiguredCore, r: Result<Cycles>) -> bool {
    &&& exists|m1: ConfiguredCore, src: Result<u32>|
            #[trigger] operator::aw_16_rel(c0, m1, src) && match src {
                Err(e) => r == Err::<Cycles, Exception>(e) && c1 == m1,
                Ok(v) => exists|m2: ConfiguredCore, ea: Result<u32>|
                    #[trigger] effective_address::postincrement_ax_16_rel(m1, m2, ea) && match ea {
                        Err(e) => r == Err::<Cycles, Exception>(e) && c1 == m2,
                        Ok(a) => exists|m3: ConfiguredCore, w: Result<()>|
                            #[trigger] data_written(m2, m3, 16, a, v & 0xffff, w) && match w {
                                Err(e) => r == Err::<Cycles, Exception>(e) && c1 == m3,
                                Ok(_) => r == Ok::<Cycles, Exception>(Cycles(16))
                                    && c1 == common::move_flags_outcome(m3, v & 0xffff, 8).0,
                            },
                    },
            }
}

/// MOVE to memory: the value is written, then N and Z are set from it.
pub fn move_16_pi_aw(core: &mut ConfiguredCore) -> (r: Result<Cycles>)
    requires
        old(core).wf(),
    ensures
        final(core).wf(),
        move_16_pi_aw_effect(*old(core), *final(core), r),
{
    let ghost c0 = *core;
    let src = operator::aw_16(core);
    let ghost m1 = *core;
    assert(operator::aw_16_rel(c0, m1, src));
    let v = match src {
        Err(e) => {
            return Err(e);
        },
        Ok(v) => v,
    };
    let m = v & 0xffff;
    let ea = effective_address::postincrement_ax_16(core);
    let ghost m2 = *core;
    assert(effective_address::postincrement_ax_16_rel(m1, m2, ea));
    let a = match ea {
        Err(e) => {
            return Err(e);
        },
        Ok(a) => a,
    };
    let w = write_sized(core, 16, a, m);
    let ghost m3 = *core;
    assert(data_written(m2, m3, 16, a, m, w));
    match w {
        Err(e) => Err(e),
        Ok(()) => {
            common::move_flags(core, m, 8);
            Ok(Cycles(16))
        },
    }
}

/// What `move_16_pd_aw` does: the core goes from `c0` to `c1` and `r` comes back.
pub open spec fn move_16_pd_aw_effect(c0: ConfiguredCore, c1: ConfiguredCore, r: Result<Cycles>) -> bool {
    &&& exists|m1: ConfiguredCore, src: Result<u32>|
            #[trigger] operator::aw_16_rel(c0, m1, src) && match src {
                Err(e) => r == Err::<Cycles, Exception>(e) && c1 == m1,
                Ok(v) => exists|m2: ConfiguredCore, ea: Result<u32>|
                    #[trigger] effective_address::predecrement_ax_16_rel(m1, m2, ea) && match ea {
                        Err(e) => r == Err::<Cycles, Exception>(e) && c1 == m2,
                        Ok(a) => exists|m3: ConfiguredCore, w: Result<()>|
                            #[trigger] data_written(m2, m3, 16, a, v & 0xffff, w) && match w {
                                Err(e) => r == Err::<Cycles, Exception>(e) && c1 == m3,
                                Ok(_) => r == Ok::<Cycles, Exception>(Cycles(16))
                                    && c1 == common::move_flags_outcome(m3, v & 0xffff, 8).0,
                            },
                    },
            }
}

/// MOVE to memory: the value is written, then N and Z are set from it.
pub fn move_16_pd_aw(core: &mut ConfiguredCore) -> (r: Result<Cycles>)
    requires
        old(core).wf(),
    ensures
        final(core).wf(),
        move_16_pd_aw_effect(*old(core), *final(core), r),
{
    let ghost c0 = *core;
    let src = operator::aw_16(core);
    let ghost m1 = *core;
    assert(operator::aw_16_rel(c0, m1, src));
    let v = match src {
        Err(e) => {
            return Err(e);
        },
        Ok(v) => v,
    };
    let m = v & 0xffff;
    let ea = effective_address::predecrement_ax_16(core);
    let ghost m2 = *core;
    assert(effective_address::predecrement_ax_16_rel(m1, m2, ea));
    let a = match ea {
        Err(e) => {
            return Err(e);
        },
        Ok(a) => a,
    };
    let w = write_sized(core, 16, a, m);
    let ghost m3 = *core;
    assert(data_written(m2, m3, 16, a, m, w));
    match w {
        Err(e) => Err(e),
        Ok(()) => {
            common::move_flags(core, m, 8);
            Ok(Cycles(16))
        },
    }
}

/// What `move_16_di_aw` does: the core goes from `c0` to `c1` and `r` comes back.
pub open spec fn move_16_di_aw_effect(c0: ConfiguredCore, c1: ConfiguredCore, r: Result<Cycles>) -> bool {
    &&& exists|m1: ConfiguredCore, src: Result<u32>|
            #[trigger] operator::aw_16_rel(c0, m1, src) && match src {
                Err(e) => r == Err::<Cycles, Exception>(e) && c1 == m1,
                Ok(v) => exists|m2: ConfiguredCore, ea: Result<u32>|
                    #[trigger] effective_address::displacement_ax_rel(m1, m2, ea) && match ea {
                        Err(e) => r == Err::<Cycles, Exception>(e) && c1 == m2,
                        Ok(a) => exists|m3: ConfiguredCore, w: Result<()>|
                            #[trigger] data_written(m2, m3, 16, a, v & 0xffff, w) && match w {
                                Err(e) => r == Err::<Cycles, Exception>(e) && c1 == m3,
                                Ok(_) => r == Ok::<Cycles, Exception>(Cycles(20))
                                    && c1 == common::move_flags_outcome(m3, v & 0xffff, 8).0,
                            },
                    },
            }
}

/// MOVE to memory: the value is written, then N and Z are set from it.
pub fn move_16_di_aw(core: &mut ConfiguredCore) -> (r: Result<Cycles>)
    requires
        old(core).wf(),
    ensures
        final(core).wf(),
        move_16_di_aw_effect(*old(core), *final(core), r),
{
    let ghost c0 = *core;
    let src = operator::aw_16(core);
    let ghost m1 = *core;
    assert(operator::aw_16_rel(c0, m1, src));
    let v = match src {
        Err(e) => {
            return Err(e);
        },
        Ok(v) => v,
    };
    let m = v & 0xffff;
    let ea = effective_address::displacement_ax(core);
    let ghost m2 = *core;
    assert(effective_address::displacement_ax_rel(m1, m2, ea));
    let a = match ea {
        Err(e) => {
            return Err(e);
        },
        Ok(a) => a,
    };
    let w = write_sized(core, 16, a, m);
    let ghost m3 = *core;
    assert(data_written(m2, m3, 16, a, m, w));
    match w {
        Err(e) => Err(e),
        Ok(()) => {
            common::move_flags(core, m, 8);
            Ok(Cycles(20))
        },
    }
}

/// What `move_16_ix_aw` does: the core goes from `c0` to `c1` and `r` comes back.
pub open spec fn move_16_ix_aw_effect(c0: ConfiguredCore, c1: ConfiguredCore, r: Result<Cycles>) -> bool {
    &&& exists|m1: ConfiguredCore, src: Result<u32>|
            #[trigger] operator::aw_16_rel(c0, m1, src) && match src {
                Err(e) => r == Err::<Cycles, Exception>(e) && c1 == m1,
                Ok(v) => exists|m2: ConfiguredCore, ea: Result<u32>|
                    #[trigger] effective_address::index_ax_rel(m1, m2, ea) && match ea {
                        Err(e) => r == Err::<Cycles, Exception>(e) && c1 == m2,
                        Ok(a) => exists|m3: ConfiguredCore, w: Result<()>|
                            #[trigger] data_written(m2, m3, 16, a, v & 0xffff, w) && match w {
                                Err(e) => r == Err::<Cycles, Exception>(e) && c1 == m3,
                                Ok(_) => r == Ok::<Cycles, Exception>(Cycles(22))
                                    && c1 == common::move_flags_outcome(m3, v & 0xffff, 8).0,
                            },
                    },
            }
}

/// MOVE to memory: the value is written, then N and Z are set from it.
pub fn move_16_ix_aw(core: &mut ConfiguredCore) -> (r: Result<Cycles>)
    requires
        old(core).wf(),
    ensures
        final(core).wf(),
        move_16_ix_aw_effect(*old(core), *final(core), r),
{
    let ghost c0 = *core;
    let src = operator::aw_16(core);
    let ghost m1 = *core;
    assert(operator::aw_16_rel(c0, m1, src));
    let v = match src {
        Err(e) => {
            return Err(e);
        },
        Ok(v) => v,
    };
    let m = v & 0xffff;
    let ea = effective_address::index_ax(core);
    let ghost m2 = *core;
    assert(effective_address::index_ax_rel(m1, m2, ea));
    let a = match ea {
        Err(e) => {
            return Err(e);
        },
        Ok(a) => a,
    };
    let w = write_sized(core, 16, a, m);
    let ghost m3 = *core;
    assert(data_written(m2, m3, 16, a, m, w));
    match w {
        Err(e) => Err(e),
        Ok(()) => {
            common::move_flags(core, m, 8);
            Ok(Cycles(22))
        },
    }
}

/// What `move_16_aw_aw` does: the core goes from `c0` to `c1` and `r` comes back.
pub open spec fn move_16_aw_aw_effect(c0: ConfiguredCore, c1: ConfiguredCore, r: Result<Cycles>) -> bool {
    &&& exists|m1: ConfiguredCore, src: Result<u32>|
            #[trigger] operator::aw_16_rel(c0, m1, src) && match src {
                Err(e) => r == Err::<Cycles, Exception>(e) && c1 == m1,
                Ok(v) => exists|m2: ConfiguredCore, ea: Result<u32>|
                    #[trigger] effective_address::absolute_word_rel(m1, m2, ea) && match ea {
                        Err(e) => r == Err::<Cycles, Exception>(e) && c1 == m2,
                        Ok(a) => exists|m3: ConfiguredCore, w: Result<()>|
                            #[trigger] data_written(m2, m3, 16, a, v & 0xffff, w) && match w {
                                Err(e) => r == Err::<Cycles, Exception>(e) && c1 == m3,
                                Ok(_) => r == Ok::<Cycles, Exception>(Cycles(20))
                                    && c1 == common::move_flags_outcome(m3, v & 0xffff, 8).0,
                            },
                    },
            }
}

/// MOVE to memory: the value is written, then N and Z are set from it.
pub fn move_16_aw_aw(core: &mut ConfiguredCore) -> (r: Result<Cycles>)
    requires
        old(core).wf(),
    ensures
        final(core).wf(),
        move_16_aw_aw_effect(*old(core), *final(core), r),
{
    let ghost c0 = *core;
    let src = operator::aw_16(core);
    let ghost m1 = *core;
    assert(operator::aw_16_rel(c0, m1, src));
    let v = match src {
        Err(e) => {
            return Err(e);
        },
        Ok(v) => v,
    };
    let m = v & 0xffff;
    let ea = effective_address::absolute_word(core);
    let ghost m2 = *core;
    assert(effective_address::absolute_word_rel(m1, m2, ea));
    let a = match ea {
        Err(e) => {
            return Err(e);
        },
        Ok(a) => a,
    };
    let w = write_sized(core, 16, a, m);
    let ghost m3 = *core;
    assert(data_written(m2, m3, 16, a, m, w));
    match w {
        Err(e) => Err(e),
        Ok(()) => {
            common::move_flags(core, m, 8);
            Ok(Cycles(20))
        },
    }
}

/// What `move_16_al_aw` does: the core goes from `c0` to `c1` and `r` comes back.
pub open spec fn move_16_al_aw_effect(c0: ConfiguredCore, c1: ConfiguredCore, r: Result<Cycles>) -> bool {
    &&& exists|m1: ConfiguredCore, src: Result<u32>|
            #[trigger] operator::aw_16_rel(c0, m1, src) && match src {
                Err(e) => r == Err::<Cycles, Exception>(e) && c1 == m1,
                Ok(v) => exists|m2: ConfiguredCore, ea: Result<u32>|
                    #[trigger] effective_address::absolute_long_rel(m1, m2, ea) && match ea {
                        Err(e) => r == Err::<Cycles, Exception>(e) && c1 == m2,
                        Ok(a) => exists|m3: ConfiguredCore, w: Result<()>|
                            #[trigger] data_written(m2, m3, 16, a, v & 0xffff, w) && match w {
                                Err(e) => r == Err::<Cycles, Exception>(e) && c1 == m3,
                                Ok(_) => r == Ok::<Cycles, Exception>(Cycles(24))
                                    && c1 == common::move_flags_outcome(m3, v & 0xffff, 8).0,
                            },
                    },
            }
}

/// MOVE to memory: the value is written, then N and Z are set from it.
pub fn move_16_al_aw(core: &mut ConfiguredCore) -> (r: Result<Cycles>)
    requires
        old(core).wf(),
    ensures
        final(core).wf(),
        move_16_al_aw_effect(*old(core), *final(core), r),
{
    let ghost c0 = *core;
    let src = operator::aw_16(core);
    let ghost m1 = *core;
    assert(operator::aw_16_rel(c0, m1, src));
    let v = match src {
        Err(e) => {
            return Err(e);
        },
        Ok(v) => v,
    };
    let m = v & 0xffff;
    let ea = effective_address::absolute_long(core);
    let ghost m2 = *core;
    assert(effective_address::absolute_long_rel(m1, m2, ea));
    let a = match ea {
        Err(e) => {
            return Err(e);
        },
        Ok(a) => a,
    };
    let w = write_sized(core, 16, a, m);
    let ghost m3 = *core;
    assert(data_written(m2, m3, 16, a, m, w));
    match w {
        Err(e) => Err(e),
        Ok(()) => {
            common::move_flags(core, m, 8);
            Ok(Cycles(24))
        },
    }
}

/// What `move_16_dn_al` does: the core goes from `c0` to `c1` and `r` comes back.
pub open spec fn move_16_dn_al_effect(c0: ConfiguredCore, c1: ConfiguredCore, r: Result<Cycles>) -> bool {
    &&& exists|mid: ConfiguredCore, src: Result<u32>|
            #[trigger] operator::al_16_rel(c0, mid, src) && match src {
                Err(e) => r == Err::<Cycles, Exception>(e) && c1 == mid,
                Ok(v) => {
                    let m = v & 0xffff;
                    let reg = ir_dx(mid.ir);
                    &&& r == Ok::<Cycles, Exception>(Cycles(16))
                    &&& reg_set(common::move_flags_outcome(mid, m, 8).0, c1, reg, merged(mid.dar[reg], m, 16))
                },
            }
}

/// MOVE into Dx, with N and Z set from the value moved.
pub fn move_16_dn_al(core: &mut ConfiguredCore) -> (r: Result<Cycles>)
    requires
        old(core).wf(),
    ensures
        final(core).wf(),
        move_16_dn_al_effect(*old(core), *final(core), r),
{
    let ghost c0 = *core;
    let src = operator::al_16(core);
    let ghost mid = *core;
    assert(operator::al_16_rel(c0, mid, src));
    match src {
        Err(e) => Err(e),
        Ok(v) => {
            let m = v & 0xffff;
            let reg = reg_dx(core.ir);
            let dst = core.dar[reg];
            common::move_flags(core, m, 8);
            set_reg(core, reg, merge(dst, m, 16));
            Ok(Cycles(16))
        },
    }
}

/// What `move_16_ai_al` does: the core goes from `c0` to `c1` and `r` comes back.
pub open spec fn move_16_ai_al_effect(c0: ConfiguredCore, c1: ConfiguredCore, r: Result<Cycles>) -> bool {
    &&& exists|m1: ConfiguredCore, src: Result<u32>|
            #[trigger] operator::al_16_rel(c0, m1, src) && match src {
                Err(e) => r == Err::<Cycles, Exception>(e) && c1 == m1,
                Ok(v) => exists|m2: ConfiguredCore, ea: Result<u32>|
                    #[trigger] effective_address::address_indirect_ax_rel(m1, m2, ea) && match ea {
                        Err(e) => r == Err::<Cycles, Exception>(e) && c1 == m2,
                        Ok(a) => exists|m3: ConfiguredCore, w: Result<()>|
                            #[trigger] data_written(m2, m3, 16, a, v & 0xffff, w) && match w {
                                Err(e) => r == Err::<Cycles, Exception>(e) && c1 == m3,
                                Ok(_) => r == Ok::<Cycles, Exception>(Cycles(20))
                                    && c1 == common::move_flags_outcome(m3, v & 0xffff, 8).0,
                            },
                    },
            }
}

/// MOVE to memory: the value is written, then N and Z are set from it.
pub fn move_16_ai_al(core: &mut ConfiguredCore) -> (r: Result<Cycles>)
    requires
        old(core).wf(),
    ensures
        final(core).wf(),
        move_16_ai_al_effect(*old(core), *final(core), r),
{
    let ghost c0 = *core;
    let src = operator::al_16(core);
    let ghost m1 = *core;
    assert(operator::al_16_rel(c0, m1, src));
    let v = match src {
        Err(e) => {
            return Err(e);
        },
        Ok(v) => v,
    };
    let m = v & 0xffff;
    let ea = effective_address::address_indirect_ax(core);
    let ghost m2 = *core;
    assert(effective_address::address_indirect_ax_rel(m1, m2, ea));
    let a = match ea {
        Err(e) => {
            return Err(e);
        },
        Ok(a) => a,
    };
    let w = write_sized(core, 16, a, m);
    let ghost m3 = *core;
    assert(data_written(m2, m3, 16, a, m, w));
    match w {
        Err(e) => Err(e),
        Ok(()) => {
            common::move_flags(core, m, 8);
            Ok(Cycles(20))
        },
    }
}

/// What `move_16_pi_al` does: the core goes from `c0` to `c1` and `r` comes back.
pub open spec fn move_16_pi_al_effect(c0: ConfiguredCore, c1: ConfiguredCore, r: Result<Cycles>) -> bool {
    &&& exists|m1: ConfiguredCore, src: Result<u32>|
            #[trigger] operator::al_16_rel(c0, m1, src) && match src {
                Err(e) => r == Err::<Cycles, Exception>(e) && c1 == m1,
                Ok(v) => exists|m2: ConfiguredCore, ea: Result<u32>|
                    #[trigger] effective_address::postincrement_ax_16_rel(m1, m2, ea) && match ea {
                        Err(e) => r == Err::<Cycles, Exception>(e) && c1 == m2,
                        Ok(a) => exists|m3: ConfiguredCore, w: Result<()>|
                            #[trigger] data_written(m2, m3, 16, a, v & 0xffff, w) && match w {
                                Err(e) => r == Err::<Cycles, Exception>(e) && c1 == m3,
                                Ok(_) => r == Ok::<Cycles, Exception>(Cycles(20))
                                    && c1 == common::move_flags_outcome(m3, v & 0xffff, 8).0,
                            },
                    },
            }
}

/// MOVE to memory: the value is written, then N and Z are set from it.
pub fn move_16_pi_al(core: &mut ConfiguredCore) -> (r: Result<Cycles>)
    requires
        old(core).wf(),
    ensures
        final(core).wf(),
        move_16_pi_al_effect(*old(core), *final(core), r),
{
    let ghost c0 = *core;
    let src = operator::al_16(core);
    let ghost m1 = *core;
    assert(operator::al_16_rel(c0, m1, src));
    let v = match src {
        Err(e) => {
            return Err(e);
        },
        Ok(v) => v,
    };
    let m = v & 0xffff;
    let ea = effective_address::postincrement_ax_16(core);
    let ghost m2 = *core;
    assert(effective_address::postincrement_ax_16_rel(m1, m2, ea));
    let a = match ea {
        Err(e) => {
            return Err(e);
        },
        Ok(a) => a,
    };
    let w = write_sized(core, 16, a, m);
    let ghost m3 = *core;
    assert(data_written(m2, m3, 16, a, m, w));
    match w {
        Err(e) => Err(e),
        Ok(()) => {
            common::move_flags(core, m, 8);
            Ok(Cycles(20))
        },
    }
}

/// What `move_16_pd_al` does: the core goes from `c0` to `c1` and `r` comes back.
pub open spec fn move_16_pd_al_effect(c0: ConfiguredCore, c1: ConfiguredCore, r: Result<Cycles>) -> bool {
    &&& exists|m1: ConfiguredCore, src: Result<u32>|
            #[trigger] operator::al_16_rel(c0, m1, src) && match src {
                Err(e) => r == Err::<Cycles, Exception>(e) && c1 == m1,
                Ok(v) => exists|m2: ConfiguredCore, ea: Result<u32>|
                    #[trigger] effective_address::predecrement_ax_16_rel(m1, m2, ea) && match ea {
                        Err(e) => r == Err::<Cycles, Exception>(e) && c1 == m2,
                        Ok(a) => exists|m3: ConfiguredCore, w: Result<()>|
                            #[trigger] data_written(m2, m3, 16, a, v & 0xffff, w) && match w {
                                Err(e) => r == Err::<Cycles, Exception>(e) && c1 == m3,
                                Ok(_) => r == Ok::<Cycles, Exception>(Cycles(20))
                                    && c1 == common::move_flags_outcome(m3, v & 0xffff, 8).0,
                            },
                    },
            }
}

/// MOVE to memory: the value is written, then N and Z are set from it.
pub fn move_16_pd_al(core: &mut ConfiguredCore) -> (r: Result<Cycles>)
    requires
        old(core).wf(),
    ensures
        final(core).wf(),
        move_16_pd_al_effect(*old(core), *final(core), r),
{
    let ghost c0 = *core;
    let src = operator::al_16(core);
    let ghost m1 = *core;
    assert(operator::al_16_rel(c0, m1, src));
    let v = match src {
        Err(e) => {
            return Err(e);
        },
        Ok(v) => v,
    };
    let m = v & 0xffff;
    let ea = effective_address::predecrement_ax_16(core);
    let ghost m2 = *core;
    assert(effective_address::predecrement_ax_16_rel(m1, m2, ea));
    let a = match ea {
        Err(e) => {
            return Err(e);
        },
        Ok(a) => a,
    };
    let w = write_sized(core, 16, a, m);
    let ghost m3 = *core;
    assert(data_written(m2, m3, 16, a, m, w));
    match w {
        Err(e) => Err(e),
        Ok(()) => {
            common::move_flags(core, m, 8);
            Ok(Cycles(20))
        },
    }
}

/// What `move_16_di_al` does: the core goes from `c0` to `c1` and `r` comes back.
pub open spec fn move_16_di_al_effect(c0: ConfiguredCore, c1: ConfiguredCore, r: Result<Cycles>) -> bool {
    &&& exists|m1: ConfiguredCore, src: Result<u32>|
            #[trigger] operator::al_16_rel(c0, m1, src) && match src {
                Err(e) => r == Err::<Cycles, Exception>(e) && c1 == m1,
                Ok(v) => exists|m2: ConfiguredCore, ea: Result<u32>|
                    #[trigger] effective_address::displacement_ax_rel(m1, m2, ea) && match ea {
                        Err(e) => r == Err::<Cycles, Exception>(e) && c1 == m2,
                        Ok(a) => exists|m3: ConfiguredCore, w: Result<()>|
                            #[trigger] data_written(m2, m3, 16, a, v & 0xffff, w) && match w {
                                Err(e) => r == Err::<Cycles, Exception>(e) && c1 == m3,
                                Ok(_) => r == Ok::<Cycles, Exception>(Cycles(24))
                                    && c1 == common::move_flags_outcome(m3, v & 0xffff, 8).0,
                            },
                    },
            }
}

/// MOVE to memory: the value is written, then N and Z are set from it.
pub fn move_16_di_al(core: &mut ConfiguredCore) -> (r: Result<Cycles>)
    requires
        old(core).wf(),
    ensures
        final(core).wf(),
        move_16_di_al_effect(*old(core), *final(core), r),
{
    let ghost c0 = *core;
    let src = operator::al_16(core);
    let ghost m1 = *core;
    assert(operator::al_16_rel(c0, m1, src));
    let v = match src {
        Err(e) => {
            return Err(e);
        },
        Ok(v) => v,
    };
    let m = v & 0xffff;
    let ea = effective_address::displacement_ax(core);
    let ghost m2 = *core;
    assert(effective_address::displacement_ax_rel(m1, m2, ea));
    let a = match ea {
        Err(e) => {
            return Err(e);
        },
        Ok(a) => a,
    };
    let w = write_sized(core, 16, a, m);
    let ghost m3 = *core;
    assert(data_written(m2, m3, 16, a, m, w));
    match w {
        Err(e) => Err(e),
        Ok(()) => {
            common::move_flags(core, m, 8);
            Ok(Cycles(24))
        },
    }
}

/// What `move_16_ix_al` does: the core goes from `c0` to `c1` and `r` comes back.
pub open spec fn move_16_ix_al_effect(c0: ConfiguredCore, c1: ConfiguredCore, r: Result<Cycles>) -> bool {
    &&& exists|m1: ConfiguredCore, src: Result<u32>|
            #[trigger] operator::al_16_rel(c0, m1, src) && match src {
                Err(e) => r == Err::<Cycles, Exception>(e) && c1 == m1,
                Ok(v) => exists|m2: ConfiguredCore, ea: Result<u32>|
                    #[trigger] effective_address::index_ax_rel(m1, m2, ea) && match ea {
                        Err(e) => r == Err::<Cycles, Exception>(e) && c1 == m2,
                        Ok(a) => exists|m3: ConfiguredCore, w: Result<()>|
                            #[trigger] data_written(m2, m3, 16, a, v & 0xffff, w) && match w {
                                Err(e) => r == Err::<Cycles, Exception>(e) && c1 == m3,
                                Ok(_) => r == Ok::<Cycles, Exception>(Cycles(26))
                                    && c1 == common::move_flags_outcome(m3, v & 0xffff, 8).0,
                            },
                    },
            }
}

/// MOVE to memory: the value is written, then N and Z are set from it.
pub fn move_16_ix_al(core: &mut ConfiguredCore) -> (r: Result<Cycles>)
    requires
        old(core).wf(),
    ensures
        final(core).wf(),
        move_16_ix_al_effect(*old(core), *final(core), r),
{
    let ghost c0 = *core;
    let src = operator::al_16(core);
    let ghost m1 = *core;
    assert(operator::al_16_rel(c0, m1, src));
    let v = match src {
        Err(e) => {
            return Err(e);
        },
        Ok(v) => v,
    };
    let m = v & 0xffff;
    let ea = effective_address::index_ax(core);
    let ghost m2 = *core;
    assert(effective_address::index_ax_rel(m1, m2, ea));
    let a = match ea {
        Err(e) => {
            return Err(e);
        },
        Ok(a) => a,
    };
    let w = write_sized(core, 16, a, m);
    let ghost m3 = *core;
    assert(data_written(m2, m3, 16, a, m, w));
    match w {
        Err(e) => Err(e),
        Ok(()) => {
            common::move_flags(core, m, 8);
            Ok(Cycles(26))
        },
    }
}

/// What `move_16_aw_al` does: the core goes from `c0` to `c1` and `r` comes back.
pub open spec fn move_16_aw_al_effect(c0: ConfiguredCore, c1: ConfiguredCore, r: Result<Cycles>) -> bool {
    &&& exists|m1: ConfiguredCore, src: Result<u32>|
            #[trigger] operator::al_16_rel(c0, m1, src) && match src {
                Err(e) => r == Err::<Cycles, Exception>(e) && c1 == m1,
                Ok(v) => exists|m2: ConfiguredCore, ea: Result<u32>|
                    #[trigger] effective_address::absolute_word_rel(m1, m2, ea) && match ea {
                        Err(e) => r == Err::<Cycles, Exception>(e) && c1 == m2,
                        Ok(a) => exists|m3: ConfiguredCore, w: Result<()>|
                            #[trigger] data_written(m2, m3, 16, a, v & 0xffff, w) && match w {
                                Err(e) => r == Err::<Cycles, Exception>(e) && c1 == m3,
                                Ok(_) => r == Ok::<Cycles, Exception>(Cycles(24))
                                    && c1 == common::move_flags_outcome(m3, v & 0xffff, 8).0,
                            },
                    },
            }
}

/// MOVE to memory: the value is written, then N and Z are set from it.
pub fn move_16_aw_al(core: &mut ConfiguredCore) -> (r: Result<Cycles>)
    requires
        old(core).wf(),
    ensures
        final(core).wf(),
        move_16_aw_al_effect(*old(core), *final(core), r),
{
    let ghost c0 = *core;
    let src = operator::al_16(core);
    let ghost m1 = *core;
    assert(operator::al_16_rel(c0, m1, src));
    let v = match src {
        Err(e) => {
            return Err(e);
        },
        Ok(v) => v,
    };
    let m = v & 0xffff;
    let ea = effective_address::absolute_word(core);
    let ghost m2 = *core;
    assert(effective_address::absolute_word_rel(m1, m2, ea));
    let a = match ea {
        Err(e) => {
            return Err(e);
        },
        Ok(a) => a,
    };
    let w = write_sized(core, 16, a, m);
    let ghost m3 = *core;
    assert(data_written(m2, m3, 16, a, m, w));
    match w {
        Err(e) => Err(e),
        Ok(()) => {
            common::move_flags(core, m, 8);
            Ok(Cycles(24))
        },
    }
}

/// What `move_16_al_al` does: the core goes from `c0` to `c1` and `r` comes back.
pub open spec fn move_16_al_al_effect(c0: ConfiguredCore, c1: ConfiguredCore, r: Result<Cycles>) -> bool {
    &&& exists|m1: ConfiguredCore, src: Result<u32>|
            #[trigger] operator::al_16_rel(c0, m1, src) && match src {
                Err(e) => r == Err::<Cycles, Exception>(e) && c1 == m1,
                Ok(v) => exists|m2: ConfiguredCore, ea: Result<u32>|
                    #[trigger] effective_address::absolute_long_rel(m1, m2, ea) && match ea {
                        Err(e) => r == Err::<Cycles, Exception>(e) && c1 == m2,
                        Ok(a) => exists|m3: ConfiguredCore, w: Result<()>|
                            #[trigger] data_written(m2, m3, 16, a, v & 0xffff, w) && match w {
                                Err(e) => r == Err::<Cycles, Exception>(e) && c1 == m3,
                                Ok(_) => r == Ok::<Cycles, Exception>(Cycles(28))
                                    && c1 == common::move_flags_outcome(m3, v & 0xffff, 8).0,
                            },
                    },
            }
}

/// MOVE to memory: the value is written, then N and Z are set from it.
pub fn move_16_al_al(core: &mut ConfiguredCore) -> (r: Result<Cycles>)
    requires
        old(core).wf(),
    ensures
        final(core).wf(),
        move_16_al_al_effect(*old(core), *final(core), r),
{
    let ghost c0 = *core;
    let src = operator::al_16(core);
    let ghost m1 = *core;
    assert(operator::al_16_rel(c0, m1, src));
    let v = match src {
        Err(e) => {
            return Err(e);
        },
        Ok(v) => v,
    };
    let m = v & 0xffff;
    let ea = effective_address::absolute_long(core);
    let ghost m2 = *core;
    assert(effective_address::absolute_long_rel(m1, m2, ea));
    let a = match ea {
        Err(e) => {
            return Err(e);
        },
        Ok(a) => a,
    };
    let w = write_sized(core, 16, a, m);
    let ghost m3 = *core;
    assert(data_written(m2, m3, 16, a, m, w));
    match w {
        Err(e) => Err(e),
        Ok(()) => {
            common::move_flags(core, m, 8);
            Ok(Cycles(28))
        },
    }
}

/// What `move_16_dn_pcdi` does: the core goes from `c0` to `c1` and `r` comes back.
pub open spec fn move_16_dn_pcdi_effect(c0: ConfiguredCore, c1: ConfiguredCore, r: Result<Cycles>) -> bool {
    &&& exists|mid: ConfiguredCore, src: Result<u32>|
            #[trigger] operator::pcdi_16_rel(c0, mid, src) && match src {
                Err(e) => r == Err::<Cycles, Exception>(e) && c1 == mid,
                Ok(v) => {
                    let m = v & 0xffff;
                    let reg = ir_dx(mid.ir);
                    &&& r == Ok::<Cycles, Exception>(Cycles(12))
                    &&& reg_set(common::move_flags_outcome(mid, m, 8).0, c1, reg, merged(mid.dar[reg], m, 16))
                },
            }
}

/// MOVE into Dx, with N and Z set from the value moved.
pub fn move_16_dn_pcdi(core: &mut ConfiguredCore) -> (r: Result<Cycles>)
    requires
        old(core).wf(),
    ensures
        final(core).wf(),
        move_16_dn_pcdi_effect(*old(core), *final(core), r),
{
    let ghost c0 = *core;
    let src = operator::pcdi_16(core);
    let ghost mid = *core;
    assert(operator::pcdi_16_rel(c0, mid, src));
    match src {
        Err(e) => Err(e),
        Ok(v) => {
            let m = v & 0xffff;
            let reg = reg_dx(core.ir);
            let dst = core.dar[reg];
            common::move_flags(core, m, 8);
            set_reg(core, reg, merge(dst, m, 16));
            Ok(Cycles(12))
        },
    }
}

/// What `move_16_ai_pcdi` does: the core goes from `c0` to `c1` and `r` comes back.
pub open spec fn move_16_ai_pcdi_effect(c0: ConfiguredCore, c1: ConfiguredCore, r: Result<Cycles>) -> bool {
    &&& exists|m1: ConfiguredCore, src: Result<u32>|
            #[trigger] operator::pcdi_16_rel(c0, m1, src) && match src {
                Err(e) => r == Err::<Cycles, Exception>(e) && c1 == m1,
                Ok(v) => exists|m2: ConfiguredCore, ea: Result<u32>|
                    #[trigger] effective_address::address_indirect_ax_rel(m1, m2, ea) && match ea {
                        Err(e) => r == Err::<Cycles, Exception>(e) && c1 == m2,
                        Ok(a) => exists|m3: ConfiguredCore, w: Result<()>|
                            #[trigger] data_written(m2, m3, 16, a, v & 0xffff, w) && match w {
                                Err(e) => r == Err::<Cycles, Exception>(e) && c1 == m3,
                                Ok(_) => r == Ok::<Cycles, Exception>(Cycles(16))
                                    && c1 == common::move_flags_outcome(m3, v & 0xffff, 8).0,
                            },
                    },
            }
}

/// MOVE to memory: the value is written, then N and Z are set from it.
pub fn move_16_ai_pcdi(core: &mut ConfiguredCore) -> (r: Result<Cycles>)
    requires
        old(core).wf(),
    ensures
        final(core).wf(),
        move_16_ai_pcdi_effect(*old(core), *final(core), r),
{
    let ghost c0 = *core;
    let src = operator::pcdi_16(core);
    let ghost m1 = *core;
    assert(operator::pcdi_16_rel(c0, m1, src));
    let v = match src {
        Err(e) => {
            return Err(e);
        },
        Ok(v) => v,
    };
    let m = v & 0xffff;
    let ea = effective_address::address_indirect_ax(core);
    let ghost m2 = *core;
    assert(effective_address::address_indirect_ax_rel(m1, m2, ea));
    let a = match ea {
        Err(e) => {
            return Err(e);
        },
        Ok(a) => a,
    };
    let w = write_sized(core, 16, a, m);
    let ghost m3 = *core;
    assert(data_written(m2, m3, 16, a, m, w));
    match w {
        Err(e) => Err(e),
        Ok(()) => {
            common::move_flags(core, m, 8);
            Ok(Cycles(16))
        },
    }
}

/// What `move_16_pi_pcdi` does: the core goes from `c0` to `c1` and `r` comes back.
pub open spec fn move_16_pi_pcdi_effect(c0: ConfiguredCore, c1: ConfiguredCore, r: Result<Cycles>) -> bool {
    &&& exists|m1: ConfiguredCore, src: Result<u32>|
            #[trigger] operator::pcdi_16_rel(c0, m1, src) && match src {
                Err(e) => r == Err::<Cycles, Exception>(e) && c1 == m1,
                Ok(v) => exists|m2: ConfiguredCore, ea: Result<u32>|
                    #[trigger] effective_address::postincrement_ax_16_rel(m1, m2, ea) && match ea {
                        Err(e) => r == Err::<Cycles, Exception>(e) && c1 == m2,
                        Ok(a) => exists|m3: ConfiguredCore, w: Result<()>|
                            #[trigger] data_written(m2, m3, 16, a, v & 0xffff, w) && match w {
                                Err(e) => r == Err::<Cycles, Exception>(e) && c1 == m3,
                                Ok(_) => r == Ok::<Cycles, Exception>(Cycles(16))
                                    && c1 == common::move_flags_outcome(m3, v & 0xffff, 8).0,
                            },
                    },
            }
}

/// MOVE to memory: the value is written, then N and Z are set from it.
pub fn move_16_pi_pcdi(core: &mut ConfiguredCore) -> (r: Result<Cycles>)
    requires
        old(core).wf(),
    ensures
        final(core).wf(),
        move_16_pi_pcdi_effect(*old(core), *final(core), r),
{
    let ghost c0 = *core;
    let src = operator::pcdi_16(core);
    let ghost m1 = *core;
    assert(operator::pcdi_16_rel(c0, m1, src));
    let v = match src {
        Err(e) => {
            return Err(e);
        },
        Ok(v) => v,
    };
    let m = v & 0xffff;
    let ea = effective_address::postincrement_ax_16(core);
    let ghost m2 = *core;
    assert(effective_address::postincrement_ax_16_rel(m1, m2, ea));
    let a = match ea {
        Err(e) => {
            return Err(e);
        },
        Ok(a) => a,
    };
    let w = write_sized(core, 16, a, m);
    let ghost m3 = *core;
    assert(data_written(m2, m3, 16, a, m, w));
    match w {
        Err(e) => Err(e),
        Ok(()) => {
            common::move_flags(core, m, 8);
            Ok(Cycles(16))
        },
    }
}

/// What `move_16_pd_pcdi` does: the core goes from `c0` to `c1` and `r` comes back.
pub open spec fn move_16_pd_pcdi_effect(c0: ConfiguredCore, c1: ConfiguredCore, r: Result<Cycles>) -> bool {
    &&& exists|m1: ConfiguredCore, src: Result<u32>|
            #[trigger] operator::pcdi_16_rel(c0, m1, src) && match src {
                Err(e) => r == Err::<Cycles, Exception>(e) && c1 == m1,
                Ok(v) => exists|m2: ConfiguredCore, ea: Result<u32>|
                    #[trigger] effective_address::predecrement_ax_16_rel(m1, m2, ea) && match ea {
                        Err(e) => r == Err::<Cycles, Exception>(e) && c1 == m2,
                        Ok(a) => exists|m3: ConfiguredCore, w: Result<()>|
                            #[trigger] data_written(m2, m3, 16, a, v & 0xffff, w) && match w {
                                Err(e) => r == Err::<Cycles, Exception>(e) && c1 == m3,
                                Ok(_) => r == Ok::<Cycles, Exception>(Cycles(16))
                                    && c1 == common::move_flags_outcome(m3, v & 0xffff, 8).0,
                            },
                    },
            }
}

/// MOVE to memory: the value is written, then N and Z are set from it.
pub fn move_16_pd_pcdi(core: &mut ConfiguredCore) -> (r: Result<Cycles>)
    requires
        old(core).wf(),
    ensures
        final(core).wf(),
        move_16_pd_pcdi_effect(*old(core), *final(core), r),
{
    let ghost c0 = *core;
    let src = operator::pcdi_16(core);
    let ghost m1 = *core;
    assert(operator::pcdi_16_rel(c0, m1, src));
    let v = match src {
        Err(e) => {
            return Err(e);
        },
        Ok(v) => v,
    };
    let m = v & 0xffff;
    let ea = effective_address::predecrement_ax_16(core);
    let ghost m2 = *core;
    assert(effective_address::predecrement_ax_16_rel(m1, m2, ea));
    let a = match ea {
        Err(e) => {
            return Err(e);
        },
        Ok(a) => a,
    };
    let w = write_sized(core, 16, a, m);
    let ghost m3 = *core;
    assert(data_written(m2, m3, 16, a, m, w));
    match w {
        Err(e) => Err(e),
        Ok(()) => {
            common::move_flags(core, m, 8);
            Ok(Cycles(16))
        },
    }
}

/// What `move_16_di_pcdi` does: the core goes from `c0` to `c1` and `r` comes back.
pub open spec fn move_16_di_pcdi_effect(c0: ConfiguredCore, c1: ConfiguredCore, r: Result<Cycles>) -> bool {
    &&& exists|m1: ConfiguredCore, src: Result<u32>|
            #[trigger] operator::pcdi_16_rel(c0, m1, src) && match src {
                Err(e) => r == Err::<Cycles, Exception>(e) && c1 == m1,
                Ok(v) => exists|m2: ConfiguredCore, ea: Result<u32>|
                    #[trigger] effective_address::displacement_ax_rel(m1, m2, ea) && match ea {
                        Err(e) => r == Err::<Cycles, Exception>(e) && c1 == m2,
                        Ok(a) => exists|m3: ConfiguredCore, w: Result<()>|
                            #[trigger] data_written(m2, m3, 16, a, v & 0xffff, w) && match w {
                                Err(e) => r == Err::<Cycles, Exception>(e) && c1 == m3,
                                Ok(_) => r == Ok::<Cycles, Exception>(Cycles(20))
                                    && c1 == common::move_flags_outcome(m3, v & 0xffff, 8).0,
                            },
                    },
            }
}

/// MOVE to memory: the value is written, then N and Z are set from it.
pub fn move_16_di_pcdi(core: &mut ConfiguredCore) -> (r: Result<Cycles>)
    requires
        old(core).wf(),
    ensures
        final(core).wf(),
        move_16_di_pcdi_effect(*old(core), *final(core), r),
{
    let ghost c0 = *core;
    let src = operator::pcdi_16(core);
    let ghost m1 = *core;
    assert(operator::pcdi_16_rel(c0, m1, src));
    let v = match src {
        Err(e) => {
            return Err(e);
        },
        Ok(v) => v,
    };
    let m = v & 0xffff;
    let ea = effective_address::displacement_ax(core);
    let ghost m2 = *core;
    assert(effective_address::displacement_ax_rel(m1, m2, ea));
    let a = match ea {
        Err(e) => {
            return Err(e);
        },
        Ok(a) => a,
    };
    let w = write_sized(core, 16, a, m);
    let ghost m3 = *core;
    assert(data_written(m2, m3, 16, a, m, w));
    match w {
        Err(e) => Err(e),
        Ok(()) => {
            common::move_flags(core, m, 8);
            Ok(Cycles(20))
        },
    }
}

/// What `move_16_ix_pcdi` does: the core goes from `c0` to `c1` and `r` comes back.
pub open spec fn move_16_ix_pcdi_effect(c0: ConfiguredCore, c1: ConfiguredCore, r: Result<Cycles>) -> bool {
    &&& exists|m1: ConfiguredCore, src: Result<u32>|
            #[trigger] operator::pcdi_16_rel(c0, m1, src) && match src {
                Err(e) => r == Err::<Cycles, Exception>(e) && c1 == m1,
                Ok(v) => exists|m2: ConfiguredCore, ea: Result<u32>|
                    #[trigger] effective_address::index_ax_rel(m1, m2, ea) && match ea {
                        Err(e) => r == Err::<Cycles, Exception>(e) && c1 == m2,
                        Ok(a) => exists|m3: ConfiguredCore, w: Result<()>|
                            #[trigger] data_written(m2, m3, 16, a, v & 0xffff, w) && match w {
                                Err(e) => r == Err::<Cycles, Exception>(e) && c1 == m3,
                                Ok(_) => r == Ok::<Cycles, Exception>(Cycles(22))
                                    && c1 == common::move_flags_outcome(m3, v & 0xffff, 8).0,
                            },
                    },
            }
}

/// MOVE to memory: the value is written, then N and Z are set from it.
pub fn move_16_ix_pcdi(core: &mut ConfiguredCore) -> (r: Result<Cycles>)
    requires
        old(core).wf(),
    ensures
        final(core).wf(),
        move_16_ix_pcdi_effect(*old(core), *final(core), r),
{
    let ghost c0 = *core;
    let src = operator::pcdi_16(core);
    let ghost m1 = *core;
    assert(operator::pcdi_16_rel(c0, m1, src));
    let v = match src {
        Err(e) => {
            return Err(e);
        },
        Ok(v) => v,
    };
    let m = v & 0xffff;
    let ea = effective_address::index_ax(core);
    let ghost m2 = *core;
    assert(effective_address::index_ax_rel(m1, m2, ea));
    let a = match ea {
        Err(e) => {
            return Err(e);
        },
        Ok(a) => a,
    };
    let w = write_sized(core, 16, a, m);
    let ghost m3 = *core;
    assert(data_written(m2, m3, 16, a, m, w));
    match w {
        Err(e) => Err(e),
        Ok(()) => {
            common::move_flags(core, m, 8);
            Ok(Cycles(22))
        },
    }
}

/// What `move_16_aw_pcdi` does: the core goes from `c0` to `c1` and `r` comes back.
pub open spec fn move_16_aw_pcdi_effect(c0: ConfiguredCore, c1: ConfiguredCore, r: Result<Cycles>) -> bool {
    &&& exists|m1: ConfiguredCore, src: Result<u32>|
            #[trigger] operator::pcdi_16_rel(c0, m1, src) && match src {
                Err(e) => r == Err::<Cycles, Exception>(e) && c1 == m1,
                Ok(v) => exists|m2: ConfiguredCore, ea: Result<u32>|
                    #[trigger] effective_address::absolute_word_rel(m1, m2, ea) && match ea {
                        Err(e) => r == Err::<Cycles, Exception>(e) && c1 == m2,
                        Ok(a) => exists|m3: ConfiguredCore, w: Result<()>|
                            #[trigger] data_written(m2, m3, 16, a, v & 0xffff, w) && match w {
                                Err(e) => r == Err::<Cycles, Exception>(e) && c1 == m3,
                                Ok(_) => r == Ok::<Cycles, Exception>(Cycles(20))
                                    && c1 == common::move_flags_outcome(m3, v & 0xffff, 8).0,
                            },
                    },
            }
}

/// MOVE to memory: the value is written, then N and Z are set from it.
pub fn move_16_aw_pcdi(core: &mut ConfiguredCore) -> (r: Result<Cycles>)
    requires
        old(core).wf(),
    ensures
        final(core).wf(),
        move_16_aw_pcdi_effect(*old(core), *final(core), r),
{
    let ghost c0 = *core;
    let src = operator::pcdi_16(core);
    let ghost m1 = *core;
    assert(operator::pcdi_16_rel(c0, m1, src));
    let v = match src {
        Err(e) => {
            return Err(e);
        },
        Ok(v) => v,
    };
    let m = v & 0xffff;
    let ea = effective_address::absolute_word(core);
    let ghost m2 = *core;
    assert(effective_address::absolute_word_rel(m1, m2, ea));
    let a = match ea {
        Err(e) => {
            return Err(e);
        },
        Ok(a) => a,
    };
    let w = write_sized(core, 16, a, m);
    let ghost m3 = *core;
    assert(data_written(m2, m3, 16, a, m, w));
    match w {
        Err(e) => Err(e),
        Ok(()) => {
            common::move_flags(core, m, 8);
            Ok(Cycles(20))
        },
    }
}

/// What `move_16_al_pcdi` does: the core goes from `c0` to `c1` and `r` comes back.
pub open spec fn move_16_al_pcdi_effect(c0: ConfiguredCore, c1: ConfiguredCore, r: Result<Cycles>) -> bool {
    &&& exists|m1: ConfiguredCore, src: Result<u32>|
            #[trigger] operator::pcdi_16_rel(c0, m1, src) && match src {
                Err(e) => r == Err::<Cycles, Exception>(e) && c1 == m1,
                Ok(v) => exists|m2: ConfiguredCore, ea: Result<u32>|
                    #[trigger] effective_address::absolute_long_rel(m1, m2, ea) && match ea {
                        Err(e) => r == Err::<Cycles, Exception>(e) && c1 == m2,
                        Ok(a) => exists|m3: ConfiguredCore, w: Result<()>|
                            #[trigger] data_written(m2, m3, 16, a, v & 0xffff, w) && match w {
                                Err(e) => r == Err::<Cycles, Exception>(e) && c1 == m3,
                                Ok(_) => r == Ok::<Cycles, Exception>(Cycles(24))
                                    && c1 == common::move_flags_outcome(m3, v & 0xffff, 8).0,
                            },
                    },
            }
}

/// MOVE to memory: the value is written, then N and Z are set from it.
pub fn move_16_al_pcdi(core: &mut ConfiguredCore) -> (r: Result<Cycles>)
    requires
        old(core).wf(),
    ensures
        final(core).wf(),
        move_16_al_pcdi_effect(*old(core), *final(core), r),
{
    let ghost c0 = *core;
    let src = operator::pcdi_16(core);
    let ghost m1 = *core;
    assert(operator::pcdi_16_rel(c0, m1, src));
    let v = match src {
        Err(e) => {
            return Err(e);
        },
        Ok(v) => v,
    };
    let m = v & 0xffff;
    let ea = effective_address::absolute_long(core);
    let ghost m2 = *core;
    assert(effective_address::absolute_long_rel(m1, m2, ea));
    let a = match ea {
        Err(e) => {
            return Err(e);
        },
        Ok(a) => a,
    };
    let w = write_sized(core, 16, a, m);
    let ghost m3 = *core;
    assert(data_written(m2, m3, 16, a, m, w));
    match w {
        Err(e) => Err(e),
        Ok(()) => {
            common::move_flags(core, m, 8);
            Ok(Cycles(24))
        },
    }
}

/// What `move_16_dn_pcix` does: the core goes from `c0` to `c1` and `r` comes back.
pub open spec fn move_16_dn_pcix_effect(c0: ConfiguredCore, c1: ConfiguredCore, r: Result<Cycles>) -> bool {
    &&& exists|mid: ConfiguredCore, src: Result<u32>|
            #[trigger] operator::pcix_16_rel(c0, mid, src) && match src {
                Err(e) => r == Err::<Cycles, Exception>(e) && c1 == mid,
                Ok(v) => {
                    let m = v & 0xffff;
                    let reg = ir_dx(mid.ir);
                    &&& r == Ok::<Cycles, Exception>(Cycles(14))
                    &&& reg_set(common::move_flags_outcome(mid, m, 8).0, c1, reg, merged(mid.dar[reg], m, 16))
                },
            }
}

/// MOVE into Dx, with N and Z set from the value moved.
pub fn move_16_dn_pcix(core: &mut ConfiguredCore) -> (r: Result<Cycles>)
    requires
        old(core).wf(),
    ensures
        final(core).wf(),
        move_16_dn_pcix_effect(*old(core), *final(core), r),
{
    let ghost c0 = *core;
    let src = operator::pcix_16(core);
    let ghost mid = *core;
    assert(operator::pcix_16_rel(c0, mid, src));
    match src {
        Err(e) => Err(e),
        Ok(v) => {
            let m = v & 0xffff;
            let reg = reg_dx(core.ir);
            let dst = core.dar[reg];
            common::move_flags(core, m, 8);
            set_reg(core, reg, merge(dst, m, 16));
            Ok(Cycles(14))
        },
    }
}

/// What `move_16_ai_pcix` does: the core goes from `c0` to `c1` and `r` comes back.
pub open spec fn move_16_ai_pcix_effect(c0: ConfiguredCore, c1: ConfiguredCore, r: Result<Cycles>) -> bool {
    &&& exists|m1: ConfiguredCore, src: Result<u32>|
            #[trigger] operator::pcix_16_rel(c0, m1, src) && match src {
                Err(e) => r == Err::<Cycles, Exception>(e) && c1 == m1,
                Ok(v) => exists|m2: ConfiguredCore, ea: Result<u32>|
                    #[trigger] effective_address::address_indirect_ax_rel(m1, m2, ea) && match ea {
                        Err(e) => r == Err::<Cycles, Exception>(e) && c1 == m2,
                        Ok(a) => exists|m3: ConfiguredCore, w: Result<()>|
                            #[trigger] data_written(m2, m3, 16, a, v & 0xffff, w) && match w {
                                Err(e) => r == Err::<Cycles, Exception>(e) && c1 == m3,
                                Ok(_) => r == Ok::<Cycles, Exception>(Cycles(18))
                                    && c1 == common::move_flags_outcome(m3, v & 0xffff, 8).0,
                            },
                    },
            }
}

/// MOVE to memory: the value is written, then N and Z are set from it.
pub fn move_16_ai_pcix(core: &mut ConfiguredCore) -> (r: Result<Cycles>)
    requires
        old(core).wf(),
    ensures
        final(core).wf(),
        move_16_ai_pcix_effect(*old(core), *final(core), r),
{
    let ghost c0 = *core;
    let src = operator::pcix_16(core);
    let ghost m1 = *core;
    assert(operator::pcix_16_rel(c0, m1, src));
    let v = match src {
        Err(e) => {
            return Err(e);
        },
        Ok(v) => v,
    };
    let m = v & 0xffff;
    let ea = effective_address::address_indirect_ax(core);
    let ghost m2 = *core;
    assert(effective_address::address_indirect_ax_rel(m1, m2, ea));
    let a = match ea {
        Err(e) => {
            return Err(e);
        },
        Ok(a) => a,
    };
    let w = write_sized(core, 16, a, m);
    let ghost m3 = *core;
    assert(data_written(m2, m3, 16, a, m, w));
    match w {
        Err(e) => Err(e),
        Ok(()) => {
            common::move_flags(core, m, 8);
            Ok(Cycles(18))
        },
    }
}

/// What `move_16_pi_pcix` does: the core goes from `c0` to `c1` and `r` comes back.
pub open spec fn move_16_pi_pcix_effect(c0: ConfiguredCore, c1: ConfiguredCore, r: Result<Cycles>) -> bool {
    &&& exists|m1: ConfiguredCore, src: Result<u32>|
            #[trigger] operator::pcix_16_rel(c0, m1, src) && match src {
                Err(e) => r == Err::<Cycles, Exception>(e) && c1 == m1,
                Ok(v) => exists|m2: ConfiguredCore, ea: Result<u32>|
                    #[trigger] effective_address::postincrement_ax_16_rel(m1, m2, ea) && match ea {
                        Err(e) => r == Err::<Cycles, Exception>(e) && c1 == m2,
                        Ok(a) => exists|m3: ConfiguredCore, w: Result<()>|
                            #[trigger] data_written(m2, m3, 16, a, v & 0xffff, w) && match w {
                                Err(e) => r == Err::<Cycles, Exception>(e) && c1 == m3,
                                Ok(_) => r == Ok::<Cycles, Exception>(Cycles(18))
                                    && c1 == common::move_flags_outcome(m3, v & 0xffff, 8).0,
                            },
                    },
            }
}

/// MOVE to memory: the value is written, then N and Z are set from it.
pub fn move_16_pi_pcix(core: &mut ConfiguredCore) -> (r: Result<Cycles>)
    requires
        old(core).wf(),
    ensures
        final(core).wf(),
        move_16_pi_pcix_effect(*old(core), *final(core), r),
{
    let ghost c0 = *core;
    let src = operator::pcix_16(core);
    let ghost m1 = *core;
    assert(operator::pcix_16_rel(c0, m1, src));
    let v = match src {
        Err(e) => {
            return Err(e);
        },
        Ok(v) => v,
    };
    let m = v & 0xffff;
    let ea = effective_address::postincrement_ax_16(core);
    let ghost m2 = *core;
    assert(effective_address::postincrement_ax_16_rel(m1, m2, ea));
    let a = match ea {
        Err(e) => {
            return Err(e);
        },
        Ok(a) => a,
    };
    let w = write_sized(core, 16, a, m);
    let ghost m3 = *core;
    assert(data_written(m2, m3, 16, a, m, w));
    match w {
        Err(e) => Err(e),
        Ok(()) => {
            common::move_flags(core, m, 8);
            Ok(Cycles(18))
        },
    }
}

/// What `move_16_pd_pcix` does: the core goes from `c0` to `c1` and `r` comes back.
pub open spec fn move_16_pd_pcix_effect(c0: ConfiguredCore, c1: ConfiguredCore, r: Result<Cycles>) -> bool {
    &&& exists|m1: ConfiguredCore, src: Result<u32>|
            #[trigger] operator::pcix_16_rel(c0, m1, src) && match src {
                Err(e) => r == Err::<Cycles, Exception>(e) && c1 == m1,
                Ok(v) => exists|m2: ConfiguredCore, ea: Result<u32>|
                    #[trigger] effective_address::predecrement_ax_16_rel(m1, m2, ea) && match ea {
                        Err(e) => r == Err::<Cycles, Exception>(e) && c1 == m2,
                        Ok(a) => exists|m3: ConfiguredCore, w: Result<()>|
                            #[trigger] data_written(m2, m3, 16, a, v & 0xffff, w) && match w {
                                Err(e) => r == Err::<Cycles, Exception>(e) && c1 == m3,
                                Ok(_) => r == Ok::<Cycles, Exception>(Cycles(18))
                                    && c1 == common::move_flags_outcome(m3, v & 0xffff, 8).0,
                            },
                    },
            }
}

/// MOVE to memory: the value is written, then N and Z are set from it.
pub fn move_16_pd_pcix(core: &mut ConfiguredCore) -> (r: Result<Cycles>)
    requires
        old(core).wf(),
    ensures
        final(core).wf(),
        move_16_pd_pcix_effect(*old(core), *final(core), r),
{
    let ghost c0 = *core;
    let src = operator::pcix_16(core);
    let ghost m1 = *core;
    assert(operator::pcix_16_rel(c0, m1, src));
    let v = match src {
        Err(e) => {
            return Err(e);
        },
        Ok(v) => v,
    };
    let m = v & 0xffff;
    let ea = effective_address::predecrement_ax_16(core);
    let ghost m2 = *core;
    assert(effective_address::predecrement_ax_16_rel(m1, m2, ea));
    let a = match ea {
        Err(e) => {
            return Err(e);
        },
        Ok(a) => a,
    };
    let w = write_sized(core, 16, a, m);
    let ghost m3 = *core;
    assert(data_written(m2, m3, 16, a, m, w));
    match w {
        Err(e) => Err(e),
        Ok(()) => {
            common::move_flags(core, m, 8);
            Ok(Cycles(18))
        },
    }
}

/// What `move_16_di_pcix` does: the core goes from `c0` to `c1` and `r` comes back.
pub open spec fn move_16_di_pcix_effect(c0: ConfiguredCore, c1: ConfiguredCore, r: Result<Cycles>) -> bool {
    &&& exists|m1: ConfiguredCore, src: Result<u32>|
            #[trigger] operator::pcix_16_rel(c0, m1, src) && match src {
                Err(e) => r == Err::<Cycles, Exception>(e) && c1 == m1,
                Ok(v) => exists|m2: ConfiguredCore, ea: Result<u32>|
                    #[trigger] effective_address::displacement_ax_rel(m1, m2, ea) && match ea {
                        Err(e) => r == Err::<Cycles, Exception>(e) && c1 == m2,
                        Ok(a) => exists|m3: ConfiguredCore, w: Result<()>|
                            #[trigger] data_written(m2, m3, 16, a, v & 0xffff, w) && match w {
                                Err(e) => r == Err::<Cycles, Exception>(e) && c1 == m3,
                                Ok(_) => r == Ok::<Cycles, Exception>(Cycles(22))
                                    && c1 == common::move_flags_outcome(m3, v & 0xffff, 8).0,
                            },
                    },
            }
}

/// MOVE to memory: the value is written, then N and Z are set from it.
pub fn move_16_di_pcix(core: &mut ConfiguredCore) -> (r: Result<Cycles>)
    requires
        old(core).wf(),
    ensures
        final(core).wf(),
        move_16_di_pcix_effect(*old(core), *final(core), r),
{
    let ghost c0 = *core;
    let src = operator::pcix_16(core);
    let ghost m1 = *core;
    assert(operator::pcix_16_rel(c0, m1, src));
    let v = match src {
        Err(e) => {
            return Err(e);
        },
        Ok(v) => v,
    };
    let m = v & 0xffff;
    let ea = effective_address::displacement_ax(core);
    let ghost m2 = *core;
    assert(effective_address::displacement_ax_rel(m1, m2, ea));
    let a = match ea {
        Err(e) => {
            return Err(e);
        },
        Ok(a) => a,
    };
    let w = write_sized(core, 16, a, m);
    let ghost m3 = *core;
    assert(data_written(m2, m3, 16, a, m, w));
    match w {
        Err(e) => Err(e),
        Ok(()) => {
            common::move_flags(core, m, 8);
            Ok(Cycles(22))
        },
    }
}

/// What `move_16_ix_pcix` does: the core goes from `c0` to `c1` and `r` comes back.
pub open spec fn move_16_ix_pcix_effect(c0: ConfiguredCore, c1: ConfiguredCore, r: Result<Cycles>) -> bool {
    &&& exists|m1: ConfiguredCore, src: Result<u32>|
            #[trigger] operator::pcix_16_rel(c0, m1, src) && match src {
                Err(e) => r == Err::<Cycles, Exception>(e) && c1 == m1,
                Ok(v) => exists|m2: ConfiguredCore, ea: Result<u32>|
                    #[trigger] effective_address::index_ax_rel(m1, m2, ea) && match ea {
                        Err(e) => r == Err::<Cycles, Exception>(e) && c1 == m2,
                        Ok(a) => exists|m3: ConfiguredCore, w: Result<()>|
                            #[trigger] data_written(m2, m3, 16, a, v & 0xffff, w) && match w {
                                Err(e) => r == Err::<Cycles, Exception>(e) && c1 == m3,
                                Ok(_) => r == Ok::<Cycles, Exception>(Cycles(24))
                                    && c1 == common::move_flags_outcome(m3, v & 0xffff, 8).0,
                            },
                    },
            }
}

/// MOVE to memory: the value is written, then N and Z are set from it.
pub fn move_16_ix_pcix(core: &mut ConfiguredCore) -> (r: Result<Cycles>)
    requires
        old(core).wf(),
    ensures
        final(core).wf(),
        move_16_ix_pcix_effect(*old(core), *final(core), r),
{
    let ghost c0 = *core;
    let src = operator::pcix_16(core);
    let ghost m1 = *core;
    assert(operator::pcix_16_rel(c0, m1, src));
    let v = match src {
        Err(e) => {
            return Err(e);
        },
        Ok(v) => v,
    };
    let m = v & 0xffff;
    let ea = effective_address::index_ax(core);
    let ghost m2 = *core;
    assert(effective_address::index_ax_rel(m1, m2, ea));
    let a = match ea {
        Err(e) => {
            return Err(e);
        },
        Ok(a) => a,
    };
    let w = write_sized(core, 16, a, m);
    let ghost m3 = *core;
    assert(data_written(m2, m3, 16, a, m, w));
    match w {
        Err(e) => Err(e),
        Ok(()) => {
            common::move_flags(core, m, 8);
            Ok(Cycles(24))
        },
    }
}

/// What `move_16_aw_pcix` does: the core goes from `c0` to `c1` and `r` comes back.
pub open spec fn move_16_aw_pcix_effect(c0: ConfiguredCore, c1: ConfiguredCore, r: Result<Cycles>) -> bool {
    &&& exists|m1: ConfiguredCore, src: Result<u32>|
            #[trigger] operator::pcix_16_rel(c0, m1, src) && match src {
                Err(e) => r == Err::<Cycles, Exception>(e) && c1 == m1,
                Ok(v) => exists|m2: ConfiguredCore, ea: Result<u32>|
                    #[trigger] effective_address::absolute_word_rel(m1, m2, ea) && match ea {
                        Err(e) => r == Err::<Cycles, Exception>(e) && c1 == m2,
                        Ok(a) => exists|m3: ConfiguredCore, w: Result<()>|
                            #[trigger] data_written(m2, m3, 16, a, v & 0xffff, w) && match w {
                                Err(e) => r == Err::<Cycles, Exception>(e) && c1 == m3,
                                Ok(_) => r == Ok::<Cycles, Exception>(Cycles(22))
                                    && c1 == common::move_flags_outcome(m3, v & 0xffff, 8).0,
                            },
                    },
            }
}

/// MOVE to memory: the value is written, then N and Z are set from it.
pub fn move_16_aw_pcix(core: &mut ConfiguredCore) -> (r: Result<Cycles>)
    requires
        old(core).wf(),
    ensures
        final(core).wf(),
        move_16_aw_pcix_effect(*old(core), *final(core), r),
{
    let ghost c0 = *core;
    let src = operator::pcix_16(core);
    let ghost m1 = *core;
    assert(operator::pcix_16_rel(c0, m1, src));
    let v = match src {
        Err(e) => {
            return Err(e);
        },
        Ok(v) => v,
    };
    let m = v & 0xffff;
    let ea = effective_address::absolute_word(core);
    let ghost m2 = *core;
    assert(effective_address::absolute_word_rel(m1, m2, ea));
    let a = match ea {
        Err(e) => {
            return Err(e);
        },
        Ok(a) => a,
    };
    let w = write_sized(core, 16, a, m);
    let ghost m3 = *core;
    assert(data_written(m2, m3, 16, a, m, w));
    match w {
        Err(e) => Err(e),
        Ok(()) => {
            common::move_flags(core, m, 8);
            Ok(Cycles(22))
        },
    }
}

/// What `move_16_al_pcix` does: the core goes from `c0` to `c1` and `r` comes back.
pub open spec fn move_16_al_pcix_effect(c0: ConfiguredCore, c1: ConfiguredCore, r: Result<Cycles>) -> bool {
    &&& exists|m1: ConfiguredCore, src: Result<u32>|
            #[trigger] operator::pcix_16_rel(c0, m1, src) && match src {
                Err(e) => r == Err::<Cycles, Exception>(e) && c1 == m1,
                Ok(v) => exists|m2: ConfiguredCore, ea: Result<u32>|
                    #[trigger] effective_address::absolute_long_rel(m1, m2, ea) && match ea {
                        Err(e) => r == Err::<Cycles, Exception>(e) && c1 == m2,
                        Ok(a) => exists|m3: ConfiguredCore, w: Result<()>|
                            #[trigger] data_written(m2, m3, 16, a, v & 0xffff, w) && match w {
                                Err(e) => r == Err::<Cycles, Exception>(e) && c1 == m3,
                                Ok(_) => r == Ok::<Cycles, Exception>(Cycles(26))
                                    && c1 == common::move_flags_outcome(m3, v & 0xffff, 8).0,
                            },
                    },
            }
}

/// MOVE to memory: the value is written, then N and Z are set from it.
pub fn move_16_al_pcix(core: &mut ConfiguredCore) -> (r: Result<Cycles>)
    requires
        old(core).wf(),
    ensures
        final(core).wf(),
        move_16_al_pcix_effect(*old(core), *final(core), r),
{
    let ghost c0 = *core;
    let src = operator::pcix_16(core);
    let ghost m1 = *core;
    assert(operator::pcix_16_rel(c0, m1, src));
    let v = match src {
        Err(e) => {
            return Err(e);
        },
        Ok(v) => v,
    };
    let m = v & 0xffff;
    let ea = effective_address::absolute_long(core);
    let ghost m2 = *core;
    assert(effective_address::absolute_long_rel(m1, m2, ea));
    let a = match ea {
        Err(e) => {
            return Err(e);
        },
        Ok(a) => a,
    };
    let w = write_sized(core, 16, a, m);
    let ghost m3 = *core;
    assert(data_written(m2, m3, 16, a, m, w));
    match w {
        Err(e) => Err(e),
        Ok(()) => {
            common::move_flags(core, m, 8);
            Ok(Cycles(26))
        },
    }
}

/// What `move_16_dn_imm` does: the core goes from `c0` to `c1` and `r` comes back.
pub open spec fn move_16_dn_imm_effect(c0: ConfiguredCore, c1: ConfiguredCore, r: Result<Cycles>) -> bool {
    &&& exists|mid: ConfiguredCore, src: Result<u32>|
            #[trigger] operator::imm_16_rel(c0, mid, src) && match src {
                Err(e) => r == Err::<Cycles, Exception>(e) && c1 == mid,
                Ok(v) => {
                    let m = v & 0xffff;
                    let reg = ir_dx(mid.ir);
                    &&& r == Ok::<Cycles, Exception>(Cycles(8))
                    &&& reg_set(common::move_flags_outcome(mid, m, 8).0, c1, reg, merged(mid.dar[reg], m, 16))
                },
            }
}

/// MOVE into Dx, with N and Z set from the value moved.
pub fn move_16_dn_imm(core: &mut ConfiguredCore) -> (r: Result<Cycles>)
    requires
        old(core).wf(),
    ensures
        final(core).wf(),
        move_16_dn_imm_effect(*old(core), *final(core), r),
{
    let ghost c0 = *core;
    let src = operator::imm_16(core);
    let ghost mid = *core;
    assert(operator::imm_16_rel(c0, mid, src));
    match src {
        Err(e) => Err(e),
        Ok(v) => {
            let m = v & 0xffff;
            let reg = reg_dx(core.ir);
            let dst = core.dar[reg];
            common::move_flags(core, m, 8);
            set_reg(core, reg, merge(dst, m, 16));
            Ok(Cycles(8))
        },
    }
}

/// What `move_16_ai_imm` does: the core goes from `c0` to `c1` and `r` comes back.
pub open spec fn move_16_ai_imm_effect(c0: ConfiguredCore, c1: ConfiguredCore, r: Result<Cycles>) -> bool {
    &&& exists|m1: ConfiguredCore, src: Result<u32>|
            #[trigger] operator::imm_16_rel(c0, m1, src) && match src {
                Err(e) => r == Err::<Cycles, Exception>(e) && c1 == m1,
                Ok(v) => exists|m2: ConfiguredCore, ea: Result<u32>|
                    #[trigger] effective_address::address_indirect_ax_rel(m1, m2, ea) && match ea {
                        Err(e) => r == Err::<Cycles, Exception>(e) && c1 == m2,
                        Ok(a) => exists|m3: ConfiguredCore, w: Result<()>|
                            #[trigger] data_written(m2, m3, 16, a, v & 0xffff, w) && match w {
                                Err(e) => r == Err::<Cycles, Exception>(e) && c1 == m3,
                                Ok(_) => r == Ok::<Cycles, Exception>(Cycles(12))
                                    && c1 == common::move_flags_outcome(m3, v & 0xffff, 8).0,
                            },
                    },
            }
}

/// MOVE to memory: the value is written, then N and Z are set from it.
pub fn move_16_ai_imm(core: &mut ConfiguredCore) -> (r: Result<Cycles>)
    requires
        old(core).wf(),
    ensures
        final(core).wf(),
        move_16_ai_imm_effect(*old(core), *final(core), r),
{
    let ghost c0 = *core;
    let src = operator::imm_16(core);
    let ghost m1 = *core;
    assert(operator::imm_16_rel(c0, m1, src));
    let v = match src {
        Err(e) => {
            return Err(e);
        },
        Ok(v) => v,
    };
    let m = v & 0xffff;
    let ea = effective_address::address_indirect_ax(core);
    let ghost m2 = *core;
    assert(effective_address::address_indirect_ax_rel(m1, m2, ea));
    let a = match ea {
        Err(e) => {
            return Err(e);
        },
        Ok(a) => a,
    };
    let w = write_sized(core, 16, a, m);
    let ghost m3 = *core;
    assert(data_written(m2, m3, 16, a, m, w));
    match w {
        Err(e) => Err(e),
        Ok(()) => {
            common::move_flags(core, m, 8);
            Ok(Cycles(12))
        },
    }
}

/// What `move_16_pi_imm` does: the core goes from `c0` to `c1` and `r` comes back.
pub open spec fn move_16_pi_imm_effect(c0: ConfiguredCore, c1: ConfiguredCore, r: Result<Cycles>) -> bool {
    &&& exists|m1: ConfiguredCore, src: Result<u32>|
            #[trigger] operator::imm_16_rel(c0, m1, src) && match src {
                Err(e) => r == Err::<Cycles, Exception>(e) && c1 == m1,
                Ok(v) => exists|m2: ConfiguredCore, ea: Result<u32>|
                    #[trigger] effective_address::postincrement_ax_16_rel(m1, m2, ea) && match ea {
                        Err(e) => r == Err::<Cycles, Exception>(e) && c1 == m2,
                        Ok(a) => exists|m3: ConfiguredCore, w: Result<()>|
                            #[trigger] data_written(m2, m3, 16, a, v & 0xffff, w) && match w {
                                Err(e) => r == Err::<Cycles, Exception>(e) && c1 == m3,
                                Ok(_) => r == Ok::<Cycles, Exception>(Cycles(12))
                                    && c1 == common::move_flags_outcome(m3, v & 0xffff, 8).0,
                            },
                    },
            }
}

/// MOVE to memory: the value is written, then N and Z are set from it.
pub fn move_16_pi_imm(core: &mut ConfiguredCore) -> (r: Result<Cycles>)
    requires
        old(core).wf(),
    ensures
        final(core).wf(),
        move_16_pi_imm_effect(*old(core), *final(core), r),
{
    let ghost c0 = *core;
    let src = operator::imm_16(core);
    let ghost m1 = *core;
    assert(operator::imm_16_rel(c0, m1, src));
    let v = match src {
        Err(e) => {
            return Err(e);
        },
        Ok(v) => v,
    };
    let m = v & 0xffff;
    let ea = effective_address::postincrement_ax_16(core);
    let ghost m2 = *core;
    assert(effective_address::postincrement_ax_16_rel(m1, m2, ea));
    let a = match ea {
        Err(e) => {
            return Err(e);
        },
        Ok(a) => a,
    };
    let w = write_sized(core, 16, a, m);
    let ghost m3 = *core;
    assert(data_written(m2, m3, 16, a, m, w));
    match w {
        Err(e) => Err(e),
        Ok(()) => {
            common::move_flags(core, m, 8);
            Ok(Cycles(12))
        },
    }
}

/// What `move_16_pd_imm` does: the core goes from `c0` to `c1` and `r` comes back.
pub open spec fn move_16_pd_imm_effect(c0: ConfiguredCore, c1: ConfiguredCore, r: Result<Cycles>) -> bool {
    &&& exists|m1: ConfiguredCore, src: Result<u32>|
            #[trigger] operator::imm_16_rel(c0, m1, src) && match src {
                Err(e) => r == Err::<Cycles, Exception>(e) && c1 == m1,
                Ok(v) => exists|m2: ConfiguredCore, ea: Result<u32>|
                    #[trigger] effective_address::predecrement_ax_16_rel(m1, m2, ea) && match ea {
                        Err(e) => r == Err::<Cycles, Exception>(e) && c1 == m2,
                        Ok(a) => exists|m3: ConfiguredCore, w: Result<()>|
                            #[trigger] data_written(m2, m3, 16, a, v & 0xffff, w) && match w {
                                Err(e) => r == Err::<Cycles, Exception>(e) && c1 == m3,
                                Ok(_) => r == Ok::<Cycles, Exception>(Cycles(12))
                                    && c1 == common::move_flags_outcome(m3, v & 0xffff, 8).0,
                            },
                    },
            }
}

/// MOVE to memory: the value is written, then N and Z are set from it.
pub fn move_16_pd_imm(core: &mut ConfiguredCore) -> (r: Result<Cycles>)
    requires
        old(core).wf(),
    ensures
        final(core).wf(),
        move_16_pd_imm_effect(*old(core), *final(core), r),
{
    let ghost c0 = *core;
    let src = operator::imm_16(core);
    let ghost m1 = *core;
    assert(operator::imm_16_rel(c0, m1, src));
    let v = match src {
        Err(e) => {
            return Err(e);
        },
        Ok(v) => v,
    };
    let m = v & 0xffff;
    let ea = effective_address::predecrement_ax_16(core);
    let ghost m2 = *core;
    assert(effective_address::predecrement_ax_16_rel(m1, m2, ea));
    let a = match ea {
        Err(e) => {
            return Err(e);
        },
        Ok(a) => a,
    };
    let w = write_sized(core, 16, a, m);
    let ghost m3 = *core;
    assert(data_written(m2, m3, 16, a, m, w));
    match w {
        Err(e) => Err(e),
        Ok(()) => {
            common::move_flags(core, m, 8);
            Ok(Cycles(12))
        },
    }
}

/// What `move_16_di_imm` does: the core goes from `c0` to `c1` and `r` comes back.
pub open spec fn move_16_di_imm_effect(c0: ConfiguredCore, c1: ConfiguredCore, r: Result<Cycles>) -> bool {
    &&& exists|m1: ConfiguredCore, src: Result<u32>|
            #[trigger] operator::imm_16_rel(c0, m1, src) && match src {
                Err(e) => r == Err::<Cycles, Exception>(e) && c1 == m1,
                Ok(v) => exists|m2: ConfiguredCore, ea: Result<u32>|
                    #[trigger] effective_address::displacement_ax_rel(m1, m2, ea) && match ea {
                        Err(e) => r == Err::<Cycles, Exception>(e) && c1 == m2,
                        Ok(a) => exists|m3: ConfiguredCore, w: Result<()>|
                            #[trigger] data_written(m2, m3, 16, a, v & 0xffff, w) && match w {
                                Err(e) => r == Err::<Cycles, Exception>(e) && c1 == m3,
                                Ok(_) => r == Ok::<Cycles, Exception>(Cycles(16))
                                    && c1 == common::move_flags_outcome(m3, v & 0xffff, 8).0,
                            },
                    },
            }
}

/// MOVE to memory: the value is written, then N and Z are set from it.
pub fn move_16_di_imm(core: &mut ConfiguredCore) -> (r: Result<Cycles>)
    requires
        old(core).wf(),
    ensures
        final(core).wf(),
        move_16_di_imm_effect(*old(core), *final(core), r),
{
    let ghost c0 = *core;
    let src = operator::imm_16(core);
    let ghost m1 = *core;
    assert(operator::imm_16_rel(c0, m1, src));
    let v = match src {
        Err(e) => {
            return Err(e);
        },
        Ok(v) => v,
    };
    let m = v & 0xffff;
    let ea = effective_address::displacement_ax(core);
    let ghost m2 = *core;
    assert(effective_address::displacement_ax_rel(m1, m2, ea));
    let a = match ea {
        Err(e) => {
            return Err(e);
        },
        Ok(a) => a,
    };
    let w = write_sized(core, 16, a, m);
    let ghost m3 = *core;
    assert(data_written(m2, m3, 16, a, m, w));
    match w {
        Err(e) => Err(e),
        Ok(()) => {
            common::move_flags(core, m, 8);
            Ok(Cycles(16))
        },
    }
}

/// What `move_16_ix_imm` does: the core goes from `c0` to `c1` and `r` comes back.
pub open spec fn move_16_ix_imm_effect(c0: ConfiguredCore, c1: ConfiguredCore, r: Result<Cycles>) -> bool {
    &&& exists|m1: ConfiguredCore, src: Result<u32>|
            #[trigger] operator::imm_16_rel(c0, m1, src) && match src {
                Err(e) => r == Err::<Cycles, Exception>(e) && c1 == m1,
                Ok(v) => exists|m2: ConfiguredCore, ea: Result<u32>|
                    #[trigger] effective_address::index_ax_rel(m1, m2, ea) && match ea {
                        Err(e) => r == Err::<Cycles, Exception>(e) && c1 == m2,
                        Ok(a) => exists|m3: ConfiguredCore, w: Result<()>|
                            #[trigger] data_written(m2, m3, 16, a, v & 0xffff, w) && match w {
                                Err(e) => r == Err::<Cycles, Exception>(e) && c1 == m3,
                                Ok(_) => r == Ok::<Cycles, Exception>(Cycles(18))
                                    && c1 == common::move_flags_outcome(m3, v & 0xffff, 8).0,
                            },
                    },
            }
}

/// MOVE to memory: the value is written, then N and Z are set from it.
pub fn move_16_ix_imm(core: &mut ConfiguredCore) -> (r: Result<Cycles>)
    requires
        old(core).wf(),
    ensures
        final(core).wf(),
        move_16_ix_imm_effect(*old(core), *final(core), r),
{
    let ghost c0 = *core;
    let src = operator::imm_16(core);
    let ghost m1 = *core;
    assert(operator::imm_16_rel(c0, m1, src));
    let v = match src {
        Err(e) => {
            return Err(e);
        },
        Ok(v) => v,
    };
    let m = v & 0xffff;
    let ea = effective_address::index_ax(core);
    let ghost m2 = *core;
    assert(effective_address::index_ax_rel(m1, m2, ea));
    let a = match ea {
        Err(e) => {
            return Err(e);
        },
        Ok(a) => a,
    };
    let w = write_sized(core, 16, a, m);
    let ghost m3 = *core;
    assert(data_written(m2, m3, 16, a, m, w));
    match w {
        Err(e) => Err(e),
        Ok(()) => {
            common::move_flags(core, m, 8);
            Ok(Cycles(18))
        },
    }
}

/// What `move_16_aw_imm` does: the core goes from `c0` to `c1` and `r` comes back.
pub open spec fn move_16_aw_imm_effect(c0: ConfiguredCore, c1: ConfiguredCore, r: Result<Cycles>) -> bool {
    &&& exists|m1: ConfiguredCore, src: Result<u32>|
            #[trigger] operator::imm_16_rel(c0, m1, src) && match src {
                Err(e) => r == Err::<Cycles, Exception>(e) && c1 == m1,
                Ok(v) => exists|m2: ConfiguredCore, ea: Result<u32>|
                    #[trigger] effective_address::absolute_word_rel(m1, m2, ea) && match ea {
                        Err(e) => r == Err::<Cycles, Exception>(e) && c1 == m2,
                        Ok(a) => exists|m3: ConfiguredCore, w: Result<()>|
                            #[trigger] data_written(m2, m3, 16, a, v & 0xffff, w) && match w {
                                Err(e) => r == Err::<Cycles, Exception>(e) && c1 == m3,
                                Ok(_) => r == Ok::<Cycles, Exception>(Cycles(16))
                                    && c1 == common::move_flags_outcome(m3, v & 0xffff, 8).0,
                            },
                    },
            }
}

/// MOVE to memory: the value is written, then N and Z are set from it.
pub fn move_16_aw_imm(core: &mut ConfiguredCore) -> (r: Result<Cycles>)
    requires
        old(core).wf(),
    ensures
        final(core).wf(),
        move_16_aw_imm_effect(*old(core), *final(core), r),
{
    let ghost c0 = *core;
    let src = operator::imm_16(core);
    let ghost m1 = *core;
    assert(operator::imm_16_rel(c0, m1, src));
    let v = match src {
        Err(e) => {
            return Err(e);
        },
        Ok(v) => v,
    };
    let m = v & 0xffff;
    let ea = effective_address::absolute_word(core);
    let ghost m2 = *core;
    assert(effective_address::absolute_word_rel(m1, m2, ea));
    let a = match ea {
        Err(e) => {
            return Err(e);
        },
        Ok(a) => a,
    };
    let w = write_sized(core, 16, a, m);
    let ghost m3 = *core;
    assert(data_written(m2, m3, 16, a, m, w));
    match w {
        Err(e) => Err(e),
        Ok(()) => {
            common::move_flags(core, m, 8);
            Ok(Cycles(16))
        },
    }
}

/// What `move_16_al_imm` does: the core goes from `c0` to `c1` and `r` comes back.
pub open spec fn move_16_al_imm_effect(c0: ConfiguredCore, c1: ConfiguredCore, r: Result<Cycles>) -> bool {
    &&& exists|m1: ConfiguredCore, src: Result<u32>|
            #[trigger] operator::imm_16_rel(c0, m1, src) && match src {
                Err(e) => r == Err::<Cycles, Exception>(e) && c1 == m1,
                Ok(v) => exists|m2: ConfiguredCore, ea: Result<u32>|
                    #[trigger] effective_address::absolute_long_rel(m1, m2, ea) && match ea {
                        Err(e) => r == Err::<Cycles, Exception>(e) && c1 == m2,
                        Ok(a) => exists|m3: ConfiguredCore, w: Result<()>|
                            #[trigger] data_written(m2, m3, 16, a, v & 0xffff, w) && match w {
                                Err(e) => r == Err::<Cycles, Exception>(e) && c1 == m3,
                                Ok(_) => r == Ok::<Cycles, Exception>(Cycles(20))
                                    && c1 == common::move_flags_outcome(m3, v & 0xffff, 8).0,
                            },
                    },
            }
}

/// MOVE to memory: the value is written, then N and Z are set from it.
pub fn move_16_al_imm(core: &mut ConfiguredCore) -> (r: Result<Cycles>)
    requires
        old(core).wf(),
    ensures
        final(core).wf(),
        move_16_al_imm_effect(*old(core), *final(core), r),
{
    let ghost c0 = *core;
    let src = operator::imm_16(core);
    let ghost m1 = *core;
    assert(operator::imm_16_rel(c0, m1, src));
    let v = match src {
        Err(e) => {
            return Err(e);
        },
        Ok(v) => v,
    };
    let m = v & 0xffff;
    let ea = effective_address::absolute_long(core);
    let ghost m2 = *core;
    assert(effective_address::absolute_long_rel(m1, m2, ea));
    let a = match ea {
        Err(e) => {
            return Err(e);
        },
        Ok(a) => a,
    };
    let w = write_sized(core, 16, a, m);
    let ghost m3 = *core;
    assert(data_written(m2, m3, 16, a, m, w));
    match w {
        Err(e) => Err(e),
        Ok(()) => {
            common::move_flags(core, m, 8);
            Ok(Cycles(20))
        },
    }
}

/// What `move_32_dn_dn` does: the core goes from `c0` to `c1` and `r` comes back.
pub open spec fn move_32_dn_dn_effect(c0: ConfiguredCore, c1: ConfiguredCore, r: Result<Cycles>) -> bool {
    &&& exists|mid: ConfiguredCore, src: Result<u32>|
            #[trigger] operator::dy_rel(c0, mid, src) && match src {
                Err(e) => r == Err::<Cycles, Exception>(e) && c1 == mid,
                Ok(v) => {
                    let m = v;
                    let reg = ir_dx(mid.ir);
                    &&& r == Ok::<Cycles, Exception>(Cycles(4))
                    &&& reg_set(common::move_flags_outcome(mid, m, 24).0, c1, reg, merged(mid.dar[reg], m, 32))
                },
            }
}

/// MOVE into Dx, with N and Z set from the value moved.
pub fn move_32_dn_dn(core: &mut ConfiguredCore) -> (r: Result<Cycles>)
    requires
        old(core).wf(),
    ensures
        final(core).wf(),
        move_32_dn_dn_effect(*old(core), *final(core), r),
{
    let ghost c0 = *core;
    let src = operator::dy(core);
    let ghost mid = *core;
    assert(operator::dy_rel(c0, mid, src));
    match src {
        Err(e) => Err(e),
        Ok(v) => {
            let m = v;
            let reg = reg_dx(core.ir);
            let dst = core.dar[reg];
            common::move_flags(core, m, 24);
            set_reg(core, reg, merge(dst, m, 32));
            Ok(Cycles(4))
        },
    }
}

/// What `move_32_ai_dn` does: the core goes from `c0` to `c1` and `r` comes back.
pub open spec fn move_32_ai_dn_effect(c0: ConfiguredCore, c1: ConfiguredCore, r: Result<Cycles>) -> bool {
    &&& exists|m1: ConfiguredCore, src: Result<u32>|
            #[trigger] operator::dy_rel(c0, m1, src) && match src {
                Err(e) => r == Err::<Cycles, Exception>(e) && c1 == m1,
                Ok(v) => exists|m2: ConfiguredCore, ea: Result<u32>|
                    #[trigger] effective_address::address_indirect_ax_rel(m1, m2, ea) && match ea {
                        Err(e) => r == Err::<Cycles, Exception>(e) && c1 == m2,
                        Ok(a) => exists|m3: ConfiguredCore, w: Result<()>|
                            #[trigger] data_written(m2, m3, 32, a, v, w) && match w {
                                Err(e) => r == Err::<Cycles, Exception>(e) && c1 == m3,
                                Ok(_) => r == Ok::<Cycles, Exception>(Cycles(12))
                                    && c1 == common::move_flags_outcome(m3, v, 24).0,
                            },
                    },
            }
}

/// MOVE to memory: the value is written, then N and Z are set from it.
pub fn move_32_ai_dn(core: &mut ConfiguredCore) -> (r: Result<Cycles>)
    requires
        old(core).wf(),
    ensures
        final(core).wf(),
        move_32_ai_dn_effect(*old(core), *final(core), r),
{
    let ghost c0 = *core;
    let src = operator::dy(core);
    let ghost m1 = *core;
    assert(operator::dy_rel(c0, m1, src));
    let v = match src {
        Err(e) => {
            return Err(e);
        },
        Ok(v) => v,
    };
    let m = v;
    let ea = effective_address::address_indirect_ax(core);
    let ghost m2 = *core;
    assert(effective_address::address_indirect_ax_rel(m1, m2, ea));
    let a = match ea {
        Err(e) => {
            return Err(e);
        },
        Ok(a) => a,
    };
    let w = write_sized(core, 32, a, m);
    let ghost m3 = *core;
    assert(data_written(m2, m3, 32, a, m, w));
    match w {
        Err(e) => Err(e),
        Ok(()) => {
            common::move_flags(core, m, 24);
            Ok(Cycles(12))
        },
    }
}

/// What `move_32_pi_dn` does: the core goes from `c0` to `c1` and `r` comes back.
pub open spec fn move_32_pi_dn_effect(c0: ConfiguredCore, c1: ConfiguredCore, r: Result<Cycles>) -> bool {
    &&& exists|m1: ConfiguredCore, src: Result<u32>|
            #[trigger] operator::dy_rel(c0, m1, src) && match src {
                Err(e) => r == Err::<Cycles, Exception>(e) && c1 == m1,
                Ok(v) => exists|m2: ConfiguredCore, ea: Result<u32>|
                    #[trigger] effective_address::postincrement_ax_32_rel(m1, m2, ea) && match ea {
                        Err(e) => r == Err::<Cycles, Exception>(e) && c1 == m2,
                        Ok(a) => exists|m3: ConfiguredCore, w: Result<()>|
                            #[trigger] data_written(m2, m3, 32, a, v, w) && match w {
                                Err(e) => r == Err::<Cycles, Exception>(e) && c1 == m3,
                                Ok(_) => r == Ok::<Cycles, Exception>(Cycles(12))
                                    && c1 == common::move_flags_outcome(m3, v, 24).0,
                            },
                    },
            }
}

/// MOVE to memory: the value is written, then N and Z are set from it.
pub fn move_32_pi_dn(core: &mut ConfiguredCore) -> (r: Result<Cycles>)
    requires
        old(core).wf(),
    ensures
        final(core).wf(),
        move_32_pi_dn_effect(*old(core), *final(core), r),
{
    let ghost c0 = *core;
    let src = operator::dy(core);
    let ghost m1 = *core;
    assert(operator::dy_rel(c0, m1, src));
    let v = match src {
        Err(e) => {
            return Err(e);
        },
        Ok(v) => v,
    };
    let m = v;
    let ea = effective_address::postincrement_ax_32(core);
    let ghost m2 = *core;
    assert(effective_address::postincrement_ax_32_rel(m1, m2, ea));
    let a = match ea {
        Err(e) => {
            return Err(e);
        },
        Ok(a) => a,
    };
    let w = write_sized(core, 32, a, m);
    let ghost m3 = *core;
    assert(data_written(m2, m3, 32, a, m, w));
    match w {
        Err(e) => Err(e),
        Ok(()) => {
            common::move_flags(core, m, 24);
            Ok(Cycles(12))
        },
    }
}

/// What `move_32_pd_dn` does: the core goes from `c0` to `c1` and `r` comes back.
pub open spec fn move_32_pd_dn_effect(c0: ConfiguredCore, c1: ConfiguredCore, r: Result<Cycles>) -> bool {
    &&& exists|m1: ConfiguredCore, src: Result<u32>|
            #[trigger] operator::dy_rel(c0, m1, src) && match src {
                Err(e) => r == Err::<Cycles, Exception>(e) && c1 == m1,
                Ok(v) => exists|m2: ConfiguredCore, ea: Result<u32>|
                    #[trigger] effective_address::predecrement_ax_32_rel(m1, m2, ea) && match ea {
                        Err(e) => r == Err::<Cycles, Exception>(e) && c1 == m2,
                        Ok(a) => exists|m3: ConfiguredCore, w: Result<()>|
                            #[trigger] data_written(m2, m3, 32, a, v, w) && match w {
                                Err(e) => r == Err::<Cycles, Exception>(e) && c1 == m3,
                                Ok(_) => r == Ok::<Cycles, Exception>(Cycles(12))
                                    && c1 == common::move_flags_outcome(m3, v, 24).0,
                            },
                    },
            }
}

/// MOVE to memory: the value is written, then N and Z are set from it.
pub fn move_32_pd_dn(core: &mut ConfiguredCore) -> (r: Result<Cycles>)
    requires
        old(core).wf(),
    ensures
        final(core).wf(),
        move_32_pd_dn_effect(*old(core), *final(core), r),
{
    let ghost c0 = *core;
    let src = operator::dy(core);
    let ghost m1 = *core;
    assert(operator::dy_rel(c0, m1, src));
    let v = match src {
        Err(e) => {
            return Err(e);
        },
        Ok(v) => v,
    };
    let m = v;
    let ea = effective_address::predecrement_ax_32(core);
    let ghost m2 = *core;
    assert(effective_address::predecrement_ax_32_rel(m1, m2, ea));
    let a = match ea {
        Err(e) => {
            return Err(e);
        },
        Ok(a) => a,
    };
    let w = write_sized(core, 32, a, m);
    let ghost m3 = *core;
    assert(data_written(m2, m3, 32, a, m, w));
    match w {
        Err(e) => Err(e),
        Ok(()) => {
            common::move_flags(core, m, 24);
            Ok(Cycles(12))
        },
    }
}

/// What `move_32_di_dn` does: the core goes from `c0` to `c1` and `r` comes back.
pub open spec fn move_32_di_dn_effect(c0: ConfiguredCore, c1: ConfiguredCore, r: Result<Cycles>) -> bool {
    &&& exists|m1: ConfiguredCore, src: Result<u32>|
            #[trigger] operator::dy_rel(c0, m1, src) && match src {
                Err(e) => r == Err::<Cycles, Exception>(e) && c1 == m1,
                Ok(v) => exists|m2: ConfiguredCore, ea: Result<u32>|
                    #[trigger] effective_address::displacement_ax_rel(m1, m2, ea) && match ea {
                        Err(e) => r == Err::<Cycles, Exception>(e) && c1 == m2,
                        Ok(a) => exists|m3: ConfiguredCore, w: Result<()>|
                            #[trigger] data_written(m2, m3, 32, a, v, w) && match w {
                                Err(e) => r == Err::<Cycles, Exception>(e) && c1 == m3,
                                Ok(_) => r == Ok::<Cycles, Exception>(Cycles(16))
                                    && c1 == common::move_flags_outcome(m3, v, 24).0,
                            },
                    },
            }
}

/// MOVE to memory: the value is written, then N and Z are set from it.
pub fn move_32_di_dn(core: &mut ConfiguredCore) -> (r: Result<Cycles>)
    requires
        old(core).wf(),
    ensures
        final(core).wf(),
        move_32_di_dn_effect(*old(core), *final(core), r),
{
    let ghost c0 = *core;
    let src = operator::dy(core);
    let ghost m1 = *core;
    assert(operator::dy_rel(c0, m1, src));
    let v = match src {
        Err(e) => {
            return Err(e);
        },
        Ok(v) => v,
    };
    let m = v;
    let ea = effective_address::displacement_ax(core);
    let ghost m2 = *core;
    assert(effective_address::displacement_ax_rel(m1, m2, ea));
    let a = match ea {
        Err(e) => {
            return Err(e);
        },
        Ok(a) => a,
    };
    let w = write_sized(core, 32, a, m);
    let ghost m3 = *core;
    assert(data_written(m2, m3, 32, a, m, w));
    match w {
        Err(e) => Err(e),
        Ok(()) => {
            common::move_flags(core, m, 24);
            Ok(Cycles(16))
        },
    }
}

/// What `move_32_ix_dn` does: the core goes from `c0` to `c1` and `r` comes back.
pub open spec fn move_32_ix_dn_effect(c0: ConfiguredCore, c1: ConfiguredCore, r: Result<Cycles>) -> bool {
    &&& exists|m1: ConfiguredCore, src: Result<u32>|
            #[trigger] operator::dy_rel(c0, m1, src) && match src {
                Err(e) => r == Err::<Cycles, Exception>(e) && c1 == m1,
                Ok(v) => exists|m2: ConfiguredCore, ea: Result<u32>|
                    #[trigger] effective_address::index_ax_rel(m1, m2, ea) && match ea {
                        Err(e) => r == Err::<Cycles, Exception>(e) && c1 == m2,
                        Ok(a) => exists|m3: ConfiguredCore, w: Result<()>|
                            #[trigger] data_written(m2, m3, 32, a, v, w) && match w {
                                Err(e) => r == Err::<Cycles, Exception>(e) && c1 == m3,
                                Ok(_) => r == Ok::<Cycles, Exception>(Cycles(18))
                                    && c1 == common::move_flags_outcome(m3, v, 24).0,
                            },
                    },
            }
}

/// MOVE to memory: the value is written, then N and Z are set from it.
pub fn move_32_ix_dn(core: &mut ConfiguredCore) -> (r: Result<Cycles>)
    requires
        old(core).wf(),
    ensures
        final(core).wf(),
        move_32_ix_dn_effect(*old(core), *final(core), r),
{
    let ghost c0 = *core;
    let src = operator::dy(core);
    let ghost m1 = *core;
    assert(operator::dy_rel(c0, m1, src));
    let v = match src {
        Err(e) => {
            return Err(e);
        },
        Ok(v) => v,
    };
    let m = v;
    let ea = effective_address::index_ax(core);
    let ghost m2 = *core;
    assert(effective_address::index_ax_rel(m1, m2, ea));
    let a = match ea {
        Err(e) => {
            return Err(e);
        },
        Ok(a) => a,
    };
    let w = write_sized(core, 32, a, m);
    let ghost m3 = *core;
    assert(data_written(m2, m3, 32, a, m, w));
    match w {
        Err(e) => Err(e),
        Ok(()) => {
            common::move_flags(core, m, 24);
            Ok(Cycles(18))
        },
    }
}

/// What `move_32_aw_dn` does: the core goes from `c0` to `c1` and `r` comes back.
pub open spec fn move_32_aw_dn_effect(c0: ConfiguredCore, c1: ConfiguredCore, r: Result<Cycles>) -> bool {
    &&& exists|m1: ConfiguredCore, src: Result<u32>|
            #[trigger] operator::dy_rel(c0, m1, src) && match src {
                Err(e) => r == Err::<Cycles, Exception>(e) && c1 == m1,
                Ok(v) => exists|m2: ConfiguredCore, ea: Result<u32>|
                    #[trigger] effective_address::absolute_word_rel(m1, m2, ea) && match ea {
                        Err(e) => r == Err::<Cycles, Exception>(e) && c1 == m2,
                        Ok(a) => exists|m3: ConfiguredCore, w: Result<()>|
                            #[trigger] data_written(m2, m3, 32, a, v, w) && match w {
                                Err(e) => r == Err::<Cycles, Exception>(e) && c1 == m3,
                                Ok(_) => r == Ok::<Cycles, Exception>(Cycles(16))
                                    && c1 == common::move_flags_outcome(m3, v, 24).0,
                            },
                    },
            }
}

/// MOVE to memory: the value is written, then N and Z are set from it.
pub fn move_32_aw_dn(core: &mut ConfiguredCore) -> (r: Result<Cycles>)
    requires
        old(core).wf(),
    ensures
        final(core).wf(),
        move_32_aw_dn_effect(*old(core), *final(core), r),
{
    let ghost c0 = *core;
    let src = operator::dy(core);
    let ghost m1 = *core;
    assert(operator::dy_rel(c0, m1, src));
    let v = match src {
        Err(e) => {
            return Err(e);
        },
        Ok(v) => v,
    };
    let m = v;
    let ea = effective_address::absolute_word(core);
    let ghost m2 = *core;
    assert(effective_address::absolute_word_rel(m1, m2, ea));
    let a = match ea {
        Err(e) => {
            return Err(e);
        },
        Ok(a) => a,
    };
    let w = write_sized(core, 32, a, m);
    let ghost m3 = *core;
    assert(data_written(m2, m3, 32, a, m, w));
    match w {
        Err(e) => Err(e),
        Ok(()) => {
            common::move_flags(core, m, 24);
            Ok(Cycles(16))
        },
    }
}

/// What `move_32_al_dn` does: the core goes from `c0` to `c1` and `r` comes back.
pub open spec fn move_32_al_dn_effect(c0: ConfiguredCore, c1: ConfiguredCore, r: Result<Cycles>) -> bool {
    &&& exists|m1: ConfiguredCore, src: Result<u32>|
            #[trigger] operator::dy_rel(c0, m1, src) && match src {
                Err(e) => r == Err::<Cycles, Exception>(e) && c1 == m1,
                Ok(v) => exists|m2: ConfiguredCore, ea: Result<u32>|
                    #[trigger] effective_address::absolute_long_rel(m1, m2, ea) && match ea {
                        Err(e) => r == Err::<Cycles, Exception>(e) && c1 == m2,
                        Ok(a) => exists|m3: ConfiguredCore, w: Result<()>|
                            #[trigger] data_written(m2, m3, 32, a, v, w) && match w {
                                Err(e) => r == Err::<Cycles, Exception>(e) && c1 == m3,
                                Ok(_) => r == Ok::<Cycles, Exception>(Cycles(20))
                                    && c1 == common::move_flags_outcome(m3, v, 24).0,
                            },
                    },
            }
}

/// MOVE to memory: the value is written, then N and Z are set from it.
pub fn move_32_al_dn(core: &mut ConfiguredCore) -> (r: Result<Cycles>)
    requires
        old(core).wf(),
    ensures
        final(core).wf(),
        move_32_al_dn_effect(*old(core), *final(core), r),
{
    let ghost c0 = *core;
    let src = operator::dy(core);
    let ghost m1 = *core;
    assert(operator::dy_rel(c0, m1, src));
    let v = match src {
        Err(e) => {
            return Err(e);
        },
        Ok(v) => v,
    };
    let m = v;
    let ea = effective_address::absolute_long(core);
    let ghost m2 = *core;
    assert(effective_address::absolute_long_rel(m1, m2, ea));
    let a = match ea {
        Err(e) => {
            return Err(e);
        },
        Ok(a) => a,
    };
    let w = write_sized(core, 32, a, m);
    let ghost m3 = *core;
    assert(data_written(m2, m3, 32, a, m, w));
    match w {
        Err(e) => Err(e),
        Ok(()) => {
            common::move_flags(core, m, 24);
            Ok(Cycles(20))
        },
    }
}

/// What `move_32_dn_an` does: the core goes from `c0` to `c1` and `r` comes back.
pub open spec fn move_32_dn_an_effect(c0: ConfiguredCore, c1: ConfiguredCore, r: Result<Cycles>) -> bool {
    &&& exists|mid: ConfiguredCore, src: Result<u32>|
            #[trigger] operator::ay_rel(c0, mid, src) && match src {
                Err(e) => r == Err::<Cycles, Exception>(e) && c1 == mid,
                Ok(v) => {
                    let m = v;
                    let reg = ir_dx(mid.ir);
                    &&& r == Ok::<Cycles, Exception>(Cycles(4))
                    &&& reg_set(common::move_flags_outcome(mid, m, 24).0, c1, reg, merged(mid.dar[reg], m, 32))
                },
            }
}

/// MOVE into Dx, with N and Z set from the value moved.
pub fn move_32_dn_an(core: &mut ConfiguredCore) -> (r: Result<Cycles>)
    requires
        old(core).wf(),
    ensures
        final(core).wf(),
        move_32_dn_an_effect(*old(core), *final(core), r),
{
    let ghost c0 = *core;
    let src = operator::ay(core);
    let ghost mid = *core;
    assert(operator::ay_rel(c0, mid, src));
    match src {
        Err(e) => Err(e),
        Ok(v) => {
            let m = v;
            let reg = reg_dx(core.ir);
            let dst = core.dar[reg];
            common::move_flags(core, m, 24);
            set_reg(core, reg, merge(dst, m, 32));
            Ok(Cycles(4))
        },
    }
}

/// What `move_32_ai_an` does: the core goes from `c0` to `c1` and `r` comes back.
pub open spec fn move_32_ai_an_effect(c0: ConfiguredCore, c1: ConfiguredCore, r: Result<Cycles>) -> bool {
    &&& exists|m1: ConfiguredCore, src: Result<u32>|
            #[trigger] operator::ay_rel(c0, m1, src) && match src {
                Err(e) => r == Err::<Cycles, Exception>(e) && c1 == m1,
                Ok(v) => exists|m2: ConfiguredCore, ea: Result<u32>|
                    #[trigger] effective_address::address_indirect_ax_rel(m1, m2, ea) && match ea {
                        Err(e) => r == Err::<Cycles, Exception>(e) && c1 == m2,
                        Ok(a) => exists|m3: ConfiguredCore, w: Result<()>|
                            #[trigger] data_written(m2, m3, 32, a, v, w) && match w {
                                Err(e) => r == Err::<Cycles, Exception>(e) && c1 == m3,
                                Ok(_) => r == Ok::<Cycles, Exception>(Cycles(12))
                                    && c1 == common::move_flags_outcome(m3, v, 24).0,
                            },
                    },
            }
}

/// MOVE to memory: the value is written, then N and Z are set from it.
pub fn move_32_ai_an(core: &mut ConfiguredCore) -> (r: Result<Cycles>)
    requires
        old(core).wf(),
    ensures
        final(core).wf(),
        move_32_ai_an_effect(*old(core), *final(core), r),
{
    let ghost c0 = *core;
    let src = operator::ay(core);
    let ghost m1 = *core;
    assert(operator::ay_rel(c0, m1, src));
    let v = match src {
        Err(e) => {
            return Err(e);
        },
        Ok(v) => v,
    };
    let m = v;
    let ea = effective_address::address_indirect_ax(core);
    let ghost m2 = *core;
    assert(effective_address::address_indirect_ax_rel(m1, m2, ea));
    let a = match ea {
        Err(e) => {
            return Err(e);
        },
        Ok(a) => a,
    };
    let w = write_sized(core, 32, a, m);
    let ghost m3 = *core;
    assert(data_written(m2, m3, 32, a, m, w));
    match w {
        Err(e) => Err(e),
        Ok(()) => {
            common::move_flags(core, m, 24);
            Ok(Cycles(12))
        },
    }
}

/// What `move_32_pi_an` does: the core goes from `c0` to `c1` and `r` comes back.
pub open spec fn move_32_pi_an_effect(c0: ConfiguredCore, c1: ConfiguredCore, r: Result<Cycles>) -> bool {
    &&& exists|m1: ConfiguredCore, src: Result<u32>|
            #[trigger] operator::ay_rel(c0, m1, src) && match src {
                Err(e) => r == Err::<Cycles, Exception>(e) && c1 == m1,
                Ok(v) => exists|m2: ConfiguredCore, ea: Result<u32>|
                    #[trigger] effective_address::postincrement_ax_32_rel(m1, m2, ea) && match ea {
                        Err(e) => r == Err::<Cycles, Exception>(e) && c1 == m2,
                        Ok(a) => exists|m3: ConfiguredCore, w: Result<()>|
                            #[trigger] data_written(m2, m3, 32, a, v, w) && match w {
                                Err(e) => r == Err::<Cycles, Exception>(e) && c1 == m3,
                                Ok(_) => r == Ok::<Cycles, Exception>(Cycles(12))
                                    && c1 == common::move_flags_outcome(m3, v, 24).0,
                            },
                    },
            }
}

/// MOVE to memory: the value is written, then N and Z are set from it.
pub fn move_32_pi_an(core: &mut ConfiguredCore) -> (r: Result<Cycles>)
    requires
        old(core).wf(),
    ensures
        final(core).wf(),
        move_32_pi_an_effect(*old(core), *final(core), r),
{
    let ghost c0 = *core;
    let src = operator::ay(core);
    let ghost m1 = *core;
    assert(operator::ay_rel(c0, m1, src));
    let v = match src {
        Err(e) => {
            return Err(e);
        },
        Ok(v) => v,
    };
    let m = v;
    let ea = effective_address::postincrement_ax_32(core);
    let ghost m2 = *core;
    assert(effective_address::postincrement_ax_32_rel(m1, m2, ea));
    let a = match ea {
        Err(e) => {
            return Err(e);
        },
        Ok(a) => a,
    };
    let w = write_sized(core, 32, a, m);
    let ghost m3 = *core;
    assert(data_written(m2, m3, 32, a, m, w));
    match w {
        Err(e) => Err(e),
        Ok(()) => {
            common::move_flags(core, m, 24);
            Ok(Cycles(12))
        },
    }
}

/// What `move_32_pd_an` does: the core goes from `c0` to `c1` and `r` comes back.
pub open spec fn move_32_pd_an_effect(c0: ConfiguredCore, c1: ConfiguredCore, r: Result<Cycles>) -> bool {
    &&& exists|m1: ConfiguredCore, src: Result<u32>|
            #[trigger] operator::ay_rel(c0, m1, src) && match src {
                Err(e) => r == Err::<Cycles, Exception>(e) && c1 == m1,
                Ok(v) => exists|m2: ConfiguredCore, ea: Result<u32>|
                    #[trigger] effective_address::predecrement_ax_32_rel(m1, m2, ea) && match ea {
                        Err(e) => r == Err::<Cycles, Exception>(e) && c1 == m2,
                        Ok(a) => exists|m3: ConfiguredCore, w: Result<()>|
                            #[trigger] data_written(m2, m3, 32, a, v, w) && match w {
                                Err(e) => r == Err::<Cycles, Exception>(e) && c1 == m3,
                                Ok(_) => r == Ok::<Cycles, Exception>(Cycles(12))
                                    && c1 == common::move_flags_outcome(m3, v, 24).0,
                            },
                    },
            }
}

/// MOVE to memory: the value is written, then N and Z are set from it.
pub fn move_32_pd_an(core: &mut ConfiguredCore) -> (r: Result<Cycles>)
    requires
        old(core).wf(),
    ensures
        final(core).wf(),
        move_32_pd_an_effect(*old(core), *final(core), r),
{
    let ghost c0 = *core;
    let src = operator::ay(core);
    let ghost m1 = *core;
    assert(operator::ay_rel(c0, m1, src));
    let v = match src {
        Err(e) => {
            return Err(e);
        },
        Ok(v) => v,
    };
    let m = v;
    let ea = effective_address::predecrement_ax_32(core);
    let ghost m2 = *core;
    assert(effective_address::predecrement_ax_32_rel(m1, m2, ea));
    let a = match ea {
        Err(e) => {
            return Err(e);
        },
        Ok(a) => a,
    };
    let w = write_sized(core, 32, a, m);
    let ghost m3 = *core;
    assert(data_written(m2, m3, 32, a, m, w));
    match w {
        Err(e) => Err(e),
        Ok(()) => {
            common::move_flags(core, m, 24);
            Ok(Cycles(12))
        },
    }
}

/// What `move_32_di_an` does: the core goes from `c0` to `c1` and `r` comes back.
pub open spec fn move_32_di_an_effect(c0: ConfiguredCore, c1: ConfiguredCore, r: Result<Cycles>) -> bool {
    &&& exists|m1: ConfiguredCore, src: Result<u32>|
            #[trigger] operator::ay_rel(c0, m1, src) && match src {
                Err(e) => r == Err::<Cycles, Exception>(e) && c1 == m1,
                Ok(v) => exists|m2: ConfiguredCore, ea: Result<u32>|
                    #[trigger] effective_address::displacement_ax_rel(m1, m2, ea) && match ea {
                        Err(e) => r == Err::<Cycles, Exception>(e) && c1 == m2,
                        Ok(a) => exists|m3: ConfiguredCore, w: Result<()>|
                            #[trigger] data_written(m2, m3, 32, a, v, w) && match w {
                                Err(e) => r == Err::<Cycles, Exception>(e) && c1 == m3,
                                Ok(_) => r == Ok::<Cycles, Exception>(Cycles(16))
                                    && c1 == common::move_flags_outcome(m3, v, 24).0,
                            },
                    },
            }
}

/// MOVE to memory: the value is written, then N and Z are set from it.
pub fn move_32_di_an(core: &mut ConfiguredCore) -> (r: Result<Cycles>)
    requires
        old(core).wf(),
    ensures
        final(core).wf(),
        move_32_di_an_effect(*old(core), *final(core), r),
{
    let ghost c0 = *core;
    let src = operator::ay(core);
    let ghost m1 = *core;
    assert(operator::ay_rel(c0, m1, src));
    let v = match src {
        Err(e) => {
            return Err(e);
        },
        Ok(v) => v,
    };
    let m = v;
    let ea = effective_address::displacement_ax(core);
    let ghost m2 = *core;
    assert(effective_address::displacement_ax_rel(m1, m2, ea));
    let a = match ea {
        Err(e) => {
            return Err(e);
        },
        Ok(a) => a,
    };
    let w = write_sized(core, 32, a, m);
    let ghost m3 = *core;
    assert(data_written(m2, m3, 32, a, m, w));
    match w {
        Err(e) => Err(e),
        Ok(()) => {
            common::move_flags(core, m, 24);
            Ok(Cycles(16))
        },
    }
}

/// What `move_32_ix_an` does: the core goes from `c0` to `c1` and `r` comes back.
pub open spec fn move_32_ix_an_effect(c0: ConfiguredCore, c1: ConfiguredCore, r: Result<Cycles>) -> bool {
    &&& exists|m1: ConfiguredCore, src: Result<u32>|
            #[trigger] operator::ay_rel(c0, m1, src) && match src {
                Err(e) => r == Err::<Cycles, Exception>(e) && c1 == m1,
                Ok(v) => exists|m2: ConfiguredCore, ea: Result<u32>|
                    #[trigger] effective_address::index_ax_rel(m1, m2, ea) && match ea {
                        Err(e) => r == Err::<Cycles, Exception>(e) && c1 == m2,
                        Ok(a) => exists|m3: ConfiguredCore, w: Result<()>|
                            #[trigger] data_written(m2, m3, 32, a, v, w) && match w {
                                Err(e) => r == Err::<Cycles, Exception>(e) && c1 == m3,
                                Ok(_) => r == Ok::<Cycles, Exception>(Cycles(18))
                                    && c1 == common::move_flags_outcome(m3, v, 24).0,
                            },
                    },
            }
}

/// MOVE to memory: the value is written, then N and Z are set from it.
pub fn move_32_ix_an(core: &mut ConfiguredCore) -> (r: Result<Cycles>)
    requires
        old(core).wf(),
    ensures
        final(core).wf(),
        move_32_ix_an_effect(*old(core), *final(core), r),
{
    let ghost c0 = *core;
    let src = operator::ay(core);
    let ghost m1 = *core;
    assert(operator::ay_rel(c0, m1, src));
    let v = match src {
        Err(e) => {
            return Err(e);
        },
        Ok(v) => v,
    };
    let m = v;
    let ea = effective_address::index_ax(core);
    let ghost m2 = *core;
    assert(effective_address::index_ax_rel(m1, m2, ea));
    let a = match ea {
        Err(e) => {
            return Err(e);
        },
        Ok(a) => a,
    };
    let w = write_sized(core, 32, a, m);
    let ghost m3 = *core;
    assert(data_written(m2, m3, 32, a, m, w));
    match w {
        Err(e) => Err(e),
        Ok(()) => {
            common::move_flags(core, m, 24);
            Ok(Cycles(18))
        },
    }
}

/// What `move_32_aw_an` does: the core goes from `c0` to `c1` and `r` comes back.
pub open spec fn move_32_aw_an_effect(c0: ConfiguredCore, c1: ConfiguredCore, r: Result<Cycles>) -> bool {
    &&& exists|m1: ConfiguredCore, src: Result<u32>|
            #[trigger] operator::ay_rel(c0, m1, src) && match src {
                Err(e) => r == Err::<Cycles, Exception>(e) && c1 == m1,
                Ok(v) => exists|m2: ConfiguredCore, ea: Result<u32>|
                    #[trigger] effective_address::absolute_word_rel(m1, m2, ea) && match ea {
                        Err(e) => r == Err::<Cycles, Exception>(e) && c1 == m2,
                        Ok(a) => exists|m3: ConfiguredCore, w: Result<()>|
                            #[trigger] data_written(m2, m3, 32, a, v, w) && match w {
                                Err(e) => r == Err::<Cycles, Exception>(e) && c1 == m3,
                                Ok(_) => r == Ok::<Cycles, Exception>(Cycles(16))
                                    && c1 == common::move_flags_outcome(m3, v, 24).0,
                            },
                    },
            }
}

/// MOVE to memory: the value is written, then N and Z are set from it.
pub fn move_32_aw_an(core: &mut ConfiguredCore) -> (r: Result<Cycles>)
    requires
        old(core).wf(),
    ensures
        final(core).wf(),
        move_32_aw_an_effect(*old(core), *final(core), r),
{
    let ghost c0 = *core;
    let src = operator::ay(core);
    let ghost m1 = *core;
    assert(operator::ay_rel(c0, m1, src));
    let v = match src {
        Err(e) => {
            return Err(e);
        },
        Ok(v) => v,
    };
    let m = v;
    let ea = effective_address::absolute_word(core);
    let ghost m2 = *core;
    assert(effective_address::absolute_word_rel(m1, m2, ea));
    let a = match ea {
        Err(e) => {
            return Err(e);
        },
        Ok(a) => a,
    };
    let w = write_sized(core, 32, a, m);
    let ghost m3 = *core;
    assert(data_written(m2, m3, 32, a, m, w));
    match w {
        Err(e) => Err(e),
        Ok(()) => {
            common::move_flags(core, m, 24);
            Ok(Cycles(16))
        },
    }
}

/// What `move_32_al_an` does: the core goes from `c0` to `c1` and `r` comes back.
pub open spec fn move_32_al_an_effect(c0: ConfiguredCore, c1: ConfiguredCore, r: Result<Cycles>) -> bool {
    &&& exists|m1: ConfiguredCore, src: Result<u32>|
            #[trigger] operator::ay_rel(c0, m1, src) && match src {
                Err(e) => r == Err::<Cycles, Exception>(e) && c1 == m1,
                Ok(v) => exists|m2: ConfiguredCore, ea: Result<u32>|
                    #[trigger] effective_address::absolute_long_rel(m1, m2, ea) && match ea {
                        Err(e) => r == Err::<Cycles, Exception>(e) && c1 == m2,
                        Ok(a) => exists|m3: ConfiguredCore, w: Result<()>|
                            #[trigger] data_written(m2, m3, 32, a, v, w) && match w {
                                Err(e) => r == Err::<Cycles, Exception>(e) && c1 == m3,
                                Ok(_) => r == Ok::<Cycles, Exception>(Cycles(20))
                                    && c1 == common::move_flags_outcome(m3, v, 24).0,
                            },
                    },
            }
}

/// MOVE to memory: the value is written, then N and Z are set from it.
pub fn move_32_al_an(core: &mut ConfiguredCore) -> (r: Result<Cycles>)
    requires
        old(core).wf(),
    ensures
        final(core).wf(),
        move_32_al_an_effect(*old(core), *final(core), r),
{
    let ghost c0 = *core;
    let src = operator::ay(core);
    let ghost m1 = *core;
    assert(operator::ay_rel(c0, m1, src));
    let v = match src {
        Err(e) => {
            return Err(e);
        },
        Ok(v) => v,
    };
    let m = v;
    let ea = effective_address::absolute_long(core);
    let ghost m2 = *core;
    assert(effective_address::absolute_long_rel(m1, m2, ea));
    let a = match ea {
        Err(e) => {
            return Err(e);
        },
        Ok(a) => a,
    };
    let w = write_sized(core, 32, a, m);
    let ghost m3 = *core;
    assert(data_written(m2, m3, 32, a, m, w));
    match w {
        Err(e) => Err(e),
        Ok(()) => {
            common::move_flags(core, m, 24);
            Ok(Cycles(20))
        },
    }
}

/// What `move_32_dn_ai` does: the core goes from `c0` to `c1` and `r` comes back.
pub open spec fn move_32_dn_ai_effect(c0: ConfiguredCore, c1: ConfiguredCore, r: Result<Cycles>) -> bool {
    &&& exists|mid: ConfiguredCore, src: Result<u32>|
            #[trigger] operator::ay_ai_32_rel(c0, mid, src) && match src {
                Err(e) => r == Err::<Cycles, Exception>(e) && c1 == mid,
                Ok(v) => {
                    let m = v;
                    let reg = ir_dx(mid.ir);
                    &&& r == Ok::<Cycles, Exception>(Cycles(12))
                    &&& reg_set(common::move_flags_outcome(mid, m, 24).0, c1, reg, merged(mid.dar[reg], m, 32))
                },
            }
}

/// MOVE into Dx, with N and Z set from the value moved.
pub fn move_32_dn_ai(core: &mut ConfiguredCore) -> (r: Result<Cycles>)
    requires
        old(core).wf(),
    ensures
        final(core).wf(),
        move_32_dn_ai_effect(*old(core), *final(core), r),
{
    let ghost c0 = *core;
    let src = operator::ay_ai_32(core);
    let ghost mid = *core;
    assert(operator::ay_ai_32_rel(c0, mid, src));
    match src {
        Err(e) => Err(e),
        Ok(v) => {
            let m = v;
            let reg = reg_dx(core.ir);
            let dst = core.dar[reg];
            common::move_flags(core, m, 24);
            set_reg(core, reg, merge(dst, m, 32));
            Ok(Cycles(12))
        },
    }
}

/// What `move_32_ai_ai` does: the core goes from `c0` to `c1` and `r` comes back.
pub open spec fn move_32_ai_ai_effect(c0: ConfiguredCore, c1: ConfiguredCore, r: Result<Cycles>) -> bool {
    &&& exists|m1: ConfiguredCore, src: Result<u32>|
            #[trigger] operator::ay_ai_32_rel(c0, m1, src) && match src {
                Err(e) => r == Err::<Cycles, Exception>(e) && c1 == m1,
                Ok(v) => exists|m2: ConfiguredCore, ea: Result<u32>|
                    #[trigger] effective_address::address_indirect_ax_rel(m1, m2, ea) && match ea {
                        Err(e) => r == Err::<Cycles, Exception>(e) && c1 == m2,
                        Ok(a) => exists|m3: ConfiguredCore, w: Result<()>|
                            #[trigger] data_written(m2, m3, 32, a, v, w) && match w {
                                Err(e) => r == Err::<Cycles, Exception>(e) && c1 == m3,
                                Ok(_) => r == Ok::<Cycles, Exception>(Cycles(20))
                                    && c1 == common::move_flags_outcome(m3, v, 24).0,
                            },
                    },
            }
}

/// MOVE to memory: the value is written, then N and Z are set from it.
pub fn move_32_ai_ai(core: &mut ConfiguredCore) -> (r: Result<Cycles>)
    requires
        old(core).wf(),
    ensures
        final(core).wf(),
        move_32_ai_ai_effect(*old(core), *final(core), r),
{
    let ghost c0 = *core;
    let src = operator::ay_ai_32(core);
    let ghost m1 = *core;
    assert(operator::ay_ai_32_rel(c0, m1, src));
    let v = match src {
        Err(e) => {
            return Err(e);
        },
        Ok(v) => v,
    };
    let m = v;
    let ea = effective_address::address_indirect_ax(core);
    let ghost m2 = *core;
    assert(effective_address::address_indirect_ax_rel(m1, m2, ea));
    let a = match ea {
        Err(e) => {
            return Err(e);
        },
        Ok(a) => a,
    };
    let w = write_sized(core, 32, a, m);
    let ghost m3 = *core;
    assert(data_written(m2, m3, 32, a, m, w));
    match w {
        Err(e) => Err(e),
        Ok(()) => {
            common::move_flags(core, m, 24);
            Ok(Cycles(20))
        },
    }
}

/// What `move_32_pi_ai` does: the core goes from `c0` to `c1` and `r` comes back.
pub open spec fn move_32_pi_ai_effect(c0: ConfiguredCore, c1: ConfiguredCore, r: Result<Cycles>) -> bool {
    &&& exists|m1: ConfiguredCore, src: Result<u32>|
            #[trigger] operator::ay_ai_32_rel(c0, m1, src) && match src {
                Err(e) => r == Err::<Cycles, Exception>(e) && c1 == m1,
                Ok(v) => exists|m2: ConfiguredCore, ea: Result<u32>|
                    #[trigger] effective_address::postincrement_ax_32_rel(m1, m2, ea) && match ea {
                        Err(e) => r == Err::<Cycles, Exception>(e) && c1 == m2,
                        Ok(a) => exists|m3: ConfiguredCore, w: Result<()>|
                            #[trigger] data_written(m2, m3, 32, a, v, w) && match w {
                                Err(e) => r == Err::<Cycles, Exception>(e) && c1 == m3,
                                Ok(_) => r == Ok::<Cycles, Exception>(Cycles(20))
                                    && c1 == common::move_flags_outcome(m3, v, 24).0,
                            },
                    },
            }
}

/// MOVE to memory: the value is written, then N and Z are set from it.
pub fn move_32_pi_ai(core: &mut ConfiguredCore) -> (r: Result<Cycles>)
    requires
        old(core).wf(),
    ensures
        final(core).wf(),
        move_32_pi_ai_effect(*old(core), *final(core), r),
{
    let ghost c0 = *core;
    let src = operator::ay_ai_32(core);
    let ghost m1 = *core;
    assert(operator::ay_ai_32_rel(c0, m1, src));
    let v = match src {
        Err(e) => {
            return Err(e);
        },
        Ok(v) => v,
    };
    let m = v;
    let ea = effective_address::postincrement_ax_32(core);
    let ghost m2 = *core;
    assert(effective_address::postincrement_ax_32_rel(m1, m2, ea));
    let a = match ea {
        Err(e) => {
            return Err(e);
        },
        Ok(a) => a,
    };
    let w = write_sized(core, 32, a, m);
    let ghost m3 = *core;
    assert(data_written(m2, m3, 32, a, m, w));
    match w {
        Err(e) => Err(e),
        Ok(()) => {
            common::move_flags(core, m, 24);
            Ok(Cycles(20))
        },
    }
}

/// What `move_32_pd_ai` does: the core goes from `c0` to `c1` and `r` comes back.
pub open spec fn move_32_pd_ai_effect(c0: ConfiguredCore, c1: ConfiguredCore, r: Result<Cycles>) -> bool {
    &&& exists|m1: ConfiguredCore, src: Result<u32>|
            #[trigger] operator::ay_ai_32_rel(c0, m1, src) && match src {
                Err(e) => r == Err::<Cycles, Exception>(e) && c1 == m1,
                Ok(v) => exists|m2: ConfiguredCore, ea: Result<u32>|
                    #[trigger] effective_address::predecrement_ax_32_rel(m1, m2, ea) && match ea {
                        Err(e) => r == Err::<Cycles, Exception>(e) && c1 == m2,
                        Ok(a) => exists|m3: ConfiguredCore, w: Result<()>|
                            #[trigger] data_written(m2, m3, 32, a, v, w) && match w {
                                Err(e) => r == Err::<Cycles, Exception>(e) && c1 == m3,
                                Ok(_) => r == Ok::<Cycles, Exception>(Cycles(20))
                                    && c1 == common::move_flags_outcome(m3, v, 24).0,
                            },
                    },
            }
}

/// MOVE to memory: the value is written, then N and Z are set from it.
pub fn move_32_pd_ai(core: &mut ConfiguredCore) -> (r: Result<Cycles>)
    requires
        old(core).wf(),
    ensures
        final(core).wf(),
        move_32_pd_ai_effect(*old(core), *final(core), r),
{
    let ghost c0 = *core;
    let src = operator::ay_ai_32(core);
    let ghost m1 = *core;
    assert(operator::ay_ai_32_rel(c0, m1, src));
    let v = match src {
        Err(e) => {
            return Err(e);
        },
        Ok(v) => v,
    };
    let m = v;
    let ea = effective_address::predecrement_ax_32(core);
    let ghost m2 = *core;
    assert(effective_address::predecrement_ax_32_rel(m1, m2, ea));
    let a = match ea {
        Err(e) => {
            return Err(e);
        },
        Ok(a) => a,
    };
    let w = write_sized(core, 32, a, m);
    let ghost m3 = *core;
    assert(data_written(m2, m3, 32, a, m, w));
    match w {
        Err(e) => Err(e),
        Ok(()) => {
            common::move_flags(core, m, 24);
            Ok(Cycles(20))
        },
    }
}

/// What `move_32_di_ai` does: the core goes from `c0` to `c1` and `r` comes back.
pub open spec fn move_32_di_ai_effect(c0: ConfiguredCore, c1: ConfiguredCore, r: Result<Cycles>) -> bool {
    &&& exists|m1: ConfiguredCore, src: Result<u32>|
            #[trigger] operator::ay_ai_32_rel(c0, m1, src) && match src {
                Err(e) => r == Err::<Cycles, Exception>(e) && c1 == m1,
                Ok(v) => exists|m2: ConfiguredCore, ea: Result<u32>|
                    #[trigger] effective_address::displacement_ax_rel(m1, m2, ea) && match ea {
                        Err(e) => r == Err::<Cycles, Exception>(e) && c1 == m2,
                        Ok(a) => exists|m3: ConfiguredCore, w: Result<()>|
                            #[trigger] data_written(m2, m3, 32, a, v, w) && match w {
                                Err(e) => r == Err::<Cycles, Exception>(e) && c1 == m3,
                                Ok(_) => r == Ok::<Cycles, Exception>(Cycles(24))
                                    && c1 == common::move_flags_outcome(m3, v, 24).0,
                            },
                    },
            }
}

/// MOVE to memory: the value is written, then N and Z are set from it.
pub fn move_32_di_ai(core: &mut ConfiguredCore) -> (r: Result<Cycles>)
    requires
        old(core).wf(),
    ensures
        final(core).wf(),
        move_32_di_ai_effect(*old(core), *final(core), r),
{
    let ghost c0 = *core;
    let src = operator::ay_ai_32(core);
    let ghost m1 = *core;
    assert(operator::ay_ai_32_rel(c0, m1, src));
    let v = match src {
        Err(e) => {
            return Err(e);
        },
        Ok(v) => v,
    };
    let m = v;
    let ea = effective_address::displacement_ax(core);
    let ghost m2 = *core;
    assert(effective_address::displacement_ax_rel(m1, m2, ea));
    let a = match ea {
        Err(e) => {
            return Err(e);
        },
        Ok(a) => a,
    };
    let w = write_sized(core, 32, a, m);
    let ghost m3 = *core;
    assert(data_written(m2, m3, 32, a, m, w));
    match w {
        Err(e) => Err(e),
        Ok(()) => {
            common::move_flags(core, m, 24);
            Ok(Cycles(24))
        },
    }
}

/// What `move_32_ix_ai` does: the core goes from `c0` to `c1` and `r` comes back.
pub open spec fn move_32_ix_ai_effect(c0: ConfiguredCore, c1: ConfiguredCore, r: Result<Cycles>) -> bool {
    &&& exists|m1: ConfiguredCore, src: Result<u32>|
            #[trigger] operator::ay_ai_32_rel(c0, m1, src) && match src {
                Err(e) => r == Err::<Cycles, Exception>(e) && c1 == m1,
                Ok(v) => exists|m2: ConfiguredCore, ea: Result<u32>|
                    #[trigger] effective_address::index_ax_rel(m1, m2, ea) && match ea {
                        Err(e) => r == Err::<Cycles, Exception>(e) && c1 == m2,
                        Ok(a) => exists|m3: ConfiguredCore, w: Result<()>|
                            #[trigger] data_written(m2, m3, 32, a, v, w) && match w {
                                Err(e) => r == Err::<Cycles, Exception>(e) && c1 == m3,
                                Ok(_) => r == Ok::<Cycles, Exception>(Cycles(26))
                                    && c1 == common::move_flags_outcome(m3, v, 24).0,
                            },
                    },
            }
}

/// MOVE to memory: the value is written, then N and Z are set from it.
pub fn move_32_ix_ai(core: &mut ConfiguredCore) -> (r: Result<Cycles>)
    requires
        old(core).wf(),
    ensures
        final(core).wf(),
        move_32_ix_ai_effect(*old(core), *final(core), r),
{
    let ghost c0 = *core;
    let src = operator::ay_ai_32(core);
    let ghost m1 = *core;
    assert(operator::ay_ai_32_rel(c0, m1, src));
    let v = match src {
        Err(e) => {
            return Err(e);
        },
        Ok(v) => v,
    };
    let m = v;
    let ea = effective_address::index_ax(core);
    let ghost m2 = *core;
    assert(effective_address::index_ax_rel(m1, m2, ea));
    let a = match ea {
        Err(e) => {
            return Err(e);
        },
        Ok(a) => a,
    };
    let w = write_sized(core, 32, a, m);
    let ghost m3 = *core;
    assert(data_written(m2, m3, 32, a, m, w));
    match w {
        Err(e) => Err(e),
        Ok(()) => {
            common::move_flags(core, m, 24);
            Ok(Cycles(26))
        },
    }
}

/// What `move_32_aw_ai` does: the core goes from `c0` to `c1` and `r` comes back.
pub open spec fn move_32_aw_ai_effect(c0: ConfiguredCore, c1: ConfiguredCore, r: Result<Cycles>) -> bool {
    &&& exists|m1: ConfiguredCore, src: Result<u32>|
            #[trigger] operator::ay_ai_32_rel(c0, m1, src) && match src {
                Err(e) => r == Err::<Cycles, Exception>(e) && c1 == m1,
                Ok(v) => exists|m2: ConfiguredCore, ea: Result<u32>|
                    #[trigger] effective_address::absolute_word_rel(m1, m2, ea) && match ea {
                        Err(e) => r == Err::<Cycles, Exception>(e) && c1 == m2,
                        Ok(a) => exists|m3: ConfiguredCore, w: Result<()>|
                            #[trigger] data_written(m2, m3, 32, a, v, w) && match w {
                                Err(e) => r == Err::<Cycles, Exception>(e) && c1 == m3,
                                Ok(_) => r == Ok::<Cycles, Exception>(Cycles(24))
                                    && c1 == common::move_flags_outcome(m3, v, 24).0,
                            },
                    },
            }
}

/// MOVE to memory: the value is written, then N and Z are set from it.
pub fn move_32_aw_ai(core: &mut ConfiguredCore) -> (r: Result<Cycles>)
    requires
        old(core).wf(),
    ensures
        final(core).wf(),
        move_32_aw_ai_effect(*old(core), *final(core), r),
{
    let ghost c0 = *core;
    let src = operator::ay_ai_32(core);
    let ghost m1 = *core;
    assert(operator::ay_ai_32_rel(c0, m1, src));
    let v = match src {
        Err(e) => {
            return Err(e);
        },
        Ok(v) => v,
    };
    let m = v;
    let ea = effective_address::absolute_word(core);
    let ghost m2 = *core;
    assert(effective_address::absolute_word_rel(m1, m2, ea));
    let a = match ea {
        Err(e) => {
            return Err(e);
        },
        Ok(a) => a,
    };
    let w = write_sized(core, 32, a, m);
    let ghost m3 = *core;
    assert(data_written(m2, m3, 32, a, m, w));
    match w {
        Err(e) => Err(e),
        Ok(()) => {
            common::move_flags(core, m, 24);
            Ok(Cycles(24))
        },
    }
}

/// What `move_32_al_ai` does: the core goes from `c0` to `c1` and `r` comes back.
pub open spec fn move_32_al_ai_effect(c0: ConfiguredCore, c1: ConfiguredCore, r: Result<Cycles>) -> bool {
    &&& exists|m1: ConfiguredCore, src: Result<u32>|
            #[trigger] operator::ay_ai_32_rel(c0, m1, src) && match src {
                Err(e) => r == Err::<Cycles, Exception>(e) && c1 == m1,
                Ok(v) => exists|m2: ConfiguredCore, ea: Result<u32>|
                    #[trigger] effective_address::absolute_long_rel(m1, m2, ea) && match ea {
                        Err(e) => r == Err::<Cycles, Exception>(e) && c1 == m2,
                        Ok(a) => exists|m3: ConfiguredCore, w: Result<()>|
                            #[trigger] data_written(m2, m3, 32, a, v, w) && match w {
                                Err(e) => r == Err::<Cycles, Exception>(e) && c1 == m3,
                                Ok(_) => r == Ok::<Cycles, Exception>(Cycles(28))
                                    && c1 == common::move_flags_outcome(m3, v, 24).0,
                            },
                    },
            }
}

/// MOVE to memory: the value is written, then N and Z are set from it.
pub fn move_32_al_ai(core: &mut ConfiguredCore) -> (r: Result<Cycles>)
    requires
        old(core).wf(),
    ensures
        final(core).wf(),
        move_32_al_ai_effect(*old(core), *final(core), r),
{
    let ghost c0 = *core;
    let src = operator::ay_ai_32(core);
    let ghost m1 = *core;
    assert(operator::ay_ai_32_rel(c0, m1, src));
    let v = match src {
        Err(e) => {
            return Err(e);
        },
        Ok(v) => v,
    };
    let m = v;
    let ea = effective_address::absolute_long(core);
    let ghost m2 = *core;
    assert(effective_address::absolute_long_rel(m1, m2, ea));
    let a = match ea {
        Err(e) => {
            return Err(e);
        },
        Ok(a) => a,
    };
    let w = write_sized(core, 32, a, m);
    let ghost m3 = *core;
    assert(data_written(m2, m3, 32, a, m, w));
    match w {
        Err(e) => Err(e),
        Ok(()) => {
            common::move_flags(core, m, 24);
            Ok(Cycles(28))
        },
    }
}

/// What `move_32_dn_pi` does: the core goes from `c0` to `c1` and `r` comes back.
pub open spec fn move_32_dn_pi_effect(c0: ConfiguredCore, c1: ConfiguredCore, r: Result<Cycles>) -> bool {
    &&& exists|mid: ConfiguredCore, src: Result<u32>|
            #[trigger] operator::ay_pi_32_rel(c0, mid, src) && match src {
                Err(e) => r == Err::<Cycles, Exception>(e) && c1 == mid,
                Ok(v) => {
                    let m = v;
                    let reg = ir_dx(mid.ir);
                    &&& r == Ok::<Cycles, Exception>(Cycles(12))
                    &&& reg_set(common::move_flags_outcome(mid, m, 24).0, c1, reg, merged(mid.dar[reg], m, 32))
                },
            }
}

/// MOVE into Dx, with N and Z set from the value moved.
pub fn move_32_dn_pi(core: &mut ConfiguredCore) -> (r: Result<Cycles>)
    requires
        old(core).wf(),
    ensures
        final(core).wf(),
        move_32_dn_pi_effect(*old(core), *final(core), r),
{
    let ghost c0 = *core;
    let src = operator::ay_pi_32(core);
    let ghost mid = *core;
    assert(operator::ay_pi_32_rel(c0, mid, src));
    match src {
        Err(e) => Err(e),
        Ok(v) => {
            let m = v;
            let reg = reg_dx(core.ir);
            let dst = core.dar[reg];
            common::move_flags(core, m, 24);
            set_reg(core, reg, merge(dst, m, 32));
            Ok(Cycles(12))
        },
    }
}

/// What `move_32_ai_pi` does: the core goes from `c0` to `c1` and `r` comes back.
pub open spec fn move_32_ai_pi_effect(c0: ConfiguredCore, c1: ConfiguredCore, r: Result<Cycles>) -> bool {
    &&& exists|m1: ConfiguredCore, src: Result<u32>|
            #[trigger] operator::ay_pi_32_rel(c0, m1, src) && match src {
                Err(e) => r == Err::<Cycles, Exception>(e) && c1 == m1,
                Ok(v) => exists|m2: ConfiguredCore, ea: Result<u32>|
                    #[trigger] effective_address::address_indirect_ax_rel(m1, m2, ea) && match ea {
                        Err(e) => r == Err::<Cycles, Exception>(e) && c1 == m2,
                        Ok(a) => exists|m3: ConfiguredCore, w: Result<()>|
                            #[trigger] data_written(m2, m3, 32, a, v, w) && match w {
                                Err(e) => r == Err::<Cycles, Exception>(e) && c1 == m3,
                                Ok(_) => r == Ok::<Cycles, Exception>(Cycles(20))
                                    && c1 == common::move_flags_outcome(m3, v, 24).0,
                            },
                    },
            }
}

/// MOVE to memory: the value is written, then N and Z are set from it.
pub fn move_32_ai_pi(core: &mut ConfiguredCore) -> (r: Result<Cycles>)
    requires
        old(core).wf(),
    ensures
        final(core).wf(),
        move_32_ai_pi_effect(*old(core), *final(core), r),
{
    let ghost c0 = *core;
    let src = operator::ay_pi_32(core);
    let ghost m1 = *core;
    assert(operator::ay_pi_32_rel(c0, m1, src));
    let v = match src {
        Err(e) => {
            return Err(e);
        },
        Ok(v) => v,
    };
    let m = v;
    let ea = effective_address::address_indirect_ax(core);
    let ghost m2 = *core;
    assert(effective_address::address_indirect_ax_rel(m1, m2, ea));
    let a = match ea {
        Err(e) => {
            return Err(e);
        },
        Ok(a) => a,
    };
    let w = write_sized(core, 32, a, m);
    let ghost m3 = *core;
    assert(data_written(m2, m3, 32, a, m, w));
    match w {
        Err(e) => Err(e),
        Ok(()) => {
            common::move_flags(core, m, 24);
            Ok(Cycles(20))
        },
    }
}

/// What `move_32_pi_pi` does: the core goes from `c0` to `c1` and `r` comes back.
pub open spec fn move_32_pi_pi_effect(c0: ConfiguredCore, c1: ConfiguredCore, r: Result<Cycles>) -> bool {
    &&& exists|m1: ConfiguredCore, src: Result<u32>|
            #[trigger] operator::ay_pi_32_rel(c0, m1, src) && match src {
                Err(e) => r == Err::<Cycles, Exception>(e) && c1 == m1,
                Ok(v) => exists|m2: ConfiguredCore, ea: Result<u32>|
                    #[trigger] effective_address::postincrement_ax_32_rel(m1, m2, ea) && match ea {
                        Err(e) => r == Err::<Cycles, Exception>(e) && c1 == m2,
                        Ok(a) => exists|m3: ConfiguredCore, w: Result<()>|
                            #[trigger] data_written(m2, m3, 32, a, v, w) && match w {
                                Err(e) => r == Err::<Cycles, Exception>(e) && c1 == m3,
                                Ok(_) => r == Ok::<Cycles, Exception>(Cycles(20))
                                    && c1 == common::move_flags_outcome(m3, v, 24).0,
                            },
                    },
            }
}

/// MOVE to memory: the value is written, then N and Z are set from it.
pub fn move_32_pi_pi(core: &mut ConfiguredCore) -> (r: Result<Cycles>)
    requires
        old(core).wf(),
    ensures
        final(core).wf(),
        move_32_pi_pi_effect(*old(core), *final(core), r),
{
    let ghost c0 = *core;
    let src = operator::ay_pi_32(core);
    let ghost m1 = *core;
    assert(operator::ay_pi_32_rel(c0, m1, src));
    let v = match src {
        Err(e) => {
            return Err(e);
        },
        Ok(v) => v,
    };
    let m = v;
    let ea = effective_address::postincrement_ax_32(core);
    let ghost m2 = *core;
    assert(effective_address::postincrement_ax_32_rel(m1, m2, ea));
    let a = match ea {
        Err(e) => {
            return Err(e);
        },
        Ok(a) => a,
    };
    let w = write_sized(core, 32, a, m);
    let ghost m3 = *core;
    assert(data_written(m2, m3, 32, a, m, w));
    match w {
        Err(e) => Err(e),
        Ok(()) => {
            common::move_flags(core, m, 24);
            Ok(Cycles(20))
        },
    }
}

/// What `move_32_pd_pi` does: the core goes from `c0` to `c1` and `r` comes back.
pub open spec fn move_32_pd_pi_effect(c0: ConfiguredCore, c1: ConfiguredCore, r: Result<Cycles>) -> bool {
    &&& exists|m1: ConfiguredCore, src: Result<u32>|
            #[trigger] operator::ay_pi_32_rel(c0, m1, src) && match src {
                Err(e) => r == Err::<Cycles, Exception>(e) && c1 == m1,
                Ok(v) => exists|m2: ConfiguredCore, ea: Result<u32>|
                    #[trigger] effective_address::predecrement_ax_32_rel(m1, m2, ea) && match ea {
                        Err(e) => r == Err::<Cycles, Exception>(e) && c1 == m2,
                        Ok(a) => exists|m3: ConfiguredCore, w: Result<()>|
                            #[trigger] data_written(m2, m3, 32, a, v, w) && match w {
                                Err(e) => r == Err::<Cycles, Exception>(e) && c1 == m3,
                                Ok(_) => r == Ok::<Cycles, Exception>(Cycles(20))
                                    && c1 == common::move_flags_outcome(m3, v, 24).0,
                            },
                    },
            }
}

/// MOVE to memory: the value is written, then N and Z are set from it.
pub fn move_32_pd_pi(core: &mut ConfiguredCore) -> (r: Result<Cycles>)
    requires
        old(core).wf(),
    ensures
        final(core).wf(),
        move_32_pd_pi_effect(*old(core), *final(core), r),
{
    let ghost c0 = *core;
    let src = operator::ay_pi_32(core);
    let ghost m1 = *core;
    assert(operator::ay_pi_32_rel(c0, m1, src));
    let v = match src {
        Err(e) => {
            return Err(e);
        },
        Ok(v) => v,
    };
    let m = v;
    let ea = effective_address::predecrement_ax_32(core);
    let ghost m2 = *core;
    assert(effective_address::predecrement_ax_32_rel(m1, m2, ea));
    let a = match ea {
        Err(e) => {
            return Err(e);
        },
        Ok(a) => a,
    };
    let w = write_sized(core, 32, a, m);
    let ghost m3 = *core;
    assert(data_written(m2, m3, 32, a, m, w));
    match w {
        Err(e) => Err(e),
        Ok(()) => {
            common::move_flags(core, m, 24);
            Ok(Cycles(20))
        },
    }
}

/// What `move_32_di_pi` does: the core goes from `c0` to `c1` and `r` comes back.
pub open spec fn move_32_di_pi_effect(c0: ConfiguredCore, c1: ConfiguredCore, r: Result<Cycles>) -> bool {
    &&& exists|m1: ConfiguredCore, src: Result<u32>|
            #[trigger] operator::ay_pi_32_rel(c0, m1, src) && match src {
                Err(e) => r == Err::<Cycles, Exception>(e) && c1 == m1,
                Ok(v) => exists|m2: ConfiguredCore, ea: Result<u32>|
                    #[trigger] effective_address::displacement_ax_rel(m1, m2, ea) && match ea {
                        Err(e) => r == Err::<Cycles, Exception>(e) && c1 == m2,
                        Ok(a) => exists|m3: ConfiguredCore, w: Result<()>|
                            #[trigger] data_written(m2, m3, 32, a, v, w) && match w {
                                Err(e) => r == Err::<Cycles, Exception>(e) && c1 == m3,
                                Ok(_) => r == Ok::<Cycles, Exception>(Cycles(24))
                                    && c1 == common::move_flags_outcome(m3, v, 24).0,
                            },
                    },
            }
}

/// MOVE to memory: the value is written, then N and Z are set from it.
pub fn move_32_di_pi(core: &mut ConfiguredCore) -> (r: Result<Cycles>)
    requires
        old(core).wf(),
    ensures
        final(core).wf(),
        move_32_di_pi_effect(*old(core), *final(core), r),
{
    let ghost c0 = *core;
    let src = operator::ay_pi_32(core);
    let ghost m1 = *core;
    assert(operator::ay_pi_32_rel(c0, m1, src));
    let v = match src {
        Err(e) => {
            return Err(e);
        },
        Ok(v) => v,
    };
    let m = v;
    let ea = effective_address::displacement_ax(core);
    let ghost m2 = *core;
    assert(effective_address::displacement_ax_rel(m1, m2, ea));
    let a = match ea {
        Err(e) => {
            return Err(e);
        },
        Ok(a) => a,
    };
    let w = write_sized(core, 32, a, m);
    let ghost m3 = *core;
    assert(data_written(m2, m3, 32, a, m, w));
    match w {
        Err(e) => Err(e),
        Ok(()) => {
            common::move_flags(core, m, 24);
            Ok(Cycles(24))
        },
    }
}

/// What `move_32_ix_pi` does: the core goes from `c0` to `c1` and `r` comes back.
pub open spec fn move_32_ix_pi_effect(c0: ConfiguredCore, c1: ConfiguredCore, r: Result<Cycles>) -> bool {
    &&& exists|m1: ConfiguredCore, src: Result<u32>|
            #[trigger] operator::ay_pi_32_rel(c0, m1, src) && match src {
                Err(e) => r == Err::<Cycles, Exception>(e) && c1 == m1,
                Ok(v) => exists|m2: ConfiguredCore, ea: Result<u32>|
                    #[trigger] effective_address::index_ax_rel(m1, m2, ea) && match ea {
                        Err(e) => r == Err::<Cycles, Exception>(e) && c1 == m2,
                        Ok(a) => exists|m3: ConfiguredCore, w: Result<()>|
                            #[trigger] data_written(m2, m3, 32, a, v, w) && match w {
                                Err(e) => r == Err::<Cycles, Exception>(e) && c1 == m3,
                                Ok(_) => r == Ok::<Cycles, Exception>(Cycles(26))
                                    && c1 == common::move_flags_outcome(m3, v, 24).0,
                            },
                    },
            }
}

/// MOVE to memory: the value is written, then N and Z are set from it.
pub fn move_32_ix_pi(core: &mut ConfiguredCore) -> (r: Result<Cycles>)
    requires
        old(core).wf(),
    ensures
        final(core).wf(),
        move_32_ix_pi_effect(*old(core), *final(core), r),
{
    let ghost c0 = *core;
    let src = operator::ay_pi_32(core);
    let ghost m1 = *core;
    assert(operator::ay_pi_32_rel(c0, m1, src));
    let v = match src {
        Err(e) => {
            return Err(e);
        },
        Ok(v) => v,
    };
    let m = v;
    let ea = effective_address::index_ax(core);
    let ghost m2 = *core;
    assert(effective_address::index_ax_rel(m1, m2, ea));
    let a = match ea {
        Err(e) => {
            return Err(e);
        },
        Ok(a) => a,
    };
    let w = write_sized(core, 32, a, m);
    let ghost m3 = *core;
    assert(data_written(m2, m3, 32, a, m, w));
    match w {
        Err(e) => Err(e),
        Ok(()) => {
            common::move_flags(core, m, 24);
            Ok(Cycles(26))
        },
    }
}

/// What `move_32_aw_pi` does: the core goes from `c0` to `c1` and `r` comes back.
pub open spec fn move_32_aw_pi_effect(c0: ConfiguredCore, c1: ConfiguredCore, r: Result<Cycles>) -> bool {
    &&& exists|m1: ConfiguredCore, src: Result<u32>|
            #[trigger] operator::ay_pi_32_rel(c0, m1, src) && match src {
                Err(e) => r == Err::<Cycles, Exception>(e) && c1 == m1,
                Ok(v) => exists|m2: ConfiguredCore, ea: Result<u32>|
                    #[trigger] effective_address::absolute_word_rel(m1, m2, ea) && match ea {
                        Err(e) => r == Err::<Cycles, Exception>(e) && c1 == m2,
                        Ok(a) => exists|m3: ConfiguredCore, w: Result<()>|
                            #[trigger] data_written(m2, m3, 32, a, v, w) && match w {
                                Err(e) => r == Err::<Cycles, Exception>(e) && c1 == m3,
                                Ok(_) => r == Ok::<Cycles, Exception>(Cycles(24))
                                    && c1 == common::move_flags_outcome(m3, v, 24).0,
                            },
                    },
            }
}

/// MOVE to memory: the value is written, then N and Z are set from it.
pub fn move_32_aw_pi(core: &mut ConfiguredCore) -> (r: Result<Cycles>)
    requires
        old(core).wf(),
    ensures
        final(core).wf(),
        move_32_aw_pi_effect(*old(core), *final(core), r),
{
    let ghost c0 = *core;
    let src = operator::ay_pi_32(core);
    let ghost m1 = *core;
    assert(operator::ay_pi_32_rel(c0, m1, src));
    let v = match src {
        Err(e) => {
            return Err(e);
        },
        Ok(v) => v,
    };
    let m = v;
    let ea = effective_address::absolute_word(core);
    let ghost m2 = *core;
    assert(effective_address::absolute_word_rel(m1, m2, ea));
    let a = match ea {
        Err(e) => {
            return Err(e);
        },
        Ok(a) => a,
    };
    let w = write_sized(core, 32, a, m);
    let ghost m3 = *core;
    assert(data_written(m2, m3, 32, a, m, w));
    match w {
        Err(e) => Err(e),
        Ok(()) => {
            common::move_flags(core, m, 24);
            Ok(Cycles(24))
        },
    }
}

/// What `move_32_al_pi` does: the core goes from `c0` to `c1` and `r` comes back.
pub open spec fn move_32_al_pi_effect(c0: ConfiguredCore, c1: ConfiguredCore, r: Result<Cycles>) -> bool {
    &&& exists|m1: ConfiguredCore, src: Result<u32>|
            #[trigger] operator::ay_pi_32_rel(c0, m1, src) && match src {
                Err(e) => r == Err::<Cycles, Exception>(e) && c1 == m1,
                Ok(v) => exists|m2: ConfiguredCore, ea: Result<u32>|
                    #[trigger] effective_address::absolute_long_rel(m1, m2, ea) && match ea {
                        Err(e) => r == Err::<Cycles, Exception>(e) && c1 == m2,
                        Ok(a) => exists|m3: ConfiguredCore, w: Result<()>|
                            #[trigger] data_written(m2, m3, 32, a, v, w) && match w {
                                Err(e) => r == Err::<Cycles, Exception>(e) && c1 == m3,
                                Ok(_) => r == Ok::<Cycles, Exception>(Cycles(28))
                                    && c1 == common::move_flags_outcome(m3, v, 24).0,
                            },
                    },
            }
}

/// MOVE to memory: the value is written, then N and Z are set from it.
pub fn move_32_al_pi(core: &mut ConfiguredCore) -> (r: Result<Cycles>)
    requires
        old(core).wf(),
    ensures
        final(core).wf(),
        move_32_al_pi_effect(*old(core), *final(core), r),
{
    let ghost c0 = *core;
    let src = operator::ay_pi_32(core);
    let ghost m1 = *core;
    assert(operator::ay_pi_32_rel(c0, m1, src));
    let v = match src {
        Err(e) => {
            return Err(e);
        },
        Ok(v) => v,
    };
    let m = v;
    let ea = effective_address::absolute_long(core);
    let ghost m2 = *core;
    assert(effective_address::absolute_long_rel(m1, m2, ea));
    let a = match ea {
        Err(e) => {
            return Err(e);
        },
        Ok(a) => a,
    };
    let w = write_sized(core, 32, a, m);
    let ghost m3 = *core;
    assert(data_written(m2, m3, 32, a, m, w));
    match w {
        Err(e) => Err(e),
        Ok(()) => {
            common::move_flags(core, m, 24);
            Ok(Cycles(28))
        },
    }
}

/// What `move_32_dn_pd` does: the core goes from `c0` to `c1` and `r` comes back.
pub open spec fn move_32_dn_pd_effect(c0: ConfiguredCore, c1: ConfiguredCore, r: Result<Cycles>) -> bool {
    &&& exists|mid: ConfiguredCore, src: Result<u32>|
            #[trigger] operator::ay_pd_32_rel(c0, mid, src) && match src {
                Err(e) => r == Err::<Cycles, Exception>(e) && c1 == mid,
                Ok(v) => {
                    let m = v;
                    let reg = ir_dx(mid.ir);
                    &&& r == Ok::<Cycles, Exception>(Cycles(14))
                    &&& reg_set(common::move_flags_outcome(mid, m, 24).0, c1, reg, merged(mid.dar[reg], m, 32))
                },
            }
}

/// MOVE into Dx, with N and Z set from the value moved.
pub fn move_32_dn_pd(core: &mut ConfiguredCore) -> (r: Result<Cycles>)
    requires
        old(core).wf(),
    ensures
        final(core).wf(),
        move_32_dn_pd_effect(*old(core), *final(core), r),
{
    let ghost c0 = *core;
    let src = operator::ay_pd_32(core);
    let ghost mid = *core;
    assert(operator::ay_pd_32_rel(c0, mid, src));
    match src {
        Err(e) => Err(e),
        Ok(v) => {
            let m = v;
            let reg = reg_dx(core.ir);
            let dst = core.dar[reg];
            common::move_flags(core, m, 24);
            set_reg(core, reg, merge(dst, m, 32));
            Ok(Cycles(14))
        },
    }
}

/// What `move_32_ai_pd` does: the core goes from `c0` to `c1` and `r` comes back.
pub open spec fn move_32_ai_pd_effect(c0: ConfiguredCore, c1: ConfiguredCore, r: Result<Cycles>) -> bool {
    &&& exists|m1: ConfiguredCore, src: Result<u32>|
            #[trigger] operator::ay_pd_32_rel(c0, m1, src) && match src {
                Err(e) => r == Err::<Cycles, Exception>(e) && c1 == m1,
                Ok(v) => exists|m2: ConfiguredCore, ea: Result<u32>|
                    #[trigger] effective_address::address_indirect_ax_rel(m1, m2, ea) && match ea {
                        Err(e) => r == Err::<Cycles, Exception>(e) && c1 == m2,
                        Ok(a) => exists|m3: ConfiguredCore, w: Result<()>|
                            #[trigger] data_written(m2, m3, 32, a, v, w) && match w {
                                Err(e) => r == Err::<Cycles, Exception>(e) && c1 == m3,
                                Ok(_) => r == Ok::<Cycles, Exception>(Cycles(22))
                                    && c1 == common::move_flags_outcome(m3, v, 24).0,
                            },
                    },
            }
}

/// MOVE to memory: the value is written, then N and Z are set from it.
pub fn move_32_ai_pd(core: &mut ConfiguredCore) -> (r: Result<Cycles>)
    requires
        old(core).wf(),
    ensures
        final(core).wf(),
        move_32_ai_pd_effect(*old(core), *final(core), r),
{
    let ghost c0 = *core;
    let src = operator::ay_pd_32(core);
    let ghost m1 = *core;
    assert(operator::ay_pd_32_rel(c0, m1, src));
    let v = match src {
        Err(e) => {
            return Err(e);
        },
        Ok(v) => v,
    };
    let m = v;
    let ea = effective_address::address_indirect_ax(core);
    let ghost m2 = *core;
    assert(effective_address::address_indirect_ax_rel(m1, m2, ea));
    let a = match ea {
        Err(e) => {
            return Err(e);
        },
        Ok(a) => a,
    };
    let w = write_sized(core, 32, a, m);
    let ghost m3 = *core;
    assert(data_written(m2, m3, 32, a, m, w));
    match w {
        Err(e) => Err(e),
        Ok(()) => {
            common::move_flags(core, m, 24);
            Ok(Cycles(22))
        },
    }
}

/// What `move_32_pi_pd` does: the core goes from `c0` to `c1` and `r` comes back.
pub open spec fn move_32_pi_pd_effect(c0: ConfiguredCore, c1: ConfiguredCore, r: Result<Cycles>) -> bool {
    &&& exists|m1: ConfiguredCore, src: Result<u32>|
            #[trigger] operator::ay_pd_32_rel(c0, m1, src) && match src {
                Err(e) => r == Err::<Cycles, Exception>(e) && c1 == m1,
                Ok(v) => exists|m2: ConfiguredCore, ea: Result<u32>|
                    #[trigger] effective_address::postincrement_ax_32_rel(m1, m2, ea) && match ea {
                        Err(e) => r == Err::<Cycles, Exception>(e) && c1 == m2,
                        Ok(a) => exists|m3: ConfiguredCore, w: Result<()>|
                            #[trigger] data_written(m2, m3, 32, a, v, w) && match w {
                                Err(e) => r == Err::<Cycles, Exception>(e) && c1 == m3,
                                Ok(_) => r == Ok::<Cycles, Exception>(Cycles(22))
                                    && c1 == common::move_flags_outcome(m3, v, 24).0,
                            },
                    },
            }
}

/// MOVE to memory: the value is written, then N and Z are set from it.
pub fn move_32_pi_pd(core: &mut ConfiguredCore) -> (r: Result<Cycles>)
    requires
        old(core).wf(),
    ensures
        final(core).wf(),
        move_32_pi_pd_effect(*old(core), *final(core), r),
{
    let ghost c0 = *core;
    let src = operator::ay_pd_32(core);
    let ghost m1 = *core;
    assert(operator::ay_pd_32_rel(c0, m1, src));
    let v = match src {
        Err(e) => {
            return Err(e);
        },
        Ok(v) => v,
    };
    let m = v;
    let ea = effective_address::postincrement_ax_32(core);
    let ghost m2 = *core;
    assert(effective_address::postincrement_ax_32_rel(m1, m2, ea));
    let a = match ea {
        Err(e) => {
            return Err(e);
        },
        Ok(a) => a,
    };
    let w = write_sized(core, 32, a, m);
    let ghost m3 = *core;
    assert(data_written(m2, m3, 32, a, m, w));
    match w {
        Err(e) => Err(e),
        Ok(()) => {
            common::move_flags(core, m, 24);
            Ok(Cycles(22))
        },
    }
}

/// What `move_32_pd_pd` does: the core goes from `c0` to `c1` and `r` comes back.
pub open spec fn move_32_pd_pd_effect(c0: ConfiguredCore, c1: ConfiguredCore, r: Result<Cycles>) -> bool {
    &&& exists|m1: ConfiguredCore, src: Result<u32>|
            #[trigger] operator::ay_pd_32_rel(c0, m1, src) && match src {
                Err(e) => r == Err::<Cycles, Exception>(e) && c1 == m1,
                Ok(v) => exists|m2: ConfiguredCore, ea: Result<u32>|
                    #[trigger] effective_address::predecrement_ax_32_rel(m1, m2, ea) && match ea {
                        Err(e) => r == Err::<Cycles, Exception>(e) && c1 == m2,
                        Ok(a) => exists|m3: ConfiguredCore, w: Result<()>|
                            #[trigger] data_written(m2, m3, 32, a, v, w) && match w {
                                Err(e) => r == Err::<Cycles, Exception>(e) && c1 == m3,
                                Ok(_) => r == Ok::<Cycles, Exception>(Cycles(22))
                                    && c1 == common::move_flags_outcome(m3, v, 24).0,
                            },
                    },
            }
}

/// MOVE to memory: the value is written, then N and Z are set from it.
pub fn move_32_pd_pd(core: &mut ConfiguredCore) -> (r: Result<Cycles>)
    requires
        old(core).wf(),
    ensures
        final(core).wf(),
        move_32_pd_pd_effect(*old(core), *final(core), r),
{
    let ghost c0 = *core;
    let src = operator::ay_pd_32(core);
    let ghost m1 = *core;
    assert(operator::ay_pd_32_rel(c0, m1, src));
    let v = match src {
        Err(e) => {
            return Err(e);
        },
        Ok(v) => v,
    };
    let m = v;
    let ea = effective_address::predecrement_ax_32(core);
    let ghost m2 = *core;
    assert(effective_address::predecrement_ax_32_rel(m1, m2, ea));
    let a = match ea {
        Err(e) => {
            return Err(e);
        },
        Ok(a) => a,
    };
    let w = write_sized(core, 32, a, m);
    let ghost m3 = *core;
    assert(data_written(m2, m3, 32, a, m, w));
    match w {
        Err(e) => Err(e),
        Ok(()) => {
            common::move_flags(core, m, 24);
            Ok(Cycles(22))
        },
    }
}

/// What `move_32_di_pd` does: the core goes from `c0` to `c1` and `r` comes back.
pub open spec fn move_32_di_pd_effect(c0: ConfiguredCore, c1: ConfiguredCore, r: Result<Cycles>) -> bool {
    &&& exists|m1: ConfiguredCore, src: Result<u32>|
            #[trigger] operator::ay_pd_32_rel(c0, m1, src) && match src {
                Err(e) => r == Err::<Cycles, Exception>(e) && c1 == m1,
                Ok(v) => exists|m2: ConfiguredCore, ea: Result<u32>|
                    #[trigger] effective_address::displacement_ax_rel(m1, m2, ea) && match ea {
                        Err(e) => r == Err::<Cycles, Exception>(e) && c1 == m2,
                        Ok(a) => exists|m3: ConfiguredCore, w: Result<()>|
                            #[trigger] data_written(m2, m3, 32, a, v, w) && match w {
                                Err(e) => r == Err::<Cycles, Exception>(e) && c1 == m3,
                                Ok(_) => r == Ok::<Cycles, Exception>(Cycles(26))
                                    && c1 == common::move_flags_outcome(m3, v, 24).0,
                            },
                    },
            }
}

/// MOVE to memory: the value is written, then N and Z are set from it.
pub fn move_32_di_pd(core: &mut ConfiguredCore) -> (r: Result<Cycles>)
    requires
        old(core).wf(),
    ensures
        final(core).wf(),
        move_32_di_pd_effect(*old(core), *final(core), r),
{
    let ghost c0 = *core;
    let src = operator::ay_pd_32(core);
    let ghost m1 = *core;
    assert(operator::ay_pd_32_rel(c0, m1, src));
    let v = match src {
        Err(e) => {
            return Err(e);
        },
        Ok(v) => v,
    };
    let m = v;
    let ea = effective_address::displacement_ax(core);
    let ghost m2 = *core;
    assert(effective_address::displacement_ax_rel(m1, m2, ea));
    let a = match ea {
        Err(e) => {
            return Err(e);
        },
        Ok(a) => a,
    };
    let w = write_sized(core, 32, a, m);
    let ghost m3 = *core;
    assert(data_written(m2, m3, 32, a, m, w));
    match w {
        Err(e) => Err(e),
        Ok(()) => {
            common::move_flags(core, m, 24);
            Ok(Cycles(26))
        },
    }
}

/// What `move_32_ix_pd` does: the core goes from `c0` to `c1` and `r` comes back.
pub open spec fn move_32_ix_pd_effect(c0: ConfiguredCore, c1: ConfiguredCore, r: Result<Cycles>) -> bool {
    &&& exists|m1: ConfiguredCore, src: Result<u32>|
            #[trigger] operator::ay_pd_32_rel(c0, m1, src) && match src {
                Err(e) => r == Err::<Cycles, Exception>(e) && c1 == m1,
                Ok(v) => exists|m2: ConfiguredCore, ea: Result<u32>|
                    #[trigger] effective_address::index_ax_rel(m1, m2, ea) && match ea {
                        Err(e) => r == Err::<Cycles, Exception>(e) && c1 == m2,
                        Ok(a) => exists|m3: ConfiguredCore, w: Result<()>|
                            #[trigger] data_written(m2, m3, 32, a, v, w) && match w {
                                Err(e) => r == Err::<Cycles, Exception>(e) && c1 == m3,
                                Ok(_) => r == Ok::<Cycles, Exception>(Cycles(28))
                                    && c1 == common::move_flags_outcome(m3, v, 24).0,
                            },
                    },
            }
}

/// MOVE to memory: the value is written, then N and Z are set from it.
pub fn move_32_ix_pd(core: &mut ConfiguredCore) -> (r: Result<Cycles>)
    requires
        old(core).wf(),
    ensures
        final(core).wf(),
        move_32_ix_pd_effect(*old(core), *final(core), r),
{
    let ghost c0 = *core;
    let src = operator::ay_pd_32(core);
    let ghost m1 = *core;
    assert(operator::ay_pd_32_rel(c0, m1, src));
    let v = match src {
        Err(e) => {
            return Err(e);
        },
        Ok(v) => v,
    };
    let m = v;
    let ea = effective_address::index_ax(core);
    let ghost m2 = *core;
    assert(effective_address::index_ax_rel(m1, m2, ea));
    let a = match ea {
        Err(e) => {
            return Err(e);
        },
        Ok(a) => a,
    };
    let w = write_sized(core, 32, a, m);
    let ghost m3 = *core;
    assert(data_written(m2, m3, 32, a, m, w));
    match w {
        Err(e) => Err(e),
        Ok(()) => {
            common::move_flags(core, m, 24);
            Ok(Cycles(28))
        },
    }
}

/// What `move_32_aw_pd` does: the core goes from `c0` to `c1` and `r` comes back.
pub open spec fn move_32_aw_pd_effect(c0: ConfiguredCore, c1: ConfiguredCore, r: Result<Cycles>) -> bool {
    &&& exists|m1: ConfiguredCore, src: Result<u32>|
            #[trigger] operator::ay_pd_32_rel(c0, m1, src) && match src {
                Err(e) => r == Err::<Cycles, Exception>(e) && c1 == m1,
                Ok(v) => exists|m2: ConfiguredCore, ea: Result<u32>|
                    #[trigger] effective_address::absolute_word_rel(m1, m2, ea) && match ea {
                        Err(e) => r == Err::<Cycles, Exception>(e) && c1 == m2,
                        Ok(a) => exists|m3: ConfiguredCore, w: Result<()>|
                            #[trigger] data_written(m2, m3, 32, a, v, w) && match w {
                                Err(e) => r == Err::<Cycles, Exception>(e) && c1 == m3,
                                Ok(_) => r == Ok::<Cycles, Exception>(Cycles(26))
                                    && c1 == common::move_flags_outcome(m3, v, 24).0,
                            },
                    },
            }
}

/// MOVE to memory: the value is written, then N and Z are set from it.
pub fn move_32_aw_pd(core: &mut ConfiguredCore) -> (r: Result<Cycles>)
    requires
        old(core).wf(),
    ensures
        final(core).wf(),
        move_32_aw_pd_effect(*old(core), *final(core), r),
{
    let ghost c0 = *core;
    let src = operator::ay_pd_32(core);
    let ghost m1 = *core;
    assert(operator::ay_pd_32_rel(c0, m1, src));
    let v = match src {
        Err(e) => {
            return Err(e);
        },
        Ok(v) => v,
    };
    let m = v;
    let ea = effective_address::absolute_word(core);
    let ghost m2 = *core;
    assert(effective_address::absolute_word_rel(m1, m2, ea));
    let a = match ea {
        Err(e) => {
            return Err(e);
        },
        Ok(a) => a,
    };
    let w = write_sized(core, 32, a, m);
    let ghost m3 = *core;
    assert(data_written(m2, m3, 32, a, m, w));
    match w {
        Err(e) => Err(e),
        Ok(()) => {
            common::move_flags(core, m, 24);
            Ok(Cycles(26))
        },
    }
}

/// What `move_32_al_pd` does: the core goes from `c0` to `c1` and `r` comes back.
pub open spec fn move_32_al_pd_effect(c0: ConfiguredCore, c1: ConfiguredCore, r: Result<Cycles>) -> bool {
    &&& exists|m1: ConfiguredCore, src: Result<u32>|
            #[trigger] operator::ay_pd_32_rel(c0, m1, src) && match src {
                Err(e) => r == Err::<Cycles, Exception>(e) && c1 == m1,
                Ok(v) => exists|m2: ConfiguredCore, ea: Result<u32>|
                    #[trigger] effective_address::absolute_long_rel(m1, m2, ea) && match ea {
                        Err(e) => r == Err::<Cycles, Exception>(e) && c1 == m2,
                        Ok(a) => exists|m3: ConfiguredCore, w: Result<()>|
                            #[trigger] data_written(m2, m3, 32, a, v, w) && match w {
                                Err(e) => r == Err::<Cycles, Exception>(e) && c1 == m3,
                                Ok(_) => r == Ok::<Cycles, Exception>(Cycles(30))
                                    && c1 == common::move_flags_outcome(m3, v, 24).0,
                            },
                    },
            }
}

/// MOVE to memory: the value is written, then N and Z are set from it.
pub fn move_32_al_pd(core: &mut ConfiguredCore) -> (r: Result<Cycles>)
    requires
        old(core).wf(),
    ensures
        final(core).wf(),
        move_32_al_pd_effect(*old(core), *final(core), r),
{
    let ghost c0 = *core;
    let src = operator::ay_pd_32(core);
    let ghost m1 = *core;
    assert(operator::ay_pd_32_rel(c0, m1, src));
    let v = match src {
        Err(e) => {
            return Err(e);
        },
        Ok(v) => v,
    };
    let m = v;
    let ea = effective_address::absolute_long(core);
    let ghost m2 = *core;
    assert(effective_address::absolute_long_rel(m1, m2, ea));
    let a = match ea {
        Err(e) => {
            return Err(e);
        },
        Ok(a) => a,
    };
    let w = write_sized(core, 32, a, m);
    let ghost m3 = *core;
    assert(data_written(m2, m3, 32, a, m, w));
    match w {
        Err(e) => Err(e),
        Ok(()) => {
            common::move_flags(core, m, 24);
            Ok(Cycles(30))
        },
    }
}

/// What `move_32_dn_di` does: the core goes from `c0` to `c1` and `r` comes back.
pub open spec fn move_32_dn_di_effect(c0: ConfiguredCore, c1: ConfiguredCore, r: Result<Cycles>) -> bool {
    &&& exists|mid: ConfiguredCore, src: Result<u32>|
            #[trigger] operator::ay_di_32_rel(c0, mid, src) && match src {
                Err(e) => r == Err::<Cycles, Exception>(e) && c1 == mid,
                Ok(v) => {
                    let m = v;
                    let reg = ir_dx(mid.ir);
                    &&& r == Ok::<Cycles, Exception>(Cycles(16))
                    &&& reg_set(common::move_flags_outcome(mid, m, 24).0, c1, reg, merged(mid.dar[reg], m, 32))
                },
            }
}

/// MOVE into Dx, with N and Z set from the value moved.
pub fn move_32_dn_di(core: &mut ConfiguredCore) -> (r: Result<Cycles>)
    requires
        old(core).wf(),
    ensures
        final(core).wf(),
        move_32_dn_di_effect(*old(core), *final(core), r),
{
    let ghost c0 = *core;
    let src = operator::ay_di_32(core);
    let ghost mid = *core;
    assert(operator::ay_di_32_rel(c0, mid, src));
    match src {
        Err(e) => Err(e),
        Ok(v) => {
            let m = v;
            let reg = reg_dx(core.ir);
            let dst = core.dar[reg];
            common::move_flags(core, m, 24);
            set_reg(core, reg, merge(dst, m, 32));
            Ok(Cycles(16))
        },
    }
}

/// What `move_32_ai_di` does: the core goes from `c0` to `c1` and `r` comes back.
pub open spec fn move_32_ai_di_effect(c0: ConfiguredCore, c1: ConfiguredCore, r: Result<Cycles>) -> bool {
    &&& exists|m1: ConfiguredCore, src: Result<u32>|
            #[trigger] operator::ay_di_32_rel(c0, m1, src) && match src {
                Err(e) => r == Err::<Cycles, Exception>(e) && c1 == m1,
                Ok(v) => exists|m2: ConfiguredCore, ea: Result<u32>|
                    #[trigger] effective_address::address_indirect_ax_rel(m1, m2, ea) && match ea {
                        Err(e) => r == Err::<Cycles, Exception>(e) && c1 == m2,
                        Ok(a) => exists|m3: ConfiguredCore, w: Result<()>|
                            #[trigger] data_written(m2, m3, 32, a, v, w) && match w {
                                Err(e) => r == Err::<Cycles, Exception>(e) && c1 == m3,
                                Ok(_) => r == Ok::<Cycles, Exception>(Cycles(24))
                                    && c1 == common::move_flags_outcome(m3, v, 24).0,
                            },
                    },
            }
}

/// MOVE to memory: the value is written, then N and Z are set from it.
pub fn move_32_ai_di(core: &mut ConfiguredCore) -> (r: Result<Cycles>)
    requires
        old(core).wf(),
    ensures
        final(core).wf(),
        move_32_ai_di_effect(*old(core), *final(core), r),
{
    let ghost c0 = *core;
    let src = operator::ay_di_32(core);
    let ghost m1 = *core;
    assert(operator::ay_di_32_rel(c0, m1, src));
    let v = match src {
        Err(e) => {
            return Err(e);
        },
        Ok(v) => v,
    };
    let m = v;
    let ea = effective_address::address_indirect_ax(core);
    let ghost m2 = *core;
    assert(effective_address::address_indirect_ax_rel(m1, m2, ea));
    let a = match ea {
        Err(e) => {
            return Err(e);
        },
        Ok(a) => a,
    };
    let w = write_sized(core, 32, a, m);
    let ghost m3 = *core;
    assert(data_written(m2, m3, 32, a, m, w));
    match w {
        Err(e) => Err(e),
        Ok(()) => {
            common::move_flags(core, m, 24);
            Ok(Cycles(24))
        },
    }
}

/// What `move_32_pi_di` does: the core goes from `c0` to `c1` and `r` comes back.
pub open spec fn move_32_pi_di_effect(c0: ConfiguredCore, c1: ConfiguredCore, r: Result<Cycles>) -> bool {
    &&& exists|m1: ConfiguredCore, src: Result<u32>|
            #[trigger] operator::ay_di_32_rel(c0, m1, src) && match src {
                Err(e) => r == Err::<Cycles, Exception>(e) && c1 == m1,
                Ok(v) => exists|m2: ConfiguredCore, ea: Result<u32>|
                    #[trigger] effective_address::postincrement_ax_32_rel(m1, m2, ea) && match ea {
                        Err(e) => r == Err::<Cycles, Exception>(e) && c1 == m2,
                        Ok(a) => exists|m3: ConfiguredCore, w: Result<()>|
                            #[trigger] data_written(m2, m3, 32, a, v, w) && match w {
                                Err(e) => r == Err::<Cycles, Exception>(e) && c1 == m3,
                                Ok(_) => r == Ok::<Cycles, Exception>(Cycles(24))
                                    && c1 == common::move_flags_outcome(m3, v, 24).0,
                            },
                    },
            }
}

/// MOVE to memory: the value is written, then N and Z are set from it.
pub fn move_32_pi_di(core: &mut ConfiguredCore) -> (r: Result<Cycles>)
    requires
        old(core).wf(),
    ensures
        final(core).wf(),
        move_32_pi_di_effect(*old(core), *final(core), r),
{
    let ghost c0 = *core;
    let src = operator::ay_di_32(core);
    let ghost m1 = *core;
    assert(operator::ay_di_32_rel(c0, m1, src));
    let v = match src {
        Err(e) => {
            return Err(e);
        },
        Ok(v) => v,
    };
    let m = v;
    let ea = effective_address::postincrement_ax_32(core);
    let ghost m2 = *core;
    assert(effective_address::postincrement_ax_32_rel(m1, m2, ea));
    let a = match ea {
        Err(e) => {
            return Err(e);
        },
        Ok(a) => a,
    };
    let w = write_sized(core, 32, a, m);
    let ghost m3 = *core;
    assert(data_written(m2, m3, 32, a, m, w));
    match w {
        Err(e) => Err(e),
        Ok(()) => {
            common::move_flags(core, m, 24);
            Ok(Cycles(24))
        },
    }
}

/// What `move_32_pd_di` does: the core goes from `c0` to `c1` and `r` comes back.
pub open spec fn move_32_pd_di_effect(c0: ConfiguredCore, c1: ConfiguredCore, r: Result<Cycles>) -> bool {
    &&& exists|m1: ConfiguredCore, src: Result<u32>|
            #[trigger] operator::ay_di_32_rel(c0, m1, src) && match src {
                Err(e) => r == Err::<Cycles, Exception>(e) && c1 == m1,
                Ok(v) => exists|m2: ConfiguredCore, ea: Result<u32>|
                    #[trigger] effective_address::predecrement_ax_32_rel(m1, m2, ea) && match ea {
                        Err(e) => r == Err::<Cycles, Exception>(e) && c1 == m2,
                        Ok(a) => exists|m3: ConfiguredCore, w: Result<()>|
                            #[trigger] data_written(m2, m3, 32, a, v, w) && match w {
                                Err(e) => r == Err::<Cycles, Exception>(e) && c1 == m3,
                                Ok(_) => r == Ok::<Cycles, Exception>(Cycles(24))
                                    && c1 == common::move_flags_outcome(m3, v, 24).0,
                            },
                    },
            }
}

/// MOVE to memory: the value is written, then N and Z are set from it.
pub fn move_32_pd_di(core: &mut ConfiguredCore) -> (r: Result<Cycles>)
    requires
        old(core).wf(),
    ensures
        final(core).wf(),
        move_32_pd_di_effect(*old(core), *final(core), r),
{
    let ghost c0 = *core;
    let src = operator::ay_di_32(core);
    let ghost m1 = *core;
    assert(operator::ay_di_32_rel(c0, m1, src));
    let v = match src {
        Err(e) => {
            return Err(e);
        },
        Ok(v) => v,
    };
    let m = v;
    let ea = effective_address::predecrement_ax_32(core);
    let ghost m2 = *core;
    assert(effective_address::predecrement_ax_32_rel(m1, m2, ea));
    let a = match ea {
        Err(e) => {
            return Err(e);
        },
        Ok(a) => a,
    };
    let w = write_sized(core, 32, a, m);
    let ghost m3 = *core;
    assert(data_written(m2, m3, 32, a, m, w));
    match w {
        Err(e) => Err(e),
        Ok(()) => {
            common::move_flags(core, m, 24);
            Ok(Cycles(24))
        },
    }
}

/// What `move_32_di_di` does: the core goes from `c0` to `c1` and `r` comes back.
pub open spec fn move_32_di_di_effect(c0: ConfiguredCore, c1: ConfiguredCore, r: Result<Cycles>) -> bool {
    &&& exists|m1: ConfiguredCore, src: Result<u32>|
            #[trigger] operator::ay_di_32_rel(c0, m1, src) && match src {
                Err(e) => r == Err::<Cycles, Exception>(e) && c1 == m1,
                Ok(v) => exists|m2: ConfiguredCore, ea: Result<u32>|
                    #[trigger] effective_address::displacement_ax_rel(m1, m2, ea) && match ea {
                        Err(e) => r == Err::<Cycles, Exception>(e) && c1 == m2,
                        Ok(a) => exists|m3: ConfiguredCore, w: Result<()>|
                            #[trigger] data_written(m2, m3, 32, a, v, w) && match w {
                                Err(e) => r == Err::<Cycles, Exception>(e) && c1 == m3,
                                Ok(_) => r == Ok::<Cycles, Exception>(Cycles(28))
                                    && c1 == common::move_flags_outcome(m3, v, 24).0,
                            },
                    },
            }
}

/// MOVE to memory: the value is written, then N and Z are set from it.
pub fn move_32_di_di(core: &mut ConfiguredCore) -> (r: Result<Cycles>)
    requires
        old(core).wf(),
    ensures
        final(core).wf(),
        move_32_di_di_effect(*old(core), *final(core), r),
{
    let ghost c0 = *core;
    let src = operator::ay_di_32(core);
    let ghost m1 = *core;
    assert(operator::ay_di_32_rel(c0, m1, src));
    let v = match src {
        Err(e) => {
            return Err(e);
        },
        Ok(v) => v,
    };
    let m = v;
    let ea = effective_address::displacement_ax(core);
    let ghost m2 = *core;
    assert(effective_address::displacement_ax_rel(m1, m2, ea));
    let a = match ea {
        Err(e) => {
            return Err(e);
        },
        Ok(a) => a,
    };
    let w = write_sized(core, 32, a, m);
    let ghost m3 = *core;
    assert(data_written(m2, m3, 32, a, m, w));
    match w {
        Err(e) => Err(e),
        Ok(()) => {
            common::move_flags(core, m, 24);
            Ok(Cycles(28))
        },
    }
}

/// What `move_32_ix_di` does: the core goes from `c0` to `c1` and `r` comes back.
pub open spec fn move_32_ix_di_effect(c0: ConfiguredCore, c1: ConfiguredCore, r: Result<Cycles>) -> bool {
    &&& exists|m1: ConfiguredCore, src: Result<u32>|
            #[trigger] operator::ay_di_32_rel(c0, m1, src) && match src {
                Err(e) => r == Err::<Cycles, Exception>(e) && c1 == m1,
                Ok(v) => exists|m2: ConfiguredCore, ea: Result<u32>|
                    #[trigger] effective_address::index_ax_rel(m1, m2, ea) && match ea {
                        Err(e) => r == Err::<Cycles, Exception>(e) && c1 == m2,
                        Ok(a) => exists|m3: ConfiguredCore, w: Result<()>|
                            #[trigger] data_written(m2, m3, 32, a, v, w) && match w {
                                Err(e) => r == Err::<Cycles, Exception>(e) && c1 == m3,
                                Ok(_) => r == Ok::<Cycles, Exception>(Cycles(30))
                                    && c1 == common::move_flags_outcome(m3, v, 24).0,
                            },
                    },
            }
}

/// MOVE to memory: the value is written, then N and Z are set from it.
pub fn move_32_ix_di(core: &mut ConfiguredCore) -> (r: Result<Cycles>)
    requires
        old(core).wf(),
    ensures
        final(core).wf(),
        move_32_ix_di_effect(*old(core), *final(core), r),
{
    let ghost c0 = *core;
    let src = operator::ay_di_32(core);
    let ghost m1 = *core;
    assert(operator::ay_di_32_rel(c0, m1, src));
    let v = match src {
        Err(e) => {
            return Err(e);
        },
        Ok(v) => v,
    };
    let m = v;
    let ea = effective_address::index_ax(core);
    let ghost m2 = *core;
    assert(effective_address::index_ax_rel(m1, m2, ea));
    let a = match ea {
        Err(e) => {
            return Err(e);
        },
        Ok(a) => a,
    };
    let w = write_sized(core, 32, a, m);
    let ghost m3 = *core;
    assert(data_written(m2, m3, 32, a, m, w));
    match w {
        Err(e) => Err(e),
        Ok(()) => {
            common::move_flags(core, m, 24);
            Ok(Cycles(30))
        },
    }
}

/// What `move_32_aw_di` does: the core goes from `c0` to `c1` and `r` comes back.
pub open spec fn move_32_aw_di_effect(c0: ConfiguredCore, c1: ConfiguredCore, r: Result<Cycles>) -> bool {
    &&& exists|m1: ConfiguredCore, src: Result<u32>|
            #[trigger] operator::ay_di_32_rel(c0, m1, src) && match src {
                Err(e) => r == Err::<Cycles, Exception>(e) && c1 == m1,
                Ok(v) => exists|m2: ConfiguredCore, ea: Result<u32>|
                    #[trigger] effective_address::absolute_word_rel(m1, m2, ea) && match ea {
                        Err(e) => r == Err::<Cycles, Exception>(e) && c1 == m2,
                        Ok(a) => exists|m3: ConfiguredCore, w: Result<()>|
                            #[trigger] data_written(m2, m3, 32, a, v, w) && match w {
                                Err(e) => r == Err::<Cycles, Exception>(e) && c1 == m3,
                                Ok(_) => r == Ok::<Cycles, Exception>(Cycles(28))
                                    && c1 == common::move_flags_outcome(m3, v, 24).0,
                            },
                    },
            }
}

/// MOVE to memory: the value is written, then N and Z are set from it.
pub fn move_32_aw_di(core: &mut ConfiguredCore) -> (r: Result<Cycles>)
    requires
        old(core).wf(),
    ensures
        final(core).wf(),
        move_32_aw_di_effect(*old(core), *final(core), r),
{
    let ghost c0 = *core;
    let src = operator::ay_di_32(core);
    let ghost m1 = *core;
    assert(operator::ay_di_32_rel(c0, m1, src));
    let v = match src {
        Err(e) => {
            return Err(e);
        },
        Ok(v) => v,
    };
    let m = v;
    let ea = effective_address::absolute_word(core);
    let ghost m2 = *core;
    assert(effective_address::absolute_word_rel(m1, m2, ea));
    let a = match ea {
        Err(e) => {
            return Err(e);
        },
        Ok(a) => a,
    };
    let w = write_sized(core, 32, a, m);
    let ghost m3 = *core;
    assert(data_written(m2, m3, 32, a, m, w));
    match w {
        Err(e) => Err(e),
        Ok(()) => {
            common::move_flags(core, m, 24);
            Ok(Cycles(28))
        },
    }
}

/// What `move_32_al_di` does: the core goes from `c0` to `c1` and `r` comes back.
pub open spec fn move_32_al_di_effect(c0: ConfiguredCore, c1: ConfiguredCore, r: Result<Cycles>) -> bool {
    &&& exists|m1: ConfiguredCore, src: Result<u32>|
            #[trigger] operator::ay_di_32_rel(c0, m1, src) && match src {
                Err(e) => r == Err::<Cycles, Exception>(e) && c1 == m1,
                Ok(v) => exists|m2: ConfiguredCore, ea: Result<u32>|
                    #[trigger] effective_address::absolute_long_rel(m1, m2, ea) && match ea {
                        Err(e) => r == Err::<Cycles, Exception>(e) && c1 == m2,
                        Ok(a) => exists|m3: ConfiguredCore, w: Result<()>|
                            #[trigger] data_written(m2, m3, 32, a, v, w) && match w {
                                Err(e) => r == Err::<Cycles, Exception>(e) && c1 == m3,
                                Ok(_) => r == Ok::<Cycles, Exception>(Cycles(32))
                                    && c1 == common::move_flags_outcome(m3, v, 24).0,
                            },
                    },
            }
}

/// MOVE to memory: the value is written, then N and Z are set from it.
pub fn move_32_al_di(core: &mut ConfiguredCore) -> (r: Result<Cycles>)
    requires
        old(core).wf(),
    ensures
        final(core).wf(),
        move_32_al_di_effect(*old(core), *final(core), r),
{
    let ghost c0 = *core;
    let src = operator::ay_di_32(core);
    let ghost m1 = *core;
    assert(operator::ay_di_32_rel(c0, m1, src));
    let v = match src {
        Err(e) => {
            return Err(e);
        },
        Ok(v) => v,
    };
    let m = v;
    let ea = effective_address::absolute_long(core);
    let ghost m2 = *core;
    assert(effective_address::absolute_long_rel(m1, m2, ea));
    let a = match ea {
        Err(e) => {
            return Err(e);
        },
        Ok(a) => a,
    };
    let w = write_sized(core, 32, a, m);
    let ghost m3 = *core;
    assert(data_written(m2, m3, 32, a, m, w));
    match w {
        Err(e) => Err(e),
        Ok(()) => {
            common::move_flags(core, m, 24);
            Ok(Cycles(32))
        },
    }
}

/// What `move_32_dn_ix` does: the core goes from `c0` to `c1` and `r` comes back.
pub open spec fn move_32_dn_ix_effect(c0: ConfiguredCore, c1: ConfiguredCore, r: Result<Cycles>) -> bool {
    &&& exists|mid: ConfiguredCore, src: Result<u32>|
            #[trigger] operator::ay_ix_32_rel(c0, mid, src) && match src {
                Err(e) => r == Err::<Cycles, Exception>(e) && c1 == mid,
                Ok(v) => {
                    let m = v;
                    let reg = ir_dx(mid.ir);
                    &&& r == Ok::<Cycles, Exception>(Cycles(18))
                    &&& reg_set(common::move_flags_outcome(mid, m, 24).0, c1, reg, merged(mid.dar[reg], m, 32))
                },
            }
}

/// MOVE into Dx, with N and Z set from the value moved.
pub fn move_32_dn_ix(core: &mut ConfiguredCore) -> (r: Result<Cycles>)
    requires
        old(core).wf(),
    ensures
        final(core).wf(),
        move_32_dn_ix_effect(*old(core), *final(core), r),
{
    let ghost c0 = *core;
    let src = operator::ay_ix_32(core);
    let ghost mid = *core;
    assert(operator::ay_ix_32_rel(c0, mid, src));
    match src {
        Err(e) => Err(e),
        Ok(v) => {
            let m = v;
            let reg = reg_dx(core.ir);
            let dst = core.dar[reg];
            common::move_flags(core, m, 24);
            set_reg(core, reg, merge(dst, m, 32));
            Ok(Cycles(18))
        },
    }
}

/// What `move_32_ai_ix` does: the core goes from `c0` to `c1` and `r` comes back.
pub open spec fn move_32_ai_ix_effect(c0: ConfiguredCore, c1: ConfiguredCore, r: Result<Cycles>) -> bool {
    &&& exists|m1: ConfiguredCore, src: Result<u32>|
            #[trigger] operator::ay_ix_32_rel(c0, m1, src) && match src {
                Err(e) => r == Err::<Cycles, Exception>(e) && c1 == m1,
                Ok(v) => exists|m2: ConfiguredCore, ea: Result<u32>|
                    #[trigger] effective_address::address_indirect_ax_rel(m1, m2, ea) && match ea {
                        Err(e) => r == Err::<Cycles, Exception>(e) && c1 == m2,
                        Ok(a) => exists|m3: ConfiguredCore, w: Result<()>|
                            #[trigger] data_written(m2, m3, 32, a, v, w) && match w {
                                Err(e) => r == Err::<Cycles, Exception>(e) && c1 == m3,
                                Ok(_) => r == Ok::<Cycles, Exception>(Cycles(26))
                                    && c1 == common::move_flags_outcome(m3, v, 24).0,
                            },
                    },
            }
}

/// MOVE to memory: the value is written, then N and Z are set from it.
pub fn move_32_ai_ix(core: &mut ConfiguredCore) -> (r: Result<Cycles>)
    requires
        old(core).wf(),
    ensures
        final(core).wf(),
        move_32_ai_ix_effect(*old(core), *final(core), r),
{
    let ghost c0 = *core;
    let src = operator::ay_ix_32(core);
    let ghost m1 = *core;
    assert(operator::ay_ix_32_rel(c0, m1, src));
    let v = match src {
        Err(e) => {
            return Err(e);
        },
        Ok(v) => v,
    };
    let m = v;
    let ea = effective_address::address_indirect_ax(core);
    let ghost m2 = *core;
    assert(effective_address::address_indirect_ax_rel(m1, m2, ea));
    let a = match ea {
        Err(e) => {
            return Err(e);
        },
        Ok(a) => a,
    };
    let w = write_sized(core, 32, a, m);
    let ghost m3 = *core;
    assert(data_written(m2, m3, 32, a, m, w));
    match w {
        Err(e) => Err(e),
        Ok(()) => {
            common::move_flags(core, m, 24);
            Ok(Cycles(26))
        },
    }
}

/// What `move_32_pi_ix` does: the core goes from `c0` to `c1` and `r` comes back.
pub open spec fn move_32_pi_ix_effect(c0: ConfiguredCore, c1: ConfiguredCore, r: Result<Cycles>) -> bool {
    &&& exists|m1: ConfiguredCore, src: Result<u32>|
            #[trigger] operator::ay_ix_32_rel(c0, m1, src) && match src {
                Err(e) => r == Err::<Cycles, Exception>(e) && c1 == m1,
                Ok(v) => exists|m2: ConfiguredCore, ea: Result<u32>|
                    #[trigger] effective_address::postincrement_ax_32_rel(m1, m2, ea) && match ea {
                        Err(e) => r == Err::<Cycles, Exception>(e) && c1 == m2,
                        Ok(a) => exists|m3: ConfiguredCore, w: Result<()>|
                            #[trigger] data_written(m2, m3, 32, a, v, w) && match w {
                                Err(e) => r == Err::<Cycles, Exception>(e) && c1 == m3,
                                Ok(_) => r == Ok::<Cycles, Exception>(Cycles(26))
                                    && c1 == common::move_flags_outcome(m3, v, 24).0,
                            },
                    },
            }
}

/// MOVE to memory: the value is written, then N and Z are set from it.
pub fn move_32_pi_ix(core: &mut ConfiguredCore) -> (r: Result<Cycles>)
    requires
        old(core).wf(),
    ensures
        final(core).wf(),
        move_32_pi_ix_effect(*old(core), *final(core), r),
{
    let ghost c0 = *core;
    let src = operator::ay_ix_32(core);
    let ghost m1 = *core;
    assert(operator::ay_ix_32_rel(c0, m1, src));
    let v = match src {
        Err(e) => {
            return Err(e);
        },
        Ok(v) => v,
    };
    let m = v;
    let ea = effective_address::postincrement_ax_32(core);
    let ghost m2 = *core;
    assert(effective_address::postincrement_ax_32_rel(m1, m2, ea));
    let a = match ea {
        Err(e) => {
            return Err(e);
        },
        Ok(a) => a,
    };
    let w = write_sized(core, 32, a, m);
    let ghost m3 = *core;
    assert(data_written(m2, m3, 32, a, m, w));
    match w {
        Err(e) => Err(e),
        Ok(()) => {
            common::move_flags(core, m, 24);
            Ok(Cycles(26))
        },
    }
}

/// What `move_32_pd_ix` does: the core goes from `c0` to `c1` and `r` comes back.
pub open spec fn move_32_pd_ix_effect(c0: ConfiguredCore, c1: ConfiguredCore, r: Result<Cycles>) -> bool {
    &&& exists|m1: ConfiguredCore, src: Result<u32>|
            #[trigger] operator::ay_ix_32_rel(c0, m1, src) && match src {
                Err(e) => r == Err::<Cycles, Exception>(e) && c1 == m1,
                Ok(v) => exists|m2: ConfiguredCore, ea: Result<u32>|
                    #[trigger] effective_address::predecrement_ax_32_rel(m1, m2, ea) && match ea {
                        Err(e) => r == Err::<Cycles, Exception>(e) && c1 == m2,
                        Ok(a) => exists|m3: ConfiguredCore, w: Result<()>|
                            #[trigger] data_written(m2, m3, 32, a, v, w) && match w {
                                Err(e) => r == Err::<Cycles, Exception>(e) && c1 == m3,
                                Ok(_) => r == Ok::<Cycles, Exception>(Cycles(26))
                                    && c1 == common::move_flags_outcome(m3, v, 24).0,
                            },
                    },
            }
}

/// MOVE to memory: the value is written, then N and Z are set from it.
pub fn move_32_pd_ix(core: &mut ConfiguredCore) -> (r: Result<Cycles>)
    requires
        old(core).wf(),
    ensures
        final(core).wf(),
        move_32_pd_ix_effect(*old(core), *final(core), r),
{
    let ghost c0 = *core;
    let src = operator::ay_ix_32(core);
    let ghost m1 = *core;
    assert(operator::ay_ix_32_rel(c0, m1, src));
    let v = match src {
        Err(e) => {
            return Err(e);
        },
        Ok(v) => v,
    };
    let m = v;
    let ea = effective_address::predecrement_ax_32(core);
    let ghost m2 = *core;
    assert(effective_address::predecrement_ax_32_rel(m1, m2, ea));
    let a = match ea {
        Err(e) => {
            return Err(e);
        },
        Ok(a) => a,
    };
    let w = write_sized(core, 32, a, m);
    let ghost m3 = *core;
    assert(data_written(m2, m3, 32, a, m, w));
    match w {
        Err(e) => Err(e),
        Ok(()) => {
            common::move_flags(core, m, 24);
            Ok(Cycles(26))
        },
    }
}

/// What `move_32_di_ix` does: the core goes from `c0` to `c1` and `r` comes back.
pub open spec fn move_32_di_ix_effect(c0: ConfiguredCore, c1: ConfiguredCore, r: Result<Cycles>) -> bool {
    &&& exists|m1: ConfiguredCore, src: Result<u32>|
            #[trigger] operator::ay_ix_32_rel(c0, m1, src) && match src {
                Err(e) => r == Err::<Cycles, Exception>(e) && c1 == m1,
                Ok(v) => exists|m2: ConfiguredCore, ea: Result<u32>|
                    #[trigger] effective_address::displacement_ax_rel(m1, m2, ea) && match ea {
                        Err(e) => r == Err::<Cycles, Exception>(e) && c1 == m2,
                        Ok(a) => exists|m3: ConfiguredCore, w: Result<()>|
                            #[trigger] data_written(m2, m3, 32, a, v, w) && match w {
                                Err(e) => r == Err::<Cycles, Exception>(e) && c1 == m3,
                                Ok(_) => r == Ok::<Cycles, Exception>(Cycles(30))
                                    && c1 == common::move_flags_outcome(m3, v, 24).0,
                            },
                    },
            }
}

/// MOVE to memory: the value is written, then N and Z are set from it.
pub fn move_32_di_ix(core: &mut ConfiguredCore) -> (r: Result<Cycles>)
    requires
        old(core).wf(),
    ensures
        final(core).wf(),
        move_32_di_ix_effect(*old(core), *final(core), r),
{
    let ghost c0 = *core;
    let src = operator::ay_ix_32(core);
    let ghost m1 = *core;
    assert(operator::ay_ix_32_rel(c0, m1, src));
    let v = match src {
        Err(e) => {
            return Err(e);
        },
        Ok(v) => v,
    };
    let m = v;
    let ea = effective_address::displacement_ax(core);
    let ghost m2 = *core;
    assert(effective_address::displacement_ax_rel(m1, m2, ea));
    let a = match ea {
        Err(e) => {
            return Err(e);
        },
        Ok(a) => a,
    };
    let w = write_sized(core, 32, a, m);
    let ghost m3 = *core;
    assert(data_written(m2, m3, 32, a, m, w));
    match w {
        Err(e) => Err(e),
        Ok(()) => {
            common::move_flags(core, m, 24);
            Ok(Cycles(30))
        },
    }
}

/// What `move_32_ix_ix` does: the core goes from `c0` to `c1` and `r` comes back.
pub open spec fn move_32_ix_ix_effect(c0: ConfiguredCore, c1: ConfiguredCore, r: Result<Cycles>) -> bool {
    &&& exists|m1: ConfiguredCore, src: Result<u32>|
            #[trigger] operator::ay_ix_32_rel(c0, m1, src) && match src {
                Err(e) => r == Err::<Cycles, Exception>(e) && c1 == m1,
                Ok(v) => exists|m2: ConfiguredCore, ea: Result<u32>|
                    #[trigger] effective_address::index_ax_rel(m1, m2, ea) && match ea {
                        Err(e) => r == Err::<Cycles, Exception>(e) && c1 == m2,
                        Ok(a) => exists|m3: ConfiguredCore, w: Result<()>|
                            #[trigger] data_written(m2, m3, 32, a, v, w) && match w {
                                Err(e) => r == Err::<Cycles, Exception>(e) && c1 == m3,
                                Ok(_) => r == Ok::<Cycles, Exception>(Cycles(32))
                                    && c1 == common::move_flags_outcome(m3, v, 24).0,
                            },
                    },
            }
}

/// MOVE to memory: the value is written, then N and Z are set from it.
pub fn move_32_ix_ix(core: &mut ConfiguredCore) -> (r: Result<Cycles>)
    requires
        old(core).wf(),
    ensures
        final(core).wf(),
        move_32_ix_ix_effect(*old(core), *final(core), r),
{
    let ghost c0 = *core;
    let src = operator::ay_ix_32(core);
    let ghost m1 = *core;
    assert(operator::ay_ix_32_rel(c0, m1, src));
    let v = match src {
        Err(e) => {
            return Err(e);
        },
        Ok(v) => v,
    };
    let m = v;
    let ea = effective_address::index_ax(core);
    let ghost m2 = *core;
    assert(effective_address::index_ax_rel(m1, m2, ea));
    let a = match ea {
        Err(e) => {
            return Err(e);
        },
        Ok(a) => a,
    };
    let w = write_sized(core, 32, a, m);
    let ghost m3 = *core;
    assert(data_written(m2, m3, 32, a, m, w));
    match w {
        Err(e) => Err(e),
        Ok(()) => {
            common::move_flags(core, m, 24);
            Ok(Cycles(32))
        },
    }
}

/// What `move_32_aw_ix` does: the core goes from `c0` to `c1` and `r` comes back.
pub open spec fn move_32_aw_ix_effect(c0: ConfiguredCore, c1: ConfiguredCore, r: Result<Cycles>) -> bool {
    &&& exists|m1: ConfiguredCore, src: Result<u32>|
            #[trigger] operator::ay_ix_32_rel(c0, m1, src) && match src {
                Err(e) => r == Err::<Cycles, Exception>(e) && c1 == m1,
                Ok(v) => exists|m2: ConfiguredCore, ea: Result<u32>|
                    #[trigger] effective_address::absolute_word_rel(m1, m2, ea) && match ea {
                        Err(e) => r == Err::<Cycles, Exception>(e) && c1 == m2,
                        Ok(a) => exists|m3: ConfiguredCore, w: Result<()>|
                            #[trigger] data_written(m2, m3, 32, a, v, w) && match w {
                                Err(e) => r == Err::<Cycles, Exception>(e) && c1 == m3,
                                Ok(_) => r == Ok::<Cycles, Exception>(Cycles(30))
                                    && c1 == common::move_flags_outcome(m3, v, 24).0,
                            },
                    },
            }
}

/// MOVE to memory: the value is written, then N and Z are set from it.
pub fn move_32_aw_ix(core: &mut ConfiguredCore) -> (r: Result<Cycles>)
    requires
        old(core).wf(),
    ensures
        final(core).wf(),
        move_32_aw_ix_effect(*old(core), *final(core), r),
{
    let ghost c0 = *core;
    let src = operator::ay_ix_32(core);
    let ghost m1 = *core;
    assert(operator::ay_ix_32_rel(c0, m1, src));
    let v = match src {
        Err(e) => {
            return Err(e);
        },
        Ok(v) => v,
    };
    let m = v;
    let ea = effective_address::absolute_word(core);
    let ghost m2 = *core;
    assert(effective_address::absolute_word_rel(m1, m2, ea));
    let a = match ea {
        Err(e) => {
            return Err(e);
        },
        Ok(a) => a,
    };
    let w = write_sized(core, 32, a, m);
    let ghost m3 = *core;
    assert(data_written(m2, m3, 32, a, m, w));
    match w {
        Err(e) => Err(e),
        Ok(()) => {
            common::move_flags(core, m, 24);
            Ok(Cycles(30))
        },
    }
}

/// What `move_32_al_ix` does: the core goes from `c0` to `c1` and `r` comes back.
pub open spec fn move_32_al_ix_effect(c0: ConfiguredCore, c1: ConfiguredCore, r: Result<Cycles>) -> bool {
    &&& exists|m1: ConfiguredCore, src: Result<u32>|
            #[trigger] operator::ay_ix_32_rel(c0, m1, src) && match src {
                Err(e) => r == Err::<Cycles, Exception>(e) && c1 == m1,
                Ok(v) => exists|m2: ConfiguredCore, ea: Result<u32>|
                    #[trigger] effective_address::absolute_long_rel(m1, m2, ea) && match ea {
                        Err(e) => r == Err::<Cycles, Exception>(e) && c1 == m2,
                        Ok(a) => exists|m3: ConfiguredCore, w: Result<()>|
                            #[trigger] data_written(m2, m3, 32, a, v, w) && match w {
                                Err(e) => r == Err::<Cycles, Exception>(e) && c1 == m3,
                                Ok(_) => r == Ok::<Cycles, Exception>(Cycles(34))
                                    && c1 == common::move_flags_outcome(m3, v, 24).0,
                            },
                    },
            }
}

/// MOVE to memory: the value is written, then N and Z are set from it.
pub fn move_32_al_ix(core: &mut ConfiguredCore) -> (r: Result<Cycles>)
    requires
        old(core).wf(),
    ensures
        final(core).wf(),
        move_32_al_ix_effect(*old(core), *final(core), r),
{
    let ghost c0 = *core;
    let src = operator::ay_ix_32(core);
    let ghost m1 = *core;
    assert(operator::ay_ix_32_rel(c0, m1, src));
    let v = match src {
        Err(e) => {
            return Err(e);
        },
        Ok(v) => v,
    };
    let m = v;
    let ea = effective_address::absolute_long(core);
    let ghost m2 = *core;
    assert(effective_address::absolute_long_rel(m1, m2, ea));
    let a = match ea {
        Err(e) => {
            return Err(e);
        },
        Ok(a) => a,
    };
    let w = write_sized(core, 32, a, m);
    let ghost m3 = *core;
    assert(data_written(m2, m3, 32, a, m, w));
    match w {
        Err(e) => Err(e),
        Ok(()) => {
            common::move_flags(core, m, 24);
            Ok(Cycles(34))
        },
    }
}

/// What `move_32_dn_aw` does: the core goes from `c0` to `c1` and `r` comes back.
pub open spec fn move_32_dn_aw_effect(c0: ConfiguredCore, c1: ConfiguredCore, r: Result<Cycles>) -> bool {
    &&& exists|mid: ConfiguredCore, src: Result<u32>|
            #[trigger] operator::aw_32_rel(c0, mid, src) && match src {
                Err(e) => r == Err::<Cycles, Exception>(e) && c1 == mid,
                Ok(v) => {
                    let m = v;
                    let reg = ir_dx(mid.ir);
                    &&& r == Ok::<Cycles, Exception>(Cycles(16))
                    &&& reg_set(common::move_flags_outcome(mid, m, 24).0, c1, reg, merged(mid.dar[reg], m, 32))
                },
            }
}

/// MOVE into Dx, with N and Z set from the value moved.
pub fn move_32_dn_aw(core: &mut ConfiguredCore) -> (r: Result<Cycles>)
    requires
        old(core).wf(),
    ensures
        final(core).wf(),
        move_32_dn_aw_effect(*old(core), *final(core), r),
{
    let ghost c0 = *core;
    let src = operator::aw_32(core);
    let ghost mid = *core;
    assert(operator::aw_32_rel(c0, mid, src));
    match src {
        Err(e) => Err(e),
        Ok(v) => {
            let m = v;
            let reg = reg_dx(core.ir);
            let dst = core.dar[reg];
            common::move_flags(core, m, 24);
            set_reg(core, reg, merge(dst, m, 32));
            Ok(Cycles(16))
        },
    }
}

/// What `move_32_ai_aw` does: the core goes from `c0` to `c1` and `r` comes back.
pub open spec fn move_32_ai_aw_effect(c0: ConfiguredCore, c1: ConfiguredCore, r: Result<Cycles>) -> bool {
    &&& exists|m1: ConfiguredCore, src: Result<u32>|
            #[trigger] operator::aw_32_rel(c0, m1, src) && match src {
                Err(e) => r == Err::<Cycles, Exception>(e) && c1 == m1,
                Ok(v) => exists|m2: ConfiguredCore, ea: Result<u32>|
                    #[trigger] effective_address::address_indirect_ax_rel(m1, m2, ea) && match ea {
                        Err(e) => r == Err::<Cycles, Exception>(e) && c1 == m2,
                        Ok(a) => exists|m3: ConfiguredCore, w: Result<()>|
                            #[trigger] data_written(m2, m3, 32, a, v, w) && match w {
                                Err(e) => r == Err::<Cycles, Exception>(e) && c1 == m3,
                                Ok(_) => r == Ok::<Cycles, Exception>(Cycles(24))
                                    && c1 == common::move_flags_outcome(m3, v, 24).0,
                            },
                    },
            }
}

/// MOVE to memory: the value is written, then N and Z are set from it.
pub fn move_32_ai_aw(core: &mut ConfiguredCore) -> (r: Result<Cycles>)
    requires
        old(core).wf(),
    ensures
        final(core).wf(),
        move_32_ai_aw_effect(*old(core), *final(core), r),
{
    let ghost c0 = *core;
    let src = operator::aw_32(core);
    let ghost m1 = *core;
    assert(operator::aw_32_rel(c0, m1, src));
    let v = match src {
        Err(e) => {
            return Err(e);
        },
        Ok(v) => v,
    };
    let m = v;
    let ea = effective_address::address_indirect_ax(core);
    let ghost m2 = *core;
    assert(effective_address::address_indirect_ax_rel(m1, m2, ea));
    let a = match ea {
        Err(e) => {
            return Err(e);
        },
        Ok(a) => a,
    };
    let w = write_sized(core, 32, a, m);
    let ghost m3 = *core;
    assert(data_written(m2, m3, 32, a, m, w));
    match w {
        Err(e) => Err(e),
        Ok(()) => {
            common::move_flags(core, m, 24);
            Ok(Cycles(24))
        },
    }
}

/// What `move_32_pi_aw` does: the core goes from `c0` to `c1` and `r` comes back.
pub open spec fn move_32_pi_aw_effect(c0: ConfiguredCore, c1: ConfiguredCore, r: Result<Cycles>) -> bool {
    &&& exists|m1: ConfiguredCore, src: Result<u32>|
            #[trigger] operator::aw_32_rel(c0, m1, src) && match src {
                Err(e) => r == Err::<Cycles, Exception>(e) && c1 == m1,
                Ok(v) => exists|m2: ConfiguredCore, ea: Result<u32>|
                    #[trigger] effective_address::postincrement_ax_32_rel(m1, m2, ea) && match ea {
                        Err(e) => r == Err::<Cycles, Exception>(e) && c1 == m2,
                        Ok(a) => exists|m3: ConfiguredCore, w: Result<()>|
                            #[trigger] data_written(m2, m3, 32, a, v, w) && match w {
                                Err(e) => r == Err::<Cycles, Exception>(e) && c1 == m3,
                                Ok(_) => r == Ok::<Cycles, Exception>(Cycles(24))
                                    && c1 == common::move_flags_outcome(m3, v, 24).0,
                            },
                    },
            }
}

/// MOVE to memory: the value is written, then N and Z are set from it.
pub fn move_32_pi_aw(core: &mut ConfiguredCore) -> (r: Result<Cycles>)
    requires
        old(core).wf(),
    ensures
        final(core).wf(),
        move_32_pi_aw_effect(*old(core), *final(core), r),
{
    let ghost c0 = *core;
    let src = operator::aw_32(core);
    let ghost m1 = *core;
    assert(operator::aw_32_rel(c0, m1, src));
    let v = match src {
        Err(e) => {
            return Err(e);
        },
        Ok(v) => v,
    };
    let m = v;
    let ea = effective_address::postincrement_ax_32(core);
    let ghost m2 = *core;
    assert(effective_address::postincrement_ax_32_rel(m1, m2, ea));
    let a = match ea {
        Err(e) => {
            return Err(e);
        },
        Ok(a) => a,
    };
    let w = write_sized(core, 32, a, m);
    let ghost m3 = *core;
    assert(data_written(m2, m3, 32, a, m, w));
    match w {
        Err(e) => Err(e),
        Ok(()) => {
            common::move_flags(core, m, 24);
            Ok(Cycles(24))
        },
    }
}

/// What `move_32_pd_aw` does: the core goes from `c0` to `c1` and `r` comes back.
pub open spec fn move_32_pd_aw_effect(c0: ConfiguredCore, c1: ConfiguredCore, r: Result<Cycles>) -> bool {
    &&& exists|m1: ConfiguredCore, src: Result<u32>|
            #[trigger] operator::aw_32_rel(c0, m1, src) && match src {
                Err(e) => r == Err::<Cycles, Exception>(e) && c1 == m1,
                Ok(v) => exists|m2: ConfiguredCore, ea: Result<u32>|
                    #[trigger] effective_address::predecrement_ax_32_rel(m1, m2, ea) && match ea {
                        Err(e) => r == Err::<Cycles, Exception>(e) && c1 == m2,
                        Ok(a) => exists|m3: ConfiguredCore, w: Result<()>|
                            #[trigger] data_written(m2, m3, 32, a, v, w) && match w {
                                Err(e) => r == Err::<Cycles, Exception>(e) && c1 == m3,
                                Ok(_) => r == Ok::<Cycles, Exception>(Cycles(24))
                                    && c1 == common::move_flags_outcome(m3, v, 24).0,
                            },
                    },
            }
}

/// MOVE to memory: the value is written, then N and Z are set from it.
pub fn move_32_pd_aw(core: &mut ConfiguredCore) -> (r: Result<Cycles>)
    requires
        old(core).wf(),
    ensures
        final(core).wf(),
        move_32_pd_aw_effect(*old(core), *final(core), r),
{
    let ghost c0 = *core;
    let src = operator::aw_32(core);
    let ghost m1 = *core;
    assert(operator::aw_32_rel(c0, m1, src));
    let v = match src {
        Err(e) => {
            return Err(e);
        },
        Ok(v) => v,
    };
    let m = v;
    let ea = effective_address::predecrement_ax_32(core);
    let ghost m2 = *core;
    assert(effective_address::predecrement_ax_32_rel(m1, m2, ea));
    let a = match ea {
        Err(e) => {
            return Err(e);
        },
        Ok(a) => a,
    };
    let w = write_sized(core, 32, a, m);
    let ghost m3 = *core;
    assert(data_written(m2, m3, 32, a, m, w));
    match w {
        Err(e) => Err(e),
        Ok(()) => {
            common::move_flags(core, m, 24);
            Ok(Cycles(24))
        },
    }
}

/// What `move_32_di_aw` does: the core goes from `c0` to `c1` and `r` comes back.
pub open spec fn move_32_di_aw_effect(c0: ConfiguredCore, c1: ConfiguredCore, r: Result<Cycles>) -> bool {
    &&& exists|m1: ConfiguredCore, src: Result<u32>|
            #[trigger] operator::aw_32_rel(c0, m1, src) && match src {
                Err(e) => r == Err::<Cycles, Exception>(e) && c1 == m1,
                Ok(v) => exists|m2: ConfiguredCore, ea: Result<u32>|
                    #[trigger] effective_address::displacement_ax_rel(m1, m2, ea) && match ea {
                        Err(e) => r == Err::<Cycles, Exception>(e) && c1 == m2,
                        Ok(a) => exists|m3: ConfiguredCore, w: Result<()>|
                            #[trigger] data_written(m2, m3, 32, a, v, w) && match w {
                                Err(e) => r == Err::<Cycles, Exception>(e) && c1 == m3,
                                Ok(_) => r == Ok::<Cycles, Exception>(Cycles(28))
                                    && c1 == common::move_flags_outcome(m3, v, 24).0,
                            },
                    },
            }
}

/// MOVE to memory: the value is written, then N and Z are set from it.
pub fn move_32_di_aw(core: &mut ConfiguredCore) -> (r: Result<Cycles>)
    requires
        old(core).wf(),
    ensures
        final(core).wf(),
        move_32_di_aw_effect(*old(core), *final(core), r),
{
    let ghost c0 = *core;
    let src = operator::aw_32(core);
    let ghost m1 = *core;
    assert(operator::aw_32_rel(c0, m1, src));
    let v = match src {
        Err(e) => {
            return Err(e);
        },
        Ok(v) => v,
    };
    let m = v;
    let ea = effective_address::displacement_ax(core);
    let ghost m2 = *core;
    assert(effective_address::displacement_ax_rel(m1, m2, ea));
    let a = match ea {
        Err(e) => {
            return Err(e);
        },
        Ok(a) => a,
    };
    let w = write_sized(core, 32, a, m);
    let ghost m3 = *core;
    assert(data_written(m2, m3, 32, a, m, w));
    match w {
        Err(e) => Err(e),
        Ok(()) => {
            common::move_flags(core, m, 24);
            Ok(Cycles(28))
        },
    }
}

/// What `move_32_ix_aw` does: the core goes from `c0` to `c1` and `r` comes back.
pub open spec fn move_32_ix_aw_effect(c0: ConfiguredCore, c1: ConfiguredCore, r: Result<Cycles>) -> bool {
    &&& exists|m1: ConfiguredCore, src: Result<u32>|
            #[trigger] operator::aw_32_rel(c0, m1, src) && match src {
                Err(e) => r == Err::<Cycles, Exception>(e) && c1 == m1,
                Ok(v) => exists|m2: ConfiguredCore, ea: Result<u32>|
                    #[trigger] effective_address::index_ax_rel(m1, m2, ea) && match ea {
                        Err(e) => r == Err::<Cycles, Exception>(e) && c1 == m2,
                        Ok(a) => exists|m3: ConfiguredCore, w: Result<()>|
                            #[trigger] data_written(m2, m3, 32, a, v, w) && match w {
                                Err(e) => r == Err::<Cycles, Exception>(e) && c1 == m3,
                                Ok(_) => r == Ok::<Cycles, Exception>(Cycles(30))
                                    && c1 == common::move_flags_outcome(m3, v, 24).0,
                            },
                    },
            }
}

/// MOVE to memory: the value is written, then N and Z are set from it.
pub fn move_32_ix_aw(core: &mut ConfiguredCore) -> (r: Result<Cycles>)
    requires
        old(core).wf(),
    ensures
        final(core).wf(),
        move_32_ix_aw_effect(*old(core), *final(core), r),
{
    let ghost c0 = *core;
    let src = operator::aw_32(core);
    let ghost m1 = *core;
    assert(operator::aw_32_rel(c0, m1, src));
    let v = match src {
        Err(e) => {
            return Err(e);
        },
        Ok(v) => v,
    };
    let m = v;
    let ea = effective_address::index_ax(core);
    let ghost m2 = *core;
    assert(effective_address::index_ax_rel(m1, m2, ea));
    let a = match ea {
        Err(e) => {
            return Err(e);
        },
        Ok(a) => a,
    };
    let w = write_sized(core, 32, a, m);
    let ghost m3 = *core;
    assert(data_written(m2, m3, 32, a, m, w));
    match w {
        Err(e) => Err(e),
        Ok(()) => {
            common::move_flags(core, m, 24);
            Ok(Cycles(30))
        },
    }
}

/// What `move_32_aw_aw` does: the core goes from `c0` to `c1` and `r` comes back.
pub open spec fn move_32_aw_aw_effect(c0: ConfiguredCore, c1: ConfiguredCore, r: Result<Cycles>) -> bool {
    &&& exists|m1: ConfiguredCore, src: Result<u32>|
            #[trigger] operator::aw_32_rel(c0, m1, src) && match src {
                Err(e) => r == Err::<Cycles, Exception>(e) && c1 == m1,
                Ok(v) => exists|m2: ConfiguredCore, ea: Result<u32>|
                    #[trigger] effective_address::absolute_word_rel(m1, m2, ea) && match ea {
                        Err(e) => r == Err::<Cycles, Exception>(e) && c1 == m2,
                        Ok(a) => exists|m3: ConfiguredCore, w: Result<()>|
                            #[trigger] data_written(m2, m3, 32, a, v, w) && match w {
                                Err(e) => r == Err::<Cycles, Exception>(e) && c1 == m3,
                                Ok(_) => r == Ok::<Cycles, Exception>(Cycles(28))
                                    && c1 == common::move_flags_outcome(m3, v, 24).0,
                            },
                    },
            }
}

/// MOVE to memory: the value is written, then N and Z are set from it.
pub fn move_32_aw_aw(core: &mut ConfiguredCore) -> (r: Result<Cycles>)
    requires
        old(core).wf(),
    ensures
        final(core).wf(),
        move_32_aw_aw_effect(*old(core), *final(core), r),
{
    let ghost c0 = *core;
    let src = operator::aw_32(core);
    let ghost m1 = *core;
    assert(operator::aw_32_rel(c0, m1, src));
    let v = match src {
        Err(e) => {
            return Err(e);
        },
        Ok(v) => v,
    };
    let m = v;
    let ea = effective_address::absolute_word(core);
    let ghost m2 = *core;
    assert(effective_address::absolute_word_rel(m1, m2, ea));
    let a = match ea {
        Err(e) => {
            return Err(e);
        },
        Ok(a) => a,
    };
    let w = write_sized(core, 32, a, m);
    let ghost m3 = *core;
    assert(data_written(m2, m3, 32, a, m, w));
    match w {
        Err(e) => Err(e),
        Ok(()) => {
            common::move_flags(core, m, 24);
            Ok(Cycles(28))
        },
    }
}

/// What `move_32_al_aw` does: the core goes from `c0` to `c1` and `r` comes back.
pub open spec fn move_32_al_aw_effect(c0: ConfiguredCore, c1: ConfiguredCore, r: Result<Cycles>) -> bool {
    &&& exists|m1: ConfiguredCore, src: Result<u32>|
            #[trigger] operator::aw_32_rel(c0, m1, src) && match src {
                Err(e) => r == Err::<Cycles, Exception>(e) && c1 == m1,
                Ok(v) => exists|m2: ConfiguredCore, ea: Result<u32>|
                    #[trigger] effective_address::absolute_long_rel(m1, m2, ea) && match ea {
                        Err(e) => r == Err::<Cycles, Exception>(e) && c1 == m2,
                        Ok(a) => exists|m3: ConfiguredCore, w: Result<()>|
                            #[trigger] data_written(m2, m3, 32, a, v, w) && match w {
                                Err(e) => r == Err::<Cycles, Exception>(e) && c1 == m3,
                                Ok(_) => r == Ok::<Cycles, Exception>(Cycles(32))
                                    && c1 == common::move_flags_outcome(m3, v, 24).0,
                            },
                    },
            }
}

/// MOVE to memory: the value is written, then N and Z are set from it.
pub fn move_32_al_aw(core: &mut ConfiguredCore) -> (r: Result<Cycles>)
    requires
        old(core).wf(),
    ensures
        final(core).wf(),
        move_32_al_aw_effect(*old(core), *final(core), r),
{
    let ghost c0 = *core;
    let src = operator::aw_32(core);
    let ghost m1 = *core;
    assert(operator::aw_32_rel(c0, m1, src));
    let v = match src {
        Err(e) => {
            return Err(e);
        },
        Ok(v) => v,
    };
    let m = v;
    let ea = effective_address::absolute_long(core);
    let ghost m2 = *core;
    assert(effective_address::absolute_long_rel(m1, m2, ea));
    let a = match ea {
        Err(e) => {
            return Err(e);
        },
        Ok(a) => a,
    };
    let w = write_sized(core, 32, a, m);
    let ghost m3 = *core;
    assert(data_written(m2, m3, 32, a, m, w));
    match w {
        Err(e) => Err(e),
        Ok(()) => {
            common::move_flags(core, m, 24);
            Ok(Cycles(32))
        },
    }
}

/// What `move_32_dn_al` does: the core goes from `c0` to `c1` and `r` comes back.
pub open spec fn move_32_dn_al_effect(c0: ConfiguredCore, c1: ConfiguredCore, r: Result<Cycles>) -> bool {
    &&& exists|mid: ConfiguredCore, src: Result<u32>|
            #[trigger] operator::al_32_rel(c0, mid, src) && match src {
                Err(e) => r == Err::<Cycles, Exception>(e) && c1 == mid,
                Ok(v) => {
                    let m = v;
                    let reg = ir_dx(mid.ir);
                    &&& r == Ok::<Cycles, Exception>(Cycles(20))
                    &&& reg_set(common::move_flags_outcome(mid, m, 24).0, c1, reg, merged(mid.dar[reg], m, 32))
                },
            }
}

/// MOVE into Dx, with N and Z set from the value moved.
pub fn move_32_dn_al(core: &mut ConfiguredCore) -> (r: Result<Cycles>)
    requires
        old(core).wf(),
    ensures
        final(core).wf(),
        move_32_dn_al_effect(*old(core), *final(core), r),
{
    let ghost c0 = *core;
    let src = operator::al_32(core);
    let ghost mid = *core;
    assert(operator::al_32_rel(c0, mid, src));
    match src {
        Err(e) => Err(e),
        Ok(v) => {
            let m = v;
            let reg = reg_dx(core.ir);
            let dst = core.dar[reg];
            common::move_flags(core, m, 24);
            set_reg(core, reg, merge(dst, m, 32));
            Ok(Cycles(20))
        },
    }
}

/// What `move_32_ai_al` does: the core goes from `c0` to `c1` and `r` comes back.
pub open spec fn move_32_ai_al_effect(c0: ConfiguredCore, c1: ConfiguredCore, r: Result<Cycles>) -> bool {
    &&& exists|m1: ConfiguredCore, src: Result<u32>|
            #[trigger] operator::al_32_rel(c0, m1, src) && match src {
                Err(e) => r == Err::<Cycles, Exception>(e) && c1 == m1,
                Ok(v) => exists|m2: ConfiguredCore, ea: Result<u32>|
                    #[trigger] effective_address::address_indirect_ax_rel(m1, m2, ea) && match ea {
                        Err(e) => r == Err::<Cycles, Exception>(e) && c1 == m2,
                        Ok(a) => exists|m3: ConfiguredCore, w: Result<()>|
                            #[trigger] data_written(m2, m3, 32, a, v, w) && match w {
                                Err(e) => r == Err::<Cycles, Exception>(e) && c1 == m3,
                                Ok(_) => r == Ok::<Cycles, Exception>(Cycles(28))
                                    && c1 == common::move_flags_outcome(m3, v, 24).0,
                            },
                    },
            }
}

/// MOVE to memory: the value is written, then N and Z are set from it.
pub fn move_32_ai_al(core: &mut ConfiguredCore) -> (r: Result<Cycles>)
    requires
        old(core).wf(),
    ensures
        final(core).wf(),
        move_32_ai_al_effect(*old(core), *final(core), r),
{
    let ghost c0 = *core;
    let src = operator::al_32(core);
    let ghost m1 = *core;
    assert(operator::al_32_rel(c0, m1, src));
    let v = match src {
        Err(e) => {
            return Err(e);
        },
        Ok(v) => v,
    };
    let m = v;
    let ea = effective_address::address_indirect_ax(core);
    let ghost m2 = *core;
    assert(effective_address::address_indirect_ax_rel(m1, m2, ea));
    let a = match ea {
        Err(e) => {
            return Err(e);
        },
        Ok(a) => a,
    };
    let w = write_sized(core, 32, a, m);
    let ghost m3 = *core;
    assert(data_written(m2, m3, 32, a, m, w));
    match w {
        Err(e) => Err(e),
        Ok(()) => {
            common::move_flags(core, m, 24);
            Ok(Cycles(28))
        },
    }
}

/// What `move_32_pi_al` does: the core goes from `c0` to `c1` and `r` comes back.
pub open spec fn move_32_pi_al_effect(c0: ConfiguredCore, c1: ConfiguredCore, r: Result<Cycles>) -> bool {
    &&& exists|m1: ConfiguredCore, src: Result<u32>|
            #[trigger] operator::al_32_rel(c0, m1, src) && match src {
                Err(e) => r == Err::<Cycles, Exception>(e) && c1 == m1,
                Ok(v) => exists|m2: ConfiguredCore, ea: Result<u32>|
                    #[trigger] effective_address::postincrement_ax_32_rel(m1, m2, ea) && match ea {
                        Err(e) => r == Err::<Cycles, Exception>(e) && c1 == m2,
                        Ok(a) => exists|m3: ConfiguredCore, w: Result<()>|
                            #[trigger] data_written(m2, m3, 32, a, v, w) && match w {
                                Err(e) => r == Err::<Cycles, Exception>(e) && c1 == m3,
                                Ok(_) => r == Ok::<Cycles, Exception>(Cycles(28))
                                    && c1 == common::move_flags_outcome(m3, v, 24).0,
                            },
                    },
            }
}

/// MOVE to memory: the value is written, then N and Z are set from it.
pub fn move_32_pi_al(core: &mut ConfiguredCore) -> (r: Result<Cycles>)
    requires
        old(core).wf(),
    ensures
        final(core).wf(),
        move_32_pi_al_effect(*old(core), *final(core), r),
{
    let ghost c0 = *core;
    let src = operator::al_32(core);
    let ghost m1 = *core;
    assert(operator::al_32_rel(c0, m1, src));
    let v = match src {
        Err(e) => {
            return Err(e);
        },
        Ok(v) => v,
    };
    let m = v;
    let ea = effective_address::postincrement_ax_32(core);
    let ghost m2 = *core;
    assert(effective_address::postincrement_ax_32_rel(m1, m2, ea));
    let a = match ea {
        Err(e) => {
            return Err(e);
        },
        Ok(a) => a,
    };
    let w = write_sized(core, 32, a, m);
    let ghost m3 = *core;
    assert(data_written(m2, m3, 32, a, m, w));
    match w {
        Err(e) => Err(e),
        Ok(()) => {
            common::move_flags(core, m, 24);
            Ok(Cycles(28))
        },
    }
}

/// What `move_32_pd_al` does: the core goes from `c0` to `c1` and `r` comes back.
pub open spec fn move_32_pd_al_effect(c0: ConfiguredCore, c1: ConfiguredCore, r: Result<Cycles>) -> bool {
    &&& exists|m1: ConfiguredCore, src: Result<u32>|
            #[trigger] operator::al_32_rel(c0, m1, src) && match src {
                Err(e) => r == Err::<Cycles, Exception>(e) && c1 == m1,
                Ok(v) => exists|m2: ConfiguredCore, ea: Result<u32>|
                    #[trigger] effective_address::predecrement_ax_32_rel(m1, m2, ea) && match ea {
                        Err(e) => r == Err::<Cycles, Exception>(e) && c1 == m2,
                        Ok(a) => exists|m3: ConfiguredCore, w: Result<()>|
                            #[trigger] data_written(m2, m3, 32, a, v, w) && match w {
                                Err(e) => r == Err::<Cycles, Exception>(e) && c1 == m3,
                                Ok(_) => r == Ok::<Cycles, Exception>(Cycles(28))
                                    && c1 == common::move_flags_outcome(m3, v, 24).0,
                            },
                    },
            }
}

/// MOVE to memory: the value is written, then N and Z are set from it.
pub fn move_32_pd_al(core: &mut ConfiguredCore) -> (r: Result<Cycles>)
    requires
        old(core).wf(),
    ensures
        final(core).wf(),
        move_32_pd_al_effect(*old(core), *final(core), r),
{
    let ghost c0 = *core;
    let src = operator::al_32(core);
    let ghost m1 = *core;
    assert(operator::al_32_rel(c0, m1, src));
    let v = match src {
        Err(e) => {
            return Err(e);
        },
        Ok(v) => v,
    };
    let m = v;
    let ea = effective_address::predecrement_ax_32(core);
    let ghost m2 = *core;
    assert(effective_address::predecrement_ax_32_rel(m1, m2, ea));
    let a = match ea {
        Err(e) => {
            return Err(e);
        },
        Ok(a) => a,
    };
    let w = write_sized(core, 32, a, m);
    let ghost m3 = *core;
    assert(data_written(m2, m3, 32, a, m, w));
    match w {
        Err(e) => Err(e),
        Ok(()) => {
            common::move_flags(core, m, 24);
            Ok(Cycles(28))
        },
    }
}

/// What `move_32_di_al` does: the core goes from `c0` to `c1` and `r` comes back.
pub open spec fn move_32_di_al_effect(c0: ConfiguredCore, c1: ConfiguredCore, r: Result<Cycles>) -> bool {
    &&& exists|m1: ConfiguredCore, src: Result<u32>|
            #[trigger] operator::al_32_rel(c0, m1, src) && match src {
                Err(e) => r == Err::<Cycles, Exception>(e) && c1 == m1,
                Ok(v) => exists|m2: ConfiguredCore, ea: Result<u32>|
                    #[trigger] effective_address::displacement_ax_rel(m1, m2, ea) && match ea {
                        Err(e) => r == Err::<Cycles, Exception>(e) && c1 == m2,
                        Ok(a) => exists|m3: ConfiguredCore, w: Result<()>|
                            #[trigger] data_written(m2, m3, 32, a, v, w) && match w {
                                Err(e) => r == Err::<Cycles, Exception>(e) && c1 == m3,
                                Ok(_) => r == Ok::<Cycles, Exception>(Cycles(32))
                                    && c1 == common::move_flags_outcome(m3, v, 24).0,
                            },
                    },
            }
}

/// MOVE to memory: the value is written, then N and Z are set from it.
pub fn move_32_di_al(core: &mut ConfiguredCore) -> (r: Result<Cycles>)
    requires
        old(core).wf(),
    ensures
        final(core).wf(),
        move_32_di_al_effect(*old(core), *final(core), r),
{
    let ghost c0 = *core;
    let src = operator::al_32(core);
    let ghost m1 = *core;
    assert(operator::al_32_rel(c0, m1, src));
    let v = match src {
        Err(e) => {
            return Err(e);
        },
        Ok(v) => v,
    };
    let m = v;
    let ea = effective_address::displacement_ax(core);
    let ghost m2 = *core;
    assert(effective_address::displacement_ax_rel(m1, m2, ea));
    let a = match ea {
        Err(e) => {
            return Err(e);
        },
        Ok(a) => a,
    };
    let w = write_sized(core, 32, a, m);
    let ghost m3 = *core;
    assert(data_written(m2, m3, 32, a, m, w));
    match w {
        Err(e) => Err(e),
        Ok(()) => {
            common::move_flags(core, m, 24);
            Ok(Cycles(32))
        },
    }
}

/// What `move_32_ix_al` does: the core goes from `c0` to `c1` and `r` comes back.
pub open spec fn move_32_ix_al_effect(c0: ConfiguredCore, c1: ConfiguredCore, r: Result<Cycles>) -> bool {
    &&& exists|m1: ConfiguredCore, src: Result<u32>|
            #[trigger] operator::al_32_rel(c0, m1, src) && match src {
                Err(e) => r == Err::<Cycles, Exception>(e) && c1 == m1,
                Ok(v) => exists|m2: ConfiguredCore, ea: Result<u32>|
                    #[trigger] effective_address::index_ax_rel(m1, m2, ea) && match ea {
                        Err(e) => r == Err::<Cycles, Exception>(e) && c1 == m2,
                        Ok(a) => exists|m3: ConfiguredCore, w: Result<()>|
                            #[trigger] data_written(m2, m3, 32, a, v, w) && match w {
                                Err(e) => r == Err::<Cycles, Exception>(e) && c1 == m3,
                                Ok(_) => r == Ok::<Cycles, Exception>(Cycles(34))
                                    && c1 == common::move_flags_outcome(m3, v, 24).0,
                            },
                    },
            }
}

/// MOVE to memory: the value is written, then N and Z are set from it.
pub fn move_32_ix_al(core: &mut ConfiguredCore) -> (r: Result<Cycles>)
    requires
        old(core).wf(),
    ensures
        final(core).wf(),
        move_32_ix_al_effect(*old(core), *final(core), r),
{
    let ghost c0 = *core;
    let src = operator::al_32(core);
    let ghost m1 = *core;
    assert(operator::al_32_rel(c0, m1, src));
    let v = match src {
        Err(e) => {
            return Err(e);
        },
        Ok(v) => v,
    };
    let m = v;
    let ea = effective_address::index_ax(core);
    let ghost m2 = *core;
    assert(effective_address::index_ax_rel(m1, m2, ea));
    let a = match ea {
        Err(e) => {
            return Err(e);
        },
        Ok(a) => a,
    };
    let w = write_sized(core, 32, a, m);
    let ghost m3 = *core;
    assert(data_written(m2, m3, 32, a, m, w));
    match w {
        Err(e) => Err(e),
        Ok(()) => {
            common::move_flags(core, m, 24);
            Ok(Cycles(34))
        },
    }
}

/// What `move_32_aw_al` does: the core goes from `c0` to `c1` and `r` comes back.
pub open spec fn move_32_aw_al_effect(c0: ConfiguredCore, c1: ConfiguredCore, r: Result<Cycles>) -> bool {
    &&& exists|m1: ConfiguredCore, src: Result<u32>|
            #[trigger] operator::al_32_rel(c0, m1, src) && match src {
                Err(e) => r == Err::<Cycles, Exception>(e) && c1 == m1,
                Ok(v) => exists|m2: ConfiguredCore, ea: Result<u32>|
                    #[trigger] effective_address::absolute_word_rel(m1, m2, ea) && match ea {
                        Err(e) => r == Err::<Cycles, Exception>(e) && c1 == m2,
                        Ok(a) => exists|m3: ConfiguredCore, w: Result<()>|
                            #[trigger] data_written(m2, m3, 32, a, v, w) && match w {
                                Err(e) => r == Err::<Cycles, Exception>(e) && c1 == m3,
                                Ok(_) => r == Ok::<Cycles, Exception>(Cycles(32))
                                    && c1 == common::move_flags_outcome(m3, v, 24).0,
                            },
                    },
            }
}

/// MOVE to memory: the value is written, then N and Z are set from it.
pub fn move_32_aw_al(core: &mut ConfiguredCore) -> (r: Result<Cycles>)
    requires
        old(core).wf(),
    ensures
        final(core).wf(),
        move_32_aw_al_effect(*old(core), *final(core), r),
{
    let ghost c0 = *core;
    let src = operator::al_32(core);
    let ghost m1 = *core;
    assert(operator::al_32_rel(c0, m1, src));
    let v = match src {
        Err(e) => {
            return Err(e);
        },
        Ok(v) => v,
    };
    let m = v;
    let ea = effective_address::absolute_word(core);
    let ghost m2 = *core;
    assert(effective_address::absolute_word_rel(m1, m2, ea));
    let a = match ea {
        Err(e) => {
            return Err(e);
        },
        Ok(a) => a,
    };
    let w = write_sized(core, 32, a, m);
    let ghost m3 = *core;
    assert(data_written(m2, m3, 32, a, m, w));
    match w {
        Err(e) => Err(e),
        Ok(()) => {
            common::move_flags(core, m, 24);
            Ok(Cycles(32))
        },
    }
}

/// What `move_32_al_al` does: the core goes from `c0` to `c1` and `r` comes back.
pub open spec fn move_32_al_al_effect(c0: ConfiguredCore, c1: ConfiguredCore, r: Result<Cycles>) -> bool {
    &&& exists|m1: ConfiguredCore, src: Result<u32>|
            #[trigger] operator::al_32_rel(c0, m1, src) && match src {
                Err(e) => r == Err::<Cycles, Exception>(e) && c1 == m1,
                Ok(v) => exists|m2: ConfiguredCore, ea: Result<u32>|
                    #[trigger] effective_address::absolute_long_rel(m1, m2, ea) && match ea {
                        Err(e) => r == Err::<Cycles, Exception>(e) && c1 == m2,
                        Ok(a) => exists|m3: ConfiguredCore, w: Result<()>|
                            #[trigger] data_written(m2, m3, 32, a, v, w) && match w {
                                Err(e) => r == Err::<Cycles, Exception>(e) && c1 == m3,
                                Ok(_) => r == Ok::<Cycles, Exception>(Cycles(36))
                                    && c1 == common::move_flags_outcome(m3, v, 24).0,
                            },
                    },
            }
}

/// MOVE to memory: the value is written, then N and Z are set from it.
pub fn move_32_al_al(core: &mut ConfiguredCore) -> (r: Result<Cycles>)
    requires
        old(core).wf(),
    ensures
        final(core).wf(),
        move_32_al_al_effect(*old(core), *final(core), r),
{
    let ghost c0 = *core;
    let src = operator::al_32(core);
    let ghost m1 = *core;
    assert(operator::al_32_rel(c0, m1, src));
    let v = match src {
        Err(e) => {
            return Err(e);
        },
        Ok(v) => v,
    };
    let m = v;
    let ea = effective_address::absolute_long(core);
    let ghost m2 = *core;
    assert(effective_address::absolute_long_rel(m1, m2, ea));
    let a = match ea {
        Err(e) => {
            return Err(e);
        },
        Ok(a) => a,
    };
    let w = write_sized(core, 32, a, m);
    let ghost m3 = *core;
    assert(data_written(m2, m3, 32, a, m, w));
    match w {
        Err(e) => Err(e),
        Ok(()) => {
            common::move_flags(core, m, 24);
            Ok(Cycles(36))
        },
    }
}

/// What `move_32_dn_pcdi` does: the core goes from `c0` to `c1` and `r` comes back.
pub open spec fn move_32_dn_pcdi_effect(c0: ConfiguredCore, c1: ConfiguredCore, r: Result<Cycles>) -> bool {
    &&& exists|mid: ConfiguredCore, src: Result<u32>|
            #[trigger] operator::pcdi_32_rel(c0, mid, src) && match src {
                Err(e) => r == Err::<Cycles, Exception>(e) && c1 == mid,
                Ok(v) => {
                    let m = v;
                    let reg = ir_dx(mid.ir);
                    &&& r == Ok::<Cycles, Exception>(Cycles(16))
                    &&& reg_set(common::move_flags_outcome(mid, m, 24).0, c1, reg, merged(mid.dar[reg], m, 32))
                },
            }
}

/// MOVE into Dx, with N and Z set from the value moved.
pub fn move_32_dn_pcdi(core: &mut ConfiguredCore) -> (r: Result<Cycles>)
    requires
        old(core).wf(),
    ensures
        final(core).wf(),
        move_32_dn_pcdi_effect(*old(core), *final(core), r),
{
    let ghost c0 = *core;
    let src = operator::pcdi_32(core);
    let ghost mid = *core;
    assert(operator::pcdi_32_rel(c0, mid, src));
    match src {
        Err(e) => Err(e),
        Ok(v) => {
            let m = v;
            let reg = reg_dx(core.ir);
            let dst = core.dar[reg];
            common::move_flags(core, m, 24);
            set_reg(core, reg, merge(dst, m, 32));
            Ok(Cycles(16))
        },
    }
}

/// What `move_32_ai_pcdi` does: the core goes from `c0` to `c1` and `r` comes back.
pub open spec fn move_32_ai_pcdi_effect(c0: ConfiguredCore, c1: ConfiguredCore, r: Result<Cycles>) -> bool {
    &&& exists|m1: ConfiguredCore, src: Result<u32>|
            #[trigger] operator::pcdi_32_rel(c0, m1, src) && match src {
                Err(e) => r == Err::<Cycles, Exception>(e) && c1 == m1,
                Ok(v) => exists|m2: ConfiguredCore, ea: Result<u32>|
                    #[trigger] effective_address::address_indirect_ax_rel(m1, m2, ea) && match ea {
                        Err(e) => r == Err::<Cycles, Exception>(e) && c1 == m2,
                        Ok(a) => exists|m3: ConfiguredCore, w: Result<()>|
                            #[trigger] data_written(m2, m3, 32, a, v, w) && match w {
                                Err(e) => r == Err::<Cycles, Exception>(e) && c1 == m3,
                                Ok(_) => r == Ok::<Cycles, Exception>(Cycles(24))
                                    && c1 == common::move_flags_outcome(m3, v, 24).0,
                            },
                    },
            }
}

/// MOVE to memory: the value is written, then N and Z are set from it.
pub fn move_32_ai_pcdi(core: &mut ConfiguredCore) -> (r: Result<Cycles>)
    requires
        old(core).wf(),
    ensures
        final(core).wf(),
        move_32_ai_pcdi_effect(*old(core), *final(core), r),
{
    let ghost c0 = *core;
    let src = operator::pcdi_32(core);
    let ghost m1 = *core;
    assert(operator::pcdi_32_rel(c0, m1, src));
    let v = match src {
        Err(e) => {
            return Err(e);
        },
        Ok(v) => v,
    };
    let m = v;
    let ea = effective_address::address_indirect_ax(core);
    let ghost m2 = *core;
    assert(effective_address::address_indirect_ax_rel(m1, m2, ea));
    let a = match ea {
        Err(e) => {
            return Err(e);
        },
        Ok(a) => a,
    };
    let w = write_sized(core, 32, a, m);
    let ghost m3 = *core;
    assert(data_written(m2, m3, 32, a, m, w));
    match w {
        Err(e) => Err(e),
        Ok(()) => {
            common::move_flags(core, m, 24);
            Ok(Cycles(24))
        },
    }
}

/// What `move_32_pi_pcdi` does: the core goes from `c0` to `c1` and `r` comes back.
pub open spec fn move_32_pi_pcdi_effect(c0: ConfiguredCore, c1: ConfiguredCore, r: Result<Cycles>) -> bool {
    &&& exists|m1: ConfiguredCore, src: Result<u32>|
            #[trigger] operator::pcdi_32_rel(c0, m1, src) && match src {
                Err(e) => r == Err::<Cycles, Exception>(e) && c1 == m1,
                Ok(v) => exists|m2: ConfiguredCore, ea: Result<u32>|
                    #[trigger] effective_address::postincrement_ax_32_rel(m1, m2, ea) && match ea {
                        Err(e) => r == Err::<Cycles, Exception>(e) && c1 == m2,
                        Ok(a) => exists|m3: ConfiguredCore, w: Result<()>|
                            #[trigger] data_written(m2, m3, 32, a, v, w) && match w {
                                Err(e) => r == Err::<Cycles, Exception>(e) && c1 == m3,
                                Ok(_) => r == Ok::<Cycles, Exception>(Cycles(24))
                                    && c1 == common::move_flags_outcome(m3, v, 24).0,
                            },
                    },
            }
}

/// MOVE to memory: the value is written, then N and Z are set from it.
pub fn move_32_pi_pcdi(core: &mut ConfiguredCore) -> (r: Result<Cycles>)
    requires
        old(core).wf(),
    ensures
        final(core).wf(),
        move_32_pi_pcdi_effect(*old(core), *final(core), r),
{
    let ghost c0 = *core;
    let src = operator::pcdi_32(core);
    let ghost m1 = *core;
    assert(operator::pcdi_32_rel(c0, m1, src));
    let v = match src {
        Err(e) => {
            return Err(e);
        },
        Ok(v) => v,
    };
    let m = v;
    let ea = effective_address::postincrement_ax_32(core);
    let ghost m2 = *core;
    assert(effective_address::postincrement_ax_32_rel(m1, m2, ea));
    let a = match ea {
        Err(e) => {
            return Err(e);
        },
        Ok(a) => a,
    };
    let w = write_sized(core, 32, a, m);
    let ghost m3 = *core;
    assert(data_written(m2, m3, 32, a, m, w));
    match w {
        Err(e) => Err(e),
        Ok(()) => {
            common::move_flags(core, m, 24);
            Ok(Cycles(24))
        },
    }
}

/// What `move_32_pd_pcdi` does: the core goes from `c0` to `c1` and `r` comes back.
pub open spec fn move_32_pd_pcdi_effect(c0: ConfiguredCore, c1: ConfiguredCore, r: Result<Cycles>) -> bool {
    &&& exists|m1: ConfiguredCore, src: Result<u32>|
            #[trigger] operator::pcdi_32_rel(c0, m1, src) && match src {
                Err(e) => r == Err::<Cycles, Exception>(e) && c1 == m1,
                Ok(v) => exists|m2: ConfiguredCore, ea: Result<u32>|
                    #[trigger] effective_address::predecrement_ax_32_rel(m1, m2, ea) && match ea {
                        Err(e) => r == Err::<Cycles, Exception>(e) && c1 == m2,
                        Ok(a) => exists|m3: ConfiguredCore, w: Result<()>|
                            #[trigger] data_written(m2, m3, 32, a, v, w) && match w {
                                Err(e) => r == Err::<Cycles, Exception>(e) && c1 == m3,
                                Ok(_) => r == Ok::<Cycles, Exception>(Cycles(24))
                                    && c1 == common::move_flags_outcome(m3, v, 24).0,
                            },
                    },
            }
}

/// MOVE to memory: the value is written, then N and Z are set from it.
pub fn move_32_pd_pcdi(core: &mut ConfiguredCore) -> (r: Result<Cycles>)
    requires
        old(core).wf(),
    ensures
        final(core).wf(),
        move_32_pd_pcdi_effect(*old(core), *final(core), r),
{
    let ghost c0 = *core;
    let src = operator::pcdi_32(core);
    let ghost m1 = *core;
    assert(operator::pcdi_32_rel(c0, m1, src));
    let v = match src {
        Err(e) => {
            return Err(e);
        },
        Ok(v) => v,
    };
    let m = v;
    let ea = effective_address::predecrement_ax_32(core);
    let ghost m2 = *core;
    assert(effective_address::predecrement_ax_32_rel(m1, m2, ea));
    let a = match ea {
        Err(e) => {
            return Err(e);
        },
        Ok(a) => a,
    };
    let w = write_sized(core, 32, a, m);
    let ghost m3 = *core;
    assert(data_written(m2, m3, 32, a, m, w));
    match w {
        Err(e) => Err(e),
        Ok(()) => {
            common::move_flags(core, m, 24);
            Ok(Cycles(24))
        },
    }
}

/// What `move_32_di_pcdi` does: the core goes from `c0` to `c1` and `r` comes back.
pub open spec fn move_32_di_pcdi_effect(c0: ConfiguredCore, c1: ConfiguredCore, r: Result<Cycles>) -> bool {
    &&& exists|m1: ConfiguredCore, src: Result<u32>|
            #[trigger] operator::pcdi_32_rel(c0, m1, src) && match src {
                Err(e) => r == Err::<Cycles, Exception>(e) && c1 == m1,
                Ok(v) => exists|m2: ConfiguredCore, ea: Result<u32>|
                    #[trigger] effective_address::displacement_ax_rel(m1, m2, ea) && match ea {
                        Err(e) => r == Err::<Cycles, Exception>(e) && c1 == m2,
                        Ok(a) => exists|m3: ConfiguredCore, w: Result<()>|
                            #[trigger] data_written(m2, m3, 32, a, v, w) && match w {
                                Err(e) => r == Err::<Cycles, Exception>(e) && c1 == m3,
                                Ok(_) => r == Ok::<Cycles, Exception>(Cycles(28))
                                    && c1 == common::move_flags_outcome(m3, v, 24).0,
                            },
                    },
            }
}

/// MOVE to memory: the value is written, then N and Z are set from it.
pub fn move_32_di_pcdi(core: &mut ConfiguredCore) -> (r: Result<Cycles>)
    requires
        old(core).wf(),
    ensures
        final(core).wf(),
        move_32_di_pcdi_effect(*old(core), *final(core), r),
{
    let ghost c0 = *core;
    let src = operator::pcdi_32(core);
    let ghost m1 = *core;
    assert(operator::pcdi_32_rel(c0, m1, src));
    let v = match src {
        Err(e) => {
            return Err(e);
        },
        Ok(v) => v,
    };
    let m = v;
    let ea = effective_address::displacement_ax(core);
    let ghost m2 = *core;
    assert(effective_address::displacement_ax_rel(m1, m2, ea));
    let a = match ea {
        Err(e) => {
            return Err(e);
        },
        Ok(a) => a,
    };
    let w = write_sized(core, 32, a, m);
    let ghost m3 = *core;
    assert(data_written(m2, m3, 32, a, m, w));
    match w {
        Err(e) => Err(e),
        Ok(()) => {
            common::move_flags(core, m, 24);
            Ok(Cycles(28))
        },
    }
}

/// What `move_32_ix_pcdi` does: the core goes from `c0` to `c1` and `r` comes back.
pub open spec fn move_32_ix_pcdi_effect(c0: ConfiguredCore, c1: ConfiguredCore, r: Result<Cycles>) -> bool {
    &&& exists|m1: ConfiguredCore, src: Result<u32>|
            #[trigger] operator::pcdi_32_rel(c0, m1, src) && match src {
                Err(e) => r == Err::<Cycles, Exception>(e) && c1 == m1,
                Ok(v) => exists|m2: ConfiguredCore, ea: Result<u32>|
                    #[trigger] effective_address::index_ax_rel(m1, m2, ea) && match ea {
                        Err(e) => r == Err::<Cycles, Exception>(e) && c1 == m2,
                        Ok(a) => exists|m3: ConfiguredCore, w: Result<()>|
                            #[trigger] data_written(m2, m3, 32, a, v, w) && match w {
                                Err(e) => r == Err::<Cycles, Exception>(e) && c1 == m3,
                                Ok(_) => r == Ok::<Cycles, Exception>(Cycles(30))
                                    && c1 == common::move_flags_outcome(m3, v, 24).0,
                            },
                    },
            }
}

/// MOVE to memory: the value is written, then N and Z are set from it.
pub fn move_32_ix_pcdi(core: &mut ConfiguredCore) -> (r: Result<Cycles>)
    requires
        old(core).wf(),
    ensures
        final(core).wf(),
        move_32_ix_pcdi_effect(*old(core), *final(core), r),
{
    let ghost c0 = *core;
    let src = operator::pcdi_32(core);
    let ghost m1 = *core;
    assert(operator::pcdi_32_rel(c0, m1, src));
    let v = match src {
        Err(e) => {
            return Err(e);
        },
        Ok(v) => v,
    };
    let m = v;
    let ea = effective_address::index_ax(core);
    let ghost m2 = *core;
    assert(effective_address::index_ax_rel(m1, m2, ea));
    let a = match ea {
        Err(e) => {
            return Err(e);
        },
        Ok(a) => a,
    };
    let w = write_sized(core, 32, a, m);
    let ghost m3 = *core;
    assert(data_written(m2, m3, 32, a, m, w));
    match w {
        Err(e) => Err(e),
        Ok(()) => {
            common::move_flags(core, m, 24);
            Ok(Cycles(30))
        },
    }
}

/// What `move_32_aw_pcdi` does: the core goes from `c0` to `c1` and `r` comes back.
pub open spec fn move_32_aw_pcdi_effect(c0: ConfiguredCore, c1: ConfiguredCore, r: Result<Cycles>) -> bool {
    &&& exists|m1: ConfiguredCore, src: Result<u32>|
            #[trigger] operator::pcdi_32_rel(c0, m1, src) && match src {
                Err(e) => r == Err::<Cycles, Exception>(e) && c1 == m1,
                Ok(v) => exists|m2: ConfiguredCore, ea: Result<u32>|
                    #[trigger] effective_address::absolute_word_rel(m1, m2, ea) && match ea {
                        Err(e) => r == Err::<Cycles, Exception>(e) && c1 == m2,
                        Ok(a) => exists|m3: ConfiguredCore, w: Result<()>|
                            #[trigger] data_written(m2, m3, 32, a, v, w) && match w {
                                Err(e) => r == Err::<Cycles, Exception>(e) && c1 == m3,
                                Ok(_) => r == Ok::<Cycles, Exception>(Cycles(28))
                                    && c1 == common::move_flags_outcome(m3, v, 24).0,
                            },
                    },
            }
}

/// MOVE to memory: the value is written, then N and Z are set from it.
pub fn move_32_aw_pcdi(core: &mut ConfiguredCore) -> (r: Result<Cycles>)
    requires
        old(core).wf(),
    ensures
        final(core).wf(),
        move_32_aw_pcdi_effect(*old(core), *final(core), r),
{
    let ghost c0 = *core;
    let src = operator::pcdi_32(core);
    let ghost m1 = *core;
    assert(operator::pcdi_32_rel(c0, m1, src));
    let v = match src {
        Err(e) => {
            return Err(e);
        },
        Ok(v) => v,
    };
    let m = v;
    let ea = effective_address::absolute_word(core);
    let ghost m2 = *core;
    assert(effective_address::absolute_word_rel(m1, m2, ea));
    let a = match ea {
        Err(e) => {
            return Err(e);
        },
        Ok(a) => a,
    };
    let w = write_sized(core, 32, a, m);
    let ghost m3 = *core;
    assert(data_written(m2, m3, 32, a, m, w));
    match w {
        Err(e) => Err(e),
        Ok(()) => {
            common::move_flags(core, m, 24);
            Ok(Cycles(28))
        },
    }
}

/// What `move_32_al_pcdi` does: the core goes from `c0` to `c1` and `r` comes back.
pub open spec fn move_32_al_pcdi_effect(c0: ConfiguredCore, c1: ConfiguredCore, r: Result<Cycles>) -> bool {
    &&& exists|m1: ConfiguredCore, src: Result<u32>|
            #[trigger] operator::pcdi_32_rel(c0, m1, src) && match src {
                Err(e) => r == Err::<Cycles, Exception>(e) && c1 == m1,
                Ok(v) => exists|m2: ConfiguredCore, ea: Result<u32>|
                    #[trigger] effective_address::absolute_long_rel(m1, m2, ea) && match ea {
                        Err(e) => r == Err::<Cycles, Exception>(e) && c1 == m2,
                        Ok(a) => exists|m3: ConfiguredCore, w: Result<()>|
                            #[trigger] data_written(m2, m3, 32, a, v, w) && match w {
                                Err(e) => r == Err::<Cycles, Exception>(e) && c1 == m3,
                                Ok(_) => r == Ok::<Cycles, Exception>(Cycles(32))
                                    && c1 == common::move_flags_outcome(m3, v, 24).0,
                            },
                    },
            }
}

/// MOVE to memory: the value is written, then N and Z are set from it.
pub fn move_32_al_pcdi(core: &mut ConfiguredCore) -> (r: Result<Cycles>)
    requires
        old(core).wf(),
    ensures
        final(core).wf(),
        move_32_al_pcdi_effect(*old(core), *final(core), r),
{
    let ghost c0 = *core;
    let src = operator::pcdi_32(core);
    let ghost m1 = *core;
    assert(operator::pcdi_32_rel(c0, m1, src));
    let v = match src {
        Err(e) => {
            return Err(e);
        },
        Ok(v) => v,
    };
    let m = v;
    let ea = effective_address::absolute_long(core);
    let ghost m2 = *core;
    assert(effective_address::absolute_long_rel(m1, m2, ea));
    let a = match ea {
        Err(e) => {
            return Err(e);
        },
        Ok(a) => a,
    };
    let w = write_sized(core, 32, a, m);
    let ghost m3 = *core;
    assert(data_written(m2, m3, 32, a, m, w));
    match w {
        Err(e) => Err(e),
        Ok(()) => {
            common::move_flags(core, m, 24);
            Ok(Cycles(32))
        },
    }
}

/// What `move_32_dn_pcix` does: the core goes from `c0` to `c1` and `r` comes back.
pub open spec fn move_32_dn_pcix_effect(c0: ConfiguredCore, c1: ConfiguredCore, r: Result<Cycles>) -> bool {
    &&& exists|mid: ConfiguredCore, src: Result<u32>|
            #[trigger] operator::pcix_32_rel(c0, mid, src) && match src {
                Err(e) => r == Err::<Cycles, Exception>(e) && c1 == mid,
                Ok(v) => {
                    let m = v;
                    let reg = ir_dx(mid.ir);
                    &&& r == Ok::<Cycles, Exception>(Cycles(18))
                    &&& reg_set(common::move_flags_outcome(mid, m, 24).0, c1, reg, merged(mid.dar[reg], m, 32))
                },
            }
}

/// MOVE into Dx, with N and Z set from the value moved.
pub fn move_32_dn_pcix(core: &mut ConfiguredCore) -> (r: Result<Cycles>)
    requires
        old(core).wf(),
    ensures
        final(core).wf(),
        move_32_dn_pcix_effect(*old(core), *final(core), r),
{
    let ghost c0 = *core;
    let src = operator::pcix_32(core);
    let ghost mid = *core;
    assert(operator::pcix_32_rel(c0, mid, src));
    match src {
        Err(e) => Err(e),
        Ok(v) => {
            let m = v;
            let reg = reg_dx(core.ir);
            let dst = core.dar[reg];
            common::move_flags(core, m, 24);
            set_reg(core, reg, merge(dst, m, 32));
            Ok(Cycles(18))
        },
    }
}

/// What `move_32_ai_pcix` does: the core goes from `c0` to `c1` and `r` comes back.
pub open spec fn move_32_ai_pcix_effect(c0: ConfiguredCore, c1: ConfiguredCore, r: Result<Cycles>) -> bool {
    &&& exists|m1: ConfiguredCore, src: Result<u32>|
            #[trigger] operator::pcix_32_rel(c0, m1, src) && match src {
                Err(e) => r == Err::<Cycles, Exception>(e) && c1 == m1,
                Ok(v) => exists|m2: ConfiguredCore, ea: Result<u32>|
                    #[trigger] effective_address::address_indirect_ax_rel(m1, m2, ea) && match ea {
                        Err(e) => r == Err::<Cycles, Exception>(e) && c1 == m2,
                        Ok(a) => exists|m3: ConfiguredCore, w: Result<()>|
                            #[trigger] data_written(m2, m3, 32, a, v, w) && match w {
                                Err(e) => r == Err::<Cycles, Exception>(e) && c1 == m3,
                                Ok(_) => r == Ok::<Cycles, Exception>(Cycles(26))
                                    && c1 == common::move_flags_outcome(m3, v, 24).0,
                            },
                    },
            }
}

/// MOVE to memory: the value is written, then N and Z are set from it.
pub fn move_32_ai_pcix(core: &mut ConfiguredCore) -> (r: Result<Cycles>)
    requires
        old(core).wf(),
    ensures
        final(core).wf(),
        move_32_ai_pcix_effect(*old(core), *final(core), r),
{
    let ghost c0 = *core;
    let src = operator::pcix_32(core);
    let ghost m1 = *core;
    assert(operator::pcix_32_rel(c0, m1, src));
    let v = match src {
        Err(e) => {
            return Err(e);
        },
        Ok(v) => v,
    };
    let m = v;
    let ea = effective_address::address_indirect_ax(core);
    let ghost m2 = *core;
    assert(effective_address::address_indirect_ax_rel(m1, m2, ea));
    let a = match ea {
        Err(e) => {
            return Err(e);
        },
        Ok(a) => a,
    };
    let w = write_sized(core, 32, a, m);
    let ghost m3 = *core;
    assert(data_written(m2, m3, 32, a, m, w));
    match w {
        Err(e) => Err(e),
        Ok(()) => {
            common::move_flags(core, m, 24);
            Ok(Cycles(26))
        },
    }
}

/// What `move_32_pi_pcix` does: the core goes from `c0` to `c1` and `r` comes back.
pub open spec fn move_32_pi_pcix_effect(c0: ConfiguredCore, c1: ConfiguredCore, r: Result<Cycles>) -> bool {
    &&& exists|m1: ConfiguredCore, src: Result<u32>|
            #[trigger] operator::pcix_32_rel(c0, m1, src) && match src {
                Err(e) => r == Err::<Cycles, Exception>(e) && c1 == m1,
                Ok(v) => exists|m2: ConfiguredCore, ea: Result<u32>|
                    #[trigger] effective_address::postincrement_ax_32_rel(m1, m2, ea) && match ea {
                        Err(e) => r == Err::<Cycles, Exception>(e) && c1 == m2,
                        Ok(a) => exists|m3: ConfiguredCore, w: Result<()>|
                            #[trigger] data_written(m2, m3, 32, a, v, w) && match w {
                                Err(e) => r == Err::<Cycles, Exception>(e) && c1 == m3,
                                Ok(_) => r == Ok::<Cycles, Exception>(Cycles(26))
                                    && c1 == common::move_flags_outcome(m3, v, 24).0,
                            },
                    },
            }
}

/// MOVE to memory: the value is written, then N and Z are set from it.
pub fn move_32_pi_pcix(core: &mut ConfiguredCore) -> (r: Result<Cycles>)
    requires
        old(core).wf(),
    ensures
        final(core).wf(),
        move_32_pi_pcix_effect(*old(core), *final(core), r),
{
    let ghost c0 = *core;
    let src = operator::pcix_32(core);
    let ghost m1 = *core;
    assert(operator::pcix_32_rel(c0, m1, src));
    let v = match src {
        Err(e) => {
            return Err(e);
        },
        Ok(v) => v,
    };
    let m = v;
    let ea = effective_address::postincrement_ax_32(core);
    let ghost m2 = *core;
    assert(effective_address::postincrement_ax_32_rel(m1, m2, ea));
    let a = match ea {
        Err(e) => {
            return Err(e);
        },
        Ok(a) => a,
    };
    let w = write_sized(core, 32, a, m);
    let ghost m3 = *core;
    assert(data_written(m2, m3, 32, a, m, w));
    match w {
        Err(e) => Err(e),
        Ok(()) => {
            common::move_flags(core, m, 24);
            Ok(Cycles(26))
        },
    }
}

/// What `move_32_pd_pcix` does: the core goes from `c0` to `c1` and `r` comes back.
pub open spec fn move_32_pd_pcix_effect(c0: ConfiguredCore, c1: ConfiguredCore, r: Result<Cycles>) -> bool {
    &&& exists|m1: ConfiguredCore, src: Result<u32>|
            #[trigger] operator::pcix_32_rel(c0, m1, src) && match src {
                Err(e) => r == Err::<Cycles, Exception>(e) && c1 == m1,
                Ok(v) => exists|m2: ConfiguredCore, ea: Result<u32>|
                    #[trigger] effective_address::predecrement_ax_32_rel(m1, m2, ea) && match ea {
                        Err(e) => r == Err::<Cycles, Exception>(e) && c1 == m2,
                        Ok(a) => exists|m3: ConfiguredCore, w: Result<()>|
                            #[trigger] data_written(m2, m3, 32, a, v, w) && match w {
                                Err(e) => r == Err::<Cycles, Exception>(e) && c1 == m3,
                                Ok(_) => r == Ok::<Cycles, Exception>(Cycles(26))
                                    && c1 == common::move_flags_outcome(m3, v, 24).0,
                            },
                    },
            }
}

/// MOVE to memory: the value is written, then N and Z are set from it.
pub fn move_32_pd_pcix(core: &mut ConfiguredCore) -> (r: Result<Cycles>)
    requires
        old(core).wf(),
    ensures
        final(core).wf(),
        move_32_pd_pcix_effect(*old(core), *final(core), r),
{
    let ghost c0 = *core;
    let src = operator::pcix_32(core);
    let ghost m1 = *core;
    assert(operator::pcix_32_rel(c0, m1, src));
    let v = match src {
        Err(e) => {
            return Err(e);
        },
        Ok(v) => v,
    };
    let m = v;
    let ea = effective_address::predecrement_ax_32(core);
    let ghost m2 = *core;
    assert(effective_address::predecrement_ax_32_rel(m1, m2, ea));
    let a = match ea {
        Err(e) => {
            return Err(e);
        },
        Ok(a) => a,
    };
    let w = write_sized(core, 32, a, m);
    let ghost m3 = *core;
    assert(data_written(m2, m3, 32, a, m, w));
    match w {
        Err(e) => Err(e),
        Ok(()) => {
            common::move_flags(core, m, 24);
            Ok(Cycles(26))
        },
    }
}

/// What `move_32_di_pcix` does: the core goes from `c0` to `c1` and `r` comes back.
pub open spec fn move_32_di_pcix_effect(c0: ConfiguredCore, c1: ConfiguredCore, r: Result<Cycles>) -> bool {
    &&& exists|m1: ConfiguredCore, src: Result<u32>|
            #[trigger] operator::pcix_32_rel(c0, m1, src) && match src {
                Err(e) => r == Err::<Cycles, Exception>(e) && c1 == m1,
                Ok(v) => exists|m2: ConfiguredCore, ea: Result<u32>|
                    #[trigger] effective_address::displacement_ax_rel(m1, m2, ea) && match ea {
                        Err(e) => r == Err::<Cycles, Exception>(e) && c1 == m2,
                        Ok(a) => exists|m3: ConfiguredCore, w: Result<()>|
                            #[trigger] data_written(m2, m3, 32, a, v, w) && match w {
                                Err(e) => r == Err::<Cycles, Exception>(e) && c1 == m3,
                                Ok(_) => r == Ok::<Cycles, Exception>(Cycles(30))
                                    && c1 == common::move_flags_outcome(m3, v, 24).0,
                            },
                    },
            }
}

/// MOVE to memory: the value is written, then N and Z are set from it.
pub fn move_32_di_pcix(core: &mut ConfiguredCore) -> (r: Result<Cycles>)
    requires
        old(core).wf(),
    ensures
        final(core).wf(),
        move_32_di_pcix_effect(*old(core), *final(core), r),
{
    let ghost c0 = *core;
    let src = operator::pcix_32(core);
    let ghost m1 = *core;
    assert(operator::pcix_32_rel(c0, m1, src));
    let v = match src {
        Err(e) => {
            return Err(e);
        },
        Ok(v) => v,
    };
    let m = v;
    let ea = effective_address::displacement_ax(core);
    let ghost m2 = *core;
    assert(effective_address::displacement_ax_rel(m1, m2, ea));
    let a = match ea {
        Err(e) => {
            return Err(e);
        },
        Ok(a) => a,
    };
    let w = write_sized(core, 32, a, m);
    let ghost m3 = *core;
    assert(data_written(m2, m3, 32, a, m, w));
    match w {
        Err(e) => Err(e),
        Ok(()) => {
            common::move_flags(core, m, 24);
            Ok(Cycles(30))
        },
    }
}

/// What `move_32_ix_pcix` does: the core goes from `c0` to `c1` and `r` comes back.
pub open spec fn move_32_ix_pcix_effect(c0: ConfiguredCore, c1: ConfiguredCore, r: Result<Cycles>) -> bool {
    &&& exists|m1: ConfiguredCore, src: Result<u32>|
            #[trigger] operator::pcix_32_rel(c0, m1, src) && match src {
                Err(e) => r == Err::<Cycles, Exception>(e) && c1 == m1,
                Ok(v) => exists|m2: ConfiguredCore, ea: Result<u32>|
                    #[trigger] effective_address::index_ax_rel(m1, m2, ea) && match ea {
                        Err(e) => r == Err::<Cycles, Exception>(e) && c1 == m2,
                        Ok(a) => exists|m3: ConfiguredCore, w: Result<()>|
                            #[trigger] data_written(m2, m3, 32, a, v, w) && match w {
                                Err(e) => r == Err::<Cycles, Exception>(e) && c1 == m3,
                                Ok(_) => r == Ok::<Cycles, Exception>(Cycles(32))
                                    && c1 == common::move_flags_outcome(m3, v, 24).0,
                            },
                    },
            }
}

/// MOVE to memory: the value is written, then N and Z are set from it.
pub fn move_32_ix_pcix(core: &mut ConfiguredCore) -> (r: Result<Cycles>)
    requires
        old(core).wf(),
    ensures
        final(core).wf(),
        move_32_ix_pcix_effect(*old(core), *final(core), r),
{
    let ghost c0 = *core;
    let src = operator::pcix_32(core);
    let ghost m1 = *core;
    assert(operator::pcix_32_rel(c0, m1, src));
    let v = match src {
        Err(e) => {
            return Err(e);
        },
        Ok(v) => v,
    };
    let m = v;
    let ea = effective_address::index_ax(core);
    let ghost m2 = *core;
    assert(effective_address::index_ax_rel(m1, m2, ea));
    let a = match ea {
        Err(e) => {
            return Err(e);
        },
        Ok(a) => a,
    };
    let w = write_sized(core, 32, a, m);
    let ghost m3 = *core;
    assert(data_written(m2, m3, 32, a, m, w));
    match w {
        Err(e) => Err(e),
        Ok(()) => {
            common::move_flags(core, m, 24);
            Ok(Cycles(32))
        },
    }
}

/// What `move_32_aw_pcix` does: the core goes from `c0` to `c1` and `r` comes back.
pub open spec fn move_32_aw_pcix_effect(c0: ConfiguredCore, c1: ConfiguredCore, r: Result<Cycles>) -> bool {
    &&& exists|m1: ConfiguredCore, src: Result<u32>|
            #[trigger] operator::pcix_32_rel(c0, m1, src) && match src {
                Err(e) => r == Err::<Cycles, Exception>(e) && c1 == m1,
                Ok(v) => exists|m2: ConfiguredCore, ea: Result<u32>|
                    #[trigger] effective_address::absolute_word_rel(m1, m2, ea) && match ea {
                        Err(e) => r == Err::<Cycles, Exception>(e) && c1 == m2,
                        Ok(a) => exists|m3: ConfiguredCore, w: Result<()>|
                            #[trigger] data_written(m2, m3, 32, a, v, w) && match w {
                                Err(e) => r == Err::<Cycles, Exception>(e) && c1 == m3,
                                Ok(_) => r == Ok::<Cycles, Exception>(Cycles(30))
                                    && c1 == common::move_flags_outcome(m3, v, 24).0,
                            },
                    },
            }
}

/// MOVE to memory: the value is written, then N and Z are set from it.
pub fn move_32_aw_pcix(core: &mut ConfiguredCore) -> (r: Result<Cycles>)
    requires
        old(core).wf(),
    ensures
        final(core).wf(),
        move_32_aw_pcix_effect(*old(core), *final(core), r),
{
    let ghost c0 = *core;
    let src = operator::pcix_32(core);
    let ghost m1 = *core;
    assert(operator::pcix_32_rel(c0, m1, src));
    let v = match src {
        Err(e) => {
            return Err(e);
        },
        Ok(v) => v,
    };
    let m = v;
    let ea = effective_address::absolute_word(core);
    let ghost m2 = *core;
    assert(effective_address::absolute_word_rel(m1, m2, ea));
    let a = match ea {
        Err(e) => {
            return Err(e);
        },
        Ok(a) => a,
    };
    let w = write_sized(core, 32, a, m);
    let ghost m3 = *core;
    assert(data_written(m2, m3, 32, a, m, w));
    match w {
        Err(e) => Err(e),
        Ok(()) => {
            common::move_flags(core, m, 24);
            Ok(Cycles(30))
        },
    }
}

/// What `move_32_al_pcix` does: the core goes from `c0` to `c1` and `r` comes back.
pub open spec fn move_32_al_pcix_effect(c0: ConfiguredCore, c1: ConfiguredCore, r: Result<Cycles>) -> bool {
    &&& exists|m1: ConfiguredCore, src: Result<u32>|
            #[trigger] operator::pcix_32_rel(c0, m1, src) && match src {
                Err(e) => r == Err::<Cycles, Exception>(e) && c1 == m1,
                Ok(v) => exists|m2: ConfiguredCore, ea: Result<u32>|
                    #[trigger] effective_address::absolute_long_rel(m1, m2, ea) && match ea {
                        Err(e) => r == Err::<Cycles, Exception>(e) && c1 == m2,
                        Ok(a) => exists|m3: ConfiguredCore, w: Result<()>|
                            #[trigger] data_written(m2, m3, 32, a, v, w) && match w {
                                Err(e) => r == Err::<Cycles, Exception>(e) && c1 == m3,
                                Ok(_) => r == Ok::<Cycles, Exception>(Cycles(34))
                                    && c1 == common::move_flags_outcome(m3, v, 24).0,
                            },
                    },
            }
}

/// MOVE to memory: the value is written, then N and Z are set from it.
pub fn move_32_al_pcix(core: &mut ConfiguredCore) -> (r: Result<Cycles>)
    requires
        old(core).wf(),
    ensures
        final(core).wf(),
        move_32_al_pcix_effect(*old(core), *final(core), r),
{
    let ghost c0 = *core;
    let src = operator::pcix_32(core);
    let ghost m1 = *core;
    assert(operator::pcix_32_rel(c0, m1, src));
    let v = match src {
        Err(e) => {
            return Err(e);
        },
        Ok(v) => v,
    };
    let m = v;
    let ea = effective_address::absolute_long(core);
    let ghost m2 = *core;
    assert(effective_address::absolute_long_rel(m1, m2, ea));
    let a = match ea {
        Err(e) => {
            return Err(e);
        },
        Ok(a) => a,
    };
    let w = write_sized(core, 32, a, m);
    let ghost m3 = *core;
    assert(data_written(m2, m3, 32, a, m, w));
    match w {
        Err(e) => Err(e),
        Ok(()) => {
            common::move_flags(core, m, 24);
            Ok(Cycles(34))
        },
    }
}

/// What `move_32_dn_imm` does: the core goes from `c0` to `c1` and `r` comes back.
pub open spec fn move_32_dn_imm_effect(c0: ConfiguredCore, c1: ConfiguredCore, r: Result<Cycles>) -> bool {
    &&& exists|mid: ConfiguredCore, src: Result<u32>|
            #[trigger] operator::imm_32_rel(c0, mid, src) && match src {
                Err(e) => r == Err::<Cycles, Exception>(e) && c1 == mid,
                Ok(v) => {
                    let m = v;
                    let reg = ir_dx(mid.ir);
                    &&& r == Ok::<Cycles, Exception>(Cycles(12))
                    &&& reg_set(common::move_flags_outcome(mid, m, 24).0, c1, reg, merged(mid.dar[reg], m, 32))
                },
            }
}

/// MOVE into Dx, with N and Z set from the value moved.
pub fn move_32_dn_imm(core: &mut ConfiguredCore) -> (r: Result<Cycles>)
    requires
        old(core).wf(),
    ensures
        final(core).wf(),
        move_32_dn_imm_effect(*old(core), *final(core), r),
{
    let ghost c0 = *core;
    let src = operator::imm_32(core);
    let ghost mid = *core;
    assert(operator::imm_32_rel(c0, mid, src));
    match src {
        Err(e) => Err(e),
        Ok(v) => {
            let m = v;
            let reg = reg_dx(core.ir);
            let dst = core.dar[reg];
            common::move_flags(core, m, 24);
            set_reg(core, reg, merge(dst, m, 32));
            Ok(Cycles(12))
        },
    }
}

/// What `move_32_ai_imm` does: the core goes from `c0` to `c1` and `r` comes back.
pub open spec fn move_32_ai_imm_effect(c0: ConfiguredCore, c1: ConfiguredCore, r: Result<Cycles>) -> bool {
    &&& exists|m1: ConfiguredCore, src: Result<u32>|
            #[trigger] operator::imm_32_rel(c0, m1, src) && match src {
                Err(e) => r == Err::<Cycles, Exception>(e) && c1 == m1,
                Ok(v) => exists|m2: ConfiguredCore, ea: Result<u32>|
                    #[trigger] effective_address::address_indirect_ax_rel(m1, m2, ea) && match ea {
                        Err(e) => r == Err::<Cycles, Exception>(e) && c1 == m2,
                        Ok(a) => exists|m3: ConfiguredCore, w: Result<()>|
                            #[trigger] data_written(m2, m3, 32, a, v, w) && match w {
                                Err(e) => r == Err::<Cycles, Exception>(e) && c1 == m3,
                                Ok(_) => r == Ok::<Cycles, Exception>(Cycles(20))
                                    && c1 == common::move_flags_outcome(m3, v, 24).0,
                            },
                    },
            }
}

/// MOVE to memory: the value is written, then N and Z are set from it.
pub fn move_32_ai_imm(core: &mut ConfiguredCore) -> (r: Result<Cycles>)
    requires
        old(core).wf(),
    ensures
        final(core).wf(),
        move_32_ai_imm_effect(*old(core), *final(core), r),
{
    let ghost c0 = *core;
    let src = operator::imm_32(core);
    let ghost m1 = *core;
    assert(operator::imm_32_rel(c0, m1, src));
    let v = match src {
        Err(e) => {
            return Err(e);
        },
        Ok(v) => v,
    };
    let m = v;
    let ea = effective_address::address_indirect_ax(core);
    let ghost m2 = *core;
    assert(effective_address::address_indirect_ax_rel(m1, m2, ea));
    let a = match ea {
        Err(e) => {
            return Err(e);
        },
        Ok(a) => a,
    };
    let w = write_sized(core, 32, a, m);
    let ghost m3 = *core;
    assert(data_written(m2, m3, 32, a, m, w));
    match w {
        Err(e) => Err(e),
        Ok(()) => {
            common::move_flags(core, m, 24);
            Ok(Cycles(20))
        },
    }
}

/// What `move_32_pi_imm` does: the core goes from `c0` to `c1` and `r` comes back.
pub open spec fn move_32_pi_imm_effect(c0: ConfiguredCore, c1: ConfiguredCore, r: Result<Cycles>) -> bool {
    &&& exists|m1: ConfiguredCore, src: Result<u32>|
            #[trigger] operator::imm_32_rel(c0, m1, src) && match src {
                Err(e) => r == Err::<Cycles, Exception>(e) && c1 == m1,
                Ok(v) => exists|m2: ConfiguredCore, ea: Result<u32>|
                    #[trigger] effective_address::postincrement_ax_32_rel(m1, m2, ea) && match ea {
                        Err(e) => r == Err::<Cycles, Exception>(e) && c1 == m2,
                        Ok(a) => exists|m3: ConfiguredCore, w: Result<()>|
                            #[trigger] data_written(m2, m3, 32, a, v, w) && match w {
                                Err(e) => r == Err::<Cycles, Exception>(e) && c1 == m3,
                                Ok(_) => r == Ok::<Cycles, Exception>(Cycles(20))
                                    && c1 == common::move_flags_outcome(m3, v, 24).0,
                            },
                    },
            }
}

/// MOVE to memory: the value is written, then N and Z are set from it.
pub fn move_32_pi_imm(core: &mut ConfiguredCore) -> (r: Result<Cycles>)
    requires
        old(core).wf(),
    ensures
        final(core).wf(),
        move_32_pi_imm_effect(*old(core), *final(core), r),
{
    let ghost c0 = *core;
    let src = operator::imm_32(core);
    let ghost m1 = *core;
    assert(operator::imm_32_rel(c0, m1, src));
    let v = match src {
        Err(e) => {
            return Err(e);
        },
        Ok(v) => v,
    };
    let m = v;
    let ea = effective_address::postincrement_ax_32(core);
    let ghost m2 = *core;
    assert(effective_address::postincrement_ax_32_rel(m1, m2, ea));
    let a = match ea {
        Err(e) => {
            return Err(e);
        },
        Ok(a) => a,
    };
    let w = write_sized(core, 32, a, m);
    let ghost m3 = *core;
    assert(data_written(m2, m3, 32, a, m, w));
    match w {
        Err(e) => Err(e),
        Ok(()) => {
            common::move_flags(core, m, 24);
            Ok(Cycles(20))
        },
    }
}

/// What `move_32_pd_imm` does: the core goes from `c0` to `c1` and `r` comes back.
pub open spec fn move_32_pd_imm_effect(c0: ConfiguredCore, c1: ConfiguredCore, r: Result<Cycles>) -> bool {
    &&& exists|m1: ConfiguredCore, src: Result<u32>|
            #[trigger] operator::imm_32_rel(c0, m1, src) && match src {
                Err(e) => r == Err::<Cycles, Exception>(e) && c1 == m1,
                Ok(v) => exists|m2: ConfiguredCore, ea: Result<u32>|
                    #[trigger] effective_address::predecrement_ax_32_rel(m1, m2, ea) && match ea {
                        Err(e) => r == Err::<Cycles, Exception>(e) && c1 == m2,
                        Ok(a) => exists|m3: ConfiguredCore, w: Result<()>|
                            #[trigger] data_written(m2, m3, 32, a, v, w) && match w {
                                Err(e) => r == Err::<Cycles, Exception>(e) && c1 == m3,
                                Ok(_) => r == Ok::<Cycles, Exception>(Cycles(20))
                                    && c1 == common::move_flags_outcome(m3, v, 24).0,
                            },
                    },
            }
}

/// MOVE to memory: the value is written, then N and Z are set from it.
pub fn move_32_pd_imm(core: &mut ConfiguredCore) -> (r: Result<Cycles>)
    requires
        old(core).wf(),
    ensures
        final(core).wf(),
        move_32_pd_imm_effect(*old(core), *final(core), r),
{
    let ghost c0 = *core;
    let src = operator::imm_32(core);
    let ghost m1 = *core;
    assert(operator::imm_32_rel(c0, m1, src));
    let v = match src {
        Err(e) => {
            return Err(e);
        },
        Ok(v) => v,
    };
    let m = v;
    let ea = effective_address::predecrement_ax_32(core);
    let ghost m2 = *core;
    assert(effective_address::predecrement_ax_32_rel(m1, m2, ea));
    let a = match ea {
        Err(e) => {
            return Err(e);
        },
        Ok(a) => a,
    };
    let w = write_sized(core, 32, a, m);
    let ghost m3 = *core;
    assert(data_written(m2, m3, 32, a, m, w));
    match w {
        Err(e) => Err(e),
        Ok(()) => {
            common::move_flags(core, m, 24);
            Ok(Cycles(20))
        },
    }
}

/// What `move_32_di_imm` does: the core goes from `c0` to `c1` and `r` comes back.
pub open spec fn move_32_di_imm_effect(c0: ConfiguredCore, c1: ConfiguredCore, r: Result<Cycles>) -> bool {
    &&& exists|m1: ConfiguredCore, src: Result<u32>|
            #[trigger] operator::imm_32_rel(c0, m1, src) && match src {
                Err(e) => r == Err::<Cycles, Exception>(e) && c1 == m1,
                Ok(v) => exists|m2: ConfiguredCore, ea: Result<u32>|
                    #[trigger] effective_address::displacement_ax_rel(m1, m2, ea) && match ea {
                        Err(e) => r == Err::<Cycles, Exception>(e) && c1 == m2,
                        Ok(a) => exists|m3: ConfiguredCore, w: Result<()>|
                            #[trigger] data_written(m2, m3, 32, a, v, w) && match w {
                                Err(e) => r == Err::<Cycles, Exception>(e) && c1 == m3,
                                Ok(_) => r == Ok::<Cycles, Exception>(Cycles(24))
                                    && c1 == common::move_flags_outcome(m3, v, 24).0,
                            },
                    },
            }
}

/// MOVE to memory: the value is written, then N and Z are set from it.
pub fn move_32_di_imm(core: &mut ConfiguredCore) -> (r: Result<Cycles>)
    requires
        old(core).wf(),
    ensures
        final(core).wf(),
        move_32_di_imm_effect(*old(core), *final(core), r),
{
    let ghost c0 = *core;
    let src = operator::imm_32(core);
    let ghost m1 = *core;
    assert(operator::imm_32_rel(c0, m1, src));
    let v = match src {
        Err(e) => {
            return Err(e);
        },
        Ok(v) => v,
    };
    let m = v;
    let ea = effective_address::displacement_ax(core);
    let ghost m2 = *core;
    assert(effective_address::displacement_ax_rel(m1, m2, ea));
    let a = match ea {
        Err(e) => {
            return Err(e);
        },
        Ok(a) => a,
    };
    let w = write_sized(core, 32, a, m);
    let ghost m3 = *core;
    assert(data_written(m2, m3, 32, a, m, w));
    match w {
        Err(e) => Err(e),
        Ok(()) => {
            common::move_flags(core, m, 24);
            Ok(Cycles(24))
        },
    }
}

/// What `move_32_ix_imm` does: the core goes from `c0` to `c1` and `r` comes back.
pub open spec fn move_32_ix_imm_effect(c0: ConfiguredCore, c1: ConfiguredCore, r: Result<Cycles>) -> bool {
    &&& exists|m1: ConfiguredCore, src: Result<u32>|
            #[trigger] operator::imm_32_rel(c0, m1, src) && match src {
                Err(e) => r == Err::<Cycles, Exception>(e) && c1 == m1,
                Ok(v) => exists|m2: ConfiguredCore, ea: Result<u32>|
                    #[trigger] effective_address::index_ax_rel(m1, m2, ea) && match ea {
                        Err(e) => r == Err::<Cycles, Exception>(e) && c1 == m2,
                        Ok(a) => exists|m3: ConfiguredCore, w: Result<()>|
                            #[trigger] data_written(m2, m3, 32, a, v, w) && match w {
                                Err(e) => r == Err::<Cycles, Exception>(e) && c1 == m3,
                                Ok(_) => r == Ok::<Cycles, Exception>(Cycles(26))
                                    && c1 == common::move_flags_outcome(m3, v, 24).0,
                            },
                    },
            }
}

/// MOVE to memory: the value is written, then N and Z are set from it.
pub fn move_32_ix_imm(core: &mut ConfiguredCore) -> (r: Result<Cycles>)
    requires
        old(core).wf(),
    ensures
        final(core).wf(),
        move_32_ix_imm_effect(*old(core), *final(core), r),
{
    let ghost c0 = *core;
    let src = operator::imm_32(core);
    let ghost m1 = *core;
    assert(operator::imm_32_rel(c0, m1, src));
    let v = match src {
        Err(e) => {
            return Err(e);
        },
        Ok(v) => v,
    };
    let m = v;
    let ea = effective_address::index_ax(core);
    let ghost m2 = *core;
    assert(effective_address::index_ax_rel(m1, m2, ea));
    let a = match ea {
        Err(e) => {
            return Err(e);
        },
        Ok(a) => a,
    };
    let w = write_sized(core, 32, a, m);
    let ghost m3 = *core;
    assert(data_written(m2, m3, 32, a, m, w));
    match w {
        Err(e) => Err(e),
        Ok(()) => {
            common::move_flags(core, m, 24);
            Ok(Cycles(26))
        },
    }
}

/// What `move_32_aw_imm` does: the core goes from `c0` to `c1` and `r` comes back.
pub open spec fn move_32_aw_imm_effect(c0: ConfiguredCore, c1: ConfiguredCore, r: Result<Cycles>) -> bool {
    &&& exists|m1: ConfiguredCore, src: Result<u32>|
            #[trigger] operator::imm_32_rel(c0, m1, src) && match src {
                Err(e) => r == Err::<Cycles, Exception>(e) && c1 == m1,
                Ok(v) => exists|m2: ConfiguredCore, ea: Result<u32>|
                    #[trigger] effective_address::absolute_word_rel(m1, m2, ea) && match ea {
                        Err(e) => r == Err::<Cycles, Exception>(e) && c1 == m2,
                        Ok(a) => exists|m3: ConfiguredCore, w: Result<()>|
                            #[trigger] data_written(m2, m3, 32, a, v, w) && match w {
                                Err(e) => r == Err::<Cycles, Exception>(e) && c1 == m3,
                                Ok(_) => r == Ok::<Cycles, Exception>(Cycles(24))
                                    && c1 == common::move_flags_outcome(m3, v, 24).0,
                            },
                    },
            }
}

/// MOVE to memory: the value is written, then N and Z are set from it.
pub fn move_32_aw_imm(core: &mut ConfiguredCore) -> (r: Result<Cycles>)
    requires
        old(core).wf(),
    ensures
        final(core).wf(),
        move_32_aw_imm_effect(*old(core), *final(core), r),
{
    let ghost c0 = *core;
    let src = operator::imm_32(core);
    let ghost m1 = *core;
    assert(operator::imm_32_rel(c0, m1, src));
    let v = match src {
        Err(e) => {
            return Err(e);
        },
        Ok(v) => v,
    };
    let m = v;
    let ea = effective_address::absolute_word(core);
    let ghost m2 = *core;
    assert(effective_address::absolute_word_rel(m1, m2, ea));
    let a = match ea {
        Err(e) => {
            return Err(e);
        },
        Ok(a) => a,
    };
    let w = write_sized(core, 32, a, m);
    let ghost m3 = *core;
    assert(data_written(m2, m3, 32, a, m, w));
    match w {
        Err(e) => Err(e),
        Ok(()) => {
            common::move_flags(core, m, 24);
            Ok(Cycles(24))
        },
    }
}

/// What `move_32_al_imm` does: the core goes from `c0` to `c1` and `r` comes back.
pub open spec fn move_32_al_imm_effect(c0: ConfiguredCore, c1: ConfiguredCore, r: Result<Cycles>) -> bool {
    &&& exists|m1: ConfiguredCore, src: Result<u32>|
            #[trigger] operator::imm_32_rel(c0, m1, src) && match src {
                Err(e) => r == Err::<Cycles, Exception>(e) && c1 == m1,
                Ok(v) => exists|m2: ConfiguredCore, ea: Result<u32>|
                    #[trigger] effective_address::absolute_long_rel(m1, m2, ea) && match ea {
                        Err(e) => r == Err::<Cycles, Exception>(e) && c1 == m2,
                        Ok(a) => exists|m3: ConfiguredCore, w: Result<()>|
                            #[trigger] data_written(m2, m3, 32, a, v, w) && match w {
                                Err(e) => r == Err::<Cycles, Exception>(e) && c1 == m3,
                                Ok(_) => r == Ok::<Cycles, Exception>(Cycles(28))
                                    && c1 == common::move_flags_outcome(m3, v, 24).0,
                            },
                    },
            }
}

/// MOVE to memory: the value is written, then N and Z are set from it.
pub fn move_32_al_imm(core: &mut ConfiguredCore) -> (r: Result<Cycles>)
    requires
        old(core).wf(),
    ensures
        final(core).wf(),
        move_32_al_imm_effect(*old(core), *final(core), r),
{
    let ghost c0 = *core;
    let src = operator::imm_32(core);
    let ghost m1 = *core;
    assert(operator::imm_32_rel(c0, m1, src));
    let v = match src {
        Err(e) => {
            return Err(e);
        },
        Ok(v) => v,
    };
    let m = v;
    let ea = effective_address::absolute_long(core);
    let ghost m2 = *core;
    assert(effective_address::absolute_long_rel(m1, m2, ea));
    let a = match ea {
        Err(e) => {
            return Err(e);
        },
        Ok(a) => a,
    };
    let w = write_sized(core, 32, a, m);
    let ghost m3 = *core;
    assert(data_written(m2, m3, 32, a, m, w));
    match w {
        Err(e) => Err(e),
        Ok(()) => {
            common::move_flags(core, m, 24);
            Ok(Cycles(28))
        },
    }
}

/// What `movea_16_dn` does: the core goes from `c0` to `c1` and `r` comes back.
pub open spec fn movea_16_dn_effect(c0: ConfiguredCore, c1: ConfiguredCore, r: Result<Cycles>) -> bool {
    &&& exists|mid: ConfiguredCore, src: Result<u32>|
            #[trigger] operator::dy_rel(c0, mid, src) && match src {
                Err(e) => r == Err::<Cycles, Exception>(e) && c1 == mid,
                Ok(v) => {
                    &&& r == Ok::<Cycles, Exception>(Cycles(4))
                    &&& reg_set(mid, c1, ir_ax(mid.ir), (v as i16) as u32)
                },
            }
}

/// MOVEA: the source operand, sign-extended from a word, into Ax; no flag changes.
pub fn movea_16_dn(core: &mut ConfiguredCore) -> (r: Result<Cycles>)
    requires
        old(core).wf(),
    ensures
        final(core).wf(),
        movea_16_dn_effect(*old(core), *final(core), r),
{
    let ghost c0 = *core;
    let src = operator::dy(core);
    let ghost mid = *core;
    assert(operator::dy_rel(c0, mid, src));
    match src {
        Err(e) => Err(e),
        Ok(v) => {
            let reg = reg_ax(core.ir);
            set_reg(core, reg, (v as i16) as u32);
            Ok(Cycles(4))
        },
    }
}

/// What `movea_16_an` does: the core goes from `c0` to `c1` and `r` comes back.
pub open spec fn movea_16_an_effect(c0: ConfiguredCore, c1: ConfiguredCore, r: Result<Cycles>) -> bool {
    &&& exists|mid: ConfiguredCore, src: Result<u32>|
            #[trigger] operator::ay_rel(c0, mid, src) && match src {
                Err(e) => r == Err::<Cycles, Exception>(e) && c1 == mid,
                Ok(v) => {
                    &&& r == Ok::<Cycles, Exception>(Cycles(4))
                    &&& reg_set(mid, c1, ir_ax(mid.ir), (v as i16) as u32)
                },
            }
}

/// MOVEA: the source operand, sign-extended from a word, into Ax; no flag changes.
pub fn movea_16_an(core: &mut ConfiguredCore) -> (r: Result<Cycles>)
    requires
        old(core).wf(),
    ensures
        final(core).wf(),
        movea_16_an_effect(*old(core), *final(core), r),
{
    let ghost c0 = *core;
    let src = operator::ay(core);
    let ghost mid = *core;
    assert(operator::ay_rel(c0, mid, src));
    match src {
        Err(e) => Err(e),
        Ok(v) => {
            let reg = reg_ax(core.ir);
            set_reg(core, reg, (v as i16) as u32);
            Ok(Cycles(4))
        },
    }
}

/// What `movea_16_ai` does: the core goes from `c0` to `c1` and `r` comes back.
pub open spec fn movea_16_ai_effect(c0: ConfiguredCore, c1: ConfiguredCore, r: Result<Cycles>) -> bool {
    &&& exists|mid: ConfiguredCore, src: Result<u32>|
            #[trigger] operator::ay_ai_16_rel(c0, mid, src) && match src {
                Err(e) => r == Err::<Cycles, Exception>(e) && c1 == mid,
                Ok(v) => {
                    &&& r == Ok::<Cycles, Exception>(Cycles(8))
                    &&& reg_set(mid, c1, ir_ax(mid.ir), (v as i16) as u32)
                },
            }
}

/// MOVEA: the source operand, sign-extended from a word, into Ax; no flag changes.
pub fn movea_16_ai(core: &mut ConfiguredCore) -> (r: Result<Cycles>)
    requires
        old(core).wf(),
    ensures
        final(core).wf(),
        movea_16_ai_effect(*old(core), *final(core), r),
{
    let ghost c0 = *core;
    let src = operator::ay_ai_16(core);
    let ghost mid = *core;
    assert(operator::ay_ai_16_rel(c0, mid, src));
    match src {
        Err(e) => Err(e),
        Ok(v) => {
            let reg = reg_ax(core.ir);
            set_reg(core, reg, (v as i16) as u32);
            Ok(Cycles(8))
        },
    }
}

/// What `movea_16_pi` does: the core goes from `c0` to `c1` and `r` comes back.
pub open spec fn movea_16_pi_effect(c0: ConfiguredCore, c1: ConfiguredCore, r: Result<Cycles>) -> bool {
    &&& exists|mid: ConfiguredCore, src: Result<u32>|
            #[trigger] operator::ay_pi_16_rel(c0, mid, src) && match src {
                Err(e) => r == Err::<Cycles, Exception>(e) && c1 == mid,
                Ok(v) => {
                    &&& r == Ok::<Cycles, Exception>(Cycles(8))
                    &&& reg_set(mid, c1, ir_ax(mid.ir), (v as i16) as u32)
                },
            }
}

/// MOVEA: the source operand, sign-extended from a word, into Ax; no flag changes.
pub fn movea_16_pi(core: &mut ConfiguredCore) -> (r: Result<Cycles>)
    requires
        old(core).wf(),
    ensures
        final(core).wf(),
        movea_16_pi_effect(*old(core), *final(core), r),
{
    let ghost c0 = *core;
    let src = operator::ay_pi_16(core);
    let ghost mid = *core;
    assert(operator::ay_pi_16_rel(c0, mid, src));
    match src {
        Err(e) => Err(e),
        Ok(v) => {
            let reg = reg_ax(core.ir);
            set_reg(core, reg, (v as i16) as u32);
            Ok(Cycles(8))
        },
    }
}

/// What `movea_16_pd` does: the core goes from `c0` to `c1` and `r` comes back.
pub open spec fn movea_16_pd_effect(c0: ConfiguredCore, c1: ConfiguredCore, r: Result<Cycles>) -> bool {
    &&& exists|mid: ConfiguredCore, src: Result<u32>|
            #[trigger] operator::ay_pd_16_rel(c0, mid, src) && match src {
                Err(e) => r == Err::<Cycles, Exception>(e) && c1 == mid,
                Ok(v) => {
                    &&& r == Ok::<Cycles, Exception>(Cycles(10))
                    &&& reg_set(mid, c1, ir_ax(mid.ir), (v as i16) as u32)
                },
            }
}

/// MOVEA: the source operand, sign-extended from a word, into Ax; no flag changes.
pub fn movea_16_pd(core: &mut ConfiguredCore) -> (r: Result<Cycles>)
    requires
        old(core).wf(),
    ensures
        final(core).wf(),
        movea_16_pd_effect(*old(core), *final(core), r),
{
    let ghost c0 = *core;
    let src = operator::ay_pd_16(core);
    let ghost mid = *core;
    assert(operator::ay_pd_16_rel(c0, mid, src));
    match src {
        Err(e) => Err(e),
        Ok(v) => {
            let reg = reg_ax(core.ir);
            set_reg(core, reg, (v as i16) as u32);
            Ok(Cycles(10))
        },
    }
}

/// What `movea_16_di` does: the core goes from `c0` to `c1` and `r` comes back.
pub open spec fn movea_16_di_effect(c0: ConfiguredCore, c1: ConfiguredCore, r: Result<Cycles>) -> bool {
    &&& exists|mid: ConfiguredCore, src: Result<u32>|
            #[trigger] operator::ay_di_16_rel(c0, mid, src) && match src {
                Err(e) => r == Err::<Cycles, Exception>(e) && c1 == mid,
                Ok(v) => {
                    &&& r == Ok::<Cycles, Exception>(Cycles(12))
                    &&& reg_set(mid, c1, ir_ax(mid.ir), (v as i16) as u32)
                },
            }
}

/// MOVEA: the source operand, sign-extended from a word, into Ax; no flag changes.
pub fn movea_16_di(core: &mut ConfiguredCore) -> (r: Result<Cycles>)
    requires
        old(core).wf(),
    ensures
        final(core).wf(),
        movea_16_di_effect(*old(core), *final(core), r),
{
    let ghost c0 = *core;
    let src = operator::ay_di_16(core);
    let ghost mid = *core;
    assert(operator::ay_di_16_rel(c0, mid, src));
    match src {
        Err(e) => Err(e),
        Ok(v) => {
            let reg = reg_ax(core.ir);
            set_reg(core, reg, (v as i16) as u32);
            Ok(Cycles(12))
        },
    }
}

/// What `movea_16_ix` does: the core goes from `c0` to `c1` and `r` comes back.
pub open spec fn movea_16_ix_effect(c0: ConfiguredCore, c1: ConfiguredCore, r: Result<Cycles>) -> bool {
    &&& exists|mid: ConfiguredCore, src: Result<u32>|
            #[trigger] operator::ay_ix_16_rel(c0, mid, src) && match src {
                Err(e) => r == Err::<Cycles, Exception>(e) && c1 == mid,
                Ok(v) => {
                    &&& r == Ok::<Cycles, Exception>(Cycles(14))
                    &&& reg_set(mid, c1, ir_ax(mid.ir), (v as i16) as u32)
                },
            }
}

/// MOVEA: the source operand, sign-extended from a word, into Ax; no flag changes.
pub fn movea_16_ix(core: &mut ConfiguredCore) -> (r: Result<Cycles>)
    requires
        old(core).wf(),
    ensures
        final(core).wf(),
        movea_16_ix_effect(*old(core), *final(core), r),
{
    let ghost c0 = *core;
    let src = operator::ay_ix_16(core);
    let ghost mid = *core;
    assert(operator::ay_ix_16_rel(c0, mid, src));
    match src {
        Err(e) => Err(e),
        Ok(v) => {
            let reg = reg_ax(core.ir);
            set_reg(core, reg, (v as i16) as u32);
            Ok(Cycles(14))
        },
    }
}

/// What `movea_16_aw` does: the core goes from `c0` to `c1` and `r` comes back.
pub open spec fn movea_16_aw_effect(c0: ConfiguredCore, c1: ConfiguredCore, r: Result<Cycles>) -> bool {
    &&& exists|mid: ConfiguredCore, src: Result<u32>|
            #[trigger] operator::aw_16_rel(c0, mid, src) && match src {
                Err(e) => r == Err::<Cycles, Exception>(e) && c1 == mid,
                Ok(v) => {
                    &&& r == Ok::<Cycles, Exception>(Cycles(12))
                    &&& reg_set(mid, c1, ir_ax(mid.ir), (v as i16) as u32)
                },
            }
}

/// MOVEA: the source operand, sign-extended from a word, into Ax; no flag changes.
pub fn movea_16_aw(core: &mut ConfiguredCore) -> (r: Result<Cycles>)
    requires
        old(core).wf(),
    ensures
        final(core).wf(),
        movea_16_aw_effect(*old(core), *final(core), r),
{
    let ghost c0 = *core;
    let src = operator::aw_16(core);
    let ghost mid = *core;
    assert(operator::aw_16_rel(c0, mid, src));
    match src {
        Err(e) => Err(e),
        Ok(v) => {
            let reg = reg_ax(core.ir);
            set_reg(core, reg, (v as i16) as u32);
            Ok(Cycles(12))
        },
    }
}

/// What `movea_16_al` does: the core goes from `c0` to `c1` and `r` comes back.
pub open spec fn movea_16_al_effect(c0: ConfiguredCore, c1: ConfiguredCore, r: Result<Cycles>) -> bool {
    &&& exists|mid: ConfiguredCore, src: Result<u32>|
            #[trigger] operator::al_16_rel(c0, mid, src) && match src {
                Err(e) => r == Err::<Cycles, Exception>(e) && c1 == mid,
                Ok(v) => {
                    &&& r == Ok::<Cycles, Exception>(Cycles(16))
                    &&& reg_set(mid, c1, ir_ax(mid.ir), (v as i16) as u32)
                },
            }
}

/// MOVEA: the source operand, sign-extended from a word, into Ax; no flag changes.
pub fn movea_16_al(core: &mut ConfiguredCore) -> (r: Result<Cycles>)
    requires
        old(core).wf(),
    ensures
        final(core).wf(),
        movea_16_al_effect(*old(core), *final(core), r),
{
    let ghost c0 = *core;
    let src = operator::al_16(core);
    let ghost mid = *core;
    assert(operator::al_16_rel(c0, mid, src));
    match src {
        Err(e) => Err(e),
        Ok(v) => {
            let reg = reg_ax(core.ir);
            set_reg(core, reg, (v as i16) as u32);
            Ok(Cycles(16))
        },
    }
}

/// What `movea_16_pcdi` does: the core goes from `c0` to `c1` and `r` comes back.
pub open spec fn movea_16_pcdi_effect(c0: ConfiguredCore, c1: ConfiguredCore, r: Result<Cycles>) -> bool {
    &&& exists|mid: ConfiguredCore, src: Result<u32>|
            #[trigger] operator::pcdi_16_rel(c0, mid, src) && match src {
                Err(e) => r == Err::<Cycles, Exception>(e) && c1 == mid,
                Ok(v) => {
                    &&& r == Ok::<Cycles, Exception>(Cycles(12))
                    &&& reg_set(mid, c1, ir_ax(mid.ir), (v as i16) as u32)
                },
            }
}

/// MOVEA: the source operand, sign-extended from a word, into Ax; no flag changes.
pub fn movea_16_pcdi(core: &mut ConfiguredCore) -> (r: Result<Cycles>)
    requires
        old(core).wf(),
    ensures
        final(core).wf(),
        movea_16_pcdi_effect(*old(core), *final(core), r),
{
    let ghost c0 = *core;
    let src = operator::pcdi_16(core);
    let ghost mid = *core;
    assert(operator::pcdi_16_rel(c0, mid, src));
    match src {
        Err(e) => Err(e),
        Ok(v) => {
            let reg = reg_ax(core.ir);
            set_reg(core, reg, (v as i16) as u32);
            Ok(Cycles(12))
        },
    }
}

/// What `movea_16_pcix` does: the core goes from `c0` to `c1` and `r` comes back.
pub open spec fn movea_16_pcix_effect(c0: ConfiguredCore, c1: ConfiguredCore, r: Result<Cycles>) -> bool {
    &&& exists|mid: ConfiguredCore, src: Result<u32>|
            #[trigger] operator::pcix_16_rel(c0, mid, src) && match src {
                Err(e) => r == Err::<Cycles, Exception>(e) && c1 == mid,
                Ok(v) => {
                    &&& r == Ok::<Cycles, Exception>(Cycles(14))
                    &&& reg_set(mid, c1, ir_ax(mid.ir), (v as i16) as u32)
                },
            }
}

/// MOVEA: the source operand, sign-extended from a word, into Ax; no flag changes.
pub fn movea_16_pcix(core: &mut ConfiguredCore) -> (r: Result<Cycles>)
    requires
        old(core).wf(),
    ensures
        final(core).wf(),
        movea_16_pcix_effect(*old(core), *final(core), r),
{
    let ghost c0 = *core;
    let src = operator::pcix_16(core);
    let ghost mid = *core;
    assert(operator::pcix_16_rel(c0, mid, src));
    match src {
        Err(e) => Err(e),
        Ok(v) => {
            let reg = reg_ax(core.ir);
            set_reg(core, reg, (v as i16) as u32);
            Ok(Cycles(14))
        },
    }
}

/// What `movea_16_imm` does: the core goes from `c0` to `c1` and `r` comes back.
pub open spec fn movea_16_imm_effect(c0: ConfiguredCore, c1: ConfiguredCore, r: Result<Cycles>) -> bool {
    &&& exists|mid: ConfiguredCore, src: Result<u32>|
            #[trigger] operator::imm_16_rel(c0, mid, src) && match src {
                Err(e) => r == Err::<Cycles, Exception>(e) && c1 == mid,
                Ok(v) => {
                    &&& r == Ok::<Cycles, Exception>(Cycles(8))
                    &&& reg_set(mid, c1, ir_ax(mid.ir), (v as i16) as u32)
                },
            }
}

/// MOVEA: the source operand, sign-extended from a word, into Ax; no flag changes.
pub fn movea_16_imm(core: &mut ConfiguredCore) -> (r: Result<Cycles>)
    requires
        old(core).wf(),
    ensures
        final(core).wf(),
        movea_16_imm_effect(*old(core), *final(core), r),
{
    let ghost c0 = *core;
    let src = operator::imm_16(core);
    let ghost mid = *core;
    assert(operator::imm_16_rel(c0, mid, src));
    match src {
        Err(e) => Err(e),
        Ok(v) => {
            let reg = reg_ax(core.ir);
            set_reg(core, reg, (v as i16) as u32);
            Ok(Cycles(8))
        },
    }
}

/// What `movea_32_dn` does: the core goes from `c0` to `c1` and `r` comes back.
pub open spec fn movea_32_dn_effect(c0: ConfiguredCore, c1: ConfiguredCore, r: Result<Cycles>) -> bool {
    &&& exists|mid: ConfiguredCore, src: Result<u32>|
            #[trigger] operator::dy_rel(c0, mid, src) && match src {
                Err(e) => r == Err::<Cycles, Exception>(e) && c1 == mid,
                Ok(v) => {
                    &&& r == Ok::<Cycles, Exception>(Cycles(4))
                    &&& reg_set(mid, c1, ir_ax(mid.ir), v)
                },
            }
}

/// MOVEA: the source operand into Ax; no flag changes.
pub fn movea_32_dn(core: &mut ConfiguredCore) -> (r: Result<Cycles>)
    requires
        old(core).wf(),
    ensures
        final(core).wf(),
        movea_32_dn_effect(*old(core), *final(core), r),
{
    let ghost c0 = *core;
    let src = operator::dy(core);
    let ghost mid = *core;
    assert(operator::dy_rel(c0, mid, src));
    match src {
        Err(e) => Err(e),
        Ok(v) => {
            let reg = reg_ax(core.ir);
            set_reg(core, reg, v);
            Ok(Cycles(4))
        },
    }
}

/// What `movea_32_an` does: the core goes from `c0` to `c1` and `r` comes back.
pub open spec fn movea_32_an_effect(c0: ConfiguredCore, c1: ConfiguredCore, r: Result<Cycles>) -> bool {
    &&& exists|mid: ConfiguredCore, src: Result<u32>|
            #[trigger] operator::ay_rel(c0, mid, src) && match src {
                Err(e) => r == Err::<Cycles, Exception>(e) && c1 == mid,
                Ok(v) => {
                    &&& r == Ok::<Cycles, Exception>(Cycles(4))
                    &&& reg_set(mid, c1, ir_ax(mid.ir), v)
                },
            }
}

/// MOVEA: the source operand into Ax; no flag changes.
pub fn movea_32_an(core: &mut ConfiguredCore) -> (r: Result<Cycles>)
    requires
        old(core).wf(),
    ensures
        final(core).wf(),
        movea_32_an_effect(*old(core), *final(core), r),
{
    let ghost c0 = *core;
    let src = operator::ay(core);
    let ghost mid = *core;
    assert(operator::ay_rel(c0, mid, src));
    match src {
        Err(e) => Err(e),
        Ok(v) => {
            let reg = reg_ax(core.ir);
            set_reg(core, reg, v);
            Ok(Cycles(4))
        },
    }
}

/// What `movea_32_ai` does: the core goes from `c0` to `c1` and `r` comes back.
pub open spec fn movea_32_ai_effect(c0: ConfiguredCore, c1: ConfiguredCore, r: Result<Cycles>) -> bool {
    &&& exists|mid: ConfiguredCore, src: Result<u32>|
            #[trigger] operator::ay_ai_32_rel(c0, mid, src) && match src {
                Err(e) => r == Err::<Cycles, Exception>(e) && c1 == mid,
                Ok(v) => {
                    &&& r == Ok::<Cycles, Exception>(Cycles(12))
                    &&& reg_set(mid, c1, ir_ax(mid.ir), v)
                },
            }
}

/// MOVEA: the source operand into Ax; no flag changes.
pub fn movea_32_ai(core: &mut ConfiguredCore) -> (r: Result<Cycles>)
    requires
        old(core).wf(),
    ensures
        final(core).wf(),
        movea_32_ai_effect(*old(core), *final(core), r),
{
    let ghost c0 = *core;
    let src = operator::ay_ai_32(core);
    let ghost mid = *core;
    assert(operator::ay_ai_32_rel(c0, mid, src));
    match src {
        Err(e) => Err(e),
        Ok(v) => {
            let reg = reg_ax(core.ir);
            set_reg(core, reg, v);
            Ok(Cycles(12))
        },
    }
}

/// What `movea_32_pi` does: the core goes from `c0` to `c1` and `r` comes back.
pub open spec fn movea_32_pi_effect(c0: ConfiguredCore, c1: ConfiguredCore, r: Result<Cycles>) -> bool {
    &&& exists|mid: ConfiguredCore, src: Result<u32>|
            #[trigger] operator::ay_pi_32_rel(c0, mid, src) && match src {
                Err(e) => r == Err::<Cycles, Exception>(e) && c1 == mid,
                Ok(v) => {
                    &&& r == Ok::<Cycles, Exception>(Cycles(12))
                    &&& reg_set(mid, c1, ir_ax(mid.ir), v)
                },
            }
}

/// MOVEA: the source operand into Ax; no flag changes.
pub fn movea_32_pi(core: &mut ConfiguredCore) -> (r: Result<Cycles>)
    requires
        old(core).wf(),
    ensures
        final(core).wf(),
        movea_32_pi_effect(*old(core), *final(core), r),
{
    let ghost c0 = *core;
    let src = operator::ay_pi_32(core);
    let ghost mid = *core;
    assert(operator::ay_pi_32_rel(c0, mid, src));
    match src {
        Err(e) => Err(e),
        Ok(v) => {
            let reg = reg_ax(core.ir);
            set_reg(core, reg, v);
            Ok(Cycles(12))
        },
    }
}

/// What `movea_32_pd` does: the core goes from `c0` to `c1` and `r` comes back.
pub open spec fn movea_32_pd_effect(c0: ConfiguredCore, c1: ConfiguredCore, r: Result<Cycles>) -> bool {
    &&& exists|mid: ConfiguredCore, src: Result<u32>|
            #[trigger] operator::ay_pd_32_rel(c0, mid, src) && match src {
                Err(e) => r == Err::<Cycles, Exception>(e) && c1 == mid,
                Ok(v) => {
                    &&& r == Ok::<Cycles, Exception>(Cycles(14))
                    &&& reg_set(mid, c1, ir_ax(mid.ir), v)
                },
            }
}

/// MOVEA: the source operand into Ax; no flag changes.
pub fn movea_32_pd(core: &mut ConfiguredCore) -> (r: Result<Cycles>)
    requires
        old(core).wf(),
    ensures
        final(core).wf(),
        movea_32_pd_effect(*old(core), *final(core), r),
{
    let ghost c0 = *core;
    let src = operator::ay_pd_32(core);
    let ghost mid = *core;
    assert(operator::ay_pd_32_rel(c0, mid, src));
    match src {
        Err(e) => Err(e),
        Ok(v) => {
            let reg = reg_ax(core.ir);
            set_reg(core, reg, v);
            Ok(Cycles(14))
        },
    }
}

/// What `movea_32_di` does: the core goes from `c0` to `c1` and `r` comes back.
pub open spec fn movea_32_di_effect(c0: ConfiguredCore, c1: ConfiguredCore, r: Result<Cycles>) -> bool {
    &&& exists|mid: ConfiguredCore, src: Result<u32>|
            #[trigger] operator::ay_di_32_rel(c0, mid, src) && match src {
                Err(e) => r == Err::<Cycles, Exception>(e) && c1 == mid,
                Ok(v) => {
                    &&& r == Ok::<Cycles, Exception>(Cycles(16))
                    &&& reg_set(mid, c1, ir_ax(mid.ir), v)
                },
            }
}

/// MOVEA: the source operand into Ax; no flag changes.
pub fn movea_32_di(core: &mut ConfiguredCore) -> (r: Result<Cycles>)
    requires
        old(core).wf(),
    ensures
        final(core).wf(),
        movea_32_di_effect(*old(core), *final(core), r),
{
    let ghost c0 = *core;
    let src = operator::ay_di_32(core);
    let ghost mid = *core;
    assert(operator::ay_di_32_rel(c0, mid, src));
    match src {
        Err(e) => Err(e),
        Ok(v) => {
            let reg = reg_ax(core.ir);
            set_reg(core, reg, v);
            Ok(Cycles(16))
        },
    }
}

/// What `movea_32_ix` does: the core goes from `c0` to `c1` and `r` comes back.
pub open spec fn movea_32_ix_effect(c0: ConfiguredCore, c1: ConfiguredCore, r: Result<Cycles>) -> bool {
    &&& exists|mid: ConfiguredCore, src: Result<u32>|
            #[trigger] operator::ay_ix_32_rel(c0, mid, src) && match src {
                Err(e) => r == Err::<Cycles, Exception>(e) && c1 == mid,
                Ok(v) => {
                    &&& r == Ok::<Cycles, Exception>(Cycles(18))
                    &&& reg_set(mid, c1, ir_ax(mid.ir), v)
                },
            }
}

/// MOVEA: the source operand into Ax; no flag changes.
pub fn movea_32_ix(core: &mut ConfiguredCore) -> (r: Result<Cycles>)
    requires
        old(core).wf(),
    ensures
        final(core).wf(),
        movea_32_ix_effect(*old(core), *final(core), r),
{
    let ghost c0 = *core;
    let src = operator::ay_ix_32(core);
    let ghost mid = *core;
    assert(operator::ay_ix_32_rel(c0, mid, src));
    match src {
        Err(e) => Err(e),
        Ok(v) => {
            let reg = reg_ax(core.ir);
            set_reg(core, reg, v);
            Ok(Cycles(18))
        },
    }
}

/// What `movea_32_aw` does: the core goes from `c0` to `c1` and `r` comes back.
pub open spec fn movea_32_aw_effect(c0: ConfiguredCore, c1: ConfiguredCore, r: Result<Cycles>) -> bool {
    &&& exists|mid: ConfiguredCore, src: Result<u32>|
            #[trigger] operator::aw_32_rel(c0, mid, src) && match src {
                Err(e) => r == Err::<Cycles, Exception>(e) && c1 == mid,
                Ok(v) => {
                    &&& r == Ok::<Cycles, Exception>(Cycles(16))
                    &&& reg_set(mid, c1, ir_ax(mid.ir), v)
                },
            }
}

/// MOVEA: the source operand into Ax; no flag changes.
pub fn movea_32_aw(core: &mut ConfiguredCore) -> (r: Result<Cycles>)
    requires
        old(core).wf(),
    ensures
        final(core).wf(),
        movea_32_aw_effect(*old(core), *final(core), r),
{
    let ghost c0 = *core;
    let src = operator::aw_32(core);
    let ghost mid = *core;
    assert(operator::aw_32_rel(c0, mid, src));
    match src {
        Err(e) => Err(e),
        Ok(v) => {
            let reg = reg_ax(core.ir);
            set_reg(core, reg, v);
            Ok(Cycles(16))
        },
    }
}

/// What `movea_32_al` does: the core goes from `c0` to `c1` and `r` comes back.
pub open spec fn movea_32_al_effect(c0: ConfiguredCore, c1: ConfiguredCore, r: Result<Cycles>) -> bool {
    &&& exists|mid: ConfiguredCore, src: Result<u32>|
            #[trigger] operator::al_32_rel(c0, mid, src) && match src {
                Err(e) => r == Err::<Cycles, Exception>(e) && c1 == mid,
                Ok(v) => {
                    &&& r == Ok::<Cycles, Exception>(Cycles(20))
                    &&& reg_set(mid, c1, ir_ax(mid.ir), v)
                },
            }
}

/// MOVEA: the source operand into Ax; no flag changes.
pub fn movea_32_al(core: &mut ConfiguredCore) -> (r: Result<Cycles>)
    requires
        old(core).wf(),
    ensures
        final(core).wf(),
        movea_32_al_effect(*old(core), *final(core), r),
{
    let ghost c0 = *core;
    let src = operator::al_32(core);
    let ghost mid = *core;
    assert(operator::al_32_rel(c0, mid, src));
    match src {
        Err(e) => Err(e),
        Ok(v) => {
            let reg = reg_ax(core.ir);
            set_reg(core, reg, v);
            Ok(Cycles(20))
        },
    }
}

/// What `movea_32_pcdi` does: the core goes from `c0` to `c1` and `r` comes back.
pub open spec fn movea_32_pcdi_effect(c0: ConfiguredCore, c1: ConfiguredCore, r: Result<Cycles>) -> bool {
    &&& exists|mid: ConfiguredCore, src: Result<u32>|
            #[trigger] operator::pcdi_32_rel(c0, mid, src) && match src {
                Err(e) => r == Err::<Cycles, Exception>(e) && c1 == mid,
                Ok(v) => {
                    &&& r == Ok::<Cycles, Exception>(Cycles(16))
                    &&& reg_set(mid, c1, ir_ax(mid.ir), v)
                },
            }
}

/// MOVEA: the source operand into Ax; no flag changes.
pub fn movea_32_pcdi(core: &mut ConfiguredCore) -> (r: Result<Cycles>)
    requires
        old(core).wf(),
    ensures
        final(core).wf(),
        movea_32_pcdi_effect(*old(core), *final(core), r),
{
    let ghost c0 = *core;
    let src = operator::pcdi_32(core);
    let ghost mid = *core;
    assert(operator::pcdi_32_rel(c0, mid, src));
    match src {
        Err(e) => Err(e),
        Ok(v) => {
            let reg = reg_ax(core.ir);
            set_reg(core, reg, v);
            Ok(Cycles(16))
        },
    }
}

/// What `movea_32_pcix` does: the core goes from `c0` to `c1` and `r` comes back.
pub open spec fn movea_32_pcix_effect(c0: ConfiguredCore, c1: ConfiguredCore, r: Result<Cycles>) -> bool {
    &&& exists|mid: ConfiguredCore, src: Result<u32>|
            #[trigger] operator::pcix_32_rel(c0, mid, src) && match src {
                Err(e) => r == Err::<Cycles, Exception>(e) && c1 == mid,
                Ok(v) => {
                    &&& r == Ok::<Cycles, Exception>(Cycles(18))
                    &&& reg_set(mid, c1, ir_ax(mid.ir), v)
                },
            }
}

/// MOVEA: the source operand into Ax; no flag changes.
pub fn movea_32_pcix(core: &mut ConfiguredCore) -> (r: Result<Cycles>)
    requires
        old(core).wf(),
    ensures
        final(core).wf(),
        movea_32_pcix_effect(*old(core), *final(core), r),
{
    let ghost c0 = *core;
    let src = operator::pcix_32(core);
    let ghost mid = *core;
    assert(operator::pcix_32_rel(c0, mid, src));
    match src {
        Err(e) => Err(e),
        Ok(v) => {
            let reg = reg_ax(core.ir);
            set_reg(core, reg, v);
            Ok(Cycles(18))
        },
    }
}

/// What `movea_32_imm` does: the core goes from `c0` to `c1` and `r` comes back.
pub open spec fn movea_32_imm_effect(c0: ConfiguredCore, c1: ConfiguredCore, r: Result<Cycles>) -> bool {
    &&& exists|mid: ConfiguredCore, src: Result<u32>|
            #[trigger] operator::imm_32_rel(c0, mid, src) && match src {
                Err(e) => r == Err::<Cycles, Exception>(e) && c1 == mid,
                Ok(v) => {
                    &&& r == Ok::<Cycles, Exception>(Cycles(12))
                    &&& reg_set(mid, c1, ir_ax(mid.ir), v)
                },
            }
}

/// MOVEA: the source operand into Ax; no flag changes.
pub fn movea_32_imm(core: &mut ConfiguredCore) -> (r: Result<Cycles>)
    requires
        old(core).wf(),
    ensures
        final(core).wf(),
        movea_32_imm_effect(*old(core), *final(core), r),
{
    let ghost c0 = *core;
    let src = operator::imm_32(core);
    let ghost mid = *core;
    assert(operator::imm_32_rel(c0, mid, src));
    match src {
        Err(e) => Err(e),
        Ok(v) => {
            let reg = reg_ax(core.ir);
            set_reg(core, reg, v);
            Ok(Cycles(12))
        },
    }
}

/// The data movement instructions: MOVE and MOVEA.
#[derive(Clone, Copy, Debug, PartialEq, Eq, Structural)]
pub enum MoveOp {
    Move8DnDn,
    Move8AiDn,
    Move8PiDn,
    Move8PdDn,
    Move8DiDn,
    Move8IxDn,
    Move8AwDn,
    Move8AlDn,
    Move8DnAi,
    Move8AiAi,
    Move8PiAi,
    Move8PdAi,
    Move8DiAi,
    Move8IxAi,
    Move8AwAi,
    Move8AlAi,
    Move8DnPi,
    Move8AiPi,
    Move8PiPi,
    Move8PdPi,
    Move8DiPi,
    Move8IxPi,
    Move8AwPi,
    Move8AlPi,
    Move8DnPd,
    Move8AiPd,
    Move8PiPd,
    Move8PdPd,
    Move8DiPd,
    Move8IxPd,
    Move8AwPd,
    Move8AlPd,
    Move8DnDi,
    Move8AiDi,
    Move8PiDi,
    Move8PdDi,
    Move8DiDi,
    Move8IxDi,
    Move8AwDi,
    Move8AlDi,
    Move8DnIx,
    Move8AiIx,
    Move8PiIx,
    Move8PdIx,
    Move8DiIx,
    Move8IxIx,
    Move8AwIx,
    Move8AlIx,
    Move8DnAw,
    Move8AiAw,
    Move8PiAw,
    Move8PdAw,
    Move8DiAw,
    Move8IxAw,
    Move8AwAw,
    Move8AlAw,
    Move8DnAl,
    Move8AiAl,
    Move8PiAl,
    Move8PdAl,
    Move8DiAl,
    Move8IxAl,
    Move8AwAl,
    Move8AlAl,
    Move8DnPcdi,
    Move8AiPcdi,
    Move8PiPcdi,
    Move8PdPcdi,
    Move8DiPcdi,
    Move8IxPcdi,
    Move8AwPcdi,
    Move8AlPcdi,
    Move8DnPcix,
    Move8AiPcix,
    Move8PiPcix,
    Move8PdPcix,
    Move8DiPcix,
    Move8IxPcix,
    Move8AwPcix,
    Move8AlPcix,
    Move8DnImm,
    Move8AiImm,
    Move8PiImm,
    Move8PdImm,
    Move8DiImm,
    Move8IxImm,
    Move8AwImm,
    Move8AlImm,
    Move16DnDn,
    Move16AiDn,
    Move16PiDn,
    Move16PdDn,
    Move16DiDn,
    Move16IxDn,
    Move16AwDn,
    Move16AlDn,
    Move16DnAn,
    Move16AiAn,
    Move16PiAn,
    Move16PdAn,
    Move16DiAn,
    Move16IxAn,
    Move16AwAn,
    Move16AlAn,
    Move16DnAi,
    Move16AiAi,
    Move16PiAi,
    Move16PdAi,
    Move16DiAi,
    Move16IxAi,
    Move16AwAi,
    Move16AlAi,
    Move16DnPi,
    Move16AiPi,
    Move16PiPi,
    Move16PdPi,
    Move16DiPi,
    Move16IxPi,
    Move16AwPi,
    Move16AlPi,
    Move16DnPd,
    Move16AiPd,
    Move16PiPd,
    Move16PdPd,
    Move16DiPd,
    Move16IxPd,
    Move16AwPd,
    Move16AlPd,
    Move16DnDi,
    Move16AiDi,
    Move16PiDi,
    Move16PdDi,
    Move16DiDi,
    Move16IxDi,
    Move16AwDi,
    Move16AlDi,
    Move16DnIx,
    Move16AiIx,
    Move16PiIx,
    Move16PdIx,
    Move16DiIx,
    Move16IxIx,
    Move16AwIx,
    Move16AlIx,
    Move16DnAw,
    Move16AiAw,
    Move16PiAw,
    Move16PdAw,
    Move16DiAw,
    Move16IxAw,
    Move16AwAw,
    Move16AlAw,
    Move16DnAl,
    Move16AiAl,
    Move16PiAl,
    Move16PdAl,
    Move16DiAl,
    Move16IxAl,
    Move16AwAl,
    Move16AlAl,
    Move16DnPcdi,
    Move16AiPcdi,
    Move16PiPcdi,
    Move16PdPcdi,
    Move16DiPcdi,
    Move16IxPcdi,
    Move16AwPcdi,
    Move16AlPcdi,
    Move16DnPcix,
    Move16AiPcix,
    Move16PiPcix,
    Move16PdPcix,
    Move16DiPcix,
    Move16IxPcix,
    Move16AwPcix,
    Move16AlPcix,
    Move16DnImm,
    Move16AiImm,
    Move16PiImm,
    Move16PdImm,
    Move16DiImm,
    Move16IxImm,
    Move16AwImm,
    Move16AlImm,
    Move32DnDn,
    Move32AiDn,
    Move32PiDn,
    Move32PdDn,
    Move32DiDn,
    Move32IxDn,
    Move32AwDn,
    Move32AlDn,
    Move32DnAn,
    Move32AiAn,
    Move32PiAn,
    Move32PdAn,
    Move32DiAn,
    Move32IxAn,
    Move32AwAn,
    Move32AlAn,
    Move32DnAi,
    Move32AiAi,
    Move32PiAi,
    Move32PdAi,
    Move32DiAi,
    Move32IxAi,
    Move32AwAi,
    Move32AlAi,
    Move32DnPi,
    Move32AiPi,
    Move32PiPi,
    Move32PdPi,
    Move32DiPi,
    Move32IxPi,
    Move32AwPi,
    Move32AlPi,
    Move32DnPd,
    Move32AiPd,
    Move32PiPd,
    Move32PdPd,
    Move32DiPd,
    Move32IxPd,
    Move32AwPd,
    Move32AlPd,
    Move32DnDi,
    Move32AiDi,
    Move32PiDi,
    Move32PdDi,
    Move32DiDi,
    Move32IxDi,
    Move32AwDi,
    Move32AlDi,
    Move32DnIx,
    Move32AiIx,
    Move32PiIx,
    Move32PdIx,
    Move32DiIx,
    Move32IxIx,
    Move32AwIx,
    Move32AlIx,
    Move32DnAw,
    Move32AiAw,
    Move32PiAw,
    Move32PdAw,
    Move32DiAw,
    Move32IxAw,
    Move32AwAw,
    Move32AlAw,
    Move32DnAl,
    Move32AiAl,
    Move32PiAl,
    Move32PdAl,
    Move32DiAl,
    Move32IxAl,
    Move32AwAl,
    Move32AlAl,
    Move32DnPcdi,
    Move32AiPcdi,
    Move32PiPcdi,
    Move32PdPcdi,
    Move32DiPcdi,
    Move32IxPcdi,
    Move32AwPcdi,
    Move32AlPcdi,
    Move32DnPcix,
    Move32AiPcix,
    Move32PiPcix,
    Move32PdPcix,
    Move32DiPcix,
    Move32IxPcix,
    Move32AwPcix,
    Move32AlPcix,
    Move32DnImm,
    Move32AiImm,
    Move32PiImm,
    Move32PdImm,
    Move32DiImm,
    Move32IxImm,
    Move32AwImm,
    Move32AlImm,
    Movea16Dn,
    Movea16An,
    Movea16Ai,
    Movea16Pi,
    Movea16Pd,
    Movea16Di,
    Movea16Ix,
    Movea16Aw,
    Movea16Al,
    Movea16Pcdi,
    Movea16Pcix,
    Movea16Imm,
    Movea32Dn,
    Movea32An,
    Movea32Ai,
    Movea32Pi,
    Movea32Pd,
    Movea32Di,
    Movea32Ix,
    Movea32Aw,
    Movea32Al,
    Movea32Pcdi,
    Movea32Pcix,
    Movea32Imm,
}

/// What the instruction `op` does: the core goes from `c0` to `c1` and `r`
/// comes back.
pub open spec fn effect(op: MoveOp, c0: ConfiguredCore, c1: ConfiguredCore, r: Result<Cycles>) -> bool {
    match op {
        MoveOp::Move8DnDn => move_8_dn_dn_effect(c0, c1, r),
        MoveOp::Move8AiDn => move_8_ai_dn_effect(c0, c1, r),
        MoveOp::Move8PiDn => move_8_pi_dn_effect(c0, c1, r),
        MoveOp::Move8PdDn => move_8_pd_dn_effect(c0, c1, r),
        MoveOp::Move8DiDn => move_8_di_dn_effect(c0, c1, r),
        MoveOp::Move8IxDn => move_8_ix_dn_effect(c0, c1, r),
        MoveOp::Move8AwDn => move_8_aw_dn_effect(c0, c1, r),
        MoveOp::Move8AlDn => move_8_al_dn_effect(c0, c1, r),
        MoveOp::Move8DnAi => move_8_dn_ai_effect(c0, c1, r),
        MoveOp::Move8AiAi => move_8_ai_ai_effect(c0, c1, r),
        MoveOp::Move8PiAi => move_8_pi_ai_effect(c0, c1, r),
        MoveOp::Move8PdAi => move_8_pd_ai_effect(c0, c1, r),
        MoveOp::Move8DiAi => move_8_di_ai_effect(c0, c1, r),
        MoveOp::Move8IxAi => move_8_ix_ai_effect(c0, c1, r),
        MoveOp::Move8AwAi => move_8_aw_ai_effect(c0, c1, r),
        MoveOp::Move8AlAi => move_8_al_ai_effect(c0, c1, r),
        MoveOp::Move8DnPi => move_8_dn_pi_effect(c0, c1, r),
        MoveOp::Move8AiPi => move_8_ai_pi_effect(c0, c1, r),
        MoveOp::Move8PiPi => move_8_pi_pi_effect(c0, c1, r),
        MoveOp::Move8PdPi => move_8_pd_pi_effect(c0, c1, r),
        MoveOp::Move8DiPi => move_8_di_pi_effect(c0, c1, r),
        MoveOp::Move8IxPi => move_8_ix_pi_effect(c0, c1, r),
        MoveOp::Move8AwPi => move_8_aw_pi_effect(c0, c1, r),
        MoveOp::Move8AlPi => move_8_al_pi_effect(c0, c1, r),
        MoveOp::Move8DnPd => move_8_dn_pd_effect(c0, c1, r),
        MoveOp::Move8AiPd => move_8_ai_pd_effect(c0, c1, r),
        MoveOp::Move8PiPd => move_8_pi_pd_effect(c0, c1, r),
        MoveOp::Move8PdPd => move_8_pd_pd_effect(c0, c1, r),
        MoveOp::Move8DiPd => move_8_di_pd_effect(c0, c1, r),
        MoveOp::Move8IxPd => move_8_ix_pd_effect(c0, c1, r),
        MoveOp::Move8AwPd => move_8_aw_pd_effect(c0, c1, r),
        MoveOp::Move8AlPd => move_8_al_pd_effect(c0, c1, r),
        MoveOp::Move8DnDi => move_8_dn_di_effect(c0, c1, r),
        MoveOp::Move8AiDi => move_8_ai_di_effect(c0, c1, r),
        MoveOp::Move8PiDi => move_8_pi_di_effect(c0, c1, r),
        MoveOp::Move8PdDi => move_8_pd_di_effect(c0, c1, r),
        MoveOp::Move8DiDi => move_8_di_di_effect(c0, c1, r),
        MoveOp::Move8IxDi => move_8_ix_di_effect(c0, c1, r),
        MoveOp::Move8AwDi => move_8_aw_di_effect(c0, c1, r),
        MoveOp::Move8AlDi => move_8_al_di_effect(c0, c1, r),
        MoveOp::Move8DnIx => move_8_dn_ix_effect(c0, c1, r),
        MoveOp::Move8AiIx => move_8_ai_ix_effect(c0, c1, r),
        MoveOp::Move8PiIx => move_8_pi_ix_effect(c0, c1, r),
        MoveOp::Move8PdIx => move_8_pd_ix_effect(c0, c1, r),
        MoveOp::Move8DiIx => move_8_di_ix_effect(c0, c1, r),
        MoveOp::Move8IxIx => move_8_ix_ix_effect(c0, c1, r),
        MoveOp::Move8AwIx => move_8_aw_ix_effect(c0, c1, r),
        MoveOp::Move8AlIx => move_8_al_ix_effect(c0, c1, r),
        MoveOp::Move8DnAw => move_8_dn_aw_effect(c0, c1, r),
        MoveOp::Move8AiAw => move_8_ai_aw_effect(c0, c1, r),
        MoveOp::Move8PiAw => move_8_pi_aw_effect(c0, c1, r),
        MoveOp::Move8PdAw => move_8_pd_aw_effect(c0, c1, r),
        MoveOp::Move8DiAw => move_8_di_aw_effect(c0, c1, r),
        MoveOp::Move8IxAw => move_8_ix_aw_effect(c0, c1, r),
        MoveOp::Move8AwAw => move_8_aw_aw_effect(c0, c1, r),
        MoveOp::Move8AlAw => move_8_al_aw_effect(c0, c1, r),
        MoveOp::Move8DnAl => move_8_dn_al_effect(c0, c1, r),
        MoveOp::Move8AiAl => move_8_ai_al_effect(c0, c1, r),
        MoveOp::Move8PiAl => move_8_pi_al_effect(c0, c1, r),
        MoveOp::Move8PdAl => move_8_pd_al_effect(c0, c1, r),
        MoveOp::Move8DiAl => move_8_di_al_effect(c0, c1, r),
        MoveOp::Move8IxAl => move_8_ix_al_effect(c0, c1, r),
        MoveOp::Move8AwAl => move_8_aw_al_effect(c0, c1, r),
        MoveOp::Move8AlAl => move_8_al_al_effect(c0, c1, r),
        MoveOp::Move8DnPcdi => move_8_dn_pcdi_effect(c0, c1, r),
        MoveOp::Move8AiPcdi => move_8_ai_pcdi_effect(c0, c1, r),
        MoveOp::Move8PiPcdi => move_8_pi_pcdi_effect(c0, c1, r),
        MoveOp::Move8PdPcdi => move_8_pd_pcdi_effect(c0, c1, r),
        MoveOp::Move8DiPcdi => move_8_di_pcdi_effect(c0, c1, r),
        MoveOp::Move8IxPcdi => move_8_ix_pcdi_effect(c0, c1, r),
        MoveOp::Move8AwPcdi => move_8_aw_pcdi_effect(c0, c1, r),
        MoveOp::Move8AlPcdi => move_8_al_pcdi_effect(c0, c1, r),
        MoveOp::Move8DnPcix => move_8_dn_pcix_effect(c0, c1, r),
        MoveOp::Move8AiPcix => move_8_ai_pcix_effect(c0, c1, r),
        MoveOp::Move8PiPcix => move_8_pi_pcix_effect(c0, c1, r),
        MoveOp::Move8PdPcix => move_8_pd_pcix_effect(c0, c1, r),
        MoveOp::Move8DiPcix => move_8_di_pcix_effect(c0, c1, r),
        MoveOp::Move8IxPcix => move_8_ix_pcix_effect(c0, c1, r),
        MoveOp::Move8AwPcix => move_8_aw_pcix_effect(c0, c1, r),
        MoveOp::Move8AlPcix => move_8_al_pcix_effect(c0, c1, r),
        MoveOp::Move8DnImm => move_8_dn_imm_effect(c0, c1, r),
        MoveOp::Move8AiImm => move_8_ai_imm_effect(c0, c1, r),
        MoveOp::Move8PiImm => move_8_pi_imm_effect(c0, c1, r),
        MoveOp::Move8PdImm => move_8_pd_imm_effect(c0, c1, r),
        MoveOp::Move8DiImm => move_8_di_imm_effect(c0, c1, r),
        MoveOp::Move8IxImm => move_8_ix_imm_effect(c0, c1, r),
        MoveOp::Move8AwImm => move_8_aw_imm_effect(c0, c1, r),
        MoveOp::Move8AlImm => move_8_al_imm_effect(c0, c1, r),
        MoveOp::Move16DnDn => move_16_dn_dn_effect(c0, c1, r),
        MoveOp::Move16AiDn => move_16_ai_dn_effect(c0, c1, r),
        MoveOp::Move16PiDn => move_16_pi_dn_effect(c0, c1, r),
        MoveOp::Move16PdDn => move_16_pd_dn_effect(c0, c1, r),
        MoveOp::Move16DiDn => move_16_di_dn_effect(c0, c1, r),
        MoveOp::Move16IxDn => move_16_ix_dn_effect(c0, c1, r),
        MoveOp::Move16AwDn => move_16_aw_dn_effect(c0, c1, r),
        MoveOp::Move16AlDn => move_16_al_dn_effect(c0, c1, r),
        MoveOp::Move16DnAn => move_16_dn_an_effect(c0, c1, r),
        MoveOp::Move16AiAn => move_16_ai_an_effect(c0, c1, r),
        MoveOp::Move16PiAn => move_16_pi_an_effect(c0, c1, r),
        MoveOp::Move16PdAn => move_16_pd_an_effect(c0, c1, r),
        MoveOp::Move16DiAn => move_16_di_an_effect(c0, c1, r),
        MoveOp::Move16IxAn => move_16_ix_an_effect(c0, c1, r),
        MoveOp::Move16AwAn => move_16_aw_an_effect(c0, c1, r),
        MoveOp::Move16AlAn => move_16_al_an_effect(c0, c1, r),
        MoveOp::Move16DnAi => move_16_dn_ai_effect(c0, c1, r),
        MoveOp::Move16AiAi => move_16_ai_ai_effect(c0, c1, r),
        MoveOp::Move16PiAi => move_16_pi_ai_effect(c0, c1, r),
        MoveOp::Move16PdAi => move_16_pd_ai_effect(c0, c1, r),
        MoveOp::Move16DiAi => move_16_di_ai_effect(c0, c1, r),
        MoveOp::Move16IxAi => move_16_ix_ai_effect(c0, c1, r),
        MoveOp::Move16AwAi => move_16_aw_ai_effect(c0, c1, r),
        MoveOp::Move16AlAi => move_16_al_ai_effect(c0, c1, r),
        MoveOp::Move16DnPi => move_16_dn_pi_effect(c0, c1, r),
        MoveOp::Move16AiPi => move_16_ai_pi_effect(c0, c1, r),
        MoveOp::Move16PiPi => move_16_pi_pi_effect(c0, c1, r),
        MoveOp::Move16PdPi => move_16_pd_pi_effect(c0, c1, r),
        MoveOp::Move16DiPi => move_16_di_pi_effect(c0, c1, r),
        MoveOp::Move16IxPi => move_16_ix_pi_effect(c0, c1, r),
        MoveOp::Move16AwPi => move_16_aw_pi_effect(c0, c1, r),
        MoveOp::Move16AlPi => move_16_al_pi_effect(c0, c1, r),
        MoveOp::Move16DnPd => move_16_dn_pd_effect(c0, c1, r),
        MoveOp::Move16AiPd => move_16_ai_pd_effect(c0, c1, r),
        MoveOp::Move16PiPd => move_16_pi_pd_effect(c0, c1, r),
        MoveOp::Move16PdPd => move_16_pd_pd_effect(c0, c1, r),
        MoveOp::Move16DiPd => move_16_di_pd_effect(c0, c1, r),
        MoveOp::Move16IxPd => move_16_ix_pd_effect(c0, c1, r),
        MoveOp::Move16AwPd => move_16_aw_pd_effect(c0, c1, r),
        MoveOp::Move16AlPd => move_16_al_pd_effect(c0, c1, r),
        MoveOp::Move16DnDi => move_16_dn_di_effect(c0, c1, r),
        MoveOp::Move16AiDi => move_16_ai_di_effect(c0, c1, r),
        MoveOp::Move16PiDi => move_16_pi_di_effect(c0, c1, r),
        MoveOp::Move16PdDi => move_16_pd_di_effect(c0, c1, r),
        MoveOp::Move16DiDi => move_16_di_di_effect(c0, c1, r),
        MoveOp::Move16IxDi => move_16_ix_di_effect(c0, c1, r),
        MoveOp::Move16AwDi => move_16_aw_di_effect(c0, c1, r),
        MoveOp::Move16AlDi => move_16_al_di_effect(c0, c1, r),
        MoveOp::Move16DnIx => move_16_dn_ix_effect(c0, c1, r),
        MoveOp::Move16AiIx => move_16_ai_ix_effect(c0, c1, r),
        MoveOp::Move16PiIx => move_16_pi_ix_effect(c0, c1, r),
        MoveOp::Move16PdIx => move_16_pd_ix_effect(c0, c1, r),
        MoveOp::Move16DiIx => move_16_di_ix_effect(c0, c1, r),
        MoveOp::Move16IxIx => move_16_ix_ix_effect(c0, c1, r),
        MoveOp::Move16AwIx => move_16_aw_ix_effect(c0, c1, r),
        MoveOp::Move16AlIx => move_16_al_ix_effect(c0, c1, r),
        MoveOp::Move16DnAw => move_16_dn_aw_effect(c0, c1, r),
        MoveOp::Move16AiAw => move_16_ai_aw_effect(c0, c1, r),
        MoveOp::Move16PiAw => move_16_pi_aw_effect(c0, c1, r),
        MoveOp::Move16PdAw => move_16_pd_aw_effect(c0, c1, r),
        MoveOp::Move16DiAw => move_16_di_aw_effect(c0, c1, r),
        MoveOp::Move16IxAw => move_16_ix_aw_effect(c0, c1, r),
        MoveOp::Move16AwAw => move_16_aw_aw_effect(c0, c1, r),
        MoveOp::Move16AlAw => move_16_al_aw_effect(c0, c1, r),
        MoveOp::Move16DnAl => move_16_dn_al_effect(c0, c1, r),
        MoveOp::Move16AiAl => move_16_ai_al_effect(c0, c1, r),
        MoveOp::Move16PiAl => move_16_pi_al_effect(c0, c1, r),
        MoveOp::Move16PdAl => move_16_pd_al_effect(c0, c1, r),
        MoveOp::Move16DiAl => move_16_di_al_effect(c0, c1, r),
        MoveOp::Move16IxAl => move_16_ix_al_effect(c0, c1, r),
        MoveOp::Move16AwAl => move_16_aw_al_effect(c0, c1, r),
        MoveOp::Move16AlAl => move_16_al_al_effect(c0, c1, r),
        MoveOp::Move16DnPcdi => move_16_dn_pcdi_effect(c0, c1, r),
        MoveOp::Move16AiPcdi => move_16_ai_pcdi_effect(c0, c1, r),
        MoveOp::Move16PiPcdi => move_16_pi_pcdi_effect(c0, c1, r),
        MoveOp::Move16PdPcdi => move_16_pd_pcdi_effect(c0, c1, r),
        MoveOp::Move16DiPcdi => move_16_di_pcdi_effect(c0, c1, r),
        MoveOp::Move16IxPcdi => move_16_ix_pcdi_effect(c0, c1, r),
        MoveOp::Move16AwPcdi => move_16_aw_pcdi_effect(c0, c1, r),
        MoveOp::Move16AlPcdi => move_16_al_pcdi_effect(c0, c1, r),
        MoveOp::Move16DnPcix => move_16_dn_pcix_effect(c0, c1, r),
        MoveOp::Move16AiPcix => move_16_ai_pcix_effect(c0, c1, r),
        MoveOp::Move16PiPcix => move_16_pi_pcix_effect(c0, c1, r),
        MoveOp::Move16PdPcix => move_16_pd_pcix_effect(c0, c1, r),
        MoveOp::Move16DiPcix => move_16_di_pcix_effect(c0, c1, r),
        MoveOp::Move16IxPcix => move_16_ix_pcix_effect(c0, c1, r),
        MoveOp::Move16AwPcix => move_16_aw_pcix_effect(c0, c1, r),
        MoveOp::Move16AlPcix => move_16_al_pcix_effect(c0, c1, r),
        MoveOp::Move16DnImm => move_16_dn_imm_effect(c0, c1, r),
        MoveOp::Move16AiImm => move_16_ai_imm_effect(c0, c1, r),
        MoveOp::Move16PiImm => move_16_pi_imm_effect(c0, c1, r),
        MoveOp::Move16PdImm => move_16_pd_imm_effect(c0, c1, r),
        MoveOp::Move16DiImm => move_16_di_imm_effect(c0, c1, r),
        MoveOp::Move16IxImm => move_16_ix_imm_effect(c0, c1, r),
        MoveOp::Move16AwImm => move_16_aw_imm_effect(c0, c1, r),
        MoveOp::Move16AlImm => move_16_al_imm_effect(c0, c1, r),
        MoveOp::Move32DnDn => move_32_dn_dn_effect(c0, c1, r),
        MoveOp::Move32AiDn => move_32_ai_dn_effect(c0, c1, r),
        MoveOp::Move32PiDn => move_32_pi_dn_effect(c0, c1, r),
        MoveOp::Move32PdDn => move_32_pd_dn_effect(c0, c1, r),
        MoveOp::Move32DiDn => move_32_di_dn_effect(c0, c1, r),
        MoveOp::Move32IxDn => move_32_ix_dn_effect(c0, c1, r),
        MoveOp::Move32AwDn => move_32_aw_dn_effect(c0, c1, r),
        MoveOp::Move32AlDn => move_32_al_dn_effect(c0, c1, r),
        MoveOp::Move32DnAn => move_32_dn_an_effect(c0, c1, r),
        MoveOp::Move32AiAn => move_32_ai_an_effect(c0, c1, r),
        MoveOp::Move32PiAn => move_32_pi_an_effect(c0, c1, r),
        MoveOp::Move32PdAn => move_32_pd_an_effect(c0, c1, r),
        MoveOp::Move32DiAn => move_32_di_an_effect(c0, c1, r),
        MoveOp::Move32IxAn => move_32_ix_an_effect(c0, c1, r),
        MoveOp::Move32AwAn => move_32_aw_an_effect(c0, c1, r),
        MoveOp::Move32AlAn => move_32_al_an_effect(c0, c1, r),
        MoveOp::Move32DnAi => move_32_dn_ai_effect(c0, c1, r),
        MoveOp::Move32AiAi => move_32_ai_ai_effect(c0, c1, r),
        MoveOp::Move32PiAi => move_32_pi_ai_effect(c0, c1, r),
        MoveOp::Move32PdAi => move_32_pd_ai_effect(c0, c1, r),
        MoveOp::Move32DiAi => move_32_di_ai_effect(c0, c1, r),
        MoveOp::Move32IxAi => move_32_ix_ai_effect(c0, c1, r),
        MoveOp::Move32AwAi => move_32_aw_ai_effect(c0, c1, r),
        MoveOp::Move32AlAi => move_32_al_ai_effect(c0, c1, r),
        MoveOp::Move32DnPi => move_32_dn_pi_effect(c0, c1, r),
        MoveOp::Move32AiPi => move_32_ai_pi_effect(c0, c1, r),
        MoveOp::Move32PiPi => move_32_pi_pi_effect(c0, c1, r),
        MoveOp::Move32PdPi => move_32_pd_pi_effect(c0, c1, r),
        MoveOp::Move32DiPi => move_32_di_pi_effect(c0, c1, r),
        MoveOp::Move32IxPi => move_32_ix_pi_effect(c0, c1, r),
        MoveOp::Move32AwPi => move_32_aw_pi_effect(c0, c1, r),
        MoveOp::Move32AlPi => move_32_al_pi_effect(c0, c1, r),
        MoveOp::Move32DnPd => move_32_dn_pd_effect(c0, c1, r),
        MoveOp::Move32AiPd => move_32_ai_pd_effect(c0, c1, r),
        MoveOp::Move32PiPd => move_32_pi_pd_effect(c0, c1, r),
        MoveOp::Move32PdPd => move_32_pd_pd_effect(c0, c1, r),
        MoveOp::Move32DiPd => move_32_di_pd_effect(c0, c1, r),
        MoveOp::Move32IxPd => move_32_ix_pd_effect(c0, c1, r),
        MoveOp::Move32AwPd => move_32_aw_pd_effect(c0, c1, r),
        MoveOp::Move32AlPd => move_32_al_pd_effect(c0, c1, r),
        MoveOp::Move32DnDi => move_32_dn_di_effect(c0, c1, r),
        MoveOp::Move32AiDi => move_32_ai_di_effect(c0, c1, r),
        MoveOp::Move32PiDi => move_32_pi_di_effect(c0, c1, r),
        MoveOp::Move32PdDi => move_32_pd_di_effect(c0, c1, r),
        MoveOp::Move32DiDi => move_32_di_di_effect(c0, c1, r),
        MoveOp::Move32IxDi => move_32_ix_di_effect(c0, c1, r),
        MoveOp::Move32AwDi => move_32_aw_di_effect(c0, c1, r),
        MoveOp::Move32AlDi => move_32_al_di_effect(c0, c1, r),
        MoveOp::Move32DnIx => move_32_dn_ix_effect(c0, c1, r),
        MoveOp::Move32AiIx => move_32_ai_ix_effect(c0, c1, r),
        MoveOp::Move32PiIx => move_32_pi_ix_effect(c0, c1, r),
        MoveOp::Move32PdIx => move_32_pd_ix_effect(c0, c1, r),
        MoveOp::Move32DiIx => move_32_di_ix_effect(c0, c1, r),
        MoveOp::Move32IxIx => move_32_ix_ix_effect(c0, c1, r),
        MoveOp::Move32AwIx => move_32_aw_ix_effect(c0, c1, r),
        MoveOp::Move32AlIx => move_32_al_ix_effect(c0, c1, r),
        MoveOp::Move32DnAw => move_32_dn_aw_effect(c0, c1, r),
        MoveOp::Move32AiAw => move_32_ai_aw_effect(c0, c1, r),
        MoveOp::Move32PiAw => move_32_pi_aw_effect(c0, c1, r),
        MoveOp::Move32PdAw => move_32_pd_aw_effect(c0, c1, r),
        MoveOp::Move32DiAw => move_32_di_aw_effect(c0, c1, r),
        MoveOp::Move32IxAw => move_32_ix_aw_effect(c0, c1, r),
        MoveOp::Move32AwAw => move_32_aw_aw_effect(c0, c1, r),
        MoveOp::Move32AlAw => move_32_al_aw_effect(c0, c1, r),
        MoveOp::Move32DnAl => move_32_dn_al_effect(c0, c1, r),
        MoveOp::Move32AiAl => move_32_ai_al_effect(c0, c1, r),
        MoveOp::Move32PiAl => move_32_pi_al_effect(c0, c1, r),
        MoveOp::Move32PdAl => move_32_pd_al_effect(c0, c1, r),
        MoveOp::Move32DiAl => move_32_di_al_effect(c0, c1, r),
        MoveOp::Move32IxAl => move_32_ix_al_effect(c0, c1, r),
        MoveOp::Move32AwAl => move_32_aw_al_effect(c0, c1, r),
        MoveOp::Move32AlAl => move_32_al_al_effect(c0, c1, r),
        MoveOp::Move32DnPcdi => move_32_dn_pcdi_effect(c0, c1, r),
        MoveOp::Move32AiPcdi => move_32_ai_pcdi_effect(c0, c1, r),
        MoveOp::Move32PiPcdi => move_32_pi_pcdi_effect(c0, c1, r),
        MoveOp::Move32PdPcdi => move_32_pd_pcdi_effect(c0, c1, r),
        MoveOp::Move32DiPcdi => move_32_di_pcdi_effect(c0, c1, r),
        MoveOp::Move32IxPcdi => move_32_ix_pcdi_effect(c0, c1, r),
        MoveOp::Move32AwPcdi => move_32_aw_pcdi_effect(c0, c1, r),
        MoveOp::Move32AlPcdi => move_32_al_pcdi_effect(c0, c1, r),
        MoveOp::Move32DnPcix => move_32_dn_pcix_effect(c0, c1, r),
        MoveOp::Move32AiPcix => move_32_ai_pcix_effect(c0, c1, r),
        MoveOp::Move32PiPcix => move_32_pi_pcix_effect(c0, c1, r),
        MoveOp::Move32PdPcix => move_32_pd_pcix_effect(c0, c1, r),
        MoveOp::Move32DiPcix => move_32_di_pcix_effect(c0, c1, r),
        MoveOp::Move32IxPcix => move_32_ix_pcix_effect(c0, c1, r),
        MoveOp::Move32AwPcix => move_32_aw_pcix_effect(c0, c1, r),
        MoveOp::Move32AlPcix => move_32_al_pcix_effect(c0, c1, r),
        MoveOp::Move32DnImm => move_32_dn_imm_effect(c0, c1, r),
        MoveOp::Move32AiImm => move_32_ai_imm_effect(c0, c1, r),
        MoveOp::Move32PiImm => move_32_pi_imm_effect(c0, c1, r),
        MoveOp::Move32PdImm => move_32_pd_imm_effect(c0, c1, r),
        MoveOp::Move32DiImm => move_32_di_imm_effect(c0, c1, r),
        MoveOp::Move32IxImm => move_32_ix_imm_effect(c0, c1, r),
        MoveOp::Move32AwImm => move_32_aw_imm_effect(c0, c1, r),
        MoveOp::Move32AlImm => move_32_al_imm_effect(c0, c1, r),
        MoveOp::Movea16Dn => movea_16_dn_effect(c0, c1, r),
        MoveOp::Movea16An => movea_16_an_effect(c0, c1, r),
        MoveOp::Movea16Ai => movea_16_ai_effect(c0, c1, r),
        MoveOp::Movea16Pi => movea_16_pi_effect(c0, c1, r),
        MoveOp::Movea16Pd => movea_16_pd_effect(c0, c1, r),
        MoveOp::Movea16Di => movea_16_di_effect(c0, c1, r),
        MoveOp::Movea16Ix => movea_16_ix_effect(c0, c1, r),
        MoveOp::Movea16Aw => movea_16_aw_effect(c0, c1, r),
        MoveOp::Movea16Al => movea_16_al_effect(c0, c1, r),
        MoveOp::Movea16Pcdi => movea_16_pcdi_effect(c0, c1, r),
        MoveOp::Movea16Pcix => movea_16_pcix_effect(c0, c1, r),
        MoveOp::Movea16Imm => movea_16_imm_effect(c0, c1, r),
        MoveOp::Movea32Dn => movea_32_dn_effect(c0, c1, r),
        MoveOp::Movea32An => movea_32_an_effect(c0, c1, r),
        MoveOp::Movea32Ai => movea_32_ai_effect(c0, c1, r),
        MoveOp::Movea32Pi => movea_32_pi_effect(c0, c1, r),
        MoveOp::Movea32Pd => movea_32_pd_effect(c0, c1, r),
        MoveOp::Movea32Di => movea_32_di_effect(c0, c1, r),
        MoveOp::Movea32Ix => movea_32_ix_effect(c0, c1, r),
        MoveOp::Movea32Aw => movea_32_aw_effect(c0, c1, r),
        MoveOp::Movea32Al => movea_32_al_effect(c0, c1, r),
        MoveOp::Movea32Pcdi => movea_32_pcdi_effect(c0, c1, r),
        MoveOp::Movea32Pcix => movea_32_pcix_effect(c0, c1, r),
        MoveOp::Movea32Imm => movea_32_imm_effect(c0, c1, r),
    }
}

/// Runs the instruction `op` on the core.
pub fn run(core: &mut ConfiguredCore, op: MoveOp) -> (r: Result<Cycles>)
    requires
        old(core).wf(),
    ensures
        final(core).wf(),
        effect(op, *old(core), *final(core), r),
{
    match op {
        MoveOp::Move8DnDn => move_8_dn_dn(core),
        MoveOp::Move8AiDn => move_8_ai_dn(core),
        MoveOp::Move8PiDn => move_8_pi_dn(core),
        MoveOp::Move8PdDn => move_8_pd_dn(core),
        MoveOp::Move8DiDn => move_8_di_dn(core),
        MoveOp::Move8IxDn => move_8_ix_dn(core),
        MoveOp::Move8AwDn => move_8_aw_dn(core),
        MoveOp::Move8AlDn => move_8_al_dn(core),
        MoveOp::Move8DnAi => move_8_dn_ai(core),
        MoveOp::Move8AiAi => move_8_ai_ai(core),
        MoveOp::Move8PiAi => move_8_pi_ai(core),
        MoveOp::Move8PdAi => move_8_pd_ai(core),
        MoveOp::Move8DiAi => move_8_di_ai(core),
        MoveOp::Move8IxAi => move_8_ix_ai(core),
        MoveOp::Move8AwAi => move_8_aw_ai(core),
        MoveOp::Move8AlAi => move_8_al_ai(core),
        MoveOp::Move8DnPi => move_8_dn_pi(core),
        MoveOp::Move8AiPi => move_8_ai_pi(core),
        MoveOp::Move8PiPi => move_8_pi_pi(core),
        MoveOp::Move8PdPi => move_8_pd_pi(core),
        MoveOp::Move8DiPi => move_8_di_pi(core),
        MoveOp::Move8IxPi => move_8_ix_pi(core),
        MoveOp::Move8AwPi => move_8_aw_pi(core),
        MoveOp::Move8AlPi => move_8_al_pi(core),
        MoveOp::Move8DnPd => move_8_dn_pd(core),
        MoveOp::Move8AiPd => move_8_ai_pd(core),
        MoveOp::Move8PiPd => move_8_pi_pd(core),
        MoveOp::Move8PdPd => move_8_pd_pd(core),
        MoveOp::Move8DiPd => move_8_di_pd(core),
        MoveOp::Move8IxPd => move_8_ix_pd(core),
        MoveOp::Move8AwPd => move_8_aw_pd(core),
        MoveOp::Move8AlPd => move_8_al_pd(core),
        MoveOp::Move8DnDi => move_8_dn_di(core),
        MoveOp::Move8AiDi => move_8_ai_di(core),
        MoveOp::Move8PiDi => move_8_pi_di(core),
        MoveOp::Move8PdDi => move_8_pd_di(core),
        MoveOp::Move8DiDi => move_8_di_di(core),
        MoveOp::Move8IxDi => move_8_ix_di(core),
        MoveOp::Move8AwDi => move_8_aw_di(core),
        MoveOp::Move8AlDi => move_8_al_di(core),
        MoveOp::Move8DnIx => move_8_dn_ix(core),
        MoveOp::Move8AiIx => move_8_ai_ix(core),
        MoveOp::Move8PiIx => move_8_pi_ix(core),
        MoveOp::Move8PdIx => move_8_pd_ix(core),
        MoveOp::Move8DiIx => move_8_di_ix(core),
        MoveOp::Move8IxIx => move_8_ix_ix(core),
        MoveOp::Move8AwIx => move_8_aw_ix(core),
        MoveOp::Move8AlIx => move_8_al_ix(core),
        MoveOp::Move8DnAw => move_8_dn_aw(core),
        MoveOp::Move8AiAw => move_8_ai_aw(core),
        MoveOp::Move8PiAw => move_8_pi_aw(core),
        MoveOp::Move8PdAw => move_8_pd_aw(core),
        MoveOp::Move8DiAw => move_8_di_aw(core),
        MoveOp::Move8IxAw => move_8_ix_aw(core),
        MoveOp::Move8AwAw => move_8_aw_aw(core),
        MoveOp::Move8AlAw => move_8_al_aw(core),
        MoveOp::Move8DnAl => move_8_dn_al(core),
        MoveOp::Move8AiAl => move_8_ai_al(core),
        MoveOp::Move8PiAl => move_8_pi_al(core),
        MoveOp::Move8PdAl => move_8_pd_al(core),
        MoveOp::Move8DiAl => move_8_di_al(core),
        MoveOp::Move8IxAl => move_8_ix_al(core),
        MoveOp::Move8AwAl => move_8_aw_al(core),
        MoveOp::Move8AlAl => move_8_al_al(core),
        MoveOp::Move8DnPcdi => move_8_dn_pcdi(core),
        MoveOp::Move8AiPcdi => move_8_ai_pcdi(core),
        MoveOp::Move8PiPcdi => move_8_pi_pcdi(core),
        MoveOp::Move8PdPcdi => move_8_pd_pcdi(core),
        MoveOp::Move8DiPcdi => move_8_di_pcdi(core),
        MoveOp::Move8IxPcdi => move_8_ix_pcdi(core),
        MoveOp::Move8AwPcdi => move_8_aw_pcdi(core),
        MoveOp::Move8AlPcdi => move_8_al_pcdi(core),
        MoveOp::Move8DnPcix => move_8_dn_pcix(core),
        MoveOp::Move8AiPcix => move_8_ai_pcix(core),
        MoveOp::Move8PiPcix => move_8_pi_pcix(core),
        MoveOp::Move8PdPcix => move_8_pd_pcix(core),
        MoveOp::Move8DiPcix => move_8_di_pcix(core),
        MoveOp::Move8IxPcix => move_8_ix_pcix(core),
        MoveOp::Move8AwPcix => move_8_aw_pcix(core),
        MoveOp::Move8AlPcix => move_8_al_pcix(core),
        MoveOp::Move8DnImm => move_8_dn_imm(core),
        MoveOp::Move8AiImm => move_8_ai_imm(core),
        MoveOp::Move8PiImm => move_8_pi_imm(core),
        MoveOp::Move8PdImm => move_8_pd_imm(core),
        MoveOp::Move8DiImm => move_8_di_imm(core),
        MoveOp::Move8IxImm => move_8_ix_imm(core),
        MoveOp::Move8AwImm => move_8_aw_imm(core),
        MoveOp::Move8AlImm => move_8_al_imm(core),
        MoveOp::Move16DnDn => move_16_dn_dn(core),
        MoveOp::Move16AiDn => move_16_ai_dn(core),
        MoveOp::Move16PiDn => move_16_pi_dn(core),
        MoveOp::Move16PdDn => move_16_pd_dn(core),
        MoveOp::Move16DiDn => move_16_di_dn(core),
        MoveOp::Move16IxDn => move_16_ix_dn(core),
        MoveOp::Move16AwDn => move_16_aw_dn(core),
        MoveOp::Move16AlDn => move_16_al_dn(core),
        MoveOp::Move16DnAn => move_16_dn_an(core),
        MoveOp::Move16AiAn => move_16_ai_an(core),
        MoveOp::Move16PiAn => move_16_pi_an(core),
        MoveOp::Move16PdAn => move_16_pd_an(core),
        MoveOp::Move16DiAn => move_16_di_an(core),
        MoveOp::Move16IxAn => move_16_ix_an(core),
        MoveOp::Move16AwAn => move_16_aw_an(core),
        MoveOp::Move16AlAn => move_16_al_an(core),
        MoveOp::Move16DnAi => move_16_dn_ai(core),
        MoveOp::Move16AiAi => move_16_ai_ai(core),
        MoveOp::Move16PiAi => move_16_pi_ai(core),
        MoveOp::Move16PdAi => move_16_pd_ai(core),
        MoveOp::Move16DiAi => move_16_di_ai(core),
        MoveOp::Move16IxAi => move_16_ix_ai(core),
        MoveOp::Move16AwAi => move_16_aw_ai(core),
        MoveOp::Move16AlAi => move_16_al_ai(core),
        MoveOp::Move16DnPi => move_16_dn_pi(core),
        MoveOp::Move16AiPi => move_16_ai_pi(core),
        MoveOp::Move16PiPi => move_16_pi_pi(core),
        MoveOp::Move16PdPi => move_16_pd_pi(core),
        MoveOp::Move16DiPi => move_16_di_pi(core),
        MoveOp::Move16IxPi => move_16_ix_pi(core),
        MoveOp::Move16AwPi => move_16_aw_pi(core),
        MoveOp::Move16AlPi => move_16_al_pi(core),
        MoveOp::Move16DnPd => move_16_dn_pd(core),
        MoveOp::Move16AiPd => move_16_ai_pd(core),
        MoveOp::Move16PiPd => move_16_pi_pd(core),
        MoveOp::Move16PdPd => move_16_pd_pd(core),
        MoveOp::Move16DiPd => move_16_di_pd(core),
        MoveOp::Move16IxPd => move_16_ix_pd(core),
        MoveOp::Move16AwPd => move_16_aw_pd(core),
        MoveOp::Move16AlPd => move_16_al_pd(core),
        MoveOp::Move16DnDi => move_16_dn_di(core),
        MoveOp::Move16AiDi => move_16_ai_di(core),
        MoveOp::Move16PiDi => move_16_pi_di(core),
        MoveOp::Move16PdDi => move_16_pd_di(core),
        MoveOp::Move16DiDi => move_16_di_di(core),
        MoveOp::Move16IxDi => move_16_ix_di(core),
        MoveOp::Move16AwDi => move_16_aw_di(core),
        MoveOp::Move16AlDi => move_16_al_di(core),
        MoveOp::Move16DnIx => move_16_dn_ix(core),
        MoveOp::Move16AiIx => move_16_ai_ix(core),
        MoveOp::Move16PiIx => move_16_pi_ix(core),
        MoveOp::Move16PdIx => move_16_pd_ix(core),
        MoveOp::Move16DiIx => move_16_di_ix(core),
        MoveOp::Move16IxIx => move_16_ix_ix(core),
        MoveOp::Move16AwIx => move_16_aw_ix(core),
        MoveOp::Move16AlIx => move_16_al_ix(core),
        MoveOp::Move16DnAw => move_16_dn_aw(core),
        MoveOp::Move16AiAw => move_16_ai_aw(core),
        MoveOp::Move16PiAw => move_16_pi_aw(core),
        MoveOp::Move16PdAw => move_16_pd_aw(core),
        MoveOp::Move16DiAw => move_16_di_aw(core),
        MoveOp::Move16IxAw => move_16_ix_aw(core),
        MoveOp::Move16AwAw => move_16_aw_aw(core),
        MoveOp::Move16AlAw => move_16_al_aw(core),
        MoveOp::Move16DnAl => move_16_dn_al(core),
        MoveOp::Move16AiAl => move_16_ai_al(core),
        MoveOp::Move16PiAl => move_16_pi_al(core),
        MoveOp::Move16PdAl => move_16_pd_al(core),
        MoveOp::Move16DiAl => move_16_di_al(core),
        MoveOp::Move16IxAl => move_16_ix_al(core),
        MoveOp::Move16AwAl => move_16_aw_al(core),
        MoveOp::Move16AlAl => move_16_al_al(core),
        MoveOp::Move16DnPcdi => move_16_dn_pcdi(core),
        MoveOp::Move16AiPcdi => move_16_ai_pcdi(core),
        MoveOp::Move16PiPcdi => move_16_pi_pcdi(core),
        MoveOp::Move16PdPcdi => move_16_pd_pcdi(core),
        MoveOp::Move16DiPcdi => move_16_di_pcdi(core),
        MoveOp::Move16IxPcdi => move_16_ix_pcdi(core),
        MoveOp::Move16AwPcdi => move_16_aw_pcdi(core),
        MoveOp::Move16AlPcdi => move_16_al_pcdi(core),
        MoveOp::Move16DnPcix => move_16_dn_pcix(core),
        MoveOp::Move16AiPcix => move_16_ai_pcix(core),
        MoveOp::Move16PiPcix => move_16_pi_pcix(core),
        MoveOp::Move16PdPcix => move_16_pd_pcix(core),
        MoveOp::Move16DiPcix => move_16_di_pcix(core),
        MoveOp::Move16IxPcix => move_16_ix_pcix(core),
        MoveOp::Move16AwPcix => move_16_aw_pcix(core),
        MoveOp::Move16AlPcix => move_16_al_pcix(core),
        MoveOp::Move16DnImm => move_16_dn_imm(core),
        MoveOp::Move16AiImm => move_16_ai_imm(core),
        MoveOp::Move16PiImm => move_16_pi_imm(core),
        MoveOp::Move16PdImm => move_16_pd_imm(core),
        MoveOp::Move16DiImm => move_16_di_imm(core),
        MoveOp::Move16IxImm => move_16_ix_imm(core),
        MoveOp::Move16AwImm => move_16_aw_imm(core),
        MoveOp::Move16AlImm => move_16_al_imm(core),
        MoveOp::Move32DnDn => move_32_dn_dn(core),
        MoveOp::Move32AiDn => move_32_ai_dn(core),
        MoveOp::Move32PiDn => move_32_pi_dn(core),
        MoveOp::Move32PdDn => move_32_pd_dn(core),
        MoveOp::Move32DiDn => move_32_di_dn(core),
        MoveOp::Move32IxDn => move_32_ix_dn(core),
        MoveOp::Move32AwDn => move_32_aw_dn(core),
        MoveOp::Move32AlDn => move_32_al_dn(core),
        MoveOp::Move32DnAn => move_32_dn_an(core),
        MoveOp::Move32AiAn => move_32_ai_an(core),
        MoveOp::Move32PiAn => move_32_pi_an(core),
        MoveOp::Move32PdAn => move_32_pd_an(core),
        MoveOp::Move32DiAn => move_32_di_an(core),
        MoveOp::Move32IxAn => move_32_ix_an(core),
        MoveOp::Move32AwAn => move_32_aw_an(core),
        MoveOp::Move32AlAn => move_32_al_an(core),
        MoveOp::Move32DnAi => move_32_dn_ai(core),
        MoveOp::Move32AiAi => move_32_ai_ai(core),
        MoveOp::Move32PiAi => move_32_pi_ai(core),
        MoveOp::Move32PdAi => move_32_pd_ai(core),
        MoveOp::Move32DiAi => move_32_di_ai(core),
        MoveOp::Move32IxAi => move_32_ix_ai(core),
        MoveOp::Move32AwAi => move_32_aw_ai(core),
        MoveOp::Move32AlAi => move_32_al_ai(core),
        MoveOp::Move32DnPi => move_32_dn_pi(core),
        MoveOp::Move32AiPi => move_32_ai_pi(core),
        MoveOp::Move32PiPi => move_32_pi_pi(core),
        MoveOp::Move32PdPi => move_32_pd_pi(core),
        MoveOp::Move32DiPi => move_32_di_pi(core),
        MoveOp::Move32IxPi => move_32_ix_pi(core),
        MoveOp::Move32AwPi => move_32_aw_pi(core),
        MoveOp::Move32AlPi => move_32_al_pi(core),
        MoveOp::Move32DnPd => move_32_dn_pd(core),
        MoveOp::Move32AiPd => move_32_ai_pd(core),
        MoveOp::Move32PiPd => move_32_pi_pd(core),
        MoveOp::Move32PdPd => move_32_pd_pd(core),
        MoveOp::Move32DiPd => move_32_di_pd(core),
        MoveOp::Move32IxPd => move_32_ix_pd(core),
        MoveOp::Move32AwPd => move_32_aw_pd(core),
        MoveOp::Move32AlPd => move_32_al_pd(core),
        MoveOp::Move32DnDi => move_32_dn_di(core),
        MoveOp::Move32AiDi => move_32_ai_di(core),
        MoveOp::Move32PiDi => move_32_pi_di(core),
        MoveOp::Move32PdDi => move_32_pd_di(core),
        MoveOp::Move32DiDi => move_32_di_di(core),
        MoveOp::Move32IxDi => move_32_ix_di(core),
        MoveOp::Move32AwDi => move_32_aw_di(core),
        MoveOp::Move32AlDi => move_32_al_di(core),
        MoveOp::Move32DnIx => move_32_dn_ix(core),
        MoveOp::Move32AiIx => move_32_ai_ix(core),
        MoveOp::Move32PiIx => move_32_pi_ix(core),
        MoveOp::Move32PdIx => move_32_pd_ix(core),
        MoveOp::Move32DiIx => move_32_di_ix(core),
        MoveOp::Move32IxIx => move_32_ix_ix(core),
        MoveOp::Move32AwIx => move_32_aw_ix(core),
        MoveOp::Move32AlIx => move_32_al_ix(core),
        MoveOp::Move32DnAw => move_32_dn_aw(core),
        MoveOp::Move32AiAw => move_32_ai_aw(core),
        MoveOp::Move32PiAw => move_32_pi_aw(core),
        MoveOp::Move32PdAw => move_32_pd_aw(core),
        MoveOp::Move32DiAw => move_32_di_aw(core),
        MoveOp::Move32IxAw => move_32_ix_aw(core),
        MoveOp::Move32AwAw => move_32_aw_aw(core),
        MoveOp::Move32AlAw => move_32_al_aw(core),
        MoveOp::Move32DnAl => move_32_dn_al(core),
        MoveOp::Move32AiAl => move_32_ai_al(core),
        MoveOp::Move32PiAl => move_32_pi_al(core),
        MoveOp::Move32PdAl => move_32_pd_al(core),
        MoveOp::Move32DiAl => move_32_di_al(core),
        MoveOp::Move32IxAl => move_32_ix_al(core),
        MoveOp::Move32AwAl => move_32_aw_al(core),
        MoveOp::Move32AlAl => move_32_al_al(core),
        MoveOp::Move32DnPcdi => move_32_dn_pcdi(core),
        MoveOp::Move32AiPcdi => move_32_ai_pcdi(core),
        MoveOp::Move32PiPcdi => move_32_pi_pcdi(core),
        MoveOp::Move32PdPcdi => move_32_pd_pcdi(core),
        MoveOp::Move32DiPcdi => move_32_di_pcdi(core),
        MoveOp::Move32IxPcdi => move_32_ix_pcdi(core),
        MoveOp::Move32AwPcdi => move_32_aw_pcdi(core),
        MoveOp::Move32AlPcdi => move_32_al_pcdi(core),
        MoveOp::Move32DnPcix => move_32_dn_pcix(core),
        MoveOp::Move32AiPcix => move_32_ai_pcix(core),
        MoveOp::Move32PiPcix => move_32_pi_pcix(core),
        MoveOp::Move32PdPcix => move_32_pd_pcix(core),
        MoveOp::Move32DiPcix => move_32_di_pcix(core),
        MoveOp::Move32IxPcix => move_32_ix_pcix(core),
        MoveOp::Move32AwPcix => move_32_aw_pcix(core),
        MoveOp::Move32AlPcix => move_32_al_pcix(core),
        MoveOp::Move32DnImm => move_32_dn_imm(core),
        MoveOp::Move32AiImm => move_32_ai_imm(core),
        MoveOp::Move32PiImm => move_32_pi_imm(core),
        MoveOp::Move32PdImm => move_32_pd_imm(core),
        MoveOp::Move32DiImm => move_32_di_imm(core),
        MoveOp::Move32IxImm => move_32_ix_imm(core),
        MoveOp::Move32AwImm => move_32_aw_imm(core),
        MoveOp::Move32AlImm => move_32_al_imm(core),
        MoveOp::Movea16Dn => movea_16_dn(core),
        MoveOp::Movea16An => movea_16_an(core),
        MoveOp::Movea16Ai => movea_16_ai(core),
        MoveOp::Movea16Pi => movea_16_pi(core),
        MoveOp::Movea16Pd => movea_16_pd(core),
        MoveOp::Movea16Di => movea_16_di(core),
        MoveOp::Movea16Ix => movea_16_ix(core),
        MoveOp::Movea16Aw => movea_16_aw(core),
        MoveOp::Movea16Al => movea_16_al(core),
        MoveOp::Movea16Pcdi => movea_16_pcdi(core),
        MoveOp::Movea16Pcix => movea_16_pcix(core),
        MoveOp::Movea16Imm => movea_16_imm(core),
        MoveOp::Movea32Dn => movea_32_dn(core),
        MoveOp::Movea32An => movea_32_an(core),
        MoveOp::Movea32Ai => movea_32_ai(core),
        MoveOp::Movea32Pi => movea_32_pi(core),
        MoveOp::Movea32Pd => movea_32_pd(core),
        MoveOp::Movea32Di => movea_32_di(core),
        MoveOp::Movea32Ix => movea_32_ix(core),
        MoveOp::Movea32Aw => movea_32_aw(core),
        MoveOp::Movea32Al => movea_32_al(core),
        MoveOp::Movea32Pcdi => movea_32_pcdi(core),
        MoveOp::Movea32Pcix => movea_32_pcix(core),
        MoveOp::Movea32Imm => movea_32_imm(core),
    }
}

} // verus!
