use vstd::prelude::*;
use crate::cpu::{supervisor_stack, user_stack, law_status_register_roundtrip, SFLAG_SET};
use crate::ram::pagedmem::{PagedMem, word_stored, long_stored, same_cell, addr_plus, lemma_mask_is_mod, law_word_read_your_write, law_long_read_your_write};
use crate::cpu::{ConfiguredCore, Cycles, Exception, Result, AccessType, ProcessingState, data_written, pushed_32, popped_16, popped_32, sr_set, branched, wadd, wsub, lemma_low_bits, lemma_parity, ir_dx, ir_dy, ir_ax, ir_ay, reg_dx, reg_dy, reg_ax, reg_ay, negative_set, zero_set};
use crate::cpu::{EXCEPTION_CHK, EXCEPTION_TRAP_BASE, EXCEPTION_TRAPV, EXCEPTION_UNIMPLEMENTED_1010, EXCEPTION_UNIMPLEMENTED_1111};
use crate::cpu::effective_address;
use crate::ram::{ADDRBUS_MASK, SUPERVISOR_DATA, USER_DATA};
use crate::ram::loggingmem::{Operation, read_logged};
use crate::cpu::operator;
use crate::cpu::ops::common::mask_out_below_8;

pub mod common;
pub mod fake;
pub mod handlers;
pub mod opcodes;
pub mod moves;
pub mod flow;
pub mod unary;
pub mod arith;
pub mod shifts;
pub mod bits;
pub mod status;
pub mod movem;

verus! {

/// `res` put into the low `size` bits of `old`, the other bits kept.
pub open spec fn merged(old: u32, res: u32, size: u32) -> u32 {
    if size == 8 {
        (old & 0xffff_ff00) | res
    } else if size == 16 {
        (old & 0xffff_0000) | res
    } else {
        res
    }
}

/// `c1` is `c0` with register `reg` set to `v`.
pub open spec fn reg_set(c0: ConfiguredCore, c1: ConfiguredCore, reg: int, v: u32) -> bool {
    &&& c1.dar@ == c0.dar@.update(reg, v)
    &&& c1 == (ConfiguredCore { dar: c1.dar, ..c0 })
}

/// A data write of `size` bits whose outcome is the instruction's result:
/// the address error of the write, or `cycles`.
pub open spec fn stored(c0: ConfiguredCore, c1: ConfiguredCore, size: u32, address: u32, value: u32, r: Result<Cycles>, cycles: i32) -> bool {
    &&& data_written(c0, c1, size, address, value, match r {
        Ok(_) => Ok::<(), Exception>(()),
        Err(e) => Err(e),
    })
    &&& r is Ok ==> r == Ok::<Cycles, Exception>(Cycles(cycles))
}

/// The handler of every instruction word, indexed by the word.
pub fn instruction_set() -> (t: Vec<handlers::Handler>)
    ensures
        t@.len() == 0x10000,
        forall|op: int| 0 <= op < 0x10000 ==> #[trigger] t@[op] == handlers::decoded(op as u32),
{
    handlers::generate()
}

pub(crate) fn merge(old: u32, res: u32, size: u32) -> (r: u32)
    ensures
        r == merged(old, res, size),
{
    if size == 8 {
        mask_out_below_8(old) | res
    } else if size == 16 {
        (old & 0xffff_0000) | res
    } else {
        res
    }
}

pub(crate) fn set_reg(core: &mut ConfiguredCore, reg: usize, v: u32)
    requires
        reg < 16,
    ensures
        reg_set(*old(core), *final(core), reg as int, v),
{
    core.dar[reg] = v;
    assert(core.dar@ =~= old(core).dar@.update(reg as int, v));
}

pub(crate) fn store(core: &mut ConfiguredCore, size: u32, address: u32, value: u32, cycles: i32) -> (r: Result<Cycles>)
    requires
        old(core).wf(),
    ensures
        final(core).wf(),
        stored(*old(core), *final(core), size, address, value, r, cycles),
{
    let w = if size == 8 {
        core.write_data_byte(address, value)
    } else if size == 16 {
        core.write_data_word(address, value)
    } else {
        core.write_data_long(address, value)
    };
    match w {
        Ok(()) => Ok(Cycles(cycles)),
        Err(e) => Err(e),
    }
}

/// A data write of `size` bits at `address`.
pub(crate) fn write_sized(core: &mut ConfiguredCore, size: u32, address: u32, value: u32) -> (r: crate::cpu::Result<()>)
    requires
        old(core).wf(),
    ensures
        final(core).wf(),
        data_written(*old(core), *final(core), size, address, value, r),
{
    if size == 8 {
        core.write_data_byte(address, value)
    } else if size == 16 {
        core.write_data_word(address, value)
    } else {
        core.write_data_long(address, value)
    }
}

/// What `add_8_er_dn` does: the core goes from `c0` to `c1` and `r` comes back.
pub open spec fn add_8_er_dn_effect(c0: ConfiguredCore, c1: ConfiguredCore, r: Result<Cycles>) -> bool {
    &&& exists|mid: ConfiguredCore, src: Result<u32>|
            #[trigger] operator::dy_rel(c0, mid, src) && match src {
                Err(e) => r == Err::<Cycles, Exception>(e) && c1 == mid,
                Ok(v) => {
                    let reg = ir_dx(mid.ir);
                    let o = common::add_8_outcome(mid, mid.dar[reg], v);
                    &&& r == Ok::<Cycles, Exception>(Cycles(4))
                    &&& reg_set(o.0, c1, reg, merged(mid.dar[reg], o.1, 8))
                },
            }
}

pub fn add_8_er_dn(core: &mut ConfiguredCore) -> (r: Result<Cycles>)
    requires
        old(core).wf(),
    ensures
        final(core).wf(),
        add_8_er_dn_effect(*old(core), *final(core), r),
{
    let ghost c0 = *core;
    let src = operator::dy(core);
    let ghost mid = *core;
    assert(operator::dy_rel(c0, mid, src));
    match src {
        Err(e) => Err(e),
        Ok(v) => {
            let reg = reg_dx(core.ir);
            let dst = core.dar[reg];
            let res = common::add_8(core, dst, v);
            set_reg(core, reg, merge(dst, res, 8));
            Ok(Cycles(4))
        },
    }
}

/// What `add_8_er_ai` does: the core goes from `c0` to `c1` and `r` comes back.
pub open spec fn add_8_er_ai_effect(c0: ConfiguredCore, c1: ConfiguredCore, r: Result<Cycles>) -> bool {
    &&& exists|mid: ConfiguredCore, src: Result<u32>|
            #[trigger] operator::ay_ai_8_rel(c0, mid, src) && match src {
                Err(e) => r == Err::<Cycles, Exception>(e) && c1 == mid,
                Ok(v) => {
                    let reg = ir_dx(mid.ir);
                    let o = common::add_8_outcome(mid, mid.dar[reg], v);
                    &&& r == Ok::<Cycles, Exception>(Cycles(8))
                    &&& reg_set(o.0, c1, reg, merged(mid.dar[reg], o.1, 8))
                },
            }
}

pub fn add_8_er_ai(core: &mut ConfiguredCore) -> (r: Result<Cycles>)
    requires
        old(core).wf(),
    ensures
        final(core).wf(),
        add_8_er_ai_effect(*old(core), *final(core), r),
{
    let ghost c0 = *core;
    let src = operator::ay_ai_8(core);
    let ghost mid = *core;
    assert(operator::ay_ai_8_rel(c0, mid, src));
    match src {
        Err(e) => Err(e),
        Ok(v) => {
            let reg = reg_dx(core.ir);
            let dst = core.dar[reg];
            let res = common::add_8(core, dst, v);
            set_reg(core, reg, merge(dst, res, 8));
            Ok(Cycles(8))
        },
    }
}

/// What `add_8_er_pi` does: the core goes from `c0` to `c1` and `r` comes back.
pub open spec fn add_8_er_pi_effect(c0: ConfiguredCore, c1: ConfiguredCore, r: Result<Cycles>) -> bool {
    &&& exists|mid: ConfiguredCore, src: Result<u32>|
            #[trigger] operator::ay_pi_8_rel(c0, mid, src) && match src {
                Err(e) => r == Err::<Cycles, Exception>(e) && c1 == mid,
                Ok(v) => {
                    let reg = ir_dx(mid.ir);
                    let o = common::add_8_outcome(mid, mid.dar[reg], v);
                    &&& r == Ok::<Cycles, Exception>(Cycles(8))
                    &&& reg_set(o.0, c1, reg, merged(mid.dar[reg], o.1, 8))
                },
            }
}

pub fn add_8_er_pi(core: &mut ConfiguredCore) -> (r: Result<Cycles>)
    requires
        old(core).wf(),
    ensures
        final(core).wf(),
        add_8_er_pi_effect(*old(core), *final(core), r),
{
    let ghost c0 = *core;
    let src = operator::ay_pi_8(core);
    let ghost mid = *core;
    assert(operator::ay_pi_8_rel(c0, mid, src));
    match src {
        Err(e) => Err(e),
        Ok(v) => {
            let reg = reg_dx(core.ir);
            let dst = core.dar[reg];
            let res = common::add_8(core, dst, v);
            set_reg(core, reg, merge(dst, res, 8));
            Ok(Cycles(8))
        },
    }
}

/// What `add_8_er_pd` does: the core goes from `c0` to `c1` and `r` comes back.
pub open spec fn add_8_er_pd_effect(c0: ConfiguredCore, c1: ConfiguredCore, r: Result<Cycles>) -> bool {
    &&& exists|mid: ConfiguredCore, src: Result<u32>|
            #[trigger] operator::ay_pd_8_rel(c0, mid, src) && match src {
                Err(e) => r == Err::<Cycles, Exception>(e) && c1 == mid,
                Ok(v) => {
                    let reg = ir_dx(mid.ir);
                    let o = common::add_8_outcome(mid, mid.dar[reg], v);
                    &&& r == Ok::<Cycles, Exception>(Cycles(10))
                    &&& reg_set(o.0, c1, reg, merged(mid.dar[reg], o.1, 8))
                },
            }
}

pub fn add_8_er_pd(core: &mut ConfiguredCore) -> (r: Result<Cycles>)
    requires
        old(core).wf(),
    ensures
        final(core).wf(),
        add_8_er_pd_effect(*old(core), *final(core), r),
{
    let ghost c0 = *core;
    let src = operator::ay_pd_8(core);
    let ghost mid = *core;
    assert(operator::ay_pd_8_rel(c0, mid, src));
    match src {
        Err(e) => Err(e),
        Ok(v) => {
            let reg = reg_dx(core.ir);
            let dst = core.dar[reg];
            let res = common::add_8(core, dst, v);
            set_reg(core, reg, merge(dst, res, 8));
            Ok(Cycles(10))
        },
    }
}

/// What `add_8_er_di` does: the core goes from `c0` to `c1` and `r` comes back.
pub open spec fn add_8_er_di_effect(c0: ConfiguredCore, c1: ConfiguredCore, r: Result<Cycles>) -> bool {
    &&& exists|mid: ConfiguredCore, src: Result<u32>|
            #[trigger] operator::ay_di_8_rel(c0, mid, src) && match src {
                Err(e) => r == Err::<Cycles, Exception>(e) && c1 == mid,
                Ok(v) => {
                    let reg = ir_dx(mid.ir);
                    let o = common::add_8_outcome(mid, mid.dar[reg], v);
                    &&& r == Ok::<Cycles, Exception>(Cycles(12))
                    &&& reg_set(o.0, c1, reg, merged(mid.dar[reg], o.1, 8))
                },
            }
}

pub fn add_8_er_di(core: &mut ConfiguredCore) -> (r: Result<Cycles>)
    requires
        old(core).wf(),
    ensures
        final(core).wf(),
        add_8_er_di_effect(*old(core), *final(core), r),
{
    let ghost c0 = *core;
    let src = operator::ay_di_8(core);
    let ghost mid = *core;
    assert(operator::ay_di_8_rel(c0, mid, src));
    match src {
        Err(e) => Err(e),
        Ok(v) => {
            let reg = reg_dx(core.ir);
            let dst = core.dar[reg];
            let res = common::add_8(core, dst, v);
            set_reg(core, reg, merge(dst, res, 8));
            Ok(Cycles(12))
        },
    }
}

/// What `add_8_er_ix` does: the core goes from `c0` to `c1` and `r` comes back.
pub open spec fn add_8_er_ix_effect(c0: ConfiguredCore, c1: ConfiguredCore, r: Result<Cycles>) -> bool {
    &&& exists|mid: ConfiguredCore, src: Result<u32>|
            #[trigger] operator::ay_ix_8_rel(c0, mid, src) && match src {
                Err(e) => r == Err::<Cycles, Exception>(e) && c1 == mid,
                Ok(v) => {
                    let reg = ir_dx(mid.ir);
                    let o = common::add_8_outcome(mid, mid.dar[reg], v);
                    &&& r == Ok::<Cycles, Exception>(Cycles(14))
                    &&& reg_set(o.0, c1, reg, merged(mid.dar[reg], o.1, 8))
                },
            }
}

pub fn add_8_er_ix(core: &mut ConfiguredCore) -> (r: Result<Cycles>)
    requires
        old(core).wf(),
    ensures
        final(core).wf(),
        add_8_er_ix_effect(*old(core), *final(core), r),
{
    let ghost c0 = *core;
    let src = operator::ay_ix_8(core);
    let ghost mid = *core;
    assert(operator::ay_ix_8_rel(c0, mid, src));
    match src {
        Err(e) => Err(e),
        Ok(v) => {
            let reg = reg_dx(core.ir);
            let dst = core.dar[reg];
            let res = common::add_8(core, dst, v);
            set_reg(core, reg, merge(dst, res, 8));
            Ok(Cycles(14))
        },
    }
}

/// What `add_8_er_aw` does: the core goes from `c0` to `c1` and `r` comes back.
pub open spec fn add_8_er_aw_effect(c0: ConfiguredCore, c1: ConfiguredCore, r: Result<Cycles>) -> bool {
    &&& exists|mid: ConfiguredCore, src: Result<u32>|
            #[trigger] operator::aw_8_rel(c0, mid, src) && match src {
                Err(e) => r == Err::<Cycles, Exception>(e) && c1 == mid,
                Ok(v) => {
                    let reg = ir_dx(mid.ir);
                    let o = common::add_8_outcome(mid, mid.dar[reg], v);
                    &&& r == Ok::<Cycles, Exception>(Cycles(12))
                    &&& reg_set(o.0, c1, reg, merged(mid.dar[reg], o.1, 8))
                },
            }
}

pub fn add_8_er_aw(core: &mut ConfiguredCore) -> (r: Result<Cycles>)
    requires
        old(core).wf(),
    ensures
        final(core).wf(),
        add_8_er_aw_effect(*old(core), *final(core), r),
{
    let ghost c0 = *core;
    let src = operator::aw_8(core);
    let ghost mid = *core;
    assert(operator::aw_8_rel(c0, mid, src));
    match src {
        Err(e) => Err(e),
        Ok(v) => {
            let reg = reg_dx(core.ir);
            let dst = core.dar[reg];
            let res = common::add_8(core, dst, v);
            set_reg(core, reg, merge(dst, res, 8));
            Ok(Cycles(12))
        },
    }
}

/// What `add_8_er_al` does: the core goes from `c0` to `c1` and `r` comes back.
pub open spec fn add_8_er_al_effect(c0: ConfiguredCore, c1: ConfiguredCore, r: Result<Cycles>) -> bool {
    &&& exists|mid: ConfiguredCore, src: Result<u32>|
            #[trigger] operator::al_8_rel(c0, mid, src) && match src {
                Err(e) => r == Err::<Cycles, Exception>(e) && c1 == mid,
                Ok(v) => {
                    let reg = ir_dx(mid.ir);
                    let o = common::add_8_outcome(mid, mid.dar[reg], v);
                    &&& r == Ok::<Cycles, Exception>(Cycles(16))
                    &&& reg_set(o.0, c1, reg, merged(mid.dar[reg], o.1, 8))
                },
            }
}

pub fn add_8_er_al(core: &mut ConfiguredCore) -> (r: Result<Cycles>)
    requires
        old(core).wf(),
    ensures
        final(core).wf(),
        add_8_er_al_effect(*old(core), *final(core), r),
{
    let ghost c0 = *core;
    let src = operator::al_8(core);
    let ghost mid = *core;
    assert(operator::al_8_rel(c0, mid, src));
    match src {
        Err(e) => Err(e),
        Ok(v) => {
            let reg = reg_dx(core.ir);
            let dst = core.dar[reg];
            let res = common::add_8(core, dst, v);
            set_reg(core, reg, merge(dst, res, 8));
            Ok(Cycles(16))
        },
    }
}

/// What `add_8_er_pcdi` does: the core goes from `c0` to `c1` and `r` comes back.
pub open spec fn add_8_er_pcdi_effect(c0: ConfiguredCore, c1: ConfiguredCore, r: Result<Cycles>) -> bool {
    &&& exists|mid: ConfiguredCore, src: Result<u32>|
            #[trigger] operator::pcdi_8_rel(c0, mid, src) && match src {
                Err(e) => r == Err::<Cycles, Exception>(e) && c1 == mid,
                Ok(v) => {
                    let reg = ir_dx(mid.ir);
                    let o = common::add_8_outcome(mid, mid.dar[reg], v);
                    &&& r == Ok::<Cycles, Exception>(Cycles(12))
                    &&& reg_set(o.0, c1, reg, merged(mid.dar[reg], o.1, 8))
                },
            }
}

pub fn add_8_er_pcdi(core: &mut ConfiguredCore) -> (r: Result<Cycles>)
    requires
        old(core).wf(),
    ensures
        final(core).wf(),
        add_8_er_pcdi_effect(*old(core), *final(core), r),
{
    let ghost c0 = *core;
    let src = operator::pcdi_8(core);
    let ghost mid = *core;
    assert(operator::pcdi_8_rel(c0, mid, src));
    match src {
        Err(e) => Err(e),
        Ok(v) => {
            let reg = reg_dx(core.ir);
            let dst = core.dar[reg];
            let res = common::add_8(core, dst, v);
            set_reg(core, reg, merge(dst, res, 8));
            Ok(Cycles(12))
        },
    }
}

/// What `add_8_er_pcix` does: the core goes from `c0` to `c1` and `r` comes back.
pub open spec fn add_8_er_pcix_effect(c0: ConfiguredCore, c1: ConfiguredCore, r: Result<Cycles>) -> bool {
    &&& exists|mid: ConfiguredCore, src: Result<u32>|
            #[trigger] operator::pcix_8_rel(c0, mid, src) && match src {
                Err(e) => r == Err::<Cycles, Exception>(e) && c1 == mid,
                Ok(v) => {
                    let reg = ir_dx(mid.ir);
                    let o = common::add_8_outcome(mid, mid.dar[reg], v);
                    &&& r == Ok::<Cycles, Exception>(Cycles(14))
                    &&& reg_set(o.0, c1, reg, merged(mid.dar[reg], o.1, 8))
                },
            }
}

pub fn add_8_er_pcix(core: &mut ConfiguredCore) -> (r: Result<Cycles>)
    requires
        old(core).wf(),
    ensures
        final(core).wf(),
        add_8_er_pcix_effect(*old(core), *final(core), r),
{
    let ghost c0 = *core;
    let src = operator::pcix_8(core);
    let ghost mid = *core;
    assert(operator::pcix_8_rel(c0, mid, src));
    match src {
        Err(e) => Err(e),
        Ok(v) => {
            let reg = reg_dx(core.ir);
            let dst = core.dar[reg];
            let res = common::add_8(core, dst, v);
            set_reg(core, reg, merge(dst, res, 8));
            Ok(Cycles(14))
        },
    }
}

/// What `add_8_er_imm` does: the core goes from `c0` to `c1` and `r` comes back.
pub open spec fn add_8_er_imm_effect(c0: ConfiguredCore, c1: ConfiguredCore, r: Result<Cycles>) -> bool {
    &&& exists|mid: ConfiguredCore, src: Result<u32>|
            #[trigger] operator::imm_8_rel(c0, mid, src) && match src {
                Err(e) => r == Err::<Cycles, Exception>(e) && c1 == mid,
                Ok(v) => {
                    let reg = ir_dx(mid.ir);
                    let o = common::add_8_outcome(mid, mid.dar[reg], v);
                    &&& r == Ok::<Cycles, Exception>(Cycles(10))
                    &&& reg_set(o.0, c1, reg, merged(mid.dar[reg], o.1, 8))
                },
            }
}

pub fn add_8_er_imm(core: &mut ConfiguredCore) -> (r: Result<Cycles>)
    requires
        old(core).wf(),
    ensures
        final(core).wf(),
        add_8_er_imm_effect(*old(core), *final(core), r),
{
    let ghost c0 = *core;
    let src = operator::imm_8(core);
    let ghost mid = *core;
    assert(operator::imm_8_rel(c0, mid, src));
    match src {
        Err(e) => Err(e),
        Ok(v) => {
            let reg = reg_dx(core.ir);
            let dst = core.dar[reg];
            let res = common::add_8(core, dst, v);
            set_reg(core, reg, merge(dst, res, 8));
            Ok(Cycles(10))
        },
    }
}

/// What `add_8_re_ai` does: the core goes from `c0` to `c1` and `r` comes back.
pub open spec fn add_8_re_ai_effect(c0: ConfiguredCore, c1: ConfiguredCore, r: Result<Cycles>) -> bool {
    &&& exists|m1: ConfiguredCore, src: Result<u32>|
            #[trigger] operator::dx_rel(c0, m1, src) && match src {
                Err(e) => r == Err::<Cycles, Exception>(e) && c1 == m1,
                Ok(v) => exists|m2: ConfiguredCore, d: Result<(u32, u32)>|
                    #[trigger] operator::ea_ay_ai_8_rel(m1, m2, d) && match d {
                        Err(e) => r == Err::<Cycles, Exception>(e) && c1 == m2,
                        Ok((dv, ea)) => {
                            let o = common::add_8_outcome(m2, dv, v);
                            stored(o.0, c1, 8, ea, merged(dv, o.1, 8), r, 12)
                        },
                    },
            }
}

pub fn add_8_re_ai(core: &mut ConfiguredCore) -> (r: Result<Cycles>)
    requires
        old(core).wf(),
    ensures
        final(core).wf(),
        add_8_re_ai_effect(*old(core), *final(core), r),
{
    let ghost c0 = *core;
    let src = operator::dx(core);
    let ghost m1 = *core;
    assert(operator::dx_rel(c0, m1, src));
    let v = match src {
        Err(e) => {
            return Err(e);
        },
        Ok(v) => v,
    };
    let d = operator::ea_ay_ai_8(core);
    let ghost m2 = *core;
    assert(operator::ea_ay_ai_8_rel(m1, m2, d));
    let (dv, ea) = match d {
        Err(e) => {
            return Err(e);
        },
        Ok(p) => p,
    };
    let res = common::add_8(core, dv, v);
    store(core, 8, ea, merge(dv, res, 8), 12)
}

/// What `add_8_re_pi` does: the core goes from `c0` to `c1` and `r` comes back.
pub open spec fn add_8_re_pi_effect(c0: ConfiguredCore, c1: ConfiguredCore, r: Result<Cycles>) -> bool {
    &&& exists|m1: ConfiguredCore, src: Result<u32>|
            #[trigger] operator::dx_rel(c0, m1, src) && match src {
                Err(e) => r == Err::<Cycles, Exception>(e) && c1 == m1,
                Ok(v) => exists|m2: ConfiguredCore, d: Result<(u32, u32)>|
                    #[trigger] operator::ea_ay_pi_8_rel(m1, m2, d) && match d {
                        Err(e) => r == Err::<Cycles, Exception>(e) && c1 == m2,
                        Ok((dv, ea)) => {
                            let o = common::add_8_outcome(m2, dv, v);
                            stored(o.0, c1, 8, ea, merged(dv, o.1, 8), r, 12)
                        },
                    },
            }
}

pub fn add_8_re_pi(core: &mut ConfiguredCore) -> (r: Result<Cycles>)
    requires
        old(core).wf(),
    ensures
        final(core).wf(),
        add_8_re_pi_effect(*old(core), *final(core), r),
{
    let ghost c0 = *core;
    let src = operator::dx(core);
    let ghost m1 = *core;
    assert(operator::dx_rel(c0, m1, src));
    let v = match src {
        Err(e) => {
            return Err(e);
        },
        Ok(v) => v,
    };
    let d = operator::ea_ay_pi_8(core);
    let ghost m2 = *core;
    assert(operator::ea_ay_pi_8_rel(m1, m2, d));
    let (dv, ea) = match d {
        Err(e) => {
            return Err(e);
        },
        Ok(p) => p,
    };
    let res = common::add_8(core, dv, v);
    store(core, 8, ea, merge(dv, res, 8), 12)
}

/// What `add_8_re_pd` does: the core goes from `c0` to `c1` and `r` comes back.
pub open spec fn add_8_re_pd_effect(c0: ConfiguredCore, c1: ConfiguredCore, r: Result<Cycles>) -> bool {
    &&& exists|m1: ConfiguredCore, src: Result<u32>|
            #[trigger] operator::dx_rel(c0, m1, src) && match src {
                Err(e) => r == Err::<Cycles, Exception>(e) && c1 == m1,
                Ok(v) => exists|m2: ConfiguredCore, d: Result<(u32, u32)>|
                    #[trigger] operator::ea_ay_pd_8_rel(m1, m2, d) && match d {
                        Err(e) => r == Err::<Cycles, Exception>(e) && c1 == m2,
                        Ok((dv, ea)) => {
                            let o = common::add_8_outcome(m2, dv, v);
                            stored(o.0, c1, 8, ea, merged(dv, o.1, 8), r, 14)
                        },
                    },
            }
}

pub fn add_8_re_pd(core: &mut ConfiguredCore) -> (r: Result<Cycles>)
    requires
        old(core).wf(),
    ensures
        final(core).wf(),
        add_8_re_pd_effect(*old(core), *final(core), r),
{
    let ghost c0 = *core;
    let src = operator::dx(core);
    let ghost m1 = *core;
    assert(operator::dx_rel(c0, m1, src));
    let v = match src {
        Err(e) => {
            return Err(e);
        },
        Ok(v) => v,
    };
    let d = operator::ea_ay_pd_8(core);
    let ghost m2 = *core;
    assert(operator::ea_ay_pd_8_rel(m1, m2, d));
    let (dv, ea) = match d {
        Err(e) => {
            return Err(e);
        },
        Ok(p) => p,
    };
    let res = common::add_8(core, dv, v);
    store(core, 8, ea, merge(dv, res, 8), 14)
}

/// What `add_8_re_di` does: the core goes from `c0` to `c1` and `r` comes back.
pub open spec fn add_8_re_di_effect(c0: ConfiguredCore, c1: ConfiguredCore, r: Result<Cycles>) -> bool {
    &&& exists|m1: ConfiguredCore, src: Result<u32>|
            #[trigger] operator::dx_rel(c0, m1, src) && match src {
                Err(e) => r == Err::<Cycles, Exception>(e) && c1 == m1,
                Ok(v) => exists|m2: ConfiguredCore, d: Result<(u32, u32)>|
                    #[trigger] operator::ea_ay_di_8_rel(m1, m2, d) && match d {
                        Err(e) => r == Err::<Cycles, Exception>(e) && c1 == m2,
                        Ok((dv, ea)) => {
                            let o = common::add_8_outcome(m2, dv, v);
                            stored(o.0, c1, 8, ea, merged(dv, o.1, 8), r, 16)
                        },
                    },
            }
}

pub fn add_8_re_di(core: &mut ConfiguredCore) -> (r: Result<Cycles>)
    requires
        old(core).wf(),
    ensures
        final(core).wf(),
        add_8_re_di_effect(*old(core), *final(core), r),
{
    let ghost c0 = *core;
    let src = operator::dx(core);
    let ghost m1 = *core;
    assert(operator::dx_rel(c0, m1, src));
    let v = match src {
        Err(e) => {
            return Err(e);
        },
        Ok(v) => v,
    };
    let d = operator::ea_ay_di_8(core);
    let ghost m2 = *core;
    assert(operator::ea_ay_di_8_rel(m1, m2, d));
    let (dv, ea) = match d {
        Err(e) => {
            return Err(e);
        },
        Ok(p) => p,
    };
    let res = common::add_8(core, dv, v);
    store(core, 8, ea, merge(dv, res, 8), 16)
}

/// What `add_8_re_ix` does: the core goes from `c0` to `c1` and `r` comes back.
pub open spec fn add_8_re_ix_effect(c0: ConfiguredCore, c1: ConfiguredCore, r: Result<Cycles>) -> bool {
    &&& exists|m1: ConfiguredCore, src: Result<u32>|
            #[trigger] operator::dx_rel(c0, m1, src) && match src {
                Err(e) => r == Err::<Cycles, Exception>(e) && c1 == m1,
                Ok(v) => exists|m2: ConfiguredCore, d: Result<(u32, u32)>|
                    #[trigger] operator::ea_ay_ix_8_rel(m1, m2, d) && match d {
                        Err(e) => r == Err::<Cycles, Exception>(e) && c1 == m2,
                        Ok((dv, ea)) => {
                            let o = common::add_8_outcome(m2, dv, v);
                            stored(o.0, c1, 8, ea, merged(dv, o.1, 8), r, 18)
                        },
                    },
            }
}

pub fn add_8_re_ix(core: &mut ConfiguredCore) -> (r: Result<Cycles>)
    requires
        old(core).wf(),
    ensures
        final(core).wf(),
        add_8_re_ix_effect(*old(core), *final(core), r),
{
    let ghost c0 = *core;
    let src = operator::dx(core);
    let ghost m1 = *core;
    assert(operator::dx_rel(c0, m1, src));
    let v = match src {
        Err(e) => {
            return Err(e);
        },
        Ok(v) => v,
    };
    let d = operator::ea_ay_ix_8(core);
    let ghost m2 = *core;
    assert(operator::ea_ay_ix_8_rel(m1, m2, d));
    let (dv, ea) = match d {
        Err(e) => {
            return Err(e);
        },
        Ok(p) => p,
    };
    let res = common::add_8(core, dv, v);
    store(core, 8, ea, merge(dv, res, 8), 18)
}

/// What `add_8_re_aw` does: the core goes from `c0` to `c1` and `r` comes back.
pub open spec fn add_8_re_aw_effect(c0: ConfiguredCore, c1: ConfiguredCore, r: Result<Cycles>) -> bool {
    &&& exists|m1: ConfiguredCore, src: Result<u32>|
            #[trigger] operator::dx_rel(c0, m1, src) && match src {
                Err(e) => r == Err::<Cycles, Exception>(e) && c1 == m1,
                Ok(v) => exists|m2: ConfiguredCore, d: Result<(u32, u32)>|
                    #[trigger] operator::ea_aw_8_rel(m1, m2, d) && match d {
                        Err(e) => r == Err::<Cycles, Exception>(e) && c1 == m2,
                        Ok((dv, ea)) => {
                            let o = common::add_8_outcome(m2, dv, v);
                            stored(o.0, c1, 8, ea, merged(dv, o.1, 8), r, 16)
                        },
                    },
            }
}

pub fn add_8_re_aw(core: &mut ConfiguredCore) -> (r: Result<Cycles>)
    requires
        old(core).wf(),
    ensures
        final(core).wf(),
        add_8_re_aw_effect(*old(core), *final(core), r),
{
    let ghost c0 = *core;
    let src = operator::dx(core);
    let ghost m1 = *core;
    assert(operator::dx_rel(c0, m1, src));
    let v = match src {
        Err(e) => {
            return Err(e);
        },
        Ok(v) => v,
    };
    let d = operator::ea_aw_8(core);
    let ghost m2 = *core;
    assert(operator::ea_aw_8_rel(m1, m2, d));
    let (dv, ea) = match d {
        Err(e) => {
            return Err(e);
        },
        Ok(p) => p,
    };
    let res = common::add_8(core, dv, v);
    store(core, 8, ea, merge(dv, res, 8), 16)
}

/// What `add_8_re_al` does: the core goes from `c0` to `c1` and `r` comes back.
pub open spec fn add_8_re_al_effect(c0: ConfiguredCore, c1: ConfiguredCore, r: Result<Cycles>) -> bool {
    &&& exists|m1: ConfiguredCore, src: Result<u32>|
            #[trigger] operator::dx_rel(c0, m1, src) && match src {
                Err(e) => r == Err::<Cycles, Exception>(e) && c1 == m1,
                Ok(v) => exists|m2: ConfiguredCore, d: Result<(u32, u32)>|
                    #[trigger] operator::ea_al_8_rel(m1, m2, d) && match d {
                        Err(e) => r == Err::<Cycles, Exception>(e) && c1 == m2,
                        Ok((dv, ea)) => {
                            let o = common::add_8_outcome(m2, dv, v);
                            stored(o.0, c1, 8, ea, merged(dv, o.1, 8), r, 20)
                        },
                    },
            }
}

pub fn add_8_re_al(core: &mut ConfiguredCore) -> (r: Result<Cycles>)
    requires
        old(core).wf(),
    ensures
        final(core).wf(),
        add_8_re_al_effect(*old(core), *final(core), r),
{
    let ghost c0 = *core;
    let src = operator::dx(core);
    let ghost m1 = *core;
    assert(operator::dx_rel(c0, m1, src));
    let v = match src {
        Err(e) => {
            return Err(e);
        },
        Ok(v) => v,
    };
    let d = operator::ea_al_8(core);
    let ghost m2 = *core;
    assert(operator::ea_al_8_rel(m1, m2, d));
    let (dv, ea) = match d {
        Err(e) => {
            return Err(e);
        },
        Ok(p) => p,
    };
    let res = common::add_8(core, dv, v);
    store(core, 8, ea, merge(dv, res, 8), 20)
}

/// What `add_16_er_dn` does: the core goes from `c0` to `c1` and `r` comes back.
pub open spec fn add_16_er_dn_effect(c0: ConfiguredCore, c1: ConfiguredCore, r: Result<Cycles>) -> bool {
    &&& exists|mid: ConfiguredCore, src: Result<u32>|
            #[trigger] operator::dy_rel(c0, mid, src) && match src {
                Err(e) => r == Err::<Cycles, Exception>(e) && c1 == mid,
                Ok(v) => {
                    let reg = ir_dx(mid.ir);
                    let o = common::add_16_outcome(mid, mid.dar[reg], v);
                    &&& r == Ok::<Cycles, Exception>(Cycles(4))
                    &&& reg_set(o.0, c1, reg, merged(mid.dar[reg], o.1, 16))
                },
            }
}

pub fn add_16_er_dn(core: &mut ConfiguredCore) -> (r: Result<Cycles>)
    requires
        old(core).wf(),
    ensures
        final(core).wf(),
        add_16_er_dn_effect(*old(core), *final(core), r),
{
    let ghost c0 = *core;
    let src = operator::dy(core);
    let ghost mid = *core;
    assert(operator::dy_rel(c0, mid, src));
    match src {
        Err(e) => Err(e),
        Ok(v) => {
            let reg = reg_dx(core.ir);
            let dst = core.dar[reg];
            let res = common::add_16(core, dst, v);
            set_reg(core, reg, merge(dst, res, 16));
            Ok(Cycles(4))
        },
    }
}

/// What `add_16_er_an` does: the core goes from `c0` to `c1` and `r` comes back.
pub open spec fn add_16_er_an_effect(c0: ConfiguredCore, c1: ConfiguredCore, r: Result<Cycles>) -> bool {
    &&& exists|mid: ConfiguredCore, src: Result<u32>|
            #[trigger] operator::ay_rel(c0, mid, src) && match src {
                Err(e) => r == Err::<Cycles, Exception>(e) && c1 == mid,
                Ok(v) => {
                    let reg = ir_dx(mid.ir);
                    let o = common::add_16_outcome(mid, mid.dar[reg], v);
                    &&& r == Ok::<Cycles, Exception>(Cycles(4))
                    &&& reg_set(o.0, c1, reg, merged(mid.dar[reg], o.1, 16))
                },
            }
}

pub fn add_16_er_an(core: &mut ConfiguredCore) -> (r: Result<Cycles>)
    requires
        old(core).wf(),
    ensures
        final(core).wf(),
        add_16_er_an_effect(*old(core), *final(core), r),
{
    let ghost c0 = *core;
    let src = operator::ay(core);
    let ghost mid = *core;
    assert(operator::ay_rel(c0, mid, src));
    match src {
        Err(e) => Err(e),
        Ok(v) => {
            let reg = reg_dx(core.ir);
            let dst = core.dar[reg];
            let res = common::add_16(core, dst, v);
            set_reg(core, reg, merge(dst, res, 16));
            Ok(Cycles(4))
        },
    }
}

/// What `add_16_er_ai` does: the core goes from `c0` to `c1` and `r` comes back.
pub open spec fn add_16_er_ai_effect(c0: ConfiguredCore, c1: ConfiguredCore, r: Result<Cycles>) -> bool {
    &&& exists|mid: ConfiguredCore, src: Result<u32>|
            #[trigger] operator::ay_ai_16_rel(c0, mid, src) && match src {
                Err(e) => r == Err::<Cycles, Exception>(e) && c1 == mid,
                Ok(v) => {
                    let reg = ir_dx(mid.ir);
                    let o = common::add_16_outcome(mid, mid.dar[reg], v);
                    &&& r == Ok::<Cycles, Exception>(Cycles(8))
                    &&& reg_set(o.0, c1, reg, merged(mid.dar[reg], o.1, 16))
                },
            }
}

pub fn add_16_er_ai(core: &mut ConfiguredCore) -> (r: Result<Cycles>)
    requires
        old(core).wf(),
    ensures
        final(core).wf(),
        add_16_er_ai_effect(*old(core), *final(core), r),
{
    let ghost c0 = *core;
    let src = operator::ay_ai_16(core);
    let ghost mid = *core;
    assert(operator::ay_ai_16_rel(c0, mid, src));
    match src {
        Err(e) => Err(e),
        Ok(v) => {
            let reg = reg_dx(core.ir);
            let dst = core.dar[reg];
            let res = common::add_16(core, dst, v);
            set_reg(core, reg, merge(dst, res, 16));
            Ok(Cycles(8))
        },
    }
}

/// What `add_16_er_pi` does: the core goes from `c0` to `c1` and `r` comes back.
pub open spec fn add_16_er_pi_effect(c0: ConfiguredCore, c1: ConfiguredCore, r: Result<Cycles>) -> bool {
    &&& exists|mid: ConfiguredCore, src: Result<u32>|
            #[trigger] operator::ay_pi_16_rel(c0, mid, src) && match src {
                Err(e) => r == Err::<Cycles, Exception>(e) && c1 == mid,
                Ok(v) => {
                    let reg = ir_dx(mid.ir);
                    let o = common::add_16_outcome(mid, mid.dar[reg], v);
                    &&& r == Ok::<Cycles, Exception>(Cycles(8))
                    &&& reg_set(o.0, c1, reg, merged(mid.dar[reg], o.1, 16))
                },
            }
}

pub fn add_16_er_pi(core: &mut ConfiguredCore) -> (r: Result<Cycles>)
    requires
        old(core).wf(),
    ensures
        final(core).wf(),
        add_16_er_pi_effect(*old(core), *final(core), r),
{
    let ghost c0 = *core;
    let src = operator::ay_pi_16(core);
    let ghost mid = *core;
    assert(operator::ay_pi_16_rel(c0, mid, src));
    match src {
        Err(e) => Err(e),
        Ok(v) => {
            let reg = reg_dx(core.ir);
            let dst = core.dar[reg];
            let res = common::add_16(core, dst, v);
            set_reg(core, reg, merge(dst, res, 16));
            Ok(Cycles(8))
        },
    }
}

/// What `add_16_er_pd` does: the core goes from `c0` to `c1` and `r` comes back.
pub open spec fn add_16_er_pd_effect(c0: ConfiguredCore, c1: ConfiguredCore, r: Result<Cycles>) -> bool {
    &&& exists|mid: ConfiguredCore, src: Result<u32>|
            #[trigger] operator::ay_pd_16_rel(c0, mid, src) && match src {
                Err(e) => r == Err::<Cycles, Exception>(e) && c1 == mid,
                Ok(v) => {
                    let reg = ir_dx(mid.ir);
                    let o = common::add_16_outcome(mid, mid.dar[reg], v);
                    &&& r == Ok::<Cycles, Exception>(Cycles(10))
                    &&& reg_set(o.0, c1, reg, merged(mid.dar[reg], o.1, 16))
                },
            }
}

pub fn add_16_er_pd(core: &mut ConfiguredCore) -> (r: Result<Cycles>)
    requires
        old(core).wf(),
    ensures
        final(core).wf(),
        add_16_er_pd_effect(*old(core), *final(core), r),
{
    let ghost c0 = *core;
    let src = operator::ay_pd_16(core);
    let ghost mid = *core;
    assert(operator::ay_pd_16_rel(c0, mid, src));
    match src {
        Err(e) => Err(e),
        Ok(v) => {
            let reg = reg_dx(core.ir);
            let dst = core.dar[reg];
            let res = common::add_16(core, dst, v);
            set_reg(core, reg, merge(dst, res, 16));
            Ok(Cycles(10))
        },
    }
}

/// What `add_16_er_di` does: the core goes from `c0` to `c1` and `r` comes back.
pub open spec fn add_16_er_di_effect(c0: ConfiguredCore, c1: ConfiguredCore, r: Result<Cycles>) -> bool {
    &&& exists|mid: ConfiguredCore, src: Result<u32>|
            #[trigger] operator::ay_di_16_rel(c0, mid, src) && match src {
                Err(e) => r == Err::<Cycles, Exception>(e) && c1 == mid,
                Ok(v) => {
                    let reg = ir_dx(mid.ir);
                    let o = common::add_16_outcome(mid, mid.dar[reg], v);
                    &&& r == Ok::<Cycles, Exception>(Cycles(12))
                    &&& reg_set(o.0, c1, reg, merged(mid.dar[reg], o.1, 16))
                },
            }
}

pub fn add_16_er_di(core: &mut ConfiguredCore) -> (r: Result<Cycles>)
    requires
        old(core).wf(),
    ensures
        final(core).wf(),
        add_16_er_di_effect(*old(core), *final(core), r),
{
    let ghost c0 = *core;
    let src = operator::ay_di_16(core);
    let ghost mid = *core;
    assert(operator::ay_di_16_rel(c0, mid, src));
    match src {
        Err(e) => Err(e),
        Ok(v) => {
            let reg = reg_dx(core.ir);
            let dst = core.dar[reg];
            let res = common::add_16(core, dst, v);
            set_reg(core, reg, merge(dst, res, 16));
            Ok(Cycles(12))
        },
    }
}

/// What `add_16_er_ix` does: the core goes from `c0` to `c1` and `r` comes back.
pub open spec fn add_16_er_ix_effect(c0: ConfiguredCore, c1: ConfiguredCore, r: Result<Cycles>) -> bool {
    &&& exists|mid: ConfiguredCore, src: Result<u32>|
            #[trigger] operator::ay_ix_16_rel(c0, mid, src) && match src {
                Err(e) => r == Err::<Cycles, Exception>(e) && c1 == mid,
                Ok(v) => {
                    let reg = ir_dx(mid.ir);
                    let o = common::add_16_outcome(mid, mid.dar[reg], v);
                    &&& r == Ok::<Cycles, Exception>(Cycles(14))
                    &&& reg_set(o.0, c1, reg, merged(mid.dar[reg], o.1, 16))
                },
            }
}

pub fn add_16_er_ix(core: &mut ConfiguredCore) -> (r: Result<Cycles>)
    requires
        old(core).wf(),
    ensures
        final(core).wf(),
        add_16_er_ix_effect(*old(core), *final(core), r),
{
    let ghost c0 = *core;
    let src = operator::ay_ix_16(core);
    let ghost mid = *core;
    assert(operator::ay_ix_16_rel(c0, mid, src));
    match src {
        Err(e) => Err(e),
        Ok(v) => {
            let reg = reg_dx(core.ir);
            let dst = core.dar[reg];
            let res = common::add_16(core, dst, v);
            set_reg(core, reg, merge(dst, res, 16));
            Ok(Cycles(14))
        },
    }
}

/// What `add_16_er_aw` does: the core goes from `c0` to `c1` and `r` comes back.
pub open spec fn add_16_er_aw_effect(c0: ConfiguredCore, c1: ConfiguredCore, r: Result<Cycles>) -> bool {
    &&& exists|mid: ConfiguredCore, src: Result<u32>|
            #[trigger] operator::aw_16_rel(c0, mid, src) && match src {
                Err(e) => r == Err::<Cycles, Exception>(e) && c1 == mid,
                Ok(v) => {
                    let reg = ir_dx(mid.ir);
                    let o = common::add_16_outcome(mid, mid.dar[reg], v);
                    &&& r == Ok::<Cycles, Exception>(Cycles(12))
                    &&& reg_set(o.0, c1, reg, merged(mid.dar[reg], o.1, 16))
                },
            }
}

pub fn add_16_er_aw(core: &mut ConfiguredCore) -> (r: Result<Cycles>)
    requires
        old(core).wf(),
    ensures
        final(core).wf(),
        add_16_er_aw_effect(*old(core), *final(core), r),
{
    let ghost c0 = *core;
    let src = operator::aw_16(core);
    let ghost mid = *core;
    assert(operator::aw_16_rel(c0, mid, src));
    match src {
        Err(e) => Err(e),
        Ok(v) => {
            let reg = reg_dx(core.ir);
            let dst = core.dar[reg];
            let res = common::add_16(core, dst, v);
            set_reg(core, reg, merge(dst, res, 16));
            Ok(Cycles(12))
        },
    }
}

/// What `add_16_er_al` does: the core goes from `c0` to `c1` and `r` comes back.
pub open spec fn add_16_er_al_effect(c0: ConfiguredCore, c1: ConfiguredCore, r: Result<Cycles>) -> bool {
    &&& exists|mid: ConfiguredCore, src: Result<u32>|
            #[trigger] operator::al_16_rel(c0, mid, src) && match src {
                Err(e) => r == Err::<Cycles, Exception>(e) && c1 == mid,
                Ok(v) => {
                    let reg = ir_dx(mid.ir);
                    let o = common::add_16_outcome(mid, mid.dar[reg], v);
                    &&& r == Ok::<Cycles, Exception>(Cycles(16))
                    &&& reg_set(o.0, c1, reg, merged(mid.dar[reg], o.1, 16))
                },
            }
}

pub fn add_16_er_al(core: &mut ConfiguredCore) -> (r: Result<Cycles>)
    requires
        old(core).wf(),
    ensures
        final(core).wf(),
        add_16_er_al_effect(*old(core), *final(core), r),
{
    let ghost c0 = *core;
    let src = operator::al_16(core);
    let ghost mid = *core;
    assert(operator::al_16_rel(c0, mid, src));
    match src {
        Err(e) => Err(e),
        Ok(v) => {
            let reg = reg_dx(core.ir);
            let dst = core.dar[reg];
            let res = common::add_16(core, dst, v);
            set_reg(core, reg, merge(dst, res, 16));
            Ok(Cycles(16))
        },
    }
}

/// What `add_16_er_pcdi` does: the core goes from `c0` to `c1` and `r` comes back.
pub open spec fn add_16_er_pcdi_effect(c0: ConfiguredCore, c1: ConfiguredCore, r: Result<Cycles>) -> bool {
    &&& exists|mid: ConfiguredCore, src: Result<u32>|
            #[trigger] operator::pcdi_16_rel(c0, mid, src) && match src {
                Err(e) => r == Err::<Cycles, Exception>(e) && c1 == mid,
                Ok(v) => {
                    let reg = ir_dx(mid.ir);
                    let o = common::add_16_outcome(mid, mid.dar[reg], v);
                    &&& r == Ok::<Cycles, Exception>(Cycles(12))
                    &&& reg_set(o.0, c1, reg, merged(mid.dar[reg], o.1, 16))
                },
            }
}

pub fn add_16_er_pcdi(core: &mut ConfiguredCore) -> (r: Result<Cycles>)
    requires
        old(core).wf(),
    ensures
        final(core).wf(),
        add_16_er_pcdi_effect(*old(core), *final(core), r),
{
    let ghost c0 = *core;
    let src = operator::pcdi_16(core);
    let ghost mid = *core;
    assert(operator::pcdi_16_rel(c0, mid, src));
    match src {
        Err(e) => Err(e),
        Ok(v) => {
            let reg = reg_dx(core.ir);
            let dst = core.dar[reg];
            let res = common::add_16(core, dst, v);
            set_reg(core, reg, merge(dst, res, 16));
            Ok(Cycles(12))
        },
    }
}

/// What `add_16_er_pcix` does: the core goes from `c0` to `c1` and `r` comes back.
pub open spec fn add_16_er_pcix_effect(c0: ConfiguredCore, c1: ConfiguredCore, r: Result<Cycles>) -> bool {
    &&& exists|mid: ConfiguredCore, src: Result<u32>|
            #[trigger] operator::pcix_16_rel(c0, mid, src) && match src {
                Err(e) => r == Err::<Cycles, Exception>(e) && c1 == mid,
                Ok(v) => {
                    let reg = ir_dx(mid.ir);
                    let o = common::add_16_outcome(mid, mid.dar[reg], v);
                    &&& r == Ok::<Cycles, Exception>(Cycles(14))
                    &&& reg_set(o.0, c1, reg, merged(mid.dar[reg], o.1, 16))
                },
            }
}

pub fn add_16_er_pcix(core: &mut ConfiguredCore) -> (r: Result<Cycles>)
    requires
        old(core).wf(),
    ensures
        final(core).wf(),
        add_16_er_pcix_effect(*old(core), *final(core), r),
{
    let ghost c0 = *core;
    let src = operator::pcix_16(core);
    let ghost mid = *core;
    assert(operator::pcix_16_rel(c0, mid, src));
    match src {
        Err(e) => Err(e),
        Ok(v) => {
            let reg = reg_dx(core.ir);
            let dst = core.dar[reg];
            let res = common::add_16(core, dst, v);
            set_reg(core, reg, merge(dst, res, 16));
            Ok(Cycles(14))
        },
    }
}

/// What `add_16_er_imm` does: the core goes from `c0` to `c1` and `r` comes back.
pub open spec fn add_16_er_imm_effect(c0: ConfiguredCore, c1: ConfiguredCore, r: Result<Cycles>) -> bool {
    &&& exists|mid: ConfiguredCore, src: Result<u32>|
            #[trigger] operator::imm_16_rel(c0, mid, src) && match src {
                Err(e) => r == Err::<Cycles, Exception>(e) && c1 == mid,
                Ok(v) => {
                    let reg = ir_dx(mid.ir);
                    let o = common::add_16_outcome(mid, mid.dar[reg], v);
                    &&& r == Ok::<Cycles, Exception>(Cycles(10))
                    &&& reg_set(o.0, c1, reg, merged(mid.dar[reg], o.1, 16))
                },
            }
}

pub fn add_16_er_imm(core: &mut ConfiguredCore) -> (r: Result<Cycles>)
    requires
        old(core).wf(),
    ensures
        final(core).wf(),
        add_16_er_imm_effect(*old(core), *final(core), r),
{
    let ghost c0 = *core;
    let src = operator::imm_16(core);
    let ghost mid = *core;
    assert(operator::imm_16_rel(c0, mid, src));
    match src {
        Err(e) => Err(e),
        Ok(v) => {
            let reg = reg_dx(core.ir);
            let dst = core.dar[reg];
            let res = common::add_16(core, dst, v);
            set_reg(core, reg, merge(dst, res, 16));
            Ok(Cycles(10))
        },
    }
}

/// What `add_16_re_ai` does: the core goes from `c0` to `c1` and `r` comes back.
pub open spec fn add_16_re_ai_effect(c0: ConfiguredCore, c1: ConfiguredCore, r: Result<Cycles>) -> bool {
    &&& exists|m1: ConfiguredCore, src: Result<u32>|
            #[trigger] operator::dx_rel(c0, m1, src) && match src {
                Err(e) => r == Err::<Cycles, Exception>(e) && c1 == m1,
                Ok(v) => exists|m2: ConfiguredCore, d: Result<(u32, u32)>|
                    #[trigger] operator::ea_ay_ai_16_rel(m1, m2, d) && match d {
                        Err(e) => r == Err::<Cycles, Exception>(e) && c1 == m2,
                        Ok((dv, ea)) => {
                            let o = common::add_16_outcome(m2, dv, v);
                            stored(o.0, c1, 16, ea, merged(dv, o.1, 16), r, 12)
                        },
                    },
            }
}

pub fn add_16_re_ai(core: &mut ConfiguredCore) -> (r: Result<Cycles>)
    requires
        old(core).wf(),
    ensures
        final(core).wf(),
        add_16_re_ai_effect(*old(core), *final(core), r),
{
    let ghost c0 = *core;
    let src = operator::dx(core);
    let ghost m1 = *core;
    assert(operator::dx_rel(c0, m1, src));
    let v = match src {
        Err(e) => {
            return Err(e);
        },
        Ok(v) => v,
    };
    let d = operator::ea_ay_ai_16(core);
    let ghost m2 = *core;
    assert(operator::ea_ay_ai_16_rel(m1, m2, d));
    let (dv, ea) = match d {
        Err(e) => {
            return Err(e);
        },
        Ok(p) => p,
    };
    let res = common::add_16(core, dv, v);
    store(core, 16, ea, merge(dv, res, 16), 12)
}

/// What `add_16_re_pi` does: the core goes from `c0` to `c1` and `r` comes back.
pub open spec fn add_16_re_pi_effect(c0: ConfiguredCore, c1: ConfiguredCore, r: Result<Cycles>) -> bool {
    &&& exists|m1: ConfiguredCore, src: Result<u32>|
            #[trigger] operator::dx_rel(c0, m1, src) && match src {
                Err(e) => r == Err::<Cycles, Exception>(e) && c1 == m1,
                Ok(v) => exists|m2: ConfiguredCore, d: Result<(u32, u32)>|
                    #[trigger] operator::ea_ay_pi_16_rel(m1, m2, d) && match d {
                        Err(e) => r == Err::<Cycles, Exception>(e) && c1 == m2,
                        Ok((dv, ea)) => {
                            let o = common::add_16_outcome(m2, dv, v);
                            stored(o.0, c1, 16, ea, merged(dv, o.1, 16), r, 12)
                        },
                    },
            }
}

pub fn add_16_re_pi(core: &mut ConfiguredCore) -> (r: Result<Cycles>)
    requires
        old(core).wf(),
    ensures
        final(core).wf(),
        add_16_re_pi_effect(*old(core), *final(core), r),
{
    let ghost c0 = *core;
    let src = operator::dx(core);
    let ghost m1 = *core;
    assert(operator::dx_rel(c0, m1, src));
    let v = match src {
        Err(e) => {
            return Err(e);
        },
        Ok(v) => v,
    };
    let d = operator::ea_ay_pi_16(core);
    let ghost m2 = *core;
    assert(operator::ea_ay_pi_16_rel(m1, m2, d));
    let (dv, ea) = match d {
        Err(e) => {
            return Err(e);
        },
        Ok(p) => p,
    };
    let res = common::add_16(core, dv, v);
    store(core, 16, ea, merge(dv, res, 16), 12)
}

/// What `add_16_re_pd` does: the core goes from `c0` to `c1` and `r` comes back.
pub open spec fn add_16_re_pd_effect(c0: ConfiguredCore, c1: ConfiguredCore, r: Result<Cycles>) -> bool {
    &&& exists|m1: ConfiguredCore, src: Result<u32>|
            #[trigger] operator::dx_rel(c0, m1, src) && match src {
                Err(e) => r == Err::<Cycles, Exception>(e) && c1 == m1,
                Ok(v) => exists|m2: ConfiguredCore, d: Result<(u32, u32)>|
                    #[trigger] operator::ea_ay_pd_16_rel(m1, m2, d) && match d {
                        Err(e) => r == Err::<Cycles, Exception>(e) && c1 == m2,
                        Ok((dv, ea)) => {
                            let o = common::add_16_outcome(m2, dv, v);
                            stored(o.0, c1, 16, ea, merged(dv, o.1, 16), r, 14)
                        },
                    },
            }
}

pub fn add_16_re_pd(core: &mut ConfiguredCore) -> (r: Result<Cycles>)
    requires
        old(core).wf(),
    ensures
        final(core).wf(),
        add_16_re_pd_effect(*old(core), *final(core), r),
{
    let ghost c0 = *core;
    let src = operator::dx(core);
    let ghost m1 = *core;
    assert(operator::dx_rel(c0, m1, src));
    let v = match src {
        Err(e) => {
            return Err(e);
        },
        Ok(v) => v,
    };
    let d = operator::ea_ay_pd_16(core);
    let ghost m2 = *core;
    assert(operator::ea_ay_pd_16_rel(m1, m2, d));
    let (dv, ea) = match d {
        Err(e) => {
            return Err(e);
        },
        Ok(p) => p,
    };
    let res = common::add_16(core, dv, v);
    store(core, 16, ea, merge(dv, res, 16), 14)
}

/// What `add_16_re_di` does: the core goes from `c0` to `c1` and `r` comes back.
pub open spec fn add_16_re_di_effect(c0: ConfiguredCore, c1: ConfiguredCore, r: Result<Cycles>) -> bool {
    &&& exists|m1: ConfiguredCore, src: Result<u32>|
            #[trigger] operator::dx_rel(c0, m1, src) && match src {
                Err(e) => r == Err::<Cycles, Exception>(e) && c1 == m1,
                Ok(v) => exists|m2: ConfiguredCore, d: Result<(u32, u32)>|
                    #[trigger] operator::ea_ay_di_16_rel(m1, m2, d) && match d {
                        Err(e) => r == Err::<Cycles, Exception>(e) && c1 == m2,
                        Ok((dv, ea)) => {
                            let o = common::add_16_outcome(m2, dv, v);
                            stored(o.0, c1, 16, ea, merged(dv, o.1, 16), r, 16)
                        },
                    },
            }
}

pub fn add_16_re_di(core: &mut ConfiguredCore) -> (r: Result<Cycles>)
    requires
        old(core).wf(),
    ensures
        final(core).wf(),
        add_16_re_di_effect(*old(core), *final(core), r),
{
    let ghost c0 = *core;
    let src = operator::dx(core);
    let ghost m1 = *core;
    assert(operator::dx_rel(c0, m1, src));
    let v = match src {
        Err(e) => {
            return Err(e);
        },
        Ok(v) => v,
    };
    let d = operator::ea_ay_di_16(core);
    let ghost m2 = *core;
    assert(operator::ea_ay_di_16_rel(m1, m2, d));
    let (dv, ea) = match d {
        Err(e) => {
            return Err(e);
        },
        Ok(p) => p,
    };
    let res = common::add_16(core, dv, v);
    store(core, 16, ea, merge(dv, res, 16), 16)
}

/// What `add_16_re_ix` does: the core goes from `c0` to `c1` and `r` comes back.
pub open spec fn add_16_re_ix_effect(c0: ConfiguredCore, c1: ConfiguredCore, r: Result<Cycles>) -> bool {
    &&& exists|m1: ConfiguredCore, src: Result<u32>|
            #[trigger] operator::dx_rel(c0, m1, src) && match src {
                Err(e) => r == Err::<Cycles, Exception>(e) && c1 == m1,
                Ok(v) => exists|m2: ConfiguredCore, d: Result<(u32, u32)>|
                    #[trigger] operator::ea_ay_ix_16_rel(m1, m2, d) && match d {
                        Err(e) => r == Err::<Cycles, Exception>(e) && c1 == m2,
                        Ok((dv, ea)) => {
                            let o = common::add_16_outcome(m2, dv, v);
                            stored(o.0, c1, 16, ea, merged(dv, o.1, 16), r, 18)
                        },
                    },
            }
}

pub fn add_16_re_ix(core: &mut ConfiguredCore) -> (r: Result<Cycles>)
    requires
        old(core).wf(),
    ensures
        final(core).wf(),
        add_16_re_ix_effect(*old(core), *final(core), r),
{
    let ghost c0 = *core;
    let src = operator::dx(core);
    let ghost m1 = *core;
    assert(operator::dx_rel(c0, m1, src));
    let v = match src {
        Err(e) => {
            return Err(e);
        },
        Ok(v) => v,
    };
    let d = operator::ea_ay_ix_16(core);
    let ghost m2 = *core;
    assert(operator::ea_ay_ix_16_rel(m1, m2, d));
    let (dv, ea) = match d {
        Err(e) => {
            return Err(e);
        },
        Ok(p) => p,
    };
    let res = common::add_16(core, dv, v);
    store(core, 16, ea, merge(dv, res, 16), 18)
}

/// What `add_16_re_aw` does: the core goes from `c0` to `c1` and `r` comes back.
pub open spec fn add_16_re_aw_effect(c0: ConfiguredCore, c1: ConfiguredCore, r: Result<Cycles>) -> bool {
    &&& exists|m1: ConfiguredCore, src: Result<u32>|
            #[trigger] operator::dx_rel(c0, m1, src) && match src {
                Err(e) => r == Err::<Cycles, Exception>(e) && c1 == m1,
                Ok(v) => exists|m2: ConfiguredCore, d: Result<(u32, u32)>|
                    #[trigger] operator::ea_aw_16_rel(m1, m2, d) && match d {
                        Err(e) => r == Err::<Cycles, Exception>(e) && c1 == m2,
                        Ok((dv, ea)) => {
                            let o = common::add_16_outcome(m2, dv, v);
                            stored(o.0, c1, 16, ea, merged(dv, o.1, 16), r, 16)
                        },
                    },
            }
}

pub fn add_16_re_aw(core: &mut ConfiguredCore) -> (r: Result<Cycles>)
    requires
        old(core).wf(),
    ensures
        final(core).wf(),
        add_16_re_aw_effect(*old(core), *final(core), r),
{
    let ghost c0 = *core;
    let src = operator::dx(core);
    let ghost m1 = *core;
    assert(operator::dx_rel(c0, m1, src));
    let v = match src {
        Err(e) => {
            return Err(e);
        },
        Ok(v) => v,
    };
    let d = operator::ea_aw_16(core);
    let ghost m2 = *core;
    assert(operator::ea_aw_16_rel(m1, m2, d));
    let (dv, ea) = match d {
        Err(e) => {
            return Err(e);
        },
        Ok(p) => p,
    };
    let res = common::add_16(core, dv, v);
    store(core, 16, ea, merge(dv, res, 16), 16)
}

/// What `add_16_re_al` does: the core goes from `c0` to `c1` and `r` comes back.
pub open spec fn add_16_re_al_effect(c0: ConfiguredCore, c1: ConfiguredCore, r: Result<Cycles>) -> bool {
    &&& exists|m1: ConfiguredCore, src: Result<u32>|
            #[trigger] operator::dx_rel(c0, m1, src) && match src {
                Err(e) => r == Err::<Cycles, Exception>(e) && c1 == m1,
                Ok(v) => exists|m2: ConfiguredCore, d: Result<(u32, u32)>|
                    #[trigger] operator::ea_al_16_rel(m1, m2, d) && match d {
                        Err(e) => r == Err::<Cycles, Exception>(e) && c1 == m2,
                        Ok((dv, ea)) => {
                            let o = common::add_16_outcome(m2, dv, v);
                            stored(o.0, c1, 16, ea, merged(dv, o.1, 16), r, 20)
                        },
                    },
            }
}

pub fn add_16_re_al(core: &mut ConfiguredCore) -> (r: Result<Cycles>)
    requires
        old(core).wf(),
    ensures
        final(core).wf(),
        add_16_re_al_effect(*old(core), *final(core), r),
{
    let ghost c0 = *core;
    let src = operator::dx(core);
    let ghost m1 = *core;
    assert(operator::dx_rel(c0, m1, src));
    let v = match src {
        Err(e) => {
            return Err(e);
        },
        Ok(v) => v,
    };
    let d = operator::ea_al_16(core);
    let ghost m2 = *core;
    assert(operator::ea_al_16_rel(m1, m2, d));
    let (dv, ea) = match d {
        Err(e) => {
            return Err(e);
        },
        Ok(p) => p,
    };
    let res = common::add_16(core, dv, v);
    store(core, 16, ea, merge(dv, res, 16), 20)
}

/// What `add_32_er_dn` does: the core goes from `c0` to `c1` and `r` comes back.
pub open spec fn add_32_er_dn_effect(c0: ConfiguredCore, c1: ConfiguredCore, r: Result<Cycles>) -> bool {
    &&& exists|mid: ConfiguredCore, src: Result<u32>|
            #[trigger] operator::dy_rel(c0, mid, src) && match src {
                Err(e) => r == Err::<Cycles, Exception>(e) && c1 == mid,
                Ok(v) => {
                    let reg = ir_dx(mid.ir);
                    let o = common::add_32_outcome(mid, mid.dar[reg], v);
                    &&& r == Ok::<Cycles, Exception>(Cycles(6))
                    &&& reg_set(o.0, c1, reg, merged(mid.dar[reg], o.1, 32))
                },
            }
}

pub fn add_32_er_dn(core: &mut ConfiguredCore) -> (r: Result<Cycles>)
    requires
        old(core).wf(),
    ensures
        final(core).wf(),
        add_32_er_dn_effect(*old(core), *final(core), r),
{
    let ghost c0 = *core;
    let src = operator::dy(core);
    let ghost mid = *core;
    assert(operator::dy_rel(c0, mid, src));
    match src {
        Err(e) => Err(e),
        Ok(v) => {
            let reg = reg_dx(core.ir);
            let dst = core.dar[reg];
            let res = common::add_32(core, dst, v);
            set_reg(core, reg, merge(dst, res, 32));
            Ok(Cycles(6))
        },
    }
}

/// What `add_32_er_an` does: the core goes from `c0` to `c1` and `r` comes back.
pub open spec fn add_32_er_an_effect(c0: ConfiguredCore, c1: ConfiguredCore, r: Result<Cycles>) -> bool {
    &&& exists|mid: ConfiguredCore, src: Result<u32>|
            #[trigger] operator::ay_rel(c0, mid, src) && match src {
                Err(e) => r == Err::<Cycles, Exception>(e) && c1 == mid,
                Ok(v) => {
                    let reg = ir_dx(mid.ir);
                    let o = common::add_32_outcome(mid, mid.dar[reg], v);
                    &&& r == Ok::<Cycles, Exception>(Cycles(6))
                    &&& reg_set(o.0, c1, reg, merged(mid.dar[reg], o.1, 32))
                },
            }
}

pub fn add_32_er_an(core: &mut ConfiguredCore) -> (r: Result<Cycles>)
    requires
        old(core).wf(),
    ensures
        final(core).wf(),
        add_32_er_an_effect(*old(core), *final(core), r),
{
    let ghost c0 = *core;
    let src = operator::ay(core);
    let ghost mid = *core;
    assert(operator::ay_rel(c0, mid, src));
    match src {
        Err(e) => Err(e),
        Ok(v) => {
            let reg = reg_dx(core.ir);
            let dst = core.dar[reg];
            let res = common::add_32(core, dst, v);
            set_reg(core, reg, merge(dst, res, 32));
            Ok(Cycles(6))
        },
    }
}

/// What `add_32_er_ai` does: the core goes from `c0` to `c1` and `r` comes back.
pub open spec fn add_32_er_ai_effect(c0: ConfiguredCore, c1: ConfiguredCore, r: Result<Cycles>) -> bool {
    &&& exists|mid: ConfiguredCore, src: Result<u32>|
            #[trigger] operator::ay_ai_32_rel(c0, mid, src) && match src {
                Err(e) => r == Err::<Cycles, Exception>(e) && c1 == mid,
                Ok(v) => {
                    let reg = ir_dx(mid.ir);
                    let o = common::add_32_outcome(mid, mid.dar[reg], v);
                    &&& r == Ok::<Cycles, Exception>(Cycles(14))
                    &&& reg_set(o.0, c1, reg, merged(mid.dar[reg], o.1, 32))
                },
            }
}

pub fn add_32_er_ai(core: &mut ConfiguredCore) -> (r: Result<Cycles>)
    requires
        old(core).wf(),
    ensures
        final(core).wf(),
        add_32_er_ai_effect(*old(core), *final(core), r),
{
    let ghost c0 = *core;
    let src = operator::ay_ai_32(core);
    let ghost mid = *core;
    assert(operator::ay_ai_32_rel(c0, mid, src));
    match src {
        Err(e) => Err(e),
        Ok(v) => {
            let reg = reg_dx(core.ir);
            let dst = core.dar[reg];
            let res = common::add_32(core, dst, v);
            set_reg(core, reg, merge(dst, res, 32));
            Ok(Cycles(14))
        },
    }
}

/// What `add_32_er_pi` does: the core goes from `c0` to `c1` and `r` comes back.
pub open spec fn add_32_er_pi_effect(c0: ConfiguredCore, c1: ConfiguredCore, r: Result<Cycles>) -> bool {
    &&& exists|mid: ConfiguredCore, src: Result<u32>|
            #[trigger] operator::ay_pi_32_rel(c0, mid, src) && match src {
                Err(e) => r == Err::<Cycles, Exception>(e) && c1 == mid,
                Ok(v) => {
                    let reg = ir_dx(mid.ir);
                    let o = common::add_32_outcome(mid, mid.dar[reg], v);
                    &&& r == Ok::<Cycles, Exception>(Cycles(14))
                    &&& reg_set(o.0, c1, reg, merged(mid.dar[reg], o.1, 32))
                },
            }
}

pub fn add_32_er_pi(core: &mut ConfiguredCore) -> (r: Result<Cycles>)
    requires
        old(core).wf(),
    ensures
        final(core).wf(),
        add_32_er_pi_effect(*old(core), *final(core), r),
{
    let ghost c0 = *core;
    let src = operator::ay_pi_32(core);
    let ghost mid = *core;
    assert(operator::ay_pi_32_rel(c0, mid, src));
    match src {
        Err(e) => Err(e),
        Ok(v) => {
            let reg = reg_dx(core.ir);
            let dst = core.dar[reg];
            let res = common::add_32(core, dst, v);
            set_reg(core, reg, merge(dst, res, 32));
            Ok(Cycles(14))
        },
    }
}

/// What `add_32_er_pd` does: the core goes from `c0` to `c1` and `r` comes back.
pub open spec fn add_32_er_pd_effect(c0: ConfiguredCore, c1: ConfiguredCore, r: Result<Cycles>) -> bool {
    &&& exists|mid: ConfiguredCore, src: Result<u32>|
            #[trigger] operator::ay_pd_32_rel(c0, mid, src) && match src {
                Err(e) => r == Err::<Cycles, Exception>(e) && c1 == mid,
                Ok(v) => {
                    let reg = ir_dx(mid.ir);
                    let o = common::add_32_outcome(mid, mid.dar[reg], v);
                    &&& r == Ok::<Cycles, Exception>(Cycles(16))
                    &&& reg_set(o.0, c1, reg, merged(mid.dar[reg], o.1, 32))
                },
            }
}

pub fn add_32_er_pd(core: &mut ConfiguredCore) -> (r: Result<Cycles>)
    requires
        old(core).wf(),
    ensures
        final(core).wf(),
        add_32_er_pd_effect(*old(core), *final(core), r),
{
    let ghost c0 = *core;
    let src = operator::ay_pd_32(core);
    let ghost mid = *core;
    assert(operator::ay_pd_32_rel(c0, mid, src));
    match src {
        Err(e) => Err(e),
        Ok(v) => {
            let reg = reg_dx(core.ir);
            let dst = core.dar[reg];
            let res = common::add_32(core, dst, v);
            set_reg(core, reg, merge(dst, res, 32));
            Ok(Cycles(16))
        },
    }
}

/// What `add_32_er_di` does: the core goes from `c0` to `c1` and `r` comes back.
pub open spec fn add_32_er_di_effect(c0: ConfiguredCore, c1: ConfiguredCore, r: Result<Cycles>) -> bool {
    &&& exists|mid: ConfiguredCore, src: Result<u32>|
            #[trigger] operator::ay_di_32_rel(c0, mid, src) && match src {
                Err(e) => r == Err::<Cycles, Exception>(e) && c1 == mid,
                Ok(v) => {
                    let reg = ir_dx(mid.ir);
                    let o = common::add_32_outcome(mid, mid.dar[reg], v);
                    &&& r == Ok::<Cycles, Exception>(Cycles(18))
                    &&& reg_set(o.0, c1, reg, merged(mid.dar[reg], o.1, 32))
                },
            }
}

pub fn add_32_er_di(core: &mut ConfiguredCore) -> (r: Result<Cycles>)
    requires
        old(core).wf(),
    ensures
        final(core).wf(),
        add_32_er_di_effect(*old(core), *final(core), r),
{
    let ghost c0 = *core;
    let src = operator::ay_di_32(core);
    let ghost mid = *core;
    assert(operator::ay_di_32_rel(c0, mid, src));
    match src {
        Err(e) => Err(e),
        Ok(v) => {
            let reg = reg_dx(core.ir);
            let dst = core.dar[reg];
            let res = common::add_32(core, dst, v);
            set_reg(core, reg, merge(dst, res, 32));
            Ok(Cycles(18))
        },
    }
}

/// What `add_32_er_ix` does: the core goes from `c0` to `c1` and `r` comes back.
pub open spec fn add_32_er_ix_effect(c0: ConfiguredCore, c1: ConfiguredCore, r: Result<Cycles>) -> bool {
    &&& exists|mid: ConfiguredCore, src: Result<u32>|
            #[trigger] operator::ay_ix_32_rel(c0, mid, src) && match src {
                Err(e) => r == Err::<Cycles, Exception>(e) && c1 == mid,
                Ok(v) => {
                    let reg = ir_dx(mid.ir);
                    let o = common::add_32_outcome(mid, mid.dar[reg], v);
                    &&& r == Ok::<Cycles, Exception>(Cycles(20))
                    &&& reg_set(o.0, c1, reg, merged(mid.dar[reg], o.1, 32))
                },
            }
}

pub fn add_32_er_ix(core: &mut ConfiguredCore) -> (r: Result<Cycles>)
    requires
        old(core).wf(),
    ensures
        final(core).wf(),
        add_32_er_ix_effect(*old(core), *final(core), r),
{
    let ghost c0 = *core;
    let src = operator::ay_ix_32(core);
    let ghost mid = *core;
    assert(operator::ay_ix_32_rel(c0, mid, src));
    match src {
        Err(e) => Err(e),
        Ok(v) => {
            let reg = reg_dx(core.ir);
            let dst = core.dar[reg];
            let res = common::add_32(core, dst, v);
            set_reg(core, reg, merge(dst, res, 32));
            Ok(Cycles(20))
        },
    }
}

/// What `add_32_er_aw` does: the core goes from `c0` to `c1` and `r` comes back.
pub open spec fn add_32_er_aw_effect(c0: ConfiguredCore, c1: ConfiguredCore, r: Result<Cycles>) -> bool {
    &&& exists|mid: ConfiguredCore, src: Result<u32>|
            #[trigger] operator::aw_32_rel(c0, mid, src) && match src {
                Err(e) => r == Err::<Cycles, Exception>(e) && c1 == mid,
                Ok(v) => {
                    let reg = ir_dx(mid.ir);
                    let o = common::add_32_outcome(mid, mid.dar[reg], v);
                    &&& r == Ok::<Cycles, Exception>(Cycles(18))
                    &&& reg_set(o.0, c1, reg, merged(mid.dar[reg], o.1, 32))
                },
            }
}

pub fn add_32_er_aw(core: &mut ConfiguredCore) -> (r: Result<Cycles>)
    requires
        old(core).wf(),
    ensures
        final(core).wf(),
        add_32_er_aw_effect(*old(core), *final(core), r),
{
    let ghost c0 = *core;
    let src = operator::aw_32(core);
    let ghost mid = *core;
    assert(operator::aw_32_rel(c0, mid, src));
    match src {
        Err(e) => Err(e),
        Ok(v) => {
            let reg = reg_dx(core.ir);
            let dst = core.dar[reg];
            let res = common::add_32(core, dst, v);
            set_reg(core, reg, merge(dst, res, 32));
            Ok(Cycles(18))
        },
    }
}

/// What `add_32_er_al` does: the core goes from `c0` to `c1` and `r` comes back.
pub open spec fn add_32_er_al_effect(c0: ConfiguredCore, c1: ConfiguredCore, r: Result<Cycles>) -> bool {
    &&& exists|mid: ConfiguredCore, src: Result<u32>|
            #[trigger] operator::al_32_rel(c0, mid, src) && match src {
                Err(e) => r == Err::<Cycles, Exception>(e) && c1 == mid,
                Ok(v) => {
                    let reg = ir_dx(mid.ir);
                    let o = common::add_32_outcome(mid, mid.dar[reg], v);
                    &&& r == Ok::<Cycles, Exception>(Cycles(22))
                    &&& reg_set(o.0, c1, reg, merged(mid.dar[reg], o.1, 32))
                },
            }
}

pub fn add_32_er_al(core: &mut ConfiguredCore) -> (r: Result<Cycles>)
    requires
        old(core).wf(),
    ensures
        final(core).wf(),
        add_32_er_al_effect(*old(core), *final(core), r),
{
    let ghost c0 = *core;
    let src = operator::al_32(core);
    let ghost mid = *core;
    assert(operator::al_32_rel(c0, mid, src));
    match src {
        Err(e) => Err(e),
        Ok(v) => {
            let reg = reg_dx(core.ir);
            let dst = core.dar[reg];
            let res = common::add_32(core, dst, v);
            set_reg(core, reg, merge(dst, res, 32));
            Ok(Cycles(22))
        },
    }
}

/// What `add_32_er_pcdi` does: the core goes from `c0` to `c1` and `r` comes back.
pub open spec fn add_32_er_pcdi_effect(c0: ConfiguredCore, c1: ConfiguredCore, r: Result<Cycles>) -> bool {
    &&& exists|mid: ConfiguredCore, src: Result<u32>|
            #[trigger] operator::pcdi_32_rel(c0, mid, src) && match src {
                Err(e) => r == Err::<Cycles, Exception>(e) && c1 == mid,
                Ok(v) => {
                    let reg = ir_dx(mid.ir);
                    let o = common::add_32_outcome(mid, mid.dar[reg], v);
                    &&& r == Ok::<Cycles, Exception>(Cycles(18))
                    &&& reg_set(o.0, c1, reg, merged(mid.dar[reg], o.1, 32))
                },
            }
}

pub fn add_32_er_pcdi(core: &mut ConfiguredCore) -> (r: Result<Cycles>)
    requires
        old(core).wf(),
    ensures
        final(core).wf(),
        add_32_er_pcdi_effect(*old(core), *final(core), r),
{
    let ghost c0 = *core;
    let src = operator::pcdi_32(core);
    let ghost mid = *core;
    assert(operator::pcdi_32_rel(c0, mid, src));
    match src {
        Err(e) => Err(e),
        Ok(v) => {
            let reg = reg_dx(core.ir);
            let dst = core.dar[reg];
            let res = common::add_32(core, dst, v);
            set_reg(core, reg, merge(dst, res, 32));
            Ok(Cycles(18))
        },
    }
}

/// What `add_32_er_pcix` does: the core goes from `c0` to `c1` and `r` comes back.
pub open spec fn add_32_er_pcix_effect(c0: ConfiguredCore, c1: ConfiguredCore, r: Result<Cycles>) -> bool {
    &&& exists|mid: ConfiguredCore, src: Result<u32>|
            #[trigger] operator::pcix_32_rel(c0, mid, src) && match src {
                Err(e) => r == Err::<Cycles, Exception>(e) && c1 == mid,
                Ok(v) => {
                    let reg = ir_dx(mid.ir);
                    let o = common::add_32_outcome(mid, mid.dar[reg], v);
                    &&& r == Ok::<Cycles, Exception>(Cycles(20))
                    &&& reg_set(o.0, c1, reg, merged(mid.dar[reg], o.1, 32))
                },
            }
}

pub fn add_32_er_pcix(core: &mut ConfiguredCore) -> (r: Result<Cycles>)
    requires
        old(core).wf(),
    ensures
        final(core).wf(),
        add_32_er_pcix_effect(*old(core), *final(core), r),
{
    let ghost c0 = *core;
    let src = operator::pcix_32(core);
    let ghost mid = *core;
    assert(operator::pcix_32_rel(c0, mid, src));
    match src {
        Err(e) => Err(e),
        Ok(v) => {
            let reg = reg_dx(core.ir);
            let dst = core.dar[reg];
            let res = common::add_32(core, dst, v);
            set_reg(core, reg, merge(dst, res, 32));
            Ok(Cycles(20))
        },
    }
}

/// What `add_32_er_imm` does: the core goes from `c0` to `c1` and `r` comes back.
pub open spec fn add_32_er_imm_effect(c0: ConfiguredCore, c1: ConfiguredCore, r: Result<Cycles>) -> bool {
    &&& exists|mid: ConfiguredCore, src: Result<u32>|
            #[trigger] operator::imm_32_rel(c0, mid, src) && match src {
                Err(e) => r == Err::<Cycles, Exception>(e) && c1 == mid,
                Ok(v) => {
                    let reg = ir_dx(mid.ir);
                    let o = common::add_32_outcome(mid, mid.dar[reg], v);
                    &&& r == Ok::<Cycles, Exception>(Cycles(16))
                    &&& reg_set(o.0, c1, reg, merged(mid.dar[reg], o.1, 32))
                },
            }
}

pub fn add_32_er_imm(core: &mut ConfiguredCore) -> (r: Result<Cycles>)
    requires
        old(core).wf(),
    ensures
        final(core).wf(),
        add_32_er_imm_effect(*old(core), *final(core), r),
{
    let ghost c0 = *core;
    let src = operator::imm_32(core);
    let ghost mid = *core;
    assert(operator::imm_32_rel(c0, mid, src));
    match src {
        Err(e) => Err(e),
        Ok(v) => {
            let reg = reg_dx(core.ir);
            let dst = core.dar[reg];
            let res = common::add_32(core, dst, v);
            set_reg(core, reg, merge(dst, res, 32));
            Ok(Cycles(16))
        },
    }
}

/// What `add_32_re_ai` does: the core goes from `c0` to `c1` and `r` comes back.
pub open spec fn add_32_re_ai_effect(c0: ConfiguredCore, c1: ConfiguredCore, r: Result<Cycles>) -> bool {
    &&& exists|m1: ConfiguredCore, src: Result<u32>|
            #[trigger] operator::dx_rel(c0, m1, src) && match src {
                Err(e) => r == Err::<Cycles, Exception>(e) && c1 == m1,
                Ok(v) => exists|m2: ConfiguredCore, d: Result<(u32, u32)>|
                    #[trigger] operator::ea_ay_ai_32_rel(m1, m2, d) && match d {
                        Err(e) => r == Err::<Cycles, Exception>(e) && c1 == m2,
                        Ok((dv, ea)) => {
                            let o = common::add_32_outcome(m2, dv, v);
                            stored(o.0, c1, 32, ea, merged(dv, o.1, 32), r, 20)
                        },
                    },
            }
}

pub fn add_32_re_ai(core: &mut ConfiguredCore) -> (r: Result<Cycles>)
    requires
        old(core).wf(),
    ensures
        final(core).wf(),
        add_32_re_ai_effect(*old(core), *final(core), r),
{
    let ghost c0 = *core;
    let src = operator::dx(core);
    let ghost m1 = *core;
    assert(operator::dx_rel(c0, m1, src));
    let v = match src {
        Err(e) => {
            return Err(e);
        },
        Ok(v) => v,
    };
    let d = operator::ea_ay_ai_32(core);
    let ghost m2 = *core;
    assert(operator::ea_ay_ai_32_rel(m1, m2, d));
    let (dv, ea) = match d {
        Err(e) => {
            return Err(e);
        },
        Ok(p) => p,
    };
    let res = common::add_32(core, dv, v);
    store(core, 32, ea, merge(dv, res, 32), 20)
}

/// What `add_32_re_pi` does: the core goes from `c0` to `c1` and `r` comes back.
pub open spec fn add_32_re_pi_effect(c0: ConfiguredCore, c1: ConfiguredCore, r: Result<Cycles>) -> bool {
    &&& exists|m1: ConfiguredCore, src: Result<u32>|
            #[trigger] operator::dx_rel(c0, m1, src) && match src {
                Err(e) => r == Err::<Cycles, Exception>(e) && c1 == m1,
                Ok(v) => exists|m2: ConfiguredCore, d: Result<(u32, u32)>|
                    #[trigger] operator::ea_ay_pi_32_rel(m1, m2, d) && match d {
                        Err(e) => r == Err::<Cycles, Exception>(e) && c1 == m2,
                        Ok((dv, ea)) => {
                            let o = common::add_32_outcome(m2, dv, v);
                            stored(o.0, c1, 32, ea, merged(dv, o.1, 32), r, 20)
                        },
                    },
            }
}

pub fn add_32_re_pi(core: &mut ConfiguredCore) -> (r: Result<Cycles>)
    requires
        old(core).wf(),
    ensures
        final(core).wf(),
        add_32_re_pi_effect(*old(core), *final(core), r),
{
    let ghost c0 = *core;
    let src = operator::dx(core);
    let ghost m1 = *core;
    assert(operator::dx_rel(c0, m1, src));
    let v = match src {
        Err(e) => {
            return Err(e);
        },
        Ok(v) => v,
    };
    let d = operator::ea_ay_pi_32(core);
    let ghost m2 = *core;
    assert(operator::ea_ay_pi_32_rel(m1, m2, d));
    let (dv, ea) = match d {
        Err(e) => {
            return Err(e);
        },
        Ok(p) => p,
    };
    let res = common::add_32(core, dv, v);
    store(core, 32, ea, merge(dv, res, 32), 20)
}

/// What `add_32_re_pd` does: the core goes from `c0` to `c1` and `r` comes back.
pub open spec fn add_32_re_pd_effect(c0: ConfiguredCore, c1: ConfiguredCore, r: Result<Cycles>) -> bool {
    &&& exists|m1: ConfiguredCore, src: Result<u32>|
            #[trigger] operator::dx_rel(c0, m1, src) && match src {
                Err(e) => r == Err::<Cycles, Exception>(e) && c1 == m1,
                Ok(v) => exists|m2: ConfiguredCore, d: Result<(u32, u32)>|
                    #[trigger] operator::ea_ay_pd_32_rel(m1, m2, d) && match d {
                        Err(e) => r == Err::<Cycles, Exception>(e) && c1 == m2,
                        Ok((dv, ea)) => {
                            let o = common::add_32_outcome(m2, dv, v);
                            stored(o.0, c1, 32, ea, merged(dv, o.1, 32), r, 22)
                        },
                    },
            }
}

pub fn add_32_re_pd(core: &mut ConfiguredCore) -> (r: Result<Cycles>)
    requires
        old(core).wf(),
    ensures
        final(core).wf(),
        add_32_re_pd_effect(*old(core), *final(core), r),
{
    let ghost c0 = *core;
    let src = operator::dx(core);
    let ghost m1 = *core;
    assert(operator::dx_rel(c0, m1, src));
    let v = match src {
        Err(e) => {
            return Err(e);
        },
        Ok(v) => v,
    };
    let d = operator::ea_ay_pd_32(core);
    let ghost m2 = *core;
    assert(operator::ea_ay_pd_32_rel(m1, m2, d));
    let (dv, ea) = match d {
        Err(e) => {
            return Err(e);
        },
        Ok(p) => p,
    };
    let res = common::add_32(core, dv, v);
    store(core, 32, ea, merge(dv, res, 32), 22)
}

/// What `add_32_re_di` does: the core goes from `c0` to `c1` and `r` comes back.
pub open spec fn add_32_re_di_effect(c0: ConfiguredCore, c1: ConfiguredCore, r: Result<Cycles>) -> bool {
    &&& exists|m1: ConfiguredCore, src: Result<u32>|
            #[trigger] operator::dx_rel(c0, m1, src) && match src {
                Err(e) => r == Err::<Cycles, Exception>(e) && c1 == m1,
                Ok(v) => exists|m2: ConfiguredCore, d: Result<(u32, u32)>|
                    #[trigger] operator::ea_ay_di_32_rel(m1, m2, d) && match d {
                        Err(e) => r == Err::<Cycles, Exception>(e) && c1 == m2,
                        Ok((dv, ea)) => {
                            let o = common::add_32_outcome(m2, dv, v);
                            stored(o.0, c1, 32, ea, merged(dv, o.1, 32), r, 24)
                        },
                    },
            }
}

pub fn add_32_re_di(core: &mut ConfiguredCore) -> (r: Result<Cycles>)
    requires
        old(core).wf(),
    ensures
        final(core).wf(),
        add_32_re_di_effect(*old(core), *final(core), r),
{
    let ghost c0 = *core;
    let src = operator::dx(core);
    let ghost m1 = *core;
    assert(operator::dx_rel(c0, m1, src));
    let v = match src {
        Err(e) => {
            return Err(e);
        },
        Ok(v) => v,
    };
    let d = operator::ea_ay_di_32(core);
    let ghost m2 = *core;
    assert(operator::ea_ay_di_32_rel(m1, m2, d));
    let (dv, ea) = match d {
        Err(e) => {
            return Err(e);
        },
        Ok(p) => p,
    };
    let res = common::add_32(core, dv, v);
    store(core, 32, ea, merge(dv, res, 32), 24)
}

/// What `add_32_re_ix` does: the core goes from `c0` to `c1` and `r` comes back.
pub open spec fn add_32_re_ix_effect(c0: ConfiguredCore, c1: ConfiguredCore, r: Result<Cycles>) -> bool {
    &&& exists|m1: ConfiguredCore, src: Result<u32>|
            #[trigger] operator::dx_rel(c0, m1, src) && match src {
                Err(e) => r == Err::<Cycles, Exception>(e) && c1 == m1,
                Ok(v) => exists|m2: ConfiguredCore, d: Result<(u32, u32)>|
                    #[trigger] operator::ea_ay_ix_32_rel(m1, m2, d) && match d {
                        Err(e) => r == Err::<Cycles, Exception>(e) && c1 == m2,
                        Ok((dv, ea)) => {
                            let o = common::add_32_outcome(m2, dv, v);
                            stored(o.0, c1, 32, ea, merged(dv, o.1, 32), r, 26)
                        },
                    },
            }
}

pub fn add_32_re_ix(core: &mut ConfiguredCore) -> (r: Result<Cycles>)
    requires
        old(core).wf(),
    ensures
        final(core).wf(),
        add_32_re_ix_effect(*old(core), *final(core), r),
{
    let ghost c0 = *core;
    let src = operator::dx(core);
    let ghost m1 = *core;
    assert(operator::dx_rel(c0, m1, src));
    let v = match src {
        Err(e) => {
            return Err(e);
        },
        Ok(v) => v,
    };
    let d = operator::ea_ay_ix_32(core);
    let ghost m2 = *core;
    assert(operator::ea_ay_ix_32_rel(m1, m2, d));
    let (dv, ea) = match d {
        Err(e) => {
            return Err(e);
        },
        Ok(p) => p,
    };
    let res = common::add_32(core, dv, v);
    store(core, 32, ea, merge(dv, res, 32), 26)
}

/// What `add_32_re_aw` does: the core goes from `c0` to `c1` and `r` comes back.
pub open spec fn add_32_re_aw_effect(c0: ConfiguredCore, c1: ConfiguredCore, r: Result<Cycles>) -> bool {
    &&& exists|m1: ConfiguredCore, src: Result<u32>|
            #[trigger] operator::dx_rel(c0, m1, src) && match src {
                Err(e) => r == Err::<Cycles, Exception>(e) && c1 == m1,
                Ok(v) => exists|m2: ConfiguredCore, d: Result<(u32, u32)>|
                    #[trigger] operator::ea_aw_32_rel(m1, m2, d) && match d {
                        Err(e) => r == Err::<Cycles, Exception>(e) && c1 == m2,
                        Ok((dv, ea)) => {
                            let o = common::add_32_outcome(m2, dv, v);
                            stored(o.0, c1, 32, ea, merged(dv, o.1, 32), r, 24)
                        },
                    },
            }
}

pub fn add_32_re_aw(core: &mut ConfiguredCore) -> (r: Result<Cycles>)
    requires
        old(core).wf(),
    ensures
        final(core).wf(),
        add_32_re_aw_effect(*old(core), *final(core), r),
{
    let ghost c0 = *core;
    let src = operator::dx(core);
    let ghost m1 = *core;
    assert(operator::dx_rel(c0, m1, src));
    let v = match src {
        Err(e) => {
            return Err(e);
        },
        Ok(v) => v,
    };
    let d = operator::ea_aw_32(core);
    let ghost m2 = *core;
    assert(operator::ea_aw_32_rel(m1, m2, d));
    let (dv, ea) = match d {
        Err(e) => {
            return Err(e);
        },
        Ok(p) => p,
    };
    let res = common::add_32(core, dv, v);
    store(core, 32, ea, merge(dv, res, 32), 24)
}

/// What `add_32_re_al` does: the core goes from `c0` to `c1` and `r` comes back.
pub open spec fn add_32_re_al_effect(c0: ConfiguredCore, c1: ConfiguredCore, r: Result<Cycles>) -> bool {
    &&& exists|m1: ConfiguredCore, src: Result<u32>|
            #[trigger] operator::dx_rel(c0, m1, src) && match src {
                Err(e) => r == Err::<Cycles, Exception>(e) && c1 == m1,
                Ok(v) => exists|m2: ConfiguredCore, d: Result<(u32, u32)>|
                    #[trigger] operator::ea_al_32_rel(m1, m2, d) && match d {
                        Err(e) => r == Err::<Cycles, Exception>(e) && c1 == m2,
                        Ok((dv, ea)) => {
                            let o = common::add_32_outcome(m2, dv, v);
                            stored(o.0, c1, 32, ea, merged(dv, o.1, 32), r, 28)
                        },
                    },
            }
}

pub fn add_32_re_al(core: &mut ConfiguredCore) -> (r: Result<Cycles>)
    requires
        old(core).wf(),
    ensures
        final(core).wf(),
        add_32_re_al_effect(*old(core), *final(core), r),
{
    let ghost c0 = *core;
    let src = operator::dx(core);
    let ghost m1 = *core;
    assert(operator::dx_rel(c0, m1, src));
    let v = match src {
        Err(e) => {
            return Err(e);
        },
        Ok(v) => v,
    };
    let d = operator::ea_al_32(core);
    let ghost m2 = *core;
    assert(operator::ea_al_32_rel(m1, m2, d));
    let (dv, ea) = match d {
        Err(e) => {
            return Err(e);
        },
        Ok(p) => p,
    };
    let res = common::add_32(core, dv, v);
    store(core, 32, ea, merge(dv, res, 32), 28)
}

/// What `addi_8_dn` does: the core goes from `c0` to `c1` and `r` comes back.
pub open spec fn addi_8_dn_effect(c0: ConfiguredCore, c1: ConfiguredCore, r: Result<Cycles>) -> bool {
    &&& exists|mid: ConfiguredCore, src: Result<u32>|
            #[trigger] operator::imm_8_rel(c0, mid, src) && match src {
                Err(e) => r == Err::<Cycles, Exception>(e) && c1 == mid,
                Ok(v) => {
                    let reg = ir_dy(mid.ir);
                    let o = common::add_8_outcome(mid, mid.dar[reg], v);
                    &&& r == Ok::<Cycles, Exception>(Cycles(8))
                    &&& reg_set(o.0, c1, reg, merged(mid.dar[reg], o.1, 8))
                },
            }
}

pub fn addi_8_dn(core: &mut ConfiguredCore) -> (r: Result<Cycles>)
    requires
        old(core).wf(),
    ensures
        final(core).wf(),
        addi_8_dn_effect(*old(core), *final(core), r),
{
    let ghost c0 = *core;
    let src = operator::imm_8(core);
    let ghost mid = *core;
    assert(operator::imm_8_rel(c0, mid, src));
    match src {
        Err(e) => Err(e),
        Ok(v) => {
            let reg = reg_dy(core.ir);
            let dst = core.dar[reg];
            let res = common::add_8(core, dst, v);
            set_reg(core, reg, merge(dst, res, 8));
            Ok(Cycles(8))
        },
    }
}

/// What `addi_8_ai` does: the core goes from `c0` to `c1` and `r` comes back.
pub open spec fn addi_8_ai_effect(c0: ConfiguredCore, c1: ConfiguredCore, r: Result<Cycles>) -> bool {
    &&& exists|m1: ConfiguredCore, src: Result<u32>|
            #[trigger] operator::imm_8_rel(c0, m1, src) && match src {
                Err(e) => r == Err::<Cycles, Exception>(e) && c1 == m1,
                Ok(v) => exists|m2: ConfiguredCore, d: Result<(u32, u32)>|
                    #[trigger] operator::ea_ay_ai_8_rel(m1, m2, d) && match d {
                        Err(e) => r == Err::<Cycles, Exception>(e) && c1 == m2,
                        Ok((dv, ea)) => {
                            let o = common::add_8_outcome(m2, dv, v);
                            stored(o.0, c1, 8, ea, merged(dv, o.1, 8), r, 16)
                        },
                    },
            }
}

pub fn addi_8_ai(core: &mut ConfiguredCore) -> (r: Result<Cycles>)
    requires
        old(core).wf(),
    ensures
        final(core).wf(),
        addi_8_ai_effect(*old(core), *final(core), r),
{
    let ghost c0 = *core;
    let src = operator::imm_8(core);
    let ghost m1 = *core;
    assert(operator::imm_8_rel(c0, m1, src));
    let v = match src {
        Err(e) => {
            return Err(e);
        },
        Ok(v) => v,
    };
    let d = operator::ea_ay_ai_8(core);
    let ghost m2 = *core;
    assert(operator::ea_ay_ai_8_rel(m1, m2, d));
    let (dv, ea) = match d {
        Err(e) => {
            return Err(e);
        },
        Ok(p) => p,
    };
    let res = common::add_8(core, dv, v);
    store(core, 8, ea, merge(dv, res, 8), 16)
}

/// What `addi_8_pi` does: the core goes from `c0` to `c1` and `r` comes back.
pub open spec fn addi_8_pi_effect(c0: ConfiguredCore, c1: ConfiguredCore, r: Result<Cycles>) -> bool {
    &&& exists|m1: ConfiguredCore, src: Result<u32>|
            #[trigger] operator::imm_8_rel(c0, m1, src) && match src {
                Err(e) => r == Err::<Cycles, Exception>(e) && c1 == m1,
                Ok(v) => exists|m2: ConfiguredCore, d: Result<(u32, u32)>|
                    #[trigger] operator::ea_ay_pi_8_rel(m1, m2, d) && match d {
                        Err(e) => r == Err::<Cycles, Exception>(e) && c1 == m2,
                        Ok((dv, ea)) => {
                            let o = common::add_8_outcome(m2, dv, v);
                            stored(o.0, c1, 8, ea, merged(dv, o.1, 8), r, 16)
                        },
                    },
            }
}

pub fn addi_8_pi(core: &mut ConfiguredCore) -> (r: Result<Cycles>)
    requires
        old(core).wf(),
    ensures
        final(core).wf(),
        addi_8_pi_effect(*old(core), *final(core), r),
{
    let ghost c0 = *core;
    let src = operator::imm_8(core);
    let ghost m1 = *core;
    assert(operator::imm_8_rel(c0, m1, src));
    let v = match src {
        Err(e) => {
            return Err(e);
        },
        Ok(v) => v,
    };
    let d = operator::ea_ay_pi_8(core);
    let ghost m2 = *core;
    assert(operator::ea_ay_pi_8_rel(m1, m2, d));
    let (dv, ea) = match d {
        Err(e) => {
            return Err(e);
        },
        Ok(p) => p,
    };
    let res = common::add_8(core, dv, v);
    store(core, 8, ea, merge(dv, res, 8), 16)
}

/// What `addi_8_pd` does: the core goes from `c0` to `c1` and `r` comes back.
pub open spec fn addi_8_pd_effect(c0: ConfiguredCore, c1: ConfiguredCore, r: Result<Cycles>) -> bool {
    &&& exists|m1: ConfiguredCore, src: Result<u32>|
            #[trigger] operator::imm_8_rel(c0, m1, src) && match src {
                Err(e) => r == Err::<Cycles, Exception>(e) && c1 == m1,
                Ok(v) => exists|m2: ConfiguredCore, d: Result<(u32, u32)>|
                    #[trigger] operator::ea_ay_pd_8_rel(m1, m2, d) && match d {
                        Err(e) => r == Err::<Cycles, Exception>(e) && c1 == m2,
                        Ok((dv, ea)) => {
                            let o = common::add_8_outcome(m2, dv, v);
                            stored(o.0, c1, 8, ea, merged(dv, o.1, 8), r, 18)
                        },
                    },
            }
}

pub fn addi_8_pd(core: &mut ConfiguredCore) -> (r: Result<Cycles>)
    requires
        old(core).wf(),
    ensures
        final(core).wf(),
        addi_8_pd_effect(*old(core), *final(core), r),
{
    let ghost c0 = *core;
    let src = operator::imm_8(core);
    let ghost m1 = *core;
    assert(operator::imm_8_rel(c0, m1, src));
    let v = match src {
        Err(e) => {
            return Err(e);
        },
        Ok(v) => v,
    };
    let d = operator::ea_ay_pd_8(core);
    let ghost m2 = *core;
    assert(operator::ea_ay_pd_8_rel(m1, m2, d));
    let (dv, ea) = match d {
        Err(e) => {
            return Err(e);
        },
        Ok(p) => p,
    };
    let res = common::add_8(core, dv, v);
    store(core, 8, ea, merge(dv, res, 8), 18)
}

/// What `addi_8_di` does: the core goes from `c0` to `c1` and `r` comes back.
pub open spec fn addi_8_di_effect(c0: ConfiguredCore, c1: ConfiguredCore, r: Result<Cycles>) -> bool {
    &&& exists|m1: ConfiguredCore, src: Result<u32>|
            #[trigger] operator::imm_8_rel(c0, m1, src) && match src {
                Err(e) => r == Err::<Cycles, Exception>(e) && c1 == m1,
                Ok(v) => exists|m2: ConfiguredCore, d: Result<(u32, u32)>|
                    #[trigger] operator::ea_ay_di_8_rel(m1, m2, d) && match d {
                        Err(e) => r == Err::<Cycles, Exception>(e) && c1 == m2,
                        Ok((dv, ea)) => {
                            let o = common::add_8_outcome(m2, dv, v);
                            stored(o.0, c1, 8, ea, merged(dv, o.1, 8), r, 20)
                        },
                    },
            }
}

pub fn addi_8_di(core: &mut ConfiguredCore) -> (r: Result<Cycles>)
    requires
        old(core).wf(),
    ensures
        final(core).wf(),
        addi_8_di_effect(*old(core), *final(core), r),
{
    let ghost c0 = *core;
    let src = operator::imm_8(core);
    let ghost m1 = *core;
    assert(operator::imm_8_rel(c0, m1, src));
    let v = match src {
        Err(e) => {
            return Err(e);
        },
        Ok(v) => v,
    };
    let d = operator::ea_ay_di_8(core);
    let ghost m2 = *core;
    assert(operator::ea_ay_di_8_rel(m1, m2, d));
    let (dv, ea) = match d {
        Err(e) => {
            return Err(e);
        },
        Ok(p) => p,
    };
    let res = common::add_8(core, dv, v);
    store(core, 8, ea, merge(dv, res, 8), 20)
}

/// What `addi_8_ix` does: the core goes from `c0` to `c1` and `r` comes back.
pub open spec fn addi_8_ix_effect(c0: ConfiguredCore, c1: ConfiguredCore, r: Result<Cycles>) -> bool {
    &&& exists|m1: ConfiguredCore, src: Result<u32>|
            #[trigger] operator::imm_8_rel(c0, m1, src) && match src {
                Err(e) => r == Err::<Cycles, Exception>(e) && c1 == m1,
                Ok(v) => exists|m2: ConfiguredCore, d: Result<(u32, u32)>|
                    #[trigger] operator::ea_ay_ix_8_rel(m1, m2, d) && match d {
                        Err(e) => r == Err::<Cycles, Exception>(e) && c1 == m2,
                        Ok((dv, ea)) => {
                            let o = common::add_8_outcome(m2, dv, v);
                            stored(o.0, c1, 8, ea, merged(dv, o.1, 8), r, 22)
                        },
                    },
            }
}

pub fn addi_8_ix(core: &mut ConfiguredCore) -> (r: Result<Cycles>)
    requires
        old(core).wf(),
    ensures
        final(core).wf(),
        addi_8_ix_effect(*old(core), *final(core), r),
{
    let ghost c0 = *core;
    let src = operator::imm_8(core);
    let ghost m1 = *core;
    assert(operator::imm_8_rel(c0, m1, src));
    let v = match src {
        Err(e) => {
            return Err(e);
        },
        Ok(v) => v,
    };
    let d = operator::ea_ay_ix_8(core);
    let ghost m2 = *core;
    assert(operator::ea_ay_ix_8_rel(m1, m2, d));
    let (dv, ea) = match d {
        Err(e) => {
            return Err(e);
        },
        Ok(p) => p,
    };
    let res = common::add_8(core, dv, v);
    store(core, 8, ea, merge(dv, res, 8), 22)
}

/// What `addi_8_aw` does: the core goes from `c0` to `c1` and `r` comes back.
pub open spec fn addi_8_aw_effect(c0: ConfiguredCore, c1: ConfiguredCore, r: Result<Cycles>) -> bool {
    &&& exists|m1: ConfiguredCore, src: Result<u32>|
            #[trigger] operator::imm_8_rel(c0, m1, src) && match src {
                Err(e) => r == Err::<Cycles, Exception>(e) && c1 == m1,
                Ok(v) => exists|m2: ConfiguredCore, d: Result<(u32, u32)>|
                    #[trigger] operator::ea_aw_8_rel(m1, m2, d) && match d {
                        Err(e) => r == Err::<Cycles, Exception>(e) && c1 == m2,
                        Ok((dv, ea)) => {
                            let o = common::add_8_outcome(m2, dv, v);
                            stored(o.0, c1, 8, ea, merged(dv, o.1, 8), r, 20)
                        },
                    },
            }
}

pub fn addi_8_aw(core: &mut ConfiguredCore) -> (r: Result<Cycles>)
    requires
        old(core).wf(),
    ensures
        final(core).wf(),
        addi_8_aw_effect(*old(core), *final(core), r),
{
    let ghost c0 = *core;
    let src = operator::imm_8(core);
    let ghost m1 = *core;
    assert(operator::imm_8_rel(c0, m1, src));
    let v = match src {
        Err(e) => {
            return Err(e);
        },
        Ok(v) => v,
    };
    let d = operator::ea_aw_8(core);
    let ghost m2 = *core;
    assert(operator::ea_aw_8_rel(m1, m2, d));
    let (dv, ea) = match d {
        Err(e) => {
            return Err(e);
        },
        Ok(p) => p,
    };
    let res = common::add_8(core, dv, v);
    store(core, 8, ea, merge(dv, res, 8), 20)
}

/// What `addi_8_al` does: the core goes from `c0` to `c1` and `r` comes back.
pub open spec fn addi_8_al_effect(c0: ConfiguredCore, c1: ConfiguredCore, r: Result<Cycles>) -> bool {
    &&& exists|m1: ConfiguredCore, src: Result<u32>|
            #[trigger] operator::imm_8_rel(c0, m1, src) && match src {
                Err(e) => r == Err::<Cycles, Exception>(e) && c1 == m1,
                Ok(v) => exists|m2: ConfiguredCore, d: Result<(u32, u32)>|
                    #[trigger] operator::ea_al_8_rel(m1, m2, d) && match d {
                        Err(e) => r == Err::<Cycles, Exception>(e) && c1 == m2,
                        Ok((dv, ea)) => {
                            let o = common::add_8_outcome(m2, dv, v);
                            stored(o.0, c1, 8, ea, merged(dv, o.1, 8), r, 24)
                        },
                    },
            }
}

pub fn addi_8_al(core: &mut ConfiguredCore) -> (r: Result<Cycles>)
    requires
        old(core).wf(),
    ensures
        final(core).wf(),
        addi_8_al_effect(*old(core), *final(core), r),
{
    let ghost c0 = *core;
    let src = operator::imm_8(core);
    let ghost m1 = *core;
    assert(operator::imm_8_rel(c0, m1, src));
    let v = match src {
        Err(e) => {
            return Err(e);
        },
        Ok(v) => v,
    };
    let d = operator::ea_al_8(core);
    let ghost m2 = *core;
    assert(operator::ea_al_8_rel(m1, m2, d));
    let (dv, ea) = match d {
        Err(e) => {
            return Err(e);
        },
        Ok(p) => p,
    };
    let res = common::add_8(core, dv, v);
    store(core, 8, ea, merge(dv, res, 8), 24)
}

/// What `addi_16_dn` does: the core goes from `c0` to `c1` and `r` comes back.
pub open spec fn addi_16_dn_effect(c0: ConfiguredCore, c1: ConfiguredCore, r: Result<Cycles>) -> bool {
    &&& exists|mid: ConfiguredCore, src: Result<u32>|
            #[trigger] operator::imm_16_rel(c0, mid, src) && match src {
                Err(e) => r == Err::<Cycles, Exception>(e) && c1 == mid,
                Ok(v) => {
                    let reg = ir_dy(mid.ir);
                    let o = common::add_16_outcome(mid, mid.dar[reg], v);
                    &&& r == Ok::<Cycles, Exception>(Cycles(8))
                    &&& reg_set(o.0, c1, reg, merged(mid.dar[reg], o.1, 16))
                },
            }
}

pub fn addi_16_dn(core: &mut ConfiguredCore) -> (r: Result<Cycles>)
    requires
        old(core).wf(),
    ensures
        final(core).wf(),
        addi_16_dn_effect(*old(core), *final(core), r),
{
    let ghost c0 = *core;
    let src = operator::imm_16(core);
    let ghost mid = *core;
    assert(operator::imm_16_rel(c0, mid, src));
    match src {
        Err(e) => Err(e),
        Ok(v) => {
            let reg = reg_dy(core.ir);
            let dst = core.dar[reg];
            let res = common::add_16(core, dst, v);
            set_reg(core, reg, merge(dst, res, 16));
            Ok(Cycles(8))
        },
    }
}

/// What `addi_16_ai` does: the core goes from `c0` to `c1` and `r` comes back.
pub open spec fn addi_16_ai_effect(c0: ConfiguredCore, c1: ConfiguredCore, r: Result<Cycles>) -> bool {
    &&& exists|m1: ConfiguredCore, src: Result<u32>|
            #[trigger] operator::imm_16_rel(c0, m1, src) && match src {
                Err(e) => r == Err::<Cycles, Exception>(e) && c1 == m1,
                Ok(v) => exists|m2: ConfiguredCore, d: Result<(u32, u32)>|
                    #[trigger] operator::ea_ay_ai_16_rel(m1, m2, d) && match d {
                        Err(e) => r == Err::<Cycles, Exception>(e) && c1 == m2,
                        Ok((dv, ea)) => {
                            let o = common::add_16_outcome(m2, dv, v);
                            stored(o.0, c1, 16, ea, merged(dv, o.1, 16), r, 16)
                        },
                    },
            }
}

pub fn addi_16_ai(core: &mut ConfiguredCore) -> (r: Result<Cycles>)
    requires
        old(core).wf(),
    ensures
        final(core).wf(),
        addi_16_ai_effect(*old(core), *final(core), r),
{
    let ghost c0 = *core;
    let src = operator::imm_16(core);
    let ghost m1 = *core;
    assert(operator::imm_16_rel(c0, m1, src));
    let v = match src {
        Err(e) => {
            return Err(e);
        },
        Ok(v) => v,
    };
    let d = operator::ea_ay_ai_16(core);
    let ghost m2 = *core;
    assert(operator::ea_ay_ai_16_rel(m1, m2, d));
    let (dv, ea) = match d {
        Err(e) => {
            return Err(e);
        },
        Ok(p) => p,
    };
    let res = common::add_16(core, dv, v);
    store(core, 16, ea, merge(dv, res, 16), 16)
}

/// What `addi_16_pi` does: the core goes from `c0` to `c1` and `r` comes back.
pub open spec fn addi_16_pi_effect(c0: ConfiguredCore, c1: ConfiguredCore, r: Result<Cycles>) -> bool {
    &&& exists|m1: ConfiguredCore, src: Result<u32>|
            #[trigger] operator::imm_16_rel(c0, m1, src) && match src {
                Err(e) => r == Err::<Cycles, Exception>(e) && c1 == m1,
                Ok(v) => exists|m2: ConfiguredCore, d: Result<(u32, u32)>|
                    #[trigger] operator::ea_ay_pi_16_rel(m1, m2, d) && match d {
                        Err(e) => r == Err::<Cycles, Exception>(e) && c1 == m2,
                        Ok((dv, ea)) => {
                            let o = common::add_16_outcome(m2, dv, v);
                            stored(o.0, c1, 16, ea, merged(dv, o.1, 16), r, 16)
                        },
                    },
            }
}

pub fn addi_16_pi(core: &mut ConfiguredCore) -> (r: Result<Cycles>)
    requires
        old(core).wf(),
    ensures
        final(core).wf(),
        addi_16_pi_effect(*old(core), *final(core), r),
{
    let ghost c0 = *core;
    let src = operator::imm_16(core);
    let ghost m1 = *core;
    assert(operator::imm_16_rel(c0, m1, src));
    let v = match src {
        Err(e) => {
            return Err(e);
        },
        Ok(v) => v,
    };
    let d = operator::ea_ay_pi_16(core);
    let ghost m2 = *core;
    assert(operator::ea_ay_pi_16_rel(m1, m2, d));
    let (dv, ea) = match d {
        Err(e) => {
            return Err(e);
        },
        Ok(p) => p,
    };
    let res = common::add_16(core, dv, v);
    store(core, 16, ea, merge(dv, res, 16), 16)
}

/// What `addi_16_pd` does: the core goes from `c0` to `c1` and `r` comes back.
pub open spec fn addi_16_pd_effect(c0: ConfiguredCore, c1: ConfiguredCore, r: Result<Cycles>) -> bool {
    &&& exists|m1: ConfiguredCore, src: Result<u32>|
            #[trigger] operator::imm_16_rel(c0, m1, src) && match src {
                Err(e) => r == Err::<Cycles, Exception>(e) && c1 == m1,
                Ok(v) => exists|m2: ConfiguredCore, d: Result<(u32, u32)>|
                    #[trigger] operator::ea_ay_pd_16_rel(m1, m2, d) && match d {
                        Err(e) => r == Err::<Cycles, Exception>(e) && c1 == m2,
                        Ok((dv, ea)) => {
                            let o = common::add_16_outcome(m2, dv, v);
                            stored(o.0, c1, 16, ea, merged(dv, o.1, 16), r, 18)
                        },
                    },
            }
}

pub fn addi_16_pd(core: &mut ConfiguredCore) -> (r: Result<Cycles>)
    requires
        old(core).wf(),
    ensures
        final(core).wf(),
        addi_16_pd_effect(*old(core), *final(core), r),
{
    let ghost c0 = *core;
    let src = operator::imm_16(core);
    let ghost m1 = *core;
    assert(operator::imm_16_rel(c0, m1, src));
    let v = match src {
        Err(e) => {
            return Err(e);
        },
        Ok(v) => v,
    };
    let d = operator::ea_ay_pd_16(core);
    let ghost m2 = *core;
    assert(operator::ea_ay_pd_16_rel(m1, m2, d));
    let (dv, ea) = match d {
        Err(e) => {
            return Err(e);
        },
        Ok(p) => p,
    };
    let res = common::add_16(core, dv, v);
    store(core, 16, ea, merge(dv, res, 16), 18)
}

/// What `addi_16_di` does: the core goes from `c0` to `c1` and `r` comes back.
pub open spec fn addi_16_di_effect(c0: ConfiguredCore, c1: ConfiguredCore, r: Result<Cycles>) -> bool {
    &&& exists|m1: ConfiguredCore, src: Result<u32>|
            #[trigger] operator::imm_16_rel(c0, m1, src) && match src {
                Err(e) => r == Err::<Cycles, Exception>(e) && c1 == m1,
                Ok(v) => exists|m2: ConfiguredCore, d: Result<(u32, u32)>|
                    #[trigger] operator::ea_ay_di_16_rel(m1, m2, d) && match d {
                        Err(e) => r == Err::<Cycles, Exception>(e) && c1 == m2,
                        Ok((dv, ea)) => {
                            let o = common::add_16_outcome(m2, dv, v);
                            stored(o.0, c1, 16, ea, merged(dv, o.1, 16), r, 20)
                        },
                    },
            }
}

pub fn addi_16_di(core: &mut ConfiguredCore) -> (r: Result<Cycles>)
    requires
        old(core).wf(),
    ensures
        final(core).wf(),
        addi_16_di_effect(*old(core), *final(core), r),
{
    let ghost c0 = *core;
    let src = operator::imm_16(core);
    let ghost m1 = *core;
    assert(operator::imm_16_rel(c0, m1, src));
    let v = match src {
        Err(e) => {
            return Err(e);
        },
        Ok(v) => v,
    };
    let d = operator::ea_ay_di_16(core);
    let ghost m2 = *core;
    assert(operator::ea_ay_di_16_rel(m1, m2, d));
    let (dv, ea) = match d {
        Err(e) => {
            return Err(e);
        },
        Ok(p) => p,
    };
    let res = common::add_16(core, dv, v);
    store(core, 16, ea, merge(dv, res, 16), 20)
}

/// What `addi_16_ix` does: the core goes from `c0` to `c1` and `r` comes back.
pub open spec fn addi_16_ix_effect(c0: ConfiguredCore, c1: ConfiguredCore, r: Result<Cycles>) -> bool {
    &&& exists|m1: ConfiguredCore, src: Result<u32>|
            #[trigger] operator::imm_16_rel(c0, m1, src) && match src {
                Err(e) => r == Err::<Cycles, Exception>(e) && c1 == m1,
                Ok(v) => exists|m2: ConfiguredCore, d: Result<(u32, u32)>|
                    #[trigger] operator::ea_ay_ix_16_rel(m1, m2, d) && match d {
                        Err(e) => r == Err::<Cycles, Exception>(e) && c1 == m2,
                        Ok((dv, ea)) => {
                            let o = common::add_16_outcome(m2, dv, v);
                            stored(o.0, c1, 16, ea, merged(dv, o.1, 16), r, 22)
                        },
                    },
            }
}

pub fn addi_16_ix(core: &mut ConfiguredCore) -> (r: Result<Cycles>)
    requires
        old(core).wf(),
    ensures
        final(core).wf(),
        addi_16_ix_effect(*old(core), *final(core), r),
{
    let ghost c0 = *core;
    let src = operator::imm_16(core);
    let ghost m1 = *core;
    assert(operator::imm_16_rel(c0, m1, src));
    let v = match src {
        Err(e) => {
            return Err(e);
        },
        Ok(v) => v,
    };
    let d = operator::ea_ay_ix_16(core);
    let ghost m2 = *core;
    assert(operator::ea_ay_ix_16_rel(m1, m2, d));
    let (dv, ea) = match d {
        Err(e) => {
            return Err(e);
        },
        Ok(p) => p,
    };
    let res = common::add_16(core, dv, v);
    store(core, 16, ea, merge(dv, res, 16), 22)
}

/// What `addi_16_aw` does: the core goes from `c0` to `c1` and `r` comes back.
pub open spec fn addi_16_aw_effect(c0: ConfiguredCore, c1: ConfiguredCore, r: Result<Cycles>) -> bool {
    &&& exists|m1: ConfiguredCore, src: Result<u32>|
            #[trigger] operator::imm_16_rel(c0, m1, src) && match src {
                Err(e) => r == Err::<Cycles, Exception>(e) && c1 == m1,
                Ok(v) => exists|m2: ConfiguredCore, d: Result<(u32, u32)>|
                    #[trigger] operator::ea_aw_16_rel(m1, m2, d) && match d {
                        Err(e) => r == Err::<Cycles, Exception>(e) && c1 == m2,
                        Ok((dv, ea)) => {
                            let o = common::add_16_outcome(m2, dv, v);
                            stored(o.0, c1, 16, ea, merged(dv, o.1, 16), r, 20)
                        },
                    },
            }
}

pub fn addi_16_aw(core: &mut ConfiguredCore) -> (r: Result<Cycles>)
    requires
        old(core).wf(),
    ensures
        final(core).wf(),
        addi_16_aw_effect(*old(core), *final(core), r),
{
    let ghost c0 = *core;
    let src = operator::imm_16(core);
    let ghost m1 = *core;
    assert(operator::imm_16_rel(c0, m1, src));
    let v = match src {
        Err(e) => {
            return Err(e);
        },
        Ok(v) => v,
    };
    let d = operator::ea_aw_16(core);
    let ghost m2 = *core;
    assert(operator::ea_aw_16_rel(m1, m2, d));
    let (dv, ea) = match d {
        Err(e) => {
            return Err(e);
        },
        Ok(p) => p,
    };
    let res = common::add_16(core, dv, v);
    store(core, 16, ea, merge(dv, res, 16), 20)
}

/// What `addi_16_al` does: the core goes from `c0` to `c1` and `r` comes back.
pub open spec fn addi_16_al_effect(c0: ConfiguredCore, c1: ConfiguredCore, r: Result<Cycles>) -> bool {
    &&& exists|m1: ConfiguredCore, src: Result<u32>|
            #[trigger] operator::imm_16_rel(c0, m1, src) && match src {
                Err(e) => r == Err::<Cycles, Exception>(e) && c1 == m1,
                Ok(v) => exists|m2: ConfiguredCore, d: Result<(u32, u32)>|
                    #[trigger] operator::ea_al_16_rel(m1, m2, d) && match d {
                        Err(e) => r == Err::<Cycles, Exception>(e) && c1 == m2,
                        Ok((dv, ea)) => {
                            let o = common::add_16_outcome(m2, dv, v);
                            stored(o.0, c1, 16, ea, merged(dv, o.1, 16), r, 24)
                        },
                    },
            }
}

pub fn addi_16_al(core: &mut ConfiguredCore) -> (r: Result<Cycles>)
    requires
        old(core).wf(),
    ensures
        final(core).wf(),
        addi_16_al_effect(*old(core), *final(core), r),
{
    let ghost c0 = *core;
    let src = operator::imm_16(core);
    let ghost m1 = *core;
    assert(operator::imm_16_rel(c0, m1, src));
    let v = match src {
        Err(e) => {
            return Err(e);
        },
        Ok(v) => v,
    };
    let d = operator::ea_al_16(core);
    let ghost m2 = *core;
    assert(operator::ea_al_16_rel(m1, m2, d));
    let (dv, ea) = match d {
        Err(e) => {
            return Err(e);
        },
        Ok(p) => p,
    };
    let res = common::add_16(core, dv, v);
    store(core, 16, ea, merge(dv, res, 16), 24)
}

/// What `addi_32_dn` does: the core goes from `c0` to `c1` and `r` comes back.
pub open spec fn addi_32_dn_effect(c0: ConfiguredCore, c1: ConfiguredCore, r: Result<Cycles>) -> bool {
    &&& exists|mid: ConfiguredCore, src: Result<u32>|
            #[trigger] operator::imm_32_rel(c0, mid, src) && match src {
                Err(e) => r == Err::<Cycles, Exception>(e) && c1 == mid,
                Ok(v) => {
                    let reg = ir_dy(mid.ir);
                    let o = common::add_32_outcome(mid, mid.dar[reg], v);
                    &&& r == Ok::<Cycles, Exception>(Cycles(16))
                    &&& reg_set(o.0, c1, reg, merged(mid.dar[reg], o.1, 32))
                },
            }
}

pub fn addi_32_dn(core: &mut ConfiguredCore) -> (r: Result<Cycles>)
    requires
        old(core).wf(),
    ensures
        final(core).wf(),
        addi_32_dn_effect(*old(core), *final(core), r),
{
    let ghost c0 = *core;
    let src = operator::imm_32(core);
    let ghost mid = *core;
    assert(operator::imm_32_rel(c0, mid, src));
    match src {
        Err(e) => Err(e),
        Ok(v) => {
            let reg = reg_dy(core.ir);
            let dst = core.dar[reg];
            let res = common::add_32(core, dst, v);
            set_reg(core, reg, merge(dst, res, 32));
            Ok(Cycles(16))
        },
    }
}

/// What `addi_32_ai` does: the core goes from `c0` to `c1` and `r` comes back.
pub open spec fn addi_32_ai_effect(c0: ConfiguredCore, c1: ConfiguredCore, r: Result<Cycles>) -> bool {
    &&& exists|m1: ConfiguredCore, src: Result<u32>|
            #[trigger] operator::imm_32_rel(c0, m1, src) && match src {
                Err(e) => r == Err::<Cycles, Exception>(e) && c1 == m1,
                Ok(v) => exists|m2: ConfiguredCore, d: Result<(u32, u32)>|
                    #[trigger] operator::ea_ay_ai_32_rel(m1, m2, d) && match d {
                        Err(e) => r == Err::<Cycles, Exception>(e) && c1 == m2,
                        Ok((dv, ea)) => {
                            let o = common::add_32_outcome(m2, dv, v);
                            stored(o.0, c1, 32, ea, merged(dv, o.1, 32), r, 28)
                        },
                    },
            }
}

pub fn addi_32_ai(core: &mut ConfiguredCore) -> (r: Result<Cycles>)
    requires
        old(core).wf(),
    ensures
        final(core).wf(),
        addi_32_ai_effect(*old(core), *final(core), r),
{
    let ghost c0 = *core;
    let src = operator::imm_32(core);
    let ghost m1 = *core;
    assert(operator::imm_32_rel(c0, m1, src));
    let v = match src {
        Err(e) => {
            return Err(e);
        },
        Ok(v) => v,
    };
    let d = operator::ea_ay_ai_32(core);
    let ghost m2 = *core;
    assert(operator::ea_ay_ai_32_rel(m1, m2, d));
    let (dv, ea) = match d {
        Err(e) => {
            return Err(e);
        },
        Ok(p) => p,
    };
    let res = common::add_32(core, dv, v);
    store(core, 32, ea, merge(dv, res, 32), 28)
}

/// What `addi_32_pi` does: the core goes from `c0` to `c1` and `r` comes back.
pub open spec fn addi_32_pi_effect(c0: ConfiguredCore, c1: ConfiguredCore, r: Result<Cycles>) -> bool {
    &&& exists|m1: ConfiguredCore, src: Result<u32>|
            #[trigger] operator::imm_32_rel(c0, m1, src) && match src {
                Err(e) => r == Err::<Cycles, Exception>(e) && c1 == m1,
                Ok(v) => exists|m2: ConfiguredCore, d: Result<(u32, u32)>|
                    #[trigger] operator::ea_ay_pi_32_rel(m1, m2, d) && match d {
                        Err(e) => r == Err::<Cycles, Exception>(e) && c1 == m2,
                        Ok((dv, ea)) => {
                            let o = common::add_32_outcome(m2, dv, v);
                            stored(o.0, c1, 32, ea, merged(dv, o.1, 32), r, 28)
                        },
                    },
            }
}

pub fn addi_32_pi(core: &mut ConfiguredCore) -> (r: Result<Cycles>)
    requires
        old(core).wf(),
    ensures
        final(core).wf(),
        addi_32_pi_effect(*old(core), *final(core), r),
{
    let ghost c0 = *core;
    let src = operator::imm_32(core);
    let ghost m1 = *core;
    assert(operator::imm_32_rel(c0, m1, src));
    let v = match src {
        Err(e) => {
            return Err(e);
        },
        Ok(v) => v,
    };
    let d = operator::ea_ay_pi_32(core);
    let ghost m2 = *core;
    assert(operator::ea_ay_pi_32_rel(m1, m2, d));
    let (dv, ea) = match d {
        Err(e) => {
            return Err(e);
        },
        Ok(p) => p,
    };
    let res = common::add_32(core, dv, v);
    store(core, 32, ea, merge(dv, res, 32), 28)
}

/// What `addi_32_pd` does: the core goes from `c0` to `c1` and `r` comes back.
pub open spec fn addi_32_pd_effect(c0: ConfiguredCore, c1: ConfiguredCore, r: Result<Cycles>) -> bool {
    &&& exists|m1: ConfiguredCore, src: Result<u32>|
            #[trigger] operator::imm_32_rel(c0, m1, src) && match src {
                Err(e) => r == Err::<Cycles, Exception>(e) && c1 == m1,
                Ok(v) => exists|m2: ConfiguredCore, d: Result<(u32, u32)>|
                    #[trigger] operator::ea_ay_pd_32_rel(m1, m2, d) && match d {
                        Err(e) => r == Err::<Cycles, Exception>(e) && c1 == m2,
                        Ok((dv, ea)) => {
                            let o = common::add_32_outcome(m2, dv, v);
                            stored(o.0, c1, 32, ea, merged(dv, o.1, 32), r, 30)
                        },
                    },
            }
}

pub fn addi_32_pd(core: &mut ConfiguredCore) -> (r: Result<Cycles>)
    requires
        old(core).wf(),
    ensures
        final(core).wf(),
        addi_32_pd_effect(*old(core), *final(core), r),
{
    let ghost c0 = *core;
    let src = operator::imm_32(core);
    let ghost m1 = *core;
    assert(operator::imm_32_rel(c0, m1, src));
    let v = match src {
        Err(e) => {
            return Err(e);
        },
        Ok(v) => v,
    };
    let d = operator::ea_ay_pd_32(core);
    let ghost m2 = *core;
    assert(operator::ea_ay_pd_32_rel(m1, m2, d));
    let (dv, ea) = match d {
        Err(e) => {
            return Err(e);
        },
        Ok(p) => p,
    };
    let res = common::add_32(core, dv, v);
    store(core, 32, ea, merge(dv, res, 32), 30)
}

/// What `addi_32_di` does: the core goes from `c0` to `c1` and `r` comes back.
pub open spec fn addi_32_di_effect(c0: ConfiguredCore, c1: ConfiguredCore, r: Result<Cycles>) -> bool {
    &&& exists|m1: ConfiguredCore, src: Result<u32>|
            #[trigger] operator::imm_32_rel(c0, m1, src) && match src {
                Err(e) => r == Err::<Cycles, Exception>(e) && c1 == m1,
                Ok(v) => exists|m2: ConfiguredCore, d: Result<(u32, u32)>|
                    #[trigger] operator::ea_ay_di_32_rel(m1, m2, d) && match d {
                        Err(e) => r == Err::<Cycles, Exception>(e) && c1 == m2,
                        Ok((dv, ea)) => {
                            let o = common::add_32_outcome(m2, dv, v);
                            stored(o.0, c1, 32, ea, merged(dv, o.1, 32), r, 32)
                        },
                    },
            }
}

pub fn addi_32_di(core: &mut ConfiguredCore) -> (r: Result<Cycles>)
    requires
        old(core).wf(),
    ensures
        final(core).wf(),
        addi_32_di_effect(*old(core), *final(core), r),
{
    let ghost c0 = *core;
    let src = operator::imm_32(core);
    let ghost m1 = *core;
    assert(operator::imm_32_rel(c0, m1, src));
    let v = match src {
        Err(e) => {
            return Err(e);
        },
        Ok(v) => v,
    };
    let d = operator::ea_ay_di_32(core);
    let ghost m2 = *core;
    assert(operator::ea_ay_di_32_rel(m1, m2, d));
    let (dv, ea) = match d {
        Err(e) => {
            return Err(e);
        },
        Ok(p) => p,
    };
    let res = common::add_32(core, dv, v);
    store(core, 32, ea, merge(dv, res, 32), 32)
}

/// What `addi_32_ix` does: the core goes from `c0` to `c1` and `r` comes back.
pub open spec fn addi_32_ix_effect(c0: ConfiguredCore, c1: ConfiguredCore, r: Result<Cycles>) -> bool {
    &&& exists|m1: ConfiguredCore, src: Result<u32>|
            #[trigger] operator::imm_32_rel(c0, m1, src) && match src {
                Err(e) => r == Err::<Cycles, Exception>(e) && c1 == m1,
                Ok(v) => exists|m2: ConfiguredCore, d: Result<(u32, u32)>|
                    #[trigger] operator::ea_ay_ix_32_rel(m1, m2, d) && match d {
                        Err(e) => r == Err::<Cycles, Exception>(e) && c1 == m2,
                        Ok((dv, ea)) => {
                            let o = common::add_32_outcome(m2, dv, v);
                            stored(o.0, c1, 32, ea, merged(dv, o.1, 32), r, 34)
                        },
                    },
            }
}

pub fn addi_32_ix(core: &mut ConfiguredCore) -> (r: Result<Cycles>)
    requires
        old(core).wf(),
    ensures
        final(core).wf(),
        addi_32_ix_effect(*old(core), *final(core), r),
{
    let ghost c0 = *core;
    let src = operator::imm_32(core);
    let ghost m1 = *core;
    assert(operator::imm_32_rel(c0, m1, src));
    let v = match src {
        Err(e) => {
            return Err(e);
        },
        Ok(v) => v,
    };
    let d = operator::ea_ay_ix_32(core);
    let ghost m2 = *core;
    assert(operator::ea_ay_ix_32_rel(m1, m2, d));
    let (dv, ea) = match d {
        Err(e) => {
            return Err(e);
        },
        Ok(p) => p,
    };
    let res = common::add_32(core, dv, v);
    store(core, 32, ea, merge(dv, res, 32), 34)
}

/// What `addi_32_aw` does: the core goes from `c0` to `c1` and `r` comes back.
pub open spec fn addi_32_aw_effect(c0: ConfiguredCore, c1: ConfiguredCore, r: Result<Cycles>) -> bool {
    &&& exists|m1: ConfiguredCore, src: Result<u32>|
            #[trigger] operator::imm_32_rel(c0, m1, src) && match src {
                Err(e) => r == Err::<Cycles, Exception>(e) && c1 == m1,
                Ok(v) => exists|m2: ConfiguredCore, d: Result<(u32, u32)>|
                    #[trigger] operator::ea_aw_32_rel(m1, m2, d) && match d {
                        Err(e) => r == Err::<Cycles, Exception>(e) && c1 == m2,
                        Ok((dv, ea)) => {
                            let o = common::add_32_outcome(m2, dv, v);
                            stored(o.0, c1, 32, ea, merged(dv, o.1, 32), r, 32)
                        },
                    },
            }
}

pub fn addi_32_aw(core: &mut ConfiguredCore) -> (r: Result<Cycles>)
    requires
        old(core).wf(),
    ensures
        final(core).wf(),
        addi_32_aw_effect(*old(core), *final(core), r),
{
    let ghost c0 = *core;
    let src = operator::imm_32(core);
    let ghost m1 = *core;
    assert(operator::imm_32_rel(c0, m1, src));
    let v = match src {
        Err(e) => {
            return Err(e);
        },
        Ok(v) => v,
    };
    let d = operator::ea_aw_32(core);
    let ghost m2 = *core;
    assert(operator::ea_aw_32_rel(m1, m2, d));
    let (dv, ea) = match d {
        Err(e) => {
            return Err(e);
        },
        Ok(p) => p,
    };
    let res = common::add_32(core, dv, v);
    store(core, 32, ea, merge(dv, res, 32), 32)
}

/// What `addi_32_al` does: the core goes from `c0` to `c1` and `r` comes back.
pub open spec fn addi_32_al_effect(c0: ConfiguredCore, c1: ConfiguredCore, r: Result<Cycles>) -> bool {
    &&& exists|m1: ConfiguredCore, src: Result<u32>|
            #[trigger] operator::imm_32_rel(c0, m1, src) && match src {
                Err(e) => r == Err::<Cycles, Exception>(e) && c1 == m1,
                Ok(v) => exists|m2: ConfiguredCore, d: Result<(u32, u32)>|
                    #[trigger] operator::ea_al_32_rel(m1, m2, d) && match d {
                        Err(e) => r == Err::<Cycles, Exception>(e) && c1 == m2,
                        Ok((dv, ea)) => {
                            let o = common::add_32_outcome(m2, dv, v);
                            stored(o.0, c1, 32, ea, merged(dv, o.1, 32), r, 36)
                        },
                    },
            }
}

pub fn addi_32_al(core: &mut ConfiguredCore) -> (r: Result<Cycles>)
    requires
        old(core).wf(),
    ensures
        final(core).wf(),
        addi_32_al_effect(*old(core), *final(core), r),
{
    let ghost c0 = *core;
    let src = operator::imm_32(core);
    let ghost m1 = *core;
    assert(operator::imm_32_rel(c0, m1, src));
    let v = match src {
        Err(e) => {
            return Err(e);
        },
        Ok(v) => v,
    };
    let d = operator::ea_al_32(core);
    let ghost m2 = *core;
    assert(operator::ea_al_32_rel(m1, m2, d));
    let (dv, ea) = match d {
        Err(e) => {
            return Err(e);
        },
        Ok(p) => p,
    };
    let res = common::add_32(core, dv, v);
    store(core, 32, ea, merge(dv, res, 32), 36)
}

/// What `addq_8_dn` does: the core goes from `c0` to `c1` and `r` comes back.
pub open spec fn addq_8_dn_effect(c0: ConfiguredCore, c1: ConfiguredCore, r: Result<Cycles>) -> bool {
    &&& exists|mid: ConfiguredCore, src: Result<u32>|
            #[trigger] operator::quick_rel(c0, mid, src) && match src {
                Err(e) => r == Err::<Cycles, Exception>(e) && c1 == mid,
                Ok(v) => {
                    let reg = ir_dy(mid.ir);
                    let o = common::add_8_outcome(mid, mid.dar[reg], v);
                    &&& r == Ok::<Cycles, Exception>(Cycles(4))
                    &&& reg_set(o.0, c1, reg, merged(mid.dar[reg], o.1, 8))
                },
            }
}

pub fn addq_8_dn(core: &mut ConfiguredCore) -> (r: Result<Cycles>)
    requires
        old(core).wf(),
    ensures
        final(core).wf(),
        addq_8_dn_effect(*old(core), *final(core), r),
{
    let ghost c0 = *core;
    let src = operator::quick(core);
    let ghost mid = *core;
    assert(operator::quick_rel(c0, mid, src));
    match src {
        Err(e) => Err(e),
        Ok(v) => {
            let reg = reg_dy(core.ir);
            let dst = core.dar[reg];
            let res = common::add_8(core, dst, v);
            set_reg(core, reg, merge(dst, res, 8));
            Ok(Cycles(4))
        },
    }
}

/// What `addq_8_ai` does: the core goes from `c0` to `c1` and `r` comes back.
pub open spec fn addq_8_ai_effect(c0: ConfiguredCore, c1: ConfiguredCore, r: Result<Cycles>) -> bool {
    &&& exists|m1: ConfiguredCore, src: Result<u32>|
            #[trigger] operator::quick_rel(c0, m1, src) && match src {
                Err(e) => r == Err::<Cycles, Exception>(e) && c1 == m1,
                Ok(v) => exists|m2: ConfiguredCore, d: Result<(u32, u32)>|
                    #[trigger] operator::ea_ay_ai_8_rel(m1, m2, d) && match d {
                        Err(e) => r == Err::<Cycles, Exception>(e) && c1 == m2,
                        Ok((dv, ea)) => {
                            let o = common::add_8_outcome(m2, dv, v);
                            stored(o.0, c1, 8, ea, merged(dv, o.1, 8), r, 12)
                        },
                    },
            }
}

pub fn addq_8_ai(core: &mut ConfiguredCore) -> (r: Result<Cycles>)
    requires
        old(core).wf(),
    ensures
        final(core).wf(),
        addq_8_ai_effect(*old(core), *final(core), r),
{
    let ghost c0 = *core;
    let src = operator::quick(core);
    let ghost m1 = *core;
    assert(operator::quick_rel(c0, m1, src));
    let v = match src {
        Err(e) => {
            return Err(e);
        },
        Ok(v) => v,
    };
    let d = operator::ea_ay_ai_8(core);
    let ghost m2 = *core;
    assert(operator::ea_ay_ai_8_rel(m1, m2, d));
    let (dv, ea) = match d {
        Err(e) => {
            return Err(e);
        },
        Ok(p) => p,
    };
    let res = common::add_8(core, dv, v);
    store(core, 8, ea, merge(dv, res, 8), 12)
}

/// What `addq_8_pi` does: the core goes from `c0` to `c1` and `r` comes back.
pub open spec fn addq_8_pi_effect(c0: ConfiguredCore, c1: ConfiguredCore, r: Result<Cycles>) -> bool {
    &&& exists|m1: ConfiguredCore, src: Result<u32>|
            #[trigger] operator::quick_rel(c0, m1, src) && match src {
                Err(e) => r == Err::<Cycles, Exception>(e) && c1 == m1,
                Ok(v) => exists|m2: ConfiguredCore, d: Result<(u32, u32)>|
                    #[trigger] operator::ea_ay_pi_8_rel(m1, m2, d) && match d {
                        Err(e) => r == Err::<Cycles, Exception>(e) && c1 == m2,
                        Ok((dv, ea)) => {
                            let o = common::add_8_outcome(m2, dv, v);
                            stored(o.0, c1, 8, ea, merged(dv, o.1, 8), r, 12)
                        },
                    },
            }
}

pub fn addq_8_pi(core: &mut ConfiguredCore) -> (r: Result<Cycles>)
    requires
        old(core).wf(),
    ensures
        final(core).wf(),
        addq_8_pi_effect(*old(core), *final(core), r),
{
    let ghost c0 = *core;
    let src = operator::quick(core);
    let ghost m1 = *core;
    assert(operator::quick_rel(c0, m1, src));
    let v = match src {
        Err(e) => {
            return Err(e);
        },
        Ok(v) => v,
    };
    let d = operator::ea_ay_pi_8(core);
    let ghost m2 = *core;
    assert(operator::ea_ay_pi_8_rel(m1, m2, d));
    let (dv, ea) = match d {
        Err(e) => {
            return Err(e);
        },
        Ok(p) => p,
    };
    let res = common::add_8(core, dv, v);
    store(core, 8, ea, merge(dv, res, 8), 12)
}

/// What `addq_8_pd` does: the core goes from `c0` to `c1` and `r` comes back.
pub open spec fn addq_8_pd_effect(c0: ConfiguredCore, c1: ConfiguredCore, r: Result<Cycles>) -> bool {
    &&& exists|m1: ConfiguredCore, src: Result<u32>|
            #[trigger] operator::quick_rel(c0, m1, src) && match src {
                Err(e) => r == Err::<Cycles, Exception>(e) && c1 == m1,
                Ok(v) => exists|m2: ConfiguredCore, d: Result<(u32, u32)>|
                    #[trigger] operator::ea_ay_pd_8_rel(m1, m2, d) && match d {
                        Err(e) => r == Err::<Cycles, Exception>(e) && c1 == m2,
                        Ok((dv, ea)) => {
                            let o = common::add_8_outcome(m2, dv, v);
                            stored(o.0, c1, 8, ea, merged(dv, o.1, 8), r, 14)
                        },
                    },
            }
}

pub fn addq_8_pd(core: &mut ConfiguredCore) -> (r: Result<Cycles>)
    requires
        old(core).wf(),
    ensures
        final(core).wf(),
        addq_8_pd_effect(*old(core), *final(core), r),
{
    let ghost c0 = *core;
    let src = operator::quick(core);
    let ghost m1 = *core;
    assert(operator::quick_rel(c0, m1, src));
    let v = match src {
        Err(e) => {
            return Err(e);
        },
        Ok(v) => v,
    };
    let d = operator::ea_ay_pd_8(core);
    let ghost m2 = *core;
    assert(operator::ea_ay_pd_8_rel(m1, m2, d));
    let (dv, ea) = match d {
        Err(e) => {
            return Err(e);
        },
        Ok(p) => p,
    };
    let res = common::add_8(core, dv, v);
    store(core, 8, ea, merge(dv, res, 8), 14)
}

/// What `addq_8_di` does: the core goes from `c0` to `c1` and `r` comes back.
pub open spec fn addq_8_di_effect(c0: ConfiguredCore, c1: ConfiguredCore, r: Result<Cycles>) -> bool {
    &&& exists|m1: ConfiguredCore, src: Result<u32>|
            #[trigger] operator::quick_rel(c0, m1, src) && match src {
                Err(e) => r == Err::<Cycles, Exception>(e) && c1 == m1,
                Ok(v) => exists|m2: ConfiguredCore, d: Result<(u32, u32)>|
                    #[trigger] operator::ea_ay_di_8_rel(m1, m2, d) && match d {
                        Err(e) => r == Err::<Cycles, Exception>(e) && c1 == m2,
                        Ok((dv, ea)) => {
                            let o = common::add_8_outcome(m2, dv, v);
                            stored(o.0, c1, 8, ea, merged(dv, o.1, 8), r, 16)
                        },
                    },
            }
}

pub fn addq_8_di(core: &mut ConfiguredCore) -> (r: Result<Cycles>)
    requires
        old(core).wf(),
    ensures
        final(core).wf(),
        addq_8_di_effect(*old(core), *final(core), r),
{
    let ghost c0 = *core;
    let src = operator::quick(core);
    let ghost m1 = *core;
    assert(operator::quick_rel(c0, m1, src));
    let v = match src {
        Err(e) => {
            return Err(e);
        },
        Ok(v) => v,
    };
    let d = operator::ea_ay_di_8(core);
    let ghost m2 = *core;
    assert(operator::ea_ay_di_8_rel(m1, m2, d));
    let (dv, ea) = match d {
        Err(e) => {
            return Err(e);
        },
        Ok(p) => p,
    };
    let res = common::add_8(core, dv, v);
    store(core, 8, ea, merge(dv, res, 8), 16)
}

/// What `addq_8_ix` does: the core goes from `c0` to `c1` and `r` comes back.
pub open spec fn addq_8_ix_effect(c0: ConfiguredCore, c1: ConfiguredCore, r: Result<Cycles>) -> bool {
    &&& exists|m1: ConfiguredCore, src: Result<u32>|
            #[trigger] operator::quick_rel(c0, m1, src) && match src {
                Err(e) => r == Err::<Cycles, Exception>(e) && c1 == m1,
                Ok(v) => exists|m2: ConfiguredCore, d: Result<(u32, u32)>|
                    #[trigger] operator::ea_ay_ix_8_rel(m1, m2, d) && match d {
                        Err(e) => r == Err::<Cycles, Exception>(e) && c1 == m2,
                        Ok((dv, ea)) => {
                            let o = common::add_8_outcome(m2, dv, v);
                            stored(o.0, c1, 8, ea, merged(dv, o.1, 8), r, 18)
                        },
                    },
            }
}

pub fn addq_8_ix(core: &mut ConfiguredCore) -> (r: Result<Cycles>)
    requires
        old(core).wf(),
    ensures
        final(core).wf(),
        addq_8_ix_effect(*old(core), *final(core), r),
{
    let ghost c0 = *core;
    let src = operator::quick(core);
    let ghost m1 = *core;
    assert(operator::quick_rel(c0, m1, src));
    let v = match src {
        Err(e) => {
            return Err(e);
        },
        Ok(v) => v,
    };
    let d = operator::ea_ay_ix_8(core);
    let ghost m2 = *core;
    assert(operator::ea_ay_ix_8_rel(m1, m2, d));
    let (dv, ea) = match d {
        Err(e) => {
            return Err(e);
        },
        Ok(p) => p,
    };
    let res = common::add_8(core, dv, v);
    store(core, 8, ea, merge(dv, res, 8), 18)
}

/// What `addq_8_aw` does: the core goes from `c0` to `c1` and `r` comes back.
pub open spec fn addq_8_aw_effect(c0: ConfiguredCore, c1: ConfiguredCore, r: Result<Cycles>) -> bool {
    &&& exists|m1: ConfiguredCore, src: Result<u32>|
            #[trigger] operator::quick_rel(c0, m1, src) && match src {
                Err(e) => r == Err::<Cycles, Exception>(e) && c1 == m1,
                Ok(v) => exists|m2: ConfiguredCore, d: Result<(u32, u32)>|
                    #[trigger] operator::ea_aw_8_rel(m1, m2, d) && match d {
                        Err(e) => r == Err::<Cycles, Exception>(e) && c1 == m2,
                        Ok((dv, ea)) => {
                            let o = common::add_8_outcome(m2, dv, v);
                            stored(o.0, c1, 8, ea, merged(dv, o.1, 8), r, 16)
                        },
                    },
            }
}

pub fn addq_8_aw(core: &mut ConfiguredCore) -> (r: Result<Cycles>)
    requires
        old(core).wf(),
    ensures
        final(core).wf(),
        addq_8_aw_effect(*old(core), *final(core), r),
{
    let ghost c0 = *core;
    let src = operator::quick(core);
    let ghost m1 = *core;
    assert(operator::quick_rel(c0, m1, src));
    let v = match src {
        Err(e) => {
            return Err(e);
        },
        Ok(v) => v,
    };
    let d = operator::ea_aw_8(core);
    let ghost m2 = *core;
    assert(operator::ea_aw_8_rel(m1, m2, d));
    let (dv, ea) = match d {
        Err(e) => {
            return Err(e);
        },
        Ok(p) => p,
    };
    let res = common::add_8(core, dv, v);
    store(core, 8, ea, merge(dv, res, 8), 16)
}

/// What `addq_8_al` does: the core goes from `c0` to `c1` and `r` comes back.
pub open spec fn addq_8_al_effect(c0: ConfiguredCore, c1: ConfiguredCore, r: Result<Cycles>) -> bool {
    &&& exists|m1: ConfiguredCore, src: Result<u32>|
            #[trigger] operator::quick_rel(c0, m1, src) && match src {
                Err(e) => r == Err::<Cycles, Exception>(e) && c1 == m1,
                Ok(v) => exists|m2: ConfiguredCore, d: Result<(u32, u32)>|
                    #[trigger] operator::ea_al_8_rel(m1, m2, d) && match d {
                        Err(e) => r == Err::<Cycles, Exception>(e) && c1 == m2,
                        Ok((dv, ea)) => {
                            let o = common::add_8_outcome(m2, dv, v);
                            stored(o.0, c1, 8, ea, merged(dv, o.1, 8), r, 20)
                        },
                    },
            }
}

pub fn addq_8_al(core: &mut ConfiguredCore) -> (r: Result<Cycles>)
    requires
        old(core).wf(),
    ensures
        final(core).wf(),
        addq_8_al_effect(*old(core), *final(core), r),
{
    let ghost c0 = *core;
    let src = operator::quick(core);
    let ghost m1 = *core;
    assert(operator::quick_rel(c0, m1, src));
    let v = match src {
        Err(e) => {
            return Err(e);
        },
        Ok(v) => v,
    };
    let d = operator::ea_al_8(core);
    let ghost m2 = *core;
    assert(operator::ea_al_8_rel(m1, m2, d));
    let (dv, ea) = match d {
        Err(e) => {
            return Err(e);
        },
        Ok(p) => p,
    };
    let res = common::add_8(core, dv, v);
    store(core, 8, ea, merge(dv, res, 8), 20)
}

/// What `addq_16_dn` does: the core goes from `c0` to `c1` and `r` comes back.
pub open spec fn addq_16_dn_effect(c0: ConfiguredCore, c1: ConfiguredCore, r: Result<Cycles>) -> bool {
    &&& exists|mid: ConfiguredCore, src: Result<u32>|
            #[trigger] operator::quick_rel(c0, mid, src) && match src {
                Err(e) => r == Err::<Cycles, Exception>(e) && c1 == mid,
                Ok(v) => {
                    let reg = ir_dy(mid.ir);
                    let o = common::add_16_outcome(mid, mid.dar[reg], v);
                    &&& r == Ok::<Cycles, Exception>(Cycles(4))
                    &&& reg_set(o.0, c1, reg, merged(mid.dar[reg], o.1, 16))
                },
            }
}

pub fn addq_16_dn(core: &mut ConfiguredCore) -> (r: Result<Cycles>)
    requires
        old(core).wf(),
    ensures
        final(core).wf(),
        addq_16_dn_effect(*old(core), *final(core), r),
{
    let ghost c0 = *core;
    let src = operator::quick(core);
    let ghost mid = *core;
    assert(operator::quick_rel(c0, mid, src));
    match src {
        Err(e) => Err(e),
        Ok(v) => {
            let reg = reg_dy(core.ir);
            let dst = core.dar[reg];
            let res = common::add_16(core, dst, v);
            set_reg(core, reg, merge(dst, res, 16));
            Ok(Cycles(4))
        },
    }
}

/// What `addq_16_ai` does: the core goes from `c0` to `c1` and `r` comes back.
pub open spec fn addq_16_ai_effect(c0: ConfiguredCore, c1: ConfiguredCore, r: Result<Cycles>) -> bool {
    &&& exists|m1: ConfiguredCore, src: Result<u32>|
            #[trigger] operator::quick_rel(c0, m1, src) && match src {
                Err(e) => r == Err::<Cycles, Exception>(e) && c1 == m1,
                Ok(v) => exists|m2: ConfiguredCore, d: Result<(u32, u32)>|
                    #[trigger] operator::ea_ay_ai_16_rel(m1, m2, d) && match d {
                        Err(e) => r == Err::<Cycles, Exception>(e) && c1 == m2,
                        Ok((dv, ea)) => {
                            let o = common::add_16_outcome(m2, dv, v);
                            stored(o.0, c1, 16, ea, merged(dv, o.1, 16), r, 12)
                        },
                    },
            }
}

pub fn addq_16_ai(core: &mut ConfiguredCore) -> (r: Result<Cycles>)
    requires
        old(core).wf(),
    ensures
        final(core).wf(),
        addq_16_ai_effect(*old(core), *final(core), r),
{
    let ghost c0 = *core;
    let src = operator::quick(core);
    let ghost m1 = *core;
    assert(operator::quick_rel(c0, m1, src));
    let v = match src {
        Err(e) => {
            return Err(e);
        },
        Ok(v) => v,
    };
    let d = operator::ea_ay_ai_16(core);
    let ghost m2 = *core;
    assert(operator::ea_ay_ai_16_rel(m1, m2, d));
    let (dv, ea) = match d {
        Err(e) => {
            return Err(e);
        },
        Ok(p) => p,
    };
    let res = common::add_16(core, dv, v);
    store(core, 16, ea, merge(dv, res, 16), 12)
}

/// What `addq_16_pi` does: the core goes from `c0` to `c1` and `r` comes back.
pub open spec fn addq_16_pi_effect(c0: ConfiguredCore, c1: ConfiguredCore, r: Result<Cycles>) -> bool {
    &&& exists|m1: ConfiguredCore, src: Result<u32>|
            #[trigger] operator::quick_rel(c0, m1, src) && match src {
                Err(e) => r == Err::<Cycles, Exception>(e) && c1 == m1,
                Ok(v) => exists|m2: ConfiguredCore, d: Result<(u32, u32)>|
                    #[trigger] operator::ea_ay_pi_16_rel(m1, m2, d) && match d {
                        Err(e) => r == Err::<Cycles, Exception>(e) && c1 == m2,
                        Ok((dv, ea)) => {
                            let o = common::add_16_outcome(m2, dv, v);
                            stored(o.0, c1, 16, ea, merged(dv, o.1, 16), r, 12)
                        },
                    },
            }
}

pub fn addq_16_pi(core: &mut ConfiguredCore) -> (r: Result<Cycles>)
    requires
        old(core).wf(),
    ensures
        final(core).wf(),
        addq_16_pi_effect(*old(core), *final(core), r),
{
    let ghost c0 = *core;
    let src = operator::quick(core);
    let ghost m1 = *core;
    assert(operator::quick_rel(c0, m1, src));
    let v = match src {
        Err(e) => {
            return Err(e);
        },
        Ok(v) => v,
    };
    let d = operator::ea_ay_pi_16(core);
    let ghost m2 = *core;
    assert(operator::ea_ay_pi_16_rel(m1, m2, d));
    let (dv, ea) = match d {
        Err(e) => {
            return Err(e);
        },
        Ok(p) => p,
    };
    let res = common::add_16(core, dv, v);
    store(core, 16, ea, merge(dv, res, 16), 12)
}

/// What `addq_16_pd` does: the core goes from `c0` to `c1` and `r` comes back.
pub open spec fn addq_16_pd_effect(c0: ConfiguredCore, c1: ConfiguredCore, r: Result<Cycles>) -> bool {
    &&& exists|m1: ConfiguredCore, src: Result<u32>|
            #[trigger] operator::quick_rel(c0, m1, src) && match src {
                Err(e) => r == Err::<Cycles, Exception>(e) && c1 == m1,
                Ok(v) => exists|m2: ConfiguredCore, d: Result<(u32, u32)>|
                    #[trigger] operator::ea_ay_pd_16_rel(m1, m2, d) && match d {
                        Err(e) => r == Err::<Cycles, Exception>(e) && c1 == m2,
                        Ok((dv, ea)) => {
                            let o = common::add_16_outcome(m2, dv, v);
                            stored(o.0, c1, 16, ea, merged(dv, o.1, 16), r, 14)
                        },
                    },
            }
}

pub fn addq_16_pd(core: &mut ConfiguredCore) -> (r: Result<Cycles>)
    requires
        old(core).wf(),
    ensures
        final(core).wf(),
        addq_16_pd_effect(*old(core), *final(core), r),
{
    let ghost c0 = *core;
    let src = operator::quick(core);
    let ghost m1 = *core;
    assert(operator::quick_rel(c0, m1, src));
    let v = match src {
        Err(e) => {
            return Err(e);
        },
        Ok(v) => v,
    };
    let d = operator::ea_ay_pd_16(core);
    let ghost m2 = *core;
    assert(operator::ea_ay_pd_16_rel(m1, m2, d));
    let (dv, ea) = match d {
        Err(e) => {
            return Err(e);
        },
        Ok(p) => p,
    };
    let res = common::add_16(core, dv, v);
    store(core, 16, ea, merge(dv, res, 16), 14)
}

/// What `addq_16_di` does: the core goes from `c0` to `c1` and `r` comes back.
pub open spec fn addq_16_di_effect(c0: ConfiguredCore, c1: ConfiguredCore, r: Result<Cycles>) -> bool {
    &&& exists|m1: ConfiguredCore, src: Result<u32>|
            #[trigger] operator::quick_rel(c0, m1, src) && match src {
                Err(e) => r == Err::<Cycles, Exception>(e) && c1 == m1,
                Ok(v) => exists|m2: ConfiguredCore, d: Result<(u32, u32)>|
                    #[trigger] operator::ea_ay_di_16_rel(m1, m2, d) && match d {
                        Err(e) => r == Err::<Cycles, Exception>(e) && c1 == m2,
                        Ok((dv, ea)) => {
                            let o = common::add_16_outcome(m2, dv, v);
                            stored(o.0, c1, 16, ea, merged(dv, o.1, 16), r, 16)
                        },
                    },
            }
}

pub fn addq_16_di(core: &mut ConfiguredCore) -> (r: Result<Cycles>)
    requires
        old(core).wf(),
    ensures
        final(core).wf(),
        addq_16_di_effect(*old(core), *final(core), r),
{
    let ghost c0 = *core;
    let src = operator::quick(core);
    let ghost m1 = *core;
    assert(operator::quick_rel(c0, m1, src));
    let v = match src {
        Err(e) => {
            return Err(e);
        },
        Ok(v) => v,
    };
    let d = operator::ea_ay_di_16(core);
    let ghost m2 = *core;
    assert(operator::ea_ay_di_16_rel(m1, m2, d));
    let (dv, ea) = match d {
        Err(e) => {
            return Err(e);
        },
        Ok(p) => p,
    };
    let res = common::add_16(core, dv, v);
    store(core, 16, ea, merge(dv, res, 16), 16)
}

/// What `addq_16_ix` does: the core goes from `c0` to `c1` and `r` comes back.
pub open spec fn addq_16_ix_effect(c0: ConfiguredCore, c1: ConfiguredCore, r: Result<Cycles>) -> bool {
    &&& exists|m1: ConfiguredCore, src: Result<u32>|
            #[trigger] operator::quick_rel(c0, m1, src) && match src {
                Err(e) => r == Err::<Cycles, Exception>(e) && c1 == m1,
                Ok(v) => exists|m2: ConfiguredCore, d: Result<(u32, u32)>|
                    #[trigger] operator::ea_ay_ix_16_rel(m1, m2, d) && match d {
                        Err(e) => r == Err::<Cycles, Exception>(e) && c1 == m2,
                        Ok((dv, ea)) => {
                            let o = common::add_16_outcome(m2, dv, v);
                            stored(o.0, c1, 16, ea, merged(dv, o.1, 16), r, 18)
                        },
                    },
            }
}

pub fn addq_16_ix(core: &mut ConfiguredCore) -> (r: Result<Cycles>)
    requires
        old(core).wf(),
    ensures
        final(core).wf(),
        addq_16_ix_effect(*old(core), *final(core), r),
{
    let ghost c0 = *core;
    let src = operator::quick(core);
    let ghost m1 = *core;
    assert(operator::quick_rel(c0, m1, src));
    let v = match src {
        Err(e) => {
            return Err(e);
        },
        Ok(v) => v,
    };
    let d = operator::ea_ay_ix_16(core);
    let ghost m2 = *core;
    assert(operator::ea_ay_ix_16_rel(m1, m2, d));
    let (dv, ea) = match d {
        Err(e) => {
            return Err(e);
        },
        Ok(p) => p,
    };
    let res = common::add_16(core, dv, v);
    store(core, 16, ea, merge(dv, res, 16), 18)
}

/// What `addq_16_aw` does: the core goes from `c0` to `c1` and `r` comes back.
pub open spec fn addq_16_aw_effect(c0: ConfiguredCore, c1: ConfiguredCore, r: Result<Cycles>) -> bool {
    &&& exists|m1: ConfiguredCore, src: Result<u32>|
            #[trigger] operator::quick_rel(c0, m1, src) && match src {
                Err(e) => r == Err::<Cycles, Exception>(e) && c1 == m1,
                Ok(v) => exists|m2: ConfiguredCore, d: Result<(u32, u32)>|
                    #[trigger] operator::ea_aw_16_rel(m1, m2, d) && match d {
                        Err(e) => r == Err::<Cycles, Exception>(e) && c1 == m2,
                        Ok((dv, ea)) => {
                            let o = common::add_16_outcome(m2, dv, v);
                            stored(o.0, c1, 16, ea, merged(dv, o.1, 16), r, 16)
                        },
                    },
            }
}

pub fn addq_16_aw(core: &mut ConfiguredCore) -> (r: Result<Cycles>)
    requires
        old(core).wf(),
    ensures
        final(core).wf(),
        addq_16_aw_effect(*old(core), *final(core), r),
{
    let ghost c0 = *core;
    let src = operator::quick(core);
    let ghost m1 = *core;
    assert(operator::quick_rel(c0, m1, src));
    let v = match src {
        Err(e) => {
            return Err(e);
        },
        Ok(v) => v,
    };
    let d = operator::ea_aw_16(core);
    let ghost m2 = *core;
    assert(operator::ea_aw_16_rel(m1, m2, d));
    let (dv, ea) = match d {
        Err(e) => {
            return Err(e);
        },
        Ok(p) => p,
    };
    let res = common::add_16(core, dv, v);
    store(core, 16, ea, merge(dv, res, 16), 16)
}

/// What `addq_16_al` does: the core goes from `c0` to `c1` and `r` comes back.
pub open spec fn addq_16_al_effect(c0: ConfiguredCore, c1: ConfiguredCore, r: Result<Cycles>) -> bool {
    &&& exists|m1: ConfiguredCore, src: Result<u32>|
            #[trigger] operator::quick_rel(c0, m1, src) && match src {
                Err(e) => r == Err::<Cycles, Exception>(e) && c1 == m1,
                Ok(v) => exists|m2: ConfiguredCore, d: Result<(u32, u32)>|
                    #[trigger] operator::ea_al_16_rel(m1, m2, d) && match d {
                        Err(e) => r == Err::<Cycles, Exception>(e) && c1 == m2,
                        Ok((dv, ea)) => {
                            let o = common::add_16_outcome(m2, dv, v);
                            stored(o.0, c1, 16, ea, merged(dv, o.1, 16), r, 20)
                        },
                    },
            }
}

pub fn addq_16_al(core: &mut ConfiguredCore) -> (r: Result<Cycles>)
    requires
        old(core).wf(),
    ensures
        final(core).wf(),
        addq_16_al_effect(*old(core), *final(core), r),
{
    let ghost c0 = *core;
    let src = operator::quick(core);
    let ghost m1 = *core;
    assert(operator::quick_rel(c0, m1, src));
    let v = match src {
        Err(e) => {
            return Err(e);
        },
        Ok(v) => v,
    };
    let d = operator::ea_al_16(core);
    let ghost m2 = *core;
    assert(operator::ea_al_16_rel(m1, m2, d));
    let (dv, ea) = match d {
        Err(e) => {
            return Err(e);
        },
        Ok(p) => p,
    };
    let res = common::add_16(core, dv, v);
    store(core, 16, ea, merge(dv, res, 16), 20)
}

/// What `addq_32_dn` does: the core goes from `c0` to `c1` and `r` comes back.
pub open spec fn addq_32_dn_effect(c0: ConfiguredCore, c1: ConfiguredCore, r: Result<Cycles>) -> bool {
    &&& exists|mid: ConfiguredCore, src: Result<u32>|
            #[trigger] operator::quick_rel(c0, mid, src) && match src {
                Err(e) => r == Err::<Cycles, Exception>(e) && c1 == mid,
                Ok(v) => {
                    let reg = ir_dy(mid.ir);
                    let o = common::add_32_outcome(mid, mid.dar[reg], v);
                    &&& r == Ok::<Cycles, Exception>(Cycles(8))
                    &&& reg_set(o.0, c1, reg, merged(mid.dar[reg], o.1, 32))
                },
            }
}

pub fn addq_32_dn(core: &mut ConfiguredCore) -> (r: Result<Cycles>)
    requires
        old(core).wf(),
    ensures
        final(core).wf(),
        addq_32_dn_effect(*old(core), *final(core), r),
{
    let ghost c0 = *core;
    let src = operator::quick(core);
    let ghost mid = *core;
    assert(operator::quick_rel(c0, mid, src));
    match src {
        Err(e) => Err(e),
        Ok(v) => {
            let reg = reg_dy(core.ir);
            let dst = core.dar[reg];
            let res = common::add_32(core, dst, v);
            set_reg(core, reg, merge(dst, res, 32));
            Ok(Cycles(8))
        },
    }
}

/// What `addq_32_ai` does: the core goes from `c0` to `c1` and `r` comes back.
pub open spec fn addq_32_ai_effect(c0: ConfiguredCore, c1: ConfiguredCore, r: Result<Cycles>) -> bool {
    &&& exists|m1: ConfiguredCore, src: Result<u32>|
            #[trigger] operator::quick_rel(c0, m1, src) && match src {
                Err(e) => r == Err::<Cycles, Exception>(e) && c1 == m1,
                Ok(v) => exists|m2: ConfiguredCore, d: Result<(u32, u32)>|
                    #[trigger] operator::ea_ay_ai_32_rel(m1, m2, d) && match d {
                        Err(e) => r == Err::<Cycles, Exception>(e) && c1 == m2,
                        Ok((dv, ea)) => {
                            let o = common::add_32_outcome(m2, dv, v);
                            stored(o.0, c1, 32, ea, merged(dv, o.1, 32), r, 20)
                        },
                    },
            }
}

pub fn addq_32_ai(core: &mut ConfiguredCore) -> (r: Result<Cycles>)
    requires
        old(core).wf(),
    ensures
        final(core).wf(),
        addq_32_ai_effect(*old(core), *final(core), r),
{
    let ghost c0 = *core;
    let src = operator::quick(core);
    let ghost m1 = *core;
    assert(operator::quick_rel(c0, m1, src));
    let v = match src {
        Err(e) => {
            return Err(e);
        },
        Ok(v) => v,
    };
    let d = operator::ea_ay_ai_32(core);
    let ghost m2 = *core;
    assert(operator::ea_ay_ai_32_rel(m1, m2, d));
    let (dv, ea) = match d {
        Err(e) => {
            return Err(e);
        },
        Ok(p) => p,
    };
    let res = common::add_32(core, dv, v);
    store(core, 32, ea, merge(dv, res, 32), 20)
}

/// What `addq_32_pi` does: the core goes from `c0` to `c1` and `r` comes back.
pub open spec fn addq_32_pi_effect(c0: ConfiguredCore, c1: ConfiguredCore, r: Result<Cycles>) -> bool {
    &&& exists|m1: ConfiguredCore, src: Result<u32>|
            #[trigger] operator::quick_rel(c0, m1, src) && match src {
                Err(e) => r == Err::<Cycles, Exception>(e) && c1 == m1,
                Ok(v) => exists|m2: ConfiguredCore, d: Result<(u32, u32)>|
                    #[trigger] operator::ea_ay_pi_32_rel(m1, m2, d) && match d {
                        Err(e) => r == Err::<Cycles, Exception>(e) && c1 == m2,
                        Ok((dv, ea)) => {
                            let o = common::add_32_outcome(m2, dv, v);
                            stored(o.0, c1, 32, ea, merged(dv, o.1, 32), r, 20)
                        },
                    },
            }
}

pub fn addq_32_pi(core: &mut ConfiguredCore) -> (r: Result<Cycles>)
    requires
        old(core).wf(),
    ensures
        final(core).wf(),
        addq_32_pi_effect(*old(core), *final(core), r),
{
    let ghost c0 = *core;
    let src = operator::quick(core);
    let ghost m1 = *core;
    assert(operator::quick_rel(c0, m1, src));
    let v = match src {
        Err(e) => {
            return Err(e);
        },
        Ok(v) => v,
    };
    let d = operator::ea_ay_pi_32(core);
    let ghost m2 = *core;
    assert(operator::ea_ay_pi_32_rel(m1, m2, d));
    let (dv, ea) = match d {
        Err(e) => {
            return Err(e);
        },
        Ok(p) => p,
    };
    let res = common::add_32(core, dv, v);
    store(core, 32, ea, merge(dv, res, 32), 20)
}

/// What `addq_32_pd` does: the core goes from `c0` to `c1` and `r` comes back.
pub open spec fn addq_32_pd_effect(c0: ConfiguredCore, c1: ConfiguredCore, r: Result<Cycles>) -> bool {
    &&& exists|m1: ConfiguredCore, src: Result<u32>|
            #[trigger] operator::quick_rel(c0, m1, src) && match src {
                Err(e) => r == Err::<Cycles, Exception>(e) && c1 == m1,
                Ok(v) => exists|m2: ConfiguredCore, d: Result<(u32, u32)>|
                    #[trigger] operator::ea_ay_pd_32_rel(m1, m2, d) && match d {
                        Err(e) => r == Err::<Cycles, Exception>(e) && c1 == m2,
                        Ok((dv, ea)) => {
                            let o = common::add_32_outcome(m2, dv, v);
                            stored(o.0, c1, 32, ea, merged(dv, o.1, 32), r, 22)
                        },
                    },
            }
}

pub fn addq_32_pd(core: &mut ConfiguredCore) -> (r: Result<Cycles>)
    requires
        old(core).wf(),
    ensures
        final(core).wf(),
        addq_32_pd_effect(*old(core), *final(core), r),
{
    let ghost c0 = *core;
    let src = operator::quick(core);
    let ghost m1 = *core;
    assert(operator::quick_rel(c0, m1, src));
    let v = match src {
        Err(e) => {
            return Err(e);
        },
        Ok(v) => v,
    };
    let d = operator::ea_ay_pd_32(core);
    let ghost m2 = *core;
    assert(operator::ea_ay_pd_32_rel(m1, m2, d));
    let (dv, ea) = match d {
        Err(e) => {
            return Err(e);
        },
        Ok(p) => p,
    };
    let res = common::add_32(core, dv, v);
    store(core, 32, ea, merge(dv, res, 32), 22)
}

/// What `addq_32_di` does: the core goes from `c0` to `c1` and `r` comes back.
pub open spec fn addq_32_di_effect(c0: ConfiguredCore, c1: ConfiguredCore, r: Result<Cycles>) -> bool {
    &&& exists|m1: ConfiguredCore, src: Result<u32>|
            #[trigger] operator::quick_rel(c0, m1, src) && match src {
                Err(e) => r == Err::<Cycles, Exception>(e) && c1 == m1,
                Ok(v) => exists|m2: ConfiguredCore, d: Result<(u32, u32)>|
                    #[trigger] operator::ea_ay_di_32_rel(m1, m2, d) && match d {
                        Err(e) => r == Err::<Cycles, Exception>(e) && c1 == m2,
                        Ok((dv, ea)) => {
                            let o = common::add_32_outcome(m2, dv, v);
                            stored(o.0, c1, 32, ea, merged(dv, o.1, 32), r, 24)
                        },
                    },
            }
}

pub fn addq_32_di(core: &mut ConfiguredCore) -> (r: Result<Cycles>)
    requires
        old(core).wf(),
    ensures
        final(core).wf(),
        addq_32_di_effect(*old(core), *final(core), r),
{
    let ghost c0 = *core;
    let src = operator::quick(core);
    let ghost m1 = *core;
    assert(operator::quick_rel(c0, m1, src));
    let v = match src {
        Err(e) => {
            return Err(e);
        },
        Ok(v) => v,
    };
    let d = operator::ea_ay_di_32(core);
    let ghost m2 = *core;
    assert(operator::ea_ay_di_32_rel(m1, m2, d));
    let (dv, ea) = match d {
        Err(e) => {
            return Err(e);
        },
        Ok(p) => p,
    };
    let res = common::add_32(core, dv, v);
    store(core, 32, ea, merge(dv, res, 32), 24)
}

/// What `addq_32_ix` does: the core goes from `c0` to `c1` and `r` comes back.
pub open spec fn addq_32_ix_effect(c0: ConfiguredCore, c1: ConfiguredCore, r: Result<Cycles>) -> bool {
    &&& exists|m1: ConfiguredCore, src: Result<u32>|
            #[trigger] operator::quick_rel(c0, m1, src) && match src {
                Err(e) => r == Err::<Cycles, Exception>(e) && c1 == m1,
                Ok(v) => exists|m2: ConfiguredCore, d: Result<(u32, u32)>|
                    #[trigger] operator::ea_ay_ix_32_rel(m1, m2, d) && match d {
                        Err(e) => r == Err::<Cycles, Exception>(e) && c1 == m2,
                        Ok((dv, ea)) => {
                            let o = common::add_32_outcome(m2, dv, v);
                            stored(o.0, c1, 32, ea, merged(dv, o.1, 32), r, 26)
                        },
                    },
            }
}

pub fn addq_32_ix(core: &mut ConfiguredCore) -> (r: Result<Cycles>)
    requires
        old(core).wf(),
    ensures
        final(core).wf(),
        addq_32_ix_effect(*old(core), *final(core), r),
{
    let ghost c0 = *core;
    let src = operator::quick(core);
    let ghost m1 = *core;
    assert(operator::quick_rel(c0, m1, src));
    let v = match src {
        Err(e) => {
            return Err(e);
        },
        Ok(v) => v,
    };
    let d = operator::ea_ay_ix_32(core);
    let ghost m2 = *core;
    assert(operator::ea_ay_ix_32_rel(m1, m2, d));
    let (dv, ea) = match d {
        Err(e) => {
            return Err(e);
        },
        Ok(p) => p,
    };
    let res = common::add_32(core, dv, v);
    store(core, 32, ea, merge(dv, res, 32), 26)
}

/// What `addq_32_aw` does: the core goes from `c0` to `c1` and `r` comes back.
pub open spec fn addq_32_aw_effect(c0: ConfiguredCore, c1: ConfiguredCore, r: Result<Cycles>) -> bool {
    &&& exists|m1: ConfiguredCore, src: Result<u32>|
            #[trigger] operator::quick_rel(c0, m1, src) && match src {
                Err(e) => r == Err::<Cycles, Exception>(e) && c1 == m1,
                Ok(v) => exists|m2: ConfiguredCore, d: Result<(u32, u32)>|
                    #[trigger] operator::ea_aw_32_rel(m1, m2, d) && match d {
                        Err(e) => r == Err::<Cycles, Exception>(e) && c1 == m2,
                        Ok((dv, ea)) => {
                            let o = common::add_32_outcome(m2, dv, v);
                            stored(o.0, c1, 32, ea, merged(dv, o.1, 32), r, 24)
                        },
                    },
            }
}

pub fn addq_32_aw(core: &mut ConfiguredCore) -> (r: Result<Cycles>)
    requires
        old(core).wf(),
    ensures
        final(core).wf(),
        addq_32_aw_effect(*old(core), *final(core), r),
{
    let ghost c0 = *core;
    let src = operator::quick(core);
    let ghost m1 = *core;
    assert(operator::quick_rel(c0, m1, src));
    let v = match src {
        Err(e) => {
            return Err(e);
        },
        Ok(v) => v,
    };
    let d = operator::ea_aw_32(core);
    let ghost m2 = *core;
    assert(operator::ea_aw_32_rel(m1, m2, d));
    let (dv, ea) = match d {
        Err(e) => {
            return Err(e);
        },
        Ok(p) => p,
    };
    let res = common::add_32(core, dv, v);
    store(core, 32, ea, merge(dv, res, 32), 24)
}

/// What `addq_32_al` does: the core goes from `c0` to `c1` and `r` comes back.
pub open spec fn addq_32_al_effect(c0: ConfiguredCore, c1: ConfiguredCore, r: Result<Cycles>) -> bool {
    &&& exists|m1: ConfiguredCore, src: Result<u32>|
            #[trigger] operator::quick_rel(c0, m1, src) && match src {
                Err(e) => r == Err::<Cycles, Exception>(e) && c1 == m1,
                Ok(v) => exists|m2: ConfiguredCore, d: Result<(u32, u32)>|
                    #[trigger] operator::ea_al_32_rel(m1, m2, d) && match d {
                        Err(e) => r == Err::<Cycles, Exception>(e) && c1 == m2,
                        Ok((dv, ea)) => {
                            let o = common::add_32_outcome(m2, dv, v);
                            stored(o.0, c1, 32, ea, merged(dv, o.1, 32), r, 28)
                        },
                    },
            }
}

pub fn addq_32_al(core: &mut ConfiguredCore) -> (r: Result<Cycles>)
    requires
        old(core).wf(),
    ensures
        final(core).wf(),
        addq_32_al_effect(*old(core), *final(core), r),
{
    let ghost c0 = *core;
    let src = operator::quick(core);
    let ghost m1 = *core;
    assert(operator::quick_rel(c0, m1, src));
    let v = match src {
        Err(e) => {
            return Err(e);
        },
        Ok(v) => v,
    };
    let d = operator::ea_al_32(core);
    let ghost m2 = *core;
    assert(operator::ea_al_32_rel(m1, m2, d));
    let (dv, ea) = match d {
        Err(e) => {
            return Err(e);
        },
        Ok(p) => p,
    };
    let res = common::add_32(core, dv, v);
    store(core, 32, ea, merge(dv, res, 32), 28)
}

/// What `and_8_er_dn` does: the core goes from `c0` to `c1` and `r` comes back.
pub open spec fn and_8_er_dn_effect(c0: ConfiguredCore, c1: ConfiguredCore, r: Result<Cycles>) -> bool {
    &&& exists|mid: ConfiguredCore, src: Result<u32>|
            #[trigger] operator::dy_rel(c0, mid, src) && match src {
                Err(e) => r == Err::<Cycles, Exception>(e) && c1 == mid,
                Ok(v) => {
                    let reg = ir_dx(mid.ir);
                    let o = common::and_8_outcome(mid, mid.dar[reg], v);
                    &&& r == Ok::<Cycles, Exception>(Cycles(4))
                    &&& reg_set(o.0, c1, reg, merged(mid.dar[reg], o.1, 8))
                },
            }
}

pub fn and_8_er_dn(core: &mut ConfiguredCore) -> (r: Result<Cycles>)
    requires
        old(core).wf(),
    ensures
        final(core).wf(),
        and_8_er_dn_effect(*old(core), *final(core), r),
{
    let ghost c0 = *core;
    let src = operator::dy(core);
    let ghost mid = *core;
    assert(operator::dy_rel(c0, mid, src));
    match src {
        Err(e) => Err(e),
        Ok(v) => {
            let reg = reg_dx(core.ir);
            let dst = core.dar[reg];
            let res = common::and_8(core, dst, v);
            set_reg(core, reg, merge(dst, res, 8));
            Ok(Cycles(4))
        },
    }
}

/// What `and_8_er_ai` does: the core goes from `c0` to `c1` and `r` comes back.
pub open spec fn and_8_er_ai_effect(c0: ConfiguredCore, c1: ConfiguredCore, r: Result<Cycles>) -> bool {
    &&& exists|mid: ConfiguredCore, src: Result<u32>|
            #[trigger] operator::ay_ai_8_rel(c0, mid, src) && match src {
                Err(e) => r == Err::<Cycles, Exception>(e) && c1 == mid,
                Ok(v) => {
                    let reg = ir_dx(mid.ir);
                    let o = common::and_8_outcome(mid, mid.dar[reg], v);
                    &&& r == Ok::<Cycles, Exception>(Cycles(8))
                    &&& reg_set(o.0, c1, reg, merged(mid.dar[reg], o.1, 8))
                },
            }
}

pub fn and_8_er_ai(core: &mut ConfiguredCore) -> (r: Result<Cycles>)
    requires
        old(core).wf(),
    ensures
        final(core).wf(),
        and_8_er_ai_effect(*old(core), *final(core), r),
{
    let ghost c0 = *core;
    let src = operator::ay_ai_8(core);
    let ghost mid = *core;
    assert(operator::ay_ai_8_rel(c0, mid, src));
    match src {
        Err(e) => Err(e),
        Ok(v) => {
            let reg = reg_dx(core.ir);
            let dst = core.dar[reg];
            let res = common::and_8(core, dst, v);
            set_reg(core, reg, merge(dst, res, 8));
            Ok(Cycles(8))
        },
    }
}

/// What `and_8_er_pi` does: the core goes from `c0` to `c1` and `r` comes back.
pub open spec fn and_8_er_pi_effect(c0: ConfiguredCore, c1: ConfiguredCore, r: Result<Cycles>) -> bool {
    &&& exists|mid: ConfiguredCore, src: Result<u32>|
            #[trigger] operator::ay_pi_8_rel(c0, mid, src) && match src {
                Err(e) => r == Err::<Cycles, Exception>(e) && c1 == mid,
                Ok(v) => {
                    let reg = ir_dx(mid.ir);
                    let o = common::and_8_outcome(mid, mid.dar[reg], v);
                    &&& r == Ok::<Cycles, Exception>(Cycles(8))
                    &&& reg_set(o.0, c1, reg, merged(mid.dar[reg], o.1, 8))
                },
            }
}

pub fn and_8_er_pi(core: &mut ConfiguredCore) -> (r: Result<Cycles>)
    requires
        old(core).wf(),
    ensures
        final(core).wf(),
        and_8_er_pi_effect(*old(core), *final(core), r),
{
    let ghost c0 = *core;
    let src = operator::ay_pi_8(core);
    let ghost mid = *core;
    assert(operator::ay_pi_8_rel(c0, mid, src));
    match src {
        Err(e) => Err(e),
        Ok(v) => {
            let reg = reg_dx(core.ir);
            let dst = core.dar[reg];
            let res = common::and_8(core, dst, v);
            set_reg(core, reg, merge(dst, res, 8));
            Ok(Cycles(8))
        },
    }
}

/// What `and_8_er_pd` does: the core goes from `c0` to `c1` and `r` comes back.
pub open spec fn and_8_er_pd_effect(c0: ConfiguredCore, c1: ConfiguredCore, r: Result<Cycles>) -> bool {
    &&& exists|mid: ConfiguredCore, src: Result<u32>|
            #[trigger] operator::ay_pd_8_rel(c0, mid, src) && match src {
                Err(e) => r == Err::<Cycles, Exception>(e) && c1 == mid,
                Ok(v) => {
                    let reg = ir_dx(mid.ir);
                    let o = common::and_8_outcome(mid, mid.dar[reg], v);
                    &&& r == Ok::<Cycles, Exception>(Cycles(10))
                    &&& reg_set(o.0, c1, reg, merged(mid.dar[reg], o.1, 8))
                },
            }
}

pub fn and_8_er_pd(core: &mut ConfiguredCore) -> (r: Result<Cycles>)
    requires
        old(core).wf(),
    ensures
        final(core).wf(),
        and_8_er_pd_effect(*old(core), *final(core), r),
{
    let ghost c0 = *core;
    let src = operator::ay_pd_8(core);
    let ghost mid = *core;
    assert(operator::ay_pd_8_rel(c0, mid, src));
    match src {
        Err(e) => Err(e),
        Ok(v) => {
            let reg = reg_dx(core.ir);
            let dst = core.dar[reg];
            let res = common::and_8(core, dst, v);
            set_reg(core, reg, merge(dst, res, 8));
            Ok(Cycles(10))
        },
    }
}

/// What `and_8_er_di` does: the core goes from `c0` to `c1` and `r` comes back.
pub open spec fn and_8_er_di_effect(c0: ConfiguredCore, c1: ConfiguredCore, r: Result<Cycles>) -> bool {
    &&& exists|mid: ConfiguredCore, src: Result<u32>|
            #[trigger] operator::ay_di_8_rel(c0, mid, src) && match src {
                Err(e) => r == Err::<Cycles, Exception>(e) && c1 == mid,
                Ok(v) => {
                    let reg = ir_dx(mid.ir);
                    let o = common::and_8_outcome(mid, mid.dar[reg], v);
                    &&& r == Ok::<Cycles, Exception>(Cycles(12))
                    &&& reg_set(o.0, c1, reg, merged(mid.dar[reg], o.1, 8))
                },
            }
}

pub fn and_8_er_di(core: &mut ConfiguredCore) -> (r: Result<Cycles>)
    requires
        old(core).wf(),
    ensures
        final(core).wf(),
        and_8_er_di_effect(*old(core), *final(core), r),
{
    let ghost c0 = *core;
    let src = operator::ay_di_8(core);
    let ghost mid = *core;
    assert(operator::ay_di_8_rel(c0, mid, src));
    match src {
        Err(e) => Err(e),
        Ok(v) => {
            let reg = reg_dx(core.ir);
            let dst = core.dar[reg];
            let res = common::and_8(core, dst, v);
            set_reg(core, reg, merge(dst, res, 8));
            Ok(Cycles(12))
        },
    }
}

/// What `and_8_er_ix` does: the core goes from `c0` to `c1` and `r` comes back.
pub open spec fn and_8_er_ix_effect(c0: ConfiguredCore, c1: ConfiguredCore, r: Result<Cycles>) -> bool {
    &&& exists|mid: ConfiguredCore, src: Result<u32>|
            #[trigger] operator::ay_ix_8_rel(c0, mid, src) && match src {
                Err(e) => r == Err::<Cycles, Exception>(e) && c1 == mid,
                Ok(v) => {
                    let reg = ir_dx(mid.ir);
                    let o = common::and_8_outcome(mid, mid.dar[reg], v);
                    &&& r == Ok::<Cycles, Exception>(Cycles(14))
                    &&& reg_set(o.0, c1, reg, merged(mid.dar[reg], o.1, 8))
                },
            }
}

pub fn and_8_er_ix(core: &mut ConfiguredCore) -> (r: Result<Cycles>)
    requires
        old(core).wf(),
    ensures
        final(core).wf(),
        and_8_er_ix_effect(*old(core), *final(core), r),
{
    let ghost c0 = *core;
    let src = operator::ay_ix_8(core);
    let ghost mid = *core;
    assert(operator::ay_ix_8_rel(c0, mid, src));
    match src {
        Err(e) => Err(e),
        Ok(v) => {
            let reg = reg_dx(core.ir);
            let dst = core.dar[reg];
            let res = common::and_8(core, dst, v);
            set_reg(core, reg, merge(dst, res, 8));
            Ok(Cycles(14))
        },
    }
}

/// What `and_8_er_aw` does: the core goes from `c0` to `c1` and `r` comes back.
pub open spec fn and_8_er_aw_effect(c0: ConfiguredCore, c1: ConfiguredCore, r: Result<Cycles>) -> bool {
    &&& exists|mid: ConfiguredCore, src: Result<u32>|
            #[trigger] operator::aw_8_rel(c0, mid, src) && match src {
                Err(e) => r == Err::<Cycles, Exception>(e) && c1 == mid,
                Ok(v) => {
                    let reg = ir_dx(mid.ir);
                    let o = common::and_8_outcome(mid, mid.dar[reg], v);
                    &&& r == Ok::<Cycles, Exception>(Cycles(12))
                    &&& reg_set(o.0, c1, reg, merged(mid.dar[reg], o.1, 8))
                },
            }
}

pub fn and_8_er_aw(core: &mut ConfiguredCore) -> (r: Result<Cycles>)
    requires
        old(core).wf(),
    ensures
        final(core).wf(),
        and_8_er_aw_effect(*old(core), *final(core), r),
{
    let ghost c0 = *core;
    let src = operator::aw_8(core);
    let ghost mid = *core;
    assert(operator::aw_8_rel(c0, mid, src));
    match src {
        Err(e) => Err(e),
        Ok(v) => {
            let reg = reg_dx(core.ir);
            let dst = core.dar[reg];
            let res = common::and_8(core, dst, v);
            set_reg(core, reg, merge(dst, res, 8));
            Ok(Cycles(12))
        },
    }
}

/// What `and_8_er_al` does: the core goes from `c0` to `c1` and `r` comes back.
pub open spec fn and_8_er_al_effect(c0: ConfiguredCore, c1: ConfiguredCore, r: Result<Cycles>) -> bool {
    &&& exists|mid: ConfiguredCore, src: Result<u32>|
            #[trigger] operator::al_8_rel(c0, mid, src) && match src {
                Err(e) => r == Err::<Cycles, Exception>(e) && c1 == mid,
                Ok(v) => {
                    let reg = ir_dx(mid.ir);
                    let o = common::and_8_outcome(mid, mid.dar[reg], v);
                    &&& r == Ok::<Cycles, Exception>(Cycles(16))
                    &&& reg_set(o.0, c1, reg, merged(mid.dar[reg], o.1, 8))
                },
            }
}

pub fn and_8_er_al(core: &mut ConfiguredCore) -> (r: Result<Cycles>)
    requires
        old(core).wf(),
    ensures
        final(core).wf(),
        and_8_er_al_effect(*old(core), *final(core), r),
{
    let ghost c0 = *core;
    let src = operator::al_8(core);
    let ghost mid = *core;
    assert(operator::al_8_rel(c0, mid, src));
    match src {
        Err(e) => Err(e),
        Ok(v) => {
            let reg = reg_dx(core.ir);
            let dst = core.dar[reg];
            let res = common::and_8(core, dst, v);
            set_reg(core, reg, merge(dst, res, 8));
            Ok(Cycles(16))
        },
    }
}

/// What `and_8_er_pcdi` does: the core goes from `c0` to `c1` and `r` comes back.
pub open spec fn and_8_er_pcdi_effect(c0: ConfiguredCore, c1: ConfiguredCore, r: Result<Cycles>) -> bool {
    &&& exists|mid: ConfiguredCore, src: Result<u32>|
            #[trigger] operator::pcdi_8_rel(c0, mid, src) && match src {
                Err(e) => r == Err::<Cycles, Exception>(e) && c1 == mid,
                Ok(v) => {
                    let reg = ir_dx(mid.ir);
                    let o = common::and_8_outcome(mid, mid.dar[reg], v);
                    &&& r == Ok::<Cycles, Exception>(Cycles(12))
                    &&& reg_set(o.0, c1, reg, merged(mid.dar[reg], o.1, 8))
                },
            }
}

pub fn and_8_er_pcdi(core: &mut ConfiguredCore) -> (r: Result<Cycles>)
    requires
        old(core).wf(),
    ensures
        final(core).wf(),
        and_8_er_pcdi_effect(*old(core), *final(core), r),
{
    let ghost c0 = *core;
    let src = operator::pcdi_8(core);
    let ghost mid = *core;
    assert(operator::pcdi_8_rel(c0, mid, src));
    match src {
        Err(e) => Err(e),
        Ok(v) => {
            let reg = reg_dx(core.ir);
            let dst = core.dar[reg];
            let res = common::and_8(core, dst, v);
            set_reg(core, reg, merge(dst, res, 8));
            Ok(Cycles(12))
        },
    }
}

/// What `and_8_er_pcix` does: the core goes from `c0` to `c1` and `r` comes back.
pub open spec fn and_8_er_pcix_effect(c0: ConfiguredCore, c1: ConfiguredCore, r: Result<Cycles>) -> bool {
    &&& exists|mid: ConfiguredCore, src: Result<u32>|
            #[trigger] operator::pcix_8_rel(c0, mid, src) && match src {
                Err(e) => r == Err::<Cycles, Exception>(e) && c1 == mid,
                Ok(v) => {
                    let reg = ir_dx(mid.ir);
                    let o = common::and_8_outcome(mid, mid.dar[reg], v);
                    &&& r == Ok::<Cycles, Exception>(Cycles(14))
                    &&& reg_set(o.0, c1, reg, merged(mid.dar[reg], o.1, 8))
                },
            }
}

pub fn and_8_er_pcix(core: &mut ConfiguredCore) -> (r: Result<Cycles>)
    requires
        old(core).wf(),
    ensures
        final(core).wf(),
        and_8_er_pcix_effect(*old(core), *final(core), r),
{
    let ghost c0 = *core;
    let src = operator::pcix_8(core);
    let ghost mid = *core;
    assert(operator::pcix_8_rel(c0, mid, src));
    match src {
        Err(e) => Err(e),
        Ok(v) => {
            let reg = reg_dx(core.ir);
            let dst = core.dar[reg];
            let res = common::and_8(core, dst, v);
            set_reg(core, reg, merge(dst, res, 8));
            Ok(Cycles(14))
        },
    }
}

/// What `and_8_er_imm` does: the core goes from `c0` to `c1` and `r` comes back.
pub open spec fn and_8_er_imm_effect(c0: ConfiguredCore, c1: ConfiguredCore, r: Result<Cycles>) -> bool {
    &&& exists|mid: ConfiguredCore, src: Result<u32>|
            #[trigger] operator::imm_8_rel(c0, mid, src) && match src {
                Err(e) => r == Err::<Cycles, Exception>(e) && c1 == mid,
                Ok(v) => {
                    let reg = ir_dx(mid.ir);
                    let o = common::and_8_outcome(mid, mid.dar[reg], v);
                    &&& r == Ok::<Cycles, Exception>(Cycles(10))
                    &&& reg_set(o.0, c1, reg, merged(mid.dar[reg], o.1, 8))
                },
            }
}

pub fn and_8_er_imm(core: &mut ConfiguredCore) -> (r: Result<Cycles>)
    requires
        old(core).wf(),
    ensures
        final(core).wf(),
        and_8_er_imm_effect(*old(core), *final(core), r),
{
    let ghost c0 = *core;
    let src = operator::imm_8(core);
    let ghost mid = *core;
    assert(operator::imm_8_rel(c0, mid, src));
    match src {
        Err(e) => Err(e),
        Ok(v) => {
            let reg = reg_dx(core.ir);
            let dst = core.dar[reg];
            let res = common::and_8(core, dst, v);
            set_reg(core, reg, merge(dst, res, 8));
            Ok(Cycles(10))
        },
    }
}

/// What `and_8_re_ai` does: the core goes from `c0` to `c1` and `r` comes back.
pub open spec fn and_8_re_ai_effect(c0: ConfiguredCore, c1: ConfiguredCore, r: Result<Cycles>) -> bool {
    &&& exists|m1: ConfiguredCore, src: Result<u32>|
            #[trigger] operator::dx_rel(c0, m1, src) && match src {
                Err(e) => r == Err::<Cycles, Exception>(e) && c1 == m1,
                Ok(v) => exists|m2: ConfiguredCore, d: Result<(u32, u32)>|
                    #[trigger] operator::ea_ay_ai_8_rel(m1, m2, d) && match d {
                        Err(e) => r == Err::<Cycles, Exception>(e) && c1 == m2,
                        Ok((dv, ea)) => {
                            let o = common::and_8_outcome(m2, dv, v);
                            stored(o.0, c1, 8, ea, merged(dv, o.1, 8), r, 12)
                        },
                    },
            }
}

pub fn and_8_re_ai(core: &mut ConfiguredCore) -> (r: Result<Cycles>)
    requires
        old(core).wf(),
    ensures
        final(core).wf(),
        and_8_re_ai_effect(*old(core), *final(core), r),
{
    let ghost c0 = *core;
    let src = operator::dx(core);
    let ghost m1 = *core;
    assert(operator::dx_rel(c0, m1, src));
    let v = match src {
        Err(e) => {
            return Err(e);
        },
        Ok(v) => v,
    };
    let d = operator::ea_ay_ai_8(core);
    let ghost m2 = *core;
    assert(operator::ea_ay_ai_8_rel(m1, m2, d));
    let (dv, ea) = match d {
        Err(e) => {
            return Err(e);
        },
        Ok(p) => p,
    };
    let res = common::and_8(core, dv, v);
    store(core, 8, ea, merge(dv, res, 8), 12)
}

/// What `and_8_re_pi` does: the core goes from `c0` to `c1` and `r` comes back.
pub open spec fn and_8_re_pi_effect(c0: ConfiguredCore, c1: ConfiguredCore, r: Result<Cycles>) -> bool {
    &&& exists|m1: ConfiguredCore, src: Result<u32>|
            #[trigger] operator::dx_rel(c0, m1, src) && match src {
                Err(e) => r == Err::<Cycles, Exception>(e) && c1 == m1,
                Ok(v) => exists|m2: ConfiguredCore, d: Result<(u32, u32)>|
                    #[trigger] operator::ea_ay_pi_8_rel(m1, m2, d) && match d {
                        Err(e) => r == Err::<Cycles, Exception>(e) && c1 == m2,
                        Ok((dv, ea)) => {
                            let o = common::and_8_outcome(m2, dv, v);
                            stored(o.0, c1, 8, ea, merged(dv, o.1, 8), r, 12)
                        },
                    },
            }
}

pub fn and_8_re_pi(core: &mut ConfiguredCore) -> (r: Result<Cycles>)
    requires
        old(core).wf(),
    ensures
        final(core).wf(),
        and_8_re_pi_effect(*old(core), *final(core), r),
{
    let ghost c0 = *core;
    let src = operator::dx(core);
    let ghost m1 = *core;
    assert(operator::dx_rel(c0, m1, src));
    let v = match src {
        Err(e) => {
            return Err(e);
        },
        Ok(v) => v,
    };
    let d = operator::ea_ay_pi_8(core);
    let ghost m2 = *core;
    assert(operator::ea_ay_pi_8_rel(m1, m2, d));
    let (dv, ea) = match d {
        Err(e) => {
            return Err(e);
        },
        Ok(p) => p,
    };
    let res = common::and_8(core, dv, v);
    store(core, 8, ea, merge(dv, res, 8), 12)
}

/// What `and_8_re_pd` does: the core goes from `c0` to `c1` and `r` comes back.
pub open spec fn and_8_re_pd_effect(c0: ConfiguredCore, c1: ConfiguredCore, r: Result<Cycles>) -> bool {
    &&& exists|m1: ConfiguredCore, src: Result<u32>|
            #[trigger] operator::dx_rel(c0, m1, src) && match src {
                Err(e) => r == Err::<Cycles, Exception>(e) && c1 == m1,
                Ok(v) => exists|m2: ConfiguredCore, d: Result<(u32, u32)>|
                    #[trigger] operator::ea_ay_pd_8_rel(m1, m2, d) && match d {
                        Err(e) => r == Err::<Cycles, Exception>(e) && c1 == m2,
                        Ok((dv, ea)) => {
                            let o = common::and_8_outcome(m2, dv, v);
                            stored(o.0, c1, 8, ea, merged(dv, o.1, 8), r, 14)
                        },
                    },
            }
}

pub fn and_8_re_pd(core: &mut ConfiguredCore) -> (r: Result<Cycles>)
    requires
        old(core).wf(),
    ensures
        final(core).wf(),
        and_8_re_pd_effect(*old(core), *final(core), r),
{
    let ghost c0 = *core;
    let src = operator::dx(core);
    let ghost m1 = *core;
    assert(operator::dx_rel(c0, m1, src));
    let v = match src {
        Err(e) => {
            return Err(e);
        },
        Ok(v) => v,
    };
    let d = operator::ea_ay_pd_8(core);
    let ghost m2 = *core;
    assert(operator::ea_ay_pd_8_rel(m1, m2, d));
    let (dv, ea) = match d {
        Err(e) => {
            return Err(e);
        },
        Ok(p) => p,
    };
    let res = common::and_8(core, dv, v);
    store(core, 8, ea, merge(dv, res, 8), 14)
}

/// What `and_8_re_di` does: the core goes from `c0` to `c1` and `r` comes back.
pub open spec fn and_8_re_di_effect(c0: ConfiguredCore, c1: ConfiguredCore, r: Result<Cycles>) -> bool {
    &&& exists|m1: ConfiguredCore, src: Result<u32>|
            #[trigger] operator::dx_rel(c0, m1, src) && match src {
                Err(e) => r == Err::<Cycles, Exception>(e) && c1 == m1,
                Ok(v) => exists|m2: ConfiguredCore, d: Result<(u32, u32)>|
                    #[trigger] operator::ea_ay_di_8_rel(m1, m2, d) && match d {
                        Err(e) => r == Err::<Cycles, Exception>(e) && c1 == m2,
                        Ok((dv, ea)) => {
                            let o = common::and_8_outcome(m2, dv, v);
                            stored(o.0, c1, 8, ea, merged(dv, o.1, 8), r, 16)
                        },
                    },
            }
}

pub fn and_8_re_di(core: &mut ConfiguredCore) -> (r: Result<Cycles>)
    requires
        old(core).wf(),
    ensures
        final(core).wf(),
        and_8_re_di_effect(*old(core), *final(core), r),
{
    let ghost c0 = *core;
    let src = operator::dx(core);
    let ghost m1 = *core;
    assert(operator::dx_rel(c0, m1, src));
    let v = match src {
        Err(e) => {
            return Err(e);
        },
        Ok(v) => v,
    };
    let d = operator::ea_ay_di_8(core);
    let ghost m2 = *core;
    assert(operator::ea_ay_di_8_rel(m1, m2, d));
    let (dv, ea) = match d {
        Err(e) => {
            return Err(e);
        },
        Ok(p) => p,
    };
    let res = common::and_8(core, dv, v);
    store(core, 8, ea, merge(dv, res, 8), 16)
}

/// What `and_8_re_ix` does: the core goes from `c0` to `c1` and `r` comes back.
pub open spec fn and_8_re_ix_effect(c0: ConfiguredCore, c1: ConfiguredCore, r: Result<Cycles>) -> bool {
    &&& exists|m1: ConfiguredCore, src: Result<u32>|
            #[trigger] operator::dx_rel(c0, m1, src) && match src {
                Err(e) => r == Err::<Cycles, Exception>(e) && c1 == m1,
                Ok(v) => exists|m2: ConfiguredCore, d: Result<(u32, u32)>|
                    #[trigger] operator::ea_ay_ix_8_rel(m1, m2, d) && match d {
                        Err(e) => r == Err::<Cycles, Exception>(e) && c1 == m2,
                        Ok((dv, ea)) => {
                            let o = common::and_8_outcome(m2, dv, v);
                            stored(o.0, c1, 8, ea, merged(dv, o.1, 8), r, 18)
                        },
                    },
            }
}

pub fn and_8_re_ix(core: &mut ConfiguredCore) -> (r: Result<Cycles>)
    requires
        old(core).wf(),
    ensures
        final(core).wf(),
        and_8_re_ix_effect(*old(core), *final(core), r),
{
    let ghost c0 = *core;
    let src = operator::dx(core);
    let ghost m1 = *core;
    assert(operator::dx_rel(c0, m1, src));
    let v = match src {
        Err(e) => {
            return Err(e);
        },
        Ok(v) => v,
    };
    let d = operator::ea_ay_ix_8(core);
    let ghost m2 = *core;
    assert(operator::ea_ay_ix_8_rel(m1, m2, d));
    let (dv, ea) = match d {
        Err(e) => {
            return Err(e);
        },
        Ok(p) => p,
    };
    let res = common::and_8(core, dv, v);
    store(core, 8, ea, merge(dv, res, 8), 18)
}

/// What `and_8_re_aw` does: the core goes from `c0` to `c1` and `r` comes back.
pub open spec fn and_8_re_aw_effect(c0: ConfiguredCore, c1: ConfiguredCore, r: Result<Cycles>) -> bool {
    &&& exists|m1: ConfiguredCore, src: Result<u32>|
            #[trigger] operator::dx_rel(c0, m1, src) && match src {
                Err(e) => r == Err::<Cycles, Exception>(e) && c1 == m1,
                Ok(v) => exists|m2: ConfiguredCore, d: Result<(u32, u32)>|
                    #[trigger] operator::ea_aw_8_rel(m1, m2, d) && match d {
                        Err(e) => r == Err::<Cycles, Exception>(e) && c1 == m2,
                        Ok((dv, ea)) => {
                            let o = common::and_8_outcome(m2, dv, v);
                            stored(o.0, c1, 8, ea, merged(dv, o.1, 8), r, 16)
                        },
                    },
            }
}

pub fn and_8_re_aw(core: &mut ConfiguredCore) -> (r: Result<Cycles>)
    requires
        old(core).wf(),
    ensures
        final(core).wf(),
        and_8_re_aw_effect(*old(core), *final(core), r),
{
    let ghost c0 = *core;
    let src = operator::dx(core);
    let ghost m1 = *core;
    assert(operator::dx_rel(c0, m1, src));
    let v = match src {
        Err(e) => {
            return Err(e);
        },
        Ok(v) => v,
    };
    let d = operator::ea_aw_8(core);
    let ghost m2 = *core;
    assert(operator::ea_aw_8_rel(m1, m2, d));
    let (dv, ea) = match d {
        Err(e) => {
            return Err(e);
        },
        Ok(p) => p,
    };
    let res = common::and_8(core, dv, v);
    store(core, 8, ea, merge(dv, res, 8), 16)
}

/// What `and_8_re_al` does: the core goes from `c0` to `c1` and `r` comes back.
pub open spec fn and_8_re_al_effect(c0: ConfiguredCore, c1: ConfiguredCore, r: Result<Cycles>) -> bool {
    &&& exists|m1: ConfiguredCore, src: Result<u32>|
            #[trigger] operator::dx_rel(c0, m1, src) && match src {
                Err(e) => r == Err::<Cycles, Exception>(e) && c1 == m1,
                Ok(v) => exists|m2: ConfiguredCore, d: Result<(u32, u32)>|
                    #[trigger] operator::ea_al_8_rel(m1, m2, d) && match d {
                        Err(e) => r == Err::<Cycles, Exception>(e) && c1 == m2,
                        Ok((dv, ea)) => {
                            let o = common::and_8_outcome(m2, dv, v);
                            stored(o.0, c1, 8, ea, merged(dv, o.1, 8), r, 20)
                        },
                    },
            }
}

pub fn and_8_re_al(core: &mut ConfiguredCore) -> (r: Result<Cycles>)
    requires
        old(core).wf(),
    ensures
        final(core).wf(),
        and_8_re_al_effect(*old(core), *final(core), r),
{
    let ghost c0 = *core;
    let src = operator::dx(core);
    let ghost m1 = *core;
    assert(operator::dx_rel(c0, m1, src));
    let v = match src {
        Err(e) => {
            return Err(e);
        },
        Ok(v) => v,
    };
    let d = operator::ea_al_8(core);
    let ghost m2 = *core;
    assert(operator::ea_al_8_rel(m1, m2, d));
    let (dv, ea) = match d {
        Err(e) => {
            return Err(e);
        },
        Ok(p) => p,
    };
    let res = common::and_8(core, dv, v);
    store(core, 8, ea, merge(dv, res, 8), 20)
}

/// What `and_16_er_dn` does: the core goes from `c0` to `c1` and `r` comes back.
pub open spec fn and_16_er_dn_effect(c0: ConfiguredCore, c1: ConfiguredCore, r: Result<Cycles>) -> bool {
    &&& exists|mid: ConfiguredCore, src: Result<u32>|
            #[trigger] operator::dy_rel(c0, mid, src) && match src {
                Err(e) => r == Err::<Cycles, Exception>(e) && c1 == mid,
                Ok(v) => {
                    let reg = ir_dx(mid.ir);
                    let o = common::and_16_outcome(mid, mid.dar[reg], v);
                    &&& r == Ok::<Cycles, Exception>(Cycles(4))
                    &&& reg_set(o.0, c1, reg, merged(mid.dar[reg], o.1, 16))
                },
            }
}

pub fn and_16_er_dn(core: &mut ConfiguredCore) -> (r: Result<Cycles>)
    requires
        old(core).wf(),
    ensures
        final(core).wf(),
        and_16_er_dn_effect(*old(core), *final(core), r),
{
    let ghost c0 = *core;
    let src = operator::dy(core);
    let ghost mid = *core;
    assert(operator::dy_rel(c0, mid, src));
    match src {
        Err(e) => Err(e),
        Ok(v) => {
            let reg = reg_dx(core.ir);
            let dst = core.dar[reg];
            let res = common::and_16(core, dst, v);
            set_reg(core, reg, merge(dst, res, 16));
            Ok(Cycles(4))
        },
    }
}

/// What `and_16_er_ai` does: the core goes from `c0` to `c1` and `r` comes back.
pub open spec fn and_16_er_ai_effect(c0: ConfiguredCore, c1: ConfiguredCore, r: Result<Cycles>) -> bool {
    &&& exists|mid: ConfiguredCore, src: Result<u32>|
            #[trigger] operator::ay_ai_16_rel(c0, mid, src) && match src {
                Err(e) => r == Err::<Cycles, Exception>(e) && c1 == mid,
                Ok(v) => {
                    let reg = ir_dx(mid.ir);
                    let o = common::and_16_outcome(mid, mid.dar[reg], v);
                    &&& r == Ok::<Cycles, Exception>(Cycles(8))
                    &&& reg_set(o.0, c1, reg, merged(mid.dar[reg], o.1, 16))
                },
            }
}

pub fn and_16_er_ai(core: &mut ConfiguredCore) -> (r: Result<Cycles>)
    requires
        old(core).wf(),
    ensures
        final(core).wf(),
        and_16_er_ai_effect(*old(core), *final(core), r),
{
    let ghost c0 = *core;
    let src = operator::ay_ai_16(core);
    let ghost mid = *core;
    assert(operator::ay_ai_16_rel(c0, mid, src));
    match src {
        Err(e) => Err(e),
        Ok(v) => {
            let reg = reg_dx(core.ir);
            let dst = core.dar[reg];
            let res = common::and_16(core, dst, v);
            set_reg(core, reg, merge(dst, res, 16));
            Ok(Cycles(8))
        },
    }
}

/// What `and_16_er_pi` does: the core goes from `c0` to `c1` and `r` comes back.
pub open spec fn and_16_er_pi_effect(c0: ConfiguredCore, c1: ConfiguredCore, r: Result<Cycles>) -> bool {
    &&& exists|mid: ConfiguredCore, src: Result<u32>|
            #[trigger] operator::ay_pi_16_rel(c0, mid, src) && match src {
                Err(e) => r == Err::<Cycles, Exception>(e) && c1 == mid,
                Ok(v) => {
                    let reg = ir_dx(mid.ir);
                    let o = common::and_16_outcome(mid, mid.dar[reg], v);
                    &&& r == Ok::<Cycles, Exception>(Cycles(8))
                    &&& reg_set(o.0, c1, reg, merged(mid.dar[reg], o.1, 16))
                },
            }
}

pub fn and_16_er_pi(core: &mut ConfiguredCore) -> (r: Result<Cycles>)
    requires
        old(core).wf(),
    ensures
        final(core).wf(),
        and_16_er_pi_effect(*old(core), *final(core), r),
{
    let ghost c0 = *core;
    let src = operator::ay_pi_16(core);
    let ghost mid = *core;
    assert(operator::ay_pi_16_rel(c0, mid, src));
    match src {
        Err(e) => Err(e),
        Ok(v) => {
            let reg = reg_dx(core.ir);
            let dst = core.dar[reg];
            let res = common::and_16(core, dst, v);
            set_reg(core, reg, merge(dst, res, 16));
            Ok(Cycles(8))
        },
    }
}

/// What `and_16_er_pd` does: the core goes from `c0` to `c1` and `r` comes back.
pub open spec fn and_16_er_pd_effect(c0: ConfiguredCore, c1: ConfiguredCore, r: Result<Cycles>) -> bool {
    &&& exists|mid: ConfiguredCore, src: Result<u32>|
            #[trigger] operator::ay_pd_16_rel(c0, mid, src) && match src {
                Err(e) => r == Err::<Cycles, Exception>(e) && c1 == mid,
                Ok(v) => {
                    let reg = ir_dx(mid.ir);
                    let o = common::and_16_outcome(mid, mid.dar[reg], v);
                    &&& r == Ok::<Cycles, Exception>(Cycles(10))
                    &&& reg_set(o.0, c1, reg, merged(mid.dar[reg], o.1, 16))
                },
            }
}

pub fn and_16_er_pd(core: &mut ConfiguredCore) -> (r: Result<Cycles>)
    requires
        old(core).wf(),
    ensures
        final(core).wf(),
        and_16_er_pd_effect(*old(core), *final(core), r),
{
    let ghost c0 = *core;
    let src = operator::ay_pd_16(core);
    let ghost mid = *core;
    assert(operator::ay_pd_16_rel(c0, mid, src));
    match src {
        Err(e) => Err(e),
        Ok(v) => {
            let reg = reg_dx(core.ir);
            let dst = core.dar[reg];
            let res = common::and_16(core, dst, v);
            set_reg(core, reg, merge(dst, res, 16));
            Ok(Cycles(10))
        },
    }
}

/// What `and_16_er_di` does: the core goes from `c0` to `c1` and `r` comes back.
pub open spec fn and_16_er_di_effect(c0: ConfiguredCore, c1: ConfiguredCore, r: Result<Cycles>) -> bool {
    &&& exists|mid: ConfiguredCore, src: Result<u32>|
            #[trigger] operator::ay_di_16_rel(c0, mid, src) && match src {
                Err(e) => r == Err::<Cycles, Exception>(e) && c1 == mid,
                Ok(v) => {
                    let reg = ir_dx(mid.ir);
                    let o = common::and_16_outcome(mid, mid.dar[reg], v);
                    &&& r == Ok::<Cycles, Exception>(Cycles(12))
                    &&& reg_set(o.0, c1, reg, merged(mid.dar[reg], o.1, 16))
                },
            }
}

pub fn and_16_er_di(core: &mut ConfiguredCore) -> (r: Result<Cycles>)
    requires
        old(core).wf(),
    ensures
        final(core).wf(),
        and_16_er_di_effect(*old(core), *final(core), r),
{
    let ghost c0 = *core;
    let src = operator::ay_di_16(core);
    let ghost mid = *core;
    assert(operator::ay_di_16_rel(c0, mid, src));
    match src {
        Err(e) => Err(e),
        Ok(v) => {
            let reg = reg_dx(core.ir);
            let dst = core.dar[reg];
            let res = common::and_16(core, dst, v);
            set_reg(core, reg, merge(dst, res, 16));
            Ok(Cycles(12))
        },
    }
}

/// What `and_16_er_ix` does: the core goes from `c0` to `c1` and `r` comes back.
pub open spec fn and_16_er_ix_effect(c0: ConfiguredCore, c1: ConfiguredCore, r: Result<Cycles>) -> bool {
    &&& exists|mid: ConfiguredCore, src: Result<u32>|
            #[trigger] operator::ay_ix_16_rel(c0, mid, src) && match src {
                Err(e) => r == Err::<Cycles, Exception>(e) && c1 == mid,
                Ok(v) => {
                    let reg = ir_dx(mid.ir);
                    let o = common::and_16_outcome(mid, mid.dar[reg], v);
                    &&& r == Ok::<Cycles, Exception>(Cycles(14))
                    &&& reg_set(o.0, c1, reg, merged(mid.dar[reg], o.1, 16))
                },
            }
}

pub fn and_16_er_ix(core: &mut ConfiguredCore) -> (r: Result<Cycles>)
    requires
        old(core).wf(),
    ensures
        final(core).wf(),
        and_16_er_ix_effect(*old(core), *final(core), r),
{
    let ghost c0 = *core;
    let src = operator::ay_ix_16(core);
    let ghost mid = *core;
    assert(operator::ay_ix_16_rel(c0, mid, src));
    match src {
        Err(e) => Err(e),
        Ok(v) => {
            let reg = reg_dx(core.ir);
            let dst = core.dar[reg];
            let res = common::and_16(core, dst, v);
            set_reg(core, reg, merge(dst, res, 16));
            Ok(Cycles(14))
        },
    }
}

/// What `and_16_er_aw` does: the core goes from `c0` to `c1` and `r` comes back.
pub open spec fn and_16_er_aw_effect(c0: ConfiguredCore, c1: ConfiguredCore, r: Result<Cycles>) -> bool {
    &&& exists|mid: ConfiguredCore, src: Result<u32>|
            #[trigger] operator::aw_16_rel(c0, mid, src) && match src {
                Err(e) => r == Err::<Cycles, Exception>(e) && c1 == mid,
                Ok(v) => {
                    let reg = ir_dx(mid.ir);
                    let o = common::and_16_outcome(mid, mid.dar[reg], v);
                    &&& r == Ok::<Cycles, Exception>(Cycles(12))
                    &&& reg_set(o.0, c1, reg, merged(mid.dar[reg], o.1, 16))
                },
            }
}

pub fn and_16_er_aw(core: &mut ConfiguredCore) -> (r: Result<Cycles>)
    requires
        old(core).wf(),
    ensures
        final(core).wf(),
        and_16_er_aw_effect(*old(core), *final(core), r),
{
    let ghost c0 = *core;
    let src = operator::aw_16(core);
    let ghost mid = *core;
    assert(operator::aw_16_rel(c0, mid, src));
    match src {
        Err(e) => Err(e),
        Ok(v) => {
            let reg = reg_dx(core.ir);
            let dst = core.dar[reg];
            let res = common::and_16(core, dst, v);
            set_reg(core, reg, merge(dst, res, 16));
            Ok(Cycles(12))
        },
    }
}

/// What `and_16_er_al` does: the core goes from `c0` to `c1` and `r` comes back.
pub open spec fn and_16_er_al_effect(c0: ConfiguredCore, c1: ConfiguredCore, r: Result<Cycles>) -> bool {
    &&& exists|mid: ConfiguredCore, src: Result<u32>|
            #[trigger] operator::al_16_rel(c0, mid, src) && match src {
                Err(e) => r == Err::<Cycles, Exception>(e) && c1 == mid,
                Ok(v) => {
                    let reg = ir_dx(mid.ir);
                    let o = common::and_16_outcome(mid, mid.dar[reg], v);
                    &&& r == Ok::<Cycles, Exception>(Cycles(16))
                    &&& reg_set(o.0, c1, reg, merged(mid.dar[reg], o.1, 16))
                },
            }
}

pub fn and_16_er_al(core: &mut ConfiguredCore) -> (r: Result<Cycles>)
    requires
        old(core).wf(),
    ensures
        final(core).wf(),
        and_16_er_al_effect(*old(core), *final(core), r),
{
    let ghost c0 = *core;
    let src = operator::al_16(core);
    let ghost mid = *core;
    assert(operator::al_16_rel(c0, mid, src));
    match src {
        Err(e) => Err(e),
        Ok(v) => {
            let reg = reg_dx(core.ir);
            let dst = core.dar[reg];
            let res = common::and_16(core, dst, v);
            set_reg(core, reg, merge(dst, res, 16));
            Ok(Cycles(16))
        },
    }
}

/// What `and_16_er_pcdi` does: the core goes from `c0` to `c1` and `r` comes back.
pub open spec fn and_16_er_pcdi_effect(c0: ConfiguredCore, c1: ConfiguredCore, r: Result<Cycles>) -> bool {
    &&& exists|mid: ConfiguredCore, src: Result<u32>|
            #[trigger] operator::pcdi_16_rel(c0, mid, src) && match src {
                Err(e) => r == Err::<Cycles, Exception>(e) && c1 == mid,
                Ok(v) => {
                    let reg = ir_dx(mid.ir);
                    let o = common::and_16_outcome(mid, mid.dar[reg], v);
                    &&& r == Ok::<Cycles, Exception>(Cycles(12))
                    &&& reg_set(o.0, c1, reg, merged(mid.dar[reg], o.1, 16))
                },
            }
}

pub fn and_16_er_pcdi(core: &mut ConfiguredCore) -> (r: Result<Cycles>)
    requires
        old(core).wf(),
    ensures
        final(core).wf(),
        and_16_er_pcdi_effect(*old(core), *final(core), r),
{
    let ghost c0 = *core;
    let src = operator::pcdi_16(core);
    let ghost mid = *core;
    assert(operator::pcdi_16_rel(c0, mid, src));
    match src {
        Err(e) => Err(e),
        Ok(v) => {
            let reg = reg_dx(core.ir);
            let dst = core.dar[reg];
            let res = common::and_16(core, dst, v);
            set_reg(core, reg, merge(dst, res, 16));
            Ok(Cycles(12))
        },
    }
}

/// What `and_16_er_pcix` does: the core goes from `c0` to `c1` and `r` comes back.
pub open spec fn and_16_er_pcix_effect(c0: ConfiguredCore, c1: ConfiguredCore, r: Result<Cycles>) -> bool {
    &&& exists|mid: ConfiguredCore, src: Result<u32>|
            #[trigger] operator::pcix_16_rel(c0, mid, src) && match src {
                Err(e) => r == Err::<Cycles, Exception>(e) && c1 == mid,
                Ok(v) => {
                    let reg = ir_dx(mid.ir);
                    let o = common::and_16_outcome(mid, mid.dar[reg], v);
                    &&& r == Ok::<Cycles, Exception>(Cycles(14))
                    &&& reg_set(o.0, c1, reg, merged(mid.dar[reg], o.1, 16))
                },
            }
}

pub fn and_16_er_pcix(core: &mut ConfiguredCore) -> (r: Result<Cycles>)
    requires
        old(core).wf(),
    ensures
        final(core).wf(),
        and_16_er_pcix_effect(*old(core), *final(core), r),
{
    let ghost c0 = *core;
    let src = operator::pcix_16(core);
    let ghost mid = *core;
    assert(operator::pcix_16_rel(c0, mid, src));
    match src {
        Err(e) => Err(e),
        Ok(v) => {
            let reg = reg_dx(core.ir);
            let dst = core.dar[reg];
            let res = common::and_16(core, dst, v);
            set_reg(core, reg, merge(dst, res, 16));
            Ok(Cycles(14))
        },
    }
}

/// What `and_16_er_imm` does: the core goes from `c0` to `c1` and `r` comes back.
pub open spec fn and_16_er_imm_effect(c0: ConfiguredCore, c1: ConfiguredCore, r: Result<Cycles>) -> bool {
    &&& exists|mid: ConfiguredCore, src: Result<u32>|
            #[trigger] operator::imm_16_rel(c0, mid, src) && match src {
                Err(e) => r == Err::<Cycles, Exception>(e) && c1 == mid,
                Ok(v) => {
                    let reg = ir_dx(mid.ir);
                    let o = common::and_16_outcome(mid, mid.dar[reg], v);
                    &&& r == Ok::<Cycles, Exception>(Cycles(10))
                    &&& reg_set(o.0, c1, reg, merged(mid.dar[reg], o.1, 16))
                },
            }
}

pub fn and_16_er_imm(core: &mut ConfiguredCore) -> (r: Result<Cycles>)
    requires
        old(core).wf(),
    ensures
        final(core).wf(),
        and_16_er_imm_effect(*old(core), *final(core), r),
{
    let ghost c0 = *core;
    let src = operator::imm_16(core);
    let ghost mid = *core;
    assert(operator::imm_16_rel(c0, mid, src));
    match src {
        Err(e) => Err(e),
        Ok(v) => {
            let reg = reg_dx(core.ir);
            let dst = core.dar[reg];
            let res = common::and_16(core, dst, v);
            set_reg(core, reg, merge(dst, res, 16));
            Ok(Cycles(10))
        },
    }
}

/// What `and_16_re_ai` does: the core goes from `c0` to `c1` and `r` comes back.
pub open spec fn and_16_re_ai_effect(c0: ConfiguredCore, c1: ConfiguredCore, r: Result<Cycles>) -> bool {
    &&& exists|m1: ConfiguredCore, src: Result<u32>|
            #[trigger] operator::dx_rel(c0, m1, src) && match src {
                Err(e) => r == Err::<Cycles, Exception>(e) && c1 == m1,
                Ok(v) => exists|m2: ConfiguredCore, d: Result<(u32, u32)>|
                    #[trigger] operator::ea_ay_ai_16_rel(m1, m2, d) && match d {
                        Err(e) => r == Err::<Cycles, Exception>(e) && c1 == m2,
                        Ok((dv, ea)) => {
                            let o = common::and_16_outcome(m2, dv, v);
                            stored(o.0, c1, 16, ea, merged(dv, o.1, 16), r, 12)
                        },
                    },
            }
}

pub fn and_16_re_ai(core: &mut ConfiguredCore) -> (r: Result<Cycles>)
    requires
        old(core).wf(),
    ensures
        final(core).wf(),
        and_16_re_ai_effect(*old(core), *final(core), r),
{
    let ghost c0 = *core;
    let src = operator::dx(core);
    let ghost m1 = *core;
    assert(operator::dx_rel(c0, m1, src));
    let v = match src {
        Err(e) => {
            return Err(e);
        },
        Ok(v) => v,
    };
    let d = operator::ea_ay_ai_16(core);
    let ghost m2 = *core;
    assert(operator::ea_ay_ai_16_rel(m1, m2, d));
    let (dv, ea) = match d {
        Err(e) => {
            return Err(e);
        },
        Ok(p) => p,
    };
    let res = common::and_16(core, dv, v);
    store(core, 16, ea, merge(dv, res, 16), 12)
}

/// What `and_16_re_pi` does: the core goes from `c0` to `c1` and `r` comes back.
pub open spec fn and_16_re_pi_effect(c0: ConfiguredCore, c1: ConfiguredCore, r: Result<Cycles>) -> bool {
    &&& exists|m1: ConfiguredCore, src: Result<u32>|
            #[trigger] operator::dx_rel(c0, m1, src) && match src {
                Err(e) => r == Err::<Cycles, Exception>(e) && c1 == m1,
                Ok(v) => exists|m2: ConfiguredCore, d: Result<(u32, u32)>|
                    #[trigger] operator::ea_ay_pi_16_rel(m1, m2, d) && match d {
                        Err(e) => r == Err::<Cycles, Exception>(e) && c1 == m2,
                        Ok((dv, ea)) => {
                            let o = common::and_16_outcome(m2, dv, v);
                            stored(o.0, c1, 16, ea, merged(dv, o.1, 16), r, 12)
                        },
                    },
            }
}

pub fn and_16_re_pi(core: &mut ConfiguredCore) -> (r: Result<Cycles>)
    requires
        old(core).wf(),
    ensures
        final(core).wf(),
        and_16_re_pi_effect(*old(core), *final(core), r),
{
    let ghost c0 = *core;
    let src = operator::dx(core);
    let ghost m1 = *core;
    assert(operator::dx_rel(c0, m1, src));
    let v = match src {
        Err(e) => {
            return Err(e);
        },
        Ok(v) => v,
    };
    let d = operator::ea_ay_pi_16(core);
    let ghost m2 = *core;
    assert(operator::ea_ay_pi_16_rel(m1, m2, d));
    let (dv, ea) = match d {
        Err(e) => {
            return Err(e);
        },
        Ok(p) => p,
    };
    let res = common::and_16(core, dv, v);
    store(core, 16, ea, merge(dv, res, 16), 12)
}

/// What `and_16_re_pd` does: the core goes from `c0` to `c1` and `r` comes back.
pub open spec fn and_16_re_pd_effect(c0: ConfiguredCore, c1: ConfiguredCore, r: Result<Cycles>) -> bool {
    &&& exists|m1: ConfiguredCore, src: Result<u32>|
            #[trigger] operator::dx_rel(c0, m1, src) && match src {
                Err(e) => r == Err::<Cycles, Exception>(e) && c1 == m1,
                Ok(v) => exists|m2: ConfiguredCore, d: Result<(u32, u32)>|
                    #[trigger] operator::ea_ay_pd_16_rel(m1, m2, d) && match d {
                        Err(e) => r == Err::<Cycles, Exception>(e) && c1 == m2,
                        Ok((dv, ea)) => {
                            let o = common::and_16_outcome(m2, dv, v);
                            stored(o.0, c1, 16, ea, merged(dv, o.1, 16), r, 14)
                        },
                    },
            }
}

pub fn and_16_re_pd(core: &mut ConfiguredCore) -> (r: Result<Cycles>)
    requires
        old(core).wf(),
    ensures
        final(core).wf(),
        and_16_re_pd_effect(*old(core), *final(core), r),
{
    let ghost c0 = *core;
    let src = operator::dx(core);
    let ghost m1 = *core;
    assert(operator::dx_rel(c0, m1, src));
    let v = match src {
        Err(e) => {
            return Err(e);
        },
        Ok(v) => v,
    };
    let d = operator::ea_ay_pd_16(core);
    let ghost m2 = *core;
    assert(operator::ea_ay_pd_16_rel(m1, m2, d));
    let (dv, ea) = match d {
        Err(e) => {
            return Err(e);
        },
        Ok(p) => p,
    };
    let res = common::and_16(core, dv, v);
    store(core, 16, ea, merge(dv, res, 16), 14)
}

/// What `and_16_re_di` does: the core goes from `c0` to `c1` and `r` comes back.
pub open spec fn and_16_re_di_effect(c0: ConfiguredCore, c1: ConfiguredCore, r: Result<Cycles>) -> bool {
    &&& exists|m1: ConfiguredCore, src: Result<u32>|
            #[trigger] operator::dx_rel(c0, m1, src) && match src {
                Err(e) => r == Err::<Cycles, Exception>(e) && c1 == m1,
                Ok(v) => exists|m2: ConfiguredCore, d: Result<(u32, u32)>|
                    #[trigger] operator::ea_ay_di_16_rel(m1, m2, d) && match d {
                        Err(e) => r == Err::<Cycles, Exception>(e) && c1 == m2,
                        Ok((dv, ea)) => {
                            let o = common::and_16_outcome(m2, dv, v);
                            stored(o.0, c1, 16, ea, merged(dv, o.1, 16), r, 16)
                        },
                    },
            }
}

pub fn and_16_re_di(core: &mut ConfiguredCore) -> (r: Result<Cycles>)
    requires
        old(core).wf(),
    ensures
        final(core).wf(),
        and_16_re_di_effect(*old(core), *final(core), r),
{
    let ghost c0 = *core;
    let src = operator::dx(core);
    let ghost m1 = *core;
    assert(operator::dx_rel(c0, m1, src));
    let v = match src {
        Err(e) => {
            return Err(e);
        },
        Ok(v) => v,
    };
    let d = operator::ea_ay_di_16(core);
    let ghost m2 = *core;
    assert(operator::ea_ay_di_16_rel(m1, m2, d));
    let (dv, ea) = match d {
        Err(e) => {
            return Err(e);
        },
        Ok(p) => p,
    };
    let res = common::and_16(core, dv, v);
    store(core, 16, ea, merge(dv, res, 16), 16)
}

/// What `and_16_re_ix` does: the core goes from `c0` to `c1` and `r` comes back.
pub open spec fn and_16_re_ix_effect(c0: ConfiguredCore, c1: ConfiguredCore, r: Result<Cycles>) -> bool {
    &&& exists|m1: ConfiguredCore, src: Result<u32>|
            #[trigger] operator::dx_rel(c0, m1, src) && match src {
                Err(e) => r == Err::<Cycles, Exception>(e) && c1 == m1,
                Ok(v) => exists|m2: ConfiguredCore, d: Result<(u32, u32)>|
                    #[trigger] operator::ea_ay_ix_16_rel(m1, m2, d) && match d {
                        Err(e) => r == Err::<Cycles, Exception>(e) && c1 == m2,
                        Ok((dv, ea)) => {
                            let o = common::and_16_outcome(m2, dv, v);
                            stored(o.0, c1, 16, ea, merged(dv, o.1, 16), r, 18)
                        },
                    },
            }
}

pub fn and_16_re_ix(core: &mut ConfiguredCore) -> (r: Result<Cycles>)
    requires
        old(core).wf(),
    ensures
        final(core).wf(),
        and_16_re_ix_effect(*old(core), *final(core), r),
{
    let ghost c0 = *core;
    let src = operator::dx(core);
    let ghost m1 = *core;
    assert(operator::dx_rel(c0, m1, src));
    let v = match src {
        Err(e) => {
            return Err(e);
        },
        Ok(v) => v,
    };
    let d = operator::ea_ay_ix_16(core);
    let ghost m2 = *core;
    assert(operator::ea_ay_ix_16_rel(m1, m2, d));
    let (dv, ea) = match d {
        Err(e) => {
            return Err(e);
        },
        Ok(p) => p,
    };
    let res = common::and_16(core, dv, v);
    store(core, 16, ea, merge(dv, res, 16), 18)
}

/// What `and_16_re_aw` does: the core goes from `c0` to `c1` and `r` comes back.
pub open spec fn and_16_re_aw_effect(c0: ConfiguredCore, c1: ConfiguredCore, r: Result<Cycles>) -> bool {
    &&& exists|m1: ConfiguredCore, src: Result<u32>|
            #[trigger] operator::dx_rel(c0, m1, src) && match src {
                Err(e) => r == Err::<Cycles, Exception>(e) && c1 == m1,
                Ok(v) => exists|m2: ConfiguredCore, d: Result<(u32, u32)>|
                    #[trigger] operator::ea_aw_16_rel(m1, m2, d) && match d {
                        Err(e) => r == Err::<Cycles, Exception>(e) && c1 == m2,
                        Ok((dv, ea)) => {
                            let o = common::and_16_outcome(m2, dv, v);
                            stored(o.0, c1, 16, ea, merged(dv, o.1, 16), r, 16)
                        },
                    },
            }
}

pub fn and_16_re_aw(core: &mut ConfiguredCore) -> (r: Result<Cycles>)
    requires
        old(core).wf(),
    ensures
        final(core).wf(),
        and_16_re_aw_effect(*old(core), *final(core), r),
{
    let ghost c0 = *core;
    let src = operator::dx(core);
    let ghost m1 = *core;
    assert(operator::dx_rel(c0, m1, src));
    let v = match src {
        Err(e) => {
            return Err(e);
        },
        Ok(v) => v,
    };
    let d = operator::ea_aw_16(core);
    let ghost m2 = *core;
    assert(operator::ea_aw_16_rel(m1, m2, d));
    let (dv, ea) = match d {
        Err(e) => {
            return Err(e);
        },
        Ok(p) => p,
    };
    let res = common::and_16(core, dv, v);
    store(core, 16, ea, merge(dv, res, 16), 16)
}

/// What `and_16_re_al` does: the core goes from `c0` to `c1` and `r` comes back.
pub open spec fn and_16_re_al_effect(c0: ConfiguredCore, c1: ConfiguredCore, r: Result<Cycles>) -> bool {
    &&& exists|m1: ConfiguredCore, src: Result<u32>|
            #[trigger] operator::dx_rel(c0, m1, src) && match src {
                Err(e) => r == Err::<Cycles, Exception>(e) && c1 == m1,
                Ok(v) => exists|m2: ConfiguredCore, d: Result<(u32, u32)>|
                    #[trigger] operator::ea_al_16_rel(m1, m2, d) && match d {
                        Err(e) => r == Err::<Cycles, Exception>(e) && c1 == m2,
                        Ok((dv, ea)) => {
                            let o = common::and_16_outcome(m2, dv, v);
                            stored(o.0, c1, 16, ea, merged(dv, o.1, 16), r, 20)
                        },
                    },
            }
}

pub fn and_16_re_al(core: &mut ConfiguredCore) -> (r: Result<Cycles>)
    requires
        old(core).wf(),
    ensures
        final(core).wf(),
        and_16_re_al_effect(*old(core), *final(core), r),
{
    let ghost c0 = *core;
    let src = operator::dx(core);
    let ghost m1 = *core;
    assert(operator::dx_rel(c0, m1, src));
    let v = match src {
        Err(e) => {
            return Err(e);
        },
        Ok(v) => v,
    };
    let d = operator::ea_al_16(core);
    let ghost m2 = *core;
    assert(operator::ea_al_16_rel(m1, m2, d));
    let (dv, ea) = match d {
        Err(e) => {
            return Err(e);
        },
        Ok(p) => p,
    };
    let res = common::and_16(core, dv, v);
    store(core, 16, ea, merge(dv, res, 16), 20)
}

/// What `and_32_er_dn` does: the core goes from `c0` to `c1` and `r` comes back.
pub open spec fn and_32_er_dn_effect(c0: ConfiguredCore, c1: ConfiguredCore, r: Result<Cycles>) -> bool {
    &&& exists|mid: ConfiguredCore, src: Result<u32>|
            #[trigger] operator::dy_rel(c0, mid, src) && match src {
                Err(e) => r == Err::<Cycles, Exception>(e) && c1 == mid,
                Ok(v) => {
                    let reg = ir_dx(mid.ir);
                    let o = common::and_32_outcome(mid, mid.dar[reg], v);
                    &&& r == Ok::<Cycles, Exception>(Cycles(6))
                    &&& reg_set(o.0, c1, reg, merged(mid.dar[reg], o.1, 32))
                },
            }
}

pub fn and_32_er_dn(core: &mut ConfiguredCore) -> (r: Result<Cycles>)
    requires
        old(core).wf(),
    ensures
        final(core).wf(),
        and_32_er_dn_effect(*old(core), *final(core), r),
{
    let ghost c0 = *core;
    let src = operator::dy(core);
    let ghost mid = *core;
    assert(operator::dy_rel(c0, mid, src));
    match src {
        Err(e) => Err(e),
        Ok(v) => {
            let reg = reg_dx(core.ir);
            let dst = core.dar[reg];
            let res = common::and_32(core, dst, v);
            set_reg(core, reg, merge(dst, res, 32));
            Ok(Cycles(6))
        },
    }
}

/// What `and_32_er_ai` does: the core goes from `c0` to `c1` and `r` comes back.
pub open spec fn and_32_er_ai_effect(c0: ConfiguredCore, c1: ConfiguredCore, r: Result<Cycles>) -> bool {
    &&& exists|mid: ConfiguredCore, src: Result<u32>|
            #[trigger] operator::ay_ai_32_rel(c0, mid, src) && match src {
                Err(e) => r == Err::<Cycles, Exception>(e) && c1 == mid,
                Ok(v) => {
                    let reg = ir_dx(mid.ir);
                    let o = common::and_32_outcome(mid, mid.dar[reg], v);
                    &&& r == Ok::<Cycles, Exception>(Cycles(14))
                    &&& reg_set(o.0, c1, reg, merged(mid.dar[reg], o.1, 32))
                },
            }
}

pub fn and_32_er_ai(core: &mut ConfiguredCore) -> (r: Result<Cycles>)
    requires
        old(core).wf(),
    ensures
        final(core).wf(),
        and_32_er_ai_effect(*old(core), *final(core), r),
{
    let ghost c0 = *core;
    let src = operator::ay_ai_32(core);
    let ghost mid = *core;
    assert(operator::ay_ai_32_rel(c0, mid, src));
    match src {
        Err(e) => Err(e),
        Ok(v) => {
            let reg = reg_dx(core.ir);
            let dst = core.dar[reg];
            let res = common::and_32(core, dst, v);
            set_reg(core, reg, merge(dst, res, 32));
            Ok(Cycles(14))
        },
    }
}

/// What `and_32_er_pi` does: the core goes from `c0` to `c1` and `r` comes back.
pub open spec fn and_32_er_pi_effect(c0: ConfiguredCore, c1: ConfiguredCore, r: Result<Cycles>) -> bool {
    &&& exists|mid: ConfiguredCore, src: Result<u32>|
            #[trigger] operator::ay_pi_32_rel(c0, mid, src) && match src {
                Err(e) => r == Err::<Cycles, Exception>(e) && c1 == mid,
                Ok(v) => {
                    let reg = ir_dx(mid.ir);
                    let o = common::and_32_outcome(mid, mid.dar[reg], v);
                    &&& r == Ok::<Cycles, Exception>(Cycles(14))
                    &&& reg_set(o.0, c1, reg, merged(mid.dar[reg], o.1, 32))
                },
            }
}

pub fn and_32_er_pi(core: &mut ConfiguredCore) -> (r: Result<Cycles>)
    requires
        old(core).wf(),
    ensures
        final(core).wf(),
        and_32_er_pi_effect(*old(core), *final(core), r),
{
    let ghost c0 = *core;
    let src = operator::ay_pi_32(core);
    let ghost mid = *core;
    assert(operator::ay_pi_32_rel(c0, mid, src));
    match src {
        Err(e) => Err(e),
        Ok(v) => {
            let reg = reg_dx(core.ir);
            let dst = core.dar[reg];
            let res = common::and_32(core, dst, v);
            set_reg(core, reg, merge(dst, res, 32));
            Ok(Cycles(14))
        },
    }
}

/// What `and_32_er_pd` does: the core goes from `c0` to `c1` and `r` comes back.
pub open spec fn and_32_er_pd_effect(c0: ConfiguredCore, c1: ConfiguredCore, r: Result<Cycles>) -> bool {
    &&& exists|mid: ConfiguredCore, src: Result<u32>|
            #[trigger] operator::ay_pd_32_rel(c0, mid, src) && match src {
                Err(e) => r == Err::<Cycles, Exception>(e) && c1 == mid,
                Ok(v) => {
                    let reg = ir_dx(mid.ir);
                    let o = common::and_32_outcome(mid, mid.dar[reg], v);
                    &&& r == Ok::<Cycles, Exception>(Cycles(16))
                    &&& reg_set(o.0, c1, reg, merged(mid.dar[reg], o.1, 32))
                },
            }
}

pub fn and_32_er_pd(core: &mut ConfiguredCore) -> (r: Result<Cycles>)
    requires
        old(core).wf(),
    ensures
        final(core).wf(),
        and_32_er_pd_effect(*old(core), *final(core), r),
{
    let ghost c0 = *core;
    let src = operator::ay_pd_32(core);
    let ghost mid = *core;
    assert(operator::ay_pd_32_rel(c0, mid, src));
    match src {
        Err(e) => Err(e),
        Ok(v) => {
            let reg = reg_dx(core.ir);
            let dst = core.dar[reg];
            let res = common::and_32(core, dst, v);
            set_reg(core, reg, merge(dst, res, 32));
            Ok(Cycles(16))
        },
    }
}

/// What `and_32_er_di` does: the core goes from `c0` to `c1` and `r` comes back.
pub open spec fn and_32_er_di_effect(c0: ConfiguredCore, c1: ConfiguredCore, r: Result<Cycles>) -> bool {
    &&& exists|mid: ConfiguredCore, src: Result<u32>|
            #[trigger] operator::ay_di_32_rel(c0, mid, src) && match src {
                Err(e) => r == Err::<Cycles, Exception>(e) && c1 == mid,
                Ok(v) => {
                    let reg = ir_dx(mid.ir);
                    let o = common::and_32_outcome(mid, mid.dar[reg], v);
                    &&& r == Ok::<Cycles, Exception>(Cycles(18))
                    &&& reg_set(o.0, c1, reg, merged(mid.dar[reg], o.1, 32))
                },
            }
}

pub fn and_32_er_di(core: &mut ConfiguredCore) -> (r: Result<Cycles>)
    requires
        old(core).wf(),
    ensures
        final(core).wf(),
        and_32_er_di_effect(*old(core), *final(core), r),
{
    let ghost c0 = *core;
    let src = operator::ay_di_32(core);
    let ghost mid = *core;
    assert(operator::ay_di_32_rel(c0, mid, src));
    match src {
        Err(e) => Err(e),
        Ok(v) => {
            let reg = reg_dx(core.ir);
            let dst = core.dar[reg];
            let res = common::and_32(core, dst, v);
            set_reg(core, reg, merge(dst, res, 32));
            Ok(Cycles(18))
        },
    }
}

/// What `and_32_er_ix` does: the core goes from `c0` to `c1` and `r` comes back.
pub open spec fn and_32_er_ix_effect(c0: ConfiguredCore, c1: ConfiguredCore, r: Result<Cycles>) -> bool {
    &&& exists|mid: ConfiguredCore, src: Result<u32>|
            #[trigger] operator::ay_ix_32_rel(c0, mid, src) && match src {
                Err(e) => r == Err::<Cycles, Exception>(e) && c1 == mid,
                Ok(v) => {
                    let reg = ir_dx(mid.ir);
                    let o = common::and_32_outcome(mid, mid.dar[reg], v);
                    &&& r == Ok::<Cycles, Exception>(Cycles(20))
                    &&& reg_set(o.0, c1, reg, merged(mid.dar[reg], o.1, 32))
                },
            }
}

pub fn and_32_er_ix(core: &mut ConfiguredCore) -> (r: Result<Cycles>)
    requires
        old(core).wf(),
    ensures
        final(core).wf(),
        and_32_er_ix_effect(*old(core), *final(core), r),
{
    let ghost c0 = *core;
    let src = operator::ay_ix_32(core);
    let ghost mid = *core;
    assert(operator::ay_ix_32_rel(c0, mid, src));
    match src {
        Err(e) => Err(e),
        Ok(v) => {
            let reg = reg_dx(core.ir);
            let dst = core.dar[reg];
            let res = common::and_32(core, dst, v);
            set_reg(core, reg, merge(dst, res, 32));
            Ok(Cycles(20))
        },
    }
}

/// What `and_32_er_aw` does: the core goes from `c0` to `c1` and `r` comes back.
pub open spec fn and_32_er_aw_effect(c0: ConfiguredCore, c1: ConfiguredCore, r: Result<Cycles>) -> bool {
    &&& exists|mid: ConfiguredCore, src: Result<u32>|
            #[trigger] operator::aw_32_rel(c0, mid, src) && match src {
                Err(e) => r == Err::<Cycles, Exception>(e) && c1 == mid,
                Ok(v) => {
                    let reg = ir_dx(mid.ir);
                    let o = common::and_32_outcome(mid, mid.dar[reg], v);
                    &&& r == Ok::<Cycles, Exception>(Cycles(18))
                    &&& reg_set(o.0, c1, reg, merged(mid.dar[reg], o.1, 32))
                },
            }
}

pub fn and_32_er_aw(core: &mut ConfiguredCore) -> (r: Result<Cycles>)
    requires
        old(core).wf(),
    ensures
        final(core).wf(),
        and_32_er_aw_effect(*old(core), *final(core), r),
{
    let ghost c0 = *core;
    let src = operator::aw_32(core);
    let ghost mid = *core;
    assert(operator::aw_32_rel(c0, mid, src));
    match src {
        Err(e) => Err(e),
        Ok(v) => {
            let reg = reg_dx(core.ir);
            let dst = core.dar[reg];
            let res = common::and_32(core, dst, v);
            set_reg(core, reg, merge(dst, res, 32));
            Ok(Cycles(18))
        },
    }
}

/// What `and_32_er_al` does: the core goes from `c0` to `c1` and `r` comes back.
pub open spec fn and_32_er_al_effect(c0: ConfiguredCore, c1: ConfiguredCore, r: Result<Cycles>) -> bool {
    &&& exists|mid: ConfiguredCore, src: Result<u32>|
            #[trigger] operator::al_32_rel(c0, mid, src) && match src {
                Err(e) => r == Err::<Cycles, Exception>(e) && c1 == mid,
                Ok(v) => {
                    let reg = ir_dx(mid.ir);
                    let o = common::and_32_outcome(mid, mid.dar[reg], v);
                    &&& r == Ok::<Cycles, Exception>(Cycles(22))
                    &&& reg_set(o.0, c1, reg, merged(mid.dar[reg], o.1, 32))
                },
            }
}

pub fn and_32_er_al(core: &mut ConfiguredCore) -> (r: Result<Cycles>)
    requires
        old(core).wf(),
    ensures
        final(core).wf(),
        and_32_er_al_effect(*old(core), *final(core), r),
{
    let ghost c0 = *core;
    let src = operator::al_32(core);
    let ghost mid = *core;
    assert(operator::al_32_rel(c0, mid, src));
    match src {
        Err(e) => Err(e),
        Ok(v) => {
            let reg = reg_dx(core.ir);
            let dst = core.dar[reg];
            let res = common::and_32(core, dst, v);
            set_reg(core, reg, merge(dst, res, 32));
            Ok(Cycles(22))
        },
    }
}

/// What `and_32_er_pcdi` does: the core goes from `c0` to `c1` and `r` comes back.
pub open spec fn and_32_er_pcdi_effect(c0: ConfiguredCore, c1: ConfiguredCore, r: Result<Cycles>) -> bool {
    &&& exists|mid: ConfiguredCore, src: Result<u32>|
            #[trigger] operator::pcdi_32_rel(c0, mid, src) && match src {
                Err(e) => r == Err::<Cycles, Exception>(e) && c1 == mid,
                Ok(v) => {
                    let reg = ir_dx(mid.ir);
                    let o = common::and_32_outcome(mid, mid.dar[reg], v);
                    &&& r == Ok::<Cycles, Exception>(Cycles(18))
                    &&& reg_set(o.0, c1, reg, merged(mid.dar[reg], o.1, 32))
                },
            }
}

pub fn and_32_er_pcdi(core: &mut ConfiguredCore) -> (r: Result<Cycles>)
    requires
        old(core).wf(),
    ensures
        final(core).wf(),
        and_32_er_pcdi_effect(*old(core), *final(core), r),
{
    let ghost c0 = *core;
    let src = operator::pcdi_32(core);
    let ghost mid = *core;
    assert(operator::pcdi_32_rel(c0, mid, src));
    match src {
        Err(e) => Err(e),
        Ok(v) => {
            let reg = reg_dx(core.ir);
            let dst = core.dar[reg];
            let res = common::and_32(core, dst, v);
            set_reg(core, reg, merge(dst, res, 32));
            Ok(Cycles(18))
        },
    }
}

/// What `and_32_er_pcix` does: the core goes from `c0` to `c1` and `r` comes back.
pub open spec fn and_32_er_pcix_effect(c0: ConfiguredCore, c1: ConfiguredCore, r: Result<Cycles>) -> bool {
    &&& exists|mid: ConfiguredCore, src: Result<u32>|
            #[trigger] operator::pcix_32_rel(c0, mid, src) && match src {
                Err(e) => r == Err::<Cycles, Exception>(e) && c1 == mid,
                Ok(v) => {
                    let reg = ir_dx(mid.ir);
                    let o = common::and_32_outcome(mid, mid.dar[reg], v);
                    &&& r == Ok::<Cycles, Exception>(Cycles(20))
                    &&& reg_set(o.0, c1, reg, merged(mid.dar[reg], o.1, 32))
                },
            }
}

pub fn and_32_er_pcix(core: &mut ConfiguredCore) -> (r: Result<Cycles>)
    requires
        old(core).wf(),
    ensures
        final(core).wf(),
        and_32_er_pcix_effect(*old(core), *final(core), r),
{
    let ghost c0 = *core;
    let src = operator::pcix_32(core);
    let ghost mid = *core;
    assert(operator::pcix_32_rel(c0, mid, src));
    match src {
        Err(e) => Err(e),
        Ok(v) => {
            let reg = reg_dx(core.ir);
            let dst = core.dar[reg];
            let res = common::and_32(core, dst, v);
            set_reg(core, reg, merge(dst, res, 32));
            Ok(Cycles(20))
        },
    }
}

/// What `and_32_er_imm` does: the core goes from `c0` to `c1` and `r` comes back.
pub open spec fn and_32_er_imm_effect(c0: ConfiguredCore, c1: ConfiguredCore, r: Result<Cycles>) -> bool {
    &&& exists|mid: ConfiguredCore, src: Result<u32>|
            #[trigger] operator::imm_32_rel(c0, mid, src) && match src {
                Err(e) => r == Err::<Cycles, Exception>(e) && c1 == mid,
                Ok(v) => {
                    let reg = ir_dx(mid.ir);
                    let o = common::and_32_outcome(mid, mid.dar[reg], v);
                    &&& r == Ok::<Cycles, Exception>(Cycles(16))
                    &&& reg_set(o.0, c1, reg, merged(mid.dar[reg], o.1, 32))
                },
            }
}

pub fn and_32_er_imm(core: &mut ConfiguredCore) -> (r: Result<Cycles>)
    requires
        old(core).wf(),
    ensures
        final(core).wf(),
        and_32_er_imm_effect(*old(core), *final(core), r),
{
    let ghost c0 = *core;
    let src = operator::imm_32(core);
    let ghost mid = *core;
    assert(operator::imm_32_rel(c0, mid, src));
    match src {
        Err(e) => Err(e),
        Ok(v) => {
            let reg = reg_dx(core.ir);
            let dst = core.dar[reg];
            let res = common::and_32(core, dst, v);
            set_reg(core, reg, merge(dst, res, 32));
            Ok(Cycles(16))
        },
    }
}

/// What `and_32_re_ai` does: the core goes from `c0` to `c1` and `r` comes back.
pub open spec fn and_32_re_ai_effect(c0: ConfiguredCore, c1: ConfiguredCore, r: Result<Cycles>) -> bool {
    &&& exists|m1: ConfiguredCore, src: Result<u32>|
            #[trigger] operator::dx_rel(c0, m1, src) && match src {
                Err(e) => r == Err::<Cycles, Exception>(e) && c1 == m1,
                Ok(v) => exists|m2: ConfiguredCore, d: Result<(u32, u32)>|
                    #[trigger] operator::ea_ay_ai_32_rel(m1, m2, d) && match d {
                        Err(e) => r == Err::<Cycles, Exception>(e) && c1 == m2,
                        Ok((dv, ea)) => {
                            let o = common::and_32_outcome(m2, dv, v);
                            stored(o.0, c1, 32, ea, merged(dv, o.1, 32), r, 20)
                        },
                    },
            }
}

pub fn and_32_re_ai(core: &mut ConfiguredCore) -> (r: Result<Cycles>)
    requires
        old(core).wf(),
    ensures
        final(core).wf(),
        and_32_re_ai_effect(*old(core), *final(core), r),
{
    let ghost c0 = *core;
    let src = operator::dx(core);
    let ghost m1 = *core;
    assert(operator::dx_rel(c0, m1, src));
    let v = match src {
        Err(e) => {
            return Err(e);
        },
        Ok(v) => v,
    };
    let d = operator::ea_ay_ai_32(core);
    let ghost m2 = *core;
    assert(operator::ea_ay_ai_32_rel(m1, m2, d));
    let (dv, ea) = match d {
        Err(e) => {
            return Err(e);
        },
        Ok(p) => p,
    };
    let res = common::and_32(core, dv, v);
    store(core, 32, ea, merge(dv, res, 32), 20)
}

/// What `and_32_re_pi` does: the core goes from `c0` to `c1` and `r` comes back.
pub open spec fn and_32_re_pi_effect(c0: ConfiguredCore, c1: ConfiguredCore, r: Result<Cycles>) -> bool {
    &&& exists|m1: ConfiguredCore, src: Result<u32>|
            #[trigger] operator::dx_rel(c0, m1, src) && match src {
                Err(e) => r == Err::<Cycles, Exception>(e) && c1 == m1,
                Ok(v) => exists|m2: ConfiguredCore, d: Result<(u32, u32)>|
                    #[trigger] operator::ea_ay_pi_32_rel(m1, m2, d) && match d {
                        Err(e) => r == Err::<Cycles, Exception>(e) && c1 == m2,
                        Ok((dv, ea)) => {
                            let o = common::and_32_outcome(m2, dv, v);
                            stored(o.0, c1, 32, ea, merged(dv, o.1, 32), r, 20)
                        },
                    },
            }
}

pub fn and_32_re_pi(core: &mut ConfiguredCore) -> (r: Result<Cycles>)
    requires
        old(core).wf(),
    ensures
        final(core).wf(),
        and_32_re_pi_effect(*old(core), *final(core), r),
{
    let ghost c0 = *core;
    let src = operator::dx(core);
    let ghost m1 = *core;
    assert(operator::dx_rel(c0, m1, src));
    let v = match src {
        Err(e) => {
            return Err(e);
        },
        Ok(v) => v,
    };
    let d = operator::ea_ay_pi_32(core);
    let ghost m2 = *core;
    assert(operator::ea_ay_pi_32_rel(m1, m2, d));
    let (dv, ea) = match d {
        Err(e) => {
            return Err(e);
        },
        Ok(p) => p,
    };
    let res = common::and_32(core, dv, v);
    store(core, 32, ea, merge(dv, res, 32), 20)
}

/// What `and_32_re_pd` does: the core goes from `c0` to `c1` and `r` comes back.
pub open spec fn and_32_re_pd_effect(c0: ConfiguredCore, c1: ConfiguredCore, r: Result<Cycles>) -> bool {
    &&& exists|m1: ConfiguredCore, src: Result<u32>|
            #[trigger] operator::dx_rel(c0, m1, src) && match src {
                Err(e) => r == Err::<Cycles, Exception>(e) && c1 == m1,
                Ok(v) => exists|m2: ConfiguredCore, d: Result<(u32, u32)>|
                    #[trigger] operator::ea_ay_pd_32_rel(m1, m2, d) && match d {
                        Err(e) => r == Err::<Cycles, Exception>(e) && c1 == m2,
                        Ok((dv, ea)) => {
                            let o = common::and_32_outcome(m2, dv, v);
                            stored(o.0, c1, 32, ea, merged(dv, o.1, 32), r, 22)
                        },
                    },
            }
}

pub fn and_32_re_pd(core: &mut ConfiguredCore) -> (r: Result<Cycles>)
    requires
        old(core).wf(),
    ensures
        final(core).wf(),
        and_32_re_pd_effect(*old(core), *final(core), r),
{
    let ghost c0 = *core;
    let src = operator::dx(core);
    let ghost m1 = *core;
    assert(operator::dx_rel(c0, m1, src));
    let v = match src {
        Err(e) => {
            return Err(e);
        },
        Ok(v) => v,
    };
    let d = operator::ea_ay_pd_32(core);
    let ghost m2 = *core;
    assert(operator::ea_ay_pd_32_rel(m1, m2, d));
    let (dv, ea) = match d {
        Err(e) => {
            return Err(e);
        },
        Ok(p) => p,
    };
    let res = common::and_32(core, dv, v);
    store(core, 32, ea, merge(dv, res, 32), 22)
}

/// What `and_32_re_di` does: the core goes from `c0` to `c1` and `r` comes back.
pub open spec fn and_32_re_di_effect(c0: ConfiguredCore, c1: ConfiguredCore, r: Result<Cycles>) -> bool {
    &&& exists|m1: ConfiguredCore, src: Result<u32>|
            #[trigger] operator::dx_rel(c0, m1, src) && match src {
                Err(e) => r == Err::<Cycles, Exception>(e) && c1 == m1,
                Ok(v) => exists|m2: ConfiguredCore, d: Result<(u32, u32)>|
                    #[trigger] operator::ea_ay_di_32_rel(m1, m2, d) && match d {
                        Err(e) => r == Err::<Cycles, Exception>(e) && c1 == m2,
                        Ok((dv, ea)) => {
                            let o = common::and_32_outcome(m2, dv, v);
                            stored(o.0, c1, 32, ea, merged(dv, o.1, 32), r, 24)
                        },
                    },
            }
}

pub fn and_32_re_di(core: &mut ConfiguredCore) -> (r: Result<Cycles>)
    requires
        old(core).wf(),
    ensures
        final(core).wf(),
        and_32_re_di_effect(*old(core), *final(core), r),
{
    let ghost c0 = *core;
    let src = operator::dx(core);
    let ghost m1 = *core;
    assert(operator::dx_rel(c0, m1, src));
    let v = match src {
        Err(e) => {
            return Err(e);
        },
        Ok(v) => v,
    };
    let d = operator::ea_ay_di_32(core);
    let ghost m2 = *core;
    assert(operator::ea_ay_di_32_rel(m1, m2, d));
    let (dv, ea) = match d {
        Err(e) => {
            return Err(e);
        },
        Ok(p) => p,
    };
    let res = common::and_32(core, dv, v);
    store(core, 32, ea, merge(dv, res, 32), 24)
}

/// What `and_32_re_ix` does: the core goes from `c0` to `c1` and `r` comes back.
pub open spec fn and_32_re_ix_effect(c0: ConfiguredCore, c1: ConfiguredCore, r: Result<Cycles>) -> bool {
    &&& exists|m1: ConfiguredCore, src: Result<u32>|
            #[trigger] operator::dx_rel(c0, m1, src) && match src {
                Err(e) => r == Err::<Cycles, Exception>(e) && c1 == m1,
                Ok(v) => exists|m2: ConfiguredCore, d: Result<(u32, u32)>|
                    #[trigger] operator::ea_ay_ix_32_rel(m1, m2, d) && match d {
                        Err(e) => r == Err::<Cycles, Exception>(e) && c1 == m2,
                        Ok((dv, ea)) => {
                            let o = common::and_32_outcome(m2, dv, v);
                            stored(o.0, c1, 32, ea, merged(dv, o.1, 32), r, 26)
                        },
                    },
            }
}

pub fn and_32_re_ix(core: &mut ConfiguredCore) -> (r: Result<Cycles>)
    requires
        old(core).wf(),
    ensures
        final(core).wf(),
        and_32_re_ix_effect(*old(core), *final(core), r),
{
    let ghost c0 = *core;
    let src = operator::dx(core);
    let ghost m1 = *core;
    assert(operator::dx_rel(c0, m1, src));
    let v = match src {
        Err(e) => {
            return Err(e);
        },
        Ok(v) => v,
    };
    let d = operator::ea_ay_ix_32(core);
    let ghost m2 = *core;
    assert(operator::ea_ay_ix_32_rel(m1, m2, d));
    let (dv, ea) = match d {
        Err(e) => {
            return Err(e);
        },
        Ok(p) => p,
    };
    let res = common::and_32(core, dv, v);
    store(core, 32, ea, merge(dv, res, 32), 26)
}

/// What `and_32_re_aw` does: the core goes from `c0` to `c1` and `r` comes back.
pub open spec fn and_32_re_aw_effect(c0: ConfiguredCore, c1: ConfiguredCore, r: Result<Cycles>) -> bool {
    &&& exists|m1: ConfiguredCore, src: Result<u32>|
            #[trigger] operator::dx_rel(c0, m1, src) && match src {
                Err(e) => r == Err::<Cycles, Exception>(e) && c1 == m1,
                Ok(v) => exists|m2: ConfiguredCore, d: Result<(u32, u32)>|
                    #[trigger] operator::ea_aw_32_rel(m1, m2, d) && match d {
                        Err(e) => r == Err::<Cycles, Exception>(e) && c1 == m2,
                        Ok((dv, ea)) => {
                            let o = common::and_32_outcome(m2, dv, v);
                            stored(o.0, c1, 32, ea, merged(dv, o.1, 32), r, 24)
                        },
                    },
            }
}

pub fn and_32_re_aw(core: &mut ConfiguredCore) -> (r: Result<Cycles>)
    requires
        old(core).wf(),
    ensures
        final(core).wf(),
        and_32_re_aw_effect(*old(core), *final(core), r),
{
    let ghost c0 = *core;
    let src = operator::dx(core);
    let ghost m1 = *core;
    assert(operator::dx_rel(c0, m1, src));
    let v = match src {
        Err(e) => {
            return Err(e);
        },
        Ok(v) => v,
    };
    let d = operator::ea_aw_32(core);
    let ghost m2 = *core;
    assert(operator::ea_aw_32_rel(m1, m2, d));
    let (dv, ea) = match d {
        Err(e) => {
            return Err(e);
        },
        Ok(p) => p,
    };
    let res = common::and_32(core, dv, v);
    store(core, 32, ea, merge(dv, res, 32), 24)
}

/// What `and_32_re_al` does: the core goes from `c0` to `c1` and `r` comes back.
pub open spec fn and_32_re_al_effect(c0: ConfiguredCore, c1: ConfiguredCore, r: Result<Cycles>) -> bool {
    &&& exists|m1: ConfiguredCore, src: Result<u32>|
            #[trigger] operator::dx_rel(c0, m1, src) && match src {
                Err(e) => r == Err::<Cycles, Exception>(e) && c1 == m1,
                Ok(v) => exists|m2: ConfiguredCore, d: Result<(u32, u32)>|
                    #[trigger] operator::ea_al_32_rel(m1, m2, d) && match d {
                        Err(e) => r == Err::<Cycles, Exception>(e) && c1 == m2,
                        Ok((dv, ea)) => {
                            let o = common::and_32_outcome(m2, dv, v);
                            stored(o.0, c1, 32, ea, merged(dv, o.1, 32), r, 28)
                        },
                    },
            }
}

pub fn and_32_re_al(core: &mut ConfiguredCore) -> (r: Result<Cycles>)
    requires
        old(core).wf(),
    ensures
        final(core).wf(),
        and_32_re_al_effect(*old(core), *final(core), r),
{
    let ghost c0 = *core;
    let src = operator::dx(core);
    let ghost m1 = *core;
    assert(operator::dx_rel(c0, m1, src));
    let v = match src {
        Err(e) => {
            return Err(e);
        },
        Ok(v) => v,
    };
    let d = operator::ea_al_32(core);
    let ghost m2 = *core;
    assert(operator::ea_al_32_rel(m1, m2, d));
    let (dv, ea) = match d {
        Err(e) => {
            return Err(e);
        },
        Ok(p) => p,
    };
    let res = common::and_32(core, dv, v);
    store(core, 32, ea, merge(dv, res, 32), 28)
}

/// What `andi_8_dn` does: the core goes from `c0` to `c1` and `r` comes back.
pub open spec fn andi_8_dn_effect(c0: ConfiguredCore, c1: ConfiguredCore, r: Result<Cycles>) -> bool {
    &&& exists|mid: ConfiguredCore, src: Result<u32>|
            #[trigger] operator::imm_8_rel(c0, mid, src) && match src {
                Err(e) => r == Err::<Cycles, Exception>(e) && c1 == mid,
                Ok(v) => {
                    let reg = ir_dy(mid.ir);
                    let o = common::and_8_outcome(mid, mid.dar[reg], v);
                    &&& r == Ok::<Cycles, Exception>(Cycles(8))
                    &&& reg_set(o.0, c1, reg, merged(mid.dar[reg], o.1, 8))
                },
            }
}

pub fn andi_8_dn(core: &mut ConfiguredCore) -> (r: Result<Cycles>)
    requires
        old(core).wf(),
    ensures
        final(core).wf(),
        andi_8_dn_effect(*old(core), *final(core), r),
{
    let ghost c0 = *core;
    let src = operator::imm_8(core);
    let ghost mid = *core;
    assert(operator::imm_8_rel(c0, mid, src));
    match src {
        Err(e) => Err(e),
        Ok(v) => {
            let reg = reg_dy(core.ir);
            let dst = core.dar[reg];
            let res = common::and_8(core, dst, v);
            set_reg(core, reg, merge(dst, res, 8));
            Ok(Cycles(8))
        },
    }
}

/// What `andi_8_ai` does: the core goes from `c0` to `c1` and `r` comes back.
pub open spec fn andi_8_ai_effect(c0: ConfiguredCore, c1: ConfiguredCore, r: Result<Cycles>) -> bool {
    &&& exists|m1: ConfiguredCore, src: Result<u32>|
            #[trigger] operator::imm_8_rel(c0, m1, src) && match src {
                Err(e) => r == Err::<Cycles, Exception>(e) && c1 == m1,
                Ok(v) => exists|m2: ConfiguredCore, d: Result<(u32, u32)>|
                    #[trigger] operator::ea_ay_ai_8_rel(m1, m2, d) && match d {
                        Err(e) => r == Err::<Cycles, Exception>(e) && c1 == m2,
                        Ok((dv, ea)) => {
                            let o = common::and_8_outcome(m2, dv, v);
                            stored(o.0, c1, 8, ea, merged(dv, o.1, 8), r, 16)
                        },
                    },
            }
}

pub fn andi_8_ai(core: &mut ConfiguredCore) -> (r: Result<Cycles>)
    requires
        old(core).wf(),
    ensures
        final(core).wf(),
        andi_8_ai_effect(*old(core), *final(core), r),
{
    let ghost c0 = *core;
    let src = operator::imm_8(core);
    let ghost m1 = *core;
    assert(operator::imm_8_rel(c0, m1, src));
    let v = match src {
        Err(e) => {
            return Err(e);
        },
        Ok(v) => v,
    };
    let d = operator::ea_ay_ai_8(core);
    let ghost m2 = *core;
    assert(operator::ea_ay_ai_8_rel(m1, m2, d));
    let (dv, ea) = match d {
        Err(e) => {
            return Err(e);
        },
        Ok(p) => p,
    };
    let res = common::and_8(core, dv, v);
    store(core, 8, ea, merge(dv, res, 8), 16)
}

/// What `andi_8_pi` does: the core goes from `c0` to `c1` and `r` comes back.
pub open spec fn andi_8_pi_effect(c0: ConfiguredCore, c1: ConfiguredCore, r: Result<Cycles>) -> bool {
    &&& exists|m1: ConfiguredCore, src: Result<u32>|
            #[trigger] operator::imm_8_rel(c0, m1, src) && match src {
                Err(e) => r == Err::<Cycles, Exception>(e) && c1 == m1,
                Ok(v) => exists|m2: ConfiguredCore, d: Result<(u32, u32)>|
                    #[trigger] operator::ea_ay_pi_8_rel(m1, m2, d) && match d {
                        Err(e) => r == Err::<Cycles, Exception>(e) && c1 == m2,
                        Ok((dv, ea)) => {
                            let o = common::and_8_outcome(m2, dv, v);
                            stored(o.0, c1, 8, ea, merged(dv, o.1, 8), r, 16)
                        },
                    },
            }
}

pub fn andi_8_pi(core: &mut ConfiguredCore) -> (r: Result<Cycles>)
    requires
        old(core).wf(),
    ensures
        final(core).wf(),
        andi_8_pi_effect(*old(core), *final(core), r),
{
    let ghost c0 = *core;
    let src = operator::imm_8(core);
    let ghost m1 = *core;
    assert(operator::imm_8_rel(c0, m1, src));
    let v = match src {
        Err(e) => {
            return Err(e);
        },
        Ok(v) => v,
    };
    let d = operator::ea_ay_pi_8(core);
    let ghost m2 = *core;
    assert(operator::ea_ay_pi_8_rel(m1, m2, d));
    let (dv, ea) = match d {
        Err(e) => {
            return Err(e);
        },
        Ok(p) => p,
    };
    let res = common::and_8(core, dv, v);
    store(core, 8, ea, merge(dv, res, 8), 16)
}

/// What `andi_8_pd` does: the core goes from `c0` to `c1` and `r` comes back.
pub open spec fn andi_8_pd_effect(c0: ConfiguredCore, c1: ConfiguredCore, r: Result<Cycles>) -> bool {
    &&& exists|m1: ConfiguredCore, src: Result<u32>|
            #[trigger] operator::imm_8_rel(c0, m1, src) && match src {
                Err(e) => r == Err::<Cycles, Exception>(e) && c1 == m1,
                Ok(v) => exists|m2: ConfiguredCore, d: Result<(u32, u32)>|
                    #[trigger] operator::ea_ay_pd_8_rel(m1, m2, d) && match d {
                        Err(e) => r == Err::<Cycles, Exception>(e) && c1 == m2,
                        Ok((dv, ea)) => {
                            let o = common::and_8_outcome(m2, dv, v);
                            stored(o.0, c1, 8, ea, merged(dv, o.1, 8), r, 18)
                        },
                    },
            }
}

pub fn andi_8_pd(core: &mut ConfiguredCore) -> (r: Result<Cycles>)
    requires
        old(core).wf(),
    ensures
        final(core).wf(),
        andi_8_pd_effect(*old(core), *final(core), r),
{
    let ghost c0 = *core;
    let src = operator::imm_8(core);
    let ghost m1 = *core;
    assert(operator::imm_8_rel(c0, m1, src));
    let v = match src {
        Err(e) => {
            return Err(e);
        },
        Ok(v) => v,
    };
    let d = operator::ea_ay_pd_8(core);
    let ghost m2 = *core;
    assert(operator::ea_ay_pd_8_rel(m1, m2, d));
    let (dv, ea) = match d {
        Err(e) => {
            return Err(e);
        },
        Ok(p) => p,
    };
    let res = common::and_8(core, dv, v);
    store(core, 8, ea, merge(dv, res, 8), 18)
}

/// What `andi_8_di` does: the core goes from `c0` to `c1` and `r` comes back.
pub open spec fn andi_8_di_effect(c0: ConfiguredCore, c1: ConfiguredCore, r: Result<Cycles>) -> bool {
    &&& exists|m1: ConfiguredCore, src: Result<u32>|
            #[trigger] operator::imm_8_rel(c0, m1, src) && match src {
                Err(e) => r == Err::<Cycles, Exception>(e) && c1 == m1,
                Ok(v) => exists|m2: ConfiguredCore, d: Result<(u32, u32)>|
                    #[trigger] operator::ea_ay_di_8_rel(m1, m2, d) && match d {
                        Err(e) => r == Err::<Cycles, Exception>(e) && c1 == m2,
                        Ok((dv, ea)) => {
                            let o = common::and_8_outcome(m2, dv, v);
                            stored(o.0, c1, 8, ea, merged(dv, o.1, 8), r, 20)
                        },
                    },
            }
}

pub fn andi_8_di(core: &mut ConfiguredCore) -> (r: Result<Cycles>)
    requires
        old(core).wf(),
    ensures
        final(core).wf(),
        andi_8_di_effect(*old(core), *final(core), r),
{
    let ghost c0 = *core;
    let src = operator::imm_8(core);
    let ghost m1 = *core;
    assert(operator::imm_8_rel(c0, m1, src));
    let v = match src {
        Err(e) => {
            return Err(e);
        },
        Ok(v) => v,
    };
    let d = operator::ea_ay_di_8(core);
    let ghost m2 = *core;
    assert(operator::ea_ay_di_8_rel(m1, m2, d));
    let (dv, ea) = match d {
        Err(e) => {
            return Err(e);
        },
        Ok(p) => p,
    };
    let res = common::and_8(core, dv, v);
    store(core, 8, ea, merge(dv, res, 8), 20)
}

/// What `andi_8_ix` does: the core goes from `c0` to `c1` and `r` comes back.
pub open spec fn andi_8_ix_effect(c0: ConfiguredCore, c1: ConfiguredCore, r: Result<Cycles>) -> bool {
    &&& exists|m1: ConfiguredCore, src: Result<u32>|
            #[trigger] operator::imm_8_rel(c0, m1, src) && match src {
                Err(e) => r == Err::<Cycles, Exception>(e) && c1 == m1,
                Ok(v) => exists|m2: ConfiguredCore, d: Result<(u32, u32)>|
                    #[trigger] operator::ea_ay_ix_8_rel(m1, m2, d) && match d {
                        Err(e) => r == Err::<Cycles, Exception>(e) && c1 == m2,
                        Ok((dv, ea)) => {
                            let o = common::and_8_outcome(m2, dv, v);
                            stored(o.0, c1, 8, ea, merged(dv, o.1, 8), r, 22)
                        },
                    },
            }
}

pub fn andi_8_ix(core: &mut ConfiguredCore) -> (r: Result<Cycles>)
    requires
        old(core).wf(),
    ensures
        final(core).wf(),
        andi_8_ix_effect(*old(core), *final(core), r),
{
    let ghost c0 = *core;
    let src = operator::imm_8(core);
    let ghost m1 = *core;
    assert(operator::imm_8_rel(c0, m1, src));
    let v = match src {
        Err(e) => {
            return Err(e);
        },
        Ok(v) => v,
    };
    let d = operator::ea_ay_ix_8(core);
    let ghost m2 = *core;
    assert(operator::ea_ay_ix_8_rel(m1, m2, d));
    let (dv, ea) = match d {
        Err(e) => {
            return Err(e);
        },
        Ok(p) => p,
    };
    let res = common::and_8(core, dv, v);
    store(core, 8, ea, merge(dv, res, 8), 22)
}

/// What `andi_8_aw` does: the core goes from `c0` to `c1` and `r` comes back.
pub open spec fn andi_8_aw_effect(c0: ConfiguredCore, c1: ConfiguredCore, r: Result<Cycles>) -> bool {
    &&& exists|m1: ConfiguredCore, src: Result<u32>|
            #[trigger] operator::imm_8_rel(c0, m1, src) && match src {
                Err(e) => r == Err::<Cycles, Exception>(e) && c1 == m1,
                Ok(v) => exists|m2: ConfiguredCore, d: Result<(u32, u32)>|
                    #[trigger] operator::ea_aw_8_rel(m1, m2, d) && match d {
                        Err(e) => r == Err::<Cycles, Exception>(e) && c1 == m2,
                        Ok((dv, ea)) => {
                            let o = common::and_8_outcome(m2, dv, v);
                            stored(o.0, c1, 8, ea, merged(dv, o.1, 8), r, 20)
                        },
                    },
            }
}

pub fn andi_8_aw(core: &mut ConfiguredCore) -> (r: Result<Cycles>)
    requires
        old(core).wf(),
    ensures
        final(core).wf(),
        andi_8_aw_effect(*old(core), *final(core), r),
{
    let ghost c0 = *core;
    let src = operator::imm_8(core);
    let ghost m1 = *core;
    assert(operator::imm_8_rel(c0, m1, src));
    let v = match src {
        Err(e) => {
            return Err(e);
        },
        Ok(v) => v,
    };
    let d = operator::ea_aw_8(core);
    let ghost m2 = *core;
    assert(operator::ea_aw_8_rel(m1, m2, d));
    let (dv, ea) = match d {
        Err(e) => {
            return Err(e);
        },
        Ok(p) => p,
    };
    let res = common::and_8(core, dv, v);
    store(core, 8, ea, merge(dv, res, 8), 20)
}

/// What `andi_8_al` does: the core goes from `c0` to `c1` and `r` comes back.
pub open spec fn andi_8_al_effect(c0: ConfiguredCore, c1: ConfiguredCore, r: Result<Cycles>) -> bool {
    &&& exists|m1: ConfiguredCore, src: Result<u32>|
            #[trigger] operator::imm_8_rel(c0, m1, src) && match src {
                Err(e) => r == Err::<Cycles, Exception>(e) && c1 == m1,
                Ok(v) => exists|m2: ConfiguredCore, d: Result<(u32, u32)>|
                    #[trigger] operator::ea_al_8_rel(m1, m2, d) && match d {
                        Err(e) => r == Err::<Cycles, Exception>(e) && c1 == m2,
                        Ok((dv, ea)) => {
                            let o = common::and_8_outcome(m2, dv, v);
                            stored(o.0, c1, 8, ea, merged(dv, o.1, 8), r, 24)
                        },
                    },
            }
}

pub fn andi_8_al(core: &mut ConfiguredCore) -> (r: Result<Cycles>)
    requires
        old(core).wf(),
    ensures
        final(core).wf(),
        andi_8_al_effect(*old(core), *final(core), r),
{
    let ghost c0 = *core;
    let src = operator::imm_8(core);
    let ghost m1 = *core;
    assert(operator::imm_8_rel(c0, m1, src));
    let v = match src {
        Err(e) => {
            return Err(e);
        },
        Ok(v) => v,
    };
    let d = operator::ea_al_8(core);
    let ghost m2 = *core;
    assert(operator::ea_al_8_rel(m1, m2, d));
    let (dv, ea) = match d {
        Err(e) => {
            return Err(e);
        },
        Ok(p) => p,
    };
    let res = common::and_8(core, dv, v);
    store(core, 8, ea, merge(dv, res, 8), 24)
}

/// What `andi_16_dn` does: the core goes from `c0` to `c1` and `r` comes back.
pub open spec fn andi_16_dn_effect(c0: ConfiguredCore, c1: ConfiguredCore, r: Result<Cycles>) -> bool {
    &&& exists|mid: ConfiguredCore, src: Result<u32>|
            #[trigger] operator::imm_16_rel(c0, mid, src) && match src {
                Err(e) => r == Err::<Cycles, Exception>(e) && c1 == mid,
                Ok(v) => {
                    let reg = ir_dy(mid.ir);
                    let o = common::and_16_outcome(mid, mid.dar[reg], v);
                    &&& r == Ok::<Cycles, Exception>(Cycles(8))
                    &&& reg_set(o.0, c1, reg, merged(mid.dar[reg], o.1, 16))
                },
            }
}

pub fn andi_16_dn(core: &mut ConfiguredCore) -> (r: Result<Cycles>)
    requires
        old(core).wf(),
    ensures
        final(core).wf(),
        andi_16_dn_effect(*old(core), *final(core), r),
{
    let ghost c0 = *core;
    let src = operator::imm_16(core);
    let ghost mid = *core;
    assert(operator::imm_16_rel(c0, mid, src));
    match src {
        Err(e) => Err(e),
        Ok(v) => {
            let reg = reg_dy(core.ir);
            let dst = core.dar[reg];
            let res = common::and_16(core, dst, v);
            set_reg(core, reg, merge(dst, res, 16));
            Ok(Cycles(8))
        },
    }
}

/// What `andi_16_ai` does: the core goes from `c0` to `c1` and `r` comes back.
pub open spec fn andi_16_ai_effect(c0: ConfiguredCore, c1: ConfiguredCore, r: Result<Cycles>) -> bool {
    &&& exists|m1: ConfiguredCore, src: Result<u32>|
            #[trigger] operator::imm_16_rel(c0, m1, src) && match src {
                Err(e) => r == Err::<Cycles, Exception>(e) && c1 == m1,
                Ok(v) => exists|m2: ConfiguredCore, d: Result<(u32, u32)>|
                    #[trigger] operator::ea_ay_ai_16_rel(m1, m2, d) && match d {
                        Err(e) => r == Err::<Cycles, Exception>(e) && c1 == m2,
                        Ok((dv, ea)) => {
                            let o = common::and_16_outcome(m2, dv, v);
                            stored(o.0, c1, 16, ea, merged(dv, o.1, 16), r, 16)
                        },
                    },
            }
}

pub fn andi_16_ai(core: &mut ConfiguredCore) -> (r: Result<Cycles>)
    requires
        old(core).wf(),
    ensures
        final(core).wf(),
        andi_16_ai_effect(*old(core), *final(core), r),
{
    let ghost c0 = *core;
    let src = operator::imm_16(core);
    let ghost m1 = *core;
    assert(operator::imm_16_rel(c0, m1, src));
    let v = match src {
        Err(e) => {
            return Err(e);
        },
        Ok(v) => v,
    };
    let d = operator::ea_ay_ai_16(core);
    let ghost m2 = *core;
    assert(operator::ea_ay_ai_16_rel(m1, m2, d));
    let (dv, ea) = match d {
        Err(e) => {
            return Err(e);
        },
        Ok(p) => p,
    };
    let res = common::and_16(core, dv, v);
    store(core, 16, ea, merge(dv, res, 16), 16)
}

/// What `andi_16_pi` does: the core goes from `c0` to `c1` and `r` comes back.
pub open spec fn andi_16_pi_effect(c0: ConfiguredCore, c1: ConfiguredCore, r: Result<Cycles>) -> bool {
    &&& exists|m1: ConfiguredCore, src: Result<u32>|
            #[trigger] operator::imm_16_rel(c0, m1, src) && match src {
                Err(e) => r == Err::<Cycles, Exception>(e) && c1 == m1,
                Ok(v) => exists|m2: ConfiguredCore, d: Result<(u32, u32)>|
                    #[trigger] operator::ea_ay_pi_16_rel(m1, m2, d) && match d {
                        Err(e) => r == Err::<Cycles, Exception>(e) && c1 == m2,
                        Ok((dv, ea)) => {
                            let o = common::and_16_outcome(m2, dv, v);
                            stored(o.0, c1, 16, ea, merged(dv, o.1, 16), r, 16)
                        },
                    },
            }
}

pub fn andi_16_pi(core: &mut ConfiguredCore) -> (r: Result<Cycles>)
    requires
        old(core).wf(),
    ensures
        final(core).wf(),
        andi_16_pi_effect(*old(core), *final(core), r),
{
    let ghost c0 = *core;
    let src = operator::imm_16(core);
    let ghost m1 = *core;
    assert(operator::imm_16_rel(c0, m1, src));
    let v = match src {
        Err(e) => {
            return Err(e);
        },
        Ok(v) => v,
    };
    let d = operator::ea_ay_pi_16(core);
    let ghost m2 = *core;
    assert(operator::ea_ay_pi_16_rel(m1, m2, d));
    let (dv, ea) = match d {
        Err(e) => {
            return Err(e);
        },
        Ok(p) => p,
    };
    let res = common::and_16(core, dv, v);
    store(core, 16, ea, merge(dv, res, 16), 16)
}

/// What `andi_16_pd` does: the core goes from `c0` to `c1` and `r` comes back.
pub open spec fn andi_16_pd_effect(c0: ConfiguredCore, c1: ConfiguredCore, r: Result<Cycles>) -> bool {
    &&& exists|m1: ConfiguredCore, src: Result<u32>|
            #[trigger] operator::imm_16_rel(c0, m1, src) && match src {
                Err(e) => r == Err::<Cycles, Exception>(e) && c1 == m1,
                Ok(v) => exists|m2: ConfiguredCore, d: Result<(u32, u32)>|
                    #[trigger] operator::ea_ay_pd_16_rel(m1, m2, d) && match d {
                        Err(e) => r == Err::<Cycles, Exception>(e) && c1 == m2,
                        Ok((dv, ea)) => {
                            let o = common::and_16_outcome(m2, dv, v);
                            stored(o.0, c1, 16, ea, merged(dv, o.1, 16), r, 18)
                        },
                    },
            }
}

pub fn andi_16_pd(core: &mut ConfiguredCore) -> (r: Result<Cycles>)
    requires
        old(core).wf(),
    ensures
        final(core).wf(),
        andi_16_pd_effect(*old(core), *final(core), r),
{
    let ghost c0 = *core;
    let src = operator::imm_16(core);
    let ghost m1 = *core;
    assert(operator::imm_16_rel(c0, m1, src));
    let v = match src {
        Err(e) => {
            return Err(e);
        },
        Ok(v) => v,
    };
    let d = operator::ea_ay_pd_16(core);
    let ghost m2 = *core;
    assert(operator::ea_ay_pd_16_rel(m1, m2, d));
    let (dv, ea) = match d {
        Err(e) => {
            return Err(e);
        },
        Ok(p) => p,
    };
    let res = common::and_16(core, dv, v);
    store(core, 16, ea, merge(dv, res, 16), 18)
}

/// What `andi_16_di` does: the core goes from `c0` to `c1` and `r` comes back.
pub open spec fn andi_16_di_effect(c0: ConfiguredCore, c1: ConfiguredCore, r: Result<Cycles>) -> bool {
    &&& exists|m1: ConfiguredCore, src: Result<u32>|
            #[trigger] operator::imm_16_rel(c0, m1, src) && match src {
                Err(e) => r == Err::<Cycles, Exception>(e) && c1 == m1,
                Ok(v) => exists|m2: ConfiguredCore, d: Result<(u32, u32)>|
                    #[trigger] operator::ea_ay_di_16_rel(m1, m2, d) && match d {
                        Err(e) => r == Err::<Cycles, Exception>(e) && c1 == m2,
                        Ok((dv, ea)) => {
                            let o = common::and_16_outcome(m2, dv, v);
                            stored(o.0, c1, 16, ea, merged(dv, o.1, 16), r, 20)
                        },
                    },
            }
}

pub fn andi_16_di(core: &mut ConfiguredCore) -> (r: Result<Cycles>)
    requires
        old(core).wf(),
    ensures
        final(core).wf(),
        andi_16_di_effect(*old(core), *final(core), r),
{
    let ghost c0 = *core;
    let src = operator::imm_16(core);
    let ghost m1 = *core;
    assert(operator::imm_16_rel(c0, m1, src));
    let v = match src {
        Err(e) => {
            return Err(e);
        },
        Ok(v) => v,
    };
    let d = operator::ea_ay_di_16(core);
    let ghost m2 = *core;
    assert(operator::ea_ay_di_16_rel(m1, m2, d));
    let (dv, ea) = match d {
        Err(e) => {
            return Err(e);
        },
        Ok(p) => p,
    };
    let res = common::and_16(core, dv, v);
    store(core, 16, ea, merge(dv, res, 16), 20)
}

/// What `andi_16_ix` does: the core goes from `c0` to `c1` and `r` comes back.
pub open spec fn andi_16_ix_effect(c0: ConfiguredCore, c1: ConfiguredCore, r: Result<Cycles>) -> bool {
    &&& exists|m1: ConfiguredCore, src: Result<u32>|
            #[trigger] operator::imm_16_rel(c0, m1, src) && match src {
                Err(e) => r == Err::<Cycles, Exception>(e) && c1 == m1,
                Ok(v) => exists|m2: ConfiguredCore, d: Result<(u32, u32)>|
                    #[trigger] operator::ea_ay_ix_16_rel(m1, m2, d) && match d {
                        Err(e) => r == Err::<Cycles, Exception>(e) && c1 == m2,
                        Ok((dv, ea)) => {
                            let o = common::and_16_outcome(m2, dv, v);
                            stored(o.0, c1, 16, ea, merged(dv, o.1, 16), r, 22)
                        },
                    },
            }
}

pub fn andi_16_ix(core: &mut ConfiguredCore) -> (r: Result<Cycles>)
    requires
        old(core).wf(),
    ensures
        final(core).wf(),
        andi_16_ix_effect(*old(core), *final(core), r),
{
    let ghost c0 = *core;
    let src = operator::imm_16(core);
    let ghost m1 = *core;
    assert(operator::imm_16_rel(c0, m1, src));
    let v = match src {
        Err(e) => {
            return Err(e);
        },
        Ok(v) => v,
    };
    let d = operator::ea_ay_ix_16(core);
    let ghost m2 = *core;
    assert(operator::ea_ay_ix_16_rel(m1, m2, d));
    let (dv, ea) = match d {
        Err(e) => {
            return Err(e);
        },
        Ok(p) => p,
    };
    let res = common::and_16(core, dv, v);
    store(core, 16, ea, merge(dv, res, 16), 22)
}

/// What `andi_16_aw` does: the core goes from `c0` to `c1` and `r` comes back.
pub open spec fn andi_16_aw_effect(c0: ConfiguredCore, c1: ConfiguredCore, r: Result<Cycles>) -> bool {
    &&& exists|m1: ConfiguredCore, src: Result<u32>|
            #[trigger] operator::imm_16_rel(c0, m1, src) && match src {
                Err(e) => r == Err::<Cycles, Exception>(e) && c1 == m1,
                Ok(v) => exists|m2: ConfiguredCore, d: Result<(u32, u32)>|
                    #[trigger] operator::ea_aw_16_rel(m1, m2, d) && match d {
                        Err(e) => r == Err::<Cycles, Exception>(e) && c1 == m2,
                        Ok((dv, ea)) => {
                            let o = common::and_16_outcome(m2, dv, v);
                            stored(o.0, c1, 16, ea, merged(dv, o.1, 16), r, 20)
                        },
                    },
            }
}

pub fn andi_16_aw(core: &mut ConfiguredCore) -> (r: Result<Cycles>)
    requires
        old(core).wf(),
    ensures
        final(core).wf(),
        andi_16_aw_effect(*old(core), *final(core), r),
{
    let ghost c0 = *core;
    let src = operator::imm_16(core);
    let ghost m1 = *core;
    assert(operator::imm_16_rel(c0, m1, src));
    let v = match src {
        Err(e) => {
            return Err(e);
        },
        Ok(v) => v,
    };
    let d = operator::ea_aw_16(core);
    let ghost m2 = *core;
    assert(operator::ea_aw_16_rel(m1, m2, d));
    let (dv, ea) = match d {
        Err(e) => {
            return Err(e);
        },
        Ok(p) => p,
    };
    let res = common::and_16(core, dv, v);
    store(core, 16, ea, merge(dv, res, 16), 20)
}

/// What `andi_16_al` does: the core goes from `c0` to `c1` and `r` comes back.
pub open spec fn andi_16_al_effect(c0: ConfiguredCore, c1: ConfiguredCore, r: Result<Cycles>) -> bool {
    &&& exists|m1: ConfiguredCore, src: Result<u32>|
            #[trigger] operator::imm_16_rel(c0, m1, src) && match src {
                Err(e) => r == Err::<Cycles, Exception>(e) && c1 == m1,
                Ok(v) => exists|m2: ConfiguredCore, d: Result<(u32, u32)>|
                    #[trigger] operator::ea_al_16_rel(m1, m2, d) && match d {
                        Err(e) => r == Err::<Cycles, Exception>(e) && c1 == m2,
                        Ok((dv, ea)) => {
                            let o = common::and_16_outcome(m2, dv, v);
                            stored(o.0, c1, 16, ea, merged(dv, o.1, 16), r, 24)
                        },
                    },
            }
}

pub fn andi_16_al(core: &mut ConfiguredCore) -> (r: Result<Cycles>)
    requires
        old(core).wf(),
    ensures
        final(core).wf(),
        andi_16_al_effect(*old(core), *final(core), r),
{
    let ghost c0 = *core;
    let src = operator::imm_16(core);
    let ghost m1 = *core;
    assert(operator::imm_16_rel(c0, m1, src));
    let v = match src {
        Err(e) => {
            return Err(e);
        },
        Ok(v) => v,
    };
    let d = operator::ea_al_16(core);
    let ghost m2 = *core;
    assert(operator::ea_al_16_rel(m1, m2, d));
    let (dv, ea) = match d {
        Err(e) => {
            return Err(e);
        },
        Ok(p) => p,
    };
    let res = common::and_16(core, dv, v);
    store(core, 16, ea, merge(dv, res, 16), 24)
}

/// What `andi_32_dn` does: the core goes from `c0` to `c1` and `r` comes back.
pub open spec fn andi_32_dn_effect(c0: ConfiguredCore, c1: ConfiguredCore, r: Result<Cycles>) -> bool {
    &&& exists|mid: ConfiguredCore, src: Result<u32>|
            #[trigger] operator::imm_32_rel(c0, mid, src) && match src {
                Err(e) => r == Err::<Cycles, Exception>(e) && c1 == mid,
                Ok(v) => {
                    let reg = ir_dy(mid.ir);
                    let o = common::and_32_outcome(mid, mid.dar[reg], v);
                    &&& r == Ok::<Cycles, Exception>(Cycles(14))
                    &&& reg_set(o.0, c1, reg, merged(mid.dar[reg], o.1, 32))
                },
            }
}

pub fn andi_32_dn(core: &mut ConfiguredCore) -> (r: Result<Cycles>)
    requires
        old(core).wf(),
    ensures
        final(core).wf(),
        andi_32_dn_effect(*old(core), *final(core), r),
{
    let ghost c0 = *core;
    let src = operator::imm_32(core);
    let ghost mid = *core;
    assert(operator::imm_32_rel(c0, mid, src));
    match src {
        Err(e) => Err(e),
        Ok(v) => {
            let reg = reg_dy(core.ir);
            let dst = core.dar[reg];
            let res = common::and_32(core, dst, v);
            set_reg(core, reg, merge(dst, res, 32));
            Ok(Cycles(14))
        },
    }
}

/// What `andi_32_ai` does: the core goes from `c0` to `c1` and `r` comes back.
pub open spec fn andi_32_ai_effect(c0: ConfiguredCore, c1: ConfiguredCore, r: Result<Cycles>) -> bool {
    &&& exists|m1: ConfiguredCore, src: Result<u32>|
            #[trigger] operator::imm_32_rel(c0, m1, src) && match src {
                Err(e) => r == Err::<Cycles, Exception>(e) && c1 == m1,
                Ok(v) => exists|m2: ConfiguredCore, d: Result<(u32, u32)>|
                    #[trigger] operator::ea_ay_ai_32_rel(m1, m2, d) && match d {
                        Err(e) => r == Err::<Cycles, Exception>(e) && c1 == m2,
                        Ok((dv, ea)) => {
                            let o = common::and_32_outcome(m2, dv, v);
                            stored(o.0, c1, 32, ea, merged(dv, o.1, 32), r, 28)
                        },
                    },
            }
}

pub fn andi_32_ai(core: &mut ConfiguredCore) -> (r: Result<Cycles>)
    requires
        old(core).wf(),
    ensures
        final(core).wf(),
        andi_32_ai_effect(*old(core), *final(core), r),
{
    let ghost c0 = *core;
    let src = operator::imm_32(core);
    let ghost m1 = *core;
    assert(operator::imm_32_rel(c0, m1, src));
    let v = match src {
        Err(e) => {
            return Err(e);
        },
        Ok(v) => v,
    };
    let d = operator::ea_ay_ai_32(core);
    let ghost m2 = *core;
    assert(operator::ea_ay_ai_32_rel(m1, m2, d));
    let (dv, ea) = match d {
        Err(e) => {
            return Err(e);
        },
        Ok(p) => p,
    };
    let res = common::and_32(core, dv, v);
    store(core, 32, ea, merge(dv, res, 32), 28)
}

/// What `andi_32_pi` does: the core goes from `c0` to `c1` and `r` comes back.
pub open spec fn andi_32_pi_effect(c0: ConfiguredCore, c1: ConfiguredCore, r: Result<Cycles>) -> bool {
    &&& exists|m1: ConfiguredCore, src: Result<u32>|
            #[trigger] operator::imm_32_rel(c0, m1, src) && match src {
                Err(e) => r == Err::<Cycles, Exception>(e) && c1 == m1,
                Ok(v) => exists|m2: ConfiguredCore, d: Result<(u32, u32)>|
                    #[trigger] operator::ea_ay_pi_32_rel(m1, m2, d) && match d {
                        Err(e) => r == Err::<Cycles, Exception>(e) && c1 == m2,
                        Ok((dv, ea)) => {
                            let o = common::and_32_outcome(m2, dv, v);
                            stored(o.0, c1, 32, ea, merged(dv, o.1, 32), r, 28)
                        },
                    },
            }
}

pub fn andi_32_pi(core: &mut ConfiguredCore) -> (r: Result<Cycles>)
    requires
        old(core).wf(),
    ensures
        final(core).wf(),
        andi_32_pi_effect(*old(core), *final(core), r),
{
    let ghost c0 = *core;
    let src = operator::imm_32(core);
    let ghost m1 = *core;
    assert(operator::imm_32_rel(c0, m1, src));
    let v = match src {
        Err(e) => {
            return Err(e);
        },
        Ok(v) => v,
    };
    let d = operator::ea_ay_pi_32(core);
    let ghost m2 = *core;
    assert(operator::ea_ay_pi_32_rel(m1, m2, d));
    let (dv, ea) = match d {
        Err(e) => {
            return Err(e);
        },
        Ok(p) => p,
    };
    let res = common::and_32(core, dv, v);
    store(core, 32, ea, merge(dv, res, 32), 28)
}

/// What `andi_32_pd` does: the core goes from `c0` to `c1` and `r` comes back.
pub open spec fn andi_32_pd_effect(c0: ConfiguredCore, c1: ConfiguredCore, r: Result<Cycles>) -> bool {
    &&& exists|m1: ConfiguredCore, src: Result<u32>|
            #[trigger] operator::imm_32_rel(c0, m1, src) && match src {
                Err(e) => r == Err::<Cycles, Exception>(e) && c1 == m1,
                Ok(v) => exists|m2: ConfiguredCore, d: Result<(u32, u32)>|
                    #[trigger] operator::ea_ay_pd_32_rel(m1, m2, d) && match d {
                        Err(e) => r == Err::<Cycles, Exception>(e) && c1 == m2,
                        Ok((dv, ea)) => {
                            let o = common::and_32_outcome(m2, dv, v);
                            stored(o.0, c1, 32, ea, merged(dv, o.1, 32), r, 30)
                        },
                    },
            }
}

pub fn andi_32_pd(core: &mut ConfiguredCore) -> (r: Result<Cycles>)
    requires
        old(core).wf(),
    ensures
        final(core).wf(),
        andi_32_pd_effect(*old(core), *final(core), r),
{
    let ghost c0 = *core;
    let src = operator::imm_32(core);
    let ghost m1 = *core;
    assert(operator::imm_32_rel(c0, m1, src));
    let v = match src {
        Err(e) => {
            return Err(e);
        },
        Ok(v) => v,
    };
    let d = operator::ea_ay_pd_32(core);
    let ghost m2 = *core;
    assert(operator::ea_ay_pd_32_rel(m1, m2, d));
    let (dv, ea) = match d {
        Err(e) => {
            return Err(e);
        },
        Ok(p) => p,
    };
    let res = common::and_32(core, dv, v);
    store(core, 32, ea, merge(dv, res, 32), 30)
}

/// What `andi_32_di` does: the core goes from `c0` to `c1` and `r` comes back.
pub open spec fn andi_32_di_effect(c0: ConfiguredCore, c1: ConfiguredCore, r: Result<Cycles>) -> bool {
    &&& exists|m1: ConfiguredCore, src: Result<u32>|
            #[trigger] operator::imm_32_rel(c0, m1, src) && match src {
                Err(e) => r == Err::<Cycles, Exception>(e) && c1 == m1,
                Ok(v) => exists|m2: ConfiguredCore, d: Result<(u32, u32)>|
                    #[trigger] operator::ea_ay_di_32_rel(m1, m2, d) && match d {
                        Err(e) => r == Err::<Cycles, Exception>(e) && c1 == m2,
                        Ok((dv, ea)) => {
                            let o = common::and_32_outcome(m2, dv, v);
                            stored(o.0, c1, 32, ea, merged(dv, o.1, 32), r, 32)
                        },
                    },
            }
}

pub fn andi_32_di(core: &mut ConfiguredCore) -> (r: Result<Cycles>)
    requires
        old(core).wf(),
    ensures
        final(core).wf(),
        andi_32_di_effect(*old(core), *final(core), r),
{
    let ghost c0 = *core;
    let src = operator::imm_32(core);
    let ghost m1 = *core;
    assert(operator::imm_32_rel(c0, m1, src));
    let v = match src {
        Err(e) => {
            return Err(e);
        },
        Ok(v) => v,
    };
    let d = operator::ea_ay_di_32(core);
    let ghost m2 = *core;
    assert(operator::ea_ay_di_32_rel(m1, m2, d));
    let (dv, ea) = match d {
        Err(e) => {
            return Err(e);
        },
        Ok(p) => p,
    };
    let res = common::and_32(core, dv, v);
    store(core, 32, ea, merge(dv, res, 32), 32)
}

/// What `andi_32_ix` does: the core goes from `c0` to `c1` and `r` comes back.
pub open spec fn andi_32_ix_effect(c0: ConfiguredCore, c1: ConfiguredCore, r: Result<Cycles>) -> bool {
    &&& exists|m1: ConfiguredCore, src: Result<u32>|
            #[trigger] operator::imm_32_rel(c0, m1, src) && match src {
                Err(e) => r == Err::<Cycles, Exception>(e) && c1 == m1,
                Ok(v) => exists|m2: ConfiguredCore, d: Result<(u32, u32)>|
                    #[trigger] operator::ea_ay_ix_32_rel(m1, m2, d) && match d {
                        Err(e) => r == Err::<Cycles, Exception>(e) && c1 == m2,
                        Ok((dv, ea)) => {
                            let o = common::and_32_outcome(m2, dv, v);
                            stored(o.0, c1, 32, ea, merged(dv, o.1, 32), r, 34)
                        },
                    },
            }
}

pub fn andi_32_ix(core: &mut ConfiguredCore) -> (r: Result<Cycles>)
    requires
        old(core).wf(),
    ensures
        final(core).wf(),
        andi_32_ix_effect(*old(core), *final(core), r),
{
    let ghost c0 = *core;
    let src = operator::imm_32(core);
    let ghost m1 = *core;
    assert(operator::imm_32_rel(c0, m1, src));
    let v = match src {
        Err(e) => {
            return Err(e);
        },
        Ok(v) => v,
    };
    let d = operator::ea_ay_ix_32(core);
    let ghost m2 = *core;
    assert(operator::ea_ay_ix_32_rel(m1, m2, d));
    let (dv, ea) = match d {
        Err(e) => {
            return Err(e);
        },
        Ok(p) => p,
    };
    let res = common::and_32(core, dv, v);
    store(core, 32, ea, merge(dv, res, 32), 34)
}

/// What `andi_32_aw` does: the core goes from `c0` to `c1` and `r` comes back.
pub open spec fn andi_32_aw_effect(c0: ConfiguredCore, c1: ConfiguredCore, r: Result<Cycles>) -> bool {
    &&& exists|m1: ConfiguredCore, src: Result<u32>|
            #[trigger] operator::imm_32_rel(c0, m1, src) && match src {
                Err(e) => r == Err::<Cycles, Exception>(e) && c1 == m1,
                Ok(v) => exists|m2: ConfiguredCore, d: Result<(u32, u32)>|
                    #[trigger] operator::ea_aw_32_rel(m1, m2, d) && match d {
                        Err(e) => r == Err::<Cycles, Exception>(e) && c1 == m2,
                        Ok((dv, ea)) => {
                            let o = common::and_32_outcome(m2, dv, v);
                            stored(o.0, c1, 32, ea, merged(dv, o.1, 32), r, 32)
                        },
                    },
            }
}

pub fn andi_32_aw(core: &mut ConfiguredCore) -> (r: Result<Cycles>)
    requires
        old(core).wf(),
    ensures
        final(core).wf(),
        andi_32_aw_effect(*old(core), *final(core), r),
{
    let ghost c0 = *core;
    let src = operator::imm_32(core);
    let ghost m1 = *core;
    assert(operator::imm_32_rel(c0, m1, src));
    let v = match src {
        Err(e) => {
            return Err(e);
        },
        Ok(v) => v,
    };
    let d = operator::ea_aw_32(core);
    let ghost m2 = *core;
    assert(operator::ea_aw_32_rel(m1, m2, d));
    let (dv, ea) = match d {
        Err(e) => {
            return Err(e);
        },
        Ok(p) => p,
    };
    let res = common::and_32(core, dv, v);
    store(core, 32, ea, merge(dv, res, 32), 32)
}

/// What `andi_32_al` does: the core goes from `c0` to `c1` and `r` comes back.
pub open spec fn andi_32_al_effect(c0: ConfiguredCore, c1: ConfiguredCore, r: Result<Cycles>) -> bool {
    &&& exists|m1: ConfiguredCore, src: Result<u32>|
            #[trigger] operator::imm_32_rel(c0, m1, src) && match src {
                Err(e) => r == Err::<Cycles, Exception>(e) && c1 == m1,
                Ok(v) => exists|m2: ConfiguredCore, d: Result<(u32, u32)>|
                    #[trigger] operator::ea_al_32_rel(m1, m2, d) && match d {
                        Err(e) => r == Err::<Cycles, Exception>(e) && c1 == m2,
                        Ok((dv, ea)) => {
                            let o = common::and_32_outcome(m2, dv, v);
                            stored(o.0, c1, 32, ea, merged(dv, o.1, 32), r, 36)
                        },
                    },
            }
}

pub fn andi_32_al(core: &mut ConfiguredCore) -> (r: Result<Cycles>)
    requires
        old(core).wf(),
    ensures
        final(core).wf(),
        andi_32_al_effect(*old(core), *final(core), r),
{
    let ghost c0 = *core;
    let src = operator::imm_32(core);
    let ghost m1 = *core;
    assert(operator::imm_32_rel(c0, m1, src));
    let v = match src {
        Err(e) => {
            return Err(e);
        },
        Ok(v) => v,
    };
    let d = operator::ea_al_32(core);
    let ghost m2 = *core;
    assert(operator::ea_al_32_rel(m1, m2, d));
    let (dv, ea) = match d {
        Err(e) => {
            return Err(e);
        },
        Ok(p) => p,
    };
    let res = common::and_32(core, dv, v);
    store(core, 32, ea, merge(dv, res, 32), 36)
}

/// What `cmpi_8_dn` does: the core goes from `c0` to `c1` and `r` comes back.
pub open spec fn cmpi_8_dn_effect(c0: ConfiguredCore, c1: ConfiguredCore, r: Result<Cycles>) -> bool {
    &&& exists|m1: ConfiguredCore, src: Result<u32>|
            #[trigger] operator::imm_8_rel(c0, m1, src) && match src {
                Err(e) => r == Err::<Cycles, Exception>(e) && c1 == m1,
                Ok(v) => exists|m2: ConfiguredCore, d: Result<u32>|
                    #[trigger] operator::dy_rel(m1, m2, d) && match d {
                        Err(e) => r == Err::<Cycles, Exception>(e) && c1 == m2,
                        Ok(dv) => r == Ok::<Cycles, Exception>(Cycles(8))
                            && c1 == common::compare_8_outcome(m2, dv, v).0,
                    },
            }
}

pub fn cmpi_8_dn(core: &mut ConfiguredCore) -> (r: Result<Cycles>)
    requires
        old(core).wf(),
    ensures
        final(core).wf(),
        cmpi_8_dn_effect(*old(core), *final(core), r),
{
    let ghost c0 = *core;
    let src = operator::imm_8(core);
    let ghost m1 = *core;
    assert(operator::imm_8_rel(c0, m1, src));
    let v = match src {
        Err(e) => {
            return Err(e);
        },
        Ok(v) => v,
    };
    let d = operator::dy(core);
    let ghost m2 = *core;
    assert(operator::dy_rel(m1, m2, d));
    match d {
        Err(e) => Err(e),
        Ok(dv) => {
            let _ = common::cmp_8(core, dv, v);
            Ok(Cycles(8))
        },
    }
}

/// What `cmpi_8_ai` does: the core goes from `c0` to `c1` and `r` comes back.
pub open spec fn cmpi_8_ai_effect(c0: ConfiguredCore, c1: ConfiguredCore, r: Result<Cycles>) -> bool {
    &&& exists|m1: ConfiguredCore, src: Result<u32>|
            #[trigger] operator::imm_8_rel(c0, m1, src) && match src {
                Err(e) => r == Err::<Cycles, Exception>(e) && c1 == m1,
                Ok(v) => exists|m2: ConfiguredCore, d: Result<u32>|
                    #[trigger] operator::ay_ai_8_rel(m1, m2, d) && match d {
                        Err(e) => r == Err::<Cycles, Exception>(e) && c1 == m2,
                        Ok(dv) => r == Ok::<Cycles, Exception>(Cycles(12))
                            && c1 == common::compare_8_outcome(m2, dv, v).0,
                    },
            }
}

pub fn cmpi_8_ai(core: &mut ConfiguredCore) -> (r: Result<Cycles>)
    requires
        old(core).wf(),
    ensures
        final(core).wf(),
        cmpi_8_ai_effect(*old(core), *final(core), r),
{
    let ghost c0 = *core;
    let src = operator::imm_8(core);
    let ghost m1 = *core;
    assert(operator::imm_8_rel(c0, m1, src));
    let v = match src {
        Err(e) => {
            return Err(e);
        },
        Ok(v) => v,
    };
    let d = operator::ay_ai_8(core);
    let ghost m2 = *core;
    assert(operator::ay_ai_8_rel(m1, m2, d));
    match d {
        Err(e) => Err(e),
        Ok(dv) => {
            let _ = common::cmp_8(core, dv, v);
            Ok(Cycles(12))
        },
    }
}

/// What `cmpi_8_pi` does: the core goes from `c0` to `c1` and `r` comes back.
pub open spec fn cmpi_8_pi_effect(c0: ConfiguredCore, c1: ConfiguredCore, r: Result<Cycles>) -> bool {
    &&& exists|m1: ConfiguredCore, src: Result<u32>|
            #[trigger] operator::imm_8_rel(c0, m1, src) && match src {
                Err(e) => r == Err::<Cycles, Exception>(e) && c1 == m1,
                Ok(v) => exists|m2: ConfiguredCore, d: Result<u32>|
                    #[trigger] operator::ay_pi_8_rel(m1, m2, d) && match d {
                        Err(e) => r == Err::<Cycles, Exception>(e) && c1 == m2,
                        Ok(dv) => r == Ok::<Cycles, Exception>(Cycles(12))
                            && c1 == common::compare_8_outcome(m2, dv, v).0,
                    },
            }
}

pub fn cmpi_8_pi(core: &mut ConfiguredCore) -> (r: Result<Cycles>)
    requires
        old(core).wf(),
    ensures
        final(core).wf(),
        cmpi_8_pi_effect(*old(core), *final(core), r),
{
    let ghost c0 = *core;
    let src = operator::imm_8(core);
    let ghost m1 = *core;
    assert(operator::imm_8_rel(c0, m1, src));
    let v = match src {
        Err(e) => {
            return Err(e);
        },
        Ok(v) => v,
    };
    let d = operator::ay_pi_8(core);
    let ghost m2 = *core;
    assert(operator::ay_pi_8_rel(m1, m2, d));
    match d {
        Err(e) => Err(e),
        Ok(dv) => {
            let _ = common::cmp_8(core, dv, v);
            Ok(Cycles(12))
        },
    }
}

/// What `cmpi_8_pd` does: the core goes from `c0` to `c1` and `r` comes back.
pub open spec fn cmpi_8_pd_effect(c0: ConfiguredCore, c1: ConfiguredCore, r: Result<Cycles>) -> bool {
    &&& exists|m1: ConfiguredCore, src: Result<u32>|
            #[trigger] operator::imm_8_rel(c0, m1, src) && match src {
                Err(e) => r == Err::<Cycles, Exception>(e) && c1 == m1,
                Ok(v) => exists|m2: ConfiguredCore, d: Result<u32>|
                    #[trigger] operator::ay_pd_8_rel(m1, m2, d) && match d {
                        Err(e) => r == Err::<Cycles, Exception>(e) && c1 == m2,
                        Ok(dv) => r == Ok::<Cycles, Exception>(Cycles(14))
                            && c1 == common::compare_8_outcome(m2, dv, v).0,
                    },
            }
}

pub fn cmpi_8_pd(core: &mut ConfiguredCore) -> (r: Result<Cycles>)
    requires
        old(core).wf(),
    ensures
        final(core).wf(),
        cmpi_8_pd_effect(*old(core), *final(core), r),
{
    let ghost c0 = *core;
    let src = operator::imm_8(core);
    let ghost m1 = *core;
    assert(operator::imm_8_rel(c0, m1, src));
    let v = match src {
        Err(e) => {
            return Err(e);
        },
        Ok(v) => v,
    };
    let d = operator::ay_pd_8(core);
    let ghost m2 = *core;
    assert(operator::ay_pd_8_rel(m1, m2, d));
    match d {
        Err(e) => Err(e),
        Ok(dv) => {
            let _ = common::cmp_8(core, dv, v);
            Ok(Cycles(14))
        },
    }
}

/// What `cmpi_8_di` does: the core goes from `c0` to `c1` and `r` comes back.
pub open spec fn cmpi_8_di_effect(c0: ConfiguredCore, c1: ConfiguredCore, r: Result<Cycles>) -> bool {
    &&& exists|m1: ConfiguredCore, src: Result<u32>|
            #[trigger] operator::imm_8_rel(c0, m1, src) && match src {
                Err(e) => r == Err::<Cycles, Exception>(e) && c1 == m1,
                Ok(v) => exists|m2: ConfiguredCore, d: Result<u32>|
                    #[trigger] operator::ay_di_8_rel(m1, m2, d) && match d {
                        Err(e) => r == Err::<Cycles, Exception>(e) && c1 == m2,
                        Ok(dv) => r == Ok::<Cycles, Exception>(Cycles(16))
                            && c1 == common::compare_8_outcome(m2, dv, v).0,
                    },
            }
}

pub fn cmpi_8_di(core: &mut ConfiguredCore) -> (r: Result<Cycles>)
    requires
        old(core).wf(),
    ensures
        final(core).wf(),
        cmpi_8_di_effect(*old(core), *final(core), r),
{
    let ghost c0 = *core;
    let src = operator::imm_8(core);
    let ghost m1 = *core;
    assert(operator::imm_8_rel(c0, m1, src));
    let v = match src {
        Err(e) => {
            return Err(e);
        },
        Ok(v) => v,
    };
    let d = operator::ay_di_8(core);
    let ghost m2 = *core;
    assert(operator::ay_di_8_rel(m1, m2, d));
    match d {
        Err(e) => Err(e),
        Ok(dv) => {
            let _ = common::cmp_8(core, dv, v);
            Ok(Cycles(16))
        },
    }
}

/// What `cmpi_8_ix` does: the core goes from `c0` to `c1` and `r` comes back.
pub open spec fn cmpi_8_ix_effect(c0: ConfiguredCore, c1: ConfiguredCore, r: Result<Cycles>) -> bool {
    &&& exists|m1: ConfiguredCore, src: Result<u32>|
            #[trigger] operator::imm_8_rel(c0, m1, src) && match src {
                Err(e) => r == Err::<Cycles, Exception>(e) && c1 == m1,
                Ok(v) => exists|m2: ConfiguredCore, d: Result<u32>|
                    #[trigger] operator::ay_ix_8_rel(m1, m2, d) && match d {
                        Err(e) => r == Err::<Cycles, Exception>(e) && c1 == m2,
                        Ok(dv) => r == Ok::<Cycles, Exception>(Cycles(18))
                            && c1 == common::compare_8_outcome(m2, dv, v).0,
                    },
            }
}

pub fn cmpi_8_ix(core: &mut ConfiguredCore) -> (r: Result<Cycles>)
    requires
        old(core).wf(),
    ensures
        final(core).wf(),
        cmpi_8_ix_effect(*old(core), *final(core), r),
{
    let ghost c0 = *core;
    let src = operator::imm_8(core);
    let ghost m1 = *core;
    assert(operator::imm_8_rel(c0, m1, src));
    let v = match src {
        Err(e) => {
            return Err(e);
        },
        Ok(v) => v,
    };
    let d = operator::ay_ix_8(core);
    let ghost m2 = *core;
    assert(operator::ay_ix_8_rel(m1, m2, d));
    match d {
        Err(e) => Err(e),
        Ok(dv) => {
            let _ = common::cmp_8(core, dv, v);
            Ok(Cycles(18))
        },
    }
}

/// What `cmpi_8_aw` does: the core goes from `c0` to `c1` and `r` comes back.
pub open spec fn cmpi_8_aw_effect(c0: ConfiguredCore, c1: ConfiguredCore, r: Result<Cycles>) -> bool {
    &&& exists|m1: ConfiguredCore, src: Result<u32>|
            #[trigger] operator::imm_8_rel(c0, m1, src) && match src {
                Err(e) => r == Err::<Cycles, Exception>(e) && c1 == m1,
                Ok(v) => exists|m2: ConfiguredCore, d: Result<u32>|
                    #[trigger] operator::aw_8_rel(m1, m2, d) && match d {
                        Err(e) => r == Err::<Cycles, Exception>(e) && c1 == m2,
                        Ok(dv) => r == Ok::<Cycles, Exception>(Cycles(16))
                            && c1 == common::compare_8_outcome(m2, dv, v).0,
                    },
            }
}

pub fn cmpi_8_aw(core: &mut ConfiguredCore) -> (r: Result<Cycles>)
    requires
        old(core).wf(),
    ensures
        final(core).wf(),
        cmpi_8_aw_effect(*old(core), *final(core), r),
{
    let ghost c0 = *core;
    let src = operator::imm_8(core);
    let ghost m1 = *core;
    assert(operator::imm_8_rel(c0, m1, src));
    let v = match src {
        Err(e) => {
            return Err(e);
        },
        Ok(v) => v,
    };
    let d = operator::aw_8(core);
    let ghost m2 = *core;
    assert(operator::aw_8_rel(m1, m2, d));
    match d {
        Err(e) => Err(e),
        Ok(dv) => {
            let _ = common::cmp_8(core, dv, v);
            Ok(Cycles(16))
        },
    }
}

/// What `cmpi_8_al` does: the core goes from `c0` to `c1` and `r` comes back.
pub open spec fn cmpi_8_al_effect(c0: ConfiguredCore, c1: ConfiguredCore, r: Result<Cycles>) -> bool {
    &&& exists|m1: ConfiguredCore, src: Result<u32>|
            #[trigger] operator::imm_8_rel(c0, m1, src) && match src {
                Err(e) => r == Err::<Cycles, Exception>(e) && c1 == m1,
                Ok(v) => exists|m2: ConfiguredCore, d: Result<u32>|
                    #[trigger] operator::al_8_rel(m1, m2, d) && match d {
                        Err(e) => r == Err::<Cycles, Exception>(e) && c1 == m2,
                        Ok(dv) => r == Ok::<Cycles, Exception>(Cycles(20))
                            && c1 == common::compare_8_outcome(m2, dv, v).0,
                    },
            }
}

pub fn cmpi_8_al(core: &mut ConfiguredCore) -> (r: Result<Cycles>)
    requires
        old(core).wf(),
    ensures
        final(core).wf(),
        cmpi_8_al_effect(*old(core), *final(core), r),
{
    let ghost c0 = *core;
    let src = operator::imm_8(core);
    let ghost m1 = *core;
    assert(operator::imm_8_rel(c0, m1, src));
    let v = match src {
        Err(e) => {
            return Err(e);
        },
        Ok(v) => v,
    };
    let d = operator::al_8(core);
    let ghost m2 = *core;
    assert(operator::al_8_rel(m1, m2, d));
    match d {
        Err(e) => Err(e),
        Ok(dv) => {
            let _ = common::cmp_8(core, dv, v);
            Ok(Cycles(20))
        },
    }
}

/// What `cmpi_16_dn` does: the core goes from `c0` to `c1` and `r` comes back.
pub open spec fn cmpi_16_dn_effect(c0: ConfiguredCore, c1: ConfiguredCore, r: Result<Cycles>) -> bool {
    &&& exists|m1: ConfiguredCore, src: Result<u32>|
            #[trigger] operator::imm_16_rel(c0, m1, src) && match src {
                Err(e) => r == Err::<Cycles, Exception>(e) && c1 == m1,
                Ok(v) => exists|m2: ConfiguredCore, d: Result<u32>|
                    #[trigger] operator::dy_rel(m1, m2, d) && match d {
                        Err(e) => r == Err::<Cycles, Exception>(e) && c1 == m2,
                        Ok(dv) => r == Ok::<Cycles, Exception>(Cycles(8))
                            && c1 == common::compare_16_outcome(m2, dv, v).0,
                    },
            }
}

pub fn cmpi_16_dn(core: &mut ConfiguredCore) -> (r: Result<Cycles>)
    requires
        old(core).wf(),
    ensures
        final(core).wf(),
        cmpi_16_dn_effect(*old(core), *final(core), r),
{
    let ghost c0 = *core;
    let src = operator::imm_16(core);
    let ghost m1 = *core;
    assert(operator::imm_16_rel(c0, m1, src));
    let v = match src {
        Err(e) => {
            return Err(e);
        },
        Ok(v) => v,
    };
    let d = operator::dy(core);
    let ghost m2 = *core;
    assert(operator::dy_rel(m1, m2, d));
    match d {
        Err(e) => Err(e),
        Ok(dv) => {
            let _ = common::cmp_16(core, dv, v);
            Ok(Cycles(8))
        },
    }
}

/// What `cmpi_16_ai` does: the core goes from `c0` to `c1` and `r` comes back.
pub open spec fn cmpi_16_ai_effect(c0: ConfiguredCore, c1: ConfiguredCore, r: Result<Cycles>) -> bool {
    &&& exists|m1: ConfiguredCore, src: Result<u32>|
            #[trigger] operator::imm_16_rel(c0, m1, src) && match src {
                Err(e) => r == Err::<Cycles, Exception>(e) && c1 == m1,
                Ok(v) => exists|m2: ConfiguredCore, d: Result<u32>|
                    #[trigger] operator::ay_ai_16_rel(m1, m2, d) && match d {
                        Err(e) => r == Err::<Cycles, Exception>(e) && c1 == m2,
                        Ok(dv) => r == Ok::<Cycles, Exception>(Cycles(12))
                            && c1 == common::compare_16_outcome(m2, dv, v).0,
                    },
            }
}

pub fn cmpi_16_ai(core: &mut ConfiguredCore) -> (r: Result<Cycles>)
    requires
        old(core).wf(),
    ensures
        final(core).wf(),
        cmpi_16_ai_effect(*old(core), *final(core), r),
{
    let ghost c0 = *core;
    let src = operator::imm_16(core);
    let ghost m1 = *core;
    assert(operator::imm_16_rel(c0, m1, src));
    let v = match src {
        Err(e) => {
            return Err(e);
        },
        Ok(v) => v,
    };
    let d = operator::ay_ai_16(core);
    let ghost m2 = *core;
    assert(operator::ay_ai_16_rel(m1, m2, d));
    match d {
        Err(e) => Err(e),
        Ok(dv) => {
            let _ = common::cmp_16(core, dv, v);
            Ok(Cycles(12))
        },
    }
}

/// What `cmpi_16_pi` does: the core goes from `c0` to `c1` and `r` comes back.
pub open spec fn cmpi_16_pi_effect(c0: ConfiguredCore, c1: ConfiguredCore, r: Result<Cycles>) -> bool {
    &&& exists|m1: ConfiguredCore, src: Result<u32>|
            #[trigger] operator::imm_16_rel(c0, m1, src) && match src {
                Err(e) => r == Err::<Cycles, Exception>(e) && c1 == m1,
                Ok(v) => exists|m2: ConfiguredCore, d: Result<u32>|
                    #[trigger] operator::ay_pi_16_rel(m1, m2, d) && match d {
                        Err(e) => r == Err::<Cycles, Exception>(e) && c1 == m2,
                        Ok(dv) => r == Ok::<Cycles, Exception>(Cycles(12))
                            && c1 == common::compare_16_outcome(m2, dv, v).0,
                    },
            }
}

pub fn cmpi_16_pi(core: &mut ConfiguredCore) -> (r: Result<Cycles>)
    requires
        old(core).wf(),
    ensures
        final(core).wf(),
        cmpi_16_pi_effect(*old(core), *final(core), r),
{
    let ghost c0 = *core;
    let src = operator::imm_16(core);
    let ghost m1 = *core;
    assert(operator::imm_16_rel(c0, m1, src));
    let v = match src {
        Err(e) => {
            return Err(e);
        },
        Ok(v) => v,
    };
    let d = operator::ay_pi_16(core);
    let ghost m2 = *core;
    assert(operator::ay_pi_16_rel(m1, m2, d));
    match d {
        Err(e) => Err(e),
        Ok(dv) => {
            let _ = common::cmp_16(core, dv, v);
            Ok(Cycles(12))
        },
    }
}

/// What `cmpi_16_pd` does: the core goes from `c0` to `c1` and `r` comes back.
pub open spec fn cmpi_16_pd_effect(c0: ConfiguredCore, c1: ConfiguredCore, r: Result<Cycles>) -> bool {
    &&& exists|m1: ConfiguredCore, src: Result<u32>|
            #[trigger] operator::imm_16_rel(c0, m1, src) && match src {
                Err(e) => r == Err::<Cycles, Exception>(e) && c1 == m1,
                Ok(v) => exists|m2: ConfiguredCore, d: Result<u32>|
                    #[trigger] operator::ay_pd_16_rel(m1, m2, d) && match d {
                        Err(e) => r == Err::<Cycles, Exception>(e) && c1 == m2,
                        Ok(dv) => r == Ok::<Cycles, Exception>(Cycles(14))
                            && c1 == common::compare_16_outcome(m2, dv, v).0,
                    },
            }
}

pub fn cmpi_16_pd(core: &mut ConfiguredCore) -> (r: Result<Cycles>)
    requires
        old(core).wf(),
    ensures
        final(core).wf(),
        cmpi_16_pd_effect(*old(core), *final(core), r),
{
    let ghost c0 = *core;
    let src = operator::imm_16(core);
    let ghost m1 = *core;
    assert(operator::imm_16_rel(c0, m1, src));
    let v = match src {
        Err(e) => {
            return Err(e);
        },
        Ok(v) => v,
    };
    let d = operator::ay_pd_16(core);
    let ghost m2 = *core;
    assert(operator::ay_pd_16_rel(m1, m2, d));
    match d {
        Err(e) => Err(e),
        Ok(dv) => {
            let _ = common::cmp_16(core, dv, v);
            Ok(Cycles(14))
        },
    }
}

/// What `cmpi_16_di` does: the core goes from `c0` to `c1` and `r` comes back.
pub open spec fn cmpi_16_di_effect(c0: ConfiguredCore, c1: ConfiguredCore, r: Result<Cycles>) -> bool {
    &&& exists|m1: ConfiguredCore, src: Result<u32>|
            #[trigger] operator::imm_16_rel(c0, m1, src) && match src {
                Err(e) => r == Err::<Cycles, Exception>(e) && c1 == m1,
                Ok(v) => exists|m2: ConfiguredCore, d: Result<u32>|
                    #[trigger] operator::ay_di_16_rel(m1, m2, d) && match d {
                        Err(e) => r == Err::<Cycles, Exception>(e) && c1 == m2,
                        Ok(dv) => r == Ok::<Cycles, Exception>(Cycles(16))
                            && c1 == common::compare_16_outcome(m2, dv, v).0,
                    },
            }
}

pub fn cmpi_16_di(core: &mut ConfiguredCore) -> (r: Result<Cycles>)
    requires
        old(core).wf(),
    ensures
        final(core).wf(),
        cmpi_16_di_effect(*old(core), *final(core), r),
{
    let ghost c0 = *core;
    let src = operator::imm_16(core);
    let ghost m1 = *core;
    assert(operator::imm_16_rel(c0, m1, src));
    let v = match src {
        Err(e) => {
            return Err(e);
        },
        Ok(v) => v,
    };
    let d = operator::ay_di_16(core);
    let ghost m2 = *core;
    assert(operator::ay_di_16_rel(m1, m2, d));
    match d {
        Err(e) => Err(e),
        Ok(dv) => {
            let _ = common::cmp_16(core, dv, v);
            Ok(Cycles(16))
        },
    }
}

/// What `cmpi_16_ix` does: the core goes from `c0` to `c1` and `r` comes back.
pub open spec fn cmpi_16_ix_effect(c0: ConfiguredCore, c1: ConfiguredCore, r: Result<Cycles>) -> bool {
    &&& exists|m1: ConfiguredCore, src: Result<u32>|
            #[trigger] operator::imm_16_rel(c0, m1, src) && match src {
                Err(e) => r == Err::<Cycles, Exception>(e) && c1 == m1,
                Ok(v) => exists|m2: ConfiguredCore, d: Result<u32>|
                    #[trigger] operator::ay_ix_16_rel(m1, m2, d) && match d {
                        Err(e) => r == Err::<Cycles, Exception>(e) && c1 == m2,
                        Ok(dv) => r == Ok::<Cycles, Exception>(Cycles(18))
                            && c1 == common::compare_16_outcome(m2, dv, v).0,
                    },
            }
}

pub fn cmpi_16_ix(core: &mut ConfiguredCore) -> (r: Result<Cycles>)
    requires
        old(core).wf(),
    ensures
        final(core).wf(),
        cmpi_16_ix_effect(*old(core), *final(core), r),
{
    let ghost c0 = *core;
    let src = operator::imm_16(core);
    let ghost m1 = *core;
    assert(operator::imm_16_rel(c0, m1, src));
    let v = match src {
        Err(e) => {
            return Err(e);
        },
        Ok(v) => v,
    };
    let d = operator::ay_ix_16(core);
    let ghost m2 = *core;
    assert(operator::ay_ix_16_rel(m1, m2, d));
    match d {
        Err(e) => Err(e),
        Ok(dv) => {
            let _ = common::cmp_16(core, dv, v);
            Ok(Cycles(18))
        },
    }
}

/// What `cmpi_16_aw` does: the core goes from `c0` to `c1` and `r` comes back.
pub open spec fn cmpi_16_aw_effect(c0: ConfiguredCore, c1: ConfiguredCore, r: Result<Cycles>) -> bool {
    &&& exists|m1: ConfiguredCore, src: Result<u32>|
            #[trigger] operator::imm_16_rel(c0, m1, src) && match src {
                Err(e) => r == Err::<Cycles, Exception>(e) && c1 == m1,
                Ok(v) => exists|m2: ConfiguredCore, d: Result<u32>|
                    #[trigger] operator::aw_16_rel(m1, m2, d) && match d {
                        Err(e) => r == Err::<Cycles, Exception>(e) && c1 == m2,
                        Ok(dv) => r == Ok::<Cycles, Exception>(Cycles(16))
                            && c1 == common::compare_16_outcome(m2, dv, v).0,
                    },
            }
}

pub fn cmpi_16_aw(core: &mut ConfiguredCore) -> (r: Result<Cycles>)
    requires
        old(core).wf(),
    ensures
        final(core).wf(),
        cmpi_16_aw_effect(*old(core), *final(core), r),
{
    let ghost c0 = *core;
    let src = operator::imm_16(core);
    let ghost m1 = *core;
    assert(operator::imm_16_rel(c0, m1, src));
    let v = match src {
        Err(e) => {
            return Err(e);
        },
        Ok(v) => v,
    };
    let d = operator::aw_16(core);
    let ghost m2 = *core;
    assert(operator::aw_16_rel(m1, m2, d));
    match d {
        Err(e) => Err(e),
        Ok(dv) => {
            let _ = common::cmp_16(core, dv, v);
            Ok(Cycles(16))
        },
    }
}

/// What `cmpi_16_al` does: the core goes from `c0` to `c1` and `r` comes back.
pub open spec fn cmpi_16_al_effect(c0: ConfiguredCore, c1: ConfiguredCore, r: Result<Cycles>) -> bool {
    &&& exists|m1: ConfiguredCore, src: Result<u32>|
            #[trigger] operator::imm_16_rel(c0, m1, src) && match src {
                Err(e) => r == Err::<Cycles, Exception>(e) && c1 == m1,
                Ok(v) => exists|m2: ConfiguredCore, d: Result<u32>|
                    #[trigger] operator::al_16_rel(m1, m2, d) && match d {
                        Err(e) => r == Err::<Cycles, Exception>(e) && c1 == m2,
                        Ok(dv) => r == Ok::<Cycles, Exception>(Cycles(20))
                            && c1 == common::compare_16_outcome(m2, dv, v).0,
                    },
            }
}

pub fn cmpi_16_al(core: &mut ConfiguredCore) -> (r: Result<Cycles>)
    requires
        old(core).wf(),
    ensures
        final(core).wf(),
        cmpi_16_al_effect(*old(core), *final(core), r),
{
    let ghost c0 = *core;
    let src = operator::imm_16(core);
    let ghost m1 = *core;
    assert(operator::imm_16_rel(c0, m1, src));
    let v = match src {
        Err(e) => {
            return Err(e);
        },
        Ok(v) => v,
    };
    let d = operator::al_16(core);
    let ghost m2 = *core;
    assert(operator::al_16_rel(m1, m2, d));
    match d {
        Err(e) => Err(e),
        Ok(dv) => {
            let _ = common::cmp_16(core, dv, v);
            Ok(Cycles(20))
        },
    }
}

/// What `cmpi_32_dn` does: the core goes from `c0` to `c1` and `r` comes back.
pub open spec fn cmpi_32_dn_effect(c0: ConfiguredCore, c1: ConfiguredCore, r: Result<Cycles>) -> bool {
    &&& exists|m1: ConfiguredCore, src: Result<u32>|
            #[trigger] operator::imm_32_rel(c0, m1, src) && match src {
                Err(e) => r == Err::<Cycles, Exception>(e) && c1 == m1,
                Ok(v) => exists|m2: ConfiguredCore, d: Result<u32>|
                    #[trigger] operator::dy_rel(m1, m2, d) && match d {
                        Err(e) => r == Err::<Cycles, Exception>(e) && c1 == m2,
                        Ok(dv) => r == Ok::<Cycles, Exception>(Cycles(14))
                            && c1 == common::compare_32_outcome(m2, dv, v).0,
                    },
            }
}

pub fn cmpi_32_dn(core: &mut ConfiguredCore) -> (r: Result<Cycles>)
    requires
        old(core).wf(),
    ensures
        final(core).wf(),
        cmpi_32_dn_effect(*old(core), *final(core), r),
{
    let ghost c0 = *core;
    let src = operator::imm_32(core);
    let ghost m1 = *core;
    assert(operator::imm_32_rel(c0, m1, src));
    let v = match src {
        Err(e) => {
            return Err(e);
        },
        Ok(v) => v,
    };
    let d = operator::dy(core);
    let ghost m2 = *core;
    assert(operator::dy_rel(m1, m2, d));
    match d {
        Err(e) => Err(e),
        Ok(dv) => {
            let _ = common::cmp_32(core, dv, v);
            Ok(Cycles(14))
        },
    }
}

/// What `cmpi_32_ai` does: the core goes from `c0` to `c1` and `r` comes back.
pub open spec fn cmpi_32_ai_effect(c0: ConfiguredCore, c1: ConfiguredCore, r: Result<Cycles>) -> bool {
    &&& exists|m1: ConfiguredCore, src: Result<u32>|
            #[trigger] operator::imm_32_rel(c0, m1, src) && match src {
                Err(e) => r == Err::<Cycles, Exception>(e) && c1 == m1,
                Ok(v) => exists|m2: ConfiguredCore, d: Result<u32>|
                    #[trigger] operator::ay_ai_32_rel(m1, m2, d) && match d {
                        Err(e) => r == Err::<Cycles, Exception>(e) && c1 == m2,
                        Ok(dv) => r == Ok::<Cycles, Exception>(Cycles(20))
                            && c1 == common::compare_32_outcome(m2, dv, v).0,
                    },
            }
}

pub fn cmpi_32_ai(core: &mut ConfiguredCore) -> (r: Result<Cycles>)
    requires
        old(core).wf(),
    ensures
        final(core).wf(),
        cmpi_32_ai_effect(*old(core), *final(core), r),
{
    let ghost c0 = *core;
    let src = operator::imm_32(core);
    let ghost m1 = *core;
    assert(operator::imm_32_rel(c0, m1, src));
    let v = match src {
        Err(e) => {
            return Err(e);
        },
        Ok(v) => v,
    };
    let d = operator::ay_ai_32(core);
    let ghost m2 = *core;
    assert(operator::ay_ai_32_rel(m1, m2, d));
    match d {
        Err(e) => Err(e),
        Ok(dv) => {
            let _ = common::cmp_32(core, dv, v);
            Ok(Cycles(20))
        },
    }
}

/// What `cmpi_32_pi` does: the core goes from `c0` to `c1` and `r` comes back.
pub open spec fn cmpi_32_pi_effect(c0: ConfiguredCore, c1: ConfiguredCore, r: Result<Cycles>) -> bool {
    &&& exists|m1: ConfiguredCore, src: Result<u32>|
            #[trigger] operator::imm_32_rel(c0, m1, src) && match src {
                Err(e) => r == Err::<Cycles, Exception>(e) && c1 == m1,
                Ok(v) => exists|m2: ConfiguredCore, d: Result<u32>|
                    #[trigger] operator::ay_pi_32_rel(m1, m2, d) && match d {
                        Err(e) => r == Err::<Cycles, Exception>(e) && c1 == m2,
                        Ok(dv) => r == Ok::<Cycles, Exception>(Cycles(20))
                            && c1 == common::compare_32_outcome(m2, dv, v).0,
                    },
            }
}

pub fn cmpi_32_pi(core: &mut ConfiguredCore) -> (r: Result<Cycles>)
    requires
        old(core).wf(),
    ensures
        final(core).wf(),
        cmpi_32_pi_effect(*old(core), *final(core), r),
{
    let ghost c0 = *core;
    let src = operator::imm_32(core);
    let ghost m1 = *core;
    assert(operator::imm_32_rel(c0, m1, src));
    let v = match src {
        Err(e) => {
            return Err(e);
        },
        Ok(v) => v,
    };
    let d = operator::ay_pi_32(core);
    let ghost m2 = *core;
    assert(operator::ay_pi_32_rel(m1, m2, d));
    match d {
        Err(e) => Err(e),
        Ok(dv) => {
            let _ = common::cmp_32(core, dv, v);
            Ok(Cycles(20))
        },
    }
}

/// What `cmpi_32_pd` does: the core goes from `c0` to `c1` and `r` comes back.
pub open spec fn cmpi_32_pd_effect(c0: ConfiguredCore, c1: ConfiguredCore, r: Result<Cycles>) -> bool {
    &&& exists|m1: ConfiguredCore, src: Result<u32>|
            #[trigger] operator::imm_32_rel(c0, m1, src) && match src {
                Err(e) => r == Err::<Cycles, Exception>(e) && c1 == m1,
                Ok(v) => exists|m2: ConfiguredCore, d: Result<u32>|
                    #[trigger] operator::ay_pd_32_rel(m1, m2, d) && match d {
                        Err(e) => r == Err::<Cycles, Exception>(e) && c1 == m2,
                        Ok(dv) => r == Ok::<Cycles, Exception>(Cycles(22))
                            && c1 == common::compare_32_outcome(m2, dv, v).0,
                    },
            }
}

pub fn cmpi_32_pd(core: &mut ConfiguredCore) -> (r: Result<Cycles>)
    requires
        old(core).wf(),
    ensures
        final(core).wf(),
        cmpi_32_pd_effect(*old(core), *final(core), r),
{
    let ghost c0 = *core;
    let src = operator::imm_32(core);
    let ghost m1 = *core;
    assert(operator::imm_32_rel(c0, m1, src));
    let v = match src {
        Err(e) => {
            return Err(e);
        },
        Ok(v) => v,
    };
    let d = operator::ay_pd_32(core);
    let ghost m2 = *core;
    assert(operator::ay_pd_32_rel(m1, m2, d));
    match d {
        Err(e) => Err(e),
        Ok(dv) => {
            let _ = common::cmp_32(core, dv, v);
            Ok(Cycles(22))
        },
    }
}

/// What `cmpi_32_di` does: the core goes from `c0` to `c1` and `r` comes back.
pub open spec fn cmpi_32_di_effect(c0: ConfiguredCore, c1: ConfiguredCore, r: Result<Cycles>) -> bool {
    &&& exists|m1: ConfiguredCore, src: Result<u32>|
            #[trigger] operator::imm_32_rel(c0, m1, src) && match src {
                Err(e) => r == Err::<Cycles, Exception>(e) && c1 == m1,
                Ok(v) => exists|m2: ConfiguredCore, d: Result<u32>|
                    #[trigger] operator::ay_di_32_rel(m1, m2, d) && match d {
                        Err(e) => r == Err::<Cycles, Exception>(e) && c1 == m2,
                        Ok(dv) => r == Ok::<Cycles, Exception>(Cycles(24))
                            && c1 == common::compare_32_outcome(m2, dv, v).0,
                    },
            }
}

pub fn cmpi_32_di(core: &mut ConfiguredCore) -> (r: Result<Cycles>)
    requires
        old(core).wf(),
    ensures
        final(core).wf(),
        cmpi_32_di_effect(*old(core), *final(core), r),
{
    let ghost c0 = *core;
    let src = operator::imm_32(core);
    let ghost m1 = *core;
    assert(operator::imm_32_rel(c0, m1, src));
    let v = match src {
        Err(e) => {
            return Err(e);
        },
        Ok(v) => v,
    };
    let d = operator::ay_di_32(core);
    let ghost m2 = *core;
    assert(operator::ay_di_32_rel(m1, m2, d));
    match d {
        Err(e) => Err(e),
        Ok(dv) => {
            let _ = common::cmp_32(core, dv, v);
            Ok(Cycles(24))
        },
    }
}

/// What `cmpi_32_ix` does: the core goes from `c0` to `c1` and `r` comes back.
pub open spec fn cmpi_32_ix_effect(c0: ConfiguredCore, c1: ConfiguredCore, r: Result<Cycles>) -> bool {
    &&& exists|m1: ConfiguredCore, src: Result<u32>|
            #[trigger] operator::imm_32_rel(c0, m1, src) && match src {
                Err(e) => r == Err::<Cycles, Exception>(e) && c1 == m1,
                Ok(v) => exists|m2: ConfiguredCore, d: Result<u32>|
                    #[trigger] operator::ay_ix_32_rel(m1, m2, d) && match d {
                        Err(e) => r == Err::<Cycles, Exception>(e) && c1 == m2,
                        Ok(dv) => r == Ok::<Cycles, Exception>(Cycles(26))
                            && c1 == common::compare_32_outcome(m2, dv, v).0,
                    },
            }
}

pub fn cmpi_32_ix(core: &mut ConfiguredCore) -> (r: Result<Cycles>)
    requires
        old(core).wf(),
    ensures
        final(core).wf(),
        cmpi_32_ix_effect(*old(core), *final(core), r),
{
    let ghost c0 = *core;
    let src = operator::imm_32(core);
    let ghost m1 = *core;
    assert(operator::imm_32_rel(c0, m1, src));
    let v = match src {
        Err(e) => {
            return Err(e);
        },
        Ok(v) => v,
    };
    let d = operator::ay_ix_32(core);
    let ghost m2 = *core;
    assert(operator::ay_ix_32_rel(m1, m2, d));
    match d {
        Err(e) => Err(e),
        Ok(dv) => {
            let _ = common::cmp_32(core, dv, v);
            Ok(Cycles(26))
        },
    }
}

/// What `cmpi_32_aw` does: the core goes from `c0` to `c1` and `r` comes back.
pub open spec fn cmpi_32_aw_effect(c0: ConfiguredCore, c1: ConfiguredCore, r: Result<Cycles>) -> bool {
    &&& exists|m1: ConfiguredCore, src: Result<u32>|
            #[trigger] operator::imm_32_rel(c0, m1, src) && match src {
                Err(e) => r == Err::<Cycles, Exception>(e) && c1 == m1,
                Ok(v) => exists|m2: ConfiguredCore, d: Result<u32>|
                    #[trigger] operator::aw_32_rel(m1, m2, d) && match d {
                        Err(e) => r == Err::<Cycles, Exception>(e) && c1 == m2,
                        Ok(dv) => r == Ok::<Cycles, Exception>(Cycles(24))
                            && c1 == common::compare_32_outcome(m2, dv, v).0,
                    },
            }
}

pub fn cmpi_32_aw(core: &mut ConfiguredCore) -> (r: Result<Cycles>)
    requires
        old(core).wf(),
    ensures
        final(core).wf(),
        cmpi_32_aw_effect(*old(core), *final(core), r),
{
    let ghost c0 = *core;
    let src = operator::imm_32(core);
    let ghost m1 = *core;
    assert(operator::imm_32_rel(c0, m1, src));
    let v = match src {
        Err(e) => {
            return Err(e);
        },
        Ok(v) => v,
    };
    let d = operator::aw_32(core);
    let ghost m2 = *core;
    assert(operator::aw_32_rel(m1, m2, d));
    match d {
        Err(e) => Err(e),
        Ok(dv) => {
            let _ = common::cmp_32(core, dv, v);
            Ok(Cycles(24))
        },
    }
}

/// What `cmpi_32_al` does: the core goes from `c0` to `c1` and `r` comes back.
pub open spec fn cmpi_32_al_effect(c0: ConfiguredCore, c1: ConfiguredCore, r: Result<Cycles>) -> bool {
    &&& exists|m1: ConfiguredCore, src: Result<u32>|
            #[trigger] operator::imm_32_rel(c0, m1, src) && match src {
                Err(e) => r == Err::<Cycles, Exception>(e) && c1 == m1,
                Ok(v) => exists|m2: ConfiguredCore, d: Result<u32>|
                    #[trigger] operator::al_32_rel(m1, m2, d) && match d {
                        Err(e) => r == Err::<Cycles, Exception>(e) && c1 == m2,
                        Ok(dv) => r == Ok::<Cycles, Exception>(Cycles(28))
                            && c1 == common::compare_32_outcome(m2, dv, v).0,
                    },
            }
}

pub fn cmpi_32_al(core: &mut ConfiguredCore) -> (r: Result<Cycles>)
    requires
        old(core).wf(),
    ensures
        final(core).wf(),
        cmpi_32_al_effect(*old(core), *final(core), r),
{
    let ghost c0 = *core;
    let src = operator::imm_32(core);
    let ghost m1 = *core;
    assert(operator::imm_32_rel(c0, m1, src));
    let v = match src {
        Err(e) => {
            return Err(e);
        },
        Ok(v) => v,
    };
    let d = operator::al_32(core);
    let ghost m2 = *core;
    assert(operator::al_32_rel(m1, m2, d));
    match d {
        Err(e) => Err(e),
        Ok(dv) => {
            let _ = common::cmp_32(core, dv, v);
            Ok(Cycles(28))
        },
    }
}

/// What `eor_8_dn` does: the core goes from `c0` to `c1` and `r` comes back.
pub open spec fn eor_8_dn_effect(c0: ConfiguredCore, c1: ConfiguredCore, r: Result<Cycles>) -> bool {
    &&& exists|mid: ConfiguredCore, src: Result<u32>|
            #[trigger] operator::dx_rel(c0, mid, src) && match src {
                Err(e) => r == Err::<Cycles, Exception>(e) && c1 == mid,
                Ok(v) => {
                    let reg = ir_dy(mid.ir);
                    let o = common::eor_8_outcome(mid, mid.dar[reg], v);
                    &&& r == Ok::<Cycles, Exception>(Cycles(4))
                    &&& reg_set(o.0, c1, reg, merged(mid.dar[reg], o.1, 8))
                },
            }
}

pub fn eor_8_dn(core: &mut ConfiguredCore) -> (r: Result<Cycles>)
    requires
        old(core).wf(),
    ensures
        final(core).wf(),
        eor_8_dn_effect(*old(core), *final(core), r),
{
    let ghost c0 = *core;
    let src = operator::dx(core);
    let ghost mid = *core;
    assert(operator::dx_rel(c0, mid, src));
    match src {
        Err(e) => Err(e),
        Ok(v) => {
            let reg = reg_dy(core.ir);
            let dst = core.dar[reg];
            let res = common::eor_8(core, dst, v);
            set_reg(core, reg, merge(dst, res, 8));
            Ok(Cycles(4))
        },
    }
}

/// What `eor_8_ai` does: the core goes from `c0` to `c1` and `r` comes back.
pub open spec fn eor_8_ai_effect(c0: ConfiguredCore, c1: ConfiguredCore, r: Result<Cycles>) -> bool {
    &&& exists|m1: ConfiguredCore, src: Result<u32>|
            #[trigger] operator::dx_rel(c0, m1, src) && match src {
                Err(e) => r == Err::<Cycles, Exception>(e) && c1 == m1,
                Ok(v) => exists|m2: ConfiguredCore, d: Result<(u32, u32)>|
                    #[trigger] operator::ea_ay_ai_8_rel(m1, m2, d) && match d {
                        Err(e) => r == Err::<Cycles, Exception>(e) && c1 == m2,
                        Ok((dv, ea)) => {
                            let o = common::eor_8_outcome(m2, dv, v);
                            stored(o.0, c1, 8, ea, merged(dv, o.1, 8), r, 12)
                        },
                    },
            }
}

pub fn eor_8_ai(core: &mut ConfiguredCore) -> (r: Result<Cycles>)
    requires
        old(core).wf(),
    ensures
        final(core).wf(),
        eor_8_ai_effect(*old(core), *final(core), r),
{
    let ghost c0 = *core;
    let src = operator::dx(core);
    let ghost m1 = *core;
    assert(operator::dx_rel(c0, m1, src));
    let v = match src {
        Err(e) => {
            return Err(e);
        },
        Ok(v) => v,
    };
    let d = operator::ea_ay_ai_8(core);
    let ghost m2 = *core;
    assert(operator::ea_ay_ai_8_rel(m1, m2, d));
    let (dv, ea) = match d {
        Err(e) => {
            return Err(e);
        },
        Ok(p) => p,
    };
    let res = common::eor_8(core, dv, v);
    store(core, 8, ea, merge(dv, res, 8), 12)
}

/// What `eor_8_pi` does: the core goes from `c0` to `c1` and `r` comes back.
pub open spec fn eor_8_pi_effect(c0: ConfiguredCore, c1: ConfiguredCore, r: Result<Cycles>) -> bool {
    &&& exists|m1: ConfiguredCore, src: Result<u32>|
            #[trigger] operator::dx_rel(c0, m1, src) && match src {
                Err(e) => r == Err::<Cycles, Exception>(e) && c1 == m1,
                Ok(v) => exists|m2: ConfiguredCore, d: Result<(u32, u32)>|
                    #[trigger] operator::ea_ay_pi_8_rel(m1, m2, d) && match d {
                        Err(e) => r == Err::<Cycles, Exception>(e) && c1 == m2,
                        Ok((dv, ea)) => {
                            let o = common::eor_8_outcome(m2, dv, v);
                            stored(o.0, c1, 8, ea, merged(dv, o.1, 8), r, 12)
                        },
                    },
            }
}

pub fn eor_8_pi(core: &mut ConfiguredCore) -> (r: Result<Cycles>)
    requires
        old(core).wf(),
    ensures
        final(core).wf(),
        eor_8_pi_effect(*old(core), *final(core), r),
{
    let ghost c0 = *core;
    let src = operator::dx(core);
    let ghost m1 = *core;
    assert(operator::dx_rel(c0, m1, src));
    let v = match src {
        Err(e) => {
            return Err(e);
        },
        Ok(v) => v,
    };
    let d = operator::ea_ay_pi_8(core);
    let ghost m2 = *core;
    assert(operator::ea_ay_pi_8_rel(m1, m2, d));
    let (dv, ea) = match d {
        Err(e) => {
            return Err(e);
        },
        Ok(p) => p,
    };
    let res = common::eor_8(core, dv, v);
    store(core, 8, ea, merge(dv, res, 8), 12)
}

/// What `eor_8_pd` does: the core goes from `c0` to `c1` and `r` comes back.
pub open spec fn eor_8_pd_effect(c0: ConfiguredCore, c1: ConfiguredCore, r: Result<Cycles>) -> bool {
    &&& exists|m1: ConfiguredCore, src: Result<u32>|
            #[trigger] operator::dx_rel(c0, m1, src) && match src {
                Err(e) => r == Err::<Cycles, Exception>(e) && c1 == m1,
                Ok(v) => exists|m2: ConfiguredCore, d: Result<(u32, u32)>|
                    #[trigger] operator::ea_ay_pd_8_rel(m1, m2, d) && match d {
                        Err(e) => r == Err::<Cycles, Exception>(e) && c1 == m2,
                        Ok((dv, ea)) => {
                            let o = common::eor_8_outcome(m2, dv, v);
                            stored(o.0, c1, 8, ea, merged(dv, o.1, 8), r, 14)
                        },
                    },
            }
}

pub fn eor_8_pd(core: &mut ConfiguredCore) -> (r: Result<Cycles>)
    requires
        old(core).wf(),
    ensures
        final(core).wf(),
        eor_8_pd_effect(*old(core), *final(core), r),
{
    let ghost c0 = *core;
    let src = operator::dx(core);
    let ghost m1 = *core;
    assert(operator::dx_rel(c0, m1, src));
    let v = match src {
        Err(e) => {
            return Err(e);
        },
        Ok(v) => v,
    };
    let d = operator::ea_ay_pd_8(core);
    let ghost m2 = *core;
    assert(operator::ea_ay_pd_8_rel(m1, m2, d));
    let (dv, ea) = match d {
        Err(e) => {
            return Err(e);
        },
        Ok(p) => p,
    };
    let res = common::eor_8(core, dv, v);
    store(core, 8, ea, merge(dv, res, 8), 14)
}

/// What `eor_8_di` does: the core goes from `c0` to `c1` and `r` comes back.
pub open spec fn eor_8_di_effect(c0: ConfiguredCore, c1: ConfiguredCore, r: Result<Cycles>) -> bool {
    &&& exists|m1: ConfiguredCore, src: Result<u32>|
            #[trigger] operator::dx_rel(c0, m1, src) && match src {
                Err(e) => r == Err::<Cycles, Exception>(e) && c1 == m1,
                Ok(v) => exists|m2: ConfiguredCore, d: Result<(u32, u32)>|
                    #[trigger] operator::ea_ay_di_8_rel(m1, m2, d) && match d {
                        Err(e) => r == Err::<Cycles, Exception>(e) && c1 == m2,
                        Ok((dv, ea)) => {
                            let o = common::eor_8_outcome(m2, dv, v);
                            stored(o.0, c1, 8, ea, merged(dv, o.1, 8), r, 16)
                        },
                    },
            }
}

pub fn eor_8_di(core: &mut ConfiguredCore) -> (r: Result<Cycles>)
    requires
        old(core).wf(),
    ensures
        final(core).wf(),
        eor_8_di_effect(*old(core), *final(core), r),
{
    let ghost c0 = *core;
    let src = operator::dx(core);
    let ghost m1 = *core;
    assert(operator::dx_rel(c0, m1, src));
    let v = match src {
        Err(e) => {
            return Err(e);
        },
        Ok(v) => v,
    };
    let d = operator::ea_ay_di_8(core);
    let ghost m2 = *core;
    assert(operator::ea_ay_di_8_rel(m1, m2, d));
    let (dv, ea) = match d {
        Err(e) => {
            return Err(e);
        },
        Ok(p) => p,
    };
    let res = common::eor_8(core, dv, v);
    store(core, 8, ea, merge(dv, res, 8), 16)
}

/// What `eor_8_ix` does: the core goes from `c0` to `c1` and `r` comes back.
pub open spec fn eor_8_ix_effect(c0: ConfiguredCore, c1: ConfiguredCore, r: Result<Cycles>) -> bool {
    &&& exists|m1: ConfiguredCore, src: Result<u32>|
            #[trigger] operator::dx_rel(c0, m1, src) && match src {
                Err(e) => r == Err::<Cycles, Exception>(e) && c1 == m1,
                Ok(v) => exists|m2: ConfiguredCore, d: Result<(u32, u32)>|
                    #[trigger] operator::ea_ay_ix_8_rel(m1, m2, d) && match d {
                        Err(e) => r == Err::<Cycles, Exception>(e) && c1 == m2,
                        Ok((dv, ea)) => {
                            let o = common::eor_8_outcome(m2, dv, v);
                            stored(o.0, c1, 8, ea, merged(dv, o.1, 8), r, 18)
                        },
                    },
            }
}

pub fn eor_8_ix(core: &mut ConfiguredCore) -> (r: Result<Cycles>)
    requires
        old(core).wf(),
    ensures
        final(core).wf(),
        eor_8_ix_effect(*old(core), *final(core), r),
{
    let ghost c0 = *core;
    let src = operator::dx(core);
    let ghost m1 = *core;
    assert(operator::dx_rel(c0, m1, src));
    let v = match src {
        Err(e) => {
            return Err(e);
        },
        Ok(v) => v,
    };
    let d = operator::ea_ay_ix_8(core);
    let ghost m2 = *core;
    assert(operator::ea_ay_ix_8_rel(m1, m2, d));
    let (dv, ea) = match d {
        Err(e) => {
            return Err(e);
        },
        Ok(p) => p,
    };
    let res = common::eor_8(core, dv, v);
    store(core, 8, ea, merge(dv, res, 8), 18)
}

/// What `eor_8_aw` does: the core goes from `c0` to `c1` and `r` comes back.
pub open spec fn eor_8_aw_effect(c0: ConfiguredCore, c1: ConfiguredCore, r: Result<Cycles>) -> bool {
    &&& exists|m1: ConfiguredCore, src: Result<u32>|
            #[trigger] operator::dx_rel(c0, m1, src) && match src {
                Err(e) => r == Err::<Cycles, Exception>(e) && c1 == m1,
                Ok(v) => exists|m2: ConfiguredCore, d: Result<(u32, u32)>|
                    #[trigger] operator::ea_aw_8_rel(m1, m2, d) && match d {
                        Err(e) => r == Err::<Cycles, Exception>(e) && c1 == m2,
                        Ok((dv, ea)) => {
                            let o = common::eor_8_outcome(m2, dv, v);
                            stored(o.0, c1, 8, ea, merged(dv, o.1, 8), r, 16)
                        },
                    },
            }
}

pub fn eor_8_aw(core: &mut ConfiguredCore) -> (r: Result<Cycles>)
    requires
        old(core).wf(),
    ensures
        final(core).wf(),
        eor_8_aw_effect(*old(core), *final(core), r),
{
    let ghost c0 = *core;
    let src = operator::dx(core);
    let ghost m1 = *core;
    assert(operator::dx_rel(c0, m1, src));
    let v = match src {
        Err(e) => {
            return Err(e);
        },
        Ok(v) => v,
    };
    let d = operator::ea_aw_8(core);
    let ghost m2 = *core;
    assert(operator::ea_aw_8_rel(m1, m2, d));
    let (dv, ea) = match d {
        Err(e) => {
            return Err(e);
        },
        Ok(p) => p,
    };
    let res = common::eor_8(core, dv, v);
    store(core, 8, ea, merge(dv, res, 8), 16)
}

/// What `eor_8_al` does: the core goes from `c0` to `c1` and `r` comes back.
pub open spec fn eor_8_al_effect(c0: ConfiguredCore, c1: ConfiguredCore, r: Result<Cycles>) -> bool {
    &&& exists|m1: ConfiguredCore, src: Result<u32>|
            #[trigger] operator::dx_rel(c0, m1, src) && match src {
                Err(e) => r == Err::<Cycles, Exception>(e) && c1 == m1,
                Ok(v) => exists|m2: ConfiguredCore, d: Result<(u32, u32)>|
                    #[trigger] operator::ea_al_8_rel(m1, m2, d) && match d {
                        Err(e) => r == Err::<Cycles, Exception>(e) && c1 == m2,
                        Ok((dv, ea)) => {
                            let o = common::eor_8_outcome(m2, dv, v);
                            stored(o.0, c1, 8, ea, merged(dv, o.1, 8), r, 20)
                        },
                    },
            }
}

pub fn eor_8_al(core: &mut ConfiguredCore) -> (r: Result<Cycles>)
    requires
        old(core).wf(),
    ensures
        final(core).wf(),
        eor_8_al_effect(*old(core), *final(core), r),
{
    let ghost c0 = *core;
    let src = operator::dx(core);
    let ghost m1 = *core;
    assert(operator::dx_rel(c0, m1, src));
    let v = match src {
        Err(e) => {
            return Err(e);
        },
        Ok(v) => v,
    };
    let d = operator::ea_al_8(core);
    let ghost m2 = *core;
    assert(operator::ea_al_8_rel(m1, m2, d));
    let (dv, ea) = match d {
        Err(e) => {
            return Err(e);
        },
        Ok(p) => p,
    };
    let res = common::eor_8(core, dv, v);
    store(core, 8, ea, merge(dv, res, 8), 20)
}

/// What `eor_16_dn` does: the core goes from `c0` to `c1` and `r` comes back.
pub open spec fn eor_16_dn_effect(c0: ConfiguredCore, c1: ConfiguredCore, r: Result<Cycles>) -> bool {
    &&& exists|mid: ConfiguredCore, src: Result<u32>|
            #[trigger] operator::dx_rel(c0, mid, src) && match src {
                Err(e) => r == Err::<Cycles, Exception>(e) && c1 == mid,
                Ok(v) => {
                    let reg = ir_dy(mid.ir);
                    let o = common::eor_16_outcome(mid, mid.dar[reg], v);
                    &&& r == Ok::<Cycles, Exception>(Cycles(4))
                    &&& reg_set(o.0, c1, reg, merged(mid.dar[reg], o.1, 16))
                },
            }
}

pub fn eor_16_dn(core: &mut ConfiguredCore) -> (r: Result<Cycles>)
    requires
        old(core).wf(),
    ensures
        final(core).wf(),
        eor_16_dn_effect(*old(core), *final(core), r),
{
    let ghost c0 = *core;
    let src = operator::dx(core);
    let ghost mid = *core;
    assert(operator::dx_rel(c0, mid, src));
    match src {
        Err(e) => Err(e),
        Ok(v) => {
            let reg = reg_dy(core.ir);
            let dst = core.dar[reg];
            let res = common::eor_16(core, dst, v);
            set_reg(core, reg, merge(dst, res, 16));
            Ok(Cycles(4))
        },
    }
}

/// What `eor_16_ai` does: the core goes from `c0` to `c1` and `r` comes back.
pub open spec fn eor_16_ai_effect(c0: ConfiguredCore, c1: ConfiguredCore, r: Result<Cycles>) -> bool {
    &&& exists|m1: ConfiguredCore, src: Result<u32>|
            #[trigger] operator::dx_rel(c0, m1, src) && match src {
                Err(e) => r == Err::<Cycles, Exception>(e) && c1 == m1,
                Ok(v) => exists|m2: ConfiguredCore, d: Result<(u32, u32)>|
                    #[trigger] operator::ea_ay_ai_16_rel(m1, m2, d) && match d {
                        Err(e) => r == Err::<Cycles, Exception>(e) && c1 == m2,
                        Ok((dv, ea)) => {
                            let o = common::eor_16_outcome(m2, dv, v);
                            stored(o.0, c1, 16, ea, merged(dv, o.1, 16), r, 12)
                        },
                    },
            }
}

pub fn eor_16_ai(core: &mut ConfiguredCore) -> (r: Result<Cycles>)
    requires
        old(core).wf(),
    ensures
        final(core).wf(),
        eor_16_ai_effect(*old(core), *final(core), r),
{
    let ghost c0 = *core;
    let src = operator::dx(core);
    let ghost m1 = *core;
    assert(operator::dx_rel(c0, m1, src));
    let v = match src {
        Err(e) => {
            return Err(e);
        },
        Ok(v) => v,
    };
    let d = operator::ea_ay_ai_16(core);
    let ghost m2 = *core;
    assert(operator::ea_ay_ai_16_rel(m1, m2, d));
    let (dv, ea) = match d {
        Err(e) => {
            return Err(e);
        },
        Ok(p) => p,
    };
    let res = common::eor_16(core, dv, v);
    store(core, 16, ea, merge(dv, res, 16), 12)
}

/// What `eor_16_pi` does: the core goes from `c0` to `c1` and `r` comes back.
pub open spec fn eor_16_pi_effect(c0: ConfiguredCore, c1: ConfiguredCore, r: Result<Cycles>) -> bool {
    &&& exists|m1: ConfiguredCore, src: Result<u32>|
            #[trigger] operator::dx_rel(c0, m1, src) && match src {
                Err(e) => r == Err::<Cycles, Exception>(e) && c1 == m1,
                Ok(v) => exists|m2: ConfiguredCore, d: Result<(u32, u32)>|
                    #[trigger] operator::ea_ay_pi_16_rel(m1, m2, d) && match d {
                        Err(e) => r == Err::<Cycles, Exception>(e) && c1 == m2,
                        Ok((dv, ea)) => {
                            let o = common::eor_16_outcome(m2, dv, v);
                            stored(o.0, c1, 16, ea, merged(dv, o.1, 16), r, 12)
                        },
                    },
            }
}

pub fn eor_16_pi(core: &mut ConfiguredCore) -> (r: Result<Cycles>)
    requires
        old(core).wf(),
    ensures
        final(core).wf(),
        eor_16_pi_effect(*old(core), *final(core), r),
{
    let ghost c0 = *core;
    let src = operator::dx(core);
    let ghost m1 = *core;
    assert(operator::dx_rel(c0, m1, src));
    let v = match src {
        Err(e) => {
            return Err(e);
        },
        Ok(v) => v,
    };
    let d = operator::ea_ay_pi_16(core);
    let ghost m2 = *core;
    assert(operator::ea_ay_pi_16_rel(m1, m2, d));
    let (dv, ea) = match d {
        Err(e) => {
            return Err(e);
        },
        Ok(p) => p,
    };
    let res = common::eor_16(core, dv, v);
    store(core, 16, ea, merge(dv, res, 16), 12)
}

/// What `eor_16_pd` does: the core goes from `c0` to `c1` and `r` comes back.
pub open spec fn eor_16_pd_effect(c0: ConfiguredCore, c1: ConfiguredCore, r: Result<Cycles>) -> bool {
    &&& exists|m1: ConfiguredCore, src: Result<u32>|
            #[trigger] operator::dx_rel(c0, m1, src) && match src {
                Err(e) => r == Err::<Cycles, Exception>(e) && c1 == m1,
                Ok(v) => exists|m2: ConfiguredCore, d: Result<(u32, u32)>|
                    #[trigger] operator::ea_ay_pd_16_rel(m1, m2, d) && match d {
                        Err(e) => r == Err::<Cycles, Exception>(e) && c1 == m2,
                        Ok((dv, ea)) => {
                            let o = common::eor_16_outcome(m2, dv, v);
                            stored(o.0, c1, 16, ea, merged(dv, o.1, 16), r, 14)
                        },
                    },
            }
}

pub fn eor_16_pd(core: &mut ConfiguredCore) -> (r: Result<Cycles>)
    requires
        old(core).wf(),
    ensures
        final(core).wf(),
        eor_16_pd_effect(*old(core), *final(core), r),
{
    let ghost c0 = *core;
    let src = operator::dx(core);
    let ghost m1 = *core;
    assert(operator::dx_rel(c0, m1, src));
    let v = match src {
        Err(e) => {
            return Err(e);
        },
        Ok(v) => v,
    };
    let d = operator::ea_ay_pd_16(core);
    let ghost m2 = *core;
    assert(operator::ea_ay_pd_16_rel(m1, m2, d));
    let (dv, ea) = match d {
        Err(e) => {
            return Err(e);
        },
        Ok(p) => p,
    };
    let res = common::eor_16(core, dv, v);
    store(core, 16, ea, merge(dv, res, 16), 14)
}

/// What `eor_16_di` does: the core goes from `c0` to `c1` and `r` comes back.
pub open spec fn eor_16_di_effect(c0: ConfiguredCore, c1: ConfiguredCore, r: Result<Cycles>) -> bool {
    &&& exists|m1: ConfiguredCore, src: Result<u32>|
            #[trigger] operator::dx_rel(c0, m1, src) && match src {
                Err(e) => r == Err::<Cycles, Exception>(e) && c1 == m1,
                Ok(v) => exists|m2: ConfiguredCore, d: Result<(u32, u32)>|
                    #[trigger] operator::ea_ay_di_16_rel(m1, m2, d) && match d {
                        Err(e) => r == Err::<Cycles, Exception>(e) && c1 == m2,
                        Ok((dv, ea)) => {
                            let o = common::eor_16_outcome(m2, dv, v);
                            stored(o.0, c1, 16, ea, merged(dv, o.1, 16), r, 16)
                        },
                    },
            }
}

pub fn eor_16_di(core: &mut ConfiguredCore) -> (r: Result<Cycles>)
    requires
        old(core).wf(),
    ensures
        final(core).wf(),
        eor_16_di_effect(*old(core), *final(core), r),
{
    let ghost c0 = *core;
    let src = operator::dx(core);
    let ghost m1 = *core;
    assert(operator::dx_rel(c0, m1, src));
    let v = match src {
        Err(e) => {
            return Err(e);
        },
        Ok(v) => v,
    };
    let d = operator::ea_ay_di_16(core);
    let ghost m2 = *core;
    assert(operator::ea_ay_di_16_rel(m1, m2, d));
    let (dv, ea) = match d {
        Err(e) => {
            return Err(e);
        },
        Ok(p) => p,
    };
    let res = common::eor_16(core, dv, v);
    store(core, 16, ea, merge(dv, res, 16), 16)
}

/// What `eor_16_ix` does: the core goes from `c0` to `c1` and `r` comes back.
pub open spec fn eor_16_ix_effect(c0: ConfiguredCore, c1: ConfiguredCore, r: Result<Cycles>) -> bool {
    &&& exists|m1: ConfiguredCore, src: Result<u32>|
            #[trigger] operator::dx_rel(c0, m1, src) && match src {
                Err(e) => r == Err::<Cycles, Exception>(e) && c1 == m1,
                Ok(v) => exists|m2: ConfiguredCore, d: Result<(u32, u32)>|
                    #[trigger] operator::ea_ay_ix_16_rel(m1, m2, d) && match d {
                        Err(e) => r == Err::<Cycles, Exception>(e) && c1 == m2,
                        Ok((dv, ea)) => {
                            let o = common::eor_16_outcome(m2, dv, v);
                            stored(o.0, c1, 16, ea, merged(dv, o.1, 16), r, 18)
                        },
                    },
            }
}

pub fn eor_16_ix(core: &mut ConfiguredCore) -> (r: Result<Cycles>)
    requires
        old(core).wf(),
    ensures
        final(core).wf(),
        eor_16_ix_effect(*old(core), *final(core), r),
{
    let ghost c0 = *core;
    let src = operator::dx(core);
    let ghost m1 = *core;
    assert(operator::dx_rel(c0, m1, src));
    let v = match src {
        Err(e) => {
            return Err(e);
        },
        Ok(v) => v,
    };
    let d = operator::ea_ay_ix_16(core);
    let ghost m2 = *core;
    assert(operator::ea_ay_ix_16_rel(m1, m2, d));
    let (dv, ea) = match d {
        Err(e) => {
            return Err(e);
        },
        Ok(p) => p,
    };
    let res = common::eor_16(core, dv, v);
    store(core, 16, ea, merge(dv, res, 16), 18)
}

/// What `eor_16_aw` does: the core goes from `c0` to `c1` and `r` comes back.
pub open spec fn eor_16_aw_effect(c0: ConfiguredCore, c1: ConfiguredCore, r: Result<Cycles>) -> bool {
    &&& exists|m1: ConfiguredCore, src: Result<u32>|
            #[trigger] operator::dx_rel(c0, m1, src) && match src {
                Err(e) => r == Err::<Cycles, Exception>(e) && c1 == m1,
                Ok(v) => exists|m2: ConfiguredCore, d: Result<(u32, u32)>|
                    #[trigger] operator::ea_aw_16_rel(m1, m2, d) && match d {
                        Err(e) => r == Err::<Cycles, Exception>(e) && c1 == m2,
                        Ok((dv, ea)) => {
                            let o = common::eor_16_outcome(m2, dv, v);
                            stored(o.0, c1, 16, ea, merged(dv, o.1, 16), r, 16)
                        },
                    },
            }
}

pub fn eor_16_aw(core: &mut ConfiguredCore) -> (r: Result<Cycles>)
    requires
        old(core).wf(),
    ensures
        final(core).wf(),
        eor_16_aw_effect(*old(core), *final(core), r),
{
    let ghost c0 = *core;
    let src = operator::dx(core);
    let ghost m1 = *core;
    assert(operator::dx_rel(c0, m1, src));
    let v = match src {
        Err(e) => {
            return Err(e);
        },
        Ok(v) => v,
    };
    let d = operator::ea_aw_16(core);
    let ghost m2 = *core;
    assert(operator::ea_aw_16_rel(m1, m2, d));
    let (dv, ea) = match d {
        Err(e) => {
            return Err(e);
        },
        Ok(p) => p,
    };
    let res = common::eor_16(core, dv, v);
    store(core, 16, ea, merge(dv, res, 16), 16)
}

/// What `eor_16_al` does: the core goes from `c0` to `c1` and `r` comes back.
pub open spec fn eor_16_al_effect(c0: ConfiguredCore, c1: ConfiguredCore, r: Result<Cycles>) -> bool {
    &&& exists|m1: ConfiguredCore, src: Result<u32>|
            #[trigger] operator::dx_rel(c0, m1, src) && match src {
                Err(e) => r == Err::<Cycles, Exception>(e) && c1 == m1,
                Ok(v) => exists|m2: ConfiguredCore, d: Result<(u32, u32)>|
                    #[trigger] operator::ea_al_16_rel(m1, m2, d) && match d {
                        Err(e) => r == Err::<Cycles, Exception>(e) && c1 == m2,
                        Ok((dv, ea)) => {
                            let o = common::eor_16_outcome(m2, dv, v);
                            stored(o.0, c1, 16, ea, merged(dv, o.1, 16), r, 20)
                        },
                    },
            }
}

pub fn eor_16_al(core: &mut ConfiguredCore) -> (r: Result<Cycles>)
    requires
        old(core).wf(),
    ensures
        final(core).wf(),
        eor_16_al_effect(*old(core), *final(core), r),
{
    let ghost c0 = *core;
    let src = operator::dx(core);
    let ghost m1 = *core;
    assert(operator::dx_rel(c0, m1, src));
    let v = match src {
        Err(e) => {
            return Err(e);
        },
        Ok(v) => v,
    };
    let d = operator::ea_al_16(core);
    let ghost m2 = *core;
    assert(operator::ea_al_16_rel(m1, m2, d));
    let (dv, ea) = match d {
        Err(e) => {
            return Err(e);
        },
        Ok(p) => p,
    };
    let res = common::eor_16(core, dv, v);
    store(core, 16, ea, merge(dv, res, 16), 20)
}

/// What `eor_32_dn` does: the core goes from `c0` to `c1` and `r` comes back.
pub open spec fn eor_32_dn_effect(c0: ConfiguredCore, c1: ConfiguredCore, r: Result<Cycles>) -> bool {
    &&& exists|mid: ConfiguredCore, src: Result<u32>|
            #[trigger] operator::dx_rel(c0, mid, src) && match src {
                Err(e) => r == Err::<Cycles, Exception>(e) && c1 == mid,
                Ok(v) => {
                    let reg = ir_dy(mid.ir);
                    let o = common::eor_32_outcome(mid, mid.dar[reg], v);
                    &&& r == Ok::<Cycles, Exception>(Cycles(8))
                    &&& reg_set(o.0, c1, reg, merged(mid.dar[reg], o.1, 32))
                },
            }
}

pub fn eor_32_dn(core: &mut ConfiguredCore) -> (r: Result<Cycles>)
    requires
        old(core).wf(),
    ensures
        final(core).wf(),
        eor_32_dn_effect(*old(core), *final(core), r),
{
    let ghost c0 = *core;
    let src = operator::dx(core);
    let ghost mid = *core;
    assert(operator::dx_rel(c0, mid, src));
    match src {
        Err(e) => Err(e),
        Ok(v) => {
            let reg = reg_dy(core.ir);
            let dst = core.dar[reg];
            let res = common::eor_32(core, dst, v);
            set_reg(core, reg, merge(dst, res, 32));
            Ok(Cycles(8))
        },
    }
}

/// What `eor_32_ai` does: the core goes from `c0` to `c1` and `r` comes back.
pub open spec fn eor_32_ai_effect(c0: ConfiguredCore, c1: ConfiguredCore, r: Result<Cycles>) -> bool {
    &&& exists|m1: ConfiguredCore, src: Result<u32>|
            #[trigger] operator::dx_rel(c0, m1, src) && match src {
                Err(e) => r == Err::<Cycles, Exception>(e) && c1 == m1,
                Ok(v) => exists|m2: ConfiguredCore, d: Result<(u32, u32)>|
                    #[trigger] operator::ea_ay_ai_32_rel(m1, m2, d) && match d {
                        Err(e) => r == Err::<Cycles, Exception>(e) && c1 == m2,
                        Ok((dv, ea)) => {
                            let o = common::eor_32_outcome(m2, dv, v);
                            stored(o.0, c1, 32, ea, merged(dv, o.1, 32), r, 20)
                        },
                    },
            }
}

pub fn eor_32_ai(core: &mut ConfiguredCore) -> (r: Result<Cycles>)
    requires
        old(core).wf(),
    ensures
        final(core).wf(),
        eor_32_ai_effect(*old(core), *final(core), r),
{
    let ghost c0 = *core;
    let src = operator::dx(core);
    let ghost m1 = *core;
    assert(operator::dx_rel(c0, m1, src));
    let v = match src {
        Err(e) => {
            return Err(e);
        },
        Ok(v) => v,
    };
    let d = operator::ea_ay_ai_32(core);
    let ghost m2 = *core;
    assert(operator::ea_ay_ai_32_rel(m1, m2, d));
    let (dv, ea) = match d {
        Err(e) => {
            return Err(e);
        },
        Ok(p) => p,
    };
    let res = common::eor_32(core, dv, v);
    store(core, 32, ea, merge(dv, res, 32), 20)
}

/// What `eor_32_pi` does: the core goes from `c0` to `c1` and `r` comes back.
pub open spec fn eor_32_pi_effect(c0: ConfiguredCore, c1: ConfiguredCore, r: Result<Cycles>) -> bool {
    &&& exists|m1: ConfiguredCore, src: Result<u32>|
            #[trigger] operator::dx_rel(c0, m1, src) && match src {
                Err(e) => r == Err::<Cycles, Exception>(e) && c1 == m1,
                Ok(v) => exists|m2: ConfiguredCore, d: Result<(u32, u32)>|
                    #[trigger] operator::ea_ay_pi_32_rel(m1, m2, d) && match d {
                        Err(e) => r == Err::<Cycles, Exception>(e) && c1 == m2,
                        Ok((dv, ea)) => {
                            let o = common::eor_32_outcome(m2, dv, v);
                            stored(o.0, c1, 32, ea, merged(dv, o.1, 32), r, 20)
                        },
                    },
            }
}

pub fn eor_32_pi(core: &mut ConfiguredCore) -> (r: Result<Cycles>)
    requires
        old(core).wf(),
    ensures
        final(core).wf(),
        eor_32_pi_effect(*old(core), *final(core), r),
{
    let ghost c0 = *core;
    let src = operator::dx(core);
    let ghost m1 = *core;
    assert(operator::dx_rel(c0, m1, src));
    let v = match src {
        Err(e) => {
            return Err(e);
        },
        Ok(v) => v,
    };
    let d = operator::ea_ay_pi_32(core);
    let ghost m2 = *core;
    assert(operator::ea_ay_pi_32_rel(m1, m2, d));
    let (dv, ea) = match d {
        Err(e) => {
            return Err(e);
        },
        Ok(p) => p,
    };
    let res = common::eor_32(core, dv, v);
    store(core, 32, ea, merge(dv, res, 32), 20)
}

/// What `eor_32_pd` does: the core goes from `c0` to `c1` and `r` comes back.
pub open spec fn eor_32_pd_effect(c0: ConfiguredCore, c1: ConfiguredCore, r: Result<Cycles>) -> bool {
    &&& exists|m1: ConfiguredCore, src: Result<u32>|
            #[trigger] operator::dx_rel(c0, m1, src) && match src {
                Err(e) => r == Err::<Cycles, Exception>(e) && c1 == m1,
                Ok(v) => exists|m2: ConfiguredCore, d: Result<(u32, u32)>|
                    #[trigger] operator::ea_ay_pd_32_rel(m1, m2, d) && match d {
                        Err(e) => r == Err::<Cycles, Exception>(e) && c1 == m2,
                        Ok((dv, ea)) => {
                            let o = common::eor_32_outcome(m2, dv, v);
                            stored(o.0, c1, 32, ea, merged(dv, o.1, 32), r, 22)
                        },
                    },
            }
}

pub fn eor_32_pd(core: &mut ConfiguredCore) -> (r: Result<Cycles>)
    requires
        old(core).wf(),
    ensures
        final(core).wf(),
        eor_32_pd_effect(*old(core), *final(core), r),
{
    let ghost c0 = *core;
    let src = operator::dx(core);
    let ghost m1 = *core;
    assert(operator::dx_rel(c0, m1, src));
    let v = match src {
        Err(e) => {
            return Err(e);
        },
        Ok(v) => v,
    };
    let d = operator::ea_ay_pd_32(core);
    let ghost m2 = *core;
    assert(operator::ea_ay_pd_32_rel(m1, m2, d));
    let (dv, ea) = match d {
        Err(e) => {
            return Err(e);
        },
        Ok(p) => p,
    };
    let res = common::eor_32(core, dv, v);
    store(core, 32, ea, merge(dv, res, 32), 22)
}

/// What `eor_32_di` does: the core goes from `c0` to `c1` and `r` comes back.
pub open spec fn eor_32_di_effect(c0: ConfiguredCore, c1: ConfiguredCore, r: Result<Cycles>) -> bool {
    &&& exists|m1: ConfiguredCore, src: Result<u32>|
            #[trigger] operator::dx_rel(c0, m1, src) && match src {
                Err(e) => r == Err::<Cycles, Exception>(e) && c1 == m1,
                Ok(v) => exists|m2: ConfiguredCore, d: Result<(u32, u32)>|
                    #[trigger] operator::ea_ay_di_32_rel(m1, m2, d) && match d {
                        Err(e) => r == Err::<Cycles, Exception>(e) && c1 == m2,
                        Ok((dv, ea)) => {
                            let o = common::eor_32_outcome(m2, dv, v);
                            stored(o.0, c1, 32, ea, merged(dv, o.1, 32), r, 24)
                        },
                    },
            }
}

pub fn eor_32_di(core: &mut ConfiguredCore) -> (r: Result<Cycles>)
    requires
        old(core).wf(),
    ensures
        final(core).wf(),
        eor_32_di_effect(*old(core), *final(core), r),
{
    let ghost c0 = *core;
    let src = operator::dx(core);
    let ghost m1 = *core;
    assert(operator::dx_rel(c0, m1, src));
    let v = match src {
        Err(e) => {
            return Err(e);
        },
        Ok(v) => v,
    };
    let d = operator::ea_ay_di_32(core);
    let ghost m2 = *core;
    assert(operator::ea_ay_di_32_rel(m1, m2, d));
    let (dv, ea) = match d {
        Err(e) => {
            return Err(e);
        },
        Ok(p) => p,
    };
    let res = common::eor_32(core, dv, v);
    store(core, 32, ea, merge(dv, res, 32), 24)
}

/// What `eor_32_ix` does: the core goes from `c0` to `c1` and `r` comes back.
pub open spec fn eor_32_ix_effect(c0: ConfiguredCore, c1: ConfiguredCore, r: Result<Cycles>) -> bool {
    &&& exists|m1: ConfiguredCore, src: Result<u32>|
            #[trigger] operator::dx_rel(c0, m1, src) && match src {
                Err(e) => r == Err::<Cycles, Exception>(e) && c1 == m1,
                Ok(v) => exists|m2: ConfiguredCore, d: Result<(u32, u32)>|
                    #[trigger] operator::ea_ay_ix_32_rel(m1, m2, d) && match d {
                        Err(e) => r == Err::<Cycles, Exception>(e) && c1 == m2,
                        Ok((dv, ea)) => {
                            let o = common::eor_32_outcome(m2, dv, v);
                            stored(o.0, c1, 32, ea, merged(dv, o.1, 32), r, 26)
                        },
                    },
            }
}

pub fn eor_32_ix(core: &mut ConfiguredCore) -> (r: Result<Cycles>)
    requires
        old(core).wf(),
    ensures
        final(core).wf(),
        eor_32_ix_effect(*old(core), *final(core), r),
{
    let ghost c0 = *core;
    let src = operator::dx(core);
    let ghost m1 = *core;
    assert(operator::dx_rel(c0, m1, src));
    let v = match src {
        Err(e) => {
            return Err(e);
        },
        Ok(v) => v,
    };
    let d = operator::ea_ay_ix_32(core);
    let ghost m2 = *core;
    assert(operator::ea_ay_ix_32_rel(m1, m2, d));
    let (dv, ea) = match d {
        Err(e) => {
            return Err(e);
        },
        Ok(p) => p,
    };
    let res = common::eor_32(core, dv, v);
    store(core, 32, ea, merge(dv, res, 32), 26)
}

/// What `eor_32_aw` does: the core goes from `c0` to `c1` and `r` comes back.
pub open spec fn eor_32_aw_effect(c0: ConfiguredCore, c1: ConfiguredCore, r: Result<Cycles>) -> bool {
    &&& exists|m1: ConfiguredCore, src: Result<u32>|
            #[trigger] operator::dx_rel(c0, m1, src) && match src {
                Err(e) => r == Err::<Cycles, Exception>(e) && c1 == m1,
                Ok(v) => exists|m2: ConfiguredCore, d: Result<(u32, u32)>|
                    #[trigger] operator::ea_aw_32_rel(m1, m2, d) && match d {
                        Err(e) => r == Err::<Cycles, Exception>(e) && c1 == m2,
                        Ok((dv, ea)) => {
                            let o = common::eor_32_outcome(m2, dv, v);
                            stored(o.0, c1, 32, ea, merged(dv, o.1, 32), r, 24)
                        },
                    },
            }
}

pub fn eor_32_aw(core: &mut ConfiguredCore) -> (r: Result<Cycles>)
    requires
        old(core).wf(),
    ensures
        final(core).wf(),
        eor_32_aw_effect(*old(core), *final(core), r),
{
    let ghost c0 = *core;
    let src = operator::dx(core);
    let ghost m1 = *core;
    assert(operator::dx_rel(c0, m1, src));
    let v = match src {
        Err(e) => {
            return Err(e);
        },
        Ok(v) => v,
    };
    let d = operator::ea_aw_32(core);
    let ghost m2 = *core;
    assert(operator::ea_aw_32_rel(m1, m2, d));
    let (dv, ea) = match d {
        Err(e) => {
            return Err(e);
        },
        Ok(p) => p,
    };
    let res = common::eor_32(core, dv, v);
    store(core, 32, ea, merge(dv, res, 32), 24)
}

/// What `eor_32_al` does: the core goes from `c0` to `c1` and `r` comes back.
pub open spec fn eor_32_al_effect(c0: ConfiguredCore, c1: ConfiguredCore, r: Result<Cycles>) -> bool {
    &&& exists|m1: ConfiguredCore, src: Result<u32>|
            #[trigger] operator::dx_rel(c0, m1, src) && match src {
                Err(e) => r == Err::<Cycles, Exception>(e) && c1 == m1,
                Ok(v) => exists|m2: ConfiguredCore, d: Result<(u32, u32)>|
                    #[trigger] operator::ea_al_32_rel(m1, m2, d) && match d {
                        Err(e) => r == Err::<Cycles, Exception>(e) && c1 == m2,
                        Ok((dv, ea)) => {
                            let o = common::eor_32_outcome(m2, dv, v);
                            stored(o.0, c1, 32, ea, merged(dv, o.1, 32), r, 28)
                        },
                    },
            }
}

pub fn eor_32_al(core: &mut ConfiguredCore) -> (r: Result<Cycles>)
    requires
        old(core).wf(),
    ensures
        final(core).wf(),
        eor_32_al_effect(*old(core), *final(core), r),
{
    let ghost c0 = *core;
    let src = operator::dx(core);
    let ghost m1 = *core;
    assert(operator::dx_rel(c0, m1, src));
    let v = match src {
        Err(e) => {
            return Err(e);
        },
        Ok(v) => v,
    };
    let d = operator::ea_al_32(core);
    let ghost m2 = *core;
    assert(operator::ea_al_32_rel(m1, m2, d));
    let (dv, ea) = match d {
        Err(e) => {
            return Err(e);
        },
        Ok(p) => p,
    };
    let res = common::eor_32(core, dv, v);
    store(core, 32, ea, merge(dv, res, 32), 28)
}

/// What `eori_8_dn` does: the core goes from `c0` to `c1` and `r` comes back.
pub open spec fn eori_8_dn_effect(c0: ConfiguredCore, c1: ConfiguredCore, r: Result<Cycles>) -> bool {
    &&& exists|mid: ConfiguredCore, src: Result<u32>|
            #[trigger] operator::imm_8_rel(c0, mid, src) && match src {
                Err(e) => r == Err::<Cycles, Exception>(e) && c1 == mid,
                Ok(v) => {
                    let reg = ir_dy(mid.ir);
                    let o = common::eor_8_outcome(mid, mid.dar[reg], v);
                    &&& r == Ok::<Cycles, Exception>(Cycles(8))
                    &&& reg_set(o.0, c1, reg, merged(mid.dar[reg], o.1, 8))
                },
            }
}

pub fn eori_8_dn(core: &mut ConfiguredCore) -> (r: Result<Cycles>)
    requires
        old(core).wf(),
    ensures
        final(core).wf(),
        eori_8_dn_effect(*old(core), *final(core), r),
{
    let ghost c0 = *core;
    let src = operator::imm_8(core);
    let ghost mid = *core;
    assert(operator::imm_8_rel(c0, mid, src));
    match src {
        Err(e) => Err(e),
        Ok(v) => {
            let reg = reg_dy(core.ir);
            let dst = core.dar[reg];
            let res = common::eor_8(core, dst, v);
            set_reg(core, reg, merge(dst, res, 8));
            Ok(Cycles(8))
        },
    }
}

/// What `eori_8_ai` does: the core goes from `c0` to `c1` and `r` comes back.
pub open spec fn eori_8_ai_effect(c0: ConfiguredCore, c1: ConfiguredCore, r: Result<Cycles>) -> bool {
    &&& exists|m1: ConfiguredCore, src: Result<u32>|
            #[trigger] operator::imm_8_rel(c0, m1, src) && match src {
                Err(e) => r == Err::<Cycles, Exception>(e) && c1 == m1,
                Ok(v) => exists|m2: ConfiguredCore, d: Result<(u32, u32)>|
                    #[trigger] operator::ea_ay_ai_8_rel(m1, m2, d) && match d {
                        Err(e) => r == Err::<Cycles, Exception>(e) && c1 == m2,
                        Ok((dv, ea)) => {
                            let o = common::eor_8_outcome(m2, dv, v);
                            stored(o.0, c1, 8, ea, merged(dv, o.1, 8), r, 16)
                        },
                    },
            }
}

pub fn eori_8_ai(core: &mut ConfiguredCore) -> (r: Result<Cycles>)
    requires
        old(core).wf(),
    ensures
        final(core).wf(),
        eori_8_ai_effect(*old(core), *final(core), r),
{
    let ghost c0 = *core;
    let src = operator::imm_8(core);
    let ghost m1 = *core;
    assert(operator::imm_8_rel(c0, m1, src));
    let v = match src {
        Err(e) => {
            return Err(e);
        },
        Ok(v) => v,
    };
    let d = operator::ea_ay_ai_8(core);
    let ghost m2 = *core;
    assert(operator::ea_ay_ai_8_rel(m1, m2, d));
    let (dv, ea) = match d {
        Err(e) => {
            return Err(e);
        },
        Ok(p) => p,
    };
    let res = common::eor_8(core, dv, v);
    store(core, 8, ea, merge(dv, res, 8), 16)
}

/// What `eori_8_pi` does: the core goes from `c0` to `c1` and `r` comes back.
pub open spec fn eori_8_pi_effect(c0: ConfiguredCore, c1: ConfiguredCore, r: Result<Cycles>) -> bool {
    &&& exists|m1: ConfiguredCore, src: Result<u32>|
            #[trigger] operator::imm_8_rel(c0, m1, src) && match src {
                Err(e) => r == Err::<Cycles, Exception>(e) && c1 == m1,
                Ok(v) => exists|m2: ConfiguredCore, d: Result<(u32, u32)>|
                    #[trigger] operator::ea_ay_pi_8_rel(m1, m2, d) && match d {
                        Err(e) => r == Err::<Cycles, Exception>(e) && c1 == m2,
                        Ok((dv, ea)) => {
                            let o = common::eor_8_outcome(m2, dv, v);
                            stored(o.0, c1, 8, ea, merged(dv, o.1, 8), r, 16)
                        },
                    },
            }
}

pub fn eori_8_pi(core: &mut ConfiguredCore) -> (r: Result<Cycles>)
    requires
        old(core).wf(),
    ensures
        final(core).wf(),
        eori_8_pi_effect(*old(core), *final(core), r),
{
    let ghost c0 = *core;
    let src = operator::imm_8(core);
    let ghost m1 = *core;
    assert(operator::imm_8_rel(c0, m1, src));
    let v = match src {
        Err(e) => {
            return Err(e);
        },
        Ok(v) => v,
    };
    let d = operator::ea_ay_pi_8(core);
    let ghost m2 = *core;
    assert(operator::ea_ay_pi_8_rel(m1, m2, d));
    let (dv, ea) = match d {
        Err(e) => {
            return Err(e);
        },
        Ok(p) => p,
    };
    let res = common::eor_8(core, dv, v);
    store(core, 8, ea, merge(dv, res, 8), 16)
}

/// What `eori_8_pd` does: the core goes from `c0` to `c1` and `r` comes back.
pub open spec fn eori_8_pd_effect(c0: ConfiguredCore, c1: ConfiguredCore, r: Result<Cycles>) -> bool {
    &&& exists|m1: ConfiguredCore, src: Result<u32>|
            #[trigger] operator::imm_8_rel(c0, m1, src) && match src {
                Err(e) => r == Err::<Cycles, Exception>(e) && c1 == m1,
                Ok(v) => exists|m2: ConfiguredCore, d: Result<(u32, u32)>|
                    #[trigger] operator::ea_ay_pd_8_rel(m1, m2, d) && match d {
                        Err(e) => r == Err::<Cycles, Exception>(e) && c1 == m2,
                        Ok((dv, ea)) => {
                            let o = common::eor_8_outcome(m2, dv, v);
                            stored(o.0, c1, 8, ea, merged(dv, o.1, 8), r, 18)
                        },
                    },
            }
}

pub fn eori_8_pd(core: &mut ConfiguredCore) -> (r: Result<Cycles>)
    requires
        old(core).wf(),
    ensures
        final(core).wf(),
        eori_8_pd_effect(*old(core), *final(core), r),
{
    let ghost c0 = *core;
    let src = operator::imm_8(core);
    let ghost m1 = *core;
    assert(operator::imm_8_rel(c0, m1, src));
    let v = match src {
        Err(e) => {
            return Err(e);
        },
        Ok(v) => v,
    };
    let d = operator::ea_ay_pd_8(core);
    let ghost m2 = *core;
    assert(operator::ea_ay_pd_8_rel(m1, m2, d));
    let (dv, ea) = match d {
        Err(e) => {
            return Err(e);
        },
        Ok(p) => p,
    };
    let res = common::eor_8(core, dv, v);
    store(core, 8, ea, merge(dv, res, 8), 18)
}

/// What `eori_8_di` does: the core goes from `c0` to `c1` and `r` comes back.
pub open spec fn eori_8_di_effect(c0: ConfiguredCore, c1: ConfiguredCore, r: Result<Cycles>) -> bool {
    &&& exists|m1: ConfiguredCore, src: Result<u32>|
            #[trigger] operator::imm_8_rel(c0, m1, src) && match src {
                Err(e) => r == Err::<Cycles, Exception>(e) && c1 == m1,
                Ok(v) => exists|m2: ConfiguredCore, d: Result<(u32, u32)>|
                    #[trigger] operator::ea_ay_di_8_rel(m1, m2, d) && match d {
                        Err(e) => r == Err::<Cycles, Exception>(e) && c1 == m2,
                        Ok((dv, ea)) => {
                            let o = common::eor_8_outcome(m2, dv, v);
                            stored(o.0, c1, 8, ea, merged(dv, o.1, 8), r, 20)
                        },
                    },
            }
}

pub fn eori_8_di(core: &mut ConfiguredCore) -> (r: Result<Cycles>)
    requires
        old(core).wf(),
    ensures
        final(core).wf(),
        eori_8_di_effect(*old(core), *final(core), r),
{
    let ghost c0 = *core;
    let src = operator::imm_8(core);
    let ghost m1 = *core;
    assert(operator::imm_8_rel(c0, m1, src));
    let v = match src {
        Err(e) => {
            return Err(e);
        },
        Ok(v) => v,
    };
    let d = operator::ea_ay_di_8(core);
    let ghost m2 = *core;
    assert(operator::ea_ay_di_8_rel(m1, m2, d));
    let (dv, ea) = match d {
        Err(e) => {
            return Err(e);
        },
        Ok(p) => p,
    };
    let res = common::eor_8(core, dv, v);
    store(core, 8, ea, merge(dv, res, 8), 20)
}

/// What `eori_8_ix` does: the core goes from `c0` to `c1` and `r` comes back.
pub open spec fn eori_8_ix_effect(c0: ConfiguredCore, c1: ConfiguredCore, r: Result<Cycles>) -> bool {
    &&& exists|m1: ConfiguredCore, src: Result<u32>|
            #[trigger] operator::imm_8_rel(c0, m1, src) && match src {
                Err(e) => r == Err::<Cycles, Exception>(e) && c1 == m1,
                Ok(v) => exists|m2: ConfiguredCore, d: Result<(u32, u32)>|
                    #[trigger] operator::ea_ay_ix_8_rel(m1, m2, d) && match d {
                        Err(e) => r == Err::<Cycles, Exception>(e) && c1 == m2,
                        Ok((dv, ea)) => {
                            let o = common::eor_8_outcome(m2, dv, v);
                            stored(o.0, c1, 8, ea, merged(dv, o.1, 8), r, 22)
                        },
                    },
            }
}

pub fn eori_8_ix(core: &mut ConfiguredCore) -> (r: Result<Cycles>)
    requires
        old(core).wf(),
    ensures
        final(core).wf(),
        eori_8_ix_effect(*old(core), *final(core), r),
{
    let ghost c0 = *core;
    let src = operator::imm_8(core);
    let ghost m1 = *core;
    assert(operator::imm_8_rel(c0, m1, src));
    let v = match src {
        Err(e) => {
            return Err(e);
        },
        Ok(v) => v,
    };
    let d = operator::ea_ay_ix_8(core);
    let ghost m2 = *core;
    assert(operator::ea_ay_ix_8_rel(m1, m2, d));
    let (dv, ea) = match d {
        Err(e) => {
            return Err(e);
        },
        Ok(p) => p,
    };
    let res = common::eor_8(core, dv, v);
    store(core, 8, ea, merge(dv, res, 8), 22)
}

/// What `eori_8_aw` does: the core goes from `c0` to `c1` and `r` comes back.
pub open spec fn eori_8_aw_effect(c0: ConfiguredCore, c1: ConfiguredCore, r: Result<Cycles>) -> bool {
    &&& exists|m1: ConfiguredCore, src: Result<u32>|
            #[trigger] operator::imm_8_rel(c0, m1, src) && match src {
                Err(e) => r == Err::<Cycles, Exception>(e) && c1 == m1,
                Ok(v) => exists|m2: ConfiguredCore, d: Result<(u32, u32)>|
                    #[trigger] operator::ea_aw_8_rel(m1, m2, d) && match d {
                        Err(e) => r == Err::<Cycles, Exception>(e) && c1 == m2,
                        Ok((dv, ea)) => {
                            let o = common::eor_8_outcome(m2, dv, v);
                            stored(o.0, c1, 8, ea, merged(dv, o.1, 8), r, 20)
                        },
                    },
            }
}

pub fn eori_8_aw(core: &mut ConfiguredCore) -> (r: Result<Cycles>)
    requires
        old(core).wf(),
    ensures
        final(core).wf(),
        eori_8_aw_effect(*old(core), *final(core), r),
{
    let ghost c0 = *core;
    let src = operator::imm_8(core);
    let ghost m1 = *core;
    assert(operator::imm_8_rel(c0, m1, src));
    let v = match src {
        Err(e) => {
            return Err(e);
        },
        Ok(v) => v,
    };
    let d = operator::ea_aw_8(core);
    let ghost m2 = *core;
    assert(operator::ea_aw_8_rel(m1, m2, d));
    let (dv, ea) = match d {
        Err(e) => {
            return Err(e);
        },
        Ok(p) => p,
    };
    let res = common::eor_8(core, dv, v);
    store(core, 8, ea, merge(dv, res, 8), 20)
}

/// What `eori_8_al` does: the core goes from `c0` to `c1` and `r` comes back.
pub open spec fn eori_8_al_effect(c0: ConfiguredCore, c1: ConfiguredCore, r: Result<Cycles>) -> bool {
    &&& exists|m1: ConfiguredCore, src: Result<u32>|
            #[trigger] operator::imm_8_rel(c0, m1, src) && match src {
                Err(e) => r == Err::<Cycles, Exception>(e) && c1 == m1,
                Ok(v) => exists|m2: ConfiguredCore, d: Result<(u32, u32)>|
                    #[trigger] operator::ea_al_8_rel(m1, m2, d) && match d {
                        Err(e) => r == Err::<Cycles, Exception>(e) && c1 == m2,
                        Ok((dv, ea)) => {
                            let o = common::eor_8_outcome(m2, dv, v);
                            stored(o.0, c1, 8, ea, merged(dv, o.1, 8), r, 24)
                        },
                    },
            }
}

pub fn eori_8_al(core: &mut ConfiguredCore) -> (r: Result<Cycles>)
    requires
        old(core).wf(),
    ensures
        final(core).wf(),
        eori_8_al_effect(*old(core), *final(core), r),
{
    let ghost c0 = *core;
    let src = operator::imm_8(core);
    let ghost m1 = *core;
    assert(operator::imm_8_rel(c0, m1, src));
    let v = match src {
        Err(e) => {
            return Err(e);
        },
        Ok(v) => v,
    };
    let d = operator::ea_al_8(core);
    let ghost m2 = *core;
    assert(operator::ea_al_8_rel(m1, m2, d));
    let (dv, ea) = match d {
        Err(e) => {
            return Err(e);
        },
        Ok(p) => p,
    };
    let res = common::eor_8(core, dv, v);
    store(core, 8, ea, merge(dv, res, 8), 24)
}

/// What `eori_16_dn` does: the core goes from `c0` to `c1` and `r` comes back.
pub open spec fn eori_16_dn_effect(c0: ConfiguredCore, c1: ConfiguredCore, r: Result<Cycles>) -> bool {
    &&& exists|mid: ConfiguredCore, src: Result<u32>|
            #[trigger] operator::imm_16_rel(c0, mid, src) && match src {
                Err(e) => r == Err::<Cycles, Exception>(e) && c1 == mid,
                Ok(v) => {
                    let reg = ir_dy(mid.ir);
                    let o = common::eor_16_outcome(mid, mid.dar[reg], v);
                    &&& r == Ok::<Cycles, Exception>(Cycles(8))
                    &&& reg_set(o.0, c1, reg, merged(mid.dar[reg], o.1, 16))
                },
            }
}

pub fn eori_16_dn(core: &mut ConfiguredCore) -> (r: Result<Cycles>)
    requires
        old(core).wf(),
    ensures
        final(core).wf(),
        eori_16_dn_effect(*old(core), *final(core), r),
{
    let ghost c0 = *core;
    let src = operator::imm_16(core);
    let ghost mid = *core;
    assert(operator::imm_16_rel(c0, mid, src));
    match src {
        Err(e) => Err(e),
        Ok(v) => {
            let reg = reg_dy(core.ir);
            let dst = core.dar[reg];
            let res = common::eor_16(core, dst, v);
            set_reg(core, reg, merge(dst, res, 16));
            Ok(Cycles(8))
        },
    }
}

/// What `eori_16_ai` does: the core goes from `c0` to `c1` and `r` comes back.
pub open spec fn eori_16_ai_effect(c0: ConfiguredCore, c1: ConfiguredCore, r: Result<Cycles>) -> bool {
    &&& exists|m1: ConfiguredCore, src: Result<u32>|
            #[trigger] operator::imm_16_rel(c0, m1, src) && match src {
                Err(e) => r == Err::<Cycles, Exception>(e) && c1 == m1,
                Ok(v) => exists|m2: ConfiguredCore, d: Result<(u32, u32)>|
                    #[trigger] operator::ea_ay_ai_16_rel(m1, m2, d) && match d {
                        Err(e) => r == Err::<Cycles, Exception>(e) && c1 == m2,
                        Ok((dv, ea)) => {
                            let o = common::eor_16_outcome(m2, dv, v);
                            stored(o.0, c1, 16, ea, merged(dv, o.1, 16), r, 16)
                        },
                    },
            }
}

pub fn eori_16_ai(core: &mut ConfiguredCore) -> (r: Result<Cycles>)
    requires
        old(core).wf(),
    ensures
        final(core).wf(),
        eori_16_ai_effect(*old(core), *final(core), r),
{
    let ghost c0 = *core;
    let src = operator::imm_16(core);
    let ghost m1 = *core;
    assert(operator::imm_16_rel(c0, m1, src));
    let v = match src {
        Err(e) => {
            return Err(e);
        },
        Ok(v) => v,
    };
    let d = operator::ea_ay_ai_16(core);
    let ghost m2 = *core;
    assert(operator::ea_ay_ai_16_rel(m1, m2, d));
    let (dv, ea) = match d {
        Err(e) => {
            return Err(e);
        },
        Ok(p) => p,
    };
    let res = common::eor_16(core, dv, v);
    store(core, 16, ea, merge(dv, res, 16), 16)
}

/// What `eori_16_pi` does: the core goes from `c0` to `c1` and `r` comes back.
pub open spec fn eori_16_pi_effect(c0: ConfiguredCore, c1: ConfiguredCore, r: Result<Cycles>) -> bool {
    &&& exists|m1: ConfiguredCore, src: Result<u32>|
            #[trigger] operator::imm_16_rel(c0, m1, src) && match src {
                Err(e) => r == Err::<Cycles, Exception>(e) && c1 == m1,
                Ok(v) => exists|m2: ConfiguredCore, d: Result<(u32, u32)>|
                    #[trigger] operator::ea_ay_pi_16_rel(m1, m2, d) && match d {
                        Err(e) => r == Err::<Cycles, Exception>(e) && c1 == m2,
                        Ok((dv, ea)) => {
                            let o = common::eor_16_outcome(m2, dv, v);
                            stored(o.0, c1, 16, ea, merged(dv, o.1, 16), r, 16)
                        },
                    },
            }
}

pub fn eori_16_pi(core: &mut ConfiguredCore) -> (r: Result<Cycles>)
    requires
        old(core).wf(),
    ensures
        final(core).wf(),
        eori_16_pi_effect(*old(core), *final(core), r),
{
    let ghost c0 = *core;
    let src = operator::imm_16(core);
    let ghost m1 = *core;
    assert(operator::imm_16_rel(c0, m1, src));
    let v = match src {
        Err(e) => {
            return Err(e);
        },
        Ok(v) => v,
    };
    let d = operator::ea_ay_pi_16(core);
    let ghost m2 = *core;
    assert(operator::ea_ay_pi_16_rel(m1, m2, d));
    let (dv, ea) = match d {
        Err(e) => {
            return Err(e);
        },
        Ok(p) => p,
    };
    let res = common::eor_16(core, dv, v);
    store(core, 16, ea, merge(dv, res, 16), 16)
}

/// What `eori_16_pd` does: the core goes from `c0` to `c1` and `r` comes back.
pub open spec fn eori_16_pd_effect(c0: ConfiguredCore, c1: ConfiguredCore, r: Result<Cycles>) -> bool {
    &&& exists|m1: ConfiguredCore, src: Result<u32>|
            #[trigger] operator::imm_16_rel(c0, m1, src) && match src {
                Err(e) => r == Err::<Cycles, Exception>(e) && c1 == m1,
                Ok(v) => exists|m2: ConfiguredCore, d: Result<(u32, u32)>|
                    #[trigger] operator::ea_ay_pd_16_rel(m1, m2, d) && match d {
                        Err(e) => r == Err::<Cycles, Exception>(e) && c1 == m2,
                        Ok((dv, ea)) => {
                            let o = common::eor_16_outcome(m2, dv, v);
                            stored(o.0, c1, 16, ea, merged(dv, o.1, 16), r, 18)
                        },
                    },
            }
}

pub fn eori_16_pd(core: &mut ConfiguredCore) -> (r: Result<Cycles>)
    requires
        old(core).wf(),
    ensures
        final(core).wf(),
        eori_16_pd_effect(*old(core), *final(core), r),
{
    let ghost c0 = *core;
    let src = operator::imm_16(core);
    let ghost m1 = *core;
    assert(operator::imm_16_rel(c0, m1, src));
    let v = match src {
        Err(e) => {
            return Err(e);
        },
        Ok(v) => v,
    };
    let d = operator::ea_ay_pd_16(core);
    let ghost m2 = *core;
    assert(operator::ea_ay_pd_16_rel(m1, m2, d));
    let (dv, ea) = match d {
        Err(e) => {
            return Err(e);
        },
        Ok(p) => p,
    };
    let res = common::eor_16(core, dv, v);
    store(core, 16, ea, merge(dv, res, 16), 18)
}

/// What `eori_16_di` does: the core goes from `c0` to `c1` and `r` comes back.
pub open spec fn eori_16_di_effect(c0: ConfiguredCore, c1: ConfiguredCore, r: Result<Cycles>) -> bool {
    &&& exists|m1: ConfiguredCore, src: Result<u32>|
            #[trigger] operator::imm_16_rel(c0, m1, src) && match src {
                Err(e) => r == Err::<Cycles, Exception>(e) && c1 == m1,
                Ok(v) => exists|m2: ConfiguredCore, d: Result<(u32, u32)>|
                    #[trigger] operator::ea_ay_di_16_rel(m1, m2, d) && match d {
                        Err(e) => r == Err::<Cycles, Exception>(e) && c1 == m2,
                        Ok((dv, ea)) => {
                            let o = common::eor_16_outcome(m2, dv, v);
                            stored(o.0, c1, 16, ea, merged(dv, o.1, 16), r, 20)
                        },
                    },
            }
}

pub fn eori_16_di(core: &mut ConfiguredCore) -> (r: Result<Cycles>)
    requires
        old(core).wf(),
    ensures
        final(core).wf(),
        eori_16_di_effect(*old(core), *final(core), r),
{
    let ghost c0 = *core;
    let src = operator::imm_16(core);
    let ghost m1 = *core;
    assert(operator::imm_16_rel(c0, m1, src));
    let v = match src {
        Err(e) => {
            return Err(e);
        },
        Ok(v) => v,
    };
    let d = operator::ea_ay_di_16(core);
    let ghost m2 = *core;
    assert(operator::ea_ay_di_16_rel(m1, m2, d));
    let (dv, ea) = match d {
        Err(e) => {
            return Err(e);
        },
        Ok(p) => p,
    };
    let res = common::eor_16(core, dv, v);
    store(core, 16, ea, merge(dv, res, 16), 20)
}

/// What `eori_16_ix` does: the core goes from `c0` to `c1` and `r` comes back.
pub open spec fn eori_16_ix_effect(c0: ConfiguredCore, c1: ConfiguredCore, r: Result<Cycles>) -> bool {
    &&& exists|m1: ConfiguredCore, src: Result<u32>|
            #[trigger] operator::imm_16_rel(c0, m1, src) && match src {
                Err(e) => r == Err::<Cycles, Exception>(e) && c1 == m1,
                Ok(v) => exists|m2: ConfiguredCore, d: Result<(u32, u32)>|
                    #[trigger] operator::ea_ay_ix_16_rel(m1, m2, d) && match d {
                        Err(e) => r == Err::<Cycles, Exception>(e) && c1 == m2,
                        Ok((dv, ea)) => {
                            let o = common::eor_16_outcome(m2, dv, v);
                            stored(o.0, c1, 16, ea, merged(dv, o.1, 16), r, 22)
                        },
                    },
            }
}

pub fn eori_16_ix(core: &mut ConfiguredCore) -> (r: Result<Cycles>)
    requires
        old(core).wf(),
    ensures
        final(core).wf(),
        eori_16_ix_effect(*old(core), *final(core), r),
{
    let ghost c0 = *core;
    let src = operator::imm_16(core);
    let ghost m1 = *core;
    assert(operator::imm_16_rel(c0, m1, src));
    let v = match src {
        Err(e) => {
            return Err(e);
        },
        Ok(v) => v,
    };
    let d = operator::ea_ay_ix_16(core);
    let ghost m2 = *core;
    assert(operator::ea_ay_ix_16_rel(m1, m2, d));
    let (dv, ea) = match d {
        Err(e) => {
            return Err(e);
        },
        Ok(p) => p,
    };
    let res = common::eor_16(core, dv, v);
    store(core, 16, ea, merge(dv, res, 16), 22)
}

/// What `eori_16_aw` does: the core goes from `c0` to `c1` and `r` comes back.
pub open spec fn eori_16_aw_effect(c0: ConfiguredCore, c1: ConfiguredCore, r: Result<Cycles>) -> bool {
    &&& exists|m1: ConfiguredCore, src: Result<u32>|
            #[trigger] operator::imm_16_rel(c0, m1, src) && match src {
                Err(e) => r == Err::<Cycles, Exception>(e) && c1 == m1,
                Ok(v) => exists|m2: ConfiguredCore, d: Result<(u32, u32)>|
                    #[trigger] operator::ea_aw_16_rel(m1, m2, d) && match d {
                        Err(e) => r == Err::<Cycles, Exception>(e) && c1 == m2,
                        Ok((dv, ea)) => {
                            let o = common::eor_16_outcome(m2, dv, v);
                            stored(o.0, c1, 16, ea, merged(dv, o.1, 16), r, 20)
                        },
                    },
            }
}

pub fn eori_16_aw(core: &mut ConfiguredCore) -> (r: Result<Cycles>)
    requires
        old(core).wf(),
    ensures
        final(core).wf(),
        eori_16_aw_effect(*old(core), *final(core), r),
{
    let ghost c0 = *core;
    let src = operator::imm_16(core);
    let ghost m1 = *core;
    assert(operator::imm_16_rel(c0, m1, src));
    let v = match src {
        Err(e) => {
            return Err(e);
        },
        Ok(v) => v,
    };
    let d = operator::ea_aw_16(core);
    let ghost m2 = *core;
    assert(operator::ea_aw_16_rel(m1, m2, d));
    let (dv, ea) = match d {
        Err(e) => {
            return Err(e);
        },
        Ok(p) => p,
    };
    let res = common::eor_16(core, dv, v);
    store(core, 16, ea, merge(dv, res, 16), 20)
}

/// What `eori_16_al` does: the core goes from `c0` to `c1` and `r` comes back.
pub open spec fn eori_16_al_effect(c0: ConfiguredCore, c1: ConfiguredCore, r: Result<Cycles>) -> bool {
    &&& exists|m1: ConfiguredCore, src: Result<u32>|
            #[trigger] operator::imm_16_rel(c0, m1, src) && match src {
                Err(e) => r == Err::<Cycles, Exception>(e) && c1 == m1,
                Ok(v) => exists|m2: ConfiguredCore, d: Result<(u32, u32)>|
                    #[trigger] operator::ea_al_16_rel(m1, m2, d) && match d {
                        Err(e) => r == Err::<Cycles, Exception>(e) && c1 == m2,
                        Ok((dv, ea)) => {
                            let o = common::eor_16_outcome(m2, dv, v);
                            stored(o.0, c1, 16, ea, merged(dv, o.1, 16), r, 24)
                        },
                    },
            }
}

pub fn eori_16_al(core: &mut ConfiguredCore) -> (r: Result<Cycles>)
    requires
        old(core).wf(),
    ensures
        final(core).wf(),
        eori_16_al_effect(*old(core), *final(core), r),
{
    let ghost c0 = *core;
    let src = operator::imm_16(core);
    let ghost m1 = *core;
    assert(operator::imm_16_rel(c0, m1, src));
    let v = match src {
        Err(e) => {
            return Err(e);
        },
        Ok(v) => v,
    };
    let d = operator::ea_al_16(core);
    let ghost m2 = *core;
    assert(operator::ea_al_16_rel(m1, m2, d));
    let (dv, ea) = match d {
        Err(e) => {
            return Err(e);
        },
        Ok(p) => p,
    };
    let res = common::eor_16(core, dv, v);
    store(core, 16, ea, merge(dv, res, 16), 24)
}

/// What `eori_32_dn` does: the core goes from `c0` to `c1` and `r` comes back.
pub open spec fn eori_32_dn_effect(c0: ConfiguredCore, c1: ConfiguredCore, r: Result<Cycles>) -> bool {
    &&& exists|mid: ConfiguredCore, src: Result<u32>|
            #[trigger] operator::imm_32_rel(c0, mid, src) && match src {
                Err(e) => r == Err::<Cycles, Exception>(e) && c1 == mid,
                Ok(v) => {
                    let reg = ir_dy(mid.ir);
                    let o = common::eor_32_outcome(mid, mid.dar[reg], v);
                    &&& r == Ok::<Cycles, Exception>(Cycles(16))
                    &&& reg_set(o.0, c1, reg, merged(mid.dar[reg], o.1, 32))
                },
            }
}

pub fn eori_32_dn(core: &mut ConfiguredCore) -> (r: Result<Cycles>)
    requires
        old(core).wf(),
    ensures
        final(core).wf(),
        eori_32_dn_effect(*old(core), *final(core), r),
{
    let ghost c0 = *core;
    let src = operator::imm_32(core);
    let ghost mid = *core;
    assert(operator::imm_32_rel(c0, mid, src));
    match src {
        Err(e) => Err(e),
        Ok(v) => {
            let reg = reg_dy(core.ir);
            let dst = core.dar[reg];
            let res = common::eor_32(core, dst, v);
            set_reg(core, reg, merge(dst, res, 32));
            Ok(Cycles(16))
        },
    }
}

/// What `eori_32_ai` does: the core goes from `c0` to `c1` and `r` comes back.
pub open spec fn eori_32_ai_effect(c0: ConfiguredCore, c1: ConfiguredCore, r: Result<Cycles>) -> bool {
    &&& exists|m1: ConfiguredCore, src: Result<u32>|
            #[trigger] operator::imm_32_rel(c0, m1, src) && match src {
                Err(e) => r == Err::<Cycles, Exception>(e) && c1 == m1,
                Ok(v) => exists|m2: ConfiguredCore, d: Result<(u32, u32)>|
                    #[trigger] operator::ea_ay_ai_32_rel(m1, m2, d) && match d {
                        Err(e) => r == Err::<Cycles, Exception>(e) && c1 == m2,
                        Ok((dv, ea)) => {
                            let o = common::eor_32_outcome(m2, dv, v);
                            stored(o.0, c1, 32, ea, merged(dv, o.1, 32), r, 28)
                        },
                    },
            }
}

pub fn eori_32_ai(core: &mut ConfiguredCore) -> (r: Result<Cycles>)
    requires
        old(core).wf(),
    ensures
        final(core).wf(),
        eori_32_ai_effect(*old(core), *final(core), r),
{
    let ghost c0 = *core;
    let src = operator::imm_32(core);
    let ghost m1 = *core;
    assert(operator::imm_32_rel(c0, m1, src));
    let v = match src {
        Err(e) => {
            return Err(e);
        },
        Ok(v) => v,
    };
    let d = operator::ea_ay_ai_32(core);
    let ghost m2 = *core;
    assert(operator::ea_ay_ai_32_rel(m1, m2, d));
    let (dv, ea) = match d {
        Err(e) => {
            return Err(e);
        },
        Ok(p) => p,
    };
    let res = common::eor_32(core, dv, v);
    store(core, 32, ea, merge(dv, res, 32), 28)
}

/// What `eori_32_pi` does: the core goes from `c0` to `c1` and `r` comes back.
pub open spec fn eori_32_pi_effect(c0: ConfiguredCore, c1: ConfiguredCore, r: Result<Cycles>) -> bool {
    &&& exists|m1: ConfiguredCore, src: Result<u32>|
            #[trigger] operator::imm_32_rel(c0, m1, src) && match src {
                Err(e) => r == Err::<Cycles, Exception>(e) && c1 == m1,
                Ok(v) => exists|m2: ConfiguredCore, d: Result<(u32, u32)>|
                    #[trigger] operator::ea_ay_pi_32_rel(m1, m2, d) && match d {
                        Err(e) => r == Err::<Cycles, Exception>(e) && c1 == m2,
                        Ok((dv, ea)) => {
                            let o = common::eor_32_outcome(m2, dv, v);
                            stored(o.0, c1, 32, ea, merged(dv, o.1, 32), r, 28)
                        },
                    },
            }
}

pub fn eori_32_pi(core: &mut ConfiguredCore) -> (r: Result<Cycles>)
    requires
        old(core).wf(),
    ensures
        final(core).wf(),
        eori_32_pi_effect(*old(core), *final(core), r),
{
    let ghost c0 = *core;
    let src = operator::imm_32(core);
    let ghost m1 = *core;
    assert(operator::imm_32_rel(c0, m1, src));
    let v = match src {
        Err(e) => {
            return Err(e);
        },
        Ok(v) => v,
    };
    let d = operator::ea_ay_pi_32(core);
    let ghost m2 = *core;
    assert(operator::ea_ay_pi_32_rel(m1, m2, d));
    let (dv, ea) = match d {
        Err(e) => {
            return Err(e);
        },
        Ok(p) => p,
    };
    let res = common::eor_32(core, dv, v);
    store(core, 32, ea, merge(dv, res, 32), 28)
}

/// What `eori_32_pd` does: the core goes from `c0` to `c1` and `r` comes back.
pub open spec fn eori_32_pd_effect(c0: ConfiguredCore, c1: ConfiguredCore, r: Result<Cycles>) -> bool {
    &&& exists|m1: ConfiguredCore, src: Result<u32>|
            #[trigger] operator::imm_32_rel(c0, m1, src) && match src {
                Err(e) => r == Err::<Cycles, Exception>(e) && c1 == m1,
                Ok(v) => exists|m2: ConfiguredCore, d: Result<(u32, u32)>|
                    #[trigger] operator::ea_ay_pd_32_rel(m1, m2, d) && match d {
                        Err(e) => r == Err::<Cycles, Exception>(e) && c1 == m2,
                        Ok((dv, ea)) => {
                            let o = common::eor_32_outcome(m2, dv, v);
                            stored(o.0, c1, 32, ea, merged(dv, o.1, 32), r, 30)
                        },
                    },
            }
}

pub fn eori_32_pd(core: &mut ConfiguredCore) -> (r: Result<Cycles>)
    requires
        old(core).wf(),
    ensures
        final(core).wf(),
        eori_32_pd_effect(*old(core), *final(core), r),
{
    let ghost c0 = *core;
    let src = operator::imm_32(core);
    let ghost m1 = *core;
    assert(operator::imm_32_rel(c0, m1, src));
    let v = match src {
        Err(e) => {
            return Err(e);
        },
        Ok(v) => v,
    };
    let d = operator::ea_ay_pd_32(core);
    let ghost m2 = *core;
    assert(operator::ea_ay_pd_32_rel(m1, m2, d));
    let (dv, ea) = match d {
        Err(e) => {
            return Err(e);
        },
        Ok(p) => p,
    };
    let res = common::eor_32(core, dv, v);
    store(core, 32, ea, merge(dv, res, 32), 30)
}

/// What `eori_32_di` does: the core goes from `c0` to `c1` and `r` comes back.
pub open spec fn eori_32_di_effect(c0: ConfiguredCore, c1: ConfiguredCore, r: Result<Cycles>) -> bool {
    &&& exists|m1: ConfiguredCore, src: Result<u32>|
            #[trigger] operator::imm_32_rel(c0, m1, src) && match src {
                Err(e) => r == Err::<Cycles, Exception>(e) && c1 == m1,
                Ok(v) => exists|m2: ConfiguredCore, d: Result<(u32, u32)>|
                    #[trigger] operator::ea_ay_di_32_rel(m1, m2, d) && match d {
                        Err(e) => r == Err::<Cycles, Exception>(e) && c1 == m2,
                        Ok((dv, ea)) => {
                            let o = common::eor_32_outcome(m2, dv, v);
                            stored(o.0, c1, 32, ea, merged(dv, o.1, 32), r, 32)
                        },
                    },
            }
}

pub fn eori_32_di(core: &mut ConfiguredCore) -> (r: Result<Cycles>)
    requires
        old(core).wf(),
    ensures
        final(core).wf(),
        eori_32_di_effect(*old(core), *final(core), r),
{
    let ghost c0 = *core;
    let src = operator::imm_32(core);
    let ghost m1 = *core;
    assert(operator::imm_32_rel(c0, m1, src));
    let v = match src {
        Err(e) => {
            return Err(e);
        },
        Ok(v) => v,
    };
    let d = operator::ea_ay_di_32(core);
    let ghost m2 = *core;
    assert(operator::ea_ay_di_32_rel(m1, m2, d));
    let (dv, ea) = match d {
        Err(e) => {
            return Err(e);
        },
        Ok(p) => p,
    };
    let res = common::eor_32(core, dv, v);
    store(core, 32, ea, merge(dv, res, 32), 32)
}

/// What `eori_32_ix` does: the core goes from `c0` to `c1` and `r` comes back.
pub open spec fn eori_32_ix_effect(c0: ConfiguredCore, c1: ConfiguredCore, r: Result<Cycles>) -> bool {
    &&& exists|m1: ConfiguredCore, src: Result<u32>|
            #[trigger] operator::imm_32_rel(c0, m1, src) && match src {
                Err(e) => r == Err::<Cycles, Exception>(e) && c1 == m1,
                Ok(v) => exists|m2: ConfiguredCore, d: Result<(u32, u32)>|
                    #[trigger] operator::ea_ay_ix_32_rel(m1, m2, d) && match d {
                        Err(e) => r == Err::<Cycles, Exception>(e) && c1 == m2,
                        Ok((dv, ea)) => {
                            let o = common::eor_32_outcome(m2, dv, v);
                            stored(o.0, c1, 32, ea, merged(dv, o.1, 32), r, 34)
                        },
                    },
            }
}

pub fn eori_32_ix(core: &mut ConfiguredCore) -> (r: Result<Cycles>)
    requires
        old(core).wf(),
    ensures
        final(core).wf(),
        eori_32_ix_effect(*old(core), *final(core), r),
{
    let ghost c0 = *core;
    let src = operator::imm_32(core);
    let ghost m1 = *core;
    assert(operator::imm_32_rel(c0, m1, src));
    let v = match src {
        Err(e) => {
            return Err(e);
        },
        Ok(v) => v,
    };
    let d = operator::ea_ay_ix_32(core);
    let ghost m2 = *core;
    assert(operator::ea_ay_ix_32_rel(m1, m2, d));
    let (dv, ea) = match d {
        Err(e) => {
            return Err(e);
        },
        Ok(p) => p,
    };
    let res = common::eor_32(core, dv, v);
    store(core, 32, ea, merge(dv, res, 32), 34)
}

/// What `eori_32_aw` does: the core goes from `c0` to `c1` and `r` comes back.
pub open spec fn eori_32_aw_effect(c0: ConfiguredCore, c1: ConfiguredCore, r: Result<Cycles>) -> bool {
    &&& exists|m1: ConfiguredCore, src: Result<u32>|
            #[trigger] operator::imm_32_rel(c0, m1, src) && match src {
                Err(e) => r == Err::<Cycles, Exception>(e) && c1 == m1,
                Ok(v) => exists|m2: ConfiguredCore, d: Result<(u32, u32)>|
                    #[trigger] operator::ea_aw_32_rel(m1, m2, d) && match d {
                        Err(e) => r == Err::<Cycles, Exception>(e) && c1 == m2,
                        Ok((dv, ea)) => {
                            let o = common::eor_32_outcome(m2, dv, v);
                            stored(o.0, c1, 32, ea, merged(dv, o.1, 32), r, 32)
                        },
                    },
            }
}

pub fn eori_32_aw(core: &mut ConfiguredCore) -> (r: Result<Cycles>)
    requires
        old(core).wf(),
    ensures
        final(core).wf(),
        eori_32_aw_effect(*old(core), *final(core), r),
{
    let ghost c0 = *core;
    let src = operator::imm_32(core);
    let ghost m1 = *core;
    assert(operator::imm_32_rel(c0, m1, src));
    let v = match src {
        Err(e) => {
            return Err(e);
        },
        Ok(v) => v,
    };
    let d = operator::ea_aw_32(core);
    let ghost m2 = *core;
    assert(operator::ea_aw_32_rel(m1, m2, d));
    let (dv, ea) = match d {
        Err(e) => {
            return Err(e);
        },
        Ok(p) => p,
    };
    let res = common::eor_32(core, dv, v);
    store(core, 32, ea, merge(dv, res, 32), 32)
}

/// What `eori_32_al` does: the core goes from `c0` to `c1` and `r` comes back.
pub open spec fn eori_32_al_effect(c0: ConfiguredCore, c1: ConfiguredCore, r: Result<Cycles>) -> bool {
    &&& exists|m1: ConfiguredCore, src: Result<u32>|
            #[trigger] operator::imm_32_rel(c0, m1, src) && match src {
                Err(e) => r == Err::<Cycles, Exception>(e) && c1 == m1,
                Ok(v) => exists|m2: ConfiguredCore, d: Result<(u32, u32)>|
                    #[trigger] operator::ea_al_32_rel(m1, m2, d) && match d {
                        Err(e) => r == Err::<Cycles, Exception>(e) && c1 == m2,
                        Ok((dv, ea)) => {
                            let o = common::eor_32_outcome(m2, dv, v);
                            stored(o.0, c1, 32, ea, merged(dv, o.1, 32), r, 36)
                        },
                    },
            }
}

pub fn eori_32_al(core: &mut ConfiguredCore) -> (r: Result<Cycles>)
    requires
        old(core).wf(),
    ensures
        final(core).wf(),
        eori_32_al_effect(*old(core), *final(core), r),
{
    let ghost c0 = *core;
    let src = operator::imm_32(core);
    let ghost m1 = *core;
    assert(operator::imm_32_rel(c0, m1, src));
    let v = match src {
        Err(e) => {
            return Err(e);
        },
        Ok(v) => v,
    };
    let d = operator::ea_al_32(core);
    let ghost m2 = *core;
    assert(operator::ea_al_32_rel(m1, m2, d));
    let (dv, ea) = match d {
        Err(e) => {
            return Err(e);
        },
        Ok(p) => p,
    };
    let res = common::eor_32(core, dv, v);
    store(core, 32, ea, merge(dv, res, 32), 36)
}

/// What `or_8_er_dn` does: the core goes from `c0` to `c1` and `r` comes back.
pub open spec fn or_8_er_dn_effect(c0: ConfiguredCore, c1: ConfiguredCore, r: Result<Cycles>) -> bool {
    &&& exists|mid: ConfiguredCore, src: Result<u32>|
            #[trigger] operator::dy_rel(c0, mid, src) && match src {
                Err(e) => r == Err::<Cycles, Exception>(e) && c1 == mid,
                Ok(v) => {
                    let reg = ir_dx(mid.ir);
                    let o = common::or_8_outcome(mid, mid.dar[reg], v);
                    &&& r == Ok::<Cycles, Exception>(Cycles(4))
                    &&& reg_set(o.0, c1, reg, merged(mid.dar[reg], o.1, 8))
                },
            }
}

pub fn or_8_er_dn(core: &mut ConfiguredCore) -> (r: Result<Cycles>)
    requires
        old(core).wf(),
    ensures
        final(core).wf(),
        or_8_er_dn_effect(*old(core), *final(core), r),
{
    let ghost c0 = *core;
    let src = operator::dy(core);
    let ghost mid = *core;
    assert(operator::dy_rel(c0, mid, src));
    match src {
        Err(e) => Err(e),
        Ok(v) => {
            let reg = reg_dx(core.ir);
            let dst = core.dar[reg];
            let res = common::or_8(core, dst, v);
            set_reg(core, reg, merge(dst, res, 8));
            Ok(Cycles(4))
        },
    }
}

/// What `or_8_er_ai` does: the core goes from `c0` to `c1` and `r` comes back.
pub open spec fn or_8_er_ai_effect(c0: ConfiguredCore, c1: ConfiguredCore, r: Result<Cycles>) -> bool {
    &&& exists|mid: ConfiguredCore, src: Result<u32>|
            #[trigger] operator::ay_ai_8_rel(c0, mid, src) && match src {
                Err(e) => r == Err::<Cycles, Exception>(e) && c1 == mid,
                Ok(v) => {
                    let reg = ir_dx(mid.ir);
                    let o = common::or_8_outcome(mid, mid.dar[reg], v);
                    &&& r == Ok::<Cycles, Exception>(Cycles(8))
                    &&& reg_set(o.0, c1, reg, merged(mid.dar[reg], o.1, 8))
                },
            }
}

pub fn or_8_er_ai(core: &mut ConfiguredCore) -> (r: Result<Cycles>)
    requires
        old(core).wf(),
    ensures
        final(core).wf(),
        or_8_er_ai_effect(*old(core), *final(core), r),
{
    let ghost c0 = *core;
    let src = operator::ay_ai_8(core);
    let ghost mid = *core;
    assert(operator::ay_ai_8_rel(c0, mid, src));
    match src {
        Err(e) => Err(e),
        Ok(v) => {
            let reg = reg_dx(core.ir);
            let dst = core.dar[reg];
            let res = common::or_8(core, dst, v);
            set_reg(core, reg, merge(dst, res, 8));
            Ok(Cycles(8))
        },
    }
}

/// What `or_8_er_pi` does: the core goes from `c0` to `c1` and `r` comes back.
pub open spec fn or_8_er_pi_effect(c0: ConfiguredCore, c1: ConfiguredCore, r: Result<Cycles>) -> bool {
    &&& exists|mid: ConfiguredCore, src: Result<u32>|
            #[trigger] operator::ay_pi_8_rel(c0, mid, src) && match src {
                Err(e) => r == Err::<Cycles, Exception>(e) && c1 == mid,
                Ok(v) => {
                    let reg = ir_dx(mid.ir);
                    let o = common::or_8_outcome(mid, mid.dar[reg], v);
                    &&& r == Ok::<Cycles, Exception>(Cycles(8))
                    &&& reg_set(o.0, c1, reg, merged(mid.dar[reg], o.1, 8))
                },
            }
}

pub fn or_8_er_pi(core: &mut ConfiguredCore) -> (r: Result<Cycles>)
    requires
        old(core).wf(),
    ensures
        final(core).wf(),
        or_8_er_pi_effect(*old(core), *final(core), r),
{
    let ghost c0 = *core;
    let src = operator::ay_pi_8(core);
    let ghost mid = *core;
    assert(operator::ay_pi_8_rel(c0, mid, src));
    match src {
        Err(e) => Err(e),
        Ok(v) => {
            let reg = reg_dx(core.ir);
            let dst = core.dar[reg];
            let res = common::or_8(core, dst, v);
            set_reg(core, reg, merge(dst, res, 8));
            Ok(Cycles(8))
        },
    }
}

/// What `or_8_er_pd` does: the core goes from `c0` to `c1` and `r` comes back.
pub open spec fn or_8_er_pd_effect(c0: ConfiguredCore, c1: ConfiguredCore, r: Result<Cycles>) -> bool {
    &&& exists|mid: ConfiguredCore, src: Result<u32>|
            #[trigger] operator::ay_pd_8_rel(c0, mid, src) && match src {
                Err(e) => r == Err::<Cycles, Exception>(e) && c1 == mid,
                Ok(v) => {
                    let reg = ir_dx(mid.ir);
                    let o = common::or_8_outcome(mid, mid.dar[reg], v);
                    &&& r == Ok::<Cycles, Exception>(Cycles(10))
                    &&& reg_set(o.0, c1, reg, merged(mid.dar[reg], o.1, 8))
                },
            }
}

pub fn or_8_er_pd(core: &mut ConfiguredCore) -> (r: Result<Cycles>)
    requires
        old(core).wf(),
    ensures
        final(core).wf(),
        or_8_er_pd_effect(*old(core), *final(core), r),
{
    let ghost c0 = *core;
    let src = operator::ay_pd_8(core);
    let ghost mid = *core;
    assert(operator::ay_pd_8_rel(c0, mid, src));
    match src {
        Err(e) => Err(e),
        Ok(v) => {
            let reg = reg_dx(core.ir);
            let dst = core.dar[reg];
            let res = common::or_8(core, dst, v);
            set_reg(core, reg, merge(dst, res, 8));
            Ok(Cycles(10))
        },
    }
}

/// What `or_8_er_di` does: the core goes from `c0` to `c1` and `r` comes back.
pub open spec fn or_8_er_di_effect(c0: ConfiguredCore, c1: ConfiguredCore, r: Result<Cycles>) -> bool {
    &&& exists|mid: ConfiguredCore, src: Result<u32>|
            #[trigger] operator::ay_di_8_rel(c0, mid, src) && match src {
                Err(e) => r == Err::<Cycles, Exception>(e) && c1 == mid,
                Ok(v) => {
                    let reg = ir_dx(mid.ir);
                    let o = common::or_8_outcome(mid, mid.dar[reg], v);
                    &&& r == Ok::<Cycles, Exception>(Cycles(12))
                    &&& reg_set(o.0, c1, reg, merged(mid.dar[reg], o.1, 8))
                },
            }
}

pub fn or_8_er_di(core: &mut ConfiguredCore) -> (r: Result<Cycles>)
    requires
        old(core).wf(),
    ensures
        final(core).wf(),
        or_8_er_di_effect(*old(core), *final(core), r),
{
    let ghost c0 = *core;
    let src = operator::ay_di_8(core);
    let ghost mid = *core;
    assert(operator::ay_di_8_rel(c0, mid, src));
    match src {
        Err(e) => Err(e),
        Ok(v) => {
            let reg = reg_dx(core.ir);
            let dst = core.dar[reg];
            let res = common::or_8(core, dst, v);
            set_reg(core, reg, merge(dst, res, 8));
            Ok(Cycles(12))
        },
    }
}

/// What `or_8_er_ix` does: the core goes from `c0` to `c1` and `r` comes back.
pub open spec fn or_8_er_ix_effect(c0: ConfiguredCore, c1: ConfiguredCore, r: Result<Cycles>) -> bool {
    &&& exists|mid: ConfiguredCore, src: Result<u32>|
            #[trigger] operator::ay_ix_8_rel(c0, mid, src) && match src {
                Err(e) => r == Err::<Cycles, Exception>(e) && c1 == mid,
                Ok(v) => {
                    let reg = ir_dx(mid.ir);
                    let o = common::or_8_outcome(mid, mid.dar[reg], v);
                    &&& r == Ok::<Cycles, Exception>(Cycles(14))
                    &&& reg_set(o.0, c1, reg, merged(mid.dar[reg], o.1, 8))
                },
            }
}

pub fn or_8_er_ix(core: &mut ConfiguredCore) -> (r: Result<Cycles>)
    requires
        old(core).wf(),
    ensures
        final(core).wf(),
        or_8_er_ix_effect(*old(core), *final(core), r),
{
    let ghost c0 = *core;
    let src = operator::ay_ix_8(core);
    let ghost mid = *core;
    assert(operator::ay_ix_8_rel(c0, mid, src));
    match src {
        Err(e) => Err(e),
        Ok(v) => {
            let reg = reg_dx(core.ir);
            let dst = core.dar[reg];
            let res = common::or_8(core, dst, v);
            set_reg(core, reg, merge(dst, res, 8));
            Ok(Cycles(14))
        },
    }
}

/// What `or_8_er_aw` does: the core goes from `c0` to `c1` and `r` comes back.
pub open spec fn or_8_er_aw_effect(c0: ConfiguredCore, c1: ConfiguredCore, r: Result<Cycles>) -> bool {
    &&& exists|mid: ConfiguredCore, src: Result<u32>|
            #[trigger] operator::aw_8_rel(c0, mid, src) && match src {
                Err(e) => r == Err::<Cycles, Exception>(e) && c1 == mid,
                Ok(v) => {
                    let reg = ir_dx(mid.ir);
                    let o = common::or_8_outcome(mid, mid.dar[reg], v);
                    &&& r == Ok::<Cycles, Exception>(Cycles(12))
                    &&& reg_set(o.0, c1, reg, merged(mid.dar[reg], o.1, 8))
                },
            }
}

pub fn or_8_er_aw(core: &mut ConfiguredCore) -> (r: Result<Cycles>)
    requires
        old(core).wf(),
    ensures
        final(core).wf(),
        or_8_er_aw_effect(*old(core), *final(core), r),
{
    let ghost c0 = *core;
    let src = operator::aw_8(core);
    let ghost mid = *core;
    assert(operator::aw_8_rel(c0, mid, src));
    match src {
        Err(e) => Err(e),
        Ok(v) => {
            let reg = reg_dx(core.ir);
            let dst = core.dar[reg];
            let res = common::or_8(core, dst, v);
            set_reg(core, reg, merge(dst, res, 8));
            Ok(Cycles(12))
        },
    }
}

/// What `or_8_er_al` does: the core goes from `c0` to `c1` and `r` comes back.
pub open spec fn or_8_er_al_effect(c0: ConfiguredCore, c1: ConfiguredCore, r: Result<Cycles>) -> bool {
    &&& exists|mid: ConfiguredCore, src: Result<u32>|
            #[trigger] operator::al_8_rel(c0, mid, src) && match src {
                Err(e) => r == Err::<Cycles, Exception>(e) && c1 == mid,
                Ok(v) => {
                    let reg = ir_dx(mid.ir);
                    let o = common::or_8_outcome(mid, mid.dar[reg], v);
                    &&& r == Ok::<Cycles, Exception>(Cycles(16))
                    &&& reg_set(o.0, c1, reg, merged(mid.dar[reg], o.1, 8))
                },
            }
}

pub fn or_8_er_al(core: &mut ConfiguredCore) -> (r: Result<Cycles>)
    requires
        old(core).wf(),
    ensures
        final(core).wf(),
        or_8_er_al_effect(*old(core), *final(core), r),
{
    let ghost c0 = *core;
    let src = operator::al_8(core);
    let ghost mid = *core;
    assert(operator::al_8_rel(c0, mid, src));
    match src {
        Err(e) => Err(e),
        Ok(v) => {
            let reg = reg_dx(core.ir);
            let dst = core.dar[reg];
            let res = common::or_8(core, dst, v);
            set_reg(core, reg, merge(dst, res, 8));
            Ok(Cycles(16))
        },
    }
}

/// What `or_8_er_pcdi` does: the core goes from `c0` to `c1` and `r` comes back.
pub open spec fn or_8_er_pcdi_effect(c0: ConfiguredCore, c1: ConfiguredCore, r: Result<Cycles>) -> bool {
    &&& exists|mid: ConfiguredCore, src: Result<u32>|
            #[trigger] operator::pcdi_8_rel(c0, mid, src) && match src {
                Err(e) => r == Err::<Cycles, Exception>(e) && c1 == mid,
                Ok(v) => {
                    let reg = ir_dx(mid.ir);
                    let o = common::or_8_outcome(mid, mid.dar[reg], v);
                    &&& r == Ok::<Cycles, Exception>(Cycles(12))
                    &&& reg_set(o.0, c1, reg, merged(mid.dar[reg], o.1, 8))
                },
            }
}

pub fn or_8_er_pcdi(core: &mut ConfiguredCore) -> (r: Result<Cycles>)
    requires
        old(core).wf(),
    ensures
        final(core).wf(),
        or_8_er_pcdi_effect(*old(core), *final(core), r),
{
    let ghost c0 = *core;
    let src = operator::pcdi_8(core);
    let ghost mid = *core;
    assert(operator::pcdi_8_rel(c0, mid, src));
    match src {
        Err(e) => Err(e),
        Ok(v) => {
            let reg = reg_dx(core.ir);
            let dst = core.dar[reg];
            let res = common::or_8(core, dst, v);
            set_reg(core, reg, merge(dst, res, 8));
            Ok(Cycles(12))
        },
    }
}

/// What `or_8_er_pcix` does: the core goes from `c0` to `c1` and `r` comes back.
pub open spec fn or_8_er_pcix_effect(c0: ConfiguredCore, c1: ConfiguredCore, r: Result<Cycles>) -> bool {
    &&& exists|mid: ConfiguredCore, src: Result<u32>|
            #[trigger] operator::pcix_8_rel(c0, mid, src) && match src {
                Err(e) => r == Err::<Cycles, Exception>(e) && c1 == mid,
                Ok(v) => {
                    let reg = ir_dx(mid.ir);
                    let o = common::or_8_outcome(mid, mid.dar[reg], v);
                    &&& r == Ok::<Cycles, Exception>(Cycles(14))
                    &&& reg_set(o.0, c1, reg, merged(mid.dar[reg], o.1, 8))
                },
            }
}

pub fn or_8_er_pcix(core: &mut ConfiguredCore) -> (r: Result<Cycles>)
    requires
        old(core).wf(),
    ensures
        final(core).wf(),
        or_8_er_pcix_effect(*old(core), *final(core), r),
{
    let ghost c0 = *core;
    let src = operator::pcix_8(core);
    let ghost mid = *core;
    assert(operator::pcix_8_rel(c0, mid, src));
    match src {
        Err(e) => Err(e),
        Ok(v) => {
            let reg = reg_dx(core.ir);
            let dst = core.dar[reg];
            let res = common::or_8(core, dst, v);
            set_reg(core, reg, merge(dst, res, 8));
            Ok(Cycles(14))
        },
    }
}

/// What `or_8_er_imm` does: the core goes from `c0` to `c1` and `r` comes back.
pub open spec fn or_8_er_imm_effect(c0: ConfiguredCore, c1: ConfiguredCore, r: Result<Cycles>) -> bool {
    &&& exists|mid: ConfiguredCore, src: Result<u32>|
            #[trigger] operator::imm_8_rel(c0, mid, src) && match src {
                Err(e) => r == Err::<Cycles, Exception>(e) && c1 == mid,
                Ok(v) => {
                    let reg = ir_dx(mid.ir);
                    let o = common::or_8_outcome(mid, mid.dar[reg], v);
                    &&& r == Ok::<Cycles, Exception>(Cycles(10))
                    &&& reg_set(o.0, c1, reg, merged(mid.dar[reg], o.1, 8))
                },
            }
}

pub fn or_8_er_imm(core: &mut ConfiguredCore) -> (r: Result<Cycles>)
    requires
        old(core).wf(),
    ensures
        final(core).wf(),
        or_8_er_imm_effect(*old(core), *final(core), r),
{
    let ghost c0 = *core;
    let src = operator::imm_8(core);
    let ghost mid = *core;
    assert(operator::imm_8_rel(c0, mid, src));
    match src {
        Err(e) => Err(e),
        Ok(v) => {
            let reg = reg_dx(core.ir);
            let dst = core.dar[reg];
            let res = common::or_8(core, dst, v);
            set_reg(core, reg, merge(dst, res, 8));
            Ok(Cycles(10))
        },
    }
}

/// What `or_8_re_ai` does: the core goes from `c0` to `c1` and `r` comes back.
pub open spec fn or_8_re_ai_effect(c0: ConfiguredCore, c1: ConfiguredCore, r: Result<Cycles>) -> bool {
    &&& exists|m1: ConfiguredCore, src: Result<u32>|
            #[trigger] operator::dx_rel(c0, m1, src) && match src {
                Err(e) => r == Err::<Cycles, Exception>(e) && c1 == m1,
                Ok(v) => exists|m2: ConfiguredCore, d: Result<(u32, u32)>|
                    #[trigger] operator::ea_ay_ai_8_rel(m1, m2, d) && match d {
                        Err(e) => r == Err::<Cycles, Exception>(e) && c1 == m2,
                        Ok((dv, ea)) => {
                            let o = common::or_8_outcome(m2, dv, v);
                            stored(o.0, c1, 8, ea, merged(dv, o.1, 8), r, 12)
                        },
                    },
            }
}

pub fn or_8_re_ai(core: &mut ConfiguredCore) -> (r: Result<Cycles>)
    requires
        old(core).wf(),
    ensures
        final(core).wf(),
        or_8_re_ai_effect(*old(core), *final(core), r),
{
    let ghost c0 = *core;
    let src = operator::dx(core);
    let ghost m1 = *core;
    assert(operator::dx_rel(c0, m1, src));
    let v = match src {
        Err(e) => {
            return Err(e);
        },
        Ok(v) => v,
    };
    let d = operator::ea_ay_ai_8(core);
    let ghost m2 = *core;
    assert(operator::ea_ay_ai_8_rel(m1, m2, d));
    let (dv, ea) = match d {
        Err(e) => {
            return Err(e);
        },
        Ok(p) => p,
    };
    let res = common::or_8(core, dv, v);
    store(core, 8, ea, merge(dv, res, 8), 12)
}

/// What `or_8_re_pi` does: the core goes from `c0` to `c1` and `r` comes back.
pub open spec fn or_8_re_pi_effect(c0: ConfiguredCore, c1: ConfiguredCore, r: Result<Cycles>) -> bool {
    &&& exists|m1: ConfiguredCore, src: Result<u32>|
            #[trigger] operator::dx_rel(c0, m1, src) && match src {
                Err(e) => r == Err::<Cycles, Exception>(e) && c1 == m1,
                Ok(v) => exists|m2: ConfiguredCore, d: Result<(u32, u32)>|
                    #[trigger] operator::ea_ay_pi_8_rel(m1, m2, d) && match d {
                        Err(e) => r == Err::<Cycles, Exception>(e) && c1 == m2,
                        Ok((dv, ea)) => {
                            let o = common::or_8_outcome(m2, dv, v);
                            stored(o.0, c1, 8, ea, merged(dv, o.1, 8), r, 12)
                        },
                    },
            }
}

pub fn or_8_re_pi(core: &mut ConfiguredCore) -> (r: Result<Cycles>)
    requires
        old(core).wf(),
    ensures
        final(core).wf(),
        or_8_re_pi_effect(*old(core), *final(core), r),
{
    let ghost c0 = *core;
    let src = operator::dx(core);
    let ghost m1 = *core;
    assert(operator::dx_rel(c0, m1, src));
    let v = match src {
        Err(e) => {
            return Err(e);
        },
        Ok(v) => v,
    };
    let d = operator::ea_ay_pi_8(core);
    let ghost m2 = *core;
    assert(operator::ea_ay_pi_8_rel(m1, m2, d));
    let (dv, ea) = match d {
        Err(e) => {
            return Err(e);
        },
        Ok(p) => p,
    };
    let res = common::or_8(core, dv, v);
    store(core, 8, ea, merge(dv, res, 8), 12)
}

/// What `or_8_re_pd` does: the core goes from `c0` to `c1` and `r` comes back.
pub open spec fn or_8_re_pd_effect(c0: ConfiguredCore, c1: ConfiguredCore, r: Result<Cycles>) -> bool {
    &&& exists|m1: ConfiguredCore, src: Result<u32>|
            #[trigger] operator::dx_rel(c0, m1, src) && match src {
                Err(e) => r == Err::<Cycles, Exception>(e) && c1 == m1,
                Ok(v) => exists|m2: ConfiguredCore, d: Result<(u32, u32)>|
                    #[trigger] operator::ea_ay_pd_8_rel(m1, m2, d) && match d {
                        Err(e) => r == Err::<Cycles, Exception>(e) && c1 == m2,
                        Ok((dv, ea)) => {
                            let o = common::or_8_outcome(m2, dv, v);
                            stored(o.0, c1, 8, ea, merged(dv, o.1, 8), r, 14)
                        },
                    },
            }
}

pub fn or_8_re_pd(core: &mut ConfiguredCore) -> (r: Result<Cycles>)
    requires
        old(core).wf(),
    ensures
        final(core).wf(),
        or_8_re_pd_effect(*old(core), *final(core), r),
{
    let ghost c0 = *core;
    let src = operator::dx(core);
    let ghost m1 = *core;
    assert(operator::dx_rel(c0, m1, src));
    let v = match src {
        Err(e) => {
            return Err(e);
        },
        Ok(v) => v,
    };
    let d = operator::ea_ay_pd_8(core);
    let ghost m2 = *core;
    assert(operator::ea_ay_pd_8_rel(m1, m2, d));
    let (dv, ea) = match d {
        Err(e) => {
            return Err(e);
        },
        Ok(p) => p,
    };
    let res = common::or_8(core, dv, v);
    store(core, 8, ea, merge(dv, res, 8), 14)
}

/// What `or_8_re_di` does: the core goes from `c0` to `c1` and `r` comes back.
pub open spec fn or_8_re_di_effect(c0: ConfiguredCore, c1: ConfiguredCore, r: Result<Cycles>) -> bool {
    &&& exists|m1: ConfiguredCore, src: Result<u32>|
            #[trigger] operator::dx_rel(c0, m1, src) && match src {
                Err(e) => r == Err::<Cycles, Exception>(e) && c1 == m1,
                Ok(v) => exists|m2: ConfiguredCore, d: Result<(u32, u32)>|
                    #[trigger] operator::ea_ay_di_8_rel(m1, m2, d) && match d {
                        Err(e) => r == Err::<Cycles, Exception>(e) && c1 == m2,
                        Ok((dv, ea)) => {
                            let o = common::or_8_outcome(m2, dv, v);
                            stored(o.0, c1, 8, ea, merged(dv, o.1, 8), r, 16)
                        },
                    },
            }
}

pub fn or_8_re_di(core: &mut ConfiguredCore) -> (r: Result<Cycles>)
    requires
        old(core).wf(),
    ensures
        final(core).wf(),
        or_8_re_di_effect(*old(core), *final(core), r),
{
    let ghost c0 = *core;
    let src = operator::dx(core);
    let ghost m1 = *core;
    assert(operator::dx_rel(c0, m1, src));
    let v = match src {
        Err(e) => {
            return Err(e);
        },
        Ok(v) => v,
    };
    let d = operator::ea_ay_di_8(core);
    let ghost m2 = *core;
    assert(operator::ea_ay_di_8_rel(m1, m2, d));
    let (dv, ea) = match d {
        Err(e) => {
            return Err(e);
        },
        Ok(p) => p,
    };
    let res = common::or_8(core, dv, v);
    store(core, 8, ea, merge(dv, res, 8), 16)
}

/// What `or_8_re_ix` does: the core goes from `c0` to `c1` and `r` comes back.
pub open spec fn or_8_re_ix_effect(c0: ConfiguredCore, c1: ConfiguredCore, r: Result<Cycles>) -> bool {
    &&& exists|m1: ConfiguredCore, src: Result<u32>|
            #[trigger] operator::dx_rel(c0, m1, src) && match src {
                Err(e) => r == Err::<Cycles, Exception>(e) && c1 == m1,
                Ok(v) => exists|m2: ConfiguredCore, d: Result<(u32, u32)>|
                    #[trigger] operator::ea_ay_ix_8_rel(m1, m2, d) && match d {
                        Err(e) => r == Err::<Cycles, Exception>(e) && c1 == m2,
                        Ok((dv, ea)) => {
                            let o = common::or_8_outcome(m2, dv, v);
                            stored(o.0, c1, 8, ea, merged(dv, o.1, 8), r, 18)
                        },
                    },
            }
}

pub fn or_8_re_ix(core: &mut ConfiguredCore) -> (r: Result<Cycles>)
    requires
        old(core).wf(),
    ensures
        final(core).wf(),
        or_8_re_ix_effect(*old(core), *final(core), r),
{
    let ghost c0 = *core;
    let src = operator::dx(core);
    let ghost m1 = *core;
    assert(operator::dx_rel(c0, m1, src));
    let v = match src {
        Err(e) => {
            return Err(e);
        },
        Ok(v) => v,
    };
    let d = operator::ea_ay_ix_8(core);
    let ghost m2 = *core;
    assert(operator::ea_ay_ix_8_rel(m1, m2, d));
    let (dv, ea) = match d {
        Err(e) => {
            return Err(e);
        },
        Ok(p) => p,
    };
    let res = common::or_8(core, dv, v);
    store(core, 8, ea, merge(dv, res, 8), 18)
}

/// What `or_8_re_aw` does: the core goes from `c0` to `c1` and `r` comes back.
pub open spec fn or_8_re_aw_effect(c0: ConfiguredCore, c1: ConfiguredCore, r: Result<Cycles>) -> bool {
    &&& exists|m1: ConfiguredCore, src: Result<u32>|
            #[trigger] operator::dx_rel(c0, m1, src) && match src {
                Err(e) => r == Err::<Cycles, Exception>(e) && c1 == m1,
                Ok(v) => exists|m2: ConfiguredCore, d: Result<(u32, u32)>|
                    #[trigger] operator::ea_aw_8_rel(m1, m2, d) && match d {
                        Err(e) => r == Err::<Cycles, Exception>(e) && c1 == m2,
                        Ok((dv, ea)) => {
                            let o = common::or_8_outcome(m2, dv, v);
                            stored(o.0, c1, 8, ea, merged(dv, o.1, 8), r, 16)
                        },
                    },
            }
}

pub fn or_8_re_aw(core: &mut ConfiguredCore) -> (r: Result<Cycles>)
    requires
        old(core).wf(),
    ensures
        final(core).wf(),
        or_8_re_aw_effect(*old(core), *final(core), r),
{
    let ghost c0 = *core;
    let src = operator::dx(core);
    let ghost m1 = *core;
    assert(operator::dx_rel(c0, m1, src));
    let v = match src {
        Err(e) => {
            return Err(e);
        },
        Ok(v) => v,
    };
    let d = operator::ea_aw_8(core);
    let ghost m2 = *core;
    assert(operator::ea_aw_8_rel(m1, m2, d));
    let (dv, ea) = match d {
        Err(e) => {
            return Err(e);
        },
        Ok(p) => p,
    };
    let res = common::or_8(core, dv, v);
    store(core, 8, ea, merge(dv, res, 8), 16)
}

/// What `or_8_re_al` does: the core goes from `c0` to `c1` and `r` comes back.
pub open spec fn or_8_re_al_effect(c0: ConfiguredCore, c1: ConfiguredCore, r: Result<Cycles>) -> bool {
    &&& exists|m1: ConfiguredCore, src: Result<u32>|
            #[trigger] operator::dx_rel(c0, m1, src) && match src {
                Err(e) => r == Err::<Cycles, Exception>(e) && c1 == m1,
                Ok(v) => exists|m2: ConfiguredCore, d: Result<(u32, u32)>|
                    #[trigger] operator::ea_al_8_rel(m1, m2, d) && match d {
                        Err(e) => r == Err::<Cycles, Exception>(e) && c1 == m2,
                        Ok((dv, ea)) => {
                            let o = common::or_8_outcome(m2, dv, v);
                            stored(o.0, c1, 8, ea, merged(dv, o.1, 8), r, 20)
                        },
                    },
            }
}

pub fn or_8_re_al(core: &mut ConfiguredCore) -> (r: Result<Cycles>)
    requires
        old(core).wf(),
    ensures
        final(core).wf(),
        or_8_re_al_effect(*old(core), *final(core), r),
{
    let ghost c0 = *core;
    let src = operator::dx(core);
    let ghost m1 = *core;
    assert(operator::dx_rel(c0, m1, src));
    let v = match src {
        Err(e) => {
            return Err(e);
        },
        Ok(v) => v,
    };
    let d = operator::ea_al_8(core);
    let ghost m2 = *core;
    assert(operator::ea_al_8_rel(m1, m2, d));
    let (dv, ea) = match d {
        Err(e) => {
            return Err(e);
        },
        Ok(p) => p,
    };
    let res = common::or_8(core, dv, v);
    store(core, 8, ea, merge(dv, res, 8), 20)
}

/// What `or_16_er_dn` does: the core goes from `c0` to `c1` and `r` comes back.
pub open spec fn or_16_er_dn_effect(c0: ConfiguredCore, c1: ConfiguredCore, r: Result<Cycles>) -> bool {
    &&& exists|mid: ConfiguredCore, src: Result<u32>|
            #[trigger] operator::dy_rel(c0, mid, src) && match src {
                Err(e) => r == Err::<Cycles, Exception>(e) && c1 == mid,
                Ok(v) => {
                    let reg = ir_dx(mid.ir);
                    let o = common::or_16_outcome(mid, mid.dar[reg], v);
                    &&& r == Ok::<Cycles, Exception>(Cycles(4))
                    &&& reg_set(o.0, c1, reg, merged(mid.dar[reg], o.1, 16))
                },
            }
}

pub fn or_16_er_dn(core: &mut ConfiguredCore) -> (r: Result<Cycles>)
    requires
        old(core).wf(),
    ensures
        final(core).wf(),
        or_16_er_dn_effect(*old(core), *final(core), r),
{
    let ghost c0 = *core;
    let src = operator::dy(core);
    let ghost mid = *core;
    assert(operator::dy_rel(c0, mid, src));
    match src {
        Err(e) => Err(e),
        Ok(v) => {
            let reg = reg_dx(core.ir);
            let dst = core.dar[reg];
            let res = common::or_16(core, dst, v);
            set_reg(core, reg, merge(dst, res, 16));
            Ok(Cycles(4))
        },
    }
}

/// What `or_16_er_ai` does: the core goes from `c0` to `c1` and `r` comes back.
pub open spec fn or_16_er_ai_effect(c0: ConfiguredCore, c1: ConfiguredCore, r: Result<Cycles>) -> bool {
    &&& exists|mid: ConfiguredCore, src: Result<u32>|
            #[trigger] operator::ay_ai_16_rel(c0, mid, src) && match src {
                Err(e) => r == Err::<Cycles, Exception>(e) && c1 == mid,
                Ok(v) => {
                    let reg = ir_dx(mid.ir);
                    let o = common::or_16_outcome(mid, mid.dar[reg], v);
                    &&& r == Ok::<Cycles, Exception>(Cycles(8))
                    &&& reg_set(o.0, c1, reg, merged(mid.dar[reg], o.1, 16))
                },
            }
}

pub fn or_16_er_ai(core: &mut ConfiguredCore) -> (r: Result<Cycles>)
    requires
        old(core).wf(),
    ensures
        final(core).wf(),
        or_16_er_ai_effect(*old(core), *final(core), r),
{
    let ghost c0 = *core;
    let src = operator::ay_ai_16(core);
    let ghost mid = *core;
    assert(operator::ay_ai_16_rel(c0, mid, src));
    match src {
        Err(e) => Err(e),
        Ok(v) => {
            let reg = reg_dx(core.ir);
            let dst = core.dar[reg];
            let res = common::or_16(core, dst, v);
            set_reg(core, reg, merge(dst, res, 16));
            Ok(Cycles(8))
        },
    }
}

/// What `or_16_er_pi` does: the core goes from `c0` to `c1` and `r` comes back.
pub open spec fn or_16_er_pi_effect(c0: ConfiguredCore, c1: ConfiguredCore, r: Result<Cycles>) -> bool {
    &&& exists|mid: ConfiguredCore, src: Result<u32>|
            #[trigger] operator::ay_pi_16_rel(c0, mid, src) && match src {
                Err(e) => r == Err::<Cycles, Exception>(e) && c1 == mid,
                Ok(v) => {
                    let reg = ir_dx(mid.ir);
                    let o = common::or_16_outcome(mid, mid.dar[reg], v);
                    &&& r == Ok::<Cycles, Exception>(Cycles(8))
                    &&& reg_set(o.0, c1, reg, merged(mid.dar[reg], o.1, 16))
                },
            }
}

pub fn or_16_er_pi(core: &mut ConfiguredCore) -> (r: Result<Cycles>)
    requires
        old(core).wf(),
    ensures
        final(core).wf(),
        or_16_er_pi_effect(*old(core), *final(core), r),
{
    let ghost c0 = *core;
    let src = operator::ay_pi_16(core);
    let ghost mid = *core;
    assert(operator::ay_pi_16_rel(c0, mid, src));
    match src {
        Err(e) => Err(e),
        Ok(v) => {
            let reg = reg_dx(core.ir);
            let dst = core.dar[reg];
            let res = common::or_16(core, dst, v);
            set_reg(core, reg, merge(dst, res, 16));
            Ok(Cycles(8))
        },
    }
}

/// What `or_16_er_pd` does: the core goes from `c0` to `c1` and `r` comes back.
pub open spec fn or_16_er_pd_effect(c0: ConfiguredCore, c1: ConfiguredCore, r: Result<Cycles>) -> bool {
    &&& exists|mid: ConfiguredCore, src: Result<u32>|
            #[trigger] operator::ay_pd_16_rel(c0, mid, src) && match src {
                Err(e) => r == Err::<Cycles, Exception>(e) && c1 == mid,
                Ok(v) => {
                    let reg = ir_dx(mid.ir);
                    let o = common::or_16_outcome(mid, mid.dar[reg], v);
                    &&& r == Ok::<Cycles, Exception>(Cycles(10))
                    &&& reg_set(o.0, c1, reg, merged(mid.dar[reg], o.1, 16))
                },
            }
}

pub fn or_16_er_pd(core: &mut ConfiguredCore) -> (r: Result<Cycles>)
    requires
        old(core).wf(),
    ensures
        final(core).wf(),
        or_16_er_pd_effect(*old(core), *final(core), r),
{
    let ghost c0 = *core;
    let src = operator::ay_pd_16(core);
    let ghost mid = *core;
    assert(operator::ay_pd_16_rel(c0, mid, src));
    match src {
        Err(e) => Err(e),
        Ok(v) => {
            let reg = reg_dx(core.ir);
            let dst = core.dar[reg];
            let res = common::or_16(core, dst, v);
            set_reg(core, reg, merge(dst, res, 16));
            Ok(Cycles(10))
        },
    }
}

/// What `or_16_er_di` does: the core goes from `c0` to `c1` and `r` comes back.
pub open spec fn or_16_er_di_effect(c0: ConfiguredCore, c1: ConfiguredCore, r: Result<Cycles>) -> bool {
    &&& exists|mid: ConfiguredCore, src: Result<u32>|
            #[trigger] operator::ay_di_16_rel(c0, mid, src) && match src {
                Err(e) => r == Err::<Cycles, Exception>(e) && c1 == mid,
                Ok(v) => {
                    let reg = ir_dx(mid.ir);
                    let o = common::or_16_outcome(mid, mid.dar[reg], v);
                    &&& r == Ok::<Cycles, Exception>(Cycles(12))
                    &&& reg_set(o.0, c1, reg, merged(mid.dar[reg], o.1, 16))
                },
            }
}

pub fn or_16_er_di(core: &mut ConfiguredCore) -> (r: Result<Cycles>)
    requires
        old(core).wf(),
    ensures
        final(core).wf(),
        or_16_er_di_effect(*old(core), *final(core), r),
{
    let ghost c0 = *core;
    let src = operator::ay_di_16(core);
    let ghost mid = *core;
    assert(operator::ay_di_16_rel(c0, mid, src));
    match src {
        Err(e) => Err(e),
        Ok(v) => {
            let reg = reg_dx(core.ir);
            let dst = core.dar[reg];
            let res = common::or_16(core, dst, v);
            set_reg(core, reg, merge(dst, res, 16));
            Ok(Cycles(12))
        },
    }
}

/// What `or_16_er_ix` does: the core goes from `c0` to `c1` and `r` comes back.
pub open spec fn or_16_er_ix_effect(c0: ConfiguredCore, c1: ConfiguredCore, r: Result<Cycles>) -> bool {
    &&& exists|mid: ConfiguredCore, src: Result<u32>|
            #[trigger] operator::ay_ix_16_rel(c0, mid, src) && match src {
                Err(e) => r == Err::<Cycles, Exception>(e) && c1 == mid,
                Ok(v) => {
                    let reg = ir_dx(mid.ir);
                    let o = common::or_16_outcome(mid, mid.dar[reg], v);
                    &&& r == Ok::<Cycles, Exception>(Cycles(14))
                    &&& reg_set(o.0, c1, reg, merged(mid.dar[reg], o.1, 16))
                },
            }
}

pub fn or_16_er_ix(core: &mut ConfiguredCore) -> (r: Result<Cycles>)
    requires
        old(core).wf(),
    ensures
        final(core).wf(),
        or_16_er_ix_effect(*old(core), *final(core), r),
{
    let ghost c0 = *core;
    let src = operator::ay_ix_16(core);
    let ghost mid = *core;
    assert(operator::ay_ix_16_rel(c0, mid, src));
    match src {
        Err(e) => Err(e),
        Ok(v) => {
            let reg = reg_dx(core.ir);
            let dst = core.dar[reg];
            let res = common::or_16(core, dst, v);
            set_reg(core, reg, merge(dst, res, 16));
            Ok(Cycles(14))
        },
    }
}

/// What `or_16_er_aw` does: the core goes from `c0` to `c1` and `r` comes back.
pub open spec fn or_16_er_aw_effect(c0: ConfiguredCore, c1: ConfiguredCore, r: Result<Cycles>) -> bool {
    &&& exists|mid: ConfiguredCore, src: Result<u32>|
            #[trigger] operator::aw_16_rel(c0, mid, src) && match src {
                Err(e) => r == Err::<Cycles, Exception>(e) && c1 == mid,
                Ok(v) => {
                    let reg = ir_dx(mid.ir);
                    let o = common::or_16_outcome(mid, mid.dar[reg], v);
                    &&& r == Ok::<Cycles, Exception>(Cycles(12))
                    &&& reg_set(o.0, c1, reg, merged(mid.dar[reg], o.1, 16))
                },
            }
}

pub fn or_16_er_aw(core: &mut ConfiguredCore) -> (r: Result<Cycles>)
    requires
        old(core).wf(),
    ensures
        final(core).wf(),
        or_16_er_aw_effect(*old(core), *final(core), r),
{
    let ghost c0 = *core;
    let src = operator::aw_16(core);
    let ghost mid = *core;
    assert(operator::aw_16_rel(c0, mid, src));
    match src {
        Err(e) => Err(e),
        Ok(v) => {
            let reg = reg_dx(core.ir);
            let dst = core.dar[reg];
            let res = common::or_16(core, dst, v);
            set_reg(core, reg, merge(dst, res, 16));
            Ok(Cycles(12))
        },
    }
}

/// What `or_16_er_al` does: the core goes from `c0` to `c1` and `r` comes back.
pub open spec fn or_16_er_al_effect(c0: ConfiguredCore, c1: ConfiguredCore, r: Result<Cycles>) -> bool {
    &&& exists|mid: ConfiguredCore, src: Result<u32>|
            #[trigger] operator::al_16_rel(c0, mid, src) && match src {
                Err(e) => r == Err::<Cycles, Exception>(e) && c1 == mid,
                Ok(v) => {
                    let reg = ir_dx(mid.ir);
                    let o = common::or_16_outcome(mid, mid.dar[reg], v);
                    &&& r == Ok::<Cycles, Exception>(Cycles(16))
                    &&& reg_set(o.0, c1, reg, merged(mid.dar[reg], o.1, 16))
                },
            }
}

pub fn or_16_er_al(core: &mut ConfiguredCore) -> (r: Result<Cycles>)
    requires
        old(core).wf(),
    ensures
        final(core).wf(),
        or_16_er_al_effect(*old(core), *final(core), r),
{
    let ghost c0 = *core;
    let src = operator::al_16(core);
    let ghost mid = *core;
    assert(operator::al_16_rel(c0, mid, src));
    match src {
        Err(e) => Err(e),
        Ok(v) => {
            let reg = reg_dx(core.ir);
            let dst = core.dar[reg];
            let res = common::or_16(core, dst, v);
            set_reg(core, reg, merge(dst, res, 16));
            Ok(Cycles(16))
        },
    }
}

/// What `or_16_er_pcdi` does: the core goes from `c0` to `c1` and `r` comes back.
pub open spec fn or_16_er_pcdi_effect(c0: ConfiguredCore, c1: ConfiguredCore, r: Result<Cycles>) -> bool {
    &&& exists|mid: ConfiguredCore, src: Result<u32>|
            #[trigger] operator::pcdi_16_rel(c0, mid, src) && match src {
                Err(e) => r == Err::<Cycles, Exception>(e) && c1 == mid,
                Ok(v) => {
                    let reg = ir_dx(mid.ir);
                    let o = common::or_16_outcome(mid, mid.dar[reg], v);
                    &&& r == Ok::<Cycles, Exception>(Cycles(12))
                    &&& reg_set(o.0, c1, reg, merged(mid.dar[reg], o.1, 16))
                },
            }
}

pub fn or_16_er_pcdi(core: &mut ConfiguredCore) -> (r: Result<Cycles>)
    requires
        old(core).wf(),
    ensures
        final(core).wf(),
        or_16_er_pcdi_effect(*old(core), *final(core), r),
{
    let ghost c0 = *core;
    let src = operator::pcdi_16(core);
    let ghost mid = *core;
    assert(operator::pcdi_16_rel(c0, mid, src));
    match src {
        Err(e) => Err(e),
        Ok(v) => {
            let reg = reg_dx(core.ir);
            let dst = core.dar[reg];
            let res = common::or_16(core, dst, v);
            set_reg(core, reg, merge(dst, res, 16));
            Ok(Cycles(12))
        },
    }
}

/// What `or_16_er_pcix` does: the core goes from `c0` to `c1` and `r` comes back.
pub open spec fn or_16_er_pcix_effect(c0: ConfiguredCore, c1: ConfiguredCore, r: Result<Cycles>) -> bool {
    &&& exists|mid: ConfiguredCore, src: Result<u32>|
            #[trigger] operator::pcix_16_rel(c0, mid, src) && match src {
                Err(e) => r == Err::<Cycles, Exception>(e) && c1 == mid,
                Ok(v) => {
                    let reg = ir_dx(mid.ir);
                    let o = common::or_16_outcome(mid, mid.dar[reg], v);
                    &&& r == Ok::<Cycles, Exception>(Cycles(14))
                    &&& reg_set(o.0, c1, reg, merged(mid.dar[reg], o.1, 16))
                },
            }
}

pub fn or_16_er_pcix(core: &mut ConfiguredCore) -> (r: Result<Cycles>)
    requires
        old(core).wf(),
    ensures
        final(core).wf(),
        or_16_er_pcix_effect(*old(core), *final(core), r),
{
    let ghost c0 = *core;
    let src = operator::pcix_16(core);
    let ghost mid = *core;
    assert(operator::pcix_16_rel(c0, mid, src));
    match src {
        Err(e) => Err(e),
        Ok(v) => {
            let reg = reg_dx(core.ir);
            let dst = core.dar[reg];
            let res = common::or_16(core, dst, v);
            set_reg(core, reg, merge(dst, res, 16));
            Ok(Cycles(14))
        },
    }
}

/// What `or_16_er_imm` does: the core goes from `c0` to `c1` and `r` comes back.
pub open spec fn or_16_er_imm_effect(c0: ConfiguredCore, c1: ConfiguredCore, r: Result<Cycles>) -> bool {
    &&& exists|mid: ConfiguredCore, src: Result<u32>|
            #[trigger] operator::imm_16_rel(c0, mid, src) && match src {
                Err(e) => r == Err::<Cycles, Exception>(e) && c1 == mid,
                Ok(v) => {
                    let reg = ir_dx(mid.ir);
                    let o = common::or_16_outcome(mid, mid.dar[reg], v);
                    &&& r == Ok::<Cycles, Exception>(Cycles(10))
                    &&& reg_set(o.0, c1, reg, merged(mid.dar[reg], o.1, 16))
                },
            }
}

pub fn or_16_er_imm(core: &mut ConfiguredCore) -> (r: Result<Cycles>)
    requires
        old(core).wf(),
    ensures
        final(core).wf(),
        or_16_er_imm_effect(*old(core), *final(core), r),
{
    let ghost c0 = *core;
    let src = operator::imm_16(core);
    let ghost mid = *core;
    assert(operator::imm_16_rel(c0, mid, src));
    match src {
        Err(e) => Err(e),
        Ok(v) => {
            let reg = reg_dx(core.ir);
            let dst = core.dar[reg];
            let res = common::or_16(core, dst, v);
            set_reg(core, reg, merge(dst, res, 16));
            Ok(Cycles(10))
        },
    }
}

/// What `or_16_re_ai` does: the core goes from `c0` to `c1` and `r` comes back.
pub open spec fn or_16_re_ai_effect(c0: ConfiguredCore, c1: ConfiguredCore, r: Result<Cycles>) -> bool {
    &&& exists|m1: ConfiguredCore, src: Result<u32>|
            #[trigger] operator::dx_rel(c0, m1, src) && match src {
                Err(e) => r == Err::<Cycles, Exception>(e) && c1 == m1,
                Ok(v) => exists|m2: ConfiguredCore, d: Result<(u32, u32)>|
                    #[trigger] operator::ea_ay_ai_16_rel(m1, m2, d) && match d {
                        Err(e) => r == Err::<Cycles, Exception>(e) && c1 == m2,
                        Ok((dv, ea)) => {
                            let o = common::or_16_outcome(m2, dv, v);
                            stored(o.0, c1, 16, ea, merged(dv, o.1, 16), r, 12)
                        },
                    },
            }
}

pub fn or_16_re_ai(core: &mut ConfiguredCore) -> (r: Result<Cycles>)
    requires
        old(core).wf(),
    ensures
        final(core).wf(),
        or_16_re_ai_effect(*old(core), *final(core), r),
{
    let ghost c0 = *core;
    let src = operator::dx(core);
    let ghost m1 = *core;
    assert(operator::dx_rel(c0, m1, src));
    let v = match src {
        Err(e) => {
            return Err(e);
        },
        Ok(v) => v,
    };
    let d = operator::ea_ay_ai_16(core);
    let ghost m2 = *core;
    assert(operator::ea_ay_ai_16_rel(m1, m2, d));
    let (dv, ea) = match d {
        Err(e) => {
            return Err(e);
        },
        Ok(p) => p,
    };
    let res = common::or_16(core, dv, v);
    store(core, 16, ea, merge(dv, res, 16), 12)
}

/// What `or_16_re_pi` does: the core goes from `c0` to `c1` and `r` comes back.
pub open spec fn or_16_re_pi_effect(c0: ConfiguredCore, c1: ConfiguredCore, r: Result<Cycles>) -> bool {
    &&& exists|m1: ConfiguredCore, src: Result<u32>|
            #[trigger] operator::dx_rel(c0, m1, src) && match src {
                Err(e) => r == Err::<Cycles, Exception>(e) && c1 == m1,
                Ok(v) => exists|m2: ConfiguredCore, d: Result<(u32, u32)>|
                    #[trigger] operator::ea_ay_pi_16_rel(m1, m2, d) && match d {
                        Err(e) => r == Err::<Cycles, Exception>(e) && c1 == m2,
                        Ok((dv, ea)) => {
                            let o = common::or_16_outcome(m2, dv, v);
                            stored(o.0, c1, 16, ea, merged(dv, o.1, 16), r, 12)
                        },
                    },
            }
}

pub fn or_16_re_pi(core: &mut ConfiguredCore) -> (r: Result<Cycles>)
    requires
        old(core).wf(),
    ensures
        final(core).wf(),
        or_16_re_pi_effect(*old(core), *final(core), r),
{
    let ghost c0 = *core;
    let src = operator::dx(core);
    let ghost m1 = *core;
    assert(operator::dx_rel(c0, m1, src));
    let v = match src {
        Err(e) => {
            return Err(e);
        },
        Ok(v) => v,
    };
    let d = operator::ea_ay_pi_16(core);
    let ghost m2 = *core;
    assert(operator::ea_ay_pi_16_rel(m1, m2, d));
    let (dv, ea) = match d {
        Err(e) => {
            return Err(e);
        },
        Ok(p) => p,
    };
    let res = common::or_16(core, dv, v);
    store(core, 16, ea, merge(dv, res, 16), 12)
}

/// What `or_16_re_pd` does: the core goes from `c0` to `c1` and `r` comes back.
pub open spec fn or_16_re_pd_effect(c0: ConfiguredCore, c1: ConfiguredCore, r: Result<Cycles>) -> bool {
    &&& exists|m1: ConfiguredCore, src: Result<u32>|
            #[trigger] operator::dx_rel(c0, m1, src) && match src {
                Err(e) => r == Err::<Cycles, Exception>(e) && c1 == m1,
                Ok(v) => exists|m2: ConfiguredCore, d: Result<(u32, u32)>|
                    #[trigger] operator::ea_ay_pd_16_rel(m1, m2, d) && match d {
                        Err(e) => r == Err::<Cycles, Exception>(e) && c1 == m2,
                        Ok((dv, ea)) => {
                            let o = common::or_16_outcome(m2, dv, v);
                            stored(o.0, c1, 16, ea, merged(dv, o.1, 16), r, 14)
                        },
                    },
            }
}

pub fn or_16_re_pd(core: &mut ConfiguredCore) -> (r: Result<Cycles>)
    requires
        old(core).wf(),
    ensures
        final(core).wf(),
        or_16_re_pd_effect(*old(core), *final(core), r),
{
    let ghost c0 = *core;
    let src = operator::dx(core);
    let ghost m1 = *core;
    assert(operator::dx_rel(c0, m1, src));
    let v = match src {
        Err(e) => {
            return Err(e);
        },
        Ok(v) => v,
    };
    let d = operator::ea_ay_pd_16(core);
    let ghost m2 = *core;
    assert(operator::ea_ay_pd_16_rel(m1, m2, d));
    let (dv, ea) = match d {
        Err(e) => {
            return Err(e);
        },
        Ok(p) => p,
    };
    let res = common::or_16(core, dv, v);
    store(core, 16, ea, merge(dv, res, 16), 14)
}

/// What `or_16_re_di` does: the core goes from `c0` to `c1` and `r` comes back.
pub open spec fn or_16_re_di_effect(c0: ConfiguredCore, c1: ConfiguredCore, r: Result<Cycles>) -> bool {
    &&& exists|m1: ConfiguredCore, src: Result<u32>|
            #[trigger] operator::dx_rel(c0, m1, src) && match src {
                Err(e) => r == Err::<Cycles, Exception>(e) && c1 == m1,
                Ok(v) => exists|m2: ConfiguredCore, d: Result<(u32, u32)>|
                    #[trigger] operator::ea_ay_di_16_rel(m1, m2, d) && match d {
                        Err(e) => r == Err::<Cycles, Exception>(e) && c1 == m2,
                        Ok((dv, ea)) => {
                            let o = common::or_16_outcome(m2, dv, v);
                            stored(o.0, c1, 16, ea, merged(dv, o.1, 16), r, 16)
                        },
                    },
            }
}

pub fn or_16_re_di(core: &mut ConfiguredCore) -> (r: Result<Cycles>)
    requires
        old(core).wf(),
    ensures
        final(core).wf(),
        or_16_re_di_effect(*old(core), *final(core), r),
{
    let ghost c0 = *core;
    let src = operator::dx(core);
    let ghost m1 = *core;
    assert(operator::dx_rel(c0, m1, src));
    let v = match src {
        Err(e) => {
            return Err(e);
        },
        Ok(v) => v,
    };
    let d = operator::ea_ay_di_16(core);
    let ghost m2 = *core;
    assert(operator::ea_ay_di_16_rel(m1, m2, d));
    let (dv, ea) = match d {
        Err(e) => {
            return Err(e);
        },
        Ok(p) => p,
    };
    let res = common::or_16(core, dv, v);
    store(core, 16, ea, merge(dv, res, 16), 16)
}

/// What `or_16_re_ix` does: the core goes from `c0` to `c1` and `r` comes back.
pub open spec fn or_16_re_ix_effect(c0: ConfiguredCore, c1: ConfiguredCore, r: Result<Cycles>) -> bool {
    &&& exists|m1: ConfiguredCore, src: Result<u32>|
            #[trigger] operator::dx_rel(c0, m1, src) && match src {
                Err(e) => r == Err::<Cycles, Exception>(e) && c1 == m1,
                Ok(v) => exists|m2: ConfiguredCore, d: Result<(u32, u32)>|
                    #[trigger] operator::ea_ay_ix_16_rel(m1, m2, d) && match d {
                        Err(e) => r == Err::<Cycles, Exception>(e) && c1 == m2,
                        Ok((dv, ea)) => {
                            let o = common::or_16_outcome(m2, dv, v);
                            stored(o.0, c1, 16, ea, merged(dv, o.1, 16), r, 18)
                        },
                    },
            }
}

pub fn or_16_re_ix(core: &mut ConfiguredCore) -> (r: Result<Cycles>)
    requires
        old(core).wf(),
    ensures
        final(core).wf(),
        or_16_re_ix_effect(*old(core), *final(core), r),
{
    let ghost c0 = *core;
    let src = operator::dx(core);
    let ghost m1 = *core;
    assert(operator::dx_rel(c0, m1, src));
    let v = match src {
        Err(e) => {
            return Err(e);
        },
        Ok(v) => v,
    };
    let d = operator::ea_ay_ix_16(core);
    let ghost m2 = *core;
    assert(operator::ea_ay_ix_16_rel(m1, m2, d));
    let (dv, ea) = match d {
        Err(e) => {
            return Err(e);
        },
        Ok(p) => p,
    };
    let res = common::or_16(core, dv, v);
    store(core, 16, ea, merge(dv, res, 16), 18)
}

/// What `or_16_re_aw` does: the core goes from `c0` to `c1` and `r` comes back.
pub open spec fn or_16_re_aw_effect(c0: ConfiguredCore, c1: ConfiguredCore, r: Result<Cycles>) -> bool {
    &&& exists|m1: ConfiguredCore, src: Result<u32>|
            #[trigger] operator::dx_rel(c0, m1, src) && match src {
                Err(e) => r == Err::<Cycles, Exception>(e) && c1 == m1,
                Ok(v) => exists|m2: ConfiguredCore, d: Result<(u32, u32)>|
                    #[trigger] operator::ea_aw_16_rel(m1, m2, d) && match d {
                        Err(e) => r == Err::<Cycles, Exception>(e) && c1 == m2,
                        Ok((dv, ea)) => {
                            let o = common::or_16_outcome(m2, dv, v);
                            stored(o.0, c1, 16, ea, merged(dv, o.1, 16), r, 16)
                        },
                    },
            }
}

pub fn or_16_re_aw(core: &mut ConfiguredCore) -> (r: Result<Cycles>)
    requires
        old(core).wf(),
    ensures
        final(core).wf(),
        or_16_re_aw_effect(*old(core), *final(core), r),
{
    let ghost c0 = *core;
    let src = operator::dx(core);
    let ghost m1 = *core;
    assert(operator::dx_rel(c0, m1, src));
    let v = match src {
        Err(e) => {
            return Err(e);
        },
        Ok(v) => v,
    };
    let d = operator::ea_aw_16(core);
    let ghost m2 = *core;
    assert(operator::ea_aw_16_rel(m1, m2, d));
    let (dv, ea) = match d {
        Err(e) => {
            return Err(e);
        },
        Ok(p) => p,
    };
    let res = common::or_16(core, dv, v);
    store(core, 16, ea, merge(dv, res, 16), 16)
}

/// What `or_16_re_al` does: the core goes from `c0` to `c1` and `r` comes back.
pub open spec fn or_16_re_al_effect(c0: ConfiguredCore, c1: ConfiguredCore, r: Result<Cycles>) -> bool {
    &&& exists|m1: ConfiguredCore, src: Result<u32>|
            #[trigger] operator::dx_rel(c0, m1, src) && match src {
                Err(e) => r == Err::<Cycles, Exception>(e) && c1 == m1,
                Ok(v) => exists|m2: ConfiguredCore, d: Result<(u32, u32)>|
                    #[trigger] operator::ea_al_16_rel(m1, m2, d) && match d {
                        Err(e) => r == Err::<Cycles, Exception>(e) && c1 == m2,
                        Ok((dv, ea)) => {
                            let o = common::or_16_outcome(m2, dv, v);
                            stored(o.0, c1, 16, ea, merged(dv, o.1, 16), r, 20)
                        },
                    },
            }
}

pub fn or_16_re_al(core: &mut ConfiguredCore) -> (r: Result<Cycles>)
    requires
        old(core).wf(),
    ensures
        final(core).wf(),
        or_16_re_al_effect(*old(core), *final(core), r),
{
    let ghost c0 = *core;
    let src = operator::dx(core);
    let ghost m1 = *core;
    assert(operator::dx_rel(c0, m1, src));
    let v = match src {
        Err(e) => {
            return Err(e);
        },
        Ok(v) => v,
    };
    let d = operator::ea_al_16(core);
    let ghost m2 = *core;
    assert(operator::ea_al_16_rel(m1, m2, d));
    let (dv, ea) = match d {
        Err(e) => {
            return Err(e);
        },
        Ok(p) => p,
    };
    let res = common::or_16(core, dv, v);
    store(core, 16, ea, merge(dv, res, 16), 20)
}

/// What `or_32_er_dn` does: the core goes from `c0` to `c1` and `r` comes back.
pub open spec fn or_32_er_dn_effect(c0: ConfiguredCore, c1: ConfiguredCore, r: Result<Cycles>) -> bool {
    &&& exists|mid: ConfiguredCore, src: Result<u32>|
            #[trigger] operator::dy_rel(c0, mid, src) && match src {
                Err(e) => r == Err::<Cycles, Exception>(e) && c1 == mid,
                Ok(v) => {
                    let reg = ir_dx(mid.ir);
                    let o = common::or_32_outcome(mid, mid.dar[reg], v);
                    &&& r == Ok::<Cycles, Exception>(Cycles(6))
                    &&& reg_set(o.0, c1, reg, merged(mid.dar[reg], o.1, 32))
                },
            }
}

pub fn or_32_er_dn(core: &mut ConfiguredCore) -> (r: Result<Cycles>)
    requires
        old(core).wf(),
    ensures
        final(core).wf(),
        or_32_er_dn_effect(*old(core), *final(core), r),
{
    let ghost c0 = *core;
    let src = operator::dy(core);
    let ghost mid = *core;
    assert(operator::dy_rel(c0, mid, src));
    match src {
        Err(e) => Err(e),
        Ok(v) => {
            let reg = reg_dx(core.ir);
            let dst = core.dar[reg];
            let res = common::or_32(core, dst, v);
            set_reg(core, reg, merge(dst, res, 32));
            Ok(Cycles(6))
        },
    }
}

/// What `or_32_er_ai` does: the core goes from `c0` to `c1` and `r` comes back.
pub open spec fn or_32_er_ai_effect(c0: ConfiguredCore, c1: ConfiguredCore, r: Result<Cycles>) -> bool {
    &&& exists|mid: ConfiguredCore, src: Result<u32>|
            #[trigger] operator::ay_ai_32_rel(c0, mid, src) && match src {
                Err(e) => r == Err::<Cycles, Exception>(e) && c1 == mid,
                Ok(v) => {
                    let reg = ir_dx(mid.ir);
                    let o = common::or_32_outcome(mid, mid.dar[reg], v);
                    &&& r == Ok::<Cycles, Exception>(Cycles(14))
                    &&& reg_set(o.0, c1, reg, merged(mid.dar[reg], o.1, 32))
                },
            }
}

pub fn or_32_er_ai(core: &mut ConfiguredCore) -> (r: Result<Cycles>)
    requires
        old(core).wf(),
    ensures
        final(core).wf(),
        or_32_er_ai_effect(*old(core), *final(core), r),
{
    let ghost c0 = *core;
    let src = operator::ay_ai_32(core);
    let ghost mid = *core;
    assert(operator::ay_ai_32_rel(c0, mid, src));
    match src {
        Err(e) => Err(e),
        Ok(v) => {
            let reg = reg_dx(core.ir);
            let dst = core.dar[reg];
            let res = common::or_32(core, dst, v);
            set_reg(core, reg, merge(dst, res, 32));
            Ok(Cycles(14))
        },
    }
}

/// What `or_32_er_pi` does: the core goes from `c0` to `c1` and `r` comes back.
pub open spec fn or_32_er_pi_effect(c0: ConfiguredCore, c1: ConfiguredCore, r: Result<Cycles>) -> bool {
    &&& exists|mid: ConfiguredCore, src: Result<u32>|
            #[trigger] operator::ay_pi_32_rel(c0, mid, src) && match src {
                Err(e) => r == Err::<Cycles, Exception>(e) && c1 == mid,
                Ok(v) => {
                    let reg = ir_dx(mid.ir);
                    let o = common::or_32_outcome(mid, mid.dar[reg], v);
                    &&& r == Ok::<Cycles, Exception>(Cycles(14))
                    &&& reg_set(o.0, c1, reg, merged(mid.dar[reg], o.1, 32))
                },
            }
}

pub fn or_32_er_pi(core: &mut ConfiguredCore) -> (r: Result<Cycles>)
    requires
        old(core).wf(),
    ensures
        final(core).wf(),
        or_32_er_pi_effect(*old(core), *final(core), r),
{
    let ghost c0 = *core;
    let src = operator::ay_pi_32(core);
    let ghost mid = *core;
    assert(operator::ay_pi_32_rel(c0, mid, src));
    match src {
        Err(e) => Err(e),
        Ok(v) => {
            let reg = reg_dx(core.ir);
            let dst = core.dar[reg];
            let res = common::or_32(core, dst, v);
            set_reg(core, reg, merge(dst, res, 32));
            Ok(Cycles(14))
        },
    }
}

/// What `or_32_er_pd` does: the core goes from `c0` to `c1` and `r` comes back.
pub open spec fn or_32_er_pd_effect(c0: ConfiguredCore, c1: ConfiguredCore, r: Result<Cycles>) -> bool {
    &&& exists|mid: ConfiguredCore, src: Result<u32>|
            #[trigger] operator::ay_pd_32_rel(c0, mid, src) && match src {
                Err(e) => r == Err::<Cycles, Exception>(e) && c1 == mid,
                Ok(v) => {
                    let reg = ir_dx(mid.ir);
                    let o = common::or_32_outcome(mid, mid.dar[reg], v);
                    &&& r == Ok::<Cycles, Exception>(Cycles(16))
                    &&& reg_set(o.0, c1, reg, merged(mid.dar[reg], o.1, 32))
                },
            }
}

pub fn or_32_er_pd(core: &mut ConfiguredCore) -> (r: Result<Cycles>)
    requires
        old(core).wf(),
    ensures
        final(core).wf(),
        or_32_er_pd_effect(*old(core), *final(core), r),
{
    let ghost c0 = *core;
    let src = operator::ay_pd_32(core);
    let ghost mid = *core;
    assert(operator::ay_pd_32_rel(c0, mid, src));
    match src {
        Err(e) => Err(e),
        Ok(v) => {
            let reg = reg_dx(core.ir);
            let dst = core.dar[reg];
            let res = common::or_32(core, dst, v);
            set_reg(core, reg, merge(dst, res, 32));
            Ok(Cycles(16))
        },
    }
}

/// What `or_32_er_di` does: the core goes from `c0` to `c1` and `r` comes back.
pub open spec fn or_32_er_di_effect(c0: ConfiguredCore, c1: ConfiguredCore, r: Result<Cycles>) -> bool {
    &&& exists|mid: ConfiguredCore, src: Result<u32>|
            #[trigger] operator::ay_di_32_rel(c0, mid, src) && match src {
                Err(e) => r == Err::<Cycles, Exception>(e) && c1 == mid,
                Ok(v) => {
                    let reg = ir_dx(mid.ir);
                    let o = common::or_32_outcome(mid, mid.dar[reg], v);
                    &&& r == Ok::<Cycles, Exception>(Cycles(18))
                    &&& reg_set(o.0, c1, reg, merged(mid.dar[reg], o.1, 32))
                },
            }
}

pub fn or_32_er_di(core: &mut ConfiguredCore) -> (r: Result<Cycles>)
    requires
        old(core).wf(),
    ensures
        final(core).wf(),
        or_32_er_di_effect(*old(core), *final(core), r),
{
    let ghost c0 = *core;
    let src = operator::ay_di_32(core);
    let ghost mid = *core;
    assert(operator::ay_di_32_rel(c0, mid, src));
    match src {
        Err(e) => Err(e),
        Ok(v) => {
            let reg = reg_dx(core.ir);
            let dst = core.dar[reg];
            let res = common::or_32(core, dst, v);
            set_reg(core, reg, merge(dst, res, 32));
            Ok(Cycles(18))
        },
    }
}

/// What `or_32_er_ix` does: the core goes from `c0` to `c1` and `r` comes back.
pub open spec fn or_32_er_ix_effect(c0: ConfiguredCore, c1: ConfiguredCore, r: Result<Cycles>) -> bool {
    &&& exists|mid: ConfiguredCore, src: Result<u32>|
            #[trigger] operator::ay_ix_32_rel(c0, mid, src) && match src {
                Err(e) => r == Err::<Cycles, Exception>(e) && c1 == mid,
                Ok(v) => {
                    let reg = ir_dx(mid.ir);
                    let o = common::or_32_outcome(mid, mid.dar[reg], v);
                    &&& r == Ok::<Cycles, Exception>(Cycles(20))
                    &&& reg_set(o.0, c1, reg, merged(mid.dar[reg], o.1, 32))
                },
            }
}

pub fn or_32_er_ix(core: &mut ConfiguredCore) -> (r: Result<Cycles>)
    requires
        old(core).wf(),
    ensures
        final(core).wf(),
        or_32_er_ix_effect(*old(core), *final(core), r),
{
    let ghost c0 = *core;
    let src = operator::ay_ix_32(core);
    let ghost mid = *core;
    assert(operator::ay_ix_32_rel(c0, mid, src));
    match src {
        Err(e) => Err(e),
        Ok(v) => {
            let reg = reg_dx(core.ir);
            let dst = core.dar[reg];
            let res = common::or_32(core, dst, v);
            set_reg(core, reg, merge(dst, res, 32));
            Ok(Cycles(20))
        },
    }
}

/// What `or_32_er_aw` does: the core goes from `c0` to `c1` and `r` comes back.
pub open spec fn or_32_er_aw_effect(c0: ConfiguredCore, c1: ConfiguredCore, r: Result<Cycles>) -> bool {
    &&& exists|mid: ConfiguredCore, src: Result<u32>|
            #[trigger] operator::aw_32_rel(c0, mid, src) && match src {
                Err(e) => r == Err::<Cycles, Exception>(e) && c1 == mid,
                Ok(v) => {
                    let reg = ir_dx(mid.ir);
                    let o = common::or_32_outcome(mid, mid.dar[reg], v);
                    &&& r == Ok::<Cycles, Exception>(Cycles(18))
                    &&& reg_set(o.0, c1, reg, merged(mid.dar[reg], o.1, 32))
                },
            }
}

pub fn or_32_er_aw(core: &mut ConfiguredCore) -> (r: Result<Cycles>)
    requires
        old(core).wf(),
    ensures
        final(core).wf(),
        or_32_er_aw_effect(*old(core), *final(core), r),
{
    let ghost c0 = *core;
    let src = operator::aw_32(core);
    let ghost mid = *core;
    assert(operator::aw_32_rel(c0, mid, src));
    match src {
        Err(e) => Err(e),
        Ok(v) => {
            let reg = reg_dx(core.ir);
            let dst = core.dar[reg];
            let res = common::or_32(core, dst, v);
            set_reg(core, reg, merge(dst, res, 32));
            Ok(Cycles(18))
        },
    }
}

/// What `or_32_er_al` does: the core goes from `c0` to `c1` and `r` comes back.
pub open spec fn or_32_er_al_effect(c0: ConfiguredCore, c1: ConfiguredCore, r: Result<Cycles>) -> bool {
    &&& exists|mid: ConfiguredCore, src: Result<u32>|
            #[trigger] operator::al_32_rel(c0, mid, src) && match src {
                Err(e) => r == Err::<Cycles, Exception>(e) && c1 == mid,
                Ok(v) => {
                    let reg = ir_dx(mid.ir);
                    let o = common::or_32_outcome(mid, mid.dar[reg], v);
                    &&& r == Ok::<Cycles, Exception>(Cycles(22))
                    &&& reg_set(o.0, c1, reg, merged(mid.dar[reg], o.1, 32))
                },
            }
}

pub fn or_32_er_al(core: &mut ConfiguredCore) -> (r: Result<Cycles>)
    requires
        old(core).wf(),
    ensures
        final(core).wf(),
        or_32_er_al_effect(*old(core), *final(core), r),
{
    let ghost c0 = *core;
    let src = operator::al_32(core);
    let ghost mid = *core;
    assert(operator::al_32_rel(c0, mid, src));
    match src {
        Err(e) => Err(e),
        Ok(v) => {
            let reg = reg_dx(core.ir);
            let dst = core.dar[reg];
            let res = common::or_32(core, dst, v);
            set_reg(core, reg, merge(dst, res, 32));
            Ok(Cycles(22))
        },
    }
}

/// What `or_32_er_pcdi` does: the core goes from `c0` to `c1` and `r` comes back.
pub open spec fn or_32_er_pcdi_effect(c0: ConfiguredCore, c1: ConfiguredCore, r: Result<Cycles>) -> bool {
    &&& exists|mid: ConfiguredCore, src: Result<u32>|
            #[trigger] operator::pcdi_32_rel(c0, mid, src) && match src {
                Err(e) => r == Err::<Cycles, Exception>(e) && c1 == mid,
                Ok(v) => {
                    let reg = ir_dx(mid.ir);
                    let o = common::or_32_outcome(mid, mid.dar[reg], v);
                    &&& r == Ok::<Cycles, Exception>(Cycles(18))
                    &&& reg_set(o.0, c1, reg, merged(mid.dar[reg], o.1, 32))
                },
            }
}

pub fn or_32_er_pcdi(core: &mut ConfiguredCore) -> (r: Result<Cycles>)
    requires
        old(core).wf(),
    ensures
        final(core).wf(),
        or_32_er_pcdi_effect(*old(core), *final(core), r),
{
    let ghost c0 = *core;
    let src = operator::pcdi_32(core);
    let ghost mid = *core;
    assert(operator::pcdi_32_rel(c0, mid, src));
    match src {
        Err(e) => Err(e),
        Ok(v) => {
            let reg = reg_dx(core.ir);
            let dst = core.dar[reg];
            let res = common::or_32(core, dst, v);
            set_reg(core, reg, merge(dst, res, 32));
            Ok(Cycles(18))
        },
    }
}

/// What `or_32_er_pcix` does: the core goes from `c0` to `c1` and `r` comes back.
pub open spec fn or_32_er_pcix_effect(c0: ConfiguredCore, c1: ConfiguredCore, r: Result<Cycles>) -> bool {
    &&& exists|mid: ConfiguredCore, src: Result<u32>|
            #[trigger] operator::pcix_32_rel(c0, mid, src) && match src {
                Err(e) => r == Err::<Cycles, Exception>(e) && c1 == mid,
                Ok(v) => {
                    let reg = ir_dx(mid.ir);
                    let o = common::or_32_outcome(mid, mid.dar[reg], v);
                    &&& r == Ok::<Cycles, Exception>(Cycles(20))
                    &&& reg_set(o.0, c1, reg, merged(mid.dar[reg], o.1, 32))
                },
            }
}

pub fn or_32_er_pcix(core: &mut ConfiguredCore) -> (r: Result<Cycles>)
    requires
        old(core).wf(),
    ensures
        final(core).wf(),
        or_32_er_pcix_effect(*old(core), *final(core), r),
{
    let ghost c0 = *core;
    let src = operator::pcix_32(core);
    let ghost mid = *core;
    assert(operator::pcix_32_rel(c0, mid, src));
    match src {
        Err(e) => Err(e),
        Ok(v) => {
            let reg = reg_dx(core.ir);
            let dst = core.dar[reg];
            let res = common::or_32(core, dst, v);
            set_reg(core, reg, merge(dst, res, 32));
            Ok(Cycles(20))
        },
    }
}

/// What `or_32_er_imm` does: the core goes from `c0` to `c1` and `r` comes back.
pub open spec fn or_32_er_imm_effect(c0: ConfiguredCore, c1: ConfiguredCore, r: Result<Cycles>) -> bool {
    &&& exists|mid: ConfiguredCore, src: Result<u32>|
            #[trigger] operator::imm_32_rel(c0, mid, src) && match src {
                Err(e) => r == Err::<Cycles, Exception>(e) && c1 == mid,
                Ok(v) => {
                    let reg = ir_dx(mid.ir);
                    let o = common::or_32_outcome(mid, mid.dar[reg], v);
                    &&& r == Ok::<Cycles, Exception>(Cycles(16))
                    &&& reg_set(o.0, c1, reg, merged(mid.dar[reg], o.1, 32))
                },
            }
}

pub fn or_32_er_imm(core: &mut ConfiguredCore) -> (r: Result<Cycles>)
    requires
        old(core).wf(),
    ensures
        final(core).wf(),
        or_32_er_imm_effect(*old(core), *final(core), r),
{
    let ghost c0 = *core;
    let src = operator::imm_32(core);
    let ghost mid = *core;
    assert(operator::imm_32_rel(c0, mid, src));
    match src {
        Err(e) => Err(e),
        Ok(v) => {
            let reg = reg_dx(core.ir);
            let dst = core.dar[reg];
            let res = common::or_32(core, dst, v);
            set_reg(core, reg, merge(dst, res, 32));
            Ok(Cycles(16))
        },
    }
}

/// What `or_32_re_ai` does: the core goes from `c0` to `c1` and `r` comes back.
pub open spec fn or_32_re_ai_effect(c0: ConfiguredCore, c1: ConfiguredCore, r: Result<Cycles>) -> bool {
    &&& exists|m1: ConfiguredCore, src: Result<u32>|
            #[trigger] operator::dx_rel(c0, m1, src) && match src {
                Err(e) => r == Err::<Cycles, Exception>(e) && c1 == m1,
                Ok(v) => exists|m2: ConfiguredCore, d: Result<(u32, u32)>|
                    #[trigger] operator::ea_ay_ai_32_rel(m1, m2, d) && match d {
                        Err(e) => r == Err::<Cycles, Exception>(e) && c1 == m2,
                        Ok((dv, ea)) => {
                            let o = common::or_32_outcome(m2, dv, v);
                            stored(o.0, c1, 32, ea, merged(dv, o.1, 32), r, 20)
                        },
                    },
            }
}

pub fn or_32_re_ai(core: &mut ConfiguredCore) -> (r: Result<Cycles>)
    requires
        old(core).wf(),
    ensures
        final(core).wf(),
        or_32_re_ai_effect(*old(core), *final(core), r),
{
    let ghost c0 = *core;
    let src = operator::dx(core);
    let ghost m1 = *core;
    assert(operator::dx_rel(c0, m1, src));
    let v = match src {
        Err(e) => {
            return Err(e);
        },
        Ok(v) => v,
    };
    let d = operator::ea_ay_ai_32(core);
    let ghost m2 = *core;
    assert(operator::ea_ay_ai_32_rel(m1, m2, d));
    let (dv, ea) = match d {
        Err(e) => {
            return Err(e);
        },
        Ok(p) => p,
    };
    let res = common::or_32(core, dv, v);
    store(core, 32, ea, merge(dv, res, 32), 20)
}

/// What `or_32_re_pi` does: the core goes from `c0` to `c1` and `r` comes back.
pub open spec fn or_32_re_pi_effect(c0: ConfiguredCore, c1: ConfiguredCore, r: Result<Cycles>) -> bool {
    &&& exists|m1: ConfiguredCore, src: Result<u32>|
            #[trigger] operator::dx_rel(c0, m1, src) && match src {
                Err(e) => r == Err::<Cycles, Exception>(e) && c1 == m1,
                Ok(v) => exists|m2: ConfiguredCore, d: Result<(u32, u32)>|
                    #[trigger] operator::ea_ay_pi_32_rel(m1, m2, d) && match d {
                        Err(e) => r == Err::<Cycles, Exception>(e) && c1 == m2,
                        Ok((dv, ea)) => {
                            let o = common::or_32_outcome(m2, dv, v);
                            stored(o.0, c1, 32, ea, merged(dv, o.1, 32), r, 20)
                        },
                    },
            }
}

pub fn or_32_re_pi(core: &mut ConfiguredCore) -> (r: Result<Cycles>)
    requires
        old(core).wf(),
    ensures
        final(core).wf(),
        or_32_re_pi_effect(*old(core), *final(core), r),
{
    let ghost c0 = *core;
    let src = operator::dx(core);
    let ghost m1 = *core;
    assert(operator::dx_rel(c0, m1, src));
    let v = match src {
        Err(e) => {
            return Err(e);
        },
        Ok(v) => v,
    };
    let d = operator::ea_ay_pi_32(core);
    let ghost m2 = *core;
    assert(operator::ea_ay_pi_32_rel(m1, m2, d));
    let (dv, ea) = match d {
        Err(e) => {
            return Err(e);
        },
        Ok(p) => p,
    };
    let res = common::or_32(core, dv, v);
    store(core, 32, ea, merge(dv, res, 32), 20)
}

/// What `or_32_re_pd` does: the core goes from `c0` to `c1` and `r` comes back.
pub open spec fn or_32_re_pd_effect(c0: ConfiguredCore, c1: ConfiguredCore, r: Result<Cycles>) -> bool {
    &&& exists|m1: ConfiguredCore, src: Result<u32>|
            #[trigger] operator::dx_rel(c0, m1, src) && match src {
                Err(e) => r == Err::<Cycles, Exception>(e) && c1 == m1,
                Ok(v) => exists|m2: ConfiguredCore, d: Result<(u32, u32)>|
                    #[trigger] operator::ea_ay_pd_32_rel(m1, m2, d) && match d {
                        Err(e) => r == Err::<Cycles, Exception>(e) && c1 == m2,
                        Ok((dv, ea)) => {
                            let o = common::or_32_outcome(m2, dv, v);
                            stored(o.0, c1, 32, ea, merged(dv, o.1, 32), r, 22)
                        },
                    },
            }
}

pub fn or_32_re_pd(core: &mut ConfiguredCore) -> (r: Result<Cycles>)
    requires
        old(core).wf(),
    ensures
        final(core).wf(),
        or_32_re_pd_effect(*old(core), *final(core), r),
{
    let ghost c0 = *core;
    let src = operator::dx(core);
    let ghost m1 = *core;
    assert(operator::dx_rel(c0, m1, src));
    let v = match src {
        Err(e) => {
            return Err(e);
        },
        Ok(v) => v,
    };
    let d = operator::ea_ay_pd_32(core);
    let ghost m2 = *core;
    assert(operator::ea_ay_pd_32_rel(m1, m2, d));
    let (dv, ea) = match d {
        Err(e) => {
            return Err(e);
        },
        Ok(p) => p,
    };
    let res = common::or_32(core, dv, v);
    store(core, 32, ea, merge(dv, res, 32), 22)
}

/// What `or_32_re_di` does: the core goes from `c0` to `c1` and `r` comes back.
pub open spec fn or_32_re_di_effect(c0: ConfiguredCore, c1: ConfiguredCore, r: Result<Cycles>) -> bool {
    &&& exists|m1: ConfiguredCore, src: Result<u32>|
            #[trigger] operator::dx_rel(c0, m1, src) && match src {
                Err(e) => r == Err::<Cycles, Exception>(e) && c1 == m1,
                Ok(v) => exists|m2: ConfiguredCore, d: Result<(u32, u32)>|
                    #[trigger] operator::ea_ay_di_32_rel(m1, m2, d) && match d {
                        Err(e) => r == Err::<Cycles, Exception>(e) && c1 == m2,
                        Ok((dv, ea)) => {
                            let o = common::or_32_outcome(m2, dv, v);
                            stored(o.0, c1, 32, ea, merged(dv, o.1, 32), r, 24)
                        },
                    },
            }
}

pub fn or_32_re_di(core: &mut ConfiguredCore) -> (r: Result<Cycles>)
    requires
        old(core).wf(),
    ensures
        final(core).wf(),
        or_32_re_di_effect(*old(core), *final(core), r),
{
    let ghost c0 = *core;
    let src = operator::dx(core);
    let ghost m1 = *core;
    assert(operator::dx_rel(c0, m1, src));
    let v = match src {
        Err(e) => {
            return Err(e);
        },
        Ok(v) => v,
    };
    let d = operator::ea_ay_di_32(core);
    let ghost m2 = *core;
    assert(operator::ea_ay_di_32_rel(m1, m2, d));
    let (dv, ea) = match d {
        Err(e) => {
            return Err(e);
        },
        Ok(p) => p,
    };
    let res = common::or_32(core, dv, v);
    store(core, 32, ea, merge(dv, res, 32), 24)
}

/// What `or_32_re_ix` does: the core goes from `c0` to `c1` and `r` comes back.
pub open spec fn or_32_re_ix_effect(c0: ConfiguredCore, c1: ConfiguredCore, r: Result<Cycles>) -> bool {
    &&& exists|m1: ConfiguredCore, src: Result<u32>|
            #[trigger] operator::dx_rel(c0, m1, src) && match src {
                Err(e) => r == Err::<Cycles, Exception>(e) && c1 == m1,
                Ok(v) => exists|m2: ConfiguredCore, d: Result<(u32, u32)>|
                    #[trigger] operator::ea_ay_ix_32_rel(m1, m2, d) && match d {
                        Err(e) => r == Err::<Cycles, Exception>(e) && c1 == m2,
                        Ok((dv, ea)) => {
                            let o = common::or_32_outcome(m2, dv, v);
                            stored(o.0, c1, 32, ea, merged(dv, o.1, 32), r, 26)
                        },
                    },
            }
}

pub fn or_32_re_ix(core: &mut ConfiguredCore) -> (r: Result<Cycles>)
    requires
        old(core).wf(),
    ensures
        final(core).wf(),
        or_32_re_ix_effect(*old(core), *final(core), r),
{
    let ghost c0 = *core;
    let src = operator::dx(core);
    let ghost m1 = *core;
    assert(operator::dx_rel(c0, m1, src));
    let v = match src {
        Err(e) => {
            return Err(e);
        },
        Ok(v) => v,
    };
    let d = operator::ea_ay_ix_32(core);
    let ghost m2 = *core;
    assert(operator::ea_ay_ix_32_rel(m1, m2, d));
    let (dv, ea) = match d {
        Err(e) => {
            return Err(e);
        },
        Ok(p) => p,
    };
    let res = common::or_32(core, dv, v);
    store(core, 32, ea, merge(dv, res, 32), 26)
}

/// What `or_32_re_aw` does: the core goes from `c0` to `c1` and `r` comes back.
pub open spec fn or_32_re_aw_effect(c0: ConfiguredCore, c1: ConfiguredCore, r: Result<Cycles>) -> bool {
    &&& exists|m1: ConfiguredCore, src: Result<u32>|
            #[trigger] operator::dx_rel(c0, m1, src) && match src {
                Err(e) => r == Err::<Cycles, Exception>(e) && c1 == m1,
                Ok(v) => exists|m2: ConfiguredCore, d: Result<(u32, u32)>|
                    #[trigger] operator::ea_aw_32_rel(m1, m2, d) && match d {
                        Err(e) => r == Err::<Cycles, Exception>(e) && c1 == m2,
                        Ok((dv, ea)) => {
                            let o = common::or_32_outcome(m2, dv, v);
                            stored(o.0, c1, 32, ea, merged(dv, o.1, 32), r, 24)
                        },
                    },
            }
}

pub fn or_32_re_aw(core: &mut ConfiguredCore) -> (r: Result<Cycles>)
    requires
        old(core).wf(),
    ensures
        final(core).wf(),
        or_32_re_aw_effect(*old(core), *final(core), r),
{
    let ghost c0 = *core;
    let src = operator::dx(core);
    let ghost m1 = *core;
    assert(operator::dx_rel(c0, m1, src));
    let v = match src {
        Err(e) => {
            return Err(e);
        },
        Ok(v) => v,
    };
    let d = operator::ea_aw_32(core);
    let ghost m2 = *core;
    assert(operator::ea_aw_32_rel(m1, m2, d));
    let (dv, ea) = match d {
        Err(e) => {
            return Err(e);
        },
        Ok(p) => p,
    };
    let res = common::or_32(core, dv, v);
    store(core, 32, ea, merge(dv, res, 32), 24)
}

/// What `or_32_re_al` does: the core goes from `c0` to `c1` and `r` comes back.
pub open spec fn or_32_re_al_effect(c0: ConfiguredCore, c1: ConfiguredCore, r: Result<Cycles>) -> bool {
    &&& exists|m1: ConfiguredCore, src: Result<u32>|
            #[trigger] operator::dx_rel(c0, m1, src) && match src {
                Err(e) => r == Err::<Cycles, Exception>(e) && c1 == m1,
                Ok(v) => exists|m2: ConfiguredCore, d: Result<(u32, u32)>|
                    #[trigger] operator::ea_al_32_rel(m1, m2, d) && match d {
                        Err(e) => r == Err::<Cycles, Exception>(e) && c1 == m2,
                        Ok((dv, ea)) => {
                            let o = common::or_32_outcome(m2, dv, v);
                            stored(o.0, c1, 32, ea, merged(dv, o.1, 32), r, 28)
                        },
                    },
            }
}

pub fn or_32_re_al(core: &mut ConfiguredCore) -> (r: Result<Cycles>)
    requires
        old(core).wf(),
    ensures
        final(core).wf(),
        or_32_re_al_effect(*old(core), *final(core), r),
{
    let ghost c0 = *core;
    let src = operator::dx(core);
    let ghost m1 = *core;
    assert(operator::dx_rel(c0, m1, src));
    let v = match src {
        Err(e) => {
            return Err(e);
        },
        Ok(v) => v,
    };
    let d = operator::ea_al_32(core);
    let ghost m2 = *core;
    assert(operator::ea_al_32_rel(m1, m2, d));
    let (dv, ea) = match d {
        Err(e) => {
            return Err(e);
        },
        Ok(p) => p,
    };
    let res = common::or_32(core, dv, v);
    store(core, 32, ea, merge(dv, res, 32), 28)
}

/// What `ori_8_dn` does: the core goes from `c0` to `c1` and `r` comes back.
pub open spec fn ori_8_dn_effect(c0: ConfiguredCore, c1: ConfiguredCore, r: Result<Cycles>) -> bool {
    &&& exists|mid: ConfiguredCore, src: Result<u32>|
            #[trigger] operator::imm_8_rel(c0, mid, src) && match src {
                Err(e) => r == Err::<Cycles, Exception>(e) && c1 == mid,
                Ok(v) => {
                    let reg = ir_dy(mid.ir);
                    let o = common::or_8_outcome(mid, mid.dar[reg], v);
                    &&& r == Ok::<Cycles, Exception>(Cycles(8))
                    &&& reg_set(o.0, c1, reg, merged(mid.dar[reg], o.1, 8))
                },
            }
}

pub fn ori_8_dn(core: &mut ConfiguredCore) -> (r: Result<Cycles>)
    requires
        old(core).wf(),
    ensures
        final(core).wf(),
        ori_8_dn_effect(*old(core), *final(core), r),
{
    let ghost c0 = *core;
    let src = operator::imm_8(core);
    let ghost mid = *core;
    assert(operator::imm_8_rel(c0, mid, src));
    match src {
        Err(e) => Err(e),
        Ok(v) => {
            let reg = reg_dy(core.ir);
            let dst = core.dar[reg];
            let res = common::or_8(core, dst, v);
            set_reg(core, reg, merge(dst, res, 8));
            Ok(Cycles(8))
        },
    }
}

/// What `ori_8_ai` does: the core goes from `c0` to `c1` and `r` comes back.
pub open spec fn ori_8_ai_effect(c0: ConfiguredCore, c1: ConfiguredCore, r: Result<Cycles>) -> bool {
    &&& exists|m1: ConfiguredCore, src: Result<u32>|
            #[trigger] operator::imm_8_rel(c0, m1, src) && match src {
                Err(e) => r == Err::<Cycles, Exception>(e) && c1 == m1,
                Ok(v) => exists|m2: ConfiguredCore, d: Result<(u32, u32)>|
                    #[trigger] operator::ea_ay_ai_8_rel(m1, m2, d) && match d {
                        Err(e) => r == Err::<Cycles, Exception>(e) && c1 == m2,
                        Ok((dv, ea)) => {
                            let o = common::or_8_outcome(m2, dv, v);
                            stored(o.0, c1, 8, ea, merged(dv, o.1, 8), r, 16)
                        },
                    },
            }
}

pub fn ori_8_ai(core: &mut ConfiguredCore) -> (r: Result<Cycles>)
    requires
        old(core).wf(),
    ensures
        final(core).wf(),
        ori_8_ai_effect(*old(core), *final(core), r),
{
    let ghost c0 = *core;
    let src = operator::imm_8(core);
    let ghost m1 = *core;
    assert(operator::imm_8_rel(c0, m1, src));
    let v = match src {
        Err(e) => {
            return Err(e);
        },
        Ok(v) => v,
    };
    let d = operator::ea_ay_ai_8(core);
    let ghost m2 = *core;
    assert(operator::ea_ay_ai_8_rel(m1, m2, d));
    let (dv, ea) = match d {
        Err(e) => {
            return Err(e);
        },
        Ok(p) => p,
    };
    let res = common::or_8(core, dv, v);
    store(core, 8, ea, merge(dv, res, 8), 16)
}

/// What `ori_8_pi` does: the core goes from `c0` to `c1` and `r` comes back.
pub open spec fn ori_8_pi_effect(c0: ConfiguredCore, c1: ConfiguredCore, r: Result<Cycles>) -> bool {
    &&& exists|m1: ConfiguredCore, src: Result<u32>|
            #[trigger] operator::imm_8_rel(c0, m1, src) && match src {
                Err(e) => r == Err::<Cycles, Exception>(e) && c1 == m1,
                Ok(v) => exists|m2: ConfiguredCore, d: Result<(u32, u32)>|
                    #[trigger] operator::ea_ay_pi_8_rel(m1, m2, d) && match d {
                        Err(e) => r == Err::<Cycles, Exception>(e) && c1 == m2,
                        Ok((dv, ea)) => {
                            let o = common::or_8_outcome(m2, dv, v);
                            stored(o.0, c1, 8, ea, merged(dv, o.1, 8), r, 16)
                        },
                    },
            }
}

pub fn ori_8_pi(core: &mut ConfiguredCore) -> (r: Result<Cycles>)
    requires
        old(core).wf(),
    ensures
        final(core).wf(),
        ori_8_pi_effect(*old(core), *final(core), r),
{
    let ghost c0 = *core;
    let src = operator::imm_8(core);
    let ghost m1 = *core;
    assert(operator::imm_8_rel(c0, m1, src));
    let v = match src {
        Err(e) => {
            return Err(e);
        },
        Ok(v) => v,
    };
    let d = operator::ea_ay_pi_8(core);
    let ghost m2 = *core;
    assert(operator::ea_ay_pi_8_rel(m1, m2, d));
    let (dv, ea) = match d {
        Err(e) => {
            return Err(e);
        },
        Ok(p) => p,
    };
    let res = common::or_8(core, dv, v);
    store(core, 8, ea, merge(dv, res, 8), 16)
}

/// What `ori_8_pd` does: the core goes from `c0` to `c1` and `r` comes back.
pub open spec fn ori_8_pd_effect(c0: ConfiguredCore, c1: ConfiguredCore, r: Result<Cycles>) -> bool {
    &&& exists|m1: ConfiguredCore, src: Result<u32>|
            #[trigger] operator::imm_8_rel(c0, m1, src) && match src {
                Err(e) => r == Err::<Cycles, Exception>(e) && c1 == m1,
                Ok(v) => exists|m2: ConfiguredCore, d: Result<(u32, u32)>|
                    #[trigger] operator::ea_ay_pd_8_rel(m1, m2, d) && match d {
                        Err(e) => r == Err::<Cycles, Exception>(e) && c1 == m2,
                        Ok((dv, ea)) => {
                            let o = common::or_8_outcome(m2, dv, v);
                            stored(o.0, c1, 8, ea, merged(dv, o.1, 8), r, 18)
                        },
                    },
            }
}

pub fn ori_8_pd(core: &mut ConfiguredCore) -> (r: Result<Cycles>)
    requires
        old(core).wf(),
    ensures
        final(core).wf(),
        ori_8_pd_effect(*old(core), *final(core), r),
{
    let ghost c0 = *core;
    let src = operator::imm_8(core);
    let ghost m1 = *core;
    assert(operator::imm_8_rel(c0, m1, src));
    let v = match src {
        Err(e) => {
            return Err(e);
        },
        Ok(v) => v,
    };
    let d = operator::ea_ay_pd_8(core);
    let ghost m2 = *core;
    assert(operator::ea_ay_pd_8_rel(m1, m2, d));
    let (dv, ea) = match d {
        Err(e) => {
            return Err(e);
        },
        Ok(p) => p,
    };
    let res = common::or_8(core, dv, v);
    store(core, 8, ea, merge(dv, res, 8), 18)
}

/// What `ori_8_di` does: the core goes from `c0` to `c1` and `r` comes back.
pub open spec fn ori_8_di_effect(c0: ConfiguredCore, c1: ConfiguredCore, r: Result<Cycles>) -> bool {
    &&& exists|m1: ConfiguredCore, src: Result<u32>|
            #[trigger] operator::imm_8_rel(c0, m1, src) && match src {
                Err(e) => r == Err::<Cycles, Exception>(e) && c1 == m1,
                Ok(v) => exists|m2: ConfiguredCore, d: Result<(u32, u32)>|
                    #[trigger] operator::ea_ay_di_8_rel(m1, m2, d) && match d {
                        Err(e) => r == Err::<Cycles, Exception>(e) && c1 == m2,
                        Ok((dv, ea)) => {
                            let o = common::or_8_outcome(m2, dv, v);
                            stored(o.0, c1, 8, ea, merged(dv, o.1, 8), r, 20)
                        },
                    },
            }
}

pub fn ori_8_di(core: &mut ConfiguredCore) -> (r: Result<Cycles>)
    requires
        old(core).wf(),
    ensures
        final(core).wf(),
        ori_8_di_effect(*old(core), *final(core), r),
{
    let ghost c0 = *core;
    let src = operator::imm_8(core);
    let ghost m1 = *core;
    assert(operator::imm_8_rel(c0, m1, src));
    let v = match src {
        Err(e) => {
            return Err(e);
        },
        Ok(v) => v,
    };
    let d = operator::ea_ay_di_8(core);
    let ghost m2 = *core;
    assert(operator::ea_ay_di_8_rel(m1, m2, d));
    let (dv, ea) = match d {
        Err(e) => {
            return Err(e);
        },
        Ok(p) => p,
    };
    let res = common::or_8(core, dv, v);
    store(core, 8, ea, merge(dv, res, 8), 20)
}

/// What `ori_8_ix` does: the core goes from `c0` to `c1` and `r` comes back.
pub open spec fn ori_8_ix_effect(c0: ConfiguredCore, c1: ConfiguredCore, r: Result<Cycles>) -> bool {
    &&& exists|m1: ConfiguredCore, src: Result<u32>|
            #[trigger] operator::imm_8_rel(c0, m1, src) && match src {
                Err(e) => r == Err::<Cycles, Exception>(e) && c1 == m1,
                Ok(v) => exists|m2: ConfiguredCore, d: Result<(u32, u32)>|
                    #[trigger] operator::ea_ay_ix_8_rel(m1, m2, d) && match d {
                        Err(e) => r == Err::<Cycles, Exception>(e) && c1 == m2,
                        Ok((dv, ea)) => {
                            let o = common::or_8_outcome(m2, dv, v);
                            stored(o.0, c1, 8, ea, merged(dv, o.1, 8), r, 22)
                        },
                    },
            }
}

pub fn ori_8_ix(core: &mut ConfiguredCore) -> (r: Result<Cycles>)
    requires
        old(core).wf(),
    ensures
        final(core).wf(),
        ori_8_ix_effect(*old(core), *final(core), r),
{
    let ghost c0 = *core;
    let src = operator::imm_8(core);
    let ghost m1 = *core;
    assert(operator::imm_8_rel(c0, m1, src));
    let v = match src {
        Err(e) => {
            return Err(e);
        },
        Ok(v) => v,
    };
    let d = operator::ea_ay_ix_8(core);
    let ghost m2 = *core;
    assert(operator::ea_ay_ix_8_rel(m1, m2, d));
    let (dv, ea) = match d {
        Err(e) => {
            return Err(e);
        },
        Ok(p) => p,
    };
    let res = common::or_8(core, dv, v);
    store(core, 8, ea, merge(dv, res, 8), 22)
}

/// What `ori_8_aw` does: the core goes from `c0` to `c1` and `r` comes back.
pub open spec fn ori_8_aw_effect(c0: ConfiguredCore, c1: ConfiguredCore, r: Result<Cycles>) -> bool {
    &&& exists|m1: ConfiguredCore, src: Result<u32>|
            #[trigger] operator::imm_8_rel(c0, m1, src) && match src {
                Err(e) => r == Err::<Cycles, Exception>(e) && c1 == m1,
                Ok(v) => exists|m2: ConfiguredCore, d: Result<(u32, u32)>|
                    #[trigger] operator::ea_aw_8_rel(m1, m2, d) && match d {
                        Err(e) => r == Err::<Cycles, Exception>(e) && c1 == m2,
                        Ok((dv, ea)) => {
                            let o = common::or_8_outcome(m2, dv, v);
                            stored(o.0, c1, 8, ea, merged(dv, o.1, 8), r, 20)
                        },
                    },
            }
}

pub fn ori_8_aw(core: &mut ConfiguredCore) -> (r: Result<Cycles>)
    requires
        old(core).wf(),
    ensures
        final(core).wf(),
        ori_8_aw_effect(*old(core), *final(core), r),
{
    let ghost c0 = *core;
    let src = operator::imm_8(core);
    let ghost m1 = *core;
    assert(operator::imm_8_rel(c0, m1, src));
    let v = match src {
        Err(e) => {
            return Err(e);
        },
        Ok(v) => v,
    };
    let d = operator::ea_aw_8(core);
    let ghost m2 = *core;
    assert(operator::ea_aw_8_rel(m1, m2, d));
    let (dv, ea) = match d {
        Err(e) => {
            return Err(e);
        },
        Ok(p) => p,
    };
    let res = common::or_8(core, dv, v);
    store(core, 8, ea, merge(dv, res, 8), 20)
}

/// What `ori_8_al` does: the core goes from `c0` to `c1` and `r` comes back.
pub open spec fn ori_8_al_effect(c0: ConfiguredCore, c1: ConfiguredCore, r: Result<Cycles>) -> bool {
    &&& exists|m1: ConfiguredCore, src: Result<u32>|
            #[trigger] operator::imm_8_rel(c0, m1, src) && match src {
                Err(e) => r == Err::<Cycles, Exception>(e) && c1 == m1,
                Ok(v) => exists|m2: ConfiguredCore, d: Result<(u32, u32)>|
                    #[trigger] operator::ea_al_8_rel(m1, m2, d) && match d {
                        Err(e) => r == Err::<Cycles, Exception>(e) && c1 == m2,
                        Ok((dv, ea)) => {
                            let o = common::or_8_outcome(m2, dv, v);
                            stored(o.0, c1, 8, ea, merged(dv, o.1, 8), r, 24)
                        },
                    },
            }
}

pub fn ori_8_al(core: &mut ConfiguredCore) -> (r: Result<Cycles>)
    requires
        old(core).wf(),
    ensures
        final(core).wf(),
        ori_8_al_effect(*old(core), *final(core), r),
{
    let ghost c0 = *core;
    let src = operator::imm_8(core);
    let ghost m1 = *core;
    assert(operator::imm_8_rel(c0, m1, src));
    let v = match src {
        Err(e) => {
            return Err(e);
        },
        Ok(v) => v,
    };
    let d = operator::ea_al_8(core);
    let ghost m2 = *core;
    assert(operator::ea_al_8_rel(m1, m2, d));
    let (dv, ea) = match d {
        Err(e) => {
            return Err(e);
        },
        Ok(p) => p,
    };
    let res = common::or_8(core, dv, v);
    store(core, 8, ea, merge(dv, res, 8), 24)
}

/// What `ori_16_dn` does: the core goes from `c0` to `c1` and `r` comes back.
pub open spec fn ori_16_dn_effect(c0: ConfiguredCore, c1: ConfiguredCore, r: Result<Cycles>) -> bool {
    &&& exists|mid: ConfiguredCore, src: Result<u32>|
            #[trigger] operator::imm_16_rel(c0, mid, src) && match src {
                Err(e) => r == Err::<Cycles, Exception>(e) && c1 == mid,
                Ok(v) => {
                    let reg = ir_dy(mid.ir);
                    let o = common::or_16_outcome(mid, mid.dar[reg], v);
                    &&& r == Ok::<Cycles, Exception>(Cycles(8))
                    &&& reg_set(o.0, c1, reg, merged(mid.dar[reg], o.1, 16))
                },
            }
}

pub fn ori_16_dn(core: &mut ConfiguredCore) -> (r: Result<Cycles>)
    requires
        old(core).wf(),
    ensures
        final(core).wf(),
        ori_16_dn_effect(*old(core), *final(core), r),
{
    let ghost c0 = *core;
    let src = operator::imm_16(core);
    let ghost mid = *core;
    assert(operator::imm_16_rel(c0, mid, src));
    match src {
        Err(e) => Err(e),
        Ok(v) => {
            let reg = reg_dy(core.ir);
            let dst = core.dar[reg];
            let res = common::or_16(core, dst, v);
            set_reg(core, reg, merge(dst, res, 16));
            Ok(Cycles(8))
        },
    }
}

/// What `ori_16_ai` does: the core goes from `c0` to `c1` and `r` comes back.
pub open spec fn ori_16_ai_effect(c0: ConfiguredCore, c1: ConfiguredCore, r: Result<Cycles>) -> bool {
    &&& exists|m1: ConfiguredCore, src: Result<u32>|
            #[trigger] operator::imm_16_rel(c0, m1, src) && match src {
                Err(e) => r == Err::<Cycles, Exception>(e) && c1 == m1,
                Ok(v) => exists|m2: ConfiguredCore, d: Result<(u32, u32)>|
                    #[trigger] operator::ea_ay_ai_16_rel(m1, m2, d) && match d {
                        Err(e) => r == Err::<Cycles, Exception>(e) && c1 == m2,
                        Ok((dv, ea)) => {
                            let o = common::or_16_outcome(m2, dv, v);
                            stored(o.0, c1, 16, ea, merged(dv, o.1, 16), r, 16)
                        },
                    },
            }
}

pub fn ori_16_ai(core: &mut ConfiguredCore) -> (r: Result<Cycles>)
    requires
        old(core).wf(),
    ensures
        final(core).wf(),
        ori_16_ai_effect(*old(core), *final(core), r),
{
    let ghost c0 = *core;
    let src = operator::imm_16(core);
    let ghost m1 = *core;
    assert(operator::imm_16_rel(c0, m1, src));
    let v = match src {
        Err(e) => {
            return Err(e);
        },
        Ok(v) => v,
    };
    let d = operator::ea_ay_ai_16(core);
    let ghost m2 = *core;
    assert(operator::ea_ay_ai_16_rel(m1, m2, d));
    let (dv, ea) = match d {
        Err(e) => {
            return Err(e);
        },
        Ok(p) => p,
    };
    let res = common::or_16(core, dv, v);
    store(core, 16, ea, merge(dv, res, 16), 16)
}

/// What `ori_16_pi` does: the core goes from `c0` to `c1` and `r` comes back.
pub open spec fn ori_16_pi_effect(c0: ConfiguredCore, c1: ConfiguredCore, r: Result<Cycles>) -> bool {
    &&& exists|m1: ConfiguredCore, src: Result<u32>|
            #[trigger] operator::imm_16_rel(c0, m1, src) && match src {
                Err(e) => r == Err::<Cycles, Exception>(e) && c1 == m1,
                Ok(v) => exists|m2: ConfiguredCore, d: Result<(u32, u32)>|
                    #[trigger] operator::ea_ay_pi_16_rel(m1, m2, d) && match d {
                        Err(e) => r == Err::<Cycles, Exception>(e) && c1 == m2,
                        Ok((dv, ea)) => {
                            let o = common::or_16_outcome(m2, dv, v);
                            stored(o.0, c1, 16, ea, merged(dv, o.1, 16), r, 16)
                        },
                    },
            }
}

pub fn ori_16_pi(core: &mut ConfiguredCore) -> (r: Result<Cycles>)
    requires
        old(core).wf(),
    ensures
        final(core).wf(),
        ori_16_pi_effect(*old(core), *final(core), r),
{
    let ghost c0 = *core;
    let src = operator::imm_16(core);
    let ghost m1 = *core;
    assert(operator::imm_16_rel(c0, m1, src));
    let v = match src {
        Err(e) => {
            return Err(e);
        },
        Ok(v) => v,
    };
    let d = operator::ea_ay_pi_16(core);
    let ghost m2 = *core;
    assert(operator::ea_ay_pi_16_rel(m1, m2, d));
    let (dv, ea) = match d {
        Err(e) => {
            return Err(e);
        },
        Ok(p) => p,
    };
    let res = common::or_16(core, dv, v);
    store(core, 16, ea, merge(dv, res, 16), 16)
}

/// What `ori_16_pd` does: the core goes from `c0` to `c1` and `r` comes back.
pub open spec fn ori_16_pd_effect(c0: ConfiguredCore, c1: ConfiguredCore, r: Result<Cycles>) -> bool {
    &&& exists|m1: ConfiguredCore, src: Result<u32>|
            #[trigger] operator::imm_16_rel(c0, m1, src) && match src {
                Err(e) => r == Err::<Cycles, Exception>(e) && c1 == m1,
                Ok(v) => exists|m2: ConfiguredCore, d: Result<(u32, u32)>|
                    #[trigger] operator::ea_ay_pd_16_rel(m1, m2, d) && match d {
                        Err(e) => r == Err::<Cycles, Exception>(e) && c1 == m2,
                        Ok((dv, ea)) => {
                            let o = common::or_16_outcome(m2, dv, v);
                            stored(o.0, c1, 16, ea, merged(dv, o.1, 16), r, 18)
                        },
                    },
            }
}

pub fn ori_16_pd(core: &mut ConfiguredCore) -> (r: Result<Cycles>)
    requires
        old(core).wf(),
    ensures
        final(core).wf(),
        ori_16_pd_effect(*old(core), *final(core), r),
{
    let ghost c0 = *core;
    let src = operator::imm_16(core);
    let ghost m1 = *core;
    assert(operator::imm_16_rel(c0, m1, src));
    let v = match src {
        Err(e) => {
            return Err(e);
        },
        Ok(v) => v,
    };
    let d = operator::ea_ay_pd_16(core);
    let ghost m2 = *core;
    assert(operator::ea_ay_pd_16_rel(m1, m2, d));
    let (dv, ea) = match d {
        Err(e) => {
            return Err(e);
        },
        Ok(p) => p,
    };
    let res = common::or_16(core, dv, v);
    store(core, 16, ea, merge(dv, res, 16), 18)
}

/// What `ori_16_di` does: the core goes from `c0` to `c1` and `r` comes back.
pub open spec fn ori_16_di_effect(c0: ConfiguredCore, c1: ConfiguredCore, r: Result<Cycles>) -> bool {
    &&& exists|m1: ConfiguredCore, src: Result<u32>|
            #[trigger] operator::imm_16_rel(c0, m1, src) && match src {
                Err(e) => r == Err::<Cycles, Exception>(e) && c1 == m1,
                Ok(v) => exists|m2: ConfiguredCore, d: Result<(u32, u32)>|
                    #[trigger] operator::ea_ay_di_16_rel(m1, m2, d) && match d {
                        Err(e) => r == Err::<Cycles, Exception>(e) && c1 == m2,
                        Ok((dv, ea)) => {
                            let o = common::or_16_outcome(m2, dv, v);
                            stored(o.0, c1, 16, ea, merged(dv, o.1, 16), r, 20)
                        },
                    },
            }
}

pub fn ori_16_di(core: &mut ConfiguredCore) -> (r: Result<Cycles>)
    requires
        old(core).wf(),
    ensures
        final(core).wf(),
        ori_16_di_effect(*old(core), *final(core), r),
{
    let ghost c0 = *core;
    let src = operator::imm_16(core);
    let ghost m1 = *core;
    assert(operator::imm_16_rel(c0, m1, src));
    let v = match src {
        Err(e) => {
            return Err(e);
        },
        Ok(v) => v,
    };
    let d = operator::ea_ay_di_16(core);
    let ghost m2 = *core;
    assert(operator::ea_ay_di_16_rel(m1, m2, d));
    let (dv, ea) = match d {
        Err(e) => {
            return Err(e);
        },
        Ok(p) => p,
    };
    let res = common::or_16(core, dv, v);
    store(core, 16, ea, merge(dv, res, 16), 20)
}

/// What `ori_16_ix` does: the core goes from `c0` to `c1` and `r` comes back.
pub open spec fn ori_16_ix_effect(c0: ConfiguredCore, c1: ConfiguredCore, r: Result<Cycles>) -> bool {
    &&& exists|m1: ConfiguredCore, src: Result<u32>|
            #[trigger] operator::imm_16_rel(c0, m1, src) && match src {
                Err(e) => r == Err::<Cycles, Exception>(e) && c1 == m1,
                Ok(v) => exists|m2: ConfiguredCore, d: Result<(u32, u32)>|
                    #[trigger] operator::ea_ay_ix_16_rel(m1, m2, d) && match d {
                        Err(e) => r == Err::<Cycles, Exception>(e) && c1 == m2,
                        Ok((dv, ea)) => {
                            let o = common::or_16_outcome(m2, dv, v);
                            stored(o.0, c1, 16, ea, merged(dv, o.1, 16), r, 22)
                        },
                    },
            }
}

pub fn ori_16_ix(core: &mut ConfiguredCore) -> (r: Result<Cycles>)
    requires
        old(core).wf(),
    ensures
        final(core).wf(),
        ori_16_ix_effect(*old(core), *final(core), r),
{
    let ghost c0 = *core;
    let src = operator::imm_16(core);
    let ghost m1 = *core;
    assert(operator::imm_16_rel(c0, m1, src));
    let v = match src {
        Err(e) => {
            return Err(e);
        },
        Ok(v) => v,
    };
    let d = operator::ea_ay_ix_16(core);
    let ghost m2 = *core;
    assert(operator::ea_ay_ix_16_rel(m1, m2, d));
    let (dv, ea) = match d {
        Err(e) => {
            return Err(e);
        },
        Ok(p) => p,
    };
    let res = common::or_16(core, dv, v);
    store(core, 16, ea, merge(dv, res, 16), 22)
}

/// What `ori_16_aw` does: the core goes from `c0` to `c1` and `r` comes back.
pub open spec fn ori_16_aw_effect(c0: ConfiguredCore, c1: ConfiguredCore, r: Result<Cycles>) -> bool {
    &&& exists|m1: ConfiguredCore, src: Result<u32>|
            #[trigger] operator::imm_16_rel(c0, m1, src) && match src {
                Err(e) => r == Err::<Cycles, Exception>(e) && c1 == m1,
                Ok(v) => exists|m2: ConfiguredCore, d: Result<(u32, u32)>|
                    #[trigger] operator::ea_aw_16_rel(m1, m2, d) && match d {
                        Err(e) => r == Err::<Cycles, Exception>(e) && c1 == m2,
                        Ok((dv, ea)) => {
                            let o = common::or_16_outcome(m2, dv, v);
                            stored(o.0, c1, 16, ea, merged(dv, o.1, 16), r, 20)
                        },
                    },
            }
}

pub fn ori_16_aw(core: &mut ConfiguredCore) -> (r: Result<Cycles>)
    requires
        old(core).wf(),
    ensures
        final(core).wf(),
        ori_16_aw_effect(*old(core), *final(core), r),
{
    let ghost c0 = *core;
    let src = operator::imm_16(core);
    let ghost m1 = *core;
    assert(operator::imm_16_rel(c0, m1, src));
    let v = match src {
        Err(e) => {
            return Err(e);
        },
        Ok(v) => v,
    };
    let d = operator::ea_aw_16(core);
    let ghost m2 = *core;
    assert(operator::ea_aw_16_rel(m1, m2, d));
    let (dv, ea) = match d {
        Err(e) => {
            return Err(e);
        },
        Ok(p) => p,
    };
    let res = common::or_16(core, dv, v);
    store(core, 16, ea, merge(dv, res, 16), 20)
}

/// What `ori_16_al` does: the core goes from `c0` to `c1` and `r` comes back.
pub open spec fn ori_16_al_effect(c0: ConfiguredCore, c1: ConfiguredCore, r: Result<Cycles>) -> bool {
    &&& exists|m1: ConfiguredCore, src: Result<u32>|
            #[trigger] operator::imm_16_rel(c0, m1, src) && match src {
                Err(e) => r == Err::<Cycles, Exception>(e) && c1 == m1,
                Ok(v) => exists|m2: ConfiguredCore, d: Result<(u32, u32)>|
                    #[trigger] operator::ea_al_16_rel(m1, m2, d) && match d {
                        Err(e) => r == Err::<Cycles, Exception>(e) && c1 == m2,
                        Ok((dv, ea)) => {
                            let o = common::or_16_outcome(m2, dv, v);
                            stored(o.0, c1, 16, ea, merged(dv, o.1, 16), r, 24)
                        },
                    },
            }
}

pub fn ori_16_al(core: &mut ConfiguredCore) -> (r: Result<Cycles>)
    requires
        old(core).wf(),
    ensures
        final(core).wf(),
        ori_16_al_effect(*old(core), *final(core), r),
{
    let ghost c0 = *core;
    let src = operator::imm_16(core);
    let ghost m1 = *core;
    assert(operator::imm_16_rel(c0, m1, src));
    let v = match src {
        Err(e) => {
            return Err(e);
        },
        Ok(v) => v,
    };
    let d = operator::ea_al_16(core);
    let ghost m2 = *core;
    assert(operator::ea_al_16_rel(m1, m2, d));
    let (dv, ea) = match d {
        Err(e) => {
            return Err(e);
        },
        Ok(p) => p,
    };
    let res = common::or_16(core, dv, v);
    store(core, 16, ea, merge(dv, res, 16), 24)
}

/// What `ori_32_dn` does: the core goes from `c0` to `c1` and `r` comes back.
pub open spec fn ori_32_dn_effect(c0: ConfiguredCore, c1: ConfiguredCore, r: Result<Cycles>) -> bool {
    &&& exists|mid: ConfiguredCore, src: Result<u32>|
            #[trigger] operator::imm_32_rel(c0, mid, src) && match src {
                Err(e) => r == Err::<Cycles, Exception>(e) && c1 == mid,
                Ok(v) => {
                    let reg = ir_dy(mid.ir);
                    let o = common::or_32_outcome(mid, mid.dar[reg], v);
                    &&& r == Ok::<Cycles, Exception>(Cycles(16))
                    &&& reg_set(o.0, c1, reg, merged(mid.dar[reg], o.1, 32))
                },
            }
}

pub fn ori_32_dn(core: &mut ConfiguredCore) -> (r: Result<Cycles>)
    requires
        old(core).wf(),
    ensures
        final(core).wf(),
        ori_32_dn_effect(*old(core), *final(core), r),
{
    let ghost c0 = *core;
    let src = operator::imm_32(core);
    let ghost mid = *core;
    assert(operator::imm_32_rel(c0, mid, src));
    match src {
        Err(e) => Err(e),
        Ok(v) => {
            let reg = reg_dy(core.ir);
            let dst = core.dar[reg];
            let res = common::or_32(core, dst, v);
            set_reg(core, reg, merge(dst, res, 32));
            Ok(Cycles(16))
        },
    }
}

/// What `ori_32_ai` does: the core goes from `c0` to `c1` and `r` comes back.
pub open spec fn ori_32_ai_effect(c0: ConfiguredCore, c1: ConfiguredCore, r: Result<Cycles>) -> bool {
    &&& exists|m1: ConfiguredCore, src: Result<u32>|
            #[trigger] operator::imm_32_rel(c0, m1, src) && match src {
                Err(e) => r == Err::<Cycles, Exception>(e) && c1 == m1,
                Ok(v) => exists|m2: ConfiguredCore, d: Result<(u32, u32)>|
                    #[trigger] operator::ea_ay_ai_32_rel(m1, m2, d) && match d {
                        Err(e) => r == Err::<Cycles, Exception>(e) && c1 == m2,
                        Ok((dv, ea)) => {
                            let o = common::or_32_outcome(m2, dv, v);
                            stored(o.0, c1, 32, ea, merged(dv, o.1, 32), r, 28)
                        },
                    },
            }
}

pub fn ori_32_ai(core: &mut ConfiguredCore) -> (r: Result<Cycles>)
    requires
        old(core).wf(),
    ensures
        final(core).wf(),
        ori_32_ai_effect(*old(core), *final(core), r),
{
    let ghost c0 = *core;
    let src = operator::imm_32(core);
    let ghost m1 = *core;
    assert(operator::imm_32_rel(c0, m1, src));
    let v = match src {
        Err(e) => {
            return Err(e);
        },
        Ok(v) => v,
    };
    let d = operator::ea_ay_ai_32(core);
    let ghost m2 = *core;
    assert(operator::ea_ay_ai_32_rel(m1, m2, d));
    let (dv, ea) = match d {
        Err(e) => {
            return Err(e);
        },
        Ok(p) => p,
    };
    let res = common::or_32(core, dv, v);
    store(core, 32, ea, merge(dv, res, 32), 28)
}

/// What `ori_32_pi` does: the core goes from `c0` to `c1` and `r` comes back.
pub open spec fn ori_32_pi_effect(c0: ConfiguredCore, c1: ConfiguredCore, r: Result<Cycles>) -> bool {
    &&& exists|m1: ConfiguredCore, src: Result<u32>|
            #[trigger] operator::imm_32_rel(c0, m1, src) && match src {
                Err(e) => r == Err::<Cycles, Exception>(e) && c1 == m1,
                Ok(v) => exists|m2: ConfiguredCore, d: Result<(u32, u32)>|
                    #[trigger] operator::ea_ay_pi_32_rel(m1, m2, d) && match d {
                        Err(e) => r == Err::<Cycles, Exception>(e) && c1 == m2,
                        Ok((dv, ea)) => {
                            let o = common::or_32_outcome(m2, dv, v);
                            stored(o.0, c1, 32, ea, merged(dv, o.1, 32), r, 28)
                        },
                    },
            }
}

pub fn ori_32_pi(core: &mut ConfiguredCore) -> (r: Result<Cycles>)
    requires
        old(core).wf(),
    ensures
        final(core).wf(),
        ori_32_pi_effect(*old(core), *final(core), r),
{
    let ghost c0 = *core;
    let src = operator::imm_32(core);
    let ghost m1 = *core;
    assert(operator::imm_32_rel(c0, m1, src));
    let v = match src {
        Err(e) => {
            return Err(e);
        },
        Ok(v) => v,
    };
    let d = operator::ea_ay_pi_32(core);
    let ghost m2 = *core;
    assert(operator::ea_ay_pi_32_rel(m1, m2, d));
    let (dv, ea) = match d {
        Err(e) => {
            return Err(e);
        },
        Ok(p) => p,
    };
    let res = common::or_32(core, dv, v);
    store(core, 32, ea, merge(dv, res, 32), 28)
}

/// What `ori_32_pd` does: the core goes from `c0` to `c1` and `r` comes back.
pub open spec fn ori_32_pd_effect(c0: ConfiguredCore, c1: ConfiguredCore, r: Result<Cycles>) -> bool {
    &&& exists|m1: ConfiguredCore, src: Result<u32>|
            #[trigger] operator::imm_32_rel(c0, m1, src) && match src {
                Err(e) => r == Err::<Cycles, Exception>(e) && c1 == m1,
                Ok(v) => exists|m2: ConfiguredCore, d: Result<(u32, u32)>|
                    #[trigger] operator::ea_ay_pd_32_rel(m1, m2, d) && match d {
                        Err(e) => r == Err::<Cycles, Exception>(e) && c1 == m2,
                        Ok((dv, ea)) => {
                            let o = common::or_32_outcome(m2, dv, v);
                            stored(o.0, c1, 32, ea, merged(dv, o.1, 32), r, 30)
                        },
                    },
            }
}

pub fn ori_32_pd(core: &mut ConfiguredCore) -> (r: Result<Cycles>)
    requires
        old(core).wf(),
    ensures
        final(core).wf(),
        ori_32_pd_effect(*old(core), *final(core), r),
{
    let ghost c0 = *core;
    let src = operator::imm_32(core);
    let ghost m1 = *core;
    assert(operator::imm_32_rel(c0, m1, src));
    let v = match src {
        Err(e) => {
            return Err(e);
        },
        Ok(v) => v,
    };
    let d = operator::ea_ay_pd_32(core);
    let ghost m2 = *core;
    assert(operator::ea_ay_pd_32_rel(m1, m2, d));
    let (dv, ea) = match d {
        Err(e) => {
            return Err(e);
        },
        Ok(p) => p,
    };
    let res = common::or_32(core, dv, v);
    store(core, 32, ea, merge(dv, res, 32), 30)
}

/// What `ori_32_di` does: the core goes from `c0` to `c1` and `r` comes back.
pub open spec fn ori_32_di_effect(c0: ConfiguredCore, c1: ConfiguredCore, r: Result<Cycles>) -> bool {
    &&& exists|m1: ConfiguredCore, src: Result<u32>|
            #[trigger] operator::imm_32_rel(c0, m1, src) && match src {
                Err(e) => r == Err::<Cycles, Exception>(e) && c1 == m1,
                Ok(v) => exists|m2: ConfiguredCore, d: Result<(u32, u32)>|
                    #[trigger] operator::ea_ay_di_32_rel(m1, m2, d) && match d {
                        Err(e) => r == Err::<Cycles, Exception>(e) && c1 == m2,
                        Ok((dv, ea)) => {
                            let o = common::or_32_outcome(m2, dv, v);
                            stored(o.0, c1, 32, ea, merged(dv, o.1, 32), r, 32)
                        },
                    },
            }
}

pub fn ori_32_di(core: &mut ConfiguredCore) -> (r: Result<Cycles>)
    requires
        old(core).wf(),
    ensures
        final(core).wf(),
        ori_32_di_effect(*old(core), *final(core), r),
{
    let ghost c0 = *core;
    let src = operator::imm_32(core);
    let ghost m1 = *core;
    assert(operator::imm_32_rel(c0, m1, src));
    let v = match src {
        Err(e) => {
            return Err(e);
        },
        Ok(v) => v,
    };
    let d = operator::ea_ay_di_32(core);
    let ghost m2 = *core;
    assert(operator::ea_ay_di_32_rel(m1, m2, d));
    let (dv, ea) = match d {
        Err(e) => {
            return Err(e);
        },
        Ok(p) => p,
    };
    let res = common::or_32(core, dv, v);
    store(core, 32, ea, merge(dv, res, 32), 32)
}

/// What `ori_32_ix` does: the core goes from `c0` to `c1` and `r` comes back.
pub open spec fn ori_32_ix_effect(c0: ConfiguredCore, c1: ConfiguredCore, r: Result<Cycles>) -> bool {
    &&& exists|m1: ConfiguredCore, src: Result<u32>|
            #[trigger] operator::imm_32_rel(c0, m1, src) && match src {
                Err(e) => r == Err::<Cycles, Exception>(e) && c1 == m1,
                Ok(v) => exists|m2: ConfiguredCore, d: Result<(u32, u32)>|
                    #[trigger] operator::ea_ay_ix_32_rel(m1, m2, d) && match d {
                        Err(e) => r == Err::<Cycles, Exception>(e) && c1 == m2,
                        Ok((dv, ea)) => {
                            let o = common::or_32_outcome(m2, dv, v);
                            stored(o.0, c1, 32, ea, merged(dv, o.1, 32), r, 34)
                        },
                    },
            }
}

pub fn ori_32_ix(core: &mut ConfiguredCore) -> (r: Result<Cycles>)
    requires
        old(core).wf(),
    ensures
        final(core).wf(),
        ori_32_ix_effect(*old(core), *final(core), r),
{
    let ghost c0 = *core;
    let src = operator::imm_32(core);
    let ghost m1 = *core;
    assert(operator::imm_32_rel(c0, m1, src));
    let v = match src {
        Err(e) => {
            return Err(e);
        },
        Ok(v) => v,
    };
    let d = operator::ea_ay_ix_32(core);
    let ghost m2 = *core;
    assert(operator::ea_ay_ix_32_rel(m1, m2, d));
    let (dv, ea) = match d {
        Err(e) => {
            return Err(e);
        },
        Ok(p) => p,
    };
    let res = common::or_32(core, dv, v);
    store(core, 32, ea, merge(dv, res, 32), 34)
}

/// What `ori_32_aw` does: the core goes from `c0` to `c1` and `r` comes back.
pub open spec fn ori_32_aw_effect(c0: ConfiguredCore, c1: ConfiguredCore, r: Result<Cycles>) -> bool {
    &&& exists|m1: ConfiguredCore, src: Result<u32>|
            #[trigger] operator::imm_32_rel(c0, m1, src) && match src {
                Err(e) => r == Err::<Cycles, Exception>(e) && c1 == m1,
                Ok(v) => exists|m2: ConfiguredCore, d: Result<(u32, u32)>|
                    #[trigger] operator::ea_aw_32_rel(m1, m2, d) && match d {
                        Err(e) => r == Err::<Cycles, Exception>(e) && c1 == m2,
                        Ok((dv, ea)) => {
                            let o = common::or_32_outcome(m2, dv, v);
                            stored(o.0, c1, 32, ea, merged(dv, o.1, 32), r, 32)
                        },
                    },
            }
}

pub fn ori_32_aw(core: &mut ConfiguredCore) -> (r: Result<Cycles>)
    requires
        old(core).wf(),
    ensures
        final(core).wf(),
        ori_32_aw_effect(*old(core), *final(core), r),
{
    let ghost c0 = *core;
    let src = operator::imm_32(core);
    let ghost m1 = *core;
    assert(operator::imm_32_rel(c0, m1, src));
    let v = match src {
        Err(e) => {
            return Err(e);
        },
        Ok(v) => v,
    };
    let d = operator::ea_aw_32(core);
    let ghost m2 = *core;
    assert(operator::ea_aw_32_rel(m1, m2, d));
    let (dv, ea) = match d {
        Err(e) => {
            return Err(e);
        },
        Ok(p) => p,
    };
    let res = common::or_32(core, dv, v);
    store(core, 32, ea, merge(dv, res, 32), 32)
}

/// What `ori_32_al` does: the core goes from `c0` to `c1` and `r` comes back.
pub open spec fn ori_32_al_effect(c0: ConfiguredCore, c1: ConfiguredCore, r: Result<Cycles>) -> bool {
    &&& exists|m1: ConfiguredCore, src: Result<u32>|
            #[trigger] operator::imm_32_rel(c0, m1, src) && match src {
                Err(e) => r == Err::<Cycles, Exception>(e) && c1 == m1,
                Ok(v) => exists|m2: ConfiguredCore, d: Result<(u32, u32)>|
                    #[trigger] operator::ea_al_32_rel(m1, m2, d) && match d {
                        Err(e) => r == Err::<Cycles, Exception>(e) && c1 == m2,
                        Ok((dv, ea)) => {
                            let o = common::or_32_outcome(m2, dv, v);
                            stored(o.0, c1, 32, ea, merged(dv, o.1, 32), r, 36)
                        },
                    },
            }
}

pub fn ori_32_al(core: &mut ConfiguredCore) -> (r: Result<Cycles>)
    requires
        old(core).wf(),
    ensures
        final(core).wf(),
        ori_32_al_effect(*old(core), *final(core), r),
{
    let ghost c0 = *core;
    let src = operator::imm_32(core);
    let ghost m1 = *core;
    assert(operator::imm_32_rel(c0, m1, src));
    let v = match src {
        Err(e) => {
            return Err(e);
        },
        Ok(v) => v,
    };
    let d = operator::ea_al_32(core);
    let ghost m2 = *core;
    assert(operator::ea_al_32_rel(m1, m2, d));
    let (dv, ea) = match d {
        Err(e) => {
            return Err(e);
        },
        Ok(p) => p,
    };
    let res = common::or_32(core, dv, v);
    store(core, 32, ea, merge(dv, res, 32), 36)
}

/// What `sub_8_er_dn` does: the core goes from `c0` to `c1` and `r` comes back.
pub open spec fn sub_8_er_dn_effect(c0: ConfiguredCore, c1: ConfiguredCore, r: Result<Cycles>) -> bool {
    &&& exists|mid: ConfiguredCore, src: Result<u32>|
            #[trigger] operator::dy_rel(c0, mid, src) && match src {
                Err(e) => r == Err::<Cycles, Exception>(e) && c1 == mid,
                Ok(v) => {
                    let reg = ir_dx(mid.ir);
                    let o = common::sub_8_outcome(mid, mid.dar[reg], v);
                    &&& r == Ok::<Cycles, Exception>(Cycles(4))
                    &&& reg_set(o.0, c1, reg, merged(mid.dar[reg], o.1, 8))
                },
            }
}

pub fn sub_8_er_dn(core: &mut ConfiguredCore) -> (r: Result<Cycles>)
    requires
        old(core).wf(),
    ensures
        final(core).wf(),
        sub_8_er_dn_effect(*old(core), *final(core), r),
{
    let ghost c0 = *core;
    let src = operator::dy(core);
    let ghost mid = *core;
    assert(operator::dy_rel(c0, mid, src));
    match src {
        Err(e) => Err(e),
        Ok(v) => {
            let reg = reg_dx(core.ir);
            let dst = core.dar[reg];
            let res = common::sub_8(core, dst, v);
            set_reg(core, reg, merge(dst, res, 8));
            Ok(Cycles(4))
        },
    }
}

/// What `sub_8_er_ai` does: the core goes from `c0` to `c1` and `r` comes back.
pub open spec fn sub_8_er_ai_effect(c0: ConfiguredCore, c1: ConfiguredCore, r: Result<Cycles>) -> bool {
    &&& exists|mid: ConfiguredCore, src: Result<u32>|
            #[trigger] operator::ay_ai_8_rel(c0, mid, src) && match src {
                Err(e) => r == Err::<Cycles, Exception>(e) && c1 == mid,
                Ok(v) => {
                    let reg = ir_dx(mid.ir);
                    let o = common::sub_8_outcome(mid, mid.dar[reg], v);
                    &&& r == Ok::<Cycles, Exception>(Cycles(8))
                    &&& reg_set(o.0, c1, reg, merged(mid.dar[reg], o.1, 8))
                },
            }
}

pub fn sub_8_er_ai(core: &mut ConfiguredCore) -> (r: Result<Cycles>)
    requires
        old(core).wf(),
    ensures
        final(core).wf(),
        sub_8_er_ai_effect(*old(core), *final(core), r),
{
    let ghost c0 = *core;
    let src = operator::ay_ai_8(core);
    let ghost mid = *core;
    assert(operator::ay_ai_8_rel(c0, mid, src));
    match src {
        Err(e) => Err(e),
        Ok(v) => {
            let reg = reg_dx(core.ir);
            let dst = core.dar[reg];
            let res = common::sub_8(core, dst, v);
            set_reg(core, reg, merge(dst, res, 8));
            Ok(Cycles(8))
        },
    }
}

/// What `sub_8_er_pi` does: the core goes from `c0` to `c1` and `r` comes back.
pub open spec fn sub_8_er_pi_effect(c0: ConfiguredCore, c1: ConfiguredCore, r: Result<Cycles>) -> bool {
    &&& exists|mid: ConfiguredCore, src: Result<u32>|
            #[trigger] operator::ay_pi_8_rel(c0, mid, src) && match src {
                Err(e) => r == Err::<Cycles, Exception>(e) && c1 == mid,
                Ok(v) => {
                    let reg = ir_dx(mid.ir);
                    let o = common::sub_8_outcome(mid, mid.dar[reg], v);
                    &&& r == Ok::<Cycles, Exception>(Cycles(8))
                    &&& reg_set(o.0, c1, reg, merged(mid.dar[reg], o.1, 8))
                },
            }
}

pub fn sub_8_er_pi(core: &mut ConfiguredCore) -> (r: Result<Cycles>)
    requires
        old(core).wf(),
    ensures
        final(core).wf(),
        sub_8_er_pi_effect(*old(core), *final(core), r),
{
    let ghost c0 = *core;
    let src = operator::ay_pi_8(core);
    let ghost mid = *core;
    assert(operator::ay_pi_8_rel(c0, mid, src));
    match src {
        Err(e) => Err(e),
        Ok(v) => {
            let reg = reg_dx(core.ir);
            let dst = core.dar[reg];
            let res = common::sub_8(core, dst, v);
            set_reg(core, reg, merge(dst, res, 8));
            Ok(Cycles(8))
        },
    }
}

/// What `sub_8_er_pd` does: the core goes from `c0` to `c1` and `r` comes back.
pub open spec fn sub_8_er_pd_effect(c0: ConfiguredCore, c1: ConfiguredCore, r: Result<Cycles>) -> bool {
    &&& exists|mid: ConfiguredCore, src: Result<u32>|
            #[trigger] operator::ay_pd_8_rel(c0, mid, src) && match src {
                Err(e) => r == Err::<Cycles, Exception>(e) && c1 == mid,
                Ok(v) => {
                    let reg = ir_dx(mid.ir);
                    let o = common::sub_8_outcome(mid, mid.dar[reg], v);
                    &&& r == Ok::<Cycles, Exception>(Cycles(10))
                    &&& reg_set(o.0, c1, reg, merged(mid.dar[reg], o.1, 8))
                },
            }
}

pub fn sub_8_er_pd(core: &mut ConfiguredCore) -> (r: Result<Cycles>)
    requires
        old(core).wf(),
    ensures
        final(core).wf(),
        sub_8_er_pd_effect(*old(core), *final(core), r),
{
    let ghost c0 = *core;
    let src = operator::ay_pd_8(core);
    let ghost mid = *core;
    assert(operator::ay_pd_8_rel(c0, mid, src));
    match src {
        Err(e) => Err(e),
        Ok(v) => {
            let reg = reg_dx(core.ir);
            let dst = core.dar[reg];
            let res = common::sub_8(core, dst, v);
            set_reg(core, reg, merge(dst, res, 8));
            Ok(Cycles(10))
        },
    }
}

/// What `sub_8_er_di` does: the core goes from `c0` to `c1` and `r` comes back.
pub open spec fn sub_8_er_di_effect(c0: ConfiguredCore, c1: ConfiguredCore, r: Result<Cycles>) -> bool {
    &&& exists|mid: ConfiguredCore, src: Result<u32>|
            #[trigger] operator::ay_di_8_rel(c0, mid, src) && match src {
                Err(e) => r == Err::<Cycles, Exception>(e) && c1 == mid,
                Ok(v) => {
                    let reg = ir_dx(mid.ir);
                    let o = common::sub_8_outcome(mid, mid.dar[reg], v);
                    &&& r == Ok::<Cycles, Exception>(Cycles(12))
                    &&& reg_set(o.0, c1, reg, merged(mid.dar[reg], o.1, 8))
                },
            }
}

pub fn sub_8_er_di(core: &mut ConfiguredCore) -> (r: Result<Cycles>)
    requires
        old(core).wf(),
    ensures
        final(core).wf(),
        sub_8_er_di_effect(*old(core), *final(core), r),
{
    let ghost c0 = *core;
    let src = operator::ay_di_8(core);
    let ghost mid = *core;
    assert(operator::ay_di_8_rel(c0, mid, src));
    match src {
        Err(e) => Err(e),
        Ok(v) => {
            let reg = reg_dx(core.ir);
            let dst = core.dar[reg];
            let res = common::sub_8(core, dst, v);
            set_reg(core, reg, merge(dst, res, 8));
            Ok(Cycles(12))
        },
    }
}

/// What `sub_8_er_ix` does: the core goes from `c0` to `c1` and `r` comes back.
pub open spec fn sub_8_er_ix_effect(c0: ConfiguredCore, c1: ConfiguredCore, r: Result<Cycles>) -> bool {
    &&& exists|mid: ConfiguredCore, src: Result<u32>|
            #[trigger] operator::ay_ix_8_rel(c0, mid, src) && match src {
                Err(e) => r == Err::<Cycles, Exception>(e) && c1 == mid,
                Ok(v) => {
                    let reg = ir_dx(mid.ir);
                    let o = common::sub_8_outcome(mid, mid.dar[reg], v);
                    &&& r == Ok::<Cycles, Exception>(Cycles(14))
                    &&& reg_set(o.0, c1, reg, merged(mid.dar[reg], o.1, 8))
                },
            }
}

pub fn sub_8_er_ix(core: &mut ConfiguredCore) -> (r: Result<Cycles>)
    requires
        old(core).wf(),
    ensures
        final(core).wf(),
        sub_8_er_ix_effect(*old(core), *final(core), r),
{
    let ghost c0 = *core;
    let src = operator::ay_ix_8(core);
    let ghost mid = *core;
    assert(operator::ay_ix_8_rel(c0, mid, src));
    match src {
        Err(e) => Err(e),
        Ok(v) => {
            let reg = reg_dx(core.ir);
            let dst = core.dar[reg];
            let res = common::sub_8(core, dst, v);
            set_reg(core, reg, merge(dst, res, 8));
            Ok(Cycles(14))
        },
    }
}

/// What `sub_8_er_aw` does: the core goes from `c0` to `c1` and `r` comes back.
pub open spec fn sub_8_er_aw_effect(c0: ConfiguredCore, c1: ConfiguredCore, r: Result<Cycles>) -> bool {
    &&& exists|mid: ConfiguredCore, src: Result<u32>|
            #[trigger] operator::aw_8_rel(c0, mid, src) && match src {
                Err(e) => r == Err::<Cycles, Exception>(e) && c1 == mid,
                Ok(v) => {
                    let reg = ir_dx(mid.ir);
                    let o = common::sub_8_outcome(mid, mid.dar[reg], v);
                    &&& r == Ok::<Cycles, Exception>(Cycles(12))
                    &&& reg_set(o.0, c1, reg, merged(mid.dar[reg], o.1, 8))
                },
            }
}

pub fn sub_8_er_aw(core: &mut ConfiguredCore) -> (r: Result<Cycles>)
    requires
        old(core).wf(),
    ensures
        final(core).wf(),
        sub_8_er_aw_effect(*old(core), *final(core), r),
{
    let ghost c0 = *core;
    let src = operator::aw_8(core);
    let ghost mid = *core;
    assert(operator::aw_8_rel(c0, mid, src));
    match src {
        Err(e) => Err(e),
        Ok(v) => {
            let reg = reg_dx(core.ir);
            let dst = core.dar[reg];
            let res = common::sub_8(core, dst, v);
            set_reg(core, reg, merge(dst, res, 8));
            Ok(Cycles(12))
        },
    }
}

/// What `sub_8_er_al` does: the core goes from `c0` to `c1` and `r` comes back.
pub open spec fn sub_8_er_al_effect(c0: ConfiguredCore, c1: ConfiguredCore, r: Result<Cycles>) -> bool {
    &&& exists|mid: ConfiguredCore, src: Result<u32>|
            #[trigger] operator::al_8_rel(c0, mid, src) && match src {
                Err(e) => r == Err::<Cycles, Exception>(e) && c1 == mid,
                Ok(v) => {
                    let reg = ir_dx(mid.ir);
                    let o = common::sub_8_outcome(mid, mid.dar[reg], v);
                    &&& r == Ok::<Cycles, Exception>(Cycles(16))
                    &&& reg_set(o.0, c1, reg, merged(mid.dar[reg], o.1, 8))
                },
            }
}

pub fn sub_8_er_al(core: &mut ConfiguredCore) -> (r: Result<Cycles>)
    requires
        old(core).wf(),
    ensures
        final(core).wf(),
        sub_8_er_al_effect(*old(core), *final(core), r),
{
    let ghost c0 = *core;
    let src = operator::al_8(core);
    let ghost mid = *core;
    assert(operator::al_8_rel(c0, mid, src));
    match src {
        Err(e) => Err(e),
        Ok(v) => {
            let reg = reg_dx(core.ir);
            let dst = core.dar[reg];
            let res = common::sub_8(core, dst, v);
            set_reg(core, reg, merge(dst, res, 8));
            Ok(Cycles(16))
        },
    }
}

/// What `sub_8_er_pcdi` does: the core goes from `c0` to `c1` and `r` comes back.
pub open spec fn sub_8_er_pcdi_effect(c0: ConfiguredCore, c1: ConfiguredCore, r: Result<Cycles>) -> bool {
    &&& exists|mid: ConfiguredCore, src: Result<u32>|
            #[trigger] operator::pcdi_8_rel(c0, mid, src) && match src {
                Err(e) => r == Err::<Cycles, Exception>(e) && c1 == mid,
                Ok(v) => {
                    let reg = ir_dx(mid.ir);
                    let o = common::sub_8_outcome(mid, mid.dar[reg], v);
                    &&& r == Ok::<Cycles, Exception>(Cycles(12))
                    &&& reg_set(o.0, c1, reg, merged(mid.dar[reg], o.1, 8))
                },
            }
}

pub fn sub_8_er_pcdi(core: &mut ConfiguredCore) -> (r: Result<Cycles>)
    requires
        old(core).wf(),
    ensures
        final(core).wf(),
        sub_8_er_pcdi_effect(*old(core), *final(core), r),
{
    let ghost c0 = *core;
    let src = operator::pcdi_8(core);
    let ghost mid = *core;
    assert(operator::pcdi_8_rel(c0, mid, src));
    match src {
        Err(e) => Err(e),
        Ok(v) => {
            let reg = reg_dx(core.ir);
            let dst = core.dar[reg];
            let res = common::sub_8(core, dst, v);
            set_reg(core, reg, merge(dst, res, 8));
            Ok(Cycles(12))
        },
    }
}

/// What `sub_8_er_pcix` does: the core goes from `c0` to `c1` and `r` comes back.
pub open spec fn sub_8_er_pcix_effect(c0: ConfiguredCore, c1: ConfiguredCore, r: Result<Cycles>) -> bool {
    &&& exists|mid: ConfiguredCore, src: Result<u32>|
            #[trigger] operator::pcix_8_rel(c0, mid, src) && match src {
                Err(e) => r == Err::<Cycles, Exception>(e) && c1 == mid,
                Ok(v) => {
                    let reg = ir_dx(mid.ir);
                    let o = common::sub_8_outcome(mid, mid.dar[reg], v);
                    &&& r == Ok::<Cycles, Exception>(Cycles(14))
                    &&& reg_set(o.0, c1, reg, merged(mid.dar[reg], o.1, 8))
                },
            }
}

pub fn sub_8_er_pcix(core: &mut ConfiguredCore) -> (r: Result<Cycles>)
    requires
        old(core).wf(),
    ensures
        final(core).wf(),
        sub_8_er_pcix_effect(*old(core), *final(core), r),
{
    let ghost c0 = *core;
    let src = operator::pcix_8(core);
    let ghost mid = *core;
    assert(operator::pcix_8_rel(c0, mid, src));
    match src {
        Err(e) => Err(e),
        Ok(v) => {
            let reg = reg_dx(core.ir);
            let dst = core.dar[reg];
            let res = common::sub_8(core, dst, v);
            set_reg(core, reg, merge(dst, res, 8));
            Ok(Cycles(14))
        },
    }
}

/// What `sub_8_er_imm` does: the core goes from `c0` to `c1` and `r` comes back.
pub open spec fn sub_8_er_imm_effect(c0: ConfiguredCore, c1: ConfiguredCore, r: Result<Cycles>) -> bool {
    &&& exists|mid: ConfiguredCore, src: Result<u32>|
            #[trigger] operator::imm_8_rel(c0, mid, src) && match src {
                Err(e) => r == Err::<Cycles, Exception>(e) && c1 == mid,
                Ok(v) => {
                    let reg = ir_dx(mid.ir);
                    let o = common::sub_8_outcome(mid, mid.dar[reg], v);
                    &&& r == Ok::<Cycles, Exception>(Cycles(10))
                    &&& reg_set(o.0, c1, reg, merged(mid.dar[reg], o.1, 8))
                },
            }
}

pub fn sub_8_er_imm(core: &mut ConfiguredCore) -> (r: Result<Cycles>)
    requires
        old(core).wf(),
    ensures
        final(core).wf(),
        sub_8_er_imm_effect(*old(core), *final(core), r),
{
    let ghost c0 = *core;
    let src = operator::imm_8(core);
    let ghost mid = *core;
    assert(operator::imm_8_rel(c0, mid, src));
    match src {
        Err(e) => Err(e),
        Ok(v) => {
            let reg = reg_dx(core.ir);
            let dst = core.dar[reg];
            let res = common::sub_8(core, dst, v);
            set_reg(core, reg, merge(dst, res, 8));
            Ok(Cycles(10))
        },
    }
}

/// What `sub_8_re_ai` does: the core goes from `c0` to `c1` and `r` comes back.
pub open spec fn sub_8_re_ai_effect(c0: ConfiguredCore, c1: ConfiguredCore, r: Result<Cycles>) -> bool {
    &&& exists|m1: ConfiguredCore, src: Result<u32>|
            #[trigger] operator::dx_rel(c0, m1, src) && match src {
                Err(e) => r == Err::<Cycles, Exception>(e) && c1 == m1,
                Ok(v) => exists|m2: ConfiguredCore, d: Result<(u32, u32)>|
                    #[trigger] operator::ea_ay_ai_8_rel(m1, m2, d) && match d {
                        Err(e) => r == Err::<Cycles, Exception>(e) && c1 == m2,
                        Ok((dv, ea)) => {
                            let o = common::sub_8_outcome(m2, dv, v);
                            stored(o.0, c1, 8, ea, merged(dv, o.1, 8), r, 12)
                        },
                    },
            }
}

pub fn sub_8_re_ai(core: &mut ConfiguredCore) -> (r: Result<Cycles>)
    requires
        old(core).wf(),
    ensures
        final(core).wf(),
        sub_8_re_ai_effect(*old(core), *final(core), r),
{
    let ghost c0 = *core;
    let src = operator::dx(core);
    let ghost m1 = *core;
    assert(operator::dx_rel(c0, m1, src));
    let v = match src {
        Err(e) => {
            return Err(e);
        },
        Ok(v) => v,
    };
    let d = operator::ea_ay_ai_8(core);
    let ghost m2 = *core;
    assert(operator::ea_ay_ai_8_rel(m1, m2, d));
    let (dv, ea) = match d {
        Err(e) => {
            return Err(e);
        },
        Ok(p) => p,
    };
    let res = common::sub_8(core, dv, v);
    store(core, 8, ea, merge(dv, res, 8), 12)
}

/// What `sub_8_re_pi` does: the core goes from `c0` to `c1` and `r` comes back.
pub open spec fn sub_8_re_pi_effect(c0: ConfiguredCore, c1: ConfiguredCore, r: Result<Cycles>) -> bool {
    &&& exists|m1: ConfiguredCore, src: Result<u32>|
            #[trigger] operator::dx_rel(c0, m1, src) && match src {
                Err(e) => r == Err::<Cycles, Exception>(e) && c1 == m1,
                Ok(v) => exists|m2: ConfiguredCore, d: Result<(u32, u32)>|
                    #[trigger] operator::ea_ay_pi_8_rel(m1, m2, d) && match d {
                        Err(e) => r == Err::<Cycles, Exception>(e) && c1 == m2,
                        Ok((dv, ea)) => {
                            let o = common::sub_8_outcome(m2, dv, v);
                            stored(o.0, c1, 8, ea, merged(dv, o.1, 8), r, 12)
                        },
                    },
            }
}

pub fn sub_8_re_pi(core: &mut ConfiguredCore) -> (r: Result<Cycles>)
    requires
        old(core).wf(),
    ensures
        final(core).wf(),
        sub_8_re_pi_effect(*old(core), *final(core), r),
{
    let ghost c0 = *core;
    let src = operator::dx(core);
    let ghost m1 = *core;
    assert(operator::dx_rel(c0, m1, src));
    let v = match src {
        Err(e) => {
            return Err(e);
        },
        Ok(v) => v,
    };
    let d = operator::ea_ay_pi_8(core);
    let ghost m2 = *core;
    assert(operator::ea_ay_pi_8_rel(m1, m2, d));
    let (dv, ea) = match d {
        Err(e) => {
            return Err(e);
        },
        Ok(p) => p,
    };
    let res = common::sub_8(core, dv, v);
    store(core, 8, ea, merge(dv, res, 8), 12)
}

/// What `sub_8_re_pd` does: the core goes from `c0` to `c1` and `r` comes back.
pub open spec fn sub_8_re_pd_effect(c0: ConfiguredCore, c1: ConfiguredCore, r: Result<Cycles>) -> bool {
    &&& exists|m1: ConfiguredCore, src: Result<u32>|
            #[trigger] operator::dx_rel(c0, m1, src) && match src {
                Err(e) => r == Err::<Cycles, Exception>(e) && c1 == m1,
                Ok(v) => exists|m2: ConfiguredCore, d: Result<(u32, u32)>|
                    #[trigger] operator::ea_ay_pd_8_rel(m1, m2, d) && match d {
                        Err(e) => r == Err::<Cycles, Exception>(e) && c1 == m2,
                        Ok((dv, ea)) => {
                            let o = common::sub_8_outcome(m2, dv, v);
                            stored(o.0, c1, 8, ea, merged(dv, o.1, 8), r, 14)
                        },
                    },
            }
}

pub fn sub_8_re_pd(core: &mut ConfiguredCore) -> (r: Result<Cycles>)
    requires
        old(core).wf(),
    ensures
        final(core).wf(),
        sub_8_re_pd_effect(*old(core), *final(core), r),
{
    let ghost c0 = *core;
    let src = operator::dx(core);
    let ghost m1 = *core;
    assert(operator::dx_rel(c0, m1, src));
    let v = match src {
        Err(e) => {
            return Err(e);
        },
        Ok(v) => v,
    };
    let d = operator::ea_ay_pd_8(core);
    let ghost m2 = *core;
    assert(operator::ea_ay_pd_8_rel(m1, m2, d));
    let (dv, ea) = match d {
        Err(e) => {
            return Err(e);
        },
        Ok(p) => p,
    };
    let res = common::sub_8(core, dv, v);
    store(core, 8, ea, merge(dv, res, 8), 14)
}

/// What `sub_8_re_di` does: the core goes from `c0` to `c1` and `r` comes back.
pub open spec fn sub_8_re_di_effect(c0: ConfiguredCore, c1: ConfiguredCore, r: Result<Cycles>) -> bool {
    &&& exists|m1: ConfiguredCore, src: Result<u32>|
            #[trigger] operator::dx_rel(c0, m1, src) && match src {
                Err(e) => r == Err::<Cycles, Exception>(e) && c1 == m1,
                Ok(v) => exists|m2: ConfiguredCore, d: Result<(u32, u32)>|
                    #[trigger] operator::ea_ay_di_8_rel(m1, m2, d) && match d {
                        Err(e) => r == Err::<Cycles, Exception>(e) && c1 == m2,
                        Ok((dv, ea)) => {
                            let o = common::sub_8_outcome(m2, dv, v);
                            stored(o.0, c1, 8, ea, merged(dv, o.1, 8), r, 16)
                        },
                    },
            }
}

pub fn sub_8_re_di(core: &mut ConfiguredCore) -> (r: Result<Cycles>)
    requires
        old(core).wf(),
    ensures
        final(core).wf(),
        sub_8_re_di_effect(*old(core), *final(core), r),
{
    let ghost c0 = *core;
    let src = operator::dx(core);
    let ghost m1 = *core;
    assert(operator::dx_rel(c0, m1, src));
    let v = match src {
        Err(e) => {
            return Err(e);
        },
        Ok(v) => v,
    };
    let d = operator::ea_ay_di_8(core);
    let ghost m2 = *core;
    assert(operator::ea_ay_di_8_rel(m1, m2, d));
    let (dv, ea) = match d {
        Err(e) => {
            return Err(e);
        },
        Ok(p) => p,
    };
    let res = common::sub_8(core, dv, v);
    store(core, 8, ea, merge(dv, res, 8), 16)
}

/// What `sub_8_re_ix` does: the core goes from `c0` to `c1` and `r` comes back.
pub open spec fn sub_8_re_ix_effect(c0: ConfiguredCore, c1: ConfiguredCore, r: Result<Cycles>) -> bool {
    &&& exists|m1: ConfiguredCore, src: Result<u32>|
            #[trigger] operator::dx_rel(c0, m1, src) && match src {
                Err(e) => r == Err::<Cycles, Exception>(e) && c1 == m1,
                Ok(v) => exists|m2: ConfiguredCore, d: Result<(u32, u32)>|
                    #[trigger] operator::ea_ay_ix_8_rel(m1, m2, d) && match d {
                        Err(e) => r == Err::<Cycles, Exception>(e) && c1 == m2,
                        Ok((dv, ea)) => {
                            let o = common::sub_8_outcome(m2, dv, v);
                            stored(o.0, c1, 8, ea, merged(dv, o.1, 8), r, 18)
                        },
                    },
            }
}

pub fn sub_8_re_ix(core: &mut ConfiguredCore) -> (r: Result<Cycles>)
    requires
        old(core).wf(),
    ensures
        final(core).wf(),
        sub_8_re_ix_effect(*old(core), *final(core), r),
{
    let ghost c0 = *core;
    let src = operator::dx(core);
    let ghost m1 = *core;
    assert(operator::dx_rel(c0, m1, src));
    let v = match src {
        Err(e) => {
            return Err(e);
        },
        Ok(v) => v,
    };
    let d = operator::ea_ay_ix_8(core);
    let ghost m2 = *core;
    assert(operator::ea_ay_ix_8_rel(m1, m2, d));
    let (dv, ea) = match d {
        Err(e) => {
            return Err(e);
        },
        Ok(p) => p,
    };
    let res = common::sub_8(core, dv, v);
    store(core, 8, ea, merge(dv, res, 8), 18)
}

/// What `sub_8_re_aw` does: the core goes from `c0` to `c1` and `r` comes back.
pub open spec fn sub_8_re_aw_effect(c0: ConfiguredCore, c1: ConfiguredCore, r: Result<Cycles>) -> bool {
    &&& exists|m1: ConfiguredCore, src: Result<u32>|
            #[trigger] operator::dx_rel(c0, m1, src) && match src {
                Err(e) => r == Err::<Cycles, Exception>(e) && c1 == m1,
                Ok(v) => exists|m2: ConfiguredCore, d: Result<(u32, u32)>|
                    #[trigger] operator::ea_aw_8_rel(m1, m2, d) && match d {
                        Err(e) => r == Err::<Cycles, Exception>(e) && c1 == m2,
                        Ok((dv, ea)) => {
                            let o = common::sub_8_outcome(m2, dv, v);
                            stored(o.0, c1, 8, ea, merged(dv, o.1, 8), r, 16)
                        },
                    },
            }
}

pub fn sub_8_re_aw(core: &mut ConfiguredCore) -> (r: Result<Cycles>)
    requires
        old(core).wf(),
    ensures
        final(core).wf(),
        sub_8_re_aw_effect(*old(core), *final(core), r),
{
    let ghost c0 = *core;
    let src = operator::dx(core);
    let ghost m1 = *core;
    assert(operator::dx_rel(c0, m1, src));
    let v = match src {
        Err(e) => {
            return Err(e);
        },
        Ok(v) => v,
    };
    let d = operator::ea_aw_8(core);
    let ghost m2 = *core;
    assert(operator::ea_aw_8_rel(m1, m2, d));
    let (dv, ea) = match d {
        Err(e) => {
            return Err(e);
        },
        Ok(p) => p,
    };
    let res = common::sub_8(core, dv, v);
    store(core, 8, ea, merge(dv, res, 8), 16)
}

/// What `sub_8_re_al` does: the core goes from `c0` to `c1` and `r` comes back.
pub open spec fn sub_8_re_al_effect(c0: ConfiguredCore, c1: ConfiguredCore, r: Result<Cycles>) -> bool {
    &&& exists|m1: ConfiguredCore, src: Result<u32>|
            #[trigger] operator::dx_rel(c0, m1, src) && match src {
                Err(e) => r == Err::<Cycles, Exception>(e) && c1 == m1,
                Ok(v) => exists|m2: ConfiguredCore, d: Result<(u32, u32)>|
                    #[trigger] operator::ea_al_8_rel(m1, m2, d) && match d {
                        Err(e) => r == Err::<Cycles, Exception>(e) && c1 == m2,
                        Ok((dv, ea)) => {
                            let o = common::sub_8_outcome(m2, dv, v);
                            stored(o.0, c1, 8, ea, merged(dv, o.1, 8), r, 20)
                        },
                    },
            }
}

pub fn sub_8_re_al(core: &mut ConfiguredCore) -> (r: Result<Cycles>)
    requires
        old(core).wf(),
    ensures
        final(core).wf(),
        sub_8_re_al_effect(*old(core), *final(core), r),
{
    let ghost c0 = *core;
    let src = operator::dx(core);
    let ghost m1 = *core;
    assert(operator::dx_rel(c0, m1, src));
    let v = match src {
        Err(e) => {
            return Err(e);
        },
        Ok(v) => v,
    };
    let d = operator::ea_al_8(core);
    let ghost m2 = *core;
    assert(operator::ea_al_8_rel(m1, m2, d));
    let (dv, ea) = match d {
        Err(e) => {
            return Err(e);
        },
        Ok(p) => p,
    };
    let res = common::sub_8(core, dv, v);
    store(core, 8, ea, merge(dv, res, 8), 20)
}

/// What `sub_16_er_dn` does: the core goes from `c0` to `c1` and `r` comes back.
pub open spec fn sub_16_er_dn_effect(c0: ConfiguredCore, c1: ConfiguredCore, r: Result<Cycles>) -> bool {
    &&& exists|mid: ConfiguredCore, src: Result<u32>|
            #[trigger] operator::dy_rel(c0, mid, src) && match src {
                Err(e) => r == Err::<Cycles, Exception>(e) && c1 == mid,
                Ok(v) => {
                    let reg = ir_dx(mid.ir);
                    let o = common::sub_16_outcome(mid, mid.dar[reg], v);
                    &&& r == Ok::<Cycles, Exception>(Cycles(4))
                    &&& reg_set(o.0, c1, reg, merged(mid.dar[reg], o.1, 16))
                },
            }
}

pub fn sub_16_er_dn(core: &mut ConfiguredCore) -> (r: Result<Cycles>)
    requires
        old(core).wf(),
    ensures
        final(core).wf(),
        sub_16_er_dn_effect(*old(core), *final(core), r),
{
    let ghost c0 = *core;
    let src = operator::dy(core);
    let ghost mid = *core;
    assert(operator::dy_rel(c0, mid, src));
    match src {
        Err(e) => Err(e),
        Ok(v) => {
            let reg = reg_dx(core.ir);
            let dst = core.dar[reg];
            let res = common::sub_16(core, dst, v);
            set_reg(core, reg, merge(dst, res, 16));
            Ok(Cycles(4))
        },
    }
}

/// What `sub_16_er_an` does: the core goes from `c0` to `c1` and `r` comes back.
pub open spec fn sub_16_er_an_effect(c0: ConfiguredCore, c1: ConfiguredCore, r: Result<Cycles>) -> bool {
    &&& exists|mid: ConfiguredCore, src: Result<u32>|
            #[trigger] operator::ay_rel(c0, mid, src) && match src {
                Err(e) => r == Err::<Cycles, Exception>(e) && c1 == mid,
                Ok(v) => {
                    let reg = ir_dx(mid.ir);
                    let o = common::sub_16_outcome(mid, mid.dar[reg], v);
                    &&& r == Ok::<Cycles, Exception>(Cycles(4))
                    &&& reg_set(o.0, c1, reg, merged(mid.dar[reg], o.1, 16))
                },
            }
}

pub fn sub_16_er_an(core: &mut ConfiguredCore) -> (r: Result<Cycles>)
    requires
        old(core).wf(),
    ensures
        final(core).wf(),
        sub_16_er_an_effect(*old(core), *final(core), r),
{
    let ghost c0 = *core;
    let src = operator::ay(core);
    let ghost mid = *core;
    assert(operator::ay_rel(c0, mid, src));
    match src {
        Err(e) => Err(e),
        Ok(v) => {
            let reg = reg_dx(core.ir);
            let dst = core.dar[reg];
            let res = common::sub_16(core, dst, v);
            set_reg(core, reg, merge(dst, res, 16));
            Ok(Cycles(4))
        },
    }
}

/// What `sub_16_er_ai` does: the core goes from `c0` to `c1` and `r` comes back.
pub open spec fn sub_16_er_ai_effect(c0: ConfiguredCore, c1: ConfiguredCore, r: Result<Cycles>) -> bool {
    &&& exists|mid: ConfiguredCore, src: Result<u32>|
            #[trigger] operator::ay_ai_16_rel(c0, mid, src) && match src {
                Err(e) => r == Err::<Cycles, Exception>(e) && c1 == mid,
                Ok(v) => {
                    let reg = ir_dx(mid.ir);
                    let o = common::sub_16_outcome(mid, mid.dar[reg], v);
                    &&& r == Ok::<Cycles, Exception>(Cycles(8))
                    &&& reg_set(o.0, c1, reg, merged(mid.dar[reg], o.1, 16))
                },
            }
}

pub fn sub_16_er_ai(core: &mut ConfiguredCore) -> (r: Result<Cycles>)
    requires
        old(core).wf(),
    ensures
        final(core).wf(),
        sub_16_er_ai_effect(*old(core), *final(core), r),
{
    let ghost c0 = *core;
    let src = operator::ay_ai_16(core);
    let ghost mid = *core;
    assert(operator::ay_ai_16_rel(c0, mid, src));
    match src {
        Err(e) => Err(e),
        Ok(v) => {
            let reg = reg_dx(core.ir);
            let dst = core.dar[reg];
            let res = common::sub_16(core, dst, v);
            set_reg(core, reg, merge(dst, res, 16));
            Ok(Cycles(8))
        },
    }
}

/// What `sub_16_er_pi` does: the core goes from `c0` to `c1` and `r` comes back.
pub open spec fn sub_16_er_pi_effect(c0: ConfiguredCore, c1: ConfiguredCore, r: Result<Cycles>) -> bool {
    &&& exists|mid: ConfiguredCore, src: Result<u32>|
            #[trigger] operator::ay_pi_16_rel(c0, mid, src) && match src {
                Err(e) => r == Err::<Cycles, Exception>(e) && c1 == mid,
                Ok(v) => {
                    let reg = ir_dx(mid.ir);
                    let o = common::sub_16_outcome(mid, mid.dar[reg], v);
                    &&& r == Ok::<Cycles, Exception>(Cycles(8))
                    &&& reg_set(o.0, c1, reg, merged(mid.dar[reg], o.1, 16))
                },
            }
}

pub fn sub_16_er_pi(core: &mut ConfiguredCore) -> (r: Result<Cycles>)
    requires
        old(core).wf(),
    ensures
        final(core).wf(),
        sub_16_er_pi_effect(*old(core), *final(core), r),
{
    let ghost c0 = *core;
    let src = operator::ay_pi_16(core);
    let ghost mid = *core;
    assert(operator::ay_pi_16_rel(c0, mid, src));
    match src {
        Err(e) => Err(e),
        Ok(v) => {
            let reg = reg_dx(core.ir);
            let dst = core.dar[reg];
            let res = common::sub_16(core, dst, v);
            set_reg(core, reg, merge(dst, res, 16));
            Ok(Cycles(8))
        },
    }
}

/// What `sub_16_er_pd` does: the core goes from `c0` to `c1` and `r` comes back.
pub open spec fn sub_16_er_pd_effect(c0: ConfiguredCore, c1: ConfiguredCore, r: Result<Cycles>) -> bool {
    &&& exists|mid: ConfiguredCore, src: Result<u32>|
            #[trigger] operator::ay_pd_16_rel(c0, mid, src) && match src {
                Err(e) => r == Err::<Cycles, Exception>(e) && c1 == mid,
                Ok(v) => {
                    let reg = ir_dx(mid.ir);
                    let o = common::sub_16_outcome(mid, mid.dar[reg], v);
                    &&& r == Ok::<Cycles, Exception>(Cycles(10))
                    &&& reg_set(o.0, c1, reg, merged(mid.dar[reg], o.1, 16))
                },
            }
}

pub fn sub_16_er_pd(core: &mut ConfiguredCore) -> (r: Result<Cycles>)
    requires
        old(core).wf(),
    ensures
        final(core).wf(),
        sub_16_er_pd_effect(*old(core), *final(core), r),
{
    let ghost c0 = *core;
    let src = operator::ay_pd_16(core);
    let ghost mid = *core;
    assert(operator::ay_pd_16_rel(c0, mid, src));
    match src {
        Err(e) => Err(e),
        Ok(v) => {
            let reg = reg_dx(core.ir);
            let dst = core.dar[reg];
            let res = common::sub_16(core, dst, v);
            set_reg(core, reg, merge(dst, res, 16));
            Ok(Cycles(10))
        },
    }
}

/// What `sub_16_er_di` does: the core goes from `c0` to `c1` and `r` comes back.
pub open spec fn sub_16_er_di_effect(c0: ConfiguredCore, c1: ConfiguredCore, r: Result<Cycles>) -> bool {
    &&& exists|mid: ConfiguredCore, src: Result<u32>|
            #[trigger] operator::ay_di_16_rel(c0, mid, src) && match src {
                Err(e) => r == Err::<Cycles, Exception>(e) && c1 == mid,
                Ok(v) => {
                    let reg = ir_dx(mid.ir);
                    let o = common::sub_16_outcome(mid, mid.dar[reg], v);
                    &&& r == Ok::<Cycles, Exception>(Cycles(12))
                    &&& reg_set(o.0, c1, reg, merged(mid.dar[reg], o.1, 16))
                },
            }
}

pub fn sub_16_er_di(core: &mut ConfiguredCore) -> (r: Result<Cycles>)
    requires
        old(core).wf(),
    ensures
        final(core).wf(),
        sub_16_er_di_effect(*old(core), *final(core), r),
{
    let ghost c0 = *core;
    let src = operator::ay_di_16(core);
    let ghost mid = *core;
    assert(operator::ay_di_16_rel(c0, mid, src));
    match src {
        Err(e) => Err(e),
        Ok(v) => {
            let reg = reg_dx(core.ir);
            let dst = core.dar[reg];
            let res = common::sub_16(core, dst, v);
            set_reg(core, reg, merge(dst, res, 16));
            Ok(Cycles(12))
        },
    }
}

/// What `sub_16_er_ix` does: the core goes from `c0` to `c1` and `r` comes back.
pub open spec fn sub_16_er_ix_effect(c0: ConfiguredCore, c1: ConfiguredCore, r: Result<Cycles>) -> bool {
    &&& exists|mid: ConfiguredCore, src: Result<u32>|
            #[trigger] operator::ay_ix_16_rel(c0, mid, src) && match src {
                Err(e) => r == Err::<Cycles, Exception>(e) && c1 == mid,
                Ok(v) => {
                    let reg = ir_dx(mid.ir);
                    let o = common::sub_16_outcome(mid, mid.dar[reg], v);
                    &&& r == Ok::<Cycles, Exception>(Cycles(14))
                    &&& reg_set(o.0, c1, reg, merged(mid.dar[reg], o.1, 16))
                },
            }
}

pub fn sub_16_er_ix(core: &mut ConfiguredCore) -> (r: Result<Cycles>)
    requires
        old(core).wf(),
    ensures
        final(core).wf(),
        sub_16_er_ix_effect(*old(core), *final(core), r),
{
    let ghost c0 = *core;
    let src = operator::ay_ix_16(core);
    let ghost mid = *core;
    assert(operator::ay_ix_16_rel(c0, mid, src));
    match src {
        Err(e) => Err(e),
        Ok(v) => {
            let reg = reg_dx(core.ir);
            let dst = core.dar[reg];
            let res = common::sub_16(core, dst, v);
            set_reg(core, reg, merge(dst, res, 16));
            Ok(Cycles(14))
        },
    }
}

/// What `sub_16_er_aw` does: the core goes from `c0` to `c1` and `r` comes back.
pub open spec fn sub_16_er_aw_effect(c0: ConfiguredCore, c1: ConfiguredCore, r: Result<Cycles>) -> bool {
    &&& exists|mid: ConfiguredCore, src: Result<u32>|
            #[trigger] operator::aw_16_rel(c0, mid, src) && match src {
                Err(e) => r == Err::<Cycles, Exception>(e) && c1 == mid,
                Ok(v) => {
                    let reg = ir_dx(mid.ir);
                    let o = common::sub_16_outcome(mid, mid.dar[reg], v);
                    &&& r == Ok::<Cycles, Exception>(Cycles(12))
                    &&& reg_set(o.0, c1, reg, merged(mid.dar[reg], o.1, 16))
                },
            }
}

pub fn sub_16_er_aw(core: &mut ConfiguredCore) -> (r: Result<Cycles>)
    requires
        old(core).wf(),
    ensures
        final(core).wf(),
        sub_16_er_aw_effect(*old(core), *final(core), r),
{
    let ghost c0 = *core;
    let src = operator::aw_16(core);
    let ghost mid = *core;
    assert(operator::aw_16_rel(c0, mid, src));
    match src {
        Err(e) => Err(e),
        Ok(v) => {
            let reg = reg_dx(core.ir);
            let dst = core.dar[reg];
            let res = common::sub_16(core, dst, v);
            set_reg(core, reg, merge(dst, res, 16));
            Ok(Cycles(12))
        },
    }
}

/// What `sub_16_er_al` does: the core goes from `c0` to `c1` and `r` comes back.
pub open spec fn sub_16_er_al_effect(c0: ConfiguredCore, c1: ConfiguredCore, r: Result<Cycles>) -> bool {
    &&& exists|mid: ConfiguredCore, src: Result<u32>|
            #[trigger] operator::al_16_rel(c0, mid, src) && match src {
                Err(e) => r == Err::<Cycles, Exception>(e) && c1 == mid,
                Ok(v) => {
                    let reg = ir_dx(mid.ir);
                    let o = common::sub_16_outcome(mid, mid.dar[reg], v);
                    &&& r == Ok::<Cycles, Exception>(Cycles(16))
                    &&& reg_set(o.0, c1, reg, merged(mid.dar[reg], o.1, 16))
                },
            }
}

pub fn sub_16_er_al(core: &mut ConfiguredCore) -> (r: Result<Cycles>)
    requires
        old(core).wf(),
    ensures
        final(core).wf(),
        sub_16_er_al_effect(*old(core), *final(core), r),
{
    let ghost c0 = *core;
    let src = operator::al_16(core);
    let ghost mid = *core;
    assert(operator::al_16_rel(c0, mid, src));
    match src {
        Err(e) => Err(e),
        Ok(v) => {
            let reg = reg_dx(core.ir);
            let dst = core.dar[reg];
            let res = common::sub_16(core, dst, v);
            set_reg(core, reg, merge(dst, res, 16));
            Ok(Cycles(16))
        },
    }
}

/// What `sub_16_er_pcdi` does: the core goes from `c0` to `c1` and `r` comes back.
pub open spec fn sub_16_er_pcdi_effect(c0: ConfiguredCore, c1: ConfiguredCore, r: Result<Cycles>) -> bool {
    &&& exists|mid: ConfiguredCore, src: Result<u32>|
            #[trigger] operator::pcdi_16_rel(c0, mid, src) && match src {
                Err(e) => r == Err::<Cycles, Exception>(e) && c1 == mid,
                Ok(v) => {
                    let reg = ir_dx(mid.ir);
                    let o = common::sub_16_outcome(mid, mid.dar[reg], v);
                    &&& r == Ok::<Cycles, Exception>(Cycles(12))
                    &&& reg_set(o.0, c1, reg, merged(mid.dar[reg], o.1, 16))
                },
            }
}

pub fn sub_16_er_pcdi(core: &mut ConfiguredCore) -> (r: Result<Cycles>)
    requires
        old(core).wf(),
    ensures
        final(core).wf(),
        sub_16_er_pcdi_effect(*old(core), *final(core), r),
{
    let ghost c0 = *core;
    let src = operator::pcdi_16(core);
    let ghost mid = *core;
    assert(operator::pcdi_16_rel(c0, mid, src));
    match src {
        Err(e) => Err(e),
        Ok(v) => {
            let reg = reg_dx(core.ir);
            let dst = core.dar[reg];
            let res = common::sub_16(core, dst, v);
            set_reg(core, reg, merge(dst, res, 16));
            Ok(Cycles(12))
        },
    }
}

/// What `sub_16_er_pcix` does: the core goes from `c0` to `c1` and `r` comes back.
pub open spec fn sub_16_er_pcix_effect(c0: ConfiguredCore, c1: ConfiguredCore, r: Result<Cycles>) -> bool {
    &&& exists|mid: ConfiguredCore, src: Result<u32>|
            #[trigger] operator::pcix_16_rel(c0, mid, src) && match src {
                Err(e) => r == Err::<Cycles, Exception>(e) && c1 == mid,
                Ok(v) => {
                    let reg = ir_dx(mid.ir);
                    let o = common::sub_16_outcome(mid, mid.dar[reg], v);
                    &&& r == Ok::<Cycles, Exception>(Cycles(14))
                    &&& reg_set(o.0, c1, reg, merged(mid.dar[reg], o.1, 16))
                },
            }
}

pub fn sub_16_er_pcix(core: &mut ConfiguredCore) -> (r: Result<Cycles>)
    requires
        old(core).wf(),
    ensures
        final(core).wf(),
        sub_16_er_pcix_effect(*old(core), *final(core), r),
{
    let ghost c0 = *core;
    let src = operator::pcix_16(core);
    let ghost mid = *core;
    assert(operator::pcix_16_rel(c0, mid, src));
    match src {
        Err(e) => Err(e),
        Ok(v) => {
            let reg = reg_dx(core.ir);
            let dst = core.dar[reg];
            let res = common::sub_16(core, dst, v);
            set_reg(core, reg, merge(dst, res, 16));
            Ok(Cycles(14))
        },
    }
}

/// What `sub_16_er_imm` does: the core goes from `c0` to `c1` and `r` comes back.
pub open spec fn sub_16_er_imm_effect(c0: ConfiguredCore, c1: ConfiguredCore, r: Result<Cycles>) -> bool {
    &&& exists|mid: ConfiguredCore, src: Result<u32>|
            #[trigger] operator::imm_16_rel(c0, mid, src) && match src {
                Err(e) => r == Err::<Cycles, Exception>(e) && c1 == mid,
                Ok(v) => {
                    let reg = ir_dx(mid.ir);
                    let o = common::sub_16_outcome(mid, mid.dar[reg], v);
                    &&& r == Ok::<Cycles, Exception>(Cycles(10))
                    &&& reg_set(o.0, c1, reg, merged(mid.dar[reg], o.1, 16))
                },
            }
}

pub fn sub_16_er_imm(core: &mut ConfiguredCore) -> (r: Result<Cycles>)
    requires
        old(core).wf(),
    ensures
        final(core).wf(),
        sub_16_er_imm_effect(*old(core), *final(core), r),
{
    let ghost c0 = *core;
    let src = operator::imm_16(core);
    let ghost mid = *core;
    assert(operator::imm_16_rel(c0, mid, src));
    match src {
        Err(e) => Err(e),
        Ok(v) => {
            let reg = reg_dx(core.ir);
            let dst = core.dar[reg];
            let res = common::sub_16(core, dst, v);
            set_reg(core, reg, merge(dst, res, 16));
            Ok(Cycles(10))
        },
    }
}

/// What `sub_16_re_ai` does: the core goes from `c0` to `c1` and `r` comes back.
pub open spec fn sub_16_re_ai_effect(c0: ConfiguredCore, c1: ConfiguredCore, r: Result<Cycles>) -> bool {
    &&& exists|m1: ConfiguredCore, src: Result<u32>|
            #[trigger] operator::dx_rel(c0, m1, src) && match src {
                Err(e) => r == Err::<Cycles, Exception>(e) && c1 == m1,
                Ok(v) => exists|m2: ConfiguredCore, d: Result<(u32, u32)>|
                    #[trigger] operator::ea_ay_ai_16_rel(m1, m2, d) && match d {
                        Err(e) => r == Err::<Cycles, Exception>(e) && c1 == m2,
                        Ok((dv, ea)) => {
                            let o = common::sub_16_outcome(m2, dv, v);
                            stored(o.0, c1, 16, ea, merged(dv, o.1, 16), r, 12)
                        },
                    },
            }
}

pub fn sub_16_re_ai(core: &mut ConfiguredCore) -> (r: Result<Cycles>)
    requires
        old(core).wf(),
    ensures
        final(core).wf(),
        sub_16_re_ai_effect(*old(core), *final(core), r),
{
    let ghost c0 = *core;
    let src = operator::dx(core);
    let ghost m1 = *core;
    assert(operator::dx_rel(c0, m1, src));
    let v = match src {
        Err(e) => {
            return Err(e);
        },
        Ok(v) => v,
    };
    let d = operator::ea_ay_ai_16(core);
    let ghost m2 = *core;
    assert(operator::ea_ay_ai_16_rel(m1, m2, d));
    let (dv, ea) = match d {
        Err(e) => {
            return Err(e);
        },
        Ok(p) => p,
    };
    let res = common::sub_16(core, dv, v);
    store(core, 16, ea, merge(dv, res, 16), 12)
}

/// What `sub_16_re_pi` does: the core goes from `c0` to `c1` and `r` comes back.
pub open spec fn sub_16_re_pi_effect(c0: ConfiguredCore, c1: ConfiguredCore, r: Result<Cycles>) -> bool {
    &&& exists|m1: ConfiguredCore, src: Result<u32>|
            #[trigger] operator::dx_rel(c0, m1, src) && match src {
                Err(e) => r == Err::<Cycles, Exception>(e) && c1 == m1,
                Ok(v) => exists|m2: ConfiguredCore, d: Result<(u32, u32)>|
                    #[trigger] operator::ea_ay_pi_16_rel(m1, m2, d) && match d {
                        Err(e) => r == Err::<Cycles, Exception>(e) && c1 == m2,
                        Ok((dv, ea)) => {
                            let o = common::sub_16_outcome(m2, dv, v);
                            stored(o.0, c1, 16, ea, merged(dv, o.1, 16), r, 12)
                        },
                    },
            }
}

pub fn sub_16_re_pi(core: &mut ConfiguredCore) -> (r: Result<Cycles>)
    requires
        old(core).wf(),
    ensures
        final(core).wf(),
        sub_16_re_pi_effect(*old(core), *final(core), r),
{
    let ghost c0 = *core;
    let src = operator::dx(core);
    let ghost m1 = *core;
    assert(operator::dx_rel(c0, m1, src));
    let v = match src {
        Err(e) => {
            return Err(e);
        },
        Ok(v) => v,
    };
    let d = operator::ea_ay_pi_16(core);
    let ghost m2 = *core;
    assert(operator::ea_ay_pi_16_rel(m1, m2, d));
    let (dv, ea) = match d {
        Err(e) => {
            return Err(e);
        },
        Ok(p) => p,
    };
    let res = common::sub_16(core, dv, v);
    store(core, 16, ea, merge(dv, res, 16), 12)
}

/// What `sub_16_re_pd` does: the core goes from `c0` to `c1` and `r` comes back.
pub open spec fn sub_16_re_pd_effect(c0: ConfiguredCore, c1: ConfiguredCore, r: Result<Cycles>) -> bool {
    &&& exists|m1: ConfiguredCore, src: Result<u32>|
            #[trigger] operator::dx_rel(c0, m1, src) && match src {
                Err(e) => r == Err::<Cycles, Exception>(e) && c1 == m1,
                Ok(v) => exists|m2: ConfiguredCore, d: Result<(u32, u32)>|
                    #[trigger] operator::ea_ay_pd_16_rel(m1, m2, d) && match d {
                        Err(e) => r == Err::<Cycles, Exception>(e) && c1 == m2,
                        Ok((dv, ea)) => {
                            let o = common::sub_16_outcome(m2, dv, v);
                            stored(o.0, c1, 16, ea, merged(dv, o.1, 16), r, 14)
                        },
                    },
            }
}

pub fn sub_16_re_pd(core: &mut ConfiguredCore) -> (r: Result<Cycles>)
    requires
        old(core).wf(),
    ensures
        final(core).wf(),
        sub_16_re_pd_effect(*old(core), *final(core), r),
{
    let ghost c0 = *core;
    let src = operator::dx(core);
    let ghost m1 = *core;
    assert(operator::dx_rel(c0, m1, src));
    let v = match src {
        Err(e) => {
            return Err(e);
        },
        Ok(v) => v,
    };
    let d = operator::ea_ay_pd_16(core);
    let ghost m2 = *core;
    assert(operator::ea_ay_pd_16_rel(m1, m2, d));
    let (dv, ea) = match d {
        Err(e) => {
            return Err(e);
        },
        Ok(p) => p,
    };
    let res = common::sub_16(core, dv, v);
    store(core, 16, ea, merge(dv, res, 16), 14)
}

/// What `sub_16_re_di` does: the core goes from `c0` to `c1` and `r` comes back.
pub open spec fn sub_16_re_di_effect(c0: ConfiguredCore, c1: ConfiguredCore, r: Result<Cycles>) -> bool {
    &&& exists|m1: ConfiguredCore, src: Result<u32>|
            #[trigger] operator::dx_rel(c0, m1, src) && match src {
                Err(e) => r == Err::<Cycles, Exception>(e) && c1 == m1,
                Ok(v) => exists|m2: ConfiguredCore, d: Result<(u32, u32)>|
                    #[trigger] operator::ea_ay_di_16_rel(m1, m2, d) && match d {
                        Err(e) => r == Err::<Cycles, Exception>(e) && c1 == m2,
                        Ok((dv, ea)) => {
                            let o = common::sub_16_outcome(m2, dv, v);
                            stored(o.0, c1, 16, ea, merged(dv, o.1, 16), r, 16)
                        },
                    },
            }
}

pub fn sub_16_re_di(core: &mut ConfiguredCore) -> (r: Result<Cycles>)
    requires
        old(core).wf(),
    ensures
        final(core).wf(),
        sub_16_re_di_effect(*old(core), *final(core), r),
{
    let ghost c0 = *core;
    let src = operator::dx(core);
    let ghost m1 = *core;
    assert(operator::dx_rel(c0, m1, src));
    let v = match src {
        Err(e) => {
            return Err(e);
        },
        Ok(v) => v,
    };
    let d = operator::ea_ay_di_16(core);
    let ghost m2 = *core;
    assert(operator::ea_ay_di_16_rel(m1, m2, d));
    let (dv, ea) = match d {
        Err(e) => {
            return Err(e);
        },
        Ok(p) => p,
    };
    let res = common::sub_16(core, dv, v);
    store(core, 16, ea, merge(dv, res, 16), 16)
}

/// What `sub_16_re_ix` does: the core goes from `c0` to `c1` and `r` comes back.
pub open spec fn sub_16_re_ix_effect(c0: ConfiguredCore, c1: ConfiguredCore, r: Result<Cycles>) -> bool {
    &&& exists|m1: ConfiguredCore, src: Result<u32>|
            #[trigger] operator::dx_rel(c0, m1, src) && match src {
                Err(e) => r == Err::<Cycles, Exception>(e) && c1 == m1,
                Ok(v) => exists|m2: ConfiguredCore, d: Result<(u32, u32)>|
                    #[trigger] operator::ea_ay_ix_16_rel(m1, m2, d) && match d {
                        Err(e) => r == Err::<Cycles, Exception>(e) && c1 == m2,
                        Ok((dv, ea)) => {
                            let o = common::sub_16_outcome(m2, dv, v);
                            stored(o.0, c1, 16, ea, merged(dv, o.1, 16), r, 18)
                        },
                    },
            }
}

pub fn sub_16_re_ix(core: &mut ConfiguredCore) -> (r: Result<Cycles>)
    requires
        old(core).wf(),
    ensures
        final(core).wf(),
        sub_16_re_ix_effect(*old(core), *final(core), r),
{
    let ghost c0 = *core;
    let src = operator::dx(core);
    let ghost m1 = *core;
    assert(operator::dx_rel(c0, m1, src));
    let v = match src {
        Err(e) => {
            return Err(e);
        },
        Ok(v) => v,
    };
    let d = operator::ea_ay_ix_16(core);
    let ghost m2 = *core;
    assert(operator::ea_ay_ix_16_rel(m1, m2, d));
    let (dv, ea) = match d {
        Err(e) => {
            return Err(e);
        },
        Ok(p) => p,
    };
    let res = common::sub_16(core, dv, v);
    store(core, 16, ea, merge(dv, res, 16), 18)
}

/// What `sub_16_re_aw` does: the core goes from `c0` to `c1` and `r` comes back.
pub open spec fn sub_16_re_aw_effect(c0: ConfiguredCore, c1: ConfiguredCore, r: Result<Cycles>) -> bool {
    &&& exists|m1: ConfiguredCore, src: Result<u32>|
            #[trigger] operator::dx_rel(c0, m1, src) && match src {
                Err(e) => r == Err::<Cycles, Exception>(e) && c1 == m1,
                Ok(v) => exists|m2: ConfiguredCore, d: Result<(u32, u32)>|
                    #[trigger] operator::ea_aw_16_rel(m1, m2, d) && match d {
                        Err(e) => r == Err::<Cycles, Exception>(e) && c1 == m2,
                        Ok((dv, ea)) => {
                            let o = common::sub_16_outcome(m2, dv, v);
                            stored(o.0, c1, 16, ea, merged(dv, o.1, 16), r, 16)
                        },
                    },
            }
}

pub fn sub_16_re_aw(core: &mut ConfiguredCore) -> (r: Result<Cycles>)
    requires
        old(core).wf(),
    ensures
        final(core).wf(),
        sub_16_re_aw_effect(*old(core), *final(core), r),
{
    let ghost c0 = *core;
    let src = operator::dx(core);
    let ghost m1 = *core;
    assert(operator::dx_rel(c0, m1, src));
    let v = match src {
        Err(e) => {
            return Err(e);
        },
        Ok(v) => v,
    };
    let d = operator::ea_aw_16(core);
    let ghost m2 = *core;
    assert(operator::ea_aw_16_rel(m1, m2, d));
    let (dv, ea) = match d {
        Err(e) => {
            return Err(e);
        },
        Ok(p) => p,
    };
    let res = common::sub_16(core, dv, v);
    store(core, 16, ea, merge(dv, res, 16), 16)
}

/// What `sub_16_re_al` does: the core goes from `c0` to `c1` and `r` comes back.
pub open spec fn sub_16_re_al_effect(c0: ConfiguredCore, c1: ConfiguredCore, r: Result<Cycles>) -> bool {
    &&& exists|m1: ConfiguredCore, src: Result<u32>|
            #[trigger] operator::dx_rel(c0, m1, src) && match src {
                Err(e) => r == Err::<Cycles, Exception>(e) && c1 == m1,
                Ok(v) => exists|m2: ConfiguredCore, d: Result<(u32, u32)>|
                    #[trigger] operator::ea_al_16_rel(m1, m2, d) && match d {
                        Err(e) => r == Err::<Cycles, Exception>(e) && c1 == m2,
                        Ok((dv, ea)) => {
                            let o = common::sub_16_outcome(m2, dv, v);
                            stored(o.0, c1, 16, ea, merged(dv, o.1, 16), r, 20)
                        },
                    },
            }
}

pub fn sub_16_re_al(core: &mut ConfiguredCore) -> (r: Result<Cycles>)
    requires
        old(core).wf(),
    ensures
        final(core).wf(),
        sub_16_re_al_effect(*old(core), *final(core), r),
{
    let ghost c0 = *core;
    let src = operator::dx(core);
    let ghost m1 = *core;
    assert(operator::dx_rel(c0, m1, src));
    let v = match src {
        Err(e) => {
            return Err(e);
        },
        Ok(v) => v,
    };
    let d = operator::ea_al_16(core);
    let ghost m2 = *core;
    assert(operator::ea_al_16_rel(m1, m2, d));
    let (dv, ea) = match d {
        Err(e) => {
            return Err(e);
        },
        Ok(p) => p,
    };
    let res = common::sub_16(core, dv, v);
    store(core, 16, ea, merge(dv, res, 16), 20)
}

/// What `sub_32_er_dn` does: the core goes from `c0` to `c1` and `r` comes back.
pub open spec fn sub_32_er_dn_effect(c0: ConfiguredCore, c1: ConfiguredCore, r: Result<Cycles>) -> bool {
    &&& exists|mid: ConfiguredCore, src: Result<u32>|
            #[trigger] operator::dy_rel(c0, mid, src) && match src {
                Err(e) => r == Err::<Cycles, Exception>(e) && c1 == mid,
                Ok(v) => {
                    let reg = ir_dx(mid.ir);
                    let o = common::sub_32_outcome(mid, mid.dar[reg], v);
                    &&& r == Ok::<Cycles, Exception>(Cycles(6))
                    &&& reg_set(o.0, c1, reg, merged(mid.dar[reg], o.1, 32))
                },
            }
}

pub fn sub_32_er_dn(core: &mut ConfiguredCore) -> (r: Result<Cycles>)
    requires
        old(core).wf(),
    ensures
        final(core).wf(),
        sub_32_er_dn_effect(*old(core), *final(core), r),
{
    let ghost c0 = *core;
    let src = operator::dy(core);
    let ghost mid = *core;
    assert(operator::dy_rel(c0, mid, src));
    match src {
        Err(e) => Err(e),
        Ok(v) => {
            let reg = reg_dx(core.ir);
            let dst = core.dar[reg];
            let res = common::sub_32(core, dst, v);
            set_reg(core, reg, merge(dst, res, 32));
            Ok(Cycles(6))
        },
    }
}

/// What `sub_32_er_an` does: the core goes from `c0` to `c1` and `r` comes back.
pub open spec fn sub_32_er_an_effect(c0: ConfiguredCore, c1: ConfiguredCore, r: Result<Cycles>) -> bool {
    &&& exists|mid: ConfiguredCore, src: Result<u32>|
            #[trigger] operator::ay_rel(c0, mid, src) && match src {
                Err(e) => r == Err::<Cycles, Exception>(e) && c1 == mid,
                Ok(v) => {
                    let reg = ir_dx(mid.ir);
                    let o = common::sub_32_outcome(mid, mid.dar[reg], v);
                    &&& r == Ok::<Cycles, Exception>(Cycles(6))
                    &&& reg_set(o.0, c1, reg, merged(mid.dar[reg], o.1, 32))
                },
            }
}

pub fn sub_32_er_an(core: &mut ConfiguredCore) -> (r: Result<Cycles>)
    requires
        old(core).wf(),
    ensures
        final(core).wf(),
        sub_32_er_an_effect(*old(core), *final(core), r),
{
    let ghost c0 = *core;
    let src = operator::ay(core);
    let ghost mid = *core;
    assert(operator::ay_rel(c0, mid, src));
    match src {
        Err(e) => Err(e),
        Ok(v) => {
            let reg = reg_dx(core.ir);
            let dst = core.dar[reg];
            let res = common::sub_32(core, dst, v);
            set_reg(core, reg, merge(dst, res, 32));
            Ok(Cycles(6))
        },
    }
}

/// What `sub_32_er_ai` does: the core goes from `c0` to `c1` and `r` comes back.
pub open spec fn sub_32_er_ai_effect(c0: ConfiguredCore, c1: ConfiguredCore, r: Result<Cycles>) -> bool {
    &&& exists|mid: ConfiguredCore, src: Result<u32>|
            #[trigger] operator::ay_ai_32_rel(c0, mid, src) && match src {
                Err(e) => r == Err::<Cycles, Exception>(e) && c1 == mid,
                Ok(v) => {
                    let reg = ir_dx(mid.ir);
                    let o = common::sub_32_outcome(mid, mid.dar[reg], v);
                    &&& r == Ok::<Cycles, Exception>(Cycles(14))
                    &&& reg_set(o.0, c1, reg, merged(mid.dar[reg], o.1, 32))
                },
            }
}

pub fn sub_32_er_ai(core: &mut ConfiguredCore) -> (r: Result<Cycles>)
    requires
        old(core).wf(),
    ensures
        final(core).wf(),
        sub_32_er_ai_effect(*old(core), *final(core), r),
{
    let ghost c0 = *core;
    let src = operator::ay_ai_32(core);
    let ghost mid = *core;
    assert(operator::ay_ai_32_rel(c0, mid, src));
    match src {
        Err(e) => Err(e),
        Ok(v) => {
            let reg = reg_dx(core.ir);
            let dst = core.dar[reg];
            let res = common::sub_32(core, dst, v);
            set_reg(core, reg, merge(dst, res, 32));
            Ok(Cycles(14))
        },
    }
}

/// What `sub_32_er_pi` does: the core goes from `c0` to `c1` and `r` comes back.
pub open spec fn sub_32_er_pi_effect(c0: ConfiguredCore, c1: ConfiguredCore, r: Result<Cycles>) -> bool {
    &&& exists|mid: ConfiguredCore, src: Result<u32>|
            #[trigger] operator::ay_pi_32_rel(c0, mid, src) && match src {
                Err(e) => r == Err::<Cycles, Exception>(e) && c1 == mid,
                Ok(v) => {
                    let reg = ir_dx(mid.ir);
                    let o = common::sub_32_outcome(mid, mid.dar[reg], v);
                    &&& r == Ok::<Cycles, Exception>(Cycles(14))
                    &&& reg_set(o.0, c1, reg, merged(mid.dar[reg], o.1, 32))
                },
            }
}

pub fn sub_32_er_pi(core: &mut ConfiguredCore) -> (r: Result<Cycles>)
    requires
        old(core).wf(),
    ensures
        final(core).wf(),
        sub_32_er_pi_effect(*old(core), *final(core), r),
{
    let ghost c0 = *core;
    let src = operator::ay_pi_32(core);
    let ghost mid = *core;
    assert(operator::ay_pi_32_rel(c0, mid, src));
    match src {
        Err(e) => Err(e),
        Ok(v) => {
            let reg = reg_dx(core.ir);
            let dst = core.dar[reg];
            let res = common::sub_32(core, dst, v);
            set_reg(core, reg, merge(dst, res, 32));
            Ok(Cycles(14))
        },
    }
}

/// What `sub_32_er_pd` does: the core goes from `c0` to `c1` and `r` comes back.
pub open spec fn sub_32_er_pd_effect(c0: ConfiguredCore, c1: ConfiguredCore, r: Result<Cycles>) -> bool {
    &&& exists|mid: ConfiguredCore, src: Result<u32>|
            #[trigger] operator::ay_pd_32_rel(c0, mid, src) && match src {
                Err(e) => r == Err::<Cycles, Exception>(e) && c1 == mid,
                Ok(v) => {
                    let reg = ir_dx(mid.ir);
                    let o = common::sub_32_outcome(mid, mid.dar[reg], v);
                    &&& r == Ok::<Cycles, Exception>(Cycles(16))
                    &&& reg_set(o.0, c1, reg, merged(mid.dar[reg], o.1, 32))
                },
            }
}

pub fn sub_32_er_pd(core: &mut ConfiguredCore) -> (r: Result<Cycles>)
    requires
        old(core).wf(),
    ensures
        final(core).wf(),
        sub_32_er_pd_effect(*old(core), *final(core), r),
{
    let ghost c0 = *core;
    let src = operator::ay_pd_32(core);
    let ghost mid = *core;
    assert(operator::ay_pd_32_rel(c0, mid, src));
    match src {
        Err(e) => Err(e),
        Ok(v) => {
            let reg = reg_dx(core.ir);
            let dst = core.dar[reg];
            let res = common::sub_32(core, dst, v);
            set_reg(core, reg, merge(dst, res, 32));
            Ok(Cycles(16))
        },
    }
}

/// What `sub_32_er_di` does: the core goes from `c0` to `c1` and `r` comes back.
pub open spec fn sub_32_er_di_effect(c0: ConfiguredCore, c1: ConfiguredCore, r: Result<Cycles>) -> bool {
    &&& exists|mid: ConfiguredCore, src: Result<u32>|
            #[trigger] operator::ay_di_32_rel(c0, mid, src) && match src {
                Err(e) => r == Err::<Cycles, Exception>(e) && c1 == mid,
                Ok(v) => {
                    let reg = ir_dx(mid.ir);
                    let o = common::sub_32_outcome(mid, mid.dar[reg], v);
                    &&& r == Ok::<Cycles, Exception>(Cycles(18))
                    &&& reg_set(o.0, c1, reg, merged(mid.dar[reg], o.1, 32))
                },
            }
}

pub fn sub_32_er_di(core: &mut ConfiguredCore) -> (r: Result<Cycles>)
    requires
        old(core).wf(),
    ensures
        final(core).wf(),
        sub_32_er_di_effect(*old(core), *final(core), r),
{
    let ghost c0 = *core;
    let src = operator::ay_di_32(core);
    let ghost mid = *core;
    assert(operator::ay_di_32_rel(c0, mid, src));
    match src {
        Err(e) => Err(e),
        Ok(v) => {
            let reg = reg_dx(core.ir);
            let dst = core.dar[reg];
            let res = common::sub_32(core, dst, v);
            set_reg(core, reg, merge(dst, res, 32));
            Ok(Cycles(18))
        },
    }
}

/// What `sub_32_er_ix` does: the core goes from `c0` to `c1` and `r` comes back.
pub open spec fn sub_32_er_ix_effect(c0: ConfiguredCore, c1: ConfiguredCore, r: Result<Cycles>) -> bool {
    &&& exists|mid: ConfiguredCore, src: Result<u32>|
            #[trigger] operator::ay_ix_32_rel(c0, mid, src) && match src {
                Err(e) => r == Err::<Cycles, Exception>(e) && c1 == mid,
                Ok(v) => {
                    let reg = ir_dx(mid.ir);
                    let o = common::sub_32_outcome(mid, mid.dar[reg], v);
                    &&& r == Ok::<Cycles, Exception>(Cycles(20))
                    &&& reg_set(o.0, c1, reg, merged(mid.dar[reg], o.1, 32))
                },
            }
}

pub fn sub_32_er_ix(core: &mut ConfiguredCore) -> (r: Result<Cycles>)
    requires
        old(core).wf(),
    ensures
        final(core).wf(),
        sub_32_er_ix_effect(*old(core), *final(core), r),
{
    let ghost c0 = *core;
    let src = operator::ay_ix_32(core);
    let ghost mid = *core;
    assert(operator::ay_ix_32_rel(c0, mid, src));
    match src {
        Err(e) => Err(e),
        Ok(v) => {
            let reg = reg_dx(core.ir);
            let dst = core.dar[reg];
            let res = common::sub_32(core, dst, v);
            set_reg(core, reg, merge(dst, res, 32));
            Ok(Cycles(20))
        },
    }
}

/// What `sub_32_er_aw` does: the core goes from `c0` to `c1` and `r` comes back.
pub open spec fn sub_32_er_aw_effect(c0: ConfiguredCore, c1: ConfiguredCore, r: Result<Cycles>) -> bool {
    &&& exists|mid: ConfiguredCore, src: Result<u32>|
            #[trigger] operator::aw_32_rel(c0, mid, src) && match src {
                Err(e) => r == Err::<Cycles, Exception>(e) && c1 == mid,
                Ok(v) => {
                    let reg = ir_dx(mid.ir);
                    let o = common::sub_32_outcome(mid, mid.dar[reg], v);
                    &&& r == Ok::<Cycles, Exception>(Cycles(18))
                    &&& reg_set(o.0, c1, reg, merged(mid.dar[reg], o.1, 32))
                },
            }
}

pub fn sub_32_er_aw(core: &mut ConfiguredCore) -> (r: Result<Cycles>)
    requires
        old(core).wf(),
    ensures
        final(core).wf(),
        sub_32_er_aw_effect(*old(core), *final(core), r),
{
    let ghost c0 = *core;
    let src = operator::aw_32(core);
    let ghost mid = *core;
    assert(operator::aw_32_rel(c0, mid, src));
    match src {
        Err(e) => Err(e),
        Ok(v) => {
            let reg = reg_dx(core.ir);
            let dst = core.dar[reg];
            let res = common::sub_32(core, dst, v);
            set_reg(core, reg, merge(dst, res, 32));
            Ok(Cycles(18))
        },
    }
}

/// What `sub_32_er_al` does: the core goes from `c0` to `c1` and `r` comes back.
pub open spec fn sub_32_er_al_effect(c0: ConfiguredCore, c1: ConfiguredCore, r: Result<Cycles>) -> bool {
    &&& exists|mid: ConfiguredCore, src: Result<u32>|
            #[trigger] operator::al_32_rel(c0, mid, src) && match src {
                Err(e) => r == Err::<Cycles, Exception>(e) && c1 == mid,
                Ok(v) => {
                    let reg = ir_dx(mid.ir);
                    let o = common::sub_32_outcome(mid, mid.dar[reg], v);
                    &&& r == Ok::<Cycles, Exception>(Cycles(22))
                    &&& reg_set(o.0, c1, reg, merged(mid.dar[reg], o.1, 32))
                },
            }
}

pub fn sub_32_er_al(core: &mut ConfiguredCore) -> (r: Result<Cycles>)
    requires
        old(core).wf(),
    ensures
        final(core).wf(),
        sub_32_er_al_effect(*old(core), *final(core), r),
{
    let ghost c0 = *core;
    let src = operator::al_32(core);
    let ghost mid = *core;
    assert(operator::al_32_rel(c0, mid, src));
    match src {
        Err(e) => Err(e),
        Ok(v) => {
            let reg = reg_dx(core.ir);
            let dst = core.dar[reg];
            let res = common::sub_32(core, dst, v);
            set_reg(core, reg, merge(dst, res, 32));
            Ok(Cycles(22))
        },
    }
}

/// What `sub_32_er_pcdi` does: the core goes from `c0` to `c1` and `r` comes back.
pub open spec fn sub_32_er_pcdi_effect(c0: ConfiguredCore, c1: ConfiguredCore, r: Result<Cycles>) -> bool {
    &&& exists|mid: ConfiguredCore, src: Result<u32>|
            #[trigger] operator::pcdi_32_rel(c0, mid, src) && match src {
                Err(e) => r == Err::<Cycles, Exception>(e) && c1 == mid,
                Ok(v) => {
                    let reg = ir_dx(mid.ir);
                    let o = common::sub_32_outcome(mid, mid.dar[reg], v);
                    &&& r == Ok::<Cycles, Exception>(Cycles(18))
                    &&& reg_set(o.0, c1, reg, merged(mid.dar[reg], o.1, 32))
                },
            }
}

pub fn sub_32_er_pcdi(core: &mut ConfiguredCore) -> (r: Result<Cycles>)
    requires
        old(core).wf(),
    ensures
        final(core).wf(),
        sub_32_er_pcdi_effect(*old(core), *final(core), r),
{
    let ghost c0 = *core;
    let src = operator::pcdi_32(core);
    let ghost mid = *core;
    assert(operator::pcdi_32_rel(c0, mid, src));
    match src {
        Err(e) => Err(e),
        Ok(v) => {
            let reg = reg_dx(core.ir);
            let dst = core.dar[reg];
            let res = common::sub_32(core, dst, v);
            set_reg(core, reg, merge(dst, res, 32));
            Ok(Cycles(18))
        },
    }
}

/// What `sub_32_er_pcix` does: the core goes from `c0` to `c1` and `r` comes back.
pub open spec fn sub_32_er_pcix_effect(c0: ConfiguredCore, c1: ConfiguredCore, r: Result<Cycles>) -> bool {
    &&& exists|mid: ConfiguredCore, src: Result<u32>|
            #[trigger] operator::pcix_32_rel(c0, mid, src) && match src {
                Err(e) => r == Err::<Cycles, Exception>(e) && c1 == mid,
                Ok(v) => {
                    let reg = ir_dx(mid.ir);
                    let o = common::sub_32_outcome(mid, mid.dar[reg], v);
                    &&& r == Ok::<Cycles, Exception>(Cycles(20))
                    &&& reg_set(o.0, c1, reg, merged(mid.dar[reg], o.1, 32))
                },
            }
}

pub fn sub_32_er_pcix(core: &mut ConfiguredCore) -> (r: Result<Cycles>)
    requires
        old(core).wf(),
    ensures
        final(core).wf(),
        sub_32_er_pcix_effect(*old(core), *final(core), r),
{
    let ghost c0 = *core;
    let src = operator::pcix_32(core);
    let ghost mid = *core;
    assert(operator::pcix_32_rel(c0, mid, src));
    match src {
        Err(e) => Err(e),
        Ok(v) => {
            let reg = reg_dx(core.ir);
            let dst = core.dar[reg];
            let res = common::sub_32(core, dst, v);
            set_reg(core, reg, merge(dst, res, 32));
            Ok(Cycles(20))
        },
    }
}

/// What `sub_32_er_imm` does: the core goes from `c0` to `c1` and `r` comes back.
pub open spec fn sub_32_er_imm_effect(c0: ConfiguredCore, c1: ConfiguredCore, r: Result<Cycles>) -> bool {
    &&& exists|mid: ConfiguredCore, src: Result<u32>|
            #[trigger] operator::imm_32_rel(c0, mid, src) && match src {
                Err(e) => r == Err::<Cycles, Exception>(e) && c1 == mid,
                Ok(v) => {
                    let reg = ir_dx(mid.ir);
                    let o = common::sub_32_outcome(mid, mid.dar[reg], v);
                    &&& r == Ok::<Cycles, Exception>(Cycles(16))
                    &&& reg_set(o.0, c1, reg, merged(mid.dar[reg], o.1, 32))
                },
            }
}

pub fn sub_32_er_imm(core: &mut ConfiguredCore) -> (r: Result<Cycles>)
    requires
        old(core).wf(),
    ensures
        final(core).wf(),
        sub_32_er_imm_effect(*old(core), *final(core), r),
{
    let ghost c0 = *core;
    let src = operator::imm_32(core);
    let ghost mid = *core;
    assert(operator::imm_32_rel(c0, mid, src));
    match src {
        Err(e) => Err(e),
        Ok(v) => {
            let reg = reg_dx(core.ir);
            let dst = core.dar[reg];
            let res = common::sub_32(core, dst, v);
            set_reg(core, reg, merge(dst, res, 32));
            Ok(Cycles(16))
        },
    }
}

/// What `sub_32_re_ai` does: the core goes from `c0` to `c1` and `r` comes back.
pub open spec fn sub_32_re_ai_effect(c0: ConfiguredCore, c1: ConfiguredCore, r: Result<Cycles>) -> bool {
    &&& exists|m1: ConfiguredCore, src: Result<u32>|
            #[trigger] operator::dx_rel(c0, m1, src) && match src {
                Err(e) => r == Err::<Cycles, Exception>(e) && c1 == m1,
                Ok(v) => exists|m2: ConfiguredCore, d: Result<(u32, u32)>|
                    #[trigger] operator::ea_ay_ai_32_rel(m1, m2, d) && match d {
                        Err(e) => r == Err::<Cycles, Exception>(e) && c1 == m2,
                        Ok((dv, ea)) => {
                            let o = common::sub_32_outcome(m2, dv, v);
                            stored(o.0, c1, 32, ea, merged(dv, o.1, 32), r, 20)
                        },
                    },
            }
}

pub fn sub_32_re_ai(core: &mut ConfiguredCore) -> (r: Result<Cycles>)
    requires
        old(core).wf(),
    ensures
        final(core).wf(),
        sub_32_re_ai_effect(*old(core), *final(core), r),
{
    let ghost c0 = *core;
    let src = operator::dx(core);
    let ghost m1 = *core;
    assert(operator::dx_rel(c0, m1, src));
    let v = match src {
        Err(e) => {
            return Err(e);
        },
        Ok(v) => v,
    };
    let d = operator::ea_ay_ai_32(core);
    let ghost m2 = *core;
    assert(operator::ea_ay_ai_32_rel(m1, m2, d));
    let (dv, ea) = match d {
        Err(e) => {
            return Err(e);
        },
        Ok(p) => p,
    };
    let res = common::sub_32(core, dv, v);
    store(core, 32, ea, merge(dv, res, 32), 20)
}

/// What `sub_32_re_pi` does: the core goes from `c0` to `c1` and `r` comes back.
pub open spec fn sub_32_re_pi_effect(c0: ConfiguredCore, c1: ConfiguredCore, r: Result<Cycles>) -> bool {
    &&& exists|m1: ConfiguredCore, src: Result<u32>|
            #[trigger] operator::dx_rel(c0, m1, src) && match src {
                Err(e) => r == Err::<Cycles, Exception>(e) && c1 == m1,
                Ok(v) => exists|m2: ConfiguredCore, d: Result<(u32, u32)>|
                    #[trigger] operator::ea_ay_pi_32_rel(m1, m2, d) && match d {
                        Err(e) => r == Err::<Cycles, Exception>(e) && c1 == m2,
                        Ok((dv, ea)) => {
                            let o = common::sub_32_outcome(m2, dv, v);
                            stored(o.0, c1, 32, ea, merged(dv, o.1, 32), r, 20)
                        },
                    },
            }
}

pub fn sub_32_re_pi(core: &mut ConfiguredCore) -> (r: Result<Cycles>)
    requires
        old(core).wf(),
    ensures
        final(core).wf(),
        sub_32_re_pi_effect(*old(core), *final(core), r),
{
    let ghost c0 = *core;
    let src = operator::dx(core);
    let ghost m1 = *core;
    assert(operator::dx_rel(c0, m1, src));
    let v = match src {
        Err(e) => {
            return Err(e);
        },
        Ok(v) => v,
    };
    let d = operator::ea_ay_pi_32(core);
    let ghost m2 = *core;
    assert(operator::ea_ay_pi_32_rel(m1, m2, d));
    let (dv, ea) = match d {
        Err(e) => {
            return Err(e);
        },
        Ok(p) => p,
    };
    let res = common::sub_32(core, dv, v);
    store(core, 32, ea, merge(dv, res, 32), 20)
}

/// What `sub_32_re_pd` does: the core goes from `c0` to `c1` and `r` comes back.
pub open spec fn sub_32_re_pd_effect(c0: ConfiguredCore, c1: ConfiguredCore, r: Result<Cycles>) -> bool {
    &&& exists|m1: ConfiguredCore, src: Result<u32>|
            #[trigger] operator::dx_rel(c0, m1, src) && match src {
                Err(e) => r == Err::<Cycles, Exception>(e) && c1 == m1,
                Ok(v) => exists|m2: ConfiguredCore, d: Result<(u32, u32)>|
                    #[trigger] operator::ea_ay_pd_32_rel(m1, m2, d) && match d {
                        Err(e) => r == Err::<Cycles, Exception>(e) && c1 == m2,
                        Ok((dv, ea)) => {
                            let o = common::sub_32_outcome(m2, dv, v);
                            stored(o.0, c1, 32, ea, merged(dv, o.1, 32), r, 22)
                        },
                    },
            }
}

pub fn sub_32_re_pd(core: &mut ConfiguredCore) -> (r: Result<Cycles>)
    requires
        old(core).wf(),
    ensures
        final(core).wf(),
        sub_32_re_pd_effect(*old(core), *final(core), r),
{
    let ghost c0 = *core;
    let src = operator::dx(core);
    let ghost m1 = *core;
    assert(operator::dx_rel(c0, m1, src));
    let v = match src {
        Err(e) => {
            return Err(e);
        },
        Ok(v) => v,
    };
    let d = operator::ea_ay_pd_32(core);
    let ghost m2 = *core;
    assert(operator::ea_ay_pd_32_rel(m1, m2, d));
    let (dv, ea) = match d {
        Err(e) => {
            return Err(e);
        },
        Ok(p) => p,
    };
    let res = common::sub_32(core, dv, v);
    store(core, 32, ea, merge(dv, res, 32), 22)
}

/// What `sub_32_re_di` does: the core goes from `c0` to `c1` and `r` comes back.
pub open spec fn sub_32_re_di_effect(c0: ConfiguredCore, c1: ConfiguredCore, r: Result<Cycles>) -> bool {
    &&& exists|m1: ConfiguredCore, src: Result<u32>|
            #[trigger] operator::dx_rel(c0, m1, src) && match src {
                Err(e) => r == Err::<Cycles, Exception>(e) && c1 == m1,
                Ok(v) => exists|m2: ConfiguredCore, d: Result<(u32, u32)>|
                    #[trigger] operator::ea_ay_di_32_rel(m1, m2, d) && match d {
                        Err(e) => r == Err::<Cycles, Exception>(e) && c1 == m2,
                        Ok((dv, ea)) => {
                            let o = common::sub_32_outcome(m2, dv, v);
                            stored(o.0, c1, 32, ea, merged(dv, o.1, 32), r, 24)
                        },
                    },
            }
}

pub fn sub_32_re_di(core: &mut ConfiguredCore) -> (r: Result<Cycles>)
    requires
        old(core).wf(),
    ensures
        final(core).wf(),
        sub_32_re_di_effect(*old(core), *final(core), r),
{
    let ghost c0 = *core;
    let src = operator::dx(core);
    let ghost m1 = *core;
    assert(operator::dx_rel(c0, m1, src));
    let v = match src {
        Err(e) => {
            return Err(e);
        },
        Ok(v) => v,
    };
    let d = operator::ea_ay_di_32(core);
    let ghost m2 = *core;
    assert(operator::ea_ay_di_32_rel(m1, m2, d));
    let (dv, ea) = match d {
        Err(e) => {
            return Err(e);
        },
        Ok(p) => p,
    };
    let res = common::sub_32(core, dv, v);
    store(core, 32, ea, merge(dv, res, 32), 24)
}

/// What `sub_32_re_ix` does: the core goes from `c0` to `c1` and `r` comes back.
pub open spec fn sub_32_re_ix_effect(c0: ConfiguredCore, c1: ConfiguredCore, r: Result<Cycles>) -> bool {
    &&& exists|m1: ConfiguredCore, src: Result<u32>|
            #[trigger] operator::dx_rel(c0, m1, src) && match src {
                Err(e) => r == Err::<Cycles, Exception>(e) && c1 == m1,
                Ok(v) => exists|m2: ConfiguredCore, d: Result<(u32, u32)>|
                    #[trigger] operator::ea_ay_ix_32_rel(m1, m2, d) && match d {
                        Err(e) => r == Err::<Cycles, Exception>(e) && c1 == m2,
                        Ok((dv, ea)) => {
                            let o = common::sub_32_outcome(m2, dv, v);
                            stored(o.0, c1, 32, ea, merged(dv, o.1, 32), r, 26)
                        },
                    },
            }
}

pub fn sub_32_re_ix(core: &mut ConfiguredCore) -> (r: Result<Cycles>)
    requires
        old(core).wf(),
    ensures
        final(core).wf(),
        sub_32_re_ix_effect(*old(core), *final(core), r),
{
    let ghost c0 = *core;
    let src = operator::dx(core);
    let ghost m1 = *core;
    assert(operator::dx_rel(c0, m1, src));
    let v = match src {
        Err(e) => {
            return Err(e);
        },
        Ok(v) => v,
    };
    let d = operator::ea_ay_ix_32(core);
    let ghost m2 = *core;
    assert(operator::ea_ay_ix_32_rel(m1, m2, d));
    let (dv, ea) = match d {
        Err(e) => {
            return Err(e);
        },
        Ok(p) => p,
    };
    let res = common::sub_32(core, dv, v);
    store(core, 32, ea, merge(dv, res, 32), 26)
}

/// What `sub_32_re_aw` does: the core goes from `c0` to `c1` and `r` comes back.
pub open spec fn sub_32_re_aw_effect(c0: ConfiguredCore, c1: ConfiguredCore, r: Result<Cycles>) -> bool {
    &&& exists|m1: ConfiguredCore, src: Result<u32>|
            #[trigger] operator::dx_rel(c0, m1, src) && match src {
                Err(e) => r == Err::<Cycles, Exception>(e) && c1 == m1,
                Ok(v) => exists|m2: ConfiguredCore, d: Result<(u32, u32)>|
                    #[trigger] operator::ea_aw_32_rel(m1, m2, d) && match d {
                        Err(e) => r == Err::<Cycles, Exception>(e) && c1 == m2,
                        Ok((dv, ea)) => {
                            let o = common::sub_32_outcome(m2, dv, v);
                            stored(o.0, c1, 32, ea, merged(dv, o.1, 32), r, 24)
                        },
                    },
            }
}

pub fn sub_32_re_aw(core: &mut ConfiguredCore) -> (r: Result<Cycles>)
    requires
        old(core).wf(),
    ensures
        final(core).wf(),
        sub_32_re_aw_effect(*old(core), *final(core), r),
{
    let ghost c0 = *core;
    let src = operator::dx(core);
    let ghost m1 = *core;
    assert(operator::dx_rel(c0, m1, src));
    let v = match src {
        Err(e) => {
            return Err(e);
        },
        Ok(v) => v,
    };
    let d = operator::ea_aw_32(core);
    let ghost m2 = *core;
    assert(operator::ea_aw_32_rel(m1, m2, d));
    let (dv, ea) = match d {
        Err(e) => {
            return Err(e);
        },
        Ok(p) => p,
    };
    let res = common::sub_32(core, dv, v);
    store(core, 32, ea, merge(dv, res, 32), 24)
}

/// What `sub_32_re_al` does: the core goes from `c0` to `c1` and `r` comes back.
pub open spec fn sub_32_re_al_effect(c0: ConfiguredCore, c1: ConfiguredCore, r: Result<Cycles>) -> bool {
    &&& exists|m1: ConfiguredCore, src: Result<u32>|
            #[trigger] operator::dx_rel(c0, m1, src) && match src {
                Err(e) => r == Err::<Cycles, Exception>(e) && c1 == m1,
                Ok(v) => exists|m2: ConfiguredCore, d: Result<(u32, u32)>|
                    #[trigger] operator::ea_al_32_rel(m1, m2, d) && match d {
                        Err(e) => r == Err::<Cycles, Exception>(e) && c1 == m2,
                        Ok((dv, ea)) => {
                            let o = common::sub_32_outcome(m2, dv, v);
                            stored(o.0, c1, 32, ea, merged(dv, o.1, 32), r, 28)
                        },
                    },
            }
}

pub fn sub_32_re_al(core: &mut ConfiguredCore) -> (r: Result<Cycles>)
    requires
        old(core).wf(),
    ensures
        final(core).wf(),
        sub_32_re_al_effect(*old(core), *final(core), r),
{
    let ghost c0 = *core;
    let src = operator::dx(core);
    let ghost m1 = *core;
    assert(operator::dx_rel(c0, m1, src));
    let v = match src {
        Err(e) => {
            return Err(e);
        },
        Ok(v) => v,
    };
    let d = operator::ea_al_32(core);
    let ghost m2 = *core;
    assert(operator::ea_al_32_rel(m1, m2, d));
    let (dv, ea) = match d {
        Err(e) => {
            return Err(e);
        },
        Ok(p) => p,
    };
    let res = common::sub_32(core, dv, v);
    store(core, 32, ea, merge(dv, res, 32), 28)
}

/// What `subi_8_dn` does: the core goes from `c0` to `c1` and `r` comes back.
pub open spec fn subi_8_dn_effect(c0: ConfiguredCore, c1: ConfiguredCore, r: Result<Cycles>) -> bool {
    &&& exists|mid: ConfiguredCore, src: Result<u32>|
            #[trigger] operator::imm_8_rel(c0, mid, src) && match src {
                Err(e) => r == Err::<Cycles, Exception>(e) && c1 == mid,
                Ok(v) => {
                    let reg = ir_dy(mid.ir);
                    let o = common::sub_8_outcome(mid, mid.dar[reg], v);
                    &&& r == Ok::<Cycles, Exception>(Cycles(8))
                    &&& reg_set(o.0, c1, reg, merged(mid.dar[reg], o.1, 8))
                },
            }
}

pub fn subi_8_dn(core: &mut ConfiguredCore) -> (r: Result<Cycles>)
    requires
        old(core).wf(),
    ensures
        final(core).wf(),
        subi_8_dn_effect(*old(core), *final(core), r),
{
    let ghost c0 = *core;
    let src = operator::imm_8(core);
    let ghost mid = *core;
    assert(operator::imm_8_rel(c0, mid, src));
    match src {
        Err(e) => Err(e),
        Ok(v) => {
            let reg = reg_dy(core.ir);
            let dst = core.dar[reg];
            let res = common::sub_8(core, dst, v);
            set_reg(core, reg, merge(dst, res, 8));
            Ok(Cycles(8))
        },
    }
}

/// What `subi_8_ai` does: the core goes from `c0` to `c1` and `r` comes back.
pub open spec fn subi_8_ai_effect(c0: ConfiguredCore, c1: ConfiguredCore, r: Result<Cycles>) -> bool {
    &&& exists|m1: ConfiguredCore, src: Result<u32>|
            #[trigger] operator::imm_8_rel(c0, m1, src) && match src {
                Err(e) => r == Err::<Cycles, Exception>(e) && c1 == m1,
                Ok(v) => exists|m2: ConfiguredCore, d: Result<(u32, u32)>|
                    #[trigger] operator::ea_ay_ai_8_rel(m1, m2, d) && match d {
                        Err(e) => r == Err::<Cycles, Exception>(e) && c1 == m2,
                        Ok((dv, ea)) => {
                            let o = common::sub_8_outcome(m2, dv, v);
                            stored(o.0, c1, 8, ea, merged(dv, o.1, 8), r, 16)
                        },
                    },
            }
}

pub fn subi_8_ai(core: &mut ConfiguredCore) -> (r: Result<Cycles>)
    requires
        old(core).wf(),
    ensures
        final(core).wf(),
        subi_8_ai_effect(*old(core), *final(core), r),
{
    let ghost c0 = *core;
    let src = operator::imm_8(core);
    let ghost m1 = *core;
    assert(operator::imm_8_rel(c0, m1, src));
    let v = match src {
        Err(e) => {
            return Err(e);
        },
        Ok(v) => v,
    };
    let d = operator::ea_ay_ai_8(core);
    let ghost m2 = *core;
    assert(operator::ea_ay_ai_8_rel(m1, m2, d));
    let (dv, ea) = match d {
        Err(e) => {
            return Err(e);
        },
        Ok(p) => p,
    };
    let res = common::sub_8(core, dv, v);
    store(core, 8, ea, merge(dv, res, 8), 16)
}

/// What `subi_8_pi` does: the core goes from `c0` to `c1` and `r` comes back.
pub open spec fn subi_8_pi_effect(c0: ConfiguredCore, c1: ConfiguredCore, r: Result<Cycles>) -> bool {
    &&& exists|m1: ConfiguredCore, src: Result<u32>|
            #[trigger] operator::imm_8_rel(c0, m1, src) && match src {
                Err(e) => r == Err::<Cycles, Exception>(e) && c1 == m1,
                Ok(v) => exists|m2: ConfiguredCore, d: Result<(u32, u32)>|
                    #[trigger] operator::ea_ay_pi_8_rel(m1, m2, d) && match d {
                        Err(e) => r == Err::<Cycles, Exception>(e) && c1 == m2,
                        Ok((dv, ea)) => {
                            let o = common::sub_8_outcome(m2, dv, v);
                            stored(o.0, c1, 8, ea, merged(dv, o.1, 8), r, 16)
                        },
                    },
            }
}

pub fn subi_8_pi(core: &mut ConfiguredCore) -> (r: Result<Cycles>)
    requires
        old(core).wf(),
    ensures
        final(core).wf(),
        subi_8_pi_effect(*old(core), *final(core), r),
{
    let ghost c0 = *core;
    let src = operator::imm_8(core);
    let ghost m1 = *core;
    assert(operator::imm_8_rel(c0, m1, src));
    let v = match src {
        Err(e) => {
            return Err(e);
        },
        Ok(v) => v,
    };
    let d = operator::ea_ay_pi_8(core);
    let ghost m2 = *core;
    assert(operator::ea_ay_pi_8_rel(m1, m2, d));
    let (dv, ea) = match d {
        Err(e) => {
            return Err(e);
        },
        Ok(p) => p,
    };
    let res = common::sub_8(core, dv, v);
    store(core, 8, ea, merge(dv, res, 8), 16)
}

/// What `subi_8_pd` does: the core goes from `c0` to `c1` and `r` comes back.
pub open spec fn subi_8_pd_effect(c0: ConfiguredCore, c1: ConfiguredCore, r: Result<Cycles>) -> bool {
    &&& exists|m1: ConfiguredCore, src: Result<u32>|
            #[trigger] operator::imm_8_rel(c0, m1, src) && match src {
                Err(e) => r == Err::<Cycles, Exception>(e) && c1 == m1,
                Ok(v) => exists|m2: ConfiguredCore, d: Result<(u32, u32)>|
                    #[trigger] operator::ea_ay_pd_8_rel(m1, m2, d) && match d {
                        Err(e) => r == Err::<Cycles, Exception>(e) && c1 == m2,
                        Ok((dv, ea)) => {
                            let o = common::sub_8_outcome(m2, dv, v);
                            stored(o.0, c1, 8, ea, merged(dv, o.1, 8), r, 18)
                        },
                    },
            }
}

pub fn subi_8_pd(core: &mut ConfiguredCore) -> (r: Result<Cycles>)
    requires
        old(core).wf(),
    ensures
        final(core).wf(),
        subi_8_pd_effect(*old(core), *final(core), r),
{
    let ghost c0 = *core;
    let src = operator::imm_8(core);
    let ghost m1 = *core;
    assert(operator::imm_8_rel(c0, m1, src));
    let v = match src {
        Err(e) => {
            return Err(e);
        },
        Ok(v) => v,
    };
    let d = operator::ea_ay_pd_8(core);
    let ghost m2 = *core;
    assert(operator::ea_ay_pd_8_rel(m1, m2, d));
    let (dv, ea) = match d {
        Err(e) => {
            return Err(e);
        },
        Ok(p) => p,
    };
    let res = common::sub_8(core, dv, v);
    store(core, 8, ea, merge(dv, res, 8), 18)
}

/// What `subi_8_di` does: the core goes from `c0` to `c1` and `r` comes back.
pub open spec fn subi_8_di_effect(c0: ConfiguredCore, c1: ConfiguredCore, r: Result<Cycles>) -> bool {
    &&& exists|m1: ConfiguredCore, src: Result<u32>|
            #[trigger] operator::imm_8_rel(c0, m1, src) && match src {
                Err(e) => r == Err::<Cycles, Exception>(e) && c1 == m1,
                Ok(v) => exists|m2: ConfiguredCore, d: Result<(u32, u32)>|
                    #[trigger] operator::ea_ay_di_8_rel(m1, m2, d) && match d {
                        Err(e) => r == Err::<Cycles, Exception>(e) && c1 == m2,
                        Ok((dv, ea)) => {
                            let o = common::sub_8_outcome(m2, dv, v);
                            stored(o.0, c1, 8, ea, merged(dv, o.1, 8), r, 20)
                        },
                    },
            }
}

pub fn subi_8_di(core: &mut ConfiguredCore) -> (r: Result<Cycles>)
    requires
        old(core).wf(),
    ensures
        final(core).wf(),
        subi_8_di_effect(*old(core), *final(core), r),
{
    let ghost c0 = *core;
    let src = operator::imm_8(core);
    let ghost m1 = *core;
    assert(operator::imm_8_rel(c0, m1, src));
    let v = match src {
        Err(e) => {
            return Err(e);
        },
        Ok(v) => v,
    };
    let d = operator::ea_ay_di_8(core);
    let ghost m2 = *core;
    assert(operator::ea_ay_di_8_rel(m1, m2, d));
    let (dv, ea) = match d {
        Err(e) => {
            return Err(e);
        },
        Ok(p) => p,
    };
    let res = common::sub_8(core, dv, v);
    store(core, 8, ea, merge(dv, res, 8), 20)
}

/// What `subi_8_ix` does: the core goes from `c0` to `c1` and `r` comes back.
pub open spec fn subi_8_ix_effect(c0: ConfiguredCore, c1: ConfiguredCore, r: Result<Cycles>) -> bool {
    &&& exists|m1: ConfiguredCore, src: Result<u32>|
            #[trigger] operator::imm_8_rel(c0, m1, src) && match src {
                Err(e) => r == Err::<Cycles, Exception>(e) && c1 == m1,
                Ok(v) => exists|m2: ConfiguredCore, d: Result<(u32, u32)>|
                    #[trigger] operator::ea_ay_ix_8_rel(m1, m2, d) && match d {
                        Err(e) => r == Err::<Cycles, Exception>(e) && c1 == m2,
                        Ok((dv, ea)) => {
                            let o = common::sub_8_outcome(m2, dv, v);
                            stored(o.0, c1, 8, ea, merged(dv, o.1, 8), r, 22)
                        },
                    },
            }
}

pub fn subi_8_ix(core: &mut ConfiguredCore) -> (r: Result<Cycles>)
    requires
        old(core).wf(),
    ensures
        final(core).wf(),
        subi_8_ix_effect(*old(core), *final(core), r),
{
    let ghost c0 = *core;
    let src = operator::imm_8(core);
    let ghost m1 = *core;
    assert(operator::imm_8_rel(c0, m1, src));
    let v = match src {
        Err(e) => {
            return Err(e);
        },
        Ok(v) => v,
    };
    let d = operator::ea_ay_ix_8(core);
    let ghost m2 = *core;
    assert(operator::ea_ay_ix_8_rel(m1, m2, d));
    let (dv, ea) = match d {
        Err(e) => {
            return Err(e);
        },
        Ok(p) => p,
    };
    let res = common::sub_8(core, dv, v);
    store(core, 8, ea, merge(dv, res, 8), 22)
}

/// What `subi_8_aw` does: the core goes from `c0` to `c1` and `r` comes back.
pub open spec fn subi_8_aw_effect(c0: ConfiguredCore, c1: ConfiguredCore, r: Result<Cycles>) -> bool {
    &&& exists|m1: ConfiguredCore, src: Result<u32>|
            #[trigger] operator::imm_8_rel(c0, m1, src) && match src {
                Err(e) => r == Err::<Cycles, Exception>(e) && c1 == m1,
                Ok(v) => exists|m2: ConfiguredCore, d: Result<(u32, u32)>|
                    #[trigger] operator::ea_aw_8_rel(m1, m2, d) && match d {
                        Err(e) => r == Err::<Cycles, Exception>(e) && c1 == m2,
                        Ok((dv, ea)) => {
                            let o = common::sub_8_outcome(m2, dv, v);
                            stored(o.0, c1, 8, ea, merged(dv, o.1, 8), r, 20)
                        },
                    },
            }
}

pub fn subi_8_aw(core: &mut ConfiguredCore) -> (r: Result<Cycles>)
    requires
        old(core).wf(),
    ensures
        final(core).wf(),
        subi_8_aw_effect(*old(core), *final(core), r),
{
    let ghost c0 = *core;
    let src = operator::imm_8(core);
    let ghost m1 = *core;
    assert(operator::imm_8_rel(c0, m1, src));
    let v = match src {
        Err(e) => {
            return Err(e);
        },
        Ok(v) => v,
    };
    let d = operator::ea_aw_8(core);
    let ghost m2 = *core;
    assert(operator::ea_aw_8_rel(m1, m2, d));
    let (dv, ea) = match d {
        Err(e) => {
            return Err(e);
        },
        Ok(p) => p,
    };
    let res = common::sub_8(core, dv, v);
    store(core, 8, ea, merge(dv, res, 8), 20)
}

/// What `subi_8_al` does: the core goes from `c0` to `c1` and `r` comes back.
pub open spec fn subi_8_al_effect(c0: ConfiguredCore, c1: ConfiguredCore, r: Result<Cycles>) -> bool {
    &&& exists|m1: ConfiguredCore, src: Result<u32>|
            #[trigger] operator::imm_8_rel(c0, m1, src) && match src {
                Err(e) => r == Err::<Cycles, Exception>(e) && c1 == m1,
                Ok(v) => exists|m2: ConfiguredCore, d: Result<(u32, u32)>|
                    #[trigger] operator::ea_al_8_rel(m1, m2, d) && match d {
                        Err(e) => r == Err::<Cycles, Exception>(e) && c1 == m2,
                        Ok((dv, ea)) => {
                            let o = common::sub_8_outcome(m2, dv, v);
                            stored(o.0, c1, 8, ea, merged(dv, o.1, 8), r, 24)
                        },
                    },
            }
}

pub fn subi_8_al(core: &mut ConfiguredCore) -> (r: Result<Cycles>)
    requires
        old(core).wf(),
    ensures
        final(core).wf(),
        subi_8_al_effect(*old(core), *final(core), r),
{
    let ghost c0 = *core;
    let src = operator::imm_8(core);
    let ghost m1 = *core;
    assert(operator::imm_8_rel(c0, m1, src));
    let v = match src {
        Err(e) => {
            return Err(e);
        },
        Ok(v) => v,
    };
    let d = operator::ea_al_8(core);
    let ghost m2 = *core;
    assert(operator::ea_al_8_rel(m1, m2, d));
    let (dv, ea) = match d {
        Err(e) => {
            return Err(e);
        },
        Ok(p) => p,
    };
    let res = common::sub_8(core, dv, v);
    store(core, 8, ea, merge(dv, res, 8), 24)
}

/// What `subi_16_dn` does: the core goes from `c0` to `c1` and `r` comes back.
pub open spec fn subi_16_dn_effect(c0: ConfiguredCore, c1: ConfiguredCore, r: Result<Cycles>) -> bool {
    &&& exists|mid: ConfiguredCore, src: Result<u32>|
            #[trigger] operator::imm_16_rel(c0, mid, src) && match src {
                Err(e) => r == Err::<Cycles, Exception>(e) && c1 == mid,
                Ok(v) => {
                    let reg = ir_dy(mid.ir);
                    let o = common::sub_16_outcome(mid, mid.dar[reg], v);
                    &&& r == Ok::<Cycles, Exception>(Cycles(8))
                    &&& reg_set(o.0, c1, reg, merged(mid.dar[reg], o.1, 16))
                },
            }
}

pub fn subi_16_dn(core: &mut ConfiguredCore) -> (r: Result<Cycles>)
    requires
        old(core).wf(),
    ensures
        final(core).wf(),
        subi_16_dn_effect(*old(core), *final(core), r),
{
    let ghost c0 = *core;
    let src = operator::imm_16(core);
    let ghost mid = *core;
    assert(operator::imm_16_rel(c0, mid, src));
    match src {
        Err(e) => Err(e),
        Ok(v) => {
            let reg = reg_dy(core.ir);
            let dst = core.dar[reg];
            let res = common::sub_16(core, dst, v);
            set_reg(core, reg, merge(dst, res, 16));
            Ok(Cycles(8))
        },
    }
}

/// What `subi_16_ai` does: the core goes from `c0` to `c1` and `r` comes back.
pub open spec fn subi_16_ai_effect(c0: ConfiguredCore, c1: ConfiguredCore, r: Result<Cycles>) -> bool {
    &&& exists|m1: ConfiguredCore, src: Result<u32>|
            #[trigger] operator::imm_16_rel(c0, m1, src) && match src {
                Err(e) => r == Err::<Cycles, Exception>(e) && c1 == m1,
                Ok(v) => exists|m2: ConfiguredCore, d: Result<(u32, u32)>|
                    #[trigger] operator::ea_ay_ai_16_rel(m1, m2, d) && match d {
                        Err(e) => r == Err::<Cycles, Exception>(e) && c1 == m2,
                        Ok((dv, ea)) => {
                            let o = common::sub_16_outcome(m2, dv, v);
                            stored(o.0, c1, 16, ea, merged(dv, o.1, 16), r, 16)
                        },
                    },
            }
}

pub fn subi_16_ai(core: &mut ConfiguredCore) -> (r: Result<Cycles>)
    requires
        old(core).wf(),
    ensures
        final(core).wf(),
        subi_16_ai_effect(*old(core), *final(core), r),
{
    let ghost c0 = *core;
    let src = operator::imm_16(core);
    let ghost m1 = *core;
    assert(operator::imm_16_rel(c0, m1, src));
    let v = match src {
        Err(e) => {
            return Err(e);
        },
        Ok(v) => v,
    };
    let d = operator::ea_ay_ai_16(core);
    let ghost m2 = *core;
    assert(operator::ea_ay_ai_16_rel(m1, m2, d));
    let (dv, ea) = match d {
        Err(e) => {
            return Err(e);
        },
        Ok(p) => p,
    };
    let res = common::sub_16(core, dv, v);
    store(core, 16, ea, merge(dv, res, 16), 16)
}

/// What `subi_16_pi` does: the core goes from `c0` to `c1` and `r` comes back.
pub open spec fn subi_16_pi_effect(c0: ConfiguredCore, c1: ConfiguredCore, r: Result<Cycles>) -> bool {
    &&& exists|m1: ConfiguredCore, src: Result<u32>|
            #[trigger] operator::imm_16_rel(c0, m1, src) && match src {
                Err(e) => r == Err::<Cycles, Exception>(e) && c1 == m1,
                Ok(v) => exists|m2: ConfiguredCore, d: Result<(u32, u32)>|
                    #[trigger] operator::ea_ay_pi_16_rel(m1, m2, d) && match d {
                        Err(e) => r == Err::<Cycles, Exception>(e) && c1 == m2,
                        Ok((dv, ea)) => {
                            let o = common::sub_16_outcome(m2, dv, v);
                            stored(o.0, c1, 16, ea, merged(dv, o.1, 16), r, 16)
                        },
                    },
            }
}

pub fn subi_16_pi(core: &mut ConfiguredCore) -> (r: Result<Cycles>)
    requires
        old(core).wf(),
    ensures
        final(core).wf(),
        subi_16_pi_effect(*old(core), *final(core), r),
{
    let ghost c0 = *core;
    let src = operator::imm_16(core);
    let ghost m1 = *core;
    assert(operator::imm_16_rel(c0, m1, src));
    let v = match src {
        Err(e) => {
            return Err(e);
        },
        Ok(v) => v,
    };
    let d = operator::ea_ay_pi_16(core);
    let ghost m2 = *core;
    assert(operator::ea_ay_pi_16_rel(m1, m2, d));
    let (dv, ea) = match d {
        Err(e) => {
            return Err(e);
        },
        Ok(p) => p,
    };
    let res = common::sub_16(core, dv, v);
    store(core, 16, ea, merge(dv, res, 16), 16)
}

/// What `subi_16_pd` does: the core goes from `c0` to `c1` and `r` comes back.
pub open spec fn subi_16_pd_effect(c0: ConfiguredCore, c1: ConfiguredCore, r: Result<Cycles>) -> bool {
    &&& exists|m1: ConfiguredCore, src: Result<u32>|
            #[trigger] operator::imm_16_rel(c0, m1, src) && match src {
                Err(e) => r == Err::<Cycles, Exception>(e) && c1 == m1,
                Ok(v) => exists|m2: ConfiguredCore, d: Result<(u32, u32)>|
                    #[trigger] operator::ea_ay_pd_16_rel(m1, m2, d) && match d {
                        Err(e) => r == Err::<Cycles, Exception>(e) && c1 == m2,
                        Ok((dv, ea)) => {
                            let o = common::sub_16_outcome(m2, dv, v);
                            stored(o.0, c1, 16, ea, merged(dv, o.1, 16), r, 18)
                        },
                    },
            }
}

pub fn subi_16_pd(core: &mut ConfiguredCore) -> (r: Result<Cycles>)
    requires
        old(core).wf(),
    ensures
        final(core).wf(),
        subi_16_pd_effect(*old(core), *final(core), r),
{
    let ghost c0 = *core;
    let src = operator::imm_16(core);
    let ghost m1 = *core;
    assert(operator::imm_16_rel(c0, m1, src));
    let v = match src {
        Err(e) => {
            return Err(e);
        },
        Ok(v) => v,
    };
    let d = operator::ea_ay_pd_16(core);
    let ghost m2 = *core;
    assert(operator::ea_ay_pd_16_rel(m1, m2, d));
    let (dv, ea) = match d {
        Err(e) => {
            return Err(e);
        },
        Ok(p) => p,
    };
    let res = common::sub_16(core, dv, v);
    store(core, 16, ea, merge(dv, res, 16), 18)
}

/// What `subi_16_di` does: the core goes from `c0` to `c1` and `r` comes back.
pub open spec fn subi_16_di_effect(c0: ConfiguredCore, c1: ConfiguredCore, r: Result<Cycles>) -> bool {
    &&& exists|m1: ConfiguredCore, src: Result<u32>|
            #[trigger] operator::imm_16_rel(c0, m1, src) && match src {
                Err(e) => r == Err::<Cycles, Exception>(e) && c1 == m1,
                Ok(v) => exists|m2: ConfiguredCore, d: Result<(u32, u32)>|
                    #[trigger] operator::ea_ay_di_16_rel(m1, m2, d) && match d {
                        Err(e) => r == Err::<Cycles, Exception>(e) && c1 == m2,
                        Ok((dv, ea)) => {
                            let o = common::sub_16_outcome(m2, dv, v);
                            stored(o.0, c1, 16, ea, merged(dv, o.1, 16), r, 20)
                        },
                    },
            }
}

pub fn subi_16_di(core: &mut ConfiguredCore) -> (r: Result<Cycles>)
    requires
        old(core).wf(),
    ensures
        final(core).wf(),
        subi_16_di_effect(*old(core), *final(core), r),
{
    let ghost c0 = *core;
    let src = operator::imm_16(core);
    let ghost m1 = *core;
    assert(operator::imm_16_rel(c0, m1, src));
    let v = match src {
        Err(e) => {
            return Err(e);
        },
        Ok(v) => v,
    };
    let d = operator::ea_ay_di_16(core);
    let ghost m2 = *core;
    assert(operator::ea_ay_di_16_rel(m1, m2, d));
    let (dv, ea) = match d {
        Err(e) => {
            return Err(e);
        },
        Ok(p) => p,
    };
    let res = common::sub_16(core, dv, v);
    store(core, 16, ea, merge(dv, res, 16), 20)
}

/// What `subi_16_ix` does: the core goes from `c0` to `c1` and `r` comes back.
pub open spec fn subi_16_ix_effect(c0: ConfiguredCore, c1: ConfiguredCore, r: Result<Cycles>) -> bool {
    &&& exists|m1: ConfiguredCore, src: Result<u32>|
            #[trigger] operator::imm_16_rel(c0, m1, src) && match src {
                Err(e) => r == Err::<Cycles, Exception>(e) && c1 == m1,
                Ok(v) => exists|m2: ConfiguredCore, d: Result<(u32, u32)>|
                    #[trigger] operator::ea_ay_ix_16_rel(m1, m2, d) && match d {
                        Err(e) => r == Err::<Cycles, Exception>(e) && c1 == m2,
                        Ok((dv, ea)) => {
                            let o = common::sub_16_outcome(m2, dv, v);
                            stored(o.0, c1, 16, ea, merged(dv, o.1, 16), r, 22)
                        },
                    },
            }
}

pub fn subi_16_ix(core: &mut ConfiguredCore) -> (r: Result<Cycles>)
    requires
        old(core).wf(),
    ensures
        final(core).wf(),
        subi_16_ix_effect(*old(core), *final(core), r),
{
    let ghost c0 = *core;
    let src = operator::imm_16(core);
    let ghost m1 = *core;
    assert(operator::imm_16_rel(c0, m1, src));
    let v = match src {
        Err(e) => {
            return Err(e);
        },
        Ok(v) => v,
    };
    let d = operator::ea_ay_ix_16(core);
    let ghost m2 = *core;
    assert(operator::ea_ay_ix_16_rel(m1, m2, d));
    let (dv, ea) = match d {
        Err(e) => {
            return Err(e);
        },
        Ok(p) => p,
    };
    let res = common::sub_16(core, dv, v);
    store(core, 16, ea, merge(dv, res, 16), 22)
}

/// What `subi_16_aw` does: the core goes from `c0` to `c1` and `r` comes back.
pub open spec fn subi_16_aw_effect(c0: ConfiguredCore, c1: ConfiguredCore, r: Result<Cycles>) -> bool {
    &&& exists|m1: ConfiguredCore, src: Result<u32>|
            #[trigger] operator::imm_16_rel(c0, m1, src) && match src {
                Err(e) => r == Err::<Cycles, Exception>(e) && c1 == m1,
                Ok(v) => exists|m2: ConfiguredCore, d: Result<(u32, u32)>|
                    #[trigger] operator::ea_aw_16_rel(m1, m2, d) && match d {
                        Err(e) => r == Err::<Cycles, Exception>(e) && c1 == m2,
                        Ok((dv, ea)) => {
                            let o = common::sub_16_outcome(m2, dv, v);
                            stored(o.0, c1, 16, ea, merged(dv, o.1, 16), r, 20)
                        },
                    },
            }
}

pub fn subi_16_aw(core: &mut ConfiguredCore) -> (r: Result<Cycles>)
    requires
        old(core).wf(),
    ensures
        final(core).wf(),
        subi_16_aw_effect(*old(core), *final(core), r),
{
    let ghost c0 = *core;
    let src = operator::imm_16(core);
    let ghost m1 = *core;
    assert(operator::imm_16_rel(c0, m1, src));
    let v = match src {
        Err(e) => {
            return Err(e);
        },
        Ok(v) => v,
    };
    let d = operator::ea_aw_16(core);
    let ghost m2 = *core;
    assert(operator::ea_aw_16_rel(m1, m2, d));
    let (dv, ea) = match d {
        Err(e) => {
            return Err(e);
        },
        Ok(p) => p,
    };
    let res = common::sub_16(core, dv, v);
    store(core, 16, ea, merge(dv, res, 16), 20)
}

/// What `subi_16_al` does: the core goes from `c0` to `c1` and `r` comes back.
pub open spec fn subi_16_al_effect(c0: ConfiguredCore, c1: ConfiguredCore, r: Result<Cycles>) -> bool {
    &&& exists|m1: ConfiguredCore, src: Result<u32>|
            #[trigger] operator::imm_16_rel(c0, m1, src) && match src {
                Err(e) => r == Err::<Cycles, Exception>(e) && c1 == m1,
                Ok(v) => exists|m2: ConfiguredCore, d: Result<(u32, u32)>|
                    #[trigger] operator::ea_al_16_rel(m1, m2, d) && match d {
                        Err(e) => r == Err::<Cycles, Exception>(e) && c1 == m2,
                        Ok((dv, ea)) => {
                            let o = common::sub_16_outcome(m2, dv, v);
                            stored(o.0, c1, 16, ea, merged(dv, o.1, 16), r, 24)
                        },
                    },
            }
}

pub fn subi_16_al(core: &mut ConfiguredCore) -> (r: Result<Cycles>)
    requires
        old(core).wf(),
    ensures
        final(core).wf(),
        subi_16_al_effect(*old(core), *final(core), r),
{
    let ghost c0 = *core;
    let src = operator::imm_16(core);
    let ghost m1 = *core;
    assert(operator::imm_16_rel(c0, m1, src));
    let v = match src {
        Err(e) => {
            return Err(e);
        },
        Ok(v) => v,
    };
    let d = operator::ea_al_16(core);
    let ghost m2 = *core;
    assert(operator::ea_al_16_rel(m1, m2, d));
    let (dv, ea) = match d {
        Err(e) => {
            return Err(e);
        },
        Ok(p) => p,
    };
    let res = common::sub_16(core, dv, v);
    store(core, 16, ea, merge(dv, res, 16), 24)
}

/// What `subi_32_dn` does: the core goes from `c0` to `c1` and `r` comes back.
pub open spec fn subi_32_dn_effect(c0: ConfiguredCore, c1: ConfiguredCore, r: Result<Cycles>) -> bool {
    &&& exists|mid: ConfiguredCore, src: Result<u32>|
            #[trigger] operator::imm_32_rel(c0, mid, src) && match src {
                Err(e) => r == Err::<Cycles, Exception>(e) && c1 == mid,
                Ok(v) => {
                    let reg = ir_dy(mid.ir);
                    let o = common::sub_32_outcome(mid, mid.dar[reg], v);
                    &&& r == Ok::<Cycles, Exception>(Cycles(16))
                    &&& reg_set(o.0, c1, reg, merged(mid.dar[reg], o.1, 32))
                },
            }
}

pub fn subi_32_dn(core: &mut ConfiguredCore) -> (r: Result<Cycles>)
    requires
        old(core).wf(),
    ensures
        final(core).wf(),
        subi_32_dn_effect(*old(core), *final(core), r),
{
    let ghost c0 = *core;
    let src = operator::imm_32(core);
    let ghost mid = *core;
    assert(operator::imm_32_rel(c0, mid, src));
    match src {
        Err(e) => Err(e),
        Ok(v) => {
            let reg = reg_dy(core.ir);
            let dst = core.dar[reg];
            let res = common::sub_32(core, dst, v);
            set_reg(core, reg, merge(dst, res, 32));
            Ok(Cycles(16))
        },
    }
}

/// What `subi_32_ai` does: the core goes from `c0` to `c1` and `r` comes back.
pub open spec fn subi_32_ai_effect(c0: ConfiguredCore, c1: ConfiguredCore, r: Result<Cycles>) -> bool {
    &&& exists|m1: ConfiguredCore, src: Result<u32>|
            #[trigger] operator::imm_32_rel(c0, m1, src) && match src {
                Err(e) => r == Err::<Cycles, Exception>(e) && c1 == m1,
                Ok(v) => exists|m2: ConfiguredCore, d: Result<(u32, u32)>|
                    #[trigger] operator::ea_ay_ai_32_rel(m1, m2, d) && match d {
                        Err(e) => r == Err::<Cycles, Exception>(e) && c1 == m2,
                        Ok((dv, ea)) => {
                            let o = common::sub_32_outcome(m2, dv, v);
                            stored(o.0, c1, 32, ea, merged(dv, o.1, 32), r, 28)
                        },
                    },
            }
}

pub fn subi_32_ai(core: &mut ConfiguredCore) -> (r: Result<Cycles>)
    requires
        old(core).wf(),
    ensures
        final(core).wf(),
        subi_32_ai_effect(*old(core), *final(core), r),
{
    let ghost c0 = *core;
    let src = operator::imm_32(core);
    let ghost m1 = *core;
    assert(operator::imm_32_rel(c0, m1, src));
    let v = match src {
        Err(e) => {
            return Err(e);
        },
        Ok(v) => v,
    };
    let d = operator::ea_ay_ai_32(core);
    let ghost m2 = *core;
    assert(operator::ea_ay_ai_32_rel(m1, m2, d));
    let (dv, ea) = match d {
        Err(e) => {
            return Err(e);
        },
        Ok(p) => p,
    };
    let res = common::sub_32(core, dv, v);
    store(core, 32, ea, merge(dv, res, 32), 28)
}

/// What `subi_32_pi` does: the core goes from `c0` to `c1` and `r` comes back.
pub open spec fn subi_32_pi_effect(c0: ConfiguredCore, c1: ConfiguredCore, r: Result<Cycles>) -> bool {
    &&& exists|m1: ConfiguredCore, src: Result<u32>|
            #[trigger] operator::imm_32_rel(c0, m1, src) && match src {
                Err(e) => r == Err::<Cycles, Exception>(e) && c1 == m1,
                Ok(v) => exists|m2: ConfiguredCore, d: Result<(u32, u32)>|
                    #[trigger] operator::ea_ay_pi_32_rel(m1, m2, d) && match d {
                        Err(e) => r == Err::<Cycles, Exception>(e) && c1 == m2,
                        Ok((dv, ea)) => {
                            let o = common::sub_32_outcome(m2, dv, v);
                            stored(o.0, c1, 32, ea, merged(dv, o.1, 32), r, 28)
                        },
                    },
            }
}

pub fn subi_32_pi(core: &mut ConfiguredCore) -> (r: Result<Cycles>)
    requires
        old(core).wf(),
    ensures
        final(core).wf(),
        subi_32_pi_effect(*old(core), *final(core), r),
{
    let ghost c0 = *core;
    let src = operator::imm_32(core);
    let ghost m1 = *core;
    assert(operator::imm_32_rel(c0, m1, src));
    let v = match src {
        Err(e) => {
            return Err(e);
        },
        Ok(v) => v,
    };
    let d = operator::ea_ay_pi_32(core);
    let ghost m2 = *core;
    assert(operator::ea_ay_pi_32_rel(m1, m2, d));
    let (dv, ea) = match d {
        Err(e) => {
            return Err(e);
        },
        Ok(p) => p,
    };
    let res = common::sub_32(core, dv, v);
    store(core, 32, ea, merge(dv, res, 32), 28)
}

/// What `subi_32_pd` does: the core goes from `c0` to `c1` and `r` comes back.
pub open spec fn subi_32_pd_effect(c0: ConfiguredCore, c1: ConfiguredCore, r: Result<Cycles>) -> bool {
    &&& exists|m1: ConfiguredCore, src: Result<u32>|
            #[trigger] operator::imm_32_rel(c0, m1, src) && match src {
                Err(e) => r == Err::<Cycles, Exception>(e) && c1 == m1,
                Ok(v) => exists|m2: ConfiguredCore, d: Result<(u32, u32)>|
                    #[trigger] operator::ea_ay_pd_32_rel(m1, m2, d) && match d {
                        Err(e) => r == Err::<Cycles, Exception>(e) && c1 == m2,
                        Ok((dv, ea)) => {
                            let o = common::sub_32_outcome(m2, dv, v);
                            stored(o.0, c1, 32, ea, merged(dv, o.1, 32), r, 30)
                        },
                    },
            }
}

pub fn subi_32_pd(core: &mut ConfiguredCore) -> (r: Result<Cycles>)
    requires
        old(core).wf(),
    ensures
        final(core).wf(),
        subi_32_pd_effect(*old(core), *final(core), r),
{
    let ghost c0 = *core;
    let src = operator::imm_32(core);
    let ghost m1 = *core;
    assert(operator::imm_32_rel(c0, m1, src));
    let v = match src {
        Err(e) => {
            return Err(e);
        },
        Ok(v) => v,
    };
    let d = operator::ea_ay_pd_32(core);
    let ghost m2 = *core;
    assert(operator::ea_ay_pd_32_rel(m1, m2, d));
    let (dv, ea) = match d {
        Err(e) => {
            return Err(e);
        },
        Ok(p) => p,
    };
    let res = common::sub_32(core, dv, v);
    store(core, 32, ea, merge(dv, res, 32), 30)
}

/// What `subi_32_di` does: the core goes from `c0` to `c1` and `r` comes back.
pub open spec fn subi_32_di_effect(c0: ConfiguredCore, c1: ConfiguredCore, r: Result<Cycles>) -> bool {
    &&& exists|m1: ConfiguredCore, src: Result<u32>|
            #[trigger] operator::imm_32_rel(c0, m1, src) && match src {
                Err(e) => r == Err::<Cycles, Exception>(e) && c1 == m1,
                Ok(v) => exists|m2: ConfiguredCore, d: Result<(u32, u32)>|
                    #[trigger] operator::ea_ay_di_32_rel(m1, m2, d) && match d {
                        Err(e) => r == Err::<Cycles, Exception>(e) && c1 == m2,
                        Ok((dv, ea)) => {
                            let o = common::sub_32_outcome(m2, dv, v);
                            stored(o.0, c1, 32, ea, merged(dv, o.1, 32), r, 32)
                        },
                    },
            }
}

pub fn subi_32_di(core: &mut ConfiguredCore) -> (r: Result<Cycles>)
    requires
        old(core).wf(),
    ensures
        final(core).wf(),
        subi_32_di_effect(*old(core), *final(core), r),
{
    let ghost c0 = *core;
    let src = operator::imm_32(core);
    let ghost m1 = *core;
    assert(operator::imm_32_rel(c0, m1, src));
    let v = match src {
        Err(e) => {
            return Err(e);
        },
        Ok(v) => v,
    };
    let d = operator::ea_ay_di_32(core);
    let ghost m2 = *core;
    assert(operator::ea_ay_di_32_rel(m1, m2, d));
    let (dv, ea) = match d {
        Err(e) => {
            return Err(e);
        },
        Ok(p) => p,
    };
    let res = common::sub_32(core, dv, v);
    store(core, 32, ea, merge(dv, res, 32), 32)
}

/// What `subi_32_ix` does: the core goes from `c0` to `c1` and `r` comes back.
pub open spec fn subi_32_ix_effect(c0: ConfiguredCore, c1: ConfiguredCore, r: Result<Cycles>) -> bool {
    &&& exists|m1: ConfiguredCore, src: Result<u32>|
            #[trigger] operator::imm_32_rel(c0, m1, src) && match src {
                Err(e) => r == Err::<Cycles, Exception>(e) && c1 == m1,
                Ok(v) => exists|m2: ConfiguredCore, d: Result<(u32, u32)>|
                    #[trigger] operator::ea_ay_ix_32_rel(m1, m2, d) && match d {
                        Err(e) => r == Err::<Cycles, Exception>(e) && c1 == m2,
                        Ok((dv, ea)) => {
                            let o = common::sub_32_outcome(m2, dv, v);
                            stored(o.0, c1, 32, ea, merged(dv, o.1, 32), r, 34)
                        },
                    },
            }
}

pub fn subi_32_ix(core: &mut ConfiguredCore) -> (r: Result<Cycles>)
    requires
        old(core).wf(),
    ensures
        final(core).wf(),
        subi_32_ix_effect(*old(core), *final(core), r),
{
    let ghost c0 = *core;
    let src = operator::imm_32(core);
    let ghost m1 = *core;
    assert(operator::imm_32_rel(c0, m1, src));
    let v = match src {
        Err(e) => {
            return Err(e);
        },
        Ok(v) => v,
    };
    let d = operator::ea_ay_ix_32(core);
    let ghost m2 = *core;
    assert(operator::ea_ay_ix_32_rel(m1, m2, d));
    let (dv, ea) = match d {
        Err(e) => {
            return Err(e);
        },
        Ok(p) => p,
    };
    let res = common::sub_32(core, dv, v);
    store(core, 32, ea, merge(dv, res, 32), 34)
}

/// What `subi_32_aw` does: the core goes from `c0` to `c1` and `r` comes back.
pub open spec fn subi_32_aw_effect(c0: ConfiguredCore, c1: ConfiguredCore, r: Result<Cycles>) -> bool {
    &&& exists|m1: ConfiguredCore, src: Result<u32>|
            #[trigger] operator::imm_32_rel(c0, m1, src) && match src {
                Err(e) => r == Err::<Cycles, Exception>(e) && c1 == m1,
                Ok(v) => exists|m2: ConfiguredCore, d: Result<(u32, u32)>|
                    #[trigger] operator::ea_aw_32_rel(m1, m2, d) && match d {
                        Err(e) => r == Err::<Cycles, Exception>(e) && c1 == m2,
                        Ok((dv, ea)) => {
                            let o = common::sub_32_outcome(m2, dv, v);
                            stored(o.0, c1, 32, ea, merged(dv, o.1, 32), r, 32)
                        },
                    },
            }
}

pub fn subi_32_aw(core: &mut ConfiguredCore) -> (r: Result<Cycles>)
    requires
        old(core).wf(),
    ensures
        final(core).wf(),
        subi_32_aw_effect(*old(core), *final(core), r),
{
    let ghost c0 = *core;
    let src = operator::imm_32(core);
    let ghost m1 = *core;
    assert(operator::imm_32_rel(c0, m1, src));
    let v = match src {
        Err(e) => {
            return Err(e);
        },
        Ok(v) => v,
    };
    let d = operator::ea_aw_32(core);
    let ghost m2 = *core;
    assert(operator::ea_aw_32_rel(m1, m2, d));
    let (dv, ea) = match d {
        Err(e) => {
            return Err(e);
        },
        Ok(p) => p,
    };
    let res = common::sub_32(core, dv, v);
    store(core, 32, ea, merge(dv, res, 32), 32)
}

/// What `subi_32_al` does: the core goes from `c0` to `c1` and `r` comes back.
pub open spec fn subi_32_al_effect(c0: ConfiguredCore, c1: ConfiguredCore, r: Result<Cycles>) -> bool {
    &&& exists|m1: ConfiguredCore, src: Result<u32>|
            #[trigger] operator::imm_32_rel(c0, m1, src) && match src {
                Err(e) => r == Err::<Cycles, Exception>(e) && c1 == m1,
                Ok(v) => exists|m2: ConfiguredCore, d: Result<(u32, u32)>|
                    #[trigger] operator::ea_al_32_rel(m1, m2, d) && match d {
                        Err(e) => r == Err::<Cycles, Exception>(e) && c1 == m2,
                        Ok((dv, ea)) => {
                            let o = common::sub_32_outcome(m2, dv, v);
                            stored(o.0, c1, 32, ea, merged(dv, o.1, 32), r, 36)
                        },
                    },
            }
}

pub fn subi_32_al(core: &mut ConfiguredCore) -> (r: Result<Cycles>)
    requires
        old(core).wf(),
    ensures
        final(core).wf(),
        subi_32_al_effect(*old(core), *final(core), r),
{
    let ghost c0 = *core;
    let src = operator::imm_32(core);
    let ghost m1 = *core;
    assert(operator::imm_32_rel(c0, m1, src));
    let v = match src {
        Err(e) => {
            return Err(e);
        },
        Ok(v) => v,
    };
    let d = operator::ea_al_32(core);
    let ghost m2 = *core;
    assert(operator::ea_al_32_rel(m1, m2, d));
    let (dv, ea) = match d {
        Err(e) => {
            return Err(e);
        },
        Ok(p) => p,
    };
    let res = common::sub_32(core, dv, v);
    store(core, 32, ea, merge(dv, res, 32), 36)
}

/// What `subq_8_dn` does: the core goes from `c0` to `c1` and `r` comes back.
pub open spec fn subq_8_dn_effect(c0: ConfiguredCore, c1: ConfiguredCore, r: Result<Cycles>) -> bool {
    &&& exists|mid: ConfiguredCore, src: Result<u32>|
            #[trigger] operator::quick_rel(c0, mid, src) && match src {
                Err(e) => r == Err::<Cycles, Exception>(e) && c1 == mid,
                Ok(v) => {
                    let reg = ir_dy(mid.ir);
                    let o = common::sub_8_outcome(mid, mid.dar[reg], v);
                    &&& r == Ok::<Cycles, Exception>(Cycles(4))
                    &&& reg_set(o.0, c1, reg, merged(mid.dar[reg], o.1, 8))
                },
            }
}

pub fn subq_8_dn(core: &mut ConfiguredCore) -> (r: Result<Cycles>)
    requires
        old(core).wf(),
    ensures
        final(core).wf(),
        subq_8_dn_effect(*old(core), *final(core), r),
{
    let ghost c0 = *core;
    let src = operator::quick(core);
    let ghost mid = *core;
    assert(operator::quick_rel(c0, mid, src));
    match src {
        Err(e) => Err(e),
        Ok(v) => {
            let reg = reg_dy(core.ir);
            let dst = core.dar[reg];
            let res = common::sub_8(core, dst, v);
            set_reg(core, reg, merge(dst, res, 8));
            Ok(Cycles(4))
        },
    }
}

/// What `subq_8_ai` does: the core goes from `c0` to `c1` and `r` comes back.
pub open spec fn subq_8_ai_effect(c0: ConfiguredCore, c1: ConfiguredCore, r: Result<Cycles>) -> bool {
    &&& exists|m1: ConfiguredCore, src: Result<u32>|
            #[trigger] operator::quick_rel(c0, m1, src) && match src {
                Err(e) => r == Err::<Cycles, Exception>(e) && c1 == m1,
                Ok(v) => exists|m2: ConfiguredCore, d: Result<(u32, u32)>|
                    #[trigger] operator::ea_ay_ai_8_rel(m1, m2, d) && match d {
                        Err(e) => r == Err::<Cycles, Exception>(e) && c1 == m2,
                        Ok((dv, ea)) => {
                            let o = common::sub_8_outcome(m2, dv, v);
                            stored(o.0, c1, 8, ea, merged(dv, o.1, 8), r, 12)
                        },
                    },
            }
}

pub fn subq_8_ai(core: &mut ConfiguredCore) -> (r: Result<Cycles>)
    requires
        old(core).wf(),
    ensures
        final(core).wf(),
        subq_8_ai_effect(*old(core), *final(core), r),
{
    let ghost c0 = *core;
    let src = operator::quick(core);
    let ghost m1 = *core;
    assert(operator::quick_rel(c0, m1, src));
    let v = match src {
        Err(e) => {
            return Err(e);
        },
        Ok(v) => v,
    };
    let d = operator::ea_ay_ai_8(core);
    let ghost m2 = *core;
    assert(operator::ea_ay_ai_8_rel(m1, m2, d));
    let (dv, ea) = match d {
        Err(e) => {
            return Err(e);
        },
        Ok(p) => p,
    };
    let res = common::sub_8(core, dv, v);
    store(core, 8, ea, merge(dv, res, 8), 12)
}

/// What `subq_8_pi` does: the core goes from `c0` to `c1` and `r` comes back.
pub open spec fn subq_8_pi_effect(c0: ConfiguredCore, c1: ConfiguredCore, r: Result<Cycles>) -> bool {
    &&& exists|m1: ConfiguredCore, src: Result<u32>|
            #[trigger] operator::quick_rel(c0, m1, src) && match src {
                Err(e) => r == Err::<Cycles, Exception>(e) && c1 == m1,
                Ok(v) => exists|m2: ConfiguredCore, d: Result<(u32, u32)>|
                    #[trigger] operator::ea_ay_pi_8_rel(m1, m2, d) && match d {
                        Err(e) => r == Err::<Cycles, Exception>(e) && c1 == m2,
                        Ok((dv, ea)) => {
                            let o = common::sub_8_outcome(m2, dv, v);
                            stored(o.0, c1, 8, ea, merged(dv, o.1, 8), r, 12)
                        },
                    },
            }
}

pub fn subq_8_pi(core: &mut ConfiguredCore) -> (r: Result<Cycles>)
    requires
        old(core).wf(),
    ensures
        final(core).wf(),
        subq_8_pi_effect(*old(core), *final(core), r),
{
    let ghost c0 = *core;
    let src = operator::quick(core);
    let ghost m1 = *core;
    assert(operator::quick_rel(c0, m1, src));
    let v = match src {
        Err(e) => {
            return Err(e);
        },
        Ok(v) => v,
    };
    let d = operator::ea_ay_pi_8(core);
    let ghost m2 = *core;
    assert(operator::ea_ay_pi_8_rel(m1, m2, d));
    let (dv, ea) = match d {
        Err(e) => {
            return Err(e);
        },
        Ok(p) => p,
    };
    let res = common::sub_8(core, dv, v);
    store(core, 8, ea, merge(dv, res, 8), 12)
}

/// What `subq_8_pd` does: the core goes from `c0` to `c1` and `r` comes back.
pub open spec fn subq_8_pd_effect(c0: ConfiguredCore, c1: ConfiguredCore, r: Result<Cycles>) -> bool {
    &&& exists|m1: ConfiguredCore, src: Result<u32>|
            #[trigger] operator::quick_rel(c0, m1, src) && match src {
                Err(e) => r == Err::<Cycles, Exception>(e) && c1 == m1,
                Ok(v) => exists|m2: ConfiguredCore, d: Result<(u32, u32)>|
                    #[trigger] operator::ea_ay_pd_8_rel(m1, m2, d) && match d {
                        Err(e) => r == Err::<Cycles, Exception>(e) && c1 == m2,
                        Ok((dv, ea)) => {
                            let o = common::sub_8_outcome(m2, dv, v);
                            stored(o.0, c1, 8, ea, merged(dv, o.1, 8), r, 14)
                        },
                    },
            }
}

pub fn subq_8_pd(core: &mut ConfiguredCore) -> (r: Result<Cycles>)
    requires
        old(core).wf(),
    ensures
        final(core).wf(),
        subq_8_pd_effect(*old(core), *final(core), r),
{
    let ghost c0 = *core;
    let src = operator::quick(core);
    let ghost m1 = *core;
    assert(operator::quick_rel(c0, m1, src));
    let v = match src {
        Err(e) => {
            return Err(e);
        },
        Ok(v) => v,
    };
    let d = operator::ea_ay_pd_8(core);
    let ghost m2 = *core;
    assert(operator::ea_ay_pd_8_rel(m1, m2, d));
    let (dv, ea) = match d {
        Err(e) => {
            return Err(e);
        },
        Ok(p) => p,
    };
    let res = common::sub_8(core, dv, v);
    store(core, 8, ea, merge(dv, res, 8), 14)
}

/// What `subq_8_di` does: the core goes from `c0` to `c1` and `r` comes back.
pub open spec fn subq_8_di_effect(c0: ConfiguredCore, c1: ConfiguredCore, r: Result<Cycles>) -> bool {
    &&& exists|m1: ConfiguredCore, src: Result<u32>|
            #[trigger] operator::quick_rel(c0, m1, src) && match src {
                Err(e) => r == Err::<Cycles, Exception>(e) && c1 == m1,
                Ok(v) => exists|m2: ConfiguredCore, d: Result<(u32, u32)>|
                    #[trigger] operator::ea_ay_di_8_rel(m1, m2, d) && match d {
                        Err(e) => r == Err::<Cycles, Exception>(e) && c1 == m2,
                        Ok((dv, ea)) => {
                            let o = common::sub_8_outcome(m2, dv, v);
                            stored(o.0, c1, 8, ea, merged(dv, o.1, 8), r, 16)
                        },
                    },
            }
}

pub fn subq_8_di(core: &mut ConfiguredCore) -> (r: Result<Cycles>)
    requires
        old(core).wf(),
    ensures
        final(core).wf(),
        subq_8_di_effect(*old(core), *final(core), r),
{
    let ghost c0 = *core;
    let src = operator::quick(core);
    let ghost m1 = *core;
    assert(operator::quick_rel(c0, m1, src));
    let v = match src {
        Err(e) => {
            return Err(e);
        },
        Ok(v) => v,
    };
    let d = operator::ea_ay_di_8(core);
    let ghost m2 = *core;
    assert(operator::ea_ay_di_8_rel(m1, m2, d));
    let (dv, ea) = match d {
        Err(e) => {
            return Err(e);
        },
        Ok(p) => p,
    };
    let res = common::sub_8(core, dv, v);
    store(core, 8, ea, merge(dv, res, 8), 16)
}

/// What `subq_8_ix` does: the core goes from `c0` to `c1` and `r` comes back.
pub open spec fn subq_8_ix_effect(c0: ConfiguredCore, c1: ConfiguredCore, r: Result<Cycles>) -> bool {
    &&& exists|m1: ConfiguredCore, src: Result<u32>|
            #[trigger] operator::quick_rel(c0, m1, src) && match src {
                Err(e) => r == Err::<Cycles, Exception>(e) && c1 == m1,
                Ok(v) => exists|m2: ConfiguredCore, d: Result<(u32, u32)>|
                    #[trigger] operator::ea_ay_ix_8_rel(m1, m2, d) && match d {
                        Err(e) => r == Err::<Cycles, Exception>(e) && c1 == m2,
                        Ok((dv, ea)) => {
                            let o = common::sub_8_outcome(m2, dv, v);
                            stored(o.0, c1, 8, ea, merged(dv, o.1, 8), r, 18)
                        },
                    },
            }
}

pub fn subq_8_ix(core: &mut ConfiguredCore) -> (r: Result<Cycles>)
    requires
        old(core).wf(),
    ensures
        final(core).wf(),
        subq_8_ix_effect(*old(core), *final(core), r),
{
    let ghost c0 = *core;
    let src = operator::quick(core);
    let ghost m1 = *core;
    assert(operator::quick_rel(c0, m1, src));
    let v = match src {
        Err(e) => {
            return Err(e);
        },
        Ok(v) => v,
    };
    let d = operator::ea_ay_ix_8(core);
    let ghost m2 = *core;
    assert(operator::ea_ay_ix_8_rel(m1, m2, d));
    let (dv, ea) = match d {
        Err(e) => {
            return Err(e);
        },
        Ok(p) => p,
    };
    let res = common::sub_8(core, dv, v);
    store(core, 8, ea, merge(dv, res, 8), 18)
}

/// What `subq_8_aw` does: the core goes from `c0` to `c1` and `r` comes back.
pub open spec fn subq_8_aw_effect(c0: ConfiguredCore, c1: ConfiguredCore, r: Result<Cycles>) -> bool {
    &&& exists|m1: ConfiguredCore, src: Result<u32>|
            #[trigger] operator::quick_rel(c0, m1, src) && match src {
                Err(e) => r == Err::<Cycles, Exception>(e) && c1 == m1,
                Ok(v) => exists|m2: ConfiguredCore, d: Result<(u32, u32)>|
                    #[trigger] operator::ea_aw_8_rel(m1, m2, d) && match d {
                        Err(e) => r == Err::<Cycles, Exception>(e) && c1 == m2,
                        Ok((dv, ea)) => {
                            let o = common::sub_8_outcome(m2, dv, v);
                            stored(o.0, c1, 8, ea, merged(dv, o.1, 8), r, 16)
                        },
                    },
            }
}

pub fn subq_8_aw(core: &mut ConfiguredCore) -> (r: Result<Cycles>)
    requires
        old(core).wf(),
    ensures
        final(core).wf(),
        subq_8_aw_effect(*old(core), *final(core), r),
{
    let ghost c0 = *core;
    let src = operator::quick(core);
    let ghost m1 = *core;
    assert(operator::quick_rel(c0, m1, src));
    let v = match src {
        Err(e) => {
            return Err(e);
        },
        Ok(v) => v,
    };
    let d = operator::ea_aw_8(core);
    let ghost m2 = *core;
    assert(operator::ea_aw_8_rel(m1, m2, d));
    let (dv, ea) = match d {
        Err(e) => {
            return Err(e);
        },
        Ok(p) => p,
    };
    let res = common::sub_8(core, dv, v);
    store(core, 8, ea, merge(dv, res, 8), 16)
}

/// What `subq_8_al` does: the core goes from `c0` to `c1` and `r` comes back.
pub open spec fn subq_8_al_effect(c0: ConfiguredCore, c1: ConfiguredCore, r: Result<Cycles>) -> bool {
    &&& exists|m1: ConfiguredCore, src: Result<u32>|
            #[trigger] operator::quick_rel(c0, m1, src) && match src {
                Err(e) => r == Err::<Cycles, Exception>(e) && c1 == m1,
                Ok(v) => exists|m2: ConfiguredCore, d: Result<(u32, u32)>|
                    #[trigger] operator::ea_al_8_rel(m1, m2, d) && match d {
                        Err(e) => r == Err::<Cycles, Exception>(e) && c1 == m2,
                        Ok((dv, ea)) => {
                            let o = common::sub_8_outcome(m2, dv, v);
                            stored(o.0, c1, 8, ea, merged(dv, o.1, 8), r, 20)
                        },
                    },
            }
}

pub fn subq_8_al(core: &mut ConfiguredCore) -> (r: Result<Cycles>)
    requires
        old(core).wf(),
    ensures
        final(core).wf(),
        subq_8_al_effect(*old(core), *final(core), r),
{
    let ghost c0 = *core;
    let src = operator::quick(core);
    let ghost m1 = *core;
    assert(operator::quick_rel(c0, m1, src));
    let v = match src {
        Err(e) => {
            return Err(e);
        },
        Ok(v) => v,
    };
    let d = operator::ea_al_8(core);
    let ghost m2 = *core;
    assert(operator::ea_al_8_rel(m1, m2, d));
    let (dv, ea) = match d {
        Err(e) => {
            return Err(e);
        },
        Ok(p) => p,
    };
    let res = common::sub_8(core, dv, v);
    store(core, 8, ea, merge(dv, res, 8), 20)
}

/// What `subq_16_dn` does: the core goes from `c0` to `c1` and `r` comes back.
pub open spec fn subq_16_dn_effect(c0: ConfiguredCore, c1: ConfiguredCore, r: Result<Cycles>) -> bool {
    &&& exists|mid: ConfiguredCore, src: Result<u32>|
            #[trigger] operator::quick_rel(c0, mid, src) && match src {
                Err(e) => r == Err::<Cycles, Exception>(e) && c1 == mid,
                Ok(v) => {
                    let reg = ir_dy(mid.ir);
                    let o = common::sub_16_outcome(mid, mid.dar[reg], v);
                    &&& r == Ok::<Cycles, Exception>(Cycles(4))
                    &&& reg_set(o.0, c1, reg, merged(mid.dar[reg], o.1, 16))
                },
            }
}

pub fn subq_16_dn(core: &mut ConfiguredCore) -> (r: Result<Cycles>)
    requires
        old(core).wf(),
    ensures
        final(core).wf(),
        subq_16_dn_effect(*old(core), *final(core), r),
{
    let ghost c0 = *core;
    let src = operator::quick(core);
    let ghost mid = *core;
    assert(operator::quick_rel(c0, mid, src));
    match src {
        Err(e) => Err(e),
        Ok(v) => {
            let reg = reg_dy(core.ir);
            let dst = core.dar[reg];
            let res = common::sub_16(core, dst, v);
            set_reg(core, reg, merge(dst, res, 16));
            Ok(Cycles(4))
        },
    }
}

/// What `subq_16_ai` does: the core goes from `c0` to `c1` and `r` comes back.
pub open spec fn subq_16_ai_effect(c0: ConfiguredCore, c1: ConfiguredCore, r: Result<Cycles>) -> bool {
    &&& exists|m1: ConfiguredCore, src: Result<u32>|
            #[trigger] operator::quick_rel(c0, m1, src) && match src {
                Err(e) => r == Err::<Cycles, Exception>(e) && c1 == m1,
                Ok(v) => exists|m2: ConfiguredCore, d: Result<(u32, u32)>|
                    #[trigger] operator::ea_ay_ai_16_rel(m1, m2, d) && match d {
                        Err(e) => r == Err::<Cycles, Exception>(e) && c1 == m2,
                        Ok((dv, ea)) => {
                            let o = common::sub_16_outcome(m2, dv, v);
                            stored(o.0, c1, 16, ea, merged(dv, o.1, 16), r, 12)
                        },
                    },
            }
}

pub fn subq_16_ai(core: &mut ConfiguredCore) -> (r: Result<Cycles>)
    requires
        old(core).wf(),
    ensures
        final(core).wf(),
        subq_16_ai_effect(*old(core), *final(core), r),
{
    let ghost c0 = *core;
    let src = operator::quick(core);
    let ghost m1 = *core;
    assert(operator::quick_rel(c0, m1, src));
    let v = match src {
        Err(e) => {
            return Err(e);
        },
        Ok(v) => v,
    };
    let d = operator::ea_ay_ai_16(core);
    let ghost m2 = *core;
    assert(operator::ea_ay_ai_16_rel(m1, m2, d));
    let (dv, ea) = match d {
        Err(e) => {
            return Err(e);
        },
        Ok(p) => p,
    };
    let res = common::sub_16(core, dv, v);
    store(core, 16, ea, merge(dv, res, 16), 12)
}

/// What `subq_16_pi` does: the core goes from `c0` to `c1` and `r` comes back.
pub open spec fn subq_16_pi_effect(c0: ConfiguredCore, c1: ConfiguredCore, r: Result<Cycles>) -> bool {
    &&& exists|m1: ConfiguredCore, src: Result<u32>|
            #[trigger] operator::quick_rel(c0, m1, src) && match src {
                Err(e) => r == Err::<Cycles, Exception>(e) && c1 == m1,
                Ok(v) => exists|m2: ConfiguredCore, d: Result<(u32, u32)>|
                    #[trigger] operator::ea_ay_pi_16_rel(m1, m2, d) && match d {
                        Err(e) => r == Err::<Cycles, Exception>(e) && c1 == m2,
                        Ok((dv, ea)) => {
                            let o = common::sub_16_outcome(m2, dv, v);
                            stored(o.0, c1, 16, ea, merged(dv, o.1, 16), r, 12)
                        },
                    },
            }
}

pub fn subq_16_pi(core: &mut ConfiguredCore) -> (r: Result<Cycles>)
    requires
        old(core).wf(),
    ensures
        final(core).wf(),
        subq_16_pi_effect(*old(core), *final(core), r),
{
    let ghost c0 = *core;
    let src = operator::quick(core);
    let ghost m1 = *core;
    assert(operator::quick_rel(c0, m1, src));
    let v = match src {
        Err(e) => {
            return Err(e);
        },
        Ok(v) => v,
    };
    let d = operator::ea_ay_pi_16(core);
    let ghost m2 = *core;
    assert(operator::ea_ay_pi_16_rel(m1, m2, d));
    let (dv, ea) = match d {
        Err(e) => {
            return Err(e);
        },
        Ok(p) => p,
    };
    let res = common::sub_16(core, dv, v);
    store(core, 16, ea, merge(dv, res, 16), 12)
}

/// What `subq_16_pd` does: the core goes from `c0` to `c1` and `r` comes back.
pub open spec fn subq_16_pd_effect(c0: ConfiguredCore, c1: ConfiguredCore, r: Result<Cycles>) -> bool {
    &&& exists|m1: ConfiguredCore, src: Result<u32>|
            #[trigger] operator::quick_rel(c0, m1, src) && match src {
                Err(e) => r == Err::<Cycles, Exception>(e) && c1 == m1,
                Ok(v) => exists|m2: ConfiguredCore, d: Result<(u32, u32)>|
                    #[trigger] operator::ea_ay_pd_16_rel(m1, m2, d) && match d {
                        Err(e) => r == Err::<Cycles, Exception>(e) && c1 == m2,
                        Ok((dv, ea)) => {
                            let o = common::sub_16_outcome(m2, dv, v);
                            stored(o.0, c1, 16, ea, merged(dv, o.1, 16), r, 14)
                        },
                    },
            }
}

pub fn subq_16_pd(core: &mut ConfiguredCore) -> (r: Result<Cycles>)
    requires
        old(core).wf(),
    ensures
        final(core).wf(),
        subq_16_pd_effect(*old(core), *final(core), r),
{
    let ghost c0 = *core;
    let src = operator::quick(core);
    let ghost m1 = *core;
    assert(operator::quick_rel(c0, m1, src));
    let v = match src {
        Err(e) => {
            return Err(e);
        },
        Ok(v) => v,
    };
    let d = operator::ea_ay_pd_16(core);
    let ghost m2 = *core;
    assert(operator::ea_ay_pd_16_rel(m1, m2, d));
    let (dv, ea) = match d {
        Err(e) => {
            return Err(e);
        },
        Ok(p) => p,
    };
    let res = common::sub_16(core, dv, v);
    store(core, 16, ea, merge(dv, res, 16), 14)
}

/// What `subq_16_di` does: the core goes from `c0` to `c1` and `r` comes back.
pub open spec fn subq_16_di_effect(c0: ConfiguredCore, c1: ConfiguredCore, r: Result<Cycles>) -> bool {
    &&& exists|m1: ConfiguredCore, src: Result<u32>|
            #[trigger] operator::quick_rel(c0, m1, src) && match src {
                Err(e) => r == Err::<Cycles, Exception>(e) && c1 == m1,
                Ok(v) => exists|m2: ConfiguredCore, d: Result<(u32, u32)>|
                    #[trigger] operator::ea_ay_di_16_rel(m1, m2, d) && match d {
                        Err(e) => r == Err::<Cycles, Exception>(e) && c1 == m2,
                        Ok((dv, ea)) => {
                            let o = common::sub_16_outcome(m2, dv, v);
                            stored(o.0, c1, 16, ea, merged(dv, o.1, 16), r, 16)
                        },
                    },
            }
}

pub fn subq_16_di(core: &mut ConfiguredCore) -> (r: Result<Cycles>)
    requires
        old(core).wf(),
    ensures
        final(core).wf(),
        subq_16_di_effect(*old(core), *final(core), r),
{
    let ghost c0 = *core;
    let src = operator::quick(core);
    let ghost m1 = *core;
    assert(operator::quick_rel(c0, m1, src));
    let v = match src {
        Err(e) => {
            return Err(e);
        },
        Ok(v) => v,
    };
    let d = operator::ea_ay_di_16(core);
    let ghost m2 = *core;
    assert(operator::ea_ay_di_16_rel(m1, m2, d));
    let (dv, ea) = match d {
        Err(e) => {
            return Err(e);
        },
        Ok(p) => p,
    };
    let res = common::sub_16(core, dv, v);
    store(core, 16, ea, merge(dv, res, 16), 16)
}

/// What `subq_16_ix` does: the core goes from `c0` to `c1` and `r` comes back.
pub open spec fn subq_16_ix_effect(c0: ConfiguredCore, c1: ConfiguredCore, r: Result<Cycles>) -> bool {
    &&& exists|m1: ConfiguredCore, src: Result<u32>|
            #[trigger] operator::quick_rel(c0, m1, src) && match src {
                Err(e) => r == Err::<Cycles, Exception>(e) && c1 == m1,
                Ok(v) => exists|m2: ConfiguredCore, d: Result<(u32, u32)>|
                    #[trigger] operator::ea_ay_ix_16_rel(m1, m2, d) && match d {
                        Err(e) => r == Err::<Cycles, Exception>(e) && c1 == m2,
                        Ok((dv, ea)) => {
                            let o = common::sub_16_outcome(m2, dv, v);
                            stored(o.0, c1, 16, ea, merged(dv, o.1, 16), r, 18)
                        },
                    },
            }
}

pub fn subq_16_ix(core: &mut ConfiguredCore) -> (r: Result<Cycles>)
    requires
        old(core).wf(),
    ensures
        final(core).wf(),
        subq_16_ix_effect(*old(core), *final(core), r),
{
    let ghost c0 = *core;
    let src = operator::quick(core);
    let ghost m1 = *core;
    assert(operator::quick_rel(c0, m1, src));
    let v = match src {
        Err(e) => {
            return Err(e);
        },
        Ok(v) => v,
    };
    let d = operator::ea_ay_ix_16(core);
    let ghost m2 = *core;
    assert(operator::ea_ay_ix_16_rel(m1, m2, d));
    let (dv, ea) = match d {
        Err(e) => {
            return Err(e);
        },
        Ok(p) => p,
    };
    let res = common::sub_16(core, dv, v);
    store(core, 16, ea, merge(dv, res, 16), 18)
}

/// What `subq_16_aw` does: the core goes from `c0` to `c1` and `r` comes back.
pub open spec fn subq_16_aw_effect(c0: ConfiguredCore, c1: ConfiguredCore, r: Result<Cycles>) -> bool {
    &&& exists|m1: ConfiguredCore, src: Result<u32>|
            #[trigger] operator::quick_rel(c0, m1, src) && match src {
                Err(e) => r == Err::<Cycles, Exception>(e) && c1 == m1,
                Ok(v) => exists|m2: ConfiguredCore, d: Result<(u32, u32)>|
                    #[trigger] operator::ea_aw_16_rel(m1, m2, d) && match d {
                        Err(e) => r == Err::<Cycles, Exception>(e) && c1 == m2,
                        Ok((dv, ea)) => {
                            let o = common::sub_16_outcome(m2, dv, v);
                            stored(o.0, c1, 16, ea, merged(dv, o.1, 16), r, 16)
                        },
                    },
            }
}

pub fn subq_16_aw(core: &mut ConfiguredCore) -> (r: Result<Cycles>)
    requires
        old(core).wf(),
    ensures
        final(core).wf(),
        subq_16_aw_effect(*old(core), *final(core), r),
{
    let ghost c0 = *core;
    let src = operator::quick(core);
    let ghost m1 = *core;
    assert(operator::quick_rel(c0, m1, src));
    let v = match src {
        Err(e) => {
            return Err(e);
        },
        Ok(v) => v,
    };
    let d = operator::ea_aw_16(core);
    let ghost m2 = *core;
    assert(operator::ea_aw_16_rel(m1, m2, d));
    let (dv, ea) = match d {
        Err(e) => {
            return Err(e);
        },
        Ok(p) => p,
    };
    let res = common::sub_16(core, dv, v);
    store(core, 16, ea, merge(dv, res, 16), 16)
}

/// What `subq_16_al` does: the core goes from `c0` to `c1` and `r` comes back.
pub open spec fn subq_16_al_effect(c0: ConfiguredCore, c1: ConfiguredCore, r: Result<Cycles>) -> bool {
    &&& exists|m1: ConfiguredCore, src: Result<u32>|
            #[trigger] operator::quick_rel(c0, m1, src) && match src {
                Err(e) => r == Err::<Cycles, Exception>(e) && c1 == m1,
                Ok(v) => exists|m2: ConfiguredCore, d: Result<(u32, u32)>|
                    #[trigger] operator::ea_al_16_rel(m1, m2, d) && match d {
                        Err(e) => r == Err::<Cycles, Exception>(e) && c1 == m2,
                        Ok((dv, ea)) => {
                            let o = common::sub_16_outcome(m2, dv, v);
                            stored(o.0, c1, 16, ea, merged(dv, o.1, 16), r, 20)
                        },
                    },
            }
}

pub fn subq_16_al(core: &mut ConfiguredCore) -> (r: Result<Cycles>)
    requires
        old(core).wf(),
    ensures
        final(core).wf(),
        subq_16_al_effect(*old(core), *final(core), r),
{
    let ghost c0 = *core;
    let src = operator::quick(core);
    let ghost m1 = *core;
    assert(operator::quick_rel(c0, m1, src));
    let v = match src {
        Err(e) => {
            return Err(e);
        },
        Ok(v) => v,
    };
    let d = operator::ea_al_16(core);
    let ghost m2 = *core;
    assert(operator::ea_al_16_rel(m1, m2, d));
    let (dv, ea) = match d {
        Err(e) => {
            return Err(e);
        },
        Ok(p) => p,
    };
    let res = common::sub_16(core, dv, v);
    store(core, 16, ea, merge(dv, res, 16), 20)
}

/// What `subq_32_dn` does: the core goes from `c0` to `c1` and `r` comes back.
pub open spec fn subq_32_dn_effect(c0: ConfiguredCore, c1: ConfiguredCore, r: Result<Cycles>) -> bool {
    &&& exists|mid: ConfiguredCore, src: Result<u32>|
            #[trigger] operator::quick_rel(c0, mid, src) && match src {
                Err(e) => r == Err::<Cycles, Exception>(e) && c1 == mid,
                Ok(v) => {
                    let reg = ir_dy(mid.ir);
                    let o = common::sub_32_outcome(mid, mid.dar[reg], v);
                    &&& r == Ok::<Cycles, Exception>(Cycles(8))
                    &&& reg_set(o.0, c1, reg, merged(mid.dar[reg], o.1, 32))
                },
            }
}

pub fn subq_32_dn(core: &mut ConfiguredCore) -> (r: Result<Cycles>)
    requires
        old(core).wf(),
    ensures
        final(core).wf(),
        subq_32_dn_effect(*old(core), *final(core), r),
{
    let ghost c0 = *core;
    let src = operator::quick(core);
    let ghost mid = *core;
    assert(operator::quick_rel(c0, mid, src));
    match src {
        Err(e) => Err(e),
        Ok(v) => {
            let reg = reg_dy(core.ir);
            let dst = core.dar[reg];
            let res = common::sub_32(core, dst, v);
            set_reg(core, reg, merge(dst, res, 32));
            Ok(Cycles(8))
        },
    }
}

/// What `subq_32_ai` does: the core goes from `c0` to `c1` and `r` comes back.
pub open spec fn subq_32_ai_effect(c0: ConfiguredCore, c1: ConfiguredCore, r: Result<Cycles>) -> bool {
    &&& exists|m1: ConfiguredCore, src: Result<u32>|
            #[trigger] operator::quick_rel(c0, m1, src) && match src {
                Err(e) => r == Err::<Cycles, Exception>(e) && c1 == m1,
                Ok(v) => exists|m2: ConfiguredCore, d: Result<(u32, u32)>|
                    #[trigger] operator::ea_ay_ai_32_rel(m1, m2, d) && match d {
                        Err(e) => r == Err::<Cycles, Exception>(e) && c1 == m2,
                        Ok((dv, ea)) => {
                            let o = common::sub_32_outcome(m2, dv, v);
                            stored(o.0, c1, 32, ea, merged(dv, o.1, 32), r, 20)
                        },
                    },
            }
}

pub fn subq_32_ai(core: &mut ConfiguredCore) -> (r: Result<Cycles>)
    requires
        old(core).wf(),
    ensures
        final(core).wf(),
        subq_32_ai_effect(*old(core), *final(core), r),
{
    let ghost c0 = *core;
    let src = operator::quick(core);
    let ghost m1 = *core;
    assert(operator::quick_rel(c0, m1, src));
    let v = match src {
        Err(e) => {
            return Err(e);
        },
        Ok(v) => v,
    };
    let d = operator::ea_ay_ai_32(core);
    let ghost m2 = *core;
    assert(operator::ea_ay_ai_32_rel(m1, m2, d));
    let (dv, ea) = match d {
        Err(e) => {
            return Err(e);
        },
        Ok(p) => p,
    };
    let res = common::sub_32(core, dv, v);
    store(core, 32, ea, merge(dv, res, 32), 20)
}

/// What `subq_32_pi` does: the core goes from `c0` to `c1` and `r` comes back.
pub open spec fn subq_32_pi_effect(c0: ConfiguredCore, c1: ConfiguredCore, r: Result<Cycles>) -> bool {
    &&& exists|m1: ConfiguredCore, src: Result<u32>|
            #[trigger] operator::quick_rel(c0, m1, src) && match src {
                Err(e) => r == Err::<Cycles, Exception>(e) && c1 == m1,
                Ok(v) => exists|m2: ConfiguredCore, d: Result<(u32, u32)>|
                    #[trigger] operator::ea_ay_pi_32_rel(m1, m2, d) && match d {
                        Err(e) => r == Err::<Cycles, Exception>(e) && c1 == m2,
                        Ok((dv, ea)) => {
                            let o = common::sub_32_outcome(m2, dv, v);
                            stored(o.0, c1, 32, ea, merged(dv, o.1, 32), r, 20)
                        },
                    },
            }
}

pub fn subq_32_pi(core: &mut ConfiguredCore) -> (r: Result<Cycles>)
    requires
        old(core).wf(),
    ensures
        final(core).wf(),
        subq_32_pi_effect(*old(core), *final(core), r),
{
    let ghost c0 = *core;
    let src = operator::quick(core);
    let ghost m1 = *core;
    assert(operator::quick_rel(c0, m1, src));
    let v = match src {
        Err(e) => {
            return Err(e);
        },
        Ok(v) => v,
    };
    let d = operator::ea_ay_pi_32(core);
    let ghost m2 = *core;
    assert(operator::ea_ay_pi_32_rel(m1, m2, d));
    let (dv, ea) = match d {
        Err(e) => {
            return Err(e);
        },
        Ok(p) => p,
    };
    let res = common::sub_32(core, dv, v);
    store(core, 32, ea, merge(dv, res, 32), 20)
}

/// What `subq_32_pd` does: the core goes from `c0` to `c1` and `r` comes back.
pub open spec fn subq_32_pd_effect(c0: ConfiguredCore, c1: ConfiguredCore, r: Result<Cycles>) -> bool {
    &&& exists|m1: ConfiguredCore, src: Result<u32>|
            #[trigger] operator::quick_rel(c0, m1, src) && match src {
                Err(e) => r == Err::<Cycles, Exception>(e) && c1 == m1,
                Ok(v) => exists|m2: ConfiguredCore, d: Result<(u32, u32)>|
                    #[trigger] operator::ea_ay_pd_32_rel(m1, m2, d) && match d {
                        Err(e) => r == Err::<Cycles, Exception>(e) && c1 == m2,
                        Ok((dv, ea)) => {
                            let o = common::sub_32_outcome(m2, dv, v);
                            stored(o.0, c1, 32, ea, merged(dv, o.1, 32), r, 22)
                        },
                    },
            }
}

pub fn subq_32_pd(core: &mut ConfiguredCore) -> (r: Result<Cycles>)
    requires
        old(core).wf(),
    ensures
        final(core).wf(),
        subq_32_pd_effect(*old(core), *final(core), r),
{
    let ghost c0 = *core;
    let src = operator::quick(core);
    let ghost m1 = *core;
    assert(operator::quick_rel(c0, m1, src));
    let v = match src {
        Err(e) => {
            return Err(e);
        },
        Ok(v) => v,
    };
    let d = operator::ea_ay_pd_32(core);
    let ghost m2 = *core;
    assert(operator::ea_ay_pd_32_rel(m1, m2, d));
    let (dv, ea) = match d {
        Err(e) => {
            return Err(e);
        },
        Ok(p) => p,
    };
    let res = common::sub_32(core, dv, v);
    store(core, 32, ea, merge(dv, res, 32), 22)
}

/// What `subq_32_di` does: the core goes from `c0` to `c1` and `r` comes back.
pub open spec fn subq_32_di_effect(c0: ConfiguredCore, c1: ConfiguredCore, r: Result<Cycles>) -> bool {
    &&& exists|m1: ConfiguredCore, src: Result<u32>|
            #[trigger] operator::quick_rel(c0, m1, src) && match src {
                Err(e) => r == Err::<Cycles, Exception>(e) && c1 == m1,
                Ok(v) => exists|m2: ConfiguredCore, d: Result<(u32, u32)>|
                    #[trigger] operator::ea_ay_di_32_rel(m1, m2, d) && match d {
                        Err(e) => r == Err::<Cycles, Exception>(e) && c1 == m2,
                        Ok((dv, ea)) => {
                            let o = common::sub_32_outcome(m2, dv, v);
                            stored(o.0, c1, 32, ea, merged(dv, o.1, 32), r, 24)
                        },
                    },
            }
}

pub fn subq_32_di(core: &mut ConfiguredCore) -> (r: Result<Cycles>)
    requires
        old(core).wf(),
    ensures
        final(core).wf(),
        subq_32_di_effect(*old(core), *final(core), r),
{
    let ghost c0 = *core;
    let src = operator::quick(core);
    let ghost m1 = *core;
    assert(operator::quick_rel(c0, m1, src));
    let v = match src {
        Err(e) => {
            return Err(e);
        },
        Ok(v) => v,
    };
    let d = operator::ea_ay_di_32(core);
    let ghost m2 = *core;
    assert(operator::ea_ay_di_32_rel(m1, m2, d));
    let (dv, ea) = match d {
        Err(e) => {
            return Err(e);
        },
        Ok(p) => p,
    };
    let res = common::sub_32(core, dv, v);
    store(core, 32, ea, merge(dv, res, 32), 24)
}

/// What `subq_32_ix` does: the core goes from `c0` to `c1` and `r` comes back.
pub open spec fn subq_32_ix_effect(c0: ConfiguredCore, c1: ConfiguredCore, r: Result<Cycles>) -> bool {
    &&& exists|m1: ConfiguredCore, src: Result<u32>|
            #[trigger] operator::quick_rel(c0, m1, src) && match src {
                Err(e) => r == Err::<Cycles, Exception>(e) && c1 == m1,
                Ok(v) => exists|m2: ConfiguredCore, d: Result<(u32, u32)>|
                    #[trigger] operator::ea_ay_ix_32_rel(m1, m2, d) && match d {
                        Err(e) => r == Err::<Cycles, Exception>(e) && c1 == m2,
                        Ok((dv, ea)) => {
                            let o = common::sub_32_outcome(m2, dv, v);
                            stored(o.0, c1, 32, ea, merged(dv, o.1, 32), r, 26)
                        },
                    },
            }
}

pub fn subq_32_ix(core: &mut ConfiguredCore) -> (r: Result<Cycles>)
    requires
        old(core).wf(),
    ensures
        final(core).wf(),
        subq_32_ix_effect(*old(core), *final(core), r),
{
    let ghost c0 = *core;
    let src = operator::quick(core);
    let ghost m1 = *core;
    assert(operator::quick_rel(c0, m1, src));
    let v = match src {
        Err(e) => {
            return Err(e);
        },
        Ok(v) => v,
    };
    let d = operator::ea_ay_ix_32(core);
    let ghost m2 = *core;
    assert(operator::ea_ay_ix_32_rel(m1, m2, d));
    let (dv, ea) = match d {
        Err(e) => {
            return Err(e);
        },
        Ok(p) => p,
    };
    let res = common::sub_32(core, dv, v);
    store(core, 32, ea, merge(dv, res, 32), 26)
}

/// What `subq_32_aw` does: the core goes from `c0` to `c1` and `r` comes back.
pub open spec fn subq_32_aw_effect(c0: ConfiguredCore, c1: ConfiguredCore, r: Result<Cycles>) -> bool {
    &&& exists|m1: ConfiguredCore, src: Result<u32>|
            #[trigger] operator::quick_rel(c0, m1, src) && match src {
                Err(e) => r == Err::<Cycles, Exception>(e) && c1 == m1,
                Ok(v) => exists|m2: ConfiguredCore, d: Result<(u32, u32)>|
                    #[trigger] operator::ea_aw_32_rel(m1, m2, d) && match d {
                        Err(e) => r == Err::<Cycles, Exception>(e) && c1 == m2,
                        Ok((dv, ea)) => {
                            let o = common::sub_32_outcome(m2, dv, v);
                            stored(o.0, c1, 32, ea, merged(dv, o.1, 32), r, 24)
                        },
                    },
            }
}

pub fn subq_32_aw(core: &mut ConfiguredCore) -> (r: Result<Cycles>)
    requires
        old(core).wf(),
    ensures
        final(core).wf(),
        subq_32_aw_effect(*old(core), *final(core), r),
{
    let ghost c0 = *core;
    let src = operator::quick(core);
    let ghost m1 = *core;
    assert(operator::quick_rel(c0, m1, src));
    let v = match src {
        Err(e) => {
            return Err(e);
        },
        Ok(v) => v,
    };
    let d = operator::ea_aw_32(core);
    let ghost m2 = *core;
    assert(operator::ea_aw_32_rel(m1, m2, d));
    let (dv, ea) = match d {
        Err(e) => {
            return Err(e);
        },
        Ok(p) => p,
    };
    let res = common::sub_32(core, dv, v);
    store(core, 32, ea, merge(dv, res, 32), 24)
}

/// What `subq_32_al` does: the core goes from `c0` to `c1` and `r` comes back.
pub open spec fn subq_32_al_effect(c0: ConfiguredCore, c1: ConfiguredCore, r: Result<Cycles>) -> bool {
    &&& exists|m1: ConfiguredCore, src: Result<u32>|
            #[trigger] operator::quick_rel(c0, m1, src) && match src {
                Err(e) => r == Err::<Cycles, Exception>(e) && c1 == m1,
                Ok(v) => exists|m2: ConfiguredCore, d: Result<(u32, u32)>|
                    #[trigger] operator::ea_al_32_rel(m1, m2, d) && match d {
                        Err(e) => r == Err::<Cycles, Exception>(e) && c1 == m2,
                        Ok((dv, ea)) => {
                            let o = common::sub_32_outcome(m2, dv, v);
                            stored(o.0, c1, 32, ea, merged(dv, o.1, 32), r, 28)
                        },
                    },
            }
}

pub fn subq_32_al(core: &mut ConfiguredCore) -> (r: Result<Cycles>)
    requires
        old(core).wf(),
    ensures
        final(core).wf(),
        subq_32_al_effect(*old(core), *final(core), r),
{
    let ghost c0 = *core;
    let src = operator::quick(core);
    let ghost m1 = *core;
    assert(operator::quick_rel(c0, m1, src));
    let v = match src {
        Err(e) => {
            return Err(e);
        },
        Ok(v) => v,
    };
    let d = operator::ea_al_32(core);
    let ghost m2 = *core;
    assert(operator::ea_al_32_rel(m1, m2, d));
    let (dv, ea) = match d {
        Err(e) => {
            return Err(e);
        },
        Ok(p) => p,
    };
    let res = common::sub_32(core, dv, v);
    store(core, 32, ea, merge(dv, res, 32), 28)
}

/// What `abcd_8_rr` does: the core goes from `c0` to `c1` and `r` comes back.
pub open spec fn abcd_8_rr_effect(c0: ConfiguredCore, c1: ConfiguredCore, r: Result<Cycles>) -> bool {
    &&& exists|mid: ConfiguredCore, src: Result<u32>|
            #[trigger] operator::dy_rel(c0, mid, src) && match src {
                Err(e) => r == Err::<Cycles, Exception>(e) && c1 == mid,
                Ok(v) => {
                    let reg = ir_dx(mid.ir);
                    let o = common::abcd_8_outcome(mid, mid.dar[reg], v);
                    &&& r == Ok::<Cycles, Exception>(Cycles(6))
                    &&& reg_set(o.0, c1, reg, merged(mid.dar[reg], o.1, 8))
                },
            }
}

pub fn abcd_8_rr(core: &mut ConfiguredCore) -> (r: Result<Cycles>)
    requires
        old(core).wf(),
    ensures
        final(core).wf(),
        abcd_8_rr_effect(*old(core), *final(core), r),
{
    let ghost c0 = *core;
    let src = operator::dy(core);
    let ghost mid = *core;
    assert(operator::dy_rel(c0, mid, src));
    match src {
        Err(e) => Err(e),
        Ok(v) => {
            let reg = reg_dx(core.ir);
            let dst = core.dar[reg];
            let res = common::abcd_8(core, dst, v);
            set_reg(core, reg, merge(dst, res, 8));
            Ok(Cycles(6))
        },
    }
}

/// What `abcd_8_mm` does: the core goes from `c0` to `c1` and `r` comes back.
pub open spec fn abcd_8_mm_effect(c0: ConfiguredCore, c1: ConfiguredCore, r: Result<Cycles>) -> bool {
    &&& exists|m1: ConfiguredCore, src: Result<u32>|
            #[trigger] operator::ay_pd_8_rel(c0, m1, src) && match src {
                Err(e) => r == Err::<Cycles, Exception>(e) && c1 == m1,
                Ok(v) => exists|m2: ConfiguredCore, d: Result<(u32, u32)>|
                    #[trigger] operator::ea_ax_pd_8_rel(m1, m2, d) && match d {
                        Err(e) => r == Err::<Cycles, Exception>(e) && c1 == m2,
                        Ok((dv, ea)) => {
                            let o = common::abcd_8_outcome(m2, dv, v);
                            stored(o.0, c1, 8, ea, merged(dv, o.1, 8), r, 18)
                        },
                    },
            }
}

pub fn abcd_8_mm(core: &mut ConfiguredCore) -> (r: Result<Cycles>)
    requires
        old(core).wf(),
    ensures
        final(core).wf(),
        abcd_8_mm_effect(*old(core), *final(core), r),
{
    let ghost c0 = *core;
    let src = operator::ay_pd_8(core);
    let ghost m1 = *core;
    assert(operator::ay_pd_8_rel(c0, m1, src));
    let v = match src {
        Err(e) => {
            return Err(e);
        },
        Ok(v) => v,
    };
    let d = operator::ea_ax_pd_8(core);
    let ghost m2 = *core;
    assert(operator::ea_ax_pd_8_rel(m1, m2, d));
    let (dv, ea) = match d {
        Err(e) => {
            return Err(e);
        },
        Ok(p) => p,
    };
    let res = common::abcd_8(core, dv, v);
    store(core, 8, ea, merge(dv, res, 8), 18)
}

/// What `addx_8_rr` does: the core goes from `c0` to `c1` and `r` comes back.
pub open spec fn addx_8_rr_effect(c0: ConfiguredCore, c1: ConfiguredCore, r: Result<Cycles>) -> bool {
    &&& exists|mid: ConfiguredCore, src: Result<u32>|
            #[trigger] operator::dy_rel(c0, mid, src) && match src {
                Err(e) => r == Err::<Cycles, Exception>(e) && c1 == mid,
                Ok(v) => {
                    let reg = ir_dx(mid.ir);
                    let o = common::addx_8_outcome(mid, mid.dar[reg], v);
                    &&& r == Ok::<Cycles, Exception>(Cycles(4))
                    &&& reg_set(o.0, c1, reg, merged(mid.dar[reg], o.1, 8))
                },
            }
}

pub fn addx_8_rr(core: &mut ConfiguredCore) -> (r: Result<Cycles>)
    requires
        old(core).wf(),
    ensures
        final(core).wf(),
        addx_8_rr_effect(*old(core), *final(core), r),
{
    let ghost c0 = *core;
    let src = operator::dy(core);
    let ghost mid = *core;
    assert(operator::dy_rel(c0, mid, src));
    match src {
        Err(e) => Err(e),
        Ok(v) => {
            let reg = reg_dx(core.ir);
            let dst = core.dar[reg];
            let res = common::addx_8(core, dst, v);
            set_reg(core, reg, merge(dst, res, 8));
            Ok(Cycles(4))
        },
    }
}

/// What `addx_8_mm` does: the core goes from `c0` to `c1` and `r` comes back.
pub open spec fn addx_8_mm_effect(c0: ConfiguredCore, c1: ConfiguredCore, r: Result<Cycles>) -> bool {
    &&& exists|m1: ConfiguredCore, src: Result<u32>|
            #[trigger] operator::ay_pd_8_rel(c0, m1, src) && match src {
                Err(e) => r == Err::<Cycles, Exception>(e) && c1 == m1,
                Ok(v) => exists|m2: ConfiguredCore, d: Result<(u32, u32)>|
                    #[trigger] operator::ea_ax_pd_8_rel(m1, m2, d) && match d {
                        Err(e) => r == Err::<Cycles, Exception>(e) && c1 == m2,
                        Ok((dv, ea)) => {
                            let o = common::addx_8_outcome(m2, dv, v);
                            stored(o.0, c1, 8, ea, merged(dv, o.1, 8), r, 18)
                        },
                    },
            }
}

pub fn addx_8_mm(core: &mut ConfiguredCore) -> (r: Result<Cycles>)
    requires
        old(core).wf(),
    ensures
        final(core).wf(),
        addx_8_mm_effect(*old(core), *final(core), r),
{
    let ghost c0 = *core;
    let src = operator::ay_pd_8(core);
    let ghost m1 = *core;
    assert(operator::ay_pd_8_rel(c0, m1, src));
    let v = match src {
        Err(e) => {
            return Err(e);
        },
        Ok(v) => v,
    };
    let d = operator::ea_ax_pd_8(core);
    let ghost m2 = *core;
    assert(operator::ea_ax_pd_8_rel(m1, m2, d));
    let (dv, ea) = match d {
        Err(e) => {
            return Err(e);
        },
        Ok(p) => p,
    };
    let res = common::addx_8(core, dv, v);
    store(core, 8, ea, merge(dv, res, 8), 18)
}

/// What `addx_16_rr` does: the core goes from `c0` to `c1` and `r` comes back.
pub open spec fn addx_16_rr_effect(c0: ConfiguredCore, c1: ConfiguredCore, r: Result<Cycles>) -> bool {
    &&& exists|mid: ConfiguredCore, src: Result<u32>|
            #[trigger] operator::dy_rel(c0, mid, src) && match src {
                Err(e) => r == Err::<Cycles, Exception>(e) && c1 == mid,
                Ok(v) => {
                    let reg = ir_dx(mid.ir);
                    let o = common::addx_16_outcome(mid, mid.dar[reg], v);
                    &&& r == Ok::<Cycles, Exception>(Cycles(4))
                    &&& reg_set(o.0, c1, reg, merged(mid.dar[reg], o.1, 16))
                },
            }
}

pub fn addx_16_rr(core: &mut ConfiguredCore) -> (r: Result<Cycles>)
    requires
        old(core).wf(),
    ensures
        final(core).wf(),
        addx_16_rr_effect(*old(core), *final(core), r),
{
    let ghost c0 = *core;
    let src = operator::dy(core);
    let ghost mid = *core;
    assert(operator::dy_rel(c0, mid, src));
    match src {
        Err(e) => Err(e),
        Ok(v) => {
            let reg = reg_dx(core.ir);
            let dst = core.dar[reg];
            let res = common::addx_16(core, dst, v);
            set_reg(core, reg, merge(dst, res, 16));
            Ok(Cycles(4))
        },
    }
}

/// What `addx_16_mm` does: the core goes from `c0` to `c1` and `r` comes back.
pub open spec fn addx_16_mm_effect(c0: ConfiguredCore, c1: ConfiguredCore, r: Result<Cycles>) -> bool {
    &&& exists|m1: ConfiguredCore, src: Result<u32>|
            #[trigger] operator::ay_pd_16_rel(c0, m1, src) && match src {
                Err(e) => r == Err::<Cycles, Exception>(e) && c1 == m1,
                Ok(v) => exists|m2: ConfiguredCore, d: Result<(u32, u32)>|
                    #[trigger] operator::ea_ax_pd_16_rel(m1, m2, d) && match d {
                        Err(e) => r == Err::<Cycles, Exception>(e) && c1 == m2,
                        Ok((dv, ea)) => {
                            let o = common::addx_16_outcome(m2, dv, v);
                            stored(o.0, c1, 16, ea, merged(dv, o.1, 16), r, 18)
                        },
                    },
            }
}

pub fn addx_16_mm(core: &mut ConfiguredCore) -> (r: Result<Cycles>)
    requires
        old(core).wf(),
    ensures
        final(core).wf(),
        addx_16_mm_effect(*old(core), *final(core), r),
{
    let ghost c0 = *core;
    let src = operator::ay_pd_16(core);
    let ghost m1 = *core;
    assert(operator::ay_pd_16_rel(c0, m1, src));
    let v = match src {
        Err(e) => {
            return Err(e);
        },
        Ok(v) => v,
    };
    let d = operator::ea_ax_pd_16(core);
    let ghost m2 = *core;
    assert(operator::ea_ax_pd_16_rel(m1, m2, d));
    let (dv, ea) = match d {
        Err(e) => {
            return Err(e);
        },
        Ok(p) => p,
    };
    let res = common::addx_16(core, dv, v);
    store(core, 16, ea, merge(dv, res, 16), 18)
}

/// What `addx_32_rr` does: the core goes from `c0` to `c1` and `r` comes back.
pub open spec fn addx_32_rr_effect(c0: ConfiguredCore, c1: ConfiguredCore, r: Result<Cycles>) -> bool {
    &&& exists|mid: ConfiguredCore, src: Result<u32>|
            #[trigger] operator::dy_rel(c0, mid, src) && match src {
                Err(e) => r == Err::<Cycles, Exception>(e) && c1 == mid,
                Ok(v) => {
                    let reg = ir_dx(mid.ir);
                    let o = common::addx_32_outcome(mid, mid.dar[reg], v);
                    &&& r == Ok::<Cycles, Exception>(Cycles(8))
                    &&& reg_set(o.0, c1, reg, merged(mid.dar[reg], o.1, 32))
                },
            }
}

pub fn addx_32_rr(core: &mut ConfiguredCore) -> (r: Result<Cycles>)
    requires
        old(core).wf(),
    ensures
        final(core).wf(),
        addx_32_rr_effect(*old(core), *final(core), r),
{
    let ghost c0 = *core;
    let src = operator::dy(core);
    let ghost mid = *core;
    assert(operator::dy_rel(c0, mid, src));
    match src {
        Err(e) => Err(e),
        Ok(v) => {
            let reg = reg_dx(core.ir);
            let dst = core.dar[reg];
            let res = common::addx_32(core, dst, v);
            set_reg(core, reg, merge(dst, res, 32));
            Ok(Cycles(8))
        },
    }
}

/// What `addx_32_mm` does: the core goes from `c0` to `c1` and `r` comes back.
pub open spec fn addx_32_mm_effect(c0: ConfiguredCore, c1: ConfiguredCore, r: Result<Cycles>) -> bool {
    &&& exists|m1: ConfiguredCore, src: Result<u32>|
            #[trigger] operator::ay_pd_32_rel(c0, m1, src) && match src {
                Err(e) => r == Err::<Cycles, Exception>(e) && c1 == m1,
                Ok(v) => exists|m2: ConfiguredCore, d: Result<(u32, u32)>|
                    #[trigger] operator::ea_ax_pd_32_rel(m1, m2, d) && match d {
                        Err(e) => r == Err::<Cycles, Exception>(e) && c1 == m2,
                        Ok((dv, ea)) => {
                            let o = common::addx_32_outcome(m2, dv, v);
                            stored(o.0, c1, 32, ea, merged(dv, o.1, 32), r, 30)
                        },
                    },
            }
}

pub fn addx_32_mm(core: &mut ConfiguredCore) -> (r: Result<Cycles>)
    requires
        old(core).wf(),
    ensures
        final(core).wf(),
        addx_32_mm_effect(*old(core), *final(core), r),
{
    let ghost c0 = *core;
    let src = operator::ay_pd_32(core);
    let ghost m1 = *core;
    assert(operator::ay_pd_32_rel(c0, m1, src));
    let v = match src {
        Err(e) => {
            return Err(e);
        },
        Ok(v) => v,
    };
    let d = operator::ea_ax_pd_32(core);
    let ghost m2 = *core;
    assert(operator::ea_ax_pd_32_rel(m1, m2, d));
    let (dv, ea) = match d {
        Err(e) => {
            return Err(e);
        },
        Ok(p) => p,
    };
    let res = common::addx_32(core, dv, v);
    store(core, 32, ea, merge(dv, res, 32), 30)
}

/// What `cmp_8_dn` does: the core goes from `c0` to `c1` and `r` comes back.
pub open spec fn cmp_8_dn_effect(c0: ConfiguredCore, c1: ConfiguredCore, r: Result<Cycles>) -> bool {
    &&& exists|mid: ConfiguredCore, src: Result<u32>|
            #[trigger] operator::dy_rel(c0, mid, src) && match src {
                Err(e) => r == Err::<Cycles, Exception>(e) && c1 == mid,
                Ok(v) => r == Ok::<Cycles, Exception>(Cycles(4))
                    && c1 == common::compare_8_outcome(mid, mid.dar[ir_dx(mid.ir)], v).0,
            }
}

pub fn cmp_8_dn(core: &mut ConfiguredCore) -> (r: Result<Cycles>)
    requires
        old(core).wf(),
    ensures
        final(core).wf(),
        cmp_8_dn_effect(*old(core), *final(core), r),
{
    let ghost c0 = *core;
    let src = operator::dy(core);
    let ghost mid = *core;
    assert(operator::dy_rel(c0, mid, src));
    match src {
        Err(e) => Err(e),
        Ok(v) => {
            let dst = core.dar[reg_dx(core.ir)];
            let _ = common::cmp_8(core, dst, v);
            Ok(Cycles(4))
        },
    }
}

/// What `cmp_8_ai` does: the core goes from `c0` to `c1` and `r` comes back.
pub open spec fn cmp_8_ai_effect(c0: ConfiguredCore, c1: ConfiguredCore, r: Result<Cycles>) -> bool {
    &&& exists|mid: ConfiguredCore, src: Result<u32>|
            #[trigger] operator::ay_ai_8_rel(c0, mid, src) && match src {
                Err(e) => r == Err::<Cycles, Exception>(e) && c1 == mid,
                Ok(v) => r == Ok::<Cycles, Exception>(Cycles(8))
                    && c1 == common::compare_8_outcome(mid, mid.dar[ir_dx(mid.ir)], v).0,
            }
}

pub fn cmp_8_ai(core: &mut ConfiguredCore) -> (r: Result<Cycles>)
    requires
        old(core).wf(),
    ensures
        final(core).wf(),
        cmp_8_ai_effect(*old(core), *final(core), r),
{
    let ghost c0 = *core;
    let src = operator::ay_ai_8(core);
    let ghost mid = *core;
    assert(operator::ay_ai_8_rel(c0, mid, src));
    match src {
        Err(e) => Err(e),
        Ok(v) => {
            let dst = core.dar[reg_dx(core.ir)];
            let _ = common::cmp_8(core, dst, v);
            Ok(Cycles(8))
        },
    }
}

/// What `cmp_8_pi` does: the core goes from `c0` to `c1` and `r` comes back.
pub open spec fn cmp_8_pi_effect(c0: ConfiguredCore, c1: ConfiguredCore, r: Result<Cycles>) -> bool {
    &&& exists|mid: ConfiguredCore, src: Result<u32>|
            #[trigger] operator::ay_pi_8_rel(c0, mid, src) && match src {
                Err(e) => r == Err::<Cycles, Exception>(e) && c1 == mid,
                Ok(v) => r == Ok::<Cycles, Exception>(Cycles(8))
                    && c1 == common::compare_8_outcome(mid, mid.dar[ir_dx(mid.ir)], v).0,
            }
}

pub fn cmp_8_pi(core: &mut ConfiguredCore) -> (r: Result<Cycles>)
    requires
        old(core).wf(),
    ensures
        final(core).wf(),
        cmp_8_pi_effect(*old(core), *final(core), r),
{
    let ghost c0 = *core;
    let src = operator::ay_pi_8(core);
    let ghost mid = *core;
    assert(operator::ay_pi_8_rel(c0, mid, src));
    match src {
        Err(e) => Err(e),
        Ok(v) => {
            let dst = core.dar[reg_dx(core.ir)];
            let _ = common::cmp_8(core, dst, v);
            Ok(Cycles(8))
        },
    }
}

/// What `cmp_8_pd` does: the core goes from `c0` to `c1` and `r` comes back.
pub open spec fn cmp_8_pd_effect(c0: ConfiguredCore, c1: ConfiguredCore, r: Result<Cycles>) -> bool {
    &&& exists|mid: ConfiguredCore, src: Result<u32>|
            #[trigger] operator::ay_pd_8_rel(c0, mid, src) && match src {
                Err(e) => r == Err::<Cycles, Exception>(e) && c1 == mid,
                Ok(v) => r == Ok::<Cycles, Exception>(Cycles(10))
                    && c1 == common::compare_8_outcome(mid, mid.dar[ir_dx(mid.ir)], v).0,
            }
}

pub fn cmp_8_pd(core: &mut ConfiguredCore) -> (r: Result<Cycles>)
    requires
        old(core).wf(),
    ensures
        final(core).wf(),
        cmp_8_pd_effect(*old(core), *final(core), r),
{
    let ghost c0 = *core;
    let src = operator::ay_pd_8(core);
    let ghost mid = *core;
    assert(operator::ay_pd_8_rel(c0, mid, src));
    match src {
        Err(e) => Err(e),
        Ok(v) => {
            let dst = core.dar[reg_dx(core.ir)];
            let _ = common::cmp_8(core, dst, v);
            Ok(Cycles(10))
        },
    }
}

/// What `cmp_8_di` does: the core goes from `c0` to `c1` and `r` comes back.
pub open spec fn cmp_8_di_effect(c0: ConfiguredCore, c1: ConfiguredCore, r: Result<Cycles>) -> bool {
    &&& exists|mid: ConfiguredCore, src: Result<u32>|
            #[trigger] operator::ay_di_8_rel(c0, mid, src) && match src {
                Err(e) => r == Err::<Cycles, Exception>(e) && c1 == mid,
                Ok(v) => r == Ok::<Cycles, Exception>(Cycles(12))
                    && c1 == common::compare_8_outcome(mid, mid.dar[ir_dx(mid.ir)], v).0,
            }
}

pub fn cmp_8_di(core: &mut ConfiguredCore) -> (r: Result<Cycles>)
    requires
        old(core).wf(),
    ensures
        final(core).wf(),
        cmp_8_di_effect(*old(core), *final(core), r),
{
    let ghost c0 = *core;
    let src = operator::ay_di_8(core);
    let ghost mid = *core;
    assert(operator::ay_di_8_rel(c0, mid, src));
    match src {
        Err(e) => Err(e),
        Ok(v) => {
            let dst = core.dar[reg_dx(core.ir)];
            let _ = common::cmp_8(core, dst, v);
            Ok(Cycles(12))
        },
    }
}

/// What `cmp_8_ix` does: the core goes from `c0` to `c1` and `r` comes back.
pub open spec fn cmp_8_ix_effect(c0: ConfiguredCore, c1: ConfiguredCore, r: Result<Cycles>) -> bool {
    &&& exists|mid: ConfiguredCore, src: Result<u32>|
            #[trigger] operator::ay_ix_8_rel(c0, mid, src) && match src {
                Err(e) => r == Err::<Cycles, Exception>(e) && c1 == mid,
                Ok(v) => r == Ok::<Cycles, Exception>(Cycles(14))
                    && c1 == common::compare_8_outcome(mid, mid.dar[ir_dx(mid.ir)], v).0,
            }
}

pub fn cmp_8_ix(core: &mut ConfiguredCore) -> (r: Result<Cycles>)
    requires
        old(core).wf(),
    ensures
        final(core).wf(),
        cmp_8_ix_effect(*old(core), *final(core), r),
{
    let ghost c0 = *core;
    let src = operator::ay_ix_8(core);
    let ghost mid = *core;
    assert(operator::ay_ix_8_rel(c0, mid, src));
    match src {
        Err(e) => Err(e),
        Ok(v) => {
            let dst = core.dar[reg_dx(core.ir)];
            let _ = common::cmp_8(core, dst, v);
            Ok(Cycles(14))
        },
    }
}

/// What `cmp_8_aw` does: the core goes from `c0` to `c1` and `r` comes back.
pub open spec fn cmp_8_aw_effect(c0: ConfiguredCore, c1: ConfiguredCore, r: Result<Cycles>) -> bool {
    &&& exists|mid: ConfiguredCore, src: Result<u32>|
            #[trigger] operator::aw_8_rel(c0, mid, src) && match src {
                Err(e) => r == Err::<Cycles, Exception>(e) && c1 == mid,
                Ok(v) => r == Ok::<Cycles, Exception>(Cycles(12))
                    && c1 == common::compare_8_outcome(mid, mid.dar[ir_dx(mid.ir)], v).0,
            }
}

pub fn cmp_8_aw(core: &mut ConfiguredCore) -> (r: Result<Cycles>)
    requires
        old(core).wf(),
    ensures
        final(core).wf(),
        cmp_8_aw_effect(*old(core), *final(core), r),
{
    let ghost c0 = *core;
    let src = operator::aw_8(core);
    let ghost mid = *core;
    assert(operator::aw_8_rel(c0, mid, src));
    match src {
        Err(e) => Err(e),
        Ok(v) => {
            let dst = core.dar[reg_dx(core.ir)];
            let _ = common::cmp_8(core, dst, v);
            Ok(Cycles(12))
        },
    }
}

/// What `cmp_8_al` does: the core goes from `c0` to `c1` and `r` comes back.
pub open spec fn cmp_8_al_effect(c0: ConfiguredCore, c1: ConfiguredCore, r: Result<Cycles>) -> bool {
    &&& exists|mid: ConfiguredCore, src: Result<u32>|
            #[trigger] operator::al_8_rel(c0, mid, src) && match src {
                Err(e) => r == Err::<Cycles, Exception>(e) && c1 == mid,
                Ok(v) => r == Ok::<Cycles, Exception>(Cycles(16))
                    && c1 == common::compare_8_outcome(mid, mid.dar[ir_dx(mid.ir)], v).0,
            }
}

pub fn cmp_8_al(core: &mut ConfiguredCore) -> (r: Result<Cycles>)
    requires
        old(core).wf(),
    ensures
        final(core).wf(),
        cmp_8_al_effect(*old(core), *final(core), r),
{
    let ghost c0 = *core;
    let src = operator::al_8(core);
    let ghost mid = *core;
    assert(operator::al_8_rel(c0, mid, src));
    match src {
        Err(e) => Err(e),
        Ok(v) => {
            let dst = core.dar[reg_dx(core.ir)];
            let _ = common::cmp_8(core, dst, v);
            Ok(Cycles(16))
        },
    }
}

/// What `cmp_8_pcdi` does: the core goes from `c0` to `c1` and `r` comes back.
pub open spec fn cmp_8_pcdi_effect(c0: ConfiguredCore, c1: ConfiguredCore, r: Result<Cycles>) -> bool {
    &&& exists|mid: ConfiguredCore, src: Result<u32>|
            #[trigger] operator::pcdi_8_rel(c0, mid, src) && match src {
                Err(e) => r == Err::<Cycles, Exception>(e) && c1 == mid,
                Ok(v) => r == Ok::<Cycles, Exception>(Cycles(12))
                    && c1 == common::compare_8_outcome(mid, mid.dar[ir_dx(mid.ir)], v).0,
            }
}

pub fn cmp_8_pcdi(core: &mut ConfiguredCore) -> (r: Result<Cycles>)
    requires
        old(core).wf(),
    ensures
        final(core).wf(),
        cmp_8_pcdi_effect(*old(core), *final(core), r),
{
    let ghost c0 = *core;
    let src = operator::pcdi_8(core);
    let ghost mid = *core;
    assert(operator::pcdi_8_rel(c0, mid, src));
    match src {
        Err(e) => Err(e),
        Ok(v) => {
            let dst = core.dar[reg_dx(core.ir)];
            let _ = common::cmp_8(core, dst, v);
            Ok(Cycles(12))
        },
    }
}

/// What `cmp_8_pcix` does: the core goes from `c0` to `c1` and `r` comes back.
pub open spec fn cmp_8_pcix_effect(c0: ConfiguredCore, c1: ConfiguredCore, r: Result<Cycles>) -> bool {
    &&& exists|mid: ConfiguredCore, src: Result<u32>|
            #[trigger] operator::pcix_8_rel(c0, mid, src) && match src {
                Err(e) => r == Err::<Cycles, Exception>(e) && c1 == mid,
                Ok(v) => r == Ok::<Cycles, Exception>(Cycles(14))
                    && c1 == common::compare_8_outcome(mid, mid.dar[ir_dx(mid.ir)], v).0,
            }
}

pub fn cmp_8_pcix(core: &mut ConfiguredCore) -> (r: Result<Cycles>)
    requires
        old(core).wf(),
    ensures
        final(core).wf(),
        cmp_8_pcix_effect(*old(core), *final(core), r),
{
    let ghost c0 = *core;
    let src = operator::pcix_8(core);
    let ghost mid = *core;
    assert(operator::pcix_8_rel(c0, mid, src));
    match src {
        Err(e) => Err(e),
        Ok(v) => {
            let dst = core.dar[reg_dx(core.ir)];
            let _ = common::cmp_8(core, dst, v);
            Ok(Cycles(14))
        },
    }
}

/// What `cmp_8_imm` does: the core goes from `c0` to `c1` and `r` comes back.
pub open spec fn cmp_8_imm_effect(c0: ConfiguredCore, c1: ConfiguredCore, r: Result<Cycles>) -> bool {
    &&& exists|mid: ConfiguredCore, src: Result<u32>|
            #[trigger] operator::imm_8_rel(c0, mid, src) && match src {
                Err(e) => r == Err::<Cycles, Exception>(e) && c1 == mid,
                Ok(v) => r == Ok::<Cycles, Exception>(Cycles(8))
                    && c1 == common::compare_8_outcome(mid, mid.dar[ir_dx(mid.ir)], v).0,
            }
}

pub fn cmp_8_imm(core: &mut ConfiguredCore) -> (r: Result<Cycles>)
    requires
        old(core).wf(),
    ensures
        final(core).wf(),
        cmp_8_imm_effect(*old(core), *final(core), r),
{
    let ghost c0 = *core;
    let src = operator::imm_8(core);
    let ghost mid = *core;
    assert(operator::imm_8_rel(c0, mid, src));
    match src {
        Err(e) => Err(e),
        Ok(v) => {
            let dst = core.dar[reg_dx(core.ir)];
            let _ = common::cmp_8(core, dst, v);
            Ok(Cycles(8))
        },
    }
}

/// What `cmp_16_dn` does: the core goes from `c0` to `c1` and `r` comes back.
pub open spec fn cmp_16_dn_effect(c0: ConfiguredCore, c1: ConfiguredCore, r: Result<Cycles>) -> bool {
    &&& exists|mid: ConfiguredCore, src: Result<u32>|
            #[trigger] operator::dy_rel(c0, mid, src) && match src {
                Err(e) => r == Err::<Cycles, Exception>(e) && c1 == mid,
                Ok(v) => r == Ok::<Cycles, Exception>(Cycles(4))
                    && c1 == common::compare_16_outcome(mid, mid.dar[ir_dx(mid.ir)], v).0,
            }
}

pub fn cmp_16_dn(core: &mut ConfiguredCore) -> (r: Result<Cycles>)
    requires
        old(core).wf(),
    ensures
        final(core).wf(),
        cmp_16_dn_effect(*old(core), *final(core), r),
{
    let ghost c0 = *core;
    let src = operator::dy(core);
    let ghost mid = *core;
    assert(operator::dy_rel(c0, mid, src));
    match src {
        Err(e) => Err(e),
        Ok(v) => {
            let dst = core.dar[reg_dx(core.ir)];
            let _ = common::cmp_16(core, dst, v);
            Ok(Cycles(4))
        },
    }
}

/// What `cmp_16_an` does: the core goes from `c0` to `c1` and `r` comes back.
pub open spec fn cmp_16_an_effect(c0: ConfiguredCore, c1: ConfiguredCore, r: Result<Cycles>) -> bool {
    &&& exists|mid: ConfiguredCore, src: Result<u32>|
            #[trigger] operator::ay_rel(c0, mid, src) && match src {
                Err(e) => r == Err::<Cycles, Exception>(e) && c1 == mid,
                Ok(v) => r == Ok::<Cycles, Exception>(Cycles(4))
                    && c1 == common::compare_16_outcome(mid, mid.dar[ir_dx(mid.ir)], v).0,
            }
}

pub fn cmp_16_an(core: &mut ConfiguredCore) -> (r: Result<Cycles>)
    requires
        old(core).wf(),
    ensures
        final(core).wf(),
        cmp_16_an_effect(*old(core), *final(core), r),
{
    let ghost c0 = *core;
    let src = operator::ay(core);
    let ghost mid = *core;
    assert(operator::ay_rel(c0, mid, src));
    match src {
        Err(e) => Err(e),
        Ok(v) => {
            let dst = core.dar[reg_dx(core.ir)];
            let _ = common::cmp_16(core, dst, v);
            Ok(Cycles(4))
        },
    }
}

/// What `cmp_16_ai` does: the core goes from `c0` to `c1` and `r` comes back.
pub open spec fn cmp_16_ai_effect(c0: ConfiguredCore, c1: ConfiguredCore, r: Result<Cycles>) -> bool {
    &&& exists|mid: ConfiguredCore, src: Result<u32>|
            #[trigger] operator::ay_ai_16_rel(c0, mid, src) && match src {
                Err(e) => r == Err::<Cycles, Exception>(e) && c1 == mid,
                Ok(v) => r == Ok::<Cycles, Exception>(Cycles(8))
                    && c1 == common::compare_16_outcome(mid, mid.dar[ir_dx(mid.ir)], v).0,
            }
}

pub fn cmp_16_ai(core: &mut ConfiguredCore) -> (r: Result<Cycles>)
    requires
        old(core).wf(),
    ensures
        final(core).wf(),
        cmp_16_ai_effect(*old(core), *final(core), r),
{
    let ghost c0 = *core;
    let src = operator::ay_ai_16(core);
    let ghost mid = *core;
    assert(operator::ay_ai_16_rel(c0, mid, src));
    match src {
        Err(e) => Err(e),
        Ok(v) => {
            let dst = core.dar[reg_dx(core.ir)];
            let _ = common::cmp_16(core, dst, v);
            Ok(Cycles(8))
        },
    }
}

/// What `cmp_16_pi` does: the core goes from `c0` to `c1` and `r` comes back.
pub open spec fn cmp_16_pi_effect(c0: ConfiguredCore, c1: ConfiguredCore, r: Result<Cycles>) -> bool {
    &&& exists|mid: ConfiguredCore, src: Result<u32>|
            #[trigger] operator::ay_pi_16_rel(c0, mid, src) && match src {
                Err(e) => r == Err::<Cycles, Exception>(e) && c1 == mid,
                Ok(v) => r == Ok::<Cycles, Exception>(Cycles(8))
                    && c1 == common::compare_16_outcome(mid, mid.dar[ir_dx(mid.ir)], v).0,
            }
}

pub fn cmp_16_pi(core: &mut ConfiguredCore) -> (r: Result<Cycles>)
    requires
        old(core).wf(),
    ensures
        final(core).wf(),
        cmp_16_pi_effect(*old(core), *final(core), r),
{
    let ghost c0 = *core;
    let src = operator::ay_pi_16(core);
    let ghost mid = *core;
    assert(operator::ay_pi_16_rel(c0, mid, src));
    match src {
        Err(e) => Err(e),
        Ok(v) => {
            let dst = core.dar[reg_dx(core.ir)];
            let _ = common::cmp_16(core, dst, v);
            Ok(Cycles(8))
        },
    }
}

/// What `cmp_16_pd` does: the core goes from `c0` to `c1` and `r` comes back.
pub open spec fn cmp_16_pd_effect(c0: ConfiguredCore, c1: ConfiguredCore, r: Result<Cycles>) -> bool {
    &&& exists|mid: ConfiguredCore, src: Result<u32>|
            #[trigger] operator::ay_pd_16_rel(c0, mid, src) && match src {
                Err(e) => r == Err::<Cycles, Exception>(e) && c1 == mid,
                Ok(v) => r == Ok::<Cycles, Exception>(Cycles(10))
                    && c1 == common::compare_16_outcome(mid, mid.dar[ir_dx(mid.ir)], v).0,
            }
}

pub fn cmp_16_pd(core: &mut ConfiguredCore) -> (r: Result<Cycles>)
    requires
        old(core).wf(),
    ensures
        final(core).wf(),
        cmp_16_pd_effect(*old(core), *final(core), r),
{
    let ghost c0 = *core;
    let src = operator::ay_pd_16(core);
    let ghost mid = *core;
    assert(operator::ay_pd_16_rel(c0, mid, src));
    match src {
        Err(e) => Err(e),
        Ok(v) => {
            let dst = core.dar[reg_dx(core.ir)];
            let _ = common::cmp_16(core, dst, v);
            Ok(Cycles(10))
        },
    }
}

/// What `cmp_16_di` does: the core goes from `c0` to `c1` and `r` comes back.
pub open spec fn cmp_16_di_effect(c0: ConfiguredCore, c1: ConfiguredCore, r: Result<Cycles>) -> bool {
    &&& exists|mid: ConfiguredCore, src: Result<u32>|
            #[trigger] operator::ay_di_16_rel(c0, mid, src) && match src {
                Err(e) => r == Err::<Cycles, Exception>(e) && c1 == mid,
                Ok(v) => r == Ok::<Cycles, Exception>(Cycles(12))
                    && c1 == common::compare_16_outcome(mid, mid.dar[ir_dx(mid.ir)], v).0,
            }
}

pub fn cmp_16_di(core: &mut ConfiguredCore) -> (r: Result<Cycles>)
    requires
        old(core).wf(),
    ensures
        final(core).wf(),
        cmp_16_di_effect(*old(core), *final(core), r),
{
    let ghost c0 = *core;
    let src = operator::ay_di_16(core);
    let ghost mid = *core;
    assert(operator::ay_di_16_rel(c0, mid, src));
    match src {
        Err(e) => Err(e),
        Ok(v) => {
            let dst = core.dar[reg_dx(core.ir)];
            let _ = common::cmp_16(core, dst, v);
            Ok(Cycles(12))
        },
    }
}

/// What `cmp_16_ix` does: the core goes from `c0` to `c1` and `r` comes back.
pub open spec fn cmp_16_ix_effect(c0: ConfiguredCore, c1: ConfiguredCore, r: Result<Cycles>) -> bool {
    &&& exists|mid: ConfiguredCore, src: Result<u32>|
            #[trigger] operator::ay_ix_16_rel(c0, mid, src) && match src {
                Err(e) => r == Err::<Cycles, Exception>(e) && c1 == mid,
                Ok(v) => r == Ok::<Cycles, Exception>(Cycles(14))
                    && c1 == common::compare_16_outcome(mid, mid.dar[ir_dx(mid.ir)], v).0,
            }
}

pub fn cmp_16_ix(core: &mut ConfiguredCore) -> (r: Result<Cycles>)
    requires
        old(core).wf(),
    ensures
        final(core).wf(),
        cmp_16_ix_effect(*old(core), *final(core), r),
{
    let ghost c0 = *core;
    let src = operator::ay_ix_16(core);
    let ghost mid = *core;
    assert(operator::ay_ix_16_rel(c0, mid, src));
    match src {
        Err(e) => Err(e),
        Ok(v) => {
            let dst = core.dar[reg_dx(core.ir)];
            let _ = common::cmp_16(core, dst, v);
            Ok(Cycles(14))
        },
    }
}

/// What `cmp_16_aw` does: the core goes from `c0` to `c1` and `r` comes back.
pub open spec fn cmp_16_aw_effect(c0: ConfiguredCore, c1: ConfiguredCore, r: Result<Cycles>) -> bool {
    &&& exists|mid: ConfiguredCore, src: Result<u32>|
            #[trigger] operator::aw_16_rel(c0, mid, src) && match src {
                Err(e) => r == Err::<Cycles, Exception>(e) && c1 == mid,
                Ok(v) => r == Ok::<Cycles, Exception>(Cycles(12))
                    && c1 == common::compare_16_outcome(mid, mid.dar[ir_dx(mid.ir)], v).0,
            }
}

pub fn cmp_16_aw(core: &mut ConfiguredCore) -> (r: Result<Cycles>)
    requires
        old(core).wf(),
    ensures
        final(core).wf(),
        cmp_16_aw_effect(*old(core), *final(core), r),
{
    let ghost c0 = *core;
    let src = operator::aw_16(core);
    let ghost mid = *core;
    assert(operator::aw_16_rel(c0, mid, src));
    match src {
        Err(e) => Err(e),
        Ok(v) => {
            let dst = core.dar[reg_dx(core.ir)];
            let _ = common::cmp_16(core, dst, v);
            Ok(Cycles(12))
        },
    }
}

/// What `cmp_16_al` does: the core goes from `c0` to `c1` and `r` comes back.
pub open spec fn cmp_16_al_effect(c0: ConfiguredCore, c1: ConfiguredCore, r: Result<Cycles>) -> bool {
    &&& exists|mid: ConfiguredCore, src: Result<u32>|
            #[trigger] operator::al_16_rel(c0, mid, src) && match src {
                Err(e) => r == Err::<Cycles, Exception>(e) && c1 == mid,
                Ok(v) => r == Ok::<Cycles, Exception>(Cycles(16))
                    && c1 == common::compare_16_outcome(mid, mid.dar[ir_dx(mid.ir)], v).0,
            }
}

pub fn cmp_16_al(core: &mut ConfiguredCore) -> (r: Result<Cycles>)
    requires
        old(core).wf(),
    ensures
        final(core).wf(),
        cmp_16_al_effect(*old(core), *final(core), r),
{
    let ghost c0 = *core;
    let src = operator::al_16(core);
    let ghost mid = *core;
    assert(operator::al_16_rel(c0, mid, src));
    match src {
        Err(e) => Err(e),
        Ok(v) => {
            let dst = core.dar[reg_dx(core.ir)];
            let _ = common::cmp_16(core, dst, v);
            Ok(Cycles(16))
        },
    }
}

/// What `cmp_16_pcdi` does: the core goes from `c0` to `c1` and `r` comes back.
pub open spec fn cmp_16_pcdi_effect(c0: ConfiguredCore, c1: ConfiguredCore, r: Result<Cycles>) -> bool {
    &&& exists|mid: ConfiguredCore, src: Result<u32>|
            #[trigger] operator::pcdi_16_rel(c0, mid, src) && match src {
                Err(e) => r == Err::<Cycles, Exception>(e) && c1 == mid,
                Ok(v) => r == Ok::<Cycles, Exception>(Cycles(12))
                    && c1 == common::compare_16_outcome(mid, mid.dar[ir_dx(mid.ir)], v).0,
            }
}

pub fn cmp_16_pcdi(core: &mut ConfiguredCore) -> (r: Result<Cycles>)
    requires
        old(core).wf(),
    ensures
        final(core).wf(),
        cmp_16_pcdi_effect(*old(core), *final(core), r),
{
    let ghost c0 = *core;
    let src = operator::pcdi_16(core);
    let ghost mid = *core;
    assert(operator::pcdi_16_rel(c0, mid, src));
    match src {
        Err(e) => Err(e),
        Ok(v) => {
            let dst = core.dar[reg_dx(core.ir)];
            let _ = common::cmp_16(core, dst, v);
            Ok(Cycles(12))
        },
    }
}

/// What `cmp_16_pcix` does: the core goes from `c0` to `c1` and `r` comes back.
pub open spec fn cmp_16_pcix_effect(c0: ConfiguredCore, c1: ConfiguredCore, r: Result<Cycles>) -> bool {
    &&& exists|mid: ConfiguredCore, src: Result<u32>|
            #[trigger] operator::pcix_16_rel(c0, mid, src) && match src {
                Err(e) => r == Err::<Cycles, Exception>(e) && c1 == mid,
                Ok(v) => r == Ok::<Cycles, Exception>(Cycles(14))
                    && c1 == common::compare_16_outcome(mid, mid.dar[ir_dx(mid.ir)], v).0,
            }
}

pub fn cmp_16_pcix(core: &mut ConfiguredCore) -> (r: Result<Cycles>)
    requires
        old(core).wf(),
    ensures
        final(core).wf(),
        cmp_16_pcix_effect(*old(core), *final(core), r),
{
    let ghost c0 = *core;
    let src = operator::pcix_16(core);
    let ghost mid = *core;
    assert(operator::pcix_16_rel(c0, mid, src));
    match src {
        Err(e) => Err(e),
        Ok(v) => {
            let dst = core.dar[reg_dx(core.ir)];
            let _ = common::cmp_16(core, dst, v);
            Ok(Cycles(14))
        },
    }
}

/// What `cmp_16_imm` does: the core goes from `c0` to `c1` and `r` comes back.
pub open spec fn cmp_16_imm_effect(c0: ConfiguredCore, c1: ConfiguredCore, r: Result<Cycles>) -> bool {
    &&& exists|mid: ConfiguredCore, src: Result<u32>|
            #[trigger] operator::imm_16_rel(c0, mid, src) && match src {
                Err(e) => r == Err::<Cycles, Exception>(e) && c1 == mid,
                Ok(v) => r == Ok::<Cycles, Exception>(Cycles(8))
                    && c1 == common::compare_16_outcome(mid, mid.dar[ir_dx(mid.ir)], v).0,
            }
}

pub fn cmp_16_imm(core: &mut ConfiguredCore) -> (r: Result<Cycles>)
    requires
        old(core).wf(),
    ensures
        final(core).wf(),
        cmp_16_imm_effect(*old(core), *final(core), r),
{
    let ghost c0 = *core;
    let src = operator::imm_16(core);
    let ghost mid = *core;
    assert(operator::imm_16_rel(c0, mid, src));
    match src {
        Err(e) => Err(e),
        Ok(v) => {
            let dst = core.dar[reg_dx(core.ir)];
            let _ = common::cmp_16(core, dst, v);
            Ok(Cycles(8))
        },
    }
}

/// What `cmp_32_dn` does: the core goes from `c0` to `c1` and `r` comes back.
pub open spec fn cmp_32_dn_effect(c0: ConfiguredCore, c1: ConfiguredCore, r: Result<Cycles>) -> bool {
    &&& exists|mid: ConfiguredCore, src: Result<u32>|
            #[trigger] operator::dy_rel(c0, mid, src) && match src {
                Err(e) => r == Err::<Cycles, Exception>(e) && c1 == mid,
                Ok(v) => r == Ok::<Cycles, Exception>(Cycles(6))
                    && c1 == common::compare_32_outcome(mid, mid.dar[ir_dx(mid.ir)], v).0,
            }
}

pub fn cmp_32_dn(core: &mut ConfiguredCore) -> (r: Result<Cycles>)
    requires
        old(core).wf(),
    ensures
        final(core).wf(),
        cmp_32_dn_effect(*old(core), *final(core), r),
{
    let ghost c0 = *core;
    let src = operator::dy(core);
    let ghost mid = *core;
    assert(operator::dy_rel(c0, mid, src));
    match src {
        Err(e) => Err(e),
        Ok(v) => {
            let dst = core.dar[reg_dx(core.ir)];
            let _ = common::cmp_32(core, dst, v);
            Ok(Cycles(6))
        },
    }
}

/// What `cmp_32_an` does: the core goes from `c0` to `c1` and `r` comes back.
pub open spec fn cmp_32_an_effect(c0: ConfiguredCore, c1: ConfiguredCore, r: Result<Cycles>) -> bool {
    &&& exists|mid: ConfiguredCore, src: Result<u32>|
            #[trigger] operator::ay_rel(c0, mid, src) && match src {
                Err(e) => r == Err::<Cycles, Exception>(e) && c1 == mid,
                Ok(v) => r == Ok::<Cycles, Exception>(Cycles(6))
                    && c1 == common::compare_32_outcome(mid, mid.dar[ir_dx(mid.ir)], v).0,
            }
}

pub fn cmp_32_an(core: &mut ConfiguredCore) -> (r: Result<Cycles>)
    requires
        old(core).wf(),
    ensures
        final(core).wf(),
        cmp_32_an_effect(*old(core), *final(core), r),
{
    let ghost c0 = *core;
    let src = operator::ay(core);
    let ghost mid = *core;
    assert(operator::ay_rel(c0, mid, src));
    match src {
        Err(e) => Err(e),
        Ok(v) => {
            let dst = core.dar[reg_dx(core.ir)];
            let _ = common::cmp_32(core, dst, v);
            Ok(Cycles(6))
        },
    }
}

/// What `cmp_32_ai` does: the core goes from `c0` to `c1` and `r` comes back.
pub open spec fn cmp_32_ai_effect(c0: ConfiguredCore, c1: ConfiguredCore, r: Result<Cycles>) -> bool {
    &&& exists|mid: ConfiguredCore, src: Result<u32>|
            #[trigger] operator::ay_ai_32_rel(c0, mid, src) && match src {
                Err(e) => r == Err::<Cycles, Exception>(e) && c1 == mid,
                Ok(v) => r == Ok::<Cycles, Exception>(Cycles(14))
                    && c1 == common::compare_32_outcome(mid, mid.dar[ir_dx(mid.ir)], v).0,
            }
}

pub fn cmp_32_ai(core: &mut ConfiguredCore) -> (r: Result<Cycles>)
    requires
        old(core).wf(),
    ensures
        final(core).wf(),
        cmp_32_ai_effect(*old(core), *final(core), r),
{
    let ghost c0 = *core;
    let src = operator::ay_ai_32(core);
    let ghost mid = *core;
    assert(operator::ay_ai_32_rel(c0, mid, src));
    match src {
        Err(e) => Err(e),
        Ok(v) => {
            let dst = core.dar[reg_dx(core.ir)];
            let _ = common::cmp_32(core, dst, v);
            Ok(Cycles(14))
        },
    }
}

/// What `cmp_32_pi` does: the core goes from `c0` to `c1` and `r` comes back.
pub open spec fn cmp_32_pi_effect(c0: ConfiguredCore, c1: ConfiguredCore, r: Result<Cycles>) -> bool {
    &&& exists|mid: ConfiguredCore, src: Result<u32>|
            #[trigger] operator::ay_pi_32_rel(c0, mid, src) && match src {
                Err(e) => r == Err::<Cycles, Exception>(e) && c1 == mid,
                Ok(v) => r == Ok::<Cycles, Exception>(Cycles(14))
                    && c1 == common::compare_32_outcome(mid, mid.dar[ir_dx(mid.ir)], v).0,
            }
}

pub fn cmp_32_pi(core: &mut ConfiguredCore) -> (r: Result<Cycles>)
    requires
        old(core).wf(),
    ensures
        final(core).wf(),
        cmp_32_pi_effect(*old(core), *final(core), r),
{
    let ghost c0 = *core;
    let src = operator::ay_pi_32(core);
    let ghost mid = *core;
    assert(operator::ay_pi_32_rel(c0, mid, src));
    match src {
        Err(e) => Err(e),
        Ok(v) => {
            let dst = core.dar[reg_dx(core.ir)];
            let _ = common::cmp_32(core, dst, v);
            Ok(Cycles(14))
        },
    }
}

/// What `cmp_32_pd` does: the core goes from `c0` to `c1` and `r` comes back.
pub open spec fn cmp_32_pd_effect(c0: ConfiguredCore, c1: ConfiguredCore, r: Result<Cycles>) -> bool {
    &&& exists|mid: ConfiguredCore, src: Result<u32>|
            #[trigger] operator::ay_pd_32_rel(c0, mid, src) && match src {
                Err(e) => r == Err::<Cycles, Exception>(e) && c1 == mid,
                Ok(v) => r == Ok::<Cycles, Exception>(Cycles(16))
                    && c1 == common::compare_32_outcome(mid, mid.dar[ir_dx(mid.ir)], v).0,
            }
}

pub fn cmp_32_pd(core: &mut ConfiguredCore) -> (r: Result<Cycles>)
    requires
        old(core).wf(),
    ensures
        final(core).wf(),
        cmp_32_pd_effect(*old(core), *final(core), r),
{
    let ghost c0 = *core;
    let src = operator::ay_pd_32(core);
    let ghost mid = *core;
    assert(operator::ay_pd_32_rel(c0, mid, src));
    match src {
        Err(e) => Err(e),
        Ok(v) => {
            let dst = core.dar[reg_dx(core.ir)];
            let _ = common::cmp_32(core, dst, v);
            Ok(Cycles(16))
        },
    }
}

/// What `cmp_32_di` does: the core goes from `c0` to `c1` and `r` comes back.
pub open spec fn cmp_32_di_effect(c0: ConfiguredCore, c1: ConfiguredCore, r: Result<Cycles>) -> bool {
    &&& exists|mid: ConfiguredCore, src: Result<u32>|
            #[trigger] operator::ay_di_32_rel(c0, mid, src) && match src {
                Err(e) => r == Err::<Cycles, Exception>(e) && c1 == mid,
                Ok(v) => r == Ok::<Cycles, Exception>(Cycles(18))
                    && c1 == common::compare_32_outcome(mid, mid.dar[ir_dx(mid.ir)], v).0,
            }
}

pub fn cmp_32_di(core: &mut ConfiguredCore) -> (r: Result<Cycles>)
    requires
        old(core).wf(),
    ensures
        final(core).wf(),
        cmp_32_di_effect(*old(core), *final(core), r),
{
    let ghost c0 = *core;
    let src = operator::ay_di_32(core);
    let ghost mid = *core;
    assert(operator::ay_di_32_rel(c0, mid, src));
    match src {
        Err(e) => Err(e),
        Ok(v) => {
            let dst = core.dar[reg_dx(core.ir)];
            let _ = common::cmp_32(core, dst, v);
            Ok(Cycles(18))
        },
    }
}

/// What `cmp_32_ix` does: the core goes from `c0` to `c1` and `r` comes back.
pub open spec fn cmp_32_ix_effect(c0: ConfiguredCore, c1: ConfiguredCore, r: Result<Cycles>) -> bool {
    &&& exists|mid: ConfiguredCore, src: Result<u32>|
            #[trigger] operator::ay_ix_32_rel(c0, mid, src) && match src {
                Err(e) => r == Err::<Cycles, Exception>(e) && c1 == mid,
                Ok(v) => r == Ok::<Cycles, Exception>(Cycles(20))
                    && c1 == common::compare_32_outcome(mid, mid.dar[ir_dx(mid.ir)], v).0,
            }
}

pub fn cmp_32_ix(core: &mut ConfiguredCore) -> (r: Result<Cycles>)
    requires
        old(core).wf(),
    ensures
        final(core).wf(),
        cmp_32_ix_effect(*old(core), *final(core), r),
{
    let ghost c0 = *core;
    let src = operator::ay_ix_32(core);
    let ghost mid = *core;
    assert(operator::ay_ix_32_rel(c0, mid, src));
    match src {
        Err(e) => Err(e),
        Ok(v) => {
            let dst = core.dar[reg_dx(core.ir)];
            let _ = common::cmp_32(core, dst, v);
            Ok(Cycles(20))
        },
    }
}

/// What `cmp_32_aw` does: the core goes from `c0` to `c1` and `r` comes back.
pub open spec fn cmp_32_aw_effect(c0: ConfiguredCore, c1: ConfiguredCore, r: Result<Cycles>) -> bool {
    &&& exists|mid: ConfiguredCore, src: Result<u32>|
            #[trigger] operator::aw_32_rel(c0, mid, src) && match src {
                Err(e) => r == Err::<Cycles, Exception>(e) && c1 == mid,
                Ok(v) => r == Ok::<Cycles, Exception>(Cycles(18))
                    && c1 == common::compare_32_outcome(mid, mid.dar[ir_dx(mid.ir)], v).0,
            }
}

pub fn cmp_32_aw(core: &mut ConfiguredCore) -> (r: Result<Cycles>)
    requires
        old(core).wf(),
    ensures
        final(core).wf(),
        cmp_32_aw_effect(*old(core), *final(core), r),
{
    let ghost c0 = *core;
    let src = operator::aw_32(core);
    let ghost mid = *core;
    assert(operator::aw_32_rel(c0, mid, src));
    match src {
        Err(e) => Err(e),
        Ok(v) => {
            let dst = core.dar[reg_dx(core.ir)];
            let _ = common::cmp_32(core, dst, v);
            Ok(Cycles(18))
        },
    }
}

/// What `cmp_32_al` does: the core goes from `c0` to `c1` and `r` comes back.
pub open spec fn cmp_32_al_effect(c0: ConfiguredCore, c1: ConfiguredCore, r: Result<Cycles>) -> bool {
    &&& exists|mid: ConfiguredCore, src: Result<u32>|
            #[trigger] operator::al_32_rel(c0, mid, src) && match src {
                Err(e) => r == Err::<Cycles, Exception>(e) && c1 == mid,
                Ok(v) => r == Ok::<Cycles, Exception>(Cycles(22))
                    && c1 == common::compare_32_outcome(mid, mid.dar[ir_dx(mid.ir)], v).0,
            }
}

pub fn cmp_32_al(core: &mut ConfiguredCore) -> (r: Result<Cycles>)
    requires
        old(core).wf(),
    ensures
        final(core).wf(),
        cmp_32_al_effect(*old(core), *final(core), r),
{
    let ghost c0 = *core;
    let src = operator::al_32(core);
    let ghost mid = *core;
    assert(operator::al_32_rel(c0, mid, src));
    match src {
        Err(e) => Err(e),
        Ok(v) => {
            let dst = core.dar[reg_dx(core.ir)];
            let _ = common::cmp_32(core, dst, v);
            Ok(Cycles(22))
        },
    }
}

/// What `cmp_32_pcdi` does: the core goes from `c0` to `c1` and `r` comes back.
pub open spec fn cmp_32_pcdi_effect(c0: ConfiguredCore, c1: ConfiguredCore, r: Result<Cycles>) -> bool {
    &&& exists|mid: ConfiguredCore, src: Result<u32>|
            #[trigger] operator::pcdi_32_rel(c0, mid, src) && match src {
                Err(e) => r == Err::<Cycles, Exception>(e) && c1 == mid,
                Ok(v) => r == Ok::<Cycles, Exception>(Cycles(18))
                    && c1 == common::compare_32_outcome(mid, mid.dar[ir_dx(mid.ir)], v).0,
            }
}

pub fn cmp_32_pcdi(core: &mut ConfiguredCore) -> (r: Result<Cycles>)
    requires
        old(core).wf(),
    ensures
        final(core).wf(),
        cmp_32_pcdi_effect(*old(core), *final(core), r),
{
    let ghost c0 = *core;
    let src = operator::pcdi_32(core);
    let ghost mid = *core;
    assert(operator::pcdi_32_rel(c0, mid, src));
    match src {
        Err(e) => Err(e),
        Ok(v) => {
            let dst = core.dar[reg_dx(core.ir)];
            let _ = common::cmp_32(core, dst, v);
            Ok(Cycles(18))
        },
    }
}

/// What `cmp_32_pcix` does: the core goes from `c0` to `c1` and `r` comes back.
pub open spec fn cmp_32_pcix_effect(c0: ConfiguredCore, c1: ConfiguredCore, r: Result<Cycles>) -> bool {
    &&& exists|mid: ConfiguredCore, src: Result<u32>|
            #[trigger] operator::pcix_32_rel(c0, mid, src) && match src {
                Err(e) => r == Err::<Cycles, Exception>(e) && c1 == mid,
                Ok(v) => r == Ok::<Cycles, Exception>(Cycles(20))
                    && c1 == common::compare_32_outcome(mid, mid.dar[ir_dx(mid.ir)], v).0,
            }
}

pub fn cmp_32_pcix(core: &mut ConfiguredCore) -> (r: Result<Cycles>)
    requires
        old(core).wf(),
    ensures
        final(core).wf(),
        cmp_32_pcix_effect(*old(core), *final(core), r),
{
    let ghost c0 = *core;
    let src = operator::pcix_32(core);
    let ghost mid = *core;
    assert(operator::pcix_32_rel(c0, mid, src));
    match src {
        Err(e) => Err(e),
        Ok(v) => {
            let dst = core.dar[reg_dx(core.ir)];
            let _ = common::cmp_32(core, dst, v);
            Ok(Cycles(20))
        },
    }
}

/// What `cmp_32_imm` does: the core goes from `c0` to `c1` and `r` comes back.
pub open spec fn cmp_32_imm_effect(c0: ConfiguredCore, c1: ConfiguredCore, r: Result<Cycles>) -> bool {
    &&& exists|mid: ConfiguredCore, src: Result<u32>|
            #[trigger] operator::imm_32_rel(c0, mid, src) && match src {
                Err(e) => r == Err::<Cycles, Exception>(e) && c1 == mid,
                Ok(v) => r == Ok::<Cycles, Exception>(Cycles(14))
                    && c1 == common::compare_32_outcome(mid, mid.dar[ir_dx(mid.ir)], v).0,
            }
}

pub fn cmp_32_imm(core: &mut ConfiguredCore) -> (r: Result<Cycles>)
    requires
        old(core).wf(),
    ensures
        final(core).wf(),
        cmp_32_imm_effect(*old(core), *final(core), r),
{
    let ghost c0 = *core;
    let src = operator::imm_32(core);
    let ghost mid = *core;
    assert(operator::imm_32_rel(c0, mid, src));
    match src {
        Err(e) => Err(e),
        Ok(v) => {
            let dst = core.dar[reg_dx(core.ir)];
            let _ = common::cmp_32(core, dst, v);
            Ok(Cycles(14))
        },
    }
}

/// What `cmpm_8` does: the core goes from `c0` to `c1` and `r` comes back.
pub open spec fn cmpm_8_effect(c0: ConfiguredCore, c1: ConfiguredCore, r: Result<Cycles>) -> bool {
    &&& exists|m1: ConfiguredCore, src: Result<u32>|
            #[trigger] operator::ay_pi_8_rel(c0, m1, src) && match src {
                Err(e) => r == Err::<Cycles, Exception>(e) && c1 == m1,
                Ok(v) => exists|m2: ConfiguredCore, d: Result<u32>|
                    #[trigger] operator::ax_pi_8_rel(m1, m2, d) && match d {
                        Err(e) => r == Err::<Cycles, Exception>(e) && c1 == m2,
                        Ok(dv) => r == Ok::<Cycles, Exception>(Cycles(12))
                            && c1 == common::compare_8_outcome(m2, dv, v).0,
                    },
            }
}

pub fn cmpm_8(core: &mut ConfiguredCore) -> (r: Result<Cycles>)
    requires
        old(core).wf(),
    ensures
        final(core).wf(),
        cmpm_8_effect(*old(core), *final(core), r),
{
    let ghost c0 = *core;
    let src = operator::ay_pi_8(core);
    let ghost m1 = *core;
    assert(operator::ay_pi_8_rel(c0, m1, src));
    let v = match src {
        Err(e) => {
            return Err(e);
        },
        Ok(v) => v,
    };
    let d = operator::ax_pi_8(core);
    let ghost m2 = *core;
    assert(operator::ax_pi_8_rel(m1, m2, d));
    match d {
        Err(e) => Err(e),
        Ok(dv) => {
            let _ = common::cmp_8(core, dv, v);
            Ok(Cycles(12))
        },
    }
}

/// What `cmpm_16` does: the core goes from `c0` to `c1` and `r` comes back.
pub open spec fn cmpm_16_effect(c0: ConfiguredCore, c1: ConfiguredCore, r: Result<Cycles>) -> bool {
    &&& exists|m1: ConfiguredCore, src: Result<u32>|
            #[trigger] operator::ay_pi_16_rel(c0, m1, src) && match src {
                Err(e) => r == Err::<Cycles, Exception>(e) && c1 == m1,
                Ok(v) => exists|m2: ConfiguredCore, d: Result<u32>|
                    #[trigger] operator::ax_pi_16_rel(m1, m2, d) && match d {
                        Err(e) => r == Err::<Cycles, Exception>(e) && c1 == m2,
                        Ok(dv) => r == Ok::<Cycles, Exception>(Cycles(12))
                            && c1 == common::compare_16_outcome(m2, dv, v).0,
                    },
            }
}

pub fn cmpm_16(core: &mut ConfiguredCore) -> (r: Result<Cycles>)
    requires
        old(core).wf(),
    ensures
        final(core).wf(),
        cmpm_16_effect(*old(core), *final(core), r),
{
    let ghost c0 = *core;
    let src = operator::ay_pi_16(core);
    let ghost m1 = *core;
    assert(operator::ay_pi_16_rel(c0, m1, src));
    let v = match src {
        Err(e) => {
            return Err(e);
        },
        Ok(v) => v,
    };
    let d = operator::ax_pi_16(core);
    let ghost m2 = *core;
    assert(operator::ax_pi_16_rel(m1, m2, d));
    match d {
        Err(e) => Err(e),
        Ok(dv) => {
            let _ = common::cmp_16(core, dv, v);
            Ok(Cycles(12))
        },
    }
}

/// What `cmpm_32` does: the core goes from `c0` to `c1` and `r` comes back.
pub open spec fn cmpm_32_effect(c0: ConfiguredCore, c1: ConfiguredCore, r: Result<Cycles>) -> bool {
    &&& exists|m1: ConfiguredCore, src: Result<u32>|
            #[trigger] operator::ay_pi_32_rel(c0, m1, src) && match src {
                Err(e) => r == Err::<Cycles, Exception>(e) && c1 == m1,
                Ok(v) => exists|m2: ConfiguredCore, d: Result<u32>|
                    #[trigger] operator::ax_pi_32_rel(m1, m2, d) && match d {
                        Err(e) => r == Err::<Cycles, Exception>(e) && c1 == m2,
                        Ok(dv) => r == Ok::<Cycles, Exception>(Cycles(20))
                            && c1 == common::compare_32_outcome(m2, dv, v).0,
                    },
            }
}

pub fn cmpm_32(core: &mut ConfiguredCore) -> (r: Result<Cycles>)
    requires
        old(core).wf(),
    ensures
        final(core).wf(),
        cmpm_32_effect(*old(core), *final(core), r),
{
    let ghost c0 = *core;
    let src = operator::ay_pi_32(core);
    let ghost m1 = *core;
    assert(operator::ay_pi_32_rel(c0, m1, src));
    let v = match src {
        Err(e) => {
            return Err(e);
        },
        Ok(v) => v,
    };
    let d = operator::ax_pi_32(core);
    let ghost m2 = *core;
    assert(operator::ax_pi_32_rel(m1, m2, d));
    match d {
        Err(e) => Err(e),
        Ok(dv) => {
            let _ = common::cmp_32(core, dv, v);
            Ok(Cycles(20))
        },
    }
}

/// What `sbcd_8_rr` does: the core goes from `c0` to `c1` and `r` comes back.
pub open spec fn sbcd_8_rr_effect(c0: ConfiguredCore, c1: ConfiguredCore, r: Result<Cycles>) -> bool {
    &&& exists|mid: ConfiguredCore, src: Result<u32>|
            #[trigger] operator::dy_rel(c0, mid, src) && match src {
                Err(e) => r == Err::<Cycles, Exception>(e) && c1 == mid,
                Ok(v) => {
                    let reg = ir_dx(mid.ir);
                    let o = common::sbcd_8_outcome(mid, mid.dar[reg], v);
                    &&& r == Ok::<Cycles, Exception>(Cycles(6))
                    &&& reg_set(o.0, c1, reg, merged(mid.dar[reg], o.1, 8))
                },
            }
}

pub fn sbcd_8_rr(core: &mut ConfiguredCore) -> (r: Result<Cycles>)
    requires
        old(core).wf(),
    ensures
        final(core).wf(),
        sbcd_8_rr_effect(*old(core), *final(core), r),
{
    let ghost c0 = *core;
    let src = operator::dy(core);
    let ghost mid = *core;
    assert(operator::dy_rel(c0, mid, src));
    match src {
        Err(e) => Err(e),
        Ok(v) => {
            let reg = reg_dx(core.ir);
            let dst = core.dar[reg];
            let res = common::sbcd_8(core, dst, v);
            set_reg(core, reg, merge(dst, res, 8));
            Ok(Cycles(6))
        },
    }
}

/// What `sbcd_8_mm` does: the core goes from `c0` to `c1` and `r` comes back.
pub open spec fn sbcd_8_mm_effect(c0: ConfiguredCore, c1: ConfiguredCore, r: Result<Cycles>) -> bool {
    &&& exists|m1: ConfiguredCore, src: Result<u32>|
            #[trigger] operator::ay_pd_8_rel(c0, m1, src) && match src {
                Err(e) => r == Err::<Cycles, Exception>(e) && c1 == m1,
                Ok(v) => exists|m2: ConfiguredCore, d: Result<(u32, u32)>|
                    #[trigger] operator::ea_ax_pd_8_rel(m1, m2, d) && match d {
                        Err(e) => r == Err::<Cycles, Exception>(e) && c1 == m2,
                        Ok((dv, ea)) => {
                            let o = common::sbcd_8_outcome(m2, dv, v);
                            stored(o.0, c1, 8, ea, merged(dv, o.1, 8), r, 18)
                        },
                    },
            }
}

pub fn sbcd_8_mm(core: &mut ConfiguredCore) -> (r: Result<Cycles>)
    requires
        old(core).wf(),
    ensures
        final(core).wf(),
        sbcd_8_mm_effect(*old(core), *final(core), r),
{
    let ghost c0 = *core;
    let src = operator::ay_pd_8(core);
    let ghost m1 = *core;
    assert(operator::ay_pd_8_rel(c0, m1, src));
    let v = match src {
        Err(e) => {
            return Err(e);
        },
        Ok(v) => v,
    };
    let d = operator::ea_ax_pd_8(core);
    let ghost m2 = *core;
    assert(operator::ea_ax_pd_8_rel(m1, m2, d));
    let (dv, ea) = match d {
        Err(e) => {
            return Err(e);
        },
        Ok(p) => p,
    };
    let res = common::sbcd_8(core, dv, v);
    store(core, 8, ea, merge(dv, res, 8), 18)
}

/// What `subx_8_rr` does: the core goes from `c0` to `c1` and `r` comes back.
pub open spec fn subx_8_rr_effect(c0: ConfiguredCore, c1: ConfiguredCore, r: Result<Cycles>) -> bool {
    &&& exists|mid: ConfiguredCore, src: Result<u32>|
            #[trigger] operator::dy_rel(c0, mid, src) && match src {
                Err(e) => r == Err::<Cycles, Exception>(e) && c1 == mid,
                Ok(v) => {
                    let reg = ir_dx(mid.ir);
                    let o = common::subx_8_outcome(mid, mid.dar[reg], v);
                    &&& r == Ok::<Cycles, Exception>(Cycles(4))
                    &&& reg_set(o.0, c1, reg, merged(mid.dar[reg], o.1, 8))
                },
            }
}

pub fn subx_8_rr(core: &mut ConfiguredCore) -> (r: Result<Cycles>)
    requires
        old(core).wf(),
    ensures
        final(core).wf(),
        subx_8_rr_effect(*old(core), *final(core), r),
{
    let ghost c0 = *core;
    let src = operator::dy(core);
    let ghost mid = *core;
    assert(operator::dy_rel(c0, mid, src));
    match src {
        Err(e) => Err(e),
        Ok(v) => {
            let reg = reg_dx(core.ir);
            let dst = core.dar[reg];
            let res = common::subx_8(core, dst, v);
            set_reg(core, reg, merge(dst, res, 8));
            Ok(Cycles(4))
        },
    }
}

/// What `subx_8_mm` does: the core goes from `c0` to `c1` and `r` comes back.
pub open spec fn subx_8_mm_effect(c0: ConfiguredCore, c1: ConfiguredCore, r: Result<Cycles>) -> bool {
    &&& exists|m1: ConfiguredCore, src: Result<u32>|
            #[trigger] operator::ay_pd_8_rel(c0, m1, src) && match src {
                Err(e) => r == Err::<Cycles, Exception>(e) && c1 == m1,
                Ok(v) => exists|m2: ConfiguredCore, d: Result<(u32, u32)>|
                    #[trigger] operator::ea_ax_pd_8_rel(m1, m2, d) && match d {
                        Err(e) => r == Err::<Cycles, Exception>(e) && c1 == m2,
                        Ok((dv, ea)) => {
                            let o = common::subx_8_outcome(m2, dv, v);
                            stored(o.0, c1, 8, ea, merged(dv, o.1, 8), r, 18)
                        },
                    },
            }
}

pub fn subx_8_mm(core: &mut ConfiguredCore) -> (r: Result<Cycles>)
    requires
        old(core).wf(),
    ensures
        final(core).wf(),
        subx_8_mm_effect(*old(core), *final(core), r),
{
    let ghost c0 = *core;
    let src = operator::ay_pd_8(core);
    let ghost m1 = *core;
    assert(operator::ay_pd_8_rel(c0, m1, src));
    let v = match src {
        Err(e) => {
            return Err(e);
        },
        Ok(v) => v,
    };
    let d = operator::ea_ax_pd_8(core);
    let ghost m2 = *core;
    assert(operator::ea_ax_pd_8_rel(m1, m2, d));
    let (dv, ea) = match d {
        Err(e) => {
            return Err(e);
        },
        Ok(p) => p,
    };
    let res = common::subx_8(core, dv, v);
    store(core, 8, ea, merge(dv, res, 8), 18)
}

/// What `subx_16_rr` does: the core goes from `c0` to `c1` and `r` comes back.
pub open spec fn subx_16_rr_effect(c0: ConfiguredCore, c1: ConfiguredCore, r: Result<Cycles>) -> bool {
    &&& exists|mid: ConfiguredCore, src: Result<u32>|
            #[trigger] operator::dy_rel(c0, mid, src) && match src {
                Err(e) => r == Err::<Cycles, Exception>(e) && c1 == mid,
                Ok(v) => {
                    let reg = ir_dx(mid.ir);
                    let o = common::subx_16_outcome(mid, mid.dar[reg], v);
                    &&& r == Ok::<Cycles, Exception>(Cycles(4))
                    &&& reg_set(o.0, c1, reg, merged(mid.dar[reg], o.1, 16))
                },
            }
}

pub fn subx_16_rr(core: &mut ConfiguredCore) -> (r: Result<Cycles>)
    requires
        old(core).wf(),
    ensures
        final(core).wf(),
        subx_16_rr_effect(*old(core), *final(core), r),
{
    let ghost c0 = *core;
    let src = operator::dy(core);
    let ghost mid = *core;
    assert(operator::dy_rel(c0, mid, src));
    match src {
        Err(e) => Err(e),
        Ok(v) => {
            let reg = reg_dx(core.ir);
            let dst = core.dar[reg];
            let res = common::subx_16(core, dst, v);
            set_reg(core, reg, merge(dst, res, 16));
            Ok(Cycles(4))
        },
    }
}

/// What `subx_16_mm` does: the core goes from `c0` to `c1` and `r` comes back.
pub open spec fn subx_16_mm_effect(c0: ConfiguredCore, c1: ConfiguredCore, r: Result<Cycles>) -> bool {
    &&& exists|m1: ConfiguredCore, src: Result<u32>|
            #[trigger] operator::ay_pd_16_rel(c0, m1, src) && match src {
                Err(e) => r == Err::<Cycles, Exception>(e) && c1 == m1,
                Ok(v) => exists|m2: ConfiguredCore, d: Result<(u32, u32)>|
                    #[trigger] operator::ea_ax_pd_16_rel(m1, m2, d) && match d {
                        Err(e) => r == Err::<Cycles, Exception>(e) && c1 == m2,
                        Ok((dv, ea)) => {
                            let o = common::subx_16_outcome(m2, dv, v);
                            stored(o.0, c1, 16, ea, merged(dv, o.1, 16), r, 18)
                        },
                    },
            }
}

pub fn subx_16_mm(core: &mut ConfiguredCore) -> (r: Result<Cycles>)
    requires
        old(core).wf(),
    ensures
        final(core).wf(),
        subx_16_mm_effect(*old(core), *final(core), r),
{
    let ghost c0 = *core;
    let src = operator::ay_pd_16(core);
    let ghost m1 = *core;
    assert(operator::ay_pd_16_rel(c0, m1, src));
    let v = match src {
        Err(e) => {
            return Err(e);
        },
        Ok(v) => v,
    };
    let d = operator::ea_ax_pd_16(core);
    let ghost m2 = *core;
    assert(operator::ea_ax_pd_16_rel(m1, m2, d));
    let (dv, ea) = match d {
        Err(e) => {
            return Err(e);
        },
        Ok(p) => p,
    };
    let res = common::subx_16(core, dv, v);
    store(core, 16, ea, merge(dv, res, 16), 18)
}

/// What `subx_32_rr` does: the core goes from `c0` to `c1` and `r` comes back.
pub open spec fn subx_32_rr_effect(c0: ConfiguredCore, c1: ConfiguredCore, r: Result<Cycles>) -> bool {
    &&& exists|mid: ConfiguredCore, src: Result<u32>|
            #[trigger] operator::dy_rel(c0, mid, src) && match src {
                Err(e) => r == Err::<Cycles, Exception>(e) && c1 == mid,
                Ok(v) => {
                    let reg = ir_dx(mid.ir);
                    let o = common::subx_32_outcome(mid, mid.dar[reg], v);
                    &&& r == Ok::<Cycles, Exception>(Cycles(8))
                    &&& reg_set(o.0, c1, reg, merged(mid.dar[reg], o.1, 32))
                },
            }
}

pub fn subx_32_rr(core: &mut ConfiguredCore) -> (r: Result<Cycles>)
    requires
        old(core).wf(),
    ensures
        final(core).wf(),
        subx_32_rr_effect(*old(core), *final(core), r),
{
    let ghost c0 = *core;
    let src = operator::dy(core);
    let ghost mid = *core;
    assert(operator::dy_rel(c0, mid, src));
    match src {
        Err(e) => Err(e),
        Ok(v) => {
            let reg = reg_dx(core.ir);
            let dst = core.dar[reg];
            let res = common::subx_32(core, dst, v);
            set_reg(core, reg, merge(dst, res, 32));
            Ok(Cycles(8))
        },
    }
}

/// What `subx_32_mm` does: the core goes from `c0` to `c1` and `r` comes back.
pub open spec fn subx_32_mm_effect(c0: ConfiguredCore, c1: ConfiguredCore, r: Result<Cycles>) -> bool {
    &&& exists|m1: ConfiguredCore, src: Result<u32>|
            #[trigger] operator::ay_pd_32_rel(c0, m1, src) && match src {
                Err(e) => r == Err::<Cycles, Exception>(e) && c1 == m1,
                Ok(v) => exists|m2: ConfiguredCore, d: Result<(u32, u32)>|
                    #[trigger] operator::ea_ax_pd_32_rel(m1, m2, d) && match d {
                        Err(e) => r == Err::<Cycles, Exception>(e) && c1 == m2,
                        Ok((dv, ea)) => {
                            let o = common::subx_32_outcome(m2, dv, v);
                            stored(o.0, c1, 32, ea, merged(dv, o.1, 32), r, 30)
                        },
                    },
            }
}

pub fn subx_32_mm(core: &mut ConfiguredCore) -> (r: Result<Cycles>)
    requires
        old(core).wf(),
    ensures
        final(core).wf(),
        subx_32_mm_effect(*old(core), *final(core), r),
{
    let ghost c0 = *core;
    let src = operator::ay_pd_32(core);
    let ghost m1 = *core;
    assert(operator::ay_pd_32_rel(c0, m1, src));
    let v = match src {
        Err(e) => {
            return Err(e);
        },
        Ok(v) => v,
    };
    let d = operator::ea_ax_pd_32(core);
    let ghost m2 = *core;
    assert(operator::ea_ax_pd_32_rel(m1, m2, d));
    let (dv, ea) = match d {
        Err(e) => {
            return Err(e);
        },
        Ok(p) => p,
    };
    let res = common::subx_32(core, dv, v);
    store(core, 32, ea, merge(dv, res, 32), 30)
}

/// The processing state an exception frame needs; here, whether the word
/// at the stack pointer can be moved without an address error.
pub open spec fn sp_odd(c: ConfiguredCore) -> bool {
    c.dar[15] & 1 != 0
}

/// The address error of a stack access at `address` in state `c`.
pub open spec fn stack_error(c: ConfiguredCore, address: u32, access_type: AccessType) -> Exception {
    c.address_error(address, access_type, c.data_space())
}

pub(crate) fn stack_fault(core: &ConfiguredCore, address: u32, access_type: AccessType) -> (e: Exception)
    ensures
        e == stack_error(*core, address, access_type),
{
    let address_space = if core.s_flag != 0 {
        SUPERVISOR_DATA
    } else {
        USER_DATA
    };
    Exception::AddressError { address, access_type, address_space, processing_state: core.processing_state }
}

/// What `illegal` does: the core goes from `c0` to `c1` and `r` comes back.
pub open spec fn illegal_effect(c0: ConfiguredCore, c1: ConfiguredCore, r: Result<Cycles>) -> bool {
    &&& r == Err::<Cycles, Exception>(Exception::IllegalInstruction(c0.ir, wsub(c0.pc, 2)))
    &&& c1 == c0
}

/// The exception of an instruction word that is not implemented: the
/// instruction register and the address of the instruction.
pub fn illegal(core: &mut ConfiguredCore) -> (r: Result<Cycles>)
    ensures
        illegal_effect(*old(core), *final(core), r),
{
    Err(Exception::IllegalInstruction(core.ir, core.pc.wrapping_sub(2)))
}

/// What `real_illegal` does: the core goes from `c0` to `c1` and `r` comes back.
pub open spec fn real_illegal_effect(c0: ConfiguredCore, c1: ConfiguredCore, r: Result<Cycles>) -> bool {
    &&& r == Err::<Cycles, Exception>(Exception::IllegalInstruction(c0.ir, wsub(c0.pc, 2)))
    &&& c1 == c0
}

/// The ILLEGAL instruction itself, which always raises the illegal
/// instruction exception.
pub fn real_illegal(core: &mut ConfiguredCore) -> (r: Result<Cycles>)
    ensures
        real_illegal_effect(*old(core), *final(core), r),
{
    Err(Exception::IllegalInstruction(core.ir, core.pc.wrapping_sub(2)))
}

/// What `unimplemented_1010` does: the core goes from `c0` to `c1` and `r` comes back.
pub open spec fn unimplemented_1010_effect(c0: ConfiguredCore, c1: ConfiguredCore, r: Result<Cycles>) -> bool {
    &&& r == Err::<Cycles, Exception>(
            Exception::UnimplementedInstruction(c0.ir, wsub(c0.pc, 2), EXCEPTION_UNIMPLEMENTED_1010),
        )
    &&& c1 == c0
}

pub fn unimplemented_1010(core: &mut ConfiguredCore) -> (r: Result<Cycles>)
    ensures
        unimplemented_1010_effect(*old(core), *final(core), r),
{
    Err(Exception::UnimplementedInstruction(core.ir, core.pc.wrapping_sub(2), EXCEPTION_UNIMPLEMENTED_1010))
}

/// What `unimplemented_1111` does: the core goes from `c0` to `c1` and `r` comes back.
pub open spec fn unimplemented_1111_effect(c0: ConfiguredCore, c1: ConfiguredCore, r: Result<Cycles>) -> bool {
    &&& r == Err::<Cycles, Exception>(
            Exception::UnimplementedInstruction(c0.ir, wsub(c0.pc, 2), EXCEPTION_UNIMPLEMENTED_1111),
        )
    &&& c1 == c0
}

pub fn unimplemented_1111(core: &mut ConfiguredCore) -> (r: Result<Cycles>)
    ensures
        unimplemented_1111_effect(*old(core), *final(core), r),
{
    Err(Exception::UnimplementedInstruction(core.ir, core.pc.wrapping_sub(2), EXCEPTION_UNIMPLEMENTED_1111))
}

/// What `nop` does: the core goes from `c0` to `c1` and `r` comes back.
pub open spec fn nop_effect(c0: ConfiguredCore, c1: ConfiguredCore, r: Result<Cycles>) -> bool {
    &&& r == Ok::<Cycles, Exception>(Cycles(4))
    &&& c1 == c0
}

pub fn nop(core: &mut ConfiguredCore) -> (r: Result<Cycles>)
    ensures
        nop_effect(*old(core), *final(core), r),
{
    Ok(Cycles(4))
}

/// What `trap` does: the core goes from `c0` to `c1` and `r` comes back.
pub open spec fn trap_effect(c0: ConfiguredCore, c1: ConfiguredCore, r: Result<Cycles>) -> bool {
    &&& r == Err::<Cycles, Exception>(Exception::Trap((EXCEPTION_TRAP_BASE as u32 + ((c0.ir as u32) & 0x0f)) as u8, 34))
    &&& c1 == c0
}

/// TRAP #n: the trap exception of vector 32 + n.
pub fn trap(core: &mut ConfiguredCore) -> (r: Result<Cycles>)
    ensures
        trap_effect(*old(core), *final(core), r),
{
    let n = (core.ir as u32) & 0x0f;
    proof {
        lemma_low_bits(core.ir as u32);
    }
    Err(Exception::Trap((EXCEPTION_TRAP_BASE as u32 + n) as u8, 34))
}

/// What `trapv` does: the core goes from `c0` to `c1` and `r` comes back.
pub open spec fn trapv_effect(c0: ConfiguredCore, c1: ConfiguredCore, r: Result<Cycles>) -> bool {
    &&& r == if c0.v_flag != 0 {
            Err::<Cycles, Exception>(Exception::Trap(EXCEPTION_TRAPV, 34))
        } else {
            Ok::<Cycles, Exception>(Cycles(4))
        }
    &&& c1 == c0
}

/// TRAPV: the overflow trap when V is set.
pub fn trapv(core: &mut ConfiguredCore) -> (r: Result<Cycles>)
    ensures
        trapv_effect(*old(core), *final(core), r),
{
    if core.v_flag != 0 {
        Err(Exception::Trap(EXCEPTION_TRAPV, 34))
    } else {
        Ok(Cycles(4))
    }
}

/// What `addq_16_an` does: the core goes from `c0` to `c1` and `r` comes back.
pub open spec fn addq_16_an_effect(c0: ConfiguredCore, c1: ConfiguredCore, r: Result<Cycles>) -> bool {
    &&& r == Ok::<Cycles, Exception>(Cycles(4))
    &&& reg_set(c0, c1, ir_ay(c0.ir), wadd(c0.dar[ir_ay(c0.ir)], operator::quick_value(c0.ir)))
}

/// ADDQ.W #q,Ay: the whole address register grows by q, no flags change.
pub fn addq_16_an(core: &mut ConfiguredCore) -> (r: Result<Cycles>)
    ensures
        addq_16_an_effect(*old(core), *final(core), r),
{
    let ghost c0 = *core;
    let src = match operator::quick(core) {
        Ok(v) => v,
        Err(e) => {
            return Err(e);
        },
    };
    let reg = reg_ay(core.ir);
    let dst = core.dar[reg];
    set_reg(core, reg, dst.wrapping_add(src));
    Ok(Cycles(4))
}

/// What `addq_32_an` does: the core goes from `c0` to `c1` and `r` comes back.
pub open spec fn addq_32_an_effect(c0: ConfiguredCore, c1: ConfiguredCore, r: Result<Cycles>) -> bool {
    &&& r == Ok::<Cycles, Exception>(Cycles(8))
    &&& reg_set(c0, c1, ir_ay(c0.ir), wadd(c0.dar[ir_ay(c0.ir)], operator::quick_value(c0.ir)))
}

/// ADDQ.L #q,Ay.
pub fn addq_32_an(core: &mut ConfiguredCore) -> (r: Result<Cycles>)
    ensures
        addq_32_an_effect(*old(core), *final(core), r),
{
    let src = match operator::quick(core) {
        Ok(v) => v,
        Err(e) => {
            return Err(e);
        },
    };
    let reg = reg_ay(core.ir);
    let dst = core.dar[reg];
    set_reg(core, reg, dst.wrapping_add(src));
    Ok(Cycles(8))
}

/// What `subq_16_an` does: the core goes from `c0` to `c1` and `r` comes back.
pub open spec fn subq_16_an_effect(c0: ConfiguredCore, c1: ConfiguredCore, r: Result<Cycles>) -> bool {
    &&& r == Ok::<Cycles, Exception>(Cycles(8))
    &&& reg_set(c0, c1, ir_ay(c0.ir), wsub(c0.dar[ir_ay(c0.ir)], operator::quick_value(c0.ir)))
}

/// SUBQ.W #q,Ay: the whole address register shrinks by q, no flags change.
pub fn subq_16_an(core: &mut ConfiguredCore) -> (r: Result<Cycles>)
    ensures
        subq_16_an_effect(*old(core), *final(core), r),
{
    let src = match operator::quick(core) {
        Ok(v) => v,
        Err(e) => {
            return Err(e);
        },
    };
    let reg = reg_ay(core.ir);
    let dst = core.dar[reg];
    set_reg(core, reg, dst.wrapping_sub(src));
    Ok(Cycles(8))
}

/// What `subq_32_an` does: the core goes from `c0` to `c1` and `r` comes back.
pub open spec fn subq_32_an_effect(c0: ConfiguredCore, c1: ConfiguredCore, r: Result<Cycles>) -> bool {
    &&& r == Ok::<Cycles, Exception>(Cycles(8))
    &&& reg_set(c0, c1, ir_ay(c0.ir), wsub(c0.dar[ir_ay(c0.ir)], operator::quick_value(c0.ir)))
}

/// SUBQ.L #q,Ay.
pub fn subq_32_an(core: &mut ConfiguredCore) -> (r: Result<Cycles>)
    ensures
        subq_32_an_effect(*old(core), *final(core), r),
{
    let src = match operator::quick(core) {
        Ok(v) => v,
        Err(e) => {
            return Err(e);
        },
    };
    let reg = reg_ay(core.ir);
    let dst = core.dar[reg];
    set_reg(core, reg, dst.wrapping_sub(src));
    Ok(Cycles(8))
}

/// The outcome of an immediate logical operation on the condition codes:
/// `combined` is the new CCR, from the CCR before and the immediate byte.
pub open spec fn ccr_op_done(c0: ConfiguredCore, c1: ConfiguredCore, r: Result<Cycles>, op: int) -> bool {
    exists|mid: ConfiguredCore, src: Result<u32>|
        #[trigger] operator::imm_8_rel(c0, mid, src) && match src {
            Err(e) => r == Err::<Cycles, Exception>(e) && c1 == mid,
            Ok(v) => {
                let dst = c0.spec_status_register() & 0xff;
                let imm = (v & 0xff) as u16;
                let ccr = if op == 0 {
                    dst & imm
                } else if op == 1 {
                    dst ^ imm
                } else {
                    dst | imm
                };
                &&& r == Ok::<Cycles, Exception>(Cycles(20))
                &&& sr_set(mid, c1, mid.ccr_sr(ccr))
            },
        }
}

fn ccr_op(core: &mut ConfiguredCore, op: u8) -> (r: Result<Cycles>)
    requires
        old(core).wf(),
        op < 3,
    ensures
        final(core).wf(),
        ccr_op_done(*old(core), *final(core), r, op as int),
{
    let ghost c0 = *core;
    let dst = core.condition_code_register();
    let src = operator::imm_8(core);
    let ghost mid = *core;
    assert(operator::imm_8_rel(c0, mid, src));
    match src {
        Err(e) => Err(e),
        Ok(v) => {
            let imm = (v & 0xff) as u16;
            let ccr = if op == 0 {
                dst & imm
            } else if op == 1 {
                dst ^ imm
            } else {
                dst | imm
            };
            core.ccr_to_flags(ccr);
            Ok(Cycles(20))
        },
    }
}

/// What `andi_8_toc` does: the core goes from `c0` to `c1` and `r` comes back.
pub open spec fn andi_8_toc_effect(c0: ConfiguredCore, c1: ConfiguredCore, r: Result<Cycles>) -> bool {
    &&& ccr_op_done(c0, c1, r, 0)
}

/// ANDI #imm,CCR.
pub fn andi_8_toc(core: &mut ConfiguredCore) -> (r: Result<Cycles>)
    requires
        old(core).wf(),
    ensures
        final(core).wf(),
        andi_8_toc_effect(*old(core), *final(core), r),
{
    ccr_op(core, 0)
}

/// What `eori_8_toc` does: the core goes from `c0` to `c1` and `r` comes back.
pub open spec fn eori_8_toc_effect(c0: ConfiguredCore, c1: ConfiguredCore, r: Result<Cycles>) -> bool {
    &&& ccr_op_done(c0, c1, r, 1)
}

/// EORI #imm,CCR.
pub fn eori_8_toc(core: &mut ConfiguredCore) -> (r: Result<Cycles>)
    requires
        old(core).wf(),
    ensures
        final(core).wf(),
        eori_8_toc_effect(*old(core), *final(core), r),
{
    ccr_op(core, 1)
}

/// What `ori_8_toc` does: the core goes from `c0` to `c1` and `r` comes back.
pub open spec fn ori_8_toc_effect(c0: ConfiguredCore, c1: ConfiguredCore, r: Result<Cycles>) -> bool {
    &&& ccr_op_done(c0, c1, r, 2)
}

/// ORI #imm,CCR.
pub fn ori_8_toc(core: &mut ConfiguredCore) -> (r: Result<Cycles>)
    requires
        old(core).wf(),
    ensures
        final(core).wf(),
        ori_8_toc_effect(*old(core), *final(core), r),
{
    ccr_op(core, 2)
}

/// The privilege violation of a supervisor instruction run in user mode.
pub open spec fn privilege_violation(c: ConfiguredCore) -> Exception {
    Exception::PrivilegeViolation(c.ir, wsub(c.pc, 2))
}

/// The outcome of an immediate logical operation on the whole status
/// register, which only supervisor mode may do.
pub open spec fn sr_op_done(c0: ConfiguredCore, c1: ConfiguredCore, r: Result<Cycles>, op: int) -> bool {
    if c0.s_flag == 0 {
        r == Err::<Cycles, Exception>(privilege_violation(c0)) && c1 == c0
    } else {
        exists|mid: ConfiguredCore, src: Result<u32>|
            #[trigger] operator::imm_16_rel(c0, mid, src) && match src {
                Err(e) => r == Err::<Cycles, Exception>(e) && c1 == mid,
                Ok(v) => {
                    let dst = c0.spec_status_register();
                    let imm = v as u16;
                    let sr = if op == 0 {
                        dst & imm
                    } else if op == 1 {
                        dst ^ imm
                    } else {
                        dst | imm
                    };
                    &&& r == Ok::<Cycles, Exception>(Cycles(20))
                    &&& sr_set(mid, c1, sr)
                },
            }
    }
}

fn sr_op(core: &mut ConfiguredCore, op: u8) -> (r: Result<Cycles>)
    requires
        old(core).wf(),
        op < 3,
    ensures
        final(core).wf(),
        sr_op_done(*old(core), *final(core), r, op as int),
{
    if core.s_flag == 0 {
        return Err(Exception::PrivilegeViolation(core.ir, core.pc.wrapping_sub(2)));
    }
    let ghost c0 = *core;
    let dst = core.status_register();
    let src = operator::imm_16(core);
    let ghost mid = *core;
    assert(operator::imm_16_rel(c0, mid, src));
    match src {
        Err(e) => Err(e),
        Ok(v) => {
            let imm = v as u16;
            let sr = if op == 0 {
                dst & imm
            } else if op == 1 {
                dst ^ imm
            } else {
                dst | imm
            };
            core.sr_to_flags(sr);
            Ok(Cycles(20))
        },
    }
}

/// What `andi_16_tos` does: the core goes from `c0` to `c1` and `r` comes back.
pub open spec fn andi_16_tos_effect(c0: ConfiguredCore, c1: ConfiguredCore, r: Result<Cycles>) -> bool {
    &&& sr_op_done(c0, c1, r, 0)
}

/// ANDI #imm,SR.
pub fn andi_16_tos(core: &mut ConfiguredCore) -> (r: Result<Cycles>)
    requires
        old(core).wf(),
    ensures
        final(core).wf(),
        andi_16_tos_effect(*old(core), *final(core), r),
{
    sr_op(core, 0)
}

/// What `eori_16_tos` does: the core goes from `c0` to `c1` and `r` comes back.
pub open spec fn eori_16_tos_effect(c0: ConfiguredCore, c1: ConfiguredCore, r: Result<Cycles>) -> bool {
    &&& sr_op_done(c0, c1, r, 1)
}

/// EORI #imm,SR.
pub fn eori_16_tos(core: &mut ConfiguredCore) -> (r: Result<Cycles>)
    requires
        old(core).wf(),
    ensures
        final(core).wf(),
        eori_16_tos_effect(*old(core), *final(core), r),
{
    sr_op(core, 1)
}

/// What `ori_16_tos` does: the core goes from `c0` to `c1` and `r` comes back.
pub open spec fn ori_16_tos_effect(c0: ConfiguredCore, c1: ConfiguredCore, r: Result<Cycles>) -> bool {
    &&& sr_op_done(c0, c1, r, 2)
}

/// ORI #imm,SR.
pub fn ori_16_tos(core: &mut ConfiguredCore) -> (r: Result<Cycles>)
    requires
        old(core).wf(),
    ensures
        final(core).wf(),
        ori_16_tos_effect(*old(core), *final(core), r),
{
    sr_op(core, 2)
}

/// The bit of a data register that a bit instruction addresses.
pub open spec fn bit_mask(n: u32) -> u32 {
    1u32 << (n & 0x1f)
}

/// The new value of the destination register of a bit operation: `op` 0
/// changes the bit, 1 clears it, 2 sets it, 3 only tests it.
pub open spec fn bit_result(dst: u32, mask: u32, op: int) -> u32 {
    if op == 0 {
        dst ^ mask
    } else if op == 1 {
        dst & !mask
    } else if op == 2 {
        dst | mask
    } else {
        dst
    }
}

/// A bit operation on Dy: Z from the bit before, the bit changed as `op`
/// says.
pub open spec fn bit_done(c0: ConfiguredCore, c1: ConfiguredCore, n: u32, op: int) -> bool {
    let reg = ir_dy(c0.ir);
    let dst = c0.dar[reg];
    let mask = bit_mask(n);
    reg_set(ConfiguredCore { not_z_flag: dst & mask, ..c0 }, c1, reg, bit_result(dst, mask, op))
}

fn bit_op(core: &mut ConfiguredCore, n: u32, op: u8)
    requires
        op < 4,
    ensures
        bit_done(*old(core), *final(core), n, op as int),
{
    let reg = reg_dy(core.ir);
    let dst = core.dar[reg];
    proof {
        lemma_low_bits(n);
    }
    let mask = 1u32 << (n & 0x1f);
    core.not_z_flag = dst & mask;
    let res = if op == 0 {
        dst ^ mask
    } else if op == 1 {
        dst & !mask
    } else if op == 2 {
        dst | mask
    } else {
        dst
    };
    set_reg(core, reg, res);
}

/// A bit operation on Dy whose bit number is an immediate byte.
pub open spec fn bit_imm_done(c0: ConfiguredCore, c1: ConfiguredCore, r: Result<Cycles>, op: int, cycles: i32) -> bool {
    exists|mid: ConfiguredCore, src: Result<u32>|
        #[trigger] operator::imm_8_rel(c0, mid, src) && match src {
            Err(e) => r == Err::<Cycles, Exception>(e) && c1 == mid,
            Ok(v) => r == Ok::<Cycles, Exception>(Cycles(cycles)) && bit_done(mid, c1, v, op),
        }
}

fn bit_imm_op(core: &mut ConfiguredCore, op: u8, cycles: i32) -> (r: Result<Cycles>)
    requires
        old(core).wf(),
        op < 4,
    ensures
        final(core).wf(),
        bit_imm_done(*old(core), *final(core), r, op as int, cycles),
{
    let ghost c0 = *core;
    let src = operator::imm_8(core);
    let ghost mid = *core;
    assert(operator::imm_8_rel(c0, mid, src));
    match src {
        Err(e) => Err(e),
        Ok(v) => {
            bit_op(core, v, op);
            Ok(Cycles(cycles))
        },
    }
}

/// What `bchg_32_r_dn` does: the core goes from `c0` to `c1` and `r` comes back.
pub open spec fn bchg_32_r_dn_effect(c0: ConfiguredCore, c1: ConfiguredCore, r: Result<Cycles>) -> bool {
    &&& r == Ok::<Cycles, Exception>(Cycles(8))
    &&& bit_done(c0, c1, c0.dar[ir_dx(c0.ir)], 0)
}

/// BCHG Dx,Dy.
pub fn bchg_32_r_dn(core: &mut ConfiguredCore) -> (r: Result<Cycles>)
    ensures
        bchg_32_r_dn_effect(*old(core), *final(core), r),
{
    let n = core.dar[reg_dx(core.ir)];
    bit_op(core, n, 0);
    Ok(Cycles(8))
}

/// What `bchg_32_s_dn` does: the core goes from `c0` to `c1` and `r` comes back.
pub open spec fn bchg_32_s_dn_effect(c0: ConfiguredCore, c1: ConfiguredCore, r: Result<Cycles>) -> bool {
    &&& bit_imm_done(c0, c1, r, 0, 12)
}

/// BCHG #n,Dy.
pub fn bchg_32_s_dn(core: &mut ConfiguredCore) -> (r: Result<Cycles>)
    requires
        old(core).wf(),
    ensures
        final(core).wf(),
        bchg_32_s_dn_effect(*old(core), *final(core), r),
{
    bit_imm_op(core, 0, 12)
}

/// What `bclr_32_r_dn` does: the core goes from `c0` to `c1` and `r` comes back.
pub open spec fn bclr_32_r_dn_effect(c0: ConfiguredCore, c1: ConfiguredCore, r: Result<Cycles>) -> bool {
    &&& r == Ok::<Cycles, Exception>(Cycles(10))
    &&& bit_done(c0, c1, c0.dar[ir_dx(c0.ir)], 1)
}

/// BCLR Dx,Dy.
pub fn bclr_32_r_dn(core: &mut ConfiguredCore) -> (r: Result<Cycles>)
    ensures
        bclr_32_r_dn_effect(*old(core), *final(core), r),
{
    let n = core.dar[reg_dx(core.ir)];
    bit_op(core, n, 1);
    Ok(Cycles(10))
}

/// What `bclr_32_s_dn` does: the core goes from `c0` to `c1` and `r` comes back.
pub open spec fn bclr_32_s_dn_effect(c0: ConfiguredCore, c1: ConfiguredCore, r: Result<Cycles>) -> bool {
    &&& bit_imm_done(c0, c1, r, 1, 14)
}

/// BCLR #n,Dy.
pub fn bclr_32_s_dn(core: &mut ConfiguredCore) -> (r: Result<Cycles>)
    requires
        old(core).wf(),
    ensures
        final(core).wf(),
        bclr_32_s_dn_effect(*old(core), *final(core), r),
{
    bit_imm_op(core, 1, 14)
}

/// What `bset_32_r_dn` does: the core goes from `c0` to `c1` and `r` comes back.
pub open spec fn bset_32_r_dn_effect(c0: ConfiguredCore, c1: ConfiguredCore, r: Result<Cycles>) -> bool {
    &&& r == Ok::<Cycles, Exception>(Cycles(8))
    &&& bit_done(c0, c1, c0.dar[ir_dx(c0.ir)], 2)
}

/// BSET Dx,Dy.
pub fn bset_32_r_dn(core: &mut ConfiguredCore) -> (r: Result<Cycles>)
    ensures
        bset_32_r_dn_effect(*old(core), *final(core), r),
{
    let n = core.dar[reg_dx(core.ir)];
    bit_op(core, n, 2);
    Ok(Cycles(8))
}

/// What `bset_32_s_dn` does: the core goes from `c0` to `c1` and `r` comes back.
pub open spec fn bset_32_s_dn_effect(c0: ConfiguredCore, c1: ConfiguredCore, r: Result<Cycles>) -> bool {
    &&& bit_imm_done(c0, c1, r, 2, 12)
}

/// BSET #n,Dy.
pub fn bset_32_s_dn(core: &mut ConfiguredCore) -> (r: Result<Cycles>)
    requires
        old(core).wf(),
    ensures
        final(core).wf(),
        bset_32_s_dn_effect(*old(core), *final(core), r),
{
    bit_imm_op(core, 2, 12)
}

/// What `btst_32_r_dn` does: the core goes from `c0` to `c1` and `r` comes back.
pub open spec fn btst_32_r_dn_effect(c0: ConfiguredCore, c1: ConfiguredCore, r: Result<Cycles>) -> bool {
    &&& r == Ok::<Cycles, Exception>(Cycles(6))
    &&& bit_done(c0, c1, c0.dar[ir_dx(c0.ir)], 3)
}

/// BTST Dx,Dy.
pub fn btst_32_r_dn(core: &mut ConfiguredCore) -> (r: Result<Cycles>)
    ensures
        btst_32_r_dn_effect(*old(core), *final(core), r),
{
    let n = core.dar[reg_dx(core.ir)];
    bit_op(core, n, 3);
    Ok(Cycles(6))
}

/// What `btst_32_s_dn` does: the core goes from `c0` to `c1` and `r` comes back.
pub open spec fn btst_32_s_dn_effect(c0: ConfiguredCore, c1: ConfiguredCore, r: Result<Cycles>) -> bool {
    &&& bit_imm_done(c0, c1, r, 3, 10)
}

/// BTST #n,Dy.
pub fn btst_32_s_dn(core: &mut ConfiguredCore) -> (r: Result<Cycles>)
    requires
        old(core).wf(),
    ensures
        final(core).wf(),
        btst_32_s_dn_effect(*old(core), *final(core), r),
{
    bit_imm_op(core, 3, 10)
}

/// The displacement in the low byte of a short branch.
pub open spec fn short_offset(ir: u16) -> u32 {
    ((ir & 0xff) as i8) as u32
}

/// What `bra_8` does: the core goes from `c0` to `c1` and `r` comes back.
pub open spec fn bra_8_effect(c0: ConfiguredCore, c1: ConfiguredCore, r: Result<Cycles>) -> bool {
    &&& r == Ok::<Cycles, Exception>(Cycles(10))
    &&& c1 == (ConfiguredCore { pc: branched(c0.pc, short_offset(c0.ir)), ..c0 })
}

/// BRA with an 8-bit displacement.
pub fn bra_8(core: &mut ConfiguredCore) -> (r: Result<Cycles>)
    ensures
        bra_8_effect(*old(core), *final(core), r),
{
    let offset = (core.ir & 0xff) as i8;
    core.branch_8(offset);
    Ok(Cycles(10))
}

/// A branch by the 16-bit displacement in the extension word, taken from
/// the address of that word.
pub open spec fn long_branch_done(c0: ConfiguredCore, c1: ConfiguredCore) -> bool {
    exists|mid: ConfiguredCore|
        #[trigger] ConfiguredCore::fetched(c0, mid, c0.after16())
            && c1 == (ConfiguredCore { pc: branched(c0.pc, (c0.ext16() as i16) as u32), ..mid })
}

/// What `bra_16` does: the core goes from `c0` to `c1` and `r` comes back.
pub open spec fn bra_16_effect(c0: ConfiguredCore, c1: ConfiguredCore, r: Result<Cycles>) -> bool {
    &&& c0.pc & 1 != 0 ==> r == Err::<Cycles, Exception>(c0.pc_error()) && c1 == c0
    &&& c0.pc & 1 == 0 ==> r == Ok::<Cycles, Exception>(Cycles(10)) && long_branch_done(c0, c1)
}

/// BRA with a 16-bit displacement.
pub fn bra_16(core: &mut ConfiguredCore) -> (r: Result<Cycles>)
    requires
        old(core).wf(),
    ensures
        final(core).wf(),
        bra_16_effect(*old(core), *final(core), r),
{
    let ghost c0 = *core;
    let offset = match core.read_imm_i16() {
        Ok(o) => o,
        Err(e) => {
            return Err(e);
        },
    };
    let ghost mid = *core;
    assert(ConfiguredCore::fetched(c0, mid, c0.after16()));
    core.pc = core.pc.wrapping_sub(2);
    core.branch_16(offset);
    Ok(Cycles(10))
}

/// What `bsr_8` does: the core goes from `c0` to `c1` and `r` comes back.
pub open spec fn bsr_8_effect(c0: ConfiguredCore, c1: ConfiguredCore, r: Result<Cycles>) -> bool {
    &&& sp_odd(c0) ==> r == Err::<Cycles, Exception>(stack_error(c0, wsub(c0.dar[15], 4), AccessType::Write))
            && c1 == c0
    &&& !sp_odd(c0) ==> r == Ok::<Cycles, Exception>(Cycles(18)) && exists|mid: ConfiguredCore|
            #[trigger] pushed_32(c0, mid, c0.pc)
                && c1 == (ConfiguredCore { pc: branched(c0.pc, short_offset(c0.ir)), ..mid })
}

/// BSR with an 8-bit displacement: the return address is pushed.
pub fn bsr_8(core: &mut ConfiguredCore) -> (r: Result<Cycles>)
    requires
        old(core).wf(),
    ensures
        final(core).wf(),
        bsr_8_effect(*old(core), *final(core), r),
{
    if core.dar[15] & 1 != 0 {
        return Err(stack_fault(core, core.dar[15].wrapping_sub(4), AccessType::Write));
    }
    let ghost c0 = *core;
    let offset = (core.ir & 0xff) as i8;
    let pc = core.pc;
    core.push_32(pc);
    let ghost mid = *core;
    assert(pushed_32(c0, mid, c0.pc));
    core.branch_8(offset);
    Ok(Cycles(18))
}

/// What `bsr_16` does: the core goes from `c0` to `c1` and `r` comes back.
pub open spec fn bsr_16_effect(c0: ConfiguredCore, c1: ConfiguredCore, r: Result<Cycles>) -> bool {
    &&& c0.pc & 1 != 0 ==> r == Err::<Cycles, Exception>(c0.pc_error()) && c1 == c0
    &&& c0.pc & 1 == 0 ==> exists|m1: ConfiguredCore|
            #[trigger] ConfiguredCore::fetched(c0, m1, c0.after16()) && if sp_odd(m1) {
                r == Err::<Cycles, Exception>(stack_error(m1, wsub(m1.dar[15], 4), AccessType::Write)) && c1 == m1
            } else {
                r == Ok::<Cycles, Exception>(Cycles(18)) && exists|m2: ConfiguredCore|
                    #[trigger] pushed_32(m1, m2, m1.pc)
                        && c1 == (ConfiguredCore { pc: branched(wsub(m1.pc, 2), (c0.ext16() as i16) as u32), ..m2 })
            }
}

/// BSR with a 16-bit displacement: the address after the extension word is
/// pushed, and the branch is taken from the address of that word.
pub fn bsr_16(core: &mut ConfiguredCore) -> (r: Result<Cycles>)
    requires
        old(core).wf(),
    ensures
        final(core).wf(),
        bsr_16_effect(*old(core), *final(core), r),
{
    let ghost c0 = *core;
    let offset = match core.read_imm_i16() {
        Ok(o) => o,
        Err(e) => {
            return Err(e);
        },
    };
    let ghost m1 = *core;
    assert(ConfiguredCore::fetched(c0, m1, c0.after16()));
    if core.dar[15] & 1 != 0 {
        return Err(stack_fault(core, core.dar[15].wrapping_sub(4), AccessType::Write));
    }
    let pc = core.pc;
    core.push_32(pc);
    let ghost m2 = *core;
    assert(pushed_32(m1, m2, m1.pc));
    core.pc = core.pc.wrapping_sub(2);
    core.branch_16(offset);
    Ok(Cycles(18))
}

/// The state after CLR of a data register: `value` in Dy, N, V, C cleared
/// and Z set.
pub open spec fn cleared(c0: ConfiguredCore, c1: ConfiguredCore, value: u32) -> bool {
    reg_set(ConfiguredCore { n_flag: 0, v_flag: 0, c_flag: 0, not_z_flag: 0, ..c0 }, c1, ir_dy(c0.ir), value)
}

fn clear_dy(core: &mut ConfiguredCore, keep: u32)
    ensures
        cleared(*old(core), *final(core), old(core).dar[ir_dy(old(core).ir)] & keep),
{
    let reg = reg_dy(core.ir);
    let v = core.dar[reg] & keep;
    core.n_flag = 0;
    core.v_flag = 0;
    core.c_flag = 0;
    core.not_z_flag = 0;
    set_reg(core, reg, v);
}

/// What `clr_8_dn` does: the core goes from `c0` to `c1` and `r` comes back.
pub open spec fn clr_8_dn_effect(c0: ConfiguredCore, c1: ConfiguredCore, r: Result<Cycles>) -> bool {
    &&& r == Ok::<Cycles, Exception>(Cycles(4))
    &&& cleared(c0, c1, c0.dar[ir_dy(c0.ir)] & 0xffff_ff00)
}

/// CLR.B Dy.
pub fn clr_8_dn(core: &mut ConfiguredCore) -> (r: Result<Cycles>)
    ensures
        clr_8_dn_effect(*old(core), *final(core), r),
{
    clear_dy(core, 0xffff_ff00);
    Ok(Cycles(4))
}

/// What `clr_16_dn` does: the core goes from `c0` to `c1` and `r` comes back.
pub open spec fn clr_16_dn_effect(c0: ConfiguredCore, c1: ConfiguredCore, r: Result<Cycles>) -> bool {
    &&& r == Ok::<Cycles, Exception>(Cycles(4))
    &&& cleared(c0, c1, c0.dar[ir_dy(c0.ir)] & 0xffff_0000)
}

/// CLR.W Dy.
pub fn clr_16_dn(core: &mut ConfiguredCore) -> (r: Result<Cycles>)
    ensures
        clr_16_dn_effect(*old(core), *final(core), r),
{
    clear_dy(core, 0xffff_0000);
    Ok(Cycles(4))
}

/// What `clr_32_dn` does: the core goes from `c0` to `c1` and `r` comes back.
pub open spec fn clr_32_dn_effect(c0: ConfiguredCore, c1: ConfiguredCore, r: Result<Cycles>) -> bool {
    &&& r == Ok::<Cycles, Exception>(Cycles(6))
    &&& cleared(c0, c1, 0)
}

/// CLR.L Dy.
pub fn clr_32_dn(core: &mut ConfiguredCore) -> (r: Result<Cycles>)
    ensures
        clr_32_dn_effect(*old(core), *final(core), r),
{
    clear_dy(core, 0);
    proof {
        lemma_low_bits(old(core).dar[ir_dy(old(core).ir)]);
    }
    Ok(Cycles(6))
}

/// `c1` is `c0` with registers `x` and `y` exchanged.
pub open spec fn exchanged(c0: ConfiguredCore, c1: ConfiguredCore, x: int, y: int) -> bool {
    &&& c1.dar@ == c0.dar@.update(x, c0.dar[y]).update(y, c0.dar[x])
    &&& c1 == (ConfiguredCore { dar: c1.dar, ..c0 })
}

fn exchange(core: &mut ConfiguredCore, x: usize, y: usize)
    requires
        x < 16,
        y < 16,
    ensures
        exchanged(*old(core), *final(core), x as int, y as int),
{
    let vx = core.dar[x];
    let vy = core.dar[y];
    core.dar[x] = vy;
    core.dar[y] = vx;
    assert(core.dar@ =~= old(core).dar@.update(x as int, old(core).dar[y as int]).update(y as int, old(core).dar[x as int]));
}

/// What `exg_32_dd` does: the core goes from `c0` to `c1` and `r` comes back.
pub open spec fn exg_32_dd_effect(c0: ConfiguredCore, c1: ConfiguredCore, r: Result<Cycles>) -> bool {
    &&& r == Ok::<Cycles, Exception>(Cycles(6))
    &&& exchanged(c0, c1, ir_dx(c0.ir), ir_dy(c0.ir))
}

/// EXG Dx,Dy.
pub fn exg_32_dd(core: &mut ConfiguredCore) -> (r: Result<Cycles>)
    ensures
        exg_32_dd_effect(*old(core), *final(core), r),
{
    let x = reg_dx(core.ir);
    let y = reg_dy(core.ir);
    exchange(core, x, y);
    Ok(Cycles(6))
}

/// What `exg_32_aa` does: the core goes from `c0` to `c1` and `r` comes back.
pub open spec fn exg_32_aa_effect(c0: ConfiguredCore, c1: ConfiguredCore, r: Result<Cycles>) -> bool {
    &&& r == Ok::<Cycles, Exception>(Cycles(6))
    &&& exchanged(c0, c1, ir_ax(c0.ir), ir_ay(c0.ir))
}

/// EXG Ax,Ay.
pub fn exg_32_aa(core: &mut ConfiguredCore) -> (r: Result<Cycles>)
    ensures
        exg_32_aa_effect(*old(core), *final(core), r),
{
    let x = reg_ax(core.ir);
    let y = reg_ay(core.ir);
    exchange(core, x, y);
    Ok(Cycles(6))
}

/// What `exg_32_da` does: the core goes from `c0` to `c1` and `r` comes back.
pub open spec fn exg_32_da_effect(c0: ConfiguredCore, c1: ConfiguredCore, r: Result<Cycles>) -> bool {
    &&& r == Ok::<Cycles, Exception>(Cycles(6))
    &&& exchanged(c0, c1, ir_dx(c0.ir), ir_ay(c0.ir))
}

/// EXG Dx,Ay.
pub fn exg_32_da(core: &mut ConfiguredCore) -> (r: Result<Cycles>)
    ensures
        exg_32_da_effect(*old(core), *final(core), r),
{
    let x = reg_dx(core.ir);
    let y = reg_ay(core.ir);
    exchange(core, x, y);
    Ok(Cycles(6))
}

/// The word that EXT.W makes of the low byte of `dst`.
pub open spec fn byte_extended(dst: u32) -> u32 {
    (dst & 0xff) | if dst & 0x80 != 0 {
        0xff00u32
    } else {
        0
    }
}

/// The long word that EXT.L makes of the low word of `dst`.
pub open spec fn word_extended(dst: u32) -> u32 {
    (dst & 0xffff) | if dst & 0x8000 != 0 {
        0xffff_0000u32
    } else {
        0
    }
}

/// What `ext_bw` does: the core goes from `c0` to `c1` and `r` comes back.
pub open spec fn ext_bw_effect(c0: ConfiguredCore, c1: ConfiguredCore, r: Result<Cycles>) -> bool {
    &&& r == Ok::<Cycles, Exception>(Cycles(4))
    &&& ({
            let reg = ir_dy(c0.ir);
            let res = byte_extended(c0.dar[reg]);
            reg_set(
                ConfiguredCore { n_flag: res >> 8u32, v_flag: 0, c_flag: 0, not_z_flag: res, ..c0 },
                c1,
                reg,
                (c0.dar[reg] & 0xffff_0000) | res,
            )
        })
}

/// EXT.W Dy: the low byte sign-extended to a word.
pub fn ext_bw(core: &mut ConfiguredCore) -> (r: Result<Cycles>)
    ensures
        ext_bw_effect(*old(core), *final(core), r),
{
    let reg = reg_dy(core.ir);
    let dst = core.dar[reg];
    let res = (dst & 0xff) | if dst & 0x80 != 0 {
        0xff00u32
    } else {
        0
    };
    core.n_flag = res >> 8;
    core.v_flag = 0;
    core.c_flag = 0;
    core.not_z_flag = res;
    set_reg(core, reg, (dst & 0xffff_0000) | res);
    Ok(Cycles(4))
}

/// What `ext_wl` does: the core goes from `c0` to `c1` and `r` comes back.
pub open spec fn ext_wl_effect(c0: ConfiguredCore, c1: ConfiguredCore, r: Result<Cycles>) -> bool {
    &&& r == Ok::<Cycles, Exception>(Cycles(4))
    &&& ({
            let reg = ir_dy(c0.ir);
            let res = word_extended(c0.dar[reg]);
            reg_set(
                ConfiguredCore { n_flag: res >> 24u32, v_flag: 0, c_flag: 0, not_z_flag: res, ..c0 },
                c1,
                reg,
                res,
            )
        })
}

/// EXT.L Dy: the low word sign-extended to a long word.
pub fn ext_wl(core: &mut ConfiguredCore) -> (r: Result<Cycles>)
    ensures
        ext_wl_effect(*old(core), *final(core), r),
{
    let reg = reg_dy(core.ir);
    let dst = core.dar[reg];
    let res = (dst & 0xffff) | if dst & 0x8000 != 0 {
        0xffff_0000u32
    } else {
        0
    };
    core.n_flag = res >> 24;
    core.v_flag = 0;
    core.c_flag = 0;
    core.not_z_flag = res;
    set_reg(core, reg, res);
    Ok(Cycles(4))
}

/// What `moveq_32` does: the core goes from `c0` to `c1` and `r` comes back.
pub open spec fn moveq_32_effect(c0: ConfiguredCore, c1: ConfiguredCore, r: Result<Cycles>) -> bool {
    &&& r == Ok::<Cycles, Exception>(Cycles(4))
    &&& ({
            let res = short_offset(c0.ir);
            reg_set(
                ConfiguredCore { n_flag: res >> 24u32, v_flag: 0, c_flag: 0, not_z_flag: res, ..c0 },
                c1,
                ir_dx(c0.ir),
                res,
            )
        })
}

/// MOVEQ #data,Dx: the sign-extended low byte of the instruction.
pub fn moveq_32(core: &mut ConfiguredCore) -> (r: Result<Cycles>)
    ensures
        moveq_32_effect(*old(core), *final(core), r),
{
    let res = ((core.ir & 0xff) as i8) as u32;
    core.n_flag = res >> 24;
    core.not_z_flag = res;
    core.v_flag = 0;
    core.c_flag = 0;
    let reg = reg_dx(core.ir);
    set_reg(core, reg, res);
    Ok(Cycles(4))
}

/// What `swap_32_dn` does: the core goes from `c0` to `c1` and `r` comes back.
pub open spec fn swap_32_dn_effect(c0: ConfiguredCore, c1: ConfiguredCore, r: Result<Cycles>) -> bool {
    &&& r == Ok::<Cycles, Exception>(Cycles(4))
    &&& ({
            let reg = ir_dy(c0.ir);
            let v = c0.dar[reg];
            let res = ((v & 0x0000_ffff) << 16u32) | (v >> 16u32);
            reg_set(
                ConfiguredCore { n_flag: res >> 24u32, v_flag: 0, c_flag: 0, not_z_flag: res, ..c0 },
                c1,
                reg,
                res,
            )
        })
}

/// SWAP Dy: the two words of the register exchanged.
pub fn swap_32_dn(core: &mut ConfiguredCore) -> (r: Result<Cycles>)
    ensures
        swap_32_dn_effect(*old(core), *final(core), r),
{
    let reg = reg_dy(core.ir);
    let v = core.dar[reg];
    let res = ((v & 0x0000_ffff) << 16) | (v >> 16);
    core.n_flag = res >> 24;
    core.v_flag = 0;
    core.c_flag = 0;
    core.not_z_flag = res;
    set_reg(core, reg, res);
    Ok(Cycles(4))
}

/// What `move_32_tou` does: the core goes from `c0` to `c1` and `r` comes back.
pub open spec fn move_32_tou_effect(c0: ConfiguredCore, c1: ConfiguredCore, r: Result<Cycles>) -> bool {
    &&& c0.s_flag == 0 ==> r == Err::<Cycles, Exception>(privilege_violation(c0)) && c1 == c0
    &&& c0.s_flag != 0 ==> r == Ok::<Cycles, Exception>(Cycles(4)) && c1 == (ConfiguredCore {
            inactive_usp: c0.dar[ir_ay(c0.ir)],
            ..c0
        })
}

/// MOVE Ay,USP.
pub fn move_32_tou(core: &mut ConfiguredCore) -> (r: Result<Cycles>)
    ensures
        move_32_tou_effect(*old(core), *final(core), r),
{
    if core.s_flag != 0 {
        core.inactive_usp = core.dar[reg_ay(core.ir)];
        Ok(Cycles(4))
    } else {
        Err(Exception::PrivilegeViolation(core.ir, core.pc.wrapping_sub(2)))
    }
}

/// What `move_32_fru` does: the core goes from `c0` to `c1` and `r` comes back.
pub open spec fn move_32_fru_effect(c0: ConfiguredCore, c1: ConfiguredCore, r: Result<Cycles>) -> bool {
    &&& c0.s_flag == 0 ==> r == Err::<Cycles, Exception>(privilege_violation(c0)) && c1 == c0
    &&& c0.s_flag != 0 ==> r == Ok::<Cycles, Exception>(Cycles(4)) && reg_set(c0, c1, ir_ay(c0.ir), c0.inactive_usp)
}

/// MOVE USP,Ay.
pub fn move_32_fru(core: &mut ConfiguredCore) -> (r: Result<Cycles>)
    ensures
        move_32_fru_effect(*old(core), *final(core), r),
{
    if core.s_flag != 0 {
        let reg = reg_ay(core.ir);
        let usp = core.inactive_usp;
        set_reg(core, reg, usp);
        Ok(Cycles(4))
    } else {
        Err(Exception::PrivilegeViolation(core.ir, core.pc.wrapping_sub(2)))
    }
}

/// What `reset` does: the core goes from `c0` to `c1` and `r` comes back.
pub open spec fn reset_effect(c0: ConfiguredCore, c1: ConfiguredCore, r: Result<Cycles>) -> bool {
    &&& c0.s_flag == 0 ==> r == Err::<Cycles, Exception>(privilege_violation(c0)) && c1 == c0
    &&& c0.s_flag != 0 ==> r == Ok::<Cycles, Exception>(Cycles(132)) && c1.int_ctrl.pending() == 0
            && c1 == (ConfiguredCore { int_ctrl: c1.int_ctrl, ..c0 })
}

/// RESET: the external devices are reset; supervisor mode only.
pub fn reset(core: &mut ConfiguredCore) -> (r: Result<Cycles>)
    ensures
        reset_effect(*old(core), *final(core), r),
{
    if core.s_flag != 0 {
        core.reset_external_devices();
        Ok(Cycles(132))
    } else {
        Err(Exception::PrivilegeViolation(core.ir, core.pc.wrapping_sub(2)))
    }
}

/// What `stop` does: the core goes from `c0` to `c1` and `r` comes back.
pub open spec fn stop_effect(c0: ConfiguredCore, c1: ConfiguredCore, r: Result<Cycles>) -> bool {
    &&& c0.s_flag == 0 ==> r == Err::<Cycles, Exception>(privilege_violation(c0)) && c1 == c0
    &&& c0.s_flag != 0 && c0.pc & 1 != 0 ==> r == Err::<Cycles, Exception>(c0.pc_error()) && c1 == c0
    &&& c0.s_flag != 0 && c0.pc & 1 == 0 ==> r == Ok::<Cycles, Exception>(Cycles(4)) && exists|m1: ConfiguredCore, m2: ConfiguredCore|
            #![trigger ConfiguredCore::fetched(c0, m1, c0.after16()), sr_set(m1, m2, c0.ext16())]
            ConfiguredCore::fetched(c0, m1, c0.after16()) && sr_set(m1, m2, c0.ext16())
                && c1 == (ConfiguredCore { processing_state: ProcessingState::Stopped, ..m2 })
}

/// STOP #sr: the status register loaded and instruction processing
/// stopped; supervisor mode only.
pub fn stop(core: &mut ConfiguredCore) -> (r: Result<Cycles>)
    requires
        old(core).wf(),
    ensures
        final(core).wf(),
        stop_effect(*old(core), *final(core), r),
{
    if core.s_flag == 0 {
        return Err(Exception::PrivilegeViolation(core.ir, core.pc.wrapping_sub(2)));
    }
    let ghost c0 = *core;
    let sr = match core.read_imm_u16() {
        Ok(sr) => sr,
        Err(e) => {
            return Err(e);
        },
    };
    let ghost m1 = *core;
    assert(ConfiguredCore::fetched(c0, m1, c0.after16()));
    core.sr_to_flags(sr);
    let ghost m2 = *core;
    assert(sr_set(m1, m2, c0.ext16()));
    core.stop_instruction_processing();
    Ok(Cycles(4))
}

/// What `rts_32` does: the core goes from `c0` to `c1` and `r` comes back.
pub open spec fn rts_32_effect(c0: ConfiguredCore, c1: ConfiguredCore, r: Result<Cycles>) -> bool {
    &&& sp_odd(c0) ==> r == Err::<Cycles, Exception>(stack_error(c0, c0.dar[15], AccessType::Read))
            && c1 == c0
    &&& !sp_odd(c0) ==> r == Ok::<Cycles, Exception>(Cycles(16)) && exists|mid: ConfiguredCore, pc: u32|
            #[trigger] popped_32(c0, mid, pc) && c1 == (ConfiguredCore { pc, ..mid })
}

/// RTS: the program counter popped from the stack.
pub fn rts_32(core: &mut ConfiguredCore) -> (r: Result<Cycles>)
    requires
        old(core).wf(),
    ensures
        final(core).wf(),
        rts_32_effect(*old(core), *final(core), r),
{
    if core.dar[15] & 1 != 0 {
        return Err(stack_fault(core, core.dar[15], AccessType::Read));
    }
    let ghost c0 = *core;
    let new_pc = core.pop_32();
    let ghost mid = *core;
    assert(popped_32(c0, mid, new_pc));
    core.jump(new_pc);
    Ok(Cycles(16))
}

/// What `rtr_32` does: the core goes from `c0` to `c1` and `r` comes back.
pub open spec fn rtr_32_effect(c0: ConfiguredCore, c1: ConfiguredCore, r: Result<Cycles>) -> bool {
    &&& sp_odd(c0) ==> r == Err::<Cycles, Exception>(stack_error(c0, c0.dar[15], AccessType::Read))
            && c1 == c0
    &&& !sp_odd(c0) ==> r == Ok::<Cycles, Exception>(Cycles(20)) && exists|m1: ConfiguredCore, ccr: u16, m2: ConfiguredCore, pc: u32|
            #![trigger popped_16(c0, m1, ccr), popped_32(m1, m2, pc)]
            popped_16(c0, m1, ccr) && popped_32(m1, m2, pc)
                && sr_set(ConfiguredCore { pc, ..m2 }, c1, m2.ccr_sr(ccr))
}

/// RTR: the condition codes, then the program counter, popped from the
/// stack.
pub fn rtr_32(core: &mut ConfiguredCore) -> (r: Result<Cycles>)
    requires
        old(core).wf(),
    ensures
        final(core).wf(),
        rtr_32_effect(*old(core), *final(core), r),
{
    if core.dar[15] & 1 != 0 {
        return Err(stack_fault(core, core.dar[15], AccessType::Read));
    }
    let ghost c0 = *core;
    let new_ccr = core.pop_16();
    let ghost m1 = *core;
    proof {
        lemma_parity(c0.dar[15]);
        lemma_parity(m1.dar[15]);
    }
    let new_pc = core.pop_32();
    let ghost m2 = *core;
    assert(popped_16(c0, m1, new_ccr));
    assert(popped_32(m1, m2, new_pc));
    core.jump(new_pc);
    core.ccr_to_flags(new_ccr);
    Ok(Cycles(20))
}

/// What `rte_32` does: the core goes from `c0` to `c1` and `r` comes back.
pub open spec fn rte_32_effect(c0: ConfiguredCore, c1: ConfiguredCore, r: Result<Cycles>) -> bool {
    &&& c0.s_flag == 0 ==> r == Err::<Cycles, Exception>(privilege_violation(c0)) && c1 == c0
    &&& c0.s_flag != 0 && sp_odd(c0) ==> r == Err::<Cycles, Exception>(
            stack_error(c0, c0.dar[15], AccessType::Read),
        ) && c1 == c0
    &&& c0.s_flag != 0 && !sp_odd(c0) ==> r == Ok::<Cycles, Exception>(Cycles(20)) && exists|
            m1: ConfiguredCore,
            sr: u16,
            m2: ConfiguredCore,
            pc: u32,
            m3: ConfiguredCore,
        |
            #![trigger popped_16(c0, m1, sr), popped_32(m1, m2, pc), sr_set(ConfiguredCore { pc, ..m2 }, m3, sr)]
            popped_16(c0, m1, sr) && popped_32(m1, m2, pc) && sr_set(ConfiguredCore { pc, ..m2 }, m3, sr)
                && c1 == (ConfiguredCore { processing_state: ProcessingState::Normal, ..m3 })
}

/// RTE: the status register, then the program counter, popped from the
/// stack, and normal processing resumed; supervisor mode only.
pub fn rte_32(core: &mut ConfiguredCore) -> (r: Result<Cycles>)
    requires
        old(core).wf(),
    ensures
        final(core).wf(),
        rte_32_effect(*old(core), *final(core), r),
{
    if core.s_flag == 0 {
        return Err(Exception::PrivilegeViolation(core.ir, core.pc.wrapping_sub(2)));
    }
    if core.dar[15] & 1 != 0 {
        return Err(stack_fault(core, core.dar[15], AccessType::Read));
    }
    let ghost c0 = *core;
    let new_sr = core.pop_16();
    let ghost m1 = *core;
    proof {
        lemma_parity(c0.dar[15]);
        lemma_parity(m1.dar[15]);
    }
    let new_pc = core.pop_32();
    let ghost m2 = *core;
    assert(popped_16(c0, m1, new_sr));
    assert(popped_32(m1, m2, new_pc));
    core.jump(new_pc);
    core.sr_to_flags(new_sr);
    let ghost m3 = *core;
    assert(sr_set(ConfiguredCore { pc: new_pc, ..m2 }, m3, new_sr));
    core.resume_normal_processing();
    Ok(Cycles(20))
}

/// The cells of a six-byte exception frame: the long word two bytes above
/// the frame's start shares no cell with the word at its start.
proof fn lemma_frame_cells(s6: u32)
    ensures
        ({
            let s4 = wadd(s6, 2);
            forall|k: u32|
                k < 4 ==> !same_cell(#[trigger] addr_plus(s4, k), s6) && !same_cell(addr_plus(s4, k), addr_plus(s6, 1))
        }),
{
    let s4 = wadd(s6, 2);
    lemma_mask_is_mod(s6);
    lemma_mask_is_mod(addr_plus(s6, 1));
    assert forall|k: u32| k < 4 implies !same_cell(#[trigger] addr_plus(s4, k), s6) && !same_cell(addr_plus(s4, k), addr_plus(s6, 1)) by {
        lemma_mask_is_mod(addr_plus(s4, k));
    }
}

/// The status register of a well-formed core keeps only the bits that
/// `sr_to_flags` reads, and its S bit gives back the S flag.
proof fn lemma_sr_fields(s: u32, im: u32, x: u32, n: u32, zz: u32, v: u32, c: u32, w: u16)
    by (bit_vector)
    requires
        s == 0 || s == 4,
        im & 0xff == 0,
        im <= 0x0700,
        zz <= 1,
    ensures
        ((s << 11u32) | im | ((x & 0x100) >> 4u32) | ((n & 0x80) >> 4u32) | (zz << 2u32) | ((v & 0x80) >> 6u32) | ((c & 0x100) >> 8u32)) as u16 & 0x271f
            == ((s << 11u32) | im | ((x & 0x100) >> 4u32) | ((n & 0x80) >> 4u32) | (zz << 2u32) | ((v & 0x80) >> 6u32) | ((c & 0x100) >> 8u32)) as u16,
        ((((((s << 11u32) | im | ((x & 0x100) >> 4u32) | ((n & 0x80) >> 4u32) | (zz << 2u32) | ((v & 0x80) >> 6u32) | ((c & 0x100) >> 8u32)) as u16) & 0xa71f) as u32) >> 11u32) & 4 == s,
        ((w as u32) & 0xffff) as u16 == w,
{
}

/// An RTE right after a group 1 or group 2 exception frame was stacked
/// returns to where the exception was taken: the program counter of the
/// frame, the status register, the registers and both stack pointers of the
/// interrupted state, with normal processing resumed. An interrupt mask above
/// level 7 does not survive the trip, since the status register keeps three
/// mask bits.
pub proof fn law_rte_returns_from_exception(
    c0: ConfiguredCore,
    c1: ConfiguredCore,
    new_state: ProcessingState,
    pc: u32,
    vector: u8,
    c2: ConfiguredCore,
    r: Result<Cycles>,
)
    requires
        c0.wf(),
        c0.supervisor_sp() & 1 == 0,
        c0.int_mask <= 0x0700,
        ConfiguredCore::exception_taken(c0, c1, new_state, pc, vector),
        rte_32_effect(c1, c2, r),
    ensures
        r == Ok::<Cycles, Exception>(Cycles(20)),
        c2.pc == pc,
        c2.spec_status_register() == c0.spec_status_register(),
        c2.s_flag == c0.s_flag,
        c2.dar@ == c0.dar@,
        supervisor_stack(c2) == supervisor_stack(c0),
        user_stack(c2) == user_stack(c0),
        c2.processing_state == ProcessingState::Normal,
{
    let sp0 = c0.supervisor_sp();
    let s4 = wsub(sp0, 4);
    let s6 = wsub(sp0, 6);
    let srv = c0.spec_status_register();
    let zz: u32 = if c0.not_z_flag == 0 { 1 } else { 0 };
    lemma_sr_fields(c0.s_flag, c0.int_mask, c0.x_flag, c0.n_flag, zz, c0.v_flag, c0.c_flag, srv);
    assert(c1.s_flag == SFLAG_SET);
    assert(c1.dar[15] == s6);
    lemma_parity(sp0);
    lemma_parity(s6);
    assert(!sp_odd(c1));
    let (m1, sr, m2, pcx, m3) = choose|m1: ConfiguredCore, sr: u16, m2: ConfiguredCore, pcx: u32, m3: ConfiguredCore|
        popped_16(c1, m1, sr) && popped_32(m1, m2, pcx) && sr_set(ConfiguredCore { pc: pcx, ..m2 }, m3, sr)
            && c2 == (ConfiguredCore { processing_state: ProcessingState::Normal, ..m3 });
    let ma = choose|ma: PagedMem|
        long_stored(c0.mem.memory(), ma, s4, pc) && word_stored(ma, c1.mem.memory(), s6, srv as u32);
    let mem1 = c1.mem.memory();
    law_word_read_your_write(ma, mem1, s6, srv as u32);
    law_long_read_your_write(c0.mem.memory(), ma, s4, pc);
    lemma_frame_cells(s6);
    assert(wadd(s6, 2) == s4);
    assert(mem1.long(s4) == ma.long(s4)) by {
        assert(addr_plus(s4, 0) == s4);
        assert(mem1.byte(addr_plus(s4, 0)) == ma.byte(addr_plus(s4, 0)));
        assert(mem1.byte(addr_plus(s4, 1)) == ma.byte(addr_plus(s4, 1)));
        assert(mem1.byte(addr_plus(s4, 2)) == ma.byte(addr_plus(s4, 2)));
        assert(mem1.byte(addr_plus(s4, 3)) == ma.byte(addr_plus(s4, 3)));
    }
    assert(sr == srv);
    assert(m1.dar[15] == s4);
    assert(pcx == pc);
    assert(m2.dar[15] == sp0);
    let x = ConfiguredCore { pc: pcx, ..m2 };
    law_status_register_roundtrip(x, sr);
    assert(m3.spec_status_register() == x.spec_sr_to_flags(sr).spec_status_register());
    assert(c2.dar@ =~= c0.dar@);
}

/// What `unlk_32` does: the core goes from `c0` to `c1` and `r` comes back.
pub open spec fn unlk_32_effect(c0: ConfiguredCore, c1: ConfiguredCore, r: Result<Cycles>) -> bool {
    &&& ({
            let frame = c0.dar[ir_ay(c0.ir)];
            &&& frame & 1 != 0 ==> r == Err::<Cycles, Exception>(stack_error(c0, frame, AccessType::Read))
                && c1 == c0
            &&& frame & 1 == 0 ==> r == Ok::<Cycles, Exception>(Cycles(12)) && exists|m1: ConfiguredCore, m2: ConfiguredCore, v: u32|
                #![trigger reg_set(c0, m1, 15, frame), popped_32(m1, m2, v)]
                reg_set(c0, m1, 15, frame) && popped_32(m1, m2, v) && reg_set(m2, c1, ir_ay(c0.ir), v)
        })
}

/// UNLK Ay: the stack pointer loaded from Ay, then Ay popped.
pub fn unlk_32(core: &mut ConfiguredCore) -> (r: Result<Cycles>)
    requires
        old(core).wf(),
    ensures
        final(core).wf(),
        unlk_32_effect(*old(core), *final(core), r),
{
    let reg = reg_ay(core.ir);
    let frame = core.dar[reg];
    if frame & 1 != 0 {
        return Err(stack_fault(core, frame, AccessType::Read));
    }
    let ghost c0 = *core;
    set_reg(core, 15, frame);
    let ghost m1 = *core;
    let v = core.pop_32();
    let ghost m2 = *core;
    assert(reg_set(c0, m1, 15, frame));
    assert(popped_32(m1, m2, v));
    set_reg(core, reg, v);
    Ok(Cycles(12))
}

/// The long word that LINK pushes: Ay, or the new stack pointer when Ay
/// is the stack pointer itself.
pub open spec fn link_pushed(c: ConfiguredCore) -> u32 {
    if ir_ay(c.ir) == 15 {
        wsub(c.dar[15], 4)
    } else {
        c.dar[ir_ay(c.ir)]
    }
}

/// What `link_16` does: the core goes from `c0` to `c1` and `r` comes back.
pub open spec fn link_16_effect(c0: ConfiguredCore, c1: ConfiguredCore, r: Result<Cycles>) -> bool {
    &&& sp_odd(c0) ==> r == Err::<Cycles, Exception>(stack_error(c0, wsub(c0.dar[15], 4), AccessType::Write))
            && c1 == c0
    &&& !sp_odd(c0) ==> ({
            let reg = ir_ay(c0.ir);
            let sp = wsub(c0.dar[15], 4);
            let pushed = link_pushed(c0);
            exists|m1: ConfiguredCore, m2: ConfiguredCore|
                #![trigger pushed_32(c0, m1, pushed), reg_set(m1, m2, reg, sp)]
                pushed_32(c0, m1, pushed) && reg_set(m1, m2, reg, sp) && if m2.pc & 1 != 0 {
                    r == Err::<Cycles, Exception>(m2.pc_error()) && c1 == m2
                } else {
                    r == Ok::<Cycles, Exception>(Cycles(16)) && exists|m3: ConfiguredCore|
                        #[trigger] ConfiguredCore::fetched(m2, m3, m2.after16())
                            && reg_set(m3, c1, 15, wadd(sp, (m2.ext16() as i16) as u32))
                }
        })
}

/// LINK Ay,#d: Ay pushed, Ay set to the stack pointer, and the stack
/// pointer moved by the displacement.
pub fn link_16(core: &mut ConfiguredCore) -> (r: Result<Cycles>)
    requires
        old(core).wf(),
    ensures
        final(core).wf(),
        link_16_effect(*old(core), *final(core), r),
{
    if core.dar[15] & 1 != 0 {
        return Err(stack_fault(core, core.dar[15].wrapping_sub(4), AccessType::Write));
    }
    let ghost c0 = *core;
    let reg = reg_ay(core.ir);
    let sp = if reg == 15 {
        core.push_sp()
    } else {
        let ay = core.dar[reg];
        core.push_32(ay)
    };
    let ghost m1 = *core;
    let ghost pv = link_pushed(c0);
    assert(sp == wsub(c0.dar[15], 4));
    assert(pushed_32(c0, m1, pv));
    set_reg(core, reg, sp);
    let ghost m2 = *core;
    assert(reg_set(m1, m2, reg as int, sp));
    let target = match effective_address::displacement(core, sp) {
        Ok(t) => t,
        Err(e) => {
            return Err(e);
        },
    };
    let ghost m3 = *core;
    assert(ConfiguredCore::fetched(m2, m3, m2.after16()));
    set_reg(core, 15, target);
    Ok(Cycles(16))
}

/// A byte read through the data space that logs the access.
pub open spec fn byte_read(c0: ConfiguredCore, c1: ConfiguredCore, address: u32) -> bool {
    &&& read_logged(c0.mem, c1.mem, Operation::ReadByte(c0.data_space(), address & ADDRBUS_MASK, c0.mem.byte(address)))
    &&& c1 == c0.with_mem(c1.mem)
}

/// A byte write through the data space that logs the access.
pub open spec fn byte_written(c0: ConfiguredCore, c1: ConfiguredCore, address: u32, value: u32) -> bool {
    data_written(c0, c1, 8, address, value, Ok::<(), Exception>(()))
}

/// What `movep_16_er` does: the core goes from `c0` to `c1` and `r` comes back.
pub open spec fn movep_16_er_effect(c0: ConfiguredCore, c1: ConfiguredCore, r: Result<Cycles>) -> bool {
    &&& c0.pc & 1 != 0 ==> r == Err::<Cycles, Exception>(c0.pc_error()) && c1 == c0
    &&& c0.pc & 1 == 0 ==> r == Ok::<Cycles, Exception>(Cycles(16)) && ({
            let ea = wadd(c0.dar[ir_ay(c0.ir)], (c0.ext16() as i16) as u32);
            let reg = ir_dx(c0.ir);
            exists|m1: ConfiguredCore, m2: ConfiguredCore, m3: ConfiguredCore|
                #![trigger ConfiguredCore::fetched(c0, m1, c0.after16()), byte_read(m1, m2, ea), byte_read(m2, m3, wadd(ea, 2))]
                ConfiguredCore::fetched(c0, m1, c0.after16()) && byte_read(m1, m2, ea) && byte_read(m2, m3, wadd(ea, 2))
                    && reg_set(m3, c1, reg, (c0.dar[reg] & 0xffff_0000) | ((m1.mem.byte(ea) as u32) << 8u32) | (m1.mem.byte(wadd(ea, 2)) as u32))
        })
}

/// MOVEP.W d(Ay),Dx: two alternate bytes into the low word of Dx.
pub fn movep_16_er(core: &mut ConfiguredCore) -> (r: Result<Cycles>)
    requires
        old(core).wf(),
    ensures
        final(core).wf(),
        movep_16_er_effect(*old(core), *final(core), r),
{
    let ghost c0 = *core;
    let ea = match effective_address::displacement_ay(core) {
        Ok(ea) => ea,
        Err(e) => {
            return Err(e);
        },
    };
    let ghost m1 = *core;
    let hi = match core.read_data_byte(ea) {
        Ok(v) => v,
        Err(e) => {
            return Err(e);
        },
    };
    let ghost m2 = *core;
    let lo = match core.read_data_byte(ea.wrapping_add(2)) {
        Ok(v) => v,
        Err(e) => {
            return Err(e);
        },
    };
    let ghost m3 = *core;
    assert(ConfiguredCore::fetched(c0, m1, c0.after16()));
    assert(byte_read(m1, m2, ea));
    assert(byte_read(m2, m3, wadd(ea, 2)));
    let reg = reg_dx(core.ir);
    let v = (core.dar[reg] & 0xffff_0000) | (hi << 8) | lo;
    set_reg(core, reg, v);
    Ok(Cycles(16))
}

/// What `movep_16_re` does: the core goes from `c0` to `c1` and `r` comes back.
pub open spec fn movep_16_re_effect(c0: ConfiguredCore, c1: ConfiguredCore, r: Result<Cycles>) -> bool {
    &&& c0.pc & 1 != 0 ==> r == Err::<Cycles, Exception>(c0.pc_error()) && c1 == c0
    &&& c0.pc & 1 == 0 ==> r == Ok::<Cycles, Exception>(Cycles(16)) && ({
            let ea = wadd(c0.dar[ir_ay(c0.ir)], (c0.ext16() as i16) as u32);
            let data = c0.dar[ir_dx(c0.ir)] & 0xffff;
            exists|m1: ConfiguredCore, m2: ConfiguredCore|
                #![trigger ConfiguredCore::fetched(c0, m1, c0.after16()), byte_written(m1, m2, ea, (data >> 8u32) & 0xff)]
                ConfiguredCore::fetched(c0, m1, c0.after16()) && byte_written(m1, m2, ea, (data >> 8u32) & 0xff)
                    && byte_written(m2, c1, wadd(ea, 2), data & 0xff)
        })
}

/// MOVEP.W Dx,d(Ay): the low word of Dx into two alternate bytes.
pub fn movep_16_re(core: &mut ConfiguredCore) -> (r: Result<Cycles>)
    requires
        old(core).wf(),
    ensures
        final(core).wf(),
        movep_16_re_effect(*old(core), *final(core), r),
{
    let ghost c0 = *core;
    let ea = match effective_address::displacement_ay(core) {
        Ok(ea) => ea,
        Err(e) => {
            return Err(e);
        },
    };
    let ghost m1 = *core;
    let data = core.dar[reg_dx(core.ir)] & 0xffff;
    match core.write_data_byte(ea, (data >> 8) & 0xff) {
        Ok(()) => {},
        Err(e) => {
            return Err(e);
        },
    }
    let ghost m2 = *core;
    match core.write_data_byte(ea.wrapping_add(2), data & 0xff) {
        Ok(()) => {},
        Err(e) => {
            return Err(e);
        },
    }
    assert(ConfiguredCore::fetched(c0, m1, c0.after16()));
    assert(byte_written(m1, m2, ea, (data >> 8u32) & 0xff));
    Ok(Cycles(16))
}

/// What `movep_32_er` does: the core goes from `c0` to `c1` and `r` comes back.
pub open spec fn movep_32_er_effect(c0: ConfiguredCore, c1: ConfiguredCore, r: Result<Cycles>) -> bool {
    &&& c0.pc & 1 != 0 ==> r == Err::<Cycles, Exception>(c0.pc_error()) && c1 == c0
    &&& c0.pc & 1 == 0 ==> r == Ok::<Cycles, Exception>(Cycles(24)) && ({
            let ea = wadd(c0.dar[ir_ay(c0.ir)], (c0.ext16() as i16) as u32);
            exists|m1: ConfiguredCore, m2: ConfiguredCore, m3: ConfiguredCore, m4: ConfiguredCore, m5: ConfiguredCore|
                #![trigger ConfiguredCore::fetched(c0, m1, c0.after16()), byte_read(m1, m2, ea), byte_read(m2, m3, wadd(ea, 2)), byte_read(m3, m4, wadd(ea, 4)), byte_read(m4, m5, wadd(ea, 6))]
                ConfiguredCore::fetched(c0, m1, c0.after16()) && byte_read(m1, m2, ea) && byte_read(m2, m3, wadd(ea, 2))
                    && byte_read(m3, m4, wadd(ea, 4)) && byte_read(m4, m5, wadd(ea, 6))
                    && reg_set(m5, c1, ir_dx(c0.ir),
                        ((m1.mem.byte(ea) as u32) << 24u32) | ((m1.mem.byte(wadd(ea, 2)) as u32) << 16u32)
                        | ((m1.mem.byte(wadd(ea, 4)) as u32) << 8u32) | (m1.mem.byte(wadd(ea, 6)) as u32))
        })
}

/// MOVEP.L d(Ay),Dx: four alternate bytes into Dx.
pub fn movep_32_er(core: &mut ConfiguredCore) -> (r: Result<Cycles>)
    requires
        old(core).wf(),
    ensures
        final(core).wf(),
        movep_32_er_effect(*old(core), *final(core), r),
{
    let ghost c0 = *core;
    let ea = match effective_address::displacement_ay(core) {
        Ok(ea) => ea,
        Err(e) => {
            return Err(e);
        },
    };
    let ghost m1 = *core;
    let b0 = match core.read_data_byte(ea) {
        Ok(v) => v,
        Err(e) => {
            return Err(e);
        },
    };
    let ghost m2 = *core;
    let b1 = match core.read_data_byte(ea.wrapping_add(2)) {
        Ok(v) => v,
        Err(e) => {
            return Err(e);
        },
    };
    let ghost m3 = *core;
    let b2 = match core.read_data_byte(ea.wrapping_add(4)) {
        Ok(v) => v,
        Err(e) => {
            return Err(e);
        },
    };
    let ghost m4 = *core;
    let b3 = match core.read_data_byte(ea.wrapping_add(6)) {
        Ok(v) => v,
        Err(e) => {
            return Err(e);
        },
    };
    let ghost m5 = *core;
    assert(ConfiguredCore::fetched(c0, m1, c0.after16()));
    assert(byte_read(m1, m2, ea));
    assert(byte_read(m2, m3, wadd(ea, 2)));
    assert(byte_read(m3, m4, wadd(ea, 4)));
    assert(byte_read(m4, m5, wadd(ea, 6)));
    let reg = reg_dx(core.ir);
    set_reg(core, reg, (b0 << 24) | (b1 << 16) | (b2 << 8) | b3);
    Ok(Cycles(24))
}

/// What `movep_32_re` does: the core goes from `c0` to `c1` and `r` comes back.
pub open spec fn movep_32_re_effect(c0: ConfiguredCore, c1: ConfiguredCore, r: Result<Cycles>) -> bool {
    &&& c0.pc & 1 != 0 ==> r == Err::<Cycles, Exception>(c0.pc_error()) && c1 == c0
    &&& c0.pc & 1 == 0 ==> r == Ok::<Cycles, Exception>(Cycles(24)) && ({
            let ea = wadd(c0.dar[ir_ay(c0.ir)], (c0.ext16() as i16) as u32);
            let data = c0.dar[ir_dx(c0.ir)];
            exists|m1: ConfiguredCore, m2: ConfiguredCore, m3: ConfiguredCore, m4: ConfiguredCore|
                #![trigger ConfiguredCore::fetched(c0, m1, c0.after16()), byte_written(m1, m2, ea, (data >> 24u32) & 0xff), byte_written(m2, m3, wadd(ea, 2), (data >> 16u32) & 0xff), byte_written(m3, m4, wadd(ea, 4), (data >> 8u32) & 0xff)]
                ConfiguredCore::fetched(c0, m1, c0.after16()) && byte_written(m1, m2, ea, (data >> 24u32) & 0xff)
                    && byte_written(m2, m3, wadd(ea, 2), (data >> 16u32) & 0xff)
                    && byte_written(m3, m4, wadd(ea, 4), (data >> 8u32) & 0xff)
                    && byte_written(m4, c1, wadd(ea, 6), data & 0xff)
        })
}

/// MOVEP.L Dx,d(Ay): Dx into four alternate bytes.
pub fn movep_32_re(core: &mut ConfiguredCore) -> (r: Result<Cycles>)
    requires
        old(core).wf(),
    ensures
        final(core).wf(),
        movep_32_re_effect(*old(core), *final(core), r),
{
    let ghost c0 = *core;
    let ea = match effective_address::displacement_ay(core) {
        Ok(ea) => ea,
        Err(e) => {
            return Err(e);
        },
    };
    let ghost m1 = *core;
    let data = core.dar[reg_dx(core.ir)];
    match core.write_data_byte(ea, (data >> 24) & 0xff) {
        Ok(()) => {},
        Err(e) => {
            return Err(e);
        },
    }
    let ghost m2 = *core;
    match core.write_data_byte(ea.wrapping_add(2), (data >> 16) & 0xff) {
        Ok(()) => {},
        Err(e) => {
            return Err(e);
        },
    }
    let ghost m3 = *core;
    match core.write_data_byte(ea.wrapping_add(4), (data >> 8) & 0xff) {
        Ok(()) => {},
        Err(e) => {
            return Err(e);
        },
    }
    let ghost m4 = *core;
    match core.write_data_byte(ea.wrapping_add(6), data & 0xff) {
        Ok(()) => {},
        Err(e) => {
            return Err(e);
        },
    }
    assert(ConfiguredCore::fetched(c0, m1, c0.after16()));
    assert(byte_written(m1, m2, ea, (data >> 24u32) & 0xff));
    assert(byte_written(m2, m3, wadd(ea, 2), (data >> 16u32) & 0xff));
    assert(byte_written(m3, m4, wadd(ea, 4), (data >> 8u32) & 0xff));
    Ok(Cycles(24))
}

/// What CHK does with the value of Dx and the bound read: the trap when
/// the low word of Dx, as a signed number, is negative or above the bound.
pub open spec fn chk_outcome(c: ConfiguredCore, dx: u32, bound: u32, cycles: i32) -> (ConfiguredCore, Result<Cycles>) {
    let src = dx as i16;
    let b = bound as i16;
    let flagged = ConfiguredCore { not_z_flag: (src as u32) & 0xffff, v_flag: 0, c_flag: 0, ..c };
    if src >= 0 && src <= b {
        (flagged, Ok(Cycles(cycles)))
    } else {
        (
            ConfiguredCore {
                n_flag: if src < 0 {
                    0x80u32
                } else {
                    0
                },
                ..flagged
            },
            Err(Exception::Trap(EXCEPTION_CHK, (40 + cycles - 10) as i32)),
        )
    }
}

fn check_bound(core: &mut ConfiguredCore, dx: u32, bound: u32, cycles: i32) -> (r: Result<Cycles>)
    requires
        10 <= cycles <= 100,
    ensures
        (*final(core), r) == chk_outcome(*old(core), dx, bound, cycles),
{
    let src = dx as i16;
    let b = bound as i16;
    core.not_z_flag = (src as u32) & 0xffff;
    core.v_flag = 0;
    core.c_flag = 0;
    if src >= 0 && src <= b {
        Ok(Cycles(cycles))
    } else {
        core.n_flag = if src < 0 {
            0x80
        } else {
            0
        };
        Err(Exception::Trap(EXCEPTION_CHK, 40 + cycles - 10))
    }
}

/// What `chk_16_ai` does: the core goes from `c0` to `c1` and `r` comes back.
pub open spec fn chk_16_ai_effect(c0: ConfiguredCore, c1: ConfiguredCore, r: Result<Cycles>) -> bool {
    &&& exists|mid: ConfiguredCore, b: Result<u32>|
            #[trigger] operator::ay_ai_16_rel(c0, mid, b) && match b {
                Err(e) => r == Err::<Cycles, Exception>(e) && c1 == mid,
                Ok(v) => (c1, r) == chk_outcome(mid, c0.dar[ir_dx(c0.ir)], v, 14),
            }
}

/// CHK.W: Dx against the bound read by `ay_ai_16`.
pub fn chk_16_ai(core: &mut ConfiguredCore) -> (r: Result<Cycles>)
    requires
        old(core).wf(),
    ensures
        final(core).wf(),
        chk_16_ai_effect(*old(core), *final(core), r),
{
    let ghost c0 = *core;
    let dx = core.dar[reg_dx(core.ir)];
    let b = operator::ay_ai_16(core);
    let ghost mid = *core;
    assert(operator::ay_ai_16_rel(c0, mid, b));
    match b {
        Err(e) => Err(e),
        Ok(v) => check_bound(core, dx, v, 14),
    }
}

/// What `chk_16_al` does: the core goes from `c0` to `c1` and `r` comes back.
pub open spec fn chk_16_al_effect(c0: ConfiguredCore, c1: ConfiguredCore, r: Result<Cycles>) -> bool {
    &&& exists|mid: ConfiguredCore, b: Result<u32>|
            #[trigger] operator::al_16_rel(c0, mid, b) && match b {
                Err(e) => r == Err::<Cycles, Exception>(e) && c1 == mid,
                Ok(v) => (c1, r) == chk_outcome(mid, c0.dar[ir_dx(c0.ir)], v, 22),
            }
}

/// CHK.W: Dx against the bound read by `al_16`.
pub fn chk_16_al(core: &mut ConfiguredCore) -> (r: Result<Cycles>)
    requires
        old(core).wf(),
    ensures
        final(core).wf(),
        chk_16_al_effect(*old(core), *final(core), r),
{
    let ghost c0 = *core;
    let dx = core.dar[reg_dx(core.ir)];
    let b = operator::al_16(core);
    let ghost mid = *core;
    assert(operator::al_16_rel(c0, mid, b));
    match b {
        Err(e) => Err(e),
        Ok(v) => check_bound(core, dx, v, 22),
    }
}

/// What `chk_16_aw` does: the core goes from `c0` to `c1` and `r` comes back.
pub open spec fn chk_16_aw_effect(c0: ConfiguredCore, c1: ConfiguredCore, r: Result<Cycles>) -> bool {
    &&& exists|mid: ConfiguredCore, b: Result<u32>|
            #[trigger] operator::aw_16_rel(c0, mid, b) && match b {
                Err(e) => r == Err::<Cycles, Exception>(e) && c1 == mid,
                Ok(v) => (c1, r) == chk_outcome(mid, c0.dar[ir_dx(c0.ir)], v, 18),
            }
}

/// CHK.W: Dx against the bound read by `aw_16`.
pub fn chk_16_aw(core: &mut ConfiguredCore) -> (r: Result<Cycles>)
    requires
        old(core).wf(),
    ensures
        final(core).wf(),
        chk_16_aw_effect(*old(core), *final(core), r),
{
    let ghost c0 = *core;
    let dx = core.dar[reg_dx(core.ir)];
    let b = operator::aw_16(core);
    let ghost mid = *core;
    assert(operator::aw_16_rel(c0, mid, b));
    match b {
        Err(e) => Err(e),
        Ok(v) => check_bound(core, dx, v, 18),
    }
}

/// What `chk_16_dn` does: the core goes from `c0` to `c1` and `r` comes back.
pub open spec fn chk_16_dn_effect(c0: ConfiguredCore, c1: ConfiguredCore, r: Result<Cycles>) -> bool {
    &&& exists|mid: ConfiguredCore, b: Result<u32>|
            #[trigger] operator::dy_rel(c0, mid, b) && match b {
                Err(e) => r == Err::<Cycles, Exception>(e) && c1 == mid,
                Ok(v) => (c1, r) == chk_outcome(mid, c0.dar[ir_dx(c0.ir)], v, 10),
            }
}

/// CHK.W: Dx against the bound read by `dy`.
pub fn chk_16_dn(core: &mut ConfiguredCore) -> (r: Result<Cycles>)
    requires
        old(core).wf(),
    ensures
        final(core).wf(),
        chk_16_dn_effect(*old(core), *final(core), r),
{
    let ghost c0 = *core;
    let dx = core.dar[reg_dx(core.ir)];
    let b = operator::dy(core);
    let ghost mid = *core;
    assert(operator::dy_rel(c0, mid, b));
    match b {
        Err(e) => Err(e),
        Ok(v) => check_bound(core, dx, v, 10),
    }
}

/// What `chk_16_di` does: the core goes from `c0` to `c1` and `r` comes back.
pub open spec fn chk_16_di_effect(c0: ConfiguredCore, c1: ConfiguredCore, r: Result<Cycles>) -> bool {
    &&& exists|mid: ConfiguredCore, b: Result<u32>|
            #[trigger] operator::ay_di_16_rel(c0, mid, b) && match b {
                Err(e) => r == Err::<Cycles, Exception>(e) && c1 == mid,
                Ok(v) => (c1, r) == chk_outcome(mid, c0.dar[ir_dx(c0.ir)], v, 18),
            }
}

/// CHK.W: Dx against the bound read by `ay_di_16`.
pub fn chk_16_di(core: &mut ConfiguredCore) -> (r: Result<Cycles>)
    requires
        old(core).wf(),
    ensures
        final(core).wf(),
        chk_16_di_effect(*old(core), *final(core), r),
{
    let ghost c0 = *core;
    let dx = core.dar[reg_dx(core.ir)];
    let b = operator::ay_di_16(core);
    let ghost mid = *core;
    assert(operator::ay_di_16_rel(c0, mid, b));
    match b {
        Err(e) => Err(e),
        Ok(v) => check_bound(core, dx, v, 18),
    }
}

/// What `chk_16_imm` does: the core goes from `c0` to `c1` and `r` comes back.
pub open spec fn chk_16_imm_effect(c0: ConfiguredCore, c1: ConfiguredCore, r: Result<Cycles>) -> bool {
    &&& exists|mid: ConfiguredCore, b: Result<u32>|
            #[trigger] operator::imm_16_rel(c0, mid, b) && match b {
                Err(e) => r == Err::<Cycles, Exception>(e) && c1 == mid,
                Ok(v) => (c1, r) == chk_outcome(mid, c0.dar[ir_dx(c0.ir)], v, 14),
            }
}

/// CHK.W: Dx against the bound read by `imm_16`.
pub fn chk_16_imm(core: &mut ConfiguredCore) -> (r: Result<Cycles>)
    requires
        old(core).wf(),
    ensures
        final(core).wf(),
        chk_16_imm_effect(*old(core), *final(core), r),
{
    let ghost c0 = *core;
    let dx = core.dar[reg_dx(core.ir)];
    let b = operator::imm_16(core);
    let ghost mid = *core;
    assert(operator::imm_16_rel(c0, mid, b));
    match b {
        Err(e) => Err(e),
        Ok(v) => check_bound(core, dx, v, 14),
    }
}

/// What `chk_16_ix` does: the core goes from `c0` to `c1` and `r` comes back.
pub open spec fn chk_16_ix_effect(c0: ConfiguredCore, c1: ConfiguredCore, r: Result<Cycles>) -> bool {
    &&& exists|mid: ConfiguredCore, b: Result<u32>|
            #[trigger] operator::ay_ix_16_rel(c0, mid, b) && match b {
                Err(e) => r == Err::<Cycles, Exception>(e) && c1 == mid,
                Ok(v) => (c1, r) == chk_outcome(mid, c0.dar[ir_dx(c0.ir)], v, 20),
            }
}

/// CHK.W: Dx against the bound read by `ay_ix_16`.
pub fn chk_16_ix(core: &mut ConfiguredCore) -> (r: Result<Cycles>)
    requires
        old(core).wf(),
    ensures
        final(core).wf(),
        chk_16_ix_effect(*old(core), *final(core), r),
{
    let ghost c0 = *core;
    let dx = core.dar[reg_dx(core.ir)];
    let b = operator::ay_ix_16(core);
    let ghost mid = *core;
    assert(operator::ay_ix_16_rel(c0, mid, b));
    match b {
        Err(e) => Err(e),
        Ok(v) => check_bound(core, dx, v, 20),
    }
}

/// What `chk_16_pcdi` does: the core goes from `c0` to `c1` and `r` comes back.
pub open spec fn chk_16_pcdi_effect(c0: ConfiguredCore, c1: ConfiguredCore, r: Result<Cycles>) -> bool {
    &&& exists|mid: ConfiguredCore, b: Result<u32>|
            #[trigger] operator::pcdi_16_rel(c0, mid, b) && match b {
                Err(e) => r == Err::<Cycles, Exception>(e) && c1 == mid,
                Ok(v) => (c1, r) == chk_outcome(mid, c0.dar[ir_dx(c0.ir)], v, 18),
            }
}

/// CHK.W: Dx against the bound read by `pcdi_16`.
pub fn chk_16_pcdi(core: &mut ConfiguredCore) -> (r: Result<Cycles>)
    requires
        old(core).wf(),
    ensures
        final(core).wf(),
        chk_16_pcdi_effect(*old(core), *final(core), r),
{
    let ghost c0 = *core;
    let dx = core.dar[reg_dx(core.ir)];
    let b = operator::pcdi_16(core);
    let ghost mid = *core;
    assert(operator::pcdi_16_rel(c0, mid, b));
    match b {
        Err(e) => Err(e),
        Ok(v) => check_bound(core, dx, v, 18),
    }
}

/// What `chk_16_pcix` does: the core goes from `c0` to `c1` and `r` comes back.
pub open spec fn chk_16_pcix_effect(c0: ConfiguredCore, c1: ConfiguredCore, r: Result<Cycles>) -> bool {
    &&& exists|mid: ConfiguredCore, b: Result<u32>|
            #[trigger] operator::pcix_16_rel(c0, mid, b) && match b {
                Err(e) => r == Err::<Cycles, Exception>(e) && c1 == mid,
                Ok(v) => (c1, r) == chk_outcome(mid, c0.dar[ir_dx(c0.ir)], v, 20),
            }
}

/// CHK.W: Dx against the bound read by `pcix_16`.
pub fn chk_16_pcix(core: &mut ConfiguredCore) -> (r: Result<Cycles>)
    requires
        old(core).wf(),
    ensures
        final(core).wf(),
        chk_16_pcix_effect(*old(core), *final(core), r),
{
    let ghost c0 = *core;
    let dx = core.dar[reg_dx(core.ir)];
    let b = operator::pcix_16(core);
    let ghost mid = *core;
    assert(operator::pcix_16_rel(c0, mid, b));
    match b {
        Err(e) => Err(e),
        Ok(v) => check_bound(core, dx, v, 20),
    }
}

/// What `chk_16_pd` does: the core goes from `c0` to `c1` and `r` comes back.
pub open spec fn chk_16_pd_effect(c0: ConfiguredCore, c1: ConfiguredCore, r: Result<Cycles>) -> bool {
    &&& exists|mid: ConfiguredCore, b: Result<u32>|
            #[trigger] operator::ay_pd_16_rel(c0, mid, b) && match b {
                Err(e) => r == Err::<Cycles, Exception>(e) && c1 == mid,
                Ok(v) => (c1, r) == chk_outcome(mid, c0.dar[ir_dx(c0.ir)], v, 16),
            }
}

/// CHK.W: Dx against the bound read by `ay_pd_16`.
pub fn chk_16_pd(core: &mut ConfiguredCore) -> (r: Result<Cycles>)
    requires
        old(core).wf(),
    ensures
        final(core).wf(),
        chk_16_pd_effect(*old(core), *final(core), r),
{
    let ghost c0 = *core;
    let dx = core.dar[reg_dx(core.ir)];
    let b = operator::ay_pd_16(core);
    let ghost mid = *core;
    assert(operator::ay_pd_16_rel(c0, mid, b));
    match b {
        Err(e) => Err(e),
        Ok(v) => check_bound(core, dx, v, 16),
    }
}

/// What `chk_16_pi` does: the core goes from `c0` to `c1` and `r` comes back.
pub open spec fn chk_16_pi_effect(c0: ConfiguredCore, c1: ConfiguredCore, r: Result<Cycles>) -> bool {
    &&& exists|mid: ConfiguredCore, b: Result<u32>|
            #[trigger] operator::ay_pi_16_rel(c0, mid, b) && match b {
                Err(e) => r == Err::<Cycles, Exception>(e) && c1 == mid,
                Ok(v) => (c1, r) == chk_outcome(mid, c0.dar[ir_dx(c0.ir)], v, 14),
            }
}

/// CHK.W: Dx against the bound read by `ay_pi_16`.
pub fn chk_16_pi(core: &mut ConfiguredCore) -> (r: Result<Cycles>)
    requires
        old(core).wf(),
    ensures
        final(core).wf(),
        chk_16_pi_effect(*old(core), *final(core), r),
{
    let ghost c0 = *core;
    let dx = core.dar[reg_dx(core.ir)];
    let b = operator::ay_pi_16(core);
    let ghost mid = *core;
    assert(operator::ay_pi_16_rel(c0, mid, b));
    match b {
        Err(e) => Err(e),
        Ok(v) => check_bound(core, dx, v, 14),
    }
}

proof fn lemma_word_and_bit_facts(v: u32, n: u32, k: u32)
    by (bit_vector)
    ensures
        (((v & 0x0000_ffff) << 16u32) | (v >> 16u32)) >> 16u32 == v & 0xffff,
        (((v & 0x0000_ffff) << 16u32) | (v >> 16u32)) & 0xffff == v >> 16u32,
        k < 32 ==> ((v ^ (1u32 << (n & 0x1f))) >> k) & 1 == (if k == n & 0x1f {
            ((v >> k) & 1) ^ 1
        } else {
            (v >> k) & 1
        }),
        ((v & (1u32 << (n & 0x1f))) == 0) == ((v >> (n & 0x1f)) & 1 == 0),
        k < 32 ==> ((v & !(1u32 << (n & 0x1f))) >> k) & 1 == (if k == n & 0x1f {
            0
        } else {
            (v >> k) & 1
        }),
        k < 32 ==> ((v | (1u32 << (n & 0x1f))) >> k) & 1 == (if k == n & 0x1f {
            1
        } else {
            (v >> k) & 1
        }),
        ((((v & 0xffff_0000) | byte_extended(v)) & 0xffff) as u16) as i16 == (((v as u8) as i8) as i16),
        ((v & 0xffff_0000) | byte_extended(v)) >> 16u32 == v >> 16u32,
        ((byte_extended(v) >> 8u32) & 0x80 != 0) == (((v as u8) as i8) < 0),
        (byte_extended(v) == 0) == ((v as u8) == 0),
        (word_extended(v) as i32) == (((v as u16) as i16) as i32),
        ((word_extended(v) >> 24u32) & 0x80 != 0) == (((v as u16) as i16) < 0),
        (word_extended(v) == 0) == ((v as u16) == 0),
{
}

/// SWAP exchanges the two words of Dy: the new high word is the old low
/// word and the new low word the old high word, so that a second SWAP gives
/// the register back; no other register changes.
pub proof fn law_swap_exchanges_words(c0: ConfiguredCore, c1: ConfiguredCore, r: Result<Cycles>)
    requires
        swap_32_dn_effect(c0, c1, r),
    ensures
        c1.dar[ir_dy(c0.ir)] >> 16u32 == c0.dar[ir_dy(c0.ir)] & 0xffff,
        c1.dar[ir_dy(c0.ir)] & 0xffff == c0.dar[ir_dy(c0.ir)] >> 16u32,
        forall|i: int| 0 <= i < 16 && i != ir_dy(c0.ir) ==> c1.dar[i] == c0.dar[i],
        r == Ok::<Cycles, Exception>(Cycles(4)),
{
    crate::cpu::lemma_ir_fields(c0.ir);
    lemma_word_and_bit_facts(c0.dar[ir_dy(c0.ir)], 0, 0);
}

/// BCHG Dx,Dy inverts bit `Dx & 31` (the number modulo 32) of Dy and keeps every other bit;
/// Z tells whether that bit was clear before.
pub proof fn law_bchg_inverts_the_bit(c0: ConfiguredCore, c1: ConfiguredCore, r: Result<Cycles>, k: u32)
    requires
        bchg_32_r_dn_effect(c0, c1, r),
        k < 32,
    ensures
        ({
            let old_v = c0.dar[ir_dy(c0.ir)];
            let new_v = c1.dar[ir_dy(c0.ir)];
            let n = c0.dar[ir_dx(c0.ir)] & 0x1f;
            &&& (new_v >> k) & 1 == (if k == n {
                ((old_v >> k) & 1) ^ 1
            } else {
                (old_v >> k) & 1
            })
            &&& (c1.not_z_flag == 0) == ((old_v >> n) & 1 == 0)
        }),
        forall|i: int| 0 <= i < 16 && i != ir_dy(c0.ir) ==> c1.dar[i] == c0.dar[i],
{
    crate::cpu::lemma_ir_fields(c0.ir);
    let n = c0.dar[ir_dx(c0.ir)];
    lemma_word_and_bit_facts(c0.dar[ir_dy(c0.ir)], n, k);
}


/// BCLR Dx,Dy clears bit `Dx & 31` of Dy and keeps every other bit; Z tells
/// whether that bit was clear before.
pub proof fn law_bclr_clears_the_bit(c0: ConfiguredCore, c1: ConfiguredCore, r: Result<Cycles>, k: u32)
    requires
        bclr_32_r_dn_effect(c0, c1, r),
        k < 32,
    ensures
        ({
            let old_v = c0.dar[ir_dy(c0.ir)];
            let new_v = c1.dar[ir_dy(c0.ir)];
            let n = c0.dar[ir_dx(c0.ir)] & 0x1f;
            &&& (new_v >> k) & 1 == (if k == n {
                0
            } else {
                (old_v >> k) & 1
            })
            &&& (c1.not_z_flag == 0) == ((old_v >> n) & 1 == 0)
        }),
        forall|i: int| 0 <= i < 16 && i != ir_dy(c0.ir) ==> c1.dar[i] == c0.dar[i],
{
    crate::cpu::lemma_ir_fields(c0.ir);
    let n = c0.dar[ir_dx(c0.ir)];
    lemma_word_and_bit_facts(c0.dar[ir_dy(c0.ir)], n, k);
}

/// BSET Dx,Dy sets bit `Dx & 31` of Dy and keeps every other bit; Z tells
/// whether that bit was clear before.
pub proof fn law_bset_sets_the_bit(c0: ConfiguredCore, c1: ConfiguredCore, r: Result<Cycles>, k: u32)
    requires
        bset_32_r_dn_effect(c0, c1, r),
        k < 32,
    ensures
        ({
            let old_v = c0.dar[ir_dy(c0.ir)];
            let new_v = c1.dar[ir_dy(c0.ir)];
            let n = c0.dar[ir_dx(c0.ir)] & 0x1f;
            &&& (new_v >> k) & 1 == (if k == n {
                1
            } else {
                (old_v >> k) & 1
            })
            &&& (c1.not_z_flag == 0) == ((old_v >> n) & 1 == 0)
        }),
        forall|i: int| 0 <= i < 16 && i != ir_dy(c0.ir) ==> c1.dar[i] == c0.dar[i],
{
    crate::cpu::lemma_ir_fields(c0.ir);
    let n = c0.dar[ir_dx(c0.ir)];
    lemma_word_and_bit_facts(c0.dar[ir_dy(c0.ir)], n, k);
}

/// BTST Dx,Dy only reads bit `Dx & 31` of Dy: Z tells whether it is clear,
/// and no register changes.
pub proof fn law_btst_only_tests(c0: ConfiguredCore, c1: ConfiguredCore, r: Result<Cycles>)
    requires
        btst_32_r_dn_effect(c0, c1, r),
    ensures
        (c1.not_z_flag == 0) == ((c0.dar[ir_dy(c0.ir)] >> (c0.dar[ir_dx(c0.ir)] & 0x1f)) & 1 == 0),
        forall|i: int| 0 <= i < 16 ==> c1.dar[i] == c0.dar[i],
{
    crate::cpu::lemma_ir_fields(c0.ir);
    let n = c0.dar[ir_dx(c0.ir)];
    lemma_word_and_bit_facts(c0.dar[ir_dy(c0.ir)], n, 0);
}

/// EXT.W sign-extends the low byte of Dy into its low word: that word read
/// as a signed number is the byte read as a signed number, the high word
/// stays, N is the sign and Z says that the byte is zero.
pub proof fn law_ext_w_sign_extends(c0: ConfiguredCore, c1: ConfiguredCore, r: Result<Cycles>)
    requires
        ext_bw_effect(c0, c1, r),
    ensures
        ((c1.dar[ir_dy(c0.ir)] & 0xffff) as u16) as i16 == ((c0.dar[ir_dy(c0.ir)] as u8) as i8) as i16,
        c1.dar[ir_dy(c0.ir)] >> 16u32 == c0.dar[ir_dy(c0.ir)] >> 16u32,
        negative_set(c1) == (((c0.dar[ir_dy(c0.ir)] as u8) as i8) < 0),
        zero_set(c1) == ((c0.dar[ir_dy(c0.ir)] as u8) == 0),
        forall|i: int| 0 <= i < 16 && i != ir_dy(c0.ir) ==> c1.dar[i] == c0.dar[i],
{
    crate::cpu::lemma_ir_fields(c0.ir);
    lemma_word_and_bit_facts(c0.dar[ir_dy(c0.ir)], 0, 0);
}

/// EXT.L sign-extends the low word of Dy into the whole register: the
/// register read as a signed number is that word read as a signed number, N
/// is the sign and Z says that the word is zero.
pub proof fn law_ext_l_sign_extends(c0: ConfiguredCore, c1: ConfiguredCore, r: Result<Cycles>)
    requires
        ext_wl_effect(c0, c1, r),
    ensures
        (c1.dar[ir_dy(c0.ir)] as i32) as int == ((c0.dar[ir_dy(c0.ir)] as u16) as i16) as int,
        negative_set(c1) == (((c0.dar[ir_dy(c0.ir)] as u16) as i16) < 0),
        zero_set(c1) == ((c0.dar[ir_dy(c0.ir)] as u16) == 0),
        forall|i: int| 0 <= i < 16 && i != ir_dy(c0.ir) ==> c1.dar[i] == c0.dar[i],
{
    crate::cpu::lemma_ir_fields(c0.ir);
    lemma_word_and_bit_facts(c0.dar[ir_dy(c0.ir)], 0, 0);
}

/// EXG Dx,Dy exchanges the two registers and leaves every other one as it
/// was, so that a second EXG gives them back.
pub proof fn law_exg_exchanges(c0: ConfiguredCore, c1: ConfiguredCore, r: Result<Cycles>)
    requires
        exg_32_dd_effect(c0, c1, r),
    ensures
        c1.dar[ir_dx(c0.ir)] == c0.dar[ir_dy(c0.ir)],
        c1.dar[ir_dy(c0.ir)] == c0.dar[ir_dx(c0.ir)],
        forall|i: int| 0 <= i < 16 && i != ir_dx(c0.ir) && i != ir_dy(c0.ir) ==> c1.dar[i] == c0.dar[i],
        r == Ok::<Cycles, Exception>(Cycles(6)),
{
    crate::cpu::lemma_ir_fields(c0.ir);
}

} // verus!
