use vstd::prelude::*;
use crate::cpu::{ConfiguredCore, Cycles, Exception, Result, AccessType, data_written, pushed_32, branched, wadd, wsub, ir_dx, ir_dy, ir_ax, ir_ay, reg_dx, reg_dy, reg_ax, reg_ay, condition};
use crate::cpu::effective_address;
use crate::ram::ADDRBUS_MASK;
use crate::ram::loggingmem::{Operation, read_logged};
use crate::cpu::operator;
use crate::cpu::ops::common;
use crate::cpu::ops::{stored, store, reg_set, merged, merge, set_reg, write_sized, stack_error, stack_fault, sp_odd, privilege_violation, short_offset, long_branch_done};

verus! {

/// Whether register `i` is in the register list `regs`.
pub open spec fn selected(regs: u32, i: int) -> bool {
    (regs >> (i as u32)) & 1 != 0
}

/// The outcome of a read of `size` bits at `address`, from program space
/// when `program` holds: `c0` before, `c1` after, `r` the value.
pub open spec fn data_read(c0: ConfiguredCore, c1: ConfiguredCore, size: u32, program: bool, address: u32, r: Result<u32>) -> bool {
    let space = if program {
        c0.program_space()
    } else {
        c0.data_space()
    };
    if address & 1 != 0 {
        r == Err::<u32, Exception>(c0.address_error(address, AccessType::Read, space)) && c1 == c0
    } else {
        let v = if size == 16 {
            c0.mem.memory().word(address)
        } else {
            c0.mem.memory().long(address)
        };
        &&& r == Ok::<u32, Exception>(v)
        &&& read_logged(
            c0.mem,
            c1.mem,
            if size == 16 {
                Operation::ReadWord(space, address & ADDRBUS_MASK, v as u16)
            } else {
                Operation::ReadLong(space, address & ADDRBUS_MASK, v)
            },
        )
        &&& c1 == c0.with_mem(c1.mem)
    }
}

fn read_sized(core: &mut ConfiguredCore, size: u32, program: bool, address: u32) -> (r: Result<u32>)
    requires
        old(core).wf(),
    ensures
        final(core).wf(),
        data_read(*old(core), *final(core), size, program, address, r),
{
    if program {
        if size == 16 {
            core.read_program_word(address)
        } else {
            core.read_program_long(address)
        }
    } else {
        if size == 16 {
            core.read_data_word(address)
        } else {
            core.read_data_long(address)
        }
    }
}

/// The size in bytes of a register moved.
pub open spec fn step_of(size: u32) -> u32 {
    if size == 16 {
        2
    } else {
        4
    }
}

/// The address a register is stored at when the next free one is `ea`.
pub open spec fn slot(ea: u32, size: u32, down: bool) -> u32 {
    if down {
        wsub(ea, step_of(size))
    } else {
        ea
    }
}

/// The next free address after a register is stored at the slot of `ea`.
pub open spec fn next_slot(ea: u32, size: u32, down: bool) -> u32 {
    if down {
        wsub(ea, step_of(size))
    } else {
        wadd(ea, step_of(size))
    }
}

/// The value stored for list entry `i`: register `i`, or register `15 - i`
/// going down; a word is the low half of the register.
pub open spec fn reg_value(c: ConfiguredCore, i: int, size: u32, down: bool) -> u32 {
    let reg = if down {
        15 - i
    } else {
        i
    };
    if size == 16 {
        c.dar[reg] & 0xffff
    } else {
        c.dar[reg]
    }
}

/// The registers of the list `regs` from number `i` on stored from address
/// `ea` on, `moves` of them already stored: going up from `ea` with the
/// registers in order, or, when `down` holds, going down from `ea` with the
/// list read from A7 back to D0. `r` gives the address reached and the
/// number of registers stored, or the error of a write.
pub open spec fn regs_stored(
    c0: ConfiguredCore,
    c1: ConfiguredCore,
    regs: u32,
    i: int,
    ea: u32,
    size: u32,
    down: bool,
    moves: int,
    r: Result<(u32, int)>,
) -> bool
    decreases 16 - i,
{
    if i < 0 || i >= 16 {
        r == Ok::<(u32, int), Exception>((ea, moves)) && c1 == c0
    } else if !selected(regs, i) {
        regs_stored(c0, c1, regs, i + 1, ea, size, down, moves, r)
    } else {
        exists|m: ConfiguredCore, w: Result<()>|
            #[trigger] data_written(c0, m, size, slot(ea, size, down), reg_value(c0, i, size, down), w) && match w {
                Err(e) => r == Err::<(u32, int), Exception>(e) && c1 == m,
                Ok(_) => regs_stored(m, c1, regs, i + 1, next_slot(ea, size, down), size, down, moves + 1, r),
            }
    }
}

/// The registers of the list `regs` from number `i` on loaded from address
/// `ea` on, going up, `moves` of them already loaded; a word is
/// sign-extended. `r` gives the address reached and the number of registers
/// loaded, or the error of a read.
pub open spec fn regs_loaded(
    c0: ConfiguredCore,
    c1: ConfiguredCore,
    regs: u32,
    i: int,
    ea: u32,
    size: u32,
    program: bool,
    moves: int,
    r: Result<(u32, int)>,
) -> bool
    decreases 16 - i,
{
    if i < 0 || i >= 16 {
        r == Ok::<(u32, int), Exception>((ea, moves)) && c1 == c0
    } else if !selected(regs, i) {
        regs_loaded(c0, c1, regs, i + 1, ea, size, program, moves, r)
    } else {
        let step: u32 = if size == 16 {
            2
        } else {
            4
        };
        exists|m: ConfiguredCore, rd: Result<u32>|
            #[trigger] data_read(c0, m, size, program, ea, rd) && match rd {
                Err(e) => r == Err::<(u32, int), Exception>(e) && c1 == m,
                Ok(v) => exists|m2: ConfiguredCore|
                    #[trigger] reg_set(m, m2, i, loaded_value(v, size))
                        && regs_loaded(m2, c1, regs, i + 1, wadd(ea, step), size, program, moves + 1, r),
            }
    }
}

/// The register value that a loaded word or long word gives: a word is
/// sign-extended.
pub open spec fn loaded_value(v: u32, size: u32) -> u32 {
    if size == 16 {
        (v as i16) as u32
    } else {
        v
    }
}

/// The count of a loop over the register list, as a number.
pub open spec fn counted_moves(r: Result<(u32, u32)>) -> Result<(u32, int)> {
    match r {
        Ok((a, n)) => Ok((a, n as int)),
        Err(e) => Err(e),
    }
}

fn store_regs(core: &mut ConfiguredCore, regs: u32, ea: u32, size: u32, down: bool) -> (r: Result<(u32, u32)>)
    requires
        old(core).wf(),
        size == 16 || size == 32,
    ensures
        final(core).wf(),
        regs_stored(*old(core), *final(core), regs, 0, ea, size, down, 0, counted_moves(r)),
        r matches Ok((_, n)) ==> n <= 16,
{
    let ghost c0 = *core;
    let step: u32 = if size == 16 {
        2
    } else {
        4
    };
    let mut cur = ea;
    let mut moves: u32 = 0;
    let mut i: usize = 0;
    while i < 16
        invariant
            c0 == *old(core),
            core.wf(),
            size == 16 || size == 32,
            step == (if size == 16 { 2u32 } else { 4u32 }),
            i <= 16,
            moves <= i,
            forall|cf: ConfiguredCore, rf: Result<(u32, int)>|
                #[trigger] regs_stored(*core, cf, regs, i as int, cur, size, down, moves as int, rf)
                    ==> regs_stored(c0, cf, regs, 0, ea, size, down, 0, rf),
        decreases 16 - i,
    {
        let ghost before = *core;
        if (regs >> (i as u32)) & 1 != 0 {
            let a = if down {
                cur.wrapping_sub(step)
            } else {
                cur
            };
            assert(cur.wrapping_sub(step) == wsub(cur, step));
            assert(cur.wrapping_add(step) == wadd(cur, step));
            let reg = if down {
                15 - i
            } else {
                i
            };
            let v = if size == 16 {
                core.dar[reg] & 0xffff
            } else {
                core.dar[reg]
            };
            assert(a == slot(cur, size, down));
            assert(v == reg_value(before, i as int, size, down));
            let w = write_sized(core, size, a, v);
            let ghost m = *core;
            assert(data_written(before, m, size, slot(cur, size, down), reg_value(before, i as int, size, down), w));
            match w {
                Err(e) => {
                    assert(regs_stored(before, m, regs, i as int, cur, size, down, moves as int, Err(e)));
                    assert(regs_stored(c0, m, regs, 0, ea, size, down, 0, Err(e)));
                    assert(counted_moves(Err(e)) == Err::<(u32, int), Exception>(e));
                    return Err(e);
                },
                Ok(()) => {},
            }
            let next = if down {
                a
            } else {
                cur.wrapping_add(step)
            };
            assert(next == next_slot(cur, size, down));
            assert forall|cf: ConfiguredCore, rf: Result<(u32, int)>|
                #[trigger] regs_stored(m, cf, regs, i + 1, next, size, down, moves + 1, rf)
                    implies regs_stored(c0, cf, regs, 0, ea, size, down, 0, rf) by {
                assert(regs_stored(before, cf, regs, i as int, cur, size, down, moves as int, rf));
            }
            cur = next;
            moves = moves + 1;
        } else {
            assert forall|cf: ConfiguredCore, rf: Result<(u32, int)>|
                #[trigger] regs_stored(before, cf, regs, i + 1, cur, size, down, moves as int, rf)
                    implies regs_stored(c0, cf, regs, 0, ea, size, down, 0, rf) by {
                assert(regs_stored(before, cf, regs, i as int, cur, size, down, moves as int, rf));
            }
        }
        i = i + 1;
    }
    assert(regs_stored(*core, *core, regs, 16, cur, size, down, moves as int, Ok::<(u32, int), Exception>((cur, moves as int))));
    Ok((cur, moves))
}

fn load_regs(core: &mut ConfiguredCore, regs: u32, ea: u32, size: u32, program: bool) -> (r: Result<(u32, u32)>)
    requires
        old(core).wf(),
        size == 16 || size == 32,
    ensures
        final(core).wf(),
        regs_loaded(*old(core), *final(core), regs, 0, ea, size, program, 0, counted_moves(r)),
        r matches Ok((_, n)) ==> n <= 16,
{
    let ghost c0 = *core;
    let step: u32 = if size == 16 {
        2
    } else {
        4
    };
    let mut cur = ea;
    let mut moves: u32 = 0;
    let mut i: usize = 0;
    while i < 16
        invariant
            c0 == *old(core),
            core.wf(),
            size == 16 || size == 32,
            step == (if size == 16 { 2u32 } else { 4u32 }),
            i <= 16,
            moves <= i,
            forall|cf: ConfiguredCore, rf: Result<(u32, int)>|
                #[trigger] regs_loaded(*core, cf, regs, i as int, cur, size, program, moves as int, rf)
                    ==> regs_loaded(c0, cf, regs, 0, ea, size, program, 0, rf),
        decreases 16 - i,
    {
        let ghost before = *core;
        if (regs >> (i as u32)) & 1 != 0 {
            assert(cur.wrapping_add(step) == wadd(cur, step));
            let rd = read_sized(core, size, program, cur);
            let ghost m = *core;
            assert(data_read(before, m, size, program, cur, rd));
            let v = match rd {
                Err(e) => {
                    assert(regs_loaded(before, m, regs, i as int, cur, size, program, moves as int, Err(e)));
                    assert(regs_loaded(c0, m, regs, 0, ea, size, program, 0, Err(e)));
                    assert(counted_moves(Err(e)) == Err::<(u32, int), Exception>(e));
                    return Err(e);
                },
                Ok(v) => v,
            };
            let x = if size == 16 {
                (v as i16) as u32
            } else {
                v
            };
            set_reg(core, i, x);
            let ghost m2 = *core;
            assert(x == loaded_value(v, size));
            assert(reg_set(m, m2, i as int, loaded_value(v, size)));
            let next = cur.wrapping_add(step);
            assert forall|cf: ConfiguredCore, rf: Result<(u32, int)>|
                #[trigger] regs_loaded(m2, cf, regs, i + 1, next, size, program, moves + 1, rf)
                    implies regs_loaded(c0, cf, regs, 0, ea, size, program, 0, rf) by {
                assert(regs_loaded(before, cf, regs, i as int, cur, size, program, moves as int, rf));
            }
            cur = next;
            moves = moves + 1;
        } else {
            assert forall|cf: ConfiguredCore, rf: Result<(u32, int)>|
                #[trigger] regs_loaded(before, cf, regs, i + 1, cur, size, program, moves as int, rf)
                    implies regs_loaded(c0, cf, regs, 0, ea, size, program, 0, rf) by {
                assert(regs_loaded(before, cf, regs, i as int, cur, size, program, moves as int, rf));
            }
        }
        i = i + 1;
    }
    assert(regs_loaded(*core, *core, regs, 16, cur, size, program, moves as int, Ok::<(u32, int), Exception>((cur, moves as int))));
    Ok((cur, moves))
}

/// What `movem_16_re_ai` does: the core goes from `c0` to `c1` and `r` comes back.
pub open spec fn movem_16_re_ai_effect(c0: ConfiguredCore, c1: ConfiguredCore, r: Result<Cycles>) -> bool {
    exists|m1: ConfiguredCore, rs: Result<u32>|
        #[trigger] operator::imm_16_rel(c0, m1, rs) && match rs {
            Err(e) => r == Err::<Cycles, Exception>(e) && c1 == m1,
            Ok(regs) => {
                exists|m2: ConfiguredCore, ea: Result<u32>|
                    #[trigger] effective_address::address_indirect_ay_rel(m1, m2, ea) && match ea {
                        Err(e) => r == Err::<Cycles, Exception>(e) && c1 == m2,
                        Ok(a) => exists|q: Result<(u32, int)>|
                            #[trigger] regs_stored(m2, c1, regs, 0, a, 16, false, 0, q) && match q {
                                Err(e) => r == Err::<Cycles, Exception>(e),
                                Ok((_, n)) => r == Ok::<Cycles, Exception>(Cycles((8 + 4 * n) as i32)),
                            },
                    }
            },
        }
}

/// MOVEM of registers to memory, 2 bytes each; 4 cycles more per register.
pub fn movem_16_re_ai(core: &mut ConfiguredCore) -> (r: Result<Cycles>)
    requires
        old(core).wf(),
    ensures
        final(core).wf(),
        movem_16_re_ai_effect(*old(core), *final(core), r),
{
    let ghost c0 = *core;
    let rs = operator::imm_16(core);
    let ghost m1 = *core;
    assert(operator::imm_16_rel(c0, m1, rs));
    let regs = match rs {
        Err(e) => {
            return Err(e);
        },
        Ok(v) => v,
    };
    let ea = effective_address::address_indirect_ay(core);
    let ghost m2 = *core;
    assert(effective_address::address_indirect_ay_rel(m1, m2, ea));
    let a = match ea {
        Err(e) => {
            return Err(e);
        },
        Ok(a) => a,
    };
    let q = store_regs(core, regs, a, 16, false);
    assert(regs_stored(m2, *core, regs, 0, a, 16, false, 0, counted_moves(q)));
    match q {
        Err(e) => Err(e),
        Ok((_, n)) => Ok(Cycles(8 + 4 * (n as i32))),
    }
}

/// What `movem_16_re_pd` does: the core goes from `c0` to `c1` and `r` comes back.
pub open spec fn movem_16_re_pd_effect(c0: ConfiguredCore, c1: ConfiguredCore, r: Result<Cycles>) -> bool {
    exists|m1: ConfiguredCore, rs: Result<u32>|
        #[trigger] operator::imm_16_rel(c0, m1, rs) && match rs {
            Err(e) => r == Err::<Cycles, Exception>(e) && c1 == m1,
            Ok(regs) => {
                let reg = ir_ay(m1.ir);
                exists|m2: ConfiguredCore, q: Result<(u32, int)>|
                    #[trigger] regs_stored(m1, m2, regs, 0, m1.dar[reg], 16, true, 0, q) && match q {
                        Err(e) => r == Err::<Cycles, Exception>(e) && c1 == m2,
                        Ok((e, n)) => r == Ok::<Cycles, Exception>(Cycles((8 + 4 * n) as i32)) && reg_set(m2, c1, reg, e),
                    }
            },
        }
}

/// MOVEM of registers to memory, 2 bytes each; 4 cycles more per register.
pub fn movem_16_re_pd(core: &mut ConfiguredCore) -> (r: Result<Cycles>)
    requires
        old(core).wf(),
    ensures
        final(core).wf(),
        movem_16_re_pd_effect(*old(core), *final(core), r),
{
    let ghost c0 = *core;
    let rs = operator::imm_16(core);
    let ghost m1 = *core;
    assert(operator::imm_16_rel(c0, m1, rs));
    let regs = match rs {
        Err(e) => {
            return Err(e);
        },
        Ok(v) => v,
    };
    let reg = reg_ay(core.ir);
    let start = core.dar[reg];
    let q = store_regs(core, regs, start, 16, true);
    let ghost m2 = *core;
    assert(regs_stored(m1, m2, regs, 0, m1.dar[reg as int], 16, true, 0, counted_moves(q)));
    match q {
        Err(e) => Err(e),
        Ok((e, n)) => {
            set_reg(core, reg, e);
            Ok(Cycles(8 + 4 * (n as i32)))
        },
    }
}

/// What `movem_16_re_di` does: the core goes from `c0` to `c1` and `r` comes back.
pub open spec fn movem_16_re_di_effect(c0: ConfiguredCore, c1: ConfiguredCore, r: Result<Cycles>) -> bool {
    exists|m1: ConfiguredCore, rs: Result<u32>|
        #[trigger] operator::imm_16_rel(c0, m1, rs) && match rs {
            Err(e) => r == Err::<Cycles, Exception>(e) && c1 == m1,
            Ok(regs) => {
                exists|m2: ConfiguredCore, ea: Result<u32>|
                    #[trigger] effective_address::displacement_ay_rel(m1, m2, ea) && match ea {
                        Err(e) => r == Err::<Cycles, Exception>(e) && c1 == m2,
                        Ok(a) => exists|q: Result<(u32, int)>|
                            #[trigger] regs_stored(m2, c1, regs, 0, a, 16, false, 0, q) && match q {
                                Err(e) => r == Err::<Cycles, Exception>(e),
                                Ok((_, n)) => r == Ok::<Cycles, Exception>(Cycles((12 + 4 * n) as i32)),
                            },
                    }
            },
        }
}

/// MOVEM of registers to memory, 2 bytes each; 4 cycles more per register.
pub fn movem_16_re_di(core: &mut ConfiguredCore) -> (r: Result<Cycles>)
    requires
        old(core).wf(),
    ensures
        final(core).wf(),
        movem_16_re_di_effect(*old(core), *final(core), r),
{
    let ghost c0 = *core;
    let rs = operator::imm_16(core);
    let ghost m1 = *core;
    assert(operator::imm_16_rel(c0, m1, rs));
    let regs = match rs {
        Err(e) => {
            return Err(e);
        },
        Ok(v) => v,
    };
    let ea = effective_address::displacement_ay(core);
    let ghost m2 = *core;
    assert(effective_address::displacement_ay_rel(m1, m2, ea));
    let a = match ea {
        Err(e) => {
            return Err(e);
        },
        Ok(a) => a,
    };
    let q = store_regs(core, regs, a, 16, false);
    assert(regs_stored(m2, *core, regs, 0, a, 16, false, 0, counted_moves(q)));
    match q {
        Err(e) => Err(e),
        Ok((_, n)) => Ok(Cycles(12 + 4 * (n as i32))),
    }
}

/// What `movem_16_re_ix` does: the core goes from `c0` to `c1` and `r` comes back.
pub open spec fn movem_16_re_ix_effect(c0: ConfiguredCore, c1: ConfiguredCore, r: Result<Cycles>) -> bool {
    exists|m1: ConfiguredCore, rs: Result<u32>|
        #[trigger] operator::imm_16_rel(c0, m1, rs) && match rs {
            Err(e) => r == Err::<Cycles, Exception>(e) && c1 == m1,
            Ok(regs) => {
                exists|m2: ConfiguredCore, ea: Result<u32>|
                    #[trigger] effective_address::index_ay_rel(m1, m2, ea) && match ea {
                        Err(e) => r == Err::<Cycles, Exception>(e) && c1 == m2,
                        Ok(a) => exists|q: Result<(u32, int)>|
                            #[trigger] regs_stored(m2, c1, regs, 0, a, 16, false, 0, q) && match q {
                                Err(e) => r == Err::<Cycles, Exception>(e),
                                Ok((_, n)) => r == Ok::<Cycles, Exception>(Cycles((14 + 4 * n) as i32)),
                            },
                    }
            },
        }
}

/// MOVEM of registers to memory, 2 bytes each; 4 cycles more per register.
pub fn movem_16_re_ix(core: &mut ConfiguredCore) -> (r: Result<Cycles>)
    requires
        old(core).wf(),
    ensures
        final(core).wf(),
        movem_16_re_ix_effect(*old(core), *final(core), r),
{
    let ghost c0 = *core;
    let rs = operator::imm_16(core);
    let ghost m1 = *core;
    assert(operator::imm_16_rel(c0, m1, rs));
    let regs = match rs {
        Err(e) => {
            return Err(e);
        },
        Ok(v) => v,
    };
    let ea = effective_address::index_ay(core);
    let ghost m2 = *core;
    assert(effective_address::index_ay_rel(m1, m2, ea));
    let a = match ea {
        Err(e) => {
            return Err(e);
        },
        Ok(a) => a,
    };
    let q = store_regs(core, regs, a, 16, false);
    assert(regs_stored(m2, *core, regs, 0, a, 16, false, 0, counted_moves(q)));
    match q {
        Err(e) => Err(e),
        Ok((_, n)) => Ok(Cycles(14 + 4 * (n as i32))),
    }
}

/// What `movem_16_re_aw` does: the core goes from `c0` to `c1` and `r` comes back.
pub open spec fn movem_16_re_aw_effect(c0: ConfiguredCore, c1: ConfiguredCore, r: Result<Cycles>) -> bool {
    exists|m1: ConfiguredCore, rs: Result<u32>|
        #[trigger] operator::imm_16_rel(c0, m1, rs) && match rs {
            Err(e) => r == Err::<Cycles, Exception>(e) && c1 == m1,
            Ok(regs) => {
                exists|m2: ConfiguredCore, ea: Result<u32>|
                    #[trigger] effective_address::absolute_word_rel(m1, m2, ea) && match ea {
                        Err(e) => r == Err::<Cycles, Exception>(e) && c1 == m2,
                        Ok(a) => exists|q: Result<(u32, int)>|
                            #[trigger] regs_stored(m2, c1, regs, 0, a, 16, false, 0, q) && match q {
                                Err(e) => r == Err::<Cycles, Exception>(e),
                                Ok((_, n)) => r == Ok::<Cycles, Exception>(Cycles((12 + 4 * n) as i32)),
                            },
                    }
            },
        }
}

/// MOVEM of registers to memory, 2 bytes each; 4 cycles more per register.
pub fn movem_16_re_aw(core: &mut ConfiguredCore) -> (r: Result<Cycles>)
    requires
        old(core).wf(),
    ensures
        final(core).wf(),
        movem_16_re_aw_effect(*old(core), *final(core), r),
{
    let ghost c0 = *core;
    let rs = operator::imm_16(core);
    let ghost m1 = *core;
    assert(operator::imm_16_rel(c0, m1, rs));
    let regs = match rs {
        Err(e) => {
            return Err(e);
        },
        Ok(v) => v,
    };
    let ea = effective_address::absolute_word(core);
    let ghost m2 = *core;
    assert(effective_address::absolute_word_rel(m1, m2, ea));
    let a = match ea {
        Err(e) => {
            return Err(e);
        },
        Ok(a) => a,
    };
    let q = store_regs(core, regs, a, 16, false);
    assert(regs_stored(m2, *core, regs, 0, a, 16, false, 0, counted_moves(q)));
    match q {
        Err(e) => Err(e),
        Ok((_, n)) => Ok(Cycles(12 + 4 * (n as i32))),
    }
}

/// What `movem_16_re_al` does: the core goes from `c0` to `c1` and `r` comes back.
pub open spec fn movem_16_re_al_effect(c0: ConfiguredCore, c1: ConfiguredCore, r: Result<Cycles>) -> bool {
    exists|m1: ConfiguredCore, rs: Result<u32>|
        #[trigger] operator::imm_16_rel(c0, m1, rs) && match rs {
            Err(e) => r == Err::<Cycles, Exception>(e) && c1 == m1,
            Ok(regs) => {
                exists|m2: ConfiguredCore, ea: Result<u32>|
                    #[trigger] effective_address::absolute_long_rel(m1, m2, ea) && match ea {
                        Err(e) => r == Err::<Cycles, Exception>(e) && c1 == m2,
                        Ok(a) => exists|q: Result<(u32, int)>|
                            #[trigger] regs_stored(m2, c1, regs, 0, a, 16, false, 0, q) && match q {
                                Err(e) => r == Err::<Cycles, Exception>(e),
                                Ok((_, n)) => r == Ok::<Cycles, Exception>(Cycles((16 + 4 * n) as i32)),
                            },
                    }
            },
        }
}

/// MOVEM of registers to memory, 2 bytes each; 4 cycles more per register.
pub fn movem_16_re_al(core: &mut ConfiguredCore) -> (r: Result<Cycles>)
    requires
        old(core).wf(),
    ensures
        final(core).wf(),
        movem_16_re_al_effect(*old(core), *final(core), r),
{
    let ghost c0 = *core;
    let rs = operator::imm_16(core);
    let ghost m1 = *core;
    assert(operator::imm_16_rel(c0, m1, rs));
    let regs = match rs {
        Err(e) => {
            return Err(e);
        },
        Ok(v) => v,
    };
    let ea = effective_address::absolute_long(core);
    let ghost m2 = *core;
    assert(effective_address::absolute_long_rel(m1, m2, ea));
    let a = match ea {
        Err(e) => {
            return Err(e);
        },
        Ok(a) => a,
    };
    let q = store_regs(core, regs, a, 16, false);
    assert(regs_stored(m2, *core, regs, 0, a, 16, false, 0, counted_moves(q)));
    match q {
        Err(e) => Err(e),
        Ok((_, n)) => Ok(Cycles(16 + 4 * (n as i32))),
    }
}

/// What `movem_16_er_ai` does: the core goes from `c0` to `c1` and `r` comes back.
pub open spec fn movem_16_er_ai_effect(c0: ConfiguredCore, c1: ConfiguredCore, r: Result<Cycles>) -> bool {
    exists|m1: ConfiguredCore, rs: Result<u32>|
        #[trigger] operator::imm_16_rel(c0, m1, rs) && match rs {
            Err(e) => r == Err::<Cycles, Exception>(e) && c1 == m1,
            Ok(regs) => {
                exists|m2: ConfiguredCore, ea: Result<u32>|
                    #[trigger] effective_address::address_indirect_ay_rel(m1, m2, ea) && match ea {
                        Err(e) => r == Err::<Cycles, Exception>(e) && c1 == m2,
                        Ok(a) => exists|q: Result<(u32, int)>|
                            #[trigger] regs_loaded(m2, c1, regs, 0, a, 16, false, 0, q) && match q {
                                Err(e) => r == Err::<Cycles, Exception>(e),
                                Ok((_, n)) => r == Ok::<Cycles, Exception>(Cycles((12 + 4 * n) as i32)),
                            },
                    }
            },
        }
}

/// MOVEM of memory to registers, 2 bytes each; 4 cycles more per register.
pub fn movem_16_er_ai(core: &mut ConfiguredCore) -> (r: Result<Cycles>)
    requires
        old(core).wf(),
    ensures
        final(core).wf(),
        movem_16_er_ai_effect(*old(core), *final(core), r),
{
    let ghost c0 = *core;
    let rs = operator::imm_16(core);
    let ghost m1 = *core;
    assert(operator::imm_16_rel(c0, m1, rs));
    let regs = match rs {
        Err(e) => {
            return Err(e);
        },
        Ok(v) => v,
    };
    let ea = effective_address::address_indirect_ay(core);
    let ghost m2 = *core;
    assert(effective_address::address_indirect_ay_rel(m1, m2, ea));
    let a = match ea {
        Err(e) => {
            return Err(e);
        },
        Ok(a) => a,
    };
    let q = load_regs(core, regs, a, 16, false);
    assert(regs_loaded(m2, *core, regs, 0, a, 16, false, 0, counted_moves(q)));
    match q {
        Err(e) => Err(e),
        Ok((_, n)) => Ok(Cycles(12 + 4 * (n as i32))),
    }
}

/// What `movem_16_er_pi` does: the core goes from `c0` to `c1` and `r` comes back.
pub open spec fn movem_16_er_pi_effect(c0: ConfiguredCore, c1: ConfiguredCore, r: Result<Cycles>) -> bool {
    exists|m1: ConfiguredCore, rs: Result<u32>|
        #[trigger] operator::imm_16_rel(c0, m1, rs) && match rs {
            Err(e) => r == Err::<Cycles, Exception>(e) && c1 == m1,
            Ok(regs) => {
                let reg = ir_ay(m1.ir);
                exists|m2: ConfiguredCore, q: Result<(u32, int)>|
                    #[trigger] regs_loaded(m1, m2, regs, 0, m1.dar[reg], 16, false, 0, q) && match q {
                        Err(e) => r == Err::<Cycles, Exception>(e) && c1 == m2,
                        Ok((e, n)) => r == Ok::<Cycles, Exception>(Cycles((12 + 4 * n) as i32)) && reg_set(m2, c1, reg, e),
                    }
            },
        }
}

/// MOVEM of memory to registers, 2 bytes each; 4 cycles more per register.
pub fn movem_16_er_pi(core: &mut ConfiguredCore) -> (r: Result<Cycles>)
    requires
        old(core).wf(),
    ensures
        final(core).wf(),
        movem_16_er_pi_effect(*old(core), *final(core), r),
{
    let ghost c0 = *core;
    let rs = operator::imm_16(core);
    let ghost m1 = *core;
    assert(operator::imm_16_rel(c0, m1, rs));
    let regs = match rs {
        Err(e) => {
            return Err(e);
        },
        Ok(v) => v,
    };
    let reg = reg_ay(core.ir);
    let start = core.dar[reg];
    let q = load_regs(core, regs, start, 16, false);
    let ghost m2 = *core;
    assert(regs_loaded(m1, m2, regs, 0, m1.dar[reg as int], 16, false, 0, counted_moves(q)));
    match q {
        Err(e) => Err(e),
        Ok((e, n)) => {
            set_reg(core, reg, e);
            Ok(Cycles(12 + 4 * (n as i32)))
        },
    }
}

/// What `movem_16_er_di` does: the core goes from `c0` to `c1` and `r` comes back.
pub open spec fn movem_16_er_di_effect(c0: ConfiguredCore, c1: ConfiguredCore, r: Result<Cycles>) -> bool {
    exists|m1: ConfiguredCore, rs: Result<u32>|
        #[trigger] operator::imm_16_rel(c0, m1, rs) && match rs {
            Err(e) => r == Err::<Cycles, Exception>(e) && c1 == m1,
            Ok(regs) => {
                exists|m2: ConfiguredCore, ea: Result<u32>|
                    #[trigger] effective_address::displacement_ay_rel(m1, m2, ea) && match ea {
                        Err(e) => r == Err::<Cycles, Exception>(e) && c1 == m2,
                        Ok(a) => exists|q: Result<(u32, int)>|
                            #[trigger] regs_loaded(m2, c1, regs, 0, a, 16, false, 0, q) && match q {
                                Err(e) => r == Err::<Cycles, Exception>(e),
                                Ok((_, n)) => r == Ok::<Cycles, Exception>(Cycles((16 + 4 * n) as i32)),
                            },
                    }
            },
        }
}

/// MOVEM of memory to registers, 2 bytes each; 4 cycles more per register.
pub fn movem_16_er_di(core: &mut ConfiguredCore) -> (r: Result<Cycles>)
    requires
        old(core).wf(),
    ensures
        final(core).wf(),
        movem_16_er_di_effect(*old(core), *final(core), r),
{
    let ghost c0 = *core;
    let rs = operator::imm_16(core);
    let ghost m1 = *core;
    assert(operator::imm_16_rel(c0, m1, rs));
    let regs = match rs {
        Err(e) => {
            return Err(e);
        },
        Ok(v) => v,
    };
    let ea = effective_address::displacement_ay(core);
    let ghost m2 = *core;
    assert(effective_address::displacement_ay_rel(m1, m2, ea));
    let a = match ea {
        Err(e) => {
            return Err(e);
        },
        Ok(a) => a,
    };
    let q = load_regs(core, regs, a, 16, false);
    assert(regs_loaded(m2, *core, regs, 0, a, 16, false, 0, counted_moves(q)));
    match q {
        Err(e) => Err(e),
        Ok((_, n)) => Ok(Cycles(16 + 4 * (n as i32))),
    }
}

/// What `movem_16_er_ix` does: the core goes from `c0` to `c1` and `r` comes back.
pub open spec fn movem_16_er_ix_effect(c0: ConfiguredCore, c1: ConfiguredCore, r: Result<Cycles>) -> bool {
    exists|m1: ConfiguredCore, rs: Result<u32>|
        #[trigger] operator::imm_16_rel(c0, m1, rs) && match rs {
            Err(e) => r == Err::<Cycles, Exception>(e) && c1 == m1,
            Ok(regs) => {
                exists|m2: ConfiguredCore, ea: Result<u32>|
                    #[trigger] effective_address::index_ay_rel(m1, m2, ea) && match ea {
                        Err(e) => r == Err::<Cycles, Exception>(e) && c1 == m2,
                        Ok(a) => exists|q: Result<(u32, int)>|
                            #[trigger] regs_loaded(m2, c1, regs, 0, a, 16, false, 0, q) && match q {
                                Err(e) => r == Err::<Cycles, Exception>(e),
                                Ok((_, n)) => r == Ok::<Cycles, Exception>(Cycles((18 + 4 * n) as i32)),
                            },
                    }
            },
        }
}

/// MOVEM of memory to registers, 2 bytes each; 4 cycles more per register.
pub fn movem_16_er_ix(core: &mut ConfiguredCore) -> (r: Result<Cycles>)
    requires
        old(core).wf(),
    ensures
        final(core).wf(),
        movem_16_er_ix_effect(*old(core), *final(core), r),
{
    let ghost c0 = *core;
    let rs = operator::imm_16(core);
    let ghost m1 = *core;
    assert(operator::imm_16_rel(c0, m1, rs));
    let regs = match rs {
        Err(e) => {
            return Err(e);
        },
        Ok(v) => v,
    };
    let ea = effective_address::index_ay(core);
    let ghost m2 = *core;
    assert(effective_address::index_ay_rel(m1, m2, ea));
    let a = match ea {
        Err(e) => {
            return Err(e);
        },
        Ok(a) => a,
    };
    let q = load_regs(core, regs, a, 16, false);
    assert(regs_loaded(m2, *core, regs, 0, a, 16, false, 0, counted_moves(q)));
    match q {
        Err(e) => Err(e),
        Ok((_, n)) => Ok(Cycles(18 + 4 * (n as i32))),
    }
}

/// What `movem_16_er_aw` does: the core goes from `c0` to `c1` and `r` comes back.
pub open spec fn movem_16_er_aw_effect(c0: ConfiguredCore, c1: ConfiguredCore, r: Result<Cycles>) -> bool {
    exists|m1: ConfiguredCore, rs: Result<u32>|
        #[trigger] operator::imm_16_rel(c0, m1, rs) && match rs {
            Err(e) => r == Err::<Cycles, Exception>(e) && c1 == m1,
            Ok(regs) => {
                exists|m2: ConfiguredCore, ea: Result<u32>|
                    #[trigger] effective_address::absolute_word_rel(m1, m2, ea) && match ea {
                        Err(e) => r == Err::<Cycles, Exception>(e) && c1 == m2,
                        Ok(a) => exists|q: Result<(u32, int)>|
                            #[trigger] regs_loaded(m2, c1, regs, 0, a, 16, false, 0, q) && match q {
                                Err(e) => r == Err::<Cycles, Exception>(e),
                                Ok((_, n)) => r == Ok::<Cycles, Exception>(Cycles((16 + 4 * n) as i32)),
                            },
                    }
            },
        }
}

/// MOVEM of memory to registers, 2 bytes each; 4 cycles more per register.
pub fn movem_16_er_aw(core: &mut ConfiguredCore) -> (r: Result<Cycles>)
    requires
        old(core).wf(),
    ensures
        final(core).wf(),
        movem_16_er_aw_effect(*old(core), *final(core), r),
{
    let ghost c0 = *core;
    let rs = operator::imm_16(core);
    let ghost m1 = *core;
    assert(operator::imm_16_rel(c0, m1, rs));
    let regs = match rs {
        Err(e) => {
            return Err(e);
        },
        Ok(v) => v,
    };
    let ea = effective_address::absolute_word(core);
    let ghost m2 = *core;
    assert(effective_address::absolute_word_rel(m1, m2, ea));
    let a = match ea {
        Err(e) => {
            return Err(e);
        },
        Ok(a) => a,
    };
    let q = load_regs(core, regs, a, 16, false);
    assert(regs_loaded(m2, *core, regs, 0, a, 16, false, 0, counted_moves(q)));
    match q {
        Err(e) => Err(e),
        Ok((_, n)) => Ok(Cycles(16 + 4 * (n as i32))),
    }
}

/// What `movem_16_er_al` does: the core goes from `c0` to `c1` and `r` comes back.
pub open spec fn movem_16_er_al_effect(c0: ConfiguredCore, c1: ConfiguredCore, r: Result<Cycles>) -> bool {
    exists|m1: ConfiguredCore, rs: Result<u32>|
        #[trigger] operator::imm_16_rel(c0, m1, rs) && match rs {
            Err(e) => r == Err::<Cycles, Exception>(e) && c1 == m1,
            Ok(regs) => {
                exists|m2: ConfiguredCore, ea: Result<u32>|
                    #[trigger] effective_address::absolute_long_rel(m1, m2, ea) && match ea {
                        Err(e) => r == Err::<Cycles, Exception>(e) && c1 == m2,
                        Ok(a) => exists|q: Result<(u32, int)>|
                            #[trigger] regs_loaded(m2, c1, regs, 0, a, 16, false, 0, q) && match q {
                                Err(e) => r == Err::<Cycles, Exception>(e),
                                Ok((_, n)) => r == Ok::<Cycles, Exception>(Cycles((20 + 4 * n) as i32)),
                            },
                    }
            },
        }
}

/// MOVEM of memory to registers, 2 bytes each; 4 cycles more per register.
pub fn movem_16_er_al(core: &mut ConfiguredCore) -> (r: Result<Cycles>)
    requires
        old(core).wf(),
    ensures
        final(core).wf(),
        movem_16_er_al_effect(*old(core), *final(core), r),
{
    let ghost c0 = *core;
    let rs = operator::imm_16(core);
    let ghost m1 = *core;
    assert(operator::imm_16_rel(c0, m1, rs));
    let regs = match rs {
        Err(e) => {
            return Err(e);
        },
        Ok(v) => v,
    };
    let ea = effective_address::absolute_long(core);
    let ghost m2 = *core;
    assert(effective_address::absolute_long_rel(m1, m2, ea));
    let a = match ea {
        Err(e) => {
            return Err(e);
        },
        Ok(a) => a,
    };
    let q = load_regs(core, regs, a, 16, false);
    assert(regs_loaded(m2, *core, regs, 0, a, 16, false, 0, counted_moves(q)));
    match q {
        Err(e) => Err(e),
        Ok((_, n)) => Ok(Cycles(20 + 4 * (n as i32))),
    }
}

/// What `movem_16_er_pcdi` does: the core goes from `c0` to `c1` and `r` comes back.
pub open spec fn movem_16_er_pcdi_effect(c0: ConfiguredCore, c1: ConfiguredCore, r: Result<Cycles>) -> bool {
    exists|m1: ConfiguredCore, rs: Result<u32>|
        #[trigger] operator::imm_16_rel(c0, m1, rs) && match rs {
            Err(e) => r == Err::<Cycles, Exception>(e) && c1 == m1,
            Ok(regs) => {
                exists|m2: ConfiguredCore, ea: Result<u32>|
                    #[trigger] effective_address::displacement_pc_rel(m1, m2, ea) && match ea {
                        Err(e) => r == Err::<Cycles, Exception>(e) && c1 == m2,
                        Ok(a) => exists|q: Result<(u32, int)>|
                            #[trigger] regs_loaded(m2, c1, regs, 0, a, 16, true, 0, q) && match q {
                                Err(e) => r == Err::<Cycles, Exception>(e),
                                Ok((_, n)) => r == Ok::<Cycles, Exception>(Cycles((16 + 4 * n) as i32)),
                            },
                    }
            },
        }
}

/// MOVEM of memory to registers, 2 bytes each; 4 cycles more per register.
pub fn movem_16_er_pcdi(core: &mut ConfiguredCore) -> (r: Result<Cycles>)
    requires
        old(core).wf(),
    ensures
        final(core).wf(),
        movem_16_er_pcdi_effect(*old(core), *final(core), r),
{
    let ghost c0 = *core;
    let rs = operator::imm_16(core);
    let ghost m1 = *core;
    assert(operator::imm_16_rel(c0, m1, rs));
    let regs = match rs {
        Err(e) => {
            return Err(e);
        },
        Ok(v) => v,
    };
    let ea = effective_address::displacement_pc(core);
    let ghost m2 = *core;
    assert(effective_address::displacement_pc_rel(m1, m2, ea));
    let a = match ea {
        Err(e) => {
            return Err(e);
        },
        Ok(a) => a,
    };
    let q = load_regs(core, regs, a, 16, true);
    assert(regs_loaded(m2, *core, regs, 0, a, 16, true, 0, counted_moves(q)));
    match q {
        Err(e) => Err(e),
        Ok((_, n)) => Ok(Cycles(16 + 4 * (n as i32))),
    }
}

/// What `movem_16_er_pcix` does: the core goes from `c0` to `c1` and `r` comes back.
pub open spec fn movem_16_er_pcix_effect(c0: ConfiguredCore, c1: ConfiguredCore, r: Result<Cycles>) -> bool {
    exists|m1: ConfiguredCore, rs: Result<u32>|
        #[trigger] operator::imm_16_rel(c0, m1, rs) && match rs {
            Err(e) => r == Err::<Cycles, Exception>(e) && c1 == m1,
            Ok(regs) => {
                exists|m2: ConfiguredCore, ea: Result<u32>|
                    #[trigger] effective_address::index_pc_rel(m1, m2, ea) && match ea {
                        Err(e) => r == Err::<Cycles, Exception>(e) && c1 == m2,
                        Ok(a) => exists|q: Result<(u32, int)>|
                            #[trigger] regs_loaded(m2, c1, regs, 0, a, 16, true, 0, q) && match q {
                                Err(e) => r == Err::<Cycles, Exception>(e),
                                Ok((_, n)) => r == Ok::<Cycles, Exception>(Cycles((18 + 4 * n) as i32)),
                            },
                    }
            },
        }
}

/// MOVEM of memory to registers, 2 bytes each; 4 cycles more per register.
pub fn movem_16_er_pcix(core: &mut ConfiguredCore) -> (r: Result<Cycles>)
    requires
        old(core).wf(),
    ensures
        final(core).wf(),
        movem_16_er_pcix_effect(*old(core), *final(core), r),
{
    let ghost c0 = *core;
    let rs = operator::imm_16(core);
    let ghost m1 = *core;
    assert(operator::imm_16_rel(c0, m1, rs));
    let regs = match rs {
        Err(e) => {
            return Err(e);
        },
        Ok(v) => v,
    };
    let ea = effective_address::index_pc(core);
    let ghost m2 = *core;
    assert(effective_address::index_pc_rel(m1, m2, ea));
    let a = match ea {
        Err(e) => {
            return Err(e);
        },
        Ok(a) => a,
    };
    let q = load_regs(core, regs, a, 16, true);
    assert(regs_loaded(m2, *core, regs, 0, a, 16, true, 0, counted_moves(q)));
    match q {
        Err(e) => Err(e),
        Ok((_, n)) => Ok(Cycles(18 + 4 * (n as i32))),
    }
}

/// What `movem_32_re_ai` does: the core goes from `c0` to `c1` and `r` comes back.
pub open spec fn movem_32_re_ai_effect(c0: ConfiguredCore, c1: ConfiguredCore, r: Result<Cycles>) -> bool {
    exists|m1: ConfiguredCore, rs: Result<u32>|
        #[trigger] operator::imm_16_rel(c0, m1, rs) && match rs {
            Err(e) => r == Err::<Cycles, Exception>(e) && c1 == m1,
            Ok(regs) => {
                exists|m2: ConfiguredCore, ea: Result<u32>|
                    #[trigger] effective_address::address_indirect_ay_rel(m1, m2, ea) && match ea {
                        Err(e) => r == Err::<Cycles, Exception>(e) && c1 == m2,
                        Ok(a) => exists|q: Result<(u32, int)>|
                            #[trigger] regs_stored(m2, c1, regs, 0, a, 32, false, 0, q) && match q {
                                Err(e) => r == Err::<Cycles, Exception>(e),
                                Ok((_, n)) => r == Ok::<Cycles, Exception>(Cycles((8 + 8 * n) as i32)),
                            },
                    }
            },
        }
}

/// MOVEM of registers to memory, 4 bytes each; 8 cycles more per register.
pub fn movem_32_re_ai(core: &mut ConfiguredCore) -> (r: Result<Cycles>)
    requires
        old(core).wf(),
    ensures
        final(core).wf(),
        movem_32_re_ai_effect(*old(core), *final(core), r),
{
    let ghost c0 = *core;
    let rs = operator::imm_16(core);
    let ghost m1 = *core;
    assert(operator::imm_16_rel(c0, m1, rs));
    let regs = match rs {
        Err(e) => {
            return Err(e);
        },
        Ok(v) => v,
    };
    let ea = effective_address::address_indirect_ay(core);
    let ghost m2 = *core;
    assert(effective_address::address_indirect_ay_rel(m1, m2, ea));
    let a = match ea {
        Err(e) => {
            return Err(e);
        },
        Ok(a) => a,
    };
    let q = store_regs(core, regs, a, 32, false);
    assert(regs_stored(m2, *core, regs, 0, a, 32, false, 0, counted_moves(q)));
    match q {
        Err(e) => Err(e),
        Ok((_, n)) => Ok(Cycles(8 + 8 * (n as i32))),
    }
}

/// What `movem_32_re_pd` does: the core goes from `c0` to `c1` and `r` comes back.
pub open spec fn movem_32_re_pd_effect(c0: ConfiguredCore, c1: ConfiguredCore, r: Result<Cycles>) -> bool {
    exists|m1: ConfiguredCore, rs: Result<u32>|
        #[trigger] operator::imm_16_rel(c0, m1, rs) && match rs {
            Err(e) => r == Err::<Cycles, Exception>(e) && c1 == m1,
            Ok(regs) => {
                let reg = ir_ay(m1.ir);
                exists|m2: ConfiguredCore, q: Result<(u32, int)>|
                    #[trigger] regs_stored(m1, m2, regs, 0, m1.dar[reg], 32, true, 0, q) && match q {
                        Err(e) => r == Err::<Cycles, Exception>(e) && c1 == m2,
                        Ok((e, n)) => r == Ok::<Cycles, Exception>(Cycles((8 + 8 * n) as i32)) && reg_set(m2, c1, reg, e),
                    }
            },
        }
}

/// MOVEM of registers to memory, 4 bytes each; 8 cycles more per register.
pub fn movem_32_re_pd(core: &mut ConfiguredCore) -> (r: Result<Cycles>)
    requires
        old(core).wf(),
    ensures
        final(core).wf(),
        movem_32_re_pd_effect(*old(core), *final(core), r),
{
    let ghost c0 = *core;
    let rs = operator::imm_16(core);
    let ghost m1 = *core;
    assert(operator::imm_16_rel(c0, m1, rs));
    let regs = match rs {
        Err(e) => {
            return Err(e);
        },
        Ok(v) => v,
    };
    let reg = reg_ay(core.ir);
    let start = core.dar[reg];
    let q = store_regs(core, regs, start, 32, true);
    let ghost m2 = *core;
    assert(regs_stored(m1, m2, regs, 0, m1.dar[reg as int], 32, true, 0, counted_moves(q)));
    match q {
        Err(e) => Err(e),
        Ok((e, n)) => {
            set_reg(core, reg, e);
            Ok(Cycles(8 + 8 * (n as i32)))
        },
    }
}

/// What `movem_32_re_di` does: the core goes from `c0` to `c1` and `r` comes back.
pub open spec fn movem_32_re_di_effect(c0: ConfiguredCore, c1: ConfiguredCore, r: Result<Cycles>) -> bool {
    exists|m1: ConfiguredCore, rs: Result<u32>|
        #[trigger] operator::imm_16_rel(c0, m1, rs) && match rs {
            Err(e) => r == Err::<Cycles, Exception>(e) && c1 == m1,
            Ok(regs) => {
                exists|m2: ConfiguredCore, ea: Result<u32>|
                    #[trigger] effective_address::displacement_ay_rel(m1, m2, ea) && match ea {
                        Err(e) => r == Err::<Cycles, Exception>(e) && c1 == m2,
                        Ok(a) => exists|q: Result<(u32, int)>|
                            #[trigger] regs_stored(m2, c1, regs, 0, a, 32, false, 0, q) && match q {
                                Err(e) => r == Err::<Cycles, Exception>(e),
                                Ok((_, n)) => r == Ok::<Cycles, Exception>(Cycles((12 + 8 * n) as i32)),
                            },
                    }
            },
        }
}

/// MOVEM of registers to memory, 4 bytes each; 8 cycles more per register.
pub fn movem_32_re_di(core: &mut ConfiguredCore) -> (r: Result<Cycles>)
    requires
        old(core).wf(),
    ensures
        final(core).wf(),
        movem_32_re_di_effect(*old(core), *final(core), r),
{
    let ghost c0 = *core;
    let rs = operator::imm_16(core);
    let ghost m1 = *core;
    assert(operator::imm_16_rel(c0, m1, rs));
    let regs = match rs {
        Err(e) => {
            return Err(e);
        },
        Ok(v) => v,
    };
    let ea = effective_address::displacement_ay(core);
    let ghost m2 = *core;
    assert(effective_address::displacement_ay_rel(m1, m2, ea));
    let a = match ea {
        Err(e) => {
            return Err(e);
        },
        Ok(a) => a,
    };
    let q = store_regs(core, regs, a, 32, false);
    assert(regs_stored(m2, *core, regs, 0, a, 32, false, 0, counted_moves(q)));
    match q {
        Err(e) => Err(e),
        Ok((_, n)) => Ok(Cycles(12 + 8 * (n as i32))),
    }
}

/// What `movem_32_re_ix` does: the core goes from `c0` to `c1` and `r` comes back.
pub open spec fn movem_32_re_ix_effect(c0: ConfiguredCore, c1: ConfiguredCore, r: Result<Cycles>) -> bool {
    exists|m1: ConfiguredCore, rs: Result<u32>|
        #[trigger] operator::imm_16_rel(c0, m1, rs) && match rs {
            Err(e) => r == Err::<Cycles, Exception>(e) && c1 == m1,
            Ok(regs) => {
                exists|m2: ConfiguredCore, ea: Result<u32>|
                    #[trigger] effective_address::index_ay_rel(m1, m2, ea) && match ea {
                        Err(e) => r == Err::<Cycles, Exception>(e) && c1 == m2,
                        Ok(a) => exists|q: Result<(u32, int)>|
                            #[trigger] regs_stored(m2, c1, regs, 0, a, 32, false, 0, q) && match q {
                                Err(e) => r == Err::<Cycles, Exception>(e),
                                Ok((_, n)) => r == Ok::<Cycles, Exception>(Cycles((14 + 8 * n) as i32)),
                            },
                    }
            },
        }
}

/// MOVEM of registers to memory, 4 bytes each; 8 cycles more per register.
pub fn movem_32_re_ix(core: &mut ConfiguredCore) -> (r: Result<Cycles>)
    requires
        old(core).wf(),
    ensures
        final(core).wf(),
        movem_32_re_ix_effect(*old(core), *final(core), r),
{
    let ghost c0 = *core;
    let rs = operator::imm_16(core);
    let ghost m1 = *core;
    assert(operator::imm_16_rel(c0, m1, rs));
    let regs = match rs {
        Err(e) => {
            return Err(e);
        },
        Ok(v) => v,
    };
    let ea = effective_address::index_ay(core);
    let ghost m2 = *core;
    assert(effective_address::index_ay_rel(m1, m2, ea));
    let a = match ea {
        Err(e) => {
            return Err(e);
        },
        Ok(a) => a,
    };
    let q = store_regs(core, regs, a, 32, false);
    assert(regs_stored(m2, *core, regs, 0, a, 32, false, 0, counted_moves(q)));
    match q {
        Err(e) => Err(e),
        Ok((_, n)) => Ok(Cycles(14 + 8 * (n as i32))),
    }
}

/// What `movem_32_re_aw` does: the core goes from `c0` to `c1` and `r` comes back.
pub open spec fn movem_32_re_aw_effect(c0: ConfiguredCore, c1: ConfiguredCore, r: Result<Cycles>) -> bool {
    exists|m1: ConfiguredCore, rs: Result<u32>|
        #[trigger] operator::imm_16_rel(c0, m1, rs) && match rs {
            Err(e) => r == Err::<Cycles, Exception>(e) && c1 == m1,
            Ok(regs) => {
                exists|m2: ConfiguredCore, ea: Result<u32>|
                    #[trigger] effective_address::absolute_word_rel(m1, m2, ea) && match ea {
                        Err(e) => r == Err::<Cycles, Exception>(e) && c1 == m2,
                        Ok(a) => exists|q: Result<(u32, int)>|
                            #[trigger] regs_stored(m2, c1, regs, 0, a, 32, false, 0, q) && match q {
                                Err(e) => r == Err::<Cycles, Exception>(e),
                                Ok((_, n)) => r == Ok::<Cycles, Exception>(Cycles((12 + 8 * n) as i32)),
                            },
                    }
            },
        }
}

/// MOVEM of registers to memory, 4 bytes each; 8 cycles more per register.
pub fn movem_32_re_aw(core: &mut ConfiguredCore) -> (r: Result<Cycles>)
    requires
        old(core).wf(),
    ensures
        final(core).wf(),
        movem_32_re_aw_effect(*old(core), *final(core), r),
{
    let ghost c0 = *core;
    let rs = operator::imm_16(core);
    let ghost m1 = *core;
    assert(operator::imm_16_rel(c0, m1, rs));
    let regs = match rs {
        Err(e) => {
            return Err(e);
        },
        Ok(v) => v,
    };
    let ea = effective_address::absolute_word(core);
    let ghost m2 = *core;
    assert(effective_address::absolute_word_rel(m1, m2, ea));
    let a = match ea {
        Err(e) => {
            return Err(e);
        },
        Ok(a) => a,
    };
    let q = store_regs(core, regs, a, 32, false);
    assert(regs_stored(m2, *core, regs, 0, a, 32, false, 0, counted_moves(q)));
    match q {
        Err(e) => Err(e),
        Ok((_, n)) => Ok(Cycles(12 + 8 * (n as i32))),
    }
}

/// What `movem_32_re_al` does: the core goes from `c0` to `c1` and `r` comes back.
pub open spec fn movem_32_re_al_effect(c0: ConfiguredCore, c1: ConfiguredCore, r: Result<Cycles>) -> bool {
    exists|m1: ConfiguredCore, rs: Result<u32>|
        #[trigger] operator::imm_16_rel(c0, m1, rs) && match rs {
            Err(e) => r == Err::<Cycles, Exception>(e) && c1 == m1,
            Ok(regs) => {
                exists|m2: ConfiguredCore, ea: Result<u32>|
                    #[trigger] effective_address::absolute_long_rel(m1, m2, ea) && match ea {
                        Err(e) => r == Err::<Cycles, Exception>(e) && c1 == m2,
                        Ok(a) => exists|q: Result<(u32, int)>|
                            #[trigger] regs_stored(m2, c1, regs, 0, a, 32, false, 0, q) && match q {
                                Err(e) => r == Err::<Cycles, Exception>(e),
                                Ok((_, n)) => r == Ok::<Cycles, Exception>(Cycles((16 + 8 * n) as i32)),
                            },
                    }
            },
        }
}

/// MOVEM of registers to memory, 4 bytes each; 8 cycles more per register.
pub fn movem_32_re_al(core: &mut ConfiguredCore) -> (r: Result<Cycles>)
    requires
        old(core).wf(),
    ensures
        final(core).wf(),
        movem_32_re_al_effect(*old(core), *final(core), r),
{
    let ghost c0 = *core;
    let rs = operator::imm_16(core);
    let ghost m1 = *core;
    assert(operator::imm_16_rel(c0, m1, rs));
    let regs = match rs {
        Err(e) => {
            return Err(e);
        },
        Ok(v) => v,
    };
    let ea = effective_address::absolute_long(core);
    let ghost m2 = *core;
    assert(effective_address::absolute_long_rel(m1, m2, ea));
    let a = match ea {
        Err(e) => {
            return Err(e);
        },
        Ok(a) => a,
    };
    let q = store_regs(core, regs, a, 32, false);
    assert(regs_stored(m2, *core, regs, 0, a, 32, false, 0, counted_moves(q)));
    match q {
        Err(e) => Err(e),
        Ok((_, n)) => Ok(Cycles(16 + 8 * (n as i32))),
    }
}

/// What `movem_32_er_ai` does: the core goes from `c0` to `c1` and `r` comes back.
pub open spec fn movem_32_er_ai_effect(c0: ConfiguredCore, c1: ConfiguredCore, r: Result<Cycles>) -> bool {
    exists|m1: ConfiguredCore, rs: Result<u32>|
        #[trigger] operator::imm_16_rel(c0, m1, rs) && match rs {
            Err(e) => r == Err::<Cycles, Exception>(e) && c1 == m1,
            Ok(regs) => {
                exists|m2: ConfiguredCore, ea: Result<u32>|
                    #[trigger] effective_address::address_indirect_ay_rel(m1, m2, ea) && match ea {
                        Err(e) => r == Err::<Cycles, Exception>(e) && c1 == m2,
                        Ok(a) => exists|q: Result<(u32, int)>|
                            #[trigger] regs_loaded(m2, c1, regs, 0, a, 32, false, 0, q) && match q {
                                Err(e) => r == Err::<Cycles, Exception>(e),
                                Ok((_, n)) => r == Ok::<Cycles, Exception>(Cycles((12 + 8 * n) as i32)),
                            },
                    }
            },
        }
}

/// MOVEM of memory to registers, 4 bytes each; 8 cycles more per register.
pub fn movem_32_er_ai(core: &mut ConfiguredCore) -> (r: Result<Cycles>)
    requires
        old(core).wf(),
    ensures
        final(core).wf(),
        movem_32_er_ai_effect(*old(core), *final(core), r),
{
    let ghost c0 = *core;
    let rs = operator::imm_16(core);
    let ghost m1 = *core;
    assert(operator::imm_16_rel(c0, m1, rs));
    let regs = match rs {
        Err(e) => {
            return Err(e);
        },
        Ok(v) => v,
    };
    let ea = effective_address::address_indirect_ay(core);
    let ghost m2 = *core;
    assert(effective_address::address_indirect_ay_rel(m1, m2, ea));
    let a = match ea {
        Err(e) => {
            return Err(e);
        },
        Ok(a) => a,
    };
    let q = load_regs(core, regs, a, 32, false);
    assert(regs_loaded(m2, *core, regs, 0, a, 32, false, 0, counted_moves(q)));
    match q {
        Err(e) => Err(e),
        Ok((_, n)) => Ok(Cycles(12 + 8 * (n as i32))),
    }
}

/// What `movem_32_er_pi` does: the core goes from `c0` to `c1` and `r` comes back.
pub open spec fn movem_32_er_pi_effect(c0: ConfiguredCore, c1: ConfiguredCore, r: Result<Cycles>) -> bool {
    exists|m1: ConfiguredCore, rs: Result<u32>|
        #[trigger] operator::imm_16_rel(c0, m1, rs) && match rs {
            Err(e) => r == Err::<Cycles, Exception>(e) && c1 == m1,
            Ok(regs) => {
                let reg = ir_ay(m1.ir);
                exists|m2: ConfiguredCore, q: Result<(u32, int)>|
                    #[trigger] regs_loaded(m1, m2, regs, 0, m1.dar[reg], 32, false, 0, q) && match q {
                        Err(e) => r == Err::<Cycles, Exception>(e) && c1 == m2,
                        Ok((e, n)) => r == Ok::<Cycles, Exception>(Cycles((12 + 8 * n) as i32)) && reg_set(m2, c1, reg, e),
                    }
            },
        }
}

/// MOVEM of memory to registers, 4 bytes each; 8 cycles more per register.
pub fn movem_32_er_pi(core: &mut ConfiguredCore) -> (r: Result<Cycles>)
    requires
        old(core).wf(),
    ensures
        final(core).wf(),
        movem_32_er_pi_effect(*old(core), *final(core), r),
{
    let ghost c0 = *core;
    let rs = operator::imm_16(core);
    let ghost m1 = *core;
    assert(operator::imm_16_rel(c0, m1, rs));
    let regs = match rs {
        Err(e) => {
            return Err(e);
        },
        Ok(v) => v,
    };
    let reg = reg_ay(core.ir);
    let start = core.dar[reg];
    let q = load_regs(core, regs, start, 32, false);
    let ghost m2 = *core;
    assert(regs_loaded(m1, m2, regs, 0, m1.dar[reg as int], 32, false, 0, counted_moves(q)));
    match q {
        Err(e) => Err(e),
        Ok((e, n)) => {
            set_reg(core, reg, e);
            Ok(Cycles(12 + 8 * (n as i32)))
        },
    }
}

/// What `movem_32_er_di` does: the core goes from `c0` to `c1` and `r` comes back.
pub open spec fn movem_32_er_di_effect(c0: ConfiguredCore, c1: ConfiguredCore, r: Result<Cycles>) -> bool {
    exists|m1: ConfiguredCore, rs: Result<u32>|
        #[trigger] operator::imm_16_rel(c0, m1, rs) && match rs {
            Err(e) => r == Err::<Cycles, Exception>(e) && c1 == m1,
            Ok(regs) => {
                exists|m2: ConfiguredCore, ea: Result<u32>|
                    #[trigger] effective_address::displacement_ay_rel(m1, m2, ea) && match ea {
                        Err(e) => r == Err::<Cycles, Exception>(e) && c1 == m2,
                        Ok(a) => exists|q: Result<(u32, int)>|
                            #[trigger] regs_loaded(m2, c1, regs, 0, a, 32, false, 0, q) && match q {
                                Err(e) => r == Err::<Cycles, Exception>(e),
                                Ok((_, n)) => r == Ok::<Cycles, Exception>(Cycles((16 + 8 * n) as i32)),
                            },
                    }
            },
        }
}

/// MOVEM of memory to registers, 4 bytes each; 8 cycles more per register.
pub fn movem_32_er_di(core: &mut ConfiguredCore) -> (r: Result<Cycles>)
    requires
        old(core).wf(),
    ensures
        final(core).wf(),
        movem_32_er_di_effect(*old(core), *final(core), r),
{
    let ghost c0 = *core;
    let rs = operator::imm_16(core);
    let ghost m1 = *core;
    assert(operator::imm_16_rel(c0, m1, rs));
    let regs = match rs {
        Err(e) => {
            return Err(e);
        },
        Ok(v) => v,
    };
    let ea = effective_address::displacement_ay(core);
    let ghost m2 = *core;
    assert(effective_address::displacement_ay_rel(m1, m2, ea));
    let a = match ea {
        Err(e) => {
            return Err(e);
        },
        Ok(a) => a,
    };
    let q = load_regs(core, regs, a, 32, false);
    assert(regs_loaded(m2, *core, regs, 0, a, 32, false, 0, counted_moves(q)));
    match q {
        Err(e) => Err(e),
        Ok((_, n)) => Ok(Cycles(16 + 8 * (n as i32))),
    }
}

/// What `movem_32_er_ix` does: the core goes from `c0` to `c1` and `r` comes back.
pub open spec fn movem_32_er_ix_effect(c0: ConfiguredCore, c1: ConfiguredCore, r: Result<Cycles>) -> bool {
    exists|m1: ConfiguredCore, rs: Result<u32>|
        #[trigger] operator::imm_16_rel(c0, m1, rs) && match rs {
            Err(e) => r == Err::<Cycles, Exception>(e) && c1 == m1,
            Ok(regs) => {
                exists|m2: ConfiguredCore, ea: Result<u32>|
                    #[trigger] effective_address::index_ay_rel(m1, m2, ea) && match ea {
                        Err(e) => r == Err::<Cycles, Exception>(e) && c1 == m2,
                        Ok(a) => exists|q: Result<(u32, int)>|
                            #[trigger] regs_loaded(m2, c1, regs, 0, a, 32, false, 0, q) && match q {
                                Err(e) => r == Err::<Cycles, Exception>(e),
                                Ok((_, n)) => r == Ok::<Cycles, Exception>(Cycles((18 + 8 * n) as i32)),
                            },
                    }
            },
        }
}

/// MOVEM of memory to registers, 4 bytes each; 8 cycles more per register.
pub fn movem_32_er_ix(core: &mut ConfiguredCore) -> (r: Result<Cycles>)
    requires
        old(core).wf(),
    ensures
        final(core).wf(),
        movem_32_er_ix_effect(*old(core), *final(core), r),
{
    let ghost c0 = *core;
    let rs = operator::imm_16(core);
    let ghost m1 = *core;
    assert(operator::imm_16_rel(c0, m1, rs));
    let regs = match rs {
        Err(e) => {
            return Err(e);
        },
        Ok(v) => v,
    };
    let ea = effective_address::index_ay(core);
    let ghost m2 = *core;
    assert(effective_address::index_ay_rel(m1, m2, ea));
    let a = match ea {
        Err(e) => {
            return Err(e);
        },
        Ok(a) => a,
    };
    let q = load_regs(core, regs, a, 32, false);
    assert(regs_loaded(m2, *core, regs, 0, a, 32, false, 0, counted_moves(q)));
    match q {
        Err(e) => Err(e),
        Ok((_, n)) => Ok(Cycles(18 + 8 * (n as i32))),
    }
}

/// What `movem_32_er_aw` does: the core goes from `c0` to `c1` and `r` comes back.
pub open spec fn movem_32_er_aw_effect(c0: ConfiguredCore, c1: ConfiguredCore, r: Result<Cycles>) -> bool {
    exists|m1: ConfiguredCore, rs: Result<u32>|
        #[trigger] operator::imm_16_rel(c0, m1, rs) && match rs {
            Err(e) => r == Err::<Cycles, Exception>(e) && c1 == m1,
            Ok(regs) => {
                exists|m2: ConfiguredCore, ea: Result<u32>|
                    #[trigger] effective_address::absolute_word_rel(m1, m2, ea) && match ea {
                        Err(e) => r == Err::<Cycles, Exception>(e) && c1 == m2,
                        Ok(a) => exists|q: Result<(u32, int)>|
                            #[trigger] regs_loaded(m2, c1, regs, 0, a, 32, false, 0, q) && match q {
                                Err(e) => r == Err::<Cycles, Exception>(e),
                                Ok((_, n)) => r == Ok::<Cycles, Exception>(Cycles((16 + 8 * n) as i32)),
                            },
                    }
            },
        }
}

/// MOVEM of memory to registers, 4 bytes each; 8 cycles more per register.
pub fn movem_32_er_aw(core: &mut ConfiguredCore) -> (r: Result<Cycles>)
    requires
        old(core).wf(),
    ensures
        final(core).wf(),
        movem_32_er_aw_effect(*old(core), *final(core), r),
{
    let ghost c0 = *core;
    let rs = operator::imm_16(core);
    let ghost m1 = *core;
    assert(operator::imm_16_rel(c0, m1, rs));
    let regs = match rs {
        Err(e) => {
            return Err(e);
        },
        Ok(v) => v,
    };
    let ea = effective_address::absolute_word(core);
    let ghost m2 = *core;
    assert(effective_address::absolute_word_rel(m1, m2, ea));
    let a = match ea {
        Err(e) => {
            return Err(e);
        },
        Ok(a) => a,
    };
    let q = load_regs(core, regs, a, 32, false);
    assert(regs_loaded(m2, *core, regs, 0, a, 32, false, 0, counted_moves(q)));
    match q {
        Err(e) => Err(e),
        Ok((_, n)) => Ok(Cycles(16 + 8 * (n as i32))),
    }
}

/// What `movem_32_er_al` does: the core goes from `c0` to `c1` and `r` comes back.
pub open spec fn movem_32_er_al_effect(c0: ConfiguredCore, c1: ConfiguredCore, r: Result<Cycles>) -> bool {
    exists|m1: ConfiguredCore, rs: Result<u32>|
        #[trigger] operator::imm_16_rel(c0, m1, rs) && match rs {
            Err(e) => r == Err::<Cycles, Exception>(e) && c1 == m1,
            Ok(regs) => {
                exists|m2: ConfiguredCore, ea: Result<u32>|
                    #[trigger] effective_address::absolute_long_rel(m1, m2, ea) && match ea {
                        Err(e) => r == Err::<Cycles, Exception>(e) && c1 == m2,
                        Ok(a) => exists|q: Result<(u32, int)>|
                            #[trigger] regs_loaded(m2, c1, regs, 0, a, 32, false, 0, q) && match q {
                                Err(e) => r == Err::<Cycles, Exception>(e),
                                Ok((_, n)) => r == Ok::<Cycles, Exception>(Cycles((20 + 8 * n) as i32)),
                            },
                    }
            },
        }
}

/// MOVEM of memory to registers, 4 bytes each; 8 cycles more per register.
pub fn movem_32_er_al(core: &mut ConfiguredCore) -> (r: Result<Cycles>)
    requires
        old(core).wf(),
    ensures
        final(core).wf(),
        movem_32_er_al_effect(*old(core), *final(core), r),
{
    let ghost c0 = *core;
    let rs = operator::imm_16(core);
    let ghost m1 = *core;
    assert(operator::imm_16_rel(c0, m1, rs));
    let regs = match rs {
        Err(e) => {
            return Err(e);
        },
        Ok(v) => v,
    };
    let ea = effective_address::absolute_long(core);
    let ghost m2 = *core;
    assert(effective_address::absolute_long_rel(m1, m2, ea));
    let a = match ea {
        Err(e) => {
            return Err(e);
        },
        Ok(a) => a,
    };
    let q = load_regs(core, regs, a, 32, false);
    assert(regs_loaded(m2, *core, regs, 0, a, 32, false, 0, counted_moves(q)));
    match q {
        Err(e) => Err(e),
        Ok((_, n)) => Ok(Cycles(20 + 8 * (n as i32))),
    }
}

/// What `movem_32_er_pcdi` does: the core goes from `c0` to `c1` and `r` comes back.
pub open spec fn movem_32_er_pcdi_effect(c0: ConfiguredCore, c1: ConfiguredCore, r: Result<Cycles>) -> bool {
    exists|m1: ConfiguredCore, rs: Result<u32>|
        #[trigger] operator::imm_16_rel(c0, m1, rs) && match rs {
            Err(e) => r == Err::<Cycles, Exception>(e) && c1 == m1,
            Ok(regs) => {
                exists|m2: ConfiguredCore, ea: Result<u32>|
                    #[trigger] effective_address::displacement_pc_rel(m1, m2, ea) && match ea {
                        Err(e) => r == Err::<Cycles, Exception>(e) && c1 == m2,
                        Ok(a) => exists|q: Result<(u32, int)>|
                            #[trigger] regs_loaded(m2, c1, regs, 0, a, 32, true, 0, q) && match q {
                                Err(e) => r == Err::<Cycles, Exception>(e),
                                Ok((_, n)) => r == Ok::<Cycles, Exception>(Cycles((16 + 8 * n) as i32)),
                            },
                    }
            },
        }
}

/// MOVEM of memory to registers, 4 bytes each; 8 cycles more per register.
pub fn movem_32_er_pcdi(core: &mut ConfiguredCore) -> (r: Result<Cycles>)
    requires
        old(core).wf(),
    ensures
        final(core).wf(),
        movem_32_er_pcdi_effect(*old(core), *final(core), r),
{
    let ghost c0 = *core;
    let rs = operator::imm_16(core);
    let ghost m1 = *core;
    assert(operator::imm_16_rel(c0, m1, rs));
    let regs = match rs {
        Err(e) => {
            return Err(e);
        },
        Ok(v) => v,
    };
    let ea = effective_address::displacement_pc(core);
    let ghost m2 = *core;
    assert(effective_address::displacement_pc_rel(m1, m2, ea));
    let a = match ea {
        Err(e) => {
            return Err(e);
        },
        Ok(a) => a,
    };
    let q = load_regs(core, regs, a, 32, true);
    assert(regs_loaded(m2, *core, regs, 0, a, 32, true, 0, counted_moves(q)));
    match q {
        Err(e) => Err(e),
        Ok((_, n)) => Ok(Cycles(16 + 8 * (n as i32))),
    }
}

/// What `movem_32_er_pcix` does: the core goes from `c0` to `c1` and `r` comes back.
pub open spec fn movem_32_er_pcix_effect(c0: ConfiguredCore, c1: ConfiguredCore, r: Result<Cycles>) -> bool {
    exists|m1: ConfiguredCore, rs: Result<u32>|
        #[trigger] operator::imm_16_rel(c0, m1, rs) && match rs {
            Err(e) => r == Err::<Cycles, Exception>(e) && c1 == m1,
            Ok(regs) => {
                exists|m2: ConfiguredCore, ea: Result<u32>|
                    #[trigger] effective_address::index_pc_rel(m1, m2, ea) && match ea {
                        Err(e) => r == Err::<Cycles, Exception>(e) && c1 == m2,
                        Ok(a) => exists|q: Result<(u32, int)>|
                            #[trigger] regs_loaded(m2, c1, regs, 0, a, 32, true, 0, q) && match q {
                                Err(e) => r == Err::<Cycles, Exception>(e),
                                Ok((_, n)) => r == Ok::<Cycles, Exception>(Cycles((18 + 8 * n) as i32)),
                            },
                    }
            },
        }
}

/// MOVEM of memory to registers, 4 bytes each; 8 cycles more per register.
pub fn movem_32_er_pcix(core: &mut ConfiguredCore) -> (r: Result<Cycles>)
    requires
        old(core).wf(),
    ensures
        final(core).wf(),
        movem_32_er_pcix_effect(*old(core), *final(core), r),
{
    let ghost c0 = *core;
    let rs = operator::imm_16(core);
    let ghost m1 = *core;
    assert(operator::imm_16_rel(c0, m1, rs));
    let regs = match rs {
        Err(e) => {
            return Err(e);
        },
        Ok(v) => v,
    };
    let ea = effective_address::index_pc(core);
    let ghost m2 = *core;
    assert(effective_address::index_pc_rel(m1, m2, ea));
    let a = match ea {
        Err(e) => {
            return Err(e);
        },
        Ok(a) => a,
    };
    let q = load_regs(core, regs, a, 32, true);
    assert(regs_loaded(m2, *core, regs, 0, a, 32, true, 0, counted_moves(q)));
    match q {
        Err(e) => Err(e),
        Ok((_, n)) => Ok(Cycles(18 + 8 * (n as i32))),
    }
}

/// MOVEM, of a list of registers to or from memory.
#[derive(Clone, Copy, Debug, PartialEq, Eq, Structural)]
pub enum MovemOp {
    Movem16ReAi,
    Movem16RePd,
    Movem16ReDi,
    Movem16ReIx,
    Movem16ReAw,
    Movem16ReAl,
    Movem16ErAi,
    Movem16ErPi,
    Movem16ErDi,
    Movem16ErIx,
    Movem16ErAw,
    Movem16ErAl,
    Movem16ErPcdi,
    Movem16ErPcix,
    Movem32ReAi,
    Movem32RePd,
    Movem32ReDi,
    Movem32ReIx,
    Movem32ReAw,
    Movem32ReAl,
    Movem32ErAi,
    Movem32ErPi,
    Movem32ErDi,
    Movem32ErIx,
    Movem32ErAw,
    Movem32ErAl,
    Movem32ErPcdi,
    Movem32ErPcix,
}

/// What the instruction `op` does: the core goes from `c0` to `c1` and `r`
/// comes back.
pub open spec fn effect(op: MovemOp, c0: ConfiguredCore, c1: ConfiguredCore, r: Result<Cycles>) -> bool {
    match op {
        MovemOp::Movem16ReAi => movem_16_re_ai_effect(c0, c1, r),
        MovemOp::Movem16RePd => movem_16_re_pd_effect(c0, c1, r),
        MovemOp::Movem16ReDi => movem_16_re_di_effect(c0, c1, r),
        MovemOp::Movem16ReIx => movem_16_re_ix_effect(c0, c1, r),
        MovemOp::Movem16ReAw => movem_16_re_aw_effect(c0, c1, r),
        MovemOp::Movem16ReAl => movem_16_re_al_effect(c0, c1, r),
        MovemOp::Movem16ErAi => movem_16_er_ai_effect(c0, c1, r),
        MovemOp::Movem16ErPi => movem_16_er_pi_effect(c0, c1, r),
        MovemOp::Movem16ErDi => movem_16_er_di_effect(c0, c1, r),
        MovemOp::Movem16ErIx => movem_16_er_ix_effect(c0, c1, r),
        MovemOp::Movem16ErAw => movem_16_er_aw_effect(c0, c1, r),
        MovemOp::Movem16ErAl => movem_16_er_al_effect(c0, c1, r),
        MovemOp::Movem16ErPcdi => movem_16_er_pcdi_effect(c0, c1, r),
        MovemOp::Movem16ErPcix => movem_16_er_pcix_effect(c0, c1, r),
        MovemOp::Movem32ReAi => movem_32_re_ai_effect(c0, c1, r),
        MovemOp::Movem32RePd => movem_32_re_pd_effect(c0, c1, r),
        MovemOp::Movem32ReDi => movem_32_re_di_effect(c0, c1, r),
        MovemOp::Movem32ReIx => movem_32_re_ix_effect(c0, c1, r),
        MovemOp::Movem32ReAw => movem_32_re_aw_effect(c0, c1, r),
        MovemOp::Movem32ReAl => movem_32_re_al_effect(c0, c1, r),
        MovemOp::Movem32ErAi => movem_32_er_ai_effect(c0, c1, r),
        MovemOp::Movem32ErPi => movem_32_er_pi_effect(c0, c1, r),
        MovemOp::Movem32ErDi => movem_32_er_di_effect(c0, c1, r),
        MovemOp::Movem32ErIx => movem_32_er_ix_effect(c0, c1, r),
        MovemOp::Movem32ErAw => movem_32_er_aw_effect(c0, c1, r),
        MovemOp::Movem32ErAl => movem_32_er_al_effect(c0, c1, r),
        MovemOp::Movem32ErPcdi => movem_32_er_pcdi_effect(c0, c1, r),
        MovemOp::Movem32ErPcix => movem_32_er_pcix_effect(c0, c1, r),
    }
}

/// Runs the instruction `op` on the core.
pub fn run(core: &mut ConfiguredCore, op: MovemOp) -> (r: Result<Cycles>)
    requires
        old(core).wf(),
    ensures
        final(core).wf(),
        effect(op, *old(core), *final(core), r),
{
    match op {
        MovemOp::Movem16ReAi => movem_16_re_ai(core),
        MovemOp::Movem16RePd => movem_16_re_pd(core),
        MovemOp::Movem16ReDi => movem_16_re_di(core),
        MovemOp::Movem16ReIx => movem_16_re_ix(core),
        MovemOp::Movem16ReAw => movem_16_re_aw(core),
        MovemOp::Movem16ReAl => movem_16_re_al(core),
        MovemOp::Movem16ErAi => movem_16_er_ai(core),
        MovemOp::Movem16ErPi => movem_16_er_pi(core),
        MovemOp::Movem16ErDi => movem_16_er_di(core),
        MovemOp::Movem16ErIx => movem_16_er_ix(core),
        MovemOp::Movem16ErAw => movem_16_er_aw(core),
        MovemOp::Movem16ErAl => movem_16_er_al(core),
        MovemOp::Movem16ErPcdi => movem_16_er_pcdi(core),
        MovemOp::Movem16ErPcix => movem_16_er_pcix(core),
        MovemOp::Movem32ReAi => movem_32_re_ai(core),
        MovemOp::Movem32RePd => movem_32_re_pd(core),
        MovemOp::Movem32ReDi => movem_32_re_di(core),
        MovemOp::Movem32ReIx => movem_32_re_ix(core),
        MovemOp::Movem32ReAw => movem_32_re_aw(core),
        MovemOp::Movem32ReAl => movem_32_re_al(core),
        MovemOp::Movem32ErAi => movem_32_er_ai(core),
        MovemOp::Movem32ErPi => movem_32_er_pi(core),
        MovemOp::Movem32ErDi => movem_32_er_di(core),
        MovemOp::Movem32ErIx => movem_32_er_ix(core),
        MovemOp::Movem32ErAw => movem_32_er_aw(core),
        MovemOp::Movem32ErAl => movem_32_er_al(core),
        MovemOp::Movem32ErPcdi => movem_32_er_pcdi(core),
        MovemOp::Movem32ErPcix => movem_32_er_pcix(core),
    }
}

} // verus!
