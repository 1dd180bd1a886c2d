use vstd::prelude::*;
use crate::cpu::{ConfiguredCore, Cycles, Exception, Result, ir_dx, reg_dx};
use crate::cpu::ops::{reg_set, set_reg};
use crate::cpu::ops::handlers::Handler;

verus! {

/// What `set_d0` does: the core goes from `c0` to `c1` and `r` comes back.
pub open spec fn set_d0_effect(c0: ConfiguredCore, c1: ConfiguredCore, r: Result<Cycles>) -> bool {
    &&& r == Ok::<Cycles, Exception>(Cycles(2))
    &&& reg_set(c0, c1, 0, 0xabcd)
}

/// Sets D0, for trying out instruction dispatch.
pub fn set_d0(core: &mut ConfiguredCore) -> (r: Result<Cycles>)
    ensures
        set_d0_effect(*old(core), *final(core), r),
{
    set_reg(core, 0, 0xabcd);
    Ok(Cycles(2))
}

/// What `set_d1` does: the core goes from `c0` to `c1` and `r` comes back.
pub open spec fn set_d1_effect(c0: ConfiguredCore, c1: ConfiguredCore, r: Result<Cycles>) -> bool {
    &&& r == Ok::<Cycles, Exception>(Cycles(2))
    &&& reg_set(c0, c1, 1, 0xbcde)
}

/// Sets D1, for trying out instruction dispatch.
pub fn set_d1(core: &mut ConfiguredCore) -> (r: Result<Cycles>)
    ensures
        set_d1_effect(*old(core), *final(core), r),
{
    set_reg(core, 1, 0xbcde);
    Ok(Cycles(2))
}

/// What `set_dx` does: the core goes from `c0` to `c1` and `r` comes back.
pub open spec fn set_dx_effect(c0: ConfiguredCore, c1: ConfiguredCore, r: Result<Cycles>) -> bool {
    &&& r == Ok::<Cycles, Exception>(Cycles(2))
    &&& reg_set(c0, c1, ir_dx(c0.ir), 0xcdef)
}

/// Sets Dx, for trying out instruction dispatch.
pub fn set_dx(core: &mut ConfiguredCore) -> (r: Result<Cycles>)
    ensures
        set_dx_effect(*old(core), *final(core), r),
{
    let reg = reg_dx(core.ir);
    set_reg(core, reg, 0xcdef);
    Ok(Cycles(2))
}

/// The handlers of the trial instruction set: word 0x000a sets D0, word
/// 0x000b sets D1, the words 0x4000 with any register in bits 9..11 set
/// that data register; every other word is illegal.
pub open spec fn fake_decoded(op: u32) -> Handler {
    if op == 0x000a {
        Handler::SetD0
    } else if op == 0x000b {
        Handler::SetD1
    } else if op & 0xf1ff == 0x4000 {
        Handler::SetDx
    } else {
        Handler::Illegal
    }
}

/// An instruction set with only the trial instructions.
pub fn instruction_set() -> (t: Vec<Handler>)
    ensures
        t@.len() == 0x10000,
        forall|op: int| 0 <= op < 0x10000 ==> #[trigger] t@[op] == fake_decoded(op as u32),
{
    let mut t: Vec<Handler> = Vec::new();
    let mut op: u32 = 0;
    while op < 0x10000
        invariant
            op <= 0x10000,
            t@.len() == op,
            forall|k: int| 0 <= k < op ==> #[trigger] t@[k] == fake_decoded(k as u32),
        decreases 0x10000 - op,
    {
        let h = if op == 0x000a {
            Handler::SetD0
        } else if op == 0x000b {
            Handler::SetD1
        } else if op & 0xf1ff == 0x4000 {
            Handler::SetDx
        } else {
            Handler::Illegal
        };
        t.push(h);
        op = op + 1;
    }
    t
}

} // verus!
