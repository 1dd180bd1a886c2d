use vstd::prelude::*;
use super::effective_address;
use super::effective_address::{index_ea, byte_step};
use super::{ConfiguredCore, lemma_low_bits, Exception, Result, wadd, wsub, ir_ax, ir_ay, ir_dx, ir_dy, reg_ax, reg_ay, reg_dx, reg_dy};

verus! {

/// A read outcome paired with the address it was read from.
pub open spec fn with_ea(o: Result<u32>, ea: u32) -> Result<(u32, u32)> {
    match o {
        Ok(v) => Ok((v, ea)),
        Err(e) => Err(e),
    }
}

/// What `ea_ay_pd_8` does: `c0` before, `c1` after, `r` its result.
pub open spec fn ea_ay_pd_8_rel(c0: ConfiguredCore, c1: ConfiguredCore, r: Result<(u32, u32)>) -> bool {
    &&& ({
                let reg = ir_ay(c0.ir);
                let ea = wsub(c0.dar[reg], byte_step(reg));
                &&& r == with_ea(c0.read_outcome(8, c0.data_space(), ea), ea)
                &&& c1.dar@ == c0.dar@.update(reg, ea)
                &&& c1.wf()
                &&& c1.mem.init() == c0.mem.init()
                &&& c1.mem.memory() == c0.mem.memory()
                &&& c1 == (ConfiguredCore { dar: c1.dar, mem: c1.mem, ..c0 })
            })
}

pub fn ea_ay_pd_8(core: &mut ConfiguredCore) -> (r: Result<(u32, u32)>)
    requires
        old(core).wf(),
    ensures
        ea_ay_pd_8_rel(*old(core), *final(core), r),
{
    let ea = match effective_address::predecrement_ay_8(core) {
        Ok(ea) => ea,
        Err(e) => {
            return Err(e);
        },
    };
    match core.read_data_byte(ea) {
        Ok(val) => Ok((val, ea)),
        Err(e) => Err(e),
    }
}

/// What `ea_ax_pd_8` does: `c0` before, `c1` after, `r` its result.
pub open spec fn ea_ax_pd_8_rel(c0: ConfiguredCore, c1: ConfiguredCore, r: Result<(u32, u32)>) -> bool {
    &&& ({
                let reg = ir_ax(c0.ir);
                let ea = wsub(c0.dar[reg], byte_step(reg));
                &&& r == with_ea(c0.read_outcome(8, c0.data_space(), ea), ea)
                &&& c1.dar@ == c0.dar@.update(reg, ea)
                &&& c1.wf()
                &&& c1.mem.init() == c0.mem.init()
                &&& c1.mem.memory() == c0.mem.memory()
                &&& c1 == (ConfiguredCore { dar: c1.dar, mem: c1.mem, ..c0 })
            })
}

pub fn ea_ax_pd_8(core: &mut ConfiguredCore) -> (r: Result<(u32, u32)>)
    requires
        old(core).wf(),
    ensures
        ea_ax_pd_8_rel(*old(core), *final(core), r),
{
    let ea = match effective_address::predecrement_ax_8(core) {
        Ok(ea) => ea,
        Err(e) => {
            return Err(e);
        },
    };
    match core.read_data_byte(ea) {
        Ok(val) => Ok((val, ea)),
        Err(e) => Err(e),
    }
}

/// What `ea_ay_pi_8` does: `c0` before, `c1` after, `r` its result.
pub open spec fn ea_ay_pi_8_rel(c0: ConfiguredCore, c1: ConfiguredCore, r: Result<(u32, u32)>) -> bool {
    &&& ({
                let reg = ir_ay(c0.ir);
                let ea = c0.dar[reg];
                &&& r == with_ea(c0.read_outcome(8, c0.data_space(), ea), ea)
                &&& c1.dar@ == c0.dar@.update(reg, wadd(ea, byte_step(reg)))
                &&& c1.wf()
                &&& c1.mem.init() == c0.mem.init()
                &&& c1.mem.memory() == c0.mem.memory()
                &&& c1 == (ConfiguredCore { dar: c1.dar, mem: c1.mem, ..c0 })
            })
}

pub fn ea_ay_pi_8(core: &mut ConfiguredCore) -> (r: Result<(u32, u32)>)
    requires
        old(core).wf(),
    ensures
        ea_ay_pi_8_rel(*old(core), *final(core), r),
{
    let ea = match effective_address::postincrement_ay_8(core) {
        Ok(ea) => ea,
        Err(e) => {
            return Err(e);
        },
    };
    match core.read_data_byte(ea) {
        Ok(val) => Ok((val, ea)),
        Err(e) => Err(e),
    }
}

/// What `ea_ay_ai_8` does: `c0` before, `c1` after, `r` its result.
pub open spec fn ea_ay_ai_8_rel(c0: ConfiguredCore, c1: ConfiguredCore, r: Result<(u32, u32)>) -> bool {
    &&& ({
                let reg = ir_ay(c0.ir);
                let ea = c0.dar[reg];
                &&& r == with_ea(c0.read_outcome(8, c0.data_space(), ea), ea)
                &&& c1.dar == c0.dar
                &&& c1.wf()
                &&& c1.mem.init() == c0.mem.init()
                &&& c1.mem.memory() == c0.mem.memory()
                &&& c1 == (ConfiguredCore { dar: c1.dar, mem: c1.mem, ..c0 })
            })
}

pub fn ea_ay_ai_8(core: &mut ConfiguredCore) -> (r: Result<(u32, u32)>)
    requires
        old(core).wf(),
    ensures
        ea_ay_ai_8_rel(*old(core), *final(core), r),
{
    let ea = match effective_address::address_indirect_ay(core) {
        Ok(ea) => ea,
        Err(e) => {
            return Err(e);
        },
    };
    match core.read_data_byte(ea) {
        Ok(val) => Ok((val, ea)),
        Err(e) => Err(e),
    }
}

/// What `ea_ay_di_8` does: `c0` before, `c1` after, `r` its result.
pub open spec fn ea_ay_di_8_rel(c0: ConfiguredCore, c1: ConfiguredCore, r: Result<(u32, u32)>) -> bool {
    &&& c0.pc & 1 != 0 ==> r == Err::<(u32, u32), Exception>(c0.pc_error()) && c1
                == c0
    &&& c0.pc & 1 == 0 ==> r == with_ea(c0.read_outcome(8, c0.data_space(), wadd(c0.dar[ir_ay(c0.ir)], (c0.ext16() as i16) as u32)), wadd(c0.dar[ir_ay(c0.ir)], (c0.ext16() as i16) as u32))
                && ConfiguredCore::fetched(c0, c1, c0.after16())
}

pub fn ea_ay_di_8(core: &mut ConfiguredCore) -> (r: Result<(u32, u32)>)
    requires
        old(core).wf(),
    ensures
        ea_ay_di_8_rel(*old(core), *final(core), r),
{
    let ea = match effective_address::displacement_ay(core) {
        Ok(ea) => ea,
        Err(e) => {
            return Err(e);
        },
    };
    match core.read_data_byte(ea) {
        Ok(val) => Ok((val, ea)),
        Err(e) => Err(e),
    }
}

/// What `ea_ay_ix_8` does: `c0` before, `c1` after, `r` its result.
pub open spec fn ea_ay_ix_8_rel(c0: ConfiguredCore, c1: ConfiguredCore, r: Result<(u32, u32)>) -> bool {
    &&& c0.pc & 1 != 0 ==> r == Err::<(u32, u32), Exception>(c0.pc_error()) && c1
                == c0
    &&& c0.pc & 1 == 0 ==> r == with_ea(c0.read_outcome(8, c0.data_space(), index_ea(c0.dar@, c0.dar[ir_ay(c0.ir)], c0.ext16())), index_ea(c0.dar@, c0.dar[ir_ay(c0.ir)], c0.ext16()))
                && ConfiguredCore::fetched(c0, c1, c0.after16())
}

pub fn ea_ay_ix_8(core: &mut ConfiguredCore) -> (r: Result<(u32, u32)>)
    requires
        old(core).wf(),
    ensures
        ea_ay_ix_8_rel(*old(core), *final(core), r),
{
    let ea = match effective_address::index_ay(core) {
        Ok(ea) => ea,
        Err(e) => {
            return Err(e);
        },
    };
    match core.read_data_byte(ea) {
        Ok(val) => Ok((val, ea)),
        Err(e) => Err(e),
    }
}

/// What `ea_aw_8` does: `c0` before, `c1` after, `r` its result.
pub open spec fn ea_aw_8_rel(c0: ConfiguredCore, c1: ConfiguredCore, r: Result<(u32, u32)>) -> bool {
    &&& c0.pc & 1 != 0 ==> r == Err::<(u32, u32), Exception>(c0.pc_error()) && c1
                == c0
    &&& c0.pc & 1 == 0 ==> r == with_ea(c0.read_outcome(8, c0.data_space(), (c0.ext16() as i16) as u32), (c0.ext16() as i16) as u32)
                && ConfiguredCore::fetched(c0, c1, c0.after16())
}

pub fn ea_aw_8(core: &mut ConfiguredCore) -> (r: Result<(u32, u32)>)
    requires
        old(core).wf(),
    ensures
        ea_aw_8_rel(*old(core), *final(core), r),
{
    let ea = match effective_address::absolute_word(core) {
        Ok(ea) => ea,
        Err(e) => {
            return Err(e);
        },
    };
    match core.read_data_byte(ea) {
        Ok(val) => Ok((val, ea)),
        Err(e) => Err(e),
    }
}

/// What `ea_al_8` does: `c0` before, `c1` after, `r` its result.
pub open spec fn ea_al_8_rel(c0: ConfiguredCore, c1: ConfiguredCore, r: Result<(u32, u32)>) -> bool {
    &&& c0.pc & 1 != 0 ==> r == Err::<(u32, u32), Exception>(c0.pc_error()) && c1
                == c0
    &&& c0.pc & 1 == 0 ==> r == with_ea(c0.read_outcome(8, c0.data_space(), c0.ext32()), c0.ext32())
                && ConfiguredCore::fetched(c0, c1, c0.after32())
}

pub fn ea_al_8(core: &mut ConfiguredCore) -> (r: Result<(u32, u32)>)
    requires
        old(core).wf(),
    ensures
        ea_al_8_rel(*old(core), *final(core), r),
{
    let ea = match effective_address::absolute_long(core) {
        Ok(ea) => ea,
        Err(e) => {
            return Err(e);
        },
    };
    match core.read_data_byte(ea) {
        Ok(val) => Ok((val, ea)),
        Err(e) => Err(e),
    }
}

/// What `ay_pd_8` does: `c0` before, `c1` after, `r` its result.
pub open spec fn ay_pd_8_rel(c0: ConfiguredCore, c1: ConfiguredCore, r: Result<u32>) -> bool {
    &&& ({
                let reg = ir_ay(c0.ir);
                let ea = wsub(c0.dar[reg], byte_step(reg));
                &&& r == c0.read_outcome(8, c0.data_space(), ea)
                &&& c1.dar@ == c0.dar@.update(reg, ea)
                &&& c1.wf()
                &&& c1.mem.init() == c0.mem.init()
                &&& c1.mem.memory() == c0.mem.memory()
                &&& c1 == (ConfiguredCore { dar: c1.dar, mem: c1.mem, ..c0 })
            })
}

pub fn ay_pd_8(core: &mut ConfiguredCore) -> (r: Result<u32>)
    requires
        old(core).wf(),
    ensures
        ay_pd_8_rel(*old(core), *final(core), r),
{
    let ea = match effective_address::predecrement_ay_8(core) {
        Ok(ea) => ea,
        Err(e) => {
            return Err(e);
        },
    };
    core.read_data_byte(ea)
}

/// What `ay_pi_8` does: `c0` before, `c1` after, `r` its result.
pub open spec fn ay_pi_8_rel(c0: ConfiguredCore, c1: ConfiguredCore, r: Result<u32>) -> bool {
    &&& ({
                let reg = ir_ay(c0.ir);
                let ea = c0.dar[reg];
                &&& r == c0.read_outcome(8, c0.data_space(), ea)
                &&& c1.dar@ == c0.dar@.update(reg, wadd(ea, byte_step(reg)))
                &&& c1.wf()
                &&& c1.mem.init() == c0.mem.init()
                &&& c1.mem.memory() == c0.mem.memory()
                &&& c1 == (ConfiguredCore { dar: c1.dar, mem: c1.mem, ..c0 })
            })
}

pub fn ay_pi_8(core: &mut ConfiguredCore) -> (r: Result<u32>)
    requires
        old(core).wf(),
    ensures
        ay_pi_8_rel(*old(core), *final(core), r),
{
    let ea = match effective_address::postincrement_ay_8(core) {
        Ok(ea) => ea,
        Err(e) => {
            return Err(e);
        },
    };
    core.read_data_byte(ea)
}

/// What `ax_pi_8` does: `c0` before, `c1` after, `r` its result.
pub open spec fn ax_pi_8_rel(c0: ConfiguredCore, c1: ConfiguredCore, r: Result<u32>) -> bool {
    &&& ({
                let reg = ir_ax(c0.ir);
                let ea = c0.dar[reg];
                &&& r == c0.read_outcome(8, c0.data_space(), ea)
                &&& c1.dar@ == c0.dar@.update(reg, wadd(ea, byte_step(reg)))
                &&& c1.wf()
                &&& c1.mem.init() == c0.mem.init()
                &&& c1.mem.memory() == c0.mem.memory()
                &&& c1 == (ConfiguredCore { dar: c1.dar, mem: c1.mem, ..c0 })
            })
}

pub fn ax_pi_8(core: &mut ConfiguredCore) -> (r: Result<u32>)
    requires
        old(core).wf(),
    ensures
        ax_pi_8_rel(*old(core), *final(core), r),
{
    let ea = match effective_address::postincrement_ax_8(core) {
        Ok(ea) => ea,
        Err(e) => {
            return Err(e);
        },
    };
    core.read_data_byte(ea)
}

/// What `ay_ai_8` does: `c0` before, `c1` after, `r` its result.
pub open spec fn ay_ai_8_rel(c0: ConfiguredCore, c1: ConfiguredCore, r: Result<u32>) -> bool {
    &&& ({
                let reg = ir_ay(c0.ir);
                let ea = c0.dar[reg];
                &&& r == c0.read_outcome(8, c0.data_space(), ea)
                &&& c1.dar == c0.dar
                &&& c1.wf()
                &&& c1.mem.init() == c0.mem.init()
                &&& c1.mem.memory() == c0.mem.memory()
                &&& c1 == (ConfiguredCore { dar: c1.dar, mem: c1.mem, ..c0 })
            })
}

pub fn ay_ai_8(core: &mut ConfiguredCore) -> (r: Result<u32>)
    requires
        old(core).wf(),
    ensures
        ay_ai_8_rel(*old(core), *final(core), r),
{
    let ea = match effective_address::address_indirect_ay(core) {
        Ok(ea) => ea,
        Err(e) => {
            return Err(e);
        },
    };
    core.read_data_byte(ea)
}

/// What `ay_di_8` does: `c0` before, `c1` after, `r` its result.
pub open spec fn ay_di_8_rel(c0: ConfiguredCore, c1: ConfiguredCore, r: Result<u32>) -> bool {
    &&& c0.pc & 1 != 0 ==> r == Err::<u32, Exception>(c0.pc_error()) && c1
                == c0
    &&& c0.pc & 1 == 0 ==> r == c0.read_outcome(8, c0.data_space(), wadd(c0.dar[ir_ay(c0.ir)], (c0.ext16() as i16) as u32))
                && ConfiguredCore::fetched(c0, c1, c0.after16())
}

pub fn ay_di_8(core: &mut ConfiguredCore) -> (r: Result<u32>)
    requires
        old(core).wf(),
    ensures
        ay_di_8_rel(*old(core), *final(core), r),
{
    let ea = match effective_address::displacement_ay(core) {
        Ok(ea) => ea,
        Err(e) => {
            return Err(e);
        },
    };
    core.read_data_byte(ea)
}

/// What `ay_ix_8` does: `c0` before, `c1` after, `r` its result.
pub open spec fn ay_ix_8_rel(c0: ConfiguredCore, c1: ConfiguredCore, r: Result<u32>) -> bool {
    &&& c0.pc & 1 != 0 ==> r == Err::<u32, Exception>(c0.pc_error()) && c1
                == c0
    &&& c0.pc & 1 == 0 ==> r == c0.read_outcome(8, c0.data_space(), index_ea(c0.dar@, c0.dar[ir_ay(c0.ir)], c0.ext16()))
                && ConfiguredCore::fetched(c0, c1, c0.after16())
}

pub fn ay_ix_8(core: &mut ConfiguredCore) -> (r: Result<u32>)
    requires
        old(core).wf(),
    ensures
        ay_ix_8_rel(*old(core), *final(core), r),
{
    let ea = match effective_address::index_ay(core) {
        Ok(ea) => ea,
        Err(e) => {
            return Err(e);
        },
    };
    core.read_data_byte(ea)
}

/// What `aw_8` does: `c0` before, `c1` after, `r` its result.
pub open spec fn aw_8_rel(c0: ConfiguredCore, c1: ConfiguredCore, r: Result<u32>) -> bool {
    &&& c0.pc & 1 != 0 ==> r == Err::<u32, Exception>(c0.pc_error()) && c1
                == c0
    &&& c0.pc & 1 == 0 ==> r == c0.read_outcome(8, c0.data_space(), (c0.ext16() as i16) as u32)
                && ConfiguredCore::fetched(c0, c1, c0.after16())
}

pub fn aw_8(core: &mut ConfiguredCore) -> (r: Result<u32>)
    requires
        old(core).wf(),
    ensures
        aw_8_rel(*old(core), *final(core), r),
{
    let ea = match effective_address::absolute_word(core) {
        Ok(ea) => ea,
        Err(e) => {
            return Err(e);
        },
    };
    core.read_data_byte(ea)
}

/// What `al_8` does: `c0` before, `c1` after, `r` its result.
pub open spec fn al_8_rel(c0: ConfiguredCore, c1: ConfiguredCore, r: Result<u32>) -> bool {
    &&& c0.pc & 1 != 0 ==> r == Err::<u32, Exception>(c0.pc_error()) && c1
                == c0
    &&& c0.pc & 1 == 0 ==> r == c0.read_outcome(8, c0.data_space(), c0.ext32())
                && ConfiguredCore::fetched(c0, c1, c0.after32())
}

pub fn al_8(core: &mut ConfiguredCore) -> (r: Result<u32>)
    requires
        old(core).wf(),
    ensures
        al_8_rel(*old(core), *final(core), r),
{
    let ea = match effective_address::absolute_long(core) {
        Ok(ea) => ea,
        Err(e) => {
            return Err(e);
        },
    };
    core.read_data_byte(ea)
}

/// What `pcdi_8` does: `c0` before, `c1` after, `r` its result.
pub open spec fn pcdi_8_rel(c0: ConfiguredCore, c1: ConfiguredCore, r: Result<u32>) -> bool {
    &&& c0.pc & 1 != 0 ==> r == Err::<u32, Exception>(c0.pc_error()) && c1
                == c0
    &&& c0.pc & 1 == 0 ==> r == c0.read_outcome(8, c0.program_space(), wadd(c0.pc, (c0.ext16() as i16) as u32))
                && ConfiguredCore::fetched(c0, c1, c0.after16())
}

pub fn pcdi_8(core: &mut ConfiguredCore) -> (r: Result<u32>)
    requires
        old(core).wf(),
    ensures
        pcdi_8_rel(*old(core), *final(core), r),
{
    let ea = match effective_address::displacement_pc(core) {
        Ok(ea) => ea,
        Err(e) => {
            return Err(e);
        },
    };
    core.read_program_byte(ea)
}

/// What `pcix_8` does: `c0` before, `c1` after, `r` its result.
pub open spec fn pcix_8_rel(c0: ConfiguredCore, c1: ConfiguredCore, r: Result<u32>) -> bool {
    &&& c0.pc & 1 != 0 ==> r == Err::<u32, Exception>(c0.pc_error()) && c1
                == c0
    &&& c0.pc & 1 == 0 ==> r == c0.read_outcome(8, c0.program_space(), index_ea(c0.dar@, c0.pc, c0.ext16()))
                && ConfiguredCore::fetched(c0, c1, c0.after16())
}

pub fn pcix_8(core: &mut ConfiguredCore) -> (r: Result<u32>)
    requires
        old(core).wf(),
    ensures
        pcix_8_rel(*old(core), *final(core), r),
{
    let ea = match effective_address::index_pc(core) {
        Ok(ea) => ea,
        Err(e) => {
            return Err(e);
        },
    };
    core.read_program_byte(ea)
}

/// What `ea_ay_pd_16` does: `c0` before, `c1` after, `r` its result.
pub open spec fn ea_ay_pd_16_rel(c0: ConfiguredCore, c1: ConfiguredCore, r: Result<(u32, u32)>) -> bool {
    &&& ({
                let reg = ir_ay(c0.ir);
                let ea = wsub(c0.dar[reg], 2);
                &&& r == with_ea(c0.read_outcome(16, c0.data_space(), ea), ea)
                &&& c1.dar@ == c0.dar@.update(reg, ea)
                &&& c1.wf()
                &&& c1.mem.init() == c0.mem.init()
                &&& c1.mem.memory() == c0.mem.memory()
                &&& c1 == (ConfiguredCore { dar: c1.dar, mem: c1.mem, ..c0 })
            })
}

pub fn ea_ay_pd_16(core: &mut ConfiguredCore) -> (r: Result<(u32, u32)>)
    requires
        old(core).wf(),
    ensures
        ea_ay_pd_16_rel(*old(core), *final(core), r),
{
    let ea = match effective_address::predecrement_ay_16(core) {
        Ok(ea) => ea,
        Err(e) => {
            return Err(e);
        },
    };
    match core.read_data_word(ea) {
        Ok(val) => Ok((val, ea)),
        Err(e) => Err(e),
    }
}

/// What `ea_ax_pd_16` does: `c0` before, `c1` after, `r` its result.
pub open spec fn ea_ax_pd_16_rel(c0: ConfiguredCore, c1: ConfiguredCore, r: Result<(u32, u32)>) -> bool {
    &&& ({
                let reg = ir_ax(c0.ir);
                let ea = wsub(c0.dar[reg], 2);
                &&& r == with_ea(c0.read_outcome(16, c0.data_space(), ea), ea)
                &&& c1.dar@ == c0.dar@.update(reg, ea)
                &&& c1.wf()
                &&& c1.mem.init() == c0.mem.init()
                &&& c1.mem.memory() == c0.mem.memory()
                &&& c1 == (ConfiguredCore { dar: c1.dar, mem: c1.mem, ..c0 })
            })
}

pub fn ea_ax_pd_16(core: &mut ConfiguredCore) -> (r: Result<(u32, u32)>)
    requires
        old(core).wf(),
    ensures
        ea_ax_pd_16_rel(*old(core), *final(core), r),
{
    let ea = match effective_address::predecrement_ax_16(core) {
        Ok(ea) => ea,
        Err(e) => {
            return Err(e);
        },
    };
    match core.read_data_word(ea) {
        Ok(val) => Ok((val, ea)),
        Err(e) => Err(e),
    }
}

/// What `ea_ay_pi_16` does: `c0` before, `c1` after, `r` its result.
pub open spec fn ea_ay_pi_16_rel(c0: ConfiguredCore, c1: ConfiguredCore, r: Result<(u32, u32)>) -> bool {
    &&& ({
                let reg = ir_ay(c0.ir);
                let ea = c0.dar[reg];
                &&& r == with_ea(c0.read_outcome(16, c0.data_space(), ea), ea)
                &&& c1.dar@ == c0.dar@.update(reg, wadd(ea, 2))
                &&& c1.wf()
                &&& c1.mem.init() == c0.mem.init()
                &&& c1.mem.memory() == c0.mem.memory()
                &&& c1 == (ConfiguredCore { dar: c1.dar, mem: c1.mem, ..c0 })
            })
}

pub fn ea_ay_pi_16(core: &mut ConfiguredCore) -> (r: Result<(u32, u32)>)
    requires
        old(core).wf(),
    ensures
        ea_ay_pi_16_rel(*old(core), *final(core), r),
{
    let ea = match effective_address::postincrement_ay_16(core) {
        Ok(ea) => ea,
        Err(e) => {
            return Err(e);
        },
    };
    match core.read_data_word(ea) {
        Ok(val) => Ok((val, ea)),
        Err(e) => Err(e),
    }
}

/// What `ea_ay_ai_16` does: `c0` before, `c1` after, `r` its result.
pub open spec fn ea_ay_ai_16_rel(c0: ConfiguredCore, c1: ConfiguredCore, r: Result<(u32, u32)>) -> bool {
    &&& ({
                let reg = ir_ay(c0.ir);
                let ea = c0.dar[reg];
                &&& r == with_ea(c0.read_outcome(16, c0.data_space(), ea), ea)
                &&& c1.dar == c0.dar
                &&& c1.wf()
                &&& c1.mem.init() == c0.mem.init()
                &&& c1.mem.memory() == c0.mem.memory()
                &&& c1 == (ConfiguredCore { dar: c1.dar, mem: c1.mem, ..c0 })
            })
}

pub fn ea_ay_ai_16(core: &mut ConfiguredCore) -> (r: Result<(u32, u32)>)
    requires
        old(core).wf(),
    ensures
        ea_ay_ai_16_rel(*old(core), *final(core), r),
{
    let ea = match effective_address::address_indirect_ay(core) {
        Ok(ea) => ea,
        Err(e) => {
            return Err(e);
        },
    };
    match core.read_data_word(ea) {
        Ok(val) => Ok((val, ea)),
        Err(e) => Err(e),
    }
}

/// What `ea_ay_di_16` does: `c0` before, `c1` after, `r` its result.
pub open spec fn ea_ay_di_16_rel(c0: ConfiguredCore, c1: ConfiguredCore, r: Result<(u32, u32)>) -> bool {
    &&& c0.pc & 1 != 0 ==> r == Err::<(u32, u32), Exception>(c0.pc_error()) && c1
                == c0
    &&& c0.pc & 1 == 0 ==> r == with_ea(c0.read_outcome(16, c0.data_space(), wadd(c0.dar[ir_ay(c0.ir)], (c0.ext16() as i16) as u32)), wadd(c0.dar[ir_ay(c0.ir)], (c0.ext16() as i16) as u32))
                && ConfiguredCore::fetched(c0, c1, c0.after16())
}

pub fn ea_ay_di_16(core: &mut ConfiguredCore) -> (r: Result<(u32, u32)>)
    requires
        old(core).wf(),
    ensures
        ea_ay_di_16_rel(*old(core), *final(core), r),
{
    let ea = match effective_address::displacement_ay(core) {
        Ok(ea) => ea,
        Err(e) => {
            return Err(e);
        },
    };
    match core.read_data_word(ea) {
        Ok(val) => Ok((val, ea)),
        Err(e) => Err(e),
    }
}

/// What `ea_ay_ix_16` does: `c0` before, `c1` after, `r` its result.
pub open spec fn ea_ay_ix_16_rel(c0: ConfiguredCore, c1: ConfiguredCore, r: Result<(u32, u32)>) -> bool {
    &&& c0.pc & 1 != 0 ==> r == Err::<(u32, u32), Exception>(c0.pc_error()) && c1
                == c0
    &&& c0.pc & 1 == 0 ==> r == with_ea(c0.read_outcome(16, c0.data_space(), index_ea(c0.dar@, c0.dar[ir_ay(c0.ir)], c0.ext16())), index_ea(c0.dar@, c0.dar[ir_ay(c0.ir)], c0.ext16()))
                && ConfiguredCore::fetched(c0, c1, c0.after16())
}

pub fn ea_ay_ix_16(core: &mut ConfiguredCore) -> (r: Result<(u32, u32)>)
    requires
        old(core).wf(),
    ensures
        ea_ay_ix_16_rel(*old(core), *final(core), r),
{
    let ea = match effective_address::index_ay(core) {
        Ok(ea) => ea,
        Err(e) => {
            return Err(e);
        },
    };
    match core.read_data_word(ea) {
        Ok(val) => Ok((val, ea)),
        Err(e) => Err(e),
    }
}

/// What `ea_aw_16` does: `c0` before, `c1` after, `r` its result.
pub open spec fn ea_aw_16_rel(c0: ConfiguredCore, c1: ConfiguredCore, r: Result<(u32, u32)>) -> bool {
    &&& c0.pc & 1 != 0 ==> r == Err::<(u32, u32), Exception>(c0.pc_error()) && c1
                == c0
    &&& c0.pc & 1 == 0 ==> r == with_ea(c0.read_outcome(16, c0.data_space(), (c0.ext16() as i16) as u32), (c0.ext16() as i16) as u32)
                && ConfiguredCore::fetched(c0, c1, c0.after16())
}

pub fn ea_aw_16(core: &mut ConfiguredCore) -> (r: Result<(u32, u32)>)
    requires
        old(core).wf(),
    ensures
        ea_aw_16_rel(*old(core), *final(core), r),
{
    let ea = match effective_address::absolute_word(core) {
        Ok(ea) => ea,
        Err(e) => {
            return Err(e);
        },
    };
    match core.read_data_word(ea) {
        Ok(val) => Ok((val, ea)),
        Err(e) => Err(e),
    }
}

/// What `ea_al_16` does: `c0` before, `c1` after, `r` its result.
pub open spec fn ea_al_16_rel(c0: ConfiguredCore, c1: ConfiguredCore, r: Result<(u32, u32)>) -> bool {
    &&& c0.pc & 1 != 0 ==> r == Err::<(u32, u32), Exception>(c0.pc_error()) && c1
                == c0
    &&& c0.pc & 1 == 0 ==> r == with_ea(c0.read_outcome(16, c0.data_space(), c0.ext32()), c0.ext32())
                && ConfiguredCore::fetched(c0, c1, c0.after32())
}

pub fn ea_al_16(core: &mut ConfiguredCore) -> (r: Result<(u32, u32)>)
    requires
        old(core).wf(),
    ensures
        ea_al_16_rel(*old(core), *final(core), r),
{
    let ea = match effective_address::absolute_long(core) {
        Ok(ea) => ea,
        Err(e) => {
            return Err(e);
        },
    };
    match core.read_data_word(ea) {
        Ok(val) => Ok((val, ea)),
        Err(e) => Err(e),
    }
}

/// What `ay_pd_16` does: `c0` before, `c1` after, `r` its result.
pub open spec fn ay_pd_16_rel(c0: ConfiguredCore, c1: ConfiguredCore, r: Result<u32>) -> bool {
    &&& ({
                let reg = ir_ay(c0.ir);
                let ea = wsub(c0.dar[reg], 2);
                &&& r == c0.read_outcome(16, c0.data_space(), ea)
                &&& c1.dar@ == c0.dar@.update(reg, ea)
                &&& c1.wf()
                &&& c1.mem.init() == c0.mem.init()
                &&& c1.mem.memory() == c0.mem.memory()
                &&& c1 == (ConfiguredCore { dar: c1.dar, mem: c1.mem, ..c0 })
            })
}

pub fn ay_pd_16(core: &mut ConfiguredCore) -> (r: Result<u32>)
    requires
        old(core).wf(),
    ensures
        ay_pd_16_rel(*old(core), *final(core), r),
{
    let ea = match effective_address::predecrement_ay_16(core) {
        Ok(ea) => ea,
        Err(e) => {
            return Err(e);
        },
    };
    core.read_data_word(ea)
}

/// What `ay_pi_16` does: `c0` before, `c1` after, `r` its result.
pub open spec fn ay_pi_16_rel(c0: ConfiguredCore, c1: ConfiguredCore, r: Result<u32>) -> bool {
    &&& ({
                let reg = ir_ay(c0.ir);
                let ea = c0.dar[reg];
                &&& r == c0.read_outcome(16, c0.data_space(), ea)
                &&& c1.dar@ == c0.dar@.update(reg, wadd(ea, 2))
                &&& c1.wf()
                &&& c1.mem.init() == c0.mem.init()
                &&& c1.mem.memory() == c0.mem.memory()
                &&& c1 == (ConfiguredCore { dar: c1.dar, mem: c1.mem, ..c0 })
            })
}

pub fn ay_pi_16(core: &mut ConfiguredCore) -> (r: Result<u32>)
    requires
        old(core).wf(),
    ensures
        ay_pi_16_rel(*old(core), *final(core), r),
{
    let ea = match effective_address::postincrement_ay_16(core) {
        Ok(ea) => ea,
        Err(e) => {
            return Err(e);
        },
    };
    core.read_data_word(ea)
}

/// What `ax_pi_16` does: `c0` before, `c1` after, `r` its result.
pub open spec fn ax_pi_16_rel(c0: ConfiguredCore, c1: ConfiguredCore, r: Result<u32>) -> bool {
    &&& ({
                let reg = ir_ax(c0.ir);
                let ea = c0.dar[reg];
                &&& r == c0.read_outcome(16, c0.data_space(), ea)
                &&& c1.dar@ == c0.dar@.update(reg, wadd(ea, 2))
                &&& c1.wf()
                &&& c1.mem.init() == c0.mem.init()
                &&& c1.mem.memory() == c0.mem.memory()
                &&& c1 == (ConfiguredCore { dar: c1.dar, mem: c1.mem, ..c0 })
            })
}

pub fn ax_pi_16(core: &mut ConfiguredCore) -> (r: Result<u32>)
    requires
        old(core).wf(),
    ensures
        ax_pi_16_rel(*old(core), *final(core), r),
{
    let ea = match effective_address::postincrement_ax_16(core) {
        Ok(ea) => ea,
        Err(e) => {
            return Err(e);
        },
    };
    core.read_data_word(ea)
}

/// What `ay_ai_16` does: `c0` before, `c1` after, `r` its result.
pub open spec fn ay_ai_16_rel(c0: ConfiguredCore, c1: ConfiguredCore, r: Result<u32>) -> bool {
    &&& ({
                let reg = ir_ay(c0.ir);
                let ea = c0.dar[reg];
                &&& r == c0.read_outcome(16, c0.data_space(), ea)
                &&& c1.dar == c0.dar
                &&& c1.wf()
                &&& c1.mem.init() == c0.mem.init()
                &&& c1.mem.memory() == c0.mem.memory()
                &&& c1 == (ConfiguredCore { dar: c1.dar, mem: c1.mem, ..c0 })
            })
}

pub fn ay_ai_16(core: &mut ConfiguredCore) -> (r: Result<u32>)
    requires
        old(core).wf(),
    ensures
        ay_ai_16_rel(*old(core), *final(core), r),
{
    let ea = match effective_address::address_indirect_ay(core) {
        Ok(ea) => ea,
        Err(e) => {
            return Err(e);
        },
    };
    core.read_data_word(ea)
}

/// What `ay_di_16` does: `c0` before, `c1` after, `r` its result.
pub open spec fn ay_di_16_rel(c0: ConfiguredCore, c1: ConfiguredCore, r: Result<u32>) -> bool {
    &&& c0.pc & 1 != 0 ==> r == Err::<u32, Exception>(c0.pc_error()) && c1
                == c0
    &&& c0.pc & 1 == 0 ==> r == c0.read_outcome(16, c0.data_space(), wadd(c0.dar[ir_ay(c0.ir)], (c0.ext16() as i16) as u32))
                && ConfiguredCore::fetched(c0, c1, c0.after16())
}

pub fn ay_di_16(core: &mut ConfiguredCore) -> (r: Result<u32>)
    requires
        old(core).wf(),
    ensures
        ay_di_16_rel(*old(core), *final(core), r),
{
    let ea = match effective_address::displacement_ay(core) {
        Ok(ea) => ea,
        Err(e) => {
            return Err(e);
        },
    };
    core.read_data_word(ea)
}

/// What `ay_ix_16` does: `c0` before, `c1` after, `r` its result.
pub open spec fn ay_ix_16_rel(c0: ConfiguredCore, c1: ConfiguredCore, r: Result<u32>) -> bool {
    &&& c0.pc & 1 != 0 ==> r == Err::<u32, Exception>(c0.pc_error()) && c1
                == c0
    &&& c0.pc & 1 == 0 ==> r == c0.read_outcome(16, c0.data_space(), index_ea(c0.dar@, c0.dar[ir_ay(c0.ir)], c0.ext16()))
                && ConfiguredCore::fetched(c0, c1, c0.after16())
}

pub fn ay_ix_16(core: &mut ConfiguredCore) -> (r: Result<u32>)
    requires
        old(core).wf(),
    ensures
        ay_ix_16_rel(*old(core), *final(core), r),
{
    let ea = match effective_address::index_ay(core) {
        Ok(ea) => ea,
        Err(e) => {
            return Err(e);
        },
    };
    core.read_data_word(ea)
}

/// What `aw_16` does: `c0` before, `c1` after, `r` its result.
pub open spec fn aw_16_rel(c0: ConfiguredCore, c1: ConfiguredCore, r: Result<u32>) -> bool {
    &&& c0.pc & 1 != 0 ==> r == Err::<u32, Exception>(c0.pc_error()) && c1
                == c0
    &&& c0.pc & 1 == 0 ==> r == c0.read_outcome(16, c0.data_space(), (c0.ext16() as i16) as u32)
                && ConfiguredCore::fetched(c0, c1, c0.after16())
}

pub fn aw_16(core: &mut ConfiguredCore) -> (r: Result<u32>)
    requires
        old(core).wf(),
    ensures
        aw_16_rel(*old(core), *final(core), r),
{
    let ea = match effective_address::absolute_word(core) {
        Ok(ea) => ea,
        Err(e) => {
            return Err(e);
        },
    };
    core.read_data_word(ea)
}

/// What `al_16` does: `c0` before, `c1` after, `r` its result.
pub open spec fn al_16_rel(c0: ConfiguredCore, c1: ConfiguredCore, r: Result<u32>) -> bool {
    &&& c0.pc & 1 != 0 ==> r == Err::<u32, Exception>(c0.pc_error()) && c1
                == c0
    &&& c0.pc & 1 == 0 ==> r == c0.read_outcome(16, c0.data_space(), c0.ext32())
                && ConfiguredCore::fetched(c0, c1, c0.after32())
}

pub fn al_16(core: &mut ConfiguredCore) -> (r: Result<u32>)
    requires
        old(core).wf(),
    ensures
        al_16_rel(*old(core), *final(core), r),
{
    let ea = match effective_address::absolute_long(core) {
        Ok(ea) => ea,
        Err(e) => {
            return Err(e);
        },
    };
    core.read_data_word(ea)
}

/// What `pcdi_16` does: `c0` before, `c1` after, `r` its result.
pub open spec fn pcdi_16_rel(c0: ConfiguredCore, c1: ConfiguredCore, r: Result<u32>) -> bool {
    &&& c0.pc & 1 != 0 ==> r == Err::<u32, Exception>(c0.pc_error()) && c1
                == c0
    &&& c0.pc & 1 == 0 ==> r == c0.read_outcome(16, c0.program_space(), wadd(c0.pc, (c0.ext16() as i16) as u32))
                && ConfiguredCore::fetched(c0, c1, c0.after16())
}

pub fn pcdi_16(core: &mut ConfiguredCore) -> (r: Result<u32>)
    requires
        old(core).wf(),
    ensures
        pcdi_16_rel(*old(core), *final(core), r),
{
    let ea = match effective_address::displacement_pc(core) {
        Ok(ea) => ea,
        Err(e) => {
            return Err(e);
        },
    };
    core.read_program_word(ea)
}

/// What `pcix_16` does: `c0` before, `c1` after, `r` its result.
pub open spec fn pcix_16_rel(c0: ConfiguredCore, c1: ConfiguredCore, r: Result<u32>) -> bool {
    &&& c0.pc & 1 != 0 ==> r == Err::<u32, Exception>(c0.pc_error()) && c1
                == c0
    &&& c0.pc & 1 == 0 ==> r == c0.read_outcome(16, c0.program_space(), index_ea(c0.dar@, c0.pc, c0.ext16()))
                && ConfiguredCore::fetched(c0, c1, c0.after16())
}

pub fn pcix_16(core: &mut ConfiguredCore) -> (r: Result<u32>)
    requires
        old(core).wf(),
    ensures
        pcix_16_rel(*old(core), *final(core), r),
{
    let ea = match effective_address::index_pc(core) {
        Ok(ea) => ea,
        Err(e) => {
            return Err(e);
        },
    };
    core.read_program_word(ea)
}

/// What `ea_ay_pd_32` does: `c0` before, `c1` after, `r` its result.
pub open spec fn ea_ay_pd_32_rel(c0: ConfiguredCore, c1: ConfiguredCore, r: Result<(u32, u32)>) -> bool {
    &&& ({
                let reg = ir_ay(c0.ir);
                let ea = wsub(c0.dar[reg], 4);
                &&& r == with_ea(c0.read_outcome(32, c0.data_space(), ea), ea)
                &&& c1.dar@ == c0.dar@.update(reg, ea)
                &&& c1.wf()
                &&& c1.mem.init() == c0.mem.init()
                &&& c1.mem.memory() == c0.mem.memory()
                &&& c1 == (ConfiguredCore { dar: c1.dar, mem: c1.mem, ..c0 })
            })
}

pub fn ea_ay_pd_32(core: &mut ConfiguredCore) -> (r: Result<(u32, u32)>)
    requires
        old(core).wf(),
    ensures
        ea_ay_pd_32_rel(*old(core), *final(core), r),
{
    let ea = match effective_address::predecrement_ay_32(core) {
        Ok(ea) => ea,
        Err(e) => {
            return Err(e);
        },
    };
    match core.read_data_long(ea) {
        Ok(val) => Ok((val, ea)),
        Err(e) => Err(e),
    }
}

/// What `ea_ax_pd_32` does: `c0` before, `c1` after, `r` its result.
pub open spec fn ea_ax_pd_32_rel(c0: ConfiguredCore, c1: ConfiguredCore, r: Result<(u32, u32)>) -> bool {
    &&& ({
                let reg = ir_ax(c0.ir);
                let ea = wsub(c0.dar[reg], 4);
                &&& r == with_ea(c0.read_outcome(32, c0.data_space(), ea), ea)
                &&& c1.dar@ == c0.dar@.update(reg, ea)
                &&& c1.wf()
                &&& c1.mem.init() == c0.mem.init()
                &&& c1.mem.memory() == c0.mem.memory()
                &&& c1 == (ConfiguredCore { dar: c1.dar, mem: c1.mem, ..c0 })
            })
}

pub fn ea_ax_pd_32(core: &mut ConfiguredCore) -> (r: Result<(u32, u32)>)
    requires
        old(core).wf(),
    ensures
        ea_ax_pd_32_rel(*old(core), *final(core), r),
{
    let ea = match effective_address::predecrement_ax_32(core) {
        Ok(ea) => ea,
        Err(e) => {
            return Err(e);
        },
    };
    match core.read_data_long(ea) {
        Ok(val) => Ok((val, ea)),
        Err(e) => Err(e),
    }
}

/// What `ea_ay_pi_32` does: `c0` before, `c1` after, `r` its result.
pub open spec fn ea_ay_pi_32_rel(c0: ConfiguredCore, c1: ConfiguredCore, r: Result<(u32, u32)>) -> bool {
    &&& ({
                let reg = ir_ay(c0.ir);
                let ea = c0.dar[reg];
                &&& r == with_ea(c0.read_outcome(32, c0.data_space(), ea), ea)
                &&& c1.dar@ == c0.dar@.update(reg, wadd(ea, 4))
                &&& c1.wf()
                &&& c1.mem.init() == c0.mem.init()
                &&& c1.mem.memory() == c0.mem.memory()
                &&& c1 == (ConfiguredCore { dar: c1.dar, mem: c1.mem, ..c0 })
            })
}

pub fn ea_ay_pi_32(core: &mut ConfiguredCore) -> (r: Result<(u32, u32)>)
    requires
        old(core).wf(),
    ensures
        ea_ay_pi_32_rel(*old(core), *final(core), r),
{
    let ea = match effective_address::postincrement_ay_32(core) {
        Ok(ea) => ea,
        Err(e) => {
            return Err(e);
        },
    };
    match core.read_data_long(ea) {
        Ok(val) => Ok((val, ea)),
        Err(e) => Err(e),
    }
}

/// What `ea_ay_ai_32` does: `c0` before, `c1` after, `r` its result.
pub open spec fn ea_ay_ai_32_rel(c0: ConfiguredCore, c1: ConfiguredCore, r: Result<(u32, u32)>) -> bool {
    &&& ({
                let reg = ir_ay(c0.ir);
                let ea = c0.dar[reg];
                &&& r == with_ea(c0.read_outcome(32, c0.data_space(), ea), ea)
                &&& c1.dar == c0.dar
                &&& c1.wf()
                &&& c1.mem.init() == c0.mem.init()
                &&& c1.mem.memory() == c0.mem.memory()
                &&& c1 == (ConfiguredCore { dar: c1.dar, mem: c1.mem, ..c0 })
            })
}

pub fn ea_ay_ai_32(core: &mut ConfiguredCore) -> (r: Result<(u32, u32)>)
    requires
        old(core).wf(),
    ensures
        ea_ay_ai_32_rel(*old(core), *final(core), r),
{
    let ea = match effective_address::address_indirect_ay(core) {
        Ok(ea) => ea,
        Err(e) => {
            return Err(e);
        },
    };
    match core.read_data_long(ea) {
        Ok(val) => Ok((val, ea)),
        Err(e) => Err(e),
    }
}

/// What `ea_ay_di_32` does: `c0` before, `c1` after, `r` its result.
pub open spec fn ea_ay_di_32_rel(c0: ConfiguredCore, c1: ConfiguredCore, r: Result<(u32, u32)>) -> bool {
    &&& c0.pc & 1 != 0 ==> r == Err::<(u32, u32), Exception>(c0.pc_error()) && c1
                == c0
    &&& c0.pc & 1 == 0 ==> r == with_ea(c0.read_outcome(32, c0.data_space(), wadd(c0.dar[ir_ay(c0.ir)], (c0.ext16() as i16) as u32)), wadd(c0.dar[ir_ay(c0.ir)], (c0.ext16() as i16) as u32))
                && ConfiguredCore::fetched(c0, c1, c0.after16())
}

pub fn ea_ay_di_32(core: &mut ConfiguredCore) -> (r: Result<(u32, u32)>)
    requires
        old(core).wf(),
    ensures
        ea_ay_di_32_rel(*old(core), *final(core), r),
{
    let ea = match effective_address::displacement_ay(core) {
        Ok(ea) => ea,
        Err(e) => {
            return Err(e);
        },
    };
    match core.read_data_long(ea) {
        Ok(val) => Ok((val, ea)),
        Err(e) => Err(e),
    }
}

/// What `ea_ay_ix_32` does: `c0` before, `c1` after, `r` its result.
pub open spec fn ea_ay_ix_32_rel(c0: ConfiguredCore, c1: ConfiguredCore, r: Result<(u32, u32)>) -> bool {
    &&& c0.pc & 1 != 0 ==> r == Err::<(u32, u32), Exception>(c0.pc_error()) && c1
                == c0
    &&& c0.pc & 1 == 0 ==> r == with_ea(c0.read_outcome(32, c0.data_space(), index_ea(c0.dar@, c0.dar[ir_ay(c0.ir)], c0.ext16())), index_ea(c0.dar@, c0.dar[ir_ay(c0.ir)], c0.ext16()))
                && ConfiguredCore::fetched(c0, c1, c0.after16())
}

pub fn ea_ay_ix_32(core: &mut ConfiguredCore) -> (r: Result<(u32, u32)>)
    requires
        old(core).wf(),
    ensures
        ea_ay_ix_32_rel(*old(core), *final(core), r),
{
    let ea = match effective_address::index_ay(core) {
        Ok(ea) => ea,
        Err(e) => {
            return Err(e);
        },
    };
    match core.read_data_long(ea) {
        Ok(val) => Ok((val, ea)),
        Err(e) => Err(e),
    }
}

/// What `ea_aw_32` does: `c0` before, `c1` after, `r` its result.
pub open spec fn ea_aw_32_rel(c0: ConfiguredCore, c1: ConfiguredCore, r: Result<(u32, u32)>) -> bool {
    &&& c0.pc & 1 != 0 ==> r == Err::<(u32, u32), Exception>(c0.pc_error()) && c1
                == c0
    &&& c0.pc & 1 == 0 ==> r == with_ea(c0.read_outcome(32, c0.data_space(), (c0.ext16() as i16) as u32), (c0.ext16() as i16) as u32)
                && ConfiguredCore::fetched(c0, c1, c0.after16())
}

pub fn ea_aw_32(core: &mut ConfiguredCore) -> (r: Result<(u32, u32)>)
    requires
        old(core).wf(),
    ensures
        ea_aw_32_rel(*old(core), *final(core), r),
{
    let ea = match effective_address::absolute_word(core) {
        Ok(ea) => ea,
        Err(e) => {
            return Err(e);
        },
    };
    match core.read_data_long(ea) {
        Ok(val) => Ok((val, ea)),
        Err(e) => Err(e),
    }
}

/// What `ea_al_32` does: `c0` before, `c1` after, `r` its result.
pub open spec fn ea_al_32_rel(c0: ConfiguredCore, c1: ConfiguredCore, r: Result<(u32, u32)>) -> bool {
    &&& c0.pc & 1 != 0 ==> r == Err::<(u32, u32), Exception>(c0.pc_error()) && c1
                == c0
    &&& c0.pc & 1 == 0 ==> r == with_ea(c0.read_outcome(32, c0.data_space(), c0.ext32()), c0.ext32())
                && ConfiguredCore::fetched(c0, c1, c0.after32())
}

pub fn ea_al_32(core: &mut ConfiguredCore) -> (r: Result<(u32, u32)>)
    requires
        old(core).wf(),
    ensures
        ea_al_32_rel(*old(core), *final(core), r),
{
    let ea = match effective_address::absolute_long(core) {
        Ok(ea) => ea,
        Err(e) => {
            return Err(e);
        },
    };
    match core.read_data_long(ea) {
        Ok(val) => Ok((val, ea)),
        Err(e) => Err(e),
    }
}

/// What `ay_pd_32` does: `c0` before, `c1` after, `r` its result.
pub open spec fn ay_pd_32_rel(c0: ConfiguredCore, c1: ConfiguredCore, r: Result<u32>) -> bool {
    &&& ({
                let reg = ir_ay(c0.ir);
                let ea = wsub(c0.dar[reg], 4);
                &&& r == c0.read_outcome(32, c0.data_space(), ea)
                &&& c1.dar@ == c0.dar@.update(reg, ea)
                &&& c1.wf()
                &&& c1.mem.init() == c0.mem.init()
                &&& c1.mem.memory() == c0.mem.memory()
                &&& c1 == (ConfiguredCore { dar: c1.dar, mem: c1.mem, ..c0 })
            })
}

pub fn ay_pd_32(core: &mut ConfiguredCore) -> (r: Result<u32>)
    requires
        old(core).wf(),
    ensures
        ay_pd_32_rel(*old(core), *final(core), r),
{
    let ea = match effective_address::predecrement_ay_32(core) {
        Ok(ea) => ea,
        Err(e) => {
            return Err(e);
        },
    };
    core.read_data_long(ea)
}

/// What `ay_pi_32` does: `c0` before, `c1` after, `r` its result.
pub open spec fn ay_pi_32_rel(c0: ConfiguredCore, c1: ConfiguredCore, r: Result<u32>) -> bool {
    &&& ({
                let reg = ir_ay(c0.ir);
                let ea = c0.dar[reg];
                &&& r == c0.read_outcome(32, c0.data_space(), ea)
                &&& c1.dar@ == c0.dar@.update(reg, wadd(ea, 4))
                &&& c1.wf()
                &&& c1.mem.init() == c0.mem.init()
                &&& c1.mem.memory() == c0.mem.memory()
                &&& c1 == (ConfiguredCore { dar: c1.dar, mem: c1.mem, ..c0 })
            })
}

pub fn ay_pi_32(core: &mut ConfiguredCore) -> (r: Result<u32>)
    requires
        old(core).wf(),
    ensures
        ay_pi_32_rel(*old(core), *final(core), r),
{
    let ea = match effective_address::postincrement_ay_32(core) {
        Ok(ea) => ea,
        Err(e) => {
            return Err(e);
        },
    };
    core.read_data_long(ea)
}

/// What `ax_pi_32` does: `c0` before, `c1` after, `r` its result.
pub open spec fn ax_pi_32_rel(c0: ConfiguredCore, c1: ConfiguredCore, r: Result<u32>) -> bool {
    &&& ({
                let reg = ir_ax(c0.ir);
                let ea = c0.dar[reg];
                &&& r == c0.read_outcome(32, c0.data_space(), ea)
                &&& c1.dar@ == c0.dar@.update(reg, wadd(ea, 4))
                &&& c1.wf()
                &&& c1.mem.init() == c0.mem.init()
                &&& c1.mem.memory() == c0.mem.memory()
                &&& c1 == (ConfiguredCore { dar: c1.dar, mem: c1.mem, ..c0 })
            })
}

pub fn ax_pi_32(core: &mut ConfiguredCore) -> (r: Result<u32>)
    requires
        old(core).wf(),
    ensures
        ax_pi_32_rel(*old(core), *final(core), r),
{
    let ea = match effective_address::postincrement_ax_32(core) {
        Ok(ea) => ea,
        Err(e) => {
            return Err(e);
        },
    };
    core.read_data_long(ea)
}

/// What `ay_ai_32` does: `c0` before, `c1` after, `r` its result.
pub open spec fn ay_ai_32_rel(c0: ConfiguredCore, c1: ConfiguredCore, r: Result<u32>) -> bool {
    &&& ({
                let reg = ir_ay(c0.ir);
                let ea = c0.dar[reg];
                &&& r == c0.read_outcome(32, c0.data_space(), ea)
                &&& c1.dar == c0.dar
                &&& c1.wf()
                &&& c1.mem.init() == c0.mem.init()
                &&& c1.mem.memory() == c0.mem.memory()
                &&& c1 == (ConfiguredCore { dar: c1.dar, mem: c1.mem, ..c0 })
            })
}

pub fn ay_ai_32(core: &mut ConfiguredCore) -> (r: Result<u32>)
    requires
        old(core).wf(),
    ensures
        ay_ai_32_rel(*old(core), *final(core), r),
{
    let ea = match effective_address::address_indirect_ay(core) {
        Ok(ea) => ea,
        Err(e) => {
            return Err(e);
        },
    };
    core.read_data_long(ea)
}

/// What `ay_di_32` does: `c0` before, `c1` after, `r` its result.
pub open spec fn ay_di_32_rel(c0: ConfiguredCore, c1: ConfiguredCore, r: Result<u32>) -> bool {
    &&& c0.pc & 1 != 0 ==> r == Err::<u32, Exception>(c0.pc_error()) && c1
                == c0
    &&& c0.pc & 1 == 0 ==> r == c0.read_outcome(32, c0.data_space(), wadd(c0.dar[ir_ay(c0.ir)], (c0.ext16() as i16) as u32))
                && ConfiguredCore::fetched(c0, c1, c0.after16())
}

pub fn ay_di_32(core: &mut ConfiguredCore) -> (r: Result<u32>)
    requires
        old(core).wf(),
    ensures
        ay_di_32_rel(*old(core), *final(core), r),
{
    let ea = match effective_address::displacement_ay(core) {
        Ok(ea) => ea,
        Err(e) => {
            return Err(e);
        },
    };
    core.read_data_long(ea)
}

/// What `ay_ix_32` does: `c0` before, `c1` after, `r` its result.
pub open spec fn ay_ix_32_rel(c0: ConfiguredCore, c1: ConfiguredCore, r: Result<u32>) -> bool {
    &&& c0.pc & 1 != 0 ==> r == Err::<u32, Exception>(c0.pc_error()) && c1
                == c0
    &&& c0.pc & 1 == 0 ==> r == c0.read_outcome(32, c0.data_space(), index_ea(c0.dar@, c0.dar[ir_ay(c0.ir)], c0.ext16()))
                && ConfiguredCore::fetched(c0, c1, c0.after16())
}

pub fn ay_ix_32(core: &mut ConfiguredCore) -> (r: Result<u32>)
    requires
        old(core).wf(),
    ensures
        ay_ix_32_rel(*old(core), *final(core), r),
{
    let ea = match effective_address::index_ay(core) {
        Ok(ea) => ea,
        Err(e) => {
            return Err(e);
        },
    };
    core.read_data_long(ea)
}

/// What `aw_32` does: `c0` before, `c1` after, `r` its result.
pub open spec fn aw_32_rel(c0: ConfiguredCore, c1: ConfiguredCore, r: Result<u32>) -> bool {
    &&& c0.pc & 1 != 0 ==> r == Err::<u32, Exception>(c0.pc_error()) && c1
                == c0
    &&& c0.pc & 1 == 0 ==> r == c0.read_outcome(32, c0.data_space(), (c0.ext16() as i16) as u32)
                && ConfiguredCore::fetched(c0, c1, c0.after16())
}

pub fn aw_32(core: &mut ConfiguredCore) -> (r: Result<u32>)
    requires
        old(core).wf(),
    ensures
        aw_32_rel(*old(core), *final(core), r),
{
    let ea = match effective_address::absolute_word(core) {
        Ok(ea) => ea,
        Err(e) => {
            return Err(e);
        },
    };
    core.read_data_long(ea)
}

/// What `al_32` does: `c0` before, `c1` after, `r` its result.
pub open spec fn al_32_rel(c0: ConfiguredCore, c1: ConfiguredCore, r: Result<u32>) -> bool {
    &&& c0.pc & 1 != 0 ==> r == Err::<u32, Exception>(c0.pc_error()) && c1
                == c0
    &&& c0.pc & 1 == 0 ==> r == c0.read_outcome(32, c0.data_space(), c0.ext32())
                && ConfiguredCore::fetched(c0, c1, c0.after32())
}

pub fn al_32(core: &mut ConfiguredCore) -> (r: Result<u32>)
    requires
        old(core).wf(),
    ensures
        al_32_rel(*old(core), *final(core), r),
{
    let ea = match effective_address::absolute_long(core) {
        Ok(ea) => ea,
        Err(e) => {
            return Err(e);
        },
    };
    core.read_data_long(ea)
}

/// What `pcdi_32` does: `c0` before, `c1` after, `r` its result.
pub open spec fn pcdi_32_rel(c0: ConfiguredCore, c1: ConfiguredCore, r: Result<u32>) -> bool {
    &&& c0.pc & 1 != 0 ==> r == Err::<u32, Exception>(c0.pc_error()) && c1
                == c0
    &&& c0.pc & 1 == 0 ==> r == c0.read_outcome(32, c0.program_space(), wadd(c0.pc, (c0.ext16() as i16) as u32))
                && ConfiguredCore::fetched(c0, c1, c0.after16())
}

pub fn pcdi_32(core: &mut ConfiguredCore) -> (r: Result<u32>)
    requires
        old(core).wf(),
    ensures
        pcdi_32_rel(*old(core), *final(core), r),
{
    let ea = match effective_address::displacement_pc(core) {
        Ok(ea) => ea,
        Err(e) => {
            return Err(e);
        },
    };
    core.read_program_long(ea)
}

/// What `pcix_32` does: `c0` before, `c1` after, `r` its result.
pub open spec fn pcix_32_rel(c0: ConfiguredCore, c1: ConfiguredCore, r: Result<u32>) -> bool {
    &&& c0.pc & 1 != 0 ==> r == Err::<u32, Exception>(c0.pc_error()) && c1
                == c0
    &&& c0.pc & 1 == 0 ==> r == c0.read_outcome(32, c0.program_space(), index_ea(c0.dar@, c0.pc, c0.ext16()))
                && ConfiguredCore::fetched(c0, c1, c0.after16())
}

pub fn pcix_32(core: &mut ConfiguredCore) -> (r: Result<u32>)
    requires
        old(core).wf(),
    ensures
        pcix_32_rel(*old(core), *final(core), r),
{
    let ea = match effective_address::index_pc(core) {
        Ok(ea) => ea,
        Err(e) => {
            return Err(e);
        },
    };
    core.read_program_long(ea)
}

/// What `imm_8` does: `c0` before, `c1` after, `r` its result.
pub open spec fn imm_8_rel(c0: ConfiguredCore, c1: ConfiguredCore, r: Result<u32>) -> bool {
    &&& c0.pc & 1 != 0 ==> r == Err::<u32, Exception>(c0.pc_error()) && c1
                == c0
    &&& c0.pc & 1 == 0 ==> r == Ok::<u32, Exception>((c0.ext16() & 0xff) as u32)
                && ConfiguredCore::fetched(c0, c1, c0.after16())
}

pub fn imm_8(core: &mut ConfiguredCore) -> (r: Result<u32>)
    requires
        old(core).wf(),
    ensures
        imm_8_rel(*old(core), *final(core), r),
{
    match core.read_imm_u16() {
        Ok(extension) => Ok((extension & 0xff) as u32),
        Err(e) => Err(e),
    }
}

/// What `imm_16` does: `c0` before, `c1` after, `r` its result.
pub open spec fn imm_16_rel(c0: ConfiguredCore, c1: ConfiguredCore, r: Result<u32>) -> bool {
    &&& c0.pc & 1 != 0 ==> r == Err::<u32, Exception>(c0.pc_error()) && c1
                == c0
    &&& c0.pc & 1 == 0 ==> r == Ok::<u32, Exception>((c0.ext16() as i16) as u32)
                && ConfiguredCore::fetched(c0, c1, c0.after16())
}

pub fn imm_16(core: &mut ConfiguredCore) -> (r: Result<u32>)
    requires
        old(core).wf(),
    ensures
        imm_16_rel(*old(core), *final(core), r),
{
    match core.read_imm_i16() {
        Ok(extension) => Ok(extension as u32),
        Err(e) => Err(e),
    }
}

/// What `imm_32` does: `c0` before, `c1` after, `r` its result.
pub open spec fn imm_32_rel(c0: ConfiguredCore, c1: ConfiguredCore, r: Result<u32>) -> bool {
    &&& c0.pc & 1 != 0 ==> r == Err::<u32, Exception>(c0.pc_error()) && c1
                == c0
    &&& c0.pc & 1 == 0 ==> r == Ok::<u32, Exception>(c0.ext32())
                && ConfiguredCore::fetched(c0, c1, c0.after32())
}

pub fn imm_32(core: &mut ConfiguredCore) -> (r: Result<u32>)
    requires
        old(core).wf(),
    ensures
        imm_32_rel(*old(core), *final(core), r),
{
    core.read_imm_u32()
}

/// What `dx` does: `c0` before, `c1` after, `r` its result.
pub open spec fn dx_rel(c0: ConfiguredCore, c1: ConfiguredCore, r: Result<u32>) -> bool {
    &&& r == Ok::<u32, Exception>(c0.dar[ir_dx(c0.ir)])
    &&& c1 == c0
}

pub fn dx(core: &mut ConfiguredCore) -> (r: Result<u32>)
    ensures
        dx_rel(*old(core), *final(core), r),
{
    Ok(core.dar[reg_dx(core.ir)])
}

/// What `dy` does: `c0` before, `c1` after, `r` its result.
pub open spec fn dy_rel(c0: ConfiguredCore, c1: ConfiguredCore, r: Result<u32>) -> bool {
    &&& r == Ok::<u32, Exception>(c0.dar[ir_dy(c0.ir)])
    &&& c1 == c0
}

pub fn dy(core: &mut ConfiguredCore) -> (r: Result<u32>)
    ensures
        dy_rel(*old(core), *final(core), r),
{
    Ok(core.dar[reg_dy(core.ir)])
}

/// What `ay` does: `c0` before, `c1` after, `r` its result.
pub open spec fn ay_rel(c0: ConfiguredCore, c1: ConfiguredCore, r: Result<u32>) -> bool {
    &&& r == Ok::<u32, Exception>(c0.dar[ir_ay(c0.ir)])
    &&& c1 == c0
}

pub fn ay(core: &mut ConfiguredCore) -> (r: Result<u32>)
    ensures
        ay_rel(*old(core), *final(core), r),
{
    Ok(core.dar[reg_ay(core.ir)])
}

/// What `ax` does: `c0` before, `c1` after, `r` its result.
pub open spec fn ax_rel(c0: ConfiguredCore, c1: ConfiguredCore, r: Result<u32>) -> bool {
    &&& r == Ok::<u32, Exception>(c0.dar[ir_ax(c0.ir)])
    &&& c1 == c0
}

pub fn ax(core: &mut ConfiguredCore) -> (r: Result<u32>)
    ensures
        ax_rel(*old(core), *final(core), r),
{
    Ok(core.dar[reg_ax(core.ir)])
}

/// The quick operand of ADDQ and SUBQ: bits 9..11 of the instruction,
/// where 0 stands for 8.
pub open spec fn quick_value(ir: u16) -> u32 {
    ((((ir as u32) >> 9u32).wrapping_sub(1) & 7) + 1) as u32
}

/// What `quick` does: `c0` before, `c1` after, `r` its result.
pub open spec fn quick_rel(c0: ConfiguredCore, c1: ConfiguredCore, r: Result<u32>) -> bool {
    &&& r == Ok::<u32, Exception>(quick_value(c0.ir))
    &&& 1 <= quick_value(c0.ir) <= 8
    &&& c1 == c0
}

pub fn quick(core: &mut ConfiguredCore) -> (r: Result<u32>)
    ensures
        quick_rel(*old(core), *final(core), r),
{
    let q = ((core.ir as u32) >> 9).wrapping_sub(1);
    proof {
        lemma_low_bits(q);
    }
    Ok((q & 7) + 1)
}

} // verus!
