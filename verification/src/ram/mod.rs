use vstd::prelude::*;

pub mod pagedmem;
pub mod loggingmem;

verus! {

/// The address spaces a 68000 bus cycle can target, as told by its
/// function code.
#[derive(Clone, Copy, Debug, PartialEq, Eq, Structural)]
pub enum AddressSpace {
    UserData,
    UserProgram,
    SupervisorData,
    SupervisorProgram,
}

pub const USER_DATA: AddressSpace = AddressSpace::UserData;
pub const USER_PROGRAM: AddressSpace = AddressSpace::UserProgram;
pub const SUPERVISOR_DATA: AddressSpace = AddressSpace::SupervisorData;
pub const SUPERVISOR_PROGRAM: AddressSpace = AddressSpace::SupervisorProgram;

/// The 68000 drives 24 address lines.
pub const ADDRBUS_MASK: u32 = 0x00ff_ffff;

pub open spec fn spec_fc(space: AddressSpace) -> u8 {
    match space {
        AddressSpace::UserData => 1,
        AddressSpace::UserProgram => 2,
        AddressSpace::SupervisorData => 5,
        AddressSpace::SupervisorProgram => 6,
    }
}

impl AddressSpace {
    /// The function code (FC2..FC0) the processor emits for this space.
    pub fn fc(&self) -> (r: u8)
        ensures
            r == spec_fc(*self),
    {
        match self {
            AddressSpace::UserData => 1,
            AddressSpace::UserProgram => 2,
            AddressSpace::SupervisorData => 5,
            AddressSpace::SupervisorProgram => 6,
        }
    }
}

/// The name of an address space, as log entries write it.
pub open spec fn space_name(space: AddressSpace) -> Seq<char> {
    match space {
        AddressSpace::UserData => "UserData"@,
        AddressSpace::UserProgram => "UserProgram"@,
        AddressSpace::SupervisorData => "SupervisorData"@,
        AddressSpace::SupervisorProgram => "SupervisorProgram"@,
    }
}

impl AddressSpace {
    pub fn name(&self) -> (r: &'static str)
        ensures
            r@ == space_name(*self),
    {
        match self {
            AddressSpace::UserData => "UserData",
            AddressSpace::UserProgram => "UserProgram",
            AddressSpace::SupervisorData => "SupervisorData",
            AddressSpace::SupervisorProgram => "SupervisorProgram",
        }
    }
}

} // verus!
