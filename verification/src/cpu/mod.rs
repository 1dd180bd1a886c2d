use vstd::prelude::*;

pub mod effective_address;
pub mod operator;
pub mod ops;
use crate::interrupts::{AutoInterruptController, InterruptController};
use crate::ram::loggingmem::{LoggingMem, OpsLogger, OpsLogging, Operation, read_logged};
use crate::ram::pagedmem::{byte_stored, word_stored, long_stored, PagedMem};
use crate::ram::{AddressSpace, ADDRBUS_MASK, SUPERVISOR_DATA, SUPERVISOR_PROGRAM, USER_DATA, USER_PROGRAM, space_name};
use crate::text::{dec_text, lower_hex_padded, push_dec, push_lower_hex};
use crate::ram::pagedmem::{init_byte, same_cell};
use crate::interrupts::{top_level, AUTOVECTOR_BASE, SPURIOUS_INTERRUPT};
use crate::cpu::ops::handlers::{Handler, decoded, handler_effect};

verus! {

pub type Result<T> = std::result::Result<T, Exception>;

/// A count of clock cycles.
#[derive(Clone, Copy, Debug, PartialEq, Eq, Structural)]
pub struct Cycles(pub i32);

impl Cycles {
    pub fn any(self) -> (b: bool)
        ensures
            b == (self.0 > 0),
    {
        self.0 > 0
    }
}

#[derive(Clone, Copy, Debug, PartialEq, Eq, Structural)]
pub enum ProcessingState {
    Normal,  // Executing instructions
    Group2Exception,  // TRAP(V), CHK, ZeroDivide
    Group1Exception,  // Trace, Interrupt, IllegalInstruction, PrivilegeViolation
    Group0Exception,  // AddressError, BusError, ExternalReset
    Stopped,  // Trace, Interrupt or ExternalReset needed to resume
    Halted,  // ExternalReset needed to resume
}

impl ProcessingState {
    /// The processor is processing an instruction in the normal state and
    /// while processing a group 2 exception, not while processing a group 0
    /// or group 1 exception. This goes into a group 0 stack frame.
    pub open spec fn spec_instruction_processing(self) -> bool {
        self is Normal || self is Group2Exception
    }

    pub open spec fn spec_running(self) -> bool {
        !(self is Stopped || self is Halted)
    }

    pub fn instruction_processing(self) -> (b: bool)
        ensures
            b == self.spec_instruction_processing(),
    {
        match self {
            ProcessingState::Normal => true,
            ProcessingState::Group2Exception => true,
            _ => false,
        }
    }

    pub fn running(self) -> (b: bool)
        ensures
            b == self.spec_running(),
    {
        match self {
            ProcessingState::Stopped => false,
            ProcessingState::Halted => false,
            _ => true,
        }
    }
}

#[derive(Clone, Copy, Debug, PartialEq, Eq, Structural)]
pub enum AccessType {
    Read,
    Write,
}

#[derive(Clone, Copy, Debug, PartialEq, Eq, Structural)]
pub enum Exception {
    AddressError {
        address: u32,
        access_type: AccessType,
        processing_state: ProcessingState,
        address_space: AddressSpace,
    },
    IllegalInstruction(u16, u32),  // ir, pc
    Trap(u8, i32),  // trap no, exception cycles
    PrivilegeViolation(u16, u32),  // ir, pc
    UnimplementedInstruction(u16, u32, u8),  // ir, pc, vector no
    Interrupt(u8, u8),  // irq, vector no
}

/// The name of a processing state, as messages write it.
pub open spec fn state_name(state: ProcessingState) -> Seq<char> {
    match state {
        ProcessingState::Normal => "Normal"@,
        ProcessingState::Group2Exception => "Group2Exception"@,
        ProcessingState::Group1Exception => "Group1Exception"@,
        ProcessingState::Group0Exception => "Group0Exception"@,
        ProcessingState::Stopped => "Stopped"@,
        ProcessingState::Halted => "Halted"@,
    }
}

impl ProcessingState {
    pub fn name(&self) -> (r: &'static str)
        ensures
            r@ == state_name(*self),
    {
        match self {
            ProcessingState::Normal => "Normal",
            ProcessingState::Group2Exception => "Group2Exception",
            ProcessingState::Group1Exception => "Group1Exception",
            ProcessingState::Group0Exception => "Group0Exception",
            ProcessingState::Stopped => "Stopped",
            ProcessingState::Halted => "Halted",
        }
    }
}

/// The name of an access type, as messages write it.
pub open spec fn access_name(access: AccessType) -> Seq<char> {
    match access {
        AccessType::Read => "Read"@,
        AccessType::Write => "Write"@,
    }
}

impl AccessType {
    pub fn name(&self) -> (r: &'static str)
        ensures
            r@ == access_name(*self),
    {
        match self {
            AccessType::Read => "Read",
            AccessType::Write => "Write",
        }
    }
}

/// The message an exception is reported with.
pub open spec fn exception_text(e: Exception) -> Seq<char> {
    match e {
        Exception::AddressError { address, access_type, processing_state, address_space } =>
            "Address Error: "@ + access_name(access_type) + " "@ + space_name(address_space)
            + " at "@ + lower_hex_padded(address as nat, 8) + " during "@ + state_name(
            processing_state,
        ) + " processing"@,
        Exception::IllegalInstruction(ir, pc) => "Illegal Instruction "@ + lower_hex_padded(
            ir as nat,
            4,
        ) + " at "@ + lower_hex_padded(pc as nat, 8),
        Exception::Trap(num, cycles) => "Trap: "@ + lower_hex_padded(num as nat, 2)
            + " (ea cyc "@ + dec_text(cycles as int) + ")"@,
        Exception::PrivilegeViolation(ir, pc) => "Privilege Violation "@ + lower_hex_padded(
            ir as nat,
            4,
        ) + " at "@ + lower_hex_padded(pc as nat, 8),
        Exception::UnimplementedInstruction(ir, pc, _) => "Unimplemented Instruction "@
            + lower_hex_padded(ir as nat, 4) + " at "@ + lower_hex_padded(pc as nat, 8),
        Exception::Interrupt(irq, vector) => "Interrupt "@ + lower_hex_padded(irq as nat, 1)
            + " (vector "@ + lower_hex_padded(vector as nat, 2) + ")"@,
    }
}

/// The kind of an exception in a few words.
pub open spec fn exception_description(e: Exception) -> Seq<char> {
    match e {
        Exception::AddressError { .. } => "Address Error"@,
        Exception::IllegalInstruction(_, _) => "Illegal Instruction"@,
        Exception::Trap(_, _) => "Trap"@,
        Exception::PrivilegeViolation(_, _) => "PrivilegeViolation"@,
        Exception::UnimplementedInstruction(_, _, _) => "UnimplementedInstruction"@,
        Exception::Interrupt(_, _) => "Interrupt"@,
    }
}

fn push_ir_at_pc(s: &mut String, what: &str, ir: u16, pc: u32)
    ensures
        final(s)@ == old(s)@ + what@ + lower_hex_padded(ir as nat, 4) + " at "@ + lower_hex_padded(
            pc as nat,
            8,
        ),
{
    s.append(what);
    push_lower_hex(s, ir as u32, 4);
    s.append(" at ");
    push_lower_hex(s, pc, 8);
    assert(s@ =~= old(s)@ + what@ + lower_hex_padded(ir as nat, 4) + " at "@ + lower_hex_padded(
        pc as nat,
        8,
    ));
}

impl Exception {
    /// The message the exception is reported with.
    pub fn to_string(&self) -> (r: String)
        ensures
            r@ == exception_text(*self),
    {
        let mut s = String::new();
        match *self {
            Exception::AddressError { address, access_type, processing_state, address_space } => {
                s.append("Address Error: ");
                s.append(access_type.name());
                s.append(" ");
                s.append(address_space.name());
                s.append(" at ");
                push_lower_hex(&mut s, address, 8);
                s.append(" during ");
                s.append(processing_state.name());
                s.append(" processing");
            },
            Exception::IllegalInstruction(ir, pc) => push_ir_at_pc(&mut s, "Illegal Instruction ", ir, pc),
            Exception::Trap(num, cycles) => {
                s.append("Trap: ");
                push_lower_hex(&mut s, num as u32, 2);
                s.append(" (ea cyc ");
                push_dec(&mut s, cycles);
                s.append(")");
            },
            Exception::PrivilegeViolation(ir, pc) => push_ir_at_pc(&mut s, "Privilege Violation ", ir, pc),
            Exception::UnimplementedInstruction(ir, pc, _) => push_ir_at_pc(
                &mut s,
                "Unimplemented Instruction ",
                ir,
                pc,
            ),
            Exception::Interrupt(irq, vector) => {
                s.append("Interrupt ");
                push_lower_hex(&mut s, irq as u32, 1);
                s.append(" (vector ");
                push_lower_hex(&mut s, vector as u32, 2);
                s.append(")");
            },
        }
        assert(s@ =~= exception_text(*self));
        s
    }

    /// The kind of the exception in a few words.
    pub fn description(&self) -> (r: &'static str)
        ensures
            r@ == exception_description(*self),
    {
        match *self {
            Exception::AddressError { .. } => "Address Error",
            Exception::IllegalInstruction(_, _) => "Illegal Instruction",
            Exception::Trap(_, _) => "Trap",
            Exception::PrivilegeViolation(_, _) => "PrivilegeViolation",
            Exception::UnimplementedInstruction(_, _, _) => "UnimplementedInstruction",
            Exception::Interrupt(_, _) => "Interrupt",
        }
    }
}

// Flag representation (as in Musashi): the flags are kept as the
// intermediate values of the last operation that set them.
pub const SFLAG_SET: u32 = 0x04;
pub const XFLAG_SET: u32 = 0x100;
pub const ZFLAG_SET: u32 = 0x00;
pub const NFLAG_SET: u32 = 0x80;
pub const VFLAG_SET: u32 = 0x80;
pub const CFLAG_SET: u32 = 0x100;
pub const CPU_SR_MASK: u16 = 0xa71f;  /* T1 -- S  -- -- I2 I1 I0 -- -- -- X  N  Z  V  C  */
pub const CPU_SR_INT_MASK: u32 = 0x0700;

pub const VFLAG_CLEAR: u32 = 0x00;
pub const XFLAG_CLEAR: u32 = 0x00;
pub const NFLAG_CLEAR: u32 = 0x00;
pub const CFLAG_CLEAR: u32 = 0x00;
pub const SFLAG_CLEAR: u32 = 0x00;
pub const ZFLAG_CLEAR: u32 = 0xffff_ffff;  // used as "non-z-flag"

// Exception vectors
pub const EXCEPTION_ADDRESS_ERROR: u8 = 3;
pub const EXCEPTION_ILLEGAL_INSTRUCTION: u8 = 4;
pub const EXCEPTION_ZERO_DIVIDE: u8 = 5;
pub const EXCEPTION_CHK: u8 = 6;
pub const EXCEPTION_TRAPV: u8 = 7;
pub const EXCEPTION_PRIVILEGE_VIOLATION: u8 = 8;
pub const EXCEPTION_UNIMPLEMENTED_1010: u8 = 10;
pub const EXCEPTION_UNIMPLEMENTED_1111: u8 = 11;
pub const EXCEPTION_TRAP_BASE: u8 = 32;

pub const STACK_POINTER_REG: usize = 15;

/// The program counter together with the long word that the prefetch
/// queue holds and the (long-aligned) address it was read from.
pub struct Prefetch {
    pub pc: u32,
    pub addr: u32,
    pub data: u32,
}

/// `x + 2` on a 32-bit register, wrapping around.
pub open spec fn plus2(x: u32) -> u32 {
    if x as int + 2 > u32::MAX {
        (x as int + 2 - 0x1_0000_0000) as u32
    } else {
        (x + 2) as u32
    }
}

/// `x - k` on a 32-bit register, wrapping around.
pub open spec fn wsub(x: u32, k: u32) -> u32 {
    if x >= k {
        (x - k) as u32
    } else {
        (x as int + 0x1_0000_0000 - k) as u32
    }
}

/// `x + k` on a 32-bit register, wrapping around.
pub open spec fn wadd(x: u32, k: u32) -> u32 {
    if x as int + k as int > u32::MAX {
        (x as int + k as int - 0x1_0000_0000) as u32
    } else {
        (x + k) as u32
    }
}

/// Facts on the low bits of a register that the arithmetic relies on.
pub proof fn lemma_low_bits(x: u32)
    by (bit_vector)
    ensures
        x & 0 == 0,
        0u32 << 8u32 == 0,
        x & 1 == x % 2,
        x & 7 <= 7,
        x & 0xf <= 0xf,
        x & 0x1f <= 0x1f,
        x & 0xf0 <= 0xf0,
        x & 0xff <= 0xff,
        x & 0xffff <= 0xffff,
{
}

pub proof fn lemma_parity(x: u32)
    ensures
        x & 1 == x % 2,
{
    lemma_low_bits(x);
}

/// The lane of the prefetched long word that a word fetch at `pc` reads.
proof fn lemma_word_lane(pc: u32, data: u32)
    by (bit_vector)
    ensures
        pc & 2 <= 2,
        pc & 2 == 0 || pc & 2 == 2,
        pc & 2 == 0 ==> ((2 - (pc & 2)) as u32) << 3u32 == 16u32,
        pc & 2 == 2 ==> ((2 - (pc & 2)) as u32) << 3u32 == 0u32,
        (data >> 16u32) & 0xffff == data >> 16u32,
        (data >> 0u32) & 0xffff == data & 0xffff,
{
}

/// How the program counter moves across prefetched long words when it
/// advances by two, and how two words make up a long word.
proof fn lemma_next_lane(pc: u32, next: u32, dd: u32, d2: u32)
    by (bit_vector)
    requires
        pc & 1 == 0,
        next == (if pc as int + 2 > u32::MAX { (pc as int + 2 - 0x1_0000_0000) as u32 } else { (pc + 2) as u32 }),
    ensures
        pc & 2 == 0 || pc & 2 == 2,
        pc & 2 == 0 ==> next & !3u32 == pc & !3u32 && next & 2 == 2,
        pc & 2 == 2 ==> next & !3u32 != pc & !3u32 && next & 2 == 0,
        ((dd >> 16u32) as u16) as int * 0x1_0000 + ((dd & 0xffff) as u16) as int == dd,
        ((dd & 0xffff) as u16) as int * 0x1_0000 + ((d2 >> 16u32) as u16) as int == (dd << 16u32) | (d2 >> 16u32),
{
}

/// The register fields of an instruction word.
pub(crate) proof fn lemma_ir_fields(ir: u16)
    ensures
        (ir >> 9u16) & 7 < 8,
        ir & 7 < 8,
{
    crate::dasm::lemma_ea_fields(ir);
}

/// Whether an instruction word fetch at the program counter must read a new
/// long word into the prefetch queue.
pub open spec fn fetch_needed(p: Prefetch) -> bool {
    p.pc & !3u32 != p.addr
}

/// One instruction word fetch: the queue is refilled from the long-aligned
/// address of the program counter when it holds another long word, the word
/// at the program counter is taken from it, and the program counter moves
/// on by two.
/// The log after a word fetch with queue `p`: a read of the long word at
/// the aligned program counter is logged when the queue must be refilled.
pub open spec fn fetch_log(log: Seq<Operation>, space: AddressSpace, mem: PagedMem, p: Prefetch) -> Seq<Operation> {
    if fetch_needed(p) {
        log.push(Operation::ReadLong(space, (p.pc & !3u32) & ADDRBUS_MASK, mem.long(p.pc & !3u32)))
    } else {
        log
    }
}

pub open spec fn fetch16(mem: PagedMem, p: Prefetch) -> (Prefetch, u16) {
    let aligned = p.pc & !3u32;
    let data = if fetch_needed(p) {
        mem.long(aligned)
    } else {
        p.data
    };
    let w = if p.pc & 2 == 0 {
        data >> 16u32
    } else {
        data & 0xffff
    };
    (Prefetch { pc: plus2(p.pc), addr: aligned, data }, w as u16)
}

/// Two instruction word fetches, giving the big-endian long word.
pub open spec fn fetch32(mem: PagedMem, p: Prefetch) -> (Prefetch, u32) {
    let (p1, hi) = fetch16(mem, p);
    let (p2, lo) = fetch16(mem, p1);
    (p2, (hi as int * 0x1_0000 + lo as int) as u32)
}

pub struct ConfiguredCore {
    pub pc: u32,
    pub inactive_ssp: u32,  // when in user mode
    pub inactive_usp: u32,  // when in supervisor mode
    pub ir: u16,
    pub dar: [u32; 16],
    pub s_flag: u32,
    pub irq_level: u8,
    pub int_mask: u32,
    pub int_ctrl: AutoInterruptController,
    pub x_flag: u32,
    pub c_flag: u32,
    pub v_flag: u32,
    pub n_flag: u32,
    pub prefetch_addr: u32,
    pub prefetch_data: u32,
    pub not_z_flag: u32,
    pub processing_state: ProcessingState,
    pub mem: LoggingMem<OpsLogger>,
    /// The handler of every instruction word, indexed by the word.
    pub instruction_set: Vec<Handler>,
}

pub type TestCore = ConfiguredCore;

/// The register numbers that the instruction register names: Dx (bits
/// 9..11), Dy (bits 0..2), and Ax, Ay (the same bits, address registers).
pub open spec fn ir_dx(ir: u16) -> int {
    ((ir >> 9u16) & 7) as int
}

pub open spec fn ir_dy(ir: u16) -> int {
    (ir & 7) as int
}

pub open spec fn ir_ax(ir: u16) -> int {
    8 + ir_dx(ir)
}

pub open spec fn ir_ay(ir: u16) -> int {
    8 + ir_dy(ir)
}

pub fn reg_dx(ir: u16) -> (r: usize)
    ensures
        r == ir_dx(ir),
        r < 8,
{
    proof { lemma_ir_fields(ir); }
    ((ir >> 9) & 7) as usize
}

pub fn reg_dy(ir: u16) -> (r: usize)
    ensures
        r == ir_dy(ir),
        r < 8,
{
    proof { lemma_ir_fields(ir); }
    (ir & 7) as usize
}

pub fn reg_ax(ir: u16) -> (r: usize)
    ensures
        r == ir_ax(ir),
        8 <= r < 16,
{
    8 + reg_dx(ir)
}

pub fn reg_ay(ir: u16) -> (r: usize)
    ensures
        r == ir_ay(ir),
        8 <= r < 16,
{
    8 + reg_dy(ir)
}

/// The value a read of `size` bits (8, 16 or 32) at `address` gives.
pub open spec fn mem_value(mem: PagedMem, size: u32, address: u32) -> u32 {
    if size == 8 {
        mem.byte(address) as u32
    } else if size == 16 {
        mem.word(address)
    } else {
        mem.long(address)
    }
}

/// What pushing a long word does: the stack pointer moves down by four and
/// `value` is stored there.
pub open spec fn pushed_32(c0: ConfiguredCore, c1: ConfiguredCore, value: u32) -> bool {
    let new_sp = wsub(c0.dar[15], 4);
    &&& c1.dar@ == c0.dar@.update(15, new_sp)
    &&& c1.wf()
    &&& c1.mem.init() == c0.mem.init()
    &&& long_stored(c0.mem.memory(), c1.mem.memory(), new_sp, value)
    &&& c1.mem.logged() == c0.mem.logged().push(Operation::WriteLong(c0.data_space(), new_sp & ADDRBUS_MASK, value))
    &&& c1 == (ConfiguredCore { dar: c1.dar, mem: c1.mem, ..c0 })
}

/// What pushing a word does: the stack pointer moves down by two and
/// `value` is stored there.
pub open spec fn pushed_16(c0: ConfiguredCore, c1: ConfiguredCore, value: u16) -> bool {
    let new_sp = wsub(c0.dar[15], 2);
    &&& c1.dar@ == c0.dar@.update(15, new_sp)
    &&& c1.wf()
    &&& c1.mem.init() == c0.mem.init()
    &&& word_stored(c0.mem.memory(), c1.mem.memory(), new_sp, value as u32)
    &&& c1.mem.logged() == c0.mem.logged().push(Operation::WriteWord(c0.data_space(), new_sp & ADDRBUS_MASK, value as u32))
    &&& c1 == (ConfiguredCore { dar: c1.dar, mem: c1.mem, ..c0 })
}

/// What popping a long word does: it is read at the stack pointer, which
/// then moves up by four.
pub open spec fn popped_32(c0: ConfiguredCore, c1: ConfiguredCore, data: u32) -> bool {
    &&& data == c0.mem.memory().long(c0.dar[15])
    &&& c1.dar@ == c0.dar@.update(15, wadd(c0.dar[15], 4))
    &&& read_logged(c0.mem, c1.mem, Operation::ReadLong(c0.data_space(), c0.dar[15] & ADDRBUS_MASK, data))
    &&& c1 == (ConfiguredCore { dar: c1.dar, mem: c1.mem, ..c0 })
}

/// What popping a word does: it is read at the stack pointer, which then
/// moves up by two.
pub open spec fn popped_16(c0: ConfiguredCore, c1: ConfiguredCore, data: u16) -> bool {
    &&& data == c0.mem.memory().word(c0.dar[15]) as u16
    &&& c1.dar@ == c0.dar@.update(15, wadd(c0.dar[15], 2))
    &&& read_logged(c0.mem, c1.mem, Operation::ReadWord(c0.data_space(), c0.dar[15] & ADDRBUS_MASK, data))
    &&& c1 == (ConfiguredCore { dar: c1.dar, mem: c1.mem, ..c0 })
}

/// `c1` is `c0` with the flags and the mode set from the status register
/// value `sr`, the stack pointers trading places on a change of mode.
pub open spec fn sr_set(c0: ConfiguredCore, c1: ConfiguredCore, sr: u16) -> bool {
    &&& c1.dar@ == c0.dar@.update(15, c0.spec_sp_after_sr(sr))
    &&& c1 == (ConfiguredCore { dar: c1.dar, ..c0.spec_sr_to_flags(sr) })
}

/// What a data write of `size` bits does: an address error for a word or
/// long word at an odd address, with nothing changed; otherwise the value is
/// stored, the write is logged, and every register is kept.
pub open spec fn data_written(c0: ConfiguredCore, c1: ConfiguredCore, size: u32, address: u32, value: u32, r: Result<()>) -> bool {
    if size != 8 && address & 1 != 0 {
        r == Err::<(), Exception>(c0.address_error(address, AccessType::Write, c0.data_space())) && c1 == c0
    } else {
        &&& r == Ok::<(), Exception>(())
        &&& c1.wf()
        &&& c1.mem.init() == c0.mem.init()
        &&& if size == 8 {
            byte_stored(c0.mem.memory(), c1.mem.memory(), address, value)
        } else if size == 16 {
            word_stored(c0.mem.memory(), c1.mem.memory(), address, value)
        } else {
            long_stored(c0.mem.memory(), c1.mem.memory(), address, value)
        }
        &&& c1.mem.logged() == c0.mem.logged().push(
            if size == 8 {
                Operation::WriteByte(c0.data_space(), address & ADDRBUS_MASK, value)
            } else if size == 16 {
                Operation::WriteWord(c0.data_space(), address & ADDRBUS_MASK, value)
            } else {
                Operation::WriteLong(c0.data_space(), address & ADDRBUS_MASK, value)
            },
        )
        &&& c1 == c0.with_mem(c1.mem)
    }
}

impl ConfiguredCore {
    pub open spec fn wf(&self) -> bool {
        &&& self.mem.wf()
        &&& self.s_flag == SFLAG_CLEAR || self.s_flag == SFLAG_SET
        &&& self.int_mask & 0xff == 0 && self.int_mask <= 0xff00
    }

    /// The space that data accesses go to in the current mode.
    pub open spec fn data_space(&self) -> AddressSpace {
        if self.s_flag != 0 {
            SUPERVISOR_DATA
        } else {
            USER_DATA
        }
    }

    /// The space that program accesses go to in the current mode.
    pub open spec fn program_space(&self) -> AddressSpace {
        if self.s_flag != 0 {
            SUPERVISOR_PROGRAM
        } else {
            USER_PROGRAM
        }
    }

    /// The address error that an access at `address` raises now.
    pub open spec fn address_error(
        &self,
        address: u32,
        access_type: AccessType,
        address_space: AddressSpace,
    ) -> Exception {
        Exception::AddressError {
            address,
            access_type,
            address_space,
            processing_state: self.processing_state,
        }
    }

    /// The state with memory replaced and every register kept.
    pub open spec fn with_mem(&self, mem: LoggingMem<OpsLogger>) -> ConfiguredCore {
        ConfiguredCore { mem, ..*self }
    }

    fn data_space_exec(&self) -> (r: AddressSpace)
        ensures
            r == self.data_space(),
    {
        if self.s_flag != 0 {
            SUPERVISOR_DATA
        } else {
            USER_DATA
        }
    }

    fn program_space_exec(&self) -> (r: AddressSpace)
        ensures
            r == self.program_space(),
    {
        if self.s_flag != 0 {
            SUPERVISOR_PROGRAM
        } else {
            USER_PROGRAM
        }
    }

    pub fn read_data_byte(&mut self, address: u32) -> (r: Result<u32>)
        requires
            old(self).wf(),
        ensures
            r == Ok::<u32, Exception>(old(self).mem.byte(address) as u32),
            read_logged(
                old(self).mem,
                final(self).mem,
                Operation::ReadByte(old(self).data_space(), address & ADDRBUS_MASK, old(self).mem.byte(address)),
            ),
            *final(self) == old(self).with_mem(final(self).mem),
    {
        let address_space = self.data_space_exec();
        Ok(self.mem.read_byte(address_space, address))
    }

    pub fn read_program_byte(&mut self, address: u32) -> (r: Result<u32>)
        requires
            old(self).wf(),
        ensures
            r == Ok::<u32, Exception>(old(self).mem.byte(address) as u32),
            read_logged(
                old(self).mem,
                final(self).mem,
                Operation::ReadByte(old(self).program_space(), address & ADDRBUS_MASK, old(self).mem.byte(address)),
            ),
            *final(self) == old(self).with_mem(final(self).mem),
    {
        let address_space = self.program_space_exec();
        Ok(self.mem.read_byte(address_space, address))
    }

    pub fn write_data_byte(&mut self, address: u32, value: u32) -> (r: Result<()>)
        requires
            old(self).wf(),
        ensures
            data_written(*old(self), *final(self), 8, address, value, r),
            r == Ok::<(), Exception>(()),
            final(self).wf(),
            final(self).mem.init() == old(self).mem.init(),
            byte_stored(old(self).mem.memory(), final(self).mem.memory(), address, value),
            final(self).mem.logged() == old(self).mem.logged().push(
                Operation::WriteByte(old(self).data_space(), address & ADDRBUS_MASK, value),
            ),
            *final(self) == old(self).with_mem(final(self).mem),
    {
        let address_space = self.data_space_exec();
        self.mem.write_byte(address_space, address, value);
        Ok(())
    }

    pub fn write_program_byte(&mut self, address: u32, value: u32) -> (r: Result<()>)
        requires
            old(self).wf(),
        ensures
            r == Ok::<(), Exception>(()),
            final(self).wf(),
            final(self).mem.init() == old(self).mem.init(),
            byte_stored(old(self).mem.memory(), final(self).mem.memory(), address, value),
            final(self).mem.logged() == old(self).mem.logged().push(
                Operation::WriteByte(old(self).program_space(), address & ADDRBUS_MASK, value),
            ),
            *final(self) == old(self).with_mem(final(self).mem),
    {
        let address_space = self.program_space_exec();
        self.mem.write_byte(address_space, address, value);
        Ok(())
    }

    pub fn read_data_word(&mut self, address: u32) -> (r: Result<u32>)
        requires
            old(self).wf(),
        ensures
            address & 1 != 0 ==> r == Err::<u32, Exception>(
                old(self).address_error(address, AccessType::Read, old(self).data_space()),
            ) && *final(self) == *old(self),
            address & 1 == 0 ==> r == Ok::<u32, Exception>(old(self).mem.memory().word(address))
                && read_logged(
                old(self).mem,
                final(self).mem,
                Operation::ReadWord(old(self).data_space(), address & ADDRBUS_MASK, old(self).mem.memory().word(address) as u16),
            ) && *final(self) == old(self).with_mem(final(self).mem),
    {
        let address_space = self.data_space_exec();
        if address & 1 > 0 {
            Err(Exception::AddressError {
                address,
                access_type: AccessType::Read,
                address_space,
                processing_state: self.processing_state,
            })
        } else {
            Ok(self.mem.read_word(address_space, address))
        }
    }

    pub fn write_data_word(&mut self, address: u32, value: u32) -> (r: Result<()>)
        requires
            old(self).wf(),
        ensures
            data_written(*old(self), *final(self), 16, address, value, r),
            address & 1 != 0 ==> r == Err::<(), Exception>(
                old(self).address_error(address, AccessType::Write, old(self).data_space()),
            ) && *final(self) == *old(self),
            address & 1 == 0 ==> r == Ok::<(), Exception>(()) && final(self).wf()
                && final(self).mem.init() == old(self).mem.init()
                && word_stored(old(self).mem.memory(), final(self).mem.memory(), address, value)
                && final(self).mem.logged() == old(self).mem.logged().push(
                Operation::WriteWord(old(self).data_space(), address & ADDRBUS_MASK, value),
            ) && *final(self) == old(self).with_mem(final(self).mem),
    {
        let address_space = self.data_space_exec();
        if address & 1 > 0 {
            Err(Exception::AddressError {
                address,
                access_type: AccessType::Write,
                address_space,
                processing_state: self.processing_state,
            })
        } else {
            self.mem.write_word(address_space, address, value);
            Ok(())
        }
    }

    pub fn read_program_word(&mut self, address: u32) -> (r: Result<u32>)
        requires
            old(self).wf(),
        ensures
            address & 1 != 0 ==> r == Err::<u32, Exception>(
                old(self).address_error(address, AccessType::Read, old(self).program_space()),
            ) && *final(self) == *old(self),
            address & 1 == 0 ==> r == Ok::<u32, Exception>(old(self).mem.memory().word(address))
                && read_logged(
                old(self).mem,
                final(self).mem,
                Operation::ReadWord(old(self).program_space(), address & ADDRBUS_MASK, old(self).mem.memory().word(address) as u16),
            ) && *final(self) == old(self).with_mem(final(self).mem),
    {
        let address_space = self.program_space_exec();
        if address & 1 > 0 {
            Err(Exception::AddressError {
                address,
                access_type: AccessType::Read,
                address_space,
                processing_state: self.processing_state,
            })
        } else {
            Ok(self.mem.read_word(address_space, address))
        }
    }

    pub fn write_program_word(&mut self, address: u32, value: u32) -> (r: Result<()>)
        requires
            old(self).wf(),
        ensures
            address & 1 != 0 ==> r == Err::<(), Exception>(
                old(self).address_error(address, AccessType::Write, old(self).program_space()),
            ) && *final(self) == *old(self),
            address & 1 == 0 ==> r == Ok::<(), Exception>(()) && final(self).wf()
                && final(self).mem.init() == old(self).mem.init()
                && word_stored(old(self).mem.memory(), final(self).mem.memory(), address, value)
                && final(self).mem.logged() == old(self).mem.logged().push(
                Operation::WriteWord(old(self).program_space(), address & ADDRBUS_MASK, value),
            ) && *final(self) == old(self).with_mem(final(self).mem),
    {
        let address_space = self.program_space_exec();
        if address & 1 > 0 {
            Err(Exception::AddressError {
                address,
                access_type: AccessType::Write,
                address_space,
                processing_state: self.processing_state,
            })
        } else {
            self.mem.write_word(address_space, address, value);
            Ok(())
        }
    }

    pub fn read_data_long(&mut self, address: u32) -> (r: Result<u32>)
        requires
            old(self).wf(),
        ensures
            address & 1 != 0 ==> r == Err::<u32, Exception>(
                old(self).address_error(address, AccessType::Read, old(self).data_space()),
            ) && *final(self) == *old(self),
            address & 1 == 0 ==> r == Ok::<u32, Exception>(old(self).mem.memory().long(address))
                && read_logged(
                old(self).mem,
                final(self).mem,
                Operation::ReadLong(old(self).data_space(), address & ADDRBUS_MASK, old(self).mem.memory().long(address)),
            ) && *final(self) == old(self).with_mem(final(self).mem),
    {
        let address_space = self.data_space_exec();
        if address & 1 > 0 {
            Err(Exception::AddressError {
                address,
                access_type: AccessType::Read,
                address_space,
                processing_state: self.processing_state,
            })
        } else {
            Ok(self.mem.read_long(address_space, address))
        }
    }

    pub fn write_data_long(&mut self, address: u32, value: u32) -> (r: Result<()>)
        requires
            old(self).wf(),
        ensures
            data_written(*old(self), *final(self), 32, address, value, r),
            address & 1 != 0 ==> r == Err::<(), Exception>(
                old(self).address_error(address, AccessType::Write, old(self).data_space()),
            ) && *final(self) == *old(self),
            address & 1 == 0 ==> r == Ok::<(), Exception>(()) && final(self).wf()
                && final(self).mem.init() == old(self).mem.init()
                && long_stored(old(self).mem.memory(), final(self).mem.memory(), address, value)
                && final(self).mem.logged() == old(self).mem.logged().push(
                Operation::WriteLong(old(self).data_space(), address & ADDRBUS_MASK, value),
            ) && *final(self) == old(self).with_mem(final(self).mem),
    {
        let address_space = self.data_space_exec();
        if address & 1 > 0 {
            Err(Exception::AddressError {
                address,
                access_type: AccessType::Write,
                address_space,
                processing_state: self.processing_state,
            })
        } else {
            self.mem.write_long(address_space, address, value);
            Ok(())
        }
    }

    pub fn read_program_long(&mut self, address: u32) -> (r: Result<u32>)
        requires
            old(self).wf(),
        ensures
            address & 1 != 0 ==> r == Err::<u32, Exception>(
                old(self).address_error(address, AccessType::Read, old(self).program_space()),
            ) && *final(self) == *old(self),
            address & 1 == 0 ==> r == Ok::<u32, Exception>(old(self).mem.memory().long(address))
                && read_logged(
                old(self).mem,
                final(self).mem,
                Operation::ReadLong(old(self).program_space(), address & ADDRBUS_MASK, old(self).mem.memory().long(address)),
            ) && *final(self) == old(self).with_mem(final(self).mem),
    {
        let address_space = self.program_space_exec();
        if address & 1 > 0 {
            Err(Exception::AddressError {
                address,
                access_type: AccessType::Read,
                address_space,
                processing_state: self.processing_state,
            })
        } else {
            Ok(self.mem.read_long(address_space, address))
        }
    }

    pub fn write_program_long(&mut self, address: u32, value: u32) -> (r: Result<()>)
        requires
            old(self).wf(),
        ensures
            address & 1 != 0 ==> r == Err::<(), Exception>(
                old(self).address_error(address, AccessType::Write, old(self).program_space()),
            ) && *final(self) == *old(self),
            address & 1 == 0 ==> r == Ok::<(), Exception>(()) && final(self).wf()
                && final(self).mem.init() == old(self).mem.init()
                && long_stored(old(self).mem.memory(), final(self).mem.memory(), address, value)
                && final(self).mem.logged() == old(self).mem.logged().push(
                Operation::WriteLong(old(self).program_space(), address & ADDRBUS_MASK, value),
            ) && *final(self) == old(self).with_mem(final(self).mem),
    {
        let address_space = self.program_space_exec();
        if address & 1 > 0 {
            Err(Exception::AddressError {
                address,
                access_type: AccessType::Write,
                address_space,
                processing_state: self.processing_state,
            })
        } else {
            self.mem.write_long(address_space, address, value);
            Ok(())
        }
    }

    /// The status register: T1 -- S -- -- I2 I1 I0 -- -- -- X N Z V C.
    pub open spec fn spec_status_register(&self) -> u16 {
        ((self.s_flag << 11u32) | self.int_mask | ((self.x_flag & XFLAG_SET) >> 4u32) | ((
        self.n_flag & NFLAG_SET) >> 4u32) | ((if self.not_z_flag == 0 {
            1u32
        } else {
            0u32
        }) << 2u32) | ((self.v_flag & VFLAG_SET) >> 6u32) | ((self.c_flag & CFLAG_SET) >> 8u32)) as u16
    }

    pub fn status_register(&self) -> (r: u16)
        ensures
            r == self.spec_status_register(),
    {
        let z: u32 = if self.not_z_flag == 0 {
            1
        } else {
            0
        };
        ((self.s_flag << 11) | self.int_mask | ((self.x_flag & XFLAG_SET) >> 4) | ((self.n_flag
            & NFLAG_SET) >> 4) | (z << 2) | ((self.v_flag & VFLAG_SET) >> 6) | ((self.c_flag
            & CFLAG_SET) >> 8)) as u16
    }

    pub fn condition_code_register(&self) -> (r: u16)
        ensures
            r == self.spec_status_register() & 0xff,
    {
        self.status_register() & 0xff
    }

    /// The user stack pointer, wherever it is kept in the current mode.
    pub fn usp(&self) -> (r: u32)
        ensures
            r == user_stack(*self),
    {
        if self.s_flag > 0 {
            self.inactive_usp
        } else {
            self.dar[15]
        }
    }

    /// The supervisor stack pointer, wherever it is kept in the current mode.
    pub fn ssp(&self) -> (r: u32)
        ensures
            r == supervisor_stack(*self),
    {
        if self.s_flag > 0 {
            self.dar[15]
        } else {
            self.inactive_ssp
        }
    }

    /// The state after the flags are set from a status register value; when
    /// the S bit changes, the active and inactive stack pointers trade places.
    pub open spec fn spec_sr_to_flags(&self, sr: u16) -> ConfiguredCore {
        let sr = (sr & CPU_SR_MASK) as u32;
        let s = (sr >> 11u32) & SFLAG_SET;
        let flagged = ConfiguredCore {
            int_mask: sr & CPU_SR_INT_MASK,
            s_flag: s,
            x_flag: (sr << 4u32) & XFLAG_SET,
            n_flag: (sr << 4u32) & NFLAG_SET,
            not_z_flag: if sr & 0b00100 == 0 {
                1
            } else {
                0
            },
            v_flag: (sr << 6u32) & VFLAG_SET,
            c_flag: (sr << 8u32) & CFLAG_SET,
            ..*self
        };
        if self.s_flag != s {
            if s == SFLAG_SET {
                ConfiguredCore { inactive_usp: self.dar[15], ..flagged }
            } else {
                ConfiguredCore { inactive_ssp: self.dar[15], ..flagged }
            }
        } else {
            flagged
        }
    }

    /// The value that the active stack pointer takes after `sr_to_flags(sr)`.
    pub open spec fn spec_sp_after_sr(&self, sr: u16) -> u32 {
        let s = (((sr & CPU_SR_MASK) as u32) >> 11u32) & SFLAG_SET;
        if self.s_flag != s {
            if s == SFLAG_SET {
                self.inactive_ssp
            } else {
                self.inactive_usp
            }
        } else {
            self.dar[15]
        }
    }

    pub fn sr_to_flags(&mut self, sr: u16)
        ensures
            old(self).mem.wf() ==> final(self).wf(),
            sr_set(*old(self), *final(self), sr),
            final(self).dar@ == old(self).dar@.update(15, old(self).spec_sp_after_sr(sr)),
            *final(self) == (ConfiguredCore { dar: final(self).dar, ..old(self).spec_sr_to_flags(sr) }),
    {
        let ghost sr_in = sr;
        proof {
            lemma_mode_fields(sr, 0);
        }
        let sr = (sr & CPU_SR_MASK) as u32;
        let old_sflag = self.s_flag;
        self.int_mask = sr & CPU_SR_INT_MASK;
        self.s_flag = (sr >> 11) & SFLAG_SET;
        self.x_flag = (sr << 4) & XFLAG_SET;
        self.n_flag = (sr << 4) & NFLAG_SET;
        self.not_z_flag = if sr & 0b00100 == 0 {
            1
        } else {
            0
        };
        self.v_flag = (sr << 6) & VFLAG_SET;
        self.c_flag = (sr << 8) & CFLAG_SET;
        if old_sflag != self.s_flag {
            if self.s_flag == SFLAG_SET {
                self.inactive_usp = self.dar[15];
                self.dar[15] = self.inactive_ssp;
            } else {
                self.inactive_ssp = self.dar[15];
                self.dar[15] = self.inactive_usp;
            }
        }
        assert(self.dar@ =~= old(self).dar@.update(15, old(self).spec_sp_after_sr(sr_in)));
    }

    pub open spec fn prefetch(&self) -> Prefetch {
        Prefetch { pc: self.pc, addr: self.prefetch_addr, data: self.prefetch_data }
    }

    /// The state after the prefetch queue and program counter become `p`,
    /// with memory replaced by `mem`.
    pub open spec fn with_prefetch(&self, p: Prefetch, mem: LoggingMem<OpsLogger>) -> ConfiguredCore {
        ConfiguredCore { pc: p.pc, prefetch_addr: p.addr, prefetch_data: p.data, mem, ..*self }
    }

    /// The log after one instruction word fetch.
    pub open spec fn fetch16_logged(&self) -> Seq<Operation> {
        if fetch_needed(self.prefetch()) {
            self.mem.logged().push(
                Operation::ReadLong(
                    self.program_space(),
                    (self.pc & !3u32) & ADDRBUS_MASK,
                    self.mem.memory().long(self.pc & !3u32),
                ),
            )
        } else {
            self.mem.logged()
        }
    }

    fn prefetch_if_needed(&mut self) -> (fetched: bool)
        requires
            old(self).wf(),
        ensures
            fetched == fetch_needed(old(self).prefetch()),
            final(self).wf(),
            final(self).mem.init() == old(self).mem.init(),
            final(self).mem.memory() == old(self).mem.memory(),
            final(self).mem.logged() == old(self).fetch16_logged(),
            *final(self) == old(self).with_prefetch(
                fetch16(old(self).mem.memory(), old(self).prefetch()).0,
                final(self).mem,
            ),
    {
        // does current PC overlap with fetched data
        let fetched = if self.pc & !3 != self.prefetch_addr {
            self.prefetch_addr = self.pc & !3;
            let address_space = self.program_space_exec();
            self.prefetch_data = self.mem.read_long(address_space, self.prefetch_addr);
            true
        } else {
            false
        };
        self.pc = self.pc.wrapping_add(2);
        fetched
    }

    pub fn read_imm_u16(&mut self) -> (r: Result<u16>)
        requires
            old(self).wf(),
        ensures
            old(self).pc & 1 != 0 ==> r == Err::<u16, Exception>(
                old(self).address_error(old(self).pc, AccessType::Read, old(self).program_space()),
            ) && *final(self) == *old(self),
            old(self).pc & 1 == 0 ==> {
                let (p, w) = fetch16(old(self).mem.memory(), old(self).prefetch());
                &&& r == Ok::<u16, Exception>(w)
                &&& final(self).wf()
                &&& final(self).mem.init() == old(self).mem.init()
                &&& final(self).mem.memory() == old(self).mem.memory()
                &&& final(self).mem.logged() == old(self).fetch16_logged()
                &&& *final(self) == old(self).with_prefetch(p, final(self).mem)
            },
    {
        // the Musashi read_imm_16 calls cpu_read_long as part of prefetch
        if self.pc & 1 > 0 {
            let address_space = self.program_space_exec();
            return Err(
                Exception::AddressError {
                    address: self.pc,
                    access_type: AccessType::Read,
                    address_space,
                    processing_state: self.processing_state,
                },
            );
        }
        let ghost pc0 = self.pc;
        self.prefetch_if_needed();
        assert(self.pc.wrapping_sub(2) == pc0);
        proof { lemma_word_lane(pc0, self.prefetch_data); }
        let shift = (2 - (self.pc.wrapping_sub(2) & 2)) << 3;
        let data = self.prefetch_data;
        Ok(((self.prefetch_data >> shift) & 0xffff) as u16)
    }

    pub fn read_imm_i16(&mut self) -> (r: Result<i16>)
        requires
            old(self).wf(),
        ensures
            old(self).pc & 1 != 0 ==> r == Err::<i16, Exception>(
                old(self).address_error(old(self).pc, AccessType::Read, old(self).program_space()),
            ) && *final(self) == *old(self),
            old(self).pc & 1 == 0 ==> {
                let (p, w) = fetch16(old(self).mem.memory(), old(self).prefetch());
                &&& r == Ok::<i16, Exception>(w as i16)
                &&& final(self).wf()
                &&& final(self).mem.init() == old(self).mem.init()
                &&& final(self).mem.memory() == old(self).mem.memory()
                &&& final(self).mem.logged() == old(self).fetch16_logged()
                &&& *final(self) == old(self).with_prefetch(p, final(self).mem)
            },
    {
        match self.read_imm_u16() {
            Ok(val) => Ok(val as i16),
            Err(e) => Err(e),
        }
    }

    pub fn read_imm_u32(&mut self) -> (r: Result<u32>)
        requires
            old(self).wf(),
        ensures
            old(self).pc & 1 != 0 ==> r == Err::<u32, Exception>(
                old(self).address_error(old(self).pc, AccessType::Read, old(self).program_space()),
            ) && *final(self) == *old(self),
            old(self).pc & 1 == 0 ==> {
                let (p, v) = fetch32(old(self).mem.memory(), old(self).prefetch());
                &&& r == Ok::<u32, Exception>(v)
                &&& final(self).wf()
                &&& final(self).mem.init() == old(self).mem.init()
                &&& final(self).mem.memory() == old(self).mem.memory()
                &&& final(self).mem.logged() == fetch_log(
                    fetch_log(old(self).mem.logged(), old(self).program_space(), old(self).mem.memory(), old(self).prefetch()),
                    old(self).program_space(),
                    old(self).mem.memory(),
                    fetch16(old(self).mem.memory(), old(self).prefetch()).0,
                )
                &&& *final(self) == old(self).with_prefetch(p, final(self).mem)
            },
    {
        if self.pc & 1 > 0 {
            let address_space = self.program_space_exec();
            return Err(
                Exception::AddressError {
                    address: self.pc,
                    access_type: AccessType::Read,
                    address_space,
                    processing_state: self.processing_state,
                },
            );
        }
        let ghost s0 = *self;
        self.prefetch_if_needed();
        let ghost s1 = *self;
        let prev_prefetch_data = self.prefetch_data;
        let fetched = self.prefetch_if_needed();
        let d2 = self.prefetch_data;
        proof {
            let pc0 = s0.pc;
            let mem = s0.mem.memory();
            let (p1, hi) = fetch16(mem, s0.prefetch());
            let (p2, lo) = fetch16(mem, p1);
            assert(p1 == s1.prefetch());
            lemma_next_lane(pc0, plus2(pc0), prev_prefetch_data, d2);
            if pc0 & 2 == 0 {
                assert(!fetched);
            } else {
                assert(fetched);
            }
        }
        Ok(
            if fetched {
                ((prev_prefetch_data << 16) | (self.prefetch_data >> 16))
            } else {
                prev_prefetch_data
            },
        )
    }

    pub fn push_sp(&mut self) -> (new_sp: u32)
        requires
            old(self).wf(),
            old(self).dar[15] & 1 == 0,
        ensures
            pushed_32(*old(self), *final(self), new_sp),
            new_sp == wsub(old(self).dar[15], 4),
            final(self).dar@ == old(self).dar@.update(15, new_sp),
            final(self).wf(),
            final(self).mem.init() == old(self).mem.init(),
            long_stored(old(self).mem.memory(), final(self).mem.memory(), new_sp, new_sp),
            final(self).mem.logged() == old(self).mem.logged().push(
                Operation::WriteLong(old(self).data_space(), new_sp & ADDRBUS_MASK, new_sp),
            ),
            *final(self) == (ConfiguredCore { dar: final(self).dar, mem: final(self).mem, ..*old(self) }),
    {
        let new_sp = self.dar[15].wrapping_sub(4);
        self.dar[15] = new_sp;
        proof {
            lemma_parity(old(self).dar[15]);
            lemma_parity(new_sp);
        }
        let _ = self.write_data_long(new_sp, new_sp);
        new_sp
    }

    pub fn push_32(&mut self, value: u32) -> (new_sp: u32)
        requires
            old(self).wf(),
            old(self).dar[15] & 1 == 0,
        ensures
            pushed_32(*old(self), *final(self), value),
            new_sp == wsub(old(self).dar[15], 4),
            final(self).dar@ == old(self).dar@.update(15, new_sp),
            final(self).wf(),
            final(self).mem.init() == old(self).mem.init(),
            long_stored(old(self).mem.memory(), final(self).mem.memory(), new_sp, value),
            final(self).mem.logged() == old(self).mem.logged().push(
                Operation::WriteLong(old(self).data_space(), new_sp & ADDRBUS_MASK, value),
            ),
            *final(self) == (ConfiguredCore { dar: final(self).dar, mem: final(self).mem, ..*old(self) }),
    {
        let new_sp = self.dar[15].wrapping_sub(4);
        self.dar[15] = new_sp;
        proof {
            lemma_parity(old(self).dar[15]);
            lemma_parity(new_sp);
        }
        let _ = self.write_data_long(new_sp, value);
        new_sp
    }

    pub fn pop_32(&mut self) -> (data: u32)
        requires
            old(self).wf(),
            old(self).dar[15] & 1 == 0,
        ensures
            popped_32(*old(self), *final(self), data),
            data == old(self).mem.memory().long(old(self).dar[15]),
            final(self).dar@ == old(self).dar@.update(15, wadd(old(self).dar[15], 4)),
            read_logged(
                old(self).mem,
                final(self).mem,
                Operation::ReadLong(old(self).data_space(), old(self).dar[15] & ADDRBUS_MASK, data),
            ),
            *final(self) == (ConfiguredCore { dar: final(self).dar, mem: final(self).mem, ..*old(self) }),
    {
        let sp = self.dar[15];
        let data = match self.read_data_long(sp) {
            Ok(v) => v,
            Err(_) => 0,
        };
        self.dar[15] = sp.wrapping_add(4);
        data
    }

    pub fn push_16(&mut self, value: u16) -> (new_sp: u32)
        requires
            old(self).wf(),
            old(self).dar[15] & 1 == 0,
        ensures
            pushed_16(*old(self), *final(self), value),
            new_sp == wsub(old(self).dar[15], 2),
            final(self).dar@ == old(self).dar@.update(15, new_sp),
            final(self).wf(),
            final(self).mem.init() == old(self).mem.init(),
            word_stored(old(self).mem.memory(), final(self).mem.memory(), new_sp, value as u32),
            final(self).mem.logged() == old(self).mem.logged().push(
                Operation::WriteWord(old(self).data_space(), new_sp & ADDRBUS_MASK, value as u32),
            ),
            *final(self) == (ConfiguredCore { dar: final(self).dar, mem: final(self).mem, ..*old(self) }),
    {
        let new_sp = self.dar[15].wrapping_sub(2);
        self.dar[15] = new_sp;
        proof {
            lemma_parity(old(self).dar[15]);
            lemma_parity(new_sp);
        }
        let _ = self.write_data_word(new_sp, value as u32);
        new_sp
    }

    pub fn pop_16(&mut self) -> (data: u16)
        requires
            old(self).wf(),
            old(self).dar[15] & 1 == 0,
        ensures
            popped_16(*old(self), *final(self), data),
            data == old(self).mem.memory().word(old(self).dar[15]) as u16,
            final(self).dar@ == old(self).dar@.update(15, wadd(old(self).dar[15], 2)),
            read_logged(
                old(self).mem,
                final(self).mem,
                Operation::ReadWord(old(self).data_space(), old(self).dar[15] & ADDRBUS_MASK, data),
            ),
            *final(self) == (ConfiguredCore { dar: final(self).dar, mem: final(self).mem, ..*old(self) }),
    {
        let sp = self.dar[15];
        let data = match self.read_data_word(sp) {
            Ok(v) => v as u16,
            Err(_) => 0,
        };
        self.dar[15] = sp.wrapping_add(2);
        data
    }

    pub fn jump_vector(&mut self, vector: u8)
        requires
            old(self).wf(),
        ensures
            final(self).pc == old(self).mem.memory().long((vector as u32) << 2u32),
            read_logged(
                old(self).mem,
                final(self).mem,
                Operation::ReadLong(old(self).data_space(), ((vector as u32) << 2u32) & ADDRBUS_MASK, final(self).pc),
            ),
            *final(self) == (ConfiguredCore { pc: final(self).pc, mem: final(self).mem, ..*old(self) }),
    {
        let vector_address = (vector as u32) << 2;
        assert(vector_address & 1 == 0) by (bit_vector)
            requires
                vector_address == (vector as u32) << 2u32,
        ;
        self.pc = match self.read_data_long(vector_address) {
            Ok(v) => v,
            Err(_) => 0,
        };
    }

    /// The stack pointer register after entering supervisor mode.
    pub open spec fn supervisor_sp(&self) -> u32 {
        if self.s_flag == SFLAG_CLEAR {
            self.inactive_ssp
        } else {
            self.dar[15]
        }
    }

    /// The state after entering supervisor mode: in user mode the user stack
    /// pointer is put aside and the supervisor stack pointer becomes active.
    pub open spec fn spec_supervisor_mode(&self) -> ConfiguredCore {
        if self.s_flag == SFLAG_CLEAR {
            ConfiguredCore { s_flag: SFLAG_SET, inactive_usp: self.dar[15], ..*self }
        } else {
            ConfiguredCore { s_flag: SFLAG_SET, ..*self }
        }
    }

    pub fn ensure_supervisor_mode(&mut self) -> (backup_sr: u16)
        ensures
            backup_sr == old(self).spec_status_register(),
            final(self).dar@ == old(self).dar@.update(15, old(self).supervisor_sp()),
            *final(self) == (ConfiguredCore { dar: final(self).dar, ..old(self).spec_supervisor_mode() }),
    {
        let backup_sr = self.status_register();
        // if in user mode, swap stack pointers!
        if self.s_flag == SFLAG_CLEAR {
            self.inactive_usp = self.dar[15];
            self.dar[15] = self.inactive_ssp;
        }
        // enter supervisor mode
        self.s_flag = SFLAG_SET;
        assert(self.dar@ =~= old(self).dar@.update(15, old(self).supervisor_sp()));
        backup_sr
    }

    /// What taking a group 1 or group 2 exception does: supervisor mode,
    /// the program counter and then the status register stacked on the
    /// supervisor stack, and the program counter loaded from the vector.
    pub open spec fn exception_taken(
        s0: ConfiguredCore,
        s1: ConfiguredCore,
        new_state: ProcessingState,
        pc: u32,
        vector: u8,
    ) -> bool {
        let sp0 = s0.supervisor_sp();
        let sr = s0.spec_status_register();
        let sup = s0.spec_supervisor_mode();
        &&& s1.wf()
        &&& s1.mem.init() == s0.mem.init()
        &&& s1.dar@ == s0.dar@.update(15, wsub(sp0, 6))
        &&& exists|m1: PagedMem|
            long_stored(s0.mem.memory(), m1, wsub(sp0, 4), pc) && word_stored(
                m1,
                s1.mem.memory(),
                wsub(sp0, 6),
                sr as u32,
            )
        &&& s1.pc == s1.mem.memory().long((vector as u32) << 2u32)
        &&& s1.mem.logged() == s0.mem.logged().push(
            Operation::WriteLong(SUPERVISOR_DATA, wsub(sp0, 4) & ADDRBUS_MASK, pc),
        ).push(Operation::WriteWord(SUPERVISOR_DATA, wsub(sp0, 6) & ADDRBUS_MASK, sr as u32)).push(
            Operation::ReadLong(SUPERVISOR_DATA, ((vector as u32) << 2u32) & ADDRBUS_MASK, s1.pc),
        )
        &&& s1 == (ConfiguredCore {
            processing_state: new_state,
            pc: s1.pc,
            dar: s1.dar,
            mem: s1.mem,
            ..sup
        })
    }

    /// Stacks a group 1 or group 2 exception frame (the program counter,
    /// then the status register) on the supervisor stack and continues at
    /// the handler of `vector`.
    pub fn handle_exception(&mut self, new_state: ProcessingState, pc: u32, vector: u8, cycles: i32) -> (r: Cycles)
        requires
            old(self).wf(),
            old(self).supervisor_sp() & 1 == 0,
        ensures
            r == Cycles(cycles),
            Self::exception_taken(*old(self), *final(self), new_state, pc, vector),
    {
        self.processing_state = new_state;
        let backup_sr = self.ensure_supervisor_mode();
        proof {
            lemma_parity(self.dar[15]);
            lemma_parity(wsub(self.dar[15], 4));
        }
        let ghost m0 = self.mem.memory();
        // Group 1 and 2 stack frame (68000 only).
        self.push_32(pc);
        let ghost m1 = self.mem.memory();
        self.push_16(backup_sr);
        assert(long_stored(m0, m1, wsub(old(self).supervisor_sp(), 4), pc));
        self.jump_vector(vector);
        assert(self.dar@ =~= old(self).dar@.update(15, wsub(old(self).supervisor_sp(), 6)));
        Cycles(cycles)
    }

    pub fn handle_unimplemented_instruction(&mut self, pc: u32, vector: u8) -> (r: Cycles)
        requires
            old(self).wf(),
            old(self).supervisor_sp() & 1 == 0,
        ensures
            r == Cycles(34),
            Self::exception_taken(*old(self), *final(self), ProcessingState::Group2Exception, pc, vector),
    {
        // Unimplemented instructions are taken as group 2 exceptions, as
        // EASy68k does; on the 68000 group 1 and 2 frames are identical.
        self.handle_exception(ProcessingState::Group2Exception, pc, vector, 34)
    }

    pub fn handle_illegal_instruction(&mut self, pc: u32) -> (r: Cycles)
        requires
            old(self).wf(),
            old(self).supervisor_sp() & 1 == 0,
        ensures
            r == Cycles(34),
            Self::exception_taken(
                *old(self),
                *final(self),
                ProcessingState::Group1Exception,
                pc,
                EXCEPTION_ILLEGAL_INSTRUCTION,
            ),
    {
        self.handle_exception(ProcessingState::Group1Exception, pc, EXCEPTION_ILLEGAL_INSTRUCTION, 34)
    }

    pub fn handle_privilege_violation(&mut self, pc: u32) -> (r: Cycles)
        requires
            old(self).wf(),
            old(self).supervisor_sp() & 1 == 0,
        ensures
            r == Cycles(34),
            Self::exception_taken(
                *old(self),
                *final(self),
                ProcessingState::Group1Exception,
                pc,
                EXCEPTION_PRIVILEGE_VIOLATION,
            ),
    {
        self.handle_exception(ProcessingState::Group1Exception, pc, EXCEPTION_PRIVILEGE_VIOLATION, 34)
    }

    pub fn handle_trap(&mut self, trap: u8, cycles: i32) -> (r: Cycles)
        requires
            old(self).wf(),
            old(self).supervisor_sp() & 1 == 0,
        ensures
            r == Cycles(cycles),
            Self::exception_taken(*old(self), *final(self), ProcessingState::Group2Exception, old(self).pc, trap),
    {
        let pc = self.pc;
        self.handle_exception(ProcessingState::Group2Exception, pc, trap, cycles)
    }

    /// The access information word of a group 0 stack frame:
    /// R/W (1 = read), I/N (1 = not processing an instruction), and the
    /// function code.
    pub open spec fn access_info(access_type: AccessType, processing_state: ProcessingState, address_space: AddressSpace) -> u16 {
        ((match access_type {
            AccessType::Read => 0b10000u16,
            _ => 0u16,
        }) | (if processing_state.spec_instruction_processing() {
            0u16
        } else {
            0b01000u16
        }) | (crate::ram::spec_fc(address_space) as u16)) as u16
    }

    /// `s1` is `s0` after taking an address error: a group 0 frame (the
    /// program counter, the status register, the instruction register, the
    /// faulting address and the access information) stacked on the
    /// supervisor stack, and the handler's address fetched.
    pub open spec fn address_error_taken(
        s0: ConfiguredCore,
        s1: ConfiguredCore,
        bad_address: u32,
        access_type: AccessType,
        processing_state: ProcessingState,
        address_space: AddressSpace,
    ) -> bool {
        let sp0 = s0.supervisor_sp();
        let sr = s0.spec_status_register();
        let sup = s0.spec_supervisor_mode();
        let info = Self::access_info(access_type, processing_state, address_space);
        &&& s1.wf()
        &&& s1.mem.init() == s0.mem.init()
        &&& s1.dar@ == s0.dar@.update(15, wsub(sp0, 14))
        &&& exists|m1: PagedMem, m2: PagedMem, m3: PagedMem, m4: PagedMem|
            #![trigger word_stored(m1, m2, wsub(sp0, 6), sr as u32), word_stored(m2, m3, wsub(sp0, 8), s0.ir as u32), long_stored(m3, m4, wsub(sp0, 12), bad_address)]
            long_stored(s0.mem.memory(), m1, wsub(sp0, 4), s0.pc)
                && word_stored(m1, m2, wsub(sp0, 6), sr as u32)
                && word_stored(m2, m3, wsub(sp0, 8), s0.ir as u32)
                && long_stored(m3, m4, wsub(sp0, 12), bad_address)
                && word_stored(m4, s1.mem.memory(), wsub(sp0, 14), info as u32)
        &&& s1.pc == s1.mem.memory().long((EXCEPTION_ADDRESS_ERROR as u32) << 2u32)
        &&& s1.mem.logged() == s0.mem.logged().push(
            Operation::WriteLong(SUPERVISOR_DATA, wsub(sp0, 4) & ADDRBUS_MASK, s0.pc),
        ).push(Operation::WriteWord(SUPERVISOR_DATA, wsub(sp0, 6) & ADDRBUS_MASK, sr as u32)).push(
            Operation::WriteWord(SUPERVISOR_DATA, wsub(sp0, 8) & ADDRBUS_MASK, s0.ir as u32),
        ).push(Operation::WriteLong(SUPERVISOR_DATA, wsub(sp0, 12) & ADDRBUS_MASK, bad_address)).push(
            Operation::WriteWord(SUPERVISOR_DATA, wsub(sp0, 14) & ADDRBUS_MASK, info as u32),
        ).push(
            Operation::ReadLong(SUPERVISOR_DATA, ((EXCEPTION_ADDRESS_ERROR as u32) << 2u32) & ADDRBUS_MASK, s1.pc),
        )
        &&& s1 == (ConfiguredCore {
            processing_state: ProcessingState::Group0Exception,
            pc: s1.pc,
            dar: s1.dar,
            mem: s1.mem,
            ..sup
        })
    }

    /// `s1` is `s0` after taking an interrupt of `irq_level`: the handler's
    /// address fetched first, then the program counter and status register
    /// stacked, the interrupt mask raised to the level.
    pub open spec fn interrupt_taken(s0: ConfiguredCore, s1: ConfiguredCore, irq_level: u8, vector: u8) -> bool {
        let sp0 = s0.supervisor_sp();
        let sr = s0.spec_status_register();
        let sup = s0.spec_supervisor_mode();
        &&& s1.wf()
        &&& s1.mem.init() == s0.mem.init()
        &&& s1.dar@ == s0.dar@.update(15, wsub(sp0, 6))
        &&& s1.pc == s0.mem.memory().long((vector as u32) << 2u32)
        &&& s1.mem.logged() == s0.mem.logged().push(
            Operation::ReadLong(SUPERVISOR_DATA, ((vector as u32) << 2u32) & ADDRBUS_MASK, s1.pc),
        ).push(Operation::WriteLong(SUPERVISOR_DATA, wsub(sp0, 4) & ADDRBUS_MASK, s0.pc)).push(
            Operation::WriteWord(SUPERVISOR_DATA, wsub(sp0, 6) & ADDRBUS_MASK, sr as u32),
        )
        &&& exists|m1: PagedMem|
            long_stored(s0.mem.memory(), m1, wsub(sp0, 4), s0.pc) && word_stored(
                m1,
                s1.mem.memory(),
                wsub(sp0, 6),
                sr as u32,
            )
        &&& s1 == (ConfiguredCore {
            processing_state: ProcessingState::Group1Exception,
            int_mask: (irq_level as u32) << 8u32,
            irq_level,
            pc: s1.pc,
            dar: s1.dar,
            mem: s1.mem,
            ..sup
        })
    }

    /// Takes an address error: a second group 0 exception while one is
    /// processed halts the processor; otherwise a group 0 frame (program
    /// counter, status register, instruction register, the faulting
    /// address, and the access information) is stacked and the handler of
    /// vector 3 runs.
    pub fn handle_address_error(
        &mut self,
        bad_address: u32,
        access_type: AccessType,
        processing_state: ProcessingState,
        address_space: AddressSpace,
    ) -> (r: Cycles)
        requires
            old(self).wf(),
            old(self).supervisor_sp() & 1 == 0,
        ensures
            processing_state == ProcessingState::Group0Exception ==> r == Cycles(0)
                && *final(self) == (ConfiguredCore {
                processing_state: ProcessingState::Halted,
                ..*old(self)
            }),
            processing_state != ProcessingState::Group0Exception ==> r == Cycles(50)
                && Self::address_error_taken(
                *old(self),
                *final(self),
                bad_address,
                access_type,
                processing_state,
                address_space,
            ),
    {
        if processing_state == ProcessingState::Group0Exception {
            self.processing_state = ProcessingState::Halted;
            return Cycles(0);
        }
        self.processing_state = ProcessingState::Group0Exception;
        let backup_sr = self.ensure_supervisor_mode();
        // Bus error stack frame (68000 only).
        let pc = self.pc;
        let ir = self.ir;
        proof {
            let sp = self.dar[15];
            lemma_parity(sp);
            lemma_parity(wsub(sp, 4));
            lemma_parity(wsub(sp, 6));
            lemma_parity(wsub(sp, 8));
            lemma_parity(wsub(sp, 12));
        }
        let ghost m0 = self.mem.memory();
        self.push_32(pc);
        let ghost m1 = self.mem.memory();
        self.push_16(backup_sr);
        let ghost m2 = self.mem.memory();
        self.push_16(ir);
        let ghost m3 = self.mem.memory();
        self.push_32(bad_address);  /* access address */
        let ghost m4 = self.mem.memory();
        /* 0 0 0 0 0 0 0 0 0 0 0 R/W I/N FC
         * R/W  0 = write, 1 = read
         * I/N  0 = instruction, 1 = not
         * FC   3-bit function code
         */
        let rw: u16 = match access_type {
            AccessType::Read => 0b10000,
            _ => 0,
        };
        let inp: u16 = if processing_state.instruction_processing() {
            0
        } else {
            0b01000
        };
        let access_info = rw | inp | (address_space.fc() as u16);
        self.push_16(access_info);
        assert(long_stored(m0, m1, wsub(old(self).supervisor_sp(), 4), old(self).pc));
        assert(word_stored(m1, m2, wsub(old(self).supervisor_sp(), 6), backup_sr as u32));
        assert(word_stored(m2, m3, wsub(old(self).supervisor_sp(), 8), old(self).ir as u32));
        assert(long_stored(m3, m4, wsub(old(self).supervisor_sp(), 12), bad_address));
        assert(access_info == Self::access_info(access_type, processing_state, address_space));
        assert(word_stored(m4, self.mem.memory(), wsub(old(self).supervisor_sp(), 14), access_info as u32));
        self.jump_vector(EXCEPTION_ADDRESS_ERROR);
        assert(self.dar@ =~= old(self).dar@.update(15, wsub(old(self).supervisor_sp(), 14)));
        assert(self.pc == self.mem.memory().long((EXCEPTION_ADDRESS_ERROR as u32) << 2u32));
        assert(*self == (ConfiguredCore {
                    processing_state: ProcessingState::Group0Exception,
                    pc: self.pc,
                    dar: self.dar,
                    mem: self.mem,
                    ..old(self).spec_supervisor_mode()
                }));
        assert(backup_sr == old(self).spec_status_register());
        assert(exists|m1: PagedMem, m2: PagedMem, m3: PagedMem, m4: PagedMem|
                    #![trigger word_stored(m1, m2, wsub(old(self).supervisor_sp(), 6), old(self).spec_status_register() as u32), word_stored(m2, m3, wsub(old(self).supervisor_sp(), 8), old(self).ir as u32), long_stored(m3, m4, wsub(old(self).supervisor_sp(), 12), bad_address)]
                    long_stored(old(self).mem.memory(), m1, wsub(old(self).supervisor_sp(), 4), old(self).pc)
                        && word_stored(m1, m2, wsub(old(self).supervisor_sp(), 6), old(self).spec_status_register() as u32)
                        && word_stored(m2, m3, wsub(old(self).supervisor_sp(), 8), old(self).ir as u32)
                        && long_stored(m3, m4, wsub(old(self).supervisor_sp(), 12), bad_address)
                        && word_stored(m4, self.mem.memory(), wsub(old(self).supervisor_sp(), 14), Self::access_info(access_type, processing_state, address_space) as u32));
        Cycles(50)
    }

    /// Takes an interrupt: supervisor mode, the interrupt mask raised to
    /// the level, the program counter loaded from the vector, and then the
    /// old program counter and status register stacked.
    pub fn handle_interrupt(&mut self, irq_level: u8, vector: u8) -> (r: Cycles)
        requires
            old(self).wf(),
            old(self).supervisor_sp() & 1 == 0,
        ensures
            r == Cycles(44),
            Self::interrupt_taken(*old(self), *final(self), irq_level, vector),
    {
        let pc = self.pc;
        self.processing_state = ProcessingState::Group1Exception;
        let backup_sr = self.ensure_supervisor_mode();
        // new mask set here, in order to exclude from backup_sr
        proof {
            lemma_mode_fields(0, irq_level);
        }
        self.int_mask = (irq_level as u32) << 8;
        self.irq_level = irq_level;
        // Musashi jumps first, and stacks later for interrupts,
        // but the other way around for exceptions
        self.jump_vector(vector);
        proof {
            lemma_parity(self.dar[15]);
            lemma_parity(wsub(self.dar[15], 4));
        }
        let ghost m0 = self.mem.memory();
        // Group 1 and 2 stack frame (68000 only).
        self.push_32(pc);
        let ghost m1 = self.mem.memory();
        self.push_16(backup_sr);
        assert(long_stored(m0, m1, wsub(old(self).supervisor_sp(), 4), pc));
        assert(self.dar@ =~= old(self).dar@.update(15, wsub(old(self).supervisor_sp(), 6)));
        // 44 cycles for an interrupt according to MC68000UM, Table 8-14
        // The interrupt acknowledge cycle is assumed to take four clock periods
        Cycles(44)
    }

    /// The extension word an instruction fetch at the program counter reads.
    pub open spec fn ext16(&self) -> u16 {
        fetch16(self.mem.memory(), self.prefetch()).1
    }

    /// The prefetch state after one extension word fetch.
    pub open spec fn after16(&self) -> Prefetch {
        fetch16(self.mem.memory(), self.prefetch()).0
    }

    /// The extension long word an instruction fetch at the program counter reads.
    pub open spec fn ext32(&self) -> u32 {
        fetch32(self.mem.memory(), self.prefetch()).1
    }

    /// The prefetch state after two extension word fetches.
    pub open spec fn after32(&self) -> Prefetch {
        fetch32(self.mem.memory(), self.prefetch()).0
    }

    /// `s1` is `s0` after the prefetch state became `p`, with the memory
    /// contents kept.
    pub open spec fn fetched(s0: ConfiguredCore, s1: ConfiguredCore, p: Prefetch) -> bool {
        &&& s1.wf()
        &&& s1.mem.init() == s0.mem.init()
        &&& s1.mem.memory() == s0.mem.memory()
        &&& s1 == s0.with_prefetch(p, s1.mem)
    }

    /// The outcome of a data read of `size` bits at `address`: an address
    /// error for a word or long word at an odd address, the value otherwise.
    pub open spec fn read_outcome(&self, size: u32, space: AddressSpace, address: u32) -> Result<u32> {
        if size != 8 && address & 1 != 0 {
            Err(self.address_error(address, AccessType::Read, space))
        } else {
            Ok(mem_value(self.mem.memory(), size, address))
        }
    }

    /// The address error for the program counter, if it is odd.
    pub open spec fn pc_error(&self) -> Exception {
        self.address_error(self.pc, AccessType::Read, self.program_space())
    }

    pub fn x_flag_as_1(&self) -> (r: u32)
        ensures
            r == (self.x_flag >> 8u32) & 1,
    {
        (self.x_flag >> 8) & 1
    }

    pub fn jump(&mut self, pc: u32)
        ensures
            *final(self) == (ConfiguredCore { pc, ..*old(self) }),
    {
        self.pc = pc;
    }
}

/// Setting the flags from a status register value and reading the status
/// register back gives the value with the bits that the 68000 does not keep
/// (trace and the unused bits) cleared.
/// The supervisor flag a status register sets is clear or set, and its
/// interrupt mask, like a level shifted into place, is a multiple of 0x100.
proof fn lemma_mode_fields(sr: u16, level: u8)
    by (bit_vector)
    ensures
        ((((sr & 0xa71f) as u32) >> 11u32) & 4) == 0 || ((((sr & 0xa71f) as u32) >> 11u32) & 4) == 4,
        (((sr & 0xa71f) as u32) & 0x0700u32) & 0xffu32 == 0u32,
        (((sr & 0xa71f) as u32) & 0x0700u32) <= 0x0700u32,
        ((level as u32) << 8u32) & 0xffu32 == 0u32,
        ((level as u32) << 8u32) <= 0xff00u32,
        0x0700u32 & 0xffu32 == 0u32,
        (((((sr & 0xa71f) as u32) >> 11u32) & 4) == 4) == (sr & 0x2000 != 0),
{
}

/// The supervisor stack pointer of a core: the active one in supervisor
/// mode, the saved one in user mode.
pub open spec fn supervisor_stack(c: ConfiguredCore) -> u32 {
    if c.s_flag > 0 {
        c.dar[15]
    } else {
        c.inactive_ssp
    }
}

/// The user stack pointer of a core: the saved one in supervisor mode, the
/// active one in user mode.
pub open spec fn user_stack(c: ConfiguredCore) -> u32 {
    if c.s_flag > 0 {
        c.inactive_usp
    } else {
        c.dar[15]
    }
}

/// Writing the status register keeps both stack pointers: the supervisor and
/// the user stack pointer are the same before and after, and the S bit of the
/// new value alone decides which of them is in A7.
pub proof fn law_sr_keeps_stack_pointers(c0: ConfiguredCore, c1: ConfiguredCore, sr: u16)
    requires
        c0.wf(),
        sr_set(c0, c1, sr),
    ensures
        supervisor_stack(c1) == supervisor_stack(c0),
        user_stack(c1) == user_stack(c0),
        c1.s_flag == (if sr & 0x2000 != 0 { SFLAG_SET } else { SFLAG_CLEAR }),
        c1.wf(),
{
    lemma_mode_fields(sr, 0);
}

pub proof fn law_status_register_roundtrip(core: ConfiguredCore, sr: u16)
    ensures
        core.spec_sr_to_flags(sr).spec_status_register() == sr & 0x271f,
{
    let m = (sr & CPU_SR_MASK) as u32;
    let c2 = core.spec_sr_to_flags(sr);
    let sf = c2.s_flag;
    let im = c2.int_mask;
    let xf = c2.x_flag;
    let nf = c2.n_flag;
    let zf = c2.not_z_flag;
    let vf = c2.v_flag;
    let cf = c2.c_flag;
    let zz: u32 = if zf == 0 { 1 } else { 0 };
    assert(sf == (m >> 11u32) & 4);
    assert(zf == if m & 0b00100 == 0 { 1u32 } else { 0u32 });
    assert(c2.spec_status_register() == ((sf << 11u32) | im | ((xf & 0x100) >> 4u32) | ((nf & 0x80) >> 4u32) | (zz << 2u32) | ((vf & 0x80) >> 6u32) | ((cf & 0x100) >> 8u32)) as u16);
    assert(((sf << 11u32) | im | ((xf & 0x100) >> 4u32) | ((nf & 0x80) >> 4u32) | (zz << 2u32) | ((vf & 0x80) >> 6u32) | ((cf & 0x100) >> 8u32)) as u16 == sr & 0x271f) by (bit_vector)
        requires
            m == (sr & 0xa71f) as u32,
            sf == (m >> 11u32) & 4,
            im == m & 0x700,
            xf == (m << 4u32) & 0x100,
            nf == (m << 4u32) & 0x80,
            zf == if m & 0b00100 == 0 { 1u32 } else { 0u32 },
            zz == if zf == 0 { 1u32 } else { 0u32 },
            vf == (m << 6u32) & 0x80,
            cf == (m << 8u32) & 0x100,
    ;
}

/// The carry flag as the status register reports it.
pub open spec fn carry_set(c: ConfiguredCore) -> bool {
    c.c_flag & CFLAG_SET != 0
}

/// The extend flag as the status register reports it.
pub open spec fn extend_set(c: ConfiguredCore) -> bool {
    c.x_flag & XFLAG_SET != 0
}

/// The negative flag as the status register reports it.
pub open spec fn negative_set(c: ConfiguredCore) -> bool {
    c.n_flag & NFLAG_SET != 0
}

/// The zero flag as the status register reports it.
pub open spec fn zero_set(c: ConfiguredCore) -> bool {
    c.not_z_flag == 0
}

/// The overflow flag as the status register reports it.
pub open spec fn overflow_set(c: ConfiguredCore) -> bool {
    c.v_flag & VFLAG_SET != 0
}

/// The sixteen conditions of Bcc, DBcc and Scc, by their number in the
/// instruction: T, F, HI, LS, CC, CS, NE, EQ, VC, VS, PL, MI, GE, LT, GT, LE.
pub open spec fn condition(c: ConfiguredCore, cc: int) -> bool {
    let carry = carry_set(c);
    let z = zero_set(c);
    let n = negative_set(c);
    let v = overflow_set(c);
    let ge = (n && v) || (!n && !v);
    if cc == 0 {
        true
    } else if cc == 1 {
        false
    } else if cc == 2 {
        !carry && !z
    } else if cc == 3 {
        carry || z
    } else if cc == 4 {
        !carry
    } else if cc == 5 {
        carry
    } else if cc == 6 {
        !z
    } else if cc == 7 {
        z
    } else if cc == 8 {
        !v
    } else if cc == 9 {
        v
    } else if cc == 10 {
        !n
    } else if cc == 11 {
        n
    } else if cc == 12 {
        ge
    } else if cc == 13 {
        !ge
    } else if cc == 14 {
        ge && !z
    } else {
        !ge || z
    }
}

/// The conditions come in complementary pairs: T and F, HI and LS, CC and
/// CS, NE and EQ, VC and VS, PL and MI, GE and LT, GT and LE.
pub proof fn law_conditions_complementary(c: ConfiguredCore, k: u32)
    requires
        k < 8,
    ensures
        condition(c, 2 * k + 1) == !condition(c, 2 * k as int),
{
}

/// The user-visible program counter after a branch by `offset`.
pub open spec fn branched(pc: u32, offset: u32) -> u32 {
    wadd(pc, offset)
}

impl ConfiguredCore {
    /// The status register value that setting the condition codes to
    /// `ccr` gives: the system byte kept, the low byte replaced.
    pub open spec fn ccr_sr(&self, ccr: u16) -> u16 {
        (self.spec_status_register() & 0xff00) | (ccr & 0xff)
    }

    pub fn ccr_to_flags(&mut self, ccr: u16)
        ensures
            old(self).mem.wf() ==> final(self).wf(),
            sr_set(*old(self), *final(self), old(self).ccr_sr(ccr)),
    {
        let sr = self.status_register();
        self.sr_to_flags((sr & 0xff00) | (ccr & 0xff));
    }

    pub fn cond_t(&self) -> (b: bool)
        ensures
            b == condition(*self, 0),
    {
        true
    }

    pub fn cond_f(&self) -> (b: bool)
        ensures
            b == condition(*self, 1),
    {
        false
    }

    /// High.
    pub fn cond_hi(&self) -> (b: bool)
        ensures
            b == condition(*self, 2),
    {
        self.cond_cc() && self.cond_ne()
    }

    /// Low or same.
    pub fn cond_ls(&self) -> (b: bool)
        ensures
            b == condition(*self, 3),
    {
        self.cond_cs() || self.cond_eq()
    }

    /// Carry clear.
    pub fn cond_cc(&self) -> (b: bool)
        ensures
            b == condition(*self, 4),
    {
        self.c_flag & CFLAG_SET == 0
    }

    /// Carry set.
    pub fn cond_cs(&self) -> (b: bool)
        ensures
            b == condition(*self, 5),
    {
        !self.cond_cc()
    }

    /// Not equal.
    pub fn cond_ne(&self) -> (b: bool)
        ensures
            b == condition(*self, 6),
    {
        !self.cond_eq()
    }

    /// Equal.
    pub fn cond_eq(&self) -> (b: bool)
        ensures
            b == condition(*self, 7),
    {
        self.not_z_flag == ZFLAG_SET
    }

    /// Overflow clear.
    pub fn cond_vc(&self) -> (b: bool)
        ensures
            b == condition(*self, 8),
    {
        self.v_flag & VFLAG_SET == 0
    }

    /// Overflow set.
    pub fn cond_vs(&self) -> (b: bool)
        ensures
            b == condition(*self, 9),
    {
        !self.cond_vc()
    }

    /// Plus.
    pub fn cond_pl(&self) -> (b: bool)
        ensures
            b == condition(*self, 10),
    {
        self.n_flag & NFLAG_SET == 0
    }

    /// Minus.
    pub fn cond_mi(&self) -> (b: bool)
        ensures
            b == condition(*self, 11),
    {
        !self.cond_pl()
    }

    /// Greater or equal.
    pub fn cond_ge(&self) -> (b: bool)
        ensures
            b == condition(*self, 12),
    {
        self.cond_mi() && self.cond_vs() || self.cond_pl() && self.cond_vc()
    }

    /// Less than.
    pub fn cond_lt(&self) -> (b: bool)
        ensures
            b == condition(*self, 13),
    {
        self.cond_mi() && self.cond_vc() || self.cond_pl() && self.cond_vs()
    }

    /// Greater than.
    pub fn cond_gt(&self) -> (b: bool)
        ensures
            b == condition(*self, 14),
    {
        self.cond_ge() && self.cond_ne()
    }

    /// Less or equal.
    pub fn cond_le(&self) -> (b: bool)
        ensures
            b == condition(*self, 15),
    {
        self.cond_lt() || self.cond_eq()
    }

    pub fn branch_8(&mut self, offset: i8)
        ensures
            *final(self) == (ConfiguredCore { pc: branched(old(self).pc, offset as u32), ..*old(self) }),
    {
        self.pc = self.pc.wrapping_add(offset as u32);
    }

    pub fn branch_16(&mut self, offset: i16)
        ensures
            *final(self) == (ConfiguredCore { pc: branched(old(self).pc, offset as u32), ..*old(self) }),
    {
        self.pc = self.pc.wrapping_add(offset as u32);
    }

    pub fn inactive_ssp(&self) -> (r: u32)
        ensures
            r == self.inactive_ssp,
    {
        self.inactive_ssp
    }

    /// Lets the external devices reset, as the RESET instruction asks.
    pub fn reset_external_devices(&mut self)
        ensures
            final(self).int_ctrl.pending() == 0,
            *final(self) == (ConfiguredCore { int_ctrl: final(self).int_ctrl, ..*old(self) }),
    {
        self.int_ctrl.reset_external_devices();
    }

    pub fn resume_normal_processing(&mut self)
        ensures
            *final(self) == (ConfiguredCore { processing_state: ProcessingState::Normal, ..*old(self) }),
    {
        self.processing_state = ProcessingState::Normal;
    }

    pub fn stop_instruction_processing(&mut self)
        ensures
            *final(self) == (ConfiguredCore { processing_state: ProcessingState::Stopped, ..*old(self) }),
    {
        self.processing_state = ProcessingState::Stopped;
    }

    /// TAS may write back the byte it tested on this bus.
    pub fn allow_tas_writeback(&mut self) -> (b: bool)
        ensures
            b,
            *final(self) == *old(self),
    {
        true
    }
}

/// The state of a core as made by the constructors: the program counter at
/// `base`, no prefetched data, all registers zero, supervisor mode with all
/// interrupts masked, the flags clear but Z, and `state` as the processing
/// state.
pub open spec fn fresh(c: ConfiguredCore, base: u32, state: ProcessingState) -> bool {
    &&& c.pc == base
    &&& c.prefetch_addr == 0
    &&& c.prefetch_data == 0
    &&& c.inactive_ssp == 0
    &&& c.inactive_usp == 0
    &&& c.ir == 0
    &&& c.processing_state == state
    &&& c.dar@ == Seq::new(16, |i: int| 0u32)
    &&& c.irq_level == 0
    &&& c.s_flag == SFLAG_SET
    &&& c.int_mask == CPU_SR_INT_MASK
    &&& c.x_flag == 0
    &&& c.v_flag == 0
    &&& c.c_flag == 0
    &&& c.n_flag == 0
    &&& c.not_z_flag == 0xffff_ffff
    &&& c.wf()
}

/// `m` holds the bytes of `s` from `base` on (each one that no later byte
/// overwrote) and the initializer's bytes everywhere else.
pub open spec fn loaded(m: LoggingMem<OpsLogger>, base: u32, s: Seq<u8>, initializer: u32) -> bool {
    &&& m.wf()
    &&& m.init() == initializer
    &&& forall|i: int|
        0 <= i < s.len() && (forall|j: int| i < j < s.len() ==> !#[trigger] same_cell((base + i) as u32, (base + j) as u32))
            ==> #[trigger] m.byte((base + i) as u32) == s[i]
    &&& forall|a: u32|
        (forall|i: int| 0 <= i < s.len() ==> !#[trigger] same_cell(a, (base + i) as u32)) ==> #[trigger] m.byte(a)
            == init_byte(initializer, a)
}

proof fn lemma_byte_roundtrip(b: u8)
    by (bit_vector)
    ensures
        ((b as u32) & 0xff) as u8 == b,
{
}

/// The full instruction set, as `ops::instruction_set` gives it.
pub open spec fn full_instruction_set(t: Seq<Handler>) -> bool {
    &&& t.len() == 0x10000
    &&& forall|op: int| 0 <= op < 0x10000 ==> #[trigger] t[op] == decoded(op as u32)
}

/// The interrupt level that is to be taken now, if any: the highest
/// pending request above the interrupt mask, or a request of level 7 that
/// has just appeared (level 7 cannot be masked; it is edge triggered).
pub open spec fn pending_irq(c: ConfiguredCore) -> Option<u8> {
    let level = top_level(c.int_ctrl.pending());
    if ((level as u32) << 8u32) > c.int_mask || (c.irq_level != 7 && level == 7) {
        Some(level)
    } else {
        None
    }
}

/// The characters of the flags string: '-', then S or U for the mode, the
/// interrupt mask as a digit, and X, N, Z, V, C or '-' for each flag.
pub open spec fn flag_chars(c: ConfiguredCore) -> Seq<char> {
    let sr = c.spec_status_register();
    let bit = |n: u16, ch: char| if (sr >> n) & 1 > 0 { ch } else { '-' };
    seq![
        '-',
        if (sr >> 13u16) & 1 > 0 { 'S' } else { 'U' },
        ((((0x700 & sr) >> 8u16) as int) + 48) as char,
        bit(4, 'X'),
        bit(3, 'N'),
        bit(2, 'Z'),
        bit(1, 'V'),
        bit(0, 'C'),
    ]
}

/// What a caller of `execute_with_state` lets handle the exceptions that
/// instructions raise: it may deal with one and report the cycles it took,
/// or hand it back for the core to process.
pub trait Callbacks: Sized {
    /// How the callback answers exception `ex` offered on core `c0`: it is
    /// left as `after`, the core as `c1`, and it answers `r`. By default
    /// nothing more is promised than that it was offered `ex` on `c0`.
    open spec fn answers(
        &self,
        after: Self,
        c0: ConfiguredCore,
        ex: Exception,
        c1: ConfiguredCore,
        r: Result<Cycles>,
    ) -> bool {
        true
    }

    fn exception_callback(&mut self, core: &mut ConfiguredCore, ex: Exception) -> (r: Result<Cycles>)
        requires
            old(core).wf(),
        ensures
            final(core).wf(),
            old(self).answers(*final(self), *old(core), ex, *final(core), r),
    ;
}

/// Hands every exception back to the core.
pub struct EmulateAllExceptions;

impl Callbacks for EmulateAllExceptions {
    open spec fn answers(
        &self,
        after: Self,
        c0: ConfiguredCore,
        ex: Exception,
        c1: ConfiguredCore,
        r: Result<Cycles>,
    ) -> bool {
        r == Err::<Cycles, Exception>(ex) && c1 == c0
    }

    fn exception_callback(&mut self, core: &mut ConfiguredCore, ex: Exception) -> (r: Result<Cycles>)
        ensures
            r == Err::<Cycles, Exception>(ex),
            *final(core) == *old(core),
    {
        Err(ex)
    }
}

fn fresh_core(base: u32, mem: LoggingMem<OpsLogger>, state: ProcessingState) -> (c: ConfiguredCore)
    requires
        mem.wf(),
    ensures
        fresh(c, base, state),
        c.int_ctrl.pending() == 0,
        c.mem == mem,
        full_instruction_set(c.instruction_set@),
{
    proof {
        lemma_mode_fields(0, 0);
    }
    let c = ConfiguredCore {
        pc: base,
        prefetch_addr: 0,
        prefetch_data: 0,
        inactive_ssp: 0,
        inactive_usp: 0,
        ir: 0,
        processing_state: state,
        dar: [0u32; 16],
        mem,
        instruction_set: crate::cpu::ops::instruction_set(),
        irq_level: 0,
        int_ctrl: AutoInterruptController::new(),
        s_flag: SFLAG_SET,
        int_mask: CPU_SR_INT_MASK,
        x_flag: 0,
        v_flag: 0,
        c_flag: 0,
        n_flag: 0,
        not_z_flag: 0xffff_ffff,
    };
    assert(c.dar@ =~= Seq::new(16, |i: int| 0u32));
    c
}

impl ConfiguredCore {
    /// A core at `base`, in the group 0 exception state that reset leaves
    /// before it has run, over empty memory filled with 0xaaaaaaaa.
    pub fn new(base: u32) -> (c: ConfiguredCore)
        ensures
            fresh(c, base, ProcessingState::Group0Exception),
            c.int_ctrl.pending() == 0,
            c.mem.init() == 0xaaaa_aaaa,
            c.mem.memory().page_set() == Set::<u32>::empty(),
            c.mem.logged() == Seq::<Operation>::empty(),
            full_instruction_set(c.instruction_set@),
    {
        let mem = LoggingMem::new(0xaaaa_aaaa, OpsLogger::new());
        fresh_core(base, mem, ProcessingState::Group0Exception)
    }

    /// A core at address 0 over empty memory, as `new_with` makes it.
    pub fn new_auto() -> (c: ConfiguredCore)
        ensures
            fresh(c, 0, ProcessingState::Group0Exception),
            c.int_ctrl.pending() == 0,
            c.mem.init() == 0xaaaa_aaaa,
            c.mem.memory().page_set() == Set::<u32>::empty(),
            c.mem.logged() == Seq::<Operation>::empty(),
            full_instruction_set(c.instruction_set@),
    {
        let mem = LoggingMem::new(0xaaaa_aaaa, OpsLogger::new());
        Self::new_with(0, AutoInterruptController::new(), mem)
    }

    /// A core at `base`, in the group 0 exception state, with the given
    /// interrupt controller and memory.
    pub fn new_with(base: u32, int_ctrl: AutoInterruptController, memory: LoggingMem<OpsLogger>) -> (c: ConfiguredCore)
        requires
            memory.wf(),
        ensures
            fresh(c, base, ProcessingState::Group0Exception),
            c.int_ctrl == int_ctrl,
            c.mem == memory,
            full_instruction_set(c.instruction_set@),
    {
        let mut c = fresh_core(base, memory, ProcessingState::Group0Exception);
        c.int_ctrl = int_ctrl;
        c
    }

    /// A core at `base`, ready to run, with `contents` written from `base`
    /// on into memory that is otherwise filled with 0xaaaaaaaa.
    pub fn new_mem(base: u32, contents: &[u8]) -> (c: ConfiguredCore)
        requires
            base + contents@.len() <= 0x1_0000_0000,
        ensures
            fresh(c, base, ProcessingState::Normal),
            c.int_ctrl.pending() == 0,
            loaded(c.mem, base, contents@, 0xaaaa_aaaa),
            c.mem.logged() == Seq::<Operation>::empty(),
            full_instruction_set(c.instruction_set@),
    {
        Self::new_mem_init(base, contents, 0xaaaa_aaaa)
    }

    /// A core at `base`, ready to run, with `contents` written from `base`
    /// on into memory that is otherwise filled with `initializer`.
    pub fn new_mem_init(base: u32, contents: &[u8], initializer: u32) -> (c: ConfiguredCore)
        requires
            base + contents@.len() <= 0x1_0000_0000,
        ensures
            fresh(c, base, ProcessingState::Normal),
            c.int_ctrl.pending() == 0,
            loaded(c.mem, base, contents@, initializer),
            c.mem.logged() == Seq::<Operation>::empty(),
            full_instruction_set(c.instruction_set@),
    {
        let mut lm = LoggingMem::new(initializer, OpsLogger::new());
        let mut offset: usize = 0;
        while offset < contents.len()
            invariant
                offset <= contents@.len(),
                base + contents@.len() <= 0x1_0000_0000,
                lm.wf(),
                lm.init() == initializer,
                lm.logged() == Seq::<Operation>::empty(),
                loaded(lm, base, contents@.take(offset as int), initializer),
            decreases contents@.len() - offset,
        {
            let ghost before = lm;
            let address = base + offset as u32;
            lm.write_u8(address, contents[offset] as u32);
            proof {
                let s0 = contents@.take(offset as int);
                let s1 = contents@.take(offset as int + 1);
                assert forall|i: int| 0 <= i < s1.len() && (forall|j: int| i < j < s1.len() ==> !#[trigger] same_cell((base + i) as u32, (base + j) as u32))
                    implies #[trigger] lm.byte((base + i) as u32) == s1[i] by {
                    assert(lm.memory().byte((base + i) as u32) == lm.byte((base + i) as u32));
                    if i < s0.len() {
                        assert(!same_cell((base + i) as u32, (base + offset) as u32));
                        assert(s0[i] == s1[i]);
                        assert forall|j: int| i < j < s0.len() implies !#[trigger] same_cell((base + i) as u32, (base + j) as u32) by {
                            assert(!same_cell((base + i) as u32, (base + j) as u32));
                        }
                        assert(before.byte((base + i) as u32) == s0[i]);
                    } else {
                        assert(same_cell(address, address));
                        lemma_byte_roundtrip(contents@[offset as int]);
                    }
                }
                assert forall|a: u32| (forall|i: int| 0 <= i < s1.len() ==> !#[trigger] same_cell(a, (base + i) as u32))
                    implies #[trigger] lm.byte(a) == init_byte(initializer, a) by {
                    assert(!same_cell(a, (base + offset) as u32));
                    assert forall|i: int| 0 <= i < s0.len() implies !#[trigger] same_cell(a, (base + i) as u32) by {
                        assert(!same_cell(a, (base + i) as u32));
                    }
                    assert(lm.memory().byte(a) == lm.byte(a));
                    assert(before.byte(a) == init_byte(initializer, a));
                }
            }
            offset = offset + 1;
        }
        assert(contents@.take(contents@.len() as int) =~= contents@);
        fresh_core(base, lm, ProcessingState::Normal)
    }

    /// The interrupt level to be taken now, if any.
    pub fn pending_interrupt(&self) -> (r: Option<u8>)
        ensures
            r == pending_irq(*self),
    {
        let old_level = self.irq_level;
        let new_level = self.int_ctrl.highest_priority();
        let edge_triggered_nmi = old_level != 7 && new_level == 7;
        if (new_level as u32) << 8 > self.int_mask || edge_triggered_nmi {
            Some(new_level)
        } else {
            None
        }
    }

    fn stopped_with_pending_interrups(&self) -> (b: bool)
        ensures
            b == (self.processing_state == ProcessingState::Stopped && pending_irq(*self) is Some),
    {
        self.processing_state == ProcessingState::Stopped && self.pending_interrupt().is_some()
    }

    /// Whether the core can go on: it is running, or it is stopped and an
    /// interrupt is to be taken.
    pub open spec fn spec_can_execute(&self) -> bool {
        self.processing_state.spec_running() || (self.processing_state == ProcessingState::Stopped
            && pending_irq(*self) is Some)
    }

    fn can_execute(&self) -> (b: bool)
        ensures
            b == self.spec_can_execute(),
    {
        self.processing_state.running() || self.stopped_with_pending_interrups()
    }

    /// The next instruction word, or the interrupt to take first: a pending
    /// interrupt is acknowledged and reported with its vector.
    /// `s1` is `s0` after fetching the next instruction word, or taking the
    /// pending interrupt or the odd program counter that comes first; `r` is
    /// what the fetch gave.
    pub open spec fn instruction_read(s0: ConfiguredCore, s1: ConfiguredCore, r: Result<u16>) -> bool {
        &&& (pending_irq(s0) matches Some(irq) ==> r == Err::<u16, Exception>(
                Exception::Interrupt(irq, (AUTOVECTOR_BASE + irq) as u8),
            ) && s1.int_ctrl.pending() == s0.int_ctrl.pending() & !(1u8 << ((irq - 1) as u8))
                && s1 == (ConfiguredCore { int_ctrl: s1.int_ctrl, ..s0 }))
        &&& (pending_irq(s0) is None && s0.pc & 1 != 0 ==> r == Err::<u16, Exception>(s0.pc_error())
                && s1 == s0)
        &&& (pending_irq(s0) is None && s0.pc & 1 == 0 ==> ({
                let (p, w) = fetch16(s0.mem.memory(), s0.prefetch());
                &&& r == Ok::<u16, Exception>(w)
                &&& s1.mem.init() == s0.mem.init()
                &&& s1.mem.memory() == s0.mem.memory()
                &&& s1.mem.logged() == s0.fetch16_logged()
                &&& s1 == s0.with_prefetch(p, s1.mem)
            }))
    }

    pub fn read_instruction(&mut self) -> (r: Result<u16>)
        requires
            old(self).wf(),
        ensures
            final(self).wf(),
            Self::instruction_read(*old(self), *final(self), r),
    {
        match self.pending_interrupt() {
            Some(irq) => {
                proof {
                    lemma_low_bits(0);
                }
                let vector = match self.int_ctrl.acknowledge_interrupt(irq) {
                    Some(v) => v,
                    None => SPURIOUS_INTERRUPT,
                };
                Err(Exception::Interrupt(irq, vector))
            },
            None => self.read_imm_u16(),
        }
    }

    /// The flags as text: '-', S or U, the interrupt mask, then X, N, Z, V
    /// and C where set.
    pub fn flags(&self) -> (s: String)
        ensures
            s@ == flag_chars(*self),
    {
        let sr = self.status_register();
        let mut s = String::new();
        proof {
            reveal_strlit("-");
            reveal_strlit("S");
            reveal_strlit("U");
            reveal_strlit("X");
            reveal_strlit("N");
            reveal_strlit("Z");
            reveal_strlit("V");
            reveal_strlit("C");
            reveal_strlit("0");
            reveal_strlit("1");
            reveal_strlit("2");
            reveal_strlit("3");
            reveal_strlit("4");
            reveal_strlit("5");
            reveal_strlit("6");
            reveal_strlit("7");
        }
        s.append("-");
        s.append(if (sr >> 13) & 1 > 0 { "S" } else { "U" });
        let mask = (0x700 & sr) >> 8;
        proof {
            assert(mask <= 7) by (bit_vector)
                requires
                    mask == (0x700 & sr) >> 8u16,
            ;
        }
        s.append(
            if mask == 0 {
                "0"
            } else if mask == 1 {
                "1"
            } else if mask == 2 {
                "2"
            } else if mask == 3 {
                "3"
            } else if mask == 4 {
                "4"
            } else if mask == 5 {
                "5"
            } else if mask == 6 {
                "6"
            } else {
                "7"
            },
        );
        s.append(if (sr >> 4) & 1 > 0 { "X" } else { "-" });
        s.append(if (sr >> 3) & 1 > 0 { "N" } else { "-" });
        s.append(if (sr >> 2) & 1 > 0 { "Z" } else { "-" });
        s.append(if (sr >> 1) & 1 > 0 { "V" } else { "-" });
        s.append(if (sr >> 0) & 1 > 0 { "C" } else { "-" });
        assert(s@ =~= flag_chars(*self));
        s
    }
}

/// The two long words that reset reads from address 0 on, the initial
/// supervisor stack pointer and the initial program counter, with the
/// prefetch state that reading them leaves.
proof fn lemma_reset_addresses()
    by (bit_vector)
    ensures
        0u32 & !3u32 == 0u32,
        2u32 & !3u32 == 0u32,
        4u32 & !3u32 == 4u32,
        6u32 & !3u32 == 4u32,
        0u32 & 0x00ff_ffffu32 == 0u32,
        4u32 & 0x00ff_ffffu32 == 4u32,
{
}

pub open spec fn reset_fetch(mem: PagedMem, data: u32) -> (Prefetch, u32, u32) {
    let (p1, sp) = fetch32(mem, Prefetch { pc: 0, addr: 1, data });
    let (p2, pc) = fetch32(mem, p1);
    (p2, sp, pc)
}

impl ConfiguredCore {
    /// Reset: supervisor mode with all interrupts masked, the stack pointer
    /// and the program counter read from the first two long words of
    /// memory, and normal processing.
    pub fn reset(&mut self)
        requires
            old(self).wf(),
        ensures
            final(self).wf(),
            ({
                let (p, sp, pc) = reset_fetch(old(self).mem.memory(), old(self).prefetch_data);
                &&& final(self).mem.logged() == old(self).mem.logged().push(
                    Operation::ReadLong(SUPERVISOR_PROGRAM, 0, old(self).mem.memory().long(0)),
                ).push(Operation::ReadLong(SUPERVISOR_PROGRAM, 4, old(self).mem.memory().long(4)))
                &&& final(self).dar@ == old(self).dar@.update(15, sp)
                &&& final(self).mem.init() == old(self).mem.init()
                &&& final(self).mem.memory() == old(self).mem.memory()
                &&& *final(self) == (ConfiguredCore {
                    pc,
                    prefetch_addr: p.addr,
                    prefetch_data: p.data,
                    processing_state: ProcessingState::Normal,
                    s_flag: SFLAG_SET,
                    int_mask: CPU_SR_INT_MASK,
                    dar: final(self).dar,
                    mem: final(self).mem,
                    ..*old(self)
                })
            }),
    {
        self.processing_state = ProcessingState::Group0Exception;
        self.s_flag = SFLAG_SET;
        self.int_mask = CPU_SR_INT_MASK;
        // non-zero, so that the first fetch reads memory
        self.prefetch_addr = 1;
        self.jump(0);
        proof {
            lemma_mode_fields(0, 0);
            lemma_low_bits(0);
            lemma_low_bits(4);
            lemma_reset_addresses();
        }
        let sp = match self.read_imm_u32() {
            Ok(v) => v,
            Err(_) => 0,
        };
        self.dar[15] = sp;
        let new_pc = match self.read_imm_u32() {
            Ok(v) => v,
            Err(_) => 0,
        };
        self.jump(new_pc);
        self.processing_state = ProcessingState::Normal;
        assert(self.dar@ =~= old(self).dar@.update(15, sp));
    }

    /// A copy of the core with the memory contents copied but not the log,
    /// the registers and the flags copied, an empty prefetch queue, no
    /// interrupt level or request, and the full instruction set.
    pub fn clone(&self) -> (c: ConfiguredCore)
        requires
            self.wf(),
        ensures
            c.wf(),
            c.mem.init() == self.mem.init(),
            c.mem.logged() == Seq::<Operation>::empty(),
            forall|a: u32| #[trigger]
                c.mem.byte(a) == if self.mem.memory().page_set().contains(crate::ram::pagedmem::page_of(a)) {
                    self.mem.byte(a)
                } else {
                    init_byte(self.mem.init(), a)
                },
            c.pc == self.pc,
            c.inactive_ssp == self.inactive_ssp,
            c.inactive_usp == self.inactive_usp,
            c.ir == self.ir,
            c.processing_state == self.processing_state,
            c.dar == self.dar,
            c.s_flag == self.s_flag,
            c.int_mask == self.int_mask,
            c.x_flag == self.x_flag,
            c.v_flag == self.v_flag,
            c.c_flag == self.c_flag,
            c.n_flag == self.n_flag,
            c.not_z_flag == self.not_z_flag,
            c.prefetch_addr == 0,
            c.prefetch_data == 0,
            c.irq_level == 0,
            c.int_ctrl.pending() == 0,
            full_instruction_set(c.instruction_set@),
            forall|a: u32| #[trigger] c.mem.byte(a) == self.mem.byte(a),
    {
        let mut lm = LoggingMem::new(self.mem.init_value(), OpsLogger::new());
        lm.copy_from(&self.mem);
        let mut c = fresh_core(self.pc, lm, self.processing_state);
        c.inactive_ssp = self.inactive_ssp;
        c.inactive_usp = self.inactive_usp;
        c.ir = self.ir;
        c.dar = self.dar;
        c.s_flag = self.s_flag;
        c.int_mask = self.int_mask;
        c.x_flag = self.x_flag;
        c.v_flag = self.v_flag;
        c.c_flag = self.c_flag;
        c.n_flag = self.n_flag;
        c.not_z_flag = self.not_z_flag;
        assert forall|a: u32| #[trigger] c.mem.byte(a) == self.mem.byte(a) by {
            self.mem.lemma_unallocated_byte(a);
        }
        c
    }

    /// The supervisor stack pointer, wherever it is kept in the current
    /// mode.
    fn supervisor_stack_pointer(&self) -> (r: u32)
        ensures
            r == self.supervisor_sp(),
    {
        if self.s_flag == SFLAG_CLEAR {
            self.inactive_ssp
        } else {
            self.dar[15]
        }
    }

    /// `s1` is `s0` after processing exception `ex`, which took `r` cycles.
    pub open spec fn exception_processed(s0: ConfiguredCore, s1: ConfiguredCore, ex: Exception, r: Cycles) -> bool {
        &&& (s0.supervisor_sp() & 1 != 0 ==> r == Cycles(0) && s1 == (ConfiguredCore {
                processing_state: ProcessingState::Halted,
                ..s0
            }))
        &&& (s0.supervisor_sp() & 1 == 0 ==> match ex {
                Exception::IllegalInstruction(_, pc) => r == Cycles(34) && Self::exception_taken(
                    s0,
                    s1,
                    ProcessingState::Group1Exception,
                    pc,
                    EXCEPTION_ILLEGAL_INSTRUCTION,
                ),
                Exception::PrivilegeViolation(_, pc) => r == Cycles(34) && Self::exception_taken(
                    s0,
                    s1,
                    ProcessingState::Group1Exception,
                    pc,
                    EXCEPTION_PRIVILEGE_VIOLATION,
                ),
                Exception::UnimplementedInstruction(_, pc, vector) => r == Cycles(34) && Self::exception_taken(
                    s0,
                    s1,
                    ProcessingState::Group2Exception,
                    pc,
                    vector,
                ),
                Exception::Trap(num, cycles) => r == Cycles(cycles) && Self::exception_taken(
                    s0,
                    s1,
                    ProcessingState::Group2Exception,
                    s0.pc,
                    num,
                ),
                Exception::AddressError { address, access_type, processing_state, address_space } =>
                    if processing_state == ProcessingState::Group0Exception {
                    r == Cycles(0) && s1 == (ConfiguredCore {
                        processing_state: ProcessingState::Halted,
                        ..s0
                    })
                } else {
                    r == Cycles(50) && Self::address_error_taken(
                        s0,
                        s1,
                        address,
                        access_type,
                        processing_state,
                        address_space,
                    )
                },
                Exception::Interrupt(irq, vector) => r == Cycles(44) && Self::interrupt_taken(
                    s0,
                    s1,
                    irq,
                    vector,
                ),
            })
    }

    /// Processes an exception as the 68000 does. A supervisor stack pointer
    /// that is odd cannot take an exception frame, and halts the processor.
    pub fn process_exception(&mut self, ex: Exception) -> (r: Cycles)
        requires
            old(self).wf(),
        ensures
            final(self).wf(),
            Self::exception_processed(*old(self), *final(self), ex, r),
    {
        if self.supervisor_stack_pointer() & 1 != 0 {
            self.processing_state = ProcessingState::Halted;
            return Cycles(0);
        }
        match ex {
            Exception::AddressError { address, access_type, processing_state, address_space } => self.handle_address_error(
                address,
                access_type,
                processing_state,
                address_space,
            ),
            Exception::IllegalInstruction(_, pc) => self.handle_illegal_instruction(pc),
            Exception::UnimplementedInstruction(_, pc, vector) => self.handle_unimplemented_instruction(pc, vector),
            Exception::Trap(num, ea_calculation_cycles) => self.handle_trap(num, ea_calculation_cycles),
            Exception::PrivilegeViolation(_, pc) => self.handle_privilege_violation(pc),
            Exception::Interrupt(irq, vector) => self.handle_interrupt(irq, vector),
        }
    }

    /// Runs the handler of the instruction word `opcode`; a word beyond the
    /// instruction set is illegal.
    fn dispatch(&mut self, opcode: u16) -> (r: Result<Cycles>)
        requires
            old(self).wf(),
        ensures
            final(self).wf(),
            handler_effect(
                Self::handler_for(*old(self), opcode),
                ConfiguredCore { ir: opcode, ..*old(self) },
                *final(self),
                r,
            ),
    {
        self.ir = opcode;
        let i = opcode as usize;
        if i < self.instruction_set.len() {
            let h = self.instruction_set[i];
            crate::cpu::ops::handlers::run(self, h)
        } else {
            crate::cpu::ops::illegal(self)
        }
    }

    /// The handler the core's table gives `opcode`; words past the table
    /// are illegal.
    pub open spec fn handler_for(c: ConfiguredCore, opcode: u16) -> Handler {
        if (opcode as int) < c.instruction_set@.len() {
            c.instruction_set@[opcode as int]
        } else {
            Handler::Illegal
        }
    }

    /// `s1` is the core after exception `ex`, raised on core `b`, was
    /// offered to the callback `cb0` (left as `cb1`): either the callback
    /// dealt with it and answered the cycles it took, or it answered with an
    /// exception, which the core then processed.
    pub open spec fn offered<S: Callbacks>(
        cb0: S,
        cb1: S,
        b: ConfiguredCore,
        ex: Exception,
        s1: ConfiguredCore,
        used: i32,
    ) -> bool {
        exists|c: ConfiguredCore, ans: Result<Cycles>|
            #[trigger] cb0.answers(cb1, b, ex, c, ans) && c.wf() && match ans {
                Ok(k) => s1 == c && used == k.0,
                Err(e) => Self::exception_processed(c, s1, e, Cycles(used)),
            }
    }

    /// `s1` is `s0` after one step that took `used` cycles, the callback
    /// going from `cb0` to `cb1`: the next instruction word fetched (or the
    /// pending interrupt or the odd program counter taken instead) and run by
    /// its handler, and any exception this raised offered to the callback.
    #[verifier::opaque]
    pub open spec fn stepped<S: Callbacks>(
        cb0: S,
        cb1: S,
        s0: ConfiguredCore,
        s1: ConfiguredCore,
        used: i32,
    ) -> bool {
        exists|a: ConfiguredCore, fetched: Result<u16>|
            #[trigger] Self::instruction_read(s0, a, fetched) && match fetched {
                Err(ex) => Self::offered(cb0, cb1, a, ex, s1, used),
                Ok(opcode) => exists|b: ConfiguredCore, res: Result<Cycles>|
                    #[trigger] handler_effect(
                        Self::handler_for(a, opcode),
                        ConfiguredCore { ir: opcode, ..a },
                        b,
                        res,
                    ) && match res {
                        Ok(c) => s1 == b && used == c.0 && cb1 == cb0,
                        Err(ex) => Self::offered(cb0, cb1, b, ex, s1, used),
                    },
            }
    }

    /// One step: an instruction, or the interrupt that comes first, with any
    /// exception offered to `state` and, when it answers with one, processed;
    /// gives the cycles.
    fn step<S: Callbacks>(&mut self, state: &mut S) -> (used: i32)
        requires
            old(self).wf(),
        ensures
            final(self).wf(),
            Self::stepped(*old(state), *final(state), *old(self), *final(self), used),
    {
        let ghost s0 = *self;
        let ghost cb0 = *state;
        let fetched = self.read_instruction();
        let ghost a = *self;
        let result = match fetched {
            Ok(opcode) => self.dispatch(opcode),
            Err(e) => Err(e),
        };
        let ghost b = *self;
        let used = match result {
            Ok(cycles_used) => cycles_used.0,
            Err(ex) => {
                let answer = state.exception_callback(self, ex);
                let ghost c = *self;
                let used = match answer {
                    Ok(cycles_used) => cycles_used.0,
                    Err(e) => self.process_exception(e).0,
                };
                proof {
                    assert(cb0.answers(*state, b, ex, c, answer));
                }
                used
            },
        };
        proof {
            reveal(ConfiguredCore::stepped);
            match fetched {
                Err(_) => {
                    assert(Self::instruction_read(s0, a, fetched));
                },
                Ok(opcode) => {
                    assert(handler_effect(
                        Self::handler_for(a, opcode),
                        ConfiguredCore { ir: opcode, ..a },
                        b,
                        result,
                    ));
                    assert(Self::instruction_read(s0, a, fetched));
                },
            }
        }
        used
    }

    /// `trace` runs through `used.len()` steps, each from a state that could
    /// execute, step `i` taking `used[i]` cycles and leaving the callback as
    /// `cbs[i + 1]`.
    pub open spec fn steps<S: Callbacks>(trace: Seq<ConfiguredCore>, cbs: Seq<S>, used: Seq<i32>) -> bool
        decreases used.len(),
    {
        if used.len() == 0 {
            trace.len() == 1 && cbs.len() == 1
        } else {
            let n = used.len() as int;
            &&& trace.len() == n + 1
            &&& cbs.len() == n + 1
            &&& Self::steps(trace.drop_last(), cbs.drop_last(), used.drop_last())
            &&& trace[n - 1].spec_can_execute()
            &&& Self::stepped(cbs[n - 1], cbs[n], trace[n - 1], trace[n], used[n - 1])
        }
    }

    proof fn lemma_steps_push<S: Callbacks>(
        trace: Seq<ConfiguredCore>,
        cbs: Seq<S>,
        used: Seq<i32>,
        s: ConfiguredCore,
        cb: S,
        u: i32,
    )
        requires
            Self::steps(trace, cbs, used),
            trace.last().spec_can_execute(),
            Self::stepped(cbs.last(), cb, trace.last(), s, u),
        ensures
            Self::steps(trace.push(s), cbs.push(cb), used.push(u)),
    {
        if used.len() == 0 {
            assert(trace.len() == 1 && cbs.len() == 1);
        }
        assert(trace.len() == used.len() + 1 && cbs.len() == used.len() + 1);
        assert(trace.push(s).drop_last() =~= trace);
        assert(cbs.push(cb).drop_last() =~= cbs);
        assert(used.push(u).drop_last() =~= used);
    }

    /// The cycles a run counts: every step's but a last one that took
    /// none.
    pub open spec fn counted(used: Seq<i32>) -> int
        decreases used.len(),
    {
        if used.len() == 0 {
            0
        } else {
            Self::counted(used.drop_last()) + used.last()
        }
    }

    /// The cycles of a run that are taken off what it was given: those of
    /// every step, but for a last step whose count would take what is left
    /// past `i32::MAX`, which is not taken off.
    pub open spec fn tallied(cycles: i32, used: Seq<i32>) -> int {
        if used.len() > 0 && cycles - Self::counted(used) > i32::MAX {
            Self::counted(used.drop_last())
        } else {
            Self::counted(used)
        }
    }

    /// `trace` is a run of `used.len()` steps given `cycles`: each step
    /// started where the core could execute and took `used[i]` (a negative
    /// count gives cycles back); after every step but the last some of
    /// `cycles` were left, a count that fits an `i32`; and the run ended when
    /// the cycles ran out, when what is left would no longer fit an `i32`,
    /// when the core could no longer execute, or after `u64::MAX` steps.
    pub open spec fn ran<S: Callbacks>(
        trace: Seq<ConfiguredCore>,
        cbs: Seq<S>,
        used: Seq<i32>,
        cycles: i32,
    ) -> bool {
        let n = used.len() as int;
        &&& trace.len() == n + 1
        &&& Self::steps(trace, cbs, used)
        &&& forall|i: int|
            0 <= i < n - 1 ==> 0 < cycles - Self::counted(#[trigger] used.take(i + 1)) <= i32::MAX
        &&& n > 0 ==> cycles > 0
        &&& n == 0 ==> cycles <= 0 || !trace[0].spec_can_execute()
        &&& n > 0 ==> cycles - Self::counted(used) <= 0 || cycles - Self::counted(used) > i32::MAX
            || !trace[n].spec_can_execute() || n >= u64::MAX
    }

    /// A run given one cycle goes on only while its steps have taken no
    /// cycles in all: `execute1` executes one instruction, or takes one
    /// exception or interrupt, once any steps that cost nothing are done.
    pub proof fn law_one_cycle_is_one_step<S: Callbacks>(
        trace: Seq<ConfiguredCore>,
        cbs: Seq<S>,
        used: Seq<i32>,
    )
        requires
            Self::ran(trace, cbs, used, 1),
        ensures
            forall|i: int| 0 <= i < used.len() - 1 ==> Self::counted(#[trigger] used.take(i + 1)) <= 0,
    {
    }

    /// The cycles a run of `cycles` reports having used, `counted` of them
    /// counted: a stopped or halted core uses all it was given, and any
    /// overrun; the report saturates.
    pub open spec fn reported(cycles: i32, counted: int, running: bool) -> i32 {
        let remaining = cycles - counted;
        let consumed = if running || remaining < 0 {
            cycles - remaining
        } else {
            cycles as int
        };
        if consumed > i32::MAX {
            i32::MAX
        } else {
            consumed as i32
        }
    }

    /// Executes for about `cycles` clock cycles and gives the cycles used.
    /// Every exception goes through `state` first. A stopped or halted
    /// core uses up all the cycles it is given. Every count a step reports is
    /// taken off what is left, a negative one too; the run stops when what is
    /// left would no longer fit an `i32`, and after the `u64::MAX`-th step.
    pub fn execute_with_state<S: Callbacks>(&mut self, cycles: i32, state: &mut S) -> (r: Cycles)
        requires
            old(self).wf(),
        ensures
            final(self).wf(),
            cycles <= 0 ==> r == Cycles(0) && *final(self) == *old(self),
            cycles > 0 && !old(self).spec_can_execute() ==> *final(self) == *old(self) && r == if old(
                self,
            ).processing_state.spec_running() {
                Cycles(0)
            } else {
                Cycles(cycles)
            },
            cycles > 0 && !final(self).processing_state.spec_running() ==> r.0 >= cycles,
            exists|trace: Seq<ConfiguredCore>, cbs: Seq<S>, used: Seq<i32>|
                #[trigger] Self::ran(trace, cbs, used, cycles) && trace[0] == *old(self)
                    && trace.last() == *final(self) && cbs[0] == *old(state) && cbs.last()
                    == *final(state) && r == Cycles(
                    Self::reported(
                        cycles,
                        Self::tallied(cycles, used),
                        final(self).processing_state.spec_running(),
                    ),
                ),
    {
        let mut remaining: i32 = cycles;
        let mut going = true;
        let mut steps_left: u64 = u64::MAX;
        let ghost mut trace: Seq<ConfiguredCore> = seq![*self];
        let ghost mut used_seq: Seq<i32> = Seq::empty();
        let ghost mut cbs: Seq<S> = seq![*state];
        while going && remaining > 0 && steps_left > 0 && self.can_execute()
            invariant
                self.wf(),
                trace.len() == used_seq.len() + 1,
                cbs.len() == used_seq.len() + 1,
                trace[0] == *old(self),
                trace.last() == *self,
                cbs[0] == *old(state),
                cbs.last() == *state,
                Self::steps(trace, cbs, used_seq),
                forall|i: int|
                    0 <= i < used_seq.len() - 1 ==> 0 < cycles - Self::counted(#[trigger] used_seq.take(i + 1)) <= i32::MAX,
                used_seq.len() > 0 ==> cycles > 0 && trace[0].spec_can_execute(),
                used_seq.len() + steps_left == u64::MAX,
                going ==> remaining == cycles - Self::counted(used_seq),
                !going ==> used_seq.len() > 0 && remaining == cycles - Self::counted(used_seq.drop_last())
                    && cycles - Self::counted(used_seq) > i32::MAX,
            decreases steps_left,
        {
            let ghost before = *self;
            let ghost old_used = used_seq;
            let ghost old_trace = trace;
            let ghost old_cbs = cbs;
            let used = self.step(state);
            proof {
                trace = trace.push(*self);
                cbs = cbs.push(*state);
                used_seq = used_seq.push(used);
                assert(used_seq.drop_last() =~= old_used);
                assert forall|i: int| 0 <= i < used_seq.len() - 1 implies 0 < cycles - Self::counted(
                    #[trigger] used_seq.take(i + 1),
                ) <= i32::MAX by {
                    if i < old_used.len() - 1 {
                        assert(used_seq.take(i + 1) =~= old_used.take(i + 1));
                    } else {
                        assert(used_seq.take(i + 1) =~= old_used);
                    }
                }
                Self::lemma_steps_push(old_trace, old_cbs, old_used, *self, *state, used);
            }
            steps_left = steps_left - 1;
            if used < 0 && remaining > i32::MAX + used {
                // what is left would not fit an i32
                going = false;
            } else {
                remaining = remaining - used;
            }
        }
        let consumed: i64 = if self.processing_state.running() {
            cycles as i64 - remaining as i64
        } else {
            // not running: all the cycles are used, and any overrun too
            let adjust: i64 = if remaining < 0 {
                remaining as i64
            } else {
                0
            };
            cycles as i64 - adjust
        };
        let r = Cycles(if consumed > i32::MAX as i64 {
            i32::MAX
        } else {
            consumed as i32
        });
        proof {
            assert(Self::ran(trace, cbs, used_seq, cycles));
            assert(remaining == cycles - Self::tallied(cycles, used_seq));
        }
        r
    }

    /// Executes for about `cycles` clock cycles, processing every exception.
    pub fn execute(&mut self, cycles: i32) -> (r: Cycles)
        requires
            old(self).wf(),
        ensures
            final(self).wf(),
            cycles <= 0 ==> r == Cycles(0) && *final(self) == *old(self),
            cycles > 0 && !final(self).processing_state.spec_running() ==> r.0 >= cycles,
            exists|trace: Seq<ConfiguredCore>, cbs: Seq<EmulateAllExceptions>, used: Seq<i32>|
                #[trigger] Self::ran(trace, cbs, used, cycles) && trace[0] == *old(self)
                    && trace.last() == *final(self) && r == Cycles(
                    Self::reported(
                        cycles,
                        Self::tallied(cycles, used),
                        final(self).processing_state.spec_running(),
                    ),
                ),
    {
        self.execute_with_state(cycles, &mut EmulateAllExceptions)
    }

    /// Executes one instruction, or takes one exception or interrupt.
    pub fn execute1(&mut self) -> (r: Cycles)
        requires
            old(self).wf(),
        ensures
            final(self).wf(),
            !final(self).processing_state.spec_running() ==> r.0 >= 1,
            exists|trace: Seq<ConfiguredCore>, cbs: Seq<EmulateAllExceptions>, used: Seq<i32>|
                #[trigger] Self::ran(trace, cbs, used, 1) && trace[0] == *old(self)
                    && trace.last() == *final(self) && r == Cycles(
                    Self::reported(
                        1,
                        Self::tallied(1, used),
                        final(self).processing_state.spec_running(),
                    ),
                ),
    {
        self.execute(1)
    }
}

} // verus!
