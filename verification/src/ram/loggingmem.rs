use vstd::prelude::*;
use super::{AddressSpace, ADDRBUS_MASK, space_name};
use crate::text::{lower_hex_padded, push_lower_hex};
use super::pagedmem::{PagedMem, byte_stored, word_stored, long_stored};

verus! {

/// One bus access, as seen by a logging memory.
#[derive(Clone, Copy, Debug, PartialEq, Eq, Structural)]
pub enum Operation {
    NoOp,
    ReadByte(AddressSpace, u32, u8),
    ReadWord(AddressSpace, u32, u16),
    ReadLong(AddressSpace, u32, u32),
    WriteByte(AddressSpace, u32, u32),
    WriteWord(AddressSpace, u32, u32),
    WriteLong(AddressSpace, u32, u32),
}

/// Something that records bus accesses.
pub trait OpsLogging {
    /// The accesses recorded so far, oldest first.
    spec fn logged(&self) -> Seq<Operation>;

    fn log(&mut self, op: Operation)
        ensures
            final(self).logged() == old(self).logged().push(op),
    ;
}

/// Keeps every logged access in order.
pub struct OpsLogger {
    log: Vec<Operation>,
}

impl OpsLogger {
    pub fn new() -> (l: OpsLogger)
        ensures
            l.logged() == Seq::<Operation>::empty(),
    {
        OpsLogger { log: Vec::new() }
    }

    /// A copy of the accesses logged so far.
    pub fn ops(&self) -> (r: Vec<Operation>)
        ensures
            r@ == self.logged(),
    {
        let mut r: Vec<Operation> = Vec::new();
        let mut i: usize = 0;
        while i < self.log.len()
            invariant
                i <= self.log@.len(),
                r@ == self.log@.subrange(0, i as int),
            decreases self.log@.len() - i,
        {
            r.push(self.log[i]);
            i = i + 1;
        }
        assert(self.log@.subrange(0, self.log@.len() as int) == self.log@);
        r
    }

    pub fn len(&self) -> (n: usize)
        ensures
            n == self.logged().len(),
    {
        self.log.len()
    }

    pub fn is_empty(&self) -> (b: bool)
        ensures
            b == (self.logged().len() == 0),
    {
        self.log.len() == 0
    }
}

impl OpsLogging for OpsLogger {
    closed spec fn logged(&self) -> Seq<Operation> {
        self.log@
    }

    fn log(&mut self, op: Operation) {
        self.log.push(op);
    }
}

/// The effect of an access that reads: the contents stay, `op` is logged.
pub open spec fn read_logged<T: OpsLogging>(m0: LoggingMem<T>, m1: LoggingMem<T>, op: Operation) -> bool {
    &&& m1.wf()
    &&& m1.init() == m0.init()
    &&& m1.memory() == m0.memory()
    &&& m1.logged() == m0.logged().push(op)
}

/// Paged memory that reports every bus access to its logger.
pub struct LoggingMem<T: OpsLogging> {
    pub logger: T,
    mem: PagedMem,
    pub initializer: u32,
}

impl<T: OpsLogging> LoggingMem<T> {
    pub closed spec fn wf(&self) -> bool {
        &&& self.mem.wf()
        &&& self.mem.init() == self.initializer
    }

    /// The memory contents, without the log.
    pub closed spec fn memory(&self) -> PagedMem {
        self.mem
    }

    /// The accesses logged so far.
    pub closed spec fn logged(&self) -> Seq<Operation> {
        self.logger.logged()
    }


    pub closed spec fn init(&self) -> u32 {
        self.initializer
    }

    /// The byte that a read of `address` gives back.
    pub open spec fn byte(&self, address: u32) -> u8 {
        self.memory().byte(address)
    }

    /// A byte on a page that was never allocated reads as the initializer
    /// pattern gives it.
    pub proof fn lemma_unallocated_byte(&self, a: u32)
        requires
            self.wf(),
        ensures
            !self.memory().page_set().contains(super::pagedmem::page_of(a)) ==> self.byte(a)
                == super::pagedmem::init_byte(self.init(), a),
    {
        self.mem.lemma_unallocated_byte(a);
    }

    /// The logger, whose record is the accesses logged so far.
    pub fn logger(&self) -> (r: &T)
        ensures
            r.logged() == self.logged(),
    {
        &self.logger
    }

    pub fn new(initializer: u32, logger: T) -> (m: LoggingMem<T>)
        ensures
            m.wf(),
            m.init() == initializer,
            m.memory().init() == initializer,
            m.memory().page_set() == Set::<u32>::empty(),
            m.logged() == logger.logged(),
            forall|a: u32| #[trigger] m.byte(a) == super::pagedmem::init_byte(initializer, a),
    {
        LoggingMem { logger, mem: PagedMem::new(initializer), initializer }
    }

    /// The value that fills memory that was never written.
    pub fn init_value(&self) -> (r: u32)
        ensures
            r == self.init(),
    {
        self.initializer
    }

    /// Reads a byte without logging it.
    pub fn read_u8(&self, address: u32) -> (r: u32)
        requires
            self.wf(),
        ensures
            r == self.byte(address) as u32,
    {
        self.mem.read_u8(address)
    }

    /// Writes a byte without logging it.
    pub fn write_u8(&mut self, address: u32, value: u32)
        requires
            old(self).wf(),
        ensures
            final(self).wf(),
            final(self).init() == old(self).init(),
            final(self).logged() == old(self).logged(),
            byte_stored(old(self).memory(), final(self).memory(), address, value),
    {
        self.mem.write_u8(address, value)
    }

    /// Every byte of every allocated page, with its bus address.
    pub fn diffs(&self) -> (d: Vec<(u32, u8)>)
        requires
            self.wf(),
        ensures
            d@.len() == super::pagedmem::PAGE_SIZE * self.memory().page_set().len(),
            forall|i: int|
                0 <= i < d@.len() ==> {
                    let (addr, b) = #[trigger] d@[i];
                    &&& self.memory().page_set().contains(super::pagedmem::page_of(addr))
                    &&& addr <= ADDRBUS_MASK
                    &&& b == self.byte(addr)
                },
            forall|i: int, j: int| 0 <= i < j < d@.len() ==> (#[trigger] d@[i]).0 < (#[trigger] d@[j]).0,
            forall|a: u32|
                #[trigger] self.memory().page_set().contains(super::pagedmem::page_of(a)) ==> exists|i: int|
                    0 <= i < d@.len() && (#[trigger] d@[i]).0 == a & ADDRBUS_MASK,
            forall|a: u32|
                #[trigger] self.byte(a) != super::pagedmem::init_byte(self.init(), a) ==> exists|i: int|
                    0 <= i < d@.len() && (#[trigger] d@[i]).0 == a & ADDRBUS_MASK,
    {
        self.mem.diffs()
    }

    /// Copies the contents of `other` without logging.
    pub fn copy_from(&mut self, other: &Self)
        requires
            old(self).wf(),
            other.wf(),
        ensures
            final(self).wf(),
            final(self).init() == old(self).init(),
            final(self).logged() == old(self).logged(),
            forall|a: u32| #[trigger]
                final(self).byte(a) == if other.memory().page_set().contains(
                    super::pagedmem::page_of(a),
                ) {
                    other.byte(a)
                } else {
                    old(self).byte(a)
                },
    {
        self.mem.copy_from(&other.mem)
    }

    pub fn read_byte(&mut self, address_space: AddressSpace, address: u32) -> (r: u32)
        requires
            old(self).wf(),
        ensures
            final(self).wf(),
            final(self).init() == old(self).init(),
            final(self).memory() == old(self).memory(),
            r == old(self).byte(address) as u32,
            final(self).logged() == old(self).logged().push(
                Operation::ReadByte(address_space, address & ADDRBUS_MASK, r as u8),
            ),
    {
        let value = self.mem.read_u8(address);
        self.logger.log(Operation::ReadByte(address_space, address & ADDRBUS_MASK, value as u8));
        value
    }

    pub fn read_word(&mut self, address_space: AddressSpace, address: u32) -> (r: u32)
        requires
            old(self).wf(),
        ensures
            final(self).wf(),
            final(self).init() == old(self).init(),
            final(self).memory() == old(self).memory(),
            r == old(self).memory().word(address),
            final(self).logged() == old(self).logged().push(
                Operation::ReadWord(address_space, address & ADDRBUS_MASK, r as u16),
            ),
    {
        let value = self.mem.read_word(address_space, address);
        self.logger.log(Operation::ReadWord(address_space, address & ADDRBUS_MASK, value as u16));
        value
    }

    pub fn read_long(&mut self, address_space: AddressSpace, address: u32) -> (r: u32)
        requires
            old(self).wf(),
        ensures
            final(self).wf(),
            final(self).init() == old(self).init(),
            final(self).memory() == old(self).memory(),
            r == old(self).memory().long(address),
            final(self).logged() == old(self).logged().push(
                Operation::ReadLong(address_space, address & ADDRBUS_MASK, r),
            ),
    {
        let value = self.mem.read_long(address_space, address);
        self.logger.log(Operation::ReadLong(address_space, address & ADDRBUS_MASK, value));
        value
    }

    pub fn write_byte(&mut self, address_space: AddressSpace, address: u32, value: u32)
        requires
            old(self).wf(),
        ensures
            final(self).wf(),
            final(self).init() == old(self).init(),
            byte_stored(old(self).memory(), final(self).memory(), address, value),
            final(self).logged() == old(self).logged().push(
                Operation::WriteByte(address_space, address & ADDRBUS_MASK, value),
            ),
    {
        self.logger.log(Operation::WriteByte(address_space, address & ADDRBUS_MASK, value));
        self.mem.write_u8(address, value);
    }

    pub fn write_word(&mut self, address_space: AddressSpace, address: u32, value: u32)
        requires
            old(self).wf(),
        ensures
            final(self).wf(),
            final(self).init() == old(self).init(),
            word_stored(old(self).memory(), final(self).memory(), address, value),
            final(self).logged() == old(self).logged().push(
                Operation::WriteWord(address_space, address & ADDRBUS_MASK, value),
            ),
    {
        self.logger.log(Operation::WriteWord(address_space, address & ADDRBUS_MASK, value));
        self.mem.write_word(address_space, address, value);
    }

    pub fn write_long(&mut self, address_space: AddressSpace, address: u32, value: u32)
        requires
            old(self).wf(),
        ensures
            final(self).wf(),
            final(self).init() == old(self).init(),
            long_stored(old(self).memory(), final(self).memory(), address, value),
            final(self).logged() == old(self).logged().push(
                Operation::WriteLong(address_space, address & ADDRBUS_MASK, value),
            ),
    {
        self.logger.log(Operation::WriteLong(address_space, address & ADDRBUS_MASK, value));
        self.mem.write_long(address_space, address, value);
    }
}

/// An access as the log writes it: kind, address space, address, then the
/// value read (`=>`) or written (`<=`).
pub open spec fn operation_text(op: Operation) -> Seq<char> {
    match op {
        Operation::NoOp => "None"@,
        Operation::ReadByte(a, addr, v) => "ReadByte"@ + space_name(a) + " @"@ + lower_hex_padded(
            addr as nat,
            6,
        ) + " => "@ + lower_hex_padded(v as nat, 2),
        Operation::ReadWord(a, addr, v) => "ReadWord"@ + space_name(a) + " @"@ + lower_hex_padded(
            addr as nat,
            6,
        ) + " => "@ + lower_hex_padded(v as nat, 4),
        Operation::ReadLong(a, addr, v) => "ReadLong"@ + space_name(a) + " @"@ + lower_hex_padded(
            addr as nat,
            6,
        ) + " => "@ + lower_hex_padded(v as nat, 8),
        Operation::WriteByte(a, addr, v) => "WriteByte"@ + space_name(a) + " @"@
            + lower_hex_padded(addr as nat, 6) + " <= "@ + lower_hex_padded(v as nat, 2),
        Operation::WriteWord(a, addr, v) => "WriteWord"@ + space_name(a) + " @"@
            + lower_hex_padded(addr as nat, 6) + " <= "@ + lower_hex_padded(v as nat, 4),
        Operation::WriteLong(a, addr, v) => "WriteLong"@ + space_name(a) + " @"@
            + lower_hex_padded(addr as nat, 6) + " <= "@ + lower_hex_padded(v as nat, 8),
    }
}

fn push_access(s: &mut String, kind: &str, a: AddressSpace, addr: u32, dir: &str, v: u32, width: usize)
    ensures
        final(s)@ == old(s)@ + kind@ + space_name(a) + " @"@ + lower_hex_padded(addr as nat, 6)
            + dir@ + lower_hex_padded(v as nat, width as nat),
{
    s.append(kind);
    s.append(a.name());
    s.append(" @");
    push_lower_hex(s, addr, 6);
    s.append(dir);
    push_lower_hex(s, v, width);
    assert(s@ =~= old(s)@ + kind@ + space_name(a) + " @"@ + lower_hex_padded(addr as nat, 6)
        + dir@ + lower_hex_padded(v as nat, width as nat));
}

impl Operation {
    /// The access as the log writes it.
    pub fn to_string(&self) -> (r: String)
        ensures
            r@ == operation_text(*self),
    {
        let mut s = String::new();
        match *self {
            Operation::NoOp => s.append("None"),
            Operation::ReadByte(a, addr, v) => push_access(&mut s, "ReadByte", a, addr, " => ", v as u32, 2),
            Operation::ReadWord(a, addr, v) => push_access(&mut s, "ReadWord", a, addr, " => ", v as u32, 4),
            Operation::ReadLong(a, addr, v) => push_access(&mut s, "ReadLong", a, addr, " => ", v, 8),
            Operation::WriteByte(a, addr, v) => push_access(&mut s, "WriteByte", a, addr, " <= ", v, 2),
            Operation::WriteWord(a, addr, v) => push_access(&mut s, "WriteWord", a, addr, " <= ", v, 4),
            Operation::WriteLong(a, addr, v) => push_access(&mut s, "WriteLong", a, addr, " <= ", v, 8),
        }
        assert(s@ =~= operation_text(*self));
        s
    }
}

} // verus!
