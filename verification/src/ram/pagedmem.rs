use vstd::prelude::*;
use std::collections::HashMap;
use super::{ADDRBUS_MASK, AddressSpace};

verus! {

broadcast use vstd::std_specs::hash::group_hash_axioms;

/// Bytes per page.
pub const PAGE_SIZE: u32 = 16;
/// Selects the offset of a byte within its page.
pub const ADDR_MASK: u32 = 0x0000_000f;
/// Selects the page number of a bus address (24 bits, page aligned).
pub const PAGE_MASK: u32 = 0x00ff_fff0;

/// The byte that an address holds before anything was written there:
/// the initializer is repeated every four bytes, big endian.
pub open spec fn init_byte(initializer: u32, address: u32) -> u8 {
    let lane = address & 3;
    if lane == 0 {
        ((initializer >> 24u32) & 0xff) as u8
    } else if lane == 1 {
        ((initializer >> 16u32) & 0xff) as u8
    } else if lane == 2 {
        ((initializer >> 8u32) & 0xff) as u8
    } else {
        (initializer & 0xff) as u8
    }
}

pub open spec fn page_of(address: u32) -> u32 {
    address & PAGE_MASK
}

pub open spec fn offset_of(address: u32) -> u32 {
    address & ADDR_MASK
}

/// Two addresses name the same memory cell when they agree on the
/// 24 address lines.
pub open spec fn same_cell(a: u32, b: u32) -> bool {
    a & ADDRBUS_MASK == b & ADDRBUS_MASK
}

/// `address + k` on the 32-bit address register, wrapping around.
pub open spec fn addr_plus(address: u32, k: u32) -> u32 {
    ((address as int + k as int) % 0x1_0000_0000) as u32
}

pub proof fn lemma_mask_is_mod(a: u32)
    ensures
        a & ADDRBUS_MASK == a % 0x100_0000,
{
    assert(a & 0x00ff_ffff == a % 0x100_0000) by (bit_vector);
}

/// Cells that lie within three bytes of each other on the bus are distinct,
/// whatever wrapping the addition does.
pub proof fn lemma_distinct_cells(a: u32)
    ensures
        !same_cell(a, addr_plus(a, 1)),
        !same_cell(a, addr_plus(a, 2)),
        !same_cell(a, addr_plus(a, 3)),
        !same_cell(addr_plus(a, 1), addr_plus(a, 2)),
        !same_cell(addr_plus(a, 1), addr_plus(a, 3)),
        !same_cell(addr_plus(a, 2), addr_plus(a, 3)),
        addr_plus(a, 0) == a,
{
    lemma_mask_is_mod(a);
    lemma_mask_is_mod(addr_plus(a, 1));
    lemma_mask_is_mod(addr_plus(a, 2));
    lemma_mask_is_mod(addr_plus(a, 3));
}

pub proof fn lemma_page_offset(k: u32, o: u32)
    by (bit_vector)
    requires
        k & ADDR_MASK == 0,
        k & !ADDRBUS_MASK == 0,
        o < 16,
    ensures
        k + o <= ADDRBUS_MASK,
        page_of((k + o) as u32) == k,
        offset_of((k + o) as u32) == o,
{
}

pub proof fn lemma_recompose(a: u32)
    ensures
        page_of(a) + offset_of(a) == a & ADDRBUS_MASK,
{
    assert(page_of(a) + offset_of(a) == a & 0x00ff_ffff) by (bit_vector);
}

pub proof fn lemma_aligned_gap(a: u32, b: u32)
    requires
        a & ADDR_MASK == 0,
        b & ADDR_MASK == 0,
        a < b,
    ensures
        a + 16 <= b,
{
    assert(a + 16 <= b) by (bit_vector)
        requires
            a & 0xf == 0,
            b & 0xf == 0,
            a < b,
    ;
}

pub proof fn lemma_cell_decomposition(a: u32, b: u32)
    by (bit_vector)
    ensures
        same_cell(a, b) <==> (page_of(a) == page_of(b) && offset_of(a) == offset_of(b)),
        page_of(a) & ADDR_MASK == 0,
        page_of(a) & !ADDRBUS_MASK == 0,
        offset_of(a) < 16,
        (offset_of(a) & 3) == (a & 3),
        same_cell(a, b) ==> (a & 3) == (b & 3),
{
}

/// The allocated pages after a byte write: the page of `address` is added
/// when it was missing and the byte differs from the initializer's byte.
pub open spec fn grown(pages: Set<u32>, init: u32, address: u32, byte: u8) -> Set<u32> {
    if pages.contains(page_of(address)) || byte == init_byte(init, address) {
        pages
    } else {
        pages.insert(page_of(address))
    }
}

/// The big-endian value of two bytes.
pub open spec fn be_word(b0: u8, b1: u8) -> u32 {
    (b0 as int * 0x100 + b1 as int) as u32
}

/// The big-endian value of four bytes.
pub open spec fn be_long(b0: u8, b1: u8, b2: u8, b3: u8) -> u32 {
    (b0 as int * 0x100_0000 + b1 as int * 0x1_0000 + b2 as int * 0x100 + b3 as int) as u32
}

pub proof fn lemma_be_word(b0: u32, b1: u32)
    requires
        b0 < 256,
        b1 < 256,
    ensures
        (b0 << 8u32) | b1 == be_word(b0 as u8, b1 as u8),
{
    assert((b0 << 8u32) | b1 == b0 * 0x100 + b1) by (bit_vector)
        requires
            b0 < 256,
            b1 < 256,
    ;
}

pub proof fn lemma_be_long(b0: u32, b1: u32, b2: u32, b3: u32)
    requires
        b0 < 256,
        b1 < 256,
        b2 < 256,
        b3 < 256,
    ensures
        (b0 << 24u32) | (b1 << 16u32) | (b2 << 8u32) | b3 == be_long(
            b0 as u8,
            b1 as u8,
            b2 as u8,
            b3 as u8,
        ),
{
    assert((b0 << 24u32) | (b1 << 16u32) | (b2 << 8u32) | b3 == b0 * 0x100_0000 + b1 * 0x1_0000
        + b2 * 0x100 + b3) by (bit_vector)
        requires
            b0 < 256,
            b1 < 256,
            b2 < 256,
            b3 < 256,
    ;
}

/// Some entry among the first `n` of `d` holds the bus address of `a`.
pub open spec fn listed(d: Seq<(u32, u8)>, n: int, a: u32) -> bool {
    exists|j: int| 0 <= j < n && (#[trigger] d[j]).0 == a & ADDRBUS_MASK
}

pub open spec fn strictly_increasing(s: Seq<u32>) -> bool {
    forall|i: int, j: int| 0 <= i < j < s.len() ==> s[i] < s[j]
}

/// Inserts `x` into a strictly increasing vector, keeping it so.
fn sorted_insert(v: &mut Vec<u32>, x: u32)
    requires
        strictly_increasing(old(v)@),
        !old(v)@.contains(x),
    ensures
        strictly_increasing(final(v)@),
        final(v)@.to_set() == old(v)@.to_set().insert(x),
        final(v)@.len() == old(v)@.len() + 1,
{
    let mut pos: usize = 0;
    while pos < v.len() && v[pos] < x
        invariant
            pos <= v@.len(),
            forall|i: int| 0 <= i < pos ==> v@[i] < x,
        decreases v@.len() - pos,
    {
        pos = pos + 1;
    }
    let ghost before = v@;
    assert(pos < before.len() ==> before[pos as int] > x) by {
        if pos < before.len() {
            assert(before[pos as int] != x);
        }
    }
    v.insert(pos, x);
    assert(v@ == before.subrange(0, pos as int).push(x) + before.subrange(pos as int, before.len() as int));
    assert(v@.to_set() =~= before.to_set().insert(x)) by {
        assert forall|y: u32| v@.to_set().contains(y) implies before.to_set().insert(x).contains(y) by {
            let i = choose|i: int| 0 <= i < v@.len() && v@[i] == y;
            if i < pos {
                assert(before[i] == y);
            } else if i > pos {
                assert(before[i - 1] == y);
            }
        }
        assert forall|y: u32| before.to_set().insert(x).contains(y) implies v@.to_set().contains(y) by {
            if y == x {
                assert(v@[pos as int] == x);
            } else {
                let i = choose|i: int| 0 <= i < before.len() && before[i] == y;
                if i < pos {
                    assert(v@[i] == y);
                } else {
                    assert(v@[i + 1] == y);
                }
            }
        }
    }
}

/// Memory that allocates 16-byte pages lazily: a page exists only once a
/// byte that differs from the initializer has been written to it.
pub struct PagedMem {
    pages: HashMap<u32, Vec<u8>>,
    pub initializer: u32,
}

impl PagedMem {
    /// Every page is keyed by its page number and holds sixteen bytes.
    pub closed spec fn wf(&self) -> bool {
        &&& forall|k: u32| #[trigger]
            self.pages@.contains_key(k) ==> k & ADDR_MASK == 0 && k & !ADDRBUS_MASK == 0
                && self.pages@[k]@.len() == PAGE_SIZE
    }

    /// The value that fills memory that was never written.
    pub closed spec fn init(&self) -> u32 {
        self.initializer
    }

    /// The page numbers of the allocated pages.
    pub closed spec fn page_set(&self) -> Set<u32> {
        self.pages@.dom()
    }

    /// The byte that a read of `address` gives back.
    pub closed spec fn byte(&self, address: u32) -> u8 {
        let p = page_of(address);
        if self.pages@.contains_key(p) {
            self.pages@[p]@[offset_of(address) as int]
        } else {
            init_byte(self.initializer, address)
        }
    }

    /// A byte on a page that was never allocated reads as the initializer
    /// pattern gives it.
    pub proof fn lemma_unallocated_byte(&self, a: u32)
        ensures
            !self.page_set().contains(page_of(a)) ==> self.byte(a) == init_byte(self.init(), a),
    {
    }

    pub proof fn lemma_byte_by_cell(&self, a: u32, b: u32)
        requires
            same_cell(a, b),
        ensures
            self.byte(a) == self.byte(b),
    {
        lemma_cell_decomposition(a, b);
    }

    pub fn new(initializer: u32) -> (m: PagedMem)
        ensures
            m.wf(),
            m.init() == initializer,
            m.page_set() == Set::<u32>::empty(),
            forall|a: u32| #[trigger] m.byte(a) == init_byte(initializer, a),
    {
        PagedMem { pages: HashMap::new(), initializer }
    }

    /// The number of pages allocated so far.
    pub fn allocated_pages(&self) -> (n: usize)
        ensures
            n == self.page_set().len(),
    {
        self.pages.len()
    }

    /// The initializer's byte for the lane of `address`.
    fn read_initializer(&self, address: u32) -> (b: u8)
        ensures
            b == init_byte(self.initializer, address),
    {
        let lane = address % 4;
        assert(address % 4 == address & 3) by (bit_vector);
        let init = self.initializer;
        if lane == 0 {
            ((init >> 24u32) & 0xFF) as u8
        } else if lane == 1 {
            ((init >> 16u32) & 0xFF) as u8
        } else if lane == 2 {
            ((init >> 8u32) & 0xFF) as u8
        } else {
            (init & 0xFF) as u8
        }
    }

    fn new_page_is_needed(&self, address: u32, value_to_write: u8) -> (r: bool)
        ensures
            r == (!self.page_set().contains(page_of(address)) && value_to_write != init_byte(
                self.init(),
                address,
            )),
    {
        let pageno = address & PAGE_MASK;
        let write_differs_from_initializer = value_to_write != self.read_initializer(address);
        !self.pages.contains_key(&pageno) && write_differs_from_initializer
    }

    fn create_initialized_page(&mut self, pageno: u32)
        requires
            old(self).wf(),
            pageno & ADDR_MASK == 0,
            pageno & !ADDRBUS_MASK == 0,
            !old(self).page_set().contains(pageno),
        ensures
            final(self).wf(),
            final(self).init() == old(self).init(),
            final(self).page_set() == old(self).page_set().insert(pageno),
            forall|a: u32| #[trigger] final(self).byte(a) == old(self).byte(a),
    {
        let mut page: Vec<u8> = Vec::with_capacity(PAGE_SIZE as usize);
        let mut offset: u32 = 0;
        while offset < PAGE_SIZE
            invariant
                offset <= PAGE_SIZE,
                page@.len() == offset,
                forall|i: int| 0 <= i < offset ==> #[trigger] page@[i] == init_byte(self.initializer, i as u32),
            decreases PAGE_SIZE - offset,
        {
            let b = self.read_initializer(offset);
            page.push(b);
            offset = offset + 1;
        }
        let ghost old_self = *self;
        self.pages.insert(pageno, page);
        assert forall|a: u32| #[trigger] self.byte(a) == old_self.byte(a) by {
            lemma_cell_decomposition(a, a);
            if page_of(a) == pageno {
                let o = offset_of(a);
                assert(init_byte(self.initializer, o) == init_byte(self.initializer, a));
            }
        }
    }

    /// The byte at `address`, or the initializer's byte where no page holds it.
    pub fn read_u8(&self, address: u32) -> (r: u32)
        requires
            self.wf(),
        ensures
            r == self.byte(address) as u32,
    {
        let pageno = address & PAGE_MASK;
        match self.pages.get(&pageno) {
            Some(page) => {
                let index = (address & ADDR_MASK) as usize;
                assert(address & ADDR_MASK < 16) by (bit_vector);
                page[index] as u32
            },
            None => self.read_initializer(address) as u32,
        }
    }

    /// Stores the low byte of `value` at `address`. A page is allocated
    /// only when the page is missing and the byte differs from the
    /// initializer's byte there.
    pub fn write_u8(&mut self, address: u32, value: u32)
        requires
            old(self).wf(),
        ensures
            byte_stored(*old(self), *final(self), address, value),
    {
        let pageno = address & PAGE_MASK;
        let byte = (value & 0xFF) as u8;
        proof {
            lemma_cell_decomposition(address, address);
        }
        if self.new_page_is_needed(address, byte) {
            self.create_initialized_page(pageno);
        }
        let ghost mid = *self;
        match self.pages.remove(&pageno) {
            Some(page) => {
                let mut page = page;
                let index = (address & ADDR_MASK) as usize;
                page.set(index, byte);
                self.pages.insert(pageno, page);
                assert(self.pages@.dom() =~= mid.pages@.dom());
                assert forall|a: u32| #[trigger]
                    self.byte(a) == if same_cell(a, address) {
                        byte
                    } else {
                        mid.byte(a)
                    } by {
                    lemma_cell_decomposition(a, address);
                }
            },
            None => {
                assert(self.pages@ =~= mid.pages@);
                assert forall|a: u32| same_cell(a, address) implies #[trigger] self.byte(a)
                    == byte by {
                    lemma_cell_decomposition(a, address);
                }
            },
        }
    }

    /// The big-endian word at `address` and the byte after it.
    pub open spec fn word(&self, address: u32) -> u32 {
        be_word(self.byte(address), self.byte(addr_plus(address, 1)))
    }

    /// The big-endian long word at `address` and the three bytes after it.
    pub open spec fn long(&self, address: u32) -> u32 {
        be_long(
            self.byte(address),
            self.byte(addr_plus(address, 1)),
            self.byte(addr_plus(address, 2)),
            self.byte(addr_plus(address, 3)),
        )
    }

    pub fn read_byte(&self, _address_space: AddressSpace, address: u32) -> (r: u32)
        requires
            self.wf(),
        ensures
            r == self.byte(address) as u32,
    {
        self.read_u8(address)
    }

    pub fn read_word(&self, _address_space: AddressSpace, address: u32) -> (r: u32)
        requires
            self.wf(),
        ensures
            r == self.word(address),
    {
        let b0 = self.read_u8(address);
        let b1 = self.read_u8(address.wrapping_add(1));
        proof {
            lemma_be_word(b0, b1);
        }
        (b0 << 8) | b1
    }

    pub fn read_long(&self, _address_space: AddressSpace, address: u32) -> (r: u32)
        requires
            self.wf(),
        ensures
            r == self.long(address),
    {
        let b0 = self.read_u8(address);
        let b1 = self.read_u8(address.wrapping_add(1));
        let b2 = self.read_u8(address.wrapping_add(2));
        let b3 = self.read_u8(address.wrapping_add(3));
        proof {
            lemma_be_long(b0, b1, b2, b3);
        }
        (b0 << 24) | (b1 << 16) | (b2 << 8) | b3
    }

    pub fn write_byte(&mut self, _address_space: AddressSpace, address: u32, value: u32)
        requires
            old(self).wf(),
        ensures
            byte_stored(*old(self), *final(self), address, value),
    {
        self.write_u8(address, value);
    }

    pub fn write_word(&mut self, _address_space: AddressSpace, address: u32, value: u32)
        requires
            old(self).wf(),
        ensures
            word_stored(*old(self), *final(self), address, value),
    {
        proof {
            lemma_distinct_cells(address);
        }
        self.write_u8(address, value >> 8);
        self.write_u8(address.wrapping_add(1), value);
    }

    pub fn write_long(&mut self, _address_space: AddressSpace, address: u32, value: u32)
        requires
            old(self).wf(),
        ensures
            long_stored(*old(self), *final(self), address, value),
    {
        proof {
            lemma_distinct_cells(address);
        }
        self.write_u8(address, value >> 24);
        self.write_u8(address.wrapping_add(1), value >> 16);
        self.write_u8(address.wrapping_add(2), value >> 8);
        self.write_u8(address.wrapping_add(3), value);
    }

    /// The page numbers of the allocated pages, in increasing order.
    fn sorted_page_numbers(&self) -> (ks: Vec<u32>)
        ensures
            strictly_increasing(ks@),
            ks@.to_set() == self.page_set(),
    {
        let mut ks: Vec<u32> = Vec::new();
        for k in it: self.pages.keys()
            invariant
                strictly_increasing(ks@),
                ks@.to_set() == it.seq().unref().take(it.index()).to_set(),
                it.seq().unref().to_set() == self.pages@.dom(),
                it.seq().unref().no_duplicates(),
                it.seq().unref().take(it.seq().len() as int) == it.seq().unref(),
            ensures
                ks@.to_set() == self.pages@.dom(),
                strictly_increasing(ks@),
        {
            proof {
                let ghost s = it.seq().unref();
                let ghost i = it.index();
                assert(0 <= i < s.len());
                assert(s[i] == *k);
                assert(s.take(i + 1) == s.take(i).push(*k));
                assert(!s.take(i).contains(*k));
                assert(!s.take(i).to_set().contains(*k));
            }
            sorted_insert(&mut ks, *k);
            proof {
                let ghost s = it.seq().unref();
                let ghost i = it.index();
                let ghost t0 = s.take(i);
                let ghost t1 = s.take(i + 1);
                assert(t1.to_set() =~= t0.to_set().insert(*k)) by {
                    assert(t1 == t0.push(*k));
                    assert forall|y: u32| t1.to_set().contains(y) implies t0.to_set().insert(*k).contains(y) by {
                        let j = choose|j: int| 0 <= j < t1.len() && #[trigger] t1[j] == y;
                        if j < i { assert(t0[j] == y); }
                    }
                    assert forall|y: u32| t0.to_set().insert(*k).contains(y) implies t1.to_set().contains(y) by {
                        if y == *k { assert(t1[i] == y); } else {
                            let j = choose|j: int| 0 <= j < t0.len() && #[trigger] t0[j] == y;
                            assert(t1[j] == y);
                        }
                    }
                }
            }
        }
        ks
    }

    /// Every byte of every allocated page, with its bus address, ordered by
    /// address.
    pub fn diffs(&self) -> (d: Vec<(u32, u8)>)
        requires
            self.wf(),
        ensures
            d@.len() == PAGE_SIZE * self.page_set().len(),
            forall|i: int|
                0 <= i < d@.len() ==> {
                    let (addr, b) = #[trigger] d@[i];
                    &&& self.page_set().contains(page_of(addr))
                    &&& addr <= ADDRBUS_MASK
                    &&& b == self.byte(addr)
                },
            forall|i: int, j: int| 0 <= i < j < d@.len() ==> (#[trigger] d@[i]).0 < (#[trigger] d@[j]).0,
            forall|a: u32|
                #[trigger] self.page_set().contains(page_of(a)) ==> exists|i: int|
                    0 <= i < d@.len() && (#[trigger] d@[i]).0 == a & ADDRBUS_MASK,
            forall|a: u32|
                #[trigger] self.byte(a) != init_byte(self.init(), a) ==> exists|i: int|
                    0 <= i < d@.len() && (#[trigger] d@[i]).0 == a & ADDRBUS_MASK,
    {
        let ks = self.sorted_page_numbers();
        let mut d: Vec<(u32, u8)> = Vec::new();
        let mut j: usize = 0;
        while j < ks.len()
            invariant
                self.wf(),
                strictly_increasing(ks@),
                ks@.to_set() == self.page_set(),
                j <= ks@.len(),
                d@.len() == 16 * j,
                forall|jj: int, o: int|
                    0 <= jj < j && 0 <= o < 16 ==> #[trigger] d@[16 * jj + o] == (
                        (ks@[jj] + o) as u32,
                        self.pages@[ks@[jj]]@[o],
                    ),
            decreases ks@.len() - j,
        {
            let k = ks[j];
            assert(ks@.to_set().contains(k)) by {
                assert(ks@[j as int] == k);
            }
            match self.pages.get(&k) {
                Some(page) => {
                    let ghost d0 = d@;
                    let mut o: u32 = 0;
                    while o < PAGE_SIZE
                        invariant
                            self.wf(),
                            self.pages@.contains_key(k),
                            *page == self.pages@[k],
                            k & ADDR_MASK == 0,
                            k & !ADDRBUS_MASK == 0,
                            o <= 16,
                            d@.len() == d0.len() + o,
                            forall|x: int| 0 <= x < d0.len() ==> d@[x] == d0[x],
                            forall|x: int| 0 <= x < o ==> #[trigger] d@[d0.len() + x] == ((k + x) as u32, page@[x]),
                        decreases PAGE_SIZE - o,
                    {
                        proof {
                            lemma_page_offset(k, o);
                        }
                        d.push((k + o, page[o as usize]));
                        o = o + 1;
                    }
                    assert forall|jj: int, o: int|
                        0 <= jj < j + 1 && 0 <= o < 16 implies #[trigger] d@[16 * jj + o] == (
                            (ks@[jj] + o) as u32,
                            self.pages@[ks@[jj]]@[o],
                        ) by {
                        if jj < j {
                            assert(d@[16 * jj + o] == d0[16 * jj + o]);
                        } else {
                            assert(16 * jj + o == d0.len() + o);
                        }
                    }
                },
                None => {
                    assert(false);
                },
            }
            j = j + 1;
        }
        proof {
            ks@.unique_seq_to_set();
            assert forall|i: int|
                0 <= i < d@.len() implies {
                    let (addr, b) = #[trigger] d@[i];
                    &&& self.page_set().contains(page_of(addr))
                    &&& addr <= ADDRBUS_MASK
                    &&& b == self.byte(addr)
                } by {
                let jj = i / 16;
                let o = i % 16;
                assert(i == 16 * jj + o);
                let k = ks@[jj];
                assert(ks@.to_set().contains(k));
                lemma_page_offset(k, o as u32);
            }
            assert forall|i: int, i2: int| 0 <= i < i2 < d@.len() implies (#[trigger] d@[i]).0 < (#[trigger] d@[i2]).0 by {
                let jj = i / 16;
                let o = i % 16;
                let jj2 = i2 / 16;
                let o2 = i2 % 16;
                assert(i == 16 * jj + o);
                assert(i2 == 16 * jj2 + o2);
                assert(ks@.to_set().contains(ks@[jj]));
                assert(ks@.to_set().contains(ks@[jj2]));
                assert(self.pages@.contains_key(ks@[jj]));
                assert(self.pages@.contains_key(ks@[jj2]));
                lemma_page_offset(ks@[jj], o as u32);
                lemma_page_offset(ks@[jj2], o2 as u32);
                assert(d@[i] == d@[16 * jj + o]);
                assert(d@[i2] == d@[16 * jj2 + o2]);
                if jj < jj2 {
                    lemma_aligned_gap(ks@[jj], ks@[jj2]);
                }
            }
            assert forall|a: u32|
                #[trigger] self.page_set().contains(page_of(a)) implies exists|i: int|
                    0 <= i < d@.len() && (#[trigger] d@[i]).0 == a & ADDRBUS_MASK by {
                assert(ks@.to_set().contains(page_of(a)));
                let jj = choose|jj: int| 0 <= jj < ks@.len() && #[trigger] ks@[jj] == page_of(a);
                lemma_cell_decomposition(a, a);
                lemma_recompose(a);
                let i = 16 * jj + offset_of(a);
                assert(self.pages@.contains_key(page_of(a)));
                lemma_page_offset(page_of(a), offset_of(a));
                assert(d@[16 * jj + offset_of(a)].0 == a & ADDRBUS_MASK);
                assert(0 <= i < d@.len());
            }
            assert forall|a: u32|
                #[trigger] self.byte(a) != init_byte(self.init(), a) implies exists|i: int|
                    0 <= i < d@.len() && (#[trigger] d@[i]).0 == a & ADDRBUS_MASK by {
                assert(self.page_set().contains(page_of(a)));
            }
        }
        d
    }

    /// Writes every byte of the pages allocated in `other` into `self`.
    pub fn copy_from(&mut self, other: &Self)
        requires
            old(self).wf(),
            other.wf(),
        ensures
            final(self).wf(),
            final(self).init() == old(self).init(),
            forall|a: u32| #[trigger]
                final(self).byte(a) == if other.page_set().contains(page_of(a)) {
                    other.byte(a)
                } else {
                    old(self).byte(a)
                },
    {
        let d = other.diffs();
        let ghost start = *self;
        let mut i: usize = 0;
        while i < d.len()
            invariant
                self.wf(),
                other.wf(),
                self.init() == start.init(),
                i <= d@.len(),
                forall|x: int|
                    0 <= x < d@.len() ==> {
                        let (addr, b) = #[trigger] d@[x];
                        &&& other.page_set().contains(page_of(addr))
                        &&& addr <= ADDRBUS_MASK
                        &&& b == other.byte(addr)
                    },
                forall|a: u32| #[trigger]
                    self.byte(a) == if listed(d@, i as int, a) {
                        other.byte(a)
                    } else {
                        start.byte(a)
                    },
            decreases d@.len() - i,
        {
            let (addr, b) = d[i];
            let ghost before = *self;
            self.write_u8(addr, b as u32);
            proof {
                lemma_bus_byte(addr, b);
                assert forall|a: u32| #[trigger]
                    self.byte(a) == if listed(d@, i + 1, a) {
                        other.byte(a)
                    } else {
                        start.byte(a)
                    } by {
                    if same_cell(a, addr) {
                        assert(self.byte(a) == b);
                        assert(b == other.byte(addr));
                        other.lemma_byte_by_cell(a, addr);
                        assert(d@[i as int].0 == a & ADDRBUS_MASK);
                        assert(listed(d@, i + 1, a));
                    } else {
                        assert(self.byte(a) == before.byte(a));
                        if listed(d@, i + 1, a) {
                            let j = choose|j: int| 0 <= j < i + 1 && (#[trigger] d@[j]).0 == a & ADDRBUS_MASK;
                            assert(j != i);
                            assert(listed(d@, i as int, a));
                        } else {
                            assert(!listed(d@, i as int, a));
                        }
                    }
                }
            }
            i = i + 1;
        }
        proof {
            assert forall|a: u32| #[trigger]
                self.byte(a) == if other.page_set().contains(page_of(a)) {
                    other.byte(a)
                } else {
                    start.byte(a)
                } by {
                if other.page_set().contains(page_of(a)) {
                    assert(listed(d@, d@.len() as int, a));
                } else if listed(d@, d@.len() as int, a) {
                    let j = choose|j: int| 0 <= j < d@.len() && (#[trigger] d@[j]).0 == a & ADDRBUS_MASK;
                    let addr = d@[j].0;
                    lemma_cell_decomposition(a, addr);
                    lemma_bus_byte(addr, 0);
                    assert(false);
                }
            }
        }
    }
}

/// An address on the bus is its own bus address, and a byte survives a
/// trip through a register.
proof fn lemma_bus_byte(addr: u32, b: u8)
    by (bit_vector)
    ensures
        addr <= 0x00ff_ffffu32 ==> addr & 0x00ff_ffffu32 == addr,
        ((b as u32) & 0xff) as u8 == b,
{
}

/// What a byte write does to memory: the cell of `address` holds the low
/// byte of `value`, every other cell keeps its byte, and a page is
/// allocated only where `grown` says so.
pub open spec fn byte_stored(m0: PagedMem, m1: PagedMem, address: u32, value: u32) -> bool {
    &&& m1.wf()
    &&& m1.init() == m0.init()
    &&& forall|a: u32| #[trigger]
        m1.byte(a) == if same_cell(a, address) {
            (value & 0xff) as u8
        } else {
            m0.byte(a)
        }
    &&& m1.page_set() == grown(m0.page_set(), m0.init(), address, (value & 0xff) as u8)
}

/// What a big-endian word write does to memory.
pub open spec fn word_stored(m0: PagedMem, m1: PagedMem, address: u32, value: u32) -> bool {
    &&& m1.wf()
    &&& m1.init() == m0.init()
    &&& forall|a: u32| #[trigger]
        m1.byte(a) == if same_cell(a, address) {
            ((value >> 8u32) & 0xff) as u8
        } else if same_cell(a, addr_plus(address, 1)) {
            (value & 0xff) as u8
        } else {
            m0.byte(a)
        }
    &&& m1.page_set() == grown(
        grown(m0.page_set(), m0.init(), address, ((value >> 8u32) & 0xff) as u8),
        m0.init(),
        addr_plus(address, 1),
        (value & 0xff) as u8,
    )
}

/// What a big-endian long-word write does to memory.
pub open spec fn long_stored(m0: PagedMem, m1: PagedMem, address: u32, value: u32) -> bool {
    &&& m1.wf()
    &&& m1.init() == m0.init()
    &&& forall|a: u32| #[trigger]
        m1.byte(a) == if same_cell(a, address) {
            ((value >> 24u32) & 0xff) as u8
        } else if same_cell(a, addr_plus(address, 1)) {
            ((value >> 16u32) & 0xff) as u8
        } else if same_cell(a, addr_plus(address, 2)) {
            ((value >> 8u32) & 0xff) as u8
        } else if same_cell(a, addr_plus(address, 3)) {
            (value & 0xff) as u8
        } else {
            m0.byte(a)
        }
    &&& m1.page_set() == grown(
        grown(
            grown(
                grown(m0.page_set(), m0.init(), address, ((value >> 24u32) & 0xff) as u8),
                m0.init(),
                addr_plus(address, 1),
                ((value >> 16u32) & 0xff) as u8,
            ),
            m0.init(),
            addr_plus(address, 2),
            ((value >> 8u32) & 0xff) as u8,
        ),
        m0.init(),
        addr_plus(address, 3),
        (value & 0xff) as u8,
    )
}

/// A word read at the address of a word write gives back the low 16 bits of
/// the value written.
pub proof fn law_word_read_your_write(m0: PagedMem, m1: PagedMem, address: u32, value: u32)
    requires
        word_stored(m0, m1, address, value),
    ensures
        m1.word(address) == value & 0xffff,
{
    lemma_distinct_cells(address);
    assert(m1.byte(address) == ((value >> 8u32) & 0xff) as u8);
    assert(m1.byte(addr_plus(address, 1)) == (value & 0xff) as u8);
    let hi = (value >> 8u32) & 0xff;
    let lo = value & 0xff;
    lemma_byte_split(value);
    lemma_be_word(hi, lo);
}

/// How a register value splits into bytes and is put together again.
proof fn lemma_byte_split(value: u32)
    by (bit_vector)
    ensures
        (value >> 24u32) & 0xff < 256,
        (value >> 16u32) & 0xff < 256,
        (value >> 8u32) & 0xff < 256,
        value & 0xff < 256,
        (((value >> 8u32) & 0xff) << 8u32) | (value & 0xff) == value & 0xffff,
        (((value >> 24u32) & 0xff) << 24u32) | (((value >> 16u32) & 0xff) << 16u32) | (((value
            >> 8u32) & 0xff) << 8u32) | (value & 0xff) == value,
{
}

/// A long-word read at the address of a long-word write gives back the
/// value written.
pub proof fn law_long_read_your_write(m0: PagedMem, m1: PagedMem, address: u32, value: u32)
    requires
        long_stored(m0, m1, address, value),
    ensures
        m1.long(address) == value,
{
    lemma_distinct_cells(address);
    assert(m1.byte(address) == ((value >> 24u32) & 0xff) as u8);
    assert(m1.byte(addr_plus(address, 1)) == ((value >> 16u32) & 0xff) as u8);
    assert(m1.byte(addr_plus(address, 2)) == ((value >> 8u32) & 0xff) as u8);
    assert(m1.byte(addr_plus(address, 3)) == (value & 0xff) as u8);
    let b0 = (value >> 24u32) & 0xff;
    let b1 = (value >> 16u32) & 0xff;
    let b2 = (value >> 8u32) & 0xff;
    let b3 = value & 0xff;
    lemma_byte_split(value);
    lemma_be_long(b0, b1, b2, b3);
}

/// A byte read at the address of a byte write gives back the low byte of
/// the value written; a write leaves every other cell as it was.
pub proof fn law_byte_read_your_write(m0: PagedMem, m1: PagedMem, address: u32, value: u32, other: u32)
    requires
        byte_stored(m0, m1, address, value),
    ensures
        m1.byte(address) == (value & 0xff) as u8,
        !same_cell(other, address) ==> m1.byte(other) == m0.byte(other),
{
    assert(same_cell(address, address));
}

} // verus!
