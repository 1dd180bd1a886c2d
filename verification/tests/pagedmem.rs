use r68k::ram::pagedmem::{PagedMem, PAGE_SIZE};
use r68k::ram::{SUPERVISOR_DATA, SUPERVISOR_PROGRAM, USER_DATA, USER_PROGRAM, ADDRBUS_MASK};


#[test]
fn pagedmem_read_initialized_memory() {
    let mem = PagedMem::new(0x01020304);
    for v in 0..256 {
        assert_eq!(0x01, mem.read_byte(SUPERVISOR_DATA, 4*v+0));
        assert_eq!(0x02, mem.read_byte(SUPERVISOR_DATA, 4*v+1));
        assert_eq!(0x03, mem.read_byte(SUPERVISOR_DATA, 4*v+2));
        assert_eq!(0x04, mem.read_byte(SUPERVISOR_DATA, 4*v+3));
    }
    for v in 0..256 {
        assert_eq!(0x0102, mem.read_word(SUPERVISOR_DATA, 4*v+0));
        assert_eq!(0x0203, mem.read_word(SUPERVISOR_DATA, 4*v+1));
        assert_eq!(0x0304, mem.read_word(SUPERVISOR_DATA, 4*v+2));
        if 4*v+3 < 1023 {
            assert_eq!(0x0401, mem.read_word(SUPERVISOR_DATA, 4*v+3));
        }
    }
    for v in 0..255 {
        assert_eq!(0x01020304, mem.read_long(SUPERVISOR_DATA, 4*v+0));
        assert_eq!(0x02030401, mem.read_long(SUPERVISOR_DATA, 4*v+1));
        assert_eq!(0x03040102, mem.read_long(SUPERVISOR_DATA, 4*v+2));
        assert_eq!(0x04010203, mem.read_long(SUPERVISOR_DATA, 4*v+3));
    }
    assert_eq!(0x01020304, mem.read_long(SUPERVISOR_DATA, 4*255));
}

#[test]
fn pagedmem_read_your_u32_writes() {
    let mut mem = PagedMem::new(0x01020304);
    let pattern = 0xAAAA7777;
    let address = 128;
    assert!(pattern != mem.read_long(SUPERVISOR_DATA, address));
    mem.write_long(SUPERVISOR_DATA, address, pattern);
    assert_eq!(pattern, mem.read_long(SUPERVISOR_DATA, address));
}

#[test]
fn pagedmem_read_your_u16_writes() {
    let mut mem = PagedMem::new(0x01020304);
    let pattern = 0xAAAA7777;
    let address = 128;
    assert!(pattern != mem.read_word(SUPERVISOR_DATA, address));
    mem.write_word(SUPERVISOR_DATA, address, pattern);
    assert_eq!(pattern & 0xFFFF, mem.read_word(SUPERVISOR_DATA, address));
}

#[test]
fn pagedmem_read_your_u8_writes() {
    let mut mem = PagedMem::new(0x01020304);
    let pattern = 0xAAAA7777;
    let address = 128;
    assert!(pattern != mem.read_byte(SUPERVISOR_DATA, address));
    mem.write_byte(SUPERVISOR_DATA, address, pattern);
    assert_eq!(pattern & 0xFF, mem.read_byte(SUPERVISOR_DATA, address));
}

#[test]
fn pagedmem_shared_address_space() {
    let mut mem = PagedMem::new(0x01020304);
    let pattern = 0xAAAA7777;
    let address = 128;
    assert!(pattern != mem.read_long(SUPERVISOR_DATA, address));
    assert!(pattern != mem.read_long(SUPERVISOR_PROGRAM, address));
    assert!(pattern != mem.read_long(USER_DATA, address));
    assert!(pattern != mem.read_long(USER_PROGRAM, address));
    mem.write_long(SUPERVISOR_DATA, address, pattern);

    assert_eq!(pattern, mem.read_long(SUPERVISOR_DATA, address));
    assert_eq!(pattern, mem.read_long(SUPERVISOR_PROGRAM, address));
    assert_eq!(pattern, mem.read_long(USER_DATA, address));
    assert_eq!(pattern, mem.read_long(USER_PROGRAM, address));
}

#[test]
fn page_allocation_on_write()
{
    let mut mem = PagedMem::new(0x01020304);
    let data = 12345678;
    let address = 0xFF0000;
    // no pages allocated
    assert_eq!(0, mem.allocated_pages());
    // no pages allocated after read
    mem.read_long(SUPERVISOR_DATA, address);
    // no pages allocated after read of different page
    mem.read_long(SUPERVISOR_DATA, address + PAGE_SIZE * 10);
    assert_eq!(0, mem.allocated_pages());
    // one page allocated after write
    mem.write_long(SUPERVISOR_DATA, address, data);
    assert_eq!(1, mem.allocated_pages());
    // no more pages allocated after more writing on same page
    mem.write_long(SUPERVISOR_DATA, address + 1, data);
    assert_eq!(1, mem.allocated_pages());
    // an additional page allocated after writing on new page
    mem.write_long(SUPERVISOR_DATA, address + PAGE_SIZE * 10, data);
    assert_eq!(2, mem.allocated_pages());
    // no additional pages allocated after reading over new page boundary
    mem.read_long(SUPERVISOR_DATA, address + 4*PAGE_SIZE - 2);
    assert_eq!(2, mem.allocated_pages());
    // two additional pages allocated after writing over new page boundary
    mem.write_long(SUPERVISOR_DATA, address + 4*PAGE_SIZE - 2, data);
    assert_eq!(4, mem.allocated_pages());
}

#[test]
fn pagedmem_page_allocation_on_write_unless_matching_initializer()
{
    let data = 0x01020304;
    let mut mem = PagedMem::new(data);
    for offset in 0..PAGE_SIZE/4 {
        mem.write_long(SUPERVISOR_DATA, 4*offset, data);
    }
    mem.write_byte(SUPERVISOR_DATA, 0, 0x1);
    mem.write_byte(SUPERVISOR_DATA, 1, 0x2);
    mem.write_byte(SUPERVISOR_DATA, 2, 0x3);
    mem.write_byte(SUPERVISOR_DATA, 3, 0x4);

    mem.write_word(SUPERVISOR_DATA, 3, 0x0401);

    // no pages allocated
    assert_eq!(0, mem.allocated_pages());
    // but as soon as we write something different
    mem.write_byte(SUPERVISOR_DATA, 2, 0x2);
    // a page is allocated
    assert_eq!(1, mem.allocated_pages());
    // we don't need to allocate a second page if we overwrite existing data
    mem.write_byte(SUPERVISOR_DATA, 2, 0x99);
    assert_eq!(1, mem.allocated_pages());
}

#[test]
fn no_diff_initially()
{
    let mem = PagedMem::new(0x01020304);
    assert_eq!(None, mem.diffs().into_iter().next());
}

#[test]
fn can_extract_diffs()
{
    let mut mem = PagedMem::new(0x01020304);
    mem.write_byte(SUPERVISOR_DATA, PAGE_SIZE * 10, 0x91);
    mem.write_byte(SUPERVISOR_DATA, PAGE_SIZE * 20, 0x92);
    assert_eq!(2, mem.allocated_pages());
    let diffs: Vec<(u32, u8)> = mem.diffs();
    assert_eq!((PAGE_SIZE * 10, 0x91), diffs[0]);
    assert_eq!((PAGE_SIZE * 20, 0x92), diffs[PAGE_SIZE as usize]);
}

#[test]
fn extracts_two_full_pages_of_diffs()
{
    let mut mem = PagedMem::new(0x01020304);
    mem.write_byte(SUPERVISOR_DATA, PAGE_SIZE * 10, 0x91);
    mem.write_byte(SUPERVISOR_DATA, PAGE_SIZE * 20, 0x92);

    assert_eq!(PAGE_SIZE as usize * mem.allocated_pages(), mem.diffs().len());
}

#[test]
fn cross_address_bus_boundary_byte_access() {
    let mut mem = PagedMem::new(0x01020304);
    mem.write_byte(SUPERVISOR_DATA, ADDRBUS_MASK, 0x91);
    assert_eq!(0x91, mem.read_byte(SUPERVISOR_DATA, ADDRBUS_MASK));
    mem.write_byte(SUPERVISOR_DATA, ADDRBUS_MASK+1, 0x92);
    assert_eq!(0x92, mem.read_byte(SUPERVISOR_DATA, 0));
}

#[test]
fn cross_address_bus_boundary_word_access() {
    let mut mem = PagedMem::new(0x01020304);
    mem.write_word(SUPERVISOR_DATA, ADDRBUS_MASK+1, 0x9192);
    assert_eq!(0x9192, mem.read_word(SUPERVISOR_DATA, 0));
}

#[test]
fn cross_address_bus_boundary_long_access() {
    let mut mem = PagedMem::new(0x01020304);
    mem.write_long(SUPERVISOR_DATA, ADDRBUS_MASK-1, 0x91929394);
    assert_eq!(0x91929394, mem.read_long(SUPERVISOR_DATA, ADDRBUS_MASK-1));
}

#[test]
fn cross_type_boundary_word_access() {
    let mut mem = PagedMem::new(0x01020304);

    let addr = u32::max_value()-1;
    mem.write_word(SUPERVISOR_DATA, addr, 0x9192);
    assert_eq!(0x9192, mem.read_word(SUPERVISOR_DATA, addr));
}

#[test]
fn cross_type_boundary_long_access() {
    let mut mem = PagedMem::new(0x01020304);

    let addr = u32::max_value()-1;
    mem.write_long(SUPERVISOR_DATA, addr, 0x91929394);
    assert_eq!(0x91929394, mem.read_long(SUPERVISOR_DATA, addr));
}
