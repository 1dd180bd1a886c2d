use r68k::ram::loggingmem::{LoggingMem, OpsLogger, Operation};
use r68k::ram::{SUPERVISOR_DATA, SUPERVISOR_PROGRAM, USER_DATA, USER_PROGRAM, ADDRBUS_MASK};

#[test]
fn read_byte_is_logged() {
    do_read_byte_is_logged(0x80);
    // but the following read should be from address 0x180
    // i.e. limited by the 24-bit address bus width
    do_read_byte_is_logged(0xFF000180);
}

#[test]
fn read_word_is_logged() {
    do_read_word_is_logged(0x80);
    do_read_word_is_logged(0xFF000180);
}

#[test]
fn read_long_is_logged() {
    do_read_long_is_logged(0x80);
    do_read_long_is_logged(0xFF000180);
}

#[test]
fn write_byte_is_logged() {
    do_write_byte_is_logged(0x80);
    do_write_byte_is_logged(0xFF000180);
}

#[test]
fn write_word_is_logged() {
    do_write_word_is_logged(0x80);
    do_write_word_is_logged(0xFF000180);
}

#[test]
fn write_long_is_logged() {
    do_write_long_is_logged(0x80);
    do_write_long_is_logged(0xFF000180);
}

fn do_read_byte_is_logged(address: u32) {
    let mut mem = LoggingMem::new(0x01020304, OpsLogger::new());
    mem.read_byte(SUPERVISOR_DATA, address);
    assert!(mem.logger.len() > 0);
    assert_eq!(Operation::ReadByte(SUPERVISOR_DATA, address & ADDRBUS_MASK, 0x01), mem.logger.ops()[0]);
}

fn do_read_word_is_logged(address: u32) {
    let mut mem = LoggingMem::new(0x01020304, OpsLogger::new());
    mem.read_word(SUPERVISOR_PROGRAM, address);
    assert!(mem.logger.len() > 0);
    assert_eq!(Operation::ReadWord(SUPERVISOR_PROGRAM, address & ADDRBUS_MASK, 0x0102), mem.logger.ops()[0]);
}

fn do_read_long_is_logged(address: u32) {
    let mut mem = LoggingMem::new(0x01020304, OpsLogger::new());
    mem.read_long(USER_DATA, address);
    assert!(mem.logger.len() > 0);
    assert_eq!(Operation::ReadLong(USER_DATA, address & ADDRBUS_MASK, 0x01020304), mem.logger.ops()[0]);
}

fn do_write_byte_is_logged(address: u32) {
    let mut mem = LoggingMem::new(0x01020304, OpsLogger::new());
    let pattern = 0xAAAA7777;
    mem.write_byte(USER_PROGRAM, address, pattern);
    assert!(mem.logger.len() > 0);
    assert_eq!(Operation::WriteByte(USER_PROGRAM, address & ADDRBUS_MASK, pattern), mem.logger.ops()[0]);
}

fn do_write_word_is_logged(address: u32) {
    let mut mem = LoggingMem::new(0x01020304, OpsLogger::new());
    let pattern = 0xAAAA7777;
    mem.write_word(SUPERVISOR_PROGRAM, address, pattern);
    assert!(mem.logger.len() > 0);
    assert_eq!(Operation::WriteWord(SUPERVISOR_PROGRAM, address & ADDRBUS_MASK, pattern), mem.logger.ops()[0]);
}

fn do_write_long_is_logged(address: u32) {
    let mut mem = LoggingMem::new(0x01020304, OpsLogger::new());
    let pattern = 0xAAAA7777;
    mem.write_long(USER_DATA, address, pattern);
    assert!(mem.logger.len() > 0);
    assert_eq!(Operation::WriteLong(USER_DATA, address & ADDRBUS_MASK, pattern), mem.logger.ops()[0]);
}

#[test]
fn reads_and_writes_keep_contents_and_log_in_order() {
    let mut mem = LoggingMem::new(0, OpsLogger::new());
    mem.write_word(USER_DATA, 0x100, 0x1234);
    assert_eq!(0x1234, mem.read_word(USER_DATA, 0x100));
    let ops = mem.logger.ops();
    assert_eq!(2, ops.len());
    assert_eq!(Operation::WriteWord(USER_DATA, 0x100, 0x1234), ops[0]);
    assert_eq!(Operation::ReadWord(USER_DATA, 0x100, 0x1234), ops[1]);
}

#[test]
fn accesses_are_written_with_space_address_and_value() {
    assert_eq!("None", Operation::NoOp.to_string());
    assert_eq!("ReadLongSupervisorProgram @000040 => c1010000", Operation::ReadLong(SUPERVISOR_PROGRAM, 0x40, 0xc1010000).to_string());
    assert_eq!("WriteByteUserData @123456 <= ab", Operation::WriteByte(USER_DATA, 0x123456, 0xab).to_string());
    assert_eq!("ReadByteUserData @000001 => 07", Operation::ReadByte(USER_DATA, 1, 7).to_string());
    assert_eq!("WriteWordUserData @000002 <= 1234", Operation::WriteWord(USER_DATA, 2, 0x1234).to_string());
}

#[test]
fn the_logger_accessor_sees_every_access_in_order() {
    let mut mem = LoggingMem::new(0x01020304, OpsLogger::new());
    assert!(mem.logger().is_empty());
    mem.read_byte(USER_DATA, 0x10);
    mem.write_word(SUPERVISOR_DATA, 0x20, 0xbeef);
    let ops = mem.logger().ops();
    assert_eq!(2, mem.logger().len());
    assert_eq!(Operation::ReadByte(USER_DATA, 0x10, 0x01), ops[0]);
    assert_eq!(Operation::WriteWord(SUPERVISOR_DATA, 0x20, 0xbeef), ops[1]);
}
