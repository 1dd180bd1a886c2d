use r68k::cpu::TestCore;
use r68k::cpu::Exception::AddressError;
use r68k::cpu::operator::{ea_ax_pd_8, ay_pd_8, ay_ai_16};
use r68k::ram::SUPERVISOR_DATA;

#[test]
fn test_ax_predecrement_8() {
    let mut core = TestCore::new(0x40);
    for i in 0..8 {
        let addr: u32 = 0x200 + 4 * i;
        core.dar[8 + i as usize] = addr;
        // write just before where A0-A7 points
        let adjustment = if i == 7 { 2 } else { 1 };
        core.mem.write_byte(SUPERVISOR_DATA, addr - adjustment, 0x11 * i);
    }
    core.ir = 0b1111_1001_1111_1010; // X=4, Y=2
    let core = &mut core;

    assert_eq!(512 + 4 * 4, core.dar[8 + 4]);
    let (dst, ea) = ea_ax_pd_8(core).unwrap();
    assert_eq!(0x44, dst);
    assert_eq!(512 + 4 * 4 - 1, core.dar[8 + 4]);
    assert_eq!(512 + 4 * 4 - 1, ea);

    core.ir = 0b1111_1111_1111_1111; // X=7, Y=7
    assert_eq!(512 + 4 * 7, core.dar[8 + 7]);
    let (dst, ea) = ea_ax_pd_8(core).unwrap();
    assert_eq!(0x77, dst);
    // A7 is kept even
    assert_eq!(512 + 4 * 7 - 2, core.dar[8 + 7]);
    assert_eq!(512 + 4 * 7 - 2, ea);
}

#[test]
fn test_ay_predecrement_8() {
    let mut core = TestCore::new(0x40);
    for i in 0..8 {
        let addr: u32 = 0x200 + 4 * i;
        core.dar[8 + i as usize] = addr;
        let adjustment = if i == 7 { 2 } else { 1 };
        core.mem.write_byte(SUPERVISOR_DATA, addr - adjustment, 0x11 * i);
    }

    core.ir = 0b1111_1001_1111_1010; // X=4, Y=2
    let core = &mut core;
    assert_eq!(512 + 4 * 2, core.dar[8 + 2]);
    assert_eq!(0x22, ay_pd_8(core).unwrap());
    assert_eq!(512 + 4 * 2 - 1, core.dar[8 + 2]);

    core.ir = 0b1111_1011_1111_1111; // X=5, Y=7
    assert_eq!(512 + 4 * 7, core.dar[8 + 7]);
    assert_eq!(0x77, ay_pd_8(core).unwrap());
    // A7 is kept even
    assert_eq!(512 + 4 * 7 - 2, core.dar[8 + 7]);
}

#[test]
fn test_address_error_on_odd_addresses() {
    let mut core = TestCore::new(0x40);
    core.dar[8] = 0x11; // odd address
    core.ir = 0b1111_1001_1111_1000; // X=4, Y=0
    match ay_ai_16(&mut core) {
        Err(AddressError { .. }) => (),
        _ => panic!("Unexpected"),
    };
}

#[test]
fn test_no_address_error_on_even_addresses() {
    let mut core = TestCore::new(0x40);
    core.dar[8] = 0x12; // even address
    core.ir = 0b1111_1001_1111_1000; // X=4, Y=0
    match ay_ai_16(&mut core) {
        Ok(_) => (),
        _ => panic!("Unexpected"),
    };
}
