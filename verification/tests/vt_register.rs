use nes_emu::ppu::registers::VtReg;

#[test]
fn nametable_test_1() {
    let mut vt_reg = VtReg::new();
    vt_reg.set_coarse_xscroll(1);
    vt_reg.set_coarse_yscroll(1);
    assert_eq!(vt_reg.get_nametable_address(), 0x2021, "nametable test, FAILED!");
}

#[test]
fn increment_nametable() {
    let mut vt_reg = VtReg::new();
    vt_reg.increment_x();
    vt_reg.set_nametable(2);
    assert_eq!(vt_reg.get_nametable_address(), 0x2801, "nametable test - FAILED!");
}

#[test]
fn nametable_test_2() {
    let vt_reg = VtReg::new();
    assert_eq!(vt_reg.get_attribute_address(), 0x23C0, "nametable test, FAILED!");
}

#[test]
fn increment_x_1() {
    let mut vt_reg = VtReg::new();
    vt_reg.increment_x();
    assert_eq!(vt_reg.get_coarse_xscroll(), 1, "Coarse x value, failed!");
}

#[test]
fn increment_x_2() {
    let mut vt_reg = VtReg::new();
    vt_reg.set_coarse_xscroll(31);
    vt_reg.increment_x();
    assert_eq!(vt_reg.get_coarse_xscroll(), 0, "Coarse x value, failed!");
    assert_eq!(vt_reg.get_nametablex(), 1, "nametable value, failed!")
}

#[test]
fn increment_x_3() {
    let mut vt_reg = VtReg::new();
    vt_reg.set_coarse_xscroll(31);
    vt_reg.set_nametablex(1);
    vt_reg.increment_x();
    assert_eq!(vt_reg.get_coarse_xscroll(), 0, "Coarse x value, failed!");
    assert_eq!(vt_reg.get_nametablex(), 0, "nametable value, failed!")
}

#[test]
fn increment_y_1() {
    let mut vt_reg = VtReg::new();
    vt_reg.increment_y();
    assert_eq!(vt_reg.get_fine_y(), 1, "fine y value, FAILED!");
}

#[test]
fn increment_y_2() {
    let mut vt_reg = VtReg::new();
    vt_reg.set_fine_y(7);
    vt_reg.increment_y();
    assert_eq!(vt_reg.get_fine_y(), 0, "fine y value, FAILED!");
    assert_eq!(vt_reg.get_coarse_yscroll(), 1, "coarse y value, FAILED!");
}

#[test]
fn increment_y_3() {
    let mut vt_reg = VtReg::new();
    vt_reg.set_fine_y(7);
    vt_reg.set_coarse_yscroll(29);
    vt_reg.increment_y();
    assert_eq!(vt_reg.get_fine_y(), 0, "fine y value, FAILED!");
    assert_eq!(vt_reg.get_coarse_yscroll(), 0, "coarse y value, FAILED!");
    assert_eq!(vt_reg.get_nametabley(), 1, "nametable y value - FAILED!")
}

#[test]
fn increment_y_4() {
    let mut vt_reg = VtReg::new();
    vt_reg.set_fine_y(7);
    vt_reg.set_coarse_yscroll(29);
    vt_reg.set_nametabley(1);
    vt_reg.increment_y();
    assert_eq!(vt_reg.get_fine_y(), 0, "fine y value, FAILED!");
    assert_eq!(vt_reg.get_coarse_yscroll(), 0, "coarse y value, FAILED!");
    assert_eq!(vt_reg.get_nametabley(), 0, "nametable y value - FAILED!")
}

#[test]
fn increment_y_5() {
    let mut vt_reg = VtReg::new();
    vt_reg.set_fine_y(7);
    vt_reg.set_coarse_yscroll(31);
    vt_reg.set_nametabley(0);
    vt_reg.increment_y();
    assert_eq!(vt_reg.get_fine_y(), 0, "fine y value, FAILED!");
    assert_eq!(vt_reg.get_coarse_yscroll(), 0, "coarse y value, FAILED!");
    assert_eq!(vt_reg.get_nametabley(), 0, "nametable y value - FAILED!")
}

#[test]
fn test11() {
    let mut vt_reg = VtReg::new();
    vt_reg.set_nametablex(1);
    assert_eq!(vt_reg.get_data(), 0b0_000_01_00000_00000);
}

#[test]
fn test12() {
    let mut vt_reg = VtReg::new();
    vt_reg.set_nametabley(1);
    assert_eq!(vt_reg.get_data(), 0b0_000_10_00000_00000);
}

#[test]
fn test13() {
    let mut vt_reg = VtReg::new();
    vt_reg.set_nametablex(1);
    let x = vt_reg.get_nametablex();
    assert_eq!(x, 1);
}

#[test]
fn test14() {
    let mut vt_reg = VtReg::new();
    vt_reg.set_nametabley(1);
    let y = vt_reg.get_nametabley();
    assert_eq!(y, 1);
}

#[test]
fn test1() {
    let mut vt_reg = VtReg::new();
    vt_reg.set_fine_y(4);
    assert_eq!(vt_reg.get_data(), 0b0100000000000000, "set_fine_y test 1 - FAILED!");
}

#[test]
fn test2() {
    let mut vt_reg = VtReg::new();
    vt_reg.set_fine_y(7);
    assert_eq!(vt_reg.get_data(), 0b0111000000000000, "set_fine_y test 2 - FAILED!");
}

#[test]
fn test3() {
    let mut vt_reg = VtReg::new();
    vt_reg.set_data(0b0101000000000000);
    assert_eq!(vt_reg.get_fine_y(), 5, "get_fine_y test 3 - FAILED!")
}

#[test]
fn test4() {
    let mut vt_reg = VtReg::new();
    vt_reg.set_data(0b0110000000000000);
    assert_eq!(vt_reg.get_fine_y(), 6, "get_fine_y test 4 - FAILED!")
}

#[test]
fn test5() {
    let mut vt_reg = VtReg::new();
    vt_reg.set_nametable(3);
    assert_eq!(vt_reg.get_data(), 0b0000110000000000, "set_nametable test 5 - FAILED!")
}

#[test]
fn test6() {
    let mut vt_reg = VtReg::new();
    vt_reg.set_data(0b0000110000000000);
    assert_eq!(vt_reg.get_nametable(), 3, "get_nametable test 6 - FAILED!")
}

#[test]
fn test7() {
    let mut vt_reg = VtReg::new();
    vt_reg.set_coarse_yscroll(0b11111);
    assert_eq!(vt_reg.get_data(), 0b0_000_00_11111_00000, "set_coarse_yscroll test 7 - FAILED!")
}

#[test]
fn test8() {
    let mut vt_reg = VtReg::new();
    vt_reg.set_data(0b0_000_00_11111_00000);
    assert_eq!(vt_reg.get_coarse_yscroll(), 0x1F, "get_coarse_yscroll test 8 - FAILED!")
}

#[test]
fn test9() {
    let mut vt_reg = VtReg::new();
    vt_reg.set_coarse_xscroll(0b11111);
    assert_eq!(vt_reg.get_data(), 0b0_000_00_00000_11111, "set_coarse_xscroll test 9 - FAILED!")
}

#[test]
fn test10() {
    let mut vt_reg = VtReg::new();
    vt_reg.set_data(0b0_000_00_00000_11111);
    assert_eq!(vt_reg.get_coarse_xscroll(), 0x1F, "get_coarse_kscroll test 10 - FAILED!")
}
