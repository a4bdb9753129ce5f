use nescore::ppu_bus::calc_nametable_addr;

#[test]
fn horizontal_mirroring() {
    assert_eq!(calc_nametable_addr(0x2000, false), 0x2400);
    assert_eq!(calc_nametable_addr(0x2800, false), 0x2C00);
}

#[test]
fn vertical_mirroring() {
    assert_eq!(calc_nametable_addr(0x2000, true), 0x2800);
    assert_eq!(calc_nametable_addr(0x2400, true), 0x2C00);
}
