use nescore::cart::Cartridge;
use nescore::joy::Joy;
use nescore::mapper::Mapper;
use nescore::ppu::Ppu;
use nescore::{Button, Controller, Nes};

/// A minimal NROM image: 16 KiB of PRG holding `code` at $8000, reset
/// vector $8000, no CHR ROM (the board gets CHR RAM).
fn build_nrom(code: &[u8], battery: bool) -> Vec<u8> {
    let mut rom = vec![0u8; 16 + 16384];
    rom[0] = 0x4E;
    rom[1] = 0x45;
    rom[2] = 0x53;
    rom[3] = 0x1A;
    rom[4] = 1; // one PRG bank
    rom[5] = 0; // CHR RAM
    rom[6] = if battery { 0x02 } else { 0x00 };
    for (i, b) in code.iter().enumerate() {
        rom[16 + i] = *b;
    }
    // reset vector -> $8000
    rom[16 + 0x3FFC] = 0x00;
    rom[16 + 0x3FFD] = 0x80;
    rom
}

#[test]
fn store_and_hold_after_one_frame() {
    // LDA #$42; STA $0200; JMP $8005
    let rom = build_nrom(&[0xA9, 0x42, 0x8D, 0x00, 0x02, 0x4C, 0x05, 0x80], false);
    let cart = Cartridge::from_bytes(&rom).unwrap();
    let mut nes = Nes::default().with_cart(cart);

    let (framebuffer, _samples) = nes.emulate_frame();

    assert_eq!(framebuffer.len(), 256 * 240 * 3);
    assert_eq!(nes.read_cpu_ram(0x0200), 0x42);
    assert!(nes.is_holding());
}

#[test]
fn eject_non_battery_returns_nothing() {
    let rom = build_nrom(&[0x4C, 0x00, 0x80], false);
    let cart = Cartridge::from_bytes(&rom).unwrap();
    let nes = Nes::default().with_cart(cart);

    assert_eq!(nes.eject(), Vec::<u8>::new());
}

#[test]
fn eject_battery_returns_bytes_written() {
    // LDA #$AB; STA $6000; LDA #$CD; STA $6001; JMP $800A
    let rom = build_nrom(
        &[0xA9, 0xAB, 0x8D, 0x00, 0x60, 0xA9, 0xCD, 0x8D, 0x01, 0x60, 0x4C, 0x0A, 0x80],
        true,
    );
    let cart = Cartridge::from_bytes(&rom).unwrap();
    let mut nes = Nes::default().with_cart(cart);

    nes.emulate_frame();
    assert!(nes.is_holding());

    let battery_ram = nes.eject();
    assert_eq!(battery_ram.len(), 0x2000);
    assert_eq!(battery_ram[0], 0xAB);
    assert_eq!(battery_ram[1], 0xCD);
}

#[test]
fn controller_strobe_and_eight_reads() {
    let mut joy = Joy::new();
    joy.controller_input(Controller::Input1, Button::A, true);
    joy.write_strobe(1);
    joy.write_strobe(0);

    let mut reads = Vec::new();
    for _ in 0..8 {
        reads.push(joy.read(Controller::Input1));
    }
    assert_eq!(reads, vec![1, 0, 0, 0, 0, 0, 0, 0]);
    // further reads return 1
    assert_eq!(joy.read(Controller::Input1), 1);
    assert_eq!(joy.read(Controller::Input1), 1);
}

#[test]
fn run_until_reaches_address() {
    let rom = build_nrom(&[0xEA, 0xEA, 0x4C, 0x02, 0x80], false);
    let cart = Cartridge::from_bytes(&rom).unwrap();
    let mut nes = Nes::default().with_cart(cart);

    nes.run_until(0x8002);
    assert_eq!(nes.get_program_counter(), 0x8002);
}

#[test]
fn entry_overrides_reset_vector() {
    let rom = build_nrom(&[0xEA, 0x4C, 0x01, 0x90], false);
    let cart = Cartridge::from_bytes(&rom).unwrap();
    let nes = Nes::default().entry(0xC000).with_cart(cart);
    assert_eq!(nes.get_program_counter(), 0xC000);
}

fn fresh_ppu_and_mapper() -> (Ppu, Mapper) {
    let rom = build_nrom(&[0x4C, 0x00, 0x80], false);
    let cart = Cartridge::from_bytes(&rom).unwrap();
    let mapper = Mapper::from_cartridge(cart).unwrap();
    (Ppu::new(), mapper)
}

#[test]
fn scroll_and_addr_writes_flip_the_toggle() {
    let (mut ppu, mut mapper) = fresh_ppu_and_mapper();
    assert!(!ppu.w);
    ppu.write_register(&mut mapper, 5, 0x10);
    assert!(ppu.w);
    ppu.write_register(&mut mapper, 5, 0x20);
    assert!(!ppu.w);
    ppu.write_register(&mut mapper, 6, 0x21);
    assert!(ppu.w);
    ppu.write_register(&mut mapper, 6, 0x08);
    assert!(!ppu.w);
}

#[test]
fn status_read_clears_vblank_and_toggle() {
    let (mut ppu, mut mapper) = fresh_ppu_and_mapper();
    ppu.status = 0x80;
    ppu.write_register(&mut mapper, 5, 0x10); // leave the toggle set
    assert!(ppu.w);

    let status = ppu.read_register(&mapper, 2);
    assert_eq!(status, 0x80);
    assert_eq!(ppu.status & 0x80, 0);
    assert!(!ppu.w);
}

#[test]
fn vram_write_read_round_trip() {
    let (mut ppu, mut mapper) = fresh_ppu_and_mapper();
    // point v at $2005 via two $2006 writes
    ppu.write_register(&mut mapper, 6, 0x20);
    ppu.write_register(&mut mapper, 6, 0x05);
    ppu.write_register(&mut mapper, 7, 0x99);
    assert_eq!(ppu.read_tile(0x2000, 5, 0), 0x99);
}
