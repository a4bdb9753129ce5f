use nescore::header::{emit_header, get_format, parse_header, Format, Info, ParseError};

fn valid_ines_header() -> [u8; 16] {
    let mut h = [0u8; 16];
    h[0] = 0x4E;
    h[1] = 0x45;
    h[2] = 0x53;
    h[3] = 0x1A;
    h[4] = 2; // PRG banks
    h[5] = 1; // CHR banks
    h[6] = 0x31; // vertical mirroring, mapper low nibble 3
    h[7] = 0x40; // mapper high nibble 4
    h
}

#[test]
fn test_get_format_nes2() {
    let mut rom_header = [0; 16];
    rom_header[7] = 0x08u8;

    let format = get_format(&rom_header[..]).unwrap();
    assert_eq!(format, Format::NES2);
}

#[test]
fn test_get_format_ines() {
    let mut rom_header = [0; 16];
    rom_header[7] = 0x04u8;

    let format = get_format(&rom_header[..]).unwrap();
    assert_eq!(format, Format::INES);
}

#[test]
fn parse_valid_ines() {
    let h = valid_ines_header();
    let info = parse_header(&h[..]).unwrap();
    assert_eq!(info.format, Format::INES);
    assert_eq!(info.prg_rom_banks, 2);
    assert_eq!(info.chr_rom_banks, 1);
    assert_eq!(info.mapper, 0x43);
    assert!(info.mirror_v);
    assert!(!info.battback_sram);
    assert!(!info.trainer);
}

#[test]
fn parse_too_short() {
    let h = [0x4E, 0x45, 0x53];
    assert_eq!(parse_header(&h[..]), Err(ParseError::InvalidSize(3)));
}

#[test]
fn parse_bad_signature() {
    let mut h = valid_ines_header();
    h[0] = 0x4D;
    assert_eq!(parse_header(&h[..]), Err(ParseError::InvalidSig));
}

#[test]
fn parse_bad_format() {
    let mut h = valid_ines_header();
    h[13] = 0xAA; // neither NES 2.0 marker nor zeroed tail
    assert_eq!(parse_header(&h[..]), Err(ParseError::InvalidFormat));
}

#[test]
fn header_round_trip_ines() {
    let h = valid_ines_header();
    let info = parse_header(&h[..]).unwrap();
    let emitted = emit_header(&info);
    assert_eq!(emitted.len(), 16);
    assert_eq!(parse_header(&emitted[..]), Ok(info));
}

#[test]
fn header_round_trip_nes2() {
    let info = Info {
        format: Format::NES2,
        prg_rom_banks: 0x214,
        chr_rom_banks: 0x108,
        mapper: 0x97,
        four_screen_mode: false,
        trainer: true,
        battback_sram: true,
        mirror_v: false,
        vs_unisystem: true,
        playchoice10: false,
        tv_system_pal: false,
        tv_system_ext: 1,
        submapper: 5,
        mapper_planes: 2,
        batt_prg_ram: 7,
        prg_ram: 9,
        batt_chr_ram: 1,
        chr_ram: 3,
    };
    let emitted = emit_header(&info);
    assert_eq!(parse_header(&emitted[..]), Ok(info));
}
