//! iNES / NES 2.0 cartridge header parsing and emission.
//!
//! A header is 16 bytes: the signature `NES\x1A`, PRG and CHR bank counts,
//! two flag bytes carrying mirroring, battery, trainer and mapper bits, and
//! (for NES 2.0) extended bank counts, RAM sizes, submapper and TV system.

use vstd::prelude::*;

verus! {

/// The two recognized header layouts.
#[derive(Debug, PartialEq, Eq, Structural, Clone, Copy)]
pub enum Format {
    INES,
    NES2,
}

/// Everything a cartridge header describes.
#[derive(Debug, PartialEq, Eq, Structural, Clone, Copy)]
pub struct Info {
    pub format: Format,
    /// PRG ROM size in 16 KiB units.
    pub prg_rom_banks: usize,
    /// CHR ROM size in 8 KiB units (0 means the board uses CHR RAM).
    pub chr_rom_banks: usize,
    /// Mapper number.
    pub mapper: usize,
    /// Four screen mode.
    pub four_screen_mode: bool,
    /// 512-byte trainer present before PRG ROM.
    pub trainer: bool,
    /// Battery backed SRAM at $6000-$7FFF.
    pub battback_sram: bool,
    /// Vertical mirroring if true, horizontal if false.
    pub mirror_v: bool,
    /// VS Unisystem.
    pub vs_unisystem: bool,
    /// PlayChoice-10.
    pub playchoice10: bool,
    /// NTSC if false, PAL if true.
    pub tv_system_pal: bool,
    /// Unofficial TV support: 0 - NTSC, 1 - PAL, 2 - dual compatible.
    pub tv_system_ext: usize,
    /// Submapper number (NES 2.0 only).
    pub submapper: usize,
    /// Mapper planes (NES 2.0 only).
    pub mapper_planes: usize,
    /// Amount of battery backed PRG RAM (NES 2.0 only).
    pub batt_prg_ram: usize,
    /// Amount of non-battery backed PRG RAM (NES 2.0 only).
    pub prg_ram: usize,
    /// Amount of battery backed CHR RAM (NES 2.0 only).
    pub batt_chr_ram: usize,
    /// Amount of non-battery backed CHR RAM (NES 2.0 only).
    pub chr_ram: usize,
}

/// Why a byte string was rejected as a header.
#[derive(Debug, PartialEq, Eq, Structural, Clone, Copy)]
pub enum ParseError {
    /// Not enough data to parse a header; holds the length seen.
    InvalidSize(usize),
    /// The first four bytes are not `NES\x1A`.
    InvalidSig,
    /// Neither the iNES nor the NES 2.0 layout was detected.
    InvalidFormat,
}

/// The first four bytes spell `NES\x1A`.
pub open spec fn spec_signature_ok(h: Seq<u8>) -> bool {
    &&& h[0] == 0x4E
    &&& h[1] == 0x45
    &&& h[2] == 0x53
    &&& h[3] == 0x1A
}

/// Which layout the flag byte 7 marker selects.
pub open spec fn spec_format(h: Seq<u8>) -> Result<Format, ParseError> {
    if h[7] & 0x0C == 0x08 {
        Ok(Format::NES2)
    } else if h[12] == 0 && h[13] == 0 && h[14] == 0 && h[15] == 0 {
        Ok(Format::INES)
    } else {
        Err(ParseError::InvalidFormat)
    }
}

/// The fields shared by both layouts, drawn from bytes 4-7; every other
/// field of `info` is left as it was.
pub open spec fn spec_info_common(h: Seq<u8>, info: Info) -> Info {
    Info {
        prg_rom_banks: h[4] as usize,
        chr_rom_banks: h[5] as usize,
        mapper: ((h[7] & 0xF0) | (h[6] >> 4)) as usize,
        four_screen_mode: h[6] & 0x08 != 0,
        trainer: h[6] & 0x04 != 0,
        battback_sram: h[6] & 0x02 != 0,
        mirror_v: h[6] & 0x01 != 0,
        vs_unisystem: h[7] & 0x01 != 0,
        playchoice10: h[7] & 0x02 != 0,
        ..info
    }
}

/// An `Info` with every field still blank, carrying only the layout.
pub open spec fn spec_blank_info(format: Format) -> Info {
    Info {
        format,
        prg_rom_banks: 0,
        chr_rom_banks: 0,
        mapper: 0,
        four_screen_mode: false,
        trainer: false,
        battback_sram: false,
        mirror_v: false,
        vs_unisystem: false,
        playchoice10: false,
        tv_system_pal: false,
        tv_system_ext: 0,
        submapper: 0,
        mapper_planes: 0,
        batt_prg_ram: 0,
        prg_ram: 0,
        batt_chr_ram: 0,
        chr_ram: 0,
    }
}

/// The iNES-only fields, drawn from bytes 9-10.
pub open spec fn spec_info_ines(h: Seq<u8>, info: Info) -> Info {
    Info {
        tv_system_pal: h[9] & 0x01 != 0,
        tv_system_ext: (if h[10] & 0x03 == 0 {
            0usize
        } else if h[10] & 0x03 == 2 {
            1usize
        } else {
            2usize
        }),
        ..info
    }
}

/// The NES 2.0-only fields, drawn from bytes 8-12.
pub open spec fn spec_info_nes2(h: Seq<u8>, info: Info) -> Info {
    Info {
        submapper: ((h[8] & 0xF0) >> 4) as usize,
        mapper_planes: (h[8] & 0x0F) as usize,
        prg_rom_banks: info.prg_rom_banks | (((h[9] & 0x0F) as usize) << 8),
        chr_rom_banks: info.chr_rom_banks | ((((h[9] & 0xF0) >> 4) as usize) << 8),
        batt_prg_ram: (h[10] >> 4) as usize,
        prg_ram: (h[10] & 0x0F) as usize,
        batt_chr_ram: (h[11] >> 4) as usize,
        chr_ram: (h[11] & 0x0F) as usize,
        tv_system_ext: if h[12] & 0x01 != 0 {
            0usize
        } else {
            1usize
        },
        ..info
    }
}

/// All fields for the given layout.
pub open spec fn spec_rom_info(h: Seq<u8>, format: Format) -> Info {
    match format {
        Format::INES => spec_info_ines(h, spec_info_common(h, spec_blank_info(format))),
        Format::NES2 => spec_info_nes2(h, spec_info_common(h, spec_blank_info(format))),
    }
}

/// What parsing a byte string as a header yields: the exact `Info` for a
/// well-formed header, and which error otherwise.
pub open spec fn spec_parse_header(h: Seq<u8>) -> Result<Info, ParseError> {
    if h.len() < 16 {
        Err(ParseError::InvalidSize(h.len() as usize))
    } else if !spec_signature_ok(h) {
        Err(ParseError::InvalidSig)
    } else {
        match spec_format(h) {
            Ok(f) => Ok(spec_rom_info(h, f)),
            Err(e) => Err(e),
        }
    }
}

/// Verify the signature at the start of the file: `NES<EOF>`.
pub fn verify_signature(sig: &[u8]) -> (r: bool)
    requires
        sig@.len() >= 4,
    ensures
        r == spec_signature_ok(sig@),
{
    sig[0] == 0x4E && sig[1] == 0x45 && sig[2] == 0x53 && sig[3] == 0x1A
}

/// Get the NES ROM format.
pub fn get_format(rom_header: &[u8]) -> (r: Result<Format, ParseError>)
    requires
        rom_header@.len() >= 16,
    ensures
        r == spec_format(rom_header@),
{
    let flag7 = rom_header[7];

    if flag7 & 0x0C == 0x08 {
        Ok(Format::NES2)
    } else {
        // if this is an iNES format rom, bytes 12-15 should be $00
        if rom_header[12] == 0 && rom_header[13] == 0 && rom_header[14] == 0 && rom_header[15]
            == 0 {
            Ok(Format::INES)
        } else {
            Err(ParseError::InvalidFormat)
        }
    }
}

/// Read the fields shared by both layouts into `info`; every other field
/// of `info` is left untouched.
fn get_info_common(rom_header: &[u8], info: &mut Info)
    requires
        rom_header@.len() >= 8,
    ensures
        *final(info) == spec_info_common(rom_header@, *old(info)),
{
    // get program and character bank info
    let prg_rom_banks = rom_header[4] as usize;
    let chr_rom_banks = rom_header[5] as usize;

    let flag6 = rom_header[6];
    let flag7 = rom_header[7];

    let mirror_v = (flag6 & 0x01u8) != 0;
    let battback_sram = (flag6 & 0x02u8) != 0;
    let trainer = (flag6 & 0x04u8) != 0;
    let four_screen_mode = (flag6 & 0x08u8) != 0;

    let vs_unisystem = (flag7 & 0x01) != 0;
    let playchoice10 = (flag7 & 0x02) != 0;

    // mapper number
    let mapper_lo = flag6 >> 4;
    let mapper_hi = flag7 & 0xF0;
    let mapper = mapper_hi | mapper_lo;

    info.prg_rom_banks = prg_rom_banks;
    info.chr_rom_banks = chr_rom_banks;
    info.mirror_v = mirror_v;
    info.battback_sram = battback_sram;
    info.trainer = trainer;
    info.four_screen_mode = four_screen_mode;
    info.mapper = mapper as usize;
    info.vs_unisystem = vs_unisystem;
    info.playchoice10 = playchoice10;
}

/// Read the iNES-only fields into `info`.
fn get_info_ines(rom_header: &[u8], info: &mut Info)
    requires
        rom_header@.len() >= 16,
    ensures
        *final(info) == spec_info_ines(rom_header@, *old(info)),
{
    info.tv_system_pal = (rom_header[9] & 0x01u8) != 0;
    let b10 = rom_header[10];
    proof {
        assert(b10 & 0x03u8 <= 3) by (bit_vector);
    }
    info.tv_system_ext = match b10 & 0x03u8 {
        0 => 0,
        2 => 1,
        1 | 3 => 2,
        _ => 0,
    };
}

/// Read the NES 2.0-only fields into `info`.
fn get_info_nes2(rom_header: &[u8], info: &mut Info)
    requires
        rom_header@.len() >= 16,
    ensures
        *final(info) == spec_info_nes2(rom_header@, *old(info)),
{
    // additional mapper info
    let submapper = (rom_header[8] & 0xF0u8) >> 4;
    let mapper_planes = rom_header[8] & 0x0Fu8;

    info.submapper = submapper as usize;
    info.mapper_planes = mapper_planes as usize;

    // extend PRG and CHR rom size
    let prg_rom_hi_bits = rom_header[9] & 0x0Fu8;
    let chr_rom_hi_bits = (rom_header[9] & 0xF0u8) >> 4;

    info.prg_rom_banks = info.prg_rom_banks | ((prg_rom_hi_bits as usize) << 8);
    info.chr_rom_banks = info.chr_rom_banks | ((chr_rom_hi_bits as usize) << 8);

    // PRG RAM size
    info.batt_prg_ram = (rom_header[10] >> 4) as usize;
    info.prg_ram = (rom_header[10] & 0x0Fu8) as usize;

    // CHR RAM size
    info.batt_chr_ram = (rom_header[11] >> 4) as usize;
    info.chr_ram = (rom_header[11] & 0x0Fu8) as usize;

    // TV system
    info.tv_system_ext = if (rom_header[12] & 0x01) != 0 {
        0
    } else {
        1
    };
}

/// Pull rom info from the header bytes.
fn get_rom_info(rom_header: &[u8], format: Format) -> (r: Info)
    requires
        rom_header@.len() >= 16,
    ensures
        r == spec_rom_info(rom_header@, format),
{
    let mut info = Info {
        format,
        prg_rom_banks: 0,
        chr_rom_banks: 0,
        mapper: 0,
        four_screen_mode: false,
        trainer: false,
        battback_sram: false,
        mirror_v: false,
        vs_unisystem: false,
        playchoice10: false,
        tv_system_pal: false,
        tv_system_ext: 0,
        submapper: 0,
        mapper_planes: 0,
        batt_prg_ram: 0,
        prg_ram: 0,
        batt_chr_ram: 0,
        chr_ram: 0,
    };

    get_info_common(rom_header, &mut info);

    match format {
        Format::INES => get_info_ines(rom_header, &mut info),
        Format::NES2 => get_info_nes2(rom_header, &mut info),
    }

    info
}

/// Parse a NES ROM header, yielding exactly what `spec_parse_header` says.
pub fn parse_header(rom_header: &[u8]) -> (r: Result<Info, ParseError>)
    ensures
        r == spec_parse_header(rom_header@),
{
    if rom_header.len() < 16 {
        return Err(ParseError::InvalidSize(rom_header.len()));
    }
    if !verify_signature(rom_header) {
        return Err(ParseError::InvalidSig);
    }
    let format = match get_format(rom_header) {
        Ok(f) => f,
        Err(e) => {
            return Err(e);
        },
    };

    let info = get_rom_info(rom_header, format);

    Ok(info)
}

/// `m` as a byte when the flag is set, zero otherwise.
pub open spec fn spec_flag_bit(b: bool, m: u8) -> u8 {
    if b {
        m
    } else {
        0
    }
}

/// An `Info` whose fields all fit the bit fields of its own layout. Only such
/// headers can be written back; parsing always yields one.
pub open spec fn spec_valid_info(info: Info) -> bool {
    &&& info.mapper < 256
    &&& match info.format {
        Format::INES => {
            &&& info.prg_rom_banks < 256
            &&& info.chr_rom_banks < 256
            &&& info.tv_system_ext < 3
            &&& info.submapper == 0
            &&& info.mapper_planes == 0
            &&& info.batt_prg_ram == 0
            &&& info.prg_ram == 0
            &&& info.batt_chr_ram == 0
            &&& info.chr_ram == 0
        },
        Format::NES2 => {
            &&& info.prg_rom_banks < 0x1000
            &&& info.chr_rom_banks < 0x1000
            &&& info.submapper < 16
            &&& info.mapper_planes < 16
            &&& info.batt_prg_ram < 16
            &&& info.prg_ram < 16
            &&& info.batt_chr_ram < 16
            &&& info.chr_ram < 16
            &&& info.tv_system_ext < 2
            &&& !info.tv_system_pal
        },
    }
}

/// Flag byte 6: mirroring, battery, trainer, four-screen, mapper low nibble.
pub open spec fn spec_emit_flag6(info: Info) -> u8 {
    spec_flag_bit(info.mirror_v, 0x01) | spec_flag_bit(info.battback_sram, 0x02) | spec_flag_bit(
        info.trainer,
        0x04,
    ) | spec_flag_bit(info.four_screen_mode, 0x08) | (((info.mapper & 0x0F) as u8) << 4)
}

/// Flag byte 7: VS, PlayChoice-10, the layout marker, mapper high nibble.
pub open spec fn spec_emit_flag7(info: Info) -> u8 {
    spec_flag_bit(info.vs_unisystem, 0x01) | spec_flag_bit(info.playchoice10, 0x02) | (
    if info.format == Format::NES2 {
        0x08u8
    } else {
        0u8
    }) | ((info.mapper & 0xF0) as u8)
}

/// The 16 header bytes that describe `info`.
pub open spec fn spec_emit_header(info: Info) -> Seq<u8> {
    match info.format {
        Format::INES => seq![
            0x4Eu8,
            0x45u8,
            0x53u8,
            0x1Au8,
            info.prg_rom_banks as u8,
            info.chr_rom_banks as u8,
            spec_emit_flag6(info),
            spec_emit_flag7(info),
            0u8,
            spec_flag_bit(info.tv_system_pal, 0x01),
            (if info.tv_system_ext == 0 {
                0u8
            } else if info.tv_system_ext == 1 {
                2u8
            } else {
                1u8
            }),
            0u8,
            0u8,
            0u8,
            0u8,
            0u8,
        ],
        Format::NES2 => seq![
            0x4Eu8,
            0x45u8,
            0x53u8,
            0x1Au8,
            (info.prg_rom_banks & 0xFF) as u8,
            (info.chr_rom_banks & 0xFF) as u8,
            spec_emit_flag6(info),
            spec_emit_flag7(info),
            ((info.submapper as u8) << 4) | (info.mapper_planes as u8),
            ((((info.chr_rom_banks >> 8) & 0x0F) as u8) << 4) | (((info.prg_rom_banks >> 8)
                & 0x0F) as u8),
            ((info.batt_prg_ram as u8) << 4) | (info.prg_ram as u8),
            ((info.batt_chr_ram as u8) << 4) | (info.chr_ram as u8),
            (if info.tv_system_ext == 0 {
                1u8
            } else {
                0u8
            }),
            0u8,
            0u8,
            0u8,
        ],
    }
}

/// Recovering a nibble pair out of the byte it was packed into.
proof fn lemma_nibbles(hi: u8, lo: u8)
    by (bit_vector)
    requires
        hi < 16,
        lo < 16,
    ensures
        (((hi << 4) | lo) & 0xF0) >> 4 == hi,
        ((hi << 4) | lo) >> 4 == hi,
        ((hi << 4) | lo) & 0x0F == lo,
{
}

/// Recovering the flag bits and the mapper nibbles out of flag bytes 6 and 7.
proof fn lemma_flag_bytes(
    mv: bool,
    bb: bool,
    tr: bool,
    fs: bool,
    vs: bool,
    pc: bool,
    nes2: bool,
    m: u8,
)
    by (bit_vector)
    ensures
        ({
            let f6 = (if mv {
                0x01u8
            } else {
                0
            }) | (if bb {
                0x02u8
            } else {
                0
            }) | (if tr {
                0x04u8
            } else {
                0
            }) | (if fs {
                0x08u8
            } else {
                0
            }) | ((m & 0x0F) << 4);
            let f7 = (if vs {
                0x01u8
            } else {
                0
            }) | (if pc {
                0x02u8
            } else {
                0
            }) | (if nes2 {
                0x08u8
            } else {
                0
            }) | (m & 0xF0);
            &&& (f6 & 0x01 != 0) == mv
            &&& (f6 & 0x02 != 0) == bb
            &&& (f6 & 0x04 != 0) == tr
            &&& (f6 & 0x08 != 0) == fs
            &&& (f7 & 0x01 != 0) == vs
            &&& (f7 & 0x02 != 0) == pc
            &&& (f7 & 0x0C == 0x08) == nes2
            &&& ((f7 & 0xF0) | (f6 >> 4)) == m
        }),
{
}

/// Recovering a 12-bit bank count from its low byte and high nibble.
proof fn lemma_bank_bits(n: usize)
    by (bit_vector)
    requires
        n < 0x1000,
    ensures
        (n & 0xFF) | (((n >> 8) & 0x0F) << 8) == n,
        n & 0xFF <= 0xFF,
        (n >> 8) & 0x0F < 16,
{
}

/// Writing a valid header out and parsing it back yields the header again:
/// the parser is a left inverse of the emitter.
pub proof fn lemma_header_round_trip(info: Info)
    requires
        spec_valid_info(info),
    ensures
        spec_parse_header(spec_emit_header(info)) == Ok::<Info, ParseError>(info),
{
    let h = spec_emit_header(info);
    assert(h.len() == 16);
    assert(spec_signature_ok(h));
    let m: u8 = info.mapper as u8;
    lemma_flag_bytes(
        info.mirror_v,
        info.battback_sram,
        info.trainer,
        info.four_screen_mode,
        info.vs_unisystem,
        info.playchoice10,
        info.format == Format::NES2,
        m,
    );
    assert(((m & 0xF0) | (m & 0x0F)) == m) by (bit_vector);
    assert(m as usize == info.mapper);
    assert(0u8 & 0x01 == 0 && 1u8 & 0x01 == 1 && 0u8 & 0x03 == 0 && 2u8 & 0x03 == 2 && 1u8 & 0x03
        == 1) by (bit_vector);
    match info.format {
        Format::INES => {
            assert(h[7] & 0x0C != 0x08);
            assert(spec_format(h) == Ok::<Format, ParseError>(Format::INES));
            let c = spec_info_common(h, spec_blank_info(Format::INES));
            assert(c.mapper == info.mapper);
            assert(h[4] == info.prg_rom_banks as u8);
            assert(c.prg_rom_banks == info.prg_rom_banks);
            assert(c.chr_rom_banks == info.chr_rom_banks);
            let r = spec_info_ines(h, c);
            assert(r.tv_system_pal == info.tv_system_pal);
            if info.tv_system_ext == 0 {
                assert(h[10] == 0u8);
            } else if info.tv_system_ext == 1 {
                assert(h[10] == 2u8);
            } else {
                assert(h[10] == 1u8);
            }
            assert(r.tv_system_ext == info.tv_system_ext);
            assert(r == info);
        },
        Format::NES2 => {
            assert(h[7] & 0x0C == 0x08);
            assert(spec_format(h) == Ok::<Format, ParseError>(Format::NES2));
            let c = spec_info_common(h, spec_blank_info(Format::NES2));
            assert(c.mapper == info.mapper);
            lemma_bank_bits(info.prg_rom_banks);
            lemma_bank_bits(info.chr_rom_banks);
            lemma_nibbles(info.submapper as u8, info.mapper_planes as u8);
            lemma_nibbles(info.batt_prg_ram as u8, info.prg_ram as u8);
            lemma_nibbles(info.batt_chr_ram as u8, info.chr_ram as u8);
            lemma_nibbles(
                ((info.chr_rom_banks >> 8) & 0x0F) as u8,
                ((info.prg_rom_banks >> 8) & 0x0F) as u8,
            );
            let r = spec_info_nes2(h, c);
            assert(r.submapper == info.submapper);
            assert(r.mapper_planes == info.mapper_planes);
            assert(r.batt_prg_ram == info.batt_prg_ram);
            assert(r.prg_ram == info.prg_ram);
            assert(r.batt_chr_ram == info.batt_chr_ram);
            assert(r.chr_ram == info.chr_ram);
            assert(c.prg_rom_banks == info.prg_rom_banks & 0xFF);
            assert(c.chr_rom_banks == info.chr_rom_banks & 0xFF);
            assert((h[9] & 0x0F) as usize == (info.prg_rom_banks >> 8) & 0x0F);
            assert(((h[9] & 0xF0) >> 4) as usize == (info.chr_rom_banks >> 8) & 0x0F);
            assert(r.prg_rom_banks == ((info.prg_rom_banks & 0xFF) | (((info.prg_rom_banks >> 8)
                & 0x0F)) << 8));
            assert(r.chr_rom_banks == ((info.chr_rom_banks & 0xFF) | (((info.chr_rom_banks >> 8)
                & 0x0F)) << 8));
            assert(r.prg_rom_banks == info.prg_rom_banks);
            assert(r.chr_rom_banks == info.chr_rom_banks);
            assert(r == info);
        },
    }
}

/// A parsed header's bank counts fit in 12 bits: one byte for iNES, a byte
/// plus a nibble for NES 2.0.
pub proof fn lemma_parse_bank_bounds(h: Seq<u8>)
    ensures
        spec_parse_header(h) is Ok ==> spec_parse_header(h)->Ok_0.prg_rom_banks < 0x1000
            && spec_parse_header(h)->Ok_0.chr_rom_banks < 0x1000,
{
    if spec_parse_header(h) is Ok {
        let b4 = h[4];
        let b5 = h[5];
        let b9 = h[9];
        assert(((b4 as usize) | (((b9 & 0x0F) as usize) << 8)) < 0x1000 && ((b5 as usize) | ((((b9
            & 0xF0) >> 4) as usize) << 8)) < 0x1000 && (b4 as usize) < 0x1000 && (b5 as usize)
            < 0x1000) by (bit_vector);
    }
}

/// Write the 16 header bytes that `parse_header` reads back as `info`.
pub fn emit_header(info: &Info) -> (r: Vec<u8>)
    requires
        spec_valid_info(*info),
    ensures
        r@ == spec_emit_header(*info),
        spec_parse_header(r@) == Ok::<Info, ParseError>(*info),
{
    proof {
        lemma_header_round_trip(*info);
    }
    let flag6: u8 = (if info.mirror_v {
        0x01u8
    } else {
        0
    }) | (if info.battback_sram {
        0x02u8
    } else {
        0
    }) | (if info.trainer {
        0x04u8
    } else {
        0
    }) | (if info.four_screen_mode {
        0x08u8
    } else {
        0
    }) | (((info.mapper & 0x0F) as u8) << 4);
    let is_nes2 = match info.format {
        Format::NES2 => true,
        Format::INES => false,
    };
    let flag7: u8 = (if info.vs_unisystem {
        0x01u8
    } else {
        0
    }) | (if info.playchoice10 {
        0x02u8
    } else {
        0
    }) | (if is_nes2 {
        0x08u8
    } else {
        0
    }) | ((info.mapper & 0xF0) as u8);
    let mut out: Vec<u8> = Vec::new();
    out.push(0x4E);
    out.push(0x45);
    out.push(0x53);
    out.push(0x1A);
    if !is_nes2 {
        out.push(info.prg_rom_banks as u8);
        out.push(info.chr_rom_banks as u8);
        out.push(flag6);
        out.push(flag7);
        out.push(0);
        out.push(if info.tv_system_pal {
            0x01
        } else {
            0
        });
        out.push(
            if info.tv_system_ext == 0 {
                0
            } else if info.tv_system_ext == 1 {
                2
            } else {
                1
            },
        );
        out.push(0);
        out.push(0);
        out.push(0);
        out.push(0);
        out.push(0);
    } else {
        proof {
            lemma_bank_bits(info.prg_rom_banks);
            lemma_bank_bits(info.chr_rom_banks);
        }
        out.push((info.prg_rom_banks & 0xFF) as u8);
        out.push((info.chr_rom_banks & 0xFF) as u8);
        out.push(flag6);
        out.push(flag7);
        out.push(((info.submapper as u8) << 4) | (info.mapper_planes as u8));
        out.push(
            ((((info.chr_rom_banks >> 8) & 0x0F) as u8) << 4) | (((info.prg_rom_banks >> 8)
                & 0x0F) as u8),
        );
        out.push(((info.batt_prg_ram as u8) << 4) | (info.prg_ram as u8));
        out.push(((info.batt_chr_ram as u8) << 4) | (info.chr_ram as u8));
        out.push(if info.tv_system_ext == 0 {
            1
        } else {
            0
        });
        out.push(0);
        out.push(0);
        out.push(0);
    }
    proof {
        assert(out@ =~= spec_emit_header(*info));
    }
    out
}

} // verus!

