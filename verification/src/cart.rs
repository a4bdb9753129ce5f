//! A cartridge image: the parsed header plus the PRG ROM and CHR bytes cut
//! out of the file. A cartridge with no CHR ROM banks carries 8 KiB of CHR
//! RAM instead.

use crate::header::{parse_header, spec_parse_header, Info, ParseError};
use vstd::prelude::*;

verus! {

/// Size of one PRG ROM bank.
pub const PRG_BANK_SIZE: usize = 16384;

/// Size of one CHR bank.
pub const CHR_BANK_SIZE: usize = 8192;

/// Copy `len` bytes of `src` starting at `start` into a fresh vector.
fn copy_range(src: &[u8], start: usize, len: usize) -> (r: Vec<u8>)
    requires
        start + len <= src@.len(),
    ensures
        r@ == src@.subrange(start as int, start as int + len as int),
{
    let n = src.len();
    let mut out: Vec<u8> = Vec::new();
    let mut i: usize = 0;
    while i < len
        invariant
            i <= len,
            start + len <= n,
            n == src@.len(),
            out@ == src@.subrange(start as int, start as int + i as int),
        decreases len - i,
    {
        out.push(src[start + i]);
        proof {
            assert(out@ =~= src@.subrange(start as int, start as int + (i + 1) as int));
        }
        i = i + 1;
    }
    out
}

/// A vector of `len` zero bytes.
fn zero_vec(len: usize) -> (r: Vec<u8>)
    ensures
        r@ == Seq::new(len as nat, |i: int| 0u8),
{
    let mut out: Vec<u8> = Vec::new();
    let mut i: usize = 0;
    while i < len
        invariant
            i <= len,
            out@ == Seq::new(i as nat, |j: int| 0u8),
        decreases len - i,
    {
        out.push(0);
        proof {
            assert(out@ =~= Seq::new((i + 1) as nat, |j: int| 0u8));
        }
        i = i + 1;
    }
    out
}

/// Where the PRG ROM starts in the file: after the header and, when one is
/// present, the 512-byte trainer.
pub open spec fn spec_prg_start(info: Info) -> int {
    16 + if info.trainer {
        512int
    } else {
        0int
    }
}

/// A cartridge ready to be inserted.
pub struct Cartridge {
    /// The parsed header.
    pub info: Info,
    /// The PRG ROM bytes, `info.prg_rom_banks` banks of 16 KiB.
    pub prg_rom: Vec<u8>,
    /// The CHR bytes: ROM from the file, or 8 KiB of blank RAM.
    pub chr: Vec<u8>,
    /// Whether `chr` is RAM (writable) rather than ROM.
    pub chr_is_ram: bool,
}

impl Cartridge {
    /// The shape every loaded cartridge has.
    pub open spec fn wf(&self) -> bool {
        &&& self.info.prg_rom_banks <= 0x1000
        &&& self.info.chr_rom_banks <= 0x1000
        &&& self.prg_rom@.len() == self.info.prg_rom_banks * PRG_BANK_SIZE
        &&& self.chr@.len() == (if self.info.chr_rom_banks == 0 {
            CHR_BANK_SIZE as int
        } else {
            self.info.chr_rom_banks * CHR_BANK_SIZE
        })
        &&& self.chr_is_ram == (self.info.chr_rom_banks == 0)
    }

    /// Cut a cartridge out of a ROM file. Succeeds exactly when the header
    /// parses and the file holds the banks the header promises; the PRG and
    /// CHR bytes are the corresponding stretches of the file.
    pub fn from_bytes(rom: &[u8]) -> (r: Result<Cartridge, ParseError>)
        ensures
            match r {
                Ok(cart) => {
                    &&& spec_parse_header(rom@) is Ok
                    &&& cart.info == spec_parse_header(rom@)->Ok_0
                    &&& cart.wf()
                    &&& spec_prg_start(cart.info) + cart.info.prg_rom_banks * PRG_BANK_SIZE
                        + cart.info.chr_rom_banks * CHR_BANK_SIZE <= rom@.len()
                    &&& cart.prg_rom@ == rom@.subrange(
                        spec_prg_start(cart.info),
                        spec_prg_start(cart.info) + cart.info.prg_rom_banks * PRG_BANK_SIZE,
                    )
                    &&& cart.info.chr_rom_banks != 0 ==> cart.chr@ == rom@.subrange(
                        spec_prg_start(cart.info) + cart.info.prg_rom_banks * PRG_BANK_SIZE,
                        spec_prg_start(cart.info) + cart.info.prg_rom_banks * PRG_BANK_SIZE
                            + cart.info.chr_rom_banks * CHR_BANK_SIZE,
                    )
                },
                Err(e) => {
                    ||| spec_parse_header(rom@) == Err::<Info, ParseError>(e)
                    ||| (spec_parse_header(rom@) is Ok && e == ParseError::InvalidSize(
                        rom@.len() as usize,
                    ))
                },
            },
            spec_parse_header(rom@) matches Ok(i) && spec_prg_start(i) + i.prg_rom_banks
                * PRG_BANK_SIZE + i.chr_rom_banks * CHR_BANK_SIZE <= rom@.len() ==> r is Ok,
    {
        proof {
            crate::header::lemma_parse_bank_bounds(rom@);
        }
        let info = match parse_header(rom) {
            Ok(i) => i,
            Err(e) => {
                return Err(e);
            },
        };
        // an over-large bank count cannot describe bytes actually present
        if info.prg_rom_banks > 0x1000 || info.chr_rom_banks > 0x1000 {
            return Err(ParseError::InvalidSize(rom.len()));
        }
        let prg_start: usize = if info.trainer {
            16 + 512
        } else {
            16
        };
        let prg_len: usize = info.prg_rom_banks * PRG_BANK_SIZE;
        let chr_len: usize = info.chr_rom_banks * CHR_BANK_SIZE;
        if rom.len() < prg_start || rom.len() - prg_start < prg_len || (rom.len() - prg_start)
            - prg_len < chr_len {
            return Err(ParseError::InvalidSize(rom.len()));
        }
        let prg_rom = copy_range(rom, prg_start, prg_len);
        let chr_is_ram = info.chr_rom_banks == 0;
        let chr = if chr_is_ram {
            zero_vec(CHR_BANK_SIZE)
        } else {
            copy_range(rom, prg_start + prg_len, chr_len)
        };
        Ok(Cartridge { info, prg_rom, chr, chr_is_ram })
    }
}

} // verus!
