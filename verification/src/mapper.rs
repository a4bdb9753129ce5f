//! The cartridge mappers: address translation and bank switching for the
//! program and character spaces, plus the battery-backed work RAM at
//! $6000-$7FFF. Bank selectors are always taken modulo the bank count.

use crate::cart::Cartridge;
use crate::mem::Memory;
use vstd::prelude::*;

verus! {

/// Size of one PRG bank as the mappers switch it.
pub const PRG_BANK: usize = 0x4000;

/// Size of one CHR bank as the mappers switch it: 4 KiB, so an 8 KiB
/// selection spans a consecutive pair.
pub const CHR_BANK: usize = 0x1000;

/// Size of the work RAM window at $6000-$7FFF.
pub const SRAM_SIZE: usize = 0x2000;

/// Nametable arrangement the cartridge asks for.
#[derive(Debug, PartialEq, Eq, Structural, Clone, Copy)]
pub enum Mirroring {
    Horizontal,
    Vertical,
    FourScreen,
}

/// Which board the cartridge carries.
#[derive(Debug, PartialEq, Eq, Structural, Clone, Copy)]
pub enum MapperKind {
    /// Mapper 0: no bank switching.
    Nrom,
    /// Mapper 1: serial shift register, four internal registers.
    Mmc1,
    /// Mapper 2: switchable low PRG bank, last bank fixed.
    Uxrom,
    /// Mapper 3: switchable CHR bank.
    Cnrom,
    /// Mapper 4: eight bank registers behind a select port, and a
    /// scanline-clocked IRQ counter.
    Mmc3,
}

/// How wide the PRG banks a board switches are: MMC3 swaps 8 KiB banks,
/// the others 16 KiB.
pub open spec fn spec_prg_bank_size(kind: MapperKind) -> usize {
    match kind {
        MapperKind::Mmc3 => 0x2000,
        _ => PRG_BANK,
    }
}

/// How wide the CHR banks a board switches are: MMC3 swaps 1 KiB banks,
/// the others 4 KiB.
pub open spec fn spec_chr_bank_size(kind: MapperKind) -> usize {
    match kind {
        MapperKind::Mmc3 => 0x400,
        _ => CHR_BANK,
    }
}

/// Why a cartridge was refused at insertion.
#[derive(Debug, PartialEq, Eq, Structural, Clone, Copy)]
pub enum InsertError {
    /// The header names a mapper this library does not implement.
    UnsupportedMapper(usize),
}

/// The cartridge-side address translator and bank controller.
pub struct Mapper {
    pub kind: MapperKind,
    /// PRG ROM in 16 KiB banks.
    pub prg_rom: Memory,
    /// CHR ROM or RAM in 4 KiB banks.
    pub chr: Memory,
    pub chr_is_ram: bool,
    /// Work RAM at $6000-$7FFF.
    pub sram: Vec<u8>,
    /// Whether the work RAM is battery backed.
    pub battery: bool,
    pub mirroring: Mirroring,
    /// UxROM low bank select; MMC1 PRG register.
    pub prg_bank: u8,
    /// CNROM bank select; MMC1 CHR0 register.
    pub chr_bank: u8,
    /// MMC1 CHR1 register.
    pub chr_bank1: u8,
    /// MMC1 control register.
    pub control: u8,
    /// MMC1 serial shift register.
    pub shift: u8,
    /// Bits collected in the MMC1 shift register.
    pub shift_count: u8,
    /// MMC3 bank registers R0-R7.
    pub bank_regs: Vec<u8>,
    /// MMC3 bank select port: register index and the two banking modes.
    pub bank_select: u8,
    /// MMC3 IRQ counter reload value.
    pub irq_latch: u8,
    /// MMC3 IRQ scanline counter.
    pub irq_counter: u8,
    /// MMC3 pending reload of the IRQ counter.
    pub irq_reload: bool,
    /// MMC3 IRQ enable.
    pub irq_enable: bool,
    /// The board's IRQ line.
    pub irq_flag: bool,
}

impl Mapper {
    /// The shape every built mapper keeps: whole banks, at least one of
    /// each, and an 8 KiB work RAM.
    pub open spec fn wf(&self) -> bool {
        &&& self.prg_rom@.len() == self.prg_rom.spec_num_banks() * spec_prg_bank_size(self.kind)
        &&& self.prg_rom.spec_bank_size() == spec_prg_bank_size(self.kind)
        &&& self.prg_rom.spec_num_banks() >= 1
        &&& self.chr@.len() == self.chr.spec_num_banks() * spec_chr_bank_size(self.kind)
        &&& self.chr.spec_bank_size() == spec_chr_bank_size(self.kind)
        &&& self.chr.spec_num_banks() >= 1
        &&& self.sram@.len() == SRAM_SIZE
        &&& self.shift_count < 5
        &&& self.bank_regs@.len() == 8
    }

    /// The offset of a program-space read within its bank.
    pub open spec fn spec_prg_off(&self, addr: u16) -> int {
        match self.kind {
            MapperKind::Mmc3 => (addr & 0x1FFF) as int,
            _ => (addr & 0x3FFF) as int,
        }
    }

    /// The offset of a character-space read within its bank.
    pub open spec fn spec_chr_off(&self, addr: u16) -> int {
        match self.kind {
            MapperKind::Mmc3 => (addr & 0x03FF) as int,
            _ => (addr & 0x0FFF) as int,
        }
    }

    /// Which 16 KiB PRG bank a read of `addr` ($8000-$FFFF) goes to.
    pub open spec fn spec_prg_bank_for(&self, addr: u16) -> int {
        let n = self.prg_rom.spec_num_banks() as int;
        let low = addr < 0xC000;
        match self.kind {
            MapperKind::Nrom => if low {
                0int
            } else {
                n - 1
            },
            MapperKind::Uxrom => if low {
                (self.prg_bank as int) % n
            } else {
                n - 1
            },
            MapperKind::Cnrom => if low {
                0int
            } else {
                n - 1
            },
            MapperKind::Mmc1 => {
                let mode = (self.control >> 2) & 0x03;
                if mode == 2 {
                    if low {
                        0int
                    } else {
                        (self.prg_bank as int) % n
                    }
                } else if mode == 3 {
                    if low {
                        (self.prg_bank as int) % n
                    } else {
                        n - 1
                    }
                } else {
                    // 32 KiB mode: an even-odd pair
                    let base = ((self.prg_bank & 0x0E) as int) % n;
                    if low {
                        base
                    } else {
                        (base + 1) % n
                    }
                }
            },
            MapperKind::Mmc3 => {
                // 8 KiB windows: R6 and the second-last bank swap places
                // under bank-select bit 6; $A000 is R7, $E000 the last
                let window = (addr >> 13) & 0x03;
                let swap = self.bank_select & 0x40 != 0;
                if window == 0 {
                    if swap {
                        (n - 2) % n
                    } else {
                        (self.bank_regs@[6] as int) % n
                    }
                } else if window == 1 {
                    (self.bank_regs@[7] as int) % n
                } else if window == 2 {
                    if swap {
                        (self.bank_regs@[6] as int) % n
                    } else {
                        (n - 2) % n
                    }
                } else {
                    n - 1
                }
            },
        }
    }

    /// Which 4 KiB CHR bank a read of `addr` ($0000-$1FFF) goes to.
    pub open spec fn spec_chr_bank_for(&self, addr: u16) -> int {
        let n = self.chr.spec_num_banks() as int;
        let hi = if addr >= 0x1000 {
            1int
        } else {
            0int
        };
        match self.kind {
            MapperKind::Nrom => hi % n,
            MapperKind::Uxrom => hi % n,
            MapperKind::Cnrom => (2 * (self.chr_bank as int) + hi) % n,
            MapperKind::Mmc1 => {
                if (self.control >> 4) & 1 == 1 {
                    // two independent 4 KiB banks
                    if hi == 0 {
                        (self.chr_bank as int) % n
                    } else {
                        (self.chr_bank1 as int) % n
                    }
                } else {
                    // one 8 KiB pair
                    (((self.chr_bank & 0x1E) as int) + hi) % n
                }
            },
            MapperKind::Mmc3 => {
                // 1 KiB windows; bank-select bit 7 crosses the two halves
                let a = if self.bank_select & 0x80 != 0 {
                    (addr ^ 0x1000) as u16
                } else {
                    addr
                };
                let w = (a >> 10) & 0x07;
                let r = if w == 0 {
                    (self.bank_regs@[0] & 0xFE) as int
                } else if w == 1 {
                    (self.bank_regs@[0] | 0x01) as int
                } else if w == 2 {
                    (self.bank_regs@[1] & 0xFE) as int
                } else if w == 3 {
                    (self.bank_regs@[1] | 0x01) as int
                } else {
                    self.bank_regs@[(w - 2) as int] as int
                };
                r % n
            },
        }
    }

    /// Build the mapper a cartridge asks for; unknown mapper numbers are
    /// refused, exactly as stated.
    pub fn from_cartridge(cart: Cartridge) -> (r: Result<Mapper, InsertError>)
        requires
            cart.wf(),
            cart.info.prg_rom_banks >= 1,
        ensures
            match r {
                Ok(m) => {
                    &&& cart.info.mapper <= 4
                    &&& m.kind == (if cart.info.mapper == 0 {
                        MapperKind::Nrom
                    } else if cart.info.mapper == 1 {
                        MapperKind::Mmc1
                    } else if cart.info.mapper == 2 {
                        MapperKind::Uxrom
                    } else if cart.info.mapper == 3 {
                        MapperKind::Cnrom
                    } else {
                        MapperKind::Mmc3
                    })
                    &&& m.wf()
                    &&& m.prg_rom@ == cart.prg_rom@
                    &&& m.chr@ == cart.chr@
                    &&& m.battery == cart.info.battback_sram
                    &&& m.chr_is_ram == cart.chr_is_ram
                    &&& m.mirroring == (if cart.info.four_screen_mode {
                        Mirroring::FourScreen
                    } else if cart.info.mirror_v {
                        Mirroring::Vertical
                    } else {
                        Mirroring::Horizontal
                    })
                    &&& m.sram@ == Seq::new(SRAM_SIZE as nat, |i: int| 0u8)
                },
                Err(e) => {
                    &&& cart.info.mapper > 4
                    &&& e == InsertError::UnsupportedMapper(cart.info.mapper)
                },
            },
    {
        let kind = if cart.info.mapper == 0 {
            MapperKind::Nrom
        } else if cart.info.mapper == 1 {
            MapperKind::Mmc1
        } else if cart.info.mapper == 2 {
            MapperKind::Uxrom
        } else if cart.info.mapper == 3 {
            MapperKind::Cnrom
        } else if cart.info.mapper == 4 {
            MapperKind::Mmc3
        } else {
            return Err(InsertError::UnsupportedMapper(cart.info.mapper));
        };
        let mirroring = if cart.info.four_screen_mode {
            Mirroring::FourScreen
        } else if cart.info.mirror_v {
            Mirroring::Vertical
        } else {
            Mirroring::Horizontal
        };
        let mmc3 = cart.info.mapper == 4;
        // MMC3 swaps 8 KiB PRG and 1 KiB CHR banks; the others 16 KiB / 4 KiB
        let prg_banks = if mmc3 {
            2 * cart.info.prg_rom_banks
        } else {
            cart.info.prg_rom_banks
        };
        let prg_bank_size = if mmc3 {
            0x2000
        } else {
            PRG_BANK
        };
        let chr_banks = if cart.info.chr_rom_banks == 0 {
            if mmc3 {
                8
            } else {
                2
            }
        } else {
            if mmc3 {
                8 * cart.info.chr_rom_banks
            } else {
                2 * cart.info.chr_rom_banks
            }
        };
        let chr_bank_size = if mmc3 {
            0x400
        } else {
            CHR_BANK
        };
        proof {
            let p = cart.info.prg_rom_banks as int;
            let c = cart.info.chr_rom_banks as int;
            assert((2 * p) * 0x2000 == p * 0x4000) by (nonlinear_arith);
            assert((2 * c) * 0x1000 == c * 0x2000) by (nonlinear_arith);
            assert((8 * c) * 0x400 == c * 0x2000) by (nonlinear_arith);
        }
        let prg_rom = Memory::new(cart.prg_rom, prg_banks, prg_bank_size);
        let chr = Memory::new(cart.chr, chr_banks, chr_bank_size);
        let mut sram: Vec<u8> = Vec::new();
        let mut i: usize = 0;
        while i < SRAM_SIZE
            invariant
                i <= SRAM_SIZE,
                sram@ == Seq::new(i as nat, |j: int| 0u8),
            decreases SRAM_SIZE - i,
        {
            sram.push(0);
            proof {
                assert(sram@ =~= Seq::new((i + 1) as nat, |j: int| 0u8));
            }
            i = i + 1;
        }
        // MMC1 starts with the last bank fixed at $C000
        let control: u8 = 0x0C;
        let bank_regs: Vec<u8> = vec![0, 0, 0, 0, 0, 0, 0, 0];
        Ok(
            Mapper {
                kind,
                prg_rom,
                chr,
                chr_is_ram: cart.chr_is_ram,
                sram,
                battery: cart.info.battback_sram,
                mirroring,
                prg_bank: 0,
                chr_bank: 0,
                chr_bank1: 0,
                control,
                shift: 0,
                shift_count: 0,
                bank_regs,
                bank_select: 0,
                irq_latch: 0,
                irq_counter: 0,
                irq_reload: false,
                irq_enable: false,
                irq_flag: false,
            },
        )
    }

    /// Read program space ($4020-$FFFF as the CPU bus sees it): work RAM in
    /// $6000-$7FFF, banked PRG ROM from $8000 up, open bus (zero) below.
    pub fn read(&self, addr: u16) -> (r: u8)
        requires
            self.wf(),
        ensures
            0x6000 <= addr < 0x8000 ==> r == self.sram@[addr - 0x6000],
            addr >= 0x8000 ==> r == self.prg_rom@[self.spec_prg_bank_for(addr)
                * spec_prg_bank_size(self.kind) + self.spec_prg_off(addr)],
            addr < 0x6000 ==> r == 0,
    {
        if addr >= 0x8000 {
            let mmc3 = match self.kind {
                MapperKind::Mmc3 => true,
                _ => false,
            };
            let off = if mmc3 {
                (addr & 0x1FFF) as usize
            } else {
                (addr & 0x3FFF) as usize
            };
            proof {
                let a = addr;
                assert(a & 0x3FFF < 0x4000 && a & 0x1FFF < 0x2000) by (bit_vector);
            }
            let bank = self.prg_bank_for(addr);
            proof {
                crate::mapper::lemma_bank_index_in_range(
                    bank as int,
                    self.prg_rom.spec_num_banks() as int,
                    spec_prg_bank_size(self.kind) as int,
                    off as int,
                );
            }
            self.prg_rom.read(bank, off)
        } else if addr >= 0x6000 {
            self.sram[(addr - 0x6000) as usize]
        } else {
            0
        }
    }

    /// The bank `spec_prg_bank_for` names, as an index.
    fn prg_bank_for(&self, addr: u16) -> (r: usize)
        requires
            self.wf(),
            addr >= 0x8000,
        ensures
            r == self.spec_prg_bank_for(addr),
            r < self.prg_rom.spec_num_banks(),
    {
        let n = self.prg_rom.num_banks();
        let low = addr < 0xC000;
        match self.kind {
            MapperKind::Nrom => if low {
                0
            } else {
                n - 1
            },
            MapperKind::Uxrom => if low {
                (self.prg_bank as usize) % n
            } else {
                n - 1
            },
            MapperKind::Cnrom => if low {
                0
            } else {
                n - 1
            },
            MapperKind::Mmc1 => {
                let mode = (self.control >> 2) & 0x03;
                if mode == 2 {
                    if low {
                        0
                    } else {
                        (self.prg_bank as usize) % n
                    }
                } else if mode == 3 {
                    if low {
                        (self.prg_bank as usize) % n
                    } else {
                        n - 1
                    }
                } else {
                    let base = ((self.prg_bank & 0x0E) as usize) % n;
                    if low {
                        base
                    } else {
                        (base + 1) % n
                    }
                }
            },
            MapperKind::Mmc3 => {
                let window = (addr >> 13) & 0x03;
                let swap = self.bank_select & 0x40 != 0;
                let second_last = if n >= 2 {
                    (n - 2) % n
                } else {
                    0
                };
                proof {
                    let nn = n as int;
                    if nn == 1 {
                        assert((nn - 2) % nn == 0);
                    }
                }
                if window == 0 {
                    if swap {
                        second_last
                    } else {
                        (self.bank_regs[6] as usize) % n
                    }
                } else if window == 1 {
                    (self.bank_regs[7] as usize) % n
                } else if window == 2 {
                    if swap {
                        (self.bank_regs[6] as usize) % n
                    } else {
                        second_last
                    }
                } else {
                    n - 1
                }
            },
        }
    }

    /// The bank `spec_chr_bank_for` names, as an index.
    fn chr_bank_for(&self, addr: u16) -> (r: usize)
        requires
            self.wf(),
            addr < 0x2000,
        ensures
            r == self.spec_chr_bank_for(addr),
            r < self.chr.spec_num_banks(),
    {
        let n = self.chr.num_banks();
        let hi: usize = if addr >= 0x1000 {
            1
        } else {
            0
        };
        match self.kind {
            MapperKind::Nrom => hi % n,
            MapperKind::Uxrom => hi % n,
            MapperKind::Cnrom => (2 * (self.chr_bank as usize) + hi) % n,
            MapperKind::Mmc1 => {
                if (self.control >> 4) & 1 == 1 {
                    if hi == 0 {
                        (self.chr_bank as usize) % n
                    } else {
                        (self.chr_bank1 as usize) % n
                    }
                } else {
                    (((self.chr_bank & 0x1E) as usize) + hi) % n
                }
            },
            MapperKind::Mmc3 => {
                let a = if self.bank_select & 0x80 != 0 {
                    addr ^ 0x1000
                } else {
                    addr
                };
                let w = (a >> 10) & 0x07;
                let r = if w == 0 {
                    (self.bank_regs[0] & 0xFE) as usize
                } else if w == 1 {
                    (self.bank_regs[0] | 0x01) as usize
                } else if w == 2 {
                    (self.bank_regs[1] & 0xFE) as usize
                } else if w == 3 {
                    (self.bank_regs[1] | 0x01) as usize
                } else {
                    proof {
                        let aa = a;
                        assert((aa >> 10) & 0x07 < 8) by (bit_vector);
                    }
                    self.bank_regs[(w - 2) as usize] as usize
                };
                r % n
            },
        }
    }

    /// Write program space: $6000-$7FFF lands in work RAM; $8000 and up
    /// drives the board's bank control; anything else is ignored.
    pub fn write(&mut self, addr: u16, data: u8)
        requires
            old(self).wf(),
        ensures
            final(self).wf(),
            final(self).battery == old(self).battery,
            final(self).prg_rom@ == old(self).prg_rom@,
            final(self).chr@ == old(self).chr@,
            final(self).kind == old(self).kind,
            0x6000 <= addr < 0x8000 ==> final(self).sram@ == old(self).sram@.update(
                addr - 0x6000,
                data,
            ),
            addr < 0x6000 ==> *final(self) == *old(self),
            addr >= 0x8000 ==> final(self).sram@ == old(self).sram@,
    {
        if addr >= 0x8000 {
            match self.kind {
                MapperKind::Nrom => {},
                MapperKind::Uxrom => {
                    self.prg_bank = data & 0x0F;
                },
                MapperKind::Cnrom => {
                    self.chr_bank = data & 0x03;
                },
                MapperKind::Mmc1 => {
                    self.write_mmc1(addr, data);
                },
                MapperKind::Mmc3 => {
                    self.write_mmc3(addr, data);
                },
            }
        } else if addr >= 0x6000 {
            let i = (addr - 0x6000) as usize;
            self.sram[i] = data;
        }
    }

    /// An MMC1 serial write: bit 7 resets the shift register and ORs $0C
    /// into control; otherwise bit 0 is shifted in, and the fifth bit
    /// transfers the collected value into the register the address names.
    fn write_mmc1(&mut self, addr: u16, data: u8)
        requires
            old(self).wf(),
            addr >= 0x8000,
        ensures
            final(self).wf(),
            final(self).kind == old(self).kind,
            final(self).sram@ == old(self).sram@,
            final(self).prg_rom@ == old(self).prg_rom@,
            final(self).chr@ == old(self).chr@,
            final(self).battery == old(self).battery,
            data & 0x80 != 0 ==> {
                &&& final(self).shift == 0
                &&& final(self).shift_count == 0
                &&& final(self).control == (old(self).control | 0x0C)
            },
    {
        if crate::bits::mask_is_set(data, 0x80) {
            self.shift = 0;
            self.shift_count = 0;
            self.control = self.control | 0x0C;
            return ;
        }
        let bit = data & 0x01;
        let sh = self.shift;
        proof {
            let b = bit;
            assert((sh >> 1) | ((data & 0x01) << 4) <= 0xFF) by (bit_vector);
        }
        self.shift = (sh >> 1) | (bit << 4);
        self.shift_count = self.shift_count + 1;
        if self.shift_count >= 5 {
            let value = self.shift & 0x1F;
            let reg = (addr >> 13) & 0x03;
            if reg == 0 {
                self.control = value;
                let mir = value & 0x03;
                self.mirroring = if mir == 2 {
                    Mirroring::Vertical
                } else if mir == 3 {
                    Mirroring::Horizontal
                } else {
                    // one-screen arrangements fold onto a single table
                    Mirroring::Horizontal
                };
            } else if reg == 1 {
                self.chr_bank = value;
            } else if reg == 2 {
                self.chr_bank1 = value;
            } else {
                self.prg_bank = value & 0x0F;
            }
            self.shift = 0;
            self.shift_count = 0;
        }
    }

    /// An MMC3 register write: the even/odd address pairs select the bank
    /// port, mirroring, the IRQ latch/reload, and the IRQ enable.
    fn write_mmc3(&mut self, addr: u16, data: u8)
        requires
            old(self).wf(),
            addr >= 0x8000,
        ensures
            final(self).wf(),
            final(self).kind == old(self).kind,
            final(self).sram@ == old(self).sram@,
            final(self).prg_rom@ == old(self).prg_rom@,
            final(self).chr@ == old(self).chr@,
            final(self).battery == old(self).battery,
            addr & 0x6001 == 0x4000 ==> final(self).irq_latch == data,
            addr & 0x6001 == 0x4001 ==> final(self).irq_reload,
            addr & 0x6001 == 0x6000 ==> !final(self).irq_enable && !final(self).irq_flag,
            addr & 0x6001 == 0x6001 ==> final(self).irq_enable,
    {
        let port = addr & 0x6001;
        if port == 0x0000 {
            self.bank_select = data;
        } else if port == 0x0001 {
            let idx = (self.bank_select & 0x07) as usize;
            proof {
                crate::bits::lemma_u8_and_le(self.bank_select, 0x07);
            }
            self.bank_regs[idx] = data;
        } else if port == 0x2000 {
            // four-screen boards ignore the mirroring port
            let four = match self.mirroring {
                Mirroring::FourScreen => true,
                _ => false,
            };
            if !four {
                self.mirroring = if data & 0x01 == 0 {
                    Mirroring::Vertical
                } else {
                    Mirroring::Horizontal
                };
            }
        } else if port == 0x2001 {
            // PRG RAM protect: not observed
        } else if port == 0x4000 {
            self.irq_latch = data;
        } else if port == 0x4001 {
            self.irq_reload = true;
        } else if port == 0x6000 {
            self.irq_enable = false;
            self.irq_flag = false;
        } else {
            self.irq_enable = true;
        }
    }

    /// Read character space ($0000-$1FFF), through the bank selection.
    pub fn read_chr(&self, addr: u16) -> (r: u8)
        requires
            self.wf(),
            addr < 0x2000,
        ensures
            r == self.chr@[self.spec_chr_bank_for(addr) * spec_chr_bank_size(self.kind)
                + self.spec_chr_off(addr)],
    {
        let mmc3 = match self.kind {
            MapperKind::Mmc3 => true,
            _ => false,
        };
        let off = if mmc3 {
            (addr & 0x03FF) as usize
        } else {
            (addr & 0x0FFF) as usize
        };
        proof {
            let a = addr;
            assert(a & 0x0FFF < 0x1000 && a & 0x03FF < 0x400) by (bit_vector);
        }
        let bank = self.chr_bank_for(addr);
        proof {
            crate::mapper::lemma_bank_index_in_range(
                bank as int,
                self.chr.spec_num_banks() as int,
                spec_chr_bank_size(self.kind) as int,
                off as int,
            );
        }
        self.chr.read(bank, off)
    }

    /// Write character space: only CHR RAM takes the byte; CHR ROM ignores
    /// it.
    pub fn write_chr(&mut self, addr: u16, value: u8)
        requires
            old(self).wf(),
            addr < 0x2000,
        ensures
            final(self).wf(),
            old(self).chr_is_ram ==> final(self).chr@ == old(self).chr@.update(
                old(self).spec_chr_bank_for(addr) * spec_chr_bank_size(old(self).kind) + old(
                    self,
                ).spec_chr_off(addr),
                value,
            ),
            !old(self).chr_is_ram ==> *final(self) == *old(self),
            final(self).sram@ == old(self).sram@,
            final(self).prg_rom@ == old(self).prg_rom@,
            final(self).kind == old(self).kind,
            final(self).battery == old(self).battery,
    {
        if !self.chr_is_ram {
            return ;
        }
        let mmc3 = match self.kind {
            MapperKind::Mmc3 => true,
            _ => false,
        };
        let off = if mmc3 {
            (addr & 0x03FF) as usize
        } else {
            (addr & 0x0FFF) as usize
        };
        proof {
            let a = addr;
            assert(a & 0x0FFF < 0x1000 && a & 0x03FF < 0x400) by (bit_vector);
        }
        let bank = self.chr_bank_for(addr);
        proof {
            crate::mapper::lemma_bank_index_in_range(
                bank as int,
                self.chr.spec_num_banks() as int,
                spec_chr_bank_size(self.kind) as int,
                off as int,
            );
        }
        self.chr.write(bank, off, value);
    }

    /// The nametable arrangement the board currently asks for.
    pub fn mirroring(&self) -> (r: Mirroring)
        ensures
            r == self.mirroring,
    {
        self.mirroring
    }

    /// Whether the board is holding its IRQ line up.
    pub fn irq_pending(&self) -> (r: bool)
        ensures
            r == self.irq_flag,
    {
        self.irq_flag
    }

    /// Observe the end of a scanline: the MMC3 IRQ counter reloads from
    /// its latch when asked (or exhausted) and otherwise counts down;
    /// reaching zero with IRQ enabled raises the board's IRQ line. The
    /// other boards do not count scanlines.
    pub fn clock_scanline(&mut self)
        requires
            old(self).wf(),
        ensures
            final(self).wf(),
            old(self).kind != MapperKind::Mmc3 ==> *final(self) == *old(self),
            old(self).kind == MapperKind::Mmc3 ==> {
                &&& final(self).irq_counter == (if old(self).irq_reload || old(self).irq_counter
                    == 0 {
                    old(self).irq_latch
                } else {
                    (old(self).irq_counter - 1) as u8
                })
                &&& !final(self).irq_reload
                &&& final(self).irq_flag == (old(self).irq_flag || (final(self).irq_counter == 0
                    && old(self).irq_enable))
                &&& final(self).irq_enable == old(self).irq_enable
                &&& final(self).sram@ == old(self).sram@
                &&& final(self).prg_rom@ == old(self).prg_rom@
                &&& final(self).chr@ == old(self).chr@
                &&& final(self).kind == old(self).kind
                &&& final(self).bank_regs@ == old(self).bank_regs@
                &&& final(self).bank_select == old(self).bank_select
                &&& final(self).mirroring == old(self).mirroring
            },
    {
        let mmc3 = match self.kind {
            MapperKind::Mmc3 => true,
            _ => false,
        };
        if mmc3 {
            if self.irq_reload || self.irq_counter == 0 {
                self.irq_counter = self.irq_latch;
                self.irq_reload = false;
            } else {
                self.irq_counter = self.irq_counter - 1;
            }
            if self.irq_counter == 0 && self.irq_enable {
                self.irq_flag = true;
            }
        }
    }

    /// The battery-backed work RAM: its exact bytes when the cartridge has
    /// a battery, and nothing otherwise.
    pub fn get_battery_ram(&self) -> (r: Vec<u8>)
        requires
            self.wf(),
        ensures
            self.battery ==> r@ == self.sram@,
            !self.battery ==> r@ == Seq::<u8>::empty(),
    {
        if self.battery {
            let mut out: Vec<u8> = Vec::new();
            let mut i: usize = 0;
            while i < SRAM_SIZE
                invariant
                    i <= SRAM_SIZE,
                    self.sram@.len() == SRAM_SIZE,
                    out@ == self.sram@.subrange(0, i as int),
                decreases SRAM_SIZE - i,
            {
                out.push(self.sram[i]);
                proof {
                    assert(out@ =~= self.sram@.subrange(0, (i + 1) as int));
                }
                i = i + 1;
            }
            proof {
                assert(out@ =~= self.sram@);
            }
            out
        } else {
            Vec::new()
        }
    }
}

/// A bank picked below the bank count stays inside the block.
pub proof fn lemma_bank_index_in_range(bank: int, n: int, bank_size: int, off: int)
    requires
        0 <= bank < n,
        0 <= off < bank_size,
    ensures
        bank * bank_size + off < n * bank_size,
        bank * bank_size + off >= 0,
{
    assert(bank * bank_size + off < n * bank_size) by (nonlinear_arith)
        requires
            0 <= bank < n,
            0 <= off < bank_size,
    ;
    assert(bank * bank_size >= 0) by (nonlinear_arith)
        requires
            bank >= 0,
            bank_size > 0,
    ;
}

} // verus!
