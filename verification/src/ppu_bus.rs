//! The PPU's 14-bit address space: pattern tables in cartridge CHR memory,
//! nametable RAM with mirroring, and palette RAM.

use crate::mapper::Mapper;
use vstd::prelude::*;

verus! {

/// Bytes of internal nametable RAM.
pub const INTERNAL_RAM: usize = 0x1000;

/// Where a nametable address actually lands under the given mirroring:
/// under vertical mirroring $2000-$27FF fold onto $2800-$2FFF; under
/// horizontal mirroring the left tables fold onto the right ones.
pub open spec fn spec_calc_nametable_addr(addr: u16, vertically_mirrored: bool) -> u16 {
    if vertically_mirrored {
        if 0x2000 <= addr <= 0x27FF {
            (addr + 0x800) as u16
        } else {
            addr
        }
    } else {
        if (0x2000 <= addr <= 0x23FF) || (0x2800 <= addr <= 0x2BFF) {
            (addr + 0x400) as u16
        } else {
            addr
        }
    }
}

/// Resolve a nametable address through the mirroring arrangement.
pub fn calc_nametable_addr(addr: u16, vertically_mirrored: bool) -> (r: u16)
    requires
        addr < 0x4000,
    ensures
        r == spec_calc_nametable_addr(addr, vertically_mirrored),
        0x2000 <= addr < 0x3000 ==> 0x2000 <= r < 0x3000,
{
    if vertically_mirrored {
        if 0x2000 <= addr && addr <= 0x27FF {
            addr + 0x800
        } else {
            addr
        }
    } else {
        if (0x2000 <= addr && addr <= 0x23FF) || (0x2800 <= addr && addr <= 0x2BFF) {
            addr + 0x400
        } else {
            addr
        }
    }
}

/// The PPU-side bus: nametable RAM, palette RAM, and the route into the
/// cartridge's character memory.
pub struct PpuIoBus {
    pub nametable_ram: Vec<u8>,
    pub palette_ram: Vec<u8>,
    pub vertical_mirroring: bool,
}

impl PpuIoBus {
    pub open spec fn wf(&self) -> bool {
        &&& self.nametable_ram@.len() == INTERNAL_RAM
        &&& self.palette_ram@.len() == 256
    }

    pub fn new() -> (r: PpuIoBus)
        ensures
            r.wf(),
            !r.vertical_mirroring,
            r.nametable_ram@ == Seq::new(INTERNAL_RAM as nat, |i: int| 0u8),
            r.palette_ram@ == Seq::new(256nat, |i: int| 0u8),
    {
        let mut nametable_ram: Vec<u8> = Vec::new();
        let mut i: usize = 0;
        while i < INTERNAL_RAM
            invariant
                i <= INTERNAL_RAM,
                nametable_ram@ == Seq::new(i as nat, |j: int| 0u8),
            decreases INTERNAL_RAM - i,
        {
            nametable_ram.push(0);
            proof {
                assert(nametable_ram@ =~= Seq::new((i + 1) as nat, |j: int| 0u8));
            }
            i = i + 1;
        }
        let mut palette_ram: Vec<u8> = Vec::new();
        let mut j: usize = 0;
        while j < 256
            invariant
                j <= 256,
                palette_ram@ == Seq::new(j as nat, |k: int| 0u8),
            decreases 256 - j,
        {
            palette_ram.push(0);
            proof {
                assert(palette_ram@ =~= Seq::new((j + 1) as nat, |k: int| 0u8));
            }
            j = j + 1;
        }
        PpuIoBus { nametable_ram, palette_ram, vertical_mirroring: false }
    }

    /// Tell the bus how the inserted cartridge mirrors its nametables.
    pub fn set_vertical_mirroring(&mut self, vertical: bool)
        ensures
            final(self).vertical_mirroring == vertical,
            final(self).nametable_ram@ == old(self).nametable_ram@,
            final(self).palette_ram@ == old(self).palette_ram@,
    {
        self.vertical_mirroring = vertical;
    }

    /// Read the PPU address space: CHR below $2000, mirrored nametable RAM
    /// up to $3EFF, palette RAM at $3F00-$3FFF.
    pub fn read_byte(&self, mapper: &Mapper, addr: u16) -> (r: u8)
        requires
            self.wf(),
            mapper.wf(),
            addr < 0x4000,
        ensures
            addr < 0x2000 ==> r == mapper.chr@[mapper.spec_chr_bank_for(addr)
                * crate::mapper::spec_chr_bank_size(mapper.kind) + mapper.spec_chr_off(addr)],
            0x2000 <= addr < 0x3000 ==> r == self.nametable_ram@[spec_calc_nametable_addr(
                addr,
                self.vertical_mirroring,
            ) - 0x2000],
            0x3000 <= addr < 0x3F00 ==> r == self.nametable_ram@[spec_calc_nametable_addr(
                (addr - 0x1000) as u16,
                self.vertical_mirroring,
            ) - 0x2000],
            0x3F00 <= addr ==> r == self.palette_ram@[addr - 0x3F00],
    {
        if addr < 0x2000 {
            mapper.read_chr(addr)
        } else if addr < 0x3000 {
            let m = calc_nametable_addr(addr, self.vertical_mirroring);
            self.nametable_ram[(m - 0x2000) as usize]
        } else if addr < 0x3F00 {
            let m = calc_nametable_addr(addr - 0x1000, self.vertical_mirroring);
            self.nametable_ram[(m - 0x2000) as usize]
        } else {
            self.palette_ram[(addr - 0x3F00) as usize]
        }
    }

    /// Write the PPU address space, with the same routing as `read_byte`.
    pub fn write_byte(&mut self, mapper: &mut Mapper, addr: u16, value: u8)
        requires
            old(self).wf(),
            old(mapper).wf(),
            addr < 0x4000,
        ensures
            final(self).wf(),
            final(mapper).wf(),
            final(self).vertical_mirroring == old(self).vertical_mirroring,
            addr < 0x2000 ==> {
                &&& final(self).nametable_ram@ == old(self).nametable_ram@
                &&& final(self).palette_ram@ == old(self).palette_ram@
                &&& (old(mapper).chr_is_ram ==> final(mapper).chr@ == old(mapper).chr@.update(
                    old(mapper).spec_chr_bank_for(addr) * crate::mapper::spec_chr_bank_size(
                        old(mapper).kind,
                    ) + old(mapper).spec_chr_off(addr),
                    value,
                ))
                &&& (!old(mapper).chr_is_ram ==> *final(mapper) == *old(mapper))
            },
            0x2000 <= addr < 0x3000 ==> {
                &&& *final(mapper) == *old(mapper)
                &&& final(self).palette_ram@ == old(self).palette_ram@
                &&& final(self).nametable_ram@ == old(self).nametable_ram@.update(
                    spec_calc_nametable_addr(addr, old(self).vertical_mirroring) - 0x2000,
                    value,
                )
            },
            0x3000 <= addr < 0x3F00 ==> {
                &&& *final(mapper) == *old(mapper)
                &&& final(self).palette_ram@ == old(self).palette_ram@
                &&& final(self).nametable_ram@ == old(self).nametable_ram@.update(
                    spec_calc_nametable_addr(
                        (addr - 0x1000) as u16,
                        old(self).vertical_mirroring,
                    ) - 0x2000,
                    value,
                )
            },
            0x3F00 <= addr ==> {
                &&& *final(mapper) == *old(mapper)
                &&& final(self).nametable_ram@ == old(self).nametable_ram@
                &&& final(self).palette_ram@ == old(self).palette_ram@.update(
                    addr - 0x3F00,
                    value,
                )
            },
    {
        if addr < 0x2000 {
            mapper.write_chr(addr, value);
        } else if addr < 0x3000 {
            let m = calc_nametable_addr(addr, self.vertical_mirroring);
            let i = (m - 0x2000) as usize;
            self.nametable_ram[i] = value;
        } else if addr < 0x3F00 {
            let m = calc_nametable_addr(addr - 0x1000, self.vertical_mirroring);
            let i = (m - 0x2000) as usize;
            self.nametable_ram[i] = value;
        } else {
            let i = (addr - 0x3F00) as usize;
            self.palette_ram[i] = value;
        }
    }
}

} // verus!
