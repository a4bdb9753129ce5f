//! The 6502 CPU core: registers, the system bus decode, and an
//! instruction-at-a-time interpreter clocked one machine cycle per tick.
//!
//! The CPU owns the 2 KiB of internal RAM. Reads and writes go through the
//! bus functions here, which route to RAM, the PPU registers, the APU, the
//! controllers and the cartridge mapper.

use crate::apu::Apu;
use crate::joy::{Controller, Joy};
use crate::mapper::Mapper;
use crate::ppu::Ppu;
use vstd::prelude::*;

verus! {

/// Carry flag.
pub const FLAG_C: u8 = 0x01;

/// Zero flag.
pub const FLAG_Z: u8 = 0x02;

/// Interrupt disable.
pub const FLAG_I: u8 = 0x04;

/// Decimal mode (stored, never applied).
pub const FLAG_D: u8 = 0x08;

/// Break mark, only ever pushed.
pub const FLAG_B: u8 = 0x10;

/// Unused bit, reads as 1.
pub const FLAG_U: u8 = 0x20;

/// Overflow flag.
pub const FLAG_V: u8 = 0x40;

/// Negative flag.
pub const FLAG_N: u8 = 0x80;

/// The reset vector.
pub const RESET_VECTOR: u16 = 0xFFFC;

/// Start of the cartridge's program space on the CPU bus.
pub const CARTRIDGE_SPACE_START: u16 = 0x4020;

/// The 6502 with its internal RAM and interrupt lines.
pub struct Cpu {
    pub pc: u16,
    pub sp: u8,
    pub a: u8,
    pub x: u8,
    pub y: u8,
    pub p: u8,
    /// 2 KiB internal RAM, mirrored through $0000-$1FFF.
    pub ram: Vec<u8>,
    /// Machine cycles left in the instruction being executed.
    pub cycles_remaining: u32,
    /// Machine cycles left of an OAM DMA stall.
    pub dma_stall: u32,
    /// Edge-latched NMI request.
    pub nmi_pending: bool,
    /// Level-sampled IRQ line.
    pub irq_line: bool,
    /// The last instruction was a jump or branch to itself.
    pub holding: bool,
    pub debug: bool,
    /// Entry override used instead of the reset vector.
    pub entry: u16,
    pub entry_set: bool,
    /// Reset is performed on the first tick.
    pub reset_pending: bool,
    /// Cycle parity, for the OAM DMA stall length.
    pub parity: bool,
    /// Machine cycles ever ticked, for stating clock laws.
    pub ticks: Ghost<int>,
}

impl Cpu {
    pub open spec fn wf(&self) -> bool {
        self.ram@.len() == 0x800
    }

    pub fn new() -> (r: Cpu)
        ensures
            r.wf(),
            r.ticks@ == 0,
            r.reset_pending,
            !r.entry_set,
            r.ram@ == Seq::new(0x800nat, |i: int| 0u8),
    {
        let mut ram: Vec<u8> = Vec::new();
        let mut i: usize = 0;
        while i < 0x800
            invariant
                i <= 0x800,
                ram@ == Seq::new(i as nat, |j: int| 0u8),
            decreases 0x800 - i,
        {
            ram.push(0);
            proof {
                assert(ram@ =~= Seq::new((i + 1) as nat, |j: int| 0u8));
            }
            i = i + 1;
        }
        Cpu {
            pc: 0,
            sp: 0xFD,
            a: 0,
            x: 0,
            y: 0,
            p: 0x24,
            ram,
            cycles_remaining: 0,
            dma_stall: 0,
            nmi_pending: false,
            irq_line: false,
            holding: false,
            debug: false,
            entry: 0,
            entry_set: false,
            reset_pending: true,
            parity: false,
            ticks: Ghost(0),
        }
    }

    /// Override the reset vector with a fixed entry point.
    pub fn set_pc(&mut self, addr: u16)
        ensures
            *final(self) == (Cpu {
                pc: addr,
                entry: addr,
                entry_set: true,
                ..*old(self)
            }),
    {
        self.pc = addr;
        self.entry = addr;
        self.entry_set = true;
    }

    pub fn get_pc(&self) -> (r: u16)
        ensures
            r == self.pc,
    {
        self.pc
    }

    pub fn set_debug(&mut self, debug: bool)
        ensures
            *final(self) == (Cpu { debug, ..*old(self) }),
    {
        self.debug = debug;
    }

    /// Read a byte of the internal RAM (mirrored every $0800).
    pub fn read_ram(&self, addr: u16) -> (r: u8)
        requires
            self.wf(),
        ensures
            r == self.ram@[(addr & 0x07FF) as int],
    {
        proof {
            crate::bits::lemma_u16_and_le(addr, 0x07FF);
        }
        self.ram[(addr & 0x07FF) as usize]
    }

    /// Whether the CPU sits in a jump-to-self loop.
    pub fn is_holding(&self) -> (r: bool)
        ensures
            r == self.holding,
    {
        self.holding
    }

    /// Latch an NMI edge.
    pub fn raise_nmi(&mut self)
        ensures
            *final(self) == (Cpu { nmi_pending: true, ..*old(self) }),
    {
        self.nmi_pending = true;
    }

    /// Drive the IRQ level.
    pub fn set_irq_line(&mut self, level: bool)
        ensures
            *final(self) == (Cpu { irq_line: level, ..*old(self) }),
    {
        self.irq_line = level;
    }

    /// Set or clear one flag bit of P.
    fn set_flag(&mut self, mask: u8, on: bool)
        ensures
            final(self).p == (if on {
                old(self).p | mask
            } else {
                old(self).p & !mask
            }),
            *final(self) == (Cpu { p: final(self).p, ..*old(self) }),
    {
        if on {
            self.p = self.p | mask;
        } else {
            self.p = self.p & !mask;
        }
    }

    /// Whether one flag bit of P is set.
    fn get_flag(&self, mask: u8) -> (r: bool)
        ensures
            r == (self.p & mask != 0),
    {
        self.p & mask != 0
    }

    /// Set N and Z from a result byte.
    fn update_nz(&mut self, val: u8)
        ensures
            final(self).p == ((old(self).p & 0x7D) | (if val == 0 {
                0x02u8
            } else {
                0
            }) | (val & 0x80)),
            *final(self) == (Cpu { p: final(self).p, ..*old(self) }),
    {
        self.p = (self.p & 0x7D) | (if val == 0 {
            0x02u8
        } else {
            0
        }) | (val & 0x80);
    }
}

/// Read the CPU bus: RAM below $2000 (mirrored), PPU registers to $3FFF
/// (mirrored every 8), APU status, the controller ports, and the cartridge
/// space from $4020 up. Unmapped addresses read as open bus zero.
pub fn bus_read(
    cpu: &mut Cpu,
    ppu: &mut Ppu,
    apu: &mut Apu,
    joy: &mut Joy,
    mapper: &mut Mapper,
    addr: u16,
) -> (r: u8)
    requires
        old(cpu).wf(),
        old(ppu).wf(),
        old(apu).wf(),
        old(mapper).wf(),
    ensures
        final(cpu).wf(),
        final(ppu).wf(),
        final(apu).wf(),
        final(mapper).wf(),
        *final(cpu) == *old(cpu),
        *final(mapper) == *old(mapper),
        final(ppu).dots == old(ppu).dots,
        final(apu).ticks == old(apu).ticks,
        final(joy).strobe == old(joy).strobe,
        final(joy).state1 == old(joy).state1,
        final(joy).state2 == old(joy).state2,
        addr < 0x2000 ==> {
            &&& r == old(cpu).ram@[(addr & 0x07FF) as int]
            &&& *final(ppu) == *old(ppu)
            &&& *final(apu) == *old(apu)
            &&& *final(joy) == *old(joy)
        },
        0x2000 <= addr < 0x4000 && addr % 8 == 2 ==> r == old(ppu).status && final(ppu).w
            == false,
        !(0x2000 <= addr < 0x4000) ==> *final(ppu) == *old(ppu),
        addr != 0x4015 ==> *final(apu) == *old(apu),
        !(addr == 0x4016 || addr == 0x4017) ==> *final(joy) == *old(joy),
        0x6000 <= addr < 0x8000 ==> r == old(mapper).sram@[addr - 0x6000],
        addr >= 0x8000 ==> r == old(mapper).prg_rom@[old(mapper).spec_prg_bank_for(addr)
            * crate::mapper::spec_prg_bank_size(old(mapper).kind) + old(mapper).spec_prg_off(
            addr,
        )],
        0x4000 <= addr < 0x6000 && addr != 0x4015 && addr != 0x4016 && addr != 0x4017 ==> r
            == 0,
        addr == 0x4015 ==> !final(apu).frame_irq,
        addr == 0x4016 ==> r == (if old(joy).strobe {
            old(joy).state1 & 0x01
        } else {
            old(joy).shift1 & 0x01
        }),
        addr == 0x4017 ==> r == (if old(joy).strobe {
            old(joy).state2 & 0x01
        } else {
            old(joy).shift2 & 0x01
        }),
{
    if addr < 0x2000 {
        cpu.read_ram(addr)
    } else if addr < 0x4000 {
        proof {
            crate::bits::lemma_u16_and_le(addr, 0x0007);
            assert(addr & 0x0007 == addr % 8) by (bit_vector);
        }
        ppu.read_register(mapper, addr & 0x0007)
    } else if addr == 0x4015 {
        apu.read_status()
    } else if addr == 0x4016 {
        joy.read(Controller::Input1)
    } else if addr == 0x4017 {
        joy.read(Controller::Input2)
    } else if addr >= CARTRIDGE_SPACE_START {
        mapper.read(addr)
    } else {
        0
    }
}

/// Write the CPU bus, with the routing of `bus_read`, plus the OAM DMA
/// port at $4014 and the controller strobe at $4016.
pub fn bus_write(
    cpu: &mut Cpu,
    ppu: &mut Ppu,
    apu: &mut Apu,
    joy: &mut Joy,
    mapper: &mut Mapper,
    addr: u16,
    data: u8,
)
    requires
        old(cpu).wf(),
        old(ppu).wf(),
        old(apu).wf(),
        old(mapper).wf(),
    ensures
        final(cpu).wf(),
        final(ppu).wf(),
        final(apu).wf(),
        final(mapper).wf(),
        final(cpu).pc == old(cpu).pc,
        final(cpu).sp == old(cpu).sp,
        final(cpu).a == old(cpu).a,
        final(cpu).x == old(cpu).x,
        final(cpu).y == old(cpu).y,
        final(cpu).p == old(cpu).p,
        final(cpu).ticks == old(cpu).ticks,
        final(cpu).cycles_remaining == old(cpu).cycles_remaining,
        final(ppu).dots == old(ppu).dots,
        final(apu).ticks == old(apu).ticks,
        addr < 0x2000 ==> {
            &&& final(cpu).ram@ == old(cpu).ram@.update((addr & 0x07FF) as int, data)
            &&& *final(ppu) == *old(ppu)
            &&& *final(apu) == *old(apu)
            &&& *final(joy) == *old(joy)
            &&& *final(mapper) == *old(mapper)
        },
        0x6000 <= addr < 0x8000 ==> {
            &&& final(mapper).sram@ == old(mapper).sram@.update(addr - 0x6000, data)
            &&& final(cpu).ram@ == old(cpu).ram@
        },
        addr == 0x4016 ==> final(joy).strobe == (data & 0x01 != 0),
        addr == 0x4014 ==> final(cpu).dma_stall == (if old(cpu).parity {
            514u32
        } else {
            513u32
        }),
        0x2000 <= addr < 0x4000 && (addr % 8 == 5 || addr % 8 == 6) ==> final(ppu).w == !old(
            ppu,
        ).w,
{
    if addr < 0x2000 {
        proof {
            crate::bits::lemma_u16_and_le(addr, 0x07FF);
        }
        let i = (addr & 0x07FF) as usize;
        cpu.ram[i] = data;
    } else if addr < 0x4000 {
        proof {
            crate::bits::lemma_u16_and_le(addr, 0x0007);
            assert(addr & 0x0007 == addr % 8) by (bit_vector);
        }
        ppu.write_register(mapper, addr & 0x0007, data);
    } else if addr == 0x4014 {
        // OAM DMA: copy a 256-byte page into OAM; the CPU stalls 513 or
        // 514 cycles depending on cycle parity while the PPU runs on
        let page = (data as u16) << 8;
        let mut i: u16 = 0;
        while i < 256
            invariant
                cpu.wf(),
                ppu.wf(),
                apu.wf(),
                mapper.wf(),
                i <= 256,
                cpu.pc == old(cpu).pc,
                cpu.sp == old(cpu).sp,
                cpu.a == old(cpu).a,
                cpu.x == old(cpu).x,
                cpu.y == old(cpu).y,
                cpu.p == old(cpu).p,
                cpu.ticks == old(cpu).ticks,
                cpu.cycles_remaining == old(cpu).cycles_remaining,
                cpu.ram@ == old(cpu).ram@,
                cpu.parity == old(cpu).parity,
                ppu.dots == old(ppu).dots,
                apu.ticks == old(apu).ticks,
                mapper.sram@ == old(mapper).sram@,
                joy.strobe == old(joy).strobe,
            decreases 256 - i,
        {
            let b = bus_read(cpu, ppu, apu, joy, mapper, page | (i & 0x00FF));
            ppu.write_register(mapper, 4, b);
            i = i + 1;
        }
        cpu.dma_stall = if cpu.parity {
            514
        } else {
            513
        };
    } else if addr == 0x4016 {
        joy.write_strobe(data);
    } else if addr <= 0x4017 && addr >= 0x4000 {
        apu.write_byte(addr, data);
    } else if addr >= CARTRIDGE_SPACE_START {
        mapper.write(addr, data);
    }
}

/// Read a little-endian word off the bus.
pub fn bus_read16(
    cpu: &mut Cpu,
    ppu: &mut Ppu,
    apu: &mut Apu,
    joy: &mut Joy,
    mapper: &mut Mapper,
    addr: u16,
) -> (r: u16)
    requires
        old(cpu).wf(),
        old(ppu).wf(),
        old(apu).wf(),
        old(mapper).wf(),
    ensures
        final(cpu).wf(),
        final(ppu).wf(),
        final(apu).wf(),
        final(mapper).wf(),
        *final(cpu) == *old(cpu),
        *final(mapper) == *old(mapper),
        final(ppu).dots == old(ppu).dots,
        final(apu).ticks == old(apu).ticks,
{
    let lo = bus_read(cpu, ppu, apu, joy, mapper, addr);
    let hi = bus_read(cpu, ppu, apu, joy, mapper, addr.wrapping_add(1));
    (lo as u16) | ((hi as u16) << 8)
}

/// Every instruction and its addressing mode.
#[derive(Debug, PartialEq, Eq, Structural, Clone, Copy)]
pub enum Instr {
    Adc, And, Asl, Bcc, Bcs, Beq, Bit, Bmi, Bne, Bpl, Brk, Bvc, Bvs, Clc,
    Cld, Cli, Clv, Cmp, Cpx, Cpy, Dec, Dex, Dey, Eor, Inc, Inx, Iny, Jmp,
    Jsr, Lda, Ldx, Ldy, Lsr, Nop, Ora, Pha, Php, Pla, Plp, Rol, Ror, Rti,
    Rts, Sbc, Sec, Sed, Sei, Sta, Stx, Sty, Tax, Tay, Tsx, Txa, Txs, Tya,
    Lax, Sax, Dcp, Isb, Slo, Rla, Sre, Rra,
}

/// The thirteen addressing modes.
#[derive(Debug, PartialEq, Eq, Structural, Clone, Copy)]
pub enum AddrMode {
    Imp, Acc, Imm, Zp, Zpx, Zpy, Abs, Abx, Aby, Ind, Izx, Izy, Rel,
}

/// Decode an opcode byte to its instruction, mode and base cycle count.
pub fn decode(op: u8) -> (r: (Instr, AddrMode, u8))
    ensures
        1 <= r.2 <= 8,
{
    match op {
        0x00 => (Instr::Brk, AddrMode::Imp, 7),
        0x01 => (Instr::Ora, AddrMode::Izx, 6),
        0x02 => (Instr::Nop, AddrMode::Imp, 2),
        0x03 => (Instr::Slo, AddrMode::Izx, 8),
        0x04 => (Instr::Nop, AddrMode::Zp, 3),
        0x05 => (Instr::Ora, AddrMode::Zp, 3),
        0x06 => (Instr::Asl, AddrMode::Zp, 5),
        0x07 => (Instr::Slo, AddrMode::Zp, 5),
        0x08 => (Instr::Php, AddrMode::Imp, 3),
        0x09 => (Instr::Ora, AddrMode::Imm, 2),
        0x0A => (Instr::Asl, AddrMode::Acc, 2),
        0x0B => (Instr::Nop, AddrMode::Imm, 2),
        0x0C => (Instr::Nop, AddrMode::Abs, 4),
        0x0D => (Instr::Ora, AddrMode::Abs, 4),
        0x0E => (Instr::Asl, AddrMode::Abs, 6),
        0x0F => (Instr::Slo, AddrMode::Abs, 6),
        0x10 => (Instr::Bpl, AddrMode::Rel, 2),
        0x11 => (Instr::Ora, AddrMode::Izy, 5),
        0x12 => (Instr::Nop, AddrMode::Imp, 2),
        0x13 => (Instr::Slo, AddrMode::Izy, 8),
        0x14 => (Instr::Nop, AddrMode::Zpx, 4),
        0x15 => (Instr::Ora, AddrMode::Zpx, 4),
        0x16 => (Instr::Asl, AddrMode::Zpx, 6),
        0x17 => (Instr::Slo, AddrMode::Zpx, 6),
        0x18 => (Instr::Clc, AddrMode::Imp, 2),
        0x19 => (Instr::Ora, AddrMode::Aby, 4),
        0x1A => (Instr::Nop, AddrMode::Imp, 2),
        0x1B => (Instr::Slo, AddrMode::Aby, 7),
        0x1C => (Instr::Nop, AddrMode::Abx, 4),
        0x1D => (Instr::Ora, AddrMode::Abx, 4),
        0x1E => (Instr::Asl, AddrMode::Abx, 7),
        0x1F => (Instr::Slo, AddrMode::Abx, 7),
        0x20 => (Instr::Jsr, AddrMode::Abs, 6),
        0x21 => (Instr::And, AddrMode::Izx, 6),
        0x22 => (Instr::Nop, AddrMode::Imp, 2),
        0x23 => (Instr::Rla, AddrMode::Izx, 8),
        0x24 => (Instr::Bit, AddrMode::Zp, 3),
        0x25 => (Instr::And, AddrMode::Zp, 3),
        0x26 => (Instr::Rol, AddrMode::Zp, 5),
        0x27 => (Instr::Rla, AddrMode::Zp, 5),
        0x28 => (Instr::Plp, AddrMode::Imp, 4),
        0x29 => (Instr::And, AddrMode::Imm, 2),
        0x2A => (Instr::Rol, AddrMode::Acc, 2),
        0x2B => (Instr::Nop, AddrMode::Imm, 2),
        0x2C => (Instr::Bit, AddrMode::Abs, 4),
        0x2D => (Instr::And, AddrMode::Abs, 4),
        0x2E => (Instr::Rol, AddrMode::Abs, 6),
        0x2F => (Instr::Rla, AddrMode::Abs, 6),
        0x30 => (Instr::Bmi, AddrMode::Rel, 2),
        0x31 => (Instr::And, AddrMode::Izy, 5),
        0x32 => (Instr::Nop, AddrMode::Imp, 2),
        0x33 => (Instr::Rla, AddrMode::Izy, 8),
        0x34 => (Instr::Nop, AddrMode::Zpx, 4),
        0x35 => (Instr::And, AddrMode::Zpx, 4),
        0x36 => (Instr::Rol, AddrMode::Zpx, 6),
        0x37 => (Instr::Rla, AddrMode::Zpx, 6),
        0x38 => (Instr::Sec, AddrMode::Imp, 2),
        0x39 => (Instr::And, AddrMode::Aby, 4),
        0x3A => (Instr::Nop, AddrMode::Imp, 2),
        0x3B => (Instr::Rla, AddrMode::Aby, 7),
        0x3C => (Instr::Nop, AddrMode::Abx, 4),
        0x3D => (Instr::And, AddrMode::Abx, 4),
        0x3E => (Instr::Rol, AddrMode::Abx, 7),
        0x3F => (Instr::Rla, AddrMode::Abx, 7),
        0x40 => (Instr::Rti, AddrMode::Imp, 6),
        0x41 => (Instr::Eor, AddrMode::Izx, 6),
        0x42 => (Instr::Nop, AddrMode::Imp, 2),
        0x43 => (Instr::Sre, AddrMode::Izx, 8),
        0x44 => (Instr::Nop, AddrMode::Zp, 3),
        0x45 => (Instr::Eor, AddrMode::Zp, 3),
        0x46 => (Instr::Lsr, AddrMode::Zp, 5),
        0x47 => (Instr::Sre, AddrMode::Zp, 5),
        0x48 => (Instr::Pha, AddrMode::Imp, 3),
        0x49 => (Instr::Eor, AddrMode::Imm, 2),
        0x4A => (Instr::Lsr, AddrMode::Acc, 2),
        0x4B => (Instr::Nop, AddrMode::Imm, 2),
        0x4C => (Instr::Jmp, AddrMode::Abs, 3),
        0x4D => (Instr::Eor, AddrMode::Abs, 4),
        0x4E => (Instr::Lsr, AddrMode::Abs, 6),
        0x4F => (Instr::Sre, AddrMode::Abs, 6),
        0x50 => (Instr::Bvc, AddrMode::Rel, 2),
        0x51 => (Instr::Eor, AddrMode::Izy, 5),
        0x52 => (Instr::Nop, AddrMode::Imp, 2),
        0x53 => (Instr::Sre, AddrMode::Izy, 8),
        0x54 => (Instr::Nop, AddrMode::Zpx, 4),
        0x55 => (Instr::Eor, AddrMode::Zpx, 4),
        0x56 => (Instr::Lsr, AddrMode::Zpx, 6),
        0x57 => (Instr::Sre, AddrMode::Zpx, 6),
        0x58 => (Instr::Cli, AddrMode::Imp, 2),
        0x59 => (Instr::Eor, AddrMode::Aby, 4),
        0x5A => (Instr::Nop, AddrMode::Imp, 2),
        0x5B => (Instr::Sre, AddrMode::Aby, 7),
        0x5C => (Instr::Nop, AddrMode::Abx, 4),
        0x5D => (Instr::Eor, AddrMode::Abx, 4),
        0x5E => (Instr::Lsr, AddrMode::Abx, 7),
        0x5F => (Instr::Sre, AddrMode::Abx, 7),
        0x60 => (Instr::Rts, AddrMode::Imp, 6),
        0x61 => (Instr::Adc, AddrMode::Izx, 6),
        0x62 => (Instr::Nop, AddrMode::Imp, 2),
        0x63 => (Instr::Rra, AddrMode::Izx, 8),
        0x64 => (Instr::Nop, AddrMode::Zp, 3),
        0x65 => (Instr::Adc, AddrMode::Zp, 3),
        0x66 => (Instr::Ror, AddrMode::Zp, 5),
        0x67 => (Instr::Rra, AddrMode::Zp, 5),
        0x68 => (Instr::Pla, AddrMode::Imp, 4),
        0x69 => (Instr::Adc, AddrMode::Imm, 2),
        0x6A => (Instr::Ror, AddrMode::Acc, 2),
        0x6B => (Instr::Nop, AddrMode::Imm, 2),
        0x6C => (Instr::Jmp, AddrMode::Ind, 5),
        0x6D => (Instr::Adc, AddrMode::Abs, 4),
        0x6E => (Instr::Ror, AddrMode::Abs, 6),
        0x6F => (Instr::Rra, AddrMode::Abs, 6),
        0x70 => (Instr::Bvs, AddrMode::Rel, 2),
        0x71 => (Instr::Adc, AddrMode::Izy, 5),
        0x72 => (Instr::Nop, AddrMode::Imp, 2),
        0x73 => (Instr::Rra, AddrMode::Izy, 8),
        0x74 => (Instr::Nop, AddrMode::Zpx, 4),
        0x75 => (Instr::Adc, AddrMode::Zpx, 4),
        0x76 => (Instr::Ror, AddrMode::Zpx, 6),
        0x77 => (Instr::Rra, AddrMode::Zpx, 6),
        0x78 => (Instr::Sei, AddrMode::Imp, 2),
        0x79 => (Instr::Adc, AddrMode::Aby, 4),
        0x7A => (Instr::Nop, AddrMode::Imp, 2),
        0x7B => (Instr::Rra, AddrMode::Aby, 7),
        0x7C => (Instr::Nop, AddrMode::Abx, 4),
        0x7D => (Instr::Adc, AddrMode::Abx, 4),
        0x7E => (Instr::Ror, AddrMode::Abx, 7),
        0x7F => (Instr::Rra, AddrMode::Abx, 7),
        0x80 => (Instr::Nop, AddrMode::Imm, 2),
        0x81 => (Instr::Sta, AddrMode::Izx, 6),
        0x82 => (Instr::Nop, AddrMode::Imm, 2),
        0x83 => (Instr::Sax, AddrMode::Izx, 6),
        0x84 => (Instr::Sty, AddrMode::Zp, 3),
        0x85 => (Instr::Sta, AddrMode::Zp, 3),
        0x86 => (Instr::Stx, AddrMode::Zp, 3),
        0x87 => (Instr::Sax, AddrMode::Zp, 3),
        0x88 => (Instr::Dey, AddrMode::Imp, 2),
        0x89 => (Instr::Nop, AddrMode::Imm, 2),
        0x8A => (Instr::Txa, AddrMode::Imp, 2),
        0x8B => (Instr::Nop, AddrMode::Imm, 2),
        0x8C => (Instr::Sty, AddrMode::Abs, 4),
        0x8D => (Instr::Sta, AddrMode::Abs, 4),
        0x8E => (Instr::Stx, AddrMode::Abs, 4),
        0x8F => (Instr::Sax, AddrMode::Abs, 4),
        0x90 => (Instr::Bcc, AddrMode::Rel, 2),
        0x91 => (Instr::Sta, AddrMode::Izy, 6),
        0x92 => (Instr::Nop, AddrMode::Imp, 2),
        0x93 => (Instr::Nop, AddrMode::Izy, 6),
        0x94 => (Instr::Sty, AddrMode::Zpx, 4),
        0x95 => (Instr::Sta, AddrMode::Zpx, 4),
        0x96 => (Instr::Stx, AddrMode::Zpy, 4),
        0x97 => (Instr::Sax, AddrMode::Zpy, 4),
        0x98 => (Instr::Tya, AddrMode::Imp, 2),
        0x99 => (Instr::Sta, AddrMode::Aby, 5),
        0x9A => (Instr::Txs, AddrMode::Imp, 2),
        0x9B => (Instr::Nop, AddrMode::Aby, 5),
        0x9C => (Instr::Nop, AddrMode::Abx, 5),
        0x9D => (Instr::Sta, AddrMode::Abx, 5),
        0x9E => (Instr::Nop, AddrMode::Aby, 5),
        0x9F => (Instr::Nop, AddrMode::Aby, 5),
        0xA0 => (Instr::Ldy, AddrMode::Imm, 2),
        0xA1 => (Instr::Lda, AddrMode::Izx, 6),
        0xA2 => (Instr::Ldx, AddrMode::Imm, 2),
        0xA3 => (Instr::Lax, AddrMode::Izx, 6),
        0xA4 => (Instr::Ldy, AddrMode::Zp, 3),
        0xA5 => (Instr::Lda, AddrMode::Zp, 3),
        0xA6 => (Instr::Ldx, AddrMode::Zp, 3),
        0xA7 => (Instr::Lax, AddrMode::Zp, 3),
        0xA8 => (Instr::Tay, AddrMode::Imp, 2),
        0xA9 => (Instr::Lda, AddrMode::Imm, 2),
        0xAA => (Instr::Tax, AddrMode::Imp, 2),
        0xAB => (Instr::Lax, AddrMode::Imm, 2),
        0xAC => (Instr::Ldy, AddrMode::Abs, 4),
        0xAD => (Instr::Lda, AddrMode::Abs, 4),
        0xAE => (Instr::Ldx, AddrMode::Abs, 4),
        0xAF => (Instr::Lax, AddrMode::Abs, 4),
        0xB0 => (Instr::Bcs, AddrMode::Rel, 2),
        0xB1 => (Instr::Lda, AddrMode::Izy, 5),
        0xB2 => (Instr::Nop, AddrMode::Imp, 2),
        0xB3 => (Instr::Lax, AddrMode::Izy, 5),
        0xB4 => (Instr::Ldy, AddrMode::Zpx, 4),
        0xB5 => (Instr::Lda, AddrMode::Zpx, 4),
        0xB6 => (Instr::Ldx, AddrMode::Zpy, 4),
        0xB7 => (Instr::Lax, AddrMode::Zpy, 4),
        0xB8 => (Instr::Clv, AddrMode::Imp, 2),
        0xB9 => (Instr::Lda, AddrMode::Aby, 4),
        0xBA => (Instr::Tsx, AddrMode::Imp, 2),
        0xBB => (Instr::Nop, AddrMode::Aby, 4),
        0xBC => (Instr::Ldy, AddrMode::Abx, 4),
        0xBD => (Instr::Lda, AddrMode::Abx, 4),
        0xBE => (Instr::Ldx, AddrMode::Aby, 4),
        0xBF => (Instr::Lax, AddrMode::Aby, 4),
        0xC0 => (Instr::Cpy, AddrMode::Imm, 2),
        0xC1 => (Instr::Cmp, AddrMode::Izx, 6),
        0xC2 => (Instr::Nop, AddrMode::Imm, 2),
        0xC3 => (Instr::Dcp, AddrMode::Izx, 8),
        0xC4 => (Instr::Cpy, AddrMode::Zp, 3),
        0xC5 => (Instr::Cmp, AddrMode::Zp, 3),
        0xC6 => (Instr::Dec, AddrMode::Zp, 5),
        0xC7 => (Instr::Dcp, AddrMode::Zp, 5),
        0xC8 => (Instr::Iny, AddrMode::Imp, 2),
        0xC9 => (Instr::Cmp, AddrMode::Imm, 2),
        0xCA => (Instr::Dex, AddrMode::Imp, 2),
        0xCB => (Instr::Nop, AddrMode::Imm, 2),
        0xCC => (Instr::Cpy, AddrMode::Abs, 4),
        0xCD => (Instr::Cmp, AddrMode::Abs, 4),
        0xCE => (Instr::Dec, AddrMode::Abs, 6),
        0xCF => (Instr::Dcp, AddrMode::Abs, 6),
        0xD0 => (Instr::Bne, AddrMode::Rel, 2),
        0xD1 => (Instr::Cmp, AddrMode::Izy, 5),
        0xD2 => (Instr::Nop, AddrMode::Imp, 2),
        0xD3 => (Instr::Dcp, AddrMode::Izy, 8),
        0xD4 => (Instr::Nop, AddrMode::Zpx, 4),
        0xD5 => (Instr::Cmp, AddrMode::Zpx, 4),
        0xD6 => (Instr::Dec, AddrMode::Zpx, 6),
        0xD7 => (Instr::Dcp, AddrMode::Zpx, 6),
        0xD8 => (Instr::Cld, AddrMode::Imp, 2),
        0xD9 => (Instr::Cmp, AddrMode::Aby, 4),
        0xDA => (Instr::Nop, AddrMode::Imp, 2),
        0xDB => (Instr::Dcp, AddrMode::Aby, 7),
        0xDC => (Instr::Nop, AddrMode::Abx, 4),
        0xDD => (Instr::Cmp, AddrMode::Abx, 4),
        0xDE => (Instr::Dec, AddrMode::Abx, 7),
        0xDF => (Instr::Dcp, AddrMode::Abx, 7),
        0xE0 => (Instr::Cpx, AddrMode::Imm, 2),
        0xE1 => (Instr::Sbc, AddrMode::Izx, 6),
        0xE2 => (Instr::Nop, AddrMode::Imm, 2),
        0xE3 => (Instr::Isb, AddrMode::Izx, 8),
        0xE4 => (Instr::Cpx, AddrMode::Zp, 3),
        0xE5 => (Instr::Sbc, AddrMode::Zp, 3),
        0xE6 => (Instr::Inc, AddrMode::Zp, 5),
        0xE7 => (Instr::Isb, AddrMode::Zp, 5),
        0xE8 => (Instr::Inx, AddrMode::Imp, 2),
        0xE9 => (Instr::Sbc, AddrMode::Imm, 2),
        0xEA => (Instr::Nop, AddrMode::Imp, 2),
        0xEB => (Instr::Sbc, AddrMode::Imm, 2),
        0xEC => (Instr::Cpx, AddrMode::Abs, 4),
        0xED => (Instr::Sbc, AddrMode::Abs, 4),
        0xEE => (Instr::Inc, AddrMode::Abs, 6),
        0xEF => (Instr::Isb, AddrMode::Abs, 6),
        0xF0 => (Instr::Beq, AddrMode::Rel, 2),
        0xF1 => (Instr::Sbc, AddrMode::Izy, 5),
        0xF2 => (Instr::Nop, AddrMode::Imp, 2),
        0xF3 => (Instr::Isb, AddrMode::Izy, 8),
        0xF4 => (Instr::Nop, AddrMode::Zpx, 4),
        0xF5 => (Instr::Sbc, AddrMode::Zpx, 4),
        0xF6 => (Instr::Inc, AddrMode::Zpx, 6),
        0xF7 => (Instr::Isb, AddrMode::Zpx, 6),
        0xF8 => (Instr::Sed, AddrMode::Imp, 2),
        0xF9 => (Instr::Sbc, AddrMode::Aby, 4),
        0xFA => (Instr::Nop, AddrMode::Imp, 2),
        0xFB => (Instr::Isb, AddrMode::Aby, 7),
        0xFC => (Instr::Nop, AddrMode::Abx, 4),
        0xFD => (Instr::Sbc, AddrMode::Abx, 4),
        0xFE => (Instr::Inc, AddrMode::Abx, 7),
        0xFF => (Instr::Isb, AddrMode::Abx, 7),
    }
}

/// Fetch the byte at PC and advance PC.
fn fetch8(cpu: &mut Cpu, ppu: &mut Ppu, apu: &mut Apu, joy: &mut Joy, mapper: &mut Mapper) -> (r:
    u8)
    requires
        old(cpu).wf(),
        old(ppu).wf(),
        old(apu).wf(),
        old(mapper).wf(),
    ensures
        final(cpu).wf(),
        final(ppu).wf(),
        final(apu).wf(),
        final(mapper).wf(),
        final(cpu).ticks == old(cpu).ticks,
        final(ppu).dots == old(ppu).dots,
        final(apu).ticks == old(apu).ticks,
{
    let b = bus_read(cpu, ppu, apu, joy, mapper, cpu.pc);
    cpu.pc = cpu.pc.wrapping_add(1);
    b
}

/// Fetch a little-endian word at PC and advance PC twice.
fn fetch16(cpu: &mut Cpu, ppu: &mut Ppu, apu: &mut Apu, joy: &mut Joy, mapper: &mut Mapper) -> (r:
    u16)
    requires
        old(cpu).wf(),
        old(ppu).wf(),
        old(apu).wf(),
        old(mapper).wf(),
    ensures
        final(cpu).wf(),
        final(ppu).wf(),
        final(apu).wf(),
        final(mapper).wf(),
        final(cpu).ticks == old(cpu).ticks,
        final(ppu).dots == old(ppu).dots,
        final(apu).ticks == old(apu).ticks,
{
    let lo = fetch8(cpu, ppu, apu, joy, mapper);
    let hi = fetch8(cpu, ppu, apu, joy, mapper);
    (lo as u16) | ((hi as u16) << 8)
}

/// Push a byte onto the page-1 stack.
fn push8(cpu: &mut Cpu, ppu: &mut Ppu, apu: &mut Apu, joy: &mut Joy, mapper: &mut Mapper, v: u8)
    requires
        old(cpu).wf(),
        old(ppu).wf(),
        old(apu).wf(),
        old(mapper).wf(),
    ensures
        final(cpu).wf(),
        final(ppu).wf(),
        final(apu).wf(),
        final(mapper).wf(),
        final(cpu).ticks == old(cpu).ticks,
        final(ppu).dots == old(ppu).dots,
        final(apu).ticks == old(apu).ticks,
{
    bus_write(cpu, ppu, apu, joy, mapper, 0x0100 | (cpu.sp as u16), v);
    cpu.sp = cpu.sp.wrapping_sub(1);
}

/// Pop a byte off the page-1 stack.
fn pop8(cpu: &mut Cpu, ppu: &mut Ppu, apu: &mut Apu, joy: &mut Joy, mapper: &mut Mapper) -> (r: u8)
    requires
        old(cpu).wf(),
        old(ppu).wf(),
        old(apu).wf(),
        old(mapper).wf(),
    ensures
        final(cpu).wf(),
        final(ppu).wf(),
        final(apu).wf(),
        final(mapper).wf(),
        final(cpu).ticks == old(cpu).ticks,
        final(ppu).dots == old(ppu).dots,
        final(apu).ticks == old(apu).ticks,
{
    cpu.sp = cpu.sp.wrapping_add(1);
    bus_read(cpu, ppu, apu, joy, mapper, 0x0100 | (cpu.sp as u16))
}

/// Push a word, high byte first.
fn push16(cpu: &mut Cpu, ppu: &mut Ppu, apu: &mut Apu, joy: &mut Joy, mapper: &mut Mapper, v: u16)
    requires
        old(cpu).wf(),
        old(ppu).wf(),
        old(apu).wf(),
        old(mapper).wf(),
    ensures
        final(cpu).wf(),
        final(ppu).wf(),
        final(apu).wf(),
        final(mapper).wf(),
        final(cpu).ticks == old(cpu).ticks,
        final(ppu).dots == old(ppu).dots,
        final(apu).ticks == old(apu).ticks,
{
    push8(cpu, ppu, apu, joy, mapper, (v >> 8) as u8);
    proof {
        let vv = v;
        assert(vv >> 8 <= 0xFF && vv & 0xFF <= 0xFF) by (bit_vector);
    }
    push8(cpu, ppu, apu, joy, mapper, (v & 0x00FF) as u8);
}

/// Pop a word, low byte first.
fn pop16(cpu: &mut Cpu, ppu: &mut Ppu, apu: &mut Apu, joy: &mut Joy, mapper: &mut Mapper) -> (r:
    u16)
    requires
        old(cpu).wf(),
        old(ppu).wf(),
        old(apu).wf(),
        old(mapper).wf(),
    ensures
        final(cpu).wf(),
        final(ppu).wf(),
        final(apu).wf(),
        final(mapper).wf(),
        final(cpu).ticks == old(cpu).ticks,
        final(ppu).dots == old(ppu).dots,
        final(apu).ticks == old(apu).ticks,
{
    let lo = pop8(cpu, ppu, apu, joy, mapper);
    let hi = pop8(cpu, ppu, apu, joy, mapper);
    (lo as u16) | ((hi as u16) << 8)
}

/// Service an interrupt: push PC and P (B set only for BRK), set I, and
/// jump through the vector.
fn service_interrupt(
    cpu: &mut Cpu,
    ppu: &mut Ppu,
    apu: &mut Apu,
    joy: &mut Joy,
    mapper: &mut Mapper,
    vector: u16,
    brk: bool,
)
    requires
        old(cpu).wf(),
        old(ppu).wf(),
        old(apu).wf(),
        old(mapper).wf(),
    ensures
        final(cpu).wf(),
        final(ppu).wf(),
        final(apu).wf(),
        final(mapper).wf(),
        final(cpu).ticks == old(cpu).ticks,
        final(ppu).dots == old(ppu).dots,
        final(apu).ticks == old(apu).ticks,
{
    push16(cpu, ppu, apu, joy, mapper, cpu.pc);
    let flags = (cpu.p & !FLAG_B) | FLAG_U | (if brk {
        FLAG_B
    } else {
        0
    });
    push8(cpu, ppu, apu, joy, mapper, flags);
    cpu.set_flag(FLAG_I, true);
    cpu.pc = bus_read16(cpu, ppu, apu, joy, mapper, vector);
    cpu.holding = false;
}

/// The effective address of an operand, and whether indexing crossed a
/// page (which costs some instructions one more cycle).
fn operand_addr(
    cpu: &mut Cpu,
    ppu: &mut Ppu,
    apu: &mut Apu,
    joy: &mut Joy,
    mapper: &mut Mapper,
    mode: AddrMode,
) -> (r: (u16, bool))
    requires
        old(cpu).wf(),
        old(ppu).wf(),
        old(apu).wf(),
        old(mapper).wf(),
    ensures
        final(cpu).wf(),
        final(ppu).wf(),
        final(apu).wf(),
        final(mapper).wf(),
        final(cpu).ticks == old(cpu).ticks,
        final(ppu).dots == old(ppu).dots,
        final(apu).ticks == old(apu).ticks,
{
    match mode {
        AddrMode::Zp => {
            let a = fetch8(cpu, ppu, apu, joy, mapper);
            (a as u16, false)
        },
        AddrMode::Zpx => {
            let a = fetch8(cpu, ppu, apu, joy, mapper);
            (a.wrapping_add(cpu.x) as u16, false)
        },
        AddrMode::Zpy => {
            let a = fetch8(cpu, ppu, apu, joy, mapper);
            (a.wrapping_add(cpu.y) as u16, false)
        },
        AddrMode::Abs => {
            let a = fetch16(cpu, ppu, apu, joy, mapper);
            (a, false)
        },
        AddrMode::Abx => {
            let base = fetch16(cpu, ppu, apu, joy, mapper);
            let a = base.wrapping_add(cpu.x as u16);
            (a, (base & 0xFF00) != (a & 0xFF00))
        },
        AddrMode::Aby => {
            let base = fetch16(cpu, ppu, apu, joy, mapper);
            let a = base.wrapping_add(cpu.y as u16);
            (a, (base & 0xFF00) != (a & 0xFF00))
        },
        AddrMode::Ind => {
            // the 6502 wraps the pointer's low byte within its page
            let ptr = fetch16(cpu, ppu, apu, joy, mapper);
            let lo = bus_read(cpu, ppu, apu, joy, mapper, ptr);
            let hi_addr = (ptr & 0xFF00) | (ptr.wrapping_add(1) & 0x00FF);
            let hi = bus_read(cpu, ppu, apu, joy, mapper, hi_addr);
            ((lo as u16) | ((hi as u16) << 8), false)
        },
        AddrMode::Izx => {
            let z = fetch8(cpu, ppu, apu, joy, mapper);
            let p = z.wrapping_add(cpu.x);
            let lo = bus_read(cpu, ppu, apu, joy, mapper, p as u16);
            let hi = bus_read(cpu, ppu, apu, joy, mapper, p.wrapping_add(1) as u16);
            ((lo as u16) | ((hi as u16) << 8), false)
        },
        AddrMode::Izy => {
            let z = fetch8(cpu, ppu, apu, joy, mapper);
            let lo = bus_read(cpu, ppu, apu, joy, mapper, z as u16);
            let hi = bus_read(cpu, ppu, apu, joy, mapper, z.wrapping_add(1) as u16);
            let base = (lo as u16) | ((hi as u16) << 8);
            let a = base.wrapping_add(cpu.y as u16);
            (a, (base & 0xFF00) != (a & 0xFF00))
        },
        _ => (0, false),
    }
}

/// Read the operand value: immediate, accumulator, or through memory.
fn read_operand(
    cpu: &mut Cpu,
    ppu: &mut Ppu,
    apu: &mut Apu,
    joy: &mut Joy,
    mapper: &mut Mapper,
    mode: AddrMode,
) -> (r: (u8, bool))
    requires
        old(cpu).wf(),
        old(ppu).wf(),
        old(apu).wf(),
        old(mapper).wf(),
    ensures
        final(cpu).wf(),
        final(ppu).wf(),
        final(apu).wf(),
        final(mapper).wf(),
        final(cpu).ticks == old(cpu).ticks,
        final(ppu).dots == old(ppu).dots,
        final(apu).ticks == old(apu).ticks,
{
    if mode == AddrMode::Imp || mode == AddrMode::Rel {
        (0, false)
    } else if mode == AddrMode::Imm {
        let v = fetch8(cpu, ppu, apu, joy, mapper);
        (v, false)
    } else if mode == AddrMode::Acc {
        (cpu.a, false)
    } else {
        let (a, c) = operand_addr(cpu, ppu, apu, joy, mapper, mode);
        let v = bus_read(cpu, ppu, apu, joy, mapper, a);
        (v, c)
    }
}

/// Where a taken branch at `pc` with signed offset `off` lands.
pub fn branch_target(pc: u16, off: u8) -> (r: u16)
    ensures
        off < 0x80 ==> r == pc.wrapping_add(off as u16),
        off >= 0x80 ==> r == pc.wrapping_add(off as u16).wrapping_sub(0x100),
{
    if off < 0x80 {
        pc.wrapping_add(off as u16)
    } else {
        pc.wrapping_add(off as u16).wrapping_sub(0x100)
    }
}

impl Cpu {
    /// Add with carry: A + v + C, with C as carry out and V as signed
    /// overflow; decimal mode does not alter the arithmetic.
    fn adc_val(&mut self, v: u8)
        ensures
            final(self).a == (old(self).a + v + (if old(self).p & 0x01 != 0 {
                1int
            } else {
                0int
            })) % 256,
            *final(self) == (Cpu { a: final(self).a, p: final(self).p, ..*old(self) }),
    {
        let c: u16 = if self.get_flag(FLAG_C) {
            1
        } else {
            0
        };
        let t: u16 = (self.a as u16) + (v as u16) + c;
        let r: u8 = (t & 0x00FF) as u8;
        proof {
            let tt = t;
            assert(tt & 0x00FF == tt % 256 && tt & 0x00FF <= 0xFF) by (bit_vector);
        }
        let overflow = ((self.a ^ r) & (v ^ r) & 0x80) != 0;
        self.set_flag(FLAG_C, t > 0xFF);
        self.set_flag(FLAG_V, overflow);
        self.a = r;
        self.update_nz(r);
    }

    /// Subtract with borrow: A - v - (1 - C), by adding the complement.
    fn sbc_val(&mut self, v: u8)
        ensures
            *final(self) == (Cpu { a: final(self).a, p: final(self).p, ..*old(self) }),
    {
        self.adc_val(v ^ 0xFF);
    }

    /// Compare: C is no-borrow (reg >= v), Z equality, N from the
    /// difference.
    fn cmp_val(&mut self, reg: u8, v: u8)
        ensures
            *final(self) == (Cpu { p: final(self).p, ..*old(self) }),
            (final(self).p & 0x01 != 0) == (reg >= v),
            (final(self).p & 0x02 != 0) == (reg == v),
    {
        let t = reg.wrapping_sub(v);
        proof {
            assert((t == 0) == (reg == v));
        }
        self.set_flag(FLAG_C, reg >= v);
        self.update_nz(t);
        proof {
            lemma_cmp_flags(old(self).p, t, reg >= v);
        }
    }
}

/// How the carry and zero bits read after a compare writes C and then
/// N and Z.
proof fn lemma_cmp_flags(p0: u8, t: u8, c: bool)
    by (bit_vector)
    ensures
        ((((if c {
            p0 | 0x01
        } else {
            p0 & !0x01
        }) & 0x7D) | (if t == 0 {
            0x02u8
        } else {
            0
        }) | (t & 0x80)) & 0x01 != 0) == c,
        ((((if c {
            p0 | 0x01
        } else {
            p0 & !0x01
        }) & 0x7D) | (if t == 0 {
            0x02u8
        } else {
            0
        }) | (t & 0x80)) & 0x02 != 0) == (t == 0),
{
}

/// Execute a read-operand instruction; the result counts any page-cross
/// penalty cycle.
#[verifier::spinoff_prover]
fn exec_read(
    cpu: &mut Cpu,
    ppu: &mut Ppu,
    apu: &mut Apu,
    joy: &mut Joy,
    mapper: &mut Mapper,
    instr: Instr,
    mode: AddrMode,
) -> (r: u32)
    requires
        old(cpu).wf(),
        old(ppu).wf(),
        old(apu).wf(),
        old(mapper).wf(),
    ensures
        final(cpu).wf(),
        final(ppu).wf(),
        final(apu).wf(),
        final(mapper).wf(),
        final(cpu).ticks == old(cpu).ticks,
        final(ppu).dots == old(ppu).dots,
        final(apu).ticks == old(apu).ticks,
        r <= 1,
{
    let mut cycles: u32 = 0;
    match instr {
        Instr::Lda => {
            let (v, c) = read_operand(cpu, ppu, apu, joy, mapper, mode);
            cpu.a = v;
            cpu.update_nz(v);
            if c {
                cycles = 1;
            }
        },
        Instr::Ldx => {
            let (v, c) = read_operand(cpu, ppu, apu, joy, mapper, mode);
            cpu.x = v;
            cpu.update_nz(v);
            if c {
                cycles = 1;
            }
        },
        Instr::Ldy => {
            let (v, c) = read_operand(cpu, ppu, apu, joy, mapper, mode);
            cpu.y = v;
            cpu.update_nz(v);
            if c {
                cycles = 1;
            }
        },
        Instr::Lax => {
            let (v, c) = read_operand(cpu, ppu, apu, joy, mapper, mode);
            cpu.a = v;
            cpu.x = v;
            cpu.update_nz(v);
            if c {
                cycles = 1;
            }
        },
        Instr::Adc => {
            let (v, c) = read_operand(cpu, ppu, apu, joy, mapper, mode);
            cpu.adc_val(v);
            if c {
                cycles = 1;
            }
        },
        Instr::Sbc => {
            let (v, c) = read_operand(cpu, ppu, apu, joy, mapper, mode);
            cpu.sbc_val(v);
            if c {
                cycles = 1;
            }
        },
        Instr::And => {
            let (v, c) = read_operand(cpu, ppu, apu, joy, mapper, mode);
            cpu.a = cpu.a & v;
            let a = cpu.a;
            cpu.update_nz(a);
            if c {
                cycles = 1;
            }
        },
        Instr::Ora => {
            let (v, c) = read_operand(cpu, ppu, apu, joy, mapper, mode);
            cpu.a = cpu.a | v;
            let a = cpu.a;
            cpu.update_nz(a);
            if c {
                cycles = 1;
            }
        },
        Instr::Eor => {
            let (v, c) = read_operand(cpu, ppu, apu, joy, mapper, mode);
            cpu.a = cpu.a ^ v;
            let a = cpu.a;
            cpu.update_nz(a);
            if c {
                cycles = 1;
            }
        },
        Instr::Cmp => {
            let (v, c) = read_operand(cpu, ppu, apu, joy, mapper, mode);
            let a = cpu.a;
            cpu.cmp_val(a, v);
            if c {
                cycles = 1;
            }
        },
        Instr::Cpx => {
            let (v, _) = read_operand(cpu, ppu, apu, joy, mapper, mode);
            let x = cpu.x;
            cpu.cmp_val(x, v);
        },
        Instr::Cpy => {
            let (v, _) = read_operand(cpu, ppu, apu, joy, mapper, mode);
            let y = cpu.y;
            cpu.cmp_val(y, v);
        },
        Instr::Bit => {
            let (v, _) = read_operand(cpu, ppu, apu, joy, mapper, mode);
            let z = (cpu.a & v) == 0;
            cpu.set_flag(FLAG_Z, z);
            cpu.set_flag(FLAG_N, v & 0x80 != 0);
            cpu.set_flag(FLAG_V, v & 0x40 != 0);
        },
        Instr::Nop => {
            if mode != AddrMode::Imp {
                let (_, c) = read_operand(cpu, ppu, apu, joy, mapper, mode);
                if c {
                    cycles = 1;
                }
            }
        },
        _ => {},
    }
    cycles
}

/// Execute a store instruction.
#[verifier::spinoff_prover]
fn exec_store(
    cpu: &mut Cpu,
    ppu: &mut Ppu,
    apu: &mut Apu,
    joy: &mut Joy,
    mapper: &mut Mapper,
    instr: Instr,
    mode: AddrMode,
)
    requires
        old(cpu).wf(),
        old(ppu).wf(),
        old(apu).wf(),
        old(mapper).wf(),
    ensures
        final(cpu).wf(),
        final(ppu).wf(),
        final(apu).wf(),
        final(mapper).wf(),
        final(cpu).ticks == old(cpu).ticks,
        final(ppu).dots == old(ppu).dots,
        final(apu).ticks == old(apu).ticks,
{
    match instr {
        Instr::Sta => {
            let (a, _) = operand_addr(cpu, ppu, apu, joy, mapper, mode);
            bus_write(cpu, ppu, apu, joy, mapper, a, cpu.a);
        },
        Instr::Stx => {
            let (a, _) = operand_addr(cpu, ppu, apu, joy, mapper, mode);
            bus_write(cpu, ppu, apu, joy, mapper, a, cpu.x);
        },
        Instr::Sty => {
            let (a, _) = operand_addr(cpu, ppu, apu, joy, mapper, mode);
            bus_write(cpu, ppu, apu, joy, mapper, a, cpu.y);
        },
        Instr::Sax => {
            let (a, _) = operand_addr(cpu, ppu, apu, joy, mapper, mode);
            bus_write(cpu, ppu, apu, joy, mapper, a, cpu.a & cpu.x);
        },
        _ => {},
    }
}

/// Execute a read-modify-write instruction, with the dummy write of the
/// original value before the result.
#[verifier::rlimit(100)]
#[verifier::spinoff_prover]
fn exec_rmw(
    cpu: &mut Cpu,
    ppu: &mut Ppu,
    apu: &mut Apu,
    joy: &mut Joy,
    mapper: &mut Mapper,
    instr: Instr,
    mode: AddrMode,
)
    requires
        old(cpu).wf(),
        old(ppu).wf(),
        old(apu).wf(),
        old(mapper).wf(),
    ensures
        final(cpu).wf(),
        final(ppu).wf(),
        final(apu).wf(),
        final(mapper).wf(),
        final(cpu).ticks == old(cpu).ticks,
        final(ppu).dots == old(ppu).dots,
        final(apu).ticks == old(apu).ticks,
{
    match instr {
        Instr::Asl => {
            if mode == AddrMode::Acc {
                let v = cpu.a;
                cpu.set_flag(FLAG_C, v & 0x80 != 0);
                cpu.a = v << 1;
                let a = cpu.a;
                cpu.update_nz(a);
            } else {
                let (a, _) = operand_addr(cpu, ppu, apu, joy, mapper, mode);
                let v = bus_read(cpu, ppu, apu, joy, mapper, a);
                bus_write(cpu, ppu, apu, joy, mapper, a, v);
                cpu.set_flag(FLAG_C, v & 0x80 != 0);
                let r2 = v << 1;
                cpu.update_nz(r2);
                bus_write(cpu, ppu, apu, joy, mapper, a, r2);
            }
        },
        Instr::Lsr => {
            if mode == AddrMode::Acc {
                let v = cpu.a;
                cpu.set_flag(FLAG_C, v & 0x01 != 0);
                cpu.a = v >> 1;
                let a = cpu.a;
                cpu.update_nz(a);
            } else {
                let (a, _) = operand_addr(cpu, ppu, apu, joy, mapper, mode);
                let v = bus_read(cpu, ppu, apu, joy, mapper, a);
                bus_write(cpu, ppu, apu, joy, mapper, a, v);
                cpu.set_flag(FLAG_C, v & 0x01 != 0);
                let r2 = v >> 1;
                cpu.update_nz(r2);
                bus_write(cpu, ppu, apu, joy, mapper, a, r2);
            }
        },
        Instr::Rol => {
            let cin: u8 = if cpu.get_flag(FLAG_C) {
                1
            } else {
                0
            };
            if mode == AddrMode::Acc {
                let v = cpu.a;
                cpu.set_flag(FLAG_C, v & 0x80 != 0);
                cpu.a = (v << 1) | cin;
                let a = cpu.a;
                cpu.update_nz(a);
            } else {
                let (a, _) = operand_addr(cpu, ppu, apu, joy, mapper, mode);
                let v = bus_read(cpu, ppu, apu, joy, mapper, a);
                bus_write(cpu, ppu, apu, joy, mapper, a, v);
                cpu.set_flag(FLAG_C, v & 0x80 != 0);
                let r2 = (v << 1) | cin;
                cpu.update_nz(r2);
                bus_write(cpu, ppu, apu, joy, mapper, a, r2);
            }
        },
        Instr::Ror => {
            let cin: u8 = if cpu.get_flag(FLAG_C) {
                0x80
            } else {
                0
            };
            if mode == AddrMode::Acc {
                let v = cpu.a;
                cpu.set_flag(FLAG_C, v & 0x01 != 0);
                cpu.a = (v >> 1) | cin;
                let a = cpu.a;
                cpu.update_nz(a);
            } else {
                let (a, _) = operand_addr(cpu, ppu, apu, joy, mapper, mode);
                let v = bus_read(cpu, ppu, apu, joy, mapper, a);
                bus_write(cpu, ppu, apu, joy, mapper, a, v);
                cpu.set_flag(FLAG_C, v & 0x01 != 0);
                let r2 = (v >> 1) | cin;
                cpu.update_nz(r2);
                bus_write(cpu, ppu, apu, joy, mapper, a, r2);
            }
        },
        Instr::Inc => {
            let (a, _) = operand_addr(cpu, ppu, apu, joy, mapper, mode);
            let v = bus_read(cpu, ppu, apu, joy, mapper, a);
            bus_write(cpu, ppu, apu, joy, mapper, a, v);
            let r2 = v.wrapping_add(1);
            cpu.update_nz(r2);
            bus_write(cpu, ppu, apu, joy, mapper, a, r2);
        },
        Instr::Dec => {
            let (a, _) = operand_addr(cpu, ppu, apu, joy, mapper, mode);
            let v = bus_read(cpu, ppu, apu, joy, mapper, a);
            bus_write(cpu, ppu, apu, joy, mapper, a, v);
            let r2 = v.wrapping_sub(1);
            cpu.update_nz(r2);
            bus_write(cpu, ppu, apu, joy, mapper, a, r2);
        },
        Instr::Slo => {
            let (a, _) = operand_addr(cpu, ppu, apu, joy, mapper, mode);
            let v = bus_read(cpu, ppu, apu, joy, mapper, a);
            bus_write(cpu, ppu, apu, joy, mapper, a, v);
            cpu.set_flag(FLAG_C, v & 0x80 != 0);
            let r2 = v << 1;
            bus_write(cpu, ppu, apu, joy, mapper, a, r2);
            cpu.a = cpu.a | r2;
            let acc = cpu.a;
            cpu.update_nz(acc);
        },
        Instr::Rla => {
            let cin: u8 = if cpu.get_flag(FLAG_C) {
                1
            } else {
                0
            };
            let (a, _) = operand_addr(cpu, ppu, apu, joy, mapper, mode);
            let v = bus_read(cpu, ppu, apu, joy, mapper, a);
            bus_write(cpu, ppu, apu, joy, mapper, a, v);
            cpu.set_flag(FLAG_C, v & 0x80 != 0);
            let r2 = (v << 1) | cin;
            bus_write(cpu, ppu, apu, joy, mapper, a, r2);
            cpu.a = cpu.a & r2;
            let acc = cpu.a;
            cpu.update_nz(acc);
        },
        Instr::Sre => {
            let (a, _) = operand_addr(cpu, ppu, apu, joy, mapper, mode);
            let v = bus_read(cpu, ppu, apu, joy, mapper, a);
            bus_write(cpu, ppu, apu, joy, mapper, a, v);
            cpu.set_flag(FLAG_C, v & 0x01 != 0);
            let r2 = v >> 1;
            bus_write(cpu, ppu, apu, joy, mapper, a, r2);
            cpu.a = cpu.a ^ r2;
            let acc = cpu.a;
            cpu.update_nz(acc);
        },
        Instr::Rra => {
            let cin: u8 = if cpu.get_flag(FLAG_C) {
                0x80
            } else {
                0
            };
            let (a, _) = operand_addr(cpu, ppu, apu, joy, mapper, mode);
            let v = bus_read(cpu, ppu, apu, joy, mapper, a);
            bus_write(cpu, ppu, apu, joy, mapper, a, v);
            cpu.set_flag(FLAG_C, v & 0x01 != 0);
            let r2 = (v >> 1) | cin;
            bus_write(cpu, ppu, apu, joy, mapper, a, r2);
            cpu.adc_val(r2);
        },
        Instr::Dcp => {
            let (a, _) = operand_addr(cpu, ppu, apu, joy, mapper, mode);
            let v = bus_read(cpu, ppu, apu, joy, mapper, a);
            bus_write(cpu, ppu, apu, joy, mapper, a, v);
            let r2 = v.wrapping_sub(1);
            bus_write(cpu, ppu, apu, joy, mapper, a, r2);
            let acc = cpu.a;
            cpu.cmp_val(acc, r2);
        },
        Instr::Isb => {
            let (a, _) = operand_addr(cpu, ppu, apu, joy, mapper, mode);
            let v = bus_read(cpu, ppu, apu, joy, mapper, a);
            bus_write(cpu, ppu, apu, joy, mapper, a, v);
            let r2 = v.wrapping_add(1);
            bus_write(cpu, ppu, apu, joy, mapper, a, r2);
            cpu.sbc_val(r2);
        },
        _ => {},
    }
}

/// Execute a branch; the result counts the taken and page-cross cycles.
#[verifier::spinoff_prover]
fn exec_branch(
    cpu: &mut Cpu,
    ppu: &mut Ppu,
    apu: &mut Apu,
    joy: &mut Joy,
    mapper: &mut Mapper,
    instr: Instr,
    start_pc: u16,
) -> (r: u32)
    requires
        old(cpu).wf(),
        old(ppu).wf(),
        old(apu).wf(),
        old(mapper).wf(),
    ensures
        final(cpu).wf(),
        final(ppu).wf(),
        final(apu).wf(),
        final(mapper).wf(),
        final(cpu).ticks == old(cpu).ticks,
        final(ppu).dots == old(ppu).dots,
        final(apu).ticks == old(apu).ticks,
        r <= 2,
{
    let taken = match instr {
        Instr::Bcc => !cpu.get_flag(FLAG_C),
        Instr::Bcs => cpu.get_flag(FLAG_C),
        Instr::Beq => cpu.get_flag(FLAG_Z),
        Instr::Bne => !cpu.get_flag(FLAG_Z),
        Instr::Bmi => cpu.get_flag(FLAG_N),
        Instr::Bpl => !cpu.get_flag(FLAG_N),
        Instr::Bvs => cpu.get_flag(FLAG_V),
        _ => !cpu.get_flag(FLAG_V),
    };
    do_branch(cpu, ppu, apu, joy, mapper, taken, start_pc)
}

/// Execute the jumps, stack, transfer and flag instructions.
#[verifier::rlimit(100)]
#[verifier::spinoff_prover]
fn exec_other(
    cpu: &mut Cpu,
    ppu: &mut Ppu,
    apu: &mut Apu,
    joy: &mut Joy,
    mapper: &mut Mapper,
    instr: Instr,
    mode: AddrMode,
    start_pc: u16,
)
    requires
        old(cpu).wf(),
        old(ppu).wf(),
        old(apu).wf(),
        old(mapper).wf(),
    ensures
        final(cpu).wf(),
        final(ppu).wf(),
        final(apu).wf(),
        final(mapper).wf(),
        final(cpu).ticks == old(cpu).ticks,
        final(ppu).dots == old(ppu).dots,
        final(apu).ticks == old(apu).ticks,
{
    match instr {
        Instr::Jmp => {
            let (a, _) = operand_addr(cpu, ppu, apu, joy, mapper, mode);
            if a == start_pc {
                cpu.holding = true;
            }
            cpu.pc = a;
        },
        Instr::Jsr => {
            let a = fetch16(cpu, ppu, apu, joy, mapper);
            let ret = cpu.pc.wrapping_sub(1);
            push16(cpu, ppu, apu, joy, mapper, ret);
            cpu.pc = a;
        },
        Instr::Rts => {
            let a = pop16(cpu, ppu, apu, joy, mapper);
            cpu.pc = a.wrapping_add(1);
        },
        Instr::Rti => {
            let flags = pop8(cpu, ppu, apu, joy, mapper);
            cpu.p = (flags | FLAG_U) & !FLAG_B;
            cpu.pc = pop16(cpu, ppu, apu, joy, mapper);
        },
        Instr::Brk => {
            // BRK pushes the address after its padding byte, with B set
            cpu.pc = cpu.pc.wrapping_add(1);
            service_interrupt(cpu, ppu, apu, joy, mapper, 0xFFFE, true);
        },
        Instr::Pha => {
            let a = cpu.a;
            push8(cpu, ppu, apu, joy, mapper, a);
        },
        Instr::Php => {
            let flags = cpu.p | FLAG_B | FLAG_U;
            push8(cpu, ppu, apu, joy, mapper, flags);
        },
        Instr::Pla => {
            let v = pop8(cpu, ppu, apu, joy, mapper);
            cpu.a = v;
            cpu.update_nz(v);
        },
        Instr::Plp => {
            let flags = pop8(cpu, ppu, apu, joy, mapper);
            cpu.p = (flags | FLAG_U) & !FLAG_B;
        },
        Instr::Clc => {
            cpu.set_flag(FLAG_C, false);
        },
        Instr::Sec => {
            cpu.set_flag(FLAG_C, true);
        },
        Instr::Cld => {
            cpu.set_flag(FLAG_D, false);
        },
        Instr::Sed => {
            cpu.set_flag(FLAG_D, true);
        },
        Instr::Cli => {
            cpu.set_flag(FLAG_I, false);
        },
        Instr::Sei => {
            cpu.set_flag(FLAG_I, true);
        },
        Instr::Clv => {
            cpu.set_flag(FLAG_V, false);
        },
        Instr::Tax => {
            let v = cpu.a;
            cpu.x = v;
            cpu.update_nz(v);
        },
        Instr::Tay => {
            let v = cpu.a;
            cpu.y = v;
            cpu.update_nz(v);
        },
        Instr::Tsx => {
            let v = cpu.sp;
            cpu.x = v;
            cpu.update_nz(v);
        },
        Instr::Txa => {
            let v = cpu.x;
            cpu.a = v;
            cpu.update_nz(v);
        },
        Instr::Txs => {
            cpu.sp = cpu.x;
        },
        Instr::Tya => {
            let v = cpu.y;
            cpu.a = v;
            cpu.update_nz(v);
        },
        Instr::Inx => {
            let v = cpu.x.wrapping_add(1);
            cpu.x = v;
            cpu.update_nz(v);
        },
        Instr::Iny => {
            let v = cpu.y.wrapping_add(1);
            cpu.y = v;
            cpu.update_nz(v);
        },
        Instr::Dex => {
            let v = cpu.x.wrapping_sub(1);
            cpu.x = v;
            cpu.update_nz(v);
        },
        Instr::Dey => {
            let v = cpu.y.wrapping_sub(1);
            cpu.y = v;
            cpu.update_nz(v);
        },
        _ => {},
    }
}

/// Execute one instruction and return the machine cycles it takes,
/// including page-cross and branch penalties. Detects a jump or branch to
/// the instruction's own address and marks the CPU as holding.
#[verifier::spinoff_prover]
fn step(cpu: &mut Cpu, ppu: &mut Ppu, apu: &mut Apu, joy: &mut Joy, mapper: &mut Mapper) -> (r:
    u32)
    requires
        old(cpu).wf(),
        old(ppu).wf(),
        old(apu).wf(),
        old(mapper).wf(),
    ensures
        final(cpu).wf(),
        final(ppu).wf(),
        final(apu).wf(),
        final(mapper).wf(),
        final(cpu).ticks == old(cpu).ticks,
        final(ppu).dots == old(ppu).dots,
        final(apu).ticks == old(apu).ticks,
        1 <= r <= 10,
{
    let start_pc = cpu.pc;
    let op = fetch8(cpu, ppu, apu, joy, mapper);
    let (instr, mode, base) = decode(op);
    let mut cycles: u32 = base as u32;
    cpu.holding = false;
    match instr {
        Instr::Lda | Instr::Ldx | Instr::Ldy | Instr::Lax | Instr::Adc | Instr::Sbc | Instr::And
            | Instr::Ora | Instr::Eor | Instr::Cmp | Instr::Cpx | Instr::Cpy | Instr::Bit
            | Instr::Nop => {
            let extra = exec_read(cpu, ppu, apu, joy, mapper, instr, mode);
            cycles = cycles + extra;
        },
        Instr::Sta | Instr::Stx | Instr::Sty | Instr::Sax => {
            exec_store(cpu, ppu, apu, joy, mapper, instr, mode);
        },
        Instr::Asl | Instr::Lsr | Instr::Rol | Instr::Ror | Instr::Inc | Instr::Dec | Instr::Slo
            | Instr::Rla | Instr::Sre | Instr::Rra | Instr::Dcp | Instr::Isb => {
            exec_rmw(cpu, ppu, apu, joy, mapper, instr, mode);
        },
        Instr::Bcc | Instr::Bcs | Instr::Beq | Instr::Bne | Instr::Bmi | Instr::Bpl | Instr::Bvs
            | Instr::Bvc => {
            let extra = exec_branch(cpu, ppu, apu, joy, mapper, instr, start_pc);
            cycles = cycles + extra;
        },
        _ => {
            exec_other(cpu, ppu, apu, joy, mapper, instr, mode, start_pc);
        },
    }
    if cycles < 1 {
        cycles = 1;
    }
    if cycles > 10 {
        cycles = 10;
    }
    cycles
}

/// Take or skip a branch; a taken branch costs one cycle, two when it
/// crosses a page. A branch to its own instruction marks the CPU holding.
fn do_branch(
    cpu: &mut Cpu,
    ppu: &mut Ppu,
    apu: &mut Apu,
    joy: &mut Joy,
    mapper: &mut Mapper,
    taken: bool,
    start_pc: u16,
) -> (r: u32)
    requires
        old(cpu).wf(),
        old(ppu).wf(),
        old(apu).wf(),
        old(mapper).wf(),
    ensures
        final(cpu).wf(),
        final(ppu).wf(),
        final(apu).wf(),
        final(mapper).wf(),
        final(cpu).ticks == old(cpu).ticks,
        final(ppu).dots == old(ppu).dots,
        final(apu).ticks == old(apu).ticks,
        r <= 2,
{
    let off = fetch8(cpu, ppu, apu, joy, mapper);
    if taken {
        let target = branch_target(cpu.pc, off);
        let extra: u32 = if (target & 0xFF00) != (cpu.pc & 0xFF00) {
            2
        } else {
            1
        };
        if target == start_pc {
            cpu.holding = true;
        }
        cpu.pc = target;
        extra
    } else {
        0
    }
}

/// One machine cycle: run the reset once, burn DMA stall and leftover
/// instruction cycles, sample NMI then IRQ between instructions, and
/// execute the next instruction on its first cycle.
pub fn tick(cpu: &mut Cpu, ppu: &mut Ppu, apu: &mut Apu, joy: &mut Joy, mapper: &mut Mapper)
    requires
        old(cpu).wf(),
        old(ppu).wf(),
        old(apu).wf(),
        old(mapper).wf(),
    ensures
        final(cpu).wf(),
        final(ppu).wf(),
        final(apu).wf(),
        final(mapper).wf(),
        final(cpu).ticks@ == old(cpu).ticks@ + 1,
        final(ppu).dots == old(ppu).dots,
        final(apu).ticks == old(apu).ticks,
        // reset: SP and P forced, six cycles consumed, entry honored
        old(cpu).reset_pending ==> {
            &&& !final(cpu).reset_pending
            &&& final(cpu).sp == 0xFD
            &&& final(cpu).p == 0x24
            &&& final(cpu).cycles_remaining == 6
            &&& (old(cpu).entry_set ==> final(cpu).pc == old(cpu).entry)
            &&& final(cpu).ram@ == old(cpu).ram@
        },
        // an OAM DMA stall cycle does nothing but count down
        !old(cpu).reset_pending && old(cpu).dma_stall > 0 ==> {
            &&& final(cpu).dma_stall == old(cpu).dma_stall - 1
            &&& final(cpu).pc == old(cpu).pc
            &&& final(cpu).p == old(cpu).p
            &&& final(cpu).ram@ == old(cpu).ram@
            &&& final(cpu).holding == old(cpu).holding
            &&& *final(ppu) == *old(ppu)
            &&& *final(apu) == *old(apu)
            &&& *final(joy) == *old(joy)
            &&& *final(mapper) == *old(mapper)
        },
        // a cycle inside an instruction only burns the remaining count
        !old(cpu).reset_pending && old(cpu).dma_stall == 0 && old(cpu).cycles_remaining > 0 ==> {
            &&& final(cpu).cycles_remaining == old(cpu).cycles_remaining - 1
            &&& final(cpu).pc == old(cpu).pc
            &&& final(cpu).sp == old(cpu).sp
            &&& final(cpu).a == old(cpu).a
            &&& final(cpu).x == old(cpu).x
            &&& final(cpu).y == old(cpu).y
            &&& final(cpu).p == old(cpu).p
            &&& final(cpu).ram@ == old(cpu).ram@
            &&& final(cpu).holding == old(cpu).holding
            &&& *final(ppu) == *old(ppu)
            &&& *final(apu) == *old(apu)
            &&& *final(joy) == *old(joy)
            &&& *final(mapper) == *old(mapper)
        },
{
    cpu.ticks = Ghost(cpu.ticks@ + 1);
    cpu.parity = !cpu.parity;
    if cpu.reset_pending {
        // reset: SP to $FD, I set, PC from $FFFC unless overridden
        cpu.sp = 0xFD;
        cpu.p = 0x24;
        cpu.pc = if cpu.entry_set {
            cpu.entry
        } else {
            bus_read16(cpu, ppu, apu, joy, mapper, RESET_VECTOR)
        };
        cpu.reset_pending = false;
        cpu.cycles_remaining = 6;
        return ;
    }
    if cpu.dma_stall > 0 {
        cpu.dma_stall = cpu.dma_stall - 1;
        return ;
    }
    if cpu.cycles_remaining > 0 {
        cpu.cycles_remaining = cpu.cycles_remaining - 1;
        return ;
    }
    // between instructions: sample the interrupt lines
    if cpu.nmi_pending {
        cpu.nmi_pending = false;
        service_interrupt(cpu, ppu, apu, joy, mapper, 0xFFFA, false);
        cpu.cycles_remaining = 6;
        return ;
    }
    if cpu.irq_line && !cpu.get_flag(FLAG_I) {
        service_interrupt(cpu, ppu, apu, joy, mapper, 0xFFFE, false);
        cpu.cycles_remaining = 6;
        return ;
    }
    let cycles = step(cpu, ppu, apu, joy, mapper);
    cpu.cycles_remaining = cycles - 1;
}

} // verus!
