//! The system: a master clock driving the PPU every tick, the CPU every
//! third tick, and the APU every sixth, with cartridge insertion and eject.
//!
//! One frame is 89342 PPU dots; over it the CPU receives exactly 29781
//! machine cycles and the APU exactly 14891 cycles.

use crate::apu::{Apu, ApuSample};
use crate::cart::Cartridge;
use crate::cpu::Cpu;
use crate::joy::{Button, Controller, Joy};
use crate::mapper::{Mapper, Mirroring};
use crate::ppu::{Pixel, Ppu, CYCLES_PER_FRAME};
use vstd::prelude::*;

verus! {

/// Size of the display frame buffer: display size times RGB (3 bytes).
pub const FRAME_BUFFER_SIZE: usize = 184320;

/// Standard PC audio sample rate.
pub const AUDIO_SAMPLE_RATE: usize = 44100;

/// APU cycles per second under this clocking: one per six PPU dots.
pub const APU_OUTPUT_RATE: usize = 893420;

/// Keep one APU sample in this many to approach the host audio rate.
pub const DOWNSAMPLE_RATE: usize = 20;

/// Buffer for video data: 256 x 240 pixels, R, G, B each.
pub type FrameBuffer = Vec<u8>;

/// Buffer for audio data: one entry per kept APU sample.
pub type SampleBuffer = Vec<ApuSample>;

/// How many of the first `n` master ticks clock a component that runs
/// once every `m` ticks (tick 0 counts).
pub open spec fn spec_clock_count(n: int, m: int) -> int {
    (n + m - 1) / m
}

/// One more master tick clocks a once-per-three component exactly when
/// the tick index is a multiple of three.
proof fn lemma_clock_count_step3(n: int)
    by (nonlinear_arith)
    requires
        n >= 0,
    ensures
        n % 3 == 0 ==> spec_clock_count(n + 1, 3) == spec_clock_count(n, 3) + 1,
        n % 3 != 0 ==> spec_clock_count(n + 1, 3) == spec_clock_count(n, 3),
{
}

/// One more master tick clocks a once-per-six component exactly when the
/// tick index is a multiple of six.
proof fn lemma_clock_count_step6(n: int)
    by (nonlinear_arith)
    requires
        n >= 0,
    ensures
        n % 6 == 0 ==> spec_clock_count(n + 1, 6) == spec_clock_count(n, 6) + 1,
        n % 6 != 0 ==> spec_clock_count(n + 1, 6) == spec_clock_count(n, 6),
{
}

/// One more APU sample advances the keep-one-in-twenty decimation.
proof fn lemma_downsample_step(a: int)
    by (nonlinear_arith)
    requires
        a >= 0,
    ensures
        a % 20 == 19 ==> (a + 1) / 20 == a / 20 + 1 && (a + 1) % 20 == 0,
        a % 20 != 19 ==> (a + 1) / 20 == a / 20 && (a + 1) % 20 == a % 20 + 1,
{
}

/// Representation of the NES system.
pub struct Nes {
    pub cpu: Cpu,
    pub ppu: Ppu,
    pub apu: Apu,
    pub joy: Joy,
    pub mapper: Option<Mapper>,
}

impl Nes {
    pub open spec fn wf(&self) -> bool {
        &&& self.cpu.wf()
        &&& self.ppu.wf()
        &&& self.apu.wf()
        &&& match self.mapper {
            Some(m) => m.wf(),
            None => true,
        }
    }

    /// An empty system with no cartridge.
    pub fn new() -> (r: Nes)
        ensures
            r.wf(),
            r.mapper is None,
            r.cpu.ticks@ == 0,
            r.ppu.dots@ == 0,
            r.apu.ticks@ == 0,
    {
        Nes { cpu: Cpu::new(), ppu: Ppu::new(), apu: Apu::new(), joy: Joy::new(), mapper: None }
    }

    /// Directly set the CPU entry point, overriding the reset vector.
    pub fn entry(self, entry_addr: u16) -> (r: Nes)
        requires
            self.wf(),
        ensures
            r.wf(),
            r.cpu == (Cpu { pc: entry_addr, entry: entry_addr, entry_set: true, ..self.cpu }),
            r.ppu == self.ppu,
            r.apu == self.apu,
            r.joy == self.joy,
            r.mapper == self.mapper,
    {
        let mut nes = self;
        nes.cpu.set_pc(entry_addr);
        nes
    }

    /// Builder function to allow inserting the cartridge: the result is
    /// `self` after `insert(cart)`.
    pub fn with_cart(self, cart: Cartridge) -> (r: Nes)
        requires
            self.wf(),
            cart.wf(),
        ensures
            r.wf(),
            r.cpu == self.cpu,
            r.apu == self.apu,
            r.joy == self.joy,
            cart.info.prg_rom_banks >= 1 && cart.info.mapper <= 4 ==> {
                &&& r.mapper is Some
                &&& r.mapper->0.battery == cart.info.battback_sram
                &&& r.mapper->0.sram@ == Seq::new(0x2000nat, |i: int| 0u8)
                &&& r.mapper->0.prg_rom@ == cart.prg_rom@
                &&& r.mapper->0.chr@ == cart.chr@
            },
            !(cart.info.prg_rom_banks >= 1 && cart.info.mapper <= 4) ==> r == self,
    {
        let mut nes = self;
        nes.insert(cart);
        nes
    }

    /// Builder function to set debug mode.
    pub fn debug_mode(self, debug: bool) -> (r: Nes)
        requires
            self.wf(),
        ensures
            r.wf(),
            r.cpu == (Cpu { debug, ..self.cpu }),
            r.ppu == self.ppu,
            r.apu == self.apu,
            r.joy == self.joy,
            r.mapper == self.mapper,
    {
        let mut nes = self;
        nes.cpu.set_debug(debug);
        nes
    }

    /// Load a cartridge. A cartridge without program banks or with a
    /// mapper this library does not implement aborts the insertion and
    /// leaves the system without one.
    pub fn insert(&mut self, cart: Cartridge)
        requires
            old(self).wf(),
            cart.wf(),
        ensures
            final(self).wf(),
            final(self).cpu == old(self).cpu,
            final(self).apu == old(self).apu,
            final(self).joy == old(self).joy,
            cart.info.prg_rom_banks >= 1 && cart.info.mapper <= 4 ==> {
                &&& final(self).mapper is Some
                &&& final(self).mapper->0.battery == cart.info.battback_sram
                &&& final(self).mapper->0.sram@ == Seq::new(0x2000nat, |i: int| 0u8)
                &&& final(self).mapper->0.prg_rom@ == cart.prg_rom@
                &&& final(self).mapper->0.chr@ == cart.chr@
                &&& final(self).mapper->0.chr_is_ram == cart.chr_is_ram
                &&& final(self).mapper->0.kind == (if cart.info.mapper == 0 {
                    crate::mapper::MapperKind::Nrom
                } else if cart.info.mapper == 1 {
                    crate::mapper::MapperKind::Mmc1
                } else if cart.info.mapper == 2 {
                    crate::mapper::MapperKind::Uxrom
                } else if cart.info.mapper == 3 {
                    crate::mapper::MapperKind::Cnrom
                } else {
                    crate::mapper::MapperKind::Mmc3
                })
                &&& final(self).mapper->0.mirroring == (if cart.info.four_screen_mode {
                    Mirroring::FourScreen
                } else if cart.info.mirror_v {
                    Mirroring::Vertical
                } else {
                    Mirroring::Horizontal
                })
                &&& final(self).ppu.bus.vertical_mirroring == (!cart.info.four_screen_mode
                    && cart.info.mirror_v)
            },
            !(cart.info.prg_rom_banks >= 1 && cart.info.mapper <= 4) ==> final(self).mapper
                == old(self).mapper && *final(self) == *old(self),
    {
        if cart.prg_rom.len() == 0 || cart.info.prg_rom_banks == 0 {
            return ;
        }
        match Mapper::from_cartridge(cart) {
            Ok(m) => {
                let v = match m.mirroring() {
                    Mirroring::Vertical => true,
                    _ => false,
                };
                self.ppu.bus.set_vertical_mirroring(v);
                self.mapper = Some(m);
            },
            Err(_) => {},
        }
    }

    /// Clock the NES components: the PPU always, the CPU and the APU when
    /// their select lines say so.
    fn clock_components(&mut self, clock_cpu: bool, clock_apu: bool) -> (r: (
        Option<Pixel>,
        Option<ApuSample>,
    ))
        requires
            old(self).wf(),
            old(self).mapper is Some,
        ensures
            final(self).wf(),
            final(self).mapper is Some,
            final(self).ppu.dots@ == old(self).ppu.dots@ + 1,
            final(self).cpu.ticks@ == old(self).cpu.ticks@ + (if clock_cpu {
                1int
            } else {
                0int
            }),
            final(self).apu.ticks@ == old(self).apu.ticks@ + (if clock_apu {
                1int
            } else {
                0int
            }),
            r.1 is Some <==> clock_apu,
            r.0 is Some <==> (0 <= old(self).ppu.scanline <= 239 && 1 <= old(self).ppu.dot
                <= 256),
            r.1 matches Some(s) ==> {
                &&& s.pulse1 == crate::chnl::spec_pulse_output(final(self).apu.pulse1)
                &&& s.pulse2 == crate::chnl::spec_pulse_output(final(self).apu.pulse2)
                &&& s.triangle == crate::chnl::spec_triangle_step(final(self).apu.triangle.seq_pos)
                &&& s.noise == 0
                &&& s.dmc == final(self).apu.dmc.level
            },
    {
        let mut mapper = self.mapper.take().unwrap();

        let pixel = self.ppu.tick(&mut mapper);
        if self.ppu.nmi_request {
            self.ppu.clear_nmi();
            self.cpu.raise_nmi();
        }

        if clock_cpu {
            let irq = self.apu.irq_pending() || mapper.irq_pending();
            self.cpu.set_irq_line(irq);
            crate::cpu::tick(&mut self.cpu, &mut self.ppu, &mut self.apu, &mut self.joy,
                &mut mapper);
        }

        let sample = if clock_apu {
            Some(self.apu.tick())
        } else {
            None
        };

        self.mapper = Some(mapper);
        (pixel, sample)
    }

    /// Run the emulator for a single frame: exactly 89342 PPU dots, with
    /// the CPU clocked on every third master tick (29781 cycles) and the
    /// APU on every sixth (14891 cycles). Returns the RGB frame and the
    /// down-sampled audio. Without a cartridge nothing is clocked and the
    /// frame is black.
    pub fn emulate_frame(&mut self) -> (r: (FrameBuffer, SampleBuffer))
        requires
            old(self).wf(),
        ensures
            final(self).wf(),
            r.0@.len() == FRAME_BUFFER_SIZE,
            old(self).mapper is Some ==> {
                &&& final(self).ppu.dots@ == old(self).ppu.dots@ + 89342
                &&& final(self).cpu.ticks@ == old(self).cpu.ticks@ + 29781
                &&& final(self).apu.ticks@ == old(self).apu.ticks@ + 14891
                &&& r.1@.len() == 744
            },
            old(self).mapper is None ==> *final(self) == *old(self) && r.0@ == Seq::new(
                FRAME_BUFFER_SIZE as nat,
                |i: int| 0u8,
            ) && r.1@ == Seq::<ApuSample>::empty(),
    {
        let mut framebuffer: Vec<u8> = Vec::new();
        let mut i: usize = 0;
        while i < FRAME_BUFFER_SIZE
            invariant
                i <= FRAME_BUFFER_SIZE,
                framebuffer@ == Seq::new(i as nat, |j: int| 0u8),
            decreases FRAME_BUFFER_SIZE - i,
        {
            framebuffer.push(0);
            proof {
                assert(framebuffer@ =~= Seq::new((i + 1) as nat, |j: int| 0u8));
            }
            i = i + 1;
        }
        let mut samplebuffer: SampleBuffer = Vec::new();
        let mut framebuffer_idx: usize = 0;
        let mut downsample_counter: usize = DOWNSAMPLE_RATE;

        if self.mapper.is_some() {
            let ghost t0 = self.cpu.ticks@;
            let ghost d0 = self.ppu.dots@;
            let ghost a0 = self.apu.ticks@;
            let mut count: usize = 0;
            while count < CYCLES_PER_FRAME
                invariant
                    count <= CYCLES_PER_FRAME,
                    self.wf(),
                    self.mapper is Some,
                    self.ppu.dots@ == d0 + count,
                    self.cpu.ticks@ == t0 + spec_clock_count(count as int, 3),
                    self.apu.ticks@ == a0 + spec_clock_count(count as int, 6),
                    framebuffer@.len() == FRAME_BUFFER_SIZE,
                    framebuffer_idx <= FRAME_BUFFER_SIZE,
                    samplebuffer@.len() == spec_clock_count(count as int, 6) / 20,
                    downsample_counter == DOWNSAMPLE_RATE - (spec_clock_count(count as int, 6)
                        % 20),
                    1 <= downsample_counter <= DOWNSAMPLE_RATE,
                decreases CYCLES_PER_FRAME - count,
            {
                proof {
                    lemma_clock_count_step3(count as int);
                    lemma_clock_count_step6(count as int);
                }
                let (pixel, sample) = self.clock_components(count % 3 == 0, count % 6 == 0);

                match pixel {
                    Some((red, green, blue)) => {
                        if framebuffer_idx + 3 <= FRAME_BUFFER_SIZE {
                            framebuffer[framebuffer_idx] = red;
                            framebuffer[framebuffer_idx + 1] = green;
                            framebuffer[framebuffer_idx + 2] = blue;
                            framebuffer_idx = framebuffer_idx + 3;
                        }
                    },
                    None => {},
                }

                match sample {
                    Some(s) => {
                        proof {
                            lemma_downsample_step(spec_clock_count(count as int, 6));
                        }
                        downsample_counter = downsample_counter - 1;
                        if downsample_counter == 0 {
                            downsample_counter = DOWNSAMPLE_RATE;
                            samplebuffer.push(s);
                        }
                    },
                    None => {},
                }

                count = count + 1;
            }
            proof {
                assert(spec_clock_count(89342int, 3) == 29781) by (nonlinear_arith);
                assert(spec_clock_count(89342int, 6) == 14891) by (nonlinear_arith);
                assert(14891int / 20 == 744) by (nonlinear_arith);
            }
        }

        (framebuffer, samplebuffer)
    }

    /// Apply a button input to controller 1.
    pub fn input(&mut self, btn: Button, pressed: bool)
        requires
            old(self).wf(),
        ensures
            final(self).wf(),
            final(self).cpu == old(self).cpu,
            final(self).ppu == old(self).ppu,
            final(self).apu == old(self).apu,
            final(self).mapper == old(self).mapper,
            final(self).joy.state1 == (if pressed {
                old(self).joy.state1 | crate::joy::spec_button_mask(btn)
            } else {
                old(self).joy.state1 & !crate::joy::spec_button_mask(btn)
            }),
            final(self).joy.state2 == old(self).joy.state2,
            final(self).joy.shift1 == old(self).joy.shift1,
            final(self).joy.shift2 == old(self).joy.shift2,
            final(self).joy.strobe == old(self).joy.strobe,
    {
        self.joy.input(btn, pressed);
    }

    /// Apply a button input to the given controller.
    pub fn controller_input(&mut self, controller: Controller, btn: Button, pressed: bool)
        requires
            old(self).wf(),
        ensures
            final(self).wf(),
            final(self).cpu == old(self).cpu,
            final(self).ppu == old(self).ppu,
            final(self).apu == old(self).apu,
            final(self).mapper == old(self).mapper,
            final(self).joy.state1 == (if controller == Controller::Input1 {
                if pressed {
                    old(self).joy.state1 | crate::joy::spec_button_mask(btn)
                } else {
                    old(self).joy.state1 & !crate::joy::spec_button_mask(btn)
                }
            } else {
                old(self).joy.state1
            }),
            final(self).joy.state2 == (if controller == Controller::Input2 {
                if pressed {
                    old(self).joy.state2 | crate::joy::spec_button_mask(btn)
                } else {
                    old(self).joy.state2 & !crate::joy::spec_button_mask(btn)
                }
            } else {
                old(self).joy.state2
            }),
            final(self).joy.shift1 == old(self).joy.shift1,
            final(self).joy.shift2 == old(self).joy.shift2,
            final(self).joy.strobe == old(self).joy.strobe,
    {
        self.joy.controller_input(controller, btn, pressed);
    }

    /// Run until the CPU's PC is at address `addr`, with no practical
    /// timeout (the tick budget spans millennia of emulated time);
    /// without a cartridge it returns at once.
    pub fn run_until(&mut self, addr: u16)
        requires
            old(self).wf(),
        ensures
            final(self).wf(),
            old(self).mapper is Some || *final(self) == *old(self),
            old(self).mapper is Some ==> final(self).mapper is Some,
            // on return the PC has been reached, unless the astronomical
            // tick budget ran dry first
            old(self).mapper is Some ==> final(self).cpu.pc == addr || final(self).cpu.ticks@
                == old(self).cpu.ticks@ + 0x4000_0000_0000_0000,
    {
        let mut budget: u64 = 0x4000_0000_0000_0000;
        if self.mapper.is_some() {
            let ghost t0 = self.cpu.ticks@;
            while self.get_program_counter() != addr && budget > 0
                invariant
                    self.wf(),
                    self.mapper is Some,
                    budget <= 0x4000_0000_0000_0000,
                    self.cpu.ticks@ == t0 + (0x4000_0000_0000_0000 - budget),
                decreases budget,
            {
                let _ = self.clock_components(true, false);
                budget = budget - 1;
            }
        }
    }

    /// Check if the CPU is in an infinite loop state.
    pub fn is_holding(&self) -> (r: bool)
        ensures
            r == self.cpu.holding,
    {
        self.cpu.is_holding()
    }

    /// Eject the cartridge, returning the battery-backed RAM: its exact
    /// bytes for a battery-backed board, and nothing at all otherwise.
    pub fn eject(self) -> (r: Vec<u8>)
        requires
            self.wf(),
        ensures
            match self.mapper {
                Some(m) => {
                    &&& (m.battery ==> r@ == m.sram@)
                    &&& (!m.battery ==> r@ == Seq::<u8>::empty())
                },
                None => r@ == Seq::<u8>::empty(),
            },
    {
        match self.mapper {
            Some(m) => m.get_battery_ram(),
            None => Vec::new(),
        }
    }

    /// Get the CPU's program counter.
    pub fn get_program_counter(&self) -> (r: u16)
        ensures
            r == self.cpu.pc,
    {
        self.cpu.get_pc()
    }

    /// Read the byte, at the specified address, from CPU's internal RAM.
    pub fn read_cpu_ram(&self, addr: u16) -> (r: u8)
        requires
            self.wf(),
        ensures
            r == self.cpu.ram@[(addr & 0x07FF) as int],
    {
        self.cpu.read_ram(addr)
    }

    /// Read directly from VRAM. Without a cartridge the pattern tables
    /// are unmapped and every read yields zero.
    pub fn read_ppu_memory(&self, addr: u16) -> (r: u8)
        requires
            self.wf(),
            addr < 0x4000,
    {
        match &self.mapper {
            Some(m) => self.ppu.read_vram(m, addr),
            None => 0,
        }
    }

    /// Read a tile from the given nametable.
    pub fn read_tile(&self, nametable: u16, x: usize, y: usize) -> (r: u8)
        requires
            self.wf(),
            0x2000 <= nametable <= 0x2C00,
            x < 32,
            y < 30,
    {
        self.ppu.read_tile(nametable, x, y)
    }
}

impl Default for Nes {
    /// An empty system, as `new` builds it.
    fn default() -> (r: Nes)
        ensures
            r.wf(),
            r.mapper is None,
    {
        Nes::new()
    }
}

/// The battery RAM a board hands back at eject reflects every byte
/// written through $6000-$7FFF: writing and then taking the snapshot
/// reads the written value back.
pub proof fn lemma_battery_ram_round_trip(m1: Mapper, m2: Mapper, addr: u16, data: u8)
    requires
        m1.wf(),
        m1.battery,
        0x6000 <= addr < 0x8000,
        m2.battery == m1.battery,
        m2.sram@ == m1.sram@.update(addr - 0x6000, data),
    ensures
        m2.sram@[addr - 0x6000] == data,
        forall|j: int|
            0 <= j < m1.sram@.len() && j != addr - 0x6000 ==> m2.sram@[j] == m1.sram@[j],
{
}

} // verus!
