//! The audio processing unit: two pulse channels, a triangle, a noise and a
//! delta modulation channel, clocked by a 4-step or 5-step frame sequencer.
//!
//! One APU cycle spans two CPU cycles. Each tick yields the five channel
//! levels; turning them into one analog sample is the caller's mixer's job.

use crate::chnl::{Dmc, Noise, Pulse, Triangle};
use vstd::prelude::*;

verus! {

/// The five channel levels at one APU clock: the inputs of the mixer.
/// The tone channels range over 0-15, the DMC level over 0-127.
#[derive(Debug, PartialEq, Eq, Structural, Clone, Copy)]
pub struct ApuSample {
    pub pulse1: u8,
    pub pulse2: u8,
    pub triangle: u8,
    pub noise: u8,
    pub dmc: u8,
}

/// CPU cycles after which the three quarter-frame events of both sequencer
/// modes fire, and the fourth and fifth ends of sequence.
pub const FRAME_STEP_1: u32 = 7457;

pub const FRAME_STEP_2: u32 = 14913;

pub const FRAME_STEP_3: u32 = 22371;

pub const FRAME_STEP_4: u32 = 29829;

pub const FRAME_STEP_5: u32 = 37281;

/// The audio processing unit.
pub struct Apu {
    pub pulse1: Pulse,
    pub pulse2: Pulse,
    pub triangle: Triangle,
    pub noise: Noise,
    pub dmc: Dmc,
    /// Frame sequencer mode: 5-step when set, 4-step otherwise.
    pub mode5: bool,
    /// $4017 bit 6: no frame IRQ when set.
    pub irq_inhibit: bool,
    /// The frame counter's IRQ line.
    pub frame_irq: bool,
    /// CPU cycles into the current frame sequence.
    pub seq_counter: u32,
    /// Which sequencer step fires next, 0-4.
    pub seq_step: u8,
    /// APU cycles ever ticked, for stating clock laws.
    pub ticks: Ghost<int>,
}

/// How far the sequence counter can be into each step before that step's
/// boundary must have fired.
pub open spec fn spec_step_bound(step: u8) -> u32 {
    if step == 0 {
        (FRAME_STEP_1 + 2) as u32
    } else if step == 1 {
        (FRAME_STEP_2 + 2) as u32
    } else if step == 2 {
        (FRAME_STEP_3 + 2) as u32
    } else if step == 3 {
        (FRAME_STEP_4 + 2) as u32
    } else {
        (FRAME_STEP_5 + 2) as u32
    }
}

impl Apu {
    /// The channels' own invariants.
    pub open spec fn wf_channels(&self) -> bool {
        &&& self.pulse1.wf()
        &&& self.pulse2.wf()
        &&& self.triangle.wf()
    }

    pub open spec fn wf(&self) -> bool {
        &&& self.wf_channels()
        &&& self.seq_step <= 4
        &&& self.seq_counter <= spec_step_bound(self.seq_step)
    }

    pub fn new() -> (r: Apu)
        ensures
            r.wf(),
            r.ticks@ == 0,
            !r.frame_irq,
            r.pulse1.lenctr.counter == 0,
            r.pulse2.lenctr.counter == 0,
            r.triangle.lenctr.counter == 0,
            r.noise.lenctr.counter == 0,
    {
        Apu {
            pulse1: Pulse::new(false),
            pulse2: Pulse::new(true),
            triangle: Triangle::new(),
            noise: Noise::new(),
            dmc: Dmc::new(),
            mode5: false,
            irq_inhibit: false,
            frame_irq: false,
            seq_counter: 0,
            seq_step: 0,
            ticks: Ghost(0),
        }
    }

    /// Quarter-frame event: envelopes and the triangle's linear counter.
    fn quarter_frame(&mut self)
        requires
            old(self).wf_channels(),
        ensures
            final(self).wf_channels(),
            final(self).ticks == old(self).ticks,
            final(self).seq_counter == old(self).seq_counter,
            final(self).seq_step == old(self).seq_step,
            final(self).frame_irq == old(self).frame_irq,
            final(self).mode5 == old(self).mode5,
            final(self).irq_inhibit == old(self).irq_inhibit,
    {
        self.pulse1.quarter_frame();
        self.pulse2.quarter_frame();
        self.triangle.quarter_frame();
    }

    /// Half-frame event: length counters and sweeps.
    fn half_frame(&mut self)
        requires
            old(self).wf_channels(),
        ensures
            final(self).wf_channels(),
            final(self).ticks == old(self).ticks,
            final(self).seq_counter == old(self).seq_counter,
            final(self).seq_step == old(self).seq_step,
            final(self).frame_irq == old(self).frame_irq,
            final(self).mode5 == old(self).mode5,
            final(self).irq_inhibit == old(self).irq_inhibit,
    {
        self.pulse1.half_frame();
        self.pulse2.half_frame();
        self.triangle.half_frame();
        self.noise.lenctr.tick();
    }

    /// Advance the frame sequencer by two CPU cycles, firing the events of
    /// any step boundary crossed. In 4-step mode the last step raises the
    /// frame IRQ unless inhibited; the 5-step mode never does.
    fn clock_frame_sequencer(&mut self)
        requires
            old(self).wf(),
        ensures
            final(self).wf(),
            final(self).ticks == old(self).ticks,
            final(self).mode5 == old(self).mode5,
            final(self).irq_inhibit == old(self).irq_inhibit,
            final(self).frame_irq ==> old(self).frame_irq || (!old(self).mode5 && !old(
                self,
            ).irq_inhibit),
    {
        self.seq_counter = self.seq_counter + 2;
        if self.seq_step == 0 {
            if self.seq_counter >= FRAME_STEP_1 {
                self.quarter_frame();
                self.seq_step = 1;
            }
        } else if self.seq_step == 1 {
            if self.seq_counter >= FRAME_STEP_2 {
                self.quarter_frame();
                self.half_frame();
                self.seq_step = 2;
            }
        } else if self.seq_step == 2 {
            if self.seq_counter >= FRAME_STEP_3 {
                self.quarter_frame();
                self.seq_step = 3;
            }
        } else if self.seq_step == 3 {
            if !self.mode5 {
                if self.seq_counter >= FRAME_STEP_4 {
                    self.quarter_frame();
                    self.half_frame();
                    if !self.irq_inhibit {
                        self.frame_irq = true;
                    }
                    self.seq_step = 0;
                    self.seq_counter = 0;
                }
            } else {
                if self.seq_counter >= FRAME_STEP_4 {
                    // the 5-step sequence idles here
                    self.seq_step = 4;
                }
            }
        } else {
            if self.seq_counter >= FRAME_STEP_5 {
                self.quarter_frame();
                self.half_frame();
                self.seq_step = 0;
                self.seq_counter = 0;
            }
        }
    }

    /// One APU cycle: clock the frame sequencer and every channel timer
    /// (the triangle's at CPU rate, twice per APU cycle), then sample the
    /// channel outputs.
    pub fn tick(&mut self) -> (r: ApuSample)
        requires
            old(self).wf(),
        ensures
            final(self).wf(),
            final(self).ticks@ == old(self).ticks@ + 1,
            r.pulse1 == crate::chnl::spec_pulse_output(final(self).pulse1),
            r.pulse2 == crate::chnl::spec_pulse_output(final(self).pulse2),
            r.triangle == crate::chnl::spec_triangle_step(final(self).triangle.seq_pos),
            r.noise == 0,
            r.dmc == final(self).dmc.level,
            crate::chnl::spec_sweep_mutes(final(self).pulse1.sweep, final(self).pulse1.timer_period)
                ==> r.pulse1 == 0,
            crate::chnl::spec_sweep_mutes(final(self).pulse2.sweep, final(self).pulse2.timer_period)
                ==> r.pulse2 == 0,
            r.pulse1 <= 15,
            r.pulse2 <= 15,
            r.triangle <= 15,
            r.noise <= 15,
    {
        self.ticks = Ghost(self.ticks@ + 1);
        self.clock_frame_sequencer();
        self.pulse1.clock_timer();
        self.pulse2.clock_timer();
        self.triangle.clock_timer();
        self.triangle.clock_timer();
        self.noise.tick();
        ApuSample {
            pulse1: self.pulse1.output(),
            pulse2: self.pulse2.output(),
            triangle: self.triangle.output(),
            noise: 0,
            dmc: self.dmc.output(),
        }
    }

    /// A write to one of the APU registers $4000-$4013, $4015 or $4017.
    pub fn write_byte(&mut self, addr: u16, data: u8)
        requires
            old(self).wf(),
            0x4000 <= addr <= 0x4017,
            addr != 0x4014,
            addr != 0x4016,
        ensures
            final(self).wf(),
            final(self).ticks == old(self).ticks,
            addr <= 0x4003 ==> {
                &&& final(self).pulse2 == old(self).pulse2
                &&& final(self).triangle == old(self).triangle
                &&& final(self).noise == old(self).noise
                &&& final(self).dmc == old(self).dmc
            },
            0x4004 <= addr <= 0x4007 ==> {
                &&& final(self).pulse1 == old(self).pulse1
                &&& final(self).triangle == old(self).triangle
                &&& final(self).noise == old(self).noise
                &&& final(self).dmc == old(self).dmc
            },
            0x4008 <= addr <= 0x400B ==> {
                &&& final(self).pulse1 == old(self).pulse1
                &&& final(self).pulse2 == old(self).pulse2
                &&& final(self).noise == old(self).noise
                &&& final(self).dmc == old(self).dmc
            },
            0x400C <= addr <= 0x400F ==> {
                &&& final(self).pulse1 == old(self).pulse1
                &&& final(self).pulse2 == old(self).pulse2
                &&& final(self).triangle == old(self).triangle
                &&& final(self).dmc == old(self).dmc
            },
            0x4010 <= addr <= 0x4013 ==> {
                &&& final(self).pulse1 == old(self).pulse1
                &&& final(self).pulse2 == old(self).pulse2
                &&& final(self).triangle == old(self).triangle
                &&& final(self).noise == old(self).noise
            },
            addr == 0x4015 ==> {
                &&& final(self).pulse1.lenctr.enabled == (data & 0x01 != 0)
                &&& final(self).pulse2.lenctr.enabled == (data & 0x02 != 0)
                &&& final(self).triangle.lenctr.enabled == (data & 0x04 != 0)
                &&& final(self).noise.lenctr.enabled == (data & 0x08 != 0)
                &&& (data & 0x01 == 0 ==> final(self).pulse1.lenctr.counter == 0)
                &&& (data & 0x02 == 0 ==> final(self).pulse2.lenctr.counter == 0)
                &&& (data & 0x04 == 0 ==> final(self).triangle.lenctr.counter == 0)
                &&& (data & 0x08 == 0 ==> final(self).noise.lenctr.counter == 0)
            },
            addr == 0x4017 ==> {
                &&& final(self).mode5 == (data & 0x80 != 0)
                &&& final(self).irq_inhibit == (data & 0x40 != 0)
                &&& final(self).seq_counter == 0
                &&& final(self).seq_step == 0
                &&& (data & 0x40 != 0 ==> !final(self).frame_irq)
            },
    {
        if addr <= 0x4003 {
            self.pulse1.write_reg(addr - 0x4000, data);
        } else if addr <= 0x4007 {
            self.pulse2.write_reg(addr - 0x4004, data);
        } else if addr <= 0x400B {
            self.triangle.write_reg(addr - 0x4008, data);
        } else if addr <= 0x400F {
            self.noise.write_byte(addr - 0x400C, data);
        } else if addr <= 0x4013 {
            self.dmc.write_reg(addr - 0x4010, data);
        } else if addr == 0x4015 {
            self.pulse1.lenctr.set_enabled(crate::bits::mask_is_set(data, 0x01));
            self.pulse2.lenctr.set_enabled(crate::bits::mask_is_set(data, 0x02));
            self.triangle.lenctr.set_enabled(crate::bits::mask_is_set(data, 0x04));
            self.noise.lenctr.set_enabled(crate::bits::mask_is_set(data, 0x08));
        } else {
            // $4017: frame counter control
            self.mode5 = crate::bits::mask_is_set(data, 0x80);
            self.irq_inhibit = crate::bits::mask_is_set(data, 0x40);
            if self.irq_inhibit {
                self.frame_irq = false;
            }
            self.seq_counter = 0;
            self.seq_step = 0;
            if self.mode5 {
                // entering 5-step mode fires both events at once
                self.quarter_frame();
                self.half_frame();
            }
        }
    }

    /// A read of the status register $4015: which length counters are
    /// live and whether the frame IRQ is pending; the read clears the
    /// frame IRQ.
    pub fn read_status(&mut self) -> (r: u8)
        ensures
            !final(self).frame_irq,
            final(self).ticks == old(self).ticks,
            r == ((if old(self).pulse1.lenctr.counter > 0 {
                0x01u8
            } else {
                0
            }) | (if old(self).pulse2.lenctr.counter > 0 {
                0x02u8
            } else {
                0
            }) | (if old(self).triangle.lenctr.counter > 0 {
                0x04u8
            } else {
                0
            }) | (if old(self).noise.lenctr.counter > 0 {
                0x08u8
            } else {
                0
            }) | (if old(self).frame_irq {
                0x40u8
            } else {
                0
            })),
            final(self).pulse1 == old(self).pulse1,
            final(self).pulse2 == old(self).pulse2,
            final(self).triangle == old(self).triangle,
            final(self).noise == old(self).noise,
            final(self).seq_counter == old(self).seq_counter,
            final(self).seq_step == old(self).seq_step,
    {
        let r: u8 = (if self.pulse1.lenctr.counter > 0 {
            0x01u8
        } else {
            0
        }) | (if self.pulse2.lenctr.counter > 0 {
            0x02u8
        } else {
            0
        }) | (if self.triangle.lenctr.counter > 0 {
            0x04u8
        } else {
            0
        }) | (if self.noise.lenctr.counter > 0 {
            0x08u8
        } else {
            0
        }) | (if self.frame_irq {
            0x40u8
        } else {
            0
        });
        self.frame_irq = false;
        r
    }

    /// Whether the APU is holding its IRQ line up.
    pub fn irq_pending(&self) -> (r: bool)
        ensures
            r == self.frame_irq,
    {
        self.frame_irq
    }
}

} // verus!
