//! The building blocks of the APU's channels: dividers, length counters,
//! envelopes, sweeps, and the five channels assembled from them.

use vstd::prelude::*;

verus! {

/// How far an envelope decays when it restarts.
pub const DECAY_RELOAD: u8 = 15;

/// A down counter that signals once per `period + 1` clocks.
#[derive(Default, Clone, Copy)]
pub struct Divider {
    pub period: u32,
    pub counter: u32,
}

impl Divider {
    /// Set the period and reload the counter.
    pub fn set_period(&mut self, period: u32)
        ensures
            final(self).period == period,
            final(self).counter == period,
    {
        self.period = period;
        self.counter = period;
    }

    /// Count down; on expiry reload and report it.
    pub fn tick(&mut self) -> (r: bool)
        ensures
            r == (old(self).counter == 0),
            final(self).period == old(self).period,
            final(self).counter == (if old(self).counter == 0 {
                old(self).period
            } else {
                (old(self).counter - 1) as u32
            }),
    {
        if self.counter == 0 {
            self.counter = self.period;
            true
        } else {
            self.counter = self.counter - 1;
            false
        }
    }
}

/// The canonical table of length counter loads, indexed by the 5-bit value
/// written to a channel's length register.
pub open spec fn spec_length_table(i: int) -> u8 {
    if i == 0 {
        10
    } else if i == 1 {
        254
    } else if i == 2 {
        20
    } else if i == 3 {
        2
    } else if i == 4 {
        40
    } else if i == 5 {
        4
    } else if i == 6 {
        80
    } else if i == 7 {
        6
    } else if i == 8 {
        160
    } else if i == 9 {
        8
    } else if i == 10 {
        60
    } else if i == 11 {
        10
    } else if i == 12 {
        14
    } else if i == 13 {
        12
    } else if i == 14 {
        26
    } else if i == 15 {
        14
    } else if i == 16 {
        12
    } else if i == 17 {
        16
    } else if i == 18 {
        24
    } else if i == 19 {
        18
    } else if i == 20 {
        48
    } else if i == 21 {
        20
    } else if i == 22 {
        96
    } else if i == 23 {
        22
    } else if i == 24 {
        192
    } else if i == 25 {
        24
    } else if i == 26 {
        72
    } else if i == 27 {
        26
    } else if i == 28 {
        16
    } else if i == 29 {
        28
    } else if i == 30 {
        32
    } else {
        30
    }
}

/// The canonical length value for a 5-bit load index.
pub fn length_table(i: usize) -> (r: u8)
    requires
        i < 32,
    ensures
        r == spec_length_table(i as int),
{
    match i {
        0 => 10,
        1 => 254,
        2 => 20,
        3 => 2,
        4 => 40,
        5 => 4,
        6 => 80,
        7 => 6,
        8 => 160,
        9 => 8,
        10 => 60,
        11 => 10,
        12 => 14,
        13 => 12,
        14 => 26,
        15 => 14,
        16 => 12,
        17 => 16,
        18 => 24,
        19 => 18,
        20 => 48,
        21 => 20,
        22 => 96,
        23 => 22,
        24 => 192,
        25 => 24,
        26 => 72,
        27 => 26,
        28 => 16,
        29 => 28,
        30 => 32,
        _ => 30,
    }
}

/// A channel's length counter: loaded from the canonical table, counting
/// toward zero on half-frame clocks unless halted; zero silences the channel.
#[derive(Default, Clone, Copy)]
pub struct LengthCounter {
    pub counter: u8,
    pub halt: bool,
    pub enabled: bool,
}

impl LengthCounter {
    pub fn set_halt(&mut self, halt: bool)
        ensures
            *final(self) == (LengthCounter { halt, ..*old(self) }),
    {
        self.halt = halt;
    }

    /// Enable or disable the channel; disabling clears the counter.
    pub fn set_enabled(&mut self, enabled: bool)
        ensures
            final(self).enabled == enabled,
            final(self).halt == old(self).halt,
            final(self).counter == (if enabled {
                old(self).counter
            } else {
                0
            }),
    {
        self.enabled = enabled;
        if !enabled {
            self.counter = 0;
        }
    }

    /// Load the counter from the canonical table; the value loaded is
    /// exactly the table entry for `index`.
    pub fn load(&mut self, index: usize)
        requires
            index < 32,
        ensures
            final(self).counter == (if old(self).enabled {
                spec_length_table(index as int)
            } else {
                old(self).counter
            }),
            final(self).halt == old(self).halt,
            final(self).enabled == old(self).enabled,
    {
        if self.enabled {
            self.counter = length_table(index);
        }
    }

    /// Half-frame clock: count toward zero when enabled and not halted.
    pub fn tick(&mut self)
        ensures
            final(self).counter == (if !old(self).halt && old(self).counter > 0 {
                (old(self).counter - 1) as u8
            } else {
                old(self).counter
            }),
            final(self).halt == old(self).halt,
            final(self).enabled == old(self).enabled,
    {
        if !self.halt && self.counter > 0 {
            self.counter = self.counter - 1;
        }
    }

    /// A zero counter silences the channel.
    pub fn silenced(&self) -> (r: bool)
        ensures
            r == (self.counter == 0),
    {
        self.counter == 0
    }
}

/// A unit owning an envelope that the frame sequencer clocks.
pub trait EnvelopeUnit {
    fn clock_envelope(&mut self);
}

/// The envelope generator: a divider driving a 15-to-0 decay level, with a
/// constant-volume override and a loop flag.
#[derive(Default, Clone, Copy)]
pub struct Envelope {
    pub divider: Divider,
    pub decay: u8,
    pub volume: u8,
    pub constant: bool,
    pub loop_flag: bool,
    pub start_flag: bool,
}

impl Envelope {
    /// Quarter-frame clock. A pending start reloads the decay counter and
    /// the divider; otherwise the divider steps the decay toward zero,
    /// wrapping back to 15 only when looping.
    pub fn tick(&mut self)
        ensures
            final(self).volume == old(self).volume,
            final(self).constant == old(self).constant,
            final(self).loop_flag == old(self).loop_flag,
            old(self).start_flag ==> {
                &&& !final(self).start_flag
                &&& final(self).divider.period == old(self).volume
                &&& final(self).divider.counter == old(self).volume
                &&& final(self).decay == DECAY_RELOAD
            },
            !old(self).start_flag ==> {
                &&& final(self).start_flag == old(self).start_flag
                &&& final(self).divider.period == old(self).divider.period
                &&& final(self).divider.counter == (if old(self).divider.counter == 0 {
                    old(self).divider.period
                } else {
                    (old(self).divider.counter - 1) as u32
                })
                &&& final(self).decay == (if old(self).divider.counter == 0 {
                    if old(self).decay == 0 {
                        if old(self).loop_flag {
                            DECAY_RELOAD
                        } else {
                            0
                        }
                    } else {
                        (old(self).decay - 1) as u8
                    }
                } else {
                    old(self).decay
                })
            },
    {
        if !self.start_flag {
            if self.divider.tick() {
                if self.decay == 0 {
                    if self.loop_flag {
                        self.decay = DECAY_RELOAD;
                    }
                } else {
                    self.decay = self.decay - 1;
                }
            }
        } else {
            self.start_flag = false;
            self.divider.set_period(self.volume as u32);
            self.decay = DECAY_RELOAD;
        }
    }

    pub fn set_volume(&mut self, volume: u8)
        ensures
            *final(self) == (Envelope { volume, ..*old(self) }),
    {
        self.volume = volume;
    }

    pub fn set_loop(&mut self, loop_flag: bool)
        ensures
            *final(self) == (Envelope { loop_flag, ..*old(self) }),
    {
        self.loop_flag = loop_flag;
    }

    pub fn set_constant(&mut self, constant: bool)
        ensures
            *final(self) == (Envelope { constant, ..*old(self) }),
    {
        self.constant = constant;
    }

    pub fn start(&mut self)
        ensures
            *final(self) == (Envelope { start_flag: true, ..*old(self) }),
    {
        self.start_flag = true;
    }

    /// The channel volume: the constant volume or the decay level.
    pub fn output(&self) -> (r: u8)
        ensures
            r == (if self.constant {
                self.volume
            } else {
                self.decay
            }),
    {
        if self.constant {
            self.volume
        } else {
            self.decay
        }
    }
}

/// A pulse channel's sweep unit.
#[derive(Default, Clone, Copy)]
pub struct Sweep {
    pub enabled: bool,
    /// Divider period, 3 bits.
    pub period: u8,
    pub negate: bool,
    /// Shift count, 3 bits.
    pub shift: u8,
    pub reload: bool,
    pub counter: u8,
    /// Pulse 2 subtracts the ones-complement way: one less than pulse 1.
    pub ones_complement: bool,
}

/// The period the sweep is aiming at: the current period plus or minus the
/// period shifted right by the shift count. May be negative when negating.
pub open spec fn spec_sweep_target(s: Sweep, period: u16) -> int {
    let delta = (period >> (s.shift as u16)) as int;
    if s.negate {
        period - delta - (if s.ones_complement {
            1int
        } else {
            0int
        })
    } else {
        period + delta
    }
}

/// A sweep in this state mutes its channel outright: the current period is
/// under 8 or the target period overflows 11 bits.
pub open spec fn spec_sweep_mutes(s: Sweep, period: u16) -> bool {
    period < 8 || spec_sweep_target(s, period) > 0x7FF
}

/// One of the two square-wave channels: duty sequencer, timer, envelope,
/// sweep and length counter.
#[derive(Default, Clone, Copy)]
pub struct Pulse {
    pub envelope: Envelope,
    pub sweep: Sweep,
    pub lenctr: LengthCounter,
    /// Duty cycle selector, 0-3.
    pub duty: u8,
    /// Position in the 8-step duty sequence.
    pub duty_pos: u8,
    /// Timer period, 11 bits.
    pub timer_period: u16,
    pub timer: u16,
}

/// The volume a pulse channel in this state puts out: zero when the
/// sweep mutes it, its length counter ran out, or the duty sequence is
/// low; otherwise the envelope's constant volume or decay level.
pub open spec fn spec_pulse_output(p: Pulse) -> u8 {
    if spec_sweep_mutes(p.sweep, p.timer_period) || p.lenctr.counter == 0 || !spec_duty_bit(
        p.duty,
        p.duty_pos,
    ) {
        0
    } else if p.envelope.constant {
        p.envelope.volume
    } else {
        p.envelope.decay
    }
}

/// Whether the duty sequence for `duty` outputs a high at `pos`.
pub open spec fn spec_duty_bit(duty: u8, pos: u8) -> bool {
    let row: u8 = if duty == 0 {
        0x40
    } else if duty == 1 {
        0x60
    } else if duty == 2 {
        0x78
    } else {
        0x9F
    };
    (row >> ((7 - pos) as u8)) & 1 == 1
}

impl Pulse {
    /// Every field that a proof about a pulse channel leans on stays in
    /// range: duty and sequence position, shift, and the 11-bit periods.
    pub open spec fn wf(&self) -> bool {
        &&& self.duty < 4
        &&& self.duty_pos < 8
        &&& self.timer_period <= 0x7FF
        &&& self.sweep.shift < 8
        &&& self.sweep.period < 8
        &&& self.envelope.volume <= 15
        &&& self.envelope.decay <= 15
    }

    pub fn new(ones_complement: bool) -> (r: Pulse)
        ensures
            r.wf(),
            r.sweep.ones_complement == ones_complement,
            r.lenctr.counter == 0,
    {
        let p = Pulse {
            envelope: Envelope {
                divider: Divider { period: 0, counter: 0 },
                decay: 0,
                volume: 0,
                constant: false,
                loop_flag: false,
                start_flag: false,
            },
            sweep: Sweep {
                enabled: false,
                period: 0,
                negate: false,
                shift: 0,
                reload: false,
                counter: 0,
                ones_complement,
            },
            lenctr: LengthCounter { counter: 0, halt: false, enabled: false },
            duty: 0,
            duty_pos: 0,
            timer_period: 0,
            timer: 0,
        };
        p
    }

    /// A write to one of the channel's four registers.
    pub fn write_reg(&mut self, reg: u16, data: u8)
        requires
            reg <= 3,
            old(self).wf(),
        ensures
            final(self).wf(),
            final(self).sweep.ones_complement == old(self).sweep.ones_complement,
            reg == 0 ==> {
                &&& final(self).duty == data >> 6
                &&& final(self).lenctr.halt == (data & 0x20 != 0)
                &&& final(self).envelope.loop_flag == (data & 0x20 != 0)
                &&& final(self).envelope.constant == (data & 0x10 != 0)
                &&& final(self).envelope.volume == data & 0x0F
                &&& final(self).timer_period == old(self).timer_period
                &&& final(self).lenctr.counter == old(self).lenctr.counter
            },
            reg == 1 ==> {
                &&& final(self).sweep.enabled == (data & 0x80 != 0)
                &&& final(self).sweep.period == (data >> 4) & 0x07
                &&& final(self).sweep.negate == (data & 0x08 != 0)
                &&& final(self).sweep.shift == data & 0x07
                &&& final(self).sweep.reload
                &&& final(self).timer_period == old(self).timer_period
                &&& final(self).lenctr == old(self).lenctr
            },
            reg == 2 ==> {
                &&& final(self).timer_period == (old(self).timer_period & 0x0700) | data as u16
                &&& final(self).lenctr == old(self).lenctr
            },
            reg == 3 ==> {
                &&& final(self).timer_period == (old(self).timer_period & 0x00FF) | ((
                (data & 0x07) as u16) << 8)
                &&& final(self).lenctr.counter == (if old(self).lenctr.enabled {
                    spec_length_table((data >> 3) as int)
                } else {
                    old(self).lenctr.counter
                })
                &&& final(self).envelope.start_flag
                &&& final(self).duty_pos == 0
            },
    {
        if reg == 0 {
            let duty = data >> 6;
            proof {
                assert(data >> 6 < 4 && data & 0x0F <= 15) by (bit_vector);
            }
            self.duty = duty;
            let halt = crate::bits::mask_is_set(data, 0x20);
            self.lenctr.set_halt(halt);
            self.envelope.set_loop(halt);
            self.envelope.set_constant(crate::bits::mask_is_set(data, 0x10));
            self.envelope.set_volume(data & 0x0F);
        } else if reg == 1 {
            proof {
                assert((data >> 4) & 0x07 < 8 && data & 0x07 < 8) by (bit_vector);
            }
            self.sweep.enabled = crate::bits::mask_is_set(data, 0x80);
            self.sweep.period = (data >> 4) & 0x07;
            self.sweep.negate = crate::bits::mask_is_set(data, 0x08);
            self.sweep.shift = data & 0x07;
            self.sweep.reload = true;
        } else if reg == 2 {
            let tp = self.timer_period;
            proof {
                assert(tp <= 0x7FF ==> ((tp & 0x0700) | data as u16) <= 0x7FF) by (bit_vector);
            }
            self.timer_period = (tp & 0x0700) | data as u16;
        } else {
            let tp = self.timer_period;
            proof {
                assert(((tp & 0x00FF) | (((data & 0x07) as u16) << 8)) <= 0x7FF && data >> 3 < 32)
                    by (bit_vector);
            }
            self.timer_period = (tp & 0x00FF) | (((data & 0x07) as u16) << 8);
            self.lenctr.load((data >> 3) as usize);
            self.envelope.start();
            self.duty_pos = 0;
        }
    }

    /// One APU-cycle clock of the timer; on expiry the duty sequence
    /// advances one step.
    pub fn clock_timer(&mut self)
        requires
            old(self).wf(),
        ensures
            final(self).wf(),
            final(self).duty_pos == (if old(self).timer == 0 {
                ((old(self).duty_pos + 1) % 8) as u8
            } else {
                old(self).duty_pos
            }),
            final(self).timer == (if old(self).timer == 0 {
                old(self).timer_period
            } else {
                (old(self).timer - 1) as u16
            }),
            final(self).envelope == old(self).envelope,
            final(self).lenctr == old(self).lenctr,
            final(self).sweep == old(self).sweep,
            final(self).timer_period == old(self).timer_period,
            final(self).duty == old(self).duty,
    {
        if self.timer == 0 {
            self.timer = self.timer_period;
            self.duty_pos = (self.duty_pos + 1) % 8;
        } else {
            self.timer = self.timer - 1;
        }
    }

    /// The period the sweep is aiming at, clamped at zero.
    pub fn sweep_target(&self) -> (r: u16)
        requires
            self.wf(),
        ensures
            r == (if spec_sweep_target(self.sweep, self.timer_period) < 0 {
                0
            } else {
                spec_sweep_target(self.sweep, self.timer_period)
            }),
    {
        let delta = self.timer_period >> (self.sweep.shift as u16);
        proof {
            let tp = self.timer_period;
            let sh = self.sweep.shift as u16;
            assert(tp >> sh <= tp) by (bit_vector);
        }
        if self.sweep.negate {
            let sub = delta + (if self.sweep.ones_complement {
                1
            } else {
                0
            });
            if sub > self.timer_period {
                0
            } else {
                self.timer_period - sub
            }
        } else {
            self.timer_period + delta
        }
    }

    /// Whether the sweep mutes the channel this cycle.
    pub fn sweep_mutes(&self) -> (r: bool)
        requires
            self.wf(),
        ensures
            r == spec_sweep_mutes(self.sweep, self.timer_period),
    {
        self.timer_period < 8 || self.sweep_target() > 0x7FF
    }

    /// Half-frame clock: length counter, then the sweep divider; on expiry
    /// an enabled, unmuted sweep with a non-zero shift adopts the target.
    pub fn half_frame(&mut self)
        requires
            old(self).wf(),
        ensures
            final(self).wf(),
    {
        self.lenctr.tick();
        if self.sweep.reload {
            self.sweep.counter = self.sweep.period;
            self.sweep.reload = false;
        } else if self.sweep.counter > 0 {
            self.sweep.counter = self.sweep.counter - 1;
        } else {
            self.sweep.counter = self.sweep.period;
            if self.sweep.enabled && self.sweep.shift != 0 && !self.sweep_mutes() {
                let target = self.sweep_target();
                if target <= 0x7FF {
                    self.timer_period = target;
                }
            }
        }
    }

    /// Quarter-frame clock: the envelope.
    pub fn quarter_frame(&mut self)
        requires
            old(self).wf(),
        ensures
            final(self).wf(),
    {
        self.envelope.tick();
    }

    /// The channel's current volume. Zero whenever the sweep mutes the
    /// channel (in particular whenever the sweep target exceeds $7FF), the
    /// length counter has run out, or the duty sequence is low.
    pub fn output(&self) -> (r: u8)
        requires
            self.wf(),
        ensures
            r == spec_pulse_output(*self),
            spec_sweep_target(self.sweep, self.timer_period) > 0x7FF ==> r == 0,
            r <= 15,
    {
        let row: u8 = if self.duty == 0 {
            0x40
        } else if self.duty == 1 {
            0x60
        } else if self.duty == 2 {
            0x78
        } else {
            0x9F
        };
        let bit = (row >> (7 - self.duty_pos)) & 1;
        if self.sweep_mutes() || self.lenctr.silenced() || bit != 1 {
            0
        } else {
            self.envelope.output()
        }
    }
}

/// The triangle channel: a 32-step sequencer gated by both the length
/// counter and the linear counter.
#[derive(Default, Clone, Copy)]
pub struct Triangle {
    pub lenctr: LengthCounter,
    pub linear_counter: u8,
    /// Reload value for the linear counter, 7 bits.
    pub linear_reload_value: u8,
    pub linear_reload: bool,
    /// Control flag: halts the length counter and keeps the reload flag.
    pub control: bool,
    /// Timer period, 11 bits.
    pub timer_period: u16,
    pub timer: u16,
    /// Position in the 32-step output sequence.
    pub seq_pos: u8,
}

/// The triangle's 32-step output: 15 down to 0, then 0 up to 15.
pub open spec fn spec_triangle_step(pos: u8) -> u8 {
    if pos < 16 {
        (15 - pos) as u8
    } else {
        (pos - 16) as u8
    }
}

impl Triangle {
    pub open spec fn wf(&self) -> bool {
        &&& self.seq_pos < 32
        &&& self.timer_period <= 0x7FF
        &&& self.linear_reload_value <= 0x7F
    }

    pub fn new() -> (r: Triangle)
        ensures
            r.wf(),
            r.lenctr.counter == 0,
    {
        Triangle {
            lenctr: LengthCounter { counter: 0, halt: false, enabled: false },
            linear_counter: 0,
            linear_reload_value: 0,
            linear_reload: false,
            control: false,
            timer_period: 0,
            timer: 0,
            seq_pos: 0,
        }
    }

    /// A write to one of the channel's four registers.
    pub fn write_reg(&mut self, reg: u16, data: u8)
        requires
            reg <= 3,
            old(self).wf(),
        ensures
            final(self).wf(),
            reg == 0 ==> {
                &&& final(self).control == (data & 0x80 != 0)
                &&& final(self).lenctr.halt == (data & 0x80 != 0)
                &&& final(self).linear_reload_value == data & 0x7F
            },
            reg == 2 ==> final(self).timer_period == (old(self).timer_period & 0x0700)
                | data as u16,
            reg == 3 ==> {
                &&& final(self).timer_period == (old(self).timer_period & 0x00FF) | ((
                (data & 0x07) as u16) << 8)
                &&& final(self).lenctr.counter == (if old(self).lenctr.enabled {
                    spec_length_table((data >> 3) as int)
                } else {
                    old(self).lenctr.counter
                })
                &&& final(self).linear_reload
            },
    {
        if reg == 0 {
            proof {
                assert(data & 0x7F <= 0x7F) by (bit_vector);
            }
            let ctl = crate::bits::mask_is_set(data, 0x80);
            self.control = ctl;
            self.lenctr.set_halt(ctl);
            self.linear_reload_value = data & 0x7F;
        } else if reg == 2 {
            let tp = self.timer_period;
            proof {
                assert(tp <= 0x7FF ==> ((tp & 0x0700) | data as u16) <= 0x7FF) by (bit_vector);
            }
            self.timer_period = (tp & 0x0700) | data as u16;
        } else if reg == 3 {
            let tp = self.timer_period;
            proof {
                assert(((tp & 0x00FF) | (((data & 0x07) as u16) << 8)) <= 0x7FF && data >> 3 < 32)
                    by (bit_vector);
            }
            self.timer_period = (tp & 0x00FF) | (((data & 0x07) as u16) << 8);
            self.lenctr.load((data >> 3) as usize);
            self.linear_reload = true;
        }
    }

    /// Quarter-frame clock of the linear counter.
    pub fn quarter_frame(&mut self)
        requires
            old(self).wf(),
        ensures
            final(self).wf(),
            final(self).linear_counter == (if old(self).linear_reload {
                old(self).linear_reload_value
            } else if old(self).linear_counter > 0 {
                (old(self).linear_counter - 1) as u8
            } else {
                0
            }),
            final(self).linear_reload == (old(self).linear_reload && old(self).control),
    {
        if self.linear_reload {
            self.linear_counter = self.linear_reload_value;
        } else if self.linear_counter > 0 {
            self.linear_counter = self.linear_counter - 1;
        }
        if !self.control {
            self.linear_reload = false;
        }
    }

    /// Half-frame clock of the length counter.
    pub fn half_frame(&mut self)
        requires
            old(self).wf(),
        ensures
            final(self).wf(),
    {
        self.lenctr.tick();
    }

    /// One CPU-cycle clock of the timer; the sequencer advances only while
    /// both the length and the linear counter are non-zero.
    pub fn clock_timer(&mut self)
        requires
            old(self).wf(),
        ensures
            final(self).wf(),
            final(self).seq_pos == (if old(self).timer == 0 && old(self).lenctr.counter > 0 && old(
                self,
            ).linear_counter > 0 {
                ((old(self).seq_pos + 1) % 32) as u8
            } else {
                old(self).seq_pos
            }),
    {
        if self.timer == 0 {
            self.timer = self.timer_period;
            if self.lenctr.counter > 0 && self.linear_counter > 0 {
                self.seq_pos = (self.seq_pos + 1) % 32;
            }
        } else {
            self.timer = self.timer - 1;
        }
    }

    /// The channel's current output level.
    pub fn output(&self) -> (r: u8)
        requires
            self.wf(),
        ensures
            r == spec_triangle_step(self.seq_pos),
            r <= 15,
    {
        if self.seq_pos < 16 {
            15 - self.seq_pos
        } else {
            self.seq_pos - 16
        }
    }
}

/// The noise channel. Only its length counter is modeled; the LFSR tone
/// generator is left unimplemented.
#[derive(Default, Clone, Copy)]
pub struct Noise {
    pub lenctr: LengthCounter,
}

impl Noise {
    pub fn new() -> (r: Noise)
        ensures
            r.lenctr.counter == 0,
    {
        Noise { lenctr: LengthCounter { counter: 0, halt: false, enabled: false } }
    }

    /// Advance the channel one clock; the tone generator is not modeled,
    /// so nothing changes.
    pub fn tick(&mut self)
        ensures
            *final(self) == *old(self),
    {
    }

    pub fn read_byte(&self, _addr: u16) -> (r: u8)
        ensures
            r == 0,
    {
        0
    }

    /// A write to one of the channel's four registers: the halt flag and
    /// the length counter load are observed, the rest is ignored.
    pub fn write_byte(&mut self, reg: u16, data: u8)
        requires
            reg <= 3,
        ensures
            reg == 0 ==> *final(self) == (Noise {
                lenctr: LengthCounter { halt: data & 0x20 != 0, ..old(self).lenctr },
            }),
            reg == 1 || reg == 2 ==> *final(self) == *old(self),
            reg == 3 ==> *final(self) == (Noise {
                lenctr: LengthCounter {
                    counter: (if old(self).lenctr.enabled {
                        spec_length_table(((data >> 3) & 0x1F) as int)
                    } else {
                        old(self).lenctr.counter
                    }),
                    ..old(self).lenctr
                },
            }),
    {
        if reg == 0 {
            proof {
                crate::bits::lemma_bit_values();
            }
            let halt = crate::bits::bit_is_set(data, 5);
            self.lenctr.set_halt(halt);
        } else if reg == 3 {
            let idx = crate::bits::bit_group(data, 0x1F, 3);
            proof {
                assert((data >> 3) & 0x1F < 32) by (bit_vector);
            }
            self.lenctr.load(idx as usize);
        }
    }
}

/// The delta modulation channel. Only the directly written DAC level is
/// modeled; the bit-serial sample reader is left unimplemented.
#[derive(Default, Clone, Copy)]
pub struct Dmc {
    /// The 7-bit DAC level.
    pub level: u8,
    pub irq_enabled: bool,
    pub loop_flag: bool,
}

impl Dmc {
    pub fn new() -> (r: Dmc)
        ensures
            r.level == 0,
            !r.irq_enabled,
            !r.loop_flag,
    {
        Dmc { level: 0, irq_enabled: false, loop_flag: false }
    }

    /// A write to one of the channel's four registers.
    pub fn write_reg(&mut self, reg: u16, data: u8)
        requires
            reg <= 3,
        ensures
            reg == 0 ==> {
                &&& final(self).irq_enabled == (data & 0x80 != 0)
                &&& final(self).loop_flag == (data & 0x40 != 0)
                &&& final(self).level == old(self).level
            },
            reg == 1 ==> {
                &&& final(self).level == data & 0x7F
                &&& final(self).irq_enabled == old(self).irq_enabled
            },
            reg == 2 || reg == 3 ==> *final(self) == *old(self),
    {
        if reg == 0 {
            self.irq_enabled = crate::bits::mask_is_set(data, 0x80);
            self.loop_flag = crate::bits::mask_is_set(data, 0x40);
        } else if reg == 1 {
            self.level = data & 0x7F;
        }
    }

    /// The DAC level as the channel's output.
    pub fn output(&self) -> (r: u8)
        ensures
            r == self.level,
    {
        self.level
    }
}

} // verus!
