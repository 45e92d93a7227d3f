use vstd::prelude::*;

verus! {

/// Length counter load values, indexed by bits 3-7 of the length register.
pub open spec fn length_table(i: u8) -> u8 {
    seq![
        10u8, 254, 20, 2, 40, 4, 80, 6, 160, 8, 60, 10, 14, 12, 26, 14, 12, 16, 24, 18, 48, 20, 96, 22,
        192, 24, 72, 26, 16, 28, 32, 30,
    ][i as int]
}

/// Noise timer periods, indexed by the low four bits of $400E.
pub open spec fn noise_period(i: u8) -> u16 {
    seq![4u16, 8, 16, 32, 64, 96, 128, 160, 202, 254, 380, 508, 762, 1016, 2034, 4068][i as int]
}

/// The pulse waveforms: 12.5%, 25%, 50% and 75% (inverted 25%) duty cycles.
pub open spec fn duty_bit(duty: u8, step: u8) -> u8 {
    seq![
        seq![0u8, 1, 0, 0, 0, 0, 0, 0],
        seq![0u8, 1, 1, 0, 0, 0, 0, 0],
        seq![0u8, 1, 1, 1, 1, 0, 0, 0],
        seq![1u8, 0, 0, 1, 1, 1, 1, 1],
    ][duty as int][step as int]
}

/// The triangle channel's 32-step output sequence.
pub open spec fn triangle_level(step: u8) -> u8 {
    seq![
        15u8, 14, 13, 12, 11, 10, 9, 8, 7, 6, 5, 4, 3, 2, 1, 0, 0, 1, 2, 3, 4, 5, 6, 7, 8, 9, 10, 11,
        12, 13, 14, 15,
    ][step as int]
}

/// CPU cycles per frame-counter step (about a quarter of a video frame).
pub const FRAME_COUNTER_RATE: u16 = 7457;

fn length_lookup(i: u8) -> (r: u8)
    requires
        i < 32,
    ensures
        r == length_table(i),
{
    let t: [u8; 32] = [
        10, 254, 20, 2, 40, 4, 80, 6, 160, 8, 60, 10, 14, 12, 26, 14, 12, 16, 24, 18, 48, 20, 96, 22,
        192, 24, 72, 26, 16, 28, 32, 30,
    ];
    assert(t@ =~= seq![
        10u8, 254, 20, 2, 40, 4, 80, 6, 160, 8, 60, 10, 14, 12, 26, 14, 12, 16, 24, 18, 48, 20, 96, 22,
        192, 24, 72, 26, 16, 28, 32, 30,
    ]);
    t[i as usize]
}

fn noise_period_lookup(i: u8) -> (r: u16)
    requires
        i < 16,
    ensures
        r == noise_period(i),
{
    let t: [u16; 16] = [4, 8, 16, 32, 64, 96, 128, 160, 202, 254, 380, 508, 762, 1016, 2034, 4068];
    assert(t@ =~= seq![4u16, 8, 16, 32, 64, 96, 128, 160, 202, 254, 380, 508, 762, 1016, 2034, 4068]);
    t[i as usize]
}

fn duty_lookup(duty: u8, step: u8) -> (r: u8)
    requires
        duty < 4,
        step < 8,
    ensures
        r == duty_bit(duty, step),
{
    let row: [u8; 8] = if duty == 0 {
        [0, 1, 0, 0, 0, 0, 0, 0]
    } else if duty == 1 {
        [0, 1, 1, 0, 0, 0, 0, 0]
    } else if duty == 2 {
        [0, 1, 1, 1, 1, 0, 0, 0]
    } else {
        [1, 0, 0, 1, 1, 1, 1, 1]
    };
    assert(duty == 0 ==> row@ =~= seq![0u8, 1, 0, 0, 0, 0, 0, 0]);
    assert(duty == 1 ==> row@ =~= seq![0u8, 1, 1, 0, 0, 0, 0, 0]);
    assert(duty == 2 ==> row@ =~= seq![0u8, 1, 1, 1, 1, 0, 0, 0]);
    assert(duty == 3 ==> row@ =~= seq![1u8, 0, 0, 1, 1, 1, 1, 1]);
    row[step as usize]
}

fn triangle_lookup(step: u8) -> (r: u8)
    requires
        step < 32,
    ensures
        r == triangle_level(step),
{
    let t: [u8; 32] = [
        15, 14, 13, 12, 11, 10, 9, 8, 7, 6, 5, 4, 3, 2, 1, 0, 0, 1, 2, 3, 4, 5, 6, 7, 8, 9, 10, 11, 12,
        13, 14, 15,
    ];
    assert(t@ =~= seq![
        15u8, 14, 13, 12, 11, 10, 9, 8, 7, 6, 5, 4, 3, 2, 1, 0, 0, 1, 2, 3, 4, 5, 6, 7, 8, 9, 10, 11,
        12, 13, 14, 15,
    ]);
    t[step as usize]
}

/// A pulse (square wave) channel with envelope, sweep and length counter.
#[derive(Clone, Copy)]
pub struct PulseChannel {
    pub enabled: bool,
    pub channel: u8,
    pub duty: u8,
    pub length_halt: bool,
    pub constant_volume: bool,
    pub volume: u8,
    pub sweep_enabled: bool,
    pub sweep_period: u8,
    pub sweep_negate: bool,
    pub sweep_shift: u8,
    pub sweep_reload: bool,
    pub sweep_divider: u8,
    pub timer: u16,
    pub timer_counter: u16,
    pub sequencer_step: u8,
    pub length_counter: u8,
    pub envelope_start: bool,
    pub envelope_divider: u8,
    pub envelope_decay: u8,
}

impl PulseChannel {
    /// The ranges the channel's registers stay in.
    pub open spec fn inv(self) -> bool {
        &&& self.duty < 4
        &&& self.sequencer_step < 8
        &&& self.sweep_shift < 8
        &&& self.timer <= 0x7FF
    }

    /// The period the sweep unit aims for: the timer plus or minus the timer shifted
    /// right; pulse 1 negates in one's complement (one less), pulse 2 in two's complement.
    pub open spec fn sweep_target(self) -> int {
        let shift = (self.timer >> self.sweep_shift) as int;
        let delta = if self.sweep_negate {
            if self.channel == 1 { -shift - 1 } else { -shift }
        } else {
            shift
        };
        self.timer + delta
    }

    /// The channel after one timer clock: when the counter runs out it reloads and the duty sequencer steps.
    pub open spec fn clock_timer_spec(self) -> PulseChannel {
        if self.timer_counter == 0 {
            PulseChannel { timer_counter: self.timer, sequencer_step: ((self.sequencer_step + 1) % 8) as u8, ..self }
        } else {
            PulseChannel { timer_counter: (self.timer_counter - 1) as u16, ..self }
        }
    }

    /// The channel after one envelope clock: a started envelope restarts at 15; otherwise the divider counts down and, at zero, the decay level drops (looping back to 15 when the length counter is halted).
    pub open spec fn clock_envelope_spec(self) -> PulseChannel {
        if self.envelope_start {
            PulseChannel { envelope_start: false, envelope_decay: 15, envelope_divider: self.volume, ..self }
        } else if self.envelope_divider == 0 {
            PulseChannel {
                envelope_divider: self.volume,
                envelope_decay: if self.envelope_decay > 0 {
                    (self.envelope_decay - 1) as u8
                } else if self.length_halt {
                    15
                } else {
                    self.envelope_decay
                },
                ..self
            }
        } else {
            PulseChannel { envelope_divider: (self.envelope_divider - 1) as u8, ..self }
        }
    }

    /// The channel after one length clock: the length counter counts down unless halted or already zero.
    pub open spec fn clock_length_spec(self) -> PulseChannel {
        if !self.length_halt && self.length_counter > 0 {
            PulseChannel { length_counter: (self.length_counter - 1) as u8, ..self }
        } else {
            self
        }
    }

    /// The channel after one sweep clock: when the divider reaches zero with the sweep on, a shift and a target period in range move the period to the target; the divider reloads at zero or on request.
    pub open spec fn clock_sweep_spec(self) -> PulseChannel {
        let target = self.sweep_target();
        let timer = if self.sweep_divider == 0 && self.sweep_enabled && self.sweep_shift > 0 && 0 <= target
            <= 0x7FF {
            target as u16
        } else {
            self.timer
        };
        if self.sweep_divider == 0 || self.sweep_reload {
            PulseChannel { timer, sweep_divider: self.sweep_period, sweep_reload: false, ..self }
        } else {
            PulseChannel { timer, sweep_divider: (self.sweep_divider - 1) as u8, ..self }
        }
    }

    /// The level the channel outputs: silent when disabled, out of length, on a low duty step, or with a period below 8 or a sweep target above $7FF; otherwise the constant volume or the envelope level.
    pub open spec fn output_spec(self) -> u8 {
        if !self.enabled || self.length_counter == 0 || duty_bit(self.duty, self.sequencer_step) == 0
            || self.timer < 8 || self.sweep_target() > 0x7FF {
            0
        } else if self.constant_volume {
            self.volume
        } else {
            self.envelope_decay
        }
    }

    /// The channel after a write of `data` to its register `reg` (0-3).
    pub open spec fn write_spec(self, reg: u16, data: u8) -> PulseChannel {
        if reg == 0 {
            PulseChannel {
                duty: (data >> 6u8) & 0x03,
                length_halt: data & 0x20 != 0,
                constant_volume: data & 0x10 != 0,
                volume: data & 0x0F,
                ..self
            }
        } else if reg == 1 {
            PulseChannel {
                sweep_enabled: data & 0x80 != 0,
                sweep_period: (data >> 4u8) & 0x07,
                sweep_negate: data & 0x08 != 0,
                sweep_shift: data & 0x07,
                sweep_reload: true,
                ..self
            }
        } else if reg == 2 {
            PulseChannel { timer: (self.timer & 0x0700) | (data as u16), ..self }
        } else {
            PulseChannel {
                timer: (self.timer & 0x00FF) | (((data & 0x07) as u16) << 8u16),
                length_counter: if self.enabled { length_table(data >> 3u8) } else { self.length_counter },
                sequencer_step: 0,
                envelope_start: true,
                ..self
            }
        }
    }

    /// The power-up state of pulse channel `channel` (1 or 2).
    pub open spec fn initial(channel: u8) -> PulseChannel {
        PulseChannel {
                enabled: false,
                channel,
                duty: 0,
                length_halt: false,
                constant_volume: false,
                volume: 0,
                sweep_enabled: false,
                sweep_period: 0,
                sweep_negate: false,
                sweep_shift: 0,
                sweep_reload: false,
                sweep_divider: 0,
                timer: 0,
                timer_counter: 0,
                sequencer_step: 0,
                length_counter: 0,
                envelope_start: false,
                envelope_divider: 0,
                envelope_decay: 0,
            }
    }

    /// A silent, disabled pulse channel; `channel` (1 or 2) selects how its sweep negates.
    pub fn new(channel: u8) -> (r: Self)
        ensures
            r == PulseChannel::initial(channel),
            r.inv(),
    {
        Self {
            enabled: false,
            channel,
            duty: 0,
            length_halt: false,
            constant_volume: false,
            volume: 0,
            sweep_enabled: false,
            sweep_period: 0,
            sweep_negate: false,
            sweep_shift: 0,
            sweep_reload: false,
            sweep_divider: 0,
            timer: 0,
            timer_counter: 0,
            sequencer_step: 0,
            length_counter: 0,
            envelope_start: false,
            envelope_divider: 0,
            envelope_decay: 0,
        }
    }

    fn clock_timer(&mut self)
        requires
            old(self).inv(),
        ensures
            *final(self) == old(self).clock_timer_spec(),
            final(self).inv(),
    {
        if self.timer_counter == 0 {
            self.timer_counter = self.timer;
            self.sequencer_step = (self.sequencer_step + 1) % 8;
        } else {
            self.timer_counter = self.timer_counter - 1;
        }
    }

    fn clock_envelope(&mut self)
        requires
            old(self).inv(),
        ensures
            *final(self) == old(self).clock_envelope_spec(),
            final(self).inv(),
    {
        if self.envelope_start {
            self.envelope_start = false;
            self.envelope_decay = 15;
            self.envelope_divider = self.volume;
        } else if self.envelope_divider == 0 {
            self.envelope_divider = self.volume;
            if self.envelope_decay > 0 {
                self.envelope_decay = self.envelope_decay - 1;
            } else if self.length_halt {
                self.envelope_decay = 15;
            }
        } else {
            self.envelope_divider = self.envelope_divider - 1;
        }
    }

    fn clock_length(&mut self)
        requires
            old(self).inv(),
        ensures
            *final(self) == old(self).clock_length_spec(),
            final(self).inv(),
    {
        if !self.length_halt && self.length_counter > 0 {
            self.length_counter = self.length_counter - 1;
        }
    }

    fn sweep_target_period(&self) -> (r: i32)
        requires
            self.inv(),
        ensures
            r == self.sweep_target(),
    {
        let t = self.timer;
        let s = self.sweep_shift;
        assert(t >> s <= t) by (bit_vector);
        let shift = (self.timer >> self.sweep_shift) as i32;
        let delta = if self.sweep_negate {
            if self.channel == 1 {
                -shift - 1
            } else {
                -shift
            }
        } else {
            shift
        };
        self.timer as i32 + delta
    }

    fn clock_sweep(&mut self)
        requires
            old(self).inv(),
        ensures
            *final(self) == old(self).clock_sweep_spec(),
            final(self).inv(),
    {
        let target = self.sweep_target_period();
        if self.sweep_divider == 0 && self.sweep_enabled && self.sweep_shift > 0 {
            if target >= 0 && target <= 0x7FF {
                self.timer = target as u16;
            }
        }
        if self.sweep_divider == 0 || self.sweep_reload {
            self.sweep_divider = self.sweep_period;
            self.sweep_reload = false;
        } else {
            self.sweep_divider = self.sweep_divider - 1;
        }
    }

    fn output(&self) -> (r: u8)
        requires
            self.inv(),
        ensures
            r == self.output_spec(),
    {
        if !self.enabled || self.length_counter == 0 || duty_lookup(self.duty, self.sequencer_step) == 0
            || self.timer < 8 || self.sweep_target_period() > 0x7FF {
            return 0;
        }
        if self.constant_volume {
            self.volume
        } else {
            self.envelope_decay
        }
    }

    fn write(&mut self, reg: u16, data: u8)
        requires
            old(self).inv(),
        ensures
            *final(self) == old(self).write_spec(reg, data),
            final(self).inv(),
    {
        let d = data;
        assert((d >> 6u8) & 0x03 < 4 && d & 0x07 < 8 && (d >> 3u8) < 32) by (bit_vector);
        if reg == 0 {
            self.duty = (data >> 6u8) & 0x03;
            self.length_halt = data & 0x20 != 0;
            self.constant_volume = data & 0x10 != 0;
            self.volume = data & 0x0F;
        } else if reg == 1 {
            self.sweep_enabled = data & 0x80 != 0;
            self.sweep_period = (data >> 4u8) & 0x07;
            self.sweep_negate = data & 0x08 != 0;
            self.sweep_shift = data & 0x07;
            self.sweep_reload = true;
        } else if reg == 2 {
            let t = self.timer;
            assert((t & 0x0700) | (d as u16) <= 0x7FF) by (bit_vector);
            self.timer = (self.timer & 0x0700) | (data as u16);
        } else {
            let t = self.timer;
            assert((t & 0x00FF) | (((d & 0x07) as u16) << 8u16) <= 0x7FF) by (bit_vector);
            self.timer = (self.timer & 0x00FF) | (((data & 0x07) as u16) << 8u16);
            if self.enabled {
                self.length_counter = length_lookup(data >> 3u8);
            }
            self.sequencer_step = 0;
            self.envelope_start = true;
        }
    }
}

/// The triangle channel with its linear counter and length counter.
#[derive(Clone, Copy)]
pub struct TriangleChannel {
    pub enabled: bool,
    pub control: bool,
    pub linear_load: u8,
    pub timer: u16,
    pub timer_counter: u16,
    pub sequencer_step: u8,
    pub length_counter: u8,
    pub linear_counter: u8,
    pub linear_reload: bool,
}

impl TriangleChannel {
    /// The channel's ranges: its sequencer step and 11-bit period.
    pub open spec fn inv(self) -> bool {
        &&& self.sequencer_step < 32
        &&& self.timer <= 0x7FF
    }

    /// The channel after one timer clock: when the counter runs out it reloads, and the sequencer steps while both counters are running.
    pub open spec fn clock_timer_spec(self) -> TriangleChannel {
        if self.timer_counter == 0 {
            TriangleChannel {
                timer_counter: self.timer,
                sequencer_step: if self.length_counter > 0 && self.linear_counter > 0 {
                    ((self.sequencer_step + 1) % 32) as u8
                } else {
                    self.sequencer_step
                },
                ..self
            }
        } else {
            TriangleChannel { timer_counter: (self.timer_counter - 1) as u16, ..self }
        }
    }

    /// The channel after one linear-counter clock: reloaded on request, else counted down; the request stays only while the control flag is set.
    pub open spec fn clock_linear_spec(self) -> TriangleChannel {
        let counter = if self.linear_reload {
            self.linear_load
        } else if self.linear_counter > 0 {
            (self.linear_counter - 1) as u8
        } else {
            self.linear_counter
        };
        TriangleChannel {
            linear_counter: counter,
            linear_reload: if !self.control { false } else { self.linear_reload },
            ..self
        }
    }

    /// The channel after one length clock: the length counter counts down unless the control flag halts it or it is zero.
    pub open spec fn clock_length_spec(self) -> TriangleChannel {
        if !self.control && self.length_counter > 0 {
            TriangleChannel { length_counter: (self.length_counter - 1) as u8, ..self }
        } else {
            self
        }
    }

    /// The level the channel outputs: silent when disabled, out of length or linear count, or with a period below 2; otherwise its sequence level.
    pub open spec fn output_spec(self) -> u8 {
        if !self.enabled || self.length_counter == 0 || self.linear_counter == 0 || self.timer < 2 {
            0
        } else {
            triangle_level(self.sequencer_step)
        }
    }

    /// The channel after a write of `data` to its register `reg` (0, 2 or 3; 1 is unused).
    pub open spec fn write_spec(self, reg: u16, data: u8) -> TriangleChannel {
        if reg == 0 {
            TriangleChannel { control: data & 0x80 != 0, linear_load: data & 0x7F, ..self }
        } else if reg == 2 {
            TriangleChannel { timer: (self.timer & 0x0700) | (data as u16), ..self }
        } else if reg == 3 {
            TriangleChannel {
                timer: (self.timer & 0x00FF) | (((data & 0x07) as u16) << 8u16),
                length_counter: if self.enabled { length_table(data >> 3u8) } else { self.length_counter },
                linear_reload: true,
                ..self
            }
        } else {
            self
        }
    }

    /// The power-up state of the triangle channel.
    pub open spec fn initial() -> TriangleChannel {
        TriangleChannel {
                enabled: false,
                control: false,
                linear_load: 0,
                timer: 0,
                timer_counter: 0,
                sequencer_step: 0,
                length_counter: 0,
                linear_counter: 0,
                linear_reload: false,
            }
    }

    /// A silent, disabled triangle channel.
    pub fn new() -> (r: Self)
        ensures
            r == TriangleChannel::initial(),
            r.inv(),
    {
        Self {
            enabled: false,
            control: false,
            linear_load: 0,
            timer: 0,
            timer_counter: 0,
            sequencer_step: 0,
            length_counter: 0,
            linear_counter: 0,
            linear_reload: false,
        }
    }

    fn clock_timer(&mut self)
        requires
            old(self).inv(),
        ensures
            *final(self) == old(self).clock_timer_spec(),
            final(self).inv(),
    {
        if self.timer_counter == 0 {
            self.timer_counter = self.timer;
            if self.length_counter > 0 && self.linear_counter > 0 {
                self.sequencer_step = (self.sequencer_step + 1) % 32;
            }
        } else {
            self.timer_counter = self.timer_counter - 1;
        }
    }

    fn clock_linear(&mut self)
        requires
            old(self).inv(),
        ensures
            *final(self) == old(self).clock_linear_spec(),
            final(self).inv(),
    {
        if self.linear_reload {
            self.linear_counter = self.linear_load;
        } else if self.linear_counter > 0 {
            self.linear_counter = self.linear_counter - 1;
        }
        if !self.control {
            self.linear_reload = false;
        }
    }

    fn clock_length(&mut self)
        requires
            old(self).inv(),
        ensures
            *final(self) == old(self).clock_length_spec(),
            final(self).inv(),
    {
        if !self.control && self.length_counter > 0 {
            self.length_counter = self.length_counter - 1;
        }
    }

    fn output(&self) -> (r: u8)
        requires
            self.inv(),
        ensures
            r == self.output_spec(),
    {
        if !self.enabled || self.length_counter == 0 || self.linear_counter == 0 || self.timer < 2 {
            return 0;
        }
        triangle_lookup(self.sequencer_step)
    }

    fn write(&mut self, reg: u16, data: u8)
        requires
            old(self).inv(),
        ensures
            *final(self) == old(self).write_spec(reg, data),
            final(self).inv(),
    {
        let d = data;
        let t = self.timer;
        assert((d >> 3u8) < 32) by (bit_vector);
        if reg == 0 {
            self.control = data & 0x80 != 0;
            self.linear_load = data & 0x7F;
        } else if reg == 2 {
            assert((t & 0x0700) | (d as u16) <= 0x7FF) by (bit_vector);
            self.timer = (self.timer & 0x0700) | (data as u16);
        } else if reg == 3 {
            assert((t & 0x00FF) | (((d & 0x07) as u16) << 8u16) <= 0x7FF) by (bit_vector);
            self.timer = (self.timer & 0x00FF) | (((data & 0x07) as u16) << 8u16);
            if self.enabled {
                self.length_counter = length_lookup(data >> 3u8);
            }
            self.linear_reload = true;
        }
    }
}

/// The noise channel: a 15-bit linear feedback shift register with envelope and length counter.
#[derive(Clone, Copy)]
pub struct NoiseChannel {
    pub enabled: bool,
    pub length_halt: bool,
    pub constant_volume: bool,
    pub volume: u8,
    pub mode: bool,
    pub timer_period: u16,
    pub timer_counter: u16,
    pub shift_register: u16,
    pub length_counter: u8,
    pub envelope_start: bool,
    pub envelope_divider: u8,
    pub envelope_decay: u8,
}

impl NoiseChannel {
    /// The shift register after one clock: shifted right, with bit 0 exclusive-or bit 1
    /// (bit 6 in short mode) fed back into bit 14.
    pub open spec fn shifted(sr: u16, mode: bool) -> u16 {
        let feedback_bit: u16 = if mode { 6 } else { 1 };
        let feedback = (sr & 1) ^ ((sr >> feedback_bit) & 1);
        (sr >> 1u16) | (feedback << 14u16)
    }

    /// The channel after one timer clock: when the counter runs out it reloads and the shift register shifts.
    pub open spec fn clock_timer_spec(self) -> NoiseChannel {
        if self.timer_counter == 0 {
            NoiseChannel {
                timer_counter: self.timer_period,
                shift_register: NoiseChannel::shifted(self.shift_register, self.mode),
                ..self
            }
        } else {
            NoiseChannel { timer_counter: (self.timer_counter - 1) as u16, ..self }
        }
    }

    /// The channel after one envelope clock (as for the pulse channels).
    pub open spec fn clock_envelope_spec(self) -> NoiseChannel {
        if self.envelope_start {
            NoiseChannel { envelope_start: false, envelope_decay: 15, envelope_divider: self.volume, ..self }
        } else if self.envelope_divider == 0 {
            NoiseChannel {
                envelope_divider: self.volume,
                envelope_decay: if self.envelope_decay > 0 {
                    (self.envelope_decay - 1) as u8
                } else if self.length_halt {
                    15
                } else {
                    self.envelope_decay
                },
                ..self
            }
        } else {
            NoiseChannel { envelope_divider: (self.envelope_divider - 1) as u8, ..self }
        }
    }

    /// The channel after one length clock: the length counter counts down unless halted or already zero.
    pub open spec fn clock_length_spec(self) -> NoiseChannel {
        if !self.length_halt && self.length_counter > 0 {
            NoiseChannel { length_counter: (self.length_counter - 1) as u8, ..self }
        } else {
            self
        }
    }

    /// The level the channel outputs: silent when disabled, out of length, or when bit 0 of the shift register is set; otherwise the constant volume or the envelope level.
    pub open spec fn output_spec(self) -> u8 {
        if !self.enabled || self.length_counter == 0 || (self.shift_register & 1) != 0 {
            0
        } else if self.constant_volume {
            self.volume
        } else {
            self.envelope_decay
        }
    }

    /// The channel after a write of `data` to its register `reg` (0, 2 or 3; 1 is unused).
    pub open spec fn write_spec(self, reg: u16, data: u8) -> NoiseChannel {
        if reg == 0 {
            NoiseChannel {
                length_halt: data & 0x20 != 0,
                constant_volume: data & 0x10 != 0,
                volume: data & 0x0F,
                ..self
            }
        } else if reg == 2 {
            NoiseChannel { mode: data & 0x80 != 0, timer_period: noise_period(data & 0x0F), ..self }
        } else if reg == 3 {
            NoiseChannel {
                length_counter: if self.enabled { length_table(data >> 3u8) } else { self.length_counter },
                envelope_start: true,
                ..self
            }
        } else {
            self
        }
    }

    /// The power-up state of the noise channel.
    pub open spec fn initial() -> NoiseChannel {
        NoiseChannel {
                enabled: false,
                length_halt: false,
                constant_volume: false,
                volume: 0,
                mode: false,
                timer_period: 4,
                timer_counter: 4,
                shift_register: 1,
                length_counter: 0,
                envelope_start: false,
                envelope_divider: 0,
                envelope_decay: 0,
            }
    }

    /// A silent, disabled noise channel with its shift register at 1.
    pub fn new() -> (r: Self)
        ensures
            r == NoiseChannel::initial(),
    {
        Self {
            enabled: false,
            length_halt: false,
            constant_volume: false,
            volume: 0,
            mode: false,
            timer_period: 4,
            timer_counter: 4,
            shift_register: 1,
            length_counter: 0,
            envelope_start: false,
            envelope_divider: 0,
            envelope_decay: 0,
        }
    }

    fn clock_timer(&mut self)
        ensures
            *final(self) == old(self).clock_timer_spec(),
    {
        if self.timer_counter == 0 {
            self.timer_counter = self.timer_period;
            let feedback_bit: u16 = if self.mode { 6 } else { 1 };
            let feedback = (self.shift_register & 1) ^ ((self.shift_register >> feedback_bit) & 1);
            self.shift_register = self.shift_register >> 1u16;
            self.shift_register = self.shift_register | (feedback << 14u16);
        } else {
            self.timer_counter = self.timer_counter - 1;
        }
    }

    fn clock_envelope(&mut self)
        ensures
            *final(self) == old(self).clock_envelope_spec(),
    {
        if self.envelope_start {
            self.envelope_start = false;
            self.envelope_decay = 15;
            self.envelope_divider = self.volume;
        } else if self.envelope_divider == 0 {
            self.envelope_divider = self.volume;
            if self.envelope_decay > 0 {
                self.envelope_decay = self.envelope_decay - 1;
            } else if self.length_halt {
                self.envelope_decay = 15;
            }
        } else {
            self.envelope_divider = self.envelope_divider - 1;
        }
    }

    fn clock_length(&mut self)
        ensures
            *final(self) == old(self).clock_length_spec(),
    {
        if !self.length_halt && self.length_counter > 0 {
            self.length_counter = self.length_counter - 1;
        }
    }

    fn output(&self) -> (r: u8)
        ensures
            r == self.output_spec(),
    {
        if !self.enabled || self.length_counter == 0 || (self.shift_register & 1) != 0 {
            return 0;
        }
        if self.constant_volume {
            self.volume
        } else {
            self.envelope_decay
        }
    }

    fn write(&mut self, reg: u16, data: u8)
        ensures
            *final(self) == old(self).write_spec(reg, data),
    {
        let d = data;
        assert((d >> 3u8) < 32 && d & 0x0F < 16) by (bit_vector);
        if reg == 0 {
            self.length_halt = data & 0x20 != 0;
            self.constant_volume = data & 0x10 != 0;
            self.volume = data & 0x0F;
        } else if reg == 2 {
            self.mode = data & 0x80 != 0;
            self.timer_period = noise_period_lookup(data & 0x0F);
        } else if reg == 3 {
            if self.enabled {
                self.length_counter = length_lookup(data >> 3u8);
            }
            self.envelope_start = true;
        }
    }
}

/// The frame sequencer that clocks envelopes, the linear counter, length counters and sweeps.
#[derive(Clone, Copy)]
pub struct FrameCounter {
    pub mode: u8,
    pub interrupt_inhibit: bool,
    pub step: u16,
    pub divider: u16,
}

impl FrameCounter {
    /// The frame counter's ranges: its step and divider.
    pub open spec fn inv(self) -> bool {
        &&& self.step <= 5
        &&& self.divider < FRAME_COUNTER_RATE
    }

    /// A frame counter in 4-step mode with interrupts inhibited.
    pub fn new() -> (r: Self)
        ensures
            r == (FrameCounter { mode: 0, interrupt_inhibit: true, step: 0, divider: 0 }),
            r.inv(),
    {
        Self { mode: 0, interrupt_inhibit: true, step: 0, divider: 0 }
    }
}

/// The output levels (0-15) of the four channels at one CPU cycle.
#[derive(Clone, Copy)]
pub struct ChannelLevels {
    pub pulse1: u8,
    pub pulse2: u8,
    pub triangle: u8,
    pub noise: u8,
}

/// The audio processing unit: two pulse channels, a triangle and a noise channel,
/// their registers ($4000-$400F, $4015, $4017) and the frame sequencer.
#[derive(Clone, Copy)]
pub struct Apu {
    pub pulse1: PulseChannel,
    pub pulse2: PulseChannel,
    pub triangle: TriangleChannel,
    pub noise: NoiseChannel,
    pub frame_counter: FrameCounter,
    pub cycles: u64,
}

impl Apu {
    /// The ranges the APU's registers stay in.
    pub open spec fn inv(self) -> bool {
        &&& self.pulse1.inv()
        &&& self.pulse2.inv()
        &&& self.triangle.inv()
        &&& self.frame_counter.inv()
    }

    /// Quarter-frame clock: envelopes and the triangle's linear counter.
    pub open spec fn quarter_frame_spec(self) -> Apu {
        Apu {
            pulse1: self.pulse1.clock_envelope_spec(),
            pulse2: self.pulse2.clock_envelope_spec(),
            triangle: self.triangle.clock_linear_spec(),
            noise: self.noise.clock_envelope_spec(),
            ..self
        }
    }

    /// Half-frame clock: length counters, then the pulse sweeps.
    pub open spec fn half_frame_spec(self) -> Apu {
        Apu {
            pulse1: self.pulse1.clock_length_spec().clock_sweep_spec(),
            pulse2: self.pulse2.clock_length_spec().clock_sweep_spec(),
            triangle: self.triangle.clock_length_spec(),
            noise: self.noise.clock_length_spec(),
            ..self
        }
    }

    /// One CPU cycle of the frame sequencer. Every `FRAME_COUNTER_RATE` cycles it takes a
    /// step: in 4-step mode steps 1-4 clock quarter frames and steps 2 and 4 also half
    /// frames, step 4 restarting the sequence; in 5-step mode step 4 does nothing and step 5
    /// clocks both and restarts.
    pub open spec fn frame_counter_spec(self) -> Apu {
        let divider = self.frame_counter.divider + 1;
        if divider < FRAME_COUNTER_RATE {
            Apu { frame_counter: FrameCounter { divider: divider as u16, ..self.frame_counter }, ..self }
        } else {
            let step = self.frame_counter.step + 1;
            let a = Apu { frame_counter: FrameCounter { divider: 0, step: step as u16, ..self.frame_counter }, ..self };
            let restart = Apu { frame_counter: FrameCounter { step: 0, ..a.frame_counter }, ..a };
            if self.frame_counter.mode == 0 {
                if step == 1 || step == 3 {
                    a.quarter_frame_spec()
                } else if step == 2 {
                    a.quarter_frame_spec().half_frame_spec()
                } else if step == 4 {
                    restart.quarter_frame_spec().half_frame_spec()
                } else {
                    restart
                }
            } else {
                if step == 1 || step == 3 {
                    a.quarter_frame_spec()
                } else if step == 2 {
                    a.quarter_frame_spec().half_frame_spec()
                } else if step == 4 {
                    a
                } else if step == 5 {
                    restart.quarter_frame_spec().half_frame_spec()
                } else {
                    restart
                }
            }
        }
    }

    /// One CPU cycle: the triangle timer is clocked every cycle, the pulse and noise timers
    /// on even cycles, then the frame sequencer.
    pub open spec fn step_spec(self) -> Apu {
        let cycles = (self.cycles + 1) as u64;
        let a = Apu { cycles, triangle: self.triangle.clock_timer_spec(), ..self };
        let b = if cycles % 2 == 0 {
            Apu {
                pulse1: a.pulse1.clock_timer_spec(),
                pulse2: a.pulse2.clock_timer_spec(),
                noise: a.noise.clock_timer_spec(),
                ..a
            }
        } else {
            a
        };
        b.frame_counter_spec()
    }

    /// The four channel levels.
    pub open spec fn levels_spec(self) -> ChannelLevels {
        ChannelLevels {
            pulse1: self.pulse1.output_spec(),
            pulse2: self.pulse2.output_spec(),
            triangle: self.triangle.output_spec(),
            noise: self.noise.output_spec(),
        }
    }

    /// The APU after a write of `data` to $4015: bit 0 enables pulse 1 up to bit 3 for
    /// noise, and a disabled channel's length counter is cleared.
    pub open spec fn enable_spec(self, data: u8) -> Apu {
        let p1 = data & 0x01 != 0;
        let p2 = data & 0x02 != 0;
        let tr = data & 0x04 != 0;
        let no = data & 0x08 != 0;
        Apu {
            pulse1: PulseChannel {
                enabled: p1,
                length_counter: if p1 { self.pulse1.length_counter } else { 0 },
                ..self.pulse1
            },
            pulse2: PulseChannel {
                enabled: p2,
                length_counter: if p2 { self.pulse2.length_counter } else { 0 },
                ..self.pulse2
            },
            triangle: TriangleChannel {
                enabled: tr,
                length_counter: if tr { self.triangle.length_counter } else { 0 },
                ..self.triangle
            },
            noise: NoiseChannel {
                enabled: no,
                length_counter: if no { self.noise.length_counter } else { 0 },
                ..self.noise
            },
            ..self
        }
    }

    /// The APU after a CPU write of `data` to `addr`.
    pub open spec fn write_spec(self, addr: u16, data: u8) -> Apu {
        if 0x4000 <= addr <= 0x4003 {
            Apu { pulse1: self.pulse1.write_spec((addr - 0x4000) as u16, data), ..self }
        } else if 0x4004 <= addr <= 0x4007 {
            Apu { pulse2: self.pulse2.write_spec((addr - 0x4004) as u16, data), ..self }
        } else if 0x4008 <= addr <= 0x400B {
            Apu { triangle: self.triangle.write_spec((addr - 0x4008) as u16, data), ..self }
        } else if 0x400C <= addr <= 0x400F {
            Apu { noise: self.noise.write_spec((addr - 0x400C) as u16, data), ..self }
        } else if addr == 0x4015 {
            self.enable_spec(data)
        } else if addr == 0x4017 {
            let mode = (data >> 7u8) & 1;
            let a = Apu {
                frame_counter: FrameCounter {
                    mode,
                    interrupt_inhibit: data & 0x40 != 0,
                    step: 0,
                    divider: 0,
                },
                ..self
            };
            if mode == 1 {
                a.quarter_frame_spec().half_frame_spec()
            } else {
                a
            }
        } else {
            self
        }
    }

    /// The value of a CPU read of `addr`: at $4015, one bit per channel whose length
    /// counter is running (pulse 1 in bit 0 to noise in bit 3); 0 elsewhere.
    pub open spec fn read_spec(self, addr: u16) -> u8 {
        if addr == 0x4015 {
            ((if self.pulse1.length_counter > 0 { 1u8 } else { 0u8 })
                + (if self.pulse2.length_counter > 0 { 2u8 } else { 0u8 })
                + (if self.triangle.length_counter > 0 { 4u8 } else { 0u8 })
                + (if self.noise.length_counter > 0 { 8u8 } else { 0u8 })) as u8
        } else {
            0
        }
    }

    /// The power-up state: all channels silent and disabled, 4-step mode with
    /// interrupts inhibited.
    pub open spec fn initial() -> Apu {
        Apu {
            pulse1: PulseChannel::initial(1),
            pulse2: PulseChannel::initial(2),
            triangle: TriangleChannel::initial(),
            noise: NoiseChannel::initial(),
            frame_counter: FrameCounter { mode: 0, interrupt_inhibit: true, step: 0, divider: 0 },
            cycles: 0,
        }
    }

    /// A powered-up APU.
    pub fn new() -> (r: Self)
        ensures
            r == Apu::initial(),
            r.inv(),
    {
        Self {
            pulse1: PulseChannel::new(1),
            pulse2: PulseChannel::new(2),
            triangle: TriangleChannel::new(),
            noise: NoiseChannel::new(),
            frame_counter: FrameCounter::new(),
            cycles: 0,
        }
    }

    /// A CPU write to an APU register ($4000-$400F, $4015, $4017; others are ignored).
    pub fn write(&mut self, addr: u16, data: u8)
        requires
            old(self).inv(),
        ensures
            *final(self) == old(self).write_spec(addr, data),
            final(self).inv(),
    {
        if addr >= 0x4000 && addr <= 0x4003 {
            self.pulse1.write(addr - 0x4000, data);
        } else if addr >= 0x4004 && addr <= 0x4007 {
            self.pulse2.write(addr - 0x4004, data);
        } else if addr >= 0x4008 && addr <= 0x400B {
            self.triangle.write(addr - 0x4008, data);
        } else if addr >= 0x400C && addr <= 0x400F {
            self.noise.write(addr - 0x400C, data);
        } else if addr == 0x4015 {
            self.write_status(data);
        } else if addr == 0x4017 {
            self.write_frame_counter(data);
        }
    }

    fn write_status(&mut self, data: u8)
        requires
            old(self).inv(),
        ensures
            *final(self) == old(self).enable_spec(data),
            final(self).inv(),
    {
        let p1 = data & 0x01 != 0;
        let p2 = data & 0x02 != 0;
        let tr = data & 0x04 != 0;
        let no = data & 0x08 != 0;
        let l1 = if p1 { self.pulse1.length_counter } else { 0 };
        let l2 = if p2 { self.pulse2.length_counter } else { 0 };
        let lt = if tr { self.triangle.length_counter } else { 0 };
        let ln = if no { self.noise.length_counter } else { 0 };
        self.pulse1 = PulseChannel { enabled: p1, length_counter: l1, ..self.pulse1 };
        self.pulse2 = PulseChannel { enabled: p2, length_counter: l2, ..self.pulse2 };
        self.triangle = TriangleChannel { enabled: tr, length_counter: lt, ..self.triangle };
        self.noise = NoiseChannel { enabled: no, length_counter: ln, ..self.noise };
    }

    fn write_frame_counter(&mut self, data: u8)
        requires
            old(self).inv(),
        ensures
            *final(self) == old(self).write_spec(0x4017, data),
            final(self).inv(),
    {
        self.frame_counter.mode = (data >> 7u8) & 1;
        self.frame_counter.interrupt_inhibit = data & 0x40 != 0;
        self.frame_counter.step = 0;
        self.frame_counter.divider = 0;
        if self.frame_counter.mode == 1 {
            self.clock_quarter_frame();
            self.clock_half_frame();
        }
    }

    /// A CPU read of an APU register: the channel status at $4015, 0 elsewhere.
    pub fn read(&mut self, addr: u16) -> (r: u8)
        ensures
            r == old(self).read_spec(addr),
            *final(self) == *old(self),
    {
        if addr == 0x4015 {
            let mut status = 0u8;
            if self.pulse1.length_counter > 0 {
                assert(0u8 | 0x01u8 == 1u8) by (bit_vector);
                status = status | 0x01;
            }
            let s1 = status;
            assert(s1 < 2);
            if self.pulse2.length_counter > 0 {
                assert(s1 | 0x02 == s1 + 2) by (bit_vector) requires s1 < 2;
                status = status | 0x02;
            }
            let s2 = status;
            assert(s2 < 4);
            if self.triangle.length_counter > 0 {
                assert(s2 | 0x04 == s2 + 4) by (bit_vector) requires s2 < 4;
                status = status | 0x04;
            }
            let s3 = status;
            assert(s3 < 8);
            if self.noise.length_counter > 0 {
                assert(s3 | 0x08 == s3 + 8) by (bit_vector) requires s3 < 8;
                status = status | 0x08;
            }
            status
        } else {
            0
        }
    }

    /// Advances the APU by one CPU cycle and returns the channel levels that follow.
    pub fn step(&mut self) -> (r: ChannelLevels)
        requires
            old(self).inv(),
            old(self).cycles < u64::MAX,
        ensures
            *final(self) == old(self).step_spec(),
            final(self).inv(),
            r == final(self).levels_spec(),
    {
        self.cycles = self.cycles + 1;
        self.triangle.clock_timer();
        if self.cycles % 2 == 0 {
            self.pulse1.clock_timer();
            self.pulse2.clock_timer();
            self.noise.clock_timer();
        }
        self.clock_frame_counter();
        self.levels()
    }

    /// The current output levels of the four channels.
    pub fn levels(&self) -> (r: ChannelLevels)
        requires
            self.inv(),
        ensures
            r == self.levels_spec(),
    {
        ChannelLevels {
            pulse1: self.pulse1.output(),
            pulse2: self.pulse2.output(),
            triangle: self.triangle.output(),
            noise: self.noise.output(),
        }
    }

    fn clock_frame_counter(&mut self)
        requires
            old(self).inv(),
        ensures
            *final(self) == old(self).frame_counter_spec(),
            final(self).inv(),
    {
        self.frame_counter.divider = self.frame_counter.divider + 1;
        if self.frame_counter.divider < FRAME_COUNTER_RATE {
            return;
        }
        self.frame_counter.divider = 0;
        self.frame_counter.step = self.frame_counter.step + 1;
        if self.frame_counter.mode == 0 {
            if self.frame_counter.step == 1 || self.frame_counter.step == 3 {
                self.clock_quarter_frame();
            } else if self.frame_counter.step == 2 {
                self.clock_quarter_frame();
                self.clock_half_frame();
            } else if self.frame_counter.step == 4 {
                self.clock_quarter_frame();
                self.clock_half_frame();
                self.frame_counter.step = 0;
            } else {
                self.frame_counter.step = 0;
            }
        } else {
            if self.frame_counter.step == 1 || self.frame_counter.step == 3 {
                self.clock_quarter_frame();
            } else if self.frame_counter.step == 2 {
                self.clock_quarter_frame();
                self.clock_half_frame();
            } else if self.frame_counter.step == 4 {
            } else if self.frame_counter.step == 5 {
                self.clock_quarter_frame();
                self.clock_half_frame();
                self.frame_counter.step = 0;
            } else {
                self.frame_counter.step = 0;
            }
        }
    }

    fn clock_quarter_frame(&mut self)
        requires
            old(self).inv(),
        ensures
            *final(self) == old(self).quarter_frame_spec(),
            final(self).inv(),
    {
        self.pulse1.clock_envelope();
        self.pulse2.clock_envelope();
        self.triangle.clock_linear();
        self.noise.clock_envelope();
    }

    fn clock_half_frame(&mut self)
        requires
            old(self).inv(),
        ensures
            *final(self) == old(self).half_frame_spec(),
            final(self).inv(),
    {
        self.pulse1.clock_length();
        self.pulse2.clock_length();
        self.triangle.clock_length();
        self.noise.clock_length();
        self.pulse1.clock_sweep();
        self.pulse2.clock_sweep();
    }
}

/// A write to $4015 silences every channel whose bit it clears (its length counter
/// becomes 0, so the status register stops reporting it), and while a channel stays
/// disabled a length load through its fourth register does not start it.
pub proof fn lemma_disable_silences(a: Apu, d: u8, v: u8)
    ensures
        ({
            let b = a.write_spec(0x4015, d);
            &&& d & 0x01 == 0 ==> b.pulse1.length_counter == 0 && b.write_spec(0x4003, v).pulse1.length_counter == 0
            &&& d & 0x02 == 0 ==> b.pulse2.length_counter == 0 && b.write_spec(0x4007, v).pulse2.length_counter == 0
            &&& d & 0x04 == 0 ==> b.triangle.length_counter == 0 && b.write_spec(0x400B, v).triangle.length_counter == 0
            &&& d & 0x08 == 0 ==> b.noise.length_counter == 0 && b.write_spec(0x400F, v).noise.length_counter == 0
            &&& d & 0x01 == 0 && d & 0x02 == 0 && d & 0x04 == 0 && d & 0x08 == 0 ==> b.read_spec(0x4015) == 0
        }),
{
}

/// The length-counter halt flags: after a write to a channel's first register, each
/// half-frame clock counts that channel's length counter down by one, unless the write
/// set the halt flag (bit 5 at $4000, $4004 and $400C, bit 7 at $4008 for the triangle)
/// or the counter is already zero; a halted counter keeps its value, so the note keeps
/// sounding.
pub proof fn lemma_length_halt(a: Apu, d: u8)
    ensures
        ({
            let p1 = a.write_spec(0x4000, d).half_frame_spec().pulse1.length_counter;
            let p2 = a.write_spec(0x4004, d).half_frame_spec().pulse2.length_counter;
            let t = a.write_spec(0x4008, d).half_frame_spec().triangle.length_counter;
            let n = a.write_spec(0x400C, d).half_frame_spec().noise.length_counter;
            &&& p1 == if d & 0x20 != 0 || a.pulse1.length_counter == 0 {
                a.pulse1.length_counter as int
            } else {
                a.pulse1.length_counter - 1
            }
            &&& p2 == if d & 0x20 != 0 || a.pulse2.length_counter == 0 {
                a.pulse2.length_counter as int
            } else {
                a.pulse2.length_counter - 1
            }
            &&& t == if d & 0x80 != 0 || a.triangle.length_counter == 0 {
                a.triangle.length_counter as int
            } else {
                a.triangle.length_counter - 1
            }
            &&& n == if d & 0x20 != 0 || a.noise.length_counter == 0 {
                a.noise.length_counter as int
            } else {
                a.noise.length_counter - 1
            }
        }),
        a.pulse1.length_halt ==> a.half_frame_spec().pulse1.length_counter == a.pulse1.length_counter,
        a.pulse2.length_halt ==> a.half_frame_spec().pulse2.length_counter == a.pulse2.length_counter,
        a.triangle.control ==> a.half_frame_spec().triangle.length_counter == a.triangle.length_counter,
        a.noise.length_halt ==> a.half_frame_spec().noise.length_counter == a.noise.length_counter,
{
}

/// A pulse channel after `n` timer clocks.
pub open spec fn pulse_timer_clocks(p: PulseChannel, n: nat) -> PulseChannel
    decreases n,
{
    if n == 0 {
        p
    } else {
        pulse_timer_clocks(p, (n - 1) as nat).clock_timer_spec()
    }
}

/// A pulse channel after `n` envelope (quarter-frame) clocks.
pub open spec fn pulse_envelope_clocks(p: PulseChannel, n: nat) -> PulseChannel
    decreases n,
{
    if n == 0 {
        p
    } else {
        pulse_envelope_clocks(p, (n - 1) as nat).clock_envelope_spec()
    }
}

/// A noise channel after `n` envelope (quarter-frame) clocks.
pub open spec fn noise_envelope_clocks(c: NoiseChannel, n: nat) -> NoiseChannel
    decreases n,
{
    if n == 0 {
        c
    } else {
        noise_envelope_clocks(c, (n - 1) as nat).clock_envelope_spec()
    }
}

/// A triangle channel after `n` timer clocks.
pub open spec fn triangle_timer_clocks(t: TriangleChannel, n: nat) -> TriangleChannel
    decreases n,
{
    if n == 0 {
        t
    } else {
        triangle_timer_clocks(t, (n - 1) as nat).clock_timer_spec()
    }
}

proof fn lemma_pulse_timer_countdown(p: PulseChannel, k: nat)
    requires
        p.timer_counter == p.timer,
        k <= p.timer,
    ensures
        pulse_timer_clocks(p, k) == (PulseChannel { timer_counter: (p.timer - k) as u16, ..p }),
    decreases k,
{
    if k > 0 {
        lemma_pulse_timer_countdown(p, (k - 1) as nat);
    }
}

/// The pulse timer divides its clock by the period plus one: from a reload the counter
/// counts `timer`, `timer - 1`, ... down to 0 with the duty step unchanged, and the next
/// clock reloads it and moves the duty sequencer one step on (modulo 8).
pub proof fn lemma_pulse_timer(p: PulseChannel, k: nat)
    requires
        p.timer_counter == p.timer,
        k <= p.timer,
    ensures
        pulse_timer_clocks(p, k).timer_counter == p.timer - k,
        pulse_timer_clocks(p, k).sequencer_step == p.sequencer_step,
        pulse_timer_clocks(p, (p.timer + 1) as nat).timer_counter == p.timer,
        pulse_timer_clocks(p, (p.timer + 1) as nat).sequencer_step == (p.sequencer_step + 1) % 8,
{
    lemma_pulse_timer_countdown(p, k);
    lemma_pulse_timer_countdown(p, p.timer as nat);
}

proof fn lemma_triangle_timer_countdown(t: TriangleChannel, k: nat)
    requires
        t.timer_counter == t.timer,
        k <= t.timer,
    ensures
        triangle_timer_clocks(t, k) == (TriangleChannel { timer_counter: (t.timer - k) as u16, ..t }),
    decreases k,
{
    if k > 0 {
        lemma_triangle_timer_countdown(t, (k - 1) as nat);
    }
}

/// The triangle timer also divides by the period plus one; at each reload the 32-step
/// sequencer moves on (modulo 32) while both the length and the linear counter run, and
/// holds its step when either is zero.
pub proof fn lemma_triangle_timer(t: TriangleChannel, k: nat)
    requires
        t.timer_counter == t.timer,
        k <= t.timer,
    ensures
        triangle_timer_clocks(t, k).timer_counter == t.timer - k,
        triangle_timer_clocks(t, k).sequencer_step == t.sequencer_step,
        triangle_timer_clocks(t, (t.timer + 1) as nat).timer_counter == t.timer,
        triangle_timer_clocks(t, (t.timer + 1) as nat).sequencer_step == if t.length_counter > 0
            && t.linear_counter > 0 {
            (t.sequencer_step + 1) % 32
        } else {
            t.sequencer_step as int
        },
{
    lemma_triangle_timer_countdown(t, k);
    lemma_triangle_timer_countdown(t, t.timer as nat);
}

proof fn lemma_pulse_decay(p: PulseChannel, k: nat)
    requires
        p.envelope_start,
        p.volume == 0,
        1 <= k <= 16,
    ensures
        pulse_envelope_clocks(p, k) == (PulseChannel {
            envelope_start: false,
            envelope_divider: 0,
            envelope_decay: (16 - k) as u8,
            ..p
        }),
    decreases k,
{
    if k > 1 {
        lemma_pulse_decay(p, (k - 1) as nat);
    } else {
        assert(pulse_envelope_clocks(p, 0) == p);
    }
}

/// The envelope of a pulse channel with a divider period of 0: after a start (a write to
/// the channel's fourth register) the next quarter-frame clock sets the decay level to 15,
/// each further clock lowers it by one down to 0, and the clock after that keeps it at 0,
/// or wraps it to 15 when the length counter is halted (the loop flag).
pub proof fn lemma_pulse_envelope(p: PulseChannel, k: nat)
    requires
        p.envelope_start,
        p.volume == 0,
        1 <= k <= 16,
    ensures
        pulse_envelope_clocks(p, k).envelope_decay == 16 - k,
        pulse_envelope_clocks(p, 17).envelope_decay == if p.length_halt { 15int } else { 0int },
{
    lemma_pulse_decay(p, k);
    lemma_pulse_decay(p, 16);
}

proof fn lemma_noise_decay(c: NoiseChannel, k: nat)
    requires
        c.envelope_start,
        c.volume == 0,
        1 <= k <= 16,
    ensures
        noise_envelope_clocks(c, k) == (NoiseChannel {
            envelope_start: false,
            envelope_divider: 0,
            envelope_decay: (16 - k) as u8,
            ..c
        }),
    decreases k,
{
    if k > 1 {
        lemma_noise_decay(c, (k - 1) as nat);
    } else {
        assert(noise_envelope_clocks(c, 0) == c);
    }
}

/// The noise channel's envelope behaves as the pulse channels': with a divider period
/// of 0 it starts at 15, falls by one per quarter frame to 0, then stays there or wraps
/// to 15 when the length counter is halted.
pub proof fn lemma_noise_envelope(c: NoiseChannel, k: nat)
    requires
        c.envelope_start,
        c.volume == 0,
        1 <= k <= 16,
    ensures
        noise_envelope_clocks(c, k).envelope_decay == 16 - k,
        noise_envelope_clocks(c, 17).envelope_decay == if c.length_halt { 15int } else { 0int },
{
    lemma_noise_decay(c, k);
    lemma_noise_decay(c, 16);
}

/// The sweep unit. With negation, pulse 1 aims one period lower than pulse 2 would for
/// the same period and shift (one's against two's complement); without it, the target is
/// never below the period. A sweep clock with the divider at 0, the sweep enabled, a
/// non-zero shift and a target of at most $7FF moves the period to the target, and a
/// target above $7FF silences the channel whatever else holds.
pub proof fn lemma_sweep(p: PulseChannel)
    ensures
        p.sweep_negate ==> (PulseChannel { channel: 1, ..p }).sweep_target() == (PulseChannel {
            channel: 2,
            ..p
        }).sweep_target() - 1,
        !p.sweep_negate ==> p.sweep_target() >= p.timer,
        p.sweep_divider == 0 && p.sweep_enabled && p.sweep_shift > 0 && 0 <= p.sweep_target() <= 0x7FF
            ==> p.clock_sweep_spec().timer == p.sweep_target(),
        p.sweep_target() > 0x7FF ==> p.output_spec() == 0,
        p.clock_sweep_spec().length_counter == p.length_counter,
{
}

/// The triangle's linear counter: a reload request sets it to the reload value at the
/// next quarter-frame clock. With the control flag set the request stays, so every
/// following clock reloads it again; with the control flag clear the request is dropped
/// and the next clock counts the counter down by one (it stops at 0).
pub proof fn lemma_linear_counter(t: TriangleChannel)
    requires
        t.linear_reload,
    ensures
        t.clock_linear_spec().linear_counter == t.linear_load,
        t.control ==> t.clock_linear_spec().clock_linear_spec().linear_counter == t.linear_load,
        !t.control ==> t.clock_linear_spec().clock_linear_spec().linear_counter == if t.linear_load > 0 {
            t.linear_load - 1
        } else {
            0
        },
{
}

} // verus!
