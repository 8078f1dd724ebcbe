//! The audio processing unit's register logic: its channels, sweep units,
//! length counters and delta-modulation channel.
pub mod channel;
pub mod wave;

use vstd::prelude::*;
use crate::bits::{lemma_byte_masks, lemma_byte_fields, lemma_byte_arith};
use channel::{SoundChannel, SweepUnit, length_ticked, sweep_clocked};

verus! {

/// The noise channel's timer periods.
pub open spec fn noise_period_table() -> Seq<u16> {
    seq![4, 8, 16, 32, 64, 96, 128, 160, 202, 254, 380, 508, 762, 1016, 2034, 4068]
}

/// The length-counter load values, by the top five bits of a length
/// register write.
pub open spec fn length_table() -> Seq<u8> {
    seq![
        10, 254, 20, 2, 40, 4, 80, 6, 160, 8, 60, 10, 14, 12, 26, 14, 12, 16, 24, 18, 48, 20, 96, 22, 192, 24, 72,
        26, 16, 28, 32, 30,
    ]
}

/// The delta-modulation channel's timer periods.
pub open spec fn dmc_periods() -> Seq<u16> {
    seq![428, 380, 340, 320, 286, 254, 226, 214, 190, 160, 142, 128, 106, 85, 71, 64]
}

/// The CPU clock in Hz, the numerator of every channel frequency.
pub const CPU_CLOCK_HZ: u32 = 1_789_773;

/// The frequency of a pulse channel with timer `timer`, as a fraction:
/// the CPU clock over 16 (timer + 1), or zero for timer 0.
pub open spec fn pulse_frequency(timer: u16) -> (u32, u32) {
    if timer == 0 {
        (0, 1)
    } else {
        (CPU_CLOCK_HZ, (16 * (timer as int + 1)) as u32)
    }
}

/// The frequency of the triangle channel with timer `timer`: the CPU
/// clock over 32 (timer + 1), or zero for timer 0.
pub open spec fn triangle_frequency(timer: u16) -> (u32, u32) {
    if timer == 0 {
        (0, 1)
    } else {
        (CPU_CLOCK_HZ, (32 * (timer as int + 1)) as u32)
    }
}

/// The frequency of the noise channel with timer period `period`.
pub open spec fn noise_frequency(period: u16) -> (u32, u32) {
    (CPU_CLOCK_HZ, (period as int * 2) as u32)
}

/// The 11-bit timer made of the low three bits of `high` and `low`.
pub open spec fn timer_of(high: u8, low: u8) -> u16 {
    ((high as int % 8) * 256 + low as int) as u16
}

/// The frequency of a pulse channel with timer `timer`, as a fraction.
pub fn get_frequency_from_timer_value(timer: u16) -> (r: (u32, u32))
    ensures
        r == pulse_frequency(timer),
{
    if timer == 0 {
        (0, 1)
    } else {
        (CPU_CLOCK_HZ, 16 * (timer as u32 + 1))
    }
}

/// The audio processing unit's registers and channel state.
pub struct Apu {
    pub mute: bool,
    pub pulse1_duty: u8,
    pub pulse1_sweep: u8,
    pub pulse1_timer_low: u8,
    pub pulse1_timer_high: u8,
    pub pulse1: SoundChannel,
    pub pulse1_sweep_unit: SweepUnit,
    pub pulse1_timer: u16,
    pub pulse2_duty: u8,
    pub pulse2_sweep: u8,
    pub pulse2_timer_low: u8,
    pub pulse2_timer_high: u8,
    pub pulse2: SoundChannel,
    pub pulse2_sweep_unit: SweepUnit,
    pub pulse2_timer: u16,
    pub triangle_linear: u8,
    pub triangle_timer_low: u8,
    pub triangle_timer_high: u8,
    pub triangle: SoundChannel,
    pub triangle_timer: u16,
    pub noise_volume: u8,
    pub noise_period: u8,
    pub noise_length: u8,
    pub noise: SoundChannel,
    pub noise_mode: bool,
    pub dmc: SoundChannel,
    pub dmc_control: u8,
    pub dmc_direct_load: u8,
    pub dmc_sample_address_reg: u8,
    pub dmc_sample_length_reg: u8,
    pub dmc_current_address: u16,
    pub dmc_bytes_remaining: u16,
    pub dmc_sample_buffer: u8,
    pub dmc_bits_remaining: u8,
    pub dmc_delta_counter: u8,
    pub dmc_timer: u16,
    pub dmc_timer_counter: u16,
    pub dmc_interrupt_flag: bool,
    pub dmc_loop_flag: bool,
    pub dmc_silence: bool,
    pub status: u8,
    pub frame_counter: u8,
    pub length_counter_table: [u8; 32],
    pub dmc_period_table: [u16; 16],
}

/// `c` after a control write of `data` (volume in the low nibble, length
/// counter halt in bit 5) and with `enabled` applied.
pub open spec fn channel_controlled(c: SoundChannel, data: u8, enabled: bool) -> SoundChannel {
    SoundChannel {
        volume: ((data % 16) as u8, 15u8),
        length_counter_halt: data % 64 >= 32,
        enabled,
        length_counter: if enabled { c.length_counter } else { 0 },
        ..c
    }
}

/// `c` after a length write of `data`: the counter loads from the length
/// table, and the channel turns on if its status bit is set.
pub open spec fn channel_length_loaded(c: SoundChannel, data: u8, status_on: bool) -> SoundChannel {
    let loaded = SoundChannel { length_counter: length_table()[data as int / 8], ..c };
    if status_on { SoundChannel { enabled: true, ..loaded } } else { loaded }
}

/// `c` after a write of `on` to its bit of the status register: off
/// empties the length counter and disables the channel.
pub open spec fn channel_status(c: SoundChannel, on: bool) -> SoundChannel {
    SoundChannel { enabled: on, length_counter: if on { c.length_counter } else { 0 }, ..c }
}

impl Apu {
    /// The APU's invariant: the tables hold their values and the DMC
    /// shift position is a bit index.
    pub open spec fn wf(&self) -> bool {
        &&& self.length_counter_table@ == length_table()
        &&& self.dmc_period_table@ == dmc_periods()
        &&& self.dmc_bits_remaining < 8
        &&& self.dmc_delta_counter < 128
        &&& self.pulse1_sweep_unit.shift_amount < 8
        &&& self.pulse2_sweep_unit.shift_amount < 8
    }

    /// The channel and the DMC after starting a sample: address $C000 plus
    /// 64 times the address register, length 16 times the length register
    /// plus one, and the fetch due at once.
    pub open spec fn playback_started(self) -> Apu {
        Apu {
            dmc_current_address: (0xC000 + self.dmc_sample_address_reg as int * 64) as u16,
            dmc_bytes_remaining: (self.dmc_sample_length_reg as int * 16 + 1) as u16,
            dmc_timer_counter: 0,
            dmc_bits_remaining: 0,
            dmc: SoundChannel { enabled: true, ..self.dmc },
            dmc_silence: false,
            dmc_interrupt_flag: false,
            ..self
        }
    }
}


/// The sweep unit after a write of `data` to its register.
pub open spec fn sweep_written(s: SweepUnit, data: u8) -> SweepUnit {
    SweepUnit {
        enabled: data >= 128,
        divider_period: ((data / 16) % 8 + 1) as u8,
        negate_flag: data % 16 >= 8,
        shift_amount: data % 8,
        divider_counter: ((data / 16) % 8 + 1) as u8,
        mute: false,
    }
}

/// The APU after a CPU write of `data` to pulse 1 register `address`.
pub open spec fn pulse1_written(a: Apu, address: u16, data: u8) -> Apu {
    let st = a.status;
    if address == 0x4000 {
        Apu { pulse1_duty: data, pulse1: channel_controlled(a.pulse1, data, st % 2 == 1), ..a }
    } else if address == 0x4001 {
        Apu { pulse1_sweep: data, pulse1_sweep_unit: sweep_written(a.pulse1_sweep_unit, data), ..a }
    } else if address == 0x4002 {
        let t = timer_of(a.pulse1_timer_high, data);
        Apu {
            pulse1_timer_low: data,
            pulse1_timer: t,
            pulse1: SoundChannel { frequency: pulse_frequency(t), ..a.pulse1 },
            ..a
        }
    } else if address == 0x4003 {
        let high = (data % 8) as u8;
        let t = timer_of(high, a.pulse1_timer_low);
        Apu {
            pulse1_timer_high: high,
            pulse1_timer: t,
            pulse1: channel_length_loaded(SoundChannel { frequency: pulse_frequency(t), ..a.pulse1 }, data, st % 2 == 1),
            pulse1_sweep_unit: SweepUnit {
                divider_counter: a.pulse1_sweep_unit.divider_period,
                mute: false,
                ..a.pulse1_sweep_unit
            },
            ..a
        }
    } else {
        a
    }
}

/// The APU after a CPU write of `data` to pulse 2 register `address`.
pub open spec fn pulse2_written(a: Apu, address: u16, data: u8) -> Apu {
    let st = a.status;
    if address == 0x4004 {
        Apu { pulse2_duty: data, pulse2: channel_controlled(a.pulse2, data, (st / 2) % 2 == 1), ..a }
    } else if address == 0x4005 {
        Apu { pulse2_sweep: data, pulse2_sweep_unit: sweep_written(a.pulse2_sweep_unit, data), ..a }
    } else if address == 0x4006 {
        let t = timer_of(a.pulse2_timer_high, data);
        Apu {
            pulse2_timer_low: data,
            pulse2_timer: t,
            pulse2: SoundChannel { frequency: pulse_frequency(t), ..a.pulse2 },
            ..a
        }
    } else if address == 0x4007 {
        let high = (data % 8) as u8;
        let t = timer_of(high, a.pulse2_timer_low);
        Apu {
            pulse2_timer_high: high,
            pulse2_timer: t,
            pulse2: channel_length_loaded(
                SoundChannel { frequency: pulse_frequency(t), ..a.pulse2 },
                data,
                (st / 2) % 2 == 1,
            ),
            pulse2_sweep_unit: SweepUnit {
                divider_counter: a.pulse2_sweep_unit.divider_period,
                mute: false,
                ..a.pulse2_sweep_unit
            },
            ..a
        }
    } else {
        a
    }
}

/// The APU after a CPU write of `data` to triangle register `address`.
pub open spec fn triangle_written(a: Apu, address: u16, data: u8) -> Apu {
    let st = a.status;
    if address == 0x4008 {
        let halted = SoundChannel { length_counter_halt: data >= 128, ..a.triangle };
        Apu {
            triangle_linear: data,
            triangle: SoundChannel { volume: (9u8, 10u8), ..channel_status(halted, (st / 4) % 2 == 1) },
            ..a
        }
    } else if address == 0x400A {
        let t = timer_of(a.triangle_timer_high, data);
        Apu {
            triangle_timer_low: data,
            triangle_timer: t,
            triangle: SoundChannel { frequency: triangle_frequency(t), ..a.triangle },
            ..a
        }
    } else if address == 0x400B {
        let high = (data % 8) as u8;
        let t = timer_of(high, a.triangle_timer_low);
        Apu {
            triangle_timer_high: high,
            triangle_timer: t,
            triangle: channel_length_loaded(
                SoundChannel { frequency: triangle_frequency(t), ..a.triangle },
                data,
                (st / 4) % 2 == 1,
            ),
            ..a
        }
    } else {
        a
    }
}

/// The APU after a CPU write of `data` to noise register `address`.
pub open spec fn noise_written(a: Apu, address: u16, data: u8) -> Apu {
    let st = a.status;
    if address == 0x400C {
        Apu { noise_volume: data, noise: channel_controlled(a.noise, data, (st / 8) % 2 == 1), ..a }
    } else if address == 0x400E {
        Apu {
            noise_period: data,
            noise_mode: data >= 128,
            noise: SoundChannel { frequency: noise_frequency(noise_period_table()[data as int % 16]), ..a.noise },
            ..a
        }
    } else if address == 0x400F {
        Apu { noise_length: data, noise: channel_length_loaded(a.noise, data, (st / 8) % 2 == 1), ..a }
    } else {
        a
    }
}

/// The APU after a CPU write of `data` to DMC register `address`.
pub open spec fn dmc_written(a: Apu, address: u16, data: u8) -> Apu {
    let st = a.status;
    if address == 0x4010 {
        Apu {
            dmc_control: data,
            dmc_loop_flag: data % 128 >= 64,
            dmc_interrupt_flag: if data < 128 { false } else { a.dmc_interrupt_flag },
            dmc_timer: dmc_periods()[data as int % 16],
            ..a
        }
    } else if address == 0x4011 {
        Apu { dmc_direct_load: data, dmc_delta_counter: (data % 128) as u8, ..a }
    } else if address == 0x4012 {
        Apu { dmc_sample_address_reg: data, ..a }
    } else if address == 0x4013 {
        Apu { dmc_sample_length_reg: data, ..a }
    } else {
        a
    }
}

/// The APU after a CPU write of `data` to status register `address`.
pub open spec fn status_written(a: Apu, address: u16, data: u8) -> Apu {
    let st = a.status;
    if address == 0x4015 {
        let b = Apu {
            status: (data % 16) as u8,
            pulse1: channel_status(a.pulse1, data % 2 == 1),
            pulse2: channel_status(a.pulse2, (data / 2) % 2 == 1),
            triangle: channel_status(a.triangle, (data / 4) % 2 == 1),
            noise: channel_status(a.noise, (data / 8) % 2 == 1),
            ..a
        };
        let c = if (data / 16) % 2 == 1 {
            if a.dmc_bytes_remaining == 0 { b.playback_started() } else { b }
        } else {
            Apu { dmc_bytes_remaining: 0, dmc: channel_status(b.dmc, false), ..b }
        };
        Apu { dmc_interrupt_flag: false, ..c }
    } else {
        a
    }
}

/// The APU after the CPU writes `data` to register `address`:
/// $4000-$4003 pulse 1, $4004-$4007 pulse 2, $4008-$400B triangle,
/// $400C-$400F noise, $4010-$4013 DMC, $4015 channel enables, $4017 frame
/// counter; other addresses are ignored.
pub open spec fn register_written(a: Apu, address: u16, data: u8) -> Apu {
    if 0x4000 <= address <= 0x4003 {
        pulse1_written(a, address, data)
    } else if 0x4004 <= address <= 0x4007 {
        pulse2_written(a, address, data)
    } else if 0x4008 <= address <= 0x400B {
        triangle_written(a, address, data)
    } else if 0x400C <= address <= 0x400F {
        noise_written(a, address, data)
    } else if 0x4010 <= address <= 0x4013 {
        dmc_written(a, address, data)
    } else if address == 0x4015 {
        status_written(a, address, data)
    } else if address == 0x4017 {
        Apu { frame_counter: data, ..a }
    } else {
        a
    }
}

impl Apu {
    fn update_pulse1_frequency(&mut self)
        ensures
            ({
                let t = timer_of(old(self).pulse1_timer_high, old(self).pulse1_timer_low);
                *final(self) == (Apu {
                    pulse1_timer: t,
                    pulse1: SoundChannel { frequency: pulse_frequency(t), ..old(self).pulse1 },
                    ..*old(self)
                })
            }),
    {
        let high = self.pulse1_timer_high;
        let low = self.pulse1_timer_low;
        let timer = timer_value(high, low);
        self.pulse1_timer = timer;
        let freq = get_frequency_from_timer_value(timer);
        self.pulse1.set_frequency(freq);
    }

    fn update_pulse2_frequency(&mut self)
        ensures
            ({
                let t = timer_of(old(self).pulse2_timer_high, old(self).pulse2_timer_low);
                *final(self) == (Apu {
                    pulse2_timer: t,
                    pulse2: SoundChannel { frequency: pulse_frequency(t), ..old(self).pulse2 },
                    ..*old(self)
                })
            }),
    {
        let high = self.pulse2_timer_high;
        let low = self.pulse2_timer_low;
        let timer = timer_value(high, low);
        self.pulse2_timer = timer;
        let freq = get_frequency_from_timer_value(timer);
        self.pulse2.set_frequency(freq);
    }

    fn update_triangle_frequency(&mut self)
        ensures
            ({
                let t = timer_of(old(self).triangle_timer_high, old(self).triangle_timer_low);
                *final(self) == (Apu {
                    triangle_timer: t,
                    triangle: SoundChannel { frequency: triangle_frequency(t), ..old(self).triangle },
                    ..*old(self)
                })
            }),
    {
        let high = self.triangle_timer_high;
        let low = self.triangle_timer_low;
        let timer = timer_value(high, low);
        self.triangle_timer = timer;
        let freq: (u32, u32) = if timer == 0 {
            (0, 1)
        } else {
            (CPU_CLOCK_HZ, 32 * (timer as u32 + 1))
        };
        self.triangle.set_frequency(freq);
    }

    fn update_noise_frequency(&mut self)
        ensures
            *final(self) == (Apu {
                noise: SoundChannel {
                    frequency: noise_frequency(noise_period_table()[old(self).noise_period as int % 16]),
                    ..old(self).noise
                },
                ..*old(self)
            }),
    {
        let period_table: [u16; 16] = [4, 8, 16, 32, 64, 96, 128, 160, 202, 254, 380, 508, 762, 1016, 2034, 4068];
        assert(period_table@ == noise_period_table());
        proof {
            lemma_byte_masks(self.noise_period);
        }
        let period_idx = self.noise_period & 0x0F;
        let period = period_table[period_idx as usize];
        self.noise.set_frequency((CPU_CLOCK_HZ, period as u32 * 2));
    }
}

/// A write of `on` to a channel's status bit: off empties its length
/// counter and disables it.
fn switch_channel(c: &mut SoundChannel, on: bool)
    ensures
        *final(c) == channel_status(*old(c), on),
{
    if !on {
        c.set_length_counter(0);
    }
    c.set_enabled(on);
}

/// The 11-bit timer of the low three bits of `high` and `low`, built as
/// the APU builds it.
fn timer_value(high: u8, low: u8) -> (r: u16)
    ensures
        r == timer_of(high, low),
{
    let h = high as u16;
    let l = low as u16;
    assert(((h & 0x07u16) << 8u16) | l == (h % 8) * 256 + l) by (bit_vector)
        requires
            h < 256,
            l < 256,
    ;
    ((h & 0x07) << 8) | l
}

impl Apu {
    /// Starts the DMC sample from its address and length registers.
    fn dmc_start_playback(&mut self)
        ensures
            *final(self) == old(self).playback_started(),
    {
        let a = self.dmc_sample_address_reg as u16;
        let l = self.dmc_sample_length_reg as u16;
        assert(0xC000u16 | (a << 6u16) == 0xC000 + a * 64) by (bit_vector)
            requires
                a < 256,
        ;
        assert((l << 4u16) == l * 16) by (bit_vector)
            requires
                l < 256,
        ;
        self.dmc_current_address = 0xC000 | (a << 6);
        self.dmc_bytes_remaining = (l << 4) + 1;
        self.dmc_timer_counter = 0;
        self.dmc_bits_remaining = 0;
        self.dmc.enabled = true;
        self.dmc_silence = false;
        self.dmc_interrupt_flag = false;
    }

    /// A CPU write to a pulse 1 register.
    #[verifier::rlimit(40)]
    fn write_pulse1(&mut self, address: u16, data: u8)
        requires
            old(self).wf(),
            0x4000 <= address <= 0x4003,
        ensures
            *final(self) == pulse1_written(*old(self), address, data),
            final(self).wf(),
    {
        proof {
            lemma_byte_masks(data);
            lemma_byte_fields(data);
            lemma_byte_masks(self.status);
        }
        match address {
            0x4000 => {
                self.pulse1_duty = data;
                self.pulse1.set_volume((data & 0x0F, 15));
                self.pulse1.set_length_counter_halt((data & 0x20) != 0);
                let status = self.status;
                self.pulse1.set_enabled((status & 0x01) != 0);
            },
            0x4001 => {
                self.pulse1_sweep = data;
                self.pulse1_sweep_unit.write(data);
            },
            0x4002 => {
                self.pulse1_timer_low = data;
                self.update_pulse1_frequency();
            },
            0x4003 => {
                self.pulse1_timer_high = data & 0b0000_0111;
                self.update_pulse1_frequency();
                let length_index = (data >> 3) & 0x1F;
                let length_value = self.length_counter_table[length_index as usize];
                self.pulse1.set_length_counter(length_value);
                self.pulse1_sweep_unit.reset_divider();
                let status = self.status;
                if (status & 0x01) != 0 {
                    self.pulse1.set_enabled(true);
                }
            },
            _ => {},
        }
    }

    /// A CPU write to a pulse 2 register.
    #[verifier::rlimit(40)]
    fn write_pulse2(&mut self, address: u16, data: u8)
        requires
            old(self).wf(),
            0x4004 <= address <= 0x4007,
        ensures
            *final(self) == pulse2_written(*old(self), address, data),
            final(self).wf(),
    {
        proof {
            lemma_byte_masks(data);
            lemma_byte_fields(data);
            lemma_byte_masks(self.status);
        }
        match address {
            0x4004 => {
                self.pulse2_duty = data;
                self.pulse2.set_volume((data & 0x0F, 15));
                self.pulse2.set_length_counter_halt((data & 0x20) != 0);
                let status = self.status;
                self.pulse2.set_enabled((status & 0x02) != 0);
            },
            0x4005 => {
                self.pulse2_sweep = data;
                self.pulse2_sweep_unit.write(data);
            },
            0x4006 => {
                self.pulse2_timer_low = data;
                self.update_pulse2_frequency();
            },
            0x4007 => {
                self.pulse2_timer_high = data & 0b0000_0111;
                self.update_pulse2_frequency();
                let length_index = (data >> 3) & 0x1F;
                let length_value = self.length_counter_table[length_index as usize];
                self.pulse2.set_length_counter(length_value);
                self.pulse2_sweep_unit.reset_divider();
                let status = self.status;
                if (status & 0x02) != 0 {
                    self.pulse2.set_enabled(true);
                }
            },
            _ => {},
        }
    }

    /// A CPU write to a triangle register.
    #[verifier::rlimit(40)]
    fn write_triangle(&mut self, address: u16, data: u8)
        requires
            old(self).wf(),
            0x4008 <= address <= 0x400B,
        ensures
            *final(self) == triangle_written(*old(self), address, data),
            final(self).wf(),
    {
        proof {
            lemma_byte_masks(data);
            lemma_byte_fields(data);
            lemma_byte_masks(self.status);
        }
        match address {
            0x4008 => {
                self.triangle_linear = data;
                self.triangle.set_length_counter_halt((data & 0x80) != 0);
                let status = self.status;
                self.triangle.set_enabled((status & 0x04) != 0);
                self.triangle.set_volume((9, 10));
            },
            0x4009 => {},
            0x400A => {
                self.triangle_timer_low = data;
                self.update_triangle_frequency();
            },
            0x400B => {
                self.triangle_timer_high = data & 0b0000_0111;
                self.update_triangle_frequency();
                let length_index = (data >> 3) & 0x1F;
                let length_value = self.length_counter_table[length_index as usize];
                self.triangle.set_length_counter(length_value);
                let status = self.status;
                if (status & 0x04) != 0 {
                    self.triangle.set_enabled(true);
                }
            },
            _ => {},
        }
    }

    /// A CPU write to a noise register.
    #[verifier::rlimit(40)]
    fn write_noise(&mut self, address: u16, data: u8)
        requires
            old(self).wf(),
            0x400C <= address <= 0x400F,
        ensures
            *final(self) == noise_written(*old(self), address, data),
            final(self).wf(),
    {
        proof {
            lemma_byte_masks(data);
            lemma_byte_fields(data);
            lemma_byte_masks(self.status);
        }
        match address {
            0x400C => {
                self.noise_volume = data;
                self.noise.set_volume((data & 0x0F, 15));
                self.noise.set_length_counter_halt((data & 0x20) != 0);
                let status = self.status;
                self.noise.set_enabled((status & 0x08) != 0);
            },
            0x400D => {},
            0x400E => {
                self.noise_period = data;
                self.noise_mode = (data & 0x80) != 0;
                self.update_noise_frequency();
            },
            0x400F => {
                self.noise_length = data;
                let length_index = (data >> 3) & 0x1F;
                let length_value = self.length_counter_table[length_index as usize];
                self.noise.set_length_counter(length_value);
                let status = self.status;
                if (status & 0x08) != 0 {
                    self.noise.set_enabled(true);
                }
            },
            _ => {},
        }
    }

    /// A CPU write to a DMC register.
    #[verifier::rlimit(40)]
    fn write_dmc(&mut self, address: u16, data: u8)
        requires
            old(self).wf(),
            0x4010 <= address <= 0x4013,
        ensures
            *final(self) == dmc_written(*old(self), address, data),
            final(self).wf(),
    {
        proof {
            lemma_byte_masks(data);
            lemma_byte_fields(data);
            lemma_byte_masks(self.status);
        }
        match address {
            0x4010 => {
                self.dmc_control = data;
                self.dmc_loop_flag = (data & 0x40) != 0;
                if (data & 0x80) == 0 {
                    self.dmc_interrupt_flag = false;
                }
                self.dmc_timer = self.dmc_period_table[(data & 0x0F) as usize];
            },
            0x4011 => {
                self.dmc_direct_load = data;
                self.dmc_delta_counter = data & 0x7F;
            },
            0x4012 => {
                self.dmc_sample_address_reg = data;
            },
            0x4013 => {
                self.dmc_sample_length_reg = data;
            },
            _ => {},
        }
    }

    /// A CPU write to a status register.
    /// A CPU write to the status register: the channel enables, and the
    /// DMC started or stopped.
    #[verifier::rlimit(40)]
    fn write_status(&mut self, address: u16, data: u8)
        requires
            old(self).wf(),
            address == 0x4015,
        ensures
            *final(self) == status_written(*old(self), address, data),
            final(self).wf(),
    {
        proof {
            lemma_byte_masks(data);
        }
        self.status = data & 0x0F;
        switch_channel(&mut self.pulse1, (data & 0x01) != 0);
        switch_channel(&mut self.pulse2, (data & 0x02) != 0);
        switch_channel(&mut self.triangle, (data & 0x04) != 0);
        switch_channel(&mut self.noise, (data & 0x08) != 0);
        if (data & 0x10) != 0 {
            if self.dmc_bytes_remaining == 0 {
                self.dmc_start_playback();
            }
        } else {
            self.dmc_bytes_remaining = 0;
            self.dmc.set_enabled(false);
        }
        self.dmc_interrupt_flag = false;
    }

    /// A CPU write of `data` to APU register `address`.
    pub fn cpu_write(&mut self, address: u16, data: u8)
        requires
            old(self).wf(),
        ensures
            *final(self) == register_written(*old(self), address, data),
            final(self).wf(),
    {
        if 0x4000 <= address && address <= 0x4003 {
            self.write_pulse1(address, data);
        } else if 0x4004 <= address && address <= 0x4007 {
            self.write_pulse2(address, data);
        } else if 0x4008 <= address && address <= 0x400B {
            self.write_triangle(address, data);
        } else if 0x400C <= address && address <= 0x400F {
            self.write_noise(address, data);
        } else if 0x4010 <= address && address <= 0x4013 {
            self.write_dmc(address, data);
        } else if address == 0x4015 {
            self.write_status(address, data);
        } else if address == 0x4017 {
            self.frame_counter = data;
        }
    }

}

/// What a CPU read of APU register `address` returns: the last value
/// written to a channel register (the high timer bits masked), at $4015
/// the length-counter, DMC and DMC-interrupt status, at $4017 the frame
/// counter, 0 elsewhere.
pub open spec fn register_value(a: Apu, address: u16) -> u8 {
    if address == 0x4000 {
        a.pulse1_duty
    } else if address == 0x4001 {
        a.pulse1_sweep
    } else if address == 0x4002 {
        a.pulse1_timer_low
    } else if address == 0x4003 {
        a.pulse1_timer_high
    } else if address == 0x4004 {
        a.pulse2_duty
    } else if address == 0x4005 {
        a.pulse2_sweep
    } else if address == 0x4006 {
        a.pulse2_timer_low
    } else if address == 0x4007 {
        a.pulse2_timer_high
    } else if address == 0x4008 {
        a.triangle_linear
    } else if address == 0x400A {
        a.triangle_timer_low
    } else if address == 0x400B {
        a.triangle_timer_high
    } else if address == 0x400C {
        a.noise_volume
    } else if address == 0x400E {
        a.noise_period
    } else if address == 0x400F {
        a.noise_length
    } else if address == 0x4015 {
        ((if a.pulse1.length_counter > 0 { 0x01int } else { 0 }) + (if a.pulse2.length_counter > 0 {
            0x02int
        } else {
            0
        }) + (if a.triangle.length_counter > 0 { 0x04int } else { 0 }) + (if a.noise.length_counter > 0 {
            0x08int
        } else {
            0
        }) + (if a.dmc_bytes_remaining > 0 { 0x10int } else { 0 }) + (if a.dmc_interrupt_flag {
            0x80int
        } else {
            0
        })) as u8
    } else if address == 0x4017 {
        a.frame_counter
    } else {
        0
    }
}

/// The DMC after fetching its next sample byte, `sample`, the byte at its
/// current address: with bytes left, the byte is buffered, the address
/// advances (from $FFFF to $8000), and at the end of the sample it
/// restarts (looping) or raises its interrupt; with none left it falls
/// silent.
pub open spec fn dmc_fetched(a: Apu, sample: u8) -> Apu {
    if a.dmc_bytes_remaining > 0 {
        let b = Apu {
            dmc_sample_buffer: sample,
            dmc_silence: false,
            dmc_bits_remaining: 7,
            dmc_current_address: if a.dmc_current_address == 0xFFFF {
                0x8000
            } else {
                (a.dmc_current_address + 1) as u16
            },
            dmc_bytes_remaining: (a.dmc_bytes_remaining - 1) as u16,
            ..a
        };
        if b.dmc_bytes_remaining == 0 {
            if b.dmc_loop_flag { b.playback_started() } else { Apu { dmc_interrupt_flag: true, ..b } }
        } else {
            b
        }
    } else {
        Apu { dmc_silence: true, ..a }
    }
}

/// Whether the next DMC timer clock reads a sample byte from memory: the
/// timer runs out on the last bit of the buffered byte and bytes of the
/// sample are left.
pub open spec fn dmc_fetch_due(a: Apu) -> bool {
    let counter = if a.dmc_timer_counter > 0 { (a.dmc_timer_counter - 1) as u16 } else { 0 };
    counter == 0 && a.dmc_bits_remaining == 0 && a.dmc_bytes_remaining > 0
}

/// One DMC timer clock, `sample` being the byte at the DMC's current
/// address: the timer counts down; when it runs out it reloads, the next
/// bit of the sample (MSB first) moves the output level up or down by two
/// within 0-127 unless silent, and the next bit is selected or the next
/// byte fetched.
pub open spec fn dmc_clocked(a: Apu, sample: u8) -> Apu {
    let counter = if a.dmc_timer_counter > 0 { (a.dmc_timer_counter - 1) as u16 } else { 0 };
    if counter == 0 {
        let reloaded = Apu { dmc_timer_counter: a.dmc_timer, ..a };
        let level = a.dmc_delta_counter;
        let bit = (a.dmc_sample_buffer >> a.dmc_bits_remaining) & 1u8;
        let stepped = if a.dmc_silence {
            reloaded
        } else if bit == 1 {
            Apu { dmc_delta_counter: if level <= 125 { (level + 2) as u8 } else { level }, ..reloaded }
        } else {
            Apu { dmc_delta_counter: if level >= 2 { (level - 2) as u8 } else { level }, ..reloaded }
        };
        if a.dmc_bits_remaining == 0 {
            dmc_fetched(stepped, sample)
        } else {
            Apu { dmc_bits_remaining: (a.dmc_bits_remaining - 1) as u8, ..stepped }
        }
    } else {
        Apu { dmc_timer_counter: counter, ..a }
    }
}

/// The pulse sweep units clocked with their channels' timers, taking the
/// new timer (and frequency) each gives.
pub open spec fn sweeps_clocked(a: Apu) -> Apu {
    let (s1, t1) = sweep_clocked(a.pulse1_sweep_unit, a.pulse1_timer, 1);
    let (s2, t2) = sweep_clocked(a.pulse2_sweep_unit, a.pulse2_timer, 2);
    Apu {
        pulse1_sweep_unit: s1,
        pulse2_sweep_unit: s2,
        pulse1_timer: match t1 {
            Some(t) => t,
            None => a.pulse1_timer,
        },
        pulse2_timer: match t2 {
            Some(t) => t,
            None => a.pulse2_timer,
        },
        pulse1: match t1 {
            Some(t) => SoundChannel { frequency: pulse_frequency(t), ..a.pulse1 },
            None => a.pulse1,
        },
        pulse2: match t2 {
            Some(t) => SoundChannel { frequency: pulse_frequency(t), ..a.pulse2 },
            None => a.pulse2,
        },
        ..a
    }
}

/// Every length counter ticked; a channel stays on while its counter
/// runs and, for pulse channels, its sweep has not muted it.
pub open spec fn lengths_ticked(a: Apu) -> Apu {
    let (q1, on1) = length_ticked(a.pulse1);
    let (q2, on2) = length_ticked(a.pulse2);
    let (qt, ont) = length_ticked(a.triangle);
    let (qn, onn) = length_ticked(a.noise);
    Apu {
        pulse1: channel_status(q1, on1 && !a.pulse1_sweep_unit.mute),
        pulse2: channel_status(q2, on2 && !a.pulse2_sweep_unit.mute),
        triangle: channel_status(qt, ont),
        noise: channel_status(qn, onn),
        ..a
    }
}

/// One step of the frame sequencer: the sweeps, then the length
/// counters.
pub open spec fn frame_step(a: Apu) -> Apu {
    lengths_ticked(sweeps_clocked(a))
}

impl Apu {
    /// A silent APU: every register zero, all channels enabled in the
    /// status register, the DMC silent.
    pub fn new() -> (r: Self)
        ensures
            r.wf(),
            r.status == 0x0F,
            r.dmc_silence,
            !r.mute,
            r.pulse1 == SoundChannel::new_spec(),
            r.pulse2 == SoundChannel::new_spec(),
            r.triangle == SoundChannel::new_spec(),
            r.noise == SoundChannel::new_spec(),
            r.dmc == SoundChannel::new_spec(),
            r.pulse1_sweep_unit == SweepUnit::new_spec(),
            r.pulse2_sweep_unit == SweepUnit::new_spec(),
            r.pulse1_duty == 0 && r.pulse1_sweep == 0 && r.pulse1_timer_low == 0 && r.pulse1_timer_high == 0,
            r.pulse2_duty == 0 && r.pulse2_sweep == 0 && r.pulse2_timer_low == 0 && r.pulse2_timer_high == 0,
            r.pulse1_timer == 0 && r.pulse2_timer == 0 && r.triangle_timer == 0,
            r.triangle_linear == 0 && r.triangle_timer_low == 0 && r.triangle_timer_high == 0,
            r.noise_volume == 0 && r.noise_period == 0 && r.noise_length == 0 && !r.noise_mode,
            r.dmc_control == 0 && r.dmc_direct_load == 0 && r.dmc_sample_address_reg == 0,
            r.dmc_sample_length_reg == 0 && r.dmc_current_address == 0 && r.dmc_bytes_remaining == 0,
            r.dmc_sample_buffer == 0 && r.dmc_bits_remaining == 0 && r.dmc_delta_counter == 0,
            r.dmc_timer == 0 && r.dmc_timer_counter == 0 && !r.dmc_interrupt_flag && !r.dmc_loop_flag,
            r.frame_counter == 0,
    {
        let length_counter_table: [u8; 32] = [
            10, 254, 20, 2, 40, 4, 80, 6, 160, 8, 60, 10, 14, 12, 26, 14, 12, 16, 24, 18, 48, 20, 96, 22, 192, 24, 72,
            26, 16, 28, 32, 30,
        ];
        let dmc_period_table: [u16; 16] = [
            428, 380, 340, 320, 286, 254, 226, 214, 190, 160, 142, 128, 106, 85, 71, 64,
        ];
        assert(length_counter_table@ == length_table());
        assert(dmc_period_table@ == dmc_periods());
        Apu {
            mute: false,
            pulse1_duty: 0,
            pulse1_sweep: 0,
            pulse1_timer_low: 0,
            pulse1_timer_high: 0,
            pulse1: SoundChannel::new(),
            pulse1_sweep_unit: SweepUnit::new(),
            pulse1_timer: 0,
            pulse2_duty: 0,
            pulse2_sweep: 0,
            pulse2_timer_low: 0,
            pulse2_timer_high: 0,
            pulse2: SoundChannel::new(),
            pulse2_sweep_unit: SweepUnit::new(),
            pulse2_timer: 0,
            triangle_linear: 0,
            triangle_timer_low: 0,
            triangle_timer_high: 0,
            triangle: SoundChannel::new(),
            triangle_timer: 0,
            noise_volume: 0,
            noise_period: 0,
            noise_length: 0,
            noise: SoundChannel::new(),
            noise_mode: false,
            dmc: SoundChannel::new(),
            dmc_control: 0,
            dmc_direct_load: 0,
            dmc_sample_address_reg: 0,
            dmc_sample_length_reg: 0,
            dmc_current_address: 0,
            dmc_bytes_remaining: 0,
            dmc_sample_buffer: 0,
            dmc_bits_remaining: 0,
            dmc_delta_counter: 0,
            dmc_timer: 0,
            dmc_timer_counter: 0,
            dmc_interrupt_flag: false,
            dmc_loop_flag: false,
            dmc_silence: true,
            status: 0x0F,
            frame_counter: 0,
            length_counter_table,
            dmc_period_table,
        }
    }

    /// Mutes or unmutes the sound output.
    pub fn toggle_sound(&mut self)
        ensures
            *final(self) == (Apu { mute: !old(self).mute, ..*old(self) }),
    {
        let b = self.mute;
        self.mute = !b;
    }

    /// Whether the next DMC timer clock reads a sample byte (see
    /// `dmc_fetch_due`).
    pub fn dmc_sample_due(&self) -> (r: bool)
        ensures
            r == dmc_fetch_due(*self),
    {
        let counter: u16 = if self.dmc_timer_counter > 0 { self.dmc_timer_counter - 1 } else { 0 };
        counter == 0 && self.dmc_bits_remaining == 0 && self.dmc_bytes_remaining > 0
    }

    /// Buffers `sample` as the DMC's next sample byte (see `dmc_fetched`).
    fn dmc_fetch_sample(&mut self, sample: u8)
        requires
            old(self).wf(),
        ensures
            *final(self) == dmc_fetched(*old(self), sample),
            final(self).wf(),
    {
        if self.dmc_bytes_remaining > 0 {
            self.dmc_sample_buffer = sample;
            self.dmc_silence = false;
            self.dmc_bits_remaining = 7;
            if self.dmc_current_address == 0xFFFF {
                self.dmc_current_address = 0x8000;
            } else {
                self.dmc_current_address += 1;
            }
            self.dmc_bytes_remaining -= 1;
            if self.dmc_bytes_remaining == 0 {
                if self.dmc_loop_flag {
                    self.dmc_start_playback();
                } else {
                    self.dmc_interrupt_flag = true;
                }
            }
        } else {
            self.dmc_silence = true;
        }
    }

    /// One DMC timer clock (see `dmc_clocked`); `sample` is the byte at
    /// the DMC's current address, used only when a fetch is due.
    pub fn dmc_clock(&mut self, sample: u8)
        requires
            old(self).wf(),
        ensures
            *final(self) == dmc_clocked(*old(self), sample),
            final(self).wf(),
    {
        if self.dmc_timer_counter > 0 {
            self.dmc_timer_counter -= 1;
        }
        if self.dmc_timer_counter == 0 {
            self.dmc_timer_counter = self.dmc_timer;
            if !self.dmc_silence {
                let sample_bit = (self.dmc_sample_buffer >> self.dmc_bits_remaining) & 0x01;
                let mut delta_counter = self.dmc_delta_counter;
                if sample_bit == 1 {
                    if delta_counter <= 125 {
                        delta_counter += 2;
                    }
                } else {
                    if delta_counter >= 2 {
                        delta_counter -= 2;
                    }
                }
                self.dmc_delta_counter = delta_counter;
            }
            if self.dmc_bits_remaining == 0 {
                self.dmc_fetch_sample(sample);
            } else {
                self.dmc_bits_remaining -= 1;
            }
        }
    }

    /// A CPU read of APU register `address` (see `register_value`);
    /// reading $4015 clears the DMC interrupt flag.
    pub fn cpu_read(&mut self, address: u16) -> (r: u8)
        ensures
            r == register_value(*old(self), address),
            *final(self) == if address == 0x4015 {
                Apu { dmc_interrupt_flag: false, ..*old(self) }
            } else {
                *old(self)
            },
    {
        match address {
            0x4000 => self.pulse1_duty,
            0x4001 => self.pulse1_sweep,
            0x4002 => self.pulse1_timer_low,
            0x4003 => self.pulse1_timer_high,
            0x4004 => self.pulse2_duty,
            0x4005 => self.pulse2_sweep,
            0x4006 => self.pulse2_timer_low,
            0x4007 => self.pulse2_timer_high,
            0x4008 => self.triangle_linear,
            0x4009 => 0,
            0x400A => self.triangle_timer_low,
            0x400B => self.triangle_timer_high,
            0x400C => self.noise_volume,
            0x400D => 0,
            0x400E => self.noise_period,
            0x400F => self.noise_length,
            0x4015 => {
                let mut status: u8 = 0x00;
                if self.pulse1.length_counter > 0 {
                    status = status + 0x01;
                }
                if self.pulse2.length_counter > 0 {
                    status = status + 0x02;
                }
                if self.triangle.length_counter > 0 {
                    status = status + 0x04;
                }
                if self.noise.length_counter > 0 {
                    status = status + 0x08;
                }
                if self.dmc_bytes_remaining > 0 {
                    status = status + 0x10;
                }
                if self.dmc_interrupt_flag {
                    status = status + 0x80;
                }
                self.dmc_interrupt_flag = false;
                status
            },
            0x4017 => self.frame_counter,
            _ => 0,
        }
    }

    /// The sweep half of a frame-sequencer step.
    fn clock_sweeps(&mut self)
        requires
            old(self).wf(),
        ensures
            *final(self) == sweeps_clocked(*old(self)),
            final(self).wf(),
    {
        let current_pulse1_timer = self.pulse1_timer;
        let current_pulse2_timer = self.pulse2_timer;
        match self.pulse1_sweep_unit.clock(current_pulse1_timer, 1) {
            Some(new_timer) => {
                self.pulse1_timer = new_timer;
                self.pulse1.set_frequency(get_frequency_from_timer_value(new_timer));
            },
            None => {},
        }
        match self.pulse2_sweep_unit.clock(current_pulse2_timer, 2) {
            Some(new_timer) => {
                self.pulse2_timer = new_timer;
                self.pulse2.set_frequency(get_frequency_from_timer_value(new_timer));
            },
            None => {},
        }
    }

    /// The length-counter half of a frame-sequencer step.
    fn tick_lengths(&mut self)
        requires
            old(self).wf(),
        ensures
            *final(self) == lengths_ticked(*old(self)),
            final(self).wf(),
    {
        let pulse1_active = self.pulse1.decrement_length_counter();
        let pulse2_active = self.pulse2.decrement_length_counter();
        let triangle_active = self.triangle.decrement_length_counter();
        let noise_active = self.noise.decrement_length_counter();
        let pulse1_final_enabled = pulse1_active && !self.pulse1_sweep_unit.mute;
        let pulse2_final_enabled = pulse2_active && !self.pulse2_sweep_unit.mute;
        switch_channel_enable(&mut self.pulse1, pulse1_final_enabled);
        switch_channel_enable(&mut self.pulse2, pulse2_final_enabled);
        switch_channel_enable(&mut self.triangle, triangle_active);
        switch_channel_enable(&mut self.noise, noise_active);
    }

    /// One step of the frame sequencer (see `frame_step`).
    pub fn frame_sequencer_step(&mut self)
        requires
            old(self).wf(),
        ensures
            *final(self) == frame_step(*old(self)),
            final(self).wf(),
    {
        self.clock_sweeps();
        self.tick_lengths();
    }
}

/// Turns a channel on or off; off empties its length counter.
fn switch_channel_enable(c: &mut SoundChannel, on: bool)
    ensures
        *final(c) == channel_status(*old(c), on),
{
    c.set_enabled(on);
}

/// A channel register reads back what was last written to it (the timer
/// high registers keep only their low three bits).
pub proof fn law_register_read_back(a: Apu, address: u16, data: u8)
    requires
        0x4000 <= address <= 0x400F,
        address != 0x4009,
        address != 0x400D,
    ensures
        register_value(register_written(a, address, data), address) == if address == 0x4003 || address == 0x4007
            || address == 0x400B {
            data % 8
        } else {
            data
        },
{
}

/// Clearing a channel's bit in $4015 silences it: its length counter is
/// empty, it is disabled, and a read of $4015 shows its bit clear.
pub proof fn law_status_disable(a: Apu, data: u8)
    requires
        data % 2 == 0,
    ensures
        register_written(a, 0x4015, data).pulse1.length_counter == 0,
        !register_written(a, 0x4015, data).pulse1.enabled,
        register_value(register_written(a, 0x4015, data), 0x4015) % 2 == 0,
{
}

/// A DMC clock that fetches no sample byte does not depend on memory:
/// whatever byte stands at the DMC's address, the APU comes out the same.
pub proof fn law_dmc_clock_without_fetch(a: Apu, x: u8, y: u8)
    requires
        !dmc_fetch_due(a),
    ensures
        dmc_clocked(a, x) == dmc_clocked(a, y),
{
}

/// Starting a DMC sample: after `addr` is written to $4012 and `len` to
/// $4013, a write to $4015 with bit 4 set (and no sample playing) starts
/// playback at address $C000 + 64 * `addr` with 16 * `len` + 1 bytes to
/// play, the first byte due at the next DMC clock; with bit 4 clear, no
/// bytes remain.
pub proof fn law_dmc_sample_start(a: Apu, addr: u8, len: u8, data: u8)
    requires
        a.dmc_bytes_remaining == 0,
    ensures
        ({
            let b = register_written(register_written(register_written(a, 0x4012, addr), 0x4013, len), 0x4015, data);
            &&& data & 0x10 != 0 ==> b.dmc_bytes_remaining == len as int * 16 + 1
                && b.dmc_current_address == 0xC000 + addr as int * 64 && dmc_fetch_due(b)
            &&& data & 0x10 == 0 ==> b.dmc_bytes_remaining == 0
        }),
{
    lemma_byte_arith(data, 0);
}

/// The pulse 1 timer and length: writing `lo` to $4002 and `hi` to $4003
/// sets the 11-bit timer to the low three bits of `hi` over `lo`, the
/// channel's frequency to the CPU clock over 16 (timer + 1) (zero for
/// timer 0), and, with the channel's status bit on, enables it with its
/// length counter loaded from entry `hi >> 3` of the length table.
pub proof fn law_pulse_timer_and_length(a: Apu, lo: u8, hi: u8)
    ensures
        ({
            let b = register_written(register_written(a, 0x4002, lo), 0x4003, hi);
            let t = (hi as int % 8) * 256 + lo as int;
            &&& b.pulse1_timer as int == t
            &&& t > 0 ==> b.pulse1.frequency == (CPU_CLOCK_HZ, (16 * (t + 1)) as u32)
            &&& t == 0 ==> b.pulse1.frequency == (0u32, 1u32)
            &&& a.status % 2 == 1 ==> b.pulse1.enabled && b.pulse1.length_counter == length_table()[hi as int / 8]
        }),
{
}

} // verus!
