//! A sound channel's shared state and the sweep unit of the pulse
//! channels.
use vstd::prelude::*;
use crate::bits::lemma_byte_fields;

verus! {

/// What the mixer reads of a channel: frequency and volume as exact
/// fractions (numerator, denominator), whether it plays, and its length
/// counter.
#[derive(Debug, Clone, Copy)]
pub struct SoundChannel {
    pub frequency: (u32, u32),
    pub volume: (u8, u8),
    pub enabled: bool,
    pub length_counter: u8,
    pub length_counter_enabled: bool,
    pub length_counter_halt: bool,
}

/// One length-counter tick of `c`: unless halted or not counting, a
/// nonzero counter counts down; with whether the counter is still
/// nonzero.
pub open spec fn length_ticked(c: SoundChannel) -> (SoundChannel, bool) {
    if c.length_counter_halt || !c.length_counter_enabled {
        (c, c.length_counter > 0)
    } else if c.length_counter > 0 {
        (SoundChannel { length_counter: (c.length_counter - 1) as u8, ..c }, c.length_counter > 1)
    } else {
        (c, false)
    }
}

impl SoundChannel {
    /// The silent channel `new` makes.
    pub open spec fn new_spec() -> SoundChannel {
        SoundChannel {
            frequency: (0, 1),
            volume: (0, 1),
            enabled: false,
            length_counter: 0,
            length_counter_enabled: true,
            length_counter_halt: false,
        }
    }

    /// A silent channel: frequency and volume zero, disabled, length
    /// counter zero and counting.
    pub fn new() -> (r: Self)
        ensures
            r == (SoundChannel {
                frequency: (0, 1),
                volume: (0, 1),
                enabled: false,
                length_counter: 0,
                length_counter_enabled: true,
                length_counter_halt: false,
            }),
    {
        SoundChannel {
            frequency: (0, 1),
            volume: (0, 1),
            enabled: false,
            length_counter: 0,
            length_counter_enabled: true,
            length_counter_halt: false,
        }
    }

    /// Sets the frequency, `freq.0 / freq.1` Hz.
    pub fn set_frequency(&mut self, freq: (u32, u32))
        ensures
            *final(self) == (SoundChannel { frequency: freq, ..*old(self) }),
    {
        self.frequency = freq;
    }

    /// Sets the volume, `vol.0 / vol.1` of full scale.
    pub fn set_volume(&mut self, vol: (u8, u8))
        ensures
            *final(self) == (SoundChannel { volume: vol, ..*old(self) }),
    {
        self.volume = vol;
    }

    /// Turns the channel on or off; turning it off empties its length
    /// counter.
    pub fn set_enabled(&mut self, enabled: bool)
        ensures
            *final(self) == (SoundChannel {
                enabled,
                length_counter: if enabled { old(self).length_counter } else { 0 },
                ..*old(self)
            }),
    {
        self.enabled = enabled;
        if !enabled {
            self.length_counter = 0;
        }
    }

    /// Loads the length counter.
    pub fn set_length_counter(&mut self, value: u8)
        ensures
            *final(self) == (SoundChannel { length_counter: value, ..*old(self) }),
    {
        self.length_counter = value;
    }

    /// Halts or releases the length counter.
    pub fn set_length_counter_halt(&mut self, halt: bool)
        ensures
            *final(self) == (SoundChannel { length_counter_halt: halt, ..*old(self) }),
    {
        self.length_counter_halt = halt;
    }

    /// One length-counter tick (see `length_ticked`).
    pub fn decrement_length_counter(&mut self) -> (r: bool)
        ensures
            (*final(self), r) == length_ticked(*old(self)),
    {
        let halt = self.length_counter_halt;
        let enabled = self.length_counter_enabled;
        if halt || !enabled {
            return self.length_counter > 0;
        }
        if self.length_counter > 0 {
            self.length_counter -= 1;
            return self.length_counter > 0;
        }
        false
    }
}

/// The sweep unit of a pulse channel: it periodically moves the channel's
/// timer up or down, and mutes the channel when the result leaves range.
#[derive(Debug, Clone, Copy, PartialEq, Eq, Structural)]
pub struct SweepUnit {
    pub divider_period: u8,
    pub negate_flag: bool,
    pub shift_amount: u8,
    pub enabled: bool,
    pub divider_counter: u8,
    pub mute: bool,
}

/// The timer the sweep computes from `timer`: the timer shifted right by
/// `shift` is added, or subtracted (one more for pulse channel 1).
pub open spec fn sweep_target(s: SweepUnit, timer: u16, channel_id: u8) -> u16 {
    let change = timer >> s.shift_amount;
    if s.negate_flag {
        if channel_id == 1 {
            timer.wrapping_sub(change).wrapping_sub(1)
        } else {
            timer.wrapping_sub(change)
        }
    } else {
        timer.wrapping_add(change)
    }
}

/// One clock of sweep unit `s` for a channel with timer `timer`: when
/// the divider runs out it reloads and, if sweeping, the new timer is
/// returned unless it is out of range (above $7FF, or the timer below 8),
/// which mutes; otherwise the divider counts down.
pub open spec fn sweep_clocked(s: SweepUnit, timer: u16, channel_id: u8) -> (SweepUnit, Option<u16>) {
    if s.divider_counter == 0 {
        let target = sweep_target(s, timer, channel_id);
        let sweeping = s.enabled && s.shift_amount > 0;
        let out_of_range = target > 0x7FF || timer < 8;
        (
            SweepUnit { divider_counter: s.divider_period, mute: sweeping && out_of_range, ..s },
            if sweeping && !out_of_range { Some(target) } else { None },
        )
    } else {
        (SweepUnit { divider_counter: (s.divider_counter - 1) as u8, ..s }, None)
    }
}

impl SweepUnit {
    /// The disabled sweep unit `new` makes.
    pub open spec fn new_spec() -> SweepUnit {
        SweepUnit { divider_period: 0, negate_flag: false, shift_amount: 0, enabled: false, divider_counter: 0, mute: false }
    }

    /// A disabled sweep unit.
    pub fn new() -> (r: Self)
        ensures
            r == (SweepUnit {
                divider_period: 0,
                negate_flag: false,
                shift_amount: 0,
                enabled: false,
                divider_counter: 0,
                mute: false,
            }),
    {
        SweepUnit { divider_period: 0, negate_flag: false, shift_amount: 0, enabled: false, divider_counter: 0, mute: false }
    }

    /// A write of the sweep register: enable (bit 7), period (bits 4-6,
    /// plus one), negate (bit 3), shift (bits 0-2); the divider reloads.
    pub fn write(&mut self, data: u8)
        ensures
            *final(self) == (SweepUnit {
                enabled: data >= 128,
                divider_period: ((data / 16) % 8 + 1) as u8,
                negate_flag: data % 16 >= 8,
                shift_amount: data % 8,
                divider_counter: ((data / 16) % 8 + 1) as u8,
                mute: false,
            }),
    {
        proof {
            lemma_byte_fields(data);
        }
        self.enabled = (data & 0x80) != 0;
        self.divider_period = ((data >> 4) & 0x07) + 1;
        self.negate_flag = (data & 0x08) != 0;
        self.shift_amount = data & 0x07;
        self.reset_divider();
    }

    /// Reloads the divider and unmutes.
    pub fn reset_divider(&mut self)
        ensures
            *final(self) == (SweepUnit { divider_counter: old(self).divider_period, mute: false, ..*old(self) }),
    {
        self.divider_counter = self.divider_period;
        self.mute = false;
    }

    /// One sweep clock for the channel with timer `current_timer`: when
    /// the divider runs out it reloads and, if sweeping, computes the new
    /// timer, which is returned unless it is out of range (above $7FF, or
    /// the timer below 8), which mutes; otherwise the divider counts down.
    pub fn clock(&mut self, current_timer: u16, channel_id: u8) -> (r: Option<u16>)
        requires
            old(self).shift_amount < 16,
        ensures
            (*final(self), r) == sweep_clocked(*old(self), current_timer, channel_id),
    {
        let mut sweep_mute_local = false;
        let mut new_timer_value: Option<u16> = None;
        if self.divider_counter == 0 {
            self.divider_counter = self.divider_period;
            if self.enabled && self.shift_amount > 0 {
                let change = current_timer >> self.shift_amount;
                let calculated_new_timer = if self.negate_flag {
                    if channel_id == 1 {
                        current_timer.wrapping_sub(change).wrapping_sub(1)
                    } else {
                        current_timer.wrapping_sub(change)
                    }
                } else {
                    current_timer.wrapping_add(change)
                };
                if calculated_new_timer > 0x7FF || current_timer < 8 {
                    sweep_mute_local = true;
                } else {
                    new_timer_value = Some(calculated_new_timer);
                    sweep_mute_local = false;
                }
            } else {
                sweep_mute_local = false;
            }
        } else {
            self.divider_counter -= 1;
            sweep_mute_local = self.mute;
        }
        self.mute = sweep_mute_local;
        new_timer_value
    }
}

/// A length counter that is counting and not halted goes down by one per
/// tick until it reaches zero and then stays there; a halted one holds.
pub proof fn law_length_counts_down(c: SoundChannel)
    ensures
        !c.length_counter_halt && c.length_counter_enabled ==> length_ticked(c).0.length_counter as int == if c.length_counter
            > 0 {
            c.length_counter - 1
        } else {
            0
        },
        c.length_counter_halt ==> length_ticked(c).0 == c,
        length_ticked(c).1 == (length_ticked(c).0.length_counter > 0),
{
}

/// The sweep's target timer: the timer plus the timer shifted right by
/// the shift amount, or with negate the timer minus it (and minus one
/// more on pulse channel 1, the one's-complement adder), modulo $10000.
pub proof fn law_sweep_target(s: SweepUnit, timer: u16, channel_id: u8)
    ensures
        ({
            let change = (timer >> s.shift_amount) as int;
            let t = sweep_target(s, timer, channel_id) as int;
            &&& !s.negate_flag ==> t == (timer as int + change) % 0x10000
            &&& s.negate_flag && channel_id == 1 ==> t == (timer as int - change - 1 + 0x20000) % 0x10000
            &&& s.negate_flag && channel_id != 1 ==> t == (timer as int - change + 0x10000) % 0x10000
        }),
{
}

} // verus!
