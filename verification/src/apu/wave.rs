//! The integer parts of the channel waveforms: the pulse duty cycle, the
//! noise shift register and the delta-modulation sample timer.
use vstd::prelude::*;

verus! {

/// The pulse duty cycle selected by bits 6-7 of the duty register, in
/// eighths of a period: 1/8, 2/8, 4/8 or 6/8.
pub open spec fn duty_eighths_spec(duty: u8) -> u8 {
    if duty < 0x40 {
        1
    } else if duty < 0x80 {
        2
    } else if duty < 0xC0 {
        4
    } else {
        6
    }
}

/// The high part of the pulse period, in eighths, for duty register
/// `duty`.
pub fn duty_eighths(duty: u8) -> (r: u8)
    ensures
        r == duty_eighths_spec(duty),
{
    if duty < 0x40 {
        1
    } else if duty < 0x80 {
        2
    } else if duty < 0xC0 {
        4
    } else {
        6
    }
}

/// The noise shift register after one step: the feedback is bit 0 xor
/// bit 6 (`mode`) or bit 1, the register shifts right and the feedback
/// enters at bit 14; the output is high when the old bit 0 was clear.
pub open spec fn noise_stepped(register: u16, mode: bool) -> (u16, bool) {
    let b0 = register as int % 2;
    let tap = if mode { (register as int / 64) % 2 } else { (register as int / 2) % 2 };
    let feedback = if b0 != tap { 1int } else { 0 };
    let shifted = register as int / 2;
    let top = if feedback == 1 || shifted >= 16384 { 16384int } else { 0 };
    ((shifted % 16384 + top) as u16, b0 == 0)
}

proof fn lemma_noise_bits(r: u16, f: u16)
    by (bit_vector)
    requires
        f <= 1,
    ensures
        r & 1u16 == r % 2,
        (r >> 6u16) & 1u16 == (r / 64) % 2,
        (r >> 1u16) & 1u16 == (r / 2) % 2,
        (r >> 1u16) | (f << 14u16) == (r / 2) % 16384 + (if f == 1 || r / 2 >= 16384 { 16384u16 } else { 0u16 }),
{
}

/// One step of the noise shift register with mode flag `mode`: the new
/// register and whether the output is high.
pub fn noise_step(register: u16, mode: bool) -> (r: (u16, bool))
    ensures
        r == noise_stepped(register, mode),
{
    let bit0 = register & 1;
    let tap = if mode {
        (register >> 6) & 1
    } else {
        (register >> 1) & 1
    };
    let feedback_bit = tap ^ bit0;
    proof {
        lemma_noise_bits(register, 0);
        lemma_noise_bits(register, 1);
        assert(feedback_bit <= 1 && (feedback_bit == 1 <==> bit0 != tap)) by (bit_vector)
            requires
                bit0 <= 1,
                tap <= 1,
                feedback_bit == tap ^ bit0,
        ;
    }
    let shifted = (register >> 1) | (feedback_bit << 14);
    (shifted, bit0 == 0)
}

/// One output sample of the delta-modulation channel's timer: a running
/// timer counts down and keeps the sample; an expired one reloads from
/// `period` (1 when that is 0) and takes a new sample.
pub fn dmc_timer_step(current: u32, period: u16) -> (r: (u32, bool))
    ensures
        r == if current > 0 {
            ((current - 1) as u32, false)
        } else {
            (if period > 0 { period as u32 } else { 1u32 }, true)
        },
{
    if current > 0 {
        (current - 1, false)
    } else {
        let reload: u32 = if period > 0 {
            period as u32
        } else {
            1
        };
        (reload, true)
    }
}

} // verus!
