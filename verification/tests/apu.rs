use nes_emu::apu::channel::{SoundChannel, SweepUnit};
use nes_emu::apu::{get_frequency_from_timer_value, Apu, CPU_CLOCK_HZ};
use nes_emu::apu::wave::{dmc_timer_step, duty_eighths, noise_step};

#[test]
fn apu_pulse_frequency_formula() {
    assert_eq!(get_frequency_from_timer_value(0), (0, 1));
    assert_eq!(get_frequency_from_timer_value(0x100), (CPU_CLOCK_HZ, 16 * 257));
    assert_eq!(get_frequency_from_timer_value(0x7FF), (1_789_773, 32768));
}

#[test]
fn apu_sweep_register_fields() {
    let mut s = SweepUnit::new();
    s.write(0xBA);
    assert!(s.enabled);
    assert_eq!(s.divider_period, 4);
    assert!(s.negate_flag);
    assert_eq!(s.shift_amount, 2);
    assert_eq!(s.divider_counter, 4);
    assert!(!s.mute);
}

#[test]
fn apu_sweep_clock_adds_shifted_timer() {
    let mut s = SweepUnit::new();
    s.write(0x81);
    // the divider counts down first
    assert_eq!(s.clock(0x100, 1), None);
    assert_eq!(s.clock(0x100, 1), Some(0x180));
}

#[test]
fn apu_sweep_negate_differs_by_channel() {
    let mut s1 = SweepUnit::new();
    s1.write(0x89);
    s1.clock(0x100, 1);
    assert_eq!(s1.clock(0x100, 1), Some(0x7F));
    let mut s2 = SweepUnit::new();
    s2.write(0x89);
    s2.clock(0x100, 2);
    assert_eq!(s2.clock(0x100, 2), Some(0x80));
}

#[test]
fn apu_sweep_mutes_low_timer() {
    let mut s = SweepUnit::new();
    s.write(0x81);
    s.clock(4, 1);
    assert_eq!(s.clock(4, 1), None);
    assert!(s.mute);
    s.reset_divider();
    assert!(!s.mute);
    assert_eq!(s.divider_counter, 1);
}

#[test]
fn apu_length_counter_counts_down() {
    let mut c = SoundChannel::new();
    c.set_length_counter(2);
    assert!(c.decrement_length_counter());
    assert_eq!(c.length_counter, 1);
    assert!(!c.decrement_length_counter());
    assert_eq!(c.length_counter, 0);
    assert!(!c.decrement_length_counter());
    c.set_length_counter(5);
    c.set_length_counter_halt(true);
    assert!(c.decrement_length_counter());
    assert_eq!(c.length_counter, 5);
}

#[test]
fn apu_channel_setters() {
    let mut c = SoundChannel::new();
    c.set_frequency((440, 1));
    c.set_volume((3, 4));
    c.set_enabled(true);
    assert_eq!(c.frequency, (440, 1));
    assert_eq!(c.volume, (3, 4));
    assert!(c.enabled);
}

#[test]
fn apu_new_state() {
    let apu = Apu::new();
    assert_eq!(apu.status, 0x0F);
    assert!(apu.dmc_silence);
    assert!(!apu.mute);
    assert_eq!(apu.length_counter_table[1], 254);
    assert_eq!(apu.dmc_period_table[0], 428);
}

#[test]
fn apu_pulse_register_writes() {
    let mut apu = Apu::new();
    apu.cpu_write(0x4000, 0x3F);
    assert_eq!(apu.pulse1.volume, (15, 15));
    assert!(apu.pulse1.length_counter_halt);
    assert!(apu.pulse1.enabled);
    apu.cpu_write(0x4002, 0xFD);
    apu.cpu_write(0x4003, 0x08);
    assert_eq!(apu.pulse1_timer, 0xFD);
    assert_eq!(apu.pulse1.frequency, (CPU_CLOCK_HZ, 16 * 0xFE));
    // length index 1 of the table
    assert_eq!(apu.pulse1.length_counter, 254);
}

#[test]
fn apu_register_read_back() {
    let mut apu = Apu::new();
    apu.cpu_write(0x4001, 0x5A);
    assert_eq!(apu.cpu_read(0x4001), 0x5A);
    apu.cpu_write(0x400E, 0x83);
    assert_eq!(apu.cpu_read(0x400E), 0x83);
    assert!(apu.noise_mode);
}

#[test]
fn apu_status_disable_clears_length() {
    let mut apu = Apu::new();
    apu.cpu_write(0x4003, 0x08);
    assert_eq!(apu.cpu_read(0x4015) & 0x01, 0x01);
    apu.cpu_write(0x4015, 0x00);
    assert_eq!(apu.pulse1.length_counter, 0);
    assert!(!apu.pulse1.enabled);
    assert_eq!(apu.cpu_read(0x4015) & 0x01, 0x00);
}

#[test]
fn apu_frame_sequencer_ticks_lengths() {
    let mut apu = Apu::new();
    apu.cpu_write(0x4003, 0x08);
    let before = apu.pulse1.length_counter;
    apu.frame_sequencer_step();
    assert_eq!(apu.pulse1.length_counter, before - 1);
}

#[test]
fn apu_toggle_sound() {
    let mut apu = Apu::new();
    apu.toggle_sound();
    assert!(apu.mute);
    apu.toggle_sound();
    assert!(!apu.mute);
}

#[test]
fn apu_dmc_direct_load() {
    let mut apu = Apu::new();
    apu.cpu_write(0x4011, 0xFF);
    assert_eq!(apu.dmc_delta_counter, 0x7F);
    apu.cpu_write(0x4010, 0x4F);
    assert!(apu.dmc_loop_flag);
    assert_eq!(apu.dmc_timer, 64);
}

#[test]
fn wave_duty_cycles() {
    assert_eq!(duty_eighths(0x00), 1);
    assert_eq!(duty_eighths(0x7F), 2);
    assert_eq!(duty_eighths(0x80), 4);
    assert_eq!(duty_eighths(0xFF), 6);
}

#[test]
fn wave_noise_shift_register() {
    // register 1: bit 0 set, bit 1 clear: feedback 1 enters at bit 14
    assert_eq!(noise_step(1, false), (0x4000, false));
    // mode 6: bit 6 of $0041 is set, bit 0 set: no feedback
    assert_eq!(noise_step(0x41, true), (0x20, false));
    assert_eq!(noise_step(0x4000, false), (0x2000, true));
}

#[test]
fn wave_dmc_timer() {
    assert_eq!(dmc_timer_step(3, 54), (2, false));
    assert_eq!(dmc_timer_step(0, 54), (54, true));
    assert_eq!(dmc_timer_step(0, 0), (1, true));
}

#[test]
fn apu_triangle_and_noise_frequencies() {
    let mut apu = Apu::new();
    apu.cpu_write(0x400A, 0x10);
    apu.cpu_write(0x400B, 0x01);
    assert_eq!(apu.triangle_timer, 0x110);
    assert_eq!(apu.triangle.frequency, (CPU_CLOCK_HZ, 32 * 0x111));
    apu.cpu_write(0x400E, 0x03);
    assert_eq!(apu.noise.frequency, (CPU_CLOCK_HZ, 64));
    assert!(!apu.noise_mode);
}

#[test]
fn apu_dmc_clock_without_fetch_ignores_memory() {
    let mut a = Apu::new();
    let mut b = Apu::new();
    // $4010: fastest rate; $4011: output level 64; no sample bytes loaded
    a.cpu_write(0x4010, 0x0F);
    b.cpu_write(0x4010, 0x0F);
    a.cpu_write(0x4011, 0x40);
    b.cpu_write(0x4011, 0x40);
    for _ in 0..200 {
        assert!(!a.dmc_sample_due());
        a.dmc_clock(0x55);
        b.dmc_clock(0xAA);
        assert_eq!(a.dmc_sample_buffer, b.dmc_sample_buffer);
        assert_eq!(a.dmc_delta_counter, b.dmc_delta_counter);
        assert_eq!(a.dmc_timer_counter, b.dmc_timer_counter);
        assert_eq!(a.dmc_silence, b.dmc_silence);
    }
}

#[test]
fn apu_dmc_fetch_buffers_the_sample() {
    let mut a = Apu::new();
    a.cpu_write(0x4012, 0x02);
    a.cpu_write(0x4013, 0x00);
    a.cpu_write(0x4015, 0x10);
    assert!(a.dmc_sample_due());
    assert_eq!(a.dmc_current_address, 0xC080);
    a.dmc_clock(0x9C);
    assert_eq!(a.dmc_sample_buffer, 0x9C);
    assert_eq!(a.dmc_current_address, 0xC081);
    assert_eq!(a.dmc_bits_remaining, 7);
    assert!(!a.dmc_silence);
}
