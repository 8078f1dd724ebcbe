use nes_emu::cpu::decode::{lookup, AddressModes, Instruction};
use nes_emu::cpu::processor::{Cpu, Flags};
use nes_emu::nes::bus::Bus;

fn load(bus: &mut Bus, address: u16, bytes: &[u8]) {
    for (i, b) in bytes.iter().enumerate() {
        bus.cpu_write(address + i as u16, *b);
    }
}

#[test]
fn processor_starts_at_c000() {
    let cpu = Cpu::new();
    assert_eq!(cpu.get_pc(), 0xC000);
    assert_eq!(cpu.get_sp(), 0xFD);
    assert_eq!(cpu.get_a(), 0);
    assert_eq!(cpu.get_flag(), 0);
}

#[test]
fn processor_clock_runs_lda_immediate() {
    let mut bus = Bus::new();
    load(&mut bus, 0xC000, &[0xA9, 0x42]);
    let mut cpu = Cpu::new();
    cpu.clock(&mut bus);
    assert_eq!(cpu.get_a(), 0x42);
    assert_eq!(cpu.get_pc(), 0xC002);
    // two cycles for LDA #, one spent
    assert_eq!(cpu.get_cycles_left(), 1);
}

#[test]
fn processor_adc_adds_with_carry() {
    let mut bus = Bus::new();
    // LDA #$FF; ADC #$02
    load(&mut bus, 0xC000, &[0xA9, 0xFF, 0x69, 0x02]);
    let mut cpu = Cpu::new();
    for _ in 0..3 {
        cpu.clock(&mut bus);
    }
    assert_eq!(cpu.get_a(), 0x01);
    assert_eq!(cpu.get_flag() & 0x01, 0x01);
}

#[test]
fn processor_push_pull_accumulator() {
    let mut bus = Bus::new();
    // LDA #$37; PHA; LDA #$00; PLA
    load(&mut bus, 0xC000, &[0xA9, 0x37, 0x48, 0xA9, 0x00, 0x68]);
    let mut cpu = Cpu::new();
    // 2 + 3 + 2 cycles, then the PLA fetch
    for _ in 0..8 {
        cpu.clock(&mut bus);
    }
    assert_eq!(cpu.get_a(), 0x37);
    assert_eq!(cpu.get_sp(), 0xFD);
    assert_eq!(bus.cpu_read(0x01FD), Some(0x37));
}

#[test]
fn processor_reset_reads_vector() {
    let mut bus = Bus::new();
    load(&mut bus, 0xFFFC, &[0x00, 0x80]);
    let mut cpu = Cpu::new();
    cpu.set_a(9);
    cpu.reset(&bus);
    assert_eq!(cpu.get_pc(), 0x8000);
    assert_eq!(cpu.get_a(), 0);
    assert_eq!(cpu.get_sflag(), 0x20);
    assert_eq!(cpu.get_sp(), 0xFD);
}

#[test]
fn processor_nmi_pushes_pc_and_jumps() {
    let mut bus = Bus::new();
    load(&mut bus, 0xFFFA, &[0x34, 0x12]);
    let mut cpu = Cpu::new();
    cpu.nmi(&mut bus);
    assert_eq!(cpu.get_pc(), 0x1234);
    assert_eq!(bus.cpu_read(0x01FD), Some(0xC0));
    assert_eq!(bus.cpu_read(0x01FC), Some(0x00));
    assert_eq!(cpu.get_sp(), 0xFB);
    assert_eq!(cpu.get_cycles_left(), 8);
    assert_eq!(cpu.get_flag() & 0x04, 0x04);
}

#[test]
fn processor_setflag_and_registers() {
    let mut cpu = Cpu::new();
    cpu.setflag(Flags::Carry, true);
    cpu.setflag(Flags::Negative, true);
    assert_eq!(cpu.get_flag(), 0x81);
    cpu.setflag(Flags::Carry, false);
    assert_eq!(cpu.get_flag(), 0x80);
    cpu.set_x(3);
    cpu.set_y(4);
    cpu.set_pc(0x1000);
    cpu.set_sp(0x10);
    assert_eq!(cpu.get_x(), 3);
    assert_eq!(cpu.get_y(), 4);
    assert_eq!(cpu.get_pc(), 0x1000);
    assert_eq!(cpu.get_sp(), 0x10);
    cpu.set_sflag(0x42);
    assert_eq!(cpu.get_sflag(), 0x42);
}

#[test]
fn processor_opcode_table() {
    assert_eq!(lookup(0xA9), Some((AddressModes::Immediate, Instruction::LDA, 2)));
    assert_eq!(lookup(0x69), Some((AddressModes::Immediate, Instruction::ADC, 2)));
    assert_eq!(lookup(0x48), Some((AddressModes::Implicit, Instruction::PHA, 3)));
    assert_eq!(lookup(0x02), None);
    assert!(Cpu::implemented(0xA9));
    assert!(!Cpu::implemented(0x02));
}

#[test]
fn processor_store_then_load_zero_page() {
    let mut bus = Bus::new();
    // LDA #$5C; STA $10; LDA #$00; LDA $10
    load(&mut bus, 0xC000, &[0xA9, 0x5C, 0x85, 0x10, 0xA9, 0x00, 0xA5, 0x10]);
    let mut cpu = Cpu::new();
    // 2 + 3 + 2 cycles, then the last load's fetch
    for _ in 0..8 {
        cpu.clock(&mut bus);
    }
    assert_eq!(bus.cpu_read(0x0010), Some(0x5C));
    assert_eq!(cpu.get_a(), 0x5C);
}

#[test]
fn processor_compare_sets_carry_and_zero() {
    let mut bus = Bus::new();
    // LDA #$10; CMP #$10
    load(&mut bus, 0xC000, &[0xA9, 0x10, 0xC9, 0x10]);
    let mut cpu = Cpu::new();
    for _ in 0..3 {
        cpu.clock(&mut bus);
    }
    assert_eq!(cpu.get_flag() & 0x03, 0x03);
    assert_eq!(cpu.get_a(), 0x10);
}

#[test]
fn processor_push_pull_status() {
    let mut bus = Bus::new();
    // PHP; PLP
    load(&mut bus, 0xC000, &[0x08, 0x28]);
    let mut cpu = Cpu::new();
    cpu.set_sflag(0xC3);
    // 3 cycles for PHP, then the PLP fetch
    for _ in 0..4 {
        cpu.clock(&mut bus);
    }
    assert_eq!(bus.cpu_read(0x01FD), Some(0xC3));
    assert_eq!(cpu.get_sflag(), 0xC3);
    assert_eq!(cpu.get_sp(), 0xFD);
}
