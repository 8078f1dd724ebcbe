use nes_emu::apu::Apu;
use nes_emu::bus::cpubus::Cpubus;
use nes_emu::bus::Bus;
use nes_emu::cartridge::cartridge::Cartridge as BoardCartridge;
use nes_emu::cartridge::Cartridge;
use nes_emu::controller::{Controller, BUTTON_A, BUTTON_B};
use nes_emu::ppu::frame::Frame;
use nes_emu::ppu::ppu::Ppu as SimplePpu;
use nes_emu::ppu::Ppu;

fn image(chr_banks: u8) -> Vec<u8> {
    let mut v = vec![0x4E, 0x45, 0x53, 0x1A, 1, chr_banks, 0, 0];
    v.extend_from_slice(&[0; 8]);
    for i in 0..16384usize {
        v.push((i % 16) as u8);
    }
    for j in 0..(chr_banks as usize) * 8192 {
        v.push((j % 251) as u8);
    }
    v
}

#[test]
fn ppu_data_port_reads_are_buffered() {
    let mut cart = Cartridge::from_ines(&image(1), None);
    let mut ppu = Ppu::new();
    ppu.cpu_write(&mut cart, 0x2006, 0x20);
    ppu.cpu_write(&mut cart, 0x2006, 0x00);
    ppu.cpu_write(&mut cart, 0x2007, 0xAB);
    ppu.cpu_write(&mut cart, 0x2006, 0x20);
    ppu.cpu_write(&mut cart, 0x2006, 0x00);
    // the first read gives the old buffer, the second the byte written
    assert_eq!(ppu.cpu_read(&mut cart, 0x2007, false), 0x00);
    assert_eq!(ppu.cpu_read(&mut cart, 0x2007, false), 0xAB);
}

#[test]
fn ppu_oam_port_reads_back() {
    let mut cart = Cartridge::from_ines(&image(1), None);
    let mut ppu = Ppu::new();
    ppu.cpu_write(&mut cart, 0x2003, 5);
    ppu.cpu_write(&mut cart, 0x2004, 0x42);
    ppu.cpu_write(&mut cart, 0x2003, 5);
    assert_eq!(ppu.cpu_read(&mut cart, 0x2004, false), 0x42);
    ppu.oam_dma_write(8, 0x99);
    ppu.cpu_write(&mut cart, 0x2003, 8);
    assert_eq!(ppu.cpu_read(&mut cart, 0x2004, false), 0x99);
}

#[test]
fn ppu_vertical_blank_raises_nmi() {
    let mut cart = Cartridge::from_ines(&image(1), None);
    let mut frame = Frame::new(256, 240);
    let mut ppu = Ppu::new();
    ppu.cpu_write(&mut cart, 0x2000, 0x80);
    // 241 lines of 341 clocks reach line 241; one clock more its cycle 1
    for _ in 0..(241 * 341) {
        ppu.clock(&mut cart, &mut frame);
    }
    assert!(!ppu.get_nmi());
    ppu.clock(&mut cart, &mut frame);
    assert!(ppu.get_nmi());
    assert!(!ppu.get_nmi());
    assert_eq!(ppu.cpu_read(&mut cart, 0x2002, false) & 0x80, 0x80);
    // reading the status clears vertical blank
    assert_eq!(ppu.cpu_read(&mut cart, 0x2002, false) & 0x80, 0x00);
}

#[test]
fn simple_ppu_palette_write_then_read() {
    let mut cart = BoardCartridge::new(image(1));
    let mut ppu = SimplePpu::new();
    ppu.ppu_write(&mut cart, 0x3F02, 0x2C);
    assert_eq!(ppu.ppu_read(&cart, 0x3F02, false), 0x2C);
    // the greyscale mask keeps bits 4 and 5
    ppu.cpu_write(&mut cart, 1, 0x01);
    assert_eq!(ppu.ppu_read(&cart, 0x3F02, false), 0x20);
    // pattern reads come from the cartridge
    assert_eq!(ppu.ppu_read(&cart, 0x0105, false), 10);
    // nametable reads give 0
    assert_eq!(ppu.ppu_read(&cart, 0x2000, false), 0);
}

#[test]
fn simple_bus_ram_is_mirrored() {
    let cart = BoardCartridge::new(image(1));
    let mut bus = Cpubus::new(cart, SimplePpu::new());
    bus.cpu_write(0x0001, 0x42);
    assert_eq!(bus.cpu_read(0x0801, false), 0x42);
    assert_eq!(bus.cpu_read(0x1801, false), 0x42);
    // the cartridge answers from $8000
    assert_eq!(bus.cpu_read(0x8003, false), 0x03);
}

fn linked_bus() -> Bus {
    let mut bus = Bus::new();
    bus.link_cartridge(Cartridge::from_ines(&image(1), None));
    bus.link_ppu(Ppu::new());
    bus.link_apu(Apu::new());
    let mut pad1 = Controller::new();
    pad1.set_button(BUTTON_A, true);
    bus.link_controller1(pad1);
    let mut pad2 = Controller::new();
    pad2.set_button(BUTTON_B, true);
    bus.link_controller2(pad2);
    bus
}

#[test]
fn system_bus_ram_read_after_write() {
    let mut bus = linked_bus();
    bus.cpu_write(0x0123, 0x77);
    assert_eq!(bus.cpu_read(0x0123, false), 0x77);
    assert_eq!(bus.cpu_read(0x0923, false), 0x77);
    assert_eq!(bus.cpu_read(0x1923, false), 0x77);
}

#[test]
fn system_bus_strobe_reaches_both_pads() {
    let mut bus = linked_bus();
    bus.cpu_write(0x4016, 1);
    bus.cpu_write(0x4016, 0);
    // pad 1 holds A (first bit), pad 2 holds B (second bit)
    assert_eq!(bus.cpu_read(0x4016, false), 1);
    assert_eq!(bus.cpu_read(0x4016, false), 0);
    assert_eq!(bus.cpu_read(0x4017, false), 0);
    assert_eq!(bus.cpu_read(0x4017, false), 1);
}

#[test]
fn system_bus_reaches_cartridge_and_apu() {
    let mut bus = linked_bus();
    assert_eq!(bus.cpu_read(0x8005, false), 0x05);
    bus.cpu_write(0x4001, 0x3C);
    assert_eq!(bus.cpu_read(0x4001, false), 0x3C);
    // unused I/O reads 0
    assert_eq!(bus.cpu_read(0x4018, false), 0);
}

#[test]
fn system_bus_oam_dma_copies_a_page() {
    let mut bus = linked_bus();
    for i in 0..256u16 {
        bus.cpu_write(0x0200 + i, i as u8);
    }
    bus.cpu_write(0x4014, 0x02);
    bus.cpu_write(0x2003, 0x07);
    assert_eq!(bus.cpu_read(0x2004, false), 0x07);
}

#[test]
fn system_bus_ppu_registers() {
    let mut bus = linked_bus();
    bus.cpu_write(0x2006, 0x21);
    bus.cpu_write(0x2006, 0x00);
    bus.cpu_write(0x2007, 0x5E);
    bus.cpu_write(0x2006, 0x21);
    bus.cpu_write(0x2006, 0x00);
    bus.cpu_read(0x2007, false);
    // $200F mirrors register 7
    assert_eq!(bus.cpu_read(0x200F, false), 0x5E);
}

#[test]
fn ppu_horizontal_mirroring_shares_tables() {
    // the image's header selects horizontal mirroring: $2000 and $2400
    // are one table, and $3000 mirrors $2000
    let mut cart = Cartridge::from_ines(&image(1), None);
    let mut ppu = Ppu::new();
    ppu.cpu_write(&mut cart, 0x2006, 0x20);
    ppu.cpu_write(&mut cart, 0x2006, 0x05);
    ppu.cpu_write(&mut cart, 0x2007, 0x6D);
    for (hi, lo) in [(0x24u8, 0x05u8), (0x30, 0x05)] {
        ppu.cpu_write(&mut cart, 0x2006, hi);
        ppu.cpu_write(&mut cart, 0x2006, lo);
        // the first read fills the buffer, the second returns it
        ppu.cpu_read(&mut cart, 0x2007, false);
        assert_eq!(ppu.cpu_read(&mut cart, 0x2007, false), 0x6D);
    }
    // $2800 is the other table
    ppu.cpu_write(&mut cart, 0x2006, 0x28);
    ppu.cpu_write(&mut cart, 0x2006, 0x05);
    ppu.cpu_read(&mut cart, 0x2007, false);
    assert_eq!(ppu.cpu_read(&mut cart, 0x2007, false), 0x00);
}

#[test]
fn ppu_frames_are_262_lines_of_341_cycles() {
    let mut cart = Cartridge::from_ines(&image(1), None);
    let mut frame = Frame::new(256, 240);
    let mut ppu = Ppu::new();
    ppu.cpu_write(&mut cart, 0x2000, 0x80);
    let mut onsets = Vec::new();
    let mut calls: u64 = 0;
    while onsets.len() < 4 {
        ppu.clock(&mut cart, &mut frame);
        calls += 1;
        if ppu.get_nmi() {
            onsets.push(calls);
        }
    }
    assert_eq!(onsets[0], 241 * 341 + 1);
    // the pre-render line of every other frame skips its last cycle
    assert_eq!(onsets[1] - onsets[0], 89341);
    assert_eq!(onsets[2] - onsets[1], 89342);
    assert_eq!(onsets[3] - onsets[2], 89341);
}

#[test]
fn system_bus_dmc_fetches_samples_over_the_bus() {
    let mut bus = linked_bus();
    // fastest rate, sample at $C040, 17 bytes long, DMC enabled
    bus.cpu_write(0x4010, 0x0F);
    bus.cpu_write(0x4012, 0x01);
    bus.cpu_write(0x4013, 0x01);
    bus.cpu_write(0x4015, 0x10);
    // the first clock reads the byte at $C040 from the cartridge
    assert_eq!(bus.clock_dmc(), Some(0x00));
    let mut next = None;
    let mut clocks = 0;
    while next.is_none() && clocks < 100_000 {
        next = bus.clock_dmc();
        clocks += 1;
    }
    // the next fetch, eight bits later, reads $C041
    assert_eq!(next, Some(0x01));
    assert!(clocks > 8);
}

#[test]
fn system_bus_ppu_runs_three_clocks_per_cpu_cycle() {
    let mut bus = linked_bus();
    let mut frame = Frame::new(256, 240);
    bus.cpu_write(0x2000, 0x80);
    let mut onsets = Vec::new();
    let mut cycles: u64 = 0;
    while onsets.len() < 2 {
        cycles += 1;
        if bus.clock_ppu_cycle(&mut frame) {
            onsets.push(cycles);
        }
    }
    // vertical blank starts on PPU clock 241 * 341 + 1 = 3 * 27394
    assert_eq!(onsets[0], 27394);
    // and again 89341 PPU clocks later, within CPU cycle 57175
    assert_eq!(onsets[1], 57175);
}
