use nes_emu::cartridge::cartridge::{Cartridge as BoardCartridge, Mirror};
use nes_emu::cartridge::mapper001::Mapper001;
use nes_emu::cartridge::mapper004::Mapper004;
use nes_emu::cartridge::mapper066::Mapper066;
use nes_emu::cartridge::{ines_supported, Cartridge, MirrorMode};

/// An iNES image: byte `i` of PRG bank `b` is `b * 16 + i % 16`, byte `j`
/// of CHR is `j % 251`.
fn image(mapper: u8, prg_banks: u8, chr_banks: u8, flags6_low: u8) -> Vec<u8> {
    let mut v = vec![0x4E, 0x45, 0x53, 0x1A, prg_banks, chr_banks, ((mapper & 0x0F) << 4) | flags6_low, mapper & 0xF0];
    v.extend_from_slice(&[0; 8]);
    for b in 0..prg_banks as usize {
        for i in 0..16384usize {
            v.push((b * 16 + i % 16) as u8);
        }
    }
    for j in 0..(chr_banks as usize) * 8192 {
        v.push((j % 251) as u8);
    }
    v
}

fn read(cart: &Cartridge, address: u16) -> u8 {
    let mut b = 0xEE;
    cart.cpu_read(address, &mut b);
    b
}

fn pattern(cart: &mut Cartridge, address: u16) -> u8 {
    let mut b = 0xEE;
    cart.ppu_read(address, &mut b);
    b
}

#[test]
fn ines_images_accepted_and_refused() {
    let img = image(0, 1, 1, 0);
    assert!(ines_supported(&img));
    let mut short = img.clone();
    short.pop();
    assert!(!ines_supported(&short));
    assert!(!ines_supported(&image(5, 1, 1, 0)));
    // no PRG bank: refused where the board counts back from the last bank
    assert!(!ines_supported(&image(1, 0, 1, 0)));
    assert!(!ines_supported(&image(2, 0, 1, 0)));
    assert!(!ines_supported(&image(4, 0, 1, 0)));
    assert!(ines_supported(&image(0, 0, 1, 0)));
    assert!(ines_supported(&image(3, 0, 1, 0)));
    assert!(!ines_supported(&vec![0x4E, 0x45, 0x53]));
    assert!(ines_supported(&image(66, 2, 2, 0)));
}

#[test]
fn nrom_reads_prg_and_chr() {
    let img = image(0, 1, 1, 0);
    let mut cart = Cartridge::from_ines(&img, None);
    assert_eq!(read(&cart, 0x8003), 0x03);
    // 16 KiB of PRG is mirrored at $C000
    assert_eq!(read(&cart, 0xC003), 0x03);
    // below $8000 nothing is mapped: the byte stays
    assert_eq!(read(&cart, 0x6000), 0xEE);
    assert_eq!(pattern(&mut cart, 0x0105), 10);
    assert_eq!(cart.get_nametable(), MirrorMode::Horizontal);
    let h = cart.get_header();
    assert_eq!(h.prg_rom_size, 1);
    assert_eq!(h.chr_rom_size, 1);
    assert_eq!(h.mapper, 0);
    assert!(!h.four_screen);
}

#[test]
fn header_flag_selects_vertical_mirroring() {
    let cart = Cartridge::from_ines(&image(0, 2, 1, 1), None);
    assert_eq!(cart.get_nametable(), MirrorMode::Vertical);
    // 32 KiB of PRG: $C000 is the second bank
    assert_eq!(read(&cart, 0xC001), 0x11);
}

#[test]
fn chr_ram_takes_writes() {
    let mut cart = Cartridge::from_ines(&image(0, 1, 0, 0), None);
    assert_eq!(pattern(&mut cart, 0x0010), 0);
    assert!(cart.can_ppu_write(0x0010));
    cart.ppu_write(0x0010, 0x5A);
    assert_eq!(pattern(&mut cart, 0x0010), 0x5A);
}

#[test]
fn chr_rom_refuses_writes() {
    let mut cart = Cartridge::from_ines(&image(0, 1, 1, 0), None);
    assert!(cart.can_ppu_write(0x0010));
    cart.ppu_write(0x0010, 0x5A);
    assert_eq!(pattern(&mut cart, 0x0010), 16);
}

#[test]
fn uxrom_switches_the_low_bank() {
    let mut cart = Cartridge::from_ines(&image(2, 4, 0, 0), None);
    assert_eq!(read(&cart, 0x8000), 0x00);
    // the last bank is fixed at $C000
    assert_eq!(read(&cart, 0xC000), 0x30);
    assert!(cart.can_cpu_write(0x8000));
    cart.cpu_write(0x8000, 2);
    assert_eq!(read(&cart, 0x8000), 0x20);
    assert_eq!(read(&cart, 0xC000), 0x30);
}

#[test]
fn cnrom_switches_chr_bank() {
    let mut cart = Cartridge::from_ines(&image(3, 1, 2, 0), None);
    assert_eq!(pattern(&mut cart, 0x0000), 0);
    assert!(cart.can_cpu_write(0x8000));
    cart.cpu_write(0x8000, 1);
    // CHR byte 8192 is 8192 % 251
    assert_eq!(pattern(&mut cart, 0x0000), 160);
}

#[test]
fn mmc1_has_save_ram() {
    let cart = Cartridge::from_ines(&image(1, 2, 1, 0), None);
    let saved = cart.savestate();
    assert!(saved.is_some());
}

#[test]
fn gxrom_register_selects_banks() {
    let mut m = Mapper066::new(2, 4, MirrorMode::Horizontal);
    let mut mapped: u32 = 0x8000;
    m.cpu_write(0x8000, &mut mapped, 0x13);
    assert_eq!(m.chr_select(), 3);
    let mut prg: u32 = 0x8004;
    let mut data = 0;
    assert!(m.cpu_read(0x8004, &mut prg, &mut data));
    assert_eq!(prg, 0x8004);
    assert_eq!(m.get_mirror_mode(), MirrorMode::Horizontal);
}

#[test]
fn board_cartridge_reads_and_quirky_writes() {
    let img = image(0, 1, 1, 1);
    let mut cart = BoardCartridge::new(img);
    assert_eq!(*cart.get_mirror(), Mirror::VERTICAL);
    assert_eq!(cart.cpuread(0x8005, false), (0x05, true));
    assert_eq!(cart.cpuread(0x4000, false), (0, false));
    // a CPU write lands in CHR memory at the mapped offset
    assert!(cart.cpu_write(0x8001, 0x55));
    let mut d = 0;
    assert!(cart.ppu_read(0x0001, &mut d));
    assert_eq!(d, 0x55);
    // CHR ROM boards map no PPU writes
    assert!(!cart.ppu_write(0x0002, 0x66));
}

#[test]
fn mmc3_scanline_counter_raises_irq() {
    let mut m = Mapper004::new(2, 2);
    let mut mapped: u32 = 0;
    // reload value 3, counter cleared, IRQs on
    m.cpu_write(0xC000, &mut mapped, 3);
    m.cpu_write(0xC001, &mut mapped, 0);
    m.cpu_write(0xE001, &mut mapped, 0);
    // the first clock reloads the counter to 3
    m.scanline();
    for _ in 0..2 {
        m.scanline();
        assert!(!m.hasirq());
    }
    m.scanline();
    assert!(m.hasirq());
    m.irq_clear();
    assert!(!m.hasirq());
    // IRQs off: the counter runs without raising one
    m.cpu_write(0xE000, &mut mapped, 0);
    for _ in 0..8 {
        m.scanline();
    }
    assert!(!m.hasirq());
}

#[test]
fn mmc1_serial_writes_load_control() {
    let mut m = Mapper001::new(2, 1, MirrorMode::Horizontal, None);
    let mut mapped: u32 = 0;
    m.cpu_write(0x8000, &mut mapped, 0x80);
    // control = %00010: vertical mirroring, bit 0 of each write first
    for bit in [0u8, 1, 0, 0, 0] {
        m.cpu_write(0x8000, &mut mapped, bit);
    }
    assert_eq!(m.get_mirror_mode(), MirrorMode::Vertical);
    m.cpu_write(0x8000, &mut mapped, 0x80);
    for bit in [1u8, 1, 0, 0, 0] {
        m.cpu_write(0x8000, &mut mapped, bit);
    }
    assert_eq!(m.get_mirror_mode(), MirrorMode::Horizontal);
}

#[test]
fn cartridge_without_prg_banks_still_reads_chr() {
    let mut cart = Cartridge::from_ines(&image(0, 0, 1, 0), None);
    assert_eq!(cart.get_header().prg_rom_size, 0);
    // below $8000 nothing is mapped, so nothing reads PRG
    assert_eq!(read(&cart, 0x6000), 0xEE);
    // NROM maps pattern reads only while it has PRG banks
    assert_eq!(pattern(&mut cart, 0x0003), 0xEE);
    let cart = Cartridge::from_ines(&image(66, 0, 1, 0), None);
    assert_eq!(cart.get_nametable(), MirrorMode::Horizontal);
}

#[test]
fn mmc1_restores_battery_ram_at_power_on() {
    let mut save = vec![0u8; 8192];
    save[0] = 0x5A;
    save[3] = 0xA5;
    let cart = Cartridge::from_ines(&image(1, 2, 1, 0), Some(save));
    let mut b: u8 = 0;
    cart.cpu_read(0x6000, &mut b);
    assert_eq!(b, 0x5A);
    cart.cpu_read(0x6003, &mut b);
    assert_eq!(b, 0xA5);
    // power-on control $1C: bank 0 at $8000, the last bank fixed at $C000
    cart.cpu_read(0x8001, &mut b);
    assert_eq!(b, 1);
    cart.cpu_read(0xC002, &mut b);
    assert_eq!(b, 18);
}

#[test]
fn mmc3_power_on_banks() {
    let cart = Cartridge::from_ines(&image(4, 2, 1, 0), None);
    let mut b: u8 = 0;
    cart.cpu_read(0x8003, &mut b);
    assert_eq!(b, 3);
    // the last two 8 KiB banks sit at $C000 and $E000
    cart.cpu_read(0xC000, &mut b);
    assert_eq!(b, 16);
    cart.cpu_read(0xE005, &mut b);
    assert_eq!(b, 21);
}
