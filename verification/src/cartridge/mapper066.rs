//! Mapper 066 (GxROM): a switchable 32 KiB PRG bank and 8 KiB CHR bank.
use vstd::prelude::*;
use super::MirrorMode;
use crate::bits::lemma_byte_masks;

verus! {

pub struct Mapper066 {
    n_chrbanks: u8,
    n_prgbanks: u8,
    n_prgbank_select: u8,
    n_chrbank_select: u8,
    mirrormode: MirrorMode,
}

/// (CHR banks, PRG banks, PRG bank selected, CHR bank selected, mirroring).
pub type Mapper066View = (u8, u8, u8, u8, MirrorMode);

impl View for Mapper066 {
    type V = Mapper066View;

    closed spec fn view(&self) -> Mapper066View {
        (self.n_chrbanks, self.n_prgbanks, self.n_prgbank_select, self.n_chrbank_select, self.mirrormode)
    }
}

impl Mapper066 {
    /// A board with bank 0 selected for both PRG and CHR.
    pub fn new(prg_rom_chunks: u8, chr_rom_chunks: u8, mirrormode: MirrorMode) -> (r: Self)
        ensures
            r@ == (chr_rom_chunks, prg_rom_chunks, 0u8, 0u8, mirrormode),
    {
        let mut toreturn = Self {
            n_chrbanks: chr_rom_chunks,
            n_prgbanks: prg_rom_chunks,
            n_prgbank_select: 0,
            n_chrbank_select: 0,
            mirrormode,
        };
        toreturn.reset();
        toreturn
    }

    /// Selects bank 0 for both PRG and CHR.
    pub fn reset(&mut self)
        ensures
            final(self)@ == (old(self)@.0, old(self)@.1, 0u8, 0u8, old(self)@.4),
    {
        self.n_chrbank_select = 0;
        self.n_prgbank_select = 0;
    }

    pub fn cpu_read(&self, address: u16, mapped_addr: &mut u32, _data: &mut u8) -> (r: bool)
        ensures
            r == (address >= 0x8000),
            r ==> *final(mapped_addr) == self@.2 as u32 * 0x8000 + (address - 0x8000) as u32,
            !r ==> *final(mapped_addr) == *old(mapped_addr),
            *final(_data) == *old(_data),
    {
        if address >= 0x8000 {
            *mapped_addr = ((self.n_prgbank_select as u32) * 0x8000) + (address as u32 - 0x8000);
            return true;
        }
        false
    }

    /// A write from $8000 up selects the CHR bank (bits 0-1) and the PRG
    /// bank (bits 4-5); the address passes through unchanged.
    pub fn cpu_write(&mut self, address: u16, _mapped_addr: &mut u32, data: u8) -> (r: bool)
        ensures
            r == (address >= 0x8000),
            *final(_mapped_addr) == *old(_mapped_addr),
            r ==> final(self)@ == (old(self)@.0, old(self)@.1, ((data / 16) % 4) as u8, (data % 4) as u8, old(self)@.4),
            !r ==> final(self)@ == old(self)@,
    {
        proof {
            lemma_byte_masks(data);
        }
        if address >= 0x8000 {
            self.n_chrbank_select = data & 0x3;
            self.n_prgbank_select = (data & 0x30) >> 4;
            return true;
        }
        false
    }

    pub fn ppu_read(&mut self, address: u16, mapped_addr: &mut u32, _data: u8) -> (r: bool)
        ensures
            r == (address <= 0x1FFF),
            r ==> *final(mapped_addr) == old(self)@.3 as u32 * 0x2000 + address as u32,
            !r ==> *final(mapped_addr) == *old(mapped_addr),
            final(self)@ == old(self)@,
    {
        if address <= 0x1FFF {
            *mapped_addr = (self.n_chrbank_select as u32 * 0x2000) + (address as u32);
            return true;
        }
        false
    }

    /// Writes go to the selected CHR bank when the board has CHR RAM.
    pub fn ppu_write(&mut self, address: u16, mapped_addr: &mut u32, _data: u8) -> (r: bool)
        ensures
            r == (address <= 0x1FFF && old(self)@.0 == 0),
            r ==> *final(mapped_addr) == old(self)@.3 as u32 * 0x2000 + address as u32,
            !r ==> *final(mapped_addr) == *old(mapped_addr),
            final(self)@ == old(self)@,
    {
        if address <= 0x1FFF && self.n_chrbanks == 0 {
            *mapped_addr = (self.n_chrbank_select as u32 * 0x2000) + (address as u32);
            return true;
        }
        false
    }

    pub fn get_mirror_mode(&self) -> (r: MirrorMode)
        ensures
            r == self@.4,
    {
        self.mirrormode
    }

    /// CHR banks on the board.
    pub fn chr_banks(&self) -> (r: u8)
        ensures
            r == self@.0,
    {
        self.n_chrbanks
    }

    /// The selected CHR bank.
    pub fn chr_select(&self) -> (r: u8)
        ensures
            r == self@.3,
    {
        self.n_chrbank_select
    }
}

} // verus!
