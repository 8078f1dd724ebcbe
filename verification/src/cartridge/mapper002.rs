//! Mapper 002 (UxROM): a switchable 16 KiB PRG bank at $8000 and the last
//! bank fixed at $C000.
use vstd::prelude::*;
use super::MirrorMode;
use crate::bits::{lemma_byte_masks, lemma_word_masks, lemma_u32_masks};

verus! {

pub struct Mapper002 {
    n_prgbank_select_lo: u8,
    n_prgbank_select_hi: u8,
    n_prgbanks: u8,
    n_chrbanks: u8,
    nametable: MirrorMode,
}

/// The registers of a UxROM board: (low bank, high bank, PRG banks, CHR banks, mirroring).
pub type Mapper002View = (u8, u8, u8, u8, MirrorMode);

/// UxROM CPU read mapping of `address`.
pub open spec fn m002_cpu_map(v: Mapper002View, address: u16) -> (bool, u32) {
    if 0x8000 <= address <= 0xBFFF {
        (true, (v.0 as int * 0x4000 + address as int % 0x4000) as u32)
    } else if address >= 0xC000 {
        (true, (v.1 as int * 0x4000 + address as int % 0x4000) as u32)
    } else {
        (false, 0)
    }
}

impl View for Mapper002 {
    type V = Mapper002View;

    closed spec fn view(&self) -> Mapper002View {
        (
            self.n_prgbank_select_lo,
            self.n_prgbank_select_hi,
            self.n_prgbanks,
            self.n_chrbanks,
            self.nametable,
        )
    }
}

impl Mapper002 {
    /// A board with `prg_rom` PRG banks: bank 0 at $8000, the last at $C000.
    pub fn new(prg_rom: u8, chr_rom: u8, nametable: MirrorMode) -> (r: Self)
        requires
            prg_rom >= 1,
        ensures
            r@ == (0u8, (prg_rom - 1) as u8, prg_rom, chr_rom, nametable),
    {
        let mut toreturn = Mapper002 {
            n_prgbanks: prg_rom,
            n_chrbanks: chr_rom,
            nametable,
            n_prgbank_select_hi: 0,
            n_prgbank_select_lo: 0,
        };
        toreturn.reset();
        toreturn
    }

    /// Selects bank 0 at $8000 and the last bank at $C000.
    pub fn reset(&mut self)
        requires
            old(self)@.2 >= 1,
        ensures
            final(self)@ == (0u8, (old(self)@.2 - 1) as u8, old(self)@.2, old(self)@.3, old(self)@.4),
    {
        self.n_prgbank_select_hi = self.n_prgbanks - 1;
        self.n_prgbank_select_lo = 0;
    }

    pub fn cpu_read(&self, address: u16, mapped_addr: &mut u32, _data: &mut u8) -> (r: bool)
        ensures
            (r, *final(mapped_addr)) == m002_cpu_map(self@, address),
            *final(_data) == *old(_data),
    {
        proof {
            lemma_word_masks(address);
            lemma_u32_masks(address as u32);
        }
        *mapped_addr = 0;
        if address >= 0x8000 && address <= 0xBFFF {
            *mapped_addr = ((self.n_prgbank_select_lo as u32) * 0x4000) + ((address as u32) & 0x3FFF);
            return true;
        }
        if address >= 0xC000 {
            *mapped_addr = ((self.n_prgbank_select_hi as u32) * 0x4000) + ((address as u32) & 0x3FFF);
            return true;
        }
        false
    }

    /// A write from $8000 up selects the low bank (low four bits).
    pub fn cpu_write(&mut self, address: u16, _mapped_addr: &mut u32, data: u8) -> (r: bool)
        ensures
            !r,
            *final(_mapped_addr) == *old(_mapped_addr),
            address >= 0x8000 ==> final(self)@ == ((data % 16) as u8, old(self)@.1, old(self)@.2, old(self)@.3, old(self)@.4),
            address < 0x8000 ==> final(self)@ == old(self)@,
    {
        proof {
            lemma_byte_masks(data);
        }
        if address >= 0x8000 {
            self.n_prgbank_select_lo = data & 0xF;
        }
        false
    }

    pub fn ppu_read(&self, address: u16, mapped_addr: &mut u32, _data: u8) -> (r: bool)
        ensures
            r == (address <= 0x1FFF),
            r ==> *final(mapped_addr) == address as u32,
            !r ==> *final(mapped_addr) == *old(mapped_addr),
    {
        if address <= 0x1FFF {
            *mapped_addr = address as u32;
            return true;
        }
        false
    }

    /// Writes pass straight through when the board has CHR RAM.
    pub fn ppu_write(&mut self, address: u16, mapped_addr: &mut u32, _data: u8) -> (r: bool)
        ensures
            r == (old(self)@.3 == 0),
            r ==> *final(mapped_addr) == address as u32,
            !r ==> *final(mapped_addr) == *old(mapped_addr),
            final(self)@ == old(self)@,
    {
        if self.n_chrbanks == 0 {
            *mapped_addr = address as u32;
            return true;
        }
        false
    }

    pub fn get_mirror_mode(&self) -> (r: MirrorMode)
        ensures
            r == self@.4,
    {
        self.nametable
    }

    /// CHR banks on the board.
    pub fn chr_banks(&self) -> (r: u8)
        ensures
            r == self@.3,
    {
        self.n_chrbanks
    }
}

} // verus!
