//! Mapper 003 (CNROM): fixed PRG and a switchable 8 KiB CHR bank.
use vstd::prelude::*;
use super::MirrorMode;
use crate::bits::lemma_byte_masks;

verus! {

pub struct Mapper003 {
    n_prgbanks: u8,
    n_chrbanks: u8,
    n_chrbank_select: u8,
    mirrormode: MirrorMode,
}

/// (PRG banks, CHR banks, selected CHR bank, mirroring).
pub type Mapper003View = (u8, u8, u8, MirrorMode);

impl View for Mapper003 {
    type V = Mapper003View;

    closed spec fn view(&self) -> Mapper003View {
        (self.n_prgbanks, self.n_chrbanks, self.n_chrbank_select, self.mirrormode)
    }
}

impl Mapper003 {
    pub fn new(n_prgbanks: u8, n_chrbanks: u8, mirrormode: MirrorMode) -> (r: Self)
        ensures
            r@ == (n_prgbanks, n_chrbanks, 0u8, mirrormode),
    {
        Self { n_prgbanks, n_chrbanks, n_chrbank_select: 0, mirrormode }
    }

    /// Every CPU address maps to itself.
    pub fn cpu_read(&self, address: u16, mapped_addr: &mut u32, _data: &mut u8) -> (r: bool)
        ensures
            r,
            *final(mapped_addr) == address as u32,
            *final(_data) == *old(_data),
    {
        *mapped_addr = address as u32;
        true
    }

    /// A write from $8000 up selects the CHR bank (low two bits).
    pub fn cpu_write(&mut self, address: u16, _mapped_addr: &mut u32, data: u8) -> (r: bool)
        ensures
            !r,
            *final(_mapped_addr) == *old(_mapped_addr),
            address >= 0x8000 ==> final(self)@ == (old(self)@.0, old(self)@.1, (data % 4) as u8, old(self)@.3),
            address < 0x8000 ==> final(self)@ == old(self)@,
    {
        proof {
            lemma_byte_masks(data);
        }
        if address >= 0x8000 {
            self.n_chrbank_select = data & 0x3;
        }
        false
    }

    pub fn ppu_read(&mut self, address: u16, mapped_addr: &mut u32, _data: u8) -> (r: bool)
        ensures
            r == (address <= 0x1FFF),
            r ==> *final(mapped_addr) == old(self)@.2 as u32 * 0x2000 + address as u32,
            !r ==> *final(mapped_addr) == 0,
            final(self)@ == old(self)@,
    {
        *mapped_addr = 0;
        if address <= 0x1FFF {
            *mapped_addr = ((self.n_chrbank_select as u32) * 0x2000) + (address as u32);
            return true;
        }
        false
    }

    pub fn ppu_write(&mut self, address: u16, mapped_addr: &mut u32, _data: u8) -> (r: bool)
        ensures
            r == (old(self)@.1 == 0),
            r ==> *final(mapped_addr) == address as u32,
            !r ==> *final(mapped_addr) == *old(mapped_addr),
            final(self)@ == old(self)@,
    {
        if self.n_chrbanks == 0 {
            *mapped_addr = address as u32;
            return true;
        }
        false
    }

    pub fn get_mirror_mode(&self) -> (r: MirrorMode)
        ensures
            r == self@.3,
    {
        self.mirrormode
    }

    /// CHR banks on the board.
    pub fn chr_banks(&self) -> (r: u8)
        ensures
            r == self@.1,
    {
        self.n_chrbanks
    }
}

} // verus!
