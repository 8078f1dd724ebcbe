//! Mapper 000 (NROM): fixed 16 or 32 KiB of PRG ROM and 8 KiB of CHR.
use vstd::prelude::*;
use super::MirrorMode;
use crate::bits::lemma_u32_masks;

verus! {

/// NROM has no registers: only the bank counts and the mirroring.
pub struct Mapper000 {
    pub n_chr: u8,
    pub n_prg: u8,
    pub nametable: MirrorMode,
}

impl Mapper000 {
    /// The PRG mask: 32 KiB with more than one bank, else 16 KiB mirrored.
    pub open spec fn prg_mask_spec(self) -> u32 {
        if self.n_prg > 1 {
            0x7FFF
        } else {
            0x3FFF
        }
    }

    /// CPU mapping of the incoming address `m`: addresses from $8000 up
    /// map into PRG ROM modulo its size.
    pub open spec fn cpu_map(self, m: u32) -> (bool, u32) {
        if m >= 0x8000 {
            (true, m % (self.prg_mask_spec() + 1) as u32)
        } else {
            (false, m)
        }
    }

    /// PPU read mapping: pattern addresses pass through while the cartridge
    /// has PRG banks.
    pub open spec fn ppu_read_map(self, m: u32) -> bool {
        m <= 0x1FFF && self.n_prg > 0
    }

    /// PPU write mapping: pattern addresses pass through when the cartridge
    /// has CHR RAM (no CHR banks).
    pub open spec fn ppu_write_map(self, m: u32) -> bool {
        m <= 0x1FFF && self.n_chr == 0
    }

    pub fn cpu_read(&self, _address: u16, mapped_addr: &mut u32, _data: &mut u8) -> (r: bool)
        ensures
            (r, *final(mapped_addr)) == self.cpu_map(*old(mapped_addr)),
            *final(_data) == *old(_data),
    {
        if *mapped_addr >= 0x8000 {
            proof {
                lemma_u32_masks(*mapped_addr);
            }
            *mapped_addr = *mapped_addr & if self.n_prg > 1 { 0x7FFF } else { 0x3FFF };
            return true;
        }
        false
    }

    pub fn cpu_write(&mut self, _address: u16, mapped_addr: &mut u32, _data: u8) -> (r: bool)
        ensures
            (r, *final(mapped_addr)) == old(self).cpu_map(*old(mapped_addr)),
            *final(self) == *old(self),
    {
        if *mapped_addr >= 0x8000 {
            proof {
                lemma_u32_masks(*mapped_addr);
            }
            *mapped_addr = *mapped_addr & if self.n_prg > 1 { 0x7FFF } else { 0x3FFF };
            return true;
        }
        false
    }

    pub fn ppu_read(&self, _address: u16, mapped_addr: &mut u32, _data: u8) -> (r: bool)
        ensures
            r == self.ppu_read_map(*old(mapped_addr)),
            *final(mapped_addr) == *old(mapped_addr),
    {
        if *mapped_addr <= 0x1FFF {
            if self.n_prg > 0 {
                return true;
            }
        }
        false
    }

    pub fn ppu_write(&mut self, _address: u16, mapped_addr: &mut u32, _data: u8) -> (r: bool)
        ensures
            r == old(self).ppu_write_map(*old(mapped_addr)),
            *final(mapped_addr) == *old(mapped_addr),
            *final(self) == *old(self),
    {
        if *mapped_addr <= 0x1FFF {
            if self.n_chr == 0 {
                return true;
            }
        }
        false
    }

    pub fn get_mirror_mode(&self) -> (r: MirrorMode)
        ensures
            r == self.nametable,
    {
        self.nametable
    }
}

} // verus!
