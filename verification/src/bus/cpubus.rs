//! A minimal CPU bus: 2 KiB of RAM, the mapper-0 cartridge and the
//! PPU's registers.
use vstd::prelude::*;
use crate::bits::lemma_word_fields;
use crate::cartridge::cartridge::{Cartridge, BoardMap};
use crate::ppu::ppu::{Ppu, SimplePpuView, simple_register_value, simple_register_read, simple_register_written};

verus! {

/// RAM, cartridge and PPU as the CPU sees them.
pub struct Cpubus {
    memory: Vec<u8>,
    cartridge: Cartridge,
    ppu: Ppu,
}

impl Cpubus {
    /// The 2 KiB of RAM.
    pub closed spec fn ram(&self) -> Seq<u8> {
        self.memory@
    }

    /// The cartridge.
    pub closed spec fn cart(&self) -> Cartridge {
        self.cartridge
    }

    /// The PPU's state.
    pub closed spec fn ppu_state(&self) -> SimplePpuView {
        self.ppu@
    }

    /// RAM has its size and the PPU its invariant.
    pub open spec fn wf(&self) -> bool {
        &&& self.ram().len() == 2048
        &&& self.ppu_state().wf()
    }

    /// A bus with cleared RAM, `cartridge` and `ppu`.
    pub fn new(cartridge: Cartridge, ppu: Ppu) -> (r: Self)
        requires
            ppu@.wf(),
        ensures
            r.wf(),
            r.ram() == Seq::new(2048, |i: int| 0u8),
            r.cart() == cartridge,
            r.ppu_state() == ppu@,
    {
        let memory: Vec<u8> = vec![0; 2048];
        assert(memory@ =~= Seq::new(2048, |i: int| 0u8));
        Cpubus { memory, cartridge, ppu }
    }

    /// A CPU read: the cartridge answers first where its board maps the
    /// address; else RAM (mirrored every 2 KiB) below $2000, the PPU
    /// register `address % 8` up to $3FFF, and 0 elsewhere.
    pub fn cpu_read(&mut self, address: u16, readonly: bool) -> (r: u8)
        requires
            old(self).wf(),
            old(self).cart().cpu_read_in_bounds(address),
            0x2000 <= address <= 0x3FFF && !readonly && address % 8 == 7 ==> {
                &&& old(self).ppu_state().vram_addr + old(self).ppu_state().increment() <= 0xFFFF
                &&& old(self).cart().ppu_read_in_bounds(old(self).ppu_state().vram_addr)
            },
        ensures
            final(self).wf(),
            final(self).cart() == old(self).cart(),
            final(self).ram() == old(self).ram(),
            ({
                let (mapped, ok) = old(self).cart().board().cpu_mapping(address);
                if ok {
                    r == old(self).cart().prg()[mapped as int] && final(self).ppu_state() == old(self).ppu_state()
                } else if address <= 0x1FFF {
                    r == old(self).ram()[address as int % 2048] && final(self).ppu_state() == old(self).ppu_state()
                } else if address <= 0x3FFF {
                    &&& r == simple_register_value(old(self).ppu_state(), old(self).cart(), (address % 8) as u16, readonly)
                    &&& final(self).ppu_state() == simple_register_read(old(self).ppu_state(), old(self).cart(),
                        (address % 8) as u16, readonly)
                } else {
                    r == 0 && final(self).ppu_state() == old(self).ppu_state()
                }
            }),
    {
        let (mut data, success) = self.cartridge.cpuread(address, false);
        proof {
            lemma_word_fields(address);
        }
        if success {
        } else if address <= 0x1FFF {
            data = self.memory[(address & 0x7FF) as usize];
        } else if address >= 0x2000 && address <= 0x3FFF {
            let address = address & 0x7;
            data = self.ppu.cpu_read(&self.cartridge, address, readonly);
        } else if address >= 0x4016 && address <= 0x4017 {
            data = 0;
        }
        data
    }

    /// A CPU write: to the cartridge where its board maps the address;
    /// else to RAM below $2000, or to PPU control at $2000 (the only PPU
    /// address this bus forwards).
    pub fn cpu_write(&mut self, address: u16, byte: u8)
        requires
            old(self).wf(),
            old(self).cart().cpu_write_in_bounds(address),
        ensures
            final(self).wf(),
            final(self).cart().prg() == old(self).cart().prg(),
            final(self).cart().mirror() == old(self).cart().mirror(),
            final(self).cart().board() == old(self).cart().board(),
            ({
                let (mapped, ok) = old(self).cart().board().cpu_mapping(address);
                if ok {
                    &&& final(self).cart().chr() == old(self).cart().chr().update(mapped as int, byte)
                    &&& final(self).ram() == old(self).ram()
                    &&& final(self).ppu_state() == old(self).ppu_state()
                } else {
                    &&& final(self).cart().chr() == old(self).cart().chr()
                    &&& final(self).ram() == if address <= 0x1FFF {
                        old(self).ram().update(address as int % 2048, byte)
                    } else {
                        old(self).ram()
                    }
                    &&& final(self).ppu_state() == if address == 0x2000 {
                        simple_register_written(old(self).ppu_state(), 0, byte)
                    } else {
                        old(self).ppu_state()
                    }
                }
            }),
    {
        let success = self.cartridge.cpu_write(address, byte);
        proof {
            lemma_word_fields(address);
        }
        if success {
        } else if address <= 0x1FFF {
            self.memory.set((address & 0x7FF) as usize, byte);
        } else if address <= 0x2000 && address <= 0x3FFF {
            self.ppu.cpu_write(&mut self.cartridge, address & 0x7, byte);
        } else if address >= 0x4016 && address <= 0x4017 {
        }
    }
}

} // verus!
