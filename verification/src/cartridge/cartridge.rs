//! The mapper-0 cartridge: an iNES image with mapper 0 only, its
//! mapping reached through the `BoardMap` interface.
use vstd::prelude::*;
use crate::bits::lemma_byte_fields;
use super::MirrorMode;
use super::mapper000::Mapper000;

verus! {

/// Nametable mirroring of the mapper-0 cartridge.
#[derive(Debug, Clone, Copy, PartialEq, Eq, Structural)]
pub enum Mirror {
    VERTICAL,
    HORIZONTAL,
}

/// The address mapping a mapper-0 cartridge board provides.
pub trait BoardMap {
    /// Where a CPU access of `address` lands in PRG memory, and whether
    /// the board maps it.
    spec fn cpu_mapping(&self, address: u16) -> (u16, bool);

    /// Whether the board maps a PPU read of `address` to CHR memory, at
    /// `address`.
    spec fn ppu_read_mapping(&self, address: u16) -> bool;

    /// Whether the board maps a PPU write of `address` to CHR memory, at
    /// `address`.
    spec fn ppu_write_mapping(&self, address: u16) -> bool;

    fn cpuread(&self, address: u16) -> (r: (u16, bool))
        ensures
            r == self.cpu_mapping(address),
    ;

    fn cpuwrite(&mut self, address: u16, byte: u8) -> (r: (u16, bool))
        ensures
            r == old(self).cpu_mapping(address),
            final(self).cpu_mapping(address) == old(self).cpu_mapping(address),
    ;

    fn ppu_map_read(&self, address: u16, mapped_addr: &mut u16) -> (r: bool)
        ensures
            r == self.ppu_read_mapping(address),
            *final(mapped_addr) == if r { address } else { *old(mapped_addr) },
    ;

    fn ppu_map_write(&self, address: u16, mapped_addr: &mut u16) -> (r: bool)
        ensures
            r == self.ppu_write_mapping(address),
            *final(mapped_addr) == if r { address } else { *old(mapped_addr) },
    ;
}

impl BoardMap for Mapper000 {
    open spec fn cpu_mapping(&self, address: u16) -> (u16, bool) {
        let (ok, mapped) = self.cpu_map(address as u32);
        (mapped as u16, ok)
    }

    open spec fn ppu_read_mapping(&self, address: u16) -> bool {
        self.ppu_read_map(address as u32)
    }

    open spec fn ppu_write_mapping(&self, address: u16) -> bool {
        self.ppu_write_map(address as u32)
    }

    fn cpuread(&self, address: u16) -> (r: (u16, bool)) {
        let mut mapped: u32 = address as u32;
        let mut data: u8 = 0;
        let ok = self.cpu_read(address, &mut mapped, &mut data);
        (mapped as u16, ok)
    }

    fn cpuwrite(&mut self, address: u16, byte: u8) -> (r: (u16, bool))
        ensures
            *final(self) == *old(self),
    {
        let mut mapped: u32 = address as u32;
        let ok = self.cpu_write(address, &mut mapped, byte);
        (mapped as u16, ok)
    }

    fn ppu_map_read(&self, address: u16, mapped_addr: &mut u16) -> (r: bool) {
        let mut mapped: u32 = address as u32;
        let ok = self.ppu_read(address, &mut mapped, 0);
        if ok {
            *mapped_addr = address;
        }
        ok
    }

    fn ppu_map_write(&self, address: u16, mapped_addr: &mut u16) -> (r: bool) {
        let ok = address <= 0x1FFF && self.n_chr == 0;
        if ok {
            *mapped_addr = address;
        }
        ok
    }
}

/// The mapper number an iNES header `buf` names.
pub open spec fn mapper_number(buf: Seq<u8>) -> int {
    buf[6] as int / 16 + (buf[7] as int - buf[7] as int % 16)
}

/// The length of the header and trainer of image `buf`.
pub open spec fn image_skip(buf: Seq<u8>) -> int {
    if (buf[6] as int / 4) % 2 == 1 {
        528int
    } else {
        16int
    }
}

/// Whether `buf` is an iNES image this cartridge loads: a header, mapper
/// 0, and all the PRG and CHR banks it announces.
pub open spec fn loadable(buf: Seq<u8>) -> bool {
    &&& buf.len() >= 16
    &&& mapper_number(buf) == 0
    &&& buf.len() >= image_skip(buf) + buf[4] as int * 16384 + buf[5] as int * 8192
}

/// A mapper-0 cartridge.
pub struct Cartridge {
    mirror: Mirror,
    chr_rom: Vec<u8>,
    prg_rom: Vec<u8>,
    mapper: Mapper000,
}

impl Cartridge {
    /// The mirroring.
    pub closed spec fn mirror(&self) -> Mirror {
        self.mirror
    }

    /// The PRG ROM.
    pub closed spec fn prg(&self) -> Seq<u8> {
        self.prg_rom@
    }

    /// The CHR memory.
    pub closed spec fn chr(&self) -> Seq<u8> {
        self.chr_rom@
    }

    /// The board.
    pub closed spec fn board(&self) -> Mapper000 {
        self.mapper
    }

    /// A CPU read of `address` reads inside PRG memory when it is mapped.
    pub open spec fn cpu_read_in_bounds(&self, address: u16) -> bool {
        let (mapped, ok) = self.board().cpu_mapping(address);
        ok ==> mapped < self.prg().len()
    }

    /// A CPU write of `address` lands inside CHR memory when it is mapped
    /// (this board writes CPU data there).
    pub open spec fn cpu_write_in_bounds(&self, address: u16) -> bool {
        let (mapped, ok) = self.board().cpu_mapping(address);
        ok ==> mapped < self.chr().len()
    }

    /// A PPU access of `address` stays inside CHR memory when mapped.
    pub open spec fn ppu_read_in_bounds(&self, address: u16) -> bool {
        self.board().ppu_read_mapping(address) ==> address < self.chr().len()
    }

    /// A PPU write of `address` stays inside CHR memory when mapped.
    pub open spec fn ppu_write_in_bounds(&self, address: u16) -> bool {
        self.board().ppu_write_mapping(address) ==> address < self.chr().len()
    }

    /// Loads iNES image `buffer`: the mirroring from flag bit 0, PRG and
    /// CHR after the header (and the trainer, when flag bit 2 is set).
    pub fn new(buffer: Vec<u8>) -> (r: Self)
        requires
            loadable(buffer@),
        ensures
            r.mirror() == if buffer@[6] % 2 == 1 { Mirror::VERTICAL } else { Mirror::HORIZONTAL },
            r.prg() == buffer@.subrange(image_skip(buffer@), image_skip(buffer@) + buffer@[4] as int * 16384),
            r.chr() == buffer@.subrange(
                image_skip(buffer@) + buffer@[4] as int * 16384,
                image_skip(buffer@) + buffer@[4] as int * 16384 + buffer@[5] as int * 8192,
            ),
            r.board().n_prg == buffer@[4],
            r.board().n_chr == buffer@[5],
    {
        let flags6 = buffer[6];
        let flags7 = buffer[7];
        assert((flags6 >> 4u8) | (flags7 & 0xF0u8) == 0 <==> flags6 / 16 + (flags7 - flags7 % 16) == 0) by (bit_vector);
        let num_skip: usize = if flags6 & 4 != 0 {
            512 + 16
        } else {
            16
        };
        proof {
            lemma_byte_fields(flags6);
        }
        let mirror = if flags6 & 1 != 0 {
            Mirror::VERTICAL
        } else {
            Mirror::HORIZONTAL
        };
        let prg_size: usize = buffer[4] as usize * 16384;
        let prg_rom = copy_range(&buffer, num_skip, num_skip + prg_size);
        let num_skip = num_skip + prg_size;
        let chr_size: usize = buffer[5] as usize * 8192;
        let chr_rom = copy_range(&buffer, num_skip, num_skip + chr_size);
        let mapper = Mapper000 {
            n_chr: buffer[5],
            n_prg: buffer[4],
            nametable: if flags6 & 1 != 0 {
                MirrorMode::Vertical
            } else {
                MirrorMode::Horizontal
            },
        };
        Cartridge { chr_rom, prg_rom, mapper, mirror }
    }

    /// The mirroring.
    pub fn get_mirror(&self) -> (r: &Mirror)
        ensures
            *r == self.mirror(),
    {
        &self.mirror
    }

    /// A CPU read: the mapped PRG byte and `true`, or `(0, false)` where
    /// the board maps nothing.
    pub fn cpuread(&self, address: u16, readonly: bool) -> (r: (u8, bool))
        requires
            self.cpu_read_in_bounds(address),
        ensures
            ({
                let (mapped, ok) = self.board().cpu_mapping(address);
                r == if ok { (self.prg()[mapped as int], true) } else { (0u8, false) }
            }),
    {
        let (mapped, success) = self.mapper.cpuread(address);
        if success {
            let data = self.prg_rom[mapped as usize];
            (data, true)
        } else {
            (0, false)
        }
    }

    /// A CPU write: where the board maps the address, the byte is stored
    /// in CHR memory at the mapped offset; returns whether it was.
    pub fn cpu_write(&mut self, address: u16, data: u8) -> (r: bool)
        requires
            old(self).cpu_write_in_bounds(address),
        ensures
            ({
                let (mapped, ok) = old(self).board().cpu_mapping(address);
                &&& r == ok
                &&& final(self).chr() == if ok { old(self).chr().update(mapped as int, data) } else { old(self).chr() }
            }),
            final(self).prg() == old(self).prg(),
            final(self).mirror() == old(self).mirror(),
            final(self).board().cpu_mapping(address) == old(self).board().cpu_mapping(address),
            final(self).board() == old(self).board(),
    {
        let (mapped, success) = self.mapper.cpuwrite(address, 0);
        if success {
            self.chr_rom.set(mapped as usize, data);
            return true;
        }
        false
    }

    /// A PPU write: where the board maps it, the byte is stored in CHR
    /// memory; returns whether it was.
    pub fn ppu_write(&mut self, addr: u16, data: u8) -> (r: bool)
        requires
            old(self).ppu_write_in_bounds(addr),
        ensures
            r == old(self).board().ppu_write_mapping(addr),
            final(self).chr() == if r { old(self).chr().update(addr as int, data) } else { old(self).chr() },
            final(self).prg() == old(self).prg(),
            final(self).mirror() == old(self).mirror(),
            final(self).board() == old(self).board(),
    {
        let mut mapped_addr: u16 = 0;
        if self.mapper.ppu_map_write(addr, &mut mapped_addr) {
            self.chr_rom.set(mapped_addr as usize, data);
            return true;
        }
        false
    }

    /// A PPU read: where the board maps it, the CHR byte is stored in
    /// `data`; returns whether it was.
    pub fn ppu_read(&self, addr: u16, data: &mut u8) -> (r: bool)
        requires
            self.ppu_read_in_bounds(addr),
        ensures
            r == self.board().ppu_read_mapping(addr),
            *final(data) == if r { self.chr()[addr as int] } else { *old(data) },
    {
        let mut mapped_addr: u16 = 0;
        if self.mapper.ppu_map_read(addr, &mut mapped_addr) {
            *data = self.chr_rom[mapped_addr as usize];
            return true;
        }
        false
    }
}

/// The bytes of `buf` from `start` up to (not including) `end`.
fn copy_range(buf: &Vec<u8>, start: usize, end: usize) -> (r: Vec<u8>)
    requires
        start <= end <= buf.len(),
    ensures
        r@ == buf@.subrange(start as int, end as int),
{
    let mut out: Vec<u8> = Vec::new();
    let mut i = start;
    while i < end
        invariant
            start <= i <= end <= buf.len(),
            out@ == buf@.subrange(start as int, i as int),
        decreases end - i,
    {
        out.push(buf[i]);
        i = i + 1;
    }
    out
}

} // verus!
