//! # Cartridge
//! NES cartridges: the iNES file layout, PRG and CHR memory, and the
//! memory mappers (000, 001, 002, 003, 004, 066) that provide bank
//! switching, PRG RAM and scanline IRQs.
pub mod cartridge;
pub mod mapper000;
pub mod mapper001;
pub mod mapper002;
pub mod mapper003;
pub mod mapper004;
pub mod mapper066;

use vstd::prelude::*;
use mapper000::Mapper000;
use mapper001::Mapper001;
use mapper002::{Mapper002, m002_cpu_map};
use mapper003::Mapper003;
use mapper004::{Mapper004, lemma_bank_offset};
use mapper066::Mapper066;

verus! {

/// Nametable mirroring configurations for PPU memory.
#[derive(Debug, Clone, Copy, PartialEq, Eq, Structural)]
pub enum MirrorMode {
    Horizontal,
    OneScreenHi,
    OneScreenLo,
    Vertical,
}

/// The fields of the 16-byte iNES header that the cartridge keeps.
#[derive(Debug, Clone, Copy)]
pub struct Header {
    pub prg_rom_size: u8,
    pub chr_rom_size: u8,
    pub mapper: u8,
    pub four_screen: bool,
}

/// The memory mapper on the board.
pub enum Mapper {
    M000(Mapper000),
    M001(Mapper001),
    M002(Mapper002),
    M003(Mapper003),
    M004(Mapper004),
    M066(Mapper066),
}

impl Mapper {
    /// The mapper's invariant.
    pub open spec fn wf(self) -> bool {
        match self {
            Mapper::M001(m) => m@.wf(),
            Mapper::M004(m) => m@.wf(),
            Mapper::M002(m) => m@.2 >= 1,
            _ => true,
        }
    }

    /// CPU mapping of `address`: (handled, mapped address); 0xFFFFFFFF
    /// marks an access that the mapper served from its own RAM.
    pub open spec fn cpu_map(self, address: u16) -> (bool, u32) {
        match self {
            Mapper::M000(m) => m.cpu_map(address as u32),
            Mapper::M001(m) => m@.cpu_map(address),
            Mapper::M002(m) => m002_cpu_map(m@, address),
            Mapper::M003(m) => (true, address as u32),
            Mapper::M004(m) => m@.cpu_map(address, address as u32),
            Mapper::M066(m) => if address >= 0x8000 {
                (true, (m@.2 as int * 0x8000 + address as int - 0x8000) as u32)
            } else {
                (false, address as u32)
            },
        }
    }

    /// The byte a CPU read leaves when the mapper serves it from PRG RAM
    /// (`byte` otherwise).
    pub open spec fn cpu_ram_data(self, address: u16, byte: u8) -> u8 {
        match self {
            Mapper::M001(m) => if 0x6000 <= address <= 0x7FFF {
                m@.ram[address as int % 0x2000]
            } else {
                byte
            },
            Mapper::M004(m) => if 0x6000 <= address <= 0x7FFF {
                m@.ram[address as int % 0x2000]
            } else {
                byte
            },
            _ => byte,
        }
    }

    /// CPU write mapping of `address`: (handled, mapped address).
    pub open spec fn cpu_write_map(self, address: u16) -> (bool, u32) {
        match self {
            Mapper::M000(m) => m.cpu_map(address as u32),
            Mapper::M001(m) => if 0x6000 <= address <= 0x7FFF {
                (true, 0xFFFF_FFFF)
            } else {
                (false, 0)
            },
            Mapper::M002(m) => (false, address as u32),
            Mapper::M003(m) => (false, address as u32),
            Mapper::M004(m) => if 0x6000 <= address <= 0x7FFF {
                (true, 0xFFFF_FFFF)
            } else {
                (false, address as u32)
            },
            Mapper::M066(m) => (address >= 0x8000, address as u32),
        }
    }

    /// Whether `next` is this mapper after a CPU write of `data` to `address`.
    pub open spec fn cpu_write_step(self, next: Mapper, address: u16, data: u8) -> bool {
        match (self, next) {
            (Mapper::M000(a), Mapper::M000(b)) => b == a,
            (Mapper::M001(a), Mapper::M001(b)) => b@ == a@.write(address, data),
            (Mapper::M002(a), Mapper::M002(b)) => b@ == if address >= 0x8000 {
                ((data % 16) as u8, a@.1, a@.2, a@.3, a@.4)
            } else {
                a@
            },
            (Mapper::M003(a), Mapper::M003(b)) => b@ == if address >= 0x8000 {
                (a@.0, a@.1, (data % 4) as u8, a@.3)
            } else {
                a@
            },
            (Mapper::M004(a), Mapper::M004(b)) => b@ == a@.write(address, data),
            (Mapper::M066(a), Mapper::M066(b)) => b@ == if address >= 0x8000 {
                (a@.0, a@.1, ((data / 16) % 4) as u8, (data % 4) as u8, a@.4)
            } else {
                a@
            },
            _ => false,
        }
    }

    /// PPU read mapping of `address`: (handled, mapped address).
    pub open spec fn ppu_map(self, address: u16) -> (bool, u32) {
        match self {
            Mapper::M000(m) => (m.ppu_read_map(address as u32), address as u32),
            Mapper::M001(m) => m@.ppu_map(address),
            Mapper::M002(m) => (address <= 0x1FFF, address as u32),
            Mapper::M003(m) => (address <= 0x1FFF, (m@.2 as int * 0x2000 + address) as u32),
            Mapper::M004(m) => (address <= 0x1FFF, m@.ppu_map(address)),
            Mapper::M066(m) => (address <= 0x1FFF, (m@.3 as int * 0x2000 + address) as u32),
        }
    }

    /// PPU write mapping of `address`: (handled, mapped address).
    pub open spec fn ppu_write_map(self, address: u16) -> (bool, u32) {
        match self {
            Mapper::M000(m) => (m.ppu_write_map(address as u32), address as u32),
            Mapper::M001(m) => (address < 0x2000 && m@.n_chr == 0, address as u32),
            Mapper::M002(m) => (m@.3 == 0, address as u32),
            Mapper::M003(m) => (m@.1 == 0, address as u32),
            Mapper::M004(m) => (address <= 0x1FFF && m@.n_chr == 0, m@.ppu_map(address)),
            Mapper::M066(m) => (
                address <= 0x1FFF && m@.0 == 0,
                (m@.3 as int * 0x2000 + address) as u32,
            ),
        }
    }

    /// Whether the board has CHR ROM (CHR banks in its header), which
    /// takes no writes.
    pub open spec fn has_chr_rom(self) -> bool {
        match self {
            Mapper::M000(m) => m.n_chr > 0,
            Mapper::M001(m) => m@.n_chr > 0,
            Mapper::M002(m) => m@.3 > 0,
            Mapper::M003(m) => m@.1 > 0,
            Mapper::M004(m) => m@.n_chr > 0,
            Mapper::M066(m) => m@.0 > 0,
        }
    }

    /// The mirroring the mapper selects.
    pub open spec fn mirror(self) -> MirrorMode {
        match self {
            Mapper::M000(m) => m.nametable,
            Mapper::M001(m) => m@.mirror,
            Mapper::M002(m) => m@.4,
            Mapper::M003(m) => m@.3,
            Mapper::M004(m) => m@.mirror,
            Mapper::M066(m) => m@.4,
        }
    }

    /// Whether the mapper raises an IRQ.
    pub open spec fn irq(self) -> bool {
        match self {
            Mapper::M004(m) => m@.irq_active,
            _ => false,
        }
    }

    /// Whether `next` is this mapper with anything but the MMC3's IRQ
    /// state unchanged, and that state changed by `f`.
    pub open spec fn same_but_mmc3(self, next: Mapper, f: spec_fn(mapper004::Mapper004View) -> mapper004::Mapper004View) -> bool {
        match (self, next) {
            (Mapper::M000(a), Mapper::M000(b)) => b == a,
            (Mapper::M001(a), Mapper::M001(b)) => b@ == a@,
            (Mapper::M002(a), Mapper::M002(b)) => b@ == a@,
            (Mapper::M003(a), Mapper::M003(b)) => b@ == a@,
            (Mapper::M004(a), Mapper::M004(b)) => b@ == f(a@),
            (Mapper::M066(a), Mapper::M066(b)) => b@ == a@,
            _ => false,
        }
    }

    /// Whether `next` is this mapper, in every register and RAM byte.
    pub open spec fn unchanged(self, next: Mapper) -> bool {
        self.same_but_mmc3(next, |v: mapper004::Mapper004View| v)
    }

    fn cpu_read(&self, address: u16, mapped_addr: &mut u32, data: &mut u8) -> (r: bool)
        requires
            self.wf(),
            *old(mapped_addr) == address as u32,
        ensures
            (r, *final(mapped_addr)) == self.cpu_map(address),
            *final(data) == self.cpu_ram_data(address, *old(data)),
    {
        match self {
            Mapper::M000(m) => m.cpu_read(address, mapped_addr, data),
            Mapper::M001(m) => m.cpu_read(address, mapped_addr, data),
            Mapper::M002(m) => m.cpu_read(address, mapped_addr, data),
            Mapper::M003(m) => m.cpu_read(address, mapped_addr, data),
            Mapper::M004(m) => m.cpu_read(address, mapped_addr, data),
            Mapper::M066(m) => m.cpu_read(address, mapped_addr, data),
        }
    }

    fn cpu_write(&mut self, address: u16, mapped_addr: &mut u32, data: u8) -> (r: bool)
        requires
            old(self).wf(),
            *old(mapped_addr) == address as u32,
        ensures
            old(self).cpu_write_step(*final(self), address, data),
            final(self).wf(),
            (r, *final(mapped_addr)) == old(self).cpu_write_map(address),
    {
        match self {
            Mapper::M000(m) => m.cpu_write(address, mapped_addr, data),
            Mapper::M001(m) => m.cpu_write(address, mapped_addr, data),
            Mapper::M002(m) => m.cpu_write(address, mapped_addr, data),
            Mapper::M003(m) => m.cpu_write(address, mapped_addr, data),
            Mapper::M004(m) => m.cpu_write(address, mapped_addr, data),
            Mapper::M066(m) => m.cpu_write(address, mapped_addr, data),
        }
    }

    fn ppu_read(&mut self, address: u16, mapped_addr: &mut u32, data: u8) -> (r: bool)
        requires
            old(self).wf(),
            *old(mapped_addr) == address as u32,
        ensures
            old(self).unchanged(*final(self)),
            r == old(self).ppu_map(address).0,
            r ==> *final(mapped_addr) == old(self).ppu_map(address).1,
    {
        match self {
            Mapper::M000(m) => m.ppu_read(address, mapped_addr, data),
            Mapper::M001(m) => m.ppu_read(address, mapped_addr, data),
            Mapper::M002(m) => m.ppu_read(address, mapped_addr, data),
            Mapper::M003(m) => m.ppu_read(address, mapped_addr, data),
            Mapper::M004(m) => m.ppu_read(address, mapped_addr, data),
            Mapper::M066(m) => m.ppu_read(address, mapped_addr, data),
        }
    }

    fn ppu_write(&mut self, address: u16, mapped_addr: &mut u32, data: u8) -> (r: bool)
        requires
            old(self).wf(),
            *old(mapped_addr) == address as u32,
        ensures
            old(self).unchanged(*final(self)),
            r == old(self).ppu_write_map(address).0,
            r ==> *final(mapped_addr) == old(self).ppu_write_map(address).1,
    {
        match self {
            Mapper::M000(m) => m.ppu_write(address, mapped_addr, data),
            Mapper::M001(m) => m.ppu_write(address, mapped_addr, data),
            Mapper::M002(m) => m.ppu_write(address, mapped_addr, data),
            Mapper::M003(m) => m.ppu_write(address, mapped_addr, data),
            Mapper::M004(m) => m.ppu_write(address, mapped_addr, data),
            Mapper::M066(m) => m.ppu_write(address, mapped_addr, data),
        }
    }
}

/// An NES cartridge: PRG ROM, CHR ROM (or RAM) and a mapper.
pub struct Cartridge {
    header: Header,
    prg_rom: Vec<u8>,
    chr_rom: Vec<u8>,
    mapper: Mapper,
}

/// Whether bit `mask` of `b` is set.
pub open spec fn bit_set(b: u8, mask: u8) -> bool {
    b & mask != 0
}

/// The bytes of trainer data after the header.
pub open spec fn trainer_len(buf: Seq<u8>) -> int {
    if buf[6] & 0x04 != 0 {
        512
    } else {
        0
    }
}

/// Where PRG ROM starts in an iNES image.
pub open spec fn prg_start(buf: Seq<u8>) -> int {
    16 + trainer_len(buf)
}

/// PRG ROM bytes: 16 KiB per bank.
pub open spec fn prg_len(buf: Seq<u8>) -> int {
    buf[4] as int * 16384
}

/// CHR ROM bytes: 8 KiB per bank.
pub open spec fn chr_len(buf: Seq<u8>) -> int {
    buf[5] as int * 8192
}

/// The mapper number: high nibble of byte 7, low nibble from byte 6.
pub open spec fn mapper_number(buf: Seq<u8>) -> u8 {
    (buf[7] & 0xF0) | (buf[6] >> 4)
}

/// The mirroring that the header selects.
pub open spec fn header_mirroring(buf: Seq<u8>) -> MirrorMode {
    if buf[6] & 1 == 0 {
        MirrorMode::Horizontal
    } else {
        MirrorMode::Vertical
    }
}

/// An iNES image this cartridge accepts: a header, a supported mapper,
/// at least one PRG bank for the mappers that count back from the last
/// bank (001, 002, 004), and all the PRG and CHR data that the header
/// announces.
pub open spec fn ines_supported_spec(buf: Seq<u8>) -> bool {
    &&& buf.len() >= 16
    &&& {
        let m = mapper_number(buf);
        m == 0 || m == 1 || m == 2 || m == 3 || m == 4 || m == 66
    }
    &&& {
        let m = mapper_number(buf);
        m == 1 || m == 2 || m == 4 ==> buf[4] >= 1
    }
    &&& prg_start(buf) + prg_len(buf) + chr_len(buf) <= buf.len()
}

/// Checks that `buf` is an iNES image that `Cartridge::from_ines` accepts.
pub fn ines_supported(buf: &Vec<u8>) -> (r: bool)
    ensures
        r == ines_supported_spec(buf@),
{
    if buf.len() < 16 {
        return false;
    }
    let m = (buf[7] & 0xF0) | (buf[6] >> 4);
    if !(m == 0 || m == 1 || m == 2 || m == 3 || m == 4 || m == 66) {
        return false;
    }
    if (m == 1 || m == 2 || m == 4) && buf[4] < 1 {
        return false;
    }
    let training_data: usize = if buf[6] & 0x04 != 0 {
        512
    } else {
        0
    };
    let total = 16 + training_data + (buf[4] as usize) * 16384 + (buf[5] as usize) * 8192;
    total <= buf.len()
}

impl Cartridge {
    /// PRG ROM.
    pub closed spec fn prg(&self) -> Seq<u8> {
        self.prg_rom@
    }

    /// CHR ROM (or RAM).
    pub closed spec fn chr(&self) -> Seq<u8> {
        self.chr_rom@
    }

    /// The mapper.
    pub closed spec fn mapper(&self) -> Mapper {
        self.mapper
    }

    /// The header fields.
    pub closed spec fn header(&self) -> Header {
        self.header
    }

    /// The cartridge's invariant: CHR memory is not empty and the mapper is
    /// well formed (PRG memory may be empty on boards that never count back
    /// from its last bank).
    pub open spec fn wf(&self) -> bool {
        &&& self.chr().len() > 0
        &&& self.chr().len() <= 255 * 8192 + 8192
        &&& self.mapper().wf()
    }

    /// Whether `other` holds the same memory, header and mapper state.
    pub open spec fn same(&self, other: &Cartridge) -> bool {
        &&& other.prg() == self.prg()
        &&& other.chr() == self.chr()
        &&& other.header() == self.header()
        &&& self.mapper().unchanged(other.mapper())
    }

    /// The byte a CPU read of `address` gives (`byte` when unmapped).
    pub open spec fn cpu_read_value(&self, address: u16, byte: u8) -> u8 {
        let (res, mapped) = self.mapper().cpu_map(address);
        let b = self.mapper().cpu_ram_data(address, byte);
        if res && mapped != 0xFFFF_FFFF {
            self.prg()[mapped as int % (self.prg().len() as int)]
        } else {
            b
        }
    }

    /// Whether a CPU read of `address` can be served: when the mapper maps
    /// it into PRG memory, there is PRG memory to read (the read reduces
    /// the mapped address modulo its size).
    pub open spec fn cpu_read_ok(&self, address: u16) -> bool {
        let (res, mapped) = self.mapper().cpu_map(address);
        res && mapped != 0xFFFF_FFFF ==> self.prg().len() > 0
    }

    /// Whether a CPU write to `address` stays inside PRG memory.
    pub open spec fn cpu_write_in_bounds(&self, address: u16) -> bool {
        let (res, mapped) = self.mapper().cpu_write_map(address);
        res && mapped != 0xFFFF_FFFF ==> mapped < self.prg().len()
    }

    /// The byte a PPU read of `address` gives (`byte` when unmapped).
    pub open spec fn ppu_read_value(&self, address: u16, byte: u8) -> u8 {
        let (res, mapped) = self.mapper().ppu_map(address);
        if res {
            self.chr()[mapped as int % (self.chr().len() as int)]
        } else {
            byte
        }
    }

    /// Whether a PPU write to `address` stays inside CHR memory.
    pub open spec fn ppu_write_in_bounds(&self, address: u16) -> bool {
        let (res, mapped) = self.mapper().ppu_write_map(address);
        res ==> mapped < self.chr().len()
    }

    /// A cartridge from an iNES image: header, optional 512-byte trainer,
    /// PRG ROM, then CHR ROM (8 KiB of CHR RAM when the header announces no
    /// CHR banks). `save` is the battery-backed RAM for mapper 001.
    pub fn from_ines(buf: &Vec<u8>, save: Option<Vec<u8>>) -> (r: Self)
        requires
            ines_supported_spec(buf@),
        ensures
            r.wf(),
            r.prg() == buf@.subrange(prg_start(buf@), prg_start(buf@) + prg_len(buf@)),
            buf@[5] > 0 ==> r.chr() == buf@.subrange(
                prg_start(buf@) + prg_len(buf@),
                prg_start(buf@) + prg_len(buf@) + chr_len(buf@),
            ),
            buf@[5] == 0 ==> r.chr() == Seq::new(8192, |i: int| 0u8),
            r.mapper().has_chr_rom() == (buf@[5] > 0),
            r.header() == (Header {
                prg_rom_size: buf@[4],
                chr_rom_size: buf@[5],
                mapper: mapper_number(buf@),
                four_screen: buf@[6] & 0x08 != 0,
            }),
            mapper_number(buf@) == 0 ==> (r.mapper() matches Mapper::M000(m) && m == (Mapper000 {
                n_chr: buf@[5],
                n_prg: buf@[4],
                nametable: header_mirroring(buf@),
            })),
            mapper_number(buf@) == 1 ==> (r.mapper() matches Mapper::M001(m) && m@ == mapper001::power_on_view(
                buf@[4],
                buf@[5],
                match save {
                    Some(v) => Some(v@),
                    None => None,
                },
            )),
            mapper_number(buf@) == 2 ==> (r.mapper() matches Mapper::M002(m) && m@ == (
                0u8,
                (buf@[4] - 1) as u8,
                buf@[4],
                buf@[5],
                header_mirroring(buf@),
            )),
            mapper_number(buf@) == 3 ==> (r.mapper() matches Mapper::M003(m) && m@ == (
                buf@[4],
                buf@[5],
                0u8,
                header_mirroring(buf@),
            )),
            mapper_number(buf@) == 4 ==> (r.mapper() matches Mapper::M004(m) && m@ == mapper004::power_on_view(
                buf@[4],
                buf@[5],
            )),
            mapper_number(buf@) == 66 ==> (r.mapper() matches Mapper::M066(m) && m@ == (
                buf@[5],
                buf@[4],
                0u8,
                0u8,
                header_mirroring(buf@),
            )),
    {
        let prg_rom_size = buf[4];
        let chr_rom_size = buf[5];
        let prg_rom_len = prg_rom_size as usize * 16 * 1024;
        let chr_rom_len = chr_rom_size as usize * 8 * 1024;
        let training_data: usize = if buf[6] & 0x04 != 0 {
            512
        } else {
            0
        };
        let start = 16 + training_data;
        let mut prg_rom: Vec<u8> = Vec::new();
        let mut i: usize = 0;
        while i < prg_rom_len
            invariant
                i <= prg_rom_len,
                prg_rom_len == prg_len(buf@),
                start == prg_start(buf@),
                start + prg_rom_len <= buf@.len(),
                prg_rom@ == buf@.subrange(start as int, start + i),
            decreases prg_rom_len - i,
        {
            prg_rom.push(buf[start + i]);
            i = i + 1;
            assert(prg_rom@ =~= buf@.subrange(start as int, start + i));
        }
        let chr_rom: Vec<u8> = if chr_rom_size > 0 {
            let mut v: Vec<u8> = Vec::new();
            let cstart = start + prg_rom_len;
            let mut j: usize = 0;
            while j < chr_rom_len
                invariant
                    j <= chr_rom_len,
                    chr_rom_len == chr_len(buf@),
                    cstart == prg_start(buf@) + prg_len(buf@),
                    cstart + chr_rom_len <= buf@.len(),
                    v@ == buf@.subrange(cstart as int, cstart + j),
                decreases chr_rom_len - j,
            {
                v.push(buf[cstart + j]);
                j = j + 1;
                assert(v@ =~= buf@.subrange(cstart as int, cstart + j));
            }
            v
        } else {
            let v: Vec<u8> = vec![0; 8192];
            assert(v@ =~= Seq::new(8192, |i: int| 0u8));
            v
        };
        let mapper_num = (buf[7] & 0xF0) | (buf[6] >> 4);
        let four_screen = (buf[6] & 0x08) != 0;
        let nametable_arrangement = if buf[6] & 1 == 0 {
            MirrorMode::Horizontal
        } else {
            MirrorMode::Vertical
        };
        let header = Header {
            prg_rom_size,
            chr_rom_size,
            mapper: mapper_num,
            four_screen,
        };
        let mapper = if mapper_num == 0 {
            Mapper::M000(
                Mapper000 { n_chr: chr_rom_size, n_prg: prg_rom_size, nametable: nametable_arrangement },
            )
        } else if mapper_num == 1 {
            Mapper::M001(Mapper001::new(prg_rom_size, chr_rom_size, nametable_arrangement, save))
        } else if mapper_num == 2 {
            Mapper::M002(Mapper002::new(prg_rom_size, chr_rom_size, nametable_arrangement))
        } else if mapper_num == 3 {
            Mapper::M003(Mapper003::new(prg_rom_size, chr_rom_size, nametable_arrangement))
        } else if mapper_num == 4 {
            Mapper::M004(Mapper004::new(prg_rom_size, chr_rom_size))
        } else {
            Mapper::M066(Mapper066::new(prg_rom_size, chr_rom_size, nametable_arrangement))
        };
        Self { header, prg_rom, chr_rom, mapper }
    }

    /// Acknowledges the mapper's IRQ.
    pub fn irq_clear(&mut self)
        requires
            old(self).wf(),
        ensures
            final(self).wf(),
            final(self).prg() == old(self).prg(),
            final(self).chr() == old(self).chr(),
            final(self).header() == old(self).header(),
            old(self).mapper().same_but_mmc3(
                final(self).mapper(),
                |v: mapper004::Mapper004View| mapper004::Mapper004View { irq_active: false, ..v },
            ),
    {
        match &mut self.mapper {
            Mapper::M004(m) => m.irq_clear(),
            _ => {},
        }
    }

    /// The nametable mirroring the mapper currently selects.
    pub fn get_nametable(&self) -> (r: MirrorMode)
        ensures
            r == self.mapper().mirror(),
    {
        match &self.mapper {
            Mapper::M000(m) => m.get_mirror_mode(),
            Mapper::M001(m) => m.get_mirror_mode(),
            Mapper::M002(m) => m.get_mirror_mode(),
            Mapper::M003(m) => m.get_mirror_mode(),
            Mapper::M004(m) => m.get_mirror_mode(),
            Mapper::M066(m) => m.get_mirror_mode(),
        }
    }

    /// Resets the mapper to its power-on register state.
    pub fn reset(&mut self)
        requires
            old(self).wf(),
        ensures
            final(self).wf(),
            final(self).prg() == old(self).prg(),
            final(self).chr() == old(self).chr(),
            final(self).header() == old(self).header(),
            final(self).mapper().mirror() == match old(self).mapper() {
                Mapper::M004(m) => MirrorMode::Horizontal,
                _ => old(self).mapper().mirror(),
            },
    {
        match &mut self.mapper {
            Mapper::M001(m) => m.reset(),
            Mapper::M002(m) => m.reset(),
            Mapper::M004(m) => m.reset(),
            Mapper::M066(m) => m.reset(),
            _ => {},
        }
    }

    /// Clocks the mapper's scanline counter.
    pub fn scanline(&mut self)
        requires
            old(self).wf(),
        ensures
            final(self).wf(),
            final(self).prg() == old(self).prg(),
            final(self).chr() == old(self).chr(),
            final(self).header() == old(self).header(),
            old(self).mapper().same_but_mmc3(
                final(self).mapper(),
                |v: mapper004::Mapper004View| v.after_scanline(),
            ),
    {
        match &mut self.mapper {
            Mapper::M004(m) => m.scanline(),
            _ => {},
        }
    }

    /// Whether the mapper raises an IRQ.
    pub fn irq(&mut self) -> (r: bool)
        ensures
            r == old(self).mapper().irq(),
            old(self).same(final(self)),
    {
        match &mut self.mapper {
            Mapper::M004(m) => m.hasirq(),
            _ => false,
        }
    }

    /// A CPU read of cartridge space: the mapper may serve it from PRG RAM
    /// into `byte`; a mapped PRG address reads PRG ROM modulo its size.
    pub fn cpu_read(&self, address: u16, byte: &mut u8)
        requires
            self.wf(),
            self.cpu_read_ok(address),
        ensures
            *final(byte) == self.cpu_read_value(address, *old(byte)),
    {
        let mut mapped_addr = address as u32;
        let res = self.mapper.cpu_read(address, &mut mapped_addr, byte);
        if res && mapped_addr != 0xFFFFFFFF {
            let mapped_addr = (mapped_addr as usize) % self.prg_rom.len();
            *byte = self.prg_rom[mapped_addr];
        }
    }

    /// Whether a CPU write to `address` stays inside PRG memory.
    pub fn can_cpu_write(&self, address: u16) -> (r: bool)
        requires
            self.wf(),
        ensures
            r == self.cpu_write_in_bounds(address),
    {
        let (res, mapped) = match &self.mapper {
            Mapper::M000(m) => {
                let mut mm = address as u32;
                let mut d: u8 = 0;
                let r = m.cpu_read(address, &mut mm, &mut d);
                (r, mm)
            },
            Mapper::M001(m) => (address >= 0x6000 && address <= 0x7FFF, 0xFFFFFFFFu32),
            Mapper::M002(m) => (false, 0u32),
            Mapper::M003(m) => (false, 0u32),
            Mapper::M004(m) => (address >= 0x6000 && address <= 0x7FFF, 0xFFFFFFFFu32),
            Mapper::M066(m) => (address >= 0x8000, address as u32),
        };
        !(res && mapped != 0xFFFFFFFF) || (mapped as usize) < self.prg_rom.len()
    }

    /// A CPU write to cartridge space: it goes to the mapper's registers or
    /// PRG RAM, and where the mapper maps it to PRG memory, to that byte.
    pub fn cpu_write(&mut self, address: u16, byte: u8)
        requires
            old(self).wf(),
            old(self).cpu_write_in_bounds(address),
        ensures
            cart_after_cpu_write(*old(self), *final(self), address, byte),
    {
        let mut mapped_address = address as u32;
        let res = self.mapper.cpu_write(address, &mut mapped_address, byte);
        if res && mapped_address != 0xFFFFFFFF {
            self.prg_rom.set(mapped_address as usize, byte);
        }
    }

    /// A PPU read of pattern memory: a mapped address reads CHR memory
    /// modulo its size; otherwise `byte` is left as it was.
    pub fn ppu_read(&mut self, address: u16, byte: &mut u8)
        requires
            old(self).wf(),
        ensures
            old(self).same(final(self)),
            *final(byte) == old(self).ppu_read_value(address, *old(byte)),
    {
        let mut mapped_addr = address as u32;
        let res = self.mapper.ppu_read(address, &mut mapped_addr, *byte);
        if res {
            let mapped_addr = mapped_addr % (self.chr_rom.len() as u32);
            *byte = self.chr_rom[mapped_addr as usize];
        }
    }

    /// Whether a PPU write to `address` stays inside CHR memory.
    pub fn can_ppu_write(&self, address: u16) -> (r: bool)
        requires
            self.wf(),
        ensures
            r == self.ppu_write_in_bounds(address),
    {
        let (res, mapped): (bool, u32) = match &self.mapper {
            Mapper::M000(m) => (address <= 0x1FFF && m.n_chr == 0, address as u32),
            Mapper::M001(m) => (address < 0x2000 && m.chr_banks() == 0, address as u32),
            Mapper::M002(m) => (m.chr_banks() == 0, address as u32),
            Mapper::M003(m) => (m.chr_banks() == 0, address as u32),
            Mapper::M004(m) => {
                if address <= 0x1FFF && m.chr_banks() == 0 {
                    (true, m.chr_map(address))
                } else {
                    (false, 0u32)
                }
            },
            Mapper::M066(m) => (address <= 0x1FFF && m.chr_banks() == 0, m.chr_select() as u32 * 0x2000 + address as u32),
        };
        !res || (mapped as usize) < self.chr_rom.len()
    }

    /// A PPU write of pattern memory: where the mapper maps it (CHR RAM),
    /// the byte is stored.
    pub fn ppu_write(&mut self, address: u16, byte: u8)
        requires
            old(self).wf(),
            old(self).ppu_write_in_bounds(address),
        ensures
            final(self).wf(),
            ppu_written(*old(self), *final(self), address, byte),
    {
        let mut mapped_address = address as u32;
        let res = self.mapper.ppu_write(address, &mut mapped_address, byte);
        if res {
            self.chr_rom.set(mapped_address as usize, byte);
        }
    }

    /// The battery-backed RAM to save: MMC1's PRG RAM; other boards with
    /// PRG RAM save nothing.
    pub fn savestate(&self) -> (r: Option<Vec<u8>>)
        requires
            !(self.mapper() is M000),
            !(self.mapper() is M002),
            !(self.mapper() is M003),
        ensures
            match self.mapper() {
                Mapper::M001(m) => r matches Some(v) && v@ == m@.ram,
                _ => r is None,
            },
    {
        match &self.mapper {
            Mapper::M001(m) => Some(m.save_data()),
            _ => None,
        }
    }

    /// The header fields read from the image.
    pub fn get_header(&self) -> (r: Header)
        ensures
            r == self.header(),
    {
        self.header
    }
}

/// `b` is cartridge `a` after a PPU write of `byte` to `address`: the
/// mapper and PRG memory stay, and where the mapper maps the write the
/// byte is stored in CHR memory.
pub open spec fn ppu_written(a: Cartridge, b: Cartridge, address: u16, byte: u8) -> bool {
    &&& a.mapper().unchanged(b.mapper())
    &&& b.prg() == a.prg()
    &&& b.header() == a.header()
    &&& ({
        let (res, mapped) = a.mapper().ppu_write_map(address);
        if res {
            b.chr() == a.chr().update(mapped as int, byte)
        } else {
            b.chr() == a.chr()
        }
    })
}

/// A write to CHR ROM is ignored: every PPU read gives what it gave
/// before.
pub proof fn law_chr_rom_ignores_writes(a: Cartridge, b: Cartridge, address: u16, byte: u8)
    requires
        a.wf(),
        a.mapper().has_chr_rom(),
        ppu_written(a, b, address, byte),
    ensures
        forall|other: u16, old_byte: u8| #[trigger] b.ppu_read_value(other, old_byte) == a.ppu_read_value(other, old_byte),
{
}

/// On an NROM board with PRG ROM and 8 KiB of CHR RAM, a PPU read of a
/// pattern address gives back what a write there stored.
pub proof fn law_chr_ram_read_after_write(a: Cartridge, b: Cartridge, address: u16, byte: u8, old_byte: u8)
    requires
        a.wf(),
        a.mapper() matches Mapper::M000(m) && m.n_prg >= 1 && m.n_chr == 0,
        a.chr().len() == 8192,
        address <= 0x1FFF,
        ppu_written(a, b, address, byte),
    ensures
        b.ppu_read_value(address, old_byte) == byte,
{
    assert(b.mapper() == a.mapper());
    assert(b.chr().len() == 8192);
    assert(address as int % 8192 == address as int);
}

/// `b` is cartridge `a` after a CPU write of `byte` to `address`: the
/// mapper takes the write (registers, PRG RAM), and where it maps the
/// address into PRG memory the byte is stored there.
pub open spec fn cart_after_cpu_write(a: Cartridge, b: Cartridge, address: u16, byte: u8) -> bool {
    &&& b.wf()
    &&& a.mapper().cpu_write_step(b.mapper(), address, byte)
    &&& b.chr() == a.chr()
    &&& b.header() == a.header()
    &&& ({
        let (res, mapped) = a.mapper().cpu_write_map(address);
        if res && mapped != 0xFFFF_FFFF {
            b.prg() == a.prg().update(mapped as int, byte)
        } else {
            b.prg() == a.prg()
        }
    })
}

/// A cartridge left the same by an access keeps its invariant, its reads
/// and its mirroring, and "the same" chains.
pub proof fn lemma_same_cart(a: Cartridge, b: Cartridge, c: Cartridge, address: u16, byte: u8)
    requires
        a.same(&b),
    ensures
        a.wf() ==> b.wf(),
        b.ppu_read_value(address, byte) == a.ppu_read_value(address, byte),
        b.cpu_read_value(address, byte) == a.cpu_read_value(address, byte),
        b.mapper().mirror() == a.mapper().mirror(),
        b.same(&c) ==> a.same(&c),
        a.same(&a),
{
}

} // verus!
