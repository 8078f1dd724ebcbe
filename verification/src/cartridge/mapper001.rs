//! Mapper 001 (MMC1): registers loaded through a 5-bit serial shift
//! register, switchable PRG and CHR banks, mirroring control and 8 KiB of
//! battery-backed PRG RAM.
use vstd::prelude::*;
use super::MirrorMode;
use crate::bits::{lemma_byte_masks, lemma_word_masks, lemma_u32_masks};

verus! {

pub struct Mapper001 {
    n_load_register: u8,
    n_load_register_count: u8,
    n_control_register: u8,
    n_chrbank_select4_lo: u8,
    n_chrbank_select4_hi: u8,
    n_chrbank_select8: u8,
    n_prgbank_select16_lo: u8,
    n_prgbank_select16_hi: u8,
    n_prgbank_select32: u8,
    mirrormode: MirrorMode,
    n_prgbanks: u8,
    n_chrbanks: u8,
    ram: Vec<u8>,
}

/// The state of an MMC1 board.
#[verifier::ext_equal]
pub struct Mapper001View {
    pub load: u8,
    pub count: u8,
    pub control: u8,
    pub chr_lo: u8,
    pub chr_hi: u8,
    pub chr8: u8,
    pub prg_lo: u8,
    pub prg_hi: u8,
    pub prg32: u8,
    pub mirror: MirrorMode,
    pub n_prg: u8,
    pub n_chr: u8,
    pub ram: Seq<u8>,
}

impl Mapper001View {
    /// The board's invariant: the serial register holds at most five bits
    /// and fewer than five writes, the control register five bits, there
    /// is a PRG bank, and the RAM is 8 KiB.
    pub open spec fn wf(self) -> bool {
        &&& self.load < 32
        &&& self.count < 5
        &&& self.control < 32
        &&& self.n_prg >= 1
        &&& self.ram.len() == 8192
    }

    /// The mirroring that the low two bits of the control register select.
    pub open spec fn mirror_of(control: u8) -> MirrorMode {
        if control % 4 == 0 {
            MirrorMode::OneScreenLo
        } else if control % 4 == 1 {
            MirrorMode::OneScreenHi
        } else if control % 4 == 2 {
            MirrorMode::Vertical
        } else {
            MirrorMode::Horizontal
        }
    }

    /// Copies the full 5-bit value `value` into the register that `address`
    /// selects (bits 13-14), and clears the serial register.
    pub open spec fn commit(self, address: u16, value: u8) -> Mapper001View {
        let target = (address as int / 0x2000) % 4;
        let cleared = Mapper001View { load: 0, count: 0, ..self };
        if target == 0 {
            Mapper001View { control: value, mirror: Self::mirror_of(value), ..cleared }
        } else if target == 1 {
            if self.control % 32 >= 16 {
                Mapper001View { chr_lo: value, ..cleared }
            } else {
                Mapper001View { chr8: (value - value % 2) as u8, ..cleared }
            }
        } else if target == 2 {
            if self.control % 32 >= 16 {
                Mapper001View { chr_hi: value, ..cleared }
            } else {
                cleared
            }
        } else {
            let mode = (self.control / 4) % 4;
            if mode <= 1 {
                Mapper001View { prg32: ((value % 16) / 2) as u8, ..cleared }
            } else if mode == 2 {
                Mapper001View { prg_lo: 0, prg_hi: (value % 16) as u8, ..cleared }
            } else {
                Mapper001View { prg_lo: (value % 16) as u8, prg_hi: (self.n_prg - 1) as u8, ..cleared }
            }
        }
    }

    /// The board after a CPU write of `data` to `address`.
    pub open spec fn write(self, address: u16, data: u8) -> Mapper001View {
        if 0x6000 <= address <= 0x7FFF {
            Mapper001View { ram: self.ram.update(address as int % 0x2000, data), ..self }
        } else if address >= 0x8000 {
            if data >= 0x80 {
                Mapper001View { load: 0, count: 0, control: self.control | 0x0C, ..self }
            } else {
                let load = (self.load / 2 + (data % 2) * 16) as u8;
                if self.count + 1 == 5 {
                    self.commit(address, load)
                } else {
                    Mapper001View { load, count: (self.count + 1) as u8, ..self }
                }
            }
        } else {
            self
        }
    }

    /// CPU read mapping: (handled, mapped address); PRG RAM reads are
    /// handled with the marker address 0xFFFFFFFF.
    pub open spec fn cpu_map(self, address: u16) -> (bool, u32) {
        if 0x6000 <= address <= 0x7FFF {
            (true, 0xFFFF_FFFF)
        } else if address >= 0x8000 {
            if self.control % 16 >= 8 {
                if address < 0xC000 {
                    (true, (self.prg_lo as int * 0x4000 + address as int % 0x4000) as u32)
                } else {
                    (true, (self.prg_hi as int * 0x4000 + address as int % 0x4000) as u32)
                }
            } else {
                (true, (self.prg32 as int * 0x8000 + address as int % 0x8000) as u32)
            }
        } else {
            (false, 0)
        }
    }

    /// PPU read mapping: (handled, mapped address).
    pub open spec fn ppu_map(self, address: u16) -> (bool, u32) {
        if address < 0x2000 {
            if self.n_chr == 0 {
                (true, address as u32)
            } else if self.control % 32 >= 16 {
                if address <= 0x0FFF {
                    (true, (self.chr_lo as int * 0x1000 + address as int % 0x1000) as u32)
                } else {
                    (true, (self.chr_hi as int * 0x1000 + address as int % 0x1000) as u32)
                }
            } else {
                (true, (self.chr8 as int * 0x1000 + address as int % 0x2000) as u32)
            }
        } else {
            (false, 0)
        }
    }
}

impl View for Mapper001 {
    type V = Mapper001View;

    closed spec fn view(&self) -> Mapper001View {
        Mapper001View {
            load: self.n_load_register,
            count: self.n_load_register_count,
            control: self.n_control_register,
            chr_lo: self.n_chrbank_select4_lo,
            chr_hi: self.n_chrbank_select4_hi,
            chr8: self.n_chrbank_select8,
            prg_lo: self.n_prgbank_select16_lo,
            prg_hi: self.n_prgbank_select16_hi,
            prg32: self.n_prgbank_select32,
            mirror: self.mirrormode,
            n_prg: self.n_prgbanks,
            n_chr: self.n_chrbanks,
            ram: self.ram@,
        }
    }
}

/// The RAM contents restored from `save`: its first bytes, up to 8 KiB,
/// then zeros.
pub open spec fn restored_ram(save: Option<Seq<u8>>) -> Seq<u8> {
    match save {
        Some(s) => Seq::new(8192, |i: int| if i < s.len() { s[i] } else { 0u8 }),
        None => Seq::new(8192, |i: int| 0u8),
    }
}

/// The board at power-on with `n_prg` 16 KiB PRG banks and `n_chr` 8 KiB
/// CHR banks: shift register empty, control $1C (the last PRG bank fixed
/// at $C000), every bank register 0 but the high PRG bank, which is the
/// last, horizontal mirroring, and PRG RAM restored from `save`.
pub open spec fn power_on_view(n_prg: u8, n_chr: u8, save: Option<Seq<u8>>) -> Mapper001View {
    Mapper001View {
        load: 0,
        count: 0,
        control: 0x1C,
        chr_lo: 0,
        chr_hi: 0,
        chr8: 0,
        prg_lo: 0,
        prg_hi: (n_prg - 1) as u8,
        prg32: 0,
        mirror: MirrorMode::Horizontal,
        n_prg,
        n_chr,
        ram: restored_ram(save),
    }
}

impl Mapper001 {
    /// A board in its power-on state. The mirroring argument is not used:
    /// the board starts horizontal. PRG RAM starts as the first 8 KiB of
    /// `save` (the battery save's bytes, when there is one), zero-padded.
    pub fn new(
        prg_rom_size: u8,
        chr_rom_size: u8,
        _nametable_arrangement: MirrorMode,
        save: Option<Vec<u8>>,
    ) -> (r: Self)
        requires
            prg_rom_size >= 1,
        ensures
            r@ == power_on_view(
                prg_rom_size,
                chr_rom_size,
                match save {
                    Some(v) => Some(v@),
                    None => None,
                },
            ),
            r@.wf(),
    {
        let mut ram: Vec<u8> = vec![0; 8192];
        match &save {
            Some(bytes) => {
                let mut i: usize = 0;
                while i < 8192 && i < bytes.len()
                    invariant
                        ram.len() == 8192,
                        i <= 8192,
                        i <= bytes.len(),
                        forall|k: int| 0 <= k < i ==> ram@[k] == bytes@[k],
                        forall|k: int| i <= k < 8192 ==> ram@[k] == 0,
                    decreases 8192 - i,
                {
                    ram.set(i, bytes[i]);
                    i = i + 1;
                }
            },
            None => {},
        }
        assert(ram@ =~= restored_ram(
            match save {
                Some(v) => Some(v@),
                None => None,
            },
        ));
        let mut toreturn = Self {
            n_load_register: 0,
            n_load_register_count: 0,
            n_control_register: 0,
            n_chrbank_select4_lo: 0,
            n_chrbank_select4_hi: 0,
            n_chrbank_select8: 0,
            n_prgbank_select16_lo: 0,
            n_prgbank_select16_hi: 0,
            n_prgbank_select32: 0,
            mirrormode: MirrorMode::Horizontal,
            ram,
            n_prgbanks: prg_rom_size,
            n_chrbanks: chr_rom_size,
        };
        toreturn.reset();
        toreturn
    }

    /// The power-on register state: control $1C (16 KiB PRG mode with the
    /// last bank fixed at $C000), banks 0, serial register empty.
    pub fn reset(&mut self)
        requires
            old(self)@.n_prg >= 1,
        ensures
            final(self)@ == (Mapper001View {
                load: 0,
                count: 0,
                control: 0x1C,
                chr_lo: 0,
                chr_hi: 0,
                chr8: 0,
                prg_lo: 0,
                prg_hi: (old(self)@.n_prg - 1) as u8,
                prg32: 0,
                ..old(self)@
            }),
    {
        self.n_control_register = 0x1C;
        self.n_load_register = 0x00;
        self.n_load_register_count = 0;
        self.n_chrbank_select4_lo = 0;
        self.n_chrbank_select4_hi = 0;
        self.n_chrbank_select8 = 0;
        self.n_prgbank_select32 = 0;
        self.n_prgbank_select16_lo = 0;
        self.n_prgbank_select16_hi = self.n_prgbanks - 1;
    }

    pub fn get_mirror_mode(&self) -> (r: MirrorMode)
        ensures
            r == self@.mirror,
    {
        self.mirrormode
    }

    pub fn ppu_read(&mut self, address: u16, mapped_addr: &mut u32, _data: u8) -> (r: bool)
        ensures
            (r, *final(mapped_addr)) == old(self)@.ppu_map(address),
            final(self)@ == old(self)@,
    {
        proof {
            lemma_word_masks(address);
            lemma_u32_masks(address as u32);
        }
        *mapped_addr = 0;
        if address < 0x2000 {
            if self.n_chrbanks == 0 {
                *mapped_addr = address as u32;
                return true;
            } else {
                if self.n_control_register & 0b10000 != 0 {
                    proof {
                        lemma_byte_masks(self.n_control_register);
                    }
                    if address <= 0x0FFF {
                        *mapped_addr = (self.n_chrbank_select4_lo as u32 * 0x1000) + (address as u32 & 0x0FFF);
                        return true;
                    }
                    if address >= 0x1000 && address <= 0x1FFF {
                        *mapped_addr = (self.n_chrbank_select4_hi as u32 * 0x1000) + (address as u32 & 0x0FFF);
                        return true;
                    }
                } else {
                    proof {
                        lemma_byte_masks(self.n_control_register);
                    }
                    *mapped_addr = (self.n_chrbank_select8 as u32 * 0x1000) + (address as u32 & 0x1FFF);
                    return true;
                }
            }
        }
        false
    }

    /// Pattern writes go straight through when the board has CHR RAM.
    pub fn ppu_write(&mut self, address: u16, mapped_addr: &mut u32, _data: u8) -> (r: bool)
        ensures
            r == (address < 0x2000 && old(self)@.n_chr == 0),
            *final(mapped_addr) == if r { address as u32 } else { 0 },
            final(self)@ == old(self)@,
    {
        *mapped_addr = 0;
        if address < 0x2000 && self.n_chrbanks == 0 {
            *mapped_addr = address as u32;
            return true;
        }
        false
    }

    /// CPU reads: PRG RAM at $6000-$7FFF is read here (mapped address set
    /// to 0xFFFFFFFF); PRG ROM addresses are mapped through the banks.
    pub fn cpu_read(&self, address: u16, mapped_addr: &mut u32, data: &mut u8) -> (r: bool)
        requires
            self@.wf(),
        ensures
            (r, *final(mapped_addr)) == self@.cpu_map(address),
            *final(data) == if 0x6000 <= address <= 0x7FFF {
                self@.ram[address as int % 0x2000]
            } else {
                *old(data)
            },
    {
        proof {
            lemma_word_masks(address);
            lemma_u32_masks(address as u32);
            lemma_byte_masks(self.n_control_register);
        }
        *mapped_addr = 0;
        if address >= 0x6000 && address <= 0x7FFF {
            *mapped_addr = 0xFFFFFFFF;
            *data = self.ram[(address & 0x1FFF) as usize];
            return true;
        }
        if address >= 0x8000 {
            if self.n_control_register & 0b01000 != 0 {
                if address < 0xC000 {
                    *mapped_addr = (self.n_prgbank_select16_lo as u32 * 0x4000) + (address & 0x3FFF) as u32;
                    return true;
                } else {
                    *mapped_addr = (self.n_prgbank_select16_hi as u32 * 0x4000) + (address & 0x3FFF) as u32;
                    return true;
                }
            } else {
                *mapped_addr = (self.n_prgbank_select32 as u32 * 0x8000) + (address as u32 & 0x7FFF);
                return true;
            }
        }
        false
    }

    /// CPU writes: PRG RAM at $6000-$7FFF, and the serial register from
    /// $8000 up (a write with bit 7 set resets it; five writes of bit 0
    /// load the register that address bits 13-14 select).
    pub fn cpu_write(&mut self, address: u16, mapped_addr: &mut u32, data: u8) -> (r: bool)
        requires
            old(self)@.wf(),
        ensures
            final(self)@ == old(self)@.write(address, data),
            final(self)@.wf(),
            r == (0x6000 <= address <= 0x7FFF),
            *final(mapped_addr) == if r { 0xFFFF_FFFFu32 } else { 0 },
    {
        proof {
            lemma_word_masks(address);
            lemma_byte_masks(data);
            lemma_byte_masks(self.n_control_register);
            lemma_byte_masks(self.n_load_register);
        }
        *mapped_addr = 0;
        if address >= 0x6000 && address <= 0x7FFF {
            *mapped_addr = 0xFFFFFFFF;
            self.ram.set(address as usize & 0x1FFF, data);
            return true;
        }
        if address >= 0x8000 {
            if data & 0x80 != 0 {
                proof {
                    lemma_or_0c(self.n_control_register);
                }
                self.n_load_register = 0;
                self.n_load_register_count = 0;
                self.n_control_register = self.n_control_register | 0x0C;
            } else {
                proof {
                    lemma_shift_in(self.n_load_register, data);
                }
                self.n_load_register = self.n_load_register >> 1;
                self.n_load_register = self.n_load_register & !(1 << 4);
                self.n_load_register = self.n_load_register | ((data & 0x01) << 4);
                self.n_load_register_count = self.n_load_register_count + 1;
                if self.n_load_register_count == 5 {
                    let value = self.n_load_register;
                    self.commit(address, value);
                }
            }
        }
        proof {
            assert(self@ =~= old(self)@.write(address, data));
        }
        false
    }

    /// Copies `value` into the register that `address` selects and clears
    /// the serial register.
    #[verifier::rlimit(40)]
    fn commit(&mut self, address: u16, value: u8)
        requires
            old(self)@.control < 32,
            old(self)@.n_prg >= 1,
            old(self)@.ram.len() == 8192,
            value < 32,
        ensures
            final(self)@ == old(self)@.commit(address, value),
            final(self)@.wf(),
    {
        proof {
            lemma_word_masks(address);
            lemma_byte_masks(value);
            lemma_byte_masks(self.n_control_register);
        }
        let ntargetregister = ((address >> 13) & 0x3) as u8;
        proof {
            lemma_byte_masks(value);
        }
        if ntargetregister == 0 {
            self.n_control_register = value & 0x1F;
            let sel = self.n_control_register & 0x03;
            self.mirrormode = if sel == 0 {
                MirrorMode::OneScreenLo
            } else if sel == 1 {
                MirrorMode::OneScreenHi
            } else if sel == 2 {
                MirrorMode::Vertical
            } else {
                MirrorMode::Horizontal
            };
        } else if ntargetregister == 1 {
            if self.n_control_register & 0b10000 != 0 {
                self.n_chrbank_select4_lo = value & 0x1F;
            } else {
                self.n_chrbank_select8 = value & 0x1E;
            }
        } else if ntargetregister == 2 {
            if self.n_control_register & 0b10000 != 0 {
                self.n_chrbank_select4_hi = value & 0x1F;
            }
        } else {
            let n_prgmode = (self.n_control_register >> 2) & 0x3;
            proof {
                lemma_control_mode(self.n_control_register);
            }
            if n_prgmode <= 1 {
                self.n_prgbank_select32 = (value & 0x0E) >> 1;
            } else if n_prgmode == 2 {
                self.n_prgbank_select16_lo = 0;
                self.n_prgbank_select16_hi = value & 0x0F;
            } else {
                self.n_prgbank_select16_lo = value & 0x0F;
                self.n_prgbank_select16_hi = self.n_prgbanks - 1;
            }
        }
        self.n_load_register = 0;
        self.n_load_register_count = 0;
        proof {
            assert(self@ =~= old(self)@.commit(address, value));
        }
    }

    /// The PRG RAM contents, for a battery save.
    pub fn save_data(&self) -> (r: Vec<u8>)
        ensures
            r@ == self@.ram,
    {
        self.ram.clone()
    }

    /// CHR banks on the board.
    pub fn chr_banks(&self) -> (r: u8)
        ensures
            r == self@.n_chr,
    {
        self.n_chrbanks
    }
}

proof fn lemma_or_0c(c: u8)
    by (bit_vector)
    requires
        c < 32,
    ensures
        c | 0x0Cu8 < 32,
{
}

proof fn lemma_shift_in(l: u8, d: u8)
    by (bit_vector)
    requires
        l < 32,
    ensures
        ((l >> 1u8) & !(1u8 << 4u8)) | ((d & 0x01u8) << 4u8) == l / 2 + (d % 2) * 16,
{
}

proof fn lemma_control_mode(c: u8)
    by (bit_vector)
    ensures
        (c >> 2u8) & 3u8 == (c / 4) % 4,
{
}

/// After a reset write (bit 7 set), five writes to $8000-$9FFF shift
/// their bit 0 into the serial register, least significant first, and
/// the fifth loads the control register with the five bits, which then
/// select the mirroring; the serial register is empty again.
pub proof fn law_serial_load_control(v: Mapper001View, a: u16, d0: u8, d1: u8, d2: u8, d3: u8, d4: u8)
    requires
        0x8000 <= a <= 0x9FFF,
        d0 < 0x80,
        d1 < 0x80,
        d2 < 0x80,
        d3 < 0x80,
        d4 < 0x80,
    ensures
        ({
            let w = v.write(a, 0x80).write(a, d0).write(a, d1).write(a, d2).write(a, d3).write(a, d4);
            let value = d0 % 2 + 2 * (d1 % 2) + 4 * (d2 % 2) + 8 * (d3 % 2) + 16 * (d4 % 2);
            &&& w.control == value
            &&& w.mirror == Mapper001View::mirror_of(w.control)
            &&& w.load == 0
            &&& w.count == 0
        }),
{
    let (b0, b1, b2, b3, b4) = (d0 % 2, d1 % 2, d2 % 2, d3 % 2, d4 % 2);
    let v0 = v.write(a, 0x80);
    assert(v0.load == 0 && v0.count == 0);
    let v1 = v0.write(a, d0);
    assert(v1.load == 16 * b0 && v1.count == 1);
    let v2 = v1.write(a, d1);
    assert(v2.load == 8 * b0 + 16 * b1 && v2.count == 2);
    let v3 = v2.write(a, d2);
    assert(v3.load == 4 * b0 + 8 * b1 + 16 * b2 && v3.count == 3);
    let v4 = v3.write(a, d3);
    assert(v4.load == 2 * b0 + 4 * b1 + 8 * b2 + 16 * b3 && v4.count == 4);
    assert((a as int / 0x2000) % 4 == 0);
}

/// A full 5-bit value `value` committed to the PRG bank register
/// ($E000-$FFFF) switches PRG banks by the mode in control bits 2-3: in
/// modes 0 and 1 the 32 KiB bank `(value & 0x0F) >> 1` fills $8000-$FFFF;
/// in mode 2 bank 0 stays fixed at $8000 and 16 KiB bank `value & 0x0F`
/// goes to $C000; in mode 3 bank `value & 0x0F` goes to $8000 and the
/// last bank stays fixed at $C000.
#[verifier::rlimit(60)]
#[verifier::spinoff_prover]
pub proof fn law_prg_bank_modes(v: Mapper001View, address: u16, value: u8, o: u16)
    requires
        v.wf(),
        0xE000 <= address,
        value < 32,
        o < 0x4000,
    ensures
        ({
            let r = v.commit(address, value);
            let mode = (v.control / 4) % 4;
            let bank = (value % 16) as int;
            &&& mode <= 1 ==> r.cpu_map((0x8000 + o) as u16) == (true, ((bank / 2) * 0x8000 + o) as u32)
                && r.cpu_map((0xC000 + o) as u16) == (true, ((bank / 2) * 0x8000 + 0x4000 + o) as u32)
            &&& mode == 2 ==> r.cpu_map((0x8000 + o) as u16) == (true, o as u32)
                && r.cpu_map((0xC000 + o) as u16) == (true, (bank * 0x4000 + o) as u32)
            &&& mode == 3 ==> r.cpu_map((0x8000 + o) as u16) == (true, (bank * 0x4000 + o) as u32)
                && r.cpu_map((0xC000 + o) as u16) == (true, ((v.n_prg - 1) * 0x4000 + o) as u32)
        }),
{
    assert((address as int / 0x2000) % 4 == 3);
    let c = v.control;
    assert(((c / 4) % 4 >= 2) == (c % 16 >= 8));
    assert(((0x8000 + o) as u16) as int % 0x4000 == o);
    assert(((0xC000 + o) as u16) as int % 0x4000 == o);
    assert(((0x8000 + o) as u16) as int % 0x8000 == o);
    assert(((0xC000 + o) as u16) as int % 0x8000 == o + 0x4000);
}

/// A full 5-bit value committed to the CHR registers switches pattern
/// memory: in 4 KiB mode (control bit 4) a write to $A000-$BFFF maps 4 KiB
/// bank `value` at $0000 and one to $C000-$DFFF bank `value` at $1000; in
/// 8 KiB mode a write to $A000-$BFFF maps the 8 KiB bank `value >> 1` at
/// $0000-$1FFF. A write to $8000-$9FFF sets the control register, whose
/// low two bits pick the mirroring (one-screen low, one-screen high,
/// vertical, horizontal).
#[verifier::rlimit(60)]
#[verifier::spinoff_prover]
pub proof fn law_chr_and_control(v: Mapper001View, value: u8, o: u16)
    requires
        v.wf(),
        v.n_chr != 0,
        value < 32,
        o < 0x1000,
    ensures
        ({
            let four_k = v.control % 32 >= 16;
            let r1 = v.commit(0xA000, value);
            let r2 = v.commit(0xC000, value);
            let r0 = v.commit(0x8000, value);
            &&& four_k ==> r1.ppu_map(o) == (true, (value as int * 0x1000 + o) as u32)
                && r2.ppu_map((0x1000 + o) as u16) == (true, (value as int * 0x1000 + o) as u32)
            &&& !four_k ==> r1.ppu_map(o) == (true, ((value as int / 2) * 0x2000 + o) as u32)
                && r1.ppu_map((0x1000 + o) as u16) == (true, ((value as int / 2) * 0x2000 + 0x1000 + o) as u32)
            &&& r0.control == value
            &&& r0.mirror == (if value % 4 == 0 {
                MirrorMode::OneScreenLo
            } else if value % 4 == 1 {
                MirrorMode::OneScreenHi
            } else if value % 4 == 2 {
                MirrorMode::Vertical
            } else {
                MirrorMode::Horizontal
            })
        }),
{
    assert((0xA000int / 0x2000) % 4 == 1);
    assert((0xC000int / 0x2000) % 4 == 2);
    assert(((0x1000 + o) as u16) as int % 0x1000 == o);
    assert(((0x1000 + o) as u16) as int % 0x2000 == 0x1000 + o);
    assert(((0x1000 + o) as u16) as int > 0x0FFF);
}

} // verus!
