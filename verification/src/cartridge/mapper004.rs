//! Mapper 004 (MMC3): 8 KiB PRG and 1 KiB CHR banks chosen through eight
//! bank registers, mirroring control, 8 KiB of PRG RAM and a scanline
//! counter that raises IRQs.
use vstd::prelude::*;
use super::MirrorMode;
use crate::bits::{lemma_byte_masks, lemma_word_masks, lemma_u32_masks};
use vstd::arithmetic::div_mod::{lemma_mod_multiples_basic, lemma_small_mod};

verus! {

pub struct Mapper004 {
    n_prgbanks: u8,
    n_chrbanks: u8,
    n_target_register: u8,
    b_prgbank_mode: bool,
    b_chrinversion: bool,
    mirrormode: MirrorMode,
    p_register: Vec<u8>,
    p_chrbank: Vec<u32>,
    p_prgbank: Vec<u32>,
    n_irqreload: u16,
    n_irqcounter: u16,
    b_irqenable: bool,
    b_irqactive: bool,
    b_irqupdate: bool,
    ram: Vec<u8>,
    last_a12_state: bool,
}

/// The state of an MMC3 board.
#[verifier::ext_equal]
pub struct Mapper004View {
    pub n_prg: u8,
    pub n_chr: u8,
    pub target: u8,
    pub prg_mode: bool,
    pub chr_inversion: bool,
    pub mirror: MirrorMode,
    pub registers: Seq<u8>,
    pub chr_banks: Seq<u32>,
    pub prg_banks: Seq<u32>,
    pub irq_reload: u16,
    pub irq_counter: u16,
    pub irq_enable: bool,
    pub irq_active: bool,
    pub irq_update: bool,
    pub ram: Seq<u8>,
    pub last_a12: bool,
}

/// Rust's `%` on integers: the remainder takes the sign of `a`.
/// The board at power-on with `n_prg` 16 KiB PRG banks and `n_chr` 8 KiB
/// CHR banks: bank select target 0, both modes off, horizontal mirroring,
/// every bank register and CHR bank 0, the PRG banks 0, 1 and the last
/// two, the IRQ counter, latch and flags clear, and the 32 KiB of RAM zero.
pub open spec fn power_on_view(n_prg: u8, n_chr: u8) -> Mapper004View {
    Mapper004View {
        n_prg,
        n_chr,
        target: 0,
        prg_mode: false,
        chr_inversion: false,
        mirror: MirrorMode::Horizontal,
        registers: Seq::new(8, |i: int| 0u8),
        chr_banks: Seq::new(8, |i: int| 0u32),
        prg_banks: seq![
            0u32,
            0x2000u32,
            ((n_prg as int * 2 - 2) * 0x2000) as u32,
            ((n_prg as int * 2 - 1) * 0x2000) as u32,
        ],
        irq_reload: 0,
        irq_counter: 0,
        irq_enable: false,
        irq_active: false,
        irq_update: false,
        ram: Seq::new(32768, |i: int| 0u8),
        last_a12: false,
    }
}

pub open spec fn trunc_rem(a: int, m: int) -> int {
    if a >= 0 {
        a % m
    } else {
        -((-a) % m)
    }
}

/// The byte offset of bank `index` among `nbanks` banks of `unit` bytes:
/// indices from 128 up count back from the end (two's complement), the
/// index is reduced modulo the bank count, and a negative offset wraps to
/// the end of memory.
pub open spec fn bank_offset(index: int, nbanks: int, unit: int) -> int {
    let adjusted = if index >= 0x80 {
        index - 0x100
    } else {
        index
    };
    let offset = trunc_rem(adjusted, nbanks) * unit;
    if offset < 0 {
        offset + nbanks * unit
    } else {
        offset
    }
}

/// CHR banks counted in the offset computation (CHR RAM counts as one).
pub open spec fn chr_bank_count(n_chr: u8) -> int {
    if n_chr == 0 {
        1
    } else {
        n_chr as int
    }
}

/// The bank register value behind 1 KiB CHR slot `k`: the two 2 KiB banks
/// (registers 0 and 1, as even/odd pairs) and the four 1 KiB banks
/// (registers 2-5), with the halves swapped under CHR inversion.
pub open spec fn chr_slot_index(regs: Seq<u8>, inversion: bool, k: int) -> int {
    let j = if inversion {
        (k + 4) % 8
    } else {
        k
    };
    if j == 0 {
        regs[0] as int - regs[0] as int % 2
    } else if j == 1 {
        regs[0] as int - regs[0] as int % 2 + 1
    } else if j == 2 {
        regs[1] as int - regs[1] as int % 2
    } else if j == 3 {
        regs[1] as int - regs[1] as int % 2 + 1
    } else {
        regs[j - 2] as int
    }
}

/// The bank behind 8 KiB PRG slot `k`: register 6 at $8000 (or $C000 in
/// PRG mode 1, with the second-to-last bank in its place), register 7 at
/// $A000 and the last bank at $E000.
pub open spec fn prg_slot_index(regs: Seq<u8>, prg_mode: bool, k: int) -> int {
    if k == 0 {
        if prg_mode {
            -2
        } else {
            regs[6] as int
        }
    } else if k == 1 {
        regs[7] as int
    } else if k == 2 {
        if prg_mode {
            regs[6] as int
        } else {
            -2
        }
    } else {
        -1
    }
}

impl Mapper004View {
    pub open spec fn wf(self) -> bool {
        &&& self.n_prg >= 1
        &&& self.target < 8
        &&& self.registers.len() == 8
        &&& self.chr_banks.len() == 8
        &&& self.prg_banks.len() == 4
        &&& self.ram.len() == 32768
        &&& forall|k: int|
            0 <= k < 8 ==> #[trigger] self.chr_banks[k] < chr_bank_count(self.n_chr) * 8192
                && self.chr_banks[k] % 0x400 == 0
        &&& forall|k: int| 0 <= k < 4 ==> #[trigger] self.prg_banks[k] < self.n_prg as int * 16384
    }

    /// The bank offsets after a bank register changes.
    pub open spec fn with_banks_updated(self) -> Mapper004View {
        Mapper004View {
            chr_banks: Seq::new(
                8,
                |k: int|
                    bank_offset(
                        chr_slot_index(self.registers, self.chr_inversion, k),
                        chr_bank_count(self.n_chr) * 8,
                        0x400,
                    ) as u32,
            ),
            prg_banks: Seq::new(
                4,
                |k: int|
                    bank_offset(
                        prg_slot_index(self.registers, self.prg_mode, k),
                        self.n_prg as int * 2,
                        0x2000,
                    ) as u32,
            ),
            ..self
        }
    }

    /// The board after a CPU write of `data` to `address`.
    pub open spec fn write(self, address: u16, data: u8) -> Mapper004View {
        if 0x6000 <= address <= 0x7FFF {
            Mapper004View { ram: self.ram.update(address as int % 0x2000, data), ..self }
        } else if 0x8000 <= address <= 0x9FFF {
            if address % 2 == 0 {
                Mapper004View {
                    target: (data % 8) as u8,
                    prg_mode: data % 128 >= 64,
                    chr_inversion: data >= 128,
                    ..self
                }
            } else {
                Mapper004View {
                    registers: self.registers.update(self.target as int, data),
                    ..self
                }.with_banks_updated()
            }
        } else if 0xA000 <= address <= 0xBFFF {
            if address % 2 == 0 {
                Mapper004View {
                    mirror: if data % 2 == 1 {
                        MirrorMode::Horizontal
                    } else {
                        MirrorMode::Vertical
                    },
                    ..self
                }
            } else {
                self
            }
        } else if 0xC000 <= address <= 0xDFFF {
            if address % 2 == 0 {
                Mapper004View { irq_reload: data as u16, ..self }
            } else {
                Mapper004View { irq_counter: 0, ..self }
            }
        } else if address >= 0xE000 {
            if address % 2 == 0 {
                Mapper004View { irq_enable: false, irq_active: false, ..self }
            } else {
                Mapper004View { irq_enable: true, ..self }
            }
        } else {
            self
        }
    }

    /// The board after one scanline of the IRQ counter: it reloads at zero,
    /// otherwise counts down, and raises the IRQ when it reaches zero with
    /// IRQs enabled.
    pub open spec fn after_scanline(self) -> Mapper004View {
        let counter = if self.irq_counter == 0 {
            self.irq_reload
        } else {
            (self.irq_counter - 1) as u16
        };
        Mapper004View {
            irq_counter: counter,
            irq_active: if counter == 0 && self.irq_enable {
                true
            } else {
                self.irq_active
            },
            ..self
        }
    }

    /// CPU read mapping: PRG RAM reads are handled with the marker address
    /// 0xFFFFFFFF; from $8000 up the 8 KiB slot's bank plus the offset.
    pub open spec fn cpu_map(self, address: u16, m: u32) -> (bool, u32) {
        if 0x6000 <= address <= 0x7FFF {
            (true, 0xFFFF_FFFF)
        } else if address >= 0x8000 {
            (
                true,
                (self.prg_banks[(address as int - 0x8000) / 0x2000] + address as int % 0x2000) as u32,
            )
        } else {
            (false, m)
        }
    }

    /// PPU mapping of a pattern address: its 1 KiB slot's bank plus the offset.
    pub open spec fn ppu_map(self, address: u16) -> u32 {
        (self.chr_banks[address as int / 0x400] + address as int % 0x400) as u32
    }
}

impl View for Mapper004 {
    type V = Mapper004View;

    closed spec fn view(&self) -> Mapper004View {
        Mapper004View {
            n_prg: self.n_prgbanks,
            n_chr: self.n_chrbanks,
            target: self.n_target_register,
            prg_mode: self.b_prgbank_mode,
            chr_inversion: self.b_chrinversion,
            mirror: self.mirrormode,
            registers: self.p_register@,
            chr_banks: self.p_chrbank@,
            prg_banks: self.p_prgbank@,
            irq_reload: self.n_irqreload,
            irq_counter: self.n_irqcounter,
            irq_enable: self.b_irqenable,
            irq_active: self.b_irqactive,
            irq_update: self.b_irqupdate,
            ram: self.ram@,
            last_a12: self.last_a12_state,
        }
    }
}

/// Bank offsets fall inside memory and on bank boundaries.
pub proof fn lemma_bank_offset(index: int, nbanks: int, unit: int)
    requires
        nbanks >= 1,
        unit >= 1,
    ensures
        0 <= bank_offset(index, nbanks, unit) < nbanks * unit,
        bank_offset(index, nbanks, unit) % unit == 0,
{
    let adjusted = if index >= 0x80 {
        index - 0x100
    } else {
        index
    };
    let r = trunc_rem(adjusted, nbanks);
    assert(-nbanks < r < nbanks);
    assert(-nbanks * unit < r * unit < nbanks * unit) by (nonlinear_arith)
        requires
            -nbanks < r < nbanks,
            unit >= 1,
    ;
    lemma_mod_multiples_basic(r, unit);
    lemma_mod_multiples_basic(r + nbanks, unit);
    assert(r * unit + nbanks * unit == (r + nbanks) * unit) by (nonlinear_arith);
}

impl Mapper004 {
    /// A board in its power-on state.
    pub fn new(prg_rom_size: u8, chr_rom_size: u8) -> (r: Self)
        requires
            prg_rom_size >= 1,
        ensures
            r@.wf(),
            r@ == power_on_view(prg_rom_size, chr_rom_size),
    {
        let mut mapper = Self {
            n_prgbanks: prg_rom_size,
            n_chrbanks: chr_rom_size,
            n_target_register: 0,
            b_prgbank_mode: false,
            b_chrinversion: false,
            mirrormode: MirrorMode::Horizontal,
            p_register: vec![0; 8],
            p_chrbank: vec![0; 8],
            p_prgbank: vec![0; 4],
            ram: vec![0; 32 * 1024],
            n_irqreload: 0,
            n_irqcounter: 0,
            b_irqenable: false,
            b_irqactive: false,
            b_irqupdate: false,
            last_a12_state: false,
        };
        proof {
            assert(mapper.p_register@ =~= Seq::new(8, |i: int| 0u8));
            assert(mapper.p_chrbank@ =~= Seq::new(8, |i: int| 0u32));
            assert(mapper.ram@ =~= Seq::new(32768, |i: int| 0u8));
        }
        mapper.reset();
        mapper
    }

    /// The byte offset in PRG ROM of 8 KiB bank `index`.
    fn prg_bank_offset(&self, index: i32) -> (r: u32)
        requires
            self.n_prgbanks >= 1,
            -2 <= index <= 255,
        ensures
            r as int == bank_offset(index as int, self.n_prgbanks as int * 2, 0x2000),
    {
        let mut adjusted_index = index;
        if adjusted_index >= 0x80 {
            adjusted_index = adjusted_index - 0x100;
        }
        let m: i32 = (self.n_prgbanks as i32) * 2;
        let rem: i32 = if adjusted_index >= 0 {
            adjusted_index % m
        } else {
            -((-adjusted_index) % m)
        };
        proof {
            lemma_bank_offset(index as int, self.n_prgbanks as int * 2, 0x2000);
        }
        let mut offset = rem * 0x2000;
        if offset < 0 {
            offset = offset + (self.n_prgbanks as i32) * 16 * 1024;
        }
        offset as u32
    }

    /// The byte offset in CHR memory of 1 KiB bank `index`.
    fn chr_bank_offset(&self, index: i32) -> (r: u32)
        requires
            0 <= index <= 255,
        ensures
            r as int == bank_offset(index as int, chr_bank_count(self.n_chrbanks) * 8, 0x400),
    {
        let mut adjusted_index = index;
        if adjusted_index >= 0x80 {
            adjusted_index = adjusted_index - 0x100;
        }
        let actual_chr_banks: i32 = if self.n_chrbanks == 0 {
            1
        } else {
            self.n_chrbanks as i32
        };
        let m: i32 = actual_chr_banks * 8;
        let rem: i32 = if adjusted_index >= 0 {
            adjusted_index % m
        } else {
            -((-adjusted_index) % m)
        };
        proof {
            lemma_bank_offset(index as int, chr_bank_count(self.n_chrbanks) * 8, 0x400);
        }
        let mut offset = rem * 0x0400;
        if offset < 0 {
            offset = offset + actual_chr_banks * 8 * 1024;
        }
        offset as u32
    }

    /// The eight 1 KiB CHR bank offsets for the current bank registers.
    #[verifier::rlimit(50)]
    fn chr_layout(&self) -> (r: Vec<u32>)
        requires
            self@.wf(),
        ensures
            r@ == self@.with_banks_updated().chr_banks,
    {
        let ghost v = self@;
        let r0 = self.p_register[0];
        let r1 = self.p_register[1];
        proof {
            lemma_byte_masks(r0);
            lemma_byte_masks(r1);
        }
        let b_lo0 = self.chr_bank_offset((r0 & 0xFE) as i32);
        let b_hi0 = self.chr_bank_offset((r0 | 0x01) as i32);
        let b_lo1 = self.chr_bank_offset((r1 & 0xFE) as i32);
        let b_hi1 = self.chr_bank_offset((r1 | 0x01) as i32);
        let b2 = self.chr_bank_offset(self.p_register[2] as i32);
        let b3 = self.chr_bank_offset(self.p_register[3] as i32);
        let b4 = self.chr_bank_offset(self.p_register[4] as i32);
        let b5 = self.chr_bank_offset(self.p_register[5] as i32);
        let mut out: Vec<u32> = Vec::new();
        if self.b_chrinversion {
            out.push(b2);
            out.push(b3);
            out.push(b4);
            out.push(b5);
            out.push(b_lo0);
            out.push(b_hi0);
            out.push(b_lo1);
            out.push(b_hi1);
        } else {
            out.push(b_lo0);
            out.push(b_hi0);
            out.push(b_lo1);
            out.push(b_hi1);
            out.push(b2);
            out.push(b3);
            out.push(b4);
            out.push(b5);
        }
        proof {
            let target = v.with_banks_updated().chr_banks;
            assert forall|k: int| 0 <= k < 8 implies out@[k] == target[k] by {
                if v.chr_inversion {
                    assert((k + 4) % 8 == if k < 4 { k + 4 } else { k - 4 });
                }
            }
            assert(out@ =~= target);
        }
        out
    }

    /// The four 8 KiB PRG bank offsets for the current bank registers.
    fn prg_layout(&self) -> (r: Vec<u32>)
        requires
            self@.wf(),
        ensures
            r@ == self@.with_banks_updated().prg_banks,
    {
        let second_last = self.prg_bank_offset(-2);
        let last = self.prg_bank_offset(-1);
        let p6 = self.prg_bank_offset(self.p_register[6] as i32);
        let p7 = self.prg_bank_offset(self.p_register[7] as i32);
        let mut out: Vec<u32> = Vec::new();
        if self.b_prgbank_mode {
            out.push(second_last);
            out.push(p7);
            out.push(p6);
            out.push(last);
        } else {
            out.push(p6);
            out.push(p7);
            out.push(second_last);
            out.push(last);
        }
        proof {
            assert(out@ =~= self@.with_banks_updated().prg_banks);
        }
        out
    }

    /// Recomputes every bank offset from the bank registers and modes.
    fn update_bank_offset(&mut self)
        requires
            old(self)@.wf(),
        ensures
            final(self)@ == old(self)@.with_banks_updated(),
            final(self)@.wf(),
    {
        let chr = self.chr_layout();
        let prg = self.prg_layout();
        self.p_chrbank = chr;
        self.p_prgbank = prg;
        proof {
            let u = old(self)@.with_banks_updated();
            let n = chr_bank_count(self.n_chrbanks) * 8;
            assert forall|k: int| 0 <= k < 8 implies #[trigger] u.chr_banks[k] < chr_bank_count(u.n_chr) * 8192
                && u.chr_banks[k] % 0x400 == 0 by {
                lemma_bank_offset(chr_slot_index(u.registers, u.chr_inversion, k), n, 0x400);
            }
            assert forall|k: int| 0 <= k < 4 implies #[trigger] u.prg_banks[k] < u.n_prg as int * 16384 by {
                lemma_bank_offset(prg_slot_index(u.registers, u.prg_mode, k), u.n_prg as int * 2, 0x2000);
            }
            assert(self@ =~= u);
        }
    }

    /// CPU reads: PRG RAM at $6000-$7FFF is read here (mapped address set to
    /// 0xFFFFFFFF); from $8000 up the address maps through the PRG banks.
    pub fn cpu_read(&self, address: u16, mapped_addr: &mut u32, data: &mut u8) -> (r: bool)
        requires
            self@.wf(),
        ensures
            (r, *final(mapped_addr)) == self@.cpu_map(address, *old(mapped_addr)),
            *final(data) == if 0x6000 <= address <= 0x7FFF {
                self@.ram[address as int % 0x2000]
            } else {
                *old(data)
            },
    {
        proof {
            lemma_word_masks(address);
            lemma_u32_masks(address as u32);
        }
        if address >= 0x6000 && address <= 0x7FFF {
            *mapped_addr = 0xFFFFFFFF;
            *data = self.ram[(address as usize) & 0x1FFF];
            return true;
        }
        if address >= 0x8000 {
            let idx_chunk = (address - 0x8000) / 0x2000;
            *mapped_addr = self.p_prgbank[idx_chunk as usize] + ((address as u32) & 0x1FFF);
            return true;
        }
        false
    }

    /// CPU writes: PRG RAM, and the bank select/data, mirroring, IRQ
    /// latch/reload and IRQ disable/enable register pairs (even/odd addresses).
    #[verifier::rlimit(80)]
    pub fn cpu_write(&mut self, address: u16, mapped_addr: &mut u32, data: u8) -> (r: bool)
        requires
            old(self)@.wf(),
        ensures
            final(self)@ == old(self)@.write(address, data),
            final(self)@.wf(),
            r == (0x6000 <= address <= 0x7FFF),
            *final(mapped_addr) == if r { 0xFFFF_FFFFu32 } else { *old(mapped_addr) },
    {
        proof {
            lemma_word_masks(address);
            lemma_byte_masks(data);
        }
        if address >= 0x6000 && address <= 0x7FFF {
            *mapped_addr = 0xFFFFFFFF;
            self.ram.set((address as usize) & 0x1FFF, data);
            proof {
                assert(self@ =~= old(self)@.write(address, data));
            }
            return true;
        }
        if address >= 0x8000 && address <= 0x9FFF {
            if address & 0x1 == 0 {
                self.n_target_register = data & 0x7;
                self.b_prgbank_mode = data & 0x40 != 0;
                self.b_chrinversion = data & 0x80 != 0;
            } else {
                let t = self.n_target_register as usize;
                self.p_register.set(t, data);
                self.update_bank_offset();
            }
            proof {
                assert(self@ =~= old(self)@.write(address, data));
            }
            return false;
        }
        if address >= 0xA000 && address <= 0xBFFF {
            if address & 1 == 0 {
                if data & 1 != 0 {
                    self.mirrormode = MirrorMode::Horizontal;
                } else {
                    self.mirrormode = MirrorMode::Vertical;
                }
            }
            proof {
                assert(self@ =~= old(self)@.write(address, data));
            }
            return false;
        }
        if address >= 0xC000 && address <= 0xDFFF {
            if address & 0x1 == 0 {
                self.n_irqreload = data as u16;
            } else {
                self.n_irqcounter = 0;
            }
            proof {
                assert(self@ =~= old(self)@.write(address, data));
            }
            return false;
        }
        if address >= 0xE000 {
            if address & 1 == 0 {
                self.b_irqenable = false;
                self.b_irqactive = false;
            } else {
                self.b_irqenable = true;
            }
            proof {
                assert(self@ =~= old(self)@.write(address, data));
            }
            return false;
        }
        proof {
            assert(self@ =~= old(self)@.write(address, data));
        }
        false
    }

    /// PPU reads of pattern memory map through the 1 KiB CHR banks.
    pub fn ppu_read(&mut self, address: u16, mapped_addr: &mut u32, _data: u8) -> (r: bool)
        requires
            old(self)@.wf(),
        ensures
            r == (address <= 0x1FFF),
            *final(mapped_addr) == if r { old(self)@.ppu_map(address) } else { *old(mapped_addr) },
            final(self)@ == old(self)@,
    {
        proof {
            lemma_word_masks(address);
            lemma_u32_masks(address as u32);
        }
        if address <= 0x1FFF {
            let idx_chunk = address / 0x400;
            *mapped_addr = self.p_chrbank[idx_chunk as usize] + ((address as u32) & 0x03FF);
            return true;
        }
        false
    }

    /// PPU writes map like reads, when the board has CHR RAM.
    pub fn ppu_write(&mut self, address: u16, mapped_addr: &mut u32, _data: u8) -> (r: bool)
        requires
            old(self)@.wf(),
        ensures
            r == (address <= 0x1FFF && old(self)@.n_chr == 0),
            *final(mapped_addr) == if r { old(self)@.ppu_map(address) } else { *old(mapped_addr) },
            final(self)@ == old(self)@,
    {
        proof {
            lemma_word_masks(address);
            lemma_u32_masks(address as u32);
        }
        if address <= 0x1FFF {
            if self.n_chrbanks == 0 {
                let idx_chunk = address / 0x400;
                *mapped_addr = self.p_chrbank[idx_chunk as usize] + ((address as u32) & 0x03FF);
                return true;
            }
        }
        false
    }

    pub fn get_mirror_mode(&self) -> (r: MirrorMode)
        ensures
            r == self@.mirror,
    {
        self.mirrormode
    }

    /// Acknowledges the IRQ.
    pub fn irq_clear(&mut self)
        ensures
            final(self)@ == (Mapper004View { irq_active: false, ..old(self)@ }),
    {
        self.b_irqactive = false;
    }

    /// Whether the IRQ is raised.
    pub fn hasirq(&mut self) -> (r: bool)
        ensures
            r == old(self)@.irq_active,
            final(self)@ == old(self)@,
    {
        self.b_irqactive
    }

    /// Clocks the scanline counter.
    pub fn scanline(&mut self)
        ensures
            final(self)@ == old(self)@.after_scanline(),
    {
        if self.n_irqcounter == 0 {
            self.n_irqcounter = self.n_irqreload;
        } else {
            self.n_irqcounter = self.n_irqcounter - 1;
        }
        if self.n_irqcounter == 0 && self.b_irqenable {
            self.b_irqactive = true;
        }
    }

    /// Watches PPU address line A12: on each rise (0 to 1) of a pattern
    /// address it clocks the counter, reloading at zero or on a pending
    /// reload, and raises the IRQ when the counter is zero with IRQs enabled.
    pub fn ppu_access(&mut self, address: u16)
        ensures
            address > 0x1FFF ==> final(self)@ == old(self)@,
            address <= 0x1FFF ==> ({
                let a12 = address as int % 0x2000 >= 0x1000;
                let v = old(self)@;
                if !v.last_a12 && a12 {
                    let counter = if v.irq_counter == 0 || v.irq_update {
                        v.irq_reload
                    } else {
                        (v.irq_counter - 1) as u16
                    };
                    final(self)@ == (Mapper004View {
                        irq_counter: counter,
                        irq_update: if v.irq_counter == 0 || v.irq_update { false } else { v.irq_update },
                        irq_active: if counter == 0 && v.irq_enable { true } else { v.irq_active },
                        last_a12: true,
                        ..v
                    })
                } else {
                    final(self)@ == (Mapper004View { last_a12: a12, ..v })
                }
            }),
    {
        proof {
            lemma_word_masks(address);
            lemma_u32_masks(address as u32);
        }
        if address <= 0x1FFF {
            let current_a12_state = (address & 0x1000) != 0;
            if !self.last_a12_state && current_a12_state {
                if self.n_irqcounter == 0 || self.b_irqupdate {
                    self.n_irqcounter = self.n_irqreload;
                    self.b_irqupdate = false;
                } else {
                    self.n_irqcounter = self.n_irqcounter - 1;
                }
                if self.n_irqcounter == 0 && self.b_irqenable {
                    self.b_irqactive = true;
                }
            }
            self.last_a12_state = current_a12_state;
        }
    }

    /// The power-on state of the registers: banks 0 and 1 at $8000 and
    /// $A000, the last two banks at $C000 and $E000, IRQs off.
    pub fn reset(&mut self)
        requires
            old(self)@.wf(),
        ensures
            final(self)@ == (Mapper004View {
                target: 0,
                prg_mode: false,
                chr_inversion: false,
                mirror: MirrorMode::Horizontal,
                irq_active: false,
                irq_enable: false,
                irq_update: false,
                irq_counter: 0,
                irq_reload: 0,
                last_a12: false,
                registers: Seq::new(8, |i: int| 0u8),
                prg_banks: seq![
                    0u32,
                    0x2000u32,
                    ((old(self)@.n_prg as int * 2 - 2) * 0x2000) as u32,
                    ((old(self)@.n_prg as int * 2 - 1) * 0x2000) as u32,
                ],
                ..old(self)@
            }),
            final(self)@.wf(),
    {
        self.n_target_register = 0;
        self.b_prgbank_mode = false;
        self.b_chrinversion = false;
        self.mirrormode = MirrorMode::Horizontal;
        self.b_irqactive = false;
        self.b_irqenable = false;
        self.b_irqupdate = false;
        self.n_irqcounter = 0;
        self.n_irqreload = 0;
        self.last_a12_state = false;
        self.p_register = vec![0; 8];
        let n = self.n_prgbanks as u32;
        self.p_prgbank.set(0, 0 * 0x2000);
        self.p_prgbank.set(1, 1 * 0x2000);
        self.p_prgbank.set(2, (n * 2 - 2) * 0x2000);
        self.p_prgbank.set(3, (n * 2 - 1) * 0x2000);
        proof {
            assert(self.p_register@ =~= Seq::new(8, |i: int| 0u8));
        }
    }

    /// CHR banks on the board.
    pub fn chr_banks(&self) -> (r: u8)
        ensures
            r == self@.n_chr,
    {
        self.n_chrbanks
    }

    /// Where pattern address `address` maps in CHR memory.
    pub fn chr_map(&self, address: u16) -> (r: u32)
        requires
            self@.wf(),
            address <= 0x1FFF,
        ensures
            r == self@.ppu_map(address),
    {
        proof {
            lemma_word_masks(address);
            lemma_u32_masks(address as u32);
        }
        let idx_chunk = address / 0x400;
        self.p_chrbank[idx_chunk as usize] + ((address as u32) & 0x03FF)
    }
}

/// The board after `k` scanline clocks.
pub open spec fn after_scanlines(v: Mapper004View, k: nat) -> Mapper004View
    decreases k,
{
    if k == 0 {
        v
    } else {
        after_scanlines(v, (k - 1) as nat).after_scanline()
    }
}

/// With IRQs enabled and none pending, a counter at `n` counts one down
/// per scanline and raises the IRQ on the `n`-th scanline, not before;
/// the reload value and the IRQ enable stay as they were.
pub proof fn law_scanline_irq(v: Mapper004View, k: nat)
    requires
        v.irq_enable,
        !v.irq_active,
        k <= v.irq_counter,
    ensures
        after_scanlines(v, k).irq_counter == v.irq_counter - k,
        after_scanlines(v, k).irq_active == (k == v.irq_counter && k > 0),
        after_scanlines(v, k).irq_reload == v.irq_reload,
        after_scanlines(v, k).irq_enable,
    decreases k,
{
    if k > 0 {
        law_scanline_irq(v, (k - 1) as nat);
    }
}

/// The offset of 8 KiB bank `b` among `nbanks`, for a bank number below
/// both 128 and the bank count, and of the last two banks (-1, -2).
proof fn lemma_prg_offsets(b: int, nbanks: int)
    requires
        2 <= nbanks,
        0 <= b < 128,
        b < nbanks,
    ensures
        bank_offset(b, nbanks, 0x2000) == b * 0x2000,
        bank_offset(-1, nbanks, 0x2000) == (nbanks - 1) * 0x2000,
        bank_offset(-2, nbanks, 0x2000) == (nbanks - 2) * 0x2000,
{
    lemma_small_mod(b as nat, nbanks as nat);
    lemma_small_mod(1, nbanks as nat);
    if nbanks > 2 {
        lemma_small_mod(2, nbanks as nat);
    } else {
        assert(2int % 2 == 0);
    }
}

/// Bank select then bank data: writing `select` to $8000 (target register
/// `select & 7`, PRG mode bit 6) and 8 KiB bank number `b` to $8001 maps
/// the PRG windows as follows. With target 6 in PRG mode 0, bank `b` is
/// read at $8000 and the second-to-last bank at $C000; in PRG mode 1 the
/// two swap. With target 7, bank `b` is read at $A000. The last bank is
/// always read at $E000.
#[verifier::rlimit(60)]
#[verifier::spinoff_prover]
pub proof fn law_prg_bank_select(v: Mapper004View, select: u8, b: u8, o: u16)
    requires
        v.wf(),
        b < 128,
        (b as int) < v.n_prg as int * 2,
        o < 0x2000,
    ensures
        ({
            let r = v.write(0x8000, select).write(0x8001, b);
            let n = v.n_prg as int * 2;
            let mode1 = select & 0x40 != 0;
            &&& select & 7 == 6 && !mode1 ==> r.cpu_map((0x8000 + o) as u16, 0) == (true, (b * 0x2000 + o) as u32)
                && r.cpu_map((0xC000 + o) as u16, 0) == (true, ((n - 2) * 0x2000 + o) as u32)
            &&& select & 7 == 6 && mode1 ==> r.cpu_map((0xC000 + o) as u16, 0) == (true, (b * 0x2000 + o) as u32)
                && r.cpu_map((0x8000 + o) as u16, 0) == (true, ((n - 2) * 0x2000 + o) as u32)
            &&& select & 7 == 7 ==> r.cpu_map((0xA000 + o) as u16, 0) == (true, (b * 0x2000 + o) as u32)
            &&& r.cpu_map((0xE000 + o) as u16, 0) == (true, ((n - 1) * 0x2000 + o) as u32)
        }),
{
    let n = v.n_prg as int * 2;
    lemma_prg_offsets(b as int, n);
    lemma_byte_masks(select);
    let w = v.write(0x8000, select);
    let r = w.write(0x8001, b);
    assert(r == (Mapper004View { registers: w.registers.update(w.target as int, b), ..w }).with_banks_updated());
    assert(r.registers[w.target as int] == b);
    assert(((0x8000 + o) as u16) as int % 0x2000 == o);
    assert(((0xA000 + o) as u16) as int % 0x2000 == o);
    assert(((0xC000 + o) as u16) as int % 0x2000 == o);
    assert(((0xE000 + o) as u16) as int % 0x2000 == o);
    assert((((0x8000 + o) as u16) as int - 0x8000) / 0x2000 == 0);
    assert((((0xA000 + o) as u16) as int - 0x8000) / 0x2000 == 1);
    assert((((0xC000 + o) as u16) as int - 0x8000) / 0x2000 == 2);
    assert((((0xE000 + o) as u16) as int - 0x8000) / 0x2000 == 3);
}

/// Bank select then bank data for CHR: with target register `t` (2 to 5,
/// the 1 KiB banks) and 1 KiB bank number `b`, pattern address
/// $1000 + $400 * (t - 2) + `o` maps to `b` * $400 + `o`, or $400 * (t - 2)
/// + `o` under CHR inversion (bit 7 of the select); with target 0 (the
/// first 2 KiB bank) $0000 + `o` and $0400 + `o` map to the even bank
/// `b & $FE` and the odd bank `b | 1`, moved to $1000 under inversion.
#[verifier::rlimit(60)]
#[verifier::spinoff_prover]
pub proof fn law_chr_bank_select(v: Mapper004View, select: u8, b: u8, o: u16)
    requires
        v.wf(),
        b < 128,
        (b as int) + 1 < chr_bank_count(v.n_chr) * 8,
        o < 0x400,
    ensures
        ({
            let r = v.write(0x8000, select).write(0x8001, b);
            let t = (select & 7) as int;
            let inv = select & 0x80 != 0;
            let base1 = if inv { 0int } else { 0x1000 };
            let base2 = if inv { 0x1000int } else { 0 };
            let even = (b as int - b as int % 2);
            &&& 2 <= t <= 5 ==> r.ppu_map((base1 + 0x400 * (t - 2) + o) as u16) == (b as int * 0x400 + o) as u32
            &&& t == 0 ==> r.ppu_map((base2 + o) as u16) == (even * 0x400 + o) as u32
                && r.ppu_map((base2 + 0x400 + o) as u16) == ((even + 1) * 0x400 + o) as u32
        }),
{
    let n = chr_bank_count(v.n_chr) * 8;
    let even = b as int - b as int % 2;
    lemma_small_mod(b as nat, n as nat);
    lemma_small_mod(even as nat, n as nat);
    lemma_small_mod((even + 1) as nat, n as nat);
    lemma_byte_masks(select);
    let w = v.write(0x8000, select);
    let r = w.write(0x8001, b);
    assert(r == (Mapper004View { registers: w.registers.update(w.target as int, b), ..w }).with_banks_updated());
    assert(bank_offset(b as int, n, 0x400) == b as int * 0x400);
    assert(bank_offset(even, n, 0x400) == even * 0x400);
    assert(bank_offset(even + 1, n, 0x400) == (even + 1) * 0x400);
}

} // verus!
