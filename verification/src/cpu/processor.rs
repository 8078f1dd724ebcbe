//! The 6502 core: registers, the fetch-decode-execute clock, reset and
//! NMI, the addressing modes and the instruction handlers.
use vstd::prelude::*;
use crate::bits::{lemma_byte_masks, lemma_word_masks};
use crate::nes::bus::Bus;
use super::decode::{AddressModes, Instruction, opcode_entry, lookup};
use super::model::{CpuView, with_flag, with_nz, rd, wr, stack, word, mode_step, op_step, instruction_step,
    branch_step, carry_in, adc_step, sbc_step, compare_flags, FLAG_CARRY, FLAG_ZERO, FLAG_INTERRUPT, FLAG_DECIMAL,
    FLAG_BREAK, FLAG_UNUSED, FLAG_OVERFLOW, FLAG_NEGATIVE};

verus! {

/// The processor status flags.
#[derive(Debug, Clone, Copy, PartialEq, Eq, Structural)]
pub enum Flags {
    Negative,
    Overflow,
    Break,
    Decimal,
    Interrupt,
    Zeroflag,
    Carry,
}

/// The status bit of `flag`.
pub open spec fn flag_mask(flag: Flags) -> u8 {
    match flag {
        Flags::Negative => FLAG_NEGATIVE,
        Flags::Overflow => FLAG_OVERFLOW,
        Flags::Break => FLAG_BREAK,
        Flags::Decimal => FLAG_DECIMAL,
        Flags::Interrupt => FLAG_INTERRUPT,
        Flags::Zeroflag => FLAG_ZERO,
        Flags::Carry => FLAG_CARRY,
    }
}

/// The little-endian word of two bytes, built as the core builds it.
proof fn lemma_word(lo: u16, hi: u16)
    by (bit_vector)
    requires
        lo < 256,
        hi < 256,
    ensures
        (hi << 8u16) | lo == hi * 256 + lo,
        ((hi << 8u16) | lo) & 0xFF00u16 == hi * 256,
        hi << 8u16 == hi * 256,
{
}

/// The low byte and the page of a word, taken as the core takes them.
proof fn lemma_low_byte(w: u16)
    by (bit_vector)
    ensures
        w & 0x00FFu16 == w % 256,
        w & 0xFF00u16 == w - w % 256,
        (w >> 8u16) & 0xFFu16 == w / 256,
{
}

/// The sign extension of a branch offset, done as the core does it.
proof fn lemma_sign_extend(r: u16)
    by (bit_vector)
    requires
        r < 256,
    ensures
        r & 0x0080u16 != 0 <==> r >= 128,
        r >= 128 ==> r | 0xFF00u16 == r + 0xFF00,
{
}

/// The 6502 core.
pub struct Cpu {
    a: u8,
    x: u8,
    y: u8,
    sp: u8,
    pc: u16,
    flags: u8,
    cycles_left: u8,
    extra_cycles: u8,
    total_cycles: usize,
    immval: u8,
    abs_addr: u16,
    relval: u16,
    current_opcode: u8,
}

impl View for Cpu {
    type V = CpuView;

    closed spec fn view(&self) -> CpuView {
        CpuView {
            a: self.a,
            x: self.x,
            y: self.y,
            sp: self.sp,
            pc: self.pc,
            flags: self.flags,
            cycles_left: self.cycles_left,
            extra_cycles: self.extra_cycles,
            total_cycles: self.total_cycles,
            immval: self.immval,
            abs_addr: self.abs_addr,
            relval: self.relval,
            current_opcode: self.current_opcode,
        }
    }
}

/// The registers and memory after one clock: with no cycles left, the
/// opcode at PC is fetched and executed and its page-cross cycles added;
/// then one cycle passes.
pub open spec fn clock_step(s: CpuView, m: Seq<u8>) -> (CpuView, Seq<u8>) {
    let (t, m2) = if s.cycles_left == 0 {
        let opcode = rd(m, s.pc);
        let s1 = CpuView { pc: s.pc.wrapping_add(1), current_opcode: opcode, ..s };
        match opcode_entry(opcode) {
            Some((mode, op, cycles)) => {
                let (s2, m2) = instruction_step(mode, op, cycles, s1, m);
                (CpuView { cycles_left: s2.cycles_left.wrapping_add(s2.extra_cycles), ..s2 }, m2)
            },
            None => (s1, m),
        }
    } else {
        (s, m)
    };
    (CpuView { total_cycles: t.total_cycles.wrapping_add(1), cycles_left: t.cycles_left.wrapping_sub(1), ..t }, m2)
}

/// Whether `op` is a conditional branch.
pub open spec fn is_branch(op: Instruction) -> bool {
    op == Instruction::BCC || op == Instruction::BCS || op == Instruction::BEQ || op == Instruction::BMI
        || op == Instruction::BNE || op == Instruction::BPL || op == Instruction::BVC || op == Instruction::BVS
}

/// The CPU's invariant: the page-cross cycles of an instruction number at
/// most four.
pub open spec fn cpu_wf(s: CpuView) -> bool {
    s.extra_cycles <= 4
}

/// The registers after a reset: PC from the reset vector at $FFFC, the
/// other registers cleared, the stack pointer at $FD and status $20.
pub open spec fn reset_step(s: CpuView, m: Seq<u8>) -> CpuView {
    CpuView {
        pc: word(rd(m, 0xFFFC), rd(m, 0xFFFD)),
        a: 0,
        x: 0,
        y: 0,
        sp: 0xFD,
        flags: 0x20,
        abs_addr: 0,
        relval: 0,
        cycles_left: 0,
        total_cycles: 0,
        extra_cycles: 0,
        ..s
    }
}

/// The registers and memory after a non-maskable interrupt: PC pushed
/// (high byte first), break cleared and interrupts disabled, PC from the
/// NMI vector at $FFFA, eight cycles to spend.
pub open spec fn nmi_step(s: CpuView, m: Seq<u8>) -> (CpuView, Seq<u8>) {
    let m1 = wr(m, stack(s.sp), (s.pc as int / 256) as u8);
    let sp1 = s.sp.wrapping_sub(1);
    let m2 = wr(m1, stack(sp1), (s.pc as int % 256) as u8);
    let sp2 = sp1.wrapping_sub(1);
    let flags = with_flag(with_flag(s.flags, FLAG_BREAK, false), FLAG_INTERRUPT, true);
    (CpuView { sp: sp2, flags, pc: word(rd(m2, 0xFFFA), rd(m2, 0xFFFB)), cycles_left: 8, ..s }, m2)
}

/// Whether the next clock can run: a step is under way, or the opcode at
/// PC is one the core implements.
pub open spec fn can_clock(s: CpuView, m: Seq<u8>) -> bool {
    s.cycles_left != 0 || opcode_entry(rd(m, s.pc)) is Some
}

impl Cpu {
    /// A CPU at the core's start address $C000 with every register and
    /// flag clear and the stack pointer at $FD.
    pub fn new() -> (r: Self)
        ensures
            r@ == (CpuView {
                a: 0,
                x: 0,
                y: 0,
                sp: 0xFD,
                pc: 0xC000,
                flags: 0,
                cycles_left: 0,
                extra_cycles: 0,
                total_cycles: 0,
                immval: 0,
                abs_addr: 0,
                relval: 0,
                current_opcode: 0,
            }),
    {
        Self {
            a: 0,
            x: 0,
            y: 0,
            sp: 0xFD,
            pc: 0xc000,
            flags: 0,
            cycles_left: 0,
            total_cycles: 0,
            abs_addr: 0,
            relval: 0,
            immval: 0,
            extra_cycles: 0,
            current_opcode: 0,
        }
    }

    /// Sets `flag` when `state`, else clears it.
    pub fn setflag(&mut self, flag: Flags, state: bool)
        ensures
            final(self)@ == (CpuView { flags: with_flag(old(self)@.flags, flag_mask(flag), state), ..old(self)@ }),
    {
        let mask: u8 = match flag {
            Flags::Negative => FLAG_NEGATIVE,
            Flags::Overflow => FLAG_OVERFLOW,
            Flags::Break => FLAG_BREAK,
            Flags::Decimal => FLAG_DECIMAL,
            Flags::Interrupt => FLAG_INTERRUPT,
            Flags::Zeroflag => FLAG_ZERO,
            Flags::Carry => FLAG_CARRY,
        };
        self.flags = if state {
            self.flags | mask
        } else {
            self.flags & !mask
        };
    }

    /// Whether `flag` is set.
    fn getflag(&self, flag: Flags) -> (r: bool)
        ensures
            r == (self@.flags & flag_mask(flag) != 0),
    {
        let mask: u8 = match flag {
            Flags::Negative => FLAG_NEGATIVE,
            Flags::Overflow => FLAG_OVERFLOW,
            Flags::Break => FLAG_BREAK,
            Flags::Decimal => FLAG_DECIMAL,
            Flags::Interrupt => FLAG_INTERRUPT,
            Flags::Zeroflag => FLAG_ZERO,
            Flags::Carry => FLAG_CARRY,
        };
        self.flags & mask != 0
    }

    /// Sets zero and negative from `v`.
    fn set_nz(&mut self, v: u8)
        ensures
            final(self)@ == (CpuView { flags: with_nz(old(self)@.flags, v), ..old(self)@ }),
    {
        self.setflag(Flags::Zeroflag, v == 0);
        self.setflag(Flags::Negative, (v & 0x80) != 0);
    }

    /// The byte at `address`.
    fn read(&self, bus: &Bus, address: u16) -> (r: u8)
        requires
            bus.wf(),
        ensures
            r == rd(bus@, address),
    {
        match bus.cpu_read(address) {
            Some(v) => v,
            None => 0,
        }
    }

    /// Stores `byte` at `address`.
    fn write(&self, bus: &mut Bus, address: u16, byte: u8)
        requires
            old(bus).wf(),
        ensures
            final(bus)@ == wr(old(bus)@, address, byte),
            final(bus).wf(),
    {
        bus.cpu_write(address, byte);
    }

    /// The byte at PC, moving PC past it.
    fn fetch(&mut self, bus: &Bus) -> (r: u8)
        requires
            bus.wf(),
        ensures
            r == rd(bus@, old(self)@.pc),
            final(self)@ == (CpuView { pc: old(self)@.pc.wrapping_add(1), ..old(self)@ }),
    {
        let byte = self.read(bus, self.pc);
        self.pc = self.pc.wrapping_add(1);
        byte
    }

    pub fn immediate_addressing(&mut self, bus: &Bus)
        requires
            bus.wf(),
        ensures
            final(self)@ == mode_step(AddressModes::Immediate, old(self)@, bus@),
    {
        self.immval = self.fetch(bus);
        self.extra_cycles = 0;
    }

    pub fn zeropage_addressing(&mut self, bus: &Bus)
        requires
            bus.wf(),
        ensures
            final(self)@ == mode_step(AddressModes::Zeropage, old(self)@, bus@),
    {
        self.abs_addr = self.fetch(bus) as u16;
        self.immval = self.read(bus, self.abs_addr);
        self.extra_cycles = 0;
    }

    pub fn zeropagex_addressing(&mut self, bus: &Bus)
        requires
            bus.wf(),
        ensures
            final(self)@ == mode_step(AddressModes::ZeropageX, old(self)@, bus@),
    {
        self.abs_addr = self.fetch(bus) as u16;
        self.abs_addr = self.abs_addr.wrapping_add(self.x as u16);
        proof {
            lemma_word_masks(self.abs_addr);
        }
        self.abs_addr = self.abs_addr & 0x00FF;
        self.immval = self.read(bus, self.abs_addr);
        self.extra_cycles = 0;
    }

    pub fn zeropagey_addressing(&mut self, bus: &Bus)
        requires
            bus.wf(),
        ensures
            final(self)@ == mode_step(AddressModes::ZeropageY, old(self)@, bus@),
    {
        self.abs_addr = self.fetch(bus) as u16;
        self.abs_addr = self.abs_addr.wrapping_add(self.y as u16);
        proof {
            lemma_word_masks(self.abs_addr);
        }
        self.abs_addr = self.abs_addr & 0x00FF;
        self.immval = self.read(bus, self.abs_addr);
        self.extra_cycles = 0;
    }

    pub fn relative_addressing(&mut self, bus: &Bus)
        requires
            bus.wf(),
        ensures
            final(self)@ == mode_step(AddressModes::Relative, old(self)@, bus@),
    {
        self.relval = self.fetch(bus) as u16;
        proof {
            lemma_sign_extend(self.relval);
        }
        if self.relval & 0x0080 != 0 {
            self.relval = self.relval | 0xFF00;
        }
        self.extra_cycles = 0;
    }

    pub fn absolute_addressing(&mut self, bus: &Bus)
        requires
            bus.wf(),
        ensures
            final(self)@ == mode_step(AddressModes::Absolute, old(self)@, bus@),
    {
        let lo = self.fetch(bus) as u16;
        let hi = self.fetch(bus) as u16;
        proof {
            lemma_word(lo, hi);
        }
        self.abs_addr = (hi << 8) | lo;
        self.extra_cycles = 0;
    }

    pub fn absolutex_addressing(&mut self, bus: &Bus)
        requires
            bus.wf(),
        ensures
            final(self)@ == mode_step(AddressModes::AbsoluteX, old(self)@, bus@),
    {
        let lo = self.fetch(bus) as u16;
        let hi = self.fetch(bus) as u16;
        proof {
            lemma_word(lo, hi);
            lemma_word(0, hi);
        }
        self.abs_addr = (hi << 8) | lo;
        if (self.abs_addr & 0xFF00) != (hi << 8) {
            self.extra_cycles = 1;
        } else {
            self.extra_cycles = 0;
        }
    }

    pub fn absolutey_addressing(&mut self, bus: &Bus)
        requires
            bus.wf(),
        ensures
            final(self)@ == mode_step(AddressModes::AbsoluteY, old(self)@, bus@),
    {
        let lo = self.fetch(bus) as u16;
        let hi = self.fetch(bus) as u16;
        proof {
            lemma_word(lo, hi);
            lemma_word(0, hi);
        }
        self.abs_addr = (hi << 8) | lo;
        self.abs_addr = self.abs_addr.wrapping_add(self.y as u16);
        proof {
            lemma_low_byte(self.abs_addr);
        }
        if (self.abs_addr & 0xFF00) != (hi << 8) {
            self.extra_cycles = 1;
        } else {
            self.extra_cycles = 0;
        }
    }

    pub fn indirect_addressing(&mut self, bus: &Bus)
        requires
            bus.wf(),
        ensures
            final(self)@ == mode_step(AddressModes::Indirect, old(self)@, bus@),
    {
        let lo = self.fetch(bus) as u16;
        let hi = self.fetch(bus) as u16;
        proof {
            lemma_word(lo, hi);
            lemma_word(0, hi);
        }
        let ptr = (hi << 8) | lo;
        if lo == 0x00FF {
            let page = self.read(bus, ptr & 0xFF00) as u16;
            let low = self.read(bus, ptr) as u16;
            proof {
                lemma_word(low, page);
            }
            self.abs_addr = (page << 8) | low;
        } else {
            let page = self.read(bus, ptr + 1) as u16;
            let low = self.read(bus, ptr) as u16;
            proof {
                lemma_word(low, page);
            }
            self.abs_addr = (page << 8) | low;
        }
    }

    pub fn indexedindirect_addressing(&mut self, bus: &Bus)
        requires
            bus.wf(),
        ensures
            final(self)@ == mode_step(AddressModes::IndexedIndirect, old(self)@, bus@),
    {
        let temp = self.fetch(bus) as u16;
        let lo = self.read(bus, temp.wrapping_add(self.x as u16)) as u16;
        let hi = self.read(bus, temp.wrapping_add(self.x as u16).wrapping_add(1)) as u16;
        proof {
            lemma_word(lo, hi);
        }
        self.abs_addr = (hi << 8) | lo;
    }

    pub fn indirect_indexed(&mut self, bus: &Bus)
        requires
            bus.wf(),
        ensures
            final(self)@ == mode_step(AddressModes::IndirectIndexed, old(self)@, bus@),
    {
        let temp = self.fetch(bus) as u16;
        let next = temp.wrapping_add(1);
        proof {
            lemma_low_byte(temp);
            lemma_low_byte(next);
        }
        let lo = self.read(bus, temp & 0x00FF) as u16;
        let hi = self.read(bus, next & 0x00FF) as u16;
        proof {
            lemma_word(lo, hi);
        }
        let base = (hi << 8) | lo;
        let addr = base.wrapping_add(self.y as u16);
        proof {
            lemma_low_byte(addr);
        }
        self.abs_addr = addr;
        if (addr & 0xFF00) != (hi << 8) {
            self.extra_cycles = 1;
        } else {
            self.extra_cycles = 0;
        }
    }

    pub fn implied_addressing(&mut self)
        ensures
            final(self)@ == old(self)@,
    {
    }

    pub fn accumulator_addressing(&mut self)
        ensures
            final(self)@ == old(self)@,
    {
    }

    /// Fetches the operands of addressing mode `addrmode`.
    fn handle_addr_mode(&mut self, bus: &Bus, addrmode: AddressModes)
        requires
            bus.wf(),
        ensures
            final(self)@ == mode_step(addrmode, old(self)@, bus@),
    {
        match addrmode {
            AddressModes::Implicit => self.implied_addressing(),
            AddressModes::Accumulator => self.accumulator_addressing(),
            AddressModes::Immediate => self.immediate_addressing(bus),
            AddressModes::Zeropage => self.zeropage_addressing(bus),
            AddressModes::ZeropageX => self.zeropagex_addressing(bus),
            AddressModes::ZeropageY => self.zeropagey_addressing(bus),
            AddressModes::Relative => self.relative_addressing(bus),
            AddressModes::Absolute => self.absolute_addressing(bus),
            AddressModes::AbsoluteX => self.absolutex_addressing(bus),
            AddressModes::AbsoluteY => self.absolutey_addressing(bus),
            AddressModes::Indirect => self.indirect_addressing(bus),
            AddressModes::IndexedIndirect => self.indexedindirect_addressing(bus),
            AddressModes::IndirectIndexed => self.indirect_indexed(bus),
        }
    }
}

impl Cpu {
    /// A conditional branch: when `taken`, the extra cycles and the
    /// target address are computed.
    fn branch(&mut self, taken: bool)
        requires
            old(self)@.extra_cycles <= 100,
        ensures
            final(self)@ == branch_step(old(self)@, taken),
    {
        if taken {
            self.extra_cycles = self.extra_cycles.wrapping_add(1);
            self.abs_addr = self.pc.wrapping_add(self.relval);
            proof {
                lemma_low_byte(self.abs_addr);
                lemma_low_byte(self.pc);
            }
            if (self.abs_addr & 0xFF00) != (self.pc & 0xFF00) {
                self.extra_cycles += self.extra_cycles.wrapping_add(2);
            }
        }
    }

    pub fn lda(&mut self, bus: &mut Bus)
        requires
            old(bus).wf(),
        ensures
            (final(self)@, final(bus)@) == op_step(Instruction::LDA, old(self)@, old(bus)@),
            final(bus).wf(),
    {
        self.a = self.immval;
        self.set_nz(self.a);
    }

    pub fn ldx(&mut self, bus: &mut Bus)
        requires
            old(bus).wf(),
        ensures
            (final(self)@, final(bus)@) == op_step(Instruction::LDX, old(self)@, old(bus)@),
            final(bus).wf(),
    {
        self.x = self.immval;
        self.set_nz(self.x);
    }

    pub fn ldy(&mut self, bus: &mut Bus)
        requires
            old(bus).wf(),
        ensures
            (final(self)@, final(bus)@) == op_step(Instruction::LDY, old(self)@, old(bus)@),
            final(bus).wf(),
    {
        self.y = self.immval;
        self.set_nz(self.y);
    }

    pub fn sta(&mut self, bus: &mut Bus)
        requires
            old(bus).wf(),
        ensures
            (final(self)@, final(bus)@) == op_step(Instruction::STA, old(self)@, old(bus)@),
            final(bus).wf(),
    {
        self.write(bus, self.abs_addr, self.a);
    }

    pub fn stx(&mut self, bus: &mut Bus)
        requires
            old(bus).wf(),
        ensures
            (final(self)@, final(bus)@) == op_step(Instruction::STX, old(self)@, old(bus)@),
            final(bus).wf(),
    {
        self.write(bus, self.abs_addr, self.x);
    }

    pub fn sty(&mut self, bus: &mut Bus)
        requires
            old(bus).wf(),
        ensures
            (final(self)@, final(bus)@) == op_step(Instruction::STY, old(self)@, old(bus)@),
            final(bus).wf(),
    {
        self.write(bus, self.abs_addr, self.y);
    }

    pub fn tax(&mut self, bus: &mut Bus)
        requires
            old(bus).wf(),
        ensures
            (final(self)@, final(bus)@) == op_step(Instruction::TAX, old(self)@, old(bus)@),
            final(bus).wf(),
    {
        self.x = self.a;
        self.set_nz(self.x);
    }

    pub fn tay(&mut self, bus: &mut Bus)
        requires
            old(bus).wf(),
        ensures
            (final(self)@, final(bus)@) == op_step(Instruction::TAY, old(self)@, old(bus)@),
            final(bus).wf(),
    {
        self.y = self.a;
        self.set_nz(self.y);
    }

    pub fn txa(&mut self, bus: &mut Bus)
        requires
            old(bus).wf(),
        ensures
            (final(self)@, final(bus)@) == op_step(Instruction::TXA, old(self)@, old(bus)@),
            final(bus).wf(),
    {
        self.a = self.x;
        self.set_nz(self.a);
    }

    pub fn tya(&mut self, bus: &mut Bus)
        requires
            old(bus).wf(),
        ensures
            (final(self)@, final(bus)@) == op_step(Instruction::TYA, old(self)@, old(bus)@),
            final(bus).wf(),
    {
        self.a = self.y;
        self.set_nz(self.a);
    }

    pub fn tsx(&mut self, bus: &mut Bus)
        requires
            old(bus).wf(),
        ensures
            (final(self)@, final(bus)@) == op_step(Instruction::TSX, old(self)@, old(bus)@),
            final(bus).wf(),
    {
        self.x = self.sp;
        self.set_nz(self.x);
    }

    pub fn txs(&mut self, bus: &mut Bus)
        requires
            old(bus).wf(),
        ensures
            (final(self)@, final(bus)@) == op_step(Instruction::TXS, old(self)@, old(bus)@),
            final(bus).wf(),
    {
        self.sp = self.x;
    }

    pub fn pha(&mut self, bus: &mut Bus)
        requires
            old(bus).wf(),
        ensures
            (final(self)@, final(bus)@) == op_step(Instruction::PHA, old(self)@, old(bus)@),
            final(bus).wf(),
    {
        self.write(bus, (0x0100 as u16).wrapping_add(self.sp as u16), self.a);
        self.sp = self.sp.wrapping_sub(1);
    }

    pub fn php(&mut self, bus: &mut Bus)
        requires
            old(bus).wf(),
        ensures
            (final(self)@, final(bus)@) == op_step(Instruction::PHP, old(self)@, old(bus)@),
            final(bus).wf(),
    {
        self.write(bus, (0x0100 as u16).wrapping_add(self.sp as u16), self.flags);
        self.sp = self.sp.wrapping_sub(1);
    }

    pub fn pla(&mut self, bus: &mut Bus)
        requires
            old(bus).wf(),
        ensures
            (final(self)@, final(bus)@) == op_step(Instruction::PLA, old(self)@, old(bus)@),
            final(bus).wf(),
    {
        self.sp = self.sp.wrapping_add(1);
        self.a = self.read(bus, (0x0100 as u16).wrapping_add(self.sp as u16));
        self.set_nz(self.a);
    }

    pub fn plp(&mut self, bus: &mut Bus)
        requires
            old(bus).wf(),
        ensures
            (final(self)@, final(bus)@) == op_step(Instruction::PLP, old(self)@, old(bus)@),
            final(bus).wf(),
    {
        self.sp = self.sp.wrapping_add(1);
        self.flags = self.read(bus, (0x0100 as u16).wrapping_add(self.sp as u16));
    }

    pub fn and(&mut self, bus: &mut Bus)
        requires
            old(bus).wf(),
        ensures
            (final(self)@, final(bus)@) == op_step(Instruction::AND, old(self)@, old(bus)@),
            final(bus).wf(),
    {
        self.a = self.a & self.immval;
        self.set_nz(self.a);
    }

    pub fn eor(&mut self, bus: &mut Bus)
        requires
            old(bus).wf(),
        ensures
            (final(self)@, final(bus)@) == op_step(Instruction::EOR, old(self)@, old(bus)@),
            final(bus).wf(),
    {
        self.a = self.a ^ self.immval;
        self.set_nz(self.a);
    }

    pub fn ora(&mut self, bus: &mut Bus)
        requires
            old(bus).wf(),
        ensures
            (final(self)@, final(bus)@) == op_step(Instruction::ORA, old(self)@, old(bus)@),
            final(bus).wf(),
    {
        self.a = self.a | self.immval;
        self.set_nz(self.a);
    }

    pub fn bit(&mut self, bus: &mut Bus)
        requires
            old(bus).wf(),
        ensures
            (final(self)@, final(bus)@) == op_step(Instruction::BIT, old(self)@, old(bus)@),
            final(bus).wf(),
    {
        let temp = self.a & self.immval;
        self.setflag(Flags::Negative, (temp & 0x80) != 0);
        self.setflag(Flags::Overflow, (temp & 0x40) != 0);
        self.setflag(Flags::Zeroflag, temp == 0);
    }

    pub fn adc(&mut self, bus: &mut Bus)
        requires
            old(bus).wf(),
        ensures
            (final(self)@, final(bus)@) == op_step(Instruction::ADC, old(self)@, old(bus)@),
            final(bus).wf(),
    {
        let carry: u16 = if self.flags & 0x1 != 0 {
            1
        } else {
            0
        };
        let temp: u16 = (self.a as u16).wrapping_add(self.immval as u16).wrapping_add(carry);
        self.setflag(Flags::Carry, temp > 255);
        self.setflag(Flags::Zeroflag, temp == 0);
        self.setflag(Flags::Overflow, !((self.a as u16) ^ (self.immval as u16)) & ((self.a as u16) ^ temp) & 0x0080 != 0);
        self.setflag(Flags::Negative, temp & 0x80 != 0);
        self.a = (temp & 0xFF) as u8;
    }

    pub fn sbc(&mut self, bus: &mut Bus)
        requires
            old(bus).wf(),
        ensures
            (final(self)@, final(bus)@) == op_step(Instruction::SBC, old(self)@, old(bus)@),
            final(bus).wf(),
    {
        let value: u16 = (!self.immval) as u16;
        let carry: u16 = if self.flags & 0x1 != 0 {
            1
        } else {
            0
        };
        let temp = (self.a as u16).wrapping_sub(self.immval as u16).wrapping_sub(1 - carry);
        self.setflag(Flags::Carry, temp > 255);
        self.setflag(Flags::Zeroflag, temp == 0);
        self.setflag(Flags::Overflow, ((temp ^ (self.a as u16)) & (temp ^ value) & 0x0080) != 0);
        self.setflag(Flags::Negative, (temp & 0x0080) != 0);
        self.a = (temp & 0x00FF) as u8;
    }

    pub fn cmp(&mut self, bus: &mut Bus)
        requires
            old(bus).wf(),
        ensures
            (final(self)@, final(bus)@) == op_step(Instruction::CMP, old(self)@, old(bus)@),
            final(bus).wf(),
    {
        let temp = self.a.wrapping_sub(self.immval);
        self.setflag(Flags::Zeroflag, temp == 0);
        self.setflag(Flags::Carry, self.a >= self.immval);
        self.setflag(Flags::Negative, (temp & 0x80) != 0);
    }

    pub fn cpx(&mut self, bus: &mut Bus)
        requires
            old(bus).wf(),
        ensures
            (final(self)@, final(bus)@) == op_step(Instruction::CPX, old(self)@, old(bus)@),
            final(bus).wf(),
    {
        let temp = self.x.wrapping_sub(self.immval);
        self.setflag(Flags::Zeroflag, temp == 0);
        self.setflag(Flags::Carry, self.x >= self.immval);
        self.setflag(Flags::Negative, (temp & 0x80) != 0);
    }

    pub fn cpy(&mut self, bus: &mut Bus)
        requires
            old(bus).wf(),
        ensures
            (final(self)@, final(bus)@) == op_step(Instruction::CPY, old(self)@, old(bus)@),
            final(bus).wf(),
    {
        let temp = self.y.wrapping_sub(self.immval);
        self.setflag(Flags::Zeroflag, temp == 0);
        self.setflag(Flags::Carry, self.y >= self.immval);
        self.setflag(Flags::Negative, (temp & 0x80) != 0);
    }

    pub fn inc(&mut self, bus: &mut Bus)
        requires
            old(bus).wf(),
        ensures
            (final(self)@, final(bus)@) == op_step(Instruction::INC, old(self)@, old(bus)@),
            final(bus).wf(),
    {
        let byte = self.immval.wrapping_add(1);
        self.write(bus, self.abs_addr, byte);
        self.set_nz(byte);
    }

    pub fn dec(&mut self, bus: &mut Bus)
        requires
            old(bus).wf(),
        ensures
            (final(self)@, final(bus)@) == op_step(Instruction::DEC, old(self)@, old(bus)@),
            final(bus).wf(),
    {
        let byte = self.immval.wrapping_sub(1);
        self.write(bus, self.abs_addr, byte);
        self.set_nz(byte);
    }

    pub fn inx(&mut self, bus: &mut Bus)
        requires
            old(bus).wf(),
        ensures
            (final(self)@, final(bus)@) == op_step(Instruction::INX, old(self)@, old(bus)@),
            final(bus).wf(),
    {
        self.x = self.x.wrapping_add(1);
        self.set_nz(self.x);
    }

    pub fn iny(&mut self, bus: &mut Bus)
        requires
            old(bus).wf(),
        ensures
            (final(self)@, final(bus)@) == op_step(Instruction::INY, old(self)@, old(bus)@),
            final(bus).wf(),
    {
        self.y = self.x.wrapping_add(1);
        self.set_nz(self.y);
    }

    pub fn dex(&mut self, bus: &mut Bus)
        requires
            old(bus).wf(),
        ensures
            (final(self)@, final(bus)@) == op_step(Instruction::DEX, old(self)@, old(bus)@),
            final(bus).wf(),
    {
        self.x = self.x.wrapping_sub(1);
        self.set_nz(self.x);
    }

    pub fn dey(&mut self, bus: &mut Bus)
        requires
            old(bus).wf(),
        ensures
            (final(self)@, final(bus)@) == op_step(Instruction::DEY, old(self)@, old(bus)@),
            final(bus).wf(),
    {
        self.y = self.y.wrapping_sub(1);
        self.set_nz(self.y);
    }

    pub fn asl(&mut self, bus: &mut Bus)
        requires
            old(bus).wf(),
        ensures
            (final(self)@, final(bus)@) == op_step(Instruction::ASL, old(self)@, old(bus)@),
            final(bus).wf(),
    {
        if self.current_opcode == 0x0A {
            self.setflag(Flags::Carry, (self.a & 0x80) != 0);
            self.a = self.a << 1u8;
            self.set_nz(self.a);
        } else {
            self.setflag(Flags::Carry, (self.immval & 0x80) != 0);
            self.immval = self.immval << 1u8;
            self.set_nz(self.immval);
            self.write(bus, self.abs_addr, self.immval);
        }
    }

    pub fn lsr(&mut self, bus: &mut Bus)
        requires
            old(bus).wf(),
        ensures
            (final(self)@, final(bus)@) == op_step(Instruction::LSR, old(self)@, old(bus)@),
            final(bus).wf(),
    {
        if self.current_opcode == 0x4A {
            self.setflag(Flags::Carry, (self.a & 0x01) != 0);
            self.a = self.a >> 1u8;
            self.set_nz(self.a);
        } else {
            self.setflag(Flags::Carry, (self.immval & 0x01) != 0);
            self.immval = self.immval >> 1u8;
            self.set_nz(self.immval);
            self.write(bus, self.abs_addr, self.immval);
        }
    }

    pub fn rol(&mut self, bus: &mut Bus)
        requires
            old(bus).wf(),
        ensures
            (final(self)@, final(bus)@) == op_step(Instruction::ROL, old(self)@, old(bus)@),
            final(bus).wf(),
    {
        let carry: u8 = if (self.flags & 0x1) != 0 {
            1
        } else {
            0
        };
        if self.current_opcode == 0x2A {
            self.setflag(Flags::Carry, (self.a & 0x80) != 0);
            self.a = (self.a << 1u8) | carry;
            self.set_nz(self.a);
        } else {
            self.setflag(Flags::Carry, (self.immval & 0x80) != 0);
            self.immval = (self.immval << 1u8) | carry;
            self.write(bus, self.abs_addr, self.immval);
            self.set_nz(self.immval);
        }
    }

    pub fn ror(&mut self, bus: &mut Bus)
        requires
            old(bus).wf(),
        ensures
            (final(self)@, final(bus)@) == op_step(Instruction::ROR, old(self)@, old(bus)@),
            final(bus).wf(),
    {
        let carry: u8 = if (self.flags & 0x1) != 0 {
            0x80
        } else {
            0x00
        };
        if self.current_opcode == 0x6A {
            self.setflag(Flags::Carry, (self.a & 0x01) != 0);
            self.a = (self.a >> 1u8) | carry;
            self.set_nz(self.a);
        } else {
            self.setflag(Flags::Carry, (self.immval & 0x80) != 0);
            self.immval = (self.immval >> 1u8) | carry;
            self.write(bus, self.abs_addr, self.immval);
            self.set_nz(self.immval);
        }
    }

    pub fn jmp(&mut self, bus: &mut Bus)
        requires
            old(bus).wf(),
        ensures
            (final(self)@, final(bus)@) == op_step(Instruction::JMP, old(self)@, old(bus)@),
            final(bus).wf(),
    {
        self.pc = self.abs_addr;
    }

    pub fn jsr(&mut self, bus: &mut Bus)
        requires
            old(bus).wf(),
        ensures
            (final(self)@, final(bus)@) == op_step(Instruction::JSR, old(self)@, old(bus)@),
            final(bus).wf(),
    {
        self.pc = self.pc.wrapping_sub(1);
        proof {
            lemma_low_byte(self.pc);
        }
        self.write(bus, 0x0100 + (self.sp as u16), ((self.pc >> 8) & 0xFF) as u8);
        self.sp = self.sp.wrapping_sub(1);
        self.write(bus, 0x0100 + (self.sp as u16), (self.pc & 0xFF) as u8);
        self.pc = self.abs_addr;
    }

    pub fn rts(&mut self, bus: &mut Bus)
        requires
            old(bus).wf(),
        ensures
            (final(self)@, final(bus)@) == op_step(Instruction::RTS, old(self)@, old(bus)@),
            final(bus).wf(),
    {
        self.sp = self.sp.wrapping_add(1);
        self.pc = self.read(bus, 0x0100 + (self.sp as u16)) as u16;
        self.sp = self.sp.wrapping_add(1);
        self.pc = self.pc | self.read(bus, 0x0100 + (self.sp as u16)) as u16;
        self.pc = self.pc.wrapping_add(1);
    }

    pub fn bcc(&mut self, bus: &mut Bus)
        requires
            old(bus).wf(),
            old(self)@.extra_cycles <= 100,
        ensures
            (final(self)@, final(bus)@) == op_step(Instruction::BCC, old(self)@, old(bus)@),
            final(bus).wf(),
    {
        let taken = !self.getflag(Flags::Carry);
        self.branch(taken);
    }

    pub fn bcs(&mut self, bus: &mut Bus)
        requires
            old(bus).wf(),
            old(self)@.extra_cycles <= 100,
        ensures
            (final(self)@, final(bus)@) == op_step(Instruction::BCS, old(self)@, old(bus)@),
            final(bus).wf(),
    {
        let taken = self.getflag(Flags::Carry);
        self.branch(taken);
    }

    pub fn beq(&mut self, bus: &mut Bus)
        requires
            old(bus).wf(),
            old(self)@.extra_cycles <= 100,
        ensures
            (final(self)@, final(bus)@) == op_step(Instruction::BEQ, old(self)@, old(bus)@),
            final(bus).wf(),
    {
        let taken = self.getflag(Flags::Zeroflag);
        self.branch(taken);
    }

    pub fn bmi(&mut self, bus: &mut Bus)
        requires
            old(bus).wf(),
            old(self)@.extra_cycles <= 100,
        ensures
            (final(self)@, final(bus)@) == op_step(Instruction::BMI, old(self)@, old(bus)@),
            final(bus).wf(),
    {
        let taken = self.getflag(Flags::Negative);
        self.branch(taken);
    }

    pub fn bne(&mut self, bus: &mut Bus)
        requires
            old(bus).wf(),
            old(self)@.extra_cycles <= 100,
        ensures
            (final(self)@, final(bus)@) == op_step(Instruction::BNE, old(self)@, old(bus)@),
            final(bus).wf(),
    {
        let taken = !self.getflag(Flags::Zeroflag);
        self.branch(taken);
    }

    pub fn bpl(&mut self, bus: &mut Bus)
        requires
            old(bus).wf(),
            old(self)@.extra_cycles <= 100,
        ensures
            (final(self)@, final(bus)@) == op_step(Instruction::BPL, old(self)@, old(bus)@),
            final(bus).wf(),
    {
        let taken = !self.getflag(Flags::Negative);
        self.branch(taken);
    }

    pub fn bvc(&mut self, bus: &mut Bus)
        requires
            old(bus).wf(),
            old(self)@.extra_cycles <= 100,
        ensures
            (final(self)@, final(bus)@) == op_step(Instruction::BVC, old(self)@, old(bus)@),
            final(bus).wf(),
    {
        let taken = !self.getflag(Flags::Overflow);
        self.branch(taken);
    }

    pub fn bvs(&mut self, bus: &mut Bus)
        requires
            old(bus).wf(),
            old(self)@.extra_cycles <= 100,
        ensures
            (final(self)@, final(bus)@) == op_step(Instruction::BVS, old(self)@, old(bus)@),
            final(bus).wf(),
    {
        let taken = self.getflag(Flags::Overflow);
        self.branch(taken);
    }

    pub fn clc(&mut self, bus: &mut Bus)
        requires
            old(bus).wf(),
        ensures
            (final(self)@, final(bus)@) == op_step(Instruction::CLC, old(self)@, old(bus)@),
            final(bus).wf(),
    {
        self.setflag(Flags::Carry, false);
    }

    pub fn cld(&mut self, bus: &mut Bus)
        requires
            old(bus).wf(),
        ensures
            (final(self)@, final(bus)@) == op_step(Instruction::CLD, old(self)@, old(bus)@),
            final(bus).wf(),
    {
        self.setflag(Flags::Decimal, false);
    }

    pub fn cli(&mut self, bus: &mut Bus)
        requires
            old(bus).wf(),
        ensures
            (final(self)@, final(bus)@) == op_step(Instruction::CLI, old(self)@, old(bus)@),
            final(bus).wf(),
    {
        self.setflag(Flags::Interrupt, false);
    }

    pub fn clv(&mut self, bus: &mut Bus)
        requires
            old(bus).wf(),
        ensures
            (final(self)@, final(bus)@) == op_step(Instruction::CLV, old(self)@, old(bus)@),
            final(bus).wf(),
    {
        self.setflag(Flags::Overflow, false);
    }

    pub fn sec(&mut self, bus: &mut Bus)
        requires
            old(bus).wf(),
        ensures
            (final(self)@, final(bus)@) == op_step(Instruction::SEC, old(self)@, old(bus)@),
            final(bus).wf(),
    {
        self.setflag(Flags::Carry, true);
    }

    pub fn sed(&mut self, bus: &mut Bus)
        requires
            old(bus).wf(),
        ensures
            (final(self)@, final(bus)@) == op_step(Instruction::SED, old(self)@, old(bus)@),
            final(bus).wf(),
    {
        self.setflag(Flags::Decimal, true);
    }

    pub fn sei(&mut self, bus: &mut Bus)
        requires
            old(bus).wf(),
        ensures
            (final(self)@, final(bus)@) == op_step(Instruction::SEI, old(self)@, old(bus)@),
            final(bus).wf(),
    {
        self.setflag(Flags::Interrupt, true);
    }

    pub fn brk(&mut self, bus: &mut Bus)
        requires
            old(bus).wf(),
        ensures
            (final(self)@, final(bus)@) == op_step(Instruction::BRK, old(self)@, old(bus)@),
            final(bus).wf(),
    {
        self.pc = self.pc.wrapping_add(1);
        proof {
            lemma_low_byte(self.pc);
        }
        self.setflag(Flags::Interrupt, true);
        self.write(bus, 0x0100 + self.sp as u16, ((self.pc >> 8) & 0xff) as u8);
        self.sp = self.sp.wrapping_sub(1);
        self.write(bus, 0x0100 + self.sp as u16, (self.pc & 0xff) as u8);
        self.sp = self.sp.wrapping_sub(1);
        self.setflag(Flags::Break, true);
        self.write(bus, 0x0100 + self.sp as u16, self.flags);
        self.sp = self.sp.wrapping_sub(1);
        self.setflag(Flags::Break, false);
        let hi = self.read(bus, 0xFFFE) as u16;
        let lo = self.read(bus, 0xFFFF) as u16;
        proof {
            lemma_word(lo, hi);
        }
        self.pc = hi.wrapping_mul(256) | lo;
    }

    pub fn nop(&mut self, bus: &mut Bus)
        requires
            old(bus).wf(),
        ensures
            (final(self)@, final(bus)@) == op_step(Instruction::NOP, old(self)@, old(bus)@),
            final(bus).wf(),
    {
    }

    pub fn rti(&mut self, bus: &mut Bus)
        requires
            old(bus).wf(),
        ensures
            (final(self)@, final(bus)@) == op_step(Instruction::RTI, old(self)@, old(bus)@),
            final(bus).wf(),
    {
        self.sp = self.sp.wrapping_add(1);
        self.flags = self.read(bus, 0x100 + self.sp as u16);
        self.sp = self.sp.wrapping_add(1);
        let lo = self.read(bus, 0x100 + self.sp as u16) as u16;
        self.sp = self.sp.wrapping_add(1);
        let hi = self.read(bus, 0x100 + self.sp as u16) as u16;
        proof {
            lemma_word(lo, hi);
        }
        self.pc = hi.wrapping_mul(256) | lo;
        self.setflag(Flags::Break, false);
    }

    pub fn sre(&mut self, bus: &mut Bus)
        requires
            old(bus).wf(),
        ensures
            (final(self)@, final(bus)@) == op_step(Instruction::SRE, old(self)@, old(bus)@),
            final(bus).wf(),
    {
        self.setflag(Flags::Carry, (self.immval & 1) != 0);
        let temp = self.immval >> 1u8;
        self.a = temp ^ self.a;
        self.setflag(Flags::Negative, (self.a & 0x80) != 0);
        self.setflag(Flags::Zeroflag, self.a == 0);
    }

    /// Does operation `instruction` on the fetched operands.
    fn handle_instruction(&mut self, bus: &mut Bus, instruction: Instruction)
        requires
            old(bus).wf(),
            is_branch(instruction) ==> old(self)@.extra_cycles <= 100,
        ensures
            (final(self)@, final(bus)@) == op_step(instruction, old(self)@, old(bus)@),
            final(bus).wf(),
    {
        match instruction {
            Instruction::LDA => self.lda(bus),
            Instruction::LDX => self.ldx(bus),
            Instruction::LDY => self.ldy(bus),
            Instruction::STA => self.sta(bus),
            Instruction::STX => self.stx(bus),
            Instruction::STY => self.sty(bus),
            Instruction::TAX => self.tax(bus),
            Instruction::TAY => self.tay(bus),
            Instruction::TYA => self.tya(bus),
            Instruction::TXA => self.txa(bus),
            Instruction::TSX => self.tsx(bus),
            Instruction::TXS => self.txs(bus),
            Instruction::PHA => self.pha(bus),
            Instruction::PHP => self.php(bus),
            Instruction::PLA => self.pla(bus),
            Instruction::PLP => self.plp(bus),
            Instruction::AND => self.and(bus),
            Instruction::EOR => self.eor(bus),
            Instruction::ORA => self.ora(bus),
            Instruction::BIT => self.bit(bus),
            Instruction::ADC => self.adc(bus),
            Instruction::SBC => self.sbc(bus),
            Instruction::CMP => self.cmp(bus),
            Instruction::CPX => self.cpx(bus),
            Instruction::CPY => self.cpy(bus),
            Instruction::INC => self.inc(bus),
            Instruction::INX => self.inx(bus),
            Instruction::INY => self.iny(bus),
            Instruction::DEC => self.dec(bus),
            Instruction::DEX => self.dex(bus),
            Instruction::DEY => self.dey(bus),
            Instruction::ASL => self.asl(bus),
            Instruction::LSR => self.lsr(bus),
            Instruction::ROL => self.rol(bus),
            Instruction::ROR => self.ror(bus),
            Instruction::JMP => self.jmp(bus),
            Instruction::JSR => self.jsr(bus),
            Instruction::RTS => self.rts(bus),
            Instruction::BCC => self.bcc(bus),
            Instruction::BCS => self.bcs(bus),
            Instruction::BEQ => self.beq(bus),
            Instruction::BMI => self.bmi(bus),
            Instruction::BNE => self.bne(bus),
            Instruction::BPL => self.bpl(bus),
            Instruction::BVC => self.bvc(bus),
            Instruction::BVS => self.bvs(bus),
            Instruction::CLC => self.clc(bus),
            Instruction::CLD => self.cld(bus),
            Instruction::CLI => self.cli(bus),
            Instruction::CLV => self.clv(bus),
            Instruction::SEC => self.sec(bus),
            Instruction::SED => self.sed(bus),
            Instruction::SEI => self.sei(bus),
            Instruction::BRK => self.brk(bus),
            Instruction::NOP => self.nop(bus),
            Instruction::RTI => self.rti(bus),
            Instruction::SRE => self.sre(bus),
        }
    }

    /// One instruction: `cycles` base cycles, the operands of `addrmode`,
    /// then the operation.
    fn execute_instruction(&mut self, bus: &mut Bus, addrmode: AddressModes, instruction: Instruction, cycles: u8)
        requires
            old(bus).wf(),
            cpu_wf(old(self)@),
            is_branch(instruction) ==> addrmode == AddressModes::Relative,
        ensures
            (final(self)@, final(bus)@) == instruction_step(addrmode, instruction, cycles, old(self)@, old(bus)@),
            final(bus).wf(),
            cpu_wf(final(self)@),
    {
        self.cycles_left = cycles;
        self.handle_addr_mode(bus, addrmode);
        self.handle_instruction(bus, instruction);
    }

    /// Decodes `opcode` through the opcode table and executes it.
    fn decode(&mut self, bus: &mut Bus, opcode: u8)
        requires
            old(bus).wf(),
            cpu_wf(old(self)@),
            opcode_entry(opcode) is Some,
        ensures
            ({
                let (mode, op, cycles) = opcode_entry(opcode)->0;
                (final(self)@, final(bus)@) == instruction_step(mode, op, cycles, old(self)@, old(bus)@)
            }),
            final(bus).wf(),
            cpu_wf(final(self)@),
    {
        match lookup(opcode) {
            Some((addrmode, instruction, cycles)) => {
                self.execute_instruction(bus, addrmode, instruction, cycles);
            },
            None => {},
        }
    }

    /// Whether the core implements `opcode`.
    pub fn implemented(opcode: u8) -> (r: bool)
        ensures
            r == (opcode_entry(opcode) is Some),
    {
        lookup(opcode).is_some()
    }

    /// One clock: with no cycles left, the opcode at PC is fetched,
    /// decoded and executed, and its page-cross cycles added to its
    /// budget; then one cycle passes.
    pub fn clock(&mut self, bus: &mut Bus)
        requires
            old(bus).wf(),
            cpu_wf(old(self)@),
            can_clock(old(self)@, old(bus)@),
        ensures
            (final(self)@, final(bus)@) == clock_step(old(self)@, old(bus)@),
            final(bus).wf(),
            cpu_wf(final(self)@),
    {
        if self.cycles_left == 0 {
            let x: u8 = self.read(bus, self.pc);
            self.pc = self.pc.wrapping_add(1);
            self.current_opcode = x;
            self.decode(bus, x);
            self.cycles_left = self.cycles_left.wrapping_add(self.extra_cycles);
        }
        self.total_cycles = self.total_cycles.wrapping_add(1);
        self.cycles_left = self.cycles_left.wrapping_sub(1);
    }

    /// Loads PC from the reset vector and clears the registers.
    pub fn reset(&mut self, bus: &Bus)
        requires
            bus.wf(),
        ensures
            final(self)@ == reset_step(old(self)@, bus@),
            cpu_wf(final(self)@),
    {
        let lo: u16 = self.read(bus, 0xFFFC) as u16;
        let hi: u16 = self.read(bus, 0xFFFD) as u16;
        proof {
            lemma_word(lo, hi);
        }
        self.pc = (hi << 8) | lo;
        self.a = 0;
        self.x = 0;
        self.y = 0;
        self.sp = 0xfd;
        self.flags = 0;
        self.flags = self.flags | 0x20;
        self.abs_addr = 0;
        self.relval = 0;
        self.cycles_left = 0;
        self.total_cycles = 0;
        self.extra_cycles = 0;
        proof {
            assert(0u8 | 0x20u8 == 0x20u8) by (bit_vector);
        }
    }

    /// A non-maskable interrupt: pushes PC and jumps through the NMI
    /// vector at $FFFA.
    pub fn nmi(&mut self, bus: &mut Bus)
        requires
            old(bus).wf(),
        ensures
            (final(self)@, final(bus)@) == nmi_step(old(self)@, old(bus)@),
            final(bus).wf(),
            cpu_wf(old(self)@) ==> cpu_wf(final(self)@),
    {
        proof {
            lemma_low_byte(self.pc);
            lemma_word_masks(self.pc);
        }
        self.write(bus, 0x100 + self.sp as u16, (self.pc >> 8) as u8);
        self.sp = self.sp.wrapping_sub(1);
        self.write(bus, 0x100 + self.sp as u16, (self.pc & 0xFF) as u8);
        self.sp = self.sp.wrapping_sub(1);
        self.setflag(Flags::Break, false);
        self.setflag(Flags::Interrupt, true);
        let lo = self.read(bus, 0xFFFA) as u16;
        let hi = self.read(bus, 0xFFFB) as u16;
        proof {
            lemma_word(lo, hi);
        }
        self.pc = (hi << 8) | lo;
        self.cycles_left = 8;
    }

    /// The accumulator.
    pub fn get_accumulator(&self) -> (r: u8)
        ensures
            r == self@.a,
    {
        self.a
    }

    /// Sets the X register.
    pub fn set_x(&mut self, byte: u8)
        ensures
            final(self)@ == (CpuView { x: byte, ..old(self)@ }),
    {
        self.x = byte;
    }

    /// The X register.
    pub fn get_x(&self) -> (r: u8)
        ensures
            r == self@.x,
    {
        self.x
    }

    /// Sets the Y register.
    pub fn set_y(&mut self, byte: u8)
        ensures
            final(self)@ == (CpuView { y: byte, ..old(self)@ }),
    {
        self.y = byte;
    }

    /// The Y register.
    pub fn get_y(&self) -> (r: u8)
        ensures
            r == self@.y,
    {
        self.y
    }

    /// The status register.
    pub fn get_flag(&self) -> (r: u8)
        ensures
            r == self@.flags,
    {
        self.flags
    }

    /// The accumulator.
    pub fn get_a(&self) -> (r: u8)
        ensures
            r == self@.a,
    {
        self.a
    }

    /// Sets the accumulator.
    pub fn set_a(&mut self, byte: u8)
        ensures
            final(self)@ == (CpuView { a: byte, ..old(self)@ }),
    {
        self.a = byte;
    }

    /// The status register.
    pub fn get_sflag(&self) -> (r: u8)
        ensures
            r == self@.flags,
    {
        self.flags
    }

    /// Sets the status register.
    pub fn set_sflag(&mut self, byte: u8)
        ensures
            final(self)@ == (CpuView { flags: byte, ..old(self)@ }),
    {
        self.flags = byte;
    }

    /// The program counter.
    pub fn get_pc(&self) -> (r: u16)
        ensures
            r == self@.pc,
    {
        self.pc
    }

    /// Sets the program counter.
    pub fn set_pc(&mut self, address: u16)
        ensures
            final(self)@ == (CpuView { pc: address, ..old(self)@ }),
    {
        self.pc = address;
    }

    /// Sets the stack pointer.
    pub fn set_sp(&mut self, byte: u8)
        ensures
            final(self)@ == (CpuView { sp: byte, ..old(self)@ }),
    {
        self.sp = byte;
    }

    /// The stack pointer.
    pub fn get_sp(&self) -> (r: u8)
        ensures
            r == self@.sp,
    {
        self.sp
    }

    /// The cycles left in the instruction under way.
    pub fn get_cycles_left(&self) -> (r: u8)
        ensures
            r == self@.cycles_left,
    {
        self.cycles_left
    }
}

} // verus!
