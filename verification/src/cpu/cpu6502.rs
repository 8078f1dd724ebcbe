//! The 6502 core that reads its operands at the effective address: the
//! addressing modes, the official instructions and the stable unofficial
//! ones. It works on the flat 64 KiB memory of the console core.
use vstd::prelude::*;
use crate::bits::{lemma_byte_masks, lemma_word_masks};
use crate::nes::bus::Bus;
use super::model::{with_flag, with_nz, rd, wr, stack, word, carry_in, FLAG_CARRY, FLAG_ZERO, FLAG_INTERRUPT,
    FLAG_UNUSED, FLAG_OVERFLOW, FLAG_NEGATIVE};

verus! {

/// The registers of the core and the operands of the instruction in
/// flight.
pub struct CoreView {
    pub flags: u8,
    pub a: u8,
    pub x: u8,
    pub y: u8,
    pub pc: u16,
    pub sp: u8,
    pub addrabs: u16,
    pub relval: u16,
    pub cycles_left: u16,
    pub total_cycles: usize,
    pub opcode: u8,
    pub oldpc: u16,
    pub irqset: bool,
}

/// The 6502 core.
pub struct Cpu {
    flags: u8,
    a: u8,
    x: u8,
    y: u8,
    pc: u16,
    sp: u8,
    addrabs: u16,
    relval: u16,
    cycles_left: u16,
    total_cycles: usize,
    opcode: u8,
    oldpc: u16,
    irqset: bool,
}

impl View for Cpu {
    type V = CoreView;

    closed spec fn view(&self) -> CoreView {
        CoreView {
            flags: self.flags,
            a: self.a,
            x: self.x,
            y: self.y,
            pc: self.pc,
            sp: self.sp,
            addrabs: self.addrabs,
            relval: self.relval,
            cycles_left: self.cycles_left,
            total_cycles: self.total_cycles,
            opcode: self.opcode,
            oldpc: self.oldpc,
            irqset: self.irqset,
        }
    }
}

/// Zero and negative set from `v`, negative written first: the same
/// status register as `with_nz`.
proof fn lemma_nz_commute(f: u8, v: u8)
    by (bit_vector)
    ensures
        with_flag(with_flag(f, FLAG_NEGATIVE, v & 0x80u8 != 0), FLAG_ZERO, v == 0) == with_nz(f, v),
{
}

/// The byte at the effective address.
pub open spec fn operand(s: CoreView, m: Seq<u8>) -> u8 {
    rd(m, s.addrabs)
}

/// The byte at PC is consumed.
pub open spec fn fetched(s: CoreView) -> CoreView {
    CoreView { pc: s.pc.wrapping_add(1), ..s }
}

/// `v` pushed: written at the stack pointer, which then moves down.
pub open spec fn pushed(s: CoreView, m: Seq<u8>, v: u8) -> (CoreView, Seq<u8>) {
    (CoreView { sp: s.sp.wrapping_sub(1), ..s }, wr(m, stack(s.sp), v))
}

/// The stack pointer moves up; the byte it then points at is pulled.
pub open spec fn popped(s: CoreView, m: Seq<u8>) -> (CoreView, u8) {
    let sp = s.sp.wrapping_add(1);
    (CoreView { sp, ..s }, rd(m, stack(sp)))
}

// Addressing modes.

/// Immediate: the operand is the byte after the opcode.
pub open spec fn immediate_step(s: CoreView) -> CoreView {
    CoreView { addrabs: s.pc, pc: s.pc.wrapping_add(1), ..s }
}

/// Zero page: a one-byte address on page zero.
pub open spec fn zeropage_step(s: CoreView, m: Seq<u8>) -> CoreView {
    CoreView { addrabs: rd(m, s.pc) as u16, ..fetched(s) }
}

/// Zero page indexed by `index`, wrapping within page zero.
pub open spec fn zeropage_indexed_step(s: CoreView, m: Seq<u8>, index: u8) -> CoreView {
    CoreView { addrabs: ((rd(m, s.pc) as int + index as int) % 256) as u16, ..fetched(s) }
}

/// Relative: the branch offset, sign-extended to 16 bits.
pub open spec fn relative_step(s: CoreView, m: Seq<u8>) -> CoreView {
    let b = rd(m, s.pc);
    CoreView { relval: if b >= 128 { (0xFF00 + b as int) as u16 } else { b as u16 }, ..fetched(s) }
}

/// Absolute, indexed by `index` (zero for plain absolute), wrapping at
/// 64 KiB.
pub open spec fn absolute_step(s: CoreView, m: Seq<u8>, index: u8) -> CoreView {
    let lo = rd(m, s.pc);
    let hi = rd(m, s.pc.wrapping_add(1));
    CoreView { addrabs: word(lo, hi).wrapping_add(index as u16), pc: s.pc.wrapping_add(1).wrapping_add(1), ..s }
}

/// Indirect: the target is read from the pointer, whose high byte comes
/// from the start of the same page when the pointer ends a page.
pub open spec fn indirect_step(s: CoreView, m: Seq<u8>) -> CoreView {
    let lo = rd(m, s.pc);
    let hi = rd(m, s.pc.wrapping_add(1));
    let ptr = word(lo, hi);
    let target = if lo == 0xFF {
        word(rd(m, ptr), rd(m, word(0, hi)))
    } else {
        word(rd(m, ptr), rd(m, (ptr + 1) as u16))
    };
    CoreView { addrabs: target, pc: s.pc.wrapping_add(1).wrapping_add(1), ..s }
}

/// Indexed indirect: the pointer on page zero at operand plus X.
pub open spec fn idx_step(s: CoreView, m: Seq<u8>) -> CoreView {
    let base = (rd(m, s.pc) as int + s.x as int) % 256;
    CoreView { addrabs: word(rd(m, base as u16), rd(m, ((base + 1) % 256) as u16)), ..fetched(s) }
}

/// Indirect indexed: the pointer on page zero, plus Y; a cycle more when
/// that crosses a page.
pub open spec fn idy_step(s: CoreView, m: Seq<u8>) -> CoreView {
    let b = rd(m, s.pc);
    let hi = rd(m, ((b as int + 1) % 256) as u16);
    let addr = word(rd(m, b as u16), hi).wrapping_add(s.y as u16);
    CoreView {
        addrabs: addr,
        cycles_left: if addr as int / 256 != hi as int { s.cycles_left.wrapping_add(1) } else { s.cycles_left },
        ..fetched(s)
    }
}

/// The byte at `address`.
fn read(bus: &Bus, address: u16) -> (r: u8)
    requires
        bus.wf(),
    ensures
        r == rd(bus@, address),
{
    match bus.cpu_read(address) {
        Some(v) => v,
        None => 0,
    }
}

/// Stores `byte` at `address`.
fn write(bus: &mut Bus, address: u16, byte: u8)
    requires
        old(bus).wf(),
    ensures
        final(bus)@ == wr(old(bus)@, address, byte),
        final(bus).wf(),
{
    bus.cpu_write(address, byte);
}

impl Cpu {
    /// A core with every register clear but the unused status bit, PC at
    /// $8000 and the stack pointer at $FD.
    pub fn new() -> (r: Self)
        ensures
            r@ == (CoreView {
                flags: FLAG_UNUSED,
                a: 0,
                x: 0,
                y: 0,
                pc: 0x8000,
                sp: 0xFD,
                addrabs: 0,
                relval: 0,
                cycles_left: 0,
                total_cycles: 0,
                opcode: 0,
                oldpc: 0,
                irqset: false,
            }),
    {
        Cpu {
            flags: FLAG_UNUSED,
            a: 0,
            x: 0,
            y: 0,
            pc: 0x8000,
            sp: 0xFD,
            addrabs: 0,
            relval: 0,
            cycles_left: 0,
            total_cycles: 0,
            opcode: 0,
            oldpc: 0,
            irqset: false,
        }
    }

    /// Sets the bits of `mask` in the status register when `on`, else
    /// clears them.
    fn set_flag(&mut self, mask: u8, on: bool)
        ensures
            final(self)@ == (CoreView { flags: with_flag(old(self)@.flags, mask, on), ..old(self)@ }),
    {
        if on {
            self.flags = self.flags | mask;
        } else {
            self.flags = self.flags & !mask;
        }
    }

    /// Sets zero and negative from `v`.
    fn set_nz(&mut self, v: u8)
        ensures
            final(self)@ == (CoreView { flags: with_nz(old(self)@.flags, v), ..old(self)@ }),
    {
        self.set_flag(FLAG_ZERO, v == 0);
        self.set_flag(FLAG_NEGATIVE, v & 0x80 != 0);
    }

    /// Whether the carry flag is set.
    fn carry(&self) -> (r: bool)
        ensures
            r == (self@.flags & FLAG_CARRY != 0),
    {
        self.flags & FLAG_CARRY != 0
    }

    /// The byte at PC; PC moves past it.
    fn fetch(&mut self, bus: &Bus) -> (r: u8)
        requires
            bus.wf(),
        ensures
            r == rd(bus@, old(self)@.pc),
            final(self)@ == fetched(old(self)@),
    {
        let result = read(bus, self.pc);
        self.pc = self.pc.wrapping_add(1);
        result
    }

    /// Pushes `v` on the stack.
    fn push(&mut self, bus: &mut Bus, v: u8)
        requires
            old(bus).wf(),
        ensures
            (final(self)@, final(bus)@) == pushed(old(self)@, old(bus)@, v),
            final(bus).wf(),
    {
        let write_addr = self.sp as u16;
        write(bus, 0x100 + write_addr, v);
        self.sp = self.sp.wrapping_sub(1);
    }

    /// Pulls a byte from the stack.
    fn pop(&mut self, bus: &Bus) -> (r: u8)
        requires
            bus.wf(),
        ensures
            (final(self)@, r) == popped(old(self)@, bus@),
    {
        self.sp = self.sp.wrapping_add(1);
        let read_addr = self.sp as u16;
        read(bus, 0x100 + read_addr)
    }

    /// Implicit: no operand.
    pub fn implicit(&mut self)
        ensures
            final(self)@ == old(self)@,
    {
    }

    /// Accumulator: the operand is A itself.
    pub fn accumulator(&mut self)
        ensures
            final(self)@ == old(self)@,
    {
    }

    /// Immediate: the effective address is the byte after the opcode.
    pub fn immediate(&mut self)
        ensures
            final(self)@ == immediate_step(old(self)@),
    {
        self.addrabs = self.pc;
        self.pc = self.pc.wrapping_add(1);
    }

    /// Zero page.
    pub fn zeropage(&mut self, bus: &Bus)
        requires
            bus.wf(),
        ensures
            final(self)@ == zeropage_step(old(self)@, bus@),
    {
        self.addrabs = self.fetch(bus) as u16;
    }

    /// Zero page indexed by X, wrapping within page zero.
    pub fn zeropagex(&mut self, bus: &Bus)
        requires
            bus.wf(),
        ensures
            final(self)@ == zeropage_indexed_step(old(self)@, bus@, old(self)@.x),
    {
        let byte = self.fetch(bus) as u16;
        let byte = byte + (self.x as u16);
        proof {
            lemma_word_masks(byte);
        }
        self.addrabs = byte & 0xFF;
    }

    /// Zero page indexed by Y, wrapping within page zero.
    pub fn zeropagey(&mut self, bus: &Bus)
        requires
            bus.wf(),
        ensures
            final(self)@ == zeropage_indexed_step(old(self)@, bus@, old(self)@.y),
    {
        let byte = self.fetch(bus) as u16;
        let byte = byte + (self.y as u16);
        proof {
            lemma_word_masks(byte);
        }
        self.addrabs = byte & 0xFF;
    }

    /// Relative: the signed branch offset.
    pub fn relative(&mut self, bus: &Bus)
        requires
            bus.wf(),
        ensures
            final(self)@ == relative_step(old(self)@, bus@),
    {
        let b = self.fetch(bus);
        let byte = b as u16;
        proof {
            lemma_byte_masks(b);
        }
        self.relval = if b & 0x80 != 0 {
            0xFF00 + byte
        } else {
            byte
        };
    }

    /// The little-endian word after the opcode.
    fn fetch_word(&mut self, bus: &Bus) -> (r: u16)
        requires
            bus.wf(),
        ensures
            r == word(rd(bus@, old(self)@.pc), rd(bus@, old(self)@.pc.wrapping_add(1))),
            final(self)@ == (CoreView { pc: old(self)@.pc.wrapping_add(1).wrapping_add(1), ..old(self)@ }),
    {
        let lobyte = self.fetch(bus) as u16;
        let hibyte = self.fetch(bus) as u16;
        hibyte * 256 + lobyte
    }

    /// Absolute.
    pub fn absolute(&mut self, bus: &Bus)
        requires
            bus.wf(),
        ensures
            final(self)@ == absolute_step(old(self)@, bus@, 0),
    {
        self.addrabs = self.fetch_word(bus);
    }

    /// Absolute indexed by X.
    pub fn absolutex(&mut self, bus: &Bus)
        requires
            bus.wf(),
        ensures
            final(self)@ == absolute_step(old(self)@, bus@, old(self)@.x),
    {
        self.addrabs = self.fetch_word(bus);
        self.addrabs = self.addrabs.wrapping_add(self.x as u16);
    }

    /// Absolute indexed by Y.
    pub fn absolutey(&mut self, bus: &Bus)
        requires
            bus.wf(),
        ensures
            final(self)@ == absolute_step(old(self)@, bus@, old(self)@.y),
    {
        self.addrabs = self.fetch_word(bus);
        self.addrabs = self.addrabs.wrapping_add(self.y as u16);
    }

    /// Indirect, with the page-wrap of a pointer that ends a page.
    pub fn indirect(&mut self, bus: &Bus)
        requires
            bus.wf(),
        ensures
            final(self)@ == indirect_step(old(self)@, bus@),
    {
        let lobyte = self.fetch(bus) as u16;
        let hibyte = self.fetch(bus) as u16;
        let address = hibyte * 256 + lobyte;
        if lobyte == 0xFF {
            let lo_byte = read(bus, address) as u16;
            let hi_byte = read(bus, hibyte * 256) as u16;
            self.addrabs = hi_byte * 256 + lo_byte;
        } else {
            let lo_byte = read(bus, address) as u16;
            let hi_byte = read(bus, address + 1) as u16;
            self.addrabs = hi_byte * 256 + lo_byte;
        }
    }

    /// Indexed indirect.
    pub fn idx(&mut self, bus: &Bus)
        requires
            bus.wf(),
        ensures
            final(self)@ == idx_step(old(self)@, bus@),
    {
        let address = self.fetch(bus) as u16;
        let address = (address + (self.x as u16)) % 256;
        let lobyte = read(bus, address) as u16;
        let address = address + 1;
        let address = address % 256;
        let hibyte = read(bus, address) as u16;
        self.addrabs = hibyte * 256 + lobyte;
    }

    /// Indirect indexed, a cycle more on a page cross.
    pub fn idy(&mut self, bus: &Bus)
        requires
            bus.wf(),
        ensures
            final(self)@ == idy_step(old(self)@, bus@),
    {
        let address = self.fetch(bus) as u16;
        let lo_byte = read(bus, address % 256) as u16;
        let hi_byte = read(bus, (address + 1) % 256) as u16;
        let address = hi_byte * 256 + lo_byte;
        let address = address.wrapping_add(self.y as u16);
        if address / 256 != hi_byte {
            self.cycles_left = self.cycles_left.wrapping_add(1);
        }
        self.addrabs = address;
    }
}

// Operations.

/// A loaded into register: zero and negative follow `v`.
pub open spec fn with_loaded(s: CoreView, v: u8) -> u8 {
    with_nz(s.flags, v)
}

/// CMP, CPX, CPY: carry when `reg` >= `v`, zero when equal, negative from
/// bit 7 of the difference.
pub open spec fn compared(flags: u8, reg: u8, v: u8) -> u8 {
    let temp = reg.wrapping_sub(v);
    with_flag(with_flag(with_flag(flags, FLAG_CARRY, reg >= v), FLAG_ZERO, temp == 0), FLAG_NEGATIVE, temp & 0x80u8
        != 0)
}

/// A + `v` + carry: the sum's low byte in A, carry when it exceeds a
/// byte, zero and negative from the low byte, overflow when A and `v`
/// agree in sign and the sum does not.
pub open spec fn added(s: CoreView, v: u8) -> CoreView {
    let a = s.a as u16;
    let m = v as u16;
    let sum = a + m + carry_in(s.flags);
    let r = (sum % 256) as u8;
    let f1 = with_flag(s.flags, FLAG_CARRY, sum > 255);
    let f2 = with_nz(f1, r);
    let f3 = with_flag(f2, FLAG_OVERFLOW, (a ^ m) & 0x80u16 == 0 && (a ^ (sum as u16)) & 0x80u16 != 0);
    CoreView { a: r, flags: f3, ..s }
}

/// A branch: when taken, a cycle more, two more again when the target is
/// on another page, and PC moves by the offset.
pub open spec fn branched(s: CoreView, taken: bool) -> CoreView {
    if taken {
        let target = s.pc.wrapping_add(s.relval);
        let c1 = s.cycles_left.wrapping_add(1);
        let c2 = if target as int / 256 != s.pc as int / 256 { c1.wrapping_add(2) } else { c1 };
        CoreView { cycles_left: c2, pc: target, ..s }
    } else {
        s
    }
}

/// A shifted left one bit, bit 7 into carry (`rotate`: carry into bit 0).
pub open spec fn shifted_left(flags: u8, v: u8, rotate: bool) -> (u8, u8) {
    let bit: u8 = if rotate && flags & FLAG_CARRY != 0 { 1 } else { 0 };
    let r = ((v as int * 2) % 256 + bit as int) as u8;
    (r, with_nz(with_flag(flags, FLAG_CARRY, v >= 128), r))
}

/// A shifted right one bit, bit 0 into carry (`rotate`: carry into bit 7).
pub open spec fn shifted_right(flags: u8, v: u8, rotate: bool) -> (u8, u8) {
    let bit: u8 = if rotate && flags & FLAG_CARRY != 0 { 0x80 } else { 0 };
    let r = (v as int / 2 + bit as int) as u8;
    (r, with_nz(with_flag(flags, FLAG_CARRY, v % 2 == 1), r))
}

/// Whether the shift or rotate works on A: the accumulator opcode of
/// its group.
pub open spec fn on_accumulator(opcode: u8, acc_opcode: u8) -> bool {
    opcode == acc_opcode
}

/// A shift or rotate on A (its accumulator opcode) or on the operand.
pub open spec fn shift_step(s: CoreView, m: Seq<u8>, acc_opcode: u8, left: bool, rotate: bool) -> (CoreView, Seq<u8>) {
    if on_accumulator(s.opcode, acc_opcode) {
        let (r, f) = if left { shifted_left(s.flags, s.a, rotate) } else { shifted_right(s.flags, s.a, rotate) };
        (CoreView { a: r, flags: f, ..s }, m)
    } else {
        let v = operand(s, m);
        let (r, f) = if left { shifted_left(s.flags, v, rotate) } else { shifted_right(s.flags, v, rotate) };
        (CoreView { flags: f, ..s }, wr(m, s.addrabs, r))
    }
}

/// JSR: PC - 1 pushed, high byte first; PC to the effective address.
pub open spec fn jsr_step(s: CoreView, m: Seq<u8>) -> (CoreView, Seq<u8>) {
    let ret = s.pc.wrapping_sub(1);
    let (s1, m1) = pushed(s, m, (ret as int / 256) as u8);
    let (s2, m2) = pushed(s1, m1, (ret as int % 256) as u8);
    (CoreView { pc: s.addrabs, ..s2 }, m2)
}

/// RTS: the low then the high byte pulled; PC to that word plus one.
pub open spec fn rts_step(s: CoreView, m: Seq<u8>) -> CoreView {
    let (s1, lo) = popped(s, m);
    let (s2, hi) = popped(s1, m);
    CoreView { pc: word(lo, hi).wrapping_add(1), ..s2 }
}

/// RTI: the status, then the low and high bytes of PC pulled.
pub open spec fn rti_step(s: CoreView, m: Seq<u8>) -> CoreView {
    let (s1, f) = popped(s, m);
    let (s2, lo) = popped(s1, m);
    let (s3, hi) = popped(s2, m);
    CoreView { flags: f, pc: word(lo, hi), ..s3 }
}

/// NMI: PC pushed high byte first, interrupts disabled, the status
/// pushed, PC from the vector at $FFFA.
pub open spec fn nmi_step(s: CoreView, m: Seq<u8>) -> (CoreView, Seq<u8>) {
    let (s1, m1) = pushed(s, m, (s.pc as int / 256) as u8);
    let (s2, m2) = pushed(s1, m1, (s.pc as int % 256) as u8);
    let f = with_flag(s.flags, FLAG_INTERRUPT, true);
    let (s3, m3) = pushed(CoreView { flags: f, ..s2 }, m2, f);
    (CoreView { pc: word(rd(m3, 0xFFFA), rd(m3, 0xFFFB)), ..s3 }, m3)
}

/// Reset: A, X, Y and the status flags cleared, PC from the vector at
/// $FFFC, eight cycles to spend and the cycle count cleared.
pub open spec fn reset_step(s: CoreView, m: Seq<u8>) -> CoreView {
    CoreView {
        a: 0,
        x: 0,
        y: 0,
        pc: word(rd(m, 0xFFFC), rd(m, 0xFFFD)),
        flags: 0,
        cycles_left: 8,
        total_cycles: 0,
        ..s
    }
}

impl Cpu {
    /// LDA: A from the operand.
    pub fn lda(&mut self, bus: &Bus)
        requires
            bus.wf(),
        ensures
            final(self)@ == (CoreView {
                a: operand(old(self)@, bus@),
                flags: with_nz(old(self)@.flags, operand(old(self)@, bus@)),
                ..old(self)@
            }),
    {
        let immval = read(bus, self.addrabs);
        self.a = immval;
        self.set_nz(self.a);
    }

    /// LDX: X from the operand.
    pub fn ldx(&mut self, bus: &Bus)
        requires
            bus.wf(),
        ensures
            final(self)@ == (CoreView {
                x: operand(old(self)@, bus@),
                flags: with_nz(old(self)@.flags, operand(old(self)@, bus@)),
                ..old(self)@
            }),
    {
        let immval = read(bus, self.addrabs);
        self.x = immval;
        self.set_nz(self.x);
    }

    /// LDY: Y from the operand.
    pub fn ldy(&mut self, bus: &Bus)
        requires
            bus.wf(),
        ensures
            final(self)@ == (CoreView {
                y: operand(old(self)@, bus@),
                flags: with_nz(old(self)@.flags, operand(old(self)@, bus@)),
                ..old(self)@
            }),
    {
        let immval = read(bus, self.addrabs);
        self.y = immval;
        self.set_nz(self.y);
    }

    /// STA: A to the effective address.
    pub fn sta(&mut self, bus: &mut Bus)
        requires
            old(bus).wf(),
        ensures
            final(self)@ == old(self)@,
            final(bus)@ == wr(old(bus)@, old(self)@.addrabs, old(self)@.a),
            final(bus).wf(),
    {
        write(bus, self.addrabs, self.a);
    }

    /// STX: X to the effective address.
    pub fn stx(&mut self, bus: &mut Bus)
        requires
            old(bus).wf(),
        ensures
            final(self)@ == old(self)@,
            final(bus)@ == wr(old(bus)@, old(self)@.addrabs, old(self)@.x),
            final(bus).wf(),
    {
        write(bus, self.addrabs, self.x);
    }

    /// STY: Y to the effective address.
    pub fn sty(&mut self, bus: &mut Bus)
        requires
            old(bus).wf(),
        ensures
            final(self)@ == old(self)@,
            final(bus)@ == wr(old(bus)@, old(self)@.addrabs, old(self)@.y),
            final(bus).wf(),
    {
        write(bus, self.addrabs, self.y);
    }

    /// TAX: X from A.
    pub fn tax(&mut self)
        ensures
            final(self)@ == (CoreView { x: old(self)@.a, flags: with_nz(old(self)@.flags, old(self)@.a), ..old(self)@ }),
    {
        self.x = self.a;
        self.set_nz(self.x);
    }

    /// TAY: Y from A.
    pub fn tay(&mut self)
        ensures
            final(self)@ == (CoreView { y: old(self)@.a, flags: with_nz(old(self)@.flags, old(self)@.a), ..old(self)@ }),
    {
        self.y = self.a;
        self.set_flag(FLAG_NEGATIVE, self.y & 0x80 != 0);
        self.set_flag(FLAG_ZERO, self.y == 0);
        proof {
            lemma_nz_commute(old(self)@.flags, self.y);
        }
    }

    /// TXA: A from X.
    pub fn txa(&mut self)
        ensures
            final(self)@ == (CoreView { a: old(self)@.x, flags: with_nz(old(self)@.flags, old(self)@.x), ..old(self)@ }),
    {
        self.a = self.x;
        self.set_nz(self.a);
    }

    /// TYA: A from Y.
    pub fn tya(&mut self)
        ensures
            final(self)@ == (CoreView { a: old(self)@.y, flags: with_nz(old(self)@.flags, old(self)@.y), ..old(self)@ }),
    {
        self.a = self.y;
        self.set_nz(self.a);
    }

    /// TSX: X from the stack pointer.
    pub fn tsx(&mut self)
        ensures
            final(self)@ == (CoreView { x: old(self)@.sp, flags: with_nz(old(self)@.flags, old(self)@.sp), ..old(self)@ }),
    {
        self.x = self.sp;
        self.set_nz(self.x);
    }

    /// TXS: the stack pointer from X; no flag changes.
    pub fn txs(&mut self)
        ensures
            final(self)@ == (CoreView { sp: old(self)@.x, ..old(self)@ }),
    {
        self.sp = self.x;
    }

    /// PHA: A pushed.
    pub fn pha(&mut self, bus: &mut Bus)
        requires
            old(bus).wf(),
        ensures
            (final(self)@, final(bus)@) == pushed(old(self)@, old(bus)@, old(self)@.a),
            final(bus).wf(),
    {
        let a = self.a;
        self.push(bus, a);
    }

    /// PHP: the status register pushed.
    pub fn php(&mut self, bus: &mut Bus)
        requires
            old(bus).wf(),
        ensures
            (final(self)@, final(bus)@) == pushed(old(self)@, old(bus)@, old(self)@.flags),
            final(bus).wf(),
    {
        let f = self.flags;
        self.push(bus, f);
    }

    /// PLA: A pulled.
    pub fn pla(&mut self, bus: &Bus)
        requires
            bus.wf(),
        ensures
            final(self)@ == (CoreView {
                a: popped(old(self)@, bus@).1,
                flags: with_nz(old(self)@.flags, popped(old(self)@, bus@).1),
                ..popped(old(self)@, bus@).0
            }),
    {
        self.a = self.pop(bus);
        self.set_flag(FLAG_NEGATIVE, self.a & 0x80 != 0);
        self.set_flag(FLAG_ZERO, self.a == 0);
        proof {
            lemma_nz_commute(old(self)@.flags, self.a);
        }
    }

    /// PLP: the status register pulled, with the unused bit set.
    pub fn plp(&mut self, bus: &Bus)
        requires
            bus.wf(),
        ensures
            final(self)@ == (CoreView {
                flags: with_flag(popped(old(self)@, bus@).1, FLAG_UNUSED, true),
                ..popped(old(self)@, bus@).0
            }),
    {
        self.flags = self.pop(bus);
        self.set_flag(FLAG_UNUSED, true);
    }

    /// AND: A & operand.
    pub fn and(&mut self, bus: &Bus)
        requires
            bus.wf(),
        ensures
            final(self)@ == (CoreView {
                a: old(self)@.a & operand(old(self)@, bus@),
                flags: with_nz(old(self)@.flags, old(self)@.a & operand(old(self)@, bus@)),
                ..old(self)@
            }),
    {
        let immvar = read(bus, self.addrabs);
        self.a = self.a & immvar;
        self.set_nz(self.a);
    }

    /// EOR: A ^ operand.
    pub fn eor(&mut self, bus: &Bus)
        requires
            bus.wf(),
        ensures
            final(self)@ == (CoreView {
                a: old(self)@.a ^ operand(old(self)@, bus@),
                flags: with_nz(old(self)@.flags, old(self)@.a ^ operand(old(self)@, bus@)),
                ..old(self)@
            }),
    {
        let immvar = read(bus, self.addrabs);
        self.a = self.a ^ immvar;
        self.set_nz(self.a);
    }

    /// ORA: A | operand.
    pub fn ora(&mut self, bus: &Bus)
        requires
            bus.wf(),
        ensures
            final(self)@ == (CoreView {
                a: old(self)@.a | operand(old(self)@, bus@),
                flags: with_nz(old(self)@.flags, old(self)@.a | operand(old(self)@, bus@)),
                ..old(self)@
            }),
    {
        let immvar = read(bus, self.addrabs);
        self.a = self.a | immvar;
        self.set_nz(self.a);
    }

    /// BIT: zero from A & operand, negative and overflow from bits 7 and 6
    /// of the operand.
    pub fn bit(&mut self, bus: &Bus)
        requires
            bus.wf(),
        ensures
            final(self)@ == (CoreView {
                flags: with_flag(
                    with_flag(
                        with_flag(old(self)@.flags, FLAG_ZERO, old(self)@.a & operand(old(self)@, bus@) == 0),
                        FLAG_NEGATIVE,
                        operand(old(self)@, bus@) & 0x80u8 != 0,
                    ),
                    FLAG_OVERFLOW,
                    operand(old(self)@, bus@) & 0x40u8 != 0,
                ),
                ..old(self)@
            }),
    {
        let immval = read(bus, self.addrabs);
        let temp = self.a & immval;
        self.set_flag(FLAG_ZERO, temp == 0);
        self.set_flag(FLAG_NEGATIVE, immval & 0x80 != 0);
        self.set_flag(FLAG_OVERFLOW, immval & 0x40 != 0);
    }

    /// A + `m` + carry into A, with its flags.
    fn add_with_carry(&mut self, m: u8)
        ensures
            final(self)@ == added(old(self)@, m),
    {
        let m = m as u16;
        let carry_bit: u16 = if self.carry() {
            1
        } else {
            0
        };
        let a = self.a as u16;
        let result = a + m + carry_bit;
        self.set_flag(FLAG_CARRY, result > 0xFF);
        proof {
            lemma_word_masks(result);
        }
        let result_byte = (result & 0xFF) as u8;
        self.set_nz(result_byte);
        self.set_flag(FLAG_OVERFLOW, ((a ^ m) & 0x80 == 0) && ((a ^ result) & 0x80 != 0));
        self.a = result_byte;
    }

    /// ADC: A + operand + carry.
    pub fn adc(&mut self, bus: &Bus)
        requires
            bus.wf(),
        ensures
            final(self)@ == added(old(self)@, operand(old(self)@, bus@)),
    {
        let m = read(bus, self.addrabs);
        self.add_with_carry(m);
    }

    /// SBC: A - operand - (1 - carry), done as A + !operand + carry.
    pub fn sbc(&mut self, bus: &Bus)
        requires
            bus.wf(),
        ensures
            final(self)@ == added(old(self)@, !operand(old(self)@, bus@)),
    {
        let m = read(bus, self.addrabs);
        self.add_with_carry(!m);
    }

    /// Compares `reg` with `v`.
    fn compare(&mut self, reg: u8, v: u8)
        ensures
            final(self)@ == (CoreView { flags: compared(old(self)@.flags, reg, v), ..old(self)@ }),
    {
        let temp = reg.wrapping_sub(v);
        self.set_flag(FLAG_CARRY, reg >= v);
        self.set_flag(FLAG_ZERO, temp == 0);
        self.set_flag(FLAG_NEGATIVE, temp & 0x80 != 0);
    }

    /// CMP: A against the operand.
    pub fn cmp(&mut self, bus: &Bus)
        requires
            bus.wf(),
        ensures
            final(self)@ == (CoreView {
                flags: compared(old(self)@.flags, old(self)@.a, operand(old(self)@, bus@)),
                ..old(self)@
            }),
    {
        let immval = read(bus, self.addrabs);
        let a = self.a;
        self.compare(a, immval);
    }

    /// CPX: X against the operand.
    pub fn cpx(&mut self, bus: &Bus)
        requires
            bus.wf(),
        ensures
            final(self)@ == (CoreView {
                flags: compared(old(self)@.flags, old(self)@.x, operand(old(self)@, bus@)),
                ..old(self)@
            }),
    {
        let immval = read(bus, self.addrabs);
        let x = self.x;
        self.compare(x, immval);
    }

    /// CPY: Y against the operand.
    pub fn cpy(&mut self, bus: &Bus)
        requires
            bus.wf(),
        ensures
            final(self)@ == (CoreView {
                flags: compared(old(self)@.flags, old(self)@.y, operand(old(self)@, bus@)),
                ..old(self)@
            }),
    {
        let immval = read(bus, self.addrabs);
        let y = self.y;
        self.compare(y, immval);
    }

    /// INC: the operand plus one, written back.
    pub fn inc(&mut self, bus: &mut Bus)
        requires
            old(bus).wf(),
        ensures
            final(self)@ == (CoreView {
                flags: with_nz(old(self)@.flags, operand(old(self)@, old(bus)@).wrapping_add(1)),
                ..old(self)@
            }),
            final(bus)@ == wr(old(bus)@, old(self)@.addrabs, operand(old(self)@, old(bus)@).wrapping_add(1)),
            final(bus).wf(),
    {
        let immval = read(bus, self.addrabs);
        let immval = immval.wrapping_add(1);
        self.set_nz(immval);
        write(bus, self.addrabs, immval);
    }

    /// INX: X plus one.
    pub fn inx(&mut self)
        ensures
            final(self)@ == (CoreView {
                x: old(self)@.x.wrapping_add(1),
                flags: with_nz(old(self)@.flags, old(self)@.x.wrapping_add(1)),
                ..old(self)@
            }),
    {
        self.x = self.x.wrapping_add(1);
        self.set_nz(self.x);
    }

    /// INY: Y plus one.
    pub fn iny(&mut self)
        ensures
            final(self)@ == (CoreView {
                y: old(self)@.y.wrapping_add(1),
                flags: with_nz(old(self)@.flags, old(self)@.y.wrapping_add(1)),
                ..old(self)@
            }),
    {
        self.y = self.y.wrapping_add(1);
        self.set_nz(self.y);
    }

    /// DEC: the operand minus one, written back.
    pub fn dec(&mut self, bus: &mut Bus)
        requires
            old(bus).wf(),
        ensures
            final(self)@ == (CoreView {
                flags: with_nz(old(self)@.flags, operand(old(self)@, old(bus)@).wrapping_sub(1)),
                ..old(self)@
            }),
            final(bus)@ == wr(old(bus)@, old(self)@.addrabs, operand(old(self)@, old(bus)@).wrapping_sub(1)),
            final(bus).wf(),
    {
        let immval = read(bus, self.addrabs);
        let immval = immval.wrapping_sub(1);
        self.set_nz(immval);
        write(bus, self.addrabs, immval);
    }

    /// DEX: X minus one.
    pub fn dex(&mut self)
        ensures
            final(self)@ == (CoreView {
                x: old(self)@.x.wrapping_sub(1),
                flags: with_nz(old(self)@.flags, old(self)@.x.wrapping_sub(1)),
                ..old(self)@
            }),
    {
        self.x = self.x.wrapping_sub(1);
        self.set_nz(self.x);
    }

    /// DEY: Y minus one.
    pub fn dey(&mut self)
        ensures
            final(self)@ == (CoreView {
                y: old(self)@.y.wrapping_sub(1),
                flags: with_nz(old(self)@.flags, old(self)@.y.wrapping_sub(1)),
                ..old(self)@
            }),
    {
        self.y = self.y.wrapping_sub(1);
        self.set_nz(self.y);
    }
}

impl Cpu {
    /// Shifts `v` left one bit, the carry shifted in when `rotate`; sets
    /// carry, zero and negative.
    fn shift_left(&mut self, v: u8, rotate: bool) -> (r: u8)
        ensures
            (r, final(self)@.flags) == shifted_left(old(self)@.flags, v, rotate),
            final(self)@ == (CoreView { flags: final(self)@.flags, ..old(self)@ }),
    {
        let bit: u8 = if rotate && self.carry() {
            1
        } else {
            0
        };
        proof {
            lemma_byte_masks(v);
        }
        self.set_flag(FLAG_CARRY, v & 0x80 != 0);
        let r = ((v as u16 * 2) % 256 + bit as u16) as u8;
        self.set_nz(r);
        r
    }

    /// Shifts `v` right one bit, the carry shifted in when `rotate`; sets
    /// carry, zero and negative.
    fn shift_right(&mut self, v: u8, rotate: bool) -> (r: u8)
        ensures
            (r, final(self)@.flags) == shifted_right(old(self)@.flags, v, rotate),
            final(self)@ == (CoreView { flags: final(self)@.flags, ..old(self)@ }),
    {
        let mask: u8 = if rotate && self.carry() {
            0x80
        } else {
            0
        };
        proof {
            lemma_byte_masks(v);
        }
        self.set_flag(FLAG_CARRY, v & 0x1 != 0);
        let r = v / 2 + mask;
        self.set_nz(r);
        r
    }

    fn asl_accumulator(&mut self)
        ensures
            final(self)@ == (CoreView {
                a: shifted_left(old(self)@.flags, old(self)@.a, false).0,
                flags: shifted_left(old(self)@.flags, old(self)@.a, false).1,
                ..old(self)@
            }),
    {
        let a = self.a;
        self.a = self.shift_left(a, false);
    }

    fn asl_memory(&mut self, bus: &mut Bus)
        requires
            old(bus).wf(),
            !on_accumulator(old(self)@.opcode, 0x0A),
        ensures
            (final(self)@, final(bus)@) == shift_step(old(self)@, old(bus)@, 0x0A, true, false),
            final(bus).wf(),
    {
        let immval = read(bus, self.addrabs);
        let r = self.shift_left(immval, false);
        write(bus, self.addrabs, r);
    }

    /// ASL: A (opcode $0A) or the operand shifted left one bit.
    pub fn asl(&mut self, bus: &mut Bus)
        requires
            old(bus).wf(),
        ensures
            (final(self)@, final(bus)@) == shift_step(old(self)@, old(bus)@, 0x0A, true, false),
            final(bus).wf(),
    {
        if self.opcode == 0xA {
            self.asl_accumulator();
        } else {
            self.asl_memory(bus);
        }
    }

    fn lsr_accumulator_helper(&mut self)
        ensures
            final(self)@ == (CoreView {
                a: shifted_right(old(self)@.flags, old(self)@.a, false).0,
                flags: shifted_right(old(self)@.flags, old(self)@.a, false).1,
                ..old(self)@
            }),
    {
        let a = self.a;
        self.a = self.shift_right(a, false);
    }

    fn lsr_memory_helper(&mut self, bus: &mut Bus)
        requires
            old(bus).wf(),
            !on_accumulator(old(self)@.opcode, 0x4A),
        ensures
            (final(self)@, final(bus)@) == shift_step(old(self)@, old(bus)@, 0x4A, false, false),
            final(bus).wf(),
    {
        let immval = read(bus, self.addrabs);
        let r = self.shift_right(immval, false);
        write(bus, self.addrabs, r);
    }

    /// LSR: A (opcode $4A) or the operand shifted right one bit.
    pub fn lsr(&mut self, bus: &mut Bus)
        requires
            old(bus).wf(),
        ensures
            (final(self)@, final(bus)@) == shift_step(old(self)@, old(bus)@, 0x4A, false, false),
            final(bus).wf(),
    {
        if self.opcode == 0x4A {
            self.lsr_accumulator_helper();
        } else {
            self.lsr_memory_helper(bus);
        }
    }

    fn rol_accumulator(&mut self)
        ensures
            final(self)@ == (CoreView {
                a: shifted_left(old(self)@.flags, old(self)@.a, true).0,
                flags: shifted_left(old(self)@.flags, old(self)@.a, true).1,
                ..old(self)@
            }),
    {
        let a = self.a;
        self.a = self.shift_left(a, true);
    }

    fn rol_memory(&mut self, bus: &mut Bus)
        requires
            old(bus).wf(),
            !on_accumulator(old(self)@.opcode, 0x2A),
        ensures
            (final(self)@, final(bus)@) == shift_step(old(self)@, old(bus)@, 0x2A, true, true),
            final(bus).wf(),
    {
        let immval = read(bus, self.addrabs);
        let r = self.shift_left(immval, true);
        write(bus, self.addrabs, r);
    }

    /// ROL: A (opcode $2A) or the operand rotated left through carry.
    pub fn rol(&mut self, bus: &mut Bus)
        requires
            old(bus).wf(),
        ensures
            (final(self)@, final(bus)@) == shift_step(old(self)@, old(bus)@, 0x2A, true, true),
            final(bus).wf(),
    {
        if self.opcode == 0x2A {
            self.rol_accumulator();
        } else {
            self.rol_memory(bus);
        }
    }

    fn ror_accumulator(&mut self)
        ensures
            final(self)@ == (CoreView {
                a: shifted_right(old(self)@.flags, old(self)@.a, true).0,
                flags: shifted_right(old(self)@.flags, old(self)@.a, true).1,
                ..old(self)@
            }),
    {
        let a = self.a;
        self.a = self.shift_right(a, true);
    }

    fn ror_memory(&mut self, bus: &mut Bus)
        requires
            old(bus).wf(),
            !on_accumulator(old(self)@.opcode, 0x6A),
        ensures
            (final(self)@, final(bus)@) == shift_step(old(self)@, old(bus)@, 0x6A, false, true),
            final(bus).wf(),
    {
        let immval = read(bus, self.addrabs);
        let r = self.shift_right(immval, true);
        write(bus, self.addrabs, r);
    }

    /// ROR: A (opcode $6A) or the operand rotated right through carry.
    pub fn ror(&mut self, bus: &mut Bus)
        requires
            old(bus).wf(),
        ensures
            (final(self)@, final(bus)@) == shift_step(old(self)@, old(bus)@, 0x6A, false, true),
            final(bus).wf(),
    {
        if self.opcode == 0x6A {
            self.ror_accumulator();
        } else {
            self.ror_memory(bus);
        }
    }

    /// JMP: PC to the effective address.
    pub fn jmp(&mut self)
        ensures
            final(self)@ == (CoreView { pc: old(self)@.addrabs, ..old(self)@ }),
    {
        self.pc = self.addrabs;
    }

    /// JSR: the return address minus one pushed, high byte first; PC to
    /// the effective address.
    pub fn jsr(&mut self, bus: &mut Bus)
        requires
            old(bus).wf(),
        ensures
            (final(self)@, final(bus)@) == jsr_step(old(self)@, old(bus)@),
            final(bus).wf(),
    {
        let pc = self.pc.wrapping_sub(1);
        proof {
            lemma_word_masks(pc);
        }
        let hi_byte = (pc >> 8) as u8;
        let lo_byte = (pc & 0xFF) as u8;
        self.push(bus, hi_byte);
        self.push(bus, lo_byte);
        self.pc = self.addrabs;
    }

    /// RTS: PC pulled, low byte first, plus one.
    pub fn rts(&mut self, bus: &Bus)
        requires
            bus.wf(),
        ensures
            final(self)@ == rts_step(old(self)@, bus@),
    {
        let lo_byte = self.pop(bus) as u16;
        let hi_byte = self.pop(bus) as u16;
        self.pc = hi_byte * 256 + lo_byte;
        self.pc = self.pc.wrapping_add(1);
    }

    /// Branches by the relative offset when `taken`.
    fn branch(&mut self, taken: bool)
        ensures
            final(self)@ == branched(old(self)@, taken),
    {
        if taken {
            self.cycles_left = self.cycles_left.wrapping_add(1);
            let jump_addr = self.pc.wrapping_add(self.relval);
            if jump_addr / 256 != self.pc / 256 {
                self.cycles_left = self.cycles_left.wrapping_add(2);
            }
            self.pc = jump_addr;
        }
    }

    /// BCC: branch when carry is clear.
    pub fn bcc(&mut self)
        ensures
            final(self)@ == branched(old(self)@, old(self)@.flags & FLAG_CARRY == 0),
    {
        let taken = self.flags & FLAG_CARRY == 0;
        self.branch(taken);
    }

    /// BCS: branch when carry is set.
    pub fn bcs(&mut self)
        ensures
            final(self)@ == branched(old(self)@, old(self)@.flags & FLAG_CARRY != 0),
    {
        let taken = self.flags & FLAG_CARRY != 0;
        self.branch(taken);
    }

    /// BEQ: branch when zero is set.
    pub fn beq(&mut self)
        ensures
            final(self)@ == branched(old(self)@, old(self)@.flags & FLAG_ZERO != 0),
    {
        let taken = self.flags & FLAG_ZERO != 0;
        self.branch(taken);
    }

    /// BMI: branch when negative is set.
    pub fn bmi(&mut self)
        ensures
            final(self)@ == branched(old(self)@, old(self)@.flags & FLAG_NEGATIVE != 0),
    {
        let taken = self.flags & FLAG_NEGATIVE != 0;
        self.branch(taken);
    }

    /// BNE: branch when zero is clear.
    pub fn bne(&mut self)
        ensures
            final(self)@ == branched(old(self)@, old(self)@.flags & FLAG_ZERO == 0),
    {
        let taken = self.flags & FLAG_ZERO == 0;
        self.branch(taken);
    }

    /// BPL: branch when negative is clear.
    pub fn bpl(&mut self)
        ensures
            final(self)@ == branched(old(self)@, old(self)@.flags & FLAG_NEGATIVE == 0),
    {
        let taken = self.flags & FLAG_NEGATIVE == 0;
        self.branch(taken);
    }

    /// BVC: branch when overflow is clear.
    pub fn bvc(&mut self)
        ensures
            final(self)@ == branched(old(self)@, old(self)@.flags & FLAG_OVERFLOW == 0),
    {
        let taken = self.flags & FLAG_OVERFLOW == 0;
        self.branch(taken);
    }

    /// BVS: branch when overflow is set.
    pub fn bvs(&mut self)
        ensures
            final(self)@ == branched(old(self)@, old(self)@.flags & FLAG_OVERFLOW != 0),
    {
        let taken = self.flags & FLAG_OVERFLOW != 0;
        self.branch(taken);
    }

    /// RTI: the status and then PC pulled.
    pub fn rti(&mut self, bus: &Bus)
        requires
            bus.wf(),
        ensures
            final(self)@ == rti_step(old(self)@, bus@),
    {
        self.flags = self.pop(bus);
        let lo = self.pop(bus) as u16;
        let hi = self.pop(bus) as u16;
        self.pc = hi * 256 + lo;
    }

    /// NMI: PC and the status pushed, interrupts disabled, PC from the
    /// vector at $FFFA.
    pub fn nmi(&mut self, bus: &mut Bus)
        requires
            old(bus).wf(),
        ensures
            (final(self)@, final(bus)@) == nmi_step(old(self)@, old(bus)@),
            final(bus).wf(),
    {
        let pc = self.pc;
        proof {
            lemma_word_masks(pc);
        }
        let lo = (pc & 0xFF) as u8;
        let hi = (pc >> 8) as u8;
        self.push(bus, hi);
        self.push(bus, lo);
        self.set_flag(FLAG_INTERRUPT, true);
        let f = self.flags;
        self.push(bus, f);
        let lo = read(bus, 0xFFFA) as u16;
        let hi = read(bus, 0xFFFB) as u16;
        self.pc = hi * 256 + lo;
    }

    /// Reset: A, X, Y and the flags cleared, PC from the vector at $FFFC,
    /// eight cycles to spend.
    pub fn reset(&mut self, bus: &Bus)
        requires
            bus.wf(),
        ensures
            final(self)@ == reset_step(old(self)@, bus@),
    {
        self.a = 0;
        self.x = 0;
        self.y = 0;
        let lo_byte = read(bus, 0xFFFC) as u16;
        let hi_byte = read(bus, 0xFFFD) as u16;
        self.pc = hi_byte * 256 + lo_byte;
        self.flags = 0;
        self.cycles_left = 8;
        self.total_cycles = 0;
    }
}

// Unofficial operations.

/// SRE: the operand shifted right (bit 0 into carry) and written back,
/// then A ^= it.
pub open spec fn sre_step(s: CoreView, m: Seq<u8>) -> (CoreView, Seq<u8>) {
    let v0 = operand(s, m);
    let v = v0 / 2;
    let a = v ^ s.a;
    (CoreView { a, flags: with_nz(with_flag(s.flags, FLAG_CARRY, v0 % 2 == 1), a), ..s }, wr(m, s.addrabs, v))
}

/// RRA: the operand rotated right through carry and written back, then
/// added to A with the new carry.
pub open spec fn rra_step(s: CoreView, m: Seq<u8>) -> (CoreView, Seq<u8>) {
    let (v, f) = shifted_right(s.flags, operand(s, m), true);
    (added(CoreView { flags: f, ..s }, v), wr(m, s.addrabs, v))
}

/// RLA: the operand rotated left through carry and written back, then
/// A &= it.
pub open spec fn rla_step(s: CoreView, m: Seq<u8>) -> (CoreView, Seq<u8>) {
    let (v, f) = shifted_left(s.flags, operand(s, m), true);
    let a = s.a & v;
    (CoreView { a, flags: with_nz(f, a), ..s }, wr(m, s.addrabs, v))
}

/// SLO: the operand shifted left (bit 7 into carry) and written back,
/// then A |= it.
pub open spec fn slo_step(s: CoreView, m: Seq<u8>) -> (CoreView, Seq<u8>) {
    let v0 = operand(s, m);
    let v = ((v0 as int * 2) % 256) as u8;
    let a = s.a | v;
    (CoreView { a, flags: with_nz(with_flag(s.flags, FLAG_CARRY, v0 >= 128), a), ..s }, wr(m, s.addrabs, v))
}

/// DCP: the operand minus one written back, then compared with A.
pub open spec fn dcp_step(s: CoreView, m: Seq<u8>) -> (CoreView, Seq<u8>) {
    let v = operand(s, m).wrapping_sub(1);
    (CoreView { flags: compared(with_nz(s.flags, v), s.a, v), ..s }, wr(m, s.addrabs, v))
}

/// ISC: the operand plus one written back, then subtracted from A with
/// borrow.
pub open spec fn isc_step(s: CoreView, m: Seq<u8>) -> (CoreView, Seq<u8>) {
    let v = operand(s, m).wrapping_add(1);
    (added(CoreView { flags: with_nz(s.flags, v), ..s }, !v), wr(m, s.addrabs, v))
}

impl Cpu {
    /// SRE: LSR on the operand, then EOR.
    pub fn sre(&mut self, bus: &mut Bus)
        requires
            old(bus).wf(),
        ensures
            (final(self)@, final(bus)@) == sre_step(old(self)@, old(bus)@),
            final(bus).wf(),
    {
        let immval = read(bus, self.addrabs);
        proof {
            lemma_byte_masks(immval);
        }
        self.set_flag(FLAG_CARRY, immval & 0x01 != 0);
        let immval = immval / 2;
        write(bus, self.addrabs, immval);
        self.a = immval ^ self.a;
        self.set_nz(self.a);
    }

    /// LAX: A and X from the operand.
    pub fn lax(&mut self, bus: &Bus)
        requires
            bus.wf(),
        ensures
            final(self)@ == (CoreView {
                a: operand(old(self)@, bus@),
                x: operand(old(self)@, bus@),
                flags: with_nz(old(self)@.flags, operand(old(self)@, bus@)),
                ..old(self)@
            }),
    {
        let immval = read(bus, self.addrabs);
        self.a = immval;
        self.x = immval;
        self.set_nz(self.a);
    }

    /// LAS: A, X and the stack pointer from the stack pointer & operand.
    pub fn las(&mut self, bus: &Bus)
        requires
            bus.wf(),
        ensures
            final(self)@ == (CoreView {
                a: old(self)@.sp & operand(old(self)@, bus@),
                x: old(self)@.sp & operand(old(self)@, bus@),
                sp: old(self)@.sp & operand(old(self)@, bus@),
                flags: with_nz(old(self)@.flags, old(self)@.sp & operand(old(self)@, bus@)),
                ..old(self)@
            }),
    {
        let immval = read(bus, self.addrabs);
        let temp = self.sp & immval;
        self.a = temp;
        self.x = temp;
        self.sp = temp;
        self.set_nz(self.a);
    }

    /// RRA: ROR on the operand, then ADC.
    pub fn rra(&mut self, bus: &mut Bus)
        requires
            old(bus).wf(),
        ensures
            (final(self)@, final(bus)@) == rra_step(old(self)@, old(bus)@),
            final(bus).wf(),
    {
        let immval = read(bus, self.addrabs);
        let immval = self.shift_right(immval, true);
        write(bus, self.addrabs, immval);
        self.add_with_carry(immval);
    }

    /// DCP: DEC on the operand, then CMP.
    pub fn dcp(&mut self, bus: &mut Bus)
        requires
            old(bus).wf(),
        ensures
            (final(self)@, final(bus)@) == dcp_step(old(self)@, old(bus)@),
            final(bus).wf(),
    {
        let immval = read(bus, self.addrabs);
        let immval = immval.wrapping_sub(1);
        self.set_nz(immval);
        write(bus, self.addrabs, immval);
        let immval = read(bus, self.addrabs);
        let a = self.a;
        self.compare(a, immval);
    }

    /// SAX: A & X to the effective address.
    pub fn sax(&mut self, bus: &mut Bus)
        requires
            old(bus).wf(),
        ensures
            final(self)@ == old(self)@,
            final(bus)@ == wr(old(bus)@, old(self)@.addrabs, old(self)@.a & old(self)@.x),
            final(bus).wf(),
    {
        let m = self.a & self.x;
        write(bus, self.addrabs, m);
    }

    /// RLA: ROL on the operand, then AND.
    pub fn rla(&mut self, bus: &mut Bus)
        requires
            old(bus).wf(),
        ensures
            (final(self)@, final(bus)@) == rla_step(old(self)@, old(bus)@),
            final(bus).wf(),
    {
        let immval = read(bus, self.addrabs);
        let immval = self.shift_left(immval, true);
        write(bus, self.addrabs, immval);
        self.a = self.a & immval;
        self.set_nz(self.a);
    }

    /// SLO: ASL on the operand, then ORA.
    pub fn slo(&mut self, bus: &mut Bus)
        requires
            old(bus).wf(),
        ensures
            (final(self)@, final(bus)@) == slo_step(old(self)@, old(bus)@),
            final(bus).wf(),
    {
        let immval = read(bus, self.addrabs);
        proof {
            lemma_byte_masks(immval);
        }
        self.set_flag(FLAG_CARRY, immval & 0x80 != 0);
        let immval = ((immval as u16 * 2) % 256) as u8;
        write(bus, self.addrabs, immval);
        self.a = self.a | immval;
        self.set_nz(self.a);
    }

    /// ISC: INC on the operand, then SBC.
    pub fn isc(&mut self, bus: &mut Bus)
        requires
            old(bus).wf(),
        ensures
            (final(self)@, final(bus)@) == isc_step(old(self)@, old(bus)@),
            final(bus).wf(),
    {
        let immval = read(bus, self.addrabs);
        let immval = immval.wrapping_add(1);
        self.set_nz(immval);
        write(bus, self.addrabs, immval);
        self.add_with_carry(!immval);
    }

    /// LXA: A and X from (A | $EE) & operand.
    pub fn lxa(&mut self, bus: &Bus)
        requires
            bus.wf(),
        ensures
            final(self)@ == (CoreView {
                a: (old(self)@.a | 0xEEu8) & operand(old(self)@, bus@),
                x: (old(self)@.a | 0xEEu8) & operand(old(self)@, bus@),
                flags: with_nz(old(self)@.flags, (old(self)@.a | 0xEEu8) & operand(old(self)@, bus@)),
                ..old(self)@
            }),
    {
        let oper = read(bus, self.addrabs);
        let magic_constant: u8 = 0xEE;
        let result = (self.a | magic_constant) & oper;
        self.a = result;
        self.x = result;
        self.set_nz(result);
    }

    /// JAM: PC steps back onto the opcode, so the core stays on it.
    pub fn jam(&mut self)
        ensures
            final(self)@ == (CoreView { pc: old(self)@.pc.wrapping_sub(1), ..old(self)@ }),
    {
        self.pc = self.pc.wrapping_sub(1);
    }

    /// SBX: X from (A & X) - operand, carry as in a compare.
    pub fn sbx(&mut self, bus: &Bus)
        requires
            bus.wf(),
        ensures
            final(self)@ == (CoreView {
                x: (old(self)@.a & old(self)@.x).wrapping_sub(operand(old(self)@, bus@)),
                flags: with_nz(
                    with_flag(old(self)@.flags, FLAG_CARRY, old(self)@.a & old(self)@.x >= operand(old(self)@, bus@)),
                    (old(self)@.a & old(self)@.x).wrapping_sub(operand(old(self)@, bus@)),
                ),
                ..old(self)@
            }),
    {
        let oper = read(bus, self.addrabs);
        let a_and_x = self.a & self.x;
        let result = a_and_x.wrapping_sub(oper);
        self.set_flag(FLAG_CARRY, a_and_x >= oper);
        self.x = result;
        self.set_nz(result);
    }

    /// ANE: A from (A | $EE) & X & operand.
    pub fn ane(&mut self, bus: &Bus)
        requires
            bus.wf(),
        ensures
            final(self)@ == (CoreView {
                a: (old(self)@.a | 0xEEu8) & old(self)@.x & operand(old(self)@, bus@),
                flags: with_nz(old(self)@.flags, (old(self)@.a | 0xEEu8) & old(self)@.x & operand(old(self)@, bus@)),
                ..old(self)@
            }),
    {
        let oper = read(bus, self.addrabs);
        let magic_constant: u8 = 0xEE;
        let result = (self.a | magic_constant) & self.x & oper;
        self.a = result;
        self.set_nz(result);
    }
}

} // verus!
