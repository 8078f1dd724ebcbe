//! What each addressing mode and each operation of the 6502 core does to
//! the registers and to memory.
use vstd::prelude::*;
use super::decode::{AddressModes, Instruction};

verus! {

// Status register bits.
pub const FLAG_CARRY: u8 = 0x01;
pub const FLAG_ZERO: u8 = 0x02;
pub const FLAG_INTERRUPT: u8 = 0x04;
pub const FLAG_DECIMAL: u8 = 0x08;
pub const FLAG_BREAK: u8 = 0x10;
pub const FLAG_UNUSED: u8 = 0x20;
pub const FLAG_OVERFLOW: u8 = 0x40;
pub const FLAG_NEGATIVE: u8 = 0x80;

/// The CPU's registers and the operands of the instruction in flight.
pub struct CpuView {
    pub a: u8,
    pub x: u8,
    pub y: u8,
    pub sp: u8,
    pub pc: u16,
    pub flags: u8,
    pub cycles_left: u8,
    pub extra_cycles: u8,
    pub total_cycles: usize,
    pub immval: u8,
    pub abs_addr: u16,
    pub relval: u16,
    pub current_opcode: u8,
}

/// The status register with the bits of `mask` set when `on`, else
/// cleared.
pub open spec fn with_flag(flags: u8, mask: u8, on: bool) -> u8 {
    if on {
        flags | mask
    } else {
        flags & !mask
    }
}

/// The status register with zero and negative set from `v`.
pub open spec fn with_nz(flags: u8, v: u8) -> u8 {
    with_flag(with_flag(flags, FLAG_ZERO, v == 0), FLAG_NEGATIVE, v & 0x80u8 != 0)
}

/// The byte at `addr`.
pub open spec fn rd(m: Seq<u8>, addr: u16) -> u8 {
    m[addr as int]
}

/// Memory with `v` stored at `addr`.
pub open spec fn wr(m: Seq<u8>, addr: u16, v: u8) -> Seq<u8> {
    m.update(addr as int, v)
}

/// The stack address of stack pointer `sp`: page 1.
pub open spec fn stack(sp: u8) -> u16 {
    (0x100 + sp as int) as u16
}

/// The little-endian word of bytes `lo` and `hi`.
pub open spec fn word(lo: u8, hi: u8) -> u16 {
    (hi as int * 256 + lo as int) as u16
}

/// The operand fetch of each addressing mode: the bytes after the opcode
/// are consumed, and the operand value (`immval`), the effective address
/// (`abs_addr`), the branch offset (`relval`) and the page-cross cycle
/// (`extra_cycles`) are set as that mode does.
pub open spec fn mode_step(mode: AddressModes, s: CpuView, m: Seq<u8>) -> CpuView {
    let b0 = rd(m, s.pc);
    let pc1 = s.pc.wrapping_add(1);
    let b1 = rd(m, pc1);
    let pc2 = pc1.wrapping_add(1);
    match mode {
        AddressModes::Implicit | AddressModes::Accumulator => s,
        AddressModes::Immediate => CpuView { immval: b0, pc: pc1, extra_cycles: 0, ..s },
        AddressModes::Zeropage => {
            let addr = b0 as u16;
            CpuView { abs_addr: addr, immval: rd(m, addr), pc: pc1, extra_cycles: 0, ..s }
        },
        AddressModes::ZeropageX => {
            let addr = ((b0 as int + s.x as int) % 256) as u16;
            CpuView { abs_addr: addr, immval: rd(m, addr), pc: pc1, extra_cycles: 0, ..s }
        },
        AddressModes::ZeropageY => {
            let addr = ((b0 as int + s.y as int) % 256) as u16;
            CpuView { abs_addr: addr, immval: rd(m, addr), pc: pc1, extra_cycles: 0, ..s }
        },
        AddressModes::Relative => {
            let offset = if b0 >= 128 { (b0 as int + 0xFF00) as u16 } else { b0 as u16 };
            CpuView { relval: offset, pc: pc1, extra_cycles: 0, ..s }
        },
        AddressModes::Absolute | AddressModes::AbsoluteX => {
            CpuView { abs_addr: word(b0, b1), pc: pc2, extra_cycles: 0, ..s }
        },
        AddressModes::AbsoluteY => {
            let addr = word(b0, b1).wrapping_add(s.y as u16);
            CpuView {
                abs_addr: addr,
                pc: pc2,
                extra_cycles: if addr as int / 256 != b1 as int { 1 } else { 0 },
                ..s
            }
        },
        AddressModes::Indirect => {
            let ptr = word(b0, b1);
            let target = if b0 == 0xFF {
                word(rd(m, ptr), rd(m, word(0, b1)))
            } else {
                word(rd(m, ptr), rd(m, (ptr + 1) as u16))
            };
            CpuView { abs_addr: target, pc: pc2, ..s }
        },
        AddressModes::IndexedIndirect => {
            let base = b0 as int + s.x as int;
            CpuView { abs_addr: word(rd(m, base as u16), rd(m, (base + 1) as u16)), pc: pc1, ..s }
        },
        AddressModes::IndirectIndexed => {
            let hi = rd(m, ((b0 as int + 1) % 256) as u16);
            let addr = word(rd(m, b0 as u16), hi).wrapping_add(s.y as u16);
            CpuView {
                abs_addr: addr,
                pc: pc1,
                extra_cycles: if addr as int / 256 != hi as int { 1 } else { 0 },
                ..s
            }
        },
    }
}

/// A taken branch adds a cycle, two more on a page cross, and computes
/// the target; the core leaves PC where it is.
pub open spec fn branch_step(s: CpuView, taken: bool) -> CpuView {
    if taken {
        let e1 = s.extra_cycles.wrapping_add(1);
        let target = s.pc.wrapping_add(s.relval);
        let e2 = if target as int / 256 != s.pc as int / 256 { (e1 + e1.wrapping_add(2)) as u8 } else { e1 };
        CpuView { extra_cycles: e2, abs_addr: target, ..s }
    } else {
        s
    }
}

/// The carry flag as 0 or 1.
pub open spec fn carry_in(flags: u8) -> u16 {
    if flags & FLAG_CARRY != 0 {
        1
    } else {
        0
    }
}

/// ADC: A + operand + carry, with carry, zero, overflow and negative
/// taken from the 16-bit sum.
pub open spec fn adc_step(s: CpuView) -> CpuView {
    let a = s.a as u16;
    let v = s.immval as u16;
    let temp = a.wrapping_add(v).wrapping_add(carry_in(s.flags));
    let f1 = with_flag(s.flags, FLAG_CARRY, temp > 255);
    let f2 = with_flag(f1, FLAG_ZERO, temp == 0);
    let f3 = with_flag(f2, FLAG_OVERFLOW, !(a ^ v) & (a ^ temp) & 0x0080u16 != 0);
    let f4 = with_flag(f3, FLAG_NEGATIVE, temp & 0x80u16 != 0);
    CpuView { a: (temp & 0xFFu16) as u8, flags: f4, ..s }
}

/// SBC: A - operand - (1 - carry) in 16 bits, carry set on a borrow.
pub open spec fn sbc_step(s: CpuView) -> CpuView {
    let a = s.a as u16;
    let value = (!s.immval) as u16;
    let temp = a.wrapping_sub(s.immval as u16).wrapping_sub((1 - carry_in(s.flags)) as u16);
    let f1 = with_flag(s.flags, FLAG_CARRY, temp > 255);
    let f2 = with_flag(f1, FLAG_ZERO, temp == 0);
    let f3 = with_flag(f2, FLAG_OVERFLOW, (temp ^ a) & (temp ^ value) & 0x0080u16 != 0);
    let f4 = with_flag(f3, FLAG_NEGATIVE, temp & 0x0080u16 != 0);
    CpuView { a: (temp & 0x00FFu16) as u8, flags: f4, ..s }
}

/// CMP, CPX, CPY: compare `reg` with the operand.
pub open spec fn compare_flags(flags: u8, reg: u8, v: u8) -> u8 {
    let temp = reg.wrapping_sub(v);
    let f1 = with_flag(flags, FLAG_ZERO, temp == 0);
    let f2 = with_flag(f1, FLAG_CARRY, reg >= v);
    with_flag(f2, FLAG_NEGATIVE, temp & 0x80u8 != 0)
}

/// The registers and memory after operation `op`, once its addressing
/// mode has fetched the operands.
pub open spec fn op_step(op: Instruction, s: CpuView, m: Seq<u8>) -> (CpuView, Seq<u8>) {
    let carry = s.flags & FLAG_CARRY != 0;
    match op {
        Instruction::LDA => (CpuView { a: s.immval, flags: with_nz(s.flags, s.immval), ..s }, m),
        Instruction::LDX => (CpuView { x: s.immval, flags: with_nz(s.flags, s.immval), ..s }, m),
        Instruction::LDY => (CpuView { y: s.immval, flags: with_nz(s.flags, s.immval), ..s }, m),
        Instruction::STA => (s, wr(m, s.abs_addr, s.a)),
        Instruction::STX => (s, wr(m, s.abs_addr, s.x)),
        Instruction::STY => (s, wr(m, s.abs_addr, s.y)),
        Instruction::TAX => (CpuView { x: s.a, flags: with_nz(s.flags, s.a), ..s }, m),
        Instruction::TAY => (CpuView { y: s.a, flags: with_nz(s.flags, s.a), ..s }, m),
        Instruction::TXA => (CpuView { a: s.x, flags: with_nz(s.flags, s.x), ..s }, m),
        Instruction::TYA => (CpuView { a: s.y, flags: with_nz(s.flags, s.y), ..s }, m),
        Instruction::TSX => (CpuView { x: s.sp, flags: with_nz(s.flags, s.sp), ..s }, m),
        Instruction::TXS => (CpuView { sp: s.x, ..s }, m),
        Instruction::PHA => (CpuView { sp: s.sp.wrapping_sub(1), ..s }, wr(m, stack(s.sp), s.a)),
        Instruction::PHP => (CpuView { sp: s.sp.wrapping_sub(1), ..s }, wr(m, stack(s.sp), s.flags)),
        Instruction::PLA => {
            let sp = s.sp.wrapping_add(1);
            let v = rd(m, stack(sp));
            (CpuView { sp, a: v, flags: with_nz(s.flags, v), ..s }, m)
        },
        Instruction::PLP => {
            let sp = s.sp.wrapping_add(1);
            (CpuView { sp, flags: rd(m, stack(sp)), ..s }, m)
        },
        Instruction::AND => {
            let v = s.a & s.immval;
            (CpuView { a: v, flags: with_nz(s.flags, v), ..s }, m)
        },
        Instruction::EOR => {
            let v = s.a ^ s.immval;
            (CpuView { a: v, flags: with_nz(s.flags, v), ..s }, m)
        },
        Instruction::ORA => {
            let v = s.a | s.immval;
            (CpuView { a: v, flags: with_nz(s.flags, v), ..s }, m)
        },
        Instruction::BIT => {
            let temp = s.a & s.immval;
            let f1 = with_flag(s.flags, FLAG_NEGATIVE, temp & 0x80u8 != 0);
            let f2 = with_flag(f1, FLAG_OVERFLOW, temp & 0x40u8 != 0);
            (CpuView { flags: with_flag(f2, FLAG_ZERO, temp == 0), ..s }, m)
        },
        Instruction::ADC => (adc_step(s), m),
        Instruction::SBC => (sbc_step(s), m),
        Instruction::CMP => (CpuView { flags: compare_flags(s.flags, s.a, s.immval), ..s }, m),
        Instruction::CPX => (CpuView { flags: compare_flags(s.flags, s.x, s.immval), ..s }, m),
        Instruction::CPY => (CpuView { flags: compare_flags(s.flags, s.y, s.immval), ..s }, m),
        Instruction::INC => {
            let v = s.immval.wrapping_add(1);
            (CpuView { flags: with_nz(s.flags, v), ..s }, wr(m, s.abs_addr, v))
        },
        Instruction::DEC => {
            let v = s.immval.wrapping_sub(1);
            (CpuView { flags: with_nz(s.flags, v), ..s }, wr(m, s.abs_addr, v))
        },
        Instruction::INX => {
            let v = s.x.wrapping_add(1);
            (CpuView { x: v, flags: with_nz(s.flags, v), ..s }, m)
        },
        Instruction::INY => {
            let v = s.x.wrapping_add(1);
            (CpuView { y: v, flags: with_nz(s.flags, v), ..s }, m)
        },
        Instruction::DEX => {
            let v = s.x.wrapping_sub(1);
            (CpuView { x: v, flags: with_nz(s.flags, v), ..s }, m)
        },
        Instruction::DEY => {
            let v = s.y.wrapping_sub(1);
            (CpuView { y: v, flags: with_nz(s.flags, v), ..s }, m)
        },
        Instruction::ASL => {
            if s.current_opcode == 0x0A {
                let v = s.a << 1u8;
                (CpuView { a: v, flags: with_nz(with_flag(s.flags, FLAG_CARRY, s.a & 0x80u8 != 0), v), ..s }, m)
            } else {
                let v = s.immval << 1u8;
                (
                    CpuView { immval: v, flags: with_nz(with_flag(s.flags, FLAG_CARRY, s.immval & 0x80u8 != 0), v), ..s },
                    wr(m, s.abs_addr, v),
                )
            }
        },
        Instruction::LSR => {
            if s.current_opcode == 0x4A {
                let v = s.a >> 1u8;
                (CpuView { a: v, flags: with_nz(with_flag(s.flags, FLAG_CARRY, s.a & 0x01u8 != 0), v), ..s }, m)
            } else {
                let v = s.immval >> 1u8;
                (
                    CpuView { immval: v, flags: with_nz(with_flag(s.flags, FLAG_CARRY, s.immval & 0x01u8 != 0), v), ..s },
                    wr(m, s.abs_addr, v),
                )
            }
        },
        Instruction::ROL => {
            let c: u8 = if carry { 1 } else { 0 };
            if s.current_opcode == 0x2A {
                let v = (s.a << 1u8) | c;
                (CpuView { a: v, flags: with_nz(with_flag(s.flags, FLAG_CARRY, s.a & 0x80u8 != 0), v), ..s }, m)
            } else {
                let v = (s.immval << 1u8) | c;
                (
                    CpuView { immval: v, flags: with_nz(with_flag(s.flags, FLAG_CARRY, s.immval & 0x80u8 != 0), v), ..s },
                    wr(m, s.abs_addr, v),
                )
            }
        },
        Instruction::ROR => {
            let c: u8 = if carry { 0x80 } else { 0 };
            if s.current_opcode == 0x6A {
                let v = (s.a >> 1u8) | c;
                (CpuView { a: v, flags: with_nz(with_flag(s.flags, FLAG_CARRY, s.a & 0x01u8 != 0), v), ..s }, m)
            } else {
                let v = (s.immval >> 1u8) | c;
                (
                    CpuView { immval: v, flags: with_nz(with_flag(s.flags, FLAG_CARRY, s.immval & 0x80u8 != 0), v), ..s },
                    wr(m, s.abs_addr, v),
                )
            }
        },
        Instruction::JMP => (CpuView { pc: s.abs_addr, ..s }, m),
        Instruction::JSR => {
            let ret = s.pc.wrapping_sub(1);
            let m1 = wr(m, stack(s.sp), (ret as int / 256) as u8);
            let sp1 = s.sp.wrapping_sub(1);
            (CpuView { sp: sp1, pc: s.abs_addr, ..s }, wr(m1, stack(sp1), (ret as int % 256) as u8))
        },
        Instruction::RTS => {
            let sp1 = s.sp.wrapping_add(1);
            let sp2 = sp1.wrapping_add(1);
            let pc = (rd(m, stack(sp1)) as u16 | rd(m, stack(sp2)) as u16).wrapping_add(1);
            (CpuView { sp: sp2, pc, ..s }, m)
        },
        Instruction::BCC => (branch_step(s, !carry), m),
        Instruction::BCS => (branch_step(s, carry), m),
        Instruction::BEQ => (branch_step(s, s.flags & FLAG_ZERO != 0), m),
        Instruction::BMI => (branch_step(s, s.flags & FLAG_NEGATIVE != 0), m),
        Instruction::BNE => (branch_step(s, s.flags & FLAG_ZERO == 0), m),
        Instruction::BPL => (branch_step(s, s.flags & FLAG_NEGATIVE == 0), m),
        Instruction::BVC => (branch_step(s, s.flags & FLAG_OVERFLOW == 0), m),
        Instruction::BVS => (branch_step(s, s.flags & FLAG_OVERFLOW != 0), m),
        Instruction::CLC => (CpuView { flags: with_flag(s.flags, FLAG_CARRY, false), ..s }, m),
        Instruction::CLD => (CpuView { flags: with_flag(s.flags, FLAG_DECIMAL, false), ..s }, m),
        Instruction::CLI => (CpuView { flags: with_flag(s.flags, FLAG_INTERRUPT, false), ..s }, m),
        Instruction::CLV => (CpuView { flags: with_flag(s.flags, FLAG_OVERFLOW, false), ..s }, m),
        Instruction::SEC => (CpuView { flags: with_flag(s.flags, FLAG_CARRY, true), ..s }, m),
        Instruction::SED => (CpuView { flags: with_flag(s.flags, FLAG_DECIMAL, true), ..s }, m),
        Instruction::SEI => (CpuView { flags: with_flag(s.flags, FLAG_INTERRUPT, true), ..s }, m),
        Instruction::BRK => {
            let pc = s.pc.wrapping_add(1);
            let f1 = with_flag(s.flags, FLAG_INTERRUPT, true);
            let m1 = wr(m, stack(s.sp), (pc as int / 256) as u8);
            let sp1 = s.sp.wrapping_sub(1);
            let m2 = wr(m1, stack(sp1), (pc as int % 256) as u8);
            let sp2 = sp1.wrapping_sub(1);
            let f2 = with_flag(f1, FLAG_BREAK, true);
            let m3 = wr(m2, stack(sp2), f2);
            let sp3 = sp2.wrapping_sub(1);
            let f3 = with_flag(f2, FLAG_BREAK, false);
            (CpuView { pc: word(rd(m3, 0xFFFF), rd(m3, 0xFFFE)), sp: sp3, flags: f3, ..s }, m3)
        },
        Instruction::NOP => (s, m),
        Instruction::RTI => {
            let sp1 = s.sp.wrapping_add(1);
            let sp2 = sp1.wrapping_add(1);
            let sp3 = sp2.wrapping_add(1);
            let flags = with_flag(rd(m, stack(sp1)), FLAG_BREAK, false);
            (CpuView { sp: sp3, flags, pc: word(rd(m, stack(sp2)), rd(m, stack(sp3))), ..s }, m)
        },
        Instruction::SRE => {
            let f1 = with_flag(s.flags, FLAG_CARRY, s.immval & 1u8 != 0);
            let v = (s.immval >> 1u8) ^ s.a;
            (CpuView { a: v, flags: with_flag(with_flag(f1, FLAG_NEGATIVE, v & 0x80u8 != 0), FLAG_ZERO, v == 0), ..s }, m)
        },
    }
}

/// One instruction in mode `mode` doing `op` for `cycles` base cycles:
/// the cycle budget is set, the operands fetched, the operation done.
pub open spec fn instruction_step(mode: AddressModes, op: Instruction, cycles: u8, s: CpuView, m: Seq<u8>) -> (
    CpuView,
    Seq<u8>,
) {
    op_step(op, mode_step(mode, CpuView { cycles_left: cycles, ..s }, m), m)
}

} // verus!
