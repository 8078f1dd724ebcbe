//! Properties of the 6502 core that span operations: what the stack gives
//! back, what arithmetic computes, and what a load reads of a store.
use vstd::prelude::*;
use crate::bits::{lemma_byte_arith, lemma_byte_masks, lemma_shift_left_in};
use super::decode::{AddressModes, Instruction};
use super::model::{CpuView, with_flag, with_nz, rd, wr, stack, op_step, mode_step, instruction_step, carry_in, FLAG_CARRY, FLAG_ZERO,
    FLAG_NEGATIVE, FLAG_OVERFLOW, FLAG_INTERRUPT};
use super::cpu6502::{CoreView, operand, pushed, popped, added, jsr_step, rts_step, nmi_step, rti_step, compared,
    shifted_left, shifted_right};

verus! {

/// Setting or clearing the bits of `mask` leaves the bits outside it.
pub proof fn lemma_with_flag_other(g: u8, mask: u8, on: bool, bit: u8)
    requires
        mask & bit == 0,
    ensures
        with_flag(g, mask, on) & bit == g & bit,
{
    if on {
        assert((g | mask) & bit == g & bit) by (bit_vector)
            requires
                mask & bit == 0,
        ;
    } else {
        assert((g & !mask) & bit == g & bit) by (bit_vector)
            requires
                mask & bit == 0,
        ;
    }
}

/// After setting or clearing the bits of `mask`, they read as set
/// exactly when they were set.
pub proof fn lemma_with_flag_same(g: u8, mask: u8, on: bool)
    requires
        mask != 0,
    ensures
        (with_flag(g, mask, on) & mask != 0) == on,
{
    if on {
        assert((g | mask) & mask != 0) by (bit_vector)
            requires
                mask != 0,
        ;
    } else {
        assert((g & !mask) & mask == 0) by (bit_vector);
    }
}

/// The status bits are distinct.
proof fn lemma_distinct_flags()
    by (bit_vector)
    ensures
        0x02u8 & 0x01u8 == 0,
        0x40u8 & 0x01u8 == 0,
        0x80u8 & 0x01u8 == 0,
        0x01u8 & 0x02u8 == 0,
        0x80u8 & 0x02u8 == 0,
{
}

/// PHA then PLA gives the accumulator back and leaves the stack pointer
/// where it was; the byte pushed stays on the stack.
pub proof fn law_push_pull_accumulator(s: CpuView, m: Seq<u8>, other: u8)
    requires
        m.len() == 0x10000,
    ensures
        ({
            let (s1, m1) = op_step(Instruction::PHA, s, m);
            let (s2, m2) = op_step(Instruction::PLA, CpuView { a: other, ..s1 }, m1);
            &&& s2.a == s.a
            &&& s2.sp == s.sp
            &&& rd(m2, stack(s.sp)) == s.a
        }),
{
}

/// PHP then PLP gives the status register back and leaves the stack
/// pointer where it was.
pub proof fn law_push_pull_status(s: CpuView, m: Seq<u8>, other: u8)
    requires
        m.len() == 0x10000,
    ensures
        ({
            let (s1, m1) = op_step(Instruction::PHP, s, m);
            let (s2, m2) = op_step(Instruction::PLP, CpuView { flags: other, ..s1 }, m1);
            &&& s2.flags == s.flags
            &&& s2.sp == s.sp
        }),
{
}

/// ADC leaves in A the sum of A, the operand and the carry modulo 256,
/// and sets the carry exactly when that sum passes 255.
pub proof fn law_adc_sum(s: CpuView)
    ensures
        ({
            let r = op_step(Instruction::ADC, s, Seq::empty()).0;
            let sum = s.a as int + s.immval as int + carry_in(s.flags) as int;
            &&& r.a as int == sum % 256
            &&& (r.flags & FLAG_CARRY != 0) == (sum > 255)
        }),
{
    let a = s.a as u16;
    let v = s.immval as u16;
    let c = carry_in(s.flags);
    let temp = a.wrapping_add(v).wrapping_add(c);
    assert(temp as int == s.a as int + s.immval as int + c as int);
    assert((temp & 0xFFu16) as u8 == temp % 256) by (bit_vector)
        requires
            temp < 512,
    ;
    let f1 = with_flag(s.flags, FLAG_CARRY, temp > 255);
    let f2 = with_flag(f1, FLAG_ZERO, temp == 0);
    let f3 = with_flag(f2, FLAG_OVERFLOW, !(a ^ v) & (a ^ temp) & 0x0080u16 != 0);
    lemma_distinct_flags();
    lemma_with_flag_same(s.flags, FLAG_CARRY, temp > 255);
    lemma_with_flag_other(f1, FLAG_ZERO, temp == 0, FLAG_CARRY);
    lemma_with_flag_other(f2, FLAG_OVERFLOW, !(a ^ v) & (a ^ temp) & 0x0080u16 != 0, FLAG_CARRY);
    lemma_with_flag_other(f3, FLAG_NEGATIVE, temp & 0x80u16 != 0, FLAG_CARRY);
}

/// CMP sets the carry exactly when A is at least the operand and the
/// zero flag exactly when they are equal, and leaves A as it was.
pub proof fn law_compare(s: CpuView)
    ensures
        ({
            let r = op_step(Instruction::CMP, s, Seq::empty()).0;
            &&& (r.flags & FLAG_CARRY != 0) == (s.a >= s.immval)
            &&& (r.flags & FLAG_ZERO != 0) == (s.a == s.immval)
            &&& r.a == s.a
        }),
{
    let temp = s.a.wrapping_sub(s.immval);
    let f1 = with_flag(s.flags, FLAG_ZERO, temp == 0);
    let f2 = with_flag(f1, FLAG_CARRY, s.a >= s.immval);
    lemma_distinct_flags();
    lemma_with_flag_same(s.flags, FLAG_ZERO, temp == 0);
    lemma_with_flag_other(f1, FLAG_CARRY, s.a >= s.immval, FLAG_ZERO);
    lemma_with_flag_same(f1, FLAG_CARRY, s.a >= s.immval);
    lemma_with_flag_other(f2, FLAG_NEGATIVE, temp & 0x80u8 != 0, FLAG_ZERO);
    lemma_with_flag_other(f2, FLAG_NEGATIVE, temp & 0x80u8 != 0, FLAG_CARRY);
}

/// A zero-page load reads back what a zero-page store wrote: STA $nn
/// followed by LDA $nn (with the same operand byte) leaves the stored
/// accumulator in A.
pub proof fn law_store_then_load_zeropage(s: CpuView, t: CpuView, m: Seq<u8>)
    requires
        m.len() == 0x10000,
        rd(m, t.pc) == rd(m, s.pc),
        t.pc as int != rd(m, s.pc) as int,
    ensures
        ({
            let s1 = mode_step(AddressModes::Zeropage, s, m);
            let (s2, m2) = op_step(Instruction::STA, s1, m);
            let t1 = mode_step(AddressModes::Zeropage, t, m2);
            let (t2, m3) = op_step(Instruction::LDA, t1, m2);
            &&& t2.a == s.a
            &&& rd(m3, rd(m, s.pc) as u16) == s.a
        }),
{
}

/// On the core that reads its operands at the effective address: JSR
/// then RTS comes back to the instruction after the JSR, with the stack
/// pointer where it was.
pub proof fn law_core_call_return(s: CoreView, m: Seq<u8>)
    requires
        m.len() == 0x10000,
    ensures
        ({
            let (s1, m1) = jsr_step(s, m);
            let s2 = rts_step(s1, m1);
            &&& s2.pc == s.pc
            &&& s2.sp == s.sp
        }),
{
    let ret = s.pc.wrapping_sub(1);
    let sp1 = s.sp.wrapping_sub(1);
    assert(stack(s.sp) != stack(sp1));
    assert(((ret as int / 256) as u8 as int * 256 + (ret as int % 256) as u8 as int) as u16 == ret);
}

/// On the same core: an NMI followed by RTI comes back to the
/// interrupted PC with the stack pointer where it was and the status as
/// it was but with interrupts disabled.
pub proof fn law_core_interrupt_return(s: CoreView, m: Seq<u8>)
    requires
        m.len() == 0x10000,
    ensures
        ({
            let (s1, m1) = nmi_step(s, m);
            let s2 = rti_step(s1, m1);
            &&& s2.pc == s.pc
            &&& s2.sp == s.sp
            &&& s2.flags == with_flag(s.flags, FLAG_INTERRUPT, true)
        }),
{
    let sp1 = s.sp.wrapping_sub(1);
    let sp2 = sp1.wrapping_sub(1);
    assert(stack(s.sp) != stack(sp1) && stack(s.sp) != stack(sp2) && stack(sp1) != stack(sp2));
    assert(((s.pc as int / 256) as u8 as int * 256 + (s.pc as int % 256) as u8 as int) as u16 == s.pc);
}

/// On the same core: a byte pushed is the byte pulled next, and the
/// stack pointer comes back.
pub proof fn law_core_push_pull(s: CoreView, m: Seq<u8>, v: u8)
    requires
        m.len() == 0x10000,
    ensures
        ({
            let (s1, m1) = pushed(s, m, v);
            let (s2, r) = popped(s1, m1);
            &&& r == v
            &&& s2.sp == s.sp
        }),
{
}

/// On the same core: ADC leaves in A the sum of A, the operand and the
/// carry modulo 256, and sets the carry exactly when that sum passes
/// 255.
pub proof fn law_core_adc_sum(s: CoreView, v: u8)
    ensures
        ({
            let r = added(s, v);
            let sum = s.a as int + v as int + carry_in(s.flags) as int;
            &&& r.a as int == sum % 256
            &&& (r.flags & FLAG_CARRY != 0) == (sum > 255)
        }),
{
    let a = s.a as u16;
    let m = v as u16;
    let sum = a + m + carry_in(s.flags);
    let res = (sum % 256) as u8;
    let f1 = with_flag(s.flags, FLAG_CARRY, sum > 255);
    let f2 = with_flag(f1, FLAG_ZERO, res == 0);
    let f3 = with_nz(f1, res);
    lemma_distinct_flags();
    lemma_with_flag_same(s.flags, FLAG_CARRY, sum > 255);
    lemma_with_flag_other(f1, FLAG_ZERO, res == 0, FLAG_CARRY);
    lemma_with_flag_other(f2, FLAG_NEGATIVE, res & 0x80u8 != 0, FLAG_CARRY);
    lemma_with_flag_other(f3, FLAG_OVERFLOW, (a ^ m) & 0x80u16 == 0 && (a ^ (sum as u16)) & 0x80u16 != 0,
        FLAG_CARRY);
}

/// On the same core: SBC leaves in A the difference A - operand -
/// (1 - carry) modulo 256, and sets the carry exactly when that
/// difference does not borrow.
pub proof fn law_core_sbc_difference(s: CoreView, v: u8)
    ensures
        ({
            let r = added(s, !v);
            let diff = s.a as int - v as int - (1 - carry_in(s.flags) as int);
            &&& r.a as int == diff % 256
            &&& (r.flags & FLAG_CARRY != 0) == (diff >= 0)
        }),
{
    assert(!v == 255 - v) by (bit_vector);
    law_core_adc_sum(s, !v);
    let diff = s.a as int - v as int - (1 - carry_in(s.flags) as int);
    assert((diff + 256) % 256 == diff % 256);
}

/// On the same core: a load reads back what a store wrote at the same
/// effective address.
pub proof fn law_core_store_then_load(s: CoreView, t: CoreView, m: Seq<u8>)
    requires
        m.len() == 0x10000,
        t.addrabs == s.addrabs,
    ensures
        operand(t, wr(m, s.addrabs, s.a)) == s.a,
{
}

/// The zero and negative flags after `with_nz(g, v)`: zero set exactly
/// when `v` is 0, negative exactly when bit 7 of `v` is set.
proof fn lemma_nz(g: u8, v: u8)
    ensures
        (with_nz(g, v) & FLAG_ZERO != 0) == (v == 0),
        (with_nz(g, v) & FLAG_NEGATIVE != 0) == (v & 0x80 != 0),
{
    lemma_byte_arith(v, 0);
    lemma_with_flag_same(with_flag(g, FLAG_ZERO, v == 0), FLAG_NEGATIVE, v & 0x80u8 != 0);
    lemma_with_flag_other(with_flag(g, FLAG_ZERO, v == 0), FLAG_NEGATIVE, v & 0x80u8 != 0, FLAG_ZERO);
    lemma_with_flag_same(g, FLAG_ZERO, v == 0);
}

/// The logic operations: AND, EOR and ORA leave in A the bitwise and,
/// exclusive-or and or of the old A and the operand, set zero exactly
/// when that result is 0 and negative exactly when its bit 7 is set, and
/// leave memory alone (so EOR with $FF complements A).
#[verifier::rlimit(60)]
#[verifier::spinoff_prover]
pub proof fn law_logic_operations(s: CpuView, m: Seq<u8>)
    ensures
        op_step(Instruction::AND, s, m).0.a == s.a & s.immval,
        op_step(Instruction::EOR, s, m).0.a == s.a ^ s.immval,
        op_step(Instruction::ORA, s, m).0.a == s.a | s.immval,
        (op_step(Instruction::AND, s, m).0.flags & FLAG_ZERO != 0) == (s.a & s.immval == 0),
        (op_step(Instruction::EOR, s, m).0.flags & FLAG_ZERO != 0) == (s.a ^ s.immval == 0),
        (op_step(Instruction::ORA, s, m).0.flags & FLAG_ZERO != 0) == (s.a | s.immval == 0),
        (op_step(Instruction::AND, s, m).0.flags & FLAG_NEGATIVE != 0) == ((s.a & s.immval) & 0x80 != 0),
        (op_step(Instruction::EOR, s, m).0.flags & FLAG_NEGATIVE != 0) == ((s.a ^ s.immval) & 0x80 != 0),
        (op_step(Instruction::ORA, s, m).0.flags & FLAG_NEGATIVE != 0) == ((s.a | s.immval) & 0x80 != 0),
        op_step(Instruction::AND, s, m).1 == m,
        op_step(Instruction::EOR, s, m).1 == m,
        op_step(Instruction::ORA, s, m).1 == m,
{
    lemma_nz(s.flags, s.a & s.immval);
    lemma_nz(s.flags, s.a ^ s.immval);
    lemma_nz(s.flags, s.a | s.immval);
}

/// EOR immediate takes the byte after the opcode and leaves A as the
/// exclusive-or of the old A and that byte; EOR #$FF complements A.
pub proof fn law_eor_immediate(s: CpuView, m: Seq<u8>, cycles: u8)
    ensures
        instruction_step(AddressModes::Immediate, Instruction::EOR, cycles, s, m).0.a == s.a ^ rd(m, s.pc),
        rd(m, s.pc) == 0xFF ==> instruction_step(AddressModes::Immediate, Instruction::EOR, cycles, s, m).0.a
            == !s.a,
{
    let a = s.a;
    lemma_byte_arith(a, 0);
}

/// The carry flag after `with_nz(with_flag(g, FLAG_CARRY, c), v)` is `c`.
proof fn lemma_carry_kept(g: u8, c: bool, v: u8)
    ensures
        (with_nz(with_flag(g, FLAG_CARRY, c), v) & FLAG_CARRY != 0) == c,
{
    lemma_byte_arith(v, 0);
    let g1 = with_flag(g, FLAG_CARRY, c);
    lemma_with_flag_same(g, FLAG_CARRY, c);
    lemma_with_flag_other(g1, FLAG_ZERO, v == 0, FLAG_CARRY);
    lemma_with_flag_other(with_flag(g1, FLAG_ZERO, v == 0), FLAG_NEGATIVE, v & 0x80u8 != 0, FLAG_CARRY);
}

/// Shifts and rotates of the accumulator, in arithmetic terms: ASL
/// doubles A (mod 256) and carries out its bit 7; LSR halves A and
/// carries out its bit 0; ROL doubles A and adds the old carry; ROR
/// halves A and puts the old carry in bit 7. Zero and negative follow the
/// result.
#[verifier::rlimit(60)]
#[verifier::spinoff_prover]
pub proof fn law_shift_accumulator(s: CpuView, m: Seq<u8>)
    ensures
        ({
            let c = if s.flags & FLAG_CARRY != 0 { 1int } else { 0 };
            let asl = op_step(Instruction::ASL, CpuView { current_opcode: 0x0A, ..s }, m).0;
            let lsr = op_step(Instruction::LSR, CpuView { current_opcode: 0x4A, ..s }, m).0;
            let rol = op_step(Instruction::ROL, CpuView { current_opcode: 0x2A, ..s }, m).0;
            let ror = op_step(Instruction::ROR, CpuView { current_opcode: 0x6A, ..s }, m).0;
            &&& asl.a as int == (s.a as int * 2) % 256 && (asl.flags & FLAG_CARRY != 0) == (s.a >= 128)
            &&& lsr.a as int == s.a as int / 2 && (lsr.flags & FLAG_CARRY != 0) == (s.a % 2 == 1)
            &&& rol.a as int == (s.a as int * 2 + c) % 256 && (rol.flags & FLAG_CARRY != 0) == (s.a >= 128)
            &&& ror.a as int == s.a as int / 2 + 128 * c && (ror.flags & FLAG_CARRY != 0) == (s.a % 2 == 1)
            &&& (asl.flags & FLAG_ZERO != 0) == (asl.a == 0) && (asl.flags & FLAG_NEGATIVE != 0) == (asl.a >= 128)
            &&& (ror.flags & FLAG_ZERO != 0) == (ror.a == 0) && (ror.flags & FLAG_NEGATIVE != 0) == (ror.a >= 128)
        }),
{
    let a = s.a;
    let cb: u8 = if s.flags & FLAG_CARRY != 0 { 1 } else { 0 };
    let ch: u8 = if s.flags & FLAG_CARRY != 0 { 0x80 } else { 0 };
    lemma_byte_arith(a, cb);
    lemma_byte_arith(a, ch);
    lemma_byte_arith(a << 1u8, 0);
    lemma_shift_left_in(a, cb);
    lemma_shift_left_in(a, 0);
    lemma_byte_masks(a);
    let v1 = a << 1u8;
    let v2 = (a >> 1u8) | ch;
    lemma_byte_masks(v1);
    lemma_byte_masks(v2);
    lemma_nz(with_flag(s.flags, FLAG_CARRY, a & 0x80u8 != 0), v1);
    lemma_nz(with_flag(s.flags, FLAG_CARRY, a & 0x01u8 != 0), v2);
    lemma_carry_kept(s.flags, a & 0x80u8 != 0, v1);
    lemma_carry_kept(s.flags, a & 0x01u8 != 0, a >> 1u8);
    lemma_carry_kept(s.flags, a & 0x80u8 != 0, (a << 1u8) | cb);
    lemma_carry_kept(s.flags, a & 0x01u8 != 0, v2);
}

/// Shifts and rotates of memory write their result back to the effective
/// address: ASL writes double the operand, LSR half of it, ROL double it
/// plus the old carry, ROR half of it with the old carry in bit 7.
#[verifier::rlimit(60)]
#[verifier::spinoff_prover]
pub proof fn law_shift_memory(s: CpuView, m: Seq<u8>)
    requires
        s.current_opcode != 0x0A && s.current_opcode != 0x4A && s.current_opcode != 0x2A && s.current_opcode != 0x6A,
    ensures
        ({
            let v = s.immval as int;
            let c = if s.flags & FLAG_CARRY != 0 { 1int } else { 0 };
            &&& op_step(Instruction::ASL, s, m).1 == wr(m, s.abs_addr, ((v * 2) % 256) as u8)
            &&& op_step(Instruction::LSR, s, m).1 == wr(m, s.abs_addr, (v / 2) as u8)
            &&& op_step(Instruction::ROL, s, m).1 == wr(m, s.abs_addr, ((v * 2 + c) % 256) as u8)
            &&& op_step(Instruction::ROR, s, m).1 == wr(m, s.abs_addr, (v / 2 + 128 * c) as u8)
        }),
{
    let a = s.immval;
    let cb: u8 = if s.flags & FLAG_CARRY != 0 { 1 } else { 0 };
    let ch: u8 = if s.flags & FLAG_CARRY != 0 { 0x80 } else { 0 };
    lemma_byte_arith(a, cb);
    lemma_byte_arith(a, ch);
    lemma_byte_arith(a << 1u8, 0);
    lemma_shift_left_in(a, cb);
    lemma_shift_left_in(a, 0);
}

/// Increments and decrements count modulo 256 and set zero and negative
/// from the result: INC and DEC write the operand plus or minus one back
/// to the effective address; INX, DEX and DEY step their register. INY
/// loads Y with X plus one, as this core does.
#[verifier::rlimit(40)]
pub proof fn law_increment_decrement(s: CpuView, m: Seq<u8>)
    ensures
        op_step(Instruction::INC, s, m).1 == wr(m, s.abs_addr, ((s.immval as int + 1) % 256) as u8),
        op_step(Instruction::DEC, s, m).1 == wr(m, s.abs_addr, ((s.immval as int + 255) % 256) as u8),
        op_step(Instruction::INX, s, m).0.x as int == (s.x as int + 1) % 256,
        op_step(Instruction::DEX, s, m).0.x as int == (s.x as int + 255) % 256,
        op_step(Instruction::DEY, s, m).0.y as int == (s.y as int + 255) % 256,
        op_step(Instruction::INY, s, m).0.y as int == (s.x as int + 1) % 256,
        (op_step(Instruction::INX, s, m).0.flags & FLAG_ZERO != 0) == (s.x == 255),
        (op_step(Instruction::DEX, s, m).0.flags & FLAG_ZERO != 0) == (s.x == 1),
        (op_step(Instruction::DEY, s, m).0.flags & FLAG_NEGATIVE != 0) == (s.y == 0 || s.y > 128),
        (op_step(Instruction::INC, s, m).0.flags & FLAG_ZERO != 0) == (s.immval == 255),
{
    lemma_nz(s.flags, s.x.wrapping_add(1));
    lemma_nz(s.flags, s.x.wrapping_sub(1));
    lemma_nz(s.flags, s.y.wrapping_sub(1));
    lemma_nz(s.flags, s.immval.wrapping_add(1));
    let y = s.y;
    lemma_byte_arith(y, 0);
}

/// Loads and transfers copy their source into the destination register,
/// stores write the register to the effective address, and the stack
/// pointer transfers leave the flags alone (TXS) or set them (TSX).
pub proof fn law_loads_stores_transfers(s: CpuView, m: Seq<u8>)
    ensures
        op_step(Instruction::LDA, s, m).0.a == s.immval,
        op_step(Instruction::LDX, s, m).0.x == s.immval,
        op_step(Instruction::LDY, s, m).0.y == s.immval,
        op_step(Instruction::STA, s, m).1 == wr(m, s.abs_addr, s.a),
        op_step(Instruction::STX, s, m).1 == wr(m, s.abs_addr, s.x),
        op_step(Instruction::STY, s, m).1 == wr(m, s.abs_addr, s.y),
        op_step(Instruction::TAX, s, m).0.x == s.a,
        op_step(Instruction::TAY, s, m).0.y == s.a,
        op_step(Instruction::TXA, s, m).0.a == s.x,
        op_step(Instruction::TYA, s, m).0.a == s.y,
        op_step(Instruction::TSX, s, m).0.x == s.sp,
        op_step(Instruction::TXS, s, m).0.sp == s.x,
        op_step(Instruction::TXS, s, m).0.flags == s.flags,
        (op_step(Instruction::LDA, s, m).0.flags & FLAG_ZERO != 0) == (s.immval == 0),
        (op_step(Instruction::LDA, s, m).0.flags & FLAG_NEGATIVE != 0) == (s.immval >= 128),
{
    lemma_nz(s.flags, s.immval);
    let v = s.immval;
    lemma_byte_masks(v);
}

/// What a conditional branch from `s` leaves when `taken` or not: a taken
/// branch sets the target to PC plus the offset (mod $10000), keeps PC
/// and costs at least one more cycle; one not taken changes nothing;
/// memory stays.
pub open spec fn branched_as(r: (CpuView, Seq<u8>), s: CpuView, m: Seq<u8>, taken: bool) -> bool {
    &&& r.1 == m
    &&& taken ==> r.0.abs_addr == ((s.pc as int + s.relval as int) % 0x10000) as u16
        && r.0.extra_cycles > s.extra_cycles && r.0.pc == s.pc
    &&& !taken ==> r.0 == s
}

/// Each conditional branch is taken exactly on its flag condition.
pub proof fn law_branches(s: CpuView, m: Seq<u8>)
    requires
        s.extra_cycles <= 4,
    ensures
        branched_as(op_step(Instruction::BCC, s, m), s, m, s.flags & FLAG_CARRY == 0),
        branched_as(op_step(Instruction::BCS, s, m), s, m, s.flags & FLAG_CARRY != 0),
        branched_as(op_step(Instruction::BEQ, s, m), s, m, s.flags & FLAG_ZERO != 0),
        branched_as(op_step(Instruction::BNE, s, m), s, m, s.flags & FLAG_ZERO == 0),
        branched_as(op_step(Instruction::BMI, s, m), s, m, s.flags & FLAG_NEGATIVE != 0),
        branched_as(op_step(Instruction::BPL, s, m), s, m, s.flags & FLAG_NEGATIVE == 0),
        branched_as(op_step(Instruction::BVS, s, m), s, m, s.flags & FLAG_OVERFLOW != 0),
        branched_as(op_step(Instruction::BVC, s, m), s, m, s.flags & FLAG_OVERFLOW == 0),
{
}

/// The flag instructions set or clear exactly their flag.
pub proof fn law_flag_instructions(s: CpuView, m: Seq<u8>)
    ensures
        (op_step(Instruction::SEC, s, m).0.flags & FLAG_CARRY != 0),
        (op_step(Instruction::CLC, s, m).0.flags & FLAG_CARRY == 0),
        (op_step(Instruction::SEI, s, m).0.flags & FLAG_INTERRUPT != 0),
        (op_step(Instruction::CLI, s, m).0.flags & FLAG_INTERRUPT == 0),
        (op_step(Instruction::CLV, s, m).0.flags & FLAG_OVERFLOW == 0),
        op_step(Instruction::SEC, s, m).0.flags & !FLAG_CARRY == s.flags & !FLAG_CARRY,
        op_step(Instruction::CLC, s, m).0.flags & !FLAG_CARRY == s.flags & !FLAG_CARRY,
{
    lemma_with_flag_same(s.flags, FLAG_CARRY, true);
    lemma_with_flag_same(s.flags, FLAG_CARRY, false);
    lemma_with_flag_same(s.flags, FLAG_INTERRUPT, true);
    lemma_with_flag_same(s.flags, FLAG_INTERRUPT, false);
    lemma_with_flag_same(s.flags, FLAG_OVERFLOW, false);
    let g = s.flags;
    lemma_byte_arith(g, 0);
}

/// JSR writes the address of its last byte (PC - 1), high byte first,
/// at the stack pointer and the byte below, and jumps to the effective
/// address; this core takes only one from the stack pointer.
pub proof fn law_jsr_pushes_return(s: CpuView, m: Seq<u8>)
    requires
        m.len() == 0x10000,
    ensures
        ({
            let (t, m2) = op_step(Instruction::JSR, s, m);
            let ret = (s.pc as int + 0xFFFF) % 0x10000;
            &&& t.pc == s.abs_addr
            &&& t.sp as int == (s.sp as int + 255) % 256
            &&& m2[0x100 + s.sp as int] as int == ret / 256
            &&& m2[0x100 + (s.sp as int + 255) % 256] as int == ret % 256
        }),
{
    let sp1 = s.sp.wrapping_sub(1);
    let r16 = s.pc.wrapping_sub(1);
    assert(r16 as int == (s.pc as int + 0xFFFF) % 0x10000);
    assert(stack(s.sp) as int == 0x100 + s.sp as int);
    assert(stack(sp1) as int == 0x100 + (s.sp as int + 255) % 256);
    assert(stack(s.sp) != stack(sp1));
    let m1 = wr(m, stack(s.sp), (r16 as int / 256) as u8);
    let m2 = wr(m1, stack(sp1), (r16 as int % 256) as u8);
    assert(m2[0x100 + s.sp as int] == m1[0x100 + s.sp as int]);
}

/// A non-maskable interrupt pushes PC (high byte first) at the stack
/// pointer and the byte below, takes two from the stack pointer, sets the
/// interrupt-disable flag and clears break, loads PC from the vector at
/// $FFFA-$FFFB (low byte first) and leaves eight cycles to spend.
pub proof fn law_nmi_enters_vector(s: CpuView, m: Seq<u8>)
    requires
        m.len() == 0x10000,
    ensures
        ({
            let (t, m2) = super::processor::nmi_step(s, m);
            &&& t.pc as int == m[0xFFFA] as int + 256 * m[0xFFFB] as int
            &&& t.sp as int == (s.sp as int + 254) % 256
            &&& m2[0x100 + s.sp as int] as int == s.pc as int / 256
            &&& m2[0x100 + (s.sp as int + 255) % 256] as int == s.pc as int % 256
            &&& t.flags & FLAG_INTERRUPT != 0
            &&& t.flags & 0x10 == 0
            &&& t.cycles_left == 8
        }),
{
    let sp1 = s.sp.wrapping_sub(1);
    assert(stack(s.sp) as int == 0x100 + s.sp as int);
    assert(stack(sp1) as int == 0x100 + (s.sp as int + 255) % 256);
    let f1 = with_flag(s.flags, 0x10, false);
    lemma_with_flag_same(f1, FLAG_INTERRUPT, true);
    lemma_byte_arith(0x10u8, 0);
    lemma_with_flag_other(f1, FLAG_INTERRUPT, true, 0x10);
    lemma_with_flag_same(s.flags, 0x10, false);
}

/// A reset loads PC from the vector at $FFFC-$FFFD (low byte first),
/// clears A, X and Y, puts the stack pointer at $FD and the status at
/// $20, and clears the cycle counts.
pub proof fn law_reset_enters_vector(s: CpuView, m: Seq<u8>)
    requires
        m.len() == 0x10000,
    ensures
        ({
            let t = super::processor::reset_step(s, m);
            &&& t.pc as int == m[0xFFFC] as int + 256 * m[0xFFFD] as int
            &&& t.a == 0 && t.x == 0 && t.y == 0
            &&& t.sp == 0xFD
            &&& t.flags == 0x20
            &&& t.cycles_left == 0 && t.total_cycles == 0
        }),
{
}

/// A clock that starts an instruction runs it whole: with opcode $A9 (LDA
/// immediate) or $49 (EOR immediate) at PC and no cycles left, A becomes
/// the next byte, or the old A exclusive-or the next byte; PC moves past
/// both bytes; of the instruction's two cycles one is left.
pub proof fn law_clock_immediate_logic(s: CpuView, m: Seq<u8>)
    requires
        s.cycles_left == 0,
        m.len() == 0x10000,
    ensures
        ({
            let (t, m2) = super::processor::clock_step(s, m);
            let operand = m[(s.pc as int + 1) % 0x10000];
            &&& m[s.pc as int] == 0xA9 ==> t.a == operand
            &&& m[s.pc as int] == 0x49 ==> t.a == s.a ^ operand
            &&& (m[s.pc as int] == 0xA9 || m[s.pc as int] == 0x49) ==> t.pc as int == (s.pc as int + 2) % 0x10000
                && t.cycles_left == 1 && m2 == m
        }),
{
    let pc1 = s.pc.wrapping_add(1);
    assert(pc1 as int == (s.pc as int + 1) % 0x10000);
}

/// The second core's compare and shifts: a compare sets carry exactly
/// when the register is at least the operand and zero exactly when they
/// are equal; a left shift or rotate carries out bit 7 and doubles the
/// value (adding the old carry on a rotate); a right one carries out bit 0
/// and halves it (the old carry into bit 7 on a rotate).
#[verifier::rlimit(40)]
pub proof fn law_core_compare_and_shifts(flags: u8, reg: u8, v: u8, rotate: bool)
    ensures
        (compared(flags, reg, v) & FLAG_CARRY != 0) == (reg >= v),
        (compared(flags, reg, v) & FLAG_ZERO != 0) == (reg == v),
        ({
            let c = if rotate && flags & FLAG_CARRY != 0 { 1int } else { 0 };
            let (l, lf) = shifted_left(flags, v, rotate);
            let (r, rf) = shifted_right(flags, v, rotate);
            &&& l as int == (v as int * 2) % 256 + c
            &&& (lf & FLAG_CARRY != 0) == (v & 0x80 != 0)
            &&& r as int == v as int / 2 + 128 * c
            &&& (rf & FLAG_CARRY != 0) == (v & 0x01 != 0)
        }),
{
    lemma_byte_masks(v);
    let t = reg.wrapping_sub(v);
    lemma_byte_arith(t, 0);
    let f1 = with_flag(flags, FLAG_CARRY, reg >= v);
    lemma_with_flag_same(flags, FLAG_CARRY, reg >= v);
    lemma_with_flag_other(f1, FLAG_ZERO, t == 0, FLAG_CARRY);
    let f2 = with_flag(f1, FLAG_ZERO, t == 0);
    lemma_with_flag_same(f1, FLAG_ZERO, t == 0);
    lemma_with_flag_other(f2, FLAG_NEGATIVE, t & 0x80u8 != 0, FLAG_CARRY);
    lemma_with_flag_other(f2, FLAG_NEGATIVE, t & 0x80u8 != 0, FLAG_ZERO);
    let (l, lf) = shifted_left(flags, v, rotate);
    let (r, rf) = shifted_right(flags, v, rotate);
    lemma_carry_kept(flags, v >= 128, l);
    lemma_carry_kept(flags, v % 2 == 1, r);
}

} // verus!
