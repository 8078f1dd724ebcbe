use nes_emu::cpu::Cpu;
use nes_emu::nes::bus::Bus;

fn poke(bus: &mut Bus, address: u16, bytes: &[u8]) {
    for (i, b) in bytes.iter().enumerate() {
        bus.cpu_write(address + i as u16, *b);
    }
}

fn peek(bus: &Bus, address: u16) -> u8 {
    bus.cpu_read(address).unwrap()
}

#[test]
fn core_new_pushes_unused_status() {
    let mut bus = Bus::new();
    let mut cpu = Cpu::new();
    cpu.php(&mut bus);
    assert_eq!(peek(&bus, 0x01FD), 0x20);
}

#[test]
fn core_store_then_load_reads_back() {
    let mut bus = Bus::new();
    let mut cpu = Cpu::new();
    // operands at $8000..: zero page $10, zero page $20
    poke(&mut bus, 0x8000, &[0x10, 0x20]);
    poke(&mut bus, 0x0010, &[0x42]);
    cpu.zeropage(&bus);
    cpu.lda(&bus);
    cpu.zeropage(&bus);
    cpu.sta(&mut bus);
    assert_eq!(peek(&bus, 0x0020), 0x42);
}

#[test]
fn core_adc_wraps_and_sets_carry_and_zero() {
    let mut bus = Bus::new();
    let mut cpu = Cpu::new();
    poke(&mut bus, 0x8000, &[0xFF, 0x01, 0x30]);
    cpu.immediate();
    cpu.lda(&bus);
    cpu.immediate();
    cpu.adc(&bus);
    cpu.zeropage(&bus);
    cpu.sta(&mut bus);
    assert_eq!(peek(&bus, 0x0030), 0x00);
    cpu.php(&mut bus);
    // unused, zero and carry
    assert_eq!(peek(&bus, 0x01FD), 0x23);
}

#[test]
fn core_adc_signed_overflow() {
    let mut bus = Bus::new();
    let mut cpu = Cpu::new();
    poke(&mut bus, 0x8000, &[0x50, 0x50, 0x30]);
    cpu.immediate();
    cpu.lda(&bus);
    cpu.immediate();
    cpu.adc(&bus);
    cpu.zeropage(&bus);
    cpu.sta(&mut bus);
    assert_eq!(peek(&bus, 0x0030), 0xA0);
    cpu.php(&mut bus);
    // unused, overflow and negative
    assert_eq!(peek(&bus, 0x01FD), 0xE0);
}

#[test]
fn core_sbc_borrows_without_carry() {
    let mut bus = Bus::new();
    let mut cpu = Cpu::new();
    poke(&mut bus, 0x8000, &[0x05, 0x03, 0x30]);
    cpu.immediate();
    cpu.lda(&bus);
    cpu.immediate();
    // carry clear: 5 - 3 - 1
    cpu.sbc(&bus);
    cpu.zeropage(&bus);
    cpu.sta(&mut bus);
    assert_eq!(peek(&bus, 0x0030), 0x01);
    cpu.php(&mut bus);
    assert_eq!(peek(&bus, 0x01FD), 0x21);
}

#[test]
fn core_jsr_then_rts_returns() {
    let mut bus = Bus::new();
    let mut cpu = Cpu::new();
    // $8000: absolute $9000; at the return point $8002, zero page $40
    poke(&mut bus, 0x8000, &[0x00, 0x90, 0x40]);
    poke(&mut bus, 0x0040, &[0x77]);
    cpu.absolute(&bus);
    cpu.jsr(&mut bus);
    assert_eq!(peek(&bus, 0x01FD), 0x80);
    assert_eq!(peek(&bus, 0x01FC), 0x01);
    cpu.rts(&bus);
    // PC is back at $8002
    cpu.zeropage(&bus);
    cpu.lda(&bus);
    cpu.pha(&mut bus);
    // the stack pointer is back at $FD, so PHA writes there
    assert_eq!(peek(&bus, 0x01FD), 0x77);
}

#[test]
fn core_nmi_then_rti_returns() {
    let mut bus = Bus::new();
    let mut cpu = Cpu::new();
    poke(&mut bus, 0xFFFA, &[0x00, 0xC0]);
    cpu.nmi(&mut bus);
    assert_eq!(peek(&bus, 0x01FD), 0x80);
    assert_eq!(peek(&bus, 0x01FC), 0x00);
    assert_eq!(peek(&bus, 0x01FB), 0x24);
    // PC is at $C000 now
    poke(&mut bus, 0xC000, &[0x99]);
    cpu.immediate();
    cpu.lda(&bus);
    cpu.rti(&bus);
    // back at $8000, status with interrupts disabled
    cpu.immediate();
    cpu.sta(&mut bus);
    assert_eq!(peek(&bus, 0x8000), 0x99);
    cpu.php(&mut bus);
    assert_eq!(peek(&bus, 0x01FD), 0x24);
}

#[test]
fn core_push_then_pull() {
    let mut bus = Bus::new();
    let mut cpu = Cpu::new();
    poke(&mut bus, 0x8000, &[0x5A, 0x00, 0x31]);
    cpu.immediate();
    cpu.lda(&bus);
    cpu.pha(&mut bus);
    cpu.immediate();
    cpu.lda(&bus);
    cpu.pla(&bus);
    cpu.zeropage(&bus);
    cpu.sta(&mut bus);
    assert_eq!(peek(&bus, 0x0031), 0x5A);
}

#[test]
fn core_reset_reads_vector() {
    let mut bus = Bus::new();
    let mut cpu = Cpu::new();
    poke(&mut bus, 0xFFFC, &[0x34, 0x12]);
    poke(&mut bus, 0x1234, &[0x80]);
    cpu.reset(&bus);
    cpu.immediate();
    cpu.lda(&bus);
    cpu.php(&mut bus);
    // the byte at $1234 is negative; the status was cleared by the reset
    assert_eq!(peek(&bus, 0x01FD), 0x80);
}

#[test]
fn core_indirect_wraps_within_page() {
    let mut bus = Bus::new();
    let mut cpu = Cpu::new();
    poke(&mut bus, 0x8000, &[0xFF, 0x10]);
    poke(&mut bus, 0x10FF, &[0x34]);
    poke(&mut bus, 0x1000, &[0x12]);
    poke(&mut bus, 0x1100, &[0x99]);
    cpu.indirect(&bus);
    cpu.jmp();
    // PC is $1234
    poke(&mut bus, 0x1234, &[0x66]);
    cpu.immediate();
    cpu.lda(&bus);
    cpu.php(&mut bus);
    // negative clear, zero clear: the byte came from $1234
    assert_eq!(peek(&bus, 0x01FD), 0x20);
}

#[test]
fn core_zeropage_x_wraps() {
    let mut bus = Bus::new();
    let mut cpu = Cpu::new();
    poke(&mut bus, 0x8000, &[0x02, 0xF0, 0xFF]);
    cpu.immediate();
    cpu.ldx(&bus);
    cpu.zeropagex(&bus);
    cpu.stx(&mut bus);
    // $F0 + 2 stays on page zero
    assert_eq!(peek(&bus, 0x00F2), 0x02);
    cpu.zeropagex(&bus);
    cpu.stx(&mut bus);
    assert_eq!(peek(&bus, 0x0001), 0x02);
}

#[test]
fn core_indexed_indirect_and_indirect_indexed() {
    let mut bus = Bus::new();
    let mut cpu = Cpu::new();
    poke(&mut bus, 0x8000, &[0x04, 0x20, 0x03, 0x40]);
    poke(&mut bus, 0x0024, &[0x00, 0x30]);
    poke(&mut bus, 0x0040, &[0xF0, 0x30]);
    cpu.immediate();
    cpu.ldx(&bus);
    cpu.idx(&bus);
    cpu.stx(&mut bus);
    assert_eq!(peek(&bus, 0x3000), 0x04);
    cpu.immediate();
    cpu.ldy(&bus);
    cpu.idy(&bus);
    cpu.sty(&mut bus);
    // $30F0 + 3
    assert_eq!(peek(&bus, 0x30F3), 0x03);
}

#[test]
fn core_branch_taken_moves_pc() {
    let mut bus = Bus::new();
    let mut cpu = Cpu::new();
    // relative offset -2 at $8000: after it PC is $8001, target $7FFF
    poke(&mut bus, 0x8000, &[0xFE]);
    poke(&mut bus, 0x7FFF, &[0x80]);
    cpu.relative(&bus);
    // zero flag is clear after new
    cpu.bne();
    cpu.immediate();
    cpu.lda(&bus);
    cpu.php(&mut bus);
    assert_eq!(peek(&bus, 0x01FD), 0xA0);
}

#[test]
fn core_branch_not_taken_keeps_pc() {
    let mut bus = Bus::new();
    let mut cpu = Cpu::new();
    poke(&mut bus, 0x8000, &[0x10, 0x55]);
    cpu.relative(&bus);
    cpu.beq();
    cpu.immediate();
    cpu.lda(&bus);
    cpu.pha(&mut bus);
    assert_eq!(peek(&bus, 0x01FD), 0x55);
}

#[test]
fn core_asl_memory_sets_carry() {
    let mut bus = Bus::new();
    let mut cpu = Cpu::new();
    poke(&mut bus, 0x8000, &[0x10]);
    poke(&mut bus, 0x0010, &[0x81]);
    cpu.zeropage(&bus);
    cpu.asl(&mut bus);
    assert_eq!(peek(&bus, 0x0010), 0x02);
    cpu.php(&mut bus);
    assert_eq!(peek(&bus, 0x01FD), 0x21);
}

#[test]
fn core_rotates_through_carry() {
    let mut bus = Bus::new();
    let mut cpu = Cpu::new();
    poke(&mut bus, 0x8000, &[0x10]);
    poke(&mut bus, 0x0010, &[0x01]);
    cpu.zeropage(&bus);
    // bit 0 into carry
    cpu.ror(&mut bus);
    assert_eq!(peek(&bus, 0x0010), 0x00);
    // carry into bit 0
    cpu.rol(&mut bus);
    assert_eq!(peek(&bus, 0x0010), 0x01);
    cpu.lsr(&mut bus);
    assert_eq!(peek(&bus, 0x0010), 0x00);
}

#[test]
fn core_inc_dec_memory() {
    let mut bus = Bus::new();
    let mut cpu = Cpu::new();
    poke(&mut bus, 0x8000, &[0x10]);
    poke(&mut bus, 0x0010, &[0xFF]);
    cpu.zeropage(&bus);
    cpu.inc(&mut bus);
    assert_eq!(peek(&bus, 0x0010), 0x00);
    cpu.dec(&mut bus);
    cpu.dec(&mut bus);
    assert_eq!(peek(&bus, 0x0010), 0xFE);
}

#[test]
fn core_compare_sets_carry_and_zero() {
    let mut bus = Bus::new();
    let mut cpu = Cpu::new();
    poke(&mut bus, 0x8000, &[0x40, 0x40]);
    cpu.immediate();
    cpu.lda(&bus);
    cpu.immediate();
    cpu.cmp(&bus);
    cpu.php(&mut bus);
    assert_eq!(peek(&bus, 0x01FD), 0x23);
}

#[test]
fn core_bit_copies_bits_six_and_seven() {
    let mut bus = Bus::new();
    let mut cpu = Cpu::new();
    poke(&mut bus, 0x8000, &[0xC0]);
    cpu.immediate();
    cpu.bit(&bus);
    cpu.php(&mut bus);
    // A is zero: zero, overflow and negative set
    assert_eq!(peek(&bus, 0x01FD), 0xE2);
}

#[test]
fn core_transfers() {
    let mut bus = Bus::new();
    let mut cpu = Cpu::new();
    poke(&mut bus, 0x8000, &[0x80, 0x50]);
    cpu.immediate();
    cpu.lda(&bus);
    cpu.tax();
    cpu.inx();
    cpu.txa();
    cpu.tay();
    cpu.iny();
    cpu.tya();
    cpu.zeropage(&bus);
    cpu.sta(&mut bus);
    assert_eq!(peek(&bus, 0x0050), 0x82);
    cpu.tsx();
    cpu.dex();
    cpu.txs();
    cpu.pha(&mut bus);
    assert_eq!(peek(&bus, 0x01FC), 0x82);
}

#[test]
fn core_unofficial_lax_and_sax() {
    let mut bus = Bus::new();
    let mut cpu = Cpu::new();
    poke(&mut bus, 0x8000, &[0x10, 0x11]);
    poke(&mut bus, 0x0010, &[0x3C]);
    cpu.zeropage(&bus);
    cpu.lax(&bus);
    cpu.zeropage(&bus);
    cpu.sax(&mut bus);
    assert_eq!(peek(&bus, 0x0011), 0x3C);
}

#[test]
fn core_unofficial_dcp_and_isc() {
    let mut bus = Bus::new();
    let mut cpu = Cpu::new();
    poke(&mut bus, 0x8000, &[0x10]);
    poke(&mut bus, 0x0010, &[0x01]);
    cpu.zeropage(&bus);
    // memory 1 -> 0, compared with A = 0: equal
    cpu.dcp(&mut bus);
    assert_eq!(peek(&bus, 0x0010), 0x00);
    cpu.php(&mut bus);
    assert_eq!(peek(&bus, 0x01FD), 0x23);
    // memory 0 -> 1, A = 0 - 1 - 0 with carry set
    cpu.isc(&mut bus);
    assert_eq!(peek(&bus, 0x0010), 0x01);
    cpu.sta(&mut bus);
    assert_eq!(peek(&bus, 0x0010), 0xFF);
}

#[test]
fn core_unofficial_shift_combinations() {
    let mut bus = Bus::new();
    let mut cpu = Cpu::new();
    poke(&mut bus, 0x8000, &[0x10, 0x20, 0x30, 0x40]);
    poke(&mut bus, 0x0010, &[0x81]);
    poke(&mut bus, 0x0020, &[0x03]);
    poke(&mut bus, 0x0030, &[0x40]);
    poke(&mut bus, 0x0040, &[0x02]);
    // SLO: $81 << 1 = $02, carry set; A = 0 | 2
    cpu.zeropage(&bus);
    cpu.slo(&mut bus);
    assert_eq!(peek(&bus, 0x0010), 0x02);
    // SRE: $03 >> 1 = $01, carry set; A = 2 ^ 1
    cpu.zeropage(&bus);
    cpu.sre(&mut bus);
    assert_eq!(peek(&bus, 0x0020), 0x01);
    // RLA: $40 << 1 | carry = $81; A = 3 & $81
    cpu.zeropage(&bus);
    cpu.rla(&mut bus);
    assert_eq!(peek(&bus, 0x0030), 0x81);
    // RRA: $02 >> 1 = $01 (carry clear before, bit 0 clear): A = 1 + 1
    cpu.zeropage(&bus);
    cpu.rra(&mut bus);
    assert_eq!(peek(&bus, 0x0040), 0x01);
    cpu.sta(&mut bus);
    assert_eq!(peek(&bus, 0x0040), 0x02);
}

#[test]
fn core_unofficial_magic_constant_ops() {
    let mut bus = Bus::new();
    let mut cpu = Cpu::new();
    poke(&mut bus, 0x8000, &[0xFF, 0x0F, 0x50]);
    cpu.immediate();
    // A and X = ($00 | $EE) & $FF
    cpu.lxa(&bus);
    cpu.immediate();
    // X = (A & X) - $0F = $EE - $0F
    cpu.sbx(&bus);
    cpu.zeropage(&bus);
    cpu.stx(&mut bus);
    assert_eq!(peek(&bus, 0x0050), 0xDF);
    cpu.ane(&bus);
    cpu.sta(&mut bus);
    // A = ($EE | $EE) & $DF & $DF
    assert_eq!(peek(&bus, 0x0050), 0xCE);
}

#[test]
fn core_unofficial_las_and_jam() {
    let mut bus = Bus::new();
    let mut cpu = Cpu::new();
    poke(&mut bus, 0x8000, &[0x0F]);
    cpu.immediate();
    // stack pointer $FD & $0F
    cpu.las(&bus);
    cpu.pha(&mut bus);
    assert_eq!(peek(&bus, 0x010D), 0x0D);
    cpu.jam();
    cpu.immediate();
    cpu.sta(&mut bus);
    assert_eq!(peek(&bus, 0x8000), 0x0D);
}

#[test]
fn core_modes_without_operand() {
    let mut cpu = Cpu::new();
    cpu.implicit();
    cpu.accumulator();
    let mut bus = Bus::new();
    cpu.php(&mut bus);
    assert_eq!(peek(&bus, 0x01FD), 0x20);
}

#[test]
fn core_absolute_indexed() {
    let mut bus = Bus::new();
    let mut cpu = Cpu::new();
    poke(&mut bus, 0x8000, &[0x01, 0xFF, 0xFF, 0x02, 0x10, 0x20]);
    cpu.immediate();
    cpu.ldx(&bus);
    cpu.absolutex(&bus);
    // $FFFF + 1 wraps to $0000
    cpu.stx(&mut bus);
    assert_eq!(peek(&bus, 0x0000), 0x01);
    cpu.immediate();
    cpu.ldy(&bus);
    cpu.absolutey(&bus);
    cpu.sty(&mut bus);
    assert_eq!(peek(&bus, 0x2012), 0x02);
}
