//! The console core's CPU: registers, bus access, and a clock that spends
//! a fixed two cycles per step.
use vstd::prelude::*;
use super::bus::Bus;

verus! {

/// The registers of the console core's 6502.
pub struct Nes6502 {
    a: u8,
    x: u8,
    y: u8,
    sp: u8,
    pc: u16,
    status: u8,
    cycles_left: u8,
}

/// The registers as the contracts see them: (A, X, Y, SP, PC, status,
/// cycles left in the current step).
pub type Nes6502View = (u8, u8, u8, u8, u16, u8, u8);

impl View for Nes6502 {
    type V = Nes6502View;

    closed spec fn view(&self) -> Nes6502View {
        (self.a, self.x, self.y, self.sp, self.pc, self.status, self.cycles_left)
    }
}

impl Nes6502 {
    /// Power-on state: stack pointer $FD, status $24 (interrupts off, bit
    /// 5 set), PC 0.
    pub fn new() -> (r: Self)
        ensures
            r@ == (0u8, 0u8, 0u8, 0xFDu8, 0u16, 0x24u8, 0u8),
    {
        Nes6502 { a: 0, x: 0, y: 0, sp: 0xFD, pc: 0, status: 0x24, cycles_left: 0 }
    }

    /// Reads `addr` from the bus.
    pub fn cpu_read(&self, bus: &Bus, addr: u16) -> (r: Option<u8>)
        requires
            bus.wf(),
        ensures
            r == Some(bus@[addr as int]),
    {
        bus.cpu_read(addr)
    }

    /// Writes `data` to `addr` on the bus.
    pub fn cpu_write(&self, bus: &mut Bus, addr: u16, data: u8)
        requires
            old(bus).wf(),
        ensures
            final(bus)@ == old(bus)@.update(addr as int, data),
            final(bus).wf(),
    {
        bus.cpu_write(addr, data);
    }

    /// One clock: a new step starts (two cycles long) when none is left,
    /// then one cycle of it passes.
    pub fn clock(&mut self)
        ensures
            final(self)@ == (
                old(self)@.0,
                old(self)@.1,
                old(self)@.2,
                old(self)@.3,
                old(self)@.4,
                old(self)@.5,
                (if old(self)@.6 == 0 { 1u8 } else { (old(self)@.6 - 1) as u8 }),
            ),
    {
        if self.cycles_left == 0 {
            self.cycles_left = 2;
        }
        self.cycles_left = self.cycles_left - 1;
    }
}

} // verus!
