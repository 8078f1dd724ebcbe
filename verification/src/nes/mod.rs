//! The console core: a CPU clocked against flat memory.
pub mod bus;
pub mod cpu;

use vstd::prelude::*;
use bus::Bus;
use cpu::Nes6502;

verus! {

/// The cycles left in the CPU's step after `n` clocks from `c` left: a
/// clock with none left starts a two-cycle step and spends one of it.
pub open spec fn cycles_after(c: u8, n: nat) -> u8
    decreases n,
{
    if n == 0 {
        c
    } else {
        cycles_after(if c == 0 { 1u8 } else { (c - 1) as u8 }, (n - 1) as nat)
    }
}

/// The console: its CPU and the memory it runs against.
pub struct Nes {
    pub cpu: Nes6502,
    pub bus: Bus,
}

impl Nes {
    /// A powered-on console with cleared memory.
    pub fn new() -> (r: Self)
        ensures
            r.cpu@ == (0u8, 0u8, 0u8, 0xFDu8, 0u16, 0x24u8, 0u8),
            r.bus.wf(),
            r.bus@ == Seq::new(0x10000, |i: int| 0u8),
    {
        let bus = Bus::new();
        let cpu = Nes6502::new();
        Nes { cpu, bus }
    }

    /// Runs the CPU for `cycles` clocks; it never fails.
    pub fn game_loop(&mut self, cycles: u64) -> (r: Result<(), String>)
        ensures
            r is Ok,
            final(self).bus@ == old(self).bus@,
            ({
                let (a, x, y, sp, pc, p, c) = old(self).cpu@;
                final(self).cpu@ == (a, x, y, sp, pc, p, cycles_after(c, cycles as nat))
            }),
    {
        let mut i: u64 = 0;
        while i < cycles
            invariant
                0 <= i <= cycles,
                self.bus@ == old(self).bus@,
                ({
                    let (a, x, y, sp, pc, p, c) = old(self).cpu@;
                    &&& self.cpu@.0 == a
                    &&& self.cpu@.1 == x
                    &&& self.cpu@.2 == y
                    &&& self.cpu@.3 == sp
                    &&& self.cpu@.4 == pc
                    &&& self.cpu@.5 == p
                    &&& cycles_after(c, cycles as nat) == cycles_after(self.cpu@.6, (cycles - i) as nat)
                }),
            decreases cycles - i,
        {
            self.cpu.clock();
            i = i + 1;
        }
        Ok(())
    }
}

} // verus!
