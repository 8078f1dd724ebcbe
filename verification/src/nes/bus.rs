//! The flat 64 KiB memory that the console core's CPU sees.
use vstd::prelude::*;

verus! {

/// 64 KiB of memory, every address backed by RAM.
pub struct Bus {
    ram: Vec<u8>,
}

impl View for Bus {
    type V = Seq<u8>;

    closed spec fn view(&self) -> Seq<u8> {
        self.ram@
    }
}

impl Bus {
    /// Every 16-bit address is backed.
    pub open spec fn wf(&self) -> bool {
        self@.len() == 0x10000
    }

    /// Memory cleared to zero.
    pub fn new() -> (r: Self)
        ensures
            r.wf(),
            r@ == Seq::new(0x10000, |i: int| 0u8),
    {
        let ram: Vec<u8> = vec![0; 0x10000];
        assert(ram@ =~= Seq::new(0x10000, |i: int| 0u8));
        Bus { ram }
    }

    /// The byte at `addr`; every read succeeds.
    pub fn cpu_read(&self, addr: u16) -> (r: Option<u8>)
        requires
            self.wf(),
        ensures
            r == Some(self@[addr as int]),
    {
        let val = self.ram[addr as usize];
        Some(val)
    }

    /// Stores `data` at `addr`; every write succeeds.
    pub fn cpu_write(&mut self, addr: u16, data: u8) -> (r: bool)
        requires
            old(self).wf(),
        ensures
            final(self)@ == old(self)@.update(addr as int, data),
            final(self).wf(),
            r,
    {
        self.ram.set(addr as usize, data);
        true
    }
}

} // verus!
