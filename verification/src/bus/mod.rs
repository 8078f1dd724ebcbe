//! The buses that connect the CPU to memory and devices.
pub mod cpubus;

use vstd::prelude::*;
use crate::bits::lemma_word_fields;
use crate::apu::{Apu, register_value, register_written, dmc_clocked, dmc_fetch_due};
use crate::cartridge::{Cartridge, cart_after_cpu_write, lemma_same_cart};
use crate::controller::{Controller, ControllerState, read_step, write_step};
use crate::ppu::{Ppu, PpuView, cpu_read_value, cpu_read_next, cpu_write_next, cart_after_register_write};
use crate::ppu::oam::oam_with_byte;
use crate::ppu::frame::Frame;
use crate::ppu::render::picture_fits;
use crate::ppu::clock::clocked;

verus! {

/// The sprite memory after the first `n` bytes of an OAM DMA from page
/// `page` of the 2 KiB of RAM `ram` (the page taken modulo the RAM).
pub open spec fn oam_after_dma(oam: Seq<(u16, u8, u8, u8)>, ram: Seq<u8>, page: u8, n: int) -> Seq<(u16, u8, u8, u8)>
    decreases n,
{
    if n <= 0 {
        oam
    } else {
        let prev = oam_after_dma(oam, ram, page, n - 1);
        let i = n - 1;
        let data = ram[(page as int * 256 + i) % 2048];
        prev.update(i / 4, oam_with_byte(prev[i / 4], i as u8, data))
    }
}

/// The state of the bus and the devices linked to it.
pub struct BusParts {
    pub ram: Seq<u8>,
    pub cart: Option<Cartridge>,
    pub ppu: Option<PpuView>,
    pub pad1: Option<ControllerState>,
    pub pad2: Option<ControllerState>,
    pub apu: Option<Apu>,
}

/// The devices that a CPU read of `address` reaches are linked (a read
/// of an unlinked PPU, APU, first controller or cartridge fails, and so
/// does one that the cartridge maps into PRG memory it does not have).
pub open spec fn read_linked(b: BusParts, address: u16) -> bool {
    &&& 0x2000 <= address <= 0x3FFF ==> b.ppu is Some && b.cart is Some
    &&& (0x4000 <= address <= 0x4013 || address == 0x4015) ==> b.apu is Some
    &&& address == 0x4016 ==> b.pad1 is Some
    &&& address >= 0x4020 ==> (b.cart matches Some(c) && c.cpu_read_ok(address))
}

/// The devices that a CPU write of `address` reaches are linked, and a
/// cartridge write stays inside its memory.
pub open spec fn write_linked(b: BusParts, address: u16) -> bool {
    &&& 0x2000 <= address <= 0x3FFF ==> b.ppu is Some && b.cart is Some
    &&& (0x4000 <= address <= 0x4013 || address == 0x4015 || address == 0x4017) ==> b.apu is Some
    &&& address == 0x4014 ==> b.ppu is Some
    &&& address >= 0x4020 ==> (b.cart matches Some(c) && c.cpu_write_in_bounds(address))
}

/// A CPU read of `address` from bus state `b` returns `r` and leaves
/// `after`: RAM (mirrored every 2 KiB), the PPU registers (the cartridge
/// left the same), the APU, the controllers (an unlinked second one reads
/// 0), 0 for the rest of $4000-$401F, and the cartridge from $4020.
pub open spec fn bus_read(b: BusParts, address: u16, rdonly: bool, r: u8, after: BusParts) -> bool {
    if address <= 0x1FFF {
        r == b.ram[address as int % 2048] && after == b
    } else if address <= 0x3FFF {
        let p = b.ppu->0;
        let c = b.cart->0;
        &&& r == cpu_read_value(p, c, address)
        &&& after.cart matches Some(c2) && c.same(&c2)
        &&& after == BusParts { ppu: Some(cpu_read_next(p, c, address, rdonly)), cart: after.cart, ..b }
    } else if 0x4000 <= address <= 0x4013 || address == 0x4015 {
        let a = b.apu->0;
        &&& r == register_value(a, address)
        &&& after == BusParts {
            apu: Some(if address == 0x4015 { Apu { dmc_interrupt_flag: false, ..a } } else { a }),
            ..b
        }
    } else if address == 0x4016 {
        let (s, v) = read_step(b.pad1->0);
        r == v && after == BusParts { pad1: Some(s), ..b }
    } else if address == 0x4017 {
        match b.pad2 {
            Some(s0) => {
                let (s, v) = read_step(s0);
                r == v && after == BusParts { pad2: Some(s), ..b }
            },
            None => r == 0 && after == b,
        }
    } else if address <= 0x401F {
        r == 0 && after == b
    } else {
        r == b.cart->0.cpu_read_value(address, 0) && after == b
    }
}

/// A CPU write of `byte` to `address` on bus state `b` leaves `after`:
/// RAM, the PPU registers (with what a data write does to the
/// cartridge), the APU, OAM DMA from a page of RAM at $4014, the
/// controllers' strobe at $4016, nothing for the rest of $4000-$401F,
/// and the cartridge from $4020.
pub open spec fn bus_write(b: BusParts, address: u16, byte: u8, after: BusParts) -> bool {
    if address <= 0x1FFF {
        after == BusParts { ram: b.ram.update(address as int % 2048, byte), ..b }
    } else if address <= 0x3FFF {
        let p = b.ppu->0;
        let c = b.cart->0;
        &&& after.cart matches Some(c2) && cart_after_register_write(p, c, c2, address, byte)
        &&& after == BusParts {
            ppu: Some(cpu_write_next(p, c.mapper().mirror(), address, byte)),
            cart: after.cart,
            ..b
        }
    } else if 0x4000 <= address <= 0x4013 || address == 0x4015 || address == 0x4017 {
        after == BusParts { apu: Some(register_written(b.apu->0, address, byte)), ..b }
    } else if address == 0x4014 {
        let p = b.ppu->0;
        after == BusParts { ppu: Some(PpuView { oam: oam_after_dma(p.oam, b.ram, byte, 256), ..p }), ..b }
    } else if address == 0x4016 {
        after == BusParts {
            pad1: match b.pad1 {
                Some(s) => Some(write_step(s, byte)),
                None => None,
            },
            pad2: match b.pad2 {
                Some(s) => Some(write_step(s, byte)),
                None => None,
            },
            ..b
        }
    } else if address <= 0x401F {
        after == b
    } else {
        &&& after.cart matches Some(c2) && cart_after_cpu_write(b.cart->0, c2, address, byte)
        &&& after == BusParts { cart: after.cart, ..b }
    }
}

/// The bus state `after` a DMC clock that read sample byte `v` at the
/// DMC's current address: the read took the bus from `b` to some state,
/// and the DMC was then clocked with `v`.
pub open spec fn dmc_clocked_after_read(b: BusParts, v: u8, after: BusParts) -> bool {
    exists|mid: BusParts|
        #[trigger] bus_read(b, b.apu->0.dmc_current_address, false, v, mid) && mid.apu is Some && after == (BusParts {
            apu: Some(dmc_clocked(mid.apu->0, v)),
            ..mid
        })
}

/// The bus state `after` the PPU's share of one CPU cycle from `b`: three
/// PPU clocks (the frame's pixels going from `pixels` to `pixels3`, rows
/// `width` long) through some intermediate states, then the PPU's pending
/// NMI reported as `nmi` and cleared; RAM, the APU and the controllers
/// stay.
pub open spec fn ppu_cycle_done(b: BusParts, pixels: Seq<u32>, width: int, after: BusParts, pixels3: Seq<u32>, nmi: bool) -> bool {
    exists|p1: PpuView, c1: Cartridge, x1: Seq<u32>, p2: PpuView, c2: Cartridge, x2: Seq<u32>, p3: PpuView|
        #![trigger clocked(b.ppu->0, b.cart->0, pixels, width, p1, c1, x1), clocked(p1, c1, x1, width, p2, c2, x2), clocked(p2, c2, x2, width, p3, after.cart->0, pixels3)]
        {
            &&& clocked(b.ppu->0, b.cart->0, pixels, width, p1, c1, x1)
            &&& clocked(p1, c1, x1, width, p2, c2, x2)
            &&& clocked(p2, c2, x2, width, p3, after.cart->0, pixels3)
            &&& nmi == p3.nmi
            &&& after.cart is Some
            &&& after == (BusParts { ppu: Some(PpuView { nmi: false, ..p3 }), cart: after.cart, ..b })
        }
}

/// The system bus: 2 KiB of RAM mirrored through $1FFF, the PPU
/// registers through $3FFF, the APU and controllers at $4000-$4017, and
/// the cartridge from $4020.
pub struct Bus {
    memory: Vec<u8>,
    cartridge: Option<Cartridge>,
    ppu: Option<Ppu>,
    controller1: Option<Controller>,
    controller2: Option<Controller>,
    apu: Option<Apu>,
}

impl Bus {
    /// The RAM.
    pub closed spec fn ram(&self) -> Seq<u8> {
        self.memory@
    }

    /// The cartridge, when one is linked.
    pub closed spec fn cart(&self) -> Option<Cartridge> {
        self.cartridge
    }

    /// The PPU's state, when one is linked.
    pub closed spec fn ppu_view(&self) -> Option<PpuView> {
        match self.ppu {
            Some(p) => Some(p@),
            None => None,
        }
    }

    /// Controller 1's state, when one is linked.
    pub closed spec fn pad1(&self) -> Option<ControllerState> {
        match self.controller1 {
            Some(c) => Some(c@),
            None => None,
        }
    }

    /// Controller 2's state, when one is linked.
    pub closed spec fn pad2(&self) -> Option<ControllerState> {
        match self.controller2 {
            Some(c) => Some(c@),
            None => None,
        }
    }

    /// The APU, when one is linked.
    pub closed spec fn apu(&self) -> Option<Apu> {
        self.apu
    }

    /// RAM has its size and every linked device its invariant.
    pub open spec fn wf(&self) -> bool {
        &&& self.ram().len() == 2048
        &&& (self.cart() matches Some(c) ==> c.wf())
        &&& (self.ppu_view() matches Some(p) ==> p.wf())
        &&& (self.apu() matches Some(a) ==> a.wf())
    }

    /// A bus with cleared RAM and nothing linked.
    pub fn new() -> (r: Self)
        ensures
            r.wf(),
            r.ram() == Seq::new(2048, |i: int| 0u8),
            r.cart() is None,
            r.ppu_view() is None,
            r.pad1() is None,
            r.pad2() is None,
            r.apu() is None,
    {
        let memory: Vec<u8> = vec![0; 2048];
        assert(memory@ =~= Seq::new(2048, |i: int| 0u8));
        Self { memory, cartridge: None, controller1: None, controller2: None, ppu: None, apu: None }
    }

    /// Links a cartridge.
    pub fn link_cartridge(&mut self, cart: Cartridge)
        requires
            old(self).wf(),
            cart.wf(),
        ensures
            final(self).wf(),
            final(self).cart() == Some(cart),
            final(self).ram() == old(self).ram(),
            final(self).ppu_view() == old(self).ppu_view(),
            final(self).pad1() == old(self).pad1(),
            final(self).pad2() == old(self).pad2(),
            final(self).apu() == old(self).apu(),
    {
        self.cartridge = Some(cart);
    }

    /// Links the PPU.
    pub fn link_ppu(&mut self, ppu: Ppu)
        requires
            old(self).wf(),
            ppu@.wf(),
        ensures
            final(self).wf(),
            final(self).ppu_view() == Some(ppu@),
            final(self).ram() == old(self).ram(),
            final(self).cart() == old(self).cart(),
            final(self).pad1() == old(self).pad1(),
            final(self).pad2() == old(self).pad2(),
            final(self).apu() == old(self).apu(),
    {
        self.ppu = Some(ppu);
    }

    /// Links the APU.
    pub fn link_apu(&mut self, apu: Apu)
        requires
            old(self).wf(),
            apu.wf(),
        ensures
            final(self).wf(),
            final(self).apu() == Some(apu),
            final(self).ram() == old(self).ram(),
            final(self).cart() == old(self).cart(),
            final(self).ppu_view() == old(self).ppu_view(),
            final(self).pad1() == old(self).pad1(),
            final(self).pad2() == old(self).pad2(),
    {
        self.apu = Some(apu);
    }

    /// Links controller 1.
    pub fn link_controller1(&mut self, controller: Controller)
        requires
            old(self).wf(),
        ensures
            final(self).wf(),
            final(self).pad1() == Some(controller@),
            final(self).ram() == old(self).ram(),
            final(self).cart() == old(self).cart(),
            final(self).ppu_view() == old(self).ppu_view(),
            final(self).pad2() == old(self).pad2(),
            final(self).apu() == old(self).apu(),
    {
        self.controller1 = Some(controller);
    }

    /// Links controller 2.
    pub fn link_controller2(&mut self, controller: Controller)
        requires
            old(self).wf(),
        ensures
            final(self).wf(),
            final(self).pad2() == Some(controller@),
            final(self).ram() == old(self).ram(),
            final(self).cart() == old(self).cart(),
            final(self).ppu_view() == old(self).ppu_view(),
            final(self).pad1() == old(self).pad1(),
            final(self).apu() == old(self).apu(),
    {
        self.controller2 = Some(controller);
    }

    /// The bus and its devices.
    pub open spec fn parts(&self) -> BusParts {
        BusParts {
            ram: self.ram(),
            cart: self.cart(),
            ppu: self.ppu_view(),
            pad1: self.pad1(),
            pad2: self.pad2(),
            apu: self.apu(),
        }
    }

    /// One clock of the linked PPU, drawing into `frame` and reading the
    /// linked cartridge; RAM, the APU and the controllers stay.
    pub fn clock_ppu(&mut self, frame: &mut Frame)
        requires
            old(self).wf(),
            (old(self).ppu_view() is Some),
            (old(self).cart() is Some),
            picture_fits(old(frame)),
        ensures
            final(self).wf(),
            final(frame).width() == old(frame).width(),
            picture_fits(final(frame)),
            (final(self).ppu_view() is Some),
            (final(self).cart() is Some),
            clocked(old(self).ppu_view()->0, old(self).cart()->0, old(frame).pixels(), old(frame).width() as int,
                final(self).ppu_view()->0, final(self).cart()->0, final(frame).pixels()),
            final(self).parts() == (BusParts {
                ppu: final(self).ppu_view(),
                cart: final(self).cart(),
                ..old(self).parts()
            }),
    {
        let mut ppu = self.ppu.take().unwrap();
        let mut cart = self.cartridge.take().unwrap();
        ppu.clock(&mut cart, frame);
        self.ppu = Some(ppu);
        self.cartridge = Some(cart);
    }

    /// The PPU's share of one CPU cycle: three clocks of the linked PPU
    /// (see `clock_ppu`), then its pending NMI taken (see `take_nmi`):
    /// whether one was raised.
    pub fn clock_ppu_cycle(&mut self, frame: &mut Frame) -> (nmi: bool)
        requires
            old(self).wf(),
            (old(self).ppu_view() is Some),
            (old(self).cart() is Some),
            picture_fits(old(frame)),
        ensures
            final(self).wf(),
            picture_fits(final(frame)),
            final(frame).width() == old(frame).width(),
            ppu_cycle_done(old(self).parts(), old(frame).pixels(), old(frame).width() as int, final(self).parts(),
                final(frame).pixels(), nmi),
    {
        let ghost b0 = self.parts();
        let ghost x0 = frame.pixels();
        let ghost w = frame.width() as int;
        self.clock_ppu(frame);
        let ghost b1 = self.parts();
        let ghost x1 = frame.pixels();
        self.clock_ppu(frame);
        let ghost b2 = self.parts();
        let ghost x2 = frame.pixels();
        self.clock_ppu(frame);
        let ghost b3 = self.parts();
        let nmi = self.take_nmi();
        proof {
            assert(clocked(b0.ppu->0, b0.cart->0, x0, w, b1.ppu->0, b1.cart->0, x1));
            assert(clocked(b1.ppu->0, b1.cart->0, x1, w, b2.ppu->0, b2.cart->0, x2));
            assert(clocked(b2.ppu->0, b2.cart->0, x2, w, b3.ppu->0, self.parts().cart->0, frame.pixels()));
        }
        nmi
    }

    /// Takes the linked PPU's pending NMI: whether one was raised; it is
    /// cleared.
    pub fn take_nmi(&mut self) -> (r: bool)
        requires
            old(self).wf(),
            (old(self).ppu_view() is Some),
        ensures
            final(self).wf(),
            r == old(self).ppu_view()->0.nmi,
            final(self).parts() == (BusParts {
                ppu: Some(PpuView { nmi: false, ..old(self).ppu_view()->0 }),
                ..old(self).parts()
            }),
    {
        let mut ppu = self.ppu.take().unwrap();
        let r = ppu.get_nmi();
        self.ppu = Some(ppu);
        r
    }

    /// One DMC timer clock of the linked APU. When the DMC needs its next
    /// sample byte, it is read over the bus at the DMC's current address,
    /// as a CPU read (not read-only), and returned; otherwise nothing is
    /// read and the result is `None`.
    pub fn clock_dmc(&mut self) -> (fetched: Option<u8>)
        requires
            old(self).wf(),
            (old(self).apu() is Some),
            dmc_fetch_due(old(self).apu()->0) ==> read_linked(
                old(self).parts(),
                old(self).apu()->0.dmc_current_address,
            ),
        ensures
            final(self).wf(),
            (final(self).apu() is Some),
            (fetched is Some) == dmc_fetch_due(old(self).apu()->0),
            fetched is None ==> final(self).parts() == (BusParts {
                apu: Some(dmc_clocked(old(self).apu()->0, 0)),
                ..old(self).parts()
            }),
            fetched matches Some(v) ==> dmc_clocked_after_read(old(self).parts(), v, final(self).parts()),
    {
        let (due, address) = match &self.apu {
            Some(apu) => (apu.dmc_sample_due(), apu.dmc_current_address),
            None => (false, 0),
        };
        let ghost p0 = self.parts();
        let mut sample: u8 = 0;
        let mut fetched: Option<u8> = None;
        if due {
            let v = self.cpu_read(address, false);
            sample = v;
            fetched = Some(v);
        }
        let ghost mid = self.parts();
        let mut apu = self.apu.take().unwrap();
        apu.dmc_clock(sample);
        self.apu = Some(apu);
        proof {
            if due {
                assert(bus_read(p0, p0.apu->0.dmc_current_address, false, sample, mid));
                assert(dmc_clocked_after_read(p0, sample, self.parts()));
            }
        }
        fetched
    }

    /// A CPU read of a PPU register.
    fn read_ppu(&mut self, address: u16, rdonly: bool) -> (r: u8)
        requires
            old(self).wf(),
            old(self).ppu_view() is Some,
            old(self).cart() is Some,
        ensures
            final(self).wf(),
            ({
                let p = old(self).ppu_view()->0;
                let c = old(self).cart()->0;
                &&& r == cpu_read_value(p, c, address)
                &&& final(self).cart() matches Some(c2) && c.same(&c2)
                &&& final(self).parts() == BusParts {
                    ppu: Some(cpu_read_next(p, c, address, rdonly)),
                    cart: final(self).cart(),
                    ..old(self).parts()
                }
            }),
    {
        let mut ppu = self.ppu.take().unwrap();
        let mut cart = self.cartridge.take().unwrap();
        let ghost c0 = cart;
        let data = ppu.cpu_read(&mut cart, address, rdonly);
        proof {
            lemma_same_cart(c0, cart, cart, 0, 0);
        }
        self.ppu = Some(ppu);
        self.cartridge = Some(cart);
        data
    }

    /// A CPU write of a PPU register.
    fn write_ppu(&mut self, address: u16, byte: u8)
        requires
            old(self).wf(),
            old(self).ppu_view() is Some,
            old(self).cart() is Some,
        ensures
            final(self).wf(),
            ({
                let p = old(self).ppu_view()->0;
                let c = old(self).cart()->0;
                &&& final(self).cart() matches Some(c2) && cart_after_register_write(p, c, c2, address, byte)
                &&& final(self).parts() == BusParts {
                    ppu: Some(cpu_write_next(p, c.mapper().mirror(), address, byte)),
                    cart: final(self).cart(),
                    ..old(self).parts()
                }
            }),
    {
        let mut ppu = self.ppu.take().unwrap();
        let mut cart = self.cartridge.take().unwrap();
        ppu.cpu_write(&mut cart, address, byte);
        self.ppu = Some(ppu);
        self.cartridge = Some(cart);
    }

    /// Copies page `byte` of RAM into the PPU's sprite memory.
    fn oam_dma(&mut self, byte: u8)
        requires
            old(self).wf(),
            old(self).ppu_view() is Some,
        ensures
            final(self).wf(),
            ({
                let p = old(self).ppu_view()->0;
                final(self).parts() == BusParts {
                    ppu: Some(PpuView { oam: oam_after_dma(p.oam, old(self).ram(), byte, 256), ..p }),
                    ..old(self).parts()
                }
            }),
    {
        let mut ppu = self.ppu.take().unwrap();
        let ghost p0 = ppu@;
        let base: usize = (byte as usize) << 8;
        assert(base == byte as usize * 256) by (bit_vector)
            requires
                base == (byte as usize) << 8usize,
                byte < 256,
        ;
        let mut i: usize = 0;
        while i <= 0xFF
            invariant
                0 <= i <= 256,
                base == byte as int * 256,
                self.memory@ == old(self).ram(),
                self.memory@.len() == 2048,
                p0 == old(self).ppu_view()->0,
                p0.wf(),
                ppu@ == (PpuView { oam: oam_after_dma(p0.oam, self.memory@, byte, i as int), ..p0 }),
                ppu@.wf(),
            decreases 256 - i,
        {
            let data = self.memory[(base + i) % 2048];
            ppu.oam_dma_write(i as u8, data);
            proof {
                assert((i as u8) as int == i);
                assert(ppu@.oam =~= oam_after_dma(p0.oam, self.memory@, byte, i as int + 1));
            }
            i = i + 1;
        }
        self.ppu = Some(ppu);
    }

    /// A CPU read of `address` (see `bus_read`).
    pub fn cpu_read(&mut self, address: u16, rdonly: bool) -> (r: u8)
        requires
            old(self).wf(),
            read_linked(old(self).parts(), address),
        ensures
            final(self).wf(),
            bus_read(old(self).parts(), address, rdonly, r, final(self).parts()),
    {
        let mut data: u8 = 0;
        if address <= 0x1FFF {
            proof {
                lemma_word_fields(address);
            }
            data = self.memory[(address & 0x7FF) as usize];
        } else if address <= 0x3FFF {
            data = self.read_ppu(address, rdonly);
        } else if address <= 0x4017 {
            if (address >= 0x4000 && address <= 0x4013) || address == 0x4015 {
                let mut apu = self.apu.take().unwrap();
                data = apu.cpu_read(address);
                self.apu = Some(apu);
            } else if address == 0x4016 {
                let mut controller = self.controller1.take().unwrap();
                data = controller.cpu_read();
                self.controller1 = Some(controller);
            } else if address == 0x4017 {
                match self.controller2.take() {
                    Some(mut controller) => {
                        data = controller.cpu_read();
                        self.controller2 = Some(controller);
                    },
                    None => {
                        data = 0;
                    },
                }
            }
        } else if address <= 0x401F {
            data = 0;
        } else {
            match &self.cartridge {
                Some(cart) => {
                    cart.cpu_read(address, &mut data);
                },
                None => {},
            }
        }
        data
    }

    /// A CPU write of `byte` to `address` (see `bus_write`).
    pub fn cpu_write(&mut self, address: u16, byte: u8)
        requires
            old(self).wf(),
            write_linked(old(self).parts(), address),
        ensures
            final(self).wf(),
            bus_write(old(self).parts(), address, byte, final(self).parts()),
    {
        if address <= 0x1FFF {
            proof {
                lemma_word_fields(address);
            }
            self.memory.set((address & 0x7FF) as usize, byte);
        } else if address <= 0x3FFF {
            self.write_ppu(address, byte);
        } else if address <= 0x4017 {
            if (address >= 0x4000 && address <= 0x4013) || address == 0x4015 || address == 0x4017 {
                let mut apu = self.apu.take().unwrap();
                apu.cpu_write(address, byte);
                self.apu = Some(apu);
            } else if address == 0x4014 {
                self.oam_dma(byte);
            } else if address == 0x4016 {
                match self.controller1.take() {
                    Some(mut controller) => {
                        controller.cpu_write(byte);
                        self.controller1 = Some(controller);
                    },
                    None => {},
                }
                match self.controller2.take() {
                    Some(mut controller) => {
                        controller.cpu_write(byte);
                        self.controller2 = Some(controller);
                    },
                    None => {},
                }
            }
        } else if address <= 0x401F {
        } else {
            let mut cart = self.cartridge.take().unwrap();
            cart.cpu_write(address, byte);
            self.cartridge = Some(cart);
        }
    }
}

/// RAM gives back what was written, at every mirror of the address: a
/// CPU read of any address below $2000 that agrees with a written one
/// modulo 2 KiB returns the byte written.
pub proof fn law_ram_read_after_write(
    b: BusParts,
    address: u16,
    byte: u8,
    after: BusParts,
    mirror: u16,
    rdonly: bool,
    r: u8,
    after2: BusParts,
)
    requires
        b.ram.len() == 2048,
        address <= 0x1FFF,
        mirror <= 0x1FFF,
        mirror as int % 2048 == address as int % 2048,
        bus_write(b, address, byte, after),
        bus_read(after, mirror, rdonly, r, after2),
    ensures
        r == byte,
        after2 == after,
{
}

/// A write to the controller port strobes every linked controller.
pub proof fn law_strobe_reaches_both_pads(b: BusParts, byte: u8, after: BusParts)
    requires
        bus_write(b, 0x4016, byte, after),
        b.pad1 is Some,
        b.pad2 is Some,
    ensures
        after.pad1 == Some(write_step(b.pad1->0, byte)),
        after.pad2 == Some(write_step(b.pad2->0, byte)),
{
}

} // verus!
