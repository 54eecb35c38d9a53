//! The CPU-visible bus: the capability the CPU core is verified against, and
//! a flat 64 KiB RAM bus for harnesses and tests.
//!
//! Every bus records the sequence of reads and writes it has served as a
//! ghost event trace. The CPU's contracts are stated over that trace: each
//! instruction's exact cycle list, dummy reads included, is visible in it.

pub mod ppu_bus;

use vstd::prelude::*;

use crate::cart::Cart;
use crate::cpu::wrap_add16;
use crate::nes::EventSource;
use crate::ppu::{Ppu, Screen};
use self::ppu_bus::{ppu_read_value, ppu_write_post, PpuBus};

verus! {

/// A CPU-visible address.
pub type Addr = u16;

/// The value recorded by an event, whichever direction it has.
pub open spec fn ev_val(e: EventSource) -> u8 {
    match e {
        EventSource::BusRead { val, .. } => val,
        EventSource::BusWrite { val, .. } => val,
        EventSource::VramRead { val, .. } => val,
        EventSource::VramWrite { val, .. } => val,
    }
}

/// The address an event touched.
pub open spec fn ev_addr(e: EventSource) -> u16 {
    match e {
        EventSource::BusRead { addr, .. } => addr,
        EventSource::BusWrite { addr, .. } => addr,
        EventSource::VramRead { addr, .. } => addr,
        EventSource::VramWrite { addr, .. } => addr,
    }
}

/// The event is a read cycle at `a`, whatever byte came back.
pub open spec fn is_read_at(e: EventSource, a: u16) -> bool {
    (e is BusRead) && ev_addr(e) == a
}

/// Prefix preservation composes: if `b` preserves `a` as a prefix and `c`
/// preserves `b`, then `c` still preserves `a`.
pub proof fn lemma_prefix_trans<T>(a: Seq<T>, b: Seq<T>, c: Seq<T>)
    requires
        a.len() <= b.len() <= c.len(),
        b.take(a.len() as int) == a,
        c.take(b.len() as int) == b,
    ensures
        c.take(a.len() as int) == a,
{
    assert(c.take(a.len() as int) =~= a) by {
        assert forall|i: int| 0 <= i < a.len() implies c.take(a.len() as int)[i] == a[i] by {
            assert(c.take(b.len() as int)[i] == c[i]);
            assert(b.take(a.len() as int)[i] == b[i]);
        }
    }
}

/// What the CPU core requires of the memory system it drives: single-byte
/// reads and writes, each recorded on the event trace, and a monotonic time
/// it can be caught up to.
pub trait Bus: Sized {
    /// The bus's structural invariant.
    spec fn wf(&self) -> bool;

    /// Every read and write served so far, oldest first.
    spec fn events(&self) -> Seq<EventSource>;

    /// The bus's monotonic time counter.
    spec fn time_spec(&self) -> u128;

    /// Serves one byte and records the read cycle.
    fn read(&mut self, addr: Addr) -> (val: u8)
        requires
            old(self).wf(),
        ensures
            final(self).wf(),
            final(self).time_spec() == old(self).time_spec(),
            final(self).events() == old(self).events().push(EventSource::BusRead { addr, val }),
    ;

    /// Stores one byte and records the write cycle.
    fn write(&mut self, addr: Addr, value: u8)
        requires
            old(self).wf(),
        ensures
            final(self).wf(),
            final(self).time_spec() == old(self).time_spec(),
            final(self).events() == old(self).events().push(
                EventSource::BusWrite { addr, val: value },
            ),
    ;

    /// Advances the bus's time to `time` without serving any cycle.
    fn catch_up(&mut self, time: u128)
        requires
            old(self).wf(),
            time >= old(self).time_spec(),
        ensures
            final(self).wf(),
            final(self).time_spec() == time,
            final(self).events() == old(self).events(),
    ;

    /// A snapshot of the cartridge's 8 KiB pattern-table ROM, if the bus has
    /// one to offer (a debug aid for frontends).
    fn debug_chr(&self) -> (r: Option<Vec<u8>>)
        requires
            self.wf(),
        ensures
            r matches Some(v) ==> v@.len() == 0x2000,
    ;
}

/// The CPU-visible address map of the NES: 2 KiB internal RAM mirrored
/// through `0x1FFF`, the eight picture registers mirrored through `0x3FFF`,
/// a writable audio/input scratch through `0x4017`, an open-bus hole
/// through `0x401F`, and the cartridge above.
pub struct NesBus<C: Cart, S: Screen> {
    pub iram: Vec<u8>,
    /// Scratch storage standing in for the audio and input hardware.
    pub apu_io: Vec<u8>,
    pub cart: C,
    pub ppu: Ppu<S>,
    pub ppu_bus: PpuBus,
    pub time: u128,
    pub events: Ghost<Seq<EventSource>>,
}

impl<C: Cart, S: Screen> NesBus<C, S> {
    /// A bus around a cartridge and a picture unit, with zeroed RAM and an
    /// empty trace.
    pub fn new(cart: C, ppu: Ppu<S>) -> (r: NesBus<C, S>)
        requires
            cart.inv(),
            ppu.wf(),
            ppu.time == 0,
        ensures
            r.wf(),
            r.cart == cart,
            r.ppu == ppu,
            r.time == 0,
            r.events@ == Seq::<EventSource>::empty(),
            forall|i: int| 0 <= i < 0x800 ==> r.iram@[i] == 0u8,
            forall|i: int| 0 <= i < 0x800 ==> r.ppu_bus.vram@[i] == 0u8,
            forall|i: int| 0 <= i < 0x18 ==> r.apu_io@[i] == 0u8,
    {
        let mut iram: Vec<u8> = Vec::new();
        let mut i: usize = 0;
        while i < 0x800
            invariant
                iram@.len() == i,
                i <= 0x800,
                forall|j: int| 0 <= j < i ==> iram@[j] == 0u8,
            decreases 0x800 - i,
        {
            iram.push(0u8);
            i = i + 1;
        }
        let mut apu_io: Vec<u8> = Vec::new();
        let mut k: usize = 0;
        while k < 0x18
            invariant
                apu_io@.len() == k,
                k <= 0x18,
                forall|j: int| 0 <= j < k ==> apu_io@[j] == 0u8,
            decreases 0x18 - k,
        {
            apu_io.push(0u8);
            k = k + 1;
        }
        NesBus { iram, apu_io, cart, ppu, ppu_bus: PpuBus::new(), time: 0, events: Ghost(Seq::empty()) }
    }
}

impl<C: Cart, S: Screen> Bus for NesBus<C, S> {
    open spec fn wf(&self) -> bool {
        &&& self.iram@.len() == 0x800
        &&& self.apu_io@.len() == 0x18
        &&& self.cart.inv()
        &&& self.ppu.wf()
        &&& self.ppu_bus.wf()
        &&& self.ppu.time <= self.time
    }

    open spec fn events(&self) -> Seq<EventSource> {
        self.events@
    }

    open spec fn time_spec(&self) -> u128 {
        self.time
    }

    fn read(&mut self, addr: Addr) -> (val: u8)
        ensures
            ({
                let p1 = old(self).ppu.caught_up(old(self).time);
                if addr <= 0x1fff {
                    &&& val == old(self).iram@[(addr as int) % 0x800]
                    &&& *final(self) == (NesBus { events: final(self).events, ..*old(self) })
                } else if addr <= 0x3fff {
                    let reg = (0x2000 + ((addr as int) % 8)) as u16;
                    &&& *final(self) == (NesBus {
                        ppu: final(self).ppu,
                        ppu_bus: final(self).ppu_bus,
                        events: final(self).events,
                        ..*old(self)
                    })
                    &&& if reg == 0x2002 {
                        &&& val == p1.ppu_status
                        &&& final(self).ppu == (Ppu { addr_latch: None, ..p1 })
                        &&& final(self).ppu_bus == old(self).ppu_bus
                    } else if reg == 0x2007 {
                        let inc: u16 = if p1.ppu_ctrl & 0b100 == 0 {
                            1u16
                        } else {
                            32u16
                        };
                        &&& val == ppu_read_value(old(self).cart, old(self).ppu_bus, p1.ppu_addr)
                        &&& final(self).ppu == (Ppu {
                            ppu_addr: wrap_add16(p1.ppu_addr, inc),
                            ..p1
                        })
                        &&& final(self).ppu_bus.vram == old(self).ppu_bus.vram
                    } else {
                        &&& val == p1.regs@[reg - 0x2000]
                        &&& final(self).ppu == p1
                        &&& final(self).ppu_bus == old(self).ppu_bus
                    }
                } else if addr <= 0x4017 {
                    &&& val == old(self).apu_io@[addr - 0x4000]
                    &&& *final(self) == (NesBus { events: final(self).events, ..*old(self) })
                } else if addr <= 0x401f {
                    // Normally disabled audio and input functionality.
                    &&& val == 0
                    &&& *final(self) == (NesBus { events: final(self).events, ..*old(self) })
                } else {
                    &&& old(self).cart.read_model(addr) == Ok::<u8, crate::cart::DeferredRead>(val)
                    &&& *final(self) == (NesBus { events: final(self).events, ..*old(self) })
                }
            }),
    {
        let val: u8;
        if addr <= 0x1fff {
            val = self.iram[(addr % 0x800) as usize];
        } else if addr <= 0x3fff {
            // The eight picture registers and their mirrors; the picture
            // unit catches up before it is observed.
            let t = self.time;
            self.ppu.catch_up(t);
            let reg = 0x2000 + (addr % 8);
            val = self.ppu.read(reg, &mut self.cart, &mut self.ppu_bus);
        } else if addr <= 0x4017 {
            val = self.apu_io[(addr - 0x4000) as usize];
        } else if addr <= 0x401f {
            val = 0;
        } else {
            proof {
                self.cart.read_model_ok(addr);
            }
            let r = self.cart.read(addr);
            match r {
                Ok(x) => {
                    val = x;
                },
                Err(_) => {
                    proof {
                        assert(false);
                    }
                    val = 0;
                },
            }
        }
        self.events = Ghost(self.events@.push(EventSource::BusRead { addr, val }));
        val
    }

    fn write(&mut self, addr: Addr, value: u8)
        ensures
            ({
                let p1 = old(self).ppu.caught_up(old(self).time);
                if addr <= 0x1fff {
                    &&& final(self).iram@ == old(self).iram@.update((addr as int) % 0x800, value)
                    &&& *final(self) == (NesBus {
                        iram: final(self).iram,
                        events: final(self).events,
                        ..*old(self)
                    })
                } else if addr <= 0x3fff {
                    let reg = (0x2000 + ((addr as int) % 8)) as u16;
                    &&& *final(self) == (NesBus {
                        ppu: final(self).ppu,
                        ppu_bus: final(self).ppu_bus,
                        cart: final(self).cart,
                        events: final(self).events,
                        ..*old(self)
                    })
                    &&& if reg == 0x2000 {
                        &&& final(self).ppu == (Ppu { ppu_ctrl: value, ..p1 })
                        &&& final(self).cart == old(self).cart
                        &&& final(self).ppu_bus == old(self).ppu_bus
                    } else if reg == 0x2006 {
                        &&& final(self).ppu == (match p1.addr_latch {
                            None => Ppu { addr_latch: Some(value), ..p1 },
                            Some(x) => Ppu {
                                ppu_addr: (((x as int) * 256 + value) % 0x4000) as u16,
                                addr_latch: None,
                                ..p1
                            },
                        })
                        &&& final(self).cart == old(self).cart
                        &&& final(self).ppu_bus == old(self).ppu_bus
                    } else if reg == 0x2007 {
                        let inc: u16 = if p1.ppu_ctrl & 0b100 == 0 {
                            1u16
                        } else {
                            32u16
                        };
                        &&& final(self).ppu == (Ppu {
                            ppu_addr: wrap_add16(p1.ppu_addr, inc),
                            ..p1
                        })
                        &&& ppu_write_post(
                            old(self).cart,
                            old(self).ppu_bus,
                            final(self).cart,
                            final(self).ppu_bus,
                            p1.ppu_addr,
                            value,
                        )
                    } else {
                        &&& final(self).ppu == (Ppu { regs: final(self).ppu.regs, ..p1 })
                        &&& final(self).ppu.regs@ == p1.regs@.update(reg - 0x2000, value)
                        &&& final(self).cart == old(self).cart
                        &&& final(self).ppu_bus == old(self).ppu_bus
                    }
                } else if addr <= 0x4017 {
                    &&& final(self).apu_io@ == old(self).apu_io@.update(
                        (addr as int) - 0x4000,
                        value,
                    )
                    &&& *final(self) == (NesBus {
                        apu_io: final(self).apu_io,
                        events: final(self).events,
                        ..*old(self)
                    })
                } else if addr <= 0x401f {
                    // Normally disabled audio and input functionality.
                    *final(self) == (NesBus { events: final(self).events, ..*old(self) })
                } else {
                    &&& forall|a: Addr|
                        final(self).cart.read_model(a) == old(self).cart.write_read_model(
                            addr,
                            value,
                            a,
                        )
                    &&& final(self).cart.chr_model() == old(self).cart.chr_model()
                    &&& *final(self) == (NesBus {
                        cart: final(self).cart,
                        events: final(self).events,
                        ..*old(self)
                    })
                }
            }),
    {
        if addr <= 0x1fff {
            self.iram[(addr % 0x800) as usize] = value;
        } else if addr <= 0x3fff {
            // The eight picture registers and their mirrors; the picture
            // unit catches up before it is observed.
            let t = self.time;
            self.ppu.catch_up(t);
            let reg = 0x2000 + (addr % 8);
            self.ppu.write(reg, value, &mut self.cart, &mut self.ppu_bus);
        } else if addr <= 0x4017 {
            self.apu_io[(addr - 0x4000) as usize] = value;
        } else if addr <= 0x401f {
            // Normally disabled audio and input functionality.
        } else {
            proof {
                self.cart.write_model_ok(addr, value);
            }
            let _ = self.cart.write(addr, value);
        }
        self.events = Ghost(self.events@.push(EventSource::BusWrite { addr, val: value }));
    }

    fn catch_up(&mut self, time: u128)
        ensures
            *final(self) == (NesBus { time, ..*old(self) }),
    {
        self.time = time;
    }

    fn debug_chr(&self) -> (r: Option<Vec<u8>>)
        ensures
            (r is Some) == (self.cart.chr_model() is Some),
            r matches Some(v) ==> self.cart.chr_model() == Some(v@),
    {
        proof {
            self.cart.chr_model_ok();
        }
        self.cart.chr()
    }
}

/// A flat 64 KiB memory bus with a concrete event log: the memory model the
/// per-opcode test corpus runs against, and a convenient harness for
/// embedding the CPU core on its own.
pub struct RamBus {
    pub mem: Vec<u8>,
    pub trace: Vec<EventSource>,
    pub time: u128,
}

impl RamBus {
    /// A bus whose 64 KiB of memory are all zero and whose trace is empty.
    pub fn new() -> (r: RamBus)
        ensures
            r.wf(),
            r.events() == Seq::<EventSource>::empty(),
            r.time_spec() == 0,
            forall|i: int| 0 <= i < 0x10000 ==> r.mem@[i] == 0u8,
    {
        let mut mem: Vec<u8> = Vec::new();
        let mut i: usize = 0;
        while i < 0x10000
            invariant
                mem@.len() == i,
                i <= 0x10000,
                forall|j: int| 0 <= j < i ==> mem@[j] == 0u8,
            decreases 0x10000 - i,
        {
            mem.push(0u8);
            i = i + 1;
        }
        RamBus { mem, trace: Vec::new(), time: 0 }
    }
}

impl Bus for RamBus {
    open spec fn wf(&self) -> bool {
        self.mem@.len() == 0x10000
    }

    open spec fn events(&self) -> Seq<EventSource> {
        self.trace@
    }

    open spec fn time_spec(&self) -> u128 {
        self.time
    }

    fn read(&mut self, addr: Addr) -> (val: u8)
        ensures
            val == old(self).mem@[addr as int],
            final(self).mem@ == old(self).mem@,
    {
        let val = self.mem[addr as usize];
        self.trace.push(EventSource::BusRead { addr, val });
        val
    }

    fn write(&mut self, addr: Addr, value: u8)
        ensures
            final(self).mem@ == old(self).mem@.update(addr as int, value),
    {
        self.mem[addr as usize] = value;
        self.trace.push(EventSource::BusWrite { addr, val: value });
    }

    fn catch_up(&mut self, time: u128)
        ensures
            final(self).mem@ == old(self).mem@,
    {
        self.time = time;
    }

    fn debug_chr(&self) -> (r: Option<Vec<u8>>) {
        None
    }
}

} // verus!
