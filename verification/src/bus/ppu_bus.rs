//! The picture unit's own memory path: reads and writes go through the
//! cartridge first, and the ones the cartridge defers land in the 2 KiB
//! name-table RAM kept here.

use vstd::prelude::*;

use crate::bus::Addr;
use crate::cart::{Cart, DeferredRead, DeferredWrite};
use crate::nes::EventSource;

verus! {

/// Memory only directly accessible by the picture unit: the name-table
/// RAM, with its own observable event trace.
pub struct PpuBus {
    pub vram: Vec<u8>,
    pub events: Ghost<Seq<EventSource>>,
}

/// The byte a picture-bus read yields: the cartridge's own byte, or the
/// name-table cell the cartridge deferred to.
pub open spec fn ppu_read_value<C: Cart>(cart: C, pb: PpuBus, addr: Addr) -> u8 {
    match cart.read_model(addr) {
        Ok(x) => x,
        Err(DeferredRead::VRAM(off)) => pb.vram@[off as int],
    }
}

/// The exact effect of a picture-bus write: the cartridge takes it, unless
/// it defers it into a name-table cell, which is then updated and recorded
/// on the trace.
pub open spec fn ppu_write_post<C: Cart>(
    cart0: C,
    pb0: PpuBus,
    cart1: C,
    pb1: PpuBus,
    addr: Addr,
    val: u8,
) -> bool {
    &&& forall|a: Addr| cart1.read_model(a) == cart0.write_read_model(addr, val, a)
    &&& cart1.chr_model() == cart0.chr_model()
    &&& match cart0.write_token(addr, val) {
        Some(DeferredWrite::VRAM(off, v)) => {
            &&& pb1.vram@ == pb0.vram@.update(off as int, v)
            &&& pb1.events@ == pb0.events@.push(EventSource::VramWrite { addr: off as u16, val: v })
        },
        None => pb1 == pb0,
    }
}

impl PpuBus {
    /// The name-table RAM holds its full 2 KiB.
    pub open spec fn wf(&self) -> bool {
        self.vram@.len() == 0x800
    }

    /// A picture bus with zeroed name-table RAM and an empty trace.
    pub fn new() -> (r: PpuBus)
        ensures
            r.wf(),
            r.events@ == Seq::<EventSource>::empty(),
            forall|i: int| 0 <= i < 0x800 ==> r.vram@[i] == 0u8,
    {
        let mut vram: Vec<u8> = Vec::new();
        let mut i: usize = 0;
        while i < 0x800
            invariant
                vram@.len() == i,
                i <= 0x800,
                forall|j: int| 0 <= j < i ==> vram@[j] == 0u8,
            decreases 0x800 - i,
        {
            vram.push(0u8);
            i = i + 1;
        }
        PpuBus { vram, events: Ghost(Seq::empty()) }
    }

    /// Honours a deferred read token: reads the named name-table cell and
    /// records the access.
    pub fn deferred_read(&mut self, deferred: DeferredRead) -> (val: u8)
        requires
            old(self).wf(),
            match deferred {
                DeferredRead::VRAM(off) => off < 0x800,
            },
        ensures
            final(self).wf(),
            final(self).vram == old(self).vram,
            match deferred {
                DeferredRead::VRAM(off) => {
                    &&& val == old(self).vram@[off as int]
                    &&& final(self).events@ == old(self).events@.push(
                        EventSource::VramRead { addr: off as u16, val },
                    )
                },
            },
    {
        match deferred {
            DeferredRead::VRAM(a) => {
                let val = self.vram[a];
                self.events = Ghost(
                    self.events@.push(EventSource::VramRead { addr: a as u16, val }),
                );
                val
            },
        }
    }

    /// Honours a deferred write token: updates the named name-table cell
    /// and records the access.
    pub fn deferred_write(&mut self, deferred: DeferredWrite)
        requires
            old(self).wf(),
            match deferred {
                DeferredWrite::VRAM(off, _) => off < 0x800,
            },
        ensures
            final(self).wf(),
            match deferred {
                DeferredWrite::VRAM(off, v) => {
                    &&& final(self).vram@ == old(self).vram@.update(off as int, v)
                    &&& final(self).events@ == old(self).events@.push(
                        EventSource::VramWrite { addr: off as u16, val: v },
                    )
                },
            },
    {
        match deferred {
            DeferredWrite::VRAM(a, v) => {
                self.vram[a] = v;
                self.events = Ghost(
                    self.events@.push(EventSource::VramWrite { addr: a as u16, val: v }),
                );
            },
        }
    }

    /// Reads one picture-bus byte: the cartridge serves it, or defers it to
    /// a name-table cell.
    pub fn read<C: Cart>(&mut self, cart: &mut C, addr: Addr) -> (val: u8)
        requires
            old(self).wf(),
            old(cart).inv(),
        ensures
            final(self).wf(),
            *final(cart) == *old(cart),
            final(self).vram == old(self).vram,
            val == ppu_read_value(*old(cart), *old(self), addr),
            match old(cart).read_model(addr) {
                Ok(_) => final(self).events@ == old(self).events@,
                Err(DeferredRead::VRAM(off)) => final(self).events@ == old(self).events@.push(
                    EventSource::VramRead { addr: off as u16, val },
                ),
            },
    {
        proof {
            cart.read_model_ok(addr);
        }
        match cart.read(addr) {
            Ok(x) => x,
            Err(deferred) => self.deferred_read(deferred),
        }
    }

    /// Writes one picture-bus byte: the cartridge takes it, or defers it to
    /// a name-table cell.
    pub fn write<C: Cart>(&mut self, cart: &mut C, addr: Addr, val: u8)
        requires
            old(self).wf(),
            old(cart).inv(),
        ensures
            final(self).wf(),
            final(cart).inv(),
            ppu_write_post(*old(cart), *old(self), *final(cart), *final(self), addr, val),
    {
        proof {
            cart.write_model_ok(addr, val);
        }
        if let Some(deferred) = cart.write(addr, val) {
            self.deferred_write(deferred);
        }
    }
}

} // verus!
