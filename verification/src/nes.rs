//! The outer emulator: the CPU coupled to a bus, advanced by a global
//! monotonic tick, plus the tagged events that make bus traffic observable.

use vstd::prelude::*;

use crate::bus::{ev_val, Bus};
use crate::cpu::{le16, tick_post, Cpu};

verus! {

/// One observable memory event. Every CPU-visible bus cycle is recorded as a
/// `BusRead` or `BusWrite`; accesses that the cartridge defers into
/// name-table RAM are recorded on the picture bus as `VramRead` /
/// `VramWrite`.
#[derive(Clone, Copy, PartialEq, Eq, Structural, Debug)]
pub enum EventSource {
    BusRead { addr: u16, val: u8 },
    BusWrite { addr: u16, val: u8 },
    VramRead { addr: u16, val: u8 },
    VramWrite { addr: u16, val: u8 },
}

/// The whole emulator: the CPU, the bus it drives, and the global monotonic
/// time that keeps them synchronised.
pub struct Nes<B: Bus> {
    pub cpu: Cpu,
    pub bus: B,
    pub time: u128,
}

impl<B: Bus> Nes<B> {
    /// The CPU's dispatch table is intact, the bus is well-formed, and both
    /// clocks have caught up to the emulator's time.
    pub open spec fn wf(&self) -> bool {
        &&& self.cpu.wf()
        &&& self.bus.wf()
        &&& self.cpu.time == self.time
        &&& self.bus.time_spec() == self.time
    }

    /// Builds the emulator around a bus and performs the reset sequence:
    /// the program counter is loaded from the little-endian reset vector at
    /// `0xFFFC`-`0xFFFD`, read over the bus, with the CPU otherwise in its
    /// power-on state.
    pub fn new(bus: B) -> (r: Nes<B>)
        requires
            bus.wf(),
            bus.time_spec() == 0,
        ensures
            r.wf(),
            r.time == 0,
            ({
                let ev = r.bus.events();
                let n = bus.events().len() as int;
                let lo = ev_val(ev[n]);
                let hi = ev_val(ev[n + 1]);
                &&& ev == bus.events().push(EventSource::BusRead { addr: 0xfffc, val: lo }).push(
                    EventSource::BusRead { addr: 0xfffd, val: hi },
                )
                &&& r.cpu == (Cpu { pc: le16(lo, hi), ..Cpu::power_on(r.cpu.lut) })
            }),
    {
        let mut cpu = Cpu::new();
        let mut bus = bus;
        let lo = bus.read(0xfffc);
        let hi = bus.read(0xfffd);
        cpu.pc = (hi as u16) * 256 + (lo as u16);
        Nes { cpu, bus, time: 0 }
    }

    /// Advances global time by one unit and lets the bus and then the CPU
    /// catch up; exactly one instruction retires unless the CPU is jammed
    /// or faulted, in which case only time passes.
    pub fn tick(&mut self)
        requires
            old(self).wf(),
            old(self).time < u128::MAX,
        ensures
            final(self).wf(),
            final(self).time == old(self).time + 1,
            final(self).bus.events().len() >= old(self).bus.events().len(),
            final(self).bus.events().take(old(self).bus.events().len() as int) == old(
                self,
            ).bus.events(),
            (!old(self).cpu.jammed && !old(self).cpu.faulted) ==> tick_post(
                Cpu { time: (old(self).time + 1) as u128, ..old(self).cpu },
                final(self).cpu,
                old(self).bus.events(),
                final(self).bus.events(),
            ),
            (old(self).cpu.jammed || old(self).cpu.faulted) ==> (final(self).bus.events() == old(
                self,
            ).bus.events() && final(self).cpu == (Cpu {
                time: (old(self).time + 1) as u128,
                ..old(self).cpu
            })),
    {
        self.time = self.time + 1;
        let t = self.time;
        self.bus.catch_up(t);
        self.cpu.catch_up(t, &mut self.bus);
    }
}

} // verus!
