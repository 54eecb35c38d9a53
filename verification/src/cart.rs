//! The cartridge abstraction: reads and writes that either produce a byte
//! directly or hand back a deferred name-table token, so that name-table
//! mirroring stays under cartridge control while the picture bus owns the
//! RAM.

pub mod header;
pub mod mapper;

use vstd::prelude::*;

use crate::bus::Addr;

verus! {

/// Indicates an error decoding a .nes file.
#[derive(Debug, Clone, Copy, PartialEq, Eq, Structural)]
pub struct DecodeError;

/// A read the cartridge routes into the picture unit's name-table RAM; the
/// offset is always below `0x800`.
#[derive(Debug, Clone, Copy, PartialEq, Eq, Structural)]
pub enum DeferredRead {
    VRAM(usize),
}

/// A write the cartridge routes into the picture unit's name-table RAM,
/// carrying the offset (below `0x800`) and the byte.
#[derive(Debug, Clone, Copy, PartialEq, Eq, Structural)]
pub enum DeferredWrite {
    VRAM(usize, u8),
}

/// A cartridge as the bus and picture unit see it. Reads are pure; writes
/// transform the cartridge state; both may defer a name-table access to the
/// picture bus instead of serving it themselves.
pub trait Cart: Sized {
    /// The cartridge's structural invariant.
    spec fn inv(&self) -> bool;

    /// What a read returns: a byte, or a deferred name-table access.
    spec fn read_model(&self, addr: Addr) -> Result<u8, DeferredRead>;

    /// What a read at `raddr` returns after `val` has been written at
    /// `waddr`: the cartridge state after a write, characterised by every
    /// read of it.
    spec fn write_read_model(&self, waddr: Addr, val: u8, raddr: Addr) -> Result<u8, DeferredRead>;

    /// The deferred token a write hands back, if any.
    spec fn write_token(&self, addr: Addr, val: u8) -> Option<DeferredWrite>;

    /// The CHR snapshot the cartridge offers, if any.
    spec fn chr_model(&self) -> Option<Seq<u8>>;

    /// A deferred read names a cell of the 2 KiB name-table RAM, and reads
    /// of CPU-side addresses are never deferred.
    proof fn read_model_ok(&self, addr: Addr)
        requires
            self.inv(),
        ensures
            self.read_model(addr) matches Err(DeferredRead::VRAM(off)) ==> off < 0x800,
            addr >= 0x4000 ==> self.read_model(addr) is Ok,
    ;

    /// A deferred write names a name-table cell and carries the written
    /// byte; writes at CPU-side addresses are never deferred.
    proof fn write_model_ok(&self, addr: Addr, val: u8)
        requires
            self.inv(),
        ensures
            self.write_token(addr, val) matches Some(DeferredWrite::VRAM(off, v)) ==> off < 0x800
                && v == val,
            addr >= 0x4000 ==> self.write_token(addr, val) is None,
    ;

    /// A CHR snapshot, when offered, is the full 8 KiB pattern table.
    proof fn chr_model_ok(&self)
        requires
            self.inv(),
        ensures
            self.chr_model() matches Some(s) ==> s.len() == 0x2000,
    ;

    /// Serves a read, or defers it to name-table RAM.
    fn read(&mut self, address: Addr) -> (r: Result<u8, DeferredRead>)
        requires
            old(self).inv(),
        ensures
            *final(self) == *old(self),
            r == old(self).read_model(address),
    ;

    /// Serves a write, or defers it to name-table RAM.
    fn write(&mut self, address: Addr, val: u8) -> (r: Option<DeferredWrite>)
        requires
            old(self).inv(),
        ensures
            final(self).inv(),
            r == old(self).write_token(address, val),
            forall|a: Addr|
                final(self).read_model(a) == old(self).write_read_model(address, val, a),
            final(self).chr_model() == old(self).chr_model(),
    ;

    /// A debug snapshot of CHR ROM for the frontend, if the cartridge has
    /// one to give.
    fn chr(&self) -> (r: Option<Vec<u8>>)
        requires
            self.inv(),
        ensures
            (r is Some) == (self.chr_model() is Some),
            r matches Some(v) ==> self.chr_model() == Some(v@),
    ;
}

} // verus!
