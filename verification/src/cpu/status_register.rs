//! The processor status byte: named flags, partial flag updates, and the
//! `(mask, value)` pairs they compose into.
//!
//! A partial update touches any subset of the seven writable flags and is
//! applied as `sr = sr & mask | val`. Bit 5 (the unused, always-set bit) is
//! never part of an update's value and always part of its mask, so composed
//! updates can never clear it.

use vstd::prelude::*;

use crate::cpu::Cpu;

verus! {

/// The seven writable flags of the status byte. Bit 5 has no flag: it is the
/// unused bit, preserved by every composed update.
#[derive(Clone, Copy)]
pub enum Sr {
    C,
    Z,
    I,
    D,
    B,
    V,
    N,
}

impl Sr {
    /// Bit position of this flag within the status byte.
    pub open spec fn bit(&self) -> usize {
        match *self {
            Sr::C => 0,
            Sr::Z => 1,
            Sr::I => 2,
            Sr::D => 3,
            Sr::B => 4,
            Sr::V => 6,
            Sr::N => 7,
        }
    }

    fn index(&self) -> (i: usize)
        ensures
            i == self.bit(),
            i < 8,
    {
        match *self {
            Sr::C => 0,
            Sr::Z => 1,
            Sr::I => 2,
            Sr::D => 3,
            Sr::B => 4,
            Sr::V => 6,
            Sr::N => 7,
        }
    }
}

/// A partial update of the status byte: `Some(b)` forces a flag to `b`,
/// `None` leaves it unchanged.
pub struct SrUpdate {
    pub c: Option<bool>,
    pub z: Option<bool>,
    pub i: Option<bool>,
    pub d: Option<bool>,
    pub b: Option<bool>,
    pub v: Option<bool>,
    pub n: Option<bool>,
}

/// The `(mask, val)` pair an update composes into; applied as
/// `sr = sr & mask | val`.
pub struct SrUpdateResult {
    mask: u8,
    val: u8,
}

impl SrUpdateResult {
    pub closed spec fn mask_spec(&self) -> u8 {
        self.mask
    }

    pub closed spec fn val_spec(&self) -> u8 {
        self.val
    }
}

/// Mask contribution of one flag: its bit is kept (set in the mask) exactly
/// when the update leaves the flag alone.
pub open spec fn mask_term(f: Option<bool>, bit: u8) -> u8 {
    match f {
        Option::None => bit,
        Option::Some(_) => 0,
    }
}

/// Value contribution of one flag: its bit is set exactly when the update
/// forces the flag to true.
pub open spec fn val_term(f: Option<bool>, bit: u8) -> u8 {
    match f {
        Option::Some(true) => bit,
        _ => 0,
    }
}

/// The mask of an update. Bit 5 is always masked in: the stored unused bit
/// survives every update.
pub open spec fn sru_mask(u: SrUpdate) -> u8 {
    mask_term(u.c, 1) | mask_term(u.z, 2) | mask_term(u.i, 4) | mask_term(u.d, 8) | mask_term(
        u.b,
        16,
    ) | 32 | mask_term(u.v, 64) | mask_term(u.n, 128)
}

/// The value of an update. No term exists for bit 5: an update can never
/// force it.
pub open spec fn sru_val(u: SrUpdate) -> u8 {
    val_term(u.c, 1) | val_term(u.z, 2) | val_term(u.i, 4) | val_term(u.d, 8) | val_term(u.b, 16)
        | val_term(u.v, 64) | val_term(u.n, 128)
}

/// The status byte after applying an update.
pub open spec fn sr_apply(sr: u8, u: SrUpdate) -> u8 {
    (sr & sru_mask(u)) | sru_val(u)
}

fn mask_term_x(f: Option<bool>, bit: u8) -> (r: u8)
    ensures
        r == mask_term(f, bit),
{
    match f {
        Option::None => bit,
        Option::Some(_) => 0,
    }
}

fn val_term_x(f: Option<bool>, bit: u8) -> (r: u8)
    ensures
        r == val_term(f, bit),
{
    match f {
        Option::Some(true) => bit,
        _ => 0,
    }
}

impl SrUpdate {
    /// The update that touches no flag at all.
    pub open spec fn empty() -> SrUpdate {
        SrUpdate { c: None, z: None, i: None, d: None, b: None, v: None, n: None }
    }

    pub fn default() -> (r: SrUpdate)
        ensures
            r == SrUpdate::empty(),
    {
        SrUpdate { c: None, z: None, i: None, d: None, b: None, v: None, n: None }
    }

    /// The update produced by a byte result: Zero iff the byte is zero,
    /// Negative iff its bit 7 is set.
    pub open spec fn nz(res: u8) -> SrUpdate {
        SrUpdate {
            c: None,
            z: Some(res == 0),
            i: None,
            d: None,
            b: None,
            v: None,
            n: Some(res >> 7 == 1),
        }
    }

    /// Sets N and Z flags from a byte result.
    pub fn num_flags(res: u8) -> (r: SrUpdate)
        ensures
            r == SrUpdate::nz(res),
    {
        SrUpdate {
            c: None,
            z: Some(res == 0),
            i: None,
            d: None,
            b: None,
            v: None,
            n: Some(res >> 7 == 1),
        }
    }

    /// Composes the update into its `(mask, val)` pair.
    pub fn result(&self) -> (r: SrUpdateResult)
        ensures
            r.mask_spec() == sru_mask(*self),
            r.val_spec() == sru_val(*self),
    {
        let mask: u8 = mask_term_x(self.c, 1) | mask_term_x(self.z, 2) | mask_term_x(self.i, 4)
            | mask_term_x(self.d, 8) | mask_term_x(self.b, 16) | 32 | mask_term_x(self.v, 64)
            | mask_term_x(self.n, 128);
        let val: u8 = val_term_x(self.c, 1) | val_term_x(self.z, 2) | val_term_x(self.i, 4)
            | val_term_x(self.d, 8) | val_term_x(self.b, 16) | val_term_x(self.v, 64) | val_term_x(
            self.n,
            128,
        );
        SrUpdateResult { mask, val }
    }
}

/// The status byte after a single flag is forced to `state`.
pub open spec fn set_flag_spec(sr: u8, flag: Sr, state: bool) -> u8 {
    if state {
        (sr & !(1u8 << flag.bit())) | (1u8 << flag.bit())
    } else {
        sr & !(1u8 << flag.bit())
    }
}

impl Cpu {
    /// Whether a flag is set in the status byte.
    pub open spec fn flag_spec(&self, flag: Sr) -> bool {
        (self.sr >> flag.bit()) & 1 == 1
    }

    pub fn update_flags(&mut self, sru: SrUpdateResult)
        ensures
            *final(self) == (Cpu {
                sr: (old(self).sr & sru.mask_spec()) | sru.val_spec(),
                ..*old(self)
            }),
    {
        self.sr = (self.sr & sru.mask_spec_x()) | sru.val_spec_x();
    }

    pub fn get_flag(&self, flag: Sr) -> (b: bool)
        ensures
            b == self.flag_spec(flag),
    {
        (self.sr >> flag.index()) & 1 == 1
    }

    pub fn set_flag(&mut self, flag: Sr, state: bool)
        ensures
            *final(self) == (Cpu { sr: set_flag_spec(old(self).sr, flag, state), ..*old(self) }),
    {
        let m: u8 = 1u8 << flag.index();
        let mut status: u8 = self.sr & !m;
        if state {
            status = status | m;
        }
        self.sr = status;
    }
}

impl SrUpdateResult {
    fn mask_spec_x(&self) -> (r: u8)
        ensures
            r == self.mask_spec(),
    {
        self.mask
    }

    fn val_spec_x(&self) -> (r: u8)
        ensures
            r == self.val_spec(),
    {
        self.val
    }
}

/// Forcing one flag touches exactly its own bit, whatever the starting
/// byte: that bit follows the forced state, every other bit is unchanged.
pub proof fn lemma_set_flag_touches_one_bit(sr: u8, flag: Sr, state: bool)
    ensures
        (set_flag_spec(sr, flag, state) >> flag.bit()) & 1 == (if state {
            1u8
        } else {
            0u8
        }),
        forall|i: usize|
            i < 8 && i != flag.bit() ==> (set_flag_spec(sr, flag, state) >> i) & 1 == (sr >> i)
                & 1,
{
    let b = flag.bit();
    let r = set_flag_spec(sr, flag, state);
    if state {
        assert(((sr & !(1u8 << b)) | (1u8 << b)) >> b & 1 == 1) by (bit_vector)
            requires
                b < 8,
        ;
    } else {
        assert((sr & !(1u8 << b)) >> b & 1 == 0) by (bit_vector)
            requires
                b < 8,
        ;
    }
    assert forall|i: usize| i < 8 && i != b implies (r >> i) & 1 == (sr >> i) & 1 by {
        if state {
            assert(((sr & !(1u8 << b)) | (1u8 << b)) >> i & 1 == (sr >> i) & 1) by (bit_vector)
                requires
                    b < 8,
                    i < 8,
                    i != b,
            ;
        } else {
            assert((sr & !(1u8 << b)) >> i & 1 == (sr >> i) & 1) by (bit_vector)
                requires
                    b < 8,
                    i < 8,
                    i != b,
            ;
        }
    }
}

/// Applying any status update twice leaves the same byte as applying it once.
pub proof fn lemma_sr_apply_idempotent(sr: u8, u: SrUpdate)
    ensures
        sr_apply(sr_apply(sr, u), u) == sr_apply(sr, u),
{
    let m = sru_mask(u);
    let v = sru_val(u);
    assert(((((sr & m) | v) & m) | v) == ((sr & m) | v)) by (bit_vector);
}

/// Bit 5 of the status byte (the unused, always-set bit) is preserved by
/// every composed status update: it is always in the mask and never in the
/// value.
pub proof fn lemma_sr_apply_preserves_bit5(sr: u8, u: SrUpdate)
    ensures
        (sr_apply(sr, u) & 0x20) == (sr & 0x20),
{
    let m = sru_mask(u);
    let v = sru_val(u);
    let m1 = mask_term(u.c, 1);
    let m2 = mask_term(u.z, 2);
    let m4 = mask_term(u.i, 4);
    let m8 = mask_term(u.d, 8);
    let m16 = mask_term(u.b, 16);
    let m64 = mask_term(u.v, 64);
    let m128 = mask_term(u.n, 128);
    assert((m1 | m2 | m4 | m8 | m16 | 32 | m64 | m128) & 0x20 == 0x20) by (bit_vector);
    let v1 = val_term(u.c, 1);
    let v2 = val_term(u.z, 2);
    let v4 = val_term(u.i, 4);
    let v8 = val_term(u.d, 8);
    let v16 = val_term(u.b, 16);
    let v64 = val_term(u.v, 64);
    let v128 = val_term(u.n, 128);
    assert((v1 | v2 | v4 | v8 | v16 | v64 | v128) & 0x20 == 0) by (bit_vector)
        requires
            v1 == 0 || v1 == 1,
            v2 == 0 || v2 == 2,
            v4 == 0 || v4 == 4,
            v8 == 0 || v8 == 8,
            v16 == 0 || v16 == 16,
            v64 == 0 || v64 == 64,
            v128 == 0 || v128 == 128,
    ;
    assert(((sr & m) | v) & 0x20 == sr & 0x20) by (bit_vector)
        requires
            m & 0x20 == 0x20,
            v & 0x20 == 0,
    ;
}

} // verus!
