//! The register-side model of the picture unit: the eight CPU-visible
//! registers, the two-phase address latch, the data-port auto-increment,
//! and the deferred path into name-table RAM.

use vstd::prelude::*;

use crate::bus::ppu_bus::{ppu_read_value, ppu_write_post, PpuBus};
use crate::bus::Addr;
use crate::cart::{Cart, DeferredRead};
use crate::cpu::wrap_add16;

verus! {

/// Which surface a rendered pixel belongs to: the visible screen, or the
/// left pattern-table debug view.
pub enum PixelSource {
    Screen,
    Left,
}

/// An RGB colour handed to a screen sink.
pub type Color = (u8, u8, u8);

/// The pluggable screen sink a host provides. The rasterisation pipeline
/// that would drive it is outside this core; the picture unit merely keeps
/// the sink.
pub trait Screen {
    fn put_pixel(&mut self, row: u16, col: u16, c: Color);
}

/// The picture unit as the CPU observes it: the shadow register bank,
/// sprite-attribute RAM (stubbed storage), the control and status
/// registers, the 14-bit picture-bus address with its two-phase latch, and
/// the unit's own monotonic time.
pub struct Ppu<S: Screen> {
    pub regs: Vec<u8>,
    pub oam: Vec<u8>,
    pub ppu_ctrl: u8,
    pub ppu_status: u8,
    pub ppu_addr: u16,
    pub addr_latch: Option<u8>,
    pub screen: S,
    pub time: u128,
}

impl<S: Screen> Ppu<S> {
    /// The register bank holds its eight bytes and the sprite RAM its 256.
    pub open spec fn wf(&self) -> bool {
        &&& self.regs@.len() == 8
        &&& self.oam@.len() == 0x100
    }

    /// A picture unit in its power-on state, all storage zeroed.
    pub fn new(screen: S) -> (r: Ppu<S>)
        ensures
            r.wf(),
            r.ppu_ctrl == 0,
            r.ppu_status == 0,
            r.ppu_addr == 0,
            r.addr_latch is None,
            r.time == 0,
            forall|i: int| 0 <= i < 8 ==> r.regs@[i] == 0u8,
            forall|i: int| 0 <= i < 0x100 ==> r.oam@[i] == 0u8,
    {
        let mut regs: Vec<u8> = Vec::new();
        let mut i: usize = 0;
        while i < 8
            invariant
                regs@.len() == i,
                i <= 8,
                forall|j: int| 0 <= j < i ==> regs@[j] == 0u8,
            decreases 8 - i,
        {
            regs.push(0u8);
            i = i + 1;
        }
        let mut oam: Vec<u8> = Vec::new();
        let mut k: usize = 0;
        while k < 0x100
            invariant
                oam@.len() == k,
                k <= 0x100,
                forall|j: int| 0 <= j < k ==> oam@[j] == 0u8,
            decreases 0x100 - k,
        {
            oam.push(0u8);
            k = k + 1;
        }
        Ppu {
            regs,
            oam,
            ppu_ctrl: 0,
            ppu_status: 0,
            ppu_addr: 0,
            addr_latch: None,
            screen,
            time: 0,
        }
    }

    /// The picture unit as it stands after catching up to time `t`: if any
    /// time passed, the per-tick placeholder has pinned the vblank bit.
    pub open spec fn caught_up(self, t: u128) -> Ppu<S> {
        Ppu {
            time: t,
            ppu_status: if t > self.time {
                0x80u8
            } else {
                self.ppu_status
            },
            ..self
        }
    }

    /// One picture-unit time step. The rasterisation pipeline is out of
    /// scope here; the step pins the status register's vblank bit set, a
    /// placeholder that lets polling hosts make progress.
    pub fn tick(&mut self)
        ensures
            *final(self) == (Ppu { ppu_status: 0x80u8, ..*old(self) }),
    {
        self.ppu_status = 0x80;
    }

    /// Catches the unit up to the emulator's time, running one tick per
    /// elapsed unit.
    pub fn catch_up(&mut self, time: u128)
        requires
            time >= old(self).time,
        ensures
            *final(self) == (Ppu {
                time,
                ppu_status: if time > old(self).time {
                    0x80u8
                } else {
                    old(self).ppu_status
                },
                ..*old(self)
            }),
    {
        let elapsed = time - self.time;
        self.time = time;
        let mut i: u128 = 0;
        while i < elapsed
            invariant
                i <= elapsed,
                *self == (Ppu {
                    time,
                    ppu_status: if i > 0 {
                        0x80u8
                    } else {
                        old(self).ppu_status
                    },
                    ..*old(self)
                }),
            decreases elapsed - i,
        {
            self.tick();
            i = i + 1;
        }
    }

    /// A CPU-side read of one of the eight registers. `0x2002` returns the
    /// status byte and clears the address latch; `0x2007` reads the picture
    /// bus at the latched address and auto-increments it by 1 or 32
    /// depending on control bit 2; every other register reads its shadow
    /// byte.
    pub fn read<C: Cart>(&mut self, addr: Addr, cart: &mut C, ppu_bus: &mut PpuBus) -> (val: u8)
        requires
            old(self).wf(),
            old(cart).inv(),
            old(ppu_bus).wf(),
            0x2000 <= addr < 0x2008,
        ensures
            final(self).wf(),
            final(ppu_bus).wf(),
            final(cart).inv(),
            if addr == 0x2002 {
                &&& val == old(self).ppu_status
                &&& *final(self) == (Ppu { addr_latch: None, ..*old(self) })
                &&& *final(cart) == *old(cart)
                &&& *final(ppu_bus) == *old(ppu_bus)
            } else if addr == 0x2007 {
                let inc: u16 = if old(self).ppu_ctrl & 0b100 == 0 {
                    1u16
                } else {
                    32u16
                };
                &&& val == ppu_read_value(*old(cart), *old(ppu_bus), old(self).ppu_addr)
                &&& *final(self) == (Ppu {
                    ppu_addr: wrap_add16(old(self).ppu_addr, inc),
                    ..*old(self)
                })
                &&& *final(cart) == *old(cart)
                &&& final(ppu_bus).vram == old(ppu_bus).vram
                &&& match old(cart).read_model(old(self).ppu_addr) {
                    Ok(_) => final(ppu_bus).events@ == old(ppu_bus).events@,
                    Err(DeferredRead::VRAM(off)) => final(ppu_bus).events@ == old(
                        ppu_bus,
                    ).events@.push(crate::nes::EventSource::VramRead { addr: off as u16, val }),
                }
            } else {
                &&& val == old(self).regs@[addr - 0x2000]
                &&& *final(self) == *old(self)
                &&& *final(cart) == *old(cart)
                &&& *final(ppu_bus) == *old(ppu_bus)
            },
    {
        if addr == 0x2002 {
            self.addr_latch = None;
            self.ppu_status
        } else if addr == 0x2007 {
            let inc: u16 = if self.ppu_ctrl & 0b100 == 0 {
                1
            } else {
                32
            };
            let val = ppu_bus.read(cart, self.ppu_addr);
            self.ppu_addr = self.ppu_addr.wrapping_add(inc);
            val
        } else {
            self.regs[(addr - 0x2000) as usize]
        }
    }

    /// A CPU-side write to one of the eight registers. `0x2000` stores the
    /// control byte; `0x2006` latches the address high half first, then
    /// combines it with the low half modulo `0x4000`; `0x2007` writes the
    /// picture bus at the latched address and auto-increments it; every
    /// other register stores its shadow byte.
    pub fn write<C: Cart>(&mut self, addr: Addr, val: u8, cart: &mut C, ppu_bus: &mut PpuBus)
        requires
            old(self).wf(),
            old(cart).inv(),
            old(ppu_bus).wf(),
            0x2000 <= addr < 0x2008,
        ensures
            final(self).wf(),
            final(ppu_bus).wf(),
            final(cart).inv(),
            if addr == 0x2000 {
                &&& *final(self) == (Ppu { ppu_ctrl: val, ..*old(self) })
                &&& *final(cart) == *old(cart)
                &&& *final(ppu_bus) == *old(ppu_bus)
            } else if addr == 0x2006 {
                &&& *final(self) == (match old(self).addr_latch {
                    None => Ppu { addr_latch: Some(val), ..*old(self) },
                    Some(x) => Ppu {
                        ppu_addr: (((x as int) * 256 + val) % 0x4000) as u16,
                        addr_latch: None,
                        ..*old(self)
                    },
                })
                &&& *final(cart) == *old(cart)
                &&& *final(ppu_bus) == *old(ppu_bus)
            } else if addr == 0x2007 {
                let inc: u16 = if old(self).ppu_ctrl & 0b100 == 0 {
                    1u16
                } else {
                    32u16
                };
                &&& *final(self) == (Ppu {
                    ppu_addr: wrap_add16(old(self).ppu_addr, inc),
                    ..*old(self)
                })
                &&& ppu_write_post(
                    *old(cart),
                    *old(ppu_bus),
                    *final(cart),
                    *final(ppu_bus),
                    old(self).ppu_addr,
                    val,
                )
            } else {
                &&& *final(self) == (Ppu {
                    regs: final(self).regs,
                    ..*old(self)
                })
                &&& final(self).regs@ == old(self).regs@.update(addr - 0x2000, val)
                &&& *final(cart) == *old(cart)
                &&& *final(ppu_bus) == *old(ppu_bus)
            },
    {
        if addr == 0x2000 {
            self.ppu_ctrl = val;
        } else if addr == 0x2006 {
            match self.addr_latch {
                None => {
                    self.addr_latch = Some(val);
                },
                Some(x) => {
                    let address: u16 = (x as u16) * 256 + (val as u16);
                    self.ppu_addr = address % 0x4000;
                    self.addr_latch = None;
                },
            }
        } else if addr == 0x2007 {
            let inc: u16 = if self.ppu_ctrl & 0b100 == 0 {
                1
            } else {
                32
            };
            let a = self.ppu_addr;
            ppu_bus.write(cart, a, val);
            self.ppu_addr = self.ppu_addr.wrapping_add(inc);
        } else {
            self.regs[(addr - 0x2000) as usize] = val;
        }
    }
}

/// The 2-bit colour index of one pixel of a 16-byte pattern tile: bit
/// `7 - c` of plane byte `r`, under the same bit of the second plane.
pub open spec fn tile_color_idx(tile: Seq<u8>, r: int, c: int) -> u8 {
    ((tile[r] >> (7 - c)) & 1) | (((tile[8 + r] >> (7 - c)) & 1) << 1)
}

/// The fixed palette of the pattern-table debug view.
pub open spec fn debug_palette(idx: u8) -> (u8, u8, u8) {
    if idx == 0 {
        (0u8, 0u8, 0u8)
    } else if idx == 1 {
        (255u8, 0u8, 0u8)
    } else if idx == 2 {
        (0u8, 255u8, 0u8)
    } else {
        (0u8, 0u8, 255u8)
    }
}

/// The frame row where a tile's top-left pixel lands: tiles fill a 16 x 16
/// grid, eight pixels per step.
pub open spec fn tile_row_start(tile_idx: int) -> int {
    ((tile_idx / 16) % 16) * 8
}

/// The frame column where a tile's leftmost pixel lands; the second
/// pattern table starts at column 128.
pub open spec fn tile_col_start(tile_idx: int) -> int {
    (tile_idx % 16) * 8 + if tile_idx >= 256 {
        128int
    } else {
        0int
    }
}

/// The byte at frame offset `i` after a tile has been drawn: inside the
/// tile's 8 x 8 cell, the palette component of the pixel's colour index
/// (RGBA order, alpha 255); outside it, the byte `old_b` it already held.
pub open spec fn tile_byte(tile: Seq<u8>, tile_idx: int, old_b: u8, i: int) -> u8 {
    let r = (i / 4) / 256 - tile_row_start(tile_idx);
    let c = (i / 4) % 256 - tile_col_start(tile_idx);
    if 0 <= r < 8 && 0 <= c < 8 {
        let rgb = debug_palette(tile_color_idx(tile, r, c));
        let ch = i % 4;
        if ch == 0 {
            rgb.0
        } else if ch == 1 {
            rgb.1
        } else if ch == 2 {
            rgb.2
        } else {
            255u8
        }
    } else {
        old_b
    }
}

/// Rasterises one 16-byte pattern tile into a 256 x 128 RGBA frame for the
/// pattern-table debug view: each of its 64 pixels is painted with the
/// fixed palette, and no byte outside the tile's cell is touched.
pub fn draw_tile(frame: &mut Vec<u8>, tile_idx: usize, tile: &Vec<u8>)
    requires
        old(frame)@.len() == 0x20000,
        tile_idx < 512,
        tile@.len() == 16,
    ensures
        final(frame)@.len() == 0x20000,
        forall|i: int|
            0 <= i < 0x20000 ==> final(frame)@[i] == tile_byte(
                tile@,
                tile_idx as int,
                old(frame)@[i],
                i,
            ),
{
    let row_start: usize = ((tile_idx / 16) % 16) * 8;
    let col_start: usize = (tile_idx % 16) * 8 + (if tile_idx >= 256 {
        128
    } else {
        0
    });
    let mut p: usize = 0;
    while p < 64
        invariant
            p <= 64,
            tile_idx < 512,
            tile@.len() == 16,
            frame@.len() == 0x20000,
            row_start == tile_row_start(tile_idx as int),
            col_start == tile_col_start(tile_idx as int),
            forall|i: int|
                0 <= i < 0x20000 ==> frame@[i] == ({
                    let r = (i / 4) / 256 - row_start;
                    let c = (i / 4) % 256 - col_start;
                    if 0 <= r < 8 && 0 <= c < 8 && r * 8 + c < p {
                        tile_byte(tile@, tile_idx as int, old(frame)@[i], i)
                    } else {
                        old(frame)@[i]
                    }
                }),
        decreases 64 - p,
    {
        let d_row = p / 8;
        let d_col = p % 8;
        let bit0 = (tile[d_row] >> (7 - d_col)) & 1;
        let bit1 = ((tile[8 + d_row] >> (7 - d_col)) & 1) << 1;
        let idx = bit0 | bit1;
        let (r, g, b): (u8, u8, u8) = if idx == 0 {
            (0, 0, 0)
        } else if idx == 1 {
            (255, 0, 0)
        } else if idx == 2 {
            (0, 255, 0)
        } else {
            (0, 0, 255)
        };
        let si = (col_start + d_col) + (row_start + d_row) * 256;
        frame[si * 4] = r;
        frame[si * 4 + 1] = g;
        frame[si * 4 + 2] = b;
        frame[si * 4 + 3] = 255;
        proof {
            assert(si == (col_start + d_col) + (row_start + d_row) * 256);
            assert(col_start + d_col < 256);
            assert((si * 4) / 4 == si && (si * 4 + 1) / 4 == si && (si * 4 + 2) / 4 == si && (si
                * 4 + 3) / 4 == si);
            assert((si as int) / 256 == row_start + d_row && (si as int) % 256 == col_start
                + d_col) by (nonlinear_arith)
                requires
                    si == (col_start + d_col) + (row_start + d_row) * 256,
                    col_start + d_col < 256,
                    row_start + d_row < 128,
            ;
        }
        p = p + 1;
    }
}

} // verus!
