//! The 6502 CPU core: registers, program counter, stack, and the
//! fetch/decode/dispatch loop.

pub mod instrs;
pub mod status_register;

use vstd::prelude::*;

use crate::bus::{ev_addr, ev_val, is_read_at, Addr, Bus};
use crate::cpu::instrs::Instr;
use crate::nes::EventSource;

verus! {

/// 16-bit addition that wraps around, as the program counter and effective
/// addresses do.
pub open spec fn wrap_add16(a: u16, b: u16) -> u16 {
    if a + b > 0xffff {
        (a + b - 0x10000) as u16
    } else {
        (a + b) as u16
    }
}

/// The program counter after one fetch.
pub open spec fn wrap_inc16(a: u16) -> u16 {
    wrap_add16(a, 1)
}

/// 8-bit addition that wraps within the byte, as zero-page indexing and the
/// stack pointer do.
pub open spec fn wrap_add8(a: u8, b: u8) -> u8 {
    if a + b > 0xff {
        (a + b - 0x100) as u8
    } else {
        (a + b) as u8
    }
}

/// 8-bit subtraction that wraps within the byte.
pub open spec fn wrap_sub8(a: u8, b: u8) -> u8 {
    if a - b < 0 {
        (a - b + 0x100) as u8
    } else {
        (a - b) as u8
    }
}

/// The 16-bit word formed from a little-endian byte pair.
pub open spec fn le16(lo: u8, hi: u8) -> u16 {
    (hi * 0x100 + lo) as u16
}

/// The stack cell named by a stack pointer: the pointer offset into page 1.
pub open spec fn stack_addr(sp: u8) -> u16 {
    (0x100 + sp) as u16
}

/// Whether indexing carried into the address's high byte: the page-crossing
/// condition that costs read-form indexed addressing its penalty cycle.
pub open spec fn crosses_page(base: u16, eff: u16) -> bool {
    base >> 8 != eff >> 8
}

/// The mis-computed intermediate address touched by an indexed fix-up cycle:
/// the new low byte under the not-yet-carried high byte.
pub open spec fn fixup_addr(base: u16, eff: u16) -> u16 {
    (base & 0xff00) | (eff & 0xff)
}

/// Where the high byte of an indirect jump pointer is fetched from: the
/// pointer plus one, except that the increment wraps within the pointer's
/// own page (the 6502's indirect-jump address-bus bug).
pub open spec fn indirect_high_addr(ptr: u16) -> u16 {
    if ptr & 0xff == 0xff {
        ptr & 0xff00
    } else {
        (ptr + 1) as u16
    }
}

/// The addressing forms of the 6502. `force_cycle` on the absolute indexed
/// forms makes the fix-up cycle unconditional, as read-modify-write and
/// store instructions require.
#[derive(Clone, Copy)]
pub enum AddrMode {
    Immediate,
    Absolute,
    ZeroPage,
    AbsoluteX { force_cycle: bool },
    AbsoluteY { force_cycle: bool },
    IndexedZX,
    IndexedZY,
    Indirect,
    IndirectX,
    IndirectY,
    Relative,
}

/// What `read_addr` does for an absolute indexed mode: two operand fetches,
/// the effective address formed with 16-bit wrap, and the fix-up read when
/// the page is crossed or the caller forces it.
pub open spec fn abs_indexed_post(
    pre: Cpu,
    post: Cpu,
    ev0: Seq<EventSource>,
    ev1: Seq<EventSource>,
    index: u8,
    force: bool,
    addr: u16,
) -> bool {
    let n = ev0.len() as int;
    let base = le16(ev_val(ev1[n]), ev_val(ev1[n + 1]));
    let eff = wrap_add16(base, index as u16);
    &&& ev1.take(n) == ev0
    &&& is_read_at(ev1[n], pre.pc)
    &&& is_read_at(ev1[n + 1], wrap_inc16(pre.pc))
    &&& post.pc == wrap_add16(pre.pc, 2)
    &&& addr == eff
    &&& if force || crosses_page(base, eff) {
        ev1.len() == n + 3 && is_read_at(ev1[n + 2], fixup_addr(base, eff))
    } else {
        ev1.len() == n + 2
    }
}

/// What `read_addr` does for a zero-page indexed mode: an operand fetch, a
/// dummy read at the un-indexed zero-page address, and the index added
/// modulo 256.
pub open spec fn zp_indexed_post(
    pre: Cpu,
    post: Cpu,
    ev0: Seq<EventSource>,
    ev1: Seq<EventSource>,
    index: u8,
    addr: u16,
) -> bool {
    let n = ev0.len() as int;
    let base = ev_val(ev1[n]);
    &&& ev1.len() == n + 2
    &&& ev1.take(n) == ev0
    &&& is_read_at(ev1[n], pre.pc)
    &&& is_read_at(ev1[n + 1], base as u16)
    &&& post.pc == wrap_inc16(pre.pc)
    &&& addr == wrap_add8(base, index) as u16
}

/// The exact effect of `read_addr`, mode by mode: which bus cycles it
/// performs, in order and at which addresses, how the program counter moves,
/// and how the effective address is formed from the bytes the bus returned
/// (`ev1` is the full event trace after the call, so the fetched operand
/// bytes are read off it).
pub open spec fn read_addr_post(
    pre: Cpu,
    post: Cpu,
    ev0: Seq<EventSource>,
    ev1: Seq<EventSource>,
    mode: AddrMode,
    addr: u16,
) -> bool {
    let n = ev0.len() as int;
    match mode {
        AddrMode::Immediate => {
            &&& ev1 == ev0
            &&& post.pc == wrap_inc16(pre.pc)
            &&& addr == pre.pc
        },
        AddrMode::Absolute => {
            &&& ev1.len() == n + 2
            &&& ev1.take(n) == ev0
            &&& is_read_at(ev1[n], pre.pc)
            &&& is_read_at(ev1[n + 1], wrap_inc16(pre.pc))
            &&& post.pc == wrap_add16(pre.pc, 2)
            &&& addr == le16(ev_val(ev1[n]), ev_val(ev1[n + 1]))
        },
        AddrMode::ZeroPage => {
            &&& ev1.len() == n + 1
            &&& ev1.take(n) == ev0
            &&& is_read_at(ev1[n], pre.pc)
            &&& post.pc == wrap_inc16(pre.pc)
            &&& addr == ev_val(ev1[n]) as u16
        },
        AddrMode::AbsoluteX { force_cycle } => abs_indexed_post(
            pre,
            post,
            ev0,
            ev1,
            pre.x,
            force_cycle,
            addr,
        ),
        AddrMode::AbsoluteY { force_cycle } => abs_indexed_post(
            pre,
            post,
            ev0,
            ev1,
            pre.y,
            force_cycle,
            addr,
        ),
        AddrMode::IndexedZX => zp_indexed_post(pre, post, ev0, ev1, pre.x, addr),
        AddrMode::IndexedZY => zp_indexed_post(pre, post, ev0, ev1, pre.y, addr),
        AddrMode::Indirect => {
            let ptr = le16(ev_val(ev1[n]), ev_val(ev1[n + 1]));
            &&& ev1.len() == n + 4
            &&& ev1.take(n) == ev0
            &&& is_read_at(ev1[n], pre.pc)
            &&& is_read_at(ev1[n + 1], wrap_inc16(pre.pc))
            &&& is_read_at(ev1[n + 2], ptr)
            &&& is_read_at(ev1[n + 3], indirect_high_addr(ptr))
            &&& post.pc == wrap_add16(pre.pc, 2)
            &&& addr == le16(ev_val(ev1[n + 2]), ev_val(ev1[n + 3]))
        },
        AddrMode::IndirectX => {
            let base = ev_val(ev1[n]);
            let p = wrap_add8(base, pre.x);
            &&& ev1.len() == n + 4
            &&& ev1.take(n) == ev0
            &&& is_read_at(ev1[n], pre.pc)
            &&& is_read_at(ev1[n + 1], base as u16)
            &&& is_read_at(ev1[n + 2], p as u16)
            &&& is_read_at(ev1[n + 3], wrap_add8(p, 1) as u16)
            &&& post.pc == wrap_inc16(pre.pc)
            &&& addr == le16(ev_val(ev1[n + 2]), ev_val(ev1[n + 3]))
        },
        AddrMode::IndirectY => {
            let base = ev_val(ev1[n]);
            let ptr = le16(ev_val(ev1[n + 1]), ev_val(ev1[n + 2]));
            let eff = wrap_add16(ptr, pre.y as u16);
            &&& ev1.take(n) == ev0
            &&& is_read_at(ev1[n], pre.pc)
            &&& is_read_at(ev1[n + 1], base as u16)
            &&& is_read_at(ev1[n + 2], wrap_add8(base, 1) as u16)
            &&& post.pc == wrap_inc16(pre.pc)
            &&& addr == eff
            &&& if crosses_page(ptr, eff) {
                ev1.len() == n + 4 && is_read_at(ev1[n + 3], fixup_addr(ptr, eff))
            } else {
                ev1.len() == n + 3
            }
        },
        AddrMode::Relative => false,
    }
}

/// Stack wrap-around: pushing with the stack pointer at zero writes the
/// bottom of page 1 and leaves the pointer at `0xFF`, so the next push
/// writes the top of page 1; popping wraps the same way in reverse.
pub proof fn lemma_stack_wrap()
    ensures
        stack_addr(0) == 0x100,
        wrap_sub8(0, 1) == 0xff,
        stack_addr(0xff) == 0x1ff,
        wrap_add8(0xff, 1) == 0,
{
}

/// Page wrap on indirect jumps: the pointer's high byte is always fetched
/// from the same page as its low byte — one past the pointer normally, but
/// from the bottom of the pointer's own page when its low byte is `0xFF`.
pub proof fn lemma_indirect_page_wrap(ptr: u16)
    ensures
        indirect_high_addr(ptr) >> 8 == ptr >> 8,
        ptr & 0xff != 0xff ==> indirect_high_addr(ptr) == ptr + 1,
        ptr & 0xff == 0xff ==> indirect_high_addr(ptr) == ptr & 0xff00,
{
    assert(ptr & 0xff == 0xff ==> (ptr & 0xff00) >> 8 == ptr >> 8) by (bit_vector);
    assert(ptr & 0xff != 0xff ==> ptr < 0xffff && ((ptr + 1) as u16) >> 8 == ptr >> 8)
        by (bit_vector);
}

/// The page-crossing condition compared the way the hardware manuals state
/// it: indexing crossed a page exactly when the high bytes of base and
/// effective address differ.
pub proof fn lemma_crosses_page_high_byte(base: u16, eff: u16)
    ensures
        crosses_page(base, eff) <==> (base & 0xff00) != (eff & 0xff00),
{
    assert((base >> 8 != eff >> 8) <==> (base & 0xff00) != (eff & 0xff00)) by (bit_vector);
}

/// The indexed page-cross penalty: under `abs_indexed_post` — the contract
/// of both absolute indexed modes — a crossing read-form access performs
/// exactly one extra read, at the mis-computed fix-up address; a write-form
/// access (`force`) always performs it; and a non-crossing read-form access
/// never does.
pub proof fn lemma_indexed_page_cross_penalty(
    pre: Cpu,
    post: Cpu,
    ev0: Seq<EventSource>,
    ev1: Seq<EventSource>,
    index: u8,
    force: bool,
    addr: u16,
)
    requires
        abs_indexed_post(pre, post, ev0, ev1, index, force, addr),
    ensures
        ({
            let n = ev0.len() as int;
            let base = le16(ev_val(ev1[n]), ev_val(ev1[n + 1]));
            let eff = wrap_add16(base, index as u16);
            &&& crosses_page(base, eff) ==> ev1.len() == n + 3 && is_read_at(
                ev1[n + 2],
                fixup_addr(base, eff),
            )
            &&& force ==> ev1.len() == n + 3 && is_read_at(ev1[n + 2], fixup_addr(base, eff))
            &&& (!force && !crosses_page(base, eff)) ==> ev1.len() == n + 2
        }),
{
}

/// The exact effect of `read_arg`: the cycles of `read_addr` followed by one
/// operand read at the effective address, whose byte is returned.
pub open spec fn read_arg_post(
    pre: Cpu,
    post: Cpu,
    ev0: Seq<EventSource>,
    ev1: Seq<EventSource>,
    mode: AddrMode,
    val: u8,
) -> bool {
    &&& ev1.len() > ev0.len()
    &&& read_addr_post(pre, post, ev0, ev1.drop_last(), mode, ev_addr(ev1.last()))
    &&& ev1.last() is BusRead
    &&& val == ev_val(ev1.last())
}

/// Register state of the 6502 core.
///
/// The status byte `sr` packs seven named bits at fixed indices: Carry (0),
/// Zero (1), Interrupt-disable (2), Decimal (3), Break (4), the always-set
/// unused bit (5), Overflow (6), Negative (7).
pub struct Cpu {
    pub pc: u16,
    pub a: u8,
    pub x: u8,
    pub y: u8,
    pub sr: u8,
    pub sp: u8,
    /// The CPU's own monotonic time counter; see `catch_up`.
    pub time: u128,
    /// The 256-entry dispatch table, built once at construction; entry `i`
    /// is the decoding of opcode byte `i`.
    pub lut: Vec<instrs::Instr>,
    pub jammed: bool,
    /// Latched when a truly unmapped opcode is dispatched; like a jam, a
    /// faulted CPU executes nothing further.
    pub faulted: bool,
}

/// What one retired instruction guarantees: the trace grew, its first new
/// event is the opcode fetch at the old program counter, the CPU lands
/// jammed or faulted exactly when the fetched opcode decodes to JAM or to
/// an unmapped entry, and the rest of the step is the fetched opcode's full
/// semantics (`instr_post`).
pub open spec fn tick_post(
    pre: Cpu,
    post: Cpu,
    ev0: Seq<EventSource>,
    ev1: Seq<EventSource>,
) -> bool {
    let opcode = ev_val(ev1[ev0.len() as int]);
    &&& post.wf()
    &&& ev1.len() > ev0.len()
    &&& ev1[ev0.len() as int] == (EventSource::BusRead { addr: pre.pc, val: opcode })
    &&& post.jammed == (instrs::instr_of(opcode) == (Instr::Implied { op: instrs::ImpliedOp::Jam
    }))
    &&& post.faulted == (instrs::instr_of(opcode) == Instr::Fault)
    &&& instrs::instr_post(
        instrs::instr_of(opcode),
        Cpu { pc: wrap_inc16(pre.pc), ..pre },
        post,
        ev0.push(EventSource::BusRead { addr: pre.pc, val: opcode }),
        ev1,
    )
}

impl Cpu {
    /// The dispatch table is intact: 256 entries, each the decoding of its
    /// own opcode byte.
    pub open spec fn wf(&self) -> bool {
        &&& self.lut@.len() == 256
        &&& forall|i: int| 0 <= i < 256 ==> self.lut@[i] == instrs::instr_of(i as u8)
    }

    /// The power-on register file around a given dispatch table: stack
    /// pointer `0xFD`, status `0x24` (interrupt-disable and the unused bit
    /// set), everything else zero.
    pub open spec fn power_on(lut: Vec<Instr>) -> Cpu {
        Cpu {
            pc: 0,
            a: 0,
            x: 0,
            y: 0,
            sr: 0x24,
            sp: 0xfd,
            time: 0,
            lut,
            jammed: false,
            faulted: false,
        }
    }

    /// A CPU in its power-on state with the dispatch table built. The
    /// reset-vector load is the enclosing emulator's step; see `Nes::new`.
    pub fn new() -> (r: Cpu)
        ensures
            r.wf(),
            r == Cpu::power_on(r.lut),
    {
        Cpu {
            pc: 0,
            a: 0,
            x: 0,
            y: 0,
            sr: 0x24,
            sp: 0xfd,
            time: 0,
            lut: instrs::generate_lut(),
            jammed: false,
            faulted: false,
        }
    }

    /// Dispatches one decoded instruction: resolves its addressing form and
    /// runs its handler; `instr_post` states the complete effect.
    pub fn exec_instr<B: Bus>(&mut self, bus: &mut B, instr: Instr)
        requires
            old(bus).wf(),
            instrs::instr_wf(instr),
        ensures
            final(bus).wf(),
            final(bus).time_spec() == old(bus).time_spec(),
            final(self).time == old(self).time,
            final(self).lut == old(self).lut,
            final(self).jammed == (old(self).jammed || instr == (Instr::Implied {
                op: instrs::ImpliedOp::Jam,
            })),
            final(self).faulted == (old(self).faulted || instr == Instr::Fault),
            final(bus).events().len() >= old(bus).events().len(),
            final(bus).events().take(old(bus).events().len() as int) == old(bus).events(),
            instrs::instr_post(
                instr,
                *old(self),
                *final(self),
                old(bus).events(),
                final(bus).events(),
            ),
    {
        match instr {
            Instr::Value { op, mode } => self.exec_value(bus, op, mode),
            Instr::Addressed { op, mode } => self.exec_addressed(bus, op, mode),
            Instr::Implied { op } => self.exec_implied(bus, op),
            Instr::Branch { op } => self.exec_branch(bus, op),
            Instr::Fault => {
                self.faulted = true;
            },
        }
    }

    /// Runs one operand-consuming operation: the addressing mode fetches
    /// the byte, the operation folds it into the registers.
    #[verifier::spinoff_prover]
    fn exec_value<B: Bus>(&mut self, bus: &mut B, op: instrs::ValueOp, mode: AddrMode)
        requires
            old(bus).wf(),
            !(mode is Relative),
        ensures
            final(bus).wf(),
            final(bus).time_spec() == old(bus).time_spec(),
            final(self).time == old(self).time,
            final(self).lut == old(self).lut,
            final(self).jammed == old(self).jammed,
            final(self).faulted == old(self).faulted,
            final(bus).events().len() >= old(bus).events().len(),
            final(bus).events().take(old(bus).events().len() as int) == old(bus).events(),
            instrs::instr_post(
                Instr::Value { op, mode },
                *old(self),
                *final(self),
                old(bus).events(),
                final(bus).events(),
            ),
    {
        let ghost ev0 = old(bus).events();
        let ghost n = old(bus).events().len() as int;
        let arg = self.read_arg(bus, mode);
        match op {
            instrs::ValueOp::Adc => instrs::adc(self, arg),
            instrs::ValueOp::And => instrs::and(self, arg),
            instrs::ValueOp::Bit => instrs::bit(self, arg),
            instrs::ValueOp::Cmp => instrs::cmp(self, arg),
            instrs::ValueOp::Cpx => instrs::cpx(self, arg),
            instrs::ValueOp::Cpy => instrs::cpy(self, arg),
            instrs::ValueOp::Eor => instrs::eor(self, arg),
            instrs::ValueOp::Lda => instrs::lda(self, arg),
            instrs::ValueOp::Ldx => instrs::ldx(self, arg),
            instrs::ValueOp::Ldy => instrs::ldy(self, arg),
            instrs::ValueOp::Ora => instrs::ora(self, arg),
            instrs::ValueOp::Sbc => instrs::sbc(self, arg),
            instrs::ValueOp::Nop => instrs::nop(self, arg),
        }
        proof {
            assert(bus.events().take(n) =~= ev0);
        }
    }

    /// Runs one address-consuming operation: the addressing mode resolves
    /// the effective address, the operation reads, writes or jumps there.
    #[verifier::spinoff_prover]
    fn exec_addressed<B: Bus>(&mut self, bus: &mut B, op: instrs::AddrOp, mode: AddrMode)
        requires
            old(bus).wf(),
            !(mode is Relative),
        ensures
            final(bus).wf(),
            final(bus).time_spec() == old(bus).time_spec(),
            final(self).time == old(self).time,
            final(self).lut == old(self).lut,
            final(self).jammed == old(self).jammed,
            final(self).faulted == old(self).faulted,
            final(bus).events().len() >= old(bus).events().len(),
            final(bus).events().take(old(bus).events().len() as int) == old(bus).events(),
            instrs::instr_post(
                Instr::Addressed { op, mode },
                *old(self),
                *final(self),
                old(bus).events(),
                final(bus).events(),
            ),
    {
        let ghost ev0 = old(bus).events();
        let ghost n = old(bus).events().len() as int;
        let addr = self.read_addr(bus, mode);
        let ghost evm = bus.events();
        match op {
            instrs::AddrOp::Asl => instrs::asl(self, bus, addr),
            instrs::AddrOp::Dec => instrs::dec(self, bus, addr),
            instrs::AddrOp::Inc => instrs::inc(self, bus, addr),
            instrs::AddrOp::Lsr => instrs::lsr(self, bus, addr),
            instrs::AddrOp::Rol => instrs::rol(self, bus, addr),
            instrs::AddrOp::Ror => instrs::ror(self, bus, addr),
            instrs::AddrOp::Dcp => instrs::dcp(self, bus, addr),
            instrs::AddrOp::Isc => instrs::isc(self, bus, addr),
            instrs::AddrOp::Slo => instrs::slo(self, bus, addr),
            instrs::AddrOp::Sta => instrs::sta(self, bus, addr),
            instrs::AddrOp::Stx => instrs::stx(self, bus, addr),
            instrs::AddrOp::Sty => instrs::sty(self, bus, addr),
            instrs::AddrOp::Jmp => instrs::jmp(self, addr),
        }
        proof {
            let k = instrs::addr_op_cycles(op);
            if k == 0 {
                assert(bus.events().take(bus.events().len() as int) =~= evm);
            } else if k == 1 {
                assert(bus.events().take(bus.events().len() - 1) =~= evm);
            } else {
                assert(bus.events().take(bus.events().len() - 3) =~= evm);
            }
            assert(bus.events().take(n) =~= ev0);
        }
    }

    /// Runs one operation with no operand fetch of its own.
    #[verifier::spinoff_prover]
    fn exec_implied<B: Bus>(&mut self, bus: &mut B, op: instrs::ImpliedOp)
        requires
            old(bus).wf(),
        ensures
            final(bus).wf(),
            final(bus).time_spec() == old(bus).time_spec(),
            final(self).time == old(self).time,
            final(self).lut == old(self).lut,
            final(self).jammed == (old(self).jammed || op == instrs::ImpliedOp::Jam),
            final(self).faulted == old(self).faulted,
            final(bus).events().len() >= old(bus).events().len(),
            final(bus).events().take(old(bus).events().len() as int) == old(bus).events(),
            instrs::implied_op_post(
                op,
                *old(self),
                *final(self),
                old(bus).events(),
                final(bus).events(),
            ),
    {
        let ghost ev0 = old(bus).events();
        let ghost n = old(bus).events().len() as int;
        match op {
            instrs::ImpliedOp::Nop => instrs::nop_implied(self, bus),
            instrs::ImpliedOp::AslAcc => instrs::asl_acc(self, bus),
            instrs::ImpliedOp::LsrAcc => instrs::lsr_acc(self, bus),
            instrs::ImpliedOp::RolAcc => instrs::rol_acc(self, bus),
            instrs::ImpliedOp::RorAcc => instrs::ror_acc(self, bus),
            instrs::ImpliedOp::Tax => instrs::tax(self, bus),
            instrs::ImpliedOp::Tay => instrs::tay(self, bus),
            instrs::ImpliedOp::Tsx => instrs::tsx(self, bus),
            instrs::ImpliedOp::Txa => instrs::txa(self, bus),
            instrs::ImpliedOp::Txs => instrs::txs(self, bus),
            instrs::ImpliedOp::Tya => instrs::tya(self, bus),
            instrs::ImpliedOp::Inx => instrs::inx(self, bus),
            instrs::ImpliedOp::Iny => instrs::iny(self, bus),
            instrs::ImpliedOp::Dex => instrs::dex(self, bus),
            instrs::ImpliedOp::Dey => instrs::dey(self, bus),
            instrs::ImpliedOp::Clc => instrs::clc(self),
            instrs::ImpliedOp::Cli => instrs::cli(self),
            instrs::ImpliedOp::Clv => instrs::clv(self),
            instrs::ImpliedOp::Cld => instrs::cld(self),
            instrs::ImpliedOp::Sec => instrs::sec(self),
            instrs::ImpliedOp::Sei => instrs::sei(self),
            instrs::ImpliedOp::Sed => instrs::sed(self),
            instrs::ImpliedOp::Pha => instrs::pha(self, bus),
            instrs::ImpliedOp::Php => instrs::php(self, bus),
            instrs::ImpliedOp::Pla => instrs::pla(self, bus),
            instrs::ImpliedOp::Plp => instrs::plp(self, bus),
            instrs::ImpliedOp::Jsr => instrs::jsr(self, bus),
            instrs::ImpliedOp::Rts => instrs::rts(self, bus),
            instrs::ImpliedOp::Rti => instrs::rti(self, bus),
            instrs::ImpliedOp::Jam => instrs::jam(self),
            instrs::ImpliedOp::Alr => instrs::alr(self, bus),
            instrs::ImpliedOp::Anc => instrs::anc(self, bus),
            instrs::ImpliedOp::Arr => instrs::arr(self, bus),
        }
        proof {
            assert(bus.events().take(n) =~= ev0);
        }
    }

    /// Runs one conditional branch.
    #[verifier::spinoff_prover]
    fn exec_branch<B: Bus>(&mut self, bus: &mut B, op: instrs::BranchOp)
        requires
            old(bus).wf(),
        ensures
            final(bus).wf(),
            final(bus).time_spec() == old(bus).time_spec(),
            final(self).time == old(self).time,
            final(self).lut == old(self).lut,
            final(self).jammed == old(self).jammed,
            final(self).faulted == old(self).faulted,
            final(bus).events().len() >= old(bus).events().len(),
            final(bus).events().take(old(bus).events().len() as int) == old(bus).events(),
            instrs::branch_post(
                *old(self),
                *final(self),
                old(bus).events(),
                final(bus).events(),
                instrs::branch_op_taken(op, *old(self)),
            ),
    {
        let ghost ev0 = old(bus).events();
        let ghost n = old(bus).events().len() as int;
        match op {
            instrs::BranchOp::Bcc => instrs::bcc(self, bus),
            instrs::BranchOp::Bcs => instrs::bcs(self, bus),
            instrs::BranchOp::Beq => instrs::beq(self, bus),
            instrs::BranchOp::Bmi => instrs::bmi(self, bus),
            instrs::BranchOp::Bne => instrs::bne(self, bus),
            instrs::BranchOp::Bpl => instrs::bpl(self, bus),
            instrs::BranchOp::Bvc => instrs::bvc(self, bus),
            instrs::BranchOp::Bvs => instrs::bvs(self, bus),
        }
        proof {
            assert(bus.events().take(n) =~= ev0);
        }
    }

    /// Retires exactly one instruction: fetches the opcode at the program
    /// counter and dispatches it. A jammed or faulted CPU must not be
    /// ticked.
    pub fn tick<B: Bus>(&mut self, bus: &mut B)
        requires
            old(self).wf(),
            !old(self).jammed,
            !old(self).faulted,
            old(bus).wf(),
        ensures
            final(bus).wf(),
            final(bus).time_spec() == old(bus).time_spec(),
            final(self).time == old(self).time,
            final(bus).events().len() > old(bus).events().len(),
            final(bus).events().take(old(bus).events().len() as int) == old(bus).events(),
            tick_post(*old(self), *final(self), old(bus).events(), final(bus).events()),
    {
        let ghost n = old(bus).events().len() as int;
        let opcode = self.read_from_pc(bus);
        let ghost evm = bus.events();
        let instr = self.lut[opcode as usize];
        proof {
            instrs::lemma_instr_of_wf(opcode);
        }
        self.exec_instr(bus, instr);
        proof {
            assert(bus.events().take(n + 1) == evm);
            assert(bus.events().take(n + 1)[n] == bus.events()[n]);
            assert(evm.take(n) =~= old(bus).events());
            crate::bus::lemma_prefix_trans(old(bus).events(), evm, bus.events());
        }
    }

    /// Catches the CPU up to the emulator's time: records the new time and
    /// retires one instruction per elapsed unit. A jam or fault halts
    /// dispatch; the remaining time still passes.
    pub fn catch_up<B: Bus>(&mut self, time: u128, bus: &mut B)
        requires
            old(self).wf(),
            old(bus).wf(),
            time >= old(self).time,
        ensures
            final(self).wf(),
            final(bus).wf(),
            final(bus).time_spec() == old(bus).time_spec(),
            final(self).time == time,
            final(bus).events().len() >= old(bus).events().len(),
            final(bus).events().take(old(bus).events().len() as int) == old(bus).events(),
            (old(self).jammed || old(self).faulted || time == old(self).time) ==> (*final(self)
                == (Cpu { time, ..*old(self) }) && final(bus).events() == old(bus).events()),
            (!old(self).jammed && !old(self).faulted && time == old(self).time + 1) ==> tick_post(
                Cpu { time, ..*old(self) },
                *final(self),
                old(bus).events(),
                final(bus).events(),
            ),
    {
        let elapsed = time - self.time;
        self.time = time;
        let mut i: u128 = 0;
        while i < elapsed && !self.jammed && !self.faulted
            invariant
                bus.wf(),
                self.wf(),
                bus.time_spec() == old(bus).time_spec(),
                self.time == time,
                i <= elapsed,
                elapsed == time - old(self).time,
                bus.events().len() >= old(bus).events().len(),
                bus.events().take(old(bus).events().len() as int) == old(bus).events(),
                i == 0 ==> *self == (Cpu { time, ..*old(self) }) && bus.events() == old(
                    bus,
                ).events(),
                i > 0 ==> !old(self).jammed && !old(self).faulted,
                (i == 1 && elapsed == 1) ==> tick_post(
                    Cpu { time, ..*old(self) },
                    *self,
                    old(bus).events(),
                    bus.events(),
                ),
            decreases elapsed - i,
        {
            let ghost ev_before = bus.events();
            self.tick(bus);
            proof {
                crate::bus::lemma_prefix_trans(old(bus).events(), ev_before, bus.events());
            }
            i = i + 1;
        }
    }
}

impl Cpu {
    /// Latches the jammed flag: the CPU must not execute further
    /// instructions.
    pub fn jam(&mut self)
        ensures
            *final(self) == (Cpu { jammed: true, ..*old(self) }),
    {
        self.jammed = true;
    }

    /// Performs the dummy read at the program counter that one-byte
    /// instructions spend their second cycle on. The fetched byte is
    /// discarded; only the cycle is observable.
    pub fn prefetch<B: Bus>(&self, bus: &mut B)
        requires
            old(bus).wf(),
        ensures
            final(bus).wf(),
            final(bus).time_spec() == old(bus).time_spec(),
            final(bus).events() == old(bus).events().push(
                EventSource::BusRead {
                    addr: self.pc,
                    val: ev_val(final(bus).events().last()),
                },
            ),
            is_read_at(final(bus).events().last(), self.pc),
    {
        bus.read(self.pc);
    }

    /// Fetches the byte at the program counter and advances it with
    /// wrap-around.
    pub fn read_from_pc<B: Bus>(&mut self, bus: &mut B) -> (val: u8)
        requires
            old(bus).wf(),
        ensures
            final(bus).wf(),
            final(bus).time_spec() == old(bus).time_spec(),
            *final(self) == (Cpu { pc: wrap_inc16(old(self).pc), ..*old(self) }),
            final(bus).events() == old(bus).events().push(
                EventSource::BusRead { addr: old(self).pc, val },
            ),
    {
        let addr = self.read_addr_from_pc();
        bus.read(addr)
    }

    /// Returns the program counter and advances it with wrap-around; the
    /// immediate addressing mode's pseudo-address.
    pub fn read_addr_from_pc(&mut self) -> (addr: Addr)
        ensures
            *final(self) == (Cpu { pc: wrap_inc16(old(self).pc), ..*old(self) }),
            addr == old(self).pc,
    {
        let addr = self.pc;
        self.pc = self.pc.wrapping_add(1);
        addr
    }

    /// Writes to the active stack cell in page 1, then decrements the stack
    /// pointer with wrap-around inside the page.
    pub fn stack_push<B: Bus>(&mut self, bus: &mut B, val: u8)
        requires
            old(bus).wf(),
        ensures
            final(bus).wf(),
            final(bus).time_spec() == old(bus).time_spec(),
            *final(self) == (Cpu { sp: wrap_sub8(old(self).sp, 1), ..*old(self) }),
            final(bus).events() == old(bus).events().push(
                EventSource::BusWrite { addr: stack_addr(old(self).sp), val },
            ),
    {
        bus.write(0x100 + (self.sp as u16), val);
        self.sp = self.sp.wrapping_sub(1);
    }

    /// Reads the active stack cell without moving the stack pointer.
    pub fn stack_peek<B: Bus>(&self, bus: &mut B) -> (val: u8)
        requires
            old(bus).wf(),
        ensures
            final(bus).wf(),
            final(bus).time_spec() == old(bus).time_spec(),
            final(bus).events() == old(bus).events().push(
                EventSource::BusRead { addr: stack_addr(self.sp), val },
            ),
    {
        bus.read(0x100 + (self.sp as u16))
    }

    /// Increments the stack pointer with wrap-around inside the page, then
    /// reads the cell it now names.
    pub fn stack_pop<B: Bus>(&mut self, bus: &mut B) -> (val: u8)
        requires
            old(bus).wf(),
        ensures
            final(bus).wf(),
            final(bus).time_spec() == old(bus).time_spec(),
            *final(self) == (Cpu { sp: wrap_add8(old(self).sp, 1), ..*old(self) }),
            final(bus).events() == old(bus).events().push(
                EventSource::BusRead { addr: stack_addr(wrap_add8(old(self).sp, 1)), val },
            ),
    {
        self.sp = self.sp.wrapping_add(1);
        bus.read(0x100 + (self.sp as u16))
    }

    /// Computes the effective address of an operand, performing the exact
    /// bus cycles of the addressing mode, dummy reads included; see
    /// `read_addr_post`. Only the program counter changes.
    pub fn read_addr<B: Bus>(&mut self, bus: &mut B, addr_mode: AddrMode) -> (addr: Addr)
        requires
            old(bus).wf(),
            !(addr_mode is Relative),
        ensures
            final(bus).wf(),
            final(bus).time_spec() == old(bus).time_spec(),
            *final(self) == (Cpu { pc: final(self).pc, ..*old(self) }),
            read_addr_post(
                *old(self),
                *final(self),
                old(bus).events(),
                final(bus).events(),
                addr_mode,
                addr,
            ),
    {
        let ghost ev0 = old(bus).events();
        let ghost n = old(bus).events().len() as int;
        match addr_mode {
            AddrMode::Immediate => self.read_addr_from_pc(),
            AddrMode::Absolute => {
                let lo = self.read_from_pc(bus);
                let hi = self.read_from_pc(bus);
                proof {
                    assert(bus.events().take(n) =~= ev0);
                }
                (hi as u16) * 256 + (lo as u16)
            },
            AddrMode::AbsoluteX { force_cycle } => {
                let lo = self.read_from_pc(bus);
                let hi = self.read_from_pc(bus);
                let base: u16 = (hi as u16) * 256 + (lo as u16);
                let new_addr = base.wrapping_add(self.x as u16);
                if force_cycle || (base >> 8) != (new_addr >> 8) {
                    bus.read((base & 0xff00) | (new_addr & 0xff));
                }
                proof {
                    assert(bus.events().take(n) =~= ev0);
                }
                new_addr
            },
            AddrMode::AbsoluteY { force_cycle } => {
                let lo = self.read_from_pc(bus);
                let hi = self.read_from_pc(bus);
                let base: u16 = (hi as u16) * 256 + (lo as u16);
                let new_addr = base.wrapping_add(self.y as u16);
                if force_cycle || (base >> 8) != (new_addr >> 8) {
                    bus.read((base & 0xff00) | (new_addr & 0xff));
                }
                proof {
                    assert(bus.events().take(n) =~= ev0);
                }
                new_addr
            },
            AddrMode::ZeroPage => {
                let b = self.read_from_pc(bus);
                proof {
                    assert(bus.events().take(n) =~= ev0);
                }
                b as u16
            },
            AddrMode::IndexedZX => {
                let base = self.read_from_pc(bus);
                bus.read(base as u16);
                proof {
                    assert(bus.events().take(n) =~= ev0);
                }
                base.wrapping_add(self.x) as u16
            },
            AddrMode::IndexedZY => {
                let base = self.read_from_pc(bus);
                bus.read(base as u16);
                proof {
                    assert(bus.events().take(n) =~= ev0);
                }
                base.wrapping_add(self.y) as u16
            },
            AddrMode::IndirectX => {
                let base = self.read_from_pc(bus);
                bus.read(base as u16);
                let p = base.wrapping_add(self.x);
                let lo = bus.read(p as u16);
                let hi = bus.read(p.wrapping_add(1) as u16);
                proof {
                    assert(bus.events().take(n) =~= ev0);
                }
                (hi as u16) * 256 + (lo as u16)
            },
            AddrMode::IndirectY => {
                let base = self.read_from_pc(bus);
                let lo = bus.read(base as u16);
                let hi = bus.read(base.wrapping_add(1) as u16);
                let ptr: u16 = (hi as u16) * 256 + (lo as u16);
                let new_addr = ptr.wrapping_add(self.y as u16);
                if (ptr >> 8) != (new_addr >> 8) {
                    bus.read((ptr & 0xff00) | (new_addr & 0xff));
                }
                proof {
                    assert(bus.events().take(n) =~= ev0);
                }
                new_addr
            },
            AddrMode::Indirect => {
                let lo = self.read_from_pc(bus);
                let hi = self.read_from_pc(bus);
                let ptr: u16 = (hi as u16) * 256 + (lo as u16);
                let inc_ptr: u16 = if ptr & 0xff == 0xff {
                    ptr & 0xff00
                } else {
                    proof {
                        assert(ptr & 0xff == 0xff || ptr < 0xffff) by (bit_vector);
                    }
                    ptr + 1
                };
                let tlo = bus.read(ptr);
                let thi = bus.read(inc_ptr);
                proof {
                    assert(bus.events().take(n) =~= ev0);
                }
                (thi as u16) * 256 + (tlo as u16)
            },
            AddrMode::Relative => {
                proof {
                    assert(false);
                }
                0
            },
        }
    }

    /// Fetches an operand byte: resolves the effective address with
    /// `read_addr`, then reads it; see `read_arg_post`.
    pub fn read_arg<B: Bus>(&mut self, bus: &mut B, addr_mode: AddrMode) -> (val: u8)
        requires
            old(bus).wf(),
            !(addr_mode is Relative),
        ensures
            final(bus).wf(),
            final(bus).time_spec() == old(bus).time_spec(),
            *final(self) == (Cpu { pc: final(self).pc, ..*old(self) }),
            read_arg_post(
                *old(self),
                *final(self),
                old(bus).events(),
                final(bus).events(),
                addr_mode,
                val,
            ),
    {
        let addr = self.read_addr(bus, addr_mode);
        let ghost evm = bus.events();
        let val = bus.read(addr);
        proof {
            assert(bus.events().drop_last() =~= evm);
        }
        val
    }
}

} // verus!
