//! The instruction set: one handler per operation, the 256-entry dispatch
//! table, and the spec functions that state each handler's exact effect on
//! the registers, the status byte, and the bus trace.

use vstd::prelude::*;

use crate::bus::{ev_addr, ev_val, is_read_at, Addr, Bus};
use crate::cpu::status_register::{set_flag_spec, sr_apply, Sr, SrUpdate};
use crate::cpu::{
    le16, stack_addr, wrap_add16, wrap_add8, wrap_inc16, wrap_sub8, AddrMode, Cpu,
};
use crate::nes::EventSource;

verus! {

/// An operation that consumes an operand byte fetched by its addressing
/// mode.
#[derive(Clone, Copy)]
pub enum ValueOp {
    Adc,
    And,
    Bit,
    Cmp,
    Cpx,
    Cpy,
    Eor,
    Lda,
    Ldx,
    Ldy,
    Ora,
    Sbc,
    Nop,
}

/// An operation that works on the effective address itself: the
/// read-modify-write group, the stores, and JMP.
#[derive(Clone, Copy)]
pub enum AddrOp {
    Asl,
    Dec,
    Inc,
    Lsr,
    Rol,
    Ror,
    Dcp,
    Isc,
    Slo,
    Sta,
    Stx,
    Sty,
    Jmp,
}

/// An operation with no operand fetch of its own: implied and accumulator
/// forms, stack and subroutine instructions, flag changes, and the
/// immediate-mode illegal combinations that do their own fetching.
#[derive(Clone, Copy)]
pub enum ImpliedOp {
    Nop,
    AslAcc,
    LsrAcc,
    RolAcc,
    RorAcc,
    Tax,
    Tay,
    Tsx,
    Txa,
    Txs,
    Tya,
    Inx,
    Iny,
    Dex,
    Dey,
    Clc,
    Cli,
    Clv,
    Cld,
    Sec,
    Sei,
    Sed,
    Pha,
    Php,
    Pla,
    Plp,
    Jsr,
    Rts,
    Rti,
    Jam,
    Alr,
    Anc,
    Arr,
}

/// One of the eight conditional branches.
#[derive(Clone, Copy)]
pub enum BranchOp {
    Bcc,
    Bcs,
    Beq,
    Bmi,
    Bne,
    Bpl,
    Bvc,
    Bvs,
}

/// A decoded dispatch-table entry: the operation paired with its addressing
/// form. `Fault` marks a truly unmapped opcode; dispatching one puts the
/// CPU into its faulted state.
#[derive(Clone, Copy)]
#[allow(inconsistent_fields)]
pub enum Instr {
    Value { op: ValueOp, mode: AddrMode },
    Addressed { op: AddrOp, mode: AddrMode },
    Implied { op: ImpliedOp },
    Branch { op: BranchOp },
    Fault,
}

/// A table entry never carries the relative pseudo-mode: branches have
/// their own dispatch arm.
pub open spec fn instr_wf(instr: Instr) -> bool {
    match instr {
        Instr::Value { op, mode } => !(mode is Relative),
        Instr::Addressed { op, mode } => !(mode is Relative),
        _ => true,
    }
}

/// The 6502's opcode map: what each opcode byte dispatches to. Official
/// opcodes and the documented illegal ones are mapped; the unstable illegal
/// opcodes and BRK decode to `Fault`.
pub open spec fn instr_of(op: u8) -> Instr {
    match op {
        0x69 => Instr::Value { op: ValueOp::Adc, mode: AddrMode::Immediate },
        0x65 => Instr::Value { op: ValueOp::Adc, mode: AddrMode::ZeroPage },
        0x75 => Instr::Value { op: ValueOp::Adc, mode: AddrMode::IndexedZX },
        0x6d => Instr::Value { op: ValueOp::Adc, mode: AddrMode::Absolute },
        0x7d => Instr::Value { op: ValueOp::Adc, mode: AddrMode::AbsoluteX { force_cycle: false } },
        0x79 => Instr::Value { op: ValueOp::Adc, mode: AddrMode::AbsoluteY { force_cycle: false } },
        0x61 => Instr::Value { op: ValueOp::Adc, mode: AddrMode::IndirectX },
        0x71 => Instr::Value { op: ValueOp::Adc, mode: AddrMode::IndirectY },
        0x29 => Instr::Value { op: ValueOp::And, mode: AddrMode::Immediate },
        0x25 => Instr::Value { op: ValueOp::And, mode: AddrMode::ZeroPage },
        0x35 => Instr::Value { op: ValueOp::And, mode: AddrMode::IndexedZX },
        0x2d => Instr::Value { op: ValueOp::And, mode: AddrMode::Absolute },
        0x3d => Instr::Value { op: ValueOp::And, mode: AddrMode::AbsoluteX { force_cycle: false } },
        0x39 => Instr::Value { op: ValueOp::And, mode: AddrMode::AbsoluteY { force_cycle: false } },
        0x21 => Instr::Value { op: ValueOp::And, mode: AddrMode::IndirectX },
        0x31 => Instr::Value { op: ValueOp::And, mode: AddrMode::IndirectY },
        0x0a => Instr::Implied { op: ImpliedOp::AslAcc },
        0x06 => Instr::Addressed { op: AddrOp::Asl, mode: AddrMode::ZeroPage },
        0x16 => Instr::Addressed { op: AddrOp::Asl, mode: AddrMode::IndexedZX },
        0x0e => Instr::Addressed { op: AddrOp::Asl, mode: AddrMode::Absolute },
        0x1e => Instr::Addressed {
            op: AddrOp::Asl,
            mode: AddrMode::AbsoluteX { force_cycle: true },
        },
        0x90 => Instr::Branch { op: BranchOp::Bcc },
        0xb0 => Instr::Branch { op: BranchOp::Bcs },
        0xf0 => Instr::Branch { op: BranchOp::Beq },
        0x30 => Instr::Branch { op: BranchOp::Bmi },
        0xd0 => Instr::Branch { op: BranchOp::Bne },
        0x10 => Instr::Branch { op: BranchOp::Bpl },
        0x50 => Instr::Branch { op: BranchOp::Bvc },
        0x70 => Instr::Branch { op: BranchOp::Bvs },
        0x24 => Instr::Value { op: ValueOp::Bit, mode: AddrMode::ZeroPage },
        0x2c => Instr::Value { op: ValueOp::Bit, mode: AddrMode::Absolute },
        0x18 => Instr::Implied { op: ImpliedOp::Clc },
        0xd8 => Instr::Implied { op: ImpliedOp::Cld },
        0x58 => Instr::Implied { op: ImpliedOp::Cli },
        0xb8 => Instr::Implied { op: ImpliedOp::Clv },
        0xc9 => Instr::Value { op: ValueOp::Cmp, mode: AddrMode::Immediate },
        0xc5 => Instr::Value { op: ValueOp::Cmp, mode: AddrMode::ZeroPage },
        0xd5 => Instr::Value { op: ValueOp::Cmp, mode: AddrMode::IndexedZX },
        0xcd => Instr::Value { op: ValueOp::Cmp, mode: AddrMode::Absolute },
        0xdd => Instr::Value { op: ValueOp::Cmp, mode: AddrMode::AbsoluteX { force_cycle: false } },
        0xd9 => Instr::Value { op: ValueOp::Cmp, mode: AddrMode::AbsoluteY { force_cycle: false } },
        0xc1 => Instr::Value { op: ValueOp::Cmp, mode: AddrMode::IndirectX },
        0xd1 => Instr::Value { op: ValueOp::Cmp, mode: AddrMode::IndirectY },
        0xe0 => Instr::Value { op: ValueOp::Cpx, mode: AddrMode::Immediate },
        0xe4 => Instr::Value { op: ValueOp::Cpx, mode: AddrMode::ZeroPage },
        0xec => Instr::Value { op: ValueOp::Cpx, mode: AddrMode::Absolute },
        0xc0 => Instr::Value { op: ValueOp::Cpy, mode: AddrMode::Immediate },
        0xc4 => Instr::Value { op: ValueOp::Cpy, mode: AddrMode::ZeroPage },
        0xcc => Instr::Value { op: ValueOp::Cpy, mode: AddrMode::Absolute },
        0xc6 => Instr::Addressed { op: AddrOp::Dec, mode: AddrMode::ZeroPage },
        0xd6 => Instr::Addressed { op: AddrOp::Dec, mode: AddrMode::IndexedZX },
        0xce => Instr::Addressed { op: AddrOp::Dec, mode: AddrMode::Absolute },
        0xde => Instr::Addressed {
            op: AddrOp::Dec,
            mode: AddrMode::AbsoluteX { force_cycle: true },
        },
        0xca => Instr::Implied { op: ImpliedOp::Dex },
        0x88 => Instr::Implied { op: ImpliedOp::Dey },
        0x49 => Instr::Value { op: ValueOp::Eor, mode: AddrMode::Immediate },
        0x45 => Instr::Value { op: ValueOp::Eor, mode: AddrMode::ZeroPage },
        0x55 => Instr::Value { op: ValueOp::Eor, mode: AddrMode::IndexedZX },
        0x4d => Instr::Value { op: ValueOp::Eor, mode: AddrMode::Absolute },
        0x5d => Instr::Value { op: ValueOp::Eor, mode: AddrMode::AbsoluteX { force_cycle: false } },
        0x59 => Instr::Value { op: ValueOp::Eor, mode: AddrMode::AbsoluteY { force_cycle: false } },
        0x41 => Instr::Value { op: ValueOp::Eor, mode: AddrMode::IndirectX },
        0x51 => Instr::Value { op: ValueOp::Eor, mode: AddrMode::IndirectY },
        0xe6 => Instr::Addressed { op: AddrOp::Inc, mode: AddrMode::ZeroPage },
        0xf6 => Instr::Addressed { op: AddrOp::Inc, mode: AddrMode::IndexedZX },
        0xee => Instr::Addressed { op: AddrOp::Inc, mode: AddrMode::Absolute },
        0xfe => Instr::Addressed {
            op: AddrOp::Inc,
            mode: AddrMode::AbsoluteX { force_cycle: true },
        },
        0xe8 => Instr::Implied { op: ImpliedOp::Inx },
        0xc8 => Instr::Implied { op: ImpliedOp::Iny },
        0x4c => Instr::Addressed { op: AddrOp::Jmp, mode: AddrMode::Absolute },
        0x6c => Instr::Addressed { op: AddrOp::Jmp, mode: AddrMode::Indirect },
        0x20 => Instr::Implied { op: ImpliedOp::Jsr },
        0xa9 => Instr::Value { op: ValueOp::Lda, mode: AddrMode::Immediate },
        0xa5 => Instr::Value { op: ValueOp::Lda, mode: AddrMode::ZeroPage },
        0xb5 => Instr::Value { op: ValueOp::Lda, mode: AddrMode::IndexedZX },
        0xad => Instr::Value { op: ValueOp::Lda, mode: AddrMode::Absolute },
        0xbd => Instr::Value { op: ValueOp::Lda, mode: AddrMode::AbsoluteX { force_cycle: false } },
        0xb9 => Instr::Value { op: ValueOp::Lda, mode: AddrMode::AbsoluteY { force_cycle: false } },
        0xa1 => Instr::Value { op: ValueOp::Lda, mode: AddrMode::IndirectX },
        0xb1 => Instr::Value { op: ValueOp::Lda, mode: AddrMode::IndirectY },
        0xa2 => Instr::Value { op: ValueOp::Ldx, mode: AddrMode::Immediate },
        0xa6 => Instr::Value { op: ValueOp::Ldx, mode: AddrMode::ZeroPage },
        0xb6 => Instr::Value { op: ValueOp::Ldx, mode: AddrMode::IndexedZY },
        0xae => Instr::Value { op: ValueOp::Ldx, mode: AddrMode::Absolute },
        0xbe => Instr::Value { op: ValueOp::Ldx, mode: AddrMode::AbsoluteY { force_cycle: false } },
        0xa0 => Instr::Value { op: ValueOp::Ldy, mode: AddrMode::Immediate },
        0xa4 => Instr::Value { op: ValueOp::Ldy, mode: AddrMode::ZeroPage },
        0xb4 => Instr::Value { op: ValueOp::Ldy, mode: AddrMode::IndexedZX },
        0xac => Instr::Value { op: ValueOp::Ldy, mode: AddrMode::Absolute },
        0xbc => Instr::Value { op: ValueOp::Ldy, mode: AddrMode::AbsoluteX { force_cycle: false } },
        0x4a => Instr::Implied { op: ImpliedOp::LsrAcc },
        0x46 => Instr::Addressed { op: AddrOp::Lsr, mode: AddrMode::ZeroPage },
        0x56 => Instr::Addressed { op: AddrOp::Lsr, mode: AddrMode::IndexedZX },
        0x4e => Instr::Addressed { op: AddrOp::Lsr, mode: AddrMode::Absolute },
        0x5e => Instr::Addressed {
            op: AddrOp::Lsr,
            mode: AddrMode::AbsoluteX { force_cycle: true },
        },
        0xea => Instr::Implied { op: ImpliedOp::Nop },
        0x09 => Instr::Value { op: ValueOp::Ora, mode: AddrMode::Immediate },
        0x05 => Instr::Value { op: ValueOp::Ora, mode: AddrMode::ZeroPage },
        0x15 => Instr::Value { op: ValueOp::Ora, mode: AddrMode::IndexedZX },
        0x0d => Instr::Value { op: ValueOp::Ora, mode: AddrMode::Absolute },
        0x1d => Instr::Value { op: ValueOp::Ora, mode: AddrMode::AbsoluteX { force_cycle: false } },
        0x19 => Instr::Value { op: ValueOp::Ora, mode: AddrMode::AbsoluteY { force_cycle: false } },
        0x01 => Instr::Value { op: ValueOp::Ora, mode: AddrMode::IndirectX },
        0x11 => Instr::Value { op: ValueOp::Ora, mode: AddrMode::IndirectY },
        0x48 => Instr::Implied { op: ImpliedOp::Pha },
        0x08 => Instr::Implied { op: ImpliedOp::Php },
        0x68 => Instr::Implied { op: ImpliedOp::Pla },
        0x28 => Instr::Implied { op: ImpliedOp::Plp },
        0x2a => Instr::Implied { op: ImpliedOp::RolAcc },
        0x26 => Instr::Addressed { op: AddrOp::Rol, mode: AddrMode::ZeroPage },
        0x36 => Instr::Addressed { op: AddrOp::Rol, mode: AddrMode::IndexedZX },
        0x2e => Instr::Addressed { op: AddrOp::Rol, mode: AddrMode::Absolute },
        0x3e => Instr::Addressed {
            op: AddrOp::Rol,
            mode: AddrMode::AbsoluteX { force_cycle: true },
        },
        0x6a => Instr::Implied { op: ImpliedOp::RorAcc },
        0x66 => Instr::Addressed { op: AddrOp::Ror, mode: AddrMode::ZeroPage },
        0x76 => Instr::Addressed { op: AddrOp::Ror, mode: AddrMode::IndexedZX },
        0x6e => Instr::Addressed { op: AddrOp::Ror, mode: AddrMode::Absolute },
        0x7e => Instr::Addressed {
            op: AddrOp::Ror,
            mode: AddrMode::AbsoluteX { force_cycle: true },
        },
        0x40 => Instr::Implied { op: ImpliedOp::Rti },
        0x60 => Instr::Implied { op: ImpliedOp::Rts },
        0xe9 => Instr::Value { op: ValueOp::Sbc, mode: AddrMode::Immediate },
        0xe5 => Instr::Value { op: ValueOp::Sbc, mode: AddrMode::ZeroPage },
        0xf5 => Instr::Value { op: ValueOp::Sbc, mode: AddrMode::IndexedZX },
        0xed => Instr::Value { op: ValueOp::Sbc, mode: AddrMode::Absolute },
        0xfd => Instr::Value { op: ValueOp::Sbc, mode: AddrMode::AbsoluteX { force_cycle: false } },
        0xf9 => Instr::Value { op: ValueOp::Sbc, mode: AddrMode::AbsoluteY { force_cycle: false } },
        0xe1 => Instr::Value { op: ValueOp::Sbc, mode: AddrMode::IndirectX },
        0xf1 => Instr::Value { op: ValueOp::Sbc, mode: AddrMode::IndirectY },
        0x38 => Instr::Implied { op: ImpliedOp::Sec },
        0xf8 => Instr::Implied { op: ImpliedOp::Sed },
        0x78 => Instr::Implied { op: ImpliedOp::Sei },
        0x85 => Instr::Addressed { op: AddrOp::Sta, mode: AddrMode::ZeroPage },
        0x95 => Instr::Addressed { op: AddrOp::Sta, mode: AddrMode::IndexedZX },
        0x8d => Instr::Addressed { op: AddrOp::Sta, mode: AddrMode::Absolute },
        0x9d => Instr::Addressed {
            op: AddrOp::Sta,
            mode: AddrMode::AbsoluteX { force_cycle: true },
        },
        0x99 => Instr::Addressed {
            op: AddrOp::Sta,
            mode: AddrMode::AbsoluteY { force_cycle: true },
        },
        0x81 => Instr::Addressed { op: AddrOp::Sta, mode: AddrMode::IndirectX },
        0x91 => Instr::Addressed { op: AddrOp::Sta, mode: AddrMode::IndirectY },
        0x86 => Instr::Addressed { op: AddrOp::Stx, mode: AddrMode::ZeroPage },
        0x96 => Instr::Addressed { op: AddrOp::Stx, mode: AddrMode::IndexedZY },
        0x8e => Instr::Addressed { op: AddrOp::Stx, mode: AddrMode::Absolute },
        0x84 => Instr::Addressed { op: AddrOp::Sty, mode: AddrMode::ZeroPage },
        0x94 => Instr::Addressed { op: AddrOp::Sty, mode: AddrMode::IndexedZX },
        0x8c => Instr::Addressed { op: AddrOp::Sty, mode: AddrMode::Absolute },
        0xaa => Instr::Implied { op: ImpliedOp::Tax },
        0xa8 => Instr::Implied { op: ImpliedOp::Tay },
        0xba => Instr::Implied { op: ImpliedOp::Tsx },
        0x8a => Instr::Implied { op: ImpliedOp::Txa },
        0x9a => Instr::Implied { op: ImpliedOp::Txs },
        0x98 => Instr::Implied { op: ImpliedOp::Tya },
        0x1a | 0x3a | 0x5a | 0x7a | 0xda | 0xfa => Instr::Implied { op: ImpliedOp::Nop },
        0x80 | 0x82 | 0x89 | 0xc2 | 0xe2 => Instr::Value {
            op: ValueOp::Nop,
            mode: AddrMode::Immediate,
        },
        0x04 | 0x44 | 0x64 => Instr::Value { op: ValueOp::Nop, mode: AddrMode::ZeroPage },
        0x14 | 0x34 | 0x54 | 0x74 | 0xd4 | 0xf4 => Instr::Value {
            op: ValueOp::Nop,
            mode: AddrMode::IndexedZX,
        },
        0x0c => Instr::Value { op: ValueOp::Nop, mode: AddrMode::Absolute },
        0x1c | 0x3c | 0x5c | 0x7c | 0xdc | 0xfc => Instr::Value {
            op: ValueOp::Nop,
            mode: AddrMode::AbsoluteX { force_cycle: false },
        },
        0x02 | 0x12 | 0x22 | 0x32 | 0x42 | 0x52 | 0x62 | 0x72 | 0x92 | 0xb2 | 0xd2 | 0xf2
            => Instr::Implied { op: ImpliedOp::Jam },
        0x4b => Instr::Implied { op: ImpliedOp::Alr },
        0x0b | 0x2b => Instr::Implied { op: ImpliedOp::Anc },
        0x6b => Instr::Implied { op: ImpliedOp::Arr },
        0xc7 => Instr::Addressed { op: AddrOp::Dcp, mode: AddrMode::ZeroPage },
        0xd7 => Instr::Addressed { op: AddrOp::Dcp, mode: AddrMode::IndexedZX },
        0xcf => Instr::Addressed { op: AddrOp::Dcp, mode: AddrMode::Absolute },
        0xdf => Instr::Addressed {
            op: AddrOp::Dcp,
            mode: AddrMode::AbsoluteX { force_cycle: true },
        },
        0xdb => Instr::Addressed {
            op: AddrOp::Dcp,
            mode: AddrMode::AbsoluteY { force_cycle: true },
        },
        0xc3 => Instr::Addressed { op: AddrOp::Dcp, mode: AddrMode::IndirectX },
        0xd3 => Instr::Addressed { op: AddrOp::Dcp, mode: AddrMode::IndirectY },
        0x07 => Instr::Addressed { op: AddrOp::Slo, mode: AddrMode::ZeroPage },
        0x17 => Instr::Addressed { op: AddrOp::Slo, mode: AddrMode::IndexedZX },
        0x0f => Instr::Addressed { op: AddrOp::Slo, mode: AddrMode::Absolute },
        0x1f => Instr::Addressed {
            op: AddrOp::Slo,
            mode: AddrMode::AbsoluteX { force_cycle: true },
        },
        0x1b => Instr::Addressed {
            op: AddrOp::Slo,
            mode: AddrMode::AbsoluteY { force_cycle: true },
        },
        0x03 => Instr::Addressed { op: AddrOp::Slo, mode: AddrMode::IndirectX },
        0x13 => Instr::Addressed { op: AddrOp::Slo, mode: AddrMode::IndirectY },
        0xe7 => Instr::Addressed { op: AddrOp::Isc, mode: AddrMode::ZeroPage },
        0xf7 => Instr::Addressed { op: AddrOp::Isc, mode: AddrMode::IndexedZX },
        0xef => Instr::Addressed { op: AddrOp::Isc, mode: AddrMode::Absolute },
        0xff => Instr::Addressed {
            op: AddrOp::Isc,
            mode: AddrMode::AbsoluteX { force_cycle: true },
        },
        0xfb => Instr::Addressed {
            op: AddrOp::Isc,
            mode: AddrMode::AbsoluteY { force_cycle: true },
        },
        0xe3 => Instr::Addressed { op: AddrOp::Isc, mode: AddrMode::IndirectX },
        0xf3 => Instr::Addressed { op: AddrOp::Isc, mode: AddrMode::IndirectY },
        _ => Instr::Fault,
    }
}

/// Every table entry is well-formed: no entry smuggles the relative
/// pseudo-mode into an operand-fetching dispatch arm.
pub proof fn lemma_instr_of_wf(op: u8)
    ensures
        instr_wf(instr_of(op)),
{
}

/// The status byte with N and Z set from a byte result, all else kept.
pub open spec fn nz_sr(sr: u8, res: u8) -> u8 {
    sr_apply(sr, SrUpdate::nz(res))
}

/// The status byte with N and Z from a byte result and C forced, all else
/// kept.
pub open spec fn nzc_sr(sr: u8, res: u8, c: bool) -> u8 {
    sr_apply(sr, SrUpdate { c: Some(c), ..SrUpdate::nz(res) })
}

/// The status byte with N, Z, C and V all forced, as the add/subtract
/// instructions leave it.
pub open spec fn nzcv_sr(sr: u8, res: u8, c: bool, v: bool) -> u8 {
    sr_apply(sr, SrUpdate { c: Some(c), v: Some(v), ..SrUpdate::nz(res) })
}

/// The status byte after a right shift: N cleared, Z from the result, C the
/// shifted-out bit.
pub open spec fn lsr_sr(sr: u8, res: u8, c: bool) -> u8 {
    sr_apply(
        sr,
        SrUpdate { n: Some(false), z: Some(res == 0), c: Some(c), ..SrUpdate::empty() },
    )
}

/// Accumulator + operand + carry-in, before truncation to a byte.
pub open spec fn adc_sum(a: u8, m: u8, cin: bool) -> int {
    a + m + (if cin {
        1int
    } else {
        0int
    })
}

/// The accumulator after ADC.
pub open spec fn adc_res(a: u8, m: u8, cin: bool) -> u8 {
    (adc_sum(a, m, cin) % 256) as u8
}

/// Carry out of ADC: the sum exceeded a byte.
pub open spec fn adc_carry(a: u8, m: u8, cin: bool) -> bool {
    adc_sum(a, m, cin) > 255
}

/// Signed overflow of an addition: both inputs share a sign and the result
/// differs from it.
pub open spec fn add_overflows(a: u8, m: u8, res: u8) -> bool {
    ((a ^ res) & (m ^ res) & 0x80) == 0x80
}

/// Accumulator - operand - borrow-in, before wrap-around. The borrow in is
/// the inverted carry flag.
pub open spec fn sbc_diff(a: u8, m: u8, cin: bool) -> int {
    a - m - (if cin {
        0int
    } else {
        1int
    })
}

/// The accumulator after SBC.
pub open spec fn sbc_res(a: u8, m: u8, cin: bool) -> u8 {
    if sbc_diff(a, m, cin) < 0 {
        (sbc_diff(a, m, cin) + 256) as u8
    } else {
        sbc_diff(a, m, cin) as u8
    }
}

/// Carry out of SBC: set exactly when no borrow occurred.
pub open spec fn sbc_carry(a: u8, m: u8, cin: bool) -> bool {
    sbc_diff(a, m, cin) >= 0
}

/// Signed overflow of a subtraction: the inputs differ in sign and the
/// result's sign differs from the minuend's.
pub open spec fn sub_overflows(a: u8, m: u8, res: u8) -> bool {
    ((a ^ m) & (a ^ res) & 0x80) == 0x80
}

/// ADC: adds the operand and the carry into the accumulator (binary
/// arithmetic only; the Decimal bit never participates) and sets C, V, N, Z.
pub fn adc(cpu: &mut Cpu, arg: u8)
    ensures
        *final(cpu) == (Cpu {
            a: adc_res(old(cpu).a, arg, old(cpu).flag_spec(Sr::C)),
            sr: nzcv_sr(
                old(cpu).sr,
                adc_res(old(cpu).a, arg, old(cpu).flag_spec(Sr::C)),
                adc_carry(old(cpu).a, arg, old(cpu).flag_spec(Sr::C)),
                add_overflows(old(cpu).a, arg, adc_res(old(cpu).a, arg, old(cpu).flag_spec(Sr::C))),
            ),
            ..*old(cpu)
        }),
{
    let prev = cpu.a;
    let cin: u16 = if cpu.get_flag(Sr::C) {
        1
    } else {
        0
    };
    let sum: u16 = (prev as u16) + (arg as u16) + cin;
    let res: u8 = (sum % 256) as u8;
    let c = sum > 255;
    let v = ((prev ^ res) & (arg ^ res) & 0x80) == 0x80;
    cpu.a = res;
    cpu.update_flags(SrUpdate { c: Some(c), v: Some(v), ..SrUpdate::num_flags(res) }.result());
}

/// SBC: subtracts the operand and the borrow (the inverted carry) from the
/// accumulator and sets C, V, N, Z. Identical to ADC of the complemented
/// operand.
pub fn sbc(cpu: &mut Cpu, arg: u8)
    ensures
        *final(cpu) == (Cpu {
            a: sbc_res(old(cpu).a, arg, old(cpu).flag_spec(Sr::C)),
            sr: nzcv_sr(
                old(cpu).sr,
                sbc_res(old(cpu).a, arg, old(cpu).flag_spec(Sr::C)),
                sbc_carry(old(cpu).a, arg, old(cpu).flag_spec(Sr::C)),
                sub_overflows(old(cpu).a, arg, sbc_res(old(cpu).a, arg, old(cpu).flag_spec(Sr::C))),
            ),
            ..*old(cpu)
        }),
{
    let prev = cpu.a;
    let bin: u16 = if cpu.get_flag(Sr::C) {
        0
    } else {
        1
    };
    let lhs: u16 = (prev as u16) + 256;
    let diff: u16 = lhs - (arg as u16) - bin;
    let res: u8 = (diff % 256) as u8;
    let c = diff >= 256;
    let v = ((prev ^ arg) & (prev ^ res) & 0x80) == 0x80;
    cpu.a = res;
    cpu.update_flags(SrUpdate { c: Some(c), v: Some(v), ..SrUpdate::num_flags(res) }.result());
}

/// AND: bitwise-ands the operand into the accumulator and sets N, Z.
pub fn and(cpu: &mut Cpu, arg: u8)
    ensures
        *final(cpu) == (Cpu {
            a: old(cpu).a & arg,
            sr: nz_sr(old(cpu).sr, old(cpu).a & arg),
            ..*old(cpu)
        }),
{
    cpu.a = cpu.a & arg;
    cpu.update_flags(SrUpdate::num_flags(cpu.a).result());
}

/// ORA: bitwise-ors the operand into the accumulator and sets N, Z.
pub fn ora(cpu: &mut Cpu, arg: u8)
    ensures
        *final(cpu) == (Cpu {
            a: old(cpu).a | arg,
            sr: nz_sr(old(cpu).sr, old(cpu).a | arg),
            ..*old(cpu)
        }),
{
    cpu.a = cpu.a | arg;
    cpu.update_flags(SrUpdate::num_flags(cpu.a).result());
}

/// EOR: bitwise-xors the operand into the accumulator and sets N, Z.
pub fn eor(cpu: &mut Cpu, arg: u8)
    ensures
        *final(cpu) == (Cpu {
            a: old(cpu).a ^ arg,
            sr: nz_sr(old(cpu).sr, old(cpu).a ^ arg),
            ..*old(cpu)
        }),
{
    cpu.a = cpu.a ^ arg;
    cpu.update_flags(SrUpdate::num_flags(cpu.a).result());
}

/// BIT: copies operand bits 7 and 6 into N and V and sets Z from the AND of
/// accumulator and operand, without touching the accumulator.
pub fn bit(cpu: &mut Cpu, arg: u8)
    ensures
        *final(cpu) == (Cpu {
            sr: set_flag_spec(
                (old(cpu).sr & 0x3f) | (arg & 0xc0),
                Sr::Z,
                old(cpu).a & arg == 0,
            ),
            ..*old(cpu)
        }),
{
    cpu.sr = (cpu.sr & 0x3f) | (arg & 0xc0);
    let z = cpu.a & arg == 0;
    cpu.set_flag(Sr::Z, z);
}

/// LDA: loads the operand into the accumulator and sets N, Z.
pub fn lda(cpu: &mut Cpu, arg: u8)
    ensures
        *final(cpu) == (Cpu { a: arg, sr: nz_sr(old(cpu).sr, arg), ..*old(cpu) }),
{
    cpu.a = arg;
    cpu.update_flags(SrUpdate::num_flags(cpu.a).result());
}

/// LDX: loads the operand into X and sets N, Z.
pub fn ldx(cpu: &mut Cpu, arg: u8)
    ensures
        *final(cpu) == (Cpu { x: arg, sr: nz_sr(old(cpu).sr, arg), ..*old(cpu) }),
{
    cpu.x = arg;
    cpu.update_flags(SrUpdate::num_flags(cpu.x).result());
}

/// LDY: loads the operand into Y and sets N, Z.
pub fn ldy(cpu: &mut Cpu, arg: u8)
    ensures
        *final(cpu) == (Cpu { y: arg, sr: nz_sr(old(cpu).sr, arg), ..*old(cpu) }),
{
    cpu.y = arg;
    cpu.update_flags(SrUpdate::num_flags(cpu.y).result());
}

/// CMP: computes accumulator minus operand, sets N, Z from the byte result
/// and C exactly when no borrow occurred.
pub fn cmp(cpu: &mut Cpu, arg: u8)
    ensures
        *final(cpu) == (Cpu {
            sr: nzc_sr(old(cpu).sr, wrap_sub8(old(cpu).a, arg), old(cpu).a >= arg),
            ..*old(cpu)
        }),
{
    let res = cpu.a.wrapping_sub(arg);
    let c = cpu.a >= arg;
    cpu.update_flags(SrUpdate { c: Some(c), ..SrUpdate::num_flags(res) }.result());
}

/// CPX: like CMP, against the X register.
pub fn cpx(cpu: &mut Cpu, arg: u8)
    ensures
        *final(cpu) == (Cpu {
            sr: nzc_sr(old(cpu).sr, wrap_sub8(old(cpu).x, arg), old(cpu).x >= arg),
            ..*old(cpu)
        }),
{
    let res = cpu.x.wrapping_sub(arg);
    let c = cpu.x >= arg;
    cpu.update_flags(SrUpdate { c: Some(c), ..SrUpdate::num_flags(res) }.result());
}

/// CPY: like CMP, against the Y register.
pub fn cpy(cpu: &mut Cpu, arg: u8)
    ensures
        *final(cpu) == (Cpu {
            sr: nzc_sr(old(cpu).sr, wrap_sub8(old(cpu).y, arg), old(cpu).y >= arg),
            ..*old(cpu)
        }),
{
    let res = cpu.y.wrapping_sub(arg);
    let c = cpu.y >= arg;
    cpu.update_flags(SrUpdate { c: Some(c), ..SrUpdate::num_flags(res) }.result());
}

/// NOP with an operand: the addressing mode's bus cycles have already run;
/// the byte is discarded and nothing changes.
pub fn nop(cpu: &mut Cpu, arg: u8)
    ensures
        *final(cpu) == *old(cpu),
{
    let _ = arg;
}

/// The cycle signature shared by every read-modify-write instruction at its
/// effective address: read the old byte, write it back unchanged (the dummy
/// write), then write the new byte.
pub open spec fn rmw_trace(addr: u16, v_old: u8, v_new: u8) -> Seq<EventSource> {
    seq![
        EventSource::BusRead { addr, val: v_old },
        EventSource::BusWrite { addr, val: v_old },
        EventSource::BusWrite { addr, val: v_new },
    ]
}

/// The read-modify-write dummy write: every instruction whose contract
/// appends `rmw_trace` puts exactly three cycles on the bus at its
/// effective address — the read of the old byte, a write of that same byte
/// back (the dummy write), then the write of the new byte.
pub proof fn lemma_rmw_dummy_write(addr: u16, v_old: u8, v_new: u8)
    ensures
        rmw_trace(addr, v_old, v_new).len() == 3,
        rmw_trace(addr, v_old, v_new)[0] == (EventSource::BusRead { addr, val: v_old }),
        rmw_trace(addr, v_old, v_new)[1] == (EventSource::BusWrite { addr, val: v_old }),
        rmw_trace(addr, v_old, v_new)[2] == (EventSource::BusWrite { addr, val: v_new }),
{
}

/// Whatever the status byte holds, PHP pushes it with bit 5 (and bit 4)
/// presented as set.
pub proof fn lemma_php_presents_bit5(sr: u8)
    ensures
        (sr | 0x30) & 0x20 == 0x20,
        (sr | 0x30) & 0x10 == 0x10,
{
    assert((sr | 0x30) & 0x20 == 0x20 && (sr | 0x30) & 0x10 == 0x10) by (bit_vector);
}

/// The byte after a left shift; bit 7 falls out into the carry.
pub open spec fn asl_res(v: u8) -> u8 {
    v << 1
}

/// The byte after a right shift; bit 0 falls out into the carry.
pub open spec fn lsr_res(v: u8) -> u8 {
    v >> 1
}

/// The byte after a left rotate through carry.
pub open spec fn rol_res(v: u8, cin: bool) -> u8 {
    (v << 1) | (if cin {
        1u8
    } else {
        0u8
    })
}

/// The byte after a right rotate through carry.
pub open spec fn ror_res(v: u8, cin: bool) -> u8 {
    (v >> 1) | (if cin {
        0x80u8
    } else {
        0u8
    })
}

/// ASL on memory: a read-modify-write left shift; C takes bit 7, N/Z follow
/// the result.
pub fn asl<B: Bus>(cpu: &mut Cpu, bus: &mut B, addr: Addr)
    requires
        old(bus).wf(),
    ensures
        final(bus).wf(),
        final(bus).time_spec() == old(bus).time_spec(),
        ({
            let v = ev_val(final(bus).events()[old(bus).events().len() as int]);
            &&& final(bus).events() == old(bus).events() + rmw_trace(addr, v, asl_res(v))
            &&& *final(cpu) == (Cpu {
                sr: nzc_sr(old(cpu).sr, asl_res(v), v >> 7 == 1),
                ..*old(cpu)
            })
        }),
{
    let arg = bus.read(addr);
    let cout = arg >> 7 == 1;
    let res = arg << 1;
    bus.write(addr, arg);
    bus.write(addr, res);
    cpu.update_flags(SrUpdate { c: Some(cout), ..SrUpdate::num_flags(res) }.result());
    proof {
        assert(bus.events() =~= old(bus).events() + rmw_trace(addr, arg, res));
    }
}

/// LSR on memory: a read-modify-write right shift; C takes bit 0, N is
/// cleared, Z follows the result.
pub fn lsr<B: Bus>(cpu: &mut Cpu, bus: &mut B, addr: Addr)
    requires
        old(bus).wf(),
    ensures
        final(bus).wf(),
        final(bus).time_spec() == old(bus).time_spec(),
        ({
            let v = ev_val(final(bus).events()[old(bus).events().len() as int]);
            &&& final(bus).events() == old(bus).events() + rmw_trace(addr, v, lsr_res(v))
            &&& *final(cpu) == (Cpu {
                sr: lsr_sr(old(cpu).sr, lsr_res(v), v & 1 == 1),
                ..*old(cpu)
            })
        }),
{
    let arg = bus.read(addr);
    let cout = arg & 1 == 1;
    let res = arg >> 1;
    bus.write(addr, arg);
    bus.write(addr, res);
    cpu.update_flags(
        SrUpdate {
            n: Some(false),
            z: Some(res == 0),
            c: Some(cout),
            ..SrUpdate::default()
        }.result(),
    );
    proof {
        assert(bus.events() =~= old(bus).events() + rmw_trace(addr, arg, res));
    }
}

/// ROL on memory: a read-modify-write left rotate through carry.
pub fn rol<B: Bus>(cpu: &mut Cpu, bus: &mut B, addr: Addr)
    requires
        old(bus).wf(),
    ensures
        final(bus).wf(),
        final(bus).time_spec() == old(bus).time_spec(),
        ({
            let v = ev_val(final(bus).events()[old(bus).events().len() as int]);
            let res = rol_res(v, old(cpu).flag_spec(Sr::C));
            &&& final(bus).events() == old(bus).events() + rmw_trace(addr, v, res)
            &&& *final(cpu) == (Cpu { sr: nzc_sr(old(cpu).sr, res, v >> 7 == 1), ..*old(cpu) })
        }),
{
    let arg = bus.read(addr);
    let cin = cpu.get_flag(Sr::C);
    let cout = arg >> 7 == 1;
    let res = (arg << 1) | (if cin {
        1u8
    } else {
        0u8
    });
    bus.write(addr, arg);
    bus.write(addr, res);
    cpu.update_flags(SrUpdate { c: Some(cout), ..SrUpdate::num_flags(res) }.result());
    proof {
        assert(bus.events() =~= old(bus).events() + rmw_trace(addr, arg, res));
    }
}

/// ROR on memory: a read-modify-write right rotate through carry.
pub fn ror<B: Bus>(cpu: &mut Cpu, bus: &mut B, addr: Addr)
    requires
        old(bus).wf(),
    ensures
        final(bus).wf(),
        final(bus).time_spec() == old(bus).time_spec(),
        ({
            let v = ev_val(final(bus).events()[old(bus).events().len() as int]);
            let res = ror_res(v, old(cpu).flag_spec(Sr::C));
            &&& final(bus).events() == old(bus).events() + rmw_trace(addr, v, res)
            &&& *final(cpu) == (Cpu { sr: nzc_sr(old(cpu).sr, res, v & 1 == 1), ..*old(cpu) })
        }),
{
    let arg = bus.read(addr);
    let cin = cpu.get_flag(Sr::C);
    let cout = arg & 1 == 1;
    let res = (arg >> 1) | (if cin {
        0x80u8
    } else {
        0u8
    });
    bus.write(addr, arg);
    bus.write(addr, res);
    cpu.update_flags(SrUpdate { c: Some(cout), ..SrUpdate::num_flags(res) }.result());
    proof {
        assert(bus.events() =~= old(bus).events() + rmw_trace(addr, arg, res));
    }
}

/// INC: a read-modify-write increment; N/Z follow the result.
pub fn inc<B: Bus>(cpu: &mut Cpu, bus: &mut B, addr: Addr)
    requires
        old(bus).wf(),
    ensures
        final(bus).wf(),
        final(bus).time_spec() == old(bus).time_spec(),
        ({
            let v = ev_val(final(bus).events()[old(bus).events().len() as int]);
            &&& final(bus).events() == old(bus).events() + rmw_trace(addr, v, wrap_add8(v, 1))
            &&& *final(cpu) == (Cpu {
                sr: nz_sr(old(cpu).sr, wrap_add8(v, 1)),
                ..*old(cpu)
            })
        }),
{
    let val = bus.read(addr);
    bus.write(addr, val);
    let res = val.wrapping_add(1);
    bus.write(addr, res);
    cpu.update_flags(SrUpdate::num_flags(res).result());
    proof {
        assert(bus.events() =~= old(bus).events() + rmw_trace(addr, val, res));
    }
}

/// DEC: a read-modify-write decrement; N/Z follow the result.
pub fn dec<B: Bus>(cpu: &mut Cpu, bus: &mut B, addr: Addr)
    requires
        old(bus).wf(),
    ensures
        final(bus).wf(),
        final(bus).time_spec() == old(bus).time_spec(),
        ({
            let v = ev_val(final(bus).events()[old(bus).events().len() as int]);
            &&& final(bus).events() == old(bus).events() + rmw_trace(addr, v, wrap_sub8(v, 1))
            &&& *final(cpu) == (Cpu {
                sr: nz_sr(old(cpu).sr, wrap_sub8(v, 1)),
                ..*old(cpu)
            })
        }),
{
    let val = bus.read(addr);
    bus.write(addr, val);
    let res = val.wrapping_sub(1);
    bus.write(addr, res);
    cpu.update_flags(SrUpdate::num_flags(res).result());
    proof {
        assert(bus.events() =~= old(bus).events() + rmw_trace(addr, val, res));
    }
}

/// DCP (illegal): DEC on memory followed by CMP of the decremented byte.
pub fn dcp<B: Bus>(cpu: &mut Cpu, bus: &mut B, addr: Addr)
    requires
        old(bus).wf(),
    ensures
        final(bus).wf(),
        final(bus).time_spec() == old(bus).time_spec(),
        ({
            let v = ev_val(final(bus).events()[old(bus).events().len() as int]);
            let m = wrap_sub8(v, 1);
            &&& final(bus).events() == old(bus).events() + rmw_trace(addr, v, m)
            &&& *final(cpu) == (Cpu {
                sr: nzc_sr(old(cpu).sr, wrap_sub8(old(cpu).a, m), old(cpu).a >= m),
                ..*old(cpu)
            })
        }),
{
    let val = bus.read(addr);
    bus.write(addr, val);
    let dec_res = val.wrapping_sub(1);
    bus.write(addr, dec_res);
    let res = cpu.a.wrapping_sub(dec_res);
    let c = cpu.a >= dec_res;
    cpu.update_flags(SrUpdate { c: Some(c), ..SrUpdate::num_flags(res) }.result());
    proof {
        assert(bus.events() =~= old(bus).events() + rmw_trace(addr, val, dec_res));
    }
}

/// ISC (illegal): INC on memory followed by SBC of the incremented byte.
pub fn isc<B: Bus>(cpu: &mut Cpu, bus: &mut B, addr: Addr)
    requires
        old(bus).wf(),
    ensures
        final(bus).wf(),
        final(bus).time_spec() == old(bus).time_spec(),
        ({
            let v = ev_val(final(bus).events()[old(bus).events().len() as int]);
            let m = wrap_add8(v, 1);
            let res = sbc_res(old(cpu).a, m, old(cpu).flag_spec(Sr::C));
            &&& final(bus).events() == old(bus).events() + rmw_trace(addr, v, m)
            &&& *final(cpu) == (Cpu {
                a: res,
                sr: nzcv_sr(
                    old(cpu).sr,
                    res,
                    sbc_carry(old(cpu).a, m, old(cpu).flag_spec(Sr::C)),
                    sub_overflows(old(cpu).a, m, res),
                ),
                ..*old(cpu)
            })
        }),
{
    let val = bus.read(addr);
    bus.write(addr, val);
    let inc_res = val.wrapping_add(1);
    bus.write(addr, inc_res);
    sbc(cpu, inc_res);
    proof {
        assert(bus.events() =~= old(bus).events() + rmw_trace(addr, val, inc_res));
    }
}

/// SLO (illegal): ASL on memory, then ORA of the shifted byte into the
/// accumulator; C takes the shifted-out bit, N/Z follow the accumulator.
pub fn slo<B: Bus>(cpu: &mut Cpu, bus: &mut B, addr: Addr)
    requires
        old(bus).wf(),
    ensures
        final(bus).wf(),
        final(bus).time_spec() == old(bus).time_spec(),
        ({
            let v = ev_val(final(bus).events()[old(bus).events().len() as int]);
            let res = asl_res(v);
            &&& final(bus).events() == old(bus).events() + rmw_trace(addr, v, res)
            &&& *final(cpu) == (Cpu {
                a: old(cpu).a | res,
                sr: nzc_sr(old(cpu).sr, old(cpu).a | res, v >> 7 == 1),
                ..*old(cpu)
            })
        }),
{
    let arg = bus.read(addr);
    let cout = arg >> 7 == 1;
    let res = arg << 1;
    bus.write(addr, arg);
    bus.write(addr, res);
    cpu.a = cpu.a | res;
    cpu.update_flags(SrUpdate { c: Some(cout), ..SrUpdate::num_flags(cpu.a) }.result());
    proof {
        assert(bus.events() =~= old(bus).events() + rmw_trace(addr, arg, res));
    }
}

/// STA: writes the accumulator to the effective address.
pub fn sta<B: Bus>(cpu: &mut Cpu, bus: &mut B, addr: Addr)
    requires
        old(bus).wf(),
    ensures
        final(bus).wf(),
        final(bus).time_spec() == old(bus).time_spec(),
        final(bus).events() == old(bus).events().push(
            EventSource::BusWrite { addr, val: old(cpu).a },
        ),
        *final(cpu) == *old(cpu),
{
    bus.write(addr, cpu.a);
}

/// STX: writes the X register to the effective address.
pub fn stx<B: Bus>(cpu: &mut Cpu, bus: &mut B, addr: Addr)
    requires
        old(bus).wf(),
    ensures
        final(bus).wf(),
        final(bus).time_spec() == old(bus).time_spec(),
        final(bus).events() == old(bus).events().push(
            EventSource::BusWrite { addr, val: old(cpu).x },
        ),
        *final(cpu) == *old(cpu),
{
    bus.write(addr, cpu.x);
}

/// STY: writes the Y register to the effective address.
pub fn sty<B: Bus>(cpu: &mut Cpu, bus: &mut B, addr: Addr)
    requires
        old(bus).wf(),
    ensures
        final(bus).wf(),
        final(bus).time_spec() == old(bus).time_spec(),
        final(bus).events() == old(bus).events().push(
            EventSource::BusWrite { addr, val: old(cpu).y },
        ),
        *final(cpu) == *old(cpu),
{
    bus.write(addr, cpu.y);
}

/// JMP: sets the program counter to the already-resolved target.
pub fn jmp(cpu: &mut Cpu, addr: Addr)
    ensures
        *final(cpu) == (Cpu { pc: addr, ..*old(cpu) }),
{
    cpu.pc = addr;
}

/// The instruction's only bus traffic was one dummy prefetch read at the
/// given program counter; the byte it returned was discarded.
pub open spec fn prefetch_only(ev0: Seq<EventSource>, ev1: Seq<EventSource>, pc: u16) -> bool {
    ev1 == ev0.push(EventSource::BusRead { addr: pc, val: ev_val(ev1.last()) })
}

/// NOP, implied form: a prefetch cycle and nothing else.
pub fn nop_implied<B: Bus>(cpu: &mut Cpu, bus: &mut B)
    requires
        old(bus).wf(),
    ensures
        final(bus).wf(),
        final(bus).time_spec() == old(bus).time_spec(),
        prefetch_only(old(bus).events(), final(bus).events(), old(cpu).pc),
        *final(cpu) == *old(cpu),
{
    cpu.prefetch(bus);
}

/// ASL on the accumulator, after a prefetch cycle.
pub fn asl_acc<B: Bus>(cpu: &mut Cpu, bus: &mut B)
    requires
        old(bus).wf(),
    ensures
        final(bus).wf(),
        final(bus).time_spec() == old(bus).time_spec(),
        prefetch_only(old(bus).events(), final(bus).events(), old(cpu).pc),
        *final(cpu) == (Cpu {
            a: asl_res(old(cpu).a),
            sr: nzc_sr(old(cpu).sr, asl_res(old(cpu).a), old(cpu).a >> 7 == 1),
            ..*old(cpu)
        }),
{
    cpu.prefetch(bus);
    let cout = cpu.a >> 7 == 1;
    cpu.a = cpu.a << 1;
    cpu.update_flags(SrUpdate { c: Some(cout), ..SrUpdate::num_flags(cpu.a) }.result());
}

/// LSR on the accumulator, after a prefetch cycle.
pub fn lsr_acc<B: Bus>(cpu: &mut Cpu, bus: &mut B)
    requires
        old(bus).wf(),
    ensures
        final(bus).wf(),
        final(bus).time_spec() == old(bus).time_spec(),
        prefetch_only(old(bus).events(), final(bus).events(), old(cpu).pc),
        *final(cpu) == (Cpu {
            a: lsr_res(old(cpu).a),
            sr: lsr_sr(old(cpu).sr, lsr_res(old(cpu).a), old(cpu).a & 1 == 1),
            ..*old(cpu)
        }),
{
    cpu.prefetch(bus);
    let cout = cpu.a & 1 == 1;
    cpu.a = cpu.a >> 1;
    cpu.update_flags(
        SrUpdate {
            n: Some(false),
            z: Some(cpu.a == 0),
            c: Some(cout),
            ..SrUpdate::default()
        }.result(),
    );
}

/// ROL on the accumulator, after a prefetch cycle.
pub fn rol_acc<B: Bus>(cpu: &mut Cpu, bus: &mut B)
    requires
        old(bus).wf(),
    ensures
        final(bus).wf(),
        final(bus).time_spec() == old(bus).time_spec(),
        prefetch_only(old(bus).events(), final(bus).events(), old(cpu).pc),
        *final(cpu) == (Cpu {
            a: rol_res(old(cpu).a, old(cpu).flag_spec(Sr::C)),
            sr: nzc_sr(
                old(cpu).sr,
                rol_res(old(cpu).a, old(cpu).flag_spec(Sr::C)),
                old(cpu).a >> 7 == 1,
            ),
            ..*old(cpu)
        }),
{
    cpu.prefetch(bus);
    let cin = cpu.get_flag(Sr::C);
    let cout = cpu.a >> 7 == 1;
    cpu.a = (cpu.a << 1) | (if cin {
        1u8
    } else {
        0u8
    });
    cpu.update_flags(SrUpdate { c: Some(cout), ..SrUpdate::num_flags(cpu.a) }.result());
}

/// ROR on the accumulator, after a prefetch cycle.
pub fn ror_acc<B: Bus>(cpu: &mut Cpu, bus: &mut B)
    requires
        old(bus).wf(),
    ensures
        final(bus).wf(),
        final(bus).time_spec() == old(bus).time_spec(),
        prefetch_only(old(bus).events(), final(bus).events(), old(cpu).pc),
        *final(cpu) == (Cpu {
            a: ror_res(old(cpu).a, old(cpu).flag_spec(Sr::C)),
            sr: nzc_sr(
                old(cpu).sr,
                ror_res(old(cpu).a, old(cpu).flag_spec(Sr::C)),
                old(cpu).a & 1 == 1,
            ),
            ..*old(cpu)
        }),
{
    cpu.prefetch(bus);
    let cin = cpu.get_flag(Sr::C);
    let cout = cpu.a & 1 == 1;
    cpu.a = (cpu.a >> 1) | (if cin {
        0x80u8
    } else {
        0u8
    });
    cpu.update_flags(SrUpdate { c: Some(cout), ..SrUpdate::num_flags(cpu.a) }.result());
}

/// TAX: copies the accumulator into X and sets N, Z; one prefetch cycle.
pub fn tax<B: Bus>(cpu: &mut Cpu, bus: &mut B)
    requires
        old(bus).wf(),
    ensures
        final(bus).wf(),
        final(bus).time_spec() == old(bus).time_spec(),
        prefetch_only(old(bus).events(), final(bus).events(), old(cpu).pc),
        *final(cpu) == (Cpu {
            x: old(cpu).a,
            sr: nz_sr(old(cpu).sr, old(cpu).a),
            ..*old(cpu)
        }),
{
    cpu.x = cpu.a;
    cpu.update_flags(SrUpdate::num_flags(cpu.x).result());
    cpu.prefetch(bus);
}

/// TAY: copies the accumulator into Y and sets N, Z; one prefetch cycle.
pub fn tay<B: Bus>(cpu: &mut Cpu, bus: &mut B)
    requires
        old(bus).wf(),
    ensures
        final(bus).wf(),
        final(bus).time_spec() == old(bus).time_spec(),
        prefetch_only(old(bus).events(), final(bus).events(), old(cpu).pc),
        *final(cpu) == (Cpu {
            y: old(cpu).a,
            sr: nz_sr(old(cpu).sr, old(cpu).a),
            ..*old(cpu)
        }),
{
    cpu.y = cpu.a;
    cpu.update_flags(SrUpdate::num_flags(cpu.y).result());
    cpu.prefetch(bus);
}

/// TSX: copies the stack pointer into X and sets N, Z; one prefetch cycle.
pub fn tsx<B: Bus>(cpu: &mut Cpu, bus: &mut B)
    requires
        old(bus).wf(),
    ensures
        final(bus).wf(),
        final(bus).time_spec() == old(bus).time_spec(),
        prefetch_only(old(bus).events(), final(bus).events(), old(cpu).pc),
        *final(cpu) == (Cpu {
            x: old(cpu).sp,
            sr: nz_sr(old(cpu).sr, old(cpu).sp),
            ..*old(cpu)
        }),
{
    cpu.x = cpu.sp;
    cpu.update_flags(SrUpdate::num_flags(cpu.x).result());
    cpu.prefetch(bus);
}

/// TXA: copies X into the accumulator and sets N, Z; one prefetch cycle.
pub fn txa<B: Bus>(cpu: &mut Cpu, bus: &mut B)
    requires
        old(bus).wf(),
    ensures
        final(bus).wf(),
        final(bus).time_spec() == old(bus).time_spec(),
        prefetch_only(old(bus).events(), final(bus).events(), old(cpu).pc),
        *final(cpu) == (Cpu {
            a: old(cpu).x,
            sr: nz_sr(old(cpu).sr, old(cpu).x),
            ..*old(cpu)
        }),
{
    cpu.a = cpu.x;
    cpu.update_flags(SrUpdate::num_flags(cpu.a).result());
    cpu.prefetch(bus);
}

/// TXS: copies X into the stack pointer. Unlike the other transfers, TXS
/// updates no flag; one prefetch cycle.
pub fn txs<B: Bus>(cpu: &mut Cpu, bus: &mut B)
    requires
        old(bus).wf(),
    ensures
        final(bus).wf(),
        final(bus).time_spec() == old(bus).time_spec(),
        prefetch_only(old(bus).events(), final(bus).events(), old(cpu).pc),
        *final(cpu) == (Cpu { sp: old(cpu).x, ..*old(cpu) }),
{
    cpu.sp = cpu.x;
    cpu.prefetch(bus);
}

/// TYA: copies Y into the accumulator and sets N, Z; one prefetch cycle.
pub fn tya<B: Bus>(cpu: &mut Cpu, bus: &mut B)
    requires
        old(bus).wf(),
    ensures
        final(bus).wf(),
        final(bus).time_spec() == old(bus).time_spec(),
        prefetch_only(old(bus).events(), final(bus).events(), old(cpu).pc),
        *final(cpu) == (Cpu {
            a: old(cpu).y,
            sr: nz_sr(old(cpu).sr, old(cpu).y),
            ..*old(cpu)
        }),
{
    cpu.a = cpu.y;
    cpu.update_flags(SrUpdate::num_flags(cpu.a).result());
    cpu.prefetch(bus);
}

/// INX: increments X with wrap-around and sets N, Z; one prefetch cycle.
pub fn inx<B: Bus>(cpu: &mut Cpu, bus: &mut B)
    requires
        old(bus).wf(),
    ensures
        final(bus).wf(),
        final(bus).time_spec() == old(bus).time_spec(),
        prefetch_only(old(bus).events(), final(bus).events(), old(cpu).pc),
        *final(cpu) == (Cpu {
            x: wrap_add8(old(cpu).x, 1),
            sr: nz_sr(old(cpu).sr, wrap_add8(old(cpu).x, 1)),
            ..*old(cpu)
        }),
{
    cpu.x = cpu.x.wrapping_add(1);
    cpu.update_flags(SrUpdate::num_flags(cpu.x).result());
    cpu.prefetch(bus);
}

/// INY: increments Y with wrap-around and sets N, Z; one prefetch cycle.
pub fn iny<B: Bus>(cpu: &mut Cpu, bus: &mut B)
    requires
        old(bus).wf(),
    ensures
        final(bus).wf(),
        final(bus).time_spec() == old(bus).time_spec(),
        prefetch_only(old(bus).events(), final(bus).events(), old(cpu).pc),
        *final(cpu) == (Cpu {
            y: wrap_add8(old(cpu).y, 1),
            sr: nz_sr(old(cpu).sr, wrap_add8(old(cpu).y, 1)),
            ..*old(cpu)
        }),
{
    cpu.y = cpu.y.wrapping_add(1);
    cpu.update_flags(SrUpdate::num_flags(cpu.y).result());
    cpu.prefetch(bus);
}

/// DEX: decrements X with wrap-around and sets N, Z; one prefetch cycle.
pub fn dex<B: Bus>(cpu: &mut Cpu, bus: &mut B)
    requires
        old(bus).wf(),
    ensures
        final(bus).wf(),
        final(bus).time_spec() == old(bus).time_spec(),
        prefetch_only(old(bus).events(), final(bus).events(), old(cpu).pc),
        *final(cpu) == (Cpu {
            x: wrap_sub8(old(cpu).x, 1),
            sr: nz_sr(old(cpu).sr, wrap_sub8(old(cpu).x, 1)),
            ..*old(cpu)
        }),
{
    cpu.x = cpu.x.wrapping_sub(1);
    cpu.update_flags(SrUpdate::num_flags(cpu.x).result());
    cpu.prefetch(bus);
}

/// DEY: decrements Y with wrap-around and sets N, Z; one prefetch cycle.
pub fn dey<B: Bus>(cpu: &mut Cpu, bus: &mut B)
    requires
        old(bus).wf(),
    ensures
        final(bus).wf(),
        final(bus).time_spec() == old(bus).time_spec(),
        prefetch_only(old(bus).events(), final(bus).events(), old(cpu).pc),
        *final(cpu) == (Cpu {
            y: wrap_sub8(old(cpu).y, 1),
            sr: nz_sr(old(cpu).sr, wrap_sub8(old(cpu).y, 1)),
            ..*old(cpu)
        }),
{
    cpu.y = cpu.y.wrapping_sub(1);
    cpu.update_flags(SrUpdate::num_flags(cpu.y).result());
    cpu.prefetch(bus);
}

/// CLC: clears the carry flag. No bus traffic beyond the opcode fetch.
pub fn clc(cpu: &mut Cpu)
    ensures
        *final(cpu) == (Cpu { sr: set_flag_spec(old(cpu).sr, Sr::C, false), ..*old(cpu) }),
{
    cpu.set_flag(Sr::C, false);
}

/// CLI: clears the interrupt-disable flag.
pub fn cli(cpu: &mut Cpu)
    ensures
        *final(cpu) == (Cpu { sr: set_flag_spec(old(cpu).sr, Sr::I, false), ..*old(cpu) }),
{
    cpu.set_flag(Sr::I, false);
}

/// CLV: clears the overflow flag.
pub fn clv(cpu: &mut Cpu)
    ensures
        *final(cpu) == (Cpu { sr: set_flag_spec(old(cpu).sr, Sr::V, false), ..*old(cpu) }),
{
    cpu.set_flag(Sr::V, false);
}

/// CLD: clears the decimal flag. The bit is stored and readable but never
/// alters arithmetic on this CPU variant.
pub fn cld(cpu: &mut Cpu)
    ensures
        *final(cpu) == (Cpu { sr: set_flag_spec(old(cpu).sr, Sr::D, false), ..*old(cpu) }),
{
    cpu.set_flag(Sr::D, false);
}

/// SEC: sets the carry flag.
pub fn sec(cpu: &mut Cpu)
    ensures
        *final(cpu) == (Cpu { sr: set_flag_spec(old(cpu).sr, Sr::C, true), ..*old(cpu) }),
{
    cpu.set_flag(Sr::C, true);
}

/// SEI: sets the interrupt-disable flag.
pub fn sei(cpu: &mut Cpu)
    ensures
        *final(cpu) == (Cpu { sr: set_flag_spec(old(cpu).sr, Sr::I, true), ..*old(cpu) }),
{
    cpu.set_flag(Sr::I, true);
}

/// SED: sets the decimal flag; see `cld`.
pub fn sed(cpu: &mut Cpu)
    ensures
        *final(cpu) == (Cpu { sr: set_flag_spec(old(cpu).sr, Sr::D, true), ..*old(cpu) }),
{
    cpu.set_flag(Sr::D, true);
}

/// The 16-bit sign extension of a branch offset byte.
pub open spec fn sign_ext(off: u8) -> u16 {
    if off >= 0x80 {
        (0xff00 + off) as u16
    } else {
        off as u16
    }
}

/// The branch target: the program counter (already past the offset byte)
/// plus the sign-extended offset, with 16-bit wrap.
pub open spec fn branch_target(pc: u16, off: u8) -> u16 {
    wrap_add16(pc, sign_ext(off))
}

/// The mis-computed intermediate address a page-crossing branch reads: the
/// new low byte of the target under the old high byte.
pub open spec fn branch_mid_addr(pc: u16, off: u8) -> u16 {
    ((pc / 256) * 256 + wrap_add8((pc % 256) as u8, off)) as u16
}

/// The exact effect of a conditional branch. The offset byte is always
/// fetched; a taken branch spends a prefetch cycle, and a taken branch that
/// crosses a page also reads the mis-computed intermediate address before
/// the program counter lands on the target.
pub open spec fn branch_post(
    pre: Cpu,
    post: Cpu,
    ev0: Seq<EventSource>,
    ev1: Seq<EventSource>,
    taken: bool,
) -> bool {
    let n = ev0.len() as int;
    let off = ev_val(ev1[n]);
    let pc1 = wrap_inc16(pre.pc);
    let target = branch_target(pc1, off);
    &&& ev1.take(n) == ev0
    &&& is_read_at(ev1[n], pre.pc)
    &&& if !taken {
        ev1.len() == n + 1 && post == (Cpu { pc: pc1, ..pre })
    } else {
        &&& post == (Cpu { pc: target, ..pre })
        &&& is_read_at(ev1[n + 1], pc1)
        &&& if crate::cpu::crosses_page(pc1, target) {
            ev1.len() == n + 3 && is_read_at(ev1[n + 2], branch_mid_addr(pc1, off))
        } else {
            ev1.len() == n + 2
        }
    }
}

/// The shared body of the eight conditional branches; `taken` is the branch
/// condition, evaluated by the caller before any cycle of this body runs.
pub fn conditional_branch<B: Bus>(cpu: &mut Cpu, bus: &mut B, taken: bool)
    requires
        old(bus).wf(),
    ensures
        final(bus).wf(),
        final(bus).time_spec() == old(bus).time_spec(),
        branch_post(*old(cpu), *final(cpu), old(bus).events(), final(bus).events(), taken),
{
    let ghost ev0 = old(bus).events();
    let ghost n = old(bus).events().len() as int;
    let offset = cpu.read_from_pc(bus);
    if taken {
        cpu.prefetch(bus);
        let pc_lo: u8 = (cpu.pc % 256) as u8;
        let pc_hi: u16 = (cpu.pc / 256) * 256;
        let mid_pc: u16 = pc_hi + (pc_lo.wrapping_add(offset) as u16);
        let off_ext: u16 = if offset >= 0x80 {
            0xff00u16 + (offset as u16)
        } else {
            offset as u16
        };
        let new_pc = cpu.pc.wrapping_add(off_ext);
        if (cpu.pc >> 8) != (new_pc >> 8) {
            bus.read(mid_pc);
        }
        cpu.pc = new_pc;
        proof {
            assert(bus.events().take(n) =~= ev0);
        }
    } else {
        proof {
            assert(bus.events().take(n) =~= ev0);
        }
    }
}

/// BCC: branch when carry is clear.
pub fn bcc<B: Bus>(cpu: &mut Cpu, bus: &mut B)
    requires
        old(bus).wf(),
    ensures
        final(bus).wf(),
        final(bus).time_spec() == old(bus).time_spec(),
        branch_post(
            *old(cpu),
            *final(cpu),
            old(bus).events(),
            final(bus).events(),
            !old(cpu).flag_spec(Sr::C),
        ),
{
    let taken = !cpu.get_flag(Sr::C);
    conditional_branch(cpu, bus, taken);
}

/// BCS: branch when carry is set.
pub fn bcs<B: Bus>(cpu: &mut Cpu, bus: &mut B)
    requires
        old(bus).wf(),
    ensures
        final(bus).wf(),
        final(bus).time_spec() == old(bus).time_spec(),
        branch_post(
            *old(cpu),
            *final(cpu),
            old(bus).events(),
            final(bus).events(),
            old(cpu).flag_spec(Sr::C),
        ),
{
    let taken = cpu.get_flag(Sr::C);
    conditional_branch(cpu, bus, taken);
}

/// BEQ: branch when the zero flag is set.
pub fn beq<B: Bus>(cpu: &mut Cpu, bus: &mut B)
    requires
        old(bus).wf(),
    ensures
        final(bus).wf(),
        final(bus).time_spec() == old(bus).time_spec(),
        branch_post(
            *old(cpu),
            *final(cpu),
            old(bus).events(),
            final(bus).events(),
            old(cpu).flag_spec(Sr::Z),
        ),
{
    let taken = cpu.get_flag(Sr::Z);
    conditional_branch(cpu, bus, taken);
}

/// BMI: branch when the negative flag is set.
pub fn bmi<B: Bus>(cpu: &mut Cpu, bus: &mut B)
    requires
        old(bus).wf(),
    ensures
        final(bus).wf(),
        final(bus).time_spec() == old(bus).time_spec(),
        branch_post(
            *old(cpu),
            *final(cpu),
            old(bus).events(),
            final(bus).events(),
            old(cpu).flag_spec(Sr::N),
        ),
{
    let taken = cpu.get_flag(Sr::N);
    conditional_branch(cpu, bus, taken);
}

/// BNE: branch when the zero flag is clear.
pub fn bne<B: Bus>(cpu: &mut Cpu, bus: &mut B)
    requires
        old(bus).wf(),
    ensures
        final(bus).wf(),
        final(bus).time_spec() == old(bus).time_spec(),
        branch_post(
            *old(cpu),
            *final(cpu),
            old(bus).events(),
            final(bus).events(),
            !old(cpu).flag_spec(Sr::Z),
        ),
{
    let taken = !cpu.get_flag(Sr::Z);
    conditional_branch(cpu, bus, taken);
}

/// BPL: branch when the negative flag is clear.
pub fn bpl<B: Bus>(cpu: &mut Cpu, bus: &mut B)
    requires
        old(bus).wf(),
    ensures
        final(bus).wf(),
        final(bus).time_spec() == old(bus).time_spec(),
        branch_post(
            *old(cpu),
            *final(cpu),
            old(bus).events(),
            final(bus).events(),
            !old(cpu).flag_spec(Sr::N),
        ),
{
    let taken = !cpu.get_flag(Sr::N);
    conditional_branch(cpu, bus, taken);
}

/// BVC: branch when the overflow flag is clear.
pub fn bvc<B: Bus>(cpu: &mut Cpu, bus: &mut B)
    requires
        old(bus).wf(),
    ensures
        final(bus).wf(),
        final(bus).time_spec() == old(bus).time_spec(),
        branch_post(
            *old(cpu),
            *final(cpu),
            old(bus).events(),
            final(bus).events(),
            !old(cpu).flag_spec(Sr::V),
        ),
{
    let taken = !cpu.get_flag(Sr::V);
    conditional_branch(cpu, bus, taken);
}

/// BVS: branch when the overflow flag is set.
pub fn bvs<B: Bus>(cpu: &mut Cpu, bus: &mut B)
    requires
        old(bus).wf(),
    ensures
        final(bus).wf(),
        final(bus).time_spec() == old(bus).time_spec(),
        branch_post(
            *old(cpu),
            *final(cpu),
            old(bus).events(),
            final(bus).events(),
            old(cpu).flag_spec(Sr::V),
        ),
{
    let taken = cpu.get_flag(Sr::V);
    conditional_branch(cpu, bus, taken);
}

/// How far an addressing mode moves the program counter while resolving
/// its operand.
pub open spec fn mode_pc_delta(mode: AddrMode) -> u16 {
    match mode {
        AddrMode::Immediate => 1,
        AddrMode::ZeroPage => 1,
        AddrMode::IndexedZX => 1,
        AddrMode::IndexedZY => 1,
        AddrMode::IndirectX => 1,
        AddrMode::IndirectY => 1,
        AddrMode::Absolute => 2,
        AddrMode::AbsoluteX { .. } => 2,
        AddrMode::AbsoluteY { .. } => 2,
        AddrMode::Indirect => 2,
        AddrMode::Relative => 0,
    }
}

/// The effect of a value operation on the registers, given the operand
/// byte `v` its addressing mode fetched; `pre` is the state after the
/// operand resolution.
pub open spec fn value_op_post(op: ValueOp, pre: Cpu, post: Cpu, v: u8) -> bool {
    match op {
        ValueOp::Adc => post == (Cpu {
            a: adc_res(pre.a, v, pre.flag_spec(Sr::C)),
            sr: nzcv_sr(
                pre.sr,
                adc_res(pre.a, v, pre.flag_spec(Sr::C)),
                adc_carry(pre.a, v, pre.flag_spec(Sr::C)),
                add_overflows(pre.a, v, adc_res(pre.a, v, pre.flag_spec(Sr::C))),
            ),
            ..pre
        }),
        ValueOp::Sbc => post == (Cpu {
            a: sbc_res(pre.a, v, pre.flag_spec(Sr::C)),
            sr: nzcv_sr(
                pre.sr,
                sbc_res(pre.a, v, pre.flag_spec(Sr::C)),
                sbc_carry(pre.a, v, pre.flag_spec(Sr::C)),
                sub_overflows(pre.a, v, sbc_res(pre.a, v, pre.flag_spec(Sr::C))),
            ),
            ..pre
        }),
        ValueOp::And => post == (Cpu { a: pre.a & v, sr: nz_sr(pre.sr, pre.a & v), ..pre }),
        ValueOp::Ora => post == (Cpu { a: pre.a | v, sr: nz_sr(pre.sr, pre.a | v), ..pre }),
        ValueOp::Eor => post == (Cpu { a: pre.a ^ v, sr: nz_sr(pre.sr, pre.a ^ v), ..pre }),
        ValueOp::Bit => post == (Cpu {
            sr: set_flag_spec((pre.sr & 0x3f) | (v & 0xc0), Sr::Z, pre.a & v == 0),
            ..pre
        }),
        ValueOp::Lda => post == (Cpu { a: v, sr: nz_sr(pre.sr, v), ..pre }),
        ValueOp::Ldx => post == (Cpu { x: v, sr: nz_sr(pre.sr, v), ..pre }),
        ValueOp::Ldy => post == (Cpu { y: v, sr: nz_sr(pre.sr, v), ..pre }),
        ValueOp::Cmp => post == (Cpu {
            sr: nzc_sr(pre.sr, wrap_sub8(pre.a, v), pre.a >= v),
            ..pre
        }),
        ValueOp::Cpx => post == (Cpu {
            sr: nzc_sr(pre.sr, wrap_sub8(pre.x, v), pre.x >= v),
            ..pre
        }),
        ValueOp::Cpy => post == (Cpu {
            sr: nzc_sr(pre.sr, wrap_sub8(pre.y, v), pre.y >= v),
            ..pre
        }),
        ValueOp::Nop => post == pre,
    }
}

/// How many cycles an address-consuming operation adds after its operand
/// resolution: three for the read-modify-write group, one for a store,
/// none for JMP.
pub open spec fn addr_op_cycles(op: AddrOp) -> int {
    match op {
        AddrOp::Sta => 1,
        AddrOp::Stx => 1,
        AddrOp::Sty => 1,
        AddrOp::Jmp => 0,
        _ => 3,
    }
}

/// The byte a read-modify-write operation stores back, given the byte `v`
/// it read; `pre` supplies the carry for the rotates.
pub open spec fn rmw_result(op: AddrOp, pre: Cpu, v: u8) -> u8 {
    match op {
        AddrOp::Asl => asl_res(v),
        AddrOp::Lsr => lsr_res(v),
        AddrOp::Rol => rol_res(v, pre.flag_spec(Sr::C)),
        AddrOp::Ror => ror_res(v, pre.flag_spec(Sr::C)),
        AddrOp::Inc => wrap_add8(v, 1),
        AddrOp::Dec => wrap_sub8(v, 1),
        AddrOp::Dcp => wrap_sub8(v, 1),
        AddrOp::Isc => wrap_add8(v, 1),
        AddrOp::Slo => asl_res(v),
        _ => 0,
    }
}

/// The register effect of a read-modify-write operation, given the byte
/// `v` it read at its effective address.
pub open spec fn rmw_post(op: AddrOp, pre: Cpu, post: Cpu, v: u8) -> bool {
    match op {
        AddrOp::Asl => post == (Cpu { sr: nzc_sr(pre.sr, asl_res(v), v >> 7 == 1), ..pre }),
        AddrOp::Lsr => post == (Cpu { sr: lsr_sr(pre.sr, lsr_res(v), v & 1 == 1), ..pre }),
        AddrOp::Rol => post == (Cpu {
            sr: nzc_sr(pre.sr, rol_res(v, pre.flag_spec(Sr::C)), v >> 7 == 1),
            ..pre
        }),
        AddrOp::Ror => post == (Cpu {
            sr: nzc_sr(pre.sr, ror_res(v, pre.flag_spec(Sr::C)), v & 1 == 1),
            ..pre
        }),
        AddrOp::Inc => post == (Cpu { sr: nz_sr(pre.sr, wrap_add8(v, 1)), ..pre }),
        AddrOp::Dec => post == (Cpu { sr: nz_sr(pre.sr, wrap_sub8(v, 1)), ..pre }),
        AddrOp::Dcp => post == (Cpu {
            sr: nzc_sr(
                pre.sr,
                wrap_sub8(pre.a, wrap_sub8(v, 1)),
                pre.a >= wrap_sub8(v, 1),
            ),
            ..pre
        }),
        AddrOp::Isc => ({
            let m = wrap_add8(v, 1);
            let res = sbc_res(pre.a, m, pre.flag_spec(Sr::C));
            post == (Cpu {
                a: res,
                sr: nzcv_sr(
                    pre.sr,
                    res,
                    sbc_carry(pre.a, m, pre.flag_spec(Sr::C)),
                    sub_overflows(pre.a, m, res),
                ),
                ..pre
            })
        }),
        AddrOp::Slo => post == (Cpu {
            a: pre.a | asl_res(v),
            sr: nzc_sr(pre.sr, pre.a | asl_res(v), v >> 7 == 1),
            ..pre
        }),
        _ => false,
    }
}

/// The effect of an address-consuming operation at effective address
/// `addr`; `pre` is the state after the operand resolution and `ev_mid`
/// the trace at that point.
pub open spec fn addr_op_post(
    op: AddrOp,
    pre: Cpu,
    post: Cpu,
    ev_mid: Seq<EventSource>,
    ev1: Seq<EventSource>,
    addr: u16,
) -> bool {
    match op {
        AddrOp::Sta => {
            &&& ev1 == ev_mid.push(EventSource::BusWrite { addr, val: pre.a })
            &&& post == pre
        },
        AddrOp::Stx => {
            &&& ev1 == ev_mid.push(EventSource::BusWrite { addr, val: pre.x })
            &&& post == pre
        },
        AddrOp::Sty => {
            &&& ev1 == ev_mid.push(EventSource::BusWrite { addr, val: pre.y })
            &&& post == pre
        },
        AddrOp::Jmp => {
            &&& ev1 == ev_mid
            &&& post == (Cpu { pc: addr, ..pre })
        },
        _ => ({
            let v = ev_val(ev1[ev_mid.len() as int]);
            &&& ev1 == ev_mid + rmw_trace(addr, v, rmw_result(op, pre, v))
            &&& rmw_post(op, pre, post, v)
        }),
    }
}

/// The effective address an address-consuming instruction worked on, read
/// back off the final trace (or, for JMP, off the program counter).
pub open spec fn addr_op_addr(op: AddrOp, post: Cpu, ev1: Seq<EventSource>) -> u16 {
    match op {
        AddrOp::Sta => ev_addr(ev1.last()),
        AddrOp::Stx => ev_addr(ev1.last()),
        AddrOp::Sty => ev_addr(ev1.last()),
        AddrOp::Jmp => post.pc,
        _ => ev_addr(ev1[ev1.len() - 3]),
    }
}

/// Which flag state takes a branch.
pub open spec fn branch_op_taken(op: BranchOp, pre: Cpu) -> bool {
    match op {
        BranchOp::Bcc => !pre.flag_spec(Sr::C),
        BranchOp::Bcs => pre.flag_spec(Sr::C),
        BranchOp::Beq => pre.flag_spec(Sr::Z),
        BranchOp::Bmi => pre.flag_spec(Sr::N),
        BranchOp::Bne => !pre.flag_spec(Sr::Z),
        BranchOp::Bpl => !pre.flag_spec(Sr::N),
        BranchOp::Bvc => !pre.flag_spec(Sr::V),
        BranchOp::Bvs => pre.flag_spec(Sr::V),
    }
}

/// The effect of an operation with no operand fetch of its own, from the
/// state just after the opcode fetch.
pub open spec fn implied_op_post(
    op: ImpliedOp,
    pre: Cpu,
    post: Cpu,
    ev0: Seq<EventSource>,
    ev1: Seq<EventSource>,
) -> bool {
    let n = ev0.len() as int;
    match op {
        ImpliedOp::Nop => prefetch_only(ev0, ev1, pre.pc) && post == pre,
        ImpliedOp::AslAcc => prefetch_only(ev0, ev1, pre.pc) && post == (Cpu {
            a: asl_res(pre.a),
            sr: nzc_sr(pre.sr, asl_res(pre.a), pre.a >> 7 == 1),
            ..pre
        }),
        ImpliedOp::LsrAcc => prefetch_only(ev0, ev1, pre.pc) && post == (Cpu {
            a: lsr_res(pre.a),
            sr: lsr_sr(pre.sr, lsr_res(pre.a), pre.a & 1 == 1),
            ..pre
        }),
        ImpliedOp::RolAcc => prefetch_only(ev0, ev1, pre.pc) && post == (Cpu {
            a: rol_res(pre.a, pre.flag_spec(Sr::C)),
            sr: nzc_sr(pre.sr, rol_res(pre.a, pre.flag_spec(Sr::C)), pre.a >> 7 == 1),
            ..pre
        }),
        ImpliedOp::RorAcc => prefetch_only(ev0, ev1, pre.pc) && post == (Cpu {
            a: ror_res(pre.a, pre.flag_spec(Sr::C)),
            sr: nzc_sr(pre.sr, ror_res(pre.a, pre.flag_spec(Sr::C)), pre.a & 1 == 1),
            ..pre
        }),
        ImpliedOp::Tax => prefetch_only(ev0, ev1, pre.pc) && post == (Cpu {
            x: pre.a,
            sr: nz_sr(pre.sr, pre.a),
            ..pre
        }),
        ImpliedOp::Tay => prefetch_only(ev0, ev1, pre.pc) && post == (Cpu {
            y: pre.a,
            sr: nz_sr(pre.sr, pre.a),
            ..pre
        }),
        ImpliedOp::Tsx => prefetch_only(ev0, ev1, pre.pc) && post == (Cpu {
            x: pre.sp,
            sr: nz_sr(pre.sr, pre.sp),
            ..pre
        }),
        ImpliedOp::Txa => prefetch_only(ev0, ev1, pre.pc) && post == (Cpu {
            a: pre.x,
            sr: nz_sr(pre.sr, pre.x),
            ..pre
        }),
        ImpliedOp::Txs => prefetch_only(ev0, ev1, pre.pc) && post == (Cpu { sp: pre.x, ..pre }),
        ImpliedOp::Tya => prefetch_only(ev0, ev1, pre.pc) && post == (Cpu {
            a: pre.y,
            sr: nz_sr(pre.sr, pre.y),
            ..pre
        }),
        ImpliedOp::Inx => prefetch_only(ev0, ev1, pre.pc) && post == (Cpu {
            x: wrap_add8(pre.x, 1),
            sr: nz_sr(pre.sr, wrap_add8(pre.x, 1)),
            ..pre
        }),
        ImpliedOp::Iny => prefetch_only(ev0, ev1, pre.pc) && post == (Cpu {
            y: wrap_add8(pre.y, 1),
            sr: nz_sr(pre.sr, wrap_add8(pre.y, 1)),
            ..pre
        }),
        ImpliedOp::Dex => prefetch_only(ev0, ev1, pre.pc) && post == (Cpu {
            x: wrap_sub8(pre.x, 1),
            sr: nz_sr(pre.sr, wrap_sub8(pre.x, 1)),
            ..pre
        }),
        ImpliedOp::Dey => prefetch_only(ev0, ev1, pre.pc) && post == (Cpu {
            y: wrap_sub8(pre.y, 1),
            sr: nz_sr(pre.sr, wrap_sub8(pre.y, 1)),
            ..pre
        }),
        ImpliedOp::Clc => ev1 == ev0 && post == (Cpu {
            sr: set_flag_spec(pre.sr, Sr::C, false),
            ..pre
        }),
        ImpliedOp::Cli => ev1 == ev0 && post == (Cpu {
            sr: set_flag_spec(pre.sr, Sr::I, false),
            ..pre
        }),
        ImpliedOp::Clv => ev1 == ev0 && post == (Cpu {
            sr: set_flag_spec(pre.sr, Sr::V, false),
            ..pre
        }),
        ImpliedOp::Cld => ev1 == ev0 && post == (Cpu {
            sr: set_flag_spec(pre.sr, Sr::D, false),
            ..pre
        }),
        ImpliedOp::Sec => ev1 == ev0 && post == (Cpu {
            sr: set_flag_spec(pre.sr, Sr::C, true),
            ..pre
        }),
        ImpliedOp::Sei => ev1 == ev0 && post == (Cpu {
            sr: set_flag_spec(pre.sr, Sr::I, true),
            ..pre
        }),
        ImpliedOp::Sed => ev1 == ev0 && post == (Cpu {
            sr: set_flag_spec(pre.sr, Sr::D, true),
            ..pre
        }),
        ImpliedOp::Pha => {
            &&& ev1 == ev0.push(
                EventSource::BusRead { addr: pre.pc, val: ev_val(ev1[n]) },
            ).push(EventSource::BusWrite { addr: stack_addr(pre.sp), val: pre.a })
            &&& post == (Cpu { sp: wrap_sub8(pre.sp, 1), ..pre })
        },
        ImpliedOp::Php => {
            &&& ev1 == ev0.push(
                EventSource::BusRead { addr: pre.pc, val: ev_val(ev1[n]) },
            ).push(EventSource::BusWrite { addr: stack_addr(pre.sp), val: pre.sr | 0x30 })
            &&& post == (Cpu { sp: wrap_sub8(pre.sp, 1), ..pre })
        },
        ImpliedOp::Pla => ({
            let v = ev_val(ev1[n + 1]);
            &&& ev1 == ev0.push(
                EventSource::BusRead { addr: pre.pc, val: ev_val(ev1[n]) },
            ).push(EventSource::BusRead { addr: stack_addr(wrap_add8(pre.sp, 1)), val: v })
            &&& post == (Cpu {
                a: v,
                sp: wrap_add8(pre.sp, 1),
                sr: nz_sr(pre.sr, v),
                ..pre
            })
        }),
        ImpliedOp::Plp => ({
            let v = ev_val(ev1[n + 1]);
            &&& ev1 == ev0.push(
                EventSource::BusRead { addr: pre.pc, val: ev_val(ev1[n]) },
            ).push(EventSource::BusRead { addr: stack_addr(wrap_add8(pre.sp, 1)), val: v })
            &&& post == (Cpu { sr: v & 0xcf, sp: wrap_add8(pre.sp, 1), ..pre })
        }),
        ImpliedOp::Jsr => ({
            let pc1 = wrap_inc16(pre.pc);
            let lo = ev_val(ev1[n]);
            let hi = ev_val(ev1[n + 4]);
            &&& ev1 == ev0.push(EventSource::BusRead { addr: pre.pc, val: lo }).push(
                EventSource::BusRead { addr: stack_addr(pre.sp), val: ev_val(ev1[n + 1]) },
            ).push(
                EventSource::BusWrite { addr: stack_addr(pre.sp), val: (pc1 / 256) as u8 },
            ).push(
                EventSource::BusWrite {
                    addr: stack_addr(wrap_sub8(pre.sp, 1)),
                    val: (pc1 % 256) as u8,
                },
            ).push(EventSource::BusRead { addr: pc1, val: hi })
            &&& post == (Cpu { pc: le16(lo, hi), sp: wrap_sub8(pre.sp, 2), ..pre })
        }),
        ImpliedOp::Rts => ({
            let lo = ev_val(ev1[n + 2]);
            let hi = ev_val(ev1[n + 3]);
            &&& ev1 == ev0.push(
                EventSource::BusRead { addr: pre.pc, val: ev_val(ev1[n]) },
            ).push(
                EventSource::BusRead { addr: stack_addr(pre.sp), val: ev_val(ev1[n + 1]) },
            ).push(
                EventSource::BusRead { addr: stack_addr(wrap_add8(pre.sp, 1)), val: lo },
            ).push(
                EventSource::BusRead { addr: stack_addr(wrap_add8(pre.sp, 2)), val: hi },
            ).push(EventSource::BusRead { addr: le16(lo, hi), val: ev_val(ev1[n + 4]) })
            &&& post == (Cpu {
                pc: wrap_inc16(le16(lo, hi)),
                sp: wrap_add8(pre.sp, 2),
                ..pre
            })
        }),
        ImpliedOp::Rti => ({
            let p = ev_val(ev1[n + 2]);
            let lo = ev_val(ev1[n + 3]);
            let hi = ev_val(ev1[n + 4]);
            &&& ev1 == ev0.push(
                EventSource::BusRead { addr: pre.pc, val: ev_val(ev1[n]) },
            ).push(
                EventSource::BusRead { addr: stack_addr(pre.sp), val: ev_val(ev1[n + 1]) },
            ).push(
                EventSource::BusRead { addr: stack_addr(wrap_add8(pre.sp, 1)), val: p },
            ).push(
                EventSource::BusRead { addr: stack_addr(wrap_add8(pre.sp, 2)), val: lo },
            ).push(
                EventSource::BusRead { addr: stack_addr(wrap_add8(pre.sp, 3)), val: hi },
            )
            &&& post == (Cpu {
                pc: le16(lo, hi),
                sr: (p & 0xcf) | 0x20,
                sp: wrap_add8(pre.sp, 3),
                ..pre
            })
        }),
        ImpliedOp::Jam => ev1 == ev0 && post == (Cpu { jammed: true, ..pre }),
        ImpliedOp::Alr => ({
            let m = pre.a & ev_val(ev1[n]);
            &&& ev1 == ev0.push(
                EventSource::BusRead { addr: pre.pc, val: ev_val(ev1[n]) },
            ).push(
                EventSource::BusRead { addr: wrap_inc16(pre.pc), val: ev_val(ev1[n + 1]) },
            )
            &&& post == (Cpu {
                a: lsr_res(m),
                pc: wrap_inc16(pre.pc),
                sr: lsr_sr(pre.sr, lsr_res(m), m & 1 == 1),
                ..pre
            })
        }),
        ImpliedOp::Anc => ({
            let m = pre.a & ev_val(ev1[n]);
            &&& ev1 == ev0.push(EventSource::BusRead { addr: pre.pc, val: ev_val(ev1[n]) })
            &&& post == (Cpu {
                a: m,
                pc: wrap_inc16(pre.pc),
                sr: nzc_sr(pre.sr, m, m >> 7 == 1),
                ..pre
            })
        }),
        ImpliedOp::Arr => ({
            let m = pre.a & ev_val(ev1[n]);
            let res = ror_res(m, pre.flag_spec(Sr::C));
            &&& ev1 == ev0.push(EventSource::BusRead { addr: pre.pc, val: ev_val(ev1[n]) })
            &&& post == (Cpu {
                a: res,
                pc: wrap_inc16(pre.pc),
                sr: nzc_sr(pre.sr, res, m & 1 == 1),
                ..pre
            })
        }),
    }
}

/// The complete semantics of dispatching one decoded instruction: `pre` is
/// the CPU just after the opcode fetch, `ev0` the trace at that point, and
/// `ev1` the trace when the instruction has retired.
pub open spec fn instr_post(
    instr: Instr,
    pre: Cpu,
    post: Cpu,
    ev0: Seq<EventSource>,
    ev1: Seq<EventSource>,
) -> bool {
    match instr {
        Instr::Value { op, mode } => ({
            let mid = Cpu { pc: wrap_add16(pre.pc, mode_pc_delta(mode)), ..pre };
            let v = ev_val(ev1.last());
            &&& crate::cpu::read_arg_post(pre, mid, ev0, ev1, mode, v)
            &&& value_op_post(op, mid, post, v)
        }),
        Instr::Addressed { op, mode } => ({
            let mid = Cpu { pc: wrap_add16(pre.pc, mode_pc_delta(mode)), ..pre };
            let ev_mid = ev1.take(ev1.len() - addr_op_cycles(op));
            let addr = addr_op_addr(op, post, ev1);
            &&& crate::cpu::read_addr_post(pre, mid, ev0, ev_mid, mode, addr)
            &&& addr_op_post(op, mid, post, ev_mid, ev1, addr)
        }),
        Instr::Implied { op } => implied_op_post(op, pre, post, ev0, ev1),
        Instr::Branch { op } => branch_post(pre, post, ev0, ev1, branch_op_taken(op, pre)),
        Instr::Fault => ev1 == ev0 && post == (Cpu { faulted: true, ..pre }),
    }
}

/// PHA: a prefetch cycle, then the accumulator pushed onto the stack.
pub fn pha<B: Bus>(cpu: &mut Cpu, bus: &mut B)
    requires
        old(bus).wf(),
    ensures
        final(bus).wf(),
        final(bus).time_spec() == old(bus).time_spec(),
        ({
            let ev = final(bus).events();
            let n = old(bus).events().len() as int;
            &&& ev == old(bus).events().push(
                EventSource::BusRead { addr: old(cpu).pc, val: ev_val(ev[n]) },
            ).push(EventSource::BusWrite { addr: stack_addr(old(cpu).sp), val: old(cpu).a })
            &&& *final(cpu) == (Cpu { sp: wrap_sub8(old(cpu).sp, 1), ..*old(cpu) })
        }),
{
    cpu.prefetch(bus);
    let a = cpu.a;
    cpu.stack_push(bus, a);
}

/// PHP: a prefetch cycle, then the status byte pushed with bits 4 and 5
/// both set, as the hardware always presents them to the stack.
pub fn php<B: Bus>(cpu: &mut Cpu, bus: &mut B)
    requires
        old(bus).wf(),
    ensures
        final(bus).wf(),
        final(bus).time_spec() == old(bus).time_spec(),
        ({
            let ev = final(bus).events();
            let n = old(bus).events().len() as int;
            &&& ev == old(bus).events().push(
                EventSource::BusRead { addr: old(cpu).pc, val: ev_val(ev[n]) },
            ).push(
                EventSource::BusWrite {
                    addr: stack_addr(old(cpu).sp),
                    val: old(cpu).sr | 0x30,
                },
            )
            &&& *final(cpu) == (Cpu { sp: wrap_sub8(old(cpu).sp, 1), ..*old(cpu) })
        }),
{
    cpu.prefetch(bus);
    let v = cpu.sr | 0x30;
    cpu.stack_push(bus, v);
}

/// PLA: a prefetch cycle, then the accumulator popped from the stack; N/Z
/// follow the popped byte.
pub fn pla<B: Bus>(cpu: &mut Cpu, bus: &mut B)
    requires
        old(bus).wf(),
    ensures
        final(bus).wf(),
        final(bus).time_spec() == old(bus).time_spec(),
        ({
            let ev = final(bus).events();
            let n = old(bus).events().len() as int;
            let v = ev_val(ev[n + 1]);
            &&& ev == old(bus).events().push(
                EventSource::BusRead { addr: old(cpu).pc, val: ev_val(ev[n]) },
            ).push(
                EventSource::BusRead { addr: stack_addr(wrap_add8(old(cpu).sp, 1)), val: v },
            )
            &&& *final(cpu) == (Cpu {
                a: v,
                sp: wrap_add8(old(cpu).sp, 1),
                sr: nz_sr(old(cpu).sr, v),
                ..*old(cpu)
            })
        }),
{
    cpu.prefetch(bus);
    cpu.a = cpu.stack_pop(bus);
    cpu.update_flags(SrUpdate::num_flags(cpu.a).result());
}

/// PLP: a prefetch cycle, then the status byte popped from the stack with
/// bits 4 and 5 masked to zero (they are not stored in the real processor).
pub fn plp<B: Bus>(cpu: &mut Cpu, bus: &mut B)
    requires
        old(bus).wf(),
    ensures
        final(bus).wf(),
        final(bus).time_spec() == old(bus).time_spec(),
        ({
            let ev = final(bus).events();
            let n = old(bus).events().len() as int;
            let v = ev_val(ev[n + 1]);
            &&& ev == old(bus).events().push(
                EventSource::BusRead { addr: old(cpu).pc, val: ev_val(ev[n]) },
            ).push(
                EventSource::BusRead { addr: stack_addr(wrap_add8(old(cpu).sp, 1)), val: v },
            )
            &&& *final(cpu) == (Cpu {
                sr: v & 0xcf,
                sp: wrap_add8(old(cpu).sp, 1),
                ..*old(cpu)
            })
        }),
{
    cpu.prefetch(bus);
    cpu.sr = cpu.stack_pop(bus) & 0xcf;
}

/// JSR: fetches the target's low byte, spends a stack-peek cycle, pushes
/// the return address (which still points at the target's high byte), then
/// fetches the high byte and jumps.
pub fn jsr<B: Bus>(cpu: &mut Cpu, bus: &mut B)
    requires
        old(bus).wf(),
    ensures
        final(bus).wf(),
        final(bus).time_spec() == old(bus).time_spec(),
        ({
            let ev = final(bus).events();
            let n = old(bus).events().len() as int;
            let pc1 = wrap_inc16(old(cpu).pc);
            let lo = ev_val(ev[n]);
            let hi = ev_val(ev[n + 4]);
            &&& ev == old(bus).events().push(
                EventSource::BusRead { addr: old(cpu).pc, val: lo },
            ).push(
                EventSource::BusRead { addr: stack_addr(old(cpu).sp), val: ev_val(ev[n + 1]) },
            ).push(
                EventSource::BusWrite {
                    addr: stack_addr(old(cpu).sp),
                    val: (pc1 / 256) as u8,
                },
            ).push(
                EventSource::BusWrite {
                    addr: stack_addr(wrap_sub8(old(cpu).sp, 1)),
                    val: (pc1 % 256) as u8,
                },
            ).push(EventSource::BusRead { addr: pc1, val: hi })
            &&& *final(cpu) == (Cpu {
                pc: le16(lo, hi),
                sp: wrap_sub8(old(cpu).sp, 2),
                ..*old(cpu)
            })
        }),
{
    let low = cpu.read_from_pc(bus);
    cpu.stack_peek(bus);
    let hi_byte: u8 = (cpu.pc / 256) as u8;
    let lo_byte: u8 = (cpu.pc % 256) as u8;
    cpu.stack_push(bus, hi_byte);
    cpu.stack_push(bus, lo_byte);
    let high = cpu.read_from_pc(bus);
    cpu.pc = (high as u16) * 256 + (low as u16);
}

/// RTS: a prefetch and a stack-peek cycle, the return address popped low
/// byte first, a prefetch at the popped address, then the program counter
/// incremented past it.
pub fn rts<B: Bus>(cpu: &mut Cpu, bus: &mut B)
    requires
        old(bus).wf(),
    ensures
        final(bus).wf(),
        final(bus).time_spec() == old(bus).time_spec(),
        ({
            let ev = final(bus).events();
            let n = old(bus).events().len() as int;
            let lo = ev_val(ev[n + 2]);
            let hi = ev_val(ev[n + 3]);
            &&& ev == old(bus).events().push(
                EventSource::BusRead { addr: old(cpu).pc, val: ev_val(ev[n]) },
            ).push(
                EventSource::BusRead { addr: stack_addr(old(cpu).sp), val: ev_val(ev[n + 1]) },
            ).push(
                EventSource::BusRead { addr: stack_addr(wrap_add8(old(cpu).sp, 1)), val: lo },
            ).push(
                EventSource::BusRead { addr: stack_addr(wrap_add8(old(cpu).sp, 2)), val: hi },
            ).push(EventSource::BusRead { addr: le16(lo, hi), val: ev_val(ev[n + 4]) })
            &&& *final(cpu) == (Cpu {
                pc: wrap_inc16(le16(lo, hi)),
                sp: wrap_add8(old(cpu).sp, 2),
                ..*old(cpu)
            })
        }),
{
    cpu.prefetch(bus);
    cpu.stack_peek(bus);
    let low = cpu.stack_pop(bus);
    let high = cpu.stack_pop(bus);
    cpu.pc = (high as u16) * 256 + (low as u16);
    cpu.prefetch(bus);
    cpu.pc = cpu.pc.wrapping_add(1);
    proof {
        assert(wrap_add8(wrap_add8(old(cpu).sp, 1), 1) == wrap_add8(old(cpu).sp, 2));
    }
}

/// RTI: a prefetch and a stack-peek cycle, then the status byte popped with
/// bit 5 forced set and bit 4 forced clear, then the return address popped
/// low byte first.
pub fn rti<B: Bus>(cpu: &mut Cpu, bus: &mut B)
    requires
        old(bus).wf(),
    ensures
        final(bus).wf(),
        final(bus).time_spec() == old(bus).time_spec(),
        ({
            let ev = final(bus).events();
            let n = old(bus).events().len() as int;
            let p = ev_val(ev[n + 2]);
            let lo = ev_val(ev[n + 3]);
            let hi = ev_val(ev[n + 4]);
            &&& ev == old(bus).events().push(
                EventSource::BusRead { addr: old(cpu).pc, val: ev_val(ev[n]) },
            ).push(
                EventSource::BusRead { addr: stack_addr(old(cpu).sp), val: ev_val(ev[n + 1]) },
            ).push(
                EventSource::BusRead { addr: stack_addr(wrap_add8(old(cpu).sp, 1)), val: p },
            ).push(
                EventSource::BusRead { addr: stack_addr(wrap_add8(old(cpu).sp, 2)), val: lo },
            ).push(
                EventSource::BusRead { addr: stack_addr(wrap_add8(old(cpu).sp, 3)), val: hi },
            )
            &&& *final(cpu) == (Cpu {
                pc: le16(lo, hi),
                sr: (p & 0xcf) | 0x20,
                sp: wrap_add8(old(cpu).sp, 3),
                ..*old(cpu)
            })
        }),
{
    cpu.prefetch(bus);
    cpu.stack_peek(bus);
    cpu.sr = (cpu.stack_pop(bus) & 0xcf) | 0x20;
    let low = cpu.stack_pop(bus);
    let high = cpu.stack_pop(bus);
    cpu.pc = (high as u16) * 256 + (low as u16);
    proof {
        assert(wrap_add8(wrap_add8(old(cpu).sp, 1), 1) == wrap_add8(old(cpu).sp, 2));
        assert(wrap_add8(wrap_add8(old(cpu).sp, 2), 1) == wrap_add8(old(cpu).sp, 3));
    }
}

/// JAM (illegal): latches the jammed flag; dispatch halts until reset.
pub fn jam(cpu: &mut Cpu)
    ensures
        *final(cpu) == (Cpu { jammed: true, ..*old(cpu) }),
{
    cpu.jam();
}

/// ALR (illegal): immediate AND followed by LSR on the accumulator; the
/// operand fetch is followed by a prefetch cycle.
pub fn alr<B: Bus>(cpu: &mut Cpu, bus: &mut B)
    requires
        old(bus).wf(),
    ensures
        final(bus).wf(),
        final(bus).time_spec() == old(bus).time_spec(),
        ({
            let ev = final(bus).events();
            let n = old(bus).events().len() as int;
            let m = old(cpu).a & ev_val(ev[n]);
            &&& ev == old(bus).events().push(
                EventSource::BusRead { addr: old(cpu).pc, val: ev_val(ev[n]) },
            ).push(
                EventSource::BusRead { addr: wrap_inc16(old(cpu).pc), val: ev_val(ev[n + 1]) },
            )
            &&& *final(cpu) == (Cpu {
                a: lsr_res(m),
                pc: wrap_inc16(old(cpu).pc),
                sr: lsr_sr(old(cpu).sr, lsr_res(m), m & 1 == 1),
                ..*old(cpu)
            })
        }),
{
    let arg = cpu.read_from_pc(bus);
    cpu.a = cpu.a & arg;
    cpu.prefetch(bus);
    let cout = cpu.a & 1 == 1;
    cpu.a = cpu.a >> 1;
    cpu.update_flags(
        SrUpdate {
            n: Some(false),
            z: Some(cpu.a == 0),
            c: Some(cout),
            ..SrUpdate::default()
        }.result(),
    );
}

/// ANC (illegal): immediate AND, with the negative bit of the result copied
/// into the carry.
pub fn anc<B: Bus>(cpu: &mut Cpu, bus: &mut B)
    requires
        old(bus).wf(),
    ensures
        final(bus).wf(),
        final(bus).time_spec() == old(bus).time_spec(),
        ({
            let ev = final(bus).events();
            let n = old(bus).events().len() as int;
            let m = old(cpu).a & ev_val(ev[n]);
            &&& ev == old(bus).events().push(
                EventSource::BusRead { addr: old(cpu).pc, val: ev_val(ev[n]) },
            )
            &&& *final(cpu) == (Cpu {
                a: m,
                pc: wrap_inc16(old(cpu).pc),
                sr: nzc_sr(old(cpu).sr, m, m >> 7 == 1),
                ..*old(cpu)
            })
        }),
{
    let arg = cpu.read_from_pc(bus);
    cpu.a = cpu.a & arg;
    let cout = cpu.a >> 7 == 1;
    cpu.update_flags(SrUpdate { c: Some(cout), ..SrUpdate::num_flags(cpu.a) }.result());
}

/// ARR (illegal): immediate AND followed by ROR on the accumulator.
pub fn arr<B: Bus>(cpu: &mut Cpu, bus: &mut B)
    requires
        old(bus).wf(),
    ensures
        final(bus).wf(),
        final(bus).time_spec() == old(bus).time_spec(),
        ({
            let ev = final(bus).events();
            let n = old(bus).events().len() as int;
            let m = old(cpu).a & ev_val(ev[n]);
            let res = ror_res(m, old(cpu).flag_spec(Sr::C));
            &&& ev == old(bus).events().push(
                EventSource::BusRead { addr: old(cpu).pc, val: ev_val(ev[n]) },
            )
            &&& *final(cpu) == (Cpu {
                a: res,
                pc: wrap_inc16(old(cpu).pc),
                sr: nzc_sr(old(cpu).sr, res, m & 1 == 1),
                ..*old(cpu)
            })
        }),
{
    let arg = cpu.read_from_pc(bus);
    cpu.a = cpu.a & arg;
    let cin = cpu.get_flag(Sr::C);
    let cout = cpu.a & 1 == 1;
    cpu.a = (cpu.a >> 1) | (if cin {
        0x80u8
    } else {
        0u8
    });
    cpu.update_flags(SrUpdate { c: Some(cout), ..SrUpdate::num_flags(cpu.a) }.result());
}


/// Decodes one opcode byte to its dispatch-table entry.
pub fn decode(op: u8) -> (r: Instr)
    ensures
        r == instr_of(op),
{
    match op {
        0x69 => Instr::Value { op: ValueOp::Adc, mode: AddrMode::Immediate },
        0x65 => Instr::Value { op: ValueOp::Adc, mode: AddrMode::ZeroPage },
        0x75 => Instr::Value { op: ValueOp::Adc, mode: AddrMode::IndexedZX },
        0x6d => Instr::Value { op: ValueOp::Adc, mode: AddrMode::Absolute },
        0x7d => Instr::Value { op: ValueOp::Adc, mode: AddrMode::AbsoluteX { force_cycle: false } },
        0x79 => Instr::Value { op: ValueOp::Adc, mode: AddrMode::AbsoluteY { force_cycle: false } },
        0x61 => Instr::Value { op: ValueOp::Adc, mode: AddrMode::IndirectX },
        0x71 => Instr::Value { op: ValueOp::Adc, mode: AddrMode::IndirectY },
        0x29 => Instr::Value { op: ValueOp::And, mode: AddrMode::Immediate },
        0x25 => Instr::Value { op: ValueOp::And, mode: AddrMode::ZeroPage },
        0x35 => Instr::Value { op: ValueOp::And, mode: AddrMode::IndexedZX },
        0x2d => Instr::Value { op: ValueOp::And, mode: AddrMode::Absolute },
        0x3d => Instr::Value { op: ValueOp::And, mode: AddrMode::AbsoluteX { force_cycle: false } },
        0x39 => Instr::Value { op: ValueOp::And, mode: AddrMode::AbsoluteY { force_cycle: false } },
        0x21 => Instr::Value { op: ValueOp::And, mode: AddrMode::IndirectX },
        0x31 => Instr::Value { op: ValueOp::And, mode: AddrMode::IndirectY },
        0x0a => Instr::Implied { op: ImpliedOp::AslAcc },
        0x06 => Instr::Addressed { op: AddrOp::Asl, mode: AddrMode::ZeroPage },
        0x16 => Instr::Addressed { op: AddrOp::Asl, mode: AddrMode::IndexedZX },
        0x0e => Instr::Addressed { op: AddrOp::Asl, mode: AddrMode::Absolute },
        0x1e => Instr::Addressed {
            op: AddrOp::Asl,
            mode: AddrMode::AbsoluteX { force_cycle: true },
        },
        0x90 => Instr::Branch { op: BranchOp::Bcc },
        0xb0 => Instr::Branch { op: BranchOp::Bcs },
        0xf0 => Instr::Branch { op: BranchOp::Beq },
        0x30 => Instr::Branch { op: BranchOp::Bmi },
        0xd0 => Instr::Branch { op: BranchOp::Bne },
        0x10 => Instr::Branch { op: BranchOp::Bpl },
        0x50 => Instr::Branch { op: BranchOp::Bvc },
        0x70 => Instr::Branch { op: BranchOp::Bvs },
        0x24 => Instr::Value { op: ValueOp::Bit, mode: AddrMode::ZeroPage },
        0x2c => Instr::Value { op: ValueOp::Bit, mode: AddrMode::Absolute },
        0x18 => Instr::Implied { op: ImpliedOp::Clc },
        0xd8 => Instr::Implied { op: ImpliedOp::Cld },
        0x58 => Instr::Implied { op: ImpliedOp::Cli },
        0xb8 => Instr::Implied { op: ImpliedOp::Clv },
        0xc9 => Instr::Value { op: ValueOp::Cmp, mode: AddrMode::Immediate },
        0xc5 => Instr::Value { op: ValueOp::Cmp, mode: AddrMode::ZeroPage },
        0xd5 => Instr::Value { op: ValueOp::Cmp, mode: AddrMode::IndexedZX },
        0xcd => Instr::Value { op: ValueOp::Cmp, mode: AddrMode::Absolute },
        0xdd => Instr::Value { op: ValueOp::Cmp, mode: AddrMode::AbsoluteX { force_cycle: false } },
        0xd9 => Instr::Value { op: ValueOp::Cmp, mode: AddrMode::AbsoluteY { force_cycle: false } },
        0xc1 => Instr::Value { op: ValueOp::Cmp, mode: AddrMode::IndirectX },
        0xd1 => Instr::Value { op: ValueOp::Cmp, mode: AddrMode::IndirectY },
        0xe0 => Instr::Value { op: ValueOp::Cpx, mode: AddrMode::Immediate },
        0xe4 => Instr::Value { op: ValueOp::Cpx, mode: AddrMode::ZeroPage },
        0xec => Instr::Value { op: ValueOp::Cpx, mode: AddrMode::Absolute },
        0xc0 => Instr::Value { op: ValueOp::Cpy, mode: AddrMode::Immediate },
        0xc4 => Instr::Value { op: ValueOp::Cpy, mode: AddrMode::ZeroPage },
        0xcc => Instr::Value { op: ValueOp::Cpy, mode: AddrMode::Absolute },
        0xc6 => Instr::Addressed { op: AddrOp::Dec, mode: AddrMode::ZeroPage },
        0xd6 => Instr::Addressed { op: AddrOp::Dec, mode: AddrMode::IndexedZX },
        0xce => Instr::Addressed { op: AddrOp::Dec, mode: AddrMode::Absolute },
        0xde => Instr::Addressed {
            op: AddrOp::Dec,
            mode: AddrMode::AbsoluteX { force_cycle: true },
        },
        0xca => Instr::Implied { op: ImpliedOp::Dex },
        0x88 => Instr::Implied { op: ImpliedOp::Dey },
        0x49 => Instr::Value { op: ValueOp::Eor, mode: AddrMode::Immediate },
        0x45 => Instr::Value { op: ValueOp::Eor, mode: AddrMode::ZeroPage },
        0x55 => Instr::Value { op: ValueOp::Eor, mode: AddrMode::IndexedZX },
        0x4d => Instr::Value { op: ValueOp::Eor, mode: AddrMode::Absolute },
        0x5d => Instr::Value { op: ValueOp::Eor, mode: AddrMode::AbsoluteX { force_cycle: false } },
        0x59 => Instr::Value { op: ValueOp::Eor, mode: AddrMode::AbsoluteY { force_cycle: false } },
        0x41 => Instr::Value { op: ValueOp::Eor, mode: AddrMode::IndirectX },
        0x51 => Instr::Value { op: ValueOp::Eor, mode: AddrMode::IndirectY },
        0xe6 => Instr::Addressed { op: AddrOp::Inc, mode: AddrMode::ZeroPage },
        0xf6 => Instr::Addressed { op: AddrOp::Inc, mode: AddrMode::IndexedZX },
        0xee => Instr::Addressed { op: AddrOp::Inc, mode: AddrMode::Absolute },
        0xfe => Instr::Addressed {
            op: AddrOp::Inc,
            mode: AddrMode::AbsoluteX { force_cycle: true },
        },
        0xe8 => Instr::Implied { op: ImpliedOp::Inx },
        0xc8 => Instr::Implied { op: ImpliedOp::Iny },
        0x4c => Instr::Addressed { op: AddrOp::Jmp, mode: AddrMode::Absolute },
        0x6c => Instr::Addressed { op: AddrOp::Jmp, mode: AddrMode::Indirect },
        0x20 => Instr::Implied { op: ImpliedOp::Jsr },
        0xa9 => Instr::Value { op: ValueOp::Lda, mode: AddrMode::Immediate },
        0xa5 => Instr::Value { op: ValueOp::Lda, mode: AddrMode::ZeroPage },
        0xb5 => Instr::Value { op: ValueOp::Lda, mode: AddrMode::IndexedZX },
        0xad => Instr::Value { op: ValueOp::Lda, mode: AddrMode::Absolute },
        0xbd => Instr::Value { op: ValueOp::Lda, mode: AddrMode::AbsoluteX { force_cycle: false } },
        0xb9 => Instr::Value { op: ValueOp::Lda, mode: AddrMode::AbsoluteY { force_cycle: false } },
        0xa1 => Instr::Value { op: ValueOp::Lda, mode: AddrMode::IndirectX },
        0xb1 => Instr::Value { op: ValueOp::Lda, mode: AddrMode::IndirectY },
        0xa2 => Instr::Value { op: ValueOp::Ldx, mode: AddrMode::Immediate },
        0xa6 => Instr::Value { op: ValueOp::Ldx, mode: AddrMode::ZeroPage },
        0xb6 => Instr::Value { op: ValueOp::Ldx, mode: AddrMode::IndexedZY },
        0xae => Instr::Value { op: ValueOp::Ldx, mode: AddrMode::Absolute },
        0xbe => Instr::Value { op: ValueOp::Ldx, mode: AddrMode::AbsoluteY { force_cycle: false } },
        0xa0 => Instr::Value { op: ValueOp::Ldy, mode: AddrMode::Immediate },
        0xa4 => Instr::Value { op: ValueOp::Ldy, mode: AddrMode::ZeroPage },
        0xb4 => Instr::Value { op: ValueOp::Ldy, mode: AddrMode::IndexedZX },
        0xac => Instr::Value { op: ValueOp::Ldy, mode: AddrMode::Absolute },
        0xbc => Instr::Value { op: ValueOp::Ldy, mode: AddrMode::AbsoluteX { force_cycle: false } },
        0x4a => Instr::Implied { op: ImpliedOp::LsrAcc },
        0x46 => Instr::Addressed { op: AddrOp::Lsr, mode: AddrMode::ZeroPage },
        0x56 => Instr::Addressed { op: AddrOp::Lsr, mode: AddrMode::IndexedZX },
        0x4e => Instr::Addressed { op: AddrOp::Lsr, mode: AddrMode::Absolute },
        0x5e => Instr::Addressed {
            op: AddrOp::Lsr,
            mode: AddrMode::AbsoluteX { force_cycle: true },
        },
        0xea => Instr::Implied { op: ImpliedOp::Nop },
        0x09 => Instr::Value { op: ValueOp::Ora, mode: AddrMode::Immediate },
        0x05 => Instr::Value { op: ValueOp::Ora, mode: AddrMode::ZeroPage },
        0x15 => Instr::Value { op: ValueOp::Ora, mode: AddrMode::IndexedZX },
        0x0d => Instr::Value { op: ValueOp::Ora, mode: AddrMode::Absolute },
        0x1d => Instr::Value { op: ValueOp::Ora, mode: AddrMode::AbsoluteX { force_cycle: false } },
        0x19 => Instr::Value { op: ValueOp::Ora, mode: AddrMode::AbsoluteY { force_cycle: false } },
        0x01 => Instr::Value { op: ValueOp::Ora, mode: AddrMode::IndirectX },
        0x11 => Instr::Value { op: ValueOp::Ora, mode: AddrMode::IndirectY },
        0x48 => Instr::Implied { op: ImpliedOp::Pha },
        0x08 => Instr::Implied { op: ImpliedOp::Php },
        0x68 => Instr::Implied { op: ImpliedOp::Pla },
        0x28 => Instr::Implied { op: ImpliedOp::Plp },
        0x2a => Instr::Implied { op: ImpliedOp::RolAcc },
        0x26 => Instr::Addressed { op: AddrOp::Rol, mode: AddrMode::ZeroPage },
        0x36 => Instr::Addressed { op: AddrOp::Rol, mode: AddrMode::IndexedZX },
        0x2e => Instr::Addressed { op: AddrOp::Rol, mode: AddrMode::Absolute },
        0x3e => Instr::Addressed {
            op: AddrOp::Rol,
            mode: AddrMode::AbsoluteX { force_cycle: true },
        },
        0x6a => Instr::Implied { op: ImpliedOp::RorAcc },
        0x66 => Instr::Addressed { op: AddrOp::Ror, mode: AddrMode::ZeroPage },
        0x76 => Instr::Addressed { op: AddrOp::Ror, mode: AddrMode::IndexedZX },
        0x6e => Instr::Addressed { op: AddrOp::Ror, mode: AddrMode::Absolute },
        0x7e => Instr::Addressed {
            op: AddrOp::Ror,
            mode: AddrMode::AbsoluteX { force_cycle: true },
        },
        0x40 => Instr::Implied { op: ImpliedOp::Rti },
        0x60 => Instr::Implied { op: ImpliedOp::Rts },
        0xe9 => Instr::Value { op: ValueOp::Sbc, mode: AddrMode::Immediate },
        0xe5 => Instr::Value { op: ValueOp::Sbc, mode: AddrMode::ZeroPage },
        0xf5 => Instr::Value { op: ValueOp::Sbc, mode: AddrMode::IndexedZX },
        0xed => Instr::Value { op: ValueOp::Sbc, mode: AddrMode::Absolute },
        0xfd => Instr::Value { op: ValueOp::Sbc, mode: AddrMode::AbsoluteX { force_cycle: false } },
        0xf9 => Instr::Value { op: ValueOp::Sbc, mode: AddrMode::AbsoluteY { force_cycle: false } },
        0xe1 => Instr::Value { op: ValueOp::Sbc, mode: AddrMode::IndirectX },
        0xf1 => Instr::Value { op: ValueOp::Sbc, mode: AddrMode::IndirectY },
        0x38 => Instr::Implied { op: ImpliedOp::Sec },
        0xf8 => Instr::Implied { op: ImpliedOp::Sed },
        0x78 => Instr::Implied { op: ImpliedOp::Sei },
        0x85 => Instr::Addressed { op: AddrOp::Sta, mode: AddrMode::ZeroPage },
        0x95 => Instr::Addressed { op: AddrOp::Sta, mode: AddrMode::IndexedZX },
        0x8d => Instr::Addressed { op: AddrOp::Sta, mode: AddrMode::Absolute },
        0x9d => Instr::Addressed {
            op: AddrOp::Sta,
            mode: AddrMode::AbsoluteX { force_cycle: true },
        },
        0x99 => Instr::Addressed {
            op: AddrOp::Sta,
            mode: AddrMode::AbsoluteY { force_cycle: true },
        },
        0x81 => Instr::Addressed { op: AddrOp::Sta, mode: AddrMode::IndirectX },
        0x91 => Instr::Addressed { op: AddrOp::Sta, mode: AddrMode::IndirectY },
        0x86 => Instr::Addressed { op: AddrOp::Stx, mode: AddrMode::ZeroPage },
        0x96 => Instr::Addressed { op: AddrOp::Stx, mode: AddrMode::IndexedZY },
        0x8e => Instr::Addressed { op: AddrOp::Stx, mode: AddrMode::Absolute },
        0x84 => Instr::Addressed { op: AddrOp::Sty, mode: AddrMode::ZeroPage },
        0x94 => Instr::Addressed { op: AddrOp::Sty, mode: AddrMode::IndexedZX },
        0x8c => Instr::Addressed { op: AddrOp::Sty, mode: AddrMode::Absolute },
        0xaa => Instr::Implied { op: ImpliedOp::Tax },
        0xa8 => Instr::Implied { op: ImpliedOp::Tay },
        0xba => Instr::Implied { op: ImpliedOp::Tsx },
        0x8a => Instr::Implied { op: ImpliedOp::Txa },
        0x9a => Instr::Implied { op: ImpliedOp::Txs },
        0x98 => Instr::Implied { op: ImpliedOp::Tya },
        0x1a | 0x3a | 0x5a | 0x7a | 0xda | 0xfa => Instr::Implied { op: ImpliedOp::Nop },
        0x80 | 0x82 | 0x89 | 0xc2 | 0xe2 => Instr::Value {
            op: ValueOp::Nop,
            mode: AddrMode::Immediate,
        },
        0x04 | 0x44 | 0x64 => Instr::Value { op: ValueOp::Nop, mode: AddrMode::ZeroPage },
        0x14 | 0x34 | 0x54 | 0x74 | 0xd4 | 0xf4 => Instr::Value {
            op: ValueOp::Nop,
            mode: AddrMode::IndexedZX,
        },
        0x0c => Instr::Value { op: ValueOp::Nop, mode: AddrMode::Absolute },
        0x1c | 0x3c | 0x5c | 0x7c | 0xdc | 0xfc => Instr::Value {
            op: ValueOp::Nop,
            mode: AddrMode::AbsoluteX { force_cycle: false },
        },
        0x02 | 0x12 | 0x22 | 0x32 | 0x42 | 0x52 | 0x62 | 0x72 | 0x92 | 0xb2 | 0xd2 | 0xf2
            => Instr::Implied { op: ImpliedOp::Jam },
        0x4b => Instr::Implied { op: ImpliedOp::Alr },
        0x0b | 0x2b => Instr::Implied { op: ImpliedOp::Anc },
        0x6b => Instr::Implied { op: ImpliedOp::Arr },
        0xc7 => Instr::Addressed { op: AddrOp::Dcp, mode: AddrMode::ZeroPage },
        0xd7 => Instr::Addressed { op: AddrOp::Dcp, mode: AddrMode::IndexedZX },
        0xcf => Instr::Addressed { op: AddrOp::Dcp, mode: AddrMode::Absolute },
        0xdf => Instr::Addressed {
            op: AddrOp::Dcp,
            mode: AddrMode::AbsoluteX { force_cycle: true },
        },
        0xdb => Instr::Addressed {
            op: AddrOp::Dcp,
            mode: AddrMode::AbsoluteY { force_cycle: true },
        },
        0xc3 => Instr::Addressed { op: AddrOp::Dcp, mode: AddrMode::IndirectX },
        0xd3 => Instr::Addressed { op: AddrOp::Dcp, mode: AddrMode::IndirectY },
        0x07 => Instr::Addressed { op: AddrOp::Slo, mode: AddrMode::ZeroPage },
        0x17 => Instr::Addressed { op: AddrOp::Slo, mode: AddrMode::IndexedZX },
        0x0f => Instr::Addressed { op: AddrOp::Slo, mode: AddrMode::Absolute },
        0x1f => Instr::Addressed {
            op: AddrOp::Slo,
            mode: AddrMode::AbsoluteX { force_cycle: true },
        },
        0x1b => Instr::Addressed {
            op: AddrOp::Slo,
            mode: AddrMode::AbsoluteY { force_cycle: true },
        },
        0x03 => Instr::Addressed { op: AddrOp::Slo, mode: AddrMode::IndirectX },
        0x13 => Instr::Addressed { op: AddrOp::Slo, mode: AddrMode::IndirectY },
        0xe7 => Instr::Addressed { op: AddrOp::Isc, mode: AddrMode::ZeroPage },
        0xf7 => Instr::Addressed { op: AddrOp::Isc, mode: AddrMode::IndexedZX },
        0xef => Instr::Addressed { op: AddrOp::Isc, mode: AddrMode::Absolute },
        0xff => Instr::Addressed {
            op: AddrOp::Isc,
            mode: AddrMode::AbsoluteX { force_cycle: true },
        },
        0xfb => Instr::Addressed {
            op: AddrOp::Isc,
            mode: AddrMode::AbsoluteY { force_cycle: true },
        },
        0xe3 => Instr::Addressed { op: AddrOp::Isc, mode: AddrMode::IndirectX },
        0xf3 => Instr::Addressed { op: AddrOp::Isc, mode: AddrMode::IndirectY },
        _ => Instr::Fault,
    }
}

/// Builds the 256-entry dispatch table, one decoded entry per opcode byte.
pub fn generate_lut() -> (lut: Vec<Instr>)
    ensures
        lut@.len() == 256,
        forall|i: int| 0 <= i < 256 ==> lut@[i] == instr_of(i as u8),
{
    let mut lut: Vec<Instr> = Vec::new();
    let mut i: usize = 0;
    while i < 256
        invariant
            lut@.len() == i,
            i <= 256,
            forall|j: int| 0 <= j < i ==> lut@[j] == instr_of(j as u8),
        decreases 256 - i,
    {
        lut.push(decode(i as u8));
        i = i + 1;
    }
    lut
}

} // verus!
