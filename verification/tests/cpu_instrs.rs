//! Instruction-level scenarios against a flat RAM bus: registers, flags,
//! the program counter, and the exact cycle-by-cycle bus trace.

use nes_lib::cpu::status_register::Sr;
use nes_lib::{Cpu, EventSource, Nes, RamBus};

fn boot(program_at: u16, bytes: &[u8]) -> Nes<RamBus> {
    let mut bus = RamBus::new();
    bus.mem[0xfffc] = (program_at % 256) as u8;
    bus.mem[0xfffd] = (program_at / 256) as u8;
    for (i, b) in bytes.iter().enumerate() {
        bus.mem[program_at as usize + i] = *b;
    }
    let mut nes = Nes::new(bus);
    nes.bus.trace.clear();
    nes
}

#[test]
fn lda_immediate_sets_zero_flag() {
    let mut nes = boot(0x8000, &[0xa9, 0x00]);
    nes.tick();
    assert_eq!(nes.cpu.a, 0x00);
    assert!(nes.cpu.get_flag(Sr::Z));
    assert!(!nes.cpu.get_flag(Sr::N));
    assert_eq!(nes.cpu.pc, 0x8002);
    assert_eq!(
        nes.bus.trace,
        vec![
            EventSource::BusRead { addr: 0x8000, val: 0xa9 },
            EventSource::BusRead { addr: 0x8001, val: 0x00 },
        ]
    );
}

#[test]
fn adc_immediate_plain() {
    let mut nes = boot(0x8000, &[0x69, 0x10]);
    nes.cpu.a = 0x20;
    nes.tick();
    assert_eq!(nes.cpu.a, 0x30);
    assert!(!nes.cpu.get_flag(Sr::C));
    assert!(!nes.cpu.get_flag(Sr::V));
    assert!(!nes.cpu.get_flag(Sr::N));
    assert!(!nes.cpu.get_flag(Sr::Z));
}

#[test]
fn adc_immediate_overflow_and_carry() {
    let mut nes = boot(0x8000, &[0x69, 0x80]);
    nes.cpu.a = 0x80;
    nes.tick();
    assert_eq!(nes.cpu.a, 0x00);
    assert!(nes.cpu.get_flag(Sr::C));
    assert!(nes.cpu.get_flag(Sr::V));
    assert!(!nes.cpu.get_flag(Sr::N));
    assert!(nes.cpu.get_flag(Sr::Z));
}

#[test]
fn jmp_indirect_page_wrap() {
    let mut nes = boot(0x8000, &[0x6c, 0xff, 0x10]);
    nes.bus.mem[0x10ff] = 0x34;
    nes.bus.mem[0x1000] = 0x12;
    nes.bus.mem[0x1100] = 0x99;
    nes.tick();
    assert_eq!(nes.cpu.pc, 0x1234);
    // The pointer's high byte came from 0x1000, not 0x1100.
    assert_eq!(
        nes.bus.trace,
        vec![
            EventSource::BusRead { addr: 0x8000, val: 0x6c },
            EventSource::BusRead { addr: 0x8001, val: 0xff },
            EventSource::BusRead { addr: 0x8002, val: 0x10 },
            EventSource::BusRead { addr: 0x10ff, val: 0x34 },
            EventSource::BusRead { addr: 0x1000, val: 0x12 },
        ]
    );
}

#[test]
fn beq_taken_lands_past_page_edge() {
    let mut nes = boot(0x80fe, &[0xf0, 0x10]);
    nes.cpu.sr |= 0b10;
    nes.tick();
    assert_eq!(nes.cpu.pc, 0x8110);
    // The post-operand program counter 0x8100 and the target 0x8110 share
    // a page, so the taken branch spends only its prefetch cycle.
    assert_eq!(
        nes.bus.trace,
        vec![
            EventSource::BusRead { addr: 0x80fe, val: 0xf0 },
            EventSource::BusRead { addr: 0x80ff, val: 0x10 },
            EventSource::BusRead { addr: 0x8100, val: 0x00 },
        ]
    );
}

#[test]
fn beq_page_cross_dummy_read() {
    let mut nes = boot(0x80c0, &[0xf0, 0x70]);
    nes.cpu.sr |= 0b10;
    nes.tick();
    assert_eq!(nes.cpu.pc, 0x8132);
    // Crossing from 0x80c2 to 0x8132 reads the mis-computed intermediate
    // address: the new low byte under the old high byte.
    assert_eq!(
        nes.bus.trace,
        vec![
            EventSource::BusRead { addr: 0x80c0, val: 0xf0 },
            EventSource::BusRead { addr: 0x80c1, val: 0x70 },
            EventSource::BusRead { addr: 0x80c2, val: 0x00 },
            EventSource::BusRead { addr: 0x8032, val: 0x00 },
        ]
    );
}

#[test]
fn beq_not_taken_only_fetches_offset() {
    let mut nes = boot(0x8000, &[0xf0, 0x10]);
    nes.cpu.sr &= !0b10u8;
    nes.tick();
    assert_eq!(nes.cpu.pc, 0x8002);
    assert_eq!(nes.bus.trace.len(), 2);
}

#[test]
fn inc_absolute_rmw_dummy_write() {
    let mut nes = boot(0x8000, &[0xee, 0x34, 0x12]);
    nes.bus.mem[0x1234] = 0x7f;
    nes.tick();
    assert_eq!(nes.bus.mem[0x1234], 0x80);
    assert!(nes.cpu.get_flag(Sr::N));
    assert!(!nes.cpu.get_flag(Sr::Z));
    assert_eq!(
        nes.bus.trace,
        vec![
            EventSource::BusRead { addr: 0x8000, val: 0xee },
            EventSource::BusRead { addr: 0x8001, val: 0x34 },
            EventSource::BusRead { addr: 0x8002, val: 0x12 },
            EventSource::BusRead { addr: 0x1234, val: 0x7f },
            EventSource::BusWrite { addr: 0x1234, val: 0x7f },
            EventSource::BusWrite { addr: 0x1234, val: 0x80 },
        ]
    );
}

#[test]
fn lda_absolute_x_page_cross_penalty() {
    let mut nes = boot(0x8000, &[0xbd, 0xf0, 0x12]);
    nes.cpu.x = 0x20;
    nes.bus.mem[0x1310] = 0x42;
    nes.tick();
    assert_eq!(nes.cpu.a, 0x42);
    // One extra read at the fix-up address: new low byte, old high byte.
    assert_eq!(
        nes.bus.trace,
        vec![
            EventSource::BusRead { addr: 0x8000, val: 0xbd },
            EventSource::BusRead { addr: 0x8001, val: 0xf0 },
            EventSource::BusRead { addr: 0x8002, val: 0x12 },
            EventSource::BusRead { addr: 0x1210, val: 0x00 },
            EventSource::BusRead { addr: 0x1310, val: 0x42 },
        ]
    );
}

#[test]
fn lda_absolute_x_no_cross_no_penalty() {
    let mut nes = boot(0x8000, &[0xbd, 0xf0, 0x12]);
    nes.cpu.x = 0x05;
    nes.bus.mem[0x12f5] = 0x37;
    nes.tick();
    assert_eq!(nes.cpu.a, 0x37);
    assert_eq!(nes.bus.trace.len(), 4);
}

#[test]
fn sta_absolute_x_always_pays_fixup() {
    let mut nes = boot(0x8000, &[0x9d, 0xf0, 0x12]);
    nes.cpu.x = 0x05;
    nes.cpu.a = 0x55;
    nes.tick();
    assert_eq!(nes.bus.mem[0x12f5], 0x55);
    assert_eq!(
        nes.bus.trace,
        vec![
            EventSource::BusRead { addr: 0x8000, val: 0x9d },
            EventSource::BusRead { addr: 0x8001, val: 0xf0 },
            EventSource::BusRead { addr: 0x8002, val: 0x12 },
            EventSource::BusRead { addr: 0x12f5, val: 0x00 },
            EventSource::BusWrite { addr: 0x12f5, val: 0x55 },
        ]
    );
}

#[test]
fn stack_wraps_within_page_one() {
    let mut cpu = Cpu::new();
    let mut bus = RamBus::new();
    cpu.sp = 0;
    cpu.stack_push(&mut bus, 0xaa);
    assert_eq!(
        bus.trace.last(),
        Some(&EventSource::BusWrite { addr: 0x0100, val: 0xaa })
    );
    assert_eq!(cpu.sp, 0xff);
    cpu.stack_push(&mut bus, 0xbb);
    assert_eq!(
        bus.trace.last(),
        Some(&EventSource::BusWrite { addr: 0x01ff, val: 0xbb })
    );
    assert_eq!(cpu.sp, 0xfe);
    let top = cpu.stack_pop(&mut bus);
    assert_eq!(top, 0xbb);
    assert_eq!(
        bus.trace.last(),
        Some(&EventSource::BusRead { addr: 0x01ff, val: 0xbb })
    );
    let next = cpu.stack_pop(&mut bus);
    assert_eq!(next, 0xaa);
    assert_eq!(
        bus.trace.last(),
        Some(&EventSource::BusRead { addr: 0x0100, val: 0xaa })
    );
    assert_eq!(cpu.sp, 0);
}

#[test]
fn php_presents_break_and_unused_set() {
    let mut nes = boot(0x8000, &[0x08]);
    nes.cpu.sr = 0x00;
    nes.tick();
    assert_eq!(
        nes.bus.trace,
        vec![
            EventSource::BusRead { addr: 0x8000, val: 0x08 },
            EventSource::BusRead { addr: 0x8001, val: 0x00 },
            EventSource::BusWrite { addr: 0x01fd, val: 0x30 },
        ]
    );
    assert_eq!(nes.cpu.sp, 0xfc);
}

#[test]
fn jsr_rts_round_trip() {
    let mut nes = boot(0x8000, &[0x20, 0x00, 0x90]);
    nes.bus.mem[0x9000] = 0x60;
    nes.tick();
    assert_eq!(nes.cpu.pc, 0x9000);
    assert_eq!(nes.cpu.sp, 0xfb);
    nes.tick();
    assert_eq!(nes.cpu.pc, 0x8003);
    assert_eq!(nes.cpu.sp, 0xfd);
}

#[test]
fn jam_opcode_halts_dispatch() {
    let mut nes = boot(0x8000, &[0x02, 0xa9, 0x11]);
    nes.tick();
    assert!(nes.cpu.jammed);
    let traced = nes.bus.trace.len();
    let pc = nes.cpu.pc;
    nes.tick();
    // Time passes, but a jammed CPU executes nothing further.
    assert_eq!(nes.bus.trace.len(), traced);
    assert_eq!(nes.cpu.pc, pc);
    assert_eq!(nes.cpu.a, 0);
}

#[test]
fn unmapped_opcode_faults() {
    let mut nes = boot(0x8000, &[0x8b]);
    nes.tick();
    assert!(nes.cpu.faulted);
    assert!(!nes.cpu.jammed);
    let traced = nes.bus.trace.len();
    nes.tick();
    assert_eq!(nes.bus.trace.len(), traced);
}

#[test]
fn sbc_borrows_like_adc_of_complement() {
    let mut nes = boot(0x8000, &[0xe9, 0x01]);
    nes.cpu.a = 0x00;
    nes.cpu.sr |= 1;
    nes.tick();
    assert_eq!(nes.cpu.a, 0xff);
    assert!(!nes.cpu.get_flag(Sr::C));
    assert!(nes.cpu.get_flag(Sr::N));
}

#[test]
fn alr_ands_then_shifts_accumulator() {
    let mut nes = boot(0x8000, &[0x4b, 0x0f]);
    nes.cpu.a = 0xf3;
    nes.tick();
    assert_eq!(nes.cpu.a, 0x01);
    assert!(nes.cpu.get_flag(Sr::C));
    assert!(!nes.cpu.get_flag(Sr::N));
    assert_eq!(nes.bus.trace.len(), 3);
}

#[test]
fn anc_copies_negative_into_carry() {
    let mut nes = boot(0x8000, &[0x0b, 0xf0]);
    nes.cpu.a = 0x8f;
    nes.tick();
    assert_eq!(nes.cpu.a, 0x80);
    assert!(nes.cpu.get_flag(Sr::C));
    assert!(nes.cpu.get_flag(Sr::N));
}

#[test]
fn slo_zero_page_shifts_then_ors() {
    let mut nes = boot(0x8000, &[0x07, 0x10]);
    nes.bus.mem[0x10] = 0x81;
    nes.cpu.a = 0x10;
    nes.tick();
    assert_eq!(nes.bus.mem[0x10], 0x02);
    assert_eq!(nes.cpu.a, 0x12);
    assert!(nes.cpu.get_flag(Sr::C));
    assert_eq!(
        &nes.bus.trace[2..],
        &[
            EventSource::BusRead { addr: 0x0010, val: 0x81 },
            EventSource::BusWrite { addr: 0x0010, val: 0x81 },
            EventSource::BusWrite { addr: 0x0010, val: 0x02 },
        ]
    );
}

#[test]
fn dcp_decrements_then_compares() {
    let mut nes = boot(0x8000, &[0xc7, 0x10]);
    nes.bus.mem[0x10] = 0x11;
    nes.cpu.a = 0x10;
    nes.tick();
    assert_eq!(nes.bus.mem[0x10], 0x10);
    assert!(nes.cpu.get_flag(Sr::Z));
    assert!(nes.cpu.get_flag(Sr::C));
}

#[test]
fn isc_increments_then_subtracts() {
    let mut nes = boot(0x8000, &[0xe7, 0x10]);
    nes.bus.mem[0x10] = 0x0f;
    nes.cpu.a = 0x20;
    nes.cpu.sr |= 1;
    nes.tick();
    assert_eq!(nes.bus.mem[0x10], 0x10);
    assert_eq!(nes.cpu.a, 0x10);
    assert!(nes.cpu.get_flag(Sr::C));
}

#[test]
fn lda_indirect_y_crosses_page() {
    let mut nes = boot(0x8000, &[0xb1, 0x40]);
    nes.bus.mem[0x40] = 0xf0;
    nes.bus.mem[0x41] = 0x12;
    nes.bus.mem[0x1310] = 0x66;
    nes.cpu.y = 0x20;
    nes.tick();
    assert_eq!(nes.cpu.a, 0x66);
    assert_eq!(
        nes.bus.trace,
        vec![
            EventSource::BusRead { addr: 0x8000, val: 0xb1 },
            EventSource::BusRead { addr: 0x8001, val: 0x40 },
            EventSource::BusRead { addr: 0x0040, val: 0xf0 },
            EventSource::BusRead { addr: 0x0041, val: 0x12 },
            EventSource::BusRead { addr: 0x1210, val: 0x00 },
            EventSource::BusRead { addr: 0x1310, val: 0x66 },
        ]
    );
}

#[test]
fn ldx_zero_page_y_wraps_in_page() {
    let mut nes = boot(0x8000, &[0xb6, 0x80]);
    nes.bus.mem[0x10] = 0x5a;
    nes.cpu.y = 0x90;
    nes.tick();
    assert_eq!(nes.cpu.x, 0x5a);
    // The un-indexed zero-page address takes the dummy read; the index
    // wraps inside the page.
    assert_eq!(
        nes.bus.trace,
        vec![
            EventSource::BusRead { addr: 0x8000, val: 0xb6 },
            EventSource::BusRead { addr: 0x8001, val: 0x80 },
            EventSource::BusRead { addr: 0x0080, val: 0x00 },
            EventSource::BusRead { addr: 0x0010, val: 0x5a },
        ]
    );
}

#[test]
fn sta_indirect_x_wraps_pointer_in_zero_page() {
    let mut nes = boot(0x8000, &[0x81, 0xfe]);
    nes.cpu.x = 0x01;
    nes.bus.mem[0xff] = 0x34;
    nes.bus.mem[0x00] = 0x12;
    nes.cpu.a = 0x77;
    nes.tick();
    assert_eq!(nes.bus.mem[0x1234], 0x77);
}

#[test]
fn asl_accumulator_shifts_out_carry() {
    let mut nes = boot(0x8000, &[0x0a]);
    nes.cpu.a = 0xc0;
    nes.tick();
    assert_eq!(nes.cpu.a, 0x80);
    assert!(nes.cpu.get_flag(Sr::C));
    assert!(nes.cpu.get_flag(Sr::N));
    assert_eq!(nes.bus.trace.len(), 2);
}

#[test]
fn ror_accumulator_feeds_carry_in() {
    let mut nes = boot(0x8000, &[0x6a]);
    nes.cpu.a = 0x01;
    nes.cpu.sr |= 1;
    nes.tick();
    assert_eq!(nes.cpu.a, 0x80);
    assert!(nes.cpu.get_flag(Sr::C));
    assert!(nes.cpu.get_flag(Sr::N));
}

#[test]
fn txs_updates_no_flags() {
    let mut nes = boot(0x8000, &[0x9a]);
    nes.cpu.x = 0x00;
    let sr = nes.cpu.sr;
    nes.tick();
    assert_eq!(nes.cpu.sp, 0x00);
    assert_eq!(nes.cpu.sr, sr);
}

#[test]
fn decimal_flag_toggles_but_never_alters_arithmetic() {
    let mut nes = boot(0x8000, &[0xf8, 0x69, 0x09, 0xd8]);
    nes.cpu.a = 0x09;
    nes.tick();
    assert!(nes.cpu.get_flag(Sr::D));
    nes.tick();
    // 0x09 + 0x09 stays binary 0x12 even with the decimal bit set.
    assert_eq!(nes.cpu.a, 0x12);
    nes.tick();
    assert!(!nes.cpu.get_flag(Sr::D));
}

#[test]
fn bit_copies_operand_high_bits() {
    let mut nes = boot(0x8000, &[0x24, 0x10]);
    nes.bus.mem[0x10] = 0xc0;
    nes.cpu.a = 0x0f;
    nes.tick();
    assert!(nes.cpu.get_flag(Sr::N));
    assert!(nes.cpu.get_flag(Sr::V));
    assert!(nes.cpu.get_flag(Sr::Z));
    assert_eq!(nes.cpu.a, 0x0f);
}

#[test]
fn pha_pla_round_trip() {
    let mut nes = boot(0x8000, &[0x48, 0x68]);
    nes.cpu.a = 0x80;
    nes.tick();
    nes.cpu.a = 0x00;
    nes.tick();
    assert_eq!(nes.cpu.a, 0x80);
    assert!(nes.cpu.get_flag(Sr::N));
    assert_eq!(nes.cpu.sp, 0xfd);
}

#[test]
fn rti_restores_status_and_return_address() {
    let mut nes = boot(0x8000, &[0x40]);
    // Hand-build an interrupt frame: status, then the return address.
    nes.bus.mem[0x01fb] = 0xff;
    nes.bus.mem[0x01fc] = 0x56;
    nes.bus.mem[0x01fd] = 0x34;
    nes.cpu.sp = 0xfa;
    nes.tick();
    assert_eq!(nes.cpu.pc, 0x3456);
    // Bits 4 and 5 of the popped status are forced: bit 4 clear, bit 5 set.
    assert_eq!(nes.cpu.sr, 0xef);
    assert_eq!(nes.cpu.sp, 0xfd);
}

#[test]
fn countdown_loop_replays() {
    // LDX #$03, then a DEX / BNE loop back to the DEX, then LDA #$42.
    let mut nes = boot(0x8000, &[0xa2, 0x03, 0xca, 0xd0, 0xfd, 0xa9, 0x42]);
    for _ in 0..8 {
        nes.tick();
    }
    assert_eq!(nes.cpu.x, 0x00);
    assert_eq!(nes.cpu.a, 0x42);
    assert_eq!(nes.cpu.pc, 0x8007);
    // The final LDA of a non-zero byte leaves Z clear.
    assert!(!nes.cpu.get_flag(Sr::Z));
}

#[test]
fn cmp_sets_carry_when_no_borrow() {
    let mut nes = boot(0x8000, &[0xc9, 0x10]);
    nes.cpu.a = 0x10;
    nes.tick();
    assert!(nes.cpu.get_flag(Sr::C));
    assert!(nes.cpu.get_flag(Sr::Z));
    assert!(!nes.cpu.get_flag(Sr::N));
}
