//! The status-byte helper: flag updates compose into (mask, value) pairs,
//! apply to every starting byte, and never clear the unused bit.

use nes_lib::cpu::status_register::{Sr, SrUpdate};
use nes_lib::Cpu;

#[test]
fn test_set_carry() {
    let mut cpu: Cpu = Cpu::new();
    for i in 0..=255 {
        cpu.sr = i;
        cpu.update_flags(
            SrUpdate {
                c: Some(true),
                ..SrUpdate::default()
            }
            .result(),
        );
        assert_eq!(cpu.sr, i | 1);
        assert_eq!(cpu.get_flag(Sr::C), true);
    }
}

#[test]
fn test_reset_carry() {
    let mut cpu: Cpu = Cpu::new();
    for i in 0..=255 {
        cpu.sr = i;
        cpu.update_flags(
            SrUpdate {
                c: Some(false),
                ..SrUpdate::default()
            }
            .result(),
        );
        assert_eq!(cpu.sr, i & 0b11111110);
        assert_eq!(cpu.get_flag(Sr::C), false);
    }
}

#[test]
fn test_set_negative() {
    let mut cpu: Cpu = Cpu::new();
    for i in 0..=255 {
        cpu.sr = i;
        cpu.update_flags(
            SrUpdate {
                n: Some(true),
                ..SrUpdate::default()
            }
            .result(),
        );
        assert_eq!(cpu.sr, i | (1 << 7));
        assert_eq!(cpu.get_flag(Sr::N), true);
    }
}

#[test]
fn test_reset_negative() {
    let mut cpu: Cpu = Cpu::new();
    for i in 0..=255 {
        cpu.sr = i;
        cpu.update_flags(
            SrUpdate {
                n: Some(false),
                ..SrUpdate::default()
            }
            .result(),
        );
        assert_eq!(cpu.sr, i & 0b01111111);
        assert_eq!(cpu.get_flag(Sr::N), false);
    }
}

#[test]
fn test_update_twice_equals_once() {
    for i in 0..=255u8 {
        let mut once: Cpu = Cpu::new();
        once.sr = i;
        let upd = SrUpdate {
            c: Some(true),
            z: Some(false),
            n: Some(true),
            ..SrUpdate::default()
        };
        once.update_flags(upd.result());
        let after_once = once.sr;
        once.update_flags(upd.result());
        assert_eq!(once.sr, after_once);
    }
}

#[test]
fn test_update_preserves_bit5() {
    for i in 0..=255u8 {
        let mut cpu: Cpu = Cpu::new();
        cpu.sr = i;
        cpu.update_flags(
            SrUpdate {
                c: Some(true),
                z: Some(true),
                i: Some(true),
                d: Some(true),
                b: Some(true),
                v: Some(true),
                n: Some(true),
            }
            .result(),
        );
        assert_eq!(cpu.sr & 0x20, i & 0x20);
    }
}

#[test]
fn test_num_flags_zero_and_negative() {
    let mut cpu: Cpu = Cpu::new();
    cpu.sr = 0;
    cpu.update_flags(SrUpdate::num_flags(0).result());
    assert_eq!(cpu.get_flag(Sr::Z), true);
    assert_eq!(cpu.get_flag(Sr::N), false);
    cpu.update_flags(SrUpdate::num_flags(0x80).result());
    assert_eq!(cpu.get_flag(Sr::Z), false);
    assert_eq!(cpu.get_flag(Sr::N), true);
}
