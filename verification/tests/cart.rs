//! Header decoding and the NROM mapper: magic and dialect checks, rejected
//! layouts, the PRG/CHR address map, and mirroring offsets.

use nes_lib::cart::header::{FileHeader, INesHeader, Mirroring};
use nes_lib::cart::mapper::{INesMapper, NROM};
use nes_lib::cart::Cart;
use nes_lib::cart::DeferredWrite;

fn header_bytes(prg: u8, chr: u8, flags6: u8, flags7: u8) -> Vec<u8> {
    vec![
        b'N', b'E', b'S', 0x1a, prg, chr, flags6, flags7, 0, 0, 0, 0, 0, 0, 0, 0,
    ]
}

fn ines(prg: u8, chr: u8, flags6: u8) -> INesHeader {
    match FileHeader::try_decode(&header_bytes(prg, chr, flags6, 0)) {
        Ok(FileHeader::INes(h)) => h,
        _ => panic!("expected an iNES header"),
    }
}

#[test]
fn header_rejects_short_input() {
    assert!(FileHeader::try_decode(&vec![b'N', b'E', b'S', 0x1a]).is_err());
}

#[test]
fn header_rejects_bad_magic() {
    let mut h = header_bytes(1, 1, 0, 0);
    h[0] = b'M';
    assert!(FileHeader::try_decode(&h).is_err());
}

#[test]
fn header_selects_nes2_dialect() {
    let h = header_bytes(1, 1, 0, 0x08);
    match FileHeader::try_decode(&h) {
        Ok(FileHeader::Nes2(_)) => (),
        _ => panic!("expected the NES 2.0 dialect"),
    }
}

#[test]
fn header_decodes_ines_fields() {
    let h = ines(2, 1, 0b0001_0101);
    assert_eq!(h.prg_rom_size, 2);
    assert_eq!(h.chr_rom_size, 1);
    assert_eq!(h.mapper_num, 0x01);
    assert!(h.has_trainer);
    assert_eq!(h.mirroring, Mirroring::V);
    let h2 = ines(1, 1, 0b0010_0000);
    assert_eq!(h2.mapper_num, 0x02);
    assert!(!h2.has_trainer);
    assert_eq!(h2.mirroring, Mirroring::H);
}

#[test]
fn mapper_rejects_nonzero_mapper_number() {
    let h = ines(1, 1, 0b0001_0000);
    assert_eq!(h.mapper_num, 1);
    let data = vec![0u8; 0x6000];
    assert!(INesMapper::try_decode(&h, &data).is_err());
}

#[test]
fn nrom_rejects_unsupported_layouts() {
    let data = vec![0u8; 0x12000];
    // Three PRG banks.
    assert!(NROM::new(&ines(3, 1, 0), &data).is_err());
    // No CHR bank.
    assert!(NROM::new(&ines(1, 0, 0), &data).is_err());
    // Trainer present.
    assert!(NROM::new(&ines(1, 1, 0b100), &data).is_err());
    // File truncated before the CHR image.
    assert!(NROM::new(&ines(2, 1, 0), &vec![0u8; 0x9000]).is_err());
    // Exactly enough data decodes.
    assert!(NROM::new(&ines(2, 1, 0), &vec![0u8; 0xa000]).is_ok());
}

fn sample_cart(flags6: u8) -> INesMapper {
    let h = ines(1, 1, flags6);
    let mut data = vec![0u8; 0x6000];
    for i in 0..0x4000 {
        data[i] = (i % 251) as u8;
    }
    for i in 0..0x2000 {
        data[0x4000 + i] = ((i * 7) % 256) as u8;
    }
    INesMapper::try_decode(&h, &data).unwrap()
}

#[test]
fn nrom_maps_prg_rom_and_mirror() {
    let mut cart = sample_cart(0);
    assert_eq!(cart.read(0x8000).unwrap(), 0);
    assert_eq!(cart.read(0x8123).unwrap(), (0x123 % 251) as u8);
    // A single 16 KiB bank is mirrored at 0xC000.
    assert_eq!(cart.read(0xc123).unwrap(), (0x123 % 251) as u8);
    assert_eq!(cart.read(0xfffc).unwrap(), (0x3ffc % 251) as u8);
}

#[test]
fn nrom_prg_ram_round_trip() {
    let mut cart = sample_cart(0);
    assert_eq!(cart.write(0x6123, 0x5a), None);
    assert_eq!(cart.read(0x6123).unwrap(), 0x5a);
    // ROM ranges ignore writes.
    assert_eq!(cart.write(0x8000, 0x77), None);
    assert_eq!(cart.read(0x8000).unwrap(), 0);
}

#[test]
fn nrom_serves_chr_on_picture_bus() {
    let mut cart = sample_cart(0);
    assert_eq!(cart.read(0x0000).unwrap(), 0);
    assert_eq!(cart.read(0x0123).unwrap(), ((0x123 * 7) % 256) as u8);
    let snapshot = cart.chr().unwrap();
    assert_eq!(snapshot.len(), 0x2000);
    assert_eq!(snapshot[0x123], ((0x123 * 7) % 256) as u8);
}

#[test]
fn nrom_mirrors_nametables_horizontally() {
    // Horizontal mirroring routes by bit 10 of the folded address.
    let mut cart = sample_cart(0);
    assert_eq!(
        cart.write(0x2001, 0xab),
        Some(DeferredWrite::VRAM(0x001, 0xab))
    );
    assert_eq!(
        cart.write(0x2401, 0xcd),
        Some(DeferredWrite::VRAM(0x401, 0xcd))
    );
    assert_eq!(
        cart.write(0x2801, 0xef),
        Some(DeferredWrite::VRAM(0x001, 0xef))
    );
}

#[test]
fn nrom_mirrors_nametables_vertically() {
    // Vertical mirroring routes by bit 11 of the folded address.
    let mut cart = sample_cart(1);
    assert_eq!(
        cart.write(0x2401, 0xcd),
        Some(DeferredWrite::VRAM(0x001, 0xcd))
    );
    assert_eq!(
        cart.write(0x2801, 0xef),
        Some(DeferredWrite::VRAM(0x401, 0xef))
    );
}
