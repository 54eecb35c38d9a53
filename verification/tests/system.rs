//! Whole-system scenarios: the reset vector, the bus address map, the
//! picture-register interface reached through the bus, and the pattern-tile
//! rasteriser.

use nes_lib::cart::header::FileHeader;
use nes_lib::cart::mapper::INesMapper;
use nes_lib::ppu::draw_tile;
use nes_lib::{Bus, Color, EventSource, Nes, NesBus, Ppu, RamBus, Screen};

struct MockScreen;

impl Screen for MockScreen {
    fn put_pixel(&mut self, _: u16, _: u16, _: Color) {}
}

#[test]
fn reset_vector_loads_program_counter() {
    let mut bus = RamBus::new();
    bus.mem[0xfffc] = 0x34;
    bus.mem[0xfffd] = 0x12;
    let nes = Nes::new(bus);
    assert_eq!(nes.cpu.pc, 0x1234);
    assert_eq!(
        nes.bus.trace,
        vec![
            EventSource::BusRead { addr: 0xfffc, val: 0x34 },
            EventSource::BusRead { addr: 0xfffd, val: 0x12 },
        ]
    );
    assert_eq!(nes.cpu.sp, 0xfd);
    assert_eq!(nes.cpu.sr, 0x24);
}

#[test]
fn ram_bus_round_trip_records_trace() {
    let mut bus = RamBus::new();
    bus.write(0x0200, 0x77);
    assert_eq!(bus.read(0x0200), 0x77);
    assert_eq!(
        bus.trace,
        vec![
            EventSource::BusWrite { addr: 0x0200, val: 0x77 },
            EventSource::BusRead { addr: 0x0200, val: 0x77 },
        ]
    );
}

fn nes_with_cart() -> Nes<NesBus<INesMapper, MockScreen>> {
    let header_bytes: Vec<u8> = vec![
        b'N', b'E', b'S', 0x1a, 1, 1, 0, 0, 0, 0, 0, 0, 0, 0, 0, 0,
    ];
    let header = match FileHeader::try_decode(&header_bytes) {
        Ok(FileHeader::INes(h)) => h,
        _ => panic!("expected an iNES header"),
    };
    let mut data = vec![0u8; 0x6000];
    // A program entry point inside PRG ROM, reachable through the 16 KiB
    // mirror at the reset vector, and a NOP to execute there.
    data[0x0000] = 0xea;
    data[0x3ffc] = 0x00;
    data[0x3ffd] = 0x80;
    for i in 0..0x2000 {
        data[0x4000 + i] = ((i * 7) % 256) as u8;
    }
    let cart = INesMapper::try_decode(&header, &data).unwrap();
    let ppu = Ppu::new(MockScreen);
    let bus = NesBus::new(cart, ppu);
    Nes::new(bus)
}

#[test]
fn bus_mirrors_internal_ram() {
    let mut nes = nes_with_cart();
    nes.bus.write(0x0005, 0x99);
    assert_eq!(nes.bus.read(0x0805), 0x99);
    assert_eq!(nes.bus.read(0x1005), 0x99);
    assert_eq!(nes.bus.read(0x1805), 0x99);
}

#[test]
fn bus_open_region_reads_zero() {
    let mut nes = nes_with_cart();
    nes.bus.write(0x4018, 0x42);
    assert_eq!(nes.bus.read(0x4018), 0);
    nes.bus.write(0x4005, 0x42);
    assert_eq!(nes.bus.read(0x4005), 0x42);
}

#[test]
fn status_read_reports_vblank_after_time_passes() {
    let mut nes = nes_with_cart();
    // Before any time has passed the status byte is still the power-on
    // zero.
    assert_eq!(nes.bus.read(0x2002), 0x00);
    nes.tick();
    // The placeholder per-tick work pins the vblank bit once the unit has
    // caught up to a later time.
    assert_eq!(nes.bus.read(0x2002), 0x80);
}

#[test]
fn data_port_reads_chr_with_increment_one() {
    let mut nes = nes_with_cart();
    nes.bus.write(0x2006, 0x01);
    nes.bus.write(0x2006, 0x10);
    assert_eq!(nes.bus.read(0x2007), ((0x110 * 7) % 256) as u8);
    assert_eq!(nes.bus.read(0x2007), ((0x111 * 7) % 256) as u8);
}

#[test]
fn data_port_honours_increment_thirty_two() {
    let mut nes = nes_with_cart();
    nes.bus.write(0x2000, 0b100);
    nes.bus.write(0x2006, 0x01);
    nes.bus.write(0x2006, 0x00);
    assert_eq!(nes.bus.read(0x2007), ((0x100 * 7) % 256) as u8);
    assert_eq!(nes.bus.read(0x2007), ((0x120 * 7) % 256) as u8);
}

#[test]
fn status_read_clears_address_latch() {
    let mut nes = nes_with_cart();
    // Latch the high byte, then clear the latch by reading the status
    // register: the next 0x2006 write starts a fresh high byte.
    nes.bus.write(0x2006, 0x3f);
    nes.bus.read(0x2002);
    nes.bus.write(0x2006, 0x01);
    nes.bus.write(0x2006, 0x23);
    assert_eq!(nes.bus.read(0x2007), ((0x123 * 7) % 256) as u8);
}

#[test]
fn data_port_writes_reach_nametable_ram() {
    let mut nes = nes_with_cart();
    nes.bus.write(0x2006, 0x20);
    nes.bus.write(0x2006, 0x05);
    nes.bus.write(0x2007, 0xab);
    assert_eq!(nes.bus.ppu_bus.vram[0x005], 0xab);
    // Reading the same cell back goes through the same mirroring.
    nes.bus.write(0x2006, 0x20);
    nes.bus.write(0x2006, 0x05);
    assert_eq!(nes.bus.read(0x2007), 0xab);
}

#[test]
fn ppu_register_mirrors_every_eight_bytes() {
    let mut nes = nes_with_cart();
    // 0x3ffa mirrors 0x2002: the status register.
    nes.tick();
    assert_eq!(nes.bus.read(0x3ffa), 0x80);
}

#[test]
fn debug_chr_snapshot_matches_rom() {
    let nes = nes_with_cart();
    let chr = nes.bus.debug_chr().unwrap();
    assert_eq!(chr.len(), 0x2000);
    assert_eq!(chr[0x110], ((0x110 * 7) % 256) as u8);
}

#[test]
fn draw_tile_paints_palette_pixels() {
    let mut frame = vec![0x11u8; 0x20000];
    let mut tile = vec![0u8; 16];
    // Pixel (0,0): plane 0 only, colour index 1 (red). Pixel (0,1): both
    // planes, colour index 3 (blue). Pixel (1,0): plane 1 only, index 2.
    tile[0] = 0b1100_0000;
    tile[8] = 0b0100_0000;
    tile[1] = 0b0000_0000;
    tile[9] = 0b1000_0000;
    draw_tile(&mut frame, 0, &tile);
    assert_eq!(&frame[0..4], &[255, 0, 0, 255]);
    assert_eq!(&frame[4..8], &[0, 0, 255, 255]);
    assert_eq!(&frame[256 * 4..256 * 4 + 4], &[0, 255, 0, 255]);
    // A pixel with neither plane bit is painted black, alpha opaque.
    assert_eq!(&frame[8..12], &[0, 0, 0, 255]);
    // Bytes outside the tile's cell keep their old value.
    assert_eq!(frame[8 * 4], 0x11);
}

#[test]
fn draw_tile_places_second_table_right() {
    let mut frame = vec![0u8; 0x20000];
    let mut tile = vec![0u8; 16];
    tile[0] = 0b1000_0000;
    draw_tile(&mut frame, 256, &tile);
    // Tile 256 opens the second pattern table: column 128, row 0.
    assert_eq!(&frame[128 * 4..128 * 4 + 4], &[255, 0, 0, 255]);
    assert_eq!(frame[0], 0);
}
