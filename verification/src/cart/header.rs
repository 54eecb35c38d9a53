//! Decoding of the 16-byte header that opens a .nes file.

use vstd::prelude::*;

use crate::cart::DecodeError;

verus! {

/// Name-table mirroring arrangement: horizontal or vertical.
#[derive(Debug, Clone, Copy, PartialEq, Eq, Structural)]
pub enum Mirroring {
    H,
    V,
}

/// A decoded file header; .nes files come in the legacy iNES dialect or the
/// NES 2.0 dialect.
pub enum FileHeader {
    INes(INesHeader),
    Nes2(Nes2Header),
}

/// The fields of a legacy iNES header that the mappers consume.
#[derive(Debug, Clone, Copy, PartialEq, Eq, Structural)]
pub struct INesHeader {
    /// Size of PRG ROM in 16 KiB units.
    pub prg_rom_size: usize,
    /// Size of CHR ROM in 8 KiB units.
    pub chr_rom_size: usize,
    pub mapper_num: u8,
    pub has_trainer: bool,
    pub mirroring: Mirroring,
}

/// The NES 2.0 dialect is recognised but carries no decoded fields: hosts
/// reject it as undecodable.
pub struct Nes2Header;

/// The header starts with the magic `N`, `E`, `S`, `0x1A` and is at least
/// 16 bytes long.
pub open spec fn has_magic(h: Seq<u8>) -> bool {
    &&& h.len() >= 16
    &&& h[0] == 78u8
    &&& h[1] == 69u8
    &&& h[2] == 83u8
    &&& h[3] == 0x1au8
}

/// Bits 2-3 of byte 7 equal to binary `10` select the NES 2.0 dialect.
pub open spec fn is_nes2(h: Seq<u8>) -> bool {
    h[7] & 0x0c == 0x08
}

/// The iNES fields read out of a header: PRG size in 16 KiB units at byte
/// 4, CHR size in 8 KiB units at byte 5, the mapper number's nibbles in
/// bytes 6 and 7, the trainer flag at byte 6 bit 2, and the mirroring at
/// byte 6 bit 0 (clear for horizontal, set for vertical).
pub open spec fn ines_of(h: Seq<u8>) -> INesHeader {
    INesHeader {
        prg_rom_size: h[4] as usize,
        chr_rom_size: h[5] as usize,
        mapper_num: (h[6] >> 4) | (h[7] & 0xf0),
        has_trainer: h[6] & 0b100 == 0b100,
        mirroring: if h[6] & 1 == 1 {
            Mirroring::V
        } else {
            Mirroring::H
        },
    }
}

impl INesHeader {
    /// Reads the iNES fields out of a header slice.
    pub fn decode(header: &Vec<u8>) -> (r: INesHeader)
        requires
            header@.len() >= 16,
        ensures
            r == ines_of(header@),
    {
        let prg_rom_size: usize = header[4] as usize;
        let chr_rom_size: usize = header[5] as usize;
        let mapper_num: u8 = (header[6] >> 4) | (header[7] & 0xf0);
        let has_trainer = header[6] & 0b100 == 0b100;
        let mirroring = if header[6] & 1 == 1 {
            Mirroring::V
        } else {
            Mirroring::H
        };
        INesHeader { prg_rom_size, chr_rom_size, mapper_num, has_trainer, mirroring }
    }
}

impl Nes2Header {
    /// Recognises the NES 2.0 dialect. No field is decoded: the dialect is
    /// out of scope and rejected at cartridge construction.
    pub fn decode(header: &Vec<u8>) -> (r: Nes2Header)
        requires
            header@.len() >= 16,
    {
        let _ = header;
        Nes2Header
    }
}

impl FileHeader {
    /// Decodes a file header: rejects anything shorter than 16 bytes or
    /// without the magic, then selects the dialect by byte 7.
    pub fn try_decode(header: &Vec<u8>) -> (r: Result<FileHeader, DecodeError>)
        ensures
            !has_magic(header@) ==> r is Err,
            has_magic(header@) && is_nes2(header@) ==> (r matches Ok(h) && h is Nes2),
            has_magic(header@) && !is_nes2(header@) ==> (r matches Ok(h) && (h matches
                FileHeader::INes(i) && i == ines_of(header@))),
    {
        if header.len() < 16 {
            // Header is too small.
            return Err(DecodeError);
        }
        if !(header[0] == 78 && header[1] == 69 && header[2] == 83 && header[3] == 0x1a) {
            // Header doesn't begin with NES<EOF>.
            return Err(DecodeError);
        }
        if header[7] & 0x0c != 0x08 {
            let ines = INesHeader::decode(header);
            Ok(FileHeader::INes(ines))
        } else {
            let nes2 = Nes2Header::decode(header);
            Ok(FileHeader::Nes2(nes2))
        }
    }
}

} // verus!
