//! The concrete mappers: mapper 0 (NROM), and the dispatching cartridge
//! type a decoded .nes file turns into.

use vstd::prelude::*;

use crate::bus::Addr;
use crate::cart::header::{INesHeader, Mirroring};
use crate::cart::{Cart, DecodeError, DeferredRead, DeferredWrite};

verus! {

/// A cartridge decoded from an iNES file: one variant per supported mapper
/// number.
pub enum INesMapper {
    NROM(NROM),
}

/// Mapper 0: 8 KiB PRG RAM, one or two 16 KiB PRG ROM banks (a single bank
/// is mirrored at `0xC000`), exactly 8 KiB CHR ROM, and hard-wired
/// name-table mirroring.
#[derive(Debug)]
pub struct NROM {
    pub prg_ram: Vec<u8>,
    pub prg_rom: Vec<u8>,
    /// PRG ROM is either 16 KiB or 32 KiB, determined by this value.
    pub prg_rom_size: usize,
    pub chr_rom: Vec<u8>,
    /// Which bit of a mirrored picture-bus address selects name-table B:
    /// 10 for horizontal mirroring, 11 for vertical.
    pub mirror_bit: usize,
}

/// The name-table RAM offset a picture-bus address maps to: the address
/// folded into the 4 KiB name-table window, reduced to an offset inside one
/// 1 KiB table, and routed to physical table A or B by the mirror bit.
pub open spec fn nt_offset(addr: Addr, mirror_bit: usize) -> usize {
    let mirrored = (addr % 0x1000) as usize;
    let sub = mirrored % 0x400;
    if ((mirrored >> mirror_bit) & 1) == 1 {
        (sub + 0x400) as usize
    } else {
        sub
    }
}

/// What `NROM::new` returns: a cartridge exactly when the header declares
/// one or two PRG banks, exactly one CHR bank, no trainer, and the data
/// holds the declared ROMs; `DecodeError` otherwise. On success the PRG ROM
/// buffer holds the PRG image zero-padded to 32 KiB, the CHR ROM holds the
/// 8 KiB that follow it, PRG RAM is zeroed, and the mirror bit encodes the
/// header's mirroring.
pub open spec fn nrom_new_post(
    header: INesHeader,
    data: Seq<u8>,
    r: Result<NROM, DecodeError>,
) -> bool {
    let prg_len: int = header.prg_rom_size * 0x4000;
    let decodable = (header.prg_rom_size == 1 || header.prg_rom_size == 2)
        && header.chr_rom_size == 1 && !header.has_trainer && data.len() >= prg_len + 0x2000;
    &&& (r is Ok) == decodable
    &&& r matches Ok(c) ==> {
        &&& c.inv()
        &&& c.prg_rom_size == prg_len
        &&& c.mirror_bit == (if header.mirroring == Mirroring::H {
            10int
        } else {
            11int
        })
        &&& forall|i: int| 0 <= i < prg_len ==> c.prg_rom@[i] == data[i]
        &&& forall|i: int| prg_len <= i < 0x8000 ==> c.prg_rom@[i] == 0u8
        &&& forall|i: int| 0 <= i < 0x2000 ==> c.chr_rom@[i] == data[prg_len + i]
        &&& forall|i: int| 0 <= i < 0x2000 ==> c.prg_ram@[i] == 0u8
    }
}

impl NROM {
    /// The buffers hold their declared sizes, the PRG size is one of the
    /// two supported bank layouts, and the mirror bit is one of the two
    /// wired arrangements.
    pub open spec fn inv(&self) -> bool {
        &&& self.prg_ram@.len() == 0x2000
        &&& self.prg_rom@.len() == 0x8000
        &&& self.chr_rom@.len() == 0x2000
        &&& (self.prg_rom_size == 0x4000 || self.prg_rom_size == 0x8000)
        &&& (self.mirror_bit == 10 || self.mirror_bit == 11)
    }

    /// Creates a new NROM cartridge from a decoded header and the file data
    /// that follows the header.
    pub fn new(header: &INesHeader, data: &Vec<u8>) -> (r: Result<NROM, DecodeError>)
        ensures
            nrom_new_post(*header, data@, r),
    {
        let prg_rom_size: usize = match header.prg_rom_size {
            1 => 0x4000,
            2 => 0x8000,
            _ => {
                return Err(DecodeError);
            },
        };
        match header.chr_rom_size {
            1 => (),
            _ => {
                return Err(DecodeError);
            },
        };
        if header.has_trainer {
            // Trainer-bearing files are out of scope.
            return Err(DecodeError);
        }
        if data.len() < prg_rom_size {
            return Err(DecodeError);
        }
        if data.len() - prg_rom_size < 0x2000 {
            // The CHR ROM that must follow the PRG image is missing.
            return Err(DecodeError);
        }
        let mut prg_rom: Vec<u8> = Vec::new();
        let mut i: usize = 0;
        while i < prg_rom_size
            invariant
                prg_rom@.len() == i,
                i <= prg_rom_size,
                prg_rom_size <= data@.len(),
                forall|j: int| 0 <= j < i ==> prg_rom@[j] == data@[j],
            decreases prg_rom_size - i,
        {
            prg_rom.push(data[i]);
            i = i + 1;
        }
        while i < 0x8000
            invariant
                prg_rom@.len() == i,
                prg_rom_size <= i <= 0x8000,
                prg_rom_size <= data@.len(),
                forall|j: int| 0 <= j < prg_rom_size ==> prg_rom@[j] == data@[j],
                forall|j: int| prg_rom_size <= j < i ==> prg_rom@[j] == 0u8,
            decreases 0x8000 - i,
        {
            prg_rom.push(0u8);
            i = i + 1;
        }
        let mut chr_rom: Vec<u8> = Vec::new();
        let mut k: usize = 0;
        while k < 0x2000
            invariant
                chr_rom@.len() == k,
                k <= 0x2000,
                prg_rom_size + 0x2000 <= data@.len(),
                data@.len() <= usize::MAX,
                forall|j: int| 0 <= j < k ==> chr_rom@[j] == data@[prg_rom_size + j],
            decreases 0x2000 - k,
        {
            chr_rom.push(data[prg_rom_size + k]);
            k = k + 1;
        }
        let mut prg_ram: Vec<u8> = Vec::new();
        let mut m: usize = 0;
        while m < 0x2000
            invariant
                prg_ram@.len() == m,
                m <= 0x2000,
                forall|j: int| 0 <= j < m ==> prg_ram@[j] == 0u8,
            decreases 0x2000 - m,
        {
            prg_ram.push(0u8);
            m = m + 1;
        }
        let mirror_bit: usize = match header.mirroring {
            Mirroring::H => 10,
            Mirroring::V => 11,
        };
        Ok(NROM { prg_ram, prg_rom, prg_rom_size, chr_rom, mirror_bit })
    }
}

impl Cart for NROM {
    open spec fn inv(&self) -> bool {
        NROM::inv(self)
    }

    open spec fn read_model(&self, addr: Addr) -> Result<u8, DeferredRead> {
        if addr <= 0x1fff {
            // Picture-bus side: CHR ROM.
            Ok(self.chr_rom@[addr as int])
        } else if addr <= 0x3eff {
            // Picture-bus side: name-table space, routed by mirroring.
            Err(DeferredRead::VRAM(nt_offset(addr, self.mirror_bit)))
        } else if addr <= 0x5fff {
            // Palette space and the expansion area are open bus here.
            Ok(0u8)
        } else if addr <= 0x7fff {
            Ok(self.prg_ram@[addr - 0x6000])
        } else if addr <= 0xbfff {
            Ok(self.prg_rom@[addr - 0x8000])
        } else if self.prg_rom_size == 0x4000 {
            Ok(self.prg_rom@[addr - 0xc000])
        } else {
            Ok(self.prg_rom@[addr - 0x8000])
        }
    }

    open spec fn write_read_model(&self, waddr: Addr, val: u8, raddr: Addr) -> Result<
        u8,
        DeferredRead,
    > {
        if 0x6000 <= waddr && waddr <= 0x7fff && raddr == waddr {
            Ok(val)
        } else {
            self.read_model(raddr)
        }
    }

    open spec fn write_token(&self, addr: Addr, val: u8) -> Option<DeferredWrite> {
        if 0x2000 <= addr && addr <= 0x3eff {
            Some(DeferredWrite::VRAM(nt_offset(addr, self.mirror_bit), val))
        } else {
            None
        }
    }

    open spec fn chr_model(&self) -> Option<Seq<u8>> {
        Some(self.chr_rom@)
    }

    proof fn read_model_ok(&self, addr: Addr) {
    }

    proof fn write_model_ok(&self, addr: Addr, val: u8) {
    }

    proof fn chr_model_ok(&self) {
    }

    fn read(&mut self, address: Addr) -> (r: Result<u8, DeferredRead>) {
        if address <= 0x1fff {
            Ok(self.chr_rom[address as usize])
        } else if address <= 0x3eff {
            let mirrored: usize = (address % 0x1000) as usize;
            let sub = mirrored % 0x400;
            if ((mirrored >> self.mirror_bit) & 1) == 1 {
                Err(DeferredRead::VRAM(sub + 0x400))
            } else {
                Err(DeferredRead::VRAM(sub))
            }
        } else if address <= 0x5fff {
            Ok(0)
        } else if address <= 0x7fff {
            Ok(self.prg_ram[(address - 0x6000) as usize])
        } else if address <= 0xbfff {
            Ok(self.prg_rom[(address - 0x8000) as usize])
        } else if self.prg_rom_size == 0x4000 {
            Ok(self.prg_rom[(address - 0xc000) as usize])
        } else {
            Ok(self.prg_rom[(address - 0x8000) as usize])
        }
    }

    fn write(&mut self, address: Addr, val: u8) -> (r: Option<DeferredWrite>) {
        if 0x6000 <= address && address <= 0x7fff {
            self.prg_ram[(address - 0x6000) as usize] = val;
            None
        } else if 0x2000 <= address && address <= 0x3eff {
            let mirrored: usize = (address % 0x1000) as usize;
            // The address into a single nametable.
            let sub = mirrored % 0x400;
            // True iff nametable B is being accessed.
            let use_b = ((mirrored >> self.mirror_bit) & 1) == 1;
            let fin: usize = if use_b {
                sub + 0x400
            } else {
                sub
            };
            Some(DeferredWrite::VRAM(fin, val))
        } else {
            None
        }
    }

    fn chr(&self) -> (r: Option<Vec<u8>>) {
        Some(self.chr_rom.clone())
    }
}

impl INesMapper {
    /// Builds the cartridge a decoded header names: mapper 0 becomes NROM;
    /// any other mapper number is rejected.
    pub fn try_decode(header: &INesHeader, data: &Vec<u8>) -> (r: Result<INesMapper, DecodeError>)
        ensures
            header.mapper_num != 0 ==> r is Err,
            header.mapper_num == 0 ==> match r {
                Ok(m) => m matches INesMapper::NROM(c) && nrom_new_post(
                    *header,
                    data@,
                    Ok::<NROM, DecodeError>(c),
                ),
                Err(e) => nrom_new_post(*header, data@, Err::<NROM, DecodeError>(e)),
            },
    {
        match header.mapper_num {
            0 => {
                match NROM::new(header, data) {
                    Ok(c) => Ok(INesMapper::NROM(c)),
                    Err(e) => Err(e),
                }
            },
            _ => Err(DecodeError),
        }
    }
}

impl Cart for INesMapper {
    open spec fn inv(&self) -> bool {
        match *self {
            INesMapper::NROM(c) => c.inv(),
        }
    }

    open spec fn read_model(&self, addr: Addr) -> Result<u8, DeferredRead> {
        match *self {
            INesMapper::NROM(c) => c.read_model(addr),
        }
    }

    open spec fn write_read_model(&self, waddr: Addr, val: u8, raddr: Addr) -> Result<
        u8,
        DeferredRead,
    > {
        match *self {
            INesMapper::NROM(c) => c.write_read_model(waddr, val, raddr),
        }
    }

    open spec fn write_token(&self, addr: Addr, val: u8) -> Option<DeferredWrite> {
        match *self {
            INesMapper::NROM(c) => c.write_token(addr, val),
        }
    }

    open spec fn chr_model(&self) -> Option<Seq<u8>> {
        match *self {
            INesMapper::NROM(c) => c.chr_model(),
        }
    }

    proof fn read_model_ok(&self, addr: Addr) {
        match *self {
            INesMapper::NROM(c) => c.read_model_ok(addr),
        }
    }

    proof fn write_model_ok(&self, addr: Addr, val: u8) {
        match *self {
            INesMapper::NROM(c) => c.write_model_ok(addr, val),
        }
    }

    proof fn chr_model_ok(&self) {
        match *self {
            INesMapper::NROM(c) => c.chr_model_ok(),
        }
    }

    fn read(&mut self, address: Addr) -> (r: Result<u8, DeferredRead>) {
        match self {
            INesMapper::NROM(c) => c.read(address),
        }
    }

    fn write(&mut self, address: Addr, val: u8) -> (r: Option<DeferredWrite>) {
        match self {
            INesMapper::NROM(c) => c.write(address, val),
        }
    }

    fn chr(&self) -> (r: Option<Vec<u8>>) {
        match self {
            INesMapper::NROM(c) => c.chr(),
        }
    }
}

} // verus!
