//! The iNES / NES 2.0 cartridge image format: a sixteen-byte header, then
//! PRG ROM in 16 KiB units and CHR ROM in 8 KiB units.  The decoder works
//! on plain bytes; reading the file belongs to the caller.

use vstd::prelude::*;

use crate::System;
use crate::Bus;
use crate::devices::BusDevice;
use crate::famicom::RP2A03;
use crate::famicom::SystemBus;
use crate::isa6502::Cpu;
use crate::isa6502::addressing::reset_steps;

verus! {

/// How the cartridge wires the nametable mirroring.
#[derive(Clone, Copy, PartialEq, Eq, Structural, Debug)]
pub enum NametableLayout {
    Vertical,
    Horizontal,
}

/// The layout selected by the low bit of the first flags byte.
pub open spec fn spec_layout(bit: u8) -> NametableLayout {
    if bit & 0x01 == 0 {
        NametableLayout::Vertical
    } else {
        NametableLayout::Horizontal
    }
}

impl NametableLayout {
    /// Decodes the mirroring bit.
    pub fn from_bits(bits: u8) -> (r: Self)
        ensures
            r == spec_layout(bits),
    {
        if bits & 0x01 == 0 {
            NametableLayout::Vertical
        } else {
            NametableLayout::Horizontal
        }
    }

    /// The mirroring bit of this layout.
    pub fn into_bits(self) -> (r: u8)
        ensures
            r == 0 <==> self == NametableLayout::Vertical,
            r == 1 <==> self == NametableLayout::Horizontal,
    {
        match self {
            NametableLayout::Vertical => 0,
            NametableLayout::Horizontal => 1,
        }
    }
}

/// Why a byte stream is not an acceptable cartridge image.
#[derive(Clone, Copy, PartialEq, Eq, Structural, Debug)]
pub enum RomError {
    /// The stream ends before the header, or before the ROM data the
    /// header promises.
    TooShort,
    /// The stream does not open with the `NES\x1A` magic.
    BadMagic,
    /// The header asks for something this decoder does not carry: a
    /// trainer, an unknown format version, or NES 2.0 sizes past one byte.
    Unsupported,
}

/// A decoded cartridge image.
#[derive(Clone, PartialEq, Eq, Debug)]
pub struct RomImage {
    pub prg_rom: Vec<u8>,
    pub chr_rom: Vec<u8>,
    pub prg_ram_size: usize,
    pub mapper: u16,
    pub submapper: u8,
    pub nametable_layout: NametableLayout,
}

/// The mathematical content of a decoded image.
#[verifier::ext_equal]
pub struct RomModel {
    pub prg_rom: Seq<u8>,
    pub chr_rom: Seq<u8>,
    pub prg_ram_size: int,
    pub mapper: u16,
    pub submapper: u8,
    pub nametable_layout: NametableLayout,
}

impl View for RomImage {
    type V = RomModel;

    open spec fn view(&self) -> RomModel {
        RomModel {
            prg_rom: self.prg_rom@,
            chr_rom: self.chr_rom@,
            prg_ram_size: self.prg_ram_size as int,
            mapper: self.mapper,
            submapper: self.submapper,
            nametable_layout: self.nametable_layout,
        }
    }
}

/// Whether the stream opens with the `NES\x1A` magic.
pub open spec fn has_magic(d: Seq<u8>) -> bool {
    d.len() >= 4 && d[0] == 0x4e && d[1] == 0x45 && d[2] == 0x53 && d[3] == 0x1a
}

/// The PRG ROM byte count the header promises.
pub open spec fn spec_prg_len(d: Seq<u8>) -> int {
    d[4] * 0x4000
}

/// The CHR ROM byte count the header promises.
pub open spec fn spec_chr_len(d: Seq<u8>) -> int {
    d[5] * 0x2000
}

/// The mapper number of a plain iNES header: a nibble from each flags
/// byte.
pub open spec fn spec_ines_mapper(d: Seq<u8>) -> u16 {
    ((d[7] & 0xf0) | (d[6] >> 4)) as u16
}

/// What decoding a plain iNES stream yields.
pub open spec fn spec_parse_ines(d: Seq<u8>) -> Result<RomModel, RomError> {
    if d.len() < 16 + spec_prg_len(d) + spec_chr_len(d) {
        Err(RomError::TooShort)
    } else {
        Ok(RomModel {
            prg_rom: d.subrange(16, 16 + spec_prg_len(d)),
            chr_rom: d.subrange(16 + spec_prg_len(d), 16 + spec_prg_len(d) + spec_chr_len(d)),
            prg_ram_size: d[8] * 0x2000,
            mapper: spec_ines_mapper(d),
            submapper: 0,
            nametable_layout: spec_layout(d[6]),
        })
    }
}

/// What decoding a NES 2.0 stream yields: the extra mapper nibble and the
/// submapper come from byte 8; sizes past one byte are not carried.
pub open spec fn spec_parse_nes2(d: Seq<u8>) -> Result<RomModel, RomError> {
    if d[9] != 0 {
        Err(RomError::Unsupported)
    } else if d.len() < 16 + spec_prg_len(d) + spec_chr_len(d) {
        Err(RomError::TooShort)
    } else {
        Ok(RomModel {
            prg_rom: d.subrange(16, 16 + spec_prg_len(d)),
            chr_rom: d.subrange(16 + spec_prg_len(d), 16 + spec_prg_len(d) + spec_chr_len(d)),
            prg_ram_size: 0,
            mapper: ((((d[8] & 0x0f) as u16) as int * 0x100) + spec_ines_mapper(d)) as u16,
            submapper: (d[8] >> 4) as u8,
            nametable_layout: spec_layout(d[6]),
        })
    }
}

/// What decoding any stream yields: the header checks in order, then the
/// format version's own rules.
pub open spec fn spec_parse(d: Seq<u8>) -> Result<RomModel, RomError> {
    if d.len() < 16 {
        Err(RomError::TooShort)
    } else if !has_magic(d) {
        Err(RomError::BadMagic)
    } else if d[6] & 0x04 != 0 {
        Err(RomError::Unsupported)
    } else if (d[7] >> 2) & 0x03 == 0 {
        spec_parse_ines(d)
    } else if (d[7] >> 2) & 0x03 == 2 {
        spec_parse_nes2(d)
    } else {
        Err(RomError::Unsupported)
    }
}

/// Copies `len` bytes of `data` starting at `start`.
fn copy_range(data: &Vec<u8>, start: usize, len: usize) -> (r: Vec<u8>)
    requires
        start + len <= data@.len(),
    ensures
        r@ == data@.subrange(start as int, start as int + len as int),
{
    let total = data.len();
    let mut r: Vec<u8> = Vec::new();
    let mut i: usize = 0;
    while i < len
        invariant
            i <= len,
            start + len <= total,
            total == data@.len(),
            r@ == data@.subrange(start as int, start as int + i as int),
        decreases len - i,
    {
        r.push(data[start + i]);
        proof {
            assert(r@ =~= data@.subrange(start as int, start as int + i as int + 1));
        }
        i = i + 1;
    }
    r
}

impl RomImage {
    /// Decodes a cartridge image from its raw bytes, accepting plain iNES
    /// and single-byte-size NES 2.0 streams.
    pub fn parse(data: &Vec<u8>) -> (r: Result<RomImage, RomError>)
        ensures
            (r matches Ok(img) ==> spec_parse(data@) == Ok::<RomModel, RomError>(img@)),
            (r matches Err(e) ==> spec_parse(data@) == Err::<RomModel, RomError>(e)),
    {
        if data.len() < 16 {
            return Err(RomError::TooShort);
        }
        if !(data[0] == 0x4e && data[1] == 0x45 && data[2] == 0x53 && data[3] == 0x1a) {
            return Err(RomError::BadMagic);
        }
        if data[6] & 0x04 != 0 {
            return Err(RomError::Unsupported);
        }
        let version = (data[7] >> 2) & 0x03;
        if version == 0 {
            Self::load_ines_image(data)
        } else if version == 2 {
            Self::load_nes2_image(data)
        } else {
            Err(RomError::Unsupported)
        }
    }

    /// Decodes the body of a plain iNES stream.
    pub fn load_ines_image(data: &Vec<u8>) -> (r: Result<RomImage, RomError>)
        requires
            data@.len() >= 16,
        ensures
            (r matches Ok(img) ==> spec_parse_ines(data@) == Ok::<RomModel, RomError>(img@)),
            (r matches Err(e) ==> spec_parse_ines(data@) == Err::<RomModel, RomError>(e)),
    {
        let prg_len: usize = (data[4] as usize) * 0x4000;
        let chr_len: usize = (data[5] as usize) * 0x2000;
        if data.len() < 16 + prg_len + chr_len {
            return Err(RomError::TooShort);
        }
        let prg_rom = copy_range(data, 16, prg_len);
        let chr_rom = copy_range(data, 16 + prg_len, chr_len);
        Ok(RomImage {
            prg_rom,
            chr_rom,
            prg_ram_size: (data[8] as usize) * 0x2000,
            mapper: ((data[7] & 0xf0) | (data[6] >> 4)) as u16,
            submapper: 0,
            nametable_layout: NametableLayout::from_bits(data[6]),
        })
    }

    /// Decodes the body of a NES 2.0 stream whose sizes fit in the base
    /// header bytes.
    pub fn load_nes2_image(data: &Vec<u8>) -> (r: Result<RomImage, RomError>)
        requires
            data@.len() >= 16,
        ensures
            (r matches Ok(img) ==> spec_parse_nes2(data@) == Ok::<RomModel, RomError>(img@)),
            (r matches Err(e) ==> spec_parse_nes2(data@) == Err::<RomModel, RomError>(e)),
    {
        let mapper_msb = data[8];
        if data[9] != 0 {
            return Err(RomError::Unsupported);
        }
        let prg_len: usize = (data[4] as usize) * 0x4000;
        let chr_len: usize = (data[5] as usize) * 0x2000;
        if data.len() < 16 + prg_len + chr_len {
            return Err(RomError::TooShort);
        }
        let prg_rom = copy_range(data, 16, prg_len);
        let chr_rom = copy_range(data, 16 + prg_len, chr_len);
        let base_mapper: u16 = ((data[7] & 0xf0) | (data[6] >> 4)) as u16;
        Ok(RomImage {
            prg_rom,
            chr_rom,
            prg_ram_size: 0,
            mapper: (((mapper_msb & 0x0f) as u16) * 0x100) + base_mapper,
            submapper: mapper_msb >> 4,
            nametable_layout: NametableLayout::from_bits(data[6]),
        })
    }
}

/// Joins a fresh NTSC-clocked core to the console bus over the given
/// cartridge mappers: the core sits at the start of its reset sequence
/// with cleared registers and a zero cycle count, and the internal RAM
/// is zero-filled.
pub fn ntsc_system<PrgMapper: BusDevice, ChrMapper: BusDevice>(
    prg_mapper: PrgMapper,
    chr_mapper: ChrMapper,
) -> (r: System<RP2A03, SystemBus<PrgMapper, ChrMapper>>)
    requires
        prg_mapper.wf(),
        chr_mapper.wf(),
    ensures
        r.wf(),
        r.cpu.inv(),
        r.cpu.snap().timing == reset_steps(),
        r.cpu.snap().registers.pc.0 == 0,
        r.cpu.snap().registers.a == 0,
        r.cpu.snap().registers.x == 0,
        r.cpu.snap().registers.y == 0,
        r.cpu.snap().registers.stack == 0,
        r.cpu.snap().registers.p.bits == 0x24,
        r.cpu.snap().opcode == 0,
        r.cpu.snap().data_latch == 0,
        r.cpu.spec_cycles() == 0,
        r.bus.wf_bus(),
        r.bus.spec_ram() == Seq::<u8>::new(2048, |i: int| 0u8),
{
    System::new(RP2A03::new(), SystemBus::new(prg_mapper, chr_mapper))
}

} // verus!
