//! NROM (mapper 0) cartridge devices: a PRG ROM window at `$8000-$FFFF`
//! (mirrored when the ROM is a single 16 KiB bank), optional 8 KiB of PRG
//! RAM at `$6000-$7FFF`, and an 8 KiB CHR ROM window for the PPU bus.

use vstd::prelude::*;

use crate::Address;
use crate::AddressMask;
use crate::devices::BusDevice;
use crate::famicom::rom::NametableLayout;
use crate::famicom::rom::RomImage;
use crate::lemma_window_constants;

verus! {

/// The PRG ROM window: `$8000-$FFFF`, mirrored down to the ROM size.
pub open spec fn prg_rom_window(mirror_mask: u16) -> AddressMask {
    AddressMask { start_address: Address(0x8000), address_mask: 0x8000, mirror_mask }
}

/// The PRG RAM window: `$6000-$7FFF`.
pub open spec fn prg_ram_window() -> AddressMask {
    AddressMask { start_address: Address(0x6000), address_mask: 0xE000, mirror_mask: 0x1FFF }
}

/// The CHR ROM window on the PPU bus: `$0000-$1FFF`.
pub open spec fn chr_rom_window() -> AddressMask {
    AddressMask { start_address: Address(0), address_mask: 0xE000, mirror_mask: 0x1FFF }
}

/// Builds the cartridge devices of a decoded image; only NROM is carried.
pub fn mapper_from(rom_image: &RomImage) -> (r: (NromPrgMapper, NromChrMapper))
    requires
        rom_image.mapper == 0,
        rom_image.prg_ram_size == 0,
        rom_image.prg_rom@.len() == 16384 || rom_image.prg_rom@.len() == 32768,
        rom_image.chr_rom@.len() == 8192,
    ensures
        r.0.wf_prg(),
        r.1.wf_chr(),
        r.0.rom_model() == rom_image.prg_rom@,
        r.1.rom_model() == rom_image.chr_rom@,
        !r.0.has_ram(),
        r.0.rom_mirror_mask() == (if rom_image.prg_rom@.len() > 16384 {
            0x7FFFu16
        } else {
            0x3FFFu16
        }),
{
    (NromPrgMapper::new(rom_image), NromChrMapper::new(rom_image))
}

/// The CPU-side NROM device: PRG ROM, and PRG RAM when fitted.
pub struct NromPrgMapper {
    prg_ram_map: Option<AddressMask>,
    prg_ram: Vec<u8>,
    prg_rom_map: AddressMask,
    prg_rom: Vec<u8>,
    nametable_layout: NametableLayout,
}

impl NromPrgMapper {
    /// The ROM bytes behind the window.
    pub closed spec fn rom_model(self) -> Seq<u8> {
        self.prg_rom@
    }

    /// The RAM bytes, when PRG RAM is fitted.
    pub closed spec fn ram_model(self) -> Seq<u8> {
        self.prg_ram@
    }

    /// Whether PRG RAM is fitted.
    pub closed spec fn has_ram(self) -> bool {
        self.prg_ram_map is Some
    }

    /// The mirror mask of the PRG ROM window: the address bits that
    /// actually select a ROM byte.
    pub closed spec fn rom_mirror_mask(self) -> u16 {
        self.prg_rom_map.mirror_mask
    }

    /// The windows decode their documented ranges and fit their storage.
    pub closed spec fn wf_prg(self) -> bool {
        &&& (self.prg_rom_map == prg_rom_window(0x3FFF) || self.prg_rom_map == prg_rom_window(0x7FFF))
        &&& (self.prg_rom_map.mirror_mask as int) < self.prg_rom@.len()
        &&& (self.prg_ram_map matches Some(m) ==> m == prg_ram_window() && self.prg_ram@.len() == 8192)
    }

    /// A PRG device without RAM, mirroring a single 16 KiB bank.
    pub fn new(rom_image: &RomImage) -> (r: Self)
        requires
            rom_image.prg_ram_size == 0,
            rom_image.prg_rom@.len() == 16384 || rom_image.prg_rom@.len() == 32768,
        ensures
            r.wf_prg(),
            !r.has_ram(),
            r.rom_model() == rom_image.prg_rom@,
            r.rom_mirror_mask() == (if rom_image.prg_rom@.len() > 16384 {
                0x7FFFu16
            } else {
                0x3FFFu16
            }),
    {
        let mirror_bits: u8 = if rom_image.prg_rom.len() > 16384 { 0 } else { 1 };
        proof {
            lemma_window_constants();
        }
        Self {
            prg_ram_map: None,
            prg_ram: Vec::new(),
            prg_rom_map: AddressMask::from_block(Address(0x8000), 1, mirror_bits),
            prg_rom: rom_image.prg_rom.clone(),
            nametable_layout: rom_image.nametable_layout,
        }
    }

    /// A PRG device with 8 KiB of PRG RAM at `$6000`.
    pub fn new_with_ram(rom_image: &RomImage) -> (r: Self)
        requires
            rom_image.prg_rom@.len() == 16384 || rom_image.prg_rom@.len() == 32768,
        ensures
            r.wf_prg(),
            r.has_ram(),
            r.rom_model() == rom_image.prg_rom@,
            r.ram_model() == Seq::<u8>::new(8192, |i: int| 0u8),
            r.rom_mirror_mask() == (if rom_image.prg_rom@.len() > 16384 {
                0x7FFFu16
            } else {
                0x3FFFu16
            }),
    {
        let mirror_bits: u8 = if rom_image.prg_rom.len() > 16384 { 0 } else { 1 };
        proof {
            lemma_window_constants();
        }
        let r = Self {
            prg_ram_map: Some(AddressMask::from_block(Address(0x6000), 3, 0)),
            prg_ram: vec![0u8; 8192],
            prg_rom_map: AddressMask::from_block(Address(0x8000), 1, mirror_bits),
            prg_rom: rom_image.prg_rom.clone(),
            nametable_layout: rom_image.nametable_layout,
        };
        proof {
            assert(r.prg_ram@ =~= Seq::<u8>::new(8192, |i: int| 0u8));
        }
        r
    }
}

impl BusDevice for NromPrgMapper {
    open spec fn wf(&self) -> bool {
        self.wf_prg()
    }

    open spec fn claims(&self, address: Address) -> bool {
        self.prg_rom_window_matches(address)
            || (self.has_ram() && prg_ram_window().spec_matches(address))
    }

    open spec fn captures(&self, address: Address) -> bool {
        self.has_ram() && prg_ram_window().spec_matches(address)
    }

    fn read(&mut self, address: Address) -> (r: Option<u8>)
        ensures
            old(self).prg_rom_window_matches(address) ==> (r matches Some(v)
                && v == old(self).rom_byte(address)),
            (!old(self).prg_rom_window_matches(address) && old(self).has_ram()
                && prg_ram_window().spec_matches(address)) ==> r
                == Some(old(self).ram_model()[prg_ram_window().spec_offset(address) as int]),
            (!old(self).prg_rom_window_matches(address)
                && !(old(self).has_ram() && prg_ram_window().spec_matches(address)))
                ==> r is None,
            *final(self) == *old(self),
    {
        match self.prg_rom_map.remap(address) {
            Some(prg_address) => Some(self.prg_rom[prg_address]),
            None => match &self.prg_ram_map {
                Some(map) => match map.remap(address) {
                    Some(ram_address) => Some(self.prg_ram[ram_address]),
                    None => None,
                },
                None => None,
            },
        }
    }

    fn write(&mut self, address: Address, data: u8) -> (r: bool)
        ensures
            final(self).rom_model() == old(self).rom_model(),
            final(self).has_ram() == old(self).has_ram(),
            r == (old(self).has_ram() && prg_ram_window().spec_matches(address)),
            r ==> final(self).ram_model() == old(self).ram_model().update(
                prg_ram_window().spec_offset(address) as int,
                data,
            ),
            !r ==> final(self).ram_model() == old(self).ram_model(),
    {
        let captured = match &self.prg_ram_map {
            Some(map) => map.remap(address),
            None => None,
        };
        match captured {
            Some(ram_offset) => {
                self.prg_ram[ram_offset] = data;
                true
            },
            None => false,
        }
    }
}

impl NromPrgMapper {
    /// Whether the ROM window decodes this address.
    pub closed spec fn prg_rom_window_matches(self, address: Address) -> bool {
        self.prg_rom_map.spec_matches(address)
    }

    /// The ROM byte the window hands out for this address.
    pub closed spec fn rom_byte(self, address: Address) -> u8 {
        self.prg_rom@[self.prg_rom_map.spec_offset(address) as int]
    }

    /// The concrete shape of a consistent PRG ROM window: it decodes
    /// exactly the addresses from `$8000` up, its mirror width is one or
    /// two 16 KiB banks and stays inside the ROM, and the byte handed out
    /// is the ROM byte at the address masked down to the mirror width.
    pub proof fn lemma_prg_window_concrete(self, address: Address)
        requires
            self.wf_prg(),
        ensures
            self.prg_rom_window_matches(address) <==> address.0 >= 0x8000,
            self.rom_mirror_mask() == 0x3FFF || self.rom_mirror_mask() == 0x7FFF,
            (self.rom_mirror_mask() as int) < self.rom_model().len(),
            self.rom_byte(address)
                == self.rom_model()[(address.0 & self.rom_mirror_mask()) as int],
    {
        let a = address.0;
        assert((0x8000u16 & a == 0x8000u16) <==> a >= 0x8000) by (bit_vector);
    }
}

/// The PPU-side NROM device: a fixed 8 KiB CHR ROM bank.
pub struct NromChrMapper {
    chr_rom: Vec<u8>,
    chr_rom_mask: AddressMask,
}

impl NromChrMapper {
    /// The ROM bytes behind the window.
    pub closed spec fn rom_model(self) -> Seq<u8> {
        self.chr_rom@
    }

    /// The window decodes the pattern-table range and fits the bank.
    pub closed spec fn wf_chr(self) -> bool {
        &&& self.chr_rom_mask == chr_rom_window()
        &&& self.chr_rom@.len() == 8192
    }

    /// A CHR device over the image's single 8 KiB bank.
    pub fn new(rom_image: &RomImage) -> (r: Self)
        requires
            rom_image.chr_rom@.len() == 8192,
        ensures
            r.wf_chr(),
            r.rom_model() == rom_image.chr_rom@,
    {
        proof {
            lemma_window_constants();
        }
        Self {
            chr_rom: rom_image.chr_rom.clone(),
            chr_rom_mask: AddressMask::from_block(Address(0), 3, 0),
        }
    }
}

impl BusDevice for NromChrMapper {
    open spec fn wf(&self) -> bool {
        self.wf_chr()
    }

    open spec fn claims(&self, address: Address) -> bool {
        chr_rom_window().spec_matches(address)
    }

    open spec fn captures(&self, address: Address) -> bool {
        chr_rom_window().spec_matches(address)
    }

    fn read(&mut self, address: Address) -> (r: Option<u8>)
        ensures
            r == if chr_rom_window().spec_matches(address) {
                Some(old(self).rom_model()[chr_rom_window().spec_offset(address) as int])
            } else {
                None::<u8>
            },
            *final(self) == *old(self),
    {
        match self.chr_rom_mask.remap(address) {
            Some(chr_address) => Some(self.chr_rom[chr_address]),
            None => None,
        }
    }

    fn write(&mut self, address: Address, _data: u8) -> (r: bool)
        ensures
            r == chr_rom_window().spec_matches(address),
            *final(self) == *old(self),
    {
        match self.chr_rom_mask.remap(address) {
            Some(_) => true,
            None => false,
        }
    }
}

} // verus!
