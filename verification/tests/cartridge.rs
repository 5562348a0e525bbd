//! Cartridge image decoding and the NROM mapper devices.

use nescore::devices::BusDevice;
use nescore::famicom::mapper::{mapper_from, NromChrMapper, NromPrgMapper};
use nescore::famicom::rom::{NametableLayout, RomError, RomImage};
use nescore::Address;

/// A minimal iNES stream: `prg_units` 16 KiB PRG banks and one 8 KiB
/// CHR bank.
fn ines_bytes_sized(prg_units: u8, flags6: u8, flags7: u8) -> Vec<u8> {
    let mut data = vec![
        0x4E, 0x45, 0x53, 0x1A, prg_units, 1, flags6, flags7, 0, 0, 0, 0, 0, 0, 0, 0,
    ];
    for i in 0..(prg_units as usize * 16384) {
        data.push((i % 251) as u8);
    }
    for i in 0..8192usize {
        data.push((i % 241) as u8);
    }
    data
}

/// A minimal iNES stream: one 16 KiB PRG bank and one 8 KiB CHR bank.
fn ines_bytes(flags6: u8, flags7: u8) -> Vec<u8> {
    ines_bytes_sized(1, flags6, flags7)
}

#[test]
fn parse_ines_image() {
    let data = ines_bytes(0x01, 0x00);
    let img = RomImage::parse(&data).unwrap();
    assert_eq!(img.prg_rom.len(), 16384);
    assert_eq!(img.chr_rom.len(), 8192);
    assert_eq!(img.prg_rom[0], 0);
    assert_eq!(img.prg_rom[100], 100);
    assert_eq!(img.chr_rom[5], 5);
    assert_eq!(img.mapper, 0);
    assert_eq!(img.submapper, 0);
    assert_eq!(img.prg_ram_size, 0);
    assert_eq!(img.nametable_layout, NametableLayout::Horizontal);
}

#[test]
fn parse_reads_mapper_nibbles() {
    let data = ines_bytes(0x10, 0x30);
    let img = RomImage::parse(&data).unwrap();
    assert_eq!(img.mapper, 0x31);
    assert_eq!(img.nametable_layout, NametableLayout::Vertical);
}

#[test]
fn parse_nes2_image() {
    let mut data = ines_bytes(0x00, 0x08);
    data[8] = 0x21;
    let img = RomImage::parse(&data).unwrap();
    assert_eq!(img.mapper, 0x100);
    assert_eq!(img.submapper, 0x2);
    assert_eq!(img.prg_ram_size, 0);
}

#[test]
fn parse_rejects_short_stream() {
    let data = vec![0x4E, 0x45, 0x53];
    assert_eq!(RomImage::parse(&data), Err(RomError::TooShort));
}

#[test]
fn parse_rejects_truncated_body() {
    let mut data = ines_bytes(0x00, 0x00);
    data.truncate(5000);
    assert_eq!(RomImage::parse(&data), Err(RomError::TooShort));
}

#[test]
fn parse_rejects_bad_magic() {
    let mut data = ines_bytes(0x00, 0x00);
    data[3] = 0x00;
    assert_eq!(RomImage::parse(&data), Err(RomError::BadMagic));
}

#[test]
fn parse_rejects_trainer() {
    let data = ines_bytes(0x04, 0x00);
    assert_eq!(RomImage::parse(&data), Err(RomError::Unsupported));
}

#[test]
fn parse_rejects_unknown_version() {
    let data = ines_bytes(0x00, 0x04);
    assert_eq!(RomImage::parse(&data), Err(RomError::Unsupported));
}

#[test]
fn parse_rejects_nes2_wide_sizes() {
    let mut data = ines_bytes(0x00, 0x08);
    data[9] = 0x01;
    assert_eq!(RomImage::parse(&data), Err(RomError::Unsupported));
}

#[test]
fn prg_mapper_mirrors_a_single_bank() {
    let img = RomImage::parse(&ines_bytes(0x00, 0x00)).unwrap();
    let (mut prg, mut chr) = mapper_from(&img);
    assert_eq!(prg.read(Address(0x8000)), Some(img.prg_rom[0]));
    assert_eq!(prg.read(Address(0x8064)), Some(100));
    // A 16 KiB bank appears again in the upper half.
    assert_eq!(prg.read(Address(0xC064)), Some(100));
    assert_eq!(prg.read(Address(0x4020)), None);
    // NROM has no PRG RAM here: the write is not captured.
    assert!(!prg.write(Address(0x6000), 0x12));
    assert_eq!(chr.read(Address(0x0005)), Some(img.chr_rom[5]));
    assert_eq!(chr.read(Address(0x2005)), None);
}

#[test]
fn prg_mapper_32k_has_no_mirror() {
    let img = RomImage::parse(&ines_bytes_sized(2, 0x00, 0x00)).unwrap();
    assert_eq!(img.prg_rom.len(), 32768);
    let (mut prg, _chr) = mapper_from(&img);
    assert_eq!(prg.read(Address(0x8064)), Some(img.prg_rom[0x0064]));
    // The upper half is the second bank, not a mirror of the first.
    assert_eq!(prg.read(Address(0xC064)), Some(img.prg_rom[0x4064]));
    assert_eq!(prg.read(Address(0xFFFF)), Some(img.prg_rom[0x7FFF]));
}

#[test]
fn prg_mapper_with_ram_captures_writes() {
    let img = RomImage::parse(&ines_bytes(0x00, 0x00)).unwrap();
    let mut prg = NromPrgMapper::new_with_ram(&img);
    assert!(prg.write(Address(0x6000), 0x12));
    assert_eq!(prg.read(Address(0x6000)), Some(0x12));
    assert_eq!(prg.read(Address(0x8000)), Some(img.prg_rom[0]));
    assert!(!prg.write(Address(0x8000), 0x12));
}

#[test]
fn chr_mapper_swallows_writes_in_window() {
    let img = RomImage::parse(&ines_bytes(0x00, 0x00)).unwrap();
    let mut chr = NromChrMapper::new(&img);
    assert!(chr.write(Address(0x0005), 0x12));
    // ROM: the byte does not change.
    assert_eq!(chr.read(Address(0x0005)), Some(img.chr_rom[5]));
    assert!(!chr.write(Address(0x2005), 0x12));
}
