//! Address arithmetic, window decoding and bus fan-out checks.

use nescore::devices::RamBank;
use nescore::famicom::rom::ntsc_system;
use nescore::famicom::{SystemBus, RP2A03};
use nescore::{Address, AddressMask, Bus, System};

type Console = System<RP2A03, SystemBus<RamBank<32768>, RamBank<8192>>>;

fn empty_console() -> Console {
    let prg: RamBank<32768> = RamBank::new(AddressMask::from_block(Address(0x8000), 1, 0));
    let chr: RamBank<8192> = RamBank::new(AddressMask::from_block(Address(0), 3, 0));
    ntsc_system(prg, chr)
}

#[test]
fn catchup_ticks_owes_the_difference() {
    assert_eq!(nescore::catchup_ticks(0, 21477, 0), 0);
    assert_eq!(nescore::catchup_ticks(10, 21477, 0), 214770);
    assert_eq!(nescore::catchup_ticks(10, 21477, 214000), 770);
    // Never negative: more delivered than owed yields zero.
    assert_eq!(nescore::catchup_ticks(10, 21477, 300000), 0);
    // The owed total saturates instead of overflowing.
    assert_eq!(nescore::catchup_ticks(u64::MAX, 2, 5), u64::MAX - 5);
}

#[test]
fn address_parts() {
    let a = Address::new(0x12, 0x34);
    assert_eq!(a.0, 0x1234);
    assert_eq!(a.high(), 0x12);
    assert_eq!(a.low(), 0x34);
    let mut b = a;
    b.set_high(0xFF);
    assert_eq!(b.0, 0xFF34);
    b.set_low(0x00);
    assert_eq!(b.0, 0xFF00);
}

#[test]
fn address_index_never_touches_the_page() {
    // index wraps within the page; add carries across it.
    let a = Address(0x02FF);
    assert_eq!(a.index(1).0, 0x0200);
    assert_eq!(a.index(0x10).0, 0x020F);
    assert_eq!(a.add(1).0, 0x0300);
    assert_eq!(a.add(0x10).0, 0x030F);
    let top = Address(0xFFFF);
    assert_eq!(top.index(1).0, 0xFF00);
    assert_eq!(top.add(1).0, 0x0000);
}

#[test]
fn address_increment_and_offset_wrap() {
    let mut a = Address(0xFFFF);
    a.increment();
    assert_eq!(a.0, 0x0000);
    let mut b = Address(0x0100);
    b.offset(-1);
    assert_eq!(b.0, 0x00FF);
    let mut c = Address(0x0000);
    c.offset(-1);
    assert_eq!(c.0, 0xFFFF);
}

#[test]
fn mask_remap_mirrors() {
    // 2 KiB RAM window mirrored over $0000-$1FFF.
    let ram = AddressMask::from_block(Address(0), 3, 2);
    assert_eq!(ram.remap(Address(0x0000)), Some(0));
    assert_eq!(ram.remap(Address(0x0801)), Some(1));
    assert_eq!(ram.remap(Address(0x1FFF)), Some(0x07FF));
    assert_eq!(ram.remap(Address(0x2000)), None);

    // PPU registers mirror every eight bytes over $2000-$3FFF.
    let ppu = AddressMask::from_block(Address(0x2000), 3, 10);
    assert_eq!(ppu.remap(Address(0x2002)), Some(2));
    assert_eq!(ppu.remap(Address(0x3FFA)), Some(2));
    assert_eq!(ppu.remap(Address(0x4000)), None);

    // APU window $4000-$401F without mirroring.
    let apu = AddressMask::from_block(Address(0x4000), 11, 0);
    assert_eq!(apu.remap(Address(0x4015)), Some(0x15));
    assert_eq!(apu.remap(Address(0x4020)), None);
    assert_eq!(apu.remap(Address(0x3FFF)), None);
}

#[test]
fn ram_bank_read_write_through_mirror() {
    let mut bank: RamBank<2048> = RamBank::new(AddressMask::from_block(Address(0), 3, 2));
    assert!(bank.poke(Address(0x0005), 0x77));
    assert_eq!(bank.peek(Address(0x0005)), Some(0x77));
    assert_eq!(bank.peek(Address(0x0805)), Some(0x77));
    assert_eq!(bank.peek(Address(0x1805)), Some(0x77));
    assert_eq!(bank.peek(Address(0x2005)), None);
    assert!(!bank.poke(Address(0x2005), 0x12));
}

#[test]
fn system_bus_mirrors_ram() {
    let mut sys = empty_console();
    sys.bus.write(Address(0x0000), 0xAB);
    assert_eq!(sys.bus.read(Address(0x0800)), 0xAB);
    assert_eq!(sys.bus.read(Address(0x1000)), 0xAB);
    assert_eq!(sys.bus.read(Address(0x1800)), 0xAB);
}

#[test]
fn system_bus_open_bus_returns_last_latch() {
    // $4020-$7FFF is unmapped on this cartridge: reads echo the last
    // byte that was on the bus.
    let mut sys = empty_console();
    sys.bus.write(Address(0x0000), 0x5C);
    assert_eq!(sys.bus.read(Address(0x0000)), 0x5C);
    assert_eq!(sys.bus.read(Address(0x5000)), 0x5C);
    sys.bus.write(Address(0x5000), 0x99);
    assert_eq!(sys.bus.read(Address(0x5000)), 0x99);
    assert_eq!(sys.bus.read(Address(0x0000)), 0x5C);
}

#[test]
fn apu_window_reads_register_index() {
    let mut sys = empty_console();
    assert_eq!(sys.bus.read(Address(0x4005)), 0x05);
    assert_eq!(sys.bus.read(Address(0x4017)), 0x17);
}

#[test]
fn ppu_oam_write_and_read_back() {
    let mut sys = empty_console();
    // Set the OAM address, write two bytes (the address advances), then
    // read the first back through the mirrored register window.
    sys.bus.write(Address(0x2003), 0x10);
    sys.bus.write(Address(0x2004), 0xDE);
    sys.bus.write(Address(0x2004), 0xAD);
    sys.bus.write(Address(0x2003), 0x10);
    assert_eq!(sys.bus.read(Address(0x2004)), 0xDE);
    sys.bus.write(Address(0x3FFB), 0x11);
    assert_eq!(sys.bus.read(Address(0x200C)), 0xAD);
}

#[test]
fn ppu_status_read_mixes_latch_bits() {
    let mut sys = empty_console();
    // A register write leaves its byte in the PPU latch; the status read
    // returns the status bits over the latch's low five bits.
    sys.bus.write(Address(0x2000), 0x1F);
    assert_eq!(sys.bus.read(Address(0x2002)), 0x1F);
}

#[test]
fn ppu_vram_write_and_read_back() {
    let mut sys = empty_console();
    // Point the PPU address at $2005 of its own bus (nametable RAM),
    // write, re-point, and read back through $2007.
    sys.bus.write(Address(0x2006), 0x20);
    sys.bus.write(Address(0x2006), 0x05);
    sys.bus.write(Address(0x2007), 0x66);
    sys.bus.write(Address(0x2006), 0x20);
    sys.bus.write(Address(0x2006), 0x05);
    assert_eq!(sys.bus.read(Address(0x2007)), 0x66);
}
