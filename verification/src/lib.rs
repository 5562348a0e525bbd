//! Cycle-accurate RP2A03 (6502 without decimal mode) CPU core and the
//! system-bus fabric of a Famicom-style console.
//!
//! The heart of the crate is a data-driven microcode engine: every
//! instruction is decomposed into a queue of single-bus-cycle steps, so the
//! per-cycle read/write behaviour of the real chip (dummy reads, page-cross
//! fix-ups, branch timing, the indirect-JMP page-wrap bug) is preserved and
//! stated in the contracts.

use vstd::prelude::*;

pub mod devices;
pub mod famicom;
pub mod isa6502;

verus! {

/// A 16-bit bus address, viewed as a high byte (the page) and a low byte.
#[derive(Clone, Copy, PartialEq, Eq, Structural, Debug)]
pub struct Address(pub u16);

/// The 16-bit value obtained by joining a high and a low byte.
pub open spec fn addr_join(high: u8, low: u8) -> u16 {
    ((high as int) * 256 + (low as int)) as u16
}

/// The page (high byte) of a 16-bit value.
pub open spec fn addr_high(a: u16) -> u8 {
    (a as int / 256) as u8
}

/// The offset within the page (low byte) of a 16-bit value.
pub open spec fn addr_low(a: u16) -> u8 {
    (a as int % 256) as u8
}

proof fn lemma_join_parts(high: u8, low: u8)
    ensures
        addr_join(high, low) == ((high as u16) << 8) | (low as u16),
        addr_high(addr_join(high, low)) == high,
        addr_low(addr_join(high, low)) == low,
{
    assert(((high as u16) << 8) | (low as u16) == (high as int) * 256 + (low as int)
        && (((high as int) * 256 + (low as int)) as u16 as int) / 256 == high as int
        && (((high as int) * 256 + (low as int)) as u16 as int) % 256 == low as int)
        by (bit_vector);
}

proof fn lemma_split_fields(a: u16)
    ensures
        addr_high(a) == ((a & 0xff00) >> 8) as u8,
        addr_low(a) == (a & 0xff) as u8,
        addr_join(addr_high(a), addr_low(a)) == a,
{
    assert((a & 0xff00) >> 8 == a as int / 256 && (a & 0xff) == a as int % 256
        && (a as int / 256) * 256 + a as int % 256 == a as int) by (bit_vector);
}

proof fn lemma_set_parts(a: u16, b: u8)
    ensures
        (a & 0x00ff) | ((b as u16) << 8) == addr_join(b, addr_low(a)),
        (a & 0xff00) | (b as u16) == addr_join(addr_high(a), b),
{
    assert((a & 0x00ff) | ((b as u16) << 8) == (b as int) * 256 + (a as int % 256)
        && (a & 0xff00) | (b as u16) == (a as int / 256) * 256 + (b as int)) by (bit_vector);
}

impl Address {
    /// Joins a page byte and an offset byte into an address.
    pub fn new(high: u8, low: u8) -> (r: Address)
        ensures
            r.0 == addr_join(high, low),
    {
        proof { lemma_join_parts(high, low); }
        Address(((high as u16) << 8) | (low as u16))
    }

    /// The page this address falls in.
    pub fn high(&self) -> (r: u8)
        ensures
            r == addr_high(self.0),
    {
        proof { lemma_split_fields(self.0); }
        ((self.0 & 0xff00) >> 8) as u8
    }

    /// The offset of this address within its page.
    pub fn low(&self) -> (r: u8)
        ensures
            r == addr_low(self.0),
    {
        proof { lemma_split_fields(self.0); }
        (self.0 & 0xff) as u8
    }

    /// Replaces the page, keeping the low byte.
    pub fn set_high(&mut self, high: u8)
        ensures
            final(self).0 == addr_join(high, addr_low(old(self).0)),
    {
        proof { lemma_set_parts(self.0, high); }
        self.0 = (self.0 & 0x00ff) | ((high as u16) << 8);
    }

    /// Replaces the low byte, keeping the page.
    pub fn set_low(&mut self, low: u8)
        ensures
            final(self).0 == addr_join(addr_high(old(self).0), low),
    {
        proof { lemma_set_parts(self.0, low); }
        self.0 = (self.0 & 0xff00) | (low as u16);
    }

    /// Advances by one with 16-bit wrap-around.
    pub fn increment(&mut self)
        ensures
            final(self).0 == ((old(self).0 as int + 1) % 0x10000) as u16,
    {
        self.0 = self.0.wrapping_add(1);
    }

    /// Indexes within the current page: the low byte wraps, the high byte is
    /// never altered.  This models the 6502's zero-page indexing and its
    /// page-cross quirks.
    pub fn index(&self, index: u8) -> (r: Address)
        ensures
            r.0 == addr_join(addr_high(self.0), ((addr_low(self.0) as int + index as int) % 256) as u8),
            addr_high(r.0) == addr_high(self.0),
    {
        let r = Address::new(self.high(), self.low().wrapping_add(index));
        proof { lemma_join_parts(addr_high(self.0), ((addr_low(self.0) as int + index as int) % 256) as u8); }
        r
    }

    /// Adds a signed displacement with full 16-bit wrap-around.
    pub fn offset(&mut self, offset: i8)
        ensures
            final(self).0 == ((old(self).0 as int + offset as int) % 0x10000) as u16,
    {
        self.0 = self.0.wrapping_add_signed(offset as i16);
    }

    /// Adds an unsigned byte with full 16-bit wrap-around: unlike `index`,
    /// the carry propagates into the high byte.
    pub fn add(self, rhs: u8) -> (r: Address)
        ensures
            r.0 == ((self.0 as int + rhs as int) % 0x10000) as u16,
    {
        Address(self.0.wrapping_add(rhs as u16))
    }
}

impl Default for Address {
    /// The all-zero address.
    fn default() -> (r: Self)
        ensures
            r.0 == 0,
    {
        Address(0)
    }
}

/// Address arithmetic never touches the page on `index`: the high byte of
/// `a.index(i)` equals the high byte of `a`, for every address and index.
pub proof fn lemma_index_preserves_high(a: u16, i: u8)
    ensures
        addr_high(addr_join(addr_high(a), ((addr_low(a) as int + i as int) % 256) as u8)) == addr_high(a),
{
    lemma_join_parts(addr_high(a), ((addr_low(a) as int + i as int) % 256) as u8);
}

/// The full 16-bit add carries into the high byte exactly when the low-byte
/// sum overflows: the page of `a + i` is `high(a) + 1 (mod 256)` on a carry
/// and `high(a)` otherwise.
pub proof fn lemma_add_carries(a: u16, i: u8)
    ensures
        addr_low(((a as int + i as int) % 0x10000) as u16)
            == ((addr_low(a) as int + i as int) % 256) as u8,
        addr_high(((a as int + i as int) % 0x10000) as u16)
            == if addr_low(a) as int + i as int >= 256 {
                ((addr_high(a) as int + 1) % 256) as u8
            } else {
                addr_high(a)
            },
{
    let s = ((a as int + i as int) % 0x10000) as u16;
    assert((s as int) % 256 == (a as int % 256 + i as int) % 256
        && (a as int % 256 + i as int >= 256 ==> (s as int) / 256 == ((a as int) / 256 + 1) % 256)
        && (a as int % 256 + (i as int) < 256 ==> (s as int) / 256 == (a as int) / 256)) by (bit_vector)
        requires s == ((a as int + i as int) % 0x10000) as u16;
}

/// A decoded device window: `start_address` gives the fixed high bits
/// selected by `address_mask`, and `mirror_mask` keeps the low bits that
/// actually address storage, so a small store repeats over a larger range.
#[derive(Clone, Copy, PartialEq, Eq, Structural, Debug)]
pub struct AddressMask {
    pub start_address: Address,
    pub address_mask: u16,
    pub mirror_mask: u16,
}

impl AddressMask {
    /// The two masks select disjoint bit ranges.
    pub open spec fn wf(self) -> bool {
        self.address_mask & self.mirror_mask == 0
        && self.start_address.0 & self.address_mask == self.start_address.0
    }

    /// Builds the window that starts at `start_address`, matches on the high
    /// `prefix_bits` bits and mirrors a storage of `16 - prefix_bits -
    /// mirror_bits` address bits.
    pub fn from_block(start_address: Address, prefix_bits: u8, mirror_bits: u8) -> (r: Self)
        requires
            prefix_bits as int + (mirror_bits as int) < 16,
            start_address.0 & !(0xffffu16 >> prefix_bits) == start_address.0,
        ensures
            r.start_address == start_address,
            r.address_mask == !(0xffffu16 >> prefix_bits),
            r.mirror_mask == 0xffffu16 >> ((prefix_bits + mirror_bits) as u16),
            r.wf(),
    {
        let r = Self {
            start_address,
            address_mask: !(0xffffu16 >> prefix_bits),
            mirror_mask: 0xffffu16 >> ((prefix_bits + mirror_bits) as u16),
        };
        proof {
            let p = prefix_bits;
            let m = mirror_bits;
            assert(!(0xffffu16 >> p) & (0xffffu16 >> ((p + m) as u16)) == 0) by (bit_vector)
                requires p as int + (m as int) < 16;
        }
        r
    }

    /// Whether `address` falls inside this window.
    pub open spec fn spec_matches(self, address: Address) -> bool {
        self.address_mask & address.0 == self.start_address.0
    }

    /// The storage offset that `address` mirrors to.
    pub open spec fn spec_offset(self, address: Address) -> usize {
        (address.0 & self.mirror_mask) as usize
    }

    /// Decodes an address against this window: the offset of the mirrored
    /// storage byte when the high bits match, and nothing otherwise.
    pub fn remap(&self, address: Address) -> (r: Option<usize>)
        ensures
            r == if self.spec_matches(address) {
                Some(self.spec_offset(address))
            } else {
                None::<usize>
            },
            r matches Some(off) ==> off <= self.mirror_mask as usize,
    {
        proof {
            let a = address.0;
            let m = self.mirror_mask;
            assert((a & m) <= m) by (bit_vector);
        }
        if self.address_mask & address.0 == self.start_address.0 {
            Some((address.0 & self.mirror_mask) as usize)
        } else {
            None
        }
    }
}

/// The bit-level facts behind the console's device windows: which start
/// addresses sit on their prefix boundaries, and the widths the mirror
/// masks come out to.
pub proof fn lemma_window_constants()
    ensures
        0u16 & !(0xffffu16 >> 0) == 0,
        0u16 & !(0xffffu16 >> 3) == 0,
        0x2000u16 & !(0xffffu16 >> 3) == 0x2000,
        0x4000u16 & !(0xffffu16 >> 11) == 0x4000,
        0x6000u16 & !(0xffffu16 >> 3) == 0x6000,
        0x8000u16 & !(0xffffu16 >> 1) == 0x8000,
        !(0xffffu16 >> 0) == 0,
        !(0xffffu16 >> 1) == 0x8000,
        !(0xffffu16 >> 3) == 0xE000,
        !(0xffffu16 >> 11) == 0xFFE0,
        0xffffu16 >> 0 == 0xffff,
        0xffffu16 >> 1 == 0x7fff,
        0xffffu16 >> 2 == 0x3fff,
        0xffffu16 >> 3 == 0x1fff,
        0xffffu16 >> 5 == 0x07ff,
        0xffffu16 >> 11 == 0x001f,
        0xffffu16 >> 13 == 0x0007,
{
    assert(0u16 & !(0xffffu16 >> 0) == 0
        && 0u16 & !(0xffffu16 >> 3) == 0
        && 0x2000u16 & !(0xffffu16 >> 3) == 0x2000
        && 0x4000u16 & !(0xffffu16 >> 11) == 0x4000
        && 0x6000u16 & !(0xffffu16 >> 3) == 0x6000
        && 0x8000u16 & !(0xffffu16 >> 1) == 0x8000
        && !(0xffffu16 >> 0) == 0
        && !(0xffffu16 >> 1) == 0x8000
        && !(0xffffu16 >> 3) == 0xE000
        && !(0xffffu16 >> 11) == 0xFFE0
        && 0xffffu16 >> 0 == 0xffff
        && 0xffffu16 >> 1 == 0x7fff
        && 0xffffu16 >> 2 == 0x3fff
        && 0xffffu16 >> 3 == 0x1fff
        && 0xffffu16 >> 5 == 0x07ff
        && 0xffffu16 >> 11 == 0x001f
        && 0xffffu16 >> 13 == 0x0007) by (bit_vector);
}

/// The CPU-facing bus contract: one call is one emulated bus cycle and every
/// access resolves immediately.
pub trait Bus {
    /// The fabric's internal consistency condition.
    spec fn wf(&self) -> bool;

    /// Places an address on the bus and returns the byte driven in response.
    fn read(&mut self, address: Address) -> (r: u8)
        requires
            old(self).wf(),
        ensures
            final(self).wf(),
    ;

    /// Places an address and a data byte on the bus.
    fn write(&mut self, address: Address, data: u8)
        requires
            old(self).wf(),
        ensures
            final(self).wf(),
    ;
}

/// Scaling a byte count to kibibytes.
pub trait ByteUnits where Self: core::marker::Sized {
    /// Whether the scaled count stays within the type's range.
    spec fn kib_fits(self) -> bool;

    /// The scaled count.
    spec fn kib_value(self) -> Self;

    /// Scales this count of kibibytes to bytes.
    #[allow(non_snake_case)]
    fn KiB(self) -> (r: Self)
        requires
            self.kib_fits(),
        ensures
            r == self.kib_value(),
    ;
}

impl ByteUnits for usize {
    open spec fn kib_fits(self) -> bool {
        self * 1024 <= usize::MAX
    }

    open spec fn kib_value(self) -> usize {
        (self * 1024) as usize
    }

    #[allow(non_snake_case)]
    fn KiB(self) -> (r: usize) {
        self * 1024
    }
}

/// The master-clock ticks a wall-clock pacer still owes: the ticks the
/// elapsed time amounts to (saturating at the counter's top), less those
/// already delivered, never negative.
pub fn catchup_ticks(elapsed_ms: u64, ticks_per_ms: u64, delivered: u64) -> (r: u64)
    ensures
        r as int == ({
            let owed = if elapsed_ms as int * ticks_per_ms as int > u64::MAX as int {
                u64::MAX as int
            } else {
                elapsed_ms as int * ticks_per_ms as int
            };
            if owed > delivered as int {
                owed - delivered as int
            } else {
                0
            }
        }),
{
    let owed = match elapsed_ms.checked_mul(ticks_per_ms) {
        Some(total) => total,
        None => u64::MAX,
    };
    owed.saturating_sub(delivered)
}

/// A processor joined to the bus it drives: the single-threaded synchronous
/// heart of the console.
pub struct System<CPU, BUS> {
    pub cpu: CPU,
    pub bus: BUS,
}

impl<CPU: isa6502::Cpu<BUS>, BUS: Bus> System<CPU, BUS> {
    /// The system is consistent when its processor and bus are.
    pub open spec fn wf(self) -> bool {
        self.cpu.wf() && self.bus.wf()
    }

    /// Joins a processor and a bus.
    pub fn new(cpu: CPU, bus: BUS) -> (r: Self)
        requires
            cpu.wf(),
            bus.wf(),
        ensures
            r.wf(),
            r.cpu == cpu,
            r.bus == bus,
    {
        Self { cpu, bus }
    }

    /// Advances the system one master-clock tick: the processor's tick
    /// counter moves by exactly one, and on a tick that carries no bus
    /// cycle the bus is untouched.
    pub fn clock_pulse(&mut self)
        requires
            old(self).wf(),
        ensures
            final(self).wf(),
            final(self).cpu.spec_ticks() as int
                == (old(self).cpu.spec_ticks() as int + 1) % 0x1_0000_0000_0000_0000,
            final(self).cpu.spec_ticks() as int % CPU::clock_divisor() != 0
                ==> final(self).bus == old(self).bus,
    {
        self.cpu.cycle(&mut self.bus);
    }
}

} // verus!
