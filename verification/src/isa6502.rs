//! Register file and status flags of the 6502 family, and the microcode
//! step vocabulary that the engine queues: each step names where its bus
//! address comes from and what happens before or after the bus transaction.

use vstd::prelude::*;

use crate::Address;
use crate::Bus;
use crate::isa6502::addressing::AddrSource;
use crate::isa6502::instructions::{ReadOp, RmwOp, WriteOp};

pub mod addressing;
pub mod instructions;

verus! {

/// Carry flag: unsigned overflow out of bit 7.
pub const FLAG_C: u8 = 0x01;
/// Zero flag: the last result was zero.
pub const FLAG_Z: u8 = 0x02;
/// Interrupt-disable flag.
pub const FLAG_I: u8 = 0x04;
/// Decimal flag (present but without effect on the RP2A03).
pub const FLAG_D: u8 = 0x08;
/// Break flag: only meaningful in the copy of P pushed on the stack.
pub const FLAG_B: u8 = 0x10;
/// Reserved bit: reads as 1 in the register.
pub const FLAG_RESERVED: u8 = 0x20;
/// Overflow flag: signed overflow of the last addition or subtraction.
pub const FLAG_V: u8 = 0x40;
/// Negative flag: bit 7 of the last result.
pub const FLAG_N: u8 = 0x80;
/// The bits of P that a stack pull restores: everything but B and Reserved.
pub const STACK_MASK: u8 = 0xCF;

/// Whether every bit of `mask` is set in `p`.
pub open spec fn flag_set(p: u8, mask: u8) -> bool {
    p & mask == mask
}

/// `p` with the Z and N flags replaced from `v`: Z holds exactly of zero
/// and N is bit 7 of `v`.
pub open spec fn with_nz(p: u8, v: u8) -> u8 {
    (p & 0x7d) | (if v == 0 { 0x02u8 } else { 0x00u8 }) | (v & 0x80)
}

/// The NV-BDIZC status register as a plain bit set.
#[derive(Clone, Copy, PartialEq, Eq, Structural, Debug)]
pub struct StatusFlags {
    pub bits: u8,
}

impl StatusFlags {
    /// Wraps a raw flag byte.
    pub fn from_bits(bits: u8) -> (r: Self)
        ensures
            r.bits == bits,
    {
        StatusFlags { bits }
    }

    /// The raw flag byte.
    pub fn bits(&self) -> (r: u8)
        ensures
            r == self.bits,
    {
        self.bits
    }

    /// Whether every bit of `mask` is set.
    pub fn contains(&self, mask: u8) -> (r: bool)
        ensures
            r == flag_set(self.bits, mask),
    {
        self.bits & mask == mask
    }

    /// Sets or clears the bits of `mask`.
    pub fn set(&mut self, mask: u8, value: bool)
        ensures
            final(self).bits == if value {
                old(self).bits | mask
            } else {
                old(self).bits & !mask
            },
    {
        if value {
            self.bits = self.bits | mask;
        } else {
            self.bits = self.bits & !mask;
        }
    }

    /// Replaces Z and N from a freshly computed value, as every ALU and
    /// transfer result does.
    pub fn set_value_flags(&mut self, value: u8)
        ensures
            final(self).bits == with_nz(old(self).bits, value),
    {
        let p = self.bits;
        self.set(FLAG_Z, value == 0);
        self.set(FLAG_N, value >= 0x80);
        proof {
            let v = value;
            assert((if v >= 0x80 {
                    (if v == 0 { p | 0x02u8 } else { p & !0x02u8 }) | 0x80u8
                } else {
                    (if v == 0 { p | 0x02u8 } else { p & !0x02u8 }) & !0x80u8
                })
                == ((p & 0x7du8) | (if v == 0 { 0x02u8 } else { 0x00u8 }) | (v & 0x80u8)))
                by (bit_vector);
        }
    }
}

impl Default for StatusFlags {
    /// Power-on value: Reserved and I set, everything else clear.
    fn default() -> (r: Self)
        ensures
            r.bits == 0x24,
    {
        StatusFlags { bits: 0x24 }
    }
}

/// After a value update, Z holds exactly of a zero result and N holds
/// exactly of a result with bit 7 set; no other flag moves.
pub proof fn lemma_value_flags(p: u8, v: u8)
    ensures
        flag_set(with_nz(p, v), FLAG_Z) <==> v == 0,
        flag_set(with_nz(p, v), FLAG_N) <==> v >= 0x80,
        with_nz(p, v) & 0x7d == p & 0x7d,
{
    let r = with_nz(p, v);
    assert((((p & 0x7du8) | (if v == 0 { 0x02u8 } else { 0x00u8 }) | (v & 0x80u8)) & 0x02u8
            == 0x02u8 <==> v == 0)
        && (((p & 0x7du8) | (if v == 0 { 0x02u8 } else { 0x00u8 }) | (v & 0x80u8)) & 0x80u8
            == 0x80u8 <==> v >= 0x80)
        && ((p & 0x7du8) | (if v == 0 { 0x02u8 } else { 0x00u8 }) | (v & 0x80u8)) & 0x7du8
            == p & 0x7du8) by (bit_vector);
}

/// The CPU register file: program counter, stack pointer, the three data
/// registers, the flags, and the two inter-cycle latches the microcode uses
/// to assemble effective addresses.
#[derive(Clone, Copy, PartialEq, Eq, Structural, Debug)]
pub struct Registers {
    pub pc: Address,
    pub stack: u8,
    pub a: u8,
    pub x: u8,
    pub y: u8,
    pub p: StatusFlags,
    pub address_buffer: Address,
    pub operand: u8,
}

impl Registers {
    /// The power-on register file: everything zero but the flag byte.
    pub fn new() -> (r: Registers)
        ensures
            r.pc.0 == 0,
            r.stack == 0,
            r.a == 0,
            r.x == 0,
            r.y == 0,
            r.p.bits == 0x24,
            r.address_buffer.0 == 0,
            r.operand == 0,
    {
        Registers {
            pc: Address(0),
            stack: 0,
            a: 0,
            x: 0,
            y: 0,
            p: StatusFlags::default(),
            address_buffer: Address(0),
            operand: 0,
        }
    }
}

/// What a microstep does around its bus transaction: a read step consumes
/// the byte that arrived in the data latch, a write step fills the data
/// latch before the bus sees it.
#[derive(Clone, Copy, PartialEq, Eq, Structural, Debug)]
pub enum BusDirection {
    Read(MicroOp),
    Write(MicroOp),
}

/// The per-cycle CPU-side work of a microstep.
#[derive(Clone, Copy, PartialEq, Eq, Structural, Debug)]
pub enum MicroOp {
    /// No register effect; the bus transaction is a dummy.
    Nop,
    /// Latch the data byte as the instruction operand.
    PullOperand,
    /// Latch the data byte as the low half of the address buffer.
    BufferLow,
    /// Latch the data byte as the high half of the address buffer.
    BufferHigh,
    /// Latch the high half, then front-queue one dummy read at the
    /// un-carried indexed address if indexing by X crosses a page.
    BufferHighFixupX,
    /// As `BufferHighFixupX`, indexing by Y.
    BufferHighFixupY,
    /// Taken branch: retarget the program counter, paying one extra cycle
    /// through a front-queued fix-up step when the target page differs.
    BranchTarget,
    /// The fix-up half of a page-crossing branch: apply the displacement.
    BranchApply,
    /// Interpret the data byte as the next opcode and refill the queue.
    Decode,
    /// Run a read-category instruction on the data byte.
    ExecRead(ReadOp),
    /// Run a read-category instruction on the accumulator instead of the
    /// bus byte.
    ExecReadAccum(ReadOp),
    /// Run a read-modify-write instruction on the accumulator in place.
    ExecRmwAccum(RmwOp),
    /// Run a read-modify-write instruction on the data latch (write step).
    ExecRmw(RmwOp),
    /// Emit a write-category instruction's byte into the data latch.
    ExecWrite(WriteOp),
}

/// One bus cycle of microcode: where the address comes from, and the
/// direction and CPU-side work of the transaction.
#[derive(Clone, Copy, PartialEq, Eq, Structural, Debug)]
pub struct MicroStep {
    pub addr: AddrSource,
    pub dir: BusDirection,
}

/// The step that ends every instruction: fetch the byte at PC (advancing
/// it) and decode it as the next opcode.
pub open spec fn decode_step() -> MicroStep {
    MicroStep { addr: AddrSource::PcInc, dir: BusDirection::Read(MicroOp::Decode) }
}

/// A processor that advances one master-clock tick at a time against a bus.
pub trait Cpu<B: Bus> {
    /// The processor's internal consistency condition.
    spec fn wf(&self) -> bool;

    /// The master-clock ticks seen so far.
    spec fn spec_ticks(&self) -> u64;

    /// How many master-clock ticks make one bus cycle.
    spec fn clock_divisor() -> int;

    /// Advance one master-clock tick, performing at most one bus cycle:
    /// the tick counter moves by exactly one (wrapping), and on a tick
    /// that is no bus cycle the bus is untouched.
    fn cycle(&mut self, bus: &mut B)
        requires
            old(self).wf(),
            old(bus).wf(),
        ensures
            final(self).wf(),
            final(bus).wf(),
            final(self).spec_ticks() as int
                == (old(self).spec_ticks() as int + 1) % 0x1_0000_0000_0000_0000,
            final(self).spec_ticks() as int % Self::clock_divisor() != 0
                ==> *final(bus) == *old(bus),
    ;
}

} // verus!
