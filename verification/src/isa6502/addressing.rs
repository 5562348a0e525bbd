//! The addressing-mode dispatcher: for every opcode, which instruction and
//! addressing mode it names, and for every (addressing mode, I/O category)
//! pair, the exact cycle-by-cycle microstep template the engine enqueues.
//! The templates preserve the real chip's dummy reads, page-cross fix-ups
//! and the indirect-JMP page-wrap bug.

use vstd::prelude::*;

use std::collections::VecDeque;

use crate::Address;
use crate::addr_join;
use crate::addr_high;
use crate::addr_low;
use crate::isa6502::BusDirection;
use crate::isa6502::MicroOp;
use crate::isa6502::MicroStep;
use crate::isa6502::Registers;
use crate::isa6502::decode_step;
use crate::isa6502::flag_set;
use crate::isa6502::FLAG_C;
use crate::isa6502::FLAG_Z;
use crate::isa6502::FLAG_V;
use crate::isa6502::FLAG_N;
use crate::isa6502::instructions::ReadOp;
use crate::isa6502::instructions::RmwOp;
use crate::isa6502::instructions::WriteOp;
use crate::isa6502::instructions::inc_wrap;
use crate::isa6502::instructions::dec_wrap;

verus! {

/// Where a microstep's bus address comes from.  Resolving a source may
/// have register side effects (advancing PC, moving the stack pointer).
#[derive(Clone, Copy, PartialEq, Eq, Structural, Debug)]
pub enum AddrSource {
    /// The program counter, left as it is.
    Pc,
    /// The program counter, advanced (with 16-bit wrap) after use.
    PcInc,
    /// The stack slot `$0100 | S`, S untouched.
    Stack,
    /// The stack slot `$0100 | S`; S decrements (wrapping) after use.
    StackPush,
    /// S increments (wrapping) first; the slot `$0100 | S` of the new S.
    StackPull,
    /// The vector slot `$FF00 | v`.
    Vector(u8),
    /// Zero page at the operand latch.
    Zeropage,
    /// The assembled address buffer.
    AddressBuffer,
    /// Zero page at operand + X, wrapping within the page.
    ZeropageIndexedX,
    /// Zero page at operand + Y, wrapping within the page.
    ZeropageIndexedY,
    /// Zero page at operand + X + 1, wrapping within the page.
    ZeropageIndexedHighX,
    /// Zero page at operand + 1, wrapping within the page.
    ZeropageNext,
    /// The address buffer with its low byte incremented and the high byte
    /// kept: the indirect-JMP page-wrap quirk.
    BufferWrapNext,
    /// The address buffer indexed by X within its page (no carry).
    BufferNoCarryX,
    /// The address buffer indexed by Y within its page (no carry).
    BufferNoCarryY,
    /// The address buffer plus X, carry into the high byte.
    BufferAddX,
    /// The address buffer plus Y, carry into the high byte.
    BufferAddY,
    /// The branch target with the high byte forced back to the current
    /// page: the dummy address of a page-crossing branch's fix-up cycle.
    BranchFix,
}

/// The sign-extended value of a displacement byte.
pub open spec fn sext(b: u8) -> int {
    if b >= 0x80 { b as int - 256 } else { b as int }
}

/// The fully resolved branch target: PC plus the sign-extended operand,
/// wrapping over the whole address space.
pub open spec fn branch_target(pc: u16, operand: u8) -> u16 {
    ((pc as int + sext(operand)) % 0x10000) as u16
}

/// What resolving an address source yields, and how the register file
/// moves while it does.
pub open spec fn spec_resolve(r: Registers, src: AddrSource) -> (Address, Registers) {
    match src {
        AddrSource::Pc => (r.pc, r),
        AddrSource::PcInc => (
            r.pc,
            Registers { pc: Address(((r.pc.0 as int + 1) % 0x10000) as u16), ..r },
        ),
        AddrSource::Stack => (Address(addr_join(0x01, r.stack)), r),
        AddrSource::StackPush => (
            Address(addr_join(0x01, r.stack)),
            Registers { stack: dec_wrap(r.stack), ..r },
        ),
        AddrSource::StackPull => (
            Address(addr_join(0x01, inc_wrap(r.stack))),
            Registers { stack: inc_wrap(r.stack), ..r },
        ),
        AddrSource::Vector(v) => (Address(addr_join(0xFF, v)), r),
        AddrSource::Zeropage => (Address(addr_join(0x00, r.operand)), r),
        AddrSource::AddressBuffer => (r.address_buffer, r),
        AddrSource::ZeropageIndexedX => (
            Address(addr_join(0x00, ((r.operand as int + r.x as int) % 256) as u8)),
            r,
        ),
        AddrSource::ZeropageIndexedY => (
            Address(addr_join(0x00, ((r.operand as int + r.y as int) % 256) as u8)),
            r,
        ),
        AddrSource::ZeropageIndexedHighX => (
            Address(addr_join(0x00, ((r.operand as int + r.x as int + 1) % 256) as u8)),
            r,
        ),
        AddrSource::ZeropageNext => (
            Address(addr_join(0x00, inc_wrap(r.operand))),
            r,
        ),
        AddrSource::BufferWrapNext => (
            Address(addr_join(addr_high(r.address_buffer.0), inc_wrap(addr_low(r.address_buffer.0)))),
            r,
        ),
        AddrSource::BufferNoCarryX => (
            Address(addr_join(
                addr_high(r.address_buffer.0),
                ((addr_low(r.address_buffer.0) as int + r.x as int) % 256) as u8,
            )),
            r,
        ),
        AddrSource::BufferNoCarryY => (
            Address(addr_join(
                addr_high(r.address_buffer.0),
                ((addr_low(r.address_buffer.0) as int + r.y as int) % 256) as u8,
            )),
            r,
        ),
        AddrSource::BufferAddX => (
            Address(((r.address_buffer.0 as int + r.x as int) % 0x10000) as u16),
            r,
        ),
        AddrSource::BufferAddY => (
            Address(((r.address_buffer.0 as int + r.y as int) % 0x10000) as u16),
            r,
        ),
        AddrSource::BranchFix => (
            Address(addr_join(addr_high(r.pc.0), addr_low(branch_target(r.pc.0, r.operand)))),
            r,
        ),
    }
}

/// Resolves an address source against the register file, applying its
/// register side effects.
#[verifier::rlimit(60)]
pub fn resolve_address(registers: &mut Registers, src: AddrSource) -> (a: Address)
    ensures
        (a, *final(registers)) == spec_resolve(*old(registers), src),
{
    match src {
        AddrSource::Pc => registers.pc,
        AddrSource::PcInc => {
            let a = registers.pc;
            registers.pc.increment();
            a
        },
        AddrSource::Stack => Address::new(0x01, registers.stack),
        AddrSource::StackPush => {
            let a = Address::new(0x01, registers.stack);
            registers.stack = registers.stack.wrapping_sub(1);
            a
        },
        AddrSource::StackPull => {
            registers.stack = registers.stack.wrapping_add(1);
            Address::new(0x01, registers.stack)
        },
        AddrSource::Vector(v) => Address::new(0xFF, v),
        AddrSource::Zeropage => Address::new(0x00, registers.operand),
        AddrSource::AddressBuffer => registers.address_buffer,
        AddrSource::ZeropageIndexedX => {
            Address::new(0x00, registers.operand).index(registers.x)
        },
        AddrSource::ZeropageIndexedY => {
            Address::new(0x00, registers.operand).index(registers.y)
        },
        AddrSource::ZeropageIndexedHighX => {
            Address::new(0x00, registers.operand).index(registers.x.wrapping_add(1))
        },
        AddrSource::ZeropageNext => Address::new(0x00, registers.operand).index(1),
        AddrSource::BufferWrapNext => registers.address_buffer.index(1),
        AddrSource::BufferNoCarryX => registers.address_buffer.index(registers.x),
        AddrSource::BufferNoCarryY => registers.address_buffer.index(registers.y),
        AddrSource::BufferAddX => registers.address_buffer.add(registers.x),
        AddrSource::BufferAddY => registers.address_buffer.add(registers.y),
        AddrSource::BranchFix => {
            let target = branch_target_of(registers.pc, registers.operand);
            let mut a = target;
            a.set_high(registers.pc.high());
            a
        },
    }
}

/// Computes the fully resolved branch target in executable code.
pub fn branch_target_of(pc: Address, operand: u8) -> (r: Address)
    ensures
        r.0 == branch_target(pc.0, operand),
{
    if operand >= 0x80 {
        Address(pc.0.wrapping_add(operand as u16).wrapping_sub(0x100))
    } else {
        Address(pc.0.wrapping_add(operand as u16))
    }
}

/// An instruction together with its I/O category.
#[derive(Clone, Copy, PartialEq, Eq, Structural, Debug)]
pub enum Instr {
    Read(ReadOp),
    Rmw(RmwOp),
    Write(WriteOp),
}

/// The thirteen addressing shapes of the 6502, indexed variants split by
/// register.
#[derive(Clone, Copy, PartialEq, Eq, Structural, Debug)]
pub enum AddrModeKind {
    Immediate,
    IndexedIndirectX,
    ZeroPage,
    Stack,
    Accumulator,
    Absolute,
    IndirectIndexedY,
    ZeroPageIndexedX,
    ZeroPageIndexedY,
    Implied,
    AbsoluteIndexedX,
    AbsoluteIndexedY,
}

/// What a decoded opcode asks of the engine: one of the hand-timed control
/// transfers, a conditional branch, or a (instruction, addressing mode)
/// pair driven by the templates.
#[derive(Clone, Copy, PartialEq, Eq, Structural, Debug)]
pub enum OpKind {
    Branch,
    Jsr,
    Rti,
    Rts,
    Jmp,
    JmpIndirect,
    Table(Instr, AddrModeKind),
}

/// The addressing mode selected by an opcode's column (its low five bits)
/// and row (bits 5-7, doubled).
pub open spec fn spec_addressing(row: u8, column: u8) -> AddrModeKind {
    if column == 0x00 || column == 0x02 || column == 0x09 || column == 0x0B {
        AddrModeKind::Immediate
    } else if column == 0x01 || column == 0x03 {
        AddrModeKind::IndexedIndirectX
    } else if 0x04 <= column && column <= 0x07 {
        AddrModeKind::ZeroPage
    } else if column == 0x08 {
        if row <= 0x06 { AddrModeKind::Stack } else { AddrModeKind::Accumulator }
    } else if column == 0x0A {
        AddrModeKind::Accumulator
    } else if 0x0C <= column && column <= 0x0F {
        AddrModeKind::Absolute
    } else if column == 0x11 || column == 0x13 {
        AddrModeKind::IndirectIndexedY
    } else if column == 0x12 {
        AddrModeKind::Immediate
    } else if column == 0x14 || column == 0x15 {
        AddrModeKind::ZeroPageIndexedX
    } else if column == 0x16 || column == 0x17 {
        if row == 0x08 || row == 0x0A {
            AddrModeKind::ZeroPageIndexedY
        } else {
            AddrModeKind::ZeroPageIndexedX
        }
    } else if column == 0x18 || column == 0x1A {
        AddrModeKind::Implied
    } else if column == 0x19 || column == 0x1B {
        AddrModeKind::AbsoluteIndexedY
    } else if column == 0x1C || column == 0x1D {
        AddrModeKind::AbsoluteIndexedX
    } else {
        if row == 0x08 || row == 0x0A {
            AddrModeKind::AbsoluteIndexedY
        } else {
            AddrModeKind::AbsoluteIndexedX
        }
    }
}

/// Shorthand for a table entry.
pub open spec fn table_read(op: ReadOp, row: u8, column: u8) -> OpKind {
    OpKind::Table(Instr::Read(op), spec_addressing(row, column))
}

/// Shorthand for a read-modify-write table entry.
pub open spec fn table_rmw(op: RmwOp, row: u8, column: u8) -> OpKind {
    OpKind::Table(Instr::Rmw(op), spec_addressing(row, column))
}

/// Shorthand for a write table entry.
pub open spec fn table_write(op: WriteOp, row: u8, column: u8) -> OpKind {
    OpKind::Table(Instr::Write(op), spec_addressing(row, column))
}

/// The full opcode map: every one of the 256 opcode bytes decodes to a
/// kind; the unofficial operations and the quiet no-op variants are
/// covered, and the jam columns fall back to a two-cycle immediate no-op.
pub open spec fn spec_decode(op: u8) -> OpKind {
    let row = (op & 0xE0) >> 4;
    let column = op & 0x1F;
    let block = op & 0x03;
    if column == 0x10 {
        OpKind::Branch
    } else if row == 0x02 && column == 0x00 {
        OpKind::Jsr
    } else if row == 0x04 && column == 0x00 {
        OpKind::Rti
    } else if row == 0x06 && column == 0x00 {
        OpKind::Rts
    } else if row == 0x02 && (column == 0x04 || column == 0x0C) {
        table_read(ReadOp::Bit, row, column)
    } else if column == 0x08 {
        if row == 0x00 {
            table_write(WriteOp::Php, row, column)
        } else if row == 0x02 {
            table_read(ReadOp::Plp, row, column)
        } else if row == 0x04 {
            table_write(WriteOp::Pha, row, column)
        } else if row == 0x06 {
            table_read(ReadOp::Pla, row, column)
        } else if row == 0x08 {
            table_read(ReadOp::Dey, row, column)
        } else if row == 0x0A {
            table_read(ReadOp::Tay, row, column)
        } else if row == 0x0C {
            table_read(ReadOp::Iny, row, column)
        } else {
            table_read(ReadOp::Inx, row, column)
        }
    } else if row == 0x04 && column == 0x0C {
        OpKind::Jmp
    } else if row == 0x06 && column == 0x0C {
        OpKind::JmpIndirect
    } else if column == 0x18 {
        if row == 0x00 {
            table_read(ReadOp::Clc, row, column)
        } else if row == 0x02 {
            table_read(ReadOp::Sec, row, column)
        } else if row == 0x04 {
            table_read(ReadOp::Cli, row, column)
        } else if row == 0x06 {
            table_read(ReadOp::Sei, row, column)
        } else if row == 0x08 {
            table_read(ReadOp::Tya, row, column)
        } else if row == 0x0A {
            table_read(ReadOp::Clv, row, column)
        } else if row == 0x0C {
            table_read(ReadOp::Cld, row, column)
        } else {
            table_read(ReadOp::Sed, row, column)
        }
    } else if row == 0x08 && block == 0x00 {
        table_write(WriteOp::Sty, row, column)
    } else if row == 0x0A && block == 0x00 {
        table_read(ReadOp::Ldy, row, column)
    } else if column == 0x14 || column == 0x1C {
        table_read(ReadOp::Nop, row, column)
    } else if row == 0x0C && block == 0x00 {
        table_read(ReadOp::Cpy, row, column)
    } else if row == 0x0E && block == 0x00 {
        table_read(ReadOp::Cpx, row, column)
    } else if block == 0x00 {
        table_read(ReadOp::Nop, row, column)
    } else if block == 0x01 {
        if row == 0x00 {
            table_read(ReadOp::Ora, row, column)
        } else if row == 0x02 {
            table_read(ReadOp::And, row, column)
        } else if row == 0x04 {
            table_read(ReadOp::Eor, row, column)
        } else if row == 0x06 {
            table_read(ReadOp::Adc, row, column)
        } else if row == 0x08 {
            table_write(WriteOp::Sta, row, column)
        } else if row == 0x0A {
            table_read(ReadOp::Lda, row, column)
        } else if row == 0x0C {
            table_read(ReadOp::Cmp, row, column)
        } else {
            table_read(ReadOp::Sbc, row, column)
        }
    } else if block == 0x02 {
        if row == 0x08 && column == 0x0A {
            table_read(ReadOp::Txa, row, column)
        } else if row == 0x08 && column == 0x1A {
            table_read(ReadOp::Txs, row, column)
        } else if row == 0x0A && column == 0x0A {
            table_read(ReadOp::Tax, row, column)
        } else if row == 0x0A && column == 0x1A {
            table_read(ReadOp::Tsx, row, column)
        } else if row == 0x0C && column == 0x0A {
            table_read(ReadOp::Dex, row, column)
        } else if row == 0x0E && column == 0x0A {
            table_read(ReadOp::Nop, row, column)
        } else if row == 0x00 {
            table_rmw(RmwOp::Asl, row, column)
        } else if row == 0x02 {
            table_rmw(RmwOp::Rol, row, column)
        } else if row == 0x04 {
            table_rmw(RmwOp::Lsr, row, column)
        } else if row == 0x06 {
            table_rmw(RmwOp::Ror, row, column)
        } else if row == 0x08 {
            table_write(WriteOp::Stx, row, column)
        } else if row == 0x0A {
            table_read(ReadOp::Ldx, row, column)
        } else if row == 0x0C {
            table_rmw(RmwOp::Dec, row, column)
        } else {
            table_rmw(RmwOp::Inc, row, column)
        }
    } else {
        if row == 0x0E && column == 0x0B {
            table_read(ReadOp::Sbc, row, column)
        } else if row == 0x00 {
            table_rmw(RmwOp::Slo, row, column)
        } else if row == 0x02 {
            table_rmw(RmwOp::Rla, row, column)
        } else if row == 0x04 {
            table_rmw(RmwOp::Sre, row, column)
        } else if row == 0x06 {
            table_rmw(RmwOp::Rra, row, column)
        } else if row == 0x08 {
            table_write(WriteOp::Sax, row, column)
        } else if row == 0x0A {
            table_read(ReadOp::Lax, row, column)
        } else if row == 0x0C {
            table_rmw(RmwOp::Dcp, row, column)
        } else {
            table_rmw(RmwOp::Isc, row, column)
        }
    }
}

/// Whether a branch opcode's tested flag matches its polarity under `p`.
pub open spec fn branch_taken(op: u8, p: u8) -> bool {
    let selector = op & 0xE0;
    if selector == 0x00 {
        !flag_set(p, FLAG_N)
    } else if selector == 0x20 {
        flag_set(p, FLAG_N)
    } else if selector == 0x40 {
        !flag_set(p, FLAG_V)
    } else if selector == 0x60 {
        flag_set(p, FLAG_V)
    } else if selector == 0x80 {
        !flag_set(p, FLAG_C)
    } else if selector == 0xA0 {
        flag_set(p, FLAG_C)
    } else if selector == 0xC0 {
        !flag_set(p, FLAG_Z)
    } else {
        flag_set(p, FLAG_Z)
    }
}

/// A read-direction microstep.
pub open spec fn rstep(a: AddrSource, op: MicroOp) -> MicroStep {
    MicroStep { addr: a, dir: BusDirection::Read(op) }
}

/// A write-direction microstep.
pub open spec fn wstep(a: AddrSource, op: MicroOp) -> MicroStep {
    MicroStep { addr: a, dir: BusDirection::Write(op) }
}

/// The template for a (instruction, addressing mode) pair: the microsteps
/// that follow the opcode fetch, concluding with the decode step.  The
/// formally invalid pairings act as two-cycle dummies.
pub open spec fn mode_steps(inst: Instr, mode: AddrModeKind) -> Seq<MicroStep> {
    match mode {
        AddrModeKind::Immediate => match inst {
            Instr::Read(r) => seq![
                rstep(AddrSource::PcInc, MicroOp::ExecRead(r)),
                decode_step(),
            ],
            _ => seq![rstep(AddrSource::PcInc, MicroOp::Nop), decode_step()],
        },
        AddrModeKind::IndexedIndirectX => {
            let head = seq![
                rstep(AddrSource::PcInc, MicroOp::PullOperand),
                rstep(AddrSource::Zeropage, MicroOp::Nop),
                rstep(AddrSource::ZeropageIndexedX, MicroOp::BufferLow),
                rstep(AddrSource::ZeropageIndexedHighX, MicroOp::BufferHigh),
            ];
            match inst {
                Instr::Read(r) => head + seq![
                    rstep(AddrSource::AddressBuffer, MicroOp::ExecRead(r)),
                    decode_step(),
                ],
                Instr::Rmw(m) => head + seq![
                    rstep(AddrSource::AddressBuffer, MicroOp::Nop),
                    wstep(AddrSource::AddressBuffer, MicroOp::Nop),
                    wstep(AddrSource::AddressBuffer, MicroOp::ExecRmw(m)),
                    decode_step(),
                ],
                Instr::Write(w) => head + seq![
                    wstep(AddrSource::AddressBuffer, MicroOp::ExecWrite(w)),
                    decode_step(),
                ],
            }
        },
        AddrModeKind::ZeroPage => match inst {
            Instr::Read(r) => seq![
                rstep(AddrSource::PcInc, MicroOp::PullOperand),
                rstep(AddrSource::Zeropage, MicroOp::ExecRead(r)),
                decode_step(),
            ],
            Instr::Rmw(m) => seq![
                rstep(AddrSource::PcInc, MicroOp::PullOperand),
                rstep(AddrSource::Zeropage, MicroOp::Nop),
                wstep(AddrSource::Zeropage, MicroOp::Nop),
                wstep(AddrSource::Zeropage, MicroOp::ExecRmw(m)),
                decode_step(),
            ],
            Instr::Write(w) => seq![
                rstep(AddrSource::PcInc, MicroOp::PullOperand),
                wstep(AddrSource::Zeropage, MicroOp::ExecWrite(w)),
                decode_step(),
            ],
        },
        AddrModeKind::Stack => match inst {
            Instr::Read(r) => seq![
                rstep(AddrSource::Pc, MicroOp::Nop),
                rstep(AddrSource::Stack, MicroOp::Nop),
                rstep(AddrSource::StackPull, MicroOp::ExecRead(r)),
                decode_step(),
            ],
            Instr::Write(w) => seq![
                rstep(AddrSource::Pc, MicroOp::Nop),
                wstep(AddrSource::StackPush, MicroOp::ExecWrite(w)),
                decode_step(),
            ],
            _ => seq![rstep(AddrSource::Pc, MicroOp::Nop), decode_step()],
        },
        AddrModeKind::Accumulator => match inst {
            Instr::Read(r) => seq![
                rstep(AddrSource::Pc, MicroOp::ExecReadAccum(r)),
                decode_step(),
            ],
            Instr::Rmw(m) => seq![
                rstep(AddrSource::Pc, MicroOp::ExecRmwAccum(m)),
                decode_step(),
            ],
            Instr::Write(_) => seq![rstep(AddrSource::Pc, MicroOp::Nop), decode_step()],
        },
        AddrModeKind::Absolute => {
            let head = seq![
                rstep(AddrSource::PcInc, MicroOp::BufferLow),
                rstep(AddrSource::PcInc, MicroOp::BufferHigh),
            ];
            match inst {
                Instr::Read(r) => head + seq![
                    rstep(AddrSource::AddressBuffer, MicroOp::ExecRead(r)),
                    decode_step(),
                ],
                Instr::Rmw(m) => head + seq![
                    rstep(AddrSource::AddressBuffer, MicroOp::Nop),
                    wstep(AddrSource::AddressBuffer, MicroOp::Nop),
                    wstep(AddrSource::AddressBuffer, MicroOp::ExecRmw(m)),
                    decode_step(),
                ],
                Instr::Write(w) => head + seq![
                    wstep(AddrSource::AddressBuffer, MicroOp::ExecWrite(w)),
                    decode_step(),
                ],
            }
        },
        AddrModeKind::IndirectIndexedY => match inst {
            Instr::Read(r) => seq![
                rstep(AddrSource::PcInc, MicroOp::PullOperand),
                rstep(AddrSource::Zeropage, MicroOp::BufferLow),
                rstep(AddrSource::ZeropageNext, MicroOp::BufferHighFixupY),
                rstep(AddrSource::BufferAddY, MicroOp::ExecRead(r)),
                decode_step(),
            ],
            Instr::Rmw(m) => seq![
                rstep(AddrSource::PcInc, MicroOp::PullOperand),
                rstep(AddrSource::Zeropage, MicroOp::BufferLow),
                rstep(AddrSource::ZeropageNext, MicroOp::BufferHigh),
                rstep(AddrSource::BufferNoCarryY, MicroOp::Nop),
                rstep(AddrSource::BufferAddY, MicroOp::Nop),
                wstep(AddrSource::BufferAddY, MicroOp::Nop),
                wstep(AddrSource::BufferAddY, MicroOp::ExecRmw(m)),
                decode_step(),
            ],
            Instr::Write(w) => seq![
                rstep(AddrSource::PcInc, MicroOp::PullOperand),
                rstep(AddrSource::Zeropage, MicroOp::BufferLow),
                rstep(AddrSource::ZeropageNext, MicroOp::BufferHigh),
                rstep(AddrSource::BufferNoCarryY, MicroOp::Nop),
                wstep(AddrSource::BufferAddY, MicroOp::ExecWrite(w)),
                decode_step(),
            ],
        },
        AddrModeKind::ZeroPageIndexedX => zeropage_indexed_steps(inst, AddrSource::ZeropageIndexedX),
        AddrModeKind::ZeroPageIndexedY => zeropage_indexed_steps(inst, AddrSource::ZeropageIndexedY),
        AddrModeKind::Implied => match inst {
            Instr::Read(r) => seq![
                rstep(AddrSource::Pc, MicroOp::ExecRead(r)),
                decode_step(),
            ],
            _ => seq![rstep(AddrSource::Pc, MicroOp::Nop), decode_step()],
        },
        AddrModeKind::AbsoluteIndexedX => absolute_indexed_steps(
            inst,
            MicroOp::BufferHighFixupX,
            AddrSource::BufferNoCarryX,
            AddrSource::BufferAddX,
        ),
        AddrModeKind::AbsoluteIndexedY => absolute_indexed_steps(
            inst,
            MicroOp::BufferHighFixupY,
            AddrSource::BufferNoCarryY,
            AddrSource::BufferAddY,
        ),
    }
}

/// The zero-page indexed template, shared by the X and Y variants: the
/// index wraps within the zero page and never carries.
pub open spec fn zeropage_indexed_steps(inst: Instr, indexed: AddrSource) -> Seq<MicroStep> {
    match inst {
        Instr::Read(r) => seq![
            rstep(AddrSource::PcInc, MicroOp::PullOperand),
            rstep(AddrSource::Zeropage, MicroOp::Nop),
            rstep(indexed, MicroOp::ExecRead(r)),
            decode_step(),
        ],
        Instr::Rmw(m) => seq![
            rstep(AddrSource::PcInc, MicroOp::PullOperand),
            rstep(AddrSource::Zeropage, MicroOp::Nop),
            rstep(indexed, MicroOp::Nop),
            wstep(indexed, MicroOp::Nop),
            wstep(indexed, MicroOp::ExecRmw(m)),
            decode_step(),
        ],
        Instr::Write(w) => seq![
            rstep(AddrSource::PcInc, MicroOp::PullOperand),
            rstep(AddrSource::Zeropage, MicroOp::Nop),
            wstep(indexed, MicroOp::ExecWrite(w)),
            decode_step(),
        ],
    }
}

/// The absolute indexed template, shared by the X and Y variants: reads
/// speculate and pay the extra cycle only on a page cross (through the
/// fix-up microop), writes and read-modify-writes always pay it.
pub open spec fn absolute_indexed_steps(
    inst: Instr,
    fixup: MicroOp,
    no_carry: AddrSource,
    corrected: AddrSource,
) -> Seq<MicroStep> {
    match inst {
        Instr::Read(r) => seq![
            rstep(AddrSource::PcInc, MicroOp::BufferLow),
            rstep(AddrSource::PcInc, fixup),
            rstep(corrected, MicroOp::ExecRead(r)),
            decode_step(),
        ],
        Instr::Rmw(m) => seq![
            rstep(AddrSource::PcInc, MicroOp::BufferLow),
            rstep(AddrSource::PcInc, MicroOp::BufferHigh),
            rstep(no_carry, MicroOp::Nop),
            rstep(corrected, MicroOp::Nop),
            wstep(corrected, MicroOp::Nop),
            wstep(corrected, MicroOp::ExecRmw(m)),
            decode_step(),
        ],
        Instr::Write(w) => seq![
            rstep(AddrSource::PcInc, MicroOp::BufferLow),
            rstep(AddrSource::PcInc, MicroOp::BufferHigh),
            rstep(no_carry, MicroOp::Nop),
            wstep(corrected, MicroOp::ExecWrite(w)),
            decode_step(),
        ],
    }
}

/// JSR's hand-timed sequence: latch the target low byte, push PCH and PCL,
/// then fetch the target high byte and jump.
pub open spec fn jsr_steps() -> Seq<MicroStep> {
    seq![
        rstep(AddrSource::PcInc, MicroOp::PullOperand),
        rstep(AddrSource::Stack, MicroOp::Nop),
        wstep(AddrSource::StackPush, MicroOp::ExecWrite(WriteOp::Pch)),
        wstep(AddrSource::StackPush, MicroOp::ExecWrite(WriteOp::Pcl)),
        rstep(AddrSource::PcInc, MicroOp::ExecRead(ReadOp::Jsr)),
        decode_step(),
    ]
}

/// RTI's hand-timed sequence: pull P, then PCL, then PCH.
pub open spec fn rti_steps() -> Seq<MicroStep> {
    seq![
        rstep(AddrSource::PcInc, MicroOp::Nop),
        rstep(AddrSource::Stack, MicroOp::Nop),
        rstep(AddrSource::StackPull, MicroOp::ExecRead(ReadOp::Plp)),
        rstep(AddrSource::StackPull, MicroOp::ExecRead(ReadOp::Pcl)),
        rstep(AddrSource::StackPull, MicroOp::ExecRead(ReadOp::Pch)),
        decode_step(),
    ]
}

/// RTS's hand-timed sequence: pull PCL and PCH, then step past the return
/// address.
pub open spec fn rts_steps() -> Seq<MicroStep> {
    seq![
        rstep(AddrSource::PcInc, MicroOp::Nop),
        rstep(AddrSource::Stack, MicroOp::Nop),
        rstep(AddrSource::StackPull, MicroOp::ExecRead(ReadOp::Pcl)),
        rstep(AddrSource::StackPull, MicroOp::ExecRead(ReadOp::Pch)),
        rstep(AddrSource::PcInc, MicroOp::Nop),
        decode_step(),
    ]
}

/// Absolute JMP: three cycles in all.
pub open spec fn jmp_steps() -> Seq<MicroStep> {
    seq![
        rstep(AddrSource::PcInc, MicroOp::PullOperand),
        rstep(AddrSource::PcInc, MicroOp::ExecRead(ReadOp::Jmp)),
        decode_step(),
    ]
}

/// Indirect JMP: the target's high byte is read with the pointer's low
/// byte incremented within its page, reproducing the chip's page-wrap bug.
pub open spec fn jmp_indirect_steps() -> Seq<MicroStep> {
    seq![
        rstep(AddrSource::PcInc, MicroOp::BufferLow),
        rstep(AddrSource::PcInc, MicroOp::BufferHigh),
        rstep(AddrSource::AddressBuffer, MicroOp::PullOperand),
        rstep(AddrSource::BufferWrapNext, MicroOp::ExecRead(ReadOp::Jmp)),
        decode_step(),
    ]
}

/// A conditional branch: the operand fetch, then (only when taken) the
/// retargeting cycle, then the decode.  A taken branch that crosses a page
/// front-queues one more fix-up cycle at run time.
pub open spec fn branch_steps(taken: bool) -> Seq<MicroStep> {
    if taken {
        seq![
            rstep(AddrSource::PcInc, MicroOp::PullOperand),
            rstep(AddrSource::Pc, MicroOp::BranchTarget),
            decode_step(),
        ]
    } else {
        seq![
            rstep(AddrSource::PcInc, MicroOp::PullOperand),
            decode_step(),
        ]
    }
}

/// The dummy-read step a page-crossing branch pays before the corrected
/// program counter is in force.
pub open spec fn branch_fix_step() -> MicroStep {
    rstep(AddrSource::BranchFix, MicroOp::BranchApply)
}

/// The dummy-read step an X-indexed read pays on a page cross.
pub open spec fn page_fix_step_x() -> MicroStep {
    rstep(AddrSource::BufferNoCarryX, MicroOp::Nop)
}

/// The dummy-read step a Y-indexed read pays on a page cross.
pub open spec fn page_fix_step_y() -> MicroStep {
    rstep(AddrSource::BufferNoCarryY, MicroOp::Nop)
}

/// The reset preamble: two dummy opcode fetches, three suppressed stack
/// pushes (the stack pointer moves but the bus only reads), then the reset
/// vector into PCL and PCH.
pub open spec fn reset_steps() -> Seq<MicroStep> {
    seq![
        rstep(AddrSource::PcInc, MicroOp::Nop),
        rstep(AddrSource::PcInc, MicroOp::Nop),
        rstep(AddrSource::StackPush, MicroOp::Nop),
        rstep(AddrSource::StackPush, MicroOp::Nop),
        rstep(AddrSource::StackPush, MicroOp::Nop),
        rstep(AddrSource::Vector(0xFC), MicroOp::ExecRead(ReadOp::Pcl)),
        rstep(AddrSource::Vector(0xFD), MicroOp::ExecRead(ReadOp::Pch)),
        decode_step(),
    ]
}

/// The microsteps a decoded opcode enqueues, as a function of the opcode
/// byte and the flag byte (which settles branches).
pub open spec fn decode_seq(op: u8, p: u8) -> Seq<MicroStep> {
    match spec_decode(op) {
        OpKind::Branch => branch_steps(branch_taken(op, p)),
        OpKind::Jsr => jsr_steps(),
        OpKind::Rti => rti_steps(),
        OpKind::Rts => rts_steps(),
        OpKind::Jmp => jmp_steps(),
        OpKind::JmpIndirect => jmp_indirect_steps(),
        OpKind::Table(inst, mode) => mode_steps(inst, mode),
    }
}

/// Decodes an opcode byte into its kind; total over all 256 values.
pub fn decode_op(op: u8) -> (r: OpKind)
    ensures
        r == spec_decode(op),
{
    let row = (op & 0xE0) >> 4;
    let column = op & 0x1F;
    let block = op & 0x03;
    if column == 0x10 {
        OpKind::Branch
    } else if row == 0x02 && column == 0x00 {
        OpKind::Jsr
    } else if row == 0x04 && column == 0x00 {
        OpKind::Rti
    } else if row == 0x06 && column == 0x00 {
        OpKind::Rts
    } else if row == 0x02 && (column == 0x04 || column == 0x0C) {
        OpKind::Table(Instr::Read(ReadOp::Bit), decode_addressing(row, column))
    } else if column == 0x08 {
        let inst = if row == 0x00 {
            Instr::Write(WriteOp::Php)
        } else if row == 0x02 {
            Instr::Read(ReadOp::Plp)
        } else if row == 0x04 {
            Instr::Write(WriteOp::Pha)
        } else if row == 0x06 {
            Instr::Read(ReadOp::Pla)
        } else if row == 0x08 {
            Instr::Read(ReadOp::Dey)
        } else if row == 0x0A {
            Instr::Read(ReadOp::Tay)
        } else if row == 0x0C {
            Instr::Read(ReadOp::Iny)
        } else {
            Instr::Read(ReadOp::Inx)
        };
        OpKind::Table(inst, decode_addressing(row, column))
    } else if row == 0x04 && column == 0x0C {
        OpKind::Jmp
    } else if row == 0x06 && column == 0x0C {
        OpKind::JmpIndirect
    } else if column == 0x18 {
        let inst = if row == 0x00 {
            Instr::Read(ReadOp::Clc)
        } else if row == 0x02 {
            Instr::Read(ReadOp::Sec)
        } else if row == 0x04 {
            Instr::Read(ReadOp::Cli)
        } else if row == 0x06 {
            Instr::Read(ReadOp::Sei)
        } else if row == 0x08 {
            Instr::Read(ReadOp::Tya)
        } else if row == 0x0A {
            Instr::Read(ReadOp::Clv)
        } else if row == 0x0C {
            Instr::Read(ReadOp::Cld)
        } else {
            Instr::Read(ReadOp::Sed)
        };
        OpKind::Table(inst, decode_addressing(row, column))
    } else if row == 0x08 && block == 0x00 {
        OpKind::Table(Instr::Write(WriteOp::Sty), decode_addressing(row, column))
    } else if row == 0x0A && block == 0x00 {
        OpKind::Table(Instr::Read(ReadOp::Ldy), decode_addressing(row, column))
    } else if column == 0x14 || column == 0x1C {
        OpKind::Table(Instr::Read(ReadOp::Nop), decode_addressing(row, column))
    } else if row == 0x0C && block == 0x00 {
        OpKind::Table(Instr::Read(ReadOp::Cpy), decode_addressing(row, column))
    } else if row == 0x0E && block == 0x00 {
        OpKind::Table(Instr::Read(ReadOp::Cpx), decode_addressing(row, column))
    } else if block == 0x00 {
        OpKind::Table(Instr::Read(ReadOp::Nop), decode_addressing(row, column))
    } else if block == 0x01 {
        let inst = if row == 0x00 {
            Instr::Read(ReadOp::Ora)
        } else if row == 0x02 {
            Instr::Read(ReadOp::And)
        } else if row == 0x04 {
            Instr::Read(ReadOp::Eor)
        } else if row == 0x06 {
            Instr::Read(ReadOp::Adc)
        } else if row == 0x08 {
            Instr::Write(WriteOp::Sta)
        } else if row == 0x0A {
            Instr::Read(ReadOp::Lda)
        } else if row == 0x0C {
            Instr::Read(ReadOp::Cmp)
        } else {
            Instr::Read(ReadOp::Sbc)
        };
        OpKind::Table(inst, decode_addressing(row, column))
    } else if block == 0x02 {
        let inst = if row == 0x08 && column == 0x0A {
            Instr::Read(ReadOp::Txa)
        } else if row == 0x08 && column == 0x1A {
            Instr::Read(ReadOp::Txs)
        } else if row == 0x0A && column == 0x0A {
            Instr::Read(ReadOp::Tax)
        } else if row == 0x0A && column == 0x1A {
            Instr::Read(ReadOp::Tsx)
        } else if row == 0x0C && column == 0x0A {
            Instr::Read(ReadOp::Dex)
        } else if row == 0x0E && column == 0x0A {
            Instr::Read(ReadOp::Nop)
        } else if row == 0x00 {
            Instr::Rmw(RmwOp::Asl)
        } else if row == 0x02 {
            Instr::Rmw(RmwOp::Rol)
        } else if row == 0x04 {
            Instr::Rmw(RmwOp::Lsr)
        } else if row == 0x06 {
            Instr::Rmw(RmwOp::Ror)
        } else if row == 0x08 {
            Instr::Write(WriteOp::Stx)
        } else if row == 0x0A {
            Instr::Read(ReadOp::Ldx)
        } else if row == 0x0C {
            Instr::Rmw(RmwOp::Dec)
        } else {
            Instr::Rmw(RmwOp::Inc)
        };
        OpKind::Table(inst, decode_addressing(row, column))
    } else {
        let inst = if row == 0x0E && column == 0x0B {
            Instr::Read(ReadOp::Sbc)
        } else if row == 0x00 {
            Instr::Rmw(RmwOp::Slo)
        } else if row == 0x02 {
            Instr::Rmw(RmwOp::Rla)
        } else if row == 0x04 {
            Instr::Rmw(RmwOp::Sre)
        } else if row == 0x06 {
            Instr::Rmw(RmwOp::Rra)
        } else if row == 0x08 {
            Instr::Write(WriteOp::Sax)
        } else if row == 0x0A {
            Instr::Read(ReadOp::Lax)
        } else if row == 0x0C {
            Instr::Rmw(RmwOp::Dcp)
        } else {
            Instr::Rmw(RmwOp::Isc)
        };
        OpKind::Table(inst, decode_addressing(row, column))
    }
}

/// Selects the addressing mode for a table opcode from its row and column.
pub fn decode_addressing(row: u8, column: u8) -> (r: AddrModeKind)
    ensures
        r == spec_addressing(row, column),
{
    if column == 0x00 || column == 0x02 || column == 0x09 || column == 0x0B {
        AddrModeKind::Immediate
    } else if column == 0x01 || column == 0x03 {
        AddrModeKind::IndexedIndirectX
    } else if 0x04 <= column && column <= 0x07 {
        AddrModeKind::ZeroPage
    } else if column == 0x08 {
        if row <= 0x06 { AddrModeKind::Stack } else { AddrModeKind::Accumulator }
    } else if column == 0x0A {
        AddrModeKind::Accumulator
    } else if 0x0C <= column && column <= 0x0F {
        AddrModeKind::Absolute
    } else if column == 0x11 || column == 0x13 {
        AddrModeKind::IndirectIndexedY
    } else if column == 0x12 {
        AddrModeKind::Immediate
    } else if column == 0x14 || column == 0x15 {
        AddrModeKind::ZeroPageIndexedX
    } else if column == 0x16 || column == 0x17 {
        if row == 0x08 || row == 0x0A {
            AddrModeKind::ZeroPageIndexedY
        } else {
            AddrModeKind::ZeroPageIndexedX
        }
    } else if column == 0x18 || column == 0x1A {
        AddrModeKind::Implied
    } else if column == 0x19 || column == 0x1B {
        AddrModeKind::AbsoluteIndexedY
    } else if column == 0x1C || column == 0x1D {
        AddrModeKind::AbsoluteIndexedX
    } else {
        if row == 0x08 || row == 0x0A {
            AddrModeKind::AbsoluteIndexedY
        } else {
            AddrModeKind::AbsoluteIndexedX
        }
    }
}

/// Appends the template of a (instruction, addressing mode) pair to the
/// microcode queue.
pub fn push_mode_steps(timing: &mut VecDeque<MicroStep>, inst: Instr, mode: AddrModeKind)
    ensures
        final(timing)@ == old(timing)@ + mode_steps(inst, mode),
{
    match mode {
        AddrModeKind::Immediate => {
            match inst {
                Instr::Read(r) => {
                    push_read(timing, AddrSource::PcInc, MicroOp::ExecRead(r));
                },
                _ => {
                    push_read(timing, AddrSource::PcInc, MicroOp::Nop);
                },
            }
            push_decode(timing);
            assert(final(timing)@ =~= old(timing)@ + mode_steps(inst, mode));
        },
        AddrModeKind::IndexedIndirectX => {
            push_read(timing, AddrSource::PcInc, MicroOp::PullOperand);
            push_read(timing, AddrSource::Zeropage, MicroOp::Nop);
            push_read(timing, AddrSource::ZeropageIndexedX, MicroOp::BufferLow);
            push_read(timing, AddrSource::ZeropageIndexedHighX, MicroOp::BufferHigh);
            match inst {
                Instr::Read(r) => {
                    push_read(timing, AddrSource::AddressBuffer, MicroOp::ExecRead(r));
                },
                Instr::Rmw(m) => {
                    push_read(timing, AddrSource::AddressBuffer, MicroOp::Nop);
                    push_write(timing, AddrSource::AddressBuffer, MicroOp::Nop);
                    push_write(timing, AddrSource::AddressBuffer, MicroOp::ExecRmw(m));
                },
                Instr::Write(w) => {
                    push_write(timing, AddrSource::AddressBuffer, MicroOp::ExecWrite(w));
                },
            }
            push_decode(timing);
            assert(final(timing)@ =~= old(timing)@ + mode_steps(inst, mode));
        },
        AddrModeKind::ZeroPage => {
            push_read(timing, AddrSource::PcInc, MicroOp::PullOperand);
            match inst {
                Instr::Read(r) => {
                    push_read(timing, AddrSource::Zeropage, MicroOp::ExecRead(r));
                },
                Instr::Rmw(m) => {
                    push_read(timing, AddrSource::Zeropage, MicroOp::Nop);
                    push_write(timing, AddrSource::Zeropage, MicroOp::Nop);
                    push_write(timing, AddrSource::Zeropage, MicroOp::ExecRmw(m));
                },
                Instr::Write(w) => {
                    push_write(timing, AddrSource::Zeropage, MicroOp::ExecWrite(w));
                },
            }
            push_decode(timing);
            assert(final(timing)@ =~= old(timing)@ + mode_steps(inst, mode));
        },
        AddrModeKind::Stack => {
            push_read(timing, AddrSource::Pc, MicroOp::Nop);
            match inst {
                Instr::Read(r) => {
                    push_read(timing, AddrSource::Stack, MicroOp::Nop);
                    push_read(timing, AddrSource::StackPull, MicroOp::ExecRead(r));
                },
                Instr::Write(w) => {
                    push_write(timing, AddrSource::StackPush, MicroOp::ExecWrite(w));
                },
                _ => {},
            }
            push_decode(timing);
            assert(final(timing)@ =~= old(timing)@ + mode_steps(inst, mode));
        },
        AddrModeKind::Accumulator => {
            match inst {
                Instr::Read(r) => {
                    push_read(timing, AddrSource::Pc, MicroOp::ExecReadAccum(r));
                },
                Instr::Rmw(m) => {
                    push_read(timing, AddrSource::Pc, MicroOp::ExecRmwAccum(m));
                },
                Instr::Write(_) => {
                    push_read(timing, AddrSource::Pc, MicroOp::Nop);
                },
            }
            push_decode(timing);
            assert(final(timing)@ =~= old(timing)@ + mode_steps(inst, mode));
        },
        AddrModeKind::Absolute => {
            push_read(timing, AddrSource::PcInc, MicroOp::BufferLow);
            push_read(timing, AddrSource::PcInc, MicroOp::BufferHigh);
            match inst {
                Instr::Read(r) => {
                    push_read(timing, AddrSource::AddressBuffer, MicroOp::ExecRead(r));
                },
                Instr::Rmw(m) => {
                    push_read(timing, AddrSource::AddressBuffer, MicroOp::Nop);
                    push_write(timing, AddrSource::AddressBuffer, MicroOp::Nop);
                    push_write(timing, AddrSource::AddressBuffer, MicroOp::ExecRmw(m));
                },
                Instr::Write(w) => {
                    push_write(timing, AddrSource::AddressBuffer, MicroOp::ExecWrite(w));
                },
            }
            push_decode(timing);
            assert(final(timing)@ =~= old(timing)@ + mode_steps(inst, mode));
        },
        AddrModeKind::IndirectIndexedY => {
            push_read(timing, AddrSource::PcInc, MicroOp::PullOperand);
            push_read(timing, AddrSource::Zeropage, MicroOp::BufferLow);
            match inst {
                Instr::Read(r) => {
                    push_read(timing, AddrSource::ZeropageNext, MicroOp::BufferHighFixupY);
                    push_read(timing, AddrSource::BufferAddY, MicroOp::ExecRead(r));
                },
                Instr::Rmw(m) => {
                    push_read(timing, AddrSource::ZeropageNext, MicroOp::BufferHigh);
                    push_read(timing, AddrSource::BufferNoCarryY, MicroOp::Nop);
                    push_read(timing, AddrSource::BufferAddY, MicroOp::Nop);
                    push_write(timing, AddrSource::BufferAddY, MicroOp::Nop);
                    push_write(timing, AddrSource::BufferAddY, MicroOp::ExecRmw(m));
                },
                Instr::Write(w) => {
                    push_read(timing, AddrSource::ZeropageNext, MicroOp::BufferHigh);
                    push_read(timing, AddrSource::BufferNoCarryY, MicroOp::Nop);
                    push_write(timing, AddrSource::BufferAddY, MicroOp::ExecWrite(w));
                },
            }
            push_decode(timing);
            assert(final(timing)@ =~= old(timing)@ + mode_steps(inst, mode));
        },
        AddrModeKind::ZeroPageIndexedX => {
            push_zeropage_indexed(timing, inst, AddrSource::ZeropageIndexedX);
        },
        AddrModeKind::ZeroPageIndexedY => {
            push_zeropage_indexed(timing, inst, AddrSource::ZeropageIndexedY);
        },
        AddrModeKind::Implied => {
            match inst {
                Instr::Read(r) => {
                    push_read(timing, AddrSource::Pc, MicroOp::ExecRead(r));
                },
                _ => {
                    push_read(timing, AddrSource::Pc, MicroOp::Nop);
                },
            }
            push_decode(timing);
            assert(final(timing)@ =~= old(timing)@ + mode_steps(inst, mode));
        },
        AddrModeKind::AbsoluteIndexedX => {
            push_absolute_indexed(
                timing,
                inst,
                MicroOp::BufferHighFixupX,
                AddrSource::BufferNoCarryX,
                AddrSource::BufferAddX,
            );
        },
        AddrModeKind::AbsoluteIndexedY => {
            push_absolute_indexed(
                timing,
                inst,
                MicroOp::BufferHighFixupY,
                AddrSource::BufferNoCarryY,
                AddrSource::BufferAddY,
            );
        },
    }
}

/// The documented base cycle count of each (addressing mode, I/O
/// category) pair, page crosses excluded; the formally invalid pairings
/// take the two cycles of their dummy.
pub open spec fn documented_cycles(inst: Instr, mode: AddrModeKind) -> int {
    match mode {
        AddrModeKind::Immediate => 2,
        AddrModeKind::IndexedIndirectX => match inst {
            Instr::Read(_) => 6,
            Instr::Rmw(_) => 8,
            Instr::Write(_) => 6,
        },
        AddrModeKind::ZeroPage => match inst {
            Instr::Read(_) => 3,
            Instr::Rmw(_) => 5,
            Instr::Write(_) => 3,
        },
        AddrModeKind::Stack => match inst {
            Instr::Read(_) => 4,
            Instr::Rmw(_) => 2,
            Instr::Write(_) => 3,
        },
        AddrModeKind::Accumulator => 2,
        AddrModeKind::Absolute => match inst {
            Instr::Read(_) => 4,
            Instr::Rmw(_) => 6,
            Instr::Write(_) => 4,
        },
        AddrModeKind::IndirectIndexedY => match inst {
            Instr::Read(_) => 5,
            Instr::Rmw(_) => 8,
            Instr::Write(_) => 6,
        },
        AddrModeKind::ZeroPageIndexedX => match inst {
            Instr::Read(_) => 4,
            Instr::Rmw(_) => 6,
            Instr::Write(_) => 4,
        },
        AddrModeKind::ZeroPageIndexedY => match inst {
            Instr::Read(_) => 4,
            Instr::Rmw(_) => 6,
            Instr::Write(_) => 4,
        },
        AddrModeKind::Implied => 2,
        AddrModeKind::AbsoluteIndexedX => match inst {
            Instr::Read(_) => 4,
            Instr::Rmw(_) => 7,
            Instr::Write(_) => 5,
        },
        AddrModeKind::AbsoluteIndexedY => match inst {
            Instr::Read(_) => 4,
            Instr::Rmw(_) => 7,
            Instr::Write(_) => 5,
        },
    }
}

/// Every instruction's enqueued microsteps number exactly its documented
/// 6502 cycle count (one step per cycle, the closing decode step standing
/// for the next opcode fetch): the templates by the table above, the
/// hand-timed control transfers by their own counts (JSR, RTS and RTI six,
/// absolute JMP three, indirect JMP five), and a branch two cycles plus
/// one when taken.  Page crosses pay their extra cycle through steps
/// front-queued at run time, not counted here.
pub proof fn lemma_opcode_cycle_counts(op: u8, p: u8)
    ensures
        (spec_decode(op) matches OpKind::Table(inst, mode)
            ==> decode_seq(op, p).len() == documented_cycles(inst, mode)),
        spec_decode(op) == OpKind::Jsr ==> decode_seq(op, p).len() == 6,
        spec_decode(op) == OpKind::Rti ==> decode_seq(op, p).len() == 6,
        spec_decode(op) == OpKind::Rts ==> decode_seq(op, p).len() == 6,
        spec_decode(op) == OpKind::Jmp ==> decode_seq(op, p).len() == 3,
        spec_decode(op) == OpKind::JmpIndirect ==> decode_seq(op, p).len() == 5,
        spec_decode(op) == OpKind::Branch ==> decode_seq(op, p).len()
            == 2 + (if branch_taken(op, p) { 1int } else { 0int }),
{
    match spec_decode(op) {
        OpKind::Table(inst, mode) => {
            assert(mode_steps(inst, mode).len() == documented_cycles(inst, mode));
        },
        _ => {},
    }
}

/// A branch that is not taken enqueues two cycles; a taken one, three.
/// The fourth cycle of a page-crossing branch is the fix-up step the
/// retargeting cycle front-queues.
pub proof fn lemma_branch_quantum(taken: bool)
    ensures
        branch_steps(taken).len() == if taken { 3int } else { 2int },
{
}

/// The stack pointer after `n` pushes.
pub open spec fn stack_after_pushes(s: u8, n: nat) -> u8
    decreases n,
{
    if n == 0 {
        s
    } else {
        dec_wrap(stack_after_pushes(s, (n - 1) as nat))
    }
}

/// Pushing moves the stack pointer down modulo 256.
pub proof fn lemma_stack_pushes_mod(s: u8, n: nat)
    ensures
        stack_after_pushes(s, n) == ((s as int - n) % 256) as u8,
    decreases n,
{
    if n > 0 {
        lemma_stack_pushes_mod(s, (n - 1) as nat);
    }
}

/// Pushing 256 bytes wraps the stack pointer back to where it started.
pub proof fn lemma_stack_wrap(s: u8)
    ensures
        stack_after_pushes(s, 256) == s,
{
    lemma_stack_pushes_mod(s, 256);
}

/// Every stack access resolves into the `$01xx` page, whatever the stack
/// pointer: push, pull and the idle stack read alike.
pub proof fn lemma_stack_page(r: Registers)
    ensures
        crate::addr_high(spec_resolve(r, AddrSource::Stack).0.0) == 0x01,
        crate::addr_high(spec_resolve(r, AddrSource::StackPush).0.0) == 0x01,
        crate::addr_high(spec_resolve(r, AddrSource::StackPull).0.0) == 0x01,
        spec_resolve(r, AddrSource::StackPush).1.stack == dec_wrap(r.stack),
        spec_resolve(r, AddrSource::StackPull).1.stack == inc_wrap(r.stack),
{
}

/// The indexing discipline of the templates: every zero-page source
/// resolves into page zero, the no-carry buffer sources keep the buffer's
/// page, and the full-add sources carry into the high byte.
pub proof fn lemma_indexing_discipline(r: Registers)
    ensures
        crate::addr_high(spec_resolve(r, AddrSource::Zeropage).0.0) == 0,
        crate::addr_high(spec_resolve(r, AddrSource::ZeropageIndexedX).0.0) == 0,
        crate::addr_high(spec_resolve(r, AddrSource::ZeropageIndexedY).0.0) == 0,
        crate::addr_high(spec_resolve(r, AddrSource::ZeropageIndexedHighX).0.0) == 0,
        crate::addr_high(spec_resolve(r, AddrSource::ZeropageNext).0.0) == 0,
        crate::addr_high(spec_resolve(r, AddrSource::BufferNoCarryX).0.0)
            == crate::addr_high(r.address_buffer.0),
        crate::addr_high(spec_resolve(r, AddrSource::BufferNoCarryY).0.0)
            == crate::addr_high(r.address_buffer.0),
        spec_resolve(r, AddrSource::BufferAddX).0.0
            == ((r.address_buffer.0 as int + r.x as int) % 0x10000) as u16,
        spec_resolve(r, AddrSource::BufferAddY).0.0
            == ((r.address_buffer.0 as int + r.y as int) % 0x10000) as u16,
{
    crate::lemma_index_preserves_high(r.address_buffer.0, r.x);
    crate::lemma_index_preserves_high(r.address_buffer.0, r.y);
}

/// The indirect-JMP page-wrap bug: the target's high byte is read at the
/// pointer's low byte plus one within the same page, never at the next
/// page.
pub proof fn lemma_jmp_indirect_page_wrap(r: Registers)
    ensures
        jmp_indirect_steps()[3] == rstep(AddrSource::BufferWrapNext, MicroOp::ExecRead(ReadOp::Jmp)),
        crate::addr_high(spec_resolve(r, AddrSource::BufferWrapNext).0.0)
            == crate::addr_high(r.address_buffer.0),
        crate::addr_low(spec_resolve(r, AddrSource::BufferWrapNext).0.0)
            == ((crate::addr_low(r.address_buffer.0) as int + 1) % 256) as u8,
{
    crate::lemma_index_preserves_high(r.address_buffer.0, 1);
}

/// Appends one read-direction microstep.
pub fn push_read(timing: &mut VecDeque<MicroStep>, a: AddrSource, op: MicroOp)
    ensures
        final(timing)@ == old(timing)@.push(rstep(a, op)),
{
    timing.push_back(MicroStep { addr: a, dir: BusDirection::Read(op) });
}

/// Appends one write-direction microstep.
pub fn push_write(timing: &mut VecDeque<MicroStep>, a: AddrSource, op: MicroOp)
    ensures
        final(timing)@ == old(timing)@.push(wstep(a, op)),
{
    timing.push_back(MicroStep { addr: a, dir: BusDirection::Write(op) });
}

/// Appends the decode step that closes every template.
pub fn push_decode(timing: &mut VecDeque<MicroStep>)
    ensures
        final(timing)@ == old(timing)@.push(decode_step()),
{
    timing.push_back(MicroStep {
        addr: AddrSource::PcInc,
        dir: BusDirection::Read(MicroOp::Decode),
    });
}

/// Appends the zero-page indexed template.
fn push_zeropage_indexed(timing: &mut VecDeque<MicroStep>, inst: Instr, indexed: AddrSource)
    ensures
        final(timing)@ == old(timing)@ + zeropage_indexed_steps(inst, indexed),
{
    push_read(timing, AddrSource::PcInc, MicroOp::PullOperand);
    push_read(timing, AddrSource::Zeropage, MicroOp::Nop);
    match inst {
        Instr::Read(r) => {
            push_read(timing, indexed, MicroOp::ExecRead(r));
        },
        Instr::Rmw(m) => {
            push_read(timing, indexed, MicroOp::Nop);
            push_write(timing, indexed, MicroOp::Nop);
            push_write(timing, indexed, MicroOp::ExecRmw(m));
        },
        Instr::Write(w) => {
            push_write(timing, indexed, MicroOp::ExecWrite(w));
        },
    }
    push_decode(timing);
    assert(final(timing)@ =~= old(timing)@ + zeropage_indexed_steps(inst, indexed));
}

/// Appends the absolute indexed template.
fn push_absolute_indexed(
    timing: &mut VecDeque<MicroStep>,
    inst: Instr,
    fixup: MicroOp,
    no_carry: AddrSource,
    corrected: AddrSource,
)
    ensures
        final(timing)@ == old(timing)@ + absolute_indexed_steps(inst, fixup, no_carry, corrected),
{
    push_read(timing, AddrSource::PcInc, MicroOp::BufferLow);
    match inst {
        Instr::Read(r) => {
            push_read(timing, AddrSource::PcInc, fixup);
            push_read(timing, corrected, MicroOp::ExecRead(r));
        },
        Instr::Rmw(m) => {
            push_read(timing, AddrSource::PcInc, MicroOp::BufferHigh);
            push_read(timing, no_carry, MicroOp::Nop);
            push_read(timing, corrected, MicroOp::Nop);
            push_write(timing, corrected, MicroOp::Nop);
            push_write(timing, corrected, MicroOp::ExecRmw(m));
        },
        Instr::Write(w) => {
            push_read(timing, AddrSource::PcInc, MicroOp::BufferHigh);
            push_read(timing, no_carry, MicroOp::Nop);
            push_write(timing, corrected, MicroOp::ExecWrite(w));
        },
    }
    push_decode(timing);
    assert(final(timing)@ =~= old(timing)@ + absolute_indexed_steps(inst, fixup, no_carry, corrected));
}

} // verus!
