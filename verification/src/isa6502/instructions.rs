//! The instruction catalog: pure register-file semantics of every 6502
//! operation, independent of cycle timing.  Each operation is a unit struct
//! whose `execute` is specified exactly by a companion spec function, and
//! three small enums let the microcode queue name an operation as data.

use vstd::prelude::*;

use crate::Address;
use crate::addr_join;
use crate::addr_high;
use crate::addr_low;
use crate::isa6502::FLAG_C;
use crate::isa6502::FLAG_Z;
use crate::isa6502::FLAG_I;
use crate::isa6502::FLAG_D;
use crate::isa6502::FLAG_V;
use crate::isa6502::FLAG_N;
use crate::isa6502::STACK_MASK;
use crate::isa6502::Registers;
use crate::isa6502::StatusFlags;
use crate::isa6502::flag_set;
use crate::isa6502::with_nz;

verus! {

/// Read-category operations: they consume one bus byte (or the
/// accumulator) and update the register file.
#[derive(Clone, Copy, PartialEq, Eq, Structural, Debug)]
pub enum ReadOp {
    Jsr, Bit, Plp, Pla, Dey, Tay, Iny, Inx, Jmp, Clc, Sec, Cli, Sei, Clv,
    Cld, Sed, Tya, Ldy, Cpy, Cpx, Ora, And, Eor, Adc, Lda, Cmp, Sbc, Txa,
    Txs, Tax, Tsx, Ldx, Dex, Nop, Lax, Pcl, Pch,
}

/// Read-modify-write operations: they transform the byte in place and
/// update the flags (and, for the unofficial combinations, the registers).
#[derive(Clone, Copy, PartialEq, Eq, Structural, Debug)]
pub enum RmwOp {
    Asl, Rol, Lsr, Ror, Dec, Inc, Slo, Rla, Sre, Rra, Dcp, Isc,
}

/// Write-category operations: they emit one byte from the register file.
#[derive(Clone, Copy, PartialEq, Eq, Structural, Debug)]
pub enum WriteOp {
    Php, Pha, Sty, Sta, Stx, Sax, Pcl, Pch,
}

/// `p` with the bits of `mask` forced to `value`.
pub open spec fn set_flag(p: u8, mask: u8, value: bool) -> u8 {
    if value { p | mask } else { p & !mask }
}

/// The carry flag of `p` as an integer 0 or 1.
pub open spec fn carry_bit(p: u8) -> int {
    (p & 0x01) as int
}

/// The unbounded sum an addition with carry produces.
pub open spec fn adc_sum(a: u8, d: u8, p: u8) -> int {
    a as int + d as int + carry_bit(p)
}

/// The byte kept from an addition with carry.
pub open spec fn adc_result(a: u8, d: u8, p: u8) -> u8 {
    (adc_sum(a, d, p) % 256) as u8
}

/// The 6502 overflow rule: set when the operands agree in sign and the
/// result does not.
pub open spec fn overflow_set(a: u8, d: u8, r: u8) -> bool {
    (r ^ a) & (r ^ d) & 0x80 != 0
}

/// The register file after an addition with carry of `d` into A.
pub open spec fn spec_adc(regs: Registers, d: u8) -> Registers {
    let r = adc_result(regs.a, d, regs.p.bits);
    let p1 = set_flag(regs.p.bits, FLAG_C, adc_sum(regs.a, d, regs.p.bits) > 255);
    let p2 = set_flag(p1, FLAG_V, overflow_set(regs.a, d, r));
    Registers { a: r, p: StatusFlags { bits: with_nz(p2, r) }, ..regs }
}

/// Subtraction with borrow is addition with carry of the one's complement.
pub open spec fn spec_sbc(regs: Registers, d: u8) -> Registers {
    spec_adc(regs, !d)
}

/// The flag byte a comparison of `r` against `d` leaves: C on no borrow,
/// Z on equality, N from bit 7 of the wrapped difference.
pub open spec fn spec_compare_flags(p: u8, r: u8, d: u8) -> u8 {
    let diff = (((r as int) - (d as int)) % 256) as u8;
    set_flag(set_flag(set_flag(p, FLAG_C, r >= d), FLAG_Z, r == d), FLAG_N, diff >= 0x80)
}

/// The register file after BIT: N and V copied from the operand, Z from
/// the masked accumulator, A untouched.
pub open spec fn spec_bit(regs: Registers, d: u8) -> Registers {
    let p1 = (regs.p.bits & !(FLAG_N | FLAG_V)) | (d & (FLAG_N | FLAG_V));
    Registers { p: StatusFlags { bits: set_flag(p1, FLAG_Z, regs.a & d == 0) }, ..regs }
}

/// The flag byte a stack pull restores: B and Reserved keep their
/// in-register values, everything else comes from the pulled byte.
pub open spec fn spec_plp_bits(p: u8, d: u8) -> u8 {
    (d & STACK_MASK) | (p & !STACK_MASK)
}

/// The byte PHP pushes: P with B and Reserved forced on.
pub open spec fn spec_php_bits(p: u8) -> u8 {
    p | !STACK_MASK
}

/// An arithmetic shift left: C takes bit 7, the byte doubles mod 256.
pub open spec fn spec_asl(regs: Registers, d: u8) -> (Registers, u8) {
    let r = (((d as int) * 2) % 256) as u8;
    let p1 = set_flag(regs.p.bits, FLAG_C, d & 0x80 != 0);
    (Registers { p: StatusFlags { bits: with_nz(p1, r) }, ..regs }, r)
}

/// A rotate left through carry.
pub open spec fn spec_rol(regs: Registers, d: u8) -> (Registers, u8) {
    let r = ((((d as int) * 2) % 256) as u8) | (if flag_set(regs.p.bits, FLAG_C) { 0x01u8 } else { 0x00u8 });
    let p1 = set_flag(regs.p.bits, FLAG_C, d & 0x80 != 0);
    (Registers { p: StatusFlags { bits: with_nz(p1, r) }, ..regs }, r)
}

/// A logical shift right: C takes bit 0, the byte halves.
pub open spec fn spec_lsr(regs: Registers, d: u8) -> (Registers, u8) {
    let r = ((d as int) / 2) as u8;
    let p1 = set_flag(regs.p.bits, FLAG_C, d & 0x01 != 0);
    (Registers { p: StatusFlags { bits: with_nz(p1, r) }, ..regs }, r)
}

/// A rotate right through carry.
pub open spec fn spec_ror(regs: Registers, d: u8) -> (Registers, u8) {
    let r = (((d as int) / 2) as u8) | (if flag_set(regs.p.bits, FLAG_C) { 0x80u8 } else { 0x00u8 });
    let p1 = set_flag(regs.p.bits, FLAG_C, d & 0x01 != 0);
    (Registers { p: StatusFlags { bits: with_nz(p1, r) }, ..regs }, r)
}

/// The wrapped decrement of a byte.
pub open spec fn dec_wrap(d: u8) -> u8 {
    (((d as int) - 1) % 256) as u8
}

/// The wrapped increment of a byte.
pub open spec fn inc_wrap(d: u8) -> u8 {
    (((d as int) + 1) % 256) as u8
}

/// Loading a value into A: value flags follow.
pub open spec fn spec_lda(regs: Registers, d: u8) -> Registers {
    Registers { a: d, p: StatusFlags { bits: with_nz(regs.p.bits, d) }, ..regs }
}

/// Loading a value into X.
pub open spec fn spec_ldx(regs: Registers, d: u8) -> Registers {
    Registers { x: d, p: StatusFlags { bits: with_nz(regs.p.bits, d) }, ..regs }
}

/// Loading a value into Y.
pub open spec fn spec_ldy(regs: Registers, d: u8) -> Registers {
    Registers { y: d, p: StatusFlags { bits: with_nz(regs.p.bits, d) }, ..regs }
}

/// ORA: inclusive or into A.
pub open spec fn spec_ora(regs: Registers, d: u8) -> Registers {
    spec_lda(regs, regs.a | d)
}

/// AND: conjunction into A.
pub open spec fn spec_and(regs: Registers, d: u8) -> Registers {
    spec_lda(regs, regs.a & d)
}

/// EOR: exclusive or into A.
pub open spec fn spec_eor(regs: Registers, d: u8) -> Registers {
    spec_lda(regs, regs.a ^ d)
}

/// The read-category interpretation: what each `ReadOp` does to the
/// register file given the consumed byte.
pub open spec fn spec_exec_read(op: ReadOp, regs: Registers, d: u8) -> Registers {
    match op {
        ReadOp::Jsr => Registers { pc: Address(addr_join(d, regs.operand)), ..regs },
        ReadOp::Jmp => Registers { pc: Address(addr_join(d, regs.operand)), ..regs },
        ReadOp::Bit => spec_bit(regs, d),
        ReadOp::Plp => Registers {
            p: StatusFlags { bits: spec_plp_bits(regs.p.bits, d) },
            ..regs
        },
        ReadOp::Pla => spec_lda(regs, d),
        ReadOp::Dey => Registers {
            y: dec_wrap(regs.y),
            p: StatusFlags { bits: with_nz(regs.p.bits, dec_wrap(regs.y)) },
            ..regs
        },
        ReadOp::Iny => Registers {
            y: inc_wrap(regs.y),
            p: StatusFlags { bits: with_nz(regs.p.bits, inc_wrap(regs.y)) },
            ..regs
        },
        ReadOp::Inx => Registers {
            x: inc_wrap(regs.x),
            p: StatusFlags { bits: with_nz(regs.p.bits, inc_wrap(regs.x)) },
            ..regs
        },
        ReadOp::Dex => Registers {
            x: dec_wrap(regs.x),
            p: StatusFlags { bits: with_nz(regs.p.bits, dec_wrap(regs.x)) },
            ..regs
        },
        ReadOp::Tay => spec_ldy(regs, regs.a),
        ReadOp::Tya => spec_lda(regs, regs.y),
        ReadOp::Txa => spec_lda(regs, regs.x),
        ReadOp::Tax => spec_ldx(regs, regs.a),
        ReadOp::Tsx => spec_ldx(regs, regs.stack),
        ReadOp::Txs => Registers { stack: regs.x, ..regs },
        ReadOp::Clc => Registers { p: StatusFlags { bits: set_flag(regs.p.bits, FLAG_C, false) }, ..regs },
        ReadOp::Cli => Registers { p: StatusFlags { bits: set_flag(regs.p.bits, FLAG_I, false) }, ..regs },
        ReadOp::Sec => Registers { p: StatusFlags { bits: set_flag(regs.p.bits, FLAG_C, true) }, ..regs },
        ReadOp::Sei => Registers { p: StatusFlags { bits: set_flag(regs.p.bits, FLAG_I, true) }, ..regs },
        ReadOp::Clv => Registers { p: StatusFlags { bits: set_flag(regs.p.bits, FLAG_V, false) }, ..regs },
        ReadOp::Cld => Registers { p: StatusFlags { bits: set_flag(regs.p.bits, FLAG_D, false) }, ..regs },
        ReadOp::Sed => Registers { p: StatusFlags { bits: set_flag(regs.p.bits, FLAG_D, true) }, ..regs },
        ReadOp::Ldy => spec_ldy(regs, d),
        ReadOp::Ldx => spec_ldx(regs, d),
        ReadOp::Lda => spec_lda(regs, d),
        ReadOp::Lax => spec_ldx(spec_lda(regs, d), d),
        ReadOp::Cpy => Registers { p: StatusFlags { bits: spec_compare_flags(regs.p.bits, regs.y, d) }, ..regs },
        ReadOp::Cpx => Registers { p: StatusFlags { bits: spec_compare_flags(regs.p.bits, regs.x, d) }, ..regs },
        ReadOp::Cmp => Registers { p: StatusFlags { bits: spec_compare_flags(regs.p.bits, regs.a, d) }, ..regs },
        ReadOp::Ora => spec_ora(regs, d),
        ReadOp::And => spec_and(regs, d),
        ReadOp::Eor => spec_eor(regs, d),
        ReadOp::Adc => spec_adc(regs, d),
        ReadOp::Sbc => spec_sbc(regs, d),
        ReadOp::Nop => regs,
        ReadOp::Pcl => Registers { pc: Address(addr_join(addr_high(regs.pc.0), d)), ..regs },
        ReadOp::Pch => Registers { pc: Address(addr_join(d, addr_low(regs.pc.0))), ..regs },
    }
}

/// The read-modify-write interpretation: the new register file and the
/// transformed byte.
pub open spec fn spec_exec_rmw(op: RmwOp, regs: Registers, d: u8) -> (Registers, u8) {
    match op {
        RmwOp::Asl => spec_asl(regs, d),
        RmwOp::Rol => spec_rol(regs, d),
        RmwOp::Lsr => spec_lsr(regs, d),
        RmwOp::Ror => spec_ror(regs, d),
        RmwOp::Dec => (
            Registers { p: StatusFlags { bits: with_nz(regs.p.bits, dec_wrap(d)) }, ..regs },
            dec_wrap(d),
        ),
        RmwOp::Inc => (
            Registers { p: StatusFlags { bits: with_nz(regs.p.bits, inc_wrap(d)) }, ..regs },
            inc_wrap(d),
        ),
        RmwOp::Slo => {
            let (r1, d1) = spec_asl(regs, d);
            (spec_ora(r1, d1), d1)
        },
        RmwOp::Rla => {
            let (r1, d1) = spec_rol(regs, d);
            (spec_and(r1, d1), d1)
        },
        RmwOp::Sre => {
            let (r1, d1) = spec_lsr(regs, d);
            (spec_eor(r1, d1), d1)
        },
        RmwOp::Rra => {
            let (r1, d1) = spec_ror(regs, d);
            (spec_adc(r1, d1), d1)
        },
        RmwOp::Dcp => {
            let d1 = dec_wrap(d);
            let r1 = Registers { p: StatusFlags { bits: with_nz(regs.p.bits, d1) }, ..regs };
            (
                Registers { p: StatusFlags { bits: spec_compare_flags(r1.p.bits, r1.a, d1) }, ..r1 },
                d1,
            )
        },
        RmwOp::Isc => {
            let d1 = inc_wrap(d);
            let r1 = Registers { p: StatusFlags { bits: with_nz(regs.p.bits, d1) }, ..regs };
            (spec_sbc(r1, d1), d1)
        },
    }
}

/// The write-category interpretation: the byte each `WriteOp` emits.
pub open spec fn spec_exec_write(op: WriteOp, regs: Registers) -> u8 {
    match op {
        WriteOp::Php => spec_php_bits(regs.p.bits),
        WriteOp::Pha => regs.a,
        WriteOp::Sty => regs.y,
        WriteOp::Sta => regs.a,
        WriteOp::Stx => regs.x,
        WriteOp::Sax => regs.a & regs.x,
        WriteOp::Pcl => addr_low(regs.pc.0),
        WriteOp::Pch => addr_high(regs.pc.0),
    }
}

/// JSR's final cycle: the fetched high byte and the latched operand become
/// the new program counter.
pub struct JSR;

impl JSR {
    pub fn execute(registers: &mut Registers, data: &u8)
        ensures
            *final(registers) == spec_exec_read(ReadOp::Jsr, *old(registers), *data),
    {
        registers.pc = Address::new(*data, registers.operand);
    }
}

/// BIT: N and V from the operand, Z from A AND operand.
pub struct BIT;

impl BIT {
    pub fn execute(registers: &mut Registers, data: &u8)
        ensures
            *final(registers) == spec_exec_read(ReadOp::Bit, *old(registers), *data),
    {
        let result = registers.a & *data;
        let bits = registers.p.bits();
        registers.p = StatusFlags::from_bits(
            (bits & !(FLAG_N | FLAG_V)) | (*data & (FLAG_N | FLAG_V)),
        );
        registers.p.set(FLAG_Z, result == 0);
    }
}

/// PHP: push P with B and Reserved forced on.
pub struct PHP;

impl PHP {
    pub fn execute(registers: &Registers, data: &mut u8)
        ensures
            *final(data) == spec_exec_write(WriteOp::Php, *registers),
    {
        *data = registers.p.bits() | !STACK_MASK;
    }
}

/// PLP: restore P from the stack, keeping the in-register B and Reserved.
pub struct PLP;

impl PLP {
    pub fn execute(registers: &mut Registers, data: &u8)
        ensures
            *final(registers) == spec_exec_read(ReadOp::Plp, *old(registers), *data),
    {
        registers.p = StatusFlags::from_bits(
            (*data & STACK_MASK) | (registers.p.bits() & !STACK_MASK),
        );
    }
}

/// PHA: push the accumulator.
pub struct PHA;

impl PHA {
    pub fn execute(registers: &Registers, data: &mut u8)
        ensures
            *final(data) == spec_exec_write(WriteOp::Pha, *registers),
    {
        *data = registers.a;
    }
}

/// PLA: pull the accumulator, updating Z and N.
pub struct PLA;

impl PLA {
    pub fn execute(registers: &mut Registers, data: &u8)
        ensures
            *final(registers) == spec_exec_read(ReadOp::Pla, *old(registers), *data),
    {
        registers.a = *data;
        registers.p.set_value_flags(registers.a);
    }
}

/// DEY: wrapped decrement of Y.
pub struct DEY;

impl DEY {
    pub fn execute(registers: &mut Registers, _data: &u8)
        ensures
            *final(registers) == spec_exec_read(ReadOp::Dey, *old(registers), 0),
    {
        registers.y = registers.y.wrapping_sub(1);
        registers.p.set_value_flags(registers.y);
    }
}

/// TAY: copy A into Y.
pub struct TAY;

impl TAY {
    pub fn execute(registers: &mut Registers, _data: &u8)
        ensures
            *final(registers) == spec_exec_read(ReadOp::Tay, *old(registers), 0),
    {
        registers.y = registers.a;
        registers.p.set_value_flags(registers.y);
    }
}

/// INY: wrapped increment of Y.
pub struct INY;

impl INY {
    pub fn execute(registers: &mut Registers, _data: &u8)
        ensures
            *final(registers) == spec_exec_read(ReadOp::Iny, *old(registers), 0),
    {
        registers.y = registers.y.wrapping_add(1);
        registers.p.set_value_flags(registers.y);
    }
}

/// INX: wrapped increment of X.
pub struct INX;

impl INX {
    pub fn execute(registers: &mut Registers, _data: &u8)
        ensures
            *final(registers) == spec_exec_read(ReadOp::Inx, *old(registers), 0),
    {
        registers.x = registers.x.wrapping_add(1);
        registers.p.set_value_flags(registers.x);
    }
}

/// JMP: the fetched high byte and the latched operand become the new PC.
pub struct JMP;

impl JMP {
    pub fn execute(registers: &mut Registers, data: &u8)
        ensures
            *final(registers) == spec_exec_read(ReadOp::Jmp, *old(registers), *data),
    {
        registers.pc = Address::new(*data, registers.operand);
    }
}

/// CLC: clear carry.
pub struct CLC;

impl CLC {
    pub fn execute(registers: &mut Registers, _data: &u8)
        ensures
            *final(registers) == spec_exec_read(ReadOp::Clc, *old(registers), 0),
    {
        registers.p.set(FLAG_C, false);
    }
}

/// SEC: set carry.
pub struct SEC;

impl SEC {
    pub fn execute(registers: &mut Registers, _data: &u8)
        ensures
            *final(registers) == spec_exec_read(ReadOp::Sec, *old(registers), 0),
    {
        registers.p.set(FLAG_C, true);
    }
}

/// CLI: clear the interrupt-disable flag.
pub struct CLI;

impl CLI {
    pub fn execute(registers: &mut Registers, _data: &u8)
        ensures
            *final(registers) == spec_exec_read(ReadOp::Cli, *old(registers), 0),
    {
        registers.p.set(FLAG_I, false);
    }
}

/// SEI: set the interrupt-disable flag.
pub struct SEI;

impl SEI {
    pub fn execute(registers: &mut Registers, _data: &u8)
        ensures
            *final(registers) == spec_exec_read(ReadOp::Sei, *old(registers), 0),
    {
        registers.p.set(FLAG_I, true);
    }
}

/// CLV: clear overflow.
pub struct CLV;

impl CLV {
    pub fn execute(registers: &mut Registers, _data: &u8)
        ensures
            *final(registers) == spec_exec_read(ReadOp::Clv, *old(registers), 0),
    {
        registers.p.set(FLAG_V, false);
    }
}

/// CLD: clear the decimal flag.
pub struct CLD;

impl CLD {
    pub fn execute(registers: &mut Registers, _data: &u8)
        ensures
            *final(registers) == spec_exec_read(ReadOp::Cld, *old(registers), 0),
    {
        registers.p.set(FLAG_D, false);
    }
}

/// SED: set the decimal flag (stored but without effect on the RP2A03).
pub struct SED;

impl SED {
    pub fn execute(registers: &mut Registers, _data: &u8)
        ensures
            *final(registers) == spec_exec_read(ReadOp::Sed, *old(registers), 0),
    {
        registers.p.set(FLAG_D, true);
    }
}

/// TYA: copy Y into A.
pub struct TYA;

impl TYA {
    pub fn execute(registers: &mut Registers, _data: &u8)
        ensures
            *final(registers) == spec_exec_read(ReadOp::Tya, *old(registers), 0),
    {
        registers.a = registers.y;
        registers.p.set_value_flags(registers.a);
    }
}

/// STY: emit Y.
pub struct STY;

impl STY {
    pub fn execute(registers: &Registers, data: &mut u8)
        ensures
            *final(data) == spec_exec_write(WriteOp::Sty, *registers),
    {
        *data = registers.y;
    }
}

/// LDY: load Y.
pub struct LDY;

impl LDY {
    pub fn execute(registers: &mut Registers, data: &u8)
        ensures
            *final(registers) == spec_exec_read(ReadOp::Ldy, *old(registers), *data),
    {
        registers.y = *data;
        registers.p.set_value_flags(registers.y);
    }
}

/// CPY: compare Y with the operand.
pub struct CPY;

impl CPY {
    pub fn execute(registers: &mut Registers, data: &u8)
        ensures
            *final(registers) == spec_exec_read(ReadOp::Cpy, *old(registers), *data),
    {
        registers.p.set(FLAG_C, registers.y >= *data);
        registers.p.set(FLAG_Z, registers.y == *data);
        registers.p.set(FLAG_N, registers.y.wrapping_sub(*data) >= 0x80);
    }
}

/// CPX: compare X with the operand.
pub struct CPX;

impl CPX {
    pub fn execute(registers: &mut Registers, data: &u8)
        ensures
            *final(registers) == spec_exec_read(ReadOp::Cpx, *old(registers), *data),
    {
        registers.p.set(FLAG_C, registers.x >= *data);
        registers.p.set(FLAG_Z, registers.x == *data);
        registers.p.set(FLAG_N, registers.x.wrapping_sub(*data) >= 0x80);
    }
}

/// ORA: inclusive or into A.
pub struct ORA;

impl ORA {
    pub fn execute(registers: &mut Registers, data: &u8)
        ensures
            *final(registers) == spec_exec_read(ReadOp::Ora, *old(registers), *data),
    {
        registers.a = registers.a | *data;
        registers.p.set_value_flags(registers.a);
    }
}

/// AND: conjunction into A.
pub struct AND;

impl AND {
    pub fn execute(registers: &mut Registers, data: &u8)
        ensures
            *final(registers) == spec_exec_read(ReadOp::And, *old(registers), *data),
    {
        registers.a = registers.a & *data;
        registers.p.set_value_flags(registers.a);
    }
}

/// EOR: exclusive or into A.
pub struct EOR;

impl EOR {
    pub fn execute(registers: &mut Registers, data: &u8)
        ensures
            *final(registers) == spec_exec_read(ReadOp::Eor, *old(registers), *data),
    {
        registers.a = registers.a ^ *data;
        registers.p.set_value_flags(registers.a);
    }
}

/// ADC: add with carry; C is the unsigned overflow, V the signed one.
pub struct ADC;

impl ADC {
    pub fn execute(registers: &mut Registers, data: &u8)
        ensures
            *final(registers) == spec_exec_read(ReadOp::Adc, *old(registers), *data),
    {
        let a = registers.a;
        let carry = registers.p.bits() & 0x01;
        let sum: u16 = a as u16 + *data as u16 + carry as u16;
        let result: u8 = (sum % 256) as u8;
        registers.p.set(FLAG_C, sum > 255);
        registers.p.set(FLAG_V, (result ^ a) & (result ^ *data) & 0x80 != 0);
        registers.a = result;
        registers.p.set_value_flags(result);
    }
}

/// STA: emit A.
pub struct STA;

impl STA {
    pub fn execute(registers: &Registers, data: &mut u8)
        ensures
            *final(data) == spec_exec_write(WriteOp::Sta, *registers),
    {
        *data = registers.a;
    }
}

/// LDA: load A.
pub struct LDA;

impl LDA {
    pub fn execute(registers: &mut Registers, data: &u8)
        ensures
            *final(registers) == spec_exec_read(ReadOp::Lda, *old(registers), *data),
    {
        registers.a = *data;
        registers.p.set_value_flags(registers.a);
    }
}

/// CMP: compare A with the operand.
pub struct CMP;

impl CMP {
    pub fn execute(registers: &mut Registers, data: &u8)
        ensures
            *final(registers) == spec_exec_read(ReadOp::Cmp, *old(registers), *data),
    {
        registers.p.set(FLAG_C, registers.a >= *data);
        registers.p.set(FLAG_Z, registers.a == *data);
        registers.p.set(FLAG_N, registers.a.wrapping_sub(*data) >= 0x80);
    }
}

/// SBC: subtract with borrow, via the one's complement of the operand.
pub struct SBC;

impl SBC {
    pub fn execute(registers: &mut Registers, data: &u8)
        ensures
            *final(registers) == spec_exec_read(ReadOp::Sbc, *old(registers), *data),
    {
        let a = registers.a;
        let nd = !*data;
        let carry = registers.p.bits() & 0x01;
        let sum: u16 = a as u16 + nd as u16 + carry as u16;
        let result: u8 = (sum % 256) as u8;
        registers.p.set(FLAG_C, sum > 255);
        registers.p.set(FLAG_V, (result ^ a) & (result ^ nd) & 0x80 != 0);
        registers.a = result;
        registers.p.set_value_flags(result);
    }
}

/// ASL: arithmetic shift left.
pub struct ASL;

impl ASL {
    pub fn execute(registers: &mut Registers, data: &mut u8)
        ensures
            (*final(registers), *final(data)) == spec_exec_rmw(RmwOp::Asl, *old(registers), *old(data)),
    {
        let d = *data;
        registers.p.set(FLAG_C, d & 0x80 != 0);
        *data = d.wrapping_mul(2);
        registers.p.set_value_flags(*data);
    }
}

/// ROL: rotate left through carry.
pub struct ROL;

impl ROL {
    pub fn execute(registers: &mut Registers, data: &mut u8)
        ensures
            (*final(registers), *final(data)) == spec_exec_rmw(RmwOp::Rol, *old(registers), *old(data)),
    {
        let d = *data;
        let bit0: u8 = if registers.p.contains(FLAG_C) { 0x01 } else { 0x00 };
        registers.p.set(FLAG_C, d & 0x80 != 0);
        *data = d.wrapping_mul(2) | bit0;
        registers.p.set_value_flags(*data);
    }
}

/// LSR: logical shift right.
pub struct LSR;

impl LSR {
    pub fn execute(registers: &mut Registers, data: &mut u8)
        ensures
            (*final(registers), *final(data)) == spec_exec_rmw(RmwOp::Lsr, *old(registers), *old(data)),
    {
        let d = *data;
        registers.p.set(FLAG_C, d & 0x01 != 0);
        *data = d / 2;
        registers.p.set_value_flags(*data);
    }
}

/// ROR: rotate right through carry.
pub struct ROR;

impl ROR {
    pub fn execute(registers: &mut Registers, data: &mut u8)
        ensures
            (*final(registers), *final(data)) == spec_exec_rmw(RmwOp::Ror, *old(registers), *old(data)),
    {
        let d = *data;
        let bit7: u8 = if registers.p.contains(FLAG_C) { 0x80 } else { 0x00 };
        registers.p.set(FLAG_C, d & 0x01 != 0);
        *data = (d / 2) | bit7;
        registers.p.set_value_flags(*data);
    }
}

/// TXA: copy X into A.
pub struct TXA;

impl TXA {
    pub fn execute(registers: &mut Registers, _data: &u8)
        ensures
            *final(registers) == spec_exec_read(ReadOp::Txa, *old(registers), 0),
    {
        registers.a = registers.x;
        registers.p.set_value_flags(registers.a);
    }
}

/// TXS: copy X into the stack pointer; no flags move.
pub struct TXS;

impl TXS {
    pub fn execute(registers: &mut Registers, _data: &u8)
        ensures
            *final(registers) == spec_exec_read(ReadOp::Txs, *old(registers), 0),
    {
        registers.stack = registers.x;
    }
}

/// STX: emit X.
pub struct STX;

impl STX {
    pub fn execute(registers: &Registers, data: &mut u8)
        ensures
            *final(data) == spec_exec_write(WriteOp::Stx, *registers),
    {
        *data = registers.x;
    }
}

/// TAX: copy A into X.
pub struct TAX;

impl TAX {
    pub fn execute(registers: &mut Registers, _data: &u8)
        ensures
            *final(registers) == spec_exec_read(ReadOp::Tax, *old(registers), 0),
    {
        registers.x = registers.a;
        registers.p.set_value_flags(registers.x);
    }
}

/// TSX: copy the stack pointer into X.
pub struct TSX;

impl TSX {
    pub fn execute(registers: &mut Registers, _data: &u8)
        ensures
            *final(registers) == spec_exec_read(ReadOp::Tsx, *old(registers), 0),
    {
        registers.x = registers.stack;
        registers.p.set_value_flags(registers.x);
    }
}

/// LDX: load X.
pub struct LDX;

impl LDX {
    pub fn execute(registers: &mut Registers, data: &u8)
        ensures
            *final(registers) == spec_exec_read(ReadOp::Ldx, *old(registers), *data),
    {
        registers.x = *data;
        registers.p.set_value_flags(registers.x);
    }
}

/// DEX: wrapped decrement of X.
pub struct DEX;

impl DEX {
    pub fn execute(registers: &mut Registers, _data: &u8)
        ensures
            *final(registers) == spec_exec_read(ReadOp::Dex, *old(registers), 0),
    {
        registers.x = registers.x.wrapping_sub(1);
        registers.p.set_value_flags(registers.x);
    }
}

/// DEC: wrapped decrement of the addressed byte.
pub struct DEC;

impl DEC {
    pub fn execute(registers: &mut Registers, data: &mut u8)
        ensures
            (*final(registers), *final(data)) == spec_exec_rmw(RmwOp::Dec, *old(registers), *old(data)),
    {
        *data = data.wrapping_sub(1);
        registers.p.set_value_flags(*data);
    }
}

/// NOP: no register effect.
pub struct NOP;

impl NOP {
    pub fn execute(registers: &mut Registers, _data: &u8)
        ensures
            *final(registers) == *old(registers),
    {
        let _ = registers;
    }
}

/// INC: wrapped increment of the addressed byte.
pub struct INC;

impl INC {
    pub fn execute(registers: &mut Registers, data: &mut u8)
        ensures
            (*final(registers), *final(data)) == spec_exec_rmw(RmwOp::Inc, *old(registers), *old(data)),
    {
        *data = data.wrapping_add(1);
        registers.p.set_value_flags(*data);
    }
}

/// SLO (unofficial): shift left, then OR the shifted byte into A.
pub struct SLO;

impl SLO {
    pub fn execute(registers: &mut Registers, data: &mut u8)
        ensures
            (*final(registers), *final(data)) == spec_exec_rmw(RmwOp::Slo, *old(registers), *old(data)),
    {
        ASL::execute(registers, data);
        ORA::execute(registers, data);
    }
}

/// RLA (unofficial): rotate left, then AND the rotated byte into A.
pub struct RLA;

impl RLA {
    pub fn execute(registers: &mut Registers, data: &mut u8)
        ensures
            (*final(registers), *final(data)) == spec_exec_rmw(RmwOp::Rla, *old(registers), *old(data)),
    {
        ROL::execute(registers, data);
        AND::execute(registers, data);
    }
}

/// SRE (unofficial): shift right, then XOR the shifted byte into A.
pub struct SRE;

impl SRE {
    pub fn execute(registers: &mut Registers, data: &mut u8)
        ensures
            (*final(registers), *final(data)) == spec_exec_rmw(RmwOp::Sre, *old(registers), *old(data)),
    {
        LSR::execute(registers, data);
        EOR::execute(registers, data);
    }
}

/// RRA (unofficial): rotate right, then add the rotated byte into A.
pub struct RRA;

impl RRA {
    pub fn execute(registers: &mut Registers, data: &mut u8)
        ensures
            (*final(registers), *final(data)) == spec_exec_rmw(RmwOp::Rra, *old(registers), *old(data)),
    {
        ROR::execute(registers, data);
        ADC::execute(registers, data);
    }
}

/// SAX (unofficial): emit A AND X.
pub struct SAX;

impl SAX {
    pub fn execute(registers: &Registers, data: &mut u8)
        ensures
            *final(data) == spec_exec_write(WriteOp::Sax, *registers),
    {
        *data = registers.a & registers.x;
    }
}

/// LAX (unofficial): load A and X together.
pub struct LAX;

impl LAX {
    pub fn execute(registers: &mut Registers, data: &u8)
        ensures
            *final(registers) == spec_exec_read(ReadOp::Lax, *old(registers), *data),
    {
        LDA::execute(registers, data);
        TAX::execute(registers, data);
    }
}

/// DCP (unofficial): decrement the byte, then compare A with it.
pub struct DCP;

impl DCP {
    pub fn execute(registers: &mut Registers, data: &mut u8)
        ensures
            (*final(registers), *final(data)) == spec_exec_rmw(RmwOp::Dcp, *old(registers), *old(data)),
    {
        DEC::execute(registers, data);
        CMP::execute(registers, data);
    }
}

/// ISC (unofficial): increment the byte, then subtract it from A.
pub struct ISC;

impl ISC {
    pub fn execute(registers: &mut Registers, data: &mut u8)
        ensures
            (*final(registers), *final(data)) == spec_exec_rmw(RmwOp::Isc, *old(registers), *old(data)),
    {
        INC::execute(registers, data);
        SBC::execute(registers, data);
    }
}

/// The low half of the program counter, as both a pull target (RTS/RTI)
/// and a push source (JSR).
pub struct PCL;

impl PCL {
    pub fn execute(registers: &mut Registers, data: &u8)
        ensures
            *final(registers) == spec_exec_read(ReadOp::Pcl, *old(registers), *data),
    {
        registers.pc.set_low(*data);
    }

    pub fn emit(registers: &Registers, data: &mut u8)
        ensures
            *final(data) == spec_exec_write(WriteOp::Pcl, *registers),
    {
        *data = registers.pc.low();
    }
}

/// The high half of the program counter, as both a pull target and a push
/// source.
pub struct PCH;

impl PCH {
    pub fn execute(registers: &mut Registers, data: &u8)
        ensures
            *final(registers) == spec_exec_read(ReadOp::Pch, *old(registers), *data),
    {
        registers.pc.set_high(*data);
    }

    pub fn emit(registers: &Registers, data: &mut u8)
        ensures
            *final(data) == spec_exec_write(WriteOp::Pch, *registers),
    {
        *data = registers.pc.high();
    }
}

/// Flag closure of the addition with carry: Z holds exactly of a zero
/// result and N of bit 7; C is the unsigned overflow of the exact sum;
/// and V matches the sign rule, set exactly when the operands agree in
/// sign and the result disagrees with them.
pub proof fn lemma_adc_flags(regs: Registers, d: u8)
    ensures
        flag_set(spec_adc(regs, d).p.bits, FLAG_Z) <==> spec_adc(regs, d).a == 0,
        flag_set(spec_adc(regs, d).p.bits, FLAG_N) <==> spec_adc(regs, d).a >= 0x80,
        flag_set(spec_adc(regs, d).p.bits, FLAG_C) <==> adc_sum(regs.a, d, regs.p.bits) > 255,
        flag_set(spec_adc(regs, d).p.bits, FLAG_V) <==> ((regs.a < 0x80 <==> d < 0x80)
            && !(regs.a < 0x80 <==> spec_adc(regs, d).a < 0x80)),
        spec_adc(regs, d).a == adc_result(regs.a, d, regs.p.bits),
{
    let a = regs.a;
    let p = regs.p.bits;
    let r = adc_result(a, d, p);
    let c = adc_sum(a, d, p) > 255;
    let v = overflow_set(a, d, r);
    crate::isa6502::lemma_value_flags(set_flag(set_flag(p, FLAG_C, c), FLAG_V, v), r);
    assert({
        let f = (((if v { (if c { p | 0x01u8 } else { p & !0x01u8 }) | 0x40u8 }
            else { (if c { p | 0x01u8 } else { p & !0x01u8 }) & !0x40u8 })) & 0x7du8)
            | (if r == 0 { 0x02u8 } else { 0x00u8 }) | (r & 0x80u8);
        ((f & 0x01u8 == 0x01u8) == c) && ((f & 0x40u8 == 0x40u8) == v)
    }) by (bit_vector);
    assert((r ^ a) & (r ^ d) & 0x80u8 != 0 <==> ((a < 0x80 <==> d < 0x80)
        && !(a < 0x80 <==> r < 0x80))) by (bit_vector);
}

/// Subtraction with borrow runs the adder on the one's complement: its
/// carry is the unsigned no-borrow condition of `A + (255 - d) + C`.
pub proof fn lemma_sbc_flags(regs: Registers, d: u8)
    ensures
        spec_sbc(regs, d) == spec_adc(regs, !d),
        (!d) as int == 255 - d as int,
        flag_set(spec_sbc(regs, d).p.bits, FLAG_C)
            <==> regs.a as int + (255 - d as int) + carry_bit(regs.p.bits) > 255,
{
    assert((!d) as int == 255 - d as int) by (bit_vector);
    lemma_adc_flags(regs, !d);
}

/// A pull of P restores only the bits of `STACK_MASK`: the B and Reserved
/// bits keep their pre-pull, in-register values.
pub proof fn lemma_plp_preserves_break_bits(p: u8, d: u8)
    ensures
        spec_plp_bits(p, d) & !STACK_MASK == p & !STACK_MASK,
        spec_plp_bits(p, d) & STACK_MASK == d & STACK_MASK,
{
    assert(((d & 0xCFu8) | (p & !0xCFu8)) & !0xCFu8 == p & !0xCFu8
        && ((d & 0xCFu8) | (p & !0xCFu8)) & 0xCFu8 == d & 0xCFu8) by (bit_vector);
}

/// Runs the read-category operation that `op` names.
pub fn execute_read(op: ReadOp, registers: &mut Registers, data: &u8)
    ensures
        *final(registers) == spec_exec_read(op, *old(registers), *data),
{
    match op {
        ReadOp::Jsr => JSR::execute(registers, data),
        ReadOp::Bit => BIT::execute(registers, data),
        ReadOp::Plp => PLP::execute(registers, data),
        ReadOp::Pla => PLA::execute(registers, data),
        ReadOp::Dey => DEY::execute(registers, data),
        ReadOp::Tay => TAY::execute(registers, data),
        ReadOp::Iny => INY::execute(registers, data),
        ReadOp::Inx => INX::execute(registers, data),
        ReadOp::Jmp => JMP::execute(registers, data),
        ReadOp::Clc => CLC::execute(registers, data),
        ReadOp::Sec => SEC::execute(registers, data),
        ReadOp::Cli => CLI::execute(registers, data),
        ReadOp::Sei => SEI::execute(registers, data),
        ReadOp::Clv => CLV::execute(registers, data),
        ReadOp::Cld => CLD::execute(registers, data),
        ReadOp::Sed => SED::execute(registers, data),
        ReadOp::Tya => TYA::execute(registers, data),
        ReadOp::Ldy => LDY::execute(registers, data),
        ReadOp::Cpy => CPY::execute(registers, data),
        ReadOp::Cpx => CPX::execute(registers, data),
        ReadOp::Ora => ORA::execute(registers, data),
        ReadOp::And => AND::execute(registers, data),
        ReadOp::Eor => EOR::execute(registers, data),
        ReadOp::Adc => ADC::execute(registers, data),
        ReadOp::Lda => LDA::execute(registers, data),
        ReadOp::Cmp => CMP::execute(registers, data),
        ReadOp::Sbc => SBC::execute(registers, data),
        ReadOp::Txa => TXA::execute(registers, data),
        ReadOp::Txs => TXS::execute(registers, data),
        ReadOp::Tax => TAX::execute(registers, data),
        ReadOp::Tsx => TSX::execute(registers, data),
        ReadOp::Ldx => LDX::execute(registers, data),
        ReadOp::Dex => DEX::execute(registers, data),
        ReadOp::Nop => NOP::execute(registers, data),
        ReadOp::Lax => LAX::execute(registers, data),
        ReadOp::Pcl => PCL::execute(registers, data),
        ReadOp::Pch => PCH::execute(registers, data),
    }
}

/// Runs the read-modify-write operation that `op` names on `data`.
pub fn execute_rmw(op: RmwOp, registers: &mut Registers, data: &mut u8)
    ensures
        (*final(registers), *final(data)) == spec_exec_rmw(op, *old(registers), *old(data)),
{
    match op {
        RmwOp::Asl => ASL::execute(registers, data),
        RmwOp::Rol => ROL::execute(registers, data),
        RmwOp::Lsr => LSR::execute(registers, data),
        RmwOp::Ror => ROR::execute(registers, data),
        RmwOp::Dec => DEC::execute(registers, data),
        RmwOp::Inc => INC::execute(registers, data),
        RmwOp::Slo => SLO::execute(registers, data),
        RmwOp::Rla => RLA::execute(registers, data),
        RmwOp::Sre => SRE::execute(registers, data),
        RmwOp::Rra => RRA::execute(registers, data),
        RmwOp::Dcp => DCP::execute(registers, data),
        RmwOp::Isc => ISC::execute(registers, data),
    }
}

/// Emits the byte of the write-category operation that `op` names.
pub fn execute_write(op: WriteOp, registers: &Registers, data: &mut u8)
    ensures
        *final(data) == spec_exec_write(op, *registers),
{
    match op {
        WriteOp::Php => PHP::execute(registers, data),
        WriteOp::Pha => PHA::execute(registers, data),
        WriteOp::Sty => STY::execute(registers, data),
        WriteOp::Sta => STA::execute(registers, data),
        WriteOp::Stx => STX::execute(registers, data),
        WriteOp::Sax => SAX::execute(registers, data),
        WriteOp::Pcl => PCL::emit(registers, data),
        WriteOp::Pch => PCH::emit(registers, data),
    }
}

} // verus!
