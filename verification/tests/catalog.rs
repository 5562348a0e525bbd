//! Register-level checks of the instruction catalog.

use nescore::isa6502::instructions::{
    ADC, AND, ASL, BIT, CMP, DCP, DEC, EOR, INC, ISC, LAX, LDA, LSR, ORA, PHA, PHP, PLA, PLP,
    ROL, ROR, SAX, SBC, SEC, SLO, STA, STX, STY,
};
use nescore::isa6502::{Registers, StatusFlags, FLAG_C, FLAG_N, FLAG_V, FLAG_Z};

fn fresh() -> Registers {
    Registers::new()
}

#[test]
fn adc_carry_and_overflow() {
    // A=0x50 plus 0x50 with clear carry: signed overflow, negative result.
    let mut regs = fresh();
    regs.a = 0x50;
    regs.p = StatusFlags::from_bits(0x24);
    ADC::execute(&mut regs, &0x50);
    assert_eq!(regs.a, 0xA0);
    assert!(!regs.p.contains(FLAG_C));
    assert!(regs.p.contains(FLAG_V));
    assert!(regs.p.contains(FLAG_N));
    assert!(!regs.p.contains(FLAG_Z));
}

#[test]
fn adc_carry_in_and_out() {
    let mut regs = fresh();
    regs.a = 0xFF;
    regs.p = StatusFlags::from_bits(0x25);
    ADC::execute(&mut regs, &0x00);
    assert_eq!(regs.a, 0x00);
    assert!(regs.p.contains(FLAG_C));
    assert!(regs.p.contains(FLAG_Z));
    assert!(!regs.p.contains(FLAG_V));
}

#[test]
fn sbc_uses_ones_complement() {
    // 0x50 - 0x30 with carry set: no borrow, C stays set.
    let mut regs = fresh();
    regs.a = 0x50;
    SEC::execute(&mut regs, &0);
    SBC::execute(&mut regs, &0x30);
    assert_eq!(regs.a, 0x20);
    assert!(regs.p.contains(FLAG_C));
    assert!(!regs.p.contains(FLAG_N));
}

#[test]
fn sbc_borrow_clears_carry() {
    let mut regs = fresh();
    regs.a = 0x30;
    SEC::execute(&mut regs, &0);
    SBC::execute(&mut regs, &0x50);
    assert_eq!(regs.a, 0xE0);
    assert!(!regs.p.contains(FLAG_C));
    assert!(regs.p.contains(FLAG_N));
}

#[test]
fn lda_sets_value_flags() {
    let mut regs = fresh();
    regs.a = 0xAA;
    LDA::execute(&mut regs, &0x00);
    assert_eq!(regs.a, 0x00);
    assert!(regs.p.contains(FLAG_Z));
    assert!(!regs.p.contains(FLAG_N));
    LDA::execute(&mut regs, &0x80);
    assert!(regs.p.contains(FLAG_N));
    assert!(!regs.p.contains(FLAG_Z));
}

#[test]
fn compare_flags() {
    let mut regs = fresh();
    regs.a = 0x40;
    CMP::execute(&mut regs, &0x40);
    assert!(regs.p.contains(FLAG_C) && regs.p.contains(FLAG_Z));
    CMP::execute(&mut regs, &0x41);
    assert!(!regs.p.contains(FLAG_C) && !regs.p.contains(FLAG_Z));
    assert!(regs.p.contains(FLAG_N));
}

#[test]
fn bit_copies_high_bits() {
    let mut regs = fresh();
    regs.a = 0x0F;
    BIT::execute(&mut regs, &0xC0);
    assert!(regs.p.contains(FLAG_N));
    assert!(regs.p.contains(FLAG_V));
    assert!(regs.p.contains(FLAG_Z));
    regs.a = 0xFF;
    BIT::execute(&mut regs, &0x01);
    assert!(!regs.p.contains(FLAG_Z));
    assert!(!regs.p.contains(FLAG_N));
    assert!(!regs.p.contains(FLAG_V));
}

#[test]
fn logical_ops() {
    let mut regs = fresh();
    regs.a = 0b1010_0000;
    ORA::execute(&mut regs, &0b0000_0101);
    assert_eq!(regs.a, 0b1010_0101);
    AND::execute(&mut regs, &0b1111_0000);
    assert_eq!(regs.a, 0b1010_0000);
    EOR::execute(&mut regs, &0b1010_0000);
    assert_eq!(regs.a, 0);
    assert!(regs.p.contains(FLAG_Z));
}

#[test]
fn shifts_move_carry() {
    let mut regs = fresh();
    let mut data = 0x81u8;
    ASL::execute(&mut regs, &mut data);
    assert_eq!(data, 0x02);
    assert!(regs.p.contains(FLAG_C));
    let mut data = 0x01u8;
    LSR::execute(&mut regs, &mut data);
    assert_eq!(data, 0x00);
    assert!(regs.p.contains(FLAG_C));
    assert!(regs.p.contains(FLAG_Z));
}

#[test]
fn rotates_run_through_carry() {
    let mut regs = fresh();
    SEC::execute(&mut regs, &0);
    let mut data = 0x80u8;
    ROL::execute(&mut regs, &mut data);
    // carry in lands in bit 0, bit 7 leaves into carry
    assert_eq!(data, 0x01);
    assert!(regs.p.contains(FLAG_C));
    let mut data = 0x01u8;
    ROR::execute(&mut regs, &mut data);
    // carry in lands in bit 7, bit 0 leaves into carry
    assert_eq!(data, 0x80);
    assert!(regs.p.contains(FLAG_C));
    assert!(regs.p.contains(FLAG_N));
}

#[test]
fn inc_dec_wrap() {
    let mut regs = fresh();
    let mut data = 0xFFu8;
    INC::execute(&mut regs, &mut data);
    assert_eq!(data, 0x00);
    assert!(regs.p.contains(FLAG_Z));
    let mut data = 0x00u8;
    DEC::execute(&mut regs, &mut data);
    assert_eq!(data, 0xFF);
    assert!(regs.p.contains(FLAG_N));
}

#[test]
fn plp_preserves_break_and_reserved() {
    // Bits 4 and 5 of P after the pull equal their pre-pull values.
    let mut regs = fresh();
    regs.p = StatusFlags::from_bits(0x30);
    PLP::execute(&mut regs, &0x00);
    assert_eq!(regs.p.bits() & 0x30, 0x30);
    let mut regs = fresh();
    regs.p = StatusFlags::from_bits(0x00);
    PLP::execute(&mut regs, &0xFF);
    assert_eq!(regs.p.bits() & 0x30, 0x00);
    assert_eq!(regs.p.bits() & 0xCF, 0xCF);
}

#[test]
fn php_pushes_break_and_reserved_set() {
    let regs = fresh();
    let mut data = 0u8;
    PHP::execute(&regs, &mut data);
    assert_eq!(data, 0x24 | 0x30);
}

#[test]
fn pla_pha_round_trip_value() {
    let mut regs = fresh();
    regs.a = 0x5A;
    let mut data = 0u8;
    PHA::execute(&regs, &mut data);
    assert_eq!(data, 0x5A);
    let mut other = fresh();
    PLA::execute(&mut other, &data);
    assert_eq!(other.a, 0x5A);
}

#[test]
fn stores_emit_registers() {
    let mut regs = fresh();
    regs.a = 1;
    regs.x = 2;
    regs.y = 3;
    let mut data = 0u8;
    STA::execute(&regs, &mut data);
    assert_eq!(data, 1);
    STX::execute(&regs, &mut data);
    assert_eq!(data, 2);
    STY::execute(&regs, &mut data);
    assert_eq!(data, 3);
    SAX::execute(&regs, &mut data);
    assert_eq!(data, 1 & 2);
}

#[test]
fn unofficial_compounds() {
    // SLO shifts then ORs; DCP decrements then compares; ISC increments
    // then subtracts; LAX loads A and X together.
    let mut regs = fresh();
    regs.a = 0x01;
    let mut data = 0x40u8;
    SLO::execute(&mut regs, &mut data);
    assert_eq!(data, 0x80);
    assert_eq!(regs.a, 0x81);

    let mut regs = fresh();
    regs.a = 0x10;
    let mut data = 0x11u8;
    DCP::execute(&mut regs, &mut data);
    assert_eq!(data, 0x10);
    assert!(regs.p.contains(FLAG_C) && regs.p.contains(FLAG_Z));

    let mut regs = fresh();
    regs.a = 0x10;
    SEC::execute(&mut regs, &0);
    let mut data = 0x0Fu8;
    ISC::execute(&mut regs, &mut data);
    assert_eq!(data, 0x10);
    assert_eq!(regs.a, 0x00);

    let mut regs = fresh();
    LAX::execute(&mut regs, &0x37);
    assert_eq!(regs.a, 0x37);
    assert_eq!(regs.x, 0x37);
}
