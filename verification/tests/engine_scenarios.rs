//! End-to-end checks of the microcode engine: programs run cycle by cycle
//! through the console bus, with the documented 6502 timings.

use nescore::devices::RamBank;
use nescore::famicom::rom::ntsc_system;
use nescore::famicom::{NesLogger, NesTestLogEntry, SystemBus, RP2A03};
use nescore::{Address, AddressMask, Bus, System};

type Console = System<RP2A03, SystemBus<RamBank<32768>, RamBank<8192>>>;

/// A console whose cartridge is RAM covering `$8000-$FFFF`, preloaded
/// with the given bytes.
fn console(rom_bytes: &[(u16, u8)]) -> Console {
    let mut prg: RamBank<32768> = RamBank::new(AddressMask::from_block(Address(0x8000), 1, 0));
    for &(a, v) in rom_bytes {
        assert!(prg.poke(Address(a), v));
    }
    let chr: RamBank<8192> = RamBank::new(AddressMask::from_block(Address(0), 3, 0));
    ntsc_system(prg, chr)
}

/// A console whose reset vector points at `$0600`, with the program
/// written into RAM there.
fn console_at_0600(program: &[u8]) -> Console {
    let mut sys = console(&[(0xFFFC, 0x00), (0xFFFD, 0x06)]);
    for (i, &b) in program.iter().enumerate() {
        sys.bus.write(Address(0x0600 + i as u16), b);
    }
    sys
}

/// Advances the console by `n` CPU cycles (twelve master ticks each).
fn run_cycles(sys: &mut Console, n: u32) {
    for _ in 0..n * 12 {
        sys.clock_pulse();
    }
}

fn log(sys: &Console) -> NesTestLogEntry {
    NesLogger::log(sys)
}

#[test]
fn reset_takes_seven_cycles_and_loads_the_vector() {
    let mut sys = console(&[(0xFFFC, 0x34), (0xFFFD, 0x12)]);
    run_cycles(&mut sys, 7);
    let entry = log(&sys);
    assert_eq!(entry.pc.0, 0x1234);
    assert_eq!(entry.stack, 0xFD);
    assert_eq!(entry.p, 0x24);
    assert_eq!(entry.cycles, 7 * 12);
}

#[test]
fn lda_immediate_sets_z_clears_n() {
    // A starts at 0xAA (loaded first); LDA #$00 then takes 2 cycles.
    let mut sys = console_at_0600(&[0xA9, 0xAA, 0xA9, 0x00, 0x00]);
    run_cycles(&mut sys, 7 + 2);
    assert_eq!(log(&sys).a, 0xAA);
    assert_eq!(log(&sys).p & 0x80, 0x80);
    run_cycles(&mut sys, 2);
    assert_eq!(log(&sys).a, 0x00);
    assert_eq!(log(&sys).p & 0x02, 0x02, "Z set");
    assert_eq!(log(&sys).p & 0x80, 0x00, "N clear");
}

#[test]
fn adc_immediate_carry_overflow() {
    // LDA #$50; CLC; ADC #$50 -> A=0xA0, C=0, V=1, N=1, Z=0.
    let mut sys = console_at_0600(&[0xA9, 0x50, 0x18, 0x69, 0x50]);
    run_cycles(&mut sys, 7 + 2 + 2 + 2);
    let entry = log(&sys);
    assert_eq!(entry.a, 0xA0);
    assert_eq!(entry.p & 0x01, 0x00, "carry clear");
    assert_eq!(entry.p & 0x40, 0x40, "overflow set");
    assert_eq!(entry.p & 0x80, 0x80, "negative set");
    assert_eq!(entry.p & 0x02, 0x00, "zero clear");
}

#[test]
fn branch_page_cross_costs_four_cycles() {
    // Z=1 at $00FD: BEQ +4 crosses into page one, so the branch takes
    // four cycles and lands on $0103.
    let mut sys = console_at_0600(&[0xA9, 0x00, 0x4C, 0xFD, 0x00]);
    sys.bus.write(Address(0x00FD), 0xF0);
    sys.bus.write(Address(0x00FE), 0x04);
    run_cycles(&mut sys, 7 + 2 + 3);
    assert_eq!(log(&sys).pc.0, 0x00FD);
    run_cycles(&mut sys, 4);
    assert_eq!(log(&sys).pc.0, 0x0103);
}

#[test]
fn branch_not_taken_costs_two_cycles() {
    // Z=0 at $00FD: the same BEQ falls through in two cycles to $00FF.
    let mut sys = console_at_0600(&[0xA9, 0x01, 0x4C, 0xFD, 0x00]);
    sys.bus.write(Address(0x00FD), 0xF0);
    sys.bus.write(Address(0x00FE), 0x04);
    run_cycles(&mut sys, 7 + 2 + 3 + 2);
    assert_eq!(log(&sys).pc.0, 0x00FF);
}

#[test]
fn branch_taken_same_page_costs_three_cycles() {
    let mut sys = console_at_0600(&[0xA9, 0x00, 0xF0, 0x02, 0xEA, 0xEA]);
    run_cycles(&mut sys, 7 + 2 + 3);
    assert_eq!(log(&sys).pc.0, 0x0606);
}

#[test]
fn jsr_rts_round_trip() {
    // JSR $1234 at $C000 pushes $C0 $02 (the return address minus one);
    // the RTS at $1234 comes back to $C003.
    let mut sys = console(&[
        (0xFFFC, 0x00),
        (0xFFFD, 0xC0),
        (0xC000, 0x20),
        (0xC001, 0x34),
        (0xC002, 0x12),
    ]);
    sys.bus.write(Address(0x1234), 0x60);
    run_cycles(&mut sys, 7 + 6);
    assert_eq!(log(&sys).pc.0, 0x1234);
    assert_eq!(log(&sys).stack, 0xFB);
    assert_eq!(sys.bus.read(Address(0x01FD)), 0xC0);
    assert_eq!(sys.bus.read(Address(0x01FC)), 0x02);
    run_cycles(&mut sys, 6);
    assert_eq!(log(&sys).pc.0, 0xC003);
    assert_eq!(log(&sys).stack, 0xFD);
}

#[test]
fn indirect_jmp_page_wrap_bug() {
    // JMP ($02FF) reads the high byte from $0200, not $0300.
    let mut sys = console_at_0600(&[0x6C, 0xFF, 0x02]);
    sys.bus.write(Address(0x02FF), 0x34);
    sys.bus.write(Address(0x0200), 0x12);
    sys.bus.write(Address(0x0300), 0x99);
    run_cycles(&mut sys, 7 + 5);
    assert_eq!(log(&sys).pc.0, 0x1234);
}

#[test]
fn stack_wraps_after_256_pushes() {
    // 256 PHA instructions walk S through the whole page and back to
    // its starting value; every write lands in page one.
    let mut program = vec![0xA9u8, 0x77];
    for _ in 0..256 {
        program.push(0x48);
    }
    let mut sys = console_at_0600(&program);
    run_cycles(&mut sys, 7 + 2);
    assert_eq!(log(&sys).stack, 0xFD);
    run_cycles(&mut sys, 256 * 3);
    assert_eq!(log(&sys).stack, 0xFD);
    assert_eq!(sys.bus.read(Address(0x01FD)), 0x77);
    assert_eq!(sys.bus.read(Address(0x0100)), 0x77);
    assert_eq!(sys.bus.read(Address(0x01FF)), 0x77);
}

#[test]
fn absolute_indexed_read_pays_for_page_cross() {
    // LDX #$01; LDA $80FF,X crosses a page: five cycles, not four.
    let mut sys = console(&[
        (0xFFFC, 0x00),
        (0xFFFD, 0xC0),
        (0xC000, 0xA2),
        (0xC001, 0x01),
        (0xC002, 0xBD),
        (0xC003, 0xFF),
        (0xC004, 0x80),
        (0x8100, 0x5A),
    ]);
    run_cycles(&mut sys, 7 + 2 + 4);
    assert_eq!(log(&sys).a, 0x00, "the crossing read has not landed yet");
    run_cycles(&mut sys, 1);
    assert_eq!(log(&sys).a, 0x5A);
}

#[test]
fn absolute_indexed_read_without_cross_is_four_cycles() {
    let mut sys = console(&[
        (0xFFFC, 0x00),
        (0xFFFD, 0xC0),
        (0xC000, 0xA2),
        (0xC001, 0x01),
        (0xC002, 0xBD),
        (0xC003, 0x00),
        (0xC004, 0x80),
        (0x8001, 0x5A),
    ]);
    run_cycles(&mut sys, 7 + 2 + 4);
    assert_eq!(log(&sys).a, 0x5A);
}

#[test]
fn zero_page_indexed_wraps_within_the_page() {
    // LDX #$10; LDA $F8,X reads $0008, never $0108.
    let mut sys = console_at_0600(&[0xA2, 0x10, 0xB5, 0xF8]);
    sys.bus.write(Address(0x0008), 0x42);
    sys.bus.write(Address(0x0108), 0x99);
    run_cycles(&mut sys, 7 + 2 + 4);
    assert_eq!(log(&sys).a, 0x42);
}

#[test]
fn rmw_absolute_takes_six_cycles() {
    // INC $0654 reads, dummy-writes, then writes the result.
    let mut sys = console_at_0600(&[0xEE, 0x54, 0x06]);
    sys.bus.write(Address(0x0654), 0x41);
    run_cycles(&mut sys, 7 + 6);
    assert_eq!(sys.bus.read(Address(0x0654)), 0x42);
}

#[test]
fn jmp_absolute_takes_three_cycles() {
    let mut sys = console_at_0600(&[0x4C, 0x34, 0x12]);
    run_cycles(&mut sys, 7 + 3);
    assert_eq!(log(&sys).pc.0, 0x1234);
}

#[test]
fn accumulator_shift_takes_two_cycles() {
    // LDA #$81; ASL A: carry out of bit 7, result in place.
    let mut sys = console_at_0600(&[0xA9, 0x81, 0x0A]);
    run_cycles(&mut sys, 7 + 2 + 2);
    assert_eq!(log(&sys).a, 0x02);
    assert_eq!(log(&sys).p & 0x01, 0x01);
}

#[test]
fn rmw_absolute_indexed_takes_seven_cycles() {
    // LDX #$01; INC $0653,X always pays the indexing cycle.
    let mut sys = console_at_0600(&[0xA2, 0x01, 0xFE, 0x53, 0x06]);
    sys.bus.write(Address(0x0654), 0x10);
    run_cycles(&mut sys, 7 + 2 + 6);
    assert_eq!(sys.bus.read(Address(0x0654)), 0x10, "not yet written");
    run_cycles(&mut sys, 1);
    assert_eq!(sys.bus.read(Address(0x0654)), 0x11);
}

#[test]
fn indirect_indexed_write_takes_six_cycles() {
    // LDA #$3C; LDY #$03; STA ($20),Y always pays the dummy cycle.
    let mut sys = console_at_0600(&[0xA9, 0x3C, 0xA0, 0x03, 0x91, 0x20]);
    sys.bus.write(Address(0x0020), 0x52);
    sys.bus.write(Address(0x0021), 0x06);
    run_cycles(&mut sys, 7 + 2 + 2 + 6);
    assert_eq!(sys.bus.read(Address(0x0655)), 0x3C);
}

#[test]
fn transfers_and_flag_ops_take_two_cycles() {
    // LDX #$41; TXA; TAY; INY; SEC: five implied-shaped instructions.
    let mut sys = console_at_0600(&[0xA2, 0x41, 0x8A, 0xA8, 0xC8, 0x38]);
    run_cycles(&mut sys, 7 + 2 + 2 + 2 + 2 + 2);
    let entry = log(&sys);
    assert_eq!(entry.a, 0x41);
    assert_eq!(entry.x, 0x41);
    assert_eq!(entry.y, 0x42);
    assert_eq!(entry.p & 0x01, 0x01);
}

#[test]
fn every_opcode_decodes_and_runs() {
    // Whatever the opcode byte, the engine decodes it and keeps running:
    // twenty cycles is past the longest instruction on this machine.
    for op in 0..=255u8 {
        let mut sys = console_at_0600(&[op, 0x00, 0x00, 0x00]);
        run_cycles(&mut sys, 7 + 20);
        let _ = log(&sys);
    }
}

#[test]
fn indexed_indirect_x_reads_through_the_pointer() {
    // LDX #$04; LDA ($20,X): pointer at $24/$25 -> $0655.
    let mut sys = console_at_0600(&[0xA2, 0x04, 0xA1, 0x20]);
    sys.bus.write(Address(0x0024), 0x55);
    sys.bus.write(Address(0x0025), 0x06);
    sys.bus.write(Address(0x0655), 0x7E);
    run_cycles(&mut sys, 7 + 2 + 6);
    assert_eq!(log(&sys).a, 0x7E);
}

#[test]
fn indirect_indexed_y_reads_through_the_pointer() {
    // LDY #$03; LDA ($20),Y: pointer at $20/$21 -> $0652 + 3.
    let mut sys = console_at_0600(&[0xA0, 0x03, 0xB1, 0x20]);
    sys.bus.write(Address(0x0020), 0x52);
    sys.bus.write(Address(0x0021), 0x06);
    sys.bus.write(Address(0x0655), 0x7D);
    run_cycles(&mut sys, 7 + 2 + 5);
    assert_eq!(log(&sys).a, 0x7D);
}

#[test]
fn php_pushes_break_bits_to_the_stack() {
    // PHP pushes with B and Reserved forced on; the PLA that follows
    // sees exactly the pushed byte.
    let mut sys = console_at_0600(&[0x38, 0x08, 0x68]);
    run_cycles(&mut sys, 7 + 2 + 3);
    assert_eq!(sys.bus.read(Address(0x01FD)), 0x24 | 0x30 | 0x01);
    run_cycles(&mut sys, 4);
    // PLA loads A from the pushed flags copy.
    assert_eq!(log(&sys).a, 0x24 | 0x30 | 0x01);
}

#[test]
fn rti_restores_flags_and_return_address() {
    // Hand-build a stack frame: P=$C3 (B and Reserved clear as pushed),
    // return address $0610; RTI pulls all three.
    let mut sys = console_at_0600(&[0x40]);
    sys.bus.write(Address(0x01FE), 0xC3);
    sys.bus.write(Address(0x01FF), 0x10);
    sys.bus.write(Address(0x0100), 0x06);
    run_cycles(&mut sys, 7 + 6);
    let entry = log(&sys);
    assert_eq!(entry.pc.0, 0x0610);
    // The pulled byte's B bit is discarded; the in-register Reserved
    // and B values stay.
    assert_eq!(entry.p, (0xC3 & 0xCF) | (0x24 & 0x30));
    assert_eq!(entry.stack, 0x00);
}
