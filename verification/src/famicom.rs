//! The RP2A03 CPU core: a cycle-driven microcode engine.  Every
//! master-clock tick advances a counter; every twelfth tick pops one
//! microstep from the queue, performs exactly one bus transaction, and runs
//! the step's register work.  The queue always ends in the decode step, so
//! finishing one instruction fetches and enqueues the next.

use vstd::prelude::*;

use std::collections::VecDeque;

use crate::Address;
use crate::Bus;
use crate::System;
use crate::devices::BusDevice;
use crate::addr_high;
use crate::addr_low;
use crate::isa6502::BusDirection;
use crate::isa6502::Cpu;
use crate::isa6502::FLAG_C;
use crate::isa6502::FLAG_N;
use crate::isa6502::FLAG_V;
use crate::isa6502::FLAG_Z;
use crate::isa6502::MicroOp;
use crate::isa6502::MicroStep;
use crate::isa6502::Registers;
use crate::isa6502::decode_step;
use crate::isa6502::addressing::AddrSource;
use crate::isa6502::addressing::OpKind;
use crate::isa6502::addressing::branch_fix_step;
use crate::isa6502::addressing::branch_steps;
use crate::isa6502::addressing::branch_taken;
use crate::isa6502::addressing::branch_target;
use crate::isa6502::addressing::branch_target_of;
use crate::isa6502::addressing::decode_op;
use crate::isa6502::addressing::decode_seq;
use crate::isa6502::addressing::jmp_indirect_steps;
use crate::isa6502::addressing::jmp_steps;
use crate::isa6502::addressing::jsr_steps;
use crate::isa6502::addressing::mode_steps;
use crate::isa6502::addressing::page_fix_step_x;
use crate::isa6502::addressing::page_fix_step_y;
use crate::isa6502::addressing::push_decode;
use crate::isa6502::addressing::push_mode_steps;
use crate::isa6502::addressing::push_read;
use crate::isa6502::addressing::push_write;
use crate::isa6502::addressing::reset_steps;
use crate::isa6502::addressing::resolve_address;
use crate::isa6502::addressing::rti_steps;
use crate::isa6502::addressing::rts_steps;
use crate::isa6502::addressing::spec_decode;
use crate::isa6502::addressing::spec_resolve;
use crate::isa6502::instructions::ReadOp;
use crate::isa6502::instructions::WriteOp;
use crate::isa6502::instructions::execute_read;
use crate::isa6502::instructions::execute_rmw;
use crate::isa6502::instructions::execute_write;
use crate::isa6502::instructions::spec_exec_read;
use crate::isa6502::instructions::spec_exec_rmw;
use crate::isa6502::instructions::spec_exec_write;

pub mod apu;
pub mod mapper;
pub mod ppu;
pub mod rom;

verus! {

/// The CPU-visible state a single bus cycle acts on: the register file,
/// the latched opcode and data byte, and the pending microcode.
#[verifier::ext_equal]
pub struct CpuSnapshot {
    pub registers: Registers,
    pub opcode: u8,
    pub data_latch: u8,
    pub timing: Seq<MicroStep>,
}

/// The snapshot with the data latch stored into the high half of the
/// address buffer.
pub open spec fn buffer_high_set(s: CpuSnapshot) -> CpuSnapshot {
    CpuSnapshot {
        registers: Registers {
            address_buffer: Address(crate::addr_join(
                s.data_latch,
                addr_low(s.registers.address_buffer.0),
            )),
            ..s.registers
        },
        ..s
    }
}

/// The register and queue work after a read cycle: the data latch already
/// holds the byte the bus returned.
pub open spec fn spec_read_action(s: CpuSnapshot, op: MicroOp) -> CpuSnapshot {
    match op {
        MicroOp::Nop => s,
        MicroOp::PullOperand => CpuSnapshot {
            registers: Registers { operand: s.data_latch, ..s.registers },
            ..s
        },
        MicroOp::BufferLow => CpuSnapshot {
            registers: Registers {
                address_buffer: Address(crate::addr_join(
                    addr_high(s.registers.address_buffer.0),
                    s.data_latch,
                )),
                ..s.registers
            },
            ..s
        },
        MicroOp::BufferHigh => buffer_high_set(s),
        MicroOp::BufferHighFixupX => {
            let s1 = buffer_high_set(s);
            if addr_low(s1.registers.address_buffer.0) as int + s1.registers.x as int >= 256 {
                CpuSnapshot { timing: seq![page_fix_step_x()] + s1.timing, ..s1 }
            } else {
                s1
            }
        },
        MicroOp::BufferHighFixupY => {
            let s1 = buffer_high_set(s);
            if addr_low(s1.registers.address_buffer.0) as int + s1.registers.y as int >= 256 {
                CpuSnapshot { timing: seq![page_fix_step_y()] + s1.timing, ..s1 }
            } else {
                s1
            }
        },
        MicroOp::BranchTarget => {
            let t = branch_target(s.registers.pc.0, s.registers.operand);
            if addr_high(t) == addr_high(s.registers.pc.0) {
                CpuSnapshot { registers: Registers { pc: Address(t), ..s.registers }, ..s }
            } else {
                CpuSnapshot { timing: seq![branch_fix_step()] + s.timing, ..s }
            }
        },
        MicroOp::BranchApply => CpuSnapshot {
            registers: Registers {
                pc: Address(branch_target(s.registers.pc.0, s.registers.operand)),
                ..s.registers
            },
            ..s
        },
        MicroOp::Decode => CpuSnapshot {
            opcode: s.data_latch,
            timing: s.timing + decode_seq(s.data_latch, s.registers.p.bits),
            ..s
        },
        MicroOp::ExecRead(r) => CpuSnapshot {
            registers: spec_exec_read(r, s.registers, s.data_latch),
            ..s
        },
        MicroOp::ExecReadAccum(r) => CpuSnapshot {
            registers: spec_exec_read(r, s.registers, s.registers.a),
            ..s
        },
        MicroOp::ExecRmwAccum(m) => {
            let (r1, d1) = spec_exec_rmw(m, s.registers, s.registers.a);
            CpuSnapshot { registers: Registers { a: d1, ..r1 }, ..s }
        },
        MicroOp::ExecRmw(_) => s,
        MicroOp::ExecWrite(_) => s,
    }
}

/// The register and latch work before a write cycle: the data latch is
/// filled with the byte the bus will carry.
pub open spec fn spec_write_action(s: CpuSnapshot, op: MicroOp) -> CpuSnapshot {
    match op {
        MicroOp::ExecRmw(m) => {
            let (r1, d1) = spec_exec_rmw(m, s.registers, s.data_latch);
            CpuSnapshot { registers: r1, data_latch: d1, ..s }
        },
        MicroOp::ExecWrite(w) => CpuSnapshot {
            data_latch: spec_exec_write(w, s.registers),
            ..s
        },
        _ => s,
    }
}

/// One full bus cycle: pop the front microstep, resolve its address (with
/// register side effects), then perform the step's work.  For a read step
/// `bus_byte` is the byte the bus returned; a write step ignores it.
pub open spec fn spec_tick(s: CpuSnapshot, bus_byte: u8) -> CpuSnapshot {
    let step = s.timing[0];
    let rest = s.timing.subrange(1, s.timing.len() as int);
    let (_, regs1) = spec_resolve(s.registers, step.addr);
    match step.dir {
        BusDirection::Read(op) => spec_read_action(
            CpuSnapshot { registers: regs1, data_latch: bus_byte, timing: rest, ..s },
            op,
        ),
        BusDirection::Write(op) => spec_write_action(
            CpuSnapshot { registers: regs1, timing: rest, ..s },
            op,
        ),
    }
}

/// Every opcode's template is non-empty and closes with the decode step,
/// whatever the flags: the engine can always run a decoded instruction to
/// completion and fetch the next one.
pub proof fn lemma_decode_seq_closes(op: u8, p: u8)
    ensures
        decode_seq(op, p).len() >= 1,
        decode_seq(op, p).last() == decode_step(),
{
    match spec_decode(op) {
        OpKind::Table(inst, mode) => {
            assert(mode_steps(inst, mode).len() >= 1
                && mode_steps(inst, mode).last() == decode_step());
        },
        _ => {},
    }
}

/// Whether a decode memo table agrees with the opcode map everywhere it
/// is filled in.
pub open spec fn cache_sound(c: Seq<Option<OpKind>>) -> bool {
    &&& c.len() == 256
    &&& forall|i: int| 0 <= i < 256 ==>
        ((#[trigger] c[i]) matches Some(k) ==> k == spec_decode(i as u8))
}

/// The run-time half of the branch quantum: a taken branch whose target
/// shares the current page retargets at once and adds no cycle, while a
/// page-crossing one leaves the program counter alone and front-queues
/// exactly one fix-up cycle, whose work lands the program counter on the
/// full target.
pub proof fn lemma_branch_page_cross(s: CpuSnapshot)
    ensures
        addr_high(branch_target(s.registers.pc.0, s.registers.operand))
                == addr_high(s.registers.pc.0)
            ==> spec_read_action(s, MicroOp::BranchTarget).timing == s.timing
                && spec_read_action(s, MicroOp::BranchTarget).registers.pc.0
                    == branch_target(s.registers.pc.0, s.registers.operand),
        addr_high(branch_target(s.registers.pc.0, s.registers.operand))
                != addr_high(s.registers.pc.0)
            ==> spec_read_action(s, MicroOp::BranchTarget).timing
                    == seq![branch_fix_step()] + s.timing
                && spec_read_action(s, MicroOp::BranchTarget).registers == s.registers,
        spec_read_action(s, MicroOp::BranchApply).registers.pc.0
            == branch_target(s.registers.pc.0, s.registers.operand),
{
}

/// Two bus cycles carry an immediate-mode read instruction from one
/// decode boundary to the next: the first tick fetches and decodes the
/// opcode, the second feeds the operand to the catalog, and the register
/// file lands exactly where the catalog's interpretation puts it, with
/// the program counter advanced past both bytes.
pub proof fn lemma_immediate_read_instruction(
    s: CpuSnapshot,
    op_byte: u8,
    operand: u8,
    r: crate::isa6502::instructions::ReadOp,
)
    requires
        s.timing == seq![decode_step()],
        spec_decode(op_byte) == OpKind::Table(
            crate::isa6502::addressing::Instr::Read(r),
            crate::isa6502::addressing::AddrModeKind::Immediate,
        ),
    ensures
        spec_tick(s, op_byte).opcode == op_byte,
        spec_tick(s, op_byte).timing == mode_steps(
            crate::isa6502::addressing::Instr::Read(r),
            crate::isa6502::addressing::AddrModeKind::Immediate,
        ),
        spec_tick(spec_tick(s, op_byte), operand).timing == seq![decode_step()],
        spec_tick(spec_tick(s, op_byte), operand).registers == spec_exec_read(
            r,
            (Registers {
                pc: Address(((((s.registers.pc.0 as int + 1) % 0x10000) + 1) % 0x10000) as u16),
                ..s.registers
            }),
            operand,
        ),
{
    let s1 = spec_tick(s, op_byte);
    assert(s.timing.subrange(1, 1) =~= Seq::<MicroStep>::empty());
    assert(s1.timing =~= mode_steps(
        crate::isa6502::addressing::Instr::Read(r),
        crate::isa6502::addressing::AddrModeKind::Immediate,
    ));
    assert(s1.timing.subrange(1, 2) =~= seq![decode_step()]);
}

/// The run-time half of the indexed-read penalty: latching the high
/// operand byte front-queues exactly one dummy-read cycle when the index
/// carries out of the low byte, and none otherwise; the registers move
/// the same either way.
pub proof fn lemma_indexed_read_page_cross(s: CpuSnapshot)
    ensures
        (addr_low(buffer_high_set(s).registers.address_buffer.0) as int
                + s.registers.x as int >= 256)
            ==> spec_read_action(s, MicroOp::BufferHighFixupX).timing
                == seq![page_fix_step_x()] + s.timing,
        (addr_low(buffer_high_set(s).registers.address_buffer.0) as int
                + (s.registers.x as int) < 256)
            ==> spec_read_action(s, MicroOp::BufferHighFixupX).timing == s.timing,
        (addr_low(buffer_high_set(s).registers.address_buffer.0) as int
                + s.registers.y as int >= 256)
            ==> spec_read_action(s, MicroOp::BufferHighFixupY).timing
                == seq![page_fix_step_y()] + s.timing,
        (addr_low(buffer_high_set(s).registers.address_buffer.0) as int
                + (s.registers.y as int) < 256)
            ==> spec_read_action(s, MicroOp::BufferHighFixupY).timing == s.timing,
        spec_read_action(s, MicroOp::BufferHighFixupX).registers == buffer_high_set(s).registers,
        spec_read_action(s, MicroOp::BufferHighFixupY).registers == buffer_high_set(s).registers,
{
}

/// The RP2A03: registers, the microcode queue, the opcode and data
/// latches, the decode memo table and the master-cycle counter.
pub struct RP2A03 {
    registers: Registers,
    decode_cache: Vec<Option<OpKind>>,
    timing: VecDeque<MicroStep>,
    opcode: u8,
    data_latch: u8,
    cycles: u64,
}

impl RP2A03 {
    /// The CPU clock runs at a twelfth of the NTSC master clock.
    pub open spec fn clock_divisor() -> int {
        12
    }

    /// The state one bus cycle acts on.
    pub closed spec fn snap(self) -> CpuSnapshot {
        CpuSnapshot {
            registers: self.registers,
            opcode: self.opcode,
            data_latch: self.data_latch,
            timing: self.timing@,
        }
    }

    /// The master-cycle counter.
    pub closed spec fn spec_cycles(self) -> u64 {
        self.cycles
    }

    /// The engine's consistency condition: the queue is never empty and
    /// always closes with the decode step, and every memoised decode entry
    /// agrees with the opcode map.
    pub closed spec fn inv(self) -> bool {
        &&& self.timing@.len() > 0
        &&& self.timing@.last() == decode_step()
        &&& self.caches_wf()
    }

    /// Whether the decode memo table agrees with the opcode map.
    pub closed spec fn caches_wf(self) -> bool {
        cache_sound(self.decode_cache@)
    }

    /// A fresh core, already holding the reset sequence.
    pub fn new() -> (r: Self)
        ensures
            r.inv(),
            r.caches_wf(),
            r.snap().timing == reset_steps(),
            r.snap().registers.pc.0 == 0,
            r.snap().registers.a == 0,
            r.snap().registers.x == 0,
            r.snap().registers.y == 0,
            r.snap().registers.stack == 0,
            r.snap().registers.p.bits == 0x24,
            r.snap().opcode == 0,
            r.snap().data_latch == 0,
            r.spec_cycles() == 0,
    {
        let mut cpu = Self {
            registers: Registers::new(),
            timing: VecDeque::with_capacity(8),
            decode_cache: vec![None; 256],
            opcode: 0,
            data_latch: 0,
            cycles: 0,
        };
        cpu.reset();
        proof {
            assert(0x24u8 | 0x24u8 == 0x24u8) by (bit_vector);
        }
        cpu
    }

    /// Pre-loads the seven-cycle reset sequence: two dummy fetches, three
    /// suppressed stack pushes, then the reset vector into PC.  The stack
    /// pointer restarts at zero and Reserved and I are forced on.
    pub fn reset(&mut self)
        requires
            old(self).caches_wf(),
        ensures
            final(self).inv(),
            final(self).caches_wf(),
            final(self).snap().timing == reset_steps(),
            final(self).snap().registers == (Registers {
                stack: 0,
                p: crate::isa6502::StatusFlags {
                    bits: old(self).snap().registers.p.bits | 0x24,
                },
                ..old(self).snap().registers
            }),
            final(self).snap().opcode == old(self).snap().opcode,
            final(self).snap().data_latch == old(self).snap().data_latch,
            final(self).spec_cycles() == old(self).spec_cycles(),
    {
        self.registers.stack = 0;
        self.registers.p.set(0x24, true);
        self.timing.clear();
        push_read(&mut self.timing, AddrSource::PcInc, MicroOp::Nop);
        push_read(&mut self.timing, AddrSource::PcInc, MicroOp::Nop);
        push_read(&mut self.timing, AddrSource::StackPush, MicroOp::Nop);
        push_read(&mut self.timing, AddrSource::StackPush, MicroOp::Nop);
        push_read(&mut self.timing, AddrSource::StackPush, MicroOp::Nop);
        push_read(&mut self.timing, AddrSource::Vector(0xFC), MicroOp::ExecRead(ReadOp::Pcl));
        push_read(&mut self.timing, AddrSource::Vector(0xFD), MicroOp::ExecRead(ReadOp::Pch));
        push_decode(&mut self.timing);
        assert(self.timing@ =~= reset_steps());
    }

    /// Enqueues a conditional branch: the flag test happens now, at decode
    /// time, so an untaken branch costs only the operand fetch.
    fn queue_branch(&mut self)
        ensures
            final(self).timing@ == old(self).timing@
                + branch_steps(branch_taken(old(self).opcode, old(self).registers.p.bits)),
            final(self).registers == old(self).registers,
            final(self).opcode == old(self).opcode,
            final(self).data_latch == old(self).data_latch,
            final(self).cycles == old(self).cycles,
            final(self).decode_cache == old(self).decode_cache,
    {
        let selector = self.opcode & 0xE0;
        let taken: bool = if selector == 0x00 {
            !self.registers.p.contains(FLAG_N)
        } else if selector == 0x20 {
            self.registers.p.contains(FLAG_N)
        } else if selector == 0x40 {
            !self.registers.p.contains(FLAG_V)
        } else if selector == 0x60 {
            self.registers.p.contains(FLAG_V)
        } else if selector == 0x80 {
            !self.registers.p.contains(FLAG_C)
        } else if selector == 0xA0 {
            self.registers.p.contains(FLAG_C)
        } else if selector == 0xC0 {
            !self.registers.p.contains(FLAG_Z)
        } else {
            self.registers.p.contains(FLAG_Z)
        };
        push_read(&mut self.timing, AddrSource::PcInc, MicroOp::PullOperand);
        if taken {
            push_read(&mut self.timing, AddrSource::Pc, MicroOp::BranchTarget);
        }
        push_decode(&mut self.timing);
        assert(self.timing@ =~= old(self).timing@
            + branch_steps(branch_taken(old(self).opcode, old(self).registers.p.bits)));
    }

    /// Enqueues JSR's six-cycle sequence.
    fn queue_jsr(&mut self)
        ensures
            final(self).timing@ == old(self).timing@ + jsr_steps(),
            final(self).registers == old(self).registers,
            final(self).opcode == old(self).opcode,
            final(self).data_latch == old(self).data_latch,
            final(self).cycles == old(self).cycles,
            final(self).decode_cache == old(self).decode_cache,
    {
        push_read(&mut self.timing, AddrSource::PcInc, MicroOp::PullOperand);
        push_read(&mut self.timing, AddrSource::Stack, MicroOp::Nop);
        push_write(&mut self.timing, AddrSource::StackPush, MicroOp::ExecWrite(WriteOp::Pch));
        push_write(&mut self.timing, AddrSource::StackPush, MicroOp::ExecWrite(WriteOp::Pcl));
        push_read(&mut self.timing, AddrSource::PcInc, MicroOp::ExecRead(ReadOp::Jsr));
        push_decode(&mut self.timing);
        assert(self.timing@ =~= old(self).timing@ + jsr_steps());
    }

    /// Enqueues RTI's six-cycle sequence.
    fn queue_rti(&mut self)
        ensures
            final(self).timing@ == old(self).timing@ + rti_steps(),
            final(self).registers == old(self).registers,
            final(self).opcode == old(self).opcode,
            final(self).data_latch == old(self).data_latch,
            final(self).cycles == old(self).cycles,
            final(self).decode_cache == old(self).decode_cache,
    {
        push_read(&mut self.timing, AddrSource::PcInc, MicroOp::Nop);
        push_read(&mut self.timing, AddrSource::Stack, MicroOp::Nop);
        push_read(&mut self.timing, AddrSource::StackPull, MicroOp::ExecRead(ReadOp::Plp));
        push_read(&mut self.timing, AddrSource::StackPull, MicroOp::ExecRead(ReadOp::Pcl));
        push_read(&mut self.timing, AddrSource::StackPull, MicroOp::ExecRead(ReadOp::Pch));
        push_decode(&mut self.timing);
        assert(self.timing@ =~= old(self).timing@ + rti_steps());
    }

    /// Enqueues RTS's six-cycle sequence.
    fn queue_rts(&mut self)
        ensures
            final(self).timing@ == old(self).timing@ + rts_steps(),
            final(self).registers == old(self).registers,
            final(self).opcode == old(self).opcode,
            final(self).data_latch == old(self).data_latch,
            final(self).cycles == old(self).cycles,
            final(self).decode_cache == old(self).decode_cache,
    {
        push_read(&mut self.timing, AddrSource::PcInc, MicroOp::Nop);
        push_read(&mut self.timing, AddrSource::Stack, MicroOp::Nop);
        push_read(&mut self.timing, AddrSource::StackPull, MicroOp::ExecRead(ReadOp::Pcl));
        push_read(&mut self.timing, AddrSource::StackPull, MicroOp::ExecRead(ReadOp::Pch));
        push_read(&mut self.timing, AddrSource::PcInc, MicroOp::Nop);
        push_decode(&mut self.timing);
        assert(self.timing@ =~= old(self).timing@ + rts_steps());
    }

    /// Enqueues absolute JMP's three-cycle sequence.
    fn queue_jmp(&mut self)
        ensures
            final(self).timing@ == old(self).timing@ + jmp_steps(),
            final(self).registers == old(self).registers,
            final(self).opcode == old(self).opcode,
            final(self).data_latch == old(self).data_latch,
            final(self).cycles == old(self).cycles,
            final(self).decode_cache == old(self).decode_cache,
    {
        push_read(&mut self.timing, AddrSource::PcInc, MicroOp::PullOperand);
        push_read(&mut self.timing, AddrSource::PcInc, MicroOp::ExecRead(ReadOp::Jmp));
        push_decode(&mut self.timing);
        assert(self.timing@ =~= old(self).timing@ + jmp_steps());
    }

    /// Enqueues indirect JMP's five-cycle sequence, with the page-wrapped
    /// high-byte read.
    fn queue_indirect_jmp(&mut self)
        ensures
            final(self).timing@ == old(self).timing@ + jmp_indirect_steps(),
            final(self).registers == old(self).registers,
            final(self).opcode == old(self).opcode,
            final(self).data_latch == old(self).data_latch,
            final(self).cycles == old(self).cycles,
            final(self).decode_cache == old(self).decode_cache,
    {
        push_read(&mut self.timing, AddrSource::PcInc, MicroOp::BufferLow);
        push_read(&mut self.timing, AddrSource::PcInc, MicroOp::BufferHigh);
        push_read(&mut self.timing, AddrSource::AddressBuffer, MicroOp::PullOperand);
        push_read(&mut self.timing, AddrSource::BufferWrapNext, MicroOp::ExecRead(ReadOp::Jmp));
        push_decode(&mut self.timing);
        assert(self.timing@ =~= old(self).timing@ + jmp_indirect_steps());
    }

    /// Decodes the byte in the data latch as the next opcode and enqueues
    /// its microsteps, memoising the table lookup.
    fn decode_opcode(&mut self)
        requires
            cache_sound(old(self).decode_cache@),
        ensures
            final(self).timing@ == old(self).timing@
                + decode_seq(old(self).data_latch, old(self).registers.p.bits),
            final(self).opcode == old(self).data_latch,
            final(self).registers == old(self).registers,
            final(self).data_latch == old(self).data_latch,
            final(self).cycles == old(self).cycles,
            cache_sound(final(self).decode_cache@),
    {
        let op = self.data_latch;
        self.opcode = op;
        let kind: OpKind = match self.decode_cache[op as usize] {
            Some(k) => k,
            None => {
                let k = decode_op(op);
                self.decode_cache[op as usize] = Some(k);
                k
            },
        };
        match kind {
            OpKind::Branch => self.queue_branch(),
            OpKind::Jsr => self.queue_jsr(),
            OpKind::Rti => self.queue_rti(),
            OpKind::Rts => self.queue_rts(),
            OpKind::Jmp => self.queue_jmp(),
            OpKind::JmpIndirect => self.queue_indirect_jmp(),
            OpKind::Table(inst, mode) => push_mode_steps(&mut self.timing, inst, mode),
        }
    }

    /// Runs the register work of a read-direction microstep, after the bus
    /// byte has landed in the data latch.
    fn apply_read(&mut self, op: MicroOp)
        requires
            cache_sound(old(self).decode_cache@),
        ensures
            final(self).snap() == spec_read_action(old(self).snap(), op),
            final(self).cycles == old(self).cycles,
            cache_sound(final(self).decode_cache@),
    {
        match op {
            MicroOp::Nop => {},
            MicroOp::PullOperand => {
                self.registers.operand = self.data_latch;
            },
            MicroOp::BufferLow => {
                self.registers.address_buffer.set_low(self.data_latch);
            },
            MicroOp::BufferHigh => {
                self.registers.address_buffer.set_high(self.data_latch);
            },
            MicroOp::BufferHighFixupX => {
                self.registers.address_buffer.set_high(self.data_latch);
                let lo = self.registers.address_buffer.low();
                if lo as u16 + self.registers.x as u16 >= 256 {
                    self.timing.push_front(MicroStep {
                        addr: AddrSource::BufferNoCarryX,
                        dir: BusDirection::Read(MicroOp::Nop),
                    });
                }
                assert(final(self).snap() =~~= spec_read_action(old(self).snap(), op));
            },
            MicroOp::BufferHighFixupY => {
                self.registers.address_buffer.set_high(self.data_latch);
                let lo = self.registers.address_buffer.low();
                if lo as u16 + self.registers.y as u16 >= 256 {
                    self.timing.push_front(MicroStep {
                        addr: AddrSource::BufferNoCarryY,
                        dir: BusDirection::Read(MicroOp::Nop),
                    });
                }
                assert(final(self).snap() =~~= spec_read_action(old(self).snap(), op));
            },
            MicroOp::BranchTarget => {
                let target = branch_target_of(self.registers.pc, self.registers.operand);
                if target.high() == self.registers.pc.high() {
                    self.registers.pc = target;
                } else {
                    self.timing.push_front(MicroStep {
                        addr: AddrSource::BranchFix,
                        dir: BusDirection::Read(MicroOp::BranchApply),
                    });
                }
                assert(final(self).snap() =~~= spec_read_action(old(self).snap(), op));
            },
            MicroOp::BranchApply => {
                let target = branch_target_of(self.registers.pc, self.registers.operand);
                self.registers.pc = target;
            },
            MicroOp::Decode => {
                self.decode_opcode();
            },
            MicroOp::ExecRead(r) => {
                let d = self.data_latch;
                execute_read(r, &mut self.registers, &d);
            },
            MicroOp::ExecReadAccum(r) => {
                let d = self.registers.a;
                execute_read(r, &mut self.registers, &d);
            },
            MicroOp::ExecRmwAccum(m) => {
                let mut d = self.registers.a;
                execute_rmw(m, &mut self.registers, &mut d);
                self.registers.a = d;
            },
            MicroOp::ExecRmw(_) => {},
            MicroOp::ExecWrite(_) => {},
        }
    }

    /// Runs the latch work of a write-direction microstep, before the bus
    /// sees the data latch.
    fn apply_write(&mut self, op: MicroOp)
        ensures
            final(self).snap() == spec_write_action(old(self).snap(), op),
            final(self).cycles == old(self).cycles,
            final(self).decode_cache == old(self).decode_cache,
    {
        match op {
            MicroOp::ExecRmw(m) => {
                let mut d = self.data_latch;
                execute_rmw(m, &mut self.registers, &mut d);
                self.data_latch = d;
            },
            MicroOp::ExecWrite(w) => {
                let mut d = self.data_latch;
                execute_write(w, &self.registers, &mut d);
                self.data_latch = d;
            },
            _ => {},
        }
    }

    /// Performs one full bus cycle: pops the front microstep, resolves its
    /// address, makes exactly one bus transaction and runs the step's work.
    fn bus_cycle<B: Bus>(&mut self, bus: &mut B)
        requires
            old(self).inv(),
            old(bus).wf(),
        ensures
            final(bus).wf(),
            final(self).inv(),
            final(self).snap() == spec_tick(old(self).snap(), final(self).data_latch),
            final(self).cycles == old(self).cycles,
    {
        let ghost rest = old(self).timing@.subrange(1, old(self).timing@.len() as int);
        let step = self.timing.pop_front().unwrap();
        proof {
            assert(step == old(self).timing@[0]);
            if step != decode_step() {
                assert(old(self).timing@.len() >= 2);
                assert(rest.len() >= 1 && rest.last() == decode_step());
            }
        }
        match step.dir {
            BusDirection::Read(op) => {
                let a = resolve_address(&mut self.registers, step.addr);
                self.data_latch = bus.read(a);
                self.apply_read(op);
                proof {
                    if op == MicroOp::Decode {
                        lemma_decode_seq_closes(
                            final(self).snap().opcode,
                            old(self).registers.p.bits,
                        );
                    }
                }
            },
            BusDirection::Write(op) => {
                let a = resolve_address(&mut self.registers, step.addr);
                self.apply_write(op);
                bus.write(a, self.data_latch);
            },
        }
    }

    /// Advances one master-clock tick; on every twelfth tick the core runs
    /// one bus cycle exactly as `spec_tick` describes, with the data latch
    /// carrying the byte the bus returned.
    #[verifier::rlimit(100)]
    #[verifier::spinoff_prover]
    pub fn cycle<B: Bus>(&mut self, bus: &mut B)
        requires
            old(self).inv(),
            old(bus).wf(),
        ensures
            final(bus).wf(),
            final(self).inv(),
            final(self).caches_wf(),
            final(self).spec_cycles() as int
                == (old(self).spec_cycles() as int + 1) % 0x1_0000_0000_0000_0000,
            final(self).spec_cycles() as int % Self::clock_divisor() != 0
                ==> final(self).snap() == old(self).snap() && *final(bus) == *old(bus),
            final(self).spec_cycles() as int % Self::clock_divisor() == 0 ==> final(self).snap()
                == spec_tick(old(self).snap(), final(self).snap().data_latch),
    {
        self.cycles = self.cycles.wrapping_add(1);
        if self.cycles % 12 == 0 {
            self.bus_cycle(bus);
        }
    }

    /// The state of one trace-log record: registers and cycle counter as
    /// they stand between instructions.
    pub fn log(&self) -> (r: NesTestLogEntry)
        ensures
            r.pc == self.snap().registers.pc,
            r.opcode == self.snap().opcode,
            r.a == self.snap().registers.a,
            r.x == self.snap().registers.x,
            r.y == self.snap().registers.y,
            r.p == self.snap().registers.p.bits,
            r.stack == self.snap().registers.stack,
            r.cycles == self.spec_cycles(),
    {
        NesTestLogEntry {
            pc: self.registers.pc,
            opcode: self.opcode,
            a: self.registers.a,
            x: self.registers.x,
            y: self.registers.y,
            p: self.registers.p.bits(),
            stack: self.registers.stack,
            cycles: self.cycles,
        }
    }
}

impl<B: Bus> Cpu<B> for RP2A03 {
    /// The trait-level consistency condition is the engine invariant.
    open spec fn wf(&self) -> bool {
        self.inv()
    }

    /// The trait-level tick counter is the master-cycle counter.
    open spec fn spec_ticks(&self) -> u64 {
        self.spec_cycles()
    }

    open spec fn clock_divisor() -> int {
        RP2A03::clock_divisor()
    }

    fn cycle(&mut self, bus: &mut B) {
        RP2A03::cycle(self, bus);
    }
}

/// One line of the conformance trace: the registers, opcode and cycle
/// counter of a completed instruction.
#[derive(Clone, Copy, PartialEq, Eq, Structural, Debug)]
pub struct NesTestLogEntry {
    pub pc: Address,
    pub opcode: u8,
    pub a: u8,
    pub x: u8,
    pub y: u8,
    pub p: u8,
    pub stack: u8,
    pub cycles: u64,
}

/// Anything that can produce a conformance trace record.
pub trait NesLogger {
    /// The record the next `log` call returns.
    spec fn spec_log(&self) -> NesTestLogEntry;

    /// The current trace record.
    fn log(&self) -> (r: NesTestLogEntry)
        ensures
            r == self.spec_log(),
    ;
}

impl<BUS: Bus> NesLogger for System<RP2A03, BUS> {
    /// Every field of the record comes from the processor's current
    /// state: registers and opcode from the snapshot, the counter from
    /// the master-cycle count.
    open spec fn spec_log(&self) -> NesTestLogEntry {
        NesTestLogEntry {
            pc: self.cpu.snap().registers.pc,
            opcode: self.cpu.snap().opcode,
            a: self.cpu.snap().registers.a,
            x: self.cpu.snap().registers.x,
            y: self.cpu.snap().registers.y,
            p: self.cpu.snap().registers.p.bits,
            stack: self.cpu.snap().registers.stack,
            cycles: self.cpu.spec_cycles(),
        }
    }

    fn log(&self) -> (r: NesTestLogEntry) {
        self.cpu.log()
    }
}

/// The window of the console's internal RAM: 2 KiB mirrored over
/// `$0000-$1FFF`.
pub open spec fn ram_window() -> crate::AddressMask {
    crate::AddressMask {
        start_address: Address(0),
        address_mask: 0xE000,
        mirror_mask: 0x07FF,
    }
}

/// The console's bus fabric: internal RAM, the cartridge's PRG device,
/// the PPU register facade over the cartridge's CHR device, and the
/// APU/IO register block, consulted in that priority order.  An address
/// nobody decodes reads as the last byte seen on the bus and swallows
/// writes.
pub struct SystemBus<M: crate::devices::BusDevice, C: crate::devices::BusDevice> {
    ram: crate::devices::RamBank<2048>,
    mapper: M,
    ppu: crate::famicom::ppu::Ppu<C>,
    apu: crate::famicom::apu::Apu,
    latch: u8,
}

impl<M: crate::devices::BusDevice, C: crate::devices::BusDevice> SystemBus<M, C> {
    /// The mirrored contents of the internal RAM.
    pub closed spec fn spec_ram(self) -> Seq<u8> {
        self.ram.model()
    }

    /// The last byte driven on the bus.
    pub closed spec fn spec_latch(self) -> u8 {
        self.latch
    }

    /// Whether the cartridge's PRG device claims the address.
    pub closed spec fn mapper_claims(self, address: Address) -> bool {
        self.mapper.claims(address)
    }

    /// Whether the cartridge's PRG device captures a write to the address.
    pub closed spec fn mapper_captures(self, address: Address) -> bool {
        self.mapper.captures(address)
    }

    /// The PPU facade behind the register window.
    pub closed spec fn spec_ppu(self) -> crate::famicom::ppu::Ppu<C> {
        self.ppu
    }

    /// Every device is consistent and the RAM sits behind its mirrored
    /// window.
    pub closed spec fn wf_bus(self) -> bool {
        &&& self.ram.wf()
        &&& self.ram.spec_map() == ram_window()
        &&& self.mapper.wf()
        &&& self.ppu.wf_ppu()
        &&& self.apu.wf_apu()
    }

    /// A console bus over the given cartridge devices, with zeroed RAM.
    pub fn new(prg_mapper: M, chr_mapper: C) -> (r: Self)
        requires
            prg_mapper.wf(),
            chr_mapper.wf(),
        ensures
            r.wf_bus(),
            r.spec_ram() == Seq::<u8>::new(2048, |i: int| 0u8),
    {
        proof {
            crate::lemma_window_constants();
            assert(!(0xffffu16 >> 3) == 0xE000u16) by (bit_vector);
        }
        SystemBus {
            ram: crate::devices::RamBank::new(crate::AddressMask::from_block(Address(0), 3, 2)),
            mapper: prg_mapper,
            ppu: crate::famicom::ppu::Ppu::new(chr_mapper),
            apu: crate::famicom::apu::Apu::new(),
            latch: 0,
        }
    }

    /// The priority fan-out of a read: the first device whose window
    /// decodes the address answers, and its byte becomes the new bus
    /// latch; an unmapped read returns the stale latch.  Behind RAM and
    /// the cartridge, the PPU's OAM port and the APU register block
    /// answer as their own contracts say.
    pub fn fan_read(&mut self, address: Address) -> (r: u8)
        requires
            old(self).wf_bus(),
        ensures
            final(self).wf_bus(),
            final(self).spec_ram() == old(self).spec_ram(),
            ram_window().spec_matches(address) ==> r
                == old(self).spec_ram()[ram_window().spec_offset(address) as int],
            final(self).spec_latch() == r,
            (!ram_window().spec_matches(address) && !old(self).mapper_claims(address)
                && crate::famicom::ppu::ppu_register_window().spec_matches(address)
                && crate::famicom::ppu::ppu_register_window().spec_offset(address) == 4)
                ==> r == old(self).spec_ppu().spec_oam()[
                    old(self).spec_ppu().spec_oam_address() as int
                ],
            (!ram_window().spec_matches(address) && !old(self).mapper_claims(address)
                && !crate::famicom::ppu::ppu_register_window().spec_matches(address)
                && crate::famicom::apu::apu_window().spec_matches(address))
                ==> r == crate::famicom::apu::apu_window().spec_offset(address) as u8,
    {
        let value = match self.ram.peek(address) {
            Some(v) => Some(v),
            None => match self.mapper.read(address) {
                Some(v) => Some(v),
                None => match self.ppu.read(address) {
                    Some(v) => Some(v),
                    None => self.apu.read(address),
                },
            },
        };
        match value {
            Some(v) => {
                self.latch = v;
                v
            },
            None => self.latch,
        }
    }

    /// The priority fan-out of a write: the first device that captures
    /// the byte keeps it; nobody capturing, the byte is dropped.  Either
    /// way it is the last byte seen on the bus.  Behind RAM and the
    /// cartridge, the PPU's OAM ports behave as their own contracts say.
    pub fn fan_write(&mut self, address: Address, data: u8)
        requires
            old(self).wf_bus(),
        ensures
            final(self).wf_bus(),
            ram_window().spec_matches(address) ==> final(self).spec_ram()
                == old(self).spec_ram().update(ram_window().spec_offset(address) as int, data),
            !ram_window().spec_matches(address) ==> final(self).spec_ram()
                == old(self).spec_ram(),
            final(self).spec_latch() == data,
            (!ram_window().spec_matches(address) && !old(self).mapper_captures(address)
                && crate::famicom::ppu::ppu_register_window().spec_matches(address)
                && crate::famicom::ppu::ppu_register_window().spec_offset(address) == 3)
                ==> final(self).spec_ppu().spec_oam_address() == data
                    && final(self).spec_ppu().spec_oam() == old(self).spec_ppu().spec_oam(),
            (!ram_window().spec_matches(address) && !old(self).mapper_captures(address)
                && crate::famicom::ppu::ppu_register_window().spec_matches(address)
                && crate::famicom::ppu::ppu_register_window().spec_offset(address) == 4)
                ==> final(self).spec_ppu().spec_oam() == old(self).spec_ppu().spec_oam().update(
                        old(self).spec_ppu().spec_oam_address() as int,
                        data,
                    )
                    && final(self).spec_ppu().spec_oam_address()
                        == ((old(self).spec_ppu().spec_oam_address() as int + 1) % 256) as u8,
    {
        self.latch = data;
        if self.ram.poke(address, data) {
            return;
        }
        if self.mapper.write(address, data) {
            return;
        }
        if self.ppu.write(address, data) {
            return;
        }
        let _ = self.apu.write(address, data);
    }
}

impl<M: crate::devices::BusDevice, C: crate::devices::BusDevice> Bus for SystemBus<M, C> {
    open spec fn wf(&self) -> bool {
        self.wf_bus()
    }

    fn read(&mut self, address: Address) -> (r: u8)
        ensures
            ram_window().spec_matches(address) ==> r
                == old(self).spec_ram()[ram_window().spec_offset(address) as int],
            final(self).spec_ram() == old(self).spec_ram(),
    {
        self.fan_read(address)
    }

    fn write(&mut self, address: Address, data: u8)
        ensures
            ram_window().spec_matches(address) ==> final(self).spec_ram()
                == old(self).spec_ram().update(ram_window().spec_offset(address) as int, data),
            !ram_window().spec_matches(address) ==> final(self).spec_ram()
                == old(self).spec_ram(),
    {
        self.fan_write(address, data);
    }
}

} // verus!
