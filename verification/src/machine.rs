//! What the machine does, as a function on states: the stack protocol, the
//! effect of each instruction, and the fetch-decode-execute step.
//!
//! Nothing here runs. These functions say what the processor's operations
//! must compute; `crate::cpu` implements them.

use vstd::prelude::*;
use crate::alu::{
    compare_spec, decrement_spec, increment16_spec, increment_spec, jump_target_spec,
    rotate_left_spec, test_bit_spec, xor_spec,
};
use crate::error::EmulatorError;
use crate::instruction::{
    acts, decode_extended_spec, decode_spec, Immediate, Instruction, Operand8, EXTENDED_PREFIX,
};
use crate::memory::{MemoryView, BOOT_OVERLAY_END};
use crate::registers::{Reg16, Reg8, Registers};

verus! {

/// The first address of the page that `LD (n), A` and `LD (C), A` store to.
pub const HIGH_PAGE: u16 = 0xff00;

/// The whole state of the machine: the register file and the address space.
#[verifier::ext_equal]
pub struct MachineState {
    pub cpu: Registers,
    pub memory: MemoryView,
}

/// The state that a step leaves and how the step ended.
#[verifier::ext_equal]
pub struct Step {
    pub state: MachineState,
    pub outcome: Result<(), EmulatorError>,
}

impl MachineState {
    /// The machine at power-on, with a cartridge image and a boot image. An
    /// empty boot image means that none was supplied.
    pub open spec fn power_on(rom: Seq<u8>, bootrom: Seq<u8>) -> MachineState {
        MachineState {
            cpu: Registers::power_on(bootrom.len() > 0),
            memory: MemoryView::initial(rom, bootrom),
        }
    }

    /// The state with other registers and the same memory.
    pub open spec fn with_cpu(self, cpu: Registers) -> MachineState {
        MachineState { cpu, ..self }
    }

    /// The state with the program counter moved `count` bytes forward.
    pub open spec fn advance(self, count: u16) -> MachineState {
        self.with_cpu(self.cpu.advance(count))
    }

    /// The state in which a step starts its work: a step that begins with
    /// the program counter at the cartridge's entry point first switches the
    /// boot overlay off.
    pub open spec fn enter(self) -> MachineState {
        if self.cpu.pc == BOOT_OVERLAY_END {
            MachineState { memory: self.memory.without_overlay(), ..self }
        } else {
            self
        }
    }

    /// The state after `value` is written to `addr`.
    pub open spec fn store(self, addr: u16, value: u8) -> Result<MachineState, EmulatorError> {
        match self.memory.write(addr, value) {
            Ok(memory) => Ok(MachineState { memory, ..self }),
            Err(e) => Err(e),
        }
    }

    /// The value of an 8-bit operand.
    pub open spec fn operand(self, operand: Operand8) -> Result<u8, EmulatorError> {
        match operand {
            Operand8::Register(register) => Ok(self.cpu.get(register)),
            Operand8::HlIndirect => self.memory.read(self.cpu.pair(Reg16::HL)),
        }
    }

    /// The state after `value` is stored in an 8-bit operand.
    pub open spec fn store_operand(self, operand: Operand8, value: u8) -> Result<
        MachineState,
        EmulatorError,
    > {
        match operand {
            Operand8::Register(register) => Ok(self.with_cpu(self.cpu.with(register, value))),
            Operand8::HlIndirect => self.store(self.cpu.pair(Reg16::HL), value),
        }
    }

    /// Pushing a byte: the stack pointer moves down by one, then the byte is
    /// written where it points.
    pub open spec fn push8(self, value: u8) -> Result<MachineState, EmulatorError> {
        let sp = self.cpu.sp.wrapping_sub(1);
        match self.memory.write(sp, value) {
            Ok(memory) => Ok(MachineState { cpu: self.cpu.with_sp(sp), memory }),
            Err(e) => Err(e),
        }
    }

    /// Popping a byte: the byte is read where the stack pointer points, then
    /// the stack pointer moves up by one.
    pub open spec fn pop8(self) -> Result<(u8, MachineState), EmulatorError> {
        match self.memory.read(self.cpu.sp) {
            Ok(value) => Ok((value, self.with_cpu(self.cpu.with_sp(self.cpu.sp.wrapping_add(1))))),
            Err(e) => Err(e),
        }
    }

    /// Pushing a word: the high byte first, then the low byte, so that the
    /// low byte ends at the lower address.
    pub open spec fn push16(self, value: u16) -> Result<MachineState, EmulatorError> {
        match self.push8((value / 256) as u8) {
            Ok(pushed) => pushed.push8((value % 256) as u8),
            Err(e) => Err(e),
        }
    }

    /// Popping a word: the low byte first, then the high byte.
    pub open spec fn pop16(self) -> Result<(u16, MachineState), EmulatorError> {
        match self.pop8() {
            Ok((low, popped)) => match popped.pop8() {
                Ok((high, rest)) => Ok(((high * 256 + low) as u16, rest)),
                Err(e) => Err(e),
            },
            Err(e) => Err(e),
        }
    }

    /// A call: the program counter, which already points past the call, is
    /// pushed, and execution continues at `target`.
    pub open spec fn call(self, target: u16) -> Result<MachineState, EmulatorError> {
        match self.push16(self.cpu.pc) {
            Ok(pushed) => Ok(pushed.with_cpu(pushed.cpu.with_pc(target))),
            Err(e) => Err(e),
        }
    }

    /// The operand bytes that the instruction stream holds at the program
    /// counter, as one number.
    pub open spec fn fetch_immediate(self, width: Immediate) -> Result<u16, EmulatorError> {
        match width {
            Immediate::Absent => Ok(0),
            Immediate::Byte => match self.memory.read(self.cpu.pc) {
                Ok(byte) => Ok(byte as u16),
                Err(e) => Err(e),
            },
            Immediate::Word => self.memory.read_word(self.cpu.pc),
        }
    }

    /// The effect of one instruction. `immediate` holds the instruction's
    /// operand bytes, and the program counter already points past them. An
    /// instruction that cannot complete has no effect at all.
    pub open spec fn execute(self, instruction: Instruction, immediate: u16) -> Result<
        MachineState,
        EmulatorError,
    > {
        let cpu = self.cpu;
        match instruction {
            Instruction::LoadImmediate { target } => Ok(
                self.with_cpu(cpu.with(target, (immediate % 256) as u8)),
            ),
            Instruction::LoadImmediate16 { target } => Ok(
                self.with_cpu(cpu.with_pair(target, immediate)),
            ),
            Instruction::Load { target, source } => match self.operand(source) {
                Ok(value) => self.store_operand(target, value),
                Err(e) => Err(e),
            },
            Instruction::LoadAFromDe => match self.memory.read(cpu.pair(Reg16::DE)) {
                Ok(value) => Ok(self.with_cpu(cpu.with(Reg8::A, value))),
                Err(e) => Err(e),
            },
            Instruction::StoreAAtHlDecrement => match self.store(cpu.pair(Reg16::HL), cpu.a) {
                Ok(stored) => Ok(
                    stored.with_cpu(cpu.with_pair(Reg16::HL, cpu.pair(Reg16::HL).wrapping_sub(1))),
                ),
                Err(e) => Err(e),
            },
            Instruction::StoreAAtHlIncrement => match self.store(cpu.pair(Reg16::HL), cpu.a) {
                Ok(stored) => Ok(
                    stored.with_cpu(cpu.with_pair(Reg16::HL, cpu.pair(Reg16::HL).wrapping_add(1))),
                ),
                Err(e) => Err(e),
            },
            Instruction::StoreAAtHighImmediate => self.store(
                (HIGH_PAGE + immediate % 256) as u16,
                cpu.a,
            ),
            Instruction::StoreAAtHighC => self.store((HIGH_PAGE + cpu.c) as u16, cpu.a),
            Instruction::StoreAAtImmediate => self.store(immediate, cpu.a),
            Instruction::Xor { source } => match self.operand(source) {
                Ok(value) => {
                    let (result, flags) = xor_spec(cpu.a, value);
                    Ok(self.with_cpu(cpu.with(Reg8::A, result).with_flags(flags)))
                },
                Err(e) => Err(e),
            },
            Instruction::Compare { source } => match self.operand(source) {
                Ok(value) => Ok(self.with_cpu(cpu.with_flags(compare_spec(cpu.a, value)))),
                Err(e) => Err(e),
            },
            Instruction::CompareImmediate => Ok(
                self.with_cpu(cpu.with_flags(compare_spec(cpu.a, (immediate % 256) as u8))),
            ),
            Instruction::Increment { target } => {
                let (result, flags) = increment_spec(cpu.get(target), cpu.flags);
                Ok(self.with_cpu(cpu.with(target, result).with_flags(flags)))
            },
            Instruction::Decrement { target } => {
                let (result, flags) = decrement_spec(cpu.get(target), cpu.flags);
                Ok(self.with_cpu(cpu.with(target, result).with_flags(flags)))
            },
            Instruction::Increment16 { target } => {
                let (result, flags) = increment16_spec(cpu.pair(target));
                Ok(self.with_cpu(cpu.with_pair(target, result).with_flags(flags)))
            },
            Instruction::RotateLeft { target } => {
                let (result, flags) = rotate_left_spec(cpu.get(target), cpu.flags);
                Ok(self.with_cpu(cpu.with(target, result).with_flags(flags)))
            },
            Instruction::TestBit { bit, source } => match self.operand(source) {
                Ok(value) => Ok(self.with_cpu(cpu.with_flags(test_bit_spec(value, bit, cpu.flags)))),
                Err(e) => Err(e),
            },
            Instruction::JumpRelative { condition } => if acts(condition, cpu.flags) {
                Ok(self.with_cpu(cpu.with_pc(jump_target_spec(cpu.pc, (immediate % 256) as u8))))
            } else {
                Ok(self)
            },
            Instruction::Call { condition } => if acts(condition, cpu.flags) {
                self.call(immediate)
            } else {
                Ok(self)
            },
            Instruction::Return => match self.pop16() {
                Ok((target, popped)) => Ok(popped.with_cpu(popped.cpu.with_pc(target))),
                Err(e) => Err(e),
            },
            Instruction::Push { source } => self.push16(cpu.pair(source)),
            Instruction::Pop { target } => match self.pop16() {
                Ok((value, popped)) => Ok(popped.with_cpu(popped.cpu.with_pair(target, value))),
                Err(e) => Err(e),
            },
        }
    }

    /// What follows the decoding of an opcode that was fetched from
    /// `address`. An opcode that encodes no instruction ends the step with
    /// `UnimplementedOpcode`. For an instruction, its operand bytes are
    /// fetched, the program counter moves past them, and the instruction is
    /// executed.
    pub open spec fn dispatch(self, decoded: Option<Instruction>, opcode: u8, address: u16) -> Step {
        match decoded {
            None => Step {
                state: self,
                outcome: Err(EmulatorError::UnimplementedOpcode { opcode, address }),
            },
            Some(instruction) => match self.fetch_immediate(instruction.immediate()) {
                Err(e) => Step { state: self, outcome: Err(e) },
                Ok(immediate) => {
                    let ready = self.advance(instruction.immediate().len());
                    match ready.execute(instruction, immediate) {
                        Ok(next) => Step { state: next, outcome: Ok(()) },
                        Err(e) => Step { state: ready, outcome: Err(e) },
                    }
                },
            },
        }
    }

    /// One step of the machine: fetch the opcode at the program counter,
    /// decode it, and execute the instruction.
    ///
    /// A step that fails changes nothing but the program counter, which
    /// stays just past the last part of the instruction that was fetched, and
    /// the overlay, which the step may have switched off on entry.
    pub open spec fn step(self) -> Step {
        let entered = self.enter();
        match entered.memory.read(entered.cpu.pc) {
            Err(e) => Step { state: entered, outcome: Err(e) },
            Ok(opcode) => {
                let fetched = entered.advance(1);
                if opcode == EXTENDED_PREFIX {
                    match fetched.memory.read(fetched.cpu.pc) {
                        Err(e) => Step { state: fetched, outcome: Err(e) },
                        Ok(extended) => fetched.advance(1).dispatch(
                            decode_extended_spec(extended),
                            extended,
                            fetched.cpu.pc,
                        ),
                    }
                } else {
                    fetched.dispatch(decode_spec(opcode), opcode, entered.cpu.pc)
                }
            },
        }
    }

    /// The machine after at most `count` steps: it stops early at the first
    /// step that fails.
    pub open spec fn run(self, count: nat) -> Step
        decreases count,
    {
        if count == 0 {
            Step { state: self, outcome: Ok(()) }
        } else {
            let first = self.step();
            if first.outcome is Ok {
                first.state.run((count - 1) as nat)
            } else {
                first
            }
        }
    }
}

} // verus!
