//! The processor: the register file and the operations on it.

use vstd::prelude::*;
use crate::alu::{
    compare, decrement, increment, increment16, jump_target, rotate_left, test_bit, xor,
};
use crate::error::EmulatorError;
use crate::instruction::{
    acts, decode, decode_extended, Condition, Immediate, Instruction, Operand8, EXTENDED_PREFIX,
};
use crate::machine::{MachineState, Step, HIGH_PAGE};
use crate::memory::{Memory, BOOT_OVERLAY_END};
use crate::registers::{
    law_clean_byte_is_its_flags_packed, ComboRegister, Flag, Flags, Reg16, Reg8, Registers,
};

verus! {

/// The processor. Its registers are kept as four pairs, the flags packed
/// into the low byte of the first.
#[derive(Clone, Copy, Debug)]
pub struct Cpu {
    af: ComboRegister,
    bc: ComboRegister,
    de: ComboRegister,
    hl: ComboRegister,
    sp: u16,
    pc: u16,
}

impl View for Cpu {
    type V = Registers;

    closed spec fn view(&self) -> Registers {
        Registers {
            a: self.af.hi,
            flags: self.af.flags(),
            b: self.bc.hi,
            c: self.bc.lo,
            d: self.de.hi,
            e: self.de.lo,
            h: self.hl.hi,
            l: self.hl.lo,
            sp: self.sp,
            pc: self.pc,
        }
    }
}

/// The state that a processor and an address space make together.
pub open spec fn machine(cpu: Cpu, memory: Memory) -> MachineState {
    MachineState { cpu: cpu@, memory: memory@ }
}

/// Whether an operation that was to take the machine from `before` to
/// `expected` did so: it succeeded and left the expected state, or it failed
/// with the expected error and left the machine as it was.
pub open spec fn performed(
    before: MachineState,
    expected: Result<MachineState, EmulatorError>,
    after: MachineState,
    result: Result<(), EmulatorError>,
) -> bool {
    match expected {
        Ok(next) => result == Ok::<(), EmulatorError>(()) && after =~= next,
        Err(e) => result == Err::<(), EmulatorError>(e) && after =~= before,
    }
}

/// Whether an operation that was to take the machine from `before` to a
/// state and a value, as `expected` has them, did so: it returned the value
/// and left the expected state, or it failed with the expected error and
/// left the machine as it was.
pub open spec fn produced<T>(
    before: MachineState,
    expected: Result<(T, MachineState), EmulatorError>,
    after: MachineState,
    result: Result<T, EmulatorError>,
) -> bool {
    match expected {
        Ok((value, next)) => result == Ok::<T, EmulatorError>(value) && after =~= next,
        Err(e) => result == Err::<T, EmulatorError>(e) && after =~= before,
    }
}

impl Cpu {
    /// The lower four bits of the flag byte are never set.
    #[verifier::type_invariant]
    spec fn flag_byte_is_clean(self) -> bool {
        self.af.lo & 0x0f == 0
    }

    /// A processor at power-on.
    pub fn power_on(boot_present: bool) -> (cpu: Cpu)
        ensures
            cpu@ == Registers::power_on(boot_present),
    {
        assert(0u8 & 0x0f == 0 && 0u8 & 0x80 == 0 && 0u8 & 0x40 == 0 && 0u8 & 0x20 == 0 && 0u8
            & 0x10 == 0) by (bit_vector);
        Cpu {
            af: ComboRegister::new(),
            bc: ComboRegister::new(),
            de: ComboRegister::new(),
            hl: ComboRegister::new(),
            sp: 0xfffe,
            pc: if boot_present { 0x0000 } else { 0x0100 },
        }
    }

    /// A processor at power-on, about to run a boot image.
    pub fn new() -> (cpu: Cpu)
        ensures
            cpu@ == Registers::power_on(true),
    {
        Cpu::power_on(true)
    }

    /// The value of an 8-bit register.
    pub fn get_register(&self, register: Reg8) -> (value: u8)
        ensures
            value == self@.get(register),
    {
        match register {
            Reg8::B => self.bc.hi,
            Reg8::C => self.bc.lo,
            Reg8::D => self.de.hi,
            Reg8::E => self.de.lo,
            Reg8::H => self.hl.hi,
            Reg8::L => self.hl.lo,
            Reg8::A => self.af.hi,
        }
    }

    /// Sets an 8-bit register and nothing else.
    pub fn set_register(&mut self, register: Reg8, value: u8)
        ensures
            final(self)@ == old(self)@.with(register, value),
    {
        proof {
            use_type_invariant(&*self);
        }
        match register {
            Reg8::B => self.bc.hi = value,
            Reg8::C => self.bc.lo = value,
            Reg8::D => self.de.hi = value,
            Reg8::E => self.de.lo = value,
            Reg8::H => self.hl.hi = value,
            Reg8::L => self.hl.lo = value,
            Reg8::A => self.af.hi = value,
        }
    }

    /// The value of a 16-bit register.
    pub fn get_pair(&self, register: Reg16) -> (value: u16)
        ensures
            value == self@.pair(register),
    {
        match register {
            Reg16::BC => self.bc.get_combined(),
            Reg16::DE => self.de.get_combined(),
            Reg16::HL => self.hl.get_combined(),
            Reg16::SP => self.sp,
        }
    }

    /// Sets a 16-bit register: for a pair, the high byte of the value goes to
    /// its first register and the low byte to its second.
    pub fn set_pair(&mut self, register: Reg16, value: u16)
        ensures
            final(self)@ == old(self)@.with_pair(register, value),
    {
        proof {
            use_type_invariant(&*self);
        }
        let mut pair = ComboRegister::new();
        pair.set_combined(value);
        match register {
            Reg16::BC => self.bc = pair,
            Reg16::DE => self.de = pair,
            Reg16::HL => self.hl = pair,
            Reg16::SP => self.sp = value,
        }
    }

    /// The flag byte: the four flags in its upper half, its lower half clear.
    pub fn f(&self) -> (value: u8)
        ensures
            value == self@.flags.pack(),
            value & 0x0f == 0,
    {
        proof {
            use_type_invariant(self);
            law_clean_byte_is_its_flags_packed(self.af.lo);
        }
        self.af.lo
    }

    /// The accumulator and the flag byte as one 16-bit value.
    pub fn af(&self) -> (value: u16)
        ensures
            value == self@.af(),
    {
        proof {
            use_type_invariant(self);
            law_clean_byte_is_its_flags_packed(self.af.lo);
        }
        self.af.get_combined()
    }

    /// Sets the accumulator and the flag byte from one 16-bit value. The
    /// lower four bits of the value carry no flag and are dropped.
    pub fn set_af(&mut self, value: u16)
        ensures
            final(self)@ == (Registers {
                a: (value / 256) as u8,
                flags: Flags::unpack((value % 256) as u8),
                ..old(self)@
            }),
    {
        proof {
            use_type_invariant(&*self);
        }
        let masked: u16 = value & 0xfff0;
        let low: u8 = (value % 256) as u8;
        assert(masked / 256 == value / 256 && masked % 256 == (low & 0xf0)) by (bit_vector)
            requires
                masked == value & 0xfff0,
                low == value % 256,
        ;
        assert((low & 0xf0) & 0x0f == 0 && (low & 0xf0) & 0x80 == low & 0x80 && (low & 0xf0) & 0x40
            == low & 0x40 && (low & 0xf0) & 0x20 == low & 0x20 && (low & 0xf0) & 0x10 == low
            & 0x10) by (bit_vector);
        let mut pair = ComboRegister::new();
        pair.set_combined(masked);
        self.af = pair;
    }

    /// All the registers at once.
    pub fn registers(&self) -> (registers: Registers)
        ensures
            registers == self@,
    {
        Registers {
            a: self.af.hi,
            flags: Flags::from_byte(self.af.lo),
            b: self.bc.hi,
            c: self.bc.lo,
            d: self.de.hi,
            e: self.de.lo,
            h: self.hl.hi,
            l: self.hl.lo,
            sp: self.sp,
            pc: self.pc,
        }
    }

    /// The stack pointer.
    pub fn sp(&self) -> (value: u16)
        ensures
            value == self@.sp,
    {
        self.sp
    }

    /// The program counter.
    pub fn pc(&self) -> (value: u16)
        ensures
            value == self@.pc,
    {
        self.pc
    }

    /// Moves the program counter.
    pub fn set_pc(&mut self, value: u16)
        ensures
            final(self)@ == old(self)@.with_pc(value),
    {
        proof {
            use_type_invariant(&*self);
        }
        self.pc = value;
    }

    /// The four flags.
    pub fn flags(&self) -> (flags: Flags)
        ensures
            flags == self@.flags,
    {
        Flags::from_byte(self.af.lo)
    }

    /// The value of one flag.
    pub fn get_flag(&self, flag: Flag) -> (value: bool)
        ensures
            value == self@.flags.get(flag),
    {
        self.af.check_flag_low(flag, true)
    }

    /// Sets one flag. The other flags and every register keep their values.
    pub fn set_flag(&mut self, flag: Flag, value: bool)
        ensures
            final(self)@ == old(self)@.with_flags(old(self)@.flags.with(flag, value)),
    {
        proof {
            use_type_invariant(&*self);
        }
        let mut af = self.af;
        af.set_flag_lo(flag, value);
        self.af = af;
    }

    /// Sets all four flags.
    pub fn set_flags(&mut self, flags: Flags)
        ensures
            final(self)@ == old(self)@.with_flags(flags),
    {
        self.set_flag(Flag::Zero, flags.zero);
        self.set_flag(Flag::Subtract, flags.subtract);
        self.set_flag(Flag::HalfCarry, flags.half_carry);
        self.set_flag(Flag::Carry, flags.carry);
    }

    /// Pushes a byte on the stack.
    pub fn push_stack_u8(&mut self, memory: &mut Memory, value: u8) -> (result: Result<
        (),
        EmulatorError,
    >)
        ensures
            performed(
                machine(*old(self), *old(memory)),
                machine(*old(self), *old(memory)).push8(value),
                machine(*final(self), *final(memory)),
                result,
            ),
    {
        proof {
            use_type_invariant(&*self);
        }
        let sp: u16 = self.sp.wrapping_sub(1);
        memory.write_u8(sp, value)?;
        self.sp = sp;
        Ok(())
    }

    /// Pops a byte off the stack.
    pub fn pop_stack_u8(&mut self, memory: &Memory) -> (result: Result<u8, EmulatorError>)
        ensures
            produced(
                machine(*old(self), *memory),
                machine(*old(self), *memory).pop8(),
                machine(*final(self), *memory),
                result,
            ),
    {
        proof {
            use_type_invariant(&*self);
        }
        let value: u8 = memory.read_u8(self.sp)?;
        self.sp = self.sp.wrapping_add(1);
        Ok(value)
    }

    /// Pushes a word on the stack, high byte first. Where the stack cannot
    /// take both bytes, none is pushed.
    pub fn push_stack_u16(&mut self, memory: &mut Memory, value: u16) -> (result: Result<
        (),
        EmulatorError,
    >)
        ensures
            performed(
                machine(*old(self), *old(memory)),
                machine(*old(self), *old(memory)).push16(value),
                machine(*final(self), *final(memory)),
                result,
            ),
    {
        let high_slot: u16 = self.sp.wrapping_sub(1);
        let low_slot: u16 = self.sp.wrapping_sub(2);
        if memory.can_write(high_slot) && !memory.can_write(low_slot) {
            return Err(EmulatorError::UnmappedAddress { address: low_slot });
        }
        assert((value >> 8) == value / 256 && (value & 0x00ff) == value % 256) by (bit_vector);
        self.push_stack_u8(memory, (value >> 8) as u8)?;
        self.push_stack_u8(memory, (value & 0x00ff) as u8)
    }

    /// Pops a word off the stack, low byte first. Where the stack does not
    /// hold both bytes, none is popped.
    pub fn pop_stack_u16(&mut self, memory: &Memory) -> (result: Result<u16, EmulatorError>)
        ensures
            produced(
                machine(*old(self), *memory),
                machine(*old(self), *memory).pop16(),
                machine(*final(self), *memory),
                result,
            ),
    {
        let saved: Cpu = *self;
        let lower: u8 = self.pop_stack_u8(memory)?;
        let higher: u8 = match self.pop_stack_u8(memory) {
            Ok(byte) => byte,
            Err(e) => {
                *self = saved;
                return Err(e);
            },
        };
        assert(((higher as u16) << 8) | (lower as u16) == (higher as u16) * 256 + (lower as u16))
            by (bit_vector);
        Ok(((higher as u16) << 8) | (lower as u16))
    }

    /// Reads the byte at the program counter and moves the program counter
    /// past it.
    pub fn read_u8_at_pc(&mut self, memory: &Memory) -> (result: Result<u8, EmulatorError>)
        ensures
            result == memory@.read(old(self)@.pc),
            final(self)@ == (if result is Ok {
                old(self)@.advance(1)
            } else {
                old(self)@
            }),
    {
        proof {
            use_type_invariant(&*self);
        }
        let byte: u8 = memory.read_u8(self.pc)?;
        self.pc = self.pc.wrapping_add(1);
        Ok(byte)
    }

    /// Reads the little-endian word at the program counter and moves the
    /// program counter past it.
    pub fn read_u16_at_pc(&mut self, memory: &Memory) -> (result: Result<u16, EmulatorError>)
        ensures
            result == memory@.read_word(old(self)@.pc),
            final(self)@ == (if result is Ok {
                old(self)@.advance(2)
            } else {
                old(self)@
            }),
    {
        proof {
            use_type_invariant(&*self);
        }
        let word: u16 = memory.read_u16(self.pc)?;
        self.pc = self.pc.wrapping_add(2);
        Ok(word)
    }

    /// Reads the operand bytes of an instruction at the program counter and
    /// moves the program counter past them.
    pub fn read_immediate_at_pc(&mut self, memory: &Memory, width: Immediate) -> (result: Result<
        u16,
        EmulatorError,
    >)
        ensures
            result == machine(*old(self), *memory).fetch_immediate(width),
            final(self)@ == (if result is Ok {
                old(self)@.advance(width.len())
            } else {
                old(self)@
            }),
    {
        match width {
            Immediate::Absent => {
                assert(self@.advance(0) == self@);
                Ok(0)
            },
            Immediate::Byte => {
                let byte: u8 = self.read_u8_at_pc(memory)?;
                Ok(byte as u16)
            },
            Immediate::Word => self.read_u16_at_pc(memory),
        }
    }

    /// Reads an 8-bit operand.
    pub fn get_register_value(&self, memory: &Memory, operand: Operand8) -> (result: Result<
        u8,
        EmulatorError,
    >)
        ensures
            result == machine(*self, *memory).operand(operand),
    {
        match operand {
            Operand8::Register(register) => Ok(self.get_register(register)),
            Operand8::HlIndirect => memory.read_u8(self.get_pair(Reg16::HL)),
        }
    }

    /// Stores a byte in an 8-bit operand.
    pub fn set_register_value(&mut self, memory: &mut Memory, operand: Operand8, value: u8) -> (result:
        Result<(), EmulatorError>)
        ensures
            performed(
                machine(*old(self), *old(memory)),
                machine(*old(self), *old(memory)).store_operand(operand, value),
                machine(*final(self), *final(memory)),
                result,
            ),
    {
        match operand {
            Operand8::Register(register) => {
                self.set_register(register, value);
                Ok(())
            },
            Operand8::HlIndirect => memory.write_u8(self.get_pair(Reg16::HL), value),
        }
    }

    /// Whether a jump or call with this condition acts.
    pub fn condition_holds(&self, condition: Option<Condition>) -> (holds: bool)
        ensures
            holds == acts(condition, self@.flags),
    {
        match condition {
            None => true,
            Some(Condition::NotZero) => self.af.check_flag_low(Flag::Zero, false),
            Some(Condition::Zero) => self.af.check_flag_low(Flag::Zero, true),
            Some(Condition::NotCarry) => self.af.check_flag_low(Flag::Carry, false),
            Some(Condition::Carry) => self.af.check_flag_low(Flag::Carry, true),
        }
    }

    /// Calls the routine at `jump_to_addr`: pushes the program counter and
    /// continues there.
    pub fn call(&mut self, memory: &mut Memory, jump_to_addr: u16) -> (result: Result<
        (),
        EmulatorError,
    >)
        ensures
            performed(
                machine(*old(self), *old(memory)),
                machine(*old(self), *old(memory)).call(jump_to_addr),
                machine(*final(self), *final(memory)),
                result,
            ),
    {
        let current_pc: u16 = self.pc;
        self.push_stack_u16(memory, current_pc)?;
        self.set_pc(jump_to_addr);
        Ok(())
    }

    /// Executes one instruction. `immediate` holds the instruction's operand
    /// bytes, and the program counter must already point past them. An
    /// instruction that fails changes nothing.
    pub fn execute(&mut self, memory: &mut Memory, instruction: Instruction, immediate: u16) -> (result:
        Result<(), EmulatorError>)
        ensures
            performed(
                machine(*old(self), *old(memory)),
                machine(*old(self), *old(memory)).execute(instruction, immediate),
                machine(*final(self), *final(memory)),
                result,
            ),
    {
        let accumulator: u8 = self.get_register(Reg8::A);
        match instruction {
            Instruction::LoadImmediate { target } => {
                self.set_register(target, (immediate % 256) as u8);
                Ok(())
            },
            Instruction::LoadImmediate16 { target } => {
                self.set_pair(target, immediate);
                Ok(())
            },
            Instruction::Load { target, source } => {
                let value: u8 = self.get_register_value(memory, source)?;
                self.set_register_value(memory, target, value)
            },
            Instruction::LoadAFromDe => {
                let value: u8 = memory.read_u8(self.get_pair(Reg16::DE))?;
                self.set_register(Reg8::A, value);
                Ok(())
            },
            Instruction::StoreAAtHlDecrement => {
                let address: u16 = self.get_pair(Reg16::HL);
                memory.write_u8(address, accumulator)?;
                self.set_pair(Reg16::HL, address.wrapping_sub(1));
                Ok(())
            },
            Instruction::StoreAAtHlIncrement => {
                let address: u16 = self.get_pair(Reg16::HL);
                memory.write_u8(address, accumulator)?;
                self.set_pair(Reg16::HL, address.wrapping_add(1));
                Ok(())
            },
            Instruction::StoreAAtHighImmediate => memory.write_u8(
                HIGH_PAGE + immediate % 256,
                accumulator,
            ),
            Instruction::StoreAAtHighC => memory.write_u8(
                HIGH_PAGE + self.get_register(Reg8::C) as u16,
                accumulator,
            ),
            Instruction::StoreAAtImmediate => memory.write_u8(immediate, accumulator),
            Instruction::Xor { source } => {
                let value: u8 = self.get_register_value(memory, source)?;
                let (result, flags) = xor(accumulator, value);
                self.set_register(Reg8::A, result);
                self.set_flags(flags);
                Ok(())
            },
            Instruction::Compare { source } => {
                let value: u8 = self.get_register_value(memory, source)?;
                self.set_flags(compare(accumulator, value));
                Ok(())
            },
            Instruction::CompareImmediate => {
                self.set_flags(compare(accumulator, (immediate % 256) as u8));
                Ok(())
            },
            Instruction::Increment { target } => {
                let (result, flags) = increment(self.get_register(target), self.flags());
                self.set_register(target, result);
                self.set_flags(flags);
                Ok(())
            },
            Instruction::Decrement { target } => {
                let (result, flags) = decrement(self.get_register(target), self.flags());
                self.set_register(target, result);
                self.set_flags(flags);
                Ok(())
            },
            Instruction::Increment16 { target } => {
                let (result, flags) = increment16(self.get_pair(target));
                self.set_pair(target, result);
                self.set_flags(flags);
                Ok(())
            },
            Instruction::RotateLeft { target } => {
                let (result, flags) = rotate_left(self.get_register(target), self.flags());
                self.set_register(target, result);
                self.set_flags(flags);
                Ok(())
            },
            Instruction::TestBit { bit, source } => {
                let value: u8 = self.get_register_value(memory, source)?;
                self.set_flags(test_bit(value, bit, self.flags()));
                Ok(())
            },
            Instruction::JumpRelative { condition } => {
                if self.condition_holds(condition) {
                    self.set_pc(jump_target(self.pc, (immediate % 256) as u8));
                }
                Ok(())
            },
            Instruction::Call { condition } => {
                if self.condition_holds(condition) {
                    self.call(memory, immediate)
                } else {
                    Ok(())
                }
            },
            Instruction::Return => {
                let target: u16 = self.pop_stack_u16(memory)?;
                self.set_pc(target);
                Ok(())
            },
            Instruction::Push { source } => {
                let value: u16 = self.get_pair(source);
                self.push_stack_u16(memory, value)
            },
            Instruction::Pop { target } => {
                let value: u16 = self.pop_stack_u16(memory)?;
                self.set_pair(target, value);
                Ok(())
            },
        }
    }

    /// Carries on after an opcode, fetched from `address`, was decoded:
    /// reports an opcode that encodes no instruction, and otherwise fetches
    /// the instruction's operand bytes and executes it.
    fn dispatch(
        &mut self,
        memory: &mut Memory,
        decoded: Option<Instruction>,
        opcode: u8,
        address: u16,
    ) -> (result: Result<(), EmulatorError>)
        ensures
            machine(*old(self), *old(memory)).dispatch(decoded, opcode, address) == (Step {
                state: machine(*final(self), *final(memory)),
                outcome: result,
            }),
    {
        match decoded {
            Some(instruction) => {
                let immediate: u16 = self.read_immediate_at_pc(memory, instruction.immediate())?;
                self.execute(memory, instruction, immediate)
            },
            None => Err(EmulatorError::UnimplementedOpcode { opcode, address }),
        }
    }

    /// Performs one instruction: fetches the opcode at the program counter,
    /// decodes it, fetches its operand bytes and executes it.
    ///
    /// A step that begins with the program counter at `0x0100` first switches
    /// the boot overlay off. A step that fails leaves the program counter
    /// just past the last part of the instruction that it fetched, and
    /// changes nothing else.
    pub fn step(&mut self, memory: &mut Memory) -> (result: Result<(), EmulatorError>)
        ensures
            machine(*old(self), *old(memory)).step() == (Step {
                state: machine(*final(self), *final(memory)),
                outcome: result,
            }),
    {
        if self.pc == BOOT_OVERLAY_END {
            memory.disable_boot_overlay();
        }
        let opcode_addr: u16 = self.pc;
        let opcode: u8 = self.read_u8_at_pc(memory)?;
        if opcode == EXTENDED_PREFIX {
            let special_addr: u16 = self.pc;
            let special_op: u8 = self.read_u8_at_pc(memory)?;
            self.dispatch(memory, decode_extended(special_op), special_op, special_addr)
        } else {
            self.dispatch(memory, decode(opcode), opcode, opcode_addr)
        }
    }
}

} // verus!
