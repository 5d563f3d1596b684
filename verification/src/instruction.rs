//! The instruction set: what an instruction is, and which opcode byte
//! encodes which instruction.
//!
//! An opcode byte is read as three fields: the two highest bits pick a block
//! of 64 opcodes, bits 5 to 3 (the *row*) and bits 2 to 0 (the *column*) pick
//! operands inside the block. A byte that encodes no implemented instruction
//! decodes to `None`.

use vstd::prelude::*;
use crate::registers::{Flags, Reg16, Reg8};

verus! {

/// The opcode that announces a second opcode byte from the extended table.
pub const EXTENDED_PREFIX: u8 = 0xcb;

/// An 8-bit operand: a register, or the byte in memory at the address held
/// in `HL`.
#[derive(Clone, Copy, Debug, PartialEq, Eq, Structural)]
pub enum Operand8 {
    Register(Reg8),
    HlIndirect,
}

/// The state of a flag that a conditional jump or call waits for.
#[derive(Clone, Copy, Debug, PartialEq, Eq, Structural)]
pub enum Condition {
    NotZero,
    Zero,
    NotCarry,
    Carry,
}

impl Condition {
    /// Whether the flags are in the state that the condition waits for.
    pub open spec fn holds(self, flags: Flags) -> bool {
        match self {
            Condition::NotZero => !flags.zero,
            Condition::Zero => flags.zero,
            Condition::NotCarry => !flags.carry,
            Condition::Carry => flags.carry,
        }
    }
}

/// Whether a jump or call acts: one without a condition always does, one with
/// a condition does if the condition holds.
pub open spec fn acts(condition: Option<Condition>, flags: Flags) -> bool {
    match condition {
        None => true,
        Some(condition) => condition.holds(flags),
    }
}

/// The operand bytes that follow an opcode in the instruction stream.
#[derive(Clone, Copy, Debug, PartialEq, Eq, Structural)]
pub enum Immediate {
    Absent,
    Byte,
    Word,
}

/// One instruction, with the operands that its opcode names.
#[allow(inconsistent_fields)]
#[derive(Clone, Copy, Debug, PartialEq, Eq, Structural)]
pub enum Instruction {
    /// `LD r, n`: the byte after the opcode goes to a register.
    LoadImmediate { target: Reg8 },
    /// `LD rr, nn`: the word after the opcode goes to a 16-bit register.
    LoadImmediate16 { target: Reg16 },
    /// `LD x, y`: copy between registers, or between a register and `(HL)`.
    Load { target: Operand8, source: Operand8 },
    /// `LD A, (DE)`.
    LoadAFromDe,
    /// `LD (HL-), A`: store the accumulator at `HL`, then decrement `HL`.
    StoreAAtHlDecrement,
    /// `LD (HL+), A`: store the accumulator at `HL`, then increment `HL`.
    StoreAAtHlIncrement,
    /// `LD (n), A`: store the accumulator at `0xff00 + n`.
    StoreAAtHighImmediate,
    /// `LD (C), A`: store the accumulator at `0xff00 + C`.
    StoreAAtHighC,
    /// `LD (nn), A`: store the accumulator at the address after the opcode.
    StoreAAtImmediate,
    /// `XOR x`: exclusive or of the accumulator with the operand.
    Xor { source: Operand8 },
    /// `CP x`: compare the accumulator with the operand.
    Compare { source: Operand8 },
    /// `CP n`: compare the accumulator with the byte after the opcode.
    CompareImmediate,
    /// `INC r`.
    Increment { target: Reg8 },
    /// `DEC r`.
    Decrement { target: Reg8 },
    /// `INC rr`.
    Increment16 { target: Reg16 },
    /// `RL r`: rotate left through the carry flag.
    RotateLeft { target: Reg8 },
    /// `BIT b, x`: test one bit of the operand.
    TestBit { bit: u8, source: Operand8 },
    /// `JR e` and `JR cc, e`: jump by the signed byte after the opcode.
    JumpRelative { condition: Option<Condition> },
    /// `CALL nn` and `CALL cc, nn`.
    Call { condition: Option<Condition> },
    /// `RET`.
    Return,
    /// `PUSH rr`.
    Push { source: Reg16 },
    /// `POP rr`.
    Pop { target: Reg16 },
}

/// The row field of an opcode: bits 5 to 3.
pub open spec fn row(opcode: u8) -> int {
    (opcode as int / 8) % 8
}

/// The column field of an opcode: bits 2 to 0.
pub open spec fn column(opcode: u8) -> int {
    opcode as int % 8
}

/// The register that a 3-bit operand field names. Field value 6 names no
/// register but the byte at `HL`; see `operand_at`.
pub open spec fn register_at(field: int) -> Reg8
    recommends
        0 <= field < 8 && field != 6,
{
    if field == 0 {
        Reg8::B
    } else if field == 1 {
        Reg8::C
    } else if field == 2 {
        Reg8::D
    } else if field == 3 {
        Reg8::E
    } else if field == 4 {
        Reg8::H
    } else if field == 5 {
        Reg8::L
    } else {
        Reg8::A
    }
}

/// The operand that a 3-bit operand field names.
pub open spec fn operand_at(field: int) -> Operand8
    recommends
        0 <= field < 8,
{
    if field == 6 {
        Operand8::HlIndirect
    } else {
        Operand8::Register(register_at(field))
    }
}

/// The 16-bit register that a 2-bit operand field names.
pub open spec fn pair_at(field: int) -> Reg16
    recommends
        0 <= field < 4,
{
    if field == 0 {
        Reg16::BC
    } else if field == 1 {
        Reg16::DE
    } else if field == 2 {
        Reg16::HL
    } else {
        Reg16::SP
    }
}

/// The condition that a 2-bit condition field names.
pub open spec fn condition_at(field: int) -> Condition
    recommends
        0 <= field < 4,
{
    if field == 0 {
        Condition::NotZero
    } else if field == 1 {
        Condition::Zero
    } else if field == 2 {
        Condition::NotCarry
    } else {
        Condition::Carry
    }
}

/// The instruction that a byte of the plain opcode table encodes, if it
/// encodes an implemented one.
pub open spec fn decode_spec(opcode: u8) -> Option<Instruction> {
    let row = row(opcode);
    let column = column(opcode);
    if opcode < 0x40 {
        if column == 4 && row != 6 {
            Some(Instruction::Increment { target: register_at(row) })
        } else if column == 5 && row != 6 {
            Some(Instruction::Decrement { target: register_at(row) })
        } else if column == 6 && (row == 0 || row == 1 || row == 5 || row == 7) {
            Some(Instruction::LoadImmediate { target: register_at(row) })
        } else if column == 1 && row % 2 == 0 {
            Some(Instruction::LoadImmediate16 { target: pair_at(row / 2) })
        } else if column == 3 && (row == 2 || row == 4) {
            Some(Instruction::Increment16 { target: pair_at(row / 2) })
        } else if column == 0 && row == 3 {
            Some(Instruction::JumpRelative { condition: None })
        } else if column == 0 && row >= 4 {
            Some(Instruction::JumpRelative { condition: Some(condition_at(row - 4)) })
        } else if opcode == 0x17 {
            Some(Instruction::RotateLeft { target: Reg8::A })
        } else if opcode == 0x1a {
            Some(Instruction::LoadAFromDe)
        } else if opcode == 0x22 {
            Some(Instruction::StoreAAtHlIncrement)
        } else if opcode == 0x32 {
            Some(Instruction::StoreAAtHlDecrement)
        } else {
            None
        }
    } else if opcode < 0x80 {
        if row == 6 && column == 6 {
            None
        } else {
            Some(Instruction::Load { target: operand_at(row), source: operand_at(column) })
        }
    } else if opcode < 0xc0 {
        if 0xa8 <= opcode < 0xb0 {
            Some(Instruction::Xor { source: operand_at(column) })
        } else if 0xb8 <= opcode {
            Some(Instruction::Compare { source: operand_at(column) })
        } else {
            None
        }
    } else {
        if column == 4 && row < 4 {
            Some(Instruction::Call { condition: Some(condition_at(row)) })
        } else if opcode == 0xc1 {
            Some(Instruction::Pop { target: Reg16::BC })
        } else if opcode == 0xc5 {
            Some(Instruction::Push { source: Reg16::BC })
        } else if opcode == 0xc9 {
            Some(Instruction::Return)
        } else if opcode == 0xcd {
            Some(Instruction::Call { condition: None })
        } else if opcode == 0xe0 {
            Some(Instruction::StoreAAtHighImmediate)
        } else if opcode == 0xe2 {
            Some(Instruction::StoreAAtHighC)
        } else if opcode == 0xea {
            Some(Instruction::StoreAAtImmediate)
        } else if opcode == 0xfe {
            Some(Instruction::CompareImmediate)
        } else {
            None
        }
    }
}

/// The instruction that a byte of the extended opcode table encodes, if it
/// encodes an implemented one.
pub open spec fn decode_extended_spec(opcode: u8) -> Option<Instruction> {
    if 0x40 <= opcode < 0x80 {
        Some(Instruction::TestBit { bit: row(opcode) as u8, source: operand_at(column(opcode)) })
    } else if opcode == 0x11 {
        Some(Instruction::RotateLeft { target: Reg8::C })
    } else {
        None
    }
}

impl Instruction {
    /// The operand bytes that this instruction takes from the instruction
    /// stream.
    pub open spec fn immediate_spec(self) -> Immediate {
        match self {
            Instruction::LoadImmediate { .. } => Immediate::Byte,
            Instruction::StoreAAtHighImmediate => Immediate::Byte,
            Instruction::CompareImmediate => Immediate::Byte,
            Instruction::JumpRelative { .. } => Immediate::Byte,
            Instruction::LoadImmediate16 { .. } => Immediate::Word,
            Instruction::StoreAAtImmediate => Immediate::Word,
            Instruction::Call { .. } => Immediate::Word,
            _ => Immediate::Absent,
        }
    }

    /// The operand bytes that this instruction takes from the instruction
    /// stream.
    #[verifier::when_used_as_spec(immediate_spec)]
    pub fn immediate(self) -> (width: Immediate)
        ensures
            width == self.immediate_spec(),
    {
        match self {
            Instruction::LoadImmediate { .. } => Immediate::Byte,
            Instruction::StoreAAtHighImmediate => Immediate::Byte,
            Instruction::CompareImmediate => Immediate::Byte,
            Instruction::JumpRelative { .. } => Immediate::Byte,
            Instruction::LoadImmediate16 { .. } => Immediate::Word,
            Instruction::StoreAAtImmediate => Immediate::Word,
            Instruction::Call { .. } => Immediate::Word,
            _ => Immediate::Absent,
        }
    }
}

impl Immediate {
    /// The number of bytes the operand takes.
    pub open spec fn len_spec(self) -> u16 {
        match self {
            Immediate::Absent => 0,
            Immediate::Byte => 1,
            Immediate::Word => 2,
        }
    }

    /// The number of bytes the operand takes.
    #[verifier::when_used_as_spec(len_spec)]
    pub fn len(self) -> (count: u16)
        ensures
            count == self.len_spec(),
    {
        match self {
            Immediate::Absent => 0,
            Immediate::Byte => 1,
            Immediate::Word => 2,
        }
    }
}

/// Reads a 3-bit operand field.
fn operand_from_field(field: u8) -> (operand: Operand8)
    requires
        field < 8,
    ensures
        operand == operand_at(field as int),
        field != 6 ==> operand == Operand8::Register(register_at(field as int)),
{
    match field {
        0 => Operand8::Register(Reg8::B),
        1 => Operand8::Register(Reg8::C),
        2 => Operand8::Register(Reg8::D),
        3 => Operand8::Register(Reg8::E),
        4 => Operand8::Register(Reg8::H),
        5 => Operand8::Register(Reg8::L),
        6 => Operand8::HlIndirect,
        _ => Operand8::Register(Reg8::A),
    }
}

/// Decodes a byte of the plain opcode table.
pub fn decode(opcode: u8) -> (instruction: Option<Instruction>)
    ensures
        instruction == decode_spec(opcode),
{
    match opcode {
        0x04 => Some(Instruction::Increment { target: Reg8::B }),
        0x0c => Some(Instruction::Increment { target: Reg8::C }),
        0x14 => Some(Instruction::Increment { target: Reg8::D }),
        0x1c => Some(Instruction::Increment { target: Reg8::E }),
        0x24 => Some(Instruction::Increment { target: Reg8::H }),
        0x2c => Some(Instruction::Increment { target: Reg8::L }),
        0x3c => Some(Instruction::Increment { target: Reg8::A }),
        0x05 => Some(Instruction::Decrement { target: Reg8::B }),
        0x0d => Some(Instruction::Decrement { target: Reg8::C }),
        0x15 => Some(Instruction::Decrement { target: Reg8::D }),
        0x1d => Some(Instruction::Decrement { target: Reg8::E }),
        0x25 => Some(Instruction::Decrement { target: Reg8::H }),
        0x2d => Some(Instruction::Decrement { target: Reg8::L }),
        0x3d => Some(Instruction::Decrement { target: Reg8::A }),
        0x06 => Some(Instruction::LoadImmediate { target: Reg8::B }),
        0x0e => Some(Instruction::LoadImmediate { target: Reg8::C }),
        0x2e => Some(Instruction::LoadImmediate { target: Reg8::L }),
        0x3e => Some(Instruction::LoadImmediate { target: Reg8::A }),
        0x01 => Some(Instruction::LoadImmediate16 { target: Reg16::BC }),
        0x11 => Some(Instruction::LoadImmediate16 { target: Reg16::DE }),
        0x21 => Some(Instruction::LoadImmediate16 { target: Reg16::HL }),
        0x31 => Some(Instruction::LoadImmediate16 { target: Reg16::SP }),
        0x13 => Some(Instruction::Increment16 { target: Reg16::DE }),
        0x23 => Some(Instruction::Increment16 { target: Reg16::HL }),
        0x17 => Some(Instruction::RotateLeft { target: Reg8::A }),
        0x18 => Some(Instruction::JumpRelative { condition: None }),
        0x20 => Some(Instruction::JumpRelative { condition: Some(Condition::NotZero) }),
        0x28 => Some(Instruction::JumpRelative { condition: Some(Condition::Zero) }),
        0x30 => Some(Instruction::JumpRelative { condition: Some(Condition::NotCarry) }),
        0x38 => Some(Instruction::JumpRelative { condition: Some(Condition::Carry) }),
        0x1a => Some(Instruction::LoadAFromDe),
        0x22 => Some(Instruction::StoreAAtHlIncrement),
        0x32 => Some(Instruction::StoreAAtHlDecrement),
        0x76 => None,
        0x40..=0x7f => Some(
            Instruction::Load {
                target: operand_from_field((opcode - 0x40) / 8),
                source: operand_from_field(opcode % 8),
            },
        ),
        0xa8..=0xaf => Some(Instruction::Xor { source: operand_from_field(opcode % 8) }),
        0xb8..=0xbf => Some(Instruction::Compare { source: operand_from_field(opcode % 8) }),
        0xc4 => Some(Instruction::Call { condition: Some(Condition::NotZero) }),
        0xcc => Some(Instruction::Call { condition: Some(Condition::Zero) }),
        0xd4 => Some(Instruction::Call { condition: Some(Condition::NotCarry) }),
        0xdc => Some(Instruction::Call { condition: Some(Condition::Carry) }),
        0xcd => Some(Instruction::Call { condition: None }),
        0xc1 => Some(Instruction::Pop { target: Reg16::BC }),
        0xc5 => Some(Instruction::Push { source: Reg16::BC }),
        0xc9 => Some(Instruction::Return),
        0xe0 => Some(Instruction::StoreAAtHighImmediate),
        0xe2 => Some(Instruction::StoreAAtHighC),
        0xea => Some(Instruction::StoreAAtImmediate),
        0xfe => Some(Instruction::CompareImmediate),
        _ => None,
    }
}

/// Decodes a byte of the extended opcode table.
pub fn decode_extended(opcode: u8) -> (instruction: Option<Instruction>)
    ensures
        instruction == decode_extended_spec(opcode),
{
    match opcode {
        0x11 => Some(Instruction::RotateLeft { target: Reg8::C }),
        0x40..=0x7f => Some(
            Instruction::TestBit {
                bit: (opcode - 0x40) / 8,
                source: operand_from_field(opcode % 8),
            },
        ),
        _ => None,
    }
}

} // verus!
