//! The arithmetic of the instructions: what each operation computes and how
//! it sets the flags, stated over numbers and separate from any register.

use vstd::prelude::*;
use crate::registers::Flags;
use crate::utils::{bit_is_set, bit_set};

verus! {

/// Exclusive or of the accumulator with a value. `Zero` tells whether the
/// result is zero; the other three flags are cleared.
pub open spec fn xor_spec(accumulator: u8, value: u8) -> (u8, Flags) {
    let result = accumulator ^ value;
    (result, Flags { zero: result == 0, subtract: false, half_carry: false, carry: false })
}

/// The flags after the accumulator is compared with a value, that is, after
/// the value is subtracted from it and the difference discarded: `Zero` if
/// the two are equal, `HalfCarry` if the lower four bits had to borrow,
/// `Carry` if the whole byte had to borrow.
pub open spec fn compare_spec(accumulator: u8, value: u8) -> Flags {
    Flags {
        zero: accumulator == value,
        subtract: true,
        half_carry: accumulator % 16 < value % 16,
        carry: accumulator < value,
    }
}

/// A byte incremented, wrapping at 256. `HalfCarry` tells whether the lower
/// four bits overflowed. `Carry` keeps its value.
pub open spec fn increment_spec(value: u8, flags: Flags) -> (u8, Flags) {
    let result = ((value + 1) % 256) as u8;
    (
        result,
        Flags {
            zero: result == 0,
            subtract: false,
            half_carry: value % 16 + 1 > 15,
            carry: flags.carry,
        },
    )
}

/// A byte decremented, wrapping below zero. `HalfCarry` tells whether the
/// lower four bits had to borrow. `Carry` keeps its value.
pub open spec fn decrement_spec(value: u8, flags: Flags) -> (u8, Flags) {
    let result = ((value - 1) % 256) as u8;
    (
        result,
        Flags { zero: result == 0, subtract: true, half_carry: value % 16 < 1, carry: flags.carry },
    )
}

/// A 16-bit value incremented, wrapping at 65536. `HalfCarry` tells whether
/// the lower twelve bits overflowed, `Carry` whether the whole value did.
pub open spec fn increment16_spec(value: u16) -> (u16, Flags) {
    let result = ((value + 1) % 0x1_0000) as u16;
    (
        result,
        Flags {
            zero: result == 0,
            subtract: false,
            half_carry: value % 0x1000 + 1 > 0x0fff,
            carry: value + 1 > 0xffff,
        },
    )
}

/// A byte rotated left by one bit through the carry flag: the old carry
/// enters at bit 0, and bit 7 leaves into the carry. The other flags keep
/// their values.
pub open spec fn rotate_left_spec(value: u8, flags: Flags) -> (u8, Flags) {
    let carry_in: int = if flags.carry { 1 } else { 0 };
    (((value * 2) % 256 + carry_in) as u8, Flags { carry: value >= 128, ..flags })
}

/// The flags after a bit test: `Zero` is set exactly if the tested bit is
/// clear, `HalfCarry` is set, `Subtract` is cleared, `Carry` keeps its value.
pub open spec fn test_bit_spec(value: u8, bit: u8, flags: Flags) -> Flags {
    Flags { zero: !bit_set(value, bit), subtract: false, half_carry: true, carry: flags.carry }
}

/// The number that a byte stands for when read as a signed offset.
pub open spec fn signed(offset: u8) -> int {
    if offset < 128 {
        offset as int
    } else {
        offset - 256
    }
}

/// The address reached from `pc` by a signed offset, wrapping around both
/// ends of the 16-bit address space.
pub open spec fn jump_target_spec(pc: u16, offset: u8) -> u16 {
    ((pc + signed(offset)) % 0x1_0000) as u16
}

/// Exclusive or of the accumulator with a value, and the flags it leaves.
pub fn xor(accumulator: u8, value: u8) -> (out: (u8, Flags))
    ensures
        out == xor_spec(accumulator, value),
{
    let result: u8 = accumulator ^ value;
    (result, Flags { zero: result == 0, subtract: false, half_carry: false, carry: false })
}

/// The flags after the accumulator is compared with a value.
pub fn compare(accumulator: u8, value: u8) -> (flags: Flags)
    ensures
        flags == compare_spec(accumulator, value),
{
    assert(accumulator & 0x0f == accumulator % 16 && value & 0x0f == value % 16) by (bit_vector);
    let difference: u8 = accumulator.wrapping_sub(value);
    Flags {
        zero: difference == 0,
        subtract: true,
        half_carry: (accumulator & 0x0f) < (value & 0x0f),
        carry: accumulator < value,
    }
}

/// Increments a byte and says what becomes of the flags.
pub fn increment(value: u8, flags: Flags) -> (out: (u8, Flags))
    ensures
        out == increment_spec(value, flags),
{
    assert(value & 0x0f == value % 16) by (bit_vector);
    let result: u8 = value.wrapping_add(1);
    (
        result,
        Flags {
            zero: result == 0,
            subtract: false,
            half_carry: (value & 0x0f) == 0x0f,
            carry: flags.carry,
        },
    )
}

/// Decrements a byte and says what becomes of the flags.
pub fn decrement(value: u8, flags: Flags) -> (out: (u8, Flags))
    ensures
        out == decrement_spec(value, flags),
{
    assert(value & 0x0f == value % 16) by (bit_vector);
    let result: u8 = value.wrapping_sub(1);
    (
        result,
        Flags {
            zero: result == 0,
            subtract: true,
            half_carry: (value & 0x0f) == 0,
            carry: flags.carry,
        },
    )
}

/// Increments a 16-bit value and gives the flags it leaves.
pub fn increment16(value: u16) -> (out: (u16, Flags))
    ensures
        out == increment16_spec(value),
{
    assert(value & 0x0fff == value % 0x1000) by (bit_vector);
    let result: u16 = value.wrapping_add(1);
    (
        result,
        Flags {
            zero: result == 0,
            subtract: false,
            half_carry: (value & 0x0fff) == 0x0fff,
            carry: result == 0,
        },
    )
}

/// Rotates a byte left through the carry flag.
pub fn rotate_left(value: u8, flags: Flags) -> (out: (u8, Flags))
    ensures
        out == rotate_left_spec(value, flags),
{
    let carry_in: u8 = if flags.carry { 1 } else { 0 };
    assert(((value << 1) | carry_in) == (value * 2) % 256 + carry_in && ((value & 0x80) == 0x80)
        == (value >= 128)) by (bit_vector)
        requires
            carry_in == 0 || carry_in == 1,
    ;
    let carry_out: bool = (value & 0x80) == 0x80;
    (
        (value << 1) | carry_in,
        Flags {
            zero: flags.zero,
            subtract: flags.subtract,
            half_carry: flags.half_carry,
            carry: carry_out,
        },
    )
}

/// The flags after one bit of a value is tested.
pub fn test_bit(value: u8, bit: u8, flags: Flags) -> (out: Flags)
    ensures
        out == test_bit_spec(value, bit, flags),
{
    Flags { zero: !bit_is_set(value, bit), subtract: false, half_carry: true, carry: flags.carry }
}

/// Reads a byte as a signed offset.
pub fn to_signed(offset: u8) -> (value: i16)
    ensures
        value == signed(offset),
{
    if offset < 128 {
        offset as i16
    } else {
        offset as i16 - 256
    }
}

/// The address that a relative jump from `pc` reaches.
pub fn jump_target(pc: u16, offset: u8) -> (target: u16)
    ensures
        target == jump_target_spec(pc, offset),
{
    pc.wrapping_add_signed(to_signed(offset))
}

} // verus!
