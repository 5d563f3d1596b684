use gameboy::alu::{
    compare, decrement, increment, increment16, jump_target, rotate_left, test_bit, to_signed, xor,
};
use gameboy::registers::Flags;

fn flags(zero: bool, subtract: bool, half_carry: bool, carry: bool) -> Flags {
    Flags { zero, subtract, half_carry, carry }
}

#[test]
fn xor_values_and_flags() {
    assert_eq!(xor(0b1100_1010, 0b1010_0110), (0b0110_1100, flags(false, false, false, false)));
    assert_eq!(xor(0x00, 0xff), (0xff, flags(false, false, false, false)));
    assert_eq!(xor(0x5a, 0x5a), (0x00, flags(true, false, false, false)));
    assert_eq!(xor(0x00, 0x00), (0x00, flags(true, false, false, false)));
}

#[test]
fn xor_with_itself_is_zero_for_every_byte() {
    for a in 0..=255u8 {
        assert_eq!(xor(a, a), (0, flags(true, false, false, false)));
    }
}

#[test]
fn compare_flags() {
    // Equal.
    assert_eq!(compare(0x42, 0x42), flags(true, true, false, false));
    assert_eq!(compare(0x00, 0x00), flags(true, true, false, false));
    // Larger, no borrow anywhere.
    assert_eq!(compare(0x42, 0x21), flags(false, true, false, false));
    // Larger, the lower half borrows.
    assert_eq!(compare(0x40, 0x01), flags(false, true, true, false));
    assert_eq!(compare(0x10, 0x0f), flags(false, true, true, false));
    // Smaller: the whole byte borrows.
    assert_eq!(compare(0x21, 0x42), flags(false, true, true, true));
    assert_eq!(compare(0x22, 0x41), flags(false, true, false, true));
    assert_eq!(compare(0x00, 0x01), flags(false, true, true, true));
    assert_eq!(compare(0x0f, 0xf0), flags(false, true, false, true));
    // Comparing with zero never borrows.
    assert_eq!(compare(0x37, 0x00), flags(false, true, false, false));
}

#[test]
fn compare_against_arithmetic_for_every_pair() {
    for a in 0..=255u8 {
        for v in 0..=255u8 {
            let got = compare(a, v);
            assert_eq!(got.zero, a == v);
            assert!(got.subtract);
            assert_eq!(got.half_carry, (a & 0x0f) < (v & 0x0f));
            assert_eq!(got.carry, a < v);
        }
    }
}

#[test]
fn increment_values_and_flags() {
    let clear = flags(false, false, false, false);
    assert_eq!(increment(0x00, clear), (0x01, flags(false, false, false, false)));
    assert_eq!(increment(0x0f, clear), (0x10, flags(false, false, true, false)));
    assert_eq!(increment(0x10, clear), (0x11, flags(false, false, false, false)));
    assert_eq!(increment(0x7f, clear), (0x80, flags(false, false, true, false)));
    assert_eq!(increment(0xff, clear), (0x00, flags(true, false, true, false)));
}

#[test]
fn increment_keeps_carry_and_clears_subtract() {
    assert_eq!(increment(0xff, flags(false, true, false, true)), (0x00, flags(true, false, true, true)));
    assert_eq!(increment(0x01, flags(true, true, true, true)), (0x02, flags(false, false, false, true)));
    assert_eq!(increment(0x01, flags(true, true, true, false)), (0x02, flags(false, false, false, false)));
}

#[test]
fn decrement_values_and_flags() {
    let clear = flags(false, false, false, false);
    assert_eq!(decrement(0x01, clear), (0x00, flags(true, true, false, false)));
    assert_eq!(decrement(0x00, clear), (0xff, flags(false, true, true, false)));
    assert_eq!(decrement(0x10, clear), (0x0f, flags(false, true, true, false)));
    assert_eq!(decrement(0x1f, clear), (0x1e, flags(false, true, false, false)));
    assert_eq!(decrement(0x80, clear), (0x7f, flags(false, true, true, false)));
}

#[test]
fn decrement_keeps_carry_and_sets_subtract() {
    assert_eq!(decrement(0x00, flags(true, false, false, true)), (0xff, flags(false, true, true, true)));
    assert_eq!(decrement(0x02, flags(true, false, true, true)), (0x01, flags(false, true, false, true)));
}

#[test]
fn increment16_values_and_flags() {
    assert_eq!(increment16(0x0000), (0x0001, flags(false, false, false, false)));
    assert_eq!(increment16(0x00ff), (0x0100, flags(false, false, false, false)));
    assert_eq!(increment16(0x0fff), (0x1000, flags(false, false, true, false)));
    assert_eq!(increment16(0x1fff), (0x2000, flags(false, false, true, false)));
    assert_eq!(increment16(0x0800), (0x0801, flags(false, false, false, false)));
    assert_eq!(increment16(0xfffe), (0xffff, flags(false, false, false, false)));
    assert_eq!(increment16(0xffff), (0x0000, flags(true, false, true, true)));
}

#[test]
fn rotate_left_goes_through_the_carry() {
    let clear = flags(false, false, false, false);
    let carry = flags(false, false, false, true);
    assert_eq!(rotate_left(0b0000_0001, clear), (0b0000_0010, clear));
    assert_eq!(rotate_left(0b0000_0001, carry), (0b0000_0011, clear));
    assert_eq!(rotate_left(0b1000_0000, clear), (0b0000_0000, carry));
    assert_eq!(rotate_left(0b1000_0000, carry), (0b0000_0001, carry));
    assert_eq!(rotate_left(0b1111_1111, clear), (0b1111_1110, carry));
    assert_eq!(rotate_left(0b0101_0101, carry), (0b1010_1011, clear));
}

#[test]
fn rotate_left_keeps_the_other_flags() {
    assert_eq!(
        rotate_left(0x80, flags(true, true, true, false)),
        (0x00, flags(true, true, true, true))
    );
    assert_eq!(
        rotate_left(0x01, flags(true, false, true, true)),
        (0x03, flags(true, false, true, false))
    );
}

#[test]
fn nine_rotations_restore_byte_and_carry() {
    for start in [0x00u8, 0x01, 0x80, 0xa5, 0xff] {
        for carry in [false, true] {
            let mut value = start;
            let mut current = flags(false, false, false, carry);
            for _ in 0..9 {
                let (next, next_flags) = rotate_left(value, current);
                value = next;
                current = next_flags;
            }
            assert_eq!((value, current.carry), (start, carry));
        }
    }
}

#[test]
fn test_bit_flags() {
    let clear = flags(false, false, false, false);
    assert_eq!(test_bit(0b0000_1000, 3, clear), flags(false, false, true, false));
    assert_eq!(test_bit(0b0000_1000, 4, clear), flags(true, false, true, false));
    assert_eq!(test_bit(0x80, 7, clear), flags(false, false, true, false));
    assert_eq!(test_bit(0x7f, 7, clear), flags(true, false, true, false));
    // Carry stays, subtract is cleared.
    assert_eq!(test_bit(0x01, 0, flags(true, true, false, true)), flags(false, false, true, true));
    assert_eq!(test_bit(0x00, 0, flags(false, true, false, true)), flags(true, false, true, true));
}

#[test]
fn signed_offsets() {
    assert_eq!(to_signed(0x00), 0);
    assert_eq!(to_signed(0x01), 1);
    assert_eq!(to_signed(0x7f), 127);
    assert_eq!(to_signed(0x80), -128);
    assert_eq!(to_signed(0xfe), -2);
    assert_eq!(to_signed(0xff), -1);
}

#[test]
fn jump_targets() {
    assert_eq!(jump_target(0x0150, 0x00), 0x0150);
    assert_eq!(jump_target(0x0150, 0x05), 0x0155);
    assert_eq!(jump_target(0x0150, 0x7f), 0x01cf);
    assert_eq!(jump_target(0x0150, 0xfe), 0x014e);
    assert_eq!(jump_target(0x0150, 0x80), 0x00d0);
}

#[test]
fn jump_targets_wrap_around_the_address_space() {
    // Backward across zero.
    assert_eq!(jump_target(0x0002, 0xfb), 0xfffd);
    assert_eq!(jump_target(0x0000, 0xff), 0xffff);
    assert_eq!(jump_target(0x0000, 0x80), 0xff80);
    assert_eq!(jump_target(0x007f, 0x80), 0xffff);
    assert_eq!(jump_target(0x0080, 0x80), 0x0000);
    // Forward across the top.
    assert_eq!(jump_target(0xffff, 0x01), 0x0000);
    assert_eq!(jump_target(0xfff0, 0x7f), 0x006f);
    assert_eq!(jump_target(0xff81, 0x7f), 0x0000);
}
