//! Small bit-level helpers shared by the register file and the instruction
//! handlers.

use vstd::prelude::*;
use vstd::arithmetic::div_mod::lemma_basic_div;
use vstd::arithmetic::power2::{lemma2_to64, lemma_pow2_strictly_increases, pow2};
use vstd::bits::lemma_u8_shr_is_div;

verus! {

/// Whether bit `bit_number` of `value` is set, bit 0 being the least
/// significant: the bit is set exactly if `value`, divided by two to the
/// power of `bit_number`, is odd. A byte is less than two to the eighth, so
/// it has no bit set from bit 8 on.
pub open spec fn bit_set(value: u8, bit_number: u8) -> bool {
    (value as nat / pow2(bit_number as nat)) % 2 == 1
}

/// Tests one bit of a byte.
pub fn bit_is_set(value: u8, bit_number: u8) -> (set: bool)
    ensures
        set == bit_set(value, bit_number),
{
    if bit_number < 8 {
        let shifted: u8 = value >> bit_number;
        proof {
            lemma_u8_shr_is_div(value, bit_number);
            assert(shifted & 0x01 == shifted % 2) by (bit_vector);
        }
        (shifted & 0x01) == 0x01
    } else {
        proof {
            lemma2_to64();
            if bit_number > 8 {
                lemma_pow2_strictly_increases(8, bit_number as nat);
            }
            lemma_basic_div(value as int, pow2(bit_number as nat) as int);
        }
        false
    }
}

} // verus!
