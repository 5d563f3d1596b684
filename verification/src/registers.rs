//! The building blocks of the register file: condition flags and the
//! register pairs that hold two bytes as one 16-bit value.

use vstd::prelude::*;

verus! {

/// One of the four condition flags kept in the upper half of the flag byte.
#[derive(Clone, Copy, Debug, PartialEq, Eq, Structural)]
pub enum Flag {
    Zero,
    Subtract,
    HalfCarry,
    Carry,
}

impl Flag {
    /// The single bit of the flag byte that holds this flag: bit 7 for
    /// `Zero`, bit 6 for `Subtract`, bit 5 for `HalfCarry`, bit 4 for `Carry`.
    pub open spec fn mask_spec(self) -> u8 {
        match self {
            Flag::Zero => 0x80,
            Flag::Subtract => 0x40,
            Flag::HalfCarry => 0x20,
            Flag::Carry => 0x10,
        }
    }

    /// The single bit of the flag byte that holds this flag.
    #[verifier::when_used_as_spec(mask_spec)]
    pub fn mask(self) -> (m: u8)
        ensures
            m == self.mask_spec(),
    {
        match self {
            Flag::Zero => 0x80,
            Flag::Subtract => 0x40,
            Flag::HalfCarry => 0x20,
            Flag::Carry => 0x10,
        }
    }
}

/// The four condition flags as separate truth values.
#[derive(Clone, Copy, Debug, PartialEq, Eq, Structural)]
pub struct Flags {
    pub zero: bool,
    pub subtract: bool,
    pub half_carry: bool,
    pub carry: bool,
}

impl Flags {
    /// The value of one flag.
    pub open spec fn get(self, flag: Flag) -> bool {
        match flag {
            Flag::Zero => self.zero,
            Flag::Subtract => self.subtract,
            Flag::HalfCarry => self.half_carry,
            Flag::Carry => self.carry,
        }
    }

    /// The flags with one of them replaced.
    pub open spec fn with(self, flag: Flag, value: bool) -> Flags {
        match flag {
            Flag::Zero => Flags { zero: value, ..self },
            Flag::Subtract => Flags { subtract: value, ..self },
            Flag::HalfCarry => Flags { half_carry: value, ..self },
            Flag::Carry => Flags { carry: value, ..self },
        }
    }

    /// The flag byte that holds these flags: each flag contributes the weight
    /// of its bit, and the lower four bits stay clear.
    pub open spec fn pack(self) -> u8 {
        ((if self.zero { 0x80int } else { 0 })
            + (if self.subtract { 0x40int } else { 0 })
            + (if self.half_carry { 0x20int } else { 0 })
            + (if self.carry { 0x10int } else { 0 })) as u8
    }

    /// The flags held by a flag byte. The lower four bits carry no flag.
    pub open spec fn unpack(byte: u8) -> Flags {
        Flags {
            zero: byte & 0x80 != 0,
            subtract: byte & 0x40 != 0,
            half_carry: byte & 0x20 != 0,
            carry: byte & 0x10 != 0,
        }
    }

    /// All four flags clear.
    pub fn new() -> (flags: Flags)
        ensures
            flags == (Flags { zero: false, subtract: false, half_carry: false, carry: false }),
    {
        Flags { zero: false, subtract: false, half_carry: false, carry: false }
    }

    /// Packs the flags into a flag byte.
    pub fn to_byte(&self) -> (byte: u8)
        ensures
            byte == self.pack(),
    {
        let z: u8 = if self.zero { 0x80 } else { 0 };
        let n: u8 = if self.subtract { 0x40 } else { 0 };
        let h: u8 = if self.half_carry { 0x20 } else { 0 };
        let c: u8 = if self.carry { 0x10 } else { 0 };
        z + n + h + c
    }

    /// Reads the flags out of a flag byte.
    pub fn from_byte(byte: u8) -> (flags: Flags)
        ensures
            flags == Flags::unpack(byte),
    {
        Flags {
            zero: byte & 0x80 != 0,
            subtract: byte & 0x40 != 0,
            half_carry: byte & 0x20 != 0,
            carry: byte & 0x10 != 0,
        }
    }
}

/// Packing loses nothing: the flags read back from a packed byte are the
/// flags that went in, and the byte's lower four bits are clear.
pub proof fn law_packing_keeps_flags(flags: Flags)
    ensures
        Flags::unpack(flags.pack()) == flags,
        flags.pack() & 0x0f == 0,
{
    let z: u8 = if flags.zero { 0x80 } else { 0 };
    let n: u8 = if flags.subtract { 0x40 } else { 0 };
    let h: u8 = if flags.half_carry { 0x20 } else { 0 };
    let c: u8 = if flags.carry { 0x10 } else { 0 };
    let byte: u8 = flags.pack();
    assert(byte == z + n + h + c);
    assert((byte & 0x80 != 0) == (z == 0x80) && (byte & 0x40 != 0) == (n == 0x40) && (byte & 0x20
        != 0) == (h == 0x20) && (byte & 0x10 != 0) == (c == 0x10) && byte & 0x0f == 0)
        by (bit_vector)
        requires
            z == 0 || z == 0x80,
            n == 0 || n == 0x40,
            h == 0 || h == 0x20,
            c == 0 || c == 0x10,
            byte == z + n + h + c,
    ;
}

/// A byte whose lower four bits are clear is the packing of its own flags.
pub proof fn law_clean_byte_is_its_flags_packed(byte: u8)
    requires
        byte & 0x0f == 0,
    ensures
        Flags::unpack(byte).pack() == byte,
{
    let z: u8 = if byte & 0x80 != 0 { 0x80 } else { 0 };
    let n: u8 = if byte & 0x40 != 0 { 0x40 } else { 0 };
    let h: u8 = if byte & 0x20 != 0 { 0x20 } else { 0 };
    let c: u8 = if byte & 0x10 != 0 { 0x10 } else { 0 };
    assert(byte == z + n + h + c) by (bit_vector)
        requires
            byte & 0x0f == 0,
            z == (if byte & 0x80 != 0 { 0x80u8 } else { 0u8 }),
            n == (if byte & 0x40 != 0 { 0x40u8 } else { 0u8 }),
            h == (if byte & 0x20 != 0 { 0x20u8 } else { 0u8 }),
            c == (if byte & 0x10 != 0 { 0x10u8 } else { 0u8 }),
    ;
}

/// Replacing the bit under one flag's mask sets exactly that bit and leaves
/// the bits under any other flag's mask, and the lower four bits, as they were.
proof fn lemma_replace_bit(byte: u8, mask: u8, bit: u8, rest: u8)
    by (bit_vector)
    requires
        mask == 0x80 || mask == 0x40 || mask == 0x20 || mask == 0x10,
        bit == mask || bit == 0,
        rest == 0x80 || rest == 0x40 || rest == 0x20 || rest == 0x10 || rest == 0x0f,
        rest != mask,
    ensures
        ((byte & !mask) | bit) & mask == bit,
        ((byte & !mask) | bit) & rest == byte & rest,
{
}

/// The 16-bit value whose upper half is `hi` and whose lower half is `lo`.
pub open spec fn join(hi: u8, lo: u8) -> u16 {
    (hi * 256 + lo) as u16
}

/// Two bytes held as one 16-bit value, the high byte in the upper half.
#[derive(Clone, Copy, Debug, PartialEq, Eq, Structural)]
pub struct ComboRegister {
    pub hi: u8,
    pub lo: u8,
}

impl ComboRegister {
    /// The 16-bit value of the pair.
    pub open spec fn combined(self) -> u16 {
        join(self.hi, self.lo)
    }

    /// The pair that holds a 16-bit value.
    pub open spec fn split(value: u16) -> ComboRegister {
        ComboRegister { hi: (value / 256) as u8, lo: (value % 256) as u8 }
    }

    /// The flags held in the low byte.
    pub open spec fn flags(self) -> Flags {
        Flags::unpack(self.lo)
    }

    /// Both halves zero.
    pub fn new() -> (pair: ComboRegister)
        ensures
            pair == (ComboRegister { hi: 0, lo: 0 }),
    {
        ComboRegister { hi: 0, lo: 0 }
    }

    /// The 16-bit value of the pair.
    pub fn get_combined(&self) -> (value: u16)
        ensures
            value == self.combined(),
    {
        let hi: u8 = self.hi;
        let lo: u8 = self.lo;
        assert(((hi as u16) << 8) | (lo as u16) == (hi as u16) * 256 + (lo as u16))
            by (bit_vector);
        ((hi as u16) << 8) | (lo as u16)
    }

    /// Stores a 16-bit value in the pair: its upper byte in the high half, its
    /// lower byte in the low half.
    pub fn set_combined(&mut self, combined: u16)
        ensures
            *final(self) == ComboRegister::split(combined),
            final(self).combined() == combined,
    {
        assert((combined >> 8) == combined / 256 && (combined & 0x00ff) == combined % 256)
            by (bit_vector);
        self.hi = (combined >> 8) as u8;
        self.lo = (combined & 0x00ff) as u8;
    }

    /// Stores `value` in the bit of the low byte that holds `flag`. The other
    /// three flags, the lower four bits and the high byte keep their values.
    pub fn set_flag_lo(&mut self, flag: Flag, value: bool)
        ensures
            final(self).hi == old(self).hi,
            final(self).flags() == old(self).flags().with(flag, value),
            final(self).lo & 0x0f == old(self).lo & 0x0f,
    {
        let mask: u8 = flag.mask();
        let bit: u8 = if value { mask } else { 0 };
        proof {
            let lo = self.lo;
            lemma_replace_bit(lo, mask, bit, 0x0f);
            if flag != Flag::Zero {
                lemma_replace_bit(lo, mask, bit, 0x80);
            }
            if flag != Flag::Subtract {
                lemma_replace_bit(lo, mask, bit, 0x40);
            }
            if flag != Flag::HalfCarry {
                lemma_replace_bit(lo, mask, bit, 0x20);
            }
            if flag != Flag::Carry {
                lemma_replace_bit(lo, mask, bit, 0x10);
            }
        }
        self.lo = (self.lo & !mask) | bit;
    }

    /// Whether the flag `flag` currently equals `value`.
    pub fn check_flag_low(&self, flag: Flag, value: bool) -> (holds: bool)
        ensures
            holds == (self.flags().get(flag) == value),
    {
        let set: bool = self.lo & flag.mask() != 0;
        set == value
    }
}

/// An 8-bit register that instructions name as an operand.
#[derive(Clone, Copy, Debug, PartialEq, Eq, Structural)]
pub enum Reg8 {
    B,
    C,
    D,
    E,
    H,
    L,
    A,
}

/// A 16-bit register that instructions name as an operand: one of the three
/// general-purpose pairs, or the stack pointer.
#[derive(Clone, Copy, Debug, PartialEq, Eq, Structural)]
pub enum Reg16 {
    BC,
    DE,
    HL,
    SP,
}

/// The contents of the register file.
#[derive(Clone, Copy, Debug, PartialEq, Eq, Structural)]
pub struct Registers {
    pub a: u8,
    pub flags: Flags,
    pub b: u8,
    pub c: u8,
    pub d: u8,
    pub e: u8,
    pub h: u8,
    pub l: u8,
    pub sp: u16,
    pub pc: u16,
}

impl Registers {
    /// The register file at power-on. Every register is zero but the stack
    /// pointer, which starts at `0xfffe`, and the program counter: execution
    /// starts in the boot image at `0x0000` if there is one, and at the
    /// cartridge's entry point `0x0100` if there is none.
    pub open spec fn power_on(boot_present: bool) -> Registers {
        Registers {
            a: 0,
            flags: Flags { zero: false, subtract: false, half_carry: false, carry: false },
            b: 0,
            c: 0,
            d: 0,
            e: 0,
            h: 0,
            l: 0,
            sp: 0xfffe,
            pc: if boot_present { 0x0000 } else { 0x0100 },
        }
    }

    /// The value of an 8-bit register.
    pub open spec fn get(self, register: Reg8) -> u8 {
        match register {
            Reg8::B => self.b,
            Reg8::C => self.c,
            Reg8::D => self.d,
            Reg8::E => self.e,
            Reg8::H => self.h,
            Reg8::L => self.l,
            Reg8::A => self.a,
        }
    }

    /// The registers with one 8-bit register replaced.
    pub open spec fn with(self, register: Reg8, value: u8) -> Registers {
        match register {
            Reg8::B => Registers { b: value, ..self },
            Reg8::C => Registers { c: value, ..self },
            Reg8::D => Registers { d: value, ..self },
            Reg8::E => Registers { e: value, ..self },
            Reg8::H => Registers { h: value, ..self },
            Reg8::L => Registers { l: value, ..self },
            Reg8::A => Registers { a: value, ..self },
        }
    }

    /// The 16-bit value of a pair: its first register is the high byte.
    pub open spec fn pair(self, register: Reg16) -> u16 {
        match register {
            Reg16::BC => join(self.b, self.c),
            Reg16::DE => join(self.d, self.e),
            Reg16::HL => join(self.h, self.l),
            Reg16::SP => self.sp,
        }
    }

    /// The registers with one 16-bit register replaced: for a pair, the high
    /// byte of the value goes to its first register, the low byte to its second.
    pub open spec fn with_pair(self, register: Reg16, value: u16) -> Registers {
        let hi = (value / 256) as u8;
        let lo = (value % 256) as u8;
        match register {
            Reg16::BC => Registers { b: hi, c: lo, ..self },
            Reg16::DE => Registers { d: hi, e: lo, ..self },
            Reg16::HL => Registers { h: hi, l: lo, ..self },
            Reg16::SP => Registers { sp: value, ..self },
        }
    }

    /// The accumulator and the flag byte as one 16-bit value.
    pub open spec fn af(self) -> u16 {
        join(self.a, self.flags.pack())
    }

    /// The registers with other flags.
    pub open spec fn with_flags(self, flags: Flags) -> Registers {
        Registers { flags, ..self }
    }

    /// The registers with the program counter at `pc`.
    pub open spec fn with_pc(self, pc: u16) -> Registers {
        Registers { pc, ..self }
    }

    /// The registers with the stack pointer at `sp`.
    pub open spec fn with_sp(self, sp: u16) -> Registers {
        Registers { sp, ..self }
    }

    /// The registers with the program counter moved `count` bytes forward,
    /// wrapping at the end of the address space.
    pub open spec fn advance(self, count: u16) -> Registers {
        Registers { pc: self.pc.wrapping_add(count), ..self }
    }
}

} // verus!
