//! The register file: eight 8-bit registers, the stack pointer and the
//! program counter, with the 16-bit pair views and the condition flags.

use vstd::prelude::*;
use crate::bit;
use crate::word;

verus! {

/// The registers of the processor.
///
/// `a` is the accumulator and `f` holds the condition flags. `b`/`c`, `d`/`e`
/// and `h`/`l` double as the halves of the 16-bit pairs BC, DE and HL, the
/// first register of each pair being the high byte.
#[derive(Clone, Copy, Debug, PartialEq, Eq, Structural)]
pub struct Register {
    pub a: u8,
    pub f: u8,
    pub b: u8,
    pub c: u8,
    pub d: u8,
    pub e: u8,
    pub h: u8,
    pub l: u8,
    /// Stack pointer.
    pub sp: u16,
    /// Program counter.
    pub pc: u16,
}

/// The condition flags held in `f`.
#[derive(Clone, Copy, Debug, PartialEq, Eq, Structural)]
pub enum Flags {
    /// Bit 7: the result is negative.
    Sign,
    /// Bit 6: the result is zero.
    Zero,
    /// Bit 4: carry out of bit 3, for decimal arithmetic.
    AC,
    /// Bit 2: the result has an even number of 1 bits.
    Parity,
    /// Bit 0: carry out of bit 7, or borrow.
    Carry,
}

/// The bits of `f` that are flags.
pub const FLAG_BITS: u8 = 0xd5;

/// The bits of `f` that are no flags.
pub const RESERVED_BITS: u8 = 0x2a;

/// The bit of `f` that always reads as 1.
pub const ALWAYS_ONE: u8 = 0x02;

/// `f` with the bits that are no flags forced to their fixed values: bit 1
/// to 1, bits 3 and 5 to 0.
pub open spec fn normalized(f: u8) -> u8 {
    (f & FLAG_BITS) | ALWAYS_ONE
}

/// Whether the bits of `f` that are no flags have their fixed values.
pub open spec fn is_normalized(f: u8) -> bool {
    f == normalized(f)
}

/// Normalizing `f` keeps every flag and is idempotent; setting or clearing
/// the flag at `pos` keeps the bits that are no flags.
proof fn lemma_normalized(f: u8, pos: usize)
    by (bit_vector)
    requires
        pos == 0 || pos == 2 || pos == 4 || pos == 6 || pos == 7,
    ensures
        bit::is_set(normalized(f), pos) == bit::is_set(f, pos),
        normalized(normalized(f)) == normalized(f),
        is_normalized(ALWAYS_ONE),
        is_normalized(f) <==> f & RESERVED_BITS == ALWAYS_ONE,
        bit::with_bit(f, pos) & RESERVED_BITS == f & RESERVED_BITS,
        bit::without_bit(f, pos) & RESERVED_BITS == f & RESERVED_BITS,
{
}

/// The bits of `f` that are no flags have their fixed values exactly where
/// bit 1 is the only one of them that is set. Normalizing gives them these
/// values, and they have them on power-up.
pub proof fn lemma_reserved_bits(f: u8)
    ensures
        is_normalized(f) <==> f & RESERVED_BITS == ALWAYS_ONE,
        is_normalized(normalized(f)),
        is_normalized(Register::initial().f),
{
    lemma_normalized(f, 0);
}

impl Flags {
    /// The position of the flag in `f`.
    pub open spec fn pos(self) -> usize {
        match self {
            Flags::Sign => 7,
            Flags::Zero => 6,
            Flags::AC => 4,
            Flags::Parity => 2,
            Flags::Carry => 0,
        }
    }

    /// Returns the position of the flag in `f`.
    pub fn position(self) -> (pos: usize)
        ensures
            pos == self.pos(),
            pos < 8,
    {
        match self {
            Flags::Sign => 7,
            Flags::Zero => 6,
            Flags::AC => 4,
            Flags::Parity => 2,
            Flags::Carry => 0,
        }
    }
}

impl Register {
    /// The register pair BC.
    pub open spec fn bc(self) -> u16 {
        word::pair(self.b, self.c)
    }

    /// The register pair DE.
    pub open spec fn de(self) -> u16 {
        word::pair(self.d, self.e)
    }

    /// The register pair HL.
    pub open spec fn hl(self) -> u16 {
        word::pair(self.h, self.l)
    }

    /// The processor status word: the accumulator over the flags.
    pub open spec fn af(self) -> u16 {
        word::pair(self.a, self.f)
    }

    /// The registers with BC holding `value`.
    pub open spec fn with_bc(self, value: u16) -> Register {
        Register { b: word::high_byte(value), c: word::low_byte(value), ..self }
    }

    /// The registers with DE holding `value`.
    pub open spec fn with_de(self, value: u16) -> Register {
        Register { d: word::high_byte(value), e: word::low_byte(value), ..self }
    }

    /// The registers with HL holding `value`.
    pub open spec fn with_hl(self, value: u16) -> Register {
        Register { h: word::high_byte(value), l: word::low_byte(value), ..self }
    }

    /// The registers after the status word `value` is written: the
    /// accumulator takes the high byte, the flags take the low byte
    /// normalized.
    pub open spec fn with_af(self, value: u16) -> Register {
        Register { a: word::high_byte(value), f: normalized(word::low_byte(value)), ..self }
    }

    /// The registers with the bits of `f` that are no flags at their fixed
    /// values.
    pub open spec fn normalize(self) -> Register {
        Register { f: normalized(self.f), ..self }
    }

    /// Whether `flag` is set.
    pub open spec fn flag(self, flag: Flags) -> bool {
        bit::is_set(self.f, flag.pos())
    }

    /// The registers with `flag` holding `value` and every other bit of `f`
    /// as it was.
    pub open spec fn with_flag(self, flag: Flags, value: bool) -> Register {
        Register {
            f: if value {
                bit::with_bit(self.f, flag.pos())
            } else {
                bit::without_bit(self.f, flag.pos())
            },
            ..self
        }
    }

    /// The power-up state.
    pub open spec fn initial() -> Register {
        Register { a: 0, f: ALWAYS_ONE, b: 0, c: 0, d: 0, e: 0, h: 0, l: 0, sp: 0, pc: 0 }
    }

    /// Returns the registers as they are on power-up: all zero, but for
    /// bit 1 of `f`.
    pub fn new() -> (register: Register)
        ensures
            register == Register::initial(),
    {
        Register { a: 0, f: 0b0000_0010, b: 0, c: 0, d: 0, e: 0, h: 0, l: 0, sp: 0, pc: 0 }
    }

    /// Returns the pair BC.
    pub fn get_bc(&self) -> (value: u16)
        ensures
            value == self.bc(),
    {
        word::join(self.b, self.c)
    }

    /// Returns the pair DE.
    pub fn get_de(&self) -> (value: u16)
        ensures
            value == self.de(),
    {
        word::join(self.d, self.e)
    }

    /// Returns the pair HL.
    pub fn get_hl(&self) -> (value: u16)
        ensures
            value == self.hl(),
    {
        word::join(self.h, self.l)
    }

    /// Returns the status word: the accumulator over the flags as they are.
    pub fn get_af(&self) -> (value: u16)
        ensures
            value == self.af(),
    {
        word::join(self.a, self.f)
    }

    /// Writes the pair BC.
    pub fn set_bc(&mut self, value: u16)
        ensures
            *final(self) == old(self).with_bc(value),
    {
        self.b = word::high(value);
        self.c = word::low(value);
    }

    /// Writes the pair DE.
    pub fn set_de(&mut self, value: u16)
        ensures
            *final(self) == old(self).with_de(value),
    {
        self.d = word::high(value);
        self.e = word::low(value);
    }

    /// Writes the pair HL.
    pub fn set_hl(&mut self, value: u16)
        ensures
            *final(self) == old(self).with_hl(value),
    {
        self.h = word::high(value);
        self.l = word::low(value);
    }

    /// Returns the status word as PUSH stores it: the accumulator over the
    /// flags, with the bits of `f` that are no flags at their fixed values.
    pub fn status_word(&self) -> (value: u16)
        ensures
            value == word::pair(self.a, normalized(self.f)),
    {
        word::join(self.a, (self.f & FLAG_BITS) | ALWAYS_ONE)
    }

    /// Writes the status word. The bits of `f` that are no flags keep their
    /// fixed values whatever `value` holds.
    pub fn set_af(&mut self, value: u16)
        ensures
            *final(self) == old(self).with_af(value),
    {
        self.a = word::high(value);
        self.f = (word::low(value) & FLAG_BITS) | ALWAYS_ONE;
    }

    /// Returns whether `flag` is set.
    pub fn get_flag(&self, flag: Flags) -> (on: bool)
        ensures
            on == self.flag(flag),
    {
        bit::get(self.f, flag.position())
    }

    /// Sets `flag` if `value` holds, and clears it if not.
    pub fn set_flag(&mut self, flag: Flags, value: bool)
        ensures
            *final(self) == old(self).with_flag(flag, value),
    {
        if value {
            self.f = bit::set(self.f, flag.position())
        } else {
            self.f = bit::clear(self.f, flag.position())
        }
    }

    /// Writing a flag decides that flag and leaves every other flag, and
    /// the bits of `f` that are no flags, as they were.
    pub proof fn lemma_with_flag(self, flag: Flags, value: bool, other: Flags)
        ensures
            self.with_flag(flag, value).flag(flag) == value,
            other != flag ==> self.with_flag(flag, value).flag(other) == self.flag(other),
            self.with_flag(flag, value).f & RESERVED_BITS == self.f & RESERVED_BITS,
            is_normalized(self.f) ==> is_normalized(self.with_flag(flag, value).f),
    {
        bit::lemma_bit_update(self.f, flag.pos(), other.pos());
        lemma_normalized(self.f, flag.pos());
        lemma_normalized(self.with_flag(flag, value).f, flag.pos());
    }

    /// Writing a pair and reading it back gives the value written; writing
    /// back what was read changes nothing.
    pub proof fn lemma_pairs(self, value: u16)
        ensures
            self.with_bc(value).bc() == value,
            self.with_de(value).de() == value,
            self.with_hl(value).hl() == value,
            self.with_bc(self.bc()) == self,
            self.with_de(self.de()) == self,
            self.with_hl(self.hl()) == self,
    {
    }

    /// Writing back the status word that was read keeps the accumulator,
    /// every flag and every other register; of `f` it changes at most the
    /// bits that are no flags, which take their fixed values.
    pub proof fn lemma_af_round_trip(self, flag: Flags)
        ensures
            self.with_af(self.af()) == self.normalize(),
            self.with_af(self.af()).flag(flag) == self.flag(flag),
            is_normalized(self.f) ==> self.with_af(self.af()) == self,
            is_normalized(self.with_af(self.af()).f),
    {
        lemma_normalized(self.f, flag.pos());
    }
}

} // verus!
