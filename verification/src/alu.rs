//! What the arithmetic and logical instructions do to the registers.
//!
//! Each function maps the registers before an operation to the registers
//! after it. Arithmetic is modular on 8 bits; a flag that an operation does
//! not name keeps its value.

use vstd::prelude::*;
use crate::bit::{is_set, lemma_bit_twice, lemma_end_bits, lemma_nibbles};
use crate::register::{Flags, Register, RESERVED_BITS};

verus! {

/// The number of 1 bits in `byte`: the sum of its binary digits.
#[verifier::opaque]
pub open spec fn popcount(byte: u8) -> nat {
    digit_sum(byte) as nat
}

/// The sum of the binary digits of `byte`.
pub open spec fn digit_sum(byte: u8) -> int {
    byte % 2 + byte / 2 % 2 + byte / 4 % 2 + byte / 8 % 2 + byte / 16 % 2 + byte / 32 % 2 + byte
        / 64 % 2 + byte / 128
}

/// Whether `byte` has an even number of 1 bits.
pub open spec fn even_parity(byte: u8) -> bool {
    popcount(byte) % 2 == 0
}

/// The byte whose bit 0 is the XOR of all bits of `byte`.
pub open spec fn folded(byte: u8) -> u8 {
    let nibble = byte ^ (byte >> 4);
    let pair = nibble ^ (nibble >> 2);
    pair ^ (pair >> 1)
}

/// The XOR of all bits of a byte is 0 exactly where the sum of its digits
/// is even.
proof fn lemma_folded(byte: u8)
    by (bit_vector)
    ensures
        (folded(byte) & 1 == 0) == (digit_sum(byte) % 2 == 0),
{
}

/// Returns whether `byte` has an even number of 1 bits.
pub fn parity(byte: u8) -> (even: bool)
    ensures
        even == even_parity(byte),
{
    proof {
        reveal(popcount);
        lemma_folded(byte);
    }
    let nibble = byte ^ (byte >> 4);
    let pair = nibble ^ (nibble >> 2);
    let single = pair ^ (pair >> 1);
    single & 1 == 0
}

/// 1 where `carry` is set, else 0.
pub open spec fn carry_in(carry: bool) -> int {
    if carry {
        1
    } else {
        0
    }
}

/// The registers with the zero, sign and parity flags describing `result`.
pub open spec fn with_result_flags(reg: Register, result: u8) -> Register {
    reg.with_flag(Flags::Zero, result == 0).with_flag(Flags::Sign, is_set(result, 7)).with_flag(
        Flags::Parity,
        even_parity(result),
    )
}

/// Addition to the accumulator with a carry-in: A := A + value + carry.
/// All five flags are affected.
#[verifier::opaque]
pub open spec fn add_with_carry(reg: Register, value: u8, carry: bool) -> Register {
    let c = carry_in(carry);
    let sum = reg.a + value + c;
    let result = (sum % 256) as u8;
    Register {
        a: result,
        ..with_result_flags(reg, result).with_flag(
            Flags::AC,
            (reg.a & 0x0f) + (value & 0x0f) + c > 0x0f,
        ).with_flag(Flags::Carry, sum > 0xff)
    }
}

/// Subtraction from the accumulator with a borrow-in: A := A - value -
/// borrow. All five flags are affected; the auxiliary carry is set where the
/// low nibble needed no borrow, the carry where the whole byte did.
#[verifier::opaque]
pub open spec fn sub_with_borrow(reg: Register, value: u8, borrow: bool) -> Register {
    let c = carry_in(borrow);
    let result = ((reg.a - value - c) % 256) as u8;
    Register {
        a: result,
        ..with_result_flags(reg, result).with_flag(
            Flags::AC,
            (reg.a & 0x0f) - (value & 0x0f) - c >= 0,
        ).with_flag(Flags::Carry, reg.a < value + c)
    }
}

/// ADD: A := A + value.
pub open spec fn spec_add(reg: Register, value: u8) -> Register {
    add_with_carry(reg, value, false)
}

/// ADC: A := A + value + CY.
pub open spec fn spec_adc(reg: Register, value: u8) -> Register {
    add_with_carry(reg, value, reg.flag(Flags::Carry))
}

/// SUB: A := A - value.
pub open spec fn spec_sub(reg: Register, value: u8) -> Register {
    sub_with_borrow(reg, value, false)
}

/// SBB: A := A - value - CY.
pub open spec fn spec_sbb(reg: Register, value: u8) -> Register {
    sub_with_borrow(reg, value, reg.flag(Flags::Carry))
}

/// The value that INR leaves: `value + 1`, wrapping.
pub open spec fn incremented(value: u8) -> u8 {
    value.wrapping_add(1)
}

/// The value that DCR leaves: `value - 1`, wrapping.
pub open spec fn decremented(value: u8) -> u8 {
    value.wrapping_sub(1)
}

/// The flags after INR of `value`: zero, sign, parity and auxiliary carry
/// are affected, the carry is not.
#[verifier::opaque]
pub open spec fn spec_inr(reg: Register, value: u8) -> Register {
    with_result_flags(reg, incremented(value)).with_flag(Flags::AC, (value & 0x0f) == 0x0f)
}

/// The flags after DCR of `value`: zero, sign, parity and auxiliary carry
/// are affected, the carry is not.
#[verifier::opaque]
pub open spec fn spec_dcr(reg: Register, value: u8) -> Register {
    with_result_flags(reg, decremented(value)).with_flag(Flags::AC, (value & 0x0f) != 0)
}

/// DAD: HL := HL + value. Only the carry is affected.
#[verifier::opaque]
pub open spec fn spec_dad(reg: Register, value: u16) -> Register {
    let sum = reg.hl() + value;
    reg.with_hl((sum % 0x10000) as u16).with_flag(Flags::Carry, sum > 0xffff)
}

/// Whether DAA corrects the low digit: it is no decimal digit, or the last
/// operation carried out of it.
pub open spec fn daa_adjusts_low(reg: Register) -> bool {
    (reg.a & 0x0f) > 9 || reg.flag(Flags::AC)
}

/// Whether DAA corrects the high digit: it is no decimal digit, or the last
/// operation carried out of it, or the correction of the low digit will
/// carry into a 9.
pub open spec fn daa_adjusts_high(reg: Register) -> bool {
    (reg.a >> 4) > 9 || reg.flag(Flags::Carry) || ((reg.a >> 4) >= 9 && (reg.a & 0x0f) > 9)
}

/// What DAA adds to the accumulator.
pub open spec fn daa_addend(reg: Register) -> u8 {
    ((if daa_adjusts_low(reg) {
        0x06int
    } else {
        0
    }) + (if daa_adjusts_high(reg) {
        0x60int
    } else {
        0
    })) as u8
}

/// DAA: the accumulator is corrected to two decimal digits. The addend goes
/// through the flag rules of ADD; then the carry is set where the high digit
/// was corrected, and else is what it was before.
#[verifier::opaque]
pub open spec fn spec_daa(reg: Register) -> Register {
    spec_add(reg, daa_addend(reg)).with_flag(
        Flags::Carry,
        daa_adjusts_high(reg) || reg.flag(Flags::Carry),
    )
}

/// ANA: A := A & value. The carry is cleared; the auxiliary carry is the OR
/// of bit 3 of the two operands.
#[verifier::opaque]
pub open spec fn spec_ana(reg: Register, value: u8) -> Register {
    let result = reg.a & value;
    Register {
        a: result,
        ..with_result_flags(reg, result).with_flag(
            Flags::AC,
            ((reg.a | value) >> 3) & 1 == 1,
        ).with_flag(Flags::Carry, false)
    }
}

/// XRA: A := A ^ value. Carry and auxiliary carry are cleared.
#[verifier::opaque]
pub open spec fn spec_xra(reg: Register, value: u8) -> Register {
    let result = reg.a ^ value;
    Register {
        a: result,
        ..with_result_flags(reg, result).with_flag(Flags::AC, false).with_flag(
            Flags::Carry,
            false,
        )
    }
}

/// ORA: A := A | value. Carry and auxiliary carry are cleared.
#[verifier::opaque]
pub open spec fn spec_ora(reg: Register, value: u8) -> Register {
    let result = reg.a | value;
    Register {
        a: result,
        ..with_result_flags(reg, result).with_flag(Flags::AC, false).with_flag(
            Flags::Carry,
            false,
        )
    }
}

/// CMP: the flags of A - value, the accumulator as it was.
pub open spec fn spec_compare(reg: Register, value: u8) -> Register {
    Register { a: reg.a, ..spec_sub(reg, value) }
}

/// The byte 1 where `bit` is set, else 0.
pub open spec fn bit_value(bit: bool) -> u8 {
    if bit {
        1
    } else {
        0
    }
}

/// RLC: the accumulator rotates left; bit 7 goes to bit 0 and to the carry.
#[verifier::opaque]
pub open spec fn spec_rlc(reg: Register) -> Register {
    let out = is_set(reg.a, 7);
    Register { a: (reg.a << 1) | bit_value(out), ..reg.with_flag(Flags::Carry, out) }
}

/// RRC: the accumulator rotates right; bit 0 goes to bit 7 and to the carry.
#[verifier::opaque]
pub open spec fn spec_rrc(reg: Register) -> Register {
    let out = is_set(reg.a, 0);
    Register { a: (bit_value(out) << 7) | (reg.a >> 1), ..reg.with_flag(Flags::Carry, out) }
}

/// RAL: the accumulator rotates left through the carry.
#[verifier::opaque]
pub open spec fn spec_ral(reg: Register) -> Register {
    Register {
        a: (reg.a << 1) | bit_value(reg.flag(Flags::Carry)),
        ..reg.with_flag(Flags::Carry, is_set(reg.a, 7))
    }
}

/// RAR: the accumulator rotates right through the carry.
#[verifier::opaque]
pub open spec fn spec_rar(reg: Register) -> Register {
    Register {
        a: (bit_value(reg.flag(Flags::Carry)) << 7) | (reg.a >> 1),
        ..reg.with_flag(Flags::Carry, is_set(reg.a, 0))
    }
}

/// CMA: A := !A. No flag is affected.
#[verifier::opaque]
pub open spec fn spec_cma(reg: Register) -> Register {
    Register { a: !reg.a, ..reg }
}

/// CMC: the carry is inverted.
#[verifier::opaque]
pub open spec fn spec_cmc(reg: Register) -> Register {
    reg.with_flag(Flags::Carry, !reg.flag(Flags::Carry))
}

/// STC: the carry is set.
#[verifier::opaque]
pub open spec fn spec_stc(reg: Register) -> Register {
    reg.with_flag(Flags::Carry, true)
}

/// XCHG: HL and DE trade places.
pub open spec fn spec_xchg(reg: Register) -> Register {
    Register { h: reg.d, l: reg.e, d: reg.h, e: reg.l, ..reg }
}

/// The registers that an operation on the flags leaves: all but `f` as
/// they were, and in `f` the bits that are no flags as they were.
pub open spec fn only_flags_differ(before: Register, after: Register) -> bool {
    &&& after == (Register { f: after.f, ..before })
    &&& after.f & RESERVED_BITS == before.f & RESERVED_BITS
}

/// Writing the five flags in the order zero, sign, parity, auxiliary carry,
/// carry leaves each flag with the value written and nothing else changed.
pub proof fn lemma_five_flags(
    reg: Register,
    zero: bool,
    sign: bool,
    parity: bool,
    ac: bool,
    carry: bool,
)
    ensures
        ({
            let after = reg.with_flag(Flags::Zero, zero).with_flag(Flags::Sign, sign).with_flag(
                Flags::Parity,
                parity,
            ).with_flag(Flags::AC, ac).with_flag(Flags::Carry, carry);
            &&& after.flag(Flags::Zero) == zero
            &&& after.flag(Flags::Sign) == sign
            &&& after.flag(Flags::Parity) == parity
            &&& after.flag(Flags::AC) == ac
            &&& after.flag(Flags::Carry) == carry
            &&& only_flags_differ(reg, after)
        }),
{
    let four = reg.with_flag(Flags::Zero, zero).with_flag(Flags::Sign, sign).with_flag(
        Flags::Parity,
        parity,
    ).with_flag(Flags::AC, ac);
    lemma_four_flags(reg, zero, sign, parity, ac);
    four.lemma_with_flag(Flags::Carry, carry, Flags::Zero);
    four.lemma_with_flag(Flags::Carry, carry, Flags::Sign);
    four.lemma_with_flag(Flags::Carry, carry, Flags::Parity);
    four.lemma_with_flag(Flags::Carry, carry, Flags::AC);
}

/// The registers that an operation on the accumulator leaves: all but `a`
/// and `f` as they were, and in `f` the bits that are no flags as they were.
pub open spec fn only_accumulator_and_flags_differ(before: Register, after: Register) -> bool {
    only_flags_differ(Register { a: after.a, ..before }, after)
}

/// Whether zero, sign and parity describe `result`: zero is set for 0, sign
/// is bit 7, parity is set for an even number of 1 bits.
pub open spec fn flags_describe(reg: Register, result: u8) -> bool {
    &&& reg.flag(Flags::Zero) == (result == 0)
    &&& reg.flag(Flags::Sign) == (result >= 0x80)
    &&& reg.flag(Flags::Parity) == (popcount(result) % 2 == 0)
}

/// ADD and ADC. The accumulator takes the sum modulo 256, so its low nibble
/// is that of the sum; the carry tells whether the sum passed 255, the
/// auxiliary carry whether the low nibbles' sum passed 15; zero, sign and
/// parity describe the new accumulator.
pub proof fn lemma_add_with_carry(reg: Register, value: u8, carry: bool)
    ensures
        ({
            let sum = reg.a + value + carry_in(carry);
            let after = add_with_carry(reg, value, carry);
            &&& after.a == sum % 256
            &&& after.a & 0x0f == sum % 16
            &&& after.flag(Flags::Carry) == (sum > 255)
            &&& after.flag(Flags::AC) == (reg.a % 16 + value % 16 + carry_in(carry) > 15)
            &&& flags_describe(after, after.a)
            &&& only_accumulator_and_flags_differ(reg, after)
        }),
{
    reveal(add_with_carry);
    let sum = reg.a + value + carry_in(carry);
    let result = (sum % 256) as u8;
    lemma_five_flags(
        reg,
        result == 0,
        is_set(result, 7),
        even_parity(result),
        (reg.a & 0x0f) + (value & 0x0f) + carry_in(carry) > 0x0f,
        sum > 0xff,
    );
    lemma_end_bits(result);
    lemma_nibbles(result);
    lemma_nibbles(reg.a);
    lemma_nibbles(value);
}

/// ADD: the carry is set exactly when the sum passes 255, and the low
/// nibble of the accumulator is that of the sum.
pub proof fn lemma_add(reg: Register, value: u8)
    ensures
        spec_add(reg, value).flag(Flags::Carry) == (reg.a + value > 255),
        spec_add(reg, value).a & 0x0f == (reg.a + value) % 16,
        spec_add(reg, value).a == (reg.a + value) % 256,
{
    lemma_add_with_carry(reg, value, false);
}

/// SUB and SBB. The accumulator takes the difference modulo 256; the carry
/// tells whether the subtraction borrowed, the auxiliary carry whether the
/// low nibble did not; zero, sign and parity describe the new accumulator.
pub proof fn lemma_sub_with_borrow(reg: Register, value: u8, borrow: bool)
    ensures
        ({
            let after = sub_with_borrow(reg, value, borrow);
            &&& after.a == (reg.a - value - carry_in(borrow)) % 256
            &&& after.flag(Flags::Carry) == (reg.a < value + carry_in(borrow))
            &&& after.flag(Flags::AC) == (reg.a % 16 >= value % 16 + carry_in(borrow))
            &&& flags_describe(after, after.a)
            &&& only_accumulator_and_flags_differ(reg, after)
        }),
{
    reveal(sub_with_borrow);
    let result = ((reg.a - value - carry_in(borrow)) % 256) as u8;
    lemma_five_flags(
        reg,
        result == 0,
        is_set(result, 7),
        even_parity(result),
        (reg.a & 0x0f) - (value & 0x0f) - carry_in(borrow) >= 0,
        reg.a < value + carry_in(borrow),
    );
    lemma_end_bits(result);
    lemma_nibbles(reg.a);
    lemma_nibbles(value);
}

/// CMP: the accumulator keeps its value; zero is set exactly when it equals
/// the operand, the carry exactly when it is below the operand.
pub proof fn lemma_compare(reg: Register, value: u8)
    ensures
        spec_compare(reg, value).a == reg.a,
        spec_compare(reg, value).flag(Flags::Zero) == (reg.a == value),
        spec_compare(reg, value).flag(Flags::Carry) == (reg.a < value),
        only_flags_differ(reg, spec_compare(reg, value)),
{
    lemma_sub_with_borrow(reg, value, false);
}

/// INR and DCR: zero, sign and parity describe the new value, the auxiliary
/// carry tells of the low nibble, and the carry keeps its value.
pub proof fn lemma_inr_dcr(reg: Register, value: u8)
    ensures
        incremented(value) == (value + 1) % 256,
        decremented(value) == (value - 1) % 256,
        flags_describe(spec_inr(reg, value), incremented(value)),
        flags_describe(spec_dcr(reg, value), decremented(value)),
        spec_inr(reg, value).flag(Flags::AC) == (value % 16 == 15),
        spec_dcr(reg, value).flag(Flags::AC) == (value % 16 != 0),
        spec_inr(reg, value).flag(Flags::Carry) == reg.flag(Flags::Carry),
        spec_dcr(reg, value).flag(Flags::Carry) == reg.flag(Flags::Carry),
        only_flags_differ(reg, spec_inr(reg, value)),
        only_flags_differ(reg, spec_dcr(reg, value)),
{
    reveal(spec_inr);
    reveal(spec_dcr);
    let up = incremented(value);
    let down = decremented(value);
    lemma_four_flags(reg, up == 0, is_set(up, 7), even_parity(up), (value & 0x0f) == 0x0f);
    lemma_four_flags(reg, down == 0, is_set(down, 7), even_parity(down), (value & 0x0f) != 0);
    lemma_end_bits(up);
    lemma_end_bits(down);
    lemma_nibbles(value);
}

/// Writing zero, sign, parity and auxiliary carry leaves each of them with
/// the value written, and the carry and everything else as they were.
pub proof fn lemma_four_flags(reg: Register, zero: bool, sign: bool, parity: bool, ac: bool)
    ensures
        ({
            let after = reg.with_flag(Flags::Zero, zero).with_flag(Flags::Sign, sign).with_flag(
                Flags::Parity,
                parity,
            ).with_flag(Flags::AC, ac);
            &&& after.flag(Flags::Zero) == zero
            &&& after.flag(Flags::Sign) == sign
            &&& after.flag(Flags::Parity) == parity
            &&& after.flag(Flags::AC) == ac
            &&& after.flag(Flags::Carry) == reg.flag(Flags::Carry)
            &&& only_flags_differ(reg, after)
        }),
{
    let r1 = reg.with_flag(Flags::Zero, zero);
    let r2 = r1.with_flag(Flags::Sign, sign);
    let r3 = r2.with_flag(Flags::Parity, parity);
    reg.lemma_with_flag(Flags::Zero, zero, Flags::Carry);
    r1.lemma_with_flag(Flags::Sign, sign, Flags::Zero);
    r1.lemma_with_flag(Flags::Sign, sign, Flags::Carry);
    r2.lemma_with_flag(Flags::Parity, parity, Flags::Zero);
    r2.lemma_with_flag(Flags::Parity, parity, Flags::Sign);
    r2.lemma_with_flag(Flags::Parity, parity, Flags::Carry);
    r3.lemma_with_flag(Flags::AC, ac, Flags::Zero);
    r3.lemma_with_flag(Flags::AC, ac, Flags::Sign);
    r3.lemma_with_flag(Flags::AC, ac, Flags::Parity);
    r3.lemma_with_flag(Flags::AC, ac, Flags::Carry);
}

/// ANA, XRA and ORA: the accumulator takes the bitwise result, zero, sign
/// and parity describe it, and the carry is cleared. XRA and ORA clear the
/// auxiliary carry too; ANA sets it where bit 3 of either operand is set.
pub proof fn lemma_logic(reg: Register, value: u8)
    ensures
        spec_ana(reg, value).a == reg.a & value,
        spec_xra(reg, value).a == reg.a ^ value,
        spec_ora(reg, value).a == reg.a | value,
        flags_describe(spec_ana(reg, value), reg.a & value),
        flags_describe(spec_xra(reg, value), reg.a ^ value),
        flags_describe(spec_ora(reg, value), reg.a | value),
        !spec_ana(reg, value).flag(Flags::Carry),
        !spec_xra(reg, value).flag(Flags::Carry),
        !spec_ora(reg, value).flag(Flags::Carry),
        spec_ana(reg, value).flag(Flags::AC) == (is_set(reg.a, 3) || is_set(value, 3)),
        !spec_xra(reg, value).flag(Flags::AC),
        !spec_ora(reg, value).flag(Flags::AC),
        only_accumulator_and_flags_differ(reg, spec_ana(reg, value)),
        only_accumulator_and_flags_differ(reg, spec_xra(reg, value)),
        only_accumulator_and_flags_differ(reg, spec_ora(reg, value)),
{
    reveal(spec_ana);
    reveal(spec_xra);
    reveal(spec_ora);
    let and = reg.a & value;
    let xor = reg.a ^ value;
    let or = reg.a | value;
    let ac = ((reg.a | value) >> 3) & 1 == 1;
    lemma_five_flags(reg, and == 0, is_set(and, 7), even_parity(and), ac, false);
    lemma_five_flags(reg, xor == 0, is_set(xor, 7), even_parity(xor), false, false);
    lemma_five_flags(reg, or == 0, is_set(or, 7), even_parity(or), false, false);
    lemma_end_bits(and);
    lemma_end_bits(xor);
    lemma_end_bits(or);
    lemma_either_bit_3(reg.a, value);
}

/// Bit 3 of the OR of two bytes is set where bit 3 of either is.
proof fn lemma_either_bit_3(a: u8, b: u8)
    by (bit_vector)
    ensures
        (((a | b) >> 3) & 1 == 1) == (is_set(a, 3) || is_set(b, 3)),
{
}

/// The rotates, CMC, STC and DAD affect no flag but the carry, and no bit
/// of `f` but bit 0.
pub proof fn lemma_only_carry_affected(reg: Register, value: u16, flag: Flags)
    requires
        flag != Flags::Carry,
    ensures
        spec_rlc(reg).f | 1 == reg.f | 1,
        spec_rrc(reg).f | 1 == reg.f | 1,
        spec_ral(reg).f | 1 == reg.f | 1,
        spec_rar(reg).f | 1 == reg.f | 1,
        spec_cmc(reg).f | 1 == reg.f | 1,
        spec_stc(reg).f | 1 == reg.f | 1,
        spec_dad(reg, value).f | 1 == reg.f | 1,
        spec_rlc(reg).flag(flag) == reg.flag(flag),
        spec_rrc(reg).flag(flag) == reg.flag(flag),
        spec_ral(reg).flag(flag) == reg.flag(flag),
        spec_rar(reg).flag(flag) == reg.flag(flag),
        spec_cmc(reg).flag(flag) == reg.flag(flag),
        spec_stc(reg).flag(flag) == reg.flag(flag),
        spec_dad(reg, value).flag(flag) == reg.flag(flag),
        only_accumulator_and_flags_differ(reg, spec_rlc(reg)),
        only_accumulator_and_flags_differ(reg, spec_rrc(reg)),
        only_accumulator_and_flags_differ(reg, spec_ral(reg)),
        only_accumulator_and_flags_differ(reg, spec_rar(reg)),
        only_flags_differ(reg, spec_cmc(reg)),
        only_flags_differ(reg, spec_stc(reg)),
        only_flags_differ(reg.with_hl(spec_dad(reg, value).hl()), spec_dad(reg, value)),
{
    reveal(spec_rlc);
    reveal(spec_rrc);
    reveal(spec_ral);
    reveal(spec_rar);
    reveal(spec_cmc);
    reveal(spec_stc);
    reveal(spec_dad);
    reg.lemma_with_flag(Flags::Carry, true, flag);
    reg.lemma_with_flag(Flags::Carry, false, flag);
    let sum = reg.hl() + value;
    let added = reg.with_hl((sum % 0x10000) as u16);
    added.lemma_with_flag(Flags::Carry, sum > 0xffff, flag);
    added.lemma_pairs((sum % 0x10000) as u16);
    lemma_bit_0(reg.f);
}

/// Setting or clearing bit 0 changes no other bit.
proof fn lemma_bit_0(byte: u8)
    by (bit_vector)
    ensures
        crate::bit::with_bit(byte, 0) | 1 == byte | 1,
        crate::bit::without_bit(byte, 0) | 1 == byte | 1,
{
}

/// DAD: HL takes the sum modulo 65,536, and the carry tells whether the sum
/// passed 65,535.
pub proof fn lemma_dad(reg: Register, value: u16)
    ensures
        spec_dad(reg, value).hl() == (reg.hl() + value) % 0x10000,
        spec_dad(reg, value).flag(Flags::Carry) == (reg.hl() + value > 0xffff),
{
    reveal(spec_dad);
    let sum = reg.hl() + value;
    let added = reg.with_hl((sum % 0x10000) as u16);
    added.lemma_with_flag(Flags::Carry, sum > 0xffff, Flags::Carry);
    reg.lemma_pairs((sum % 0x10000) as u16);
}

/// The rotates. The carry takes the bit that leaves the accumulator; RLC
/// and RRC bring that bit in at the other end, RAL and RAR the old carry.
pub proof fn lemma_rotates(reg: Register)
    ensures
        spec_rlc(reg).flag(Flags::Carry) == (reg.a >= 0x80),
        spec_ral(reg).flag(Flags::Carry) == (reg.a >= 0x80),
        spec_rrc(reg).flag(Flags::Carry) == (reg.a % 2 == 1),
        spec_rar(reg).flag(Flags::Carry) == (reg.a % 2 == 1),
        spec_rlc(reg).a == 2 * (reg.a % 128) + reg.a / 128,
        spec_ral(reg).a == 2 * (reg.a % 128) + carry_in(reg.flag(Flags::Carry)),
        spec_rrc(reg).a == reg.a / 2 + 128 * (reg.a % 2),
        spec_rar(reg).a == reg.a / 2 + 128 * carry_in(reg.flag(Flags::Carry)),
{
    reveal(spec_rlc);
    reveal(spec_rrc);
    reveal(spec_ral);
    reveal(spec_rar);
    reg.lemma_with_flag(Flags::Carry, true, Flags::Carry);
    reg.lemma_with_flag(Flags::Carry, false, Flags::Carry);
    lemma_end_bits(reg.a);
    lemma_rotate(reg.a, bit_value(reg.flag(Flags::Carry)));
    lemma_rotate(reg.a, bit_value(is_set(reg.a, 7)));
    lemma_rotate(reg.a, bit_value(is_set(reg.a, 0)));
}

/// Shifting a byte one place and bringing a bit in at the free end, as
/// arithmetic.
proof fn lemma_rotate(byte: u8, bit: u8)
    by (bit_vector)
    requires
        bit <= 1,
    ensures
        (byte << 1) | bit == 2 * (byte % 128) + bit,
        (bit << 7) | (byte >> 1) == byte / 2 + 128 * bit,
{
}

/// CMA applied twice gives the accumulator back, and CMA changes nothing
/// but the accumulator: every flag keeps its value.
pub proof fn lemma_cma_twice(reg: Register)
    ensures
        spec_cma(spec_cma(reg)) == reg,
        spec_cma(reg) == (Register { a: spec_cma(reg).a, ..reg }),
        spec_cma(reg).a == 255 - reg.a,
{
    reveal(spec_cma);
    lemma_complement(reg.a);
}

/// The complement of a byte, and the complement of that.
proof fn lemma_complement(byte: u8)
    by (bit_vector)
    ensures
        !!byte == byte,
        !byte == 255 - byte,
{
}

/// XCHG applied twice changes nothing, and XCHG trades HL for DE.
pub proof fn lemma_xchg_twice(reg: Register)
    ensures
        spec_xchg(spec_xchg(reg)) == reg,
        spec_xchg(reg).hl() == reg.de(),
        spec_xchg(reg).de() == reg.hl(),
{
}

/// CMC inverts the carry, so twice it changes nothing; STC sets it.
pub proof fn lemma_carry_ops(reg: Register)
    ensures
        spec_cmc(reg).flag(Flags::Carry) == !reg.flag(Flags::Carry),
        spec_stc(reg).flag(Flags::Carry),
        spec_cmc(spec_cmc(reg)) == reg,
{
    reveal(spec_cmc);
    reveal(spec_stc);
    reg.lemma_with_flag(Flags::Carry, true, Flags::Carry);
    reg.lemma_with_flag(Flags::Carry, false, Flags::Carry);
    lemma_bit_twice(reg.f, 0);
}

/// DAA: the addend is 0x00, 0x06, 0x60 or 0x66; zero, sign and parity
/// describe the adjusted accumulator, and the carry is set exactly where
/// the high digit was corrected.
pub proof fn lemma_daa(reg: Register)
    ensures
        daa_addend(reg) == carry_in(daa_adjusts_low(reg)) * 0x06 + carry_in(daa_adjusts_high(reg))
            * 0x60,
        spec_daa(reg).a == (reg.a + daa_addend(reg)) % 256,
        flags_describe(spec_daa(reg), spec_daa(reg).a),
        spec_daa(reg).flag(Flags::Carry) == daa_adjusts_high(reg),
        spec_daa(reg).flag(Flags::AC) == (reg.a % 16 + daa_addend(reg) % 16 > 15),
        only_accumulator_and_flags_differ(reg, spec_daa(reg)),
{
    reveal(spec_daa);
    let added = spec_add(reg, daa_addend(reg));
    let carry = daa_adjusts_high(reg) || reg.flag(Flags::Carry);
    lemma_add_with_carry(reg, daa_addend(reg), false);
    added.lemma_with_flag(Flags::Carry, carry, Flags::Carry);
    added.lemma_with_flag(Flags::Carry, carry, Flags::Zero);
    added.lemma_with_flag(Flags::Carry, carry, Flags::Sign);
    added.lemma_with_flag(Flags::Carry, carry, Flags::Parity);
    added.lemma_with_flag(Flags::Carry, carry, Flags::AC);
}

} // verus!
