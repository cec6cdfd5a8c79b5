//! The arithmetic and logic unit: each operation as a function from operands
//! and flags to a result and flags.
//!
//! Each operation is defined with integer arithmetic; the executable
//! functions use the masks, shifts and wrapping operations of the machine and
//! are proved to compute the same.

use crate::bits::{signed, wrap16, wrap8};
use crate::instruction::AluOp;
use crate::registers::Flags;
use vstd::prelude::*;

verus! {

/// `x + 1` in one byte. Zero and half-carry come from the result, subtract
/// is cleared, carry is kept.
pub open spec fn inc8(x: u8, f: Flags) -> (u8, Flags) {
    let r = wrap8(x + 1);
    (r, Flags { zero: r == 0, subtract: false, half_carry: x % 16 == 15, carry: f.carry })
}

/// `x - 1` in one byte. Zero and half-carry come from the result, subtract
/// is set, carry is kept.
pub open spec fn dec8(x: u8, f: Flags) -> (u8, Flags) {
    let r = wrap8(x - 1);
    (r, Flags { zero: r == 0, subtract: true, half_carry: x % 16 == 0, carry: f.carry })
}

/// `a + b`, plus one if `carry_in`, in one byte. Half-carry is the carry out
/// of the low nibble, carry the carry out of the byte.
pub open spec fn add8(a: u8, b: u8, carry_in: bool) -> (u8, Flags) {
    let c: int = if carry_in { 1 } else { 0 };
    let r = wrap8(a + b + c);
    (
        r,
        Flags {
            zero: r == 0,
            subtract: false,
            half_carry: a % 16 + b % 16 + c > 15,
            carry: a + b + c > 255,
        },
    )
}

/// `a - b` in one byte. Half-carry is the borrow into the low nibble, carry
/// the borrow into the byte.
pub open spec fn sub8(a: u8, b: u8) -> (u8, Flags) {
    let r = wrap8(a - b);
    (r, Flags { zero: r == 0, subtract: true, half_carry: a % 16 < b % 16, carry: a < b })
}

/// Bitwise AND: carry and subtract cleared, half-carry set.
pub open spec fn and8(a: u8, b: u8) -> (u8, Flags) {
    (a & b, Flags { zero: a & b == 0, subtract: false, half_carry: true, carry: false })
}

/// Bitwise OR: carry, subtract and half-carry cleared.
pub open spec fn or8(a: u8, b: u8) -> (u8, Flags) {
    (a | b, Flags { zero: a | b == 0, subtract: false, half_carry: false, carry: false })
}

/// Bitwise XOR: carry, subtract and half-carry cleared.
pub open spec fn xor8(a: u8, b: u8) -> (u8, Flags) {
    (a ^ b, Flags { zero: a ^ b == 0, subtract: false, half_carry: false, carry: false })
}

/// The one's complement of `a`. Subtract and half-carry are set, zero and
/// carry kept.
pub open spec fn cpl8(a: u8, f: Flags) -> (u8, Flags) {
    ((255 - a) as u8, Flags { subtract: true, half_carry: true, ..f })
}

/// `a` rotated left by one bit through the carry: the carry moves into bit
/// 0 and bit 7 into the carry. The other flags are cleared.
pub open spec fn rla8(a: u8, f: Flags) -> (u8, Flags) {
    (
        ((a % 128) * 2 + if f.carry { 1int } else { 0int }) as u8,
        Flags { zero: false, subtract: false, half_carry: false, carry: a >= 128 },
    )
}

/// `a` rotated right by one bit through the carry: the carry moves into bit
/// 7 and bit 0 into the carry. The other flags are cleared.
pub open spec fn rra8(a: u8, f: Flags) -> (u8, Flags) {
    (
        (a / 2 + if f.carry { 128int } else { 0int }) as u8,
        Flags { zero: false, subtract: false, half_carry: false, carry: a % 2 == 1 },
    )
}

/// The correction that turns the result of adding or subtracting two packed
/// decimal bytes into a packed decimal byte.
///
/// After an addition, `0x60` is added if the carry is set or `a` exceeds
/// `0x99`, and `0x06` if the half-carry is set or the low nibble exceeds 9;
/// the carry is set when `0x60` was added. After a subtraction, `0x60` is
/// taken off if the carry is set and `0x06` if the half-carry is set; the
/// carry is kept. Zero comes from the result, half-carry is cleared.
pub open spec fn daa8(a: u8, f: Flags) -> (u8, Flags) {
    if f.subtract {
        let high: int = if f.carry { 0x60 } else { 0 };
        let low: int = if f.half_carry { 0x06 } else { 0 };
        let r = wrap8(a - high - low);
        (r, Flags { zero: r == 0, subtract: true, half_carry: false, carry: f.carry })
    } else {
        let wide = f.carry || a > 0x99;
        let high: int = if wide { 0x60 } else { 0 };
        let low: int = if f.half_carry || a % 16 > 9 { 0x06 } else { 0 };
        let r = wrap8(a + high + low);
        (r, Flags { zero: r == 0, subtract: false, half_carry: false, carry: wide })
    }
}

/// The carry flag set; subtract and half-carry cleared, zero kept.
pub open spec fn scf(f: Flags) -> Flags {
    Flags { subtract: false, half_carry: false, carry: true, ..f }
}

/// The carry flag inverted; subtract and half-carry cleared, zero kept.
pub open spec fn ccf(f: Flags) -> Flags {
    Flags { subtract: false, half_carry: false, carry: !f.carry, ..f }
}

/// `a + b` in sixteen bits. Half-carry is the carry out of bit 11, carry the
/// carry out of bit 15; subtract is cleared and zero kept.
pub open spec fn add16(a: u16, b: u16, f: Flags) -> (u16, Flags) {
    (
        wrap16(a + b),
        Flags {
            zero: f.zero,
            subtract: false,
            half_carry: a % 0x1000 + b % 0x1000 > 0x0FFF,
            carry: a + b > 0xFFFF,
        },
    )
}

/// `a` moved by the signed displacement `d`, in sixteen bits.
pub open spec fn offset16(a: u16, d: u8) -> u16 {
    wrap16(a + signed(d))
}

/// A stack-pointer value moved by the signed displacement `d`. Half-carry and
/// carry are those of adding `d`, unsigned, to the low byte; zero and
/// subtract are cleared.
pub open spec fn add_signed16(a: u16, d: u8) -> (u16, Flags) {
    (
        offset16(a, d),
        Flags {
            zero: false,
            subtract: false,
            half_carry: a % 16 + d % 16 > 15,
            carry: a % 256 + d > 255,
        },
    )
}

/// What an operation between the accumulator `a` and the operand `b` leaves
/// in the accumulator and in the flags. A comparison is a subtraction that
/// leaves the accumulator as it was.
pub open spec fn alu(op: AluOp, a: u8, b: u8, f: Flags) -> (u8, Flags) {
    match op {
        AluOp::Add => add8(a, b, false),
        AluOp::Adc => add8(a, b, f.carry),
        AluOp::Sub => sub8(a, b),
        AluOp::And => and8(a, b),
        AluOp::Xor => xor8(a, b),
        AluOp::Or => or8(a, b),
        AluOp::Cp => (a, sub8(a, b).1),
    }
}

/// A word with its lowest four bits cleared.
pub open spec fn clear_low_nibble(w: u16) -> u16 {
    (w - w % 16) as u16
}

/// A byte holds a packed decimal number: both of its nibbles are digits.
pub open spec fn is_decimal(x: u8) -> bool {
    x / 16 <= 9 && x % 16 <= 9
}

/// The number in `0..=99` that a packed decimal byte stands for.
pub open spec fn decimal_value(x: u8) -> int {
    10 * (x / 16) + x % 16
}

/// Decimal adjustment after an addition: the sum of two packed decimal
/// bytes, adjusted, is the packed decimal sum modulo 100, and the carry says
/// whether the sum reached 100.
#[verifier::rlimit(20)]
pub proof fn lemma_decimal_adjust_after_add(x: u8, y: u8, carry_in: bool)
    requires
        is_decimal(x),
        is_decimal(y),
    ensures
        ({
            let sum = add8(x, y, carry_in);
            let adjusted = daa8(sum.0, sum.1);
            let total = decimal_value(x) + decimal_value(y) + if carry_in { 1int } else { 0int };
            &&& is_decimal(adjusted.0)
            &&& decimal_value(adjusted.0) == total % 100
            &&& adjusted.1.carry <==> total >= 100
        }),
{
    let c: int = if carry_in { 1 } else { 0 };
    let ones: int = x % 16 + y % 16 + c;
    let high: int = x / 16 + y / 16;
    let raw: int = x + y + c;
    let sum = add8(x, y, carry_in);
    let r: int = sum.0 as int;
    assert(raw == 16 * high + ones);
    assert(r == if raw > 255 { raw - 256 } else { raw });
    let low_nibble: int = if ones >= 16 { ones - 16 } else { ones };
    assert(r % 16 == low_nibble) by {
        let carried: int = if ones >= 16 { 1 } else { 0 };
        let wrapped: int = if raw > 255 { 16 } else { 0 };
        lemma_nibbles(r, high + carried - wrapped, low_nibble);
    }
    let wide = sum.1.carry || sum.0 > 0x99;
    let low = sum.1.half_carry || sum.0 % 16 > 9;
    let moved: int = r + (if wide { 0x60int } else { 0int }) + (if low { 0x06int } else { 0int });
    lemma_adjust_sum(high, ones, r, moved);
    let digit: int = if ones >= 10 { ones - 10 } else { ones };
    let tens: int = high + if ones >= 10 { 1int } else { 0int };
    let upper: int = if tens >= 10 { tens - 10 } else { tens };
    let adjusted = daa8(sum.0, sum.1);
    assert(adjusted.0 == wrap8(moved));
    assert(adjusted.0 as int == 16 * upper + digit);
    lemma_nibbles(adjusted.0 as int, upper, digit);
}

/// The arithmetic behind decimal adjustment after an addition, on the sum of
/// the high digits and the sum of the low digits.
proof fn lemma_adjust_sum(high: int, ones: int, r: int, moved: int)
    requires
        0 <= high <= 18,
        0 <= ones <= 19,
        r == if 16 * high + ones > 255 { 16 * high + ones - 256 } else { 16 * high + ones },
        moved == r + (if 16 * high + ones > 255 || r > 0x99 { 0x60int } else { 0int }) + (if ones
            > 9 { 0x06int } else { 0int }),
    ensures
        ({
            let digit: int = if ones >= 10 { ones - 10 } else { ones };
            let tens: int = high + if ones >= 10 { 1int } else { 0int };
            let upper: int = if tens >= 10 { tens - 10 } else { tens };
            &&& (16 * high + ones > 255 || r > 0x99) <==> tens >= 10
            &&& moved == 16 * upper + digit || moved == 256 + 16 * upper + digit
            &&& 10 * upper + digit == (10 * high + ones) % 100
            &&& tens >= 10 <==> 10 * high + ones >= 100
        }),
{
}

/// The nibbles of `16 * upper + lower`.
proof fn lemma_nibbles(v: int, upper: int, lower: int)
    requires
        v == 16 * upper + lower,
        0 <= lower < 16,
    ensures
        v / 16 == upper,
        v % 16 == lower,
{
}

/// Decimal adjustment after a subtraction: the difference of two packed
/// decimal bytes, adjusted, is the packed decimal difference modulo 100, and
/// the carry says whether there was a borrow.
#[verifier::rlimit(20)]
pub proof fn lemma_decimal_adjust_after_sub(x: u8, y: u8)
    requires
        is_decimal(x),
        is_decimal(y),
    ensures
        ({
            let diff = sub8(x, y);
            let adjusted = daa8(diff.0, diff.1);
            &&& is_decimal(adjusted.0)
            &&& decimal_value(adjusted.0) == (decimal_value(x) - decimal_value(y)) % 100
            &&& adjusted.1.carry <==> decimal_value(x) < decimal_value(y)
        }),
{
    let ones: int = x % 16 - y % 16;
    let high: int = x / 16 - y / 16;
    let raw: int = x - y;
    let diff = sub8(x, y);
    let r: int = diff.0 as int;
    assert(raw == 16 * high + ones);
    assert(r == if raw < 0 { raw + 256 } else { raw });
    let moved: int = r - (if diff.1.carry { 0x60int } else { 0int }) - (if diff.1.half_carry {
        0x06int
    } else {
        0int
    });
    lemma_adjust_difference(high, ones, r, moved);
    let digit: int = if ones < 0 { ones + 10 } else { ones };
    let tens: int = high - if ones < 0 { 1int } else { 0int };
    let upper: int = if tens < 0 { tens + 10 } else { tens };
    let adjusted = daa8(diff.0, diff.1);
    assert(adjusted.0 == wrap8(moved));
    assert(adjusted.0 as int == 16 * upper + digit);
    lemma_nibbles(adjusted.0 as int, upper, digit);
    assert(decimal_value(x) - decimal_value(y) == 10 * high + ones);
}

/// The arithmetic behind decimal adjustment after a subtraction, on the
/// difference of the high digits and the difference of the low digits.
proof fn lemma_adjust_difference(high: int, ones: int, r: int, moved: int)
    requires
        -9 <= high <= 9,
        -9 <= ones <= 9,
        r == if 16 * high + ones < 0 { 16 * high + ones + 256 } else { 16 * high + ones },
        moved == r - (if 16 * high + ones < 0 { 0x60int } else { 0int }) - (if ones < 0 {
            0x06int
        } else {
            0int
        }),
    ensures
        ({
            let digit: int = if ones < 0 { ones + 10 } else { ones };
            let tens: int = high - if ones < 0 { 1int } else { 0int };
            let upper: int = if tens < 0 { tens + 10 } else { tens };
            &&& 16 * high + ones < 0 <==> tens < 0
            &&& moved == 16 * upper + digit
            &&& 0 <= upper <= 9
            &&& 0 <= digit <= 9
            &&& 10 * upper + digit == (10 * high + ones) % 100
            &&& tens < 0 <==> 10 * high + ones < 0
        }),
{
}

/// Masks, shifts and complement of a byte, as arithmetic.
pub proof fn lemma_byte_masks(x: u8)
    by (bit_vector)
    ensures
        x & 0x0F == x % 16,
        !x == (255 - x) as u8,
        (x >> 1) | 0x80 == (x / 2 + 128) as u8,
        (x >> 1) == x / 2,
        x & 1 == x % 2,
{
}

/// The left shift of a byte by one bit, as arithmetic.
pub proof fn lemma_left_shift(x: u8)
    by (bit_vector)
    ensures
        (x << 1) == ((x % 128) * 2) as u8,
        (x << 1) | 0x01 == ((x % 128) * 2 + 1) as u8,
        (x % 128) * 2 + 1 < 256,
        (x & 0x80 != 0) == (x >= 128),
{
}

/// Masks of a word, as arithmetic.
pub proof fn lemma_word_masks(w: u16)
    by (bit_vector)
    ensures
        w & 0x0FFF == w % 0x1000,
        w & 0x0F == w % 16,
        w & 0xFF == w % 256,
        w & 0xFFF0 == (w - w % 16) as u16,
{
}

/// Increments a byte.
pub fn inc(x: u8, f: Flags) -> (out: (u8, Flags))
    ensures
        out == inc8(x, f),
{
    proof {
        lemma_byte_masks(x);
    }
    let r: u8 = x.wrapping_add(1);
    (r, Flags { zero: r == 0, subtract: false, half_carry: x & 0x0F == 0x0F, carry: f.carry })
}

/// Decrements a byte.
pub fn dec(x: u8, f: Flags) -> (out: (u8, Flags))
    ensures
        out == dec8(x, f),
{
    proof {
        lemma_byte_masks(x);
    }
    let r: u8 = x.wrapping_sub(1);
    (r, Flags { zero: r == 0, subtract: true, half_carry: x & 0x0F == 0, carry: f.carry })
}

/// Adds two bytes and, if `carry_in`, one more.
pub fn add_bytes(a: u8, b: u8, carry_in: bool) -> (out: (u8, Flags))
    ensures
        out == add8(a, b, carry_in),
{
    proof {
        lemma_byte_masks(a);
        lemma_byte_masks(b);
    }
    let c: u8 = if carry_in { 1 } else { 0 };
    let r: u8 = a.wrapping_add(b).wrapping_add(c);
    let half: bool = (a & 0x0F) + (b & 0x0F) + c > 0x0F;
    let carry: bool = a as u16 + b as u16 + c as u16 > 0xFF;
    (r, Flags { zero: r == 0, subtract: false, half_carry: half, carry })
}

/// Subtracts `b` from `a`.
pub fn sub_bytes(a: u8, b: u8) -> (out: (u8, Flags))
    ensures
        out == sub8(a, b),
{
    proof {
        lemma_byte_masks(a);
        lemma_byte_masks(b);
    }
    let r: u8 = a.wrapping_sub(b);
    (r, Flags { zero: r == 0, subtract: true, half_carry: (a & 0x0F) < (b & 0x0F), carry: a < b })
}

/// Bitwise AND of two bytes.
pub fn and_bytes(a: u8, b: u8) -> (out: (u8, Flags))
    ensures
        out == and8(a, b),
{
    let r: u8 = a & b;
    (r, Flags { zero: r == 0, subtract: false, half_carry: true, carry: false })
}

/// Bitwise OR of two bytes.
pub fn or_bytes(a: u8, b: u8) -> (out: (u8, Flags))
    ensures
        out == or8(a, b),
{
    let r: u8 = a | b;
    (r, Flags { zero: r == 0, subtract: false, half_carry: false, carry: false })
}

/// Bitwise XOR of two bytes.
pub fn xor_bytes(a: u8, b: u8) -> (out: (u8, Flags))
    ensures
        out == xor8(a, b),
{
    let r: u8 = a ^ b;
    (r, Flags { zero: r == 0, subtract: false, half_carry: false, carry: false })
}

/// Complements a byte.
pub fn complement(a: u8, f: Flags) -> (out: (u8, Flags))
    ensures
        out == cpl8(a, f),
{
    proof {
        lemma_byte_masks(a);
    }
    (!a, Flags { zero: f.zero, subtract: true, half_carry: true, carry: f.carry })
}

/// Rotates a byte left through the carry.
pub fn rotate_left_through_carry(a: u8, f: Flags) -> (out: (u8, Flags))
    ensures
        out == rla8(a, f),
{
    proof {
        lemma_left_shift(a);
    }
    let r: u8 = if f.carry { (a << 1) | 0x01 } else { a << 1 };
    (r, Flags { zero: false, subtract: false, half_carry: false, carry: a & 0x80 != 0 })
}

/// Rotates a byte right through the carry.
pub fn rotate_right_through_carry(a: u8, f: Flags) -> (out: (u8, Flags))
    ensures
        out == rra8(a, f),
{
    proof {
        lemma_byte_masks(a);
    }
    let r: u8 = if f.carry { (a >> 1) | 0x80 } else { a >> 1 };
    (r, Flags { zero: false, subtract: false, half_carry: false, carry: a & 1 == 1 })
}

/// Adjusts the accumulator to packed decimal.
pub fn decimal_adjust(a: u8, f: Flags) -> (out: (u8, Flags))
    ensures
        out == daa8(a, f),
{
    proof {
        lemma_byte_masks(a);
    }
    let mut r: u8 = a;
    let mut carry: bool = f.carry;
    if f.subtract {
        if f.carry {
            r = r.wrapping_sub(0x60);
        }
        if f.half_carry {
            r = r.wrapping_sub(0x06);
        }
    } else {
        if f.carry || a > 0x99 {
            r = r.wrapping_add(0x60);
            carry = true;
        }
        if f.half_carry || a & 0x0F > 0x09 {
            r = r.wrapping_add(0x06);
        }
    }
    (r, Flags { zero: r == 0, subtract: f.subtract, half_carry: false, carry })
}

/// Applies an accumulator operation.
pub fn apply(op: AluOp, a: u8, b: u8, f: Flags) -> (out: (u8, Flags))
    ensures
        out == alu(op, a, b, f),
{
    match op {
        AluOp::Add => add_bytes(a, b, false),
        AluOp::Adc => add_bytes(a, b, f.carry),
        AluOp::Sub => sub_bytes(a, b),
        AluOp::And => and_bytes(a, b),
        AluOp::Xor => xor_bytes(a, b),
        AluOp::Or => or_bytes(a, b),
        AluOp::Cp => (a, sub_bytes(a, b).1),
    }
}

/// Clears the lowest four bits of a word.
pub fn mask_low_nibble(w: u16) -> (r: u16)
    ensures
        r == clear_low_nibble(w),
{
    proof {
        lemma_word_masks(w);
    }
    w & 0xFFF0
}

/// Adds two words.
pub fn add_words(a: u16, b: u16, f: Flags) -> (out: (u16, Flags))
    ensures
        out == add16(a, b, f),
{
    proof {
        lemma_word_masks(a);
        lemma_word_masks(b);
    }
    let r: u16 = a.wrapping_add(b);
    let half: bool = (a & 0x0FFF) + (b & 0x0FFF) > 0x0FFF;
    let carry: bool = a as u32 + b as u32 > 0xFFFF;
    (r, Flags { zero: f.zero, subtract: false, half_carry: half, carry })
}

/// Moves a word by a signed displacement.
pub fn offset(a: u16, d: u8) -> (r: u16)
    ensures
        r == offset16(a, d),
{
    if d < 0x80 {
        a.wrapping_add(d as u16)
    } else {
        a.wrapping_sub(0x100 - d as u16)
    }
}

/// Moves a word by a signed displacement and reports the carries of the low
/// byte.
pub fn add_signed(a: u16, d: u8) -> (out: (u16, Flags))
    ensures
        out == add_signed16(a, d),
{
    proof {
        lemma_byte_masks(d);
        lemma_word_masks(a);
    }
    let half: bool = (a & 0x0F) + (d & 0x0F) as u16 > 0x0F;
    let carry: bool = (a & 0xFF) + d as u16 > 0xFF;
    (offset(a, d), Flags { zero: false, subtract: false, half_carry: half, carry })
}

} // verus!
