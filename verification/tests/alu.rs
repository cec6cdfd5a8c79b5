use gb_core::alu::{
    add_bytes, add_signed, add_words, and_bytes, apply, complement, dec, decimal_adjust, inc,
    mask_low_nibble, offset, or_bytes, rotate_left_through_carry, rotate_right_through_carry,
    sub_bytes, xor_bytes,
};
use gb_core::instruction::AluOp;
use gb_core::registers::Flags;

fn flags(zero: bool, subtract: bool, half_carry: bool, carry: bool) -> Flags {
    Flags { zero, subtract, half_carry, carry }
}

const CLEAR: Flags = Flags { zero: false, subtract: false, half_carry: false, carry: false };

#[test]
fn and_of_ff_and_0f() {
    assert_eq!(and_bytes(0xFF, 0x0F), (0x0F, flags(false, false, true, false)));
}

#[test]
fn and_sets_zero_from_the_result() {
    assert_eq!(and_bytes(0xF0, 0x0F), (0x00, flags(true, false, true, false)));
}

#[test]
fn or_and_xor_clear_half_carry() {
    assert_eq!(or_bytes(0x5A, 0x0F), (0x5F, flags(false, false, false, false)));
    assert_eq!(or_bytes(0x00, 0x00), (0x00, flags(true, false, false, false)));
    assert_eq!(xor_bytes(0xFF, 0xFF), (0x00, flags(true, false, false, false)));
    assert_eq!(xor_bytes(0xFF, 0x0F), (0xF0, flags(false, false, false, false)));
}

#[test]
fn increment_of_ff_wraps_to_zero() {
    assert_eq!(inc(0xFF, CLEAR), (0x00, flags(true, false, true, false)));
    assert_eq!(inc(0xFF, flags(false, true, false, true)), (0x00, flags(true, false, true, true)));
}

#[test]
fn increment_carries_out_of_the_low_nibble() {
    assert_eq!(inc(0x0F, CLEAR), (0x10, flags(false, false, true, false)));
    assert_eq!(inc(0x10, CLEAR), (0x11, flags(false, false, false, false)));
    assert_eq!(inc(0x00, flags(true, true, true, true)), (0x01, flags(false, false, false, true)));
}

#[test]
fn decrement_borrows_into_the_low_nibble() {
    assert_eq!(dec(0x00, CLEAR), (0xFF, flags(false, true, true, false)));
    assert_eq!(dec(0x01, CLEAR), (0x00, flags(true, true, false, false)));
    assert_eq!(dec(0x10, flags(false, false, false, true)), (0x0F, flags(false, true, true, true)));
    assert_eq!(dec(0x0F, CLEAR), (0x0E, flags(false, true, false, false)));
}

#[test]
fn addition_sets_both_carries() {
    assert_eq!(add_bytes(0x3A, 0xC6, false), (0x00, flags(true, false, true, true)));
    assert_eq!(add_bytes(0x0F, 0x01, false), (0x10, flags(false, false, true, false)));
    assert_eq!(add_bytes(0xF0, 0x20, false), (0x10, flags(false, false, false, true)));
    assert_eq!(add_bytes(0x12, 0x34, false), (0x46, flags(false, false, false, false)));
}

#[test]
fn addition_with_carry_adds_one_more() {
    assert_eq!(add_bytes(0xE1, 0x0F, true), (0xF1, flags(false, false, true, false)));
    assert_eq!(add_bytes(0xE1, 0x3B, true), (0x1D, flags(false, false, false, true)));
    assert_eq!(add_bytes(0xFF, 0x00, true), (0x00, flags(true, false, true, true)));
    assert_eq!(add_bytes(0xFF, 0xFF, true), (0xFF, flags(false, false, true, true)));
}

#[test]
fn subtraction_sets_both_borrows() {
    assert_eq!(sub_bytes(0x3E, 0x3E), (0x00, flags(true, true, false, false)));
    assert_eq!(sub_bytes(0x3E, 0x0F), (0x2F, flags(false, true, true, false)));
    assert_eq!(sub_bytes(0x3E, 0x40), (0xFE, flags(false, true, false, true)));
    assert_eq!(sub_bytes(0x00, 0x01), (0xFF, flags(false, true, true, true)));
}

#[test]
fn comparison_keeps_the_accumulator() {
    assert_eq!(apply(AluOp::Cp, 0x3C, 0x2F, CLEAR), (0x3C, flags(false, true, true, false)));
    assert_eq!(apply(AluOp::Cp, 0x3C, 0x3C, CLEAR), (0x3C, flags(true, true, false, false)));
    assert_eq!(apply(AluOp::Cp, 0x3C, 0x40, CLEAR), (0x3C, flags(false, true, false, true)));
}

#[test]
fn each_operation_is_applied_by_name() {
    let carry = flags(false, false, false, true);
    assert_eq!(apply(AluOp::Add, 0x01, 0x02, carry), (0x03, CLEAR));
    assert_eq!(apply(AluOp::Adc, 0x01, 0x02, carry), (0x04, CLEAR));
    assert_eq!(apply(AluOp::Adc, 0x01, 0x02, CLEAR), (0x03, CLEAR));
    assert_eq!(apply(AluOp::Sub, 0x05, 0x02, carry), (0x03, flags(false, true, false, false)));
    assert_eq!(apply(AluOp::And, 0x0C, 0x0A, carry), (0x08, flags(false, false, true, false)));
    assert_eq!(apply(AluOp::Xor, 0x0C, 0x0A, carry), (0x06, CLEAR));
    assert_eq!(apply(AluOp::Or, 0x0C, 0x0A, carry), (0x0E, CLEAR));
}

#[test]
fn complement_flips_every_bit() {
    assert_eq!(complement(0x35, CLEAR), (0xCA, flags(false, true, true, false)));
    assert_eq!(complement(0x00, flags(true, false, false, true)), (0xFF, flags(true, true, true, true)));
}

#[test]
fn rotation_goes_through_the_carry() {
    assert_eq!(rotate_right_through_carry(0x81, CLEAR), (0x40, flags(false, false, false, true)));
    assert_eq!(
        rotate_right_through_carry(0x01, flags(false, false, false, true)),
        (0x80, flags(false, false, false, true))
    );
    assert_eq!(
        rotate_right_through_carry(0x00, flags(true, true, true, false)),
        (0x00, flags(false, false, false, false))
    );
    assert_eq!(
        rotate_right_through_carry(0xFE, flags(false, false, false, true)),
        (0xFF, flags(false, false, false, false))
    );
}

#[test]
fn left_rotation_goes_through_the_carry() {
    assert_eq!(rotate_left_through_carry(0x81, CLEAR), (0x02, flags(false, false, false, true)));
    assert_eq!(
        rotate_left_through_carry(0x81, flags(false, false, false, true)),
        (0x03, flags(false, false, false, true))
    );
    assert_eq!(
        rotate_left_through_carry(0x00, flags(true, true, true, false)),
        (0x00, flags(false, false, false, false))
    );
    assert_eq!(
        rotate_left_through_carry(0x7F, flags(false, false, false, true)),
        (0xFF, flags(false, false, false, false))
    );
    assert_eq!(rotate_left_through_carry(0x80, CLEAR), (0x00, flags(false, false, false, true)));
}

#[test]
fn rotations_undo_each_other() {
    for a in 0u8..=255 {
        for carry in [false, true] {
            let f = flags(false, false, false, carry);
            let (left, g) = rotate_left_through_carry(a, f);
            assert_eq!(left as u16, ((a as u16) << 1 | carry as u16) & 0xFF);
            assert_eq!(g.carry, a >= 0x80);
            assert_eq!(rotate_right_through_carry(left, g), (a, f));
        }
    }
}

#[test]
fn decimal_adjust_after_addition() {
    let (sum, f) = add_bytes(0x45, 0x38, false);
    assert_eq!(sum, 0x7D);
    assert_eq!(decimal_adjust(sum, f), (0x83, flags(false, false, false, false)));
    let (sum, f) = add_bytes(0x99, 0x01, false);
    assert_eq!(sum, 0x9A);
    assert_eq!(decimal_adjust(sum, f), (0x00, flags(true, false, false, true)));
    let (sum, f) = add_bytes(0x19, 0x28, false);
    assert_eq!(sum, 0x41);
    assert!(f.half_carry);
    assert_eq!(decimal_adjust(sum, f), (0x47, flags(false, false, false, false)));
    let (sum, f) = add_bytes(0x90, 0x80, false);
    assert_eq!(sum, 0x10);
    assert_eq!(decimal_adjust(sum, f), (0x70, flags(false, false, false, true)));
}

#[test]
fn decimal_adjust_after_subtraction() {
    let (diff, f) = sub_bytes(0x83, 0x38);
    assert_eq!(diff, 0x4B);
    assert_eq!(decimal_adjust(diff, f), (0x45, flags(false, true, false, false)));
    let (diff, f) = sub_bytes(0x10, 0x20);
    assert_eq!(diff, 0xF0);
    assert_eq!(decimal_adjust(diff, f), (0x90, flags(false, true, false, true)));
    let (diff, f) = sub_bytes(0x42, 0x42);
    assert_eq!(decimal_adjust(diff, f), (0x00, flags(true, true, false, false)));
}

#[test]
fn decimal_adjust_agrees_with_decimal_arithmetic() {
    for x in 0u32..100 {
        for y in 0u32..100 {
            let bx = ((x / 10) << 4 | (x % 10)) as u8;
            let by = ((y / 10) << 4 | (y % 10)) as u8;
            let (sum, f) = add_bytes(bx, by, false);
            let (adjusted, g) = decimal_adjust(sum, f);
            let total = (x + y) % 100;
            assert_eq!(adjusted, ((total / 10) << 4 | (total % 10)) as u8);
            assert_eq!(g.carry, x + y >= 100);
            let (diff, f) = sub_bytes(bx, by);
            let (adjusted, g) = decimal_adjust(diff, f);
            let total = (100 + x - y) % 100;
            assert_eq!(adjusted, ((total / 10) << 4 | (total % 10)) as u8);
            assert_eq!(g.carry, x < y);
        }
    }
}

#[test]
fn word_addition_carries_out_of_bit_11_and_15() {
    assert_eq!(add_words(0x8A23, 0x0605, CLEAR), (0x9028, flags(false, false, true, false)));
    assert_eq!(add_words(0x8A23, 0x8A23, CLEAR), (0x1446, flags(false, false, true, true)));
    assert_eq!(
        add_words(0xFFFF, 0x0001, flags(true, true, false, false)),
        (0x0000, flags(true, false, true, true))
    );
    assert_eq!(add_words(0x0100, 0x0200, CLEAR), (0x0300, CLEAR));
}

#[test]
fn signed_offsets_move_both_ways() {
    assert_eq!(offset(0x0105, 0xFB), 0x0100);
    assert_eq!(offset(0x0100, 0x7F), 0x017F);
    assert_eq!(offset(0x0100, 0x80), 0x0080);
    assert_eq!(offset(0x0000, 0xFF), 0xFFFF);
    assert_eq!(offset(0xFFFF, 0x01), 0x0000);
    assert_eq!(offset(0x1234, 0x00), 0x1234);
}

#[test]
fn stack_pointer_offset_takes_its_carries_from_the_low_byte() {
    assert_eq!(add_signed(0xFFF8, 0x02), (0xFFFA, CLEAR));
    assert_eq!(add_signed(0x0001, 0xFF), (0x0000, flags(false, false, true, true)));
    assert_eq!(add_signed(0x000F, 0x01), (0x0010, flags(false, false, true, false)));
    assert_eq!(add_signed(0x00F0, 0x10), (0x0100, flags(false, false, false, true)));
    assert_eq!(add_signed(0x1000, 0xFF), (0x0FFF, CLEAR));
}

#[test]
fn low_nibble_mask_keeps_the_rest() {
    assert_eq!(mask_low_nibble(0x12FF), 0x12F0);
    assert_eq!(mask_low_nibble(0xABC0), 0xABC0);
    assert_eq!(mask_low_nibble(0x000F), 0x0000);
}

#[test]
fn operations_agree_with_wide_arithmetic() {
    for a in 0u16..=255 {
        for b in 0u16..=255 {
            let (r, f) = add_bytes(a as u8, b as u8, false);
            assert_eq!(r as u16, (a + b) & 0xFF);
            assert_eq!(f.carry, a + b > 0xFF);
            assert_eq!(f.half_carry, (a & 0xF) + (b & 0xF) > 0xF);
            assert_eq!(f.zero, (a + b) & 0xFF == 0);
            let (r, f) = sub_bytes(a as u8, b as u8);
            assert_eq!(r as u16, (0x100 + a - b) & 0xFF);
            assert_eq!(f.carry, a < b);
            assert_eq!(f.half_carry, (a & 0xF) < (b & 0xF));
            assert_eq!(f.zero, a == b);
        }
    }
}
