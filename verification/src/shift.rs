//! The shift gadget: a shift to the left by way of a multiplication, a shift
//! to the right by way of a division.
//!
//! The amount goes into the first input register, the value to shift into the
//! second, and the displacement, which is 2 to the power of the amount, into
//! the third. An amount of 32 or more has the displacement 0: the product with
//! it is 0, and so is, by the rule for a zero divisor, the quotient by it.

use vstd::prelude::*;
use crate::columns::{
    INPUT_REGISTER_0, INPUT_REGISTER_1, INPUT_REGISTER_2, NUM_ARITH_COLUMNS, OUTPUT_REGISTER,
};
use crate::divmod::{division_holds, generate_divmod, with_division};
use crate::gadget::{keeps_selectors, shift_value};
use crate::mul::{generate_product, product_holds, with_product};
use crate::operator::BinaryOperator;
use crate::utils::{in_range, lemma_with_register, register, with_register, write_register};

verus! {

/// The number that a shift by `amount` bits multiplies or divides by: 2 to
/// the power of `amount` below 32 bits, and 0 from there on.
pub open spec fn displacement(amount: u32) -> u32 {
    if amount < 32 {
        1u32 << amount
    } else {
        0
    }
}

/// The rows that the gadget leaves.
pub open spec fn encoded(
    row: Seq<u64>,
    next_row: Seq<u64>,
    left: bool,
    input0: u32,
    input1: u32,
) -> (Seq<u64>, Seq<u64>) {
    let operands = with_register(
        with_register(with_register(row, INPUT_REGISTER_0, input0), INPUT_REGISTER_1, input1),
        INPUT_REGISTER_2,
        displacement(input0),
    );
    if left {
        (with_product(operands, input1, displacement(input0)), next_row)
    } else {
        with_division(operands, next_row, true, input1, displacement(input0))
    }
}

/// The relation between the registers of rows that encode a shift. The third
/// input register holds the displacement of the amount in the first. For a
/// shift to the left the product relation holds of the value and the
/// displacement; for a shift to the right the division relation holds of
/// them, with the quotient in the output register.
pub open spec fn holds(row: Seq<u64>, next_row: Seq<u64>, left: bool) -> bool {
    &&& row.len() == NUM_ARITH_COLUMNS
    &&& next_row.len() == NUM_ARITH_COLUMNS
    &&& in_range(row, INPUT_REGISTER_0)
    &&& register(row, INPUT_REGISTER_2) == displacement(register(row, INPUT_REGISTER_0) as u32)
    &&& if left {
        product_holds(row, INPUT_REGISTER_1, INPUT_REGISTER_2)
    } else {
        division_holds(row, next_row, INPUT_REGISTER_1, INPUT_REGISTER_2, true)
    }
}

/// A shift to the left is the product with the displacement, reduced modulo
/// 2^32; a shift to the right is the quotient by the displacement, with 0 for
/// the displacement 0.
pub proof fn lemma_shift_by_displacement(amount: u32, value: u32)
    ensures
        BinaryOperator::Shl.value(amount, value) == BinaryOperator::Mul.value(
            value,
            displacement(amount),
        ),
        BinaryOperator::Shr.value(amount, value) == BinaryOperator::Div.value(
            value,
            displacement(amount),
        ),
{
    if amount < 32 {
        let d = 1u32 << amount;
        assert(d != 0 && (value >> amount) == value / d && (value << amount) as u64 == (value as u64
            * d as u64) % 0x1_0000_0000) by (bit_vector)
            requires
                amount < 32,
                d == 1u32 << amount,
        ;
    }
}

/// The rows that the gadget leaves satisfy the gadget's relation, hold the
/// operands and the shifted value, and have the selector columns of the rows
/// that the gadget was given.
pub proof fn lemma_encoded_holds(
    row: Seq<u64>,
    next_row: Seq<u64>,
    left: bool,
    input0: u32,
    input1: u32,
)
    requires
        row.len() == NUM_ARITH_COLUMNS,
        next_row.len() == NUM_ARITH_COLUMNS,
    ensures
        holds(
            encoded(row, next_row, left, input0, input1).0,
            encoded(row, next_row, left, input0, input1).1,
            left,
        ),
        keeps_selectors(row, encoded(row, next_row, left, input0, input1).0),
        keeps_selectors(next_row, encoded(row, next_row, left, input0, input1).1),
        register(encoded(row, next_row, left, input0, input1).0, INPUT_REGISTER_0) == input0,
        register(encoded(row, next_row, left, input0, input1).0, INPUT_REGISTER_1) == input1,
        register(encoded(row, next_row, left, input0, input1).0, OUTPUT_REGISTER) == shift_value(
            left,
            input0,
            input1,
        ),
{
    let d = displacement(input0);
    let r1 = with_register(row, INPUT_REGISTER_0, input0);
    let r2 = with_register(r1, INPUT_REGISTER_1, input1);
    let r3 = with_register(r2, INPUT_REGISTER_2, d);
    lemma_with_register(row, INPUT_REGISTER_0, input0);
    lemma_with_register(r1, INPUT_REGISTER_1, input1);
    lemma_with_register(r2, INPUT_REGISTER_2, d);
    lemma_shift_by_displacement(input0, input1);
    if left {
        crate::mul::lemma_with_product_holds(r3, INPUT_REGISTER_1, INPUT_REGISTER_2, input1, d);
    } else {
        crate::divmod::lemma_with_division_holds(
            r3,
            next_row,
            INPUT_REGISTER_1,
            INPUT_REGISTER_2,
            true,
            input1,
            d,
        );
    }
}

/// Rows that satisfy the relation hold in the output register the value of
/// the second input register shifted by the amount in the first.
pub proof fn lemma_holds_is_sound(row: Seq<u64>, next_row: Seq<u64>, left: bool)
    requires
        holds(row, next_row, left),
    ensures
        register(row, OUTPUT_REGISTER) == shift_value(
            left,
            register(row, INPUT_REGISTER_0) as u32,
            register(row, INPUT_REGISTER_1) as u32,
        ),
{
    let amount = register(row, INPUT_REGISTER_0) as u32;
    let value = register(row, INPUT_REGISTER_1) as u32;
    lemma_shift_by_displacement(amount, value);
    if left {
        crate::mul::lemma_holds_is_sound(row, INPUT_REGISTER_1, INPUT_REGISTER_2);
    } else {
        crate::divmod::lemma_holds_is_sound(
            row,
            next_row,
            INPUT_REGISTER_1,
            INPUT_REGISTER_2,
            true,
        );
    }
}

/// The displacement of a shift by `amount` bits.
pub fn displacement_of(amount: u32) -> (d: u32)
    ensures
        d == displacement(amount),
{
    if amount > 31 {
        0
    } else {
        1u32 << amount
    }
}

/// Encodes the shift of `input1` by `input0` bits, to the left if `left` and
/// to the right if not; `result` is the shifted value.
pub fn generate(
    row: &mut Vec<u64>,
    next_row: &mut Vec<u64>,
    left: bool,
    input0: u32,
    input1: u32,
    result: u32,
)
    requires
        old(row)@.len() == NUM_ARITH_COLUMNS,
        old(next_row)@.len() == NUM_ARITH_COLUMNS,
        result == shift_value(left, input0, input1),
    ensures
        (final(row)@, final(next_row)@) == encoded(
            old(row)@,
            old(next_row)@,
            left,
            input0,
            input1,
        ),
        keeps_selectors(old(row)@, final(row)@),
        keeps_selectors(old(next_row)@, final(next_row)@),
        holds(final(row)@, final(next_row)@, left),
{
    proof {
        lemma_encoded_holds(row@, next_row@, left, input0, input1);
        lemma_shift_by_displacement(input0, input1);
    }
    let shifted_displacement = displacement_of(input0);
    write_register(row, INPUT_REGISTER_0, input0);
    write_register(row, INPUT_REGISTER_1, input1);
    write_register(row, INPUT_REGISTER_2, shifted_displacement);
    if left {
        generate_product(row, input1, shifted_displacement);
    } else {
        generate_divmod(row, next_row, true, input1, shifted_displacement, result);
    }
}

} // verus!
