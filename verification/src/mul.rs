//! The multiplication gadget.
//!
//! The product of two 32-bit numbers has up to 64 bits. Its low half is the
//! result and goes into the output register; its high half goes into the
//! first auxiliary register.

use vstd::prelude::*;
use crate::columns::{
    AUX_REGISTER_0, INPUT_REGISTER_0, INPUT_REGISTER_1, NUM_ARITH_COLUMNS, OUTPUT_REGISTER,
};
use crate::gadget::keeps_selectors;
use crate::operator::BinaryOperator;
use crate::utils::{
    in_range, is_register, lemma_with_register, register, register_modulus, with_register,
    write_register,
};

verus! {

/// The high half of the product: what the product exceeds its low 32 bits by,
/// counted in multiples of 2^32.
pub open spec fn high_half(input0: u32, input1: u32) -> int {
    (input0 * input1) / register_modulus()
}

/// The row with the product of `input0` and `input1` written behind the
/// operands: low half in the output register, high half in the first
/// auxiliary register.
pub open spec fn with_product(row: Seq<u64>, input0: u32, input1: u32) -> Seq<u64> {
    with_register(
        with_register(row, OUTPUT_REGISTER, BinaryOperator::Mul.value(input0, input1) as u32),
        AUX_REGISTER_0,
        high_half(input0, input1) as u32,
    )
}

/// The row that the gadget leaves.
pub open spec fn encoded(row: Seq<u64>, input0: u32, input1: u32) -> Seq<u64> {
    with_product(
        with_register(with_register(row, INPUT_REGISTER_0, input0), INPUT_REGISTER_1, input1),
        input0,
        input1,
    )
}

/// The relation between the registers of a row that encodes a product of the
/// numbers in the registers at `left` and `right`: with `x` and `y` for these
/// two, `z` for the output and `w` for the auxiliary register,
/// `x * y = z + w * 2^32`, all limbs being below 2^16.
pub open spec fn product_holds(row: Seq<u64>, left: usize, right: usize) -> bool {
    let x = register(row, left);
    let y = register(row, right);
    let z = register(row, OUTPUT_REGISTER);
    let w = register(row, AUX_REGISTER_0);
    &&& row.len() == NUM_ARITH_COLUMNS
    &&& in_range(row, left)
    &&& in_range(row, right)
    &&& in_range(row, OUTPUT_REGISTER)
    &&& in_range(row, AUX_REGISTER_0)
    &&& x * y == z + w * register_modulus()
}

/// The relation of the multiplication gadget: the product relation on the
/// first two input registers.
pub open spec fn holds(row: Seq<u64>) -> bool {
    product_holds(row, INPUT_REGISTER_0, INPUT_REGISTER_1)
}

/// The product of two 32-bit numbers splits into a low and a high half of 32
/// bits each.
pub proof fn lemma_product_halves(input0: u32, input1: u32)
    ensures
        0 <= input0 * input1 <= 0xffff_fffe_0000_0001,
        0 <= high_half(input0, input1) < register_modulus(),
        input0 * input1 == BinaryOperator::Mul.value(input0, input1) + high_half(input0, input1)
            * register_modulus(),
{
    assert(0 <= input0 * input1 <= 0xffff_ffff * 0xffff_ffff) by (nonlinear_arith)
        requires
            0 <= input0 <= 0xffff_ffff,
            0 <= input1 <= 0xffff_ffff,
    ;
}

/// Writing the product behind operands that stand in two input registers
/// gives a row that satisfies the product relation on these registers, and
/// changes no column but those of the output and the first auxiliary
/// register.
pub proof fn lemma_with_product_holds(
    row: Seq<u64>,
    left: usize,
    right: usize,
    input0: u32,
    input1: u32,
)
    requires
        row.len() == NUM_ARITH_COLUMNS,
        is_register(row, left),
        is_register(row, right),
        left + 1 < OUTPUT_REGISTER,
        right + 1 < OUTPUT_REGISTER,
        in_range(row, left),
        in_range(row, right),
        register(row, left) == input0,
        register(row, right) == input1,
    ensures
        product_holds(with_product(row, input0, input1), left, right),
        keeps_selectors(row, with_product(row, input0, input1)),
        register(with_product(row, input0, input1), OUTPUT_REGISTER) == BinaryOperator::Mul.value(
            input0,
            input1,
        ),
        forall|c: int|
            0 <= c < OUTPUT_REGISTER ==> #[trigger] with_product(row, input0, input1)[c] == row[c],
{
    let low = BinaryOperator::Mul.value(input0, input1) as u32;
    let high = high_half(input0, input1) as u32;
    let r1 = with_register(row, OUTPUT_REGISTER, low);
    lemma_product_halves(input0, input1);
    lemma_with_register(row, OUTPUT_REGISTER, low);
    lemma_with_register(r1, AUX_REGISTER_0, high);
}

/// The row that the gadget leaves satisfies the gadget's relation, holds the
/// operands and their product reduced modulo 2^32, and has the selector
/// columns of the row that the gadget was given.
pub proof fn lemma_encoded_holds(row: Seq<u64>, input0: u32, input1: u32)
    requires
        row.len() == NUM_ARITH_COLUMNS,
    ensures
        holds(encoded(row, input0, input1)),
        keeps_selectors(row, encoded(row, input0, input1)),
        register(encoded(row, input0, input1), INPUT_REGISTER_0) == input0,
        register(encoded(row, input0, input1), INPUT_REGISTER_1) == input1,
        register(encoded(row, input0, input1), OUTPUT_REGISTER) == BinaryOperator::Mul.value(
            input0,
            input1,
        ),
{
    let r1 = with_register(row, INPUT_REGISTER_0, input0);
    let r2 = with_register(r1, INPUT_REGISTER_1, input1);
    lemma_with_register(row, INPUT_REGISTER_0, input0);
    lemma_with_register(r1, INPUT_REGISTER_1, input1);
    lemma_with_product_holds(r2, INPUT_REGISTER_0, INPUT_REGISTER_1, input0, input1);
}

/// A row that satisfies the product relation holds in its output register the
/// product of the numbers in the two input registers, reduced modulo 2^32.
pub proof fn lemma_holds_is_sound(row: Seq<u64>, left: usize, right: usize)
    requires
        product_holds(row, left, right),
    ensures
        register(row, OUTPUT_REGISTER) == BinaryOperator::Mul.value(
            register(row, left) as u32,
            register(row, right) as u32,
        ),
{
    let x = register(row, left);
    let y = register(row, right);
    let z = register(row, OUTPUT_REGISTER);
    let w = register(row, AUX_REGISTER_0);
    vstd::arithmetic::div_mod::lemma_fundamental_div_mod_converse(
        x * y,
        register_modulus(),
        w,
        z,
    );
}

/// Writes the product of `input0` and `input1` behind the operands: the low
/// half into the output register, the high half into the first auxiliary
/// register.
pub fn generate_product(row: &mut Vec<u64>, input0: u32, input1: u32)
    requires
        old(row)@.len() == NUM_ARITH_COLUMNS,
    ensures
        final(row)@ == with_product(old(row)@, input0, input1),
{
    proof {
        lemma_product_halves(input0, input1);
    }
    let product: u64 = (input0 as u64) * (input1 as u64);
    let high: u32 = (product / 0x1_0000_0000) as u32;
    write_register(row, OUTPUT_REGISTER, BinaryOperator::Mul.result(input0, input1));
    write_register(row, AUX_REGISTER_0, high);
}

/// Encodes the product of `input0` and `input1`.
pub fn generate(row: &mut Vec<u64>, input0: u32, input1: u32)
    requires
        old(row)@.len() == NUM_ARITH_COLUMNS,
    ensures
        final(row)@ == encoded(old(row)@, input0, input1),
        keeps_selectors(old(row)@, final(row)@),
        holds(final(row)@),
{
    proof {
        lemma_encoded_holds(row@, input0, input1);
    }
    write_register(row, INPUT_REGISTER_0, input0);
    write_register(row, INPUT_REGISTER_1, input1);
    generate_product(row, input0, input1);
}

} // verus!
