//! The carry/borrow-chain gadget: addition, subtraction and the two
//! comparisons.
//!
//! The two operands go into the first two input registers and the result into
//! the output register. The first auxiliary register holds what ties them
//! together: the carry of the sum, the borrow of the difference, or, for a
//! comparison, the difference whose borrow is the result.

use vstd::prelude::*;
use crate::columns::{
    AUX_REGISTER_0, INPUT_REGISTER_0, INPUT_REGISTER_1, IS_ADD, IS_LT, IS_SUB, NUM_ARITH_COLUMNS,
    OUTPUT_REGISTER,
};
use crate::gadget::{is_carry_chain_selector, keeps_selectors};
use crate::operator::BinaryOperator;
use crate::utils::{
    in_range, lemma_with_register, register, register_modulus, with_register, write_register,
};

verus! {

/// The operator that a selector of this gadget stands for.
pub open spec fn operator_of(selector: usize) -> BinaryOperator {
    if selector == IS_ADD {
        BinaryOperator::Add
    } else if selector == IS_SUB {
        BinaryOperator::Sub
    } else if selector == IS_LT {
        BinaryOperator::Lt
    } else {
        BinaryOperator::Gt
    }
}

/// What the auxiliary register holds: for `Add` the carry out of 32 bits, for
/// `Sub` the borrow, for `Lt` the difference `input0 - input1` reduced modulo
/// 2^32, and for `Gt` the difference `input1 - input0` reduced likewise.
pub open spec fn witness(selector: usize, input0: u32, input1: u32) -> int {
    if selector == IS_ADD {
        (input0 + input1) / register_modulus()
    } else if selector == IS_SUB {
        if input0 < input1 {
            1
        } else {
            0
        }
    } else if selector == IS_LT {
        (input0 - input1) % register_modulus()
    } else {
        (input1 - input0) % register_modulus()
    }
}

/// The row that the gadget leaves.
pub open spec fn encoded(row: Seq<u64>, selector: usize, input0: u32, input1: u32) -> Seq<u64> {
    with_register(
        with_register(
            with_register(
                with_register(row, INPUT_REGISTER_0, input0),
                INPUT_REGISTER_1,
                input1,
            ),
            OUTPUT_REGISTER,
            operator_of(selector).value(input0, input1) as u32,
        ),
        AUX_REGISTER_0,
        witness(selector, input0, input1) as u32,
    )
}

/// The relation between the registers of a row that encodes an operation of
/// this gadget. With `x` and `y` for the inputs, `z` for the output and `w`
/// for the auxiliary register: `x + y = z + w * 2^32` for `Add`,
/// `y + z = x + w * 2^32` for `Sub`, `y + w = x + z * 2^32` for `Lt` and
/// `x + w = y + z * 2^32` for `Gt`, all limbs being below 2^16.
pub open spec fn holds(row: Seq<u64>, selector: usize) -> bool {
    let x = register(row, INPUT_REGISTER_0);
    let y = register(row, INPUT_REGISTER_1);
    let z = register(row, OUTPUT_REGISTER);
    let w = register(row, AUX_REGISTER_0);
    &&& row.len() == NUM_ARITH_COLUMNS
    &&& in_range(row, INPUT_REGISTER_0)
    &&& in_range(row, INPUT_REGISTER_1)
    &&& in_range(row, OUTPUT_REGISTER)
    &&& in_range(row, AUX_REGISTER_0)
    &&& if selector == IS_ADD {
        x + y == z + w * register_modulus()
    } else if selector == IS_SUB {
        y + z == x + w * register_modulus()
    } else if selector == IS_LT {
        y + w == x + z * register_modulus()
    } else {
        x + w == y + z * register_modulus()
    }
}

/// The row that the gadget leaves satisfies the gadget's relation, holds the
/// operands and the operator's result, and has the selector columns of the
/// row that the gadget was given.
pub proof fn lemma_encoded_holds(row: Seq<u64>, selector: usize, input0: u32, input1: u32)
    requires
        row.len() == NUM_ARITH_COLUMNS,
        is_carry_chain_selector(selector),
    ensures
        holds(encoded(row, selector, input0, input1), selector),
        keeps_selectors(row, encoded(row, selector, input0, input1)),
        register(encoded(row, selector, input0, input1), INPUT_REGISTER_0) == input0,
        register(encoded(row, selector, input0, input1), INPUT_REGISTER_1) == input1,
        register(encoded(row, selector, input0, input1), OUTPUT_REGISTER) == operator_of(
            selector,
        ).value(input0, input1),
{
    let r1 = with_register(row, INPUT_REGISTER_0, input0);
    let r2 = with_register(r1, INPUT_REGISTER_1, input1);
    let out = operator_of(selector).value(input0, input1) as u32;
    let r3 = with_register(r2, OUTPUT_REGISTER, out);
    let aux = witness(selector, input0, input1) as u32;
    lemma_with_register(row, INPUT_REGISTER_0, input0);
    lemma_with_register(r1, INPUT_REGISTER_1, input1);
    lemma_with_register(r2, OUTPUT_REGISTER, out);
    lemma_with_register(r3, AUX_REGISTER_0, aux);
}

/// A row that satisfies the relation holds in its output register what the
/// operator computes on the numbers in its input registers.
pub proof fn lemma_holds_is_sound(row: Seq<u64>, selector: usize)
    requires
        is_carry_chain_selector(selector),
        holds(row, selector),
    ensures
        register(row, OUTPUT_REGISTER) == operator_of(selector).value(
            register(row, INPUT_REGISTER_0) as u32,
            register(row, INPUT_REGISTER_1) as u32,
        ),
{
}

/// Encodes the addition, subtraction or comparison of `input0` and `input1`
/// that `selector` names.
pub fn generate(row: &mut Vec<u64>, selector: usize, input0: u32, input1: u32)
    requires
        old(row)@.len() == NUM_ARITH_COLUMNS,
        is_carry_chain_selector(selector),
    ensures
        final(row)@ == encoded(old(row)@, selector, input0, input1),
        keeps_selectors(old(row)@, final(row)@),
        holds(final(row)@, selector),
{
    proof {
        lemma_encoded_holds(row@, selector, input0, input1);
    }
    write_register(row, INPUT_REGISTER_0, input0);
    write_register(row, INPUT_REGISTER_1, input1);
    if selector == IS_ADD {
        let carry: u32 = if input0 > u32::MAX - input1 {
            1
        } else {
            0
        };
        write_register(row, OUTPUT_REGISTER, BinaryOperator::Add.result(input0, input1));
        write_register(row, AUX_REGISTER_0, carry);
    } else if selector == IS_SUB {
        let borrow: u32 = if input0 < input1 {
            1
        } else {
            0
        };
        write_register(row, OUTPUT_REGISTER, BinaryOperator::Sub.result(input0, input1));
        write_register(row, AUX_REGISTER_0, borrow);
    } else if selector == IS_LT {
        write_register(row, OUTPUT_REGISTER, BinaryOperator::Lt.result(input0, input1));
        write_register(row, AUX_REGISTER_0, input0.wrapping_sub(input1));
    } else {
        write_register(row, OUTPUT_REGISTER, BinaryOperator::Gt.result(input0, input1));
        write_register(row, AUX_REGISTER_0, input1.wrapping_sub(input0));
    }
}

} // verus!
