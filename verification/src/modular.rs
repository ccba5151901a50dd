//! The modular gadget: sum, product and difference reduced by a modulus.
//!
//! The two operands and the modulus go into the three input registers of the
//! row, and the result into its output register. The row that follows holds
//! the steps between: the sum, product or difference reduced modulo 2^32, the
//! carry, high half or borrow that was dropped by that, and the quotient of
//! the reduction by the modulus.

use vstd::prelude::*;
use vstd::arithmetic::div_mod::{lemma_fundamental_div_mod, lemma_fundamental_div_mod_converse};
use crate::columns::{
    AUX_REGISTER_0, INPUT_REGISTER_0, INPUT_REGISTER_1, INPUT_REGISTER_2, IS_ADDMOD, IS_MULMOD,
    NUM_ARITH_COLUMNS, OUTPUT_REGISTER,
};
use crate::gadget::{is_modular_selector, keeps_selectors};
use crate::mul::{high_half, lemma_product_halves};
use crate::operator::{BinaryOperator, TernaryOperator};
use crate::utils::{
    in_range, lemma_with_register, register, register_modulus, with_register, write_register,
};

verus! {

/// The register of the following row that holds the sum, product or
/// difference of the operands, reduced modulo 2^32.
pub const COMBINED_REGISTER: usize = INPUT_REGISTER_0;

/// The register of the following row that holds what the reduction modulo
/// 2^32 dropped.
pub const DROPPED_REGISTER: usize = INPUT_REGISTER_1;

/// The register of the following row that holds the quotient by the modulus.
pub const QUOTIENT_REGISTER: usize = AUX_REGISTER_0;

/// The operator that a selector of this gadget stands for.
pub open spec fn operator_of(selector: usize) -> TernaryOperator {
    if selector == IS_ADDMOD {
        TernaryOperator::AddMod
    } else if selector == IS_MULMOD {
        TernaryOperator::MulMod
    } else {
        TernaryOperator::SubMod
    }
}

/// The sum, product or difference of the operands, reduced modulo 2^32.
pub open spec fn combined(selector: usize, input0: u32, input1: u32) -> int {
    if selector == IS_ADDMOD {
        BinaryOperator::Add.value(input0, input1)
    } else if selector == IS_MULMOD {
        BinaryOperator::Mul.value(input0, input1)
    } else {
        BinaryOperator::Sub.value(input0, input1)
    }
}

/// What the reduction modulo 2^32 dropped: the carry of the sum, the high
/// half of the product, or the borrow of the difference.
pub open spec fn dropped(selector: usize, input0: u32, input1: u32) -> int {
    if selector == IS_ADDMOD {
        (input0 + input1) / register_modulus()
    } else if selector == IS_MULMOD {
        high_half(input0, input1)
    } else {
        if input0 < input1 {
            1
        } else {
            0
        }
    }
}

/// The rows that the gadget leaves.
pub open spec fn encoded(
    row: Seq<u64>,
    next_row: Seq<u64>,
    selector: usize,
    input0: u32,
    input1: u32,
    input2: u32,
) -> (Seq<u64>, Seq<u64>) {
    (
        with_register(
            with_register(
                with_register(
                    with_register(row, INPUT_REGISTER_0, input0),
                    INPUT_REGISTER_1,
                    input1,
                ),
                INPUT_REGISTER_2,
                input2,
            ),
            OUTPUT_REGISTER,
            operator_of(selector).value(input0, input1, input2) as u32,
        ),
        with_register(
            with_register(
                with_register(
                    next_row,
                    COMBINED_REGISTER,
                    combined(selector, input0, input1) as u32,
                ),
                DROPPED_REGISTER,
                dropped(selector, input0, input1) as u32,
            ),
            QUOTIENT_REGISTER,
            (combined(selector, input0, input1) / (input2 as int)) as u32,
        ),
    )
}

/// The relation between the registers of two rows that encode an operation
/// of this gadget. With `x` and `y` for the operands, `m` for the modulus and
/// `z` for the output, and in the following row `c` for the reduced
/// combination, `w` for what was dropped and `q` for the quotient:
/// `x + y = c + w * 2^32` for `AddMod`, `x * y = c + w * 2^32` for `MulMod`,
/// `y + c = x + w * 2^32` for `SubMod`; and `c = m * q + z` with `z < m`. All
/// limbs are below 2^16.
pub open spec fn holds(row: Seq<u64>, next_row: Seq<u64>, selector: usize) -> bool {
    let x = register(row, INPUT_REGISTER_0);
    let y = register(row, INPUT_REGISTER_1);
    let m = register(row, INPUT_REGISTER_2);
    let z = register(row, OUTPUT_REGISTER);
    let c = register(next_row, COMBINED_REGISTER);
    let w = register(next_row, DROPPED_REGISTER);
    let q = register(next_row, QUOTIENT_REGISTER);
    &&& row.len() == NUM_ARITH_COLUMNS
    &&& next_row.len() == NUM_ARITH_COLUMNS
    &&& in_range(row, INPUT_REGISTER_0)
    &&& in_range(row, INPUT_REGISTER_1)
    &&& in_range(row, INPUT_REGISTER_2)
    &&& in_range(row, OUTPUT_REGISTER)
    &&& in_range(next_row, COMBINED_REGISTER)
    &&& in_range(next_row, DROPPED_REGISTER)
    &&& in_range(next_row, QUOTIENT_REGISTER)
    &&& if selector == IS_ADDMOD {
        x + y == c + w * register_modulus()
    } else if selector == IS_MULMOD {
        x * y == c + w * register_modulus()
    } else {
        y + c == x + w * register_modulus()
    }
    &&& c == m * q + z
    &&& z < m
}

/// The rows that the gadget leaves satisfy the gadget's relation, hold the
/// operands, the modulus and the operator's result, and have the selector
/// columns of the rows that the gadget was given.
pub proof fn lemma_encoded_holds(
    row: Seq<u64>,
    next_row: Seq<u64>,
    selector: usize,
    input0: u32,
    input1: u32,
    input2: u32,
)
    requires
        row.len() == NUM_ARITH_COLUMNS,
        next_row.len() == NUM_ARITH_COLUMNS,
        is_modular_selector(selector),
        input2 != 0,
    ensures
        holds(
            encoded(row, next_row, selector, input0, input1, input2).0,
            encoded(row, next_row, selector, input0, input1, input2).1,
            selector,
        ),
        keeps_selectors(row, encoded(row, next_row, selector, input0, input1, input2).0),
        keeps_selectors(next_row, encoded(row, next_row, selector, input0, input1, input2).1),
        register(encoded(row, next_row, selector, input0, input1, input2).0, INPUT_REGISTER_0)
            == input0,
        register(encoded(row, next_row, selector, input0, input1, input2).0, INPUT_REGISTER_1)
            == input1,
        register(encoded(row, next_row, selector, input0, input1, input2).0, INPUT_REGISTER_2)
            == input2,
        register(encoded(row, next_row, selector, input0, input1, input2).0, OUTPUT_REGISTER)
            == operator_of(selector).value(input0, input1, input2),
{
    let c = combined(selector, input0, input1);
    let w = dropped(selector, input0, input1);
    let q = c / (input2 as int);
    let z = operator_of(selector).value(input0, input1, input2);
    lemma_product_halves(input0, input1);
    lemma_fundamental_div_mod(c, input2 as int);
    assert(0 <= q <= c) by (nonlinear_arith)
        requires
            c == (input2 as int) * q + z,
            0 <= z < input2,
            0 <= c,
    ;
    let r1 = with_register(row, INPUT_REGISTER_0, input0);
    let r2 = with_register(r1, INPUT_REGISTER_1, input1);
    let r3 = with_register(r2, INPUT_REGISTER_2, input2);
    lemma_with_register(row, INPUT_REGISTER_0, input0);
    lemma_with_register(r1, INPUT_REGISTER_1, input1);
    lemma_with_register(r2, INPUT_REGISTER_2, input2);
    lemma_with_register(r3, OUTPUT_REGISTER, z as u32);
    let n1 = with_register(next_row, COMBINED_REGISTER, c as u32);
    let n2 = with_register(n1, DROPPED_REGISTER, w as u32);
    lemma_with_register(next_row, COMBINED_REGISTER, c as u32);
    lemma_with_register(n1, DROPPED_REGISTER, w as u32);
    lemma_with_register(n2, QUOTIENT_REGISTER, q as u32);
}

/// Rows that satisfy the relation hold in the output register what the
/// operator computes on the numbers in the three input registers.
pub proof fn lemma_holds_is_sound(row: Seq<u64>, next_row: Seq<u64>, selector: usize)
    requires
        is_modular_selector(selector),
        holds(row, next_row, selector),
    ensures
        register(row, INPUT_REGISTER_2) != 0,
        register(row, OUTPUT_REGISTER) == operator_of(selector).value(
            register(row, INPUT_REGISTER_0) as u32,
            register(row, INPUT_REGISTER_1) as u32,
            register(row, INPUT_REGISTER_2) as u32,
        ),
{
    let x = register(row, INPUT_REGISTER_0);
    let y = register(row, INPUT_REGISTER_1);
    let m = register(row, INPUT_REGISTER_2);
    let z = register(row, OUTPUT_REGISTER);
    let c = register(next_row, COMBINED_REGISTER);
    let w = register(next_row, DROPPED_REGISTER);
    let q = register(next_row, QUOTIENT_REGISTER);
    if selector == IS_MULMOD {
        lemma_fundamental_div_mod_converse(x * y, register_modulus(), w, c);
    }
    lemma_fundamental_div_mod_converse(c, m, q, z);
}

/// Encodes the sum, product or difference of `input0` and `input1`, as
/// `selector` says, reduced by the modulus `input2`, which is not zero.
pub fn generate(
    row: &mut Vec<u64>,
    next_row: &mut Vec<u64>,
    selector: usize,
    input0: u32,
    input1: u32,
    input2: u32,
)
    requires
        old(row)@.len() == NUM_ARITH_COLUMNS,
        old(next_row)@.len() == NUM_ARITH_COLUMNS,
        is_modular_selector(selector),
        input2 != 0,
    ensures
        (final(row)@, final(next_row)@) == encoded(
            old(row)@,
            old(next_row)@,
            selector,
            input0,
            input1,
            input2,
        ),
        keeps_selectors(old(row)@, final(row)@),
        keeps_selectors(old(next_row)@, final(next_row)@),
        holds(final(row)@, final(next_row)@, selector),
{
    proof {
        lemma_encoded_holds(row@, next_row@, selector, input0, input1, input2);
        lemma_product_halves(input0, input1);
    }
    write_register(row, INPUT_REGISTER_0, input0);
    write_register(row, INPUT_REGISTER_1, input1);
    write_register(row, INPUT_REGISTER_2, input2);
    let (reduced, lost): (u32, u32) = if selector == IS_ADDMOD {
        (
            BinaryOperator::Add.result(input0, input1),
            if input0 > u32::MAX - input1 {
                1
            } else {
                0
            },
        )
    } else if selector == IS_MULMOD {
        let product: u64 = (input0 as u64) * (input1 as u64);
        (BinaryOperator::Mul.result(input0, input1), (product / 0x1_0000_0000) as u32)
    } else {
        (
            BinaryOperator::Sub.result(input0, input1),
            if input0 < input1 {
                1
            } else {
                0
            },
        )
    };
    write_register(row, OUTPUT_REGISTER, reduced % input2);
    write_register(next_row, COMBINED_REGISTER, reduced);
    write_register(next_row, DROPPED_REGISTER, lost);
    write_register(next_row, QUOTIENT_REGISTER, reduced / input2);
}

} // verus!
