//! The division gadget: quotient and remainder.
//!
//! Dividend and divisor go into the first two input registers of the row, and
//! the number asked for, quotient or remainder, into its output register. The
//! row that follows holds both: the quotient in its first auxiliary register
//! and the remainder in its second. A division by zero has quotient 0 and
//! remainder 0.

use vstd::prelude::*;
use vstd::arithmetic::div_mod::{lemma_fundamental_div_mod, lemma_fundamental_div_mod_converse};
use crate::columns::{
    AUX_REGISTER_0, AUX_REGISTER_1, INPUT_REGISTER_0, INPUT_REGISTER_1, IS_DIV, NUM_ARITH_COLUMNS,
    OUTPUT_REGISTER,
};
use crate::gadget::{div_mod_value, is_div_mod_selector, keeps_selectors};
use crate::operator::BinaryOperator;
use crate::utils::{in_range, is_register, lemma_with_register, register, with_register, write_register};

verus! {

/// The register of the following row that holds the quotient.
pub const QUOTIENT_REGISTER: usize = AUX_REGISTER_0;

/// The register of the following row that holds the remainder.
pub const REMAINDER_REGISTER: usize = AUX_REGISTER_1;

/// The quotient or the remainder of the division, as `wants_quotient` says.
pub open spec fn answer(wants_quotient: bool, dividend: u32, divisor: u32) -> int {
    if wants_quotient {
        BinaryOperator::Div.value(dividend, divisor)
    } else {
        BinaryOperator::Mod.value(dividend, divisor)
    }
}

/// The two rows with the division of `dividend` by `divisor` written behind
/// the operands: the number asked for in the output register of the row,
/// quotient and remainder in the following row.
pub open spec fn with_division(
    row: Seq<u64>,
    next_row: Seq<u64>,
    wants_quotient: bool,
    dividend: u32,
    divisor: u32,
) -> (Seq<u64>, Seq<u64>) {
    (
        with_register(row, OUTPUT_REGISTER, answer(wants_quotient, dividend, divisor) as u32),
        with_register(
            with_register(
                next_row,
                QUOTIENT_REGISTER,
                BinaryOperator::Div.value(dividend, divisor) as u32,
            ),
            REMAINDER_REGISTER,
            BinaryOperator::Mod.value(dividend, divisor) as u32,
        ),
    )
}

/// The rows that the gadget leaves.
pub open spec fn encoded(
    row: Seq<u64>,
    next_row: Seq<u64>,
    selector: usize,
    input0: u32,
    input1: u32,
) -> (Seq<u64>, Seq<u64>) {
    with_division(
        with_register(with_register(row, INPUT_REGISTER_0, input0), INPUT_REGISTER_1, input1),
        next_row,
        selector == IS_DIV,
        input0,
        input1,
    )
}

/// The relation between the registers of two rows that encode a division of
/// the number in the register at `left` by the number in the register at
/// `right`. With `x` and `y` for these two, `q` for the quotient and `r` for
/// the remainder in the following row: where `y` is not zero,
/// `x = y * q + r` and `r < y`; where `y` is zero, `q = 0` and `r = 0`. The
/// output register holds `q` or `r`, as `wants_quotient` says. All limbs are
/// below 2^16.
pub open spec fn division_holds(
    row: Seq<u64>,
    next_row: Seq<u64>,
    left: usize,
    right: usize,
    wants_quotient: bool,
) -> bool {
    let x = register(row, left);
    let y = register(row, right);
    let z = register(row, OUTPUT_REGISTER);
    let q = register(next_row, QUOTIENT_REGISTER);
    let r = register(next_row, REMAINDER_REGISTER);
    &&& row.len() == NUM_ARITH_COLUMNS
    &&& next_row.len() == NUM_ARITH_COLUMNS
    &&& in_range(row, left)
    &&& in_range(row, right)
    &&& in_range(row, OUTPUT_REGISTER)
    &&& in_range(next_row, QUOTIENT_REGISTER)
    &&& in_range(next_row, REMAINDER_REGISTER)
    &&& y != 0 ==> x == y * q + r && r < y
    &&& y == 0 ==> q == 0 && r == 0
    &&& z == if wants_quotient {
        q
    } else {
        r
    }
}

/// The relation of the division gadget: the division relation on the first
/// two input registers.
pub open spec fn holds(row: Seq<u64>, next_row: Seq<u64>, selector: usize) -> bool {
    division_holds(row, next_row, INPUT_REGISTER_0, INPUT_REGISTER_1, selector == IS_DIV)
}

/// Writing the division behind operands that stand in two input registers
/// gives rows that satisfy the division relation on these registers. In the
/// row only the output register changes; in the following row only the
/// quotient and the remainder register.
pub proof fn lemma_with_division_holds(
    row: Seq<u64>,
    next_row: Seq<u64>,
    left: usize,
    right: usize,
    wants_quotient: bool,
    dividend: u32,
    divisor: u32,
)
    requires
        row.len() == NUM_ARITH_COLUMNS,
        next_row.len() == NUM_ARITH_COLUMNS,
        is_register(row, left),
        is_register(row, right),
        left + 1 < OUTPUT_REGISTER,
        right + 1 < OUTPUT_REGISTER,
        in_range(row, left),
        in_range(row, right),
        register(row, left) == dividend,
        register(row, right) == divisor,
    ensures
        division_holds(
            with_division(row, next_row, wants_quotient, dividend, divisor).0,
            with_division(row, next_row, wants_quotient, dividend, divisor).1,
            left,
            right,
            wants_quotient,
        ),
        keeps_selectors(row, with_division(row, next_row, wants_quotient, dividend, divisor).0),
        keeps_selectors(
            next_row,
            with_division(row, next_row, wants_quotient, dividend, divisor).1,
        ),
        register(
            with_division(row, next_row, wants_quotient, dividend, divisor).0,
            OUTPUT_REGISTER,
        ) == answer(wants_quotient, dividend, divisor),
        forall|c: int|
            0 <= c < OUTPUT_REGISTER ==> #[trigger] with_division(
                row,
                next_row,
                wants_quotient,
                dividend,
                divisor,
            ).0[c] == row[c],
{
    let quotient = BinaryOperator::Div.value(dividend, divisor) as u32;
    let remainder = BinaryOperator::Mod.value(dividend, divisor) as u32;
    let n1 = with_register(next_row, QUOTIENT_REGISTER, quotient);
    lemma_with_register(row, OUTPUT_REGISTER, answer(wants_quotient, dividend, divisor) as u32);
    lemma_with_register(next_row, QUOTIENT_REGISTER, quotient);
    lemma_with_register(n1, REMAINDER_REGISTER, remainder);
    if divisor != 0 {
        lemma_fundamental_div_mod(dividend as int, divisor as int);
    }
}

/// The rows that the gadget leaves satisfy the gadget's relation, hold the
/// operands and the number asked for, and have the selector columns of the
/// rows that the gadget was given.
pub proof fn lemma_encoded_holds(
    row: Seq<u64>,
    next_row: Seq<u64>,
    selector: usize,
    input0: u32,
    input1: u32,
)
    requires
        row.len() == NUM_ARITH_COLUMNS,
        next_row.len() == NUM_ARITH_COLUMNS,
        is_div_mod_selector(selector),
    ensures
        holds(
            encoded(row, next_row, selector, input0, input1).0,
            encoded(row, next_row, selector, input0, input1).1,
            selector,
        ),
        keeps_selectors(row, encoded(row, next_row, selector, input0, input1).0),
        keeps_selectors(next_row, encoded(row, next_row, selector, input0, input1).1),
        register(encoded(row, next_row, selector, input0, input1).0, INPUT_REGISTER_0) == input0,
        register(encoded(row, next_row, selector, input0, input1).0, INPUT_REGISTER_1) == input1,
        register(encoded(row, next_row, selector, input0, input1).0, OUTPUT_REGISTER)
            == div_mod_value(selector, input0, input1),
{
    let r1 = with_register(row, INPUT_REGISTER_0, input0);
    let r2 = with_register(r1, INPUT_REGISTER_1, input1);
    lemma_with_register(row, INPUT_REGISTER_0, input0);
    lemma_with_register(r1, INPUT_REGISTER_1, input1);
    lemma_with_division_holds(
        r2,
        next_row,
        INPUT_REGISTER_0,
        INPUT_REGISTER_1,
        selector == IS_DIV,
        input0,
        input1,
    );
}

/// Rows that satisfy the division relation hold in the output register the
/// quotient or the remainder of the numbers in the two input registers, with
/// 0 for both where the divisor is zero.
pub proof fn lemma_holds_is_sound(
    row: Seq<u64>,
    next_row: Seq<u64>,
    left: usize,
    right: usize,
    wants_quotient: bool,
)
    requires
        division_holds(row, next_row, left, right, wants_quotient),
    ensures
        register(row, OUTPUT_REGISTER) == answer(
            wants_quotient,
            register(row, left) as u32,
            register(row, right) as u32,
        ),
{
    let x = register(row, left);
    let y = register(row, right);
    let q = register(next_row, QUOTIENT_REGISTER);
    let r = register(next_row, REMAINDER_REGISTER);
    if y != 0 {
        lemma_fundamental_div_mod_converse(x, y, q, r);
    }
}

/// Writes the division of `dividend` by `divisor` behind the operands:
/// `result`, which is the number asked for, into the output register of the
/// row, quotient and remainder into the following row.
pub fn generate_divmod(
    row: &mut Vec<u64>,
    next_row: &mut Vec<u64>,
    wants_quotient: bool,
    dividend: u32,
    divisor: u32,
    result: u32,
)
    requires
        old(row)@.len() == NUM_ARITH_COLUMNS,
        old(next_row)@.len() == NUM_ARITH_COLUMNS,
        result == answer(wants_quotient, dividend, divisor),
    ensures
        (final(row)@, final(next_row)@) == with_division(
            old(row)@,
            old(next_row)@,
            wants_quotient,
            dividend,
            divisor,
        ),
{
    let quotient = BinaryOperator::Div.result(dividend, divisor);
    let remainder = BinaryOperator::Mod.result(dividend, divisor);
    write_register(row, OUTPUT_REGISTER, result);
    write_register(next_row, QUOTIENT_REGISTER, quotient);
    write_register(next_row, REMAINDER_REGISTER, remainder);
}

/// Encodes the division of `input0` by `input1`; `selector` says whether the
/// quotient or the remainder is asked for, and `result` is that number.
pub fn generate(
    row: &mut Vec<u64>,
    next_row: &mut Vec<u64>,
    selector: usize,
    input0: u32,
    input1: u32,
    result: u32,
)
    requires
        old(row)@.len() == NUM_ARITH_COLUMNS,
        old(next_row)@.len() == NUM_ARITH_COLUMNS,
        is_div_mod_selector(selector),
        result == div_mod_value(selector, input0, input1),
    ensures
        (final(row)@, final(next_row)@) == encoded(
            old(row)@,
            old(next_row)@,
            selector,
            input0,
            input1,
        ),
        keeps_selectors(old(row)@, final(row)@),
        keeps_selectors(old(next_row)@, final(next_row)@),
        holds(final(row)@, final(next_row)@, selector),
{
    proof {
        lemma_encoded_holds(row@, next_row@, selector, input0, input1);
    }
    write_register(row, INPUT_REGISTER_0, input0);
    write_register(row, INPUT_REGISTER_1, input1);
    generate_divmod(row, next_row, selector == IS_DIV, input0, input1, result);
}

} // verus!
