//! The encoding procedures that fill the columns behind the selectors.
//!
//! The translation of an operation into rows chooses a gadget and hands it the
//! rows and the operands. What a gadget writes is its own business, within
//! the bounds that this module states: it keeps the width of a row, it leaves
//! the selector columns as it found them, and what it leaves is a function of
//! what it was given.

use vstd::prelude::*;
use crate::columns::{
    is_selector, IS_ADD, IS_ADDMOD, IS_DIV, IS_GT, IS_LT, IS_MOD, IS_MULMOD, IS_SUB, IS_SUBMOD,
    NUM_ARITH_COLUMNS,
};
use crate::operator::BinaryOperator;

verus! {

/// `after` is as wide as `before` and holds in every selector column what
/// `before` holds there.
pub open spec fn keeps_selectors(before: Seq<u64>, after: Seq<u64>) -> bool {
    &&& after.len() == before.len()
    &&& forall|c: int| is_selector(c) ==> #[trigger] after[c] == before[c]
}

/// The selector of an operator that the carry/borrow-chain gadget encodes.
pub open spec fn is_carry_chain_selector(selector: usize) -> bool {
    selector == IS_ADD || selector == IS_SUB || selector == IS_LT || selector == IS_GT
}

/// The selector of an operator that the division gadget encodes.
pub open spec fn is_div_mod_selector(selector: usize) -> bool {
    selector == IS_DIV || selector == IS_MOD
}

/// The selector of an operator that the modular gadget encodes.
pub open spec fn is_modular_selector(selector: usize) -> bool {
    selector == IS_ADDMOD || selector == IS_MULMOD || selector == IS_SUBMOD
}

/// The result of the shift that the shift gadget is asked to encode.
pub open spec fn shift_value(left: bool, input0: u32, input1: u32) -> int {
    if left {
        BinaryOperator::Shl.value(input0, input1)
    } else {
        BinaryOperator::Shr.value(input0, input1)
    }
}

/// The result of the division that the division gadget is asked to encode.
pub open spec fn div_mod_value(selector: usize, input0: u32, input1: u32) -> int {
    if selector == IS_DIV {
        BinaryOperator::Div.value(input0, input1)
    } else {
        BinaryOperator::Mod.value(input0, input1)
    }
}

/// The five gadgets of a constraint system.
///
/// Each is handed rows of `NUM_ARITH_COLUMNS` columns and fills the columns
/// that belong to its operator. A gadget of two rows gets the row and the row
/// that follows it in the trace. An implementation says, for each gadget, what
/// rows it leaves as a function of the rows and operands it was given.
pub trait Gadgets {
    /// The row that `carry_chain` leaves.
    spec fn carry_chain_row(&self, row: Seq<u64>, selector: usize, input0: u32, input1: u32) -> Seq<
        u64,
    >;

    /// The row that `multiply` leaves.
    spec fn product_row(&self, row: Seq<u64>, input0: u32, input1: u32) -> Seq<u64>;

    /// The rows that `shift` leaves.
    spec fn shift_rows(
        &self,
        row: Seq<u64>,
        next_row: Seq<u64>,
        left: bool,
        input0: u32,
        input1: u32,
        result: u32,
    ) -> (Seq<u64>, Seq<u64>);

    /// The rows that `div_mod` leaves.
    spec fn div_mod_rows(
        &self,
        row: Seq<u64>,
        next_row: Seq<u64>,
        selector: usize,
        input0: u32,
        input1: u32,
        result: u32,
    ) -> (Seq<u64>, Seq<u64>);

    /// The rows that `modular` leaves.
    spec fn modular_rows(
        &self,
        row: Seq<u64>,
        next_row: Seq<u64>,
        selector: usize,
        input0: u32,
        input1: u32,
        input2: u32,
    ) -> (Seq<u64>, Seq<u64>);

    /// Encodes an addition, a subtraction or a comparison of `input0` and
    /// `input1`; `selector` says which.
    fn carry_chain(&self, row: &mut Vec<u64>, selector: usize, input0: u32, input1: u32)
        requires
            old(row)@.len() == NUM_ARITH_COLUMNS,
            is_carry_chain_selector(selector),
        ensures
            final(row)@ == self.carry_chain_row(old(row)@, selector, input0, input1),
            keeps_selectors(old(row)@, final(row)@),
    ;

    /// Encodes the product of `input0` and `input1`.
    fn multiply(&self, row: &mut Vec<u64>, input0: u32, input1: u32)
        requires
            old(row)@.len() == NUM_ARITH_COLUMNS,
        ensures
            final(row)@ == self.product_row(old(row)@, input0, input1),
            keeps_selectors(old(row)@, final(row)@),
    ;

    /// Encodes the shift of `input1` by `input0` bits, to the left if `left`
    /// and to the right if not; `result` is what the shift gives.
    fn shift(
        &self,
        row: &mut Vec<u64>,
        next_row: &mut Vec<u64>,
        left: bool,
        input0: u32,
        input1: u32,
        result: u32,
    )
        requires
            old(row)@.len() == NUM_ARITH_COLUMNS,
            old(next_row)@.len() == NUM_ARITH_COLUMNS,
            result == shift_value(left, input0, input1),
        ensures
            (final(row)@, final(next_row)@) == self.shift_rows(
                old(row)@,
                old(next_row)@,
                left,
                input0,
                input1,
                result,
            ),
            keeps_selectors(old(row)@, final(row)@),
            keeps_selectors(old(next_row)@, final(next_row)@),
    ;

    /// Encodes the division of `input0` by `input1`; `selector` says whether
    /// the quotient or the remainder is asked for, and `result` is that
    /// number. The divisor may be zero.
    fn div_mod(
        &self,
        row: &mut Vec<u64>,
        next_row: &mut Vec<u64>,
        selector: usize,
        input0: u32,
        input1: u32,
        result: u32,
    )
        requires
            old(row)@.len() == NUM_ARITH_COLUMNS,
            old(next_row)@.len() == NUM_ARITH_COLUMNS,
            is_div_mod_selector(selector),
            result == div_mod_value(selector, input0, input1),
        ensures
            (final(row)@, final(next_row)@) == self.div_mod_rows(
                old(row)@,
                old(next_row)@,
                selector,
                input0,
                input1,
                result,
            ),
            keeps_selectors(old(row)@, final(row)@),
            keeps_selectors(old(next_row)@, final(next_row)@),
    ;

    /// Encodes the sum, product or difference of `input0` and `input1`,
    /// reduced by the modulus `input2`, which is not zero; `selector` says
    /// which of the three.
    fn modular(
        &self,
        row: &mut Vec<u64>,
        next_row: &mut Vec<u64>,
        selector: usize,
        input0: u32,
        input1: u32,
        input2: u32,
    )
        requires
            old(row)@.len() == NUM_ARITH_COLUMNS,
            old(next_row)@.len() == NUM_ARITH_COLUMNS,
            is_modular_selector(selector),
            input2 != 0,
        ensures
            (final(row)@, final(next_row)@) == self.modular_rows(
                old(row)@,
                old(next_row)@,
                selector,
                input0,
                input1,
                input2,
            ),
            keeps_selectors(old(row)@, final(row)@),
            keeps_selectors(old(next_row)@, final(next_row)@),
    ;
}

} // verus!
