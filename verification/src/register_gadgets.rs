//! The gadgets of this library: operands, results and what ties them
//! together, written into the shared registers as limbs of 16 bits.

use vstd::prelude::*;
use crate::columns::OUTPUT_REGISTER;
use crate::gadget::Gadgets;
use crate::operation::Operation;
use crate::operator::BinaryOperator;
use crate::rows::{blank_row, selector_row};
use crate::utils::register;

verus! {

/// The five gadgets that encode into the shared registers.
#[derive(Clone, Copy, Debug)]
pub struct RegisterGadgets;

impl Gadgets for RegisterGadgets {
    open spec fn carry_chain_row(
        &self,
        row: Seq<u64>,
        selector: usize,
        input0: u32,
        input1: u32,
    ) -> Seq<u64> {
        crate::addcy::encoded(row, selector, input0, input1)
    }

    open spec fn product_row(&self, row: Seq<u64>, input0: u32, input1: u32) -> Seq<u64> {
        crate::mul::encoded(row, input0, input1)
    }

    open spec fn shift_rows(
        &self,
        row: Seq<u64>,
        next_row: Seq<u64>,
        left: bool,
        input0: u32,
        input1: u32,
        result: u32,
    ) -> (Seq<u64>, Seq<u64>) {
        crate::shift::encoded(row, next_row, left, input0, input1)
    }

    open spec fn div_mod_rows(
        &self,
        row: Seq<u64>,
        next_row: Seq<u64>,
        selector: usize,
        input0: u32,
        input1: u32,
        result: u32,
    ) -> (Seq<u64>, Seq<u64>) {
        crate::divmod::encoded(row, next_row, selector, input0, input1)
    }

    open spec fn modular_rows(
        &self,
        row: Seq<u64>,
        next_row: Seq<u64>,
        selector: usize,
        input0: u32,
        input1: u32,
        input2: u32,
    ) -> (Seq<u64>, Seq<u64>) {
        crate::modular::encoded(row, next_row, selector, input0, input1, input2)
    }

    fn carry_chain(&self, row: &mut Vec<u64>, selector: usize, input0: u32, input1: u32)
        ensures
            crate::addcy::holds(final(row)@, selector),
    {
        crate::addcy::generate(row, selector, input0, input1)
    }

    fn multiply(&self, row: &mut Vec<u64>, input0: u32, input1: u32)
        ensures
            crate::mul::holds(final(row)@),
    {
        crate::mul::generate(row, input0, input1)
    }

    fn shift(
        &self,
        row: &mut Vec<u64>,
        next_row: &mut Vec<u64>,
        left: bool,
        input0: u32,
        input1: u32,
        result: u32,
    )
        ensures
            crate::shift::holds(final(row)@, final(next_row)@, left),
    {
        crate::shift::generate(row, next_row, left, input0, input1, result)
    }

    fn div_mod(
        &self,
        row: &mut Vec<u64>,
        next_row: &mut Vec<u64>,
        selector: usize,
        input0: u32,
        input1: u32,
        result: u32,
    )
        ensures
            crate::divmod::holds(final(row)@, final(next_row)@, selector),
    {
        crate::divmod::generate(row, next_row, selector, input0, input1, result)
    }

    fn modular(
        &self,
        row: &mut Vec<u64>,
        next_row: &mut Vec<u64>,
        selector: usize,
        input0: u32,
        input1: u32,
        input2: u32,
    )
        ensures
            crate::modular::holds(final(row)@, final(next_row)@, selector),
    {
        crate::modular::generate(row, next_row, selector, input0, input1, input2)
    }
}

/// The first row that these gadgets give a well-formed operation holds in its
/// output register the result that the operation carries.
pub proof fn lemma_rows_hold_the_result(op: Operation)
    requires
        op.wf(),
    ensures
        register(op.rows(&RegisterGadgets).0, OUTPUT_REGISTER) == op.carried(),
{
    match op {
        Operation::BinaryOperation { operator, input0, input1, result } => {
            let row = selector_row(operator.selector());
            match operator {
                BinaryOperator::Add | BinaryOperator::Sub | BinaryOperator::Lt | BinaryOperator::Gt => {
                    crate::addcy::lemma_encoded_holds(row, operator.selector(), input0, input1);
                },
                BinaryOperator::Mul => {
                    crate::mul::lemma_encoded_holds(row, input0, input1);
                },
                BinaryOperator::Shl => {
                    crate::shift::lemma_encoded_holds(row, blank_row(), true, input0, input1);
                },
                BinaryOperator::Div | BinaryOperator::Mod => {
                    crate::divmod::lemma_encoded_holds(
                        row,
                        blank_row(),
                        operator.selector(),
                        input0,
                        input1,
                    );
                },
                BinaryOperator::Shr => {
                    crate::shift::lemma_encoded_holds(row, blank_row(), false, input0, input1);
                },
            }
        },
        Operation::TernaryOperation { operator, input0, input1, input2, result } => {
            crate::modular::lemma_encoded_holds(
                selector_row(operator.selector()),
                blank_row(),
                operator.selector(),
                input0,
                input1,
                input2,
            );
        },
    }
}

} // verus!
