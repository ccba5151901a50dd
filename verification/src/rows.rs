//! From an operation to its rows of the trace.
//!
//! A row starts out as zeros. The selector column of the operator is set to
//! the field's one, and the operator's gadget fills the rest. Operators whose
//! encoding needs it get a second row, which follows the first in the trace.

use vstd::prelude::*;
use crate::columns::{is_selector, FIELD_ONE, FIELD_ZERO, NUM_ARITH_COLUMNS};
use crate::gadget::{is_modular_selector, Gadgets};
use crate::operation::{lemma_instruction_determines_operation, Operation};
use crate::operator::BinaryOperator;

verus! {

/// A row of zeros.
pub open spec fn blank_row() -> Seq<u64> {
    Seq::new(NUM_ARITH_COLUMNS as nat, |c: int| FIELD_ZERO)
}

/// A row of zeros but for the column `selector`, which holds the field's one.
pub open spec fn selector_row(selector: usize) -> Seq<u64> {
    blank_row().update(selector as int, FIELD_ONE)
}

/// The row has the width of the trace, and of its selector columns exactly
/// the column `selector` holds the field's one: the others hold zero.
pub open spec fn marks_only(row: Seq<u64>, selector: usize) -> bool {
    &&& row.len() == NUM_ARITH_COLUMNS
    &&& is_selector(selector as int)
    &&& forall|c: int|
        is_selector(c) ==> #[trigger] row[c] == if c == selector {
            FIELD_ONE
        } else {
            FIELD_ZERO
        }
}

/// The row has the width of the trace, and all its selector columns hold zero.
pub open spec fn marks_none(row: Seq<u64>) -> bool {
    &&& row.len() == NUM_ARITH_COLUMNS
    &&& forall|c: int| is_selector(c) ==> #[trigger] row[c] == FIELD_ZERO
}

/// Whether the encoding of the operator takes a second row.
pub open spec fn binary_spans_two_rows(op: BinaryOperator) -> bool {
    op == BinaryOperator::Div || op == BinaryOperator::Mod || op == BinaryOperator::Shr
}

/// The rows of a binary operation: which gadget is asked, with what, and which
/// of the rows it leaves are kept.
pub open spec fn binary_rows<G: Gadgets>(
    gadgets: &G,
    op: BinaryOperator,
    input0: u32,
    input1: u32,
    result: u32,
) -> (Seq<u64>, Option<Seq<u64>>) {
    let row = selector_row(op.selector());
    match op {
        BinaryOperator::Add | BinaryOperator::Sub | BinaryOperator::Lt | BinaryOperator::Gt => (
            gadgets.carry_chain_row(row, op.selector(), input0, input1),
            None,
        ),
        BinaryOperator::Mul => (gadgets.product_row(row, input0, input1), None),
        BinaryOperator::Shl => (
            gadgets.shift_rows(row, blank_row(), true, input0, input1, result).0,
            None,
        ),
        BinaryOperator::Div | BinaryOperator::Mod => {
            let rows = gadgets.div_mod_rows(
                row,
                blank_row(),
                op.selector(),
                input0,
                input1,
                result,
            );
            (rows.0, Some(rows.1))
        },
        BinaryOperator::Shr => {
            let rows = gadgets.shift_rows(row, blank_row(), false, input0, input1, result);
            (rows.0, Some(rows.1))
        },
    }
}

/// The rows of a ternary operation: the modular gadget fills both.
pub open spec fn ternary_rows<G: Gadgets>(
    gadgets: &G,
    row_filter: usize,
    input0: u32,
    input1: u32,
    input2: u32,
) -> (Seq<u64>, Option<Seq<u64>>) {
    let rows = gadgets.modular_rows(
        selector_row(row_filter),
        blank_row(),
        row_filter,
        input0,
        input1,
        input2,
    );
    (rows.0, Some(rows.1))
}

/// The rows as sequences of column values.
pub open spec fn rows_view(rows: (Vec<u64>, Option<Vec<u64>>)) -> (Seq<u64>, Option<Seq<u64>>) {
    (
        rows.0@,
        match rows.1 {
            Some(next_row) => Some(next_row@),
            None => None,
        },
    )
}

impl Operation {
    /// Whether the operation takes two rows of the trace.
    pub open spec fn spans_two_rows(&self) -> bool {
        match *self {
            Operation::BinaryOperation { operator, .. } => binary_spans_two_rows(operator),
            Operation::TernaryOperation { .. } => true,
        }
    }

    /// The rows of the operation.
    pub open spec fn rows<G: Gadgets>(&self, gadgets: &G) -> (Seq<u64>, Option<Seq<u64>>) {
        match *self {
            Operation::BinaryOperation { operator, input0, input1, result } => binary_rows(
                gadgets,
                operator,
                input0,
                input1,
                result,
            ),
            Operation::TernaryOperation { operator, input0, input1, input2, .. } => ternary_rows(
                gadgets,
                operator.selector(),
                input0,
                input1,
                input2,
            ),
        }
    }

    /// Converts the operation into one or two rows of the trace.
    ///
    /// In the first row the selector column of the operator holds the field's
    /// one and every other selector column holds zero. A second row is given
    /// for `Div`, `Mod`, `Shr` and the ternary operators, and for no other; it
    /// follows the first in the trace, and its selector columns hold zero.
    pub fn to_rows<G: Gadgets>(&self, gadgets: &G) -> (rows: (Vec<u64>, Option<Vec<u64>>))
        requires
            self.wf(),
        ensures
            rows_view(rows) == self.rows(gadgets),
            marks_only(rows.0@, self.selector()),
            rows.1.is_some() == self.spans_two_rows(),
            rows.1 matches Some(next_row) ==> marks_none(next_row@),
    {
        match *self {
            Operation::BinaryOperation { operator, input0, input1, result } => binary_op_to_rows(
                gadgets,
                operator,
                input0,
                input1,
                result,
            ),
            Operation::TernaryOperation {
                operator,
                input0,
                input1,
                input2,
                result,
            } => ternary_op_to_rows(
                gadgets,
                operator.row_filter(),
                input0,
                input1,
                input2,
                result,
            ),
        }
    }
}

/// The two rows of a ternary operation whose selector column is `row_filter`.
pub fn ternary_op_to_rows<G: Gadgets>(
    gadgets: &G,
    row_filter: usize,
    input0: u32,
    input1: u32,
    input2: u32,
    _result: u32,
) -> (rows: (Vec<u64>, Option<Vec<u64>>))
    requires
        is_modular_selector(row_filter),
        input2 != 0,
    ensures
        rows_view(rows) == ternary_rows(gadgets, row_filter, input0, input1, input2),
        marks_only(rows.0@, row_filter),
        rows.1 matches Some(next_row) && marks_none(next_row@),
{
    let mut row1 = vec![FIELD_ZERO; NUM_ARITH_COLUMNS];
    let mut row2 = vec![FIELD_ZERO; NUM_ARITH_COLUMNS];
    assert(row1@ =~= blank_row());
    assert(row2@ =~= blank_row());

    row1[row_filter] = FIELD_ONE;

    gadgets.modular(&mut row1, &mut row2, row_filter, input0, input1, input2);

    (row1, Some(row2))
}

/// The row or rows of a binary operation with the given result.
pub fn binary_op_to_rows<G: Gadgets>(
    gadgets: &G,
    op: BinaryOperator,
    input0: u32,
    input1: u32,
    result: u32,
) -> (rows: (Vec<u64>, Option<Vec<u64>>))
    requires
        result == op.value(input0, input1),
    ensures
        rows_view(rows) == binary_rows(gadgets, op, input0, input1, result),
        marks_only(rows.0@, op.selector()),
        rows.1.is_some() == binary_spans_two_rows(op),
        rows.1 matches Some(next_row) ==> marks_none(next_row@),
{
    let mut row = vec![FIELD_ZERO; NUM_ARITH_COLUMNS];
    assert(row@ =~= blank_row());
    row[op.row_filter()] = FIELD_ONE;

    match op {
        BinaryOperator::Add | BinaryOperator::Sub | BinaryOperator::Lt | BinaryOperator::Gt => {
            gadgets.carry_chain(&mut row, op.row_filter(), input0, input1);
            (row, None)
        },
        BinaryOperator::Mul => {
            gadgets.multiply(&mut row, input0, input1);
            (row, None)
        },
        BinaryOperator::Shl => {
            let mut nv = vec![FIELD_ZERO; NUM_ARITH_COLUMNS];
            assert(nv@ =~= blank_row());
            gadgets.shift(&mut row, &mut nv, true, input0, input1, result);
            (row, None)
        },
        BinaryOperator::Div | BinaryOperator::Mod => {
            let mut nv = vec![FIELD_ZERO; NUM_ARITH_COLUMNS];
            assert(nv@ =~= blank_row());
            gadgets.div_mod(&mut row, &mut nv, op.row_filter(), input0, input1, result);
            (row, Some(nv))
        },
        BinaryOperator::Shr => {
            let mut nv = vec![FIELD_ZERO; NUM_ARITH_COLUMNS];
            assert(nv@ =~= blank_row());
            gadgets.shift(&mut row, &mut nv, false, input0, input1, result);
            (row, Some(nv))
        },
    }
}

/// The rows of a well-formed operation are determined by its operator and
/// operands: two operations that agree in these have the same rows, column by
/// column.
pub proof fn lemma_same_instruction_same_rows<G: Gadgets>(gadgets: &G, a: Operation, b: Operation)
    requires
        a.wf(),
        b.wf(),
        a.same_instruction(&b),
    ensures
        a.rows(gadgets) == b.rows(gadgets),
        a.spans_two_rows() == b.spans_two_rows(),
        a.selector() == b.selector(),
{
    lemma_instruction_determines_operation(a, b);
}

} // verus!
