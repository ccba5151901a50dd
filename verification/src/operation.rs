//! One operator applied to operands, together with what it computed.

use vstd::prelude::*;
use crate::operator::{BinaryOperator, TernaryOperator};

verus! {

/// An operator with its operands and its result.
///
/// The result is computed once, when the operation is made, and carried along:
/// whoever encodes the operation sees the number that was computed then.
#[allow(inconsistent_fields)]
#[derive(Debug)]
pub enum Operation {
    BinaryOperation { operator: BinaryOperator, input0: u32, input1: u32, result: u32 },
    TernaryOperation {
        operator: TernaryOperator,
        input0: u32,
        input1: u32,
        input2: u32,
        result: u32,
    },
}

impl Operation {
    /// The result that the operation carries is the one its operator computes
    /// on its operands; a modulus is not zero.
    pub open spec fn wf(&self) -> bool {
        match *self {
            Operation::BinaryOperation { operator, input0, input1, result } => result
                == operator.value(input0, input1),
            Operation::TernaryOperation { operator, input0, input1, input2, result } => input2 != 0
                && result == operator.value(input0, input1, input2),
        }
    }

    /// The result that the operation carries.
    pub open spec fn carried(&self) -> u32 {
        match *self {
            Operation::BinaryOperation { result, .. } => result,
            Operation::TernaryOperation { result, .. } => result,
        }
    }

    /// The selector column of the operation's operator.
    pub open spec fn selector(&self) -> usize {
        match *self {
            Operation::BinaryOperation { operator, .. } => operator.selector(),
            Operation::TernaryOperation { operator, .. } => operator.selector(),
        }
    }

    /// Both operations apply the same operator to the same operands.
    pub open spec fn same_instruction(&self, other: &Operation) -> bool {
        match (*self, *other) {
            (
                Operation::BinaryOperation { operator: p, input0: a0, input1: a1, .. },
                Operation::BinaryOperation { operator: q, input0: b0, input1: b1, .. },
            ) => p == q && a0 == b0 && a1 == b1,
            (
                Operation::TernaryOperation { operator: p, input0: a0, input1: a1, input2: a2, .. },
                Operation::TernaryOperation { operator: q, input0: b0, input1: b1, input2: b2, .. },
            ) => p == q && a0 == b0 && a1 == b1 && a2 == b2,
            _ => false,
        }
    }

    /// Makes the operation of a binary operator on two operands.
    ///
    /// A shift takes the amount as its first operand and the value to shift as
    /// its second.
    pub fn binary(operator: BinaryOperator, input0: u32, input1: u32) -> (op: Self)
        ensures
            op == (Operation::BinaryOperation {
                operator,
                input0,
                input1,
                result: operator.value(input0, input1) as u32,
            }),
            op.carried() == operator.value(input0, input1),
            op.wf(),
    {
        let result = operator.result(input0, input1);
        Self::BinaryOperation { operator, input0, input1, result }
    }

    /// Makes the operation of a ternary operator on two operands and a
    /// modulus, which is not zero.
    pub fn ternary(operator: TernaryOperator, input0: u32, input1: u32, input2: u32) -> (op: Self)
        requires
            input2 != 0,
        ensures
            op == (Operation::TernaryOperation {
                operator,
                input0,
                input1,
                input2,
                result: operator.value(input0, input1, input2) as u32,
            }),
            op.carried() == operator.value(input0, input1, input2),
            op.wf(),
    {
        let result = operator.result(input0, input1, input2);
        Self::TernaryOperation { operator, input0, input1, input2, result }
    }

    /// The result computed when the operation was made.
    pub fn result(&self) -> (r: u32)
        ensures
            r == self.carried(),
    {
        match self {
            Operation::BinaryOperation { result, .. } => *result,
            Operation::TernaryOperation { result, .. } => *result,
        }
    }

    /// Whether the carried result is the one the operator computes, and the
    /// modulus, if there is one, is not zero.
    pub fn is_well_formed(&self) -> (b: bool)
        ensures
            b == self.wf(),
    {
        match self {
            Operation::BinaryOperation { operator, input0, input1, result } => *result
                == operator.result(*input0, *input1),
            Operation::TernaryOperation { operator, input0, input1, input2, result } => *input2 != 0
                && *result == operator.result(*input0, *input1, *input2),
        }
    }
}

/// Two well-formed operations with the same operator and operands are the
/// same operation: the result is determined by the instruction.
pub proof fn lemma_instruction_determines_operation(a: Operation, b: Operation)
    requires
        a.wf(),
        b.wf(),
        a.same_instruction(&b),
    ensures
        a == b,
{
}

} // verus!
