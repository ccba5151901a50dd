//! The operators and what each computes on 32-bit operands.

use vstd::prelude::*;
use num::Zero;
use crate::columns::{
    IS_ADD, IS_ADDMOD, IS_DIV, IS_GT, IS_LT, IS_MOD, IS_MUL, IS_MULMOD, IS_SHL, IS_SHR, IS_SUB,
    IS_SUBMOD, NUM_SELECTORS,
};

verus! {

/// `num::Zero::zero` on `u32`: the additive identity that it returns is the
/// number 0.
pub assume_specification[ <u32 as Zero>::zero ]() -> (r: u32)
    ensures
        r == 0,
;

/// `num::Zero::is_zero` on `u32`: it returns `true` for the number 0 and for
/// no other.
pub assume_specification[ <u32 as Zero>::is_zero ](x: &u32) -> (r: bool)
    ensures
        r == (*x == 0),
;

/// Number of values a 32-bit operand can take.
pub open spec fn word_modulus() -> int {
    0x1_0000_0000
}

/// An operator on two operands.
#[derive(Clone, Copy, Debug, PartialEq, Eq, Structural)]
pub enum BinaryOperator {
    Add,
    Mul,
    Sub,
    Div,
    Mod,
    Lt,
    Gt,
    Shl,
    Shr,
}

impl BinaryOperator {
    /// What the operator computes, as a number.
    ///
    /// Sums, products and differences are reduced modulo 2^32. A quotient or
    /// remainder by zero is 0. A comparison is 1 where it holds and 0 where it
    /// does not. A shift takes the amount first and the shifted value second;
    /// an amount of 32 or more gives 0.
    pub open spec fn value(self, input0: u32, input1: u32) -> int {
        match self {
            BinaryOperator::Add => (input0 + input1) % word_modulus(),
            BinaryOperator::Mul => (input0 * input1) % word_modulus(),
            BinaryOperator::Sub => (input0 - input1) % word_modulus(),
            BinaryOperator::Div => if input1 == 0 {
                0
            } else {
                input0 as int / input1 as int
            },
            BinaryOperator::Mod => if input1 == 0 {
                0
            } else {
                input0 as int % input1 as int
            },
            BinaryOperator::Lt => if input0 < input1 {
                1
            } else {
                0
            },
            BinaryOperator::Gt => if input0 > input1 {
                1
            } else {
                0
            },
            BinaryOperator::Shl => if input0 < 32 {
                (input1 << input0) as int
            } else {
                0
            },
            BinaryOperator::Shr => if input0 < 32 {
                (input1 >> input0) as int
            } else {
                0
            },
        }
    }

    /// The selector column of the operator.
    pub open spec fn selector(self) -> usize {
        match self {
            BinaryOperator::Add => IS_ADD,
            BinaryOperator::Mul => IS_MUL,
            BinaryOperator::Sub => IS_SUB,
            BinaryOperator::Div => IS_DIV,
            BinaryOperator::Mod => IS_MOD,
            BinaryOperator::Lt => IS_LT,
            BinaryOperator::Gt => IS_GT,
            BinaryOperator::Shl => IS_SHL,
            BinaryOperator::Shr => IS_SHR,
        }
    }

    /// Applies the operator to its operands. Every pair of operands has a
    /// result: nothing overflows, and no divisor or shift amount is refused.
    pub fn result(&self, input0: u32, input1: u32) -> (r: u32)
        ensures
            r == self.value(input0, input1),
            *self == BinaryOperator::Add ==> r == (input0 + input1) % 0x1_0000_0000,
            (*self == BinaryOperator::Div || *self == BinaryOperator::Mod) && input1 == 0 ==> r
                == 0,
            (*self == BinaryOperator::Shl || *self == BinaryOperator::Shr) && input0 >= 32 ==> r
                == 0,
            *self == BinaryOperator::Shl && input0 < 32 ==> r == input1 << input0,
            *self == BinaryOperator::Shr && input0 < 32 ==> r == input1 >> input0,
            (*self == BinaryOperator::Lt || *self == BinaryOperator::Gt) ==> r == 0 || r == 1,
    {
        match self {
            BinaryOperator::Add => input0.wrapping_add(input1),
            BinaryOperator::Mul => input0.wrapping_mul(input1),
            BinaryOperator::Shl => {
                if input0 < 32 {
                    input1 << input0
                } else {
                    u32::zero()
                }
            },
            BinaryOperator::Sub => input0.wrapping_sub(input1),
            BinaryOperator::Div => {
                if input1.is_zero() {
                    u32::zero()
                } else {
                    input0 / input1
                }
            },
            BinaryOperator::Shr => {
                if input0 < 32 {
                    input1 >> input0
                } else {
                    u32::zero()
                }
            },
            BinaryOperator::Mod => {
                if input1.is_zero() {
                    u32::zero()
                } else {
                    input0 % input1
                }
            },
            BinaryOperator::Lt => if input0 < input1 {
                1
            } else {
                0
            },
            BinaryOperator::Gt => if input0 > input1 {
                1
            } else {
                0
            },
        }
    }

    /// The index of the operator's selector column.
    pub fn row_filter(&self) -> (c: usize)
        ensures
            c == self.selector(),
    {
        match self {
            BinaryOperator::Add => IS_ADD,
            BinaryOperator::Mul => IS_MUL,
            BinaryOperator::Sub => IS_SUB,
            BinaryOperator::Div => IS_DIV,
            BinaryOperator::Mod => IS_MOD,
            BinaryOperator::Lt => IS_LT,
            BinaryOperator::Gt => IS_GT,
            BinaryOperator::Shl => IS_SHL,
            BinaryOperator::Shr => IS_SHR,
        }
    }
}

/// An operator on three operands: the first two are combined, the third is
/// the modulus.
#[derive(Clone, Copy, Debug, PartialEq, Eq, Structural)]
pub enum TernaryOperator {
    AddMod,
    MulMod,
    SubMod,
}

impl TernaryOperator {
    /// What the operator computes, as a number: the sum, product or difference
    /// of the first two operands is reduced modulo 2^32 first, and that 32-bit
    /// number is then reduced by the modulus.
    pub open spec fn value(self, input0: u32, input1: u32, input2: u32) -> int {
        match self {
            TernaryOperator::AddMod => ((input0 + input1) % word_modulus()) % (input2 as int),
            TernaryOperator::MulMod => ((input0 * input1) % word_modulus()) % (input2 as int),
            TernaryOperator::SubMod => ((input0 - input1) % word_modulus()) % (input2 as int),
        }
    }

    /// The selector column of the operator.
    pub open spec fn selector(self) -> usize {
        match self {
            TernaryOperator::AddMod => IS_ADDMOD,
            TernaryOperator::MulMod => IS_MULMOD,
            TernaryOperator::SubMod => IS_SUBMOD,
        }
    }

    /// Applies the operator to its operands. The modulus is not zero.
    pub fn result(&self, input0: u32, input1: u32, input2: u32) -> (r: u32)
        requires
            input2 != 0,
        ensures
            r == self.value(input0, input1, input2),
            r < input2,
    {
        match self {
            TernaryOperator::AddMod => input0.wrapping_add(input1) % input2,
            TernaryOperator::MulMod => input0.wrapping_mul(input1) % input2,
            TernaryOperator::SubMod => input0.wrapping_sub(input1) % input2,
        }
    }

    /// The index of the operator's selector column.
    pub fn row_filter(&self) -> (c: usize)
        ensures
            c == self.selector(),
    {
        match self {
            TernaryOperator::AddMod => IS_ADDMOD,
            TernaryOperator::MulMod => IS_MULMOD,
            TernaryOperator::SubMod => IS_SUBMOD,
        }
    }
}

/// A comparison gives 0 or 1. Of two different operands exactly one is less
/// than the other, so exactly one of `Lt` and `Gt` gives 1; of two equal
/// operands neither is, and both give 0.
pub proof fn lemma_comparisons_exclude_each_other(input0: u32, input1: u32)
    ensures
        BinaryOperator::Lt.value(input0, input1) == 0 || BinaryOperator::Lt.value(input0, input1)
            == 1,
        BinaryOperator::Gt.value(input0, input1) == 0 || BinaryOperator::Gt.value(input0, input1)
            == 1,
        input0 != input1 ==> BinaryOperator::Lt.value(input0, input1) + BinaryOperator::Gt.value(
            input0,
            input1,
        ) == 1,
        input0 == input1 ==> BinaryOperator::Lt.value(input0, input1) == 0
            && BinaryOperator::Gt.value(input0, input1) == 0,
        BinaryOperator::Lt.value(input0, input1) == BinaryOperator::Gt.value(input1, input0),
{
}

/// No two operators share a selector column, and every selector column is one
/// of the leading `NUM_SELECTORS` columns.
pub proof fn lemma_selectors_are_distinct(
    a: BinaryOperator,
    b: BinaryOperator,
    s: TernaryOperator,
    t: TernaryOperator,
)
    ensures
        a != b ==> a.selector() != b.selector(),
        s != t ==> s.selector() != t.selector(),
        a.selector() != s.selector(),
        a.selector() < NUM_SELECTORS,
        s.selector() < NUM_SELECTORS,
{
}

} // verus!
