//! The layout of one trace row: which column holds what.
//!
//! A row starts with one selector column per operator. The columns behind the
//! selectors are shared by the operators: three input registers, one output
//! register and two auxiliary registers, each made of `N_LIMBS` limbs of
//! `LIMB_BITS` bits, least significant limb first.

use vstd::prelude::*;

verus! {

/// Bits in one limb of a register.
pub const LIMB_BITS: u32 = 16;

/// Limbs in one register: together they hold one 32-bit operand.
pub const N_LIMBS: usize = 2;

pub const IS_ADD: usize = 0;

pub const IS_MUL: usize = IS_ADD + 1;

pub const IS_SUB: usize = IS_MUL + 1;

pub const IS_DIV: usize = IS_SUB + 1;

pub const IS_MOD: usize = IS_DIV + 1;

pub const IS_ADDMOD: usize = IS_MOD + 1;

pub const IS_MULMOD: usize = IS_ADDMOD + 1;

pub const IS_SUBMOD: usize = IS_MULMOD + 1;

pub const IS_LT: usize = IS_SUBMOD + 1;

pub const IS_GT: usize = IS_LT + 1;

pub const IS_SHL: usize = IS_GT + 1;

pub const IS_SHR: usize = IS_SHL + 1;

/// Number of selector columns; they are the columns `0..NUM_SELECTORS`.
pub const NUM_SELECTORS: usize = IS_SHR + 1;

pub const INPUT_REGISTER_0: usize = NUM_SELECTORS;

pub const INPUT_REGISTER_1: usize = INPUT_REGISTER_0 + N_LIMBS;

pub const INPUT_REGISTER_2: usize = INPUT_REGISTER_1 + N_LIMBS;

pub const OUTPUT_REGISTER: usize = INPUT_REGISTER_2 + N_LIMBS;

pub const AUX_REGISTER_0: usize = OUTPUT_REGISTER + N_LIMBS;

pub const AUX_REGISTER_1: usize = AUX_REGISTER_0 + N_LIMBS;

/// Width of a trace row.
pub const NUM_ARITH_COLUMNS: usize = AUX_REGISTER_1 + N_LIMBS;

/// The field's additive identity, as the value a column holds.
pub const FIELD_ZERO: u64 = 0;

/// The field's multiplicative identity, as the value a column holds.
pub const FIELD_ONE: u64 = 1;

/// Column `c` is one of the selector columns.
pub open spec fn is_selector(c: int) -> bool {
    0 <= c < NUM_SELECTORS
}

/// Column `c` lies in a row.
pub open spec fn is_column(c: int) -> bool {
    0 <= c < NUM_ARITH_COLUMNS
}

/// Every selector column is a column of the row, and the shared registers
/// start where the selectors end.
pub proof fn lemma_selectors_lead_the_row()
    ensures
        NUM_SELECTORS == 12,
        NUM_SELECTORS <= NUM_ARITH_COLUMNS,
        forall|c: int| is_selector(c) ==> is_column(c),
        INPUT_REGISTER_0 == NUM_SELECTORS,
{
}

} // verus!
