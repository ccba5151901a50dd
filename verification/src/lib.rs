//! Translation of arithmetic operations into rows of an execution trace.
//!
//! An operation is a 32-bit operator applied to 32-bit operands. Its trace
//! rows are vectors of field elements: one selector column marks the operator,
//! and the columns behind the selectors are filled by the operator's gadget.

pub mod columns;
pub mod operator;
pub mod operation;
pub mod gadget;
pub mod rows;
pub mod utils;
pub mod addcy;
pub mod mul;
pub mod divmod;
pub mod shift;
pub mod modular;
pub mod register_gadgets;
