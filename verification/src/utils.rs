//! Registers: 32-bit numbers held in a row as two limbs of 16 bits.

use vstd::prelude::*;
use crate::columns::{is_selector, NUM_SELECTORS};

verus! {

/// Number of values a limb can take: 2^16.
pub const LIMB_BASE: u32 = 0x1_0000;

/// Number of values a register can take: 2^32.
pub open spec fn register_modulus() -> int {
    0x1_0000_0000
}

/// The register at `base` lies in the row, behind the selector columns.
pub open spec fn is_register(row: Seq<u64>, base: usize) -> bool {
    NUM_SELECTORS <= base && base + 1 < row.len()
}

/// Both limbs of the register at `base` are below 2^16.
pub open spec fn in_range(row: Seq<u64>, base: usize) -> bool {
    row[base as int] < LIMB_BASE && row[base + 1] < LIMB_BASE
}

/// The number that the register at `base` holds: its first limb counts ones,
/// its second counts multiples of 2^16.
pub open spec fn register(row: Seq<u64>, base: usize) -> int {
    row[base as int] + row[base + 1] * LIMB_BASE
}

/// The row with `value` in the register at `base`.
pub open spec fn with_register(row: Seq<u64>, base: usize, value: u32) -> Seq<u64> {
    row.update(base as int, (value % LIMB_BASE) as u64).update(
        base + 1,
        (value / LIMB_BASE) as u64,
    )
}

/// Writes `value` into the register at `base`, least significant limb first.
pub fn write_register(row: &mut Vec<u64>, base: usize, value: u32)
    requires
        is_register(old(row)@, base),
    ensures
        final(row)@ == with_register(old(row)@, base, value),
{
    assert(row@.len() == row.len());
    let high: usize = base + 1;
    row[base] = (value % LIMB_BASE) as u64;
    row[high] = (value / LIMB_BASE) as u64;
}

/// A register that was written holds what was written, in limbs below 2^16.
/// The row keeps its width, and every column outside the register keeps what
/// it held; the selector columns are among them.
pub proof fn lemma_with_register(row: Seq<u64>, base: usize, value: u32)
    requires
        is_register(row, base),
    ensures
        with_register(row, base, value).len() == row.len(),
        register(with_register(row, base, value), base) == value,
        in_range(with_register(row, base, value), base),
        forall|c: int|
            0 <= c < row.len() && c != base && c != base + 1 ==> #[trigger] with_register(
                row,
                base,
                value,
            )[c] == row[c],
        forall|c: int| is_selector(c) ==> #[trigger] with_register(row, base, value)[c] == row[c],
{
}

/// A register whose limbs are below 2^16 holds a number below 2^32.
pub proof fn lemma_register_bound(row: Seq<u64>, base: usize)
    requires
        in_range(row, base),
    ensures
        0 <= register(row, base) < register_modulus(),
{
}

} // verus!
