//! Amounts on the wire and at the engine.
//!
//! Callers give amounts in whole units; the engine counts in thousandths of
//! them. Every amount that crosses from a request to an engine call is scaled
//! here, and nowhere else.

use vstd::prelude::*;

verus! {

/// How many engine units make one unit on the wire.
pub const ENGINE_UNITS_PER_UNIT: u64 = 1000;

/// The amount in engine units, as a mathematical integer.
pub open spec fn scaled(amount: u64) -> int {
    amount * 1000
}

/// Whether the scaled amount can be handed to the engine.
pub open spec fn fits(amount: u64) -> bool {
    scaled(amount) <= u64::MAX
}

/// The amount as the engine takes it, where it fits.
pub open spec fn engine_amount(amount: u64) -> Option<u64> {
    if fits(amount) {
        Some(scaled(amount) as u64)
    } else {
        None
    }
}

/// Scales a wire amount to engine units; `None` where the product is more
/// than the engine can be given.
pub fn to_engine_units(amount: u64) -> (r: Option<u64>)
    ensures
        r == engine_amount(amount),
{
    amount.checked_mul(ENGINE_UNITS_PER_UNIT)
}

} // verus!
