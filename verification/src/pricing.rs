use vstd::prelude::*;

verus! {

/// The static price table: the market value assigned to each known skin
/// identifier, and zero for every identifier outside the table.
pub open spec fn spec_price_for_skin(skin_id: u64) -> u64 {
    if skin_id == 1 {
        1000
    } else if skin_id == 2 {
        500
    } else if skin_id == 3 {
        100
    } else {
        0
    }
}

/// Looks up the market value of a skin. A pure, total function with no
/// failure mode: unknown identifiers are valued at zero. Intended as the
/// seed of a future collateral-valuation policy; the borrow path does not
/// consult it yet.
pub fn price_for_skin(skin_id: u64) -> (price: u64)
    ensures
        price == spec_price_for_skin(skin_id),
{
    match skin_id {
        1 => 1000,
        2 => 500,
        3 => 100,
        _ => 0,
    }
}

} // verus!
