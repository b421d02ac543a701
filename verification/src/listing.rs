use vstd::prelude::*;

use crate::errors::ErrorCode;
use crate::identity::Identity;

verus! {

/// The per-item rental record: one per item identity, created by the
/// lister and mutated only by `rent`. Once rented, `is_listed` stays false
/// — there is no re-list or return-on-expiry path, so each record supports
/// exactly one list-then-rent cycle.
#[derive(Clone, Copy, Debug, PartialEq, Eq, Structural)]
pub struct Listing {
    pub owner: Identity,
    pub mint: Identity,
    pub daily_price_usd: u64,
    pub is_listed: bool,
    pub renter: Identity,
    pub rented_until: i64,
}

/// A listing is well formed while it is available: an available listing
/// has no renter.
pub open spec fn listing_inv(l: Listing) -> bool {
    l.is_listed ==> l.renter == Identity::null_spec()
}

/// A freshly created listing: available, unrented, with no expiry set.
pub open spec fn fresh_listing(owner: Identity, mint: Identity, daily_price_usd: u64) -> Listing {
    Listing {
        owner,
        mint,
        daily_price_usd,
        is_listed: true,
        renter: Identity::null_spec(),
        rented_until: 0,
    }
}

/// The number of seconds in `days`, as a mathematical integer.
pub open spec fn rental_seconds(days: u64) -> int {
    days * 86400
}

/// Whether `rent` succeeds: the listing must be available, the second
/// count must fit the unsigned 64-bit range, and the expiry timestamp
/// `now + days * 86400` must fit the signed 64-bit range. Both bounds are
/// over mathematical integers; all the arithmetic on this path is
/// checked.
pub open spec fn rent_ok(l: Listing, days: u64, now: i64) -> bool {
    &&& l.is_listed
    &&& rental_seconds(days) <= u64::MAX
    &&& i64::MIN <= now + rental_seconds(days) <= i64::MAX
}

/// The listing after a successful rental: taken off the market, bound to
/// the renter, with the expiry stamped from the clock reading.
pub open spec fn rented(l: Listing, renter: Identity, days: u64, now: i64) -> Listing
    recommends
        rent_ok(l, days, now),
{
    Listing {
        is_listed: false,
        renter,
        rented_until: (now + rental_seconds(days)) as i64,
        ..l
    }
}

/// Creates the listing record for an item. Create-only semantics: the
/// hosting ledger keys the record by the item's mint identity and rejects
/// the call if a listing for it already exists; this logic itself cannot
/// fail.
pub fn list_for_rent(owner: Identity, mint: Identity, daily_price_usd: u64) -> (l: Listing)
    ensures
        l == fresh_listing(owner, mint, daily_price_usd),
        listing_inv(l),
{
    Listing {
        owner,
        mint,
        daily_price_usd,
        is_listed: true,
        renter: Identity::null(),
        rented_until: 0,
    }
}

/// Rents the item for `days` days starting at clock reading `now`. No
/// payment is collected; the record is simply bound to the renter until
/// the computed expiry. The day count is converted to seconds with checked
/// unsigned multiplication and the expiry is computed with checked signed
/// addition; either bound failing reports `Overflow`.
pub fn rent(renter: Identity, listing: &mut Listing, days: u64, now: i64) -> (r: Result<
    (),
    ErrorCode,
>)
    ensures
        r is Ok <==> rent_ok(*old(listing), days, now),
        r is Ok ==> *final(listing) == rented(*old(listing), renter, days, now),
        r is Err ==> *final(listing) == *old(listing),
        !old(listing).is_listed ==> r == Err::<(), ErrorCode>(ErrorCode::NotListed),
        old(listing).is_listed && !rent_ok(*old(listing), days, now) ==> r == Err::<
            (),
            ErrorCode,
        >(ErrorCode::Overflow),
        r is Ok ==> !final(listing).is_listed && final(listing).renter == renter,
        listing_inv(*old(listing)) ==> listing_inv(*final(listing)),
{
    if !listing.is_listed {
        return Err(ErrorCode::NotListed);
    }
    let seconds: u64 = match days.checked_mul(86400) {
        Some(s) => s,
        None => {
            return Err(ErrorCode::Overflow);
        },
    };
    let expiry: i64 = match now.checked_add_unsigned(seconds) {
        Some(t) => t,
        None => {
            return Err(ErrorCode::Overflow);
        },
    };
    listing.renter = renter;
    listing.rented_until = expiry;
    listing.is_listed = false;
    Ok(())
}

} // verus!
