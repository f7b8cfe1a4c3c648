//! Properties that relate the operations of the ledger, stated over the
//! spec functions that the operations' own contracts use.
use vstd::prelude::*;
use crate::engine::{
    extend_result, listing_released, listing_rented, listing_verified, pay_rent_result, rent_paid, rent_result,
    rental_adjusted, rental_extended, rental_renewed, rental_terminated, rental_transferred,
    terminate_result, transfer_result, MAX_EXTENSION_DAYS,
};
use crate::oracle::{band_of, price_accepted, tier_of, PRICE_SCALE};
use crate::types::{
    FundTransfer, Listing, PaymentMethod, Pubkey, Rental, RentalError, RentalExtended,
    RentalStatus, RentalTransferred,
};

verus! {

/// The rental recorded at `rk` is an active rental of the listing at `key`.
pub open spec fn holds_active(rentals: Map<Pubkey, Rental>, key: Pubkey, rk: Pubkey) -> bool {
    &&& rentals.contains_key(rk)
    &&& rentals[rk].listing == key
    &&& rentals[rk].status == RentalStatus::Active
}

/// Listing availability agrees with the rentals: a listing is available
/// exactly when no active rental refers to it, and at most one active rental
/// refers to any listing.
pub open spec fn availability_consistent(
    listings: Map<Pubkey, Listing>,
    rentals: Map<Pubkey, Rental>,
) -> bool {
    &&& forall|key: Pubkey| #[trigger]
        listings.contains_key(key) ==> (listings[key].is_available <==> !exists|rk: Pubkey|
            holds_active(rentals, key, rk))
    &&& forall|key: Pubkey, rk1: Pubkey, rk2: Pubkey|
        #[trigger] holds_active(rentals, key, rk1) && #[trigger] holds_active(rentals, key, rk2)
            ==> rk1 == rk2
}

/// An empty ledger is consistent.
pub proof fn law_empty_ledger_is_consistent()
    ensures
        availability_consistent(Map::<Pubkey, Listing>::empty(), Map::<Pubkey, Rental>::empty()),
{
}

/// Marking a recorded listing verified keeps availability consistent.
pub proof fn law_verification_keeps_availability(
    listings: Map<Pubkey, Listing>,
    rentals: Map<Pubkey, Rental>,
    key: Pubkey,
    now: i64,
)
    requires
        availability_consistent(listings, rentals),
        listings.contains_key(key),
    ensures
        availability_consistent(listings.insert(key, listing_verified(listings[key], now)), rentals),
{
}

/// Registering a new, available listing at an address that no active rental
/// refers to keeps availability consistent.
pub proof fn law_registration_keeps_availability(
    listings: Map<Pubkey, Listing>,
    rentals: Map<Pubkey, Rental>,
    key: Pubkey,
    listing: Listing,
)
    requires
        availability_consistent(listings, rentals),
        listing.is_available,
        forall|rk: Pubkey| !holds_active(rentals, key, rk),
    ensures
        availability_consistent(listings.insert(key, listing), rentals),
{
}

/// Opening a rental on a listing, recorded at a fresh address, keeps
/// availability consistent.
pub proof fn law_rental_opening_keeps_availability(
    listings: Map<Pubkey, Listing>,
    rentals: Map<Pubkey, Rental>,
    key: Pubkey,
    rk: Pubkey,
    tenant: Pubkey,
    tenant_balance: u64,
    method: PaymentMethod,
    rental_id: u64,
    bump: u8,
    now: i64,
)
    requires
        availability_consistent(listings, rentals),
        listings.contains_key(key),
        !rentals.contains_key(rk),
        rent_result(listings[key], key, tenant, tenant_balance, method, rental_id, bump, now) is Ok,
    ensures
        availability_consistent(
            listings.insert(key, listing_rented(listings[key], now)),
            rentals.insert(
                rk,
                rent_result(
                    listings[key],
                    key,
                    tenant,
                    tenant_balance,
                    method,
                    rental_id,
                    bump,
                    now,
                )->Ok_0.0,
            ),
        ),
{
    let rental = rent_result(
        listings[key],
        key,
        tenant,
        tenant_balance,
        method,
        rental_id,
        bump,
        now,
    )->Ok_0.0;
    let l2 = listings.insert(key, listing_rented(listings[key], now));
    let r2 = rentals.insert(rk, rental);
    assert(holds_active(r2, key, rk));
    assert forall|k: Pubkey, x: Pubkey| #[trigger]
        holds_active(r2, k, x) <==> (holds_active(rentals, k, x) || (k == key && x == rk)) by {}
    assert forall|k: Pubkey| #[trigger]
        l2.contains_key(k) implies (l2[k].is_available <==> !exists|x: Pubkey|
            holds_active(r2, k, x)) by {
        if k == key {
            assert(holds_active(r2, k, rk));
        } else {
            if exists|x: Pubkey| holds_active(r2, k, x) {
                let x = choose|x: Pubkey| holds_active(r2, k, x);
                assert(holds_active(rentals, k, x));
            }
            if exists|x: Pubkey| holds_active(rentals, k, x) {
                let x = choose|x: Pubkey| holds_active(rentals, k, x);
                assert(holds_active(r2, k, x));
            }
        }
    }
}

/// Terminating an active rental of a recorded listing keeps availability
/// consistent.
pub proof fn law_termination_keeps_availability(
    listings: Map<Pubkey, Listing>,
    rentals: Map<Pubkey, Rental>,
    rk: Pubkey,
    caller: Pubkey,
    now: i64,
)
    requires
        availability_consistent(listings, rentals),
        rentals.contains_key(rk),
        listings.contains_key(rentals[rk].listing),
        terminate_result(rentals[rk], caller, now) is Ok,
    ensures
        availability_consistent(
            listings.insert(
                rentals[rk].listing,
                listing_released(listings[rentals[rk].listing], now),
            ),
            rentals.insert(rk, rental_terminated(rentals[rk], now)),
        ),
{
    let key = rentals[rk].listing;
    let l2 = listings.insert(key, listing_released(listings[key], now));
    let r2 = rentals.insert(rk, rental_terminated(rentals[rk], now));
    assert(holds_active(rentals, key, rk));
    assert forall|k: Pubkey, x: Pubkey| #[trigger]
        holds_active(r2, k, x) <==> (holds_active(rentals, k, x) && x != rk) by {}
    assert forall|k: Pubkey| #[trigger]
        l2.contains_key(k) implies (l2[k].is_available <==> !exists|x: Pubkey|
            holds_active(r2, k, x)) by {
        if k == key {
            if exists|x: Pubkey| holds_active(r2, k, x) {
                let x = choose|x: Pubkey| holds_active(r2, k, x);
                assert(holds_active(rentals, key, x));
            }
        } else {
            if exists|x: Pubkey| holds_active(rentals, k, x) {
                let x = choose|x: Pubkey| holds_active(rentals, k, x);
                assert(holds_active(r2, k, x));
            }
        }
    }
}

proof fn lemma_same_listing_and_status_keeps_availability(
    listings: Map<Pubkey, Listing>,
    rentals: Map<Pubkey, Rental>,
    rk: Pubkey,
    updated: Rental,
)
    requires
        availability_consistent(listings, rentals),
        rentals.contains_key(rk),
        updated.listing == rentals[rk].listing,
        updated.status == rentals[rk].status,
    ensures
        availability_consistent(listings, rentals.insert(rk, updated)),
{
    let r2 = rentals.insert(rk, updated);
    assert forall|k: Pubkey, x: Pubkey| #[trigger]
        holds_active(r2, k, x) <==> holds_active(rentals, k, x) by {}
    assert forall|k: Pubkey| #[trigger]
        listings.contains_key(k) implies (listings[k].is_available <==> !exists|x: Pubkey|
            holds_active(r2, k, x)) by {
        if exists|x: Pubkey| holds_active(r2, k, x) {
            let x = choose|x: Pubkey| holds_active(r2, k, x);
            assert(holds_active(rentals, k, x));
        }
        if exists|x: Pubkey| holds_active(rentals, k, x) {
            let x = choose|x: Pubkey| holds_active(rentals, k, x);
            assert(holds_active(r2, k, x));
        }
    }
}

/// Paying rent, adjusting, renewing, transferring and extending a rental
/// each keep availability consistent: none of them changes which listing a
/// rental refers to or whether it is active.
pub proof fn law_in_place_updates_keep_availability(
    listings: Map<Pubkey, Listing>,
    rentals: Map<Pubkey, Rental>,
    rk: Pubkey,
    new_price: u64,
    new_end_date: i64,
    months: u8,
    new_tenant: Pubkey,
    days: u8,
    now: i64,
)
    requires
        availability_consistent(listings, rentals),
        rentals.contains_key(rk),
    ensures
        availability_consistent(listings, rentals.insert(rk, rent_paid(rentals[rk], now))),
        availability_consistent(
            listings,
            rentals.insert(rk, rental_adjusted(rentals[rk], new_price, new_end_date, now)),
        ),
        availability_consistent(
            listings,
            rentals.insert(rk, rental_renewed(rentals[rk], months, new_price, now)),
        ),
        availability_consistent(
            listings,
            rentals.insert(rk, rental_transferred(rentals[rk], new_tenant)),
        ),
        availability_consistent(
            listings,
            rentals.insert(rk, rental_extended(rentals[rk], days, now)),
        ),
{
    let r = rentals[rk];
    lemma_same_listing_and_status_keeps_availability(listings, rentals, rk, rent_paid(r, now));
    lemma_same_listing_and_status_keeps_availability(
        listings,
        rentals,
        rk,
        rental_adjusted(r, new_price, new_end_date, now),
    );
    lemma_same_listing_and_status_keeps_availability(
        listings,
        rentals,
        rk,
        rental_renewed(r, months, new_price, now),
    );
    lemma_same_listing_and_status_keeps_availability(
        listings,
        rentals,
        rk,
        rental_transferred(r, new_tenant),
    );
    lemma_same_listing_and_status_keeps_availability(
        listings,
        rentals,
        rk,
        rental_extended(r, days, now),
    );
}

/// Renting a listing that is not available is refused, whatever the
/// tenant's balance.
pub proof fn law_unavailable_listing_refuses_rental(
    listing: Listing,
    listing_key: Pubkey,
    tenant: Pubkey,
    tenant_balance: u64,
    method: PaymentMethod,
    rental_id: u64,
    bump: u8,
    now: i64,
)
    requires
        !listing.is_available,
    ensures
        rent_result(listing, listing_key, tenant, tenant_balance, method, rental_id, bump, now)
            == Err::<(Rental, FundTransfer), RentalError>(RentalError::PropertyNotAvailable),
{
}

/// Every accepted price lies in its location's band; both ends of the band
/// are accepted, and one unit beyond either end is refused.
pub proof fn law_price_band_edges(price: u64, location: Seq<char>)
    ensures
        price_accepted(price as int, location) ==> band_of(tier_of(location)).0 * PRICE_SCALE
            <= price <= band_of(tier_of(location)).1 * PRICE_SCALE,
        price_accepted(band_of(tier_of(location)).0 * PRICE_SCALE, location),
        price_accepted(band_of(tier_of(location)).1 * PRICE_SCALE, location),
        !price_accepted(band_of(tier_of(location)).0 * PRICE_SCALE - 1, location),
        !price_accepted(band_of(tier_of(location)).1 * PRICE_SCALE + 1, location),
{
}

/// A payment in the rental's own currency before its due date is refused as
/// not due; at or after it, with enough balance, it succeeds and moves the
/// due date on by exactly 2,592,000 seconds.
pub proof fn law_rent_due_schedule(
    rental: Rental,
    tenant_balance: u64,
    now: i64,
)
    requires
        rental.status == RentalStatus::Active,
        rental.next_payment_date + 2592000 <= i64::MAX,
    ensures
        now < rental.next_payment_date ==> pay_rent_result(
            rental,
            rental.payment_method,
            tenant_balance,
            now,
        ) == Err::<FundTransfer, RentalError>(RentalError::PaymentNotDue),
        now >= rental.next_payment_date && tenant_balance >= rental.price ==> {
            &&& pay_rent_result(rental, rental.payment_method, tenant_balance, now) is Ok
            &&& rent_paid(rental, now).next_payment_date == rental.next_payment_date + 2592000
        },
{
}

/// A tenant ending an active rental of someone else's property moves no
/// funds; the rental ends terminated and the listing available.
pub proof fn law_tenant_termination_moves_nothing(rental: Rental, listing: Listing, now: i64)
    requires
        rental.status == RentalStatus::Active,
        rental.tenant != rental.landlord,
    ensures
        terminate_result(rental, rental.tenant, now) == Ok::<Option<FundTransfer>, RentalError>(
            None,
        ),
        rental_terminated(rental, now).status == RentalStatus::Terminated,
        listing_released(listing, now).is_available,
{
}

/// The tenant of an active rental cannot transfer it to themself; a
/// transfer to anyone else succeeds and changes the tenant and nothing else.
pub proof fn law_transfer_changes_only_tenant(
    rental: Rental,
    rental_key: Pubkey,
    new_tenant: Pubkey,
    transfer_fee: u64,
    now: i64,
)
    requires
        rental.status == RentalStatus::Active,
    ensures
        transfer_result(rental, rental_key, rental.tenant, rental.tenant, transfer_fee, now)
            == Err::<RentalTransferred, RentalError>(RentalError::InvalidTransfer),
        new_tenant != rental.tenant ==> transfer_result(
            rental,
            rental_key,
            rental.tenant,
            new_tenant,
            transfer_fee,
            now,
        ) is Ok,
        rental_transferred(rental, new_tenant) == (Rental { tenant: new_tenant, ..rental }),
        new_tenant != rental.tenant ==> rental_transferred(rental, new_tenant) != rental,
{
}

/// Extensions of 0 or 61 days are refused; one of 60 days succeeds and adds
/// exactly 5,184,000 seconds to the end date.
pub proof fn law_extension_limits(rental: Rental, rental_key: Pubkey, reason: String, now: i64)
    requires
        rental.status == RentalStatus::Active,
        rental.end_date + 5184000 <= i64::MAX,
    ensures
        extend_result(rental, rental_key, rental.tenant, 0, reason, now) == Err::<
            RentalExtended,
            RentalError,
        >(RentalError::InvalidExtension),
        extend_result(rental, rental_key, rental.tenant, 61, reason, now) == Err::<
            RentalExtended,
            RentalError,
        >(RentalError::InvalidExtension),
        extend_result(rental, rental_key, rental.tenant, MAX_EXTENSION_DAYS, reason, now) is Ok,
        rental_extended(rental, MAX_EXTENSION_DAYS, now).end_date == rental.end_date + 5184000,
{
}

} // verus!
