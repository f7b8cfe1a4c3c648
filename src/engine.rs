//! The rental lifecycle engine: listing registration, rental creation, rent
//! collection, termination with refund arithmetic, and the modify-in-place
//! operations (adjust, renew, transfer, extend).
//!
//! Every operation either returns `Ok` with all record changes applied, or
//! returns `Err` and leaves every record it was handed unchanged.
use vstd::prelude::*;
use crate::oracle::{validation_of, OracleError, OracleValidator};
use crate::types::{
    FundTransfer, Listing, PaymentMethod, Platform, Pubkey, Rental, RentalAdjusted, RentalError,
    RentalExtended, RentalRenewed, RentalStatus, RentalTransferred, SECONDS_PER_DAY,
    SECONDS_PER_MONTH,
};

verus! {

/// Adds `amount` to an aggregate counter, saturating at `u64::MAX`.
pub open spec fn counter_add(counter: u64, amount: int) -> u64 {
    if counter + amount > u64::MAX {
        u64::MAX
    } else {
        (counter + amount) as u64
    }
}

fn saturating_counter_add(counter: u64, amount: u128) -> (r: u64)
    ensures
        r == counter_add(counter, amount as int),
{
    if amount > (u64::MAX - counter) as u128 {
        u64::MAX
    } else {
        counter + amount as u64
    }
}

/// A fresh platform aggregate owned by `authority`, all counters zero.
pub fn initialize(authority: Pubkey, bump: u8) -> (r: Platform)
    ensures
        r == (Platform {
            authority,
            bump,
            total_listings: 0,
            total_rentals: 0,
            total_volume: 0,
        }),
{
    Platform { authority, bump, total_listings: 0, total_rentals: 0, total_volume: 0 }
}

/// Registers a listing after it passes the validation gate. The listing
/// takes the next sequential id, starts available and unverified, and the
/// platform's listing count grows by one.
pub fn create_listing(
    platform: &mut Platform,
    authority: Pubkey,
    bump: u8,
    title: String,
    description: String,
    location: String,
    price: u64,
    deposit: u64,
    size: u32,
    rooms: u8,
    bathrooms: u8,
    floor: u8,
    total_floors: u8,
    contract_length: u8,
    move_in_date: i64,
    amenities: Vec<String>,
    now: i64,
) -> (r: Result<Listing, OracleError>)
    ensures
        validation_of(location@, price, size, rooms, bathrooms, floor, total_floors) is Err ==> {
            &&& r == Err::<Listing, OracleError>(
                validation_of(location@, price, size, rooms, bathrooms, floor, total_floors)->Err_0,
            )
            &&& *final(platform) == *old(platform)
        },
        validation_of(location@, price, size, rooms, bathrooms, floor, total_floors) is Ok ==> {
            &&& r == Ok::<Listing, OracleError>(
                Listing {
                    authority,
                    bump,
                    id: old(platform).total_listings,
                    title,
                    description,
                    location,
                    price,
                    deposit,
                    size,
                    rooms,
                    bathrooms,
                    floor,
                    total_floors,
                    contract_length,
                    move_in_date,
                    amenities,
                    is_available: true,
                    is_verified: false,
                    created_at: now,
                    updated_at: now,
                },
            )
            &&& *final(platform) == (Platform {
                total_listings: counter_add(old(platform).total_listings, 1),
                ..*old(platform)
            })
        },
{
    match OracleValidator::validate(
        location.as_str(),
        price,
        size,
        rooms,
        bathrooms,
        floor,
        total_floors,
    ) {
        Err(e) => Err(e),
        Ok(()) => {
            let id = platform.total_listings;
            platform.total_listings = saturating_counter_add(platform.total_listings, 1);
            Ok(
                Listing {
                    authority,
                    bump,
                    id,
                    title,
                    description,
                    location,
                    price,
                    deposit,
                    size,
                    rooms,
                    bathrooms,
                    floor,
                    total_floors,
                    contract_length,
                    move_in_date,
                    amenities,
                    is_available: true,
                    is_verified: false,
                    created_at: now,
                    updated_at: now,
                },
            )
        },
    }
}

/// The listing once marked verified.
pub open spec fn listing_verified(listing: Listing, now: i64) -> Listing {
    Listing { is_verified: true, updated_at: now, ..listing }
}

/// Marks a listing verified; only the platform authority may do so.
pub fn verify_listing(listing: &mut Listing, platform: &Platform, caller: Pubkey, now: i64) -> (r:
    Result<(), RentalError>)
    ensures
        caller != platform.authority ==> r == Err::<(), RentalError>(RentalError::Unauthorized)
            && *final(listing) == *old(listing),
        caller == platform.authority ==> r == Ok::<(), RentalError>(()) && *final(listing)
            == listing_verified(*old(listing), now),
{
    if caller != platform.authority {
        return Err(RentalError::Unauthorized);
    }
    listing.is_verified = true;
    listing.updated_at = now;
    Ok(())
}

/// Amount moved from tenant to landlord when a rental opens: deposit plus
/// the first period's rent.
pub open spec fn escrow_of(listing: Listing) -> int {
    listing.deposit + listing.price
}

/// The rental opened on `listing` (whose address is `listing_key`) for
/// `tenant` at time `now`.
pub open spec fn opened_rental(
    listing: Listing,
    listing_key: Pubkey,
    tenant: Pubkey,
    method: PaymentMethod,
    rental_id: u64,
    bump: u8,
    now: i64,
) -> Rental {
    Rental {
        rental_id,
        listing: listing_key,
        landlord: listing.authority,
        tenant,
        price: listing.price,
        deposit: listing.deposit,
        contract_length: listing.contract_length,
        start_date: now,
        end_date: (now + listing.contract_length * SECONDS_PER_MONTH) as i64,
        next_payment_date: (now + SECONDS_PER_MONTH) as i64,
        status: RentalStatus::Active,
        payment_method: method,
        bump,
        created_at: now,
        updated_at: now,
    }
}

/// Outcome of renting `listing`: refused if it is taken, or if the tenant's
/// balance does not cover the escrow; otherwise the new rental and the
/// escrow transfer to the listing's owner.
pub open spec fn rent_result(
    listing: Listing,
    listing_key: Pubkey,
    tenant: Pubkey,
    tenant_balance: u64,
    method: PaymentMethod,
    rental_id: u64,
    bump: u8,
    now: i64,
) -> Result<(Rental, FundTransfer), RentalError> {
    if !listing.is_available {
        Err(RentalError::PropertyNotAvailable)
    } else if tenant_balance < escrow_of(listing) {
        Err(RentalError::InsufficientFunds)
    } else {
        Ok(
            (
                opened_rental(listing, listing_key, tenant, method, rental_id, bump, now),
                FundTransfer {
                    from: tenant,
                    to: listing.authority,
                    amount: escrow_of(listing) as u64,
                    method,
                },
            ),
        )
    }
}

/// The listing once a rental on it has opened.
pub open spec fn listing_rented(listing: Listing, now: i64) -> Listing {
    Listing { is_available: false, updated_at: now, ..listing }
}

/// The listing once its rental has ended.
pub open spec fn listing_released(listing: Listing, now: i64) -> Listing {
    Listing { is_available: true, updated_at: now, ..listing }
}

/// End and first due date of a rental opened at `now` fit the clock's range.
pub open spec fn rent_dates_fit(listing: Listing, now: i64) -> bool {
    &&& now + listing.contract_length * SECONDS_PER_MONTH <= i64::MAX
    &&& now + SECONDS_PER_MONTH <= i64::MAX
}

/// Opens a rental on `listing` for `tenant`, paid in `method`.
pub fn rent_property(
    platform: &mut Platform,
    listing: &mut Listing,
    listing_key: Pubkey,
    tenant: Pubkey,
    tenant_balance: u64,
    method: PaymentMethod,
    rental_id: u64,
    bump: u8,
    now: i64,
) -> (r: Result<(Rental, FundTransfer), RentalError>)
    requires
        rent_dates_fit(*old(listing), now),
    ensures
        r == rent_result(
            *old(listing),
            listing_key,
            tenant,
            tenant_balance,
            method,
            rental_id,
            bump,
            now,
        ),
        r is Ok ==> *final(listing) == listing_rented(*old(listing), now) && *final(platform) == (
        Platform {
            total_rentals: counter_add(old(platform).total_rentals, 1),
            total_volume: counter_add(old(platform).total_volume, escrow_of(*old(listing))),
            ..*old(platform)
        }),
        r is Err ==> *final(listing) == *old(listing) && *final(platform) == *old(platform),
{
    if !listing.is_available {
        return Err(RentalError::PropertyNotAvailable);
    }
    if listing.deposit > tenant_balance || listing.price > tenant_balance - listing.deposit {
        return Err(RentalError::InsufficientFunds);
    }
    let amount = listing.deposit + listing.price;
    let rental = Rental {
        rental_id,
        listing: listing_key,
        landlord: listing.authority,
        tenant,
        price: listing.price,
        deposit: listing.deposit,
        contract_length: listing.contract_length,
        start_date: now,
        end_date: now + listing.contract_length as i64 * SECONDS_PER_MONTH,
        next_payment_date: now + SECONDS_PER_MONTH,
        status: RentalStatus::Active,
        payment_method: method,
        bump,
        created_at: now,
        updated_at: now,
    };
    let transfer = FundTransfer { from: tenant, to: listing.authority, amount, method };
    listing.is_available = false;
    listing.updated_at = now;
    platform.total_rentals = saturating_counter_add(platform.total_rentals, 1);
    platform.total_volume = saturating_counter_add(platform.total_volume, amount as u128);
    Ok((rental, transfer))
}

/// Opens a rental paid in the native currency.
pub fn rent_property_sol(
    platform: &mut Platform,
    listing: &mut Listing,
    listing_key: Pubkey,
    tenant: Pubkey,
    tenant_balance: u64,
    rental_id: u64,
    bump: u8,
    now: i64,
) -> (r: Result<(Rental, FundTransfer), RentalError>)
    requires
        rent_dates_fit(*old(listing), now),
    ensures
        r == rent_result(
            *old(listing),
            listing_key,
            tenant,
            tenant_balance,
            PaymentMethod::Sol,
            rental_id,
            bump,
            now,
        ),
        r is Ok ==> *final(listing) == listing_rented(*old(listing), now) && *final(platform) == (
        Platform {
            total_rentals: counter_add(old(platform).total_rentals, 1),
            total_volume: counter_add(old(platform).total_volume, escrow_of(*old(listing))),
            ..*old(platform)
        }),
        r is Err ==> *final(listing) == *old(listing) && *final(platform) == *old(platform),
{
    rent_property(
        platform,
        listing,
        listing_key,
        tenant,
        tenant_balance,
        PaymentMethod::Sol,
        rental_id,
        bump,
        now,
    )
}

/// Opens a rental paid in the fungible token.
pub fn rent_property_usdt(
    platform: &mut Platform,
    listing: &mut Listing,
    listing_key: Pubkey,
    tenant: Pubkey,
    tenant_balance: u64,
    rental_id: u64,
    bump: u8,
    now: i64,
) -> (r: Result<(Rental, FundTransfer), RentalError>)
    requires
        rent_dates_fit(*old(listing), now),
    ensures
        r == rent_result(
            *old(listing),
            listing_key,
            tenant,
            tenant_balance,
            PaymentMethod::Usdt,
            rental_id,
            bump,
            now,
        ),
        r is Ok ==> *final(listing) == listing_rented(*old(listing), now) && *final(platform) == (
        Platform {
            total_rentals: counter_add(old(platform).total_rentals, 1),
            total_volume: counter_add(old(platform).total_volume, escrow_of(*old(listing))),
            ..*old(platform)
        }),
        r is Err ==> *final(listing) == *old(listing) && *final(platform) == *old(platform),
{
    rent_property(
        platform,
        listing,
        listing_key,
        tenant,
        tenant_balance,
        PaymentMethod::Usdt,
        rental_id,
        bump,
        now,
    )
}

/// Outcome of a rent payment: refused unless the rental is active, paid in
/// the currency it was opened with, due, and covered by the tenant's balance;
/// otherwise one period's rent moves from tenant to landlord.
pub open spec fn pay_rent_result(
    rental: Rental,
    method: PaymentMethod,
    tenant_balance: u64,
    now: i64,
) -> Result<FundTransfer, RentalError> {
    if rental.status != RentalStatus::Active {
        Err(RentalError::RentalNotActive)
    } else if method != rental.payment_method {
        Err(RentalError::InvalidPaymentMethod)
    } else if now < rental.next_payment_date {
        Err(RentalError::PaymentNotDue)
    } else if tenant_balance < rental.price {
        Err(RentalError::InsufficientFunds)
    } else {
        Ok(FundTransfer { from: rental.tenant, to: rental.landlord, amount: rental.price, method })
    }
}

/// The rental once a period's rent is paid: the due date moves one period on.
pub open spec fn rent_paid(rental: Rental, now: i64) -> Rental {
    Rental {
        next_payment_date: (rental.next_payment_date + SECONDS_PER_MONTH) as i64,
        updated_at: now,
        ..rental
    }
}

/// The next due date after a payment at `now` fits the clock's range.
pub open spec fn pay_dates_fit(rental: Rental, now: i64) -> bool {
    now >= rental.next_payment_date ==> rental.next_payment_date + SECONDS_PER_MONTH <= i64::MAX
}

/// Collects one period's rent in `method`.
pub fn pay_rent(
    platform: &mut Platform,
    rental: &mut Rental,
    method: PaymentMethod,
    tenant_balance: u64,
    now: i64,
) -> (r: Result<FundTransfer, RentalError>)
    requires
        pay_dates_fit(*old(rental), now),
    ensures
        r == pay_rent_result(*old(rental), method, tenant_balance, now),
        r is Ok ==> *final(rental) == rent_paid(*old(rental), now) && *final(platform) == (
        Platform {
            total_volume: counter_add(old(platform).total_volume, old(rental).price as int),
            ..*old(platform)
        }),
        r is Err ==> *final(rental) == *old(rental) && *final(platform) == *old(platform),
{
    if rental.status != RentalStatus::Active {
        return Err(RentalError::RentalNotActive);
    }
    if method != rental.payment_method {
        return Err(RentalError::InvalidPaymentMethod);
    }
    if now < rental.next_payment_date {
        return Err(RentalError::PaymentNotDue);
    }
    if tenant_balance < rental.price {
        return Err(RentalError::InsufficientFunds);
    }
    rental.next_payment_date = rental.next_payment_date + SECONDS_PER_MONTH;
    rental.updated_at = now;
    platform.total_volume = saturating_counter_add(platform.total_volume, rental.price as u128);
    Ok(FundTransfer { from: rental.tenant, to: rental.landlord, amount: rental.price, method })
}

/// Collects one period's rent in the native currency.
pub fn pay_rent_sol(platform: &mut Platform, rental: &mut Rental, tenant_balance: u64, now: i64) -> (r:
    Result<FundTransfer, RentalError>)
    requires
        pay_dates_fit(*old(rental), now),
    ensures
        r == pay_rent_result(*old(rental), PaymentMethod::Sol, tenant_balance, now),
        r is Ok ==> *final(rental) == rent_paid(*old(rental), now) && *final(platform) == (
        Platform {
            total_volume: counter_add(old(platform).total_volume, old(rental).price as int),
            ..*old(platform)
        }),
        r is Err ==> *final(rental) == *old(rental) && *final(platform) == *old(platform),
{
    pay_rent(platform, rental, PaymentMethod::Sol, tenant_balance, now)
}

/// Collects one period's rent in the fungible token.
pub fn pay_rent_usdt(platform: &mut Platform, rental: &mut Rental, tenant_balance: u64, now: i64) -> (r:
    Result<FundTransfer, RentalError>)
    requires
        pay_dates_fit(*old(rental), now),
    ensures
        r == pay_rent_result(*old(rental), PaymentMethod::Usdt, tenant_balance, now),
        r is Ok ==> *final(rental) == rent_paid(*old(rental), now) && *final(platform) == (
        Platform {
            total_volume: counter_add(old(platform).total_volume, old(rental).price as int),
            ..*old(platform)
        }),
        r is Err ==> *final(rental) == *old(rental) && *final(platform) == *old(platform),
{
    pay_rent(platform, rental, PaymentMethod::Usdt, tenant_balance, now)
}

/// Whole days left before the rental's end date, never negative.
pub open spec fn remaining_days(rental: Rental, now: i64) -> int {
    if rental.end_date > now {
        (rental.end_date - now) / SECONDS_PER_DAY as int
    } else {
        0
    }
}

/// What a landlord owes on ending a rental early: the deposit plus the rent
/// of the remaining days, at a thirtieth of a period's rent per day,
/// truncated.
pub open spec fn refund_of(rental: Rental, now: i64) -> int {
    rental.deposit + rental.price * remaining_days(rental, now) / 30
}

/// Outcome of a termination requested by `caller`: refused unless the rental
/// is active and the caller is its landlord or tenant. A tenant forfeits the
/// deposit and nothing moves; a landlord refunds `refund_of` to the tenant,
/// which no account can cover when it exceeds `u64::MAX`.
pub open spec fn terminate_result(rental: Rental, caller: Pubkey, now: i64) -> Result<
    Option<FundTransfer>,
    RentalError,
> {
    if rental.status != RentalStatus::Active {
        Err(RentalError::RentalNotActive)
    } else if caller != rental.landlord && caller != rental.tenant {
        Err(RentalError::Unauthorized)
    } else if caller == rental.landlord {
        if refund_of(rental, now) > u64::MAX {
            Err(RentalError::InsufficientFunds)
        } else {
            Ok(
                Some(
                    FundTransfer {
                        from: rental.landlord,
                        to: rental.tenant,
                        amount: refund_of(rental, now) as u64,
                        method: rental.payment_method,
                    },
                ),
            )
        }
    } else {
        Ok(None)
    }
}

/// The rental once terminated.
pub open spec fn rental_terminated(rental: Rental, now: i64) -> Rental {
    Rental { status: RentalStatus::Terminated, updated_at: now, ..rental }
}

/// The landlord's refund on early termination at `now`, or `None` when it
/// exceeds what any account can hold.
pub fn landlord_refund(rental: &Rental, now: i64) -> (r: Option<u64>)
    ensures
        refund_of(*rental, now) <= u64::MAX ==> r == Some(refund_of(*rental, now) as u64),
        refund_of(*rental, now) > u64::MAX ==> r is None,
{
    let days: u128 = if rental.end_date > now {
        ((rental.end_date as i128 - now as i128) / SECONDS_PER_DAY as i128) as u128
    } else {
        0
    };
    assert(days == remaining_days(*rental, now));
    assert(days <= u64::MAX);
    assert(rental.price as u128 * days <= u64::MAX as u128 * u64::MAX as u128) by (nonlinear_arith)
        requires
            rental.price <= u64::MAX,
            days <= u64::MAX,
    ;
    let refund: u128 = rental.deposit as u128 + rental.price as u128 * days / 30;
    if refund > u64::MAX as u128 {
        None
    } else {
        Some(refund as u64)
    }
}

/// Ends an active rental at the request of its landlord or tenant and
/// releases the listing.
pub fn terminate_rental(listing: &mut Listing, rental: &mut Rental, caller: Pubkey, now: i64) -> (r:
    Result<Option<FundTransfer>, RentalError>)
    ensures
        r == terminate_result(*old(rental), caller, now),
        r is Ok ==> *final(rental) == rental_terminated(*old(rental), now) && *final(listing)
            == listing_released(*old(listing), now),
        r is Err ==> *final(rental) == *old(rental) && *final(listing) == *old(listing),
{
    if rental.status != RentalStatus::Active {
        return Err(RentalError::RentalNotActive);
    }
    if caller != rental.landlord && caller != rental.tenant {
        return Err(RentalError::Unauthorized);
    }
    let transfer = if caller == rental.landlord {
        match landlord_refund(rental, now) {
            None => {
                return Err(RentalError::InsufficientFunds);
            },
            Some(amount) => Some(
                FundTransfer {
                    from: rental.landlord,
                    to: rental.tenant,
                    amount,
                    method: rental.payment_method,
                },
            ),
        }
    } else {
        None
    };
    rental.status = RentalStatus::Terminated;
    rental.updated_at = now;
    listing.is_available = true;
    listing.updated_at = now;
    Ok(transfer)
}

/// The rental after an adjustment of price and end date.
pub open spec fn rental_adjusted(rental: Rental, new_price: u64, new_end_date: i64, now: i64) -> Rental {
    Rental { price: new_price, end_date: new_end_date, updated_at: now, ..rental }
}

/// Overwrites price and end date of an active rental at the request of its
/// landlord or tenant, and returns the audit record.
pub fn adjust_rental(
    rental: &mut Rental,
    rental_key: Pubkey,
    caller: Pubkey,
    new_price: u64,
    new_end_date: i64,
    reason: String,
    now: i64,
) -> (r: Result<RentalAdjusted, RentalError>)
    ensures
        caller != old(rental).landlord && caller != old(rental).tenant ==> r == Err::<
            RentalAdjusted,
            RentalError,
        >(RentalError::Unauthorized),
        (caller == old(rental).landlord || caller == old(rental).tenant) && old(rental).status
            != RentalStatus::Active ==> r == Err::<RentalAdjusted, RentalError>(
            RentalError::RentalNotActive,
        ),
        (caller == old(rental).landlord || caller == old(rental).tenant) && old(rental).status
            == RentalStatus::Active ==> r == Ok::<RentalAdjusted, RentalError>(
            RentalAdjusted {
                rental: rental_key,
                new_price,
                new_end_date,
                reason,
                adjusted_by: caller,
                timestamp: now,
            },
        ),
        r is Ok ==> *final(rental) == rental_adjusted(*old(rental), new_price, new_end_date, now),
        r is Err ==> *final(rental) == *old(rental),
{
    if caller != rental.landlord && caller != rental.tenant {
        return Err(RentalError::Unauthorized);
    }
    if rental.status != RentalStatus::Active {
        return Err(RentalError::RentalNotActive);
    }
    rental.price = new_price;
    rental.end_date = new_end_date;
    rental.updated_at = now;
    Ok(
        RentalAdjusted {
            rental: rental_key,
            new_price,
            new_end_date,
            reason,
            adjusted_by: caller,
            timestamp: now,
        },
    )
}

/// The rental after a renewal for `months` periods at `new_price`.
pub open spec fn rental_renewed(rental: Rental, months: u8, new_price: u64, now: i64) -> Rental {
    Rental {
        end_date: (rental.end_date + months * SECONDS_PER_MONTH) as i64,
        price: new_price,
        contract_length: months,
        updated_at: now,
        ..rental
    }
}

/// Outcome of a renewal requested by `caller`: only the tenant of an active
/// rental may renew.
pub open spec fn renew_result(
    rental: Rental,
    rental_key: Pubkey,
    caller: Pubkey,
    months: u8,
    new_price: u64,
    auto_renew: bool,
    now: i64,
) -> Result<RentalRenewed, RentalError> {
    if caller != rental.tenant {
        Err(RentalError::Unauthorized)
    } else if rental.status != RentalStatus::Active {
        Err(RentalError::RentalNotActive)
    } else {
        Ok(
            RentalRenewed {
                rental: rental_key,
                months,
                new_price,
                new_end_date: (rental.end_date + months * SECONDS_PER_MONTH) as i64,
                auto_renew,
                renewed_by: caller,
                timestamp: now,
            },
        )
    }
}

/// Extends an active rental by `months` periods at `new_price`. The
/// renewal's nominal value `new_price * months` is booked as volume; no
/// funds move.
pub fn renew_rental(
    platform: &mut Platform,
    rental: &mut Rental,
    rental_key: Pubkey,
    caller: Pubkey,
    months: u8,
    new_price: u64,
    auto_renew: bool,
    now: i64,
) -> (r: Result<RentalRenewed, RentalError>)
    requires
        old(rental).end_date + months * SECONDS_PER_MONTH <= i64::MAX,
    ensures
        r == renew_result(*old(rental), rental_key, caller, months, new_price, auto_renew, now),
        r is Ok ==> *final(rental) == rental_renewed(*old(rental), months, new_price, now)
            && *final(platform) == (Platform {
            total_volume: counter_add(old(platform).total_volume, new_price * months),
            ..*old(platform)
        }),
        r is Err ==> *final(rental) == *old(rental) && *final(platform) == *old(platform),
{
    if caller != rental.tenant {
        return Err(RentalError::Unauthorized);
    }
    if rental.status != RentalStatus::Active {
        return Err(RentalError::RentalNotActive);
    }
    let new_end_date = rental.end_date + months as i64 * SECONDS_PER_MONTH;
    rental.price = new_price;
    rental.end_date = new_end_date;
    rental.contract_length = months;
    rental.updated_at = now;
    assert(new_price as u128 * months as u128 <= u64::MAX as u128 * 255) by (nonlinear_arith)
        requires
            new_price <= u64::MAX,
            months <= 255,
    ;
    platform.total_volume = saturating_counter_add(
        platform.total_volume,
        new_price as u128 * months as u128,
    );
    Ok(
        RentalRenewed {
            rental: rental_key,
            months,
            new_price,
            new_end_date,
            auto_renew,
            renewed_by: caller,
            timestamp: now,
        },
    )
}

/// Outcome of a transfer requested by `caller`: only the tenant of an active
/// rental may transfer it, and only to someone else. The fee is recorded,
/// never moved.
pub open spec fn transfer_result(
    rental: Rental,
    rental_key: Pubkey,
    caller: Pubkey,
    new_tenant: Pubkey,
    transfer_fee: u64,
    now: i64,
) -> Result<RentalTransferred, RentalError> {
    if caller != rental.tenant {
        Err(RentalError::Unauthorized)
    } else if rental.status != RentalStatus::Active {
        Err(RentalError::RentalNotActive)
    } else if new_tenant == rental.tenant {
        Err(RentalError::InvalidTransfer)
    } else {
        Ok(
            RentalTransferred {
                rental: rental_key,
                old_tenant: rental.tenant,
                new_tenant,
                transfer_fee,
                transferred_by: caller,
                timestamp: now,
            },
        )
    }
}

/// The rental after its tenant is reassigned: every other field is kept.
pub open spec fn rental_transferred(rental: Rental, new_tenant: Pubkey) -> Rental {
    Rental { tenant: new_tenant, ..rental }
}

/// Reassigns the tenant of an active rental; every other field is kept.
pub fn transfer_rental(
    rental: &mut Rental,
    rental_key: Pubkey,
    caller: Pubkey,
    new_tenant: Pubkey,
    transfer_fee: u64,
    now: i64,
) -> (r: Result<RentalTransferred, RentalError>)
    ensures
        r == transfer_result(*old(rental), rental_key, caller, new_tenant, transfer_fee, now),
        r is Ok ==> *final(rental) == rental_transferred(*old(rental), new_tenant),
        r is Err ==> *final(rental) == *old(rental),
{
    if caller != rental.tenant {
        return Err(RentalError::Unauthorized);
    }
    if rental.status != RentalStatus::Active {
        return Err(RentalError::RentalNotActive);
    }
    if new_tenant == rental.tenant {
        return Err(RentalError::InvalidTransfer);
    }
    let old_tenant = rental.tenant;
    rental.tenant = new_tenant;
    Ok(
        RentalTransferred {
            rental: rental_key,
            old_tenant,
            new_tenant,
            transfer_fee,
            transferred_by: caller,
            timestamp: now,
        },
    )
}

/// Longest extension, in days, that one request may ask for.
pub const MAX_EXTENSION_DAYS: u8 = 60;

/// The rental after an extension by `days` days.
pub open spec fn rental_extended(rental: Rental, days: u8, now: i64) -> Rental {
    Rental {
        end_date: (rental.end_date + days * SECONDS_PER_DAY) as i64,
        updated_at: now,
        ..rental
    }
}

/// Outcome of an extension requested by `caller`: only the tenant of an
/// active rental may extend it, by 1 to 60 days.
pub open spec fn extend_result(
    rental: Rental,
    rental_key: Pubkey,
    caller: Pubkey,
    days: u8,
    reason: String,
    now: i64,
) -> Result<RentalExtended, RentalError> {
    if caller != rental.tenant {
        Err(RentalError::Unauthorized)
    } else if rental.status != RentalStatus::Active {
        Err(RentalError::RentalNotActive)
    } else if !(0 < days <= MAX_EXTENSION_DAYS) {
        Err(RentalError::InvalidExtension)
    } else {
        Ok(
            RentalExtended {
                rental: rental_key,
                days,
                new_end_date: (rental.end_date + days * SECONDS_PER_DAY) as i64,
                reason,
                extended_by: caller,
                timestamp: now,
            },
        )
    }
}

/// The extended end date fits the clock's range.
pub open spec fn extend_dates_fit(rental: Rental, days: u8) -> bool {
    0 < days <= MAX_EXTENSION_DAYS ==> rental.end_date + days * SECONDS_PER_DAY <= i64::MAX
}

/// Pushes the end date of an active rental back by `days` days (1 to 60),
/// at the request of its tenant, and returns the audit record.
pub fn extend_rental(
    rental: &mut Rental,
    rental_key: Pubkey,
    caller: Pubkey,
    days: u8,
    reason: String,
    now: i64,
) -> (r: Result<RentalExtended, RentalError>)
    requires
        extend_dates_fit(*old(rental), days),
    ensures
        r == extend_result(*old(rental), rental_key, caller, days, reason, now),
        r is Ok ==> *final(rental) == rental_extended(*old(rental), days, now),
        r is Err ==> *final(rental) == *old(rental),
{
    if caller != rental.tenant {
        return Err(RentalError::Unauthorized);
    }
    if rental.status != RentalStatus::Active {
        return Err(RentalError::RentalNotActive);
    }
    if days == 0 || days > MAX_EXTENSION_DAYS {
        return Err(RentalError::InvalidExtension);
    }
    let new_end_date = rental.end_date + days as i64 * SECONDS_PER_DAY;
    rental.end_date = new_end_date;
    rental.updated_at = now;
    Ok(
        RentalExtended {
            rental: rental_key,
            days,
            new_end_date,
            reason,
            extended_by: caller,
            timestamp: now,
        },
    )
}

} // verus!
