//! Records of the ledger: the platform aggregate, listings and rentals,
//! their status and payment-method tags, the audit events and errors.
use vstd::prelude::*;

verus! {

/// Seconds in one day.
pub const SECONDS_PER_DAY: i64 = 86400;

/// Seconds in one billing period: the engine uses a fixed 30-day month.
pub const SECONDS_PER_MONTH: i64 = 2592000;

/// A verified public identity (an account address), 32 bytes.
#[derive(Clone, Copy, Debug)]
pub struct Pubkey {
    pub bytes: [u8; 32],
}

impl Pubkey {
    pub fn new(bytes: [u8; 32]) -> (r: Pubkey)
        ensures
            r.bytes == bytes,
    {
        Pubkey { bytes }
    }
}

impl PartialEq for Pubkey {
    fn eq(&self, other: &Pubkey) -> (r: bool) {
        let mut i: usize = 0;
        while i < 32
            invariant
                0 <= i <= 32,
                forall|j: int| 0 <= j < i ==> self.bytes@[j] == other.bytes@[j],
            decreases 32 - i,
        {
            if self.bytes[i] != other.bytes[i] {
                return false;
            }
            i = i + 1;
        }
        proof {
            broadcast use vstd::array::axiom_array_ext_equal;

            assert(self.bytes@ =~= other.bytes@);
            assert(self.bytes == other.bytes);
        }
        true
    }
}

impl vstd::std_specs::cmp::PartialEqSpecImpl for Pubkey {
    open spec fn obeys_eq_spec() -> bool {
        true
    }

    open spec fn eq_spec(&self, other: &Pubkey) -> bool {
        self == other
    }
}

/// The platform-wide aggregate: running totals, reporting only.
#[derive(Clone, Copy, Debug, PartialEq)]
pub struct Platform {
    pub authority: Pubkey,
    pub bump: u8,
    pub total_listings: u64,
    pub total_rentals: u64,
    pub total_volume: u64,
}

/// A property offered for rent, with its marketplace metadata.
#[derive(Clone, Debug, PartialEq)]
pub struct Listing {
    pub authority: Pubkey,
    pub bump: u8,
    pub id: u64,
    pub title: String,
    pub description: String,
    pub location: String,
    pub price: u64,
    pub deposit: u64,
    pub size: u32,
    pub rooms: u8,
    pub bathrooms: u8,
    pub floor: u8,
    pub total_floors: u8,
    pub contract_length: u8,
    pub move_in_date: i64,
    pub amenities: Vec<String>,
    pub is_available: bool,
    pub is_verified: bool,
    pub created_at: i64,
    pub updated_at: i64,
}

/// One tenancy agreement between a landlord and a tenant over one listing.
#[derive(Clone, Copy, Debug, PartialEq)]
pub struct Rental {
    pub rental_id: u64,
    pub listing: Pubkey,
    pub landlord: Pubkey,
    pub tenant: Pubkey,
    pub price: u64,
    pub deposit: u64,
    pub contract_length: u8,
    pub start_date: i64,
    pub end_date: i64,
    pub next_payment_date: i64,
    pub status: RentalStatus,
    pub payment_method: PaymentMethod,
    pub bump: u8,
    pub created_at: i64,
    pub updated_at: i64,
}

/// Status of a rental. Transitions only leave `Active`. No operation of the
/// engine sets `Expired`: a rental past its end date stays `Active` until it
/// is terminated.
#[derive(Clone, Copy, Debug, PartialEq, Eq, Structural)]
pub enum RentalStatus {
    Active,
    Terminated,
    Expired,
}

/// The currency a rental is paid in.
#[derive(Clone, Copy, Debug, PartialEq, Eq, Structural)]
pub enum PaymentMethod {
    Sol,
    Usdt,
}

/// Why a rental operation was refused.
#[derive(Clone, Copy, Debug, PartialEq, Eq, Structural)]
pub enum RentalError {
    PropertyNotAvailable,
    InsufficientFunds,
    RentalNotActive,
    PaymentNotDue,
    Unauthorized,
    InvalidPaymentMethod,
    InvalidTransfer,
    InvalidExtension,
}

/// A movement of `amount` units from `from` to `to` in the currency of
/// `method`, to be executed atomically with the state change that produced it.
#[derive(Clone, Copy, Debug, PartialEq)]
pub struct FundTransfer {
    pub from: Pubkey,
    pub to: Pubkey,
    pub amount: u64,
    pub method: PaymentMethod,
}

/// Audit record of an adjustment of price and end date.
#[derive(Clone, Debug, PartialEq)]
pub struct RentalAdjusted {
    pub rental: Pubkey,
    pub new_price: u64,
    pub new_end_date: i64,
    pub reason: String,
    pub adjusted_by: Pubkey,
    pub timestamp: i64,
}

/// Audit record of a renewal.
#[derive(Clone, Copy, Debug, PartialEq)]
pub struct RentalRenewed {
    pub rental: Pubkey,
    pub months: u8,
    pub new_price: u64,
    pub new_end_date: i64,
    pub auto_renew: bool,
    pub renewed_by: Pubkey,
    pub timestamp: i64,
}

/// Audit record of a reassignment of the tenant.
#[derive(Clone, Copy, Debug, PartialEq)]
pub struct RentalTransferred {
    pub rental: Pubkey,
    pub old_tenant: Pubkey,
    pub new_tenant: Pubkey,
    pub transfer_fee: u64,
    pub transferred_by: Pubkey,
    pub timestamp: i64,
}

/// Audit record of an extension of the end date.
#[derive(Clone, Debug, PartialEq)]
pub struct RentalExtended {
    pub rental: Pubkey,
    pub days: u8,
    pub new_end_date: i64,
    pub reason: String,
    pub extended_by: Pubkey,
    pub timestamp: i64,
}

} // verus!
