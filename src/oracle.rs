//! The listing validation gate: coarse textual location checks, a
//! location-tiered price band table, physical-attribute bounds, and the
//! fingerprint hash of a listing's key fields.
use vstd::prelude::*;
use vstd::string::StringSliceAdditionalSpecFns;
use crate::text::{contains_text, has_infix};

verus! {

/// Smallest currency units per human-scale unit.
pub const PRICE_SCALE: u64 = 1000000000;

/// Byte that separates the fields of a verification message.
pub const FIELD_SEPARATOR: u8 = 58;

/// Why a proposed listing was rejected.
#[derive(Clone, Copy, Debug, PartialEq, Eq, Structural)]
pub enum OracleError {
    LocationVerificationFailed,
    PriceVerificationFailed,
    ListingInfoVerificationFailed,
    OracleResponseVerificationFailed,
}

/// The price tier a location falls in.
#[derive(Clone, Copy, Debug, PartialEq, Eq, Structural)]
pub enum PriceTier {
    /// Premium districts of the capital.
    Premium,
    /// The capital outside its premium districts.
    Metro,
    /// Secondary metro, central.
    Central,
    /// Secondary metro, southern.
    Southern,
    /// Anything not matched above.
    Other,
}

/// The location names a city-level area.
pub open spec fn names_city(loc: Seq<char>) -> bool {
    has_infix(loc, "市"@) || has_infix(loc, "City"@)
}

/// The location names a district-level area.
pub open spec fn names_district(loc: Seq<char>) -> bool {
    has_infix(loc, "區"@) || has_infix(loc, "District"@)
}

/// The location passes the location check.
pub open spec fn location_accepted(loc: Seq<char>) -> bool {
    names_city(loc) && names_district(loc)
}

/// The location names a premium district of the capital.
pub open spec fn names_premium(loc: Seq<char>) -> bool {
    has_infix(loc, "信義"@) || has_infix(loc, "大安"@) || has_infix(loc, "Xinyi"@) || has_infix(
        loc,
        "Daan"@,
    )
}

/// The location names the capital.
pub open spec fn names_metro(loc: Seq<char>) -> bool {
    has_infix(loc, "台北"@) || has_infix(loc, "Taipei"@)
}

/// The location names the central secondary metro.
pub open spec fn names_central(loc: Seq<char>) -> bool {
    has_infix(loc, "台中"@) || has_infix(loc, "Taichung"@)
}

/// The location names the southern secondary metro.
pub open spec fn names_southern(loc: Seq<char>) -> bool {
    has_infix(loc, "高雄"@) || has_infix(loc, "Kaohsiung"@)
}

/// The tier of a location: the first of premium, metro, central, southern
/// whose names occur in it, else `Other`.
pub open spec fn tier_of(loc: Seq<char>) -> PriceTier {
    if names_premium(loc) {
        PriceTier::Premium
    } else if names_metro(loc) {
        PriceTier::Metro
    } else if names_central(loc) {
        PriceTier::Central
    } else if names_southern(loc) {
        PriceTier::Southern
    } else {
        PriceTier::Other
    }
}

/// Inclusive band of a tier, in human-scale units.
pub open spec fn band_of(tier: PriceTier) -> (u64, u64) {
    match tier {
        PriceTier::Premium => (20, 100),
        PriceTier::Metro => (10, 50),
        PriceTier::Central => (5, 30),
        PriceTier::Southern => (3, 30),
        PriceTier::Other => (1, 50),
    }
}

/// The price, in smallest units, lies in the band of the location's tier.
pub open spec fn price_accepted(price: int, loc: Seq<char>) -> bool {
    let (lo, hi) = band_of(tier_of(loc));
    lo * PRICE_SCALE <= price <= hi * PRICE_SCALE
}

/// The physical attributes are within bounds.
pub open spec fn listing_info_accepted(
    size: u32,
    rooms: u8,
    bathrooms: u8,
    floor: u8,
    total_floors: u8,
) -> bool {
    &&& 0 < size <= 1000
    &&& 0 < rooms <= 10
    &&& 0 < bathrooms <= 5
    &&& 0 < floor <= total_floors
    &&& 0 < total_floors <= 100
}

/// Outcome of the whole gate: the location, price and attribute checks, in
/// that order; the first that fails is reported.
pub open spec fn validation_of(
    loc: Seq<char>,
    price: u64,
    size: u32,
    rooms: u8,
    bathrooms: u8,
    floor: u8,
    total_floors: u8,
) -> Result<(), OracleError> {
    if !location_accepted(loc) {
        Err(OracleError::LocationVerificationFailed)
    } else if !price_accepted(price as int, loc) {
        Err(OracleError::PriceVerificationFailed)
    } else if !listing_info_accepted(size, rooms, bathrooms, floor, total_floors) {
        Err(OracleError::ListingInfoVerificationFailed)
    } else {
        Ok(())
    }
}

/// Decimal digits of `n` in ASCII, most significant first, without leading zeros.
pub open spec fn decimal_digits(n: nat) -> Seq<u8>
    decreases n,
{
    if n < 10 {
        seq![(48 + n) as u8]
    } else {
        decimal_digits(n / 10).push((48 + n % 10) as u8)
    }
}

/// The message hashed to fingerprint a listing:
/// `title:location:price:size`, numbers in decimal.
pub open spec fn verification_message_of(
    title: Seq<u8>,
    location: Seq<u8>,
    price: nat,
    size: nat,
) -> Seq<u8> {
    title + seq![FIELD_SEPARATOR] + location + seq![FIELD_SEPARATOR] + decimal_digits(price) + seq![
        FIELD_SEPARATOR,
    ] + decimal_digits(size)
}

/// The Keccak-256 digest of a byte string.
pub uninterp spec fn keccak256_of(data: Seq<u8>) -> Seq<u8>;

/// Relies on `solana_program::keccak::hash` (re-exported by anchor_lang):
/// the Keccak-256 digest of `data`, a function of the bytes alone.
#[verifier::external_body]
fn keccak256(data: &[u8]) -> (r: [u8; 32])
    ensures
        r@ == keccak256_of(data@),
{
    anchor_lang::solana_program::keccak::hash(data).to_bytes()
}

/// Appends the bytes of `b` to `out`.
fn push_bytes(out: &mut Vec<u8>, b: &[u8])
    ensures
        final(out)@ == old(out)@ + b@,
{
    let mut i: usize = 0;
    while i < b.len()
        invariant
            0 <= i <= b@.len(),
            out@ == old(out)@ + b@.subrange(0, i as int),
        decreases b@.len() - i,
    {
        out.push(b[i]);
        i = i + 1;
        assert(b@.subrange(0, i as int) =~= b@.subrange(0, i - 1).push(b@[i - 1]));
        assert(out@ =~= old(out)@ + b@.subrange(0, i as int));
    }
    assert(b@.subrange(0, i as int) =~= b@);
}

/// Appends the decimal digits of `n` to `out`.
fn push_decimal(out: &mut Vec<u8>, n: u64)
    ensures
        final(out)@ == old(out)@ + decimal_digits(n as nat),
    decreases n,
{
    if n >= 10 {
        push_decimal(out, n / 10);
    }
    out.push((48 + n % 10) as u8);
    assert(out@ =~= old(out)@ + decimal_digits(n as nat));
}

/// Stateless validator of proposed listings.
pub struct OracleValidator;

impl OracleValidator {
    /// Whether the location names both a city-level and a district-level area.
    pub fn verify_location(location: &str) -> (r: bool)
        ensures
            r == location_accepted(location@),
    {
        let city = contains_text(location, "市") || contains_text(location, "City");
        let district = contains_text(location, "區") || contains_text(location, "District");
        city && district
    }

    /// The price tier of a location.
    pub fn price_tier(location: &str) -> (r: PriceTier)
        ensures
            r == tier_of(location@),
    {
        if contains_text(location, "信義") || contains_text(location, "大安") || contains_text(
            location,
            "Xinyi",
        ) || contains_text(location, "Daan") {
            PriceTier::Premium
        } else if contains_text(location, "台北") || contains_text(location, "Taipei") {
            PriceTier::Metro
        } else if contains_text(location, "台中") || contains_text(location, "Taichung") {
            PriceTier::Central
        } else if contains_text(location, "高雄") || contains_text(location, "Kaohsiung") {
            PriceTier::Southern
        } else {
            PriceTier::Other
        }
    }

    /// The inclusive band of a tier, in human-scale units.
    pub fn price_band(tier: PriceTier) -> (r: (u64, u64))
        ensures
            r == band_of(tier),
    {
        match tier {
            PriceTier::Premium => (20, 100),
            PriceTier::Metro => (10, 50),
            PriceTier::Central => (5, 30),
            PriceTier::Southern => (3, 30),
            PriceTier::Other => (1, 50),
        }
    }

    /// Whether the price lies in the band of the location's tier, both ends
    /// included.
    pub fn verify_price(price: u64, location: &str) -> (r: bool)
        ensures
            r == price_accepted(price as int, location@),
    {
        let (lo, hi) = Self::price_band(Self::price_tier(location));
        lo * PRICE_SCALE <= price && price <= hi * PRICE_SCALE
    }

    /// Whether size, rooms, bathrooms and floors are within bounds.
    pub fn verify_listing_info(
        size: u32,
        rooms: u8,
        bathrooms: u8,
        floor: u8,
        total_floors: u8,
    ) -> (r: bool)
        ensures
            r == listing_info_accepted(size, rooms, bathrooms, floor, total_floors),
    {
        size > 0 && size <= 1000 && rooms > 0 && rooms <= 10 && bathrooms > 0 && bathrooms <= 5
            && floor > 0 && floor <= total_floors && total_floors > 0 && total_floors <= 100
    }

    /// Runs the three checks in order and reports the first that fails.
    pub fn validate(
        location: &str,
        price: u64,
        size: u32,
        rooms: u8,
        bathrooms: u8,
        floor: u8,
        total_floors: u8,
    ) -> (r: Result<(), OracleError>)
        ensures
            r == validation_of(location@, price, size, rooms, bathrooms, floor, total_floors),
    {
        if !Self::verify_location(location) {
            Err(OracleError::LocationVerificationFailed)
        } else if !Self::verify_price(price, location) {
            Err(OracleError::PriceVerificationFailed)
        } else if !Self::verify_listing_info(size, rooms, bathrooms, floor, total_floors) {
            Err(OracleError::ListingInfoVerificationFailed)
        } else {
            Ok(())
        }
    }

    /// The bytes of `title:location:price:size`, numbers in decimal.
    pub fn verification_message(title: &str, location: &str, price: u64, size: u32) -> (r: Vec<
        u8,
    >)
        ensures
            r@ == verification_message_of(
                title.spec_bytes(),
                location.spec_bytes(),
                price as nat,
                size as nat,
            ),
    {
        let mut out: Vec<u8> = Vec::new();
        push_bytes(&mut out, title.as_bytes());
        out.push(FIELD_SEPARATOR);
        push_bytes(&mut out, location.as_bytes());
        out.push(FIELD_SEPARATOR);
        push_decimal(&mut out, price);
        out.push(FIELD_SEPARATOR);
        push_decimal(&mut out, size as u64);
        assert(out@ =~= verification_message_of(
            title.spec_bytes(),
            location.spec_bytes(),
            price as nat,
            size as nat,
        ));
        out
    }

    /// Keccak-256 fingerprint of the listing's title, location, price and size.
    pub fn generate_verification_hash(title: &str, location: &str, price: u64, size: u32) -> (r: [u8;
        32])
        ensures
            r@ == keccak256_of(
                verification_message_of(
                    title.spec_bytes(),
                    location.spec_bytes(),
                    price as nat,
                    size as nat,
                ),
            ),
    {
        let message = Self::verification_message(title, location, price, size);
        keccak256(message.as_slice())
    }

    /// Whether a response carries at least 32 bytes and begins with the
    /// expected fingerprint.
    pub fn verify_switchboard_response(response: &[u8], expected_hash: &[u8; 32]) -> (r: bool)
        ensures
            r == (response@.len() >= 32 && response@.subrange(0, 32) == expected_hash@),
    {
        if response.len() < 32 {
            return false;
        }
        let mut i: usize = 0;
        while i < 32
            invariant
                response@.len() >= 32,
                0 <= i <= 32,
                forall|j: int| 0 <= j < i ==> response@[j] == expected_hash@[j],
            decreases 32 - i,
        {
            if response[i] != expected_hash[i] {
                assert(response@.subrange(0, 32)[i as int] != expected_hash@[i as int]);
                return false;
            }
            i = i + 1;
        }
        assert(response@.subrange(0, 32) =~= expected_hash@);
        true
    }
}

} // verus!
