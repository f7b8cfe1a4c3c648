use rental_contract::engine::{
    adjust_rental, create_listing, extend_rental, initialize, landlord_refund, pay_rent,
    pay_rent_sol, pay_rent_usdt, renew_rental, rent_property, rent_property_sol,
    rent_property_usdt, terminate_rental, transfer_rental, verify_listing,
};
use rental_contract::oracle::OracleError;
use rental_contract::types::{
    Listing, PaymentMethod, Platform, Pubkey, Rental, RentalError, RentalStatus,
};

const UNIT: u64 = 1_000_000_000;
const DAY: i64 = 86_400;
const MONTH: i64 = 2_592_000;
const NOW: i64 = 1_700_000_000;

fn key(b: u8) -> Pubkey {
    Pubkey::new([b; 32])
}

fn admin() -> Pubkey {
    key(1)
}
fn landlord() -> Pubkey {
    key(2)
}
fn tenant() -> Pubkey {
    key(3)
}
fn stranger() -> Pubkey {
    key(4)
}
fn listing_key() -> Pubkey {
    key(5)
}
fn rental_key() -> Pubkey {
    key(6)
}

fn new_listing(platform: &mut Platform, price: u64, deposit: u64, months: u8) -> Result<Listing, OracleError> {
    create_listing(
        platform,
        landlord(),
        254,
        "Sunny two-room flat".to_string(),
        "Near the park".to_string(),
        "TaipeiCity-DaanDistrict".to_string(),
        price,
        deposit,
        40,
        2,
        1,
        5,
        12,
        months,
        NOW,
        vec!["wifi".to_string(), "elevator".to_string()],
        NOW,
    )
}

fn active_rental(price: u64, deposit: u64, end_date: i64) -> Rental {
    Rental {
        rental_id: 9,
        listing: listing_key(),
        landlord: landlord(),
        tenant: tenant(),
        price,
        deposit,
        contract_length: 12,
        start_date: NOW - 30 * DAY,
        end_date,
        next_payment_date: NOW,
        status: RentalStatus::Active,
        payment_method: PaymentMethod::Sol,
        bump: 1,
        created_at: NOW - 30 * DAY,
        updated_at: NOW - 30 * DAY,
    }
}

#[test]
fn initialize_starts_at_zero() {
    let p = initialize(admin(), 255);
    assert_eq!(p.authority, admin());
    assert_eq!(p.bump, 255);
    assert_eq!((p.total_listings, p.total_rentals, p.total_volume), (0, 0, 0));
}

#[test]
fn pubkey_equality() {
    assert_eq!(key(1), key(1));
    assert_ne!(key(1), key(2));
    let mut b = [1u8; 32];
    b[31] = 0;
    assert_ne!(Pubkey::new(b), key(1));
}

#[test]
fn create_listing_assigns_sequential_ids() {
    let mut p = initialize(admin(), 255);
    let a = new_listing(&mut p, 30 * UNIT, 10 * UNIT, 12).unwrap();
    let b = new_listing(&mut p, 30 * UNIT, 10 * UNIT, 12).unwrap();
    assert_eq!(a.id, 0);
    assert_eq!(b.id, 1);
    assert_eq!(p.total_listings, 2);
    assert!(a.is_available);
    assert!(!a.is_verified);
    assert_eq!(a.created_at, NOW);
    assert_eq!(a.location, "TaipeiCity-DaanDistrict");
    assert_eq!(a.amenities.len(), 2);
}

#[test]
fn create_listing_rejected_by_gate_changes_nothing() {
    let mut p = initialize(admin(), 255);
    let r = new_listing(&mut p, 10 * UNIT, 0, 12);
    assert_eq!(r, Err(OracleError::PriceVerificationFailed));
    assert_eq!(p.total_listings, 0);
    let r = create_listing(
        &mut p, landlord(), 1, "t".to_string(), "d".to_string(), "Nowhere".to_string(),
        30 * UNIT, 0, 40, 2, 1, 5, 12, 12, NOW, vec![], NOW,
    );
    assert_eq!(r, Err(OracleError::LocationVerificationFailed));
    let r = create_listing(
        &mut p, landlord(), 1, "t".to_string(), "d".to_string(), "台北市大安區".to_string(),
        30 * UNIT, 0, 40, 11, 1, 5, 12, 12, NOW, vec![], NOW,
    );
    assert_eq!(r, Err(OracleError::ListingInfoVerificationFailed));
    assert_eq!(p, initialize(admin(), 255));
}

#[test]
fn verify_listing_only_by_platform_authority() {
    let mut p = initialize(admin(), 255);
    let mut l = new_listing(&mut p, 30 * UNIT, 10 * UNIT, 12).unwrap();
    let before = l.clone();
    assert_eq!(verify_listing(&mut l, &p, landlord(), NOW + 5), Err(RentalError::Unauthorized));
    assert_eq!(l, before);
    assert_eq!(verify_listing(&mut l, &p, admin(), NOW + 5), Ok(()));
    assert!(l.is_verified);
    assert_eq!(l.updated_at, NOW + 5);
}

#[test]
fn rent_moves_escrow_and_takes_listing() {
    let mut p = initialize(admin(), 255);
    let mut l = new_listing(&mut p, 30 * UNIT, 10 * UNIT, 12).unwrap();
    let (rental, t) = rent_property_sol(&mut p, &mut l, listing_key(), tenant(), 40 * UNIT, 7, 3, NOW).unwrap();
    assert_eq!(t.from, tenant());
    assert_eq!(t.to, landlord());
    assert_eq!(t.amount, 40 * UNIT);
    assert_eq!(t.method, PaymentMethod::Sol);
    assert_eq!(rental.rental_id, 7);
    assert_eq!(rental.listing, listing_key());
    assert_eq!(rental.landlord, landlord());
    assert_eq!(rental.tenant, tenant());
    assert_eq!(rental.start_date, NOW);
    assert_eq!(rental.end_date, NOW + 12 * MONTH);
    assert_eq!(rental.next_payment_date, NOW + MONTH);
    assert_eq!(rental.status, RentalStatus::Active);
    assert!(!l.is_available);
    assert_eq!(p.total_rentals, 1);
    assert_eq!(p.total_volume, 40 * UNIT);
}

#[test]
fn rent_in_token_records_method() {
    let mut p = initialize(admin(), 255);
    let mut l = new_listing(&mut p, 30 * UNIT, 10 * UNIT, 6).unwrap();
    let (rental, t) = rent_property_usdt(&mut p, &mut l, listing_key(), tenant(), u64::MAX, 1, 3, NOW).unwrap();
    assert_eq!(rental.payment_method, PaymentMethod::Usdt);
    assert_eq!(t.method, PaymentMethod::Usdt);
    assert_eq!(rental.end_date, NOW + 6 * MONTH);
}

#[test]
fn rent_refused_when_unavailable_whatever_the_funds() {
    let mut p = initialize(admin(), 255);
    let mut l = new_listing(&mut p, 30 * UNIT, 10 * UNIT, 12).unwrap();
    l.is_available = false;
    let before = (p, l.clone());
    for balance in [0, 40 * UNIT, u64::MAX] {
        let r = rent_property(&mut p, &mut l, listing_key(), tenant(), balance, PaymentMethod::Sol, 1, 1, NOW);
        assert_eq!(r, Err(RentalError::PropertyNotAvailable));
    }
    assert_eq!((p, l), before);
}

#[test]
fn rent_refused_on_insufficient_funds() {
    let mut p = initialize(admin(), 255);
    let mut l = new_listing(&mut p, 30 * UNIT, 10 * UNIT, 12).unwrap();
    let before = (p, l.clone());
    let r = rent_property_sol(&mut p, &mut l, listing_key(), tenant(), 40 * UNIT - 1, 1, 1, NOW);
    assert_eq!(r, Err(RentalError::InsufficientFunds));
    assert_eq!((p, l), before);
}

#[test]
fn rent_escrow_beyond_any_balance_is_insufficient() {
    let mut p = initialize(admin(), 255);
    let mut l = new_listing(&mut p, 30 * UNIT, u64::MAX, 12).unwrap();
    let r = rent_property_sol(&mut p, &mut l, listing_key(), tenant(), u64::MAX, 1, 1, NOW);
    assert_eq!(r, Err(RentalError::InsufficientFunds));
    assert!(l.is_available);
}

#[test]
fn pay_rent_before_due_fails_and_after_due_advances() {
    let mut p = initialize(admin(), 255);
    let mut r = active_rental(300, 1000, NOW + 300 * DAY);
    let before = r;
    assert_eq!(pay_rent_sol(&mut p, &mut r, 1000, NOW - 1), Err(RentalError::PaymentNotDue));
    assert_eq!(r, before);
    let t = pay_rent_sol(&mut p, &mut r, 1000, NOW).unwrap();
    assert_eq!((t.from, t.to, t.amount), (tenant(), landlord(), 300));
    assert_eq!(r.next_payment_date, NOW + 2_592_000);
    assert_eq!(r.updated_at, NOW);
    assert_eq!(p.total_volume, 300);
    let t = pay_rent_sol(&mut p, &mut r, 300, NOW + 40 * DAY).unwrap();
    assert_eq!(t.amount, 300);
    assert_eq!(r.next_payment_date, NOW + 2 * 2_592_000);
    assert_eq!(p.total_volume, 600);
}

#[test]
fn pay_rent_errors_in_order() {
    let mut p = initialize(admin(), 255);
    let mut r = active_rental(300, 1000, NOW + 300 * DAY);
    assert_eq!(pay_rent_usdt(&mut p, &mut r, 1000, NOW), Err(RentalError::InvalidPaymentMethod));
    assert_eq!(pay_rent(&mut p, &mut r, PaymentMethod::Sol, 299, NOW), Err(RentalError::InsufficientFunds));
    r.status = RentalStatus::Terminated;
    assert_eq!(pay_rent_sol(&mut p, &mut r, 1000, NOW), Err(RentalError::RentalNotActive));
    assert_eq!(p.total_volume, 0);
}

#[test]
fn landlord_termination_refunds_remaining_days() {
    let mut l = Listing { is_available: false, ..listing_fixture() };
    let mut r = active_rental(300, 1000, NOW + 10 * DAY);
    let t = terminate_rental(&mut l, &mut r, landlord(), NOW).unwrap().unwrap();
    assert_eq!((t.from, t.to, t.amount), (landlord(), tenant(), 1100));
    assert_eq!(t.method, PaymentMethod::Sol);
    assert_eq!(r.status, RentalStatus::Terminated);
    assert!(l.is_available);
}

#[test]
fn landlord_refund_truncates() {
    let r = active_rental(300, 1000, NOW + 11 * DAY);
    assert_eq!(landlord_refund(&r, NOW), Some(1110));
    let r = active_rental(100, 0, NOW + 11 * DAY + DAY - 1);
    assert_eq!(landlord_refund(&r, NOW), Some(36));
}

#[test]
fn landlord_refund_after_end_is_deposit_only() {
    let r = active_rental(300, 1000, NOW - 5 * DAY);
    assert_eq!(landlord_refund(&r, NOW), Some(1000));
    let r = active_rental(300, 1000, i64::MIN);
    assert_eq!(landlord_refund(&r, i64::MAX), Some(1000));
}

#[test]
fn landlord_refund_beyond_u64_is_insufficient() {
    let mut l = listing_fixture();
    let mut r = active_rental(u64::MAX, u64::MAX, NOW + 60 * DAY);
    assert_eq!(landlord_refund(&r, NOW), None);
    let before = r;
    assert_eq!(terminate_rental(&mut l, &mut r, landlord(), NOW), Err(RentalError::InsufficientFunds));
    assert_eq!(r, before);
}

#[test]
fn tenant_termination_moves_nothing() {
    let mut l = Listing { is_available: false, ..listing_fixture() };
    let mut r = active_rental(300, 1000, NOW + 10 * DAY);
    assert_eq!(terminate_rental(&mut l, &mut r, tenant(), NOW + 1), Ok(None));
    assert_eq!(r.status, RentalStatus::Terminated);
    assert_eq!(r.updated_at, NOW + 1);
    assert!(l.is_available);
    assert_eq!(l.updated_at, NOW + 1);
}

#[test]
fn termination_refusals() {
    let mut l = Listing { is_available: false, ..listing_fixture() };
    let mut r = active_rental(300, 1000, NOW + 10 * DAY);
    assert_eq!(terminate_rental(&mut l, &mut r, stranger(), NOW), Err(RentalError::Unauthorized));
    assert!(!l.is_available);
    r.status = RentalStatus::Expired;
    assert_eq!(terminate_rental(&mut l, &mut r, tenant(), NOW), Err(RentalError::RentalNotActive));
    assert_eq!(r.status, RentalStatus::Expired);
}

#[test]
fn adjust_overwrites_price_and_end() {
    let mut r = active_rental(300, 1000, NOW + 10 * DAY);
    let e = adjust_rental(&mut r, rental_key(), landlord(), 450, NOW + 99, "market".to_string(), NOW + 3).unwrap();
    assert_eq!(r.price, 450);
    assert_eq!(r.end_date, NOW + 99);
    assert_eq!(r.updated_at, NOW + 3);
    assert_eq!(e.rental, rental_key());
    assert_eq!(e.reason, "market");
    assert_eq!(e.adjusted_by, landlord());
    assert_eq!(e.timestamp, NOW + 3);
    let before = r;
    assert_eq!(
        adjust_rental(&mut r, rental_key(), stranger(), 1, 1, String::new(), NOW),
        Err(RentalError::Unauthorized)
    );
    r.status = RentalStatus::Terminated;
    assert_eq!(
        adjust_rental(&mut r, rental_key(), tenant(), 1, 1, String::new(), NOW),
        Err(RentalError::RentalNotActive)
    );
    assert_eq!(r.price, before.price);
}

#[test]
fn renew_extends_and_books_volume() {
    let mut p = initialize(admin(), 255);
    let mut r = active_rental(300, 1000, NOW + 10 * DAY);
    let e = renew_rental(&mut p, &mut r, rental_key(), tenant(), 6, 350, true, NOW).unwrap();
    assert_eq!(r.end_date, NOW + 10 * DAY + 6 * MONTH);
    assert_eq!(r.price, 350);
    assert_eq!(r.contract_length, 6);
    assert_eq!(e.new_end_date, r.end_date);
    assert!(e.auto_renew);
    assert_eq!(p.total_volume, 2100);
    assert_eq!(
        renew_rental(&mut p, &mut r, rental_key(), landlord(), 6, 350, true, NOW),
        Err(RentalError::Unauthorized)
    );
    p.total_volume = u64::MAX - 5;
    renew_rental(&mut p, &mut r, rental_key(), tenant(), 2, 10, false, NOW).unwrap();
    assert_eq!(p.total_volume, u64::MAX);
}

#[test]
fn transfer_to_self_fails_to_other_changes_tenant_only() {
    let mut r = active_rental(300, 1000, NOW + 10 * DAY);
    let before = r;
    assert_eq!(
        transfer_rental(&mut r, rental_key(), tenant(), tenant(), 5, NOW),
        Err(RentalError::InvalidTransfer)
    );
    assert_eq!(r, before);
    assert_eq!(
        transfer_rental(&mut r, rental_key(), landlord(), stranger(), 5, NOW),
        Err(RentalError::Unauthorized)
    );
    let e = transfer_rental(&mut r, rental_key(), tenant(), stranger(), 5, NOW + 7).unwrap();
    assert_eq!(r, Rental { tenant: stranger(), ..before });
    assert_eq!((e.old_tenant, e.new_tenant, e.transfer_fee), (tenant(), stranger(), 5));
    assert_eq!(e.timestamp, NOW + 7);
}

#[test]
fn extension_limits() {
    let mut r = active_rental(300, 1000, NOW + 10 * DAY);
    let before = r;
    assert_eq!(
        extend_rental(&mut r, rental_key(), tenant(), 0, "x".to_string(), NOW),
        Err(RentalError::InvalidExtension)
    );
    assert_eq!(
        extend_rental(&mut r, rental_key(), tenant(), 61, "x".to_string(), NOW),
        Err(RentalError::InvalidExtension)
    );
    assert_eq!(r, before);
    assert_eq!(
        extend_rental(&mut r, rental_key(), landlord(), 5, "x".to_string(), NOW),
        Err(RentalError::Unauthorized)
    );
    let e = extend_rental(&mut r, rental_key(), tenant(), 60, "moving".to_string(), NOW).unwrap();
    assert_eq!(r.end_date, before.end_date + 5_184_000);
    assert_eq!(e.new_end_date, r.end_date);
    assert_eq!(e.days, 60);
    assert_eq!(e.reason, "moving");
}

#[test]
fn scenario_list_rent_pay_and_refuse_second_rental() {
    let mut p = initialize(admin(), 255);
    let mut l = create_listing(
        &mut p, landlord(), 254, "Daan flat".to_string(), "".to_string(),
        "TaipeiCity-DaanDistrict".to_string(), 30 * UNIT, 10 * UNIT, 40, 2, 1, 5, 12, 12, NOW,
        vec![], NOW,
    )
    .unwrap();
    let (mut rental, t) = rent_property_sol(&mut p, &mut l, listing_key(), tenant(), 100 * UNIT, 0, 1, NOW).unwrap();
    assert_eq!(t.amount, 40 * UNIT);
    assert_eq!(rental.status, RentalStatus::Active);
    assert_eq!(rental.end_date, rental.start_date + rental.contract_length as i64 * 2_592_000);
    let due = rental.next_payment_date;
    pay_rent_sol(&mut p, &mut rental, 60 * UNIT, due).unwrap();
    assert_eq!(rental.next_payment_date, due + 2_592_000);
    assert_eq!(p.total_volume, 70 * UNIT);
    let second = rent_property_sol(&mut p, &mut l, listing_key(), stranger(), 100 * UNIT, 1, 1, NOW);
    assert_eq!(second, Err(RentalError::PropertyNotAvailable));
    assert_eq!(p.total_rentals, 1);
}

fn listing_fixture() -> Listing {
    let mut p = initialize(admin(), 255);
    new_listing(&mut p, 30 * UNIT, 10 * UNIT, 12).unwrap()
}

#[test]
fn availability_tracks_the_active_rental() {
    let mut p = initialize(admin(), 255);
    let mut l = new_listing(&mut p, 30 * UNIT, 10 * UNIT, 12).unwrap();
    assert!(l.is_available);
    let (mut first, _) = rent_property_sol(&mut p, &mut l, listing_key(), tenant(), 50 * UNIT, 0, 1, NOW).unwrap();
    assert!(!l.is_available);
    assert_eq!(terminate_rental(&mut l, &mut first, tenant(), NOW + DAY), Ok(None));
    assert!(l.is_available);
    assert_eq!(first.status, RentalStatus::Terminated);
    let (second, _) = rent_property_usdt(&mut p, &mut l, listing_key(), stranger(), 50 * UNIT, 1, 1, NOW + 2 * DAY).unwrap();
    assert!(!l.is_available);
    assert_eq!(second.status, RentalStatus::Active);
    assert_eq!(p.total_rentals, 2);
}
