//! The purchase preconditions one by one — first failure wins, nothing
//! changes on rejection — and the earliest-deadline policy for the ticket
//! expiration a purchase computes.

use twine::addr::{Addr, Clock};
use twine::error::ErrorCode;
use twine::purchase::{buy_product, PurchaseOutcome};
use twine::records::{Product, ProgramMetadata};

fn addr(id: u64) -> Addr {
    Addr { id }
}

fn clock(slot: u64, unix_timestamp: i64) -> Clock {
    Clock { slot, unix_timestamp }
}

fn sample_product() -> Product {
    Product {
        version: 0,
        status: 0,
        creator: addr(1),
        authority: addr(2),
        secondary_authority: addr(3),
        id: 7,
        tag: 0,
        is_snapshot: false,
        usable_snapshot: addr(0),
        pay_to: addr(4),
        store: addr(5),
        price: 100,
        inventory: 5,
        redemption_type: 0,
        expiration_timestamp: 0,
        expiration_minutes_after_purchase: 0,
        expiration_minutes_after_redemption: 0,
        name: vec![b'p'],
        description: vec![b'd'],
        data: vec![],
    }
}

struct BuyArgs {
    escrow: u64,
    pay_to: Addr,
    now: i64,
    quantity: u64,
    agreed_price: u64,
    agreed_expiration_timestamp: i64,
    agreed_after_purchase: u32,
    agreed_after_redemption: u32,
}

fn default_args() -> BuyArgs {
    BuyArgs {
        escrow: 250,
        pay_to: addr(4),
        now: 1000,
        quantity: 2,
        agreed_price: 100,
        agreed_expiration_timestamp: 0,
        agreed_after_purchase: 0,
        agreed_after_redemption: 0,
    }
}

fn try_buy(product: &mut Product, args: BuyArgs) -> (Result<PurchaseOutcome, ErrorCode>, u64) {
    let pm = ProgramMetadata {
        initialized: true,
        version: 0,
        creator: addr(1),
        authority: addr(2),
        secondary_authority: addr(3),
        fee_account: addr(9),
        fee: 10,
    };
    let mut escrow = args.escrow;
    let mut fee_balance: u64 = 0;
    let mut pay_to_balance: u64 = 0;
    let r = buy_product(
        product,
        addr(20),
        &pm,
        &mut escrow,
        &mut fee_balance,
        &mut pay_to_balance,
        clock(3, args.now),
        addr(30),
        addr(30),
        args.pay_to,
        addr(21),
        addr(22),
        addr(23),
        1,
        args.quantity,
        args.agreed_price,
        args.agreed_expiration_timestamp,
        args.agreed_after_purchase,
        args.agreed_after_redemption,
    );
    (r, escrow)
}

#[test]
fn inactive_product_is_rejected() {
    let mut product = sample_product();
    product.status = 1;
    let (r, escrow) = try_buy(&mut product, default_args());
    assert_eq!(r.err(), Some(ErrorCode::ProductIsNotActive));
    assert_eq!(escrow, 250);
    assert_eq!(product.inventory, 5);
}

#[test]
fn short_inventory_is_rejected() {
    let mut product = sample_product();
    product.inventory = 1;
    let (r, _) = try_buy(&mut product, default_args());
    assert_eq!(r.err(), Some(ErrorCode::NotEnoughInventory));
    assert_eq!(product.inventory, 1);
}

#[test]
fn agreed_terms_must_match_exactly() {
    let mut product = sample_product();
    product.expiration_timestamp = 5000;
    let mut args = default_args();
    args.agreed_expiration_timestamp = 4999;
    let (r, _) = try_buy(&mut product, args);
    assert_eq!(r.err(), Some(ErrorCode::AgreedExpirationDoesntMatch));

    let mut product = sample_product();
    product.expiration_minutes_after_purchase = 60;
    let mut args = default_args();
    args.agreed_after_purchase = 30;
    let (r, _) = try_buy(&mut product, args);
    assert_eq!(r.err(), Some(ErrorCode::AgreedExpirationAfterPurchaseDoesntMatch));

    let mut product = sample_product();
    product.expiration_minutes_after_redemption = 60;
    let mut args = default_args();
    args.agreed_after_redemption = 30;
    let (r, _) = try_buy(&mut product, args);
    assert_eq!(r.err(), Some(ErrorCode::AgreedExpirationAfterRedemptionDoesntMatch));
}

#[test]
fn snapshots_are_unbuyable() {
    let mut product = sample_product();
    product.is_snapshot = true;
    let (r, escrow) = try_buy(&mut product, default_args());
    assert_eq!(r.err(), Some(ErrorCode::UnableToPurchaseSnapshot));
    assert_eq!(escrow, 250);
}

#[test]
fn expired_product_is_rejected() {
    let mut product = sample_product();
    product.expiration_timestamp = 900;
    let mut args = default_args();
    args.agreed_expiration_timestamp = 900;
    args.now = 1000;
    let (r, _) = try_buy(&mut product, args);
    assert_eq!(r.err(), Some(ErrorCode::ProductIsExpired));
}

#[test]
fn escrow_must_cover_price_and_fee() {
    let mut product = sample_product();
    let mut args = default_args();
    args.escrow = 209;
    let (r, escrow) = try_buy(&mut product, args);
    assert_eq!(r.err(), Some(ErrorCode::InsufficientFunds));
    assert_eq!(escrow, 209);

    // Exactly price * quantity + fee suffices; only the fee leaves a
    // deferred purchase's escrow.
    let mut args = default_args();
    args.escrow = 210;
    let (r, escrow) = try_buy(&mut product, args);
    assert!(r.is_ok());
    assert_eq!(escrow, 200);
}

#[test]
fn pay_to_must_match_product() {
    let mut product = sample_product();
    let mut args = default_args();
    args.pay_to = addr(8);
    let (r, escrow) = try_buy(&mut product, args);
    assert_eq!(r.err(), Some(ErrorCode::PublicKeyMismatch));
    assert_eq!(escrow, 250);
}

#[test]
fn first_failing_check_decides_the_error() {
    // Inactive and short on inventory at once: the status check comes first.
    let mut product = sample_product();
    product.status = 1;
    product.inventory = 0;
    let (r, _) = try_buy(&mut product, default_args());
    assert_eq!(r.err(), Some(ErrorCode::ProductIsNotActive));
}

#[test]
fn relative_deadline_alone_sets_the_expiration() {
    let mut product = sample_product();
    product.expiration_minutes_after_purchase = 30;
    let mut args = default_args();
    args.agreed_after_purchase = 30;
    let (r, _) = try_buy(&mut product, args);
    let ticket = r.unwrap().ticket;
    assert_eq!(ticket.expiration, 1000 + 30 * 60);
}

#[test]
fn earlier_absolute_deadline_wins() {
    let mut product = sample_product();
    product.expiration_minutes_after_purchase = 30;
    product.expiration_timestamp = 1500;
    let mut args = default_args();
    args.agreed_after_purchase = 30;
    args.agreed_expiration_timestamp = 1500;
    let (r, _) = try_buy(&mut product, args);
    let ticket = r.unwrap().ticket;
    // min(1000 + 1800, 1500) = 1500.
    assert_eq!(ticket.expiration, 1500);
}

#[test]
fn later_absolute_deadline_defers_to_the_relative_one() {
    let mut product = sample_product();
    product.expiration_minutes_after_purchase = 30;
    product.expiration_timestamp = 90000;
    let mut args = default_args();
    args.agreed_after_purchase = 30;
    args.agreed_expiration_timestamp = 90000;
    let (r, _) = try_buy(&mut product, args);
    let ticket = r.unwrap().ticket;
    // min(1000 + 1800, 90000) = 2800.
    assert_eq!(ticket.expiration, 2800);
}

#[test]
fn absolute_deadline_alone_sets_the_expiration() {
    let mut product = sample_product();
    product.expiration_timestamp = 90000;
    let mut args = default_args();
    args.agreed_expiration_timestamp = 90000;
    let (r, _) = try_buy(&mut product, args);
    let ticket = r.unwrap().ticket;
    assert_eq!(ticket.expiration, 90000);
}
