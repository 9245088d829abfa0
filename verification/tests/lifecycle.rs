//! The purchase/redemption lifecycle end to end: deferred and immediate
//! purchases, redemption initiation, take and cancellation, ticket transfer
//! and cancellation, and the conservation of a ticket's quantity counters.

use twine::addr::{Addr, Clock};
use twine::error::ErrorCode;
use twine::purchase::{buy_product, PurchaseOutcome};
use twine::records::{Product, ProgramMetadata, PurchaseTicket, TicketTaker};
use twine::redemption::{
    cancel_redemption, create_product_ticket_taker, create_store_ticket_taker,
    initiate_redemption, take_redemption,
};
use twine::ticket::{cancel_ticket, transfer_ticket};

fn addr(id: u64) -> Addr {
    Addr { id }
}

fn clock(slot: u64, unix_timestamp: i64) -> Clock {
    Clock { slot, unix_timestamp }
}

fn sample_product(price: u64, inventory: u64, redemption_type: u8) -> Product {
    Product {
        version: 0,
        status: 0,
        creator: addr(1),
        authority: addr(2),
        secondary_authority: addr(3),
        id: 7,
        tag: 0,
        is_snapshot: false,
        usable_snapshot: addr(0),
        pay_to: addr(4),
        store: addr(5),
        price,
        inventory,
        redemption_type,
        expiration_timestamp: 0,
        expiration_minutes_after_purchase: 0,
        expiration_minutes_after_redemption: 0,
        name: vec![b'p'],
        description: vec![b'd'],
        data: vec![],
    }
}

fn sample_metadata(fee: u64) -> ProgramMetadata {
    ProgramMetadata {
        initialized: true,
        version: 0,
        creator: addr(1),
        authority: addr(2),
        secondary_authority: addr(3),
        fee_account: addr(9),
        fee,
    }
}

/// Buys with terms agreed exactly as the product currently carries them.
fn buy_at_current_terms(
    product: &mut Product,
    escrow: &mut u64,
    fee_balance: &mut u64,
    pay_to_balance: &mut u64,
    quantity: u64,
    agreed_price: u64,
) -> Result<PurchaseOutcome, ErrorCode> {
    let pay_to = product.pay_to;
    let expiration_timestamp = product.expiration_timestamp;
    let after_purchase = product.expiration_minutes_after_purchase;
    let after_redemption = product.expiration_minutes_after_redemption;
    let pm = sample_metadata(10);
    buy_product(
        product,
        addr(20),
        &pm,
        escrow,
        fee_balance,
        pay_to_balance,
        clock(3, 1000),
        addr(30),
        addr(30),
        pay_to,
        addr(21),
        addr(22),
        addr(23),
        1,
        quantity,
        agreed_price,
        expiration_timestamp,
        after_purchase,
        after_redemption,
    )
}

fn sample_taker(entity: Addr, entity_type: u8) -> TicketTaker {
    TicketTaker {
        version: 0,
        taker: addr(50),
        entity_type,
        entity,
        authorized_by: addr(2),
        enabled_slot: 3,
        enabled_timestamp: 1000,
        disabled_slot: 0,
        disabled_timestamp: 0,
    }
}

#[test]
fn scenario_a_deferred_purchase_holds_payment_in_escrow() {
    let mut product = sample_product(100, 5, 0);
    let mut escrow: u64 = 250;
    let mut fee_balance: u64 = 0;
    let mut pay_to_balance: u64 = 0;
    let r = buy_at_current_terms(&mut product, &mut escrow, &mut fee_balance, &mut pay_to_balance, 2, 100);
    let outcome = r.unwrap();
    assert_eq!(product.inventory, 3);
    assert_eq!(fee_balance, 10);
    assert_eq!(escrow, 240);
    assert_eq!(pay_to_balance, 0);
    assert_eq!(outcome.ticket.remaining_quantity, 2);
    assert_eq!(outcome.ticket.redeemed, 0);
    assert_eq!(outcome.ticket.pending_redemption, 0);
    assert_eq!(outcome.ticket.price, 100);
    assert!(outcome.product_snapshot.is_snapshot);
    assert_eq!(outcome.product_snapshot.inventory, 5);
    assert_eq!(outcome.product_snapshot.price, 100);
    assert_eq!(outcome.snapshot_metadata.product, addr(20));
    assert_eq!(outcome.snapshot_metadata.product_snapshot, addr(22));
    assert_eq!(outcome.snapshot_metadata.nonce, 1);
}

#[test]
fn scenario_b_immediate_purchase_releases_payment() {
    let mut product = sample_product(100, 5, 1);
    let mut escrow: u64 = 250;
    let mut fee_balance: u64 = 0;
    let mut pay_to_balance: u64 = 0;
    let r = buy_at_current_terms(&mut product, &mut escrow, &mut fee_balance, &mut pay_to_balance, 2, 100);
    let outcome = r.unwrap();
    assert_eq!(pay_to_balance, 200);
    assert_eq!(fee_balance, 10);
    assert_eq!(escrow, 40);
    assert_eq!(outcome.ticket.remaining_quantity, 0);
    assert_eq!(outcome.ticket.redeemed, 2);
    assert_eq!(product.inventory, 3);
}

#[test]
fn scenario_c_initiate_then_take_pays_seller() {
    let mut product = sample_product(100, 5, 0);
    let mut escrow: u64 = 250;
    let mut fee_balance: u64 = 0;
    let mut pay_to_balance: u64 = 0;
    let outcome = buy_at_current_terms(
        &mut product, &mut escrow, &mut fee_balance, &mut pay_to_balance, 2, 100,
    ).unwrap();
    let mut ticket = outcome.ticket;

    let mut redemption = initiate_redemption(
        &mut ticket, addr(40), addr(30), escrow, clock(4, 2000), 1, 1, 0,
    ).unwrap();
    assert_eq!(ticket.remaining_quantity, 1);
    assert_eq!(ticket.pending_redemption, 1);
    assert_eq!(redemption.status, twine::records::REDEMPTION_STATUS_WAITING);
    assert_eq!(redemption.redeem_quantity, 1);
    assert_eq!(redemption.price, 100);

    let taker = sample_taker(ticket.product, twine::records::ENTITY_TYPE_PRODUCT);
    let t = take_redemption(
        &mut ticket, &mut redemption, &taker, addr(60), addr(50),
        &mut escrow, &mut pay_to_balance, clock(5, 3000),
    );
    assert!(t.is_ok());
    assert_eq!(pay_to_balance, 100);
    assert_eq!(escrow, 140);
    assert_eq!(ticket.redeemed, 1);
    assert_eq!(ticket.pending_redemption, 0);
    assert_eq!(ticket.remaining_quantity, 1);
    assert_eq!(redemption.status, twine::records::REDEMPTION_STATUS_REDEEMED);
    assert_eq!(redemption.ticket_taker, addr(60));
    assert_eq!(redemption.ticket_taker_signer, addr(50));
    assert_eq!(redemption.close_slot, 5);
}

#[test]
fn scenario_d_cancel_restores_ticket_and_blocks_take() {
    let mut product = sample_product(100, 5, 0);
    let mut escrow: u64 = 250;
    let mut fee_balance: u64 = 0;
    let mut pay_to_balance: u64 = 0;
    let outcome = buy_at_current_terms(
        &mut product, &mut escrow, &mut fee_balance, &mut pay_to_balance, 2, 100,
    ).unwrap();
    let mut ticket = outcome.ticket;

    let mut redemption = initiate_redemption(
        &mut ticket, addr(40), addr(30), escrow, clock(4, 2000), 1, 1, 0,
    ).unwrap();
    assert_eq!(ticket.remaining_quantity, 1);
    assert_eq!(ticket.pending_redemption, 1);

    let c = cancel_redemption(&mut ticket, &mut redemption, addr(30), clock(5, 3000));
    assert!(c.is_ok());
    assert_eq!(ticket.remaining_quantity, 2);
    assert_eq!(ticket.pending_redemption, 0);
    assert_eq!(redemption.status, twine::records::REDEMPTION_STATUS_CANCELLED);
    assert_eq!(escrow, 240);
    assert_eq!(pay_to_balance, 0);

    let taker = sample_taker(ticket.product, twine::records::ENTITY_TYPE_PRODUCT);
    let t = take_redemption(
        &mut ticket, &mut redemption, &taker, addr(60), addr(50),
        &mut escrow, &mut pay_to_balance, clock(6, 4000),
    );
    assert_eq!(t, Err(ErrorCode::AlreadyProcessed));
    assert_eq!(escrow, 240);
    assert_eq!(pay_to_balance, 0);
    assert_eq!(ticket.remaining_quantity, 2);
}

#[test]
fn scenario_e_low_agreed_price_changes_nothing() {
    let mut product = sample_product(100, 5, 0);
    let mut escrow: u64 = 250;
    let mut fee_balance: u64 = 0;
    let mut pay_to_balance: u64 = 0;
    let r = buy_at_current_terms(&mut product, &mut escrow, &mut fee_balance, &mut pay_to_balance, 2, 99);
    assert_eq!(r.err(), Some(ErrorCode::PriceIsGreaterThanPayment));
    assert_eq!(product.inventory, 5);
    assert_eq!(escrow, 250);
    assert_eq!(fee_balance, 0);
    assert_eq!(pay_to_balance, 0);
}

#[test]
fn conservation_holds_across_the_whole_lifecycle() {
    let mut product = sample_product(100, 10, 0);
    let mut escrow: u64 = 1010;
    let mut fee_balance: u64 = 0;
    let mut pay_to_balance: u64 = 0;
    let outcome = buy_at_current_terms(
        &mut product, &mut escrow, &mut fee_balance, &mut pay_to_balance, 10, 100,
    ).unwrap();
    let mut ticket = outcome.ticket;
    let total = |t: &PurchaseTicket| t.remaining_quantity + t.redeemed + t.pending_redemption;
    assert_eq!(total(&ticket), 10);

    let mut first = initiate_redemption(
        &mut ticket, addr(40), addr(30), escrow, clock(4, 2000), 1, 3, 0,
    ).unwrap();
    assert_eq!(total(&ticket), 10);

    let mut second = initiate_redemption(
        &mut ticket, addr(40), addr(30), escrow, clock(5, 2500), 2, 2, 0,
    ).unwrap();
    assert_eq!(total(&ticket), 10);

    let taker = sample_taker(ticket.product, twine::records::ENTITY_TYPE_PRODUCT);
    take_redemption(
        &mut ticket, &mut first, &taker, addr(60), addr(50),
        &mut escrow, &mut pay_to_balance, clock(6, 3000),
    ).unwrap();
    assert_eq!(total(&ticket), 10);
    assert_eq!(ticket.redeemed, 3);

    cancel_redemption(&mut ticket, &mut second, addr(30), clock(7, 3500)).unwrap();
    assert_eq!(total(&ticket), 10);
    assert_eq!(ticket.remaining_quantity, 7);
    assert_eq!(ticket.pending_redemption, 0);
}

#[test]
fn transfer_moves_quantity_and_escrowed_funds() {
    let mut product = sample_product(100, 5, 0);
    let mut escrow: u64 = 510;
    let mut fee_balance: u64 = 0;
    let mut pay_to_balance: u64 = 0;
    let outcome = buy_at_current_terms(
        &mut product, &mut escrow, &mut fee_balance, &mut pay_to_balance, 5, 100,
    ).unwrap();
    let mut source = outcome.ticket;
    let mut destination_escrow: u64 = 0;

    let destination = transfer_ticket(
        &mut source, &mut escrow, &mut destination_escrow,
        addr(30), addr(70), addr(71), clock(4, 2000), 2, 2,
    ).unwrap();
    assert_eq!(source.remaining_quantity, 3);
    assert_eq!(source.redeemed, 0);
    assert_eq!(source.pending_redemption, 0);
    assert_eq!(destination.remaining_quantity, 2);
    assert_eq!(destination.redeemed, 0);
    assert_eq!(destination.pending_redemption, 0);
    assert_eq!(destination.authority, addr(70));
    assert_eq!(destination.buyer, addr(30));
    assert_eq!(destination.payment, addr(71));
    assert_eq!(destination.price, 100);
    assert_eq!(destination.product, source.product);
    assert_eq!(destination.product_snapshot, source.product_snapshot);
    assert_eq!(escrow, 300);
    assert_eq!(destination_escrow, 200);
    // The two tickets together still account for the five units bought.
    assert_eq!(
        source.remaining_quantity + destination.remaining_quantity
            + source.redeemed + source.pending_redemption,
        5
    );
}

#[test]
fn cancel_ticket_refunds_and_restocks() {
    let mut product = sample_product(100, 5, 0);
    let mut escrow: u64 = 510;
    let mut fee_balance: u64 = 0;
    let mut pay_to_balance: u64 = 0;
    let outcome = buy_at_current_terms(
        &mut product, &mut escrow, &mut fee_balance, &mut pay_to_balance, 5, 100,
    ).unwrap();
    let mut ticket = outcome.ticket;
    assert_eq!(product.inventory, 0);

    let mut refund: u64 = 0;
    let r = cancel_ticket(&mut ticket, &mut product, &mut escrow, &mut refund, addr(30), 2);
    assert!(r.is_ok());
    assert_eq!(ticket.remaining_quantity, 3);
    assert_eq!(product.inventory, 2);
    assert_eq!(refund, 200);
    assert_eq!(escrow, 300);
}

#[test]
fn take_requires_matching_taker_and_signer() {
    let mut product = sample_product(100, 5, 0);
    let mut escrow: u64 = 250;
    let mut fee_balance: u64 = 0;
    let mut pay_to_balance: u64 = 0;
    let outcome = buy_at_current_terms(
        &mut product, &mut escrow, &mut fee_balance, &mut pay_to_balance, 2, 100,
    ).unwrap();
    let mut ticket = outcome.ticket;
    let mut redemption = initiate_redemption(
        &mut ticket, addr(40), addr(30), escrow, clock(4, 2000), 1, 1, 0,
    ).unwrap();

    // Authorized for neither the product nor the store.
    let stranger = sample_taker(addr(99), twine::records::ENTITY_TYPE_PRODUCT);
    let t = take_redemption(
        &mut ticket, &mut redemption, &stranger, addr(60), addr(50),
        &mut escrow, &mut pay_to_balance, clock(5, 3000),
    );
    assert_eq!(t, Err(ErrorCode::InvalidTicketTaker));

    // Right taker record, wrong signer.
    let taker = sample_taker(ticket.product, twine::records::ENTITY_TYPE_PRODUCT);
    let t = take_redemption(
        &mut ticket, &mut redemption, &taker, addr(60), addr(51),
        &mut escrow, &mut pay_to_balance, clock(5, 3000),
    );
    assert_eq!(t, Err(ErrorCode::InvalidTicketTakerSigner));

    // A taker authorized for the store works too.
    let store_taker = sample_taker(ticket.store, twine::records::ENTITY_TYPE_STORE);
    let t = take_redemption(
        &mut ticket, &mut redemption, &store_taker, addr(61), addr(50),
        &mut escrow, &mut pay_to_balance, clock(5, 3000),
    );
    assert!(t.is_ok());
}

#[test]
fn take_twice_reports_already_redeemed() {
    let mut product = sample_product(100, 5, 0);
    let mut escrow: u64 = 250;
    let mut fee_balance: u64 = 0;
    let mut pay_to_balance: u64 = 0;
    let outcome = buy_at_current_terms(
        &mut product, &mut escrow, &mut fee_balance, &mut pay_to_balance, 2, 100,
    ).unwrap();
    let mut ticket = outcome.ticket;
    let mut redemption = initiate_redemption(
        &mut ticket, addr(40), addr(30), escrow, clock(4, 2000), 1, 1, 0,
    ).unwrap();
    let taker = sample_taker(ticket.product, twine::records::ENTITY_TYPE_PRODUCT);
    take_redemption(
        &mut ticket, &mut redemption, &taker, addr(60), addr(50),
        &mut escrow, &mut pay_to_balance, clock(5, 3000),
    ).unwrap();
    let again = take_redemption(
        &mut ticket, &mut redemption, &taker, addr(60), addr(50),
        &mut escrow, &mut pay_to_balance, clock(6, 4000),
    );
    assert_eq!(again, Err(ErrorCode::AlreadyRedeemed));
}

#[test]
fn cancel_after_close_reports_already_processed() {
    let mut product = sample_product(100, 5, 0);
    let mut escrow: u64 = 250;
    let mut fee_balance: u64 = 0;
    let mut pay_to_balance: u64 = 0;
    let outcome = buy_at_current_terms(
        &mut product, &mut escrow, &mut fee_balance, &mut pay_to_balance, 2, 100,
    ).unwrap();
    let mut ticket = outcome.ticket;
    let mut redemption = initiate_redemption(
        &mut ticket, addr(40), addr(30), escrow, clock(4, 2000), 1, 1, 0,
    ).unwrap();
    cancel_redemption(&mut ticket, &mut redemption, addr(30), clock(5, 3000)).unwrap();
    let again = cancel_redemption(&mut ticket, &mut redemption, addr(30), clock(6, 4000));
    assert_eq!(again, Err(ErrorCode::AlreadyProcessed));
}

#[test]
fn take_window_elapses() {
    let mut product = sample_product(100, 5, 0);
    let mut escrow: u64 = 250;
    let mut fee_balance: u64 = 0;
    let mut pay_to_balance: u64 = 0;
    let outcome = buy_at_current_terms(
        &mut product, &mut escrow, &mut fee_balance, &mut pay_to_balance, 2, 100,
    ).unwrap();
    let mut ticket = outcome.ticket;
    // A thirty-minute take window opens at time 2000.
    let mut redemption = initiate_redemption(
        &mut ticket, addr(40), addr(30), escrow, clock(4, 2000), 1, 1, 30,
    ).unwrap();
    assert_eq!(redemption.take_expiration, 2000 + 30 * 60);

    let taker = sample_taker(ticket.product, twine::records::ENTITY_TYPE_PRODUCT);
    let late = take_redemption(
        &mut ticket, &mut redemption, &taker, addr(60), addr(50),
        &mut escrow, &mut pay_to_balance, clock(9, 2000 + 30 * 60 + 1),
    );
    assert_eq!(late, Err(ErrorCode::TakeIsExpired));
}

#[test]
fn usage_expiration_computed_from_post_redemption_term() {
    let mut product = sample_product(100, 5, 0);
    product.expiration_minutes_after_redemption = 15;
    let mut escrow: u64 = 250;
    let mut fee_balance: u64 = 0;
    let mut pay_to_balance: u64 = 0;
    let outcome = buy_at_current_terms(
        &mut product, &mut escrow, &mut fee_balance, &mut pay_to_balance, 2, 100,
    ).unwrap();
    let mut ticket = outcome.ticket;
    assert_eq!(ticket.expiration_minutes_after_redemption, 15);
    let mut redemption = initiate_redemption(
        &mut ticket, addr(40), addr(30), escrow, clock(4, 2000), 1, 1, 0,
    ).unwrap();
    let taker = sample_taker(ticket.product, twine::records::ENTITY_TYPE_PRODUCT);
    take_redemption(
        &mut ticket, &mut redemption, &taker, addr(60), addr(50),
        &mut escrow, &mut pay_to_balance, clock(5, 3000),
    ).unwrap();
    assert_eq!(redemption.usage_expiration, 3000 + 15 * 60);
}

#[test]
fn initiate_rejections_in_order() {
    let mut ticket = PurchaseTicket {
        version: 0,
        slot: 3,
        timestamp: 1000,
        product: addr(20),
        product_snapshot_metadata: addr(21),
        product_snapshot: addr(22),
        buyer: addr(30),
        pay_to: addr(4),
        authority: addr(30),
        remaining_quantity: 2,
        redeemed: 0,
        pending_redemption: 0,
        nonce: 1,
        price: 100,
        store: addr(5),
        payment: addr(23),
        expiration: 0,
        expiration_minutes_after_redemption: 0,
    };
    let wrong_caller = initiate_redemption(
        &mut ticket, addr(40), addr(31), 240, clock(4, 2000), 1, 1, 0,
    );
    assert_eq!(wrong_caller.err(), Some(ErrorCode::IncorrectAuthority));

    let zero = initiate_redemption(&mut ticket, addr(40), addr(30), 240, clock(4, 2000), 1, 0, 0);
    assert_eq!(zero.err(), Some(ErrorCode::QuantityMustBeGreaterThanZero));

    let too_many = initiate_redemption(
        &mut ticket, addr(40), addr(30), 240, clock(4, 2000), 1, 3, 0,
    );
    assert_eq!(too_many.err(), Some(ErrorCode::InsufficientRemainingRedemptions));

    let poor = initiate_redemption(&mut ticket, addr(40), addr(30), 99, clock(4, 2000), 1, 1, 0);
    assert_eq!(poor.err(), Some(ErrorCode::InsufficientFunds));

    ticket.expiration = 1500;
    let expired = initiate_redemption(
        &mut ticket, addr(40), addr(30), 240, clock(4, 2000), 1, 1, 0,
    );
    assert_eq!(expired.err(), Some(ErrorCode::TicketIsExpired));
    assert_eq!(ticket.remaining_quantity, 2);
    assert_eq!(ticket.pending_redemption, 0);
}

#[test]
fn transfer_rejections() {
    let mut source = PurchaseTicket {
        version: 0,
        slot: 3,
        timestamp: 1000,
        product: addr(20),
        product_snapshot_metadata: addr(21),
        product_snapshot: addr(22),
        buyer: addr(30),
        pay_to: addr(4),
        authority: addr(30),
        remaining_quantity: 2,
        redeemed: 0,
        pending_redemption: 0,
        nonce: 1,
        price: 100,
        store: addr(5),
        payment: addr(23),
        expiration: 0,
        expiration_minutes_after_redemption: 0,
    };
    let mut source_escrow: u64 = 200;
    let mut destination_escrow: u64 = 0;

    let wrong = transfer_ticket(
        &mut source, &mut source_escrow, &mut destination_escrow,
        addr(31), addr(70), addr(71), clock(4, 2000), 2, 1,
    );
    assert_eq!(wrong.err(), Some(ErrorCode::IncorrectAuthority));

    let zero = transfer_ticket(
        &mut source, &mut source_escrow, &mut destination_escrow,
        addr(30), addr(70), addr(71), clock(4, 2000), 2, 0,
    );
    assert_eq!(zero.err(), Some(ErrorCode::QuantityMustBeGreaterThanZero));

    let too_many = transfer_ticket(
        &mut source, &mut source_escrow, &mut destination_escrow,
        addr(30), addr(70), addr(71), clock(4, 2000), 2, 3,
    );
    assert_eq!(too_many.err(), Some(ErrorCode::InsufficientQuantity));

    source_escrow = 99;
    let poor = transfer_ticket(
        &mut source, &mut source_escrow, &mut destination_escrow,
        addr(30), addr(70), addr(71), clock(4, 2000), 2, 1,
    );
    assert_eq!(poor.err(), Some(ErrorCode::InsufficientFunds));

    source.expiration = 1500;
    source_escrow = 200;
    let expired = transfer_ticket(
        &mut source, &mut source_escrow, &mut destination_escrow,
        addr(30), addr(70), addr(71), clock(4, 2000), 2, 1,
    );
    assert_eq!(expired.err(), Some(ErrorCode::TicketIsExpired));
    assert_eq!(source.remaining_quantity, 2);
    assert_eq!(source_escrow, 200);
    assert_eq!(destination_escrow, 0);
}

#[test]
fn cancel_ticket_rejections() {
    let mut product = sample_product(100, 0, 0);
    let mut ticket = PurchaseTicket {
        version: 0,
        slot: 3,
        timestamp: 1000,
        product: addr(20),
        product_snapshot_metadata: addr(21),
        product_snapshot: addr(22),
        buyer: addr(30),
        pay_to: addr(4),
        authority: addr(30),
        remaining_quantity: 2,
        redeemed: 0,
        pending_redemption: 0,
        nonce: 1,
        price: 100,
        store: addr(5),
        payment: addr(23),
        expiration: 0,
        expiration_minutes_after_redemption: 0,
    };
    let mut escrow: u64 = 200;
    let mut refund: u64 = 0;

    let wrong = cancel_ticket(&mut ticket, &mut product, &mut escrow, &mut refund, addr(31), 1);
    assert_eq!(wrong.err(), Some(ErrorCode::IncorrectAuthority));

    let too_many = cancel_ticket(&mut ticket, &mut product, &mut escrow, &mut refund, addr(30), 3);
    assert_eq!(too_many.err(), Some(ErrorCode::InsufficientQuantity));

    escrow = 99;
    let poor = cancel_ticket(&mut ticket, &mut product, &mut escrow, &mut refund, addr(30), 1);
    assert_eq!(poor.err(), Some(ErrorCode::InsufficientFunds));
    assert_eq!(ticket.remaining_quantity, 2);
    assert_eq!(product.inventory, 0);
}

#[test]
fn ticket_takers_are_authority_gated() {
    let store = twine::catalog::create_store(
        addr(1), addr(2), addr(3), 9, 0, vec![b's'], vec![], vec![],
    ).unwrap();
    let granted = create_store_ticket_taker(&store, addr(5), addr(2), addr(50), clock(3, 1000));
    let taker = granted.unwrap();
    assert_eq!(taker.entity, addr(5));
    assert_eq!(taker.entity_type, twine::records::ENTITY_TYPE_STORE);
    assert_eq!(taker.taker, addr(50));
    assert_eq!(taker.authorized_by, addr(2));
    assert_eq!(taker.enabled_slot, 3);
    assert_eq!(taker.disabled_slot, 0);

    let refused = create_store_ticket_taker(&store, addr(5), addr(8), addr(50), clock(3, 1000));
    assert_eq!(refused.err(), Some(ErrorCode::IncorrectAuthority));

    let product = sample_product(100, 5, 0);
    let granted = create_product_ticket_taker(&product, addr(20), addr(3), addr(50), clock(3, 1000));
    let taker = granted.unwrap();
    assert_eq!(taker.entity, addr(20));
    assert_eq!(taker.entity_type, twine::records::ENTITY_TYPE_PRODUCT);

    let refused = create_product_ticket_taker(&product, addr(20), addr(8), addr(50), clock(3, 1000));
    assert_eq!(refused.err(), Some(ErrorCode::IncorrectAuthority));
}
