//! The redemption workflow: a secondary state machine layered on a purchase
//! ticket. Quantity is claimed in installments — `initiate_redemption` checks
//! quantity out of the ticket into a WAITING redemption, `take_redemption`
//! settles it (paying the seller from escrow), and `cancel_redemption`
//! returns it. REDEEMED and CANCELLED are final. Ticket takers are the
//! parties a store's or product's authority designates to service takes.

use vstd::prelude::*;
use crate::addr::{Addr, Clock};
use crate::error::ErrorCode;
use crate::records::{
    PurchaseTicket, Redemption, Store, Product, TicketTaker, deadline_passed,
    ENTITY_TYPE_PRODUCT, ENTITY_TYPE_STORE, REDEMPTION_STATUS_CANCELLED,
    REDEMPTION_STATUS_REDEEMED, REDEMPTION_STATUS_WAITING, REDEMPTION_VERSION,
    TICKET_TAKER_VERSION,
};

verus! {

/// The preconditions of `initiate_redemption`, in order; the first failure
/// decides the error.
pub open spec fn initiate_redemption_error(
    ticket: PurchaseTicket,
    caller: Addr,
    escrow_amount: u64,
    now: int,
    quantity: u64,
) -> Option<ErrorCode> {
    if ticket.authority != caller {
        Some(ErrorCode::IncorrectAuthority)
    } else if quantity == 0 {
        Some(ErrorCode::QuantityMustBeGreaterThanZero)
    } else if quantity > ticket.remaining_quantity {
        Some(ErrorCode::InsufficientRemainingRedemptions)
    } else if escrow_amount < ticket.price * quantity {
        Some(ErrorCode::InsufficientFunds)
    } else if deadline_passed(ticket.expiration as int, now) {
        Some(ErrorCode::TicketIsExpired)
    } else {
        None
    }
}

/// The WAITING redemption a successful initiation creates.
pub open spec fn initiated_redemption(
    ticket: PurchaseTicket,
    ticket_addr: Addr,
    caller: Addr,
    clock: Clock,
    nonce: u32,
    quantity: u64,
    take_expiration_minutes: u32,
) -> Redemption {
    Redemption {
        version: REDEMPTION_VERSION,
        nonce: nonce,
        init_slot: clock.slot,
        close_slot: 0u64,
        init_timestamp: clock.unix_timestamp,
        close_timestamp: 0i64,
        store: ticket.store,
        product: ticket.product,
        product_snapshot_metadata: ticket.product_snapshot_metadata,
        product_snapshot: ticket.product_snapshot,
        purchase_ticket: ticket_addr,
        purchase_ticket_signer: caller,
        buyer: ticket.buyer,
        pay_to: ticket.pay_to,
        redeem_quantity: quantity,
        price: ticket.price,
        ticket_taker: Addr { id: 0 },
        ticket_taker_signer: Addr { id: 0 },
        status: REDEMPTION_STATUS_WAITING,
        take_expiration: if take_expiration_minutes > 0 {
            (clock.unix_timestamp + (take_expiration_minutes as int) * 60) as i64
        } else {
            0i64
        },
        usage_expiration: 0i64,
    }
}

/// Checks `quantity` out of the ticket into a new WAITING redemption. Only
/// the ticket's authority may initiate; the quantity must be positive and
/// within what remains, the escrow must still hold the price of the claim,
/// and the ticket must not be expired. On success the quantity moves from
/// `remaining_quantity` to `pending_redemption` — the ticket's total is
/// conserved — and no funds move. On rejection nothing changes.
pub fn initiate_redemption(
    ticket: &mut PurchaseTicket,
    ticket_addr: Addr,
    caller: Addr,
    escrow_amount: u64,
    clock: Clock,
    nonce: u32,
    quantity: u64,
    take_expiration_minutes: u32,
) -> (r: Result<Redemption, ErrorCode>)
    requires
        old(ticket).price * quantity <= u64::MAX,
        old(ticket).counters_fit(),
        clock.unix_timestamp + (take_expiration_minutes as int) * 60 <= i64::MAX,
    ensures
        ({
            let err = initiate_redemption_error(
                *old(ticket),
                caller,
                escrow_amount,
                clock.unix_timestamp as int,
                quantity,
            );
            match r {
                Result::Err(e) => {
                    &&& err == Some(e)
                    &&& *final(ticket) == *old(ticket)
                },
                Result::Ok(redemption) => {
                    &&& err is None
                    &&& *final(ticket) == old(ticket).with_counters(
                        (old(ticket).remaining_quantity - quantity) as u64,
                        old(ticket).redeemed,
                        (old(ticket).pending_redemption + quantity) as u64,
                    )
                    &&& redemption == initiated_redemption(
                        *old(ticket),
                        ticket_addr,
                        caller,
                        clock,
                        nonce,
                        quantity,
                        take_expiration_minutes,
                    )
                },
            }
        }),
        final(ticket).total_quantity() == old(ticket).total_quantity(),
        final(ticket).counters_fit(),
{
    let total_purchase_price = ticket.price * quantity;

    if ticket.authority != caller {
        return Err(ErrorCode::IncorrectAuthority);
    }
    if quantity == 0 {
        return Err(ErrorCode::QuantityMustBeGreaterThanZero);
    }
    if quantity > ticket.remaining_quantity {
        return Err(ErrorCode::InsufficientRemainingRedemptions);
    }
    if escrow_amount < total_purchase_price {
        return Err(ErrorCode::InsufficientFunds);
    }
    if ticket.expiration > 0 && ticket.expiration < clock.unix_timestamp {
        return Err(ErrorCode::TicketIsExpired);
    }

    let mut take_expiration: i64 = 0;
    if take_expiration_minutes > 0 {
        take_expiration = clock.unix_timestamp + (take_expiration_minutes as i64) * 60;
    }

    let redemption = Redemption {
        version: REDEMPTION_VERSION,
        nonce: nonce,
        init_slot: clock.slot,
        close_slot: 0,
        init_timestamp: clock.unix_timestamp,
        close_timestamp: 0,
        store: ticket.store,
        product: ticket.product,
        product_snapshot_metadata: ticket.product_snapshot_metadata,
        product_snapshot: ticket.product_snapshot,
        purchase_ticket: ticket_addr,
        purchase_ticket_signer: caller,
        buyer: ticket.buyer,
        pay_to: ticket.pay_to,
        redeem_quantity: quantity,
        price: ticket.price,
        ticket_taker: Addr::zero(),
        ticket_taker_signer: Addr::zero(),
        status: REDEMPTION_STATUS_WAITING,
        take_expiration: take_expiration,
        usage_expiration: 0,
    };

    ticket.remaining_quantity = ticket.remaining_quantity - quantity;
    ticket.pending_redemption = ticket.pending_redemption + quantity;

    Ok(redemption)
}

/// The preconditions of `take_redemption`, in order; the first failure
/// decides the error.
pub open spec fn take_redemption_error(
    ticket: PurchaseTicket,
    redemption: Redemption,
    taker: TicketTaker,
    taker_signer: Addr,
    escrow_amount: u64,
    now: int,
) -> Option<ErrorCode> {
    if taker.entity != redemption.product && taker.entity != redemption.store {
        Some(ErrorCode::InvalidTicketTaker)
    } else if taker_signer != taker.taker {
        Some(ErrorCode::InvalidTicketTakerSigner)
    } else if !redemption.ticket_taker.is_zero() {
        Some(ErrorCode::AlreadyRedeemed)
    } else if redemption.close_slot > 0 {
        Some(ErrorCode::AlreadyProcessed)
    } else if deadline_passed(ticket.expiration as int, now) {
        Some(ErrorCode::TicketIsExpired)
    } else if deadline_passed(redemption.take_expiration as int, now) {
        Some(ErrorCode::TakeIsExpired)
    } else if escrow_amount < redemption.price * redemption.redeem_quantity {
        Some(ErrorCode::InsufficientFunds)
    } else {
        None
    }
}

/// The settled redemption a successful take leaves behind.
pub open spec fn taken_redemption(
    redemption: Redemption,
    ticket: PurchaseTicket,
    taker_addr: Addr,
    taker_signer: Addr,
    clock: Clock,
) -> Redemption {
    Redemption {
        ticket_taker: taker_addr,
        ticket_taker_signer: taker_signer,
        close_slot: clock.slot,
        close_timestamp: clock.unix_timestamp,
        status: REDEMPTION_STATUS_REDEEMED,
        usage_expiration: if ticket.expiration_minutes_after_redemption > 0 {
            (clock.unix_timestamp
                + (ticket.expiration_minutes_after_redemption as int) * 60) as i64
        } else {
            redemption.usage_expiration
        },
        version: redemption.version,
        nonce: redemption.nonce,
        init_slot: redemption.init_slot,
        init_timestamp: redemption.init_timestamp,
        store: redemption.store,
        product: redemption.product,
        product_snapshot_metadata: redemption.product_snapshot_metadata,
        product_snapshot: redemption.product_snapshot,
        purchase_ticket: redemption.purchase_ticket,
        purchase_ticket_signer: redemption.purchase_ticket_signer,
        buyer: redemption.buyer,
        pay_to: redemption.pay_to,
        redeem_quantity: redemption.redeem_quantity,
        price: redemption.price,
        take_expiration: redemption.take_expiration,
    }
}

/// Settles a WAITING redemption: the caller must sign as the designated
/// ticket taker, and the taker must have been authorized for the
/// redemption's product or its store. The claim's price moves from escrow
/// to the seller, the redemption is stamped REDEEMED with the taker's
/// identity and close slot/time (a usage deadline is computed when the
/// ticket carries a post-redemption term), and the claimed quantity moves
/// from the ticket's `pending_redemption` into `redeemed` — the ticket's
/// total is conserved. On rejection nothing changes.
///
/// The host's address derivation ties the redemption to its ticket, so an
/// open redemption's quantity is always within the ticket's pending count.
pub fn take_redemption(
    ticket: &mut PurchaseTicket,
    redemption: &mut Redemption,
    taker: &TicketTaker,
    taker_addr: Addr,
    taker_signer: Addr,
    escrow_balance: &mut u64,
    pay_to_balance: &mut u64,
    clock: Clock,
) -> (r: Result<(), ErrorCode>)
    requires
        old(redemption).price * old(redemption).redeem_quantity <= u64::MAX,
        *old(pay_to_balance) + old(redemption).price * old(redemption).redeem_quantity
            <= u64::MAX,
        old(redemption).redeem_quantity <= old(ticket).pending_redemption,
        old(ticket).counters_fit(),
        clock.unix_timestamp + (old(ticket).expiration_minutes_after_redemption as int) * 60
            <= i64::MAX,
    ensures
        ({
            let err = take_redemption_error(
                *old(ticket),
                *old(redemption),
                *taker,
                taker_signer,
                *old(escrow_balance),
                clock.unix_timestamp as int,
            );
            let amount = old(redemption).price * old(redemption).redeem_quantity;
            match r {
                Result::Err(e) => {
                    &&& err == Some(e)
                    &&& *final(ticket) == *old(ticket)
                    &&& *final(redemption) == *old(redemption)
                    &&& *final(escrow_balance) == *old(escrow_balance)
                    &&& *final(pay_to_balance) == *old(pay_to_balance)
                },
                Result::Ok(_) => {
                    &&& err is None
                    &&& *final(escrow_balance) == *old(escrow_balance) - amount
                    &&& *final(pay_to_balance) == *old(pay_to_balance) + amount
                    &&& *final(redemption) == taken_redemption(
                        *old(redemption),
                        *old(ticket),
                        taker_addr,
                        taker_signer,
                        clock,
                    )
                    &&& *final(ticket) == old(ticket).with_counters(
                        old(ticket).remaining_quantity,
                        (old(ticket).redeemed + old(redemption).redeem_quantity) as u64,
                        (old(ticket).pending_redemption - old(redemption).redeem_quantity) as u64,
                    )
                },
            }
        }),
        final(ticket).total_quantity() == old(ticket).total_quantity(),
        final(ticket).counters_fit(),
        old(redemption).status == REDEMPTION_STATUS_CANCELLED
            && old(redemption).close_slot > 0 ==> r is Err,
{
    if taker.entity != redemption.product && taker.entity != redemption.store {
        return Err(ErrorCode::InvalidTicketTaker);
    }
    if taker_signer != taker.taker {
        return Err(ErrorCode::InvalidTicketTakerSigner);
    }
    if redemption.ticket_taker.id != 0 {
        return Err(ErrorCode::AlreadyRedeemed);
    }
    if redemption.close_slot > 0 {
        return Err(ErrorCode::AlreadyProcessed);
    }
    if ticket.expiration > 0 && ticket.expiration < clock.unix_timestamp {
        return Err(ErrorCode::TicketIsExpired);
    }
    if redemption.take_expiration > 0 && redemption.take_expiration < clock.unix_timestamp {
        return Err(ErrorCode::TakeIsExpired);
    }

    let amount = redemption.price * redemption.redeem_quantity;
    if *escrow_balance < amount {
        return Err(ErrorCode::InsufficientFunds);
    }

    redemption.ticket_taker = taker_addr;
    redemption.ticket_taker_signer = taker_signer;
    redemption.close_slot = clock.slot;
    redemption.close_timestamp = clock.unix_timestamp;
    redemption.status = REDEMPTION_STATUS_REDEEMED;

    if ticket.expiration_minutes_after_redemption > 0 {
        redemption.usage_expiration = clock.unix_timestamp
            + (ticket.expiration_minutes_after_redemption as i64) * 60;
    }

    *escrow_balance = *escrow_balance - amount;
    *pay_to_balance = *pay_to_balance + amount;

    ticket.redeemed = ticket.redeemed + redemption.redeem_quantity;
    ticket.pending_redemption = ticket.pending_redemption - redemption.redeem_quantity;

    Ok(())
}

/// The preconditions of `cancel_redemption`, in order.
pub open spec fn cancel_redemption_error(
    ticket: PurchaseTicket,
    redemption: Redemption,
    caller: Addr,
) -> Option<ErrorCode> {
    if ticket.authority != caller {
        Some(ErrorCode::IncorrectAuthority)
    } else if redemption.status != REDEMPTION_STATUS_WAITING || redemption.close_timestamp > 0 {
        Some(ErrorCode::AlreadyProcessed)
    } else {
        None
    }
}

/// The cancelled redemption a successful cancellation leaves behind.
pub open spec fn cancelled_redemption(redemption: Redemption, clock: Clock) -> Redemption {
    Redemption {
        status: REDEMPTION_STATUS_CANCELLED,
        close_slot: clock.slot,
        close_timestamp: clock.unix_timestamp,
        version: redemption.version,
        nonce: redemption.nonce,
        init_slot: redemption.init_slot,
        init_timestamp: redemption.init_timestamp,
        store: redemption.store,
        product: redemption.product,
        product_snapshot_metadata: redemption.product_snapshot_metadata,
        product_snapshot: redemption.product_snapshot,
        purchase_ticket: redemption.purchase_ticket,
        purchase_ticket_signer: redemption.purchase_ticket_signer,
        buyer: redemption.buyer,
        pay_to: redemption.pay_to,
        redeem_quantity: redemption.redeem_quantity,
        price: redemption.price,
        ticket_taker: redemption.ticket_taker,
        ticket_taker_signer: redemption.ticket_taker_signer,
        take_expiration: redemption.take_expiration,
        usage_expiration: redemption.usage_expiration,
    }
}

/// Cancels a WAITING redemption: the caller must be the ticket's authority,
/// and the redemption must still be open. Its quantity returns from
/// `pending_redemption` to `remaining_quantity` — the ticket's total is
/// conserved — the redemption is stamped CANCELLED with the close slot/time,
/// and no funds move (none left escrow at initiation). On rejection nothing
/// changes.
///
/// The host's address derivation ties the redemption to its ticket, so an
/// open redemption's quantity is always within the ticket's pending count.
pub fn cancel_redemption(
    ticket: &mut PurchaseTicket,
    redemption: &mut Redemption,
    caller: Addr,
    clock: Clock,
) -> (r: Result<(), ErrorCode>)
    requires
        old(redemption).redeem_quantity <= old(ticket).pending_redemption,
        old(ticket).counters_fit(),
    ensures
        ({
            let err = cancel_redemption_error(*old(ticket), *old(redemption), caller);
            match r {
                Result::Err(e) => {
                    &&& err == Some(e)
                    &&& *final(ticket) == *old(ticket)
                    &&& *final(redemption) == *old(redemption)
                },
                Result::Ok(_) => {
                    &&& err is None
                    &&& *final(redemption) == cancelled_redemption(*old(redemption), clock)
                    &&& *final(ticket) == old(ticket).with_counters(
                        (old(ticket).remaining_quantity + old(redemption).redeem_quantity) as u64,
                        old(ticket).redeemed,
                        (old(ticket).pending_redemption - old(redemption).redeem_quantity) as u64,
                    )
                },
            }
        }),
        final(ticket).total_quantity() == old(ticket).total_quantity(),
        final(ticket).counters_fit(),
        old(redemption).status != REDEMPTION_STATUS_WAITING ==> r is Err,
{
    if ticket.authority != caller {
        return Err(ErrorCode::IncorrectAuthority);
    }
    if redemption.status != REDEMPTION_STATUS_WAITING || redemption.close_timestamp > 0 {
        return Err(ErrorCode::AlreadyProcessed);
    }

    ticket.remaining_quantity = ticket.remaining_quantity + redemption.redeem_quantity;
    ticket.pending_redemption = ticket.pending_redemption - redemption.redeem_quantity;

    redemption.status = REDEMPTION_STATUS_CANCELLED;
    redemption.close_slot = clock.slot;
    redemption.close_timestamp = clock.unix_timestamp;

    Ok(())
}

/// The ticket-taker record an authorization creates.
pub open spec fn created_ticket_taker(
    taker: Addr,
    entity_type: u8,
    entity: Addr,
    authorized_by: Addr,
    clock: Clock,
) -> TicketTaker {
    TicketTaker {
        version: TICKET_TAKER_VERSION,
        taker: taker,
        entity_type: entity_type,
        entity: entity,
        authorized_by: authorized_by,
        enabled_slot: clock.slot,
        enabled_timestamp: clock.unix_timestamp,
        disabled_slot: 0u64,
        disabled_timestamp: 0i64,
    }
}

/// Authorizes `taker` to service redemptions for a store. Only the store's
/// authority (primary or secondary) may grant this.
pub fn create_store_ticket_taker(
    store: &Store,
    store_addr: Addr,
    store_authority: Addr,
    taker: Addr,
    clock: Clock,
) -> (r: Result<TicketTaker, ErrorCode>)
    ensures
        ({
            match r {
                Result::Err(e) => {
                    &&& e == ErrorCode::IncorrectAuthority
                    &&& store_authority != store.authority
                    &&& store_authority != store.secondary_authority
                },
                Result::Ok(t) => {
                    &&& store_authority == store.authority
                        || store_authority == store.secondary_authority
                    &&& t == created_ticket_taker(
                        taker,
                        ENTITY_TYPE_STORE,
                        store_addr,
                        store_authority,
                        clock,
                    )
                },
            }
        }),
{
    if !store.is_authorized(&store_authority) {
        return Err(ErrorCode::IncorrectAuthority);
    }
    Ok(TicketTaker {
        version: TICKET_TAKER_VERSION,
        taker: taker,
        entity_type: ENTITY_TYPE_STORE,
        entity: store_addr,
        authorized_by: store_authority,
        enabled_slot: clock.slot,
        enabled_timestamp: clock.unix_timestamp,
        disabled_slot: 0,
        disabled_timestamp: 0,
    })
}

/// Authorizes `taker` to service redemptions for a product. Only the
/// product's authority (primary or secondary) may grant this.
pub fn create_product_ticket_taker(
    product: &Product,
    product_addr: Addr,
    product_authority: Addr,
    taker: Addr,
    clock: Clock,
) -> (r: Result<TicketTaker, ErrorCode>)
    ensures
        ({
            match r {
                Result::Err(e) => {
                    &&& e == ErrorCode::IncorrectAuthority
                    &&& product_authority != product.authority
                    &&& product_authority != product.secondary_authority
                },
                Result::Ok(t) => {
                    &&& product_authority == product.authority
                        || product_authority == product.secondary_authority
                    &&& t == created_ticket_taker(
                        taker,
                        ENTITY_TYPE_PRODUCT,
                        product_addr,
                        product_authority,
                        clock,
                    )
                },
            }
        }),
{
    if !product.is_authorized(&product_authority) {
        return Err(ErrorCode::IncorrectAuthority);
    }
    Ok(TicketTaker {
        version: TICKET_TAKER_VERSION,
        taker: taker,
        entity_type: ENTITY_TYPE_PRODUCT,
        entity: product_addr,
        authorized_by: product_authority,
        enabled_slot: clock.slot,
        enabled_timestamp: clock.unix_timestamp,
        disabled_slot: 0,
        disabled_timestamp: 0,
    })
}

} // verus!
