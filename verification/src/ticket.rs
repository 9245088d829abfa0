//! Ticket transfer and cancellation: re-assigning unredeemed quantity of a
//! purchase ticket to a new holder, or returning it to the product's
//! inventory, each with the proportional slice of the escrowed funds.

use vstd::prelude::*;
use crate::addr::{Addr, Clock};
use crate::error::ErrorCode;
use crate::purchase::product_unchanged_but_inventory;
use crate::records::{Product, PurchaseTicket, deadline_passed};

verus! {

/// The preconditions of `transfer_ticket`, in order; the first failure
/// decides the error.
pub open spec fn transfer_ticket_error(
    source: PurchaseTicket,
    caller: Addr,
    source_escrow_amount: u64,
    now: int,
    quantity: u64,
) -> Option<ErrorCode> {
    if source.authority != caller {
        Some(ErrorCode::IncorrectAuthority)
    } else if quantity == 0 {
        Some(ErrorCode::QuantityMustBeGreaterThanZero)
    } else if quantity > source.remaining_quantity {
        Some(ErrorCode::InsufficientQuantity)
    } else if deadline_passed(source.expiration as int, now) {
        Some(ErrorCode::TicketIsExpired)
    } else if source_escrow_amount < source.price * quantity {
        Some(ErrorCode::InsufficientFunds)
    } else {
        None
    }
}

/// The destination ticket a successful transfer creates: the source's
/// product and snapshot lineage under a new holder, carrying exactly the
/// transferred quantity and nothing redeemed or pending.
pub open spec fn transferred_ticket(
    source: PurchaseTicket,
    caller: Addr,
    destination_authority: Addr,
    destination_payment_addr: Addr,
    clock: Clock,
    nonce: u16,
    quantity: u64,
) -> PurchaseTicket {
    PurchaseTicket {
        version: source.version,
        slot: clock.slot,
        timestamp: clock.unix_timestamp,
        product: source.product,
        product_snapshot_metadata: source.product_snapshot_metadata,
        product_snapshot: source.product_snapshot,
        buyer: caller,
        pay_to: source.pay_to,
        authority: destination_authority,
        remaining_quantity: quantity,
        redeemed: 0u64,
        pending_redemption: 0u64,
        nonce: nonce,
        price: source.price,
        store: source.store,
        payment: destination_payment_addr,
        expiration: source.expiration,
        expiration_minutes_after_redemption: source.expiration_minutes_after_redemption,
    }
}

/// Moves `quantity` of the source ticket's unredeemed units, with their
/// escrowed funds (`price * quantity`), to a freshly created destination
/// ticket held by `destination_authority`. Only the source's authority may
/// transfer, the quantity must be positive and within what remains, and the
/// source must not be expired. The source's redeemed and pending counters
/// are untouched, so the two tickets' totals together equal the source's
/// old total. On rejection nothing changes.
pub fn transfer_ticket(
    source: &mut PurchaseTicket,
    source_escrow_balance: &mut u64,
    destination_escrow_balance: &mut u64,
    caller: Addr,
    destination_authority: Addr,
    destination_payment_addr: Addr,
    clock: Clock,
    nonce: u16,
    quantity: u64,
) -> (r: Result<PurchaseTicket, ErrorCode>)
    requires
        old(source).price * quantity <= u64::MAX,
        *old(destination_escrow_balance) + old(source).price * quantity <= u64::MAX,
        old(source).counters_fit(),
    ensures
        ({
            let err = transfer_ticket_error(
                *old(source),
                caller,
                *old(source_escrow_balance),
                clock.unix_timestamp as int,
                quantity,
            );
            let amount = old(source).price * quantity;
            match r {
                Result::Err(e) => {
                    &&& err == Some(e)
                    &&& *final(source) == *old(source)
                    &&& *final(source_escrow_balance) == *old(source_escrow_balance)
                    &&& *final(destination_escrow_balance) == *old(destination_escrow_balance)
                },
                Result::Ok(destination) => {
                    &&& err is None
                    &&& *final(source_escrow_balance) == *old(source_escrow_balance) - amount
                    &&& *final(destination_escrow_balance)
                        == *old(destination_escrow_balance) + amount
                    &&& destination == transferred_ticket(
                        *old(source),
                        caller,
                        destination_authority,
                        destination_payment_addr,
                        clock,
                        nonce,
                        quantity,
                    )
                    &&& *final(source) == old(source).with_counters(
                        (old(source).remaining_quantity - quantity) as u64,
                        old(source).redeemed,
                        old(source).pending_redemption,
                    )
                    &&& final(source).total_quantity() + destination.total_quantity()
                        == old(source).total_quantity()
                    &&& destination.counters_fit()
                },
            }
        }),
        final(source).counters_fit(),
{
    if source.authority != caller {
        return Err(ErrorCode::IncorrectAuthority);
    }
    if quantity == 0 {
        return Err(ErrorCode::QuantityMustBeGreaterThanZero);
    }
    if quantity > source.remaining_quantity {
        return Err(ErrorCode::InsufficientQuantity);
    }
    if source.expiration > 0 && source.expiration < clock.unix_timestamp {
        return Err(ErrorCode::TicketIsExpired);
    }

    let amount = source.price * quantity;
    if *source_escrow_balance < amount {
        return Err(ErrorCode::InsufficientFunds);
    }

    *source_escrow_balance = *source_escrow_balance - amount;
    *destination_escrow_balance = *destination_escrow_balance + amount;

    let destination = PurchaseTicket {
        version: source.version,
        slot: clock.slot,
        timestamp: clock.unix_timestamp,
        product: source.product,
        product_snapshot_metadata: source.product_snapshot_metadata,
        product_snapshot: source.product_snapshot,
        buyer: caller,
        pay_to: source.pay_to,
        authority: destination_authority,
        remaining_quantity: quantity,
        redeemed: 0,
        pending_redemption: 0,
        nonce: nonce,
        price: source.price,
        store: source.store,
        payment: destination_payment_addr,
        expiration: source.expiration,
        expiration_minutes_after_redemption: source.expiration_minutes_after_redemption,
    };

    source.remaining_quantity = source.remaining_quantity - quantity;

    Ok(destination)
}

/// The preconditions of `cancel_ticket`, in order.
pub open spec fn cancel_ticket_error(
    ticket: PurchaseTicket,
    caller: Addr,
    escrow_amount: u64,
    quantity: u64,
) -> Option<ErrorCode> {
    if ticket.authority != caller {
        Some(ErrorCode::IncorrectAuthority)
    } else if quantity > ticket.remaining_quantity {
        Some(ErrorCode::InsufficientQuantity)
    } else if escrow_amount < ticket.price * quantity {
        Some(ErrorCode::InsufficientFunds)
    } else {
        None
    }
}

/// Returns `quantity` unredeemed units of the ticket: their escrowed funds
/// (`price * quantity`) move to the caller-designated refund holding, the
/// ticket's remaining quantity drops by `quantity`, and the live product is
/// restocked by the same amount. Only the ticket's authority may cancel,
/// and no more than what remains. On rejection nothing changes.
pub fn cancel_ticket(
    ticket: &mut PurchaseTicket,
    product: &mut Product,
    escrow_balance: &mut u64,
    refund_balance: &mut u64,
    caller: Addr,
    quantity: u64,
) -> (r: Result<(), ErrorCode>)
    requires
        old(ticket).price * quantity <= u64::MAX,
        *old(refund_balance) + old(ticket).price * quantity <= u64::MAX,
        old(product).inventory + quantity <= u64::MAX,
        old(ticket).counters_fit(),
    ensures
        ({
            let err = cancel_ticket_error(
                *old(ticket),
                caller,
                *old(escrow_balance),
                quantity,
            );
            let amount = old(ticket).price * quantity;
            match r {
                Result::Err(e) => {
                    &&& err == Some(e)
                    &&& *final(ticket) == *old(ticket)
                    &&& *final(product) == *old(product)
                    &&& *final(escrow_balance) == *old(escrow_balance)
                    &&& *final(refund_balance) == *old(refund_balance)
                },
                Result::Ok(_) => {
                    &&& err is None
                    &&& *final(escrow_balance) == *old(escrow_balance) - amount
                    &&& *final(refund_balance) == *old(refund_balance) + amount
                    &&& *final(ticket) == old(ticket).with_counters(
                        (old(ticket).remaining_quantity - quantity) as u64,
                        old(ticket).redeemed,
                        old(ticket).pending_redemption,
                    )
                    &&& final(product).inventory == old(product).inventory + quantity
                    &&& product_unchanged_but_inventory(*final(product), *old(product))
                    &&& final(ticket).total_quantity() + quantity
                        == old(ticket).total_quantity()
                },
            }
        }),
        final(ticket).counters_fit(),
{
    if ticket.authority != caller {
        return Err(ErrorCode::IncorrectAuthority);
    }
    if quantity > ticket.remaining_quantity {
        return Err(ErrorCode::InsufficientQuantity);
    }

    let amount = ticket.price * quantity;
    if *escrow_balance < amount {
        return Err(ErrorCode::InsufficientFunds);
    }

    *escrow_balance = *escrow_balance - amount;
    *refund_balance = *refund_balance + amount;

    ticket.remaining_quantity = ticket.remaining_quantity - quantity;
    product.inventory = product.inventory + quantity;

    Ok(())
}

} // verus!
