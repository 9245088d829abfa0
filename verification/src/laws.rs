//! Laws that cut across the transition functions: snapshot immutability and
//! the earliest-deadline policy for ticket expirations. The per-transition
//! guarantees — conservation of a ticket's quantity counters, exact fund
//! movement, all-or-nothing failure — are stated on each function's own
//! contract.

use vstd::prelude::*;
use crate::addr::Addr;
use crate::catalog::update_product_error;
use crate::purchase::{buy_product_error, computed_ticket_expiration};
use crate::records::{Product, PurchaseTicket};

verus! {

/// Conservation: the redemption workflow only moves quantity between a
/// ticket's three counters, so `remaining_quantity + redeemed +
/// pending_redemption` stays what the purchase issued. Initiating a claim of
/// `q`, then settling it or cancelling it, leaves the total untouched at
/// every step — and a cancellation restores the ticket exactly.
pub proof fn lemma_redemption_conserves_total(ticket: PurchaseTicket, q: u64)
    requires
        q <= ticket.remaining_quantity,
        ticket.counters_fit(),
    ensures
        ({
            let after_initiate = ticket.with_counters(
                (ticket.remaining_quantity - q) as u64,
                ticket.redeemed,
                (ticket.pending_redemption + q) as u64,
            );
            let after_take = after_initiate.with_counters(
                after_initiate.remaining_quantity,
                (after_initiate.redeemed + q) as u64,
                (after_initiate.pending_redemption - q) as u64,
            );
            let after_cancel = after_initiate.with_counters(
                (after_initiate.remaining_quantity + q) as u64,
                after_initiate.redeemed,
                (after_initiate.pending_redemption - q) as u64,
            );
            &&& after_initiate.total_quantity() == ticket.total_quantity()
            &&& after_take.total_quantity() == ticket.total_quantity()
            &&& after_cancel.total_quantity() == ticket.total_quantity()
            &&& after_cancel == ticket
        }),
{
}

/// Snapshot immutability: a record flagged as a snapshot is never the target
/// of a successful mutation. Both operations that take a snapshot-aware
/// product as their mutation target — updating it and buying from it —
/// reject every request against a snapshot, whatever the other arguments.
pub proof fn lemma_snapshot_rejected(
    product: Product,
    authority: Addr,
    name: Seq<u8>,
    description: Seq<u8>,
    fee: u64,
    escrow_amount: u64,
    now: int,
    pay_to: Addr,
    quantity: u64,
    agreed_price: u64,
    agreed_expiration_timestamp: i64,
    agreed_expiration_minutes_after_purchase: u32,
    agreed_expiration_minutes_after_redemption: u32,
)
    requires
        product.is_snapshot,
    ensures
        update_product_error(product, authority, name, description) is Some,
        buy_product_error(
            product,
            fee,
            escrow_amount,
            now,
            pay_to,
            quantity,
            agreed_price,
            agreed_expiration_timestamp,
            agreed_expiration_minutes_after_purchase,
            agreed_expiration_minutes_after_redemption,
        ) is Some,
{
}

/// Deadline precedence: when a product carries a relative
/// expiration-minutes-after-purchase term `m`, the ticket deadline computed
/// at purchase time `now` is `min(now + m * 60, t)` whenever the absolute
/// expiration `t` is also set, and `now + m * 60` otherwise. The one family
/// of inputs left out is a relative deadline landing exactly on zero
/// (`now == -60 * m`), which the computation reads as "no deadline" and the
/// absolute term then always overrides.
pub proof fn lemma_deadline_precedence(now: int, t: int, m: int)
    requires
        m > 0,
        now + m * 60 != 0,
    ensures
        t > 0 ==> computed_ticket_expiration(now, t, m) == vstd::math::min(now + m * 60, t),
        t <= 0 ==> computed_ticket_expiration(now, t, m) == now + m * 60,
{
}

} // verus!
