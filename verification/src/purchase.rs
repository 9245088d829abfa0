//! The purchase/escrow engine: `buy_product` validates a buy request against
//! the current product state and an escrowed payment balance, deducts the
//! flat platform fee, releases or holds the payment according to the
//! product's redemption type, snapshots the product, and issues a purchase
//! ticket — all in one atomic transition.

use vstd::prelude::*;
use crate::addr::{Addr, Clock};
use crate::error::ErrorCode;
use crate::records::{
    Product, ProductSnapshotMetadata, ProgramMetadata, PurchaseTicket, deadline_passed,
    PRODUCT_SNAPSHOT_METADATA_VERSION, PRODUCT_STATUS_ACTIVE, PURCHASE_TICKET_VERSION,
    REDEMPTION_TYPE_IMMEDIATE,
};

verus! {

/// The records a successful purchase creates. The host stores each at its
/// derived address.
pub struct PurchaseOutcome {
    pub snapshot_metadata: ProductSnapshotMetadata,
    pub product_snapshot: Product,
    pub ticket: PurchaseTicket,
}

/// The ticket deadline a purchase at time `now` computes: the relative
/// deadline `now + minutes * 60` when a relative term is set, overridden by
/// the product's absolute `expiration_timestamp` whenever that is set and is
/// earlier (or no relative deadline was produced) — the earliest deadline
/// wins.
pub open spec fn computed_ticket_expiration(
    now: int,
    expiration_timestamp: int,
    minutes_after_purchase: int,
) -> int {
    let relative = if minutes_after_purchase > 0 {
        now + minutes_after_purchase * 60
    } else {
        0
    };
    if expiration_timestamp > 0 && (relative == 0 || expiration_timestamp < relative) {
        expiration_timestamp
    } else {
        relative
    }
}

/// `snap` is the point-in-time copy of `live`: every field agrees except
/// that `snap` is flagged as a snapshot.
pub open spec fn is_snapshot_of(snap: Product, live: Product) -> bool {
    &&& snap.is_snapshot
    &&& snap.version == live.version
    &&& snap.status == live.status
    &&& snap.creator == live.creator
    &&& snap.authority == live.authority
    &&& snap.secondary_authority == live.secondary_authority
    &&& snap.id == live.id
    &&& snap.tag == live.tag
    &&& snap.usable_snapshot == live.usable_snapshot
    &&& snap.pay_to == live.pay_to
    &&& snap.store == live.store
    &&& snap.price == live.price
    &&& snap.inventory == live.inventory
    &&& snap.redemption_type == live.redemption_type
    &&& snap.expiration_timestamp == live.expiration_timestamp
    &&& snap.expiration_minutes_after_purchase == live.expiration_minutes_after_purchase
    &&& snap.expiration_minutes_after_redemption == live.expiration_minutes_after_redemption
    &&& snap.name@ == live.name@
    &&& snap.description@ == live.description@
    &&& snap.data@ == live.data@
}

/// All product fields but `inventory` agree.
pub open spec fn product_unchanged_but_inventory(a: Product, b: Product) -> bool {
    &&& a.version == b.version
    &&& a.status == b.status
    &&& a.creator == b.creator
    &&& a.authority == b.authority
    &&& a.secondary_authority == b.secondary_authority
    &&& a.id == b.id
    &&& a.tag == b.tag
    &&& a.is_snapshot == b.is_snapshot
    &&& a.usable_snapshot == b.usable_snapshot
    &&& a.pay_to == b.pay_to
    &&& a.store == b.store
    &&& a.price == b.price
    &&& a.redemption_type == b.redemption_type
    &&& a.expiration_timestamp == b.expiration_timestamp
    &&& a.expiration_minutes_after_purchase == b.expiration_minutes_after_purchase
    &&& a.expiration_minutes_after_redemption == b.expiration_minutes_after_redemption
    &&& a.name@ == b.name@
    &&& a.description@ == b.description@
    &&& a.data@ == b.data@
}

/// The preconditions of a purchase, checked in this order; the first failure
/// decides the error.
pub open spec fn buy_product_error(
    product: Product,
    fee: u64,
    escrow_amount: u64,
    now: int,
    pay_to: Addr,
    quantity: u64,
    agreed_price: u64,
    agreed_expiration_timestamp: i64,
    agreed_expiration_minutes_after_purchase: u32,
    agreed_expiration_minutes_after_redemption: u32,
) -> Option<ErrorCode> {
    if product.status != PRODUCT_STATUS_ACTIVE {
        Some(ErrorCode::ProductIsNotActive)
    } else if product.inventory < quantity {
        Some(ErrorCode::NotEnoughInventory)
    } else if product.price > agreed_price {
        Some(ErrorCode::PriceIsGreaterThanPayment)
    } else if product.expiration_timestamp != agreed_expiration_timestamp {
        Some(ErrorCode::AgreedExpirationDoesntMatch)
    } else if product.expiration_minutes_after_purchase
        != agreed_expiration_minutes_after_purchase {
        Some(ErrorCode::AgreedExpirationAfterPurchaseDoesntMatch)
    } else if product.expiration_minutes_after_redemption
        != agreed_expiration_minutes_after_redemption {
        Some(ErrorCode::AgreedExpirationAfterRedemptionDoesntMatch)
    } else if product.is_snapshot {
        Some(ErrorCode::UnableToPurchaseSnapshot)
    } else if deadline_passed(product.expiration_timestamp as int, now) {
        Some(ErrorCode::ProductIsExpired)
    } else if escrow_amount < product.price * quantity + fee {
        Some(ErrorCode::InsufficientFunds)
    } else if pay_to != product.pay_to {
        Some(ErrorCode::PublicKeyMismatch)
    } else {
        None
    }
}

/// The purchase ticket a successful purchase of `quantity` units issues.
pub open spec fn issued_ticket(
    product: Product,
    product_addr: Addr,
    clock: Clock,
    buyer: Addr,
    buy_for: Addr,
    pay_to: Addr,
    snapshot_metadata_addr: Addr,
    snapshot_addr: Addr,
    payment_addr: Addr,
    nonce: u16,
    quantity: u64,
) -> PurchaseTicket {
    let immediate = product.redemption_type == REDEMPTION_TYPE_IMMEDIATE;
    PurchaseTicket {
        version: PURCHASE_TICKET_VERSION,
        slot: clock.slot,
        timestamp: clock.unix_timestamp,
        product: product_addr,
        product_snapshot_metadata: snapshot_metadata_addr,
        product_snapshot: snapshot_addr,
        buyer: buyer,
        pay_to: pay_to,
        authority: buy_for,
        remaining_quantity: if immediate { 0u64 } else { quantity },
        redeemed: if immediate { quantity } else { 0u64 },
        pending_redemption: 0u64,
        nonce: nonce,
        price: product.price,
        store: product.store,
        payment: payment_addr,
        expiration: computed_ticket_expiration(
            clock.unix_timestamp as int,
            product.expiration_timestamp as int,
            product.expiration_minutes_after_purchase as int,
        ) as i64,
        expiration_minutes_after_redemption: product.expiration_minutes_after_redemption,
    }
}

/// Copies a byte string.
fn clone_bytes(v: &Vec<u8>) -> (r: Vec<u8>)
    ensures
        r@ == v@,
{
    let r = v.clone();
    proof {
        assert(r@ =~= v@);
    }
    r
}

/// Buys `quantity` units of `product`, atomically: on success the flat fee
/// moves from the escrow to the fee account; for an immediate-redemption
/// product the full purchase price moves to the seller and the ticket is
/// issued fully redeemed, otherwise the price stays in escrow and the ticket
/// holds the quantity; a snapshot of the product's terms and its metadata
/// record are created; and the product's inventory is decremented. On any
/// rejection nothing changes and the error says which precondition failed
/// first.
///
/// The caller (the host ledger) supplies the derived addresses for the new
/// records, the balances of the escrow, fee and seller token holdings, and
/// one clock reading.
pub fn buy_product(
    product: &mut Product,
    product_addr: Addr,
    program_metadata: &ProgramMetadata,
    escrow_balance: &mut u64,
    fee_balance: &mut u64,
    pay_to_balance: &mut u64,
    clock: Clock,
    buyer: Addr,
    buy_for: Addr,
    pay_to: Addr,
    snapshot_metadata_addr: Addr,
    snapshot_addr: Addr,
    payment_addr: Addr,
    nonce: u16,
    quantity: u64,
    agreed_price: u64,
    agreed_expiration_timestamp: i64,
    agreed_expiration_minutes_after_purchase: u32,
    agreed_expiration_minutes_after_redemption: u32,
) -> (r: Result<PurchaseOutcome, ErrorCode>)
    requires
        old(product).price * quantity + program_metadata.fee <= u64::MAX,
        *old(fee_balance) + program_metadata.fee <= u64::MAX,
        *old(pay_to_balance) + old(product).price * quantity <= u64::MAX,
        clock.unix_timestamp + (old(product).expiration_minutes_after_purchase as int) * 60
            <= i64::MAX,
    ensures
        ({
            let err = buy_product_error(
                *old(product),
                program_metadata.fee,
                *old(escrow_balance),
                clock.unix_timestamp as int,
                pay_to,
                quantity,
                agreed_price,
                agreed_expiration_timestamp,
                agreed_expiration_minutes_after_purchase,
                agreed_expiration_minutes_after_redemption,
            );
            let total = old(product).price * quantity;
            let immediate = old(product).redemption_type == REDEMPTION_TYPE_IMMEDIATE;
            match r {
                Result::Err(e) => {
                    &&& err == Some(e)
                    &&& *final(product) == *old(product)
                    &&& *final(escrow_balance) == *old(escrow_balance)
                    &&& *final(fee_balance) == *old(fee_balance)
                    &&& *final(pay_to_balance) == *old(pay_to_balance)
                },
                Result::Ok(outcome) => {
                    &&& err is None
                    &&& *final(escrow_balance) == *old(escrow_balance) - program_metadata.fee
                        - (if immediate { total } else { 0 })
                    &&& *final(fee_balance) == *old(fee_balance) + program_metadata.fee
                    &&& *final(pay_to_balance) == *old(pay_to_balance)
                        + (if immediate { total } else { 0 })
                    &&& outcome.snapshot_metadata == (ProductSnapshotMetadata {
                        version: PRODUCT_SNAPSHOT_METADATA_VERSION,
                        slot: clock.slot,
                        timestamp: clock.unix_timestamp,
                        product: product_addr,
                        product_snapshot: snapshot_addr,
                        nonce: nonce,
                    })
                    &&& is_snapshot_of(outcome.product_snapshot, *old(product))
                    &&& outcome.ticket == issued_ticket(
                        *old(product),
                        product_addr,
                        clock,
                        buyer,
                        buy_for,
                        pay_to,
                        snapshot_metadata_addr,
                        snapshot_addr,
                        payment_addr,
                        nonce,
                        quantity,
                    )
                    &&& outcome.ticket.total_quantity() == quantity
                    &&& final(product).inventory == old(product).inventory - quantity
                    &&& product_unchanged_but_inventory(*final(product), *old(product))
                },
            }
        }),
        old(product).is_snapshot ==> r is Err && *final(product) == *old(product),
{
    let fee = program_metadata.fee;
    let total_purchase_price = product.price * quantity;

    if product.status != PRODUCT_STATUS_ACTIVE {
        return Err(ErrorCode::ProductIsNotActive);
    }
    if product.inventory < quantity {
        return Err(ErrorCode::NotEnoughInventory);
    }
    if product.price > agreed_price {
        return Err(ErrorCode::PriceIsGreaterThanPayment);
    }
    if product.expiration_timestamp != agreed_expiration_timestamp {
        return Err(ErrorCode::AgreedExpirationDoesntMatch);
    }
    if product.expiration_minutes_after_purchase != agreed_expiration_minutes_after_purchase {
        return Err(ErrorCode::AgreedExpirationAfterPurchaseDoesntMatch);
    }
    if product.expiration_minutes_after_redemption != agreed_expiration_minutes_after_redemption {
        return Err(ErrorCode::AgreedExpirationAfterRedemptionDoesntMatch);
    }
    if product.is_snapshot {
        return Err(ErrorCode::UnableToPurchaseSnapshot);
    }
    if product.expiration_timestamp > 0 && product.expiration_timestamp < clock.unix_timestamp {
        return Err(ErrorCode::ProductIsExpired);
    }
    if *escrow_balance < total_purchase_price + fee {
        return Err(ErrorCode::InsufficientFunds);
    }
    if pay_to != product.pay_to {
        return Err(ErrorCode::PublicKeyMismatch);
    }

    // The flat fee leaves the escrow first.
    *escrow_balance = *escrow_balance - fee;
    *fee_balance = *fee_balance + fee;

    let immediate = product.redemption_type == REDEMPTION_TYPE_IMMEDIATE;
    if immediate {
        // Immediate redemption: the full purchase price is released now.
        *escrow_balance = *escrow_balance - total_purchase_price;
        *pay_to_balance = *pay_to_balance + total_purchase_price;
    }

    let snapshot_metadata = ProductSnapshotMetadata {
        version: PRODUCT_SNAPSHOT_METADATA_VERSION,
        slot: clock.slot,
        timestamp: clock.unix_timestamp,
        product: product_addr,
        product_snapshot: snapshot_addr,
        nonce: nonce,
    };

    // The snapshot copies the product's terms before the inventory changes.
    let product_snapshot = Product {
        version: product.version,
        status: product.status,
        creator: product.creator,
        authority: product.authority,
        secondary_authority: product.secondary_authority,
        id: product.id,
        tag: product.tag,
        is_snapshot: true,
        usable_snapshot: product.usable_snapshot,
        pay_to: product.pay_to,
        store: product.store,
        price: product.price,
        inventory: product.inventory,
        redemption_type: product.redemption_type,
        expiration_timestamp: product.expiration_timestamp,
        expiration_minutes_after_purchase: product.expiration_minutes_after_purchase,
        expiration_minutes_after_redemption: product.expiration_minutes_after_redemption,
        name: clone_bytes(&product.name),
        description: clone_bytes(&product.description),
        data: clone_bytes(&product.data),
    };

    let mut expiration: i64 = 0;
    if product.expiration_minutes_after_purchase > 0 {
        expiration = clock.unix_timestamp
            + (product.expiration_minutes_after_purchase as i64) * 60;
    }
    if product.expiration_timestamp > 0
        && (expiration == 0 || product.expiration_timestamp < expiration) {
        expiration = product.expiration_timestamp;
    }

    let ticket = PurchaseTicket {
        version: PURCHASE_TICKET_VERSION,
        slot: clock.slot,
        timestamp: clock.unix_timestamp,
        product: product_addr,
        product_snapshot_metadata: snapshot_metadata_addr,
        product_snapshot: snapshot_addr,
        buyer: buyer,
        pay_to: pay_to,
        authority: buy_for,
        remaining_quantity: if immediate { 0 } else { quantity },
        redeemed: if immediate { quantity } else { 0 },
        pending_redemption: 0,
        nonce: nonce,
        price: product.price,
        store: product.store,
        payment: payment_addr,
        expiration: expiration,
        expiration_minutes_after_redemption: product.expiration_minutes_after_redemption,
    };

    product.inventory = product.inventory - quantity;

    Ok(PurchaseOutcome { snapshot_metadata, product_snapshot, ticket })
}

} // verus!
