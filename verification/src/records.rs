//! The ledger-resident record types and their schema constants. Names,
//! descriptions and free-form payloads are byte strings with fixed byte
//! bounds; every other field is a plain integer or an address.

use vstd::prelude::*;
use crate::addr::Addr;

verus! {

pub const PROGRAM_VERSION: u8 = 0;
pub const STORE_VERSION: u8 = 0;
pub const PRODUCT_VERSION: u8 = 0;
pub const PRODUCT_SNAPSHOT_METADATA_VERSION: u8 = 0;
pub const PURCHASE_TICKET_VERSION: u8 = 0;
pub const TICKET_TAKER_VERSION: u8 = 0;
pub const REDEMPTION_VERSION: u8 = 0;

pub const STORE_NAME_SIZE: usize = 100;
pub const STORE_DESCRIPTION_SIZE: usize = 200;
pub const PRODUCT_NAME_SIZE: usize = 100;
pub const PRODUCT_DESCRIPTION_SIZE: usize = 200;

/// Product status code on which purchases are allowed.
pub const PRODUCT_STATUS_ACTIVE: u8 = 0;

/// Redemption type: full payment is released to the seller at purchase time.
pub const REDEMPTION_TYPE_IMMEDIATE: u8 = 1;

/// Redemption status codes: WAITING is the open state; REDEEMED and
/// CANCELLED are terminal.
pub const REDEMPTION_STATUS_WAITING: u8 = 0;
pub const REDEMPTION_STATUS_REDEEMED: u8 = 1;
pub const REDEMPTION_STATUS_CANCELLED: u8 = 2;

/// What kind of entity authorized a ticket taker.
pub const ENTITY_TYPE_STORE: u8 = 1;
pub const ENTITY_TYPE_PRODUCT: u8 = 2;

/// The singleton program record: created exactly once, and the fee terms on
/// it are mutable only by one of its two authorities.
#[derive(Clone, Copy, PartialEq, Eq, Structural, Debug)]
pub struct ProgramMetadata {
    pub initialized: bool,
    pub version: u8,
    pub creator: Addr,
    pub authority: Addr,
    pub secondary_authority: Addr,
    pub fee_account: Addr,
    pub fee: u64,
}

impl ProgramMetadata {
    /// Whether `key` may mutate this record: it must match the primary or
    /// the secondary authority.
    pub fn is_authorized(&self, key: &Addr) -> (r: bool)
        ensures
            r == (*key == self.authority || *key == self.secondary_authority),
    {
        *key == self.authority || *key == self.secondary_authority
    }
}

/// A store: a keyed catalog record owning products.
pub struct Store {
    pub version: u8,
    pub status: u8,
    pub creator: Addr,
    pub authority: Addr,
    pub secondary_authority: Addr,
    pub id: u16,
    pub tag: u64,
    pub product_count: u64,
    pub name: Vec<u8>,
    pub description: Vec<u8>,
    pub data: Vec<u8>,
}

impl Store {
    pub fn is_authorized(&self, key: &Addr) -> (r: bool)
        ensures
            r == (*key == self.authority || *key == self.secondary_authority),
    {
        *key == self.authority || *key == self.secondary_authority
    }
}

/// A product: pricing, inventory and redemption terms. A copy with
/// `is_snapshot` set is permanently immutable historical evidence and can
/// never be bought or updated.
pub struct Product {
    pub version: u8,
    pub status: u8,
    pub creator: Addr,
    pub authority: Addr,
    pub secondary_authority: Addr,
    pub id: u32,
    pub tag: u64,
    pub is_snapshot: bool,
    pub usable_snapshot: Addr,
    pub pay_to: Addr,
    pub store: Addr,
    pub price: u64,
    pub inventory: u64,
    pub redemption_type: u8,
    pub expiration_timestamp: i64,
    pub expiration_minutes_after_purchase: u32,
    pub expiration_minutes_after_redemption: u32,
    pub name: Vec<u8>,
    pub description: Vec<u8>,
    pub data: Vec<u8>,
}

impl Product {
    pub fn is_authorized(&self, key: &Addr) -> (r: bool)
        ensures
            r == (*key == self.authority || *key == self.secondary_authority),
    {
        *key == self.authority || *key == self.secondary_authority
    }
}

/// Links a live product, a buyer and a purchase nonce to the snapshot taken
/// for that purchase. One exists per (product, buyer, nonce) triple.
#[derive(Clone, Copy, PartialEq, Eq, Structural, Debug)]
pub struct ProductSnapshotMetadata {
    pub version: u8,
    pub slot: u64,
    pub timestamp: i64,
    pub product: Addr,
    pub product_snapshot: Addr,
    pub nonce: u16,
}

/// A purchase ticket: the buyer's claim on quantity bought, with its escrow
/// holding and the counters the redemption workflow moves quantity between.
#[derive(Clone, Copy, PartialEq, Eq, Structural, Debug)]
pub struct PurchaseTicket {
    pub version: u8,
    pub slot: u64,
    pub timestamp: i64,
    pub product: Addr,
    pub product_snapshot_metadata: Addr,
    pub product_snapshot: Addr,
    pub buyer: Addr,
    pub pay_to: Addr,
    pub authority: Addr,
    pub remaining_quantity: u64,
    pub redeemed: u64,
    pub pending_redemption: u64,
    pub nonce: u16,
    pub price: u64,
    pub store: Addr,
    pub payment: Addr,
    pub expiration: i64,
    pub expiration_minutes_after_redemption: u32,
}

impl PurchaseTicket {
    /// The quantity the ticket accounts for across its three counters.
    pub open spec fn total_quantity(self) -> int {
        self.remaining_quantity + self.redeemed + self.pending_redemption
    }

    /// The counters fit together in a machine word; every ticket the library
    /// creates satisfies this, and every transition preserves it.
    pub open spec fn counters_fit(self) -> bool {
        self.total_quantity() <= u64::MAX
    }

    /// This ticket with its three quantity counters replaced and every other
    /// field kept.
    pub open spec fn with_counters(
        self,
        remaining_quantity: u64,
        redeemed: u64,
        pending_redemption: u64,
    ) -> PurchaseTicket {
        PurchaseTicket {
            remaining_quantity,
            redeemed,
            pending_redemption,
            version: self.version,
            slot: self.slot,
            timestamp: self.timestamp,
            product: self.product,
            product_snapshot_metadata: self.product_snapshot_metadata,
            product_snapshot: self.product_snapshot,
            buyer: self.buyer,
            pay_to: self.pay_to,
            authority: self.authority,
            nonce: self.nonce,
            price: self.price,
            store: self.store,
            payment: self.payment,
            expiration: self.expiration,
            expiration_minutes_after_redemption: self.expiration_minutes_after_redemption,
        }
    }
}

/// Authorizes a signer to service redemptions for one store or product.
/// The disabled fields are present in the schema but no transition in this
/// revision sets them.
#[derive(Clone, Copy, PartialEq, Eq, Structural, Debug)]
pub struct TicketTaker {
    pub version: u8,
    pub taker: Addr,
    pub entity_type: u8,
    pub entity: Addr,
    pub authorized_by: Addr,
    pub enabled_slot: u64,
    pub enabled_timestamp: i64,
    pub disabled_slot: u64,
    pub disabled_timestamp: i64,
}

/// One in-flight or settled claim of quantity against a purchase ticket.
/// Created WAITING; REDEEMED and CANCELLED are final.
#[derive(Clone, Copy, PartialEq, Eq, Structural, Debug)]
pub struct Redemption {
    pub version: u8,
    pub nonce: u32,
    pub init_slot: u64,
    pub close_slot: u64,
    pub init_timestamp: i64,
    pub close_timestamp: i64,
    pub store: Addr,
    pub product: Addr,
    pub product_snapshot_metadata: Addr,
    pub product_snapshot: Addr,
    pub purchase_ticket: Addr,
    pub purchase_ticket_signer: Addr,
    pub buyer: Addr,
    pub pay_to: Addr,
    pub redeem_quantity: u64,
    pub price: u64,
    pub ticket_taker: Addr,
    pub ticket_taker_signer: Addr,
    pub status: u8,
    pub take_expiration: i64,
    pub usage_expiration: i64,
}

/// A deadline of `deadline` has passed at time `now` only when it is set:
/// zero means no deadline.
pub open spec fn deadline_passed(deadline: int, now: int) -> bool {
    deadline > 0 && deadline < now
}

/// Bitmask member for a product's category tag.
#[derive(Clone, Copy, PartialEq, Eq, Structural, Debug)]
pub enum ProductCategory {
    Unspecified,
    Media,
    Merch,
    Event,
    Social,
}

impl ProductCategory {
    /// The bit this category occupies in a tag mask.
    pub fn mask(&self) -> (r: u64)
        ensures
            r == self.mask_spec(),
    {
        match self {
            ProductCategory::Unspecified => 0,
            ProductCategory::Media => 1,
            ProductCategory::Merch => 2,
            ProductCategory::Event => 4,
            ProductCategory::Social => 8,
        }
    }

    pub open spec fn mask_spec(self) -> u64 {
        match self {
            ProductCategory::Unspecified => 0,
            ProductCategory::Media => 1,
            ProductCategory::Merch => 2,
            ProductCategory::Event => 4,
            ProductCategory::Social => 8,
        }
    }
}

/// Bitmask member for a product's type tag.
#[derive(Clone, Copy, PartialEq, Eq, Structural, Debug)]
pub enum ProductType {
    Unspecified,
    Music,
    Video,
    Clothing,
    Concert,
    Conference,
    Award,
}

impl ProductType {
    /// The bit this type occupies in a tag mask.
    pub fn mask(&self) -> (r: u64)
        ensures
            r == self.mask_spec(),
    {
        match self {
            ProductType::Unspecified => 0,
            ProductType::Music => 1,
            ProductType::Video => 2,
            ProductType::Clothing => 4,
            ProductType::Concert => 8,
            ProductType::Conference => 16,
            ProductType::Award => 32,
        }
    }

    pub open spec fn mask_spec(self) -> u64 {
        match self {
            ProductType::Unspecified => 0,
            ProductType::Music => 1,
            ProductType::Video => 2,
            ProductType::Clothing => 4,
            ProductType::Concert => 8,
            ProductType::Conference => 16,
            ProductType::Award => 32,
        }
    }
}

} // verus!
