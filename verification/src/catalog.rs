//! Catalog records: creating and updating stores and products. Creation
//! rejects over-long names and descriptions; updates are gated on the
//! record's authority, replace the mutable fields wholesale, and never touch
//! a snapshot.

use vstd::prelude::*;
use crate::addr::Addr;
use crate::error::ErrorCode;
use crate::records::{
    Product, Store, PRODUCT_DESCRIPTION_SIZE, PRODUCT_NAME_SIZE, PRODUCT_VERSION,
    STORE_DESCRIPTION_SIZE, STORE_NAME_SIZE, STORE_VERSION,
};

verus! {

/// The length bounds every store create or update enforces.
pub open spec fn store_text_error(name: Seq<u8>, description: Seq<u8>) -> Option<ErrorCode> {
    if name.len() > STORE_NAME_SIZE {
        Some(ErrorCode::NameIsTooLong)
    } else if description.len() > STORE_DESCRIPTION_SIZE {
        Some(ErrorCode::DescriptionIsTooLong)
    } else {
        None
    }
}

/// The length bounds every product create or update enforces.
pub open spec fn product_text_error(name: Seq<u8>, description: Seq<u8>) -> Option<ErrorCode> {
    if name.len() > PRODUCT_NAME_SIZE {
        Some(ErrorCode::NameIsTooLong)
    } else if description.len() > PRODUCT_DESCRIPTION_SIZE {
        Some(ErrorCode::DescriptionIsTooLong)
    } else {
        None
    }
}

/// Creates a store: zero tag, zero product count, the given authorities and
/// texts. Fails only on an over-long name or description.
pub fn create_store(
    creator: Addr,
    authority: Addr,
    secondary_authority: Addr,
    id: u16,
    status: u8,
    name: Vec<u8>,
    description: Vec<u8>,
    data: Vec<u8>,
) -> (r: Result<Store, ErrorCode>)
    ensures
        ({
            let err = store_text_error(name@, description@);
            match r {
                Result::Err(e) => err == Some(e),
                Result::Ok(store) => {
                    &&& err is None
                    &&& store.version == STORE_VERSION
                    &&& store.status == status
                    &&& store.creator == creator
                    &&& store.authority == authority
                    &&& store.secondary_authority == secondary_authority
                    &&& store.id == id
                    &&& store.tag == 0
                    &&& store.product_count == 0
                    &&& store.name == name
                    &&& store.description == description
                    &&& store.data == data
                },
            }
        }),
{
    if name.len() > STORE_NAME_SIZE {
        return Err(ErrorCode::NameIsTooLong);
    }
    if description.len() > STORE_DESCRIPTION_SIZE {
        return Err(ErrorCode::DescriptionIsTooLong);
    }
    Ok(Store {
        version: STORE_VERSION,
        status: status,
        creator: creator,
        authority: authority,
        secondary_authority: secondary_authority,
        id: id,
        tag: 0,
        product_count: 0,
        name: name,
        description: description,
        data: data,
    })
}

/// The preconditions of `update_store`, in order.
pub open spec fn update_store_error(
    store: Store,
    authority: Addr,
    name: Seq<u8>,
    description: Seq<u8>,
) -> Option<ErrorCode> {
    if authority != store.authority && authority != store.secondary_authority {
        Some(ErrorCode::IncorrectAuthority)
    } else {
        store_text_error(name, description)
    }
}

/// Replaces a store's status, name, description and payload wholesale.
/// Only the store's authority (primary or secondary) may update, and the
/// text bounds are enforced as at creation. Identity, authorities and the
/// product count are untouched. On rejection nothing changes.
pub fn update_store(
    store: &mut Store,
    authority: Addr,
    status: u8,
    name: Vec<u8>,
    description: Vec<u8>,
    data: Vec<u8>,
) -> (r: Result<(), ErrorCode>)
    ensures
        ({
            let err = update_store_error(*old(store), authority, name@, description@);
            match r {
                Result::Err(e) => {
                    &&& err == Some(e)
                    &&& *final(store) == *old(store)
                },
                Result::Ok(_) => {
                    &&& err is None
                    &&& final(store).status == status
                    &&& final(store).name == name
                    &&& final(store).description == description
                    &&& final(store).data == data
                    &&& final(store).version == old(store).version
                    &&& final(store).creator == old(store).creator
                    &&& final(store).authority == old(store).authority
                    &&& final(store).secondary_authority == old(store).secondary_authority
                    &&& final(store).id == old(store).id
                    &&& final(store).tag == old(store).tag
                    &&& final(store).product_count == old(store).product_count
                },
            }
        }),
{
    if !store.is_authorized(&authority) {
        return Err(ErrorCode::IncorrectAuthority);
    }
    if name.len() > STORE_NAME_SIZE {
        return Err(ErrorCode::NameIsTooLong);
    }
    if description.len() > STORE_DESCRIPTION_SIZE {
        return Err(ErrorCode::DescriptionIsTooLong);
    }
    store.status = status;
    store.name = name;
    store.description = description;
    store.data = data;
    Ok(())
}

/// What a newly created product looks like, short of its texts: no snapshot
/// flag, no snapshot reference, and the store linkage as given.
pub open spec fn created_product_fields(
    product: Product,
    creator: Addr,
    authority: Addr,
    secondary_authority: Addr,
    pay_to: Addr,
    store: Addr,
    id: u32,
    status: u8,
    price: u64,
    inventory: u64,
    redemption_type: u8,
    expiration_timestamp: i64,
    expiration_minutes_after_purchase: u32,
    expiration_minutes_after_redemption: u32,
) -> bool {
    &&& product.version == PRODUCT_VERSION
    &&& product.status == status
    &&& product.creator == creator
    &&& product.authority == authority
    &&& product.secondary_authority == secondary_authority
    &&& product.id == id
    &&& product.tag == 0
    &&& !product.is_snapshot
    &&& product.usable_snapshot.is_zero()
    &&& product.pay_to == pay_to
    &&& product.store == store
    &&& product.price == price
    &&& product.inventory == inventory
    &&& product.redemption_type == redemption_type
    &&& product.expiration_timestamp == expiration_timestamp
    &&& product.expiration_minutes_after_purchase == expiration_minutes_after_purchase
    &&& product.expiration_minutes_after_redemption == expiration_minutes_after_redemption
}

/// Creates a stand-alone product (no owning store). Fails only on an
/// over-long name or description.
pub fn create_product(
    creator: Addr,
    authority: Addr,
    secondary_authority: Addr,
    pay_to: Addr,
    id: u32,
    status: u8,
    price: u64,
    inventory: u64,
    redemption_type: u8,
    expiration_timestamp: i64,
    expiration_minutes_after_purchase: u32,
    expiration_minutes_after_redemption: u32,
    name: Vec<u8>,
    description: Vec<u8>,
    data: Vec<u8>,
) -> (r: Result<Product, ErrorCode>)
    ensures
        ({
            let err = product_text_error(name@, description@);
            match r {
                Result::Err(e) => err == Some(e),
                Result::Ok(product) => {
                    &&& err is None
                    &&& created_product_fields(
                        product,
                        creator,
                        authority,
                        secondary_authority,
                        pay_to,
                        Addr { id: 0 },
                        id,
                        status,
                        price,
                        inventory,
                        redemption_type,
                        expiration_timestamp,
                        expiration_minutes_after_purchase,
                        expiration_minutes_after_redemption,
                    )
                    &&& product.name == name
                    &&& product.description == description
                    &&& product.data == data
                },
            }
        }),
{
    if name.len() > PRODUCT_NAME_SIZE {
        return Err(ErrorCode::NameIsTooLong);
    }
    if description.len() > PRODUCT_DESCRIPTION_SIZE {
        return Err(ErrorCode::DescriptionIsTooLong);
    }
    Ok(Product {
        version: PRODUCT_VERSION,
        status: status,
        creator: creator,
        authority: authority,
        secondary_authority: secondary_authority,
        id: id,
        tag: 0,
        is_snapshot: false,
        usable_snapshot: Addr::zero(),
        pay_to: pay_to,
        store: Addr::zero(),
        price: price,
        inventory: inventory,
        redemption_type: redemption_type,
        expiration_timestamp: expiration_timestamp,
        expiration_minutes_after_purchase: expiration_minutes_after_purchase,
        expiration_minutes_after_redemption: expiration_minutes_after_redemption,
        name: name,
        description: description,
        data: data,
    })
}

/// The preconditions of `create_store_product`, in order.
pub open spec fn create_store_product_error(
    store: Store,
    creator: Addr,
    name: Seq<u8>,
    description: Seq<u8>,
) -> Option<ErrorCode> {
    if creator != store.authority && creator != store.secondary_authority {
        Some(ErrorCode::IncorrectAuthority)
    } else {
        product_text_error(name, description)
    }
}

/// Creates a product owned by a store. Only the store's authority (primary
/// or secondary) may create one; the store's product count increases by one.
/// On rejection nothing changes.
pub fn create_store_product(
    store: &mut Store,
    store_addr: Addr,
    creator: Addr,
    authority: Addr,
    secondary_authority: Addr,
    pay_to: Addr,
    id: u32,
    status: u8,
    price: u64,
    inventory: u64,
    redemption_type: u8,
    expiration_timestamp: i64,
    expiration_minutes_after_purchase: u32,
    expiration_minutes_after_redemption: u32,
    name: Vec<u8>,
    description: Vec<u8>,
    data: Vec<u8>,
) -> (r: Result<Product, ErrorCode>)
    requires
        old(store).product_count < u64::MAX,
    ensures
        ({
            let err = create_store_product_error(*old(store), creator, name@, description@);
            match r {
                Result::Err(e) => {
                    &&& err == Some(e)
                    &&& *final(store) == *old(store)
                },
                Result::Ok(product) => {
                    &&& err is None
                    &&& created_product_fields(
                        product,
                        creator,
                        authority,
                        secondary_authority,
                        pay_to,
                        store_addr,
                        id,
                        status,
                        price,
                        inventory,
                        redemption_type,
                        expiration_timestamp,
                        expiration_minutes_after_purchase,
                        expiration_minutes_after_redemption,
                    )
                    &&& product.name == name
                    &&& product.description == description
                    &&& product.data == data
                    &&& final(store).product_count == old(store).product_count + 1
                    &&& final(store).version == old(store).version
                    &&& final(store).status == old(store).status
                    &&& final(store).creator == old(store).creator
                    &&& final(store).authority == old(store).authority
                    &&& final(store).secondary_authority == old(store).secondary_authority
                    &&& final(store).id == old(store).id
                    &&& final(store).tag == old(store).tag
                    &&& final(store).name == old(store).name
                    &&& final(store).description == old(store).description
                    &&& final(store).data == old(store).data
                },
            }
        }),
{
    if !store.is_authorized(&creator) {
        return Err(ErrorCode::IncorrectAuthority);
    }
    if name.len() > PRODUCT_NAME_SIZE {
        return Err(ErrorCode::NameIsTooLong);
    }
    if description.len() > PRODUCT_DESCRIPTION_SIZE {
        return Err(ErrorCode::DescriptionIsTooLong);
    }
    let product = Product {
        version: PRODUCT_VERSION,
        status: status,
        creator: creator,
        authority: authority,
        secondary_authority: secondary_authority,
        id: id,
        tag: 0,
        is_snapshot: false,
        usable_snapshot: Addr::zero(),
        pay_to: pay_to,
        store: store_addr,
        price: price,
        inventory: inventory,
        redemption_type: redemption_type,
        expiration_timestamp: expiration_timestamp,
        expiration_minutes_after_purchase: expiration_minutes_after_purchase,
        expiration_minutes_after_redemption: expiration_minutes_after_redemption,
        name: name,
        description: description,
        data: data,
    };
    store.product_count = store.product_count + 1;
    Ok(product)
}

/// The preconditions of `update_product`, in order: authority first, then
/// the snapshot guard, then the text bounds.
pub open spec fn update_product_error(
    product: Product,
    authority: Addr,
    name: Seq<u8>,
    description: Seq<u8>,
) -> Option<ErrorCode> {
    if authority != product.authority && authority != product.secondary_authority {
        Some(ErrorCode::IncorrectAuthority)
    } else if product.is_snapshot {
        Some(ErrorCode::UnableToModifySnapshot)
    } else {
        product_text_error(name, description)
    }
}

/// Replaces a product's terms wholesale: status, price, inventory,
/// redemption type, expiration terms and texts. Only the product's
/// authority (primary or secondary) may update; a record flagged as a
/// snapshot is never modified. Identity, authorities, snapshot linkage,
/// `pay_to` and the store reference are untouched. On rejection nothing
/// changes.
pub fn update_product(
    product: &mut Product,
    authority: Addr,
    status: u8,
    price: u64,
    inventory: u64,
    redemption_type: u8,
    expiration_timestamp: i64,
    expiration_minutes_after_purchase: u32,
    expiration_minutes_after_redemption: u32,
    name: Vec<u8>,
    description: Vec<u8>,
    data: Vec<u8>,
) -> (r: Result<(), ErrorCode>)
    ensures
        ({
            let err = update_product_error(*old(product), authority, name@, description@);
            match r {
                Result::Err(e) => {
                    &&& err == Some(e)
                    &&& *final(product) == *old(product)
                },
                Result::Ok(_) => {
                    &&& err is None
                    &&& final(product).status == status
                    &&& final(product).price == price
                    &&& final(product).inventory == inventory
                    &&& final(product).redemption_type == redemption_type
                    &&& final(product).expiration_timestamp == expiration_timestamp
                    &&& final(product).expiration_minutes_after_purchase
                        == expiration_minutes_after_purchase
                    &&& final(product).expiration_minutes_after_redemption
                        == expiration_minutes_after_redemption
                    &&& final(product).name == name
                    &&& final(product).description == description
                    &&& final(product).data == data
                    &&& final(product).version == old(product).version
                    &&& final(product).creator == old(product).creator
                    &&& final(product).authority == old(product).authority
                    &&& final(product).secondary_authority == old(product).secondary_authority
                    &&& final(product).id == old(product).id
                    &&& final(product).tag == old(product).tag
                    &&& final(product).is_snapshot == old(product).is_snapshot
                    &&& final(product).usable_snapshot == old(product).usable_snapshot
                    &&& final(product).pay_to == old(product).pay_to
                    &&& final(product).store == old(product).store
                },
            }
        }),
        old(product).is_snapshot ==> r is Err && *final(product) == *old(product),
{
    if !product.is_authorized(&authority) {
        return Err(ErrorCode::IncorrectAuthority);
    }
    if product.is_snapshot {
        return Err(ErrorCode::UnableToModifySnapshot);
    }
    if name.len() > PRODUCT_NAME_SIZE {
        return Err(ErrorCode::NameIsTooLong);
    }
    if description.len() > PRODUCT_DESCRIPTION_SIZE {
        return Err(ErrorCode::DescriptionIsTooLong);
    }
    product.status = status;
    product.price = price;
    product.redemption_type = redemption_type;
    product.inventory = inventory;
    product.expiration_minutes_after_purchase = expiration_minutes_after_purchase;
    product.expiration_timestamp = expiration_timestamp;
    product.expiration_minutes_after_redemption = expiration_minutes_after_redemption;
    product.name = name;
    product.description = description;
    product.data = data;
    Ok(())
}

} // verus!
