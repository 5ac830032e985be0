//! Marketplace orders: a table-item write of order type joined with the
//! `place_blind_order` call payload; the maker is the table item's key.

use vstd::prelude::*;

use crate::json::{deep_clone_vec, JsonValue, SpecJson};
use crate::marketplace::utils::{
    spec_from_function_name, spec_from_table_item_type, spec_known_function, DecodeError,
    MarketplacePayload, MarketplaceWriteSet, SpecMarketplacePayload, SpecMarketplaceWriteSet,
};
use crate::transactions::{
    EntryFunctionPayload, SpecEntryFunctionPayload, SpecWriteTableItem, WriteTableItem,
};

verus! {

/// An open order: identity from the call payload, price and quantity from
/// the table-item write, maker from the table item's key.
#[derive(Debug, Clone)]
pub struct MarketplaceOrder {
    pub creator_address: String,
    pub collection_name: String,
    pub price: i64,
    pub quantity: i64,
    pub maker: String,
    pub timestamp: i64,
}

pub struct SpecMarketplaceOrder {
    pub creator_address: Seq<char>,
    pub collection_name: Seq<char>,
    pub price: int,
    pub quantity: int,
    pub maker: Seq<char>,
    pub timestamp: int,
}

impl DeepView for MarketplaceOrder {
    type V = SpecMarketplaceOrder;

    open spec fn deep_view(&self) -> SpecMarketplaceOrder {
        SpecMarketplaceOrder {
            creator_address: self.creator_address@,
            collection_name: self.collection_name@,
            price: self.price as int,
            quantity: self.quantity as int,
            maker: self.maker@,
            timestamp: self.timestamp as int,
        }
    }
}

/// The order decoded from one table-item write and one call payload.
/// When both halves are present the table item's key must be a string,
/// the maker address; any other key shape is a decode error.
pub open spec fn spec_order_from_table_item(
    item: SpecWriteTableItem,
    payload: SpecEntryFunctionPayload,
    timestamp: int,
) -> Result<Option<SpecMarketplaceOrder>, ()> {
    match item.data {
        None => Ok(None),
        Some(d) => match spec_from_table_item_type(d.key_type, d.value) {
            Err(()) => Err(()),
            Ok(ws) => match spec_from_function_name(payload.function, payload.arguments) {
                Err(()) => Err(()),
                Ok(pl) => match (ws, pl) {
                    (
                        Some(SpecMarketplaceWriteSet::Order(order)),
                        Some(SpecMarketplacePayload::PlaceOrderPayload(po)),
                    ) => match d.key {
                        SpecJson::Str(maker) => Ok(
                            Some(
                                SpecMarketplaceOrder {
                                    creator_address: po.creator,
                                    collection_name: po.collection_name,
                                    price: order.price,
                                    quantity: order.quantity,
                                    maker,
                                    timestamp,
                                },
                            ),
                        ),
                        _ => Err(()),
                    },
                    _ => Ok(None),
                },
            },
        },
    }
}

impl MarketplaceOrder {
    /// Joins the table-item write with the transaction's
    /// `place_blind_order` payload; both halves must be present for a
    /// record, and a recognized tag or function with a malformed value,
    /// or a non-string table key on a joined order, is an error tagged
    /// with `txn_version`.
    pub fn from_table_item(
        table_item: &WriteTableItem,
        payload: &EntryFunctionPayload,
        txn_version: i64,
        txn_timestamp: i64,
    ) -> (r: Result<Option<MarketplaceOrder>, DecodeError>)
        requires
            table_item.data is Some,
            spec_known_function(payload.function@) ==> payload.arguments@.len() > 0,
        ensures
            ({
                let sitem = table_item.deep_view();
                let spay = payload.deep_view();
                match r {
                    Ok(o) => spec_order_from_table_item(sitem, spay, txn_timestamp as int)
                        == Ok::<_, ()>(o.deep_view()),
                    Err(e) => {
                        &&& spec_order_from_table_item(sitem, spay, txn_timestamp as int) is Err
                        &&& e.version == txn_version
                        &&& e.context@ == (if !(spec_from_table_item_type(
                            sitem.data->Some_0.key_type,
                            sitem.data->Some_0.value,
                        ) is Err) && spec_from_function_name(spay.function, spay.arguments) is Err {
                            spay.function
                        } else {
                            sitem.data->Some_0.key_type
                        })
                    },
                }
            }),
    {
        let d = match &table_item.data {
            Some(d) => d,
            None => return Ok(None),
        };
        let maybe_order = match MarketplaceWriteSet::from_table_item_type(
            d.key_type.as_str(),
            &d.value,
            txn_version,
        ) {
            Ok(Some(MarketplaceWriteSet::Order(inner))) => Some(inner),
            Ok(_) => None,
            Err(e) => return Err(e),
        };
        let maybe_place_order_payload = match MarketplacePayload::from_function_name(
            payload.function.as_str(),
            deep_clone_vec(&payload.arguments),
            txn_version,
        ) {
            Ok(Some(MarketplacePayload::PlaceOrderPayload(inner))) => Some(inner),
            Ok(_) => None,
            Err(e) => return Err(e),
        };
        if let (Some(order), Some(place_order_payload)) = (maybe_order, maybe_place_order_payload) {
            let maker = match &d.key {
                JsonValue::Str(s) => s.clone(),
                _ => return Err(
                    DecodeError { version: txn_version, context: d.key_type.clone() },
                ),
            };
            Ok(
                Some(
                    MarketplaceOrder {
                        creator_address: place_order_payload.creator,
                        collection_name: place_order_payload.collection_name,
                        price: order.price,
                        quantity: order.quantity,
                        maker,
                        timestamp: txn_timestamp,
                    },
                ),
            )
        } else {
            Ok(None)
        }
    }
}

} // verus!
