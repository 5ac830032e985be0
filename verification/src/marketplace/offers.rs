//! Marketplace offers: a table-item write of offer type joined with the
//! `list_item` call payload of the same transaction.

use vstd::prelude::*;

use crate::json::deep_clone_vec;
use crate::marketplace::utils::{
    spec_from_function_name, spec_from_table_item_type, spec_known_function, DecodeError,
    MarketplacePayload, MarketplaceWriteSet, SpecMarketplacePayload, SpecMarketplaceWriteSet,
};
use crate::transactions::{
    EntryFunctionPayload, SpecEntryFunctionPayload, SpecWriteTableItem, WriteTableItem,
};

verus! {

/// A listed item offered for sale: identity from the call payload, price
/// and seller from the table-item write, timestamp from the transaction.
#[derive(Debug, Clone)]
pub struct MarketplaceOffer {
    pub creator_address: String,
    pub collection_name: String,
    pub token_name: String,
    pub property_version: i64,
    pub price: i64,
    pub seller: String,
    pub timestamp: i64,
}

pub struct SpecMarketplaceOffer {
    pub creator_address: Seq<char>,
    pub collection_name: Seq<char>,
    pub token_name: Seq<char>,
    pub property_version: int,
    pub price: int,
    pub seller: Seq<char>,
    pub timestamp: int,
}

impl DeepView for MarketplaceOffer {
    type V = SpecMarketplaceOffer;

    open spec fn deep_view(&self) -> SpecMarketplaceOffer {
        SpecMarketplaceOffer {
            creator_address: self.creator_address@,
            collection_name: self.collection_name@,
            token_name: self.token_name@,
            property_version: self.property_version as int,
            price: self.price as int,
            seller: self.seller@,
            timestamp: self.timestamp as int,
        }
    }
}

/// The offer decoded from one table-item write and one call payload:
/// `Ok(Some(..))` exactly when the write decodes to an offer and the
/// payload to a `list_item` call; `Err` when either recognized decode
/// fails.
pub open spec fn spec_offer_from_table_item(
    item: SpecWriteTableItem,
    payload: SpecEntryFunctionPayload,
    timestamp: int,
) -> Result<Option<SpecMarketplaceOffer>, ()> {
    match item.data {
        None => Ok(None),
        Some(d) => match spec_from_table_item_type(d.key_type, d.value) {
            Err(()) => Err(()),
            Ok(ws) => match spec_from_function_name(payload.function, payload.arguments) {
                Err(()) => Err(()),
                Ok(pl) => match (ws, pl) {
                    (
                        Some(SpecMarketplaceWriteSet::Offer(offer)),
                        Some(SpecMarketplacePayload::ListItemPayload(list)),
                    ) => Ok(
                        Some(
                            SpecMarketplaceOffer {
                                creator_address: list.creator,
                                collection_name: list.collection_name,
                                token_name: list.token_name,
                                property_version: list.property_version,
                                price: offer.price,
                                seller: offer.seller,
                                timestamp,
                            },
                        ),
                    ),
                    _ => Ok(None),
                },
            },
        },
    }
}

impl MarketplaceOffer {
    /// Joins the table-item write with the transaction's `list_item`
    /// payload; both halves must be present for a record, the absence of
    /// either is no record, and a recognized tag or function with a
    /// malformed value is an error tagged with `txn_version`.
    pub fn from_table_item(
        table_item: &WriteTableItem,
        payload: &EntryFunctionPayload,
        txn_version: i64,
        txn_timestamp: i64,
    ) -> (r: Result<Option<MarketplaceOffer>, DecodeError>)
        requires
            table_item.data is Some,
            spec_known_function(payload.function@) ==> payload.arguments@.len() > 0,
        ensures
            ({
                let sitem = table_item.deep_view();
                let spay = payload.deep_view();
                match r {
                    Ok(o) => spec_offer_from_table_item(sitem, spay, txn_timestamp as int)
                        == Ok::<_, ()>(o.deep_view()),
                    Err(e) => {
                        &&& spec_offer_from_table_item(sitem, spay, txn_timestamp as int) is Err
                        &&& e.version == txn_version
                        &&& e.context@ == (if spec_from_table_item_type(
                            sitem.data->Some_0.key_type,
                            sitem.data->Some_0.value,
                        ) is Err {
                            sitem.data->Some_0.key_type
                        } else {
                            spay.function
                        })
                    },
                }
            }),
    {
        let d = match &table_item.data {
            Some(d) => d,
            None => return Ok(None),
        };
        let maybe_offer = match MarketplaceWriteSet::from_table_item_type(
            d.key_type.as_str(),
            &d.value,
            txn_version,
        ) {
            Ok(Some(MarketplaceWriteSet::Offer(inner))) => Some(inner),
            Ok(_) => None,
            Err(e) => return Err(e),
        };
        let maybe_list_item_payload = match MarketplacePayload::from_function_name(
            payload.function.as_str(),
            deep_clone_vec(&payload.arguments),
            txn_version,
        ) {
            Ok(Some(MarketplacePayload::ListItemPayload(inner))) => Some(inner),
            Ok(_) => None,
            Err(e) => return Err(e),
        };
        if let (Some(offer), Some(list_item_payload)) = (maybe_offer, maybe_list_item_payload) {
            Ok(
                Some(
                    MarketplaceOffer {
                        creator_address: list_item_payload.creator,
                        collection_name: list_item_payload.collection_name,
                        token_name: list_item_payload.token_name,
                        property_version: list_item_payload.property_version,
                        price: offer.price,
                        seller: offer.seller,
                        timestamp: txn_timestamp,
                    },
                ),
            )
        } else {
            Ok(None)
        }
    }
}

} // verus!
