//! Marketplace bids: a table-item write of bid type joined with the
//! `place_bidding` call payload of the same transaction.

use vstd::prelude::*;

use crate::json::deep_clone_vec;
use crate::marketplace::utils::{
    spec_from_function_name, spec_from_table_item_type, spec_known_function, DecodeError,
    MarketplacePayload, MarketplaceWriteSet, SpecMarketplacePayload, SpecMarketplaceWriteSet,
};
use crate::transactions::{
    EntryFunctionPayload, SpecEntryFunctionPayload, SpecWriteTableItem, WriteTableItem,
};

verus! {

/// A standing bid: identity from the call payload, price and maker from
/// the table-item write, timestamp from the transaction.
#[derive(Debug, Clone)]
pub struct MarketplaceBid {
    pub creator_address: String,
    pub collection_name: String,
    pub token_name: String,
    pub property_version: i64,
    pub price: i64,
    pub maker: String,
    pub timestamp: i64,
}

pub struct SpecMarketplaceBid {
    pub creator_address: Seq<char>,
    pub collection_name: Seq<char>,
    pub token_name: Seq<char>,
    pub property_version: int,
    pub price: int,
    pub maker: Seq<char>,
    pub timestamp: int,
}

impl DeepView for MarketplaceBid {
    type V = SpecMarketplaceBid;

    open spec fn deep_view(&self) -> SpecMarketplaceBid {
        SpecMarketplaceBid {
            creator_address: self.creator_address@,
            collection_name: self.collection_name@,
            token_name: self.token_name@,
            property_version: self.property_version as int,
            price: self.price as int,
            maker: self.maker@,
            timestamp: self.timestamp as int,
        }
    }
}

/// The bid decoded from one table-item write and one call payload:
/// `Ok(Some(..))` exactly when the write decodes to a bid and the payload
/// to a `place_bidding` call; `Err` when either recognized decode fails.
pub open spec fn spec_bid_from_table_item(
    item: SpecWriteTableItem,
    payload: SpecEntryFunctionPayload,
    timestamp: int,
) -> Result<Option<SpecMarketplaceBid>, ()> {
    match item.data {
        None => Ok(None),
        Some(d) => match spec_from_table_item_type(d.key_type, d.value) {
            Err(()) => Err(()),
            Ok(ws) => match spec_from_function_name(payload.function, payload.arguments) {
                Err(()) => Err(()),
                Ok(pl) => match (ws, pl) {
                    (
                        Some(SpecMarketplaceWriteSet::Bid(bid)),
                        Some(SpecMarketplacePayload::PlaceBidPayload(pb)),
                    ) => Ok(
                        Some(
                            SpecMarketplaceBid {
                                creator_address: pb.creator,
                                collection_name: pb.collection_name,
                                token_name: pb.token_name,
                                property_version: pb.property_version,
                                price: bid.price,
                                maker: bid.maker,
                                timestamp,
                            },
                        ),
                    ),
                    _ => Ok(None),
                },
            },
        },
    }
}

impl MarketplaceBid {
    /// Joins the table-item write with the transaction's `place_bidding`
    /// payload; both halves must be present for a record, the absence of
    /// either is no record, and a recognized tag or function with a
    /// malformed value is an error tagged with `txn_version`.
    pub fn from_table_item(
        table_item: &WriteTableItem,
        payload: &EntryFunctionPayload,
        txn_version: i64,
        txn_timestamp: i64,
    ) -> (r: Result<Option<MarketplaceBid>, DecodeError>)
        requires
            table_item.data is Some,
            spec_known_function(payload.function@) ==> payload.arguments@.len() > 0,
        ensures
            ({
                let sitem = table_item.deep_view();
                let spay = payload.deep_view();
                match r {
                    Ok(o) => spec_bid_from_table_item(sitem, spay, txn_timestamp as int)
                        == Ok::<_, ()>(o.deep_view()),
                    Err(e) => {
                        &&& spec_bid_from_table_item(sitem, spay, txn_timestamp as int) is Err
                        &&& e.version == txn_version
                        &&& e.context@ == (if spec_from_table_item_type(
                            sitem.data->Some_0.key_type,
                            sitem.data->Some_0.value,
                        ) is Err {
                            sitem.data->Some_0.key_type
                        } else {
                            spay.function
                        })
                    },
                }
            }),
    {
        let d = match &table_item.data {
            Some(d) => d,
            None => return Ok(None),
        };
        let maybe_bid = match MarketplaceWriteSet::from_table_item_type(
            d.key_type.as_str(),
            &d.value,
            txn_version,
        ) {
            Ok(Some(MarketplaceWriteSet::Bid(inner))) => Some(inner),
            Ok(_) => None,
            Err(e) => return Err(e),
        };
        let maybe_place_bid_payload = match MarketplacePayload::from_function_name(
            payload.function.as_str(),
            deep_clone_vec(&payload.arguments),
            txn_version,
        ) {
            Ok(Some(MarketplacePayload::PlaceBidPayload(inner))) => Some(inner),
            Ok(_) => None,
            Err(e) => return Err(e),
        };
        if let (Some(bid), Some(place_bid_payload)) = (maybe_bid, maybe_place_bid_payload) {
            Ok(
                Some(
                    MarketplaceBid {
                        creator_address: place_bid_payload.creator,
                        collection_name: place_bid_payload.collection_name,
                        token_name: place_bid_payload.token_name,
                        property_version: place_bid_payload.property_version,
                        price: bid.price,
                        maker: bid.maker,
                        timestamp: txn_timestamp,
                    },
                ),
            )
        } else {
            Ok(None)
        }
    }
}

} // verus!
