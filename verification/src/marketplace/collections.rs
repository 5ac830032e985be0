//! Marketplace collections: rows built from collection registration
//! events.

use vstd::prelude::*;

use crate::marketplace::utils::{
    spec_from_event, DecodeError, MarketplaceEvent, SpecMarketplaceEvent,
};
use crate::transactions::Event;

verus! {

/// A registered collection, keyed by creator address and collection name.
#[derive(Debug, Clone)]
pub struct MarketplaceCollection {
    pub creator_address: String,
    pub collection_address: String,
    pub collection_name: String,
    pub creation_timestamp: i64,
}

pub struct SpecMarketplaceCollection {
    pub creator_address: Seq<char>,
    pub collection_address: Seq<char>,
    pub collection_name: Seq<char>,
    pub creation_timestamp: int,
}

impl DeepView for MarketplaceCollection {
    type V = SpecMarketplaceCollection;

    open spec fn deep_view(&self) -> SpecMarketplaceCollection {
        SpecMarketplaceCollection {
            creator_address: self.creator_address@,
            collection_address: self.collection_address@,
            collection_name: self.collection_name@,
            creation_timestamp: self.creation_timestamp as int,
        }
    }
}

/// The collection row an event yields: one row per registration event,
/// nothing for any other event.
pub open spec fn spec_collection_from_event(tag: Seq<char>, data: crate::json::SpecJson) -> Result<
    Option<SpecMarketplaceCollection>,
    (),
> {
    match spec_from_event(tag, data) {
        Err(()) => Err(()),
        Ok(Some(SpecMarketplaceEvent::CollectionRegistrationEvent(e))) => Ok(
            Some(
                SpecMarketplaceCollection {
                    creator_address: e.creator,
                    collection_address: e.collection_address,
                    collection_name: e.collection_name,
                    creation_timestamp: e.timestamp_micros,
                },
            ),
        ),
        Ok(None) => Ok(None),
    }
}

impl MarketplaceCollection {
    /// Builds a collection row out of a registration event; any other
    /// event type is no record, and a registration event with a malformed
    /// value is an error tagged with `txn_version`.
    pub fn from_event(event_type: &str, marketplace_event: &Event, txn_version: i64) -> (r:
        Result<Option<MarketplaceCollection>, DecodeError>)
        ensures
            match r {
                Ok(o) => spec_collection_from_event(
                    event_type@,
                    marketplace_event.data.deep_view(),
                ) == Ok::<_, ()>(o.deep_view()),
                Err(e) => spec_collection_from_event(
                    event_type@,
                    marketplace_event.data.deep_view(),
                ) is Err && e.version == txn_version && e.context@ == event_type@,
            },
    {
        match MarketplaceEvent::from_event(event_type, &marketplace_event.data, txn_version) {
            Err(e) => Err(e),
            Ok(Some(MarketplaceEvent::CollectionRegistrationEvent(inner))) => Ok(
                Some(
                    MarketplaceCollection {
                        creator_address: inner.creator,
                        collection_address: inner.collection_address,
                        collection_name: inner.collection_name,
                        creation_timestamp: inner.timestamp_micros,
                    },
                ),
            ),
            Ok(None) => Ok(None),
        }
    }
}

} // verus!
