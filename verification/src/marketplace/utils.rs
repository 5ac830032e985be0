//! Tag-based dispatch for the marketplace domain: a fixed registry of
//! fully-qualified type tags and entry-function names, and the structural
//! decode of their loosely-typed values into typed shapes.
//!
//! Dispatch is total: an unrecognized tag yields no record and no error; a
//! recognized tag whose value does not decode is a hard error carrying the
//! transaction version, so schema drift is surfaced rather than dropped.

use vstd::prelude::*;

use crate::json::{
    spec_merged_list, deep_vals, merge_values_vector, spec_obj_get, JsonValue, SpecJson, str_eq,
};

verus! {

/// A recognized tag or function name whose value failed to decode, with
/// the version of the transaction that carried it.
#[derive(Debug)]
pub struct DecodeError {
    pub version: i64,
    pub context: String,
}

/// An offer stored in a marketplace table item.
#[derive(Debug)]
pub struct OfferType {
    pub price: i64,
    pub seller: String,
}

pub struct SpecOfferType {
    pub price: int,
    pub seller: Seq<char>,
}

impl DeepView for OfferType {
    type V = SpecOfferType;

    open spec fn deep_view(&self) -> SpecOfferType {
        SpecOfferType { price: self.price as int, seller: self.seller@ }
    }
}

/// An order stored in a marketplace table item.
#[derive(Debug)]
pub struct OrderType {
    pub price: i64,
    pub quantity: i64,
}

pub struct SpecOrderType {
    pub price: int,
    pub quantity: int,
}

impl DeepView for OrderType {
    type V = SpecOrderType;

    open spec fn deep_view(&self) -> SpecOrderType {
        SpecOrderType { price: self.price as int, quantity: self.quantity as int }
    }
}

/// A bid stored in a marketplace table item.
#[derive(Debug)]
pub struct BidType {
    pub price: i64,
    pub maker: String,
}

pub struct SpecBidType {
    pub price: int,
    pub maker: Seq<char>,
}

impl DeepView for BidType {
    type V = SpecBidType;

    open spec fn deep_view(&self) -> SpecBidType {
        SpecBidType { price: self.price as int, maker: self.maker@ }
    }
}

/// A decoded marketplace table-item write.
#[derive(Debug)]
pub enum MarketplaceWriteSet {
    Offer(OfferType),
    Order(OrderType),
    Bid(BidType),
}

pub enum SpecMarketplaceWriteSet {
    Offer(SpecOfferType),
    Order(SpecOrderType),
    Bid(SpecBidType),
}

impl DeepView for MarketplaceWriteSet {
    type V = SpecMarketplaceWriteSet;

    open spec fn deep_view(&self) -> SpecMarketplaceWriteSet {
        match self {
            MarketplaceWriteSet::Offer(o) => SpecMarketplaceWriteSet::Offer(o.deep_view()),
            MarketplaceWriteSet::Order(o) => SpecMarketplaceWriteSet::Order(o.deep_view()),
            MarketplaceWriteSet::Bid(b) => SpecMarketplaceWriteSet::Bid(b.deep_view()),
        }
    }
}

pub open spec fn offer_tag() -> Seq<char> {
    "0x4bed2725cbd33afc34c556a86910456e28537ffb84df6537401c966dbaccf63b::collection::Offer"@
}

pub open spec fn order_tag() -> Seq<char> {
    "0x4bed2725cbd33afc34c556a86910456e28537ffb84df6537401c966dbaccf63b::collection::Order"@
}

pub open spec fn bid_tag() -> Seq<char> {
    "0x4bed2725cbd33afc34c556a86910456e28537ffb84df6537401c966dbaccf63b::collection::Bid"@
}

pub open spec fn collection_registration_tag() -> Seq<char> {
    "0x4bed2725cbd33afc34c556a86910456e28537ffb84df6537401c966dbaccf63b::events::CollectionRegistrationEvent"@
}

pub open spec fn list_item_function() -> Seq<char> {
    "0x4bed2725cbd33afc34c556a86910456e28537ffb84df6537401c966dbaccf63b::core::list_item"@
}

pub open spec fn place_order_function() -> Seq<char> {
    "0x4bed2725cbd33afc34c556a86910456e28537ffb84df6537401c966dbaccf63b::core::place_blind_order"@
}

pub open spec fn place_bid_function() -> Seq<char> {
    "0x4bed2725cbd33afc34c556a86910456e28537ffb84df6537401c966dbaccf63b::core::place_bidding"@
}

/// A string field of an object value.
pub open spec fn spec_get_str(v: SpecJson, key: Seq<char>) -> Option<Seq<char>> {
    match v {
        SpecJson::Obj(entries) => match spec_obj_get(entries, key) {
            Some(SpecJson::Str(s)) => Some(s),
            _ => None,
        },
        _ => None,
    }
}

/// An integer field of an object value.
pub open spec fn spec_get_int(v: SpecJson, key: Seq<char>) -> Option<int> {
    match v {
        SpecJson::Obj(entries) => match spec_obj_get(entries, key) {
            Some(SpecJson::Int(n)) => Some(n),
            _ => None,
        },
        _ => None,
    }
}

/// Reads a string field out of an object value.
pub fn get_str_field<'a>(v: &'a JsonValue, key: &str) -> (r: Option<&'a String>)
    ensures
        match r {
            Some(s) => spec_get_str(v.deep_view(), key@) == Some(s@),
            None => spec_get_str(v.deep_view(), key@) is None,
        },
{
    match v.obj_get(key) {
        Some(inner) => match inner {
            JsonValue::Str(s) => Some(s),
            _ => None,
        },
        None => None,
    }
}

/// Reads an integer field out of an object value.
pub fn get_int_field(v: &JsonValue, key: &str) -> (r: Option<i64>)
    ensures
        match r {
            Some(n) => spec_get_int(v.deep_view(), key@) == Some(n as int),
            None => spec_get_int(v.deep_view(), key@) is None,
        },
{
    match v.obj_get(key) {
        Some(inner) => match inner {
            JsonValue::Int(n) => Some(*n),
            _ => None,
        },
        None => None,
    }
}

pub open spec fn spec_decode_offer(v: SpecJson) -> Option<SpecOfferType> {
    match (spec_get_int(v, "price"@), spec_get_str(v, "seller"@)) {
        (Some(price), Some(seller)) => Some(SpecOfferType { price, seller }),
        _ => None,
    }
}

pub open spec fn spec_decode_order(v: SpecJson) -> Option<SpecOrderType> {
    match (spec_get_int(v, "price"@), spec_get_int(v, "quantity"@)) {
        (Some(price), Some(quantity)) => Some(SpecOrderType { price, quantity }),
        _ => None,
    }
}

pub open spec fn spec_decode_bid(v: SpecJson) -> Option<SpecBidType> {
    match (spec_get_int(v, "price"@), spec_get_str(v, "maker"@)) {
        (Some(price), Some(maker)) => Some(SpecBidType { price, maker }),
        _ => None,
    }
}

fn decode_offer(v: &JsonValue) -> (r: Option<OfferType>)
    ensures
        match r {
            Some(o) => spec_decode_offer(v.deep_view()) == Some(o.deep_view()),
            None => spec_decode_offer(v.deep_view()) is None,
        },
{
    match (get_int_field(v, "price"), get_str_field(v, "seller")) {
        (Some(price), Some(seller)) => Some(OfferType { price, seller: seller.clone() }),
        _ => None,
    }
}

fn decode_order(v: &JsonValue) -> (r: Option<OrderType>)
    ensures
        match r {
            Some(o) => spec_decode_order(v.deep_view()) == Some(o.deep_view()),
            None => spec_decode_order(v.deep_view()) is None,
        },
{
    match (get_int_field(v, "price"), get_int_field(v, "quantity")) {
        (Some(price), Some(quantity)) => Some(OrderType { price, quantity }),
        _ => None,
    }
}

fn decode_bid(v: &JsonValue) -> (r: Option<BidType>)
    ensures
        match r {
            Some(b) => spec_decode_bid(v.deep_view()) == Some(b.deep_view()),
            None => spec_decode_bid(v.deep_view()) is None,
        },
{
    match (get_int_field(v, "price"), get_str_field(v, "maker")) {
        (Some(price), Some(maker)) => Some(BidType { price, maker: maker.clone() }),
        _ => None,
    }
}

/// Dispatch of a table-item write by its key type tag. `Ok(None)` when the
/// tag is not in the registry, `Err` when the tag is recognized but the
/// value does not decode.
pub open spec fn spec_from_table_item_type(tag: Seq<char>, data: SpecJson) -> Result<
    Option<SpecMarketplaceWriteSet>,
    (),
> {
    if tag == offer_tag() {
        match spec_decode_offer(data) {
            Some(o) => Ok(Some(SpecMarketplaceWriteSet::Offer(o))),
            None => Err(()),
        }
    } else if tag == order_tag() {
        match spec_decode_order(data) {
            Some(o) => Ok(Some(SpecMarketplaceWriteSet::Order(o))),
            None => Err(()),
        }
    } else if tag == bid_tag() {
        match spec_decode_bid(data) {
            Some(b) => Ok(Some(SpecMarketplaceWriteSet::Bid(b))),
            None => Err(()),
        }
    } else {
        Ok(None)
    }
}

impl MarketplaceWriteSet {
    /// Decodes a table-item write against the registry of known key type
    /// tags; an unrecognized tag is no record, a recognized tag with a
    /// malformed value is an error tagged with `txn_version`.
    pub fn from_table_item_type(data_type: &str, data: &JsonValue, txn_version: i64) -> (r: Result<
        Option<MarketplaceWriteSet>,
        DecodeError,
    >)
        ensures
            match r {
                Ok(o) => spec_from_table_item_type(data_type@, data.deep_view())
                    == Ok::<_, ()>(o.deep_view()),
                Err(e) => spec_from_table_item_type(data_type@, data.deep_view()) is Err
                    && e.version == txn_version && e.context@ == data_type@,
            },
    {
        if str_eq(
            data_type,
            "0x4bed2725cbd33afc34c556a86910456e28537ffb84df6537401c966dbaccf63b::collection::Offer",
        ) {
            match decode_offer(data) {
                Some(o) => Ok(Some(MarketplaceWriteSet::Offer(o))),
                None => Err(DecodeError { version: txn_version, context: data_type.to_owned() }),
            }
        } else if str_eq(
            data_type,
            "0x4bed2725cbd33afc34c556a86910456e28537ffb84df6537401c966dbaccf63b::collection::Order",
        ) {
            match decode_order(data) {
                Some(o) => Ok(Some(MarketplaceWriteSet::Order(o))),
                None => Err(DecodeError { version: txn_version, context: data_type.to_owned() }),
            }
        } else if str_eq(
            data_type,
            "0x4bed2725cbd33afc34c556a86910456e28537ffb84df6537401c966dbaccf63b::collection::Bid",
        ) {
            match decode_bid(data) {
                Some(b) => Ok(Some(MarketplaceWriteSet::Bid(b))),
                None => Err(DecodeError { version: txn_version, context: data_type.to_owned() }),
            }
        } else {
            Ok(None)
        }
    }
}

/// The microsecond offset a calendar timestamp string denotes, when it
/// parses as one.
pub uninterp spec fn datetime_micros_of(s: Seq<char>) -> Option<i64>;

/// Relies on chrono's `NaiveDateTime` parsing through `str::parse`:
/// whether a string is a valid calendar timestamp, and which microsecond
/// offset it denotes, depend on the characters alone.
#[verifier::external_body]
fn parse_datetime_micros(s: &str) -> (r: Option<i64>)
    ensures
        r == datetime_micros_of(s@),
{
    match s.parse::<chrono::NaiveDateTime>() {
        Ok(dt) => Some(dt.and_utc().timestamp_micros()),
        Err(_) => None,
    }
}

/// Whether a string denotes a decimal number.
pub uninterp spec fn decimal_ok(s: Seq<char>) -> bool;

/// Relies on bigdecimal's `BigDecimal::from_str`: whether a string parses
/// as a decimal number depends on the characters alone.
#[verifier::external_body]
fn decimal_parses(s: &str) -> (r: bool)
    ensures
        r == decimal_ok(s@),
{
    <bigdecimal::BigDecimal as core::str::FromStr>::from_str(s).is_ok()
}

/// A collection registered on the marketplace, as its event reports it.
/// The event counter is kept as the decimal string the event carried.
#[derive(Debug)]
pub struct CollectionRegistrationEvent {
    pub creator: String,
    pub collection_address: String,
    pub collection_name: String,
    pub timestamp_micros: i64,
    pub event_counter: String,
}

pub struct SpecCollectionRegistrationEvent {
    pub creator: Seq<char>,
    pub collection_address: Seq<char>,
    pub collection_name: Seq<char>,
    pub timestamp_micros: int,
    pub event_counter: Seq<char>,
}

impl DeepView for CollectionRegistrationEvent {
    type V = SpecCollectionRegistrationEvent;

    open spec fn deep_view(&self) -> SpecCollectionRegistrationEvent {
        SpecCollectionRegistrationEvent {
            creator: self.creator@,
            collection_address: self.collection_address@,
            collection_name: self.collection_name@,
            timestamp_micros: self.timestamp_micros as int,
            event_counter: self.event_counter@,
        }
    }
}

/// A decoded marketplace event.
#[derive(Debug)]
pub enum MarketplaceEvent {
    CollectionRegistrationEvent(CollectionRegistrationEvent),
}

pub enum SpecMarketplaceEvent {
    CollectionRegistrationEvent(SpecCollectionRegistrationEvent),
}

impl DeepView for MarketplaceEvent {
    type V = SpecMarketplaceEvent;

    open spec fn deep_view(&self) -> SpecMarketplaceEvent {
        match self {
            MarketplaceEvent::CollectionRegistrationEvent(e) => {
                SpecMarketplaceEvent::CollectionRegistrationEvent(e.deep_view())
            },
        }
    }
}

pub open spec fn spec_decode_collection_registration(v: SpecJson) -> Option<
    SpecCollectionRegistrationEvent,
> {
    match (
        spec_get_str(v, "creator"@),
        spec_get_str(v, "collection_address"@),
        spec_get_str(v, "collection_name"@),
        spec_get_str(v, "timestamp"@),
        spec_get_str(v, "event_counter"@),
    ) {
        (Some(creator), Some(addr), Some(name), Some(ts), Some(counter)) => {
            match datetime_micros_of(ts) {
                Some(t) => {
                    if decimal_ok(counter) {
                        Some(
                            SpecCollectionRegistrationEvent {
                                creator,
                                collection_address: addr,
                                collection_name: name,
                                timestamp_micros: t as int,
                                event_counter: counter,
                            },
                        )
                    } else {
                        None
                    }
                },
                None => None,
            }
        },
        _ => None,
    }
}

fn decode_collection_registration(v: &JsonValue) -> (r: Option<CollectionRegistrationEvent>)
    ensures
        match r {
            Some(e) => spec_decode_collection_registration(v.deep_view()) == Some(e.deep_view()),
            None => spec_decode_collection_registration(v.deep_view()) is None,
        },
{
    let creator = get_str_field(v, "creator");
    let addr = get_str_field(v, "collection_address");
    let name = get_str_field(v, "collection_name");
    let ts = get_str_field(v, "timestamp");
    let counter = get_str_field(v, "event_counter");
    match (creator, addr, name, ts, counter) {
        (Some(creator), Some(addr), Some(name), Some(ts), Some(counter)) => {
            match parse_datetime_micros(ts.as_str()) {
                Some(t) => {
                    if decimal_parses(counter.as_str()) {
                        Some(
                            CollectionRegistrationEvent {
                                creator: creator.clone(),
                                collection_address: addr.clone(),
                                collection_name: name.clone(),
                                timestamp_micros: t,
                                event_counter: counter.clone(),
                            },
                        )
                    } else {
                        None
                    }
                },
                None => None,
            }
        },
        _ => None,
    }
}

/// Dispatch of an event by its type tag; same totality as table-item
/// dispatch.
pub open spec fn spec_from_event(tag: Seq<char>, data: SpecJson) -> Result<
    Option<SpecMarketplaceEvent>,
    (),
> {
    if tag == collection_registration_tag() {
        match spec_decode_collection_registration(data) {
            Some(e) => Ok(Some(SpecMarketplaceEvent::CollectionRegistrationEvent(e))),
            None => Err(()),
        }
    } else {
        Ok(None)
    }
}

impl MarketplaceEvent {
    /// Decodes an event against the registry of known event type tags; an
    /// unrecognized tag is no record, a recognized tag with a malformed
    /// value is an error tagged with `txn_version`.
    pub fn from_event(data_type: &str, data: &JsonValue, txn_version: i64) -> (r: Result<
        Option<MarketplaceEvent>,
        DecodeError,
    >)
        ensures
            match r {
                Ok(o) => spec_from_event(data_type@, data.deep_view()) == Ok::<_, ()>(
                    o.deep_view(),
                ),
                Err(e) => spec_from_event(data_type@, data.deep_view()) is Err && e.version
                    == txn_version && e.context@ == data_type@,
            },
    {
        if str_eq(
            data_type,
            "0x4bed2725cbd33afc34c556a86910456e28537ffb84df6537401c966dbaccf63b::events::CollectionRegistrationEvent",
        ) {
            match decode_collection_registration(data) {
                Some(e) => Ok(Some(MarketplaceEvent::CollectionRegistrationEvent(e))),
                None => Err(DecodeError { version: txn_version, context: data_type.to_owned() }),
            }
        } else {
            Ok(None)
        }
    }
}

/// Arguments of a `list_item` call, reconstructed from the merged
/// argument list.
#[derive(Debug)]
pub struct ListItemPayload {
    pub creator: String,
    pub collection_name: String,
    pub token_name: String,
    pub property_version: i64,
    pub price: i64,
}

pub struct SpecListItemPayload {
    pub creator: Seq<char>,
    pub collection_name: Seq<char>,
    pub token_name: Seq<char>,
    pub property_version: int,
    pub price: int,
}

impl DeepView for ListItemPayload {
    type V = SpecListItemPayload;

    open spec fn deep_view(&self) -> SpecListItemPayload {
        SpecListItemPayload {
            creator: self.creator@,
            collection_name: self.collection_name@,
            token_name: self.token_name@,
            property_version: self.property_version as int,
            price: self.price as int,
        }
    }
}

/// Arguments of a `place_blind_order` call.
#[derive(Debug)]
pub struct PlaceOrderPayload {
    pub creator: String,
    pub collection_name: String,
    pub price: i64,
    pub quantity: i64,
}

pub struct SpecPlaceOrderPayload {
    pub creator: Seq<char>,
    pub collection_name: Seq<char>,
    pub price: int,
    pub quantity: int,
}

impl DeepView for PlaceOrderPayload {
    type V = SpecPlaceOrderPayload;

    open spec fn deep_view(&self) -> SpecPlaceOrderPayload {
        SpecPlaceOrderPayload {
            creator: self.creator@,
            collection_name: self.collection_name@,
            price: self.price as int,
            quantity: self.quantity as int,
        }
    }
}

/// Arguments of a `place_bidding` call.
#[derive(Debug)]
pub struct PlaceBidPayload {
    pub creator: String,
    pub collection_name: String,
    pub token_name: String,
    pub property_version: i64,
    pub price: i64,
}

pub struct SpecPlaceBidPayload {
    pub creator: Seq<char>,
    pub collection_name: Seq<char>,
    pub token_name: Seq<char>,
    pub property_version: int,
    pub price: int,
}

impl DeepView for PlaceBidPayload {
    type V = SpecPlaceBidPayload;

    open spec fn deep_view(&self) -> SpecPlaceBidPayload {
        SpecPlaceBidPayload {
            creator: self.creator@,
            collection_name: self.collection_name@,
            token_name: self.token_name@,
            property_version: self.property_version as int,
            price: self.price as int,
        }
    }
}

/// A reconstructed entry-function call of the marketplace.
#[derive(Debug)]
pub enum MarketplacePayload {
    ListItemPayload(ListItemPayload),
    PlaceOrderPayload(PlaceOrderPayload),
    PlaceBidPayload(PlaceBidPayload),
}

pub enum SpecMarketplacePayload {
    ListItemPayload(SpecListItemPayload),
    PlaceOrderPayload(SpecPlaceOrderPayload),
    PlaceBidPayload(SpecPlaceBidPayload),
}

impl DeepView for MarketplacePayload {
    type V = SpecMarketplacePayload;

    open spec fn deep_view(&self) -> SpecMarketplacePayload {
        match self {
            MarketplacePayload::ListItemPayload(p) => {
                SpecMarketplacePayload::ListItemPayload(p.deep_view())
            },
            MarketplacePayload::PlaceOrderPayload(p) => {
                SpecMarketplacePayload::PlaceOrderPayload(p.deep_view())
            },
            MarketplacePayload::PlaceBidPayload(p) => {
                SpecMarketplacePayload::PlaceBidPayload(p.deep_view())
            },
        }
    }
}

pub open spec fn spec_decode_list_item(v: SpecJson) -> Option<SpecListItemPayload> {
    match (
        spec_get_str(v, "creator"@),
        spec_get_str(v, "collection_name"@),
        spec_get_str(v, "token_name"@),
        spec_get_int(v, "property_version"@),
        spec_get_int(v, "price"@),
    ) {
        (Some(creator), Some(collection_name), Some(token_name), Some(pv), Some(price)) => Some(
            SpecListItemPayload {
                creator,
                collection_name,
                token_name,
                property_version: pv,
                price,
            },
        ),
        _ => None,
    }
}

pub open spec fn spec_decode_place_order(v: SpecJson) -> Option<SpecPlaceOrderPayload> {
    match (
        spec_get_str(v, "creator"@),
        spec_get_str(v, "collection_name"@),
        spec_get_int(v, "price"@),
        spec_get_int(v, "quantity"@),
    ) {
        (Some(creator), Some(collection_name), Some(price), Some(quantity)) => Some(
            SpecPlaceOrderPayload { creator, collection_name, price, quantity },
        ),
        _ => None,
    }
}

pub open spec fn spec_decode_place_bid(v: SpecJson) -> Option<SpecPlaceBidPayload> {
    match (
        spec_get_str(v, "creator"@),
        spec_get_str(v, "collection_name"@),
        spec_get_str(v, "token_name"@),
        spec_get_int(v, "property_version"@),
        spec_get_int(v, "price"@),
    ) {
        (Some(creator), Some(collection_name), Some(token_name), Some(pv), Some(price)) => Some(
            SpecPlaceBidPayload { creator, collection_name, token_name, property_version: pv, price },
        ),
        _ => None,
    }
}

fn decode_list_item(v: &JsonValue) -> (r: Option<ListItemPayload>)
    ensures
        match r {
            Some(p) => spec_decode_list_item(v.deep_view()) == Some(p.deep_view()),
            None => spec_decode_list_item(v.deep_view()) is None,
        },
{
    let creator = get_str_field(v, "creator");
    let collection_name = get_str_field(v, "collection_name");
    let token_name = get_str_field(v, "token_name");
    let pv = get_int_field(v, "property_version");
    let price = get_int_field(v, "price");
    match (creator, collection_name, token_name, pv, price) {
        (Some(creator), Some(collection_name), Some(token_name), Some(pv), Some(price)) => Some(
            ListItemPayload {
                creator: creator.clone(),
                collection_name: collection_name.clone(),
                token_name: token_name.clone(),
                property_version: pv,
                price,
            },
        ),
        _ => None,
    }
}

fn decode_place_order(v: &JsonValue) -> (r: Option<PlaceOrderPayload>)
    ensures
        match r {
            Some(p) => spec_decode_place_order(v.deep_view()) == Some(p.deep_view()),
            None => spec_decode_place_order(v.deep_view()) is None,
        },
{
    let creator = get_str_field(v, "creator");
    let collection_name = get_str_field(v, "collection_name");
    let price = get_int_field(v, "price");
    let quantity = get_int_field(v, "quantity");
    match (creator, collection_name, price, quantity) {
        (Some(creator), Some(collection_name), Some(price), Some(quantity)) => Some(
            PlaceOrderPayload {
                creator: creator.clone(),
                collection_name: collection_name.clone(),
                price,
                quantity,
            },
        ),
        _ => None,
    }
}

fn decode_place_bid(v: &JsonValue) -> (r: Option<PlaceBidPayload>)
    ensures
        match r {
            Some(p) => spec_decode_place_bid(v.deep_view()) == Some(p.deep_view()),
            None => spec_decode_place_bid(v.deep_view()) is None,
        },
{
    let creator = get_str_field(v, "creator");
    let collection_name = get_str_field(v, "collection_name");
    let token_name = get_str_field(v, "token_name");
    let pv = get_int_field(v, "property_version");
    let price = get_int_field(v, "price");
    match (creator, collection_name, token_name, pv, price) {
        (Some(creator), Some(collection_name), Some(token_name), Some(pv), Some(price)) => Some(
            PlaceBidPayload {
                creator: creator.clone(),
                collection_name: collection_name.clone(),
                token_name: token_name.clone(),
                property_version: pv,
                price,
            },
        ),
        _ => None,
    }
}

/// The registry of entry-function names the payload reconstruction knows.
pub open spec fn spec_known_function(f: Seq<char>) -> bool {
    f == list_item_function() || f == place_order_function() || f == place_bid_function()
}

/// Whether a function name is in the payload registry.
pub fn known_function(f: &str) -> (r: bool)
    ensures
        r == spec_known_function(f@),
{
    str_eq(
        f,
        "0x4bed2725cbd33afc34c556a86910456e28537ffb84df6537401c966dbaccf63b::core::list_item",
    ) || str_eq(
        f,
        "0x4bed2725cbd33afc34c556a86910456e28537ffb84df6537401c966dbaccf63b::core::place_blind_order",
    ) || str_eq(
        f,
        "0x4bed2725cbd33afc34c556a86910456e28537ffb84df6537401c966dbaccf63b::core::place_bidding",
    )
}

/// Dispatch of a call payload by its fully-qualified function name, after
/// merging the argument list into one value.
pub open spec fn spec_from_function_name(f: Seq<char>, args: Seq<SpecJson>) -> Result<
    Option<SpecMarketplacePayload>,
    (),
> {
    if f == list_item_function() {
        match spec_decode_list_item(spec_merged_list(args)) {
            Some(p) => Ok(Some(SpecMarketplacePayload::ListItemPayload(p))),
            None => Err(()),
        }
    } else if f == place_order_function() {
        match spec_decode_place_order(spec_merged_list(args)) {
            Some(p) => Ok(Some(SpecMarketplacePayload::PlaceOrderPayload(p))),
            None => Err(()),
        }
    } else if f == place_bid_function() {
        match spec_decode_place_bid(spec_merged_list(args)) {
            Some(p) => Ok(Some(SpecMarketplacePayload::PlaceBidPayload(p))),
            None => Err(()),
        }
    } else {
        Ok(None)
    }
}

impl MarketplacePayload {
    /// Reconstructs a call's named-field payload from its ordered argument
    /// list: the arguments are merged into one value, then decoded against
    /// the registry of known function names. An unrecognized function is
    /// no record; a recognized function whose merged arguments do not
    /// decode is an error tagged with `txn_version`.
    pub fn from_function_name(function_name: &str, data: Vec<JsonValue>, txn_version: i64) -> (r:
        Result<Option<MarketplacePayload>, DecodeError>)
        requires
            spec_known_function(function_name@) ==> data@.len() > 0,
        ensures
            match r {
                Ok(o) => spec_from_function_name(function_name@, deep_vals(data@)) == Ok::<
                    _,
                    (),
                >(o.deep_view()),
                Err(e) => spec_from_function_name(function_name@, deep_vals(data@)) is Err
                    && e.version == txn_version && e.context@ == function_name@,
            },
{
        if str_eq(
            function_name,
            "0x4bed2725cbd33afc34c556a86910456e28537ffb84df6537401c966dbaccf63b::core::list_item",
        ) {
            let merged = merge_values_vector(data);
            match decode_list_item(&merged) {
                Some(p) => Ok(Some(MarketplacePayload::ListItemPayload(p))),
                None => Err(
                    DecodeError { version: txn_version, context: function_name.to_owned() },
                ),
            }
        } else if str_eq(
            function_name,
            "0x4bed2725cbd33afc34c556a86910456e28537ffb84df6537401c966dbaccf63b::core::place_blind_order",
        ) {
            let merged = merge_values_vector(data);
            match decode_place_order(&merged) {
                Some(p) => Ok(Some(MarketplacePayload::PlaceOrderPayload(p))),
                None => Err(
                    DecodeError { version: txn_version, context: function_name.to_owned() },
                ),
            }
        } else if str_eq(
            function_name,
            "0x4bed2725cbd33afc34c556a86910456e28537ffb84df6537401c966dbaccf63b::core::place_bidding",
        ) {
            let merged = merge_values_vector(data);
            match decode_place_bid(&merged) {
                Some(p) => Ok(Some(MarketplacePayload::PlaceBidPayload(p))),
                None => Err(
                    DecodeError { version: txn_version, context: function_name.to_owned() },
                ),
            }
        } else {
            Ok(None)
        }
    }
}

} // verus!
