use ledger_indexer::json::JsonValue;
use ledger_indexer::marketplace::collections::MarketplaceCollection;
use ledger_indexer::marketplace::utils::{
    MarketplaceEvent, MarketplacePayload, MarketplaceWriteSet,
};
use ledger_indexer::transactions::Event;

const OFFER_TAG: &str =
    "0x4bed2725cbd33afc34c556a86910456e28537ffb84df6537401c966dbaccf63b::collection::Offer";
const ORDER_TAG: &str =
    "0x4bed2725cbd33afc34c556a86910456e28537ffb84df6537401c966dbaccf63b::collection::Order";
const BID_TAG: &str =
    "0x4bed2725cbd33afc34c556a86910456e28537ffb84df6537401c966dbaccf63b::collection::Bid";
const REGISTRATION_TAG: &str =
    "0x4bed2725cbd33afc34c556a86910456e28537ffb84df6537401c966dbaccf63b::events::CollectionRegistrationEvent";
const LIST_ITEM_FN: &str =
    "0x4bed2725cbd33afc34c556a86910456e28537ffb84df6537401c966dbaccf63b::core::list_item";
const PLACE_ORDER_FN: &str =
    "0x4bed2725cbd33afc34c556a86910456e28537ffb84df6537401c966dbaccf63b::core::place_blind_order";
const PLACE_BID_FN: &str =
    "0x4bed2725cbd33afc34c556a86910456e28537ffb84df6537401c966dbaccf63b::core::place_bidding";

fn obj(entries: Vec<(&str, JsonValue)>) -> JsonValue {
    JsonValue::Obj(entries.into_iter().map(|(k, v)| (k.to_string(), v)).collect())
}

fn s(text: &str) -> JsonValue {
    JsonValue::Str(text.to_string())
}

#[test]
fn unrecognized_tag_is_no_record_not_an_error() {
    let data = obj(vec![("anything", JsonValue::Int(1))]);
    let r = MarketplaceWriteSet::from_table_item_type("0x1::other::Thing", &data, 42);
    assert!(matches!(r, Ok(None)));
}

#[test]
fn recognized_tag_with_malformed_value_errors_with_version() {
    let data = obj(vec![("price", s("not a number"))]);
    let r = MarketplaceWriteSet::from_table_item_type(OFFER_TAG, &data, 777);
    let e = r.err().expect("expected decode error");
    assert_eq!(e.version, 777);
    assert_eq!(e.context, OFFER_TAG);
}

#[test]
fn offer_tag_decodes_price_and_seller() {
    let data = obj(vec![("price", JsonValue::Int(500)), ("seller", s("0xBB"))]);
    let r = MarketplaceWriteSet::from_table_item_type(OFFER_TAG, &data, 1).unwrap();
    match r {
        Some(MarketplaceWriteSet::Offer(o)) => {
            assert_eq!(o.price, 500);
            assert_eq!(o.seller, "0xBB");
        }
        other => panic!("expected an offer, got {:?}", other),
    }
}

#[test]
fn order_tag_decodes_price_and_quantity() {
    let data = obj(vec![("price", JsonValue::Int(12)), ("quantity", JsonValue::Int(3))]);
    let r = MarketplaceWriteSet::from_table_item_type(ORDER_TAG, &data, 1).unwrap();
    match r {
        Some(MarketplaceWriteSet::Order(o)) => {
            assert_eq!(o.price, 12);
            assert_eq!(o.quantity, 3);
        }
        other => panic!("expected an order, got {:?}", other),
    }
}

#[test]
fn bid_tag_decodes_price_and_maker() {
    let data = obj(vec![("price", JsonValue::Int(9)), ("maker", s("0xCC"))]);
    let r = MarketplaceWriteSet::from_table_item_type(BID_TAG, &data, 1).unwrap();
    match r {
        Some(MarketplaceWriteSet::Bid(b)) => {
            assert_eq!(b.price, 9);
            assert_eq!(b.maker, "0xCC");
        }
        other => panic!("expected a bid, got {:?}", other),
    }
}

fn registration_data(timestamp: &str, counter: &str) -> JsonValue {
    obj(vec![
        ("creator", s("0xAA")),
        ("collection_address", s("0xC0")),
        ("collection_name", s("C1")),
        ("timestamp", s(timestamp)),
        ("event_counter", s(counter)),
    ])
}

#[test]
fn registration_event_decodes_with_parsed_timestamp() {
    let r = MarketplaceEvent::from_event(
        REGISTRATION_TAG,
        &registration_data("2022-07-08T09:10:11", "12.5"),
        5,
    )
    .unwrap();
    match r {
        Some(MarketplaceEvent::CollectionRegistrationEvent(e)) => {
            assert_eq!(e.creator, "0xAA");
            assert_eq!(e.collection_address, "0xC0");
            assert_eq!(e.collection_name, "C1");
            // 2022-07-08T09:10:11 UTC in microseconds since the epoch.
            assert_eq!(e.timestamp_micros, 1_657_271_411_000_000);
            assert_eq!(e.event_counter, "12.5");
        }
        other => panic!("expected a registration event, got {:?}", other),
    }
}

#[test]
fn registration_event_with_unparsable_timestamp_errors() {
    let r = MarketplaceEvent::from_event(REGISTRATION_TAG, &registration_data("yesterday", "1"), 6);
    let e = r.err().expect("expected decode error");
    assert_eq!(e.version, 6);
    assert_eq!(e.context, REGISTRATION_TAG);
}

#[test]
fn registration_event_with_non_decimal_counter_errors() {
    let r = MarketplaceEvent::from_event(
        REGISTRATION_TAG,
        &registration_data("2022-07-08T09:10:11", "abc"),
        7,
    );
    let e = r.err().expect("expected decode error");
    assert_eq!(e.version, 7);
}

#[test]
fn unrecognized_event_tag_is_no_record() {
    let r = MarketplaceEvent::from_event("0x1::events::Other", &registration_data("x", "y"), 8);
    assert!(matches!(r, Ok(None)));
}

#[test]
fn collection_row_is_built_from_registration_event() {
    let event = Event {
        typ: REGISTRATION_TAG.to_string(),
        data: registration_data("2022-07-08T09:10:11", "1"),
    };
    let r = MarketplaceCollection::from_event(REGISTRATION_TAG, &event, 9).unwrap();
    let c = r.expect("expected a collection row");
    assert_eq!(c.creator_address, "0xAA");
    assert_eq!(c.collection_address, "0xC0");
    assert_eq!(c.collection_name, "C1");
    assert_eq!(c.creation_timestamp, 1_657_271_411_000_000);
}

#[test]
fn list_item_payload_merges_argument_fragments() {
    let fragments = vec![
        obj(vec![("creator", s("0xAA")), ("collection_name", s("C1"))]),
        obj(vec![
            ("token_name", s("T1")),
            ("property_version", JsonValue::Int(0)),
            ("price", JsonValue::Int(500)),
        ]),
    ];
    let r = MarketplacePayload::from_function_name(LIST_ITEM_FN, fragments, 100).unwrap();
    match r {
        Some(MarketplacePayload::ListItemPayload(p)) => {
            assert_eq!(p.creator, "0xAA");
            assert_eq!(p.collection_name, "C1");
            assert_eq!(p.token_name, "T1");
            assert_eq!(p.property_version, 0);
            assert_eq!(p.price, 500);
        }
        other => panic!("expected a list-item payload, got {:?}", other),
    }
}

#[test]
fn place_order_payload_decodes() {
    let fragments = vec![obj(vec![
        ("creator", s("0xAA")),
        ("collection_name", s("C1")),
        ("price", JsonValue::Int(10)),
        ("quantity", JsonValue::Int(2)),
    ])];
    let r = MarketplacePayload::from_function_name(PLACE_ORDER_FN, fragments, 1).unwrap();
    assert!(matches!(r, Some(MarketplacePayload::PlaceOrderPayload(_))));
}

#[test]
fn place_bid_payload_decodes() {
    let fragments = vec![obj(vec![
        ("creator", s("0xAA")),
        ("collection_name", s("C1")),
        ("token_name", s("T1")),
        ("property_version", JsonValue::Int(1)),
        ("price", JsonValue::Int(11)),
    ])];
    let r = MarketplacePayload::from_function_name(PLACE_BID_FN, fragments, 1).unwrap();
    assert!(matches!(r, Some(MarketplacePayload::PlaceBidPayload(_))));
}

#[test]
fn unknown_function_name_is_no_payload() {
    let r = MarketplacePayload::from_function_name("0x1::core::other", vec![JsonValue::Null], 2);
    assert!(matches!(r, Ok(None)));
}

#[test]
fn known_function_with_incomplete_fields_errors_with_version() {
    let fragments = vec![obj(vec![("creator", s("0xAA"))])];
    let r = MarketplacePayload::from_function_name(LIST_ITEM_FN, fragments, 321);
    let e = r.err().expect("expected decode error");
    assert_eq!(e.version, 321);
    assert_eq!(e.context, LIST_ITEM_FN);
}
