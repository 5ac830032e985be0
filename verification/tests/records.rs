use ledger_indexer::database::{get_chunks, truncate_string, MAX_STRING_LENGTH};
use ledger_indexer::json::JsonValue;
use ledger_indexer::marketplace::bids::MarketplaceBid;
use ledger_indexer::marketplace::offers::MarketplaceOffer;
use ledger_indexer::marketplace::orders::MarketplaceOrder;
use ledger_indexer::transactions::{EntryFunctionPayload, TableItemData, WriteTableItem};

const ORDER_TAG: &str =
    "0x4bed2725cbd33afc34c556a86910456e28537ffb84df6537401c966dbaccf63b::collection::Order";
const BID_TAG: &str =
    "0x4bed2725cbd33afc34c556a86910456e28537ffb84df6537401c966dbaccf63b::collection::Bid";
const PLACE_ORDER_FN: &str =
    "0x4bed2725cbd33afc34c556a86910456e28537ffb84df6537401c966dbaccf63b::core::place_blind_order";
const PLACE_BID_FN: &str =
    "0x4bed2725cbd33afc34c556a86910456e28537ffb84df6537401c966dbaccf63b::core::place_bidding";

fn obj(entries: Vec<(&str, JsonValue)>) -> JsonValue {
    JsonValue::Obj(entries.into_iter().map(|(k, v)| (k.to_string(), v)).collect())
}

fn s(text: &str) -> JsonValue {
    JsonValue::Str(text.to_string())
}

fn item(key_type: &str, key: JsonValue, value: JsonValue) -> WriteTableItem {
    WriteTableItem {
        data: Some(TableItemData {
            key_type: key_type.to_string(),
            key,
            value_type: String::new(),
            value,
        }),
    }
}

fn place_order_payload() -> EntryFunctionPayload {
    EntryFunctionPayload {
        function: PLACE_ORDER_FN.to_string(),
        arguments: vec![obj(vec![
            ("creator", s("0xAA")),
            ("collection_name", s("C1")),
            ("price", JsonValue::Int(70)),
            ("quantity", JsonValue::Int(2)),
        ])],
    }
}

#[test]
fn order_joins_write_payload_and_table_key() {
    let ti = item(
        ORDER_TAG,
        s("0xMAKER"),
        obj(vec![("price", JsonValue::Int(70)), ("quantity", JsonValue::Int(2))]),
    );
    let r = MarketplaceOrder::from_table_item(&ti, &place_order_payload(), 11, 1234).unwrap();
    let o = r.expect("expected an order row");
    assert_eq!(o.creator_address, "0xAA");
    assert_eq!(o.collection_name, "C1");
    assert_eq!(o.price, 70);
    assert_eq!(o.quantity, 2);
    assert_eq!(o.maker, "0xMAKER");
    assert_eq!(o.timestamp, 1234);
}

#[test]
fn order_with_non_string_table_key_errors_with_version() {
    let ti = item(
        ORDER_TAG,
        JsonValue::Int(5),
        obj(vec![("price", JsonValue::Int(70)), ("quantity", JsonValue::Int(2))]),
    );
    let r = MarketplaceOrder::from_table_item(&ti, &place_order_payload(), 12, 0);
    let e = r.err().expect("expected decode error");
    assert_eq!(e.version, 12);
    assert_eq!(e.context, ORDER_TAG);
}

#[test]
fn bid_joins_write_and_payload() {
    let ti = item(
        BID_TAG,
        s("0xkey"),
        obj(vec![("price", JsonValue::Int(40)), ("maker", s("0xDD"))]),
    );
    let payload = EntryFunctionPayload {
        function: PLACE_BID_FN.to_string(),
        arguments: vec![obj(vec![
            ("creator", s("0xAA")),
            ("collection_name", s("C1")),
            ("token_name", s("T9")),
            ("property_version", JsonValue::Int(2)),
            ("price", JsonValue::Int(40)),
        ])],
    };
    let r = MarketplaceBid::from_table_item(&ti, &payload, 13, 77).unwrap();
    let b = r.expect("expected a bid row");
    assert_eq!(b.creator_address, "0xAA");
    assert_eq!(b.token_name, "T9");
    assert_eq!(b.property_version, 2);
    assert_eq!(b.price, 40);
    assert_eq!(b.maker, "0xDD");
    assert_eq!(b.timestamp, 77);
}

#[test]
fn mismatched_write_and_payload_kinds_yield_no_record() {
    // An order-typed write with an order payload never yields an offer.
    let ti = item(
        ORDER_TAG,
        s("0xMAKER"),
        obj(vec![("price", JsonValue::Int(70)), ("quantity", JsonValue::Int(2))]),
    );
    let r = MarketplaceOffer::from_table_item(&ti, &place_order_payload(), 14, 0).unwrap();
    assert!(r.is_none());
}

#[test]
fn widest_rows_chunk_one_at_a_time() {
    // A row as wide as the whole parameter ceiling goes alone.
    assert_eq!(get_chunks(3, 65535), vec![(0, 1), (1, 2), (2, 3)]);
}

#[test]
fn truncation_boundary_is_exact() {
    let exactly = "y".repeat(MAX_STRING_LENGTH);
    assert_eq!(truncate_string(&exactly), exactly);
    let one_over = "y".repeat(MAX_STRING_LENGTH + 1);
    assert_eq!(truncate_string(&one_over).chars().count(), MAX_STRING_LENGTH);
}

#[test]
fn merging_empty_objects_keeps_the_accumulator() {
    let merged = ledger_indexer::json::merge_values_vector(vec![
        obj(vec![("a", JsonValue::Int(1))]),
        obj(vec![]),
    ]);
    match merged.obj_get("a") {
        Some(JsonValue::Int(1)) => {}
        other => panic!("expected a:1, got {:?}", other),
    }
}
