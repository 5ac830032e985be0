use std::collections::HashMap;

use ledger_indexer::json::JsonValue;
use ledger_indexer::processors::marketplace_processor::{MarketplaceBatch, MarketplaceProcessor};
use ledger_indexer::progress::ProgressTracker;
use ledger_indexer::transactions::{
    EntryFunctionPayload, TableItemData, Transaction, TransactionPayload, UserTransaction,
    WriteSetChange, WriteTableItem,
};

#[test]
fn watermark_starts_at_the_resume_point() {
    let tracker = ProgressTracker::new(40);
    assert_eq!(tracker.watermark(), 40);
}

#[test]
fn contiguous_completion_advances_the_watermark() {
    let mut tracker = ProgressTracker::new(0);
    tracker.complete(0, 10);
    assert_eq!(tracker.watermark(), 10);
    tracker.complete(10, 25);
    assert_eq!(tracker.watermark(), 25);
}

#[test]
fn watermark_never_advances_past_a_gap() {
    let mut tracker = ProgressTracker::new(0);
    tracker.complete(10, 20);
    // Versions zero through nine are still missing.
    assert_eq!(tracker.watermark(), 0);
    tracker.complete(30, 40);
    assert_eq!(tracker.watermark(), 0);
    tracker.complete(0, 10);
    // The first gap closed; the next opens at twenty.
    assert_eq!(tracker.watermark(), 20);
    tracker.complete(20, 30);
    assert_eq!(tracker.watermark(), 40);
}

#[test]
fn out_of_order_workers_converge_to_the_full_range() {
    let mut tracker = ProgressTracker::new(100);
    tracker.complete(120, 130);
    tracker.complete(100, 110);
    assert_eq!(tracker.watermark(), 110);
    tracker.complete(110, 120);
    assert_eq!(tracker.watermark(), 130);
}

#[test]
fn overlapping_completions_are_harmless() {
    let mut tracker = ProgressTracker::new(0);
    tracker.complete(0, 10);
    tracker.complete(5, 15);
    assert_eq!(tracker.watermark(), 15);
    tracker.complete(3, 7);
    assert_eq!(tracker.watermark(), 15);
}

const OFFER_TAG: &str =
    "0x4bed2725cbd33afc34c556a86910456e28537ffb84df6537401c966dbaccf63b::collection::Offer";
const LIST_ITEM_FN: &str =
    "0x4bed2725cbd33afc34c556a86910456e28537ffb84df6537401c966dbaccf63b::core::list_item";

fn obj(entries: Vec<(&str, JsonValue)>) -> JsonValue {
    JsonValue::Obj(entries.into_iter().map(|(k, v)| (k.to_string(), v)).collect())
}

fn s(text: &str) -> JsonValue {
    JsonValue::Str(text.to_string())
}

fn listing_txn(version: u64, collection: &str, price: i64) -> Transaction {
    Transaction::User(UserTransaction {
        version,
        timestamp_micros: version as i64 * 1_000_000,
        payload: TransactionPayload::EntryFunctionPayload(EntryFunctionPayload {
            function: LIST_ITEM_FN.to_string(),
            arguments: vec![
                obj(vec![("creator", s("0xAA")), ("collection_name", s(collection))]),
                obj(vec![
                    ("token_name", s("T1")),
                    ("property_version", JsonValue::Int(0)),
                    ("price", JsonValue::Int(price)),
                ]),
            ],
        }),
        events: vec![],
        changes: vec![WriteSetChange::WriteTableItem(WriteTableItem {
            data: Some(TableItemData {
                key_type: OFFER_TAG.to_string(),
                key: s("0xkey"),
                value_type: String::new(),
                value: obj(vec![("price", JsonValue::Int(price)), ("seller", s("0xBB"))]),
            }),
        })],
    })
}

type OfferStore = HashMap<(String, String), (i64, String, i64)>;

fn upsert_offers(store: &mut OfferStore, batch: &MarketplaceBatch) {
    for o in &batch.offers {
        store.insert(
            (o.creator_address.clone(), o.collection_name.clone()),
            (o.price, o.seller.clone(), o.timestamp),
        );
    }
}

#[test]
fn restart_with_lookback_reaches_the_same_store() {
    // The uninterrupted run processes versions ten through nineteen.
    let full: Vec<Transaction> =
        (10..20).map(|v| listing_txn(v, &format!("C{}", v % 3), v as i64 * 10)).collect();
    let processor = MarketplaceProcessor::new();
    let mut uninterrupted: OfferStore = HashMap::new();
    let (batch, _) = processor.process_transactions(full, 10, 19).unwrap();
    upsert_offers(&mut uninterrupted, &batch);

    // The interrupted run persisted everything, crashed with the cursor
    // at fifteen, and resumes from the cursor less a lookback of three.
    let mut restarted: OfferStore = HashMap::new();
    let first_pass: Vec<Transaction> =
        (10..20).map(|v| listing_txn(v, &format!("C{}", v % 3), v as i64 * 10)).collect();
    let (batch, _) = processor.process_transactions(first_pass, 10, 19).unwrap();
    upsert_offers(&mut restarted, &batch);
    let reprocessed: Vec<Transaction> =
        (12..20).map(|v| listing_txn(v, &format!("C{}", v % 3), v as i64 * 10)).collect();
    let (batch, _) = processor.process_transactions(reprocessed, 12, 19).unwrap();
    upsert_offers(&mut restarted, &batch);

    assert_eq!(uninterrupted, restarted);
}
