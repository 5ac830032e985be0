use ledger_indexer::json::JsonValue;
use ledger_indexer::processors::marketplace_processor::MarketplaceProcessor;
use ledger_indexer::processors::Processor;
use ledger_indexer::transactions::{
    transactions_well_formed, EntryFunctionPayload, Event, TableItemData, Transaction,
    TransactionPayload, UserTransaction, WriteSetChange, WriteTableItem,
};

const OFFER_TAG: &str =
    "0x4bed2725cbd33afc34c556a86910456e28537ffb84df6537401c966dbaccf63b::collection::Offer";
const LIST_ITEM_FN: &str =
    "0x4bed2725cbd33afc34c556a86910456e28537ffb84df6537401c966dbaccf63b::core::list_item";

fn obj(entries: Vec<(&str, JsonValue)>) -> JsonValue {
    JsonValue::Obj(entries.into_iter().map(|(k, v)| (k.to_string(), v)).collect())
}

fn s(text: &str) -> JsonValue {
    JsonValue::Str(text.to_string())
}

fn table_item(key_type: &str, key: JsonValue, value: JsonValue) -> WriteSetChange {
    WriteSetChange::WriteTableItem(WriteTableItem {
        data: Some(TableItemData {
            key_type: key_type.to_string(),
            key,
            value_type: String::new(),
            value,
        }),
    })
}

fn list_item_payload() -> TransactionPayload {
    TransactionPayload::EntryFunctionPayload(EntryFunctionPayload {
        function: LIST_ITEM_FN.to_string(),
        arguments: vec![
            obj(vec![("creator", s("0xAA")), ("collection_name", s("C1"))]),
            obj(vec![
                ("token_name", s("T1")),
                ("property_version", JsonValue::Int(0)),
                ("price", JsonValue::Int(500)),
            ]),
        ],
    })
}

fn offer_listing_txn(version: u64) -> Transaction {
    Transaction::User(UserTransaction {
        version,
        timestamp_micros: 1_700_000_000_000_000,
        payload: list_item_payload(),
        events: vec![],
        changes: vec![table_item(
            OFFER_TAG,
            s("0xkey"),
            obj(vec![("price", JsonValue::Int(500)), ("seller", s("0xBB"))]),
        )],
    })
}

#[test]
fn listing_with_offer_write_yields_one_offer_record() {
    let txns = vec![offer_listing_txn(100)];
    assert!(transactions_well_formed(&txns));
    let processor = MarketplaceProcessor::new();
    let (batch, result) = processor.process_transactions(txns, 100, 100).unwrap();
    assert_eq!(batch.offers.len(), 1);
    assert_eq!(batch.orders.len(), 0);
    assert_eq!(batch.bids.len(), 0);
    assert_eq!(batch.collections.len(), 0);
    let offer = &batch.offers[0];
    assert_eq!(offer.creator_address, "0xAA");
    assert_eq!(offer.collection_name, "C1");
    assert_eq!(offer.token_name, "T1");
    assert_eq!(offer.property_version, 0);
    assert_eq!(offer.price, 500);
    assert_eq!(offer.seller, "0xBB");
    assert_eq!(offer.timestamp, 1_700_000_000_000_000);
    assert_eq!(result.processor_name, "marketplace_processor");
    assert_eq!(result.start_version, 100);
    assert_eq!(result.end_version, 100);
    assert_eq!(result.record_count, 1);
}

#[test]
fn missing_payload_half_yields_no_record() {
    let txn = Transaction::User(UserTransaction {
        version: 5,
        timestamp_micros: 0,
        payload: TransactionPayload::Other,
        events: vec![],
        changes: vec![table_item(
            OFFER_TAG,
            s("0xkey"),
            obj(vec![("price", JsonValue::Int(500)), ("seller", s("0xBB"))]),
        )],
    });
    let processor = MarketplaceProcessor::new();
    let (batch, result) = processor.process_transactions(vec![txn], 5, 5).unwrap();
    assert_eq!(batch.offers.len(), 0);
    assert_eq!(result.record_count, 0);
}

#[test]
fn missing_write_half_yields_no_record() {
    let txn = Transaction::User(UserTransaction {
        version: 6,
        timestamp_micros: 0,
        payload: list_item_payload(),
        events: vec![],
        changes: vec![],
    });
    let processor = MarketplaceProcessor::new();
    let (batch, _) = processor.process_transactions(vec![txn], 6, 6).unwrap();
    assert_eq!(batch.offers.len(), 0);
}

#[test]
fn later_matching_write_wins() {
    let txn = Transaction::User(UserTransaction {
        version: 7,
        timestamp_micros: 0,
        payload: list_item_payload(),
        events: vec![],
        changes: vec![
            table_item(
                OFFER_TAG,
                s("0xkey"),
                obj(vec![("price", JsonValue::Int(111)), ("seller", s("0xB1"))]),
            ),
            table_item(
                OFFER_TAG,
                s("0xkey"),
                obj(vec![("price", JsonValue::Int(222)), ("seller", s("0xB2"))]),
            ),
        ],
    });
    let processor = MarketplaceProcessor::new();
    let (batch, _) = processor.process_transactions(vec![txn], 7, 7).unwrap();
    assert_eq!(batch.offers.len(), 1);
    assert_eq!(batch.offers[0].price, 222);
    assert_eq!(batch.offers[0].seller, "0xB2");
}

#[test]
fn decode_error_carries_version_and_batch_bounds() {
    let bad = Transaction::User(UserTransaction {
        version: 42,
        timestamp_micros: 0,
        payload: list_item_payload(),
        events: vec![],
        changes: vec![table_item(
            OFFER_TAG,
            s("0xkey"),
            obj(vec![("price", s("not a number")), ("seller", s("0xBB"))]),
        )],
    });
    let txns = vec![offer_listing_txn(41), bad];
    let processor = MarketplaceProcessor::new();
    let e = processor.process_transactions(txns, 41, 42).err().expect("expected an error");
    assert_eq!(e.error.version, 42);
    assert_eq!(e.start_version, 41);
    assert_eq!(e.end_version, 42);
    assert_eq!(e.processor_name, "marketplace_processor");
}

#[test]
fn non_user_transactions_are_skipped() {
    let processor = MarketplaceProcessor::new();
    let (batch, result) = processor
        .process_transactions(vec![Transaction::Other, Transaction::Other], 0, 1)
        .unwrap();
    assert_eq!(batch.collections.len(), 0);
    assert_eq!(result.record_count, 0);
}

#[test]
fn processor_name_is_registered() {
    let processor = MarketplaceProcessor::new();
    assert_eq!(processor.name(), "marketplace_processor");
}

#[test]
fn processor_registry_selects_by_name() {
    assert!(matches!(
        Processor::from_string(&"marketplace_processor".to_string()),
        Processor::MarketplaceProcessor
    ));
    assert!(matches!(
        Processor::from_string(&"default_processor".to_string()),
        Processor::DefaultProcessor
    ));
    assert!(matches!(
        Processor::from_string(&"token_processor".to_string()),
        Processor::TokenProcessor
    ));
    assert!(matches!(
        Processor::from_string(&"coin_processor".to_string()),
        Processor::CoinProcessor
    ));
    assert!(matches!(
        Processor::from_string(&"stake_processor".to_string()),
        Processor::StakeProcessor
    ));
    assert!(Processor::try_from_string(&"unknown".to_string()).is_none());
}

#[test]
fn ill_formed_batches_are_rejected_by_the_check() {
    let missing_data = Transaction::User(UserTransaction {
        version: 1,
        timestamp_micros: 0,
        payload: TransactionPayload::Other,
        events: vec![],
        changes: vec![WriteSetChange::WriteTableItem(WriteTableItem { data: None })],
    });
    assert!(!transactions_well_formed(&vec![missing_data]));
    let oversized_version = Transaction::User(UserTransaction {
        version: u64::MAX,
        timestamp_micros: 0,
        payload: TransactionPayload::Other,
        events: vec![],
        changes: vec![],
    });
    assert!(!transactions_well_formed(&vec![oversized_version]));
    let known_fn_empty_args = Transaction::User(UserTransaction {
        version: 1,
        timestamp_micros: 0,
        payload: TransactionPayload::EntryFunctionPayload(EntryFunctionPayload {
            function: LIST_ITEM_FN.to_string(),
            arguments: vec![],
        }),
        events: vec![],
        changes: vec![],
    });
    assert!(!transactions_well_formed(&vec![known_fn_empty_args]));
    assert!(transactions_well_formed(&vec![offer_listing_txn(3)]));
}
