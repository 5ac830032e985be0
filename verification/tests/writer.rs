use ledger_indexer::database::{
    clean_data_for_db, get_chunks, BatchWriter, WritePhase, BID_COLUMN_COUNT,
    COLLECTION_COLUMN_COUNT, MAX_STRING_LENGTH, OFFER_COLUMN_COUNT, ORDER_COLUMN_COUNT,
    truncate_string,
};
use ledger_indexer::marketplace::offers::MarketplaceOffer;
use ledger_indexer::processors::marketplace_processor::MarketplaceBatch;

fn empty_batch() -> MarketplaceBatch {
    MarketplaceBatch { collections: vec![], offers: vec![], orders: vec![], bids: vec![] }
}

fn offer(seller: &str) -> MarketplaceOffer {
    MarketplaceOffer {
        creator_address: "0xAA".to_string(),
        collection_name: "C1".to_string(),
        token_name: "T1".to_string(),
        property_version: 0,
        price: 500,
        seller: seller.to_string(),
        timestamp: 123,
    }
}

#[test]
fn column_counts_match_the_row_shapes() {
    assert_eq!(COLLECTION_COLUMN_COUNT, 4);
    assert_eq!(OFFER_COLUMN_COUNT, 7);
    assert_eq!(ORDER_COLUMN_COUNT, 6);
    assert_eq!(BID_COLUMN_COUNT, 7);
}

#[test]
fn chunks_cover_every_row_exactly_once() {
    // With seven columns, 65535 / 7 = 9362 rows fit under the ceiling.
    let chunks = get_chunks(20000, 7);
    assert_eq!(chunks, vec![(0, 9362), (9362, 18724), (18724, 20000)]);
    let chunks = get_chunks(9362, 7);
    assert_eq!(chunks, vec![(0, 9362)]);
    let chunks = get_chunks(9363, 7);
    assert_eq!(chunks, vec![(0, 9362), (9362, 9363)]);
    let chunks = get_chunks(1, 7);
    assert_eq!(chunks, vec![(0, 1)]);
    let chunks = get_chunks(0, 7);
    assert_eq!(chunks.len(), 0);
}

#[test]
fn chunk_count_is_ceiling_of_rows_over_chunk_size() {
    // With four columns, 65535 / 4 = 16383 rows per chunk.
    assert_eq!(get_chunks(16383, 4).len(), 1);
    assert_eq!(get_chunks(16384, 4).len(), 2);
    assert_eq!(get_chunks(32766, 4).len(), 2);
    assert_eq!(get_chunks(32767, 4).len(), 3);
}

#[test]
fn one_column_uses_the_whole_ceiling() {
    let chunks = get_chunks(65536, 1);
    assert_eq!(chunks, vec![(0, 65535), (65535, 65536)]);
}

#[test]
fn truncation_caps_strings_and_keeps_short_ones() {
    let long = "x".repeat(MAX_STRING_LENGTH + 476);
    let cut = truncate_string(&long);
    assert_eq!(cut.len(), MAX_STRING_LENGTH);
    assert_eq!(cut, "x".repeat(MAX_STRING_LENGTH));
    let short = "short".to_string();
    assert_eq!(truncate_string(&short), "short");
}

#[test]
fn sanitization_truncates_only_the_offending_field() {
    let long_seller = "s".repeat(MAX_STRING_LENGTH + 100);
    let mut batch = empty_batch();
    batch.offers.push(offer(&long_seller));
    batch.offers.push(offer("0xBB"));
    let cleaned = clean_data_for_db(batch);
    assert_eq!(cleaned.offers.len(), 2);
    let bad = &cleaned.offers[0];
    assert_eq!(bad.seller, "s".repeat(MAX_STRING_LENGTH));
    assert_eq!(bad.creator_address, "0xAA");
    assert_eq!(bad.collection_name, "C1");
    assert_eq!(bad.token_name, "T1");
    assert_eq!(bad.property_version, 0);
    assert_eq!(bad.price, 500);
    assert_eq!(bad.timestamp, 123);
    let good = &cleaned.offers[1];
    assert_eq!(good.seller, "0xBB");
}

#[test]
fn first_attempt_success_commits_unchanged() {
    let mut batch = empty_batch();
    batch.offers.push(offer("0xBB"));
    let mut writer = BatchWriter::new(batch);
    assert_eq!(writer.phase, WritePhase::FirstAttempt);
    writer.on_attempt_result(true);
    assert_eq!(writer.phase, WritePhase::Done);
    assert_eq!(writer.batch.offers[0].seller, "0xBB");
}

#[test]
fn failed_first_attempt_sanitizes_then_succeeds() {
    let long_seller = "s".repeat(MAX_STRING_LENGTH + 1);
    let mut batch = empty_batch();
    batch.offers.push(offer(&long_seller));
    let mut writer = BatchWriter::new(batch);
    writer.on_attempt_result(false);
    assert_eq!(writer.phase, WritePhase::SanitizedRetry);
    assert_eq!(writer.batch.offers[0].seller, "s".repeat(MAX_STRING_LENGTH));
    assert_eq!(writer.batch.offers[0].creator_address, "0xAA");
    writer.on_attempt_result(true);
    assert_eq!(writer.phase, WritePhase::Done);
}

#[test]
fn failure_after_sanitized_retry_is_fatal() {
    let mut writer = BatchWriter::new(empty_batch());
    writer.on_attempt_result(false);
    assert_eq!(writer.phase, WritePhase::SanitizedRetry);
    writer.on_attempt_result(false);
    assert_eq!(writer.phase, WritePhase::Failed);
}
