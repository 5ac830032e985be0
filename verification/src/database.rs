//! Chunked, resilient persistence planning: slicing record lists so each
//! insert stays under the store's parameter ceiling, sanitizing records
//! whose field values the store refuses, and the try-once-then-sanitize
//! retry policy.

use vstd::prelude::*;

use crate::marketplace::bids::{MarketplaceBid, SpecMarketplaceBid};
use crate::marketplace::collections::{MarketplaceCollection, SpecMarketplaceCollection};
use crate::marketplace::offers::{MarketplaceOffer, SpecMarketplaceOffer};
use crate::marketplace::orders::{MarketplaceOrder, SpecMarketplaceOrder};
use crate::processors::marketplace_processor::{MarketplaceBatch, SpecMarketplaceBatch};
use vstd::string::StrSliceExecFns;

verus! {

/// The store's ceiling on bind parameters per statement.
pub const MAX_INSERT_PARAMS: usize = 65535;

/// The longest string the store accepts in a text column; sanitization
/// truncates to this.
pub const MAX_STRING_LENGTH: usize = 1024;

pub const COLLECTION_COLUMN_COUNT: usize = 4;

pub const OFFER_COLUMN_COUNT: usize = 7;

pub const ORDER_COLUMN_COUNT: usize = 6;

pub const BID_COLUMN_COUNT: usize = 7;

/// Rows per chunk: as many as keep `rows × column_count` under the
/// parameter ceiling.
pub open spec fn spec_chunk_size(column_count: int) -> int {
    MAX_INSERT_PARAMS as int / column_count
}

/// How many chunks a list of `num_items` rows needs.
pub open spec fn spec_chunk_count(num_items: int, column_count: int) -> int {
    let cs = spec_chunk_size(column_count);
    (num_items + cs - 1) / cs
}

/// The half-open index range of one chunk.
pub open spec fn spec_chunk_bounds(num_items: int, column_count: int, i: int) -> (int, int) {
    let cs = spec_chunk_size(column_count);
    (i * cs, if (i + 1) * cs < num_items {
        (i + 1) * cs
    } else {
        num_items
    })
}

/// Slices `num_items` rows into contiguous chunks of at most
/// `floor(MAX_INSERT_PARAMS / column_count)` rows each.
#[verifier::loop_isolation(false)]
pub fn get_chunks(num_items: usize, column_count: usize) -> (r: Vec<(usize, usize)>)
    requires
        1 <= column_count <= MAX_INSERT_PARAMS,
    ensures
        r@.len() == spec_chunk_count(num_items as int, column_count as int),
        forall|i: int|
            0 <= i < r@.len() ==> (#[trigger] r@[i]).0 as int == spec_chunk_bounds(
                num_items as int,
                column_count as int,
                i,
            ).0 && r@[i].1 as int == spec_chunk_bounds(num_items as int, column_count as int, i).1,
{
    let cs = MAX_INSERT_PARAMS / column_count;
    let ghost csi = spec_chunk_size(column_count as int);
    proof {
        assert(cs as int == csi);
        assert(csi >= 1) by (nonlinear_arith)
            requires
                1 <= column_count as int <= MAX_INSERT_PARAMS as int,
                csi == MAX_INSERT_PARAMS as int / column_count as int,
        ;
    }
    let mut out: Vec<(usize, usize)> = Vec::new();
    let mut start: usize = 0;
    while start < num_items
        invariant
            start <= num_items,
            out@.len() == 0 ==> start == 0,
            out@.len() > 0 ==> out@[out@.len() - 1].1 == start,
            forall|i: int| 0 <= i < out@.len() ==> (#[trigger] out@[i]).0 < out@[i].1,
            start < num_items ==> start as int == out@.len() * csi,
            forall|i: int|
                0 <= i < out@.len() ==> (#[trigger] out@[i]).0 as int == spec_chunk_bounds(
                    num_items as int,
                    column_count as int,
                    i,
                ).0 && out@[i].1 as int == spec_chunk_bounds(
                    num_items as int,
                    column_count as int,
                    i,
                ).1,
        decreases num_items - start,
    {
        let remaining = num_items - start;
        let end = if remaining > cs {
            start + cs
        } else {
            num_items
        };
        let ghost k = out@.len() as int;
        proof {
            assert(start as int == k * csi);
            assert((k + 1) * csi == k * csi + csi) by (nonlinear_arith);
            assert(spec_chunk_bounds(num_items as int, column_count as int, k).0 == k * csi);
        }
        out.push((start, end));
        start = end;
    }
    proof {
        let k = out@.len() as int;
        let n = num_items as int;
        if k == 0 {
            assert(n == 0);
            assert(spec_chunk_count(n, column_count as int) == (csi - 1) / csi);
            assert((csi - 1) / csi == 0) by (nonlinear_arith)
                requires
                    csi >= 1,
            ;
        } else {
            assert(start == num_items);
            assert(out@[k - 1].1 as int == n);
            assert(out@[k - 1].0 as int == (k - 1) * csi);
            let b = spec_chunk_bounds(n, column_count as int, k - 1);
            assert(b.1 == if k * csi < n { k * csi } else { n });
            assert((k - 1) * csi + csi == k * csi) by (nonlinear_arith);
            assert(out@[k - 1].0 < out@[k - 1].1);
            assert(n > (k - 1) * csi);
            assert(n <= k * csi) by (nonlinear_arith)
                requires
                    b.1 == n,
                    b.1 == if k * csi < n { k * csi } else { n },
            ;
            assert((n + csi - 1) / csi == k) by (nonlinear_arith)
                requires
                    csi >= 1,
                    k >= 1,
                    n > (k - 1) * csi,
                    n <= k * csi,
            ;
        }
    }
    out
}

/// Every row index lies in exactly one chunk: chunk `k / chunk_size`
/// contains it, and no other chunk does.
pub proof fn lemma_chunks_partition(num_items: int, column_count: int, k: int)
    requires
        1 <= column_count <= MAX_INSERT_PARAMS as int,
        0 <= k < num_items,
    ensures
        ({
            let cs = spec_chunk_size(column_count);
            let i = k / cs;
            &&& 0 <= i < spec_chunk_count(num_items, column_count)
            &&& spec_chunk_bounds(num_items, column_count, i).0 <= k < spec_chunk_bounds(
                num_items,
                column_count,
                i,
            ).1
            &&& forall|j: int|
                0 <= j < spec_chunk_count(num_items, column_count) && j != i ==> !((
                #[trigger] spec_chunk_bounds(num_items, column_count, j)).0 <= k
                    < spec_chunk_bounds(num_items, column_count, j).1)
        }),
{
    let cs = spec_chunk_size(column_count);
    assert(cs >= 1) by (nonlinear_arith)
        requires
            1 <= column_count <= MAX_INSERT_PARAMS as int,
            cs == MAX_INSERT_PARAMS as int / column_count,
    ;
    let i = k / cs;
    assert(i * cs <= k < (i + 1) * cs) by (nonlinear_arith)
        requires
            cs >= 1,
            0 <= k,
            i == k / cs,
    ;
    assert(0 <= i) by (nonlinear_arith)
        requires
            cs >= 1,
            0 <= k,
            i == k / cs,
    ;
    assert(i < spec_chunk_count(num_items, column_count)) by (nonlinear_arith)
        requires
            cs >= 1,
            0 <= i,
            i * cs <= k < num_items,
            spec_chunk_count(num_items, column_count) == (num_items + cs - 1) / cs,
    ;
    assert forall|j: int|
        0 <= j < spec_chunk_count(num_items, column_count) && j != i implies !((
    #[trigger] spec_chunk_bounds(num_items, column_count, j)).0 <= k < spec_chunk_bounds(
        num_items,
        column_count,
        j,
    ).1) by {
        if j < i {
            assert((j + 1) * cs <= i * cs) by (nonlinear_arith)
                requires
                    j < i,
                    cs >= 1,
            ;
        } else {
            assert(j * cs >= (i + 1) * cs) by (nonlinear_arith)
                requires
                    j > i,
                    cs >= 1,
            ;
        }
    }
}

/// A string truncated to what the store accepts.
pub open spec fn spec_truncated(s: Seq<char>) -> Seq<char> {
    if s.len() > MAX_STRING_LENGTH {
        s.take(MAX_STRING_LENGTH as int)
    } else {
        s
    }
}

/// Truncates an over-length string to `MAX_STRING_LENGTH` characters;
/// anything shorter passes unchanged.
pub fn truncate_string(s: &String) -> (r: String)
    ensures
        r@ == spec_truncated(s@),
{
    let len = s.as_str().unicode_len();
    if len > MAX_STRING_LENGTH {
        let cut = s.as_str().substring_char(0, MAX_STRING_LENGTH);
        proof {
            assert(s@.subrange(0, MAX_STRING_LENGTH as int) =~= s@.take(MAX_STRING_LENGTH as int));
        }
        cut.to_owned()
    } else {
        s.clone()
    }
}

/// A collection row sanitized: every string field truncated, everything
/// else unchanged.
pub open spec fn spec_clean_collection(c: SpecMarketplaceCollection) -> SpecMarketplaceCollection {
    SpecMarketplaceCollection {
        creator_address: spec_truncated(c.creator_address),
        collection_address: spec_truncated(c.collection_address),
        collection_name: spec_truncated(c.collection_name),
        creation_timestamp: c.creation_timestamp,
    }
}

pub open spec fn spec_clean_offer(c: SpecMarketplaceOffer) -> SpecMarketplaceOffer {
    SpecMarketplaceOffer {
        creator_address: spec_truncated(c.creator_address),
        collection_name: spec_truncated(c.collection_name),
        token_name: spec_truncated(c.token_name),
        property_version: c.property_version,
        price: c.price,
        seller: spec_truncated(c.seller),
        timestamp: c.timestamp,
    }
}

pub open spec fn spec_clean_order(c: SpecMarketplaceOrder) -> SpecMarketplaceOrder {
    SpecMarketplaceOrder {
        creator_address: spec_truncated(c.creator_address),
        collection_name: spec_truncated(c.collection_name),
        price: c.price,
        quantity: c.quantity,
        maker: spec_truncated(c.maker),
        timestamp: c.timestamp,
    }
}

pub open spec fn spec_clean_bid(c: SpecMarketplaceBid) -> SpecMarketplaceBid {
    SpecMarketplaceBid {
        creator_address: spec_truncated(c.creator_address),
        collection_name: spec_truncated(c.collection_name),
        token_name: spec_truncated(c.token_name),
        property_version: c.property_version,
        price: c.price,
        maker: spec_truncated(c.maker),
        timestamp: c.timestamp,
    }
}

fn clean_collection(c: MarketplaceCollection) -> (r: MarketplaceCollection)
    ensures
        r.deep_view() == spec_clean_collection(c.deep_view()),
{
    MarketplaceCollection {
        creator_address: truncate_string(&c.creator_address),
        collection_address: truncate_string(&c.collection_address),
        collection_name: truncate_string(&c.collection_name),
        creation_timestamp: c.creation_timestamp,
    }
}

fn clean_offer(c: MarketplaceOffer) -> (r: MarketplaceOffer)
    ensures
        r.deep_view() == spec_clean_offer(c.deep_view()),
{
    MarketplaceOffer {
        creator_address: truncate_string(&c.creator_address),
        collection_name: truncate_string(&c.collection_name),
        token_name: truncate_string(&c.token_name),
        property_version: c.property_version,
        price: c.price,
        seller: truncate_string(&c.seller),
        timestamp: c.timestamp,
    }
}

fn clean_order(c: MarketplaceOrder) -> (r: MarketplaceOrder)
    ensures
        r.deep_view() == spec_clean_order(c.deep_view()),
{
    MarketplaceOrder {
        creator_address: truncate_string(&c.creator_address),
        collection_name: truncate_string(&c.collection_name),
        price: c.price,
        quantity: c.quantity,
        maker: truncate_string(&c.maker),
        timestamp: c.timestamp,
    }
}

fn clean_bid(c: MarketplaceBid) -> (r: MarketplaceBid)
    ensures
        r.deep_view() == spec_clean_bid(c.deep_view()),
{
    MarketplaceBid {
        creator_address: truncate_string(&c.creator_address),
        collection_name: truncate_string(&c.collection_name),
        token_name: truncate_string(&c.token_name),
        property_version: c.property_version,
        price: c.price,
        maker: truncate_string(&c.maker),
        timestamp: c.timestamp,
    }
}

/// A whole batch sanitized row by row.
pub open spec fn spec_clean_batch(b: SpecMarketplaceBatch) -> SpecMarketplaceBatch {
    SpecMarketplaceBatch {
        collections: Seq::new(b.collections.len(), |i: int| spec_clean_collection(b.collections[i])),
        offers: Seq::new(b.offers.len(), |i: int| spec_clean_offer(b.offers[i])),
        orders: Seq::new(b.orders.len(), |i: int| spec_clean_order(b.orders[i])),
        bids: Seq::new(b.bids.len(), |i: int| spec_clean_bid(b.bids[i])),
    }
}

/// Sanitizes every record of a batch: over-length string fields are
/// truncated, all other fields pass unchanged.
#[verifier::loop_isolation(false)]
pub fn clean_data_for_db(batch: MarketplaceBatch) -> (r: MarketplaceBatch)
    ensures
        r.deep_view() == spec_clean_batch(batch.deep_view()),
{
    let ghost bdv = batch.deep_view();
    let MarketplaceBatch { collections, offers, orders, bids } = batch;
    let mut out_collections: Vec<MarketplaceCollection> = Vec::new();
    let mut rest = collections;
    while rest.len() > 0
        invariant
            out_collections@.len() + rest@.len() == bdv.collections.len(),
            forall|j: int|
                0 <= j < out_collections@.len() ==> #[trigger] out_collections@[j].deep_view()
                    == spec_clean_collection(bdv.collections[j]),
            forall|j: int|
                0 <= j < rest@.len() ==> #[trigger] rest@[j].deep_view() == bdv.collections[j
                    + out_collections@.len()],
        decreases rest@.len(),
    {
        let c = rest.remove(0);
        out_collections.push(clean_collection(c));
    }
    let mut out_offers: Vec<MarketplaceOffer> = Vec::new();
    let mut rest = offers;
    while rest.len() > 0
        invariant
            out_offers@.len() + rest@.len() == bdv.offers.len(),
            forall|j: int|
                0 <= j < out_offers@.len() ==> #[trigger] out_offers@[j].deep_view()
                    == spec_clean_offer(bdv.offers[j]),
            forall|j: int|
                0 <= j < rest@.len() ==> #[trigger] rest@[j].deep_view() == bdv.offers[j
                    + out_offers@.len()],
        decreases rest@.len(),
    {
        let c = rest.remove(0);
        out_offers.push(clean_offer(c));
    }
    let mut out_orders: Vec<MarketplaceOrder> = Vec::new();
    let mut rest = orders;
    while rest.len() > 0
        invariant
            out_orders@.len() + rest@.len() == bdv.orders.len(),
            forall|j: int|
                0 <= j < out_orders@.len() ==> #[trigger] out_orders@[j].deep_view()
                    == spec_clean_order(bdv.orders[j]),
            forall|j: int|
                0 <= j < rest@.len() ==> #[trigger] rest@[j].deep_view() == bdv.orders[j
                    + out_orders@.len()],
        decreases rest@.len(),
    {
        let c = rest.remove(0);
        out_orders.push(clean_order(c));
    }
    let mut out_bids: Vec<MarketplaceBid> = Vec::new();
    let mut rest = bids;
    while rest.len() > 0
        invariant
            out_bids@.len() + rest@.len() == bdv.bids.len(),
            forall|j: int|
                0 <= j < out_bids@.len() ==> #[trigger] out_bids@[j].deep_view()
                    == spec_clean_bid(bdv.bids[j]),
            forall|j: int|
                0 <= j < rest@.len() ==> #[trigger] rest@[j].deep_view() == bdv.bids[j
                    + out_bids@.len()],
        decreases rest@.len(),
    {
        let c = rest.remove(0);
        out_bids.push(clean_bid(c));
    }
    let out = MarketplaceBatch {
        collections: out_collections,
        offers: out_offers,
        orders: out_orders,
        bids: out_bids,
    };
    proof {
        assert(out.collections.deep_view() =~= spec_clean_batch(bdv).collections);
        assert(out.offers.deep_view() =~= spec_clean_batch(bdv).offers);
        assert(out.orders.deep_view() =~= spec_clean_batch(bdv).orders);
        assert(out.bids.deep_view() =~= spec_clean_batch(bdv).bids);
    }
    out
}

/// Where a batch write stands: first transactional attempt, sanitized
/// retry after a first failure, durably committed, or failed for good.
#[derive(Debug, Clone, Copy, PartialEq, Eq, Structural)]
pub enum WritePhase {
    FirstAttempt,
    SanitizedRetry,
    Done,
    Failed,
}

/// The try-once-then-sanitize-then-give-up write policy: the whole batch
/// is attempted in one transaction; on failure it is sanitized and
/// attempted once more in a fresh transaction; a second failure is fatal.
#[derive(Debug)]
pub struct BatchWriter {
    pub phase: WritePhase,
    pub batch: MarketplaceBatch,
}

impl BatchWriter {
    /// Starts the policy at the first transactional attempt, with the
    /// batch as decoded.
    pub fn new(batch: MarketplaceBatch) -> (r: Self)
        ensures
            r.phase == WritePhase::FirstAttempt,
            r.batch == batch,
    {
        BatchWriter { phase: WritePhase::FirstAttempt, batch }
    }

    /// Advances the policy after one transactional attempt: a committed
    /// first attempt is done; a failed first attempt sanitizes the batch
    /// and moves to the retry; a committed retry is done; a failed retry
    /// is fatal. The batch changes only at the sanitization step.
    pub fn on_attempt_result(&mut self, committed: bool)
        requires
            old(self).phase == WritePhase::FirstAttempt || old(self).phase
                == WritePhase::SanitizedRetry,
        ensures
            old(self).phase == WritePhase::FirstAttempt && committed ==> final (self).phase
                == WritePhase::Done && final (self).batch == old(self).batch,
            old(self).phase == WritePhase::FirstAttempt && !committed ==> final (self).phase
                == WritePhase::SanitizedRetry && final (self).batch.deep_view()
                == spec_clean_batch(old(self).batch.deep_view()),
            old(self).phase == WritePhase::SanitizedRetry && committed ==> final (self).phase
                == WritePhase::Done && final (self).batch == old(self).batch,
            old(self).phase == WritePhase::SanitizedRetry && !committed ==> final (self).phase
                == WritePhase::Failed && final (self).batch == old(self).batch,
    {
        if committed {
            self.phase = WritePhase::Done;
        } else if matches!(self.phase, WritePhase::FirstAttempt) {
            let mut taken = MarketplaceBatch {
                collections: Vec::new(),
                offers: Vec::new(),
                orders: Vec::new(),
                bids: Vec::new(),
            };
            core::mem::swap(&mut self.batch, &mut taken);
            self.batch = clean_data_for_db(taken);
            self.phase = WritePhase::SanitizedRetry;
        } else {
            self.phase = WritePhase::Failed;
        }
    }
}

} // verus!
