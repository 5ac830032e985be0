//! The marketplace processor: decodes one batch of transactions into
//! marketplace rows and plans their persistence.

use vstd::prelude::*;

use crate::marketplace::bids::{spec_bid_from_table_item, MarketplaceBid, SpecMarketplaceBid};
use crate::marketplace::collections::{
    spec_collection_from_event, MarketplaceCollection, SpecMarketplaceCollection,
};
use crate::marketplace::offers::{
    spec_offer_from_table_item, MarketplaceOffer, SpecMarketplaceOffer,
};
use crate::marketplace::orders::{
    spec_order_from_table_item, MarketplaceOrder, SpecMarketplaceOrder,
};
use crate::marketplace::utils::DecodeError;
use crate::transactions::{
    spec_all_well_formed, Event, SpecEntryFunctionPayload, SpecEvent, SpecTransaction,
    SpecTransactionPayload, SpecWriteSetChange, Transaction, TransactionPayload,
    EntryFunctionPayload, WriteSetChange,
};
use vstd::string::StringExecFns;

verus! {

/// The collection rows a transaction's events yield, in event order;
/// `Err` carries the transaction version of the first event whose
/// recognized tag fails to decode.
pub open spec fn spec_txn_collections(events: Seq<SpecEvent>, version: int) -> Result<
    Seq<SpecMarketplaceCollection>,
    int,
>
    decreases events.len(),
{
    if events.len() == 0 {
        Ok(Seq::empty())
    } else {
        match spec_collection_from_event(events[0].typ, events[0].data) {
            Err(()) => Err(version),
            Ok(c0) => match spec_txn_collections(events.drop_first(), version) {
                Err(v) => Err(v),
                Ok(rest) => match c0 {
                    Some(c) => Ok(seq![c] + rest),
                    None => Ok(rest),
                },
            },
        }
    }
}

/// The offer, order and bid a transaction's table-item writes yield when
/// joined with its call payload. Writes are scanned in order and a later
/// matching write overrides an earlier one (the pairing keeps the last
/// match); `Err` carries the version of the first failing decode.
pub open spec fn spec_txn_table_records(
    changes: Seq<SpecWriteSetChange>,
    payload: SpecEntryFunctionPayload,
    version: int,
    timestamp: int,
) -> Result<(Option<SpecMarketplaceOffer>, Option<SpecMarketplaceOrder>, Option<SpecMarketplaceBid>), int>
    decreases changes.len(),
{
    if changes.len() == 0 {
        Ok((None, None, None))
    } else {
        match changes[0] {
            SpecWriteSetChange::Other => {
                spec_txn_table_records(changes.drop_first(), payload, version, timestamp)
            },
            SpecWriteSetChange::WriteTableItem(item) => {
                match spec_offer_from_table_item(item, payload, timestamp) {
                    Err(()) => Err(version),
                    Ok(offer) => match spec_order_from_table_item(item, payload, timestamp) {
                        Err(()) => Err(version),
                        Ok(order) => match spec_bid_from_table_item(item, payload, timestamp) {
                            Err(()) => Err(version),
                            Ok(bid) => match spec_txn_table_records(
                                changes.drop_first(),
                                payload,
                                version,
                                timestamp,
                            ) {
                                Err(v) => Err(v),
                                Ok((ro, rr, rb)) => Ok(
                                    (
                                        if ro is Some {
                                            ro
                                        } else {
                                            offer
                                        },
                                        if rr is Some {
                                            rr
                                        } else {
                                            order
                                        },
                                        if rb is Some {
                                            rb
                                        } else {
                                            bid
                                        },
                                    ),
                                ),
                            },
                        },
                    },
                }
            },
        }
    }
}

/// Everything one transaction yields: collection rows plus at most one
/// offer, order and bid.
pub open spec fn spec_txn_records(t: SpecTransaction) -> Result<
    (
        Seq<SpecMarketplaceCollection>,
        Option<SpecMarketplaceOffer>,
        Option<SpecMarketplaceOrder>,
        Option<SpecMarketplaceBid>,
    ),
    int,
> {
    match t {
        SpecTransaction::Other => Ok((Seq::empty(), None, None, None)),
        SpecTransaction::User(u) => match spec_txn_collections(u.events, u.version) {
            Err(v) => Err(v),
            Ok(cols) => match u.payload {
                SpecTransactionPayload::EntryFunctionPayload(p) => {
                    match spec_txn_table_records(u.changes, p, u.version, u.timestamp_micros) {
                        Err(v) => Err(v),
                        Ok((o, r, b)) => Ok((cols, o, r, b)),
                    }
                },
                SpecTransactionPayload::Other => Ok((cols, None, None, None)),
            },
        },
    }
}

/// Decodes the collection rows out of one transaction's events.
#[verifier::loop_isolation(false)]
fn collections_from_events(events: &Vec<Event>, version: i64) -> (r: Result<
    Vec<MarketplaceCollection>,
    DecodeError,
>)
    ensures
        match r {
            Ok(cs) => spec_txn_collections(events.deep_view(), version as int) == Ok::<_, int>(
                cs.deep_view(),
            ),
            Err(e) => spec_txn_collections(events.deep_view(), version as int) == Err::<
                Seq<SpecMarketplaceCollection>,
                _,
            >(e.version as int) && e.version == version,
        },
{
    let ghost edv = events.deep_view();
    let mut out: Vec<MarketplaceCollection> = Vec::new();
    let n = events.len();
    let mut i: usize = 0;
    proof {
        assert(edv.subrange(0, n as int) =~= edv);
        assert(out.deep_view() =~= Seq::<SpecMarketplaceCollection>::empty());
        if spec_txn_collections(edv, version as int) is Ok {
            let rest = spec_txn_collections(edv, version as int)->Ok_0;
            assert(Seq::<SpecMarketplaceCollection>::empty() + rest =~= rest);
        }
    }
    while i < n
        invariant
            i <= n,
            spec_txn_collections(edv, version as int) == match spec_txn_collections(
                edv.subrange(i as int, n as int),
                version as int,
            ) {
                Err(v) => Err::<Seq<SpecMarketplaceCollection>, int>(v),
                Ok(rest) => Ok(out.deep_view() + rest),
            },
        decreases n - i,
    {
        let ev = &events[i];
        proof {
            assert(edv.subrange(i as int, n as int)[0] == edv[i as int]);
            assert(edv[i as int] == ev.deep_view());
            assert(edv.subrange(i as int, n as int).drop_first() =~= edv.subrange(
                i + 1 as int,
                n as int,
            ));
        }
        match MarketplaceCollection::from_event(ev.typ.as_str(), ev, version) {
            Err(e) => {
                return Err(e);
            },
            Ok(Some(c)) => {
                let ghost prev = out.deep_view();
                out.push(c);
                proof {
                    assert(out.deep_view() =~= prev.push(c.deep_view()));
                    assert forall|rest: Seq<SpecMarketplaceCollection>|
                        true implies prev + (seq![c.deep_view()] + rest) =~= out.deep_view()
                        + rest by {}
                }
            },
            Ok(None) => {},
        }
        i += 1;
    }
    proof {
        assert(edv.subrange(n as int, n as int) =~= Seq::empty());
        assert(out.deep_view() + Seq::<SpecMarketplaceCollection>::empty() =~= out.deep_view());
    }
    Ok(out)
}

/// Joins one transaction's table-item writes with its call payload,
/// keeping the last matching write of each kind.
#[verifier::loop_isolation(false)]
fn table_records_from_changes(
    changes: &Vec<WriteSetChange>,
    payload: &EntryFunctionPayload,
    version: i64,
    timestamp: i64,
) -> (r: Result<
    (Option<MarketplaceOffer>, Option<MarketplaceOrder>, Option<MarketplaceBid>),
    DecodeError,
>)
    requires
        forall|i: int|
            0 <= i < changes@.len() ==> match #[trigger] changes@[i] {
                WriteSetChange::WriteTableItem(w) => w.data is Some,
                WriteSetChange::Other => true,
            },
        crate::marketplace::utils::spec_known_function(payload.function@)
            ==> payload.arguments@.len() > 0,
    ensures
        match r {
            Ok((o, rr, b)) => spec_txn_table_records(
                changes.deep_view(),
                payload.deep_view(),
                version as int,
                timestamp as int,
            ) == Ok::<_, int>((o.deep_view(), rr.deep_view(), b.deep_view())),
            Err(e) => spec_txn_table_records(
                changes.deep_view(),
                payload.deep_view(),
                version as int,
                timestamp as int,
            ) == Err::<
                (
                    Option<SpecMarketplaceOffer>,
                    Option<SpecMarketplaceOrder>,
                    Option<SpecMarketplaceBid>,
                ),
                _,
            >(e.version as int) && e.version == version,
        },
{
    let ghost cdv = changes.deep_view();
    let ghost pdv = payload.deep_view();
    let mut offer: Option<MarketplaceOffer> = None;
    let mut order: Option<MarketplaceOrder> = None;
    let mut bid: Option<MarketplaceBid> = None;
    let n = changes.len();
    let mut i: usize = 0;
    proof {
        assert(cdv.subrange(0, n as int) =~= cdv);
    }
    while i < n
        invariant
            i <= n,
            spec_txn_table_records(cdv, pdv, version as int, timestamp as int) == match
                spec_txn_table_records(
                cdv.subrange(i as int, n as int),
                pdv,
                version as int,
                timestamp as int,
            ) {
                Err(v) => Err::<
                    (
                        Option<SpecMarketplaceOffer>,
                        Option<SpecMarketplaceOrder>,
                        Option<SpecMarketplaceBid>,
                    ),
                    int,
                >(v),
                Ok((ro, rr, rb)) => Ok(
                    (
                        if ro is Some {
                            ro
                        } else {
                            offer.deep_view()
                        },
                        if rr is Some {
                            rr
                        } else {
                            order.deep_view()
                        },
                        if rb is Some {
                            rb
                        } else {
                            bid.deep_view()
                        },
                    ),
                ),
            },
        decreases n - i,
    {
        proof {
            assert(cdv.subrange(i as int, n as int)[0] == cdv[i as int]);
            assert(cdv[i as int] == changes@[i as int].deep_view());
            assert(cdv.subrange(i as int, n as int).drop_first() =~= cdv.subrange(
                i + 1 as int,
                n as int,
            ));
        }
        match &changes[i] {
            WriteSetChange::WriteTableItem(table_item) => {
                let maybe_offer = match MarketplaceOffer::from_table_item(
                    table_item,
                    payload,
                    version,
                    timestamp,
                ) {
                    Ok(o) => o,
                    Err(e) => {
                        return Err(e);
                    },
                };
                let maybe_order = match MarketplaceOrder::from_table_item(
                    table_item,
                    payload,
                    version,
                    timestamp,
                ) {
                    Ok(o) => o,
                    Err(e) => {
                        return Err(e);
                    },
                };
                let maybe_bid = match MarketplaceBid::from_table_item(
                    table_item,
                    payload,
                    version,
                    timestamp,
                ) {
                    Ok(o) => o,
                    Err(e) => {
                        return Err(e);
                    },
                };
                if maybe_offer.is_some() {
                    offer = maybe_offer;
                }
                if maybe_order.is_some() {
                    order = maybe_order;
                }
                if maybe_bid.is_some() {
                    bid = maybe_bid;
                }
            },
            WriteSetChange::Other => {},
        }
        i += 1;
    }
    proof {
        assert(cdv.subrange(n as int, n as int) =~= Seq::empty());
    }
    Ok((offer, order, bid))
}

/// Everything one batch of transactions decodes to, per record kind, in
/// transaction order.
#[derive(Debug)]
pub struct MarketplaceBatch {
    pub collections: Vec<MarketplaceCollection>,
    pub offers: Vec<MarketplaceOffer>,
    pub orders: Vec<MarketplaceOrder>,
    pub bids: Vec<MarketplaceBid>,
}

pub struct SpecMarketplaceBatch {
    pub collections: Seq<SpecMarketplaceCollection>,
    pub offers: Seq<SpecMarketplaceOffer>,
    pub orders: Seq<SpecMarketplaceOrder>,
    pub bids: Seq<SpecMarketplaceBid>,
}

impl DeepView for MarketplaceBatch {
    type V = SpecMarketplaceBatch;

    open spec fn deep_view(&self) -> SpecMarketplaceBatch {
        SpecMarketplaceBatch {
            collections: self.collections.deep_view(),
            offers: self.offers.deep_view(),
            orders: self.orders.deep_view(),
            bids: self.bids.deep_view(),
        }
    }
}

/// The singleton or empty sequence an optional record contributes.
pub open spec fn opt_seq<T>(o: Option<T>) -> Seq<T> {
    match o {
        Some(x) => seq![x],
        None => Seq::empty(),
    }
}

/// The batch a sequence of transactions decodes to; `Err` carries the
/// version of the first transaction whose decode fails.
pub open spec fn spec_extract(txns: Seq<SpecTransaction>) -> Result<SpecMarketplaceBatch, int>
    decreases txns.len(),
{
    if txns.len() == 0 {
        Ok(
            SpecMarketplaceBatch {
                collections: Seq::empty(),
                offers: Seq::empty(),
                orders: Seq::empty(),
                bids: Seq::empty(),
            },
        )
    } else {
        match spec_txn_records(txns[0]) {
            Err(v) => Err(v),
            Ok((cols, o, r, b)) => match spec_extract(txns.drop_first()) {
                Err(v) => Err(v),
                Ok(rest) => Ok(
                    SpecMarketplaceBatch {
                        collections: cols + rest.collections,
                        offers: opt_seq(o) + rest.offers,
                        orders: opt_seq(r) + rest.orders,
                        bids: opt_seq(b) + rest.bids,
                    },
                ),
            },
        }
    }
}

/// The number of rows in a batch, clamped to what a `u64` holds.
pub open spec fn spec_clamped_count(b: SpecMarketplaceBatch) -> int {
    let total = b.collections.len() + b.offers.len() + b.orders.len() + b.bids.len();
    if total <= u64::MAX as int {
        total as int
    } else {
        u64::MAX as int
    }
}

/// The outcome of one processed batch, handed to the reporting loop.
#[derive(Debug)]
pub struct ProcessingResult {
    pub processor_name: String,
    pub start_version: u64,
    pub end_version: u64,
    pub record_count: u64,
}

/// A batch-level failure: the decode error that caused it, tagged with
/// the batch bounds and the processor.
#[derive(Debug)]
pub struct TransactionProcessingError {
    pub error: DecodeError,
    pub start_version: u64,
    pub end_version: u64,
    pub processor_name: String,
}

fn sat_add_u64(a: u64, b: u64) -> (r: u64)
    ensures
        r as int == if a + b <= u64::MAX {
            a + b
        } else {
            u64::MAX as int
        },
{
    if a <= u64::MAX - b {
        a + b
    } else {
        u64::MAX
    }
}

/// Decodes marketplace rows out of transaction batches.
#[derive(Debug)]
pub struct MarketplaceProcessor {}

impl MarketplaceProcessor {
    pub fn new() -> (r: Self) {
        MarketplaceProcessor {  }
    }

    /// The registered name of this processor.
    pub fn name(&self) -> (r: &'static str)
        ensures
            r@ == "marketplace_processor"@,
    {
        "marketplace_processor"
    }

    /// Decodes one batch of transactions into marketplace rows. Succeeds
    /// with exactly the rows `spec_extract` names, in order, and a
    /// processing result carrying the batch bounds and row count; fails
    /// with the first transaction's decode error, tagged with the batch
    /// bounds.
    #[verifier::loop_isolation(false)]
    pub fn process_transactions(
        &self,
        transactions: Vec<Transaction>,
        start_version: u64,
        end_version: u64,
    ) -> (r: Result<(MarketplaceBatch, ProcessingResult), TransactionProcessingError>)
        requires
            spec_all_well_formed(transactions@),
        ensures
            match r {
                Ok((batch, res)) => {
                    &&& spec_extract(transactions.deep_view()) == Ok::<_, int>(batch.deep_view())
                    &&& res.processor_name@ == "marketplace_processor"@
                    &&& res.start_version == start_version
                    &&& res.end_version == end_version
                    &&& res.record_count as int == spec_clamped_count(batch.deep_view())
                },
                Err(e) => {
                    &&& spec_extract(transactions.deep_view()) == Err::<SpecMarketplaceBatch, int>(
                        e.error.version as int,
                    )
                    &&& e.start_version == start_version
                    &&& e.end_version == end_version
                    &&& e.processor_name@ == "marketplace_processor"@
                },
            },
    {
        let ghost tdv = transactions.deep_view();
        let mut batch = MarketplaceBatch {
            collections: Vec::new(),
            offers: Vec::new(),
            orders: Vec::new(),
            bids: Vec::new(),
        };
        let n = transactions.len();
        let mut i: usize = 0;
        proof {
            assert(tdv.subrange(0, n as int) =~= tdv);
            assert(batch.collections.deep_view() =~= Seq::<SpecMarketplaceCollection>::empty());
            assert(batch.offers.deep_view() =~= Seq::<SpecMarketplaceOffer>::empty());
            assert(batch.orders.deep_view() =~= Seq::<SpecMarketplaceOrder>::empty());
            assert(batch.bids.deep_view() =~= Seq::<SpecMarketplaceBid>::empty());
            if spec_extract(tdv) is Ok {
                let s = spec_extract(tdv)->Ok_0;
                assert(Seq::<SpecMarketplaceCollection>::empty() + s.collections =~= s.collections);
                assert(Seq::<SpecMarketplaceOffer>::empty() + s.offers =~= s.offers);
                assert(Seq::<SpecMarketplaceOrder>::empty() + s.orders =~= s.orders);
                assert(Seq::<SpecMarketplaceBid>::empty() + s.bids =~= s.bids);
            }
        }
        while i < n
            invariant
                i <= n,
                spec_extract(tdv) == match spec_extract(tdv.subrange(i as int, n as int)) {
                    Err(v) => Err::<SpecMarketplaceBatch, int>(v),
                    Ok(rest) => Ok(
                        SpecMarketplaceBatch {
                            collections: batch.collections.deep_view() + rest.collections,
                            offers: batch.offers.deep_view() + rest.offers,
                            orders: batch.orders.deep_view() + rest.orders,
                            bids: batch.bids.deep_view() + rest.bids,
                        },
                    ),
                },
            decreases n - i,
        {
            proof {
                assert(tdv.subrange(i as int, n as int)[0] == tdv[i as int]);
                assert(tdv[i as int] == transactions@[i as int].deep_view());
                assert(tdv.subrange(i as int, n as int).drop_first() =~= tdv.subrange(
                    i + 1 as int,
                    n as int,
                ));
                assert(transactions@[i as int].spec_well_formed());
            }
            match &transactions[i] {
                Transaction::Other => {
                    proof {
                        if spec_extract(tdv.subrange(i + 1 as int, n as int)) is Ok {
                            let s2 = spec_extract(tdv.subrange(i + 1 as int, n as int))->Ok_0;
                            assert(Seq::<SpecMarketplaceCollection>::empty() + s2.collections
                                =~= s2.collections);
                            assert(Seq::<SpecMarketplaceOffer>::empty() + s2.offers =~= s2.offers);
                            assert(Seq::<SpecMarketplaceOrder>::empty() + s2.orders =~= s2.orders);
                            assert(Seq::<SpecMarketplaceBid>::empty() + s2.bids =~= s2.bids);
                        }
                    }
                },
                Transaction::User(u) => {
                    let version = u.version as i64;
                    proof {
                        assert(version as int == u.version as int);
                    }
                    let mut cols = match collections_from_events(&u.events, version) {
                        Ok(c) => c,
                        Err(e) => {
                            return Err(
                                TransactionProcessingError {
                                    error: e,
                                    start_version,
                                    end_version,
                                    processor_name: String::from_str("marketplace_processor"),
                                },
                            );
                        },
                    };
                    let trio = match &u.payload {
                        TransactionPayload::EntryFunctionPayload(p) => {
                            match table_records_from_changes(
                                &u.changes,
                                p,
                                version,
                                u.timestamp_micros,
                            ) {
                                Ok(t) => t,
                                Err(e) => {
                                    return Err(
                                        TransactionProcessingError {
                                            error: e,
                                            start_version,
                                            end_version,
                                            processor_name: String::from_str(
                                                "marketplace_processor",
                                            ),
                                        },
                                    );
                                },
                            }
                        },
                        TransactionPayload::Other => (None, None, None),
                    };
                    let ghost cols_dv = cols.deep_view();
                    let ghost trio_dv = (trio.0.deep_view(), trio.1.deep_view(), trio.2.deep_view());
                    let ghost prev_c = batch.collections.deep_view();
                    let ghost prev_o = batch.offers.deep_view();
                    let ghost prev_r = batch.orders.deep_view();
                    let ghost prev_b = batch.bids.deep_view();
                    batch.collections.append(&mut cols);
                    proof {
                        assert forall|j: int| 0 <= j < batch.collections@.len() implies
                            batch.collections.deep_view()[j] == (prev_c + cols_dv)[j] by {
                            assert(batch.collections.deep_view()[j]
                                == batch.collections@[j].deep_view());
                        }
                        assert(batch.collections.deep_view() =~= prev_c + cols_dv);
                    }
                    match trio.0 {
                        Some(o) => {
                            batch.offers.push(o);
                        },
                        None => {},
                    }
                    proof {
                        assert forall|j: int| 0 <= j < batch.offers@.len() implies
                            batch.offers.deep_view()[j] == (prev_o + opt_seq(trio_dv.0))[j] by {
                            assert(batch.offers.deep_view()[j] == batch.offers@[j].deep_view());
                        }
                        assert(batch.offers.deep_view() =~= prev_o + opt_seq(trio_dv.0));
                    }
                    match trio.1 {
                        Some(o) => {
                            batch.orders.push(o);
                        },
                        None => {},
                    }
                    proof {
                        assert forall|j: int| 0 <= j < batch.orders@.len() implies
                            batch.orders.deep_view()[j] == (prev_r + opt_seq(trio_dv.1))[j] by {
                            assert(batch.orders.deep_view()[j] == batch.orders@[j].deep_view());
                        }
                        assert(batch.orders.deep_view() =~= prev_r + opt_seq(trio_dv.1));
                    }
                    match trio.2 {
                        Some(o) => {
                            batch.bids.push(o);
                        },
                        None => {},
                    }
                    proof {
                        assert forall|j: int| 0 <= j < batch.bids@.len() implies
                            batch.bids.deep_view()[j] == (prev_b + opt_seq(trio_dv.2))[j] by {
                            assert(batch.bids.deep_view()[j] == batch.bids@[j].deep_view());
                        }
                        assert(batch.bids.deep_view() =~= prev_b + opt_seq(trio_dv.2));
                        if spec_extract(tdv.subrange(i + 1 as int, n as int)) is Ok {
                            let s2 = spec_extract(tdv.subrange(i + 1 as int, n as int))->Ok_0;
                            assert(prev_c + (cols_dv + s2.collections) =~= (prev_c + cols_dv)
                                + s2.collections);
                            assert(prev_o + (opt_seq(trio_dv.0) + s2.offers) =~= (prev_o + opt_seq(
                                trio_dv.0,
                            )) + s2.offers);
                            assert(prev_r + (opt_seq(trio_dv.1) + s2.orders) =~= (prev_r + opt_seq(
                                trio_dv.1,
                            )) + s2.orders);
                            assert(prev_b + (opt_seq(trio_dv.2) + s2.bids) =~= (prev_b + opt_seq(
                                trio_dv.2,
                            )) + s2.bids);
                        }
                    }
                },
            }
            i += 1;
        }
        proof {
            assert(tdv.subrange(n as int, n as int) =~= Seq::empty());
            assert(batch.collections.deep_view() + Seq::<SpecMarketplaceCollection>::empty()
                =~= batch.collections.deep_view());
            assert(batch.offers.deep_view() + Seq::<SpecMarketplaceOffer>::empty()
                =~= batch.offers.deep_view());
            assert(batch.orders.deep_view() + Seq::<SpecMarketplaceOrder>::empty()
                =~= batch.orders.deep_view());
            assert(batch.bids.deep_view() + Seq::<SpecMarketplaceBid>::empty()
                =~= batch.bids.deep_view());
        }
        let count = sat_add_u64(
            sat_add_u64(batch.collections.len() as u64, batch.offers.len() as u64),
            sat_add_u64(batch.orders.len() as u64, batch.bids.len() as u64),
        );
        let result = ProcessingResult {
            processor_name: String::from_str("marketplace_processor"),
            start_version,
            end_version,
            record_count: count,
        };
        Ok((batch, result))
    }
}

} // verus!
