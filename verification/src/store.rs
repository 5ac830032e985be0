//! The store as the pipeline sees it: one row per natural key, written
//! replace-on-conflict. Under that write discipline, re-applying a
//! suffix of already-applied records — what a restart with a lookback
//! window does — leaves the store exactly as an uninterrupted run does.

use vstd::prelude::*;

use crate::marketplace::bids::SpecMarketplaceBid;
use crate::marketplace::collections::SpecMarketplaceCollection;
use crate::marketplace::offers::SpecMarketplaceOffer;
use crate::marketplace::orders::SpecMarketplaceOrder;

verus! {

/// Records applied in order, each upserted under its natural key.
pub open spec fn apply_records<K, V>(store: Map<K, V>, records: Seq<(K, V)>) -> Map<K, V>
    decreases records.len(),
{
    if records.len() == 0 {
        store
    } else {
        apply_records(store.insert(records[0].0, records[0].1), records.drop_first())
    }
}

/// The value of the last record carrying key `k`, if any.
pub open spec fn last_value<K, V>(records: Seq<(K, V)>, k: K) -> Option<V>
    decreases records.len(),
{
    if records.len() == 0 {
        None
    } else if records.last().0 == k {
        Some(records.last().1)
    } else {
        last_value(records.drop_last(), k)
    }
}

proof fn lemma_last_value_front<K, V>(s: Seq<(K, V)>, k: K)
    requires
        s.len() > 0,
    ensures
        last_value(s, k) == match last_value(s.drop_first(), k) {
            Some(v) => Some(v),
            None => if s[0].0 == k {
                Some(s[0].1)
            } else {
                None
            },
        },
    decreases s.len(),
{
    if s.len() == 1 {
        assert(s.drop_first() =~= Seq::<(K, V)>::empty());
        assert(s.last() == s[0]);
    } else {
        if s.last().0 == k {
            assert(s.drop_first().last() == s.last());
        } else {
            assert(s.drop_first().last() == s.last());
            lemma_last_value_front(s.drop_last(), k);
            assert(s.drop_first().drop_last() =~= s.drop_last().drop_first());
            assert(s.drop_last()[0] == s[0]);
        }
    }
}

/// What one key holds after applying records: the last record with that
/// key, or what the store held before.
pub proof fn lemma_apply_records_value<K, V>(store: Map<K, V>, records: Seq<(K, V)>, k: K)
    ensures
        apply_records(store, records).dom().contains(k) == (store.dom().contains(k) || last_value(
            records,
            k,
        ) is Some),
        last_value(records, k) matches Some(v) ==> apply_records(store, records).dom().contains(k)
            && apply_records(store, records)[k] == v,
        last_value(records, k) is None && store.dom().contains(k) ==> apply_records(
            store,
            records,
        )[k] == store[k],
    decreases records.len(),
{
    if records.len() > 0 {
        let store2 = store.insert(records[0].0, records[0].1);
        lemma_apply_records_value(store2, records.drop_first(), k);
        lemma_last_value_front(records, k);
    }
}

/// Resume idempotence: a run that applied `prefix + suffix` and is then
/// restarted from the suffix's start — the lookback window — reaches the
/// same store as the uninterrupted run, because every key the suffix
/// touches already holds its last suffix value.
pub proof fn lemma_reapply_suffix<K, V>(store: Map<K, V>, prefix: Seq<(K, V)>, suffix: Seq<(K, V)>)
    ensures
        apply_records(apply_records(store, prefix + suffix), suffix) == apply_records(
            store,
            prefix + suffix,
        ),
{
    let full = prefix + suffix;
    let t = apply_records(store, full);
    let t2 = apply_records(t, suffix);
    assert forall|k: K| #[trigger] t2.dom().contains(k) implies t.dom().contains(k) by {
        lemma_apply_records_value(store, full, k);
        lemma_apply_records_value(t, suffix, k);
        lemma_last_value_concat(prefix, suffix, k);
    }
    assert forall|k: K| #[trigger] t.dom().contains(k) implies t2.dom().contains(k) && t2[k]
        == t[k] by {
        lemma_apply_records_value(store, full, k);
        lemma_apply_records_value(t, suffix, k);
        lemma_last_value_concat(prefix, suffix, k);
        if last_value(suffix, k) is Some {
            let v = last_value(suffix, k)->Some_0;
            assert(last_value(full, k) == Some(v));
            assert(t[k] == v);
            assert(t2[k] == v);
        }
    }
    assert(t2.dom() =~= t.dom());
    assert(t2 =~= t);
}

/// The last value in a concatenation comes from the suffix when the
/// suffix holds the key at all.
proof fn lemma_last_value_concat<K, V>(prefix: Seq<(K, V)>, suffix: Seq<(K, V)>, k: K)
    ensures
        last_value(prefix + suffix, k) == match last_value(suffix, k) {
            Some(v) => Some(v),
            None => last_value(prefix, k),
        },
    decreases suffix.len(),
{
    if suffix.len() == 0 {
        assert(prefix + suffix =~= prefix);
    } else {
        let full = prefix + suffix;
        assert(full.last() == suffix.last());
        if suffix.last().0 == k {
        } else {
            assert(full.drop_last() =~= prefix + suffix.drop_last());
            lemma_last_value_concat(prefix, suffix.drop_last(), k);
        }
    }
}

/// The natural key of a collection row.
pub open spec fn collection_key(c: SpecMarketplaceCollection) -> (Seq<char>, Seq<char>) {
    (c.creator_address, c.collection_name)
}

/// The natural key of an offer row.
pub open spec fn offer_key(o: SpecMarketplaceOffer) -> (Seq<char>, Seq<char>) {
    (o.creator_address, o.collection_name)
}

/// The natural key of an order row.
pub open spec fn order_key(o: SpecMarketplaceOrder) -> (Seq<char>, Seq<char>) {
    (o.creator_address, o.collection_name)
}

/// The natural key of a bid row.
pub open spec fn bid_key(b: SpecMarketplaceBid) -> (Seq<char>, Seq<char>) {
    (b.creator_address, b.collection_name)
}

/// Collection rows paired with their natural keys, ready for
/// `apply_records`.
pub open spec fn keyed_collections(rows: Seq<SpecMarketplaceCollection>) -> Seq<
    ((Seq<char>, Seq<char>), SpecMarketplaceCollection),
> {
    Seq::new(rows.len(), |i: int| (collection_key(rows[i]), rows[i]))
}

/// Offer rows paired with their natural keys.
pub open spec fn keyed_offers(rows: Seq<SpecMarketplaceOffer>) -> Seq<
    ((Seq<char>, Seq<char>), SpecMarketplaceOffer),
> {
    Seq::new(rows.len(), |i: int| (offer_key(rows[i]), rows[i]))
}

/// Order rows paired with their natural keys.
pub open spec fn keyed_orders(rows: Seq<SpecMarketplaceOrder>) -> Seq<
    ((Seq<char>, Seq<char>), SpecMarketplaceOrder),
> {
    Seq::new(rows.len(), |i: int| (order_key(rows[i]), rows[i]))
}

/// Bid rows paired with their natural keys.
pub open spec fn keyed_bids(rows: Seq<SpecMarketplaceBid>) -> Seq<
    ((Seq<char>, Seq<char>), SpecMarketplaceBid),
> {
    Seq::new(rows.len(), |i: int| (bid_key(rows[i]), rows[i]))
}

/// Restart idempotence for the collections table.
pub proof fn lemma_collections_restart(
    store: Map<(Seq<char>, Seq<char>), SpecMarketplaceCollection>,
    prefix: Seq<SpecMarketplaceCollection>,
    suffix: Seq<SpecMarketplaceCollection>,
)
    ensures
        apply_records(
            apply_records(store, keyed_collections(prefix + suffix)),
            keyed_collections(suffix),
        ) == apply_records(store, keyed_collections(prefix + suffix)),
{
    assert(keyed_collections(prefix + suffix) =~= keyed_collections(prefix) + keyed_collections(
        suffix,
    ));
    lemma_reapply_suffix(store, keyed_collections(prefix), keyed_collections(suffix));
}

/// Restart idempotence for the offers table.
pub proof fn lemma_offers_restart(
    store: Map<(Seq<char>, Seq<char>), SpecMarketplaceOffer>,
    prefix: Seq<SpecMarketplaceOffer>,
    suffix: Seq<SpecMarketplaceOffer>,
)
    ensures
        apply_records(apply_records(store, keyed_offers(prefix + suffix)), keyed_offers(suffix))
            == apply_records(store, keyed_offers(prefix + suffix)),
{
    assert(keyed_offers(prefix + suffix) =~= keyed_offers(prefix) + keyed_offers(suffix));
    lemma_reapply_suffix(store, keyed_offers(prefix), keyed_offers(suffix));
}

/// Restart idempotence for the orders table.
pub proof fn lemma_orders_restart(
    store: Map<(Seq<char>, Seq<char>), SpecMarketplaceOrder>,
    prefix: Seq<SpecMarketplaceOrder>,
    suffix: Seq<SpecMarketplaceOrder>,
)
    ensures
        apply_records(apply_records(store, keyed_orders(prefix + suffix)), keyed_orders(suffix))
            == apply_records(store, keyed_orders(prefix + suffix)),
{
    assert(keyed_orders(prefix + suffix) =~= keyed_orders(prefix) + keyed_orders(suffix));
    lemma_reapply_suffix(store, keyed_orders(prefix), keyed_orders(suffix));
}

/// Restart idempotence for the bids table.
pub proof fn lemma_bids_restart(
    store: Map<(Seq<char>, Seq<char>), SpecMarketplaceBid>,
    prefix: Seq<SpecMarketplaceBid>,
    suffix: Seq<SpecMarketplaceBid>,
)
    ensures
        apply_records(apply_records(store, keyed_bids(prefix + suffix)), keyed_bids(suffix))
            == apply_records(store, keyed_bids(prefix + suffix)),
{
    assert(keyed_bids(prefix + suffix) =~= keyed_bids(prefix) + keyed_bids(suffix));
    lemma_reapply_suffix(store, keyed_bids(prefix), keyed_bids(suffix));
}

} // verus!
