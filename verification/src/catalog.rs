//! The mathematics of the catalog: how a list of product records makes up
//! a mapping from SKU to product.

use crate::models::ProductView;
use vstd::prelude::*;

verus! {

/// The catalog that the records make up when they are filed one after the
/// other, each under its own SKU: of two records with one SKU the later stays.
pub open spec fn catalog_of(records: Seq<ProductView>) -> Map<Seq<char>, ProductView>
    decreases records.len(),
{
    if records.len() == 0 {
        Map::empty()
    } else {
        catalog_of(records.drop_last()).insert(records.last().sku, records.last())
    }
}

/// No two records share a SKU.
pub open spec fn distinct_skus(records: Seq<ProductView>) -> bool {
    forall|i: int, j: int| 0 <= i < j < records.len() ==> records[i].sku != records[j].sku
}

/// Some record of `records` has the SKU `sku`.
pub open spec fn lists(records: Seq<ProductView>, sku: Seq<char>) -> bool {
    exists|i: int| 0 <= i < records.len() && #[trigger] records[i].sku == sku
}

/// Every product of the catalog is filed under its own SKU.
pub open spec fn keyed_by_sku(catalog: Map<Seq<char>, ProductView>) -> bool {
    forall|sku: Seq<char>| #[trigger] catalog.contains_key(sku) ==> catalog[sku].sku == sku
}

/// `listing` names each product of the catalog exactly once, in some order.
pub open spec fn enumerates(listing: Seq<ProductView>, catalog: Map<Seq<char>, ProductView>) -> bool {
    &&& distinct_skus(listing)
    &&& forall|i: int|
        0 <= i < listing.len() ==> catalog.contains_key(#[trigger] listing[i].sku)
            && catalog[listing[i].sku] == listing[i]
    &&& forall|sku: Seq<char>| #[trigger] catalog.contains_key(sku) ==> lists(listing, sku)
}

/// The products of the catalog that are low on stock.
pub open spec fn low_stock_part(catalog: Map<Seq<char>, ProductView>) -> Map<
    Seq<char>,
    ProductView,
> {
    Map::new(
        |sku: Seq<char>| catalog.contains_key(sku) && catalog[sku].is_low(),
        |sku: Seq<char>| catalog[sku],
    )
}

/// The catalog holds exactly the SKUs of the records, each with a record of
/// that SKU, and is finite.
pub proof fn lemma_catalog_of_records(records: Seq<ProductView>)
    ensures
        catalog_of(records).dom().finite(),
        keyed_by_sku(catalog_of(records)),
        forall|sku: Seq<char>| #[trigger]
            catalog_of(records).contains_key(sku) <==> lists(records, sku),
    decreases records.len(),
{
    if records.len() > 0 {
        let rest = records.drop_last();
        lemma_catalog_of_records(rest);
        assert forall|sku: Seq<char>| #[trigger]
            catalog_of(records).contains_key(sku) <==> lists(records, sku) by {
            if lists(records, sku) {
                let i = choose|i: int| 0 <= i < records.len() && #[trigger] records[i].sku == sku;
                if i < rest.len() {
                    assert(rest[i].sku == sku);
                }
            }
            if catalog_of(records).contains_key(sku) {
                if sku == records.last().sku {
                    assert(records[records.len() - 1].sku == sku);
                } else {
                    let i = choose|i: int| 0 <= i < rest.len() && #[trigger] rest[i].sku == sku;
                    assert(records[i].sku == sku);
                }
            }
        }
    }
}

/// Where no two records share a SKU, each record is the one that the
/// catalog holds under its SKU.
pub proof fn lemma_catalog_entry(records: Seq<ProductView>, i: int)
    requires
        distinct_skus(records),
        0 <= i < records.len(),
    ensures
        catalog_of(records).contains_key(records[i].sku),
        catalog_of(records)[records[i].sku] == records[i],
    decreases records.len(),
{
    if i < records.len() - 1 {
        let rest = records.drop_last();
        assert(distinct_skus(rest)) by {
            assert forall|a: int, b: int| 0 <= a < b < rest.len() implies rest[a].sku
                != rest[b].sku by {
                assert(records[a].sku != records[b].sku);
            }
        }
        lemma_catalog_entry(rest, i);
    }
}

/// Where no two records share a SKU, the catalog has as many products as
/// there are records.
pub proof fn lemma_catalog_size(records: Seq<ProductView>)
    requires
        distinct_skus(records),
    ensures
        catalog_of(records).dom().finite(),
        catalog_of(records).dom().len() == records.len(),
    decreases records.len(),
{
    lemma_catalog_of_records(records);
    if records.len() > 0 {
        let rest = records.drop_last();
        assert(distinct_skus(rest)) by {
            assert forall|a: int, b: int| 0 <= a < b < rest.len() implies rest[a].sku
                != rest[b].sku by {
                assert(records[a].sku != records[b].sku);
            }
        }
        lemma_catalog_size(rest);
        lemma_catalog_of_records(rest);
        assert(!catalog_of(rest).contains_key(records.last().sku)) by {
            if lists(rest, records.last().sku) {
                let i = choose|i: int|
                    0 <= i < rest.len() && #[trigger] rest[i].sku == records.last().sku;
                assert(records[i].sku != records[records.len() - 1].sku);
            }
        }
        assert(catalog_of(records).dom() =~= catalog_of(rest).dom().insert(records.last().sku));
    }
}

/// Replacing a record by one of the same SKU replaces the product that the
/// catalog holds under that SKU.
pub proof fn lemma_catalog_update(records: Seq<ProductView>, i: int, p: ProductView)
    requires
        distinct_skus(records),
        0 <= i < records.len(),
        p.sku == records[i].sku,
    ensures
        distinct_skus(records.update(i, p)),
        catalog_of(records.update(i, p)) == catalog_of(records).insert(p.sku, p),
{
    let updated = records.update(i, p);
    assert(distinct_skus(updated)) by {
        assert forall|a: int, b: int| 0 <= a < b < updated.len() implies updated[a].sku
            != updated[b].sku by {
            assert(records[a].sku != records[b].sku);
        }
    }
    lemma_catalog_of_records(records);
    lemma_catalog_of_records(updated);
    let before = catalog_of(records).insert(p.sku, p);
    let after = catalog_of(updated);
    assert forall|sku: Seq<char>| before.contains_key(sku) <==> after.contains_key(sku) by {
        if lists(records, sku) {
            let k = choose|k: int| 0 <= k < records.len() && #[trigger] records[k].sku == sku;
            assert(updated[k].sku == sku);
        }
        if lists(updated, sku) {
            let k = choose|k: int| 0 <= k < updated.len() && #[trigger] updated[k].sku == sku;
            assert(records[k].sku == sku);
        }
        if sku == p.sku {
            assert(updated[i].sku == sku);
        }
    }
    assert forall|sku: Seq<char>| before.contains_key(sku) implies before[sku] == after[sku] by {
        let k = choose|k: int| 0 <= k < updated.len() && #[trigger] updated[k].sku == sku;
        lemma_catalog_entry(updated, k);
        if k != i {
            lemma_catalog_entry(records, k);
        }
    }
    assert(before =~= after);
}

/// Appending a record with a SKU that no record has keeps the SKUs distinct.
pub proof fn lemma_catalog_push(records: Seq<ProductView>, p: ProductView)
    requires
        distinct_skus(records),
        !lists(records, p.sku),
    ensures
        distinct_skus(records.push(p)),
        catalog_of(records.push(p)) == catalog_of(records).insert(p.sku, p),
{
    let pushed = records.push(p);
    assert forall|a: int, b: int| 0 <= a < b < pushed.len() implies pushed[a].sku
        != pushed[b].sku by {
        if b == records.len() {
            assert(records[a].sku != p.sku);
        } else {
            assert(records[a].sku != records[b].sku);
        }
    }
    assert(pushed.drop_last() =~= records);
}

/// Taking a record away takes its product out of the catalog.
pub proof fn lemma_catalog_remove(records: Seq<ProductView>, i: int)
    requires
        distinct_skus(records),
        0 <= i < records.len(),
    ensures
        distinct_skus(records.remove(i)),
        catalog_of(records.remove(i)) == catalog_of(records).remove(records[i].sku),
{
    let removed = records.remove(i);
    assert(distinct_skus(removed)) by {
        assert forall|a: int, b: int| 0 <= a < b < removed.len() implies removed[a].sku
            != removed[b].sku by {
            let a0 = if a < i { a } else { a + 1 };
            let b0 = if b < i { b } else { b + 1 };
            assert(records[a0].sku != records[b0].sku);
        }
    }
    lemma_catalog_of_records(records);
    lemma_catalog_of_records(removed);
    let before = catalog_of(records).remove(records[i].sku);
    let after = catalog_of(removed);
    assert forall|sku: Seq<char>| before.contains_key(sku) <==> after.contains_key(sku) by {
        if before.contains_key(sku) {
            let k = choose|k: int| 0 <= k < records.len() && #[trigger] records[k].sku == sku;
            let k0 = if k < i { k } else { k - 1 };
            assert(removed[k0].sku == sku);
        }
        if lists(removed, sku) {
            let k = choose|k: int| 0 <= k < removed.len() && #[trigger] removed[k].sku == sku;
            let k0 = if k < i { k } else { k + 1 };
            assert(records[k0].sku == sku);
            if k0 < i {
                assert(records[k0].sku != records[i].sku);
            } else {
                assert(records[i].sku != records[k0].sku);
            }
        }
    }
    assert forall|sku: Seq<char>| before.contains_key(sku) implies before[sku] == after[sku] by {
        let k = choose|k: int| 0 <= k < removed.len() && #[trigger] removed[k].sku == sku;
        let k0 = if k < i { k } else { k + 1 };
        lemma_catalog_entry(removed, k);
        lemma_catalog_entry(records, k0);
    }
    assert(before =~= after);
}

/// Filing the records of a catalog anew gives the same catalog: where no two
/// records share a SKU, the catalog holds each of them and nothing else.
pub proof fn lemma_catalog_holds_records(records: Seq<ProductView>)
    requires
        distinct_skus(records),
    ensures
        forall|i: int| 0 <= i < records.len() ==> catalog_of(records).contains_key(
            #[trigger] records[i].sku,
        ) && catalog_of(records)[records[i].sku] == records[i],
        forall|sku: Seq<char>| #[trigger]
            catalog_of(records).contains_key(sku) ==> lists(records, sku),
{
    lemma_catalog_of_records(records);
    assert forall|i: int| 0 <= i < records.len() implies catalog_of(records).contains_key(
        #[trigger] records[i].sku,
    ) && catalog_of(records)[records[i].sku] == records[i] by {
        lemma_catalog_entry(records, i);
    }
}

} // verus!
