//! The mathematics of the ledger: selecting the movements of one product,
//! putting movements in order of time, and adding up what they moved.

use crate::models::{
    lemma_timestamp_le_total, lemma_timestamp_le_transitive, Timestamp, TransactionView,
};
use vstd::prelude::*;

verus! {

/// The movements that apply to the product filed under `sku`.
pub open spec fn concerns(sku: Seq<char>) -> spec_fn(TransactionView) -> bool {
    |t: TransactionView| t.product_sku == sku
}

/// The movements that apply to any product but the one filed under `sku`.
pub open spec fn spares(sku: Seq<char>) -> spec_fn(TransactionView) -> bool {
    |t: TransactionView| t.product_sku != sku
}

/// The movements recorded from `start` to `end`, both included.
pub open spec fn falls_within(start: Timestamp, end: Timestamp) -> spec_fn(TransactionView) -> bool {
    |t: TransactionView| t.timestamp.within(start, end)
}

/// The movements recorded at the instant `at`.
pub open spec fn recorded_at(at: Timestamp) -> spec_fn(TransactionView) -> bool {
    |t: TransactionView| t.timestamp == at
}

/// No movement of `s` comes before an earlier one.
pub open spec fn is_chronological(s: Seq<TransactionView>) -> bool {
    forall|i: int, j: int| 0 <= i < j < s.len() ==> s[i].timestamp.le(s[j].timestamp)
}

/// `s` with `t` placed behind the last movement that is not later than `t`.
pub open spec fn insert_by_time(s: Seq<TransactionView>, t: TransactionView) -> Seq<
    TransactionView,
>
    decreases s.len(),
{
    if s.len() == 0 || s.last().timestamp.le(t.timestamp) {
        s.push(t)
    } else {
        insert_by_time(s.drop_last(), t).push(s.last())
    }
}

/// The movements of `s` in order of time; movements of the same instant keep
/// the order that they have in `s`.
pub open spec fn chronological(s: Seq<TransactionView>) -> Seq<TransactionView>
    decreases s.len(),
{
    if s.len() == 0 {
        s
    } else {
        insert_by_time(chronological(s.drop_last()), s.last())
    }
}

/// The change of stock that the movements of `s` add up to.
pub open spec fn total_movement(s: Seq<TransactionView>) -> int
    decreases s.len(),
{
    if s.len() == 0 {
        0
    } else {
        total_movement(s.drop_last()) + s.last().signed_quantity()
    }
}

/// Placing `t` by time puts it at position `p`, where `p` is the one position
/// with nothing later than `t` right before it and only later movements behind it.
pub proof fn lemma_insert_by_time_position(s: Seq<TransactionView>, t: TransactionView, p: int)
    requires
        0 <= p <= s.len(),
        p == 0 || s[p - 1].timestamp.le(t.timestamp),
        forall|j: int| p <= j < s.len() ==> !(#[trigger] s[j]).timestamp.le(t.timestamp),
    ensures
        insert_by_time(s, t) == s.insert(p, t),
    decreases s.len(),
{
    if p == s.len() {
        assert(s.insert(p, t) =~= s.push(t));
    } else {
        assert(!s[s.len() - 1].timestamp.le(t.timestamp));
        lemma_insert_by_time_position(s.drop_last(), t, p);
        assert(s.drop_last().insert(p, t).push(s.last()) =~= s.insert(p, t));
    }
}

/// Placing a movement by time adds that movement and nothing else.
pub proof fn lemma_insert_by_time_contents(s: Seq<TransactionView>, t: TransactionView)
    ensures
        insert_by_time(s, t).len() == s.len() + 1,
        insert_by_time(s, t).to_multiset() == s.to_multiset().insert(t),
    decreases s.len(),
{
    broadcast use vstd::seq_lib::group_to_multiset_ensures;

    if s.len() == 0 || s.last().timestamp.le(t.timestamp) {
    } else {
        let rest = s.drop_last();
        lemma_insert_by_time_contents(rest, t);
        assert(rest.push(s.last()) =~= s);
        assert(insert_by_time(s, t).to_multiset() =~= s.to_multiset().insert(t));
    }
}

/// Placing a movement by time into an ordered sequence leaves it ordered.
pub proof fn lemma_insert_by_time_ordered(s: Seq<TransactionView>, t: TransactionView)
    requires
        is_chronological(s),
    ensures
        is_chronological(insert_by_time(s, t)),
    decreases s.len(),
{
    if s.len() == 0 || s.last().timestamp.le(t.timestamp) {
        let r = s.push(t);
        assert forall|i: int, j: int| 0 <= i < j < r.len() implies r[i].timestamp.le(
            r[j].timestamp,
        ) by {
            if j == s.len() {
                if i < s.len() - 1 {
                    lemma_timestamp_le_transitive(
                        s[i].timestamp,
                        s.last().timestamp,
                        t.timestamp,
                    );
                }
            }
        }
    } else {
        let rest = s.drop_last();
        lemma_insert_by_time_ordered(rest, t);
        lemma_insert_by_time_contents(rest, t);
        let inner = insert_by_time(rest, t);
        let r = inner.push(s.last());
        lemma_timestamp_le_total(s.last().timestamp, t.timestamp);
        assert forall|i: int, j: int| 0 <= i < j < r.len() implies r[i].timestamp.le(
            r[j].timestamp,
        ) by {
            if j == inner.len() {
                lemma_insert_by_time_member(rest, t, i);
                if inner[i] == t {
                } else {
                    let k = choose|k: int| 0 <= k < rest.len() && rest[k] == inner[i];
                    assert(s[k] == rest[k]);
                }
            }
        }
    }
}

/// Whatever stands in `insert_by_time(s, t)` is `t` or stands in `s`.
pub proof fn lemma_insert_by_time_member(s: Seq<TransactionView>, t: TransactionView, i: int)
    requires
        0 <= i < insert_by_time(s, t).len(),
    ensures
        insert_by_time(s, t)[i] == t || exists|k: int|
            0 <= k < s.len() && s[k] == insert_by_time(s, t)[i],
    decreases s.len(),
{
    lemma_insert_by_time_contents(s, t);
    if s.len() == 0 || s.last().timestamp.le(t.timestamp) {
        if i < s.len() {
            assert(s[i] == insert_by_time(s, t)[i]);
        }
    } else {
        let rest = s.drop_last();
        lemma_insert_by_time_contents(rest, t);
        if i < s.len() {
            lemma_insert_by_time_member(rest, t, i);
            if insert_by_time(rest, t)[i] != t {
                let k = choose|k: int| 0 <= k < rest.len() && rest[k] == insert_by_time(rest, t)[i];
                assert(s[k] == insert_by_time(s, t)[i]);
            }
        } else {
            assert(s[s.len() - 1] == insert_by_time(s, t)[i]);
        }
    }
}

/// Ordering by time yields an ordered sequence.
pub proof fn lemma_chronological_ordered(s: Seq<TransactionView>)
    ensures
        is_chronological(chronological(s)),
    decreases s.len(),
{
    if s.len() > 0 {
        lemma_chronological_ordered(s.drop_last());
        lemma_insert_by_time_ordered(chronological(s.drop_last()), s.last());
    }
}

/// Ordering by time rearranges: it neither drops nor adds a movement.
pub proof fn lemma_chronological_rearranges(s: Seq<TransactionView>)
    ensures
        chronological(s).len() == s.len(),
        chronological(s).to_multiset() == s.to_multiset(),
    decreases s.len(),
{
    broadcast use vstd::seq_lib::group_to_multiset_ensures;

    if s.len() > 0 {
        lemma_chronological_rearranges(s.drop_last());
        lemma_insert_by_time_contents(chronological(s.drop_last()), s.last());
        assert(s.drop_last().push(s.last()) =~= s);
    }
}

/// A sequence that is in order of time already is left as it is.
pub proof fn lemma_chronological_fixes_ordered(s: Seq<TransactionView>)
    requires
        is_chronological(s),
    ensures
        chronological(s) == s,
    decreases s.len(),
{
    if s.len() > 0 {
        let rest = s.drop_last();
        lemma_chronological_fixes_ordered(rest);
        if rest.len() > 0 {
            assert(rest.last() == s[s.len() - 2]);
        }
        assert(rest.push(s.last()) =~= s);
    }
}

/// Every movement of an ordered sequence is not later than whatever the
/// last one is not later than.
proof fn lemma_filter_last_not_later(
    s: Seq<TransactionView>,
    keep: spec_fn(TransactionView) -> bool,
    t: TransactionView,
)
    requires
        is_chronological(s),
        s.len() > 0,
        s.last().timestamp.le(t.timestamp),
        s.filter(keep).len() > 0,
    ensures
        s.filter(keep).last().timestamp.le(t.timestamp),
{
    let f = s.filter(keep);
    s.lemma_filter_contains_rev(keep, f.last());
    let k = choose|k: int| 0 <= k < s.len() && s[k] == f.last();
    if k < s.len() - 1 {
        lemma_timestamp_le_transitive(s[k].timestamp, s.last().timestamp, t.timestamp);
    }
}

/// Selecting from an ordered sequence after placing `t` in it is the same as
/// placing `t`, if it is selected, in the selection.
pub proof fn lemma_insert_by_time_filter(
    s: Seq<TransactionView>,
    t: TransactionView,
    keep: spec_fn(TransactionView) -> bool,
)
    requires
        is_chronological(s),
    ensures
        insert_by_time(s, t).filter(keep) == if keep(t) {
            insert_by_time(s.filter(keep), t)
        } else {
            s.filter(keep)
        },
    decreases s.len(),
{
    broadcast use Seq::lemma_filter_push;

    if s.len() == 0 {
        assert(s.filter(keep) =~= s) by {
            s.lemma_filter_len(keep);
        }
    } else if s.last().timestamp.le(t.timestamp) {
        if keep(t) && s.filter(keep).len() > 0 {
            lemma_filter_last_not_later(s, keep, t);
        }
    } else {
        let rest = s.drop_last();
        assert(rest.push(s.last()) =~= s);
        lemma_insert_by_time_filter(rest, t, keep);
        if keep(s.last()) {
            let kept = s.filter(keep);
            assert(kept == rest.filter(keep).push(s.last()));
            assert(kept.drop_last() =~= rest.filter(keep));
        }
    }
}

/// Selecting commutes with ordering by time: to select from the ordered
/// sequence is to order the selection.
pub proof fn lemma_chronological_filter(
    s: Seq<TransactionView>,
    keep: spec_fn(TransactionView) -> bool,
)
    ensures
        chronological(s).filter(keep) == chronological(s.filter(keep)),
    decreases s.len(),
{
    broadcast use Seq::lemma_filter_push;

    if s.len() == 0 {
        assert(s.filter(keep) =~= s) by {
            s.lemma_filter_len(keep);
        }
    } else {
        let rest = s.drop_last();
        assert(rest.push(s.last()) =~= s);
        lemma_chronological_filter(rest, keep);
        lemma_chronological_ordered(rest);
        lemma_insert_by_time_filter(chronological(rest), s.last(), keep);
        if keep(s.last()) {
            assert(s.filter(keep).drop_last() =~= rest.filter(keep));
        }
    }
}

/// Ordering by time is stable: the movements of one instant stand in the
/// ordered sequence in the order in which they stand in `s`.
pub proof fn lemma_chronological_stable(s: Seq<TransactionView>, at: Timestamp)
    ensures
        chronological(s).filter(recorded_at(at)) == s.filter(recorded_at(at)),
{
    let same = s.filter(recorded_at(at));
    lemma_chronological_filter(s, recorded_at(at));
    assert forall|i: int, j: int| 0 <= i < j < same.len() implies same[i].timestamp.le(
        same[j].timestamp,
    ) by {
        s.lemma_filter_pred(recorded_at(at), i);
        s.lemma_filter_pred(recorded_at(at), j);
    }
    lemma_chronological_fixes_ordered(same);
}

/// Once the movements of a product are taken out, none of them is left.
pub proof fn lemma_spared_has_none(ledger: Seq<TransactionView>, sku: Seq<char>)
    ensures
        ledger.filter(spares(sku)).filter(concerns(sku)) == Seq::<TransactionView>::empty(),
        chronological(ledger.filter(spares(sku)).filter(concerns(sku))).len() == 0,
    decreases ledger.len(),
{
    broadcast use Seq::lemma_filter_push;

    if ledger.len() == 0 {
        ledger.lemma_filter_len(spares(sku));
        ledger.filter(spares(sku)).lemma_filter_len(concerns(sku));
    } else {
        let rest = ledger.drop_last();
        assert(rest.push(ledger.last()) =~= ledger);
        lemma_spared_has_none(rest, sku);
    }
    assert(ledger.filter(spares(sku)).filter(concerns(sku)) =~= Seq::<TransactionView>::empty());
}

/// Taking the movements of one product out leaves those of any other
/// product as they are.
pub proof fn lemma_spared_keeps_others(
    ledger: Seq<TransactionView>,
    sku: Seq<char>,
    other: Seq<char>,
)
    requires
        other != sku,
    ensures
        ledger.filter(spares(sku)).filter(concerns(other)) == ledger.filter(concerns(other)),
    decreases ledger.len(),
{
    broadcast use Seq::lemma_filter_push;

    if ledger.len() == 0 {
        ledger.lemma_filter_len(spares(sku));
        assert(ledger.filter(spares(sku)) =~= ledger);
    } else {
        let rest = ledger.drop_last();
        assert(rest.push(ledger.last()) =~= ledger);
        lemma_spared_keeps_others(rest, sku, other);
    }
}

/// Placing a movement by time adds its quantity to the total.
pub proof fn lemma_insert_by_time_total(s: Seq<TransactionView>, t: TransactionView)
    ensures
        total_movement(insert_by_time(s, t)) == total_movement(s) + t.signed_quantity(),
    decreases s.len(),
{
    if s.len() == 0 || s.last().timestamp.le(t.timestamp) {
        assert(s.push(t).drop_last() =~= s);
    } else {
        let rest = s.drop_last();
        lemma_insert_by_time_total(rest, t);
        assert(insert_by_time(rest, t).push(s.last()).drop_last() =~= insert_by_time(rest, t));
    }
}

/// The order of the movements does not change what they add up to.
pub proof fn lemma_chronological_total(s: Seq<TransactionView>)
    ensures
        total_movement(chronological(s)) == total_movement(s),
    decreases s.len(),
{
    if s.len() > 0 {
        lemma_chronological_total(s.drop_last());
        lemma_insert_by_time_total(chronological(s.drop_last()), s.last());
    }
}

} // verus!
