//! What holds of the inventory whatever is asked of it: laws of the state
//! machine, proved for every state and every sequence of requests.

use crate::inventory::{Inventory, Operation};
use crate::ledger::{
    chronological, concerns, falls_within, is_chronological, lemma_chronological_filter,
    lemma_chronological_ordered, lemma_chronological_total, lemma_spared_has_none,
    lemma_spared_keeps_others, spares, total_movement,
};
use crate::models::{Timestamp, TransactionView};
use vstd::prelude::*;

verus! {

/// Every request of the sequence is well formed.
pub open spec fn all_well_formed(ops: Seq<Operation>) -> bool {
    forall|i: int| 0 <= i < ops.len() ==> (#[trigger] ops[i]).well_formed()
}

/// The stock with which the product now filed under `sku` was created: the
/// initial quantity of the latest request that filed a product under that
/// SKU and was accepted; zero where there was none.
pub open spec fn opening_stock(ops: Seq<Operation>, sku: Seq<char>) -> int
    decreases ops.len(),
{
    if ops.len() == 0 {
        0
    } else {
        let before = Inventory::empty().run(ops.drop_last());
        match ops.last() {
            Operation::AddProduct { product } => if product.sku == sku && before.refusal(
                ops.last(),
            ) is None {
                product.quantity
            } else {
                opening_stock(ops.drop_last(), sku)
            },
            _ => opening_stock(ops.drop_last(), sku),
        }
    }
}

/// A request leaves a well-formed inventory well formed: whether accepted
/// or turned down, it leaves every product filed under its own SKU and no
/// stock level negative.
pub proof fn lemma_step_preserves_wf(s: Inventory, op: Operation)
    requires
        s.wf(),
        op.well_formed(),
    ensures
        s.step(op).wf(),
{
    let after = s.step(op);
    if s.refusal(op) is None {
        match op {
            Operation::AddProduct { product } => {
                assert(after.catalog.dom() =~= s.catalog.dom().insert(product.sku));
            },
            Operation::UpdateProduct { sku, .. } => {
                assert(s.catalog.contains_key(sku));
                assert(after.catalog.dom() =~= s.catalog.dom());
            },
            Operation::RecordMovement { movement } => {
                assert(s.catalog.contains_key(movement.product_sku));
                assert(after.catalog.dom() =~= s.catalog.dom());
            },
            Operation::DeleteProduct { sku } => {
                assert(after.catalog.dom() =~= s.catalog.dom().remove(sku));
            },
        }
    }
}

/// The inventory is well formed after any sequence of requests on the empty
/// inventory.
pub proof fn theorem_reachable_wf(ops: Seq<Operation>)
    requires
        all_well_formed(ops),
    ensures
        Inventory::empty().run(ops).wf(),
    decreases ops.len(),
{
    if ops.len() > 0 {
        assert(all_well_formed(ops.drop_last())) by {
            assert forall|i: int| 0 <= i < ops.drop_last().len() implies (#[trigger] ops.drop_last()[i])
                .well_formed() by {
                assert(ops[i].well_formed());
            }
        }
        theorem_reachable_wf(ops.drop_last());
        assert(ops[ops.len() - 1].well_formed());
        lemma_step_preserves_wf(Inventory::empty().run(ops.drop_last()), ops.last());
    }
}

/// SKU uniqueness: after any sequence of requests, the catalog holds at
/// most one product per SKU. Two entries of the catalog whose products have
/// the same SKU are one entry.
pub proof fn theorem_sku_unique(ops: Seq<Operation>, a: Seq<char>, b: Seq<char>)
    requires
        all_well_formed(ops),
        Inventory::empty().run(ops).has(a),
        Inventory::empty().run(ops).has(b),
        Inventory::empty().run(ops).catalog[a].sku == Inventory::empty().run(ops).catalog[b].sku,
    ensures
        a == b,
{
    theorem_reachable_wf(ops);
}

/// Stock non-negativity: after any sequence of requests, no product has a
/// negative quantity.
pub proof fn theorem_stock_non_negative(ops: Seq<Operation>, sku: Seq<char>)
    requires
        all_well_formed(ops),
    ensures
        Inventory::empty().run(ops).stock(sku) >= 0,
{
    theorem_reachable_wf(ops);
}

/// What links the catalog to the ledger after the requests `ops`: the stock
/// of each product is its opening stock plus what its movements add up to,
/// and no movement is left of a product that is not filed.
pub open spec fn balanced(ops: Seq<Operation>, sku: Seq<char>) -> bool {
    let s = Inventory::empty().run(ops);
    if s.has(sku) {
        s.stock(sku) == opening_stock(ops, sku) + total_movement(s.ledger.filter(concerns(sku)))
    } else {
        s.ledger.filter(concerns(sku)).len() == 0
    }
}

/// After any sequence of requests, the catalog and the ledger are balanced
/// for every SKU.
pub proof fn lemma_reachable_balanced(ops: Seq<Operation>, sku: Seq<char>)
    requires
        all_well_formed(ops),
    ensures
        balanced(ops, sku),
    decreases ops.len(),
{
    broadcast use Seq::lemma_filter_push;

    if ops.len() == 0 {
        Seq::<TransactionView>::empty().lemma_filter_len(concerns(sku));
    } else {
        let earlier = ops.drop_last();
        let op = ops.last();
        assert(all_well_formed(earlier)) by {
            assert forall|i: int| 0 <= i < earlier.len() implies (#[trigger] earlier[i])
                .well_formed() by {
                assert(ops[i].well_formed());
            }
        }
        lemma_reachable_balanced(earlier, sku);
        theorem_reachable_wf(earlier);
        let before = Inventory::empty().run(earlier);
        let after = before.step(op);
        if before.refusal(op) is None {
            match op {
                Operation::AddProduct { product } => {
                    if product.sku == sku {
                        assert(total_movement(before.ledger.filter(concerns(sku))) == 0);
                    }
                },
                Operation::UpdateProduct { sku: target, .. } => {
                    assert(before.catalog[target].sku == target);
                },
                Operation::RecordMovement { movement } => {
                    if movement.product_sku == sku {
                        let selected = before.ledger.filter(concerns(sku));
                        assert(after.ledger.filter(concerns(sku)) == selected.push(movement));
                        assert(selected.push(movement).drop_last() =~= selected);
                    }
                },
                Operation::DeleteProduct { sku: target } => {
                    if target == sku {
                        lemma_spared_has_none(before.ledger, sku);
                    } else {
                        lemma_spared_keeps_others(before.ledger, target, sku);
                    }
                },
            }
        }
    }
}

/// Ledger conservation: after any sequence of requests, the stock of a
/// product equals the quantity with which it was created plus the additions
/// and minus the removals of its transaction history.
pub proof fn theorem_ledger_conservation(ops: Seq<Operation>, sku: Seq<char>)
    requires
        all_well_formed(ops),
        Inventory::empty().run(ops).has(sku),
    ensures
        Inventory::empty().run(ops).stock(sku) == opening_stock(ops, sku) + total_movement(
            Inventory::empty().run(ops).history(sku),
        ),
{
    lemma_reachable_balanced(ops, sku);
    lemma_chronological_total(Inventory::empty().run(ops).ledger.filter(concerns(sku)));
}

/// Referential cleanup: after any sequence of requests, the ledger holds no
/// movement of a product that is not filed.
pub proof fn theorem_no_orphan_movements(ops: Seq<Operation>, sku: Seq<char>)
    requires
        all_well_formed(ops),
        !Inventory::empty().run(ops).has(sku),
    ensures
        Inventory::empty().run(ops).history(sku).len() == 0,
{
    lemma_reachable_balanced(ops, sku);
    let selected = Inventory::empty().run(ops).ledger.filter(concerns(sku));
    assert(selected =~= Seq::<TransactionView>::empty());
}

/// A movement that is accepted changes the stock of its product by what it
/// adds to the total of that product's movements, in any inventory.
pub proof fn lemma_movement_conserves(s: Inventory, movement: TransactionView)
    requires
        s.refusal(Operation::RecordMovement { movement }) is None,
    ensures
        ({
            let after = s.step(Operation::RecordMovement { movement });
            let sku = movement.product_sku;
            after.stock(sku) - s.stock(sku) == total_movement(after.ledger.filter(concerns(sku)))
                - total_movement(s.ledger.filter(concerns(sku)))
        }),
{
    broadcast use Seq::lemma_filter_push;

    let sku = movement.product_sku;
    let selected = s.ledger.filter(concerns(sku));
    assert(selected.push(movement).drop_last() =~= selected);
}

/// Ledger growth: a request leaves the ledger as it is, appends one
/// movement to it, or takes all movements of one product out of it; it
/// never changes a movement that is recorded.
pub proof fn lemma_ledger_grows(s: Inventory, op: Operation)
    ensures
        ({
            let after = s.step(op).ledger;
            ||| after == s.ledger
            ||| op matches Operation::RecordMovement { movement } && after == s.ledger.push(
                movement,
            )
            ||| op matches Operation::DeleteProduct { sku } && after == s.ledger.filter(
                spares(sku),
            )
        }),
{
}

/// Every movement of the ledger moves something.
pub open spec fn all_positive(ledger: Seq<TransactionView>) -> bool {
    forall|i: int| 0 <= i < ledger.len() ==> (#[trigger] ledger[i]).quantity > 0
}

/// After any sequence of requests, every movement of the ledger has a
/// quantity above zero.
pub proof fn theorem_movements_positive(ops: Seq<Operation>)
    requires
        all_well_formed(ops),
    ensures
        all_positive(Inventory::empty().run(ops).ledger),
    decreases ops.len(),
{
    if ops.len() > 0 {
        let earlier = ops.drop_last();
        let op = ops.last();
        assert(all_well_formed(earlier)) by {
            assert forall|i: int| 0 <= i < earlier.len() implies (#[trigger] earlier[i])
                .well_formed() by {
                assert(ops[i].well_formed());
            }
        }
        theorem_movements_positive(earlier);
        assert(ops[ops.len() - 1].well_formed());
        let before = Inventory::empty().run(earlier);
        let after = before.step(op);
        if before.refusal(op) is None {
            if let Operation::DeleteProduct { sku } = op {
                assert forall|i: int| 0 <= i < after.ledger.len() implies (#[trigger] after.ledger[i])
                    .quantity > 0 by {
                    before.ledger.lemma_filter_contains_rev(spares(sku), after.ledger[i]);
                    let k = choose|k: int|
                        0 <= k < before.ledger.len() && before.ledger[k] == after.ledger[i];
                    assert(before.ledger[k].quantity > 0);
                }
            }
        }
    }
}

/// History ordering: the history of a product is in order of time.
pub proof fn lemma_history_ordered(s: Inventory, sku: Seq<char>)
    ensures
        is_chronological(s.history(sku)),
{
    lemma_chronological_ordered(s.ledger.filter(concerns(sku)));
}

/// Range filter correctness: the history of a product between two instants
/// is its history, cut down to the movements recorded from the first
/// instant to the second.
pub proof fn lemma_history_between(s: Inventory, sku: Seq<char>, start: Timestamp, end: Timestamp)
    ensures
        s.history_between(sku, start, end) == s.history(sku).filter(falls_within(start, end)),
{
    lemma_chronological_filter(s.ledger.filter(concerns(sku)), falls_within(start, end));
}

/// Delete purges history: once a product is deleted, no product is filed
/// under its SKU and its history is empty.
pub proof fn lemma_delete_purges(s: Inventory, sku: Seq<char>)
    requires
        s.has(sku),
    ensures
        !s.step(Operation::DeleteProduct { sku }).has(sku),
        s.step(Operation::DeleteProduct { sku }).history(sku) == Seq::<TransactionView>::empty(),
{
    lemma_spared_has_none(s.ledger, sku);
    let left = s.ledger.filter(spares(sku)).filter(concerns(sku));
    assert(chronological(left) =~= Seq::<TransactionView>::empty());
}

/// Deleting a product leaves every other product and its history as they
/// are.
pub proof fn lemma_delete_spares_others(s: Inventory, sku: Seq<char>, other: Seq<char>)
    requires
        other != sku,
    ensures
        s.step(Operation::DeleteProduct { sku }).has(other) == s.has(other),
        s.step(Operation::DeleteProduct { sku }).stock(other) == s.stock(other),
        s.step(Operation::DeleteProduct { sku }).history(other) == s.history(other),
{
    lemma_spared_keeps_others(s.ledger, sku, other);
}

/// An update that gives no field is no change: it leaves the catalog and
/// the ledger as they are.
pub proof fn lemma_update_nothing(s: Inventory, sku: Seq<char>)
    requires
        s.wf(),
    ensures
        s.step(
            Operation::UpdateProduct { sku, name: None, description: None, reorder_point: None },
        ) == s,
{
    let op = Operation::UpdateProduct { sku, name: None, description: None, reorder_point: None };
    if s.refusal(op) is None {
        assert(s.catalog.contains_key(sku));
        assert(s.step(op).catalog =~= s.catalog);
    }
}

/// An update never changes the stock on hand of any product.
pub proof fn lemma_update_keeps_stock(
    s: Inventory,
    sku: Seq<char>,
    name: Option<Seq<char>>,
    description: Option<Seq<char>>,
    reorder_point: Option<int>,
    other: Seq<char>,
)
    requires
        s.wf(),
    ensures
        s.step(Operation::UpdateProduct { sku, name, description, reorder_point }).stock(other)
            == s.stock(other),
        s.step(Operation::UpdateProduct { sku, name, description, reorder_point }).ledger
            == s.ledger,
{
    let op = Operation::UpdateProduct { sku, name, description, reorder_point };
    if s.refusal(op) is None {
        assert(s.catalog.contains_key(sku));
    }
}

} // verus!
