//! Putting rows in order.

use crate::store::table::{images, Record};
use vstd::prelude::*;

verus! {

/// A row that can be put in order. `before(a, b, order)` says that `a` may
/// stand before `b` in the given order.
pub trait Ranked: Record {
    type Order;

    spec fn before(a: Self::V, b: Self::V, order: Self::Order) -> bool;

    fn comes_before(&self, other: &Self, order: &Self::Order) -> (r: bool)
        ensures
            r == Self::before(self.view(), other.view(), *order),
    ;
}

/// A sorted sequence with one more row put in its place: behind the last row
/// that may stand before it.
pub open spec fn placed<T: Ranked>(sorted: Seq<T::V>, row: T::V, order: T::Order) -> Seq<T::V>
    decreases sorted.len(),
{
    if sorted.len() == 0 || T::before(sorted.last(), row, order) {
        sorted.push(row)
    } else {
        placed::<T>(sorted.drop_last(), row, order).push(sorted.last())
    }
}

/// The rows put in order, one after the other. Rows that tie keep the order
/// in which they came.
pub open spec fn ranked<T: Ranked>(rows: Seq<T::V>, order: T::Order) -> Seq<T::V>
    decreases rows.len(),
{
    if rows.len() == 0 {
        rows
    } else {
        placed::<T>(ranked::<T>(rows.drop_last(), order), rows.last(), order)
    }
}

/// Where a row is placed: at the position behind which no row may stand
/// before it and in front of which one does.
pub proof fn placed_at<T: Ranked>(sorted: Seq<T::V>, row: T::V, order: T::Order, at: int)
    requires
        0 <= at <= sorted.len(),
        at == 0 || T::before(sorted[at - 1], row, order),
        forall|j: int| at <= j < sorted.len() ==> !T::before(sorted[j], row, order),
    ensures
        placed::<T>(sorted, row, order) == sorted.insert(at, row),
    decreases sorted.len(),
{
    if at == sorted.len() {
        assert(sorted.push(row) =~= sorted.insert(at, row));
    } else {
        placed_at::<T>(sorted.drop_last(), row, order, at);
        assert(sorted.drop_last().insert(at, row).push(sorted.last()) =~= sorted.insert(at, row));
    }
}

/// Placing a row adds it and nothing else.
pub proof fn placed_rows<T: Ranked>(sorted: Seq<T::V>, row: T::V, order: T::Order)
    ensures
        placed::<T>(sorted, row, order).to_multiset() == sorted.to_multiset().insert(row),
        placed::<T>(sorted, row, order).len() == sorted.len() + 1,
    decreases sorted.len(),
{
    broadcast use vstd::seq_lib::group_to_multiset_ensures;

    if sorted.len() == 0 || T::before(sorted.last(), row, order) {
    } else {
        placed_rows::<T>(sorted.drop_last(), row, order);
        assert(sorted.drop_last().push(sorted.last()) =~= sorted);
        assert(sorted.drop_last().to_multiset().insert(row).insert(sorted.last())
            =~= sorted.drop_last().to_multiset().insert(sorted.last()).insert(row));
    }
}

/// Putting rows in order neither adds a row nor loses one: the rows in order
/// are the rows that were given, each as often as it was given.
pub proof fn ranked_rows<T: Ranked>(rows: Seq<T::V>, order: T::Order)
    ensures
        ranked::<T>(rows, order).to_multiset() == rows.to_multiset(),
        ranked::<T>(rows, order).len() == rows.len(),
    decreases rows.len(),
{
    broadcast use vstd::seq_lib::group_to_multiset_ensures;

    if rows.len() > 0 {
        ranked_rows::<T>(rows.drop_last(), order);
        placed_rows::<T>(ranked::<T>(rows.drop_last(), order), rows.last(), order);
        assert(rows.drop_last().push(rows.last()) =~= rows);
    }
}

/// The rows in order hold just the rows that were given.
pub proof fn ranked_holds<T: Ranked>(rows: Seq<T::V>, order: T::Order, row: T::V)
    ensures
        ranked::<T>(rows, order).contains(row) <==> rows.contains(row),
{
    ranked_rows::<T>(rows, order);
    ranked::<T>(rows, order).to_multiset_ensures();
    rows.to_multiset_ensures();
    assert(rows.contains(row) <==> rows.to_multiset().count(row) > 0);
    assert(ranked::<T>(rows, order).contains(row) <==> ranked::<T>(rows, order).to_multiset().count(
        row,
    ) > 0);
}

/// Whether each row of a sequence may stand before every row behind it.
pub open spec fn in_order<T: Ranked>(rows: Seq<T::V>, order: T::Order) -> bool {
    forall|i: int, j: int|
        0 <= i < j < rows.len() ==> T::before(#[trigger] rows[i], #[trigger] rows[j], order)
}

/// Whether an order compares every two rows and is transitive.
pub open spec fn is_total<T: Ranked>(order: T::Order) -> bool {
    &&& forall|a: T::V, b: T::V| #[trigger] T::before(a, b, order) || T::before(b, a, order)
    &&& forall|a: T::V, b: T::V, c: T::V|
        #[trigger] T::before(a, b, order) && #[trigger] T::before(b, c, order) ==> T::before(
            a,
            c,
            order,
        )
}

/// Placing a row in a sequence that is in order leaves it in order.
pub proof fn placed_in_order<T: Ranked>(sorted: Seq<T::V>, row: T::V, order: T::Order)
    requires
        is_total::<T>(order),
        in_order::<T>(sorted, order),
    ensures
        in_order::<T>(placed::<T>(sorted, row, order), order),
    decreases sorted.len(),
{
    broadcast use vstd::seq_lib::group_to_multiset_ensures;

    let out = placed::<T>(sorted, row, order);
    if sorted.len() == 0 {
    } else if T::before(sorted.last(), row, order) {
        assert forall|i: int, j: int| 0 <= i < j < out.len() implies T::before(
            #[trigger] out[i],
            #[trigger] out[j],
            order,
        ) by {
            if j == sorted.len() {
                if i < sorted.len() - 1 {
                    assert(T::before(sorted[i], sorted.last(), order));
                }
            }
        }
    } else {
        let rest = sorted.drop_last();
        let inner = placed::<T>(rest, row, order);
        assert(in_order::<T>(rest, order)) by {
            assert forall|i: int, j: int| 0 <= i < j < rest.len() implies T::before(
                #[trigger] rest[i],
                #[trigger] rest[j],
                order,
            ) by {
                assert(rest[i] == sorted[i] && rest[j] == sorted[j]);
            }
        }
        placed_in_order::<T>(rest, row, order);
        placed_rows::<T>(rest, row, order);
        assert(T::before(row, sorted.last(), order));
        assert forall|i: int, j: int| 0 <= i < j < out.len() implies T::before(
            #[trigger] out[i],
            #[trigger] out[j],
            order,
        ) by {
            if j == inner.len() {
                assert(inner.contains(inner[i]));
                assert(inner.to_multiset().count(inner[i]) > 0);
                if inner[i] != row {
                    assert(rest.to_multiset().count(inner[i]) > 0);
                    assert(rest.contains(inner[i]));
                    let k = choose|k: int| 0 <= k < rest.len() && rest[k] == inner[i];
                    assert(sorted[k] == inner[i]);
                    assert(T::before(sorted[k], sorted[sorted.len() - 1], order));
                }
            } else {
                assert(out[i] == inner[i] && out[j] == inner[j]);
            }
        }
    }
}

/// The rows put in a total order are in order.
pub proof fn ranked_in_order<T: Ranked>(rows: Seq<T::V>, order: T::Order)
    requires
        is_total::<T>(order),
    ensures
        in_order::<T>(ranked::<T>(rows, order), order),
    decreases rows.len(),
{
    if rows.len() > 0 {
        ranked_in_order::<T>(rows.drop_last(), order);
        placed_in_order::<T>(ranked::<T>(rows.drop_last(), order), rows.last(), order);
    }
}

/// Puts one more row in its place in a sorted table.
pub fn place<T: Ranked>(sorted: &mut Vec<T>, row: T, order: &T::Order)
    ensures
        images(final(sorted)@) == placed::<T>(images(old(sorted)@), row.view(), *order),
{
    let mut at: usize = sorted.len();
    let mut found: bool = false;
    while at > 0 && !found
        invariant
            at <= sorted.len(),
            forall|j: int|
                at <= j < sorted.len() ==> !T::before(sorted[j].view(), row.view(), *order),
            found ==> at > 0 && T::before(sorted[at - 1].view(), row.view(), *order),
        decreases at + (if found { 0int } else { 1int }),
    {
        if sorted[at - 1].comes_before(&row, order) {
            found = true;
        } else {
            at -= 1;
        }
    }
    proof {
        placed_at::<T>(images(sorted@), row.view(), *order, at as int);
        assert(images(sorted@.insert(at as int, row)) =~= images(sorted@).insert(
            at as int,
            row.view(),
        ));
    }
    sorted.insert(at, row);
}

/// The rows of a table, copied out in order.
pub fn sort<T: Ranked>(rows: &Vec<T>, order: &T::Order) -> (sorted: Vec<T>)
    ensures
        images(sorted@) == ranked::<T>(images(rows@), *order),
{
    let mut sorted: Vec<T> = Vec::new();
    let mut i: usize = 0;
    proof {
        assert(images(rows@).take(0) =~= Seq::<T::V>::empty());
        assert(images(sorted@) =~= Seq::<T::V>::empty());
    }
    while i < rows.len()
        invariant
            i <= rows.len(),
            images(sorted@) == ranked::<T>(images(rows@).take(i as int), *order),
        decreases rows.len() - i,
    {
        proof {
            let next = images(rows@).take(i + 1);
            assert(next.drop_last() =~= images(rows@).take(i as int));
            assert(next.last() == rows[i as int].view());
        }
        place(&mut sorted, rows[i].copy(), order);
        i += 1;
    }
    proof {
        assert(images(rows@).take(rows.len() as int) =~= images(rows@));
    }
    sorted
}

} // verus!
