//! Tables of rows, and the three things done to them: selecting the rows that
//! a query hits, finding the first of them, and removing them.

use vstd::prelude::*;

verus! {

/// A value that can be copied. Its view, here called its image, is what
/// contracts speak of, and a copy has the image of the original.
pub trait Record: View + Sized {
    fn copy(&self) -> (r: Self)
        ensures
            r.view() == self.view(),
    ;
}

/// A row of a table. A query of the table either hits its image or does not.
pub trait Row: Record {
    type Query: View;

    spec fn hit(image: Self::V, query: <Self::Query as View>::V) -> bool;

    fn hits(&self, query: &Self::Query) -> (r: bool)
        ensures
            r == Self::hit(self.view(), query.view()),
    ;
}

/// A row that can be changed in place. A change says which fields get which
/// new values.
pub trait Amend: Row {
    type Change: View;

    spec fn changed(image: Self::V, change: <Self::Change as View>::V) -> Self::V;

    fn amend(self, change: &Self::Change) -> (r: Self)
        ensures
            r.view() == Self::changed(self.view(), change.view()),
    ;
}

/// The images of the rows of a table, in the table's order.
pub open spec fn images<T: View>(rows: Seq<T>) -> Seq<T::V> {
    rows.map_values(|row: T| row.view())
}

/// The images that a query hits.
pub open spec fn hitting<T: Row>(query: <T::Query as View>::V) -> spec_fn(T::V) -> bool {
    |image: T::V| T::hit(image, query)
}

/// The images that a query misses.
pub open spec fn missing<T: Row>(query: <T::Query as View>::V) -> spec_fn(T::V) -> bool {
    |image: T::V| !T::hit(image, query)
}

/// The rows of a table that a query hits, in the table's order.
pub open spec fn selected<T: Row>(table: Seq<T::V>, query: <T::Query as View>::V) -> Seq<T::V> {
    table.filter(hitting::<T>(query))
}

/// The rows of a table that a query leaves in place.
pub open spec fn remaining<T: Row>(table: Seq<T::V>, query: <T::Query as View>::V) -> Seq<T::V> {
    table.filter(missing::<T>(query))
}

/// The first row of a table that a query hits.
pub open spec fn first_hit<T: Row>(table: Seq<T::V>, query: <T::Query as View>::V) -> Option<T::V> {
    let hits = selected::<T>(table, query);
    if hits.len() > 0 {
        Some(hits[0])
    } else {
        None
    }
}

/// Filtering a sequence that ends in `last` filters what stands before it and
/// then decides on `last`.
pub proof fn filter_step<A>(s: Seq<A>, last: A, keep: spec_fn(A) -> bool)
    ensures
        s.push(last).filter(keep) == if keep(last) {
            s.filter(keep).push(last)
        } else {
            s.filter(keep)
        },
{
    reveal(Seq::filter);
    assert(s.push(last).drop_last() =~= s);
}

/// A filter that keeps no element of a sequence leaves nothing.
pub proof fn filter_none<A>(s: Seq<A>, keep: spec_fn(A) -> bool)
    requires
        forall|i: int| 0 <= i < s.len() ==> !keep(#[trigger] s[i]),
    ensures
        s.filter(keep).len() == 0,
    decreases s.len(),
{
    reveal(Seq::filter);
    if s.len() > 0 {
        assert forall|i: int| 0 <= i < s.drop_last().len() implies !keep(
            #[trigger] s.drop_last()[i],
        ) by {
            assert(s.drop_last()[i] == s[i]);
        }
        filter_none(s.drop_last(), keep);
    }
}

/// A filter that leaves nothing of a sequence keeps none of its elements.
pub proof fn filter_empty<A>(s: Seq<A>, keep: spec_fn(A) -> bool)
    requires
        s.filter(keep).len() == 0,
    ensures
        forall|i: int| 0 <= i < s.len() ==> !keep(#[trigger] s[i]),
    decreases s.len(),
{
    reveal(Seq::filter);
    if s.len() > 0 {
        filter_empty(s.drop_last(), keep);
        assert forall|i: int| 0 <= i < s.len() implies !keep(#[trigger] s[i]) by {
            if i < s.len() - 1 {
                assert(s.drop_last()[i] == s[i]);
            }
        }
    }
}

/// What a filter leaves starts with the first element that it keeps.
pub proof fn filter_first<A>(s: Seq<A>, keep: spec_fn(A) -> bool, at: int)
    requires
        0 <= at < s.len(),
        keep(s[at]),
        forall|j: int| 0 <= j < at ==> !keep(#[trigger] s[j]),
    ensures
        s.filter(keep).len() > 0,
        s.filter(keep)[0] == s[at],
    decreases s.len(),
{
    reveal(Seq::filter);
    let rest = s.drop_last();
    if at == s.len() - 1 {
        assert forall|i: int| 0 <= i < rest.len() implies !keep(#[trigger] rest[i]) by {
            assert(rest[i] == s[i]);
        }
        filter_none(rest, keep);
    } else {
        assert(rest[at] == s[at]);
        assert forall|j: int| 0 <= j < at implies !keep(#[trigger] rest[j]) by {
            assert(rest[j] == s[j]);
        }
        filter_first(rest, keep, at);
    }
}

/// Where what a filter leaves is not empty: the place of the first element
/// that the filter keeps.
pub proof fn filter_head<A>(s: Seq<A>, keep: spec_fn(A) -> bool) -> (at: int)
    requires
        s.filter(keep).len() > 0,
    ensures
        0 <= at < s.len(),
        keep(s[at]),
        forall|j: int| 0 <= j < at ==> !keep(#[trigger] s[j]),
        s.filter(keep)[0] == s[at],
    decreases s.len(),
{
    reveal(Seq::filter);
    let rest = s.drop_last();
    if rest.filter(keep).len() > 0 {
        let at = filter_head(rest, keep);
        assert(rest[at] == s[at]);
        assert forall|j: int| 0 <= j < at implies !keep(#[trigger] s[j]) by {
            assert(rest[j] == s[j]);
        }
        at
    } else {
        filter_empty(rest, keep);
        assert forall|j: int| 0 <= j < s.len() - 1 implies !keep(#[trigger] s[j]) by {
            assert(rest[j] == s[j]);
        }
        s.len() - 1
    }
}

/// What a filter leaves holds just the elements of the sequence that it
/// keeps.
pub proof fn filter_holds<A>(s: Seq<A>, keep: spec_fn(A) -> bool, x: A)
    ensures
        s.filter(keep).contains(x) <==> s.contains(x) && keep(x),
{
    if s.filter(keep).contains(x) {
        let i = choose|i: int| 0 <= i < s.filter(keep).len() && s.filter(keep)[i] == x;
        s.lemma_filter_pred(keep, i);
        s.lemma_filter_contains_rev(keep, x);
    }
    if s.contains(x) && keep(x) {
        let i = choose|i: int| 0 <= i < s.len() && s[i] == x;
        s.lemma_filter_contains(keep, i);
    }
}

/// The first row that a query hits is the first row of the table that it
/// hits.
pub proof fn first_hit_at<T: Row>(table: Seq<T::V>, query: <T::Query as View>::V, at: int)
    requires
        0 <= at < table.len(),
        T::hit(table[at], query),
        forall|j: int| 0 <= j < at ==> !T::hit(#[trigger] table[j], query),
    ensures
        first_hit::<T>(table, query) == Some(table[at]),
{
    filter_first(table, hitting::<T>(query), at);
}

/// A query that hits no row finds none.
pub proof fn first_hit_none<T: Row>(table: Seq<T::V>, query: <T::Query as View>::V)
    requires
        forall|j: int| 0 <= j < table.len() ==> !T::hit(#[trigger] table[j], query),
    ensures
        first_hit::<T>(table, query) is None,
        selected::<T>(table, query).len() == 0,
{
    filter_none(table, hitting::<T>(query));
}

/// Where a query finds a row: the place of the first row that it hits. Where
/// it finds none, the result is the table's length and no row is hit.
pub proof fn first_hit_place<T: Row>(table: Seq<T::V>, query: <T::Query as View>::V) -> (at: int)
    ensures
        0 <= at <= table.len(),
        forall|j: int| 0 <= j < at ==> !T::hit(#[trigger] table[j], query),
        at < table.len() ==> T::hit(table[at], query) && first_hit::<T>(table, query) == Some(
            table[at],
        ),
        at == table.len() ==> first_hit::<T>(table, query) is None,
{
    if selected::<T>(table, query).len() > 0 {
        filter_head(table, hitting::<T>(query))
    } else {
        filter_empty(table, hitting::<T>(query));
        table.len() as int
    }
}

/// What a query finds once a row has been appended: what it found before,
/// or else the new row, if the query hits it.
pub proof fn first_hit_pushed<T: Row>(table: Seq<T::V>, row: T::V, query: <T::Query as View>::V)
    ensures
        first_hit::<T>(table.push(row), query) == match first_hit::<T>(table, query) {
            Some(found) => Some(found),
            None => if T::hit(row, query) {
                Some(row)
            } else {
                None
            },
        },
{
    let at = first_hit_place::<T>(table, query);
    let longer = table.push(row);
    assert forall|j: int| 0 <= j < at implies !T::hit(#[trigger] longer[j], query) by {
        assert(longer[j] == table[j]);
    }
    if at < table.len() {
        assert(longer[at] == table[at]);
        first_hit_at::<T>(longer, query, at);
    } else if T::hit(row, query) {
        first_hit_at::<T>(longer, query, at);
    } else {
        first_hit_none::<T>(longer, query);
    }
}

/// Once the rows that a query hits are removed, a query that hits only such
/// rows finds none.
pub proof fn none_left<T: Row>(
    table: Seq<T::V>,
    gone: <T::Query as View>::V,
    query: <T::Query as View>::V,
)
    requires
        forall|row: T::V| #[trigger] T::hit(row, query) ==> T::hit(row, gone),
    ensures
        first_hit::<T>(remaining::<T>(table, gone), query) is None,
        selected::<T>(remaining::<T>(table, gone), query).len() == 0,
{
    let left = remaining::<T>(table, gone);
    assert forall|j: int| 0 <= j < left.len() implies !T::hit(#[trigger] left[j], query) by {
        table.lemma_filter_pred(missing::<T>(gone), j);
    }
    first_hit_none::<T>(left, query);
}

/// What a query finds once rows have been changed, where the change leaves
/// what the query looks at alone: the row that it found before, changed if
/// the change applies to it.
pub proof fn first_hit_amended<T: Amend>(
    table: Seq<T::V>,
    target: <T::Query as View>::V,
    change: <T::Change as View>::V,
    query: <T::Query as View>::V,
)
    requires
        forall|row: T::V| T::hit(#[trigger] T::changed(row, change), query) == T::hit(row, query),
    ensures
        first_hit::<T>(amended::<T>(table, target, change), query) == match first_hit::<T>(
            table,
            query,
        ) {
            Some(found) => Some(
                if T::hit(found, target) {
                    T::changed(found, change)
                } else {
                    found
                },
            ),
            None => None,
        },
{
    let at = first_hit_place::<T>(table, query);
    let after = amended::<T>(table, target, change);
    assert forall|j: int| 0 <= j < at implies !T::hit(#[trigger] after[j], query) by {
        assert(!T::hit(table[j], query));
    }
    if at < table.len() {
        first_hit_at::<T>(after, query, at);
    } else {
        first_hit_none::<T>(after, query);
    }
}

/// The rows that a query hits, copied out in the table's order.
pub fn select<T: Row>(rows: &Vec<T>, query: &T::Query) -> (out: Vec<T>)
    ensures
        images(out@) == selected::<T>(images(rows@), query@),
{
    let mut out: Vec<T> = Vec::new();
    let mut i: usize = 0;
    proof {
        assert(images(rows@).take(0) =~= Seq::<T::V>::empty());
        assert(images(out@) =~= Seq::<T::V>::empty());
        reveal(Seq::filter);
    }
    while i < rows.len()
        invariant
            i <= rows.len(),
            images(out@) == selected::<T>(images(rows@).take(i as int), query@),
        decreases rows.len() - i,
    {
        proof {
            filter_step(images(rows@).take(i as int), rows[i as int].view(), hitting::<T>(query@));
            assert(images(rows@).take(i as int).push(rows[i as int].view()) =~= images(
                rows@,
            ).take(i + 1));
        }
        if rows[i].hits(query) {
            let row = rows[i].copy();
            proof {
                assert(images(out@.push(row)) =~= images(out@).push(row.view()));
            }
            out.push(row);
        }
        i += 1;
    }
    proof {
        assert(images(rows@).take(rows.len() as int) =~= images(rows@));
    }
    out
}

/// The first row that a query hits, copied out.
pub fn first<T: Row>(rows: &Vec<T>, query: &T::Query) -> (found: Option<T>)
    ensures
        match found {
            Some(row) => first_hit::<T>(images(rows@), query@) == Some(row.view()),
            None => first_hit::<T>(images(rows@), query@) is None,
        },
{
    let mut i: usize = 0;
    proof {
        assert(images(rows@).take(0) =~= Seq::<T::V>::empty());
        reveal(Seq::filter);
    }
    while i < rows.len()
        invariant
            i <= rows.len(),
            selected::<T>(images(rows@).take(i as int), query@).len() == 0,
        decreases rows.len() - i,
    {
        let ghost head = images(rows@).take(i as int);
        proof {
            filter_step(head, rows[i as int].view(), hitting::<T>(query@));
            assert(head.push(rows[i as int].view()) =~= images(rows@).take(i + 1));
        }
        if rows[i].hits(query) {
            proof {
                let front = images(rows@).take(i + 1);
                let back = images(rows@).skip(i + 1);
                assert(front + back =~= images(rows@));
                Seq::filter_distributes_over_add(front, back, hitting::<T>(query@));
            }
            return Some(rows[i].copy());
        }
        i += 1;
    }
    proof {
        assert(images(rows@).take(rows.len() as int) =~= images(rows@));
    }
    None
}

/// How many rows a query hits.
pub fn count<T: Row>(rows: &Vec<T>, query: &T::Query) -> (n: usize)
    ensures
        n == selected::<T>(images(rows@), query@).len(),
{
    let mut n: usize = 0;
    let mut i: usize = 0;
    proof {
        assert(images(rows@).take(0) =~= Seq::<T::V>::empty());
        reveal(Seq::filter);
    }
    while i < rows.len()
        invariant
            i <= rows.len(),
            n <= i,
            n == selected::<T>(images(rows@).take(i as int), query@).len(),
        decreases rows.len() - i,
    {
        proof {
            filter_step(images(rows@).take(i as int), rows[i as int].view(), hitting::<T>(query@));
            assert(images(rows@).take(i as int).push(rows[i as int].view()) =~= images(
                rows@,
            ).take(i + 1));
        }
        if rows[i].hits(query) {
            n += 1;
        }
        i += 1;
    }
    proof {
        assert(images(rows@).take(rows.len() as int) =~= images(rows@));
    }
    n
}

/// Removes the rows that a query hits and says how many they were. The other
/// rows keep their order.
pub fn remove<T: Row>(rows: &mut Vec<T>, query: &T::Query) -> (removed: usize)
    ensures
        images(final(rows)@) == remaining::<T>(images(old(rows)@), query@),
        removed == selected::<T>(images(old(rows)@), query@).len(),
{
    let mut kept: Vec<T> = Vec::new();
    let mut removed: usize = 0;
    let mut i: usize = 0;
    proof {
        assert(images(rows@).take(0) =~= Seq::<T::V>::empty());
        assert(images(kept@) =~= Seq::<T::V>::empty());
        reveal(Seq::filter);
    }
    while i < rows.len()
        invariant
            i <= rows.len(),
            removed <= i,
            removed == selected::<T>(images(rows@).take(i as int), query@).len(),
            images(kept@) == remaining::<T>(images(rows@).take(i as int), query@),
        decreases rows.len() - i,
    {
        proof {
            filter_step(images(rows@).take(i as int), rows[i as int].view(), hitting::<T>(query@));
            filter_step(images(rows@).take(i as int), rows[i as int].view(), missing::<T>(query@));
            assert(images(rows@).take(i as int).push(rows[i as int].view()) =~= images(
                rows@,
            ).take(i + 1));
        }
        if rows[i].hits(query) {
            removed += 1;
        } else {
            let row = rows[i].copy();
            proof {
                assert(images(kept@.push(row)) =~= images(kept@).push(row.view()));
            }
            kept.push(row);
        }
        i += 1;
    }
    proof {
        assert(images(rows@).take(rows.len() as int) =~= images(rows@));
    }
    *rows = kept;
    removed
}

/// A table in which every row that a query hits has been changed.
pub open spec fn amended<T: Amend>(
    table: Seq<T::V>,
    query: <T::Query as View>::V,
    change: <T::Change as View>::V,
) -> Seq<T::V> {
    table.map_values(
        |image: T::V|
            if T::hit(image, query) {
                T::changed(image, change)
            } else {
                image
            },
    )
}

/// Changes every row that a query hits and says how many they were.
pub fn update<T: Amend>(rows: &mut Vec<T>, query: &T::Query, change: &T::Change) -> (n: usize)
    ensures
        images(final(rows)@) == amended::<T>(images(old(rows)@), query@, change@),
        n == selected::<T>(images(old(rows)@), query@).len(),
{
    let mut next: Vec<T> = Vec::new();
    let mut n: usize = 0;
    let mut i: usize = 0;
    proof {
        assert(images(rows@).take(0) =~= Seq::<T::V>::empty());
        assert(images(next@) =~= Seq::<T::V>::empty());
        assert(amended::<T>(images(rows@).take(0), query@, change@) =~= Seq::<T::V>::empty());
        reveal(Seq::filter);
    }
    while i < rows.len()
        invariant
            i <= rows.len(),
            n <= i,
            n == selected::<T>(images(rows@).take(i as int), query@).len(),
            images(next@) == amended::<T>(images(rows@).take(i as int), query@, change@),
        decreases rows.len() - i,
    {
        proof {
            filter_step(images(rows@).take(i as int), rows[i as int].view(), hitting::<T>(query@));
            assert(images(rows@).take(i as int).push(rows[i as int].view()) =~= images(
                rows@,
            ).take(i + 1));
        }
        let row = rows[i].copy();
        let row = if row.hits(query) {
            n += 1;
            row.amend(change)
        } else {
            row
        };
        proof {
            assert(images(next@.push(row)) =~= images(next@).push(row.view()));
            assert(amended::<T>(images(rows@).take(i + 1), query@, change@) =~= amended::<T>(
                images(rows@).take(i as int),
                query@,
                change@,
            ).push(row.view()));
        }
        next.push(row);
        i += 1;
    }
    proof {
        assert(images(rows@).take(rows.len() as int) =~= images(rows@));
    }
    *rows = next;
    n
}

/// Whether a list of texts holds a text.
pub fn holds_text(texts: &Vec<String>, text: &str) -> (found: bool)
    ensures
        found == texts.deep_view().contains(text@),
{
    let mut i: usize = 0;
    while i < texts.len()
        invariant
            i <= texts.len(),
            forall|j: int| 0 <= j < i ==> texts.deep_view()[j] != text@,
        decreases texts.len() - i,
    {
        if crate::util::text::str_eq(texts[i].as_str(), text) {
            assert(texts.deep_view()[i as int] == text@);
            return true;
        }
        i += 1;
    }
    false
}

} // verus!
