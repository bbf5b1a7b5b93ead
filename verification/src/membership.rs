//! The membership semantics of the lookup argument.
//!
//! A lookup over a loaded table accepts a sequence of witnessed rows exactly
//! when every witnessed row is an element of the table. The functions and
//! lemmas here state that decision and its consequences: duplicate table rows
//! are harmless, the order of the table rows is irrelevant, and an empty table
//! rejects every nonempty witness.

use vstd::prelude::*;

use crate::chip::LookupError;
use crate::table::TableRow;

verus! {

/// The rows that the loader materializes from `xs` and `ys`: row `i` is
/// `(xs[i], ys[i])`. Rejects sequences of unequal length exactly as the
/// loader does, so the decision of the lookup argument on a witness can be
/// predicted with [`witness_in_table`].
pub fn table_rows(xs: &Vec<u8>, ys: &Vec<u8>) -> (r: Result<Vec<TableRow>, LookupError>)
    ensures
        xs@.len() == ys@.len() <==> r is Ok,
        r matches Ok(rows) ==> rows@.len() == xs@.len() && forall|i: int|
            0 <= i < rows@.len() ==> rows@[i] == (TableRow { x: xs@[i], y: ys@[i] }),
        r matches Err(e) ==> e == (LookupError::ShapeMismatch {
            xs_len: xs@.len() as usize,
            ys_len: ys@.len() as usize,
        }),
{
    if xs.len() != ys.len() {
        return Err(LookupError::ShapeMismatch { xs_len: xs.len(), ys_len: ys.len() });
    }
    let mut rows: Vec<TableRow> = Vec::new();
    let mut i: usize = 0;
    while i < xs.len()
        invariant
            xs@.len() == ys@.len(),
            0 <= i <= xs@.len(),
            rows@.len() == i,
            forall|k: int| 0 <= k < i ==> rows@[k] == (TableRow { x: xs@[k], y: ys@[k] }),
        decreases xs@.len() - i,
    {
        rows.push(TableRow::new(xs[i], ys[i]));
        i += 1;
    }
    Ok(rows)
}

/// The decision of the lookup argument: every witnessed row occurs in the table.
pub open spec fn accepts(table: Seq<TableRow>, witness: Seq<TableRow>) -> bool {
    forall|i: int| 0 <= i < witness.len() ==> table.contains(#[trigger] witness[i])
}

/// Decides whether every witnessed row occurs in the table: the condition a
/// surrounding circuit must uphold for the proof to verify.
pub fn witness_in_table(table: &Vec<TableRow>, witness: &Vec<TableRow>) -> (r: bool)
    ensures
        r == accepts(table@, witness@),
{
    let mut i: usize = 0;
    while i < witness.len()
        invariant
            0 <= i <= witness@.len(),
            forall|k: int| 0 <= k < i ==> table@.contains(#[trigger] witness@[k]),
        decreases witness@.len() - i,
    {
        if !row_in_table(table, &witness[i]) {
            return false;
        }
        i += 1;
    }
    true
}

/// Decides whether one row occurs in the table.
pub fn row_in_table(table: &Vec<TableRow>, row: &TableRow) -> (r: bool)
    ensures
        r == table@.contains(*row),
{
    let mut i: usize = 0;
    while i < table.len()
        invariant
            0 <= i <= table@.len(),
            forall|k: int| 0 <= k < i ==> table@[k] != *row,
        decreases table@.len() - i,
    {
        if table[i].x == row.x && table[i].y == row.y {
            assert(table@[i as int] == *row);
            return true;
        }
        i += 1;
    }
    false
}

/// Duplicate table rows are harmless: two tables holding the same rows —
/// however often each — accept exactly the same witnesses.
pub proof fn lemma_duplicates_harmless(t1: Seq<TableRow>, t2: Seq<TableRow>, w: Seq<TableRow>)
    requires
        forall|r: TableRow| t1.contains(r) <==> t2.contains(r),
    ensures
        accepts(t1, w) == accepts(t2, w),
{
}

/// The order of the table rows is irrelevant: permuting the loaded table
/// does not change which witnesses are accepted.
pub proof fn lemma_row_order_irrelevant(t1: Seq<TableRow>, t2: Seq<TableRow>, w: Seq<TableRow>)
    requires
        t1.to_multiset() == t2.to_multiset(),
    ensures
        accepts(t1, w) == accepts(t2, w),
{
    t1.to_multiset_ensures();
    t2.to_multiset_ensures();
    assert forall|r: TableRow| t1.contains(r) <==> t2.contains(r) by {
        assert(t1.contains(r) <==> t1.to_multiset().count(r) > 0);
        assert(t2.contains(r) <==> t2.to_multiset().count(r) > 0);
    }
    lemma_duplicates_harmless(t1, t2, w);
}

/// An empty table rejects every nonempty witness sequence.
pub proof fn lemma_empty_table_rejects(w: Seq<TableRow>)
    requires
        w.len() > 0,
    ensures
        !accepts(Seq::<TableRow>::empty(), w),
{
    assert(!Seq::<TableRow>::empty().contains(w[0]));
}

} // verus!
