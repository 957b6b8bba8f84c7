//! Facts about filtered sequences.

use vstd::prelude::*;

verus! {

/// Filtering keeps the order of what it keeps: two rows of the result stand
/// in the same order in the sequence that was filtered.
pub proof fn lemma_filter_keeps_order<A>(rows: Seq<A>, keep: spec_fn(A) -> bool, i: int, j: int)
    requires
        0 <= i < j < rows.filter(keep).len(),
    ensures
        exists|a: int, b: int|
            #![trigger rows[a], rows[b]]
            0 <= a < b < rows.len() && rows[a] == rows.filter(keep)[i] && rows[b] == rows.filter(
                keep,
            )[j],
    decreases rows.len(),
{
    reveal(Seq::filter);
    if rows.len() > 0 {
        let front = rows.drop_last();
        let front_kept = front.filter(keep);
        if j < front_kept.len() {
            lemma_filter_keeps_order(front, keep, i, j);
            let (a, b) = choose|a: int, b: int|
                #![trigger front[a], front[b]]
                0 <= a < b < front.len() && front[a] == front_kept[i] && front[b] == front_kept[j];
        } else {
            front.lemma_filter_contains_rev(keep, front_kept[i]);
        }
    }
}

/// A change to each row that leaves alone the rows to keep, and makes no
/// other row one to keep, does not show in what is kept.
pub proof fn lemma_filter_untouched<A>(
    rows: Seq<A>,
    change: spec_fn(A) -> A,
    keep: spec_fn(A) -> bool,
)
    requires
        forall|row: A| keep(row) ==> #[trigger] change(row) == row,
        forall|row: A| !keep(row) ==> !keep(#[trigger] change(row)),
    ensures
        rows.map_values(change).filter(keep) == rows.filter(keep),
    decreases rows.len(),
{
    reveal(Seq::filter);
    if rows.len() > 0 {
        lemma_filter_untouched(rows.drop_last(), change, keep);
        assert(rows.map_values(change).drop_last() =~= rows.drop_last().map_values(change));
    }
}

/// A new row that is not one to keep does not show in what is kept.
pub proof fn lemma_filter_skips_inserted<A>(
    rows: Seq<A>,
    at: int,
    row: A,
    keep: spec_fn(A) -> bool,
)
    requires
        0 <= at <= rows.len(),
        !keep(row),
    ensures
        rows.insert(at, row).filter(keep) == rows.filter(keep),
    decreases rows.len(),
{
    reveal(Seq::filter);
    if at == rows.len() {
        assert(rows.insert(at, row) =~= rows.push(row));
        assert(rows.push(row).drop_last() =~= rows);
    } else {
        let front = rows.drop_last();
        lemma_filter_skips_inserted(front, at, row, keep);
        assert(rows.insert(at, row).drop_last() =~= front.insert(at, row));
    }
}

/// A row of a filtered sequence is a row of the sequence that was filtered,
/// and one that was to be kept.
pub proof fn lemma_filter_row<A>(rows: Seq<A>, keep: spec_fn(A) -> bool, i: int)
    requires
        0 <= i < rows.filter(keep).len(),
    ensures
        keep(rows.filter(keep)[i]),
        exists|a: int| 0 <= a < rows.len() && #[trigger] rows[a] == rows.filter(keep)[i],
{
    let kept = rows.filter(keep);
    rows.lemma_filter_contains_rev(keep, kept[i]);
}

} // verus!
