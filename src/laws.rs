//! Properties that relate the scans over whole sequences of rows.

use vstd::prelude::*;
use crate::lookup::{block, exact_info, fuzzy_text, lookup_result, row_hit, row_text, RowModel};

verus! {

/// The fuzzy text of two runs of rows, one after the other, is the text of
/// the first followed by the text of the second.
pub proof fn lemma_fuzzy_concat(a: Seq<RowModel>, b: Seq<RowModel>, key: Seq<char>)
    ensures
        fuzzy_text(a + b, key) == fuzzy_text(a, key) + fuzzy_text(b, key),
    decreases b.len(),
{
    if b.len() == 0 {
        assert(a + b =~= a);
        assert(fuzzy_text(a, key) + fuzzy_text(b, key) =~= fuzzy_text(a, key));
    } else {
        assert((a + b).drop_last() =~= a + b.drop_last());
        assert((a + b).last() == b.last());
        lemma_fuzzy_concat(a, b.drop_last(), key);
        assert(fuzzy_text(a + b, key) =~= fuzzy_text(a, key) + fuzzy_text(b, key));
    }
}

/// The exact scan over two runs of rows finds what the first run holds, and
/// otherwise what the second holds.
pub proof fn lemma_exact_concat(a: Seq<RowModel>, b: Seq<RowModel>, key: Seq<char>)
    ensures
        exact_info(a + b, key) == (if exact_info(a, key) is Some {
            exact_info(a, key)
        } else {
            exact_info(b, key)
        }),
    decreases a.len(),
{
    if a.len() == 0 {
        assert(a + b =~= b);
    } else {
        assert((a + b)[0] == a[0]);
        assert((a + b).drop_first() =~= a.drop_first() + b);
        lemma_exact_concat(a.drop_first(), b, key);
    }
}

/// The fuzzy text of a single row is that row's contribution.
proof fn lemma_fuzzy_single(row: RowModel, key: Seq<char>)
    ensures
        fuzzy_text(seq![row], key) == row_text(row, key),
{
    assert(seq![row].drop_last() =~= Seq::<RowModel>::empty());
    assert(seq![row].last() == row);
    assert(fuzzy_text(Seq::<RowModel>::empty(), key) == Seq::<char>::empty());
    assert(Seq::<char>::empty() + row_text(row, key) =~= row_text(row, key));
}

/// Fuzzy results keep document order: when rows `i < j` both match, the text
/// is everything before `i`, then the block of row `i`, then everything
/// between, then the block of row `j`, then everything after `j`.
pub proof fn lemma_fuzzy_keeps_row_order(rows: Seq<RowModel>, key: Seq<char>, i: int, j: int)
    requires
        0 <= i < j < rows.len(),
        row_hit(rows[i], key, false),
        row_hit(rows[j], key, false),
    ensures
        fuzzy_text(rows, key) == fuzzy_text(rows.take(i), key) + block(
            rows[i].name->0,
            rows[i].info->0,
        ) + fuzzy_text(rows.subrange(i + 1, j), key) + block(rows[j].name->0, rows[j].info->0)
            + fuzzy_text(rows.skip(j + 1), key),
{
    let before = rows.take(i);
    let between = rows.subrange(i + 1, j);
    let after = rows.skip(j + 1);
    assert(rows =~= before + seq![rows[i]] + between + seq![rows[j]] + after);
    lemma_fuzzy_concat(before + seq![rows[i]] + between + seq![rows[j]], after, key);
    lemma_fuzzy_concat(before + seq![rows[i]] + between, seq![rows[j]], key);
    lemma_fuzzy_concat(before + seq![rows[i]], between, key);
    lemma_fuzzy_concat(before, seq![rows[i]], key);
    lemma_fuzzy_single(rows[i], key);
    lemma_fuzzy_single(rows[j], key);
}

/// A row without a second data cell is passed over: removing it changes
/// neither the exact nor the fuzzy result, whatever the key.
pub proof fn lemma_row_without_info_is_skipped(rows: Seq<RowModel>, key: Seq<char>, i: int)
    requires
        0 <= i < rows.len(),
        rows[i].info is None,
    ensures
        fuzzy_text(rows, key) == fuzzy_text(rows.remove(i), key),
        exact_info(rows, key) == exact_info(rows.remove(i), key),
{
    let before = rows.take(i);
    let after = rows.skip(i + 1);
    assert(rows =~= before + seq![rows[i]] + after);
    assert(rows.remove(i) =~= before + after);
    lemma_fuzzy_concat(before + seq![rows[i]], after, key);
    lemma_fuzzy_concat(before, seq![rows[i]], key);
    lemma_fuzzy_concat(before, after, key);
    lemma_fuzzy_single(rows[i], key);
    assert(fuzzy_text(before, key) + Seq::<char>::empty() =~= fuzzy_text(before, key));
    lemma_exact_concat(before + seq![rows[i]], after, key);
    lemma_exact_concat(before, seq![rows[i]], key);
    lemma_exact_concat(before, after, key);
    assert(seq![rows[i]].drop_first() =~= Seq::<RowModel>::empty());
    assert(seq![rows[i]][0] == rows[i]);
    assert(exact_info(Seq::<RowModel>::empty(), key) is None);
    assert(exact_info(seq![rows[i]], key) is None);
}

/// The exact scan finds the info of the first row, in order, that is an exact
/// hit, and finds nothing exactly when no row is one.
pub proof fn lemma_exact_is_first_hit(rows: Seq<RowModel>, key: Seq<char>)
    ensures
        exact_info(rows, key) is None <==> forall|i: int|
            0 <= i < rows.len() ==> !row_hit(#[trigger] rows[i], key, true),
        exact_info(rows, key) is Some ==> exists|i: int|
            0 <= i < rows.len() && row_hit(#[trigger] rows[i], key, true) && exact_info(rows, key)
                == rows[i].info && forall|j: int| 0 <= j < i ==> !row_hit(#[trigger] rows[j], key, true),
    decreases rows.len(),
{
    if rows.len() > 0 {
        let rest = rows.drop_first();
        lemma_exact_is_first_hit(rest, key);
        if row_hit(rows[0], key, true) {
            assert(forall|j: int| 0 <= j < 0 ==> !row_hit(#[trigger] rows[j], key, true));
        } else {
            assert(forall|i: int| 0 <= i < rest.len() ==> #[trigger] rest[i] == rows[i + 1]);
            if exact_info(rows, key) is Some {
                let k = choose|k: int|
                    0 <= k < rest.len() && row_hit(#[trigger] rest[k], key, true) && exact_info(rest, key)
                        == rest[k].info && forall|j: int| 0 <= j < k ==> !row_hit(#[trigger] rest[j], key, true);
                assert forall|j: int| 0 <= j < k + 1 implies !row_hit(#[trigger] rows[j], key, true) by {
                    if j > 0 {
                        assert(rows[j] == rest[j - 1]);
                    }
                }
                assert(rows[k + 1] == rest[k]);
            } else {
                assert forall|i: int| 0 <= i < rows.len() implies !row_hit(#[trigger] rows[i], key, true) by {
                    if i > 0 {
                        assert(rows[i] == rest[i - 1]);
                    }
                }
            }
        }
    }
}

/// With no rows to scan, every key finds nothing in exact mode and the empty
/// text in fuzzy mode.
pub proof fn lemma_no_rows_no_answer(key: Seq<char>)
    ensures
        lookup_result(Seq::<RowModel>::empty(), key, true) is None,
        lookup_result(Seq::<RowModel>::empty(), key, false) == Some(Seq::<char>::empty()),
{
}

} // verus!
