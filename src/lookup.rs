//! Matching a lookup key against the rows of an opcode table: the exact scan
//! (first matching row wins) and the fuzzy scan (every matching row, in
//! document order, as one block of text each).

use vstd::prelude::*;
use vstd::string::StringExecFns;
use crate::text::{contains, is_infix, lower_of, lowercase};

verus! {

/// One row of an opcode table, as the lookup reads it: the trimmed `name`
/// of the row's first anchor, and the trimmed content of its second data cell.
/// Either is absent when the row does not have it.
pub struct OpcodeRow {
    pub name: Option<String>,
    pub info: Option<String>,
}

/// The mathematical content of an [`OpcodeRow`].
pub ghost struct RowModel {
    pub name: Option<Seq<char>>,
    pub info: Option<Seq<char>>,
}

pub open spec fn opt_view(s: Option<String>) -> Option<Seq<char>> {
    match s {
        Some(t) => Some(t@),
        None => None,
    }
}

impl View for OpcodeRow {
    type V = RowModel;

    open spec fn view(&self) -> RowModel {
        RowModel { name: opt_view(self.name), info: opt_view(self.info) }
    }
}

/// The models of a sequence of rows.
pub open spec fn rows_model(rows: Seq<OpcodeRow>) -> Seq<RowModel> {
    rows.map_values(|r: OpcodeRow| r@)
}

/// Whether an already lower-cased opcode name matches an already lower-cased
/// key: equality in exact mode, containment of the key in fuzzy mode.
pub open spec fn folded_match(name: Seq<char>, key: Seq<char>, exact: bool) -> bool {
    if exact {
        name == key
    } else {
        is_infix(key, name)
    }
}

/// A row matches a key when it has a name and the two agree case-insensitively.
pub open spec fn row_matches(row: RowModel, key: Seq<char>, exact: bool) -> bool {
    row.name is Some && folded_match(lower_of(row.name->0), lower_of(key), exact)
}

/// A row that contributes to a result: it matches and it carries its info.
pub open spec fn row_hit(row: RowModel, key: Seq<char>, exact: bool) -> bool {
    row_matches(row, key, exact) && row.info is Some
}

/// The info of the first row, in order, that is an exact hit for `key`.
pub open spec fn exact_info(rows: Seq<RowModel>, key: Seq<char>) -> Option<Seq<char>>
    decreases rows.len(),
{
    if rows.len() == 0 {
        None
    } else if row_hit(rows[0], key, true) {
        rows[0].info
    } else {
        exact_info(rows.drop_first(), key)
    }
}

/// The text that one fuzzy hit contributes.
pub open spec fn block(name: Seq<char>, info: Seq<char>) -> Seq<char> {
    "Opcode: "@ + name + "\n"@ + info + "\n\n"@
}

/// What one row contributes to a fuzzy result: its block, or nothing.
pub open spec fn row_text(row: RowModel, key: Seq<char>) -> Seq<char> {
    if row_hit(row, key, false) {
        block(row.name->0, row.info->0)
    } else {
        Seq::empty()
    }
}

/// The blocks of all fuzzy hits for `key`, in the order of the rows.
pub open spec fn fuzzy_text(rows: Seq<RowModel>, key: Seq<char>) -> Seq<char>
    decreases rows.len(),
{
    if rows.len() == 0 {
        Seq::empty()
    } else {
        fuzzy_text(rows.drop_last(), key) + row_text(rows.last(), key)
    }
}

/// The result of one lookup: the exact info (or nothing) in exact mode, the
/// concatenated blocks in fuzzy mode.
pub open spec fn lookup_result(rows: Seq<RowModel>, key: Seq<char>, exact: bool) -> Option<Seq<char>> {
    if exact {
        exact_info(rows, key)
    } else {
        Some(fuzzy_text(rows, key))
    }
}

/// Compares a lower-cased opcode name with a lower-cased key.
pub fn matches_folded(folded_name: &str, folded_key: &str, exact: bool) -> (r: bool)
    ensures
        r == folded_match(folded_name@, folded_key@, exact),
{
    if exact {
        let n = folded_name.to_owned();
        let k = folded_key.to_owned();
        n == k
    } else {
        contains(folded_name, folded_key)
    }
}

/// Whether `row` matches `key`, ignoring case.
pub fn row_matches_key(row: &OpcodeRow, key: &str, exact: bool) -> (r: bool)
    ensures
        r == row_matches(row@, key@, exact),
{
    match &row.name {
        Some(name) => {
            let folded_name = lowercase(name.as_str());
            let folded_key = lowercase(key);
            matches_folded(folded_name.as_str(), folded_key.as_str(), exact)
        },
        None => false,
    }
}

/// The info of the first row that matches `key` exactly (ignoring case) and
/// has a second data cell; rows without one are passed over.
pub fn find_exact(rows: &Vec<OpcodeRow>, key: &str) -> (r: Option<String>)
    ensures
        opt_view(r) == exact_info(rows_model(rows@), key@),
{
    let ghost model = rows_model(rows@);
    let mut i: usize = 0;
    proof {
        assert(model.skip(0) =~= model);
    }
    while i < rows.len()
        invariant
            0 <= i <= rows@.len(),
            model == rows_model(rows@),
            exact_info(model, key@) == exact_info(model.skip(i as int), key@),
        decreases rows@.len() - i,
    {
        let row = &rows[i];
        proof {
            assert(model.skip(i as int)[0] == row@);
            assert(model.skip(i as int).drop_first() =~= model.skip(i + 1));
        }
        if row_matches_key(row, key, true) {
            match &row.info {
                Some(info) => {
                    return Some(info.clone());
                },
                None => {},
            }
        }
        i = i + 1;
    }
    None
}

/// The blocks `Opcode: <name>\n<info>\n\n` of every row whose name contains
/// `key` (ignoring case) and that has a second data cell, in row order.
pub fn collect_fuzzy(rows: &Vec<OpcodeRow>, key: &str) -> (r: String)
    ensures
        r@ == fuzzy_text(rows_model(rows@), key@),
{
    let ghost model = rows_model(rows@);
    let mut out = String::new();
    let mut i: usize = 0;
    while i < rows.len()
        invariant
            0 <= i <= rows@.len(),
            model == rows_model(rows@),
            out@ == fuzzy_text(model.take(i as int), key@),
        decreases rows@.len() - i,
    {
        let row = &rows[i];
        proof {
            assert(model.take(i + 1).drop_last() =~= model.take(i as int));
            assert(model.take(i + 1).last() == row@);
        }
        if row_matches_key(row, key, false) {
            match (&row.name, &row.info) {
                (Some(name), Some(info)) => {
                    out.append("Opcode: ");
                    out.append(name.as_str());
                    out.append("\n");
                    out.append(info.as_str());
                    out.append("\n\n");
                },
                _ => {},
            }
        }
        i = i + 1;
    }
    proof {
        assert(model.take(rows@.len() as int) =~= model);
    }
    out
}

/// One lookup over the rows of a page: the exact scan in exact mode, the
/// fuzzy scan (always a text, possibly empty) otherwise.
pub fn lookup_rows(rows: &Vec<OpcodeRow>, key: &str, exact: bool) -> (r: Option<String>)
    ensures
        opt_view(r) == lookup_result(rows_model(rows@), key@, exact),
{
    if exact {
        find_exact(rows, key)
    } else {
        Some(collect_fuzzy(rows, key))
    }
}

} // verus!
