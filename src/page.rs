//! Reading the opcode rows out of a reference page: every row of every table
//! inside the first `div.optab` container, tables and rows in document order.

use vstd::prelude::*;
use crate::dom::{
    attribute, attribute_of, descendant_matches, document_matches, first_in_document, ids_of,
    inner_html, inner_html_of, parse_document, parse_selector, select_within, PageNode, Query,
};
use crate::lookup::{rows_model, OpcodeRow, RowModel};
use crate::text::{trim, trim_of};

verus! {

/// The row that a table row yields: its first anchor's `name` and the content
/// of its second data cell, both trimmed.
pub open spec fn row_model_of(anchor_name: Option<Seq<char>>, second_cell: Option<Seq<char>>) -> RowModel {
    RowModel {
        name: match anchor_name {
            Some(n) => Some(trim_of(n)),
            None => None,
        },
        info: match second_cell {
            Some(c) => Some(trim_of(c)),
            None => None,
        },
    }
}

/// What the table row `tr` of the page `doc` yields: nothing when it holds no
/// anchor (a header or a spacer), otherwise its opcode row.
pub open spec fn row_of(doc: Seq<char>, tr: nat) -> Option<RowModel> {
    let anchors = descendant_matches(doc, tr, "a"@);
    let cells = descendant_matches(doc, tr, "td"@);
    if anchors.len() == 0 {
        None
    } else {
        Some(
            row_model_of(
                attribute_of(doc, anchors[0], "name"@),
                if cells.len() >= 2 {
                    Some(inner_html_of(doc, cells[1]))
                } else {
                    None
                },
            ),
        )
    }
}

/// The opcode rows of the table rows `trs`, in order.
pub open spec fn rows_of(doc: Seq<char>, trs: Seq<nat>) -> Seq<RowModel>
    decreases trs.len(),
{
    if trs.len() == 0 {
        Seq::empty()
    } else {
        rows_of(doc, trs.drop_last()) + match row_of(doc, trs.last()) {
            Some(r) => seq![r],
            None => Seq::empty(),
        }
    }
}

/// The opcode rows of the tables `tables`, table after table.
pub open spec fn tables_rows(doc: Seq<char>, tables: Seq<nat>) -> Seq<RowModel>
    decreases tables.len(),
{
    if tables.len() == 0 {
        Seq::empty()
    } else {
        tables_rows(doc, tables.drop_last()) + rows_of(
            doc,
            descendant_matches(doc, tables.last(), "tr"@),
        )
    }
}

/// The opcode rows of a page: those of the tables inside its first
/// `div.optab` container, none when it has no such container.
pub open spec fn page_rows(text: Seq<char>) -> Seq<RowModel> {
    let containers = document_matches(text, "div.optab"@);
    if containers.len() == 0 {
        Seq::empty()
    } else {
        tables_rows(text, descendant_matches(text, containers[0], "table"@))
    }
}

/// Builds a row from the raw `name` of its first anchor and the raw content
/// of its second data cell.
pub fn row_from_parts(anchor_name: Option<&str>, second_cell: Option<&str>) -> (r: OpcodeRow)
    ensures
        r@ == row_model_of(
            match anchor_name { Some(n) => Some(n@), None => None },
            match second_cell { Some(c) => Some(c@), None => None },
        ),
{
    let name = match anchor_name {
        Some(n) => Some(trim(n)),
        None => None,
    };
    let info = match second_cell {
        Some(c) => Some(trim(c)),
        None => None,
    };
    OpcodeRow { name, info }
}

/// Reads one table row.
fn read_row(row: &PageNode, anchor_sel: &Query, cell_sel: &Query) -> (r: Option<OpcodeRow>)
    requires
        anchor_sel.text() == "a"@,
        cell_sel.text() == "td"@,
    ensures
        match r {
            Some(x) => row_of(row.doc(), row.id()) == Some(x@),
            None => row_of(row.doc(), row.id()) is None,
        },
{
    let anchors = select_within(row, anchor_sel);
    let cells = select_within(row, cell_sel);
    proof {
        assert(ids_of(anchors@).len() == anchors@.len());
        assert(ids_of(cells@).len() == cells@.len());
    }
    if anchors.len() == 0 {
        return None;
    }
    proof {
        assert(ids_of(anchors@)[0] == anchors@[0].id());
    }
    let name = attribute(&anchors[0], "name");
    let second = if cells.len() >= 2 {
        proof {
            assert(ids_of(cells@)[1] == cells@[1].id());
        }
        Some(inner_html(&cells[1]))
    } else {
        None
    };
    let name_ref = match &name {
        Some(n) => Some(n.as_str()),
        None => None,
    };
    let second_ref = match &second {
        Some(c) => Some(c.as_str()),
        None => None,
    };
    Some(row_from_parts(name_ref, second_ref))
}

/// The opcode rows of a page: the rows with an anchor of every table inside
/// the first `div.optab`, tables and rows in document order; none when the
/// page has no such container.
pub fn optab_rows(text: &str) -> (r: Vec<OpcodeRow>)
    ensures
        rows_model(r@) == page_rows(text@),
{
    let (container_sel, table_sel, row_sel, anchor_sel, cell_sel) = match (
        parse_selector("div.optab"),
        parse_selector("table"),
        parse_selector("tr"),
        parse_selector("a"),
        parse_selector("td"),
    ) {
        (Some(c), Some(t), Some(r), Some(a), Some(d)) => (c, t, r, a, d),
        _ => {
            return Vec::new();
        },
    };
    let doc = parse_document(text);
    let mut rows: Vec<OpcodeRow> = Vec::new();
    let container = match first_in_document(&doc, &container_sel) {
        Some(c) => c,
        None => {
            proof {
                assert(rows_model(rows@) =~= Seq::<RowModel>::empty());
            }
            return rows;
        },
    };
    let tables = select_within(&container, &table_sel);
    let ghost dtext = text@;
    let ghost table_ids = ids_of(tables@);
    proof {
        assert(rows_model(rows@) =~= tables_rows(dtext, table_ids.take(0)));
    }
    let mut t: usize = 0;
    while t < tables.len()
        invariant
            0 <= t <= tables@.len(),
            table_ids == ids_of(tables@),
            table_ids == descendant_matches(dtext, container.id(), "table"@),
            forall|i: int| 0 <= i < tables@.len() ==> (#[trigger] tables@[i]).doc() == dtext,
            anchor_sel.text() == "a"@,
            cell_sel.text() == "td"@,
            row_sel.text() == "tr"@,
            rows_model(rows@) == tables_rows(dtext, table_ids.take(t as int)),
        decreases tables@.len() - t,
    {
        let table_rows = select_within(&tables[t], &row_sel);
        let ghost tr_ids = ids_of(table_rows@);
        let ghost before = rows_model(rows@);
        proof {
            assert(table_ids[t as int] == tables@[t as int].id());
            assert(before + rows_of(dtext, tr_ids.take(0)) =~= before);
        }
        let mut i: usize = 0;
        while i < table_rows.len()
            invariant
                0 <= i <= table_rows@.len(),
                tr_ids == ids_of(table_rows@),
                forall|k: int| 0 <= k < table_rows@.len() ==> (#[trigger] table_rows@[k]).doc() == dtext,
                anchor_sel.text() == "a"@,
                cell_sel.text() == "td"@,
                rows_model(rows@) == before + rows_of(dtext, tr_ids.take(i as int)),
            decreases table_rows@.len() - i,
        {
            let ghost prev = rows@;
            proof {
                assert(tr_ids.take(i + 1).drop_last() =~= tr_ids.take(i as int));
                assert(tr_ids.take(i + 1).last() == table_rows@[i as int].id());
            }
            match read_row(&table_rows[i], &anchor_sel, &cell_sel) {
                Some(row) => {
                    rows.push(row);
                    proof {
                        assert(rows_model(rows@) =~= rows_model(prev) + seq![row@]);
                    }
                },
                None => {
                    proof {
                        assert(rows_model(rows@) =~= rows_model(prev) + Seq::<RowModel>::empty());
                    }
                },
            }
            i = i + 1;
        }
        proof {
            assert(tr_ids.take(table_rows@.len() as int) =~= tr_ids);
            assert(table_ids.take(t + 1).drop_last() =~= table_ids.take(t as int));
            assert(table_ids.take(t + 1).last() == tables@[t as int].id());
        }
        t = t + 1;
    }
    proof {
        assert(table_ids.take(tables@.len() as int) =~= table_ids);
    }
    rows
}

} // verus!
