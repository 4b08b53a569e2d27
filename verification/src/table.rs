//! Table builder: packages a title, three column headers, display rows and
//! three column width percentages into a renderable table description.
//!
//! The result is a plain presentation value; painting it onto a terminal
//! is the caller's capability.  Every row must have exactly three cells
//! and the width percentages must sum to at most 100 — call sites are
//! internal and fixed-shape, so a violation is a caller bug and is ruled
//! out up front rather than recovered from.

use vstd::prelude::*;

verus! {

/// A renderable titled table: a bordered, titled container of one header
/// row and a body of three-cell rows, with column widths given as
/// percentages of the region the table is painted into.
pub struct Table {
    pub title: String,
    pub column_names: Vec<String>,
    pub rows: Vec<Vec<String>>,
    pub widths: Vec<u16>,
}

/// Whether every row has exactly three cells.
pub open spec fn rows_well_formed(rows: Seq<Vec<String>>) -> bool {
    forall|i: int| 0 <= i < rows.len() ==> (#[trigger] rows[i])@.len() == 3
}

/// The shape every built table has: three headers, three width
/// percentages summing to at most 100, and three cells in every row.
pub open spec fn table_well_formed(t: Table) -> bool {
    &&& t.column_names@.len() == 3
    &&& t.widths@.len() == 3
    &&& t.widths@[0] + t.widths@[1] + t.widths@[2] <= 100
    &&& rows_well_formed(t.rows@)
}

/// Builds the titled table description from its parts.
pub fn create_table(
    title: String,
    column_names: Vec<String>,
    rows: Vec<Vec<String>>,
    widths: Vec<u16>,
) -> (t: Table)
    requires
        column_names@.len() == 3,
        widths@.len() == 3,
        widths@[0] + widths@[1] + widths@[2] <= 100,
        rows_well_formed(rows@),
    ensures
        t.title == title,
        t.column_names == column_names,
        t.rows == rows,
        t.widths == widths,
        table_well_formed(t),
{
    Table { title, column_names, rows, widths }
}

} // verus!
