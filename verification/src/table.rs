//! Table output: the rows the one-shot queries print, and the rendering
//! call that turns them into bordered text.

use vstd::prelude::*;
use term_table::row::Row as TtRow;
use term_table::table_cell::{Alignment as TtAlign, TableCell as TtCell};
use term_table::TableBuilder as TtBuilder;

verus! {

/// Horizontal alignment of one cell's content.
#[derive(Clone, Copy, Debug, PartialEq, Eq)]
pub enum CellAlign {
    Left,
    Center,
    Right,
}

/// One table cell: its text, how many columns it spans, its alignment.
pub struct TableCell {
    pub text: String,
    pub col_span: usize,
    pub alignment: CellAlign,
}

/// One table row.
pub struct TableRow {
    pub cells: Vec<TableCell>,
}

/// Alignment as a number: left, center, right.
pub open spec fn align_code(a: CellAlign) -> int {
    match a {
        CellAlign::Left => 0,
        CellAlign::Center => 1,
        CellAlign::Right => 2,
    }
}

/// One cell as plain values: text, span, alignment code.
pub open spec fn cell_model(c: TableCell) -> (Seq<char>, int, int) {
    (c.text@, c.col_span as int, align_code(c.alignment))
}

pub open spec fn row_model(r: TableRow) -> Seq<(Seq<char>, int, int)> {
    r.cells@.map_values(|c: TableCell| cell_model(c))
}

pub open spec fn rows_model(rs: Seq<TableRow>) -> Seq<Seq<(Seq<char>, int, int)>> {
    rs.map_values(|r: TableRow| row_model(r))
}

/// Every cell of the row spans at least one column; term_table's layout
/// arithmetic is only defined for such cells.
pub open spec fn row_well_formed(r: TableRow) -> bool {
    forall|j: int| 0 <= j < r.cells@.len() ==> (#[trigger] r.cells@[j]).col_span >= 1
}

pub open spec fn rows_well_formed(rs: Seq<TableRow>) -> bool {
    forall|i: int| 0 <= i < rs.len() ==> row_well_formed(#[trigger] rs[i])
}

/// What term_table renders for the given rows at the given column
/// width; it depends on the rows and the width alone.
pub uninterp spec fn rendered_table(
    rows: Seq<Seq<(Seq<char>, int, int)>>,
    max_col_width: int,
) -> Seq<char>;

/// Relies on term_table's `Table::render` (the builder's default style
/// is the extended one): draws one bordered table from exactly the given
/// rows, cells padded, capped at the given column width; the text
/// depends on rows and width alone. A cell spanning zero columns would
/// underflow term_table's width arithmetic, so such cells are excluded.
#[verifier::external_body]
pub fn render_table(rows: &Vec<TableRow>, max_col_width: usize) -> (r: String)
    requires
        rows_well_formed(rows@),
    ensures
        r@ == rendered_table(rows_model(rows@), max_col_width as int),
{
    let mut table = TtBuilder::new().max_column_width(max_col_width).build();
    for row in rows.iter() {
        table.add_row(TtRow::new(row.cells.iter().map(|c| TtCell {
            data: c.text.clone(),
            col_span: c.col_span,
            pad_content: true,
            alignment: match c.alignment {
                CellAlign::Left => TtAlign::Left,
                CellAlign::Center => TtAlign::Center,
                CellAlign::Right => TtAlign::Right,
            },
        })));
    }
    table.render()
}

/// A row of one cell.
pub fn row1(t: String, span: usize, a: CellAlign) -> (r: TableRow)
    requires
        span >= 1,
    ensures
        row_model(r) == seq![(t@, span as int, align_code(a))],
        row_well_formed(r),
{
    let mut cells: Vec<TableCell> = Vec::new();
    cells.push(TableCell { text: t, col_span: span, alignment: a });
    let r = TableRow { cells };
    proof {
        assert(row_model(r) =~= seq![(r.cells@[0].text@, r.cells@[0].col_span as int,
            align_code(r.cells@[0].alignment))]);
    }
    r
}

/// A row of two cells.
pub fn row2(t1: String, s1: usize, a1: CellAlign, t2: String, s2: usize, a2: CellAlign)
    -> (r: TableRow)
    requires
        s1 >= 1,
        s2 >= 1,
    ensures
        row_model(r) == seq![
            (t1@, s1 as int, align_code(a1)),
            (t2@, s2 as int, align_code(a2)),
        ],
        row_well_formed(r),
{
    let mut cells: Vec<TableCell> = Vec::new();
    cells.push(TableCell { text: t1, col_span: s1, alignment: a1 });
    cells.push(TableCell { text: t2, col_span: s2, alignment: a2 });
    let r = TableRow { cells };
    proof {
        assert(row_model(r) =~= seq![
            (r.cells@[0].text@, r.cells@[0].col_span as int, align_code(r.cells@[0].alignment)),
            (r.cells@[1].text@, r.cells@[1].col_span as int, align_code(r.cells@[1].alignment)),
        ]);
    }
    r
}

/// A row of three cells.
pub fn row3(
    t1: String, s1: usize, a1: CellAlign,
    t2: String, s2: usize, a2: CellAlign,
    t3: String, s3: usize, a3: CellAlign,
) -> (r: TableRow)
    requires
        s1 >= 1,
        s2 >= 1,
        s3 >= 1,
    ensures
        row_model(r) == seq![
            (t1@, s1 as int, align_code(a1)),
            (t2@, s2 as int, align_code(a2)),
            (t3@, s3 as int, align_code(a3)),
        ],
        row_well_formed(r),
{
    let mut cells: Vec<TableCell> = Vec::new();
    cells.push(TableCell { text: t1, col_span: s1, alignment: a1 });
    cells.push(TableCell { text: t2, col_span: s2, alignment: a2 });
    cells.push(TableCell { text: t3, col_span: s3, alignment: a3 });
    let r = TableRow { cells };
    proof {
        assert(row_model(r) =~= seq![
            (r.cells@[0].text@, r.cells@[0].col_span as int, align_code(r.cells@[0].alignment)),
            (r.cells@[1].text@, r.cells@[1].col_span as int, align_code(r.cells@[1].alignment)),
            (r.cells@[2].text@, r.cells@[2].col_span as int, align_code(r.cells@[2].alignment)),
        ]);
    }
    r
}

} // verus!
