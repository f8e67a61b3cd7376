//! The tabular output unit: a `Row` is an ordered sequence of
//! (column-name, optional cell) pairs, and a `Cell` is a tagged typed value.
//! Column order is fixed per object type and must match the order declared
//! to the host query engine.

use vstd::prelude::*;

verus! {

/// Mathematical image of a [`Cell`].
pub enum CellView {
    I64(i64),
    Text(Seq<char>),
}

/// A typed cell value; every column has one fixed cell kind across all rows
/// of a given object type.
#[derive(Debug, Clone, PartialEq, Eq)]
pub enum Cell {
    I64(i64),
    Text(String),
}

impl View for Cell {
    type V = CellView;

    open spec fn view(&self) -> CellView {
        match self {
            Cell::I64(i) => CellView::I64(*i),
            Cell::Text(s) => CellView::Text(s@),
        }
    }
}

/// Mathematical image of an optional cell.
pub open spec fn cell_opt_view(c: Option<Cell>) -> Option<CellView> {
    match c {
        Some(x) => Some(x@),
        None => None,
    }
}

/// Mathematical image of a [`Row`]: parallel sequences of column names and
/// cells, of equal length.
pub struct RowView {
    pub cols: Seq<Seq<char>>,
    pub cells: Seq<Option<CellView>>,
}

/// One produced row: column names and their cells, in declaration order.
#[derive(Debug, Clone, PartialEq, Eq)]
pub struct Row {
    cols: Vec<String>,
    cells: Vec<Option<Cell>>,
}

impl View for Row {
    type V = RowView;

    closed spec fn view(&self) -> RowView {
        RowView {
            cols: self.cols@.map_values(|c: String| c@),
            cells: self.cells@.map_values(|c: Option<Cell>| cell_opt_view(c)),
        }
    }
}

impl Row {
    /// An empty row, to be filled column by column.
    pub fn new() -> (r: Row)
        ensures
            r@.cols == Seq::<Seq<char>>::empty(),
            r@.cells == Seq::<Option<CellView>>::empty(),
    {
        let r = Row { cols: Vec::new(), cells: Vec::new() };
        proof {
            assert(r@.cols =~= Seq::<Seq<char>>::empty());
            assert(r@.cells =~= Seq::<Option<CellView>>::empty());
        }
        r
    }

    /// Appends one (column-name, cell) pair at the end of the row.
    pub fn push(&mut self, col: &str, cell: Option<Cell>)
        ensures
            final(self)@.cols == old(self)@.cols.push(col@),
            final(self)@.cells == old(self)@.cells.push(cell_opt_view(cell)),
    {
        let ghost c = cell_opt_view(cell);
        self.cols.push(col.to_owned());
        self.cells.push(cell);
        proof {
            assert(self@.cols =~= old(self)@.cols.push(col@));
            assert(self@.cells =~= old(self)@.cells.push(c));
        }
    }

    /// How many columns the row holds.
    pub fn num_cols(&self) -> (n: usize)
        ensures
            n == self@.cols.len(),
    {
        self.cols.len()
    }

    /// The column name at `i`, for a caller that walks the row.
    pub fn col_at(&self, i: usize) -> (r: &String)
        requires
            i < self@.cols.len(),
        ensures
            r@ == self@.cols[i as int],
    {
        &self.cols[i]
    }

    /// The cell at `i`, for a caller that walks the row.
    pub fn cell_at(&self, i: usize) -> (r: &Option<Cell>)
        requires
            i < self@.cells.len(),
        ensures
            cell_opt_view(*r) == self@.cells[i as int],
    {
        &self.cells[i]
    }
}

} // verus!
