//! One cell of a sheet, and rows of cells.

use vstd::prelude::*;

verus! {

/// The value of one cell of a workbook, as far as the conversion reads it.
#[derive(Clone, Debug, PartialEq, Eq)]
pub enum Cell {
    /// A cell that holds a text.
    Text(String),
    /// A cell that holds nothing.
    Empty,
    /// A cell that holds anything else: a number, a truth value, a date, an error.
    Other,
}

/// What a [`Cell`] stands for.
pub enum CellView {
    Text(Seq<char>),
    Empty,
    Other,
}

impl View for Cell {
    type V = CellView;

    open spec fn view(&self) -> CellView {
        match self {
            Cell::Text(text) => CellView::Text(text@),
            Cell::Empty => CellView::Empty,
            Cell::Other => CellView::Other,
        }
    }
}

impl DeepView for Cell {
    type V = CellView;

    open spec fn deep_view(&self) -> CellView {
        self@
    }
}

impl Cell {
    /// The text of the cell, if it holds one.
    pub fn as_text(&self) -> (text: Option<&str>)
        ensures
            match text {
                Some(t) => self@ == CellView::Text(t@),
                None => !(self@ is Text),
            },
    {
        match self {
            Cell::Text(text) => Some(text.as_str()),
            _ => None,
        }
    }

    /// Whether the cell holds nothing.
    pub fn is_empty(&self) -> (empty: bool)
        ensures
            empty == (self@ is Empty),
    {
        match self {
            Cell::Empty => true,
            _ => false,
        }
    }
}

/// The cell of a row in a column; a row that does not reach the column has an
/// empty cell there.
pub open spec fn cell_at(row: Seq<CellView>, column: int) -> CellView {
    if 0 <= column < row.len() {
        row[column]
    } else {
        CellView::Empty
    }
}

/// The text that a cell gives to a key: its text, or no text at all.
pub open spec fn text_or_empty(cell: CellView) -> Seq<char> {
    match cell {
        CellView::Text(text) => text,
        _ => Seq::empty(),
    }
}

/// A row is blank when each of its cells is empty. A row without cells is blank.
pub open spec fn is_blank_row(row: Seq<CellView>) -> bool {
    forall|i: int| 0 <= i < row.len() ==> row[i] is Empty
}

/// Whether each cell of the row is empty.
pub fn row_is_blank(row: &Vec<Cell>) -> (blank: bool)
    ensures
        blank == is_blank_row(row.deep_view()),
{
    let mut i: usize = 0;
    while i < row.len()
        invariant
            i <= row.len(),
            forall|j: int| 0 <= j < i ==> row.deep_view()[j] is Empty,
        decreases row.len() - i,
    {
        if !row[i].is_empty() {
            assert(!(row.deep_view()[i as int] is Empty));
            return false;
        }
        i = i + 1;
    }
    true
}

} // verus!
