//! The cells of a sheet as the workbook reader hands them over.

use vstd::prelude::*;
use crate::cell::{Cell, CellView};

verus! {

/// A rectangle of cells of a sheet, as `calamine` reads it.
#[verifier::external_type_specification]
#[verifier::external_body]
#[verifier::reject_recursive_types(T)]
pub struct ExRange<T>(calamine::Range<T>);

/// The value of a cell, as `calamine` reads it.
#[verifier::external_type_specification]
#[verifier::external_body]
pub struct ExDataType(calamine::DataType);

/// The rows of a range from its first row to its last, each with its cells
/// from the first column of the range to the last; a range without cells has
/// no row. Of each cell it holds whether it is a text, and which, or empty,
/// or anything else.
pub uninterp spec fn range_rows(range: calamine::Range<calamine::DataType>) -> Seq<Seq<CellView>>;

/// Trusted: walks the range with `calamine::Range::rows` and tells the
/// variants of `calamine::DataType` apart: `String` is a text, `Empty` is
/// empty, every other variant is something else. It claims that what it
/// returns are the rows of the range.
#[verifier::external_body]
pub(crate) fn range_cells(range: &calamine::Range<calamine::DataType>) -> (rows: Vec<Vec<Cell>>)
    ensures
        rows.deep_view() == range_rows(*range),
{
    let mut rows = Vec::new();
    for row in range.rows() {
        let mut cells = Vec::new();
        for data in row {
            cells.push(
                match data {
                    calamine::DataType::String(text) => Cell::Text(text.clone()),
                    calamine::DataType::Empty => Cell::Empty,
                    _ => Cell::Other,
                },
            );
        }
        rows.push(cells);
    }
    rows
}

} // verus!
