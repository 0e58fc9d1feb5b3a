//! The columns of a sheet: where the prefix, the name and each language stand.

use vstd::prelude::*;
use vstd::string::*;
use crate::cell::{cell_at, text_or_empty, Cell, CellView};
use crate::language::Language;
use crate::report::{ConversionError, ConversionErrorView};
use crate::text::{eq_ignoring_case, lowercase, to_lowercase};
use crate::workbook::{range_cells, range_rows};

verus! {

/// The column of one language in a sheet.
#[derive(Clone, Debug, PartialEq, Eq)]
pub struct LanguageColumn {
    pub code: String,
    pub column: usize,
}

/// The columns of a sheet, found in its header.
///
/// `translation_columns` has an entry for each language that the header has a
/// column for. Where a code stands in it twice, its first entry counts.
#[derive(Clone, Debug, PartialEq, Eq)]
pub struct SheetSchema {
    pub name: String,
    pub prefix_column: usize,
    pub name_column: usize,
    pub translation_columns: Vec<LanguageColumn>,
}

/// What a [`SheetSchema`] stands for: the columns as a map from language
/// codes. A language without a column in the sheet is not in the map.
pub struct SheetSchemaView {
    pub name: Seq<char>,
    pub prefix_column: int,
    pub name_column: int,
    pub translation_columns: Map<Seq<char>, int>,
}

/// The map that a list of language columns stands for.
pub open spec fn column_map(columns: Seq<LanguageColumn>) -> Map<Seq<char>, int>
    decreases columns.len(),
{
    if columns.len() == 0 {
        Map::empty()
    } else {
        let earlier = column_map(columns.drop_last());
        let last = columns.last();
        if earlier.contains_key(last.code@) {
            earlier
        } else {
            earlier.insert(last.code@, last.column as int)
        }
    }
}

impl View for SheetSchema {
    type V = SheetSchemaView;

    open spec fn view(&self) -> SheetSchemaView {
        SheetSchemaView {
            name: self.name@,
            prefix_column: self.prefix_column as int,
            name_column: self.name_column as int,
            translation_columns: column_map(self.translation_columns@),
        }
    }
}

/// The codes of the configured languages, in their order.
pub open spec fn codes_of(langs: Seq<Language>) -> Seq<Seq<char>> {
    Seq::new(langs.len(), |i: int| langs[i].code@)
}

/// For each cell of a header the lower-case form of its text, if it holds one.
pub open spec fn lowered_cells(header: Seq<CellView>) -> Seq<Option<Seq<char>>> {
    Seq::new(
        header.len(),
        |i: int|
            match header[i] {
                CellView::Text(text) => Some(lowercase(text)),
                _ => None,
            },
    )
}

/// The column that a header has for a title: the first cell whose text is the
/// title but for the case of its letters.
pub open spec fn find_column(header: Seq<CellView>, title: Seq<char>) -> Option<int> {
    lowered_cells(header).index_of_first(Some(lowercase(title)))
}

/// Whether a cell holds the title as its text, but for the case of the letters.
pub open spec fn cell_reads(cell: CellView, title: Seq<char>) -> bool {
    cell matches CellView::Text(text) && eq_ignoring_case(text, title)
}

/// The column of a title is the first cell of the header that reads it, and
/// a header has no column for a title that none of its cells reads.
pub proof fn lemma_find_column(header: Seq<CellView>, title: Seq<char>)
    ensures
        match find_column(header, title) {
            Some(column) => 0 <= column < header.len() && cell_reads(header[column], title)
                && forall|i: int| 0 <= i < column ==> !cell_reads(#[trigger] header[i], title),
            None => forall|i: int|
                0 <= i < header.len() ==> !cell_reads(#[trigger] header[i], title),
        },
{
    let lowered = lowered_cells(header);
    let wanted = Some(lowercase(title));
    lowered.index_of_first_ensures(wanted);
    assert forall|i: int| 0 <= i < header.len() implies (cell_reads(#[trigger] header[i], title)
        <==> lowered[i] == wanted) by {}
    if find_column(header, title) is None {
        assert forall|i: int| 0 <= i < header.len() implies !cell_reads(
            #[trigger] header[i],
            title,
        ) by {
            assert(lowered[i] != wanted);
        }
    }
}

/// The columns that a header has for the languages of the given codes.
pub open spec fn resolved_columns(header: Seq<CellView>, codes: Seq<Seq<char>>) -> Map<
    Seq<char>,
    int,
> {
    Map::new(
        |code: Seq<char>| codes.contains(code) && find_column(header, code) is Some,
        |code: Seq<char>| find_column(header, code)->0,
    )
}

/// The schema of a sheet, or why it has none: a sheet needs a header row, and
/// in it a column for the prefix and one for the name.
pub open spec fn resolved_schema(
    name: Seq<char>,
    rows: Seq<Seq<CellView>>,
    codes: Seq<Seq<char>>,
) -> Result<SheetSchemaView, ConversionErrorView> {
    if rows.len() == 0 {
        Err(ConversionErrorView::NoHeaderRow { sheet: name })
    } else if find_column(rows[0], "prefix"@) is None {
        Err(ConversionErrorView::MissingPrefixColumn { sheet: name })
    } else if find_column(rows[0], "name"@) is None {
        Err(ConversionErrorView::MissingNameColumn { sheet: name })
    } else {
        Ok(
            SheetSchemaView {
                name,
                prefix_column: find_column(rows[0], "prefix"@)->0,
                name_column: find_column(rows[0], "name"@)->0,
                translation_columns: resolved_columns(rows[0], codes),
            },
        )
    }
}

/// The key of a row: the text of its prefix cell, then the text of its name
/// cell. A cell that holds no text gives none.
pub open spec fn row_key(schema: SheetSchemaView, row: Seq<CellView>) -> Seq<char> {
    text_or_empty(cell_at(row, schema.prefix_column)) + text_or_empty(
        cell_at(row, schema.name_column),
    )
}

/// The cell of a row that holds the translation for a language. A sheet
/// without a column for the language has an empty cell there.
pub open spec fn translation_cell(
    schema: SheetSchemaView,
    row: Seq<CellView>,
    code: Seq<char>,
) -> CellView {
    if schema.translation_columns.contains_key(code) {
        cell_at(row, schema.translation_columns[code])
    } else {
        CellView::Empty
    }
}

/// What a row holds for a language: a text, nothing, or the error that ends
/// the conversion.
pub open spec fn row_translation(
    schema: SheetSchemaView,
    row: Seq<CellView>,
    code: Seq<char>,
) -> Result<Option<Seq<char>>, ConversionErrorView> {
    match translation_cell(schema, row, code) {
        CellView::Text(text) => Ok(Some(text)),
        CellView::Empty => Ok(None),
        CellView::Other => Err(
            ConversionErrorView::BadTranslation {
                sheet: schema.name,
                code,
                key: row_key(schema, row),
            },
        ),
    }
}

/// Whether a result stands for what the model says of it.
pub open spec fn schema_result_is(
    result: Result<SheetSchema, ConversionError>,
    model: Result<SheetSchemaView, ConversionErrorView>,
) -> bool {
    match result {
        Ok(schema) => model == Ok::<SheetSchemaView, ConversionErrorView>(schema@),
        Err(error) => model == Err::<SheetSchemaView, ConversionErrorView>(error@),
    }
}

/// An entry of a list of columns counts from the moment it stands there:
/// entries that come later do not change what a code maps to.
pub proof fn lemma_column_map_first_wins(columns: Seq<LanguageColumn>, n: int, code: Seq<char>)
    requires
        0 <= n <= columns.len(),
        column_map(columns.take(n)).contains_key(code),
    ensures
        column_map(columns).contains_key(code),
        column_map(columns)[code] == column_map(columns.take(n))[code],
    decreases columns.len() - n,
{
    if n < columns.len() {
        assert(columns.take(n + 1).drop_last() == columns.take(n));
        lemma_column_map_first_wins(columns, n + 1, code);
    } else {
        assert(columns.take(n) == columns);
    }
}

/// The lower-case forms of the texts of a header, cell by cell.
pub fn lower_cells(header: &Vec<Cell>) -> (lowered: Vec<Option<String>>)
    ensures
        lowered.deep_view() == lowered_cells(header.deep_view()),
{
    let mut lowered: Vec<Option<String>> = Vec::new();
    let mut i: usize = 0;
    while i < header.len()
        invariant
            i <= header.len(),
            lowered.len() == i,
            forall|j: int|
                0 <= j < i ==> lowered[j].deep_view() == lowered_cells(header.deep_view())[j],
        decreases header.len() - i,
    {
        let item = match header[i].as_text() {
            Some(text) => Some(to_lowercase(text)),
            None => None,
        };
        lowered.push(item);
        i = i + 1;
    }
    lowered
}

/// The first place at which `items` holds the text `wanted`.
pub fn position_of(items: &Vec<Option<String>>, wanted: &String) -> (position: Option<usize>)
    ensures
        match position {
            Some(i) => i < items.len() && items.deep_view()[i as int] == Some(wanted@)
                && forall|j: int| 0 <= j < i ==> items.deep_view()[j] != Some(wanted@),
            None => forall|j: int| 0 <= j < items.len() ==> items.deep_view()[j] != Some(wanted@),
        },
        match position {
            Some(i) => items.deep_view().index_of_first(Some(wanted@)) == Some(i as int),
            None => items.deep_view().index_of_first(Some(wanted@)) is None,
        },
{
    let ghost texts = items.deep_view();
    let mut i: usize = 0;
    while i < items.len()
        invariant
            i <= items.len(),
            texts == items.deep_view(),
            forall|j: int| 0 <= j < i ==> texts[j] != Some(wanted@),
        decreases items.len() - i,
    {
        let found = match &items[i] {
            Some(text) => *text == *wanted,
            None => false,
        };
        if found {
            proof {
                assert(texts[i as int] == Some(wanted@));
                texts.index_of_first_ensures(Some(wanted@));
            }
            return Some(i);
        }
        i = i + 1;
    }
    proof {
        texts.index_of_first_ensures(Some(wanted@));
    }
    None
}

/// What the first `n + 1` items hold is what the first `n` hold, and item `n`.
proof fn lemma_contains_take_next(items: Seq<Seq<char>>, n: int, wanted: Seq<char>)
    requires
        0 <= n < items.len(),
    ensures
        items.take(n + 1).contains(wanted) <==> items.take(n).contains(wanted) || items[n]
            == wanted,
{
    let shorter = items.take(n);
    let longer = items.take(n + 1);
    if longer.contains(wanted) {
        let i = choose|i: int| 0 <= i < longer.len() && longer[i] == wanted;
        if i < n {
            assert(shorter[i] == wanted);
        }
    }
    if shorter.contains(wanted) {
        let i = choose|i: int| 0 <= i < shorter.len() && shorter[i] == wanted;
        assert(longer[i] == wanted);
    }
    if items[n] == wanted {
        assert(longer[n] == wanted);
    }
}

impl SheetSchema {
    /// Reads the schema of a sheet from the cells that the workbook reader
    /// found in it: what [`SheetSchema::from_rows`] reads from the rows of
    /// the range.
    pub fn new(
        name: String,
        range: &calamine::Range<calamine::DataType>,
        langs: &[Language],
    ) -> (schema: Result<SheetSchema, ConversionError>)
        ensures
            schema_result_is(schema, resolved_schema(name@, range_rows(*range), codes_of(langs@))),
    {
        let rows = range_cells(range);
        SheetSchema::from_rows(name, rows.as_slice(), langs)
    }

    /// Reads the schema of a sheet from its first row, the header. Letters
    /// match whatever their case, and of two cells with one title the first
    /// counts. A language without a column in the header is left out of
    /// `translation_columns`; a sheet without a header row, without a prefix
    /// column or without a name column has no schema.
    pub fn from_rows(name: String, rows: &[Vec<Cell>], langs: &[Language]) -> (schema: Result<
        SheetSchema,
        ConversionError,
    >)
        ensures
            schema_result_is(schema, resolved_schema(name@, rows.deep_view(), codes_of(langs@))),
    {
        if rows.len() == 0 {
            return Err(ConversionError::NoHeaderRow { sheet: name });
        }
        let ghost header = rows.deep_view()[0];
        let ghost codes = codes_of(langs@);
        let lowered = lower_cells(&rows[0]);
        let prefix_title = to_lowercase("prefix");
        let prefix_column: usize = match position_of(&lowered, &prefix_title) {
            Some(column) => column,
            None => {
                return Err(ConversionError::MissingPrefixColumn { sheet: name });
            },
        };
        let name_title = to_lowercase("name");
        let name_column: usize = match position_of(&lowered, &name_title) {
            Some(column) => column,
            None => {
                return Err(ConversionError::MissingNameColumn { sheet: name });
            },
        };
        let mut translation_columns: Vec<LanguageColumn> = Vec::new();
        let mut i: usize = 0;
        while i < langs.len()
            invariant
                i <= langs.len(),
                codes == codes_of(langs@),
                lowered.deep_view() == lowered_cells(header),
                column_map(translation_columns@) == resolved_columns(header, codes.take(i as int)),
            decreases langs.len() - i,
        {
            let ghost before = translation_columns@;
            let wanted = to_lowercase(langs[i].code);
            match position_of(&lowered, &wanted) {
                Some(column) => {
                    translation_columns.push(
                        LanguageColumn { code: String::from_str(langs[i].code), column },
                    );
                    assert(translation_columns@.drop_last() == before);
                },
                None => {},
            }
            proof {
                assert forall|code: Seq<char>|
                    codes.take(i + 1).contains(code) <==> codes.take(i as int).contains(code)
                        || codes[i as int] == code by {
                    lemma_contains_take_next(codes, i as int, code);
                }
            }
            i = i + 1;
        }
        assert(codes.take(i as int) == codes);
        Ok(SheetSchema { name, prefix_column, name_column, translation_columns })
    }

    /// The column that the schema has for a language, if it has one.
    pub fn column_for(&self, code: &str) -> (column: Option<usize>)
        ensures
            match column {
                Some(c) => self@.translation_columns.contains_key(code@)
                    && self@.translation_columns[code@] == c,
                None => !self@.translation_columns.contains_key(code@),
            },
    {
        let wanted = String::from_str(code);
        let ghost columns = self.translation_columns@;
        let mut i: usize = 0;
        while i < self.translation_columns.len()
            invariant
                i <= self.translation_columns.len(),
                columns == self.translation_columns@,
                wanted@ == code@,
                !column_map(columns.take(i as int)).contains_key(code@),
            decreases self.translation_columns.len() - i,
        {
            proof {
                assert(columns.take(i + 1).drop_last() == columns.take(i as int));
            }
            if self.translation_columns[i].code == wanted {
                proof {
                    lemma_column_map_first_wins(columns, i + 1, code@);
                }
                return Some(self.translation_columns[i].column);
            }
            i = i + 1;
        }
        assert(columns.take(i as int) == columns);
        None
    }

    /// The text of a row in a column. A cell that holds no text, and a row
    /// that does not reach the column, give no text.
    pub fn get_row_column(&self, row: &Vec<Cell>, position: usize) -> (text: String)
        ensures
            text@ == text_or_empty(cell_at(row.deep_view(), position as int)),
    {
        if position < row.len() {
            match &row[position] {
                Cell::Text(value) => value.clone(),
                _ => String::new(),
            }
        } else {
            String::new()
        }
    }

    /// The key of a row: its prefix and its name, one after the other.
    pub fn get_row_key(&self, row: &Vec<Cell>) -> (key: String)
        ensures
            key@ == row_key(self@, row.deep_view()),
    {
        let mut key = self.get_row_column(row, self.prefix_column);
        let name = self.get_row_column(row, self.name_column);
        key.append(name.as_str());
        key
    }

    /// The translation that a row holds for a language: `Some` text where the
    /// sheet has a column for the language and the row a text in it, `None`
    /// where the sheet has no such column or the row nothing in it, and an
    /// error where the cell holds anything else.
    pub fn get_row_translation(&self, row: &Vec<Cell>, lang: &Language) -> (translation: Result<
        Option<String>,
        ConversionError,
    >)
        ensures
            match translation {
                Ok(Some(text)) => row_translation(self@, row.deep_view(), lang@.code) == Ok::<
                    Option<Seq<char>>,
                    ConversionErrorView,
                >(Some(text@)),
                Ok(None) => row_translation(self@, row.deep_view(), lang@.code) == Ok::<
                    Option<Seq<char>>,
                    ConversionErrorView,
                >(None),
                Err(error) => row_translation(self@, row.deep_view(), lang@.code) == Err::<
                    Option<Seq<char>>,
                    ConversionErrorView,
                >(error@),
            },
    {
        match self.column_for(lang.code) {
            None => Ok(None),
            Some(column) => {
                if column < row.len() {
                    match &row[column] {
                        Cell::Text(value) => Ok(Some(value.clone())),
                        Cell::Empty => Ok(None),
                        Cell::Other => Err(
                            ConversionError::BadTranslation {
                                sheet: self.name.clone(),
                                code: String::from_str(lang.code),
                                key: self.get_row_key(row),
                            },
                        ),
                    }
                } else {
                    Ok(None)
                }
            },
        }
    }
}

} // verus!
