use calamine::{CellErrorType, DataType, Range};
use locale_sheets::cell::Cell;
use locale_sheets::language::Language;
use locale_sheets::pipeline::{convert_workbook, Sheet};
use locale_sheets::report::ConversionError;
use locale_sheets::sheet_schema::{LanguageColumn, SheetSchema};

fn text(s: &str) -> DataType {
    DataType::String(s.to_string())
}

fn cell(s: &str) -> Cell {
    Cell::Text(s.to_string())
}

/// A range that begins in the first cell of the sheet and holds the rows.
fn range_of(rows: &[Vec<DataType>]) -> Range<DataType> {
    let width = rows.iter().map(|row| row.len()).max().unwrap_or(0);
    if rows.is_empty() || width == 0 {
        return Range::empty();
    }
    let mut range = Range::new((0, 0), (rows.len() as u32 - 1, width as u32 - 1));
    for (r, row) in rows.iter().enumerate() {
        for (c, data) in row.iter().enumerate() {
            range.set_value((r as u32, c as u32), data.clone());
        }
    }
    range
}

#[test]
fn range_gives_a_text_an_empty_or_another_cell() {
    let range = range_of(&[
        vec![text("a"), DataType::Empty, DataType::Int(3), DataType::Float(2.5)],
        vec![
            DataType::Bool(true),
            DataType::DateTime(44000.0),
            DataType::Duration(0.5),
            DataType::Error(CellErrorType::Div0),
        ],
        vec![
            DataType::DateTimeIso("2020-01-01".to_string()),
            DataType::DurationIso("PT1H".to_string()),
            text(""),
        ],
    ]);
    let sheet = Sheet::from_range("S".to_string(), &range);
    assert_eq!(sheet.name, "S");
    assert_eq!(
        sheet.rows,
        vec![
            vec![cell("a"), Cell::Empty, Cell::Other, Cell::Other],
            vec![Cell::Other, Cell::Other, Cell::Other, Cell::Other],
            vec![Cell::Other, Cell::Other, cell(""), Cell::Empty],
        ]
    );
}

#[test]
fn range_without_cells_has_no_row() {
    let range: Range<DataType> = Range::empty();
    assert!(Sheet::from_range("S".to_string(), &range).rows.is_empty());
    assert_eq!(
        SheetSchema::new("S".to_string(), &range, &[Language::new("en")]),
        Err(ConversionError::NoHeaderRow { sheet: "S".to_string() })
    );
}

#[test]
fn range_begins_at_its_first_used_cell() {
    let mut range = Range::new((2, 1), (3, 2));
    range.set_value((2, 1), text("prefix"));
    range.set_value((2, 2), text("name"));
    range.set_value((3, 2), text("only"));
    let sheet = Sheet::from_range("S".to_string(), &range);
    assert_eq!(
        sheet.rows,
        vec![vec![cell("prefix"), cell("name")], vec![Cell::Empty, cell("only")]]
    );
}

#[test]
fn schema_is_read_from_the_first_row_of_a_range() {
    let range = range_of(&[
        vec![text("Prefix"), text("Name"), text("en"), DataType::Int(1), text("DE")],
        vec![text("btn_"), text("submit"), text("Submit"), DataType::Empty, text("Absenden")],
    ]);
    let langs = vec![Language::new("en"), Language::new("de"), Language::new("ru")];
    let schema = SheetSchema::new("Buttons".to_string(), &range, &langs).unwrap();
    assert_eq!(
        schema,
        SheetSchema {
            name: "Buttons".to_string(),
            prefix_column: 0,
            name_column: 1,
            translation_columns: vec![
                LanguageColumn { code: "en".to_string(), column: 2 },
                LanguageColumn { code: "de".to_string(), column: 4 },
            ],
        }
    );
    let rows = Sheet::from_range("Buttons".to_string(), &range).rows;
    assert_eq!(SheetSchema::from_rows("Buttons".to_string(), &rows, &langs), Ok(schema));
}

#[test]
fn schema_of_a_range_needs_prefix_and_name() {
    let langs = vec![Language::new("en")];
    let range = range_of(&[vec![DataType::Int(1), text("name")]]);
    assert_eq!(
        SheetSchema::new("S".to_string(), &range, &langs),
        Err(ConversionError::MissingPrefixColumn { sheet: "S".to_string() })
    );
    let range = range_of(&[vec![text("prefix"), DataType::Bool(false)]]);
    assert_eq!(
        SheetSchema::new("S".to_string(), &range, &langs),
        Err(ConversionError::MissingNameColumn { sheet: "S".to_string() })
    );
}

#[test]
fn number_in_a_range_ends_the_conversion() {
    let range = range_of(&[
        vec![text("prefix"), text("name"), text("en")],
        vec![text("a_"), text("b"), DataType::Float(1.0)],
    ]);
    let sheets = vec![Sheet::from_range("S".to_string(), &range)];
    assert_eq!(
        convert_workbook(&sheets, &[Language::new("en")], "out"),
        Err(ConversionError::BadTranslation {
            sheet: "S".to_string(),
            code: "en".to_string(),
            key: "a_b".to_string(),
        })
    );
}
