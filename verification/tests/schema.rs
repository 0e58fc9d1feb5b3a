use locale_sheets::cell::Cell;
use locale_sheets::language::Language;
use locale_sheets::notices::Notice;
use locale_sheets::report::ConversionError;
use locale_sheets::sheet_schema::{lower_cells, position_of, LanguageColumn, SheetSchema};

fn cell(s: &str) -> Cell {
    Cell::Text(s.to_string())
}

fn langs(codes: &[&'static str]) -> Vec<Language> {
    codes.iter().map(|code| Language::new(code)).collect()
}

fn column(code: &str, column: usize) -> LanguageColumn {
    LanguageColumn { code: code.to_string(), column }
}

fn schema() -> SheetSchema {
    SheetSchema {
        name: "S".to_string(),
        prefix_column: 0,
        name_column: 1,
        translation_columns: vec![column("en", 2), column("de", 4)],
    }
}

#[test]
fn cell_tells_its_text() {
    assert_eq!(cell("a").as_text(), Some("a"));
    assert_eq!(cell("").as_text(), Some(""));
    assert_eq!(Cell::Empty.as_text(), None);
    assert_eq!(Cell::Other.as_text(), None);
}

#[test]
fn cell_tells_whether_it_is_empty() {
    assert!(Cell::Empty.is_empty());
    assert!(!Cell::Other.is_empty());
    assert!(!cell("").is_empty());
    assert!(!cell("x").is_empty());
}

#[test]
fn row_is_blank_when_each_cell_is_empty() {
    assert!(locale_sheets::cell::row_is_blank(&vec![]));
    assert!(locale_sheets::cell::row_is_blank(&vec![Cell::Empty, Cell::Empty]));
    assert!(!locale_sheets::cell::row_is_blank(&vec![Cell::Empty, cell("")]));
    assert!(!locale_sheets::cell::row_is_blank(&vec![Cell::Other, Cell::Empty]));
}

#[test]
fn header_is_read_whatever_the_case_of_its_letters() {
    let rows = vec![vec![cell("PREFIX"), cell("NaMe"), cell("EN"), cell("Pt-Br")]];
    let schema = SheetSchema::from_rows("S".to_string(), &rows, &langs(&["en", "de", "pt-br"])).unwrap();
    assert_eq!(schema.name, "S");
    assert_eq!(schema.prefix_column, 0);
    assert_eq!(schema.name_column, 1);
    assert_eq!(schema.translation_columns, vec![column("en", 2), column("pt-br", 3)]);
}

#[test]
fn language_code_is_matched_whatever_the_case_of_its_letters() {
    let rows = vec![vec![cell("prefix"), cell("name"), cell("en")]];
    let schema = SheetSchema::from_rows("S".to_string(), &rows, &langs(&["EN"])).unwrap();
    assert_eq!(schema.translation_columns, vec![column("EN", 2)]);
    assert_eq!(schema.column_for("EN"), Some(2));
    assert_eq!(schema.column_for("en"), None);
}

#[test]
fn first_of_two_columns_of_one_title_counts() {
    let rows = vec![vec![
        cell("en"),
        cell("name"),
        cell("Prefix"),
        cell("NAME"),
        cell("prefix"),
        cell("EN"),
    ]];
    let schema = SheetSchema::from_rows("S".to_string(), &rows, &langs(&["en"])).unwrap();
    assert_eq!(schema.prefix_column, 2);
    assert_eq!(schema.name_column, 1);
    assert_eq!(schema.translation_columns, vec![column("en", 0)]);
}

#[test]
fn header_cells_without_text_are_no_columns() {
    let rows = vec![vec![Cell::Other, Cell::Empty, cell("prefix"), Cell::Other, cell("name")]];
    let schema = SheetSchema::from_rows("S".to_string(), &rows, &langs(&["en"])).unwrap();
    assert_eq!(schema.prefix_column, 2);
    assert_eq!(schema.name_column, 4);
    assert!(schema.translation_columns.is_empty());
}

#[test]
fn title_must_be_the_whole_text_of_the_cell() {
    let rows = vec![vec![cell(" prefix"), cell("name"), cell("prefix ")]];
    assert_eq!(
        SheetSchema::from_rows("S".to_string(), &rows, &langs(&["en"])),
        Err(ConversionError::MissingPrefixColumn { sheet: "S".to_string() })
    );
}

#[test]
fn schema_needs_a_header_row() {
    let rows: Vec<Vec<Cell>> = Vec::new();
    assert_eq!(
        SheetSchema::from_rows("Nothing".to_string(), &rows, &langs(&["en"])),
        Err(ConversionError::NoHeaderRow { sheet: "Nothing".to_string() })
    );
}

#[test]
fn schema_needs_a_prefix_column_before_a_name_column() {
    let rows = vec![vec![cell("en")]];
    assert_eq!(
        SheetSchema::from_rows("S".to_string(), &rows, &langs(&["en"])),
        Err(ConversionError::MissingPrefixColumn { sheet: "S".to_string() })
    );
    let rows = vec![vec![cell("prefix")], vec![cell("name")]];
    assert_eq!(
        SheetSchema::from_rows("S".to_string(), &rows, &langs(&["en"])),
        Err(ConversionError::MissingNameColumn { sheet: "S".to_string() })
    );
}

#[test]
fn language_configured_twice_has_one_column() {
    let rows = vec![vec![cell("prefix"), cell("name"), cell("en")]];
    let schema = SheetSchema::from_rows("S".to_string(), &rows, &langs(&["en", "en"])).unwrap();
    assert_eq!(schema.column_for("en"), Some(2));
}

#[test]
fn lower_cells_gives_lower_case_texts() {
    let header = vec![cell("Prefix"), Cell::Empty, cell("ÄÖ"), Cell::Other, cell("x1")];
    assert_eq!(
        lower_cells(&header),
        vec![Some("prefix".to_string()), None, Some("äö".to_string()), None, Some("x1".to_string())]
    );
}

#[test]
fn position_of_finds_the_first_place() {
    let items = vec![None, Some("b".to_string()), Some("a".to_string()), Some("b".to_string())];
    assert_eq!(position_of(&items, &"b".to_string()), Some(1));
    assert_eq!(position_of(&items, &"a".to_string()), Some(2));
    assert_eq!(position_of(&items, &"c".to_string()), None);
    assert_eq!(position_of(&items, &"B".to_string()), None);
    assert_eq!(position_of(&Vec::new(), &"b".to_string()), None);
}

#[test]
fn column_for_takes_the_first_entry_of_a_code() {
    let mut schema = schema();
    schema.translation_columns.push(column("en", 7));
    assert_eq!(schema.column_for("en"), Some(2));
    assert_eq!(schema.column_for("de"), Some(4));
    assert_eq!(schema.column_for("ru"), None);
}

#[test]
fn row_column_gives_the_text_or_none() {
    let schema = schema();
    let row = vec![cell("a"), Cell::Empty, Cell::Other];
    assert_eq!(schema.get_row_column(&row, 0), "a");
    assert_eq!(schema.get_row_column(&row, 1), "");
    assert_eq!(schema.get_row_column(&row, 2), "");
    assert_eq!(schema.get_row_column(&row, 3), "");
}

#[test]
fn row_key_is_prefix_then_name() {
    let schema = schema();
    assert_eq!(schema.get_row_key(&vec![cell("btn_"), cell("submit")]), "btn_submit");
    assert_eq!(schema.get_row_key(&vec![cell("btn_")]), "btn_");
    assert_eq!(schema.get_row_key(&vec![Cell::Empty, cell("submit")]), "submit");
    assert_eq!(schema.get_row_key(&vec![Cell::Other, Cell::Other]), "");
    assert_eq!(schema.get_row_key(&vec![]), "");
}

#[test]
fn row_translation_is_the_text_of_the_language_column() {
    let schema = schema();
    let row = vec![cell("p"), cell("n"), cell("Hello"), cell("ignored"), Cell::Empty];
    assert_eq!(schema.get_row_translation(&row, &Language::new("en")), Ok(Some("Hello".to_string())));
    assert_eq!(schema.get_row_translation(&row, &Language::new("de")), Ok(None));
    assert_eq!(schema.get_row_translation(&row, &Language::new("ru")), Ok(None));
    let short = vec![cell("p"), cell("n")];
    assert_eq!(schema.get_row_translation(&short, &Language::new("en")), Ok(None));
}

#[test]
fn row_translation_of_another_kind_is_an_error() {
    let schema = schema();
    let row = vec![cell("p"), cell("n"), Cell::Other];
    assert_eq!(
        schema.get_row_translation(&row, &Language::new("en")),
        Err(ConversionError::BadTranslation {
            sheet: "S".to_string(),
            code: "en".to_string(),
            key: "pn".to_string(),
        })
    );
    assert_eq!(schema.get_row_translation(&row, &Language::new("ru")), Ok(None));
}

#[test]
fn missing_columns_are_noted_in_the_order_of_the_languages() {
    let schema = schema();
    assert_eq!(
        schema.missing_columns(&langs(&["ru", "en", "es", "de", "ru"])),
        vec![
            Notice::MissingColumn { sheet: "S".to_string(), code: "ru".to_string() },
            Notice::MissingColumn { sheet: "S".to_string(), code: "es".to_string() },
            Notice::MissingColumn { sheet: "S".to_string(), code: "ru".to_string() },
        ]
    );
}
