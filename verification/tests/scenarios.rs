use locale_sheets::cell::Cell;
use locale_sheets::language::Language;
use locale_sheets::notices::{KeyField, Notice};
use locale_sheets::output::OutputFile;
use locale_sheets::pipeline::{convert_sheet, convert_workbook, default_languages, Sheet};
use locale_sheets::report::ConversionError;

const NOTICE: &str = "// File generated automatically. Do not edit manually.\n";

fn text(s: &str) -> Cell {
    Cell::Text(s.to_string())
}

fn sheet(name: &str, rows: Vec<Vec<Cell>>) -> Sheet {
    Sheet { name: name.to_string(), rows }
}

fn buttons() -> Sheet {
    sheet(
        "Buttons",
        vec![
            vec![text("Prefix"), text("Name"), text("en"), text("de")],
            vec![text("btn_"), text("submit"), text("Submit"), text("Absenden")],
        ],
    )
}

/// The content of the last file of the path: the one that stays on disk.
fn content_of(files: &[OutputFile], path: &str) -> String {
    let mut found: Option<String> = None;
    for file in files {
        if file.path == path {
            found = Some(file.content.clone());
        }
    }
    match found {
        Some(content) => content,
        None => panic!("no file {}", path),
    }
}

fn paths_of(files: &[OutputFile]) -> Vec<String> {
    files.iter().map(|file| file.path.clone()).collect()
}

fn translations_text(lines: &str) -> String {
    format!(
        "{}import keys from \"./keys\";\n\nconst translate: {{ [k: string]: string }} = {{\n{}}};\n\nexport default translate;\n",
        NOTICE, lines
    )
}

fn keys_text(lines: &str) -> String {
    format!(
        "{}const keys: {{ [k: string]: string }} = {{\n{}}};\n\nexport default keys;\n",
        NOTICE, lines
    )
}

#[test]
fn buttons_sheet_gives_modules_for_each_language() {
    let sheets = vec![buttons()];
    let langs = default_languages();
    let conversion = convert_workbook(&sheets, &langs, "out").unwrap();
    assert_eq!(conversion.directories, vec!["out/buttons".to_string()]);
    assert_eq!(
        content_of(&conversion.files, "out/buttons/keys.ts"),
        keys_text("  btn_submit: \"btn_submit\",\n")
    );
    assert_eq!(
        content_of(&conversion.files, "out/buttons/en.ts"),
        translations_text("  [keys.btn_submit]: \"Submit\",\n")
    );
    assert_eq!(
        content_of(&conversion.files, "out/buttons/de.ts"),
        translations_text("  [keys.btn_submit]: \"Absenden\",\n")
    );
    for code in ["es", "pt-br", "ru"] {
        assert_eq!(
            content_of(&conversion.files, &format!("out/buttons/{}.ts", code)),
            translations_text("//  [keys.btn_submit]: \"translation_missing\",\n")
        );
    }
}

#[test]
fn files_come_in_the_order_of_sheets_and_languages() {
    let sheets = vec![buttons()];
    let langs = default_languages();
    let conversion = convert_workbook(&sheets, &langs, "out").unwrap();
    assert_eq!(
        paths_of(&conversion.files),
        vec![
            "out/buttons/en.ts",
            "out/buttons/keys.ts",
            "out/buttons/de.ts",
            "out/buttons/keys.ts",
            "out/buttons/pt-br.ts",
            "out/buttons/keys.ts",
            "out/buttons/es.ts",
            "out/buttons/keys.ts",
            "out/buttons/ru.ts",
            "out/buttons/keys.ts",
            "out/keys.ts",
            "out/en.ts",
            "out/de.ts",
            "out/pt-br.ts",
            "out/es.ts",
            "out/ru.ts",
        ]
    );
}

#[test]
fn buttons_sheet_notes_the_languages_without_a_column() {
    let sheets = vec![buttons()];
    let langs = default_languages();
    let conversion = convert_workbook(&sheets, &langs, "out").unwrap();
    assert_eq!(
        conversion.notices,
        vec![
            Notice::MissingColumn { sheet: "Buttons".to_string(), code: "pt-br".to_string() },
            Notice::MissingColumn { sheet: "Buttons".to_string(), code: "es".to_string() },
            Notice::MissingColumn { sheet: "Buttons".to_string(), code: "ru".to_string() },
        ]
    );
    assert_eq!(conversion.notices[0].describe(), "Column for pt-br in sheet Buttons is missing");
}

#[test]
fn gathered_modules_import_and_merge_each_sheet() {
    let sheets = vec![buttons()];
    let langs = default_languages();
    let conversion = convert_workbook(&sheets, &langs, "out").unwrap();
    assert_eq!(
        content_of(&conversion.files, "out/keys.ts"),
        format!(
            "{}import buttons from \"./buttons/keys\";\n\nconst allKeys: {{ [k: string]: string }} = {{\n  ...buttons,\n}};\n\nexport default allKeys;\n",
            NOTICE
        )
    );
    assert_eq!(
        content_of(&conversion.files, "out/pt-br.ts"),
        format!(
            "{}import buttons from \"./buttons/pt-br\";\n\nconst allTranslations: {{ [k: string]: string }} = {{\n  ...buttons,\n}};\n\nexport default allTranslations;\n",
            NOTICE
        )
    );
}

#[test]
fn archive_sheet_gives_no_file_and_no_import() {
    for name in ["Archive", "archive", "ARCHIVE", "aRcHiVe"] {
        let with_archive = vec![
            sheet(name, vec![vec![text("anything")], vec![Cell::Other]]),
            buttons(),
            sheet(name, Vec::new()),
        ];
        let without_archive = vec![buttons()];
        let langs = default_languages();
        let given = convert_workbook(&with_archive, &langs, "out").unwrap();
        assert_eq!(given, convert_workbook(&without_archive, &langs, "out").unwrap());
        for file in &given.files {
            assert!(!file.path.contains("archive"));
            assert!(!file.content.contains("archive"));
        }
        assert_eq!(given.directories, vec!["out/buttons".to_string()]);
    }
}

#[test]
fn workbook_of_the_archive_sheet_alone_gives_empty_gathered_modules() {
    let sheets = vec![sheet("Archive", vec![vec![text("Prefix"), text("Name")]])];
    let langs = vec![Language::new("en")];
    let conversion = convert_workbook(&sheets, &langs, "d").unwrap();
    assert!(conversion.directories.is_empty());
    assert_eq!(paths_of(&conversion.files), vec!["d/keys.ts", "d/en.ts"]);
    assert_eq!(
        conversion.files[0].content,
        format!(
            "{}\nconst allKeys: {{ [k: string]: string }} = {{\n}};\n\nexport default allKeys;\n",
            NOTICE
        )
    );
    assert_eq!(
        conversion.files[1].content,
        format!(
            "{}\nconst allTranslations: {{ [k: string]: string }} = {{\n}};\n\nexport default allTranslations;\n",
            NOTICE
        )
    );
}

#[test]
fn later_sheet_is_merged_after_the_earlier_one() {
    let first = sheet(
        "Buttons",
        vec![
            vec![text("prefix"), text("name"), text("en")],
            vec![text("btn_"), text("submit"), text("Submit")],
        ],
    );
    let second = sheet(
        "Forms",
        vec![
            vec![text("prefix"), text("name"), text("en")],
            vec![text("btn_"), text("submit"), text("Send")],
        ],
    );
    let langs = vec![Language::new("en")];
    let conversion = convert_workbook(&[first, second], &langs, "out").unwrap();
    assert_eq!(
        content_of(&conversion.files, "out/buttons/en.ts"),
        translations_text("  [keys.btn_submit]: \"Submit\",\n")
    );
    assert_eq!(
        content_of(&conversion.files, "out/forms/en.ts"),
        translations_text("  [keys.btn_submit]: \"Send\",\n")
    );
    assert_eq!(
        content_of(&conversion.files, "out/en.ts"),
        format!(
            "{}import buttons from \"./buttons/en\";\nimport forms from \"./forms/en\";\n\nconst allTranslations: {{ [k: string]: string }} = {{\n  ...buttons,\n  ...forms,\n}};\n\nexport default allTranslations;\n",
            NOTICE
        )
    );
    assert_eq!(
        content_of(&conversion.files, "out/keys.ts"),
        format!(
            "{}import buttons from \"./buttons/keys\";\nimport forms from \"./forms/keys\";\n\nconst allKeys: {{ [k: string]: string }} = {{\n  ...buttons,\n  ...forms,\n}};\n\nexport default allKeys;\n",
            NOTICE
        )
    );
}

#[test]
fn converting_twice_gives_the_same_files() {
    let sheets = vec![
        buttons(),
        sheet(
            "Menu",
            vec![
                vec![text("name"), text("ru"), text("prefix")],
                vec![text("open"), text("Открыть"), text("menu_")],
                vec![Cell::Empty, Cell::Empty, Cell::Empty],
                vec![text("lost"), text("x"), text("y")],
            ],
        ),
    ];
    let langs = default_languages();
    let first = convert_workbook(&sheets, &langs, "out").unwrap();
    let second = convert_workbook(&sheets, &langs, "out").unwrap();
    assert_eq!(first, second);
    assert_eq!(
        content_of(&first.files, "out/menu/ru.ts"),
        translations_text("  [keys.menu_open]: \"Открыть\",\n")
    );
}

#[test]
fn first_sheet_that_fails_ends_the_conversion() {
    let sheets = vec![
        buttons(),
        sheet("Broken", vec![vec![text("prefix"), text("en")]]),
        sheet("Empty", Vec::new()),
    ];
    let langs = default_languages();
    assert_eq!(
        convert_workbook(&sheets, &langs, "out"),
        Err(ConversionError::MissingNameColumn { sheet: "Broken".to_string() })
    );
}

#[test]
fn sheet_without_rows_has_no_header() {
    let langs = default_languages();
    let error = convert_workbook(&[sheet("Empty", Vec::new())], &langs, "out").unwrap_err();
    assert_eq!(error, ConversionError::NoHeaderRow { sheet: "Empty".to_string() });
    assert_eq!(error.describe(), "Sheet Empty had no header row");
}

#[test]
fn sheet_without_prefix_column_fails() {
    let langs = default_languages();
    let sheets = vec![sheet("S", vec![vec![text("name"), text("en")]])];
    let error = convert_workbook(&sheets, &langs, "out").unwrap_err();
    assert_eq!(error, ConversionError::MissingPrefixColumn { sheet: "S".to_string() });
    assert_eq!(error.describe(), "Sheet S had no Prefix column");
}

#[test]
fn sheet_without_name_column_fails() {
    let langs = default_languages();
    let sheets = vec![sheet("S", vec![vec![text("prefix"), text("en")]])];
    let error = convert_workbook(&sheets, &langs, "out").unwrap_err();
    assert_eq!(error, ConversionError::MissingNameColumn { sheet: "S".to_string() });
    assert_eq!(error.describe(), "Sheet S had no Name column");
}

#[test]
fn number_in_a_language_column_ends_the_conversion() {
    let langs = default_languages();
    let sheets = vec![sheet(
        "S",
        vec![
            vec![text("prefix"), text("name"), text("en"), text("de")],
            vec![text("a_"), text("ok"), text("fine"), Cell::Empty],
            vec![text("a_"), text("bad"), text("fine"), Cell::Other],
            vec![text("a_"), text("worse"), Cell::Other, Cell::Other],
        ],
    )];
    let error = convert_workbook(&sheets, &langs, "out").unwrap_err();
    assert_eq!(
        error,
        ConversionError::BadTranslation {
            sheet: "S".to_string(),
            code: "de".to_string(),
            key: "a_bad".to_string(),
        }
    );
    assert_eq!(error.describe(), "Bad translation for lang de in sheet S key a_bad");
}

#[test]
fn number_after_a_blank_row_is_not_read() {
    let langs = default_languages();
    let sheets = vec![sheet(
        "S",
        vec![
            vec![text("prefix"), text("name"), text("en")],
            vec![text("a_"), text("ok"), text("fine")],
            vec![Cell::Empty, Cell::Empty, Cell::Empty],
            vec![text("a_"), text("bad"), Cell::Other],
        ],
    )];
    let conversion = convert_workbook(&sheets, &langs, "out").unwrap();
    assert_eq!(
        content_of(&conversion.files, "out/s/en.ts"),
        translations_text("  [keys.a_ok]: \"fine\",\n")
    );
}

#[test]
fn number_in_a_key_cell_gives_no_text_and_a_notice() {
    let langs = vec![Language::new("en")];
    let sheets = vec![sheet(
        "S",
        vec![
            vec![text("prefix"), text("name"), text("en")],
            vec![Cell::Other, text("one"), text("1")],
            vec![text("p_"), Cell::Other, text("2")],
            vec![Cell::Other, Cell::Other, text("3")],
            vec![Cell::Empty, text("four"), text("4")],
        ],
    )];
    let conversion = convert_workbook(&sheets, &langs, "out").unwrap();
    assert_eq!(
        content_of(&conversion.files, "out/s/keys.ts"),
        keys_text("  one: \"one\",\n  p_: \"p_\",\n  : \"\",\n  four: \"four\",\n")
    );
    let bad = |field: KeyField, row: usize| Notice::BadKeyCell {
        sheet: "S".to_string(),
        field,
        row,
    };
    assert_eq!(
        conversion.notices,
        vec![
            bad(KeyField::Prefix, 1),
            bad(KeyField::Name, 2),
            bad(KeyField::Prefix, 3),
            bad(KeyField::Name, 3),
        ]
    );
    assert_eq!(conversion.notices[0].describe(), "Warning: Bad prefix, not a string, in sheet S");
    assert_eq!(conversion.notices[1].describe(), "Warning: Bad name, not a string, in sheet S");
}

#[test]
fn workbook_without_languages_gives_directories_and_keys_module() {
    let conversion = convert_workbook(&[buttons()], &[], "out").unwrap();
    assert_eq!(conversion.directories, vec!["out/buttons".to_string()]);
    assert_eq!(paths_of(&conversion.files), vec!["out/keys.ts"]);
    assert_eq!(
        conversion.files[0].content,
        format!(
            "{}\nconst allKeys: {{ [k: string]: string }} = {{\n  ...buttons,\n}};\n\nexport default allKeys;\n",
            NOTICE
        )
    );
}

#[test]
fn sheets_of_one_name_in_two_cases_share_a_module() {
    let langs = vec![Language::new("en")];
    let conversion = convert_workbook(&[buttons(), sheet("BUTTONS", buttons().rows)], &langs, "o")
        .unwrap();
    assert_eq!(conversion.directories, vec!["o/buttons".to_string(), "o/buttons".to_string()]);
    assert_eq!(
        content_of(&conversion.files, "o/keys.ts"),
        format!(
            "{}import buttons from \"./buttons/keys\";\n\nconst allKeys: {{ [k: string]: string }} = {{\n  ...buttons,\n  ...buttons,\n}};\n\nexport default allKeys;\n",
            NOTICE
        )
    );
}

#[test]
fn convert_sheet_names_the_modules_as_it_is_told() {
    let langs = vec![Language::new("de")];
    let output = convert_sheet(&buttons(), "knoepfe", &langs, "ziel").unwrap();
    assert_eq!(paths_of(&output.files), vec!["ziel/knoepfe/de.ts", "ziel/knoepfe/keys.ts"]);
    assert!(output.notices.is_empty());
}

#[test]
fn default_languages_are_the_configured_five() {
    let langs = default_languages();
    let codes: Vec<&str> = langs.iter().map(|lang| lang.code).collect();
    assert_eq!(codes, vec!["en", "de", "pt-br", "es", "ru"]);
    assert!(langs.iter().all(|lang| lang.translations.is_empty()));
}

#[test]
fn every_file_of_a_conversion_begins_with_the_notice() {
    let sheets = vec![buttons(), sheet("Menu", vec![vec![text("prefix"), text("name")]])];
    let conversion = convert_workbook(&sheets, &default_languages(), "out").unwrap();
    assert_eq!(conversion.files.len(), 26);
    for file in &conversion.files {
        assert!(file.content.starts_with(NOTICE), "{}", file.path);
    }
}

#[test]
fn writing_the_files_again_changes_nothing() {
    let sheets = vec![buttons(), sheet("BUTTONS", vec![vec![text("prefix"), text("name")]])];
    let langs = default_languages();
    let mut destination = std::collections::HashMap::new();
    destination.insert("out/other.ts".to_string(), "kept".to_string());
    for file in convert_workbook(&sheets, &langs, "out").unwrap().files {
        destination.insert(file.path, file.content);
    }
    let once = destination.clone();
    for file in convert_workbook(&sheets, &langs, "out").unwrap().files {
        destination.insert(file.path, file.content);
    }
    assert_eq!(destination, once);
    assert_eq!(destination["out/other.ts"], "kept");
    assert_eq!(destination["out/buttons/keys.ts"], keys_text(""));
    assert_eq!(destination.len(), 13);
}
