//! What holds of every conversion, proved from the definitions that the
//! contracts of the library are stated with.

use vstd::prelude::*;
use crate::aggregate::{
    distinct,
    global_language_files,
    is_reserved_sheet,
    lemma_distinct_keeps_each_once,
    lemma_module_names_push,
    module_name,
    module_names,
};
use crate::cell::{is_blank_row, CellView};
use crate::extract::{blank_marks, body_rows, data_rows, entries_for, extracted};
use crate::language::{
    active_line,
    disabled_line,
    keys_line,
    keys_lines,
    keys_module,
    translation_lines,
    LanguageView,
    TranslationView,
    GENERATED_NOTICE,
};
use crate::output::{lemma_written, written, OutputFileView};
use crate::pipeline::{
    all_language_imports,
    converted,
    keys_import,
    keys_imports,
    sheet_files,
    sheet_names,
    sheets_output,
    ConversionView,
    SheetView,
};
use crate::report::ConversionErrorView;
use crate::sheet_schema::{
    cell_reads,
    lemma_find_column,
    resolved_schema,
    row_key,
    translation_cell,
    SheetSchemaView,
};

verus! {

/// The data rows of a sheet are the rows below the header that come before
/// the first blank one: none of them is blank, and they end at a blank row or
/// at the end of the sheet.
pub proof fn lemma_data_rows_end_at_first_blank(rows: Seq<Seq<CellView>>)
    ensures
        data_rows(rows).len() <= body_rows(rows).len(),
        data_rows(rows) == body_rows(rows).take(data_rows(rows).len() as int),
        forall|k: int|
            0 <= k < data_rows(rows).len() ==> !is_blank_row(#[trigger] data_rows(rows)[k]),
        data_rows(rows).len() < body_rows(rows).len() ==> is_blank_row(
            body_rows(rows)[data_rows(rows).len() as int],
        ),
{
    let body = body_rows(rows);
    let marks = blank_marks(body);
    marks.index_of_first_ensures(true);
    match marks.index_of_first(true) {
        Some(end) => {
            assert forall|k: int| 0 <= k < end implies !is_blank_row(
                #[trigger] body.take(end)[k],
            ) by {
                assert(!marks[k]);
            }
        },
        None => {
            assert forall|k: int| 0 <= k < body.len() implies !is_blank_row(#[trigger] body[k]) by {
                assert(!marks[k]);
            }
        },
    }
}

/// Each language gets one entry for each data row: where a sheet can be read,
/// it gives as many languages as are configured, and each of them holds as
/// many entries as the sheet has data rows.
pub proof fn lemma_one_entry_for_each_data_row(
    schema: SheetSchemaView,
    rows: Seq<Seq<CellView>>,
    codes: Seq<Seq<char>>,
    l: int,
)
    requires
        extracted(schema, rows, codes) is Ok,
        0 <= l < codes.len(),
    ensures
        extracted(schema, rows, codes)->Ok_0.len() == codes.len(),
        extracted(schema, rows, codes)->Ok_0[l].code == codes[l],
        extracted(schema, rows, codes)->Ok_0[l].translations.len() == data_rows(rows).len(),
{
}

/// A blank row ends a sheet: with a blank row and whatever rows after it, a
/// sheet has the data rows that it has without them.
pub proof fn lemma_rows_after_blank_are_not_read(
    head: Seq<Seq<CellView>>,
    blank: Seq<CellView>,
    rest: Seq<Seq<CellView>>,
)
    requires
        head.len() >= 1,
        is_blank_row(blank),
    ensures
        data_rows(head.push(blank) + rest) == data_rows(head),
{
    let rows = head.push(blank) + rest;
    let short = body_rows(head);
    let long = body_rows(rows);
    let short_marks = blank_marks(short);
    let long_marks = blank_marks(long);
    short_marks.index_of_first_ensures(true);
    long_marks.index_of_first_ensures(true);
    assert(long_marks[short.len() as int]);
    assert forall|k: int| 0 <= k < short.len() implies long[k] == short[k] && long_marks[k]
        == short_marks[k] by {}
}

/// A blank row ends the reading of a sheet: what is read from a sheet with a
/// blank row, and whatever rows after it, is what is read from the sheet
/// without them.
pub proof fn lemma_blank_row_ends_extraction(
    schema: SheetSchemaView,
    head: Seq<Seq<CellView>>,
    blank: Seq<CellView>,
    rest: Seq<Seq<CellView>>,
    codes: Seq<Seq<char>>,
)
    requires
        head.len() >= 1,
        is_blank_row(blank),
    ensures
        extracted(schema, head.push(blank) + rest, codes) == extracted(schema, head, codes),
{
    lemma_rows_after_blank_are_not_read(head, blank, rest);
}

/// A language without a column in the header of a sheet has no translation in
/// it: each of its entries is a `NotFound`, and each line of its translations
/// module is a disabled one.
pub proof fn lemma_missing_column_gives_disabled_lines(
    name: Seq<char>,
    rows: Seq<Seq<CellView>>,
    codes: Seq<Seq<char>>,
    l: int,
)
    requires
        rows.len() >= 1,
        0 <= l < codes.len(),
        forall|i: int| 0 <= i < rows[0].len() ==> !cell_reads(#[trigger] rows[0][i], codes[l]),
        resolved_schema(name, rows, codes) is Ok,
    ensures
        ({
            let schema = resolved_schema(name, rows, codes)->Ok_0;
            let data = data_rows(rows);
            let entries = entries_for(schema, data, codes[l]);
            &&& !schema.translation_columns.contains_key(codes[l])
            &&& (extracted(schema, rows, codes) matches Ok(languages)
                ==> languages[l].translations == entries)
            &&& entries.len() == data.len()
            &&& forall|r: int|
                0 <= r < data.len() ==> #[trigger] entries[r] == TranslationView::NotFound {
                    key: row_key(schema, data[r]),
                }
            &&& translation_lines(entries) == Seq::new(
                data.len(),
                |r: int| disabled_line(row_key(schema, data[r])),
            )
        }),
{
    lemma_find_column(rows[0], codes[l]);
}

/// The keys module of a sheet does not depend on the language whose entries
/// it is written from: the entries of all languages have the same keys.
pub proof fn lemma_keys_module_same_for_all_languages(
    schema: SheetSchemaView,
    data: Seq<Seq<CellView>>,
    code: Seq<char>,
    other: Seq<char>,
)
    ensures
        keys_lines(entries_for(schema, data, code)) == keys_lines(
            entries_for(schema, data, other),
        ),
        keys_module(entries_for(schema, data, code)) == keys_module(
            entries_for(schema, data, other),
        ),
{
    assert(keys_lines(entries_for(schema, data, code)) =~= keys_lines(
        entries_for(schema, data, other),
    ));
}

/// The keys module and a translations module of a sheet list the same keys,
/// row by row: both have one line for each data row, the line of the keys
/// module names the key of the row, and the line of the translations module,
/// of whatever language, names the same key, as an active or as a disabled
/// line. A key that several rows have is listed once for each of them.
pub proof fn lemma_modules_list_the_same_keys(
    schema: SheetSchemaView,
    data: Seq<Seq<CellView>>,
    code: Seq<char>,
    other: Seq<char>,
    r: int,
)
    requires
        0 <= r < data.len(),
    ensures
        keys_lines(entries_for(schema, data, code)).len() == data.len(),
        translation_lines(entries_for(schema, data, other)).len() == data.len(),
        keys_lines(entries_for(schema, data, code))[r] == keys_line(row_key(schema, data[r])),
        match translation_cell(schema, data[r], other) {
            CellView::Text(value) => translation_lines(entries_for(schema, data, other))[r]
                == active_line(row_key(schema, data[r]), value),
            _ => translation_lines(entries_for(schema, data, other))[r] == disabled_line(
                row_key(schema, data[r]),
            ),
        },
{
}

/// Writing the same files once more changes nothing.
pub proof fn lemma_writing_again_changes_nothing(
    destination: Map<Seq<char>, Seq<char>>,
    files: Seq<OutputFileView>,
)
    ensures
        written(written(destination, files), files) == written(destination, files),
{
    let once = written(destination, files);
    let twice = written(once, files);
    assert forall|path: Seq<char>| #[trigger]
        twice.dom().contains(path) == once.dom().contains(path) by {
        lemma_written(destination, files, path);
        lemma_written(once, files, path);
    }
    assert forall|path: Seq<char>| #[trigger] once.dom().contains(path) implies twice[path]
        == once[path] by {
        lemma_written(destination, files, path);
        lemma_written(once, files, path);
    }
}

/// Converting is idempotent: a second conversion of the same workbook, with
/// the same languages and to the same place, gives what the first gave, and
/// writing its files over those of the first leaves every file as it was.
pub proof fn lemma_second_conversion_changes_nothing(
    sheets: Seq<SheetView>,
    codes: Seq<Seq<char>>,
    dest_path: Seq<char>,
    first: ConversionView,
    second: ConversionView,
    destination: Map<Seq<char>, Seq<char>>,
)
    requires
        converted(sheets, codes, dest_path) == Ok::<ConversionView, ConversionErrorView>(first),
        converted(sheets, codes, dest_path) == Ok::<ConversionView, ConversionErrorView>(second),
    ensures
        second == first,
        written(written(destination, first.files), second.files) == written(
            destination,
            first.files,
        ),
{
    lemma_writing_again_changes_nothing(destination, first.files);
}

/// A sheet of the reserved name has no module and gives no file, whatever
/// its rows hold.
pub proof fn lemma_reserved_sheet_has_no_module(
    sheets: Seq<SheetView>,
    i: int,
    codes: Seq<Seq<char>>,
    dest_path: Seq<char>,
)
    requires
        0 <= i < sheets.len(),
        is_reserved_sheet(sheets[i].name),
    ensures
        module_names(sheet_names(sheets.remove(i))) == module_names(sheet_names(sheets)),
        sheets_output(sheets.remove(i), codes, dest_path) == sheets_output(
            sheets,
            codes,
            dest_path,
        ),
    decreases sheets.len(),
{
    let names = sheet_names(sheets);
    let fewer = sheets.remove(i);
    assert(names == sheet_names(sheets.drop_last()).push(sheets.last().name));
    lemma_module_names_push(sheet_names(sheets.drop_last()), sheets.last().name);
    if i < sheets.len() - 1 {
        lemma_reserved_sheet_has_no_module(sheets.drop_last(), i, codes, dest_path);
        assert(fewer.drop_last() == sheets.drop_last().remove(i));
        assert(sheet_names(fewer) == sheet_names(fewer.drop_last()).push(sheets.last().name));
        lemma_module_names_push(sheet_names(fewer.drop_last()), sheets.last().name);
    }
}

/// A sheet of the reserved name gives nothing: a workbook is converted as if
/// the sheet were not in it. No file is written for it, and the modules that
/// gather the sheets neither import nor merge it.
pub proof fn lemma_reserved_sheet_gives_nothing(
    sheets: Seq<SheetView>,
    i: int,
    codes: Seq<Seq<char>>,
    dest_path: Seq<char>,
)
    requires
        0 <= i < sheets.len(),
        is_reserved_sheet(sheets[i].name),
    ensures
        converted(sheets.remove(i), codes, dest_path) == converted(sheets, codes, dest_path),
{
    lemma_reserved_sheet_has_no_module(sheets, i, codes, dest_path);
    let names = sheet_names(sheets);
    let fewer = sheet_names(sheets.remove(i));
    let modules = module_names(names);
    let imports = all_language_imports(modules, codes);
    assert(global_language_files(dest_path, codes, imports, fewer) =~= global_language_files(
        dest_path,
        codes,
        imports,
        names,
    ));
}

/// A line that follows itself changes nothing of what is left without the
/// repetitions.
proof fn lemma_distinct_of_repeated(lines: Seq<Seq<char>>, line: Seq<char>, times: nat)
    requires
        times >= 1,
    ensures
        distinct(lines + Seq::new(times, |i: int| line)) == distinct(lines.push(line)),
    decreases times,
{
    let all = lines + Seq::new(times, |i: int| line);
    if times == 1 {
        assert(all =~= lines.push(line));
    } else {
        let fewer = lines + Seq::new((times - 1) as nat, |i: int| line);
        lemma_distinct_of_repeated(lines, line, (times - 1) as nat);
        assert(all.drop_last() =~= fewer);
        lemma_distinct_keeps_each_once(fewer);
    }
}

/// The module that gathers the keys imports the keys module of each sheet
/// once, however many languages are configured, if any is: the imports that
/// a conversion asks for, without their repetitions, are the imports of the
/// sheets' keys modules without theirs.
pub proof fn lemma_keys_modules_are_imported_once(modules: Seq<Seq<char>>, languages: nat)
    requires
        languages >= 1,
    ensures
        distinct(keys_imports(modules, languages)) == distinct(
            Seq::new(modules.len(), |i: int| keys_import(modules[i])),
        ),
    decreases modules.len(),
{
    let once = Seq::new(modules.len(), |i: int| keys_import(modules[i]));
    if modules.len() > 0 {
        let earlier = modules.drop_last();
        let earlier_once = Seq::new(earlier.len(), |i: int| keys_import(earlier[i]));
        let line = keys_import(modules.last());
        lemma_keys_modules_are_imported_once(earlier, languages);
        lemma_distinct_of_repeated(keys_imports(earlier, languages), line, languages);
        assert(keys_imports(earlier, languages).push(line).drop_last() == keys_imports(
            earlier,
            languages,
        ));
        assert(once.drop_last() =~= earlier_once);
    }
}

/// Whether a text begins with the notice that marks a generated module.
pub open spec fn begins_with_notice(content: Seq<char>) -> bool {
    GENERATED_NOTICE@.is_prefix_of(content)
}

/// Each file of a sheet begins with the notice.
proof fn lemma_sheet_files_begin_with_notice(
    dest_path: Seq<char>,
    module: Seq<char>,
    languages: Seq<LanguageView>,
    i: int,
)
    requires
        0 <= i < sheet_files(dest_path, module, languages).len(),
    ensures
        begins_with_notice(sheet_files(dest_path, module, languages)[i].content),
    decreases languages.len(),
{
    if languages.len() > 0 {
        let earlier = sheet_files(dest_path, module, languages.drop_last());
        if i < earlier.len() {
            lemma_sheet_files_begin_with_notice(dest_path, module, languages.drop_last(), i);
        }
    }
}

/// Each file that the sheets give begins with the notice.
proof fn lemma_sheets_files_begin_with_notice(
    sheets: Seq<SheetView>,
    codes: Seq<Seq<char>>,
    dest_path: Seq<char>,
    i: int,
)
    requires
        sheets_output(sheets, codes, dest_path) is Ok,
        0 <= i < sheets_output(sheets, codes, dest_path)->Ok_0.files.len(),
    ensures
        begins_with_notice(sheets_output(sheets, codes, dest_path)->Ok_0.files[i].content),
    decreases sheets.len(),
{
    if sheets.len() > 0 {
        let earlier = sheets_output(sheets.drop_last(), codes, dest_path)->Ok_0;
        if i < earlier.files.len() {
            lemma_sheets_files_begin_with_notice(sheets.drop_last(), codes, dest_path, i);
        } else {
            let last = sheets.last();
            let schema = resolved_schema(last.name, last.rows, codes)->Ok_0;
            let languages = extracted(schema, last.rows, codes)->Ok_0;
            lemma_sheet_files_begin_with_notice(
                dest_path,
                module_name(last.name),
                languages,
                i - earlier.files.len(),
            );
        }
    }
}

/// Every file that a conversion gives begins with the notice that it was
/// generated.
pub proof fn lemma_every_file_begins_with_notice(
    sheets: Seq<SheetView>,
    codes: Seq<Seq<char>>,
    dest_path: Seq<char>,
    i: int,
)
    requires
        converted(sheets, codes, dest_path) is Ok,
        0 <= i < converted(sheets, codes, dest_path)->Ok_0.files.len(),
    ensures
        begins_with_notice(converted(sheets, codes, dest_path)->Ok_0.files[i].content),
{
    let of_sheets = sheets_output(sheets, codes, dest_path)->Ok_0.files;
    if i < of_sheets.len() {
        lemma_sheets_files_begin_with_notice(sheets, codes, dest_path, i);
    }
}

} // verus!
