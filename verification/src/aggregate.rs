//! The modules that gather the modules of all sheets: one for the keys, and
//! one for each language.

use vstd::prelude::*;
use vstd::string::*;
use crate::language::{Language, GENERATED_NOTICE};
use crate::output::{OutputFile, OutputFileView};
use crate::sheet_schema::codes_of;
use crate::text::{eq_ignoring_case, join, lemma_join_take, lowercase, to_lowercase};

verus! {

/// Whether a sheet has the reserved name: a sheet named "archive", in
/// whatever case, is never converted.
pub open spec fn is_reserved_sheet(name: Seq<char>) -> bool {
    eq_ignoring_case(name, "archive"@)
}

/// The name of the module of a sheet, which is also the name of its
/// directory: the sheet's name in lower case.
pub open spec fn module_name(sheet_name: Seq<char>) -> Seq<char> {
    lowercase(sheet_name)
}

/// The module names of all the sheets of a workbook, the reserved one too.
pub open spec fn lowered_names(sheet_names: Seq<Seq<char>>) -> Seq<Seq<char>> {
    Seq::new(sheet_names.len(), |i: int| module_name(sheet_names[i]))
}

/// The lines but those that are the unwanted text, in their order.
pub open spec fn without(lines: Seq<Seq<char>>, unwanted: Seq<char>) -> Seq<Seq<char>>
    decreases lines.len(),
{
    if lines.len() == 0 {
        Seq::empty()
    } else if lines.last() == unwanted {
        without(lines.drop_last(), unwanted)
    } else {
        without(lines.drop_last(), unwanted).push(lines.last())
    }
}

/// The names of the modules of the sheets that are converted, in the order of
/// the sheets: a sheet of the reserved name has no module.
pub open spec fn module_names(sheet_names: Seq<Seq<char>>) -> Seq<Seq<char>> {
    without(lowered_names(sheet_names), lowercase("archive"@))
}

/// One sheet more adds its module, unless it has the reserved name.
pub proof fn lemma_module_names_push(sheet_names: Seq<Seq<char>>, name: Seq<char>)
    ensures
        module_names(sheet_names.push(name)) == if is_reserved_sheet(name) {
            module_names(sheet_names)
        } else {
            module_names(sheet_names).push(module_name(name))
        },
{
    let longer = lowered_names(sheet_names.push(name));
    assert(longer.drop_last() =~= lowered_names(sheet_names));
}

/// The lines without their repetitions: of lines that are the same text only
/// the first stays, and the lines that stay keep their order.
pub open spec fn distinct(lines: Seq<Seq<char>>) -> Seq<Seq<char>>
    decreases lines.len(),
{
    if lines.len() == 0 {
        Seq::empty()
    } else if distinct(lines.drop_last()).contains(lines.last()) {
        distinct(lines.drop_last())
    } else {
        distinct(lines.drop_last()).push(lines.last())
    }
}

/// Of the lines, each text stays: what is left holds a text just when the
/// lines hold it, and holds no text twice.
pub proof fn lemma_distinct_keeps_each_once(lines: Seq<Seq<char>>)
    ensures
        distinct(lines).no_duplicates(),
        forall|line: Seq<char>| #[trigger] distinct(lines).contains(line) <==> lines.contains(line),
    decreases lines.len(),
{
    if lines.len() > 0 {
        let earlier = lines.drop_last();
        let kept = distinct(earlier);
        lemma_distinct_keeps_each_once(earlier);
        assert forall|line: Seq<char>| #[trigger]
            distinct(lines).contains(line) <==> lines.contains(line) by {
            if lines.contains(line) {
                let i = choose|i: int| 0 <= i < lines.len() && lines[i] == line;
                if i < earlier.len() {
                    assert(earlier[i] == line);
                    assert(kept.contains(line));
                    let k = choose|k: int| 0 <= k < kept.len() && kept[k] == line;
                    assert(distinct(lines)[k] == line);
                } else if !kept.contains(line) {
                    assert(distinct(lines)[kept.len() as int] == line);
                }
            }
            if distinct(lines).contains(line) {
                let k = choose|k: int| 0 <= k < distinct(lines).len() && distinct(lines)[k] == line;
                if k < kept.len() {
                    assert(kept.contains(line));
                }
            }
        }
    }
}

/// What is left of the lines stands in the order in which the texts first
/// stood: of two lines that are left, the earlier one first stood earlier.
pub proof fn lemma_distinct_keeps_first_places(lines: Seq<Seq<char>>, i: int, j: int)
    requires
        0 <= i < j < distinct(lines).len(),
    ensures
        lines.index_of_first(distinct(lines)[i]) is Some,
        lines.index_of_first(distinct(lines)[j]) is Some,
        lines.index_of_first(distinct(lines)[i])->0 < lines.index_of_first(distinct(lines)[j])->0,
    decreases lines.len(),
{
    let earlier = lines.drop_last();
    let kept = distinct(earlier);
    let a = distinct(lines)[i];
    let b = distinct(lines)[j];
    lemma_distinct_keeps_each_once(lines);
    lemma_distinct_keeps_each_once(earlier);
    lines.index_of_first_ensures(a);
    lines.index_of_first_ensures(b);
    assert(distinct(lines).contains(a) && distinct(lines).contains(b));
    if j < kept.len() {
        lemma_distinct_keeps_first_places(earlier, i, j);
        earlier.index_of_first_ensures(a);
        earlier.index_of_first_ensures(b);
        assert(earlier[lines.index_of_first(b)->0] == b);
    } else {
        if lines.index_of_first(b)->0 < earlier.len() {
            assert(earlier[lines.index_of_first(b)->0] == b);
        }
    }
}

/// Each import on a line of its own.
pub open spec fn import_lines(imports: Seq<Seq<char>>) -> Seq<Seq<char>> {
    Seq::new(imports.len(), |i: int| imports[i] + "\n"@)
}

/// The line that merges the module of one sheet into a gathered map.
pub open spec fn spread_line(module: Seq<char>) -> Seq<char> {
    "  ..."@ + module + ",\n"@
}

/// One merging line for each module, in the modules' order: where two sheets
/// have one key, the later sheet's entry is the one that stays.
pub open spec fn spread_lines(modules: Seq<Seq<char>>) -> Seq<Seq<char>> {
    Seq::new(modules.len(), |i: int| spread_line(modules[i]))
}

/// The text of a gathering module: the notice, the imports, and between
/// `opening` and `closing` one merging line for each module.
pub open spec fn gathered_module(
    imports: Seq<Seq<char>>,
    opening: Seq<char>,
    modules: Seq<Seq<char>>,
    closing: Seq<char>,
) -> Seq<char> {
    GENERATED_NOTICE@ + join(import_lines(imports)) + opening + join(spread_lines(modules))
        + closing
}

/// The text of the module that gathers the keys of all sheets. An import
/// that was asked for several times stands in it once.
pub open spec fn global_keys_module(
    keys_files: Seq<Seq<char>>,
    sheet_names: Seq<Seq<char>>,
) -> Seq<char> {
    gathered_module(
        distinct(keys_files),
        "\nconst allKeys: { [k: string]: string } = {\n"@,
        module_names(sheet_names),
        "};\n\nexport default allKeys;\n"@,
    )
}

/// The text of the module that gathers the translations of all sheets for one
/// language.
pub open spec fn global_language_module(
    imports: Seq<Seq<char>>,
    sheet_names: Seq<Seq<char>>,
) -> Seq<char> {
    gathered_module(
        imports,
        "\nconst allTranslations: { [k: string]: string } = {\n"@,
        module_names(sheet_names),
        "};\n\nexport default allTranslations;\n"@,
    )
}

/// Where the module goes that gathers the keys.
pub open spec fn global_keys_path(dest_path: Seq<char>) -> Seq<char> {
    dest_path + "/keys.ts"@
}

/// Where the module goes that gathers the translations of a language.
pub open spec fn global_language_path(dest_path: Seq<char>, code: Seq<char>) -> Seq<char> {
    dest_path + "/"@ + code + ".ts"@
}

/// The file that gathers the keys of all sheets.
pub open spec fn global_keys_file(
    dest_path: Seq<char>,
    keys_files: Seq<Seq<char>>,
    sheet_names: Seq<Seq<char>>,
) -> OutputFileView {
    OutputFileView {
        path: global_keys_path(dest_path),
        content: global_keys_module(keys_files, sheet_names),
    }
}

/// The files that gather the translations of all sheets, one for each
/// language, in the configured order.
pub open spec fn global_language_files(
    dest_path: Seq<char>,
    codes: Seq<Seq<char>>,
    language_files: Seq<Seq<Seq<char>>>,
    sheet_names: Seq<Seq<char>>,
) -> Seq<OutputFileView> {
    Seq::new(
        codes.len(),
        |l: int|
            OutputFileView {
                path: global_language_path(dest_path, codes[l]),
                content: global_language_module(language_files[l], sheet_names),
            },
    )
}

/// The module names of all the sheets of a workbook, the reserved one too.
pub fn lower_names(sheet_names: &[String]) -> (lowered: Vec<String>)
    ensures
        lowered.deep_view() == lowered_names(sheet_names.deep_view()),
{
    let mut lowered: Vec<String> = Vec::new();
    let mut i: usize = 0;
    while i < sheet_names.len()
        invariant
            i <= sheet_names.len(),
            lowered.len() == i,
            forall|k: int|
                0 <= k < i ==> lowered[k]@ == lowered_names(sheet_names.deep_view())[k],
        decreases sheet_names.len() - i,
    {
        lowered.push(to_lowercase(sheet_names[i].as_str()));
        i = i + 1;
    }
    lowered
}

/// The lines but those that are the unwanted text, in their order.
pub fn lines_without(lines: &[String], unwanted: &String) -> (kept: Vec<String>)
    ensures
        kept.deep_view() == without(lines.deep_view(), unwanted@),
{
    let ghost all = lines.deep_view();
    let mut kept: Vec<String> = Vec::new();
    let mut i: usize = 0;
    while i < lines.len()
        invariant
            i <= lines.len(),
            all == lines.deep_view(),
            kept.deep_view() == without(all.take(i as int), unwanted@),
        decreases lines.len() - i,
    {
        assert(all.take(i + 1).drop_last() == all.take(i as int));
        if lines[i] != *unwanted {
            kept.push(lines[i].clone());
        }
        i = i + 1;
    }
    assert(all.take(i as int) == all);
    kept
}

/// The names of the modules of the sheets that are converted, in the order of
/// the sheets.
pub fn sheet_modules(sheet_names: &[String]) -> (modules: Vec<String>)
    ensures
        modules.deep_view() == module_names(sheet_names.deep_view()),
{
    let lowered = lower_names(sheet_names);
    let reserved = to_lowercase("archive");
    lines_without(lowered.as_slice(), &reserved)
}

/// Whether one of the lines is the wanted text.
pub fn holds_line(lines: &Vec<String>, wanted: &String) -> (held: bool)
    ensures
        held == lines.deep_view().contains(wanted@),
{
    let mut i: usize = 0;
    while i < lines.len()
        invariant
            i <= lines.len(),
            forall|j: int| 0 <= j < i ==> lines.deep_view()[j] != wanted@,
        decreases lines.len() - i,
    {
        if lines[i] == *wanted {
            assert(lines.deep_view()[i as int] == wanted@);
            return true;
        }
        i = i + 1;
    }
    false
}

/// The lines without their repetitions, each where it first stood.
pub fn distinct_lines(lines: &[String]) -> (kept: Vec<String>)
    ensures
        kept.deep_view() == distinct(lines.deep_view()),
{
    let ghost all = lines.deep_view();
    let mut kept: Vec<String> = Vec::new();
    let mut i: usize = 0;
    while i < lines.len()
        invariant
            i <= lines.len(),
            all == lines.deep_view(),
            kept.deep_view() == distinct(all.take(i as int)),
        decreases lines.len() - i,
    {
        assert(all.take(i + 1).drop_last() == all.take(i as int));
        if !holds_line(&kept, &lines[i]) {
            kept.push(lines[i].clone());
        }
        i = i + 1;
    }
    assert(all.take(i as int) == all);
    kept
}

/// The text of a gathering module.
pub fn gather(imports: &[String], opening: &str, modules: &[String], closing: &str) -> (text:
    String)
    ensures
        text@ == gathered_module(imports.deep_view(), opening@, modules.deep_view(), closing@),
{
    let ghost import_texts = import_lines(imports.deep_view());
    let ghost spread_texts = spread_lines(modules.deep_view());
    let mut text = String::new();
    text.append(GENERATED_NOTICE);
    let mut i: usize = 0;
    while i < imports.len()
        invariant
            i <= imports.len(),
            import_texts == import_lines(imports.deep_view()),
            text@ == GENERATED_NOTICE@ + join(import_texts.take(i as int)),
        decreases imports.len() - i,
    {
        text.append(imports[i].as_str());
        text.append("\n");
        proof {
            lemma_join_take(import_texts, i as int);
        }
        i = i + 1;
    }
    assert(import_texts.take(i as int) == import_texts);
    text.append(opening);
    let ghost head = text@;
    let mut k: usize = 0;
    while k < modules.len()
        invariant
            k <= modules.len(),
            spread_texts == spread_lines(modules.deep_view()),
            text@ == head + join(spread_texts.take(k as int)),
        decreases modules.len() - k,
    {
        text.append("  ...");
        text.append(modules[k].as_str());
        text.append(",\n");
        proof {
            lemma_join_take(spread_texts, k as int);
        }
        k = k + 1;
    }
    assert(spread_texts.take(k as int) == spread_texts);
    text.append(closing);
    text
}

/// The file that gathers the keys of all sheets: the imports of
/// `keys_files`, each once, and the modules of the sheets of the workbook
/// that are converted, in the workbook's order.
pub fn write_global_keys_file(
    dest_path: &str,
    keys_files: &[String],
    sheet_names: &[String],
) -> (file: OutputFile)
    ensures
        file@ == global_keys_file(dest_path@, keys_files.deep_view(), sheet_names.deep_view()),
{
    let imports = distinct_lines(keys_files);
    let modules = sheet_modules(sheet_names);
    let content = gather(
        imports.as_slice(),
        "\nconst allKeys: { [k: string]: string } = {\n",
        modules.as_slice(),
        "};\n\nexport default allKeys;\n",
    );
    let mut path = String::new();
    path.append(dest_path);
    path.append("/keys.ts");
    OutputFile { path, content }
}

/// The files that gather the translations of all sheets, one for each
/// language: the imports that `language_files` holds at the language's
/// place, and the modules of the sheets of the workbook that are converted,
/// in the workbook's order.
pub fn write_language_files(
    dest_path: &str,
    langs: &[Language],
    language_files: &[Vec<String>],
    sheet_names: &[String],
) -> (files: Vec<OutputFile>)
    requires
        language_files.len() == langs.len(),
    ensures
        files.deep_view() == global_language_files(
            dest_path@,
            codes_of(langs@),
            language_files.deep_view(),
            sheet_names.deep_view(),
        ),
{
    let modules = sheet_modules(sheet_names);
    let mut files: Vec<OutputFile> = Vec::new();
    let mut l: usize = 0;
    while l < langs.len()
        invariant
            l <= langs.len(),
            language_files.len() == langs.len(),
            files.len() == l,
            modules.deep_view() == module_names(sheet_names.deep_view()),
            forall|k: int|
                0 <= k < l ==> files[k]@ == global_language_files(
                    dest_path@,
                    codes_of(langs@),
                    language_files.deep_view(),
                    sheet_names.deep_view(),
                )[k],
        decreases langs.len() - l,
    {
        let content = gather(
            language_files[l].as_slice(),
            "\nconst allTranslations: { [k: string]: string } = {\n",
            modules.as_slice(),
            "};\n\nexport default allTranslations;\n",
        );
        let mut path = String::new();
        path.append(dest_path);
        path.append("/");
        path.append(langs[l].code);
        path.append(".ts");
        files.push(OutputFile { path, content });
        l = l + 1;
    }
    files
}

} // verus!
