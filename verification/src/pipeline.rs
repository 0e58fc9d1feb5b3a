//! The conversion of a workbook: sheet by sheet to the modules of each sheet,
//! then to the modules that gather them.

use vstd::prelude::*;
use vstd::string::*;
use crate::aggregate::{
    global_keys_file,
    global_language_files,
    is_reserved_sheet,
    lemma_module_names_push,
    module_name,
    module_names,
    write_global_keys_file,
    write_language_files,
};
use crate::cell::{Cell, CellView};
use crate::extract::{extract_sheet, extracted};
use crate::language::{
    keys_module,
    sheet_keys_path,
    sheet_language_path,
    translations_module,
    Language,
    LanguageView,
};
use crate::notices::{sheet_notices, Notice, NoticeView};
use crate::output::{OutputFile, OutputFileView};
use crate::report::{ConversionError, ConversionErrorView};
use crate::sheet_schema::{codes_of, resolved_schema, SheetSchema};
use crate::text::{lowercase, to_lowercase};
use crate::workbook::{range_cells, range_rows};

verus! {

/// A sheet of a workbook: its name and its rows, the header first.
#[derive(Clone, Debug, PartialEq, Eq)]
pub struct Sheet {
    pub name: String,
    pub rows: Vec<Vec<Cell>>,
}

/// What a [`Sheet`] stands for.
pub struct SheetView {
    pub name: Seq<char>,
    pub rows: Seq<Seq<CellView>>,
}

impl View for Sheet {
    type V = SheetView;

    open spec fn view(&self) -> SheetView {
        SheetView { name: self.name@, rows: self.rows.deep_view() }
    }
}

impl DeepView for Sheet {
    type V = SheetView;

    open spec fn deep_view(&self) -> SheetView {
        self@
    }
}

impl Sheet {
    /// The sheet of a name with the cells that the workbook reader found in it.
    pub fn from_range(name: String, range: &calamine::Range<calamine::DataType>) -> (sheet: Sheet)
        ensures
            sheet@ == (SheetView { name: name@, rows: range_rows(*range) }),
    {
        Sheet { name, rows: range_cells(range) }
    }
}

/// What one sheet gives: the files of its modules, and its notices.
#[derive(Clone, Debug, PartialEq, Eq)]
pub struct SheetOutput {
    pub files: Vec<OutputFile>,
    pub notices: Vec<Notice>,
}

/// What a [`SheetOutput`] stands for.
pub struct SheetOutputView {
    pub files: Seq<OutputFileView>,
    pub notices: Seq<NoticeView>,
}

impl View for SheetOutput {
    type V = SheetOutputView;

    open spec fn view(&self) -> SheetOutputView {
        SheetOutputView { files: self.files.deep_view(), notices: self.notices.deep_view() }
    }
}

/// What a workbook gives: the directories to make, the files to write into
/// them, in this order, and the notices.
#[derive(Clone, Debug, PartialEq, Eq)]
pub struct Conversion {
    pub directories: Vec<String>,
    pub files: Vec<OutputFile>,
    pub notices: Vec<Notice>,
}

/// What a [`Conversion`] stands for.
pub struct ConversionView {
    pub directories: Seq<Seq<char>>,
    pub files: Seq<OutputFileView>,
    pub notices: Seq<NoticeView>,
}

impl View for Conversion {
    type V = ConversionView;

    open spec fn view(&self) -> ConversionView {
        ConversionView {
            directories: self.directories.deep_view(),
            files: self.files.deep_view(),
            notices: self.notices.deep_view(),
        }
    }
}

/// The file of the translations module of a sheet for one language.
pub open spec fn sheet_language_file(
    dest_path: Seq<char>,
    module: Seq<char>,
    language: LanguageView,
) -> OutputFileView {
    OutputFileView {
        path: sheet_language_path(dest_path, module, language.code),
        content: translations_module(language.translations),
    }
}

/// The file of the keys module of a sheet, written from the entries of one
/// language.
pub open spec fn sheet_keys_file(
    dest_path: Seq<char>,
    module: Seq<char>,
    language: LanguageView,
) -> OutputFileView {
    OutputFileView {
        path: sheet_keys_path(dest_path, module),
        content: keys_module(language.translations),
    }
}

/// The files of one sheet: for each language, in the configured order, its
/// translations module and then the keys module.
pub open spec fn sheet_files(
    dest_path: Seq<char>,
    module: Seq<char>,
    languages: Seq<LanguageView>,
) -> Seq<OutputFileView>
    decreases languages.len(),
{
    if languages.len() == 0 {
        Seq::empty()
    } else {
        sheet_files(dest_path, module, languages.drop_last()).push(
            sheet_language_file(dest_path, module, languages.last()),
        ).push(sheet_keys_file(dest_path, module, languages.last()))
    }
}

/// What one sheet gives under a module name, or the error that ends the
/// conversion: that of its schema, or else that of its rows.
pub open spec fn sheet_output(
    sheet: SheetView,
    module: Seq<char>,
    codes: Seq<Seq<char>>,
    dest_path: Seq<char>,
) -> Result<SheetOutputView, ConversionErrorView> {
    match resolved_schema(sheet.name, sheet.rows, codes) {
        Err(error) => Err(error),
        Ok(schema) => match extracted(schema, sheet.rows, codes) {
            Err(error) => Err(error),
            Ok(languages) => Ok(
                SheetOutputView {
                    files: sheet_files(dest_path, module, languages),
                    notices: sheet_notices(schema, sheet.rows, codes),
                },
            ),
        },
    }
}

/// What the sheets give one after the other, in the workbook's order, or the
/// error of the first sheet that has one. A sheet of the reserved name gives
/// nothing and has no error.
pub open spec fn sheets_output(
    sheets: Seq<SheetView>,
    codes: Seq<Seq<char>>,
    dest_path: Seq<char>,
) -> Result<SheetOutputView, ConversionErrorView>
    decreases sheets.len(),
{
    if sheets.len() == 0 {
        Ok(SheetOutputView { files: Seq::empty(), notices: Seq::empty() })
    } else {
        match sheets_output(sheets.drop_last(), codes, dest_path) {
            Err(error) => Err(error),
            Ok(earlier) => if is_reserved_sheet(sheets.last().name) {
                Ok(earlier)
            } else {
                match sheet_output(
                    sheets.last(),
                    module_name(sheets.last().name),
                    codes,
                    dest_path,
                ) {
                    Err(error) => Err(error),
                    Ok(last) => Ok(
                        SheetOutputView {
                            files: earlier.files + last.files,
                            notices: earlier.notices + last.notices,
                        },
                    ),
                }
            },
        }
    }
}

/// The names of the sheets, in the workbook's order.
pub open spec fn sheet_names(sheets: Seq<SheetView>) -> Seq<Seq<char>> {
    Seq::new(sheets.len(), |i: int| sheets[i].name)
}

/// The line that imports the keys module of a sheet.
pub open spec fn keys_import(module: Seq<char>) -> Seq<char> {
    "import "@ + module + " from \"./"@ + module + "/keys\";"@
}

/// The line that imports the translations module of a sheet for a language.
pub open spec fn language_import(module: Seq<char>, code: Seq<char>) -> Seq<char> {
    "import "@ + module + " from \"./"@ + module + "/"@ + code + "\";"@
}

/// The imports of keys modules that a conversion asks for: that of each
/// sheet once for each language.
pub open spec fn keys_imports(modules: Seq<Seq<char>>, languages: nat) -> Seq<Seq<char>>
    decreases modules.len(),
{
    if modules.len() == 0 {
        Seq::empty()
    } else {
        keys_imports(modules.drop_last(), languages) + Seq::new(
            languages,
            |i: int| keys_import(modules.last()),
        )
    }
}

/// The imports of the translations modules of one language: one for each
/// sheet, in the order of the sheets.
pub open spec fn language_imports(modules: Seq<Seq<char>>, code: Seq<char>) -> Seq<Seq<char>> {
    Seq::new(modules.len(), |i: int| language_import(modules[i], code))
}

/// For each language, in the configured order, the imports of its
/// translations modules.
pub open spec fn all_language_imports(modules: Seq<Seq<char>>, codes: Seq<Seq<char>>) -> Seq<
    Seq<Seq<char>>,
> {
    Seq::new(codes.len(), |l: int| language_imports(modules, codes[l]))
}

/// The directory of the modules of a sheet.
pub open spec fn sheet_directory(dest_path: Seq<char>, module: Seq<char>) -> Seq<char> {
    dest_path + "/"@ + module
}

/// The directories of the sheets, in the order of the sheets.
pub open spec fn sheet_directories(dest_path: Seq<char>, modules: Seq<Seq<char>>) -> Seq<
    Seq<char>,
> {
    Seq::new(modules.len(), |i: int| sheet_directory(dest_path, modules[i]))
}

/// What a workbook gives, or the error of its first sheet that has one: the
/// directories and files of the sheets, then the file that gathers the keys,
/// then the files that gather the translations, one for each language.
pub open spec fn converted(
    sheets: Seq<SheetView>,
    codes: Seq<Seq<char>>,
    dest_path: Seq<char>,
) -> Result<ConversionView, ConversionErrorView> {
    let names = sheet_names(sheets);
    let modules = module_names(names);
    match sheets_output(sheets, codes, dest_path) {
        Err(error) => Err(error),
        Ok(output) => Ok(
            ConversionView {
                directories: sheet_directories(dest_path, modules),
                files: output.files.push(
                    global_keys_file(dest_path, keys_imports(modules, codes.len()), names),
                ) + global_language_files(
                    dest_path,
                    codes,
                    all_language_imports(modules, codes),
                    names,
                ),
                notices: output.notices,
            },
        ),
    }
}

/// The configured languages: en, de, pt-br, es and ru, in this order, each
/// without entries.
pub fn default_languages() -> (langs: Vec<Language>)
    ensures
        codes_of(langs@) == seq!["en"@, "de"@, "pt-br"@, "es"@, "ru"@],
        forall|l: int| 0 <= l < langs.len() ==> langs[l]@.translations.len() == 0,
{
    let mut langs: Vec<Language> = Vec::new();
    langs.push(Language::new("en"));
    langs.push(Language::new("de"));
    langs.push(Language::new("pt-br"));
    langs.push(Language::new("es"));
    langs.push(Language::new("ru"));
    langs
}

/// The files of one sheet, written from the languages that hold its entries.
pub fn emit_sheet(languages: &[Language], module: &str, dest_path: &str) -> (files: Vec<
    OutputFile,
>)
    ensures
        files.deep_view() == sheet_files(dest_path@, module@, languages.deep_view()),
{
    let ghost views = languages.deep_view();
    let mut files: Vec<OutputFile> = Vec::new();
    let mut l: usize = 0;
    while l < languages.len()
        invariant
            l <= languages.len(),
            views == languages.deep_view(),
            files.deep_view() == sheet_files(dest_path@, module@, views.take(l as int)),
        decreases languages.len() - l,
    {
        let translations = languages[l].generate_ts_file(module, dest_path);
        let keys = languages[l].generate_keys_ts_file(module, dest_path);
        files.push(translations);
        files.push(keys);
        proof {
            assert(views.take(l + 1).drop_last() == views.take(l as int));
        }
        l = l + 1;
    }
    assert(views.take(l as int) == views);
    files
}

/// Converts one sheet, whose modules go by the name `module`: reads its
/// schema from the header, its entries from the data rows, and writes the
/// modules of each language.
pub fn convert_sheet(sheet: &Sheet, module: &str, langs: &[Language], dest_path: &str) -> (output:
    Result<SheetOutput, ConversionError>)
    ensures
        match output {
            Ok(given) => sheet_output(sheet@, module@, codes_of(langs@), dest_path@) == Ok::<
                SheetOutputView,
                ConversionErrorView,
            >(given@),
            Err(error) => sheet_output(sheet@, module@, codes_of(langs@), dest_path@) == Err::<
                SheetOutputView,
                ConversionErrorView,
            >(error@),
        },
{
    let schema = match SheetSchema::from_rows(sheet.name.clone(), sheet.rows.as_slice(), langs) {
        Ok(schema) => schema,
        Err(error) => {
            return Err(error);
        },
    };
    let languages = match extract_sheet(&schema, sheet.rows.as_slice(), langs) {
        Ok(languages) => languages,
        Err(error) => {
            return Err(error);
        },
    };
    let notices = schema.sheet_notices(sheet.rows.as_slice(), langs);
    let files = emit_sheet(languages.as_slice(), module, dest_path);
    Ok(SheetOutput { files, notices })
}

/// An error ends the conversion: the sheets that follow the one that has it
/// change nothing.
pub proof fn lemma_error_ends(
    sheets: Seq<SheetView>,
    n: int,
    codes: Seq<Seq<char>>,
    dest_path: Seq<char>,
)
    requires
        0 <= n <= sheets.len(),
        sheets_output(sheets.take(n), codes, dest_path) is Err,
    ensures
        sheets_output(sheets, codes, dest_path) == sheets_output(sheets.take(n), codes, dest_path),
    decreases sheets.len() - n,
{
    if n < sheets.len() {
        assert(sheets.take(n + 1).drop_last() == sheets.take(n));
        lemma_error_ends(sheets, n + 1, codes, dest_path);
    } else {
        assert(sheets.take(n) == sheets);
    }
}

/// The line that imports the keys module of a sheet.
pub fn keys_import_line(module: &str) -> (line: String)
    ensures
        line@ == keys_import(module@),
{
    let mut line = String::new();
    line.append("import ");
    line.append(module);
    line.append(" from \"./");
    line.append(module);
    line.append("/keys\";");
    line
}

/// The line that imports the translations module of a sheet for a language.
pub fn language_import_line(module: &str, code: &str) -> (line: String)
    ensures
        line@ == language_import(module@, code@),
{
    let mut line = String::new();
    line.append("import ");
    line.append(module);
    line.append(" from \"./");
    line.append(module);
    line.append("/");
    line.append(code);
    line.append("\";");
    line
}

/// Converts a workbook. The sheets are taken in the workbook's order; a
/// sheet named "archive", in whatever case, is passed over. Each other sheet
/// gives a directory named by the sheet's name in lower case and, for each
/// language, a translations module and the keys module in it. After the
/// sheets come the module that gathers the keys and, for each language, the
/// module that gathers its translations. The first sheet that cannot be
/// converted ends the conversion with its error, and nothing is given.
pub fn convert_workbook(sheets: &[Sheet], langs: &[Language], dest_path: &str) -> (conversion:
    Result<Conversion, ConversionError>)
    ensures
        match conversion {
            Ok(given) => converted(sheets.deep_view(), codes_of(langs@), dest_path@) == Ok::<
                ConversionView,
                ConversionErrorView,
            >(given@),
            Err(error) => converted(sheets.deep_view(), codes_of(langs@), dest_path@) == Err::<
                ConversionView,
                ConversionErrorView,
            >(error@),
        },
{
    let ghost views = sheets.deep_view();
    let ghost all_names = sheet_names(views);
    let ghost codes = codes_of(langs@);
    let reserved = to_lowercase("archive");
    let mut directories: Vec<String> = Vec::new();
    let mut files: Vec<OutputFile> = Vec::new();
    let mut notices: Vec<Notice> = Vec::new();
    let mut names: Vec<String> = Vec::new();
    let mut keys_files: Vec<String> = Vec::new();
    let mut language_files: Vec<Vec<String>> = Vec::new();
    let mut l: usize = 0;
    while l < langs.len()
        invariant
            l <= langs.len(),
            language_files.len() == l,
            forall|k: int| 0 <= k < l ==> language_files[k].deep_view().len() == 0,
        decreases langs.len() - l,
    {
        language_files.push(Vec::new());
        l = l + 1;
    }
    proof {
        assert(language_files.deep_view() =~~= all_language_imports(Seq::empty(), codes));
        assert(files.deep_view() =~= Seq::empty());
        assert(notices.deep_view() =~= Seq::empty());
    }

    let mut i: usize = 0;
    while i < sheets.len()
        invariant
            i <= sheets.len(),
            views == sheets.deep_view(),
            all_names == sheet_names(views),
            codes == codes_of(langs@),
            reserved@ == lowercase("archive"@),
            names.deep_view() == all_names.take(i as int),
            sheets_output(views.take(i as int), codes, dest_path@) == Ok::<
                SheetOutputView,
                ConversionErrorView,
            >(SheetOutputView { files: files.deep_view(), notices: notices.deep_view() }),
            directories.deep_view() == sheet_directories(
                dest_path@,
                module_names(all_names.take(i as int)),
            ),
            keys_files.deep_view() == keys_imports(
                module_names(all_names.take(i as int)),
                codes.len(),
            ),
            language_files.len() == langs.len(),
            language_files.deep_view() == all_language_imports(
                module_names(all_names.take(i as int)),
                codes,
            ),
        decreases sheets.len() - i,
    {
        let sheet = &sheets[i];
        let ghost modules = module_names(all_names.take(i as int));
        let ghost names_before = names.deep_view();
        names.push(sheet.name.clone());
        proof {
            assert(views.take(i + 1).drop_last() == views.take(i as int));
            assert(names.deep_view() =~= names_before.push(sheet@.name));
            assert(names.deep_view() =~= all_names.take(i + 1));
        }
        let module = to_lowercase(sheet.name.as_str());
        proof {
            lemma_module_names_push(all_names.take(i as int), sheet@.name);
        }
        if module != reserved {
            assert(modules.push(module@).drop_last() == modules);
            assert forall|k: int|
                0 <= k < language_files.len() implies language_files[k].deep_view()
                == language_imports(modules, codes[k]) by {
                assert(language_files.deep_view()[k] == all_language_imports(modules, codes)[k]);
            }
            let output = match convert_sheet(sheet, module.as_str(), langs, dest_path) {
                Ok(output) => output,
                Err(error) => {
                    proof {
                        lemma_error_ends(views, i + 1, codes, dest_path@);
                    }
                    return Err(error);
                },
            };
            let ghost given = output@;
            let ghost files_before = files.deep_view();
            let ghost notices_before = notices.deep_view();
            let ghost directories_before = directories.deep_view();
            let SheetOutput { files: mut more_files, notices: mut more_notices } = output;
            files.append(&mut more_files);
            notices.append(&mut more_notices);
            let mut directory = String::new();
            directory.append(dest_path);
            directory.append("/");
            directory.append(module.as_str());
            directories.push(directory);
            proof {
                assert(files.deep_view() =~= files_before + given.files);
                assert(notices.deep_view() =~= notices_before + given.notices);
                assert(directories.deep_view() =~= directories_before.push(
                    sheet_directory(dest_path@, module@),
                ));
            }

            let ghost keys_before = keys_files.deep_view();
            let mut l: usize = 0;
            while l < langs.len()
                invariant
                    l <= langs.len(),
                    codes == codes_of(langs@),
                    language_files.len() == langs.len(),
                    keys_files.deep_view() == keys_before + Seq::new(
                        l as nat,
                        |k: int| keys_import(module@),
                    ),
                    forall|k: int|
                        0 <= k < l ==> language_files[k].deep_view() == language_imports(
                            modules.push(module@),
                            codes[k],
                        ),
                    forall|k: int|
                        l <= k < language_files.len() ==> language_files[k].deep_view()
                            == language_imports(modules, codes[k]),
                decreases langs.len() - l,
            {
                let ghost keys_now = keys_files.deep_view();
                let ghost imports_now = language_files[l as int].deep_view();
                keys_files.push(keys_import_line(module.as_str()));
                language_files[l].push(language_import_line(module.as_str(), langs[l].code));
                proof {
                    assert(keys_files.deep_view() =~= keys_now.push(keys_import(module@)));
                    assert(language_files[l as int].deep_view() =~= imports_now.push(
                        language_import(module@, codes[l as int]),
                    ));
                }
                l = l + 1;
            }
        }
        i = i + 1;
    }
    assert(views.take(i as int) == views);
    assert(all_names.take(i as int) == all_names);

    let ghost sheet_part = files.deep_view();
    let keys = write_global_keys_file(dest_path, keys_files.as_slice(), names.as_slice());
    let ghost keys_view = keys@;
    let mut gathered = write_language_files(
        dest_path,
        langs,
        language_files.as_slice(),
        names.as_slice(),
    );
    let ghost gathered_view = gathered.deep_view();
    files.push(keys);
    files.append(&mut gathered);
    assert(files.deep_view() =~= sheet_part.push(keys_view) + gathered_view);
    Ok(Conversion { directories, files, notices })
}

} // verus!
