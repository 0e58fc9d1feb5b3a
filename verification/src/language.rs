//! A language, the translations found for it in one sheet, and the two
//! modules that are written from them.

use vstd::prelude::*;
use vstd::string::*;
use crate::output::OutputFile;
use crate::text::{join, lemma_join_take};

verus! {

/// The comment that every generated module begins with.
pub const GENERATED_NOTICE: &'static str =
    "// File generated automatically. Do not edit manually.\n";

/// What one row of a sheet gives to one language.
#[derive(Clone, Debug, PartialEq, Eq)]
pub enum Translation {
    /// The row has a text in the language's column.
    Found { key: String, value: String },
    /// The sheet has no column for the language, or the row has nothing in it.
    NotFound { key: String },
}

/// What a [`Translation`] stands for.
pub enum TranslationView {
    Found { key: Seq<char>, value: Seq<char> },
    NotFound { key: Seq<char> },
}

impl TranslationView {
    /// The key of the row that the entry came from.
    pub open spec fn key(self) -> Seq<char> {
        match self {
            TranslationView::Found { key, .. } => key,
            TranslationView::NotFound { key } => key,
        }
    }
}

impl View for Translation {
    type V = TranslationView;

    open spec fn view(&self) -> TranslationView {
        match self {
            Translation::Found { key, value } => TranslationView::Found {
                key: key@,
                value: value@,
            },
            Translation::NotFound { key } => TranslationView::NotFound { key: key@ },
        }
    }
}

impl DeepView for Translation {
    type V = TranslationView;

    open spec fn deep_view(&self) -> TranslationView {
        self@
    }
}

/// A language of the configured set, with the entries of the sheet at hand.
#[derive(Clone, Debug, PartialEq, Eq)]
pub struct Language {
    pub code: &'static str,
    pub translations: Vec<Translation>,
}

/// What a [`Language`] stands for.
pub struct LanguageView {
    pub code: Seq<char>,
    pub translations: Seq<TranslationView>,
}

impl View for Language {
    type V = LanguageView;

    open spec fn view(&self) -> LanguageView {
        LanguageView { code: self.code@, translations: self.translations.deep_view() }
    }
}

impl DeepView for Language {
    type V = LanguageView;

    open spec fn deep_view(&self) -> LanguageView {
        self@
    }
}

/// The line of a keys module for one key: the key mapped to itself.
pub open spec fn keys_line(key: Seq<char>) -> Seq<char> {
    "  "@ + key + ": \""@ + key + "\",\n"@
}

/// The line of a translations module for a key that has a translation.
pub open spec fn active_line(key: Seq<char>, value: Seq<char>) -> Seq<char> {
    "  [keys."@ + key + "]: \""@ + value + "\",\n"@
}

/// The line of a translations module for a key without a translation: a
/// comment, so that the key can be seen and maps to nothing.
pub open spec fn disabled_line(key: Seq<char>) -> Seq<char> {
    "//  [keys."@ + key + "]: \"translation_missing\",\n"@
}

/// The line of a translations module for one entry.
pub open spec fn translation_line(entry: TranslationView) -> Seq<char> {
    match entry {
        TranslationView::Found { key, value } => active_line(key, value),
        TranslationView::NotFound { key } => disabled_line(key),
    }
}

/// The lines of a keys module, one for each entry, in the entries' order.
pub open spec fn keys_lines(entries: Seq<TranslationView>) -> Seq<Seq<char>> {
    Seq::new(entries.len(), |i: int| keys_line(entries[i].key()))
}

/// The lines of a translations module, one for each entry, in the entries' order.
pub open spec fn translation_lines(entries: Seq<TranslationView>) -> Seq<Seq<char>> {
    Seq::new(entries.len(), |i: int| translation_line(entries[i]))
}

/// The text of the keys module of a sheet.
pub open spec fn keys_module(entries: Seq<TranslationView>) -> Seq<char> {
    GENERATED_NOTICE@ + "const keys: { [k: string]: string } = {\n"@ + join(keys_lines(entries))
        + "};\n\nexport default keys;\n"@
}

/// The text of the translations module of a sheet for one language.
pub open spec fn translations_module(entries: Seq<TranslationView>) -> Seq<char> {
    GENERATED_NOTICE@ + "import keys from \"./keys\";\n\n"@
        + "const translate: { [k: string]: string } = {\n"@ + join(translation_lines(entries))
        + "};\n\nexport default translate;\n"@
}

/// Where the keys module of a sheet goes.
pub open spec fn sheet_keys_path(dest_path: Seq<char>, path_name: Seq<char>) -> Seq<char> {
    dest_path + "/"@ + path_name + "/keys.ts"@
}

/// Where the translations module of a sheet for one language goes.
pub open spec fn sheet_language_path(
    dest_path: Seq<char>,
    path_name: Seq<char>,
    code: Seq<char>,
) -> Seq<char> {
    dest_path + "/"@ + path_name + "/"@ + code + ".ts"@
}

impl Translation {
    /// The key of the row that the entry came from.
    pub fn key(&self) -> (key: &str)
        ensures
            key@ == self@.key(),
    {
        match self {
            Translation::Found { key, .. } => key.as_str(),
            Translation::NotFound { key } => key.as_str(),
        }
    }

    /// The line that stands for the entry in a keys module.
    pub fn keys_line(&self) -> (line: String)
        ensures
            line@ == keys_line(self@.key()),
    {
        let key = self.key();
        let mut line = String::new();
        line.append("  ");
        line.append(key);
        line.append(": \"");
        line.append(key);
        line.append("\",\n");
        line
    }

    /// The line that stands for the entry in a translations module.
    pub fn translation_line(&self) -> (line: String)
        ensures
            line@ == translation_line(self@),
    {
        let mut line = String::new();
        match self {
            Translation::Found { key, value } => {
                line.append("  [keys.");
                line.append(key.as_str());
                line.append("]: \"");
                line.append(value.as_str());
                line.append("\",\n");
            },
            Translation::NotFound { key } => {
                line.append("//  [keys.");
                line.append(key.as_str());
                line.append("]: \"translation_missing\",\n");
            },
        }
        line
    }
}

impl Language {
    /// A language without entries.
    pub fn new(code: &'static str) -> (language: Language)
        ensures
            language@.code == code@,
            language@.translations == Seq::<TranslationView>::empty(),
    {
        Language { code, translations: Vec::new() }
    }

    /// The keys module of the sheet whose entries the language holds, and
    /// where it goes: in the directory `path_name` below `dest_path`.
    pub fn generate_keys_ts_file(&self, path_name: &str, dest_path: &str) -> (file: OutputFile)
        ensures
            file@.path == sheet_keys_path(dest_path@, path_name@),
            file@.content == keys_module(self@.translations),
    {
        let ghost lines = keys_lines(self@.translations);
        let mut content = String::new();
        content.append(GENERATED_NOTICE);
        content.append("const keys: { [k: string]: string } = {\n");
        let ghost head = content@;
        let mut i: usize = 0;
        while i < self.translations.len()
            invariant
                i <= self.translations.len(),
                lines == keys_lines(self@.translations),
                content@ == head + join(lines.take(i as int)),
            decreases self.translations.len() - i,
        {
            let line = self.translations[i].keys_line();
            content.append(line.as_str());
            proof {
                lemma_join_take(lines, i as int);
            }
            i = i + 1;
        }
        assert(lines.take(i as int) == lines);
        content.append("};\n\nexport default keys;\n");

        let mut path = String::new();
        path.append(dest_path);
        path.append("/");
        path.append(path_name);
        path.append("/keys.ts");
        OutputFile { path, content }
    }

    /// The translations module of the sheet whose entries the language holds,
    /// and where it goes: in the directory `path_name` below `dest_path`,
    /// under the language's code.
    pub fn generate_ts_file(&self, path_name: &str, dest_path: &str) -> (file: OutputFile)
        ensures
            file@.path == sheet_language_path(dest_path@, path_name@, self@.code),
            file@.content == translations_module(self@.translations),
    {
        let ghost lines = translation_lines(self@.translations);
        let mut content = String::new();
        content.append(GENERATED_NOTICE);
        content.append("import keys from \"./keys\";\n\n");
        content.append("const translate: { [k: string]: string } = {\n");
        let ghost head = content@;
        let mut i: usize = 0;
        while i < self.translations.len()
            invariant
                i <= self.translations.len(),
                lines == translation_lines(self@.translations),
                content@ == head + join(lines.take(i as int)),
            decreases self.translations.len() - i,
        {
            let line = self.translations[i].translation_line();
            content.append(line.as_str());
            proof {
                lemma_join_take(lines, i as int);
            }
            i = i + 1;
        }
        assert(lines.take(i as int) == lines);
        content.append("};\n\nexport default translate;\n");

        let mut path = String::new();
        path.append(dest_path);
        path.append("/");
        path.append(path_name);
        path.append("/");
        path.append(self.code);
        path.append(".ts");
        OutputFile { path, content }
    }
}

} // verus!
