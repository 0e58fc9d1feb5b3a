//! From the rows of a sheet to the entries of each language.

use vstd::prelude::*;
use crate::cell::{is_blank_row, row_is_blank, Cell, CellView};
use crate::language::{Language, LanguageView, Translation, TranslationView};
use crate::report::{ConversionError, ConversionErrorView};
use crate::sheet_schema::{
    codes_of,
    row_key,
    row_translation,
    translation_cell,
    SheetSchema,
    SheetSchemaView,
};

verus! {

/// The rows below the header.
pub open spec fn body_rows(rows: Seq<Seq<CellView>>) -> Seq<Seq<CellView>> {
    if rows.len() == 0 {
        rows
    } else {
        rows.drop_first()
    }
}

/// For each row, whether it is blank.
pub open spec fn blank_marks(rows: Seq<Seq<CellView>>) -> Seq<bool> {
    Seq::new(rows.len(), |i: int| is_blank_row(rows[i]))
}

/// The rows before the first blank one, or all of them where none is blank.
pub open spec fn until_blank(rows: Seq<Seq<CellView>>) -> Seq<Seq<CellView>> {
    match blank_marks(rows).index_of_first(true) {
        Some(end) => rows.take(end),
        None => rows,
    }
}

/// The rows of a sheet that hold data: those below the header, up to the
/// first blank one. What follows a blank row is not read.
pub open spec fn data_rows(rows: Seq<Seq<CellView>>) -> Seq<Seq<CellView>> {
    until_blank(body_rows(rows))
}

/// The entry that a row gives to a language, where its cell for the language
/// holds a text or nothing.
pub open spec fn entry_of(
    schema: SheetSchemaView,
    row: Seq<CellView>,
    code: Seq<char>,
) -> TranslationView {
    match translation_cell(schema, row, code) {
        CellView::Text(text) => TranslationView::Found { key: row_key(schema, row), value: text },
        _ => TranslationView::NotFound { key: row_key(schema, row) },
    }
}

/// For each language, whether the row holds something for it that is neither
/// a text nor nothing.
pub open spec fn bad_marks(
    schema: SheetSchemaView,
    row: Seq<CellView>,
    codes: Seq<Seq<char>>,
) -> Seq<bool> {
    Seq::new(codes.len(), |l: int| row_translation(schema, row, codes[l]) is Err)
}

/// The error of a row: that of the first language, in the configured order,
/// for which the row holds something that is neither a text nor nothing.
pub open spec fn row_failure(
    schema: SheetSchemaView,
    row: Seq<CellView>,
    codes: Seq<Seq<char>>,
) -> Option<ConversionErrorView> {
    match bad_marks(schema, row, codes).index_of_first(true) {
        Some(l) => Some(row_translation(schema, row, codes[l])->Err_0),
        None => None,
    }
}

/// The entries of a row, one for each language in the configured order.
pub open spec fn row_entries(
    schema: SheetSchemaView,
    row: Seq<CellView>,
    codes: Seq<Seq<char>>,
) -> Seq<TranslationView> {
    Seq::new(codes.len(), |l: int| entry_of(schema, row, codes[l]))
}

/// For each row, whether it has an error.
pub open spec fn failure_marks(
    schema: SheetSchemaView,
    rows: Seq<Seq<CellView>>,
    codes: Seq<Seq<char>>,
) -> Seq<bool> {
    Seq::new(rows.len(), |r: int| row_failure(schema, rows[r], codes) is Some)
}

/// The error of a sheet: that of the first of its data rows that has one.
pub open spec fn sheet_failure(
    schema: SheetSchemaView,
    data: Seq<Seq<CellView>>,
    codes: Seq<Seq<char>>,
) -> Option<ConversionErrorView> {
    match failure_marks(schema, data, codes).index_of_first(true) {
        Some(r) => row_failure(schema, data[r], codes),
        None => None,
    }
}

/// The entries of one language: one for each data row, in the rows' order.
pub open spec fn entries_for(
    schema: SheetSchemaView,
    data: Seq<Seq<CellView>>,
    code: Seq<char>,
) -> Seq<TranslationView> {
    Seq::new(data.len(), |r: int| entry_of(schema, data[r], code))
}

/// What a sheet gives: for each language, in the configured order, its code
/// and its entries; or the error of the sheet.
pub open spec fn extracted(
    schema: SheetSchemaView,
    rows: Seq<Seq<CellView>>,
    codes: Seq<Seq<char>>,
) -> Result<Seq<LanguageView>, ConversionErrorView> {
    let data = data_rows(rows);
    match sheet_failure(schema, data, codes) {
        Some(error) => Err(error),
        None => Ok(
            Seq::new(
                codes.len(),
                |l: int|
                    LanguageView {
                        code: codes[l],
                        translations: entries_for(schema, data, codes[l]),
                    },
            ),
        ),
    }
}

/// The number of rows of a sheet that hold data. They are the rows from the
/// second one on.
pub fn count_data_rows(rows: &[Vec<Cell>]) -> (count: usize)
    ensures
        count == data_rows(rows.deep_view()).len(),
        rows.len() == 0 ==> count == 0,
        rows.len() > 0 ==> count < rows.len() && data_rows(rows.deep_view())
            == rows.deep_view().subrange(1, count + 1),
{
    if rows.len() == 0 {
        proof {
            blank_marks(body_rows(rows.deep_view())).index_of_first_ensures(true);
        }
        return 0;
    }
    let ghost body = body_rows(rows.deep_view());
    let ghost marks = blank_marks(body);
    let mut count: usize = 0;
    while count + 1 < rows.len() && !row_is_blank(&rows[count + 1])
        invariant
            count < rows.len(),
            body == body_rows(rows.deep_view()),
            marks == blank_marks(body),
            forall|k: int| 0 <= k < count ==> !marks[k],
        decreases rows.len() - count,
    {
        count = count + 1;
    }
    proof {
        marks.index_of_first_ensures(true);
        if count + 1 < rows.len() {
            assert(marks[count as int]);
        }
    }
    count
}

impl SheetSchema {
    /// The entries of a row, one for each language in the configured order;
    /// or the error of the row, where it holds for some language what is
    /// neither a text nor nothing.
    pub fn row_entries(&self, row: &Vec<Cell>, langs: &[Language]) -> (entries: Result<
        Vec<Translation>,
        ConversionError,
    >)
        ensures
            match entries {
                Ok(list) => row_failure(self@, row.deep_view(), codes_of(langs@)) is None
                    && list.deep_view() == row_entries(self@, row.deep_view(), codes_of(langs@)),
                Err(error) => row_failure(self@, row.deep_view(), codes_of(langs@)) == Some(
                    error@,
                ),
            },
    {
        let ghost codes = codes_of(langs@);
        let ghost cells = row.deep_view();
        let ghost marks = bad_marks(self@, cells, codes);
        let key = self.get_row_key(row);
        let mut list: Vec<Translation> = Vec::new();
        let mut l: usize = 0;
        while l < langs.len()
            invariant
                l <= langs.len(),
                codes == codes_of(langs@),
                cells == row.deep_view(),
                marks == bad_marks(self@, cells, codes),
                key@ == row_key(self@, cells),
                list.len() == l,
                forall|k: int| 0 <= k < l ==> !marks[k],
                forall|k: int| 0 <= k < l ==> list[k]@ == entry_of(self@, cells, codes[k]),
            decreases langs.len() - l,
        {
            match self.get_row_translation(row, &langs[l]) {
                Err(error) => {
                    proof {
                        assert(marks[l as int]);
                        marks.index_of_first_ensures(true);
                    }
                    return Err(error);
                },
                Ok(Some(value)) => {
                    list.push(Translation::Found { key: key.clone(), value });
                },
                Ok(None) => {
                    list.push(Translation::NotFound { key: key.clone() });
                },
            }
            l = l + 1;
        }
        proof {
            marks.index_of_first_ensures(true);
        }
        Ok(list)
    }
}

/// Reads the data rows of a sheet: for each language, in the configured
/// order, a language of the same code with one entry for each data row, in
/// the rows' order. Entries that the given languages hold are not carried
/// over. The first row that holds, for some language, what is neither a text
/// nor nothing ends the reading with its error.
pub fn extract_sheet(schema: &SheetSchema, rows: &[Vec<Cell>], langs: &[Language]) -> (languages:
    Result<Vec<Language>, ConversionError>)
    ensures
        match languages {
            Ok(list) => extracted(schema@, rows.deep_view(), codes_of(langs@)) == Ok::<
                Seq<LanguageView>,
                ConversionErrorView,
            >(list.deep_view()),
            Err(error) => extracted(schema@, rows.deep_view(), codes_of(langs@)) == Err::<
                Seq<LanguageView>,
                ConversionErrorView,
            >(error@),
        },
{
    let count: usize = count_data_rows(rows);
    let ghost data = data_rows(rows.deep_view());
    let ghost codes = codes_of(langs@);
    let ghost marks = failure_marks(schema@, data, codes);

    let mut list: Vec<Language> = Vec::new();
    let mut l: usize = 0;
    while l < langs.len()
        invariant
            l <= langs.len(),
            list.len() == l,
            codes == codes_of(langs@),
            forall|k: int|
                0 <= k < l ==> list[k]@.code == codes[k] && list[k]@.translations.len() == 0,
        decreases langs.len() - l,
    {
        list.push(Language::new(langs[l].code));
        l = l + 1;
    }

    let mut r: usize = 0;
    while r < count
        invariant
            r <= count,
            data == data_rows(rows.deep_view()),
            count == data.len(),
            count < rows.len() || count == 0,
            rows.len() > 0 ==> data == rows.deep_view().subrange(1, count + 1),
            codes == codes_of(langs@),
            marks == failure_marks(schema@, data, codes),
            list.len() == langs.len(),
            forall|k: int|
                0 <= k < list.len() ==> list[k]@.code == codes[k] && list[k]@.translations
                    == entries_for(schema@, data.take(r as int), codes[k]),
            forall|k: int| 0 <= k < r ==> !marks[k],
        decreases count - r,
    {
        let ghost row = data[r as int];
        let mut entries = match schema.row_entries(&rows[r + 1], langs) {
            Ok(entries) => entries,
            Err(error) => {
                proof {
                    assert(marks[r as int]);
                    marks.index_of_first_ensures(true);
                }
                return Err(error);
            },
        };
        let ghost all = entries.deep_view();
        assert(all.len() == entries.len() && codes.len() == langs.len());
        let mut l: usize = langs.len();
        while l > 0
            invariant
                l <= langs.len(),
                r < count,
                count == data.len(),
                row == data[r as int],
                codes == codes_of(langs@),
                list.len() == langs.len(),
                entries.len() == l,
                all == row_entries(schema@, row, codes),
                forall|k: int| 0 <= k < l ==> entries[k]@ == all[k],
                forall|k: int|
                    0 <= k < l ==> list[k]@.code == codes[k] && list[k]@.translations
                        == entries_for(schema@, data.take(r as int), codes[k]),
                forall|k: int|
                    l <= k < list.len() ==> list[k]@.code == codes[k] && list[k]@.translations
                        == entries_for(schema@, data.take(r + 1), codes[k]),
            decreases l,
        {
            // The entries leave the row from its end: the last language first.
            l = l - 1;
            let ghost before = list[l as int]@.translations;
            match entries.pop() {
                Some(entry) => {
                    assert(entry@ == all[l as int]);
                    list[l].translations.push(entry);
                    assert(list[l as int]@.translations =~= before.push(entry@));
                },
                None => {},
            }
        }
        r = r + 1;
    }
    proof {
        assert(data.take(r as int) == data);
        marks.index_of_first_ensures(true);
        assert(list.deep_view() =~= Seq::new(
            codes.len(),
            |l: int|
                LanguageView { code: codes[l], translations: entries_for(schema@, data, codes[l]) },
        ));
    }
    Ok(list)
}

} // verus!
