//! What a conversion has to say without ending: languages that a sheet has no
//! column for, and cells of the prefix or name column that hold no text.

use vstd::prelude::*;
use vstd::string::*;
use crate::cell::{cell_at, Cell, CellView};
use crate::extract::{count_data_rows, data_rows};
use crate::language::Language;
use crate::sheet_schema::{codes_of, SheetSchema, SheetSchemaView};

verus! {

/// One of the two columns that a key is made of.
#[derive(Clone, Copy, Debug, PartialEq, Eq, Structural)]
pub enum KeyField {
    Prefix,
    Name,
}

/// Something worth telling the person who runs the conversion. A notice
/// changes nothing of what is converted.
#[derive(Clone, Debug, PartialEq, Eq)]
pub enum Notice {
    /// The sheet has no column for the language: each of its rows counts as
    /// not translated.
    MissingColumn { sheet: String, code: String },
    /// A cell of the prefix or name column holds neither a text nor nothing:
    /// it gives no text to the key. `row` counts the rows of the sheet from
    /// the header, which is row 0.
    BadKeyCell { sheet: String, field: KeyField, row: usize },
}

/// What a [`Notice`] stands for.
pub enum NoticeView {
    MissingColumn { sheet: Seq<char>, code: Seq<char> },
    BadKeyCell { sheet: Seq<char>, field: KeyField, row: int },
}

impl View for Notice {
    type V = NoticeView;

    open spec fn view(&self) -> NoticeView {
        match self {
            Notice::MissingColumn { sheet, code } => NoticeView::MissingColumn {
                sheet: sheet@,
                code: code@,
            },
            Notice::BadKeyCell { sheet, field, row } => NoticeView::BadKeyCell {
                sheet: sheet@,
                field: *field,
                row: *row as int,
            },
        }
    }
}

impl DeepView for Notice {
    type V = NoticeView;

    open spec fn deep_view(&self) -> NoticeView {
        self@
    }
}

/// The word for a key field in a notice.
pub open spec fn field_word(field: KeyField) -> Seq<char> {
    match field {
        KeyField::Prefix => "prefix"@,
        KeyField::Name => "name"@,
    }
}

/// The sentence of a notice.
pub open spec fn notice_sentence(notice: NoticeView) -> Seq<char> {
    match notice {
        NoticeView::MissingColumn { sheet, code } => "Column for "@ + code + " in sheet "@ + sheet
            + " is missing"@,
        NoticeView::BadKeyCell { sheet, field, row } => "Warning: Bad "@ + field_word(field)
            + ", not a string, in sheet "@ + sheet,
    }
}

/// The notices on the languages that a sheet has no column for, in the
/// configured order of the languages.
pub open spec fn missing_columns(schema: SheetSchemaView, codes: Seq<Seq<char>>) -> Seq<
    NoticeView,
>
    decreases codes.len(),
{
    if codes.len() == 0 {
        Seq::empty()
    } else if schema.translation_columns.contains_key(codes.last()) {
        missing_columns(schema, codes.drop_last())
    } else {
        missing_columns(schema, codes.drop_last()).push(
            NoticeView::MissingColumn { sheet: schema.name, code: codes.last() },
        )
    }
}

/// The notice on one cell of a key, if it calls for one.
pub open spec fn key_cell_notice(
    schema: SheetSchemaView,
    row: Seq<CellView>,
    field: KeyField,
    index: int,
) -> Seq<NoticeView> {
    let column = match field {
        KeyField::Prefix => schema.prefix_column,
        KeyField::Name => schema.name_column,
    };
    if cell_at(row, column) is Other {
        seq![NoticeView::BadKeyCell { sheet: schema.name, field, row: index }]
    } else {
        Seq::empty()
    }
}

/// The notices on the key of one row: on its prefix, then on its name.
pub open spec fn row_notices(schema: SheetSchemaView, row: Seq<CellView>, index: int) -> Seq<
    NoticeView,
> {
    key_cell_notice(schema, row, KeyField::Prefix, index) + key_cell_notice(
        schema,
        row,
        KeyField::Name,
        index,
    )
}

/// The notices on the keys of the data rows, in the rows' order. The first
/// data row is row 1 of the sheet.
pub open spec fn key_notices(schema: SheetSchemaView, data: Seq<Seq<CellView>>) -> Seq<NoticeView>
    decreases data.len(),
{
    if data.len() == 0 {
        Seq::empty()
    } else {
        key_notices(schema, data.drop_last()) + row_notices(schema, data.last(), data.len() as int)
    }
}

/// The notices of a sheet: on its missing columns, then on the keys of its
/// data rows.
pub open spec fn sheet_notices(
    schema: SheetSchemaView,
    rows: Seq<Seq<CellView>>,
    codes: Seq<Seq<char>>,
) -> Seq<NoticeView> {
    missing_columns(schema, codes) + key_notices(schema, data_rows(rows))
}

impl Notice {
    /// The sentence that tells the notice.
    pub fn describe(&self) -> (sentence: String)
        ensures
            sentence@ == notice_sentence(self@),
    {
        let mut sentence = String::new();
        match self {
            Notice::MissingColumn { sheet, code } => {
                sentence.append("Column for ");
                sentence.append(code.as_str());
                sentence.append(" in sheet ");
                sentence.append(sheet.as_str());
                sentence.append(" is missing");
            },
            Notice::BadKeyCell { sheet, field, row } => {
                sentence.append("Warning: Bad ");
                match field {
                    KeyField::Prefix => sentence.append("prefix"),
                    KeyField::Name => sentence.append("name"),
                }
                sentence.append(", not a string, in sheet ");
                sentence.append(sheet.as_str());
            },
        }
        sentence
    }
}

impl SheetSchema {
    /// The notices on the languages that the sheet has no column for.
    pub fn missing_columns(&self, langs: &[Language]) -> (notices: Vec<Notice>)
        ensures
            notices.deep_view() == missing_columns(self@, codes_of(langs@)),
    {
        let ghost codes = codes_of(langs@);
        let mut notices: Vec<Notice> = Vec::new();
        let mut l: usize = 0;
        while l < langs.len()
            invariant
                l <= langs.len(),
                codes == codes_of(langs@),
                notices.deep_view() == missing_columns(self@, codes.take(l as int)),
            decreases langs.len() - l,
        {
            assert(codes.take(l + 1).drop_last() == codes.take(l as int));
            if self.column_for(langs[l].code).is_none() {
                notices.push(
                    Notice::MissingColumn {
                        sheet: self.name.clone(),
                        code: String::from_str(langs[l].code),
                    },
                );
            }
            l = l + 1;
        }
        assert(codes.take(l as int) == codes);
        notices
    }

    /// Adds to `notices` the notice on one cell of the key of a row, if the
    /// cell calls for one.
    fn note_key_cell(
        &self,
        row: &Vec<Cell>,
        field: KeyField,
        index: usize,
        notices: &mut Vec<Notice>,
    )
        ensures
            final(notices).deep_view() == old(notices).deep_view() + key_cell_notice(
                self@,
                row.deep_view(),
                field,
                index as int,
            ),
    {
        let column: usize = match field {
            KeyField::Prefix => self.prefix_column,
            KeyField::Name => self.name_column,
        };
        let bad = column < row.len() && match &row[column] {
            Cell::Other => true,
            _ => false,
        };
        if bad {
            notices.push(Notice::BadKeyCell { sheet: self.name.clone(), field, row: index });
        }
    }

    /// The notices on the key of a row, which is row `index` of the sheet.
    pub fn row_notices(&self, row: &Vec<Cell>, index: usize) -> (notices: Vec<Notice>)
        ensures
            notices.deep_view() == row_notices(self@, row.deep_view(), index as int),
    {
        let mut notices: Vec<Notice> = Vec::new();
        self.note_key_cell(row, KeyField::Prefix, index, &mut notices);
        self.note_key_cell(row, KeyField::Name, index, &mut notices);
        notices
    }

    /// The notices of a sheet: on its missing columns, then on the keys of
    /// its data rows.
    pub fn sheet_notices(&self, rows: &[Vec<Cell>], langs: &[Language]) -> (notices: Vec<Notice>)
        ensures
            notices.deep_view() == sheet_notices(self@, rows.deep_view(), codes_of(langs@)),
    {
        let count: usize = count_data_rows(rows);
        let ghost data = data_rows(rows.deep_view());
        let mut notices = self.missing_columns(langs);
        let ghost head = notices.deep_view();
        let mut r: usize = 0;
        while r < count
            invariant
                r <= count,
                count == data.len(),
                count < rows.len() || count == 0,
                rows.len() > 0 ==> data == rows.deep_view().subrange(1, count + 1),
                notices.deep_view() == head + key_notices(self@, data.take(r as int)),
            decreases count - r,
        {
            let ghost before = notices.deep_view();
            let mut more = self.row_notices(&rows[r + 1], r + 1);
            let ghost added = more.deep_view();
            notices.append(&mut more);
            proof {
                assert(data.take(r + 1).drop_last() == data.take(r as int));
                assert(notices.deep_view() =~= before + added);
            }
            r = r + 1;
        }
        assert(data.take(r as int) == data);
        notices
    }
}

} // verus!
