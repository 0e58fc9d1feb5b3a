//! What ends a conversion, in words for the person who runs it.

use vstd::prelude::*;
use vstd::string::*;

verus! {

/// Why a workbook cannot be converted. The first sheet that fails ends the
/// conversion.
#[derive(Clone, Debug, PartialEq, Eq)]
pub enum ConversionError {
    /// The sheet has no row at all, so no header.
    NoHeaderRow { sheet: String },
    /// No cell of the header reads "prefix".
    MissingPrefixColumn { sheet: String },
    /// No cell of the header reads "name".
    MissingNameColumn { sheet: String },
    /// The cell of a row in a language's column holds something that is
    /// neither a text nor nothing.
    BadTranslation { sheet: String, code: String, key: String },
}

/// What a [`ConversionError`] stands for.
pub enum ConversionErrorView {
    NoHeaderRow { sheet: Seq<char> },
    MissingPrefixColumn { sheet: Seq<char> },
    MissingNameColumn { sheet: Seq<char> },
    BadTranslation { sheet: Seq<char>, code: Seq<char>, key: Seq<char> },
}

impl View for ConversionError {
    type V = ConversionErrorView;

    open spec fn view(&self) -> ConversionErrorView {
        match self {
            ConversionError::NoHeaderRow { sheet } => ConversionErrorView::NoHeaderRow {
                sheet: sheet@,
            },
            ConversionError::MissingPrefixColumn { sheet } => {
                ConversionErrorView::MissingPrefixColumn { sheet: sheet@ }
            },
            ConversionError::MissingNameColumn { sheet } => {
                ConversionErrorView::MissingNameColumn { sheet: sheet@ }
            },
            ConversionError::BadTranslation { sheet, code, key } => {
                ConversionErrorView::BadTranslation { sheet: sheet@, code: code@, key: key@ }
            },
        }
    }
}

/// The sentence that describes an error.
pub open spec fn description(error: ConversionErrorView) -> Seq<char> {
    match error {
        ConversionErrorView::NoHeaderRow { sheet } => "Sheet "@ + sheet + " had no header row"@,
        ConversionErrorView::MissingPrefixColumn { sheet } => "Sheet "@ + sheet
            + " had no Prefix column"@,
        ConversionErrorView::MissingNameColumn { sheet } => "Sheet "@ + sheet
            + " had no Name column"@,
        ConversionErrorView::BadTranslation { sheet, code, key } => "Bad translation for lang "@
            + code + " in sheet "@ + sheet + " key "@ + key,
    }
}

impl ConversionError {
    /// The sentence that describes the error: which sheet, column or key failed.
    pub fn describe(&self) -> (sentence: String)
        ensures
            sentence@ == description(self@),
    {
        let mut sentence = String::new();
        match self {
            ConversionError::NoHeaderRow { sheet } => {
                sentence.append("Sheet ");
                sentence.append(sheet.as_str());
                sentence.append(" had no header row");
            },
            ConversionError::MissingPrefixColumn { sheet } => {
                sentence.append("Sheet ");
                sentence.append(sheet.as_str());
                sentence.append(" had no Prefix column");
            },
            ConversionError::MissingNameColumn { sheet } => {
                sentence.append("Sheet ");
                sentence.append(sheet.as_str());
                sentence.append(" had no Name column");
            },
            ConversionError::BadTranslation { sheet, code, key } => {
                sentence.append("Bad translation for lang ");
                sentence.append(code.as_str());
                sentence.append(" in sheet ");
                sentence.append(sheet.as_str());
                sentence.append(" key ");
                sentence.append(key.as_str());
            },
        }
        sentence
    }
}

} // verus!
