//! Turns the sheets of a localisation workbook into the text of TypeScript
//! modules: per sheet and language a module of key constants and a module of
//! translations, and across the sheets one module that gathers the keys and
//! one per language that gathers the translations.
//!
//! The library works on plain values. A caller reads the workbook, hands its
//! sheets over as grids of [`cell::Cell`], and writes the files that
//! [`pipeline::convert_workbook`] returns.

pub mod aggregate;
pub mod cell;
pub mod extract;
pub mod language;
pub mod laws;
pub mod notices;
pub mod output;
pub mod pipeline;
pub mod report;
pub mod sheet_schema;
pub mod text;
pub mod workbook;
