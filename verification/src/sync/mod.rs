//! Synchronisation with the central server: the errors of translation, and
//! the translators themselves.

pub mod pull;
pub mod push;
pub mod site;
pub mod storage;
pub mod translations;

use crate::json::{ShapeError, ShapeErrorView};
use vstd::prelude::*;

verus! {

/// Why a translator that claimed a record could not translate it.
#[derive(Debug, Clone, PartialEq)]
pub enum TranslationError {
    /// The body of the record is not JSON; the field holds the parser's message.
    InvalidJson(String),
    /// The body is JSON, but not of the shape of the legacy table.
    InvalidShape(ShapeError),
    /// The record is a program, and its body holds no program settings.
    ProgramSettingsNotFound { program_id: String },
    /// No local name tag has the name that the program refers to.
    NameTagNotFound { program_id: String },
    /// No local period schedule has the name that the program refers to.
    PeriodScheduleNotFound { program_id: String },
}

pub enum TranslationErrorView {
    InvalidJson(Seq<char>),
    InvalidShape(ShapeErrorView),
    ProgramSettingsNotFound { program_id: Seq<char> },
    NameTagNotFound { program_id: Seq<char> },
    PeriodScheduleNotFound { program_id: Seq<char> },
}

impl View for TranslationError {
    type V = TranslationErrorView;

    open spec fn view(&self) -> TranslationErrorView {
        match self {
            TranslationError::InvalidJson(message) => TranslationErrorView::InvalidJson(message@),
            TranslationError::InvalidShape(shape) => TranslationErrorView::InvalidShape(shape@),
            TranslationError::ProgramSettingsNotFound { program_id } => {
                TranslationErrorView::ProgramSettingsNotFound { program_id: program_id@ }
            },
            TranslationError::NameTagNotFound { program_id } => {
                TranslationErrorView::NameTagNotFound { program_id: program_id@ }
            },
            TranslationError::PeriodScheduleNotFound { program_id } => {
                TranslationErrorView::PeriodScheduleNotFound { program_id: program_id@ }
            },
        }
    }
}

impl TranslationErrorView {
    /// Whether the error is that a row which the record refers to is not
    /// there locally. Every other error is one of malformed data.
    pub open spec fn is_missing_dependency(self) -> bool {
        self is NameTagNotFound || self is PeriodScheduleNotFound
    }

    /// The error in words.
    pub open spec fn message(self) -> Seq<char> {
        match self {
            TranslationErrorView::InvalidJson(message) => message,
            TranslationErrorView::InvalidShape(ShapeErrorView::MissingField(name)) => {
                "missing field "@ + name
            },
            TranslationErrorView::InvalidShape(ShapeErrorView::InvalidType(name)) => {
                "invalid type of field "@ + name
            },
            TranslationErrorView::ProgramSettingsNotFound { program_id } => {
                "Program settings not found for program "@ + program_id
            },
            TranslationErrorView::NameTagNotFound { program_id } => {
                "Name tag not found for program "@ + program_id
            },
            TranslationErrorView::PeriodScheduleNotFound { program_id } => {
                "Period schedule not found for program "@ + program_id
            },
        }
    }
}

impl TranslationError {
    /// Whether the error is that a row which the record refers to is not
    /// there locally. Every other error is one of malformed data.
    pub fn is_missing_dependency(&self) -> (r: bool)
        ensures
            r == self@.is_missing_dependency(),
    {
        match self {
            TranslationError::NameTagNotFound { .. } => true,
            TranslationError::PeriodScheduleNotFound { .. } => true,
            _ => false,
        }
    }

    /// The error in words.
    pub fn message(&self) -> (r: String)
        ensures
            r@ == self@.message(),
    {
        match self {
            TranslationError::InvalidJson(message) => message.clone(),
            TranslationError::InvalidShape(ShapeError::MissingField(name)) => {
                String::from_str("missing field ").concat(name.as_str())
            },
            TranslationError::InvalidShape(ShapeError::InvalidType(name)) => {
                String::from_str("invalid type of field ").concat(name.as_str())
            },
            TranslationError::ProgramSettingsNotFound { program_id } => {
                String::from_str("Program settings not found for program ").concat(
                    program_id.as_str(),
                )
            },
            TranslationError::NameTagNotFound { program_id } => {
                String::from_str("Name tag not found for program ").concat(program_id.as_str())
            },
            TranslationError::PeriodScheduleNotFound { program_id } => {
                String::from_str("Period schedule not found for program ").concat(
                    program_id.as_str(),
                )
            },
        }
    }
}

/// A failed translation, with the record that it was the translation of. It
/// ends the run of synchronisation in which it arises.
#[derive(Debug, Clone, PartialEq)]
pub struct SyncTranslationError {
    /// The legacy table of the record.
    pub table_name: String,
    pub record_id: String,
    pub source: TranslationError,
}

pub struct SyncTranslationErrorView {
    pub table_name: Seq<char>,
    pub record_id: Seq<char>,
    pub source: TranslationErrorView,
}

impl View for SyncTranslationError {
    type V = SyncTranslationErrorView;

    open spec fn view(&self) -> SyncTranslationErrorView {
        SyncTranslationErrorView {
            table_name: self.table_name@,
            record_id: self.record_id@,
            source: self.source@,
        }
    }
}

} // verus!
