//! The error taxonomy of a conversion run.  Every failure aborts the whole
//! run; rows merely outside the date window or failing an acceptance
//! predicate are skipped silently and are not errors.

use vstd::prelude::*;

verus! {

/// What went wrong, at the abstract level contracts speak of.
pub enum ErrorV {
    /// A quarter selector that names no quarter.
    InvalidQuarter(Seq<char>),
    /// An asset string outside the closed alias table.
    InvalidCoin(Seq<char>),
    /// A settlement-currency string outside the closed set.
    InvalidCurrency(Seq<char>),
    /// An input-format name outside the supported set.
    InvalidInputFormat(Seq<char>),
    /// An output-format name outside the supported set.
    InvalidOutputFormat(Seq<char>),
    /// A year for which no calendar date can be constructed.
    InvalidDateRange,
    /// Malformed CSV text.
    CsvSyntax,
    /// A data row whose width differs from the header's.
    RowLength,
    /// A column the chosen input schema needs is not in the header.
    MissingColumn(Seq<char>),
    /// A timestamp field that does not follow `YYYY-MM-DD HH:MM:SS`.
    BadTimestamp(Seq<char>),
    /// A numeric field that is not a number.
    BadNumber(Seq<char>),
    /// A boolean field that is neither `true`, `false` nor empty.
    BadBool(Seq<char>),
    /// The chosen output schema is not supported for the chosen input schema.
    UnsupportedCombination,
}

/// What went wrong, carrying the offending text.
#[derive(Debug, PartialEq, Eq)]
pub enum Error {
    InvalidQuarter(Vec<char>),
    InvalidCoin(Vec<char>),
    InvalidCurrency(Vec<char>),
    InvalidInputFormat(Vec<char>),
    InvalidOutputFormat(Vec<char>),
    InvalidDateRange,
    CsvSyntax,
    RowLength,
    MissingColumn(Vec<char>),
    BadTimestamp(Vec<char>),
    BadNumber(Vec<char>),
    BadBool(Vec<char>),
    UnsupportedCombination,
}

impl View for Error {
    type V = ErrorV;

    open spec fn view(&self) -> ErrorV {
        match self {
            Error::InvalidQuarter(s) => ErrorV::InvalidQuarter(s@),
            Error::InvalidCoin(s) => ErrorV::InvalidCoin(s@),
            Error::InvalidCurrency(s) => ErrorV::InvalidCurrency(s@),
            Error::InvalidInputFormat(s) => ErrorV::InvalidInputFormat(s@),
            Error::InvalidOutputFormat(s) => ErrorV::InvalidOutputFormat(s@),
            Error::InvalidDateRange => ErrorV::InvalidDateRange,
            Error::CsvSyntax => ErrorV::CsvSyntax,
            Error::RowLength => ErrorV::RowLength,
            Error::MissingColumn(s) => ErrorV::MissingColumn(s@),
            Error::BadTimestamp(s) => ErrorV::BadTimestamp(s@),
            Error::BadNumber(s) => ErrorV::BadNumber(s@),
            Error::BadBool(s) => ErrorV::BadBool(s@),
            Error::UnsupportedCombination => ErrorV::UnsupportedCombination,
        }
    }
}

} // verus!
