//! Why a document was rejected.  Every variant carries what identifies the
//! failing place: the key involved and the expected-versus-found values.

use crate::date::Date;
use vstd::prelude::*;

verus! {

/// The two top-level keys the document must hold, in this order.
#[derive(Clone, Copy, Debug, PartialEq, Eq, Structural)]
pub enum TopKey {
    Highlights,
    Data,
}

/// The two fields of a highlight record.
#[derive(Clone, Copy, Debug, PartialEq, Eq, Structural)]
pub enum Field {
    Shape,
    Colour,
}

/// A decode failure.  Decoding is all-or-nothing: any of these aborts the
/// whole decode and is returned as-is to the caller.
#[derive(Clone, Debug, PartialEq, Eq)]
#[allow(inconsistent_fields)]
pub enum ParseError {
    /// The text is not well-formed at the surface-syntax level.
    Syntax { message: String },
    /// A required top-level key is absent.
    MissingTopKey { expected: TopKey },
    /// A top-level key is misnamed or out of order.
    WrongTopKey { expected: TopKey, found: String },
    /// A top-level key follows the two required ones.
    ExtraTopKey { found: String },
    /// The value under `key` is not a table.
    ExpectedTable { key: String },
    /// The value under `key` is not a string.
    ExpectedString { key: String },
    /// A highlight record names a field other than `shape` / `colour`.
    UnknownField { found: String },
    /// A highlight record repeats a field.
    DuplicateField { field: Field },
    /// A highlight record lacks a field.
    MissingField { field: Field },
    /// A shape is neither `rectangle` nor `circle`.
    BadShape { found: String },
    /// A colour is not `#` followed by six uppercase hex digits.
    BadColour { found: String },
    /// Two highlights share a name.
    DuplicateHighlight { name: String },
    /// The day table is empty, so no start date can be derived.
    EmptyData,
    /// A key in the day table is not a calendar-date literal.
    BadDate { found: String },
    /// A key in the day table is not exactly one day after its predecessor.
    DateMismatch { expected: Date, found: Date },
    /// A day is keyed with a label other than its date's weekday.
    WeekdayMismatch { date: Date, found: String },
    /// A day wrapper does not hold exactly one entry.
    NotOneEntry { key: String },
    /// A day names a highlight that the table does not hold.
    UnknownHighlight { name: String },
}

} // verus!
