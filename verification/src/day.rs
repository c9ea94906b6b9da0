//! One calendar day's resolved annotation: a back-reference (by index) into
//! the owning log's highlight table, or nothing.

use crate::error::ParseError;
use crate::highlight::{find_name, spec_find_name};
use vstd::prelude::*;

verus! {

/// A day's annotation.  It never owns a highlight; it holds at most an
/// index into the log's highlight table.
#[derive(Clone, Copy, Debug)]
pub struct Day {
    // `usize::MAX` stands for "no highlight"
    highlight: usize,
}

impl View for Day {
    type V = Option<int>;

    closed spec fn view(&self) -> Option<int> {
        if self.highlight == usize::MAX {
            None
        } else {
            Some(self.highlight as int)
        }
    }
}

impl Day {
    /// The index of this day's highlight, if it has one.
    pub fn highlight(self) -> (r: Option<usize>)
        ensures
            match r {
                None => self@ is None,
                Some(ix) => self@ == Some(ix as int),
            },
    {
        if self.highlight == usize::MAX {
            None
        } else {
            Some(self.highlight)
        }
    }
}

/// What a day string denotes: nothing when empty, else the index of the
/// highlight it names; a name outside the table is an error.
pub open spec fn spec_decode_day(s: String, names: Seq<String>) -> Result<Option<int>, ParseError> {
    if s@.len() == 0 {
        Ok(None)
    } else {
        match spec_find_name(names, s@) {
            Some(ix) => Ok(Some(ix)),
            None => Err(ParseError::UnknownHighlight { name: s }),
        }
    }
}

/// Decode one day string against the highlight name table.  An empty string
/// always decodes to "no highlight" and never errors.
pub fn decode_day(s: &String, names: &Vec<String>) -> (r: Result<Day, ParseError>)
    ensures
        ({
            let sr = spec_decode_day(*s, names@);
            match r {
                Ok(d) => sr matches Ok(h) && d@ == h,
                Err(e) => sr matches Err(se) && e == se,
            }
        }),
        s@.len() == 0 ==> (r matches Ok(d) && d@ is None),
        s@.len() != 0 && spec_find_name(names@, s@) is None ==> (r matches Err(e) && e == (
        ParseError::UnknownHighlight { name: *s })),
        r matches Ok(d) ==> (d@ matches Some(ix) ==> 0 <= ix < names@.len()),
{
    if s.as_str().unicode_len() == 0 {
        return Ok(Day { highlight: usize::MAX });
    }
    match find_name(names, s.as_str()) {
        Some(ix) => Ok(Day { highlight: ix }),
        None => Err(ParseError::UnknownHighlight { name: s.clone() }),
    }
}

} // verus!
