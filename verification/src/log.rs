//! The decoded log and the root decoder: exactly two top-level keys,
//! `highlights` then `data`, decoded in that order.

use crate::data::{decode_data, spec_decode_data};
use crate::date::Date;
use crate::day::Day;
use crate::error::{ParseError, TopKey};
use crate::highlight::{decode_highlights, spec_decode_highlights, Highlight};
use crate::strutil::str_eq;
use crate::tree::{parse_toml, toml_of, Node};
use vstd::pervasive::unreached;
use vstd::prelude::*;

verus! {

/// The complete decoded model: the highlight table, the date of the first
/// entry, and one resolved day per calendar date from it, gapless.
/// Immutable once built; days reference highlights by index only.
#[derive(Debug)]
pub struct Log {
    highlights: Vec<Highlight>,
    start_date: Date,
    days: Vec<Day>,
}

impl Log {
    pub closed spec fn spec_highlights(&self) -> Seq<Highlight> {
        self.highlights@
    }

    pub closed spec fn spec_start_date(&self) -> Date {
        self.start_date
    }

    pub closed spec fn spec_days(&self) -> Seq<Option<int>> {
        self.days@.map_values(|d: Day| d@)
    }

    /// Every day's back-reference points into the highlight table.
    pub open spec fn wf(&self) -> bool {
        forall|i: int|
            #![trigger self.spec_days()[i]]
            0 <= i < self.spec_days().len() ==> (self.spec_days()[i] matches Some(h) ==> 0 <= h
                < self.spec_highlights().len())
    }

    /// What day `i` resolves to: its highlight, if it has one.
    pub open spec fn spec_day_resolved(&self, i: int) -> Option<Highlight> {
        match self.spec_days()[i] {
            None => None,
            Some(h) => Some(self.spec_highlights()[h]),
        }
    }

    /// The date of the first entry.
    pub fn start_date(&self) -> (r: Date)
        ensures
            r == self.spec_start_date(),
    {
        self.start_date
    }

    /// The highlight table, in source order.
    pub fn highlights(&self) -> (r: &Vec<Highlight>)
        ensures
            r@ == self.spec_highlights(),
    {
        &self.highlights
    }

    /// All days in order, each already resolved to its highlight; entry `i`
    /// belongs to the date `i` days after `start_date`.
    pub fn days(&self) -> (r: Vec<Option<Highlight>>)
        requires
            self.wf(),
        ensures
            r@.len() == self.spec_days().len(),
            forall|i: int|
                #![trigger r@[i]]
                0 <= i < r@.len() ==> r@[i] == self.spec_day_resolved(i),
    {
        let mut out: Vec<Option<Highlight>> = Vec::new();
        let mut i: usize = 0;
        while i < self.days.len()
            invariant
                self.wf(),
                i <= self.days@.len(),
                out@.len() == i,
                forall|j: int| #![trigger out@[j]] 0 <= j < i ==> out@[j] == self.spec_day_resolved(j),
            decreases self.days@.len() - i,
        {
            let d = self.days[i];
            proof {
                assert(self.spec_days()[i as int] == d@);
            }
            match d.highlight() {
                None => out.push(None),
                Some(ix) => out.push(Some(self.highlights[ix])),
            }
            i += 1;
        }
        out
    }
}

/// What decoding the top-level entries yields: `highlights` then `data`,
/// in this order, and nothing after them.
pub open spec fn spec_decode_log(entries: Seq<(String, Node)>) -> Result<
    (Date, Seq<Highlight>, Seq<Option<int>>),
    ParseError,
> {
    if entries.len() == 0 {
        Err(ParseError::MissingTopKey { expected: TopKey::Highlights })
    } else if entries[0].0@ != "highlights"@ {
        Err(ParseError::WrongTopKey { expected: TopKey::Highlights, found: entries[0].0 })
    } else {
        match spec_decode_highlights(entries[0].0, entries[0].1) {
            Err(e) => Err(e),
            Ok((hs, names)) => {
                if entries.len() == 1 {
                    Err(ParseError::MissingTopKey { expected: TopKey::Data })
                } else if entries[1].0@ != "data"@ {
                    Err(ParseError::WrongTopKey { expected: TopKey::Data, found: entries[1].0 })
                } else {
                    match spec_decode_data(entries[1].0, entries[1].1, names) {
                        Err(e) => Err(e),
                        Ok((start, days)) => {
                            if entries.len() > 2 {
                                Err(ParseError::ExtraTopKey { found: entries[2].0 })
                            } else {
                                Ok((start, hs, days))
                            }
                        },
                    }
                }
            },
        }
    }
}

/// Decode the top-level table.
fn decode_log(entries: &Vec<(String, Node)>) -> (r: Result<Log, ParseError>)
    ensures
        ({
            let sr = spec_decode_log(entries@);
            match r {
                Ok(log) => sr matches Ok(t) && log.spec_start_date() == t.0
                    && log.spec_highlights() == t.1 && log.spec_days() == t.2,
                Err(e) => sr matches Err(se) && e == se,
            }
        }),
        r matches Ok(log) ==> log.wf(),
{
    if entries.len() == 0 {
        return Err(ParseError::MissingTopKey { expected: TopKey::Highlights });
    }
    if !str_eq(entries[0].0.as_str(), "highlights") {
        return Err(
            ParseError::WrongTopKey { expected: TopKey::Highlights, found: entries[0].0.clone() },
        );
    }
    let (highlights, names) = match decode_highlights(&entries[0].0, &entries[0].1) {
        Ok(p) => p,
        Err(e) => {
            return Err(e);
        },
    };
    if entries.len() == 1 {
        return Err(ParseError::MissingTopKey { expected: TopKey::Data });
    }
    if !str_eq(entries[1].0.as_str(), "data") {
        return Err(ParseError::WrongTopKey { expected: TopKey::Data, found: entries[1].0.clone() });
    }
    let (start_date, days) = match decode_data(&entries[1].0, &entries[1].1, &names) {
        Ok(p) => p,
        Err(e) => {
            return Err(e);
        },
    };
    if entries.len() > 2 {
        return Err(ParseError::ExtraTopKey { found: entries[2].0.clone() });
    }
    Ok(Log { highlights, start_date, days })
}

impl Log {
    /// Decode a whole document.  Success yields a well-formed, fully
    /// validated log; any violation yields the error of the first rule
    /// broken, in source order.
    pub fn from_str(s: &str) -> (r: Result<Log, ParseError>)
        ensures
            ({
                match toml_of(s@) {
                    None => r matches Err(e) && e matches ParseError::Syntax { .. },
                    Some(doc) => doc matches Node::Table(entries) && ({
                        let sr = spec_decode_log(entries@);
                        match r {
                            Ok(log) => sr matches Ok(t) && log.spec_start_date() == t.0
                                && log.spec_highlights() == t.1 && log.spec_days() == t.2,
                            Err(e) => sr matches Err(se) && e == se,
                        }
                    }),
                }
            }),
            r matches Ok(log) ==> log.wf(),
    {
        let doc = match parse_toml(s) {
            Ok(doc) => doc,
            Err(message) => {
                return Err(ParseError::Syntax { message });
            },
        };
        match doc {
            Node::Table(entries) => decode_log(&entries),
            _ => unreached(),
        }
    }
}

} // verus!
