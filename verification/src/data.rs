//! The day table: an ordered, date-keyed walk that enforces a gapless,
//! strictly consecutive date sequence and per-day weekday labels.

use crate::date::{
    next_day, parse_date, spec_next_day, spec_parse_date, spec_weekday_abbrev, spec_weekday_index,
    weekday_abbrev, weekday_index, Date,
};
use crate::day::{decode_day, spec_decode_day, Day};
use crate::error::ParseError;
use crate::strutil::str_eq;
use crate::tree::Node;
use vstd::prelude::*;

verus! {

/// What a day's one-entry wrapper under `key` yields: the sole key must be
/// the date's weekday label, the value the day string.
pub open spec fn spec_decode_wrapped(
    key: String,
    v: Node,
    date: Date,
    names: Seq<String>,
) -> Result<Option<int>, ParseError> {
    match v {
        Node::Table(entries) => if entries@.len() != 1 {
            Err(ParseError::NotOneEntry { key })
        } else {
            let label = entries@[0].0;
            let dv = entries@[0].1;
            if label@ != spec_weekday_abbrev(spec_weekday_index(date)) {
                Err(ParseError::WeekdayMismatch { date, found: label })
            } else {
                match dv {
                    Node::Str(s) => spec_decode_day(s, names),
                    _ => Err(ParseError::ExpectedString { key: label }),
                }
            }
        },
        _ => Err(ParseError::ExpectedTable { key }),
    }
}

/// Decode one day wrapper: `{ <weekday label> = <day string> }`.
pub fn decode_wrapped_day(key: &String, v: &Node, date: Date, names: &Vec<String>) -> (r: Result<
    Day,
    ParseError,
>)
    requires
        date.valid(),
    ensures
        ({
            let sr = spec_decode_wrapped(*key, *v, date, names@);
            match r {
                Ok(d) => sr matches Ok(h) && d@ == h,
                Err(e) => sr matches Err(se) && e == se,
            }
        }),
        r matches Ok(d) ==> (d@ matches Some(ix) ==> 0 <= ix < names@.len()),
{
    let entries = match v {
        Node::Table(entries) => entries,
        _ => {
            return Err(ParseError::ExpectedTable { key: key.clone() });
        },
    };
    if entries.len() != 1 {
        return Err(ParseError::NotOneEntry { key: key.clone() });
    }
    let label = &entries[0].0;
    let w = weekday_index(date);
    if !str_eq(label.as_str(), weekday_abbrev(w)) {
        return Err(ParseError::WeekdayMismatch { date, found: label.clone() });
    }
    match &entries[0].1 {
        Node::Str(s) => decode_day(s, names),
        _ => Err(ParseError::ExpectedString { key: label.clone() }),
    }
}

/// Prefix the days of a successful suffix walk.
pub open spec fn compose_days(
    prefix: Seq<Option<int>>,
    r: Result<Seq<Option<int>>, ParseError>,
) -> Result<Seq<Option<int>>, ParseError> {
    match r {
        Ok(rest) => Ok(prefix + rest),
        Err(e) => Err(e),
    }
}

/// One step of the day-table walk.  Entry `i` is next; `prev` is the
/// already-validated date of the previous entry (of entry 0 when `i == 0`).
/// Every later key must parse as exactly the day after its predecessor.
pub open spec fn spec_data_loop(
    entries: Seq<(String, Node)>,
    i: int,
    prev: Date,
    names: Seq<String>,
) -> Result<Seq<Option<int>>, ParseError>
    decreases entries.len() - i,
{
    if i < 0 || i >= entries.len() {
        Ok(Seq::empty())
    } else if i == 0 {
        match spec_decode_wrapped(entries[0].0, entries[0].1, prev, names) {
            Err(e) => Err(e),
            Ok(day) => compose_days(seq![day], spec_data_loop(entries, 1, prev, names)),
        }
    } else {
        let next = spec_next_day(prev);
        match spec_parse_date(entries[i].0@) {
            None => Err(ParseError::BadDate { found: entries[i].0 }),
            Some(found) => if found != next {
                Err(ParseError::DateMismatch { expected: next, found })
            } else {
                match spec_decode_wrapped(entries[i].0, entries[i].1, next, names) {
                    Err(e) => Err(e),
                    Ok(day) => compose_days(seq![day], spec_data_loop(entries, i + 1, next, names)),
                }
            },
        }
    }
}

/// What decoding the day table under `key` yields: the start date (the
/// first key) and one resolved day per entry.
pub open spec fn spec_decode_data(key: String, v: Node, names: Seq<String>) -> Result<
    (Date, Seq<Option<int>>),
    ParseError,
> {
    match v {
        Node::Table(entries) => if entries@.len() == 0 {
            Err(ParseError::EmptyData)
        } else {
            match spec_parse_date(entries@[0].0@) {
                None => Err(ParseError::BadDate { found: entries@[0].0 }),
                Some(start) => match spec_data_loop(entries@, 0, start, names) {
                    Ok(days) => Ok((start, days)),
                    Err(e) => Err(e),
                },
            }
        },
        _ => Err(ParseError::ExpectedTable { key }),
    }
}

/// Decode the day table: the first key gives the start date; each further
/// key must be exactly one day later; each value is a one-entry weekday
/// wrapper around a day string.
#[verifier::rlimit(100)]
#[verifier::loop_isolation(false)]
pub fn decode_data(key: &String, v: &Node, names: &Vec<String>) -> (r: Result<
    (Date, Vec<Day>),
    ParseError,
>)
    ensures
        ({
            let sr = spec_decode_data(*key, *v, names@);
            match r {
                Ok(p) => sr matches Ok(sp) && sp.0 == p.0 && sp.1 == p.1@.map_values(|d: Day| d@),
                Err(e) => sr matches Err(se) && e == se,
            }
        }),
        r matches Ok(p) ==> p.0.valid() && p.0.year <= 9999,
        r matches Ok(p) ==> (forall|j: int| #![trigger p.1@[j]]
            0 <= j < p.1@.len() ==> (p.1@[j]@ matches Some(h) ==> 0 <= h < names@.len())),
{
    let entries = match v {
        Node::Table(entries) => entries,
        _ => {
            return Err(ParseError::ExpectedTable { key: key.clone() });
        },
    };
    if entries.len() == 0 {
        return Err(ParseError::EmptyData);
    }
    let start = match parse_date(entries[0].0.as_str()) {
        Some(d) => d,
        None => {
            return Err(ParseError::BadDate { found: entries[0].0.clone() });
        },
    };
    let ghost f = |d: Day| d@;
    let mut days: Vec<Day> = Vec::new();
    let mut current = start;
    let mut i: usize = 0;
    proof {
        assert(days@.map_values(f) =~= Seq::<Option<int>>::empty());
        match spec_data_loop(entries@, 0, start, names@) {
            Ok(rest) => {
                assert(days@.map_values(f) + rest =~= rest);
            },
            Err(_) => {},
        }
    }
    while i < entries.len()
        invariant
            0 < entries@.len(),
            i <= entries@.len(),
            days@.len() == i,
            current.valid(),
            current.year <= 9999,
            i == 0 ==> current == start,
            spec_data_loop(entries@, 0, start, names@) == compose_days(
                days@.map_values(f),
                spec_data_loop(entries@, i as int, current, names@),
            ),
            forall|j: int| #![trigger days@[j]]
                0 <= j < days@.len() ==> (days@[j]@ matches Some(h) ==> 0 <= h < names@.len()),
        decreases entries@.len() - i,
    {
        let ghost days_pre = days@;
        let ghost current_pre = current;
        if i > 0 {
            let next = next_day(current);
            match parse_date(entries[i].0.as_str()) {
                None => {
                    return Err(ParseError::BadDate { found: entries[i].0.clone() });
                },
                Some(found) => {
                    if found != next {
                        return Err(ParseError::DateMismatch { expected: next, found });
                    }
                    current = next;
                },
            }
        }
        let d = match decode_wrapped_day(&entries[i].0, &entries[i].1, current, names) {
            Ok(d) => d,
            Err(e) => {
                return Err(e);
            },
        };
        days.push(d);
        proof {
            let rest = spec_data_loop(entries@, i as int, current_pre, names@);
            let rest_next = spec_data_loop(entries@, i + 1, current, names@);
            assert(rest == compose_days(seq![d@], rest_next));
            assert(days@.map_values(f) =~= days_pre.map_values(f).push(d@));
            match rest_next {
                Ok(tail) => {
                    assert(days_pre.map_values(f) + (seq![d@] + tail) =~= days@.map_values(f)
                        + tail);
                },
                Err(_) => {},
            }
        }
        i += 1;
    }
    Ok((start, days))
}

} // verus!
