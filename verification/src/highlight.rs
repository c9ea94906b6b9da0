//! Highlights: named (shape, colour) records, decoded into a dense table
//! plus a transient name list that later gives each name its index.

use crate::colour::{parse_colour, spec_parse_colour, Colour};
use crate::error::{Field, ParseError};
use crate::strutil::str_eq;
use crate::tree::Node;
use vstd::prelude::*;

verus! {

/// The mark drawn on a highlighted day.
#[derive(Clone, Copy, Debug, PartialEq, Eq, Structural)]
pub enum Shape {
    Rectangle,
    Circle,
}

/// A named day annotation: its shape and its colour.
#[derive(Clone, Copy, Debug, PartialEq, Eq, Structural)]
pub struct Highlight {
    pub shape: Shape,
    pub colour: Colour,
}

pub open spec fn spec_parse_shape(s: Seq<char>) -> Option<Shape> {
    if s == "rectangle"@ {
        Some(Shape::Rectangle)
    } else if s == "circle"@ {
        Some(Shape::Circle)
    } else {
        None
    }
}

/// Decode a shape name; only `rectangle` and `circle` exist.
pub fn parse_shape(s: &str) -> (r: Option<Shape>)
    ensures
        r == spec_parse_shape(s@),
{
    if str_eq(s, "rectangle") {
        Some(Shape::Rectangle)
    } else if str_eq(s, "circle") {
        Some(Shape::Circle)
    } else {
        None
    }
}

/// The first position in `names` (from `i` on) whose view is `s`.
pub open spec fn spec_find_from(names: Seq<String>, s: Seq<char>, i: int) -> Option<int>
    decreases names.len() - i,
{
    if i < 0 || i >= names.len() {
        None
    } else if names[i]@ == s {
        Some(i)
    } else {
        spec_find_from(names, s, i + 1)
    }
}

/// The first position in `names` whose view is `s`.
pub open spec fn spec_find_name(names: Seq<String>, s: Seq<char>) -> Option<int> {
    spec_find_from(names, s, 0)
}

/// Look a name up in the name table.
pub fn find_name(names: &Vec<String>, s: &str) -> (r: Option<usize>)
    ensures
        match r {
            Some(ix) => spec_find_name(names@, s@) == Some(ix as int) && ix < names@.len()
                && names@.len() <= usize::MAX,
            None => spec_find_name(names@, s@) is None,
        },
{
    let mut i: usize = 0;
    while i < names.len()
        invariant
            i <= names@.len(),
            spec_find_name(names@, s@) == spec_find_from(names@, s@, i as int),
        decreases names@.len() - i,
    {
        if str_eq(names[i].as_str(), s) {
            return Some(i);
        }
        i += 1;
    }
    None
}

/// One step of highlight-record decoding: entries before `i` are already
/// folded into the two field accumulators.
pub open spec fn spec_record_loop(
    entries: Seq<(String, Node)>,
    i: int,
    shape: Option<Shape>,
    colour: Option<Colour>,
) -> Result<Highlight, ParseError>
    decreases entries.len() - i,
{
    if i < 0 || i >= entries.len() {
        match (shape, colour) {
            (Some(sh), Some(co)) => Ok(Highlight { shape: sh, colour: co }),
            (None, _) => Err(ParseError::MissingField { field: Field::Shape }),
            (Some(_), None) => Err(ParseError::MissingField { field: Field::Colour }),
        }
    } else {
        let k = entries[i].0;
        let val = entries[i].1;
        if k@ == "shape"@ {
            if shape is Some {
                Err(ParseError::DuplicateField { field: Field::Shape })
            } else {
                match val {
                    Node::Str(s) => match spec_parse_shape(s@) {
                        Some(sh) => spec_record_loop(entries, i + 1, Some(sh), colour),
                        None => Err(ParseError::BadShape { found: s }),
                    },
                    _ => Err(ParseError::ExpectedString { key: k }),
                }
            }
        } else if k@ == "colour"@ {
            if colour is Some {
                Err(ParseError::DuplicateField { field: Field::Colour })
            } else {
                match val {
                    Node::Str(s) => match spec_parse_colour(s@) {
                        Some(co) => spec_record_loop(entries, i + 1, shape, Some(co)),
                        None => Err(ParseError::BadColour { found: s }),
                    },
                    _ => Err(ParseError::ExpectedString { key: k }),
                }
            }
        } else {
            Err(ParseError::UnknownField { found: k })
        }
    }
}

/// What decoding the record under `name` yields: a table whose fields are
/// exactly `shape` and `colour`, each present once, each a valid literal.
pub open spec fn spec_decode_highlight(name: String, v: Node) -> Result<Highlight, ParseError> {
    match v {
        Node::Table(entries) => spec_record_loop(entries@, 0, None, None),
        _ => Err(ParseError::ExpectedTable { key: name }),
    }
}

/// Decode one highlight record.
pub fn decode_highlight(name: &String, v: &Node) -> (r: Result<Highlight, ParseError>)
    ensures
        r == spec_decode_highlight(*name, *v),
{
    let entries = match v {
        Node::Table(entries) => entries,
        _ => {
            return Err(ParseError::ExpectedTable { key: name.clone() });
        },
    };
    let mut shape: Option<Shape> = None;
    let mut colour: Option<Colour> = None;
    let mut i: usize = 0;
    while i < entries.len()
        invariant
            i <= entries@.len(),
            spec_decode_highlight(*name, *v) == spec_record_loop(entries@, i as int, shape, colour),
        decreases entries@.len() - i,
    {
        let k = &entries[i].0;
        let val = &entries[i].1;
        if str_eq(k.as_str(), "shape") {
            if shape.is_some() {
                return Err(ParseError::DuplicateField { field: Field::Shape });
            }
            match val {
                Node::Str(s) => match parse_shape(s.as_str()) {
                    Some(sh) => {
                        shape = Some(sh);
                    },
                    None => {
                        return Err(ParseError::BadShape { found: s.clone() });
                    },
                },
                _ => {
                    return Err(ParseError::ExpectedString { key: k.clone() });
                },
            }
        } else if str_eq(k.as_str(), "colour") {
            if colour.is_some() {
                return Err(ParseError::DuplicateField { field: Field::Colour });
            }
            match val {
                Node::Str(s) => match parse_colour(s.as_str()) {
                    Some(co) => {
                        colour = Some(co);
                    },
                    None => {
                        return Err(ParseError::BadColour { found: s.clone() });
                    },
                },
                _ => {
                    return Err(ParseError::ExpectedString { key: k.clone() });
                },
            }
        } else {
            return Err(ParseError::UnknownField { found: k.clone() });
        }
        i += 1;
    }
    match (shape, colour) {
        (Some(sh), Some(co)) => Ok(Highlight { shape: sh, colour: co }),
        (None, _) => Err(ParseError::MissingField { field: Field::Shape }),
        (Some(_), None) => Err(ParseError::MissingField { field: Field::Colour }),
    }
}

/// One step of highlight-table decoding: entries before `i` are already in
/// the accumulators.  Each record is decoded, then its name must be new.
pub open spec fn spec_highlights_loop(
    entries: Seq<(String, Node)>,
    i: int,
    hs: Seq<Highlight>,
    names: Seq<String>,
) -> Result<(Seq<Highlight>, Seq<String>), ParseError>
    decreases entries.len() - i,
{
    if i < 0 || i >= entries.len() {
        Ok((hs, names))
    } else {
        let name = entries[i].0;
        match spec_decode_highlight(name, entries[i].1) {
            Err(e) => Err(e),
            Ok(h) => if spec_find_name(names, name@) is Some {
                Err(ParseError::DuplicateHighlight { name })
            } else {
                spec_highlights_loop(entries, i + 1, hs.push(h), names.push(name))
            },
        }
    }
}

/// What decoding the table under `key` yields: the highlights in source
/// order and their names, positions agreeing, names all distinct.
pub open spec fn spec_decode_highlights(key: String, v: Node) -> Result<
    (Seq<Highlight>, Seq<String>),
    ParseError,
> {
    match v {
        Node::Table(entries) => spec_highlights_loop(entries@, 0, Seq::empty(), Seq::empty()),
        _ => Err(ParseError::ExpectedTable { key }),
    }
}

/// Decode the highlight table into the dense highlight array and the
/// transient name-to-index list (same positions).
pub fn decode_highlights(key: &String, v: &Node) -> (r: Result<
    (Vec<Highlight>, Vec<String>),
    ParseError,
>)
    ensures
        ({
            let s = spec_decode_highlights(*key, *v);
            match r {
                Ok(p) => s matches Ok(sp) && p.0@ == sp.0 && p.1@ == sp.1 && p.0@.len()
                    == p.1@.len(),
                Err(e) => s matches Err(se) && e == se,
            }
        }),
{
    let entries = match v {
        Node::Table(entries) => entries,
        _ => {
            return Err(ParseError::ExpectedTable { key: key.clone() });
        },
    };
    let mut hs: Vec<Highlight> = Vec::new();
    let mut names: Vec<String> = Vec::new();
    let mut i: usize = 0;
    while i < entries.len()
        invariant
            i <= entries@.len(),
            hs@.len() == names@.len(),
            spec_decode_highlights(*key, *v) == spec_highlights_loop(
                entries@,
                i as int,
                hs@,
                names@,
            ),
        decreases entries@.len() - i,
    {
        let name = &entries[i].0;
        let h = match decode_highlight(name, &entries[i].1) {
            Ok(h) => h,
            Err(e) => {
                return Err(e);
            },
        };
        if find_name(&names, name.as_str()).is_some() {
            return Err(ParseError::DuplicateHighlight { name: name.clone() });
        }
        hs.push(h);
        names.push(name.clone());
        i += 1;
    }
    Ok((hs, names))
}

} // verus!
