//! The decode's guarantees, stated and proved once and for all: day counts,
//! date continuity, weekday consistency, and duplicate-name rejection.

use crate::data::{spec_data_loop, spec_decode_data, spec_decode_wrapped};
use crate::date::{
    is_leap_year, spec_date_plus, spec_day_number, spec_days_in_month, spec_leap_years_before,
    spec_next_day, spec_parse_date, spec_weekday_abbrev, spec_weekday_index, Date,
};
use crate::error::ParseError;
use crate::highlight::{
    spec_decode_highlight, spec_decode_highlights, spec_find_name, spec_highlights_loop, Highlight,
};
use crate::log::spec_decode_log;
use crate::tree::Node;
use vstd::arithmetic::div_mod::{
    lemma_add_mod_noop, lemma_div_multiples_vanish_fancy, lemma_fundamental_div_mod,
    lemma_mod_bound, lemma_mod_multiples_vanish, lemma_small_mod,
};
use vstd::arithmetic::mul::lemma_mul_is_distributive_add;
use vstd::prelude::*;

verus! {

/// One more unit of the dividend moves the quotient up exactly on the
/// multiples of the divisor.
#[verifier::rlimit(100)]
proof fn lemma_div_step(y: int, d: int)
    requires
        y >= 1,
        2 <= d,
    ensures
        y / d - (y - 1) / d == if y % d == 0 {
            1int
        } else {
            0int
        },
{
    lemma_fundamental_div_mod(y - 1, d);
    lemma_mod_bound(y - 1, d);
    let q = (y - 1) / d;
    let r = (y - 1) % d;
    lemma_mul_is_distributive_add(d, q, 1);
    if r == d - 1 {
        assert(y == d * (q + 1) + 0);
        lemma_div_multiples_vanish_fancy(q + 1, 0, d);
        assert(y / d == q + 1);
        lemma_mod_multiples_vanish(q + 1, 0, d);
        lemma_small_mod(0nat, d as nat);
        assert(y % d == 0);
    } else {
        assert(y == d * q + (r + 1));
        lemma_div_multiples_vanish_fancy(q, r + 1, d);
        assert(y / d == q);
        lemma_mod_multiples_vanish(q, r + 1, d);
        lemma_small_mod((r + 1) as nat, d as nat);
        assert(y % d == r + 1);
    }
}

/// Stepping to the next year adds one leap year exactly when the year left
/// behind is a leap year.
proof fn lemma_leaps_before_succ(y: int)
    requires
        0 <= y,
    ensures
        spec_leap_years_before(y + 1) == spec_leap_years_before(y) + if is_leap_year(y) {
            1int
        } else {
            0int
        },
{
    if y > 0 {
        lemma_div_step(y, 4);
        lemma_div_step(y, 100);
        lemma_div_step(y, 400);
    }
}

/// The day number of the successor date is one more than the date's own.
proof fn lemma_day_number_succ(d: Date)
    requires
        d.valid(),
        d.year <= 9999,
    ensures
        spec_day_number(spec_next_day(d)) == spec_day_number(d) + 1,
{
    let y = d.year as int;
    let m = d.month as int;
    if (d.day as int) < spec_days_in_month(y, m) {
    } else if m < 12 {
    } else {
        lemma_leaps_before_succ(y);
    }
}

/// From one day to the next, the weekday index moves one place through the
/// seven-day week: weekday labels of consecutive dates are consecutive.
pub proof fn lemma_weekday_succession(d: Date)
    requires
        d.valid(),
        d.year <= 9999,
    ensures
        spec_weekday_index(spec_next_day(d)) == (spec_weekday_index(d) + 1) % 7,
{
    lemma_day_number_succ(d);
    let n = spec_day_number(d);
    lemma_add_mod_noop(n + 5, 1, 7);
    lemma_small_mod(1nat, 7nat);
    assert(spec_day_number(spec_next_day(d)) + 5 == (n + 5) + 1);
}

/// Adding days one at a time commutes with taking the successor first.
pub proof fn lemma_date_plus_shift(d: Date, n: int)
    requires
        n >= 0,
    ensures
        spec_date_plus(spec_next_day(d), n) == spec_date_plus(d, n + 1),
    decreases n,
{
    assert(spec_date_plus(d, 0) == d);
    if n > 0 {
        lemma_date_plus_shift(d, n - 1);
    }
}

/// A successful walk over the day-table suffix from `i` yields one day per
/// remaining entry.
pub proof fn lemma_data_loop_len(
    entries: Seq<(String, Node)>,
    i: int,
    prev: Date,
    names: Seq<String>,
)
    requires
        0 <= i <= entries.len(),
    ensures
        spec_data_loop(entries, i, prev, names) matches Ok(days) ==> days.len() == entries.len()
            - i,
    decreases entries.len() - i,
{
    if i < entries.len() {
        if i == 0 {
            lemma_data_loop_len(entries, 1, prev, names);
        } else {
            lemma_data_loop_len(entries, i + 1, spec_next_day(prev), names);
        }
    }
}

/// For every document that decodes, the day table yields exactly one day
/// per source entry: `days` covers the dates from the start date to the
/// last decoded date, inclusive, with nothing added or dropped.
pub proof fn lemma_days_count(key: String, v: Node, names: Seq<String>)
    requires
        spec_decode_data(key, v, names) is Ok,
    ensures
        (v matches Node::Table(entries) && (spec_decode_data(key, v, names) matches Ok(p)
            && p.1.len() == entries@.len())),
{
    match v {
        Node::Table(entries) => {
            let start = spec_parse_date(entries@[0].0@)->Some_0;
            lemma_data_loop_len(entries@, 0, start, names);
        },
        _ => {},
    }
}

/// In a successful walk from `i`, every remaining key is the date exactly
/// `j - i + 1` days after `prev`.
pub proof fn lemma_data_loop_dates(
    entries: Seq<(String, Node)>,
    i: int,
    prev: Date,
    names: Seq<String>,
)
    requires
        1 <= i <= entries.len(),
    ensures
        spec_data_loop(entries, i, prev, names) is Ok ==> (forall|j: int|
            #![trigger entries[j]]
            i <= j < entries.len() ==> spec_parse_date(entries[j].0@) == Some(
                spec_date_plus(prev, j - i + 1),
            )),
    decreases entries.len() - i,
{
    if i < entries.len() && spec_data_loop(entries, i, prev, names) is Ok {
        let next = spec_next_day(prev);
        lemma_data_loop_dates(entries, i + 1, next, names);
        assert(spec_date_plus(prev, 0) == prev);
        assert forall|j: int| i < j < entries.len() implies spec_parse_date(entries[j].0@) == Some(
            spec_date_plus(prev, j - i + 1),
        ) by {
            lemma_date_plus_shift(prev, j - i);
        }
    }
}

/// Re-deriving each date by adding one day to the previous, starting from
/// the start date, reproduces the literal date keys of the source.
pub proof fn lemma_date_keys(key: String, v: Node, names: Seq<String>)
    requires
        spec_decode_data(key, v, names) is Ok,
    ensures
        (v matches Node::Table(entries) && (spec_decode_data(key, v, names) matches Ok(p) && (
        forall|j: int|
            #![trigger entries@[j]]
            0 <= j < entries@.len() ==> spec_parse_date(entries@[j].0@) == Some(
                spec_date_plus(p.0, j),
            )))),
{
    match v {
        Node::Table(entries) => {
            let start = spec_parse_date(entries@[0].0@)->Some_0;
            assert(spec_date_plus(start, 0) == start);
            lemma_data_loop_dates(entries@, 1, start, names);
        },
        _ => {},
    }
}

/// The shape a day wrapper is known to have once it decodes: one entry,
/// keyed by the date's weekday label.
pub open spec fn wrapped_label_ok(v: Node, date: Date) -> bool {
    v matches Node::Table(inner) && inner@.len() == 1 && inner@[0].0@ == spec_weekday_abbrev(
        spec_weekday_index(date),
    )
}

/// A day wrapper that decodes is keyed by its date's weekday label.
pub proof fn lemma_wrapped_label(key: String, v: Node, date: Date, names: Seq<String>)
    requires
        spec_decode_wrapped(key, v, date, names) is Ok,
    ensures
        wrapped_label_ok(v, date),
{
}

/// In a successful walk from `i`, every remaining wrapper is keyed by the
/// weekday label of its own date.
pub proof fn lemma_data_loop_labels(
    entries: Seq<(String, Node)>,
    i: int,
    prev: Date,
    names: Seq<String>,
)
    requires
        1 <= i <= entries.len(),
    ensures
        spec_data_loop(entries, i, prev, names) is Ok ==> (forall|j: int|
            #![trigger entries[j]]
            i <= j < entries.len() ==> wrapped_label_ok(
                entries[j].1,
                spec_date_plus(prev, j - i + 1),
            )),
    decreases entries.len() - i,
{
    if i < entries.len() && spec_data_loop(entries, i, prev, names) is Ok {
        let next = spec_next_day(prev);
        lemma_data_loop_labels(entries, i + 1, next, names);
        lemma_wrapped_label(entries[i].0, entries[i].1, next, names);
        assert(spec_date_plus(prev, 0) == prev);
        assert forall|j: int| i < j < entries.len() implies wrapped_label_ok(
            entries[j].1,
            spec_date_plus(prev, j - i + 1),
        ) by {
            lemma_date_plus_shift(prev, j - i);
        }
    }
}

/// Decoded logs are weekday-consistent by construction: the wrapper of
/// entry `j` is keyed by the weekday label of the date `j` days after the
/// start date.
pub proof fn lemma_weekday_labels(key: String, v: Node, names: Seq<String>)
    requires
        spec_decode_data(key, v, names) is Ok,
    ensures
        (v matches Node::Table(entries) && (spec_decode_data(key, v, names) matches Ok(p) && (
        forall|j: int|
            #![trigger entries@[j]]
            0 <= j < entries@.len() ==> wrapped_label_ok(entries@[j].1, spec_date_plus(p.0, j))))),
{
    match v {
        Node::Table(entries) => {
            let start = spec_parse_date(entries@[0].0@)->Some_0;
            assert(spec_date_plus(start, 0) == start);
            lemma_wrapped_label(entries@[0].0, entries@[0].1, start, names);
            lemma_data_loop_labels(entries@, 1, start, names);
        },
        _ => {},
    }
}

/// In a successful highlight walk from `i`, the remaining entry names are
/// distinct among themselves and from everything already accumulated.
pub proof fn lemma_highlights_loop_distinct(
    entries: Seq<(String, Node)>,
    i: int,
    hs: Seq<Highlight>,
    names: Seq<String>,
)
    requires
        0 <= i <= entries.len(),
    ensures
        spec_highlights_loop(entries, i, hs, names) is Ok ==> (forall|p: int, q: int|
            #![trigger entries[p], entries[q]]
            i <= p < q < entries.len() ==> entries[p].0@ != entries[q].0@),
    decreases entries.len() - i,
{
    if i < entries.len() && spec_highlights_loop(entries, i, hs, names) is Ok {
        let name = entries[i].0;
        match spec_decode_highlight(name, entries[i].1) {
            Ok(h) => {
                lemma_highlights_loop_distinct(entries, i + 1, hs.push(h), names.push(name));
                lemma_highlights_loop_prefix(entries, i + 1, hs.push(h), names.push(name));
                assert forall|p: int, q: int|
                    i <= p < q < entries.len() implies entries[p].0@ != entries[q].0@ by {
                    if p == i {
                        assert(names.push(name)[names.len() as int] == name);
                    }
                }
            },
            Err(_) => {},
        }
    }
}

/// In a successful highlight walk from `i`, no remaining entry repeats a
/// name already accumulated.
pub proof fn lemma_highlights_loop_prefix(
    entries: Seq<(String, Node)>,
    i: int,
    hs: Seq<Highlight>,
    names: Seq<String>,
)
    requires
        0 <= i <= entries.len(),
    ensures
        spec_highlights_loop(entries, i, hs, names) is Ok ==> (forall|p: int, m: int|
            #![trigger entries[p], names[m]]
            i <= p < entries.len() && 0 <= m < names.len() ==> names[m]@ != entries[p].0@),
    decreases entries.len() - i,
{
    if i < entries.len() && spec_highlights_loop(entries, i, hs, names) is Ok {
        let name = entries[i].0;
        match spec_decode_highlight(name, entries[i].1) {
            Ok(h) => {
                lemma_highlights_loop_prefix(entries, i + 1, hs.push(h), names.push(name));
                lemma_find_name_none(names, name@);
                assert forall|p: int, m: int|
                    i <= p < entries.len() && 0 <= m < names.len() implies names[m]@
                    != entries[p].0@ by {
                    if p > i {
                        assert(names.push(name)[m] == names[m]);
                    }
                }
            },
            Err(_) => {},
        }
    }
}

/// `spec_find_name` misses exactly when no element matches.
pub proof fn lemma_find_name_none(names: Seq<String>, s: Seq<char>)
    ensures
        spec_find_name(names, s) is None ==> (forall|m: int|
            #![trigger names[m]]
            0 <= m < names.len() ==> names[m]@ != s),
{
    lemma_find_from_none(names, s, 0);
}

proof fn lemma_find_from_none(names: Seq<String>, s: Seq<char>, i: int)
    requires
        0 <= i <= names.len(),
    ensures
        crate::highlight::spec_find_from(names, s, i) is None ==> (forall|m: int|
            #![trigger names[m]]
            i <= m < names.len() ==> names[m]@ != s),
    decreases names.len() - i,
{
    if i < names.len() {
        lemma_find_from_none(names, s, i + 1);
    }
}

/// Somewhere at or past `i` a name is repeated, or reuses one already
/// accumulated.
pub open spec fn has_name_clash(entries: Seq<(String, Node)>, i: int, names: Seq<String>) -> bool {
    (exists|p: int, q: int|
        i <= p < q < entries.len() && entries[p].0@ == entries[q].0@) || (exists|m: int, p: int|
        0 <= m < names.len() && i <= p < entries.len() && names[m]@ == entries[p].0@)
}

proof fn lemma_hl_loop_dup(
    entries: Seq<(String, Node)>,
    i: int,
    hs: Seq<Highlight>,
    names: Seq<String>,
)
    requires
        0 <= i <= entries.len(),
        forall|j: int|
            #![trigger entries[j]]
            i <= j < entries.len() ==> spec_decode_highlight(entries[j].0, entries[j].1) is Ok,
        has_name_clash(entries, i, names),
    ensures
        (spec_highlights_loop(entries, i, hs, names) matches Err(e) && e matches
            ParseError::DuplicateHighlight { .. }),
    decreases entries.len() - i,
{
    let name = entries[i].0;
    assert(spec_decode_highlight(name, entries[i].1) is Ok);
    let h = spec_decode_highlight(name, entries[i].1)->Ok_0;
    if spec_find_name(names, name@) is Some {
    } else {
        lemma_find_name_none(names, name@);
        let names2 = names.push(name);
        if exists|p: int, q: int| i <= p < q < entries.len() && entries[p].0@ == entries[q].0@ {
            let (p, q) = choose|p: int, q: int|
                i <= p < q < entries.len() && entries[p].0@ == entries[q].0@;
            if p == i {
                assert(names2[names.len() as int]@ == entries[q].0@);
                assert(has_name_clash(entries, i + 1, names2));
            } else {
                assert(has_name_clash(entries, i + 1, names2));
            }
        } else {
            let (m, q2) = choose|m: int, q2: int|
                0 <= m < names.len() && i <= q2 < entries.len() && names[m]@ == entries[q2].0@;
            assert(q2 > i);
            assert(names2[m] == names[m]);
            assert(has_name_clash(entries, i + 1, names2));
        }
        lemma_hl_loop_dup(entries, i + 1, hs.push(h), names2);
    }
}

/// With every record individually decodable, two entries sharing a name
/// make the highlight decode fail with a duplicate-name error.
pub proof fn lemma_duplicate_highlight_error(key: String, v: Node, p: int, q: int)
    requires
        v matches Node::Table(entries),
        v matches Node::Table(entries) ==> 0 <= p < q < entries@.len() && entries@[p].0@
            == entries@[q].0@ && (forall|j: int|
            #![trigger entries@[j]]
            0 <= j < entries@.len() ==> spec_decode_highlight(entries@[j].0, entries@[j].1) is Ok),
    ensures
        (spec_decode_highlights(key, v) matches Err(e) && e matches ParseError::DuplicateHighlight {
            ..
        }),
{
    match v {
        Node::Table(entries) => {
            assert(has_name_clash(entries@, 0, Seq::empty()));
            lemma_hl_loop_dup(entries@, 0, Seq::empty(), Seq::empty());
        },
        _ => {},
    }
}

/// Everything a decoded document guarantees about its day table, anchored
/// at the root decoder: one day per entry; the date keys are exactly the
/// start date followed by its successors; every wrapper is keyed by the
/// weekday label of its own date.
pub proof fn lemma_decoded_log_shape(entries: Seq<(String, Node)>)
    requires
        spec_decode_log(entries) is Ok,
    ensures
        (spec_decode_log(entries) matches Ok(t) && entries[1].1 matches Node::Table(data)
            && t.2.len() == data@.len() && (forall|j: int|
            #![trigger data@[j]]
            0 <= j < data@.len() ==> spec_parse_date(data@[j].0@) == Some(spec_date_plus(t.0, j)))
            && (forall|j: int|
            #![trigger data@[j]]
            0 <= j < data@.len() ==> wrapped_label_ok(data@[j].1, spec_date_plus(t.0, j)))),
{
    let names = spec_decode_highlights(entries[0].0, entries[0].1)->Ok_0.1;
    lemma_days_count(entries[1].0, entries[1].1, names);
    lemma_date_keys(entries[1].0, entries[1].1, names);
    lemma_weekday_labels(entries[1].0, entries[1].1, names);
}

/// Two highlight entries sharing a name always make the decode fail,
/// whatever their contents.
pub proof fn lemma_duplicate_highlight_fails(key: String, v: Node, p: int, q: int)
    requires
        v matches Node::Table(entries),
        v matches Node::Table(entries) ==> 0 <= p < q < entries@.len() && entries@[p].0@
            == entries@[q].0@,
    ensures
        spec_decode_highlights(key, v) is Err,
{
    match v {
        Node::Table(entries) => {
            if spec_decode_highlights(key, v) is Ok {
                lemma_highlights_loop_distinct(entries@, 0, Seq::empty(), Seq::empty());
            }
        },
        _ => {},
    }
}

} // verus!
