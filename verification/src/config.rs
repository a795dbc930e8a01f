//! Interpreting a loaded configuration document: resolve the date bounds
//! (literal dates or the `today` / `yesterday` sentinels) and build every
//! configured source and sink through the registries, in declaration order.
//!
//! Reading the file and decoding its markup happen outside; this module
//! receives the two date strings and the per-component raw tables.

use crate::date::Date;
use crate::raw::RawTable;
use crate::sink;
use crate::sink::SinkKind;
use crate::source;
use crate::source::{GlobalConfig, SourceKind};
use crate::topology::{Component, Topology};
use vstd::prelude::*;

verus! {

/// Failure to interpret the configuration.
#[derive(Debug, PartialEq, Eq)]
pub enum Error {
    /// A date field held neither a sentinel word nor a calendar date; the
    /// field's name rides along.
    DateFormat(String),
    /// A source fragment was rejected; the component's name rides along.
    Source(source::Error, String),
    /// A sink fragment was rejected; the component's name rides along.
    Sink(sink::Error, String),
}

/// A loaded document, markup already decoded: the two date strings and the
/// named configuration fragments, in declaration order.
#[derive(Debug)]
pub struct RawConfig {
    pub from_date: String,
    pub to_date: String,
    pub sources: Vec<(String, RawTable)>,
    pub sinks: Vec<(String, RawTable)>,
}

pub open spec fn is_char_digit(c: char) -> bool {
    '0' <= c <= '9'
}

/// The numeric value of a digit character.
pub open spec fn cdv(c: char) -> int {
    if c == '0' {
        0
    } else if c == '1' {
        1
    } else if c == '2' {
        2
    } else if c == '3' {
        3
    } else if c == '4' {
        4
    } else if c == '5' {
        5
    } else if c == '6' {
        6
    } else if c == '7' {
        7
    } else if c == '8' {
        8
    } else {
        9
    }
}

fn char_dig(c: char) -> (r: Option<u8>)
    ensures
        r is Some <==> is_char_digit(c),
        r matches Some(d) ==> d == cdv(c),
{
    if c == '0' {
        Some(0)
    } else if c == '1' {
        Some(1)
    } else if c == '2' {
        Some(2)
    } else if c == '3' {
        Some(3)
    } else if c == '4' {
        Some(4)
    } else if c == '5' {
        Some(5)
    } else if c == '6' {
        Some(6)
    } else if c == '7' {
        Some(7)
    } else if c == '8' {
        Some(8)
    } else if c == '9' {
        Some(9)
    } else {
        None
    }
}

/// The `YYYY-MM-DD` shape of a literal date string.
pub open spec fn iso_shape(s: Seq<char>) -> bool {
    &&& s.len() == 10
    &&& s[4] == '-'
    &&& s[7] == '-'
    &&& is_char_digit(s[0])
    &&& is_char_digit(s[1])
    &&& is_char_digit(s[2])
    &&& is_char_digit(s[3])
    &&& is_char_digit(s[5])
    &&& is_char_digit(s[6])
    &&& is_char_digit(s[8])
    &&& is_char_digit(s[9])
}

pub open spec fn iso_date_of(s: Seq<char>) -> Date {
    Date {
        year: (cdv(s[0]) * 1000 + cdv(s[1]) * 100 + cdv(s[2]) * 10 + cdv(s[3])) as u32,
        month: (cdv(s[5]) * 10 + cdv(s[6])) as u8,
        day: (cdv(s[8]) * 10 + cdv(s[9])) as u8,
    }
}

/// The word `today`, in any casing.
pub open spec fn is_today_word(s: Seq<char>) -> bool {
    &&& s.len() == 5
    &&& (s[0] == 't' || s[0] == 'T')
    &&& (s[1] == 'o' || s[1] == 'O')
    &&& (s[2] == 'd' || s[2] == 'D')
    &&& (s[3] == 'a' || s[3] == 'A')
    &&& (s[4] == 'y' || s[4] == 'Y')
}

/// The word `yesterday`, in any casing.
pub open spec fn is_yesterday_word(s: Seq<char>) -> bool {
    &&& s.len() == 9
    &&& (s[0] == 'y' || s[0] == 'Y')
    &&& (s[1] == 'e' || s[1] == 'E')
    &&& (s[2] == 's' || s[2] == 'S')
    &&& (s[3] == 't' || s[3] == 'T')
    &&& (s[4] == 'e' || s[4] == 'E')
    &&& (s[5] == 'r' || s[5] == 'R')
    &&& (s[6] == 'd' || s[6] == 'D')
    &&& (s[7] == 'a' || s[7] == 'A')
    &&& (s[8] == 'y' || s[8] == 'Y')
}

/// What a date field resolves to, given the calendar dates the sentinels
/// stand for.
pub open spec fn date_spec(s: Seq<char>, today: Date, yesterday: Date) -> Option<Date> {
    if is_today_word(s) {
        Some(today)
    } else if is_yesterday_word(s) {
        Some(yesterday)
    } else if iso_shape(s) && iso_date_of(s).valid() {
        Some(iso_date_of(s))
    } else {
        None
    }
}

/// Resolve one date field: the sentinels name the invoking day's calendar
/// dates; anything else must be a literal calendar date.
pub fn resolve_date(s: &str, today: Date, yesterday: Date) -> (r: Option<Date>)
    ensures
        r == date_spec(s@, today, yesterday),
{
    let n = s.unicode_len();
    if n == 5 {
        let c0 = s.get_char(0);
        let c1 = s.get_char(1);
        let c2 = s.get_char(2);
        let c3 = s.get_char(3);
        let c4 = s.get_char(4);
        if (c0 == 't' || c0 == 'T') && (c1 == 'o' || c1 == 'O') && (c2 == 'd' || c2 == 'D') && (c3
            == 'a' || c3 == 'A') && (c4 == 'y' || c4 == 'Y') {
            return Some(today);
        }
        return None;
    }
    if n == 9 {
        let c0 = s.get_char(0);
        let c1 = s.get_char(1);
        let c2 = s.get_char(2);
        let c3 = s.get_char(3);
        let c4 = s.get_char(4);
        let c5 = s.get_char(5);
        let c6 = s.get_char(6);
        let c7 = s.get_char(7);
        let c8 = s.get_char(8);
        if (c0 == 'y' || c0 == 'Y') && (c1 == 'e' || c1 == 'E') && (c2 == 's' || c2 == 'S') && (c3
            == 't' || c3 == 'T') && (c4 == 'e' || c4 == 'E') && (c5 == 'r' || c5 == 'R') && (c6
            == 'd' || c6 == 'D') && (c7 == 'a' || c7 == 'A') && (c8 == 'y' || c8 == 'Y') {
            return Some(yesterday);
        }
        return None;
    }
    if n != 10 {
        return None;
    }
    if s.get_char(4) != '-' || s.get_char(7) != '-' {
        return None;
    }
    let d0 = match char_dig(s.get_char(0)) {
        Some(d) => d,
        None => {
            return None;
        },
    };
    let d1 = match char_dig(s.get_char(1)) {
        Some(d) => d,
        None => {
            return None;
        },
    };
    let d2 = match char_dig(s.get_char(2)) {
        Some(d) => d,
        None => {
            return None;
        },
    };
    let d3 = match char_dig(s.get_char(3)) {
        Some(d) => d,
        None => {
            return None;
        },
    };
    let d5 = match char_dig(s.get_char(5)) {
        Some(d) => d,
        None => {
            return None;
        },
    };
    let d6 = match char_dig(s.get_char(6)) {
        Some(d) => d,
        None => {
            return None;
        },
    };
    let d8 = match char_dig(s.get_char(8)) {
        Some(d) => d,
        None => {
            return None;
        },
    };
    let d9 = match char_dig(s.get_char(9)) {
        Some(d) => d,
        None => {
            return None;
        },
    };
    let year: u32 = d0 as u32 * 1000 + d1 as u32 * 100 + d2 as u32 * 10 + d3 as u32;
    let month: u8 = d5 * 10 + d6;
    let day: u8 = d8 * 10 + d9;
    Date::new(year, month, day)
}

/// One source entry passes the registry.
pub open spec fn src_entry_ok(entry: (String, RawTable)) -> bool {
    source::source_known(entry.0@) && source::source_config_ok(entry.0@, entry.1@)
}

/// One sink entry passes the registry.
pub open spec fn sink_entry_ok(entry: (String, RawTable)) -> bool {
    sink::sink_known(entry.0@) && sink::sink_config_ok(entry.0@, entry.1@)
}

/// Build the run's topology: resolve the date bounds, then construct every
/// source and every sink in declaration order, aborting on the first
/// rejected component, before any data is touched.
#[verifier::loop_isolation(false)]
pub fn build_topology(config: &RawConfig, today: Date, yesterday: Date) -> (r: Result<
    Topology,
    Error,
>)
    requires
        today.valid(),
        yesterday.valid(),
    ensures
        ({
            let fd = date_spec(config.from_date@, today, yesterday);
            let td = date_spec(config.to_date@, today, yesterday);
            &&& (fd is None ==> (r matches Err(Error::DateFormat(n)) && n@ == "from_date"@))
            &&& (fd is Some && td is None ==> (r matches Err(Error::DateFormat(n)) && n@
                == "to_date"@))
            &&& (fd is Some && td is Some ==> {
                let g = GlobalConfig { from_date: fd.unwrap(), to_date: td.unwrap() };
                &&& g.from_date.valid() && g.to_date.valid()
                &&& (r is Ok <==> (forall|j: int|
                    0 <= j < config.sources@.len() ==> src_entry_ok(#[trigger] config.sources@[j]))
                    && (forall|j: int|
                    0 <= j < config.sinks@.len() ==> sink_entry_ok(#[trigger] config.sinks@[j])))
                &&& (r matches Ok(t) ==> {
                    &&& t.data_sources@.len() == config.sources@.len()
                    &&& forall|j: int|
                        0 <= j < config.sources@.len() ==> {
                            &&& (#[trigger] t.data_sources@[j]).name@ == config.sources@[j].0@
                            &&& source::source_matches(
                                config.sources@[j].0@,
                                config.sources@[j].1@,
                                g,
                                t.data_sources@[j].component,
                            )
                        }
                    &&& t.sinks@.len() == config.sinks@.len()
                    &&& forall|j: int|
                        0 <= j < config.sinks@.len() ==> {
                            &&& (#[trigger] t.sinks@[j]).name@ == config.sinks@[j].0@
                            &&& sink::sink_matches(
                                config.sinks@[j].0@,
                                config.sinks@[j].1@,
                                t.sinks@[j].component,
                            )
                        }
                })
                &&& (r matches Err(Error::Source(e, n)) ==> exists|j: int|
                    0 <= j < config.sources@.len() && !src_entry_ok(#[trigger] config.sources@[j])
                        && n@ == config.sources@[j].0@ && source::source_err_matches(
                        config.sources@[j].0@,
                        config.sources@[j].1@,
                        e,
                    ) && (forall|l: int| 0 <= l < j ==> src_entry_ok(#[trigger] config.sources@[l])))
                &&& (r matches Err(Error::Sink(e, n)) ==> (forall|j: int|
                    0 <= j < config.sources@.len() ==> src_entry_ok(#[trigger] config.sources@[j]))
                    && exists|j: int|
                    0 <= j < config.sinks@.len() && !sink_entry_ok(#[trigger] config.sinks@[j])
                        && n@ == config.sinks@[j].0@ && sink::sink_err_matches(
                        config.sinks@[j].0@,
                        config.sinks@[j].1@,
                        e,
                    ) && (forall|l: int| 0 <= l < j ==> sink_entry_ok(#[trigger] config.sinks@[l])))
                &&& (r matches Err(e) ==> !(e is DateFormat))
            })
        }),
{
    let from_date = match resolve_date(config.from_date.as_str(), today, yesterday) {
        Some(d) => d,
        None => {
            return Err(Error::DateFormat("from_date".to_owned()));
        },
    };
    let to_date = match resolve_date(config.to_date.as_str(), today, yesterday) {
        Some(d) => d,
        None => {
            return Err(Error::DateFormat("to_date".to_owned()));
        },
    };
    let global = GlobalConfig { from_date, to_date };
    let n_src = config.sources.len();
    let mut data_sources: Vec<Component<SourceKind>> = Vec::new();
    let mut k: usize = 0;
    while k < n_src
        invariant
            n_src == config.sources@.len(),
            k <= n_src,
            data_sources@.len() == k,
            forall|j: int| 0 <= j < k ==> src_entry_ok(#[trigger] config.sources@[j]),
            forall|j: int|
                0 <= j < k ==> {
                    &&& (#[trigger] data_sources@[j]).name@ == config.sources@[j].0@
                    &&& source::source_matches(
                        config.sources@[j].0@,
                        config.sources@[j].1@,
                        global,
                        data_sources@[j].component,
                    )
                },
        decreases n_src - k,
    {
        let entry = &config.sources[k];
        match source::Registration::build(entry.0.as_str(), &entry.1, global) {
            Ok(kind) => {
                data_sources.push(Component { name: entry.0.clone(), component: kind });
            },
            Err(e) => {
                return Err(Error::Source(e, entry.0.clone()));
            },
        }
        k += 1;
    }
    let n_sink = config.sinks.len();
    let mut sinks: Vec<Component<SinkKind>> = Vec::new();
    let mut k2: usize = 0;
    while k2 < n_sink
        invariant
            n_sink == config.sinks@.len(),
            k2 <= n_sink,
            sinks@.len() == k2,
            forall|j: int| 0 <= j < k2 ==> sink_entry_ok(#[trigger] config.sinks@[j]),
            forall|j: int|
                0 <= j < k2 ==> {
                    &&& (#[trigger] sinks@[j]).name@ == config.sinks@[j].0@
                    &&& sink::sink_matches(
                        config.sinks@[j].0@,
                        config.sinks@[j].1@,
                        sinks@[j].component,
                    )
                },
            forall|j: int|
                0 <= j < config.sources@.len() ==> src_entry_ok(#[trigger] config.sources@[j]),
        decreases n_sink - k2,
    {
        let entry = &config.sinks[k2];
        match sink::Registration::build(entry.0.as_str(), &entry.1) {
            Ok(kind) => {
                sinks.push(Component { name: entry.0.clone(), component: kind });
            },
            Err(e) => {
                return Err(Error::Sink(e, entry.0.clone()));
            },
        }
        k2 += 1;
    }
    Ok(Topology { data_sources, sinks })
}

} // verus!
