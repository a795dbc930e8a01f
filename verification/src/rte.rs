//! The generation-mix archive source: parsing of the daily tab-separated
//! table, conversion of rows into points, and aggregation over a date range.
//!
//! The table has a header row, data rows in a fixed column order, and a
//! free-text trailer whose first line starts with a fixed sentinel; rows at
//! or after the sentinel are not data and are dropped silently.

use crate::bytes::{
    dec_val, is_digit_byte, is_i64_text, is_u64_text, i64_text_val, parse_i64, parse_u64, split_by,
    split_bytes, unsigned_digits,
};
use crate::date::Date;
use crate::point::{views_of_points, Point, PointView, Points, Value, ValueView};
use crate::text::{four_digits, push_four_digits, push_two_digits, two_digits};
use chrono::TimeZone;
use vstd::prelude::*;

verus! {

/// The views of a vector of byte columns.
pub open spec fn views_of(v: Seq<Vec<u8>>) -> Seq<Seq<u8>> {
    v.map_values(|c: Vec<u8>| c@)
}

/// `"RTE ne pourra"`, the fixed prefix of the trailer block.
pub open spec fn sentinel_seq() -> Seq<u8> {
    seq![82u8, 84, 69, 32, 110, 101, 32, 112, 111, 117, 114, 114, 97]
}

/// `"France"`, the only scope the feed is expected to carry.
pub open spec fn scope_france() -> Seq<u8> {
    seq![70u8, 114, 97, 110, 99, 101]
}

fn sentinel_vec() -> (r: Vec<u8>)
    ensures
        r@ == sentinel_seq(),
{
    let mut v: Vec<u8> = Vec::new();
    v.push(82);
    v.push(84);
    v.push(69);
    v.push(32);
    v.push(110);
    v.push(101);
    v.push(32);
    v.push(112);
    v.push(111);
    v.push(117);
    v.push(114);
    v.push(114);
    v.push(97);
    proof {
        assert(v@ =~= sentinel_seq());
    }
    v
}

fn scope_vec() -> (r: Vec<u8>)
    ensures
        r@ == scope_france(),
{
    let mut v: Vec<u8> = Vec::new();
    v.push(70);
    v.push(114);
    v.push(97);
    v.push(110);
    v.push(99);
    v.push(101);
    proof {
        assert(v@ =~= scope_france());
    }
    v
}

fn bytes_eq(a: &Vec<u8>, b: &Vec<u8>) -> (r: bool)
    ensures
        r == (a@ == b@),
{
    let n = a.len();
    if n != b.len() {
        return false;
    }
    let mut i: usize = 0;
    while i < n
        invariant
            i <= n,
            n == a@.len() == b@.len(),
            forall|j: int| 0 <= j < i ==> a@[j] == b@[j],
        decreases n - i,
    {
        if a[i] != b[i] {
            return false;
        }
        i += 1;
    }
    proof {
        assert(a@ =~= b@);
    }
    true
}

fn copy_bytes(v: &Vec<u8>) -> (r: Vec<u8>)
    ensures
        r@ == v@,
{
    let mut out: Vec<u8> = Vec::new();
    let n = v.len();
    let mut i: usize = 0;
    while i < n
        invariant
            i <= n,
            n == v@.len(),
            out@ == v@.take(i as int),
        decreases n - i,
    {
        out.push(v[i]);
        proof {
            assert(v@.take(i + 1) =~= v@.take(i as int).push(v@[i as int]));
        }
        i += 1;
    }
    proof {
        assert(v@.take(n as int) =~= v@);
    }
    out
}

/// A record whose first column opens with the trailer sentinel.
pub open spec fn is_sentinel_rec(rec: Seq<Seq<u8>>) -> bool {
    rec.len() > 0 && rec[0].len() >= 13 && rec[0].subrange(0, 13) == sentinel_seq()
}

/// Whether a parsed record is the start of the trailer block.
pub fn is_end_record(record: &Vec<Vec<u8>>) -> (r: bool)
    ensures
        r == is_sentinel_rec(views_of(record@)),
{
    if record.len() == 0 {
        return false;
    }
    let col = &record[0];
    if col.len() < 13 {
        return false;
    }
    let s = sentinel_vec();
    let mut i: usize = 0;
    while i < 13
        invariant
            i <= 13,
            col@.len() >= 13,
            s@ == sentinel_seq(),
            col == record@[0],
            forall|j: int| 0 <= j < i ==> col@[j] == sentinel_seq()[j],
        decreases 13 - i,
    {
        if col[i] != s[i] {
            proof {
                assert(col@.subrange(0, 13)[i as int] == col@[i as int]);
            }
            return false;
        }
        i += 1;
    }
    proof {
        assert(col@.subrange(0, 13) =~= sentinel_seq());
    }
    true
}

/// Error while interpreting one row of the table.
#[derive(Debug, PartialEq, Eq)]
pub enum DataError {
    /// The scope column held something other than the national scope.
    InvalidScope(Vec<u8>),
    /// A column the schema requires was absent.
    MissingField(String),
    /// The calendar date or clock time column did not parse.
    Date,
    /// A numeric column did not parse; carries the field name and raw bytes.
    Parse(String, Vec<u8>),
}

/// One parsed sample of the national generation mix.
///
/// `date` is the sample instant as Unix seconds (UTC); quantities are
/// megawatt readings, `pumped_storage` signed since the storage may draw.
#[derive(Debug, PartialEq, Eq, Structural, Clone, Copy)]
pub struct DailyRow {
    pub date: i64,
    pub generation_total: u64,
    pub prediction_yesterday: u64,
    pub prediction_now: u64,
    pub oil: u64,
    pub coal: u64,
    pub gas: u64,
    pub nuclear: u64,
    pub wind: u64,
    pub solar: u64,
    pub hydro: u64,
    pub pumped_storage: i64,
    pub bioenergy: u64,
    pub co2: u64,
}

/// What `chrono_tz`'s Europe/Paris zone maps a wall-clock time to, as Unix
/// seconds: `None` when the local time is skipped or ambiguous.
pub uninterp spec fn paris_unix_of(y: int, mo: int, d: int, h: int, mi: int) -> Option<int>;

/// Relies on chrono's `TimeZone::with_ymd_and_hms` for `chrono_tz`'s
/// Europe/Paris zone, `MappedLocalTime::single` and `DateTime::timestamp`:
/// the conversion depends on the arguments (and the crate's compiled time
/// zone table) alone, and yields a single instant only for an unambiguous
/// local time.
#[verifier::external_body]
fn paris_to_unix(y: u32, mo: u8, d: u8, h: u8, mi: u8) -> (r: Option<i64>)
    requires
        y <= 9999,
    ensures
        r is Some <==> paris_unix_of(y as int, mo as int, d as int, h as int, mi as int) is Some,
        r is Some ==> r.unwrap() == paris_unix_of(
            y as int,
            mo as int,
            d as int,
            h as int,
            mi as int,
        ).unwrap(),
{
    chrono_tz::Europe::Paris.with_ymd_and_hms(y as i32, mo as u32, d as u32, h as u32, mi as u32, 0)
        .single()
        .map(|dt| dt.timestamp())
}

/// The `YYYY-MM-DD` shape of the calendar date column.
pub open spec fn date_text_shape(s: Seq<u8>) -> bool {
    &&& s.len() == 10
    &&& s[4] == 45
    &&& s[7] == 45
    &&& is_digit_byte(s[0])
    &&& is_digit_byte(s[1])
    &&& is_digit_byte(s[2])
    &&& is_digit_byte(s[3])
    &&& is_digit_byte(s[5])
    &&& is_digit_byte(s[6])
    &&& is_digit_byte(s[8])
    &&& is_digit_byte(s[9])
}

pub open spec fn spec_date_of(s: Seq<u8>) -> Date {
    Date {
        year: ((s[0] - 48) * 1000 + (s[1] - 48) * 100 + (s[2] - 48) * 10 + (s[3] - 48)) as u32,
        month: ((s[5] - 48) * 10 + (s[6] - 48)) as u8,
        day: ((s[8] - 48) * 10 + (s[9] - 48)) as u8,
    }
}

/// Parse the `YYYY-MM-DD` date column, insisting on a real calendar date.
fn parse_date_col(s: &Vec<u8>) -> (r: Option<Date>)
    ensures
        r is Some <==> (date_text_shape(s@) && spec_date_of(s@).valid()),
        r is Some ==> r.unwrap() == spec_date_of(s@),
{
    if s.len() != 10 {
        return None;
    }
    let b0 = s[0];
    let b1 = s[1];
    let b2 = s[2];
    let b3 = s[3];
    let b5 = s[5];
    let b6 = s[6];
    let b8 = s[8];
    let b9 = s[9];
    if s[4] != 45 || s[7] != 45 {
        return None;
    }
    if b0 < 48 || b0 > 57 || b1 < 48 || b1 > 57 || b2 < 48 || b2 > 57 || b3 < 48 || b3 > 57 {
        return None;
    }
    if b5 < 48 || b5 > 57 || b6 < 48 || b6 > 57 || b8 < 48 || b8 > 57 || b9 < 48 || b9 > 57 {
        return None;
    }
    let year: u32 = (b0 - 48) as u32 * 1000 + (b1 - 48) as u32 * 100 + (b2 - 48) as u32 * 10 + (b3
        - 48) as u32;
    let month: u8 = (b5 - 48) * 10 + (b6 - 48);
    let day: u8 = (b8 - 48) * 10 + (b9 - 48);
    Date::new(year, month, day)
}

/// The `HH:MM` shape of the clock time column, with a valid time of day.
pub open spec fn time_text_shape(s: Seq<u8>) -> bool {
    &&& s.len() == 5
    &&& s[2] == 58
    &&& is_digit_byte(s[0])
    &&& is_digit_byte(s[1])
    &&& is_digit_byte(s[3])
    &&& is_digit_byte(s[4])
}

pub open spec fn spec_hour_of(s: Seq<u8>) -> int {
    (s[0] - 48) * 10 + (s[1] - 48)
}

pub open spec fn spec_minute_of(s: Seq<u8>) -> int {
    (s[3] - 48) * 10 + (s[4] - 48)
}

pub open spec fn time_text_ok(s: Seq<u8>) -> bool {
    time_text_shape(s) && spec_hour_of(s) <= 23 && spec_minute_of(s) <= 59
}

/// Parse the `HH:MM` clock time column.
fn parse_time_col(s: &Vec<u8>) -> (r: Option<(u8, u8)>)
    ensures
        r is Some <==> time_text_ok(s@),
        r is Some ==> r.unwrap().0 == spec_hour_of(s@) && r.unwrap().1 == spec_minute_of(s@),
{
    if s.len() != 5 {
        return None;
    }
    let b0 = s[0];
    let b1 = s[1];
    let b3 = s[3];
    let b4 = s[4];
    if s[2] != 58 {
        return None;
    }
    if b0 < 48 || b0 > 57 || b1 < 48 || b1 > 57 || b3 < 48 || b3 > 57 || b4 < 48 || b4 > 57 {
        return None;
    }
    let h: u8 = (b0 - 48) * 10 + (b1 - 48);
    let m: u8 = (b3 - 48) * 10 + (b4 - 48);
    if h > 23 || m > 59 {
        return None;
    }
    Some((h, m))
}

pub open spec fn u64_col_ok(rec: Seq<Seq<u8>>, idx: int) -> bool {
    idx < rec.len() && is_u64_text(rec[idx])
}

pub open spec fn u64_col_val(rec: Seq<Seq<u8>>, idx: int) -> int {
    dec_val(unsigned_digits(rec[idx]))
}

pub open spec fn i64_col_ok(rec: Seq<Seq<u8>>, idx: int) -> bool {
    idx < rec.len() && is_i64_text(rec[idx])
}

/// The instant a record's date and time columns describe, if Paris wall
/// clock maps them to a single moment.
pub open spec fn row_instant(rec: Seq<Seq<u8>>) -> Option<int> {
    paris_unix_of(
        spec_date_of(rec[2]).year as int,
        spec_date_of(rec[2]).month as int,
        spec_date_of(rec[2]).day as int,
        spec_hour_of(rec[3]),
        spec_minute_of(rec[3]),
    )
}

/// A data record that converts into a `DailyRow`: national scope, a real
/// date and time, and every numeric column strictly parseable.
pub open spec fn record_ok(rec: Seq<Seq<u8>>) -> bool {
    &&& rec.len() > 0 && rec[0] == scope_france()
    &&& rec.len() > 2 && date_text_shape(rec[2]) && spec_date_of(rec[2]).valid()
    &&& rec.len() > 3 && time_text_ok(rec[3])
    &&& row_instant(rec) is Some
    &&& u64_col_ok(rec, 4)
    &&& u64_col_ok(rec, 5)
    &&& u64_col_ok(rec, 6)
    &&& u64_col_ok(rec, 7)
    &&& u64_col_ok(rec, 8)
    &&& u64_col_ok(rec, 9)
    &&& u64_col_ok(rec, 10)
    &&& u64_col_ok(rec, 11)
    &&& u64_col_ok(rec, 12)
    &&& u64_col_ok(rec, 13)
    &&& i64_col_ok(rec, 14)
    &&& u64_col_ok(rec, 15)
    &&& u64_col_ok(rec, 17)
}

/// The row a valid record describes.
pub open spec fn spec_row_of(rec: Seq<Seq<u8>>) -> DailyRow {
    DailyRow {
        date: (match row_instant(rec) {
            Some(t) => t,
            None => 0,
        }) as i64,
        generation_total: u64_col_val(rec, 4) as u64,
        prediction_yesterday: u64_col_val(rec, 5) as u64,
        prediction_now: u64_col_val(rec, 6) as u64,
        oil: u64_col_val(rec, 7) as u64,
        coal: u64_col_val(rec, 8) as u64,
        gas: u64_col_val(rec, 9) as u64,
        nuclear: u64_col_val(rec, 10) as u64,
        wind: u64_col_val(rec, 11) as u64,
        solar: u64_col_val(rec, 12) as u64,
        hydro: u64_col_val(rec, 13) as u64,
        pumped_storage: i64_text_val(rec[14]) as i64,
        bioenergy: u64_col_val(rec, 15) as u64,
        co2: u64_col_val(rec, 17) as u64,
    }
}

/// How one numeric column failure is reported.
pub open spec fn field_err(rec: Seq<Seq<u8>>, idx: int, name: Seq<char>, e: DataError) -> bool {
    if rec.len() <= idx {
        e matches DataError::MissingField(n) && n@ == name
    } else {
        e matches DataError::Parse(n, raw) && n@ == name && raw@ == rec[idx]
    }
}

pub open spec fn numeric_err(rec: Seq<Seq<u8>>, e: DataError) -> bool {
    if !u64_col_ok(rec, 4) {
        field_err(rec, 4, "Generation"@, e)
    } else if !u64_col_ok(rec, 5) {
        field_err(rec, 5, "Prediction D-1"@, e)
    } else if !u64_col_ok(rec, 6) {
        field_err(rec, 6, "Prediction"@, e)
    } else if !u64_col_ok(rec, 7) {
        field_err(rec, 7, "Oil"@, e)
    } else if !u64_col_ok(rec, 8) {
        field_err(rec, 8, "Coal"@, e)
    } else if !u64_col_ok(rec, 9) {
        field_err(rec, 9, "Gas"@, e)
    } else if !u64_col_ok(rec, 10) {
        field_err(rec, 10, "Nuclear"@, e)
    } else if !u64_col_ok(rec, 11) {
        field_err(rec, 11, "Wind"@, e)
    } else if !u64_col_ok(rec, 12) {
        field_err(rec, 12, "Solar"@, e)
    } else if !u64_col_ok(rec, 13) {
        field_err(rec, 13, "Hydro"@, e)
    } else if !i64_col_ok(rec, 14) {
        field_err(rec, 14, "Pumped storage"@, e)
    } else if !u64_col_ok(rec, 15) {
        field_err(rec, 15, "Bioenergy"@, e)
    } else if !u64_col_ok(rec, 17) {
        field_err(rec, 17, "CO2"@, e)
    } else {
        false
    }
}

/// Which error an ill-formed record is reported with; checks run in the
/// order the schema lists the columns.
pub open spec fn record_err(rec: Seq<Seq<u8>>, e: DataError) -> bool {
    if rec.len() <= 0 {
        e matches DataError::MissingField(n) && n@ == "Perimetre"@
    } else if rec[0] != scope_france() {
        e matches DataError::InvalidScope(raw) && raw@ == rec[0]
    } else if rec.len() <= 2 {
        e matches DataError::MissingField(n) && n@ == "Date"@
    } else if !(date_text_shape(rec[2]) && spec_date_of(rec[2]).valid()) {
        e == DataError::Date
    } else if rec.len() <= 3 {
        e matches DataError::MissingField(n) && n@ == "Time"@
    } else if !time_text_ok(rec[3]) {
        e == DataError::Date
    } else if row_instant(rec) is None {
        e == DataError::Date
    } else {
        numeric_err(rec, e)
    }
}

fn get_u64_field(record: &Vec<Vec<u8>>, index: usize, name: &str) -> (r: Result<u64, DataError>)
    ensures
        ({
            let rec = views_of(record@);
            match r {
                Ok(v) => u64_col_ok(rec, index as int) && v == u64_col_val(rec, index as int),
                Err(e) => !u64_col_ok(rec, index as int) && field_err(rec, index as int, name@, e),
            }
        }),
{
    if index >= record.len() {
        return Err(DataError::MissingField(name.to_owned()));
    }
    match parse_u64(record[index].as_slice()) {
        Some(v) => Ok(v),
        None => Err(DataError::Parse(name.to_owned(), copy_bytes(&record[index]))),
    }
}

fn get_i64_field(record: &Vec<Vec<u8>>, index: usize, name: &str) -> (r: Result<i64, DataError>)
    ensures
        ({
            let rec = views_of(record@);
            match r {
                Ok(v) => i64_col_ok(rec, index as int) && v == i64_text_val(rec[index as int]),
                Err(e) => !i64_col_ok(rec, index as int) && field_err(rec, index as int, name@, e),
            }
        }),
{
    if index >= record.len() {
        return Err(DataError::MissingField(name.to_owned()));
    }
    match parse_i64(record[index].as_slice()) {
        Some(v) => Ok(v),
        None => Err(DataError::Parse(name.to_owned(), copy_bytes(&record[index]))),
    }
}

impl DailyRow {
    /// Validate and convert one parsed record.
    pub fn from_record(record: &Vec<Vec<u8>>) -> (r: Result<DailyRow, DataError>)
        ensures
            ({
                let rec = views_of(record@);
                &&& (r is Ok <==> record_ok(rec))
                &&& (r matches Ok(row) ==> row == spec_row_of(rec))
                &&& (r matches Err(e) ==> record_err(rec, e))
            }),
    {
        if record.len() == 0 {
            return Err(DataError::MissingField("Perimetre".to_owned()));
        }
        let france = scope_vec();
        if !bytes_eq(&record[0], &france) {
            return Err(DataError::InvalidScope(copy_bytes(&record[0])));
        }
        if record.len() <= 2 {
            return Err(DataError::MissingField("Date".to_owned()));
        }
        let date = match parse_date_col(&record[2]) {
            Some(d) => d,
            None => {
                return Err(DataError::Date);
            },
        };
        if record.len() <= 3 {
            return Err(DataError::MissingField("Time".to_owned()));
        }
        let time = match parse_time_col(&record[3]) {
            Some(t) => t,
            None => {
                return Err(DataError::Date);
            },
        };
        let instant = match paris_to_unix(date.year, date.month, date.day, time.0, time.1) {
            Some(t) => t,
            None => {
                return Err(DataError::Date);
            },
        };
        let generation_total = match get_u64_field(record, 4, "Generation") {
            Ok(v) => v,
            Err(e) => {
                return Err(e);
            },
        };
        let prediction_yesterday = match get_u64_field(record, 5, "Prediction D-1") {
            Ok(v) => v,
            Err(e) => {
                return Err(e);
            },
        };
        let prediction_now = match get_u64_field(record, 6, "Prediction") {
            Ok(v) => v,
            Err(e) => {
                return Err(e);
            },
        };
        let oil = match get_u64_field(record, 7, "Oil") {
            Ok(v) => v,
            Err(e) => {
                return Err(e);
            },
        };
        let coal = match get_u64_field(record, 8, "Coal") {
            Ok(v) => v,
            Err(e) => {
                return Err(e);
            },
        };
        let gas = match get_u64_field(record, 9, "Gas") {
            Ok(v) => v,
            Err(e) => {
                return Err(e);
            },
        };
        let nuclear = match get_u64_field(record, 10, "Nuclear") {
            Ok(v) => v,
            Err(e) => {
                return Err(e);
            },
        };
        let wind = match get_u64_field(record, 11, "Wind") {
            Ok(v) => v,
            Err(e) => {
                return Err(e);
            },
        };
        let solar = match get_u64_field(record, 12, "Solar") {
            Ok(v) => v,
            Err(e) => {
                return Err(e);
            },
        };
        let hydro = match get_u64_field(record, 13, "Hydro") {
            Ok(v) => v,
            Err(e) => {
                return Err(e);
            },
        };
        let pumped_storage = match get_i64_field(record, 14, "Pumped storage") {
            Ok(v) => v,
            Err(e) => {
                return Err(e);
            },
        };
        let bioenergy = match get_u64_field(record, 15, "Bioenergy") {
            Ok(v) => v,
            Err(e) => {
                return Err(e);
            },
        };
        let co2 = match get_u64_field(record, 17, "CO2") {
            Ok(v) => v,
            Err(e) => {
                return Err(e);
            },
        };
        Ok(
            DailyRow {
                date: instant,
                generation_total,
                prediction_yesterday,
                prediction_now,
                oil,
                coal,
                gas,
                nuclear,
                wind,
                solar,
                hydro,
                pumped_storage,
                bioenergy,
                co2,
            },
        )
    }
}

/// A line with one trailing carriage return removed.
pub open spec fn strip_cr(s: Seq<u8>) -> Seq<u8> {
    if s.len() > 0 && s.last() == 13 {
        s.drop_last()
    } else {
        s
    }
}

/// The table's lines: newline-separated, tolerant of CRLF endings.
pub open spec fn lines_of(d: Seq<u8>) -> Seq<Seq<u8>> {
    split_by(d, 10).map_values(|l: Seq<u8>| strip_cr(l))
}

/// The non-blank lines, in order; blank lines separate nothing.
pub open spec fn nonblank(ls: Seq<Seq<u8>>) -> Seq<Seq<u8>>
    decreases ls.len(),
{
    if ls.len() == 0 {
        Seq::empty()
    } else if ls.last().len() > 0 {
        nonblank(ls.drop_last()).push(ls.last())
    } else {
        nonblank(ls.drop_last())
    }
}

/// The data lines: every non-blank line after the header.
pub open spec fn body_of(d: Seq<u8>) -> Seq<Seq<u8>> {
    let nb = nonblank(lines_of(d));
    if nb.len() == 0 {
        Seq::empty()
    } else {
        nb.drop_first()
    }
}

/// The records of the table body, each line split at tabs.
pub open spec fn recs_of(d: Seq<u8>) -> Seq<Seq<Seq<u8>>> {
    body_of(d).map_values(|l: Seq<u8>| split_by(l, 9))
}

/// The index of the first trailer record, or the record count if none.
pub open spec fn stop_index(recs: Seq<Seq<Seq<u8>>>) -> int
    decreases recs.len(),
{
    if recs.len() == 0 {
        0
    } else if is_sentinel_rec(recs[0]) {
        0
    } else {
        1 + stop_index(recs.drop_first())
    }
}

proof fn lemma_stop_index(recs: Seq<Seq<Seq<u8>>>)
    ensures
        0 <= stop_index(recs) <= recs.len(),
        forall|j: int| 0 <= j < stop_index(recs) ==> !is_sentinel_rec(#[trigger] recs[j]),
        stop_index(recs) < recs.len() ==> is_sentinel_rec(recs[stop_index(recs)]),
    decreases recs.len(),
{
    if recs.len() > 0 && !is_sentinel_rec(recs[0]) {
        lemma_stop_index(recs.drop_first());
        assert forall|j: int| 0 <= j < stop_index(recs) implies !is_sentinel_rec(
            #[trigger] recs[j],
        ) by {
            if j >= 1 {
                assert(recs.drop_first()[j - 1] == recs[j]);
                assert(!is_sentinel_rec(recs.drop_first()[j - 1]));
            }
        }
        if stop_index(recs) < recs.len() {
            assert(recs.drop_first()[stop_index(recs) - 1] == recs[stop_index(recs)]);
        }
    }
}

/// Every data record before the trailer converts cleanly.
pub open spec fn day_ok(d: Seq<u8>) -> bool {
    let recs = recs_of(d);
    forall|j: int| 0 <= j < stop_index(recs) ==> record_ok(#[trigger] recs[j])
}

/// The rows a clean day's payload parses into.
pub open spec fn day_rows(d: Seq<u8>) -> Seq<DailyRow> {
    recs_of(d).take(stop_index(recs_of(d))).map_values(|rec: Seq<Seq<u8>>| spec_row_of(rec))
}

/// A record at or after the trailer sentinel contributes nothing: the
/// parsed rows are exactly the records strictly before the first sentinel,
/// however many records follow it.
pub proof fn lemma_trailer_contributes_nothing(d: Seq<u8>)
    ensures
        day_rows(d).len() == stop_index(recs_of(d)),
        stop_index(recs_of(d)) <= recs_of(d).len(),
        forall|j: int|
            0 <= j < stop_index(recs_of(d)) ==> !is_sentinel_rec(#[trigger] recs_of(d)[j]),
        stop_index(recs_of(d)) < recs_of(d).len() ==> is_sentinel_rec(
            recs_of(d)[stop_index(recs_of(d))],
        ),
{
    lemma_stop_index(recs_of(d));
}

/// A failed day names the first ill-formed record's error.
pub open spec fn parse_err_matches(d: Seq<u8>, e: DataError) -> bool {
    let recs = recs_of(d);
    exists|j: int|
        0 <= j < stop_index(recs) && !record_ok(#[trigger] recs[j]) && record_err(recs[j], e)
            && (forall|l: int| 0 <= l < j ==> record_ok(#[trigger] recs[l]))
}

/// Parse one day's extracted table: skip the header, stop silently at the
/// trailer sentinel, and convert every data row, failing on the first
/// ill-formed one.
pub fn parse_payload(data: &Vec<u8>) -> (r: Result<Vec<DailyRow>, DataError>)
    ensures
        r is Ok <==> day_ok(data@),
        r matches Ok(rows) ==> rows@ == day_rows(data@),
        r matches Err(e) ==> parse_err_matches(data@, e),
{
    let ghost all = lines_of(data@);
    let ghost n_all = all.len();
    let mut raw_lines = split_bytes(data.as_slice(), 10);
    let n_raw = raw_lines.len();
    proof {
        assert(n_all == n_raw as int);
    }
    let mut lines: Vec<Vec<u8>> = Vec::new();
    let mut k: usize = 0;
    while raw_lines.len() > 0
        invariant
            all == lines_of(data@),
            n_all == all.len(),
            n_all <= usize::MAX,
            k + raw_lines@.len() == n_all,
            forall|j: int|
                0 <= j < raw_lines@.len() ==> (#[trigger] raw_lines@[j])@ == split_by(data@, 10)[k
                    + j],
            lines@.len() == nonblank(all.take(k as int)).len(),
            forall|j: int|
                0 <= j < lines@.len() ==> (#[trigger] lines@[j])@ == nonblank(all.take(k as int))[j],
        decreases raw_lines@.len(),
    {
        let ghost old_raw = raw_lines@;
        let mut line = raw_lines.remove(0);
        proof {
            assert(forall|j: int| 0 <= j < old_raw.len() - 1 ==> old_raw.remove(0)[j] == old_raw[j
                + 1]);
            assert(all.take(k + 1).drop_last() =~= all.take(k as int));
            assert(all.take(k + 1).last() == all[k as int]);
        }
        if line.len() > 0 && line[line.len() - 1] == 13 {
            let _popped = line.pop();
        }
        proof {
            assert(line@ == all[k as int]);
        }
        if line.len() > 0 {
            lines.push(line);
        }
        k += 1;
    }
    proof {
        assert(all.take(n_all as int) =~= all);
    }
    let ghost nb = nonblank(all);
    let ghost recs = recs_of(data@);
    if lines.len() == 0 {
        proof {
            assert(recs.len() == 0);
            lemma_stop_index(recs);
            assert(Seq::<DailyRow>::empty() =~= day_rows(data@));
        }
        return Ok(Vec::new());
    }
    proof {
        assert(recs.len() == nb.len() - 1);
        assert(forall|j: int| 0 <= j < recs.len() ==> #[trigger] recs[j] == split_by(nb[j + 1], 9));
        lemma_stop_index(recs);
    }
    let mut rows: Vec<DailyRow> = Vec::new();
    let n = lines.len();
    let mut i: usize = 1;
    while i < n
        invariant
            n == lines@.len(),
            n == nb.len(),
            nb == nonblank(lines_of(data@)),
            1 <= i <= n,
            recs == recs_of(data@),
            recs.len() == n - 1,
            forall|j: int| 0 <= j < n ==> (#[trigger] lines@[j])@ == nb[j],
            forall|j: int|
                0 <= j < recs.len() ==> #[trigger] recs[j] == split_by(lines@[j + 1]@, 9),
            forall|j: int|
                0 <= j < i - 1 ==> !is_sentinel_rec(#[trigger] recs[j]) && record_ok(recs[j]),
            rows@.len() == i - 1,
            forall|j: int| 0 <= j < i - 1 ==> rows@[j] == spec_row_of(#[trigger] recs[j]),
        decreases n - i,
    {
        let line_ref = &lines[i];
        let record = split_bytes(line_ref.as_slice(), 9);
        proof {
            assert(views_of(record@) =~= recs[i - 1]);
        }
        if is_end_record(&record) {
            proof {
                lemma_stop_index(recs);
                let stop = stop_index(recs);
                assert(is_sentinel_rec(recs[i - 1]));
                if stop < i - 1 {
                    assert(!is_sentinel_rec(recs[stop]));
                    assert(false);
                }
                if stop > i - 1 {
                    assert(!is_sentinel_rec(recs[i - 1]));
                    assert(false);
                }
                assert(rows@ =~= day_rows(data@));
            }
            return Ok(rows);
        }
        match DailyRow::from_record(&record) {
            Ok(row) => {
                rows.push(row);
            },
            Err(e) => {
                proof {
                    lemma_stop_index(recs);
                    let stop = stop_index(recs);
                    assert(!record_ok(recs[i - 1]));
                    if stop <= i - 1 {
                        assert(is_sentinel_rec(recs[stop]));
                        assert(false);
                    }
                    assert(0 <= i - 1 < stop && !record_ok(recs[i - 1]) && record_err(
                        recs[i - 1],
                        e,
                    ) && (forall|l: int| 0 <= l < i - 1 ==> record_ok(#[trigger] recs[l])));
                }
                return Err(e);
            },
        }
        i += 1;
    }
    proof {
        lemma_stop_index(recs);
        let stop = stop_index(recs);
        if stop < recs.len() {
            assert(is_sentinel_rec(recs[stop]));
            assert(false);
        }
        assert(recs.take(stop) =~= recs);
        assert(rows@ =~= day_rows(data@));
    }
    Ok(rows)
}

/// The constructed archive source: the dates to cover and where to put
/// downloaded files, when a place is configured.
#[derive(Debug)]
pub struct Rte {
    pub global: crate::source::GlobalConfig,
    pub download_folder: Option<String>,
}

/// The source's configuration: at most an optional `download_folder` string.
pub open spec fn rte_config_ok(m: Map<Seq<char>, crate::raw::RawValueView>) -> bool {
    crate::raw::text_optional(m, "download_folder"@)
}

pub open spec fn rte_matches(
    m: Map<Seq<char>, crate::raw::RawValueView>,
    g: crate::source::GlobalConfig,
    s: Rte,
) -> bool {
    &&& s.global == g
    &&& match s.download_folder {
        Some(f) => crate::raw::opt_text_of(m, "download_folder"@) == Some(f@),
        None => crate::raw::opt_text_of(m, "download_folder"@) is None,
    }
}

/// Construct the source from its raw configuration; the error names the
/// offending key.
pub fn build_rte(table: &crate::raw::RawTable, global: crate::source::GlobalConfig) -> (r: Result<
    Rte,
    String,
>)
    ensures
        r is Ok <==> rte_config_ok(table@),
        r matches Ok(s) ==> rte_matches(table@, global, s),
        r matches Err(k) ==> k@ == "download_folder"@,
{
    match crate::raw::read_text_opt(table, "download_folder") {
        Ok(folder) => Ok(Rte { global, download_folder: folder }),
        Err(()) => Err("download_folder".to_owned()),
    }
}

/// The download address for one day's archive, the day written `DD/MM/YYYY`.
pub open spec fn day_url(d: Date) -> Seq<char> {
    "https://eco2mix.rte-france.com/curves/eco2mixDl?date="@ + two_digits(d.day as int) + "/"@
        + two_digits(d.month as int) + "/"@ + four_digits(d.year as int)
}

/// Build the request address for one day's archive.
pub fn format_url(date: Date) -> (r: String)
    requires
        date.valid(),
    ensures
        r@ == day_url(date),
{
    let mut s = "https://eco2mix.rte-france.com/curves/eco2mixDl?date=".to_owned();
    push_two_digits(&mut s, date.day);
    proof {
        reveal_strlit("/");
    }
    s.append("/");
    push_two_digits(&mut s, date.month);
    s.append("/");
    push_four_digits(&mut s, date.year);
    proof {
        assert(s@ =~= day_url(date));
    }
    s
}

/// The view of the point one row converts to: one field per quantity, the
/// row's instant as the timestamp, and no tags.
pub open spec fn spec_point_of_row(row: DailyRow) -> PointView {
    PointView {
        name: "eco2mix"@,
        tags: Map::empty(),
        fields: Map::empty().insert(
            "generation_total"@,
            ValueView::Integer(row.generation_total as i64 as int),
        ).insert(
            "prediction_yesterday"@,
            ValueView::Integer(row.prediction_yesterday as i64 as int),
        ).insert(
            "prediction_now"@,
            ValueView::Integer(row.prediction_now as i64 as int),
        ).insert("oil"@, ValueView::Integer(row.oil as i64 as int)).insert(
            "coal"@,
            ValueView::Integer(row.coal as i64 as int),
        ).insert("gas"@, ValueView::Integer(row.gas as i64 as int)).insert(
            "nuclear"@,
            ValueView::Integer(row.nuclear as i64 as int),
        ).insert("wind"@, ValueView::Integer(row.wind as i64 as int)).insert(
            "solar"@,
            ValueView::Integer(row.solar as i64 as int),
        ).insert("hydro"@, ValueView::Integer(row.hydro as i64 as int)).insert(
            "pumped_storage"@,
            ValueView::Integer(row.pumped_storage as int),
        ).insert("bioenergy"@, ValueView::Integer(row.bioenergy as i64 as int)).insert(
            "co2"@,
            ValueView::Integer(row.co2 as i64 as int),
        ),
        timestamp: Some(row.date as int),
    }
}

impl DailyRow {
    /// The point this row contributes, named for the data series.
    pub fn to_point(&self) -> (r: Point)
        ensures
            r@ == spec_point_of_row(*self),
    {
        Point::builder("eco2mix".to_owned()).field(
            "generation_total",
            Value::Integer(#[verifier::truncate] (self.generation_total as i64)),
        ).field(
            "prediction_yesterday",
            Value::Integer(#[verifier::truncate] (self.prediction_yesterday as i64)),
        ).field(
            "prediction_now",
            Value::Integer(#[verifier::truncate] (self.prediction_now as i64)),
        ).field("oil", Value::Integer(#[verifier::truncate] (self.oil as i64))).field(
            "coal",
            Value::Integer(#[verifier::truncate] (self.coal as i64)),
        ).field("gas", Value::Integer(#[verifier::truncate] (self.gas as i64))).field(
            "nuclear",
            Value::Integer(#[verifier::truncate] (self.nuclear as i64)),
        ).field("wind", Value::Integer(#[verifier::truncate] (self.wind as i64))).field(
            "solar",
            Value::Integer(#[verifier::truncate] (self.solar as i64)),
        ).field("hydro", Value::Integer(#[verifier::truncate] (self.hydro as i64))).field(
            "pumped_storage",
            Value::Integer(self.pumped_storage),
        ).field("bioenergy", Value::Integer(#[verifier::truncate] (self.bioenergy as i64))).field(
            "co2",
            Value::Integer(#[verifier::truncate] (self.co2 as i64)),
        ).timestamp(self.date).build()
    }
}

/// Reading each declared field key back from a converted row reproduces the
/// row's quantity exactly: unsigned readings lossless, the pumped-storage
/// balance with its sign.
pub proof fn lemma_row_point_round_trip(row: DailyRow)
    requires
        row.generation_total <= i64::MAX as u64,
        row.prediction_yesterday <= i64::MAX as u64,
        row.prediction_now <= i64::MAX as u64,
        row.oil <= i64::MAX as u64,
        row.coal <= i64::MAX as u64,
        row.gas <= i64::MAX as u64,
        row.nuclear <= i64::MAX as u64,
        row.wind <= i64::MAX as u64,
        row.solar <= i64::MAX as u64,
        row.hydro <= i64::MAX as u64,
        row.bioenergy <= i64::MAX as u64,
        row.co2 <= i64::MAX as u64,
    ensures
        spec_point_of_row(row).fields["generation_total"@] == ValueView::Integer(
            row.generation_total as int,
        ),
        spec_point_of_row(row).fields["prediction_yesterday"@] == ValueView::Integer(
            row.prediction_yesterday as int,
        ),
        spec_point_of_row(row).fields["prediction_now"@] == ValueView::Integer(
            row.prediction_now as int,
        ),
        spec_point_of_row(row).fields["oil"@] == ValueView::Integer(row.oil as int),
        spec_point_of_row(row).fields["coal"@] == ValueView::Integer(row.coal as int),
        spec_point_of_row(row).fields["gas"@] == ValueView::Integer(row.gas as int),
        spec_point_of_row(row).fields["nuclear"@] == ValueView::Integer(row.nuclear as int),
        spec_point_of_row(row).fields["wind"@] == ValueView::Integer(row.wind as int),
        spec_point_of_row(row).fields["solar"@] == ValueView::Integer(row.solar as int),
        spec_point_of_row(row).fields["hydro"@] == ValueView::Integer(row.hydro as int),
        spec_point_of_row(row).fields["pumped_storage"@] == ValueView::Integer(
            row.pumped_storage as int,
        ),
        spec_point_of_row(row).fields["bioenergy"@] == ValueView::Integer(row.bioenergy as int),
        spec_point_of_row(row).fields["co2"@] == ValueView::Integer(row.co2 as int),
        spec_point_of_row(row).timestamp == Some(row.date as int),
{
    reveal_strlit("generation_total");
    reveal_strlit("prediction_yesterday");
    reveal_strlit("prediction_now");
    reveal_strlit("oil");
    reveal_strlit("coal");
    reveal_strlit("gas");
    reveal_strlit("nuclear");
    reveal_strlit("wind");
    reveal_strlit("solar");
    reveal_strlit("hydro");
    reveal_strlit("pumped_storage");
    reveal_strlit("bioenergy");
    reveal_strlit("co2");
    assert("generation_total"@.len() == 16);
    assert("prediction_yesterday"@.len() == 20);
    assert("prediction_now"@.len() == 14);
    assert("oil"@.len() == 3);
    assert("coal"@.len() == 4);
    assert("gas"@.len() == 3);
    assert("nuclear"@.len() == 7);
    assert("wind"@.len() == 4);
    assert("solar"@.len() == 5);
    assert("hydro"@.len() == 5);
    assert("pumped_storage"@.len() == 14);
    assert("bioenergy"@.len() == 9);
    assert("co2"@.len() == 3);
    assert("oil"@ != "gas"@) by {
        assert("oil"@[0] == 'o' && "gas"@[0] == 'g');
    }
    assert("oil"@ != "co2"@) by {
        assert("oil"@[0] == 'o' && "co2"@[0] == 'c');
    }
    assert("gas"@ != "co2"@) by {
        assert("gas"@[0] == 'g' && "co2"@[0] == 'c');
    }
    assert("coal"@ != "wind"@) by {
        assert("coal"@[0] == 'c' && "wind"@[0] == 'w');
    }
    assert("solar"@ != "hydro"@) by {
        assert("solar"@[0] == 's' && "hydro"@[0] == 'h');
    }
    assert("prediction_now"@ != "pumped_storage"@) by {
        assert("prediction_now"@[1] == 'r' && "pumped_storage"@[1] == 'u');
    }
}

/// Convert parsed rows into a batch, in row order.
pub fn points_of_rows(rows: &Vec<DailyRow>) -> (r: Points)
    ensures
        r@.len() == rows@.len(),
        forall|i: int| 0 <= i < rows@.len() ==> (#[trigger] r@[i])@ == spec_point_of_row(rows@[i]),
{
    let mut points = Points::with_capacity(rows.len());
    let n = rows.len();
    let mut i: usize = 0;
    while i < n
        invariant
            i <= n,
            n == rows@.len(),
            points@.len() == i,
            forall|j: int|
                0 <= j < i ==> (#[trigger] points@[j])@ == spec_point_of_row(rows@[j]),
        decreases n - i,
    {
        let row = rows[i];
        points.add(row.to_point());
        i += 1;
    }
    points
}

/// What decompressing the first entry of a ZIP archive yields.
pub uninterp spec fn zip_first_entry_of(data: Seq<u8>) -> Seq<u8>;

/// Whether the bytes are an archive whose first entry can be read: it
/// opens, holds an entry, that entry's method is one the build decompresses
/// (stored or deflate), and its stream decompresses cleanly.
pub uninterp spec fn zip_entry_ok(data: Seq<u8>) -> bool;

/// Relies on `zip::ZipArchive::new` over an in-memory cursor, `by_index(0)`,
/// `ZipFile::compression` and std's `Read::read_to_end`: acceptance and the
/// decompressed first entry are functions of the archive bytes alone. An
/// entry whose declared method is not compiled into this build is refused
/// before any read, because the crate's reader panics on such a method
/// instead of returning an error.
#[verifier::external_body]
fn unzip_first_entry(data: &Vec<u8>) -> (r: Option<Vec<u8>>)
    ensures
        r is Some <==> zip_entry_ok(data@),
        r matches Some(payload) ==> payload@ == zip_first_entry_of(data@),
{
    let cursor = std::io::Cursor::new(data.as_slice());
    let mut archive = zip::ZipArchive::new(cursor).ok()?;
    let mut entry = archive.by_index(0).ok()?;
    match entry.compression() {
        zip::CompressionMethod::Stored | zip::CompressionMethod::Deflated => {}
        _ => return None,
    }
    let mut out = Vec::new();
    std::io::Read::read_to_end(&mut entry, &mut out).ok()?;
    Some(out)
}

/// Failure of the archive source.
#[derive(Debug, PartialEq, Eq)]
pub enum Error {
    /// Fetching a day's archive failed; the transport's description rides
    /// along.
    Download(String),
    /// A day's archive was malformed or held no readable entry.
    Extraction,
    /// A table row was invalid.
    Data(DataError),
}

/// One archive is wholly usable: its first entry unpacks and the table
/// inside parses.
pub open spec fn day_collects(d: Seq<u8>) -> bool {
    zip_entry_ok(d) && day_ok(zip_first_entry_of(d))
}

/// Unpack one day's downloaded archive and parse the table inside it.
pub fn process_day(archive: &Vec<u8>) -> (r: Result<Vec<DailyRow>, Error>)
    ensures
        r is Ok <==> day_collects(archive@),
        r matches Ok(rows) ==> rows@ == day_rows(zip_first_entry_of(archive@)),
        (r matches Err(Error::Extraction)) <==> !zip_entry_ok(archive@),
        r matches Err(Error::Data(e)) ==> zip_entry_ok(archive@) && parse_err_matches(
            zip_first_entry_of(archive@),
            e,
        ),
        r matches Err(e) ==> (e is Extraction || e is Data),
{
    let payload = match unzip_first_entry(archive) {
        Some(p) => p,
        None => {
            return Err(Error::Extraction);
        },
    };
    match parse_payload(&payload) {
        Ok(rows) => Ok(rows),
        Err(e) => Err(Error::Data(e)),
    }
}

/// The point views an in-order run of daily archives yields.
pub open spec fn days_point_views(archs: Seq<Seq<u8>>) -> Seq<PointView>
    decreases archs.len(),
{
    if archs.len() == 0 {
        Seq::empty()
    } else {
        days_point_views(archs.drop_last()) + day_rows(zip_first_entry_of(archs.last())).map_values(
            |row: DailyRow| spec_point_of_row(row),
        )
    }
}

/// Process each day's archive in the order given and concatenate the
/// resulting points; the first failing day aborts the whole collection.
pub fn collect_archives(archives: &Vec<Vec<u8>>) -> (r: Result<Points, Error>)
    ensures
        r is Ok <==> (forall|i: int|
            0 <= i < archives@.len() ==> day_collects(#[trigger] views_of(archives@)[i])),
        r matches Ok(points) ==> views_of_points(points@) == days_point_views(views_of(archives@)),
        r matches Err(Error::Extraction) ==> exists|i: int|
            0 <= i < archives@.len() && !zip_entry_ok(#[trigger] views_of(archives@)[i]) && (
            forall|j: int| 0 <= j < i ==> day_collects(#[trigger] views_of(archives@)[j])),
        r matches Err(Error::Data(e)) ==> exists|i: int|
            0 <= i < archives@.len() && zip_entry_ok(#[trigger] views_of(archives@)[i])
                && parse_err_matches(zip_first_entry_of(views_of(archives@)[i]), e) && (forall|
                j: int,
            | 0 <= j < i ==> day_collects(#[trigger] views_of(archives@)[j])),
        r matches Err(e) ==> (e is Extraction || e is Data),
{
    let mut points = Points::new();
    let n = archives.len();
    let mut i: usize = 0;
    while i < n
        invariant
            i <= n,
            n == archives@.len(),
            views_of_points(points@) =~= days_point_views(views_of(archives@).take(i as int)),
            forall|j: int| 0 <= j < i ==> day_collects(#[trigger] views_of(archives@)[j]),
        decreases n - i,
    {
        let day = match process_day(&archives[i]) {
            Ok(rows) => rows,
            Err(e) => {
                proof {
                    let archs = views_of(archives@);
                    assert(archs[i as int] == archives@[i as int]@);
                    assert(!day_collects(archs[i as int]));
                    assert(forall|j: int| 0 <= j < i ==> day_collects(#[trigger] archs[j]));
                }
                return Err(e);
            },
        };
        let day_points = points_of_rows(&day);
        proof {
            let archs = views_of(archives@);
            assert(archs.take(i + 1).drop_last() =~= archs.take(i as int));
            assert(archs.take(i + 1).last() == archs[i as int]);
            assert(views_of_points(day_points@) =~= day_rows(
                zip_first_entry_of(archs[i as int]),
            ).map_values(|row: DailyRow| spec_point_of_row(row)));
        }
        points.merge_with(day_points);
        proof {
            assert(views_of_points(points@) =~= days_point_views(
                views_of(archives@).take(i + 1),
            ));
        }
        i += 1;
    }
    proof {
        assert(views_of(archives@).take(n as int) =~= views_of(archives@));
    }
    Ok(points)
}

} // verus!
