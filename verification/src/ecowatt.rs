//! The signal-API source: a bearer-authenticated JSON endpoint serving one
//! aggregate value per day plus sub-daily values.
//!
//! The transport and JSON decoding live outside; this module holds the
//! request-target selection and the conversion of decoded signals into
//! points.

use crate::point::{PointView, Points, Value, ValueView};
use crate::raw::{
    has_text, opt_text_of, opt_truth_of, text_of, truth_optional, read_text, read_truth_opt,
    RawTable, RawValueView,
};
use crate::source::GlobalConfig;
use vstd::prelude::*;

verus! {

pub open spec fn main_url() -> Seq<char> {
    "https://digital.iservices.rte-france.com/open_api/ecowatt/v4/signals"@
}

pub open spec fn sandbox_url() -> Seq<char> {
    "https://digital.iservices.rte-france.com/open_api/ecowatt/v4/sandbox/signals"@
}

/// The constructed signal-API source: dates to cover, the bearer token, and
/// the selected endpoint.
#[derive(Debug)]
pub struct EcoWatt {
    pub global: GlobalConfig,
    pub token: String,
    pub url: String,
}

/// The source's configuration: a required `token` string and an optional
/// `sandbox` toggle, which only selects between the two fixed endpoints.
pub open spec fn ecowatt_config_ok(m: Map<Seq<char>, RawValueView>) -> bool {
    has_text(m, "token"@) && truth_optional(m, "sandbox"@)
}

pub open spec fn ecowatt_matches(
    m: Map<Seq<char>, RawValueView>,
    g: GlobalConfig,
    s: EcoWatt,
) -> bool {
    &&& s.global == g
    &&& s.token@ == text_of(m, "token"@)
    &&& s.url@ == if opt_truth_of(m, "sandbox"@) == Some(true) {
        sandbox_url()
    } else {
        main_url()
    }
}

/// Construct the source from its raw configuration; the error names the
/// offending key.
pub fn build_ecowatt(table: &RawTable, global: GlobalConfig) -> (r: Result<EcoWatt, String>)
    ensures
        r is Ok <==> ecowatt_config_ok(table@),
        r matches Ok(s) ==> ecowatt_matches(table@, global, s),
        r matches Err(k) ==> k@ == if !has_text(table@, "token"@) {
            "token"@
        } else {
            "sandbox"@
        },
{
    let token = match read_text(table, "token") {
        Some(t) => t,
        None => {
            return Err("token".to_owned());
        },
    };
    let sandbox = match read_truth_opt(table, "sandbox") {
        Ok(o) => o,
        Err(()) => {
            return Err("sandbox".to_owned());
        },
    };
    let url = match sandbox {
        Some(true) => "https://digital.iservices.rte-france.com/open_api/ecowatt/v4/sandbox/signals".to_owned(),
        _ => "https://digital.iservices.rte-france.com/open_api/ecowatt/v4/signals".to_owned(),
    };
    Ok(EcoWatt { global, token, url })
}

/// One sub-daily value: an hour offset from the day's instant, and the
/// signal value for that hour.
#[derive(Debug, PartialEq, Eq, Structural, Clone, Copy)]
pub struct HourValue {
    pub hour: u32,
    pub value: u32,
}

/// One decoded signal: the day's instant (Unix seconds), its aggregate
/// value, and the sub-daily values.
#[derive(Debug)]
pub struct Signal {
    pub day: i64,
    pub day_value: u32,
    pub values: Vec<HourValue>,
}

/// The signal-API source failed.
#[derive(Debug, PartialEq, Eq)]
pub enum Error {
    /// The endpoint returned no signal at all.
    NoSignal,
}

pub open spec fn ecowatt_day_view(sig: Signal) -> PointView {
    PointView {
        name: "ecowatt_signal"@,
        tags: Map::empty(),
        fields: Map::<Seq<char>, ValueView>::empty().insert(
            "value"@,
            ValueView::Integer(sig.day_value as int),
        ),
        timestamp: Some(sig.day as int),
    }
}

pub open spec fn ecowatt_hour_view(sig: Signal, j: int) -> PointView {
    PointView {
        name: "ecowatt_signal"@,
        tags: Map::empty(),
        fields: Map::<Seq<char>, ValueView>::empty().insert(
            "value"@,
            ValueView::Integer(sig.values@[j].value as int),
        ),
        timestamp: Some(sig.day + 3600 * (sig.values@[j].hour as int)),
    }
}

/// The hour offset stays within the timestamp's range.
pub open spec fn hour_ts_ok(day: i64, hour: u32) -> bool {
    day + 3600 * (hour as int) <= i64::MAX
}

/// Convert the decoded response into points: one for the first signal's
/// daily aggregate, then one per sub-daily value; an empty response is the
/// no-signal error.
pub fn ecowatt_points(signals: &Vec<Signal>) -> (r: Result<Points, Error>)
    requires
        signals@.len() > 0 ==> forall|j: int|
            0 <= j < signals@[0].values@.len() ==> hour_ts_ok(
                signals@[0].day,
                (#[trigger] signals@[0].values@[j]).hour,
            ),
    ensures
        (signals@.len() == 0) <==> (r matches Err(Error::NoSignal)),
        r matches Ok(points) ==> {
            &&& points@.len() == 1 + signals@[0].values@.len()
            &&& points@[0]@ == ecowatt_day_view(signals@[0])
            &&& forall|j: int|
                0 <= j < signals@[0].values@.len() ==> (#[trigger] points@[j + 1])@
                    == ecowatt_hour_view(signals@[0], j)
        },
{
    if signals.len() == 0 {
        return Err(Error::NoSignal);
    }
    let first = &signals[0];
    let mut points = Points::new();
    points.add(
        crate::point::Point::builder("ecowatt_signal".to_owned()).field(
            "value",
            Value::Integer(first.day_value as i64),
        ).timestamp(first.day).build(),
    );
    let n = first.values.len();
    let mut i: usize = 0;
    while i < n
        invariant
            i <= n,
            n == first.values@.len(),
            *first == signals@[0],
            signals@.len() > 0,
            forall|j: int|
                0 <= j < n ==> hour_ts_ok(signals@[0].day, (#[trigger] signals@[0].values@[j]).hour),
            points@.len() == 1 + i,
            points@[0]@ == ecowatt_day_view(signals@[0]),
            forall|j: int|
                0 <= j < i ==> (#[trigger] points@[j + 1])@ == ecowatt_hour_view(signals@[0], j),
        decreases n - i,
    {
        let hv = first.values[i];
        let ts = first.day + 3600 * (hv.hour as i64);
        points.add(
            crate::point::Point::builder("ecowatt_signal".to_owned()).field(
                "value",
                Value::Integer(hv.value as i64),
            ).timestamp(ts).build(),
        );
        i += 1;
    }
    Ok(points)
}

} // verus!
