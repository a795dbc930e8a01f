//! The sink registry and the delivery contract: a console renderer and an
//! HTTP time-series writer.
//!
//! The transports (printing, the write request) live outside; this module
//! holds configuration interpretation, request-target validation and the
//! success/failure decision on a write response.

use crate::raw::{has_text, text_of, RawTable, RawValueView};
use crate::text::str_eq;
use vstd::prelude::*;

verus! {

/// Failure to turn a configuration fragment into a sink.
#[derive(Debug, PartialEq, Eq)]
pub enum Error {
    /// No sink type of this name is registered.
    Unknown(String),
    /// The fragment did not fit the type's schema; carries the offending
    /// key.
    Toml(String),
    /// The type-specific build step failed; carries the component name and
    /// the rejected host address.
    Config(String, String),
}

/// A sink that renders the batch as a human-readable dump.
#[derive(Debug)]
pub struct Console {}

/// A sink that writes the batch to a time-series database over HTTP,
/// bearer-authenticated, into an organization's bucket.
#[derive(Debug)]
pub struct InfluxDb {
    pub host: String,
    pub token: String,
    pub org: String,
    pub bucket: String,
}

/// A constructed sink, one variant per registered type.
#[derive(Debug)]
pub enum SinkKind {
    Console(Console),
    InfluxDb(InfluxDb),
}

/// Which builder a registration dispatches to.
#[derive(Debug, Clone, Copy, PartialEq, Eq, Structural)]
pub enum SinkTag {
    Console,
    InfluxDb,
}

/// Whether `url::Url::parse` (re-exported by the HTTP client) accepts the
/// address.
pub uninterp spec fn is_url(s: Seq<char>) -> bool;

/// Relies on `reqwest::Url::parse`, the url crate's parser: acceptance is a
/// function of the characters alone.
#[verifier::external_body]
fn url_parses(s: &str) -> (r: bool)
    ensures
        r == is_url(s@),
{
    s.parse::<reqwest::Url>().is_ok()
}

/// The console sink's configuration: a required `codec` string.
pub open spec fn console_config_ok(m: Map<Seq<char>, RawValueView>) -> bool {
    has_text(m, "codec"@)
}

/// The HTTP sink's configuration: four required strings, the host a
/// well-formed address.
pub open spec fn influx_config_shape(m: Map<Seq<char>, RawValueView>) -> bool {
    &&& has_text(m, "host"@)
    &&& has_text(m, "token"@)
    &&& has_text(m, "org"@)
    &&& has_text(m, "bucket"@)
}

pub open spec fn influx_config_ok(m: Map<Seq<char>, RawValueView>) -> bool {
    influx_config_shape(m) && is_url(text_of(m, "host"@))
}

pub open spec fn influx_matches(m: Map<Seq<char>, RawValueView>, s: InfluxDb) -> bool {
    &&& s.host@ == text_of(m, "host"@)
    &&& s.token@ == text_of(m, "token"@)
    &&& s.org@ == text_of(m, "org"@)
    &&& s.bucket@ == text_of(m, "bucket"@)
}

pub open spec fn sink_known(name: Seq<char>) -> bool {
    name == "console"@ || name == "influxdb"@
}

pub open spec fn sink_config_ok(name: Seq<char>, m: Map<Seq<char>, RawValueView>) -> bool {
    if name == "console"@ {
        console_config_ok(m)
    } else if name == "influxdb"@ {
        influx_config_ok(m)
    } else {
        false
    }
}

pub open spec fn sink_matches(
    name: Seq<char>,
    m: Map<Seq<char>, RawValueView>,
    k: SinkKind,
) -> bool {
    if name == "console"@ {
        k is Console
    } else if name == "influxdb"@ {
        k matches SinkKind::InfluxDb(s) && influx_matches(m, s)
    } else {
        false
    }
}

pub open spec fn influx_missing_key(m: Map<Seq<char>, RawValueView>) -> Seq<char> {
    if !has_text(m, "host"@) {
        "host"@
    } else if !has_text(m, "token"@) {
        "token"@
    } else if !has_text(m, "org"@) {
        "org"@
    } else {
        "bucket"@
    }
}

pub open spec fn sink_err_matches(
    name: Seq<char>,
    m: Map<Seq<char>, RawValueView>,
    e: Error,
) -> bool {
    if !sink_known(name) {
        e matches Error::Unknown(n) && n@ == name
    } else if name == "console"@ {
        e matches Error::Toml(k) && k@ == "codec"@
    } else if !influx_config_shape(m) {
        e matches Error::Toml(k) && k@ == influx_missing_key(m)
    } else {
        e matches Error::Config(n, h) && n@ == name && h@ == text_of(m, "host"@)
    }
}

/// One entry of the registry: a type name and the builder it selects.
#[derive(Debug)]
pub struct Registration {
    pub name: String,
    pub tag: SinkTag,
}

fn build_console(table: &RawTable) -> (r: Result<Console, String>)
    ensures
        r is Ok <==> console_config_ok(table@),
        r matches Err(k) ==> k@ == "codec"@,
{
    match crate::raw::read_text(table, "codec") {
        Some(_) => Ok(Console {  }),
        None => Err("codec".to_owned()),
    }
}

fn build_influx(table: &RawTable, name: &str) -> (r: Result<InfluxDb, Error>)
    ensures
        r is Ok <==> influx_config_ok(table@),
        r matches Ok(s) ==> influx_matches(table@, s),
        r matches Err(e) ==> (if !influx_config_shape(table@) {
            e matches Error::Toml(k) && k@ == influx_missing_key(table@)
        } else {
            e matches Error::Config(n, h) && n@ == name@ && h@ == text_of(table@, "host"@)
        }),
{
    let host = match crate::raw::read_text(table, "host") {
        Some(v) => v,
        None => {
            return Err(Error::Toml("host".to_owned()));
        },
    };
    let token = match crate::raw::read_text(table, "token") {
        Some(v) => v,
        None => {
            return Err(Error::Toml("token".to_owned()));
        },
    };
    let org = match crate::raw::read_text(table, "org") {
        Some(v) => v,
        None => {
            return Err(Error::Toml("org".to_owned()));
        },
    };
    let bucket = match crate::raw::read_text(table, "bucket") {
        Some(v) => v,
        None => {
            return Err(Error::Toml("bucket".to_owned()));
        },
    };
    if !url_parses(host.as_str()) {
        return Err(Error::Config(name.to_owned(), host));
    }
    Ok(InfluxDb { host, token, org, bucket })
}

impl Registration {
    pub fn new(name: String, tag: SinkTag) -> (r: Registration)
        ensures
            r.name == name,
            r.tag == tag,
    {
        Registration { name, tag }
    }

    /// The registered sink types; populated once, before any topology is
    /// built.
    pub fn registrations() -> (r: Vec<Registration>)
        ensures
            r@.len() == 2,
            r@[0].name@ == "console"@ && r@[0].tag == SinkTag::Console,
            r@[1].name@ == "influxdb"@ && r@[1].tag == SinkTag::InfluxDb,
    {
        let mut v: Vec<Registration> = Vec::new();
        v.push(Registration::new("console".to_owned(), SinkTag::Console));
        v.push(Registration::new("influxdb".to_owned(), SinkTag::InfluxDb));
        v
    }

    /// Look `name` up and build the sink its fragment describes.
    pub fn build(name: &str, value: &RawTable) -> (r: Result<SinkKind, Error>)
        ensures
            r is Ok <==> (sink_known(name@) && sink_config_ok(name@, value@)),
            r matches Ok(k) ==> sink_matches(name@, value@, k),
            r matches Err(e) ==> sink_err_matches(name@, value@, e),
    {
        proof {
            reveal_strlit("console");
            reveal_strlit("influxdb");
            assert("console"@.len() == 7);
            assert("influxdb"@.len() == 8);
            assert("console"@ != "influxdb"@) by {
                assert("console"@[0] == 'c' && "influxdb"@[0] == 'i');
            }
        }
        let regs = Self::registrations();
        let n = regs.len();
        let mut idx: usize = n;
        let mut i: usize = 0;
        while i < n
            invariant
                i <= n,
                n == regs@.len(),
                idx == n || (idx < i && regs@[idx as int].name@ == name@),
                idx == n ==> forall|j: int| 0 <= j < i ==> (#[trigger] regs@[j]).name@ != name@,
            decreases n - i,
        {
            if idx == n && str_eq(regs[i].name.as_str(), name) {
                idx = i;
            }
            i += 1;
        }
        if idx >= n {
            return Err(Error::Unknown(name.to_owned()));
        }
        let tag = regs[idx].tag;
        match tag {
            SinkTag::Console => match build_console(value) {
                Ok(s) => Ok(SinkKind::Console(s)),
                Err(k) => Err(Error::Toml(k)),
            },
            SinkTag::InfluxDb => match build_influx(value, name) {
                Ok(s) => Ok(SinkKind::InfluxDb(s)),
                Err(e) => Err(e),
            },
        }
    }
}

/// A write request the database answered outside the success range.
#[derive(Debug, PartialEq, Eq)]
pub struct WriteFailure {
    pub status: u16,
    pub body: String,
}

/// Decide a write response: any status in the 2xx range is success, any
/// other is a delivery failure carrying the status and the response body.
pub fn write_outcome(status: u16, body: String) -> (r: Result<(), WriteFailure>)
    ensures
        r is Ok <==> (200 <= status <= 299),
        r matches Err(f) ==> f.status == status && f.body@ == body@,
{
    if 200 <= status && status <= 299 {
        Ok(())
    } else {
        Err(WriteFailure { status, body })
    }
}

} // verus!
