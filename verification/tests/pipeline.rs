use photon::config::{build_topology, resolve_date, Error as ConfigError, RawConfig};
use photon::date::Date;
use photon::ecowatt::{ecowatt_points, Error as EcoWattError, HourValue, Signal};
use photon::point::{Point, Points, StrMap, Value};
use photon::raw::{RawTable, RawValue};
use photon::sink::{self, SinkKind, WriteFailure};
use photon::source::{self, GlobalConfig, SourceKind};
use photon::topology::assemble_batch;

fn d(y: u32, m: u8, day: u8) -> Date {
    Date::new(y, m, day).unwrap()
}

fn int_field<'a>(p: &'a Point, key: &str) -> i64 {
    match p.fields.get(key) {
        Some(Value::Integer(v)) => *v,
        other => panic!("field {} is {:?}", key, other),
    }
}

fn tag<'a>(p: &'a Point, key: &str) -> String {
    p.tags.get(key).unwrap().clone()
}

#[test]
fn tagging_stamps_every_point() {
    let mut points = Points::new();
    points.add(
        Point::builder("a".to_owned()).field("x", Value::Integer(1)).timestamp(10).build(),
    );
    points.add(Point::builder("b".to_owned()).field("y", Value::Integer(2)).build());
    points.tag_all("source", "rte");
    let inner = points.iter();
    assert_eq!(inner.len(), 2);
    assert_eq!(tag(&inner[0], "source"), "rte");
    assert_eq!(tag(&inner[1], "source"), "rte");
    assert_eq!(inner[0].name, "a");
    assert_eq!(int_field(&inner[0], "x"), 1);
    assert_eq!(inner[0].timestamp, Some(10));
    assert_eq!(inner[1].timestamp, None);
}

#[test]
fn tagging_twice_overwrites_instead_of_duplicating() {
    let mut points = Points::new();
    points.add(Point::builder("a".to_owned()).field("x", Value::Integer(1)).build());
    points.tag_all("source", "first");
    points.tag_all("source", "second");
    let inner = points.iter();
    assert_eq!(tag(&inner[0], "source"), "second");
    assert_eq!(inner[0].tags.len(), 1);
}

#[test]
fn merge_keeps_both_orders() {
    let mut a = Points::new();
    a.add(Point::builder("a1".to_owned()).build());
    a.add(Point::builder("a2".to_owned()).build());
    let mut b = Points::new();
    b.add(Point::builder("b1".to_owned()).build());
    a.merge_with(b);
    let inner = a.iter();
    assert_eq!(inner.len(), 3);
    assert_eq!(inner[0].name, "a1");
    assert_eq!(inner[1].name, "a2");
    assert_eq!(inner[2].name, "b1");
}

#[test]
fn assemble_batch_tags_and_concatenates() {
    let mut a = Points::new();
    a.add(Point::builder("p1".to_owned()).build());
    let mut b = Points::new();
    b.add(Point::builder("p2".to_owned()).build());
    b.add(Point::builder("p3".to_owned()).build());
    let batch = assemble_batch(vec![("alpha".to_owned(), a), ("beta".to_owned(), b)]);
    let inner = batch.iter();
    assert_eq!(inner.len(), 3);
    assert_eq!(tag(&inner[0], "source"), "alpha");
    assert_eq!(tag(&inner[1], "source"), "beta");
    assert_eq!(tag(&inner[2], "source"), "beta");
    assert_eq!(inner[0].name, "p1");
    assert_eq!(inner[2].name, "p3");
}

fn table(entries: Vec<(&str, RawValue)>) -> RawTable {
    let mut t = StrMap::new();
    for (k, v) in entries {
        t.insert(k.to_owned(), v);
    }
    t
}

#[test]
fn source_registry_builds_rte() {
    let global = GlobalConfig { from_date: d(2022, 5, 1), to_date: d(2022, 5, 1) };
    let t = table(vec![("download_folder", RawValue::Text("/tmp/data".to_owned()))]);
    match source::Registration::build("rte", &t, global) {
        Ok(SourceKind::Rte(r)) => {
            assert_eq!(r.download_folder.as_deref(), Some("/tmp/data"));
            assert_eq!(r.global.from_date, d(2022, 5, 1));
        }
        other => panic!("unexpected: {:?}", other),
    }
}

#[test]
fn source_registry_builds_ecowatt_sandbox() {
    let global = GlobalConfig { from_date: d(2022, 5, 1), to_date: d(2022, 5, 1) };
    let t = table(vec![
        ("token", RawValue::Text("SECRET-REDACTED".to_owned())),
        ("sandbox", RawValue::Truth(true)),
    ]);
    match source::Registration::build("rte-ecowatt", &t, global) {
        Ok(SourceKind::EcoWatt(e)) => {
            assert!(e.url.contains("/sandbox/"));
            assert_eq!(e.token, "SECRET-REDACTED");
        }
        other => panic!("unexpected: {:?}", other),
    }
    let t2 = table(vec![("token", RawValue::Text("SECRET-REDACTED".to_owned()))]);
    match source::Registration::build("rte-ecowatt", &t2, global) {
        Ok(SourceKind::EcoWatt(e)) => assert!(!e.url.contains("/sandbox/")),
        other => panic!("unexpected: {:?}", other),
    }
}

#[test]
fn source_registry_rejects_unknown_name() {
    let global = GlobalConfig { from_date: d(2022, 5, 1), to_date: d(2022, 5, 1) };
    let t = table(vec![]);
    match source::Registration::build("weather", &t, global) {
        Err(source::Error::Unknown(n)) => assert_eq!(n, "weather"),
        other => panic!("unexpected: {:?}", other),
    }
}

#[test]
fn source_registry_rejects_bad_fragment() {
    let global = GlobalConfig { from_date: d(2022, 5, 1), to_date: d(2022, 5, 1) };
    let t = table(vec![("token", RawValue::Number(5))]);
    match source::Registration::build("rte-ecowatt", &t, global) {
        Err(source::Error::Toml(k)) => assert_eq!(k, "token"),
        other => panic!("unexpected: {:?}", other),
    }
}

#[test]
fn sink_registry_builds_both_kinds() {
    let t = table(vec![("codec", RawValue::Text("json".to_owned()))]);
    assert!(matches!(
        sink::Registration::build("console", &t),
        Ok(SinkKind::Console(_))
    ));
    let t = table(vec![
        ("host", RawValue::Text("http://influx.example:8086".to_owned())),
        ("token", RawValue::Text("SECRET-REDACTED".to_owned())),
        ("org", RawValue::Text("home".to_owned())),
        ("bucket", RawValue::Text("energy".to_owned())),
    ]);
    match sink::Registration::build("influxdb", &t) {
        Ok(SinkKind::InfluxDb(s)) => {
            assert_eq!(s.host, "http://influx.example:8086");
            assert_eq!(s.org, "home");
        }
        other => panic!("unexpected: {:?}", other),
    }
}

#[test]
fn sink_registry_rejects_invalid_host() {
    let t = table(vec![
        ("host", RawValue::Text("not a url".to_owned())),
        ("token", RawValue::Text("SECRET-REDACTED".to_owned())),
        ("org", RawValue::Text("home".to_owned())),
        ("bucket", RawValue::Text("energy".to_owned())),
    ]);
    match sink::Registration::build("influxdb", &t) {
        Err(sink::Error::Config(n, h)) => {
            assert_eq!(n, "influxdb");
            assert_eq!(h, "not a url");
        }
        other => panic!("unexpected: {:?}", other),
    }
}

#[test]
fn resolve_date_sentinels_and_literals() {
    let today = d(2022, 5, 2);
    let yesterday = d(2022, 5, 1);
    assert_eq!(resolve_date("today", today, yesterday), Some(today));
    assert_eq!(resolve_date("TODAY", today, yesterday), Some(today));
    assert_eq!(resolve_date("Yesterday", today, yesterday), Some(yesterday));
    assert_eq!(resolve_date("2022-05-01", today, yesterday), Some(d(2022, 5, 1)));
    assert_eq!(resolve_date("2022-13-01", today, yesterday), None);
    assert_eq!(resolve_date("01/05/2022", today, yesterday), None);
    assert_eq!(resolve_date("tomorrow", today, yesterday), None);
}

#[test]
fn unregistered_sink_fails_the_run_before_any_source_work() {
    let config = RawConfig {
        from_date: "2022-05-01".to_owned(),
        to_date: "2022-05-01".to_owned(),
        sources: vec![("rte".to_owned(), table(vec![]))],
        sinks: vec![(
            "elastic".to_owned(),
            table(vec![("codec", RawValue::Text("json".to_owned()))]),
        )],
    };
    match build_topology(&config, d(2022, 5, 2), d(2022, 5, 1)) {
        Err(ConfigError::Sink(sink::Error::Unknown(ty), name)) => {
            assert_eq!(ty, "elastic");
            assert_eq!(name, "elastic");
        }
        other => panic!("unexpected: {:?}", other),
    }
}

#[test]
fn topology_build_keeps_declaration_order() {
    let config = RawConfig {
        from_date: "yesterday".to_owned(),
        to_date: "today".to_owned(),
        sources: vec![
            ("rte".to_owned(), table(vec![])),
            (
                "rte-ecowatt".to_owned(),
                table(vec![("token", RawValue::Text("SECRET-REDACTED".to_owned()))]),
            ),
        ],
        sinks: vec![(
            "console".to_owned(),
            table(vec![("codec", RawValue::Text("json".to_owned()))]),
        )],
    };
    let t = build_topology(&config, d(2022, 5, 2), d(2022, 5, 1)).unwrap();
    assert_eq!(t.data_sources.len(), 2);
    assert_eq!(t.data_sources[0].name, "rte");
    assert_eq!(t.data_sources[1].name, "rte-ecowatt");
    assert!(matches!(t.data_sources[0].component, SourceKind::Rte(_)));
    assert!(matches!(t.data_sources[1].component, SourceKind::EcoWatt(_)));
    assert_eq!(t.sinks.len(), 1);
    assert_eq!(t.sinks[0].name, "console");
    match &t.data_sources[0].component {
        SourceKind::Rte(r) => {
            assert_eq!(r.global.from_date, d(2022, 5, 1));
            assert_eq!(r.global.to_date, d(2022, 5, 2));
        }
        _ => unreachable!(),
    }
}

#[test]
fn bad_date_field_is_reported_by_name() {
    let config = RawConfig {
        from_date: "someday".to_owned(),
        to_date: "today".to_owned(),
        sources: vec![],
        sinks: vec![],
    };
    match build_topology(&config, d(2022, 5, 2), d(2022, 5, 1)) {
        Err(ConfigError::DateFormat(n)) => assert_eq!(n, "from_date"),
        other => panic!("unexpected: {:?}", other),
    }
}

#[test]
fn http_write_failure_carries_status_and_body() {
    match photon::sink::write_outcome(500, "server error".to_owned()) {
        Err(WriteFailure { status, body }) => {
            assert_eq!(status, 500);
            assert_eq!(body, "server error");
        }
        Ok(()) => panic!("a 500 must not count as delivered"),
    }
    assert!(photon::sink::write_outcome(204, String::new()).is_ok());
    assert!(photon::sink::write_outcome(200, String::new()).is_ok());
    assert!(photon::sink::write_outcome(302, String::new()).is_err());
}

#[test]
fn ecowatt_points_shape() {
    let signals = vec![Signal {
        day: 1651363200,
        day_value: 1,
        values: vec![
            HourValue { hour: 0, value: 1 },
            HourValue { hour: 2, value: 3 },
        ],
    }];
    let points = ecowatt_points(&signals).unwrap();
    let inner = points.iter();
    assert_eq!(inner.len(), 3);
    assert_eq!(inner[0].name, "ecowatt_signal");
    assert_eq!(int_field(&inner[0], "value"), 1);
    assert_eq!(inner[0].timestamp, Some(1651363200));
    assert_eq!(inner[1].timestamp, Some(1651363200));
    assert_eq!(inner[2].timestamp, Some(1651363200 + 2 * 3600));
    assert_eq!(int_field(&inner[2], "value"), 3);
}

#[test]
fn ecowatt_empty_response_is_no_signal() {
    assert!(matches!(ecowatt_points(&vec![]), Err(EcoWattError::NoSignal)));
}

#[test]
fn numeric_widths_convert_to_integer_values() {
    assert!(matches!(Value::from(5i64), Value::Integer(5)));
    assert!(matches!(Value::from(-3i8), Value::Integer(-3)));
    assert!(matches!(Value::from(-300i16), Value::Integer(-300)));
    assert!(matches!(Value::from(70000i32), Value::Integer(70000)));
    assert!(matches!(Value::from(200u8), Value::Integer(200)));
    assert!(matches!(Value::from(60000u16), Value::Integer(60000)));
    assert!(matches!(Value::from(7u32), Value::Integer(7)));
    assert!(matches!(Value::from(9u64), Value::Integer(9)));
    assert!(matches!(Value::from(u64::MAX), Value::Integer(-1)));
}
