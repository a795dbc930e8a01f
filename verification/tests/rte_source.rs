use photon::bytes::{parse_i64, parse_u64, split_bytes};
use photon::config::{build_topology, RawConfig};
use photon::date::{iter_days, Date};
use photon::point::StrMap;
use photon::source::SourceKind;
use photon::topology::Runner;
use photon::point::Value;
use photon::rte::{
    collect_archives, format_url, is_end_record, parse_payload, process_day, DailyRow, DataError,
    Error as RteError,
};

const HEADER: &str = "Périmètre\tNature\tDate\tHeures\tConsommation\tPrévision J-1\tPrévision J\tFioul\tCharbon\tGaz\tNucléaire\tEolien\tSolaire\tHydraulique\tPompage\tBioénergies\tEch. physiques\tTaux de Co2";

fn valid_row() -> String {
    [
        "France", "Données temps réel", "2022-05-01", "12:00", "60000", "59000", "59500", "145",
        "35", "4500", "38000", "9000", "5600", "7000", "-1200", "950", "1234", "45",
    ]
    .join("\t")
}

fn table_with_rows(rows: &[String]) -> Vec<u8> {
    let mut text = String::new();
    text.push_str(HEADER);
    text.push_str("\r\n");
    for r in rows {
        text.push_str(r);
        text.push_str("\r\n");
    }
    text.push_str("RTE ne pourra etre tenu responsable de l'usage de ces donnees.\r\n");
    text.into_bytes()
}

fn zip_of(payload: &[u8]) -> Vec<u8> {
    let mut cursor = std::io::Cursor::new(Vec::new());
    {
        let mut writer = zip::ZipWriter::new(&mut cursor);
        writer
            .start_file("eco2mix.xls", zip::write::FileOptions::default())
            .unwrap();
        std::io::Write::write_all(&mut writer, payload).unwrap();
        writer.finish().unwrap();
    }
    cursor.into_inner()
}

#[test]
fn split_keeps_empty_pieces() {
    let pieces = split_bytes(b"a\tb\t\tc", 9);
    let views: Vec<&[u8]> = pieces.iter().map(|p| p.as_slice()).collect();
    assert_eq!(views, vec![b"a" as &[u8], b"b", b"", b"c"]);
    let pieces = split_bytes(b"", 9);
    assert_eq!(pieces.len(), 1);
    assert!(pieces[0].is_empty());
}

#[test]
fn strict_unsigned_parse() {
    assert_eq!(parse_u64(b"0"), Some(0));
    assert_eq!(parse_u64(b"+42"), Some(42));
    assert_eq!(parse_u64(b"18446744073709551615"), Some(u64::MAX));
    assert_eq!(parse_u64(b"18446744073709551616"), None);
    assert_eq!(parse_u64(b""), None);
    assert_eq!(parse_u64(b"+"), None);
    assert_eq!(parse_u64(b"12 "), None);
    assert_eq!(parse_u64(b"-1"), None);
    assert_eq!(parse_u64(b"1e3"), None);
}

#[test]
fn strict_signed_parse() {
    assert_eq!(parse_i64(b"-1200"), Some(-1200));
    assert_eq!(parse_i64(b"+7"), Some(7));
    assert_eq!(parse_i64(b"-9223372036854775808"), Some(i64::MIN));
    assert_eq!(parse_i64(b"-9223372036854775809"), None);
    assert_eq!(parse_i64(b"9223372036854775807"), Some(i64::MAX));
    assert_eq!(parse_i64(b"9223372036854775808"), None);
    assert_eq!(parse_i64(b"-0"), Some(0));
    assert_eq!(parse_i64(b"--1"), None);
}

fn record_of(line: &str) -> Vec<Vec<u8>> {
    split_bytes(line.as_bytes(), 9)
}

#[test]
fn from_record_reads_every_column() {
    let row = DailyRow::from_record(&record_of(&valid_row())).unwrap();
    // 2022-05-01 12:00 in Paris is 10:00 UTC.
    assert_eq!(row.date, 1651399200);
    assert_eq!(row.generation_total, 60000);
    assert_eq!(row.prediction_yesterday, 59000);
    assert_eq!(row.prediction_now, 59500);
    assert_eq!(row.oil, 145);
    assert_eq!(row.coal, 35);
    assert_eq!(row.gas, 4500);
    assert_eq!(row.nuclear, 38000);
    assert_eq!(row.wind, 9000);
    assert_eq!(row.solar, 5600);
    assert_eq!(row.hydro, 7000);
    assert_eq!(row.pumped_storage, -1200);
    assert_eq!(row.bioenergy, 950);
    assert_eq!(row.co2, 45);
}

#[test]
fn from_record_rejects_foreign_scope() {
    let line = valid_row().replace("France", "Belgique");
    match DailyRow::from_record(&record_of(&line)) {
        Err(DataError::InvalidScope(raw)) => assert_eq!(raw, b"Belgique".to_vec()),
        other => panic!("unexpected: {:?}", other),
    }
}

#[test]
fn from_record_names_the_failing_column() {
    let line = valid_row().replace("38000", "ND");
    match DailyRow::from_record(&record_of(&line)) {
        Err(DataError::Parse(name, raw)) => {
            assert_eq!(name, "Nuclear");
            assert_eq!(raw, b"ND".to_vec());
        }
        other => panic!("unexpected: {:?}", other),
    }
    let short: Vec<Vec<u8>> = record_of(&valid_row()).into_iter().take(5).collect();
    match DailyRow::from_record(&short) {
        Err(DataError::MissingField(name)) => assert_eq!(name, "Prediction D-1"),
        other => panic!("unexpected: {:?}", other),
    }
}

#[test]
fn from_record_rejects_malformed_date() {
    let line = valid_row().replace("2022-05-01", "01/05/2022");
    assert!(matches!(
        DailyRow::from_record(&record_of(&line)),
        Err(DataError::Date)
    ));
    let line = valid_row().replace("12:00", "24:00");
    assert!(matches!(
        DailyRow::from_record(&record_of(&line)),
        Err(DataError::Date)
    ));
}

#[test]
fn round_trip_row_to_point_and_back() {
    let row = DailyRow::from_record(&record_of(&valid_row())).unwrap();
    let point = row.to_point();
    assert_eq!(point.name, "eco2mix");
    assert_eq!(point.timestamp, Some(1651399200));
    assert_eq!(point.tags.len(), 0);
    assert_eq!(point.fields.len(), 13);
    let read = |key: &str| match point.fields.get(key) {
        Some(Value::Integer(v)) => *v,
        other => panic!("field {} is {:?}", key, other),
    };
    assert_eq!(read("generation_total"), 60000);
    assert_eq!(read("prediction_yesterday"), 59000);
    assert_eq!(read("prediction_now"), 59500);
    assert_eq!(read("oil"), 145);
    assert_eq!(read("coal"), 35);
    assert_eq!(read("gas"), 4500);
    assert_eq!(read("nuclear"), 38000);
    assert_eq!(read("wind"), 9000);
    assert_eq!(read("solar"), 5600);
    assert_eq!(read("hydro"), 7000);
    assert_eq!(read("pumped_storage"), -1200);
    assert_eq!(read("bioenergy"), 950);
    assert_eq!(read("co2"), 45);
}

#[test]
fn trailer_and_everything_after_it_contribute_nothing() {
    let noise1 = "RTE ne pourra etre tenu responsable".to_owned();
    let noise2 = "free text that is not a record at all".to_owned();
    let noise3 = valid_row();
    let payload = table_with_rows(&[valid_row(), noise1, noise2, noise3]);
    let rows = parse_payload(&payload).unwrap();
    assert_eq!(rows.len(), 1);
    assert_eq!(rows[0].generation_total, 60000);
}

#[test]
fn sentinel_prefix_detection() {
    assert!(is_end_record(&record_of("RTE ne pourra etre tenu responsable")));
    assert!(is_end_record(&record_of("RTE ne pourra")));
    assert!(!is_end_record(&record_of("RTE ne pourr")));
    assert!(!is_end_record(&record_of("France\t1\t2")));
}

#[test]
fn one_foreign_scope_row_fails_the_whole_day() {
    let bad = valid_row().replace("France", "Belgique");
    let payload = table_with_rows(&[valid_row(), bad, valid_row()]);
    match parse_payload(&payload) {
        Err(DataError::InvalidScope(raw)) => assert_eq!(raw, b"Belgique".to_vec()),
        other => panic!("unexpected: {:?}", other),
    }
}

#[test]
fn blank_lines_are_not_records() {
    let mut text = String::new();
    text.push_str(HEADER);
    text.push_str("\n\n");
    text.push_str(&valid_row());
    text.push_str("\n\nRTE ne pourra etre tenu responsable\n");
    let rows = parse_payload(&text.into_bytes()).unwrap();
    assert_eq!(rows.len(), 1);
}

#[test]
fn empty_payload_parses_to_no_rows() {
    assert_eq!(parse_payload(&Vec::new()).unwrap().len(), 0);
}

#[test]
fn day_archive_unpacks_and_parses() {
    let archive = zip_of(&table_with_rows(&[valid_row()]));
    let rows = process_day(&archive).unwrap();
    assert_eq!(rows.len(), 1);
    assert_eq!(rows[0].date, 1651399200);
}

#[test]
fn malformed_archive_is_an_extraction_failure() {
    let archive = b"this is not a zip file".to_vec();
    assert!(matches!(process_day(&archive), Err(RteError::Extraction)));
}

#[test]
fn whole_range_collection_concatenates_days() {
    let day1 = zip_of(&table_with_rows(&[valid_row()]));
    let other = valid_row().replace("12:00", "12:15");
    let day2 = zip_of(&table_with_rows(&[valid_row(), other]));
    let points = collect_archives(&vec![day1, day2]).unwrap();
    let inner = points.iter();
    assert_eq!(inner.len(), 3);
    assert_eq!(inner[0].timestamp, Some(1651399200));
    assert_eq!(inner[2].timestamp, Some(1651399200 + 15 * 60));
}

#[test]
fn collection_aborts_on_first_bad_day() {
    let good = zip_of(&table_with_rows(&[valid_row()]));
    let bad = zip_of(&table_with_rows(&[valid_row().replace("France", "Prance")]));
    match collect_archives(&vec![good, bad]) {
        Err(RteError::Data(DataError::InvalidScope(raw))) => {
            assert_eq!(raw, b"Prance".to_vec())
        }
        other => panic!("unexpected: {:?}", other),
    }
}

#[test]
fn download_url_carries_the_day() {
    let date = Date::new(2022, 5, 1).unwrap();
    assert_eq!(
        format_url(date),
        "https://eco2mix.rte-france.com/curves/eco2mixDl?date=01/05/2022"
    );
}

#[test]
fn winter_time_offset_differs() {
    // 2022-01-15 12:00 in Paris is 11:00 UTC.
    let line = valid_row().replace("2022-05-01", "2022-01-15");
    let row = DailyRow::from_record(&record_of(&line)).unwrap();
    assert_eq!(row.date, 1642244400);
}

#[test]
fn single_day_single_source_yields_one_tagged_point() {
    let config = RawConfig {
        from_date: "2022-05-01".to_owned(),
        to_date: "2022-05-01".to_owned(),
        sources: vec![("rte".to_owned(), StrMap::new())],
        sinks: vec![{
            let mut t = StrMap::new();
            t.insert("codec".to_owned(), photon::raw::RawValue::Text("json".to_owned()));
            ("console".to_owned(), t)
        }],
    };
    let today = Date::new(2022, 5, 2).unwrap();
    let yesterday = Date::new(2022, 5, 1).unwrap();
    let topology = build_topology(&config, today, yesterday).unwrap();
    assert_eq!(topology.data_sources.len(), 1);
    assert_eq!(topology.sinks.len(), 1);

    let mut runner = Runner::new(topology.data_sources.len(), topology.sinks.len());
    for source in &topology.data_sources {
        assert!(runner.is_collecting());
        let global = match &source.component {
            SourceKind::Rte(r) => r.global,
            _ => panic!("expected the archive source"),
        };
        let days = iter_days(global.from_date, global.to_date);
        assert_eq!(days.len(), 1);
        let archives: Vec<Vec<u8>> = days
            .iter()
            .map(|_| zip_of(&table_with_rows(&[valid_row()])))
            .collect();
        let points = collect_archives(&archives).unwrap();
        runner.source_collected(&source.name, points);
    }
    assert!(runner.is_delivering());
    let batch = runner.batch();
    let inner = batch.iter();
    assert_eq!(inner.len(), 1);
    assert_eq!(inner[0].tags.get("source").unwrap(), "rte");
    assert_eq!(inner[0].name, "eco2mix");
    match inner[0].fields.get("nuclear").unwrap() {
        Value::Integer(v) => assert_eq!(*v, 38000),
        other => panic!("unexpected field value: {:?}", other),
    }
    runner.sink_delivered();
    assert!(runner.is_done());
}

#[test]
fn stored_entries_unpack_too() {
    let mut cursor = std::io::Cursor::new(Vec::new());
    {
        let mut writer = zip::ZipWriter::new(&mut cursor);
        let options = zip::write::FileOptions::default()
            .compression_method(zip::CompressionMethod::Stored);
        writer.start_file("eco2mix.xls", options).unwrap();
        std::io::Write::write_all(&mut writer, &table_with_rows(&[valid_row()])).unwrap();
        writer.finish().unwrap();
    }
    let rows = process_day(&cursor.into_inner()).unwrap();
    assert_eq!(rows.len(), 1);
}
