use chrono::{DateTime, FixedOffset, Local, Offset, TimeZone};
use json_encoder::encoder::{
    level_str, JsonEncoder, JsonEncoderConfig, JsonEncoderDeserializer, Level,
};
use json_encoder::time::Timestamp;

fn stamp<Tz: TimeZone>(t: &DateTime<Tz>) -> Timestamp {
    Timestamp::new(
        t.timestamp(),
        t.timestamp_subsec_nanos(),
        t.offset().fix().local_minus_utc(),
    )
    .unwrap()
}

fn fixed_time() -> Timestamp {
    let t = DateTime::parse_from_rfc3339("2016-03-20T14:22:20.644420340-08:00").unwrap();
    stamp(&t)
}

fn pairs(entries: &[(&str, &str)]) -> Vec<(String, String)> {
    entries
        .iter()
        .map(|(k, v)| (k.to_string(), v.to_string()))
        .collect()
}

fn encode_simple(message: &str, thread: Option<&str>, mdc: &[(&str, &str)]) -> String {
    JsonEncoder::new()
        .encode_with_mdc(
            fixed_time(),
            Level::Info,
            "t",
            "m",
            "f",
            7,
            message,
            thread,
            &pairs(mdc),
        )
        .unwrap()
}

#[test]
fn default() {
    let time = DateTime::parse_from_rfc3339("2016-03-20T14:22:20.644420340-08:00")
        .unwrap()
        .with_timezone(&Local);
    let level = Level::Debug;
    let target = "target";
    let module = "module\x5fpath";
    let file = "file";
    let line = 100;
    let message = "message";
    let thread = "default";
    log_mdc::insert("foo", "bar");

    let encoder = JsonEncoder::new();

    let buf = encoder
        .encode_inner(
            stamp(&time),
            level,
            target,
            module,
            file,
            line,
            message,
            Some(thread),
        )
        .unwrap();

    let expected = format!(
        "{{\"time\":\"{}\",\"message\":\"{}\",\"module\x5fpath\":\"{}\",\
         \"file\":\"{}\",\"line\":{},\"level\":\"{}\",\"target\":\"{}\",\
         \"thread\":\"{}\",\"mdc\":{{\"foo\":\"bar\"}}}}\n",
        time.to_rfc3339(),
        message,
        module,
        file,
        line,
        level_str(level),
        target,
        thread
    );
    assert_eq!(expected, buf);
}

const LITERAL_LINE: &str = "{\"time\":\"2016-03-20T14:22:20.644420340-08:00\",\"message\":\"message\",\"module\x5fpath\":\"module\x5fpath\",\"file\":\"file\",\"line\":100,\"level\":\"DEBUG\",\"target\":\"target\",\"thread\":\"worker-1\",\"mdc\":{\"foo\":\"bar\"}}\n";

#[test]
fn literal_scenario() {
    let out = JsonEncoder::new()
        .encode_with_mdc(
            fixed_time(),
            Level::Debug,
            "target",
            "module\x5fpath",
            "file",
            100,
            "message",
            Some("worker-1"),
            &pairs(&[("foo", "bar")]),
        )
        .unwrap();
    assert_eq!(out, LITERAL_LINE);
}

#[test]
fn literal_scenario_from_thread_context() {
    log_mdc::clear();
    log_mdc::insert("foo", "bar");
    let out = JsonEncoder::new()
        .encode_inner(
            fixed_time(),
            Level::Debug,
            "target",
            "module\x5fpath",
            "file",
            100,
            "message",
            Some("worker-1"),
        )
        .unwrap();
    assert_eq!(out, LITERAL_LINE);
}

#[test]
fn field_order_and_types() {
    let out = encode_simple("hello", Some("main"), &[]);
    assert_eq!(
        out,
        "{\"time\":\"2016-03-20T14:22:20.644420340-08:00\",\"message\":\"hello\",\"module\x5fpath\":\"m\",\"file\":\"f\",\"line\":7,\"level\":\"INFO\",\"target\":\"t\",\"thread\":\"main\",\"mdc\":{}}\n"
    );
    let keys = [
        "\"time\":",
        "\"message\":",
        "\"module\x5fpath\":",
        "\"file\":",
        "\"line\":",
        "\"level\":",
        "\"target\":",
        "\"thread\":",
        "\"mdc\":",
    ];
    let mut at = 0;
    for k in keys.iter() {
        let found = out[at..].find(k).unwrap();
        at += found + k.len();
    }
}

#[test]
fn one_line_even_with_newlines_in_fields() {
    let out = JsonEncoder::new()
        .encode_with_mdc(
            fixed_time(),
            Level::Warn,
            "a\nb",
            "c\r\nd",
            "e",
            1,
            "first line\nsecond line\n",
            Some("x\ny"),
            &pairs(&[("k\n", "v\n")]),
        )
        .unwrap();
    assert!(out.ends_with('\n'));
    assert_eq!(out.matches('\n').count(), 1);
    assert!(out.contains("\"message\":\"first line\\nsecond line\\n\""));
    assert!(out.contains("\"mdc\":{\"k\\n\":\"v\\n\"}"));
}

#[test]
fn string_escapes() {
    let out = encode_simple("q\"b\\t\tc\u{1}d\u{8}e\u{c}f\u{1f}g\u{7f}h\u{e9}", None, &[]);
    assert!(out.contains(
        "\"message\":\"q\\\"b\\\\t\\tc\\u0001d\\be\\ff\\u001fg\u{7f}h\u{e9}\""
    ));
}

#[test]
fn unnamed_thread_is_null() {
    let out = encode_simple("m", None, &[]);
    assert!(out.contains(",\"thread\":null,"));
}

#[test]
fn context_with_two_entries() {
    let out = encode_simple("m", None, &[("foo", "bar"), ("req", "42")]);
    assert!(out.ends_with(",\"mdc\":{\"foo\":\"bar\",\"req\":\"42\"}}\n"));
}

#[test]
fn empty_context_is_empty_object() {
    let out = encode_simple("m", None, &[]);
    assert!(out.ends_with(",\"mdc\":{}}\n"));
}

#[test]
fn thread_context_with_two_entries() {
    log_mdc::clear();
    log_mdc::insert("foo", "bar");
    log_mdc::insert("req", "42");
    let out = JsonEncoder::new()
        .encode_inner(fixed_time(), Level::Trace, "t", "m", "f", 7, "m", None)
        .unwrap();
    assert!(
        out.ends_with(",\"mdc\":{\"foo\":\"bar\",\"req\":\"42\"}}\n")
            || out.ends_with(",\"mdc\":{\"req\":\"42\",\"foo\":\"bar\"}}\n")
    );
}

#[test]
fn empty_thread_context() {
    log_mdc::clear();
    let out = JsonEncoder::new()
        .encode_inner(fixed_time(), Level::Error, "t", "m", "f", 7, "m", None)
        .unwrap();
    assert!(out.ends_with(",\"mdc\":{}}\n"));
}

#[test]
fn timestamp_round_trips() {
    let cases = [
        "2016-03-20T14:22:20.644420340-08:00",
        "1970-01-01T00:00:00+00:00",
        "1969-12-31T23:59:59.000000001+05:30",
        "2262-04-11T23:47:16.854775807+14:00",
    ];
    for c in cases.iter() {
        let t = DateTime::parse_from_rfc3339(c).unwrap();
        let out = JsonEncoder::new()
            .encode_with_mdc(stamp(&t), Level::Info, "t", "m", "f", 1, "m", None, &Vec::new())
            .unwrap();
        let start = out.find("\"time\":\"").unwrap() + 8;
        let end = start + out[start..].find('"').unwrap();
        let back: DateTime<FixedOffset> = DateTime::parse_from_rfc3339(&out[start..end]).unwrap();
        assert_eq!(back, t);
        assert_eq!(back.timestamp_subsec_nanos(), t.timestamp_subsec_nanos());
        assert_eq!(back.offset(), t.offset());
    }
}

#[test]
fn time_text_has_full_precision() {
    let out = encode_simple("m", None, &[]);
    assert!(out.starts_with("{\"time\":\"2016-03-20T14:22:20.644420340-08:00\","));
}

#[test]
fn line_numbers() {
    for (n, text) in [(0u32, "0"), (9, "9"), (10, "10"), (100, "100"), (u32::MAX, "4294967295")] {
        let out = JsonEncoder::new()
            .encode_with_mdc(fixed_time(), Level::Info, "t", "m", "f", n, "m", None, &Vec::new())
            .unwrap();
        assert!(out.contains(&format!(",\"line\":{},", text)));
    }
}

#[test]
fn level_names() {
    assert_eq!(level_str(Level::Error), "ERROR");
    assert_eq!(level_str(Level::Warn), "WARN");
    assert_eq!(level_str(Level::Info), "INFO");
    assert_eq!(level_str(Level::Debug), "DEBUG");
    assert_eq!(level_str(Level::Trace), "TRACE");
}

#[test]
fn timestamp_ranges() {
    assert!(Timestamp::new(0, 0, 0).is_some());
    assert!(Timestamp::new(0, 999_999_999, 86_399).is_some());
    assert!(Timestamp::new(0, 0, -86_399).is_some());
    assert!(Timestamp::new(7_000_000_000_000, 0, 0).is_some());
    assert!(Timestamp::new(-7_000_000_000_000, 0, 0).is_some());
    assert!(Timestamp::new(0, 1_000_000_000, 0).is_none());
    assert!(Timestamp::new(0, 0, 86_400).is_none());
    assert!(Timestamp::new(0, 0, -86_400).is_none());
    assert!(Timestamp::new(7_000_000_000_001, 0, 0).is_none());
    assert!(Timestamp::new(i64::MIN, 0, 0).is_none());
}

#[test]
fn extreme_timestamps_format() {
    for secs in [7_000_000_000_000i64, -7_000_000_000_000] {
        let t = Timestamp::new(secs, 5, -3_600).unwrap();
        let out = JsonEncoder::new()
            .encode_with_mdc(t, Level::Info, "t", "m", "f", 1, "m", None, &Vec::new())
            .unwrap();
        assert!(out.starts_with("{\"time\":\""));
    }
}

#[test]
fn deserializer_builds_an_encoder() {
    let encoder = JsonEncoderDeserializer.deserialize(JsonEncoderConfig::new());
    let out = encoder
        .encode_with_mdc(fixed_time(), Level::Info, "t", "m", "f", 7, "hello", Some("main"), &Vec::new())
        .unwrap();
    assert_eq!(out, encode_simple("hello", Some("main"), &[]));
}
