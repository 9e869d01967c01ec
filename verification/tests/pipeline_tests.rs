use logview::pattern::compile;
use logview::pipeline::{envelope_step, record_step, EnvStep, Mode, Pump, RecStep};
use logview::record::{DecodeError, LogRecord, RecordParts};
use logview::render::render_line;
use serde_json::Value;

/// The structural decode a host performs on the outer envelope.
fn host_parse_envelope(line: &str) -> Result<String, String> {
    match serde_json::from_str::<Value>(line) {
        Ok(v) => match v.get("message").and_then(|m| m.as_str()) {
            Some(m) => Ok(m.to_string()),
            None => Err(String::from("missing field `message`")),
        },
        Err(e) => Err(e.to_string()),
    }
}

/// The structural decode a host performs on record text.
fn host_parse_record(text: &str) -> Option<RecordParts> {
    let v: Value = serde_json::from_str(text).ok()?;
    let obj = v.as_object()?;
    let mut mdc: Vec<(String, String)> = Vec::new();
    for (k, val) in obj.get("mdc")?.as_object()? {
        mdc.push((k.clone(), val.as_str()?.to_string()));
    }
    Some(RecordParts {
        time: obj.get("time")?.as_str()?.to_string(),
        message: obj.get("message")?.as_str()?.to_string(),
        module: obj.get("module_path").and_then(|x| x.as_str()).map(String::from),
        file: obj.get("file").and_then(|x| x.as_str()).map(String::from),
        line: obj.get("line").and_then(|x| x.as_u64()).map(|x| x as u32),
        level: obj.get("level")?.as_str()?.to_string(),
        target: obj.get("target")?.as_str()?.to_string(),
        thread: obj.get("thread").and_then(|x| x.as_str()).map(String::from),
        mdc,
    })
}

#[test]
fn enveloped_end_to_end_renders_inner_record() {
    let line = "{\"message\":\"{\\\"time\\\":\\\"2024-01-01T00:00:00Z\\\",\\\"message\\\":\\\"boot\\\",\\\"level\\\":\\\"INFO\\\",\\\"target\\\":\\\"svc\\\",\\\"mdc\\\":{}}\"}";
    let pat = compile("{l} {t} - {m}{n}").unwrap();
    let inner = match envelope_step(line, host_parse_envelope(line)) {
        EnvStep::Inner(t) => t,
        _ => panic!("envelope should decode"),
    };
    let rec = match record_step(&inner, host_parse_record(&inner)) {
        RecStep::Render(r) => r,
        _ => panic!("inner record should decode"),
    };
    let out = render_line(&pat, &rec, false);
    assert_eq!(out, "INFO  svc - boot\n");
}

#[test]
fn raw_mode_record_renders_directly() {
    let line = "{\"time\":\"2024-01-01T00:00:00Z\",\"message\":\"boot\",\"level\":\"WARN\",\"target\":\"svc\",\"mdc\":{\"tenant\":\"acme\"}}";
    let pat = compile("{l} {X(tenant)} {m}{n}").unwrap();
    let rec = match record_step(line, host_parse_record(line)) {
        RecStep::Render(r) => r,
        _ => panic!("record should decode"),
    };
    assert_eq!(render_line(&pat, &rec, false), "WARN  acme boot\n");
}

#[test]
fn malformed_line_reports_one_parse_failure() {
    let line = "this is not json";
    match envelope_step(line, host_parse_envelope(line)) {
        EnvStep::Report(msg) => {
            assert!(msg.starts_with("Parse failure: "));
            assert!(msg.ends_with(" in this is not json"));
        },
        _ => panic!("a malformed non-blank line must be reported"),
    }
}

#[test]
fn parse_failure_text_embeds_error_and_line() {
    match envelope_step("bad line", Err(String::from("expected value"))) {
        EnvStep::Report(msg) => {
            assert_eq!(msg, "Parse failure: expected value in bad line");
        },
        _ => panic!("a malformed non-blank line must be reported"),
    }
}

#[test]
fn blank_line_is_ignored_on_both_stages() {
    match envelope_step("", host_parse_envelope("")) {
        EnvStep::Ignore => {},
        _ => panic!("a blank line must be skipped silently"),
    }
    match envelope_step("   \t", Err(String::from("whatever"))) {
        EnvStep::Ignore => {},
        _ => panic!("a whitespace-only line must be skipped silently"),
    }
    match record_step("  ", None) {
        RecStep::Ignore => {},
        _ => panic!("blank record text must be skipped silently"),
    }
}

#[test]
fn plain_inner_text_passes_through_verbatim() {
    let line = "{\"message\":\"hello world\"}";
    let inner = match envelope_step(line, host_parse_envelope(line)) {
        EnvStep::Inner(t) => t,
        _ => panic!("envelope should decode"),
    };
    assert_eq!(inner, "hello world");
    match record_step(&inner, host_parse_record(&inner)) {
        RecStep::Passthrough(t) => assert_eq!(t, "hello world"),
        _ => panic!("plain text must pass through"),
    }
}

#[test]
fn unknown_level_is_a_decode_failure_not_a_default() {
    let line = "{\"time\":\"2024-01-01T00:00:00Z\",\"message\":\"x\",\"level\":\"NOTICE\",\"target\":\"svc\",\"mdc\":{}}";
    match record_step(line, host_parse_record(line)) {
        RecStep::Passthrough(t) => assert_eq!(t, line),
        _ => panic!("an unrecognized level must fall back, never default"),
    }
}

#[test]
fn bad_timestamp_is_a_decode_failure() {
    let mut parts = RecordParts {
        time: String::from("not-a-time"),
        message: String::from("x"),
        module: None,
        file: None,
        line: None,
        level: String::from("INFO"),
        target: String::from("svc"),
        thread: None,
        mdc: Vec::new(),
    };
    match LogRecord::from_parts(parts) {
        Err(e) => assert_eq!(e, DecodeError::BadTimestamp),
        Ok(_) => panic!("an unparsable timestamp must be refused"),
    }
    parts = RecordParts {
        time: String::from("2024-01-01T00:00:00Z"),
        message: String::from("x"),
        module: None,
        file: None,
        line: None,
        level: String::from("LOUD"),
        target: String::from("svc"),
        thread: None,
        mdc: Vec::new(),
    };
    match LogRecord::from_parts(parts) {
        Err(e) => assert_eq!(e, DecodeError::BadLevel),
        Ok(_) => panic!("an unrecognized level must be refused"),
    }
}

#[test]
fn pump_ends_cleanly_on_eof() {
    let mut pump = Pump::new(Mode::Enveloped);
    assert_eq!(pump.mode, Mode::Enveloped);
    assert!(!pump.finished());
    pump.on_eof();
    assert!(pump.finished());
}
