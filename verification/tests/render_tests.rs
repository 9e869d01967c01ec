use logview::pattern::compile;
use logview::record::{LogRecord, RecordParts};
use logview::render::{render, render_line};
use logview::Level;

fn sample_parts() -> RecordParts {
    RecordParts {
        time: String::from("2024-06-15T12:00:00Z"),
        message: String::from("hello"),
        module: None,
        file: None,
        line: None,
        level: String::from("INFO"),
        target: String::from("svc"),
        thread: None,
        mdc: Vec::new(),
    }
}

fn sample_record() -> LogRecord {
    LogRecord::from_parts(sample_parts()).unwrap()
}

#[test]
fn message_only_pattern_reproduces_message() {
    let pat = compile("{m}{n}").unwrap();
    let out = render_line(&pat, &sample_record(), false);
    assert_eq!(out, "hello\n");
}

#[test]
fn end_to_end_default_shapes_line() {
    let pat = compile("{l} {t} - {m}{n}").unwrap();
    let out = render_line(&pat, &sample_record(), false);
    assert_eq!(out, "INFO  svc - hello\n");
}

#[test]
fn newline_comes_from_the_terminator_token() {
    let pat = compile("{m}").unwrap();
    assert_eq!(render_line(&pat, &sample_record(), false), "hello");
}

#[test]
fn truncation_cuts_to_precision() {
    let pat = compile("{t:.3}{n}").unwrap();
    let mut parts = sample_parts();
    parts.target = String::from("abcdefgh");
    let rec = LogRecord::from_parts(parts).unwrap();
    let out = render_line(&pat, &rec, false);
    assert_eq!(out, "abc\n");
}

#[test]
fn left_padding_fills_to_width() {
    let pat = compile("{t:<10}{n}").unwrap();
    let mut parts = sample_parts();
    parts.target = String::from("ab");
    let rec = LogRecord::from_parts(parts).unwrap();
    let out = render_line(&pat, &rec, false);
    assert_eq!(out, "ab        \n");
}

#[test]
fn right_padding_fills_to_width() {
    let pat = compile("{t:10}{n}").unwrap();
    let mut parts = sample_parts();
    parts.target = String::from("ab");
    let rec = LogRecord::from_parts(parts).unwrap();
    let out = render_line(&pat, &rec, false);
    assert_eq!(out, "        ab\n");
}

#[test]
fn width_and_precision_together() {
    let pat = compile("{t:<30.30}{n}").unwrap();
    let mut parts = sample_parts();
    parts.target = String::from("tenant-name");
    let rec = LogRecord::from_parts(parts).unwrap();
    let out = render_line(&pat, &rec, false);
    assert_eq!(out, format!("{:<30}\n", "tenant-name"));
}

#[test]
fn level_defaults_to_five_column() {
    let pat = compile("{l}|{n}").unwrap();
    let out = render_line(&pat, &sample_record(), false);
    assert_eq!(out, "INFO |\n");
}

#[test]
fn highlight_wraps_error_in_red_when_colored() {
    let pat = compile("{h({l})}{n}").unwrap();
    let mut parts = sample_parts();
    parts.level = String::from("ERROR");
    let rec = LogRecord::from_parts(parts).unwrap();
    assert_eq!(render_line(&pat, &rec, true), "\u{1b}[31mERROR\u{1b}[0m\n");
    assert_eq!(render_line(&pat, &rec, false), "ERROR\n");
}

#[test]
fn highlight_wraps_warn_in_yellow_and_pads() {
    let pat = compile("{h({l})}{n}").unwrap();
    let mut parts = sample_parts();
    parts.level = String::from("WARN");
    let rec = LogRecord::from_parts(parts).unwrap();
    assert_eq!(render_line(&pat, &rec, true), "\u{1b}[33mWARN \u{1b}[0m\n");
}

#[test]
fn highlight_leaves_info_unstyled() {
    let pat = compile("{h({l})}{n}").unwrap();
    let rec = sample_record();
    assert_eq!(render_line(&pat, &rec, true), "INFO \n");
}

#[test]
fn context_lookup_renders_value_and_missing_key_is_empty() {
    let pat = compile("[{X(tenant)}][{X(absent)}]{n}").unwrap();
    let mut parts = sample_parts();
    parts.mdc = vec![(String::from("tenant"), String::from("acme"))];
    let rec = LogRecord::from_parts(parts).unwrap();
    let out = render_line(&pat, &rec, false);
    assert_eq!(out, "[acme][]\n");
}

#[test]
fn later_context_entry_shadows_earlier() {
    let pat = compile("{X(k)}{n}").unwrap();
    let mut parts = sample_parts();
    parts.mdc = vec![
        (String::from("k"), String::from("first")),
        (String::from("k"), String::from("second")),
    ];
    let rec = LogRecord::from_parts(parts).unwrap();
    assert_eq!(render_line(&pat, &rec, false), "second\n");
}

#[test]
fn context_isolation_between_records() {
    let pat = compile("{X(k)}{n}").unwrap();
    let mut p1 = sample_parts();
    p1.mdc = vec![(String::from("k"), String::from("one"))];
    let mut p2 = sample_parts();
    p2.mdc = vec![(String::from("k"), String::from("two"))];
    let r1 = LogRecord::from_parts(p1).unwrap();
    let r2 = LogRecord::from_parts(p2).unwrap();
    let first = render_line(&pat, &r1, false);
    let second = render_line(&pat, &r2, false);
    assert_eq!(first, "one\n");
    assert_eq!(second, "two\n");
    assert!(!second.contains("one"));
}

#[test]
fn reserved_timestamp_key_is_populated() {
    let pat = compile("{X(__log-timestamp)}{n}").unwrap();
    let out = render_line(&pat, &sample_record(), false);
    assert!(out.len() > 1);
    assert!(out.contains("2024"));
}

#[test]
fn render_with_prebuilt_store_matches_render_line() {
    let pat = compile("{m}{n}").unwrap();
    let rec = sample_record();
    let ctx = logview::context::build_context(&rec);
    assert_eq!(render(&pat, &rec, &ctx, false), render_line(&pat, &rec, false));
}

#[test]
fn level_names_round_trip() {
    let names = ["ERROR", "WARN", "INFO", "DEBUG", "TRACE"];
    let levels = [Level::Error, Level::Warn, Level::Info, Level::Debug, Level::Trace];
    for (n, l) in names.iter().zip(levels.iter()) {
        assert_eq!(l.name(), *n);
        let chars: Vec<char> = logview::text::chars_of(n);
        assert_eq!(Level::parse(&chars), Some(*l));
    }
}

#[test]
fn level_parse_is_case_insensitive() {
    for spelling in ["info", "Info", "iNfO"] {
        let chars = logview::text::chars_of(spelling);
        assert_eq!(Level::parse(&chars), Some(Level::Info));
    }
    let bad = logview::text::chars_of("NOTICE");
    assert_eq!(Level::parse(&bad), None);
}

#[test]
fn malformed_patterns_are_refused() {
    assert!(compile("{z}").is_err());
    assert!(compile("{m").is_err());
    assert!(compile("{X(key}").is_err());
    assert!(compile("{h({m})}").is_err());
    assert!(compile("{m:.}").is_err());
    assert!(compile("{n:5}").is_err());
}

#[test]
fn well_formed_patterns_compile() {
    assert!(compile("").is_ok());
    assert!(compile("plain text no placeholders").is_ok());
    assert!(
        compile(
            "{h({l}):<5} {X(correlation-id):<12} {X(tenant):<30.30} {t:<20.20} {X(__log-timestamp)} - {m}{n}",
        ).is_ok()
    );
}
