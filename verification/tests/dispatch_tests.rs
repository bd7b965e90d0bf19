use moe_logger::dispatch::{console_line, emit, max_target_width, padded_target, WriteConfig};
use moe_logger::record::{Level, LogRecord};
use moe_logger::LogConfig;

fn record(level: Level, target: &str, message: &str) -> LogRecord {
    LogRecord {
        level,
        target: String::from(target),
        message: String::from(message),
        timestamp_millis: 7,
        source_file: None,
    }
}

#[test]
fn max_target_width_is_monotone() {
    let mut width: usize = 0;
    width = max_target_width(width, "app");
    assert_eq!(width, 3);
    width = max_target_width(width, "app::server::db");
    assert_eq!(width, 15);
    // a narrower target never shrinks the column
    width = max_target_width(width, "app");
    assert_eq!(width, 15);
}

#[test]
fn padded_target_fills_to_width() {
    assert_eq!(padded_target("db", 5), "db   ");
    assert_eq!(padded_target("db", 2), "db");
    // a name already wider than the column is kept as it is
    assert_eq!(padded_target("db::pool", 5), "db::pool");
}

#[test]
fn console_line_shape() {
    let rec = record(Level::Info, "target", "hello");
    assert_eq!(console_line(&rec, 6), "INFO  target > hello\n");
    // the target column pads to the widest name seen
    assert_eq!(console_line(&rec, 9), "INFO  target    > hello\n");
}

#[test]
fn write_config_keeps_a_valid_pattern() {
    let config = LogConfig::builder().output("app.log", true).finish();
    let wc = WriteConfig::from_config(&config);
    assert_eq!(wc.output, "app.log");
    assert!(wc.file);
    let out = wc.render_line(&record(Level::Warn, "db", "slow"));
    assert_eq!(out, "WARN  db > slow\n");
}

#[test]
fn write_config_falls_back_on_invalid_pattern() {
    // the builder already guards the pattern; a config written by hand with
    // an invalid one still never uses a partially parsed template
    let config = LogConfig {
        env: "RUST_LOG",
        output: "app.log",
        file: true,
        format: "{L} {broken",
        rotation: 0,
    };
    let wc = WriteConfig::from_config(&config);
    let out = wc.render_line(&record(Level::Info, "target", "hello"));
    assert_eq!(out, "INFO  target > hello\n");
}

#[test]
fn emit_always_produces_the_console_line() {
    let rec = record(Level::Info, "target", "hello");

    let file_on = WriteConfig::from_config(
        &LogConfig::builder().output("app.log", true).finish(),
    );
    let e = emit(&file_on, &rec, 6);
    assert_eq!(e.console, "INFO  target > hello\n");
    assert_eq!(e.file_line, Some(String::from("INFO  target > hello\n")));

    let console_only = WriteConfig::from_config(&LogConfig::default());
    let e = emit(&console_only, &rec, 6);
    assert_eq!(e.console, "INFO  target > hello\n");
    assert_eq!(e.file_line, None);
}

#[test]
fn render_line_uses_timestamp_and_source() {
    let config = LogConfig {
        env: "RUST_LOG",
        output: "app.log",
        file: true,
        format: "{t}|{F}|{M}",
        rotation: 0,
    };
    let wc = WriteConfig::from_config(&config);
    let rec = LogRecord {
        level: Level::Debug,
        target: String::from("t"),
        message: String::from("m"),
        timestamp_millis: 90061,
        source_file: Some(String::from("lib.rs")),
    };
    assert_eq!(wc.render_line(&rec), "90061|lib.rs|m");
}
