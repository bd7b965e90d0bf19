use moe_logger::dispatch::{after_append, WriteConfig};
use moe_logger::record::{Level, LogRecord};
use moe_logger::rotation::{backup_name, is_rotation_due, maybe_rotate};
use moe_logger::{LogConfig, SharedWriteState};

fn file_config(rotation: usize) -> WriteConfig {
    let config = LogConfig::builder().output("app.log", true).rotation(rotation).finish();
    WriteConfig::from_config(&config)
}

fn record(message: &str) -> LogRecord {
    LogRecord {
        level: Level::Info,
        target: String::from("app"),
        message: String::from(message),
        timestamp_millis: 1,
        source_file: None,
    }
}

#[test]
fn backup_names_carry_the_index() {
    assert_eq!(backup_name("app.log", 0), "app.log.0");
    assert_eq!(backup_name("app.log", 1), "app.log.1");
    assert_eq!(backup_name("app.log", 12), "app.log.12");
}

#[test]
fn rotation_due_only_at_exact_threshold() {
    assert!(!is_rotation_due(3, 2));
    assert!(is_rotation_due(3, 3));
    // a count that raced past the threshold no longer triggers
    assert!(!is_rotation_due(3, 4));
    // threshold 0 disables rotation
    assert!(!is_rotation_due(0, 0));
    assert!(!is_rotation_due(0, 5));
}

#[test]
fn maybe_rotate_names_the_backup() {
    assert_eq!(maybe_rotate("app.log", 3, 3, 0), Some(String::from("app.log.0")));
    assert_eq!(maybe_rotate("app.log", 2, 3, 0), None);
    assert_eq!(maybe_rotate("app.log", 5, 0, 0), None);
}

#[test]
fn threshold_three_rotates_exactly_once() {
    let config = file_config(3);
    let mut st = SharedWriteState::new();
    let mut renames: Vec<String> = Vec::new();

    for i in 0..3u64 {
        let line = config.render_line(&record("hello"));
        assert_eq!(st.current_offset(), i * line.len() as u64);
        st.advance_offset(line.len() as u64);
        if let Some(backup) = after_append(&mut st, &config) {
            renames.push(backup);
            // the rename succeeded; consume the index used and start fresh
            st.next_rotation_index();
            st.reset_after_rotation();
        }
    }
    // exactly one rename, at the third line, and the count was reset
    assert_eq!(renames, vec![String::from("app.log.0")]);
    assert_eq!(st.line_count, 0);
    assert_eq!(st.current_offset(), 0);
    assert_eq!(st.rotation_index, 1);

    // a fourth line starts the new file at offset 0
    let line = config.render_line(&record("fourth"));
    assert_eq!(st.current_offset(), 0);
    st.advance_offset(line.len() as u64);
    assert_eq!(after_append(&mut st, &config), None);
    assert_eq!(st.line_count, 1);
}

#[test]
fn second_rotation_uses_suffix_one() {
    let config = file_config(2);
    let mut st = SharedWriteState::new();
    let mut renames: Vec<String> = Vec::new();

    for _ in 0..4 {
        let line = config.render_line(&record("x"));
        st.advance_offset(line.len() as u64);
        if let Some(backup) = after_append(&mut st, &config) {
            renames.push(backup);
            st.next_rotation_index();
            st.reset_after_rotation();
        }
    }
    assert_eq!(renames, vec![String::from("app.log.0"), String::from("app.log.1")]);
}

#[test]
fn failed_rename_keeps_counting_in_same_file() {
    let config = file_config(2);
    let mut st = SharedWriteState::new();

    st.advance_offset(10);
    assert_eq!(after_append(&mut st, &config), None);
    st.advance_offset(10);
    // rotation is due, but suppose the rename failed: nothing is consumed
    // or reset — the same backup name serves the next attempt
    assert_eq!(after_append(&mut st, &config), Some(String::from("app.log.0")));
    assert_eq!(st.line_count, 2);
    assert_eq!(st.current_offset(), 20);
    assert_eq!(st.rotation_index, 0);

    // appends keep accumulating past the nominal threshold
    st.advance_offset(10);
    assert_eq!(after_append(&mut st, &config), None);
    assert_eq!(st.line_count, 3);
    assert_eq!(st.current_offset(), 30);
    assert_eq!(st.rotation_index, 0);
}

#[test]
fn appended_bytes_total_the_reported_counts() {
    // emissions of differing lengths: the final offset equals the sum of the
    // individual write lengths, so no two appends overlapped
    let config = file_config(0);
    let mut st = SharedWriteState::new();
    let mut total: u64 = 0;
    for i in 0..100u64 {
        let line = config.render_line(&record(&format!("message number {}", i * i)));
        let written = line.len() as u64;
        assert_eq!(st.current_offset(), total);
        st.advance_offset(written);
        total += written;
        assert_eq!(after_append(&mut st, &config), None);
    }
    assert_eq!(st.current_offset(), total);
    assert_eq!(st.line_count, 100);
}
