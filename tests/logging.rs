use lighthouse_network::logging::{format_log_line, level_str, Level, LogRecord};

#[test]
fn log_line_without_fields() {
    let mut rec = LogRecord::new();
    rec.record("message".to_string(), "Listening established".to_string());
    let line = format_log_line("Oct 18 10:00:00.123", Level::Info, &rec);
    assert_eq!(line, "Oct 18 10:00:00.123 \x1b[32mINFO\x1b[0m \x1b[1mListening established\x1b[0m\n");
}

#[test]
fn log_line_with_fields() {
    let mut rec = LogRecord::new();
    rec.record("peer_id".to_string(), "16Uiu2".to_string());
    rec.record("message".to_string(), "Dialing".to_string());
    rec.record("count".to_string(), "3".to_string());
    assert_eq!(rec.message, "Dialing");
    assert_eq!(rec.fields.len(), 2);
    let line = format_log_line("T", Level::Error, &rec);
    assert_eq!(
        line,
        "T \x1b[31mERROR\x1b[0m \x1b[1mDialing\x1b[0m\t\t\x1b[1mpeer_id\x1b[0m=16Uiu2 \x1b[1mcount\x1b[0m=3\n"
    );
}

#[test]
fn level_labels() {
    assert_eq!(level_str(Level::Warn), "\x1b[33mWARN\x1b[0m");
    assert_eq!(level_str(Level::Debug), "\x1b[34mDEBUG\x1b[0m");
    assert_eq!(level_str(Level::Trace), "\x1b[35mTRACE\x1b[0m");
}
