use godot_logger::sink::route;
use godot_logger::{Builder, Channel, Level, LevelFilter, Record, Sink, Timestamp};

fn sample_time() -> Timestamp {
    Timestamp { year: 2024, month: 1, day: 2, hour: 3, minute: 4, second: 5 }
}

fn record(level: Level, origin: Option<&str>, message: &str) -> Record {
    Record { level, origin: origin.map(str::to_string), message: message.to_string() }
}

#[test]
fn errors_and_warnings_route_to_the_warning_channel() {
    assert_eq!(route(Level::Error), Channel::Warning);
    assert_eq!(route(Level::Warn), Channel::Warning);
    assert_eq!(route(Level::Info), Channel::Standard);
    assert_eq!(route(Level::Debug), Channel::Standard);
    assert_eq!(route(Level::Trace), Channel::Standard);
}

#[test]
fn debug_record_with_origin_formats_exactly() {
    let sink = Builder::default().build();
    let rec = record(Level::Debug, Some("app.physics"), "tick");
    let (channel, text) = sink.receive_at(&rec, &sample_time());
    assert_eq!(text, "2024-01-02 03:04:05 DEBUG app.physics tick");
    assert_eq!(channel, Channel::Standard);
}

#[test]
fn error_record_without_origin_formats_exactly() {
    let sink = Builder::default().build();
    let rec = record(Level::Error, None, "boom");
    let (channel, text) = sink.receive_at(&rec, &sample_time());
    assert_eq!(text, "2024-01-02 03:04:05 ERROR boom");
    assert_eq!(channel, Channel::Warning);
}

#[test]
fn warn_record_routes_to_the_warning_channel() {
    let sink = Builder::default().build();
    let rec = record(Level::Warn, Some("app"), "low fuel");
    let (channel, text) = sink.receive_at(&rec, &sample_time());
    assert_eq!(text, "2024-01-02 03:04:05 WARN app low fuel");
    assert_eq!(channel, Channel::Warning);
}

#[test]
fn timestamp_fields_are_zero_padded() {
    let sink = Builder::default().build();
    let t = Timestamp { year: 987, month: 11, day: 30, hour: 23, minute: 59, second: 7 };
    let (_, text) = sink.receive_at(&record(Level::Info, None, "x"), &t);
    assert_eq!(text, "0987-11-30 23:59:07 INFO x");
}

#[test]
fn longest_matching_prefix_wins() {
    let sink = Builder::default()
        .add_filter("app", LevelFilter::Debug)
        .add_filter("app.physics", LevelFilter::Trace)
        .build();
    assert!(matches!(sink.effective_threshold("app.physics.collision"), LevelFilter::Trace));
    assert!(matches!(sink.effective_threshold("app.render"), LevelFilter::Debug));
}

#[test]
fn equally_long_prefixes_resolve_to_the_most_recent() {
    let sink = Builder::default()
        .add_filter("app", LevelFilter::Debug)
        .add_filter("app", LevelFilter::Info)
        .build();
    assert!(matches!(sink.effective_threshold("app.render"), LevelFilter::Info));
}

#[test]
fn unmatched_origin_falls_back_to_the_default_level() {
    let sink = Builder::default()
        .default_log_level(Level::Info)
        .add_filter("app", LevelFilter::Trace)
        .build();
    assert!(matches!(sink.effective_threshold("net.socket"), LevelFilter::Info));
}

#[test]
fn gate_judges_records_against_the_effective_threshold() {
    let sink = Builder::default()
        .add_filter("app.physics", LevelFilter::Debug)
        .add_filter("noisy", LevelFilter::Off)
        .build();
    assert!(sink.passes(Some("app.physics"), Level::Debug));
    assert!(!sink.passes(Some("app.render"), Level::Debug));
    assert!(sink.passes(Some("app.render"), Level::Warn));
    assert!(!sink.passes(Some("noisy.module"), Level::Error));
    assert!(sink.passes(None, Level::Error));
    assert!(!sink.passes(None, Level::Info));
}

#[test]
fn receive_uses_the_wall_clock_and_keeps_the_record_text() {
    let sink = Builder::default().build();
    let (channel, text) = sink.receive(&record(Level::Error, Some("app"), "boom"));
    assert_eq!(channel, Channel::Warning);
    assert!(text.ends_with(" ERROR app boom"));
    // "YYYY-MM-DD HH:MM:SS" plus the severity, origin, and message.
    assert_eq!(text.len(), 19 + " ERROR app boom".len());
    assert_eq!(&text[4..5], "-");
    assert_eq!(&text[10..11], " ");
    assert_eq!(&text[13..14], ":");
}

#[test]
fn now_reports_a_calendar_time() {
    let t = Timestamp::now();
    assert!((1..=12).contains(&t.month));
    assert!((1..=31).contains(&t.day));
    assert!(t.hour <= 23);
    assert!(t.minute <= 59);
    assert!(t.second <= 59);
}

#[test]
fn flush_is_a_no_op() {
    let sink = Builder::default().build();
    sink.flush();
}
