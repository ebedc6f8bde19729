use indigauge::config::{IndigaugeConfig, IndigaugeLogLevel, LastSentRequestInstant};
use indigauge::events::{validate_event_type, EventLevel};
use indigauge::feedback::FeedbackCategory;
use indigauge::pipeline::endpoint_url;
use indigauge::sysinfo::{bucket_cores, bucket_ram_gb, coarsen_cpu_name};

#[test]
fn event_type_accepts_namespace_dot_event() {
    assert!(validate_event_type("ui.click"));
    assert!(validate_event_type("gameplay.start"));
    assert!(validate_event_type("a.b"));
    assert!(validate_event_type("Ui.Click"));
    assert!(validate_event_type("ABC.DEF"));
}

#[test]
fn event_type_rejects_missing_dot() {
    assert!(!validate_event_type("noperiod"));
    assert!(!validate_event_type(""));
    assert!(!validate_event_type("a"));
}

#[test]
fn event_type_rejects_multiple_dots() {
    assert!(!validate_event_type("two.periods.here"));
    assert!(!validate_event_type("ui..click"));
    assert!(!validate_event_type("a.b.c"));
}

#[test]
fn event_type_rejects_empty_sides() {
    assert!(!validate_event_type("ui."));
    assert!(!validate_event_type(".click"));
    assert!(!validate_event_type("."));
}

#[test]
fn event_type_rejects_non_letters() {
    assert!(!validate_event_type("ui.cl1ck"));
    assert!(!validate_event_type("ui click.x"));
    assert!(!validate_event_type("ui.click "));
    assert!(!validate_event_type("ui_x.click"));
    assert!(!validate_event_type("\u{e9}tat.change"));
}

#[test]
fn cores_buckets_exact() {
    assert_eq!(bucket_cores(1), "1-2");
    assert_eq!(bucket_cores(2), "1-2");
    assert_eq!(bucket_cores(3), "3-4");
    assert_eq!(bucket_cores(8), "5-8");
    assert_eq!(bucket_cores(9), "9-16");
    assert_eq!(bucket_cores(32), "17-32");
    assert_eq!(bucket_cores(33), "33+");
    assert_eq!(bucket_cores(256), "33+");
}

#[test]
fn memory_buckets_exact() {
    assert_eq!(bucket_ram_gb(0), "0-4");
    assert_eq!(bucket_ram_gb(4), "0-4");
    assert_eq!(bucket_ram_gb(8), "5-8");
    assert_eq!(bucket_ram_gb(16), "9-16");
    assert_eq!(bucket_ram_gb(64), "33-64");
    assert_eq!(bucket_ram_gb(65), "65+");
    assert_eq!(bucket_ram_gb(1024), "65+");
}

#[test]
fn cpu_family_recognizes_vendors() {
    assert_eq!(coarsen_cpu_name("Intel(R) Core(TM) i7-9750H"), Some("Intel".to_string()));
    assert_eq!(coarsen_cpu_name("AMD Ryzen 7 5800X"), Some("AMD".to_string()));
    assert_eq!(coarsen_cpu_name("Apple M2 Pro"), Some("Apple".to_string()));
    assert_eq!(coarsen_cpu_name("Qualcomm Snapdragon"), None);
    assert_eq!(coarsen_cpu_name(""), None);
}

#[test]
fn cpu_family_priority_is_fixed() {
    // A name mentioning several vendors reduces deterministically.
    assert_eq!(coarsen_cpu_name("AMD inside Intel box"), Some("Intel".to_string()));
}

#[test]
fn endpoint_url_joins_base_and_resource() {
    assert_eq!(endpoint_url("https://ingest.example", "events/batch"), "https://ingest.example/v1/events/batch");
    assert_eq!(endpoint_url("https://ingest.example", "sessions/heartbeat"), "https://ingest.example/v1/sessions/heartbeat");
}

#[test]
fn event_level_labels() {
    assert_eq!(EventLevel::Trace.label(), "trace");
    assert_eq!(EventLevel::Debug.label(), "debug");
    assert_eq!(EventLevel::Info.label(), "info");
    assert_eq!(EventLevel::Warn.label(), "warn");
    assert_eq!(EventLevel::Error.label(), "error");
}

#[test]
fn category_labels_and_order() {
    let all = FeedbackCategory::all();
    assert_eq!(all.len(), 12);
    assert_eq!(all[0], FeedbackCategory::General);
    assert_eq!(FeedbackCategory::Ui.label(), "UI");
    assert_eq!(FeedbackCategory::Ui.label_lower(), "ui");
    assert_eq!(FeedbackCategory::Performance.label(), "Performance");
    assert_eq!(FeedbackCategory::Performance.label_lower(), "performance");
}

#[test]
fn config_defaults() {
    let c = IndigaugeConfig::new(
        "demo".to_string(),
        "pk".to_string(),
        "1.0.0".to_string(),
        "https://ingest.example".to_string(),
    );
    assert_eq!(c.batch_size, 64);
    assert_eq!(c.flush_interval_ms, 10_000);
    assert_eq!(c.max_queue, 10_000);
    assert_eq!(c.request_timeout_ms, 10_000);
    assert_eq!(c.public_key, "pk");
}

#[test]
fn log_level_gating() {
    assert!(IndigaugeLogLevel::Debug.allows(&IndigaugeLogLevel::Info));
    assert!(IndigaugeLogLevel::Warn.allows(&IndigaugeLogLevel::Error));
    assert!(!IndigaugeLogLevel::Warn.allows(&IndigaugeLogLevel::Info));
    assert!(!IndigaugeLogLevel::Silent.allows(&IndigaugeLogLevel::Error));
}

#[test]
fn last_sent_instant_constructors() {
    assert_eq!(LastSentRequestInstant::new().at_ms, 0);
    assert_eq!(LastSentRequestInstant::at(42).at_ms, 42);
}
