use indigauge::api_types::StartSessionResponse;
use indigauge::config::{IndigaugeConfig, IndigaugeMode};
use indigauge::events::{EventLevel, QueuedEvent};
use indigauge::feedback::{FeedbackCategory, FeedbackError, FeedbackPanelProps};
use indigauge::pipeline::{IndigaugePipeline, OutboundRequest};
use indigauge::queue::EnqueueOutcome;
use indigauge::session::{IndigaugeInitDoneEvent, SessionStartReply, SessionState, StartSessionEvent};
use indigauge::sysinfo::HostInfo;

fn test_config(batch_size: usize, max_queue: usize) -> IndigaugeConfig {
    IndigaugeConfig {
        api_base: "https://ingest.example".to_string(),
        game_name: "demo".to_string(),
        public_key: "pk".to_string(),
        game_version: "1.0.0".to_string(),
        batch_size,
        flush_interval_ms: 10_000,
        max_queue,
        request_timeout_ms: 10_000,
    }
}

fn no_host() -> HostInfo {
    HostInfo { os: None, core_count: None, memory_gb: None, cpu_name: None, gpu: None }
}

fn record(event_type: &str, key: &str) -> QueuedEvent {
    QueuedEvent {
        level: EventLevel::Info,
        event_type: event_type.to_string(),
        metadata: None,
        elapsed_ms: None,
        idempotency_key: Some(key.to_string()),
        context: None,
    }
}

/// A pipeline whose session became Active at t=1000ms.
fn active_pipeline(batch_size: usize) -> IndigaugePipeline {
    let mut p = IndigaugePipeline::init(test_config(batch_size, 100), IndigaugeMode::Dev, 1_000);
    let (delivery, notice) = p.start_session(&StartSessionEvent::new(), "player-1".to_string(), &no_host());
    assert!(delivery.is_some() && notice.is_none());
    let n = p.session.on_start_reply(
        SessionStartReply::Accepted(StartSessionResponse { session_token: "tok-1".to_string() }),
        1_000,
    );
    assert!(matches!(n, IndigaugeInitDoneEvent::Success));
    p
}

fn batch_keys(request: &OutboundRequest) -> Vec<String> {
    match request {
        OutboundRequest::EventBatch(b) => {
            b.events.iter().map(|e| e.idempotency_key.clone().unwrap()).collect()
        },
        _ => panic!("expected an event batch"),
    }
}

#[test]
fn enqueue_without_active_session_never_reaches_buffer() {
    let mut p = IndigaugePipeline::init(test_config(64, 100), IndigaugeMode::Dev, 1_000);
    assert_eq!(p.enqueue(record("ui.click", "k1")), EnqueueOutcome::Queued);
    assert_eq!(p.buffer.len(), 0);
    // A tick with no Active session drains nothing into the buffer.
    assert!(p.tick(2_000).is_none());
    assert_eq!(p.buffer.len(), 0);
    // Not even while Starting.
    let _ = p.start_session(&StartSessionEvent::new(), "player-1".to_string(), &no_host());
    assert!(p.tick(3_000).is_none());
    assert_eq!(p.buffer.len(), 0);
}

#[test]
fn flush_drains_oldest_batch_in_order_and_keeps_the_rest() {
    let mut p = active_pipeline(3);
    for key in ["k1", "k2", "k3", "k4", "k5"] {
        assert_eq!(p.enqueue(record("ev.tick", key)), EnqueueOutcome::Queued);
    }
    p.drain_queue(2_000);
    assert_eq!(p.buffer.len(), 5);
    let (delivery, count) = p.flush_events(2_000);
    assert_eq!(count, 3);
    let d = delivery.unwrap();
    assert_eq!(batch_keys(&d.request), vec!["k1", "k2", "k3"]);
    assert_eq!(d.url, "https://ingest.example/v1/events/batch");
    assert_eq!(d.auth_key, "tok-1");
    let rest: Vec<String> =
        p.buffer.iter().map(|e| e.idempotency_key.clone().unwrap()).collect();
    assert_eq!(rest, vec!["k4", "k5"]);
}

#[test]
fn flushing_empty_buffer_sends_one_heartbeat_and_counts_zero() {
    let mut p = active_pipeline(64);
    assert_eq!(p.buffer.len(), 0);
    let (delivery, count) = p.flush_events(2_000);
    assert_eq!(count, 0);
    let d = delivery.unwrap();
    assert!(matches!(d.request, OutboundRequest::Heartbeat));
    assert_eq!(d.url, "https://ingest.example/v1/sessions/heartbeat");
    assert_eq!(d.auth_key, "tok-1");
    assert_eq!(p.buffer.len(), 0);
}

#[test]
fn exit_sends_end_then_final_flush_in_order() {
    let mut p = active_pipeline(64);
    assert_eq!(p.enqueue(record("ev.one", "k1")), EnqueueOutcome::Queued);
    assert_eq!(p.enqueue(record("ev.two", "k2")), EnqueueOutcome::Queued);
    p.drain_queue(2_000);
    assert_eq!(p.buffer.len(), 2);
    let deliveries = p.on_exit(3_000);
    assert_eq!(deliveries.len(), 2);
    match &deliveries[0].request {
        OutboundRequest::EndSession(reason) => assert_eq!(reason, "ended"),
        _ => panic!("first delivery must end the session"),
    }
    assert_eq!(deliveries[0].url, "https://ingest.example/v1/sessions/end");
    assert_eq!(batch_keys(&deliveries[1].request), vec!["k1", "k2"]);
    assert_eq!(p.session.current_state(), SessionState::Ended);
    assert!(p.session.session_key().is_none());
    assert_eq!(p.buffer.len(), 0);
}

#[test]
fn exit_with_empty_buffer_sends_only_the_end_request() {
    let mut p = active_pipeline(64);
    let deliveries = p.on_exit(3_000);
    assert_eq!(deliveries.len(), 1);
    assert!(matches!(deliveries[0].request, OutboundRequest::EndSession(_)));
    assert_eq!(p.session.current_state(), SessionState::Ended);
}

#[test]
fn exit_without_session_does_nothing() {
    let mut p = IndigaugePipeline::init(test_config(64, 100), IndigaugeMode::Dev, 1_000);
    assert!(p.on_exit(3_000).is_empty());
    assert_eq!(p.session.current_state(), SessionState::Uninitialized);
}

#[test]
fn tick_flushes_on_size_threshold() {
    let mut p = active_pipeline(2);
    assert_eq!(p.enqueue(record("ev.hit", "k1")), EnqueueOutcome::Queued);
    assert_eq!(p.enqueue(record("ev.hit", "k2")), EnqueueOutcome::Queued);
    assert_eq!(p.enqueue(record("ev.hit", "k3")), EnqueueOutcome::Queued);
    // Interval (10s since t=1000) has not elapsed at t=2000, but the batch is full.
    let d = p.tick(2_000).unwrap();
    assert_eq!(batch_keys(&d.request), vec!["k1", "k2"]);
    assert_eq!(p.buffer.len(), 1);
}

#[test]
fn tick_below_threshold_within_interval_sends_nothing() {
    let mut p = active_pipeline(64);
    assert_eq!(p.enqueue(record("ev.hit", "k1")), EnqueueOutcome::Queued);
    assert!(p.tick(2_000).is_none());
    assert_eq!(p.buffer.len(), 1);
}

#[test]
fn tick_flushes_on_interval_even_below_batch_size() {
    let mut p = active_pipeline(64);
    assert_eq!(p.enqueue(record("ev.hit", "k1")), EnqueueOutcome::Queued);
    // 10s after the pipeline last sent anything, one buffered event goes out.
    let d = p.tick(11_000).unwrap();
    assert_eq!(batch_keys(&d.request), vec!["k1"]);
    // The interval timer reset: shortly after, nothing is due.
    assert!(p.tick(11_500).is_none());
}

#[test]
fn idle_interval_tick_heartbeats() {
    let mut p = active_pipeline(64);
    let d = p.tick(11_000).unwrap();
    assert!(matches!(d.request, OutboundRequest::Heartbeat));
}

#[test]
fn invalid_event_type_is_rejected_at_enqueue() {
    let mut p = active_pipeline(64);
    assert_eq!(p.enqueue(record("not-valid", "k1")), EnqueueOutcome::RejectedInvalidType);
    assert_eq!(p.enqueue(record("a.b.c", "k2")), EnqueueOutcome::RejectedInvalidType);
    p.drain_queue(2_000);
    assert_eq!(p.buffer.len(), 0);
}

#[test]
fn full_queue_drops_instead_of_blocking() {
    let mut p = IndigaugePipeline::init(test_config(64, 2), IndigaugeMode::Dev, 1_000);
    assert_eq!(p.enqueue(record("ev.hit", "k1")), EnqueueOutcome::Queued);
    assert_eq!(p.enqueue(record("ev.hit", "k2")), EnqueueOutcome::Queued);
    assert_eq!(p.enqueue(record("ev.hit", "k3")), EnqueueOutcome::DroppedFull);
}

#[test]
fn empty_public_key_disables_the_pipeline() {
    let mut config = test_config(64, 100);
    config.public_key = String::new();
    let mut p = IndigaugePipeline::init(config, IndigaugeMode::Live, 1_000);
    assert_eq!(p.mode, IndigaugeMode::Disabled);
    assert_eq!(p.enqueue(record("ui.click", "k1")), EnqueueOutcome::Disabled);
    let (delivery, notice) = p.start_session(&StartSessionEvent::new(), "p".to_string(), &no_host());
    assert!(delivery.is_none());
    assert!(matches!(notice, Some(IndigaugeInitDoneEvent::UnexpectedFailure(_))));
}

#[test]
fn second_start_trigger_through_pipeline_is_skipped() {
    let mut p = active_pipeline(64);
    let (delivery, notice) = p.start_session(&StartSessionEvent::new(), "p".to_string(), &no_host());
    assert!(delivery.is_none());
    match notice {
        Some(IndigaugeInitDoneEvent::Skipped(m)) => assert_eq!(m, "Session already started"),
        _ => panic!("expected Skipped"),
    }
}

#[test]
fn start_payload_is_bucketed_not_raw() {
    let mut p = IndigaugePipeline::init(test_config(64, 100), IndigaugeMode::Live, 1_000);
    let host = HostInfo {
        os: Some("linux".to_string()),
        core_count: Some(12),
        memory_gb: Some(31),
        cpu_name: Some("Intel(R) Core(TM) i7".to_string()),
        gpu: None,
    };
    let event = StartSessionEvent::new()
        .with_locale("en-US".to_string())
        .with_platform("steam".to_string());
    let (delivery, _) = p.start_session(&event, "player-9".to_string(), &host);
    let d = delivery.unwrap();
    assert_eq!(d.url, "https://ingest.example/v1/sessions/start");
    assert_eq!(d.auth_key, "pk");
    assert!(d.live);
    match d.request {
        OutboundRequest::StartSession(payload) => {
            assert_eq!(payload.client_version, "1.0.0");
            assert_eq!(payload.player_id.as_deref(), Some("player-9"));
            assert_eq!(payload.cores.as_deref(), Some("9-16"));
            assert_eq!(payload.memory.as_deref(), Some("17-32"));
            assert_eq!(payload.cpu_family.as_deref(), Some("Intel"));
            assert_eq!(payload.os.as_deref(), Some("linux"));
            assert_eq!(payload.locale.as_deref(), Some("en-US"));
            assert_eq!(payload.platform.as_deref(), Some("steam"));
        },
        _ => panic!("expected a start-session request"),
    }
}

#[test]
fn short_feedback_is_rejected_and_keeps_the_prompt() {
    let mut p = active_pipeline(64);
    p.request_feedback(FeedbackPanelProps::visible());
    let r = p.submit_feedback("a", FeedbackCategory::General, None, 2_000);
    assert!(matches!(r, Err(FeedbackError::TooShort)));
    assert!(p.prompt.is_some());
}

#[test]
fn accepted_feedback_reaches_transport_and_clears_the_prompt() {
    let mut p = active_pipeline(64);
    p.request_feedback(FeedbackPanelProps::visible());
    let d = p.submit_feedback("ab", FeedbackCategory::General, None, 3_500).unwrap();
    assert_eq!(d.url, "https://ingest.example/v1/feedback");
    assert_eq!(d.auth_key, "tok-1");
    match d.request {
        OutboundRequest::Feedback(payload) => {
            assert_eq!(payload.message, "ab");
            assert_eq!(payload.category, "general");
            assert_eq!(payload.elapsed_ms, 2_500);
        },
        _ => panic!("expected a feedback request"),
    }
    assert!(p.prompt.is_none());
}

#[test]
fn feedback_without_session_is_refused() {
    let mut p = IndigaugePipeline::init(test_config(64, 100), IndigaugeMode::Dev, 1_000);
    let r = p.submit_feedback("long enough", FeedbackCategory::General, None, 2_000);
    assert!(matches!(r, Err(FeedbackError::NoActiveSession)));
}

#[test]
fn screenshot_upload_is_addressed_to_the_feedback_entry() {
    let mut p = active_pipeline(64);
    let d = p.send_feedback_screenshot("fb-7".to_string(), vec![1, 2, 3], 2_000).unwrap();
    assert_eq!(d.url, "https://ingest.example/v1/feedback/fb-7/screenshot");
    match d.request {
        OutboundRequest::FeedbackScreenshot { feedback_id, image } => {
            assert_eq!(feedback_id, "fb-7");
            assert_eq!(image, vec![1, 2, 3]);
        },
        _ => panic!("expected a screenshot upload"),
    }
}

#[test]
fn call_site_record_carries_its_origin() {
    let mut p = active_pipeline(64);
    let rec = QueuedEvent::from_origin(
        EventLevel::Debug,
        "ui.hover".to_string(),
        None,
        "src/menu.rs".to_string(),
        42,
        Some("game::menu".to_string()),
    );
    assert_eq!(p.enqueue(rec), EnqueueOutcome::Queued);
    p.drain_queue(2_000);
    let ctx = p.buffer[0].context.as_ref().unwrap();
    assert_eq!(ctx.file, "src/menu.rs");
    assert_eq!(ctx.line, 42);
    assert_eq!(ctx.module.as_deref(), Some("game::menu"));
}

#[test]
fn metadata_rides_through_untouched() {
    let mut p = active_pipeline(64);
    let meta: serde_json::Value = serde_json::from_str("{\"button\":\"play\"}").unwrap();
    let rec = QueuedEvent {
        level: EventLevel::Warn,
        event_type: "ui.click".to_string(),
        metadata: Some(meta.clone()),
        elapsed_ms: Some(77),
        idempotency_key: None,
        context: None,
    };
    assert_eq!(p.enqueue(rec), EnqueueOutcome::Queued);
    p.drain_queue(2_000);
    assert_eq!(p.buffer.len(), 1);
    assert_eq!(p.buffer[0].metadata.as_ref(), Some(&meta));
    assert_eq!(p.buffer[0].elapsed_ms, 77);
    assert_eq!(p.buffer[0].level, EventLevel::Warn);
}

#[test]
fn drained_events_default_to_the_session_clock() {
    let mut p = active_pipeline(64);
    assert_eq!(p.enqueue(record("ev.hit", "k1")), EnqueueOutcome::Queued);
    // Session became Active at t=1000; draining at t=5000 stamps 4000ms.
    p.drain_queue(5_000);
    assert_eq!(p.buffer[0].elapsed_ms, 4_000);
}

#[test]
fn dev_mode_deliveries_are_not_live() {
    let mut p = active_pipeline(64);
    let (delivery, _) = p.flush_events(2_000);
    assert!(!delivery.unwrap().live);
}
