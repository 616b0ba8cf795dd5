use rust_lsp_extension_template_server::decimal::to_decimal;
use rust_lsp_extension_template_server::fields::{render_fields, Field, FieldRenderer};
use rust_lsp_extension_template_server::log::LspSubscriber;
use rust_lsp_extension_template_server::relay::{LogRecord, RecordQueue};
use rust_lsp_extension_template_server::severity::{is_enabled, message_kind, MessageKind, Severity};
use rust_lsp_extension_template_server::span::SpanRegistry;

fn field(name: &str, value: &str) -> Field {
    Field { name: name.to_string(), value: value.to_string() }
}

fn drain(s: &mut LspSubscriber) -> Vec<(MessageKind, String)> {
    let mut out = Vec::new();
    while let Some(r) = s.next_record() {
        out.push((r.kind, r.text));
    }
    out
}

#[test]
fn severity_mapping_is_total_and_stable() {
    for _ in 0..3 {
        assert_eq!(message_kind(Severity::Trace), None);
        assert_eq!(message_kind(Severity::Debug), Some(MessageKind::Log));
        assert_eq!(message_kind(Severity::Info), Some(MessageKind::Info));
        assert_eq!(message_kind(Severity::Warn), Some(MessageKind::Warning));
        assert_eq!(message_kind(Severity::Error), Some(MessageKind::Error));
    }
}

#[test]
fn interest_check_filters_only_trace() {
    assert!(!is_enabled(Severity::Trace));
    assert!(is_enabled(Severity::Debug));
    assert!(is_enabled(Severity::Info));
    assert!(is_enabled(Severity::Warn));
    assert!(is_enabled(Severity::Error));
    let s = LspSubscriber::new();
    assert!(!s.enabled(Severity::Trace));
    assert!(s.enabled(Severity::Debug));
}

#[test]
fn trace_events_are_never_delivered() {
    let mut s = LspSubscriber::new();
    for i in 0..20 {
        let v = vec![field("message", "noise"), field("i", &i.to_string())];
        s.event(Severity::Trace, &v);
    }
    assert!(drain(&mut s).is_empty());
}

#[test]
fn trace_dropped_between_delivered_events() {
    let mut s = LspSubscriber::new();
    s.event(Severity::Warn, &vec![field("message", "a")]);
    s.event(Severity::Trace, &vec![field("message", "b")]);
    s.event(Severity::Error, &vec![field("message", "c")]);
    assert_eq!(
        drain(&mut s),
        vec![(MessageKind::Warning, "a".to_string()), (MessageKind::Error, "c".to_string())]
    );
}

#[test]
fn span_ids_start_at_one_and_increase() {
    let mut s = LspSubscriber::new();
    let mut last = 0u64;
    for expected in 1..=100u64 {
        let id = s.new_span();
        assert_eq!(id, expected);
        assert!(id > last);
        last = id;
    }
    assert_eq!(s.span_count(), 100);
    assert!(drain(&mut s).is_empty());
}

#[test]
fn registry_counts_issued_ids() {
    let mut r = SpanRegistry::new();
    assert_eq!(r.issued_count(), 0);
    assert_eq!(r.allocate(), 1);
    assert_eq!(r.allocate(), 2);
    assert_eq!(r.issued_count(), 2);
}

#[test]
fn message_field_first_renders_unprefixed() {
    let v = vec![field("message", "hello"), field("x", "5")];
    assert_eq!(render_fields(&v), "hello,x=5");
}

#[test]
fn message_field_is_not_moved_to_front() {
    let v = vec![field("x", "5"), field("message", "hello")];
    assert_eq!(render_fields(&v), "x=5,hello");
}

#[test]
fn rendering_is_deterministic() {
    let v = vec![field("a", "1"), field("message", "m"), field("a", "1")];
    assert_eq!(render_fields(&v), render_fields(&v));
    assert_eq!(render_fields(&v), "a=1,m,a=1");
}

#[test]
fn renderer_builds_incrementally() {
    let mut r = FieldRenderer::new();
    assert_eq!(r.as_str(), "");
    r.record_field("k", "\"v\"");
    assert_eq!(r.as_str(), "k=\"v\"");
    r.record_field("message", "done");
    assert_eq!(r.into_message(), "k=\"v\",done");
}

#[test]
fn no_fields_render_empty() {
    assert_eq!(render_fields(&Vec::new()), "");
}

#[test]
fn info_event_without_fields_is_empty_message() {
    let mut s = LspSubscriber::new();
    s.event(Severity::Info, &Vec::new());
    assert_eq!(drain(&mut s), vec![(MessageKind::Info, String::new())]);
}

#[test]
fn debug_event_is_log_kind_and_unwrapped() {
    let mut s = LspSubscriber::new();
    s.event(Severity::Debug, &vec![field("message", "start"), field("n", "3")]);
    assert_eq!(drain(&mut s), vec![(MessageKind::Log, "start,n=3".to_string())]);
}

#[test]
fn records_delivered_in_submission_order() {
    let mut s = LspSubscriber::new();
    s.event(Severity::Info, &vec![field("message", "R1")]);
    s.event(Severity::Warn, &vec![field("message", "R2")]);
    s.event(Severity::Error, &vec![field("message", "R3")]);
    assert_eq!(
        drain(&mut s),
        vec![
            (MessageKind::Info, "R1".to_string()),
            (MessageKind::Warning, "R2".to_string()),
            (MessageKind::Error, "R3".to_string()),
        ]
    );
}

#[test]
fn queue_is_first_in_first_out() {
    let mut q = RecordQueue::new();
    assert!(q.is_empty());
    for t in ["R1", "R2", "R3"] {
        q.push(LogRecord { kind: MessageKind::Log, text: t.to_string() });
    }
    assert_eq!(q.len(), 3);
    assert_eq!(q.pop().unwrap().text, "R1");
    q.push(LogRecord { kind: MessageKind::Info, text: "R4".to_string() });
    assert_eq!(q.pop().unwrap().text, "R2");
    assert_eq!(q.pop().unwrap().text, "R3");
    let last = q.pop().unwrap();
    assert_eq!(last.kind, MessageKind::Info);
    assert_eq!(last.text, "R4");
    assert!(q.pop().is_none());
    assert!(q.is_empty());
}

#[test]
fn emission_never_waits_for_delivery() {
    let mut s = LspSubscriber::new();
    for _ in 0..10_000 {
        s.event(Severity::Info, &vec![field("message", "x")]);
    }
    let start = std::time::Instant::now();
    s.event(Severity::Info, &vec![field("message", "late")]);
    assert!(start.elapsed() < std::time::Duration::from_secs(1));
    assert_eq!(drain(&mut s).len(), 10_001);
}

#[test]
fn span_record_message() {
    let mut s = LspSubscriber::new();
    let id = s.new_span();
    s.record(id, &vec![field("message", "hi"), field("y", "7")]);
    assert_eq!(drain(&mut s), vec![(MessageKind::Log, "span: 1, record: hi,y=7".to_string())]);
}

#[test]
fn span_follows_message() {
    let mut s = LspSubscriber::new();
    s.record_follows_from(12, 3);
    assert_eq!(drain(&mut s), vec![(MessageKind::Log, "span: 12, follows: 3".to_string())]);
}

#[test]
fn span_enter_exit_messages() {
    let mut s = LspSubscriber::new();
    s.enter(7);
    s.exit(7);
    s.enter(1234567890);
    assert_eq!(
        drain(&mut s),
        vec![
            (MessageKind::Log, "enter:7".to_string()),
            (MessageKind::Log, "exit:7".to_string()),
            (MessageKind::Log, "enter:1234567890".to_string()),
        ]
    );
}

#[test]
fn decimal_rendering() {
    assert_eq!(to_decimal(0), "0");
    assert_eq!(to_decimal(9), "9");
    assert_eq!(to_decimal(10), "10");
    assert_eq!(to_decimal(120), "120");
    assert_eq!(to_decimal(u64::MAX), "18446744073709551615");
}
