use greentic_telemetry::headers::HeaderMap;
use greentic_telemetry::propagation::{extract_context, header_name_for, inject_context, Carrier};
use greentic_telemetry::store::{init, CloudCtx, ContextStore, InitOutcome, TelemetryInit};
use opentelemetry::propagation::{Extractor, Injector, TextMapPropagator};
use opentelemetry::trace::{Span, TraceContextExt, Tracer, TracerProvider};
use opentelemetry::Context;
use opentelemetry_sdk::propagation::TraceContextPropagator;
use opentelemetry_sdk::trace::SdkTracerProvider;

fn settings(keys: &[&str]) -> TelemetryInit {
    TelemetryInit {
        service_name: "svc".into(),
        service_version: "1.0.0".into(),
        deployment_env: "test".into(),
        context_keys: keys.iter().map(|k| k.to_string()).collect(),
    }
}

#[test]
fn store_keys_are_sorted_and_unique() {
    let store = ContextStore::new(&["session", "tenant", "alpha"]);
    let keys: Vec<String> = store.context_snapshot().into_iter().map(|(k, _)| k).collect();
    assert_eq!(keys, vec!["alpha", "flow", "run_id", "session", "team", "tenant"]);
    assert!(store.context_snapshot().iter().all(|(_, v)| v.is_none()));
}

#[test]
fn unknown_keys_are_dropped() {
    let mut store = ContextStore::new(&[]);
    store.set_context_value("tenant", Some("acme"));
    store.set_context_value("colour", Some("red"));
    assert_eq!(store.value_of("tenant").as_deref(), Some("acme"));
    assert_eq!(store.value_of("colour"), None);
    assert_eq!(store.context_snapshot().len(), 4);
    store.set_context_value("tenant", None);
    assert_eq!(store.value_of("tenant"), None);
}

#[test]
fn set_context_overwrites_all_four() {
    let mut store = ContextStore::new(&[]);
    store.set_context(CloudCtx {
        tenant: Some("t"),
        team: Some("x"),
        flow: None,
        run_id: Some("r"),
    });
    store.set_context(CloudCtx {
        tenant: Some("t2"),
        team: None,
        flow: Some("f"),
        run_id: None,
    });
    assert_eq!(
        store.context_snapshot(),
        vec![
            ("flow".to_string(), Some("f".to_string())),
            ("run_id".to_string(), None),
            ("team".to_string(), None),
            ("tenant".to_string(), Some("t2".to_string())),
        ]
    );
}

#[test]
fn second_init_keeps_first_state() {
    let mut slot = None;
    assert_eq!(init(&mut slot, settings(&["session"])), InitOutcome::Installed);
    slot.as_mut().unwrap().store.set_context_value("session", Some("s1"));
    let before = slot.as_ref().unwrap().store.context_snapshot();
    assert_eq!(init(&mut slot, settings(&["session"])), InitOutcome::AlreadyInstalled);
    assert_eq!(slot.as_ref().unwrap().store.context_snapshot(), before);
    assert_eq!(init(&mut slot, settings(&["other"])), InitOutcome::KeptEarlier);
    assert_eq!(slot.as_ref().unwrap().store.context_snapshot(), before);
    assert_eq!(slot.as_ref().unwrap().settings, settings(&["session"]));
}

#[test]
fn header_names_for_context_keys() {
    assert_eq!(header_name_for("tenant"), Some("x-tenant"));
    assert_eq!(header_name_for("team"), Some("x-team"));
    assert_eq!(header_name_for("flow"), Some("x-flow"));
    assert_eq!(header_name_for("run_id"), Some("x-run-id"));
    assert_eq!(header_name_for("session"), None);
}

struct HeaderInjector<'a>(&'a mut HeaderMap);

impl Injector for HeaderInjector<'_> {
    fn set(&mut self, key: &str, value: String) {
        self.0.insert(key.to_string(), value);
    }
}

struct HeaderExtractor<'a>(&'a HeaderMap);

impl Extractor for HeaderExtractor<'_> {
    fn get(&self, key: &str) -> Option<&str> {
        self.0.get(key).map(|v| v.as_str())
    }

    fn keys(&self) -> Vec<&str> {
        self.0.entries().iter().map(|(k, _)| k.as_str()).collect()
    }
}

#[test]
fn round_trip_trace_and_context() {
    let mut store = ContextStore::new(&[]);
    store.set_context(CloudCtx {
        tenant: Some("tenant-123"),
        team: Some("team-xyz"),
        flow: Some("flow-abc"),
        run_id: Some("run-0001"),
    });

    let provider = SdkTracerProvider::builder().build();
    let tracer = provider.tracer("manual-test");
    let parent = tracer.start("parent");
    assert!(parent.span_context().is_valid(), "parent span context invalid");
    let parent_trace_id = parent.span_context().trace_id();
    let parent_cx = Context::current_with_span(parent);
    let propagator = TraceContextPropagator::new();

    let mut carrier = HeaderMap::new();
    propagator.inject_context(&parent_cx, &mut HeaderInjector(&mut carrier));
    inject_context(&store, &mut carrier);

    assert!(carrier.get("traceparent").is_some());
    assert_eq!(Carrier::get(&carrier, "x-tenant"), Some("tenant-123".to_string()));

    // Clear local context before extraction to ensure values come from headers.
    store.set_context(CloudCtx::empty());
    assert_eq!(store.value_of("tenant"), None);

    let extracted_cx = propagator.extract(&HeaderExtractor(&carrier));
    let child = tracer.start_with_context("child", &extracted_cx);
    assert_eq!(child.span_context().trace_id(), parent_trace_id);
    extract_context(&mut store, &carrier);

    assert_eq!(store.value_of("tenant"), Some("tenant-123".to_string()));
    assert_eq!(store.value_of("team"), Some("team-xyz".to_string()));
    assert_eq!(store.value_of("flow"), Some("flow-abc".to_string()));
    assert_eq!(store.value_of("run_id"), Some("run-0001".to_string()));
}

#[test]
fn round_trip_keeps_keys_without_header() {
    let mut store = ContextStore::new(&["session"]);
    store.set_context(CloudCtx {
        tenant: Some("t"),
        team: Some("x"),
        flow: Some("f"),
        run_id: Some("r"),
    });
    store.set_context_value("session", Some("s1"));
    let before = store.context_snapshot();
    let mut carrier = HeaderMap::new();
    inject_context(&store, &mut carrier);
    assert_eq!(carrier.len(), 4);
    store.set_context(CloudCtx::empty());
    extract_context(&mut store, &carrier);
    assert_eq!(store.context_snapshot(), before);
}

#[test]
fn inject_skips_empty_and_unmapped_values() {
    let mut store = ContextStore::new(&["session"]);
    store.set_context_value("session", Some("s"));
    store.set_context_value("team", Some(""));
    store.set_context_value("flow", Some("f"));
    let mut carrier = HeaderMap::new();
    inject_context(&store, &mut carrier);
    assert_eq!(carrier.entries().clone(), vec![("x-flow".to_string(), "f".to_string())]);
}

#[test]
fn extract_tolerates_missing_headers() {
    let mut store = ContextStore::new(&[]);
    store.set_context_value("team", Some("old"));
    let mut carrier = HeaderMap::new();
    carrier.insert("x-tenant".into(), "t".into());
    extract_context(&mut store, &carrier);
    assert_eq!(store.value_of("tenant").as_deref(), Some("t"));
    assert_eq!(store.value_of("team"), None);
}
