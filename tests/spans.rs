use greentic_telemetry::context::TelemetryCtx;
use greentic_telemetry::host_bridge::{host_span_attributes, host_span_name, HostContext};
use greentic_telemetry::identity::TenantIdentity;
use greentic_telemetry::layer::{layer_with, span_fields, CtxLayer, EnterPlan};
use greentic_telemetry::metrics::metric_attributes;
use greentic_telemetry::redaction::{RedactionMode, Redactor};
use greentic_telemetry::store::{init, TelemetryInit};
use greentic_telemetry::tasklocal::{
    current_telemetry_ctx, set_current_telemetry_ctx, set_current_tenant_ctx,
    with_current_telemetry_ctx, TaskScope,
};
use greentic_telemetry::testutil::{record_closed_span, RecordedSpan};
use greentic_telemetry::wasm_guest::{fallback_line, span_start_message, Level};
use greentic_telemetry::wasm_host::{format_fields, Field, HostSpans, SpanIds};

fn build_ctx() -> TelemetryCtx {
    TelemetryCtx::default()
        .with_tenant("acme")
        .with_session("sess-123")
        .with_flow("flow-xyz")
        .with_provider("messaging.telegram")
        .with_node("qa-1")
}

/// Runs a span through creation, entry and close as a subscriber would.
fn run_span<F: Fn() -> Option<TelemetryCtx>>(
    layer: &CtxLayer<F>,
    name: &'static str,
    store: &mut Vec<RecordedSpan>,
) -> Option<Vec<(&'static str, String)>> {
    let mut attached = layer.on_new_span();
    let recorded = match layer.on_enter(attached.as_ref()) {
        EnterPlan::Skip => None,
        EnterPlan::Record { ctx, attach } => {
            let fields = ctx.to_span_kv();
            if attach {
                attached = Some(ctx);
            }
            Some(fields)
        }
    };
    record_closed_span(store, name, attached.as_ref());
    recorded
}

#[test]
fn ctx_is_recorded_on_spans() {
    let layer = CtxLayer::new(|| Some(build_ctx()));
    let mut store = Vec::new();
    let parent = run_span(&layer, "node_execute", &mut store).unwrap();
    run_span(&layer, "tool_call", &mut store).unwrap();
    assert_eq!(parent.len(), 5);
    assert!(
        store.len() >= 2,
        "expected at least 2 spans to be captured, got {}",
        store.len()
    );
    for span in &store {
        assert_eq!(span.ctx, build_ctx());
        assert_eq!(span.ctx.tenant.as_deref(), Some("acme"));
        assert_eq!(span.ctx.session.as_deref(), Some("sess-123"));
        assert_eq!(span.ctx.flow.as_deref(), Some("flow-xyz"));
        assert_eq!(span.ctx.provider.as_deref(), Some("messaging.telegram"));
        assert_eq!(span.ctx.node.as_deref(), Some("qa-1"));
    }
    assert_eq!(store[0].name, "node_execute");
    assert_eq!(store[1].name, "tool_call");
}

#[test]
fn empty_context_is_not_attached() {
    let layer = layer_with(|| Some(TelemetryCtx::default()));
    let mut store = Vec::new();
    assert!(run_span(&layer, "quiet", &mut store).is_none());
    assert!(store.is_empty());
    let absent = layer_with(|| None);
    assert!(absent.snapshot().is_none());
    assert!(matches!(absent.on_enter(None), EnterPlan::Skip));
}

#[test]
fn attached_context_is_reused_on_enter() {
    let layer = CtxLayer::new(|| Some(TelemetryCtx::default().with_tenant("live")));
    let kept = TelemetryCtx::default().with_tenant("kept");
    match layer.on_enter(Some(&kept)) {
        EnterPlan::Record { ctx, attach } => {
            assert_eq!(ctx, kept);
            assert!(!attach);
        }
        EnterPlan::Skip => panic!("expected a record plan"),
    }
}

#[test]
fn span_fields_are_redacted() {
    let ctx = TelemetryCtx::default().with_tenant("bob@corp.io").with_flow("f");
    let strict = Redactor::new(RedactionMode::Strict, Vec::new(), Vec::new());
    assert_eq!(
        span_fields(&ctx, &strict),
        vec![("gt.tenant", "[REDACTED]".to_string()), ("gt.flow", "f".to_string())]
    );
    assert_eq!(span_fields(&ctx, &Redactor::default()), ctx.to_span_kv());
}

#[test]
fn task_scopes_are_isolated() {
    let mut a = TaskScope::new();
    let mut b = TaskScope::new();
    set_current_telemetry_ctx(&mut a, TelemetryCtx::default().with_tenant("a"));
    set_current_telemetry_ctx(&mut b, TelemetryCtx::default().with_tenant("b"));
    let seen_a = with_current_telemetry_ctx(&mut a, |c| c);
    let seen_b = with_current_telemetry_ctx(&mut b, |c| c);
    assert_eq!(seen_a.unwrap().tenant.as_deref(), Some("a"));
    assert_eq!(seen_b.unwrap().tenant.as_deref(), Some("b"));
}

#[test]
fn scope_falls_back_to_tenant_and_caches() {
    let mut scope = TaskScope::new();
    assert!(current_telemetry_ctx(&mut scope).is_none());
    scope.tenant = Some(TenantIdentity {
        tenant_id: "acme".into(),
        team_id: None,
        user_id: None,
    });
    let derived = current_telemetry_ctx(&mut scope).unwrap();
    assert_eq!(derived, TelemetryCtx::default().with_tenant("acme"));
    assert_eq!(scope.telemetry, Some(derived));

    let mut other = TaskScope::new();
    set_current_tenant_ctx(
        &mut other,
        TenantIdentity {
            tenant_id: "acme".into(),
            team_id: Some("t".into()),
            user_id: None,
        },
    );
    let enriched = with_current_telemetry_ctx(&mut other, |base| {
        base.unwrap_or_default().with_session("sess-123").with_node("node-456")
    });
    set_current_telemetry_ctx(&mut other, enriched.clone());
    assert_eq!(current_telemetry_ctx(&mut other), Some(enriched));
}

#[test]
fn closed_span_without_context_is_not_recorded() {
    let mut store = Vec::new();
    record_closed_span(&mut store, "bare", None);
    assert!(store.is_empty());
}

#[test]
fn metric_attributes_carry_service_and_context() {
    let mut slot = None;
    init(
        &mut slot,
        TelemetryInit {
            service_name: "svc".into(),
            service_version: "2.1".into(),
            deployment_env: "prod".into(),
            context_keys: Vec::new(),
        },
    );
    let state = slot.as_mut().unwrap();
    state.store.set_context_value("tenant", Some("eve@corp.io"));
    let strict = Redactor::new(RedactionMode::Strict, Vec::new(), Vec::new());
    let attrs = metric_attributes(state, &strict);
    let expected: Vec<(String, String)> = vec![
        ("service.name".into(), "svc".into()),
        ("service.version".into(), "2.1".into()),
        ("deployment.environment".into(), "prod".into()),
        ("tenant".into(), "[REDACTED]".into()),
    ];
    assert_eq!(attrs, expected);
}

#[test]
fn host_span_gets_standard_labels() {
    let ctx = HostContext {
        tenant: "acme".into(),
        flow_id: "f1".into(),
        tool: Some("search".into()),
        ..HostContext::default()
    };
    let attrs = host_span_attributes(vec![("k".into(), "v".into())], &ctx);
    let expected: Vec<(String, String)> = vec![
        ("k".into(), "v".into()),
        ("tenant".into(), "acme".into()),
        ("flow_id".into(), "f1".into()),
        ("tool".into(), "search".into()),
    ];
    assert_eq!(attrs, expected);
    assert_eq!(host_span_name(""), "host-span");
    assert_eq!(host_span_name("work"), "work");
}

#[test]
fn guest_fields_are_formatted() {
    let fields = [
        Field { key: "tenant", value: "wasm-tenant" },
        Field { key: "n", value: "1" },
    ];
    assert_eq!(format_fields(&fields[..1]), "tenant=wasm-tenant");
    assert_eq!(format_fields(&fields), "tenant=wasm-tenant, n=1");
    assert_eq!(format_fields(&[]), "");
    assert_eq!(fallback_line(Level::Info, "guest log", &[]), "[INFO] guest log");
    assert_eq!(
        fallback_line(Level::Warn, "hi", &fields),
        "[WARN] hi [tenant=wasm-tenant, n=1]"
    );
    assert_eq!(span_start_message("outer"), "span-start: outer");
}

#[test]
fn host_span_ids_and_stack() {
    let mut ids = SpanIds::new();
    let mut spans = HostSpans::new();
    let a = ids.take();
    spans.enter(a);
    let b = ids.take();
    spans.enter(b);
    assert_eq!((a, b), (1, 2));
    assert!(!spans.end(a));
    assert!(spans.end(b));
    assert!(spans.end(a));
    assert!(!spans.end(a));
    let mut last = SpanIds { next_id: u64::MAX };
    assert_eq!(last.take(), u64::MAX);
    assert_eq!(last.next_id, 0);
}
