use greentic_telemetry::context::TelemetryCtx;
use greentic_telemetry::ctx::TelemetryCtx as AttrCtx;
use greentic_telemetry::identity::{InboundSpanContext, InvocationRecord, TenantIdentity};

#[test]
fn span_pairs_skip_absent_fields_in_fixed_order() {
    let ctx = TelemetryCtx::default()
        .with_provider("p")
        .with_tenant("acme")
        .with_node("n1");
    assert_eq!(
        ctx.to_span_kv(),
        vec![
            ("gt.tenant", "acme".to_string()),
            ("gt.node", "n1".to_string()),
            ("gt.provider", "p".to_string()),
        ]
    );
    let all = TelemetryCtx::default()
        .with_tenant("t")
        .with_session("s")
        .with_flow("f")
        .with_node("n")
        .with_provider("p");
    let keys: Vec<&str> = all.to_span_kv().iter().map(|(k, _)| *k).collect();
    assert_eq!(keys, vec!["gt.tenant", "gt.session", "gt.flow", "gt.node", "gt.provider"]);
}

#[test]
fn empty_string_is_kept_apart_from_absent() {
    let ctx = TelemetryCtx::default().with_session("");
    assert!(!ctx.is_empty());
    assert_eq!(ctx.to_span_kv(), vec![("gt.session", String::new())]);
    assert!(TelemetryCtx::default().is_empty());
    assert!(TelemetryCtx::default().to_span_kv().is_empty());
}

#[test]
fn builder_overrides_one_field() {
    let ctx = TelemetryCtx::default().with_tenant("a").with_tenant("b");
    assert_eq!(ctx.tenant.as_deref(), Some("b"));
    assert_eq!(ctx.flow, None);
}

#[test]
fn describe_lists_pairs() {
    let ctx = TelemetryCtx::default().with_tenant("acme").with_flow("f1");
    assert_eq!(ctx.describe(), "TelemetryCtx(gt.tenant=acme, gt.flow=f1)");
    assert_eq!(TelemetryCtx::default().describe(), "TelemetryCtx()");
}

#[test]
fn tenant_context_sets_tenant_only() {
    let id = TenantIdentity {
        tenant_id: "acme".into(),
        team_id: Some("blue".into()),
        user_id: None,
    };
    let ctx = TelemetryCtx::from_tenant(&id);
    assert_eq!(ctx, TelemetryCtx::default().with_tenant("acme"));
}

#[test]
fn attribute_pairs_follow_conventions() {
    let ctx = AttrCtx::default()
        .with_tenant("acme")
        .with_team("blue")
        .with_user_opt(None)
        .with_session_opt(Some("s1"))
        .with_provider("telegram");
    assert_eq!(
        ctx.iter_pairs(),
        vec![
            ("greentic.tenant", "acme"),
            ("greentic.team", "blue"),
            ("greentic.session", "s1"),
            ("greentic.provider", "telegram"),
        ]
    );
    let cleared = ctx.with_team_opt(None);
    assert_eq!(cleared.team_id, None);
}

#[test]
fn attribute_context_from_records() {
    let tenant = TenantIdentity {
        tenant_id: "acme".into(),
        team_id: Some("blue".into()),
        user_id: Some("u7".into()),
    };
    let from_tenant = AttrCtx::from_tenant(&tenant);
    assert_eq!(from_tenant.tenant_id.as_deref(), Some("acme"));
    assert_eq!(from_tenant.team_id.as_deref(), Some("blue"));
    assert_eq!(from_tenant.user_id.as_deref(), Some("u7"));
    assert_eq!(from_tenant.flow_id, None);

    let invocation = InvocationRecord {
        tenant: tenant.clone(),
        flow_id: "flow-1".into(),
        node_id: None,
    };
    let from_invocation = AttrCtx::from_invocation(&invocation);
    assert_eq!(from_invocation.flow_id.as_deref(), Some("flow-1"));
    assert_eq!(from_invocation.node_id, None);
    assert_eq!(from_invocation.user_id.as_deref(), Some("u7"));

    let span = InboundSpanContext {
        tenant: "acme".into(),
        session_id: Some("s9".into()),
        flow_id: "f".into(),
        node_id: Some("n".into()),
        provider: "slack".into(),
    };
    let from_span = AttrCtx::from_span_context(&span);
    assert_eq!(
        from_span.iter_pairs(),
        vec![
            ("greentic.tenant", "acme"),
            ("greentic.session", "s9"),
            ("greentic.flow", "f"),
            ("greentic.node", "n"),
            ("greentic.provider", "slack"),
        ]
    );
}
