//! The context of one task tree: an explicit telemetry context, or one derived from the tenant.

use vstd::prelude::*;

use crate::context::{empty_view, SpanCtxView, TelemetryCtx};
use crate::identity::TenantIdentity;

verus! {

/// The context slots of one task tree. Each task tree owns its scope, so what one task sets is
/// never seen by another.
#[derive(Clone, Debug, Default)]
pub struct TaskScope {
    /// The tenant the task works for, if known.
    pub tenant: Option<TenantIdentity>,
    /// The telemetry context set explicitly, or derived from the tenant and cached.
    pub telemetry: Option<TelemetryCtx>,
}

/// The view of an optional context.
pub open spec fn ctx_opt_view(o: Option<TelemetryCtx>) -> Option<SpanCtxView> {
    match o {
        Some(c) => Some(c@),
        None => None,
    }
}

/// The context derived from a tenant: its tenant field only.
pub open spec fn tenant_view(t: TenantIdentity) -> SpanCtxView {
    SpanCtxView { tenant: Some(t.tenant_id@), ..empty_view() }
}

/// The current context of a scope: the explicit one, else the one derived from the tenant,
/// else none.
pub open spec fn current_view(scope: TaskScope) -> Option<SpanCtxView> {
    match scope.telemetry {
        Some(c) => Some(c@),
        None => match scope.tenant {
            Some(t) => Some(tenant_view(t)),
            None => None,
        },
    }
}

/// The scope with an explicit telemetry context.
pub open spec fn with_telemetry(scope: TaskScope, ctx: TelemetryCtx) -> TaskScope {
    TaskScope { telemetry: Some(ctx), ..scope }
}

impl TaskScope {
    /// A scope with no tenant and no context.
    pub fn new() -> (r: Self)
        ensures
            r.tenant is None,
            r.telemetry is None,
    {
        TaskScope { tenant: None, telemetry: None }
    }
}

/// Sets the tenant of the scope, and the telemetry context derived from it.
pub fn set_current_tenant_ctx(scope: &mut TaskScope, ctx: TenantIdentity)
    ensures
        final(scope).tenant == Some(ctx),
        ctx_opt_view(final(scope).telemetry) == Some(tenant_view(ctx)),
{
    let telemetry = TelemetryCtx::from_tenant(&ctx);
    scope.tenant = Some(ctx);
    scope.telemetry = Some(telemetry);
}

/// Replaces the telemetry context of the scope with an explicit value.
pub fn set_current_telemetry_ctx(scope: &mut TaskScope, ctx: TelemetryCtx)
    ensures
        *final(scope) == with_telemetry(*old(scope), ctx),
{
    scope.telemetry = Some(ctx);
}

/// The current context of the scope. A context derived from the tenant is cached as the
/// explicit one, so later reads find it directly.
pub fn current_telemetry_ctx(scope: &mut TaskScope) -> (r: Option<TelemetryCtx>)
    ensures
        ctx_opt_view(r) == current_view(*old(scope)),
        final(scope).tenant == old(scope).tenant,
        ctx_opt_view(final(scope).telemetry) == current_view(*old(scope)),
        current_view(*final(scope)) == current_view(*old(scope)),
{
    if let Some(existing) = &scope.telemetry {
        return Some(existing.clone_ctx());
    }
    let base = match &scope.tenant {
        Some(t) => Some(TelemetryCtx::from_tenant(t)),
        None => None,
    };
    if let Some(ctx) = &base {
        scope.telemetry = Some(ctx.clone_ctx());
    }
    base
}

/// Runs `f` with the current context of the scope (see [`current_telemetry_ctx`]).
pub fn with_current_telemetry_ctx<F, R>(scope: &mut TaskScope, f: F) -> (r: R)
    where
        F: FnOnce(Option<TelemetryCtx>) -> R,
    requires
        forall|v: Option<TelemetryCtx>| call_requires(f, (v,)),
    ensures
        exists|v: Option<TelemetryCtx>|
            ctx_opt_view(v) == current_view(*old(scope)) && call_ensures(f, (v,), r),
        final(scope).tenant == old(scope).tenant,
        ctx_opt_view(final(scope).telemetry) == current_view(*old(scope)),
        current_view(*final(scope)) == current_view(*old(scope)),
{
    let value = current_telemetry_ctx(scope);
    let r = f(value);
    assert(ctx_opt_view(value) == current_view(*old(scope)) && call_ensures(f, (value,), r));
    r
}

/// Two task scopes, each given its own telemetry context, each read back their own value,
/// whatever the other holds.
pub proof fn scopes_are_isolated(a: TaskScope, b: TaskScope, x: TelemetryCtx, y: TelemetryCtx)
    ensures
        current_view(with_telemetry(a, x)) == Some(x@),
        current_view(with_telemetry(b, y)) == Some(y@),
        x@ != y@ ==> current_view(with_telemetry(a, x)) != current_view(with_telemetry(b, y)),
{
}

} // verus!
