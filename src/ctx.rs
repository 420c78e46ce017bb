//! The telemetry context under the `greentic.*` attribute conventions, with team and user.

use vstd::prelude::*;

use crate::identity::{as_str_opt, opt_view, InboundSpanContext, InvocationRecord, TenantIdentity};

verus! {

/// What a [`TelemetryCtx`] holds: each field absent or a string.
pub struct AttrCtxView {
    pub tenant_id: Option<Seq<char>>,
    pub team_id: Option<Seq<char>>,
    pub user_id: Option<Seq<char>>,
    pub session_id: Option<Seq<char>>,
    pub flow_id: Option<Seq<char>>,
    pub node_id: Option<Seq<char>>,
    pub provider: Option<Seq<char>>,
}

/// Tenant-aware telemetry context propagated to spans and exporters.
#[derive(Clone, Debug, PartialEq, Eq)]
pub struct TelemetryCtx {
    pub tenant_id: Option<String>,
    pub team_id: Option<String>,
    pub user_id: Option<String>,
    pub session_id: Option<String>,
    pub flow_id: Option<String>,
    pub node_id: Option<String>,
    pub provider: Option<String>,
}

impl View for TelemetryCtx {
    type V = AttrCtxView;

    open spec fn view(&self) -> AttrCtxView {
        AttrCtxView {
            tenant_id: opt_view(self.tenant_id),
            team_id: opt_view(self.team_id),
            user_id: opt_view(self.user_id),
            session_id: opt_view(self.session_id),
            flow_id: opt_view(self.flow_id),
            node_id: opt_view(self.node_id),
            provider: opt_view(self.provider),
        }
    }
}

/// The context with every field absent.
pub open spec fn empty_view() -> AttrCtxView {
    AttrCtxView {
        tenant_id: None,
        team_id: None,
        user_id: None,
        session_id: None,
        flow_id: None,
        node_id: None,
        provider: None,
    }
}

/// The view of an optional string slice.
pub open spec fn opt_str_view(o: Option<&str>) -> Option<Seq<char>> {
    match o {
        Some(s) => Some(s@),
        None => None,
    }
}

/// One `(key, value)` pair when the value is present, none otherwise.
pub open spec fn opt_pair(key: Seq<char>, v: Option<Seq<char>>) -> Seq<(Seq<char>, Seq<char>)> {
    match v {
        Some(x) => seq![(key, x)],
        None => Seq::empty(),
    }
}

/// The attribute pairs of a context: the present fields, in the order tenant, team, user,
/// session, flow, node, provider, under the keys `greentic.<field>`.
pub open spec fn attr_pairs(c: AttrCtxView) -> Seq<(Seq<char>, Seq<char>)> {
    opt_pair("greentic.tenant"@, c.tenant_id) + opt_pair("greentic.team"@, c.team_id) + opt_pair(
        "greentic.user"@,
        c.user_id,
    ) + opt_pair("greentic.session"@, c.session_id) + opt_pair("greentic.flow"@, c.flow_id)
        + opt_pair("greentic.node"@, c.node_id) + opt_pair("greentic.provider"@, c.provider)
}

/// The views of a list of `(key, value)` pairs.
pub open spec fn pair_views(v: Seq<(&'static str, &str)>) -> Seq<(Seq<char>, Seq<char>)> {
    v.map_values(|p: (&'static str, &str)| (p.0@, p.1@))
}

/// Appends `(key, value)` when the value is present.
fn push_present<'a>(pairs: &mut Vec<(&'static str, &'a str)>, key: &'static str, value: &'a Option<String>)
    ensures
        pair_views(final(pairs)@) == pair_views(old(pairs)@) + opt_pair(key@, opt_view(*value)),
{
    let ghost before = pairs@;
    if let Some(v) = value {
        pairs.push((key, v.as_str()));
        assert(pair_views(pairs@) =~= pair_views(before) + opt_pair(key@, opt_view(*value)));
    } else {
        assert(pair_views(pairs@) =~= pair_views(before) + opt_pair(key@, opt_view(*value)));
    }
}

/// Copies an optional string slice into an owned string.
fn owned(o: Option<&str>) -> (r: Option<String>)
    ensures
        opt_view(r) == opt_str_view(o),
{
    match o {
        Some(s) => Some(s.to_owned()),
        None => None,
    }
}

impl Default for TelemetryCtx {
    fn default() -> (r: Self)
        ensures
            r@ == empty_view(),
    {
        TelemetryCtx {
            tenant_id: None,
            team_id: None,
            user_id: None,
            session_id: None,
            flow_id: None,
            node_id: None,
            provider: None,
        }
    }
}

impl TelemetryCtx {
    pub fn with_tenant(self, tenant: &str) -> (r: Self)
        ensures
            r@ == (AttrCtxView { tenant_id: Some(tenant@), ..self@ }),
    {
        TelemetryCtx { tenant_id: Some(tenant.to_owned()), ..self }
    }

    pub fn with_team(self, team: &str) -> (r: Self)
        ensures
            r@ == (AttrCtxView { team_id: Some(team@), ..self@ }),
    {
        TelemetryCtx { team_id: Some(team.to_owned()), ..self }
    }

    pub fn with_team_opt(self, team: Option<&str>) -> (r: Self)
        ensures
            r@ == (AttrCtxView { team_id: opt_str_view(team), ..self@ }),
    {
        TelemetryCtx { team_id: owned(team), ..self }
    }

    pub fn with_user(self, user: &str) -> (r: Self)
        ensures
            r@ == (AttrCtxView { user_id: Some(user@), ..self@ }),
    {
        TelemetryCtx { user_id: Some(user.to_owned()), ..self }
    }

    pub fn with_user_opt(self, user: Option<&str>) -> (r: Self)
        ensures
            r@ == (AttrCtxView { user_id: opt_str_view(user), ..self@ }),
    {
        TelemetryCtx { user_id: owned(user), ..self }
    }

    pub fn with_session(self, session: &str) -> (r: Self)
        ensures
            r@ == (AttrCtxView { session_id: Some(session@), ..self@ }),
    {
        TelemetryCtx { session_id: Some(session.to_owned()), ..self }
    }

    pub fn with_session_opt(self, session: Option<&str>) -> (r: Self)
        ensures
            r@ == (AttrCtxView { session_id: opt_str_view(session), ..self@ }),
    {
        TelemetryCtx { session_id: owned(session), ..self }
    }

    pub fn with_flow(self, flow: &str) -> (r: Self)
        ensures
            r@ == (AttrCtxView { flow_id: Some(flow@), ..self@ }),
    {
        TelemetryCtx { flow_id: Some(flow.to_owned()), ..self }
    }

    pub fn with_flow_opt(self, flow: Option<&str>) -> (r: Self)
        ensures
            r@ == (AttrCtxView { flow_id: opt_str_view(flow), ..self@ }),
    {
        TelemetryCtx { flow_id: owned(flow), ..self }
    }

    pub fn with_node(self, node: &str) -> (r: Self)
        ensures
            r@ == (AttrCtxView { node_id: Some(node@), ..self@ }),
    {
        TelemetryCtx { node_id: Some(node.to_owned()), ..self }
    }

    pub fn with_node_opt(self, node: Option<&str>) -> (r: Self)
        ensures
            r@ == (AttrCtxView { node_id: opt_str_view(node), ..self@ }),
    {
        TelemetryCtx { node_id: owned(node), ..self }
    }

    pub fn with_provider(self, provider: &str) -> (r: Self)
        ensures
            r@ == (AttrCtxView { provider: Some(provider@), ..self@ }),
    {
        TelemetryCtx { provider: Some(provider.to_owned()), ..self }
    }

    pub fn with_provider_opt(self, provider: Option<&str>) -> (r: Self)
        ensures
            r@ == (AttrCtxView { provider: opt_str_view(provider), ..self@ }),
    {
        TelemetryCtx { provider: owned(provider), ..self }
    }

    /// Attribute pairs aligned with the `greentic.*` semantic conventions.
    pub fn iter_pairs(&self) -> (r: Vec<(&'static str, &str)>)
        ensures
            pair_views(r@) == attr_pairs(self@),
    {
        let mut pairs: Vec<(&'static str, &str)> = Vec::new();
        assert(pair_views(pairs@) =~= Seq::empty());
        push_present(&mut pairs, "greentic.tenant", &self.tenant_id);
        push_present(&mut pairs, "greentic.team", &self.team_id);
        push_present(&mut pairs, "greentic.user", &self.user_id);
        push_present(&mut pairs, "greentic.session", &self.session_id);
        push_present(&mut pairs, "greentic.flow", &self.flow_id);
        push_present(&mut pairs, "greentic.node", &self.node_id);
        push_present(&mut pairs, "greentic.provider", &self.provider);
        assert(pair_views(pairs@) =~= attr_pairs(self@));
        pairs
    }

    /// The context of a tenant: tenant, team and user set, every other field absent.
    pub fn from_tenant(identity: &TenantIdentity) -> (r: Self)
        ensures
            r@ == (AttrCtxView {
                tenant_id: Some(identity.tenant_id@),
                team_id: opt_view(identity.team_id),
                user_id: opt_view(identity.user_id),
                ..empty_view()
            }),
    {
        TelemetryCtx::default().with_tenant(identity.tenant_id.as_str()).with_team_opt(
            as_str_opt(&identity.team_id),
        ).with_user_opt(as_str_opt(&identity.user_id))
    }

    /// The context of an invocation: the tenant's context with its flow and node.
    pub fn from_invocation(envelope: &InvocationRecord) -> (r: Self)
        ensures
            r@ == (AttrCtxView {
                tenant_id: Some(envelope.tenant.tenant_id@),
                team_id: opt_view(envelope.tenant.team_id),
                user_id: opt_view(envelope.tenant.user_id),
                flow_id: Some(envelope.flow_id@),
                node_id: opt_view(envelope.node_id),
                ..empty_view()
            }),
    {
        TelemetryCtx::from_tenant(&envelope.tenant).with_flow(envelope.flow_id.as_str()).with_node_opt(
            as_str_opt(&envelope.node_id),
        )
    }

    /// The context of an inbound span: tenant, flow, provider, session and node.
    pub fn from_span_context(span: &InboundSpanContext) -> (r: Self)
        ensures
            r@ == (AttrCtxView {
                tenant_id: Some(span.tenant@),
                flow_id: Some(span.flow_id@),
                provider: Some(span.provider@),
                session_id: opt_view(span.session_id),
                node_id: opt_view(span.node_id),
                ..empty_view()
            }),
    {
        TelemetryCtx::default().with_tenant(span.tenant.as_str()).with_flow(span.flow_id.as_str()).with_provider(
            span.provider.as_str(),
        ).with_session_opt(as_str_opt(&span.session_id)).with_node_opt(as_str_opt(&span.node_id))
    }
}

} // verus!
