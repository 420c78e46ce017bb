//! The tenant-aware telemetry context that is recorded on spans.

use vstd::prelude::*;

use crate::identity::{clone_opt, opt_view, TenantIdentity};

verus! {

/// What a [`TelemetryCtx`] holds: each field absent or a string.
pub struct SpanCtxView {
    pub tenant: Option<Seq<char>>,
    pub session: Option<Seq<char>>,
    pub flow: Option<Seq<char>>,
    pub node: Option<Seq<char>>,
    pub provider: Option<Seq<char>>,
}

/// Tenant-aware telemetry context propagated to spans and exporters.
#[derive(Clone, Debug, PartialEq, Eq)]
pub struct TelemetryCtx {
    pub tenant: Option<String>,
    pub session: Option<String>,
    pub flow: Option<String>,
    pub node: Option<String>,
    pub provider: Option<String>,
}

impl View for TelemetryCtx {
    type V = SpanCtxView;

    open spec fn view(&self) -> SpanCtxView {
        SpanCtxView {
            tenant: opt_view(self.tenant),
            session: opt_view(self.session),
            flow: opt_view(self.flow),
            node: opt_view(self.node),
            provider: opt_view(self.provider),
        }
    }
}

/// The context with every field absent.
pub open spec fn empty_view() -> SpanCtxView {
    SpanCtxView { tenant: None, session: None, flow: None, node: None, provider: None }
}

/// One `(key, value)` pair when the value is present, none otherwise.
pub open spec fn opt_pair(key: Seq<char>, v: Option<Seq<char>>) -> Seq<(Seq<char>, Seq<char>)> {
    match v {
        Some(x) => seq![(key, x)],
        None => Seq::empty(),
    }
}

/// The span fields of a context: the present fields, in the order tenant, session, flow, node,
/// provider, under the keys `gt.<field>`.
pub open spec fn span_kv(c: SpanCtxView) -> Seq<(Seq<char>, Seq<char>)> {
    opt_pair("gt.tenant"@, c.tenant) + opt_pair("gt.session"@, c.session) + opt_pair(
        "gt.flow"@,
        c.flow,
    ) + opt_pair("gt.node"@, c.node) + opt_pair("gt.provider"@, c.provider)
}

/// The views of a list of `(key, value)` pairs.
pub open spec fn kv_views(v: Seq<(&'static str, String)>) -> Seq<(Seq<char>, Seq<char>)> {
    v.map_values(|p: (&'static str, String)| (p.0@, p.1@))
}

/// `k=v` items joined by `", "`.
pub open spec fn join_kv(ps: Seq<(Seq<char>, Seq<char>)>) -> Seq<char>
    decreases ps.len(),
{
    if ps.len() == 0 {
        Seq::empty()
    } else {
        let head = join_kv(ps.drop_last());
        let sep = if ps.len() > 1 {
            ", "@
        } else {
            Seq::<char>::empty()
        };
        head + sep + ps.last().0 + "="@ + ps.last().1
    }
}

/// The text form of a context: `TelemetryCtx(gt.tenant=acme, gt.flow=f)`.
pub open spec fn describe_view(c: SpanCtxView) -> Seq<char> {
    "TelemetryCtx("@ + join_kv(span_kv(c)) + ")"@
}

/// Appends `(key, value)` when the value is present.
fn push_present(pairs: &mut Vec<(&'static str, String)>, key: &'static str, value: &Option<String>)
    ensures
        kv_views(final(pairs)@) == kv_views(old(pairs)@) + opt_pair(key@, opt_view(*value)),
{
    let ghost before = pairs@;
    if let Some(v) = value {
        pairs.push((key, v.clone()));
        assert(kv_views(pairs@) =~= kv_views(before) + opt_pair(key@, opt_view(*value)));
    } else {
        assert(kv_views(pairs@) =~= kv_views(before) + opt_pair(key@, opt_view(*value)));
    }
}

impl Default for TelemetryCtx {
    fn default() -> (r: Self)
        ensures
            r@ == empty_view(),
    {
        TelemetryCtx { tenant: None, session: None, flow: None, node: None, provider: None }
    }
}

impl TelemetryCtx {
    pub fn with_tenant(self, tenant: &str) -> (r: Self)
        ensures
            r@ == (SpanCtxView { tenant: Some(tenant@), ..self@ }),
    {
        TelemetryCtx { tenant: Some(tenant.to_owned()), ..self }
    }

    pub fn with_session(self, session: &str) -> (r: Self)
        ensures
            r@ == (SpanCtxView { session: Some(session@), ..self@ }),
    {
        TelemetryCtx { session: Some(session.to_owned()), ..self }
    }

    pub fn with_flow(self, flow: &str) -> (r: Self)
        ensures
            r@ == (SpanCtxView { flow: Some(flow@), ..self@ }),
    {
        TelemetryCtx { flow: Some(flow.to_owned()), ..self }
    }

    pub fn with_node(self, node: &str) -> (r: Self)
        ensures
            r@ == (SpanCtxView { node: Some(node@), ..self@ }),
    {
        TelemetryCtx { node: Some(node.to_owned()), ..self }
    }

    pub fn with_provider(self, provider: &str) -> (r: Self)
        ensures
            r@ == (SpanCtxView { provider: Some(provider@), ..self@ }),
    {
        TelemetryCtx { provider: Some(provider.to_owned()), ..self }
    }

    /// Returns key/value pairs suitable for recording on tracing spans.
    pub fn to_span_kv(&self) -> (r: Vec<(&'static str, String)>)
        ensures
            kv_views(r@) == span_kv(self@),
    {
        let mut pairs: Vec<(&'static str, String)> = Vec::new();
        assert(kv_views(pairs@) =~= Seq::empty());
        push_present(&mut pairs, "gt.tenant", &self.tenant);
        push_present(&mut pairs, "gt.session", &self.session);
        push_present(&mut pairs, "gt.flow", &self.flow);
        push_present(&mut pairs, "gt.node", &self.node);
        push_present(&mut pairs, "gt.provider", &self.provider);
        assert(kv_views(pairs@) =~= span_kv(self@));
        pairs
    }

    pub fn is_empty(&self) -> (r: bool)
        ensures
            r == (self@ == empty_view()),
    {
        self.tenant.is_none() && self.session.is_none() && self.flow.is_none()
            && self.node.is_none() && self.provider.is_none()
    }

    /// A copy of the context.
    pub fn clone_ctx(&self) -> (r: Self)
        ensures
            r@ == self@,
    {
        TelemetryCtx {
            tenant: clone_opt(&self.tenant),
            session: clone_opt(&self.session),
            flow: clone_opt(&self.flow),
            node: clone_opt(&self.node),
            provider: clone_opt(&self.provider),
        }
    }

    /// The context of a tenant: its tenant field set, every other field absent.
    pub fn from_tenant(identity: &TenantIdentity) -> (r: Self)
        ensures
            r@ == (SpanCtxView { tenant: Some(identity.tenant_id@), ..empty_view() }),
    {
        TelemetryCtx::default().with_tenant(identity.tenant_id.as_str())
    }

    /// The text form of the context: `TelemetryCtx(` then `key=value` for each span field,
    /// separated by `, `, then `)`.
    pub fn describe(&self) -> (r: String)
        ensures
            r@ == describe_view(self@),
    {
        let pairs = self.to_span_kv();
        let mut out = String::from_str("TelemetryCtx(");
        let mut i: usize = 0;
        while i < pairs.len()
            invariant
                i <= pairs@.len(),
                kv_views(pairs@) == span_kv(self@),
                out@ == "TelemetryCtx("@ + join_kv(kv_views(pairs@).subrange(0, i as int)),
            decreases pairs@.len() - i,
        {
            let ghost done = kv_views(pairs@).subrange(0, i + 1);
            assert(done.drop_last() =~= kv_views(pairs@).subrange(0, i as int));
            if i > 0 {
                out.append(", ");
            }
            out.append(pairs[i].0);
            out.append("=");
            out.append(pairs[i].1.as_str());
            proof {
                let prev = join_kv(kv_views(pairs@).subrange(0, i as int));
                if i > 0 {
                    assert(out@ =~= "TelemetryCtx("@ + (prev + ", "@ + done.last().0 + "="@
                        + done.last().1));
                } else {
                    assert(prev =~= Seq::<char>::empty());
                    assert(out@ =~= "TelemetryCtx("@ + (prev + Seq::<char>::empty()
                        + done.last().0 + "="@ + done.last().1));
                }
            }
            i = i + 1;
        }
        out.append(")");
        assert(kv_views(pairs@).subrange(0, pairs@.len() as int) =~= kv_views(pairs@));
        out
    }
}

} // verus!
