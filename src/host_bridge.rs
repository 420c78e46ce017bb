//! Spans emitted by a host runtime on behalf of the code it runs.

use vstd::prelude::*;

use crate::identity::opt_view;
use crate::metrics::pair_views;

verus! {

/// Context provided by the host runtime when invoking the telemetry bridge.
#[derive(Debug, Default, Clone)]
pub struct HostContext {
    pub tenant: String,
    pub team: Option<String>,
    pub user: Option<String>,
    pub flow_id: String,
    pub node_id: Option<String>,
    pub connector: Option<String>,
    pub tool: Option<String>,
    pub action: Option<String>,
}

/// One label when the value is present, none otherwise.
pub open spec fn opt_label(key: Seq<char>, v: Option<Seq<char>>) -> Seq<(Seq<char>, Seq<char>)> {
    match v {
        Some(x) => seq![(key, x)],
        None => Seq::empty(),
    }
}

/// The standard labels of a host span: tenant and flow id, then team, user, node id,
/// connector, tool and action when present.
pub open spec fn host_labels(ctx: HostContext) -> Seq<(Seq<char>, Seq<char>)> {
    seq![("tenant"@, ctx.tenant@), ("flow_id"@, ctx.flow_id@)] + opt_label("team"@, opt_view(ctx.team))
        + opt_label("user"@, opt_view(ctx.user)) + opt_label("node_id"@, opt_view(ctx.node_id))
        + opt_label("connector"@, opt_view(ctx.connector)) + opt_label("tool"@, opt_view(ctx.tool))
        + opt_label("action"@, opt_view(ctx.action))
}

/// Appends `(key, value)` when the value is present.
fn push_label(labels: &mut Vec<(String, String)>, key: &str, value: &Option<String>)
    ensures
        pair_views(final(labels)@) == pair_views(old(labels)@) + opt_label(key@, opt_view(*value)),
{
    let ghost before = labels@;
    if let Some(v) = value {
        labels.push((key.to_owned(), v.clone()));
    }
    assert(pair_views(labels@) =~= pair_views(before) + opt_label(key@, opt_view(*value)));
}

/// The attributes of a host span: those the host sent, then the standard labels.
pub fn host_span_attributes(attributes: Vec<(String, String)>, ctx: &HostContext) -> (r: Vec<(String, String)>)
    ensures
        pair_views(r@) == pair_views(attributes@) + host_labels(*ctx),
{
    let mut owned = attributes;
    let ghost start = pair_views(owned@);
    owned.push(("tenant".to_owned(), ctx.tenant.clone()));
    owned.push(("flow_id".to_owned(), ctx.flow_id.clone()));
    assert(pair_views(owned@) =~= start + seq![("tenant"@, ctx.tenant@), ("flow_id"@, ctx.flow_id@)]);
    push_label(&mut owned, "team", &ctx.team);
    push_label(&mut owned, "user", &ctx.user);
    push_label(&mut owned, "node_id", &ctx.node_id);
    push_label(&mut owned, "connector", &ctx.connector);
    push_label(&mut owned, "tool", &ctx.tool);
    push_label(&mut owned, "action", &ctx.action);
    assert(pair_views(owned@) =~= start + host_labels(*ctx));
    owned
}

/// The name of a host span: the one the host sent, or `host-span` when it sent none.
pub fn host_span_name(name: &str) -> (r: &str)
    ensures
        r@ == if name@.len() == 0 {
            "host-span"@
        } else {
            name@
        },
{
    if name.unicode_len() == 0 {
        "host-span"
    } else {
        name
    }
}

} // verus!
