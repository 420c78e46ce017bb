//! Plain records of tenant and invocation identity, from which telemetry contexts are derived.

use vstd::prelude::*;

verus! {

/// The view of an optional string.
pub open spec fn opt_view(o: Option<String>) -> Option<Seq<char>> {
    match o {
        Some(s) => Some(s@),
        None => None,
    }
}

/// Clones an optional string, keeping its view.
pub fn clone_opt(o: &Option<String>) -> (r: Option<String>)
    ensures
        opt_view(r) == opt_view(*o),
{
    match o {
        Some(s) => Some(s.clone()),
        None => None,
    }
}

/// Copies an optional string slice into an owned string.
pub fn owned_opt(o: Option<&str>) -> (r: Option<String>)
    ensures
        opt_view(r) == match o {
            Some(s) => Some(s@),
            None => None::<Seq<char>>,
        },
{
    match o {
        Some(s) => Some(s.to_owned()),
        None => None,
    }
}

/// Borrows the string of an optional string.
pub fn as_str_opt(o: &Option<String>) -> (r: Option<&str>)
    ensures
        match r {
            Some(s) => opt_view(*o) == Some(s@),
            None => o.is_none(),
        },
{
    match o {
        Some(s) => Some(s.as_str()),
        None => None,
    }
}

/// The identity of a tenant on whose behalf work runs.
#[derive(Clone, Debug, PartialEq, Eq)]
pub struct TenantIdentity {
    pub tenant_id: String,
    pub team_id: Option<String>,
    pub user_id: Option<String>,
}

/// An invocation of a flow node on behalf of a tenant.
#[derive(Clone, Debug, PartialEq, Eq)]
pub struct InvocationRecord {
    pub tenant: TenantIdentity,
    pub flow_id: String,
    pub node_id: Option<String>,
}

/// The span context that an inbound message carries.
#[derive(Clone, Debug, PartialEq, Eq)]
pub struct InboundSpanContext {
    pub tenant: String,
    pub session_id: Option<String>,
    pub flow_id: String,
    pub node_id: Option<String>,
    pub provider: String,
}

} // verus!
