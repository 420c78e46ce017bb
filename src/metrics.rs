//! The attributes that accompany every metric measurement.

use vstd::prelude::*;

use crate::identity::opt_view;
use crate::redaction::{redact_field, redacted, Redactor};
use crate::store::{Snapshot, TelemetryState};

verus! {

/// The views of a list of owned pairs.
pub open spec fn pair_views(v: Seq<(String, String)>) -> Seq<(Seq<char>, Seq<char>)> {
    v.map_values(|p: (String, String)| (p.0@, p.1@))
}

/// The context part of the metric attributes: each key of the snapshot that has a value, with
/// the value redacted, in snapshot order.
pub open spec fn context_attributes(s: Snapshot, r: Redactor) -> Seq<(Seq<char>, Seq<char>)>
    decreases s.len(),
{
    if s.len() == 0 {
        Seq::empty()
    } else {
        let prev = context_attributes(s.drop_last(), r);
        match s.last().1 {
            Some(v) => prev.push((s.last().0, redacted(r, s.last().0, v))),
            None => prev,
        }
    }
}

/// The metric attributes of a telemetry state: the service name, version and deployment
/// environment, then the context values, redacted.
pub open spec fn metric_attributes_view(state: TelemetryState, r: Redactor) -> Seq<(Seq<char>, Seq<char>)> {
    seq![
        ("service.name"@, state.settings.service_name@),
        ("service.version"@, state.settings.service_version@),
        ("deployment.environment"@, state.settings.deployment_env@),
    ] + context_attributes(state.store@, r)
}

/// The attributes to attach to a metric measurement.
pub fn metric_attributes(state: &TelemetryState, redactor: &Redactor) -> (r: Vec<(String, String)>)
    requires
        state.store.wf(),
        redactor.wf(),
    ensures
        pair_views(r@) == metric_attributes_view(*state, *redactor),
{
    let mut attrs: Vec<(String, String)> = Vec::new();
    attrs.push(("service.name".to_owned(), state.settings.service_name.clone()));
    attrs.push(("service.version".to_owned(), state.settings.service_version.clone()));
    attrs.push(("deployment.environment".to_owned(), state.settings.deployment_env.clone()));
    let ghost head = pair_views(attrs@);
    assert(head =~= seq![
        ("service.name"@, state.settings.service_name@),
        ("service.version"@, state.settings.service_version@),
        ("deployment.environment"@, state.settings.deployment_env@),
    ]);
    let snapshot = state.store.context_snapshot();
    let ghost s = state.store@;
    let mut i: usize = 0;
    assert(s.subrange(0, 0) =~= Seq::<(Seq<char>, Option<Seq<char>>)>::empty());
    assert(pair_views(attrs@) =~= head + context_attributes(s.subrange(0, 0), *redactor));
    while i < snapshot.len()
        invariant
            i <= snapshot@.len(),
            snapshot@.len() == s.len(),
            forall|j: int| 0 <= j < snapshot@.len() ==> (#[trigger] snapshot@[j].0@, opt_view(snapshot@[j].1)) == s[j],
            redactor.wf(),
            pair_views(attrs@) == head + context_attributes(s.subrange(0, i as int), *redactor),
        decreases snapshot@.len() - i,
    {
        let ghost done = s.subrange(0, i + 1);
        assert(done.drop_last() =~= s.subrange(0, i as int));
        assert((snapshot@[i as int].0@, opt_view(snapshot@[i as int].1)) == s[i as int]);
        if let Some(value) = &snapshot[i].1 {
            let key = snapshot[i].0.as_str();
            let masked = redact_field(redactor, key, value.as_str());
            let ghost before = attrs@;
            attrs.push((snapshot[i].0.clone(), masked));
            assert(pair_views(attrs@) =~= pair_views(before).push((key@, masked@)));
        }
        i = i + 1;
    }
    assert(s.subrange(0, s.len() as int) =~= s);
    attrs
}

} // verus!
