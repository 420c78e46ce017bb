//! Span enrichment: which context a span carries, and which fields it records.

use vstd::prelude::*;

use crate::context::{empty_view, kv_views, span_kv, SpanCtxView, TelemetryCtx};
use crate::redaction::{redact_field, redacted, Redactor};

verus! {

/// Injects the current telemetry context into spans. The context is fetched through the
/// closure it was built with.
pub struct CtxLayer<F> {
    ctx_getter: F,
}

/// What to do when a span is entered.
#[derive(Debug)]
pub enum EnterPlan {
    /// Nothing to record.
    Skip,
    /// Record the context's fields; `attach` says whether the span must now keep the context.
    Record { ctx: TelemetryCtx, attach: bool },
}

impl<F: Fn() -> Option<TelemetryCtx>> CtxLayer<F> {
    pub fn new(get_ctx: F) -> (r: Self)
        ensures
            r.getter() == get_ctx,
    {
        CtxLayer { ctx_getter: get_ctx }
    }

    /// The closure that fetches the context.
    pub closed spec fn getter(&self) -> F {
        self.ctx_getter
    }

    /// The current context, fetched through the closure.
    pub fn snapshot(&self) -> (r: Option<TelemetryCtx>)
        requires
            call_requires(self.getter(), ()),
        ensures
            call_ensures(self.getter(), (), r),
    {
        (self.ctx_getter)()
    }

    /// The context to attach to a span when it is created: the current one, when present and
    /// not empty.
    pub fn on_new_span(&self) -> (r: Option<TelemetryCtx>)
        requires
            call_requires(self.getter(), ()),
        ensures
            exists|fetched: Option<TelemetryCtx>|
                call_ensures(self.getter(), (), fetched) && r == attachable(fetched),
    {
        let fetched = self.snapshot();
        let ghost g = fetched;
        let r = match fetched {
            Some(c) => if c.is_empty() {
                None
            } else {
                Some(c)
            },
            None => None,
        };
        assert(call_ensures(self.getter(), (), g) && r == attachable(g));
        r
    }

    /// What to do when a span is entered. A context the span already carries is used as it
    /// is, without fetching; otherwise the current context is fetched, and when present and not
    /// empty it is recorded and attached.
    pub fn on_enter(&self, existing: Option<&TelemetryCtx>) -> (r: EnterPlan)
        requires
            call_requires(self.getter(), ()),
        ensures
            match existing {
                Some(c) => r matches EnterPlan::Record { ctx, attach } && ctx@ == c@ && !attach,
                None => exists|fetched: Option<TelemetryCtx>|
                    call_ensures(self.getter(), (), fetched) && match attachable(fetched) {
                        Some(c) => r == (EnterPlan::Record { ctx: c, attach: true }),
                        None => r is Skip,
                    },
            },
    {
        match existing {
            Some(c) => EnterPlan::Record { ctx: c.clone_ctx(), attach: false },
            None => match self.on_new_span() {
                Some(c) => EnterPlan::Record { ctx: c, attach: true },
                None => EnterPlan::Skip,
            },
        }
    }
}

/// A fetched context that is worth attaching: present and not empty.
pub open spec fn attachable(fetched: Option<TelemetryCtx>) -> Option<TelemetryCtx> {
    match fetched {
        Some(c) => if c@ == empty_view() {
            None
        } else {
            Some(c)
        },
        None => None,
    }
}

/// A layer that fetches the context through `provider`.
pub fn layer_with<F: Fn() -> Option<TelemetryCtx>>(provider: F) -> (r: CtxLayer<F>)
    ensures
        r.getter() == provider,
{
    CtxLayer::new(provider)
}

/// The span fields of a context with each value as the redactor lets it leave the process.
pub open spec fn redacted_fields(c: SpanCtxView, r: Redactor) -> Seq<(Seq<char>, Seq<char>)> {
    span_kv(c).map_values(|p: (Seq<char>, Seq<char>)| (p.0, redacted(r, p.0, p.1)))
}

/// The fields to record on a span for a context: its span fields, values redacted.
pub fn span_fields(ctx: &TelemetryCtx, redactor: &Redactor) -> (r: Vec<(&'static str, String)>)
    requires
        redactor.wf(),
    ensures
        kv_views(r@) == redacted_fields(ctx@, *redactor),
{
    let pairs = ctx.to_span_kv();
    let mut out: Vec<(&'static str, String)> = Vec::new();
    let mut i: usize = 0;
    while i < pairs.len()
        invariant
            i <= pairs@.len(),
            kv_views(pairs@) == span_kv(ctx@),
            redactor.wf(),
            kv_views(out@) == redacted_fields(ctx@, *redactor).subrange(0, i as int),
        decreases pairs@.len() - i,
    {
        let key = pairs[i].0;
        let value = redact_field(redactor, key, pairs[i].1.as_str());
        let ghost before = out@;
        out.push((key, value));
        assert(kv_views(pairs@)[i as int] == (key@, pairs@[i as int].1@));
        assert(kv_views(out@) =~= kv_views(before).push((key@, value@)));
        assert(redacted_fields(ctx@, *redactor).subrange(0, i + 1) =~= redacted_fields(ctx@, *redactor).subrange(0, i as int).push((key@, value@)));
        i = i + 1;
    }
    assert(redacted_fields(ctx@, *redactor).subrange(0, pairs@.len() as int) =~= redacted_fields(ctx@, *redactor));
    out
}

} // verus!
