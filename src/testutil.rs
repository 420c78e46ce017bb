//! Recording closed spans with the context they carried, for assertions in tests.

use vstd::prelude::*;

use crate::context::TelemetryCtx;

verus! {

/// A closed span: its name and the context it carried.
#[derive(Debug, Clone)]
pub struct RecordedSpan {
    pub name: &'static str,
    pub ctx: TelemetryCtx,
}

/// Records a span as it closes, when it carried a context; spans without one are not recorded.
pub fn record_closed_span(
    store: &mut Vec<RecordedSpan>,
    name: &'static str,
    attached: Option<&TelemetryCtx>,
)
    ensures
        match attached {
            Some(c) => {
                &&& final(store)@.len() == old(store)@.len() + 1
                &&& final(store)@.subrange(0, old(store)@.len() as int) == old(store)@
                &&& final(store)@.last().name == name
                &&& final(store)@.last().ctx@ == c@
            },
            None => final(store)@ == old(store)@,
        },
{
    if let Some(c) = attached {
        store.push(RecordedSpan { name, ctx: c.clone_ctx() });
        assert(store@.subrange(0, old(store)@.len() as int) =~= old(store)@);
    }
}

} // verus!
