//! Carrying the context keys across a process boundary in transport headers.

use vstd::prelude::*;

use crate::headers::HeaderMap;
use crate::identity::{as_str_opt, opt_view};
use crate::store::{distinct, snapshot_keys, with_cloud, CloudCtx, ContextStore, Snapshot};
use crate::text::text_eq;

verus! {

/// Transport headers (message or HTTP headers) that propagation writes to and reads from.
pub trait Carrier {
    /// The headers, by name.
    spec fn headers_view(&self) -> Map<Seq<char>, Seq<char>>;

    /// Whatever the carrier needs to hold for its operations.
    spec fn well_formed(&self) -> bool;

    /// Sets header `key` to `value`.
    fn set(&mut self, key: &str, value: String)
        requires
            old(self).well_formed(),
        ensures
            final(self).well_formed(),
            final(self).headers_view() == old(self).headers_view().insert(key@, value@),
    ;

    /// The value of header `key`, if present.
    fn get(&self, key: &str) -> (r: Option<String>)
        requires
            self.well_formed(),
        ensures
            match r {
                Some(v) => self.headers_view().contains_key(key@) && self.headers_view()[key@] == v@,
                None => !self.headers_view().contains_key(key@),
            },
    ;
}

impl Carrier for HeaderMap {
    open spec fn headers_view(&self) -> Map<Seq<char>, Seq<char>> {
        self@
    }

    open spec fn well_formed(&self) -> bool {
        self.wf()
    }

    fn set(&mut self, key: &str, value: String) {
        self.insert(key.to_owned(), value);
    }

    fn get(&self, key: &str) -> (r: Option<String>) {
        match HeaderMap::get(self, key) {
            Some(v) => Some(v.clone()),
            None => None,
        }
    }
}

/// The header that carries a context key: `tenant` → `x-tenant`, `team` → `x-team`,
/// `flow` → `x-flow`, `run_id` → `x-run-id`; other keys are not carried.
pub open spec fn header_for(key: Seq<char>) -> Option<Seq<char>> {
    if key == "tenant"@ {
        Some("x-tenant"@)
    } else if key == "team"@ {
        Some("x-team"@)
    } else if key == "flow"@ {
        Some("x-flow"@)
    } else if key == "run_id"@ {
        Some("x-run-id"@)
    } else {
        None
    }
}

/// The header name that carries a context key, if any.
pub fn header_name_for(key: &str) -> (r: Option<&'static str>)
    ensures
        match r {
            Some(h) => header_for(key@) == Some(h@),
            None => header_for(key@) is None,
        },
{
    if text_eq(key, "tenant") {
        Some("x-tenant")
    } else if text_eq(key, "team") {
        Some("x-team")
    } else if text_eq(key, "flow") {
        Some("x-flow")
    } else if text_eq(key, "run_id") {
        Some("x-run-id")
    } else {
        None
    }
}

/// The headers after injecting a snapshot: each carried key with a non-empty value is written
/// under its header, in snapshot order.
pub open spec fn injected(s: Snapshot, h: Map<Seq<char>, Seq<char>>) -> Map<Seq<char>, Seq<char>>
    decreases s.len(),
{
    if s.len() == 0 {
        h
    } else {
        let prev = injected(s.drop_last(), h);
        let e = s.last();
        match (header_for(e.0), e.1) {
            (Some(name), Some(v)) => if v.len() > 0 {
                prev.insert(name, v)
            } else {
                prev
            },
            _ => prev,
        }
    }
}

/// The value of a header, if present.
pub open spec fn header_value(h: Map<Seq<char>, Seq<char>>, name: Seq<char>) -> Option<Seq<char>> {
    if h.contains_key(name) {
        Some(h[name])
    } else {
        None
    }
}

/// The snapshot after extracting headers: the four carried keys are set from their headers,
/// absent headers removing the value.
pub open spec fn extracted(s: Snapshot, h: Map<Seq<char>, Seq<char>>) -> Snapshot {
    with_cloud(
        s,
        header_value(h, "x-tenant"@),
        header_value(h, "x-team"@),
        header_value(h, "x-flow"@),
        header_value(h, "x-run-id"@),
    )
}

/// Writes the store's carried keys with non-empty values into the headers.
pub fn inject_context<C: Carrier>(store: &ContextStore, headers: &mut C)
    requires
        store.wf(),
        old(headers).well_formed(),
    ensures
        final(headers).well_formed(),
        final(headers).headers_view() == injected(store@, old(headers).headers_view()),
{
    let snapshot = store.context_snapshot();
    let ghost start = headers.headers_view();
    let mut i: usize = 0;
    while i < snapshot.len()
        invariant
            i <= snapshot@.len(),
            snapshot@.len() == store@.len(),
            forall|j: int| 0 <= j < snapshot@.len() ==> (#[trigger] snapshot@[j].0@, opt_view(snapshot@[j].1)) == store@[j],
            headers.well_formed(),
            headers.headers_view() == injected(store@.subrange(0, i as int), start),
        decreases snapshot@.len() - i,
    {
        let ghost done = store@.subrange(0, i + 1);
        assert(done.drop_last() =~= store@.subrange(0, i as int));
        assert(done.last() == store@[i as int]);
        assert((snapshot@[i as int].0@, opt_view(snapshot@[i as int].1)) == store@[i as int]);
        if let Some(name) = header_name_for(snapshot[i].0.as_str()) {
            if let Some(value) = &snapshot[i].1 {
                if value.as_str().unicode_len() > 0 {
                    headers.set(name, value.clone());
                }
            }
        }
        i = i + 1;
    }
    assert(store@.subrange(0, snapshot@.len() as int) =~= store@);
}

/// Sets the store's four carried keys from the headers; a missing header removes the value.
pub fn extract_context<C: Carrier>(store: &mut ContextStore, headers: &C)
    requires
        old(store).wf(),
        headers.well_formed(),
    ensures
        final(store).wf(),
        final(store)@ == extracted(old(store)@, headers.headers_view()),
{
    let tenant = headers.get("x-tenant");
    let team = headers.get("x-team");
    let flow = headers.get("x-flow");
    let run_id = headers.get("x-run-id");
    store.set_context(
        CloudCtx {
            tenant: as_str_opt(&tenant),
            team: as_str_opt(&team),
            flow: as_str_opt(&flow),
            run_id: as_str_opt(&run_id),
        },
    );
}

proof fn lemma_header_names_distinct()
    ensures
        "tenant"@ != "team"@,
        "tenant"@ != "flow"@,
        "tenant"@ != "run_id"@,
        "team"@ != "flow"@,
        "team"@ != "run_id"@,
        "flow"@ != "run_id"@,
        "x-tenant"@ != "x-team"@,
        "x-tenant"@ != "x-flow"@,
        "x-tenant"@ != "x-run-id"@,
        "x-team"@ != "x-flow"@,
        "x-team"@ != "x-run-id"@,
        "x-flow"@ != "x-run-id"@,
{
    reveal_strlit("tenant");
    reveal_strlit("team");
    reveal_strlit("flow");
    reveal_strlit("run_id");
    reveal_strlit("x-tenant");
    reveal_strlit("x-team");
    reveal_strlit("x-flow");
    reveal_strlit("x-run-id");
    assert("tenant"@[2] != "team"@[2]);
    assert("tenant"@.len() != "flow"@.len());
    assert("tenant"@[0] != "run_id"@[0]);
    assert("team"@[0] != "flow"@[0]);
    assert("team"@[0] != "run_id"@[0]);
    assert("flow"@[0] != "run_id"@[0]);
    assert("x-tenant"@[4] != "x-team"@[4]);
    assert("x-tenant"@.len() != "x-flow"@.len());
    assert("x-tenant"@[2] != "x-run-id"@[2]);
    assert("x-team"@[2] != "x-flow"@[2]);
    assert("x-team"@[2] != "x-run-id"@[2]);
    assert("x-flow"@[2] != "x-run-id"@[2]);
}

/// Keys are distinct, and every carried key has a value that is present and not empty; keys
/// without a header may hold anything.
pub open spec fn fully_carried(s: Snapshot) -> bool {
    &&& distinct(snapshot_keys(s))
    &&& forall|i: int|
        0 <= i < s.len() && (#[trigger] header_for(s[i].0)) is Some ==> (s[i].1 matches Some(v)
            && v.len() > 0)
}

proof fn lemma_injected_holds(s: Snapshot, h: Map<Seq<char>, Seq<char>>, i: int)
    requires
        fully_carried(s),
        0 <= i < s.len(),
        header_for(s[i].0) is Some,
    ensures
        header_value(injected(s, h), header_for(s[i].0)->Some_0) == s[i].1,
    decreases s.len(),
{
    lemma_header_names_distinct();
    let init = s.drop_last();
    if i < s.len() - 1 {
        assert(snapshot_keys(init) =~= snapshot_keys(s).drop_last());
        assert forall|j: int|
            0 <= j < init.len() && (#[trigger] header_for(init[j].0)) is Some implies (init[j].1 matches Some(v)
                && v.len() > 0) by {
            assert(init[j] == s[j]);
            assert(header_for(s[j].0) is Some);
        }
        assert(init[i] == s[i]);
        lemma_injected_holds(init, h, i);
        assert(snapshot_keys(s)[i] != snapshot_keys(s)[s.len() - 1]);
        assert(header_for(s[i].0) is Some);
    } else {
        assert(header_for(s[i].0) is Some);
        assert(s[i].1 matches Some(v) && v.len() > 0);
    }
}

/// Injecting a context into empty headers, clearing the local context, then extracting from
/// those headers restores every key and value, when each carried key holds a non-empty value.
/// Keys without a header are neither sent nor cleared, so they keep their values.
pub proof fn round_trip_restores_context(s: Snapshot)
    requires
        fully_carried(s),
    ensures
        extracted(with_cloud(s, None, None, None, None), injected(s, Map::empty())) == s,
{
    lemma_header_names_distinct();
    let h = injected(s, Map::empty());
    let r = extracted(with_cloud(s, None, None, None, None), h);
    assert forall|i: int| 0 <= i < s.len() implies r[i] == s[i] by {
        if header_for(s[i].0) is Some {
            lemma_injected_holds(s, Map::empty(), i);
        }
    }
    assert(r =~= s);
}

} // verus!
