//! The keyed context store: a fixed, sorted set of recognized keys, each with an optional value.

use vstd::prelude::*;

use crate::identity::{opt_view, owned_opt};
use crate::text::text_eq;

verus! {

/// Lexicographic order of strings by character.
pub open spec fn seq_less(a: Seq<char>, b: Seq<char>) -> bool
    decreases a.len(),
{
    if a.len() == 0 {
        b.len() > 0
    } else if b.len() == 0 {
        false
    } else if a[0] != b[0] {
        a[0] < b[0]
    } else {
        seq_less(a.drop_first(), b.drop_first())
    }
}

pub proof fn lemma_seq_less_total(a: Seq<char>, b: Seq<char>)
    requires
        a != b,
    ensures
        seq_less(a, b) || seq_less(b, a),
    decreases a.len(),
{
    if a.len() > 0 && b.len() > 0 && a[0] == b[0] {
        assert(a.drop_first() != b.drop_first()) by {
            if a.drop_first() == b.drop_first() {
                assert(a =~= seq![a[0]] + a.drop_first());
                assert(b =~= seq![b[0]] + b.drop_first());
            }
        }
        lemma_seq_less_total(a.drop_first(), b.drop_first());
    } else if a.len() == 0 && b.len() == 0 {
        assert(a =~= b);
    }
}

/// Whether `a` comes before `b` in lexicographic order by character.
pub fn text_less(a: &str, b: &str) -> (r: bool)
    ensures
        r == seq_less(a@, b@),
{
    let n = a.unicode_len();
    let m = b.unicode_len();
    let mut i: usize = 0;
    assert(a@.subrange(0, n as int) =~= a@);
    assert(b@.subrange(0, m as int) =~= b@);
    while i < n && i < m && a.get_char(i) == b.get_char(i)
        invariant
            n == a@.len(),
            m == b@.len(),
            i <= n,
            i <= m,
            seq_less(a@, b@) == seq_less(a@.subrange(i as int, n as int), b@.subrange(i as int, m as int)),
        decreases n - i,
    {
        assert(a@.subrange(i as int, n as int).drop_first() =~= a@.subrange(i + 1, n as int));
        assert(b@.subrange(i as int, m as int).drop_first() =~= b@.subrange(i + 1, m as int));
        i = i + 1;
    }
    if i == n {
        i < m
    } else if i == m {
        false
    } else {
        a.get_char(i) < b.get_char(i)
    }
}

/// Each key comes before the next.
pub open spec fn ascending(s: Seq<Seq<char>>) -> bool {
    forall|i: int| 0 <= i < s.len() - 1 ==> seq_less(#[trigger] s[i], s[i + 1])
}

/// No key occurs twice.
pub open spec fn distinct(s: Seq<Seq<char>>) -> bool {
    forall|i: int, j: int| 0 <= i < j < s.len() ==> s[i] != s[j]
}

/// A snapshot of the store: each recognized key with its value.
pub type Snapshot = Seq<(Seq<char>, Option<Seq<char>>)>;

/// The keys of a snapshot.
pub open spec fn snapshot_keys(s: Snapshot) -> Seq<Seq<char>> {
    s.map_values(|e: (Seq<char>, Option<Seq<char>>)| e.0)
}

/// The snapshot with `key` set to `value`; unchanged when `key` is not recognized.
pub open spec fn with_value(s: Snapshot, key: Seq<char>, value: Option<Seq<char>>) -> Snapshot {
    s.map_values(
        |e: (Seq<char>, Option<Seq<char>>)|
            if e.0 == key {
                (e.0, value)
            } else {
                e
            },
    )
}

/// Writing a key that the store does not recognize leaves every value as it was.
pub proof fn unrecognized_key_is_dropped(s: Snapshot, key: Seq<char>, value: Option<Seq<char>>)
    requires
        !snapshot_keys(s).contains(key),
    ensures
        with_value(s, key, value) == s,
{
    assert forall|i: int| 0 <= i < s.len() implies with_value(s, key, value)[i] == s[i] by {
        assert(snapshot_keys(s)[i] == s[i].0);
    }
    assert(with_value(s, key, value) =~= s);
}

/// The keys that every store recognizes.
pub open spec fn default_keys() -> Seq<Seq<char>> {
    seq!["tenant"@, "team"@, "flow"@, "run_id"@]
}

/// The views of a list of string slices.
pub open spec fn str_views(s: Seq<&str>) -> Seq<Seq<char>> {
    s.map_values(|x: &str| x@)
}

/// The views of a list of keys.
pub open spec fn key_views(s: Seq<String>) -> Seq<Seq<char>> {
    s.map_values(|x: String| x@)
}

/// The current values of a fixed set of recognized context keys.
#[derive(Clone, Debug)]
pub struct ContextStore {
    keys: Vec<String>,
    values: Vec<Option<String>>,
}

impl View for ContextStore {
    type V = Snapshot;

    closed spec fn view(&self) -> Snapshot {
        Seq::new(self.keys@.len(), |i: int| (self.keys@[i]@, opt_view(self.values@[i])))
    }
}

/// A cloud context: the four propagated values, each absent or set.
#[derive(Clone, Copy, Debug, PartialEq, Eq)]
pub struct CloudCtx<'a> {
    pub tenant: Option<&'a str>,
    pub team: Option<&'a str>,
    pub flow: Option<&'a str>,
    pub run_id: Option<&'a str>,
}

/// The view of an optional string slice.
pub open spec fn str_opt_view(o: Option<&str>) -> Option<Seq<char>> {
    match o {
        Some(s) => Some(s@),
        None => None,
    }
}

/// The snapshot after the four cloud keys are set from a cloud context, in the order tenant,
/// team, flow, run id.
pub open spec fn with_cloud(
    s: Snapshot,
    tenant: Option<Seq<char>>,
    team: Option<Seq<char>>,
    flow: Option<Seq<char>>,
    run_id: Option<Seq<char>>,
) -> Snapshot {
    with_value(
        with_value(with_value(with_value(s, "tenant"@, tenant), "team"@, team), "flow"@, flow),
        "run_id"@,
        run_id,
    )
}

impl<'a> CloudCtx<'a> {
    /// The context with every value absent.
    pub fn empty() -> (r: Self)
        ensures
            r.tenant is None && r.team is None && r.flow is None && r.run_id is None,
    {
        CloudCtx { tenant: None, team: None, flow: None, run_id: None }
    }
}

impl ContextStore {
    /// The keys are in ascending order, and each has a value slot.
    pub closed spec fn wf(&self) -> bool {
        &&& self.keys@.len() == self.values@.len()
        &&& ascending(key_views(self.keys@))
        &&& distinct(key_views(self.keys@))
    }

    pub proof fn lemma_keys(&self)
        requires
            self.wf(),
        ensures
            ascending(snapshot_keys(self@)),
            distinct(snapshot_keys(self@)),
    {
        assert(snapshot_keys(self@) =~= key_views(self.keys@));
    }

    #[verifier::loop_isolation(false)]
    /// Adds `key` to the recognized keys, keeping them ascending; nothing when it is there.
    fn recognize(&mut self, key: &str)
        requires
            old(self).wf(),
            forall|i: int| 0 <= i < old(self)@.len() ==> old(self)@[i].1 is None,
        ensures
            final(self).wf(),
            forall|i: int| 0 <= i < final(self)@.len() ==> final(self)@[i].1 is None,
            snapshot_keys(final(self)@).to_set() == snapshot_keys(old(self)@).to_set().insert(key@),
    {
        let ghost old_keys = key_views(self.keys@);
        assert(snapshot_keys(self@) =~= old_keys);
        let mut i: usize = 0;
        while i < self.keys.len()
            invariant
                i <= self.keys@.len(),
                forall|j: int| 0 <= j < i ==> self.keys@[j]@ != key@,
            decreases self.keys@.len() - i,
        {
            if text_eq(self.keys[i].as_str(), key) {
                assert(old_keys[i as int] == key@);
                assert(old_keys.to_set().insert(key@) =~= old_keys.to_set());
                return;
            }
            i = i + 1;
        }
        let mut p: usize = 0;
        while p < self.keys.len() && !text_less(key, self.keys[p].as_str())
            invariant
                p <= self.keys@.len(),
                forall|j: int| 0 <= j < p ==> !seq_less(key@, #[trigger] self.keys@[j]@),
            decreases self.keys@.len() - p,
        {
            p = p + 1;
        }
        let ghost vals = self.values@;
        self.keys.insert(p, key.to_owned());
        self.values.insert(p, None);
        proof {
            let nk = key_views(self.keys@);
            assert(nk =~= old_keys.insert(p as int, key@));
            assert forall|j: int| 0 <= j < nk.len() - 1 implies seq_less(#[trigger] nk[j], nk[j + 1]) by {
                if j + 1 < p {
                    assert(nk[j] == old_keys[j] && nk[j + 1] == old_keys[j + 1]);
                } else if j + 1 == p {
                    assert(nk[j] == old_keys[j]);
                    assert(old_keys[j] != key@);
                    lemma_seq_less_total(key@, old_keys[j]);
                } else if j == p {
                } else {
                    assert(nk[j] == old_keys[j - 1] && nk[j + 1] == old_keys[j]);
                }
            }
            assert forall|a: int, b: int| 0 <= a < b < nk.len() implies nk[a] != nk[b] by {
                if a < p && b < p {
                } else if a < p && b == p {
                    assert(old_keys[a] != key@);
                } else if a < p {
                } else if a == p {
                    assert(old_keys[b - 1] != key@);
                } else {
                }
            }
            assert(snapshot_keys(self@) =~= nk);
            assert(nk.to_set() =~= old_keys.to_set().insert(key@)) by {
                assert forall|x: Seq<char>| nk.contains(x) <==> old_keys.to_set().insert(key@).contains(x) by {
                    if nk.contains(x) {
                        let j = choose|j: int| 0 <= j < nk.len() && nk[j] == x;
                        if j < p {
                            assert(old_keys[j] == x);
                        } else if j > p {
                            assert(old_keys[j - 1] == x);
                        }
                    }
                    if old_keys.contains(x) {
                        let j = choose|j: int| 0 <= j < old_keys.len() && old_keys[j] == x;
                        if j < p {
                            assert(nk[j] == x);
                        } else {
                            assert(nk[j + 1] == x);
                        }
                    }
                    if x == key@ {
                        assert(nk[p as int] == x);
                    }
                }
            }
            assert forall|j: int| 0 <= j < self@.len() implies self@[j].1 is None by {
                if j < p {
                    assert(self.values@[j] == vals[j]);
                    assert(old(self)@[j].1 == opt_view(vals[j]));
                } else if j > p {
                    assert(self.values@[j] == vals[j - 1]);
                    assert(old(self)@[j - 1].1 == opt_view(vals[j - 1]));
                }
            }
        }
    }

    #[verifier::loop_isolation(false)]
    /// A store recognizing the default keys (`tenant`, `team`, `flow`, `run_id`) and the
    /// declared ones, in ascending order, each without a value.
    pub fn new(declared: &[&str]) -> (r: Self)
        ensures
            r.wf(),
            ascending(snapshot_keys(r@)),
            distinct(snapshot_keys(r@)),
            snapshot_keys(r@).to_set() == (default_keys() + str_views(declared@)).to_set(),
            forall|i: int| 0 <= i < r@.len() ==> r@[i].1 is None,
    {
        let mut store = ContextStore { keys: Vec::new(), values: Vec::new() };
        assert(snapshot_keys(store@) =~= Seq::<Seq<char>>::empty());
        let mut all: Vec<&str> = vec!["tenant", "team", "flow", "run_id"];
        assert(str_views(all@) =~= default_keys());
        let mut d: usize = 0;
        while d < declared.len()
            invariant
                d <= declared@.len(),
                str_views(all@) == default_keys() + str_views(declared@).subrange(0, d as int),
            decreases declared@.len() - d,
        {
            let ghost before = all@;
            all.push(declared[d]);
            assert(str_views(all@) =~= str_views(before).push(declared@[d as int]@));
            assert(str_views(declared@).subrange(0, d + 1) =~= str_views(declared@).subrange(0, d as int).push(declared@[d as int]@));
            assert(str_views(all@) =~= default_keys() + str_views(declared@).subrange(0, d + 1));
            d = d + 1;
        }
        assert(str_views(declared@).subrange(0, declared@.len() as int) =~= str_views(declared@));
        let mut i: usize = 0;
        assert(str_views(all@).subrange(0, 0).to_set() =~= Set::<Seq<char>>::empty());
        assert(snapshot_keys(store@).to_set() =~= Set::<Seq<char>>::empty());
        while i < all.len()
            invariant
                i <= all@.len(),
                store.wf(),
                forall|j: int| 0 <= j < store@.len() ==> store@[j].1 is None,
                snapshot_keys(store@).to_set() == str_views(all@).subrange(0, i as int).to_set(),
            decreases all@.len() - i,
        {
            store.recognize(all[i]);
            proof {
                let prefix = str_views(all@).subrange(0, i as int);
                assert(str_views(all@).subrange(0, i + 1) =~= prefix.push(all@[i as int]@));
                prefix.lemma_push_to_set_commute(all@[i as int]@);
            }
            i = i + 1;
        }
        assert(str_views(all@).subrange(0, all@.len() as int) =~= str_views(all@));
        proof {
            store.lemma_keys();
        }
        store
    }
    /// Sets `key` to `value` (absent removes the value); nothing happens when `key` is not
    /// recognized.
    pub fn set_context_value(&mut self, key: &str, value: Option<&str>)
        requires
            old(self).wf(),
        ensures
            final(self).wf(),
            final(self)@ == with_value(old(self)@, key@, str_opt_view(value)),
    {
        let ghost start = self@;
        let mut i: usize = 0;
        while i < self.keys.len()
            invariant
                self.wf(),
                i <= self.keys@.len(),
                self@.len() == start.len(),
                forall|j: int| 0 <= j < i ==> self@[j] == with_value(start, key@, str_opt_view(value))[j],
                forall|j: int| i <= j < self@.len() ==> self@[j] == start[j],
            decreases self.keys@.len() - i,
        {
            let ghost w = with_value(start, key@, str_opt_view(value));
            let ghost prev = self@;
            assert(forall|j: int| 0 <= j < i ==> prev[j] == w[j]);
            if text_eq(self.keys[i].as_str(), key) {
                let v = owned_opt(value);
                self.values.set(i, v);
                assert(start[i as int].0 == key@);
            } else {
                assert(start[i as int].0 != key@);
            }
            assert forall|j: int| 0 <= j < i + 1 implies self@[j] == w[j] by {
                assert(self@[j] == (self.keys@[j]@, opt_view(self.values@[j])));
                if j < i {
                    assert(prev[j] == (self.keys@[j]@, opt_view(self.values@[j])));
                }
            }
            i = i + 1;
        }
        assert(self@ =~= with_value(start, key@, str_opt_view(value)));
    }

    /// Sets the four cloud keys from a cloud context; absent values are removed.
    pub fn set_context(&mut self, ctx: CloudCtx)
        requires
            old(self).wf(),
        ensures
            final(self).wf(),
            final(self)@ == with_cloud(
                old(self)@,
                str_opt_view(ctx.tenant),
                str_opt_view(ctx.team),
                str_opt_view(ctx.flow),
                str_opt_view(ctx.run_id),
            ),
    {
        self.set_context_value("tenant", ctx.tenant);
        self.set_context_value("team", ctx.team);
        self.set_context_value("flow", ctx.flow);
        self.set_context_value("run_id", ctx.run_id);
    }

    /// Each recognized key with its value, keys ascending.
    pub fn context_snapshot(&self) -> (r: Vec<(String, Option<String>)>)
        requires
            self.wf(),
        ensures
            r@.len() == self@.len(),
            forall|i: int| 0 <= i < r@.len() ==> (#[trigger] r@[i].0@, opt_view(r@[i].1)) == self@[i],
    {
        let mut out: Vec<(String, Option<String>)> = Vec::new();
        let mut i: usize = 0;
        while i < self.keys.len()
            invariant
                self.wf(),
                i <= self.keys@.len(),
                out@.len() == i,
                forall|j: int| 0 <= j < i ==> (#[trigger] out@[j].0@, opt_view(out@[j].1)) == self@[j],
            decreases self.keys@.len() - i,
        {
            let value = match &self.values[i] {
                Some(v) => Some(v.clone()),
                None => None,
            };
            out.push((self.keys[i].clone(), value));
            i = i + 1;
        }
        out
    }

    /// The value of `key`; absent when `key` is not recognized or has no value.
    pub fn value_of(&self, key: &str) -> (r: Option<String>)
        requires
            self.wf(),
        ensures
            match r {
                Some(v) => exists|i: int| 0 <= i < self@.len() && self@[i] == (key@, Some(v@)),
                None => forall|i: int| 0 <= i < self@.len() && #[trigger] self@[i].0 == key@ ==> self@[i].1 is None,
            },
    {
        let mut i: usize = 0;
        while i < self.keys.len()
            invariant
                self.wf(),
                i <= self.keys@.len(),
                forall|j: int| 0 <= j < i ==> #[trigger] self@[j].0 != key@,
            decreases self.keys@.len() - i,
        {
            if text_eq(self.keys[i].as_str(), key) {
                let r = match &self.values[i] {
                    Some(v) => Some(v.clone()),
                    None => None,
                };
                proof {
                    if r is None {
                        assert forall|j: int| 0 <= j < self@.len() && #[trigger] self@[j].0 == key@ implies self@[j].1 is None by {
                            if j != i {
                                assert(key_views(self.keys@)[j] != key_views(self.keys@)[i as int]);
                            }
                        }
                    } else {
                        assert(self@[i as int] == (key@, opt_view(r)));
                    }
                }
                return r;
            }
            i = i + 1;
        }
        None
    }
}

/// The settings a telemetry state is initialized with.
#[derive(Clone, Debug, PartialEq, Eq)]
pub struct TelemetryInit {
    pub service_name: String,
    pub service_version: String,
    pub deployment_env: String,
    /// Context keys recognized besides the default ones.
    pub context_keys: Vec<String>,
}

/// What a [`TelemetryInit`] holds.
pub struct InitView {
    pub service_name: Seq<char>,
    pub service_version: Seq<char>,
    pub deployment_env: Seq<char>,
    pub context_keys: Seq<Seq<char>>,
}

impl View for TelemetryInit {
    type V = InitView;

    open spec fn view(&self) -> InitView {
        InitView {
            service_name: self.service_name@,
            service_version: self.service_version@,
            deployment_env: self.deployment_env@,
            context_keys: key_views(self.context_keys@),
        }
    }
}

/// The process-wide telemetry state: the settings it was initialized with and the context store.
#[derive(Clone, Debug)]
pub struct TelemetryState {
    pub settings: TelemetryInit,
    pub store: ContextStore,
}

/// What an initialization call did.
#[derive(Clone, Copy, Debug, PartialEq, Eq, Structural)]
pub enum InitOutcome {
    /// The state was installed.
    Installed,
    /// A state was already installed with the same settings; nothing changed.
    AlreadyInstalled,
    /// A state was already installed with other settings; it was kept (worth a warning).
    KeptEarlier,
}

/// Whether two lists of strings are equal.
fn same_strings(a: &Vec<String>, b: &Vec<String>) -> (r: bool)
    ensures
        r == (key_views(a@) == key_views(b@)),
{
    if a.len() != b.len() {
        assert(key_views(a@).len() != key_views(b@).len());
        return false;
    }
    let mut i: usize = 0;
    while i < a.len()
        invariant
            a@.len() == b@.len(),
            i <= a@.len(),
            forall|j: int| 0 <= j < i ==> a@[j]@ == b@[j]@,
        decreases a@.len() - i,
    {
        if a[i] != b[i] {
            assert(key_views(a@)[i as int] != key_views(b@)[i as int]);
            return false;
        }
        i = i + 1;
    }
    assert(key_views(a@) =~= key_views(b@));
    true
}

/// Whether two initialization settings are the same.
pub fn same_init(a: &TelemetryInit, b: &TelemetryInit) -> (r: bool)
    ensures
        r == (a@ == b@),
{
    a.service_name == b.service_name && a.service_version == b.service_version
        && a.deployment_env == b.deployment_env && same_strings(&a.context_keys, &b.context_keys)
}

/// What an initialization call does: a slot holding a state keeps it and reports whether the
/// settings match; an empty slot receives a state with the given settings and a store that
/// recognizes the default and the declared keys, ascending, without values.
pub open spec fn init_post(
    before: Option<TelemetryState>,
    settings: InitView,
    after: Option<TelemetryState>,
    r: InitOutcome,
) -> bool {
    match before {
        Some(s) => {
            &&& after == before
            &&& r == if s.settings@ == settings {
                InitOutcome::AlreadyInstalled
            } else {
                InitOutcome::KeptEarlier
            }
        },
        None => {
            &&& r == InitOutcome::Installed
            &&& after matches Some(s) && s.settings@ == settings && {
                let snap = s.store@;
                &&& ascending(snapshot_keys(snap))
                &&& distinct(snapshot_keys(snap))
                &&& snapshot_keys(snap).to_set() == (default_keys() + settings.context_keys).to_set()
                &&& forall|i: int| 0 <= i < snap.len() ==> snap[i].1 is None
            }
        },
    }
}

/// Installs the telemetry state into an empty slot. A slot that already holds a state keeps it:
/// initialization happens once, and a later call only reports whether its settings differ.
pub fn init(slot: &mut Option<TelemetryState>, settings: TelemetryInit) -> (r: InitOutcome)
    requires
        *old(slot) matches Some(s) ==> s.store.wf(),
    ensures
        *final(slot) matches Some(s) ==> s.store.wf(),
        init_post(*old(slot), settings@, *final(slot), r),
{
    match slot {
        Some(s) => {
            if same_init(&s.settings, &settings) {
                InitOutcome::AlreadyInstalled
            } else {
                InitOutcome::KeptEarlier
            }
        },
        None => {
            let mut declared: Vec<&str> = Vec::new();
            let mut i: usize = 0;
            while i < settings.context_keys.len()
                invariant
                    i <= settings.context_keys@.len(),
                    str_views(declared@) == key_views(settings.context_keys@).subrange(0, i as int),
                decreases settings.context_keys@.len() - i,
            {
                let ghost before = declared@;
                declared.push(settings.context_keys[i].as_str());
                assert(str_views(declared@) =~= str_views(before).push(settings.context_keys@[i as int]@));
                assert(key_views(settings.context_keys@).subrange(0, i + 1) =~= key_views(settings.context_keys@).subrange(0, i as int).push(settings.context_keys@[i as int]@));
                i = i + 1;
            }
            assert(key_views(settings.context_keys@).subrange(0, settings.context_keys@.len() as int) =~= key_views(settings.context_keys@));
            let store = ContextStore::new(declared.as_slice());
            *slot = Some(TelemetryState { settings, store });
            InitOutcome::Installed
        },
    }
}

/// Initializing twice with the same settings: the second call changes nothing, so the
/// store's snapshot stays as the first call left it, and it reports the state as already
/// installed; neither call fails.
pub proof fn init_twice_keeps_snapshot(
    s0: Option<TelemetryState>,
    settings: InitView,
    s1: Option<TelemetryState>,
    r1: InitOutcome,
    s2: Option<TelemetryState>,
    r2: InitOutcome,
)
    requires
        init_post(s0, settings, s1, r1),
        init_post(s1, settings, s2, r2),
        s0 matches Some(s) ==> s.settings@ == settings,
    ensures
        s1 is Some,
        s2 == s1,
        s2->Some_0.store@ == s1->Some_0.store@,
        r1 == InitOutcome::Installed || r1 == InitOutcome::AlreadyInstalled,
        r2 == InitOutcome::AlreadyInstalled,
{
}

} // verus!
