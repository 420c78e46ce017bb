//! Masking of sensitive substrings in field values before they leave the process.

use vstd::prelude::*;

use crate::text::{ascii_lower, ascii_lowercase, comma_items, comma_list, text_eq, views};

verus! {

/// The marker that replaces every masked substring.
pub const MASK: &'static str = "[REDACTED]";

/// E-mail addresses.
pub const EMAIL_PATTERN: &'static str = r"(?i)[a-z0-9._%+-]+@[a-z0-9.-]+\.[a-z]{2,}";

/// `bearer <token>`.
pub const BEARER_PATTERN: &'static str = r"(?i)bearer\s+[a-z0-9._\-]+\b";

/// `api_key=<value>`, `token: <value>` and their spellings.
pub const API_KEY_PATTERN: &'static str = r"(?i)(api[-_]?key|token)\s*[:=]\s*[a-z0-9._\-]+\b";

/// Phone-number-like runs of digits.
pub const PHONE_PATTERN: &'static str = r"\+?\d[\d\-\s]{7,14}\d";

/// Whether the regex engine accepts `pattern` (it is valid and within the default size limit).
pub uninterp spec fn regex_compiles(pattern: Seq<char>) -> bool;

/// `text` with every non-overlapping match of the regex compiled from `pattern` replaced by
/// `rep`, taken literally.
pub uninterp spec fn replaced_all(pattern: Seq<char>, text: Seq<char>, rep: Seq<char>) -> Seq<char>;

/// `text` with every non-overlapping match of the regex compiled from `pattern` replaced by
/// [`MASK`].
pub open spec fn masked_by(pattern: Seq<char>, text: Seq<char>) -> Seq<char> {
    replaced_all(pattern, text, MASK@)
}

#[verifier::external_type_specification]
#[verifier::external_body]
pub struct ExRegex(regex::Regex);

/// Relies on `regex::Regex::new`: it compiles `pattern`, and fails exactly when the pattern is
/// invalid or too large; the error is handed on as its message.
#[verifier::external_body]
fn compile_regex(pattern: &str) -> (r: Result<regex::Regex, String>)
    ensures
        r is Ok <==> regex_compiles(pattern@),
{
    regex::Regex::new(pattern).map_err(|e| e.to_string())
}

/// A compiled masking pattern together with the text it was compiled from.
#[derive(Debug)]
pub struct MaskPattern {
    source: String,
    regex: regex::Regex,
}

impl View for MaskPattern {
    type V = Seq<char>;

    /// The pattern text that the regex was compiled from.
    closed spec fn view(&self) -> Seq<char> {
        self.source@
    }
}

impl MaskPattern {
    /// Compiles `pattern`; the regex engine's message when it refuses it.
    pub fn compile(pattern: &str) -> (r: Result<MaskPattern, String>)
        ensures
            r is Ok <==> regex_compiles(pattern@),
            r matches Ok(p) ==> p@ == pattern@,
    {
        match compile_regex(pattern) {
            Ok(regex) => Ok(MaskPattern { source: pattern.to_owned(), regex }),
            Err(e) => Err(e),
        }
    }

    /// The pattern text.
    pub fn source(&self) -> (r: &str)
        ensures
            r@ == self@,
    {
        self.source.as_str()
    }

    /// Relies on `regex::Regex::replace_all` with `regex::NoExpand`, so `rep` is inserted as it
    /// stands. A `MaskPattern` is only built by [`MaskPattern::compile`], so its regex is the one
    /// compiled from its source.
    #[verifier::external_body]
    fn replace_all(&self, text: &str, rep: &str) -> (r: String)
        ensures
            r@ == replaced_all(self@, text@, rep@),
    {
        self.regex.replace_all(text, regex::NoExpand(rep)).into_owned()
    }
}

/// The pattern texts of a list of patterns.
pub open spec fn pattern_views(ps: Seq<MaskPattern>) -> Seq<Seq<char>> {
    ps.map_values(|p: MaskPattern| p@)
}

/// `text` masked by each pattern in turn, first to last.
pub open spec fn mask_all(sources: Seq<Seq<char>>, text: Seq<char>) -> Seq<char>
    decreases sources.len(),
{
    if sources.len() == 0 {
        text
    } else {
        masked_by(sources.last(), mask_all(sources.drop_last(), text))
    }
}

/// The patterns of a list that the regex engine accepts, in order.
pub open spec fn compiled_only(ps: Seq<Seq<char>>) -> Seq<Seq<char>>
    decreases ps.len(),
{
    if ps.len() == 0 {
        Seq::empty()
    } else if regex_compiles(ps.last()) {
        compiled_only(ps.drop_last()).push(ps.last())
    } else {
        compiled_only(ps.drop_last())
    }
}

/// The patterns of a list that the regex engine refuses, in order.
pub open spec fn refused_only(ps: Seq<Seq<char>>) -> Seq<Seq<char>>
    decreases ps.len(),
{
    if ps.len() == 0 {
        Seq::empty()
    } else if regex_compiles(ps.last()) {
        refused_only(ps.drop_last())
    } else {
        refused_only(ps.drop_last()).push(ps.last())
    }
}

/// The built-in patterns, in the order they are applied: e-mail, bearer token, key or token
/// assignment, phone number.
pub open spec fn builtin_sources() -> Seq<Seq<char>> {
    seq![EMAIL_PATTERN@, BEARER_PATTERN@, API_KEY_PATTERN@, PHONE_PATTERN@]
}

/// Compiled patterns, with the texts that could not be compiled.
pub struct CompiledPatterns {
    pub patterns: Vec<MaskPattern>,
    pub rejected: Vec<String>,
    /// The regex engine's message for each rejected pattern, in the same order.
    pub reasons: Vec<String>,
}

/// Compiles each pattern of a list, keeping the order; those the regex engine refuses are
/// set apart.
pub fn compile_patterns(sources: &Vec<String>) -> (r: CompiledPatterns)
    ensures
        pattern_views(r.patterns@) == compiled_only(views(sources@)),
        views(r.rejected@) == refused_only(views(sources@)),
        r.reasons@.len() == r.rejected@.len(),
{
    let mut patterns: Vec<MaskPattern> = Vec::new();
    let mut rejected: Vec<String> = Vec::new();
    let mut reasons: Vec<String> = Vec::new();
    let mut i: usize = 0;
    while i < sources.len()
        invariant
            i <= sources@.len(),
            pattern_views(patterns@) == compiled_only(views(sources@).subrange(0, i as int)),
            views(rejected@) == refused_only(views(sources@).subrange(0, i as int)),
            reasons@.len() == rejected@.len(),
        decreases sources@.len() - i,
    {
        let ghost done = views(sources@).subrange(0, i + 1);
        assert(done.drop_last() =~= views(sources@).subrange(0, i as int));
        assert(done.last() == sources@[i as int]@);
        let ghost kept_before = patterns@;
        let ghost rejected_before = rejected@;
        match MaskPattern::compile(sources[i].as_str()) {
            Ok(p) => {
                patterns.push(p);
                assert(pattern_views(patterns@) =~= pattern_views(kept_before).push(done.last()));
            },
            Err(reason) => {
                rejected.push(sources[i].clone());
                reasons.push(reason);
                assert(views(rejected@) =~= views(rejected_before).push(done.last()));
            },
        }
        i = i + 1;
    }
    assert(views(sources@).subrange(0, sources@.len() as int) =~= views(sources@));
    CompiledPatterns { patterns, rejected, reasons }
}

/// The built-in patterns, compiled.
pub fn builtin_patterns() -> (r: Vec<MaskPattern>)
    ensures
        pattern_views(r@) == compiled_only(builtin_sources()),
{
    let sources: Vec<String> = vec![
        EMAIL_PATTERN.to_owned(),
        BEARER_PATTERN.to_owned(),
        API_KEY_PATTERN.to_owned(),
        PHONE_PATTERN.to_owned(),
    ];
    assert(views(sources@) =~= builtin_sources());
    compile_patterns(&sources).patterns
}

/// Custom patterns from a comma-separated list: entries are trimmed, blank ones skipped, and
/// those that do not compile are set apart so that the caller can report them.
pub fn build_custom_regexes(value: Option<&str>) -> (r: CompiledPatterns)
    ensures
        match value {
            None => r.patterns@.len() == 0 && r.rejected@.len() == 0,
            Some(v) => {
                &&& pattern_views(r.patterns@) == compiled_only(comma_list(v@))
                &&& views(r.rejected@) == refused_only(comma_list(v@))
            },
        },
        r.reasons@.len() == r.rejected@.len(),
{
    match value {
        None => CompiledPatterns { patterns: Vec::new(), rejected: Vec::new(), reasons: Vec::new() },
        Some(v) => {
            let items = comma_items(v);
            compile_patterns(&items)
        },
    }
}

/// How field values are masked.
#[derive(Clone, Copy, Debug, PartialEq, Eq, Structural)]
pub enum RedactionMode {
    /// Values pass unchanged.
    Off,
    /// Every value is masked by the built-in and the custom patterns.
    Strict,
    /// Like `Strict`, except for fields whose name is on the allowlist.
    Allowlist,
}

impl Default for RedactionMode {
    fn default() -> (r: Self)
        ensures
            r == RedactionMode::Off,
    {
        RedactionMode::Off
    }
}

/// The mode that a setting names, ignoring ASCII case; `None` when it names none.
pub open spec fn mode_named(lower: Seq<char>) -> Option<RedactionMode> {
    if lower == "off"@ || lower == "none"@ {
        Some(RedactionMode::Off)
    } else if lower == "strict"@ {
        Some(RedactionMode::Strict)
    } else if lower == "allowlist"@ {
        Some(RedactionMode::Allowlist)
    } else {
        None
    }
}

/// Reads a redaction mode setting: `off` or `none`, `strict`, `allowlist`, in any ASCII case.
pub fn parse_mode(value: &str) -> (r: Option<RedactionMode>)
    ensures
        r == mode_named(ascii_lower(value@)),
{
    let lower = ascii_lowercase(value);
    let l = lower.as_str();
    if text_eq(l, "off") || text_eq(l, "none") {
        Some(RedactionMode::Off)
    } else if text_eq(l, "strict") {
        Some(RedactionMode::Strict)
    } else if text_eq(l, "allowlist") {
        Some(RedactionMode::Allowlist)
    } else {
        None
    }
}

/// A configured masking engine.
#[derive(Debug)]
pub struct Redactor {
    pub mode: RedactionMode,
    /// Lower-case field names exempt from masking in allowlist mode.
    pub allowlist: Vec<String>,
    /// The built-in patterns, applied first in strict and allowlist modes.
    pub builtin: Vec<MaskPattern>,
    /// Custom patterns, applied after the built-in ones.
    pub regexes: Vec<MaskPattern>,
}

/// `value` masked as a redactor does it: the built-in patterns first (strict and allowlist
/// modes), then the custom patterns.
pub open spec fn applied(r: Redactor, value: Seq<char>) -> Seq<char> {
    let base = if r.mode != RedactionMode::Off {
        mask_all(pattern_views(r.builtin@), value)
    } else {
        value
    };
    mask_all(pattern_views(r.regexes@), base)
}

/// Whether a field name, lower-cased, is on the allowlist.
pub open spec fn allowlisted(r: Redactor, key: Seq<char>) -> bool {
    lower_all(views(r.allowlist@)).contains(ascii_lower(key))
}

/// The value that leaves the process for field `key`.
pub open spec fn redacted(r: Redactor, key: Seq<char>, value: Seq<char>) -> Seq<char> {
    match r.mode {
        RedactionMode::Off => value,
        RedactionMode::Strict => applied(r, value),
        RedactionMode::Allowlist => if allowlisted(r, key) {
            value
        } else {
            applied(r, value)
        },
    }
}

impl Redactor {
    /// The built-in patterns are the four of [`builtin_sources`], as far as they compile.
    pub open spec fn wf(&self) -> bool {
        pattern_views(self.builtin@) == compiled_only(builtin_sources())
    }
}

/// Each name ASCII lower-cased.
pub open spec fn lower_all(names: Seq<Seq<char>>) -> Seq<Seq<char>> {
    names.map_values(|x: Seq<char>| ascii_lower(x))
}

/// Lower-cases each name, keeping the order.
fn lowercase_all(names: &Vec<String>) -> (r: Vec<String>)
    ensures
        views(r@) == lower_all(views(names@)),
{
    let mut out: Vec<String> = Vec::new();
    let mut i: usize = 0;
    while i < names.len()
        invariant
            i <= names@.len(),
            views(out@) == lower_all(views(names@).subrange(0, i as int)),
        decreases names@.len() - i,
    {
        let ghost before = out@;
        let lowered = ascii_lowercase(names[i].as_str());
        out.push(lowered);
        assert(views(names@)[i as int] == names@[i as int]@);
        assert(views(out@) =~= views(before).push(lowered@));
        assert(lower_all(views(names@).subrange(0, i + 1)) =~= lower_all(
            views(names@).subrange(0, i as int),
        ).push(ascii_lower(names@[i as int]@)));
        i = i + 1;
    }
    assert(views(names@).subrange(0, names@.len() as int) =~= views(names@));
    out
}

impl Default for Redactor {
    fn default() -> (r: Self)
        ensures
            r.wf(),
            r.mode == RedactionMode::Off,
            r.allowlist@.len() == 0,
            pattern_views(r.builtin@) == compiled_only(builtin_sources()),
            r.regexes@.len() == 0,
    {
        Redactor {
            mode: RedactionMode::Off,
            allowlist: Vec::new(),
            builtin: builtin_patterns(),
            regexes: Vec::new(),
        }
    }
}

/// The outcome of configuring a redactor from settings.
pub struct RedactorSetup {
    pub redactor: Redactor,
    /// Custom patterns that did not compile and were skipped.
    pub rejected_patterns: Vec<String>,
    /// The regex engine's message for each skipped pattern, in the same order.
    pub rejection_reasons: Vec<String>,
    /// A mode setting that names no mode (the redactor is then off).
    pub unknown_mode: Option<String>,
}

impl Redactor {
    /// A redactor with the built-in patterns and the given mode, allowlist and custom patterns.
    /// Allowlist entries are lower-cased, since field names match them ignoring ASCII case.
    pub fn new(mode: RedactionMode, allowlist: Vec<String>, regexes: Vec<MaskPattern>) -> (r: Self)
        ensures
            r.wf(),
            r.mode == mode,
            views(r.allowlist@) == lower_all(views(allowlist@)),
            r.regexes@ == regexes@,
    {
        Redactor { mode, allowlist: lowercase_all(&allowlist), builtin: builtin_patterns(), regexes }
    }

    /// Configures a redactor from its three settings: the mode (`off`/`none`, `strict`,
    /// `allowlist`; absent or unknown means off), the allowlist (comma-separated field names,
    /// read in allowlist mode only, lower-cased) and the custom patterns (comma-separated).
    pub fn from_settings(mode: Option<&str>, allowlist: Option<&str>, mask_regexes: Option<&str>) -> (r:
        RedactorSetup)
        ensures
            r.redactor.mode == match mode {
                None => RedactionMode::Off,
                Some(m) => match mode_named(ascii_lower(m@)) {
                    Some(x) => x,
                    None => RedactionMode::Off,
                },
            },
            match r.unknown_mode {
                Some(u) => mode matches Some(m) && mode_named(ascii_lower(m@)) is None && u@ == m@,
                None => !(mode matches Some(m) && mode_named(ascii_lower(m@)) is None),
            },
            views(r.redactor.allowlist@) == match (r.redactor.mode, allowlist) {
                (RedactionMode::Allowlist, Some(a)) => lower_all(comma_list(a@)),
                _ => Seq::<Seq<char>>::empty(),
            },
            r.redactor.wf(),
            r.rejection_reasons@.len() == r.rejected_patterns@.len(),
            match mask_regexes {
                None => r.redactor.regexes@.len() == 0 && r.rejected_patterns@.len() == 0,
                Some(v) => {
                    &&& pattern_views(r.redactor.regexes@) == compiled_only(comma_list(v@))
                    &&& views(r.rejected_patterns@) == refused_only(comma_list(v@))
                },
            },
    {
        let (parsed, unknown_mode) = match mode {
            None => (RedactionMode::Off, None),
            Some(m) => match parse_mode(m) {
                Some(x) => (x, None),
                None => (RedactionMode::Off, Some(m.to_owned())),
            },
        };
        let mut names: Vec<String> = Vec::new();
        if parsed == RedactionMode::Allowlist {
            if let Some(a) = allowlist {
                names = lowercase_all(&comma_items(a));
            }
        }
        assert(views(names@) =~= match (parsed, allowlist) {
            (RedactionMode::Allowlist, Some(a)) => lower_all(comma_list(a@)),
            _ => Seq::<Seq<char>>::empty(),
        });
        let custom = build_custom_regexes(mask_regexes);
        RedactorSetup {
            redactor: Redactor {
                mode: parsed,
                allowlist: names,
                builtin: builtin_patterns(),
                regexes: custom.patterns,
            },
            rejected_patterns: custom.rejected,
            rejection_reasons: custom.reasons,
            unknown_mode,
        }
    }

    /// Whether `key`, lower-cased, is on the allowlist.
    pub fn is_allowlisted(&self, key: &str) -> (r: bool)
        ensures
            r == allowlisted(*self, key@),
    {
        let lower = ascii_lowercase(key);
        let ghost entries = lower_all(views(self.allowlist@));
        let mut i: usize = 0;
        while i < self.allowlist.len()
            invariant
                i <= self.allowlist@.len(),
                lower@ == ascii_lower(key@),
                entries == lower_all(views(self.allowlist@)),
                forall|j: int| 0 <= j < i ==> entries[j] != lower@,
            decreases self.allowlist@.len() - i,
        {
            let entry = ascii_lowercase(self.allowlist[i].as_str());
            assert(entries[i as int] == ascii_lower(self.allowlist@[i as int]@));
            if entry == lower {
                return true;
            }
            i = i + 1;
        }
        assert(!entries.contains(lower@));
        false
    }
}

/// Masks `text` by each pattern of a list in turn.
fn mask_with(patterns: &Vec<MaskPattern>, text: String) -> (r: String)
    ensures
        r@ == mask_all(pattern_views(patterns@), text@),
{
    let mut masked = text;
    let mut i: usize = 0;
    while i < patterns.len()
        invariant
            i <= patterns@.len(),
            masked@ == mask_all(pattern_views(patterns@).subrange(0, i as int), text@),
        decreases patterns@.len() - i,
    {
        let ghost done = pattern_views(patterns@).subrange(0, i + 1);
        assert(done.drop_last() =~= pattern_views(patterns@).subrange(0, i as int));
        masked = patterns[i].replace_all(masked.as_str(), MASK);
        i = i + 1;
    }
    assert(pattern_views(patterns@).subrange(0, patterns@.len() as int) =~= pattern_views(patterns@));
    masked
}

/// Masks `value` with the redactor's patterns: the built-in ones first unless the mode is off,
/// then the custom ones.
pub fn apply_patterns(value: &str, redactor: &Redactor) -> (r: String)
    requires
        redactor.wf(),
    ensures
        r@ == applied(*redactor, value@),
{
    let mut masked = value.to_owned();
    if redactor.mode != RedactionMode::Off {
        masked = mask_with(&redactor.builtin, masked);
    }
    mask_with(&redactor.regexes, masked)
}

/// The value of field `key` as it may leave the process: unchanged when the redactor is off or
/// the field is allowlisted in allowlist mode, masked otherwise.
pub fn redact_field(redactor: &Redactor, key: &str, value: &str) -> (r: String)
    requires
        redactor.wf(),
    ensures
        r@ == redacted(*redactor, key@, value@),
{
    match redactor.mode {
        RedactionMode::Off => value.to_owned(),
        RedactionMode::Strict => apply_patterns(value, redactor),
        RedactionMode::Allowlist => {
            if redactor.is_allowlisted(key) {
                value.to_owned()
            } else {
                apply_patterns(value, redactor)
            }
        },
    }
}

/// The malformed patterns already reported, so that each is reported once.
#[derive(Debug, Default)]
pub struct WarnedPatterns {
    seen: Vec<String>,
}

impl View for WarnedPatterns {
    type V = Set<Seq<char>>;

    closed spec fn view(&self) -> Set<Seq<char>> {
        views(self.seen@).to_set()
    }
}

impl WarnedPatterns {
    /// Nothing reported yet.
    pub fn new() -> (r: Self)
        ensures
            r@ == Set::<Seq<char>>::empty(),
    {
        let r = WarnedPatterns { seen: Vec::new() };
        assert(views(r.seen@).to_set() =~= Set::<Seq<char>>::empty());
        r
    }

    /// Notes `pattern` as reported; true when it had not been reported before.
    pub fn first_warning(&mut self, pattern: &str) -> (r: bool)
        ensures
            r == !old(self)@.contains(pattern@),
            final(self)@ == old(self)@.insert(pattern@),
    {
        let mut i: usize = 0;
        while i < self.seen.len()
            invariant
                i <= self.seen@.len(),
                forall|j: int| 0 <= j < i ==> self.seen@[j]@ != pattern@,
            decreases self.seen@.len() - i,
        {
            if text_eq(self.seen[i].as_str(), pattern) {
                assert(views(self.seen@)[i as int] == pattern@);
                assert(self@.insert(pattern@) =~= self@);
                return false;
            }
            i = i + 1;
        }
        let ghost before = views(self.seen@);
        assert(!before.contains(pattern@)) by {
            if before.contains(pattern@) {
                let j = choose|j: int| 0 <= j < before.len() && before[j] == pattern@;
                assert(self.seen@[j]@ == pattern@);
            }
        }
        self.seen.push(pattern.to_owned());
        assert(views(self.seen@) =~= before.push(pattern@));
        proof {
            before.lemma_push_to_set_commute(pattern@);
        }
        true
    }
}

/// In allowlist mode a field whose name is on the allowlist (ignoring ASCII case) keeps its
/// value, whatever the value holds.
pub proof fn allowlisted_field_is_kept(r: Redactor, key: Seq<char>, value: Seq<char>)
    requires
        r.mode == RedactionMode::Allowlist,
        allowlisted(r, key),
    ensures
        redacted(r, key, value) == value,
{
}

/// Redacting twice gives what redacting once gives, for the values that redaction leaves
/// unchanged: every value when the redactor is off, and allowlisted fields in allowlist mode.
pub proof fn redaction_twice_when_unmasked(r: Redactor, key: Seq<char>, value: Seq<char>)
    requires
        r.mode == RedactionMode::Off || (r.mode == RedactionMode::Allowlist && allowlisted(r, key)),
    ensures
        redacted(r, key, redacted(r, key, value)) == redacted(r, key, value),
{
}

} // verus!
