//! Configuration values read from the environment, and the parsing of header lists.

use vstd::prelude::*;

use crate::headers::HeaderMap;
use crate::identity::opt_view;
use crate::text::{comma_items, comma_list, find_char, first_index_of, trim, trim_seq, views};

verus! {

/// What went wrong in a configuration value.
#[derive(Clone, Copy, Debug, PartialEq, Eq, Structural)]
pub enum ConfigErrorKind {
    /// A header entry without `=`.
    MalformedHeader,
    /// A header entry whose name is blank.
    EmptyHeaderKey,
    /// An export mode that is none of `json-stdout`, `otlp-grpc`, `otlp-http`.
    UnsupportedExportMode,
    /// A sampling setting that is neither `parent` nor `traceidratio:<ratio>`.
    UnsupportedSampling,
}

/// A configuration error, with the text it was found in.
#[derive(Clone, Debug, PartialEq, Eq)]
pub struct ConfigError {
    pub kind: ConfigErrorKind,
    pub text: String,
}

/// A configuration error as a kind and a text.
pub type ErrorView = (ConfigErrorKind, Seq<char>);

impl View for ConfigError {
    type V = ErrorView;

    open spec fn view(&self) -> ErrorView {
        (self.kind, self.text@)
    }
}

/// The raw settings that the environment supplies; each is absent when its variable is unset.
#[derive(Clone, Debug, Default)]
pub struct EnvSettings {
    /// `CLOUD_PRESET`
    pub cloud_preset: Option<String>,
    /// `TELEMETRY_EXPORT`
    pub telemetry_export: Option<String>,
    /// `OTLP_ENDPOINT`
    pub otlp_endpoint: Option<String>,
    /// `OTLP_HEADERS`
    pub otlp_headers: Option<String>,
    /// `TELEMETRY_SAMPLING`
    pub telemetry_sampling: Option<String>,
    /// `DD_API_KEY`
    pub dd_api_key: Option<String>,
}

/// What [`EnvSettings`] holds.
pub struct SettingsView {
    pub cloud_preset: Option<Seq<char>>,
    pub telemetry_export: Option<Seq<char>>,
    pub otlp_endpoint: Option<Seq<char>>,
    pub otlp_headers: Option<Seq<char>>,
    pub telemetry_sampling: Option<Seq<char>>,
    pub dd_api_key: Option<Seq<char>>,
}

/// The view of the settings.
pub open spec fn settings_view(s: &EnvSettings) -> SettingsView {
    SettingsView {
        cloud_preset: opt_view(s.cloud_preset),
        telemetry_export: opt_view(s.telemetry_export),
        otlp_endpoint: opt_view(s.otlp_endpoint),
        otlp_headers: opt_view(s.otlp_headers),
        telemetry_sampling: opt_view(s.telemetry_sampling),
        dd_api_key: opt_view(s.dd_api_key),
    }
}

/// The entries of an optional comma-separated list; absent reads as empty.
pub open spec fn comma_list_of_opt(v: Option<Seq<char>>) -> Seq<Seq<char>> {
    match v {
        Some(x) => comma_list(x),
        None => comma_list(Seq::empty()),
    }
}

/// One `name=value` entry of a header list: split at the first `=`, both sides trimmed.
pub open spec fn header_entry(item: Seq<char>, reject_empty_key: bool) -> Result<
    (Seq<char>, Seq<char>),
    ErrorView,
> {
    match first_index_of(item, '=') {
        None => Err((ConfigErrorKind::MalformedHeader, item)),
        Some(i) => {
            let key = trim_seq(item.subrange(0, i));
            if reject_empty_key && key.len() == 0 {
                Err((ConfigErrorKind::EmptyHeaderKey, item))
            } else {
                Ok((key, trim_seq(item.subrange(i + 1, item.len() as int))))
            }
        },
    }
}

/// The map that a list of header entries gives, a later entry replacing an earlier one of the
/// same name; or the error of the first bad entry.
pub open spec fn header_entries(items: Seq<Seq<char>>, reject_empty_key: bool) -> Result<
    Map<Seq<char>, Seq<char>>,
    ErrorView,
>
    decreases items.len(),
{
    if items.len() == 0 {
        Ok(Map::empty())
    } else {
        match header_entries(items.drop_last(), reject_empty_key) {
            Err(e) => Err(e),
            Ok(m) => match header_entry(items.last(), reject_empty_key) {
                Err(e) => Err(e),
                Ok(kv) => Ok(m.insert(kv.0, kv.1)),
            },
        }
    }
}

/// The view of a header-map result.
pub open spec fn headers_result(r: Result<HeaderMap, ConfigError>) -> Result<
    Map<Seq<char>, Seq<char>>,
    ErrorView,
> {
    match r {
        Ok(h) => Ok(h@),
        Err(e) => Err(e@),
    }
}

/// Once a prefix of the entries fails, the whole list fails the same way.
pub proof fn lemma_header_error_persists(items: Seq<Seq<char>>, reject_empty_key: bool, k: int)
    requires
        0 <= k <= items.len(),
        header_entries(items.subrange(0, k), reject_empty_key) is Err,
    ensures
        header_entries(items, reject_empty_key) == header_entries(
            items.subrange(0, k),
            reject_empty_key,
        ),
    decreases items.len() - k,
{
    if k < items.len() {
        let next = items.subrange(0, k + 1);
        assert(next.drop_last() =~= items.subrange(0, k));
        lemma_header_error_persists(items, reject_empty_key, k + 1);
    } else {
        assert(items.subrange(0, k) =~= items);
    }
}

/// Parses a comma-separated list of `name=value` entries. Blank entries are skipped; an entry
/// without `=` is an error, and so is one with a blank name when `reject_empty_key` is set.
pub fn parse_header_list(value: &str, reject_empty_key: bool) -> (r: Result<HeaderMap, ConfigError>)
    ensures
        r matches Ok(h) ==> h.wf(),
        headers_result(r) == header_entries(comma_list(value@), reject_empty_key),
{
    let items = comma_items(value);
    let mut map = HeaderMap::new();
    let mut i: usize = 0;
    while i < items.len()
        invariant
            i <= items@.len(),
            views(items@) == comma_list(value@),
            map.wf(),
            header_entries(views(items@).subrange(0, i as int), reject_empty_key) == Ok::<
                Map<Seq<char>, Seq<char>>,
                ErrorView,
            >(map@),
        decreases items@.len() - i,
    {
        let ghost done = views(items@).subrange(0, i + 1);
        assert(done.drop_last() =~= views(items@).subrange(0, i as int));
        assert(done.last() == items@[i as int]@);
        let item = items[i].as_str();
        match find_char(item, '=') {
            None => {
                let err = ConfigError { kind: ConfigErrorKind::MalformedHeader, text: items[i].clone() };
                proof {
                    lemma_header_error_persists(views(items@), reject_empty_key, i + 1);
                }
                return Err(err);
            },
            Some(eq) => {
                let n = item.unicode_len();
                let key = trim(item.substring_char(0, eq));
                if reject_empty_key && key.unicode_len() == 0 {
                    let err = ConfigError {
                        kind: ConfigErrorKind::EmptyHeaderKey,
                        text: items[i].clone(),
                    };
                    proof {
                        lemma_header_error_persists(views(items@), reject_empty_key, i + 1);
                    }
                    return Err(err);
                }
                let val = trim(item.substring_char(eq + 1, n));
                map.insert(key, val);
            },
        }
        i = i + 1;
    }
    assert(views(items@).subrange(0, items@.len() as int) =~= views(items@));
    Ok(map)
}

} // verus!
