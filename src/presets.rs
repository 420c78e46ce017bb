//! Cloud presets: default export mode, endpoint and headers for known collectors.

use vstd::prelude::*;

use crate::config::{
    comma_list_of_opt, header_entries, headers_result, parse_header_list, settings_view,
    ConfigError, EnvSettings, ErrorView, SettingsView,
};
use crate::export::ExportMode;
use crate::headers::HeaderMap;
use crate::identity::{opt_view, owned_opt};
use crate::text::{ascii_lower, ascii_lowercase, text_eq};

verus! {

/// A known telemetry backend.
#[derive(Debug, Clone, Copy, PartialEq, Eq, Structural)]
pub enum CloudPreset {
    Aws,
    Gcp,
    Azure,
    Datadog,
    Loki,
    NoPreset,
}

/// The preset that a `CLOUD_PRESET` value names, ignoring ASCII case.
pub open spec fn preset_named(lower: Seq<char>) -> Option<CloudPreset> {
    if lower == "aws"@ {
        Some(CloudPreset::Aws)
    } else if lower == "gcp"@ {
        Some(CloudPreset::Gcp)
    } else if lower == "azure"@ {
        Some(CloudPreset::Azure)
    } else if lower == "datadog"@ {
        Some(CloudPreset::Datadog)
    } else if lower == "loki"@ {
        Some(CloudPreset::Loki)
    } else if lower == "none"@ {
        Some(CloudPreset::NoPreset)
    } else {
        None
    }
}

/// Reads a preset name: `aws`, `gcp`, `azure`, `datadog`, `loki` or `none`, in any ASCII case.
pub fn detect_preset(value: &str) -> (r: Option<CloudPreset>)
    ensures
        r == preset_named(ascii_lower(value@)),
{
    let lower = ascii_lowercase(value);
    let l = lower.as_str();
    if text_eq(l, "aws") {
        Some(CloudPreset::Aws)
    } else if text_eq(l, "gcp") {
        Some(CloudPreset::Gcp)
    } else if text_eq(l, "azure") {
        Some(CloudPreset::Azure)
    } else if text_eq(l, "datadog") {
        Some(CloudPreset::Datadog)
    } else if text_eq(l, "loki") {
        Some(CloudPreset::Loki)
    } else if text_eq(l, "none") {
        Some(CloudPreset::NoPreset)
    } else {
        None
    }
}

/// What a preset supplies.
#[derive(Debug, Clone)]
pub struct PresetConfig {
    pub export_mode: Option<ExportMode>,
    pub otlp_endpoint: Option<String>,
    pub otlp_headers: HeaderMap,
}

/// What a [`PresetConfig`] holds.
pub struct PresetView {
    pub export_mode: Option<ExportMode>,
    pub otlp_endpoint: Option<Seq<char>>,
    pub otlp_headers: Map<Seq<char>, Seq<char>>,
}

impl View for PresetConfig {
    type V = PresetView;

    open spec fn view(&self) -> PresetView {
        PresetView {
            export_mode: self.export_mode,
            otlp_endpoint: opt_view(self.otlp_endpoint),
            otlp_headers: self.otlp_headers@,
        }
    }
}

/// A preset that supplies nothing.
pub open spec fn empty_preset() -> PresetView {
    PresetView { export_mode: None, otlp_endpoint: None, otlp_headers: Map::empty() }
}

impl Default for PresetConfig {
    fn default() -> (r: Self)
        ensures
            r@ == empty_preset(),
            r.otlp_headers.wf(),
    {
        PresetConfig { export_mode: None, otlp_endpoint: None, otlp_headers: HeaderMap::new() }
    }
}

/// A value that is present and not empty.
pub open spec fn nonempty(v: Option<Seq<char>>) -> Option<Seq<char>> {
    match v {
        Some(x) => if x.len() > 0 {
            Some(x)
        } else {
            None
        },
        None => None,
    }
}

/// The collector endpoint that the Azure preset uses unless `OTLP_ENDPOINT` is set.
pub const AZURE_ENDPOINT: &'static str = "http://otel-collector-azure:4317";

/// The agent endpoint that the Datadog preset uses unless `OTLP_ENDPOINT` is set.
pub const DATADOG_ENDPOINT: &'static str = "http://datadog-agent:4317";

/// The header under which the Datadog API key is sent.
pub const DD_API_KEY_HEADER: &'static str = "DD_API_KEY";

/// An OTLP gRPC preset: its endpoint is `OTLP_ENDPOINT` when set and not empty, else the
/// fallback; its headers come from `OTLP_HEADERS`.
pub open spec fn grpc_preset(s: SettingsView, fallback: Option<Seq<char>>) -> Result<
    PresetView,
    ErrorView,
> {
    match header_entries(comma_list_of_opt(s.otlp_headers), true) {
        Err(e) => Err(e),
        Ok(h) => Ok(
            PresetView {
                export_mode: Some(ExportMode::OtlpGrpc),
                otlp_endpoint: match nonempty(s.otlp_endpoint) {
                    Some(e) => Some(e),
                    None => fallback,
                },
                otlp_headers: h,
            },
        ),
    }
}

/// The Datadog preset: OTLP gRPC to the agent, with `DD_API_KEY` added as a header when it is
/// set, not empty and not already among the headers.
pub open spec fn datadog_preset(s: SettingsView) -> Result<PresetView, ErrorView> {
    match grpc_preset(s, Some(DATADOG_ENDPOINT@)) {
        Err(e) => Err(e),
        Ok(p) => match nonempty(s.dd_api_key) {
            Some(k) => if p.otlp_headers.contains_key(DD_API_KEY_HEADER@) {
                Ok(p)
            } else {
                Ok(PresetView { otlp_headers: p.otlp_headers.insert(DD_API_KEY_HEADER@, k), ..p })
            },
            None => Ok(p),
        },
    }
}

/// What a preset supplies under the given settings.
pub open spec fn preset_config(p: CloudPreset, s: SettingsView) -> Result<PresetView, ErrorView> {
    match p {
        CloudPreset::Aws | CloudPreset::Gcp => grpc_preset(s, None),
        CloudPreset::Azure => grpc_preset(s, Some(AZURE_ENDPOINT@)),
        CloudPreset::Datadog => datadog_preset(s),
        CloudPreset::Loki => Ok(PresetView { otlp_endpoint: nonempty(s.otlp_endpoint), ..empty_preset() }),
        CloudPreset::NoPreset => Ok(empty_preset()),
    }
}

/// The view of a preset result.
pub open spec fn preset_result(r: Result<PresetConfig, ConfigError>) -> Result<PresetView, ErrorView> {
    match r {
        Ok(p) => Ok(p@),
        Err(e) => Err(e@),
    }
}

/// Parses an `OTLP_HEADERS` value (absent reads as empty): comma-separated `name=value`
/// entries, trimmed; blank entries skipped; an entry without `=` or with a blank name is an error.
pub fn parse_headers_from_env(headers: Option<String>) -> (r: Result<HeaderMap, ConfigError>)
    ensures
        r matches Ok(h) ==> h.wf(),
        headers_result(r) == header_entries(comma_list_of_opt(opt_view(headers)), true),
{
    match headers {
        Some(h) => parse_header_list(h.as_str(), true),
        None => parse_header_list(String::new().as_str(), true),
    }
}

/// `OTLP_ENDPOINT` when it is set and not empty.
fn nonempty_endpoint(settings: &EnvSettings) -> (r: Option<String>)
    ensures
        opt_view(r) == nonempty(opt_view(settings.otlp_endpoint)),
{
    match &settings.otlp_endpoint {
        Some(e) => if e.as_str().unicode_len() > 0 {
            Some(e.clone())
        } else {
            None
        },
        None => None,
    }
}

/// An OTLP gRPC preset with the given fallback endpoint.
fn grpc_config(settings: &EnvSettings, fallback: Option<&str>) -> (r: Result<PresetConfig, ConfigError>)
    ensures
        r matches Ok(p) ==> p.otlp_headers.wf(),
        preset_result(r) == grpc_preset(
            settings_view(settings),
            match fallback {
                Some(f) => Some(f@),
                None => None::<Seq<char>>,
            },
        ),
{
    let headers = match parse_headers_from_env(settings.otlp_headers.clone()) {
        Ok(h) => h,
        Err(e) => return Err(e),
    };
    let endpoint = match nonempty_endpoint(settings) {
        Some(e) => Some(e),
        None => owned_opt(fallback),
    };
    Ok(PresetConfig { export_mode: Some(ExportMode::OtlpGrpc), otlp_endpoint: endpoint, otlp_headers: headers })
}

/// The Datadog preset.
pub fn datadog_config(settings: &EnvSettings) -> (r: Result<PresetConfig, ConfigError>)
    ensures
        r matches Ok(p) ==> p.otlp_headers.wf(),
        preset_result(r) == datadog_preset(settings_view(settings)),
{
    let mut preset = match grpc_config(settings, Some(DATADOG_ENDPOINT)) {
        Ok(p) => p,
        Err(e) => return Err(e),
    };
    if let Some(key) = &settings.dd_api_key {
        if key.as_str().unicode_len() > 0 && preset.otlp_headers.get(DD_API_KEY_HEADER).is_none() {
            preset.otlp_headers.insert(DD_API_KEY_HEADER.to_owned(), key.clone());
        }
    }
    Ok(preset)
}

/// Loads what a preset supplies under the given settings. Aws and Gcp export over OTLP gRPC to
/// `OTLP_ENDPOINT`; Azure and Datadog do the same with a default endpoint; Loki keeps the
/// export mode open and takes only `OTLP_ENDPOINT`; `None` supplies nothing.
pub fn load_preset(preset: CloudPreset, settings: &EnvSettings) -> (r: Result<PresetConfig, ConfigError>)
    ensures
        r matches Ok(p) ==> p.otlp_headers.wf(),
        preset_result(r) == preset_config(preset, settings_view(settings)),
{
    match preset {
        CloudPreset::Aws | CloudPreset::Gcp => grpc_config(settings, None),
        CloudPreset::Azure => grpc_config(settings, Some(AZURE_ENDPOINT)),
        CloudPreset::Datadog => datadog_config(settings),
        CloudPreset::Loki => {
            let mut p = PresetConfig::default();
            p.otlp_endpoint = nonempty_endpoint(settings);
            Ok(p)
        },
        CloudPreset::NoPreset => Ok(PresetConfig::default()),
    }
}

} // verus!
