//! The export backend selection: mode, endpoint, headers and sampling, from the settings and
//! the cloud preset.

use vstd::prelude::*;

use crate::config::{
    header_entries, headers_result, parse_header_list, settings_view, ConfigError,
    ConfigErrorKind, EnvSettings, ErrorView, SettingsView,
};
use crate::headers::HeaderMap;
use crate::identity::{clone_opt, opt_view};
use crate::presets::{detect_preset, load_preset, preset_config, preset_named, CloudPreset, PresetConfig, PresetView, nonempty};
use crate::text::{ascii_lower, ascii_lowercase, comma_list, text_eq};

verus! {

/// Where telemetry goes.
#[derive(Clone, Copy, Debug, PartialEq, Eq, Structural)]
pub enum ExportMode {
    JsonStdout,
    OtlpGrpc,
    OtlpHttp,
}

/// The export mode that a `TELEMETRY_EXPORT` value names, ignoring ASCII case.
pub open spec fn export_mode_named(lower: Seq<char>) -> Option<ExportMode> {
    if lower == "json-stdout"@ {
        Some(ExportMode::JsonStdout)
    } else if lower == "otlp-grpc"@ {
        Some(ExportMode::OtlpGrpc)
    } else if lower == "otlp-http"@ {
        Some(ExportMode::OtlpHttp)
    } else {
        None
    }
}

/// Reads an export mode: `json-stdout`, `otlp-grpc` or `otlp-http`, in any ASCII case.
pub fn parse_export_mode(value: &str) -> (r: Option<ExportMode>)
    ensures
        r == export_mode_named(ascii_lower(value@)),
{
    let lower = ascii_lowercase(value);
    let l = lower.as_str();
    if text_eq(l, "json-stdout") {
        Some(ExportMode::JsonStdout)
    } else if text_eq(l, "otlp-grpc") {
        Some(ExportMode::OtlpGrpc)
    } else if text_eq(l, "otlp-http") {
        Some(ExportMode::OtlpHttp)
    } else {
        None
    }
}

/// The headers that an `OTLP_HEADERS` value gives (absent gives none): comma-separated
/// `name=value` entries, trimmed, blank entries skipped; an entry without `=` or with a blank
/// name is an error.
pub open spec fn otlp_headers(value: Option<Seq<char>>) -> Result<Map<Seq<char>, Seq<char>>, ErrorView> {
    match value {
        None => Ok(Map::empty()),
        Some(v) => header_entries(comma_list(v), true),
    }
}

/// Parses an `OTLP_HEADERS` value.
pub fn parse_headers(value: Option<&str>) -> (r: Result<HeaderMap, ConfigError>)
    ensures
        r matches Ok(h) ==> h.wf(),
        headers_result(r) == otlp_headers(
            match value {
                Some(v) => Some(v@),
                None => None::<Seq<char>>,
            },
        ),
{
    match value {
        None => Ok(HeaderMap::new()),
        Some(v) => parse_header_list(v, true),
    }
}

/// The sampling setting, before the ratio is read as a number.
#[derive(Clone, Debug, PartialEq, Eq)]
pub enum SamplingSpec {
    /// Follow the parent's sampling decision.
    Parent,
    /// Sample by trace id with the ratio written here (lower-cased, not yet read as a number).
    TraceIdRatio(String),
}

/// What a [`SamplingSpec`] holds.
pub enum SamplingView {
    Parent,
    TraceIdRatio(Seq<char>),
}

impl View for SamplingSpec {
    type V = SamplingView;

    open spec fn view(&self) -> SamplingView {
        match self {
            SamplingSpec::Parent => SamplingView::Parent,
            SamplingSpec::TraceIdRatio(r) => SamplingView::TraceIdRatio(r@),
        }
    }
}

/// The prefix of a trace-id-ratio sampling setting.
pub const RATIO_PREFIX: &'static str = "traceidratio:";

/// What a `TELEMETRY_SAMPLING` value asks for: absent or `parent` (any ASCII case) follows the
/// parent; `traceidratio:<ratio>` samples by ratio; anything else is an error.
pub open spec fn sampling_named(value: Option<Seq<char>>) -> Result<SamplingView, ErrorView> {
    match value {
        None => Ok(SamplingView::Parent),
        Some(v) => {
            let lower = ascii_lower(v);
            let p = RATIO_PREFIX@;
            if lower == "parent"@ {
                Ok(SamplingView::Parent)
            } else if lower.len() >= p.len() && lower.subrange(0, p.len() as int) == p {
                Ok(SamplingView::TraceIdRatio(lower.subrange(p.len() as int, lower.len() as int)))
            } else {
                Err((ConfigErrorKind::UnsupportedSampling, v))
            }
        },
    }
}

/// The view of a sampling result.
pub open spec fn sampling_result(r: Result<SamplingSpec, ConfigError>) -> Result<SamplingView, ErrorView> {
    match r {
        Ok(s) => Ok(s@),
        Err(e) => Err(e@),
    }
}

/// Reads a `TELEMETRY_SAMPLING` value.
pub fn parse_sampling(value: Option<&str>) -> (r: Result<SamplingSpec, ConfigError>)
    ensures
        sampling_result(r) == sampling_named(
            match value {
                Some(v) => Some(v@),
                None => None::<Seq<char>>,
            },
        ),
{
    match value {
        None => Ok(SamplingSpec::Parent),
        Some(v) => {
            let lower = ascii_lowercase(v);
            let l = lower.as_str();
            let n = l.unicode_len();
            let plen = RATIO_PREFIX.unicode_len();
            if text_eq(l, "parent") {
                Ok(SamplingSpec::Parent)
            } else if n >= plen && text_eq(l.substring_char(0, plen), RATIO_PREFIX) {
                Ok(SamplingSpec::TraceIdRatio(l.substring_char(plen, n).to_owned()))
            } else {
                Err(ConfigError { kind: ConfigErrorKind::UnsupportedSampling, text: v.to_owned() })
            }
        },
    }
}

/// The export configuration, with the sampling ratio still as text.
#[derive(Clone, Debug)]
pub struct ResolvedExport {
    pub mode: ExportMode,
    pub endpoint: Option<String>,
    pub headers: HeaderMap,
    pub sampling: SamplingSpec,
}

/// What a [`ResolvedExport`] holds.
pub struct ResolvedView {
    pub mode: ExportMode,
    pub endpoint: Option<Seq<char>>,
    pub headers: Map<Seq<char>, Seq<char>>,
    pub sampling: SamplingView,
}

impl View for ResolvedExport {
    type V = ResolvedView;

    open spec fn view(&self) -> ResolvedView {
        ResolvedView {
            mode: self.mode,
            endpoint: opt_view(self.endpoint),
            headers: self.headers@,
            sampling: self.sampling@,
        }
    }
}

/// The preset that `CLOUD_PRESET` selects; `none` and unknown names select none.
pub open spec fn selected_preset(s: SettingsView) -> Option<CloudPreset> {
    match s.cloud_preset {
        None => None,
        Some(v) => match preset_named(ascii_lower(v)) {
            Some(CloudPreset::NoPreset) => None,
            other => other,
        },
    }
}

/// The export configuration that the settings give. In order: the selected preset is loaded;
/// `TELEMETRY_EXPORT` (default `json-stdout`) is read; the endpoint is `OTLP_ENDPOINT` when set
/// and not empty, else the preset's; the headers are those of `OTLP_HEADERS`, or the preset's
/// when that gives none; the sampling is read. The first failing step gives the error. When
/// `TELEMETRY_EXPORT` is unset, the preset's export mode, if it has one, replaces the mode.
pub open spec fn resolved(s: SettingsView) -> Result<ResolvedView, ErrorView> {
    let preset = match selected_preset(s) {
        Some(p) => preset_config(p, s),
        None => Ok(PresetView { export_mode: None, otlp_endpoint: None, otlp_headers: Map::empty() }),
    };
    match preset {
        Err(e) => Err(e),
        Ok(pc) => {
            let mode = match s.telemetry_export {
                None => Ok(ExportMode::JsonStdout),
                Some(v) => match export_mode_named(ascii_lower(v)) {
                    Some(m) => Ok(m),
                    None => Err((ConfigErrorKind::UnsupportedExportMode, v)),
                },
            };
            match mode {
                Err(e) => Err(e),
                Ok(m) => match otlp_headers(s.otlp_headers) {
                    Err(e) => Err(e),
                    Ok(h) => match sampling_named(s.telemetry_sampling) {
                        Err(e) => Err(e),
                        Ok(sampling) => Ok(
                            ResolvedView {
                                mode: if s.telemetry_export is None {
                                    match pc.export_mode {
                                        Some(pm) => pm,
                                        None => m,
                                    }
                                } else {
                                    m
                                },
                                endpoint: match nonempty(s.otlp_endpoint) {
                                    Some(e) => Some(e),
                                    None => pc.otlp_endpoint,
                                },
                                headers: if h.dom().len() == 0 {
                                    pc.otlp_headers
                                } else {
                                    h
                                },
                                sampling,
                            },
                        ),
                    },
                },
            }
        },
    }
}

/// The view of a resolution result.
pub open spec fn resolved_result(r: Result<ResolvedExport, ConfigError>) -> Result<ResolvedView, ErrorView> {
    match r {
        Ok(x) => Ok(x@),
        Err(e) => Err(e@),
    }
}

/// Resolves the export configuration from the settings.
pub fn resolve_export(settings: &EnvSettings) -> (r: Result<ResolvedExport, ConfigError>)
    ensures
        r matches Ok(x) ==> x.headers.wf(),
        resolved_result(r) == resolved(settings_view(settings)),
{
    let preset = match &settings.cloud_preset {
        None => None,
        Some(v) => match detect_preset(v.as_str()) {
            Some(CloudPreset::NoPreset) => None,
            other => other,
        },
    };
    let preset_cfg = match preset {
        Some(p) => match load_preset(p, settings) {
            Ok(c) => c,
            Err(e) => return Err(e),
        },
        None => PresetConfig::default(),
    };
    let preset_export_mode = preset_cfg.export_mode;
    let mode = match &settings.telemetry_export {
        None => ExportMode::JsonStdout,
        Some(v) => match parse_export_mode(v.as_str()) {
            Some(m) => m,
            None => {
                return Err(ConfigError { kind: ConfigErrorKind::UnsupportedExportMode, text: v.clone() });
            },
        },
    };
    let endpoint = match &settings.otlp_endpoint {
        Some(e) => if e.as_str().unicode_len() > 0 {
            Some(e.clone())
        } else {
            clone_opt(&preset_cfg.otlp_endpoint)
        },
        None => clone_opt(&preset_cfg.otlp_endpoint),
    };
    let headers = match &settings.otlp_headers {
        Some(h) => parse_headers(Some(h.as_str())),
        None => parse_headers(None),
    };
    let mut headers = match headers {
        Ok(h) => h,
        Err(e) => return Err(e),
    };
    if headers.is_empty() {
        headers = preset_cfg.otlp_headers;
    }
    let sampling = match &settings.telemetry_sampling {
        Some(s) => parse_sampling(Some(s.as_str())),
        None => parse_sampling(None),
    };
    let sampling = match sampling {
        Ok(s) => s,
        Err(e) => return Err(e),
    };
    let inferred = if settings.telemetry_export.is_none() {
        match preset_export_mode {
            Some(pm) => pm,
            None => mode,
        }
    } else {
        mode
    };
    Ok(ResolvedExport { mode: inferred, endpoint, headers, sampling })
}

} // verus!
