use greentic_telemetry::config::{parse_header_list, ConfigErrorKind, EnvSettings};
use greentic_telemetry::export::{
    parse_export_mode, parse_headers, parse_sampling, resolve_export, ExportMode, SamplingSpec,
};
use greentic_telemetry::headers::HeaderMap;
use greentic_telemetry::presets::{
    detect_preset, load_preset, parse_headers_from_env, CloudPreset,
};
use greentic_telemetry::text::{comma_items, split_on, trim};

fn entries(h: &HeaderMap) -> Vec<(String, String)> {
    h.entries().clone()
}

#[test]
fn otlp_headers_parse_to_map() {
    let h = parse_headers(Some("key1=val1, key2=val2")).unwrap();
    assert_eq!(h.len(), 2);
    assert_eq!(h.get("key1").map(String::as_str), Some("val1"));
    assert_eq!(h.get("key2").map(String::as_str), Some("val2"));
}

#[test]
fn otlp_header_without_equals_is_an_error() {
    let err = parse_headers(Some("badentry")).unwrap_err();
    assert_eq!(err.kind, ConfigErrorKind::MalformedHeader);
    assert_eq!(err.text, "badentry");
    let err = parse_headers_from_env(Some("a=1,badentry".to_string())).unwrap_err();
    assert_eq!(err.kind, ConfigErrorKind::MalformedHeader);
}

#[test]
fn blank_header_name_is_an_error() {
    let err = parse_headers(Some(" =v")).unwrap_err();
    assert_eq!(err.kind, ConfigErrorKind::EmptyHeaderKey);
    assert_eq!(err.text, "=v");
    let err = parse_headers_from_env(Some("a=1, =v".to_string())).unwrap_err();
    assert_eq!(err.kind, ConfigErrorKind::EmptyHeaderKey);
    assert_eq!(err.text, "=v");
    let bad = EnvSettings {
        otlp_headers: Some("=v".into()),
        ..EnvSettings::default()
    };
    assert_eq!(
        load_preset(CloudPreset::Datadog, &bad).unwrap_err().kind,
        ConfigErrorKind::EmptyHeaderKey
    );
}

#[test]
fn header_lists_skip_blanks_and_keep_later_values() {
    let h = parse_header_list(" a = 1 ,, b=x=y , a=2 ,", true).unwrap();
    assert_eq!(
        entries(&h),
        vec![("a".to_string(), "2".to_string()), ("b".to_string(), "x=y".to_string())]
    );
    assert!(parse_headers(None).unwrap().is_empty());
    assert!(parse_headers_from_env(None).unwrap().is_empty());
    assert!(parse_headers(Some("")).unwrap().is_empty());
}

#[test]
fn text_helpers_split_and_trim() {
    assert_eq!(trim("  a b\t\n"), "a b");
    assert_eq!(trim("\u{3000}x\u{a0}"), "x");
    assert_eq!(trim("   "), "");
    assert_eq!(split_on("a,,b", ','), vec!["a".to_string(), String::new(), "b".to_string()]);
    assert_eq!(split_on("", ','), vec![String::new()]);
    assert_eq!(comma_items(" x , ,y,"), vec!["x".to_string(), "y".to_string()]);
}

#[test]
fn sampling_ratio_is_read() {
    assert_eq!(parse_sampling(None).unwrap(), SamplingSpec::Parent);
    assert_eq!(parse_sampling(Some("PARENT")).unwrap(), SamplingSpec::Parent);
    assert_eq!(
        parse_sampling(Some("traceidratio:0.25")).unwrap(),
        SamplingSpec::TraceIdRatio("0.25".to_string())
    );
    assert_eq!(
        parse_sampling(Some("TraceIdRatio:1.5")).unwrap(),
        SamplingSpec::TraceIdRatio("1.5".to_string())
    );
    let err = parse_sampling(Some("always")).unwrap_err();
    assert_eq!(err.kind, ConfigErrorKind::UnsupportedSampling);
    assert_eq!(err.text, "always");
}

#[test]
fn export_modes_are_named() {
    assert_eq!(parse_export_mode("OTLP-GRPC"), Some(ExportMode::OtlpGrpc));
    assert_eq!(parse_export_mode("otlp-http"), Some(ExportMode::OtlpHttp));
    assert_eq!(parse_export_mode("json-stdout"), Some(ExportMode::JsonStdout));
    assert_eq!(parse_export_mode("kafka"), None);
}

#[test]
fn presets_are_detected() {
    assert_eq!(detect_preset("Datadog"), Some(CloudPreset::Datadog));
    assert_eq!(detect_preset("none"), Some(CloudPreset::NoPreset));
    assert_eq!(detect_preset("heroku"), None);
}

#[test]
fn datadog_preset_adds_api_key() {
    let settings = EnvSettings {
        dd_api_key: Some("k123".into()),
        ..EnvSettings::default()
    };
    let p = load_preset(CloudPreset::Datadog, &settings).unwrap();
    assert_eq!(p.export_mode, Some(ExportMode::OtlpGrpc));
    assert_eq!(p.otlp_endpoint.as_deref(), Some("http://datadog-agent:4317"));
    assert_eq!(p.otlp_headers.get("DD_API_KEY").map(String::as_str), Some("k123"));

    let explicit = EnvSettings {
        dd_api_key: Some("k123".into()),
        otlp_headers: Some("DD_API_KEY=mine".into()),
        otlp_endpoint: Some("http://agent:4317".into()),
        ..EnvSettings::default()
    };
    let p = load_preset(CloudPreset::Datadog, &explicit).unwrap();
    assert_eq!(p.otlp_headers.get("DD_API_KEY").map(String::as_str), Some("mine"));
    assert_eq!(p.otlp_endpoint.as_deref(), Some("http://agent:4317"));
}

#[test]
fn azure_and_loki_presets() {
    let settings = EnvSettings {
        otlp_endpoint: Some(String::new()),
        ..EnvSettings::default()
    };
    let azure = load_preset(CloudPreset::Azure, &settings).unwrap();
    assert_eq!(azure.otlp_endpoint.as_deref(), Some("http://otel-collector-azure:4317"));
    let loki = load_preset(CloudPreset::Loki, &settings).unwrap();
    assert_eq!(loki.export_mode, None);
    assert_eq!(loki.otlp_endpoint, None);
    let none = load_preset(CloudPreset::NoPreset, &settings).unwrap();
    assert!(none.otlp_headers.is_empty());
    let bad = EnvSettings {
        otlp_headers: Some("nope".into()),
        ..EnvSettings::default()
    };
    assert!(load_preset(CloudPreset::Azure, &bad).is_err());
}

#[test]
fn export_defaults_to_json_stdout() {
    let r = resolve_export(&EnvSettings::default()).unwrap();
    assert_eq!(r.mode, ExportMode::JsonStdout);
    assert_eq!(r.endpoint, None);
    assert!(r.headers.is_empty());
    assert_eq!(r.sampling, SamplingSpec::Parent);
}

#[test]
fn export_takes_preset_defaults_unless_overridden() {
    let settings = EnvSettings {
        cloud_preset: Some("azure".into()),
        ..EnvSettings::default()
    };
    let r = resolve_export(&settings).unwrap();
    assert_eq!(r.mode, ExportMode::OtlpGrpc);
    assert_eq!(r.endpoint.as_deref(), Some("http://otel-collector-azure:4317"));

    let settings = EnvSettings {
        cloud_preset: Some("azure".into()),
        telemetry_export: Some("otlp-http".into()),
        otlp_endpoint: Some("http://mine:4318".into()),
        otlp_headers: Some("x=1".into()),
        telemetry_sampling: Some("traceidratio:0.5".into()),
        ..EnvSettings::default()
    };
    let r = resolve_export(&settings).unwrap();
    assert_eq!(r.mode, ExportMode::OtlpHttp);
    assert_eq!(r.endpoint.as_deref(), Some("http://mine:4318"));
    assert_eq!(r.headers.get("x").map(String::as_str), Some("1"));
    assert_eq!(r.sampling, SamplingSpec::TraceIdRatio("0.5".into()));
}

#[test]
fn export_errors_are_reported() {
    let settings = EnvSettings {
        telemetry_export: Some("carrier-pigeon".into()),
        ..EnvSettings::default()
    };
    let err = resolve_export(&settings).unwrap_err();
    assert_eq!(err.kind, ConfigErrorKind::UnsupportedExportMode);
    assert_eq!(err.text, "carrier-pigeon");

    let settings = EnvSettings {
        otlp_headers: Some("a=1, =2".into()),
        ..EnvSettings::default()
    };
    assert_eq!(resolve_export(&settings).unwrap_err().kind, ConfigErrorKind::EmptyHeaderKey);

    let settings = EnvSettings {
        telemetry_sampling: Some("sometimes".into()),
        ..EnvSettings::default()
    };
    assert_eq!(resolve_export(&settings).unwrap_err().kind, ConfigErrorKind::UnsupportedSampling);
}

#[test]
fn unknown_preset_is_ignored() {
    let settings = EnvSettings {
        cloud_preset: Some("mainframe".into()),
        ..EnvSettings::default()
    };
    let r = resolve_export(&settings).unwrap();
    assert_eq!(r.mode, ExportMode::JsonStdout);
}
