use greentic_telemetry::redaction::{
    apply_patterns, build_custom_regexes, parse_mode, redact_field, MaskPattern, RedactionMode,
    Redactor, WarnedPatterns,
};

fn count(haystack: &str, needle: &str) -> usize {
    haystack.matches(needle).count()
}

#[test]
fn strict_masks_email_phone_and_token() {
    let redactor = Redactor::new(RedactionMode::Strict, Vec::new(), Vec::new());

    let masked = apply_patterns(
        "Email alice@example.com with bearer ABC123 and call +12345678901",
        &redactor,
    );

    assert!(!masked.contains("alice@example.com"));
    assert!(!masked.contains("ABC123"));
    assert!(!masked.contains("+12345678901"));
    assert!(masked.contains("[REDACTED]"));
}

#[test]
fn allowlist_keeps_fields() {
    let redactor = Redactor::new(RedactionMode::Allowlist, vec!["user_id".into()], Vec::new());

    let masked = apply_patterns("User token = secret", &redactor);
    assert!(masked.contains("[REDACTED]"));

    let field_value = redact_field(&redactor, "user_id", "12345");
    assert_eq!(field_value, "12345");
}

#[test]
fn custom_regex_masks_access_token() {
    let redactor = Redactor::new(
        RedactionMode::Strict,
        Vec::new(),
        vec![MaskPattern::compile(r"(?i)secret\s*[:=]\s*[a-z0-9]+\b").unwrap()],
    );

    let masked = apply_patterns("secret=abcdef", &redactor);
    assert_eq!(masked, "[REDACTED]");
}

#[test]
fn strict_mode_marks_each_secret() {
    let redactor = Redactor::new(RedactionMode::Strict, Vec::new(), Vec::new());
    let masked = redact_field(
        &redactor,
        "message",
        "Email alice@example.com with bearer ABC123 and call +12345678901",
    );
    assert!(!masked.contains("alice@example.com"));
    assert!(!masked.contains("ABC123"));
    assert!(!masked.contains("+12345678901"));
    assert!(count(&masked, "[REDACTED]") >= 3);
    assert!(masked.starts_with("Email [REDACTED] with "));
}

#[test]
fn masking_keeps_surrounding_text() {
    let redactor = Redactor::new(RedactionMode::Strict, Vec::new(), Vec::new());
    assert_eq!(
        redact_field(&redactor, "note", "contact bob@corp.io today"),
        "contact [REDACTED] today"
    );
    assert_eq!(redact_field(&redactor, "note", "api_key=abc123"), "[REDACTED]");
    assert_eq!(redact_field(&redactor, "note", "nothing to hide"), "nothing to hide");
}

#[test]
fn off_mode_passes_values_through() {
    let redactor = Redactor::default();
    assert_eq!(redactor.mode, RedactionMode::Off);
    assert_eq!(
        redact_field(&redactor, "email", "alice@example.com"),
        "alice@example.com"
    );
}

#[test]
fn allowlist_ignores_ascii_case_of_field_name() {
    let redactor = Redactor::new(RedactionMode::Allowlist, vec!["user_id".into()], Vec::new());
    let secret = "bearer XYZ and carol@example.org";
    assert_eq!(redact_field(&redactor, "User_ID", secret), secret);
    assert_ne!(redact_field(&redactor, "other", secret), secret);
}

#[test]
fn strict_mode_ignores_allowlist() {
    let redactor = Redactor::new(RedactionMode::Strict, vec!["user_id".into()], Vec::new());
    assert_eq!(redact_field(&redactor, "user_id", "token=abc"), "[REDACTED]");
}

#[test]
fn redacting_twice_changes_nothing_more() {
    for mode in [RedactionMode::Strict, RedactionMode::Allowlist] {
        let redactor = Redactor::new(mode, vec!["kept".into()], Vec::new());
        for value in [
            "Email alice@example.com with bearer ABC123 and call +12345678901",
            "token: abc.def and api-key=zzz",
            "plain text",
        ] {
            for key in ["kept", "other"] {
                let once = redact_field(&redactor, key, value);
                let twice = redact_field(&redactor, key, &once);
                assert_eq!(once, twice);
            }
        }
    }
}

#[test]
fn mode_names_ignore_case() {
    assert_eq!(parse_mode("STRICT"), Some(RedactionMode::Strict));
    assert_eq!(parse_mode("None"), Some(RedactionMode::Off));
    assert_eq!(parse_mode("off"), Some(RedactionMode::Off));
    assert_eq!(parse_mode("AllowList"), Some(RedactionMode::Allowlist));
    assert_eq!(parse_mode("loud"), None);
}

#[test]
fn settings_build_allowlist_and_patterns() {
    let setup = Redactor::from_settings(
        Some("Allowlist"),
        Some(" User_Id , ,Email"),
        Some("secret=\\w+, (unclosed, "),
    );
    assert_eq!(setup.redactor.mode, RedactionMode::Allowlist);
    assert_eq!(setup.redactor.allowlist, vec!["user_id".to_string(), "email".to_string()]);
    assert_eq!(setup.redactor.regexes.len(), 1);
    assert_eq!(setup.redactor.regexes[0].source(), "secret=\\w+");
    assert_eq!(setup.rejected_patterns, vec!["(unclosed".to_string()]);
    assert!(setup.unknown_mode.is_none());
    assert_eq!(redact_field(&setup.redactor, "x", "secret=abc"), "[REDACTED]");
}

#[test]
fn unknown_mode_turns_redaction_off() {
    let setup = Redactor::from_settings(Some("paranoid"), Some("a"), None);
    assert_eq!(setup.redactor.mode, RedactionMode::Off);
    assert_eq!(setup.unknown_mode.as_deref(), Some("paranoid"));
    assert!(setup.redactor.allowlist.is_empty());
    let absent = Redactor::from_settings(None, None, None);
    assert_eq!(absent.redactor.mode, RedactionMode::Off);
    assert!(absent.unknown_mode.is_none());
}

#[test]
fn allowlist_setting_is_read_only_in_allowlist_mode() {
    let setup = Redactor::from_settings(Some("strict"), Some("user_id"), None);
    assert!(setup.redactor.allowlist.is_empty());
}

#[test]
fn invalid_pattern_is_refused() {
    assert!(MaskPattern::compile("(").is_err());
    let p = MaskPattern::compile("a+").unwrap();
    assert_eq!(p.source(), "a+");
    let redactor = Redactor::new(RedactionMode::Off, Vec::new(), vec![p]);
    assert_eq!(apply_patterns("baaad", &redactor), "b[REDACTED]d");
    let built = build_custom_regexes(Some("a+, [z"));
    assert_eq!(built.patterns.len(), 1);
    assert_eq!(built.rejected, vec!["[z".to_string()]);
    assert!(build_custom_regexes(None).patterns.is_empty());
}

#[test]
fn custom_patterns_apply_in_off_mode_only_through_apply_patterns() {
    let redactor = Redactor::new(
        RedactionMode::Off,
        Vec::new(),
        vec![MaskPattern::compile("abc").unwrap()],
    );
    assert_eq!(apply_patterns("xabcx a@b.io", &redactor), "x[REDACTED]x a@b.io");
    assert_eq!(redact_field(&redactor, "k", "xabcx"), "xabcx");
}

#[test]
fn each_bad_pattern_is_reported_once() {
    let mut warned = WarnedPatterns::new();
    assert!(warned.first_warning("(a"));
    assert!(warned.first_warning("[b"));
    assert!(!warned.first_warning("(a"));
    assert!(!warned.first_warning("[b"));
}

#[test]
fn allowlist_entries_are_lowercased() {
    let redactor = Redactor::new(RedactionMode::Allowlist, vec!["User_ID".into()], Vec::new());
    assert_eq!(redactor.allowlist, vec!["user_id".to_string()]);
    assert_eq!(redact_field(&redactor, "user_id", "token=abc"), "token=abc");
    assert_eq!(redact_field(&redactor, "USER_ID", "token=abc"), "token=abc");
}

#[test]
fn rejected_patterns_carry_the_engine_message() {
    let built = build_custom_regexes(Some("ok+, (open"));
    assert_eq!(built.rejected, vec!["(open".to_string()]);
    assert_eq!(built.reasons.len(), 1);
    assert!(!built.reasons[0].is_empty());
    let setup = Redactor::from_settings(Some("strict"), None, Some("(open"));
    assert_eq!(setup.rejected_patterns, vec!["(open".to_string()]);
    assert_eq!(setup.rejection_reasons.len(), 1);
}

#[test]
fn dollar_signs_in_text_are_kept() {
    let redactor = Redactor::new(RedactionMode::Off, Vec::new(), vec![MaskPattern::compile("x").unwrap()]);
    assert_eq!(apply_patterns("$1 x $name", &redactor), "$1 [REDACTED] $name");
}
