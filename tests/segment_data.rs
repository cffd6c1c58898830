use ccline_quota::config::{AnsiColor, OptionValue, SegmentId};
use ccline_quota::credential::CredentialSources;
use ccline_quota::quota::{DetectStep, PackyCodeApiResponse, QuotaSegment};
use ccline_quota::themes::{theme_default, theme_nord, theme_powerline_dark};

fn pairs(meta: &[(String, String)]) -> Vec<(&str, &str)> {
    meta.iter().map(|(k, v)| (k.as_str(), v.as_str())).collect()
}

fn two_decimals(s: &str) -> Option<String> {
    s.parse::<f64>().ok().map(|v| format!("{:.2}", v))
}

fn no_sources() -> CredentialSources {
    CredentialSources {
        tool_api_key: None,
        provider_api_key: None,
        provider_auth_token: None,
        settings_auth_token: None,
        settings_api_key: None,
        key_file: None,
    }
}

#[test]
fn spend_is_shown_with_two_decimals() {
    let q = QuotaSegment::new();
    assert_eq!(q.format_daily_spent("12.5", two_decimals("12.5")), "$12.50");
    assert_eq!(q.format_daily_spent("3", two_decimals("3")), "$3.00");
}

#[test]
fn non_numeric_spend_is_shown_as_given() {
    let q = QuotaSegment::new();
    assert_eq!(two_decimals("n/a"), None);
    assert_eq!(q.format_daily_spent("n/a", two_decimals("n/a")), "$n/a");
}

#[test]
fn opus_status_glyphs() {
    let q = QuotaSegment::new();
    assert_eq!(q.format_opus_status(true), "Opus\u{2713}");
    assert_eq!(q.format_opus_status(false), "Opus\u{2717}");
}

#[test]
fn quota_segment_id() {
    assert_eq!(QuotaSegment::new().id(), SegmentId::Quota);
}

#[test]
fn total_failure_is_offline() {
    let q = QuotaSegment::new();
    let d = q.data_from_detection(DetectStep::AllFailed, None);
    assert_eq!(d.primary, "Offline");
    assert_eq!(d.secondary, "");
    assert_eq!(pairs(&d.metadata), vec![("status", "offline")]);
}

#[test]
fn answer_becomes_online_data() {
    let q = QuotaSegment::new();
    let step = DetectStep::Found {
        url: "https://share.packycode.com/api/backend/users/info".to_string(),
        response: PackyCodeApiResponse { daily_spent_usd: "12.5".to_string(), opus_enabled: false },
    };
    let d = q.data_from_detection(step, two_decimals("12.5"));
    assert_eq!(d.primary, "$12.50");
    assert_eq!(d.secondary, "Opus\u{2717}");
    assert_eq!(
        pairs(&d.metadata),
        vec![
            ("raw_spent", "12.5"),
            ("opus_enabled", "false"),
            ("endpoint_used", "https://share.packycode.com/api/backend/users/info"),
        ]
    );
}

#[test]
fn missing_credential_resolves_to_none() {
    assert_eq!(no_sources().resolve(), None);
}

#[test]
fn empty_sources_are_skipped() {
    let mut s = no_sources();
    s.tool_api_key = Some(String::new());
    s.key_file = Some("  \n".to_string());
    assert_eq!(s.resolve(), None);
    s.settings_api_key = Some("from-settings".to_string());
    assert_eq!(s.resolve(), Some("from-settings".to_string()));
}

#[test]
fn credential_priority_order() {
    let mut s = no_sources();
    s.key_file = Some("  file-key\n".to_string());
    assert_eq!(s.resolve(), Some("file-key".to_string()));
    s.settings_api_key = Some("settings-key".to_string());
    assert_eq!(s.resolve(), Some("settings-key".to_string()));
    s.settings_auth_token = Some("settings-token".to_string());
    assert_eq!(s.resolve(), Some("settings-token".to_string()));
    s.provider_auth_token = Some("env-token".to_string());
    assert_eq!(s.resolve(), Some("env-token".to_string()));
    s.provider_api_key = Some("env-key".to_string());
    assert_eq!(s.resolve(), Some("env-key".to_string()));
    s.tool_api_key = Some("tool-key".to_string());
    assert_eq!(s.resolve(), Some("tool-key".to_string()));
}

#[test]
fn default_theme_colors() {
    let m = theme_default::model_segment();
    assert_eq!(m.id, SegmentId::Model);
    assert!(m.enabled);
    assert_eq!(m.icon.plain, "\u{1f916}");
    assert_eq!(m.colors.icon, Some(AnsiColor::Color16 { c16: 14 }));
    assert_eq!(m.colors.background, None);
    let d = theme_default::directory_segment();
    assert_eq!(d.colors.icon, Some(AnsiColor::Color16 { c16: 11 }));
    assert_eq!(d.colors.text, Some(AnsiColor::Color16 { c16: 10 }));
    let c = theme_default::cost_segment();
    assert!(!c.enabled);
    assert!(c.options.is_empty());
}

#[test]
fn nord_and_powerline_backgrounds() {
    assert_eq!(
        theme_nord::usage_segment().colors.background,
        Some(AnsiColor::Rgb { r: 180, g: 142, b: 173 })
    );
    assert_eq!(
        theme_powerline_dark::directory_segment().colors.background,
        Some(AnsiColor::Rgb { r: 139, g: 69, b: 19 })
    );
    assert_eq!(theme_powerline_dark::session_segment().icon.plain, "\u{23f1}\u{fe0f}");
    assert!(!theme_nord::output_style_segment().enabled);
}

#[test]
fn git_segment_hides_sha() {
    let g = theme_nord::git_segment();
    assert_eq!(g.id, SegmentId::Git);
    assert_eq!(g.options.len(), 1);
    assert_eq!(g.options[0].0, "show_sha");
    assert!(matches!(g.options[0].1, OptionValue::Bool(false)));
    assert!(theme_default::git_segment().enabled);
}
