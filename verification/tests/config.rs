use callinit::config::parse_config;

#[test]
fn full_config_is_read() {
    let text = "[auth]\ntoken = abc123\n[phone]\ncountry_code = 49\n[notify]\ntopic = calls\n";
    let cfg = parse_config(text);
    assert_eq!(cfg.auth_token.as_deref(), Some("abc123"));
    assert_eq!(cfg.country_code.as_deref(), Some("49"));
    assert_eq!(cfg.notify_topic.as_deref(), Some("calls"));
}

#[test]
fn missing_sections_yield_absent_fields() {
    let cfg = parse_config("[phone]\ncountry_code = 1\n");
    assert_eq!(cfg.auth_token, None);
    assert_eq!(cfg.country_code.as_deref(), Some("1"));
    assert_eq!(cfg.notify_topic, None);
}

#[test]
fn empty_text_yields_all_absent() {
    let cfg = parse_config("");
    assert_eq!(cfg.auth_token, None);
    assert_eq!(cfg.country_code, None);
    assert_eq!(cfg.notify_topic, None);
}

#[test]
fn missing_key_in_present_section_is_absent() {
    let cfg = parse_config("[auth]\nuser = x\n");
    assert_eq!(cfg.auth_token, None);
}

#[test]
fn key_outside_its_section_is_not_found() {
    let cfg = parse_config("token = abc\n[phone]\ntoken = def\n");
    assert_eq!(cfg.auth_token, None);
}

#[test]
fn later_binding_wins() {
    let cfg = parse_config("[auth]\ntoken = first\ntoken = second\n");
    assert_eq!(cfg.auth_token.as_deref(), Some("second"));
}

#[test]
fn comments_are_ignored() {
    let cfg = parse_config("[auth]\n; token = commented\n# token = also\ntoken = real\n");
    assert_eq!(cfg.auth_token.as_deref(), Some("real"));
}

#[test]
fn whitespace_is_trimmed_everywhere() {
    let cfg = parse_config("  [auth]  \n   token   =   padded value  \n");
    assert_eq!(cfg.auth_token.as_deref(), Some("padded value"));
}

#[test]
fn crlf_line_endings_are_accepted() {
    let cfg = parse_config("[auth]\r\ntoken = abc\r\n[notify]\r\ntopic = t\r\n");
    assert_eq!(cfg.auth_token.as_deref(), Some("abc"));
    assert_eq!(cfg.notify_topic.as_deref(), Some("t"));
}

#[test]
fn value_may_contain_equals_sign() {
    let cfg = parse_config("[auth]\ntoken = a=b=c\n");
    assert_eq!(cfg.auth_token.as_deref(), Some("a=b=c"));
}

#[test]
fn section_resets_on_new_header() {
    let cfg = parse_config("[auth]\n[notify]\ntoken = wrong\ntopic = t\n");
    assert_eq!(cfg.auth_token, None);
    assert_eq!(cfg.notify_topic.as_deref(), Some("t"));
}
