use callinit::publish::build_publish_request;

#[test]
fn request_has_fixed_endpoint_and_title() {
    let req = build_publish_request("+14155550123", &None, &None);
    assert_eq!(req.url, "https://ntfy.sh");
    assert_eq!(req.title, "Call +14155550123");
}

#[test]
fn auth_header_present_iff_token_configured() {
    let with = build_publish_request("+14155550123", &Some("abc123".to_string()), &None);
    assert_eq!(with.authorization.as_deref(), Some("Bearer abc123"));
    let without = build_publish_request("+14155550123", &None, &None);
    assert_eq!(without.authorization, None);
}

#[test]
fn body_is_exactly_the_documented_json() {
    let req = build_publish_request(
        "+14155550123",
        &Some("k".to_string()),
        &Some("t".to_string()),
    );
    let expected = "{\"topic\":\"t\",\"message\":\"+14155550123\",\"actions\":[{\"action\":\"view\",\"label\":\"Call\",\"url\":\"tel:+14155550123\",\"clear\":true},{\"action\":\"view\",\"label\":\"SMS\",\"url\":\"sms:+14155550123\",\"clear\":true},{\"action\":\"view\",\"label\":\"WhatsApp\",\"url\":\"https://wa.me/14155550123\",\"clear\":true}]}";
    assert_eq!(req.body, expected);
}

#[test]
fn absent_topic_becomes_empty_string() {
    let req = build_publish_request("+49301234567", &None, &None);
    let v: serde_json::Value = serde_json::from_str(&req.body).unwrap();
    assert_eq!(v["topic"].as_str(), Some(""));
    assert_eq!(v["message"].as_str(), Some("+49301234567"));
}

#[test]
fn whatsapp_url_strips_single_leading_plus() {
    let req = build_publish_request("+14155550123", &None, &None);
    let v: serde_json::Value = serde_json::from_str(&req.body).unwrap();
    assert_eq!(v["actions"][2]["url"].as_str(), Some("https://wa.me/14155550123"));
}

#[test]
fn whatsapp_url_unchanged_without_plus() {
    let req = build_publish_request("14155550123", &None, &None);
    let v: serde_json::Value = serde_json::from_str(&req.body).unwrap();
    assert_eq!(v["actions"][2]["url"].as_str(), Some("https://wa.me/14155550123"));
}

#[test]
fn action_order_and_urls() {
    let req = build_publish_request("+491701234567", &None, &Some("t".to_string()));
    let v: serde_json::Value = serde_json::from_str(&req.body).unwrap();
    let actions = v["actions"].as_array().unwrap();
    assert_eq!(actions.len(), 3);
    for a in actions {
        assert_eq!(a["action"].as_str(), Some("view"));
        assert_eq!(a["clear"].as_bool(), Some(true));
    }
    assert_eq!(actions[0]["label"].as_str(), Some("Call"));
    assert_eq!(actions[0]["url"].as_str(), Some("tel:+491701234567"));
    assert_eq!(actions[1]["label"].as_str(), Some("SMS"));
    assert_eq!(actions[1]["url"].as_str(), Some("sms:+491701234567"));
    assert_eq!(actions[2]["label"].as_str(), Some("WhatsApp"));
    assert_eq!(actions[2]["url"].as_str(), Some("https://wa.me/491701234567"));
}

#[test]
fn topic_is_json_escaped() {
    let req = build_publish_request("+1", &None, &Some("a\"b\\c".to_string()));
    assert!(req.body.starts_with("{\"topic\":\"a\\\"b\\\\c\","));
    let v: serde_json::Value = serde_json::from_str(&req.body).unwrap();
    assert_eq!(v["topic"].as_str(), Some("a\"b\\c"));
}
