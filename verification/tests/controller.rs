use callinit::config::Config;
use callinit::controller::{FrameInput, MyApp};

fn full_config() -> Config {
    Config {
        auth_token: Some("k".to_string()),
        country_code: Some("1".to_string()),
        notify_topic: Some("t".to_string()),
    }
}

fn idle_frame() -> FrameInput {
    FrameInput {
        completion_received: false,
        enter_pressed: false,
        escape_pressed: false,
    }
}

fn enter_frame() -> FrameInput {
    FrameInput {
        completion_received: false,
        enter_pressed: true,
        escape_pressed: false,
    }
}

fn escape_frame() -> FrameInput {
    FrameInput {
        completion_received: false,
        enter_pressed: false,
        escape_pressed: true,
    }
}

fn completion_frame() -> FrameInput {
    FrameInput {
        completion_received: true,
        enter_pressed: false,
        escape_pressed: false,
    }
}

#[test]
fn clipboard_phone_number_seeds_input_trimmed() {
    let app = MyApp::new(full_config(), Some(" +1 (415) 555-0123 ".to_string()));
    assert_eq!(app.input_text, "+1 (415) 555-0123");
    assert!(app.should_focus);
    assert!(!app.waiting_for_response);
}

#[test]
fn clipboard_prose_leaves_input_empty() {
    let app = MyApp::new(full_config(), Some("Hello world".to_string()));
    assert_eq!(app.input_text, "");
}

#[test]
fn no_clipboard_leaves_input_empty() {
    let app = MyApp::new(full_config(), None);
    assert_eq!(app.input_text, "");
}

#[test]
fn enter_on_clipboard_number_dispatches_full_request() {
    let mut app = MyApp::new(full_config(), Some("(415) 555-0123".to_string()));
    let out = app.on_frame(enter_frame());
    assert!(!out.close_window);
    assert!(out.show_waiting);
    let req = out.dispatch.expect("a publish task must be dispatched");
    assert_eq!(req.url, "https://ntfy.sh");
    assert_eq!(req.title, "Call +14155550123");
    assert_eq!(req.authorization.as_deref(), Some("Bearer k"));
    let v: serde_json::Value = serde_json::from_str(&req.body).unwrap();
    assert_eq!(v["topic"].as_str(), Some("t"));
    assert_eq!(v["message"].as_str(), Some("+14155550123"));
    assert_eq!(v["actions"][0]["url"].as_str(), Some("tel:+14155550123"));
    assert_eq!(v["actions"][1]["url"].as_str(), Some("sms:+14155550123"));
    assert_eq!(v["actions"][2]["url"].as_str(), Some("https://wa.me/14155550123"));
    let out2 = app.on_frame(completion_frame());
    assert!(out2.close_window);
}

#[test]
fn typed_number_without_token_or_topic() {
    let mut app = MyApp::new(
        Config {
            auth_token: None,
            country_code: Some("49".to_string()),
            notify_topic: None,
        },
        None,
    );
    assert_eq!(app.input_text, "");
    app.input_text = "030 1234567".to_string();
    let out = app.on_frame(enter_frame());
    let req = out.dispatch.expect("a publish task must be dispatched");
    assert_eq!(req.authorization, None);
    let v: serde_json::Value = serde_json::from_str(&req.body).unwrap();
    assert_eq!(v["message"].as_str(), Some("+49301234567"));
    assert_eq!(v["topic"].as_str(), Some(""));
}

#[test]
fn second_enter_before_completion_does_not_dispatch() {
    let mut app = MyApp::new(full_config(), None);
    app.input_text = "4155550123".to_string();
    let mut dispatched = 0;
    if app.on_frame(enter_frame()).dispatch.is_some() {
        dispatched += 1;
    }
    if app.on_frame(enter_frame()).dispatch.is_some() {
        dispatched += 1;
    }
    if app.on_frame(enter_frame()).dispatch.is_some() {
        dispatched += 1;
    }
    assert_eq!(dispatched, 1);
}

#[test]
fn completion_signal_closes_window() {
    let mut app = MyApp::new(full_config(), None);
    app.input_text = "4155550123".to_string();
    app.on_frame(enter_frame());
    let out = app.on_frame(completion_frame());
    assert!(out.close_window);
}

#[test]
fn escape_closes_window_in_any_state() {
    let mut idle = MyApp::new(full_config(), None);
    assert!(idle.on_frame(escape_frame()).close_window);
    let mut waiting = MyApp::new(full_config(), None);
    waiting.input_text = "4155550123".to_string();
    waiting.on_frame(enter_frame());
    assert!(waiting.on_frame(escape_frame()).close_window);
}

#[test]
fn escape_on_empty_field_closes_without_dispatch() {
    let mut app = MyApp::new(full_config(), None);
    let out = app.on_frame(escape_frame());
    assert!(out.close_window);
    assert!(out.dispatch.is_none());
}

#[test]
fn enter_on_empty_field_is_a_no_op() {
    let mut app = MyApp::new(full_config(), None);
    let out = app.on_frame(enter_frame());
    assert!(out.dispatch.is_none());
    assert!(!out.show_waiting);
    assert!(!app.waiting_for_response);
}

#[test]
fn empty_normalization_stays_idle_and_keeps_the_sender() {
    let mut app = MyApp::new(
        Config {
            auth_token: None,
            country_code: None,
            notify_topic: None,
        },
        None,
    );
    app.input_text = "abc".to_string();
    let out = app.on_frame(enter_frame());
    assert!(out.dispatch.is_none());
    assert!(!app.waiting_for_response);
    app.input_text = "4155550123".to_string();
    let out2 = app.on_frame(enter_frame());
    assert!(out2.dispatch.is_some());
}

#[test]
fn focus_is_requested_on_first_frame_only() {
    let mut app = MyApp::new(full_config(), None);
    let first = app.on_frame(idle_frame());
    assert!(first.focus_input);
    let second = app.on_frame(idle_frame());
    assert!(!second.focus_input);
}

#[test]
fn completion_after_failed_send_still_closes() {
    // The publish thread reports completion whether or not the HTTP call
    // failed; either way the next frame closes the window.
    let mut app = MyApp::new(full_config(), None);
    app.input_text = "4155550123".to_string();
    let out = app.on_frame(enter_frame());
    assert!(out.dispatch.is_some());
    let closed = app.on_frame(completion_frame());
    assert!(closed.close_window);
}
