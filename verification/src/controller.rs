//! The application state owned by the window loop, and the per-frame state
//! machine: seed the input from the clipboard, dispatch one publish task on
//! a confirmed non-empty number, close on completion or on Escape.

use crate::config::Config;
use crate::phone::{spec_looks_like_phone, spec_normalize};
use crate::publish::{build_publish_request, req_wf, PublishRequest};
use crate::strutil::{spec_trim, trim_str};
use vstd::prelude::*;
use vstd::string::StrSliceExecFns;
use vstd::string::StringExecFns;

verus! {

/// State of the one-window application. `sender_available` models ownership
/// of the completion channel's producer: it is consumed when a publish task
/// is dispatched, which enforces that at most one task is ever in flight.
pub struct MyApp {
    pub input_text: String,
    pub should_focus: bool,
    pub sender_available: bool,
    pub waiting_for_response: bool,
    pub auth_token: Option<String>,
    pub country_code: Option<String>,
    pub notify_topic: Option<String>,
}

/// The view of an optional string as an optional character sequence.
pub open spec fn opt_str_view(o: &Option<String>) -> Option<Seq<char>> {
    match o {
        Some(s) => Some(s@),
        None => None,
    }
}

/// What the input field is seeded with: the clipboard text trimmed, when it
/// looks like a phone number; otherwise empty.
pub open spec fn spec_clipboard_seed(t: Option<Seq<char>>) -> Seq<char> {
    match t {
        Some(s) => if spec_looks_like_phone(s) {
            spec_trim(s)
        } else {
            Seq::<char>::empty()
        },
        None => Seq::<char>::empty(),
    }
}

/// Once a task is in flight, the sender has been consumed.
pub open spec fn state_inv(app: &MyApp) -> bool {
    app.waiting_for_response ==> !app.sender_available
}

/// What the window loop reports to the state machine for one frame.
#[derive(Clone, Copy)]
pub struct FrameInput {
    /// The completion channel delivered a signal this frame.
    pub completion_received: bool,
    /// The input field committed its text with Enter this frame.
    pub enter_pressed: bool,
    /// Escape was pressed this frame.
    pub escape_pressed: bool,
}

/// What the window loop must do after one frame.
pub struct FrameOutput {
    pub close_window: bool,
    pub focus_input: bool,
    pub show_waiting: bool,
    /// A publish task to start, at most one per whole session.
    pub dispatch: Option<PublishRequest>,
}

impl MyApp {
    /// Builds the startup state: configuration embedded, input seeded from
    /// the clipboard text when it looks like a phone number, focus
    /// requested for the first frame, no task in flight.
    pub fn new(config: Config, clipboard_text: Option<String>) -> (app: MyApp)
        ensures
            app.input_text@ == spec_clipboard_seed(opt_str_view(&clipboard_text)),
            app.should_focus == true,
            app.sender_available == true,
            app.waiting_for_response == false,
            app.auth_token == config.auth_token,
            app.country_code == config.country_code,
            app.notify_topic == config.notify_topic,
            state_inv(&app),
    {
        let input_text = match &clipboard_text {
            Some(t) => {
                if MyApp::looks_like_phone_number(t.as_str()) {
                    String::from_str(trim_str(t.as_str()))
                } else {
                    String::new()
                }
            },
            None => String::new(),
        };
        MyApp {
            input_text,
            should_focus: true,
            sender_available: true,
            waiting_for_response: false,
            auth_token: config.auth_token,
            country_code: config.country_code,
            notify_topic: config.notify_topic,
        }
    }

    /// Dispatches the one publish task: normalizes the input; when the
    /// result is non-empty and the sender is still held, consumes the
    /// sender, marks the state waiting and returns the request to send.
    /// Otherwise nothing changes and nothing is dispatched.
    pub fn send_http_request(&mut self) -> (dispatch: Option<PublishRequest>)
        ensures
            ({
                let n = spec_normalize(
                    old(self).input_text@,
                    opt_str_view(&old(self).country_code),
                );
                if n.len() > 0 && old(self).sender_available {
                    &&& dispatch matches Some(req) && req_wf(
                        &req,
                        n,
                        opt_str_view(&old(self).auth_token),
                        opt_str_view(&old(self).notify_topic),
                    )
                    &&& final(self).sender_available == false
                    &&& final(self).waiting_for_response == true
                } else {
                    &&& dispatch is None
                    &&& final(self).sender_available == old(self).sender_available
                    &&& final(self).waiting_for_response == old(self).waiting_for_response
                }
            }),
            final(self).input_text == old(self).input_text,
            final(self).should_focus == old(self).should_focus,
            final(self).auth_token == old(self).auth_token,
            final(self).country_code == old(self).country_code,
            final(self).notify_topic == old(self).notify_topic,
            state_inv(old(self)) ==> state_inv(final(self)),
    {
        let input = self.input_text.clone();
        let text = self.format_e164(input.as_str());
        if text.as_str().unicode_len() == 0 {
            return None;
        }
        if !self.sender_available {
            return None;
        }
        let req = build_publish_request(text.as_str(), &self.auth_token, &self.notify_topic);
        self.sender_available = false;
        self.waiting_for_response = true;
        Some(req)
    }

    /// One frame of the window loop. A completion signal closes the window
    /// and changes nothing else; otherwise the one-shot focus flag is
    /// consumed, Enter on a non-empty field dispatches the publish task
    /// unless one is already in flight, and Escape closes the window in
    /// any state.
    pub fn on_frame(&mut self, input: FrameInput) -> (out: FrameOutput)
        ensures
            input.completion_received ==> out.close_window && out.dispatch is None && *final(self)
                == *old(self),
            out.close_window == (input.completion_received || input.escape_pressed),
            old(self).waiting_for_response ==> out.dispatch is None,
            !input.completion_received ==> ({
                let submit = input.enter_pressed && old(self).input_text@.len() > 0 && !old(
                    self,
                ).waiting_for_response;
                let n = spec_normalize(
                    old(self).input_text@,
                    opt_str_view(&old(self).country_code),
                );
                &&& out.focus_input == old(self).should_focus
                &&& final(self).should_focus == false
                &&& out.show_waiting == final(self).waiting_for_response
                &&& if submit && n.len() > 0 && old(self).sender_available {
                    &&& out.dispatch matches Some(req) && req_wf(
                        &req,
                        n,
                        opt_str_view(&old(self).auth_token),
                        opt_str_view(&old(self).notify_topic),
                    )
                    &&& final(self).sender_available == false
                    &&& final(self).waiting_for_response == true
                } else {
                    &&& out.dispatch is None
                    &&& final(self).sender_available == old(self).sender_available
                    &&& final(self).waiting_for_response == old(self).waiting_for_response
                }
            }),
            final(self).input_text == old(self).input_text,
            final(self).auth_token == old(self).auth_token,
            final(self).country_code == old(self).country_code,
            final(self).notify_topic == old(self).notify_topic,
            state_inv(old(self)) ==> state_inv(final(self)),
    {
        if input.completion_received {
            return FrameOutput {
                close_window: true,
                focus_input: false,
                show_waiting: false,
                dispatch: None,
            };
        }
        let focus_input = self.should_focus;
        self.should_focus = false;
        let mut dispatch: Option<PublishRequest> = None;
        if input.enter_pressed && !self.input_text.as_str().is_empty()
            && !self.waiting_for_response {
            dispatch = self.send_http_request();
        }
        FrameOutput {
            close_window: input.escape_pressed,
            focus_input,
            show_waiting: self.waiting_for_response,
            dispatch,
        }
    }
}

} // verus!
