//! Construction of the push-notification request: target URL, `Title`
//! header, optional `Authorization` header, and the JSON body with the
//! three action buttons Call, SMS and WhatsApp.

use crate::controller::opt_str_view;
use vstd::prelude::*;
use vstd::string::StrSliceExecFns;
use vstd::string::StringExecFns;

verus! {

/// What serde_json prints for a string value: the quoted, escaped JSON
/// string literal. A function of the characters alone.
pub uninterp spec fn json_str_lit(s: Seq<char>) -> Seq<char>;

/// Relies on serde_json's `Display` for `Value`, which prints a string
/// value as its JSON string literal (quoted and escaped), determined by the
/// characters alone.
#[verifier::external_body]
fn json_string(s: &str) -> (r: String)
    ensures
        r@ == json_str_lit(s@),
{
    serde_json::Value::String(s.to_string()).to_string()
}

/// `s` with a single leading `+` removed, if present.
pub open spec fn strip_leading_plus(s: Seq<char>) -> Seq<char> {
    if s.len() > 0 && s[0] == '+' {
        s.drop_first()
    } else {
        s
    }
}

/// The `Title` header value for the normalized number `n`.
pub open spec fn spec_title(n: Seq<char>) -> Seq<char> {
    "Call "@ + n
}

/// The `Authorization` header value for the bearer token `tok`.
pub open spec fn spec_auth_value(tok: Seq<char>) -> Seq<char> {
    "Bearer "@ + tok
}

/// The Call action's URL.
pub open spec fn spec_call_url(n: Seq<char>) -> Seq<char> {
    "tel:"@ + n
}

/// The SMS action's URL.
pub open spec fn spec_sms_url(n: Seq<char>) -> Seq<char> {
    "sms:"@ + n
}

/// The WhatsApp action's URL: `https://wa.me/` followed by the message
/// without its leading `+`.
pub open spec fn spec_whatsapp_url(n: Seq<char>) -> Seq<char> {
    "https://wa.me/"@ + strip_leading_plus(n)
}

/// One action descriptor object: `action` is `view`, `clear` is `true`.
pub open spec fn spec_action(label: Seq<char>, url: Seq<char>) -> Seq<char> {
    "{\"action\":\"view\",\"label\":"@ + json_str_lit(label) + ",\"url\":"@ + json_str_lit(url)
        + ",\"clear\":true}"@
}

/// The request body: a JSON object with `topic`, `message` and the three
/// actions Call, SMS and WhatsApp, in that order.
pub open spec fn spec_body(topic: Seq<char>, n: Seq<char>) -> Seq<char> {
    "{\"topic\":"@ + json_str_lit(topic) + ",\"message\":"@ + json_str_lit(n) + ",\"actions\":["@
        + spec_action("Call"@, spec_call_url(n)) + ","@ + spec_action("SMS"@, spec_sms_url(n))
        + ","@ + spec_action("WhatsApp"@, spec_whatsapp_url(n)) + "]}"@
}

/// The topic string sent in the body: the configured one, or empty.
pub open spec fn spec_topic(topic: Option<Seq<char>>) -> Seq<char> {
    match topic {
        Some(t) => t,
        None => Seq::<char>::empty(),
    }
}

/// An outbound publish request, ready for an HTTP client: a POST to `url`
/// with the `Title` header, the optional `Authorization` header, and a JSON
/// body.
pub struct PublishRequest {
    pub url: String,
    pub title: String,
    pub authorization: Option<String>,
    pub body: String,
}

/// `req` is exactly the request owed for the normalized number `n` under
/// the configured token and topic.
pub open spec fn req_wf(
    req: &PublishRequest,
    n: Seq<char>,
    auth: Option<Seq<char>>,
    topic: Option<Seq<char>>,
) -> bool {
    &&& req.url@ == "https://ntfy.sh"@
    &&& req.title@ == spec_title(n)
    &&& (match auth {
        Some(t) => opt_str_view(&req.authorization) == Some(spec_auth_value(t)),
        None => req.authorization is None,
    })
    &&& req.body@ == spec_body(spec_topic(topic), n)
}

/// Appends one action descriptor to the body being built.
fn append_action(body: &mut String, label: &str, url: &str)
    ensures
        final(body)@ == old(body)@ + spec_action(label@, url@),
{
    let jl = json_string(label);
    let ju = json_string(url);
    body.append("{\"action\":\"view\",\"label\":");
    body.append(jl.as_str());
    body.append(",\"url\":");
    body.append(ju.as_str());
    body.append(",\"clear\":true}");
    proof {
        assert(body@ =~= old(body)@ + spec_action(label@, url@));
    }
}

/// Builds the publish request for the non-empty normalized number `n`: a
/// POST to `https://ntfy.sh` titled `Call <n>`, with `Authorization:
/// Bearer <token>` exactly when a token is configured, and the JSON body
/// of [`spec_body`].
pub fn build_publish_request(
    n: &str,
    auth_token: &Option<String>,
    notify_topic: &Option<String>,
) -> (req: PublishRequest)
    ensures
        req_wf(&req, n@, opt_str_view(auth_token), opt_str_view(notify_topic)),
{
    let url = String::from_str("https://ntfy.sh");
    let mut title = String::from_str("Call ");
    title.append(n);
    let authorization = match auth_token {
        Some(t) => {
            let mut a = String::from_str("Bearer ");
            a.append(t.as_str());
            Some(a)
        },
        None => None,
    };
    let topic_str: &str = match notify_topic {
        Some(t) => t.as_str(),
        None => "",
    };
    proof {
        reveal_strlit("");
        assert(topic_str@ =~= spec_topic(opt_str_view(notify_topic)));
    }
    let jt = json_string(topic_str);
    let jm = json_string(n);
    let mut body = String::from_str("{\"topic\":");
    body.append(jt.as_str());
    body.append(",\"message\":");
    body.append(jm.as_str());
    body.append(",\"actions\":[");
    let mut call_url = String::from_str("tel:");
    call_url.append(n);
    append_action(&mut body, "Call", call_url.as_str());
    body.append(",");
    let mut sms_url = String::from_str("sms:");
    sms_url.append(n);
    append_action(&mut body, "SMS", sms_url.as_str());
    body.append(",");
    let ulen = n.unicode_len();
    let stripped: &str = if ulen > 0 && n.get_char(0) == '+' {
        n.substring_char(1, ulen)
    } else {
        n
    };
    proof {
        assert(stripped@ =~= strip_leading_plus(n@));
    }
    let mut wa_url = String::from_str("https://wa.me/");
    wa_url.append(stripped);
    append_action(&mut body, "WhatsApp", wa_url.as_str());
    body.append("]}");
    proof {
        assert(body@ =~= spec_body(spec_topic(opt_str_view(notify_topic)), n@));
    }
    PublishRequest { url, title, authorization, body }
}

} // verus!
