//! Handling one fortune request, in two steps around the one outbound call:
//! deciding whether to call and with what, then mapping what came back to
//! the reply for the caller.
use vstd::prelude::*;
use crate::config::Config;
use crate::prompt::{compose_prompt, composed_prompt};
use crate::text::{json_quote, json_quoted};
use crate::upstream::{
    classifies, classify, first_text_of, request_json, UpstreamOutcome, UpstreamReply,
    UpstreamRequestBody, API_KEY_HEADER, ENDPOINT_URL,
};

verus! {

/// The status of a reply that carries advice.
pub const STATUS_OK: u16 = 200;

/// The status of a reply that carries a fallback message.
pub const STATUS_SERVER_ERROR: u16 = 500;

/// Sent when no real service key is configured.
pub const MISSING_KEY_MESSAGE: &'static str = "API key not configured. Please add GEMINI_API_KEY to your .env file.";

/// Sent when the call to the service failed.
pub const CONNECTION_FAILED_MESSAGE: &'static str = "Connection to the cosmic realm failed.";

/// Sent when the service's reply could not be read.
pub const SILENT_MESSAGE: &'static str = "The spirits are silent today.";

/// Sent when the service's reply held no text.
pub const CRUMBLED_MESSAGE: &'static str = "The cookie crumbled before revealing its wisdom...";

/// What the caller receives: a status and the fortune text.
pub struct FortuneResponse {
    pub status: u16,
    pub fortune: String,
}

/// The JSON body of a reply whose fortune is `fortune`.
pub open spec fn fortune_json(fortune: Seq<char>) -> Seq<char> {
    "{\"fortune\":"@ + json_quoted(fortune) + "}"@
}

/// The status sent for outcome `o`.
pub open spec fn outcome_status(o: &UpstreamOutcome) -> u16 {
    match o {
        UpstreamOutcome::Success(_) => STATUS_OK,
        _ => STATUS_SERVER_ERROR,
    }
}

/// The fortune text sent for outcome `o`.
pub open spec fn outcome_fortune(o: &UpstreamOutcome) -> Seq<char> {
    match o {
        UpstreamOutcome::Success(t) => t@,
        UpstreamOutcome::TransportError => CONNECTION_FAILED_MESSAGE@,
        UpstreamOutcome::PayloadError => SILENT_MESSAGE@,
        UpstreamOutcome::EmptyResult => CRUMBLED_MESSAGE@,
    }
}

/// The status sent for what a call gave back.
pub open spec fn reply_status(reply: &UpstreamReply) -> u16 {
    match reply {
        UpstreamReply::Parsed(body) => if first_text_of(body@) is Some {
            STATUS_OK
        } else {
            STATUS_SERVER_ERROR
        },
        _ => STATUS_SERVER_ERROR,
    }
}

/// The fortune text sent for what a call gave back.
pub open spec fn reply_fortune(reply: &UpstreamReply) -> Seq<char> {
    match reply {
        UpstreamReply::TransportFailed => CONNECTION_FAILED_MESSAGE@,
        UpstreamReply::Unparsable => SILENT_MESSAGE@,
        UpstreamReply::Parsed(body) => match first_text_of(body@) {
            Some(t) => t,
            None => CRUMBLED_MESSAGE@,
        },
    }
}

impl FortuneResponse {
    /// The reply for an outcome: its text with status 200 on success, else
    /// the outcome's fixed message with status 500.
    pub fn from_outcome(o: UpstreamOutcome) -> (r: FortuneResponse)
        ensures
            r.status == outcome_status(&o),
            r.fortune@ == outcome_fortune(&o),
    {
        match o {
            UpstreamOutcome::Success(t) => FortuneResponse { status: STATUS_OK, fortune: t },
            UpstreamOutcome::TransportError => FortuneResponse {
                status: STATUS_SERVER_ERROR,
                fortune: String::from_str(CONNECTION_FAILED_MESSAGE),
            },
            UpstreamOutcome::PayloadError => FortuneResponse {
                status: STATUS_SERVER_ERROR,
                fortune: String::from_str(SILENT_MESSAGE),
            },
            UpstreamOutcome::EmptyResult => FortuneResponse {
                status: STATUS_SERVER_ERROR,
                fortune: String::from_str(CRUMBLED_MESSAGE),
            },
        }
    }

    /// The reply's JSON body: an object with the one field `fortune`.
    pub fn to_json(&self) -> (r: String)
        ensures
            r@ == fortune_json(self.fortune@),
    {
        let mut out = String::from_str("{\"fortune\":");
        let quoted = json_quote(self.fortune.as_str());
        out.append(quoted.as_str());
        out.append("}");
        out
    }
}

/// The one outbound call a request makes.
pub struct UpstreamCall {
    /// Where the request is posted.
    pub url: String,
    /// The header that carries the key.
    pub key_header: String,
    /// The service key.
    pub api_key: String,
    /// The JSON request body.
    pub body: String,
}

/// What to do next with a request.
pub enum HandlerStep {
    /// Answer at once, with no outbound call.
    Respond(FortuneResponse),
    /// Make this call, then finish with what it gave back.
    Call(UpstreamCall),
}

/// The extra text of a request; none counts as empty.
pub open spec fn extra_text(extra: Option<&str>) -> Seq<char> {
    match extra {
        Some(e) => e@,
        None => Seq::empty(),
    }
}

/// The first step of a request: without a real key, answer 500 with the
/// fixed configuration message and call nothing; else post the body
/// for the composed prompt to the endpoint, with the key in its header.
pub fn start_fortune(config: &Config, extra: Option<&str>) -> (r: HandlerStep)
    ensures
        r is Respond <==> !config.configured(),
        r matches HandlerStep::Respond(resp) ==> resp.status == STATUS_SERVER_ERROR
            && resp.fortune@ == MISSING_KEY_MESSAGE@,
        r matches HandlerStep::Call(call) ==> {
            &&& call.url@ == ENDPOINT_URL@
            &&& call.key_header@ == API_KEY_HEADER@
            &&& call.api_key@ == config.api_key@
            &&& call.body@ == request_json(
                seq![seq![composed_prompt(config.base_prompt@, extra_text(extra))]],
            )
        },
{
    if !config.is_configured() {
        return HandlerStep::Respond(
            FortuneResponse {
                status: STATUS_SERVER_ERROR,
                fortune: String::from_str(MISSING_KEY_MESSAGE),
            },
        );
    }
    let extra = match extra {
        Some(e) => e,
        None => "",
    };
    proof {
        reveal_strlit("");
    }
    let prompt = compose_prompt(config.base_prompt.as_str(), extra);
    let body = UpstreamRequestBody::for_prompt(prompt);
    HandlerStep::Call(
        UpstreamCall {
            url: String::from_str(ENDPOINT_URL),
            key_header: String::from_str(API_KEY_HEADER),
            api_key: config.api_key.clone(),
            body: body.to_json(),
        },
    )
}

/// The second step of a request: the reply for what the call gave back.
pub fn finish_fortune(reply: &UpstreamReply) -> (r: FortuneResponse)
    ensures
        r.status == reply_status(reply),
        r.fortune@ == reply_fortune(reply),
{
    let o = classify(reply);
    assert(classifies(reply, &o));
    FortuneResponse::from_outcome(o)
}

} // verus!
