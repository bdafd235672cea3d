use fortune_cookie::config::{port_or_default, Config, DEFAULT_PORT, DEFAULT_PROMPT, PLACEHOLDER_API_KEY};
use fortune_cookie::handler::{
    finish_fortune, start_fortune, FortuneResponse, HandlerStep, UpstreamCall, CONNECTION_FAILED_MESSAGE,
    CRUMBLED_MESSAGE, MISSING_KEY_MESSAGE, SILENT_MESSAGE, STATUS_OK, STATUS_SERVER_ERROR,
};
use fortune_cookie::prompt::compose_prompt;
use fortune_cookie::upstream::{
    classify, Candidate, Content, ContentBlock, Part, TextPart, UpstreamOutcome, UpstreamReply,
    UpstreamRequestBody, UpstreamResponseBody, API_KEY_HEADER, ENDPOINT_URL,
};

fn body_with(candidates: Vec<Vec<&str>>) -> UpstreamResponseBody {
    UpstreamResponseBody {
        candidates: candidates
            .into_iter()
            .map(|parts| Candidate {
                content: Content {
                    parts: parts.into_iter().map(|t| Part { text: t.to_string() }).collect(),
                },
            })
            .collect(),
    }
}

fn configured(key: &str, prompt: &str) -> Config {
    Config::from_settings(Some(key.to_string()), Some(prompt.to_string()), None)
}

fn expect_call(step: HandlerStep) -> UpstreamCall {
    match step {
        HandlerStep::Call(c) => c,
        HandlerStep::Respond(r) => panic!("expected a call, got a reply: {} {}", r.status, r.fortune),
    }
}

fn expect_reply(step: HandlerStep) -> FortuneResponse {
    match step {
        HandlerStep::Respond(r) => r,
        HandlerStep::Call(c) => panic!("expected a reply, got a call to {}", c.url),
    }
}

#[test]
fn extra_is_trimmed_and_labelled() {
    assert_eq!(compose_prompt("Give advice.", " be weird "), "Give advice.\nExtra vibe: be weird");
}

#[test]
fn empty_extra_keeps_base() {
    assert_eq!(compose_prompt("Give advice.", ""), "Give advice.");
}

#[test]
fn whitespace_extra_keeps_base() {
    assert_eq!(compose_prompt("Give advice.", "   "), "Give advice.");
    assert_eq!(compose_prompt("Give advice.", " \t\r\n "), "Give advice.");
    assert_eq!(compose_prompt("Give advice.", "\u{3000}\u{2003}\u{a0}"), "Give advice.");
}

#[test]
fn unicode_whitespace_is_trimmed_from_extra() {
    assert_eq!(compose_prompt("B", "\u{3000} x y\u{2003}"), "B\nExtra vibe: x y");
}

#[test]
fn inner_whitespace_of_extra_is_kept() {
    assert_eq!(compose_prompt("", "\ta  b\n"), "\nExtra vibe: a  b");
}

#[test]
fn request_body_has_single_text() {
    let body = UpstreamRequestBody::for_prompt("hi".to_string());
    assert_eq!(body.contents.len(), 1);
    assert_eq!(body.contents[0].parts.len(), 1);
    assert_eq!(body.contents[0].parts[0].text, "hi");
    assert_eq!(body.to_json(), "{\"contents\":[{\"parts\":[{\"text\":\"hi\"}]}]}");
}

#[test]
fn request_body_escapes_prompt() {
    let body = UpstreamRequestBody::for_prompt("Say \"hi\"\\\n\u{1}/é".to_string());
    assert_eq!(
        body.to_json(),
        "{\"contents\":[{\"parts\":[{\"text\":\"Say \\\"hi\\\"\\\\\\n\\u0001/é\"}]}]}"
    );
}

#[test]
fn request_body_with_several_blocks() {
    let body = UpstreamRequestBody {
        contents: vec![
            ContentBlock {
                parts: vec![TextPart { text: "a".to_string() }, TextPart { text: "b".to_string() }],
            },
            ContentBlock { parts: vec![] },
        ],
    };
    assert_eq!(body.to_json(), "{\"contents\":[{\"parts\":[{\"text\":\"a\"},{\"text\":\"b\"}]},{\"parts\":[]}]}");
}

#[test]
fn placeholder_key_answers_at_once() {
    let config = configured(PLACEHOLDER_API_KEY, "Give advice.");
    assert!(!config.is_configured());
    let reply = expect_reply(start_fortune(&config, Some("be weird")));
    assert_eq!(reply.status, 500);
    assert_eq!(reply.fortune, "API key not configured. Please add GEMINI_API_KEY to your .env file.");
    assert_eq!(reply.fortune, MISSING_KEY_MESSAGE);
}

#[test]
fn missing_key_answers_at_once() {
    let config = Config::from_settings(None, None, None);
    assert_eq!(config.api_key, "your_api_key_here");
    let reply = expect_reply(start_fortune(&config, None));
    assert_eq!(reply.status, STATUS_SERVER_ERROR);
    assert_eq!(reply.fortune, MISSING_KEY_MESSAGE);
}

#[test]
fn configured_key_makes_one_call() {
    let config = configured("secret-key", "Give advice.");
    assert!(config.is_configured());
    let call = expect_call(start_fortune(&config, Some(" be weird ")));
    assert_eq!(call.url, ENDPOINT_URL);
    assert_eq!(
        call.url,
        "https://generativelanguage.googleapis.com/v1beta/models/gemini-2.5-flash:generateContent"
    );
    assert_eq!(call.key_header, API_KEY_HEADER);
    assert_eq!(call.key_header, "x-goog-api-key");
    assert_eq!(call.api_key, "secret-key");
    assert_eq!(
        call.body,
        "{\"contents\":[{\"parts\":[{\"text\":\"Give advice.\\nExtra vibe: be weird\"}]}]}"
    );
}

#[test]
fn no_extra_sends_base_prompt() {
    let config = configured("k", "Give advice.");
    let call = expect_call(start_fortune(&config, None));
    assert_eq!(call.body, "{\"contents\":[{\"parts\":[{\"text\":\"Give advice.\"}]}]}");
    let call = expect_call(start_fortune(&config, Some("  ")));
    assert_eq!(call.body, "{\"contents\":[{\"parts\":[{\"text\":\"Give advice.\"}]}]}");
}

#[test]
fn default_prompt_is_used_when_unset() {
    let config = Config::from_settings(Some("k".to_string()), None, None);
    assert_eq!(config.base_prompt, DEFAULT_PROMPT);
    assert!(config.base_prompt.starts_with("Generate one bizarre, hilariously impractical life advice"));
    let call = expect_call(start_fortune(&config, None));
    assert!(call.body.contains(DEFAULT_PROMPT));
}

#[test]
fn transport_failure_gives_cosmic_fallback() {
    let r = finish_fortune(&UpstreamReply::TransportFailed);
    assert_eq!(r.status, 500);
    assert_eq!(r.fortune, "Connection to the cosmic realm failed.");
    assert_eq!(r.fortune, CONNECTION_FAILED_MESSAGE);
}

#[test]
fn unparsable_reply_gives_silent_fallback() {
    let r = finish_fortune(&UpstreamReply::Unparsable);
    assert_eq!(r.status, 500);
    assert_eq!(r.fortune, "The spirits are silent today.");
    assert_eq!(r.fortune, SILENT_MESSAGE);
}

#[test]
fn empty_candidates_give_crumbled_fallback() {
    let r = finish_fortune(&UpstreamReply::Parsed(body_with(vec![])));
    assert_eq!(r.status, 500);
    assert_eq!(r.fortune, "The cookie crumbled before revealing its wisdom...");
    assert_eq!(r.fortune, CRUMBLED_MESSAGE);
}

#[test]
fn candidate_without_parts_gives_crumbled_fallback() {
    let r = finish_fortune(&UpstreamReply::Parsed(body_with(vec![vec![], vec!["ignored"]])));
    assert_eq!(r.status, 500);
    assert_eq!(r.fortune, CRUMBLED_MESSAGE);
}

#[test]
fn well_formed_reply_gives_its_text() {
    let r = finish_fortune(&UpstreamReply::Parsed(body_with(vec![vec!["Eat more tacos."]])));
    assert_eq!(r.status, 200);
    assert_eq!(r.status, STATUS_OK);
    assert_eq!(r.fortune, "Eat more tacos.");
    assert_eq!(r.to_json(), "{\"fortune\":\"Eat more tacos.\"}");
}

#[test]
fn only_first_part_of_first_candidate_counts() {
    let body = body_with(vec![vec!["first", "second"], vec!["other"]]);
    assert_eq!(body.first_text(), Some("first".to_string()));
    let r = finish_fortune(&UpstreamReply::Parsed(body));
    assert_eq!(r.status, 200);
    assert_eq!(r.fortune, "first");
}

#[test]
fn classify_covers_four_outcomes() {
    assert!(matches!(classify(&UpstreamReply::TransportFailed), UpstreamOutcome::TransportError));
    assert!(matches!(classify(&UpstreamReply::Unparsable), UpstreamOutcome::PayloadError));
    assert!(matches!(classify(&UpstreamReply::Parsed(body_with(vec![]))), UpstreamOutcome::EmptyResult));
    match classify(&UpstreamReply::Parsed(body_with(vec![vec!["x"]]))) {
        UpstreamOutcome::Success(t) => assert_eq!(t, "x"),
        _ => panic!("expected success"),
    }
}

#[test]
fn outcome_maps_to_status_and_text() {
    let r = FortuneResponse::from_outcome(UpstreamOutcome::Success("Nap.".to_string()));
    assert_eq!((r.status, r.fortune.as_str()), (200, "Nap."));
    let r = FortuneResponse::from_outcome(UpstreamOutcome::TransportError);
    assert_eq!((r.status, r.fortune.as_str()), (500, CONNECTION_FAILED_MESSAGE));
    let r = FortuneResponse::from_outcome(UpstreamOutcome::PayloadError);
    assert_eq!((r.status, r.fortune.as_str()), (500, SILENT_MESSAGE));
    let r = FortuneResponse::from_outcome(UpstreamOutcome::EmptyResult);
    assert_eq!((r.status, r.fortune.as_str()), (500, CRUMBLED_MESSAGE));
}

#[test]
fn fortune_json_escapes_text() {
    let r = FortuneResponse { status: 200, fortune: "a\"b\\c\nd\te\u{8}\u{c}\r\u{1f}\u{7f}".to_string() };
    assert_eq!(r.to_json(), "{\"fortune\":\"a\\\"b\\\\c\\nd\\te\\b\\f\\r\\u001f\u{7f}\"}");
}

#[test]
fn port_defaults_when_unset_or_unreadable() {
    assert_eq!(port_or_default(None), 8080);
    assert_eq!(port_or_default(Some("")), DEFAULT_PORT);
    assert_eq!(port_or_default(Some("abc")), 8080);
    assert_eq!(port_or_default(Some("70000")), 8080);
    assert_eq!(port_or_default(Some("-1")), 8080);
    assert_eq!(port_or_default(Some(" 80")), 8080);
    assert_eq!(port_or_default(Some("+")), 8080);
}

#[test]
fn port_is_read_when_valid() {
    assert_eq!(port_or_default(Some("9000")), 9000);
    assert_eq!(port_or_default(Some("+80")), 80);
    assert_eq!(port_or_default(Some("65535")), 65535);
    assert_eq!(port_or_default(Some("007")), 7);
    let config = Config::from_settings(None, None, Some("3000"));
    assert_eq!(config.port, 3000);
}

#[test]
fn repeated_steps_keep_their_shape() {
    let config = configured("k", "P");
    for _ in 0..3 {
        let call = expect_call(start_fortune(&config, Some("x")));
        assert_eq!(call.body, "{\"contents\":[{\"parts\":[{\"text\":\"P\\nExtra vibe: x\"}]}]}");
    }
    let first = finish_fortune(&UpstreamReply::Parsed(body_with(vec![vec!["one"]])));
    let second = finish_fortune(&UpstreamReply::Parsed(body_with(vec![vec!["two"]])));
    assert_eq!((first.status, second.status), (200, 200));
    assert_ne!(first.fortune, second.fortune);
}
