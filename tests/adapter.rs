use prompt_enhancer::json::Json;
use prompt_enhancer::models::{models_result, ModelInfo};
use prompt_enhancer::outcome::{connection_result, enhance_result, EnhanceResult, HttpOutcome};
use prompt_enhancer::provider::{
    resolve_base_url, resolve_language, resolve_model, select_provider, system_message,
    user_message, Provider,
};
use prompt_enhancer::request::{connection_request, enhance_request, models_request, Method};
use prompt_enhancer::text::{contains_text, decimal, same_text, strip_trailing_slash};

fn s(t: &str) -> Json {
    Json::Str(t.to_string())
}

fn obj(members: Vec<(&str, Json)>) -> Json {
    Json::Object(members.into_iter().map(|(k, v)| (k.to_string(), v)).collect())
}

fn answered(status: u16, body: Json) -> HttpOutcome {
    HttpOutcome::Answered { status, body: Ok(body) }
}

fn text_of(j: &Json) -> Option<&str> {
    match j {
        Json::Str(t) => Some(t.as_str()),
        _ => None,
    }
}

fn member<'a>(j: &'a Json, key: &str) -> Option<&'a Json> {
    match j {
        Json::Object(es) => es.iter().find(|(k, _)| k == key).map(|(_, v)| v),
        _ => None,
    }
}

fn assert_enhance_shape(r: &EnhanceResult) {
    assert_eq!(r.success, r.enhanced_prompt.is_some());
    assert_eq!(r.success, r.error.is_none());
}

#[test]
fn local_chat_reply_is_returned() {
    let req = enhance_request("", "Do X", "", "ollama", "llama3", "http://localhost:11434");
    assert_eq!(req.url, "http://localhost:11434/api/chat");
    assert_eq!(req.method, Method::Post);
    let body = obj(vec![("message", obj(vec![("content", s("1 - Do X"))]))]);
    let r = enhance_result(Provider::Local, answered(200, body));
    assert!(r.success);
    assert_eq!(r.enhanced_prompt.as_deref(), Some("1 - Do X"));
    assert!(r.error.is_none());
}

#[test]
fn local_chat_without_content_gives_placeholder() {
    let body = obj(vec![("message", obj(vec![("role", s("assistant"))]))]);
    let r = enhance_result(Provider::Local, answered(200, body));
    assert!(r.success);
    assert_eq!(r.enhanced_prompt.as_deref(), Some("No response generated"));
    let r = enhance_result(Provider::Aggregator, answered(200, obj(vec![])));
    assert_eq!(r.enhanced_prompt.as_deref(), Some("No response generated"));
}

#[test]
fn aggregator_chat_reply_is_returned() {
    let choice = obj(vec![("message", obj(vec![("content", s("1 - Plan"))]))]);
    let body = obj(vec![("choices", Json::Array(vec![choice]))]);
    let r = enhance_result(Provider::Aggregator, answered(201, body));
    assert_enhance_shape(&r);
    assert_eq!(r.enhanced_prompt.as_deref(), Some("1 - Plan"));
}

#[test]
fn local_status_error_holds_code() {
    let r = enhance_result(Provider::Local, answered(404, Json::Null));
    assert_enhance_shape(&r);
    assert!(!r.success);
    assert_eq!(r.error.as_deref(), Some("Ollama API Error: 404"));
    let m = models_result(Provider::Local, answered(500, Json::Null));
    assert!(!m.success && m.models.is_none());
    assert_eq!(m.error.as_deref(), Some("Ollama API Error: 500"));
    let c = connection_result(answered(503, Json::Null));
    assert!(!c.success);
    assert_eq!(c.error.as_deref(), Some("Connection failed: 503"));
}

#[test]
fn transport_failure_is_reported() {
    let msg = "error sending request: connection refused";
    let r = enhance_result(Provider::Local, HttpOutcome::Unreachable(msg.to_string()));
    assert_enhance_shape(&r);
    assert_eq!(r.error.as_deref(), Some(msg));
    let m = models_result(Provider::Aggregator, HttpOutcome::Unreachable(msg.to_string()));
    assert!(!m.success && m.models.is_none());
    assert_eq!(m.error.as_deref(), Some(msg));
    let c = connection_result(HttpOutcome::Unreachable(msg.to_string()));
    assert!(!c.success);
    assert_eq!(c.error.as_deref(), Some(msg));
}

#[test]
fn probe_succeeds_on_2xx() {
    let c = connection_result(answered(200, Json::Null));
    assert!(c.success && c.error.is_none());
    let c = connection_result(HttpOutcome::Answered { status: 204, body: Err("eof".to_string()) });
    assert!(c.success);
}

#[test]
fn unreadable_body_on_success_is_an_error() {
    let out = HttpOutcome::Answered { status: 200, body: Err("expected value".to_string()) };
    let r = enhance_result(Provider::Aggregator, out);
    assert_enhance_shape(&r);
    assert_eq!(r.error.as_deref(), Some("expected value"));
}

#[test]
fn aggregator_error_message_precedence() {
    let nested = obj(vec![("error", obj(vec![("message", s("Invalid key"))]))]);
    let r = enhance_result(Provider::Aggregator, answered(401, nested));
    assert_eq!(r.error.as_deref(), Some("Invalid key"));
    let flat = obj(vec![("error", s("Rate limited"))]);
    let r = enhance_result(Provider::Aggregator, answered(429, flat));
    assert_eq!(r.error.as_deref(), Some("Rate limited"));
    let r = enhance_result(Provider::Aggregator, answered(500, obj(vec![])));
    assert_eq!(r.error.as_deref(), Some("API Error"));
    let out = HttpOutcome::Answered { status: 502, body: Err("bad json".to_string()) };
    let m = models_result(Provider::Aggregator, out);
    assert_eq!(m.error.as_deref(), Some("API Error"));
}

#[test]
fn aggregator_listing_keeps_free_tier_in_order() {
    let entry = |id: Json, name: &str| {
        obj(vec![
            ("id", id),
            ("name", s(name)),
            ("context_length", Json::Number("8192".to_string())),
            ("pricing", obj(vec![("prompt", s("0"))])),
        ])
    };
    let data = Json::Array(vec![
        entry(s("a/one:free"), "One"),
        entry(s("b/two"), "Two"),
        entry(Json::Number("3".to_string()), "Three"),
        entry(s("c/four:free"), "Four"),
    ]);
    let m = models_result(Provider::Aggregator, answered(200, obj(vec![("data", data)])));
    assert!(m.success && m.error.is_none());
    let models = m.models.unwrap();
    assert_eq!(models.len(), 2);
    let ids: Vec<String> = models
        .iter()
        .map(|i| match i {
            ModelInfo::Aggregator { id, name, context_length, pricing } => {
                assert!(matches!(name, Json::Str(_)));
                assert!(matches!(context_length, Json::Number(n) if n == "8192"));
                assert!(member(pricing, "prompt").is_some());
                text_of(id).unwrap().to_string()
            }
            ModelInfo::Local { .. } => panic!("wrong provider"),
        })
        .collect();
    assert_eq!(ids, vec!["a/one:free".to_string(), "c/four:free".to_string()]);
    for id in &ids {
        assert!(id.contains(":free"));
    }
}

#[test]
fn aggregator_listing_without_data_is_empty() {
    let m = models_result(Provider::Aggregator, answered(200, obj(vec![])));
    assert!(m.success);
    assert!(m.models.unwrap().is_empty());
}

#[test]
fn local_listing_maps_entries_in_order() {
    let models = Json::Array(vec![
        obj(vec![
            ("name", s("llama3:8b")),
            ("size", Json::Number("4661224676".to_string())),
            ("modified_at", s("2024-05-01T10:00:00Z")),
        ]),
        obj(vec![("size", Json::Number("1".to_string()))]),
    ]);
    let m = models_result(Provider::Local, answered(200, obj(vec![("models", models)])));
    assert!(m.success);
    let list = m.models.unwrap();
    assert_eq!(list.len(), 2);
    match &list[0] {
        ModelInfo::Local { id, name, size, modified_at } => {
            assert_eq!(id, "llama3:8b");
            assert_eq!(name, "llama3:8b");
            assert!(matches!(size, Json::Number(n) if n == "4661224676"));
            assert_eq!(text_of(modified_at), Some("2024-05-01T10:00:00Z"));
        }
        _ => panic!("wrong provider"),
    }
    match &list[1] {
        ModelInfo::Local { id, name, modified_at, .. } => {
            assert_eq!(id, "");
            assert_eq!(name, "");
            assert!(matches!(modified_at, Json::Null));
        }
        _ => panic!("wrong provider"),
    }
}

#[test]
fn empty_inputs_take_defaults() {
    assert_eq!(select_provider(""), Provider::Aggregator);
    assert_eq!(select_provider("openrouter"), Provider::Aggregator);
    assert_eq!(select_provider("ollama"), Provider::Local);
    assert_eq!(resolve_model(""), "z-ai/glm-4.5-air:free");
    assert_eq!(resolve_model("m"), "m");
    assert_eq!(resolve_language(""), "English");
    assert_eq!(resolve_language("Deutsch"), "Deutsch");
    assert_eq!(resolve_base_url(""), "http://localhost:11434");
    let req = enhance_request("k", "p", "", "", "", "");
    assert_eq!(req.url, "https://openrouter.ai/api/v1/chat/completions");
    let body = req.body.unwrap();
    assert_eq!(member(&body, "model").and_then(text_of), Some("z-ai/glm-4.5-air:free"));
}

#[test]
fn trailing_slash_stripped_once() {
    assert_eq!(resolve_base_url("http://host:1234/"), "http://host:1234");
    assert_eq!(resolve_base_url("http://host:1234"), "http://host:1234");
    assert_eq!(resolve_base_url("http://host:1234//"), "http://host:1234/");
    assert_eq!(strip_trailing_slash("/"), "");
    let req = connection_request("http://host:1234/");
    assert_eq!(req.url, "http://host:1234/api/tags");
    assert_eq!(req.timeout_secs, 10);
}

#[test]
fn aggregator_chat_request_shape() {
    let req = enhance_request("sk-1", "Build it", "French", "openrouter", "x/y", "");
    assert_eq!(req.method, Method::Post);
    assert_eq!(req.timeout_secs, 60);
    let names: Vec<(&str, &str)> =
        req.headers.iter().map(|(k, v)| (k.as_str(), v.as_str())).collect();
    assert_eq!(
        names,
        vec![
            ("Authorization", "Bearer sk-1"),
            ("Content-Type", "application/json"),
            ("HTTP-Referer", "AI Prompt Enhancer"),
            ("X-Title", "AI Prompt Enhancer"),
        ]
    );
    let body = req.body.unwrap();
    assert_eq!(member(&body, "model").and_then(text_of), Some("x/y"));
    assert!(matches!(member(&body, "temperature"), Some(Json::Number(n)) if n == "0.7"));
    assert!(matches!(member(&body, "max_tokens"), Some(Json::Number(n)) if n == "2000"));
    assert!(member(&body, "stream").is_none());
    match member(&body, "messages") {
        Some(Json::Array(ms)) => {
            assert_eq!(ms.len(), 2);
            assert_eq!(member(&ms[0], "role").and_then(text_of), Some("system"));
            let sys = member(&ms[0], "content").and_then(text_of).unwrap();
            assert!(sys.contains("Output MUST be in French regardless"));
            assert!(sys.ends_with("MUST be written in French."));
            assert_eq!(member(&ms[1], "role").and_then(text_of), Some("user"));
            let user = member(&ms[1], "content").and_then(text_of).unwrap();
            assert_eq!(
                user,
                "Transform this prompt into an optimized version for AI coding assistants:\n\nBuild it"
            );
        }
        _ => panic!("messages missing"),
    }
}

#[test]
fn local_chat_request_shape() {
    let req = enhance_request("", "p", "", "ollama", "", "http://127.0.0.1:9999/");
    assert_eq!(req.url, "http://127.0.0.1:9999/api/chat");
    assert!(req.headers.is_empty());
    let body = req.body.unwrap();
    assert!(matches!(member(&body, "stream"), Some(Json::Bool(false))));
    assert!(member(&body, "temperature").is_none());
}

#[test]
fn listing_requests() {
    let req = models_request("", "key", "");
    assert_eq!(req.url, "https://openrouter.ai/api/v1/models");
    assert_eq!(req.method, Method::Get);
    assert_eq!(req.timeout_secs, 30);
    assert_eq!(req.headers[0].1, "Bearer key");
    assert!(req.body.is_none());
    let req = models_request("ollama", "key", "http://box:11434/");
    assert_eq!(req.url, "http://box:11434/api/tags");
    assert!(req.headers.is_empty());
}

#[test]
fn text_helpers() {
    assert_eq!(decimal(0), "0");
    assert_eq!(decimal(7), "7");
    assert_eq!(decimal(10), "10");
    assert_eq!(decimal(404), "404");
    assert_eq!(decimal(65535), "65535");
    assert!(contains_text("meta/llama:free", ":free"));
    assert!(!contains_text("meta/llama:fre", ":free"));
    assert!(contains_text("abc", ""));
    assert!(!contains_text("", ":free"));
    assert!(same_text("ollama", "ollama"));
    assert!(!same_text("ollama", "Ollama"));
    assert!(system_message("English").contains("Output MUST be in English regardless"));
    assert!(user_message("x").ends_with("\n\nx"));
}
