//! The HTTP request that each operation sends, as plain data.
use vstd::prelude::*;
use crate::json::{Json, text_of};
use crate::provider::{
    Provider, provider_named, model_or_default, language_or_default, base_url_of, system_message_of,
    user_message_of, select_provider, resolve_language, resolve_model, resolve_base_url,
    system_message, user_message, APP_TITLE, AGGREGATOR_CHAT_URL, AGGREGATOR_MODELS_URL,
    LOCAL_CHAT_PATH, LOCAL_TAGS_PATH,
};

verus! {

/// How long the chat request may take, in seconds.
pub const CHAT_TIMEOUT_SECS: u64 = 60;

/// How long listing models may take, in seconds.
pub const MODELS_TIMEOUT_SECS: u64 = 30;

/// How long the connectivity probe may take, in seconds.
pub const PROBE_TIMEOUT_SECS: u64 = 10;

/// The HTTP verb of a request.
#[derive(PartialEq, Eq, Structural, Clone, Copy, Debug)]
pub enum Method {
    Get,
    Post,
}

/// An outbound request: verb, absolute URL, headers in order, an optional
/// JSON body and the overall time limit.
pub struct HttpRequest {
    pub method: Method,
    pub url: String,
    pub headers: Vec<(String, String)>,
    pub body: Option<Json>,
    pub timeout_secs: u64,
}

pub open spec fn is_text(j: Json, s: Seq<char>) -> bool {
    text_of(j) == Some(s)
}

pub open spec fn is_number(j: Json, s: Seq<char>) -> bool {
    j matches Json::Number(n) && n@ == s
}

/// `h` is the header `name: value`.
pub open spec fn is_header(h: (String, String), name: Seq<char>, value: Seq<char>) -> bool {
    h.0@ == name && h.1@ == value
}

/// `j` is the chat message `{"role": role, "content": content}`.
pub open spec fn is_message(j: Json, role: Seq<char>, content: Seq<char>) -> bool {
    &&& j matches Json::Object(es)
    &&& es@.len() == 2
    &&& es@[0].0@ == "role"@ && is_text(es@[0].1, role)
    &&& es@[1].0@ == "content"@ && is_text(es@[1].1, content)
}

/// `j` is the chat request body for `provider`: the model, the system and
/// user messages, then `"stream": false` for the local server, or
/// `"temperature": 0.7, "max_tokens": 2000` for the aggregator.
pub open spec fn is_chat_body(
    j: Json,
    provider: Provider,
    model: Seq<char>,
    system: Seq<char>,
    user: Seq<char>,
) -> bool {
    &&& j matches Json::Object(es)
    &&& es@.len() >= 3
    &&& es@[0].0@ == "model"@ && is_text(es@[0].1, model)
    &&& es@[1].0@ == "messages"@
    &&& es@[1].1 matches Json::Array(ms)
    &&& ms@.len() == 2
    &&& is_message(ms@[0], "system"@, system)
    &&& is_message(ms@[1], "user"@, user)
    &&& match provider {
        Provider::Local => {
            &&& es@.len() == 3
            &&& es@[2].0@ == "stream"@ && es@[2].1 == Json::Bool(false)
        },
        Provider::Aggregator => {
            &&& es@.len() == 4
            &&& es@[2].0@ == "temperature"@ && is_number(es@[2].1, "0.7"@)
            &&& es@[3].0@ == "max_tokens"@ && is_number(es@[3].1, "2000"@)
        },
    }
}

/// The bearer credential for `key`.
pub open spec fn bearer_of(key: Seq<char>) -> Seq<char> {
    "Bearer "@ + key
}

fn text_member(name: &str, value: String) -> (r: (String, Json))
    ensures
        r.0@ == name@,
        is_text(r.1, value@),
{
    (String::from_str(name), Json::Str(value))
}

fn header(name: &str, value: String) -> (r: (String, String))
    ensures
        is_header(r, name@, value@),
{
    (String::from_str(name), value)
}

fn chat_message(role: &str, content: String) -> (r: Json)
    ensures
        is_message(r, role@, content@),
{
    let mut es: Vec<(String, Json)> = Vec::new();
    es.push(text_member("role", String::from_str(role)));
    es.push(text_member("content", content));
    Json::Object(es)
}

fn number(text: &str) -> (r: Json)
    ensures
        is_number(r, text@),
{
    Json::Number(String::from_str(text))
}

fn bearer(api_key: &str) -> (r: String)
    ensures
        r@ == bearer_of(api_key@),
{
    let mut s = String::from_str("Bearer ");
    s.append(api_key);
    s
}

fn join(base: String, path: &str) -> (r: String)
    ensures
        r@ == base@ + path@,
{
    let mut s = base;
    s.append(path);
    s
}

/// The request that asks `provider` to rewrite `prompt`. Empty inputs take
/// their defaults; the local server gets its chat endpoint under the
/// normalised base URL, the aggregator its fixed endpoint with the bearer key
/// and the application's identifying headers.
pub fn enhance_request(
    api_key: &str,
    prompt: &str,
    language: &str,
    provider: &str,
    model: &str,
    server_url: &str,
) -> (r: HttpRequest)
    ensures
        r.method == Method::Post,
        r.timeout_secs == CHAT_TIMEOUT_SECS,
        r.body matches Some(b) && is_chat_body(
            b,
            provider_named(provider@),
            model_or_default(model@),
            system_message_of(language_or_default(language@)),
            user_message_of(prompt@),
        ),
        provider_named(provider@) == Provider::Local ==> {
            &&& r.url@ == base_url_of(server_url@) + LOCAL_CHAT_PATH@
            &&& r.headers@.len() == 0
        },
        provider_named(provider@) == Provider::Aggregator ==> {
            &&& r.url@ == AGGREGATOR_CHAT_URL@
            &&& r.headers@.len() == 4
            &&& is_header(r.headers@[0], "Authorization"@, bearer_of(api_key@))
            &&& is_header(r.headers@[1], "Content-Type"@, "application/json"@)
            &&& is_header(r.headers@[2], "HTTP-Referer"@, APP_TITLE@)
            &&& is_header(r.headers@[3], "X-Title"@, APP_TITLE@)
        },
{
    let chosen = select_provider(provider);
    let lang = resolve_language(language);
    let mut messages: Vec<Json> = Vec::new();
    messages.push(chat_message("system", system_message(lang.as_str())));
    messages.push(chat_message("user", user_message(prompt)));
    let mut es: Vec<(String, Json)> = Vec::new();
    es.push(text_member("model", resolve_model(model)));
    es.push((String::from_str("messages"), Json::Array(messages)));
    let mut headers: Vec<(String, String)> = Vec::new();
    let url = match chosen {
        Provider::Local => {
            es.push((String::from_str("stream"), Json::Bool(false)));
            join(resolve_base_url(server_url), LOCAL_CHAT_PATH)
        },
        Provider::Aggregator => {
            es.push((String::from_str("temperature"), number("0.7")));
            es.push((String::from_str("max_tokens"), number("2000")));
            headers.push(header("Authorization", bearer(api_key)));
            headers.push(header("Content-Type", String::from_str("application/json")));
            headers.push(header("HTTP-Referer", String::from_str(APP_TITLE)));
            headers.push(header("X-Title", String::from_str(APP_TITLE)));
            String::from_str(AGGREGATOR_CHAT_URL)
        },
    };
    HttpRequest {
        method: Method::Post,
        url,
        headers,
        body: Some(Json::Object(es)),
        timeout_secs: CHAT_TIMEOUT_SECS,
    }
}

/// The request that lists the models of `provider`: the local server's tag
/// list, or the aggregator's catalogue with the bearer key.
pub fn models_request(provider: &str, api_key: &str, server_url: &str) -> (r: HttpRequest)
    ensures
        r.method == Method::Get,
        r.timeout_secs == MODELS_TIMEOUT_SECS,
        r.body is None,
        provider_named(provider@) == Provider::Local ==> {
            &&& r.url@ == base_url_of(server_url@) + LOCAL_TAGS_PATH@
            &&& r.headers@.len() == 0
        },
        provider_named(provider@) == Provider::Aggregator ==> {
            &&& r.url@ == AGGREGATOR_MODELS_URL@
            &&& r.headers@.len() == 2
            &&& is_header(r.headers@[0], "Authorization"@, bearer_of(api_key@))
            &&& is_header(r.headers@[1], "Content-Type"@, "application/json"@)
        },
{
    let mut headers: Vec<(String, String)> = Vec::new();
    let url = match select_provider(provider) {
        Provider::Local => join(resolve_base_url(server_url), LOCAL_TAGS_PATH),
        Provider::Aggregator => {
            headers.push(header("Authorization", bearer(api_key)));
            headers.push(header("Content-Type", String::from_str("application/json")));
            String::from_str(AGGREGATOR_MODELS_URL)
        },
    };
    HttpRequest { method: Method::Get, url, headers, body: None, timeout_secs: MODELS_TIMEOUT_SECS }
}

/// The request that probes the local server: its tag list, with no headers.
pub fn connection_request(server_url: &str) -> (r: HttpRequest)
    ensures
        r.method == Method::Get,
        r.timeout_secs == PROBE_TIMEOUT_SECS,
        r.body is None,
        r.url@ == base_url_of(server_url@) + LOCAL_TAGS_PATH@,
        r.headers@.len() == 0,
{
    HttpRequest {
        method: Method::Get,
        url: join(resolve_base_url(server_url), LOCAL_TAGS_PATH),
        headers: Vec::new(),
        body: None,
        timeout_secs: PROBE_TIMEOUT_SECS,
    }
}

} // verus!
