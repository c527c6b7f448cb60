//! Which backend a call goes to, the defaults for empty inputs, the two
//! prompt messages, and the HTTP request each operation sends.
use vstd::prelude::*;
use crate::text::{strip_one_slash, same_text, strip_trailing_slash};

verus! {

/// The provider name that selects the local model server.
pub const LOCAL_PROVIDER_NAME: &'static str = "ollama";

/// The provider name of the hosted aggregator.
pub const AGGREGATOR_PROVIDER_NAME: &'static str = "openrouter";

/// The output language used when none is given.
pub const DEFAULT_LANGUAGE: &'static str = "English";

/// The free-tier model used when none is given.
pub const DEFAULT_MODEL: &'static str = "z-ai/glm-4.5-air:free";

/// The local server used when no URL is given.
pub const DEFAULT_SERVER_URL: &'static str = "http://localhost:11434";

/// The aggregator's chat endpoint.
pub const AGGREGATOR_CHAT_URL: &'static str = "https://openrouter.ai/api/v1/chat/completions";

/// The aggregator's model catalogue.
pub const AGGREGATOR_MODELS_URL: &'static str = "https://openrouter.ai/api/v1/models";

/// How the application names itself to the aggregator.
pub const APP_TITLE: &'static str = "AI Prompt Enhancer";

/// Path of the local server's chat endpoint.
pub const LOCAL_CHAT_PATH: &'static str = "/api/chat";

/// Path of the local server's model list.
pub const LOCAL_TAGS_PATH: &'static str = "/api/tags";

/// The system message up to the first mention of the output language.
pub const SYSTEM_PROMPT_HEAD: &'static str = "You are an expert prompt engineer specializing in optimizing prompts for AI coding assistants like Cursor, Windsurf, Antigravity, and similar tools.

Your task is to transform user prompts into highly effective, structured prompts that AI coding assistants can understand and execute perfectly.

RULES:
1. Output MUST be in ";

/// The system message between the two mentions of the output language.
pub const SYSTEM_PROMPT_MIDDLE: &'static str = " regardless of input language
2. Convert all tasks into a numbered TODO list format
3. Be specific and actionable
4. Include technical details and requirements
5. Structure the prompt clearly with sections if needed
6. Keep it concise but comprehensive
7. Add context that helps AI understand the goal better

OUTPUT FORMAT:
- Start with a clear objective statement
- List all tasks as numbered items (1 - ..., 2 - ..., etc.)
- Include any important constraints or requirements
- End with expected outcome if applicable

Transform the user's prompt into an optimized version following these guidelines. Remember: The output MUST be written in ";

/// The end of the system message.
pub const SYSTEM_PROMPT_TAIL: &'static str = ".";

/// The framing placed before the user's prompt.
pub const USER_PROMPT_HEAD: &'static str = "Transform this prompt into an optimized version for AI coding assistants:\n\n";

/// The backend a call is sent to.
#[derive(PartialEq, Eq, Structural, Clone, Copy, Debug)]
pub enum Provider {
    /// A model server on the user's machine; needs no key.
    Local,
    /// The hosted aggregator; needs a bearer key.
    Aggregator,
}

/// The provider that a caller's provider name selects: the local server
/// by its name, the aggregator for anything else, the empty name included.
pub open spec fn provider_named(name: Seq<char>) -> Provider {
    if name == LOCAL_PROVIDER_NAME@ {
        Provider::Local
    } else {
        Provider::Aggregator
    }
}

pub open spec fn or_default(s: Seq<char>, default: Seq<char>) -> Seq<char> {
    if s.len() == 0 {
        default
    } else {
        s
    }
}

/// The output language that a caller's language input stands for.
pub open spec fn language_or_default(s: Seq<char>) -> Seq<char> {
    or_default(s, DEFAULT_LANGUAGE@)
}

/// The model that a caller's model input stands for.
pub open spec fn model_or_default(s: Seq<char>) -> Seq<char> {
    or_default(s, DEFAULT_MODEL@)
}

/// The local server base URL that a caller's URL input stands for.
pub open spec fn base_url_of(s: Seq<char>) -> Seq<char> {
    if s.len() == 0 {
        DEFAULT_SERVER_URL@
    } else {
        strip_one_slash(s)
    }
}

/// The system message for output in `language`.
pub open spec fn system_message_of(language: Seq<char>) -> Seq<char> {
    SYSTEM_PROMPT_HEAD@ + language + SYSTEM_PROMPT_MIDDLE@ + language + SYSTEM_PROMPT_TAIL@
}

/// The user message that carries `prompt`.
pub open spec fn user_message_of(prompt: Seq<char>) -> Seq<char> {
    USER_PROMPT_HEAD@ + prompt
}

/// Empty inputs stand for their defaults: an empty provider name selects
/// the aggregator just as its own name does, and an empty model, language or
/// server URL resolves as the default model, language or URL given outright.
pub proof fn empty_inputs_take_defaults()
    ensures
        provider_named(Seq::empty()) == provider_named(AGGREGATOR_PROVIDER_NAME@),
        provider_named(Seq::empty()) == Provider::Aggregator,
        model_or_default(Seq::empty()) == model_or_default(DEFAULT_MODEL@),
        language_or_default(Seq::empty()) == language_or_default(DEFAULT_LANGUAGE@),
        base_url_of(Seq::empty()) == base_url_of(DEFAULT_SERVER_URL@),
{
    reveal_strlit("ollama");
    reveal_strlit("openrouter");
    reveal_strlit("z-ai/glm-4.5-air:free");
    reveal_strlit("English");
    reveal_strlit("http://localhost:11434");
    assert(LOCAL_PROVIDER_NAME@.len() == 6);
    assert(AGGREGATOR_PROVIDER_NAME@ != LOCAL_PROVIDER_NAME@);
    assert(DEFAULT_SERVER_URL@.last() != '/');
}

/// A server URL loses exactly one trailing `/`: one added to any URL is
/// taken off again, and a non-empty URL without one is used as it is.
pub proof fn trailing_slash_stripped_once(url: Seq<char>)
    ensures
        base_url_of(url.push('/')) == url,
        url.len() > 0 && url.last() != '/' ==> base_url_of(url) == url,
{
    assert(url.push('/').drop_last() =~= url);
}

/// Selects the provider by name.
pub fn select_provider(name: &str) -> (p: Provider)
    ensures
        p == provider_named(name@),
{
    if same_text(name, LOCAL_PROVIDER_NAME) {
        Provider::Local
    } else {
        Provider::Aggregator
    }
}

fn text_or_default(s: &str, default: &str) -> (r: String)
    ensures
        r@ == or_default(s@, default@),
{
    if s.unicode_len() == 0 {
        String::from_str(default)
    } else {
        String::from_str(s)
    }
}

/// The output language, "English" where none is given.
pub fn resolve_language(language: &str) -> (r: String)
    ensures
        r@ == language_or_default(language@),
{
    text_or_default(language, DEFAULT_LANGUAGE)
}

/// The model identifier, the default free-tier model where none is given.
pub fn resolve_model(model: &str) -> (r: String)
    ensures
        r@ == model_or_default(model@),
{
    text_or_default(model, DEFAULT_MODEL)
}

/// The local server's base URL: the default where none is given, else the
/// given URL with one trailing `/` removed.
pub fn resolve_base_url(url: &str) -> (r: String)
    ensures
        r@ == base_url_of(url@),
{
    if url.unicode_len() == 0 {
        String::from_str(DEFAULT_SERVER_URL)
    } else {
        strip_trailing_slash(url)
    }
}

/// The system message that asks for a numbered task list in `language`.
pub fn system_message(language: &str) -> (r: String)
    ensures
        r@ == system_message_of(language@),
{
    let mut s = String::from_str(SYSTEM_PROMPT_HEAD);
    s.append(language);
    s.append(SYSTEM_PROMPT_MIDDLE);
    s.append(language);
    s.append(SYSTEM_PROMPT_TAIL);
    s
}

/// The user message that wraps `prompt` in its framing.
pub fn user_message(prompt: &str) -> (r: String)
    ensures
        r@ == user_message_of(prompt@),
{
    let mut s = String::from_str(USER_PROMPT_HEAD);
    s.append(prompt);
    s
}

} // verus!
