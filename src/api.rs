use vstd::prelude::*;
use crate::client::{ClientConfig, DEFAULT_MAX_MEMORY};
use crate::error::GeminiError;
use crate::models::{GeminiContent, GeminiRequest, GenerationConfig, ThinkingConfig};

verus! {

/// Where the models are served.
pub const API_BASE: &'static str = "https://generativelanguage.googleapis.com/v1beta/models/";

/// The action asked of a model, and the start of the key parameter.
pub const GENERATE_ACTION: &'static str = ":generateContent?key=";

/// The MIME type asked for in every response.
pub const TEXT_MIME: &'static str = "text/plain";

/// The environment variable that holds the API key.
pub const API_KEY_VAR: &'static str = "GEMINI_API_KEY";

/// The environment variable that holds the model's name.
pub const MODEL_VAR: &'static str = "GEMINI_MODEL";

/// The URL of the generate action of `model`, with `key` as its key.
pub open spec fn endpoint(model: Seq<char>, key: Seq<char>) -> Seq<char> {
    API_BASE@ + model + GENERATE_ACTION@ + key
}

/// Whether an HTTP status counts as success.
pub open spec fn is_success(status: u16) -> bool {
    200 <= status <= 299
}

/// The URL that a request for `config` is posted to.
pub fn endpoint_url(config: &ClientConfig) -> (r: String)
    ensures
        r@ == endpoint(config.model@, config.api_key@),
{
    let mut url = API_BASE.to_owned();
    url.append(config.model.as_str());
    url.append(GENERATE_ACTION);
    url.append(config.api_key.as_str());
    url
}

/// The request for a conversation: its turns, no thinking budget, plain text asked for.
pub fn build_request(messages: Vec<GeminiContent>) -> (r: GeminiRequest)
    ensures
        r.contents == messages,
        r.generation_config.thinking_config.thinking_budget == 0,
        r.generation_config.response_mime_type@ == TEXT_MIME@,
{
    GeminiRequest {
        contents: messages,
        generation_config: GenerationConfig {
            thinking_config: ThinkingConfig { thinking_budget: 0 },
            response_mime_type: TEXT_MIME.to_owned(),
        },
    }
}

/// The body of an answer with this status, or the error that it stands for.
pub fn check_status(status: u16, body: String) -> (r: Result<String, GeminiError>)
    ensures
        is_success(status) ==> r == Ok::<String, GeminiError>(body),
        !is_success(status) ==> r == Err::<String, GeminiError>(GeminiError::Api { status, body }),
{
    if 200 <= status && status <= 299 {
        Ok(body)
    } else {
        Err(GeminiError::Api { status, body })
    }
}

/// The configuration made of the two settings read from the environment; each must be
/// present and not empty, the key first. The history keeps its default bound.
pub fn config_from_values(api_key: Option<String>, model: Option<String>) -> (r: Result<
    ClientConfig,
    GeminiError,
>)
    ensures
        match (api_key, model) {
            (Some(k), Some(m)) if k@.len() > 0 && m@.len() > 0 => r == Ok::<
                ClientConfig,
                GeminiError,
            >(ClientConfig { api_key: k, model: m, max_memory_size: DEFAULT_MAX_MEMORY }),
            (Some(k), _) if k@.len() > 0 => r matches Err(GeminiError::Config(v)) && v@
                == MODEL_VAR@,
            _ => r matches Err(GeminiError::Config(v)) && v@ == API_KEY_VAR@,
        },
{
    let key = match api_key {
        Some(k) if !k.as_str().is_empty() => k,
        _ => return Err(GeminiError::Config(API_KEY_VAR.to_owned())),
    };
    let model = match model {
        Some(m) if !m.as_str().is_empty() => m,
        _ => return Err(GeminiError::Config(MODEL_VAR.to_owned())),
    };
    Ok(ClientConfig { api_key: key, model, max_memory_size: DEFAULT_MAX_MEMORY })
}

} // verus!
