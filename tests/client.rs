use gemini_rs::api::{build_request, check_status, config_from_values, endpoint_url};
use gemini_rs::client::{reply_text, user_turn, Client, ClientConfig};
use gemini_rs::error::GeminiError;
use gemini_rs::models::{Candidate, Content, GeminiResponse, Part};

fn answer(text: &str) -> GeminiResponse {
    GeminiResponse {
        candidates: Some(vec![Candidate {
            content: Some(Content { parts: Some(vec![Part { text: Some(text.to_string()) }]), role: None }),
            finish_reason: None,
            index: None,
            safety_ratings: None,
        }]),
    }
}

fn config(max: usize) -> ClientConfig {
    ClientConfig { api_key: "key".to_string(), model: "gemini-2.5-flash".to_string(), max_memory_size: max }
}

#[test]
fn chat_adds_user_and_model_turns() {
    let mut c = Client::new("key", "gemini-2.5-flash");
    let before = c.memory_size();
    let sent = c.begin_chat("Whats my name");
    assert_eq!(sent.len(), 1);
    assert_eq!(sent[0].role, "user");
    assert_eq!(sent[0].parts[0].text, "Whats my name");
    let r = c.finish_chat(Ok(answer("Max")));
    assert_eq!(r, Ok("Max".to_string()));
    assert_eq!(c.memory_size(), before + 2);
    let h = c.get_history();
    assert_eq!(h[1].role, "model");
    assert_eq!(h[1].parts[0].text, "Max");
}

#[test]
fn failed_chat_keeps_user_turn() {
    let mut c = Client::new("key", "gemini-2.5-flash");
    c.begin_chat("hello");
    let failure = check_status(429, "rate limited".to_string());
    let r = c.finish_chat(failure.map(|_| answer("unused")));
    assert_eq!(r, Err(GeminiError::Api { status: 429, body: "rate limited".to_string() }));
    assert_eq!(c.memory_size(), 1);
    assert_eq!(c.get_history()[0].role, "user");
    assert_eq!(c.get_history()[0].parts[0].text, "hello");
}

#[test]
fn history_never_exceeds_bound() {
    let mut c = Client::with_config(config(3));
    for i in 0..5 {
        let input = format!("turn {}", i);
        let sent = c.begin_chat(&input);
        assert!(sent.len() <= 3);
        assert!(c.memory_size() <= 3);
        let _ = c.finish_chat(Ok(answer("ok")));
        assert!(c.memory_size() <= 3);
    }
    let h = c.get_history();
    assert_eq!(h.len(), 3);
    assert_eq!(h[0].parts[0].text, "ok");
    assert_eq!(h[1].parts[0].text, "turn 4");
    assert_eq!(h[2].parts[0].text, "ok");
}

#[test]
fn set_max_memory_size_drops_oldest() {
    let mut c = Client::new("key", "m");
    for i in 0..3 {
        c.begin_chat(&format!("q{}", i));
        let _ = c.finish_chat(Ok(answer(&format!("a{}", i))));
    }
    assert_eq!(c.memory_size(), 6);
    c.set_max_memory_size(2);
    assert_eq!(c.memory_size(), 2);
    let h = c.get_history();
    assert_eq!(h[0].parts[0].text, "q2");
    assert_eq!(h[1].parts[0].text, "a2");
    c.set_max_memory_size(10);
    assert_eq!(c.memory_size(), 2);
    c.set_max_memory_size(0);
    assert_eq!(c.memory_size(), 0);
}

#[test]
fn clear_memory_empties_history() {
    let mut c = Client::new("key", "m");
    c.begin_chat("x");
    c.clear_memory();
    assert_eq!(c.memory_size(), 0);
    assert!(c.get_history().is_empty());
    assert_eq!(c.config().max_memory_size, 50);
    assert_eq!(c.config().model, "m");
}

#[test]
fn reply_text_cleans_or_passes_error() {
    assert_eq!(reply_text(Ok(answer("```json\n[1]\n```"))), Ok("[1]".to_string()));
    let e = GeminiError::Transport("refused".to_string());
    assert_eq!(reply_text(Err(e.clone())), Err(e));
    let t = user_turn("hi");
    assert_eq!(t.role, "user");
    assert_eq!(t.parts[0].text, "hi");
}

#[test]
fn endpoint_url_holds_model_and_key() {
    let url = endpoint_url(&config(5));
    assert_eq!(
        url,
        "https://generativelanguage.googleapis.com/v1beta/models/gemini-2.5-flash:generateContent?key=key"
    );
}

#[test]
fn request_has_fixed_generation_options() {
    let req = build_request(vec![user_turn("hello")]);
    assert_eq!(req.contents.len(), 1);
    assert_eq!(req.contents[0].role, "user");
    assert_eq!(req.contents[0].parts[0].text, "hello");
    assert_eq!(req.generation_config.thinking_config.thinking_budget, 0);
    assert_eq!(req.generation_config.response_mime_type, "text/plain");
}

#[test]
fn check_status_accepts_only_success() {
    assert_eq!(check_status(200, "body".to_string()), Ok("body".to_string()));
    assert_eq!(check_status(299, "b".to_string()), Ok("b".to_string()));
    assert_eq!(
        check_status(300, "moved".to_string()),
        Err(GeminiError::Api { status: 300, body: "moved".to_string() })
    );
    assert_eq!(
        check_status(500, "oops".to_string()),
        Err(GeminiError::Api { status: 500, body: "oops".to_string() })
    );
}

#[test]
fn config_from_values_needs_both_settings() {
    let ok = config_from_values(Some("k".to_string()), Some("m".to_string())).unwrap();
    assert_eq!(ok.api_key, "k");
    assert_eq!(ok.model, "m");
    assert_eq!(ok.max_memory_size, 50);
    assert_eq!(
        config_from_values(None, Some("m".to_string())).unwrap_err(),
        GeminiError::Config("GEMINI_API_KEY".to_string())
    );
    assert_eq!(
        config_from_values(Some(String::new()), None).unwrap_err(),
        GeminiError::Config("GEMINI_API_KEY".to_string())
    );
    assert_eq!(
        config_from_values(Some("k".to_string()), Some(String::new())).unwrap_err(),
        GeminiError::Config("GEMINI_MODEL".to_string())
    );
}
