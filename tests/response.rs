use gemini_rs::models::{Candidate, Content, GeminiContent, GeminiResponse, Part};
use gemini_rs::text::{chars_of, is_white_space, strip_fence};

fn candidate(texts: Vec<Option<&str>>) -> Candidate {
    Candidate {
        content: Some(Content {
            parts: Some(texts.into_iter().map(|t| Part { text: t.map(|s| s.to_string()) }).collect()),
            role: Some("model".to_string()),
        }),
        finish_reason: Some("STOP".to_string()),
        index: Some(0),
        safety_ratings: None,
    }
}

fn response(cands: Vec<Candidate>) -> GeminiResponse {
    GeminiResponse { candidates: Some(cands) }
}

#[test]
fn get_string_without_texts_is_empty() {
    let none = GeminiResponse { candidates: None };
    assert_eq!(none.get_string(), Some(String::new()));
    let empty = response(vec![]);
    assert_eq!(empty.get_string(), Some(String::new()));
    let absent = response(vec![candidate(vec![None])]);
    assert_eq!(absent.get_string(), Some(String::new()));
}

#[test]
fn get_string_strips_json_fence() {
    let r = response(vec![candidate(vec![Some("```json\n{\"a\":1}\n```")])]);
    assert_eq!(r.get_string(), Some("{\"a\":1}".to_string()));
}

#[test]
fn get_string_strips_plain_fence() {
    let r = response(vec![candidate(vec![Some("  ```\nhello\n```  ")])]);
    assert_eq!(r.get_string(), Some("hello".to_string()));
}

#[test]
fn get_string_joins_with_spaces() {
    let r = response(vec![
        candidate(vec![Some("Hello"), None, Some("big")]),
        candidate(vec![Some("world")]),
    ]);
    assert_eq!(r.get_string(), Some("Hello big world".to_string()));
}

#[test]
fn get_string_keeps_inner_backticks() {
    let r = response(vec![candidate(vec![Some("a ``` b")])]);
    assert_eq!(r.get_string(), Some("a ``` b".to_string()));
}

#[test]
fn extract_text_without_content_is_absent() {
    let mut c = candidate(vec![Some("x")]);
    c.content = None;
    let r = response(vec![c, candidate(vec![Some("y")])]);
    assert_eq!(r.extract_text(), None);
}

#[test]
fn extract_text_takes_first_part_of_first_candidate() {
    let r = response(vec![candidate(vec![Some("one"), Some("two")]), candidate(vec![Some("three")])]);
    assert_eq!(r.extract_text(), Some("one".to_string()));
    let first_absent = response(vec![candidate(vec![None, Some("two")])]);
    assert_eq!(first_absent.extract_text(), None);
    assert_eq!(GeminiResponse { candidates: None }.extract_text(), None);
    assert_eq!(response(vec![]).extract_text(), None);
}

#[test]
fn extract_all_texts_in_order_skipping_absent() {
    let mut bare = candidate(vec![]);
    bare.content = Some(Content { parts: None, role: None });
    let r = response(vec![
        candidate(vec![Some("a"), None, Some("b")]),
        bare,
        candidate(vec![Some("c")]),
    ]);
    assert_eq!(r.extract_all_texts(), vec!["a".to_string(), "b".to_string(), "c".to_string()]);
}

#[test]
fn new_turn_holds_role_and_text() {
    let t = GeminiContent::new("user".to_string(), "hello".to_string());
    assert_eq!(t.role, "user");
    assert_eq!(t.parts.len(), 1);
    assert_eq!(t.parts[0].text, "hello");
    let copy = t.duplicate();
    assert_eq!(copy, t);
}

#[test]
fn strip_fence_trims_unicode_whitespace() {
    assert_eq!(strip_fence("\u{3000}\t```json x ```\n\u{a0}"), "x");
    assert_eq!(strip_fence("```"), "");
    assert_eq!(strip_fence("```json```"), "");
    assert_eq!(strip_fence("plain"), "plain");
    assert!(is_white_space('\u{2028}'));
    assert!(!is_white_space('x'));
    assert_eq!(chars_of("añb"), vec!['a', 'ñ', 'b']);
}
