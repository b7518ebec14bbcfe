use jalmi::api::{completion_outcome, response_text, Choice, CompletionResponse};
use jalmi::config::{model_list, proxy_port, Config, ModelConfig};
use jalmi::editor::{count_characters, key_binding, EditStep, EditorKey, KeyBinding, Motion};
use jalmi::gui::{LlmFrontend, Message};
use jalmi::llm::ModelStatus;
use jalmi::text::{blank, chars_of, push_decimal, trimmed, white_space};
use jalmi::widgets::{controls, status_caption, status_color, StatusColor};
use jalmi::chat::{update, AppState, Message as ChatMessage};
use jalmi::llm::LocalAiClient;

fn s(t: &str) -> String {
    t.to_string()
}

fn lines(ls: &[&str]) -> Vec<String> {
    ls.iter().map(|l| l.to_string()).collect()
}

#[test]
fn white_space_matches_std() {
    for c in ['\t', '\n', '\u{b}', '\u{c}', '\r', ' ', '\u{85}', '\u{a0}', '\u{1680}', '\u{2000}', '\u{200a}', '\u{2028}', '\u{2029}', '\u{202f}', '\u{205f}', '\u{3000}', 'a', '\u{200b}', '0', '\u{1f}'] {
        assert_eq!(white_space(c), c.is_whitespace(), "{:?}", c);
    }
    for u in 0..0x3100u32 {
        if let Some(c) = char::from_u32(u) {
            assert_eq!(white_space(c), c.is_whitespace(), "{:x}", u);
        }
    }
}

#[test]
fn trim_matches_std() {
    for t in ["", "  ", " a ", "\u{3000}x y\t", "abc", "\n\n[DONE]\n"] {
        let v = trimmed(&chars_of(t));
        assert_eq!(v.iter().collect::<String>(), t.trim());
        assert_eq!(blank(&chars_of(t)), t.trim().is_empty());
    }
}

#[test]
fn decimal_rendering() {
    for n in [0u16, 7, 10, 99, 100, 8080, 65535] {
        let mut out = s("p=");
        push_decimal(&mut out, n);
        assert_eq!(out, format!("p={}", n));
    }
}

#[test]
fn backspace_counts_spaces_before_cursor() {
    assert_eq!(count_characters(&lines(&["hello   "]), 0, 8, true), 3);
    assert_eq!(count_characters(&lines(&["hello world"]), 0, 11, true), 0);
    assert_eq!(count_characters(&lines(&["hello world"]), 0, 6, true), 1);
}

#[test]
fn backspace_crosses_short_lines() {
    // cursor at the start of an empty line: one for the line break, then the line above
    assert_eq!(count_characters(&lines(&["ab  ", ""]), 1, 0, true), 3);
    // a line of one character also hands on
    assert_eq!(count_characters(&lines(&["word", "x"]), 1, 1, true), 1);
    assert_eq!(count_characters(&lines(&["", ""]), 1, 0, true), 2);
    assert_eq!(count_characters(&lines(&[""]), 0, 0, true), 1);
}

#[test]
fn forward_counts_spaces_from_cursor() {
    assert_eq!(count_characters(&lines(&["ab   cd"]), 0, 2, false), 3);
    assert_eq!(count_characters(&lines(&["abcd"]), 0, 0, false), 0);
}

#[test]
fn key_bindings() {
    let l = lines(&["one  "]);
    // on "a   bcd" with the cursor before "bcd", Ctrl+Delete selects no space first
    match key_binding(EditorKey::Delete, true, false, &lines(&["a   bcd"]), 0, 4) {
        KeyBinding::Sequence(steps) => assert_eq!(steps, vec![
            EditStep::Select(Motion::WordRight), EditStep::Delete,
        ]),
        _ => panic!("expected a sequence"),
    }
    match key_binding(EditorKey::Delete, true, false, &lines(&["a   bcd"]), 0, 1) {
        KeyBinding::Sequence(steps) => assert_eq!(steps, vec![
            EditStep::Select(Motion::Right), EditStep::Select(Motion::Right), EditStep::Select(Motion::Right),
            EditStep::Select(Motion::WordRight), EditStep::Delete,
        ]),
        _ => panic!("expected a sequence"),
    }
    match key_binding(EditorKey::Backspace, true, false, &l, 0, 5) {
        KeyBinding::Sequence(steps) => assert_eq!(steps, vec![
            EditStep::Select(Motion::Left), EditStep::Select(Motion::Left),
            EditStep::Select(Motion::WordLeft), EditStep::Delete,
        ]),
        _ => panic!("expected a sequence"),
    }
    assert!(matches!(key_binding(EditorKey::Delete, false, false, &l, 0, 5), KeyBinding::Delete));
    assert!(matches!(key_binding(EditorKey::Backspace, false, false, &l, 0, 5), KeyBinding::Default));
    assert!(matches!(key_binding(EditorKey::Enter, false, false, &l, 0, 5), KeyBinding::Submit));
    assert!(matches!(key_binding(EditorKey::Enter, false, true, &l, 0, 5), KeyBinding::Default));
    assert!(matches!(key_binding(EditorKey::Other, true, true, &l, 0, 5), KeyBinding::Default));
}

#[test]
fn status_box() {
    assert_eq!(status_caption(&Some(ModelStatus::Ready)), "   Status: Ready  ");
    assert_eq!(status_caption(&None), "   Status: Unknown  ");
    assert!(status_color(&Some(ModelStatus::Ready)) == StatusColor::Green);
    assert!(status_color(&Some(ModelStatus::Starting)) == StatusColor::Orange);
    assert!(status_color(&Some(ModelStatus::Stopping)) == StatusColor::RedOrange);
    assert!(status_color(&Some(ModelStatus::Stopped)) == StatusColor::RedOrange);
    assert!(status_color(&None) == StatusColor::LightGray);
}

fn shown(b: &jalmi::widgets::ButtonView) -> (bool, &str, String) {
    (b.active, b.label.as_str(), format!("{}", match b.message {
        ChatMessage::Generate => "Generate",
        ChatMessage::StreamStop => "StreamStop",
        ChatMessage::Regenerate => "Regenerate",
        ChatMessage::Nothing => "Nothing",
        ChatMessage::LoadModel => "LoadModel",
        ChatMessage::UnloadModel => "UnloadModel",
        _ => "other",
    }))
}

#[test]
fn controls_follow_state() {
    let mut st = AppState::new(vec![s("m")], LocalAiClient::new(1));
    let c = controls(&st);
    assert!(c.input_active);
    assert_eq!(shown(&c.send), (true, "Send", s("Generate")));
    assert_eq!(shown(&c.retry), (false, "...", s("Nothing")));
    assert_eq!(shown(&c.model), (false, "Select a model first", s("UnloadModel")));
    update(&mut st, ChatMessage::OptionSelected(s("m")));
    assert_eq!(shown(&controls(&st).model), (true, "Load", s("LoadModel")));
    update(&mut st, ChatMessage::TextInputChanged(s("q")));
    update(&mut st, ChatMessage::Generate);
    update(&mut st, ChatMessage::Request);
    let c = controls(&st);
    assert!(!c.input_active);
    assert_eq!(shown(&c.send), (false, "Stop", s("StreamStop")));
    assert_eq!(shown(&c.retry), (false, "...", s("Nothing")));
    assert_eq!(shown(&c.model), (false, "Unload", s("UnloadModel")));
    update(&mut st, ChatMessage::StreamCompleted);
    assert_eq!(shown(&controls(&st).retry), (true, "Retry", s("Regenerate")));
    st.model_status = Some(ModelStatus::Ready);
    assert_eq!(shown(&controls(&st).model), (false, "Unload", s("UnloadModel")));
}

fn config() -> Config {
    let mc = |c: &str| ModelConfig { cmd: s(c), proxy: s("http://127.0.0.1:8999"), ttl: 300 };
    Config {
        healthCheckTimeout: 30,
        models: vec![(s("llama3-8b"), mc("a")), (s("mistral-7b"), mc("b"))],
        profiles: vec![],
    }
}

#[test]
fn model_names_in_order() {
    assert_eq!(model_list(&config()), vec![s("llama3-8b"), s("mistral-7b")]);
    let empty = Config { healthCheckTimeout: 0, models: vec![], profiles: vec![] };
    assert!(model_list(&empty).is_empty());
}

#[test]
fn proxy_port_from_listeners() {
    let l = vec![(s("sshd"), 22), (s("llama-swap"), 8080), (s("llama-swap"), 9090)];
    assert_eq!(proxy_port(&l), Some(8080));
    assert_eq!(proxy_port(&vec![(s("llama-swapper"), 1)]), None);
    assert_eq!(proxy_port(&vec![]), None);
}

#[test]
fn completion_texts() {
    let r = CompletionResponse { id: s("1"), choices: vec![Choice { text: s("a") }, Choice { text: s("b") }] };
    assert_eq!(response_text(&r), Ok(s("a")));
    let none = CompletionResponse { id: s("2"), choices: vec![] };
    assert_eq!(response_text(&none), Err(s("No response text received")));
    assert_eq!(completion_outcome(Err(s("timeout"))), Err(s("Error: timeout")));
    assert_eq!(completion_outcome(Ok(none)), Err(s("No response text received")));
}

#[test]
fn completion_window() {
    let mut w = LlmFrontend::new(config());
    assert_eq!(w.title(), "LLM Frontend");
    assert_eq!(w.models, vec![s("llama3-8b"), s("mistral-7b")]);
    assert!(w.update(Message::SendPressed).is_none());
    w.update(Message::ModelSelected(s("mistral-7b")));
    w.update(Message::PromptChanged(s("tell me")));
    let q = w.update(Message::SendPressed).unwrap();
    assert_eq!((q.model.as_str(), q.prompt.as_str(), q.max_tokens), ("mistral-7b", "tell me", 1024));
    w.update(Message::ResponseReceived(Ok(s("story"))));
    assert_eq!(w.response, "story");
    w.update(Message::ResponseReceived(Err(s("Error: down"))));
    assert_eq!(w.response, "Error: Error: down");
}
