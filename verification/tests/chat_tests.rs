use jalmi::chat::{update, AppState, Command, Message};
use jalmi::llm::{LocalAiClient, ModelStatus};
use jalmi::json::Json;

fn state() -> AppState {
    AppState::new(vec!["llama".to_string(), "mistral".to_string()], LocalAiClient::new(8080))
}

fn send(s: &mut AppState, text: &str) -> Command {
    update(s, Message::TextInputChanged(text.to_string()));
    update(s, Message::Generate)
}

fn members(j: &Json) -> Vec<(String, &Json)> {
    match j {
        Json::Object(m) => m.iter().map(|(k, v)| (k.clone(), v)).collect(),
        _ => panic!("not an object"),
    }
}

#[test]
fn new_state_is_empty() {
    let s = state();
    assert_eq!(s.models, vec!["llama".to_string(), "mistral".to_string()]);
    assert!(s.selected_model.is_none());
    assert!(s.history.is_empty());
    assert!(!s.is_streaming);
    assert_eq!(s.model_status, None);
}

#[test]
fn selecting_a_model_checks_its_status() {
    let mut s = state();
    let c = update(&mut s, Message::OptionSelected("llama".to_string()));
    assert_eq!(s.selected_model.as_deref(), Some("llama"));
    assert!(matches!(c, Command::Dispatch(Message::CheckLoaded)));
    match update(&mut s, Message::CheckLoaded) {
        Command::FetchStatus(url, model) => {
            assert_eq!(url, "http://localhost:8080/running");
            assert_eq!(model, "llama");
        }
        _ => panic!("expected a status request"),
    }
}

#[test]
fn check_without_model_reports_stopped() {
    let mut s = state();
    let c = update(&mut s, Message::CheckLoaded);
    assert!(matches!(c, Command::Nothing));
    assert_eq!(s.model_status, Some(ModelStatus::Stopped));
}

#[test]
fn status_reply_sets_status() {
    let mut s = state();
    update(&mut s, Message::OptionSelected("llama".to_string()));
    let reply = r#"{"running":[{"model":"llama","state":"ready"}]}"#.to_string();
    update(&mut s, Message::StatusReply("llama".to_string(), Some(reply)));
    assert_eq!(s.model_status, Some(ModelStatus::Ready));
    update(&mut s, Message::StatusReply("llama".to_string(), None));
    assert_eq!(s.model_status, Some(ModelStatus::Stopped));
}

#[test]
fn blank_prompt_is_not_sent() {
    let mut s = state();
    update(&mut s, Message::OptionSelected("llama".to_string()));
    let c = send(&mut s, " \t\n\u{3000}");
    assert!(matches!(c, Command::Nothing));
    assert!(s.history.is_empty());
    assert_eq!(s.input, " \t\n\u{3000}");
}

#[test]
fn prompt_without_model_is_not_sent() {
    let mut s = state();
    let c = send(&mut s, "hello");
    assert!(matches!(c, Command::Nothing));
    assert!(s.history.is_empty());
}

#[test]
fn prompt_is_sent_with_the_conversation() {
    let mut s = state();
    update(&mut s, Message::OptionSelected("llama".to_string()));
    let c = send(&mut s, "  hi  ");
    assert!(matches!(c, Command::ClearInputAndDispatch(Message::Request)));
    assert_eq!(s.history, vec![("  hi  ".to_string(), false)]);
    assert!(s.input.is_empty());
    match update(&mut s, Message::Request) {
        Command::StartStream(url, body) => {
            assert_eq!(url, "http://localhost:8080/v1/chat/completions");
            let m = members(&body);
            assert_eq!(m.len(), 3);
            assert_eq!(m[0].0, "messages");
            match m[0].1 {
                Json::Array(turns) => {
                    assert_eq!(turns.len(), 2);
                    let first = members(&turns[0]);
                    assert!(matches!(first[0].1, Json::String(t) if t == "  hi  "));
                    assert!(matches!(first[1].1, Json::String(r) if r == "user"));
                    let second = members(&turns[1]);
                    assert!(matches!(second[0].1, Json::String(t) if t.is_empty()));
                    assert!(matches!(second[1].1, Json::String(r) if r == "assistant"));
                }
                _ => panic!("messages is no array"),
            }
            assert_eq!(m[1].0, "model");
            assert!(matches!(m[1].1, Json::String(t) if t == "llama"));
            assert_eq!(m[2].0, "stream");
            assert!(matches!(m[2].1, Json::Bool(true)));
        }
        _ => panic!("expected a stream"),
    }
    assert!(s.is_streaming);
    assert_eq!(s.history.last(), Some(&(String::new(), true)));
}

#[test]
fn prompt_while_streaming_is_not_sent() {
    let mut s = state();
    update(&mut s, Message::OptionSelected("llama".to_string()));
    send(&mut s, "hi");
    update(&mut s, Message::Request);
    let c = send(&mut s, "again");
    assert!(matches!(c, Command::Nothing));
    assert_eq!(s.history.len(), 2);
}

#[test]
fn chunks_append_to_the_answer() {
    let mut s = state();
    update(&mut s, Message::OptionSelected("llama".to_string()));
    send(&mut s, "hi");
    update(&mut s, Message::Request);
    update(&mut s, Message::ReceivedChunk("Hel".to_string()));
    update(&mut s, Message::ReceivedChunk("lo".to_string()));
    assert_eq!(s.history[1], ("Hello".to_string(), true));
    update(&mut s, Message::StreamCompleted);
    assert!(!s.is_streaming);
}

#[test]
fn chunk_after_a_user_turn_is_dropped() {
    let mut s = state();
    update(&mut s, Message::OptionSelected("llama".to_string()));
    send(&mut s, "hi");
    update(&mut s, Message::ReceivedChunk("lost".to_string()));
    assert_eq!(s.history, vec![("hi".to_string(), false)]);
}

#[test]
fn stop_aborts_only_a_running_stream() {
    let mut s = state();
    assert!(matches!(update(&mut s, Message::StreamStop), Command::Nothing));
    update(&mut s, Message::OptionSelected("llama".to_string()));
    send(&mut s, "hi");
    update(&mut s, Message::Request);
    assert!(matches!(update(&mut s, Message::StreamStop), Command::AbortStream));
    assert!(!s.is_streaming);
}

#[test]
fn retry_replaces_the_last_answer() {
    let mut s = state();
    update(&mut s, Message::OptionSelected("llama".to_string()));
    send(&mut s, "hi");
    update(&mut s, Message::Request);
    update(&mut s, Message::ReceivedChunk("Hello".to_string()));
    update(&mut s, Message::StreamCompleted);
    let c = update(&mut s, Message::Regenerate);
    assert!(matches!(c, Command::Dispatch(Message::Request)));
    assert_eq!(s.history, vec![("hi".to_string(), false)]);
    update(&mut s, Message::Request);
    assert_eq!(s.history, vec![("hi".to_string(), false), (String::new(), true)]);
}

#[test]
fn load_warms_up_and_shows_starting() {
    let mut s = state();
    update(&mut s, Message::OptionSelected("mistral".to_string()));
    s.model_status = Some(ModelStatus::Stopped);
    match update(&mut s, Message::LoadModel) {
        Command::WarmUp(url, body, ms) => {
            assert_eq!(url, "http://localhost:8080/v1/chat/completions");
            assert_eq!(ms, 100);
            let m = members(&body);
            assert!(matches!(m[0].1, Json::Array(t) if t.is_empty()));
        }
        _ => panic!("expected a warm-up"),
    }
    assert_eq!(s.model_status, Some(ModelStatus::Starting));
    assert!(!s.is_streaming);
    assert!(s.history.is_empty());
}

#[test]
fn unload_asks_the_proxy_and_shows_stopping() {
    let mut s = state();
    update(&mut s, Message::OptionSelected("llama".to_string()));
    s.model_status = Some(ModelStatus::Ready);
    match update(&mut s, Message::UnloadModel) {
        Command::Unload(url, Message::CheckLoaded) => assert_eq!(url, "http://localhost:8080/unload"),
        _ => panic!("expected an unload"),
    }
    assert_eq!(s.model_status, Some(ModelStatus::Stopping));
}

#[test]
fn unload_without_model_or_while_streaming_does_nothing() {
    let mut s = state();
    assert!(matches!(update(&mut s, Message::UnloadModel), Command::Nothing));
    assert_eq!(s.model_status, None);
    update(&mut s, Message::OptionSelected("llama".to_string()));
    send(&mut s, "hi");
    update(&mut s, Message::Request);
    s.model_status = Some(ModelStatus::Ready);
    assert!(matches!(update(&mut s, Message::UnloadModel), Command::Nothing));
    assert_eq!(s.model_status, Some(ModelStatus::Ready));
}

#[test]
fn nothing_does_nothing() {
    let mut s = state();
    assert!(matches!(update(&mut s, Message::Nothing), Command::Nothing));
    assert!(s.history.is_empty());
}
