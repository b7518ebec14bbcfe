use jalmi::chat::Message;
use jalmi::json::Json;
use jalmi::llm::{
    chunk_text, get_status, is_model_active, status_from_reply, status_in_reply, stream_next,
    LocalAiClient, ModelStatus, StreamInput, StreamState, StreamStep,
};

fn s(t: &str) -> String {
    t.to_string()
}

#[test]
fn only_ready_is_active() {
    assert!(is_model_active(&Some(ModelStatus::Ready)));
    assert!(!is_model_active(&Some(ModelStatus::Starting)));
    assert!(!is_model_active(&Some(ModelStatus::Stopping)));
    assert!(!is_model_active(&Some(ModelStatus::Stopped)));
    assert!(!is_model_active(&None));
}

#[test]
fn status_names() {
    assert_eq!(get_status(&Some(ModelStatus::Ready)), "Ready");
    assert_eq!(get_status(&Some(ModelStatus::Starting)), "Starting");
    assert_eq!(get_status(&Some(ModelStatus::Stopping)), "Stopping");
    assert_eq!(get_status(&Some(ModelStatus::Stopped)), "Stopped");
    assert_eq!(get_status(&None), "Unknown");
}

#[test]
fn client_addresses() {
    let c = LocalAiClient::new(8080);
    assert_eq!(c.port(), 8080);
    assert_eq!(c.base_url(), "http://localhost:8080");
    assert_eq!(c.running_url(), "http://localhost:8080/running");
    assert_eq!(c.completions_url(), "http://localhost:8080/v1/chat/completions");
    assert_eq!(LocalAiClient::new(0).base_url(), "http://localhost:0");
    assert_eq!(LocalAiClient::new(65535).base_url(), "http://localhost:65535");
    assert_eq!(LocalAiClient::new(10).base_url(), "http://localhost:10");
}

#[test]
fn different_ports_different_addresses() {
    assert_ne!(LocalAiClient::new(1).base_url(), LocalAiClient::new(10).base_url());
    assert_ne!(LocalAiClient::new(100).base_url(), LocalAiClient::new(1000).base_url());
}

#[test]
fn chat_request_members_are_sorted() {
    let history = vec![(s("hi"), false), (s("hello"), true)];
    let r = LocalAiClient::create_chat_request(&history, &s("m"));
    match r {
        Json::Object(m) => {
            let keys: Vec<&str> = m.iter().map(|(k, _)| k.as_str()).collect();
            assert_eq!(keys, vec!["messages", "model", "stream"]);
        }
        _ => panic!("not an object"),
    }
}

#[test]
fn data_line_with_content() {
    let line = "data: {\"choices\":[{\"delta\":{\"content\":\"Hi\"}}]}\n";
    assert!(matches!(LocalAiClient::process_line(line), Some(Message::ReceivedChunk(t)) if t == "Hi"));
}

#[test]
fn done_line() {
    assert!(matches!(LocalAiClient::process_line("data: [DONE]\n"), Some(Message::StreamCompleted)));
    assert!(matches!(LocalAiClient::process_line("data:  [DONE]  "), Some(Message::StreamCompleted)));
}

#[test]
fn lines_that_mean_nothing() {
    assert!(LocalAiClient::process_line("").is_none());
    assert!(LocalAiClient::process_line("\n").is_none());
    assert!(LocalAiClient::process_line(": keep-alive").is_none());
    assert!(LocalAiClient::process_line("data:[DONE]").is_none());
    assert!(LocalAiClient::process_line("data: ").is_none());
    assert!(LocalAiClient::process_line("data: not json").is_none());
    assert!(LocalAiClient::process_line("data: {\"choices\":[{\"delta\":{\"content\":\"\"}}]}").is_none());
    assert!(LocalAiClient::process_line("data: {\"choices\":[{\"delta\":{}}]}").is_none());
    assert!(LocalAiClient::process_line("data: {\"choices\":[]}").is_none());
    assert!(LocalAiClient::process_line("event: data: [DONE]").is_none());
}

#[test]
fn chunk_text_reads_the_delta() {
    let delta = Json::Object(vec![(s("content"), Json::String(s("abc")))]);
    let choice = Json::Object(vec![(s("delta"), delta)]);
    let doc = Json::Object(vec![(s("id"), Json::Number(s("3"))), (s("choices"), Json::Array(vec![choice]))]);
    assert_eq!(chunk_text(&doc), Some(s("abc")));
    assert_eq!(chunk_text(&Json::Null), None);
    let empty = Json::Object(vec![(s("choices"), Json::Array(vec![
        Json::Object(vec![(s("delta"), Json::Object(vec![(s("content"), Json::String(String::new()))]))]),
    ]))]);
    assert_eq!(chunk_text(&empty), None);
}

#[test]
fn running_status_in_reply() {
    let item = |m: &str, st: &str| Json::Object(vec![(s("model"), Json::String(s(m))), (s("state"), Json::String(s(st)))]);
    let doc = Json::Object(vec![(s("running"), Json::Array(vec![item("a", "starting"), item("b", "ready")]))]);
    assert_eq!(status_in_reply(&doc, "b"), ModelStatus::Ready);
    assert_eq!(status_in_reply(&doc, "a"), ModelStatus::Starting);
    assert_eq!(status_in_reply(&doc, "c"), ModelStatus::Stopped);
    assert_eq!(status_in_reply(&Json::Array(vec![]), "b"), ModelStatus::Stopped);
    let first_wins = Json::Object(vec![(s("running"), Json::Array(vec![item("b", "loading"), item("b", "ready")]))]);
    assert_eq!(status_in_reply(&first_wins, "b"), ModelStatus::Stopped);
    let starting_first = Json::Object(vec![(s("running"), Json::Array(vec![item("b", "starting"), item("b", "ready")]))]);
    assert_eq!(status_in_reply(&starting_first, "b"), ModelStatus::Starting);
    let no_state = Json::Object(vec![(s("running"), Json::Array(vec![
        Json::Object(vec![(s("model"), Json::String(s("b")))]),
    ]))]);
    assert_eq!(status_in_reply(&no_state, "b"), ModelStatus::Stopped);
}

#[test]
fn status_from_reply_parses() {
    let reply = r#"{"running": [{"model": "x", "state": "ready"}, {"model": "y", "state": "stopping"}]}"#;
    assert_eq!(status_from_reply(&Some(s("x")), Some(reply)), Some(ModelStatus::Ready));
    assert_eq!(status_from_reply(&Some(s("y")), Some(reply)), Some(ModelStatus::Stopping));
    assert_eq!(status_from_reply(&Some(s("x")), Some("{")), Some(ModelStatus::Stopped));
    assert_eq!(status_from_reply(&Some(s("x")), None), Some(ModelStatus::Stopped));
    assert_eq!(status_from_reply(&None, Some(reply)), Some(ModelStatus::Stopped));
    assert_eq!(status_from_reply(&Some(s("x")), Some(r#"{"running": 3}"#)), Some(ModelStatus::Stopped));
}

#[test]
fn stream_machine() {
    let (st, step) = stream_next(StreamState::First, StreamInput::RequestFailed(s("refused")));
    assert!(st == StreamState::End);
    assert!(matches!(step, StreamStep::Emit(Message::ReceivedChunk(t)) if t == "Error: refused"));
    let (st, step) = stream_next(StreamState::First, StreamInput::Line(s(": ping")));
    assert!(st == StreamState::First);
    assert!(matches!(step, StreamStep::ReadLine));
    let (st, step) = stream_next(StreamState::First, StreamInput::Line(s("data: {\"choices\":[{\"delta\":{\"content\":\"a\"}}]}")));
    assert!(st == StreamState::Iteration);
    assert!(matches!(step, StreamStep::Emit(Message::ReceivedChunk(t)) if t == "a"));
    let (st, step) = stream_next(StreamState::Iteration, StreamInput::Line(s("data: [DONE]")));
    assert!(st == StreamState::Iteration);
    assert!(matches!(step, StreamStep::Emit(Message::StreamCompleted)));
    let (st, step) = stream_next(StreamState::Iteration, StreamInput::Exhausted);
    assert!(st == StreamState::End);
    assert!(matches!(step, StreamStep::Emit(Message::StreamCompleted)));
    let (st, step) = stream_next(StreamState::End, StreamInput::Line(s("data: [DONE]")));
    assert!(st == StreamState::End);
    assert!(matches!(step, StreamStep::Finish));
}
