//! The client of the local model proxy: model status, the addresses it
//! talks to, the chat request it sends, and how it reads the replies
//! (the list of running models and the server-sent stream of a completion).
use vstd::prelude::*;
use crate::chat::Message;
use crate::json::{json_parse, opt_key, opt_text, parse_json, Json, JsonValue};
use crate::text::{chars_eq, chars_of, decimal, push_decimal, starts_with, string_of, trim, trimmed};

verus! {

/// Lifecycle state of a model served by the proxy.
#[derive(Debug, Clone, Copy, PartialEq, Eq, Structural)]
pub enum ModelStatus {
    Ready,
    Starting,
    Stopping,
    Stopped,
}

/// A model counts as active only once it is ready.
pub fn is_model_active(option: &Option<ModelStatus>) -> (r: bool)
    ensures
        r == (*option == Some(ModelStatus::Ready)),
{
    match option {
        Some(ModelStatus::Ready) => true,
        _ => false,
    }
}

/// The name shown for a status; "Unknown" when none is known.
pub open spec fn status_name(status: Option<ModelStatus>) -> Seq<char> {
    match status {
        Some(ModelStatus::Ready) => "Ready"@,
        Some(ModelStatus::Starting) => "Starting"@,
        Some(ModelStatus::Stopping) => "Stopping"@,
        Some(ModelStatus::Stopped) => "Stopped"@,
        None => "Unknown"@,
    }
}

/// The name shown for a status.
pub fn get_status(status: &Option<ModelStatus>) -> (r: String)
    ensures
        r@ == status_name(*status),
{
    match status {
        Some(ModelStatus::Ready) => "Ready".to_owned(),
        Some(ModelStatus::Starting) => "Starting".to_owned(),
        Some(ModelStatus::Stopping) => "Stopping".to_owned(),
        Some(ModelStatus::Stopped) => "Stopped".to_owned(),
        None => "Unknown".to_owned(),
    }
}

/// The address of the proxy listening on `port` of this machine.
pub open spec fn local_url(port: u16) -> Seq<char> {
    "http://localhost:"@ + decimal(port as nat)
}

/// A client of the proxy listening on a local port.
#[derive(Clone)]
pub struct LocalAiClient {
    port: u16,
    base_url: String,
}

/// What a client holds: its port and the address derived from it.
pub ghost struct ClientView {
    pub port: u16,
    pub base_url: Seq<char>,
}

impl View for LocalAiClient {
    type V = ClientView;

    closed spec fn view(&self) -> ClientView {
        ClientView { port: self.port, base_url: self.base_url@ }
    }
}

impl LocalAiClient {
    /// A client of the proxy on `port`, reached at `http://localhost:<port>`.
    pub fn new(port: u16) -> (r: Self)
        ensures
            r@.port == port,
            r@.base_url == local_url(port),
    {
        let mut base_url = "http://localhost:".to_owned();
        push_decimal(&mut base_url, port);
        LocalAiClient { port, base_url }
    }

    pub fn port(&self) -> (r: u16)
        ensures
            r == self@.port,
    {
        self.port
    }

    pub fn base_url(&self) -> (r: &String)
        ensures
            r@ == self@.base_url,
    {
        &self.base_url
    }

    /// The address that lists the running models.
    pub fn running_url(&self) -> (r: String)
        ensures
            r@ == self@.base_url + "/running"@,
    {
        let mut r = self.base_url.clone();
        r.append("/running");
        r
    }

    /// The address that makes the proxy unload the models it runs.
    pub fn unload_url(&self) -> (r: String)
        ensures
            r@ == self@.base_url + "/unload"@,
    {
        let mut r = self.base_url.clone();
        r.append("/unload");
        r
    }

    /// The address that streams chat completions.
    pub fn completions_url(&self) -> (r: String)
        ensures
            r@ == self@.base_url + "/v1/chat/completions"@,
    {
        let mut r = self.base_url.clone();
        r.append("/v1/chat/completions");
        r
    }
}

/// One turn of the conversation as the chat endpoint takes it.
pub open spec fn message_value(content: Seq<char>, is_assistant: bool) -> JsonValue {
    JsonValue::Object(
        seq![
            ("content"@, JsonValue::String(content)),
            ("role"@, JsonValue::String(if is_assistant { "assistant"@ } else { "user"@ })),
        ],
    )
}

/// The turns of a conversation: each turn's text, and whether the
/// assistant wrote it.
pub open spec fn turns(history: Seq<(String, bool)>) -> Seq<(Seq<char>, bool)> {
    history.map_values(|t: (String, bool)| (t.0@, t.1))
}

/// The body of a streamed chat request for `model` over the whole
/// `history`. Members stand in the order `serde_json` keeps them, sorted
/// by name.
pub open spec fn chat_request(history: Seq<(Seq<char>, bool)>, model: Seq<char>) -> JsonValue {
    JsonValue::Object(
        seq![
            ("messages"@, JsonValue::Array(
                Seq::new(history.len(), |i: int| message_value(history[i].0, history[i].1)),
            )),
            ("model"@, JsonValue::String(model)),
            ("stream"@, JsonValue::Bool(true)),
        ],
    )
}

impl LocalAiClient {
    /// The body of the streamed chat request: the model, every turn of the
    /// history in order, and `"stream": true`.
    pub fn create_chat_request(history: &Vec<(String, bool)>, model: &String) -> (r: Json)
        ensures
            r@ == chat_request(turns(history@), model@),
    {
        let mut messages: Vec<Json> = Vec::new();
        let mut i: usize = 0;
        while i < history.len()
            invariant
                i <= history.len(),
                messages@.len() == i,
                forall|j: int|
                    0 <= j < i ==> #[trigger] messages@[j]@ == message_value(
                        history@[j].0@,
                        history@[j].1,
                    ),
            decreases history.len() - i,
        {
            let role = if history[i].1 {
                "assistant".to_owned()
            } else {
                "user".to_owned()
            };
            let content = Json::String(history[i].0.clone());
            let role = Json::String(role);
            assert(role@ == JsonValue::String(
                if history@[i as int].1 { "assistant"@ } else { "user"@ },
            ));
            assert(content@ == JsonValue::String(history@[i as int].0@));
            let mut members: Vec<(String, Json)> = Vec::new();
            members.push(("content".to_owned(), content));
            members.push(("role".to_owned(), role));
            let ghost mv = members@;
            let turn = Json::Object(members);
            proof {
                let tv = turn@->Object_0;
                assert(tv[0] == (mv[0].0@, mv[0].1@));
                assert(tv[1] == (mv[1].0@, mv[1].1@));
                assert(tv =~= message_value(history@[i as int].0@, history@[i as int].1)->Object_0);
            }
            messages.push(turn);
            i = i + 1;
        }
        let ghost ts = turns(history@);
        let ghost expected = Seq::new(ts.len(), |j: int| message_value(ts[j].0, ts[j].1));
        let array = Json::Array(messages);
        assert(array@ == JsonValue::Array(expected)) by {
            let av = array@->Array_0;
            assert forall|j: int| 0 <= j < av.len() implies av[j] == expected[j] by {
                assert(av[j] == messages@[j]@);
                assert(ts[j] == (history@[j].0@, history@[j].1));
            }
            assert(av =~= expected);
        }
        let model_text = Json::String(model.clone());
        let stream = Json::Bool(true);
        assert(model_text@ == JsonValue::String(model@));
        assert(stream@ == JsonValue::Bool(true));
        let mut members: Vec<(String, Json)> = Vec::new();
        members.push(("messages".to_owned(), array));
        members.push(("model".to_owned(), model_text));
        members.push(("stream".to_owned(), stream));
        let ghost rm = members@;
        let r = Json::Object(members);
        proof {
            let rv = r@->Object_0;
            assert(rv[0] == (rm[0].0@, rm[0].1@));
            assert(rv[1] == (rm[1].0@, rm[1].1@));
            assert(rv[2] == (rm[2].0@, rm[2].1@));
            assert(rv =~= chat_request(turns(history@), model@)->Object_0);
        }
        r
    }
}

/// The status that a running model's `"state"` names: "ready",
/// "starting" and "stopping" name theirs, anything else (or no state) is
/// stopped.
pub open spec fn named_status(state: Option<Seq<char>>) -> ModelStatus {
    if state == Some("ready"@) {
        ModelStatus::Ready
    } else if state == Some("starting"@) {
        ModelStatus::Starting
    } else if state == Some("stopping"@) {
        ModelStatus::Stopping
    } else {
        ModelStatus::Stopped
    }
}

/// The status that the list of running models gives `model`: the first
/// entry whose `"model"` is that name decides, by the state it names; a
/// model that no entry names is stopped.
pub open spec fn scan_running(items: Seq<JsonValue>, model: Seq<char>) -> ModelStatus
    decreases items.len(),
{
    if items.len() == 0 {
        ModelStatus::Stopped
    } else if opt_text(items[0].key("model"@)) == Some(model) {
        named_status(opt_text(items[0].key("state"@)))
    } else {
        scan_running(items.drop_first(), model)
    }
}

/// The status of `model` in a reply of the proxy's running-models address:
/// stopped unless the reply holds an array `"running"` that says otherwise.
pub open spec fn running_status(reply: JsonValue, model: Seq<char>) -> ModelStatus {
    match reply.key("running"@) {
        Some(JsonValue::Array(items)) => scan_running(items, model),
        _ => ModelStatus::Stopped,
    }
}

/// The status of `model` that the proxy reports, where `model` is the
/// selected model (if any) and `reply` the text of the reply to a request
/// of the running-models address (`None` where the request failed).
pub open spec fn reported_status(model: Option<Seq<char>>, reply: Option<Seq<char>>) -> ModelStatus {
    match (model, reply) {
        (Some(m), Some(text)) => match json_parse(text) {
            Some(doc) => running_status(doc, m),
            None => ModelStatus::Stopped,
        },
        _ => ModelStatus::Stopped,
    }
}

/// The status of `model` in a parsed reply of the running-models address.
pub fn status_in_reply(reply: &Json, model: &str) -> (r: ModelStatus)
    ensures
        r == running_status(reply@, model@),
{
    let running = chars_of("running");
    let name_key = chars_of("model");
    let state_key = chars_of("state");
    let ready = chars_of("ready");
    let starting = chars_of("starting");
    let stopping = chars_of("stopping");
    let wanted = chars_of(model);
    match reply.get_key(&running) {
        Some(Json::Array(items)) => {
            let ghost iv = reply@.key("running"@)->Some_0->Array_0;
            assert(iv.len() == items@.len());
            assert(iv.skip(0) =~= iv);
            let mut i: usize = 0;
            while i < items.len()
                invariant
                    i <= items.len(),
                    iv.len() == items@.len(),
                    forall|j: int| 0 <= j < items@.len() ==> #[trigger] iv[j] == items@[j]@,
                    running_status(reply@, model@) == scan_running(iv.skip(i as int), model@),
                    running@ == "running"@,
                    name_key@ == "model"@,
                    state_key@ == "state"@,
                    ready@ == "ready"@,
                    starting@ == "starting"@,
                    stopping@ == "stopping"@,
                    wanted@ == model@,
                decreases items.len() - i,
            {
                let item = &items[i];
                assert(iv.skip(i as int)[0] == item@);
                assert(iv.skip(i as int).drop_first() =~= iv.skip(i + 1));
                let loaded = match item.get_key(&name_key) {
                    Some(v) => v.as_text(),
                    None => None,
                };
                if let Some(loaded) = loaded {
                    if chars_eq(&chars_of(loaded.as_str()), &wanted) {
                        let state = match item.get_key(&state_key) {
                            Some(v) => v.as_text(),
                            None => None,
                        };
                        if let Some(state) = state {
                            let named = chars_of(state.as_str());
                            if chars_eq(&named, &ready) {
                                return ModelStatus::Ready;
                            }
                            if chars_eq(&named, &starting) {
                                return ModelStatus::Starting;
                            }
                            if chars_eq(&named, &stopping) {
                                return ModelStatus::Stopping;
                            }
                        }
                        return ModelStatus::Stopped;
                    }
                }
                i = i + 1;
            }
            ModelStatus::Stopped
        },
        _ => ModelStatus::Stopped,
    }
}

/// The status to show for `model` once the proxy has answered: always
/// some status, stopped where no model is selected, the request failed
/// (`reply` is `None`), or the reply is no JSON.
pub fn status_from_reply(model: &Option<String>, reply: Option<&str>) -> (r: Option<ModelStatus>)
    ensures
        r == Some(
            reported_status(
                match model {
                    Some(m) => Some(m@),
                    None => None,
                },
                match reply {
                    Some(t) => Some(t@),
                    None => None,
                },
            ),
        ),
{
    match model {
        Some(m) => match reply {
            Some(text) => match parse_json(text) {
                Some(doc) => Some(status_in_reply(&doc, m.as_str())),
                None => Some(ModelStatus::Stopped),
            },
            None => Some(ModelStatus::Stopped),
        },
        None => Some(ModelStatus::Stopped),
    }
}

/// What one line of a server-sent completion stream means.
pub ghost enum LineEvent {
    /// A piece of the answer.
    Chunk(Seq<char>),
    /// The `[DONE]` marker.
    Done,
}

/// The field prefix of a server-sent data line.
pub open spec fn data_prefix() -> Seq<char> {
    seq!['d', 'a', 't', 'a', ':', ' ']
}

/// The marker the server sends after the last piece.
pub open spec fn done_marker() -> Seq<char> {
    seq!['[', 'D', 'O', 'N', 'E', ']']
}

/// The text at `choices[0].delta.content` of a streamed completion chunk.
pub open spec fn delta_text(chunk: JsonValue) -> Option<Seq<char>> {
    opt_text(
        opt_key(
            opt_key(
                match chunk.key("choices"@) {
                    Some(c) => c.at(0),
                    None => None,
                },
                "delta"@,
            ),
            "content"@,
        ),
    )
}

/// The meaning of a line of the stream. Lines that are no data lines mean
/// nothing; a data line is the `[DONE]` marker (white space around it
/// aside), or a JSON chunk whose non-empty delta text is a piece of the
/// answer; anything else means nothing.
pub open spec fn line_event(line: Seq<char>) -> Option<LineEvent> {
    let p = data_prefix();
    if !(p.len() <= line.len() && line.subrange(0, p.len() as int) == p) || trim(line) == p {
        None
    } else {
        let body = line.skip(p.len() as int);
        if trim(body) == done_marker() {
            Some(LineEvent::Done)
        } else {
            match json_parse(body) {
                Some(chunk) => match delta_text(chunk) {
                    Some(t) => if t.len() > 0 {
                        Some(LineEvent::Chunk(t))
                    } else {
                        None
                    },
                    None => None,
                },
                None => None,
            }
        }
    }
}

/// The piece of the answer that a parsed stream chunk carries: its delta
/// text, where that text is there and not empty.
pub fn chunk_text(chunk: &Json) -> (r: Option<String>)
    ensures
        match r {
            Some(t) => delta_text(chunk@) == Some(t@) && t@.len() > 0,
            None => match delta_text(chunk@) {
                Some(t) => t.len() == 0,
                None => true,
            },
        },
{
    let choices = chars_of("choices");
    let delta = chars_of("delta");
    let content = chars_of("content");
    let first = match chunk.get_key(&choices) {
        Some(c) => c.get_index(0),
        None => None,
    };
    let d = match first {
        Some(f) => f.get_key(&delta),
        None => None,
    };
    let c = match d {
        Some(d) => d.get_key(&content),
        None => None,
    };
    let t = match c {
        Some(c) => c.as_text(),
        None => None,
    };
    match t {
        Some(t) => {
            if t.as_str().unicode_len() > 0 {
                Some(t.clone())
            } else {
                None
            }
        },
        None => None,
    }
}

impl LocalAiClient {
    /// Reads one line of the completion stream: a piece of the answer, the
    /// end of the answer, or nothing (see `line_event`).
    pub fn process_line(line: &str) -> (r: Option<Message>)
        ensures
            match r {
                None => line_event(line@) is None,
                Some(Message::StreamCompleted) => line_event(line@) == Some(LineEvent::Done),
                Some(Message::ReceivedChunk(t)) => line_event(line@) == Some(LineEvent::Chunk(t@)),
                Some(_) => false,
            },
    {
        let chars = chars_of(line);
        let prefix: Vec<char> = vec!['d', 'a', 't', 'a', ':', ' '];
        assert(prefix@ =~= data_prefix());
        if !starts_with(&chars, &prefix) || chars_eq(&trimmed(&chars), &prefix) {
            return None;
        }
        let mut body: Vec<char> = Vec::new();
        let mut i: usize = prefix.len();
        while i < chars.len()
            invariant
                prefix@.len() <= i <= chars@.len(),
                body@ == chars@.subrange(prefix@.len() as int, i as int),
            decreases chars.len() - i,
        {
            body.push(chars[i]);
            i = i + 1;
        }
        assert(body@ =~= line@.skip(6));
        let done: Vec<char> = vec!['[', 'D', 'O', 'N', 'E', ']'];
        assert(done@ =~= done_marker());
        if chars_eq(&trimmed(&body), &done) {
            return Some(Message::StreamCompleted);
        }
        let text = string_of(&body);
        match parse_json(text.as_str()) {
            Some(chunk) => match chunk_text(&chunk) {
                Some(t) => Some(Message::ReceivedChunk(t)),
                None => None,
            },
            None => None,
        }
    }
}

/// Where the reading of a completion stream stands.
#[derive(Debug, Clone, Copy, PartialEq, Eq, Structural)]
pub enum StreamState {
    /// The request is not answered yet (or no line has meant anything yet).
    First,
    /// At least one message came from the stream.
    Iteration,
    /// The stream is over.
    End,
}

/// What the transport reports to the stream reader.
pub enum StreamInput {
    /// The request could not be made; the text says why.
    RequestFailed(String),
    /// One line of the reply, as read.
    Line(String),
    /// No further line could be read.
    Exhausted,
}

/// What the stream reader asks for next.
pub enum StreamStep {
    /// Hand this message to the application.
    Emit(Message),
    /// Read another line.
    ReadLine,
    /// The stream is finished.
    Finish,
}

/// One step of reading a completion stream. A failed request yields its
/// error as a piece of the answer and ends the stream; a line that means
/// something yields it; a line that means nothing asks for another; the end
/// of the reply yields the end of the answer; once ended, the stream stays
/// finished.
pub fn stream_next(state: StreamState, input: StreamInput) -> (r: (StreamState, StreamStep))
    requires
        input is RequestFailed ==> state == StreamState::First,
    ensures
        state == StreamState::End ==> r.0 == StreamState::End && r.1 is Finish,
        state != StreamState::End ==> match input {
            StreamInput::RequestFailed(e) => r.0 == StreamState::End && match r.1 {
                StreamStep::Emit(Message::ReceivedChunk(t)) => t@ == "Error: "@ + e@,
                _ => false,
            },
            StreamInput::Exhausted => r.0 == StreamState::End && match r.1 {
                StreamStep::Emit(Message::StreamCompleted) => true,
                _ => false,
            },
            StreamInput::Line(l) => match line_event(l@) {
                None => r.0 == state && r.1 is ReadLine,
                Some(LineEvent::Done) => r.0 == StreamState::Iteration && match r.1 {
                    StreamStep::Emit(Message::StreamCompleted) => true,
                    _ => false,
                },
                Some(LineEvent::Chunk(t)) => r.0 == StreamState::Iteration && match r.1 {
                    StreamStep::Emit(Message::ReceivedChunk(c)) => c@ == t,
                    _ => false,
                },
            },
        },
{
    if state == StreamState::End {
        return (StreamState::End, StreamStep::Finish);
    }
    match input {
        StreamInput::RequestFailed(e) => {
            let mut t = "Error: ".to_owned();
            t.append(e.as_str());
            (StreamState::End, StreamStep::Emit(Message::ReceivedChunk(t)))
        },
        StreamInput::Exhausted => (StreamState::End, StreamStep::Emit(Message::StreamCompleted)),
        StreamInput::Line(l) => match LocalAiClient::process_line(l.as_str()) {
            Some(m) => (StreamState::Iteration, StreamStep::Emit(m)),
            None => (state, StreamStep::ReadLine),
        },
    }
}

} // verus!
