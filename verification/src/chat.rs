//! The chat window's state and its decisions: what each message does to
//! the conversation, the selected model and the stream, and what the
//! window must do in turn (start or stop a stream, ask for a model's
//! status, clear the input).
use vstd::prelude::*;
use crate::json::{Json, JsonValue};
use crate::llm::{
    chat_request, reported_status, status_from_reply, turns, ClientView, LocalAiClient, ModelStatus,
};
use crate::text::{blank, chars_of, is_blank};

verus! {

/// What the chat window reacts to.
pub enum Message {
    /// Does nothing.
    Nothing,
    /// The text of the input box changed; carries its whole text.
    TextInputChanged(String),
    /// A model was picked in the list.
    OptionSelected(String),
    /// Send the prompt written in the input box.
    Generate,
    /// Ask the model for an answer to the conversation so far.
    Request,
    /// A piece of the answer arrived.
    ReceivedChunk(String),
    /// The answer is complete.
    StreamCompleted,
    /// Stop the answer being streamed.
    StreamStop,
    /// Ask again for the last answer.
    Regenerate,
    /// Ask the proxy to unload the models it runs, to free their resources.
    UnloadModel,
    /// Load the selected model by starting a request and dropping it.
    LoadModel,
    /// Find out whether the selected model is loaded.
    CheckLoaded,
    /// The proxy's reply about `model`: the text of the running-models
    /// reply, or `None` where the request failed.
    StatusReply(String, Option<String>),
}

/// What the window must do after a message.
pub enum Command {
    /// Nothing.
    Nothing,
    /// Deliver this message next.
    Dispatch(Message),
    /// Empty the input box, then deliver this message.
    ClearInputAndDispatch(Message),
    /// Stream the completion of the request `body` sent to `url`, and keep
    /// the means of stopping it.
    StartStream(String, Json),
    /// Stop the stream being read.
    AbortStream,
    /// Send the request `body` to `url` to make the proxy load the model,
    /// and drop it after the given number of milliseconds.
    WarmUp(String, Json, u64),
    /// Ask `url` which models run, and report it about `model` with
    /// `Message::StatusReply`.
    FetchStatus(String, String),
    /// Request `url`, which makes the proxy unload its models, then deliver
    /// this message.
    Unload(String, Message),
}

/// The chat window's state.
pub struct AppState {
    /// The models that the proxy is configured with.
    pub models: Vec<String>,
    /// The text of the input box.
    pub input: String,
    pub selected_model: Option<String>,
    /// The conversation: each turn's text, and whether the assistant wrote it.
    pub history: Vec<(String, bool)>,
    pub client: LocalAiClient,
    /// Whether an answer is being streamed.
    pub is_streaming: bool,
    pub model_status: Option<ModelStatus>,
}

/// The mathematical value of the chat window's state.
#[verifier::ext_equal]
pub ghost struct AppView {
    pub models: Seq<Seq<char>>,
    pub input: Seq<char>,
    pub selected_model: Option<Seq<char>>,
    pub history: Seq<(Seq<char>, bool)>,
    pub client: ClientView,
    pub is_streaming: bool,
    pub model_status: Option<ModelStatus>,
}

pub open spec fn opt_view(s: Option<String>) -> Option<Seq<char>> {
    match s {
        Some(s) => Some(s@),
        None => None,
    }
}

impl View for AppState {
    type V = AppView;

    open spec fn view(&self) -> AppView {
        AppView {
            models: self.models@.map_values(|m: String| m@),
            input: self.input@,
            selected_model: opt_view(self.selected_model),
            history: turns(self.history@),
            client: self.client@,
            is_streaming: self.is_streaming,
            model_status: self.model_status,
        }
    }
}

/// The mathematical value of a command.
pub ghost enum CommandView {
    Nothing,
    Dispatch(Message),
    ClearInputAndDispatch(Message),
    StartStream(Seq<char>, JsonValue),
    AbortStream,
    WarmUp(Seq<char>, JsonValue, u64),
    FetchStatus(Seq<char>, Seq<char>),
    Unload(Seq<char>, Message),
}

impl View for Command {
    type V = CommandView;

    open spec fn view(&self) -> CommandView {
        match self {
            Command::Nothing => CommandView::Nothing,
            Command::Dispatch(m) => CommandView::Dispatch(*m),
            Command::ClearInputAndDispatch(m) => CommandView::ClearInputAndDispatch(*m),
            Command::StartStream(u, b) => CommandView::StartStream(u@, b@),
            Command::AbortStream => CommandView::AbortStream,
            Command::WarmUp(u, b, ms) => CommandView::WarmUp(u@, b@, *ms),
            Command::FetchStatus(u, m) => CommandView::FetchStatus(u@, m@),
            Command::Unload(u, m) => CommandView::Unload(u@, *m),
        }
    }
}

/// How long a warm-up request runs before it is dropped, in milliseconds.
pub const WARM_UP_MILLIS: u64 = 100;

/// The address that streams chat completions for a client.
pub open spec fn completions_url(c: ClientView) -> Seq<char> {
    c.base_url + "/v1/chat/completions"@
}

/// The address that lists the running models for a client.
pub open spec fn running_url(c: ClientView) -> Seq<char> {
    c.base_url + "/running"@
}

/// The address that makes the proxy unload its models.
pub open spec fn unload_url(c: ClientView) -> Seq<char> {
    c.base_url + "/unload"@
}

/// A prompt is sent when it is not blank, a model is selected and no answer
/// streams.
pub open spec fn can_send(s: AppView) -> bool {
    !is_blank(s.input) && s.selected_model is Some && !s.is_streaming
}

/// A model is unloaded when one is selected and no answer streams.
pub open spec fn can_unload(s: AppView) -> bool {
    s.selected_model is Some && !s.is_streaming
}

/// The conversation once a piece of the answer has arrived: it is appended
/// to the last turn where the assistant wrote that turn, and dropped
/// otherwise.
pub open spec fn with_chunk(history: Seq<(Seq<char>, bool)>, chunk: Seq<char>) -> Seq<(Seq<char>, bool)> {
    if history.len() > 0 && history.last().1 {
        history.drop_last().push((history.last().0 + chunk, true))
    } else {
        history
    }
}

/// The state after `m`.
pub open spec fn next_state(s: AppView, m: Message) -> AppView {
    match m {
        Message::TextInputChanged(text) => AppView { input: text@, ..s },
        Message::OptionSelected(model) => AppView { selected_model: Some(model@), ..s },
        Message::Generate => if can_send(s) {
            AppView { history: s.history.push((s.input, false)), input: Seq::empty(), ..s }
        } else {
            s
        },
        Message::Request => AppView {
            history: s.history.push((Seq::empty(), true)),
            is_streaming: true,
            ..s
        },
        Message::ReceivedChunk(chunk) => AppView { history: with_chunk(s.history, chunk@), ..s },
        Message::StreamCompleted => AppView { is_streaming: false, ..s },
        Message::StreamStop => AppView { is_streaming: false, ..s },
        Message::Regenerate => AppView {
            history: if s.history.len() > 0 {
                s.history.drop_last()
            } else {
                s.history
            },
            ..s
        },
        Message::LoadModel => AppView { model_status: Some(ModelStatus::Starting), ..s },
        Message::UnloadModel => if can_unload(s) {
            AppView { model_status: Some(ModelStatus::Stopping), ..s }
        } else {
            s
        },
        Message::CheckLoaded => if s.selected_model is None {
            AppView { model_status: Some(ModelStatus::Stopped), ..s }
        } else {
            s
        },
        Message::StatusReply(model, reply) => AppView {
            model_status: Some(reported_status(Some(model@), opt_view(reply))),
            ..s
        },
        _ => s,
    }
}

/// What the window must do after `m` in the state `s`.
pub open spec fn command_of(s: AppView, m: Message) -> CommandView {
    match m {
        Message::OptionSelected(_) => CommandView::Dispatch(Message::CheckLoaded),
        Message::Generate => if can_send(s) {
            CommandView::ClearInputAndDispatch(Message::Request)
        } else {
            CommandView::Nothing
        },
        Message::Request => CommandView::StartStream(
            completions_url(s.client),
            chat_request(s.history.push((Seq::empty(), true)), s.selected_model->Some_0),
        ),
        Message::StreamStop => if s.is_streaming {
            CommandView::AbortStream
        } else {
            CommandView::Nothing
        },
        Message::Regenerate => CommandView::Dispatch(Message::Request),
        Message::LoadModel => CommandView::WarmUp(
            completions_url(s.client),
            chat_request(s.history, s.selected_model->Some_0),
            WARM_UP_MILLIS,
        ),
        Message::UnloadModel => if can_unload(s) {
            CommandView::Unload(unload_url(s.client), Message::CheckLoaded)
        } else {
            CommandView::Nothing
        },
        Message::CheckLoaded => match s.selected_model {
            Some(model) => CommandView::FetchStatus(running_url(s.client), model),
            None => CommandView::Nothing,
        },
        _ => CommandView::Nothing,
    }
}

/// The messages that need a selected model.
pub open spec fn needs_model(m: Message) -> bool {
    m is Request || m is LoadModel
}

impl AppState {
    /// A window with an empty input box, no conversation, no model
    /// selected, no stream and no known status.
    pub fn new(models: Vec<String>, client: LocalAiClient) -> (r: Self)
        ensures
            r@.models == models@.map_values(|m: String| m@),
            r@.client == client@,
            r@.input.len() == 0,
            r@.selected_model is None,
            r@.history.len() == 0,
            !r@.is_streaming,
            r@.model_status is None,
    {
        AppState {
            models,
            input: String::new(),
            selected_model: None,
            history: Vec::new(),
            client,
            is_streaming: false,
            model_status: None,
        }
    }
}

/// Applies `message` to the window's state and says what the window must
/// do next. A request and a load need a selected model.
pub fn update(state: &mut AppState, message: Message) -> (r: Command)
    requires
        needs_model(message) ==> old(state)@.selected_model is Some,
    ensures
        final(state)@ == next_state(old(state)@, message),
        r@ == command_of(old(state)@, message),
{
    let ghost s0 = old(state)@;
    let ghost m0 = message;
    match message {
        Message::OptionSelected(selected) => {
            state.selected_model = Some(selected);
            assert(state@ =~= next_state(s0, m0));
            Command::Dispatch(Message::CheckLoaded)
        },
        Message::TextInputChanged(text) => {
            state.input = text;
            assert(state@ =~= next_state(s0, m0));
            Command::Nothing
        },
        Message::Generate => {
            let chars = chars_of(state.input.as_str());
            if !blank(&chars) && state.selected_model.is_some() && !state.is_streaming {
                let mut text = String::new();
                std::mem::swap(&mut text, &mut state.input);
                state.history.push((text, false));
                assert(state@.history =~= s0.history.push((s0.input, false)));
                assert(state@ =~= next_state(s0, m0));
                Command::ClearInputAndDispatch(Message::Request)
            } else {
                assert(state@ =~= next_state(s0, m0));
                Command::Nothing
            }
        },
        Message::Request => {
            state.history.push((String::new(), true));
            let model = match &state.selected_model {
                Some(m) => m.clone(),
                None => String::new(),
            };
            assert(state@.history =~= s0.history.push((Seq::empty(), true)));
            let body = LocalAiClient::create_chat_request(&state.history, &model);
            state.is_streaming = true;
            assert(state@ =~= next_state(s0, m0));
            Command::StartStream(state.client.completions_url(), body)
        },
        Message::ReceivedChunk(chunk) => {
            let n = state.history.len();
            if n > 0 && state.history[n - 1].1 {
                let (mut response, is_ai) = state.history.pop().unwrap();
                response.append(chunk.as_str());
                state.history.push((response, is_ai));
                assert(state@.history =~= with_chunk(s0.history, m0->ReceivedChunk_0@));
            }
            assert(state@ =~= next_state(s0, m0));
            Command::Nothing
        },
        Message::StreamCompleted => {
            state.is_streaming = false;
            Command::Nothing
        },
        Message::StreamStop => {
            if state.is_streaming {
                state.is_streaming = false;
                Command::AbortStream
            } else {
                Command::Nothing
            }
        },
        Message::Regenerate => {
            state.history.pop();
            assert(state@ =~= next_state(s0, m0));
            Command::Dispatch(Message::Request)
        },
        Message::LoadModel => {
            let model = match &state.selected_model {
                Some(m) => m.clone(),
                None => String::new(),
            };
            let body = LocalAiClient::create_chat_request(&state.history, &model);
            state.model_status = Some(ModelStatus::Starting);
            Command::WarmUp(state.client.completions_url(), body, WARM_UP_MILLIS)
        },
        Message::UnloadModel => {
            if state.selected_model.is_some() && !state.is_streaming {
                state.model_status = Some(ModelStatus::Stopping);
                Command::Unload(state.client.unload_url(), Message::CheckLoaded)
            } else {
                Command::Nothing
            }
        },
        Message::CheckLoaded => {
            match &state.selected_model {
                Some(m) => Command::FetchStatus(state.client.running_url(), m.clone()),
                None => {
                    state.model_status = Some(ModelStatus::Stopped);
                    Command::Nothing
                },
            }
        },
        Message::StatusReply(model, reply) => {
            let text = match &reply {
                Some(t) => Some(t.as_str()),
                None => None,
            };
            state.model_status = status_from_reply(&Some(model), text);
            Command::Nothing
        },
        _ => Command::Nothing,
    }
}

} // verus!
