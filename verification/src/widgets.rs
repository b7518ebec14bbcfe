//! What the window's widgets show: the model status box, and which
//! controls are active with which labels.
use vstd::prelude::*;
use crate::chat::{AppState, AppView, Message};
use crate::llm::{get_status, is_model_active, status_name, ModelStatus};

verus! {

/// The colour of the status box.
#[derive(Debug, Clone, Copy, PartialEq, Eq, Structural)]
pub enum StatusColor {
    Green,
    Orange,
    RedOrange,
    LightGray,
}

/// Ready is green, starting orange, stopping and stopped red-orange, and
/// an unknown status light gray.
pub open spec fn spec_status_color(status: Option<ModelStatus>) -> StatusColor {
    match status {
        Some(ModelStatus::Ready) => StatusColor::Green,
        Some(ModelStatus::Starting) => StatusColor::Orange,
        Some(ModelStatus::Stopping) => StatusColor::RedOrange,
        Some(ModelStatus::Stopped) => StatusColor::RedOrange,
        None => StatusColor::LightGray,
    }
}

/// The colour of the status box for `status`.
pub fn status_color(status: &Option<ModelStatus>) -> (r: StatusColor)
    ensures
        r == spec_status_color(*status),
{
    match status {
        Some(ModelStatus::Ready) => StatusColor::Green,
        Some(ModelStatus::Starting) => StatusColor::Orange,
        Some(ModelStatus::Stopping) => StatusColor::RedOrange,
        Some(ModelStatus::Stopped) => StatusColor::RedOrange,
        None => StatusColor::LightGray,
    }
}

/// The text of the status box for `status`.
pub fn status_caption(status: &Option<ModelStatus>) -> (r: String)
    ensures
        r@ == "   Status: "@ + status_name(*status) + "  "@,
{
    let mut r = "   Status: ".to_owned();
    let name = get_status(status);
    r.append(name.as_str());
    r.append("  ");
    r
}

/// A two-state button: whether it is in its active state, and the label it
/// shows and the message it sends in the state it is in.
pub struct ButtonView {
    pub active: bool,
    pub label: String,
    pub message: Message,
}

/// The chat window's controls.
pub struct Controls {
    /// The input box takes text.
    pub input_active: bool,
    /// Sends the prompt, or stops the answer being streamed.
    pub send: ButtonView,
    /// Asks again for the last answer, or does nothing.
    pub retry: ButtonView,
    /// Loads the selected model, or unloads it.
    pub model: ButtonView,
}

/// The input box and the send button work while no answer streams; the
/// send button otherwise reads "Stop" and stops the stream.
pub open spec fn send_button(s: AppView) -> (bool, Seq<char>, Message) {
    if !s.is_streaming {
        (true, "Send"@, Message::Generate)
    } else {
        (false, "Stop"@, Message::StreamStop)
    }
}

/// Retry works while no answer streams and the conversation has begun;
/// otherwise it reads "..." and does nothing.
pub open spec fn retry_button(s: AppView) -> (bool, Seq<char>, Message) {
    if !s.is_streaming && s.history.len() > 0 {
        (true, "Retry"@, Message::Regenerate)
    } else {
        (false, "..."@, Message::Nothing)
    }
}

/// Load works while no answer streams and a model is selected but not
/// ready; otherwise the button unloads, and reads "Unload", or "Select a
/// model first" where no model is selected.
pub open spec fn model_button(s: AppView) -> (bool, Seq<char>, Message) {
    if !s.is_streaming && s.model_status != Some(ModelStatus::Ready) && s.selected_model is Some {
        (true, "Load"@, Message::LoadModel)
    } else if s.selected_model is Some {
        (false, "Unload"@, Message::UnloadModel)
    } else {
        (false, "Select a model first"@, Message::UnloadModel)
    }
}

impl ButtonView {
    pub open spec fn shows(&self, b: (bool, Seq<char>, Message)) -> bool {
        self.active == b.0 && self.label@ == b.1 && self.message == b.2
    }
}

/// The state of the controls of the chat window.
pub fn controls(state: &AppState) -> (r: Controls)
    ensures
        r.input_active == !state@.is_streaming,
        r.send.shows(send_button(state@)),
        r.retry.shows(retry_button(state@)),
        r.model.shows(model_button(state@)),
{
    let idle = !state.is_streaming;
    let send = if idle {
        ButtonView { active: true, label: "Send".to_owned(), message: Message::Generate }
    } else {
        ButtonView { active: false, label: "Stop".to_owned(), message: Message::StreamStop }
    };
    let retry = if idle && state.history.len() > 0 {
        ButtonView { active: true, label: "Retry".to_owned(), message: Message::Regenerate }
    } else {
        ButtonView { active: false, label: "...".to_owned(), message: Message::Nothing }
    };
    let model = if idle && !is_model_active(&state.model_status) && state.selected_model.is_some() {
        ButtonView { active: true, label: "Load".to_owned(), message: Message::LoadModel }
    } else if state.selected_model.is_some() {
        ButtonView { active: false, label: "Unload".to_owned(), message: Message::UnloadModel }
    } else {
        ButtonView {
            active: false,
            label: "Select a model first".to_owned(),
            message: Message::UnloadModel,
        }
    };
    Controls { input_active: idle, send, retry, model }
}

} // verus!
