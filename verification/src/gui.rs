//! The single-prompt completion window: pick a model, write a prompt,
//! send it, read the reply.
use vstd::prelude::*;
use crate::config::{model_list, Config};

verus! {

/// What the completion window reacts to.
pub enum Message {
    ModelSelected(String),
    PromptChanged(String),
    SendPressed,
    /// The reply's text, or the error text.
    ResponseReceived(Result<String, String>),
}

/// The request that the window sends for a prompt.
pub struct CompletionQuery {
    pub model: String,
    pub prompt: String,
    pub max_tokens: u32,
}

/// The most tokens a reply may have.
pub const MAX_TOKENS: u32 = 1024;

/// The completion window's state.
pub struct LlmFrontend {
    pub config: Config,
    /// The configured models' names.
    pub models: Vec<String>,
    pub selected_model: Option<String>,
    pub prompt: String,
    /// The text shown as the reply.
    pub response: String,
}

impl LlmFrontend {
    /// A window over `config`: its models listed (each once, as the names
    /// of a well-formed configuration are), none selected, prompt and reply
    /// empty.
    pub fn new(config: Config) -> (r: Self)
        ensures
            r.models@.map_values(|m: String| m@) == config.model_names(),
            config.wf() ==> forall|i: int, j: int|
                0 <= i < r.models@.len() && 0 <= j < r.models@.len() && i != j
                    ==> r.models@[i]@ != r.models@[j]@,
            r.config == config,
            r.selected_model is None,
            r.prompt@ == Seq::<char>::empty(),
            r.response@ == Seq::<char>::empty(),
    {
        let models = model_list(&config);
        LlmFrontend { config, models, selected_model: None, prompt: String::new(), response: String::new() }
    }

    /// The window's title.
    pub fn title(&self) -> (r: String)
        ensures
            r@ == "LLM Frontend"@,
    {
        "LLM Frontend".to_owned()
    }

    /// Applies `message`; where a prompt is to be sent, returns the request
    /// to send. Sending needs a selected model; a reply replaces the text
    /// shown, and an error is shown after "Error: ".
    pub fn update(&mut self, message: Message) -> (r: Option<CompletionQuery>)
        ensures
            final(self).config == old(self).config,
            final(self).models == old(self).models,
            match message {
                Message::ModelSelected(m) => r is None && final(self).selected_model == Some(m)
                    && final(self).prompt == old(self).prompt
                    && final(self).response == old(self).response,
                Message::PromptChanged(p) => r is None && final(self).prompt == p
                    && final(self).selected_model == old(self).selected_model
                    && final(self).response == old(self).response,
                Message::SendPressed => final(self).selected_model == old(self).selected_model
                    && final(self).prompt == old(self).prompt
                    && final(self).response == old(self).response
                    && match old(self).selected_model {
                        Some(m) => r matches Some(q) && q.model@ == m@ && q.prompt@
                            == old(self).prompt@ && q.max_tokens == MAX_TOKENS,
                        None => r is None,
                    },
                Message::ResponseReceived(result) => r is None
                    && final(self).selected_model == old(self).selected_model
                    && final(self).prompt == old(self).prompt
                    && match result {
                        Ok(text) => final(self).response@ == text@,
                        Err(e) => final(self).response@ == "Error: "@ + e@,
                    },
            },
    {
        match message {
            Message::ModelSelected(model) => {
                self.selected_model = Some(model);
                None
            },
            Message::PromptChanged(value) => {
                self.prompt = value;
                None
            },
            Message::SendPressed => {
                match &self.selected_model {
                    Some(model) => Some(
                        CompletionQuery {
                            model: model.clone(),
                            prompt: self.prompt.clone(),
                            max_tokens: MAX_TOKENS,
                        },
                    ),
                    None => None,
                }
            },
            Message::ResponseReceived(result) => {
                match result {
                    Ok(text) => {
                        self.response = text;
                    },
                    Err(e) => {
                        let mut shown = "Error: ".to_owned();
                        shown.append(e.as_str());
                        self.response = shown;
                    },
                }
                None
            },
        }
    }
}

} // verus!
