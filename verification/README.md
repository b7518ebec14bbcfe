# jalmi

A chat front end for local language models served by `llama-swap`, split
into a verified library and a thin application.

- `src/` is the library, verified with Verus:
  - `chat.rs`: the chat window's state machine (what each message does to
    the conversation, the selected model and the stream, and what the window
    must do next), with its specification `next_state` / `command_of`;
  - `llm.rs`: model status, the proxy client's addresses, the chat request
    body, reading the running-models reply and the server-sent completion
    stream (line by line, and as a small state machine);
  - `json.rs`: a plain JSON model and the parse done by `serde_json`;
  - `editor.rs`: word deletion and the prompt editor's key bindings;
  - `widgets.rs`: what the status box and the controls show;
  - `config.rs`: the proxy configuration and finding the proxy's port;
  - `api.rs`, `gui.rs`: the single-prompt completion window;
  - `text.rs`: white space, trimming, decimal rendering, character vectors;
  - `laws.rs`: properties that span several functions or calls.
- `app/` is the iced application: windows, widgets and colours, HTTP
  requests, the configuration file, and the process table.
- `tests/` runs the library on concrete values.
