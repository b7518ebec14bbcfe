//! Properties of the library that span several functions or calls.
use vstd::prelude::*;
use crate::chat::{
    can_unload, command_of, completions_url, next_state, unload_url, with_chunk, AppView, CommandView,
    Message,
};
use crate::json::{json_parse, opt_text, JsonValue};
use crate::llm::{
    chat_request, data_prefix, done_marker, line_event, local_url, running_status, scan_running,
    status_name, LineEvent, ModelStatus,
};
use crate::text::{decimal, digit_char, is_blank, is_white_space, trim, trim_end, trim_start};

verus! {

/// The status box reads "Ready" exactly when the model counts as active
/// (`is_model_active`).
pub proof fn law_ready_name_iff_active(status: Option<ModelStatus>)
    ensures
        (status_name(status) == "Ready"@) <==> (status == Some(ModelStatus::Ready)),
{
    reveal_strlit("Ready");
    reveal_strlit("Starting");
    reveal_strlit("Stopping");
    reveal_strlit("Stopped");
    reveal_strlit("Unknown");
    if status != Some(ModelStatus::Ready) {
        assert(status_name(status).len() != 5 || status_name(status)[0] != 'R');
    }
}

proof fn lemma_decimal_len(n: nat)
    ensures
        decimal(n).len() >= 1,
        (decimal(n).len() == 1) <==> n < 10,
    decreases n,
{
    if n >= 10 {
        lemma_decimal_len(n / 10);
    }
}

proof fn lemma_digit_injective(d: nat, e: nat)
    requires
        d < 10,
        e < 10,
        digit_char(d) == digit_char(e),
    ensures
        d == e,
{
    assert(digit_char(d) as u32 == d + 48);
    assert(digit_char(e) as u32 == e + 48);
}

/// Different numbers have different decimal renderings.
pub proof fn law_decimal_injective(n: nat, m: nat)
    requires
        decimal(n) == decimal(m),
    ensures
        n == m,
    decreases n,
{
    lemma_decimal_len(n);
    lemma_decimal_len(m);
    if n < 10 {
        assert(decimal(m).len() == 1);
        assert(decimal(n)[0] == digit_char(n));
        assert(decimal(m)[0] == digit_char(m));
        lemma_digit_injective(n, m);
    } else {
        assert(decimal(n).last() == digit_char(n % 10));
        assert(decimal(m).last() == digit_char(m % 10));
        lemma_digit_injective(n % 10, m % 10);
        assert(decimal(n).drop_last() =~= decimal(n / 10));
        assert(decimal(m).drop_last() =~= decimal(m / 10));
        law_decimal_injective(n / 10, m / 10);
    }
}

/// Clients of different ports talk to different addresses: the address
/// determines the port.
pub proof fn law_address_determines_port(p: u16, q: u16)
    requires
        local_url(p) == local_url(q),
    ensures
        p == q,
{
    let h = "http://localhost:"@;
    assert((h + decimal(p as nat)).skip(h.len() as int) =~= decimal(p as nat));
    assert((h + decimal(q as nat)).skip(h.len() as int) =~= decimal(q as nat));
    law_decimal_injective(p as nat, q as nat);
}

/// Pieces of an answer accumulate: receiving `a` and then `b` leaves the
/// conversation as receiving their concatenation at once would.
pub proof fn law_chunks_concatenate(s: AppView, a: String, b: String, ab: String)
    requires
        ab@ == a@ + b@,
    ensures
        next_state(next_state(s, Message::ReceivedChunk(a)), Message::ReceivedChunk(b))
            == next_state(s, Message::ReceivedChunk(ab)),
{
    let h = s.history;
    if h.len() > 0 && h.last().1 {
        let h1 = with_chunk(h, a@);
        assert(h1.last() == (h.last().0 + a@, true));
        assert(h1.drop_last() =~= h.drop_last());
        assert(h.last().0 + a@ + b@ =~= h.last().0 + ab@);
        assert(with_chunk(h1, b@) =~= with_chunk(h, ab@));
    }
    assert(next_state(next_state(s, Message::ReceivedChunk(a)), Message::ReceivedChunk(b))
        =~= next_state(s, Message::ReceivedChunk(ab)));
}

/// Retrying asks again over the same conversation: the last turn gives
/// way to a fresh, empty answer, and the request sent carries the
/// conversation before it.
pub proof fn law_retry_asks_again(s: AppView)
    requires
        s.history.len() > 0,
        s.selected_model is Some,
    ensures
        command_of(s, Message::Regenerate) == CommandView::Dispatch(Message::Request),
        next_state(next_state(s, Message::Regenerate), Message::Request).history == s.history.drop_last().push(
            (Seq::empty(), true),
        ),
        next_state(next_state(s, Message::Regenerate), Message::Request).is_streaming,
        command_of(next_state(s, Message::Regenerate), Message::Request) == CommandView::StartStream(
            completions_url(s.client),
            chat_request(s.history.drop_last().push((Seq::empty(), true)), s.selected_model->Some_0),
        ),
{
}

/// A prompt is sent with the whole conversation: when the window is idle,
/// a model is selected and the input is not blank, sending it and then
/// requesting streams the request over the earlier turns, the prompt, and
/// an empty answer, and the input is emptied.
pub proof fn law_prompt_sent_with_context(s: AppView)
    requires
        !s.is_streaming,
        s.selected_model is Some,
        !is_blank(s.input),
    ensures
        command_of(s, Message::Generate) == CommandView::ClearInputAndDispatch(Message::Request),
        next_state(s, Message::Generate).input.len() == 0,
        command_of(next_state(s, Message::Generate), Message::Request) == CommandView::StartStream(
            completions_url(s.client),
            chat_request(
                s.history.push((s.input, false)).push((Seq::empty(), true)),
                s.selected_model->Some_0,
            ),
        ),
{
}

/// While an answer streams, the last turn of the conversation is the
/// assistant's, the one the pieces go to.
pub open spec fn streams_into_answer(s: AppView) -> bool {
    s.is_streaming ==> s.history.len() > 0 && s.history.last().1
}

/// Every message keeps the streamed answer at the end of the conversation,
/// except a retry while an answer streams (it drops that answer before
/// the next request adds a new one).
pub proof fn law_stream_target_kept(s: AppView, m: Message)
    requires
        streams_into_answer(s),
        !(m is Regenerate && s.is_streaming),
    ensures
        streams_into_answer(next_state(s, m)),
{
    match m {
        Message::ReceivedChunk(c) => {
            if s.history.len() > 0 && s.history.last().1 {
                assert(with_chunk(s.history, c@).last().1);
            }
        },
        _ => {},
    }
}

/// Loading shows the model as starting; unloading a selected model while
/// no answer streams asks the proxy to unload, shows the model as stopping
/// (no longer ready), and then asks for its status again.
pub proof fn law_load_and_unload_show_progress(s: AppView)
    ensures
        next_state(s, Message::LoadModel).model_status == Some(ModelStatus::Starting),
        can_unload(s) ==> next_state(s, Message::UnloadModel).model_status == Some(
            ModelStatus::Stopping,
        ),
        can_unload(s) ==> command_of(s, Message::UnloadModel) == CommandView::Unload(
            unload_url(s.client),
            Message::CheckLoaded,
        ),
        next_state(s, Message::LoadModel).history == s.history,
        next_state(s, Message::UnloadModel).history == s.history,
{
}

proof fn lemma_trim_end_last(s: Seq<char>)
    ensures
        trim_end(s).len() > 0 ==> !is_white_space(trim_end(s).last()),
    decreases s.len(),
{
    if s.len() > 0 && is_white_space(s.last()) {
        lemma_trim_end_last(s.drop_last());
    }
}

/// A data line whose JSON chunk carries a non-empty delta text `t` at
/// `choices[0].delta.content` is read as exactly the piece `t`: no
/// character of it is added, dropped or trimmed.
pub proof fn law_data_line_yields_piece_exactly(
    body: Seq<char>,
    chunk: JsonValue,
    choice: JsonValue,
    delta: JsonValue,
    t: Seq<char>,
)
    requires
        json_parse(body) == Some(chunk),
        chunk.key("choices"@) is Some,
        chunk.key("choices"@)->Some_0.at(0) == Some(choice),
        choice.key("delta"@) == Some(delta),
        delta.key("content"@) == Some(JsonValue::String(t)),
        t.len() > 0,
        trim(body) != done_marker(),
    ensures
        line_event(data_prefix() + body) == Some(LineEvent::Chunk(t)),
{
    let line = data_prefix() + body;
    assert(line.subrange(0, 6) =~= data_prefix());
    assert(line.skip(6) =~= body);
    lemma_trim_end_last(trim_start(line));
    if trim(line) == data_prefix() {
        assert(trim(line).last() == ' ');
        assert(is_white_space(' '));
    }
}

/// The chat request carries the whole conversation: its "messages" has one
/// entry per turn, in order, each with the turn's text as "content" and
/// "assistant" or "user" as "role"; its "model" is the model asked for, and
/// "stream" is true.
pub proof fn law_request_carries_every_turn(h: Seq<(Seq<char>, bool)>, model: Seq<char>)
    ensures
        chat_request(h, model).key("messages"@) is Some,
        chat_request(h, model).key("messages"@)->Some_0 is Array,
        chat_request(h, model).key("messages"@)->Some_0->Array_0.len() == h.len(),
        forall|i: int|
            0 <= i < h.len() ==> {
                let turn = #[trigger] chat_request(h, model).key("messages"@)->Some_0->Array_0[i];
                &&& turn.key("content"@) == Some(JsonValue::String(h[i].0))
                &&& turn.key("role"@) == Some(
                    JsonValue::String(if h[i].1 { "assistant"@ } else { "user"@ }),
                )
            },
        chat_request(h, model).key("model"@) == Some(JsonValue::String(model)),
        chat_request(h, model).key("stream"@) == Some(JsonValue::Bool(true)),
{
    reveal_strlit("messages");
    reveal_strlit("model");
    reveal_strlit("stream");
    reveal_strlit("content");
    reveal_strlit("role");
    let r = chat_request(h, model);
    let m = r->Object_0;
    assert("messages"@.len() == 8 && "model"@.len() == 5 && "stream"@.len() == 6);
    assert("messages"@ != "model"@);
    assert("messages"@ != "stream"@);
    assert("model"@ != "stream"@);
    assert(m.drop_first()[0] == m[1]);
    assert(m.drop_first().drop_first()[0] == m[2]);
    assert(crate::json::member(m.drop_first(), "model"@) == Some(m[1].1));
    assert(crate::json::member(m.drop_first().drop_first(), "stream"@) == Some(m[2].1));
    assert(crate::json::member(m.drop_first(), "stream"@) == Some(m[2].1));
    assert forall|i: int| 0 <= i < h.len() implies {
        let turn = #[trigger] chat_request(h, model).key("messages"@)->Some_0->Array_0[i];
        &&& turn.key("content"@) == Some(JsonValue::String(h[i].0))
        &&& turn.key("role"@) == Some(JsonValue::String(if h[i].1 { "assistant"@ } else { "user"@ }))
    } by {
        assert(r.key("messages"@) == Some(m[0].1));
        let turn = m[0].1->Array_0[i];
        assert(turn == crate::llm::message_value(h[i].0, h[i].1));
        let tm = turn->Object_0;
        assert("content"@.len() == 7 && "role"@.len() == 4);
        assert("content"@ != "role"@);
        assert(tm.drop_first()[0] == tm[1]);
        assert(turn.key("content"@) == Some(JsonValue::String(h[i].0)));
        assert(crate::json::member(tm.drop_first(), "role"@) == Some(tm[1].1));
    }
}

/// Loading asks for the selected model: the warm-up request names the
/// selected model and carries the whole conversation.
pub proof fn law_load_requests_selected_model(s: AppView)
    requires
        s.selected_model is Some,
    ensures
        command_of(s, Message::LoadModel) is WarmUp,
        command_of(s, Message::LoadModel)->WarmUp_1.key("model"@) == Some(
            JsonValue::String(s.selected_model->Some_0),
        ),
        command_of(s, Message::LoadModel)->WarmUp_1.key("messages"@)->Some_0->Array_0.len()
            == s.history.len(),
{
    law_request_carries_every_turn(s.history, s.selected_model->Some_0);
}

/// A request asks the selected model for an answer over the conversation
/// and a fresh, empty answer turn.
pub proof fn law_request_asks_selected_model(s: AppView)
    requires
        s.selected_model is Some,
    ensures
        command_of(s, Message::Request) is StartStream,
        command_of(s, Message::Request)->StartStream_1.key("model"@) == Some(
            JsonValue::String(s.selected_model->Some_0),
        ),
        command_of(s, Message::Request)->StartStream_1.key("messages"@)->Some_0->Array_0.len()
            == s.history.len() + 1,
{
    law_request_carries_every_turn(s.history.push((Seq::empty(), true)), s.selected_model->Some_0);
}

proof fn lemma_scan_skips_other_models(items: Seq<JsonValue>, model: Seq<char>, k: int)
    requires
        0 <= k <= items.len(),
        forall|j: int| 0 <= j < k ==> opt_text(#[trigger] items[j].key("model"@)) != Some(model),
    ensures
        scan_running(items, model) == scan_running(items.skip(k), model),
    decreases k,
{
    if k > 0 {
        assert forall|j: int| 0 <= j < k - 1 implies opt_text(
            #[trigger] items.drop_first()[j].key("model"@),
        ) != Some(model) by {
            assert(items.drop_first()[j] == items[j + 1]);
        }
        lemma_scan_skips_other_models(items.drop_first(), model, k - 1);
        assert(items.drop_first().skip(k - 1) =~= items.skip(k));
    } else {
        assert(items.skip(0) =~= items);
    }
}

/// The status of a model in the running-models reply depends only on the
/// entries that name it: with no such entry it is stopped, and otherwise
/// the first such entry's state decides ("ready", "starting" and
/// "stopping" give ready, starting and stopping; any other state, or none,
/// gives stopped). A reply without a "running" array gives stopped.
pub proof fn law_status_follows_entry_of_model(reply: JsonValue, model: Seq<char>)
    ensures
        !(reply.key("running"@) matches Some(JsonValue::Array(_))) ==> running_status(reply, model)
            == ModelStatus::Stopped,
        reply.key("running"@) matches Some(JsonValue::Array(items)) ==> {
            &&& (forall|j: int|
                0 <= j < items.len() ==> opt_text(#[trigger] items[j].key("model"@)) != Some(model))
                ==> running_status(reply, model) == ModelStatus::Stopped
            &&& forall|k: int|
                0 <= k < items.len() && opt_text(#[trigger] items[k].key("model"@)) == Some(model)
                    && (forall|j: int|
                    0 <= j < k ==> opt_text(#[trigger] items[j].key("model"@)) != Some(model)) ==> {
                    let state = opt_text(items[k].key("state"@));
                    &&& state == Some("ready"@) ==> running_status(reply, model) == ModelStatus::Ready
                    &&& state == Some("starting"@) ==> running_status(reply, model)
                        == ModelStatus::Starting
                    &&& state == Some("stopping"@) ==> running_status(reply, model)
                        == ModelStatus::Stopping
                    &&& state != Some("ready"@) && state != Some("starting"@) && state != Some(
                        "stopping"@,
                    ) ==> running_status(reply, model) == ModelStatus::Stopped
                }
        },
{
    reveal_strlit("ready");
    reveal_strlit("starting");
    reveal_strlit("stopping");
    assert("ready"@.len() == 5 && "starting"@.len() == 8 && "stopping"@.len() == 8);
    assert("ready"@ != "starting"@);
    assert("ready"@ != "stopping"@);
    assert("starting"@ != "stopping"@) by {
        assert("starting"@[3] != "stopping"@[3]);
    }
    if let Some(JsonValue::Array(items)) = reply.key("running"@) {
        if forall|j: int| 0 <= j < items.len() ==> opt_text(#[trigger] items[j].key("model"@)) != Some(model) {
            lemma_scan_skips_other_models(items, model, items.len() as int);
        }
        assert forall|k: int|
            0 <= k < items.len() && opt_text(#[trigger] items[k].key("model"@)) == Some(model)
                && (forall|j: int|
                0 <= j < k ==> opt_text(#[trigger] items[j].key("model"@)) != Some(model)) implies
            scan_running(items, model) == scan_running(items.skip(k), model)
            && items.skip(k)[0] == items[k] by {
            lemma_scan_skips_other_models(items, model, k);
        }
    }
}

/// Stopping the stream changes only the streaming flag: the conversation,
/// the input, the selected model and its status stay as they were, and the
/// stream is aborted exactly when one was running.
pub proof fn law_stop_keeps_conversation(s: AppView)
    ensures
        next_state(s, Message::StreamStop).history == s.history,
        next_state(s, Message::StreamStop).input == s.input,
        next_state(s, Message::StreamStop).selected_model == s.selected_model,
        next_state(s, Message::StreamStop).model_status == s.model_status,
        !next_state(s, Message::StreamStop).is_streaming,
        (command_of(s, Message::StreamStop) == CommandView::AbortStream) == s.is_streaming,
{
}

/// Only sending, requesting, receiving a piece and retrying change the
/// conversation; every other message keeps it as it is.
pub proof fn law_history_changes_only_by_turns(s: AppView, m: Message)
    requires
        !(m is Generate || m is Request || m is ReceivedChunk || m is Regenerate),
    ensures
        next_state(s, m).history == s.history,
{
}

} // verus!
