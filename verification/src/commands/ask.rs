//! `ask`: the request body for the Zhida chat endpoint and the reading of
//! its server-sent event stream.
use vstd::prelude::*;
use crate::cli::{AskArgs, ModelTier};
use crate::error::{ErrorV, ZhihuError};
use crate::json::{arr1, jstr, obj1, obj2, obj3, step3, Json, JsonV};
use crate::text::{
    has_prefix, lines, lossy_text, lossy_text_of, starts_with, str_eq, text_lines, trim, trim_str,
    views,
};
use vstd::string::StrSliceExecFns;
use vstd::string::StringExecFns;

verus! {

/// The endpoint that answers questions.
pub const CHAT_COMPLETIONS_PATH: &'static str = "/v1/chat/completions";

/// The chat completion request body: the model, one user message holding the
/// query, and whether to stream the answer.
pub open spec fn ask_body_spec(query: Seq<char>, model: ModelTier, stream: bool) -> JsonV {
    JsonV::Object(
        seq![
            ("model"@, JsonV::Str(model.spec_api_name())),
            (
                "messages"@,
                JsonV::Array(
                    seq![
                        JsonV::Object(
                            seq![("role"@, JsonV::Str("user"@)), ("content"@, JsonV::Str(query))],
                        ),
                    ],
                ),
            ),
            ("stream"@, JsonV::Bool(stream)),
        ],
    )
}

/// The JSON body of the chat completion request for `args`.
pub fn build_ask_body(args: &AskArgs) -> (r: Json)
    ensures
        r@ == ask_body_spec(args.query@, args.model, args.stream),
{
    let message = obj2("role", jstr("user"), "content", jstr(args.query.as_str()));
    obj3(
        "model",
        jstr(args.model.api_name()),
        "messages",
        arr1(message),
        "stream",
        Json::Bool(args.stream),
    )
}

/// What `ask` prints once the request is done: a streamed answer was printed
/// while it arrived, so nothing more (`None`); otherwise the response
/// (`Some`). An error is passed on as it is.
pub fn ask_output(result: Result<Json, ZhihuError>, stream: bool) -> (r: Result<
    Option<Json>,
    ZhihuError,
>)
    ensures
        match result {
            Ok(v) => if stream {
                r matches Ok(None)
            } else {
                r matches Ok(Some(w)) && w@ == v@
            },
            Err(e) => r matches Err(f) && f@ == e@,
        },
{
    match result {
        Ok(v) => if stream {
            Ok(None)
        } else {
            Ok(Some(v))
        },
        Err(e) => Err(e),
    }
}

/// What a completed stream answers with.
pub fn stream_complete() -> (r: Json)
    ensures
        r@ == JsonV::Object(seq![("status"@, JsonV::Str("stream_complete"@))]),
{
    obj1("status", jstr("stream_complete"))
}

/// One event of the answer stream: a piece of the answer, or the reason the
/// answer ended.
#[derive(Debug, PartialEq)]
pub enum JsonEvent {
    Delta(Json),
    Finish(String),
}

/// Mathematical view of a stream event.
pub enum EventV {
    Delta(JsonV),
    Finish(Seq<char>),
}

impl View for JsonEvent {
    type V = EventV;

    open spec fn view(&self) -> EventV {
        match self {
            JsonEvent::Delta(d) => EventV::Delta(d@),
            JsonEvent::Finish(r) => EventV::Finish(r@),
        }
    }
}

/// The views of a list of events.
pub open spec fn events_view(v: Seq<JsonEvent>) -> Seq<EventV> {
    Seq::new(v.len(), |i: int| v[i]@)
}

/// The JSON text that a line of the stream carries: after trimming, a line
/// that starts with `data: ` (with the space) carries the rest of it, except
/// the end marker `data: [DONE]`; empty lines, comments (starting with `:`)
/// and other lines carry nothing.
pub open spec fn sse_payload_spec(line: Seq<char>) -> Option<Seq<char>> {
    let t = trim(line);
    if t.len() == 0 || has_prefix(t, ":"@) || t == "data: [DONE]"@ {
        None
    } else if has_prefix(t, "data: "@) {
        Some(t.subrange(6, t.len() as int))
    } else {
        None
    }
}

/// The JSON text that a line of the stream carries, if any.
pub fn sse_payload(line: &str) -> (r: Option<String>)
    ensures
        match r {
            Some(p) => sse_payload_spec(line@) == Some(p@),
            None => sse_payload_spec(line@) is None,
        },
{
    let t = trim_str(line);
    let ts = t.as_str();
    if ts.unicode_len() == 0 || starts_with(ts, ":") || str_eq(ts, "data: [DONE]") {
        return None;
    }
    if starts_with(ts, "data: ") {
        proof {
            reveal_strlit("data: ");
        }
        let rest = ts.substring_char(6, ts.unicode_len());
        Some(String::from_str(rest))
    } else {
        None
    }
}

/// The piece of the answer that an event carries: `choices[0].delta` when it
/// is an object with at least one member.
pub open spec fn delta_events(event: JsonV) -> Seq<EventV> {
    match step3(event, "choices"@, "0"@, "delta"@) {
        Some(JsonV::Object(m)) => if m.len() > 0 {
            seq![EventV::Delta(JsonV::Object(m))]
        } else {
            seq![]
        },
        _ => seq![],
    }
}

/// The reason an answer ended that an event carries: `choices[0].finish_reason`
/// when it is a string.
pub open spec fn finish_events(event: JsonV) -> Seq<EventV> {
    match step3(event, "choices"@, "0"@, "finish_reason"@) {
        Some(JsonV::Str(reason)) => seq![EventV::Finish(reason)],
        _ => seq![],
    }
}

/// The events of a decoded stream payload, the piece of the answer first.
pub open spec fn sse_events_spec(event: JsonV) -> Seq<EventV> {
    delta_events(event) + finish_events(event)
}

/// The events of one line of the stream. `decoded` is what decoding the
/// line's payload (see `sse_payload`) as JSON gave: `None` when the payload
/// is not valid JSON, which carries no events.
pub open spec fn sse_line_spec(line: Seq<char>, decoded: Option<JsonV>) -> Seq<EventV> {
    match sse_payload_spec(line) {
        None => seq![],
        Some(_) => match decoded {
            Some(event) => sse_events_spec(event),
            None => seq![],
        },
    }
}

fn pointer3<'a>(j: &'a Json, a: &str, b: &str, c: &str) -> (r: Option<&'a Json>)
    ensures
        match r {
            Some(x) => step3(j@, a@, b@, c@) == Some(x@),
            None => step3(j@, a@, b@, c@) is None,
        },
{
    match j.step(a) {
        Some(x) => match x.step(b) {
            Some(y) => y.step(c),
            None => None,
        },
        None => None,
    }
}

/// The events of a decoded stream payload.
pub fn sse_events(event: &Json) -> (r: Vec<JsonEvent>)
    ensures
        events_view(r@) == sse_events_spec(event@),
{
    let mut out: Vec<JsonEvent> = Vec::new();
    match pointer3(event, "choices", "0", "delta") {
        Some(d) => {
            if d.is_object_with_members() {
                out.push(JsonEvent::Delta(d.deep_copy()));
            }
        },
        None => {},
    }
    assert(events_view(out@) =~= delta_events(event@));
    let ghost mid = out@;
    match pointer3(event, "choices", "0", "finish_reason") {
        Some(f) => match f.as_str() {
            Some(reason) => {
                out.push(JsonEvent::Finish(reason.clone()));
            },
            None => {},
        },
        None => {},
    }
    assert(events_view(out@) =~= events_view(mid) + finish_events(event@));
    out
}

/// The events of one line of the stream, given what decoding its payload
/// gave (`None` when it is not valid JSON).
pub fn parse_sse_line(line: &str, decoded: Option<&Json>) -> (r: Vec<JsonEvent>)
    ensures
        events_view(r@) == sse_line_spec(
            line@,
            match decoded {
                Some(j) => Some(j@),
                None => None,
            },
        ),
{
    match sse_payload(line) {
        None => {
            let v: Vec<JsonEvent> = Vec::new();
            assert(events_view(v@) =~= seq![]);
            v
        },
        Some(_) => match decoded {
            Some(event) => sse_events(event),
            None => {
                let v: Vec<JsonEvent> = Vec::new();
                assert(events_view(v@) =~= seq![]);
                v
            },
        },
    }
}

/// The lines of a chunk of the stream: the chunk read as UTF-8 (invalid
/// sequences replaced), split as `str::lines` splits.
pub fn chunk_lines(chunk: &[u8]) -> (r: Vec<String>)
    ensures
        views(r@) == lines(lossy_text_of(chunk@)),
{
    let text = lossy_text(chunk);
    text_lines(text.as_str())
}

/// The line printed for an event: `{"delta": ...}` or `{"finish_reason": ...}`.
pub fn event_output(event: &JsonEvent) -> (r: Json)
    ensures
        r@ == match event@ {
            EventV::Delta(d) => JsonV::Object(seq![("delta"@, d)]),
            EventV::Finish(reason) => JsonV::Object(seq![("finish_reason"@, JsonV::Str(reason))]),
        },
{
    match event {
        JsonEvent::Delta(d) => obj1("delta", d.deep_copy()),
        JsonEvent::Finish(reason) => obj1("finish_reason", jstr(reason.as_str())),
    }
}


/// Every non-empty `choices[0].delta` object of a decoded stream payload is
/// passed on whole: the events start with a `Delta` holding exactly that
/// object, whatever members (and however many) it has.
pub proof fn lemma_nonempty_delta_is_passed_on_whole(event: JsonV, m: Seq<(Seq<char>, JsonV)>)
    requires
        step3(event, "choices"@, "0"@, "delta"@) == Some(JsonV::Object(m)),
        m.len() > 0,
    ensures
        sse_events_spec(event).len() >= 1,
        sse_events_spec(event)[0] == EventV::Delta(JsonV::Object(m)),
{
}

/// A payload without a non-empty `choices[0].delta` object gives no `Delta`
/// event, and a `choices[0].finish_reason` string always gives the last event.
pub proof fn lemma_stream_events_follow_payload(event: JsonV)
    ensures
        !(step3(event, "choices"@, "0"@, "delta"@) matches Some(JsonV::Object(m)) && m.len() > 0)
            ==> forall|i: int| 0 <= i < sse_events_spec(event).len() ==> !(
        #[trigger] sse_events_spec(event)[i] is Delta),
        step3(event, "choices"@, "0"@, "finish_reason"@) matches Some(JsonV::Str(r)) ==> (
        sse_events_spec(event).len() >= 1 && sse_events_spec(event).last() == EventV::Finish(r)),
        !(step3(event, "choices"@, "0"@, "finish_reason"@) matches Some(JsonV::Str(_))) ==> forall|
            i: int,
        | 0 <= i < sse_events_spec(event).len() ==> !(#[trigger] sse_events_spec(event)[i] is Finish),
{
}


/// A line carries a payload exactly when, after trimming, it starts with
/// `data: ` and is not the end marker; the payload is then the rest of the
/// trimmed line.
pub proof fn lemma_sse_payload_is_rest_of_data_line(line: Seq<char>)
    ensures
        sse_payload_spec(line) matches Some(p) ==> trim(line) == "data: "@ + p,
        sse_payload_spec(line) is Some <==> (has_prefix(trim(line), "data: "@) && trim(line)
            != "data: [DONE]"@),
{
    reveal_strlit("data: ");
    reveal_strlit(":");
    let t = trim(line);
    if sse_payload_spec(line) is Some {
        assert(t =~= "data: "@ + t.subrange(6, t.len() as int));
    }
    if has_prefix(t, "data: "@) && t != "data: [DONE]"@ {
        assert(t.subrange(0, 6)[0] == t[0]);
        assert("data: "@[0] == 'd');
        assert(t[0] == 'd');
        if has_prefix(t, ":"@) {
            assert(t.subrange(0, 1)[0] == t[0]);
            assert(":"@[0] == ':');
        }
    }
}

/// The chat request names the chosen model, asks whether to stream as told,
/// and holds one message from the user whose content is the query, unchanged.
pub proof fn lemma_ask_body_holds_query(query: Seq<char>, model: ModelTier, stream: bool)
    ensures
        ask_body_spec(query, model, stream) matches JsonV::Object(m) && {
            &&& m.len() == 3
            &&& m[0] == ("model"@, JsonV::Str(model.spec_api_name()))
            &&& m[1].0 == "messages"@
            &&& m[1].1 matches JsonV::Array(msgs) && msgs.len() == 1 && msgs[0] == JsonV::Object(
                seq![("role"@, JsonV::Str("user"@)), ("content"@, JsonV::Str(query))],
            )
            &&& m[2] == ("stream"@, JsonV::Bool(stream))
        },
{
}

} // verus!
