//! Classifying one output line of the external tool and deciding what the
//! UI sees of it: assistant-authored structured content feeds the session
//! accumulator, tool-reported errors surface on the error channel, and
//! anything else is passed through verbatim or ignored.  Only the JSON
//! decoding itself is trusted to the `serde_json` crate.
use crate::text;
use vstd::prelude::*;
use vstd::string::StringExecFns;

verus! {

/// The channel a UI event is tagged with.
#[derive(Clone, Copy, Debug, PartialEq, Eq, Structural)]
pub enum Channel {
    Stdout,
    Stderr,
    System,
}

/// One UI-facing event: a line of text on a channel.
#[derive(Debug, Clone)]
pub struct StreamEvent {
    pub message: String,
    pub stream: Channel,
}

/// Spec-level shape of one UI event.
#[verifier::ext_equal]
pub ghost struct StreamEventView {
    pub message: Seq<char>,
    pub stream: Channel,
}

impl View for StreamEvent {
    type V = StreamEventView;

    open spec fn view(&self) -> StreamEventView {
        StreamEventView { message: self.message@, stream: self.stream }
    }
}

/// The views of a sequence of UI events.
pub open spec fn event_views(s: Seq<StreamEvent>) -> Seq<StreamEventView> {
    s.map_values(|e: StreamEvent| e@)
}

/// The string fields a structured line may carry, as the decoder found
/// them; `decoded` is false when the line is not JSON at all.
#[derive(Debug, Clone)]
pub struct Envelope {
    pub decoded: bool,
    pub msg_type: Option<String>,
    pub role: Option<String>,
    pub content: Option<String>,
    pub error: Option<String>,
}

/// Spec-level shape of a decoded envelope.
#[verifier::ext_equal]
pub ghost struct EnvelopeView {
    pub decoded: bool,
    pub msg_type: Option<Seq<char>>,
    pub role: Option<Seq<char>>,
    pub content: Option<Seq<char>>,
    pub error: Option<Seq<char>>,
}

impl View for Envelope {
    type V = EnvelopeView;

    open spec fn view(&self) -> EnvelopeView {
        EnvelopeView {
            decoded: self.decoded,
            msg_type: self.msg_type.deep_view(),
            role: self.role.deep_view(),
            content: self.content.deep_view(),
            error: self.error.deep_view(),
        }
    }
}

/// What `decode_envelope` finds in a line: a function of the line alone.
pub uninterp spec fn envelope_of(line: Seq<char>) -> EnvelopeView;

/// Relies on `serde_json::from_str::<Value>` and `Value`'s `get` and
/// `as_str` accessors: whether the line parses as JSON, and its `type`,
/// `role`, `content` and `error` fields, each carried over exactly when
/// the parsed value has it as a string.  Parsing is deterministic, so the
/// result is a function of the line alone.
#[verifier::external_body]
fn decode_envelope(line: &str) -> (r: Envelope)
    ensures
        r@ == envelope_of(line@),
{
    match serde_json::from_str::<serde_json::Value>(line) {
        Ok(v) => Envelope {
            decoded: true,
            msg_type: v.get("type").and_then(|f| f.as_str()).map(|s| s.to_string()),
            role: v.get("role").and_then(|f| f.as_str()).map(|s| s.to_string()),
            content: v.get("content").and_then(|f| f.as_str()).map(|s| s.to_string()),
            error: v.get("error").and_then(|f| f.as_str()).map(|s| s.to_string()),
        },
        Err(_) => Envelope { decoded: false, msg_type: None, role: None, content: None, error: None },
    }
}

/// What routing one line decides: text to append to the session
/// accumulator, if any, and the UI events to emit, in order.
#[derive(Debug, Clone)]
pub struct RouteOutcome {
    pub accum: Option<String>,
    pub events: Vec<StreamEvent>,
}

/// Spec-level shape of a routing decision.
#[verifier::ext_equal]
pub ghost struct RouteOutcomeView {
    pub accum: Option<Seq<char>>,
    pub events: Seq<StreamEventView>,
}

impl View for RouteOutcome {
    type V = RouteOutcomeView;

    open spec fn view(&self) -> RouteOutcomeView {
        RouteOutcomeView { accum: self.accum.deep_view(), events: event_views(self.events@) }
    }
}

/// An envelope carrying assistant-authored message content.
pub open spec fn spec_is_assistant(e: EnvelopeView) -> bool {
    e.decoded && e.msg_type == Some("message"@) && e.role == Some("assistant"@)
        && e.content is Some
}

/// The content of an optional field, or nothing.
pub open spec fn some_or_empty(o: Option<Seq<char>>) -> Seq<char> {
    match o {
        Option::Some(s) => s,
        Option::None => Seq::<char>::empty(),
    }
}

/// Routing a standard-output line whose envelope is `e`: an undecodable
/// line passes through verbatim; assistant message content is accumulated
/// and shown; a reported error is shown on the error channel; an envelope
/// of any other shape is ignored.  An envelope may carry both assistant
/// content and an error; both are then emitted, content first.
pub open spec fn spec_route_stdout(e: EnvelopeView, line: Seq<char>) -> RouteOutcomeView {
    if !e.decoded {
        RouteOutcomeView {
            accum: None,
            events: seq![StreamEventView { message: line, stream: Channel::Stdout }],
        }
    } else {
        let content_events: Seq<StreamEventView> = if spec_is_assistant(e) {
            seq![
                StreamEventView { message: some_or_empty(e.content), stream: Channel::Stdout },
            ]
        } else {
            Seq::<StreamEventView>::empty()
        };
        let error_events: Seq<StreamEventView> = match e.error {
            Option::Some(m) => seq![
                StreamEventView { message: "Error: "@ + m, stream: Channel::Stderr },
            ],
            Option::None => Seq::<StreamEventView>::empty(),
        };
        RouteOutcomeView {
            accum: if spec_is_assistant(e) {
                e.content
            } else {
                None
            },
            events: content_events + error_events,
        }
    }
}

/// Routing one line by its source channel: standard error (and the
/// system channel, which never carries tool output) passes through
/// verbatim; standard output goes through envelope classification.
pub open spec fn spec_route(chan: Channel, e: EnvelopeView, line: Seq<char>) -> RouteOutcomeView {
    match chan {
        Channel::Stdout => spec_route_stdout(e, line),
        _ => RouteOutcomeView {
            accum: None,
            events: seq![StreamEventView { message: line, stream: chan }],
        },
    }
}

/// Route a standard-output line whose envelope has already been decoded.
pub fn route_envelope_stdout(env: &Envelope, line: &str) -> (r: RouteOutcome)
    ensures
        r@ == spec_route_stdout(env@, line@),
{
    if !env.decoded {
        let mut events: Vec<StreamEvent> = Vec::new();
        events.push(StreamEvent { message: String::from_str(line), stream: Channel::Stdout });
        let r = RouteOutcome { accum: None, events };
        assert(r@ =~~= spec_route_stdout(env@, line@));
        return r;
    }
    let is_assistant = is_assistant_envelope(env);
    let mut events: Vec<StreamEvent> = Vec::new();
    let accum: Option<String> = if is_assistant {
        let content = match &env.content {
            Some(c) => c.clone(),
            None => String::new(),
        };
        events.push(StreamEvent { message: content.clone(), stream: Channel::Stdout });
        Some(content)
    } else {
        None
    };
    match &env.error {
        Some(m) => {
            let text = String::from_str("Error: ").concat(m.as_str());
            events.push(StreamEvent { message: text, stream: Channel::Stderr });
        },
        None => {},
    }
    let r = RouteOutcome { accum, events };
    assert(r@ =~~= spec_route_stdout(env@, line@));
    r
}

/// Is this envelope an assistant-authored message with content?
fn is_assistant_envelope(env: &Envelope) -> (r: bool)
    ensures
        r == spec_is_assistant(env@),
{
    if !env.decoded {
        return false;
    }
    let type_ok = match &env.msg_type {
        Some(t) => *t == String::from_str("message"),
        None => false,
    };
    let role_ok = match &env.role {
        Some(t) => *t == String::from_str("assistant"),
        None => false,
    };
    let content_ok = match &env.content {
        Some(_) => true,
        None => false,
    };
    type_ok && role_ok && content_ok
}

/// Route one raw line from the given channel: decode it if it arrived on
/// standard output, pass it through otherwise.
pub fn route_line(chan: Channel, line: &str) -> (r: RouteOutcome)
    ensures
        r@ == spec_route(chan, envelope_of(line@), line@),
{
    match chan {
        Channel::Stdout => {
            let env = decode_envelope(line);
            route_envelope_stdout(&env, line)
        },
        _ => {
            let mut events: Vec<StreamEvent> = Vec::new();
            events.push(StreamEvent { message: String::from_str(line), stream: chan });
            let r = RouteOutcome { accum: None, events };
            assert(r@ =~~= spec_route(chan, envelope_of(line@), line@));
            r
        },
    }
}

/// A malformed or unrecognized line never reaches the accumulator, and is
/// at worst passed through: an undecodable line becomes one verbatim
/// pass-through event, an envelope of no recognized shape and no error
/// field produces no event at all.
pub proof fn lemma_unrecognized_lines_are_harmless(e: EnvelopeView, line: Seq<char>)
    ensures
        !e.decoded ==> spec_route_stdout(e, line) == (RouteOutcomeView {
            accum: None,
            events: seq![StreamEventView { message: line, stream: Channel::Stdout }],
        }),
        e.decoded && !spec_is_assistant(e) && e.error is None ==> spec_route_stdout(e, line) == (
        RouteOutcomeView { accum: None, events: Seq::<StreamEventView>::empty() }),
        !spec_is_assistant(e) ==> spec_route_stdout(e, line).accum is None,
{
    if e.decoded && !spec_is_assistant(e) && e.error is None {
        assert(spec_route_stdout(e, line) =~~= RouteOutcomeView {
            accum: None,
            events: Seq::<StreamEventView>::empty(),
        });
    }
}

} // verus!
