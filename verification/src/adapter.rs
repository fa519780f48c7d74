//! The normalized face of a model backend: whatever the wire protocol, a
//! provider invocation yields either a list of normalized events or a
//! failure, and the orchestration loop never sees protocol detail.
//!
//! This module holds the event shapes and the translation for the streaming
//! family, whose backend emits a sequence of lifecycle events; the decoded
//! events come in as plain values and are folded here up to the first
//! terminal event.

use vstd::prelude::*;
use vstd::string::StringExecFns;

verus! {

/// How a provider invocation ended.
#[derive(Clone, Copy, Debug, PartialEq, Eq, Structural)]
pub enum TerminalStatus {
    Success,
    Failed,
    Incomplete,
}

/// One event of the normalized stream every adapter yields.
#[derive(Debug)]
pub enum NormalizedEvent {
    /// Finished output text.
    TextDelta(String),
    /// The model asks for one tool invocation.
    ToolCallRequested { call_id: String, name: String, arguments: String },
    /// A short line for user-facing progress display; never part of the answer.
    StatusUpdate(String),
    /// The stream's terminal marker.
    Terminal { status: TerminalStatus },
}

/// Why a provider invocation failed.
#[derive(Clone, Copy, Debug, PartialEq, Eq, Structural)]
pub enum FailureKind {
    /// Malformed or unexpected response shape.
    Protocol,
    /// Connection or timeout at the transport level.
    Network,
    /// The backend rejected the request as built, e.g. the tool definitions.
    CreationRejected,
}

/// What one provider invocation produced, as handed to the orchestration
/// loop.
#[derive(Debug)]
pub enum ProviderOutcome {
    Completed { events: Vec<NormalizedEvent> },
    Failed { kind: FailureKind, message: String },
}

/// The mathematical value of a [`ProviderOutcome`].
pub ghost enum OutcomeView {
    Completed { events: Seq<NormalizedEvent> },
    Failed { kind: FailureKind, message: Seq<char> },
}

impl View for ProviderOutcome {
    type V = OutcomeView;

    open spec fn view(&self) -> OutcomeView {
        match self {
            ProviderOutcome::Completed { events } => OutcomeView::Completed { events: events@ },
            ProviderOutcome::Failed { kind, message } => OutcomeView::Failed {
                kind: *kind,
                message: message@,
            },
        }
    }
}

impl DeepView for ProviderOutcome {
    type V = OutcomeView;

    open spec fn deep_view(&self) -> OutcomeView {
        self.view()
    }
}

/// One finished output item of the streaming family.
#[derive(Debug)]
pub enum StreamOutputItem {
    /// A finished message.
    MessageDone { text: String },
    /// A requested tool call.
    FunctionCall { call_id: String, name: String, arguments: String },
    /// A reasoning trace; kept internal, surfaced only as a status line.
    Reasoning { summary: String },
}

/// One decoded lifecycle event of the streaming family.
#[derive(Debug)]
pub enum StreamEvent {
    Queued,
    InProgress,
    /// Incremental partial text; telemetry only, the finished message is
    /// flushed by its `OutputItemDone` event.
    TextDelta(String),
    OutputItemDone(StreamOutputItem),
    Completed,
    Failed(String),
    Incomplete(String),
    ErrorEvent(String),
}

/// How one finished output item normalizes.
pub open spec fn spec_normalize_item(item: StreamOutputItem) -> NormalizedEvent {
    match item {
        StreamOutputItem::MessageDone { text } => NormalizedEvent::TextDelta(text),
        StreamOutputItem::FunctionCall { call_id, name, arguments } => {
            NormalizedEvent::ToolCallRequested { call_id, name, arguments }
        },
        StreamOutputItem::Reasoning { summary } => NormalizedEvent::StatusUpdate(summary),
    }
}

/// Prepends already-normalized events to the outcome of the rest of the
/// stream; an abort discards everything collected before it.
pub open spec fn spec_with_prefix(prefix: Seq<NormalizedEvent>, rest: OutcomeView) -> OutcomeView {
    match rest {
        OutcomeView::Completed { events } => OutcomeView::Completed { events: prefix + events },
        OutcomeView::Failed { .. } => rest,
    }
}

/// The translation of a decoded lifecycle stream, up to its first terminal
/// event: `queued`/`in-progress` and incremental text are dropped, each
/// finished output item yields one normalized event, `completed` ends the
/// stream successfully, and `failed`/`incomplete`/`error` abort it with that
/// event's message; a stream without any terminal event is a protocol error.
pub open spec fn spec_translate_stream(events: Seq<StreamEvent>) -> OutcomeView
    decreases events.len(),
{
    if events.len() == 0 {
        OutcomeView::Failed {
            kind: FailureKind::Protocol,
            message: "stream ended without a terminal event"@,
        }
    } else {
        match events.first() {
            StreamEvent::Queued => spec_translate_stream(events.drop_first()),
            StreamEvent::InProgress => spec_translate_stream(events.drop_first()),
            StreamEvent::TextDelta(_) => spec_translate_stream(events.drop_first()),
            StreamEvent::OutputItemDone(item) => spec_with_prefix(
                seq![spec_normalize_item(item)],
                spec_translate_stream(events.drop_first()),
            ),
            StreamEvent::Completed => OutcomeView::Completed {
                events: seq![NormalizedEvent::Terminal { status: TerminalStatus::Success }],
            },
            StreamEvent::Failed(message) => OutcomeView::Failed {
                kind: FailureKind::Network,
                message: message@,
            },
            StreamEvent::Incomplete(message) => OutcomeView::Failed {
                kind: FailureKind::Protocol,
                message: message@,
            },
            StreamEvent::ErrorEvent(message) => OutcomeView::Failed {
                kind: FailureKind::Network,
                message: message@,
            },
        }
    }
}

/// Folds a decoded lifecycle stream into the normalized outcome; see
/// [`spec_translate_stream`] for the exact value.
pub fn translate_stream(events: &Vec<StreamEvent>) -> (r: ProviderOutcome)
    ensures
        r@ == spec_translate_stream(events@),
{
    let mut acc: Vec<NormalizedEvent> = Vec::new();
    let n = events.len();
    let ghost full = events@;
    proof {
        assert(full.skip(0) =~= full);
        match spec_translate_stream(full) {
            OutcomeView::Completed { events: evs } => {
                assert(Seq::<NormalizedEvent>::empty() + evs =~= evs);
            },
            OutcomeView::Failed { .. } => {},
        }
    }
    for i in 0..n
        invariant
            n == events@.len(),
            full == events@,
            spec_translate_stream(full) == spec_with_prefix(
                acc@,
                spec_translate_stream(full.skip(i as int)),
            ),
    {
        let ghost before = full.skip(i as int);
        proof {
            assert(before.first() == full[i as int]);
            assert(before.drop_first() =~= full.skip(i + 1));
        }
        match &events[i] {
            StreamEvent::Queued => {},
            StreamEvent::InProgress => {},
            StreamEvent::TextDelta(_) => {},
            StreamEvent::OutputItemDone(item) => {
                let ghost prev = acc@;
                let ev = normalize_item(item);
                acc.push(ev);
                proof {
                    let x = spec_normalize_item(*item);
                    let rest = spec_translate_stream(full.skip(i + 1));
                    match rest {
                        OutcomeView::Completed { events: evs } => {
                            assert(prev + (seq![x] + evs) =~= prev.push(x) + evs);
                        },
                        OutcomeView::Failed { .. } => {},
                    }
                }
            },
            StreamEvent::Completed => {
                let ghost prev = acc@;
                let mut events_out = acc;
                events_out.push(NormalizedEvent::Terminal { status: TerminalStatus::Success });
                proof {
                    let t = NormalizedEvent::Terminal { status: TerminalStatus::Success };
                    assert(events_out@ =~= prev + seq![t]);
                }
                return ProviderOutcome::Completed { events: events_out };
            },
            StreamEvent::Failed(message) => {
                return ProviderOutcome::Failed {
                    kind: FailureKind::Network,
                    message: message.clone(),
                };
            },
            StreamEvent::Incomplete(message) => {
                return ProviderOutcome::Failed {
                    kind: FailureKind::Protocol,
                    message: message.clone(),
                };
            },
            StreamEvent::ErrorEvent(message) => {
                return ProviderOutcome::Failed {
                    kind: FailureKind::Network,
                    message: message.clone(),
                };
            },
        }
    }
    proof {
        assert(full.skip(n as int) =~= Seq::<StreamEvent>::empty());
    }
    ProviderOutcome::Failed {
        kind: FailureKind::Protocol,
        message: String::from_str("stream ended without a terminal event"),
    }
}

/// The concatenated finished text of a normalized event list.
pub open spec fn spec_texts_concat(events: Seq<NormalizedEvent>) -> Seq<char>
    decreases events.len(),
{
    if events.len() == 0 {
        Seq::empty()
    } else {
        spec_texts_concat(events.drop_last()) + match events.last() {
            NormalizedEvent::TextDelta(t) => t@,
            _ => Seq::empty(),
        }
    }
}

/// The requested tool calls of a normalized event list, in order:
/// `(call_id, name, arguments)`.
pub open spec fn spec_tool_calls_of(events: Seq<NormalizedEvent>) -> Seq<
    (Seq<char>, Seq<char>, Seq<char>),
>
    decreases events.len(),
{
    if events.len() == 0 {
        Seq::empty()
    } else {
        let rest = spec_tool_calls_of(events.drop_last());
        match events.last() {
            NormalizedEvent::ToolCallRequested { call_id, name, arguments } => rest.push(
                (call_id@, name@, arguments@),
            ),
            _ => rest,
        }
    }
}

/// Normalizes one finished output item; see [`spec_normalize_item`].
pub fn normalize_item(item: &StreamOutputItem) -> (r: NormalizedEvent)
    ensures
        r == spec_normalize_item(*item),
{
    match item {
        StreamOutputItem::MessageDone { text } => NormalizedEvent::TextDelta(text.clone()),
        StreamOutputItem::FunctionCall { call_id, name, arguments } => {
            NormalizedEvent::ToolCallRequested {
                call_id: call_id.clone(),
                name: name.clone(),
                arguments: arguments.clone(),
            }
        },
        StreamOutputItem::Reasoning { summary } => NormalizedEvent::StatusUpdate(summary.clone()),
    }
}

} // verus!
