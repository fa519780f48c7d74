//! The orchestration loop: one run per inbound mention. It works on a
//! working copy of the channel's log, drives a bounded number of provider
//! invocations — tool choice forced off on the last allowed step — executes
//! requested tools between invocations, walks a priority list of candidate
//! models on failure, and finally merges only the `Message` items of its
//! delta back into the canonical log. A failed run merges nothing.

use vstd::prelude::*;
use vstd::string::StringExecFns;

use crate::adapter::{
    spec_texts_concat, spec_tool_calls_of, FailureKind, NormalizedEvent, OutcomeView,
    ProviderOutcome,
};
use crate::agent::{spec_model_name, spec_sec_per_rate, AIModel};
use crate::context::{
    clamp_to_capacity, lemma_messages_only_append, lemma_messages_only_push, messages_only,
};
use crate::items::{ConversationItem, ItemView, MessageContext, Role};
use crate::registry::{ToolExecOutcome, ToolRegistry};
use crate::store::ContextStore;
use crate::strutil::{spec_join, join_with};
use crate::tools::ToolContext;

verus! {

/// The two wire protocols a candidate may speak.
#[derive(Clone, Copy, Debug, PartialEq, Eq, Structural)]
pub enum ProtocolFamily {
    Streaming,
    SingleShot,
}

/// How the request asks the backend to treat the advertised tools.
#[derive(Debug)]
pub enum ToolChoice {
    Auto,
    Disable,
    Forced(String),
}

/// One model the loop may try: its wire name, its relative expense for the
/// rate limiter, and what it can do.
#[derive(Debug)]
pub struct ModelCandidate {
    pub name: String,
    pub cost_units: u64,
    pub supports_tools: bool,
    pub supports_vision: bool,
    pub family: ProtocolFamily,
}

/// The ghost shape of one candidate.
pub ghost struct CandidateView {
    pub name: Seq<char>,
    pub cost_units: u64,
    pub supports_tools: bool,
    pub supports_vision: bool,
    pub family: ProtocolFamily,
}

impl View for ModelCandidate {
    type V = CandidateView;

    open spec fn view(&self) -> CandidateView {
        CandidateView {
            name: self.name@,
            cost_units: self.cost_units,
            supports_tools: self.supports_tools,
            supports_vision: self.supports_vision,
            family: self.family,
        }
    }
}

impl DeepView for ModelCandidate {
    type V = CandidateView;

    open spec fn deep_view(&self) -> CandidateView {
        self.view()
    }
}

/// The names of a candidate list, in priority order.
pub open spec fn spec_candidate_names(cands: Seq<CandidateView>) -> Seq<Seq<char>> {
    cands.map_values(|c: CandidateView| c.name)
}

impl AIModel {
    /// This model as an orchestration candidate: named by its wire name,
    /// costed by its rate expense, with the single-shot protocol for the
    /// one model of that family.
    pub fn to_candidate(&self) -> (r: ModelCandidate)
        ensures
            r.name@ == spec_model_name(*self),
            r.cost_units == spec_sec_per_rate(*self) as u64,
            r.supports_tools,
            r.supports_vision,
            r.family == (if *self is Gemini2dot5Flash {
                ProtocolFamily::SingleShot
            } else {
                ProtocolFamily::Streaming
            }),
    {
        let family = match self {
            AIModel::Gemini2dot5Flash => ProtocolFamily::SingleShot,
            _ => ProtocolFamily::Streaming,
        };
        ModelCandidate {
            name: self.to_model_name(),
            cost_units: self.to_sec_per_rate() as u64,
            supports_tools: true,
            supports_vision: true,
            family,
        }
    }
}

/// The fixed priority list auto mode tries: the default model first, then
/// the cheaper fallbacks in decreasing capability.
pub fn auto_candidates() -> (r: Vec<ModelCandidate>)
    ensures
        spec_candidate_names(r.deep_view()) == seq![
            spec_model_name(AIModel::MO4Mini),
            spec_model_name(AIModel::M4dot1Mini),
            spec_model_name(AIModel::M4dot1Nano),
        ],
{
    let mut r: Vec<ModelCandidate> = Vec::new();
    r.push(AIModel::MO4Mini.to_candidate());
    r.push(AIModel::M4dot1Mini.to_candidate());
    r.push(AIModel::M4dot1Nano.to_candidate());
    proof {
        assert(spec_candidate_names(r.deep_view()) =~= seq![
            spec_model_name(AIModel::MO4Mini),
            spec_model_name(AIModel::M4dot1Mini),
            spec_model_name(AIModel::M4dot1Nano),
        ]);
    }
    r
}

/// The provider invocations' outcomes, consumed in order: each invocation
/// takes the next one. The transport refills it; the loop only reads.
#[derive(Debug)]
pub struct OutcomeFeed {
    outcomes: Vec<ProviderOutcome>,
}

impl OutcomeFeed {
    /// The outcomes not yet consumed, in order.
    pub closed spec fn remaining(&self) -> Seq<OutcomeView> {
        self.outcomes.deep_view()
    }

    /// A feed that will serve these outcomes in order.
    pub fn new(outcomes: Vec<ProviderOutcome>) -> (r: OutcomeFeed)
        ensures
            r.remaining() == outcomes.deep_view(),
    {
        OutcomeFeed { outcomes }
    }

    /// Takes the next outcome, if one is left.
    pub fn next(&mut self) -> (r: Option<ProviderOutcome>)
        ensures
            old(self).remaining().len() == 0 ==> r is None && final(self).remaining() == old(
                self,
            ).remaining(),
            old(self).remaining().len() > 0 ==> (r matches Some(o) && o@ == old(
                self,
            ).remaining().first() && final(self).remaining() == old(self).remaining().drop_first()),
    {
        if self.outcomes.len() == 0 {
            None
        } else {
            let o = self.outcomes.remove(0);
            proof {
                assert(self.outcomes.deep_view() =~= old(self).remaining().drop_first());
            }
            Some(o)
        }
    }
}

/// What one candidate's run ended as.
#[derive(Debug)]
pub enum CandidateOutcome {
    /// The model produced a final answer (possibly empty) for this turn.
    Finished { text: String, used_tools: Vec<String>, invocations: usize },
    /// The candidate failed; a fatal failure (an unknown tool) must not be
    /// retried on another model.
    Failed { reason: String, fatal: bool, invocations: usize },
}

/// How many invocations a candidate outcome records.
pub open spec fn spec_outcome_invocations(r: CandidateOutcome) -> nat {
    match r {
        CandidateOutcome::Finished { invocations, .. } => invocations as nat,
        CandidateOutcome::Failed { invocations, .. } => invocations as nat,
    }
}

/// The assistant message a finished run appends for its answer text.
pub open spec fn spec_assistant_message(text: String) -> ItemView {
    ItemView::Message { role: Role::Assistant, content: seq![MessageContext::Text(text)] }
}

/// The delta a finished run's answer contributes to the merge: one
/// assistant message, or nothing when the answer was empty.
pub open spec fn spec_answer_delta(text: String) -> Seq<ItemView> {
    if text@.len() > 0 {
        seq![spec_assistant_message(text)]
    } else {
        Seq::empty()
    }
}

/// The events of a completed outcome; a failure has none.
pub open spec fn spec_events_of(o: OutcomeView) -> Seq<NormalizedEvent> {
    match o {
        OutcomeView::Completed { events } => events,
        OutcomeView::Failed { .. } => Seq::empty(),
    }
}

/// Whether a feed's first outcome finishes a run in one invocation with no
/// tool use: a completed response with no requested calls.
pub open spec fn spec_plain_turn(feed: Seq<OutcomeView>) -> bool {
    feed.len() > 0 && match feed[0] {
        OutcomeView::Completed { events } => spec_tool_calls_of(events).len() == 0,
        OutcomeView::Failed { .. } => false,
    }
}

/// Whether an outcome is a rejected request creation.
pub open spec fn spec_creation_rejected(o: OutcomeView) -> bool {
    match o {
        OutcomeView::Failed { kind, .. } => kind == FailureKind::CreationRejected,
        _ => false,
    }
}

/// Whether a feed opens with a plain (non-creation) failure, which fails
/// the candidate on its first invocation with that failure's message.
pub open spec fn spec_first_plain_failure(feed: Seq<OutcomeView>) -> bool {
    feed.len() > 0 && match feed[0] {
        OutcomeView::Failed { kind, .. } => kind != FailureKind::CreationRejected,
        _ => false,
    }
}

/// Whether a feed opens with a rejected creation whose single retry also
/// fails.
pub open spec fn spec_creation_then_failure(feed: Seq<OutcomeView>) -> bool {
    feed.len() >= 2 && spec_creation_rejected(feed[0]) && feed[1] is Failed
}

/// Drives one candidate: up to `max_steps + 1` provider invocations, tool
/// choice forced off on the last one, executing each requested tool between
/// invocations and feeding its result — or its error text — back into the
/// working copy. A rejected request creation is retried exactly once with
/// tools disabled, and when the retry also fails, the failure names both
/// errors. Only `ToolCall` and `ToolResult` items and the final assistant
/// message are appended to the working copy.
pub fn run_candidate(
    working: &mut Vec<ConversationItem>,
    max_steps: usize,
    feed: &mut OutcomeFeed,
    registry: &mut ToolRegistry,
    tctx: &ToolContext,
) -> (r: CandidateOutcome)
    requires
        old(registry).wf(),
        max_steps + 2 <= usize::MAX,
    ensures
        final(registry).wf(),
        final(registry).names() == old(registry).names(),
        final(feed).remaining() == old(feed).remaining().skip(
            old(feed).remaining().len() - final(feed).remaining().len(),
        ),
        spec_outcome_invocations(r) <= max_steps + 2,
        old(feed).remaining().len() - final(feed).remaining().len() <= spec_outcome_invocations(r),
        (forall|j: int|
            0 <= j < old(feed).remaining().len() ==> (#[trigger] old(feed).remaining()[j])
                is Completed) ==> spec_outcome_invocations(r) <= max_steps + 1,
        final(working).deep_view().len() >= old(working).deep_view().len(),
        final(working).deep_view().take(old(working).deep_view().len() as int) == old(
            working,
        ).deep_view(),
        r matches CandidateOutcome::Finished { text, .. } ==> messages_only(
            final(working).deep_view().skip(old(working).deep_view().len() as int),
        ) == spec_answer_delta(text),
        r matches CandidateOutcome::Failed { .. } ==> messages_only(
            final(working).deep_view().skip(old(working).deep_view().len() as int),
        ) == Seq::<ItemView>::empty(),
        spec_plain_turn(old(feed).remaining()) ==> (r matches CandidateOutcome::Finished {
            text,
            used_tools,
            invocations,
        } && invocations == 1 && used_tools@.len() == 0 && text@ == spec_texts_concat(
            spec_events_of(old(feed).remaining()[0]),
        ) && final(feed).remaining() == old(feed).remaining().drop_first()),
        spec_first_plain_failure(old(feed).remaining()) ==> (old(feed).remaining()[0]
            matches OutcomeView::Failed { message, .. } ==> (r matches CandidateOutcome::Failed {
            reason,
            fatal,
            invocations,
        } && invocations == 1 && !fatal && reason@ == message && final(feed).remaining() == old(
            feed,
        ).remaining().drop_first())),
        spec_creation_then_failure(old(feed).remaining()) ==> (old(feed).remaining()[0]
            matches OutcomeView::Failed { message: m1, .. } ==> (old(feed).remaining()[1]
            matches OutcomeView::Failed { message: m2, .. } ==> (r
            matches CandidateOutcome::Failed { reason, fatal, invocations } && invocations == 2
            && !fatal && reason@ == "creation failed twice - original: "@ + m1 + "; fallback: "@
            + m2 && final(feed).remaining() == old(feed).remaining().skip(2)))),
{
    let ghost fv0 = feed.remaining();
    let ghost w0 = working.deep_view();
    let mut invocations: usize = 0;
    let mut text_acc = String::new();
    let mut used: Vec<String> = Vec::new();
    let mut creation_retry_done = false;
    proof {
        assert(fv0.skip(0) =~= fv0);
        assert(working.deep_view().take(w0.len() as int) =~= w0);
        assert(working.deep_view().skip(w0.len() as int) =~= Seq::<ItemView>::empty());
    }
    let end = max_steps + 1;
    for i in 0..end
        invariant
            end == max_steps + 1,
            max_steps + 2 <= usize::MAX,
            fv0 == old(feed).remaining(),
            w0 == old(working).deep_view(),
            registry.wf(),
            registry.names() == old(registry).names(),
            feed.remaining() == fv0.skip(invocations as int),
            feed.remaining().len() == fv0.len() - invocations,
            invocations <= fv0.len(),
            invocations <= i + (if creation_retry_done {
                1int
            } else {
                0int
            }),
            (forall|j: int| 0 <= j < fv0.len() ==> (#[trigger] fv0[j]) is Completed)
                ==> !creation_retry_done,
            working.deep_view().len() >= w0.len(),
            working.deep_view().take(w0.len() as int) == w0,
            messages_only(working.deep_view().skip(w0.len() as int)) == Seq::<ItemView>::empty(),
            i > 0 ==> !spec_plain_turn(fv0),
            i > 0 ==> !spec_first_plain_failure(fv0) && !spec_creation_then_failure(fv0),
            i == 0 ==> text_acc@ == Seq::<char>::empty() && used@.len() == 0 && invocations == 0
                && !creation_retry_done,
    {
        let ghost inv_at_top = invocations as int;
        let outcome = match feed.next() {
            Some(o) => o,
            None => {
                return CandidateOutcome::Failed {
                    reason: String::from_str("the provider yielded no response"),
                    fatal: false,
                    invocations,
                };
            },
        };
        invocations = invocations + 1;
        proof {
            assert(fv0.skip(inv_at_top).drop_first() =~= fv0.skip(inv_at_top + 1));
            assert(outcome@ == fv0[inv_at_top]);
        }
        let events = match outcome {
            ProviderOutcome::Completed { events } => events,
            ProviderOutcome::Failed { kind, message } => {
                if i == 0 && !creation_retry_done && kind == FailureKind::CreationRejected {
                    proof {
                        assert(fv0[inv_at_top] is Failed);
                    }
                    creation_retry_done = true;
                    let ghost inv_retry = invocations as int;
                    match feed.next() {
                        None => {
                            return CandidateOutcome::Failed {
                                reason: String::from_str("the provider yielded no response"),
                                fatal: false,
                                invocations,
                            };
                        },
                        Some(o2) => {
                            invocations = invocations + 1;
                            proof {
                                assert(fv0.skip(inv_retry).drop_first() =~= fv0.skip(
                                    inv_retry + 1,
                                ));
                                assert(o2@ == fv0[inv_retry]);
                            }
                            match o2 {
                                ProviderOutcome::Completed { events } => {
                                    proof {
                                        assert(fv0[inv_retry] is Completed);
                                    }
                                    events
                                },
                                ProviderOutcome::Failed { message: message2, .. } => {
                                    let mut reason = String::from_str(
                                        "creation failed twice - original: ",
                                    );
                                    reason.append(message.as_str());
                                    reason.append("; fallback: ");
                                    reason.append(message2.as_str());
                                    return CandidateOutcome::Failed {
                                        reason,
                                        fatal: false,
                                        invocations,
                                    };
                                },
                            }
                        },
                    }
                } else {
                    return CandidateOutcome::Failed { reason: message, fatal: false, invocations };
                }
            },
        };
        let ghost ev = events@;
        let ghost retried_here = creation_retry_done;
        let ghost text_start = text_acc@;
        let mut pending: Vec<(String, String, String)> = Vec::new();
        let m = events.len();
        proof {
            assert(ev.take(0) =~= Seq::<NormalizedEvent>::empty());
        }
        for j in 0..m
            invariant
                m == events@.len(),
                ev == events@,
                text_acc@ == text_start + spec_texts_concat(ev.take(j as int)),
                pending@.len() == spec_tool_calls_of(ev.take(j as int)).len(),
                forall|k: int|
                    0 <= k < pending@.len() ==> ((#[trigger] pending@[k]).0@, pending@[k].1@,
                    pending@[k].2@) == spec_tool_calls_of(ev.take(j as int))[k],
                working.deep_view().len() >= w0.len(),
                working.deep_view().take(w0.len() as int) == w0,
                messages_only(working.deep_view().skip(w0.len() as int)) == Seq::<
                    ItemView,
                >::empty(),
        {
            proof {
                assert(ev.take(j + 1).drop_last() =~= ev.take(j as int));
                assert(ev.take(j + 1).last() == ev[j as int]);
            }
            match &events[j] {
                NormalizedEvent::TextDelta(t) => {
                    text_acc.append(t.as_str());
                },
                NormalizedEvent::ToolCallRequested { call_id, name, arguments } => {
                    let ghost prevw = working.deep_view();
                    working.push(
                        ConversationItem::ToolCall {
                            call_id: call_id.clone(),
                            tool_name: name.clone(),
                            arguments: arguments.clone(),
                        },
                    );
                    pending.push((call_id.clone(), name.clone(), arguments.clone()));
                    proof {
                        assert(working.deep_view().take(w0.len() as int) =~= w0);
                        assert(working.deep_view().skip(w0.len() as int) =~= prevw.skip(
                            w0.len() as int,
                        ).push(working.deep_view().last()));
                        assert(working.deep_view().last() is ToolCall);
                        lemma_messages_only_push(
                            prevw.skip(w0.len() as int),
                            working.deep_view().last(),
                        );
                    }
                },
                NormalizedEvent::StatusUpdate(_) => {},
                NormalizedEvent::Terminal { .. } => {},
            }
        }
        proof {
            assert(ev.take(m as int) =~= ev);
            if i == 0 {
                if retried_here {
                    assert(spec_creation_rejected(fv0[0]));
                    assert(fv0[1] is Completed);
                } else {
                    assert(fv0[0] is Completed);
                }
            }
            assert(!spec_first_plain_failure(fv0));
            assert(!spec_creation_then_failure(fv0));
        }
        if pending.len() == 0 {
            return finish_candidate(working, text_acc, used, invocations, Ghost(w0));
        }
        if i == max_steps {
            return finish_candidate(working, text_acc, used, invocations, Ghost(w0));
        }
        let p = pending.len();
        let mut q: usize = 0;
        proof {
            assert(invocations <= max_steps + 1);
            if i == 0 {
                if retried_here {
                    assert(fv0[0] is Failed);
                } else {
                    assert(ev == spec_events_of(fv0[0]));
                    assert(spec_tool_calls_of(ev).len() > 0);
                }
            }
            assert(!spec_plain_turn(fv0));
        }
        while q < p
            invariant
                p == pending@.len(),
                q <= p,
                fv0 == old(feed).remaining(),
                w0 == old(working).deep_view(),
                !spec_plain_turn(fv0),
                !spec_first_plain_failure(fv0),
                !spec_creation_then_failure(fv0),
                registry.wf(),
                registry.names() == old(registry).names(),
                feed.remaining() == fv0.skip(invocations as int),
                feed.remaining().len() == fv0.len() - invocations,
                invocations <= fv0.len(),
                invocations <= max_steps + 1,
                working.deep_view().len() >= w0.len(),
                working.deep_view().take(w0.len() as int) == w0,
                messages_only(working.deep_view().skip(w0.len() as int)) == Seq::<
                    ItemView,
                >::empty(),
            decreases p - q,
        {
            used.push(pending[q].1.clone());
            let outcome = registry.execute(
                pending[q].1.as_str(),
                pending[q].2.as_str(),
                tctx,
            );
            let ghost prevw = working.deep_view();
            match outcome {
                ToolExecOutcome::NotFound => {
                    let mut reason = String::from_str("Tool not found: ");
                    reason.append(pending[q].1.as_str());
                    return CandidateOutcome::Failed { reason, fatal: true, invocations };
                },
                ToolExecOutcome::Ran(Ok(output)) => {
                    working.push(
                        ConversationItem::ToolResult {
                            call_id: pending[q].0.clone(),
                            output,
                            status: crate::items::ToolStatus::Success,
                        },
                    );
                },
                ToolExecOutcome::Ran(Err(error_text)) => {
                    working.push(
                        ConversationItem::ToolResult {
                            call_id: pending[q].0.clone(),
                            output: error_text,
                            status: crate::items::ToolStatus::Failure,
                        },
                    );
                },
            }
            proof {
                if working.deep_view().len() > prevw.len() {
                    assert(working.deep_view().take(w0.len() as int) =~= w0);
                    assert(working.deep_view().skip(w0.len() as int) =~= prevw.skip(
                        w0.len() as int,
                    ).push(working.deep_view().last()));
                    lemma_messages_only_push(
                        prevw.skip(w0.len() as int),
                        working.deep_view().last(),
                    );
                }
            }
            q = q + 1;
        }
    }
    CandidateOutcome::Failed {
        reason: String::from_str("the step budget was exhausted"),
        fatal: false,
        invocations,
    }
}

/// Ends a candidate's run: the accumulated answer is appended to the
/// working copy as one assistant message — unless it is empty, which is
/// still a success with empty text.
fn finish_candidate(
    working: &mut Vec<ConversationItem>,
    text_acc: String,
    used: Vec<String>,
    invocations: usize,
    Ghost(w0): Ghost<Seq<ItemView>>,
) -> (r: CandidateOutcome)
    requires
        old(working).deep_view().len() >= w0.len(),
        old(working).deep_view().take(w0.len() as int) == w0,
        messages_only(old(working).deep_view().skip(w0.len() as int)) == Seq::<ItemView>::empty(),
    ensures
        final(working).deep_view().len() >= w0.len(),
        final(working).deep_view().take(w0.len() as int) == w0,
        r matches CandidateOutcome::Finished { text, used_tools, invocations: inv } ==> text
            == text_acc && used_tools == used && inv == invocations && messages_only(
            final(working).deep_view().skip(w0.len() as int),
        ) == spec_answer_delta(text),
        r is Finished,
{
    if text_acc.as_str().unicode_len() > 0 {
        let ghost prevw = working.deep_view();
        let mut content: Vec<MessageContext> = Vec::new();
        content.push(MessageContext::Text(text_acc.clone()));
        working.push(ConversationItem::Message { role: Role::Assistant, content });
        proof {
            assert(working.deep_view() =~= prevw.push(spec_assistant_message(text_acc)));
            assert(working.deep_view().take(w0.len() as int) =~= w0);
            assert(working.deep_view().skip(w0.len() as int) =~= prevw.skip(w0.len() as int).push(
                spec_assistant_message(text_acc),
            ));
            lemma_messages_only_push(prevw.skip(w0.len() as int), spec_assistant_message(text_acc));
            assert(messages_only(working.deep_view().skip(w0.len() as int)) =~= spec_answer_delta(
                text_acc,
            ));
        }
    } else {
        proof {
            assert(spec_answer_delta(text_acc) =~= Seq::<ItemView>::empty());
        }
    }
    CandidateOutcome::Finished { text: text_acc, used_tools: used, invocations }
}


/// A finished turn: the answer text and its metadata — the model actually
/// used, the tools used in execution order, how many provider invocations
/// ran, and how many candidates were attempted (the last one succeeded).
#[derive(Debug)]
pub struct RunSuccess {
    pub text: String,
    pub model_used: String,
    pub used_tools: Vec<String>,
    pub invocations: usize,
    pub attempts: usize,
}

/// A failed turn: every candidate attempted, in order, the last failure's
/// reason, and whether the failure was fatal (an unknown tool, which no
/// other model would fix).
#[derive(Debug)]
pub struct RunFailure {
    pub attempted: Vec<String>,
    pub last_reason: String,
    pub fatal: bool,
}

/// Whether the feed's first `k` outcomes are plain failures and the rest
/// opens with a completed, tool-free response: the fallback scenario's
/// shape, in which each failing candidate consumes exactly one outcome and
/// candidate `k` then answers.
pub open spec fn spec_failures_then_plain(feed: Seq<OutcomeView>, k: int) -> bool {
    0 <= k < feed.len() && (forall|j: int|
        0 <= j < k ==> spec_first_plain_failure(#[trigger] feed.skip(j))) && spec_plain_turn(
        feed.skip(k),
    )
}

/// One run per inbound mention: tries the candidates in order, drives the
/// bounded tool loop for each, and on the first success merges only the
/// `Message` items of the working copy's delta — the inbound messages and
/// the final assistant answer — back into the canonical log. When every
/// candidate fails, nothing at all is merged, and the failure names each
/// attempted model in order.
pub fn run_turn(
    store: &mut ContextStore,
    channel: u64,
    inbound: &Vec<ConversationItem>,
    candidates: &Vec<ModelCandidate>,
    auto: bool,
    max_steps: usize,
    feed: &mut OutcomeFeed,
    registry: &mut ToolRegistry,
    tctx: &ToolContext,
) -> (r: Result<RunSuccess, RunFailure>)
    requires
        old(store).wf(),
        old(registry).wf(),
        candidates@.len() > 0,
        max_steps + 2 <= usize::MAX,
    ensures
        final(store).wf(),
        final(registry).wf(),
        final(registry).names() == old(registry).names(),
        r matches Err(f) ==> *final(store) == *old(store),
        r matches Err(f) ==> 1 <= f.attempted.deep_view().len() <= candidates@.len()
            && f.attempted.deep_view() == spec_candidate_names(candidates.deep_view()).take(
            f.attempted.deep_view().len() as int,
        ),
        !auto ==> (r matches Err(f) ==> f.attempted.deep_view() == seq![
            candidates.deep_view()[0].name,
        ]),
        auto ==> (r matches Err(f) ==> (f.fatal || f.attempted.deep_view()
            == spec_candidate_names(candidates.deep_view()))),
        r matches Ok(s) ==> 1 <= s.attempts <= candidates@.len() && s.model_used@
            == candidates.deep_view()[s.attempts - 1].name,
        !auto ==> (r matches Ok(s) ==> s.attempts == 1),
        r matches Ok(s) ==> final(store).ctx_of(channel) == clamp_to_capacity(
            old(store).ctx_of(channel) + messages_only(inbound.deep_view()) + spec_answer_delta(
                s.text,
            ),
            old(store).cap_of(channel),
        ) && final(store).cap_of(channel) == old(store).cap_of(channel),
        spec_plain_turn(old(feed).remaining()) ==> (r matches Ok(s) && s.attempts == 1
            && s.invocations == 1 && s.used_tools@.len() == 0 && s.text@ == spec_texts_concat(
            spec_events_of(old(feed).remaining()[0]),
        )),
        forall|kk: int|
            (auto && spec_failures_then_plain(old(feed).remaining(), kk) && kk < candidates@.len())
                ==> (r matches Ok(s) && s.attempts == kk + 1 && s.model_used@
                == spec_candidate_names(candidates.deep_view())[kk] && s.invocations == 1
                && s.used_tools@.len() == 0 && s.text@ == spec_texts_concat(
                spec_events_of(old(feed).remaining().skip(kk)[0]),
            )),
{
    let ghost names = spec_candidate_names(candidates.deep_view());
    let mut attempted: Vec<String> = Vec::new();
    let mut last_reason = String::from_str("no candidate was tried");
    let n = candidates.len();
    let mut k: usize = 0;
    proof {
        assert(attempted.deep_view() =~= names.take(0));
    }
    while k < n
        invariant
            n == candidates@.len(),
            n >= 1,
            k <= n,
            max_steps + 2 <= usize::MAX,
            names == spec_candidate_names(candidates.deep_view()),
            *store == *old(store),
            store.wf(),
            registry.wf(),
            registry.names() == old(registry).names(),
            attempted.deep_view() == names.take(k as int),
            k == 0 ==> feed.remaining() == old(feed).remaining(),
            k > 0 ==> !spec_plain_turn(old(feed).remaining()),
            forall|kk: int|
                (auto && #[trigger] spec_failures_then_plain(old(feed).remaining(), kk) && k <= kk)
                    ==> feed.remaining() == old(feed).remaining().skip(k as int),
            forall|kk: int|
                0 <= kk < k ==> !(auto && #[trigger] spec_failures_then_plain(
                    old(feed).remaining(),
                    kk,
                ) && kk < n),
            !auto ==> k == 0,
        decreases n - k,
    {
        let mut working = store.working_items(channel);
        let delta_start = working.len();
        let ghost w_canonical = working.deep_view();
        let mut inbound_copy = crate::items::clone_items(inbound);
        let ghost inb = inbound_copy.deep_view();
        working.append(&mut inbound_copy);
        let ghost w_prerun = working.deep_view();
        proof {
            assert(inb =~= inbound.deep_view());
            assert(w_prerun =~= w_canonical + inb);
            assert(delta_start == w_canonical.len());
        }
        let outcome = run_candidate(&mut working, max_steps, feed, registry, tctx);
        match outcome {
            CandidateOutcome::Finished { text, used_tools, invocations } => {
                let ghost w_after = working.deep_view();
                let delta = working.split_off(delta_start);
                proof {
                    assert(delta.deep_view() =~= w_after.skip(w_canonical.len() as int));
                    assert(w_after.take(w_prerun.len() as int) == w_prerun);
                    assert forall|j: int|
                        w_canonical.len() <= j < w_prerun.len() implies w_after[j] == inb[j
                        - w_canonical.len()] by {
                        assert(w_after.take(w_prerun.len() as int)[j] == w_after[j]);
                        assert(w_prerun[j] == inb[j - w_canonical.len()]);
                    }
                    assert(w_after.skip(w_canonical.len() as int) =~= inbound.deep_view()
                        + w_after.skip(w_prerun.len() as int));
                    lemma_messages_only_append(
                        inbound.deep_view(),
                        w_after.skip(w_prerun.len() as int),
                    );
                }
                store.merge_messages_only(channel, &delta);
                proof {
                    assert(old(store).ctx_of(channel) + messages_only(delta.deep_view())
                        =~= old(store).ctx_of(channel) + messages_only(inbound.deep_view())
                        + spec_answer_delta(text));
                }
                let model_used = candidates[k].name.clone();
                return Ok(
                    RunSuccess { text, model_used, used_tools, invocations, attempts: k + 1 },
                );
            },
            CandidateOutcome::Failed { reason, fatal, invocations: _ } => {
                attempted.push(candidates[k].name.clone());
                last_reason = reason;
                proof {
                    assert(candidates.deep_view()[k as int] == candidates@[k as int]@);
                    assert(names[k as int] == candidates.deep_view()[k as int].name);
                    assert(names.take(k + 1) =~= names.take(k as int).push(names[k as int]));
                    assert(attempted.deep_view() =~= names.take(k + 1));
                }
                if !auto || fatal {
                    proof {
                        if !auto {
                            assert(attempted.deep_view() =~= seq![
                                candidates.deep_view()[0].name,
                            ]);
                        }
                    }
                    return Err(RunFailure { attempted, last_reason, fatal });
                }
            },
        }
        k = k + 1;
    }
    proof {
        assert(names.take(n as int) =~= names);
    }
    Err(RunFailure { attempted, last_reason, fatal: false })
}

/// The diagnostic a failed turn renders: every attempted model, in order,
/// and the last failure's reason.
pub fn run_failure_diagnostic(f: &RunFailure) -> (r: String)
    ensures
        r@ == "Err: model fallback failed - tried: "@ + spec_join(f.attempted.deep_view(), ", "@)
            + "; last error: "@ + f.last_reason@,
{
    let mut r = String::from_str("Err: model fallback failed - tried: ");
    let joined = join_with(&f.attempted, ", ");
    r.append(joined.as_str());
    r.append("; last error: ");
    r.append(f.last_reason.as_str());
    r
}


/// `pairs` with the count of the first entry named `x` bumped, or a fresh
/// entry appended when no entry carries that name yet.
pub open spec fn spec_bump(pairs: Seq<(Seq<char>, u64)>, x: Seq<char>) -> Seq<(Seq<char>, u64)>
    decreases pairs.len(),
{
    if pairs.len() == 0 {
        seq![(x, 1u64)]
    } else if pairs.first().0 == x {
        seq![(x, (pairs.first().1 + 1) as u64)] + pairs.drop_first()
    } else {
        seq![pairs.first()] + spec_bump(pairs.drop_first(), x)
    }
}

/// The per-tool usage of a run: each used name once, in first-use order,
/// with how often it was used.
pub open spec fn spec_tool_counts(used: Seq<Seq<char>>) -> Seq<(Seq<char>, u64)>
    decreases used.len(),
{
    if used.len() == 0 {
        Seq::empty()
    } else {
        spec_bump(spec_tool_counts(used.drop_last()), used.last())
    }
}

/// Folds a run's used-tool list into the metadata counts; see
/// [`spec_tool_counts`]. Every count stays at most the list's length.
pub fn tool_usage_summary(used: &Vec<String>) -> (r: Vec<(String, u64)>)
    ensures
        r.deep_view() == spec_tool_counts(used.deep_view()),
{
    let mut r: Vec<(String, u64)> = Vec::new();
    let n = used.len();
    proof {
        assert(r.deep_view() =~= Seq::<(Seq<char>, u64)>::empty());
        assert(used.deep_view().take(0) =~= Seq::<Seq<char>>::empty());
    }
    for i in 0..n
        invariant
            n == used@.len(),
            r.deep_view() == spec_tool_counts(used.deep_view().take(i as int)),
            forall|k: int| 0 <= k < r@.len() ==> (#[trigger] r@[k]).1 <= i,
    {
        proof {
            assert(used.deep_view().take(i + 1).drop_last() =~= used.deep_view().take(i as int));
            assert(used.deep_view().take(i + 1).last() == used.deep_view()[i as int]);
        }
        let ghost pre = r.deep_view();
        match find_name(&r, used[i].as_str()) {
            Some(j) => {
                let (name, count) = r.remove(j);
                r.insert(j, (name, count + 1));
                proof {
                    assert(r.deep_view() =~= pre.update(
                        j as int,
                        (pre[j as int].0, (pre[j as int].1 + 1) as u64),
                    ));
                    lemma_bump_at(pre, j as int, used.deep_view()[i as int]);
                }
            },
            None => {
                r.push((used[i].clone(), 1));
                proof {
                    assert(r.deep_view() =~= pre.push((used.deep_view()[i as int], 1u64)));
                    lemma_bump_absent(pre, used.deep_view()[i as int]);
                }
            },
        }
    }
    proof {
        assert(used.deep_view().take(n as int) =~= used.deep_view());
    }
    r
}

/// The position of the first entry named `name`, if any.
fn find_name(pairs: &Vec<(String, u64)>, name: &str) -> (r: Option<usize>)
    ensures
        r matches Some(j) ==> j < pairs@.len() && pairs.deep_view()[j as int].0 == name@ && (
        forall|k: int| 0 <= k < j ==> (#[trigger] pairs.deep_view()[k]).0 != name@),
        r is None ==> forall|k: int|
            0 <= k < pairs@.len() ==> (#[trigger] pairs.deep_view()[k]).0 != name@,
{
    let m = pairs.len();
    for j in 0..m
        invariant
            m == pairs@.len(),
            forall|k: int| 0 <= k < j ==> (#[trigger] pairs.deep_view()[k]).0 != name@,
    {
        if crate::strutil::str_eq(pairs[j].0.as_str(), name) {
            return Some(j);
        }
        proof {
            assert(pairs.deep_view()[j as int].0 == pairs@[j as int].0@);
        }
    }
    None
}

/// Bumping the entry at the position of its own first match updates it in
/// place.
proof fn lemma_bump_at(pairs: Seq<(Seq<char>, u64)>, i: int, x: Seq<char>)
    requires
        0 <= i < pairs.len(),
        pairs[i].0 == x,
        forall|k: int| 0 <= k < i ==> (#[trigger] pairs[k]).0 != x,
    ensures
        spec_bump(pairs, x) == pairs.update(i, (x, (pairs[i].1 + 1) as u64)),
    decreases pairs.len(),
{
    if i == 0 {
        assert(pairs.first().0 == x);
        assert(spec_bump(pairs, x) =~= pairs.update(0, (x, (pairs[0].1 + 1) as u64)));
    } else {
        assert(pairs[0].0 != x);
        assert(pairs.first().0 != x);
        assert forall|k: int| 0 <= k < i - 1 implies (#[trigger] pairs.drop_first()[k]).0 != x by {
            assert(pairs.drop_first()[k] == pairs[k + 1]);
        }
        assert(pairs.drop_first()[i - 1] == pairs[i]);
        lemma_bump_at(pairs.drop_first(), i - 1, x);
        assert(spec_bump(pairs, x) =~= pairs.update(i, (x, (pairs[i].1 + 1) as u64)));
    }
}

/// Bumping a name no entry carries appends a fresh entry.
proof fn lemma_bump_absent(pairs: Seq<(Seq<char>, u64)>, x: Seq<char>)
    requires
        forall|k: int| 0 <= k < pairs.len() ==> (#[trigger] pairs[k]).0 != x,
    ensures
        spec_bump(pairs, x) == pairs.push((x, 1u64)),
    decreases pairs.len(),
{
    if pairs.len() > 0 {
        assert forall|k: int| 0 <= k < pairs.drop_first().len() implies (
        #[trigger] pairs.drop_first()[k]).0 != x by {
            assert(pairs.drop_first()[k] == pairs[k + 1]);
        }
        lemma_bump_absent(pairs.drop_first(), x);
        assert(spec_bump(pairs, x) =~= pairs.push((x, 1u64)));
    } else {
        assert(spec_bump(pairs, x) =~= pairs.push((x, 1u64)));
    }
}


/// How one tool's usage reads in the metadata footer: its name and its use
/// count, `x1` included.
pub open spec fn spec_usage_entry(p: (Seq<char>, u64)) -> Seq<char> {
    p.0 + " x"@ + crate::strutil::spec_u64_digits(p.1)
}

/// The metadata footer of a finished turn: the model actually used, and —
/// when any tool ran — each tool with its use count, in first-use order.
pub fn usage_footer(model_used: &str, counts: &Vec<(String, u64)>) -> (r: String)
    ensures
        r@ == "\n-# model: "@ + model_used@ + (if counts.deep_view().len() == 0 {
            Seq::<char>::empty()
        } else {
            "\n-# tools: "@ + spec_join(
                counts.deep_view().map_values(|p: (Seq<char>, u64)| spec_usage_entry(p)),
                ", "@,
            )
        }),
{
    let mut r = String::from_str("\n-# model: ");
    r.append(model_used);
    if counts.len() == 0 {
        proof {
            assert(r@ =~= "\n-# model: "@ + model_used@ + Seq::<char>::empty());
        }
        return r;
    }
    let mut entries: Vec<String> = Vec::new();
    let n = counts.len();
    for i in 0..n
        invariant
            n == counts@.len(),
            entries@.len() == i,
            forall|j: int|
                0 <= j < i ==> (#[trigger] entries@[j])@ == spec_usage_entry(
                    counts.deep_view()[j],
                ),
    {
        let mut entry = counts[i].0.clone();
        entry.append(" x");
        let digits = crate::strutil::u64_to_string(counts[i].1);
        entry.append(digits.as_str());
        entries.push(entry);
        proof {
            assert(counts.deep_view()[i as int] == (counts@[i as int].0@, counts@[i as int].1));
        }
    }
    proof {
        assert(entries.deep_view() =~= counts.deep_view().map_values(
            |p: (Seq<char>, u64)| spec_usage_entry(p),
        ));
    }
    r.append("\n-# tools: ");
    let joined = join_with(&entries, ", ");
    r.append(joined.as_str());
    r
}

} // verus!
