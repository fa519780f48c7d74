use observer::adapter::{FailureKind, NormalizedEvent, ProviderOutcome, TerminalStatus};
use observer::handler::{admit_request, Admission, ChConf};
use observer::items::{ConversationItem, MessageContext, Role};
use observer::orchestrate::{
    auto_candidates, run_failure_diagnostic, run_turn, tool_usage_summary, usage_footer,
    OutcomeFeed,
};
use observer::registry::builtin_registry;
use observer::store::ContextStore;
use observer::tools::ToolContext;

fn user_message(text: &str) -> ConversationItem {
    ConversationItem::Message {
        role: Role::User,
        content: vec![MessageContext::Text(text.to_string())],
    }
}

fn completed(events: Vec<NormalizedEvent>) -> ProviderOutcome {
    let mut events = events;
    events.push(NormalizedEvent::Terminal { status: TerminalStatus::Success });
    ProviderOutcome::Completed { events }
}

fn network_failure(message: &str) -> ProviderOutcome {
    ProviderOutcome::Failed { kind: FailureKind::Network, message: message.to_string() }
}

fn tool_call(call_id: &str, name: &str, args: &str) -> NormalizedEvent {
    NormalizedEvent::ToolCallRequested {
        call_id: call_id.to_string(),
        name: name.to_string(),
        arguments: args.to_string(),
    }
}

const CHANNEL: u64 = 42;

fn ctx() -> ToolContext {
    ToolContext { now_unix: 1_700_000_000 }
}

#[test]
fn plain_turn_merges_user_and_assistant() {
    let mut store = ContextStore::new();
    let mut registry = builtin_registry();
    let mut feed = OutcomeFeed::new(vec![completed(vec![NormalizedEvent::TextDelta(
        "hi there".to_string(),
    )])]);
    let inbound = vec![user_message("hello")];
    let candidates = auto_candidates();
    let r = run_turn(
        &mut store, CHANNEL, &inbound, &candidates, true, 5, &mut feed, &mut registry, &ctx(),
    )
    .expect("plain turn should succeed");
    assert_eq!(r.text, "hi there");
    assert_eq!(r.invocations, 1);
    assert_eq!(r.attempts, 1);
    assert_eq!(r.model_used, "o4-mini");
    assert!(r.used_tools.is_empty());
    // The canonical log grew by exactly two messages: user + assistant.
    let log = store.working_items(CHANNEL);
    assert_eq!(log.len(), 2);
    match &log[0] {
        ConversationItem::Message { role: Role::User, .. } => {},
        other => panic!("expected the user message first, got {:?}", other),
    }
    match &log[1] {
        ConversationItem::Message { role: Role::Assistant, content } => match &content[0] {
            MessageContext::Text(t) => assert_eq!(t, "hi there"),
            other => panic!("expected text, got {:?}", other),
        },
        other => panic!("expected the assistant message second, got {:?}", other),
    }
}

#[test]
fn one_tool_round_trip_reports_the_tool() {
    let mut store = ContextStore::new();
    let mut registry = builtin_registry();
    let mut feed = OutcomeFeed::new(vec![
        completed(vec![tool_call("c1", "get-location-time", "{\"country_code\":\"JP\"}")]),
        completed(vec![NormalizedEvent::TextDelta("the time in Japan".to_string())]),
    ]);
    let inbound = vec![user_message("what time is it in JP?")];
    let candidates = auto_candidates();
    let r = run_turn(
        &mut store, CHANNEL, &inbound, &candidates, true, 5, &mut feed, &mut registry, &ctx(),
    )
    .expect("tool round trip should succeed");
    assert_eq!(r.invocations, 2);
    assert_eq!(r.used_tools, vec!["get-location-time".to_string()]);
    assert_eq!(r.text, "the time in Japan");
    let counts = tool_usage_summary(&r.used_tools);
    assert_eq!(
        usage_footer(&r.model_used, &counts),
        "\n-# model: o4-mini\n-# tools: get-location-time x1"
    );
    // Tool items stay out of the canonical log.
    let log = store.working_items(CHANNEL);
    assert_eq!(log.len(), 2);
}

#[test]
fn loop_terminates_on_the_forced_final_step() {
    // A model that always requests another tool call: the loop must stop
    // within max_steps + 1 invocations and return the accumulated text.
    let mut outcomes = Vec::new();
    for i in 0..12 {
        outcomes.push(completed(vec![
            NormalizedEvent::TextDelta(format!("s{};", i)),
            tool_call(&format!("c{}", i), "text_length_tool", "{\"text\":\"abc\"}"),
        ]));
    }
    let mut store = ContextStore::new();
    let mut registry = builtin_registry();
    let mut feed = OutcomeFeed::new(outcomes);
    let inbound = vec![user_message("loop forever")];
    let candidates = auto_candidates();
    let r = run_turn(
        &mut store, CHANNEL, &inbound, &candidates, true, 3, &mut feed, &mut registry, &ctx(),
    )
    .expect("the forced final step still succeeds");
    assert_eq!(r.invocations, 4);  // max_steps + 1
    assert_eq!(r.text, "s0;s1;s2;s3;");
    assert_eq!(r.used_tools.len(), 3);  // no execution after the forced step
}

#[test]
fn fallback_uses_the_first_working_candidate() {
    let mut store = ContextStore::new();
    let mut registry = builtin_registry();
    let mut feed = OutcomeFeed::new(vec![
        network_failure("first backend down"),
        network_failure("second backend down"),
        completed(vec![NormalizedEvent::TextDelta("from the third".to_string())]),
    ]);
    let inbound = vec![user_message("hello")];
    let candidates = auto_candidates();
    let r = run_turn(
        &mut store, CHANNEL, &inbound, &candidates, true, 5, &mut feed, &mut registry, &ctx(),
    )
    .expect("the third candidate succeeds");
    assert_eq!(r.attempts, 3);
    assert_eq!(r.model_used, "gpt-4.1-nano");
    assert_eq!(r.text, "from the third");
}

#[test]
fn fallback_failure_lists_every_candidate_in_order() {
    let mut store = ContextStore::new();
    let mut registry = builtin_registry();
    let mut feed = OutcomeFeed::new(vec![
        network_failure("a down"),
        network_failure("b down"),
        network_failure("c down"),
    ]);
    let inbound = vec![user_message("hello")];
    let candidates = auto_candidates();
    let f = run_turn(
        &mut store, CHANNEL, &inbound, &candidates, true, 5, &mut feed, &mut registry, &ctx(),
    )
    .expect_err("every candidate fails");
    assert_eq!(
        f.attempted,
        vec!["o4-mini".to_string(), "gpt-4.1-mini".to_string(), "gpt-4.1-nano".to_string()]
    );
    assert_eq!(f.last_reason, "c down");
    assert!(!f.fatal);
    let diagnostic = run_failure_diagnostic(&f);
    assert_eq!(
        diagnostic,
        "Err: model fallback failed - tried: o4-mini, gpt-4.1-mini, gpt-4.1-nano; last error: c down"
    );
    // Nothing was merged.
    assert!(store.working_items(CHANNEL).is_empty());
}

#[test]
fn non_auto_mode_fails_on_the_first_candidate() {
    let mut store = ContextStore::new();
    let mut registry = builtin_registry();
    let mut feed = OutcomeFeed::new(vec![network_failure("down")]);
    let inbound = vec![user_message("hello")];
    let candidates = auto_candidates();
    let f = run_turn(
        &mut store, CHANNEL, &inbound, &candidates, false, 5, &mut feed, &mut registry, &ctx(),
    )
    .expect_err("non-auto mode fails immediately");
    assert_eq!(f.attempted, vec!["o4-mini".to_string()]);
}

#[test]
fn unknown_tool_is_fatal_and_not_retried() {
    let mut store = ContextStore::new();
    let mut registry = builtin_registry();
    let mut feed = OutcomeFeed::new(vec![
        completed(vec![tool_call("c1", "no-such-tool", "{}")]),
        completed(vec![NormalizedEvent::TextDelta("never reached".to_string())]),
    ]);
    let inbound = vec![user_message("hello")];
    let candidates = auto_candidates();
    let f = run_turn(
        &mut store, CHANNEL, &inbound, &candidates, true, 5, &mut feed, &mut registry, &ctx(),
    )
    .expect_err("an unknown tool aborts the run");
    assert!(f.fatal);
    assert_eq!(f.attempted, vec!["o4-mini".to_string()]);
    assert!(f.last_reason.contains("no-such-tool"));
}

#[test]
fn tool_errors_are_fed_back_not_fatal() {
    // A tool-level error becomes a ToolResult and the run continues.
    let mut store = ContextStore::new();
    let mut registry = builtin_registry();
    let mut feed = OutcomeFeed::new(vec![
        completed(vec![tool_call("c1", "get-location-time", "{\"country_code\":\"XX\"}")]),
        completed(vec![NormalizedEvent::TextDelta("that code is unknown".to_string())]),
    ]);
    let inbound = vec![user_message("time in XX?")];
    let candidates = auto_candidates();
    let r = run_turn(
        &mut store, CHANNEL, &inbound, &candidates, true, 5, &mut feed, &mut registry, &ctx(),
    )
    .expect("a failing tool does not abort the run");
    assert_eq!(r.text, "that code is unknown");
    assert_eq!(r.used_tools, vec!["get-location-time".to_string()]);
}

#[test]
fn creation_rejection_is_retried_once() {
    let mut store = ContextStore::new();
    let mut registry = builtin_registry();
    let mut feed = OutcomeFeed::new(vec![
        ProviderOutcome::Failed {
            kind: FailureKind::CreationRejected,
            message: "tools rejected".to_string(),
        },
        completed(vec![NormalizedEvent::TextDelta("without tools then".to_string())]),
    ]);
    let inbound = vec![user_message("hello")];
    let candidates = auto_candidates();
    let r = run_turn(
        &mut store, CHANNEL, &inbound, &candidates, true, 5, &mut feed, &mut registry, &ctx(),
    )
    .expect("the retry with tools disabled succeeds");
    assert_eq!(r.invocations, 2);
    assert_eq!(r.text, "without tools then");
}

#[test]
fn creation_failing_twice_names_both_errors() {
    let mut store = ContextStore::new();
    let mut registry = builtin_registry();
    let mut feed = OutcomeFeed::new(vec![
        ProviderOutcome::Failed {
            kind: FailureKind::CreationRejected,
            message: "tools rejected".to_string(),
        },
        network_failure("still down"),
    ]);
    let inbound = vec![user_message("hello")];
    let candidates = auto_candidates();
    let f = run_turn(
        &mut store, CHANNEL, &inbound, &candidates, false, 5, &mut feed, &mut registry, &ctx(),
    )
    .expect_err("both the creation and its retry fail");
    assert_eq!(
        f.last_reason,
        "creation failed twice - original: tools rejected; fallback: still down"
    );
}

#[test]
fn rate_limited_rejection_happens_before_any_invocation() {
    // A user whose line already exceeds now + window is refused with a
    // positive wait; no provider outcome is consumed because the turn never
    // starts.
    let on = ChConf { enable: true };
    match admit_request(Some(&on), 2000, 1000, 100, 10) {
        Admission::Refused { message } => {
            assert_eq!(message, "Err: rate limit - try again after 910s");
        },
        Admission::Proceed { .. } => panic!("expected a rate-limited refusal"),
    }
    // An admitted request carries the new line.
    match admit_request(Some(&on), 0, 1000, 100, 10) {
        Admission::Proceed { new_rate_line } => assert_eq!(new_rate_line, 0),
        _ => panic!("the unlimited user proceeds"),
    }
}

#[test]
fn tool_usage_summary_counts_in_first_use_order() {
    let used = vec![
        "get-location-time".to_string(),
        "memory_tool".to_string(),
        "get-location-time".to_string(),
    ];
    let counts = tool_usage_summary(&used);
    assert_eq!(
        counts,
        vec![("get-location-time".to_string(), 2), ("memory_tool".to_string(), 1)]
    );
    assert!(tool_usage_summary(&Vec::new()).is_empty());
}

#[test]
fn usage_footer_names_model_and_counts() {
    let counts = vec![("get-location-time".to_string(), 2u64), ("memory_tool".to_string(), 1u64)];
    assert_eq!(
        usage_footer("o4-mini", &counts),
        "\n-# model: o4-mini\n-# tools: get-location-time x2, memory_tool x1"
    );
    assert_eq!(usage_footer("o4-mini", &Vec::new()), "\n-# model: o4-mini");
}
