use observer::commands::{apply_rate_adjust, set_channel_enabled};
use observer::config::Models;
use observer::user::UserContexts;
use observer::context::Context;
use observer::events::system_prompt_for_channel;
use observer::handler::{admit_request, Admission, ChConf, PerUserConfig};
use observer::items::{ConversationItem, MessageContext, Role, ToolStatus};
use observer::ratelimit::{check_rate, RateDecision};
use observer::store::ContextStore;

fn text_message(role: Role, text: &str) -> ConversationItem {
    ConversationItem::Message {
        role,
        content: vec![MessageContext::Text(text.to_string())],
    }
}

fn message_text(item: &ConversationItem) -> String {
    match item {
        ConversationItem::Message { content, .. } => match &content[0] {
            MessageContext::Text(t) => t.clone(),
            _ => panic!("expected a text part"),
        },
        _ => panic!("expected a message"),
    }
}

#[test]
fn capacity_keeps_last_k_in_order() {
    let mut ctx = Context::new(3);
    let mut items = Vec::new();
    for i in 0..5 {
        items.push(text_message(Role::User, &format!("m{}", i)));
    }
    ctx.append_items(items);
    assert_eq!(ctx.len(), 3);
    let entries = ctx.entries();
    assert_eq!(message_text(&entries[0]), "m2");
    assert_eq!(message_text(&entries[1]), "m3");
    assert_eq!(message_text(&entries[2]), "m4");
}

#[test]
fn capacity_zero_keeps_nothing() {
    let mut ctx = Context::new(0);
    ctx.append(text_message(Role::User, "dropped"));
    assert_eq!(ctx.len(), 0);
}

#[test]
fn merge_keeps_only_messages_in_order() {
    let mut ctx = Context::new(16);
    let delta = vec![
        text_message(Role::User, "question"),
        ConversationItem::ToolCall {
            call_id: "c1".to_string(),
            tool_name: "get-location-time".to_string(),
            arguments: "{}".to_string(),
        },
        ConversationItem::ToolResult {
            call_id: "c1".to_string(),
            output: "noon".to_string(),
            status: ToolStatus::Success,
        },
        ConversationItem::ReasoningNote { text: "thinking".to_string() },
        text_message(Role::Assistant, "answer"),
    ];
    ctx.merge_messages_only(&delta);
    assert_eq!(ctx.len(), 2);
    let entries = ctx.entries();
    assert_eq!(message_text(&entries[0]), "question");
    assert_eq!(message_text(&entries[1]), "answer");
}

#[test]
fn snapshot_is_a_structural_copy() {
    let mut ctx = Context::new(8);
    ctx.append(text_message(Role::User, "one"));
    let snap = ctx.snapshot();
    ctx.append(text_message(Role::User, "two"));
    assert_eq!(snap.len(), 1);
    assert_eq!(ctx.len(), 2);
}

#[test]
fn store_creates_channels_lazily_and_isolates_them() {
    let mut store = ContextStore::new();
    store.append(7, vec![text_message(Role::User, "in seven")]);
    store.append(9, vec![text_message(Role::User, "in nine")]);
    let seven = store.working_items(7);
    let nine = store.working_items(9);
    assert_eq!(seven.len(), 1);
    assert_eq!(message_text(&seven[0]), "in seven");
    assert_eq!(message_text(&nine[0]), "in nine");
    assert!(store.working_items(1234).is_empty());
}

#[test]
fn store_enable_clear_and_prompt_override() {
    let mut store = ContextStore::new();
    assert!(!store.is_enabled(5));
    store.set_enabled(5, true);
    assert!(store.is_enabled(5));
    store.append(5, vec![text_message(Role::User, "hello")]);
    store.clear(5);
    assert!(store.working_items(5).is_empty());
    assert!(store.is_enabled(5));
    assert!(store.system_prompt(5).is_none());
    store.set_system_prompt(5, Some("be terse".to_string()));
    assert_eq!(store.system_prompt(5).unwrap(), "be terse");
}

#[test]
fn rate_limiter_accumulates_debt() {
    // A drained bucket restarts at now + add.
    match check_rate(50, 1000, 100, 30) {
        RateDecision::Allow { new_rate_line } => assert_eq!(new_rate_line, 1030),
        _ => panic!("expected allow"),
    }
    // Debt accumulates while the line is in the future.
    match check_rate(1050, 1000, 100, 30) {
        RateDecision::Allow { new_rate_line } => assert_eq!(new_rate_line, 1080),
        _ => panic!("expected allow"),
    }
    // Pushing past now + window rejects and reports the overshoot.
    match check_rate(1090, 1000, 100, 30) {
        RateDecision::Reject { retry_after } => assert_eq!(retry_after, 20),
        _ => panic!("expected reject"),
    }
}

#[test]
fn unlimited_sentinel_is_never_rejected() {
    let mut line = 0u64;
    for i in 0..1000u64 {
        match check_rate(line, 1000 + i, 10, 1_000_000) {
            RateDecision::Allow { new_rate_line } => line = new_rate_line,
            RateDecision::Reject { .. } => panic!("unlimited user was rejected"),
        }
    }
    assert_eq!(line, 0);
}

#[test]
fn admission_refuses_disabled_channel() {
    match admit_request(None, 0, 1000, 100, 10) {
        Admission::Refused { message } => {
            assert_eq!(message, "Err: AI is disabled in this channel")
        },
        _ => panic!("expected refusal"),
    }
    let off = ChConf { enable: false };
    match admit_request(Some(&off), 0, 1000, 100, 10) {
        Admission::Refused { .. } => {},
        _ => panic!("expected refusal"),
    }
}

#[test]
fn default_user_config_is_rate_limited() {
    let conf = PerUserConfig::default();
    assert_eq!(conf.rate_limit, 1);
    assert_eq!(conf.model.to_model_name(), "o4-mini");
}

#[test]
fn enable_command_wording_and_idempotence() {
    let mut store = ContextStore::new();
    let (msg, changed) = set_channel_enabled(&mut store, 3, true);
    assert_eq!(msg, "Info: AI is enabled");
    assert!(changed);
    let (msg, changed) = set_channel_enabled(&mut store, 3, true);
    assert_eq!(msg, "Info: AI is already enabled");
    assert!(!changed);
    let (msg, changed) = set_channel_enabled(&mut store, 3, false);
    assert_eq!(msg, "Info: AI is disabled");
    assert!(changed);
    assert!(!store.is_enabled(3));
}

#[test]
fn rate_adjust_commands() {
    assert_eq!(apply_rate_adjust(5000, 1000, 0, 30), 0);
    assert_eq!(apply_rate_adjust(5000, 1000, -1, 30), 1000);
    // A drained line is raised to now before the units are consumed.
    assert_eq!(apply_rate_adjust(500, 1000, 4, 30), 1120);
    // A line in the future accumulates on top.
    assert_eq!(apply_rate_adjust(5000, 1000, 4, 30), 5120);
}

#[test]
fn user_registry_creates_lazily_and_updates_in_place() {
    let mut users = UserContexts::new();
    let fresh = users.get_or_create(9);
    assert_eq!(fresh.main_model, Models::O4Mini);
    assert_eq!(fresh.rate_line, 0);
    users.set_model(9, Models::O3);
    users.set_rate_line(9, 4242);
    let updated = users.get_or_create(9);
    assert_eq!(updated.main_model, Models::O3);
    assert_eq!(updated.rate_line, 4242);
    // Another user is untouched.
    assert_eq!(users.get_or_create(10).rate_line, 0);
}

#[test]
fn channel_system_prompt_names_the_channel() {
    assert_eq!(
        system_prompt_for_channel("be helpful", 42, "general"),
        "be helpful\n current channel_id: 42, channel_name: general"
    );
}
