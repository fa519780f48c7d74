use observer::adapter::{
    translate_stream, NormalizedEvent, ProviderOutcome, StreamEvent, StreamOutputItem,
    TerminalStatus,
};
use observer::agent::{prepare_user_prompt, AIModel, InputMessage};
use observer::brain::err::ObsError;
use observer::brain::state::{apply_command, ChannelSettings, Command, Response};
use observer::client::{endpoint_is_valid, ClientError, Message};
use observer::config::{Config, Models};
use observer::events::{is_image_attachment, message_header};
use observer::items::{ConversationItem, MessageContext, Role};
use observer::registry::{builtin_registry, ToolExecOutcome};
use observer::singleshot::{
    run_single_shot, GFunctionCall, GFunctionResponse, GPart, GRole, PartsFeed, SingleShotRun,
};
use observer::strutil::{join_with, str_eq, u64_to_string};
use observer::tools::web_scraper::{compress_content, ScrapedData, ScrapedItem, ScraperError};
use observer::tools::ToolContext;

#[test]
fn stream_translation_normalizes_each_item_kind() {
    let events = vec![
        StreamEvent::Queued,
        StreamEvent::InProgress,
        StreamEvent::TextDelta("partial".to_string()),
        StreamEvent::OutputItemDone(StreamOutputItem::Reasoning {
            summary: "weighing options".to_string(),
        }),
        StreamEvent::OutputItemDone(StreamOutputItem::FunctionCall {
            call_id: "c1".to_string(),
            name: "get-location-time".to_string(),
            arguments: "{}".to_string(),
        }),
        StreamEvent::OutputItemDone(StreamOutputItem::MessageDone {
            text: "done".to_string(),
        }),
        StreamEvent::Completed,
        StreamEvent::TextDelta("ignored after terminal".to_string()),
    ];
    match translate_stream(&events) {
        ProviderOutcome::Completed { events } => {
            assert_eq!(events.len(), 4);
            match &events[0] {
                NormalizedEvent::StatusUpdate(s) => assert_eq!(s, "weighing options"),
                other => panic!("expected a status update, got {:?}", other),
            }
            match &events[1] {
                NormalizedEvent::ToolCallRequested { name, .. } => {
                    assert_eq!(name, "get-location-time")
                },
                other => panic!("expected a tool call, got {:?}", other),
            }
            match &events[2] {
                NormalizedEvent::TextDelta(t) => assert_eq!(t, "done"),
                other => panic!("expected text, got {:?}", other),
            }
            match &events[3] {
                NormalizedEvent::Terminal { status } => {
                    assert_eq!(*status, TerminalStatus::Success)
                },
                other => panic!("expected the terminal, got {:?}", other),
            }
        },
        other => panic!("expected completion, got {:?}", other),
    }
}

#[test]
fn stream_failure_aborts_with_that_reason() {
    let events = vec![
        StreamEvent::OutputItemDone(StreamOutputItem::MessageDone {
            text: "discarded".to_string(),
        }),
        StreamEvent::Failed("backend exploded".to_string()),
    ];
    match translate_stream(&events) {
        ProviderOutcome::Failed { message, .. } => assert_eq!(message, "backend exploded"),
        other => panic!("expected a failure, got {:?}", other),
    }
}

#[test]
fn stream_without_terminal_is_a_protocol_error() {
    let events = vec![StreamEvent::Queued];
    match translate_stream(&events) {
        ProviderOutcome::Failed { message, .. } => {
            assert_eq!(message, "stream ended without a terminal event")
        },
        other => panic!("expected a failure, got {:?}", other),
    }
}

fn text_message(role: Role, text: &str) -> ConversationItem {
    ConversationItem::Message {
        role,
        content: vec![MessageContext::Text(text.to_string())],
    }
}

#[test]
fn single_shot_converts_roles_and_loops_over_calls() {
    let items = vec![
        text_message(Role::System, "be brief"),
        text_message(Role::User, "hello"),
        text_message(Role::Assistant, "hi"),
        text_message(Role::Tool, "skipped"),
    ];
    let mut run = SingleShotRun::start(&items);
    assert_eq!(run.system_instruction().as_deref(), Some("be brief"));
    assert_eq!(run.request_contents().len(), 2);
    assert_eq!(run.request_contents()[0].role, Some(GRole::User));
    assert_eq!(run.request_contents()[1].role, Some(GRole::Model));
    assert!(run.can_continue());

    // First response: some text and one function call.
    let calls = run.absorb_response(&vec![
        GPart::text_part("Looking that up. ".to_string()),
        GPart::call_part(GFunctionCall {
            name: "get-location-time".to_string(),
            args_json: "{\"country_code\":\"JP\"}".to_string(),
        }),
    ]);
    assert_eq!(calls.len(), 1);
    assert!(run.can_continue());
    run.provide_tool_results(vec![GFunctionResponse {
        name: "get-location-time".to_string(),
        output: "noon".to_string(),
    }]);
    // Second response: the final text, no calls.
    let calls = run.absorb_response(&vec![GPart::text_part("It is noon.".to_string())]);
    assert!(calls.is_empty());
    assert!(!run.can_continue());
    assert_eq!(run.final_text(), "Looking that up. It is noon.");
}

#[test]
fn single_shot_gives_up_after_its_step_budget() {
    let items = vec![text_message(Role::User, "loop")];
    let mut run = SingleShotRun::start(&items);
    let mut steps = 0;
    while run.can_continue() {
        let calls = run.absorb_response(&vec![GPart::call_part(
            GFunctionCall {
                name: "text_length_tool".to_string(),
                args_json: "{\"text\":\"x\"}".to_string(),
            },
        )]);
        assert_eq!(calls.len(), 1);
        steps += 1;
        assert!(steps <= 10, "the single-shot loop must stop within 10 requests");
    }
    assert_eq!(steps, 10);
    assert_eq!(run.final_text(), "(no output)");
}

#[test]
fn single_shot_blank_output_is_reported() {
    let items = vec![text_message(Role::User, "hi")];
    let mut run = SingleShotRun::start(&items);
    let _ = run.absorb_response(&vec![GPart::text_part("  \n\t ".to_string())]);
    assert_eq!(run.final_text(), "(no output)");
}

#[test]
fn model_names_round_trip() {
    for m in [
        AIModel::MO4Mini,
        AIModel::MO4MiniDeepResearch,
        AIModel::MO3,
        AIModel::M4dot1Nano,
        AIModel::M4dot1Mini,
        AIModel::M4dot1,
        AIModel::Gemini2dot5Flash,
    ] {
        let name = m.to_model_name();
        assert_eq!(AIModel::from_model_name(&name).unwrap(), m);
        assert!(m.to_model_discription().starts_with(&name));
    }
    let err = AIModel::from_model_name("gpt-9").unwrap_err();
    assert_eq!(err, "Unknown model name: gpt-9");
    assert_eq!(AIModel::default(), AIModel::MO4Mini);
    assert_eq!(AIModel::MO4Mini.to_sec_per_rate(), 4);
}

#[test]
fn model_catalogue_lists_and_costs() {
    let list = Models::list();
    assert_eq!(list.len(), 6);
    assert_eq!(list[0], Models::Gpt5Mini);
    assert_eq!(Models::O3.rate_cost(), 6);
    assert_eq!(Models::Gpt5Mini.rate_cost(), 1);
    assert_eq!(Models::from_name("o3"), Models::O3);
    assert_eq!(Models::from_name("unknown"), Models::Gpt5Nano);
    assert_eq!(Models::Gpt5dot1CodexMini.model_name(), "gpt-5.1-codex-mini");
}

#[test]
fn config_carries_the_fixed_limits() {
    let c = Config::new("tok".to_string(), "key".to_string(), "prompt".to_string());
    assert_eq!(c.rale_limit_window_size, 16200);
    assert_eq!(c.rate_limit_sec_per_cost, 900);
    assert_eq!(c.web_server_port, 96);
    assert_eq!(c.admin_users, vec![855371530270408725]);
}

#[test]
fn prepare_user_prompt_masks_and_tags_images() {
    let message = InputMessage {
        content: "hi ||secret|| there <@12345>".to_string(),
        name: "alex".to_string(),
        message_id: "m9".to_string(),
        reply_msg: None,
        user_id: "u1".to_string(),
        attached_files: vec![],
    };
    let urls = vec!["https://example.test/a.png".to_string()];
    let items = prepare_user_prompt(&message, 1, &urls);
    assert_eq!(items.len(), 1);
    match &items[0] {
        ConversationItem::Message { role: Role::User, content } => {
            assert_eq!(content.len(), 2);
            match &content[0] {
                MessageContext::Text(t) => {
                    assert_eq!(
                        t,
                        "[META]msg_id:m9,user_name:alex,replay_msg:none;\nhi ||<spoiler_msg>|| there @user"
                    );
                },
                other => panic!("expected the metadata text, got {:?}", other),
            }
            match &content[1] {
                MessageContext::Image(img) => {
                    assert_eq!(img.url, "https://example.test/a.png");
                    assert_eq!(img.detail.as_deref(), Some("low"));
                },
                other => panic!("expected the image part, got {:?}", other),
            }
        },
        other => panic!("expected a user message, got {:?}", other),
    }
}

#[test]
fn hidetail_forces_high_detail() {
    let message = InputMessage {
        content: "look !hidetail closely".to_string(),
        name: "alex".to_string(),
        message_id: "m1".to_string(),
        reply_msg: Some("earlier".to_string()),
        user_id: "u1".to_string(),
        attached_files: vec![],
    };
    let urls = vec!["https://example.test/b.png".to_string()];
    let items = prepare_user_prompt(&message, 0, &urls);
    match &items[0] {
        ConversationItem::Message { content, .. } => {
            match &content[0] {
                MessageContext::Text(t) => {
                    assert!(t.contains("replay_msg:earlier;"));
                    assert!(!t.contains("!hidetail"));
                },
                other => panic!("expected text, got {:?}", other),
            }
            match &content[1] {
                MessageContext::Image(img) => assert_eq!(img.detail.as_deref(), Some("high")),
                other => panic!("expected the image part, got {:?}", other),
            }
        },
        other => panic!("expected a message, got {:?}", other),
    }
}

#[test]
fn image_attachments_are_recognised() {
    assert!(is_image_attachment(Some(&"image/png".to_string()), "whatever.bin"));
    assert!(!is_image_attachment(Some(&"text/plain".to_string()), "photo.png"));
    assert!(is_image_attachment(None, "photo.jpeg"));
    assert!(!is_image_attachment(None, "notes.txt"));
}

#[test]
fn message_header_names_author_and_reply() {
    let h = message_header("alex", "Alex", "77", None, "hello");
    assert_eq!(h, "user: alex, display_name: Alex, msg_id: 77, replay_to: None\nhello");
}

#[test]
fn commands_flip_their_switch_and_word_the_reply() {
    let mut settings = ChannelSettings::new();
    assert!(!settings.enable);
    match apply_command(&mut settings, "general", Command::Enable(true)) {
        Response::Text(t) => assert_eq!(t, "Channel general is now enabled"),
        other => panic!("expected text, got {:?}", other),
    }
    assert!(settings.enable);
    match apply_command(&mut settings, "general", Command::EntryLimit(123)) {
        Response::Text(t) => assert_eq!(t, "Entry limit of channel general is now set"),
        other => panic!("expected text, got {:?}", other),
    }
    assert_eq!(settings.entry_limit, 123);
    match apply_command(&mut settings, "general", Command::EntryLimit(1 << 20)) {
        Response::Text(t) => {
            assert_eq!(t, "Failed to set entry limit of channel general: the limit is too large")
        },
        other => panic!("expected text, got {:?}", other),
    }
    assert_eq!(settings.entry_limit, 123);
    match apply_command(&mut settings, "general", Command::Read(false)) {
        Response::Text(t) => assert_eq!(t, "Read of channel general is now disabled"),
        other => panic!("expected text, got {:?}", other),
    }
    assert!(!settings.read);
}

#[test]
fn only_http_endpoints_are_accepted() {
    assert!(endpoint_is_valid("https://api.example.test/v1"));
    assert!(endpoint_is_valid("http://localhost:8080"));
    assert!(!endpoint_is_valid("ftp://api.example.test"));
    assert!(!endpoint_is_valid("api.example.test"));
}

#[test]
fn error_taxonomies_render_their_messages() {
    assert_eq!(ObsError::DisabledChannel.to_message(), "Channel is disabled");
    assert_eq!(ObsError::NotFound("x".to_string()).to_message(), "NotFound: x");
    assert_eq!(ClientError::ToolNotFound.to_message(), "Tool not found");
    assert_eq!(ClientError::NetworkError.to_message(), "Network error");
    assert_eq!(ScraperError::TimeoutError.to_message(), "Request timed out.");
}

#[test]
fn scraped_content_windows_report_the_remainder() {
    let data = ScrapedData {
        items: vec![
            ScrapedItem { text: "Title".to_string(), link: None },
            ScrapedItem {
                text: "more".to_string(),
                link: Some("https://example.test".to_string()),
            },
        ],
    };
    // Flattened: "Title more (https://example.test)" — 33 characters.
    let all = compress_content(&data, 0, 100);
    assert_eq!(all, "Title more (https://example.test)...<0 characters remaining>");
    let window = compress_content(&data, 6, 4);
    assert_eq!(window, "more...<23 characters remaining>");
    let past_end = compress_content(&data, 99, 5);
    assert_eq!(past_end, "...<0 characters remaining>");
}

#[test]
fn string_helpers_behave() {
    assert_eq!(u64_to_string(0), "0");
    assert_eq!(u64_to_string(905), "905");
    assert_eq!(u64_to_string(18446744073709551615), "18446744073709551615");
    let parts = vec!["a".to_string(), "b".to_string(), "c".to_string()];
    assert_eq!(join_with(&parts, ", "), "a, b, c");
    assert_eq!(join_with(&vec![], ", "), "");
    assert!(str_eq("same", "same"));
    assert!(!str_eq("same", "other"));
}

#[test]
fn client_messages_clone_structurally() {
    let m = Message::Function {
        name: "get-location-time".to_string(),
        content: vec![MessageContext::Text("noon".to_string())],
    };
    match m.clone() {
        Message::Function { name, content } => {
            assert_eq!(name, "get-location-time");
            assert_eq!(content.len(), 1);
        },
        other => panic!("expected the function message, got {:?}", other),
    }
}

#[test]
fn single_shot_driver_executes_tools_between_requests() {
    let items = vec![text_message(Role::User, "length of 'hello'?")];
    let mut feed = PartsFeed::new(vec![
        vec![GPart::call_part(GFunctionCall {
            name: "text_length_tool".to_string(),
            args_json: "{\"text\":\"hello\"}".to_string(),
        })],
        vec![GPart::text_part("five characters".to_string())],
    ]);
    let mut registry = builtin_registry();
    let tctx = ToolContext { now_unix: 1_700_000_000 };
    let answer = run_single_shot(&items, &mut feed, &mut registry, &tctx);
    assert_eq!(answer.unwrap(), "five characters");
}

#[test]
fn single_shot_driver_aborts_on_unknown_tools() {
    let items = vec![text_message(Role::User, "hi")];
    let mut feed = PartsFeed::new(vec![
        vec![GPart::call_part(GFunctionCall {
            name: "missing-tool".to_string(),
            args_json: "{}".to_string(),
        })],
        vec![GPart::text_part("never requested".to_string())],
    ]);
    let mut registry = builtin_registry();
    let tctx = ToolContext { now_unix: 0 };
    let err = run_single_shot(&items, &mut feed, &mut registry, &tctx).unwrap_err();
    assert_eq!(err, "Tool not found: missing-tool");
}

#[test]
fn single_shot_driver_steps_the_memory() {
    let items = vec![text_message(Role::User, "remember my pet")];
    let mut feed = PartsFeed::new(vec![
        vec![GPart::call_part(GFunctionCall {
            name: "memory_tool".to_string(),
            args_json: "{\"action\":\"add\",\"key\":\"pet\",\"value\":\"cat\"}".to_string(),
        })],
        vec![GPart::text_part("noted".to_string())],
    ]);
    let mut registry = builtin_registry();
    let tctx = ToolContext { now_unix: 0 };
    let answer = run_single_shot(&items, &mut feed, &mut registry, &tctx).unwrap();
    assert_eq!(answer, "noted");
    // The tool really ran: the pair is stored.
    match registry.execute("memory_tool", "{\"action\":\"get\",\"key\":\"pet\"}", &tctx) {
        ToolExecOutcome::Ran(Ok(out)) => assert_eq!(out, "pet: cat"),
        other => panic!("expected the stored pair, got {:?}", other),
    }
}

#[test]
fn single_shot_driver_feeds_tool_errors_back() {
    // A tool that ran and failed is answered with its error text, and the
    // run continues to the next request.
    let items = vec![text_message(Role::User, "time in XX?")];
    let mut feed = PartsFeed::new(vec![
        vec![GPart::call_part(GFunctionCall {
            name: "get-location-time".to_string(),
            args_json: "{\"country_code\":\"XX\"}".to_string(),
        })],
        vec![GPart::text_part("that code is unknown".to_string())],
    ]);
    let mut registry = builtin_registry();
    let tctx = ToolContext { now_unix: 0 };
    let answer = run_single_shot(&items, &mut feed, &mut registry, &tctx).unwrap();
    assert_eq!(answer, "that code is unknown");
}
