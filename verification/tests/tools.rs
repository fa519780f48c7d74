use observer::brain::tools::memory::MemoryTool;
use observer::registry::{builtin_registry, ToolExecOutcome};
use observer::tools::get_time::GetTime;
use observer::tools::memory::MemoryTool as PersistentMemoryTool;
use observer::tools::parse_tool_args;
use observer::tools::text_len::TextLengthTool;
use observer::tools::ToolContext;

fn ctx() -> ToolContext {
    ToolContext { now_unix: 1_700_000_000 }
}

fn ran_ok(outcome: ToolExecOutcome) -> String {
    match outcome {
        ToolExecOutcome::Ran(Ok(text)) => text,
        other => panic!("expected a successful run, got {:?}", other),
    }
}

fn ran_err(outcome: ToolExecOutcome) -> String {
    match outcome {
        ToolExecOutcome::Ran(Err(text)) => text,
        other => panic!("expected a failed run, got {:?}", other),
    }
}

#[test]
fn registry_advertises_the_builtin_tools() {
    let registry = builtin_registry();
    let names: Vec<String> = registry
        .descriptors()
        .iter()
        .map(|e| e.descriptor.name.clone())
        .collect();
    assert_eq!(names, vec!["get-location-time", "text_length_tool", "memory_tool"]);
}

#[test]
fn unknown_tool_name_is_not_found() {
    let mut registry = builtin_registry();
    match registry.execute("no-such-tool", "{}", &ctx()) {
        ToolExecOutcome::NotFound => {},
        other => panic!("expected NotFound, got {:?}", other),
    }
}

#[test]
fn malformed_arguments_are_a_tool_level_error() {
    let mut registry = builtin_registry();
    let err = ran_err(registry.execute("text_length_tool", "not json", &ctx()));
    assert!(!err.is_empty());
}

#[test]
fn non_object_arguments_are_rejected() {
    assert!(parse_tool_args("[1,2,3]").is_err());
    assert!(parse_tool_args("42").is_err());
}

#[test]
fn parse_renders_non_string_values_to_json_text() {
    let args = parse_tool_args("{\"a\":\"x\",\"b\":7,\"c\":true}").unwrap();
    assert_eq!(args.get("a").unwrap(), "x");
    assert_eq!(args.get("b").unwrap(), "7");
    assert_eq!(args.get("c").unwrap(), "true");
    assert!(args.get("d").is_none());
}

#[test]
fn text_length_counts_bytes() {
    let mut registry = builtin_registry();
    let out = ran_ok(registry.execute("text_length_tool", "{\"text\":\"hello\"}", &ctx()));
    assert_eq!(out, "{\"length\":5}");
    let err = ran_err(registry.execute("text_length_tool", "{}", &ctx()));
    assert_eq!(err, "Missing 'text' parameter");
}

#[test]
fn text_length_tool_direct_run() {
    let tool = TextLengthTool::new();
    let args = parse_tool_args("{\"text\":\"\"}").unwrap();
    assert_eq!(tool.run(&args).unwrap(), "{\"length\":0}");
    // The length is in bytes of the UTF-8 encoding.
    let args = parse_tool_args("{\"text\":\"na\u{00ef}ve\"}").unwrap();
    assert_eq!(tool.run(&args).unwrap(), "{\"length\":6}");
}

#[test]
fn get_time_reports_the_zone_and_rejects_unknown_codes() {
    let tool = GetTime::new();
    let out = tool.get_time_by_country("JP", 1_700_000_000).unwrap();
    assert!(out.starts_with("The current time in JP (Asia/Tokyo) is: "));
    // 2023-11-14 22:13:20 UTC is 2023-11-15 07:13:20 in Tokyo.
    assert!(out.contains("2023-11-15 07:13:20"));
    let err = tool.get_time_by_country("XX", 1_700_000_000).unwrap_err();
    assert_eq!(err, "Unsupported country code: XX");
}

#[test]
fn get_time_through_the_registry() {
    let mut registry = builtin_registry();
    let out = ran_ok(registry.execute(
        "get-location-time",
        "{\"country_code\":\"GB\"}",
        &ctx(),
    ));
    assert!(out.contains("Europe/London"));
    let err = ran_err(registry.execute("get-location-time", "{}", &ctx()));
    assert_eq!(err, "Missing or invalid 'country_code' parameter");
}

#[test]
fn memory_tool_add_get_keys_clear() {
    let mut mem = MemoryTool::new();
    mem.add_memory("color", "blue").unwrap();
    mem.add_memory("shape", "round").unwrap();
    mem.add_memory("color", "green").unwrap();
    assert_eq!(mem.get_keys(), vec!["color", "shape"]);
    let got = mem.get_memory(Some("color"));
    assert_eq!(got, vec![("color".to_string(), "green".to_string())]);
    assert!(mem.get_memory(Some("absent")).is_empty());
    let all = mem.get_memory(None);
    assert_eq!(all.len(), 2);
    mem.clear_memory();
    assert!(mem.get_keys().is_empty());
}

#[test]
fn memory_tool_refuses_the_hundred_and_first_key() {
    let mut mem = MemoryTool::new();
    for i in 0..100 {
        mem.add_memory(&format!("k{}", i), "v").unwrap();
    }
    let err = mem.add_memory("one-too-many", "v").unwrap_err();
    assert_eq!(err, "Cannot add new key. Maximum 100 keys reached.");
    // Updating an existing key still works at the cap.
    mem.add_memory("k0", "w").unwrap();
    assert_eq!(mem.get_memory(Some("k0")), vec![("k0".to_string(), "w".to_string())]);
}

#[test]
fn memory_tool_actions_through_the_registry() {
    let mut registry = builtin_registry();
    let out = ran_ok(registry.execute(
        "memory_tool",
        "{\"action\":\"add\",\"key\":\"pet\",\"value\":\"cat\"}",
        &ctx(),
    ));
    assert_eq!(out, "Memory added/updated.");
    let out = ran_ok(registry.execute(
        "memory_tool",
        "{\"action\":\"get\",\"key\":\"pet\"}",
        &ctx(),
    ));
    assert_eq!(out, "pet: cat");
    let out = ran_ok(registry.execute("memory_tool", "{\"action\":\"get_keys\"}", &ctx()));
    assert_eq!(out, "pet");
    let out = ran_ok(registry.execute("memory_tool", "{\"action\":\"clear\"}", &ctx()));
    assert_eq!(out, "Memory cleared.");
    let out = ran_ok(registry.execute("memory_tool", "{\"action\":\"get\"}", &ctx()));
    assert_eq!(out, "(no entries)");
    let err = ran_err(registry.execute("memory_tool", "{\"action\":\"wipe\"}", &ctx()));
    assert_eq!(err, "Invalid action specified. Use 'add', 'get', 'get_keys', or 'clear'.");
    let err = ran_err(registry.execute("memory_tool", "{\"action\":\"add\"}", &ctx()));
    assert_eq!(err, "Missing or invalid 'key' parameter for add action");
}

#[test]
fn persistent_memory_push_appends_lines() {
    let mut mem = PersistentMemoryTool::new();
    mem.push_memory("diary", "day one").unwrap();
    mem.push_memory("diary", "day two").unwrap();
    assert_eq!(
        mem.get_memory(Some("diary")),
        vec![("diary".to_string(), "day one\nday two".to_string())]
    );
    mem.add_memory("diary", "rewritten").unwrap();
    assert_eq!(
        mem.get_memory(Some("diary")),
        vec![("diary".to_string(), "rewritten".to_string())]
    );
    mem.clear_memory(Some("diary"));
    assert!(mem.get_keys().is_empty());
}

#[test]
fn persistent_memory_file_path() {
    assert_eq!(PersistentMemoryTool::get_file_path("notes"), "memory/notes.md");
}
