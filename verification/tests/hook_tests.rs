use nixie::hook_event::{
    apply_event, map_event, mcp_tool_activity, needs_permission_response, reply_for,
    without_tool, HookInput, HookReply, NixieState,
};
use nixie::hook_state::InFlightTool;
use nixie::hook_state::HookState;
use nixie::pet_core::{PetBrain, PetMood};

fn input(name: &str) -> HookInput {
    HookInput {
        hook_event_name: name.to_string(),
        tool_name: None,
        status: None,
        duration: None,
        tool_use_id: None,
    }
}

fn with_id(e: HookInput, id: &str) -> HookInput {
    HookInput { tool_use_id: Some(id.to_string()), ..e }
}

fn tool(name: &str) -> HookInput {
    HookInput { tool_name: Some(name.to_string()), ..input("preToolUse") }
}

fn stop(status: &str) -> HookInput {
    HookInput { status: Some(status.to_string()), ..input("stop") }
}

#[test]
fn events_map_to_activities() {
    let cases = [
        ("sessionStart", "idle", true),
        ("sessionEnd", "idle", false),
        ("afterAgentThought", "agent_thinking", true),
        ("afterFileEdit", "idle", true),
        ("afterShellExecution", "idle", true),
        ("postToolUseFailure", "agent_error", true),
        ("subagentStart", "agent_thinking", true),
        ("subagentStop", "idle", true),
        ("beforeSubmitPrompt", "agent_thinking", true),
        ("afterAgentResponse", "agent_thinking", true),
        ("afterMCPExecution", "idle", true),
        ("preCompact", "agent_thinking", true),
        ("beforeReadFile", "agent_searching", true),
        ("somethingNew", "idle", true),
        ("stop", "idle", false),
    ];
    for (name, activity, session) in cases {
        assert_eq!(map_event(&input(name)), (activity, session), "{}", name);
    }
    assert_eq!(map_event(&stop("completed")), ("agent_success", false));
    assert_eq!(map_event(&stop("error")), ("agent_error", false));
    assert_eq!(map_event(&stop("aborted")), ("idle", false));
}

#[test]
fn tools_map_to_activities() {
    let cases = [
        ("Read", "agent_searching"),
        ("Grep", "agent_searching"),
        ("Glob", "agent_searching"),
        ("SemanticSearch", "agent_searching"),
        ("Shell", "agent_running"),
        ("Write", "agent_writing"),
        ("StrReplace", "agent_writing"),
        ("Delete", "agent_writing"),
        ("EditNotebook", "agent_writing"),
        ("Task", "agent_thinking"),
        ("MCP:WebSearch", "agent_web_search"),
        ("MCP:FETCH_URL", "agent_web_search"),
        ("MCP:firecrawl_scrape", "agent_web_search"),
        ("MCP:github", "agent_running"),
        ("mcp:web", "agent_thinking"),
        ("Unknown", "agent_thinking"),
    ];
    for (t, activity) in cases {
        assert_eq!(map_event(&tool(t)), (activity, true), "{}", t);
    }
    assert_eq!(map_event(&input("preToolUse")), ("agent_thinking", true));
}

#[test]
fn tool_success_keeps_activity() {
    let prev = NixieState { ts: 1, activity: "agent_writing".to_string(), session_active: true, ..Default::default() };
    let e = HookInput { duration: Some(250), ..input("postToolUse") };
    let s = apply_event(prev, &e, 100);
    assert_eq!(s.activity, "agent_writing");
    assert!(s.session_active);
    assert_eq!(s.ts, 100);
    assert_eq!(s.tool_success_ts, Some(100));
    assert_eq!(s.last_event_duration_ms, Some(250));
}

#[test]
fn file_edit_keeps_activity_and_time() {
    let prev = NixieState { ts: 1, activity: "agent_running".to_string(), session_active: true, ..Default::default() };
    let s = apply_event(prev, &input("afterFileEdit"), 100);
    assert_eq!(s.activity, "agent_running");
    assert_eq!(s.ts, 1);
    assert_eq!(s.file_edit_success_ts, Some(100));
}

#[test]
fn default_events_record_activity_and_clear_markers() {
    let prev = NixieState {
        ts: 1,
        activity: "idle".to_string(),
        tool_success_ts: Some(1),
        file_edit_success_ts: Some(1),
        last_event_duration_ms: Some(9),
        task_started_at_ms: Some(1),
        ..Default::default()
    };
    let s = apply_event(prev.clone(), &tool("Shell"), 100);
    assert_eq!(s.activity, "agent_running");
    assert!(s.session_active);
    assert_eq!(s.ts, 100);
    assert_eq!(s.tool_success_ts, None);
    assert_eq!(s.file_edit_success_ts, None);
    assert_eq!(s.last_event_duration_ms, None);
    assert_eq!(s.task_started_at_ms, Some(1));
    let s = apply_event(prev, &input("beforeSubmitPrompt"), 200);
    assert_eq!(s.task_started_at_ms, Some(200));
    assert_eq!(s.activity, "agent_thinking");
}

#[test]
fn replies() {
    assert!(needs_permission_response("preToolUse"));
    assert!(needs_permission_response("beforeShellExecution"));
    assert!(needs_permission_response("beforeMCPExecution"));
    assert!(!needs_permission_response("stop"));
    assert_eq!(reply_for("preToolUse"), HookReply::Allow);
    assert_eq!(reply_for("beforeSubmitPrompt"), HookReply::Continue);
    assert_eq!(reply_for("stop"), HookReply::Silent);
}

#[test]
fn completed_stop_makes_the_pet_celebrate() {
    let t = 1_700_000_000_000;
    let s = apply_event(NixieState::default(), &stop("completed"), t);
    let h = HookState { ts: s.ts, activity: s.activity.clone(), session_active: s.session_active, ..Default::default() };
    let mut b = PetBrain::new();
    b.tick_at(&h, 0, t + 150);
    assert_eq!(b.mood, PetMood::Success);
}

#[test]
fn mcp_activity_from_lowercased_name() {
    assert_eq!(mcp_tool_activity("websearch"), "agent_web_search");
    assert_eq!(mcp_tool_activity("fetch_url"), "agent_web_search");
    assert_eq!(mcp_tool_activity("firecrawl_scrape"), "agent_web_search");
    assert_eq!(mcp_tool_activity("github"), "agent_running");
    // The name is taken as already lowercased.
    assert_eq!(mcp_tool_activity("WEB"), "agent_running");
}

fn ids(s: &NixieState) -> Vec<(String, String)> {
    s.in_flight_tools.iter().map(|t| (t.tool_use_id.clone(), t.cluster.clone())).collect()
}

#[test]
fn tools_in_flight_pair_by_id() {
    let s = apply_event(NixieState::default(), &with_id(tool("Shell"), "a"), 100);
    let s = apply_event(s, &with_id(tool("Write"), "b"), 110);
    assert_eq!(
        ids(&s),
        vec![
            ("a".to_string(), "agent_running".to_string()),
            ("b".to_string(), "agent_writing".to_string())
        ]
    );
    assert_eq!(s.in_flight_tools[1].started_at_ms, 110);
    let s = apply_event(s, &with_id(input("postToolUse"), "a"), 120);
    assert_eq!(ids(&s), vec![("b".to_string(), "agent_writing".to_string())]);
    assert_eq!(s.activity, "agent_writing");
    // A finish without an id, or with an unknown one, finishes nothing.
    let s = apply_event(s, &input("postToolUse"), 125);
    let s = apply_event(s, &with_id(input("postToolUse"), "zz"), 126);
    assert_eq!(s.in_flight_tools.len(), 1);
    let s = apply_event(s, &with_id(input("postToolUseFailure"), "b"), 130);
    assert!(s.in_flight_tools.is_empty());
    assert_eq!(s.activity, "agent_error");
}

#[test]
fn tool_without_id_is_tracked_under_an_empty_id() {
    let s = apply_event(NixieState::default(), &tool("Read"), 100);
    assert_eq!(ids(&s), vec![(String::new(), "agent_searching".to_string())]);
}

#[test]
fn subagent_depth_follows_start_and_stop() {
    let s = apply_event(NixieState::default(), &input("subagentStart"), 1);
    let s = apply_event(s, &input("subagentStart"), 2);
    assert_eq!(s.subagent_depth, 2);
    let s = apply_event(s, &input("subagentStop"), 3);
    assert_eq!(s.subagent_depth, 1);
    let s = apply_event(s, &input("subagentStop"), 4);
    let s = apply_event(s, &input("subagentStop"), 5);
    assert_eq!(s.subagent_depth, 0);
    let top = NixieState { subagent_depth: u32::MAX, ..Default::default() };
    assert_eq!(apply_event(top, &input("subagentStart"), 6).subagent_depth, u32::MAX);
}

#[test]
fn session_end_and_stop_clear_work() {
    for end in [input("sessionEnd"), stop("completed")] {
        let s = apply_event(NixieState::default(), &with_id(tool("Shell"), "a"), 1);
        let s = apply_event(s, &input("subagentStart"), 2);
        let s = apply_event(s, &end, 3);
        assert!(s.in_flight_tools.is_empty());
        assert_eq!(s.subagent_depth, 0);
    }
}

#[test]
fn without_tool_keeps_the_others_in_order() {
    let t = |id: &str| InFlightTool { tool_use_id: id.to_string(), cluster: "c".to_string(), started_at_ms: 1 };
    let kept = without_tool(&vec![t("a"), t("b"), t("a"), t("c")], "a");
    let kept: Vec<String> = kept.into_iter().map(|x| x.tool_use_id).collect();
    assert_eq!(kept, vec!["b".to_string(), "c".to_string()]);
}
