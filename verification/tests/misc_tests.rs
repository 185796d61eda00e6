use nixie::git_reader::{branch_from_head, count_non_empty_lines, git_info_from};
use nixie::hook_state::HookState;
use nixie::pet_core::PetMood;
use nixie::pet_loop::{escape_for_double_quotes, escape_for_single_quotes, walk_phase_js, PetLoop};
use nixie::pet_overlay::WalkPhase;
use nixie::process_monitor::is_cursor_process_name;
use nixie::text::{contains, starts_with, strip_prefix, take_chars, trim};
use nixie::window_prefs::{clamp_target, MonitorRect};

#[test]
fn branch_names() {
    assert_eq!(branch_from_head("ref: refs/heads/main\n"), "main");
    assert_eq!(branch_from_head("ref: refs/heads/feature/pig"), "feature/pig");
    assert_eq!(branch_from_head("0123456789abcdef0123\n"), "01234567");
    assert_eq!(branch_from_head("abc"), "abc");
}

#[test]
fn dirty_lines() {
    assert_eq!(count_non_empty_lines(" M a.rs\n M b.rs\n"), 2);
    assert_eq!(count_non_empty_lines(" M a.rs\n\n M b.rs"), 2);
    assert_eq!(count_non_empty_lines("a\r\n\r\nb\r\n"), 2);
    assert_eq!(count_non_empty_lines(""), 0);
    assert_eq!(count_non_empty_lines("\n\n"), 0);
}

#[test]
fn git_info() {
    let g = git_info_from(Some("ref: refs/heads/dev\n"), Some(" M x\n"));
    assert_eq!(g.branch.as_deref(), Some("dev"));
    assert_eq!(g.dirty_count, 1);
    let g = git_info_from(None, None);
    assert_eq!(g.branch, None);
    assert_eq!(g.dirty_count, 0);
}

#[test]
fn cursor_processes() {
    assert!(is_cursor_process_name("Cursor"));
    assert!(is_cursor_process_name("Cursor Helper (Renderer)"));
    assert!(!is_cursor_process_name("cursor"));
    assert!(!is_cursor_process_name("Code"));
}

#[test]
fn text_helpers() {
    assert_eq!(trim("  a b \n"), "a b");
    assert_eq!(trim("\u{a0}x\u{2003}"), "x");
    assert_eq!(trim("   "), "");
    assert_eq!(take_chars("小猪飞飞", 2), "小猪");
    assert_eq!(take_chars("ab", 5), "ab");
    assert!(starts_with("MCP:web", "MCP:"));
    assert!(!starts_with("MC", "MCP:"));
    assert_eq!(strip_prefix("MCP:web", "MCP:"), Some("web"));
    assert_eq!(strip_prefix("web", "MCP:"), None);
    assert!(contains("webfetch", "fetch"));
    assert!(contains("abc", ""));
    assert!(!contains("ab", "abc"));
}

fn mon(x: i32, y: i32, w: u32, h: u32) -> MonitorRect {
    MonitorRect { x, y, width: w, height: h }
}

#[test]
fn window_clamping() {
    let monitors = vec![mon(0, 0, 1920, 1080), mon(1920, 0, 1280, 1024)];
    assert_eq!(clamp_target(100, 100, 400, 300, &monitors, Some(monitors[0])), None);
    assert_eq!(clamp_target(2000, 100, 400, 300, &monitors, Some(monitors[0])), None);
    assert_eq!(clamp_target(5000, 100, 400, 300, &monitors, Some(monitors[1])), Some((1960, 40)));
    assert_eq!(clamp_target(-900, -900, 400, 300, &monitors, None), Some((40, 40)));
    assert_eq!(clamp_target(5000, 100, 0, 300, &monitors, None), None);
    assert_eq!(clamp_target(5000, 100, 400, 300, &vec![], None), None);
}

#[test]
fn frame_loop_decisions() {
    let mut l = PetLoop::new(77);
    assert!(l.probe_due());
    assert!(l.publish_due(PetMood::Sleeping));
    l.mood_published(PetMood::Idle);
    l.advance();
    assert!(!l.probe_due());
    assert!(!l.publish_due(PetMood::Idle));
    assert!(l.publish_due(PetMood::Error));
    for _ in 1..60 {
        l.advance();
    }
    assert_eq!(l.tick, 60);
    assert!(l.probe_due());
    assert!(l.publish_due(PetMood::Idle));
    l.tick = u64::MAX;
    l.advance();
    assert_eq!(l.tick, 0);

    let h = HookState { ts: 77, session_active: true, activity: "agent_running".to_string(), ..Default::default() };
    let m = l.mask_boot_snapshot(h.clone());
    assert_eq!(m.ts, 0);
    assert!(!m.session_active);
    assert_eq!(m.activity, "agent_running");
    let h2 = HookState { ts: 78, ..h };
    assert_eq!(l.mask_boot_snapshot(h2).ts, 78);
    let l0 = PetLoop::new(0);
    assert_eq!(l0.mask_boot_snapshot(HookState::default()).ts, 0);
}

#[test]
fn walk_phase_names() {
    assert_eq!(walk_phase_js(WalkPhase::Off), "off");
    assert_eq!(walk_phase_js(WalkPhase::Idle), "idle");
    assert_eq!(walk_phase_js(WalkPhase::HoverIntent), "hover_intent");
    assert_eq!(walk_phase_js(WalkPhase::Following), "following");
}

#[test]
fn script_quoting() {
    assert_eq!(escape_for_double_quotes(r#"say "hi" \ ok"#), r#"say \"hi\" \\ ok"#);
    assert_eq!(escape_for_double_quotes("小猪"), "小猪");
    assert_eq!(escape_for_single_quotes("it's"), r"it\'s");
    let q = "a\\\"b";
    assert_eq!(escape_for_double_quotes(q), q.replace('\\', "\\\\").replace('"', "\\\""));
}
