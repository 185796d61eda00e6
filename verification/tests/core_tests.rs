use nixie::hook_state::{takes_precedence, HookState, InFlightTool};
use nixie::pet_core::{classify_activity, in_flight_rank, mood_css_class, Activity, PetBrain, PetMood};

const EPOCH: u64 = 1_700_000_000_000;

fn hook(activity: &str, ts: u64, session_active: bool) -> HookState {
    HookState {
        ts,
        activity: activity.to_string(),
        session_active,
        ..Default::default()
    }
}

fn all_moods() -> Vec<PetMood> {
    vec![
        PetMood::Idle,
        PetMood::AgentThinking,
        PetMood::AgentWriting,
        PetMood::AgentRunning,
        PetMood::AgentSearching,
        PetMood::AgentWebSearch,
        PetMood::Error,
        PetMood::Success,
        PetMood::Sleeping,
    ]
}

#[test]
fn labels_and_classes() {
    assert_eq!(PetMood::AgentThinking.label(), "thinking...");
    assert_eq!(PetMood::AgentWebSearch.label(), "web search");
    assert_eq!(PetMood::Sleeping.label(), "zzZ");
    assert_eq!(mood_css_class(PetMood::AgentWebSearch), "web-search");
    assert_eq!(mood_css_class(PetMood::Success), "success");
    let moods = all_moods();
    for (i, a) in moods.iter().enumerate() {
        for (j, b) in moods.iter().enumerate() {
            assert_eq!(i == j, mood_css_class(*a) == mood_css_class(*b));
        }
    }
}

#[test]
fn busy_moods_are_the_agent_moods() {
    let busy: Vec<PetMood> = all_moods().into_iter().filter(|m| m.is_ai_busy()).collect();
    assert_eq!(
        busy,
        vec![
            PetMood::AgentThinking,
            PetMood::AgentWriting,
            PetMood::AgentRunning,
            PetMood::AgentSearching,
            PetMood::AgentWebSearch
        ]
    );
}

#[test]
fn activities_are_classified() {
    assert_eq!(classify_activity("idle"), Activity::Idle);
    assert_eq!(classify_activity("agent_success"), Activity::Success);
    assert_eq!(classify_activity("agent_web_search"), Activity::WebSearch);
    assert_eq!(classify_activity("agent_dancing"), Activity::Other);
    assert_eq!(classify_activity(""), Activity::Other);
}

#[test]
fn hook_age_and_freshness() {
    let h = hook("idle", 1_000, false);
    assert_eq!(h.age_ms_at(5_000), 4_000);
    assert_eq!(h.age_ms_at(500), 0);
    assert!(h.is_fresh_at(10_999));
    assert!(!h.is_fresh_at(11_000));
    assert!(!hook("idle", 0, false).is_fresh_at(0));
    // By the system clock a snapshot written at epoch ms 1 is decades old.
    assert!(hook("idle", 1, false).age_ms() > EPOCH);
    assert!(!hook("idle", 1, false).is_fresh());
}

#[test]
fn newer_pushed_snapshot_wins() {
    let mut newer = hook("idle", 1, false);
    newer.seq = 5;
    let mut older = hook("idle", 1, false);
    older.seq = 4;
    assert!(takes_precedence(&None, &older));
    assert!(takes_precedence(&Some(older.clone()), &newer));
    assert!(!takes_precedence(&Some(newer.clone()), &older));
    assert!(!takes_precedence(&Some(newer.clone()), &newer));
}

#[test]
fn success_shows_and_holds_three_seconds() {
    let mut b = PetBrain::new();
    assert_eq!(b.mood, PetMood::Idle);
    b.tick_at(&hook("agent_success", EPOCH, false), 10_000, EPOCH + 100);
    assert_eq!(b.mood, PetMood::Success);
    assert_eq!(b.prev_mood, PetMood::Idle);
    assert!(b.has_hooks);
    // The window stays open for 3 s even once the snapshot turns idle.
    b.tick_at(&hook("idle", EPOCH + 500, false), 12_999, EPOCH + 600);
    assert_eq!(b.mood, PetMood::Success);
    b.tick_at(&hook("idle", EPOCH + 500, false), 13_000, EPOCH + 700);
    assert_eq!(b.mood, PetMood::Idle);
}

#[test]
fn error_shows_at_once_and_ends_success() {
    let mut b = PetBrain::new();
    b.tick_at(&hook("agent_success", EPOCH, false), 0, EPOCH);
    assert_eq!(b.mood, PetMood::Success);
    b.tick_at(&hook("agent_error", EPOCH + 1, false), 100, EPOCH + 1);
    assert_eq!(b.mood, PetMood::Error);
    b.tick_at(&hook("idle", EPOCH + 2, false), 200, EPOCH + 2);
    assert_eq!(b.mood, PetMood::Idle);
}

#[test]
fn stale_snapshot_counts_as_idle() {
    let mut b = PetBrain::new();
    b.tick_at(&hook("agent_running", EPOCH, true), 0, EPOCH + 10_000);
    assert_eq!(b.mood, PetMood::Idle);
    assert!(!b.has_hooks);
}

#[test]
fn sleeps_after_five_idle_minutes() {
    let mut b = PetBrain::new();
    b.tick_at(&HookState::default(), 300_999, EPOCH);
    assert_eq!(b.mood, PetMood::Idle);
    b.tick_at(&HookState::default(), 301_000, EPOCH);
    assert_eq!(b.mood, PetMood::Sleeping);
}

#[test]
fn busy_mood_needs_two_idle_ticks() {
    let mut b = PetBrain::new();
    b.tick_at(&hook("agent_running", EPOCH, true), 0, EPOCH);
    assert_eq!(b.mood, PetMood::AgentRunning);
    let idle = hook("idle", EPOCH, false);
    b.tick_at(&idle, 150, EPOCH + 150);
    assert_eq!(b.mood, PetMood::AgentRunning);
    b.tick_at(&idle, 300, EPOCH + 300);
    assert_eq!(b.mood, PetMood::Idle);
}

#[test]
fn busy_switch_is_immediate() {
    let mut b = PetBrain::new();
    b.tick_at(&hook("agent_searching", EPOCH, true), 0, EPOCH);
    assert_eq!(b.mood(), PetMood::AgentSearching);
    b.tick_at(&hook("agent_writing", EPOCH + 1, true), 150, EPOCH + 10);
    assert_eq!(b.mood(), PetMood::AgentWriting);
    assert_eq!(b.prev_mood(), PetMood::AgentSearching);
    b.tick_at(&hook("agent_running", EPOCH + 2, true), 300, EPOCH + 20);
    assert_eq!(b.mood(), PetMood::AgentRunning);
}

#[test]
fn success_window_opens_once_per_write() {
    let mut b = PetBrain::new();
    let h = hook("agent_success", EPOCH, false);
    let mut t: u64 = 0;
    while t < 3_000 {
        b.tick_at(&h, t, EPOCH + t);
        assert_eq!(b.mood(), PetMood::Success, "at {} ms", t);
        t += 150;
    }
    while t < 9_000 {
        b.tick_at(&h, t, EPOCH + t);
        assert_eq!(b.mood(), PetMood::Idle, "at {} ms", t);
        t += 150;
    }
    // A new write opens a new window.
    b.tick_at(&hook("agent_success", EPOCH + 9_000, false), 9_000, EPOCH + 9_000);
    assert_eq!(b.mood(), PetMood::Success);
}

fn tool(id: &str, cluster: &str) -> InFlightTool {
    InFlightTool { tool_use_id: id.to_string(), cluster: cluster.to_string(), started_at_ms: EPOCH }
}

#[test]
fn busiest_tool_in_flight_sets_the_mood() {
    let mut b = PetBrain::new();
    let mut h = hook("agent_searching", EPOCH, true);
    h.in_flight_tools = vec![
        tool("a", "agent_searching"),
        tool("b", "agent_running"),
        tool("c", "agent_writing"),
    ];
    b.tick_at(&h, 0, EPOCH);
    assert_eq!(b.mood(), PetMood::AgentRunning);
    h.in_flight_tools = vec![tool("a", "agent_thinking"), tool("c", "agent_web_search")];
    b.tick_at(&h, 150, EPOCH + 150);
    assert_eq!(b.mood(), PetMood::AgentWebSearch);
    assert_eq!(in_flight_rank(&h.in_flight_tools), 3);
    assert_eq!(in_flight_rank(&vec![tool("x", "mystery")]), 0);
    assert_eq!(in_flight_rank(&Vec::new()), 0);
}

#[test]
fn stale_tools_in_flight_are_ignored() {
    let mut b = PetBrain::new();
    let mut h = hook("idle", EPOCH, true);
    h.in_flight_tools = vec![tool("a", "agent_running")];
    b.tick_at(&h, 0, EPOCH + 10_000);
    assert_eq!(b.mood(), PetMood::Idle);
    assert!(!b.has_hooks());
}

#[test]
fn subagents_keep_the_pet_thinking() {
    let mut b = PetBrain::new();
    let mut h = hook("idle", EPOCH, true);
    h.subagent_depth = 2;
    b.tick_at(&h, 400_000, EPOCH + 9_000);
    assert_eq!(b.mood(), PetMood::AgentThinking);
    h.subagent_depth = 0;
    b.tick_at(&h, 400_150, EPOCH + 9_000);
    assert_eq!(b.mood(), PetMood::AgentThinking);
    b.tick_at(&h, 400_300, EPOCH + 9_000);
    assert_eq!(b.mood(), PetMood::Idle);
}

#[test]
fn session_gap_shows_thinking_for_three_seconds() {
    let mut b = PetBrain::new();
    let h = hook("idle", EPOCH, true);
    b.tick_at(&h, 0, EPOCH + 2_999);
    assert_eq!(b.mood, PetMood::AgentThinking);
    b.tick_at(&h, 150, EPOCH + 3_000);
    assert_eq!(b.mood, PetMood::AgentThinking);
    b.tick_at(&h, 300, EPOCH + 3_001);
    assert_eq!(b.mood, PetMood::Idle);
}

#[test]
fn web_search_activity_shows_web_search() {
    let mut b = PetBrain::new();
    b.tick_at(&hook("agent_web_search", EPOCH, true), 0, EPOCH);
    assert_eq!(b.mood, PetMood::AgentWebSearch);
}

#[test]
fn tick_by_the_clock_reads_fresh_snapshots() {
    let now = std::time::SystemTime::now()
        .duration_since(std::time::UNIX_EPOCH)
        .unwrap()
        .as_millis() as u64;
    let mut b = PetBrain::new();
    b.tick(&hook("agent_error", now, true));
    assert_eq!(b.mood, PetMood::Error);
    assert!(b.has_hooks);
}
