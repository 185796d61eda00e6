use nixie::hook_state::HookState;
use nixie::state::{PetBrain, PetMood};

const EPOCH: u64 = 1_700_000_000_000;

fn hook(activity: &str, ts: u64, session_active: bool) -> HookState {
    HookState {
        ts,
        activity: activity.to_string(),
        session_active,
        ..Default::default()
    }
}

#[test]
fn legacy_labels() {
    assert_eq!(PetMood::UserCoding.label(), "coding");
    assert_eq!(PetMood::Error.label(), "error!");
}

#[test]
fn legacy_user_coding_from_native_signals() {
    let mut b = PetBrain::new();
    b.tick_at(true, true, &HookState::default(), 0, EPOCH);
    assert_eq!(b.mood, PetMood::UserCoding);
    b.tick_at(true, false, &HookState::default(), 100, EPOCH);
    assert_eq!(b.mood, PetMood::Idle);
}

#[test]
fn legacy_agent_signals_win_over_native() {
    let mut b = PetBrain::new();
    b.tick_at(true, true, &hook("agent_writing", EPOCH, true), 0, EPOCH);
    assert_eq!(b.mood, PetMood::AgentWriting);
    b.tick_at(true, true, &hook("idle", EPOCH, true), 100, EPOCH + 4_999);
    assert_eq!(b.mood, PetMood::AgentThinking);
    b.tick_at(false, false, &hook("agent_success", EPOCH + 5, false), 200, EPOCH + 10);
    assert_eq!(b.mood, PetMood::Success);
    b.tick_at(false, false, &hook("idle", EPOCH + 5, false), 3_199, EPOCH + 10);
    assert_eq!(b.mood, PetMood::Success);
    b.tick_at(false, false, &hook("idle", EPOCH + 5, false), 3_200, EPOCH + 10);
    assert_eq!(b.mood, PetMood::Idle);
}

#[test]
fn legacy_changes_without_debounce_and_sleeps() {
    let mut b = PetBrain::new();
    b.tick_at(false, false, &hook("agent_running", EPOCH, true), 0, EPOCH);
    assert_eq!(b.mood, PetMood::AgentRunning);
    b.tick_at(false, false, &hook("idle", EPOCH, false), 10, EPOCH);
    assert_eq!(b.mood, PetMood::Idle);
    assert_eq!(b.prev_mood, PetMood::AgentRunning);
    b.tick_at(false, false, &HookState::default(), 301_010, EPOCH);
    assert_eq!(b.mood, PetMood::Sleeping);
    b.tick(false, false, &HookState::default());
}

#[test]
fn legacy_success_opens_once_per_write() {
    let mut b = PetBrain::new();
    let h = hook("agent_success", EPOCH, false);
    b.tick_at(false, false, &h, 0, EPOCH);
    assert_eq!(b.mood(), PetMood::Success);
    b.tick_at(false, false, &h, 2_999, EPOCH + 2_999);
    assert_eq!(b.mood(), PetMood::Success);
    b.tick_at(false, false, &h, 3_000, EPOCH + 3_000);
    assert_eq!(b.mood(), PetMood::Idle);
    b.tick_at(false, false, &h, 3_150, EPOCH + 3_150);
    assert_eq!(b.mood(), PetMood::Idle);
    assert_eq!(b.prev_mood(), PetMood::Idle);
    assert!(b.has_hooks());
}
