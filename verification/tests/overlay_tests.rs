use nixie::hook_state::HookState;
use nixie::native_pulse::NativePulse;
use nixie::pet_core::PetMood;
use nixie::pet_overlay::{
    CelebrationTier, OverlayEvent, OverlayPersist, OverlayTickIn, PetOverlay, WalkPhase,
};

const EPOCH: u64 = 1_700_000_000_000;

fn fresh_overlay() -> PetOverlay {
    PetOverlay::new_at(OverlayPersist::default(), &NativePulse::default(), EPOCH)
}

fn tick(
    o: &mut PetOverlay,
    h: &HookState,
    mood: PetMood,
    prev: PetMood,
    pulse: &NativePulse,
    epoch: u64,
    now: u64,
) -> Vec<OverlayEvent> {
    o.tick_at(OverlayTickIn { hook: h, mood, prev_mood: prev, pulse }, epoch, now)
}

fn celebrations(evs: &[OverlayEvent]) -> Vec<(CelebrationTier, u64, bool)> {
    evs.iter()
        .filter_map(|e| match e {
            OverlayEvent::Celebration { tier, task_duration_ms, is_error } => {
                Some((*tier, *task_duration_ms, *is_error))
            }
            _ => None,
        })
        .collect()
}

fn success_after(ms: Option<u64>) -> (CelebrationTier, u64) {
    let mut o = fresh_overlay();
    let h = HookState { ts: 7, task_started_at_ms: ms.map(|m| EPOCH - m), ..Default::default() };
    let evs = tick(&mut o, &h, PetMood::Success, PetMood::Idle, &NativePulse::default(), EPOCH, 0);
    let c = celebrations(&evs);
    assert_eq!(c.len(), 1);
    assert!(!c[0].2);
    (c[0].0, c[0].1)
}

fn error_after(ms: u64) -> CelebrationTier {
    let mut o = fresh_overlay();
    let h = HookState { ts: 7, task_started_at_ms: Some(EPOCH - ms), ..Default::default() };
    let evs = tick(&mut o, &h, PetMood::Error, PetMood::AgentRunning, &NativePulse::default(), EPOCH, 0);
    let c = celebrations(&evs);
    assert_eq!(c.len(), 1);
    assert!(c[0].2);
    assert_eq!(c[0].1, ms);
    c[0].0
}

#[test]
fn tier_names() {
    assert_eq!(CelebrationTier::XS.as_str(), "xs");
    assert_eq!(CelebrationTier::S.as_str(), "s");
    assert_eq!(CelebrationTier::M.as_str(), "m");
    assert_eq!(CelebrationTier::L.as_str(), "l");
}

#[test]
fn success_tiers_by_duration() {
    assert_eq!(success_after(Some(19_999)), (CelebrationTier::XS, 19_999));
    assert_eq!(success_after(Some(20_000)), (CelebrationTier::S, 20_000));
    assert_eq!(success_after(Some(119_999)).0, CelebrationTier::S);
    assert_eq!(success_after(Some(120_000)).0, CelebrationTier::M);
    assert_eq!(success_after(Some(479_999)).0, CelebrationTier::M);
    assert_eq!(success_after(Some(480_000)).0, CelebrationTier::L);
    assert_eq!(success_after(None), (CelebrationTier::XS, 0));
}

#[test]
fn error_tiers_by_duration() {
    assert_eq!(error_after(0), CelebrationTier::S);
    assert_eq!(error_after(44_999), CelebrationTier::S);
    assert_eq!(error_after(45_000), CelebrationTier::M);
    assert_eq!(error_after(119_999), CelebrationTier::M);
    assert_eq!(error_after(120_000), CelebrationTier::L);
}

#[test]
fn celebration_once_per_hook_write() {
    let mut o = fresh_overlay();
    let h = HookState { ts: 42, ..Default::default() };
    let p = NativePulse::default();
    let first = tick(&mut o, &h, PetMood::Success, PetMood::Idle, &p, EPOCH, 0);
    assert_eq!(celebrations(&first).len(), 1);
    let again = tick(&mut o, &h, PetMood::Success, PetMood::Idle, &p, EPOCH, 10);
    assert!(celebrations(&again).is_empty());
    let err = tick(&mut o, &h, PetMood::Error, PetMood::Success, &p, EPOCH, 20);
    assert!(celebrations(&err).is_empty());
    let h2 = HookState { ts: 43, ..Default::default() };
    let next = tick(&mut o, &h2, PetMood::Error, PetMood::Success, &p, EPOCH, 30);
    assert_eq!(celebrations(&next).len(), 1);
    // Without a time every entry is celebrated.
    let h0 = HookState::default();
    assert_eq!(celebrations(&tick(&mut o, &h0, PetMood::Success, PetMood::Idle, &p, EPOCH, 40)).len(), 1);
    assert_eq!(celebrations(&tick(&mut o, &h0, PetMood::Success, PetMood::Idle, &p, EPOCH, 50)).len(), 1);
}

#[test]
fn no_celebration_without_entering() {
    let mut o = fresh_overlay();
    let h = HookState { ts: 42, ..Default::default() };
    let evs = tick(&mut o, &h, PetMood::Success, PetMood::Success, &NativePulse::default(), EPOCH, 0);
    assert!(celebrations(&evs).is_empty());
}

#[test]
fn toasts_fire_once_per_timestamp() {
    let mut o = fresh_overlay();
    let h = HookState { tool_success_ts: Some(9), file_edit_success_ts: Some(11), ..Default::default() };
    let p = NativePulse { ts: 5, kind: "user_typing".to_string() };
    let evs = tick(&mut o, &h, PetMood::Idle, PetMood::Idle, &p, EPOCH, 0);
    assert_eq!(evs.len(), 3);
    match &evs[0] {
        OverlayEvent::ToolSuccessToast { message } => assert_eq!(message, "执行成功！"),
        e => panic!("unexpected {:?}", e),
    }
    match &evs[1] {
        OverlayEvent::FileEditToast { message } => assert_eq!(message, "文件完成编辑！"),
        e => panic!("unexpected {:?}", e),
    }
    match &evs[2] {
        OverlayEvent::UserTypingToast { message } => assert_eq!(message, "哒哒哒"),
        e => panic!("unexpected {:?}", e),
    }
    let again = tick(&mut o, &h, PetMood::Idle, PetMood::Idle, &p, EPOCH, 10);
    assert!(again.is_empty());
    let h2 = HookState { tool_success_ts: Some(10), file_edit_success_ts: Some(11), ..Default::default() };
    let next = tick(&mut o, &h2, PetMood::Idle, PetMood::Idle, &p, EPOCH, 20);
    assert_eq!(next.len(), 1);
    assert!(matches!(next[0], OverlayEvent::ToolSuccessToast { .. }));
}

#[test]
fn other_pulses_give_no_toast() {
    let mut o = fresh_overlay();
    let p = NativePulse { ts: 5, kind: "mouse".to_string() };
    assert!(tick(&mut o, &HookState::default(), PetMood::Idle, PetMood::Idle, &p, EPOCH, 0).is_empty());
}

#[test]
fn boot_pulse_counts_as_shown() {
    let boot = NativePulse { ts: 5, kind: "user_typing".to_string() };
    let mut o = PetOverlay::new_at(OverlayPersist::default(), &boot, EPOCH);
    assert!(tick(&mut o, &HookState::default(), PetMood::Idle, PetMood::Idle, &boot, EPOCH, 0).is_empty());
}

#[test]
fn feeding_cooldown() {
    let mut o = fresh_overlay();
    assert!(o.register_feed_at(0));
    assert!(!o.register_feed_at(29_999));
    let evs = tick(&mut o, &HookState::default(), PetMood::Idle, PetMood::Idle, &NativePulse::default(), EPOCH, 29_999);
    assert!(evs.is_empty());
    let evs = tick(&mut o, &HookState::default(), PetMood::Idle, PetMood::Idle, &NativePulse::default(), EPOCH, 30_000);
    assert!(matches!(evs[..], [OverlayEvent::FeedAvailabilityChanged { can_feed: true }]));
    assert!(o.register_feed_at(30_000));
    let evs = tick(&mut o, &HookState::default(), PetMood::Idle, PetMood::Idle, &NativePulse::default(), EPOCH, 30_001);
    assert!(evs.is_empty());
}

#[test]
fn persisted_feeding_keeps_cooling_down() {
    let persisted = OverlayPersist { last_feed_at_ms: EPOCH - 10_000, sound_enabled: true };
    let mut o = PetOverlay::new_at(persisted, &NativePulse::default(), EPOCH);
    assert!(o.sound_enabled());
    assert!(!o.register_feed_at(19_999));
    assert!(o.register_feed_at(20_000));
    let old = OverlayPersist { last_feed_at_ms: EPOCH - 30_000, sound_enabled: false };
    let mut o = PetOverlay::new_at(old, &NativePulse::default(), EPOCH);
    assert!(o.register_feed_at(0));
}

#[test]
fn feeding_by_the_clock() {
    let mut o = PetOverlay::new(OverlayPersist::default(), &NativePulse::default());
    assert!(o.register_feed());
    assert!(!o.register_feed());
    let evs = o.tick(OverlayTickIn {
        hook: &HookState::default(),
        mood: PetMood::Idle,
        prev_mood: PetMood::Idle,
        pulse: &NativePulse::default(),
    });
    assert!(evs.is_empty());
}

#[test]
fn walk_phase_reported_once() {
    let mut o = fresh_overlay();
    o.set_walk_enabled(true);
    let evs = tick(&mut o, &HookState::default(), PetMood::Idle, PetMood::Idle, &NativePulse::default(), EPOCH, 0);
    assert!(matches!(evs[..], [OverlayEvent::WalkPhaseChanged { phase: WalkPhase::Idle }]));
    assert!(tick(&mut o, &HookState::default(), PetMood::Idle, PetMood::Idle, &NativePulse::default(), EPOCH, 1).is_empty());
    o.set_walk_enabled(false);
    let evs = tick(&mut o, &HookState::default(), PetMood::Idle, PetMood::Idle, &NativePulse::default(), EPOCH, 2);
    assert!(matches!(evs[..], [OverlayEvent::WalkPhaseChanged { phase: WalkPhase::Off }]));
}

#[test]
fn sound_toggles() {
    let mut o = fresh_overlay();
    assert!(!o.sound_enabled());
    assert!(o.toggle_sound());
    assert!(o.sound_enabled());
    assert!(!o.toggle_sound());
    assert!(!o.sound_enabled());
}

#[test]
fn events_come_in_order() {
    let mut o = fresh_overlay();
    o.set_walk_enabled(true);
    assert!(o.register_feed_at(0));
    let h = HookState { ts: 3, tool_success_ts: Some(1), task_started_at_ms: Some(EPOCH - 1_000), ..Default::default() };
    let evs = tick(&mut o, &h, PetMood::Error, PetMood::AgentThinking, &NativePulse::default(), EPOCH, 40_000);
    assert_eq!(evs.len(), 4);
    assert!(matches!(evs[0], OverlayEvent::ToolSuccessToast { .. }));
    assert!(matches!(evs[1], OverlayEvent::Celebration { tier: CelebrationTier::S, task_duration_ms: 1_000, is_error: true }));
    assert!(matches!(evs[2], OverlayEvent::FeedAvailabilityChanged { can_feed: true }));
    assert!(matches!(evs[3], OverlayEvent::WalkPhaseChanged { phase: WalkPhase::Idle }));
}

#[test]
fn feed_available_reported_once_over_many_ticks() {
    let mut o = fresh_overlay();
    assert!(o.register_feed_at(1_000));
    let mut reports = Vec::new();
    let mut now = 1_000;
    while now <= 40_000 {
        let evs = tick(&mut o, &HookState::default(), PetMood::Idle, PetMood::Idle, &NativePulse::default(), EPOCH, now);
        for e in evs {
            if let OverlayEvent::FeedAvailabilityChanged { can_feed } = e {
                reports.push((now, can_feed));
            }
        }
        assert_eq!(o.register_feed_at(now.min(30_999)), false);
        now += 150;
    }
    assert_eq!(reports, vec![(31_000, true)]);
    assert!(o.register_feed_at(31_000));
}

#[test]
fn celebration_filter_follows_the_last_timed_mark() {
    let mut o = fresh_overlay();
    assert!(o.should_emit_terminal_celebration(0));
    assert!(o.should_emit_terminal_celebration(5));
    o.mark_terminal_celebrated(5);
    assert!(!o.should_emit_terminal_celebration(5));
    assert!(o.should_emit_terminal_celebration(0));
    o.mark_terminal_celebrated(0);
    assert!(!o.should_emit_terminal_celebration(5));
    o.mark_terminal_celebrated(9);
    assert!(o.should_emit_terminal_celebration(5));
    assert!(!o.should_emit_terminal_celebration(9));
}
